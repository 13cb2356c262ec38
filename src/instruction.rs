//! The five instructions of the echo program and their wire format: a one-byte
//! variant tag followed by the variant's fields in order.
use vstd::prelude::*;
use crate::codec::{copy_range, read_u32, read_u64, u32_at, u64_at};
use crate::error::EchoError;

verus! {

/// A decoded instruction.
pub enum EchoInstruction {
    /// Write `data` once into an open buffer.
    Echo { data: Vec<u8> },
    /// Create an authority-gated buffer of `buffer_size` bytes.
    InitializeAuthorizedEcho { buffer_seed: u64, buffer_size: usize },
    /// Replace the buffer of an authority-gated buffer.
    AuthorizedEcho { data: Vec<u8> },
    /// Create a payment-gated buffer holding `buffer_size` bytes.
    InitializeVendingMachineEcho { price: u64, buffer_size: usize },
    /// Pay the price and write `data` into a payment-gated buffer.
    VendingMachineEcho { data: Vec<u8> },
}

/// What an instruction holds, with its byte strings as sequences.
pub enum InstructionModel {
    Echo { data: Seq<u8> },
    InitializeAuthorizedEcho { buffer_seed: u64, buffer_size: usize },
    AuthorizedEcho { data: Seq<u8> },
    InitializeVendingMachineEcho { price: u64, buffer_size: usize },
    VendingMachineEcho { data: Seq<u8> },
}

impl View for EchoInstruction {
    type V = InstructionModel;

    open spec fn view(&self) -> InstructionModel {
        match self {
            EchoInstruction::Echo { data } => InstructionModel::Echo { data: data@ },
            EchoInstruction::InitializeAuthorizedEcho { buffer_seed, buffer_size } =>
                InstructionModel::InitializeAuthorizedEcho {
                buffer_seed: *buffer_seed,
                buffer_size: *buffer_size,
            },
            EchoInstruction::AuthorizedEcho { data } => InstructionModel::AuthorizedEcho { data: data@ },
            EchoInstruction::InitializeVendingMachineEcho { price, buffer_size } =>
                InstructionModel::InitializeVendingMachineEcho {
                price: *price,
                buffer_size: *buffer_size,
            },
            EchoInstruction::VendingMachineEcho { data } => InstructionModel::VendingMachineEcho {
                data: data@,
            },
        }
    }
}

/// The byte string that follows the tag, when `s` is a tag and exactly one
/// length-prefixed byte string.
pub open spec fn parse_bytes_body(s: Seq<u8>) -> Option<Seq<u8>> {
    if s.len() >= 5 && s.len() == 5 + u32_at(s, 1) {
        Some(s.subrange(5, s.len() as int))
    } else {
        None
    }
}

/// The word and size that follow the tag, when `s` is a tag and exactly two
/// eight-byte words, the second of which fits a `usize`.
pub open spec fn parse_word_size_body(s: Seq<u8>) -> Option<(u64, usize)> {
    if s.len() == 17 && (u64_at(s, 9) as usize) as u64 == u64_at(s, 9) {
        Some((u64_at(s, 1), u64_at(s, 9) as usize))
    } else {
        None
    }
}

/// The instruction that `s` encodes, when it is exactly one.
pub open spec fn parse_instruction(s: Seq<u8>) -> Option<InstructionModel> {
    if s.len() == 0 {
        None
    } else if s[0] == 0 || s[0] == 2 || s[0] == 4 {
        match parse_bytes_body(s) {
            Some(data) => Some(
                if s[0] == 0 {
                    InstructionModel::Echo { data }
                } else if s[0] == 2 {
                    InstructionModel::AuthorizedEcho { data }
                } else {
                    InstructionModel::VendingMachineEcho { data }
                },
            ),
            None => None,
        }
    } else if s[0] == 1 || s[0] == 3 {
        match parse_word_size_body(s) {
            Some((w, n)) => Some(
                if s[0] == 1 {
                    InstructionModel::InitializeAuthorizedEcho { buffer_seed: w, buffer_size: n }
                } else {
                    InstructionModel::InitializeVendingMachineEcho { price: w, buffer_size: n }
                },
            ),
            None => None,
        }
    } else {
        None
    }
}

impl EchoInstruction {
    /// Decodes instruction bytes; anything but exactly one well-formed
    /// instruction fails with `InvalidInstructionData`.
    pub fn try_from_slice(s: &[u8]) -> (r: Result<EchoInstruction, EchoError>)
        ensures
            match r {
                Ok(i) => parse_instruction(s@) == Some(i@),
                Err(e) => parse_instruction(s@) is None && e == EchoError::InvalidInstructionData,
            },
    {
        if s.len() == 0 {
            return Err(EchoError::InvalidInstructionData);
        }
        let tag = s[0];
        if tag == 0 || tag == 2 || tag == 4 {
            if s.len() < 5 {
                return Err(EchoError::InvalidInstructionData);
            }
            let n = read_u32(s, 1);
            if s.len() - 5 != n as usize {
                return Err(EchoError::InvalidInstructionData);
            }
            let data = copy_range(s, 5, s.len());
            if tag == 0 {
                Ok(EchoInstruction::Echo { data })
            } else if tag == 2 {
                Ok(EchoInstruction::AuthorizedEcho { data })
            } else {
                Ok(EchoInstruction::VendingMachineEcho { data })
            }
        } else if tag == 1 || tag == 3 {
            if s.len() != 17 {
                return Err(EchoError::InvalidInstructionData);
            }
            let word = read_u64(s, 1);
            let wide = read_u64(s, 9);
            let size = wide as usize;
            if size as u64 != wide {
                return Err(EchoError::InvalidInstructionData);
            }
            if tag == 1 {
                Ok(EchoInstruction::InitializeAuthorizedEcho { buffer_seed: word, buffer_size: size })
            } else {
                Ok(EchoInstruction::InitializeVendingMachineEcho { price: word, buffer_size: size })
            }
        } else {
            Err(EchoError::InvalidInstructionData)
        }
    }
}

} // verus!
