//! The failures of the echo program.
use vstd::prelude::*;

verus! {

/// Why an instruction was refused. Every failure leaves all accounts as they were.
#[derive(Clone, Copy, Debug, PartialEq, Eq, Structural)]
pub enum EchoError {
    /// The instruction bytes are not one well-formed instruction.
    InvalidInstructionData,
    /// The write-once buffer has already been written.
    AccountAlreadyWritten,
    /// A supplied address is not the derived one, or a size is out of range.
    InvalidArgument,
    /// The authority did not sign.
    MissingRequiredSignature,
    /// Fewer accounts were supplied than the instruction needs.
    NotEnoughAccountKeys,
    /// The account is too small to hold even the write flag.
    AccountDataTooSmall,
    /// Stored bytes are not a well-formed header, or a header does not fit its account.
    BorshIoError,
    /// Reserved for handlers that are not built.
    NotImplemented,
}

} // verus!
