//! Laws of the processor, stated over its model and proved.
use vstd::prelude::*;
use crate::address::buffer_address;
use crate::error::EchoError;
use crate::instruction::{parse_instruction, InstructionModel};
use crate::processor::{echo_bytes, process_spec, AccountModel, EffectModel};
use crate::state::{header_bytes, lemma_header_parse_exact, parse_header, HeaderModel};

verus! {

/// Echo into a buffer whose flag is clear succeeds and sets the flag; a second
/// echo into the buffer it left fails with `AccountAlreadyWritten`.
pub proof fn echo_is_write_once(
    program_id: Seq<u8>,
    accounts: Seq<AccountModel>,
    first: Seq<u8>,
    second: Seq<u8>,
)
    requires
        parse_instruction(first) is Some && parse_instruction(first).unwrap() is Echo,
        parse_instruction(second) is Some && parse_instruction(second).unwrap() is Echo,
        accounts.len() >= 1,
        accounts[0].data.len() >= 1,
        accounts[0].data[0] == 0,
    ensures
        process_spec(program_id, accounts, first) is Ok,
        ({
            let effect = process_spec(program_id, accounts, first).unwrap();
            &&& effect is Write
            &&& effect->Write_account == 0
            &&& effect->Write_data.len() == accounts[0].data.len()
            &&& effect->Write_data[0] == 1
            &&& process_spec(
                program_id,
                accounts.update(0, AccountModel { data: effect->Write_data, ..accounts[0] }),
                second,
            ) == Err::<EffectModel, EchoError>(EchoError::AccountAlreadyWritten)
        }),
{
    let effect = process_spec(program_id, accounts, first).unwrap();
    let written = accounts.update(0, AccountModel { data: effect->Write_data, ..accounts[0] });
    assert(written[0].data == effect->Write_data);
}

/// Echo copies the first bytes of `data` that fit after the flag and keeps
/// every byte past the end of `data`.
pub proof fn echo_truncates_and_keeps(buf: Seq<u8>, data: Seq<u8>)
    requires
        buf.len() >= 1,
        buf[0] == 0,
    ensures
        echo_bytes(buf, data) is Ok,
        ({
            let out = echo_bytes(buf, data).unwrap();
            &&& out.len() == buf.len()
            &&& out[0] == 1
            &&& forall|i: int| 0 <= i < data.len() && 1 + i < buf.len() ==> out[1 + i] == data[i]
            &&& forall|i: int| 1 + data.len() <= i < buf.len() ==> out[i] == buf[i]
        }),
{
}

/// `InitializeAuthorizedEcho` accepts only the address derived from the
/// authority and the buffer seed; any other address fails with
/// `InvalidArgument`.
pub proof fn initialize_authorized_binds_address(
    program_id: Seq<u8>,
    accounts: Seq<AccountModel>,
    input: Seq<u8>,
    buffer_seed: u64,
    buffer_size: usize,
)
    requires
        parse_instruction(input) == Some(
            InstructionModel::InitializeAuthorizedEcho { buffer_seed, buffer_size },
        ),
        accounts.len() >= 3,
    ensures
        process_spec(program_id, accounts, input) is Ok ==> exists|bump: u8|
            buffer_address(accounts[1].key, buffer_seed, program_id) == Some((accounts[0].key, bump)),
        (forall|bump: u8|
            buffer_address(accounts[1].key, buffer_seed, program_id) != Some((accounts[0].key, bump)))
            ==> process_spec(program_id, accounts, input) == Err::<EffectModel, EchoError>(
            EchoError::InvalidArgument,
        ),
{
    if process_spec(program_id, accounts, input) is Ok {
        let (addr, bump) = buffer_address(accounts[1].key, buffer_seed, program_id).unwrap();
        assert(buffer_address(accounts[1].key, buffer_seed, program_id) == Some((accounts[0].key, bump)));
    }
    if buffer_address(accounts[1].key, buffer_seed, program_id) is Some {
        let (addr, bump) = buffer_address(accounts[1].key, buffer_seed, program_id).unwrap();
        if addr == accounts[0].key {
            assert(buffer_address(accounts[1].key, buffer_seed, program_id) == Some((accounts[0].key, bump)));
        }
    }
}

/// `AuthorizedEcho` by a signing authority writes only to the address derived
/// from the authority and the buffer seed stored in the buffer; any other
/// address fails with `InvalidArgument`.
pub proof fn authorized_echo_binds_address(
    program_id: Seq<u8>,
    accounts: Seq<AccountModel>,
    input: Seq<u8>,
    data: Seq<u8>,
    header: HeaderModel,
)
    requires
        parse_instruction(input) == Some(InstructionModel::AuthorizedEcho { data }),
        accounts.len() >= 2,
        parse_header(accounts[0].data) == Some(header),
        accounts[1].is_signer,
    ensures
        process_spec(program_id, accounts, input) is Ok ==> exists|bump: u8|
            buffer_address(accounts[1].key, header.word, program_id) == Some((accounts[0].key, bump)),
        (forall|bump: u8|
            buffer_address(accounts[1].key, header.word, program_id) != Some((accounts[0].key, bump)))
            ==> process_spec(program_id, accounts, input) == Err::<EffectModel, EchoError>(
            EchoError::InvalidArgument,
        ),
{
    if process_spec(program_id, accounts, input) is Ok {
        let (addr, bump) = buffer_address(accounts[1].key, header.word, program_id).unwrap();
        assert(buffer_address(accounts[1].key, header.word, program_id) == Some((accounts[0].key, bump)));
    }
    if buffer_address(accounts[1].key, header.word, program_id) is Some {
        let (addr, bump) = buffer_address(accounts[1].key, header.word, program_id).unwrap();
        if addr == accounts[0].key {
            assert(buffer_address(accounts[1].key, header.word, program_id) == Some((accounts[0].key, bump)));
        }
    }
}

/// `AuthorizedEcho` on a well-formed buffer fails with
/// `MissingRequiredSignature` when the authority did not sign, whatever the
/// addresses are.
pub proof fn authorized_echo_needs_signer(
    program_id: Seq<u8>,
    accounts: Seq<AccountModel>,
    input: Seq<u8>,
)
    requires
        parse_instruction(input) is Some && parse_instruction(input).unwrap() is AuthorizedEcho,
        accounts.len() >= 2,
        parse_header(accounts[0].data) is Some,
        !accounts[1].is_signer,
    ensures
        process_spec(program_id, accounts, input) == Err::<EffectModel, EchoError>(
            EchoError::MissingRequiredSignature,
        ),
{
}

/// `VendingMachineEcho` changes no account by itself: when accepted, the new
/// bytes of the buffer come only as the second half of a burn of the stored
/// price, to be stored once that burn has succeeded, and they are exactly as
/// long as the buffer's current bytes.
pub proof fn vending_echo_writes_only_after_burn(
    program_id: Seq<u8>,
    accounts: Seq<AccountModel>,
    input: Seq<u8>,
)
    requires
        parse_instruction(input) is Some && parse_instruction(input).unwrap() is VendingMachineEcho,
    ensures
        process_spec(program_id, accounts, input) is Ok ==> {
            let effect = process_spec(program_id, accounts, input).unwrap();
            &&& effect is BurnThenStore
            &&& effect->BurnThenStore_account == 0
            &&& effect->BurnThenStore_amount == parse_header(accounts[0].data).unwrap().word
            &&& effect->BurnThenStore_data.len() == accounts[0].data.len()
        },
{
    if process_spec(program_id, accounts, input) is Ok {
        let h = parse_header(accounts[0].data).unwrap();
        lemma_header_parse_exact(accounts[0].data);
        let effect = process_spec(program_id, accounts, input).unwrap();
        assert(effect->BurnThenStore_data.len() == header_bytes(h).len());
    }
}

/// The initializers ask for an account exactly as large as the header they
/// then store into it.
pub proof fn created_account_fits_header(program_id: Seq<u8>, accounts: Seq<AccountModel>, input: Seq<u8>)
    requires
        process_spec(program_id, accounts, input) is Ok,
        process_spec(program_id, accounts, input).unwrap() is CreateThenStore,
    ensures
        process_spec(program_id, accounts, input).unwrap()->CreateThenStore_header.len()
            == process_spec(program_id, accounts, input).unwrap()->CreateThenStore_space,
{
}

} // verus!
