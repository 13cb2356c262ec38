use echo_program::address::derive_buffer_address;
use echo_program::error::EchoError;
use echo_program::processor::{AccountState, Effect, Processor};
use echo_program::state::AuthorizedBufferHeader;
use solana_program::pubkey::Pubkey;

const PROGRAM: [u8; 32] = [7u8; 32];
const AUTHORITY: [u8; 32] = [21u8; 32];

fn pda(key: &[u8; 32], word: u64) -> ([u8; 32], u8) {
    let (k, bump) = Pubkey::find_program_address(
        &[b"authority", key.as_ref(), &word.to_le_bytes()],
        &Pubkey::new_from_array(PROGRAM),
    );
    (k.to_bytes(), bump)
}

fn acct(key: [u8; 32], is_signer: bool, data: Vec<u8>) -> AccountState {
    AccountState { key, is_signer, data }
}

fn init_ix(seed: u64, size: u64) -> Vec<u8> {
    borsh::to_vec(&(1u8, seed, size)).unwrap()
}

fn echo_ix(data: &[u8]) -> Vec<u8> {
    borsh::to_vec(&(2u8, data.to_vec())).unwrap()
}

/// Runs an initialization and returns the created account's bytes.
fn initialize(seed: u64, size: usize) -> (Vec<u8>, u8) {
    let (addr, bump) = pda(&AUTHORITY, seed);
    let accounts = vec![acct(addr, false, vec![]), acct(AUTHORITY, true, vec![]), acct([0u8; 32], false, vec![])];
    let effect = Processor::process_instruction(&PROGRAM, &accounts, &init_ix(seed, size as u64)).unwrap();
    match &effect {
        Effect::CreateThenStore { funder, new_account, system_program, space, signer_seeds, header } => {
            assert_eq!((*funder, *new_account, *system_program), (1, 0, 2));
            assert_eq!(*space, size as u64);
            assert_eq!(header.len(), size);
            assert_eq!(signer_seeds.len(), 4);
            assert_eq!(signer_seeds[0], b"authority".to_vec());
            assert_eq!(signer_seeds[1], AUTHORITY.to_vec());
            assert_eq!(signer_seeds[2], seed.to_le_bytes().to_vec());
            assert_eq!(signer_seeds[3], vec![bump]);
        }
        _ => panic!("expected an account creation"),
    }
    let mut created = vec![0u8; size];
    Processor::complete(&effect, &mut created).unwrap();
    (created, bump)
}

#[test]
fn derived_address_matches_runtime() {
    let (addr, bump) = pda(&AUTHORITY, 7);
    assert_eq!(derive_buffer_address(&AUTHORITY, 7, &PROGRAM), Some((addr, bump)));
    assert_ne!(addr, AUTHORITY);
}

#[test]
fn scenario_size_twenty_seed_seven() {
    let (created, bump) = initialize(7, 20);
    let header = AuthorizedBufferHeader::try_from_slice(&created).unwrap();
    assert_eq!((header.bump_seed, header.buffer_seed), (bump, 7));
    assert_eq!(header.buffer, vec![0u8; 7]);

    let (addr, _) = pda(&AUTHORITY, 7);
    let accounts = vec![acct(addr, false, created.clone()), acct(AUTHORITY, true, vec![])];
    let data = [1u8, 2, 3, 4, 5, 6, 7];
    let effect = Processor::process_instruction(&PROGRAM, &accounts, &echo_ix(&data)).unwrap();
    let mut stored = created.clone();
    Processor::complete(&effect, &mut stored).unwrap();
    let header = AuthorizedBufferHeader::try_from_slice(&stored).unwrap();
    assert_eq!(header.buffer, data.to_vec());

    let too_long = Processor::process_instruction(&PROGRAM, &accounts, &echo_ix(&[9u8; 9]));
    assert_eq!(too_long.err(), Some(EchoError::BorshIoError));
}

#[test]
fn initialize_rejects_other_address() {
    let accounts = vec![acct([1u8; 32], false, vec![]), acct(AUTHORITY, true, vec![]), acct([0u8; 32], false, vec![])];
    let r = Processor::process_instruction(&PROGRAM, &accounts, &init_ix(7, 20));
    assert_eq!(r.err(), Some(EchoError::InvalidArgument));
}

#[test]
fn initialize_rejects_size_below_header() {
    let (addr, _) = pda(&AUTHORITY, 3);
    let accounts = vec![acct(addr, false, vec![]), acct(AUTHORITY, true, vec![]), acct([0u8; 32], false, vec![])];
    let r = Processor::process_instruction(&PROGRAM, &accounts, &init_ix(3, 12));
    assert_eq!(r.err(), Some(EchoError::InvalidArgument));
}

#[test]
fn initialize_needs_three_accounts() {
    let accounts = vec![acct([1u8; 32], false, vec![]), acct(AUTHORITY, true, vec![])];
    let r = Processor::process_instruction(&PROGRAM, &accounts, &init_ix(7, 20));
    assert_eq!(r.err(), Some(EchoError::NotEnoughAccountKeys));
}

#[test]
fn authorized_echo_needs_signature() {
    let (created, _) = initialize(7, 20);
    let (addr, _) = pda(&AUTHORITY, 7);
    let accounts = vec![acct(addr, false, created), acct(AUTHORITY, false, vec![])];
    let r = Processor::process_instruction(&PROGRAM, &accounts, &echo_ix(&[1]));
    assert_eq!(r.err(), Some(EchoError::MissingRequiredSignature));
    let elsewhere = vec![acct([1u8; 32], false, accounts[0].data.clone()), acct(AUTHORITY, false, vec![])];
    let r = Processor::process_instruction(&PROGRAM, &elsewhere, &echo_ix(&[1]));
    assert_eq!(r.err(), Some(EchoError::MissingRequiredSignature));
}

#[test]
fn authorized_echo_rejects_other_authority() {
    let (created, _) = initialize(7, 20);
    let (addr, _) = pda(&AUTHORITY, 7);
    let accounts = vec![acct(addr, false, created), acct([22u8; 32], true, vec![])];
    let r = Processor::process_instruction(&PROGRAM, &accounts, &echo_ix(&[1]));
    assert_eq!(r.err(), Some(EchoError::InvalidArgument));
}

#[test]
fn authorized_echo_rejects_corrupt_buffer() {
    let (addr, _) = pda(&AUTHORITY, 7);
    let accounts = vec![acct(addr, false, vec![1, 2, 3]), acct(AUTHORITY, true, vec![])];
    let r = Processor::process_instruction(&PROGRAM, &accounts, &echo_ix(&[1]));
    assert_eq!(r.err(), Some(EchoError::BorshIoError));
}
