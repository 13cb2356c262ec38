use echo_program::error::EchoError;
use echo_program::processor::{fit_into, AccountState, Effect, Processor};
use echo_program::state::VendingMachineBufferHeader;
use solana_program::pubkey::Pubkey;

const PROGRAM: [u8; 32] = [7u8; 32];
const MINT: [u8; 32] = [40u8; 32];

fn pda(key: &[u8; 32], word: u64) -> ([u8; 32], u8) {
    let (k, bump) = Pubkey::find_program_address(
        &[b"authority", key.as_ref(), &word.to_le_bytes()],
        &Pubkey::new_from_array(PROGRAM),
    );
    (k.to_bytes(), bump)
}

fn acct(key: [u8; 32], data: Vec<u8>) -> AccountState {
    AccountState { key, is_signer: false, data }
}

fn init_accounts(addr: [u8; 32]) -> Vec<AccountState> {
    vec![acct(addr, vec![]), acct(MINT, vec![]), acct([2u8; 32], vec![]), acct([0u8; 32], vec![])]
}

fn created(price: u64, size: usize) -> Vec<u8> {
    let (addr, _) = pda(&MINT, price);
    let ix = borsh::to_vec(&(3u8, price, size as u64)).unwrap();
    let effect = Processor::process_instruction(&PROGRAM, &init_accounts(addr), &ix).unwrap();
    let mut data = match &effect {
        Effect::CreateThenStore { funder, new_account, system_program, space, .. } => {
            assert_eq!((*funder, *new_account, *system_program), (2, 0, 3));
            assert_eq!(*space, size as u64 + 13);
            vec![0u8; *space as usize]
        }
        _ => panic!("expected an account creation"),
    };
    Processor::complete(&effect, &mut data).unwrap();
    data
}

fn echo_accounts(addr: [u8; 32], data: Vec<u8>) -> Vec<AccountState> {
    vec![acct(addr, data), acct([5u8; 32], vec![]), acct([6u8; 32], vec![]), acct(MINT, vec![]), acct([8u8; 32], vec![])]
}

#[test]
fn initialize_vending_stores_zeroed_buffer() {
    let data = created(25, 6);
    let (_, bump) = pda(&MINT, 25);
    let header = VendingMachineBufferHeader::try_from_slice(&data).unwrap();
    assert_eq!((header.bump_seed, header.price, header.buffer), (bump, 25, vec![0u8; 6]));
}

#[test]
fn initialize_vending_rejects_overflowing_size() {
    let (addr, _) = pda(&MINT, 25);
    let ix = borsh::to_vec(&(3u8, 25u64, usize::MAX as u64)).unwrap();
    let r = Processor::process_instruction(&PROGRAM, &init_accounts(addr), &ix);
    assert_eq!(r.err(), Some(EchoError::InvalidArgument));
}

#[test]
fn initialize_vending_rejects_other_address() {
    let ix = borsh::to_vec(&(3u8, 25u64, 4u64)).unwrap();
    let r = Processor::process_instruction(&PROGRAM, &init_accounts([1u8; 32]), &ix);
    assert_eq!(r.err(), Some(EchoError::InvalidArgument));
}

#[test]
fn vending_echo_burns_price_then_pads() {
    let data = created(25, 6);
    let (addr, _) = pda(&MINT, 25);
    let accounts = echo_accounts(addr, data.clone());
    let ix = borsh::to_vec(&(4u8, vec![1u8, 2, 3])).unwrap();
    let effect = Processor::process_instruction(&PROGRAM, &accounts, &ix).unwrap();
    match &effect {
        Effect::BurnThenStore { token_program, source, mint, authority, amount, account, .. } => {
            assert_eq!((*token_program, *source, *mint, *authority, *account), (4, 2, 3, 1, 0));
            assert_eq!(*amount, 25);
        }
        _ => panic!("expected a burn"),
    }
    // Until the burn has succeeded nothing is stored.
    assert_eq!(accounts[0].data, data);
    let mut stored = data.clone();
    Processor::complete(&effect, &mut stored).unwrap();
    let header = VendingMachineBufferHeader::try_from_slice(&stored).unwrap();
    assert_eq!(header.buffer, vec![1, 2, 3, 0, 0, 0]);
    assert_eq!(header.price, 25);
}

#[test]
fn vending_echo_truncates_long_data() {
    let data = created(9, 2);
    let (addr, _) = pda(&MINT, 9);
    let ix = borsh::to_vec(&(4u8, vec![1u8, 2, 3, 4])).unwrap();
    let effect = Processor::process_instruction(&PROGRAM, &echo_accounts(addr, data.clone()), &ix).unwrap();
    let mut stored = data;
    Processor::complete(&effect, &mut stored).unwrap();
    assert_eq!(VendingMachineBufferHeader::try_from_slice(&stored).unwrap().buffer, vec![1, 2]);
}

#[test]
fn vending_echo_rejects_other_mint() {
    let data = created(25, 6);
    let (addr, _) = pda(&MINT, 25);
    let mut accounts = echo_accounts(addr, data);
    accounts[3].key = [41u8; 32];
    let ix = borsh::to_vec(&(4u8, vec![1u8])).unwrap();
    let r = Processor::process_instruction(&PROGRAM, &accounts, &ix);
    assert_eq!(r.err(), Some(EchoError::InvalidArgument));
}

#[test]
fn vending_echo_needs_five_accounts() {
    let ix = borsh::to_vec(&(4u8, vec![1u8])).unwrap();
    let r = Processor::process_instruction(&PROGRAM, &vec![acct([1u8; 32], vec![])], &ix);
    assert_eq!(r.err(), Some(EchoError::NotEnoughAccountKeys));
}

#[test]
fn fit_into_pads_and_cuts() {
    assert_eq!(fit_into(&[1, 2], 4), vec![1, 2, 0, 0]);
    assert_eq!(fit_into(&[1, 2, 3], 1), vec![1]);
}
