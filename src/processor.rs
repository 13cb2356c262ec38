//! The instruction processor. One call decodes the instruction, checks the
//! accounts it was handed and decides what happens to them: either new bytes
//! for one account, or a call into another program (account creation, token
//! burn) followed, once that call has succeeded, by bytes to store.
use vstd::prelude::*;
use crate::address::{buffer_address, derive_buffer_address, make_buffer_seeds, same_address, signer_seeds};
use crate::codec::copy_range;
use crate::error::EchoError;
use crate::instruction::{parse_instruction, EchoInstruction, InstructionModel};
use crate::state::{
    encodable, lemma_header_parse_exact, header_bytes, parse_header, write_into, zeroed, zeros, AuthorizedBufferHeader,
    HeaderModel, VendingMachineBufferHeader, BUFFER_OFFSET_BYTES,
};

verus! {

/// An account as the program sees it: its address, whether it signed the
/// transaction, and its bytes.
pub struct AccountState {
    pub key: [u8; 32],
    pub is_signer: bool,
    pub data: Vec<u8>,
}

/// What an account holds, with its bytes as sequences.
pub struct AccountModel {
    pub key: Seq<u8>,
    pub is_signer: bool,
    pub data: Seq<u8>,
}

impl View for AccountState {
    type V = AccountModel;

    open spec fn view(&self) -> AccountModel {
        AccountModel { key: self.key@, is_signer: self.is_signer, data: self.data@ }
    }
}

/// The accounts of an invocation, in order.
pub open spec fn accounts_view(accounts: Seq<AccountState>) -> Seq<AccountModel> {
    accounts.map_values(|a: AccountState| a@)
}

/// What an accepted instruction does. Accounts are named by their position.
pub enum Effect {
    /// Replace the bytes of `account` with `data` (of the same length).
    Write { account: usize, data: Vec<u8> },
    /// Have the system program create `new_account`, `space` bytes owned by
    /// this program and funded by `funder`, signing for it with
    /// `signer_seeds`; once created, store `header` at its start.
    CreateThenStore {
        funder: usize,
        new_account: usize,
        system_program: usize,
        space: u64,
        signer_seeds: Vec<Vec<u8>>,
        header: Vec<u8>,
    },
    /// Have the token program burn `amount` of `mint` from `source`, signed
    /// by `authority`; once burnt, replace the bytes of `account` with `data`
    /// (of the same length).
    BurnThenStore {
        token_program: usize,
        source: usize,
        mint: usize,
        authority: usize,
        amount: u64,
        account: usize,
        data: Vec<u8>,
    },
}

/// What an effect holds, with its bytes as sequences.
pub enum EffectModel {
    Write { account: usize, data: Seq<u8> },
    CreateThenStore {
        funder: usize,
        new_account: usize,
        system_program: usize,
        space: u64,
        signer_seeds: Seq<Seq<u8>>,
        header: Seq<u8>,
    },
    BurnThenStore {
        token_program: usize,
        source: usize,
        mint: usize,
        authority: usize,
        amount: u64,
        account: usize,
        data: Seq<u8>,
    },
}

impl View for Effect {
    type V = EffectModel;

    open spec fn view(&self) -> EffectModel {
        match self {
            Effect::Write { account, data } => EffectModel::Write { account: *account, data: data@ },
            Effect::CreateThenStore {
                funder,
                new_account,
                system_program,
                space,
                signer_seeds,
                header,
            } => EffectModel::CreateThenStore {
                funder: *funder,
                new_account: *new_account,
                system_program: *system_program,
                space: *space,
                signer_seeds: signer_seeds.deep_view(),
                header: header@,
            },
            Effect::BurnThenStore {
                token_program,
                source,
                mint,
                authority,
                amount,
                account,
                data,
            } => EffectModel::BurnThenStore {
                token_program: *token_program,
                source: *source,
                mint: *mint,
                authority: *authority,
                amount: *amount,
                account: *account,
                data: data@,
            },
        }
    }
}

/// The outcome of a processor call, with its effect as a model.
pub open spec fn outcome_view(r: Result<Effect, EchoError>) -> Result<EffectModel, EchoError> {
    match r {
        Ok(e) => Ok(e@),
        Err(e) => Err(e),
    }
}

/// The write-once buffer after `data` is echoed into `buf`: the flag set and
/// as much of `data` as fits after it, the rest kept.
pub open spec fn echo_bytes(buf: Seq<u8>, data: Seq<u8>) -> Result<Seq<u8>, EchoError> {
    if buf.len() == 0 {
        Err(EchoError::AccountDataTooSmall)
    } else if buf[0] != 0 {
        Err(EchoError::AccountAlreadyWritten)
    } else {
        let n = if data.len() < buf.len() - 1 { data.len() as int } else { buf.len() - 1 };
        Ok(seq![1u8] + data.subrange(0, n) + buf.subrange(n + 1, buf.len() as int))
    }
}

/// `data` cut or padded with zeros to `n` bytes.
pub open spec fn fit_to(data: Seq<u8>, n: nat) -> Seq<u8> {
    if data.len() >= n {
        data.subrange(0, n as int)
    } else {
        data + zeros((n - data.len()) as nat)
    }
}

/// `Echo`, with accounts `[buffer]`.
pub open spec fn echo_spec(accounts: Seq<AccountModel>, data: Seq<u8>) -> Result<EffectModel, EchoError> {
    if accounts.len() < 1 {
        Err(EchoError::NotEnoughAccountKeys)
    } else {
        match echo_bytes(accounts[0].data, data) {
            Ok(d) => Ok(EffectModel::Write { account: 0, data: d }),
            Err(e) => Err(e),
        }
    }
}

/// `InitializeAuthorizedEcho`, with accounts `[new_buffer, authority, system_program]`.
pub open spec fn init_authorized_spec(
    program_id: Seq<u8>,
    accounts: Seq<AccountModel>,
    buffer_seed: u64,
    buffer_size: usize,
) -> Result<EffectModel, EchoError> {
    if accounts.len() < 3 {
        Err(EchoError::NotEnoughAccountKeys)
    } else {
        match buffer_address(accounts[1].key, buffer_seed, program_id) {
            None => Err(EchoError::InvalidArgument),
            Some((addr, bump)) => {
                let h = HeaderModel {
                    bump_seed: bump,
                    word: buffer_seed,
                    buffer: zeros((buffer_size - 13) as nat),
                };
                if addr != accounts[0].key {
                    Err(EchoError::InvalidArgument)
                } else if buffer_size < 13 {
                    Err(EchoError::InvalidArgument)
                } else if !encodable(h) {
                    Err(EchoError::BorshIoError)
                } else {
                    Ok(
                        EffectModel::CreateThenStore {
                            funder: 1,
                            new_account: 0,
                            system_program: 2,
                            space: buffer_size as u64,
                            signer_seeds: signer_seeds(accounts[1].key, buffer_seed, bump),
                            header: header_bytes(h),
                        },
                    )
                }
            },
        }
    }
}

/// `AuthorizedEcho`, with accounts `[authorized_buffer, authority]`.
pub open spec fn authorized_echo_spec(
    program_id: Seq<u8>,
    accounts: Seq<AccountModel>,
    data: Seq<u8>,
) -> Result<EffectModel, EchoError> {
    if accounts.len() < 2 {
        Err(EchoError::NotEnoughAccountKeys)
    } else {
        match parse_header(accounts[0].data) {
            None => Err(EchoError::BorshIoError),
            Some(h) => {
                if !accounts[1].is_signer {
                    Err(EchoError::MissingRequiredSignature)
                } else {
                    match buffer_address(accounts[1].key, h.word, program_id) {
                        None => Err(EchoError::InvalidArgument),
                        Some((addr, _)) => {
                            let old = accounts[0].data;
                            let enc = header_bytes(HeaderModel { buffer: data, ..h });
                            if addr != accounts[0].key {
                                Err(EchoError::InvalidArgument)
                            } else if !encodable(HeaderModel { buffer: data, ..h }) || enc.len()
                                > old.len() {
                                Err(EchoError::BorshIoError)
                            } else {
                                Ok(
                                    EffectModel::Write {
                                        account: 0,
                                        data: enc + old.subrange(enc.len() as int, old.len() as int),
                                    },
                                )
                            }
                        },
                    }
                }
            },
        }
    }
}

/// `InitializeVendingMachineEcho`, with accounts
/// `[new_buffer, token_mint, payer, system_program]`.
pub open spec fn init_vending_spec(
    program_id: Seq<u8>,
    accounts: Seq<AccountModel>,
    price: u64,
    buffer_size: usize,
) -> Result<EffectModel, EchoError> {
    if accounts.len() < 4 {
        Err(EchoError::NotEnoughAccountKeys)
    } else {
        match buffer_address(accounts[1].key, price, program_id) {
            None => Err(EchoError::InvalidArgument),
            Some((addr, bump)) => {
                let h = HeaderModel { bump_seed: bump, word: price, buffer: zeros(buffer_size as nat) };
                if addr != accounts[0].key {
                    Err(EchoError::InvalidArgument)
                } else if buffer_size + 13 > usize::MAX {
                    Err(EchoError::InvalidArgument)
                } else if !encodable(h) {
                    Err(EchoError::BorshIoError)
                } else {
                    Ok(
                        EffectModel::CreateThenStore {
                            funder: 2,
                            new_account: 0,
                            system_program: 3,
                            space: (buffer_size + 13) as u64,
                            signer_seeds: signer_seeds(accounts[1].key, price, bump),
                            header: header_bytes(h),
                        },
                    )
                }
            },
        }
    }
}

/// `VendingMachineEcho`, with accounts
/// `[vending_buffer, user, user_token_account, token_mint, token_program]`.
pub open spec fn vending_echo_spec(
    program_id: Seq<u8>,
    accounts: Seq<AccountModel>,
    data: Seq<u8>,
) -> Result<EffectModel, EchoError> {
    if accounts.len() < 5 {
        Err(EchoError::NotEnoughAccountKeys)
    } else {
        match parse_header(accounts[0].data) {
            None => Err(EchoError::BorshIoError),
            Some(h) => match buffer_address(accounts[3].key, h.word, program_id) {
                None => Err(EchoError::InvalidArgument),
                Some((addr, _)) => {
                    if addr != accounts[0].key {
                        Err(EchoError::InvalidArgument)
                    } else {
                        Ok(
                            EffectModel::BurnThenStore {
                                token_program: 4,
                                source: 2,
                                mint: 3,
                                authority: 1,
                                amount: h.word,
                                account: 0,
                                data: header_bytes(
                                    HeaderModel { buffer: fit_to(data, h.buffer.len()), ..h },
                                ),
                            },
                        )
                    }
                },
            },
        }
    }
}

/// What the program does with `input` on `accounts`.
pub open spec fn process_spec(program_id: Seq<u8>, accounts: Seq<AccountModel>, input: Seq<u8>) -> Result<
    EffectModel,
    EchoError,
> {
    match parse_instruction(input) {
        None => Err(EchoError::InvalidInstructionData),
        Some(InstructionModel::Echo { data }) => echo_spec(accounts, data),
        Some(InstructionModel::InitializeAuthorizedEcho { buffer_seed, buffer_size }) =>
            init_authorized_spec(program_id, accounts, buffer_seed, buffer_size),
        Some(InstructionModel::AuthorizedEcho { data }) => authorized_echo_spec(
            program_id,
            accounts,
            data,
        ),
        Some(InstructionModel::InitializeVendingMachineEcho { price, buffer_size }) =>
            init_vending_spec(program_id, accounts, price, buffer_size),
        Some(InstructionModel::VendingMachineEcho { data }) => vending_echo_spec(
            program_id,
            accounts,
            data,
        ),
    }
}

/// A byte result, with its bytes as a sequence.
pub open spec fn bytes_view(r: Result<Vec<u8>, EchoError>) -> Result<Seq<u8>, EchoError> {
    match r {
        Ok(v) => Ok(v@),
        Err(e) => Err(e),
    }
}

/// Echoes `data` into the write-once buffer `buf`.
pub fn echo_into(buf: &[u8], data: &[u8]) -> (r: Result<Vec<u8>, EchoError>)
    ensures
        bytes_view(r) == echo_bytes(buf@, data@),
{
    if buf.len() == 0 {
        return Err(EchoError::AccountDataTooSmall);
    }
    if buf[0] != 0 {
        return Err(EchoError::AccountAlreadyWritten);
    }
    let n: usize = if data.len() < buf.len() - 1 { data.len() } else { buf.len() - 1 };
    let mut out: Vec<u8> = Vec::new();
    out.push(1u8);
    let mut i: usize = 0;
    while i < n
        invariant
            n <= data@.len(),
            n < buf@.len(),
            i <= n,
            out@ == seq![1u8] + data@.subrange(0, i as int),
        decreases n - i,
    {
        out.push(data[i]);
        i = i + 1;
        assert(out@ =~= seq![1u8] + data@.subrange(0, i as int));
    }
    let mut j: usize = n + 1;
    while j < buf.len()
        invariant
            n + 1 <= j <= buf@.len(),
            n <= data@.len(),
            out@ == seq![1u8] + data@.subrange(0, n as int) + buf@.subrange(n + 1, j as int),
        decreases buf@.len() - j,
    {
        out.push(buf[j]);
        j = j + 1;
        assert(out@ =~= seq![1u8] + data@.subrange(0, n as int) + buf@.subrange(n + 1, j as int));
    }
    Ok(out)
}

/// `data` cut or padded with zeros to `n` bytes.
pub fn fit_into(data: &[u8], n: usize) -> (r: Vec<u8>)
    ensures
        r@ == fit_to(data@, n as nat),
{
    let mut out: Vec<u8> = Vec::new();
    let mut i: usize = 0;
    while i < n
        invariant
            i <= n,
            out@.len() == i,
            forall|j: int| 0 <= j < i ==> out@[j] == (if j < data@.len() { data@[j] } else { 0u8 }),
        decreases n - i,
    {
        if i < data.len() {
            out.push(data[i]);
        } else {
            out.push(0u8);
        }
        i = i + 1;
    }
    assert(out@ =~= fit_to(data@, n as nat));
    out
}

impl Effect {
    /// The bytes this effect stores into its account.
    pub fn stored_bytes(&self) -> (r: &Vec<u8>)
        ensures
            r@ == match self@ {
                EffectModel::Write { data, .. } => data,
                EffectModel::CreateThenStore { header, .. } => header,
                EffectModel::BurnThenStore { data, .. } => data,
            },
    {
        match self {
            Effect::Write { data, .. } => data,
            Effect::CreateThenStore { header, .. } => header,
            Effect::BurnThenStore { data, .. } => data,
        }
    }
}

/// The processor of the echo program.
pub struct Processor {}

impl Processor {
    fn echo(accounts: &Vec<AccountState>, data: &[u8]) -> (r: Result<Effect, EchoError>)
        ensures
            outcome_view(r) == echo_spec(accounts_view(accounts@), data@),
    {
        if accounts.len() < 1 {
            return Err(EchoError::NotEnoughAccountKeys);
        }
        match echo_into(accounts[0].data.as_slice(), data) {
            Ok(d) => Ok(Effect::Write { account: 0, data: d }),
            Err(e) => Err(e),
        }
    }
    /// Builds the seeds the program signs with for a buffer.
    fn signing_seeds(key: &[u8; 32], word: u64, bump: u8) -> (r: Vec<Vec<u8>>)
        ensures
            r.deep_view() == signer_seeds(key@, word, bump),
    {
        let mut seeds = make_buffer_seeds(key, word);
        let b: Vec<u8> = vec![bump];
        let ghost before = seeds.deep_view();
        seeds.push(b);
        assert(b.deep_view() =~= seq![bump]);
        assert(seeds.deep_view() =~= before.push(seq![bump]));
        seeds
    }

    fn initialize_authorized_echo(
        program_id: &[u8; 32],
        accounts: &Vec<AccountState>,
        buffer_seed: u64,
        buffer_size: usize,
    ) -> (r: Result<Effect, EchoError>)
        ensures
            outcome_view(r) == init_authorized_spec(
                program_id@,
                accounts_view(accounts@),
                buffer_seed,
                buffer_size,
            ),
    {
        if accounts.len() < 3 {
            return Err(EchoError::NotEnoughAccountKeys);
        }
        let (addr, bump) = match derive_buffer_address(&accounts[1].key, buffer_seed, program_id) {
            Some(found) => found,
            None => return Err(EchoError::InvalidArgument),
        };
        if !same_address(&addr, &accounts[0].key) {
            return Err(EchoError::InvalidArgument);
        }
        if buffer_size < BUFFER_OFFSET_BYTES {
            return Err(EchoError::InvalidArgument);
        }
        let header = AuthorizedBufferHeader::new(bump, buffer_seed, zeroed(buffer_size - BUFFER_OFFSET_BYTES));
        let bytes = match header.try_to_vec() {
            Ok(bytes) => bytes,
            Err(e) => return Err(e),
        };
        let seeds = Self::signing_seeds(&accounts[1].key, buffer_seed, bump);
        Ok(
            Effect::CreateThenStore {
                funder: 1,
                new_account: 0,
                system_program: 2,
                space: buffer_size as u64,
                signer_seeds: seeds,
                header: bytes,
            },
        )
    }
    fn authorized_echo(program_id: &[u8; 32], accounts: &Vec<AccountState>, data: Vec<u8>) -> (r: Result<
        Effect,
        EchoError,
    >)
        ensures
            outcome_view(r) == authorized_echo_spec(program_id@, accounts_view(accounts@), data@),
    {
        if accounts.len() < 2 {
            return Err(EchoError::NotEnoughAccountKeys);
        }
        let old = accounts[0].data.as_slice();
        let header = match AuthorizedBufferHeader::try_from_slice(old) {
            Ok(h) => h,
            Err(e) => return Err(e),
        };
        if !accounts[1].is_signer {
            return Err(EchoError::MissingRequiredSignature);
        }
        let (addr, _) = match derive_buffer_address(&accounts[1].key, header.buffer_seed, program_id) {
            Some(found) => found,
            None => return Err(EchoError::InvalidArgument),
        };
        if !same_address(&addr, &accounts[0].key) {
            return Err(EchoError::InvalidArgument);
        }
        let updated = AuthorizedBufferHeader::new(header.bump_seed, header.buffer_seed, data);
        let bytes = match updated.try_to_vec() {
            Ok(bytes) => bytes,
            Err(e) => return Err(e),
        };
        let mut out = copy_range(old, 0, old.len());
        assert(old@.subrange(0, old@.len() as int) =~= old@);
        match write_into(&mut out, bytes.as_slice()) {
            Ok(()) => Ok(Effect::Write { account: 0, data: out }),
            Err(e) => Err(e),
        }
    }

    fn initialize_vending_machine_echo(
        program_id: &[u8; 32],
        accounts: &Vec<AccountState>,
        price: u64,
        buffer_size: usize,
    ) -> (r: Result<Effect, EchoError>)
        ensures
            outcome_view(r) == init_vending_spec(program_id@, accounts_view(accounts@), price, buffer_size),
    {
        if accounts.len() < 4 {
            return Err(EchoError::NotEnoughAccountKeys);
        }
        let (addr, bump) = match derive_buffer_address(&accounts[1].key, price, program_id) {
            Some(found) => found,
            None => return Err(EchoError::InvalidArgument),
        };
        if !same_address(&addr, &accounts[0].key) {
            return Err(EchoError::InvalidArgument);
        }
        let space = match buffer_size.checked_add(BUFFER_OFFSET_BYTES) {
            Some(space) => space,
            None => return Err(EchoError::InvalidArgument),
        };
        let header = VendingMachineBufferHeader::new(bump, price, buffer_size);
        let bytes = match header.try_to_vec() {
            Ok(bytes) => bytes,
            Err(e) => return Err(e),
        };
        let seeds = Self::signing_seeds(&accounts[1].key, price, bump);
        Ok(
            Effect::CreateThenStore {
                funder: 2,
                new_account: 0,
                system_program: 3,
                space: space as u64,
                signer_seeds: seeds,
                header: bytes,
            },
        )
    }

    fn vending_machine_echo(program_id: &[u8; 32], accounts: &Vec<AccountState>, data: Vec<u8>) -> (r:
        Result<Effect, EchoError>)
        ensures
            outcome_view(r) == vending_echo_spec(program_id@, accounts_view(accounts@), data@),
    {
        if accounts.len() < 5 {
            return Err(EchoError::NotEnoughAccountKeys);
        }
        let header = match VendingMachineBufferHeader::try_from_slice(accounts[0].data.as_slice()) {
            Ok(h) => h,
            Err(e) => return Err(e),
        };
        let (addr, _) = match derive_buffer_address(&accounts[3].key, header.price, program_id) {
            Some(found) => found,
            None => return Err(EchoError::InvalidArgument),
        };
        if !same_address(&addr, &accounts[0].key) {
            return Err(EchoError::InvalidArgument);
        }
        proof {
            lemma_header_parse_exact(accounts[0].data@);
        }
        let buffer = fit_into(data.as_slice(), header.buffer.len());
        let updated = VendingMachineBufferHeader {
            bump_seed: header.bump_seed,
            price: header.price,
            buffer: buffer,
        };
        let bytes = match updated.try_to_vec() {
            Ok(bytes) => bytes,
            Err(e) => return Err(e),
        };
        Ok(
            Effect::BurnThenStore {
                token_program: 4,
                source: 2,
                mint: 3,
                authority: 1,
                amount: header.price,
                account: 0,
                data: bytes,
            },
        )
    }

    /// Decodes `instruction_data` and decides what it does with `accounts`.
    /// Nothing is changed here: an `Ok` effect is carried out by the caller,
    /// and its bytes are stored only once the call it names has succeeded.
    pub fn process_instruction(
        program_id: &[u8; 32],
        accounts: &Vec<AccountState>,
        instruction_data: &[u8],
    ) -> (r: Result<Effect, EchoError>)
        ensures
            outcome_view(r) == process_spec(program_id@, accounts_view(accounts@), instruction_data@),
    {
        let instruction = match EchoInstruction::try_from_slice(instruction_data) {
            Ok(i) => i,
            Err(e) => return Err(e),
        };
        match instruction {
            EchoInstruction::Echo { data } => Self::echo(accounts, data.as_slice()),
            EchoInstruction::InitializeAuthorizedEcho { buffer_seed, buffer_size } =>
                Self::initialize_authorized_echo(program_id, accounts, buffer_seed, buffer_size),
            EchoInstruction::AuthorizedEcho { data } => Self::authorized_echo(program_id, accounts, data),
            EchoInstruction::InitializeVendingMachineEcho { price, buffer_size } =>
                Self::initialize_vending_machine_echo(program_id, accounts, price, buffer_size),
            EchoInstruction::VendingMachineEcho { data } => Self::vending_machine_echo(
                program_id,
                accounts,
                data,
            ),
        }
    }

    /// Stores the bytes of `effect` into the account it names, once the call
    /// it names (if any) has succeeded; fails, changing nothing, when they do
    /// not fit.
    pub fn complete(effect: &Effect, target: &mut Vec<u8>) -> (r: Result<(), EchoError>)
        ensures
            ({
                let bytes = match effect@ {
                    EffectModel::Write { data, .. } => data,
                    EffectModel::CreateThenStore { header, .. } => header,
                    EffectModel::BurnThenStore { data, .. } => data,
                };
                &&& bytes.len() <= old(target)@.len() ==> r is Ok && final(target)@ == bytes
                    + old(target)@.subrange(bytes.len() as int, old(target)@.len() as int)
                &&& bytes.len() > old(target)@.len() ==> r == Err::<(), EchoError>(
                    EchoError::BorshIoError,
                ) && final(target)@ == old(target)@
            }),
    {
        write_into(target, effect.stored_bytes().as_slice())
    }
}

} // verus!
