//! The two headers that the program keeps in the accounts it owns, and their
//! stored encoding: bump seed, an eight-byte word (the buffer seed or the
//! price), then the buffer with its length prefix.
use vstd::prelude::*;
use crate::codec::{
    bytes_field, copy_range, lemma_u32_bytes_at, lemma_u32_round_trip, lemma_u64_bytes_at,
    lemma_u64_round_trip, push_bytes, push_u64, read_u32, read_u64, u32_at, u32_bytes, u64_at,
    u64_bytes,
};
use crate::error::EchoError;

verus! {

/// Bytes taken by the bump seed.
pub const BUMP_SEED_BYTES: usize = 1;

/// Bytes taken by the eight-byte word (buffer seed or price).
pub const PRICE_BYTES: usize = 8;

/// Bytes taken by the buffer's length prefix.
pub const BUFFER_SIZE_BYTES: usize = 4;

/// Bytes of a stored header that precede its buffer.
pub const BUFFER_OFFSET_BYTES: usize = BUMP_SEED_BYTES + PRICE_BYTES + BUFFER_SIZE_BYTES;

/// `n` zero bytes.
pub open spec fn zeros(n: nat) -> Seq<u8> {
    Seq::new(n, |i: int| 0u8)
}

/// A vector of `n` zero bytes.
pub fn zeroed(n: usize) -> (r: Vec<u8>)
    ensures
        r@ == zeros(n as nat),
{
    let mut buffer: Vec<u8> = Vec::new();
    let mut i: usize = 0;
    while i < n
        invariant
            i <= n,
            buffer@ == zeros(i as nat),
        decreases n - i,
    {
        buffer.push(0u8);
        i = i + 1;
        assert(buffer@ =~= zeros(i as nat));
    }
    buffer
}

/// What a stored header holds: the bump seed, the eight-byte word and the buffer.
pub struct HeaderModel {
    pub bump_seed: u8,
    pub word: u64,
    pub buffer: Seq<u8>,
}

/// The stored encoding of a header.
pub open spec fn header_bytes(h: HeaderModel) -> Seq<u8> {
    seq![h.bump_seed] + u64_bytes(h.word) + bytes_field(h.buffer)
}

/// A header can be stored when its buffer's length fits the four-byte prefix.
pub open spec fn encodable(h: HeaderModel) -> bool {
    h.buffer.len() <= u32::MAX
}

/// The header that `s` holds, when `s` is exactly one stored header.
pub open spec fn parse_header(s: Seq<u8>) -> Option<HeaderModel> {
    if s.len() >= 13 && s.len() == 13 + u32_at(s, 9) {
        Some(HeaderModel { bump_seed: s[0], word: u64_at(s, 1), buffer: s.subrange(13, s.len() as int) })
    } else {
        None
    }
}

/// Decoding the encoding of a header gives the header back.
pub proof fn lemma_header_round_trip(h: HeaderModel)
    requires
        encodable(h),
    ensures
        parse_header(header_bytes(h)) == Some(h),
{
    let s = header_bytes(h);
    lemma_u64_round_trip(h.word);
    lemma_u32_round_trip(h.buffer.len() as u32);
    assert(s.subrange(1, 9) =~= u64_bytes(h.word));
    assert(s.subrange(9, 13) =~= u32_bytes(h.buffer.len() as u32));
    assert(s.subrange(13, s.len() as int) =~= h.buffer);
    assert(u64_at(s, 1) == u64_at(u64_bytes(h.word), 0));
    assert(u32_at(s, 9) == u32_at(u32_bytes(h.buffer.len() as u32), 0));
}

/// The bytes a header is decoded from are exactly its encoding.
pub proof fn lemma_header_parse_exact(s: Seq<u8>)
    requires
        parse_header(s) is Some,
    ensures
        encodable(parse_header(s).unwrap()),
        header_bytes(parse_header(s).unwrap()) == s,
{
    let h = parse_header(s).unwrap();
    lemma_u64_bytes_at(s, 1);
    lemma_u32_bytes_at(s, 9);
    assert(h.buffer.len() == u32_at(s, 9));
    assert(header_bytes(h) =~= s);
}

/// Encodes a header, or fails when its buffer is too long for the length prefix.
fn encode_header(bump_seed: u8, word: u64, buffer: &[u8]) -> (r: Result<Vec<u8>, EchoError>)
    ensures
        ({
            let h = HeaderModel { bump_seed, word, buffer: buffer@ };
            match r {
                Ok(v) => encodable(h) && v@ == header_bytes(h),
                Err(e) => !encodable(h) && e == EchoError::BorshIoError,
            }
        }),
{
    if buffer.len() > 0xffff_ffffusize {
        return Err(EchoError::BorshIoError);
    }
    let mut out: Vec<u8> = Vec::new();
    out.push(bump_seed);
    push_u64(&mut out, word);
    push_bytes(&mut out, buffer);
    assert(out@ =~= header_bytes(HeaderModel { bump_seed, word, buffer: buffer@ }));
    Ok(out)
}

/// Decodes bytes that are exactly one stored header.
fn decode_header(s: &[u8]) -> (r: Option<(u8, u64, Vec<u8>)>)
    ensures
        match r {
            Some((b, w, v)) => parse_header(s@) == Some(HeaderModel { bump_seed: b, word: w, buffer: v@ }),
            None => parse_header(s@) is None,
        },
{
    if s.len() < 13 {
        return None;
    }
    let n = read_u32(s, 9);
    if s.len() - 13 != n as usize {
        return None;
    }
    let buffer = copy_range(s, 13, s.len());
    Some((s[0], read_u64(s, 1), buffer))
}

/// Writes `encoding` at the start of `account`, keeping the bytes after it;
/// fails, changing nothing, when the account is too small.
pub fn write_into(account: &mut Vec<u8>, encoding: &[u8]) -> (r: Result<(), EchoError>)
    ensures
        encoding@.len() <= old(account)@.len() ==> r is Ok && final(account)@ == encoding@
            + old(account)@.subrange(encoding@.len() as int, old(account)@.len() as int),
        encoding@.len() > old(account)@.len() ==> r == Err::<(), EchoError>(EchoError::BorshIoError)
            && final(account)@ == old(account)@,
{
    if encoding.len() > account.len() {
        return Err(EchoError::BorshIoError);
    }
    let mut i: usize = 0;
    while i < encoding.len()
        invariant
            i <= encoding@.len() <= old(account)@.len(),
            account@ == encoding@.subrange(0, i as int) + old(account)@.subrange(
                i as int,
                old(account)@.len() as int,
            ),
        decreases encoding@.len() - i,
    {
        account.set(i, encoding[i]);
        i = i + 1;
        assert(account@ =~= encoding@.subrange(0, i as int) + old(account)@.subrange(
            i as int,
            old(account)@.len() as int,
        ));
    }
    assert(encoding@.subrange(0, i as int) =~= encoding@);
    Ok(())
}

/// The header of an authority-gated buffer.
#[derive(Clone, Debug)]
pub struct AuthorizedBufferHeader {
    pub bump_seed: u8,
    pub buffer_seed: u64,
    pub buffer: Vec<u8>,
}

impl View for AuthorizedBufferHeader {
    type V = HeaderModel;

    open spec fn view(&self) -> HeaderModel {
        HeaderModel { bump_seed: self.bump_seed, word: self.buffer_seed, buffer: self.buffer@ }
    }
}

impl AuthorizedBufferHeader {
    pub fn new(bump_seed: u8, buffer_seed: u64, buffer: Vec<u8>) -> (r: Self)
        ensures
            r@ == (HeaderModel { bump_seed, word: buffer_seed, buffer: buffer@ }),
    {
        AuthorizedBufferHeader { bump_seed: bump_seed, buffer_seed: buffer_seed, buffer: buffer }
    }

    /// The stored encoding; fails when the buffer is too long for its length prefix.
    pub fn try_to_vec(&self) -> (r: Result<Vec<u8>, EchoError>)
        ensures
            match r {
                Ok(v) => encodable(self@) && v@ == header_bytes(self@),
                Err(e) => !encodable(self@) && e == EchoError::BorshIoError,
            },
    {
        encode_header(self.bump_seed, self.buffer_seed, self.buffer.as_slice())
    }

    /// Decodes bytes that are exactly one stored header.
    pub fn try_from_slice(s: &[u8]) -> (r: Result<Self, EchoError>)
        ensures
            match r {
                Ok(h) => parse_header(s@) == Some(h@),
                Err(e) => parse_header(s@) is None && e == EchoError::BorshIoError,
            },
    {
        match decode_header(s) {
            Some((b, w, v)) => Ok(AuthorizedBufferHeader::new(b, w, v)),
            None => Err(EchoError::BorshIoError),
        }
    }
}

/// The header of a payment-gated buffer.
#[derive(Clone, Debug)]
pub struct VendingMachineBufferHeader {
    pub bump_seed: u8,
    pub price: u64,
    pub buffer: Vec<u8>,
}

impl View for VendingMachineBufferHeader {
    type V = HeaderModel;

    open spec fn view(&self) -> HeaderModel {
        HeaderModel { bump_seed: self.bump_seed, word: self.price, buffer: self.buffer@ }
    }
}

impl VendingMachineBufferHeader {
    /// A header whose buffer is `buffer_size` zero bytes.
    pub fn new(bump_seed: u8, price: u64, buffer_size: usize) -> (r: Self)
        ensures
            r@ == (HeaderModel { bump_seed, word: price, buffer: zeros(buffer_size as nat) }),
    {
        VendingMachineBufferHeader { bump_seed: bump_seed, price: price, buffer: zeroed(buffer_size) }
    }

    /// The stored encoding; fails when the buffer is too long for its length prefix.
    pub fn try_to_vec(&self) -> (r: Result<Vec<u8>, EchoError>)
        ensures
            match r {
                Ok(v) => encodable(self@) && v@ == header_bytes(self@),
                Err(e) => !encodable(self@) && e == EchoError::BorshIoError,
            },
    {
        encode_header(self.bump_seed, self.price, self.buffer.as_slice())
    }

    /// Decodes bytes that are exactly one stored header.
    pub fn try_from_slice(s: &[u8]) -> (r: Result<Self, EchoError>)
        ensures
            match r {
                Ok(h) => parse_header(s@) == Some(h@),
                Err(e) => parse_header(s@) is None && e == EchoError::BorshIoError,
            },
    {
        match decode_header(s) {
            Some((b, w, v)) => Ok(VendingMachineBufferHeader { bump_seed: b, price: w, buffer: v }),
            None => Err(EchoError::BorshIoError),
        }
    }
}

/// Storing an authority-gated header and reading it back gives the same header.
pub proof fn authorized_header_round_trip(h: AuthorizedBufferHeader)
    requires
        encodable(h@),
    ensures
        parse_header(header_bytes(h@)) == Some(h@),
{
    lemma_header_round_trip(h@);
}

/// Storing a payment-gated header and reading it back gives the same header.
pub proof fn vending_header_round_trip(h: VendingMachineBufferHeader)
    requires
        encodable(h@),
    ensures
        parse_header(header_bytes(h@)) == Some(h@),
{
    lemma_header_round_trip(h@);
}

} // verus!
