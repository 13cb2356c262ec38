//! Program-derived addresses: the address of an owned buffer is derived from
//! the seeds `("authority", key, word)` and the program's identity.
use vstd::prelude::*;
use crate::codec::{push_u64, u64_bytes};
use solana_program::pubkey::Pubkey;

verus! {

/// The address and bump seed that the runtime derives from `seeds` and the
/// program identity, or none when no bump seed gives a valid address.
pub uninterp spec fn program_address(seeds: Seq<Seq<u8>>, program_id: Seq<u8>) -> Option<(Seq<u8>, u8)>;

/// Relies on solana_program's `Pubkey::try_find_program_address`: it searches
/// the bump seeds from 255 down and returns the first derived address with its
/// bump seed, a function of the seeds and the program identity alone; `None`
/// when none is found or the seeds are out of bounds.
#[verifier::external_body]
fn try_find_program_address(seeds: &Vec<Vec<u8>>, program_id: &[u8; 32]) -> (r: Option<([u8; 32], u8)>)
    ensures
        match r {
            Some((a, b)) => program_address(seeds.deep_view(), program_id@) == Some((a@, b)),
            None => program_address(seeds.deep_view(), program_id@) is None,
        },
{
    let refs: Vec<&[u8]> = seeds.iter().map(|s| s.as_slice()).collect();
    Pubkey::try_find_program_address(&refs, &Pubkey::new_from_array(*program_id))
        .map(|(k, b)| (k.to_bytes(), b))
}

/// The seed that every buffer address starts with.
pub open spec fn authority_tag() -> Seq<u8> {
    seq![97u8, 117u8, 116u8, 104u8, 111u8, 114u8, 105u8, 116u8, 121u8]
}

/// The seeds of the buffer that `key` (an authority or a token mint) and
/// `word` (a buffer seed or a price) identify.
pub open spec fn buffer_seeds(key: Seq<u8>, word: u64) -> Seq<Seq<u8>> {
    seq![authority_tag(), key, u64_bytes(word)]
}

/// The address and bump seed of the buffer that `key` and `word` identify.
pub open spec fn buffer_address(key: Seq<u8>, word: u64, program_id: Seq<u8>) -> Option<(Seq<u8>, u8)> {
    program_address(buffer_seeds(key, word), program_id)
}

/// The seeds the program signs with for the buffer: its seeds and the bump seed.
pub open spec fn signer_seeds(key: Seq<u8>, word: u64, bump: u8) -> Seq<Seq<u8>> {
    buffer_seeds(key, word).push(seq![bump])
}

/// Builds the seeds of the buffer that `key` and `word` identify.
pub fn make_buffer_seeds(key: &[u8; 32], word: u64) -> (r: Vec<Vec<u8>>)
    ensures
        r.deep_view() == buffer_seeds(key@, word),
{
    let tag: Vec<u8> = vec![97u8, 117u8, 116u8, 104u8, 111u8, 114u8, 105u8, 116u8, 121u8];
    let mut k: Vec<u8> = Vec::new();
    let mut i: usize = 0;
    while i < 32
        invariant
            i <= 32,
            k@ == key@.subrange(0, i as int),
        decreases 32 - i,
    {
        k.push(key[i]);
        i = i + 1;
        assert(k@ =~= key@.subrange(0, i as int));
    }
    assert(k@ =~= key@);
    let mut w: Vec<u8> = Vec::new();
    push_u64(&mut w, word);
    assert(w@ =~= u64_bytes(word));
    let mut r: Vec<Vec<u8>> = Vec::new();
    r.push(tag);
    r.push(k);
    r.push(w);
    assert(tag@ =~= authority_tag());
    assert(tag.deep_view() =~= tag@);
    assert(k.deep_view() =~= k@);
    assert(w.deep_view() =~= w@);
    assert(r@ == seq![tag, k, w]);
    assert(r.deep_view() =~= buffer_seeds(key@, word));
    r
}

/// Derives the address and bump seed of the buffer that `key` and `word` identify.
pub fn derive_buffer_address(key: &[u8; 32], word: u64, program_id: &[u8; 32]) -> (r: Option<([u8; 32], u8)>)
    ensures
        match r {
            Some((a, b)) => buffer_address(key@, word, program_id@) == Some((a@, b)),
            None => buffer_address(key@, word, program_id@) is None,
        },
{
    let seeds = make_buffer_seeds(key, word);
    try_find_program_address(&seeds, program_id)
}

/// Whether two addresses are the same.
pub fn same_address(a: &[u8; 32], b: &[u8; 32]) -> (r: bool)
    ensures
        r == (a@ == b@),
{
    let mut i: usize = 0;
    while i < 32
        invariant
            i <= 32,
            a@.len() == 32,
            b@.len() == 32,
            forall|j: int| 0 <= j < i ==> a@[j] == b@[j],
        decreases 32 - i,
    {
        if a[i] != b[i] {
            return false;
        }
        i = i + 1;
    }
    assert(a@ =~= b@);
    true
}

} // verus!
