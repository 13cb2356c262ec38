//! The canonical binary encoding shared by instructions and stored headers:
//! fixed-width little-endian integers and byte strings prefixed by a
//! four-byte little-endian count.
use vstd::prelude::*;

verus! {

/// The `n`-th byte (from the least significant) of a 64-bit value.
pub open spec fn byte_of(v: u64, n: u64) -> u8 {
    ((v >> (8 * n)) & 0xff) as u8
}

/// Little-endian bytes of a `u64`.
pub open spec fn u64_bytes(v: u64) -> Seq<u8> {
    seq![
        byte_of(v, 0), byte_of(v, 1), byte_of(v, 2), byte_of(v, 3),
        byte_of(v, 4), byte_of(v, 5), byte_of(v, 6), byte_of(v, 7),
    ]
}

/// Little-endian bytes of a `u32`.
pub open spec fn u32_bytes(v: u32) -> Seq<u8> {
    seq![byte_of(v as u64, 0), byte_of(v as u64, 1), byte_of(v as u64, 2), byte_of(v as u64, 3)]
}

/// The `u64` whose little-endian bytes start at `at` in `s`.
pub open spec fn u64_at(s: Seq<u8>, at: int) -> u64 {
    (s[at] as u64) | ((s[at + 1] as u64) << 8) | ((s[at + 2] as u64) << 16) | ((s[at + 3] as u64)
        << 24) | ((s[at + 4] as u64) << 32) | ((s[at + 5] as u64) << 40) | ((s[at + 6] as u64)
        << 48) | ((s[at + 7] as u64) << 56)
}

/// The `u32` whose little-endian bytes start at `at` in `s`.
pub open spec fn u32_at(s: Seq<u8>, at: int) -> u32 {
    ((s[at] as u32) | ((s[at + 1] as u32) << 8) | ((s[at + 2] as u32) << 16) | ((s[at + 3] as u32)
        << 24)) as u32
}

/// Reading back the bytes of a `u64` gives the value.
pub proof fn lemma_u64_round_trip(v: u64)
    ensures
        u64_at(u64_bytes(v), 0) == v,
{
    let b0 = byte_of(v, 0);
    let b1 = byte_of(v, 1);
    let b2 = byte_of(v, 2);
    let b3 = byte_of(v, 3);
    let b4 = byte_of(v, 4);
    let b5 = byte_of(v, 5);
    let b6 = byte_of(v, 6);
    let b7 = byte_of(v, 7);
    assert((b0 as u64) | ((b1 as u64) << 8) | ((b2 as u64) << 16) | ((b3 as u64) << 24) | ((
    b4 as u64) << 32) | ((b5 as u64) << 40) | ((b6 as u64) << 48) | ((b7 as u64) << 56) == v)
        by (bit_vector)
        requires
            b0 == ((v >> 0u64) & 0xff) as u8,
            b1 == ((v >> 8u64) & 0xff) as u8,
            b2 == ((v >> 16u64) & 0xff) as u8,
            b3 == ((v >> 24u64) & 0xff) as u8,
            b4 == ((v >> 32u64) & 0xff) as u8,
            b5 == ((v >> 40u64) & 0xff) as u8,
            b6 == ((v >> 48u64) & 0xff) as u8,
            b7 == ((v >> 56u64) & 0xff) as u8,
    ;
}

/// The bytes of a `u64` read from `s` are the bytes it was read from.
pub proof fn lemma_u64_bytes_at(s: Seq<u8>, at: int)
    requires
        0 <= at,
        at + 8 <= s.len(),
    ensures
        u64_bytes(u64_at(s, at)) == s.subrange(at, at + 8),
{
    let (b0, b1, b2, b3) = (s[at], s[at + 1], s[at + 2], s[at + 3]);
    let (b4, b5, b6, b7) = (s[at + 4], s[at + 5], s[at + 6], s[at + 7]);
    let v = u64_at(s, at);
    assert(byte_of(v, 0) == b0 && byte_of(v, 1) == b1 && byte_of(v, 2) == b2 && byte_of(v, 3)
        == b3 && byte_of(v, 4) == b4 && byte_of(v, 5) == b5 && byte_of(v, 6) == b6 && byte_of(
        v,
        7,
    ) == b7) by {
        assert(((v >> 0u64) & 0xff) as u8 == b0 && ((v >> 8u64) & 0xff) as u8 == b1 && ((v
            >> 16u64) & 0xff) as u8 == b2 && ((v >> 24u64) & 0xff) as u8 == b3 && ((v >> 32u64)
            & 0xff) as u8 == b4 && ((v >> 40u64) & 0xff) as u8 == b5 && ((v >> 48u64) & 0xff) as u8
            == b6 && ((v >> 56u64) & 0xff) as u8 == b7) by (bit_vector)
            requires
                v == (b0 as u64) | ((b1 as u64) << 8) | ((b2 as u64) << 16) | ((b3 as u64) << 24)
                    | ((b4 as u64) << 32) | ((b5 as u64) << 40) | ((b6 as u64) << 48) | ((
                b7 as u64) << 56),
        ;
    }
    assert(u64_bytes(v) =~= s.subrange(at, at + 8));
}

/// Reading back the bytes of a `u32` gives the value.
pub proof fn lemma_u32_round_trip(v: u32)
    ensures
        u32_at(u32_bytes(v), 0) == v,
{
    let w = v as u64;
    let (b0, b1, b2, b3) = (byte_of(w, 0), byte_of(w, 1), byte_of(w, 2), byte_of(w, 3));
    assert(((b0 as u32) | ((b1 as u32) << 8) | ((b2 as u32) << 16) | ((b3 as u32) << 24)) == v)
        by (bit_vector)
        requires
            w == v as u64,
            b0 == ((w >> 0u64) & 0xff) as u8,
            b1 == ((w >> 8u64) & 0xff) as u8,
            b2 == ((w >> 16u64) & 0xff) as u8,
            b3 == ((w >> 24u64) & 0xff) as u8,
    ;
}

/// The bytes of a `u32` read from `s` are the bytes it was read from.
pub proof fn lemma_u32_bytes_at(s: Seq<u8>, at: int)
    requires
        0 <= at,
        at + 4 <= s.len(),
    ensures
        u32_bytes(u32_at(s, at)) == s.subrange(at, at + 4),
{
    let (b0, b1, b2, b3) = (s[at], s[at + 1], s[at + 2], s[at + 3]);
    let v = u32_at(s, at);
    let w = v as u64;
    assert(byte_of(w, 0) == b0 && byte_of(w, 1) == b1 && byte_of(w, 2) == b2 && byte_of(w, 3)
        == b3) by {
        assert(((w >> 0u64) & 0xff) as u8 == b0 && ((w >> 8u64) & 0xff) as u8 == b1 && ((w
            >> 16u64) & 0xff) as u8 == b2 && ((w >> 24u64) & 0xff) as u8 == b3) by (bit_vector)
            requires
                w == v as u64,
                v == ((b0 as u32) | ((b1 as u32) << 8) | ((b2 as u32) << 16) | ((b3 as u32)
                    << 24)),
        ;
    }
    assert(u32_bytes(v) =~= s.subrange(at, at + 4));
}

/// Reads the little-endian `u64` that starts at `at`.
pub fn read_u64(s: &[u8], at: usize) -> (r: u64)
    requires
        at + 8 <= s@.len(),
    ensures
        r == u64_at(s@, at as int),
{
    (s[at] as u64) | ((s[at + 1] as u64) << 8) | ((s[at + 2] as u64) << 16) | ((s[at + 3] as u64)
        << 24) | ((s[at + 4] as u64) << 32) | ((s[at + 5] as u64) << 40) | ((s[at + 6] as u64)
        << 48) | ((s[at + 7] as u64) << 56)
}

/// Reads the little-endian `u32` that starts at `at`.
pub fn read_u32(s: &[u8], at: usize) -> (r: u32)
    requires
        at + 4 <= s@.len(),
    ensures
        r == u32_at(s@, at as int),
{
    (s[at] as u32) | ((s[at + 1] as u32) << 8) | ((s[at + 2] as u32) << 16) | ((s[at + 3] as u32)
        << 24)
}

/// Appends the little-endian bytes of `v`.
pub fn push_u64(out: &mut Vec<u8>, v: u64)
    ensures
        final(out)@ == old(out)@ + u64_bytes(v),
{
    let mut n: u64 = 0;
    while n < 8
        invariant
            n <= 8,
            out@ == old(out)@ + u64_bytes(v).subrange(0, n as int),
        decreases 8 - n,
    {
        out.push(((v >> (8 * n)) & 0xff) as u8);
        n = n + 1;
        assert(out@ =~= old(out)@ + u64_bytes(v).subrange(0, n as int));
    }
    assert(out@ =~= old(out)@ + u64_bytes(v));
}

/// Appends the little-endian bytes of `v`.
pub fn push_u32(out: &mut Vec<u8>, v: u32)
    ensures
        final(out)@ == old(out)@ + u32_bytes(v),
{
    let w = v as u64;
    let mut n: u64 = 0;
    while n < 4
        invariant
            n <= 4,
            w == v as u64,
            out@ == old(out)@ + u32_bytes(v).subrange(0, n as int),
        decreases 4 - n,
    {
        out.push(((w >> (8 * n)) & 0xff) as u8);
        n = n + 1;
        assert(out@ =~= old(out)@ + u32_bytes(v).subrange(0, n as int));
    }
    assert(out@ =~= old(out)@ + u32_bytes(v));
}

/// A byte string with its four-byte length prefix.
pub open spec fn bytes_field(b: Seq<u8>) -> Seq<u8> {
    u32_bytes(b.len() as u32) + b
}

/// Appends `b` with its four-byte length prefix.
pub fn push_bytes(out: &mut Vec<u8>, b: &[u8])
    requires
        b@.len() <= u32::MAX,
    ensures
        final(out)@ == old(out)@ + bytes_field(b@),
{
    push_u32(out, b.len() as u32);
    let ghost mid = out@;
    let mut i: usize = 0;
    while i < b.len()
        invariant
            i <= b@.len(),
            out@ == mid + b@.subrange(0, i as int),
        decreases b@.len() - i,
    {
        out.push(b[i]);
        i = i + 1;
        assert(out@ =~= mid + b@.subrange(0, i as int));
    }
    assert(b@.subrange(0, b@.len() as int) =~= b@);
    assert(final(out)@ =~= old(out)@ + bytes_field(b@));
}

/// Copies the bytes of `s` from `from` up to `to`.
pub fn copy_range(s: &[u8], from: usize, to: usize) -> (r: Vec<u8>)
    requires
        from <= to <= s@.len(),
    ensures
        r@ == s@.subrange(from as int, to as int),
{
    let mut r: Vec<u8> = Vec::new();
    let mut i: usize = from;
    while i < to
        invariant
            from <= i <= to,
            to <= s@.len(),
            r@ == s@.subrange(from as int, i as int),
        decreases to - i,
    {
        r.push(s[i]);
        i = i + 1;
        assert(r@ =~= s@.subrange(from as int, i as int));
    }
    r
}

} // verus!
