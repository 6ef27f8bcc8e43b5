//! Big-endian integers on the wire.
//!
//! The byte sequences here are the mathematical model of what
//! `bytes::BufMut` appends to a `Vec<u8>`; the append operations themselves
//! are made by that crate.
use vstd::prelude::*;
use bytes::BufMut;

verus! {

/// The two bytes of `v`, most significant first.
pub open spec fn be16_bytes(v: u16) -> Seq<u8> {
    seq![((v >> 8u16) & 0xffu16) as u8, (v & 0xffu16) as u8]
}

/// The 16-bit value whose big-endian bytes are `hi`, `lo`.
pub open spec fn be16_value(hi: u8, lo: u8) -> u16 {
    ((hi as u16) << 8u16) | (lo as u16)
}

/// The eight bytes of `v`, most significant first.
pub open spec fn be64_bytes(v: u64) -> Seq<u8> {
    seq![
        ((v >> 56u64) & 0xffu64) as u8,
        ((v >> 48u64) & 0xffu64) as u8,
        ((v >> 40u64) & 0xffu64) as u8,
        ((v >> 32u64) & 0xffu64) as u8,
        ((v >> 24u64) & 0xffu64) as u8,
        ((v >> 16u64) & 0xffu64) as u8,
        ((v >> 8u64) & 0xffu64) as u8,
        (v & 0xffu64) as u8,
    ]
}

/// The 64-bit value whose big-endian bytes are the first eight of `s`.
pub open spec fn be64_value(s: Seq<u8>) -> u64
    recommends
        s.len() >= 8,
{
    ((s[0] as u64) << 56u64) | ((s[1] as u64) << 48u64) | ((s[2] as u64) << 40u64) | ((
    s[3] as u64) << 32u64) | ((s[4] as u64) << 24u64) | ((s[5] as u64) << 16u64) | ((s[6] as u64)
        << 8u64) | (s[7] as u64)
}

/// Reading back the two bytes of a 16-bit value gives the value.
pub proof fn lemma_be16_roundtrip(v: u16)
    ensures
        be16_value(be16_bytes(v)[0], be16_bytes(v)[1]) == v,
{
    let b0 = ((v >> 8u16) & 0xffu16) as u8;
    let b1 = (v & 0xffu16) as u8;
    assert(((b0 as u16) << 8u16) | (b1 as u16) == v) by (bit_vector)
        requires
            b0 == ((v >> 8u16) & 0xffu16) as u8,
            b1 == (v & 0xffu16) as u8,
    ;
}

/// Reading back the eight bytes of a 64-bit value gives the value.
pub proof fn lemma_be64_roundtrip(v: u64)
    ensures
        be64_value(be64_bytes(v)) == v,
{
    let s = be64_bytes(v);
    let b0 = s[0];
    let b1 = s[1];
    let b2 = s[2];
    let b3 = s[3];
    let b4 = s[4];
    let b5 = s[5];
    let b6 = s[6];
    let b7 = s[7];
    assert(((b0 as u64) << 56u64) | ((b1 as u64) << 48u64) | ((b2 as u64) << 40u64) | ((
    b3 as u64) << 32u64) | ((b4 as u64) << 24u64) | ((b5 as u64) << 16u64) | ((b6 as u64)
        << 8u64) | (b7 as u64) == v) by (bit_vector)
        requires
            b0 == ((v >> 56u64) & 0xffu64) as u8,
            b1 == ((v >> 48u64) & 0xffu64) as u8,
            b2 == ((v >> 40u64) & 0xffu64) as u8,
            b3 == ((v >> 32u64) & 0xffu64) as u8,
            b4 == ((v >> 24u64) & 0xffu64) as u8,
            b5 == ((v >> 16u64) & 0xffu64) as u8,
            b6 == ((v >> 8u64) & 0xffu64) as u8,
            b7 == (v & 0xffu64) as u8,
    ;
}

/// Reads the big-endian 64-bit value stored at `s[start..start + 8]`.
pub fn read_be64(s: &[u8], start: usize) -> (r: u64)
    requires
        start + 8 <= s@.len(),
    ensures
        r == be64_value(s@.subrange(start as int, start + 8)),
{
    ((s[start] as u64) << 56u64) | ((s[start + 1] as u64) << 48u64) | ((s[start + 2] as u64)
        << 40u64) | ((s[start + 3] as u64) << 32u64) | ((s[start + 4] as u64) << 24u64) | ((s[start
        + 5] as u64) << 16u64) | ((s[start + 6] as u64) << 8u64) | (s[start + 7] as u64)
}

/// `BufMut::put_u8` on a `Vec<u8>`: appends the byte.
#[verifier::external_body]
pub(crate) fn put_u8(buf: &mut Vec<u8>, n: u8)
    requires
        old(buf)@.len() + 1 <= isize::MAX,
    ensures
        final(buf)@ == old(buf)@.push(n),
{
    buf.put_u8(n)
}

/// `BufMut::put_u16` on a `Vec<u8>`: appends the two bytes of `n`,
/// most significant first.
#[verifier::external_body]
pub(crate) fn put_u16(buf: &mut Vec<u8>, n: u16)
    requires
        old(buf)@.len() + 2 <= isize::MAX,
    ensures
        final(buf)@ == old(buf)@ + be16_bytes(n),
{
    buf.put_u16(n)
}

/// `BufMut::put_u64` on a `Vec<u8>`: appends the eight bytes of `n`,
/// most significant first.
#[verifier::external_body]
pub(crate) fn put_u64(buf: &mut Vec<u8>, n: u64)
    requires
        old(buf)@.len() + 8 <= isize::MAX,
    ensures
        final(buf)@ == old(buf)@ + be64_bytes(n),
{
    buf.put_u64(n)
}

/// `BufMut::put` on a `Vec<u8>` with a byte slice as the source: appends
/// the bytes of `src` in order.
#[verifier::external_body]
pub(crate) fn put(buf: &mut Vec<u8>, src: &[u8])
    requires
        old(buf)@.len() + src@.len() <= isize::MAX,
    ensures
        final(buf)@ == old(buf)@ + src@,
{
    buf.put(src)
}

} // verus!

verus! {

/// Reading eight bytes that start one byte before the big-endian bytes of
/// `v`, with `s` in that byte, gives `s` in the top byte and `v` shifted
/// down by a byte.
pub proof fn lemma_be64_read_one_early(s: u8, v: u64)
    ensures
        be64_value(seq![s] + be64_bytes(v).subrange(0, 7)) == ((s as u64) << 56u64) | (v >> 8u64),
{
    let t = seq![s] + be64_bytes(v).subrange(0, 7);
    let b1 = t[1];
    let b2 = t[2];
    let b3 = t[3];
    let b4 = t[4];
    let b5 = t[5];
    let b6 = t[6];
    let b7 = t[7];
    assert(((s as u64) << 56u64) | ((b1 as u64) << 48u64) | ((b2 as u64) << 40u64) | ((
    b3 as u64) << 32u64) | ((b4 as u64) << 24u64) | ((b5 as u64) << 16u64) | ((b6 as u64)
        << 8u64) | (b7 as u64) == ((s as u64) << 56u64) | (v >> 8u64)) by (bit_vector)
        requires
            b1 == ((v >> 56u64) & 0xffu64) as u8,
            b2 == ((v >> 48u64) & 0xffu64) as u8,
            b3 == ((v >> 40u64) & 0xffu64) as u8,
            b4 == ((v >> 32u64) & 0xffu64) as u8,
            b5 == ((v >> 24u64) & 0xffu64) as u8,
            b6 == ((v >> 16u64) & 0xffu64) as u8,
            b7 == ((v >> 8u64) & 0xffu64) as u8,
    ;
}

/// The magic `0xfefe` is the bytes `0xfe 0xfe`.
pub proof fn lemma_magic_bytes()
    ensures
        be16_bytes(0xfefe) == seq![0xfeu8, 0xfeu8],
{
    assert(((0xfefeu16 >> 8u16) & 0xffu16) == 0xfe) by (bit_vector);
    assert((0xfefeu16 & 0xffu16) == 0xfe) by (bit_vector);
    assert(be16_bytes(0xfefe) =~= seq![0xfeu8, 0xfeu8]);
}

} // verus!
