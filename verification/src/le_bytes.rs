//! Little-endian integer fields inside byte buffers.

use vstd::prelude::*;

verus! {

/// The little-endian `u16` stored at `off`.
pub open spec fn u16_le(s: Seq<u8>, off: int) -> u16 {
    (s[off] as u16) | ((s[off + 1] as u16) << 8u16)
}

/// The little-endian `u32` stored at `off`.
pub open spec fn u32_le(s: Seq<u8>, off: int) -> u32 {
    (s[off] as u32) | ((s[off + 1] as u32) << 8u32) | ((s[off + 2] as u32) << 16u32) | ((s[off
        + 3] as u32) << 24u32)
}

/// The big-endian `u32` stored at `off`.
pub open spec fn u32_be(s: Seq<u8>, off: int) -> u32 {
    (s[off + 3] as u32) | ((s[off + 2] as u32) << 8u32) | ((s[off + 1] as u32) << 16u32) | ((
    s[off] as u32) << 24u32)
}

/// The little-endian `u64` assembled from two little-endian `u32` halves.
pub open spec fn u64_le(s: Seq<u8>, off: int) -> u64 {
    (u32_le(s, off) as u64) | ((u32_le(s, off + 4) as u64) << 32u64)
}

/// The four little-endian bytes of `v`.
pub open spec fn u32_bytes(v: u32) -> Seq<u8> {
    seq![(v & 0xff) as u8, ((v >> 8u32) & 0xff) as u8, ((v >> 16u32) & 0xff) as u8, ((v >> 24u32) & 0xff) as u8]
}

/// The eight little-endian bytes of `v`.
pub open spec fn u64_bytes(v: u64) -> Seq<u8> {
    u32_bytes((v & 0xffff_ffff) as u32) + u32_bytes((v >> 32u64) as u32)
}

/// Reads the little-endian `u16` at `offset`.
pub fn read_u16_le(bytes: &[u8], offset: usize) -> (r: u16)
    requires
        offset + 2 <= bytes.len(),
    ensures
        r == u16_le(bytes@, offset as int),
{
    (bytes[offset] as u16) | ((bytes[offset + 1] as u16) << 8u16)
}

/// Reads the little-endian `u32` at `offset`.
pub fn read_u32_le(bytes: &[u8], offset: usize) -> (r: u32)
    requires
        offset + 4 <= bytes.len(),
    ensures
        r == u32_le(bytes@, offset as int),
{
    (bytes[offset] as u32) | ((bytes[offset + 1] as u32) << 8u32) | ((bytes[offset + 2] as u32)
        << 16u32) | ((bytes[offset + 3] as u32) << 24u32)
}

/// Reads the big-endian `u32` at `offset`.
pub fn read_u32_be(bytes: &[u8], offset: usize) -> (r: u32)
    requires
        offset + 4 <= bytes.len(),
    ensures
        r == u32_be(bytes@, offset as int),
{
    (bytes[offset + 3] as u32) | ((bytes[offset + 2] as u32) << 8u32) | ((bytes[offset + 1] as u32)
        << 16u32) | ((bytes[offset] as u32) << 24u32)
}

/// Reads the little-endian `u64` at `offset`.
pub fn read_u64_le(bytes: &[u8], offset: usize) -> (r: u64)
    requires
        offset + 8 <= bytes.len(),
    ensures
        r == u64_le(bytes@, offset as int),
{
    let low = read_u32_le(bytes, offset);
    let high = read_u32_le(bytes, offset + 4);
    (low as u64) | ((high as u64) << 32u64)
}

/// Decoding the bytes of a `u32` gives the value back.
pub proof fn lemma_u32_round_trip(v: u32, s: Seq<u8>, off: int)
    requires
        0 <= off,
        off + 4 <= s.len(),
        s.subrange(off, off + 4) == u32_bytes(v),
    ensures
        u32_le(s, off) == v,
{
    assert(s[off] == u32_bytes(v)[0]);
    assert(s[off + 1] == u32_bytes(v)[1]);
    assert(s[off + 2] == u32_bytes(v)[2]);
    assert(s[off + 3] == u32_bytes(v)[3]);
    let b0 = s[off];
    let b1 = s[off + 1];
    let b2 = s[off + 2];
    let b3 = s[off + 3];
    assert(b0 == (v & 0xff) as u8 && b1 == ((v >> 8u32) & 0xff) as u8 && b2 == ((v >> 16u32)
        & 0xff) as u8 && b3 == ((v >> 24u32) & 0xff) as u8 ==> (b0 as u32) | ((b1 as u32) << 8u32)
        | ((b2 as u32) << 16u32) | ((b3 as u32) << 24u32) == v) by (bit_vector);
}

/// Decoding the bytes of a `u64` gives the value back.
pub proof fn lemma_u64_round_trip(v: u64, s: Seq<u8>, off: int)
    requires
        0 <= off,
        off + 8 <= s.len(),
        s.subrange(off, off + 8) == u64_bytes(v),
    ensures
        u64_le(s, off) == v,
{
    let lo = (v & 0xffff_ffff) as u32;
    let hi = (v >> 32u64) as u32;
    let t = s.subrange(off, off + 8);
    let a = u32_bytes(lo);
    let b = u32_bytes(hi);
    assert(t == a + b);
    assert(t[4] == b[0] && t[5] == b[1] && t[6] == b[2] && t[7] == b[3]);
    assert(t[0] == a[0] && t[1] == a[1] && t[2] == a[2] && t[3] == a[3]);
    assert(s.subrange(off, off + 4) =~= a);
    assert(s.subrange(off + 4, off + 8) =~= b);
    lemma_u32_round_trip(lo, s, off);
    lemma_u32_round_trip(hi, s, off + 4);
    assert(lo == (v & 0xffff_ffff) as u32 && hi == (v >> 32u64) as u32 ==> (lo as u64) | ((
    hi as u64) << 32u64) == v) by (bit_vector);
}

/// Encoding the value read at `off` reproduces the bytes there.
pub proof fn lemma_u32_bytes_of_read(s: Seq<u8>, off: int)
    requires
        0 <= off,
        off + 4 <= s.len(),
    ensures
        u32_bytes(u32_le(s, off)) == s.subrange(off, off + 4),
{
    let b0 = s[off];
    let b1 = s[off + 1];
    let b2 = s[off + 2];
    let b3 = s[off + 3];
    let v = u32_le(s, off);
    assert(v == (b0 as u32) | ((b1 as u32) << 8u32) | ((b2 as u32) << 16u32) | ((b3 as u32)
        << 24u32) ==> (v & 0xff) as u8 == b0 && ((v >> 8u32) & 0xff) as u8 == b1 && ((v >> 16u32)
        & 0xff) as u8 == b2 && ((v >> 24u32) & 0xff) as u8 == b3) by (bit_vector);
    assert(u32_bytes(v) =~= s.subrange(off, off + 4));
}

/// Encoding the value read at `off` reproduces the bytes there.
pub proof fn lemma_u64_bytes_of_read(s: Seq<u8>, off: int)
    requires
        0 <= off,
        off + 8 <= s.len(),
    ensures
        u64_bytes(u64_le(s, off)) == s.subrange(off, off + 8),
{
    let lo = u32_le(s, off);
    let hi = u32_le(s, off + 4);
    let v = u64_le(s, off);
    assert(v == (lo as u64) | ((hi as u64) << 32u64) ==> (v & 0xffff_ffff) as u32 == lo && (v
        >> 32u64) as u32 == hi) by (bit_vector);
    lemma_u32_bytes_of_read(s, off);
    lemma_u32_bytes_of_read(s, off + 4);
    assert(u64_bytes(v) =~= s.subrange(off, off + 8));
}

/// Writes the four little-endian bytes of `v` at `offset`.
pub fn write_u32_le(buf: &mut [u8], offset: usize, v: u32)
    requires
        offset + 4 <= old(buf).len(),
    ensures
        final(buf)@.len() == old(buf)@.len(),
        final(buf)@.subrange(offset as int, offset + 4) == u32_bytes(v),
        forall|i: int|
            0 <= i < old(buf)@.len() && !(offset <= i < offset + 4) ==> final(buf)@[i] == old(
                buf,
            )@[i],
{
    buf[offset] = (v & 0xff) as u8;
    buf[offset + 1] = ((v >> 8u32) & 0xff) as u8;
    buf[offset + 2] = ((v >> 16u32) & 0xff) as u8;
    buf[offset + 3] = ((v >> 24u32) & 0xff) as u8;
    assert(buf@.subrange(offset as int, offset + 4) =~= u32_bytes(v));
}

/// Writes the eight little-endian bytes of `v` at `offset`.
pub fn write_u64_le(buf: &mut [u8], offset: usize, v: u64)
    requires
        offset + 8 <= old(buf).len(),
    ensures
        final(buf)@.len() == old(buf)@.len(),
        final(buf)@.subrange(offset as int, offset + 8) == u64_bytes(v),
        forall|i: int|
            0 <= i < old(buf)@.len() && !(offset <= i < offset + 8) ==> final(buf)@[i] == old(
                buf,
            )@[i],
{
    write_u32_le(buf, offset, (v & 0xffff_ffff) as u32);
    write_u32_le(buf, offset + 4, (v >> 32u64) as u32);
    assert(buf@.subrange(offset as int, offset + 8) =~= u64_bytes(v));
}

/// A field read through a subrange is the field at the shifted offset.
pub proof fn lemma_u32_le_subrange(s: Seq<u8>, a: int, b: int, k: int)
    requires
        0 <= a <= b <= s.len(),
        0 <= k,
        k + 4 <= b - a,
    ensures
        u32_le(s.subrange(a, b), k) == u32_le(s, a + k),
{
    let t = s.subrange(a, b);
    assert(t[k] == s[a + k] && t[k + 1] == s[a + k + 1] && t[k + 2] == s[a + k + 2] && t[k + 3]
        == s[a + k + 3]);
}

} // verus!
