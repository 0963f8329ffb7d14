//! Fixed-width integers as they lie in a byte buffer.

use vstd::prelude::*;

verus! {

/// The tail of `b` from `at` on.
pub open spec fn tail(b: Seq<u8>, at: int) -> Seq<u8> {
    b.subrange(at, b.len() as int)
}

/// The little-endian 16-bit number at `at`.
pub open spec fn le_u16(b: Seq<u8>, at: int) -> int {
    b[at] as int + 0x100 * (b[at + 1] as int)
}

/// The big-endian 16-bit number at `at`.
pub open spec fn be_u16(b: Seq<u8>, at: int) -> int {
    0x100 * (b[at] as int) + b[at + 1] as int
}

/// The little-endian 32-bit number at `at`.
pub open spec fn le_u32(b: Seq<u8>, at: int) -> int {
    le_u16(b, at) + 0x1_0000 * le_u16(b, at + 2)
}

/// The big-endian 32-bit number at `at`.
pub open spec fn be_u32(b: Seq<u8>, at: int) -> int {
    0x1_0000 * be_u16(b, at) + be_u16(b, at + 2)
}

/// The little-endian 64-bit number at `at`.
pub open spec fn le_u64(b: Seq<u8>, at: int) -> int {
    le_u32(b, at) + 0x1_0000_0000 * le_u32(b, at + 4)
}

/// The big-endian 48-bit number at `at`.
pub open spec fn be_u48(b: Seq<u8>, at: int) -> int {
    0x1_0000_0000 * be_u16(b, at) + be_u32(b, at + 2)
}

/// The two's-complement reading of a 64-bit pattern.
pub open spec fn as_signed_64(u: int) -> int {
    if u >= 0x8000_0000_0000_0000 {
        u - 0x1_0000_0000_0000_0000
    } else {
        u
    }
}

/// The little-endian signed 64-bit number at `at`.
pub open spec fn le_i64(b: Seq<u8>, at: int) -> int {
    as_signed_64(le_u64(b, at))
}

/// Reads the little-endian 16-bit number at `at`.
pub fn read_u16_le(bytes: &[u8], at: usize) -> (r: u16)
    requires
        at + 2 <= bytes.len(),
    ensures
        r == le_u16(bytes@, at as int),
{
    let lo: u16 = bytes[at] as u16;
    let hi: u16 = bytes[at + 1] as u16;
    lo + 0x100 * hi
}

/// Reads the big-endian 16-bit number at `at`.
pub fn read_u16_be(bytes: &[u8], at: usize) -> (r: u16)
    requires
        at + 2 <= bytes.len(),
    ensures
        r == be_u16(bytes@, at as int),
{
    let hi: u16 = bytes[at] as u16;
    let lo: u16 = bytes[at + 1] as u16;
    0x100 * hi + lo
}

/// Reads the little-endian 32-bit number at `at`.
pub fn read_u32_le(bytes: &[u8], at: usize) -> (r: u32)
    requires
        at + 4 <= bytes.len(),
    ensures
        r == le_u32(bytes@, at as int),
{
    let lo: u32 = read_u16_le(bytes, at) as u32;
    let hi: u32 = read_u16_le(bytes, at + 2) as u32;
    lo + 0x1_0000 * hi
}

/// Reads the big-endian 32-bit number at `at`.
pub fn read_u32_be(bytes: &[u8], at: usize) -> (r: u32)
    requires
        at + 4 <= bytes.len(),
    ensures
        r == be_u32(bytes@, at as int),
{
    let hi: u32 = read_u16_be(bytes, at) as u32;
    let lo: u32 = read_u16_be(bytes, at + 2) as u32;
    0x1_0000 * hi + lo
}

/// Reads the little-endian 64-bit number at `at`.
pub fn read_u64_le(bytes: &[u8], at: usize) -> (r: u64)
    requires
        at + 8 <= bytes.len(),
    ensures
        r == le_u64(bytes@, at as int),
{
    let lo: u64 = read_u32_le(bytes, at) as u64;
    let hi: u64 = read_u32_le(bytes, at + 4) as u64;
    lo + 0x1_0000_0000 * hi
}

/// Reads the big-endian 48-bit number at `at`.
pub fn read_u48_be(bytes: &[u8], at: usize) -> (r: u64)
    requires
        at + 6 <= bytes.len(),
    ensures
        r == be_u48(bytes@, at as int),
        r < 0x1_0000_0000_0000,
{
    let hi: u64 = read_u16_be(bytes, at) as u64;
    let lo: u64 = read_u32_be(bytes, at + 2) as u64;
    0x1_0000_0000 * hi + lo
}

/// Reads a 64-bit pattern as a signed number.
pub fn signed_64(u: u64) -> (r: i64)
    ensures
        r == as_signed_64(u as int),
{
    if u >= 0x8000_0000_0000_0000 {
        let low: u64 = u - 0x8000_0000_0000_0000;
        (low as i64) + i64::MIN
    } else {
        u as i64
    }
}

/// Reads the little-endian signed 64-bit number at `at`.
pub fn read_i64_le(bytes: &[u8], at: usize) -> (r: i64)
    requires
        at + 8 <= bytes.len(),
    ensures
        r == le_i64(bytes@, at as int),
{
    signed_64(read_u64_le(bytes, at))
}

/// Copies `bytes[from..to]` into a vector.
pub fn copy_range(bytes: &[u8], from: usize, to: usize) -> (r: Vec<u8>)
    requires
        from <= to <= bytes.len(),
    ensures
        r@ == bytes@.subrange(from as int, to as int),
{
    let mut out: Vec<u8> = Vec::new();
    let mut i: usize = from;
    while i < to
        invariant
            from <= i <= to <= bytes@.len(),
            out@ == bytes@.subrange(from as int, i as int),
        decreases to - i,
    {
        out.push(bytes[i]);
        i += 1;
    }
    out
}

/// The four bytes `bytes[at..at + 4]`.
pub fn array4(bytes: &[u8], at: usize) -> (r: [u8; 4])
    requires
        at + 4 <= bytes.len(),
    ensures
        r@ == bytes@.subrange(at as int, at + 4),
{
    let r: [u8; 4] = [bytes[at], bytes[at + 1], bytes[at + 2], bytes[at + 3]];
    assert(r@ =~= bytes@.subrange(at as int, at + 4));
    r
}

/// The sixteen bytes `bytes[at..at + 16]`.
pub fn array16(bytes: &[u8], at: usize) -> (r: [u8; 16])
    requires
        at + 16 <= bytes.len(),
    ensures
        r@ == bytes@.subrange(at as int, at + 16),
{
    let r: [u8; 16] = [
        bytes[at],
        bytes[at + 1],
        bytes[at + 2],
        bytes[at + 3],
        bytes[at + 4],
        bytes[at + 5],
        bytes[at + 6],
        bytes[at + 7],
        bytes[at + 8],
        bytes[at + 9],
        bytes[at + 10],
        bytes[at + 11],
        bytes[at + 12],
        bytes[at + 13],
        bytes[at + 14],
        bytes[at + 15],
    ];
    assert(r@ =~= bytes@.subrange(at as int, at + 16));
    r
}

} // verus!
