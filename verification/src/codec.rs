//! Little-endian integer decoding and UTF-8 text decoding for the argument
//! buffers.
//!
//! Each system decodes its opaque argument buffer through these primitives.
//! The spec functions give the mathematical value of a little-endian field,
//! and the executable readers are proved to return exactly that value.

use vstd::prelude::*;

verus! {

/// The value of the four-byte little-endian unsigned field at `i`.
pub open spec fn le_u32_at(b: Seq<u8>, i: int) -> int
    recommends
        0 <= i,
        i + 4 <= b.len(),
{
    b[i] + b[i + 1] * 0x100 + b[i + 2] * 0x1_0000 + b[i + 3] * 0x100_0000
}

/// The value of the eight-byte little-endian unsigned field at `i`.
pub open spec fn le_u64_at(b: Seq<u8>, i: int) -> int
    recommends
        0 <= i,
        i + 8 <= b.len(),
{
    b[i] + b[i + 1] * 0x100 + b[i + 2] * 0x1_0000 + b[i + 3] * 0x100_0000
        + b[i + 4] * 0x1_0000_0000 + b[i + 5] * 0x100_0000_0000
        + b[i + 6] * 0x1_0000_0000_0000 + b[i + 7] * 0x100_0000_0000_0000
}

/// The value of the eight-byte little-endian two's-complement field at `i`.
pub open spec fn le_i64_at(b: Seq<u8>, i: int) -> int
    recommends
        0 <= i,
        i + 8 <= b.len(),
{
    if le_u64_at(b, i) < 0x8000_0000_0000_0000 {
        le_u64_at(b, i)
    } else {
        le_u64_at(b, i) - 0x1_0000_0000_0000_0000
    }
}

/// Reads the four-byte little-endian unsigned field at `i`.
pub fn read_le_u32(b: &Vec<u8>, i: usize) -> (r: u32)
    requires
        i + 4 <= b@.len(),
    ensures
        r == le_u32_at(b@, i as int),
{
    // The vector's length fits in usize, so the indices below cannot overflow.
    let _len: usize = b.len();
    let b0 = b[i] as u32;
    let b1 = b[i + 1] as u32;
    let b2 = b[i + 2] as u32;
    let b3 = b[i + 3] as u32;
    b0 + b1 * 0x100 + b2 * 0x1_0000 + b3 * 0x100_0000
}

/// Reads the eight-byte little-endian unsigned field at `i`.
pub fn read_le_u64(b: &Vec<u8>, i: usize) -> (r: u64)
    requires
        i + 8 <= b@.len(),
    ensures
        r == le_u64_at(b@, i as int),
{
    // The vector's length fits in usize, so the indices below cannot overflow.
    let _len: usize = b.len();
    let b0 = b[i] as u64;
    let b1 = b[i + 1] as u64;
    let b2 = b[i + 2] as u64;
    let b3 = b[i + 3] as u64;
    let b4 = b[i + 4] as u64;
    let b5 = b[i + 5] as u64;
    let b6 = b[i + 6] as u64;
    let b7 = b[i + 7] as u64;
    b0 + b1 * 0x100 + b2 * 0x1_0000 + b3 * 0x100_0000 + b4 * 0x1_0000_0000 + b5 * 0x100_0000_0000
        + b6 * 0x1_0000_0000_0000 + b7 * 0x100_0000_0000_0000
}

/// Reads the eight-byte little-endian two's-complement field at `i`.
pub fn read_le_i64(b: &Vec<u8>, i: usize) -> (r: i64)
    requires
        i + 8 <= b@.len(),
    ensures
        r as int == le_i64_at(b@, i as int),
{
    let u = read_le_u64(b, i);
    if u >= 0x8000_0000_0000_0000 {
        let m = u - 0x8000_0000_0000_0000;
        i64::MIN + m as i64
    } else {
        u as i64
    }
}

/// Copies the bytes of `b` from `from` (inclusive) to `to` (exclusive).
pub fn copy_range(b: &Vec<u8>, from: usize, to: usize) -> (r: Vec<u8>)
    requires
        from <= to <= b@.len(),
    ensures
        r@ == b@.subrange(from as int, to as int),
{
    let mut out: Vec<u8> = Vec::new();
    let mut i: usize = from;
    while i < to
        invariant
            from <= i <= to <= b@.len(),
            out@ == b@.subrange(from as int, i as int),
        decreases to - i,
    {
        out.push(b[i]);
        assert(out@ =~= b@.subrange(from as int, i + 1));
        i = i + 1;
    }
    out
}

/// Relies on `String::from_utf8`: it returns the decoded text exactly when
/// the bytes are well-formed UTF-8, and fails otherwise.
#[verifier::external_body]
pub(crate) fn bytes_to_string(b: Vec<u8>) -> (r: Option<String>)
    ensures
        r is Some <==> vstd::utf8::valid_utf8(b@),
        r matches Some(s) ==> s@ == vstd::utf8::decode_utf8(b@),
{
    String::from_utf8(b).ok()
}

} // verus!
