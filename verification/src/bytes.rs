//! Little-endian layout of 32-bit words, as syscall payloads carry them.
use vstd::prelude::*;

verus! {

/// The four bytes of `v`, least significant first.
pub open spec fn le_bytes(v: u32) -> Seq<u8> {
    seq![
        (v % 256) as u8,
        (v / 256 % 256) as u8,
        (v / 65536 % 256) as u8,
        (v / 16777216) as u8,
    ]
}

/// The number that four bytes denote when read least significant first.
pub open spec fn le_value(b0: u8, b1: u8, b2: u8, b3: u8) -> int {
    b0 + 256 * b1 + 65536 * b2 + 16777216 * b3
}

/// Writing a word and reading it back gives the word again.
pub proof fn lemma_le_roundtrip(v: u32)
    ensures
        le_bytes(v).len() == 4,
        le_value(le_bytes(v)[0], le_bytes(v)[1], le_bytes(v)[2], le_bytes(v)[3]) == v,
{
    let b0: u32 = v % 256;
    let b1: u32 = v / 256 % 256;
    let b2: u32 = v / 65536 % 256;
    let b3: u32 = v / 16777216;
    assert(b0 + 256 * b1 + 65536 * b2 + 16777216 * b3 == v) by (nonlinear_arith)
        requires
            b0 == v % 256,
            b1 == v / 256 % 256,
            b2 == v / 65536 % 256,
            b3 == v / 16777216,
    ;
}

/// The little-endian bytes of `v`, as `u32::to_le_bytes` lays them out.
pub fn u32_to_le(v: u32) -> (r: Vec<u8>)
    ensures
        r@ == le_bytes(v),
{
    let b0: u8 = (v & 0xff) as u8;
    let b1: u8 = ((v >> 8) & 0xff) as u8;
    let b2: u8 = ((v >> 16) & 0xff) as u8;
    let b3: u8 = ((v >> 24) & 0xff) as u8;
    assert(b0 == (v % 256) as u8 && b1 == (v / 256 % 256) as u8 && b2 == (v / 65536 % 256) as u8
        && b3 == (v / 16777216) as u8) by (bit_vector)
        requires
            b0 == (v & 0xff) as u8,
            b1 == ((v >> 8) & 0xff) as u8,
            b2 == ((v >> 16) & 0xff) as u8,
            b3 == ((v >> 24) & 0xff) as u8,
    ;
    let r: Vec<u8> = vec![b0, b1, b2, b3];
    assert(r@ =~= le_bytes(v));
    r
}

/// The word that four bytes denote, least significant first, as `u32::from_le_bytes` reads it.
pub fn u32_from_le(b0: u8, b1: u8, b2: u8, b3: u8) -> (v: u32)
    ensures
        v == le_value(b0, b1, b2, b3),
{
    let v: u32 = (b0 as u32) | ((b1 as u32) << 8) | ((b2 as u32) << 16) | ((b3 as u32) << 24);
    assert(((b0 as u32) | ((b1 as u32) << 8) | ((b2 as u32) << 16) | ((b3 as u32) << 24)) == b0
        + 256 * b1 + 65536 * b2 + 16777216 * b3) by (bit_vector);
    v
}

} // verus!
