//! Big-endian field readers.

use vstd::prelude::*;

verus! {

/// The unsigned value of two big-endian bytes.
pub open spec fn be_u16(hi: u8, lo: u8) -> int {
    hi as int * 256 + lo as int
}

/// Reads a big-endian `u16` at `at`.
pub fn read_u16_be(bytes: &[u8], at: usize) -> (r: u16)
    requires
        at + 2 <= bytes@.len(),
    ensures
        r as int == be_u16(bytes@[at as int], bytes@[at + 1]),
{
    let hi = bytes[at] as u16;
    let lo = bytes[at + 1] as u16;
    hi * 256 + lo
}

} // verus!

verus! {

/// The unsigned value of four big-endian bytes.
pub open spec fn be_u32(b0: u8, b1: u8, b2: u8, b3: u8) -> int {
    ((b0 as int * 256 + b1 as int) * 256 + b2 as int) * 256 + b3 as int
}

/// The `u16` read big-endian at `at`.
pub open spec fn u16_at(b: Seq<u8>, at: int) -> int {
    be_u16(b[at], b[at + 1])
}

/// The `u32` read big-endian at `at`.
pub open spec fn u32_at(b: Seq<u8>, at: int) -> int {
    be_u32(b[at], b[at + 1], b[at + 2], b[at + 3])
}

/// The two's-complement value of a 16-bit pattern.
pub open spec fn i16_of(u: int) -> int {
    if u >= 0x8000 { u - 0x10000 } else { u }
}

/// Reads a big-endian `u32` at `at`.
pub fn read_u32_be(bytes: &[u8], at: usize) -> (r: u32)
    requires
        at + 4 <= bytes@.len(),
    ensures
        r as int == u32_at(bytes@, at as int),
{
    let b0 = bytes[at] as u32;
    let b1 = bytes[at + 1] as u32;
    let b2 = bytes[at + 2] as u32;
    let b3 = bytes[at + 3] as u32;
    ((b0 * 256 + b1) * 256 + b2) * 256 + b3
}

/// Reads a big-endian `i16` at `at`.
pub fn read_i16_be(bytes: &[u8], at: usize) -> (r: i16)
    requires
        at + 2 <= bytes@.len(),
    ensures
        r as int == i16_of(u16_at(bytes@, at as int)),
{
    let u = read_u16_be(bytes, at);
    if u < 0x8000 {
        u as i16
    } else {
        ((u - 0x8000) as i16) - 0x4000 - 0x4000
    }
}

} // verus!
