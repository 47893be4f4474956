//! Big-endian reads over an immutable byte buffer.
//!
//! OpenType tables store every multi-byte field big-endian. All readers are
//! stateless: the caller passes an explicit offset, so independent tables can
//! be decoded without sharing cursor state. Each read requires the whole
//! field to lie within the buffer; each decoder establishes that by checking
//! its own table's range first, so no read is ever attempted out of bounds.

use vstd::prelude::*;

verus! {

/// The big-endian 16-bit unsigned value stored at `off`.
pub open spec fn be_u16_at(b: Seq<u8>, off: int) -> int {
    b[off] * 256 + b[off + 1]
}

/// The big-endian 32-bit unsigned value stored at `off`.
pub open spec fn be_u32_at(b: Seq<u8>, off: int) -> int {
    ((b[off] * 256 + b[off + 1]) * 256 + b[off + 2]) * 256 + b[off + 3]
}

/// Reinterprets a 16-bit unsigned value as two's-complement signed.
pub open spec fn sign16(v: int) -> int {
    if v < 0x8000 {
        v
    } else {
        v - 0x10000
    }
}

/// The big-endian 16-bit signed value stored at `off`.
pub open spec fn be_i16_at(b: Seq<u8>, off: int) -> int {
    sign16(be_u16_at(b, off))
}

pub fn read_u8(data: &[u8], off: usize) -> (r: u8)
    requires
        off < data@.len(),
    ensures
        r == data@[off as int],
{
    data[off]
}

pub fn read_u16(data: &[u8], off: usize) -> (r: u16)
    requires
        off + 2 <= data@.len(),
    ensures
        r == be_u16_at(data@, off as int),
{
    let hi = data[off];
    let lo = data[off + 1];
    (hi as u16) * 256 + (lo as u16)
}

pub fn read_u32(data: &[u8], off: usize) -> (r: u32)
    requires
        off + 4 <= data@.len(),
    ensures
        r == be_u32_at(data@, off as int),
{
    let b0 = data[off];
    let b1 = data[off + 1];
    let b2 = data[off + 2];
    let b3 = data[off + 3];
    (((b0 as u32) * 256 + (b1 as u32)) * 256 + (b2 as u32)) * 256 + (b3 as u32)
}

pub fn read_i16(data: &[u8], off: usize) -> (r: i16)
    requires
        off + 2 <= data@.len(),
    ensures
        r == be_i16_at(data@, off as int),
{
    let u = read_u16(data, off);
    if u < 0x8000 {
        u as i16
    } else {
        let mag: i32 = 0x10000 - (u as i32);
        (-mag) as i16
    }
}

} // verus!
