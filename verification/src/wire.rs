use vstd::prelude::*;

verus! {

/// The 16-bit value stored little-endian as the bytes `lo`, `hi`.
pub open spec fn u16_from_le_spec(lo: u8, hi: u8) -> u16 {
    (lo + hi * 0x100) as u16
}

/// The 32-bit value stored little-endian as the bytes `b0` (least
/// significant) through `b3`.
pub open spec fn u32_from_le_spec(b0: u8, b1: u8, b2: u8, b3: u8) -> u32 {
    (b0 + b1 * 0x100 + b2 * 0x1_0000 + b3 * 0x100_0000) as u32
}

/// Assemble a little-endian 16-bit value from its two bytes.
pub fn u16_from_le(lo: u8, hi: u8) -> (r: u16)
    ensures
        r == u16_from_le_spec(lo, hi),
{
    (lo as u16) + (hi as u16) * 0x100
}

/// Assemble a little-endian 32-bit value from its four bytes.
pub fn u32_from_le(b0: u8, b1: u8, b2: u8, b3: u8) -> (r: u32)
    ensures
        r == u32_from_le_spec(b0, b1, b2, b3),
{
    (b0 as u32) + (b1 as u32) * 0x100 + (b2 as u32) * 0x1_0000 + (b3 as u32) * 0x100_0000
}

/// The two little-endian bytes of a 16-bit value: low byte first.
pub fn u16_to_le(value: u16) -> (r: (u8, u8))
    ensures
        u16_from_le_spec(r.0, r.1) == value,
{
    let lo = (value % 0x100) as u8;
    let hi = (value / 0x100) as u8;
    (lo, hi)
}

} // verus!
