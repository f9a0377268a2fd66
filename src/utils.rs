//! 16-bit address arithmetic of the CPU.
use vstd::prelude::*;

verus! {

/// Whether adding `offset` to `base` lands on another 256-byte page.
pub open spec fn crosses_page(base: u16, offset: u8) -> bool {
    ((base + offset) % 0x10000) / 256 != base / 256
}

pub fn check_cross_page(base: u16, offset: u8) -> (r: bool)
    ensures
        r == crosses_page(base, offset),
{
    high_byte(base.wrapping_add(offset as u16)) != high_byte(base)
}

/// `base + index`, wrapping around the 16-bit address space.
pub fn offset(base: u16, index: u8) -> (r: u16)
    ensures
        r == (base + index) % 0x10000,
{
    base.wrapping_add(index as u16)
}

/// The low byte of `value`.
pub fn low_byte(value: u16) -> (r: u16)
    ensures
        r == value % 256,
{
    let r = value & 0xFF;
    assert(r == value % 256) by (bit_vector)
        requires
            r == value & 0xFF,
    ;
    r
}

/// `value` with its low byte cleared.
pub fn high_byte(value: u16) -> (r: u16)
    ensures
        r == value / 256 * 256,
{
    let r = value & 0xFF00;
    assert(r == value / 256 * 256) by (bit_vector)
        requires
            r == value & 0xFF00,
    ;
    r
}

} // verus!
