//! Bit-field helpers for register and table values.
use vstd::prelude::*;

verus! {

/// Reads the field selected by `mask` out of `value` and shifts it down by `shift` bits.
pub fn mask_shift_read_u16(value: u16, mask: u16, shift: u32) -> (r: u16)
    requires
        shift < 16,
    ensures
        r == (value & mask) >> shift,
{
    (value & mask) >> shift
}

/// Reads the field selected by `mask` out of `value` and shifts it down by `shift` bits.
pub fn mask_shift_read_u32(value: u32, mask: u32, shift: u32) -> (r: u32)
    requires
        shift < 32,
    ensures
        r == (value & mask) >> shift,
{
    (value & mask) >> shift
}

} // verus!
