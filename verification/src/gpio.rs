//! General purpose I/O (GPIO): pin directions, and how the level of a pin is
//! read from the port register.

pub mod direction;

use vstd::prelude::*;

verus! {

/// Tells from the value of the port's pin register whether the pin with the
/// given mask is set to HIGH: every bit of the mask is set in the register.
pub fn is_set_high(port: u32, mask: u32) -> (high: bool)
    ensures
        high == (port & mask == mask),
{
    port & mask == mask
}

/// Tells from the value of the port's pin register whether the pin with the
/// given mask is set to LOW: every bit of the mask is clear in the register.
pub fn is_set_low(port: u32, mask: u32) -> (low: bool)
    ensures
        low == (!port & mask == mask),
        low == (port & mask == 0),
{
    assert((!port & mask == mask) == (port & mask == 0)) by (bit_vector);
    !port & mask == mask
}

} // verus!
