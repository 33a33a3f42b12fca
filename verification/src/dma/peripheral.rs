//! The DMA peripheral as a whole.

use vstd::prelude::*;

verus! {

/// The handle to the DMA peripheral: the token that stands for a peripheral
/// whose clock is running and whose reset has been released.
///
/// A channel is enabled against a handle and stays tied to it. This crate
/// cannot see the clock: make a handle only once the peripheral has been
/// switched on.
pub struct Handle {
    _private: (),
}

impl Handle {
    /// Makes the handle of a DMA peripheral that has been switched on.
    pub fn new() -> Handle {
        Handle { _private: () }
    }
}

} // verus!
