//! Keeps the traits of this module from being implemented elsewhere.

use vstd::prelude::*;

verus! {

/// Implemented for the clock sources of this crate only.
pub trait Sealed {

}

} // verus!
