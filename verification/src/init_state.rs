//! Type-level markers for the initialization state of a peripheral.

use vstd::prelude::*;

verus! {

/// Marks a peripheral, or a part of one, as enabled.
///
/// The payload ties the enabled state to whatever makes it valid, typically
/// a reference to the handle of the peripheral that was switched on.
pub struct Enabled<T = ()>(pub T);

/// Marks a peripheral, or a part of one, as disabled.
pub struct Disabled;

} // verus!
