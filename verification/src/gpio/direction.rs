//! Types that indicate the direction of a GPIO pin.

use vstd::prelude::*;

verus! {

/// Implemented by the types that indicate the direction of a GPIO pin.
pub trait Direction {

}

/// Marks the direction of a GPIO pin as unknown.
///
/// Nobody knows what happened to the hardware before the program started,
/// so this is the state that a GPIO pin starts out in.
pub struct Unknown;

impl Direction for Unknown {

}

/// Marks a GPIO pin as configured for input.
pub struct Input;

impl Direction for Input {

}

/// Marks a GPIO pin as configured for output.
pub struct Output;

impl Direction for Output {

}

/// Marks a direction as not being output, that is: unknown or input.
pub trait NotOutput: Direction {

}

impl NotOutput for Unknown {

}

impl NotOutput for Input {

}

} // verus!
