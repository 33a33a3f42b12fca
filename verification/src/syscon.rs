//! Clock sources and clock configurations of the system configuration block.

pub mod clocksource_82x;

pub use self::clocksource_82x::{I2cClock, UsartClock};

use vstd::prelude::*;

verus! {

/// The fractional rate generator that feeds the serial ports of the LPC82x.
pub struct UARTFRG {
    _private: (),
}

impl UARTFRG {
    /// Makes the token that stands for the fractional rate generator.
    pub fn new() -> UARTFRG {
        UARTFRG { _private: () }
    }
}

/// The internal oscillator of the LPC845, which runs at 12 MHz.
pub struct IOSC {
    _private: (),
}

impl IOSC {
    /// Makes the token that stands for the internal oscillator.
    pub fn new() -> IOSC {
        IOSC { _private: () }
    }
}

} // verus!
