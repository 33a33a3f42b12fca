//! Clock configuration and flags of the serial ports (USART).

pub mod clock;
pub mod flags;
mod private;

pub use self::clock::{Clock, ClockSource};
pub use self::flags::{Flag, Interrupts};
