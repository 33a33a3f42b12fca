//! The flags and interrupts of a serial port.

use vstd::prelude::*;

verus! {

/// Used to query the state of USART flags.
#[derive(Clone, Copy, PartialEq, Eq, Debug, Structural)]
pub enum Flag {
    /// Receiver ready
    RXRDY,
    /// Receiver idle
    RXIDLE,
    /// Transmitter ready
    TXRDY,
    /// Transmitter idle
    TXIDLE,
    /// CTS signal asserted
    CTS,
    /// Change of CTS signal detected
    DELTACTS,
    /// Transmitter disabled
    TXDIS,
    /// Overrun error
    OVERRUN,
    /// Received break
    RXBRK,
    /// RXBRK signal has changed state
    DELTARXBRK,
    /// Start detected
    START,
    /// Framing error
    FRAMERR,
    /// Parity error
    PARITYERR,
    /// Received noise
    RXNOISE,
    /// Autobaud error
    ABERR,
}

/// Used to enable or disable USART interrupts.
///
/// There is a field for each flag that can raise an interrupt.
#[allow(non_snake_case)]
#[derive(Clone, Copy, PartialEq, Eq, Debug, Structural)]
pub struct Interrupts {
    /// Receiver ready
    pub RXRDY: bool,
    /// Transmitter ready
    pub TXRDY: bool,
    /// Transmitter idle
    pub TXIDLE: bool,
    /// Change of CTS signal detected
    pub DELTACTS: bool,
    /// Transmitter disabled
    pub TXDIS: bool,
    /// Overrun error
    pub OVERRUN: bool,
    /// RXBRK signal has changed state
    pub DELTARXBRK: bool,
    /// Start detected
    pub START: bool,
    /// Framing error
    pub FRAMERR: bool,
    /// Parity error
    pub PARITYERR: bool,
    /// Received noise
    pub RXNOISE: bool,
    /// Autobaud error
    pub ABERR: bool,
}

} // verus!
