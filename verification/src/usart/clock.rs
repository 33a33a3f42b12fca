//! Clock configuration of a serial port.

use super::private::Sealed;
use crate::syscon::{IOSC, UARTFRG};
use core::marker::PhantomData;
use vstd::prelude::*;

verus! {

/// The frequency of the internal oscillator, in Hz.
pub const IOSC_FREQUENCY: u32 = 12_000_000;

/// Defines the clock configuration for a USART.
///
/// The type parameter names the clock source that the configuration is for.
pub struct Clock<Source> {
    psc: u16,
    osrval: u8,
    _clock: PhantomData<Source>,
}

/// Implemented for the clock sources of a USART.
pub trait ClockSource: Sealed {

}

impl Sealed for UARTFRG {

}

impl ClockSource for UARTFRG {

}

impl Sealed for IOSC {

}

impl ClockSource for IOSC {

}

impl<C> Clock<C> {
    #[verifier::type_invariant]
    spec fn well_formed(self) -> bool {
        4 <= self.osrval <= 15
    }

    /// The value of the baud rate generator's divider register.
    pub closed spec fn spec_psc(&self) -> u16 {
        self.psc
    }

    /// The value of the oversample selection register: the number of clocks
    /// per bit, minus one.
    pub closed spec fn spec_osrval(&self) -> u8 {
        self.osrval
    }

    /// The value of the baud rate generator's divider register.
    #[verifier::when_used_as_spec(spec_psc)]
    pub fn psc(&self) -> (psc: u16)
        ensures
            psc == self.spec_psc(),
    {
        self.psc
    }

    /// The value of the oversample selection register, which lies between 4
    /// and 15.
    #[verifier::when_used_as_spec(spec_osrval)]
    pub fn osrval(&self) -> (osrval: u8)
        ensures
            osrval == self.spec_osrval(),
            4 <= osrval <= 15,
    {
        proof {
            use_type_invariant(self);
        }
        self.osrval
    }
}

impl<C: ClockSource> Clock<C> {
    /// Creates the clock configuration for a USART.
    ///
    /// `psc` goes to the divider register as it is. `osrval` is the number
    /// of clocks per bit and has to be between 5 and 16; the register holds
    /// one less.
    pub fn new(_source: &C, psc: u16, osrval: u8) -> (clock: Self)
        requires
            5 <= osrval <= 16,
        ensures
            clock.psc() == psc,
            clock.osrval() == osrval - 1,
    {
        let osrval = osrval - 1;
        Self { psc, osrval, _clock: PhantomData }
    }
}

impl Clock<IOSC> {
    /// Creates the configuration for a baud rate, with the internal
    /// oscillator running at 12 MHz.
    ///
    /// The baud rate has to be at least 1 and at most 2 400 000, a fifth of
    /// the oscillator's frequency.
    ///
    /// Every bit is sampled five times, the fewest that the hardware allows,
    /// so the oversample register holds 4. The divider is the number of times
    /// that five baud periods fit into a second of the oscillator, rounded
    /// down; the register holds one less, cut to its 16 bits.
    pub fn new_with_baudrate(baudrate: u32) -> (clock: Self)
        requires
            1 <= baudrate <= 2_400_000,
        ensures
            clock.osrval() == 4,
            clock.psc() == (IOSC_FREQUENCY as int / (5 * baudrate) - 1) % 0x1_0000,
            baudrate >= 37 ==> clock.psc() == IOSC_FREQUENCY as int / (5 * baudrate) - 1,
    {
        // The search runs from 16 clocks per bit down to 5 and keeps the last
        // number that stays below the oscillator's frequency. The product
        // grows with the number, so that is 5 whenever any number fits, and
        // 5 is also what is kept when none does.
        let calc = baudrate * 20;
        let mut osrval: u8 = 5;
        let mut i: u8 = 16;
        while i >= 5
            invariant
                4 <= i <= 16,
                calc == baudrate * 20,
                calc <= 48_000_000,
                osrval == 5 || (osrval == i + 1 && calc * osrval < IOSC_FREQUENCY),
            decreases i,
        {
            assert(calc * (i + 1) == calc * i + calc) by (nonlinear_arith);
            assert(calc * i <= 48_000_000 * 16) by (nonlinear_arith)
                requires
                    calc <= 48_000_000,
                    i <= 16,
            ;
            if calc * (i as u32) < IOSC_FREQUENCY {
                osrval = i;
            }
            i -= 1;
        }
        assert(osrval == 5);
        let divided = IOSC_FREQUENCY / (baudrate * osrval as u32);
        assert(divided >= 1) by (nonlinear_arith)
            requires
                divided == 12_000_000u32 / ((baudrate * 5) as u32),
                1 <= baudrate <= 2_400_000,
        ;
        let wide = divided - 1;
        assert(wide as u16 == wide % 0x1_0000) by (bit_vector);
        assert(baudrate >= 37 ==> divided <= 0x1_0000) by (nonlinear_arith)
            requires
                divided == 12_000_000u32 / ((baudrate * 5) as u32),
                1 <= baudrate <= 2_400_000,
        ;
        let psc = wide as u16;
        let osrval = osrval - 1;
        Self { psc, osrval, _clock: PhantomData }
    }
}

} // verus!
