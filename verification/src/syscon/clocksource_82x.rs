//! Clock configurations of the LPC82x peripherals.

use super::UARTFRG;
use core::marker::PhantomData;
use vstd::prelude::*;

verus! {

/// Defines the clock configuration for a USART.
///
/// The type parameter names the USART that the configuration is for.
pub struct UsartClock<PeriphClock> {
    psc: u16,
    osrval: u8,
    _periphclock: PhantomData<PeriphClock>,
}

impl<PERIPH> UsartClock<PERIPH> {
    #[verifier::type_invariant]
    spec fn well_formed(self) -> bool {
        4 <= self.osrval <= 15
    }

    /// The value of the baud rate generator's divider register.
    pub closed spec fn spec_psc(&self) -> u16 {
        self.psc
    }

    /// The value of the oversample selection register: the number of clocks
    /// per bit, minus one.
    pub closed spec fn spec_osrval(&self) -> u8 {
        self.osrval
    }

    /// Creates the clock configuration for a USART.
    ///
    /// `psc` goes to the divider register as it is. `osrval` is the number
    /// of clocks per bit and has to be between 5 and 16; the register holds
    /// one less.
    pub fn new(_source: &UARTFRG, psc: u16, osrval: u8) -> (clock: Self)
        requires
            5 <= osrval <= 16,
        ensures
            clock.psc() == psc,
            clock.osrval() == osrval - 1,
    {
        let osrval = osrval - 1;
        Self { psc, osrval, _periphclock: PhantomData }
    }

    /// The value of the baud rate generator's divider register.
    #[verifier::when_used_as_spec(spec_psc)]
    pub fn psc(&self) -> (psc: u16)
        ensures
            psc == self.spec_psc(),
    {
        self.psc
    }

    /// The value of the oversample selection register, which lies between 4
    /// and 15.
    #[verifier::when_used_as_spec(spec_osrval)]
    pub fn osrval(&self) -> (osrval: u8)
        ensures
            osrval == self.spec_osrval(),
            4 <= osrval <= 15,
    {
        proof {
            use_type_invariant(self);
        }
        self.osrval
    }
}

/// The clock configuration for an I2C peripheral.
///
/// The type parameter names the peripheral that the configuration is for.
pub struct I2cClock<PeriphClock> {
    divval: u16,
    mstsclhigh: u8,
    mstscllow: u8,
    _periphclock: PhantomData<PeriphClock>,
}

impl<PERIPH> I2cClock<PERIPH> {
    #[verifier::type_invariant]
    spec fn well_formed(self) -> bool {
        self.mstsclhigh <= 7 && self.mstscllow <= 7
    }

    /// The value of the clock divider register.
    pub closed spec fn spec_divval(&self) -> u16 {
        self.divval
    }

    /// The value of the register field for the high time of the clock: the
    /// number of clocks, minus two.
    pub closed spec fn spec_mstsclhigh(&self) -> u8 {
        self.mstsclhigh
    }

    /// The value of the register field for the low time of the clock: the
    /// number of clocks, minus two.
    pub closed spec fn spec_mstscllow(&self) -> u8 {
        self.mstscllow
    }

    /// Creates the clock configuration for an I2C peripheral.
    ///
    /// `mstsclhigh` and `mstscllow` are the numbers of clocks for which the
    /// clock line is high and low; each has to be between 2 and 9. The
    /// register fields hold two less.
    pub fn new(divval: u16, mstsclhigh: u8, mstscllow: u8) -> (clock: Self)
        requires
            2 <= mstsclhigh <= 9,
            2 <= mstscllow <= 9,
        ensures
            clock.divval() == divval,
            clock.mstsclhigh() == mstsclhigh - 2,
            clock.mstscllow() == mstscllow - 2,
    {
        Self {
            divval,
            mstsclhigh: mstsclhigh - 2,
            mstscllow: mstscllow - 2,
            _periphclock: PhantomData,
        }
    }

    /// Creates the clock configuration for 400 kHz, with the internal
    /// oscillator running at 12 MHz: a divider value of 5, two clocks high
    /// and three clocks low.
    pub fn new_400khz() -> (clock: Self)
        ensures
            clock.divval() == 5,
            clock.mstsclhigh() == 0,
            clock.mstscllow() == 1,
    {
        Self { divval: 5, mstsclhigh: 0, mstscllow: 1, _periphclock: PhantomData }
    }

    /// The value of the clock divider register.
    #[verifier::when_used_as_spec(spec_divval)]
    pub fn divval(&self) -> (divval: u16)
        ensures
            divval == self.spec_divval(),
    {
        self.divval
    }

    /// The value of the register field for the high time of the clock,
    /// which is at most 7.
    #[verifier::when_used_as_spec(spec_mstsclhigh)]
    pub fn mstsclhigh(&self) -> (mstsclhigh: u8)
        ensures
            mstsclhigh == self.spec_mstsclhigh(),
            mstsclhigh <= 7,
    {
        proof {
            use_type_invariant(self);
        }
        self.mstsclhigh
    }

    /// The value of the register field for the low time of the clock, which
    /// is at most 7.
    #[verifier::when_used_as_spec(spec_mstscllow)]
    pub fn mstscllow(&self) -> (mstscllow: u8)
        ensures
            mstscllow == self.spec_mstscllow(),
            mstscllow <= 7,
    {
        proof {
            use_type_invariant(self);
        }
        self.mstscllow
    }
}

} // verus!
