//! Peripheral data registers as the ends of a transfer.

use super::registers::Increment;
use super::transfer::{Dest, Source};
use vstd::prelude::*;

verus! {

/// A peripheral's data register to read from, such as the receive register of
/// a serial port: the source of a transfer from a peripheral.
///
/// Every unit is read from the same address. The register is always fit for a
/// transfer and never runs empty, and it leaves the length of the transfer to
/// the destination.
#[derive(Debug)]
pub struct PeripheralSource {
    addr: u32,
}

impl PeripheralSource {
    /// The address of the register.
    pub closed spec fn spec_addr(&self) -> u32 {
        self.addr
    }

    /// Makes a source of the register at `addr`.
    pub fn new(addr: u32) -> (source: PeripheralSource)
        ensures
            source.addr() == addr,
    {
        PeripheralSource { addr }
    }

    /// The address of the register.
    #[verifier::when_used_as_spec(spec_addr)]
    pub fn addr(&self) -> (addr: u32)
        ensures
            addr == self.spec_addr(),
    {
        self.addr
    }
}

impl Source for PeripheralSource {
    open spec fn spec_is_valid(&self) -> bool {
        true
    }

    open spec fn spec_is_empty(&self) -> bool {
        false
    }

    open spec fn spec_increment(&self) -> Increment {
        Increment::NoIncrement
    }

    open spec fn spec_transfer_count(&self) -> Option<u32> {
        None
    }

    open spec fn spec_end_addr(&self) -> u32 {
        self.addr()
    }

    proof fn lemma_valid_count(&self) {
    }

    fn is_valid(&self) -> (valid: bool) {
        true
    }

    fn is_empty(&self) -> (empty: bool) {
        false
    }

    fn increment(&self) -> (increment: Increment) {
        Increment::NoIncrement
    }

    fn transfer_count(&self) -> (count: Option<u32>) {
        None
    }

    fn end_addr(&self) -> (addr: u32) {
        self.addr
    }
}

/// A peripheral's data register to write to, such as the transmit register of
/// a serial port: the destination of a transfer to a peripheral.
///
/// Every unit is written to the same address. The register is always fit for
/// a transfer and never full, and it leaves the length of the transfer to the
/// source.
#[derive(Debug)]
pub struct PeripheralDest {
    addr: u32,
}

impl PeripheralDest {
    /// The address of the register.
    pub closed spec fn spec_addr(&self) -> u32 {
        self.addr
    }

    /// Makes a destination of the register at `addr`.
    pub fn new(addr: u32) -> (dest: PeripheralDest)
        ensures
            dest.addr() == addr,
    {
        PeripheralDest { addr }
    }

    /// The address of the register.
    #[verifier::when_used_as_spec(spec_addr)]
    pub fn addr(&self) -> (addr: u32)
        ensures
            addr == self.spec_addr(),
    {
        self.addr
    }
}

impl Dest for PeripheralDest {
    open spec fn spec_is_valid(&self) -> bool {
        true
    }

    open spec fn spec_is_full(&self) -> bool {
        false
    }

    open spec fn spec_increment(&self) -> Increment {
        Increment::NoIncrement
    }

    open spec fn spec_transfer_count(&self) -> Option<u32> {
        None
    }

    open spec fn spec_end_addr(&self) -> u32 {
        self.addr()
    }

    proof fn lemma_valid_count(&self) {
    }

    fn is_valid(&self) -> (valid: bool) {
        true
    }

    fn is_full(&self) -> (full: bool) {
        false
    }

    fn increment(&self) -> (increment: Increment) {
        Increment::NoIncrement
    }

    fn transfer_count(&self) -> (count: Option<u32>) {
        None
    }

    fn end_addr(&self) -> (addr: u32) {
        self.addr
    }
}

} // verus!
