//! Memory regions as the ends of a transfer.

use super::registers::{Increment, MAX_TRANSFER_UNITS};
use super::transfer::{spec_validate, Dest, Source, TransferError};
use vstd::prelude::*;

verus! {

/// A region of memory that lives as long as the program, given by the
/// address of its first byte and its length in bytes. A region never wraps
/// around the end of the address space.
#[derive(Clone, Copy, Debug)]
pub struct Region {
    base: u32,
    len: u32,
}

impl Region {
    #[verifier::type_invariant]
    spec fn well_formed(self) -> bool {
        self.base + self.len <= 0x1_0000_0000
    }

    /// The address of the first byte.
    pub closed spec fn spec_base(&self) -> u32 {
        self.base
    }

    /// The length in bytes.
    pub closed spec fn spec_len(&self) -> u32 {
        self.len
    }

    /// Describes the region of `len` bytes that starts at `base`.
    ///
    /// Returns `None` exactly if such a region would reach beyond the end of
    /// the address space.
    pub fn new(base: u32, len: u32) -> (region: Option<Region>)
        ensures
            region is Some <==> base + len <= 0x1_0000_0000,
            region matches Some(r) ==> r.base() == base && r.len() == len,
    {
        if len as u64 <= 0x1_0000_0000u64 - base as u64 {
            Some(Region { base, len })
        } else {
            None
        }
    }

    /// The address of the first byte.
    #[verifier::when_used_as_spec(spec_base)]
    pub fn base(&self) -> (base: u32)
        ensures
            base == self.spec_base(),
    {
        self.base
    }

    /// The length in bytes.
    #[verifier::when_used_as_spec(spec_len)]
    pub fn len(&self) -> (len: u32)
        ensures
            len == self.spec_len(),
    {
        self.len
    }

    /// Whether one transfer can move the whole region: at most 1024 bytes.
    pub open spec fn spec_fits_transfer(&self) -> bool {
        self.len() <= MAX_TRANSFER_UNITS
    }

    /// Whether one transfer can move the whole region: at most 1024 bytes.
    #[verifier::when_used_as_spec(spec_fits_transfer)]
    pub fn fits_transfer(&self) -> (fits: bool)
        ensures
            fits == self.spec_fits_transfer(),
    {
        self.len <= MAX_TRANSFER_UNITS
    }

    /// The number of bytes minus one; `None` for the empty region.
    pub open spec fn spec_transfer_count(&self) -> Option<u32> {
        if self.len() == 0 {
            None
        } else {
            Some((self.len() - 1) as u32)
        }
    }

    /// The number of bytes minus one; `None` for the empty region.
    #[verifier::when_used_as_spec(spec_transfer_count)]
    pub fn transfer_count(&self) -> (count: Option<u32>)
        ensures
            count == self.spec_transfer_count(),
    {
        if self.len == 0 {
            None
        } else {
            Some(self.len - 1)
        }
    }

    /// The address of the last byte of a region that is not empty.
    pub open spec fn spec_end_addr(&self) -> u32 {
        (self.base() + (self.len() - 1)) as u32
    }

    /// The address of the last byte. The empty region has none.
    #[verifier::when_used_as_spec(spec_end_addr)]
    pub fn end_addr(&self) -> (addr: u32)
        requires
            self.len() >= 1,
        ensures
            addr == self.spec_end_addr(),
            addr == self.base() + (self.len() - 1),
    {
        proof {
            use_type_invariant(self);
        }
        self.base + (self.len - 1)
    }
}

/// A region of memory to read from: the source of a transfer from memory.
///
/// The transfer reads the region byte by byte, from the first to the last.
#[derive(Clone, Copy, Debug)]
pub struct Buffer {
    region: Region,
}

impl Buffer {
    /// The region that is read.
    pub closed spec fn spec_region(&self) -> Region {
        self.region
    }

    /// Makes a source of a region.
    pub fn new(region: Region) -> (buffer: Buffer)
        ensures
            buffer.region() == region,
    {
        Buffer { region }
    }

    /// The region that is read.
    #[verifier::when_used_as_spec(spec_region)]
    pub fn region(&self) -> (region: Region)
        ensures
            region == self.spec_region(),
    {
        self.region
    }
}

impl Source for Buffer {
    open spec fn spec_is_valid(&self) -> bool {
        self.region().fits_transfer()
    }

    open spec fn spec_is_empty(&self) -> bool {
        self.region().len() == 0
    }

    open spec fn spec_increment(&self) -> Increment {
        Increment::WidthX1
    }

    open spec fn spec_transfer_count(&self) -> Option<u32> {
        self.region().transfer_count()
    }

    open spec fn spec_end_addr(&self) -> u32 {
        self.region().end_addr()
    }

    proof fn lemma_valid_count(&self) {
    }

    fn is_valid(&self) -> (valid: bool)
        ensures
            valid == (self.region().len() <= 1024),
    {
        self.region.fits_transfer()
    }

    fn is_empty(&self) -> (empty: bool)
        ensures
            empty == (self.region().len() == 0),
    {
        self.region.len() == 0
    }

    fn increment(&self) -> (increment: Increment)
        ensures
            increment == Increment::WidthX1,
    {
        Increment::WidthX1
    }

    fn transfer_count(&self) -> (count: Option<u32>)
        ensures
            self.region().len() >= 1 ==> count == Some((self.region().len() - 1) as u32),
            self.region().len() == 0 ==> count is None,
    {
        self.region.transfer_count()
    }

    fn end_addr(&self) -> (addr: u32)
        ensures
            addr == self.region().base() + (self.region().len() - 1),
    {
        self.region.end_addr()
    }
}

/// A region of memory to write into: the destination of a transfer into
/// memory.
///
/// The transfer fills the region byte by byte, from the first to the last.
#[derive(Debug)]
pub struct BufferMut {
    region: Region,
}

impl BufferMut {
    /// The region that is written.
    pub closed spec fn spec_region(&self) -> Region {
        self.region
    }

    /// Makes a destination of a region.
    pub fn new(region: Region) -> (buffer: BufferMut)
        ensures
            buffer.region() == region,
    {
        BufferMut { region }
    }

    /// The region that is written.
    #[verifier::when_used_as_spec(spec_region)]
    pub fn region(&self) -> (region: Region)
        ensures
            region == self.spec_region(),
    {
        self.region
    }
}

impl Dest for BufferMut {
    open spec fn spec_is_valid(&self) -> bool {
        self.region().fits_transfer()
    }

    open spec fn spec_is_full(&self) -> bool {
        self.region().len() == 0
    }

    open spec fn spec_increment(&self) -> Increment {
        Increment::WidthX1
    }

    open spec fn spec_transfer_count(&self) -> Option<u32> {
        self.region().transfer_count()
    }

    open spec fn spec_end_addr(&self) -> u32 {
        self.region().end_addr()
    }

    proof fn lemma_valid_count(&self) {
    }

    fn is_valid(&self) -> (valid: bool)
        ensures
            valid == (self.region().len() <= 1024),
    {
        self.region.fits_transfer()
    }

    fn is_full(&self) -> (full: bool)
        ensures
            full == (self.region().len() == 0),
    {
        self.region.len() == 0
    }

    fn increment(&self) -> (increment: Increment)
        ensures
            increment == Increment::WidthX1,
    {
        Increment::WidthX1
    }

    fn transfer_count(&self) -> (count: Option<u32>)
        ensures
            self.region().len() >= 1 ==> count == Some((self.region().len() - 1) as u32),
            self.region().len() == 0 ==> count is None,
    {
        self.region.transfer_count()
    }

    fn end_addr(&self) -> (addr: u32)
        ensures
            addr == self.region().base() + (self.region().len() - 1),
    {
        self.region.end_addr()
    }
}

/// A source of more than 1024 bytes is rejected, whatever the destination.
pub proof fn lemma_oversized_source_rejected<D: Dest>(source: &Buffer, dest: &D)
    requires
        source.region().len() > MAX_TRANSFER_UNITS,
    ensures
        spec_validate(source, dest) == Err::<Option<u32>, TransferError>(
            TransferError::InvalidSource,
        ),
{
}

/// A destination of more than 1024 bytes is rejected, whatever the source.
pub proof fn lemma_oversized_dest_rejected<S: Source>(source: &S, dest: &BufferMut)
    requires
        dest.region().len() > MAX_TRANSFER_UNITS,
    ensures
        spec_validate(source, dest) is Err,
        source.spec_is_valid() ==> spec_validate(source, dest) == Err::<
            Option<u32>,
            TransferError,
        >(TransferError::InvalidDest),
{
}

} // verus!
