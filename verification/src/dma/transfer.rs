//! The two ends of a transfer, and the rules that a pair of them must meet.

use super::channels::{spec_flag, Channel, ChannelTrait};
use super::peripheral::Handle;
use super::program::Operation;
use super::registers::{Increment, MAX_TRANSFER_COUNT};
use crate::init_state::Enabled;
use vstd::prelude::*;

verus! {

/// The source of a DMA transfer: what supplies the units.
///
/// Each operation comes with a specification function that says what it
/// returns, so that the driver can be verified for every implementation.
pub trait Source {
    /// Whether the source is fit for a transfer.
    spec fn spec_is_valid(&self) -> bool;

    /// Whether the source has nothing left to supply.
    spec fn spec_is_empty(&self) -> bool;

    /// How the source address advances from unit to unit.
    spec fn spec_increment(&self) -> Increment;

    /// The number of units that the source supplies, minus one; `None` if
    /// the source does not set the length of the transfer.
    spec fn spec_transfer_count(&self) -> Option<u32>;

    /// The address of the last unit that is read.
    spec fn spec_end_addr(&self) -> u32;

    /// A valid source asks for no more units than the hardware can count.
    proof fn lemma_valid_count(&self)
        requires
            self.spec_is_valid(),
        ensures
            self.spec_transfer_count() matches Some(count) ==> count <= MAX_TRANSFER_COUNT,
    ;

    /// Whether the source is fit for a transfer.
    fn is_valid(&self) -> (valid: bool)
        ensures
            valid == self.spec_is_valid(),
    ;

    /// Whether the source has nothing left to supply.
    fn is_empty(&self) -> (empty: bool)
        ensures
            empty == self.spec_is_empty(),
    ;

    /// How the source address advances from unit to unit.
    fn increment(&self) -> (increment: Increment)
        ensures
            increment == self.spec_increment(),
    ;

    /// The number of units that the source supplies, minus one; `None` if
    /// the source does not set the length of the transfer.
    fn transfer_count(&self) -> (count: Option<u32>)
        ensures
            count == self.spec_transfer_count(),
    ;

    /// The address of the last unit that is read. An empty source has none.
    fn end_addr(&self) -> (addr: u32)
        requires
            !self.spec_is_empty(),
        ensures
            addr == self.spec_end_addr(),
    ;
}

/// The destination of a DMA transfer: what receives the units.
///
/// Each operation comes with a specification function that says what it
/// returns, so that the driver can be verified for every implementation.
pub trait Dest {
    /// Whether the destination is fit for a transfer.
    spec fn spec_is_valid(&self) -> bool;

    /// Whether the destination has no room left.
    spec fn spec_is_full(&self) -> bool;

    /// How the destination address advances from unit to unit.
    spec fn spec_increment(&self) -> Increment;

    /// The number of units that the destination takes, minus one; `None` if
    /// the destination does not set the length of the transfer.
    spec fn spec_transfer_count(&self) -> Option<u32>;

    /// The address of the last unit that is written.
    spec fn spec_end_addr(&self) -> u32;

    /// A valid destination asks for no more units than the hardware can
    /// count.
    proof fn lemma_valid_count(&self)
        requires
            self.spec_is_valid(),
        ensures
            self.spec_transfer_count() matches Some(count) ==> count <= MAX_TRANSFER_COUNT,
    ;

    /// Whether the destination is fit for a transfer.
    fn is_valid(&self) -> (valid: bool)
        ensures
            valid == self.spec_is_valid(),
    ;

    /// Whether the destination has no room left.
    fn is_full(&self) -> (full: bool)
        ensures
            full == self.spec_is_full(),
    ;

    /// How the destination address advances from unit to unit.
    fn increment(&self) -> (increment: Increment)
        ensures
            increment == self.spec_increment(),
    ;

    /// The number of units that the destination takes, minus one; `None` if
    /// the destination does not set the length of the transfer.
    fn transfer_count(&self) -> (count: Option<u32>)
        ensures
            count == self.spec_transfer_count(),
    ;

    /// The address of the last unit that is written. A full destination has
    /// none.
    fn end_addr(&self) -> (addr: u32)
        requires
            !self.spec_is_full(),
        ensures
            addr == self.spec_end_addr(),
    ;
}

/// Why a pair of source and destination cannot be transferred between.
#[derive(Clone, Copy, PartialEq, Eq, Debug, Structural)]
pub enum TransferError {
    /// The source is not fit for a transfer, for instance because it is
    /// longer than the hardware can count.
    InvalidSource,
    /// The destination is not fit for a transfer.
    InvalidDest,
    /// Both ends set the length of the transfer, or neither does. The
    /// hardware needs exactly one of them to do so.
    UnsupportedTransfer,
}

/// What a transfer between `source` and `dest` comes to:
///
/// - `Err(_)` if the pair cannot be transferred between;
/// - `Ok(None)` if there is nothing to do, because the source is empty or
///   the destination is full;
/// - `Ok(Some(count))` if `count + 1` units are to be moved.
///
/// The ends are examined in this order: the source's validity, the
/// destination's validity, whether anything is to be moved at all, and last
/// which of the two sets the length.
pub open spec fn spec_validate<S: Source, D: Dest>(source: &S, dest: &D) -> Result<
    Option<u32>,
    TransferError,
> {
    if !source.spec_is_valid() {
        Err(TransferError::InvalidSource)
    } else if !dest.spec_is_valid() {
        Err(TransferError::InvalidDest)
    } else if source.spec_is_empty() || dest.spec_is_full() {
        Ok(None)
    } else {
        match (source.spec_transfer_count(), dest.spec_transfer_count()) {
            (Some(count), None) => Ok(Some(count)),
            (None, Some(count)) => Ok(Some(count)),
            _ => Err(TransferError::UnsupportedTransfer),
        }
    }
}

/// Decides whether a transfer between `source` and `dest` can be started,
/// and how many units it moves.
///
/// A channel starts a transfer only for a pair that this function accepts.
#[verifier::when_used_as_spec(spec_validate)]
pub fn validate<S: Source, D: Dest>(source: &S, dest: &D) -> (outcome: Result<
    Option<u32>,
    TransferError,
>)
    ensures
        outcome == spec_validate(source, dest),
{
    if !source.is_valid() {
        return Err(TransferError::InvalidSource);
    }
    if !dest.is_valid() {
        return Err(TransferError::InvalidDest);
    }
    if source.is_empty() || dest.is_full() {
        return Ok(None);
    }
    match (source.transfer_count(), dest.transfer_count()) {
        (Some(count), None) => Ok(Some(count)),
        (None, Some(count)) => Ok(Some(count)),
        _ => Err(TransferError::UnsupportedTransfer),
    }
}

/// A pair in which both ends set the length of the transfer is never
/// accepted, and is rejected as unsupported if both ends are fit. The one
/// exception is a pair of fit ends with nothing to move, where the source is
/// empty or the destination full: that is decided before the lengths are
/// looked at.
pub proof fn lemma_two_counts_rejected<S: Source, D: Dest>(source: &S, dest: &D)
    requires
        source.spec_transfer_count() is Some,
        dest.spec_transfer_count() is Some,
        !(source.spec_is_valid() && dest.spec_is_valid() && (source.spec_is_empty()
            || dest.spec_is_full())),
    ensures
        spec_validate(source, dest) is Err,
        source.spec_is_valid() && dest.spec_is_valid() ==> spec_validate(source, dest) == Err::<
            Option<u32>,
            TransferError,
        >(TransferError::UnsupportedTransfer),
{
}

/// A pair in which neither end sets the length of the transfer is never
/// accepted, and is rejected as unsupported if both ends are fit. The one
/// exception is a pair of fit ends with nothing to move, where the source is
/// empty or the destination full: that is decided before the lengths are
/// looked at.
pub proof fn lemma_no_count_rejected<S: Source, D: Dest>(source: &S, dest: &D)
    requires
        source.spec_transfer_count() is None,
        dest.spec_transfer_count() is None,
        !(source.spec_is_valid() && dest.spec_is_valid() && (source.spec_is_empty()
            || dest.spec_is_full())),
    ensures
        spec_validate(source, dest) is Err,
        source.spec_is_valid() && dest.spec_is_valid() ==> spec_validate(source, dest) == Err::<
            Option<u32>,
            TransferError,
        >(TransferError::UnsupportedTransfer),
{
}

/// With an empty source or a full destination there is nothing to move,
/// whatever the other end is like, as long as both ends are fit.
pub proof fn lemma_nothing_to_move<S: Source, D: Dest>(source: &S, dest: &D)
    requires
        source.spec_is_valid(),
        dest.spec_is_valid(),
        source.spec_is_empty() || dest.spec_is_full(),
    ensures
        spec_validate(source, dest) == Ok::<Option<u32>, TransferError>(None),
{
}

/// An accepted pair never asks for more units than the hardware can count.
pub proof fn lemma_accepted_count<S: Source, D: Dest>(source: &S, dest: &D)
    ensures
        spec_validate(source, dest) matches Ok(Some(count)) ==> count <= MAX_TRANSFER_COUNT,
{
    if source.spec_is_valid() {
        source.lemma_valid_count();
    }
    if dest.spec_is_valid() {
        dest.lemma_valid_count();
    }
}

/// Keeps what the compiler does to memory before this point from moving
/// behind it, and the other way round.
///
/// Calls `core::sync::atomic::compiler_fence` with sequentially consistent
/// ordering. Nothing is claimed of the call: it returns nothing and changes no
/// value that the program can see.
#[verifier::external_body]
pub(crate) fn fence() {
    core::sync::atomic::compiler_fence(core::sync::atomic::Ordering::SeqCst);
}

/// What a transfer is made of: the channel it runs on and its two ends.
pub struct Payload<'dma, C: ChannelTrait, S, D> {
    /// The channel that the transfer runs on.
    pub channel: Channel<C, Enabled<&'dma Handle>>,
    /// The source of the transfer.
    pub source: S,
    /// The destination of the transfer.
    pub dest: D,
}

/// A DMA transfer that has been started.
///
/// The transfer owns its channel and both of its ends for as long as the
/// hardware may be at work on them. They are handed back by [`wait`], once
/// the hardware reports that the channel is no longer active.
///
/// [`wait`]: Transfer::wait
pub struct Transfer<'dma, C: ChannelTrait, S, D> {
    payload: Payload<'dma, C, S, D>,
    steps: Vec<Operation>,
}

impl<'dma, C: ChannelTrait, S, D> Transfer<'dma, C, S, D> {
    /// The channel and the two ends that the transfer holds.
    pub closed spec fn spec_payload(&self) -> Payload<'dma, C, S, D> {
        self.payload
    }

    /// The steps that start the transfer, in order.
    pub closed spec fn spec_steps(&self) -> Seq<Operation> {
        self.steps@
    }

    /// The flag of the channel that the transfer runs on.
    pub open spec fn spec_flag(&self) -> u32 {
        spec_flag(self.spec_payload().channel.spec_index())
    }

    pub(crate) fn new(
        channel: Channel<C, Enabled<&'dma Handle>>,
        source: S,
        dest: D,
        steps: Vec<Operation>,
    ) -> (transfer: Self)
        ensures
            transfer.spec_payload() == (Payload { channel, source, dest }),
            transfer.spec_steps() == steps@,
    {
        Transfer { payload: Payload { channel, source, dest }, steps }
    }

    /// The steps that start the transfer, in the order in which they have to
    /// be carried out. A transfer with nothing to move has none.
    pub fn steps(&self) -> (steps: &Vec<Operation>)
        ensures
            steps@ == self.spec_steps(),
    {
        &self.steps
    }

    /// Tells whether the transfer is still under way, from the value that
    /// the register `ACTIVE0` holds: it is as long as the channel's flag is
    /// set there.
    pub fn is_active(&self, active0: u32) -> (active: bool)
        ensures
            active == (active0 & self.spec_flag() != 0),
    {
        active0 & self.payload.channel.flag() != 0
    }

    /// Takes the transfer apart once it is through.
    ///
    /// `active0` is the value that the register `ACTIVE0` holds. While the
    /// channel's flag is set there the hardware may still be at work on the
    /// two ends, and the transfer is handed back as it is. Once the flag is
    /// clear, the channel and the two ends are returned.
    pub fn wait(self, active0: u32) -> (outcome: Result<Payload<'dma, C, S, D>, Self>)
        ensures
            active0 & self.spec_flag() != 0 ==> outcome == Err::<Payload<'dma, C, S, D>, Self>(
                self,
            ),
            active0 & self.spec_flag() == 0 ==> outcome == Ok::<Payload<'dma, C, S, D>, Self>(
                self.spec_payload(),
            ),
    {
        if self.is_active(active0) {
            return Err(self);
        }
        fence();
        Ok(self.payload)
    }
}

} // verus!
