//! The DMA channels and their life cycle.

use super::descriptors::{ChannelDescriptor, DescriptorTable};
use super::model::{confined_to, lemma_no_steps_confined, lemma_start_sequence_confined};
use super::peripheral::Handle;
use super::program::{start_sequence, spec_start_sequence, Operation, Request};
use super::transfer::{validate, Dest, Source, Transfer};
use crate::init_state::{Disabled, Enabled};
use vstd::prelude::*;

verus! {

/// No chip has more channels than the shared registers have bits.
pub const MAX_CHANNELS: usize = 32;

/// The flag of the channel with the given index: its bit in each of the
/// registers that all channels share.
pub open spec fn spec_flag(index: usize) -> u32 {
    1u32 << index
}

/// Implemented by what identifies a DMA channel.
pub trait ChannelTrait {
    /// The index of the channel.
    spec fn spec_index(&self) -> usize;

    /// The index of the channel: 0 for channel 0, 1 for channel 1, and so on.
    fn index(&self) -> (index: usize)
        ensures
            index == self.spec_index(),
            index < MAX_CHANNELS,
    ;

    /// The flag of the channel: `0x1` for channel 0, `0x2` for channel 1,
    /// `0x4` for channel 2, and so on.
    fn flag(&self) -> (flag: u32)
        ensures
            flag == spec_flag(self.spec_index()),
            self.spec_index() < MAX_CHANNELS,
    ;
}

/// Identifies a DMA channel by its index.
#[derive(Debug)]
pub struct ChannelId {
    index: usize,
}

impl ChannelId {
    #[verifier::type_invariant]
    spec fn well_formed(self) -> bool {
        self.index < MAX_CHANNELS
    }

    /// The index of the channel.
    pub closed spec fn view(&self) -> usize {
        self.index
    }

    /// Identifies the channel with the given index, if there can be one.
    pub fn new(index: usize) -> (id: Option<ChannelId>)
        ensures
            id is Some <==> index < MAX_CHANNELS,
            id matches Some(id) ==> id@ == index,
    {
        if index < MAX_CHANNELS {
            Some(ChannelId { index })
        } else {
            None
        }
    }
}

impl ChannelTrait for ChannelId {
    open spec fn spec_index(&self) -> usize {
        self@
    }

    fn index(&self) -> (index: usize) {
        proof {
            use_type_invariant(self);
        }
        self.index
    }

    fn flag(&self) -> (flag: u32) {
        proof {
            use_type_invariant(self);
        }
        1u32 << self.index
    }
}

/// A DMA channel.
///
/// A channel has a descriptor and two configuration registers to itself. In
/// the registers that all channels share it owns the one bit that its flag
/// names, and touches no other.
///
/// The type parameter `S` records whether the channel is enabled. A transfer
/// can be started on an enabled channel only.
pub struct Channel<C: ChannelTrait, S> {
    ty: C,
    _state: S,
    descriptor: ChannelDescriptor,
}

impl<C: ChannelTrait, S> Channel<C, S> {
    /// What identifies the channel.
    pub closed spec fn spec_id(&self) -> &C {
        &self.ty
    }

    /// The marker of the state that the channel is in.
    pub closed spec fn spec_state(&self) -> &S {
        &self._state
    }

    /// The channel's descriptor, as the channel last left it.
    pub closed spec fn spec_descriptor(&self) -> ChannelDescriptor {
        self.descriptor
    }

    /// The index of the channel.
    pub open spec fn spec_index(&self) -> usize {
        self.spec_id().spec_index()
    }

    /// What identifies the channel.
    #[verifier::when_used_as_spec(spec_id)]
    pub fn id(&self) -> (id: &C)
        ensures
            id == self.spec_id(),
    {
        &self.ty
    }

    /// The index of the channel.
    #[verifier::when_used_as_spec(spec_index)]
    pub fn index(&self) -> (index: usize)
        ensures
            index == self.spec_index(),
            index < MAX_CHANNELS,
    {
        self.ty.index()
    }

    /// The flag of the channel.
    pub fn flag(&self) -> (flag: u32)
        ensures
            flag == spec_flag(self.spec_index()),
            self.spec_index() < MAX_CHANNELS,
    {
        self.ty.flag()
    }

    /// The channel's descriptor, as the channel last left it.
    #[verifier::when_used_as_spec(spec_descriptor)]
    pub fn descriptor(&self) -> (descriptor: ChannelDescriptor)
        ensures
            descriptor == self.spec_descriptor(),
    {
        self.descriptor
    }
}

impl<C: ChannelTrait> Channel<C, Disabled> {
    /// Enables the channel.
    ///
    /// The channel stays what it was, with its identity and its descriptor;
    /// from now on it is tied to the handle of the peripheral.
    pub fn enable<'dma>(self, dma: &'dma Handle) -> (channel: Channel<C, Enabled<&'dma Handle>>)
        ensures
            channel.spec_id() == self.spec_id(),
            channel.spec_descriptor() == self.spec_descriptor(),
            channel.spec_state().0 == dma,
    {
        Channel { ty: self.ty, _state: Enabled(dma), descriptor: self.descriptor }
    }
}

/// What starting a transfer between `source` and `dest` asks of the
/// hardware, given the number of units to move minus one.
pub open spec fn spec_request<S: Source, D: Dest>(source: &S, dest: &D, count: u32) -> Request {
    Request {
        srcinc: source.spec_increment(),
        dstinc: dest.spec_increment(),
        count,
        source_end: source.spec_end_addr(),
        dest_end: dest.spec_end_addr(),
    }
}

impl<'dma, C: ChannelTrait> Channel<C, Enabled<&'dma Handle>> {
    /// Starts a DMA transfer from `source` to `dest`.
    ///
    /// The pair must be one that [`validate`] accepts: both ends fit for a
    /// transfer, of no more than 1024 units, and exactly one of them setting
    /// the length, unless there is nothing to move at all.
    ///
    /// The transfer that is returned owns the channel and both ends, and
    /// lists the steps that start it. If the source is empty or the
    /// destination full, there is no step to take and the channel is left
    /// untouched. Otherwise the channel's descriptor is filled in with the
    /// end addresses of both ends and the steps are those of
    /// [`spec_start_sequence`]. Either way no step touches another channel.
    pub fn start_transfer<S: Source, D: Dest>(self, source: S, dest: D) -> (transfer: Transfer<
        'dma,
        C,
        S,
        D,
    >)
        requires
            validate(&source, &dest) is Ok,
        ensures
            transfer.spec_payload().source == source,
            transfer.spec_payload().dest == dest,
            transfer.spec_payload().channel.spec_id() == self.spec_id(),
            transfer.spec_payload().channel.spec_state() == self.spec_state(),
            self.spec_index() < MAX_CHANNELS,
            confined_to(transfer.spec_steps(), self.spec_index()),
            match validate(&source, &dest) {
                Ok(Some(count)) => {
                    &&& transfer.spec_steps() == spec_start_sequence(
                        self.spec_index(),
                        spec_flag(self.spec_index()),
                        spec_request(&source, &dest, count),
                    )
                    &&& transfer.spec_payload().channel.spec_descriptor() == (ChannelDescriptor {
                        source_end: source.spec_end_addr(),
                        dest_end: dest.spec_end_addr(),
                    })
                },
                _ => {
                    &&& transfer.spec_steps() == Seq::<Operation>::empty()
                    &&& transfer.spec_payload().channel.spec_descriptor() == self.spec_descriptor()
                },
            },
    {
        super::transfer::fence();
        let index = self.ty.index();
        let count = match validate(&source, &dest) {
            Ok(Some(count)) => count,
            _ => {
                proof {
                    lemma_no_steps_confined(index);
                }
                return Transfer::new(self, source, dest, Vec::new());
            },
        };
        let request = Request {
            srcinc: source.increment(),
            dstinc: dest.increment(),
            count,
            source_end: source.end_addr(),
            dest_end: dest.end_addr(),
        };
        let steps = start_sequence(index, self.ty.flag(), request);
        proof {
            lemma_start_sequence_confined(index, request);
        }
        let mut channel = self;
        channel.descriptor = ChannelDescriptor {
            source_end: request.source_end,
            dest_end: request.dest_end,
        };
        Transfer::new(channel, source, dest, steps)
    }
}

/// All the channels of a chip.
///
/// Each channel can be taken out once, to be enabled and used.
pub struct Channels {
    slots: Vec<Option<Channel<ChannelId, Disabled>>>,
}

impl Channels {
    /// The channels by index; `None` where a channel has been taken out.
    pub closed spec fn view(&self) -> Seq<Option<Channel<ChannelId, Disabled>>> {
        self.slots@
    }

    /// Makes the channels of a chip from its descriptor table.
    ///
    /// There is one channel for each descriptor, in ascending order: the
    /// channel with index `i` gets the descriptor at `i`. All channels start
    /// out disabled.
    pub fn new(descriptors: DescriptorTable) -> (channels: Channels)
        ensures
            channels@.len() == descriptors@.len(),
            channels@.len() == descriptors.spec_variant().spec_channel_count(),
            forall|i: int|
                0 <= i < channels@.len() ==> (#[trigger] channels@[i] matches Some(channel)
                    && channel.spec_index() == i && channel.spec_descriptor() == descriptors@[i]),
    {
        let count = descriptors.len();
        let mut slots: Vec<Option<Channel<ChannelId, Disabled>>> = Vec::new();
        let mut index: usize = 0;
        while index < count
            invariant
                index <= count,
                count == descriptors@.len(),
                count <= 25,
                slots.len() == index,
                forall|i: int|
                    0 <= i < index ==> (#[trigger] slots[i] matches Some(channel)
                        && channel.spec_index() == i && channel.spec_descriptor()
                        == descriptors@[i]),
            decreases count - index,
        {
            let id = ChannelId::new(index);
            let descriptor = descriptors.slot(index);
            match (id, descriptor) {
                (Some(ty), Some(descriptor)) => {
                    slots.push(Some(Channel { ty, _state: Disabled, descriptor }));
                },
                _ => {
                    assert(false);
                },
            }
            index += 1;
        }
        Channels { slots }
    }

    /// The number of channels of the chip.
    pub fn len(&self) -> (len: usize)
        ensures
            len == self@.len(),
    {
        self.slots.len()
    }

    /// Takes the channel with the given index out of the collection.
    ///
    /// Returns `None` if the chip has no such channel, or if the channel has
    /// been taken out before. The other channels stay where they are.
    pub fn take(&mut self, index: usize) -> (channel: Option<Channel<ChannelId, Disabled>>)
        ensures
            index < old(self)@.len() ==> channel == old(self)@[index as int] && final(self)@
                == old(self)@.update(index as int, None),
            index >= old(self)@.len() ==> channel is None && final(self)@ == old(self)@,
    {
        if index < self.slots.len() {
            self.slots[index].take()
        } else {
            None
        }
    }
}

} // verus!
