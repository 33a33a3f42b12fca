//! What the steps of a transfer do to the DMA controller.
//!
//! The controller is described here as far as the driver determines it: the
//! two configuration registers and the descriptor of each channel, and the
//! two shared registers through which channels are enabled and triggered.
//! The description exists for the sake of the proofs alone; no value of it
//! is ever held at run time.

use super::channels::{spec_flag, MAX_CHANNELS};
use super::descriptors::ChannelDescriptor;
use super::program::{
    spec_channel_config, spec_start_sequence, spec_transfer_config, Operation, Request,
};
use super::registers::{TransferConfig, MAX_TRANSFER_COUNT};
use vstd::prelude::*;

verus! {

/// The state of the DMA controller, as far as the driver determines it.
pub struct Controller {
    /// The configuration register of each channel.
    pub cfg: Seq<u32>,
    /// The transfer configuration register of each channel.
    pub xfercfg: Seq<u32>,
    /// The descriptor table.
    pub descriptors: Seq<ChannelDescriptor>,
    /// Which channels are enabled: one bit for each channel.
    pub enabled: u32,
    /// Which channels are triggered: one bit for each channel.
    pub triggered: u32,
}

impl Controller {
    /// The controller has as many registers of each kind, and as many
    /// descriptors, as it has channels.
    pub open spec fn well_formed(self) -> bool {
        &&& self.cfg.len() == self.descriptors.len()
        &&& self.xfercfg.len() == self.descriptors.len()
        &&& self.descriptors.len() <= MAX_CHANNELS
    }

    /// Whether the channel with the given index is enabled.
    pub open spec fn is_enabled(self, channel: usize) -> bool {
        self.enabled & spec_flag(channel) != 0
    }

    /// Whether the channel with the given index is triggered.
    pub open spec fn is_triggered(self, channel: usize) -> bool {
        self.triggered & spec_flag(channel) != 0
    }

    /// Whether one channel is in the same state here and in `other`: its
    /// registers and its descriptor hold the same values, and so do its bits
    /// in the shared registers.
    pub open spec fn same_channel(self, other: Controller, channel: usize) -> bool {
        &&& self.cfg.len() == other.cfg.len()
        &&& self.xfercfg.len() == other.xfercfg.len()
        &&& self.descriptors.len() == other.descriptors.len()
        &&& channel < self.cfg.len() ==> self.cfg[channel as int] == other.cfg[channel as int]
        &&& channel < self.xfercfg.len() ==> self.xfercfg[channel as int]
            == other.xfercfg[channel as int]
        &&& channel < self.descriptors.len() ==> self.descriptors[channel as int]
            == other.descriptors[channel as int]
        &&& self.is_enabled(channel) == other.is_enabled(channel)
        &&& self.is_triggered(channel) == other.is_triggered(channel)
    }

    /// The state after one step.
    ///
    /// A write to a register or a descriptor of a channel replaces what was
    /// there. A write to a shared register sets the bits that are set in the
    /// value written and keeps all others. A step that names a channel which
    /// the controller does not have changes nothing.
    pub open spec fn step(self, op: Operation) -> Controller {
        match op {
            Operation::WriteCfg { channel, bits } => if channel < self.cfg.len() {
                Controller { cfg: self.cfg.update(channel as int, bits), ..self }
            } else {
                self
            },
            Operation::WriteXfercfg { channel, bits } => if channel < self.xfercfg.len() {
                Controller { xfercfg: self.xfercfg.update(channel as int, bits), ..self }
            } else {
                self
            },
            Operation::StoreSourceEnd { channel, addr } => if channel < self.descriptors.len() {
                Controller {
                    descriptors: self.descriptors.update(
                        channel as int,
                        ChannelDescriptor { source_end: addr, ..self.descriptors[channel as int] },
                    ),
                    ..self
                }
            } else {
                self
            },
            Operation::StoreDestEnd { channel, addr } => if channel < self.descriptors.len() {
                Controller {
                    descriptors: self.descriptors.update(
                        channel as int,
                        ChannelDescriptor { dest_end: addr, ..self.descriptors[channel as int] },
                    ),
                    ..self
                }
            } else {
                self
            },
            Operation::SetEnable { bits } => Controller { enabled: self.enabled | bits, ..self },
            Operation::SetTrigger { bits } => Controller {
                triggered: self.triggered | bits,
                ..self
            },
        }
    }

    /// The state after the first `n` of the given steps, taken in order.
    pub open spec fn run_prefix(self, steps: Seq<Operation>, n: nat) -> Controller
        decreases n,
    {
        if n == 0 {
            self
        } else {
            self.run_prefix(steps, (n - 1) as nat).step(steps[n - 1])
        }
    }

    /// The state after all of the given steps, taken in order.
    pub open spec fn run(self, steps: Seq<Operation>) -> Controller {
        self.run_prefix(steps, steps.len())
    }
}

/// Whether the given steps leave every channel but one as it was, whatever
/// state the controller is in when they are taken.
pub open spec fn confined_to(steps: Seq<Operation>, channel: usize) -> bool {
    forall|before: Controller, other: usize|
        before.well_formed() && other != channel && other < MAX_CHANNELS ==> (
        #[trigger] before.run(steps).same_channel(before, other))
}

/// Setting a channel's flag in a shared register sets that channel's bit.
pub proof fn lemma_flag_sets_own_bit(word: u32, channel: usize)
    requires
        channel < MAX_CHANNELS,
    ensures
        (word | spec_flag(channel)) & spec_flag(channel) != 0,
{
    let k = channel as u32;
    assert(1u32 << channel == 1u32 << k);
    assert((word | (1u32 << k)) & (1u32 << k) != 0) by (bit_vector)
        requires
            k < 32,
    ;
}

/// Setting a channel's flag in a shared register changes the bit of no other
/// channel.
pub proof fn lemma_flag_keeps_other_bits(word: u32, channel: usize, other: usize)
    requires
        channel < MAX_CHANNELS,
        other < MAX_CHANNELS,
        other != channel,
    ensures
        (word | spec_flag(channel)) & spec_flag(other) == word & spec_flag(other),
{
    let k = channel as u32;
    let j = other as u32;
    assert(1u32 << channel == 1u32 << k);
    assert(1u32 << other == 1u32 << j);
    assert((word | (1u32 << k)) & (1u32 << j) == word & (1u32 << j)) by (bit_vector)
        requires
            k < 32,
            j < 32,
            j != k,
    ;
}

/// Taking no step changes nothing.
pub proof fn lemma_no_steps(before: Controller)
    ensures
        before.run(Seq::<Operation>::empty()) == before,
{
}

/// What the steps that start a transfer do to the channel they are for.
///
/// Afterwards the channel's two registers hold the configuration of the
/// transfer, its descriptor holds the two end addresses, and the channel is
/// enabled and triggered. The count field of the transfer configuration
/// register holds the count of the request, if the field has room for it.
pub proof fn lemma_start_sequence_arms(before: Controller, channel: usize, request: Request)
    requires
        before.well_formed(),
        channel < before.descriptors.len(),
    ensures
        ({
            let after = before.run(spec_start_sequence(channel, spec_flag(channel), request));
            &&& after.well_formed()
            &&& after.cfg[channel as int] == spec_channel_config().spec_bits()
            &&& after.xfercfg[channel as int] == spec_transfer_config(
                request.srcinc,
                request.dstinc,
                request.count,
            ).spec_bits()
            &&& request.count <= MAX_TRANSFER_COUNT ==> TransferConfig::xfercount_of(
                after.xfercfg[channel as int],
            ) == request.count
            &&& after.descriptors[channel as int] == (ChannelDescriptor {
                source_end: request.source_end,
                dest_end: request.dest_end,
            })
            &&& after.is_enabled(channel)
            &&& after.is_triggered(channel)
        }),
{
    reveal_with_fuel(Controller::run_prefix, 7);
    lemma_flag_sets_own_bit(before.enabled, channel);
    lemma_flag_sets_own_bit(before.triggered, channel);
    if request.count <= MAX_TRANSFER_COUNT {
        spec_transfer_config(request.srcinc, request.dstinc, request.count).lemma_fields();
    }
}

/// The steps that start a transfer on one channel leave every other channel
/// as it was: its registers, its descriptor, and its bits in the shared
/// registers.
pub proof fn lemma_start_sequence_confined(channel: usize, request: Request)
    requires
        channel < MAX_CHANNELS,
    ensures
        confined_to(spec_start_sequence(channel, spec_flag(channel), request), channel),
{
    let steps = spec_start_sequence(channel, spec_flag(channel), request);
    assert forall|before: Controller, other: usize|
        before.well_formed() && other != channel && other < MAX_CHANNELS implies (
    #[trigger] before.run(steps).same_channel(before, other)) by {
        reveal_with_fuel(Controller::run_prefix, 7);
        lemma_flag_keeps_other_bits(before.enabled, channel, other);
        lemma_flag_keeps_other_bits(before.triggered, channel, other);
    }
}

/// Taking no step leaves every channel as it was.
pub proof fn lemma_no_steps_confined(channel: usize)
    ensures
        confined_to(Seq::<Operation>::empty(), channel),
{
}

} // verus!
