//! The steps by which a channel is armed and triggered.

use super::registers::{ChannelConfig, Increment, TransferConfig, Width};
use vstd::prelude::*;

verus! {

/// One store that the hardware has to see.
///
/// The driver decides which stores are made, with which values and in which
/// order; whoever owns the registers carries them out, one by one and in that
/// order.
#[derive(Clone, Copy, PartialEq, Eq, Debug, Structural)]
pub enum Operation {
    /// Write a channel's configuration register, `CFG`.
    WriteCfg { channel: usize, bits: u32 },
    /// Write a channel's transfer configuration register, `XFERCFG`, as a
    /// whole.
    WriteXfercfg { channel: usize, bits: u32 },
    /// Store the source end address into a channel's descriptor.
    StoreSourceEnd { channel: usize, addr: u32 },
    /// Store the destination end address into a channel's descriptor.
    StoreDestEnd { channel: usize, addr: u32 },
    /// Write the register `ENABLESET0`, shared by all channels. Each bit set
    /// in `bits` enables the channel of that number; a bit that is clear
    /// leaves its channel as it was.
    SetEnable { bits: u32 },
    /// Write the register `SETTRIG0`, shared by all channels. Each bit set in
    /// `bits` triggers the channel of that number; a bit that is clear leaves
    /// its channel as it was.
    SetTrigger { bits: u32 },
}

/// The channel configuration of every transfer: paced by the peripheral's
/// requests, no hardware trigger, highest priority.
pub open spec fn spec_channel_config() -> ChannelConfig {
    ChannelConfig { periphreqen: true, hwtrigen: false, chpriority: 0 }
}

/// The channel configuration of every transfer: paced by the peripheral's
/// requests, no hardware trigger, highest priority.
#[verifier::when_used_as_spec(spec_channel_config)]
pub fn channel_config() -> (config: ChannelConfig)
    ensures
        config == spec_channel_config(),
{
    ChannelConfig { periphreqen: true, hwtrigen: false, chpriority: 0 }
}

/// The transfer configuration of a single transfer of `count + 1` bytes: the
/// descriptor is valid and not reloaded, nothing is triggered by the write
/// itself, the trigger is cleared once the transfer is through, and no
/// interrupt is raised.
pub open spec fn spec_transfer_config(
    srcinc: Increment,
    dstinc: Increment,
    count: u32,
) -> TransferConfig {
    TransferConfig {
        cfgvalid: true,
        reload: false,
        swtrig: false,
        clrtrig: true,
        setinta: false,
        setintb: false,
        width: Width::Bit8,
        srcinc,
        dstinc,
        xfercount: count,
    }
}

/// The transfer configuration of a single transfer of `count + 1` bytes: the
/// descriptor is valid and not reloaded, nothing is triggered by the write
/// itself, the trigger is cleared once the transfer is through, and no
/// interrupt is raised.
#[verifier::when_used_as_spec(spec_transfer_config)]
pub fn transfer_config(srcinc: Increment, dstinc: Increment, count: u32) -> (config: TransferConfig)
    ensures
        config == spec_transfer_config(srcinc, dstinc, count),
{
    TransferConfig {
        cfgvalid: true,
        reload: false,
        swtrig: false,
        clrtrig: true,
        setinta: false,
        setintb: false,
        width: Width::Bit8,
        srcinc,
        dstinc,
        xfercount: count,
    }
}

/// What it takes to start one transfer, apart from the channel it runs on.
#[derive(Clone, Copy, PartialEq, Eq, Debug, Structural)]
pub struct Request {
    /// How the source address advances.
    pub srcinc: Increment,
    /// How the destination address advances.
    pub dstinc: Increment,
    /// The number of units to move, minus one.
    pub count: u32,
    /// The address of the last unit that is read.
    pub source_end: u32,
    /// The address of the last unit that is written.
    pub dest_end: u32,
}

/// The steps that start a transfer on the channel with the given index and
/// flag, in the order in which the hardware has to see them: the channel is
/// configured, its descriptor is filled in, and only then is the channel
/// enabled and, last of all, triggered.
pub open spec fn spec_start_sequence(channel: usize, flag: u32, request: Request) -> Seq<
    Operation,
> {
    seq![
        Operation::WriteCfg { channel, bits: spec_channel_config().spec_bits() },
        Operation::WriteXfercfg {
            channel,
            bits: spec_transfer_config(request.srcinc, request.dstinc, request.count).spec_bits(),
        },
        Operation::StoreSourceEnd { channel, addr: request.source_end },
        Operation::StoreDestEnd { channel, addr: request.dest_end },
        Operation::SetEnable { bits: flag },
        Operation::SetTrigger { bits: flag },
    ]
}

/// Lists the steps that start a transfer, in the order in which they have to
/// be carried out.
pub fn start_sequence(channel: usize, flag: u32, request: Request) -> (steps: Vec<Operation>)
    ensures
        steps@ == spec_start_sequence(channel, flag, request),
{
    let mut steps: Vec<Operation> = Vec::new();
    steps.push(Operation::WriteCfg { channel, bits: channel_config().bits() });
    steps.push(
        Operation::WriteXfercfg {
            channel,
            bits: transfer_config(request.srcinc, request.dstinc, request.count).bits(),
        },
    );
    steps.push(Operation::StoreSourceEnd { channel, addr: request.source_end });
    steps.push(Operation::StoreDestEnd { channel, addr: request.dest_end });
    steps.push(Operation::SetEnable { bits: flag });
    steps.push(Operation::SetTrigger { bits: flag });
    assert(steps@ =~= spec_start_sequence(channel, flag, request));
    steps
}

} // verus!
