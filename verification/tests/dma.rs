use lpc8xx_hal::dma::{
    validate, Buffer, BufferMut, Channel, ChannelConfig, ChannelDescriptor, ChannelId,
    ChannelTrait, Channels, DescriptorTable, Dest, Handle, Increment, Operation, PeripheralDest,
    PeripheralSource, Region, Source, TransferConfig, TransferError, Variant, Width,
};
use lpc8xx_hal::init_state::Disabled;

const RAM: u32 = 0x1000_0000;
const TXDAT: u32 = 0x4006_401c;
const RXDAT: u32 = 0x4006_4014;

fn region(base: u32, len: u32) -> Region {
    match Region::new(base, len) {
        Some(region) => region,
        None => panic!("the region does not fit the address space"),
    }
}

fn channel(variant: Variant, index: usize) -> Channel<ChannelId, Disabled> {
    let mut channels = Channels::new(DescriptorTable::new(variant));
    match channels.take(index) {
        Some(channel) => channel,
        None => panic!("the chip has no such channel"),
    }
}

#[test]
fn region_keeps_base_and_length() {
    let r = region(RAM, 10);
    assert_eq!(r.base(), RAM);
    assert_eq!(r.len(), 10);
    assert_eq!(r.end_addr(), RAM + 9);
    assert_eq!(r.transfer_count(), Some(9));
    assert!(r.fits_transfer());
}

#[test]
fn region_must_fit_the_address_space() {
    assert!(Region::new(0xffff_ffff, 1).is_some());
    assert!(Region::new(0xffff_ffff, 2).is_none());
    assert!(Region::new(0xffff_fc00, 1024).is_some());
    assert!(Region::new(0xffff_fc01, 1024).is_none());
    assert!(Region::new(0, 0xffff_ffff).is_some());
    assert!(Region::new(1, 0xffff_ffff).is_some());
    assert!(Region::new(2, 0xffff_ffff).is_none());
    assert!(Region::new(0xffff_ffff, 0).is_some());
    assert_eq!(region(0xffff_ffff, 1).end_addr(), 0xffff_ffff);
}

#[test]
fn buffer_reports_count_end_and_emptiness() {
    for len in [1u32, 2, 4, 10, 1023, 1024, 1025, 5000, 70_000] {
        let buffer = Buffer::new(region(RAM, len));
        assert_eq!(buffer.transfer_count(), Some(len - 1));
        assert_eq!(buffer.end_addr(), RAM + (len - 1));
        assert!(!buffer.is_empty());
        assert_eq!(buffer.is_valid(), len <= 1024);
        assert_eq!(buffer.increment(), Increment::WidthX1);
        assert_eq!(buffer.region().base(), RAM);
        assert_eq!(buffer.region().len(), len);
    }
    let empty = Buffer::new(region(RAM, 0));
    assert!(empty.is_empty());
    assert!(empty.is_valid());
    assert_eq!(empty.transfer_count(), None);
}

#[test]
fn buffer_mut_reports_count_end_and_fullness() {
    for len in [1u32, 2, 4, 10, 1023, 1024, 1025, 5000, 70_000] {
        let buffer = BufferMut::new(region(RAM, len));
        assert_eq!(buffer.transfer_count(), Some(len - 1));
        assert_eq!(buffer.end_addr(), RAM + (len - 1));
        assert!(!buffer.is_full());
        assert_eq!(buffer.is_valid(), len <= 1024);
        assert_eq!(buffer.increment(), Increment::WidthX1);
        assert_eq!(buffer.region().len(), len);
    }
    let full = BufferMut::new(region(RAM, 0));
    assert!(full.is_full());
    assert!(full.is_valid());
    assert_eq!(full.transfer_count(), None);
}

#[test]
fn peripheral_source_is_a_fixed_address() {
    let source = PeripheralSource::new(RXDAT);
    assert_eq!(source.addr(), RXDAT);
    assert!(source.is_valid());
    assert!(!source.is_empty());
    assert_eq!(source.increment(), Increment::NoIncrement);
    assert_eq!(source.transfer_count(), None);
    assert_eq!(source.end_addr(), RXDAT);
}

#[test]
fn peripheral_dest_is_a_fixed_address() {
    let dest = PeripheralDest::new(TXDAT);
    assert_eq!(dest.addr(), TXDAT);
    assert!(dest.is_valid());
    assert!(!dest.is_full());
    assert_eq!(dest.increment(), Increment::NoIncrement);
    assert_eq!(dest.transfer_count(), None);
    assert_eq!(dest.end_addr(), TXDAT);
}

#[test]
fn validate_accepts_memory_to_peripheral() {
    let source = Buffer::new(region(RAM, 10));
    let dest = PeripheralDest::new(TXDAT);
    assert_eq!(validate(&source, &dest), Ok(Some(9)));
    let source = Buffer::new(region(RAM, 1));
    assert_eq!(validate(&source, &dest), Ok(Some(0)));
    let source = Buffer::new(region(RAM, 1024));
    assert_eq!(validate(&source, &dest), Ok(Some(1023)));
}

#[test]
fn validate_accepts_peripheral_to_memory() {
    let source = PeripheralSource::new(RXDAT);
    let dest = BufferMut::new(region(RAM, 16));
    assert_eq!(validate(&source, &dest), Ok(Some(15)));
}

#[test]
fn validate_rejects_two_counts() {
    let source = Buffer::new(region(RAM, 4));
    let dest = BufferMut::new(region(RAM + 0x100, 4));
    assert_eq!(validate(&source, &dest), Err(TransferError::UnsupportedTransfer));
}

#[test]
fn validate_rejects_no_count() {
    let source = PeripheralSource::new(RXDAT);
    let dest = PeripheralDest::new(TXDAT);
    assert_eq!(validate(&source, &dest), Err(TransferError::UnsupportedTransfer));
}

#[test]
fn validate_rejects_oversized_source() {
    let source = Buffer::new(region(RAM, 1025));
    let dest = PeripheralDest::new(TXDAT);
    assert_eq!(validate(&source, &dest), Err(TransferError::InvalidSource));
}

#[test]
fn validate_rejects_oversized_dest() {
    let source = PeripheralSource::new(RXDAT);
    let dest = BufferMut::new(region(RAM, 1025));
    assert_eq!(validate(&source, &dest), Err(TransferError::InvalidDest));
}

#[test]
fn validate_names_the_source_first() {
    let source = Buffer::new(region(RAM, 2000));
    let dest = BufferMut::new(region(RAM + 0x1000, 2000));
    assert_eq!(validate(&source, &dest), Err(TransferError::InvalidSource));
}

#[test]
fn validate_finds_nothing_to_move() {
    let empty = Buffer::new(region(RAM, 0));
    assert_eq!(validate(&empty, &PeripheralDest::new(TXDAT)), Ok(None));
    assert_eq!(validate(&empty, &BufferMut::new(region(RAM, 4))), Ok(None));
    let full = BufferMut::new(region(RAM, 0));
    assert_eq!(validate(&PeripheralSource::new(RXDAT), &full), Ok(None));
    assert_eq!(validate(&Buffer::new(region(RAM, 4)), &full), Ok(None));
    // An end that is unfit is reported even if the other has nothing to move.
    assert_eq!(
        validate(&empty, &BufferMut::new(region(RAM, 1025))),
        Err(TransferError::InvalidDest)
    );
}

#[test]
fn descriptor_table_has_one_slot_per_channel() {
    let table = DescriptorTable::new(Variant::Lpc82x);
    assert_eq!(table.variant(), Variant::Lpc82x);
    assert_eq!(table.len(), 18);
    for index in 0..18 {
        assert_eq!(table.slot(index), Some(ChannelDescriptor { source_end: 0, dest_end: 0 }));
    }
    assert_eq!(table.slot(18), None);

    let table = DescriptorTable::new(Variant::Lpc845);
    assert_eq!(table.variant(), Variant::Lpc845);
    assert_eq!(table.len(), 25);
    assert_eq!(table.slot(24), Some(ChannelDescriptor { source_end: 0, dest_end: 0 }));
    assert_eq!(table.slot(25), None);
    assert_eq!(Variant::Lpc82x.channel_count(), 18);
    assert_eq!(Variant::Lpc845.channel_count(), 25);
}

#[test]
fn channels_come_in_ascending_order() {
    for (variant, count) in [(Variant::Lpc82x, 18usize), (Variant::Lpc845, 25usize)] {
        let mut channels = Channels::new(DescriptorTable::new(variant));
        assert_eq!(channels.len(), count);
        for index in 0..count {
            match channels.take(index) {
                Some(channel) => {
                    assert_eq!(channel.index(), index);
                    assert_eq!(channel.id().index(), index);
                    assert_eq!(channel.flag(), 1u32 << index);
                    assert_eq!(
                        channel.descriptor(),
                        ChannelDescriptor { source_end: 0, dest_end: 0 }
                    );
                },
                None => panic!("channel {} is missing", index),
            }
        }
        assert_eq!(channels.len(), count);
    }
}

#[test]
fn a_channel_can_be_taken_once() {
    let mut channels = Channels::new(DescriptorTable::new(Variant::Lpc82x));
    assert!(channels.take(5).is_some());
    assert!(channels.take(5).is_none());
    assert!(channels.take(18).is_none());
    assert!(channels.take(usize::MAX).is_none());
    assert!(channels.take(4).is_some());
    assert!(channels.take(6).is_some());
}

#[test]
fn channel_id_names_a_bit_of_the_shared_registers() {
    for index in 0..32usize {
        match ChannelId::new(index) {
            Some(id) => {
                assert_eq!(id.index(), index);
                assert_eq!(id.flag(), 1u32 << index);
            },
            None => panic!("index {} was refused", index),
        }
    }
    assert!(ChannelId::new(32).is_none());
    assert!(ChannelId::new(usize::MAX).is_none());
    assert_eq!(ChannelId::new(0).map(|id| id.flag()), Some(0x1));
    assert_eq!(ChannelId::new(1).map(|id| id.flag()), Some(0x2));
    assert_eq!(ChannelId::new(2).map(|id| id.flag()), Some(0x4));
}

#[test]
fn enable_keeps_the_channel() {
    let handle = Handle::new();
    let channel = channel(Variant::Lpc845, 7).enable(&handle);
    assert_eq!(channel.index(), 7);
    assert_eq!(channel.flag(), 0x80);
    assert_eq!(channel.descriptor(), ChannelDescriptor { source_end: 0, dest_end: 0 });
}

#[test]
fn start_transfer_of_ten_bytes_to_a_peripheral() {
    let handle = Handle::new();
    let channel = channel(Variant::Lpc845, 3).enable(&handle);
    let transfer =
        channel.start_transfer(Buffer::new(region(RAM, 10)), PeripheralDest::new(TXDAT));

    let steps = transfer.steps().clone();
    assert_eq!(
        steps,
        vec![
            Operation::WriteCfg { channel: 3, bits: 0x0000_0001 },
            Operation::WriteXfercfg { channel: 3, bits: 0x0009_1009 },
            Operation::StoreSourceEnd { channel: 3, addr: RAM + 9 },
            Operation::StoreDestEnd { channel: 3, addr: TXDAT },
            Operation::SetEnable { bits: 0x8 },
            Operation::SetTrigger { bits: 0x8 },
        ]
    );
    match steps[1] {
        Operation::WriteXfercfg { bits, .. } => {
            assert_eq!((bits >> 16) & 0x3ff, 9);
            assert_eq!((bits >> 12) & 0x3, 1);
            assert_eq!((bits >> 14) & 0x3, 0);
            assert_eq!((bits >> 8) & 0x3, 0);
            assert_eq!(bits & 0x3f, 0b001001);
        },
        _ => panic!("the second step writes the transfer configuration"),
    }

    assert!(transfer.is_active(0x8));
    assert!(!transfer.is_active(!0x8));
    match transfer.wait(0) {
        Ok(payload) => {
            assert_eq!(payload.channel.index(), 3);
            assert_eq!(
                payload.channel.descriptor(),
                ChannelDescriptor { source_end: RAM + 9, dest_end: TXDAT }
            );
            assert_eq!(payload.source.region().len(), 10);
            assert_eq!(payload.dest.addr(), TXDAT);
        },
        Err(_) => panic!("the transfer is through"),
    }
}

#[test]
fn start_transfer_from_a_peripheral_to_memory() {
    let handle = Handle::new();
    let channel = channel(Variant::Lpc82x, 0).enable(&handle);
    let transfer =
        channel.start_transfer(PeripheralSource::new(RXDAT), BufferMut::new(region(RAM, 1024)));
    assert_eq!(
        transfer.steps().clone(),
        vec![
            Operation::WriteCfg { channel: 0, bits: 0x0000_0001 },
            Operation::WriteXfercfg { channel: 0, bits: 0x03ff_4009 },
            Operation::StoreSourceEnd { channel: 0, addr: RXDAT },
            Operation::StoreDestEnd { channel: 0, addr: RAM + 1023 },
            Operation::SetEnable { bits: 0x1 },
            Operation::SetTrigger { bits: 0x1 },
        ]
    );
}

#[test]
fn start_transfer_of_a_single_byte() {
    let handle = Handle::new();
    let channel = channel(Variant::Lpc845, 24).enable(&handle);
    let transfer = channel.start_transfer(Buffer::new(region(RAM, 1)), PeripheralDest::new(TXDAT));
    assert_eq!(
        transfer.steps().clone(),
        vec![
            Operation::WriteCfg { channel: 24, bits: 0x0000_0001 },
            Operation::WriteXfercfg { channel: 24, bits: 0x0000_1009 },
            Operation::StoreSourceEnd { channel: 24, addr: RAM },
            Operation::StoreDestEnd { channel: 24, addr: TXDAT },
            Operation::SetEnable { bits: 0x0100_0000 },
            Operation::SetTrigger { bits: 0x0100_0000 },
        ]
    );
}

#[test]
fn start_transfer_with_an_empty_source_takes_no_step() {
    let handle = Handle::new();
    let channel = channel(Variant::Lpc845, 3).enable(&handle);
    let transfer = channel.start_transfer(Buffer::new(region(RAM, 0)), PeripheralDest::new(TXDAT));
    assert!(transfer.steps().is_empty());
    assert!(!transfer.is_active(0));
    match transfer.wait(0) {
        Ok(payload) => {
            assert_eq!(payload.channel.index(), 3);
            assert_eq!(
                payload.channel.descriptor(),
                ChannelDescriptor { source_end: 0, dest_end: 0 }
            );
            assert!(payload.source.is_empty());
        },
        Err(_) => panic!("a transfer that was never triggered is through"),
    }
}

#[test]
fn start_transfer_with_an_empty_source_and_a_memory_dest() {
    let handle = Handle::new();
    let channel = channel(Variant::Lpc845, 3).enable(&handle);
    let transfer =
        channel.start_transfer(Buffer::new(region(RAM, 0)), BufferMut::new(region(RAM, 8)));
    assert!(transfer.steps().is_empty());
}

#[test]
fn start_transfer_with_a_full_dest_takes_no_step() {
    let handle = Handle::new();
    let channel = channel(Variant::Lpc82x, 17).enable(&handle);
    let transfer =
        channel.start_transfer(PeripheralSource::new(RXDAT), BufferMut::new(region(RAM, 0)));
    assert!(transfer.steps().is_empty());
}

#[test]
fn start_transfer_names_its_own_channel_only() {
    let handle = Handle::new();
    for index in 0..25usize {
        let channel = channel(Variant::Lpc845, index).enable(&handle);
        let transfer =
            channel.start_transfer(Buffer::new(region(RAM, 64)), PeripheralDest::new(TXDAT));
        assert_eq!(transfer.steps().len(), 6);
        for step in transfer.steps().iter() {
            match *step {
                Operation::WriteCfg { channel, .. }
                | Operation::WriteXfercfg { channel, .. }
                | Operation::StoreSourceEnd { channel, .. }
                | Operation::StoreDestEnd { channel, .. } => assert_eq!(channel, index),
                Operation::SetEnable { bits } | Operation::SetTrigger { bits } => {
                    assert_eq!(bits, 1u32 << index);
                    assert_eq!(bits.count_ones(), 1);
                },
            }
        }
    }
}

#[test]
fn a_channel_serves_one_transfer_after_another() {
    let handle = Handle::new();
    let channel = channel(Variant::Lpc845, 2).enable(&handle);
    let first = channel.start_transfer(Buffer::new(region(RAM, 10)), PeripheralDest::new(TXDAT));
    let channel = match first.wait(0) {
        Ok(payload) => payload.channel,
        Err(_) => panic!("the transfer is through"),
    };
    let second =
        channel.start_transfer(Buffer::new(region(RAM + 0x40, 3)), PeripheralDest::new(TXDAT));
    assert_eq!(second.steps()[2], Operation::StoreSourceEnd { channel: 2, addr: RAM + 0x42 });
    match second.wait(0xffff_fffb) {
        Ok(payload) => assert_eq!(
            payload.channel.descriptor(),
            ChannelDescriptor { source_end: RAM + 0x42, dest_end: TXDAT }
        ),
        Err(_) => panic!("the transfer is through"),
    }
}

#[test]
fn wait_hands_an_active_transfer_back() {
    let handle = Handle::new();
    let channel = channel(Variant::Lpc845, 4).enable(&handle);
    let transfer = channel.start_transfer(Buffer::new(region(RAM, 10)), PeripheralDest::new(TXDAT));
    let transfer = match transfer.wait(0x10) {
        Ok(_) => panic!("the channel is still active"),
        Err(transfer) => transfer,
    };
    assert_eq!(transfer.steps().len(), 6);
    let transfer = match transfer.wait(0xffff_ffff) {
        Ok(_) => panic!("the channel is still active"),
        Err(transfer) => transfer,
    };
    // Other channels being active does not hold this one back.
    assert!(transfer.wait(0xffff_ffef).is_ok());
}

#[test]
fn channel_config_bits() {
    let config = ChannelConfig { periphreqen: true, hwtrigen: false, chpriority: 0 };
    assert_eq!(config.bits(), 0x0000_0001);
    let config = ChannelConfig { periphreqen: false, hwtrigen: true, chpriority: 0 };
    assert_eq!(config.bits(), 0x0000_0002);
    let config = ChannelConfig { periphreqen: true, hwtrigen: true, chpriority: 7 };
    assert_eq!(config.bits(), 0x0007_0003);
    let config = ChannelConfig { periphreqen: false, hwtrigen: false, chpriority: 5 };
    assert_eq!(config.bits(), 0x0005_0000);
    // Only three bits of the priority find room.
    let config = ChannelConfig { periphreqen: false, hwtrigen: false, chpriority: 0xff };
    assert_eq!(config.bits(), 0x0007_0000);
    let config = ChannelConfig { periphreqen: false, hwtrigen: false, chpriority: 8 };
    assert_eq!(config.bits(), 0);
}

fn blank() -> TransferConfig {
    TransferConfig {
        cfgvalid: false,
        reload: false,
        swtrig: false,
        clrtrig: false,
        setinta: false,
        setintb: false,
        width: Width::Bit8,
        srcinc: Increment::NoIncrement,
        dstinc: Increment::NoIncrement,
        xfercount: 0,
    }
}

#[test]
fn transfer_config_bits() {
    assert_eq!(blank().bits(), 0);
    assert_eq!(TransferConfig { cfgvalid: true, ..blank() }.bits(), 1 << 0);
    assert_eq!(TransferConfig { reload: true, ..blank() }.bits(), 1 << 1);
    assert_eq!(TransferConfig { swtrig: true, ..blank() }.bits(), 1 << 2);
    assert_eq!(TransferConfig { clrtrig: true, ..blank() }.bits(), 1 << 3);
    assert_eq!(TransferConfig { setinta: true, ..blank() }.bits(), 1 << 4);
    assert_eq!(TransferConfig { setintb: true, ..blank() }.bits(), 1 << 5);
    assert_eq!(TransferConfig { width: Width::Bit16, ..blank() }.bits(), 1 << 8);
    assert_eq!(TransferConfig { width: Width::Bit32, ..blank() }.bits(), 2 << 8);
    assert_eq!(TransferConfig { srcinc: Increment::WidthX1, ..blank() }.bits(), 1 << 12);
    assert_eq!(TransferConfig { srcinc: Increment::WidthX4, ..blank() }.bits(), 3 << 12);
    assert_eq!(TransferConfig { dstinc: Increment::WidthX2, ..blank() }.bits(), 2 << 14);
    assert_eq!(TransferConfig { dstinc: Increment::WidthX4, ..blank() }.bits(), 3 << 14);
    assert_eq!(TransferConfig { xfercount: 9, ..blank() }.bits(), 9 << 16);
    assert_eq!(TransferConfig { xfercount: 1023, ..blank() }.bits(), 0x03ff_0000);
    // Only ten bits of the count find room.
    assert_eq!(TransferConfig { xfercount: 1024, ..blank() }.bits(), 0);
    assert_eq!(TransferConfig { xfercount: 0xffff_ffff, ..blank() }.bits(), 0x03ff_0000);
    let all = TransferConfig {
        cfgvalid: true,
        reload: true,
        swtrig: true,
        clrtrig: true,
        setinta: true,
        setintb: true,
        width: Width::Bit32,
        srcinc: Increment::WidthX4,
        dstinc: Increment::WidthX4,
        xfercount: 1023,
    };
    assert_eq!(all.bits(), 0x03ff_f23f);
}

#[test]
fn increment_and_width_bits() {
    assert_eq!(Increment::NoIncrement.bits(), 0);
    assert_eq!(Increment::WidthX1.bits(), 1);
    assert_eq!(Increment::WidthX2.bits(), 2);
    assert_eq!(Increment::WidthX4.bits(), 3);
    assert_eq!(Width::Bit8.bits(), 0);
    assert_eq!(Width::Bit16.bits(), 1);
    assert_eq!(Width::Bit32.bits(), 2);
}
