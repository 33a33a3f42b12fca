//! Bit-level layout of the two registers that every DMA channel has to itself.
//!
//! A register value is built from named fields and encoded into the word that
//! the hardware expects. The layout follows the user manual, sections 12.6.16
//! (`CFG`) and 12.6.18 (`XFERCFG`).

use vstd::prelude::*;

verus! {

/// The largest number of units that one transfer can move.
pub const MAX_TRANSFER_UNITS: u32 = 1024;

/// The largest value of the transfer count field, which holds the number of
/// units minus one.
pub const MAX_TRANSFER_COUNT: u32 = 1023;

/// How an end of a transfer moves through memory from one unit to the next.
#[derive(Clone, Copy, PartialEq, Eq, Debug, Structural)]
pub enum Increment {
    /// The address stays where it is, as for a peripheral's data register.
    NoIncrement,
    /// The address advances by the width of one unit.
    WidthX1,
    /// The address advances by twice the width of one unit.
    WidthX2,
    /// The address advances by four times the width of one unit.
    WidthX4,
}

impl Increment {
    /// The value of the two-bit register field that selects this mode.
    pub open spec fn spec_bits(self) -> u32 {
        match self {
            Increment::NoIncrement => 0,
            Increment::WidthX1 => 1,
            Increment::WidthX2 => 2,
            Increment::WidthX4 => 3,
        }
    }

    /// The value of the two-bit register field that selects this mode.
    #[verifier::when_used_as_spec(spec_bits)]
    pub fn bits(self) -> (r: u32)
        ensures
            r == self.spec_bits(),
            r <= 3,
    {
        match self {
            Increment::NoIncrement => 0,
            Increment::WidthX1 => 1,
            Increment::WidthX2 => 2,
            Increment::WidthX4 => 3,
        }
    }
}

/// The width of one transfer unit.
#[derive(Clone, Copy, PartialEq, Eq, Debug, Structural)]
pub enum Width {
    /// One byte per unit.
    Bit8,
    /// Two bytes per unit.
    Bit16,
    /// Four bytes per unit.
    Bit32,
}

impl Width {
    /// The value of the two-bit register field that selects this width.
    pub open spec fn spec_bits(self) -> u32 {
        match self {
            Width::Bit8 => 0,
            Width::Bit16 => 1,
            Width::Bit32 => 2,
        }
    }

    /// The value of the two-bit register field that selects this width.
    #[verifier::when_used_as_spec(spec_bits)]
    pub fn bits(self) -> (r: u32)
        ensures
            r == self.spec_bits(),
            r <= 2,
    {
        match self {
            Width::Bit8 => 0,
            Width::Bit16 => 1,
            Width::Bit32 => 2,
        }
    }
}

/// A single-bit field: 1 if the flag is set, 0 otherwise.
pub open spec fn spec_bit(flag: bool) -> u32 {
    if flag {
        1
    } else {
        0
    }
}

#[verifier::when_used_as_spec(spec_bit)]
fn bit(flag: bool) -> (r: u32)
    ensures
        r == spec_bit(flag),
{
    if flag {
        1
    } else {
        0
    }
}

/// The fields of a channel's configuration register, `CFG`, that the driver
/// sets. Every other field of the register is written as zero.
#[derive(Clone, Copy, PartialEq, Eq, Debug, Structural)]
pub struct ChannelConfig {
    /// Bit 0: a request from the peripheral paces the transfer.
    pub periphreqen: bool,
    /// Bit 1: a hardware trigger starts the transfer.
    pub hwtrigen: bool,
    /// Bits 16 to 18: the channel's priority; 0 is the highest.
    pub chpriority: u8,
}

impl ChannelConfig {
    /// The register word that holds these fields. Only the low three bits
    /// of the priority find room in the register.
    pub open spec fn spec_bits(self) -> u32 {
        spec_bit(self.periphreqen) | (spec_bit(self.hwtrigen) << 1) | (((self.chpriority as u32)
            & 0x7) << 16)
    }

    /// Encodes the fields into the register word.
    #[verifier::when_used_as_spec(spec_bits)]
    pub fn bits(self) -> (r: u32)
        ensures
            r == self.spec_bits(),
    {
        bit(self.periphreqen) | (bit(self.hwtrigen) << 1) | (((self.chpriority as u32) & 0x7)
            << 16)
    }

    /// The peripheral request enable field of a register word.
    pub open spec fn periphreqen_of(word: u32) -> bool {
        word & 0x1 != 0
    }

    /// The hardware trigger enable field of a register word.
    pub open spec fn hwtrigen_of(word: u32) -> bool {
        (word >> 1) & 0x1 != 0
    }

    /// The priority field of a register word.
    pub open spec fn chpriority_of(word: u32) -> u32 {
        (word >> 16) & 0x7
    }

    /// Every field can be read back from the encoded word, as long as the
    /// priority fits its three bits, and no bit outside the three fields is
    /// set.
    pub proof fn lemma_fields(self)
        requires
            self.chpriority <= 7,
        ensures
            Self::periphreqen_of(self.spec_bits()) == self.periphreqen,
            Self::hwtrigen_of(self.spec_bits()) == self.hwtrigen,
            Self::chpriority_of(self.spec_bits()) == self.chpriority,
            self.spec_bits() & !0x0007_0003u32 == 0,
    {
        let b0 = spec_bit(self.periphreqen);
        let b1 = spec_bit(self.hwtrigen);
        let p = self.chpriority as u32;
        assert({
            let word = b0 | (b1 << 1) | ((p & 0x7) << 16);
            &&& word & 0x1 == b0
            &&& (word >> 1) & 0x1 == b1
            &&& (word >> 16) & 0x7 == p
            &&& word & !0x0007_0003u32 == 0
        }) by (bit_vector)
            requires
                b0 <= 1,
                b1 <= 1,
                p <= 7,
        ;
    }
}

/// The fields of a channel's transfer configuration register, `XFERCFG`.
#[derive(Clone, Copy, PartialEq, Eq, Debug, Structural)]
pub struct TransferConfig {
    /// Bit 0: the channel's descriptor is valid and may be acted upon.
    pub cfgvalid: bool,
    /// Bit 1: a new descriptor is loaded when this one is exhausted.
    pub reload: bool,
    /// Bit 2: the channel's trigger is set together with this write.
    pub swtrig: bool,
    /// Bit 3: the channel's trigger is cleared when the descriptor is
    /// exhausted.
    pub clrtrig: bool,
    /// Bit 4: interrupt flag A is raised when the descriptor is exhausted.
    pub setinta: bool,
    /// Bit 5: interrupt flag B is raised when the descriptor is exhausted.
    pub setintb: bool,
    /// Bits 8 and 9: the width of one unit.
    pub width: Width,
    /// Bits 12 and 13: how the source address advances.
    pub srcinc: Increment,
    /// Bits 14 and 15: how the destination address advances.
    pub dstinc: Increment,
    /// Bits 16 to 25: the number of units to move, minus one.
    pub xfercount: u32,
}

impl TransferConfig {
    /// The register word that holds these fields. Only the low ten bits of
    /// the transfer count find room in the register.
    pub open spec fn spec_bits(self) -> u32 {
        spec_bit(self.cfgvalid) | (spec_bit(self.reload) << 1) | (spec_bit(self.swtrig) << 2) | (
        spec_bit(self.clrtrig) << 3) | (spec_bit(self.setinta) << 4) | (spec_bit(self.setintb)
            << 5) | (self.width.spec_bits() << 8) | (self.srcinc.spec_bits() << 12) | (
        self.dstinc.spec_bits() << 14) | ((self.xfercount & 0x3ff) << 16)
    }

    /// Encodes the fields into the register word, so that all of them reach
    /// the hardware in one write.
    #[verifier::when_used_as_spec(spec_bits)]
    pub fn bits(self) -> (r: u32)
        ensures
            r == self.spec_bits(),
    {
        bit(self.cfgvalid) | (bit(self.reload) << 1) | (bit(self.swtrig) << 2) | (bit(
            self.clrtrig,
        ) << 3) | (bit(self.setinta) << 4) | (bit(self.setintb) << 5) | (self.width.bits() << 8)
            | (self.srcinc.bits() << 12) | (self.dstinc.bits() << 14) | ((self.xfercount & 0x3ff)
            << 16)
    }

    /// The six single-bit fields of a register word, lowest bit first.
    pub open spec fn flags_of(word: u32) -> Seq<bool> {
        seq![
            word & 0x1 != 0,
            (word >> 1) & 0x1 != 0,
            (word >> 2) & 0x1 != 0,
            (word >> 3) & 0x1 != 0,
            (word >> 4) & 0x1 != 0,
            (word >> 5) & 0x1 != 0,
        ]
    }

    /// The unit width field of a register word.
    pub open spec fn width_of(word: u32) -> u32 {
        (word >> 8) & 0x3
    }

    /// The source increment field of a register word.
    pub open spec fn srcinc_of(word: u32) -> u32 {
        (word >> 12) & 0x3
    }

    /// The destination increment field of a register word.
    pub open spec fn dstinc_of(word: u32) -> u32 {
        (word >> 14) & 0x3
    }

    /// The transfer count field of a register word.
    pub open spec fn xfercount_of(word: u32) -> u32 {
        (word >> 16) & 0x3ff
    }

    /// Every field can be read back from the encoded word, as long as the
    /// transfer count fits its ten bits, and no bit outside the fields is set.
    pub proof fn lemma_fields(self)
        requires
            self.xfercount <= MAX_TRANSFER_COUNT,
        ensures
            Self::flags_of(self.spec_bits()) == seq![
                self.cfgvalid,
                self.reload,
                self.swtrig,
                self.clrtrig,
                self.setinta,
                self.setintb,
            ],
            Self::width_of(self.spec_bits()) == self.width.spec_bits(),
            Self::srcinc_of(self.spec_bits()) == self.srcinc.spec_bits(),
            Self::dstinc_of(self.spec_bits()) == self.dstinc.spec_bits(),
            Self::xfercount_of(self.spec_bits()) == self.xfercount,
            self.spec_bits() & !0x03ff_f33fu32 == 0,
    {
        let b0 = spec_bit(self.cfgvalid);
        let b1 = spec_bit(self.reload);
        let b2 = spec_bit(self.swtrig);
        let b3 = spec_bit(self.clrtrig);
        let b4 = spec_bit(self.setinta);
        let b5 = spec_bit(self.setintb);
        let w = self.width.spec_bits();
        let s = self.srcinc.spec_bits();
        let d = self.dstinc.spec_bits();
        let c = self.xfercount;
        assert({
            let word = b0 | (b1 << 1) | (b2 << 2) | (b3 << 3) | (b4 << 4) | (b5 << 5) | (w << 8)
                | (s << 12) | (d << 14) | ((c & 0x3ff) << 16);
            &&& word & 0x1 == b0
            &&& (word >> 1) & 0x1 == b1
            &&& (word >> 2) & 0x1 == b2
            &&& (word >> 3) & 0x1 == b3
            &&& (word >> 4) & 0x1 == b4
            &&& (word >> 5) & 0x1 == b5
            &&& (word >> 8) & 0x3 == w
            &&& (word >> 12) & 0x3 == s
            &&& (word >> 14) & 0x3 == d
            &&& (word >> 16) & 0x3ff == c
            &&& word & !0x03ff_f33fu32 == 0
        }) by (bit_vector)
            requires
                b0 <= 1,
                b1 <= 1,
                b2 <= 1,
                b3 <= 1,
                b4 <= 1,
                b5 <= 1,
                w <= 3,
                s <= 3,
                d <= 3,
                c <= 1023,
        ;
        assert(Self::flags_of(self.spec_bits()) =~= seq![
            self.cfgvalid,
            self.reload,
            self.swtrig,
            self.clrtrig,
            self.setinta,
            self.setintb,
        ]);
    }
}

} // verus!
