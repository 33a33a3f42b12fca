//! The channel descriptor table that the DMA controller reads from memory.

use vstd::prelude::*;

verus! {

/// The chip variants that this crate knows. They differ in the number of
/// DMA channels.
#[derive(Clone, Copy, PartialEq, Eq, Debug, Structural)]
pub enum Variant {
    /// LPC82x: 18 channels.
    Lpc82x,
    /// LPC845: 25 channels.
    Lpc845,
}

impl Variant {
    /// The number of DMA channels of this variant.
    pub open spec fn spec_channel_count(self) -> usize {
        match self {
            Variant::Lpc82x => 18,
            Variant::Lpc845 => 25,
        }
    }

    /// The number of DMA channels of this variant.
    #[verifier::when_used_as_spec(spec_channel_count)]
    pub fn channel_count(self) -> (count: usize)
        ensures
            count == self.spec_channel_count(),
    {
        match self {
            Variant::Lpc82x => 18,
            Variant::Lpc845 => 25,
        }
    }
}

/// What the hardware reads about one channel's transfer.
///
/// Both fields are addresses, not lengths: the hardware finds the address of
/// each access by counting down from the end.
#[derive(Clone, Copy, PartialEq, Eq, Debug, Structural)]
pub struct ChannelDescriptor {
    /// The address of the last unit that is read.
    pub source_end: u32,
    /// The address of the last unit that is written.
    pub dest_end: u32,
}

/// The descriptor table: one descriptor per channel of the chip, in the
/// order of the channels.
pub struct DescriptorTable {
    variant: Variant,
    slots: Vec<ChannelDescriptor>,
}

impl DescriptorTable {
    #[verifier::type_invariant]
    spec fn well_formed(self) -> bool {
        self.slots.len() == self.variant.spec_channel_count()
    }

    /// The descriptors, by channel index.
    pub closed spec fn view(&self) -> Seq<ChannelDescriptor> {
        self.slots@
    }

    /// The chip variant that the table was made for.
    pub closed spec fn spec_variant(&self) -> Variant {
        self.variant
    }

    /// Creates the table for a chip variant, with every address cleared.
    pub fn new(variant: Variant) -> (table: Self)
        ensures
            table.variant() == variant,
            table@.len() == variant.channel_count(),
            forall|i: int|
                0 <= i < table@.len() ==> table@[i] == (ChannelDescriptor {
                    source_end: 0,
                    dest_end: 0,
                }),
    {
        let count = variant.channel_count();
        let mut slots: Vec<ChannelDescriptor> = Vec::new();
        while slots.len() < count
            invariant
                slots.len() <= count,
                forall|i: int|
                    0 <= i < slots.len() ==> slots[i] == (ChannelDescriptor {
                        source_end: 0,
                        dest_end: 0,
                    }),
            decreases count - slots.len(),
        {
            slots.push(ChannelDescriptor { source_end: 0, dest_end: 0 });
        }
        DescriptorTable { variant, slots }
    }

    /// The chip variant that the table was made for.
    #[verifier::when_used_as_spec(spec_variant)]
    pub fn variant(&self) -> (variant: Variant)
        ensures
            variant == self.spec_variant(),
    {
        self.variant
    }

    /// The number of descriptors, which is the number of channels of the
    /// chip.
    pub fn len(&self) -> (len: usize)
        ensures
            len == self@.len(),
            len == self.variant().channel_count(),
    {
        proof {
            use_type_invariant(self);
        }
        self.slots.len()
    }

    /// The descriptor of one channel, if the chip has that channel.
    pub fn slot(&self, index: usize) -> (slot: Option<ChannelDescriptor>)
        ensures
            index < self@.len() ==> slot == Some(self@[index as int]),
            index >= self@.len() ==> slot is None,
    {
        if index < self.slots.len() {
            Some(self.slots[index])
        } else {
            None
        }
    }
}

} // verus!
