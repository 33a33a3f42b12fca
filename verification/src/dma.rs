//! Driver logic for the Direct Memory Access (DMA) controller.

pub mod buffer;
pub mod channels;
pub mod descriptors;
pub mod endpoint;
pub mod model;
pub mod peripheral;
pub mod program;
pub mod registers;
pub mod transfer;

pub use self::buffer::{Buffer, BufferMut, Region};
pub use self::channels::{Channel, ChannelId, ChannelTrait, Channels};
pub use self::descriptors::{ChannelDescriptor, DescriptorTable, Variant};
pub use self::endpoint::{PeripheralDest, PeripheralSource};
pub use self::peripheral::Handle;
pub use self::program::{Operation, Request};
pub use self::registers::{ChannelConfig, Increment, TransferConfig, Width};
pub use self::transfer::{validate, Dest, Payload, Source, Transfer, TransferError};
