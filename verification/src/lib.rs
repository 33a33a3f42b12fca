//! Verified core of a hardware abstraction layer for NXP LPC8xx
//! microcontrollers.
//!
//! The heart of the crate is [`dma`], the driver logic of the DMA controller.
//! Nothing here touches a memory-mapped register: every function computes,
//! from plain values, what the hardware has to be told, and leaves the act of
//! telling it to the caller.

pub mod dma;
pub mod gpio;
pub mod init_state;
pub mod syscon;
pub mod usart;
