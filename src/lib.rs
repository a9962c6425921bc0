//! Ownership-tracked bindings for on-chip peripherals: the clock gate of each
//! block, the USB OTG full-speed controller, and DMA transfers into the
//! parallel output engine.

pub mod clock;

pub mod otg_fs;
pub mod dma;
pub mod i2s_parallel;
