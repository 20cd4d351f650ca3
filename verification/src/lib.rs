//! Driver core for streaming pulse-encoded LED data through a clocked
//! parallel-bus peripheral fed by a DMA engine.
//!
//! The library covers the logic of the driver: bus/physical address
//! arithmetic, bitfield register access, DMA descriptor construction and
//! channel control, peripheral clock and timing configuration, and the
//! pulse-train encoding of logical colors.  The privileged device handles
//! (memory mappings, the mailbox) are created by the surrounding program
//! and handed in.

pub mod addr;
pub mod bitfield;
pub mod mem;
pub mod regwin;
pub mod cb;
pub mod dma;
pub mod smi_regs;
pub mod smi;
pub mod encoder;
pub mod gpio;
pub mod mailbox;
