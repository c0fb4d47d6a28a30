//! Memory and I/O core of a small x86-64 kernel: address arithmetic and
//! allocation planning, DMA buffer ownership, the serial dispatcher's
//! decisions, and decoding of ATA device identification data.

pub mod alloc_interface;
pub mod ata;
pub mod interrupts;
pub mod mem;
pub mod qemu;
pub mod serial;
