//! ATA device identification: the commands that can be checked for support
//! and the decoding of the 512-byte identification block.

pub mod command;
pub mod fields;
pub mod identification;
