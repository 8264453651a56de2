//! Filesystem layer: partition table, backend contract, file handle.

pub mod disk;
pub mod file;
pub mod mbr;
pub mod memory;
