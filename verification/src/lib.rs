//! Partition discovery and the file-operation contract of the boot path.
//!
//! The [`fs`] module classifies the slots of a primary partition table, finds
//! the partition to boot from, and states what every filesystem backend owes
//! the code that drives it.

pub mod fs;
