//! The boot record as its reader hands it over: four primary partition
//! records, already decoded from the sector.

use vstd::prelude::*;

verus! {

/// One record of the primary partition table.
#[derive(Copy, Clone, Debug, PartialEq, Eq, Structural)]
pub struct PartitionEntry {
    /// Partition type code.
    pub system_id: u8,
    /// First sector of the partition, counted from the start of the disk.
    pub starting_lba: u32,
    /// Length of the partition in sectors.
    pub partition_length: u32,
    /// Whether the record carries the boot flag.
    pub bootable: bool,
}

/// A decoded boot record.
#[derive(Copy, Clone, Debug, PartialEq, Eq)]
pub struct Mbr {
    /// The four primary records, in the order of the table.
    pub partition_table: [PartitionEntry; 4],
}

} // verus!
