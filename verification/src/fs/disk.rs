//! Partitions of a disk: how a slot of the table is classified and which
//! slot the machine boots from.

use crate::fs::mbr::Mbr;
use crate::fs::mbr::PartitionEntry;
use vstd::prelude::*;

verus! {

/// A disk as the firmware numbers it, with the position of its cursor.
pub struct Disk {
    pub current_pos: usize,
    pub id: u8,
}

/// Filesystem found in a partition.
#[derive(Copy, Clone, Debug, PartialEq, Eq, Structural)]
pub enum Fs {
    FAT32,
    /// The native filesystem.
    RedoxFS,
    /// Anything this layer does not know: the fallback of classification.
    Other,
}

/// Type code of FAT32 partitions (LBA addressing).
pub const FAT32_ID: u8 = 0x0c;

/// Type code of partitions that hold the native filesystem.
pub const REDOXFS_ID: u8 = 0x7f;

/// The filesystem that a partition type code stands for.
pub open spec fn classify(type_code: u8) -> Fs {
    if type_code == FAT32_ID {
        Fs::FAT32
    } else if type_code == REDOXFS_ID {
        Fs::RedoxFS
    } else {
        Fs::Other
    }
}

/// Whether this layer knows the filesystem behind a type code.
pub open spec fn is_supported(type_code: u8) -> bool {
    type_code == FAT32_ID || type_code == REDOXFS_ID
}

/// What discovery has to report to whoever observes it.
#[derive(Copy, Clone, Debug, PartialEq, Eq, Structural)]
pub enum Warning {
    /// A partition whose type code is not supported; the code is attached.
    UnsupportedPartition(u8),
}

/// The warning that classifying a type code raises: one for every code that
/// is not supported, none for the others.
pub open spec fn warning_of(type_code: u8) -> Option<Warning> {
    if is_supported(type_code) {
        None
    } else {
        Some(Warning::UnsupportedPartition(type_code))
    }
}

/// Raw type code of a partition, as the table stores it.
#[derive(Copy, Clone, Debug, PartialEq, Eq, Structural)]
pub struct SystemId(pub u8);

impl SystemId {
    /// Classifies the type code. Total: an unknown code gives `Fs::Other`.
    pub fn get_fs(&self) -> (fs: Fs)
        ensures
            fs == classify(self.0),
    {
        if self.0 == FAT32_ID {
            Fs::FAT32
        } else if self.0 == REDOXFS_ID {
            Fs::RedoxFS
        } else {
            Fs::Other
        }
    }

    /// The warning that goes with the classification. Nothing is printed
    /// here: the caller hands the warning to its own log.
    pub fn warning(&self) -> (warning: Option<Warning>)
        ensures
            warning == warning_of(self.0),
    {
        if self.0 == FAT32_ID || self.0 == REDOXFS_ID {
            None
        } else {
            Some(Warning::UnsupportedPartition(self.0))
        }
    }
}

/// The classification table: `0x0c` is FAT32, `0x7f` the native filesystem,
/// and every other code falls back to `Fs::Other`, with a warning raised for
/// exactly those.
pub proof fn lemma_classification_table(type_code: u8)
    ensures
        type_code == 0x0c ==> classify(type_code) == Fs::FAT32,
        type_code == 0x7f ==> classify(type_code) == Fs::RedoxFS,
        type_code != 0x0c && type_code != 0x7f ==> classify(type_code) == Fs::Other,
        warning_of(type_code) is Some <==> classify(type_code) == Fs::Other,
{
}

/// One slot of the partition table.
#[derive(Copy, Clone, Debug, PartialEq, Eq, Structural)]
pub struct Partition {
    /// The starting sector number.
    pub start_sector: u32,
    /// Length of the partition in sectors.
    pub length: usize,
    /// Seek position relative to the start of the partition.
    pub relative_pos: usize,
    /// Type of the filesystem.
    pub fs: Fs,
    /// Partition bootable flag.
    pub is_boot: bool,
}

/// The slot that a table record describes: its geometry and flag as they
/// stand in the record, the classified filesystem, and the cursor at zero.
pub open spec fn partition_of(entry: PartitionEntry) -> Partition {
    Partition {
        start_sector: entry.starting_lba,
        length: entry.partition_length as usize,
        relative_pos: 0,
        fs: classify(entry.system_id),
        is_boot: entry.bootable,
    }
}

impl Partition {
    /// The value of an unused slot.
    pub open spec fn unused() -> Partition {
        Partition { start_sector: 0, length: 0, relative_pos: 0, fs: Fs::Other, is_boot: false }
    }

    /// An unused slot: no sectors, no filesystem, not bootable.
    pub fn default() -> (p: Partition)
        ensures
            p == Partition::unused(),
    {
        Partition { start_sector: 0, length: 0, relative_pos: 0, fs: Fs::Other, is_boot: false }
    }

    /// Builds the slot for one record of the table.
    pub fn from_entry(entry: &PartitionEntry) -> (p: Partition)
        ensures
            p == partition_of(*entry),
    {
        Partition {
            start_sector: entry.starting_lba,
            length: entry.partition_length as usize,
            relative_pos: 0,
            fs: SystemId(entry.system_id).get_fs(),
            is_boot: entry.bootable,
        }
    }
}

/// The primary partition table: always four slots.
#[derive(Copy, Clone, Debug, PartialEq, Eq)]
pub struct PartitionTable {
    pub partitions: [Partition; 4],
}

impl View for PartitionTable {
    type V = Seq<Partition>;

    /// The four slots in table order.
    open spec fn view(&self) -> Seq<Partition> {
        self.partitions@
    }
}

/// The slots that four records give: slot `i` describes record `i`.
pub open spec fn slots_of(entries: Seq<PartitionEntry>) -> Seq<Partition> {
    Seq::new(entries.len(), |i: int| partition_of(entries[i]))
}

/// The warnings that four records raise, in table order.
pub open spec fn warnings_of(entries: Seq<PartitionEntry>) -> Seq<Option<Warning>> {
    Seq::new(entries.len(), |i: int| warning_of(entries[i].system_id))
}

impl PartitionTable {
    /// Index of the slot to boot from: the lowest one that carries the boot
    /// flag. Where several slots carry it, the lowest index wins.
    pub open spec fn boot_slot(self) -> Option<int> {
        if self@[0].is_boot {
            Some(0int)
        } else if self@[1].is_boot {
            Some(1int)
        } else if self@[2].is_boot {
            Some(2int)
        } else if self@[3].is_boot {
            Some(3int)
        } else {
            None
        }
    }

    /// The partition to boot from, with its index in the table.
    pub open spec fn bootable(self) -> Option<(Partition, usize)> {
        match self.boot_slot() {
            Some(k) => Some((self@[k], k as usize)),
            None => None,
        }
    }

    /// Builds the table from the four records, slot `i` from record `i`.
    /// Nothing is skipped or reordered, and no record is refused.
    pub fn from_entries(entries: &[PartitionEntry; 4]) -> (table: PartitionTable)
        ensures
            table@ == slots_of(entries@),
    {
        let mut table = PartitionTable { partitions: [Partition::default(); 4] };
        let mut idx: usize = 0;
        while idx < 4
            invariant
                idx <= 4,
                forall|i: int| 0 <= i < idx ==> table@[i] == partition_of(#[trigger] entries@[i]),
            decreases 4 - idx,
        {
            table.partitions[idx] = Partition::from_entry(&entries[idx]);
            idx += 1;
        }
        table
    }

    /// Builds the table of a decoded boot record.
    pub fn new(mbr: &Mbr) -> (table: PartitionTable)
        ensures
            table@ == slots_of(mbr.partition_table@),
    {
        PartitionTable::from_entries(&mbr.partition_table)
    }

    /// The warnings that building the table from these records raises, the
    /// one of record `i` at index `i`.
    pub fn warnings(entries: &[PartitionEntry; 4]) -> (raised: [Option<Warning>; 4])
        ensures
            raised@ == warnings_of(entries@),
    {
        let mut raised: [Option<Warning>; 4] = [None; 4];
        let mut idx: usize = 0;
        while idx < 4
            invariant
                idx <= 4,
                forall|i: int|
                    0 <= i < idx ==> raised@[i] == warning_of(#[trigger] entries@[i].system_id),
            decreases 4 - idx,
        {
            raised[idx] = SystemId(entries[idx].system_id).warning();
            idx += 1;
        }
        raised
    }

    /// Finds the partition to boot from: the first flagged slot in table
    /// order, with its index, or `None` where no slot is flagged.
    pub fn get_bootable(&self) -> (found: Option<(Partition, usize)>)
        ensures
            found == self.bootable(),
    {
        let mut idx: usize = 0;
        while idx < 4
            invariant
                idx <= 4,
                forall|j: int| 0 <= j < idx ==> !self@[j].is_boot,
            decreases 4 - idx,
        {
            if self.partitions[idx].is_boot {
                return Some((self.partitions[idx], idx));
            }
            idx += 1;
        }
        None
    }
}

/// Slot `i` of a table mirrors record `i`: same start, length and boot
/// flag, the filesystem that the type code stands for, and a cursor at zero.
pub proof fn lemma_slots_mirror_entries(entries: Seq<PartitionEntry>, i: int)
    requires
        0 <= i < entries.len(),
    ensures
        slots_of(entries).len() == entries.len(),
        slots_of(entries)[i].start_sector == entries[i].starting_lba,
        slots_of(entries)[i].length == entries[i].partition_length,
        slots_of(entries)[i].fs == classify(entries[i].system_id),
        slots_of(entries)[i].is_boot == entries[i].bootable,
        slots_of(entries)[i].relative_pos == 0,
{
}

/// A table without a flagged slot has no partition to boot from, and only
/// such a table has none.
pub proof fn lemma_no_flag_no_bootable(table: PartitionTable)
    ensures
        table.bootable() is None <==> (forall|i: int| 0 <= i < 4 ==> !(#[trigger] table@[i]).is_boot),
{
}

/// Slot `k` is the one to boot from exactly when it is flagged and no slot
/// before it is: lower slots decide, higher ones are not looked at.
pub proof fn lemma_bootable_is_first_flagged(table: PartitionTable, k: int)
    requires
        0 <= k < 4,
    ensures
        table.bootable() == Some((table@[k], k as usize)) <==> (table@[k].is_boot && forall|j: int|
            0 <= j < k ==> !(#[trigger] table@[j]).is_boot),
{
}

/// With exactly one flagged slot, that slot and its index are what is found.
pub proof fn lemma_single_flag_is_found(table: PartitionTable, k: int)
    requires
        0 <= k < 4,
        forall|i: int| 0 <= i < 4 ==> ((#[trigger] table@[i]).is_boot <==> i == k),
    ensures
        table.bootable() == Some((table@[k], k as usize)),
{
}

/// With two flagged slots, the one with the lower index is found.
pub proof fn lemma_lowest_flag_wins(table: PartitionTable, low: int, high: int)
    requires
        0 <= low < high < 4,
        forall|i: int| 0 <= i < 4 ==> ((#[trigger] table@[i]).is_boot <==> (i == low || i == high)),
    ensures
        table.bootable() == Some((table@[low], low as usize)),
{
}

} // verus!
