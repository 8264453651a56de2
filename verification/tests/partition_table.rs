use bootdisk::fs::disk::Fs;
use bootdisk::fs::disk::Partition;
use bootdisk::fs::disk::PartitionTable;
use bootdisk::fs::disk::Warning;
use bootdisk::fs::mbr::Mbr;
use bootdisk::fs::mbr::PartitionEntry;

fn entry(system_id: u8, starting_lba: u32, partition_length: u32, bootable: bool) -> PartitionEntry {
    PartitionEntry { system_id, starting_lba, partition_length, bootable }
}

fn sample() -> [PartitionEntry; 4] {
    [
        entry(0x0c, 2048, 204_800, false),
        entry(0x7f, 206_848, 1_000_000, true),
        entry(0x83, 1_206_848, 42, false),
        entry(0x00, 0, 0, false),
    ]
}

#[test]
fn default_partition_is_the_unused_slot() {
    let p = Partition::default();
    assert_eq!(p.start_sector, 0);
    assert_eq!(p.length, 0);
    assert_eq!(p.relative_pos, 0);
    assert_eq!(p.fs, Fs::Other);
    assert!(!p.is_boot);
}

#[test]
fn slot_is_built_from_its_record() {
    let p = Partition::from_entry(&entry(0x7f, 63, 1000, true));
    assert_eq!(
        p,
        Partition { start_sector: 63, length: 1000, relative_pos: 0, fs: Fs::RedoxFS, is_boot: true }
    );
}

#[test]
fn table_mirrors_the_four_entries_in_order() {
    let entries = sample();
    let table = PartitionTable::from_entries(&entries);
    let expected_fs = [Fs::FAT32, Fs::RedoxFS, Fs::Other, Fs::Other];
    for i in 0..4 {
        assert_eq!(table.partitions[i].start_sector, entries[i].starting_lba);
        assert_eq!(table.partitions[i].length, entries[i].partition_length as usize);
        assert_eq!(table.partitions[i].is_boot, entries[i].bootable);
        assert_eq!(table.partitions[i].fs, expected_fs[i]);
        assert_eq!(table.partitions[i].relative_pos, 0);
    }
}

#[test]
fn table_has_exact_values() {
    let table = PartitionTable::from_entries(&sample());
    assert_eq!(
        table.partitions[1],
        Partition {
            start_sector: 206_848,
            length: 1_000_000,
            relative_pos: 0,
            fs: Fs::RedoxFS,
            is_boot: true
        }
    );
    assert_eq!(
        table.partitions[2],
        Partition { start_sector: 1_206_848, length: 42, relative_pos: 0, fs: Fs::Other, is_boot: false }
    );
}

#[test]
fn table_keeps_duplicates_and_order() {
    let same = entry(0x0c, 10, 20, true);
    let other = entry(0x7f, 5, 1, false);
    let table = PartitionTable::from_entries(&[same, other, same, other]);
    assert_eq!(table.partitions[0], table.partitions[2]);
    assert_eq!(table.partitions[1], table.partitions[3]);
    assert_eq!(table.partitions[0].start_sector, 10);
    assert_eq!(table.partitions[1].start_sector, 5);
}

#[test]
fn empty_record_gives_the_unused_slot() {
    let empty = entry(0x00, 0, 0, false);
    let table = PartitionTable::from_entries(&[empty; 4]);
    for slot in table.partitions {
        assert_eq!(slot, Partition::default());
    }
}

#[test]
fn table_takes_the_largest_geometry() {
    let big = entry(0x0c, u32::MAX, u32::MAX, true);
    let table = PartitionTable::from_entries(&[big; 4]);
    assert_eq!(table.partitions[3].start_sector, u32::MAX);
    assert_eq!(table.partitions[3].length, u32::MAX as usize);
}

#[test]
fn table_of_a_boot_record_is_the_table_of_its_entries() {
    let mbr = Mbr { partition_table: sample() };
    assert_eq!(PartitionTable::new(&mbr), PartitionTable::from_entries(&sample()));
    assert_eq!(PartitionTable::new(&mbr).partitions[0].fs, Fs::FAT32);
}

#[test]
fn warnings_name_the_unsupported_slots() {
    let warnings = PartitionTable::warnings(&sample());
    assert_eq!(
        warnings,
        [
            None,
            None,
            Some(Warning::UnsupportedPartition(0x83)),
            Some(Warning::UnsupportedPartition(0x00)),
        ]
    );
}

#[test]
fn supported_table_raises_no_warning() {
    let fat = entry(0x0c, 1, 1, false);
    let native = entry(0x7f, 2, 1, false);
    assert_eq!(PartitionTable::warnings(&[fat, native, native, fat]), [None; 4]);
}

#[test]
fn zero_length_record_is_kept_as_given() {
    let odd = entry(0x0c, 4096, 0, true);
    let table = PartitionTable::from_entries(&[odd; 4]);
    assert_eq!(
        table.partitions[0],
        Partition { start_sector: 4096, length: 0, relative_pos: 0, fs: Fs::FAT32, is_boot: true }
    );
    assert_ne!(table.partitions[0], Partition::default());
}

#[test]
fn several_boot_flags_are_kept_as_given() {
    let flagged = entry(0x7f, 1, 1, true);
    let plain = entry(0x7f, 2, 1, false);
    let table = PartitionTable::from_entries(&[plain, flagged, plain, flagged]);
    let flags: Vec<bool> = table.partitions.iter().map(|p| p.is_boot).collect();
    assert_eq!(flags, vec![false, true, false, true]);
}
