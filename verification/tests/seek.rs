use bootdisk::fs::file::FsError;
use bootdisk::fs::file::SeekFrom;

#[test]
fn current_counts_from_the_cursor() {
    assert_eq!(SeekFrom::Current(5).resolve(10, 100), Ok(15));
    assert_eq!(SeekFrom::Current(-10).resolve(10, 100), Ok(0));
    assert_eq!(SeekFrom::Current(0).resolve(10, 100), Ok(10));
}

#[test]
fn end_counts_from_the_size() {
    assert_eq!(SeekFrom::End(-10).resolve(10, 100), Ok(90));
    assert_eq!(SeekFrom::End(0).resolve(10, 100), Ok(100));
    assert_eq!(SeekFrom::End(7).resolve(10, 100), Ok(107));
}

#[test]
fn start_is_absolute() {
    assert_eq!(SeekFrom::Start(200).resolve(10, 100), Ok(200));
    assert_eq!(SeekFrom::Start(0).resolve(10, 100), Ok(0));
    assert_eq!(SeekFrom::Start(u64::MAX).resolve(10, 100), Ok(u64::MAX));
}

#[test]
fn position_before_the_start_is_refused() {
    assert_eq!(SeekFrom::Current(-11).resolve(10, 100), Err(FsError::SeekError));
    assert_eq!(SeekFrom::End(-101).resolve(10, 100), Err(FsError::SeekError));
    assert_eq!(SeekFrom::End(i64::MIN).resolve(0, 0), Err(FsError::SeekError));
    assert_eq!(SeekFrom::Current(-1).resolve(0, 0), Err(FsError::SeekError));
}

#[test]
fn position_beyond_the_largest_is_refused() {
    assert_eq!(SeekFrom::Current(1).resolve(u64::MAX, 0), Err(FsError::SeekError));
    assert_eq!(SeekFrom::End(i64::MAX).resolve(0, u64::MAX), Err(FsError::SeekError));
}

#[test]
fn offsets_reach_the_whole_range() {
    assert_eq!(SeekFrom::Current(i64::MIN).resolve(1 << 63, 0), Ok(0));
    assert_eq!(SeekFrom::Current(i64::MAX).resolve(1 << 63, 0), Ok(u64::MAX));
    assert_eq!(SeekFrom::End(-1).resolve(0, u64::MAX), Ok(u64::MAX - 1));
}
