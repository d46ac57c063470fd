//! Tests of the mapping arithmetic: the requests that configurations turn
//! into, the ranges that hints and locks cover, and the errors on the way.
//!
//! No file is mapped here: a page size of 4096 bytes is assumed, and mappings
//! are built at chosen page-aligned addresses as the system would return them.

use mmio::unix::{AdviseCall, MapRequest, MmInner};
use mmio::windows::{split_u64, MmapInner};
use mmio::{Advice, MapError, MapErrorKind, MappingShape, Mm, MmOption};

const PAGE: usize = 4096;
const BASE: usize = 0x7f00_0000_0000;

/// The mapping that a configuration gives for a file of `file_len` bytes,
/// the system having placed the real mapping at `BASE`.
fn map_at(option: &MmOption, file_len: u64) -> Result<Mm, MapError> {
    let request = option.map_request(Some(file_len), PAGE)?;
    Ok(Mm::from_inner(MmInner::from_mapping(&request, BASE)))
}

#[test]
fn map_read() {
    let mmap = map_at(&MmOption::new(), 128).unwrap();
    assert_eq!(mmap.len(), 128);
    assert!(!mmap.is_empty());
    assert_eq!(mmap.as_ptr(), BASE);
    assert_eq!(mmap.inner().as_mm_parameter(), (BASE, 128, 0));
}

#[test]
fn map_empty_file() {
    let request = MmOption::new().map_request(Some(0), PAGE).unwrap();
    assert_eq!(request.mmap_length, 1);
    assert_eq!(request.view_length, 0);
    let mmap = map_at(&MmOption::new(), 0).unwrap();
    assert_eq!(mmap.len(), 0);
    assert!(mmap.is_empty());
    assert_eq!(mmap.as_ptr() % std::mem::size_of::<usize>(), 0);
    assert_eq!(mmap.inner().as_mm_parameter(), (BASE, 1, 0));
    assert_eq!(mmap.lock(), None);
    assert_eq!(mmap.unlock(), None);
}

#[test]
fn map_with_offset_and_len() {
    let mut option = MmOption::new();
    option.offset(33).length(9);
    let request = option.map_request(None, PAGE).unwrap();
    assert_eq!(
        request,
        MapRequest { map_offset: 0, mmap_length: 42, view_offset: 33, view_length: 9, populate: false, page_size: PAGE }
    );
    let mmap = map_at(&option, 256).unwrap();
    assert_eq!(mmap.len(), 9);
    assert_eq!(mmap.as_ptr(), BASE + 33);
    assert_eq!(
        mmap.advise_range(Advice::Sequential, 0, 9),
        Ok(Some(AdviseCall { start: BASE, length: 42, advice: Advice::Sequential }))
    );
    let err = mmap.advise_range(Advice::Sequential, 8, 2).unwrap_err();
    assert_eq!(err.kind(), MapErrorKind::InvalidInput);

    let mut option = MmOption::new();
    option.offset(200);
    let mmap = map_at(&option, 256).unwrap();
    assert_eq!(mmap.len(), 56);
    assert_eq!(mmap.as_ptr(), BASE + 200);
}

#[test]
fn map_offset_beyond_file_errors() {
    let mut option = MmOption::new();
    option.offset(17);
    let result = map_at(&option, 16);
    assert!(result.is_err());
    assert_eq!(result.unwrap_err(), MapError::OffsetBeyondFile);
}

#[test]
fn map_offset_and_len_overflow_errors() {
    let mut option = MmOption::new();
    option.offset(u64::MAX).length(1);
    let result = map_at(&option, 1);
    assert_eq!(result.unwrap_err().kind(), MapErrorKind::InvalidInput);
}

#[test]
fn map_big_offset() {
    let offset = u64::from(u32::MAX) + 2;
    let len = 5432_u64;

    let mut option = MmOption::new();
    option.offset(offset);
    let mmap = map_at(&option, offset + len).unwrap();
    assert_eq!(mmap.len(), len as usize);

    let mut option = MmOption::new();
    option.offset(offset).length(len as usize);
    let request = option.map_request(None, PAGE).unwrap();
    assert_eq!(request.map_offset, (offset - 1) as i64);
    assert_eq!(request.view_offset, 1);
    let mmap = map_at(&option, offset + len).unwrap();
    assert_eq!(mmap.len(), len as usize);
}

#[test]
fn advise() {
    let mmap = map_at(&MmOption::new(), 128).unwrap();
    for advice in [Advice::Normal, Advice::Random, Advice::Sequential, Advice::WillNeed, Advice::DontNeed] {
        assert_eq!(mmap.advise(advice), Ok(Some(AdviseCall { start: BASE, length: 128, advice })));
    }
    mmap.advise_range(Advice::Sequential, 0, 64).unwrap();

    assert_eq!(mmap.advise_range(Advice::Sequential, 200, 10), Err(MapError::InvalidRange));
    assert_eq!(mmap.advise_range(Advice::Sequential, 0, 200), Err(MapError::InvalidRange));
}

#[test]
fn lock_unlock() {
    let mmap = map_at(&MmOption::new(), 128).unwrap();
    assert_eq!(mmap.lock(), Some((BASE, 128)));
    assert_eq!(mmap.lock(), Some((BASE, 128)));
    assert_eq!(mmap.unlock(), Some((BASE, 128)));
    assert_eq!(mmap.unlock(), Some((BASE, 128)));
}

#[test]
fn traits() {
    let mmap = map_at(&MmOption::new(), 16).unwrap();
    let debug = format!("{:?}", mmap);
    assert!(debug.starts_with("Mm {"), "unexpected: {debug}");
    let mut option = MmOption::new();
    let debug = format!("{:?}", option.offset(1).length(2));
    assert!(debug.starts_with("MmOption {"), "unexpected: {debug}");
}

#[test]
fn shape_aligns_down_and_keeps_the_view() {
    let shape = MappingShape::new(33, 9, PAGE).unwrap();
    assert_eq!(shape, MappingShape { map_offset: 0, map_length: 42, view_offset: 33 });
    assert_eq!(shape.map_end(), 42);
    let shape = MappingShape::new(10_000, 100, PAGE).unwrap();
    assert_eq!(shape, MappingShape { map_offset: 8192, map_length: 1908, view_offset: 1808 });
    let shape = MappingShape::new(8192, 0, PAGE).unwrap();
    assert_eq!(shape, MappingShape { map_offset: 8192, map_length: 0, view_offset: 0 });
}

#[test]
fn shape_overflow_errors() {
    assert_eq!(MappingShape::new(4095, usize::MAX, PAGE), Err(MapError::LengthOverflowsUsize));
    assert_eq!(MappingShape::new(u64::MAX - 10, 100, PAGE), Err(MapError::OffsetLengthOverflowsU64));
    assert_eq!(MapError::LengthOverflowsUsize.kind(), MapErrorKind::InvalidInput);
    assert_eq!(MapError::LengthOverflowsUsize.message(), "memory map length overflows usize");
}

#[test]
fn validate_length_limits_to_isize() {
    assert_eq!(MmOption::validate_length(isize::MAX as u64), Ok(isize::MAX as usize));
    assert_eq!(MmOption::validate_length(isize::MAX as u64 + 1), Err(MapError::LengthOverflowsIsize));
    assert_eq!(MapError::LengthOverflowsIsize.kind(), MapErrorKind::InvalidData);
    assert_eq!(MapError::OffsetBeyondFile.kind(), MapErrorKind::InvalidData);
    assert_eq!(MapError::OffsetBeyondFile.message(), "memory map offset is larger than length");
}

#[test]
fn explicit_length_does_not_read_the_file() {
    let mut option = MmOption::new();
    option.offset(100).length(10);
    assert!(!option.needs_file_length());
    assert_eq!(option.get_length(None), Ok(10));
    assert_eq!(option.get_length(Some(5)), Ok(10));
    let option = MmOption::new();
    assert!(option.needs_file_length());
    assert_eq!(option.get_length(Some(77)), Ok(77));
}

#[test]
fn builder_setters() {
    let mut option = MmOption::new();
    assert_eq!(option.get_offset(), 0);
    assert!(!option.get_populate());
    option.populate().offset(7);
    assert_eq!(option.get_offset(), 7);
    assert!(option.get_populate());
    let request = option.map_request(Some(10), PAGE).unwrap();
    assert!(request.populate);
    assert_eq!(request.view_length, 3);
}

#[test]
fn off_t_overflow_errors() {
    let mut option = MmOption::new();
    option.offset(1u64 << 63).length(1);
    assert_eq!(option.map_request(None, PAGE), Err(MapError::OffsetOverflowsOffT));
    assert_eq!(MapError::OffsetOverflowsOffT.kind(), MapErrorKind::InvalidInput);
}

#[test]
fn advise_unaligned_range_moves_to_page_start() {
    let mut option = MmOption::new();
    option.offset(5000).length(10_000);
    let mmap = map_at(&option, 20_000).unwrap();
    // The view starts 904 bytes into the mapping, at BASE + 904.
    assert_eq!(mmap.as_ptr(), BASE + 904);
    assert_eq!(
        mmap.advise_range(Advice::WillNeed, 4000, 100),
        Ok(Some(AdviseCall { start: BASE + 4096, length: 908, advice: Advice::WillNeed }))
    );
    assert_eq!(mmap.advise_range(Advice::WillNeed, 4000, 0), Ok(None));
    assert_eq!(mmap.advise_range(Advice::WillNeed, usize::MAX, 2), Err(MapError::InvalidRange));
    assert_eq!(mmap.inner().as_mm_parameter(), (BASE, 10_904, 904));
}

#[test]
fn raw_parts_round_trip() {
    let inner = MmInner::from_raw_parts(BASE, 100, 17, PAGE);
    assert_eq!(inner.pointer(), BASE + 17);
    assert_eq!(inner.length(), 100);
    assert_eq!(inner.as_mm_parameter(), (BASE, 117, 17));
    assert_eq!(inner.advise(Advice::Random, 50, 51), Err(MapError::InvalidRange));
}

#[test]
fn windows_offsets_split_in_halves() {
    assert_eq!(split_u64(0x1_0000_0002), (1, 2));
    assert_eq!(split_u64(u64::MAX), (u32::MAX, u32::MAX));
    assert_eq!(split_u64(5), (0, 5));
}

#[test]
fn windows_view_request_and_release() {
    let granularity = 65_536;
    assert_eq!(MmapInner::prepare(0, 12, granularity), Ok(None));
    let request = MmapInner::prepare(100, 0x1_0000_0010, granularity).unwrap().unwrap();
    assert_eq!((request.offset_high, request.offset_low), (1, 0));
    assert_eq!((request.size_high, request.size_low), (1, 116));
    assert_eq!(request.view_offset, 16);
    assert_eq!(request.map_length, 116);
    let inner = MmapInner::from_view(&request, 0x20_0000);
    assert_eq!(inner.pointer(), 0x20_0010);
    assert_eq!(inner.length(), 100);
    assert_eq!(inner.unmap_address(), Some(0x20_0000));
    assert_eq!(inner.advise(Advice::WillNeed, 10, 20), Some((0x20_001a, 20)));
    assert_eq!(inner.advise(Advice::Sequential, 10, 20), None);
    assert_eq!(inner.advise(Advice::WillNeed, 10, 0), None);
    let empty = MmapInner::empty(1, granularity);
    assert_eq!(empty.length(), 0);
    assert_eq!(empty.unmap_address(), None);
    assert_eq!(MmapInner::prepare(1, u64::MAX, granularity), Err(MapError::OffsetLengthOverflowsU64));
}

#[test]
fn windows_advise_range_checks_the_range() {
    let request = MmapInner::prepare(64, 100, 65_536).unwrap().unwrap();
    let inner = MmapInner::from_view(&request, 0x30_0000);
    assert_eq!(inner.advise_range(Advice::WillNeed, 0, 64), Ok(Some((0x30_0064, 64))));
    assert_eq!(inner.advise_range(Advice::DontNeed, 0, 64), Ok(None));
    assert_eq!(inner.advise_range(Advice::WillNeed, 60, 5), Err(MapError::InvalidRange));
    assert_eq!(inner.advise_range(Advice::Normal, usize::MAX, 1), Err(MapError::InvalidRange));
}

#[test]
fn error_messages_and_kinds() {
    assert_eq!(MapError::OffsetLengthOverflowsU64.message(), "memory map offset + length overflows u64");
    assert_eq!(MapError::OffsetOverflowsOffT.message(), "memory map offset overflows off_t");
    assert_eq!(MapError::LengthOverflowsIsize.message(), "memory map length overflows isize");
    assert_eq!(MapError::InvalidRange.message(), "");
    assert_eq!(MapError::InvalidRange.kind(), MapErrorKind::InvalidInput);
    assert_eq!(MapError::OffsetLengthOverflowsU64.kind(), MapErrorKind::InvalidInput);
}
