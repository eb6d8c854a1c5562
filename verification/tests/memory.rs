//! The memory-range boundary checks and the region-selector decoding.

use xous_ipc::error::Error;
use xous_ipc::mem::{MemoryRange, MemoryType, NonZeroWord};

#[test]
fn range_rejects_zero_address() {
    assert_eq!(MemoryRange::new(0, 4096), Err(Error::BadAddress));
}

#[test]
fn range_rejects_zero_size() {
    assert_eq!(MemoryRange::new(4096, 0), Err(Error::BadAddress));
}

#[test]
fn range_accepts_the_smallest_region() {
    let r = MemoryRange::new(1, 1).unwrap();
    assert_eq!(r.len(), 1);
    assert_eq!(r.as_ptr(), 1);
    assert_eq!(r.as_mut_ptr(), 1);
}

#[test]
fn range_projects_its_parts() {
    let r = MemoryRange::new(0x4000, 0x1000).unwrap();
    assert_eq!(r.as_ptr(), 0x4000);
    assert_eq!(r.len(), 0x1000);
    assert!(r.is_empty());
}

#[test]
fn range_assembles_from_parts() {
    let addr = NonZeroWord::new(0x2000).unwrap();
    let size = NonZeroWord::new(0x800).unwrap();
    let r = MemoryRange::from_parts(addr, size);
    assert_eq!(r.as_ptr(), 0x2000);
    assert_eq!(r.len(), 0x800);
}

#[test]
fn nonzero_word_rejects_zero() {
    assert!(NonZeroWord::new(0).is_none());
    assert_eq!(NonZeroWord::new(7).unwrap().get(), 7);
}

#[test]
fn memory_type_decodes_selectors() {
    assert_eq!(MemoryType::from(2), MemoryType::Heap);
    assert_eq!(MemoryType::from(3), MemoryType::Messages);
    assert_eq!(MemoryType::from(4), MemoryType::Stack);
    assert_eq!(MemoryType::from(1), MemoryType::Default);
    assert_eq!(MemoryType::from(0), MemoryType::Default);
    assert_eq!(MemoryType::from(99), MemoryType::Default);
}
