use sandbox_host::memory::{LinearMemory, PAGE_SIZE};
use sandbox_host::trap::MemoryError;

#[test]
fn out_of_range_read_fails() {
    let mem = LinearMemory::new(1, Some(2));
    assert_eq!(mem.size_bytes(), PAGE_SIZE);
    assert_eq!(mem.read(65530, 10), Err(MemoryError::OutOfBounds));
    assert_eq!(mem.read(0, 65537), Err(MemoryError::OutOfBounds));
    assert_eq!(mem.read(4294967295, 1), Err(MemoryError::OutOfBounds));
}

#[test]
fn out_of_range_write_fails_and_leaves_buffer_unmodified() {
    let mut mem = LinearMemory::new(1, Some(1));
    assert_eq!(mem.write(10, &vec![7u8, 8u8]), Ok(()));
    let r = mem.write(65535, &vec![1u8, 2u8, 3u8]);
    assert_eq!(r, Err(MemoryError::OutOfBounds));
    // no partial write happened
    let tail = mem.read(65530, 6).unwrap();
    assert_eq!(tail, vec![0u8; 6]);
    let kept = mem.read(10, 2).unwrap();
    assert_eq!(kept, vec![7u8, 8u8]);
}

#[test]
fn write_then_read_round_trips() {
    let mut mem = LinearMemory::new(1, Some(1));
    let data = vec![1u8, 2, 3, 4, 5, 251, 252, 253];
    assert_eq!(mem.write(100, &data), Ok(()));
    assert_eq!(mem.read(100, 8).unwrap(), data);
    // neighbours untouched
    assert_eq!(mem.read(99, 1).unwrap(), vec![0u8]);
    assert_eq!(mem.read(108, 1).unwrap(), vec![0u8]);
}

#[test]
fn zero_length_access_at_boundary_succeeds() {
    let mut mem = LinearMemory::new(0, Some(0));
    assert_eq!(mem.size_bytes(), 0);
    assert_eq!(mem.read(0, 0).unwrap(), Vec::<u8>::new());
    assert_eq!(mem.write(0, &Vec::new()), Ok(()));
    assert_eq!(mem.read(1, 0), Err(MemoryError::OutOfBounds));
}

#[test]
fn grow_beyond_declared_maximum_fails() {
    let mut mem = LinearMemory::new(1, Some(2));
    assert_eq!(mem.grow(2), Err(MemoryError::MaximumExceeded));
    assert_eq!(mem.size_bytes(), PAGE_SIZE);
    assert_eq!(mem.grow(200000), Err(MemoryError::MaximumExceeded));
}

#[test]
fn grow_to_exactly_the_maximum_succeeds_preserving_bytes() {
    let mut mem = LinearMemory::new(1, Some(2));
    assert_eq!(mem.write(0, &vec![9u8, 9, 9]), Ok(()));
    assert_eq!(mem.grow(1), Ok(2));
    assert_eq!(mem.size_bytes(), 2 * PAGE_SIZE);
    assert_eq!(mem.current_pages(), 2);
    // prior bytes preserved, new pages zero-filled
    assert_eq!(mem.read(0, 3).unwrap(), vec![9u8, 9, 9]);
    assert_eq!(mem.read(PAGE_SIZE as u32, 4).unwrap(), vec![0u8; 4]);
    assert_eq!(mem.grow(1), Err(MemoryError::MaximumExceeded));
}

#[test]
fn grow_without_declared_maximum_hits_host_ceiling_only() {
    let mut mem = LinearMemory::new(0, None);
    assert_eq!(mem.grow(1), Ok(1));
    assert_eq!(mem.size_bytes(), PAGE_SIZE);
    assert_eq!(mem.read(PAGE_SIZE as u32 - 1, 1).unwrap(), vec![0u8]);
}
