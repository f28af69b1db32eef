use rjvm::vm::unsafe_memory::memory_chunk::{MemoryChunk, CHUNK_BASE};
use rjvm::vm::unsafe_memory::Unsafe;

#[test]
fn test_allocate_memory() {
    let mut unsafe_allocator = Unsafe::new();
    assert_ne!(unsafe_allocator.allocate_memory(8), -1)
}

#[test]
fn test_long() {
    let mut unsafe_allocator = Unsafe::new();
    let offset = unsafe_allocator.allocate_memory(8);
    unsafe_allocator.put_long(offset, 12).unwrap();
    assert_eq!(unsafe_allocator.get_long(offset).unwrap(), 12);
}

#[test]
fn test_long_and_byte() {
    let mut unsafe_allocator = Unsafe::new();
    let offset = unsafe_allocator.allocate_memory(8);
    // bytes are stored little endian, so the lowest byte comes first
    unsafe_allocator.put_long(offset, 72623859790382856).unwrap();
    assert_eq!(unsafe_allocator.get_byte(offset).unwrap(), 8);
}

#[test]
fn allocations_do_not_overlap() {
    let mut memory = Unsafe::new();
    assert!(memory.allocation_allowed(12));
    assert!(memory.allocation_allowed(5));
    assert!(memory.allocation_allowed(usize::MAX));
    let a = memory.allocate_memory(12);
    assert!(!memory.allocation_allowed(usize::MAX));
    let b = memory.allocate_memory(3);
    let c = memory.allocate_memory(8);
    assert_eq!(a, CHUNK_BASE as i64);
    // sizes are rounded up to the next multiple of eight
    assert_eq!(b, a + 16);
    assert_eq!(c, b + 8);
    assert!(memory.in_range(c, 8));
    assert!(!memory.in_range(-1, 1));
    assert!(!memory.in_range(CHUNK_BASE as i64 + 52428800, 1));
}

#[test]
fn allocation_beyond_capacity_fails() {
    let mut memory = Unsafe::new();
    assert_eq!(memory.allocate_memory(52428800 + 1), -1);
    assert_ne!(memory.allocate_memory(52428800), -1);
    assert_eq!(memory.allocate_memory(1), -1);
}

#[test]
fn every_width_reads_back_what_was_written() {
    let mut memory = Unsafe::new();
    let p = memory.allocate_memory(8);
    memory.put_int(p, -123456).unwrap();
    assert_eq!(memory.get_int(p).unwrap(), -123456);
    memory.put_short(p, -2).unwrap();
    assert_eq!(memory.get_short(p).unwrap(), -2);
    memory.put_char(p, 0xFFFF).unwrap();
    assert_eq!(memory.get_char(p).unwrap(), 0xFFFF);
    memory.put_byte(p, -1).unwrap();
    assert_eq!(memory.get_byte(p).unwrap(), -1);
    memory.put_long(p, i64::MIN).unwrap();
    assert_eq!(memory.get_long(p).unwrap(), i64::MIN);
}

#[test]
fn narrow_writes_truncate() {
    let mut memory = Unsafe::new();
    let p = memory.allocate_memory(8);
    memory.put_byte(p, 0x1FF).unwrap();
    assert_eq!(memory.get_byte(p).unwrap(), -1);
    memory.put_short(p, 0x18000).unwrap();
    assert_eq!(memory.get_short(p).unwrap(), -32768);
    memory.put_char(p, -1).unwrap();
    assert_eq!(memory.get_char(p).unwrap(), 0xFFFF);
}

#[test]
fn writes_leave_neighbouring_bytes_alone() {
    let mut memory = Unsafe::new();
    let p = memory.allocate_memory(16);
    memory.put_bytes(p, &[1, 2, 3, 4, 5, 6, 7, 8]).unwrap();
    memory.put_short(p + 2, 0).unwrap();
    assert_eq!(memory.get_bytes(p, 8).unwrap(), vec![1, 2, 0, 0, 5, 6, 7, 8]);
}

#[test]
fn set_and_copy_memory() {
    let mut memory = Unsafe::new();
    let p = memory.allocate_memory(16);
    memory.set_memory(p, 4, 0xAB).unwrap();
    assert_eq!(memory.get_bytes(p, 5).unwrap(), vec![0xAB, 0xAB, 0xAB, 0xAB, 0]);
    memory.put_bytes(p, &[1, 2, 3, 4]).unwrap();
    // overlapping copy moves the bytes as a whole
    memory.copy_memory(p, p + 1, 4).unwrap();
    assert_eq!(memory.get_bytes(p, 5).unwrap(), vec![1, 1, 2, 3, 4]);
}

#[test]
fn fresh_memory_is_zeroed() {
    let mut memory = Unsafe::new();
    let p = memory.allocate_memory(8);
    assert_eq!(memory.get_long(p).unwrap(), 0);
}

#[test]
fn memory_chunk_alloc_entry_rounds_up() {
    let mut chunk = MemoryChunk::new(64);
    let first = chunk.alloc_entry(4).unwrap();
    assert_eq!(first.ptr, CHUNK_BASE);
    assert_eq!(first.alloc_size, 8);
    let second = chunk.alloc_entry(16).unwrap();
    assert_eq!(second.ptr, CHUNK_BASE + 8);
    assert_eq!(second.alloc_size, 16);
    let third = chunk.alloc_entry(3).unwrap();
    assert_eq!(third.ptr, CHUNK_BASE + 24);
    assert_eq!(third.alloc_size, 8);
    // a request that does not fit is refused
    assert!(chunk.allocation_allowed(63));
    assert!(chunk.alloc_entry(63).is_none());
    assert!(chunk.contains(CHUNK_BASE + 60, 4));
    assert!(!chunk.contains(CHUNK_BASE + 61, 4));
}

#[test]
fn memory_chunk_put_and_get() {
    let mut chunk = MemoryChunk::new(16);
    chunk.put(CHUNK_BASE + 3, 2, &[9, 8, 7]).unwrap();
    assert_eq!(chunk.get(CHUNK_BASE + 2, 4).unwrap(), vec![0, 9, 8, 0]);
}
