use ailurus_kernel::memory::{iterate_memory_map, MemoryType};

fn tags(records: &[(u64, u64, u32)]) -> Vec<u8> {
    let mut bytes = Vec::new();
    for (start, length, mem_type) in records {
        bytes.extend_from_slice(&start.to_le_bytes());
        bytes.extend_from_slice(&length.to_le_bytes());
        bytes.extend_from_slice(&mem_type.to_le_bytes());
        bytes.extend_from_slice(&0u32.to_le_bytes());
    }
    bytes
}

#[test]
fn walk_gives_the_tags_behind_the_start() {
    let memory = tags(&[(0, 0x9fc00, 1), (0x9fc00, 0x400, 2), (0x10_0000, 0x100_0000, 3)]);
    let mut walk = iterate_memory_map(0);
    let second = walk.next(&memory).unwrap();
    assert_eq!(second.start_address(), 0x9fc00);
    assert_eq!(second.end_address(), 0xa0000);
    assert_eq!(second.memory_type(), MemoryType::AddressRangeReserved);
    let third = walk.next(&memory).unwrap();
    assert_eq!(third.start_address(), 0x10_0000);
    assert_eq!(third.end_address(), 0x110_0000);
    assert_eq!(third.memory_type(), MemoryType::Unknown);
    assert_eq!(walk.next(&memory), None);
    assert_eq!(walk.next(&memory), None);
}

#[test]
fn walk_ends_where_start_addresses_fall() {
    let memory = tags(&[(0x1000, 0x1000, 1), (0x2000, 0x1000, 1), (0x500, 0x10, 1), (0x9000, 1, 1)]);
    let mut walk = iterate_memory_map(0);
    assert_eq!(walk.next(&memory).unwrap().start_address(), 0x2000);
    assert_eq!(walk.next(&memory), None);
}

#[test]
fn walk_starts_at_the_given_address() {
    let mut memory = vec![0xffu8; 0x10];
    memory.extend(tags(&[(0x1000, 0x1000, 1), (0x1000, 0x2000, 1)]));
    let mut walk = iterate_memory_map(0x10);
    let tag = walk.next(&memory).unwrap();
    assert_eq!(tag.start_address(), 0x1000);
    assert_eq!(tag.end_address(), 0x3000);
    assert_eq!(tag.memory_type(), MemoryType::AddressRangeMemory);
    assert_eq!(walk.next(&memory), None);
}

#[test]
fn walk_beyond_memory_gives_nothing() {
    let memory = tags(&[(0x1000, 0x1000, 1)]);
    assert_eq!(iterate_memory_map(0).next(&memory), None);
    assert_eq!(iterate_memory_map(0x1000).next(&memory), None);
    assert_eq!(iterate_memory_map(u64::MAX).next(&memory), None);
    assert_eq!(iterate_memory_map(0).next(&[]), None);
}
