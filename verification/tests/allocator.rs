use ailurus_kernel::address::PhysAddr;
use ailurus_kernel::allocator::{AllocError, PtAllocator, PT_SIZE};
use ailurus_kernel::layout::{all_memory_area, read_e820_map, MemoryAreaIter};

fn areas_of(records: &[(u64, u64, u32)]) -> MemoryAreaIter {
    let mut bytes = Vec::new();
    for (base, size, mem_type) in records {
        bytes.extend_from_slice(&base.to_le_bytes());
        bytes.extend_from_slice(&size.to_le_bytes());
        bytes.extend_from_slice(&mem_type.to_le_bytes());
        bytes.extend_from_slice(&0u32.to_le_bytes());
    }
    bytes.extend_from_slice(&[0u8; 24]);
    all_memory_area(&read_e820_map(&bytes).unwrap())
}

fn phys(address: u64) -> PhysAddr {
    PhysAddr::new(address).unwrap()
}

#[test]
fn frames_skip_kernel_and_increase_until_area_is_exhausted() {
    let areas = areas_of(&[(0x10_0000, 0x10_0000, 1)]);
    let mut allocator = PtAllocator::new(phys(0x10_0000), phys(0x10_0fff), areas);
    let mut last: Option<u64> = None;
    let mut count: u64 = 0;
    loop {
        match allocator.alloc_page() {
            Ok(address) => {
                let value = address.as_u64();
                assert!(!(0x10_0000..0x10_1000).contains(&value));
                assert!((0x10_1000..0x20_0000).contains(&value));
                assert_eq!(value % PT_SIZE, 0);
                if let Some(before) = last {
                    assert!(before < value);
                    assert_eq!(before + PT_SIZE, value);
                }
                last = Some(value);
                count += 1;
            }
            Err(error) => {
                assert_eq!(error, AllocError::OutOfMemory);
                break;
            }
        }
    }
    assert_eq!(count, 255);
    assert_eq!(last, Some(0x1f_f000));
    assert_eq!(allocator.alloc_page(), Err(AllocError::OutOfMemory));
    assert_eq!(allocator.alloc_page(), Err(AllocError::OutOfMemory));
}

#[test]
fn first_frames_of_single_area() {
    let areas = areas_of(&[(0x10_0000, 0x10_0000, 1)]);
    let mut allocator = PtAllocator::new(phys(0x10_0000), phys(0x10_0fff), areas);
    assert_eq!(allocator.alloc_page(), Ok(phys(0x10_1000)));
    assert_eq!(allocator.alloc_page(), Ok(phys(0x10_2000)));
    assert_eq!(allocator.alloc_page(), Ok(phys(0x10_3000)));
}

#[test]
fn kernel_in_the_middle_is_skipped() {
    let areas = areas_of(&[(0x0, 0x6000, 1)]);
    let mut allocator = PtAllocator::new(phys(0x2000), phys(0x3fff), areas);
    assert_eq!(allocator.alloc_page(), Ok(phys(0x0)));
    assert_eq!(allocator.alloc_page(), Ok(phys(0x1000)));
    assert_eq!(allocator.alloc_page(), Ok(phys(0x4000)));
    assert_eq!(allocator.alloc_page(), Ok(phys(0x5000)));
    assert_eq!(allocator.alloc_page(), Err(AllocError::OutOfMemory));
}

#[test]
fn kernel_end_frame_is_inclusive() {
    let areas = areas_of(&[(0x0, 0x6000, 1)]);
    let mut allocator = PtAllocator::new(phys(0x1000), phys(0x3000), areas);
    assert_eq!(allocator.alloc_page(), Ok(phys(0x0)));
    assert_eq!(allocator.alloc_page(), Ok(phys(0x4000)));
}

#[test]
fn areas_are_taken_lowest_base_first() {
    let areas = areas_of(&[(0x30_0000, 0x2000, 1), (0x10_0000, 0x2000, 1), (0x20_0000, 0x1000, 1)]);
    let mut allocator = PtAllocator::new(phys(0), phys(0xfff), areas);
    assert_eq!(allocator.alloc_page(), Ok(phys(0x10_0000)));
    assert_eq!(allocator.alloc_page(), Ok(phys(0x10_1000)));
    assert_eq!(allocator.alloc_page(), Ok(phys(0x20_0000)));
    assert_eq!(allocator.alloc_page(), Ok(phys(0x30_0000)));
    assert_eq!(allocator.alloc_page(), Ok(phys(0x30_1000)));
    assert_eq!(allocator.alloc_page(), Err(AllocError::OutOfMemory));
}

#[test]
fn area_inside_kernel_gives_no_frame() {
    let areas = areas_of(&[(0x10_0000, 0x2000, 1), (0x20_0000, 0x1000, 1)]);
    let mut allocator = PtAllocator::new(phys(0x10_0000), phys(0x10_1fff), areas);
    assert_eq!(allocator.alloc_page(), Ok(phys(0x20_0000)));
    assert_eq!(allocator.alloc_page(), Err(AllocError::OutOfMemory));
}

#[test]
fn area_smaller_than_a_frame_gives_no_frame() {
    let areas = areas_of(&[(0x1000, 0xfff, 1), (0x8000, 0x1000, 1)]);
    let mut allocator = PtAllocator::new(phys(0), phys(0), areas);
    assert_eq!(allocator.alloc_page(), Ok(phys(0x8000)));
    assert_eq!(allocator.alloc_page(), Err(AllocError::OutOfMemory));
}

#[test]
fn allocator_does_not_look_at_area_type() {
    let areas = areas_of(&[(0x1000, 0x1000, 2), (0x8000, 0x1000, 1)]);
    let mut allocator = PtAllocator::new(phys(0), phys(0), areas);
    assert_eq!(allocator.alloc_page(), Ok(phys(0x1000)));
    assert_eq!(allocator.alloc_page(), Ok(phys(0x8000)));
}

#[test]
fn no_area_is_out_of_memory() {
    let mut allocator = PtAllocator::new(phys(0), phys(0xfff), areas_of(&[]));
    assert_eq!(allocator.alloc_page(), Err(AllocError::OutOfMemory));
}

#[test]
fn unaligned_base_starts_in_the_frame_that_holds_it() {
    let areas = areas_of(&[(0x1800, 0x2000, 1)]);
    let mut allocator = PtAllocator::new(phys(0), phys(0), areas);
    assert_eq!(allocator.alloc_page(), Ok(phys(0x1000)));
    assert_eq!(allocator.alloc_page(), Ok(phys(0x2000)));
    assert_eq!(allocator.alloc_page(), Err(AllocError::OutOfMemory));
}

#[test]
fn equal_bases_take_the_first_area() {
    let areas = areas_of(&[(0x4000, 0x1000, 1), (0x4000, 0x3000, 1)]);
    let mut allocator = PtAllocator::new(phys(0), phys(0), areas);
    assert_eq!(allocator.alloc_page(), Ok(phys(0x4000)));
    assert_eq!(allocator.alloc_page(), Ok(phys(0x4000)));
    assert_eq!(allocator.alloc_page(), Ok(phys(0x5000)));
    assert_eq!(allocator.alloc_page(), Ok(phys(0x6000)));
    assert_eq!(allocator.alloc_page(), Err(AllocError::OutOfMemory));
}

#[test]
fn frame_beyond_physical_range_is_refused() {
    let areas = areas_of(&[(0x000f_ffff_ffff_f000, 0x3000, 1)]);
    let mut allocator = PtAllocator::new(phys(0), phys(0), areas);
    assert_eq!(allocator.alloc_page(), Ok(phys(0x000f_ffff_ffff_f000)));
    assert_eq!(
        allocator.alloc_page(),
        Err(AllocError::FrameOutOfRange { frame: 0x100_0000_0000 })
    );
    assert_eq!(
        allocator.alloc_page(),
        Err(AllocError::FrameOutOfRange { frame: 0x100_0000_0000 })
    );
}

#[test]
fn free_walk_keeps_reserved_frames_back() {
    let mut bytes = Vec::new();
    for (base, size, mem_type) in [(0x1000u64, 0x1000u64, 2u32), (0x8000, 0x1000, 1)] {
        bytes.extend_from_slice(&base.to_le_bytes());
        bytes.extend_from_slice(&size.to_le_bytes());
        bytes.extend_from_slice(&mem_type.to_le_bytes());
        bytes.extend_from_slice(&0u32.to_le_bytes());
    }
    bytes.extend_from_slice(&[0u8; 24]);
    let map = read_e820_map(&bytes).unwrap();
    let free = ailurus_kernel::layout::free_memory_area(&map);
    let mut allocator = PtAllocator::new(phys(0), phys(0), free);
    assert_eq!(allocator.alloc_page(), Ok(phys(0x8000)));
    assert_eq!(allocator.alloc_page(), Err(AllocError::OutOfMemory));
}
