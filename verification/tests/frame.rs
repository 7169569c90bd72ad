use ailurus_kernel::address::PhysAddr;
use ailurus_kernel::frame::{PageSize, PhysFrame, Size1GiB, Size2MiB, Size4KiB};

#[test]
fn page_sizes_are_multiples_of_512() {
    assert_eq!(Size4KiB::SIZE, 4096);
    assert_eq!(Size2MiB::SIZE, 512 * 4096);
    assert_eq!(Size2MiB::SIZE, 0x20_0000);
    assert_eq!(Size1GiB::SIZE, 512 * 512 * 4096);
    assert_eq!(Size1GiB::SIZE, 0x4000_0000);
}

#[test]
fn frame_containing_address_starts_at_aligned_address() {
    let address = PhysAddr::new(0x1234_5678).unwrap();
    let small: PhysFrame<Size4KiB> = PhysFrame::containing_address(address);
    assert_eq!(small.start_address().as_u64(), 0x1234_5000);
    assert_eq!(small.size(), 4096);
    let huge: PhysFrame<Size2MiB> = PhysFrame::containing_address(address);
    assert_eq!(huge.start_address().as_u64(), 0x1220_0000);
    assert_eq!(huge.size(), 0x20_0000);
    let giant: PhysFrame<Size1GiB> = PhysFrame::containing_address(address);
    assert_eq!(giant.start_address().as_u64(), 0);
    assert_eq!(giant.size(), 0x4000_0000);
}

#[test]
fn frame_of_aligned_address_starts_there() {
    let address = PhysAddr::new(0x4000_0000).unwrap();
    let small: PhysFrame<Size4KiB> = PhysFrame::containing_address(address);
    let huge: PhysFrame<Size2MiB> = PhysFrame::containing_address(address);
    let giant: PhysFrame<Size1GiB> = PhysFrame::containing_address(address);
    assert_eq!(small.start_address(), address);
    assert_eq!(huge.start_address(), address);
    assert_eq!(giant.start_address(), address);
}

#[test]
fn standard_and_huge_pages_are_not_giant() {
    fn size_of_not_giant<S: ailurus_kernel::frame::NotGiantPageSize>() -> u64 {
        S::SIZE
    }
    assert_eq!(size_of_not_giant::<Size4KiB>(), 4096);
    assert_eq!(size_of_not_giant::<Size2MiB>(), 0x20_0000);
}
