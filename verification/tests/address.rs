use ailurus_kernel::address::{align_down, AddressRangeError, PhysAddr, VirtAddr};

#[test]
fn align_down_rounds_to_multiple() {
    assert_eq!(align_down(0x1234, 0x1000), 0x1000);
    assert_eq!(align_down(0x1000, 0x1000), 0x1000);
    assert_eq!(align_down(0xfff, 0x1000), 0);
    assert_eq!(align_down(0x1234, 1), 0x1234);
    assert_eq!(align_down(u64::MAX, 1 << 63), 1 << 63);
    assert_eq!(align_down(0, 1 << 63), 0);
}

#[test]
fn align_down_is_below_aligned_and_idempotent() {
    let addresses: [u64; 6] = [0, 1, 0xfff, 0x1000, 0x1234_5678_9abc, 0x000f_ffff_ffff_ffff];
    for shift in 0..52u32 {
        let align: u64 = 1 << shift;
        for address in addresses {
            let start = PhysAddr::new(address).unwrap();
            let down = start.align_down(align);
            assert!(down.as_u64() <= address);
            assert!(address - down.as_u64() < align);
            assert_eq!(down.as_u64() % align, 0);
            assert!(down.is_aligned(align));
            assert_eq!(down.align_down(align), down);
            assert_eq!(start.is_aligned(align), address % align == 0);
        }
    }
}

#[test]
fn phys_addr_new_checks_bit_52() {
    assert_eq!(
        PhysAddr::new(0x000f_ffff_ffff_ffff).map(|a| a.as_u64()),
        Ok(0x000f_ffff_ffff_ffff)
    );
    assert_eq!(
        PhysAddr::new(0x0010_0000_0000_0000),
        Err(AddressRangeError { address: 0x0010_0000_0000_0000 })
    );
    assert_eq!(PhysAddr::new(u64::MAX), Err(AddressRangeError { address: u64::MAX }));
    assert_eq!(PhysAddr::new(0).map(|a| a.as_u64()), Ok(0));
    for bit in 52..64u32 {
        assert!(PhysAddr::new(1 << bit).is_err());
    }
    for bit in 0..52u32 {
        assert_eq!(PhysAddr::new(1 << bit).map(|a| a.as_u64()), Ok(1 << bit));
    }
}

#[test]
fn phys_addr_new_unchecked_keeps_value() {
    assert_eq!(PhysAddr::new_unchecked(0x500).as_u64(), 0x500);
    assert_eq!(PhysAddr::new_unchecked(0x500), PhysAddr::new(0x500).unwrap());
}

#[test]
fn phys_addr_orders_by_value() {
    let low = PhysAddr::new(0x1000).unwrap();
    let high = PhysAddr::new(0x2000).unwrap();
    assert!(low < high);
    assert!(low != high);
}

#[test]
fn virt_addr_new_checks_canonical_form() {
    assert_eq!(VirtAddr::new(0).map(|a| a.as_u64()), Ok(0));
    assert_eq!(
        VirtAddr::new(0x0000_7fff_ffff_ffff).map(|a| a.as_u64()),
        Ok(0x0000_7fff_ffff_ffff)
    );
    assert_eq!(
        VirtAddr::new(0x0000_8000_0000_0000),
        Err(AddressRangeError { address: 0x0000_8000_0000_0000 })
    );
    assert_eq!(
        VirtAddr::new(0xffff_7fff_ffff_ffff),
        Err(AddressRangeError { address: 0xffff_7fff_ffff_ffff })
    );
    assert_eq!(
        VirtAddr::new(0xffff_8000_0000_0000).map(|a| a.as_u64()),
        Ok(0xffff_8000_0000_0000)
    );
    assert_eq!(VirtAddr::new(u64::MAX).map(|a| a.as_u64()), Ok(u64::MAX));
}

#[test]
fn virt_addr_align_down_and_is_aligned() {
    let low = VirtAddr::new(0x0000_1234_5678_9abc).unwrap();
    assert_eq!(low.align_down(0x1000).as_u64(), 0x0000_1234_5678_9000);
    assert_eq!(low.align_down(0x20_0000).as_u64(), 0x0000_1234_5660_0000);
    assert!(!low.is_aligned(0x1000));
    assert!(low.align_down(0x1000).is_aligned(0x1000));
    assert_eq!(low.align_down(1 << 63).as_u64(), 0);
    let high = VirtAddr::new(0xffff_ffff_ffff_ffff).unwrap();
    assert_eq!(high.align_down(1 << 47).as_u64(), 0xffff_8000_0000_0000);
    assert_eq!(high.align_down(0x1000).as_u64(), 0xffff_ffff_ffff_f000);
    assert!(VirtAddr::new(0xffff_8000_0000_0000).unwrap().is_aligned(1 << 47));
}

#[test]
fn virt_addr_indices_are_bit_fields() {
    let address = VirtAddr::new(0x0000_1234_5678_9abc).unwrap();
    assert_eq!(address.p4_index(), 0x024);
    assert_eq!(address.p3_index(), 0x0d1);
    assert_eq!(address.p2_index(), 0x0b3);
    assert_eq!(address.p1_index(), 0x189);
    assert_eq!(address.page_offset(), 0xabc);
    let top = VirtAddr::new(u64::MAX).unwrap();
    assert_eq!(top.p4_index(), 511);
    assert_eq!(top.p3_index(), 511);
    assert_eq!(top.p2_index(), 511);
    assert_eq!(top.p1_index(), 511);
    assert_eq!(top.page_offset(), 4095);
    let zero = VirtAddr::new(0).unwrap();
    assert_eq!(zero.p4_index(), 0);
    assert_eq!(zero.page_offset(), 0);
}

#[test]
fn virt_addr_from_table_indices_gives_canonical_address() {
    assert_eq!(VirtAddr::from_table_indices(0, 0, 0, 0, 0).as_u64(), 0);
    assert_eq!(VirtAddr::from_table_indices(0, 0, 0, 1, 0).as_u64(), 0x1000);
    assert_eq!(VirtAddr::from_table_indices(255, 511, 511, 511, 4095).as_u64(), 0x0000_7fff_ffff_ffff);
    assert_eq!(VirtAddr::from_table_indices(256, 0, 0, 0, 0).as_u64(), 0xffff_8000_0000_0000);
    assert_eq!(VirtAddr::from_table_indices(511, 511, 511, 511, 4095).as_u64(), u64::MAX);
    assert_eq!(
        VirtAddr::from_table_indices(0x024, 0x0d1, 0x0b3, 0x189, 0xabc).as_u64(),
        0x0000_1234_5678_9abc
    );
}

#[test]
fn virt_addr_indices_round_trip() {
    let addresses: [u64; 8] = [
        0,
        0xfff,
        0x1000,
        0x0000_1234_5678_9abc,
        0x0000_7fff_ffff_ffff,
        0xffff_8000_0000_0000,
        0xffff_8765_4321_0fed,
        u64::MAX,
    ];
    for value in addresses {
        let address = VirtAddr::new(value).unwrap();
        let again = VirtAddr::from_table_indices(
            address.p4_index(),
            address.p3_index(),
            address.p2_index(),
            address.p1_index(),
            address.page_offset(),
        );
        assert_eq!(again, address);
        assert_eq!(again.as_u64(), value);
    }
}
