use ailurus_kernel::segmentation::{PrivilegeLevel, SegmentSelector};

#[test]
fn privilege_level_from_number() {
    assert_eq!(PrivilegeLevel::from_u16(0), PrivilegeLevel::Ring0);
    assert_eq!(PrivilegeLevel::from_u16(1), PrivilegeLevel::Ring1);
    assert_eq!(PrivilegeLevel::from_u16(2), PrivilegeLevel::Ring2);
    assert_eq!(PrivilegeLevel::from_u16(3), PrivilegeLevel::Ring3);
}

#[test]
fn privilege_level_to_number() {
    assert_eq!(PrivilegeLevel::Ring0.as_u16(), 0);
    assert_eq!(PrivilegeLevel::Ring1.as_u16(), 1);
    assert_eq!(PrivilegeLevel::Ring2.as_u16(), 2);
    assert_eq!(PrivilegeLevel::Ring3.as_u16(), 3);
}

#[test]
fn selector_packs_index_and_level() {
    assert_eq!(SegmentSelector::new(0, PrivilegeLevel::Ring0).0, 0);
    assert_eq!(SegmentSelector::new(1, PrivilegeLevel::Ring0).0, 8);
    assert_eq!(SegmentSelector::new(1, PrivilegeLevel::Ring3).0, 0b1011);
    assert_eq!(SegmentSelector::new(5, PrivilegeLevel::Ring2).0, 0b10_1010);
    assert_eq!(SegmentSelector::new(0x1fff, PrivilegeLevel::Ring3).0, 0xfffb);
}

#[test]
fn selector_drops_index_bits_above_thirteen() {
    assert_eq!(SegmentSelector::new(0x2001, PrivilegeLevel::Ring1).0, 0b1001);
    assert_eq!(SegmentSelector::new(0xffff, PrivilegeLevel::Ring0).0, 0xfff8);
}

#[test]
fn selector_gives_index_and_level_back() {
    for index in [0u16, 1, 2, 7, 0x100, 0x1fff] {
        for level in 0..4u16 {
            let selector = SegmentSelector::new(index, PrivilegeLevel::from_u16(level));
            assert_eq!(selector.index(), index);
            assert_eq!(selector.rpl(), PrivilegeLevel::from_u16(level));
        }
    }
}

#[test]
fn selector_of_raw_bits() {
    let selector = SegmentSelector(0x0008);
    assert_eq!(selector.index(), 1);
    assert_eq!(selector.rpl(), PrivilegeLevel::Ring0);
    let other = SegmentSelector(0xffff);
    assert_eq!(other.index(), 0x1fff);
    assert_eq!(other.rpl(), PrivilegeLevel::Ring3);
    assert_eq!(SegmentSelector(0x0004).rpl(), PrivilegeLevel::Ring0);
}
