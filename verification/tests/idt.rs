use ailurus_kernel::idt::{DescriptorTablePointer, Idt, IdtEntry, IdtEntryOption, INT_COUNT};
use ailurus_kernel::segmentation::{PrivilegeLevel, SegmentSelector};

#[test]
fn minimal_options_have_must_be_one_bits() {
    assert_eq!(IdtEntryOption::minimal().bits(), 0x0e00);
    assert!(!IdtEntryOption::minimal().is_present());
}

#[test]
fn new_options_are_present_with_interrupts_masked() {
    assert_eq!(IdtEntryOption::new().bits(), 0x8e00);
    assert!(IdtEntryOption::new().is_present());
}

#[test]
fn set_present_sets_and_clears_bit_15() {
    let mut options = IdtEntryOption::minimal();
    options.set_present(true);
    assert_eq!(options.bits(), 0x8e00);
    options.set_present(true);
    assert_eq!(options.bits(), 0x8e00);
    options.set_present(false);
    assert_eq!(options.bits(), 0x0e00);
}

#[test]
fn enable_interrupt_sets_and_clears_bit_8() {
    let mut options = IdtEntryOption::new();
    options.enable_interrupt(true);
    assert_eq!(options.bits(), 0x8f00);
    options.enable_interrupt(false);
    assert_eq!(options.bits(), 0x8e00);
}

#[test]
fn set_privilege_level_replaces_bits_13_and_14() {
    let mut options = IdtEntryOption::new();
    options.set_privilege_level(3 << 13);
    assert_eq!(options.bits(), 0xee00);
    options.set_privilege_level(1 << 13);
    assert_eq!(options.bits(), 0xae00);
    options.set_privilege_level(0);
    assert_eq!(options.bits(), 0x8e00);
}

#[test]
fn set_privilege_level_takes_the_level_in_place() {
    let mut options = IdtEntryOption::new();
    options.set_privilege_level(3);
    assert_eq!(options.bits(), 0x8e03);
}

#[test]
fn set_stack_index_replaces_bits_0_to_2() {
    let mut options = IdtEntryOption::new();
    options.set_stack_index(5);
    assert_eq!(options.bits(), 0x8e05);
    options.set_stack_index(2);
    assert_eq!(options.bits(), 0x8e02);
    options.set_stack_index(0);
    assert_eq!(options.bits(), 0x8e00);
}

#[test]
fn option_setters_chain() {
    let mut options = IdtEntryOption::minimal();
    options.set_present(true).enable_interrupt(true).set_privilege_level(3 << 13).set_stack_index(1);
    assert_eq!(options.bits(), 0xef01);
}

#[test]
fn missing_entry_is_not_present() {
    let entry = IdtEntry::missing();
    assert_eq!(entry.handler_address(), 0);
    assert_eq!(entry.code_selector(), SegmentSelector(0));
    assert_eq!(entry.options().bits(), 0x0e00);
    assert!(!entry.options().is_present());
    assert_eq!(entry.to_bytes(), vec![0, 0, 0, 0, 0x00, 0x0e, 0, 0, 0, 0, 0, 0, 0, 0, 0, 0]);
}

#[test]
fn entry_set_handler_splits_address_and_marks_present() {
    let mut entry = IdtEntry::missing();
    let cs = SegmentSelector::new(1, PrivilegeLevel::Ring0);
    entry.set_handler_fn(0x1122_3344_5566_7788, cs);
    assert_eq!(entry.handler_address(), 0x1122_3344_5566_7788);
    assert_eq!(entry.code_selector(), cs);
    assert_eq!(entry.options().bits(), 0x8e00);
    assert_eq!(
        entry.to_bytes(),
        vec![
            0x88, 0x77, 0x08, 0x00, 0x00, 0x8e, 0x66, 0x55, 0x44, 0x33, 0x22, 0x11, 0, 0, 0, 0
        ]
    );
}

#[test]
fn entry_options_can_be_adjusted_after_binding() {
    let mut entry = IdtEntry::missing();
    entry
        .set_handler_fn(0xffff_ffff_8000_1000, SegmentSelector(0x10))
        .enable_interrupt(true)
        .set_stack_index(3);
    assert_eq!(entry.options().bits(), 0x8f03);
    assert_eq!(entry.handler_address(), 0xffff_ffff_8000_1000);
    assert_eq!(entry.code_selector(), SegmentSelector(0x10));
    let options = entry.set_handler_fn(0x2000, SegmentSelector(0x8));
    options.set_present(false);
    assert!(!entry.options().is_present());
    assert_eq!(entry.options().bits(), 0x0f03);
    assert_eq!(entry.handler_address(), 0x2000);
}

#[test]
fn new_table_has_no_handlers() {
    let idt = Idt::new();
    for vector in 0..=255u8 {
        assert_eq!(idt.handler_of(vector), None);
        assert_eq!(idt.entry(vector), IdtEntry::missing());
    }
}

#[test]
fn table_set_handler_binds_one_vector() {
    let mut idt = Idt::new();
    let cs = SegmentSelector::new(1, PrivilegeLevel::Ring0);
    idt.set_handler_fn(33, 0xdead_beef_0000, cs);
    for vector in 0..=255u8 {
        if vector == 33 {
            assert_eq!(idt.handler_of(vector), Some(0xdead_beef_0000));
            assert_eq!(idt.entry(vector).code_selector(), cs);
            assert_eq!(idt.entry(vector).options().bits(), 0x8e00);
        } else {
            assert_eq!(idt.handler_of(vector), None);
            assert_eq!(idt.entry(vector), IdtEntry::missing());
        }
    }
    idt.set_handler_fn(255, 0x1000, cs).enable_interrupt(true);
    assert_eq!(idt.handler_of(255), Some(0x1000));
    assert_eq!(idt.entry(255).options().bits(), 0x8f00);
    assert_eq!(idt.handler_of(33), Some(0xdead_beef_0000));
}

#[test]
fn rebinding_takes_effect() {
    let mut idt = Idt::new();
    idt.set_handler_fn(0, 0x1000, SegmentSelector(8));
    idt.set_handler_fn(0, 0x2000, SegmentSelector(16));
    assert_eq!(idt.handler_of(0), Some(0x2000));
    assert_eq!(idt.entry(0).code_selector(), SegmentSelector(16));
}

#[test]
fn load_gives_base_and_limit() {
    let idt = Idt::new();
    assert_eq!(INT_COUNT, 256);
    assert_eq!(idt.load(0x7000), DescriptorTablePointer { limit: 4095, base: 0x7000 });
    assert_eq!(
        idt.load(0xffff_8000_0010_0000),
        DescriptorTablePointer { limit: 0x0fff, base: 0xffff_8000_0010_0000 }
    );
}

#[test]
fn pointer_bytes_are_limit_then_base() {
    let pointer = DescriptorTablePointer { limit: 0x0fff, base: 0x1122_3344_5566_7788 };
    assert_eq!(
        pointer.to_bytes(),
        vec![0xff, 0x0f, 0x88, 0x77, 0x66, 0x55, 0x44, 0x33, 0x22, 0x11]
    );
}

#[test]
fn table_bytes_hold_the_entries_in_order() {
    let mut idt = Idt::new();
    idt.set_handler_fn(1, 0x1122_3344_5566_7788, SegmentSelector(8));
    let bytes = idt.to_bytes();
    assert_eq!(bytes.len(), 4096);
    assert_eq!(&bytes[0..16], IdtEntry::missing().to_bytes().as_slice());
    assert_eq!(&bytes[16..32], idt.entry(1).to_bytes().as_slice());
    assert_eq!(
        &bytes[16..32],
        &[0x88, 0x77, 0x08, 0x00, 0x00, 0x8e, 0x66, 0x55, 0x44, 0x33, 0x22, 0x11, 0, 0, 0, 0]
    );
    assert_eq!(&bytes[4080..4096], IdtEntry::missing().to_bytes().as_slice());
}

#[test]
fn must_be_one_bits_stay_set() {
    let mut options = IdtEntryOption::minimal();
    assert_eq!(options.bits() & 0x0e00, 0x0e00);
    options.set_present(false).enable_interrupt(false).set_privilege_level(0).set_stack_index(0);
    assert_eq!(options.bits() & 0x0e00, 0x0e00);
    assert_eq!(options.bits(), 0x0e00);
    options.set_present(true).enable_interrupt(true).set_privilege_level(0x6000).set_stack_index(7);
    assert_eq!(options.bits() & 0x0e00, 0x0e00);
    assert_eq!(options.bits(), 0xef07);
}
