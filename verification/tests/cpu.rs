use ailurus_kernel::boot::KernelArgs;
use ailurus_kernel::cpu::{get_vendor_info, has_apic, IA32_APIC_BASE_MSR};
use ailurus_kernel::text::text_of_bytes;

#[test]
fn apic_is_bit_9_of_the_feature_flags() {
    assert!(has_apic(0x200));
    assert!(has_apic(0xffff_ffff));
    assert!(has_apic(0x0781_abfd | 0x200));
    assert!(!has_apic(0));
    assert!(!has_apic(0xffff_fdff));
    assert!(!has_apic(0x100));
    assert!(!has_apic(0x400));
    assert_eq!(IA32_APIC_BASE_MSR, 0x1b);
}

#[test]
fn vendor_name_is_read_from_ebx_edx_ecx() {
    let info = get_vendor_info(0x756e_6547, 0x6c65_746e, 0x4965_6e69);
    assert_eq!(&info.as_bytes(), b"GenuineIntel");
    assert_eq!(info.as_string(), "GenuineIntel");
    let other = get_vendor_info(0x6874_7541, 0x444d_4163, 0x6974_6e65);
    assert_eq!(other.as_string(), "AuthenticAMD");
}

#[test]
fn text_of_bytes_takes_each_byte_as_character() {
    assert_eq!(text_of_bytes(b"abc"), "abc");
    assert_eq!(text_of_bytes(&[]), "");
    assert_eq!(text_of_bytes(&[0x41, 0xe9, 0x00]), "A\u{e9}\u{0}");
}

#[test]
fn kernel_args_are_six_numbers() {
    let mut bytes = [0u8; 48];
    for (i, value) in [0x10_0000u64, 0x8_0000, 0x7_0000, 0x1_0000, 0x6_0000, 0x1000]
        .iter()
        .enumerate()
    {
        bytes[i * 8..i * 8 + 8].copy_from_slice(&value.to_le_bytes());
    }
    assert_eq!(
        KernelArgs::from_bytes(&bytes),
        KernelArgs {
            kernel_base: 0x10_0000,
            kernel_size: 0x8_0000,
            stack_base: 0x7_0000,
            stack_size: 0x1_0000,
            env_base: 0x6_0000,
            env_size: 0x1000,
        }
    );
    let all = [0xffu8; 48];
    assert_eq!(KernelArgs::from_bytes(&all).env_size, u64::MAX);
}
