//! What the processor says of itself through the `cpuid` instruction.

use vstd::prelude::*;
use crate::bytes::u32_bytes;
use crate::text::{chars_of, text_of_bytes};

verus! {

/// Number of the model-specific register that holds the base address of
/// the local interrupt controller.
pub const IA32_APIC_BASE_MSR: u32 = 0x1B;

/// Bit 9 of the feature flags in `edx`: the processor has a local
/// interrupt controller.
pub const APIC_FEATURE: u32 = 0x200;

/// Whether the processor has a local interrupt controller, going by the
/// feature flags that `cpuid` leaves in `edx` for leaf 1.
pub fn has_apic(edx: u32) -> (has: bool)
    ensures
        has <==> (edx / 0x200) % 2 == 1,
{
    assert((edx & 0x200 != 0) <==> (edx / 0x200) % 2 == 1) by (bit_vector);
    edx & 0b_10_0000_0000 != 0
}

/// The twelve characters by which the maker of the processor names itself,
/// as `cpuid` leaves them in three registers for leaf 0.
#[derive(Debug, Copy, Clone, PartialEq, Eq, Structural)]
pub struct VendorInfo {
    ebx: u32,
    edx: u32,
    ecx: u32,
}

/// The vendor information that `cpuid` has left in `ebx`, `ecx` and `edx`.
pub fn get_vendor_info(ebx: u32, ecx: u32, edx: u32) -> (info: VendorInfo)
    ensures
        info.bytes() == u32_bytes(ebx) + u32_bytes(edx) + u32_bytes(ecx),
{
    VendorInfo { ebx, edx, ecx }
}

impl VendorInfo {
    /// The twelve bytes of the name: those of `ebx`, then those of `edx`,
    /// then those of `ecx`.
    pub closed spec fn bytes(&self) -> Seq<u8> {
        u32_bytes(self.ebx) + u32_bytes(self.edx) + u32_bytes(self.ecx)
    }

    /// The twelve bytes of the name.
    pub fn as_bytes(&self) -> (bytes: [u8; 12])
        ensures
            bytes@ == self.bytes(),
    {
        let bytes: [u8; 12] = [
            (self.ebx % 0x100) as u8,
            ((self.ebx / 0x100) % 0x100) as u8,
            ((self.ebx / 0x1_0000) % 0x100) as u8,
            (self.ebx / 0x100_0000) as u8,
            (self.edx % 0x100) as u8,
            ((self.edx / 0x100) % 0x100) as u8,
            ((self.edx / 0x1_0000) % 0x100) as u8,
            (self.edx / 0x100_0000) as u8,
            (self.ecx % 0x100) as u8,
            ((self.ecx / 0x100) % 0x100) as u8,
            ((self.ecx / 0x1_0000) % 0x100) as u8,
            (self.ecx / 0x100_0000) as u8,
        ];
        assert(bytes@ =~= self.bytes());
        bytes
    }

    /// The name as text: each of the twelve bytes is the code of one
    /// character.
    pub fn as_string(&self) -> (name: String)
        ensures
            name@ == chars_of(self.bytes()),
    {
        let bytes: [u8; 12] = self.as_bytes();
        text_of_bytes(bytes.as_slice())
    }
}

} // verus!
