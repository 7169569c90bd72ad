//! The interrupt descriptor table: 256 gate descriptors, one per vector.

use vstd::prelude::*;
use crate::bytes::{
    le_u16,
    le_u32,
    push_u16,
    push_u32,
    push_u64,
    u16_bytes,
    u32_bytes,
    u64_bytes,
};
use crate::segmentation::{PrivilegeLevel, SegmentSelector};

verus! {

/// Number of interrupt vectors, and of entries in the table.
pub const INT_COUNT: usize = 256;

/// Number of bytes that one entry takes in the table.
pub const ENTRY_SIZE: usize = 16;

/// What the processor is given to find the table: the address at which it
/// starts, and the number of its last byte.
#[derive(Debug, Copy, Clone, PartialEq, Eq, Structural)]
pub struct DescriptorTablePointer {
    pub limit: u16,
    pub base: u64,
}

impl DescriptorTablePointer {
    /// The ten bytes that the processor reads: the limit, then the base.
    pub open spec fn bytes(self) -> Seq<u8> {
        u16_bytes(self.limit) + u64_bytes(self.base)
    }

    /// The ten bytes that the processor reads.
    pub fn to_bytes(&self) -> (bytes: Vec<u8>)
        ensures
            bytes@ == self.bytes(),
            bytes@.len() == 10,
    {
        let mut bytes: Vec<u8> = Vec::new();
        push_u16(&mut bytes, self.limit);
        push_u64(&mut bytes, self.base);
        bytes
    }
}

/// Option bits in which only the three bits are set that must be 1 in every
/// gate: bits 9, 10 and 11.
pub const MINIMAL_OPTIONS: u16 = 0x0e00;

/// Bit 15 of the options: the entry is present.
pub const PRESENT_BIT: u16 = 0x8000;

/// Bit 8 of the options: interrupts stay enabled while the handler runs (a
/// trap gate). Where it is clear they are masked (an interrupt gate).
pub const INTERRUPT_BIT: u16 = 0x0100;

/// The option bits with the present bit set or cleared.
pub open spec fn with_present(bits: u16, present: bool) -> u16 {
    if present {
        bits | PRESENT_BIT
    } else {
        bits & 0x7fff
    }
}

/// The option bits with the interrupt bit set or cleared.
pub open spec fn with_interrupt(bits: u16, enable: bool) -> u16 {
    if enable {
        bits | INTERRUPT_BIT
    } else {
        bits & 0xfeff
    }
}

/// Whether the present bit is set.
pub open spec fn is_present(bits: u16) -> bool {
    bits & PRESENT_BIT != 0
}

/// Whether the interrupt bit is set.
pub open spec fn keeps_interrupts(bits: u16) -> bool {
    bits & INTERRUPT_BIT != 0
}

/// Setting or clearing the present bit or the interrupt bit gives that bit
/// the value asked for and leaves the other fifteen bits as they were.
pub proof fn lemma_option_bits(bits: u16, on: bool)
    by (bit_vector)
    ensures
        is_present(with_present(bits, on)) == on,
        with_present(bits, on) & 0x7fff == bits & 0x7fff,
        keeps_interrupts(with_interrupt(bits, on)) == on,
        with_interrupt(bits, on) & 0xfeff == bits & 0xfeff,
{
}

/// The three bits that must be 1 are set.
pub open spec fn has_gate_bits(bits: u16) -> bool {
    bits & MINIMAL_OPTIONS == MINIMAL_OPTIONS
}

/// A handler that is bound to an entry without options runs with interrupts
/// masked: marking minimal options present gives a present interrupt gate.
pub proof fn lemma_default_options()
    by (bit_vector)
    ensures
        with_present(MINIMAL_OPTIONS, true) == 0x8e00,
        is_present(with_present(MINIMAL_OPTIONS, true)),
        !keeps_interrupts(with_present(MINIMAL_OPTIONS, true)),
        !is_present(MINIMAL_OPTIONS),
        has_gate_bits(MINIMAL_OPTIONS),
{
}

/// The 16 option bits of an entry.
#[derive(Debug, Copy, Clone, PartialEq, Eq, Structural)]
pub struct IdtEntryOption(u16);

impl View for IdtEntryOption {
    type V = u16;

    closed spec fn view(&self) -> u16 {
        self.0
    }
}

proof fn lemma_gate_bits_stay(bits: u16, more: u16)
    by (bit_vector)
    requires
        bits & 0x0e00 == 0x0e00,
    ensures
        (bits | more) & 0x0e00 == 0x0e00,
        (bits & 0x7fff) & 0x0e00 == 0x0e00,
        (bits & 0xfeff) & 0x0e00 == 0x0e00,
        ((bits & 0x9fff) | more) & 0x0e00 == 0x0e00,
        ((bits & 0xfff8) | more) & 0x0e00 == 0x0e00,
{
}

impl IdtEntryOption {
    #[verifier::type_invariant]
    spec fn gate_bits_set(self) -> bool {
        has_gate_bits(self.0)
    }

    /// Options with nothing but the must-be-one bits.
    pub fn minimal() -> (options: IdtEntryOption)
        ensures
            options@ == MINIMAL_OPTIONS,
    {
        let attribute: u16 = 0x0e00;
        proof {
            lemma_default_options();
        }
        IdtEntryOption(attribute)
    }

    /// Options of a present entry whose handler runs with interrupts masked.
    pub fn new() -> (options: IdtEntryOption)
        ensures
            options@ == 0x8e00,
    {
        let mut options = Self::minimal();
        options.set_present(true).enable_interrupt(false);
        assert((0x0e00u16 | 0x8000) & 0xfeff == 0x8e00) by (bit_vector);
        options
    }

    /// Sets or clears the present bit.
    pub fn set_present(&mut self, present: bool) -> (options: &mut IdtEntryOption)
        ensures
            options@ == with_present(old(self)@, present),
            *final(self) == *final(options),
    {
        proof {
            use_type_invariant(&*self);
            lemma_gate_bits_stay(self.0, PRESENT_BIT);
        }
        if present {
            self.0 |= PRESENT_BIT;
        } else {
            self.0 &= 0x7fff;
        }
        self
    }

    /// Sets or clears the bit that keeps interrupts enabled in the handler.
    pub fn enable_interrupt(&mut self, enable: bool) -> (options: &mut IdtEntryOption)
        ensures
            options@ == with_interrupt(old(self)@, enable),
            *final(self) == *final(options),
    {
        proof {
            use_type_invariant(&*self);
            lemma_gate_bits_stay(self.0, INTERRUPT_BIT);
        }
        if enable {
            self.0 |= INTERRUPT_BIT;
        } else {
            self.0 &= 0xfeff;
        }
        self
    }


    /// Clears the two bits of the privilege level, bits 13 and 14, and sets
    /// every bit that is set in `dpl`. The level is taken in place: the
    /// caller hands it over shifted to bits 13 and 14.
    pub fn set_privilege_level(&mut self, dpl: u16) -> (options: &mut IdtEntryOption)
        ensures
            options@ == with_privilege_level(old(self)@, dpl),
            *final(self) == *final(options),
    {
        proof {
            use_type_invariant(&*self);
            lemma_gate_bits_stay(self.0, dpl);
        }
        self.0 = (self.0 & 0x9fff) | dpl;
        self
    }

    /// Clears the three bits of the stack index, bits 0 to 2, and sets every
    /// bit that is set in `stack_index`.
    pub fn set_stack_index(&mut self, stack_index: u16) -> (options: &mut IdtEntryOption)
        ensures
            options@ == with_stack_index(old(self)@, stack_index),
            *final(self) == *final(options),
    {
        proof {
            use_type_invariant(&*self);
            lemma_gate_bits_stay(self.0, stack_index);
        }
        self.0 = (self.0 & 0xfff8) | stack_index;
        self
    }

    /// Whether the present bit is set.
    pub fn is_present(&self) -> (present: bool)
        ensures
            present == is_present(self@),
    {
        self.0 & PRESENT_BIT != 0
    }

    /// The sixteen bits. The three bits that must be 1 are always among
    /// those that are set.
    pub fn bits(&self) -> (bits: u16)
        ensures
            bits == self@,
            has_gate_bits(bits),
    {
        proof {
            use_type_invariant(self);
        }
        self.0
    }
}

/// The option bits with the privilege level replaced by the bits of `dpl`.
pub open spec fn with_privilege_level(bits: u16, dpl: u16) -> u16 {
    (bits & 0x9fff) | dpl
}

/// The option bits with the stack index replaced by the bits of
/// `stack_index`.
pub open spec fn with_stack_index(bits: u16, stack_index: u16) -> u16 {
    (bits & 0xfff8) | stack_index
}

/// A privilege level in bits 13 and 14 and a stack index below 8 can be
/// read back from the options, and setting either leaves the bits outside
/// its field as they were.
pub proof fn lemma_option_fields(bits: u16, level: u16, stack_index: u16)
    by (bit_vector)
    requires
        level <= 3,
        stack_index < 8,
    ensures
        (with_privilege_level(bits, (level * 0x2000) as u16) / 0x2000) % 4 == level,
        with_privilege_level(bits, (level * 0x2000) as u16) & 0x9fff == bits & 0x9fff,
        with_stack_index(bits, stack_index) % 8 == stack_index,
        with_stack_index(bits, stack_index) & 0xfff8 == bits & 0xfff8,
{
}

/// The address that is kept as a low part of 16 bits, a middle part of 16
/// bits and a high part of 32 bits.
pub open spec fn joined_address(low: u16, middle: u16, high: u32) -> u64 {
    (low + middle * 0x1_0000 + high * 0x1_0000_0000) as u64
}

proof fn lemma_split_address(address: u64)
    by (bit_vector)
    ensures
        address & 0xffff < 0x1_0000,
        (address >> 16) & 0xffff < 0x1_0000,
        address >> 32 < 0x1_0000_0000,
        (address & 0xffff) + ((address >> 16) & 0xffff) * 0x1_0000 + (address >> 32)
            * 0x1_0000_0000 == address,
{
}

/// The descriptor of one interrupt vector: one entry of the table.
#[derive(Debug, Copy, Clone, PartialEq, Eq, Structural)]
pub struct IdtEntry {
    pointer_low: u16,
    gdt_selector: SegmentSelector,
    options: IdtEntryOption,
    pointer_middle: u16,
    pointer_high: u32,
    reserved: u32,
}

impl IdtEntry {
    /// Address of the handler.
    pub closed spec fn handler(&self) -> u64 {
        joined_address(self.pointer_low, self.pointer_middle, self.pointer_high)
    }

    /// Selector of the code segment in which the handler runs.
    pub closed spec fn selector(&self) -> SegmentSelector {
        self.gdt_selector
    }

    /// The option bits.
    pub closed spec fn option_bits(&self) -> u16 {
        self.options@
    }

    /// The reserved last four bytes are zero.
    pub closed spec fn reserved_is_zero(&self) -> bool {
        self.reserved == 0
    }

    /// The sixteen bytes of the entry in the table: the low part of the
    /// handler's address, the selector, the options, the middle part and
    /// the high part of the address, and four reserved bytes.
    pub closed spec fn bytes(&self) -> Seq<u8> {
        u16_bytes(self.pointer_low) + u16_bytes(self.gdt_selector.0) + u16_bytes(self.options@)
            + u16_bytes(self.pointer_middle) + u32_bytes(self.pointer_high) + u32_bytes(
            self.reserved,
        )
    }

    /// The sixteen bytes of an entry hold the handler's address in three
    /// parts, at the offsets 0, 6 and 8, the selector at offset 2, the
    /// options at offset 4, and the reserved bytes at offset 12.
    pub proof fn lemma_bytes(&self)
        ensures
            self.bytes().len() == ENTRY_SIZE,
            joined_address(
                le_u16(self.bytes(), 0),
                le_u16(self.bytes(), 6),
                le_u32(self.bytes(), 8),
            ) == self.handler(),
            le_u16(self.bytes(), 2) == self.selector().0,
            le_u16(self.bytes(), 4) == self.option_bits(),
            self.reserved_is_zero() <==> le_u32(self.bytes(), 12) == 0,
    {
        crate::bytes::lemma_bytes_round_trip(self.pointer_low, self.pointer_high, 0);
        crate::bytes::lemma_bytes_round_trip(self.gdt_selector.0, self.reserved, 0);
        crate::bytes::lemma_bytes_round_trip(self.options@, 0, 0);
        crate::bytes::lemma_bytes_round_trip(self.pointer_middle, 0, 0);
    }

    /// The sixteen bytes of the entry in the table.
    pub fn to_bytes(&self) -> (bytes: Vec<u8>)
        ensures
            bytes@ == self.bytes(),
    {
        let mut bytes: Vec<u8> = Vec::new();
        push_u16(&mut bytes, self.pointer_low);
        push_u16(&mut bytes, self.gdt_selector.0);
        push_u16(&mut bytes, self.options.bits());
        push_u16(&mut bytes, self.pointer_middle);
        push_u32(&mut bytes, self.pointer_high);
        push_u32(&mut bytes, self.reserved);
        bytes
    }

    /// An entry without a handler: not present, all else zero but for the
    /// must-be-one bits.
    pub fn missing() -> (entry: IdtEntry)
        ensures
            entry.handler() == 0,
            entry.selector() == SegmentSelector(0),
            entry.option_bits() == MINIMAL_OPTIONS,
            !is_present(entry.option_bits()),
            entry.reserved_is_zero(),
    {
        assert(0x0e00u16 & 0x8000 == 0) by (bit_vector);
        IdtEntry {
            gdt_selector: SegmentSelector::new(0, PrivilegeLevel::Ring0),
            pointer_low: 0,
            pointer_middle: 0,
            pointer_high: 0,
            options: IdtEntryOption::minimal(),
            reserved: 0,
        }
    }

    /// Binds the handler at `address`, to run in the code segment `cs`, and
    /// marks the entry present. What comes back are the option bits of the
    /// entry, for the caller to adjust.
    pub fn set_handler_fn(&mut self, address: u64, cs: SegmentSelector) -> (options:
        &mut IdtEntryOption)
        ensures
            options@ == with_present(old(self).option_bits(), true),
            final(self).handler() == address,
            final(self).selector() == cs,
            final(self).option_bits() == final(options)@,
            final(self).reserved_is_zero() == old(self).reserved_is_zero(),
    {
        proof {
            lemma_split_address(address);
        }
        self.pointer_low = (address & 0xffff) as u16;
        self.pointer_middle = ((address >> 16) & 0xffff) as u16;
        self.pointer_high = (address >> 32) as u32;
        self.gdt_selector = cs;
        self.options.set_present(true);
        &mut self.options
    }

    /// Address of the handler.
    pub fn handler_address(&self) -> (address: u64)
        ensures
            address == self.handler(),
    {
        self.pointer_low as u64 + (self.pointer_middle as u64) * 0x1_0000 + (
        self.pointer_high as u64) * 0x1_0000_0000
    }

    /// Selector of the code segment in which the handler runs.
    pub fn code_selector(&self) -> (selector: SegmentSelector)
        ensures
            selector == self.selector(),
    {
        self.gdt_selector
    }

    /// The option bits.
    pub fn options(&self) -> (options: IdtEntryOption)
        ensures
            options@ == self.option_bits(),
    {
        self.options
    }
}

/// The bytes of the given entries, one entry behind the other.
pub open spec fn table_bytes(entries: Seq<IdtEntry>) -> Seq<u8>
    decreases entries.len(),
{
    if entries.len() == 0 {
        Seq::empty()
    } else {
        table_bytes(entries.drop_last()) + entries.last().bytes()
    }
}

/// The bytes of a run of entries are sixteen for each entry.
pub proof fn lemma_table_bytes_len(entries: Seq<IdtEntry>)
    ensures
        table_bytes(entries).len() == entries.len() * ENTRY_SIZE,
    decreases entries.len(),
{
    if entries.len() > 0 {
        lemma_table_bytes_len(entries.drop_last());
        entries.last().lemma_bytes();
    }
}

/// The interrupt descriptor table.
#[derive(Debug, Copy, Clone)]
pub struct Idt([IdtEntry; INT_COUNT]);

impl View for Idt {
    type V = Seq<IdtEntry>;

    closed spec fn view(&self) -> Seq<IdtEntry> {
        self.0@
    }
}

impl Idt {
    /// The table has an entry for each of the 256 vectors.
    pub proof fn lemma_len(&self)
        ensures
            self@.len() == INT_COUNT,
    {
    }

    /// A table in which no vector has a handler.
    pub fn new() -> (table: Idt)
        ensures
            table@.len() == INT_COUNT,
            forall|vector: int|
                0 <= vector < INT_COUNT ==> {
                    &&& !is_present((#[trigger] table@[vector]).option_bits())
                    &&& table@[vector].handler() == 0
                    &&& table@[vector].option_bits() == MINIMAL_OPTIONS
                    &&& table@[vector].selector() == SegmentSelector(0)
                    &&& table@[vector].reserved_is_zero()
                },
    {
        Idt([IdtEntry::missing();INT_COUNT])
    }

    /// Binds the handler at `address` to the vector `index`, to run in the
    /// code segment `cs`, and marks the entry present. What comes back are
    /// the option bits of the entry, for the caller to adjust. The table has
    /// 256 entries: no other index is admitted.
    pub fn set_handler_fn(&mut self, index: usize, address: u64, cs: SegmentSelector) -> (options:
        &mut IdtEntryOption)
        requires
            index < INT_COUNT,
        ensures
            options@ == with_present(old(self)@[index as int].option_bits(), true),
            final(self)@.len() == INT_COUNT,
            forall|vector: int|
                0 <= vector < INT_COUNT && vector != index ==> #[trigger] final(self)@[vector]
                    == old(self)@[vector],
            final(self)@[index as int].handler() == address,
            final(self)@[index as int].selector() == cs,
            final(self)@[index as int].option_bits() == final(options)@,
            final(self)@[index as int].reserved_is_zero() == old(
                self,
            )@[index as int].reserved_is_zero(),
    {
        self.0[index].set_handler_fn(address, cs)
    }

    /// What is to be loaded into the processor's table register for a
    /// table that lies at the address `base`: that address, and the number
    /// of the table's last byte.
    pub fn load(&self, base: u64) -> (pointer: DescriptorTablePointer)
        ensures
            pointer.base == base,
            pointer.limit == INT_COUNT * ENTRY_SIZE - 1,
    {
        DescriptorTablePointer { base, limit: (INT_COUNT * ENTRY_SIZE - 1) as u16 }
    }

    /// The bytes of the table as it is to lie in memory, at the address
    /// that `load` is given.
    pub fn to_bytes(&self) -> (bytes: Vec<u8>)
        ensures
            bytes@ == table_bytes(self@),
            bytes@.len() == INT_COUNT * ENTRY_SIZE,
    {
        let mut bytes: Vec<u8> = Vec::new();
        let mut vector: usize = 0;
        while vector < INT_COUNT
            invariant
                vector <= INT_COUNT,
                self@.len() == INT_COUNT,
                bytes@ == table_bytes(self@.take(vector as int)),
            decreases INT_COUNT - vector,
        {
            let mut entry: Vec<u8> = self.0[vector].to_bytes();
            proof {
                assert(self@.take(vector + 1).drop_last() =~= self@.take(vector as int));
            }
            bytes.append(&mut entry);
            vector += 1;
        }
        proof {
            assert(self@.take(vector as int) =~= self@);
            lemma_table_bytes_len(self@);
        }
        bytes
    }

    /// The entry of the given vector.
    pub fn entry(&self, vector: u8) -> (entry: IdtEntry)
        ensures
            self@.len() == INT_COUNT,
            entry == self@[vector as int],
    {
        self.0[vector as usize]
    }

    /// The handler that the given vector is dispatched to: the one of its
    /// entry, if that is present.
    pub fn handler_of(&self, vector: u8) -> (handler: Option<u64>)
        ensures
            self@.len() == INT_COUNT,
            handler == if is_present(self@[vector as int].option_bits()) {
                Some(self@[vector as int].handler())
            } else {
                None
            },
    {
        let entry: IdtEntry = self.0[vector as usize];
        if entry.options().is_present() {
            Some(entry.handler_address())
        } else {
            None
        }
    }
}

} // verus!
