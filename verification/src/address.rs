//! Validated physical and virtual addresses and power-of-two alignment.

use vstd::prelude::*;
use vstd::arithmetic::div_mod::lemma_mod_breakdown;

verus! {

/// `align` is a power of two: exactly one bit is set.
pub open spec fn is_power_of_two(align: u64) -> bool {
    align > 0 && align & ((align - 1) as u64) == 0
}

/// The values with exactly one bit set are the sixty-four powers of two
/// from 2^0 to 2^63.
pub proof fn lemma_powers_of_two(align: u64)
    by (bit_vector)
    ensures
        is_power_of_two(align) <==> (
            align == 0x1 || align == 0x2 || align == 0x4 || align == 0x8 || align == 0x10
            || align == 0x20 || align == 0x40 || align == 0x80 || align == 0x100
            || align == 0x200 || align == 0x400 || align == 0x800 || align == 0x1000
            || align == 0x2000 || align == 0x4000 || align == 0x8000 || align == 0x10000
            || align == 0x20000 || align == 0x40000 || align == 0x80000 || align == 0x100000
            || align == 0x200000 || align == 0x400000 || align == 0x800000
            || align == 0x1000000 || align == 0x2000000 || align == 0x4000000
            || align == 0x8000000 || align == 0x10000000 || align == 0x20000000
            || align == 0x40000000 || align == 0x80000000 || align == 0x100000000
            || align == 0x200000000 || align == 0x400000000 || align == 0x800000000
            || align == 0x1000000000 || align == 0x2000000000 || align == 0x4000000000
            || align == 0x8000000000 || align == 0x10000000000 || align == 0x20000000000
            || align == 0x40000000000 || align == 0x80000000000 || align == 0x100000000000
            || align == 0x200000000000 || align == 0x400000000000 || align == 0x800000000000
            || align == 0x1000000000000 || align == 0x2000000000000 || align == 0x4000000000000
            || align == 0x8000000000000 || align == 0x10000000000000
            || align == 0x20000000000000 || align == 0x40000000000000
            || align == 0x80000000000000 || align == 0x100000000000000
            || align == 0x200000000000000 || align == 0x400000000000000
            || align == 0x800000000000000 || align == 0x1000000000000000
            || align == 0x2000000000000000 || align == 0x4000000000000000
            || align == 0x8000000000000000
        ),
{
}

/// The largest multiple of `align` that does not exceed `address`.
pub open spec fn align_down_spec(address: u64, align: u64) -> u64 {
    (address - address % align) as u64
}

proof fn lemma_halve_power_of_two(x: u64, align: u64)
    by (bit_vector)
    requires
        align >= 2,
        align & ((align - 1) as u64) == 0,
    ensures
        align % 2 == 0,
        align / 2 > 0,
        (align / 2) & ((align / 2 - 1) as u64) == 0,
        x & ((align - 1) as u64) == 2 * ((x / 2) & ((align / 2 - 1) as u64)) + x % 2,
{
}

/// Masking with `align - 1` keeps the remainder of the division by `align`.
proof fn lemma_mask_is_mod(x: u64, align: u64)
    requires
        is_power_of_two(align),
    ensures
        x & ((align - 1) as u64) == x % align,
    decreases align,
{
    if align == 1 {
        assert(x & 0 == 0) by (bit_vector);
    } else {
        lemma_halve_power_of_two(x, align);
        let half: u64 = align / 2;
        lemma_mask_is_mod(x / 2, half);
        lemma_mod_breakdown(x as int, 2, half as int);
        assert(2 * (half as int) == align as int);
    }
}

/// Splits a value along a mask: the bits outside the mask are what is left
/// when the bits inside it are taken away.
proof fn lemma_mask_split(x: u64, mask: u64)
    by (bit_vector)
    ensures
        x & !mask == x - (x & mask),
        x & !mask <= x,
        (x & !mask) & mask == 0,
{
}

/// Whether `address` is a multiple of `align`.
pub open spec fn is_aligned_spec(address: u64, align: u64) -> bool {
    address % align == 0
}

/// Rounding down to a power of two never exceeds the address, stays less
/// than one alignment unit below it, yields an aligned value, and changes
/// nothing when applied a second time.
pub proof fn lemma_align_down(address: u64, align: u64)
    requires
        is_power_of_two(align),
    ensures
        align_down_spec(address, align) <= address,
        address - align_down_spec(address, align) < align,
        align_down_spec(address, align) == address - address % align,
        is_aligned_spec(align_down_spec(address, align), align),
        align_down_spec(align_down_spec(address, align), align) == align_down_spec(
            address,
            align,
        ),
{
    let mask: u64 = (align - 1) as u64;
    lemma_mask_is_mod(address, align);
    lemma_mask_split(address, mask);
    let down: u64 = address & !mask;
    assert(down == align_down_spec(address, align));
    lemma_mask_is_mod(down, align);
}

proof fn lemma_upper_half_stays(address: u64, align: u64)
    by (bit_vector)
    requires
        align > 0,
        align & ((align - 1) as u64) == 0,
        align <= 0x8000_0000_0000,
        address >= 0xffff_8000_0000_0000,
    ensures
        address & !((align - 1) as u64) >= 0xffff_8000_0000_0000,
{
}

/// Rounding a canonical address down leaves it canonical, unless the
/// address lies in the upper half and the alignment is more than 2^47.
pub proof fn lemma_align_down_canonical(address: u64, align: u64)
    requires
        is_power_of_two(align),
        is_canonical(address),
        address < 0x8000_0000_0000 || align <= 0x8000_0000_0000,
    ensures
        is_canonical(align_down_spec(address, align)),
{
    let mask: u64 = (align - 1) as u64;
    lemma_mask_is_mod(address, align);
    lemma_mask_split(address, mask);
    if address >= 0x8000_0000_0000 {
        lemma_upper_half_stays(address, align);
    }
}

/// Rounds `address` down to the nearest multiple of `align`.
pub fn align_down(address: u64, align: u64) -> (aligned: u64)
    requires
        is_power_of_two(align),
    ensures
        aligned == align_down_spec(address, align),
        aligned <= address,
{
    let mask: u64 = align - 1;
    proof {
        lemma_mask_is_mod(address, align);
        lemma_mask_split(address, mask);
    }
    address & !mask
}

/// Error of a constructor that was given a value outside the range of its
/// address type.
#[derive(Copy, Clone, Debug, PartialEq, Eq, Structural)]
pub struct AddressRangeError {
    /// The rejected value.
    pub address: u64,
}

/// A value may stand for a physical address: bits 52 to 63 are zero.
pub open spec fn is_physical(address: u64) -> bool {
    address < 0x10_0000_0000_0000
}

/// A value is a canonical virtual address: bits 47 to 63 are all equal.
pub open spec fn is_canonical(address: u64) -> bool {
    address < 0x8000_0000_0000 || address >= 0xffff_8000_0000_0000
}

/// A physical memory address.
#[derive(Copy, Clone, Eq, PartialEq, Structural, Ord, PartialOrd, Debug)]
pub struct PhysAddr(u64);

impl View for PhysAddr {
    type V = u64;

    closed spec fn view(&self) -> u64 {
        self.0
    }
}

impl PhysAddr {
    #[verifier::type_invariant]
    spec fn in_range(self) -> bool {
        is_physical(self.0)
    }

    /// Accepts `address` if and only if none of its bits 52 to 63 is set.
    pub fn new(address: u64) -> (made: Result<PhysAddr, AddressRangeError>)
        ensures
            made is Ok <==> is_physical(address),
            made matches Ok(a) ==> a@ == address,
            made matches Err(e) ==> e.address == address,
    {
        if address <= 0x000f_ffff_ffff_ffff {
            Ok(PhysAddr(address))
        } else {
            Err(AddressRangeError { address })
        }
    }

    /// Wraps a value that the caller knows to be a physical address.
    pub fn new_unchecked(address: u64) -> (made: PhysAddr)
        requires
            is_physical(address),
        ensures
            made@ == address,
    {
        PhysAddr(address)
    }

    /// The address as a number.
    pub fn as_u64(&self) -> (value: u64)
        ensures
            value == self@,
            is_physical(value),
    {
        proof {
            use_type_invariant(self);
        }
        self.0
    }

    /// The largest multiple of `align` that does not exceed this address.
    pub fn align_down(&self, align: u64) -> (aligned: PhysAddr)
        requires
            is_power_of_two(align),
        ensures
            aligned@ == align_down_spec(self@, align),
    {
        proof {
            use_type_invariant(self);
        }
        PhysAddr(align_down(self.0, align))
    }

    /// Whether this address is a multiple of `align`.
    pub fn is_aligned(&self, align: u64) -> (aligned: bool)
        requires
            is_power_of_two(align),
        ensures
            aligned <==> is_aligned_spec(self@, align),
    {
        proof {
            lemma_align_down(self.0, align);
        }
        self.align_down(align) == *self
    }
}

/// Index into the level-4 page table: bits 39 to 47 of the address.
pub open spec fn p4_index_spec(address: u64) -> int {
    ((address / 0x80_0000_0000) % 512) as int
}

/// Index into the level-3 page table: bits 30 to 38 of the address.
pub open spec fn p3_index_spec(address: u64) -> int {
    ((address / 0x4000_0000) % 512) as int
}

/// Index into the level-2 page table: bits 21 to 29 of the address.
pub open spec fn p2_index_spec(address: u64) -> int {
    ((address / 0x20_0000) % 512) as int
}

/// Index into the level-1 page table: bits 12 to 20 of the address.
pub open spec fn p1_index_spec(address: u64) -> int {
    ((address / 0x1000) % 512) as int
}

/// Offset within the page: bits 0 to 11 of the address.
pub open spec fn page_offset_spec(address: u64) -> int {
    (address % 0x1000) as int
}

/// The canonical address with the given page-table indices and page offset:
/// the five fields side by side in bits 0 to 47, and bit 47 repeated in bits
/// 48 to 63.
pub open spec fn from_table_indices_spec(
    level4: int,
    level3: int,
    level2: int,
    level1: int,
    offset: int,
) -> int {
    let low = level4 * 0x80_0000_0000 + level3 * 0x4000_0000 + level2 * 0x20_0000 + level1
        * 0x1000 + offset;
    if level4 >= 256 {
        low + 0xffff_0000_0000_0000
    } else {
        low
    }
}

/// The four page-table indices and the page offset of a canonical address
/// give the address back.
pub proof fn lemma_table_indices_round_trip(address: u64)
    requires
        is_canonical(address),
    ensures
        from_table_indices_spec(
            p4_index_spec(address),
            p3_index_spec(address),
            p2_index_spec(address),
            p1_index_spec(address),
            page_offset_spec(address),
        ) == address,
{
    lemma_fields_of_canonical(address);
}

proof fn lemma_fields_of_canonical(a: u64)
    by (bit_vector)
    requires
        a < 0x8000_0000_0000 || a >= 0xffff_8000_0000_0000,
    ensures
        a < 0x8000_0000_0000 ==> (a / 0x80_0000_0000) % 512 < 256 && a == ((a / 0x80_0000_0000)
            % 512) * 0x80_0000_0000 + ((a / 0x4000_0000) % 512) * 0x4000_0000 + ((a / 0x20_0000)
            % 512) * 0x20_0000 + ((a / 0x1000) % 512) * 0x1000 + a % 0x1000,
        a >= 0xffff_8000_0000_0000 ==> (a / 0x80_0000_0000) % 512 >= 256 && a == ((a
            / 0x80_0000_0000) % 512) * 0x80_0000_0000 + ((a / 0x4000_0000) % 512) * 0x4000_0000 + ((
        a / 0x20_0000) % 512) * 0x20_0000 + ((a / 0x1000) % 512) * 0x1000 + a % 0x1000
            + 0xffff_0000_0000_0000,
{
}

proof fn lemma_fields_of_sum(
    a: u64,
    level4: u64,
    level3: u64,
    level2: u64,
    level1: u64,
    offset: u64,
)
    by (bit_vector)
    requires
        level4 < 512,
        level3 < 512,
        level2 < 512,
        level1 < 512,
        offset < 4096,
        a == level4 * 0x80_0000_0000 + level3 * 0x4000_0000 + level2 * 0x20_0000 + level1
            * 0x1000 + offset || a == level4 * 0x80_0000_0000 + level3 * 0x4000_0000 + level2
            * 0x20_0000 + level1 * 0x1000 + offset + 0xffff_0000_0000_0000,
    ensures
        (a / 0x80_0000_0000) % 512 == level4,
        (a / 0x4000_0000) % 512 == level3,
        (a / 0x20_0000) % 512 == level2,
        (a / 0x1000) % 512 == level1,
        a % 0x1000 == offset,
        level4 < 256 ==> level4 * 0x80_0000_0000 + level3 * 0x4000_0000 + level2 * 0x20_0000
            + level1 * 0x1000 + offset < 0x8000_0000_0000,
        level4 >= 256 ==> level4 * 0x80_0000_0000 + level3 * 0x4000_0000 + level2 * 0x20_0000
            + level1 * 0x1000 + offset + 0xffff_0000_0000_0000 >= 0xffff_8000_0000_0000,
{
}

proof fn lemma_index_fields(address: u64)
    by (bit_vector)
    ensures
        (address >> 39) & 0o777 == (address / 0x80_0000_0000) % 512,
        (address >> 30) & 0o777 == (address / 0x4000_0000) % 512,
        (address >> 21) & 0o777 == (address / 0x20_0000) % 512,
        (address >> 12) & 0o777 == (address / 0x1000) % 512,
        address & 0o7777 == address % 0x1000,
{
}

/// A virtual memory address in canonical form.
#[derive(Copy, Clone, Eq, PartialEq, Structural, Ord, PartialOrd, Debug)]
pub struct VirtAddr(u64);

impl View for VirtAddr {
    type V = u64;

    closed spec fn view(&self) -> u64 {
        self.0
    }
}

impl VirtAddr {
    #[verifier::type_invariant]
    spec fn canonical(self) -> bool {
        is_canonical(self.0)
    }

    /// Accepts `address` if and only if it lies outside the non-canonical
    /// hole between 2^47 and 2^64 - 2^47.
    pub fn new(address: u64) -> (made: Result<VirtAddr, AddressRangeError>)
        ensures
            made is Ok <==> is_canonical(address),
            made matches Ok(a) ==> a@ == address,
            made matches Err(e) ==> e.address == address,
    {
        if address < 0x0000_8000_0000_0000 || address >= 0xffff_8000_0000_0000 {
            Ok(VirtAddr(address))
        } else {
            Err(AddressRangeError { address })
        }
    }

    /// The address as a number.
    pub fn as_u64(&self) -> (value: u64)
        ensures
            value == self@,
            is_canonical(value),
    {
        proof {
            use_type_invariant(self);
        }
        self.0
    }

    /// The largest multiple of `align` that does not exceed this address.
    /// Rounding an address of the upper half down to more than 2^47 would
    /// leave the canonical range, so such a call is not admitted.
    pub fn align_down(&self, align: u64) -> (aligned: VirtAddr)
        requires
            is_power_of_two(align),
            is_canonical(align_down_spec(self@, align)),
        ensures
            aligned@ == align_down_spec(self@, align),
    {
        VirtAddr(align_down(self.0, align))
    }

    /// Whether this address is a multiple of `align`.
    pub fn is_aligned(&self, align: u64) -> (aligned: bool)
        requires
            is_power_of_two(align),
            is_canonical(align_down_spec(self@, align)),
        ensures
            aligned <==> is_aligned_spec(self@, align),
    {
        proof {
            lemma_align_down(self.0, align);
        }
        self.align_down(align) == *self
    }

    /// Index into the level-4 page table.
    pub fn p4_index(&self) -> (index: usize)
        ensures
            index == p4_index_spec(self@),
            index < 512,
    {
        proof {
            lemma_index_fields(self.0);
        }
        ((self.0 >> 39) & 0o777) as usize
    }

    /// Index into the level-3 page table.
    pub fn p3_index(&self) -> (index: usize)
        ensures
            index == p3_index_spec(self@),
            index < 512,
    {
        proof {
            lemma_index_fields(self.0);
        }
        ((self.0 >> 30) & 0o777) as usize
    }

    /// Index into the level-2 page table.
    pub fn p2_index(&self) -> (index: usize)
        ensures
            index == p2_index_spec(self@),
            index < 512,
    {
        proof {
            lemma_index_fields(self.0);
        }
        ((self.0 >> 21) & 0o777) as usize
    }

    /// Index into the level-1 page table.
    pub fn p1_index(&self) -> (index: usize)
        ensures
            index == p1_index_spec(self@),
            index < 512,
    {
        proof {
            lemma_index_fields(self.0);
        }
        ((self.0 >> 12) & 0o777) as usize
    }

    /// Offset within the page.
    pub fn page_offset(&self) -> (offset: usize)
        ensures
            offset == page_offset_spec(self@),
            offset < 4096,
    {
        proof {
            lemma_index_fields(self.0);
        }
        (self.0 & 0o7777) as usize
    }

    /// Puts a canonical address together from its page-table indices and
    /// page offset.
    pub fn from_table_indices(
        level4: usize,
        level3: usize,
        level2: usize,
        level1: usize,
        offset: usize,
    ) -> (made: VirtAddr)
        requires
            level4 < 512,
            level3 < 512,
            level2 < 512,
            level1 < 512,
            offset < 4096,
        ensures
            made@ == from_table_indices_spec(
                level4 as int,
                level3 as int,
                level2 as int,
                level1 as int,
                offset as int,
            ),
            p4_index_spec(made@) == level4,
            p3_index_spec(made@) == level3,
            p2_index_spec(made@) == level2,
            p1_index_spec(made@) == level1,
            page_offset_spec(made@) == offset,
    {
        let low: u64 = (level4 as u64) * 0x80_0000_0000 + (level3 as u64) * 0x4000_0000 + (
        level2 as u64) * 0x20_0000 + (level1 as u64) * 0x1000 + (offset as u64);
        let address: u64 = if level4 >= 256 {
            low + 0xffff_0000_0000_0000
        } else {
            low
        };
        proof {
            lemma_fields_of_sum(
                address,
                level4 as u64,
                level3 as u64,
                level2 as u64,
                level1 as u64,
                offset as u64,
            );
        }
        VirtAddr(address)
    }
}

} // verus!
