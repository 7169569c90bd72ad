//! Page sizes and physical frames.

use vstd::prelude::*;
use core::marker::PhantomData;
use crate::address::{
    PhysAddr,
    align_down_spec,
    is_aligned_spec,
    is_power_of_two,
    lemma_align_down,
};

verus! {

/// A page size supported by the paging hardware.
pub trait PageSize: Copy + Eq + PartialOrd + Ord {
    /// Number of bytes in a page of this size.
    const SIZE: u64;

    /// Every page size is a power of two.
    proof fn size_is_power_of_two()
        ensures
            is_power_of_two(Self::SIZE),
    ;
}

proof fn lemma_page_sizes()
    by (bit_vector)
    ensures
        is_power_of_two(0x1000),
        is_power_of_two(0x20_0000),
        is_power_of_two(0x4000_0000),
{
}

/// A page size that is not the largest one.
pub trait NotGiantPageSize: PageSize {}

/// A standard 4 KiB page. The type is a tag: its one value carries nothing.
#[derive(Debug, Clone, Copy, PartialEq, Eq, PartialOrd, Ord)]
pub enum Size4KiB {
    Tag,
}

/// A "huge" 2 MiB page, 512 standard pages.
#[derive(Debug, Clone, Copy, PartialEq, Eq, PartialOrd, Ord)]
pub enum Size2MiB {
    Tag,
}

/// A "giant" 1 GiB page, 512 huge pages.
#[derive(Debug, Clone, Copy, PartialEq, Eq, PartialOrd, Ord)]
pub enum Size1GiB {
    Tag,
}

impl PageSize for Size4KiB {
    const SIZE: u64 = 4096;

    proof fn size_is_power_of_two() {
        lemma_page_sizes();
    }
}

impl NotGiantPageSize for Size4KiB {}

impl PageSize for Size2MiB {
    const SIZE: u64 = Size4KiB::SIZE * 512;

    proof fn size_is_power_of_two() {
        lemma_page_sizes();
    }
}

impl NotGiantPageSize for Size2MiB {}

impl PageSize for Size1GiB {
    const SIZE: u64 = Size2MiB::SIZE * 512;

    proof fn size_is_power_of_two() {
        lemma_page_sizes();
    }
}

/// A standard page has 4 KiB, a huge page is 512 standard pages, and a giant
/// page is 512 huge pages.
pub proof fn lemma_page_size_values()
    ensures
        Size4KiB::SIZE == 0x1000,
        Size2MiB::SIZE == 512 * Size4KiB::SIZE,
        Size2MiB::SIZE == 0x20_0000,
        Size1GiB::SIZE == 512 * Size2MiB::SIZE,
        Size1GiB::SIZE == 0x4000_0000,
{
}

/// A physical memory frame of size `S`.
pub struct PhysFrame<S: PageSize> {
    start_address: PhysAddr,
    size: PhantomData<S>,
}

impl<S: PageSize> PhysFrame<S> {
    #[verifier::type_invariant]
    spec fn starts_aligned(self) -> bool {
        is_aligned_spec(self.start_address@, S::SIZE)
    }

    /// Address at which the frame starts.
    pub closed spec fn start(self) -> u64 {
        self.start_address@
    }

    /// The frame that contains `address`.
    pub fn containing_address(address: PhysAddr) -> (frame: Self)
        ensures
            frame.start() == align_down_spec(address@, S::SIZE),
    {
        proof {
            S::size_is_power_of_two();
            lemma_align_down(address@, S::SIZE);
        }
        PhysFrame { start_address: address.align_down(S::SIZE), size: PhantomData }
    }

    /// Address at which the frame starts: a multiple of the size of the
    /// frame.
    pub fn start_address(&self) -> (address: PhysAddr)
        ensures
            address@ == self.start(),
            is_aligned_spec(address@, S::SIZE),
    {
        proof {
            use_type_invariant(self);
        }
        self.start_address
    }

    /// Number of bytes in the frame.
    pub fn size(&self) -> (size: u64)
        ensures
            size == S::SIZE,
    {
        S::SIZE
    }
}

} // verus!
