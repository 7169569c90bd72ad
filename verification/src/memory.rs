//! A walk over address range descriptors that lie one behind the other in
//! memory, each 24 bytes long, in the order of their start addresses. The
//! walk ends where a descriptor starts below the one before it.

use vstd::prelude::*;
use crate::bytes::{le_u32, le_u64, read_u32, read_u64};

verus! {

/// What an address range is used for.
#[derive(Debug, Clone, Copy, PartialEq, Eq, Structural)]
pub enum MemoryType {
    AddressRangeMemory,
    AddressRangeReserved,
    Unknown,
}

/// One address range descriptor.
#[derive(Debug, Clone, Copy, PartialEq, Eq, Structural)]
pub struct MemoryTag {
    start_address: u64,
    length: u64,
    mem_type: u32,
    _reversed: u32,
}

/// Size in bytes of an address range descriptor.
pub const TAG_SIZE: u64 = 24;

/// The use that a type code stands for.
pub open spec fn memory_type_of(code: u32) -> MemoryType {
    if code == 1 {
        MemoryType::AddressRangeMemory
    } else if code == 2 {
        MemoryType::AddressRangeReserved
    } else {
        MemoryType::Unknown
    }
}

impl MemoryTag {
    /// Address at which the range starts.
    pub closed spec fn start(&self) -> u64 {
        self.start_address
    }

    /// Number of bytes in the range.
    pub closed spec fn len(&self) -> u64 {
        self.length
    }

    /// The type code of the range.
    pub closed spec fn type_code(&self) -> u32 {
        self.mem_type
    }

    /// The descriptor is the one that lies in the 24 bytes from `at` on: it
    /// starts at the number in the first eight bytes, is as long as the
    /// number in the next eight says, and has the type code in the four
    /// bytes after those.
    pub open spec fn lies_at(&self, memory: Seq<u8>, at: int) -> bool {
        &&& self.start() == le_u64(memory, at)
        &&& self.len() == le_u64(memory, at + 8)
        &&& self.type_code() == le_u32(memory, at + 16)
    }

    pub fn start_address(&self) -> (address: u64)
        ensures
            address == self.start(),
    {
        self.start_address
    }

    /// Address of the first byte behind the range. A range that reaches
    /// beyond the last address has no such address and is not admitted.
    pub fn end_address(&self) -> (address: u64)
        requires
            self.start() + self.len() <= u64::MAX,
        ensures
            address == self.start() + self.len(),
    {
        self.start_address + self.length
    }

    pub fn memory_type(&self) -> (memory_type: MemoryType)
        ensures
            memory_type == memory_type_of(self.type_code()),
    {
        match self.mem_type {
            1 => MemoryType::AddressRangeMemory,
            2 => MemoryType::AddressRangeReserved,
            _ => MemoryType::Unknown,
        }
    }
}

/// A position in a run of descriptors: the address of the descriptor that
/// was given out last, or of the one before the first.
#[derive(Debug, Clone, Copy, PartialEq, Eq, Structural)]
pub struct MemoryMapIter {
    cur_tag_address: u64,
    tag_size: u64,
}

/// Whether a descriptor follows the one at `address`: the 24 bytes behind
/// it lie within the memory, and the start address in them is not below the
/// one at `address`.
pub open spec fn has_next(memory: Seq<u8>, address: int) -> bool {
    &&& address + 2 * TAG_SIZE <= memory.len()
    &&& le_u64(memory, address + TAG_SIZE) >= le_u64(memory, address)
}

impl MemoryMapIter {
    /// Address of the descriptor that the walk stands on.
    pub closed spec fn address(&self) -> u64 {
        self.cur_tag_address
    }

    #[verifier::type_invariant]
    spec fn evenly_spaced(&self) -> bool {
        self.tag_size == TAG_SIZE
    }

    /// Steps on to the next descriptor and gives it, if one follows.
    /// `memory` holds the bytes from address 0 on.
    pub fn next(&mut self, memory: &[u8]) -> (tag: Option<MemoryTag>)
        ensures
            match tag {
                Some(found) => {
                    &&& has_next(memory@, old(self).address() as int)
                    &&& final(self).address() == old(self).address() + TAG_SIZE
                    &&& found.lies_at(memory@, final(self).address() as int)
                },
                None => !has_next(memory@, old(self).address() as int) && *final(self) == *old(
                    self,
                ),
            },
    {
        proof {
            use_type_invariant(&*self);
        }
        let len: usize = memory.len();
        if self.cur_tag_address > 0xffff_ffff_ffff_ffff - 2 * self.tag_size {
            return None;
        }
        let next_tag_addr: u64 = self.cur_tag_address + self.tag_size;
        if next_tag_addr + self.tag_size > len as u64 {
            return None;
        }
        let cur: usize = self.cur_tag_address as usize;
        let next: usize = next_tag_addr as usize;
        if read_u64(memory, next) < read_u64(memory, cur) {
            None
        } else {
            self.cur_tag_address = next_tag_addr;
            Some(
                MemoryTag {
                    start_address: read_u64(memory, next),
                    length: read_u64(memory, next + 8),
                    mem_type: read_u32(memory, next + 16),
                    _reversed: read_u32(memory, next + 20),
                },
            )
        }
    }
}

/// A walk that stands on the descriptor at `start_address`: the first
/// descriptor that it gives out is the one behind that.
pub fn iterate_memory_map(start_address: u64) -> (walk: MemoryMapIter)
    ensures
        walk.address() == start_address,
{
    MemoryMapIter { cur_tag_address: start_address, tag_size: 24 }
}

} // verus!
