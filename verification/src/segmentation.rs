//! Segment selectors and privilege levels.

use vstd::prelude::*;

verus! {

/// One of the four protection rings.
#[derive(Debug, Copy, Clone, PartialEq, Eq, Structural)]
pub enum PrivilegeLevel {
    Ring0,
    Ring1,
    Ring2,
    Ring3,
}

impl PrivilegeLevel {
    /// Number of the ring.
    pub open spec fn number(self) -> u16 {
        match self {
            PrivilegeLevel::Ring0 => 0,
            PrivilegeLevel::Ring1 => 1,
            PrivilegeLevel::Ring2 => 2,
            PrivilegeLevel::Ring3 => 3,
        }
    }

    /// The ring with the given number. There are four rings: a number above
    /// 3 names none and is not admitted.
    pub fn from_u16(value: u16) -> (level: PrivilegeLevel)
        requires
            value <= 3,
        ensures
            level.number() == value,
    {
        match value {
            0 => PrivilegeLevel::Ring0,
            1 => PrivilegeLevel::Ring1,
            2 => PrivilegeLevel::Ring2,
            _ => PrivilegeLevel::Ring3,
        }
    }

    /// Number of the ring.
    pub fn as_u16(self) -> (value: u16)
        ensures
            value == self.number(),
    {
        match self {
            PrivilegeLevel::Ring0 => 0,
            PrivilegeLevel::Ring1 => 1,
            PrivilegeLevel::Ring2 => 2,
            PrivilegeLevel::Ring3 => 3,
        }
    }
}

/// A selector of a segment: the index of a descriptor in bits 3 to 15, the
/// requested privilege level in bits 0 and 1.
#[derive(Debug, Copy, Clone, PartialEq, Eq, Structural)]
pub struct SegmentSelector(pub u16);

proof fn lemma_selector_fields(index: u16, level: u16)
    by (bit_vector)
    requires
        level <= 3,
    ensures
        (index << 3 | level) == (index % 0x2000) * 8 + level,
        (index << 3 | level) >> 3 == index % 0x2000,
        (index << 3 | level) & 0b11 == level,
{
}

proof fn lemma_selector_parts(bits: u16)
    by (bit_vector)
    ensures
        bits >> 3 == bits / 8,
        bits & 0b11 == bits % 4,
{
}

impl SegmentSelector {
    /// The selector of the descriptor with the given index, for the given
    /// privilege level. The index has 13 bits: higher bits of `index` are
    /// dropped.
    pub fn new(index: u16, rpl: PrivilegeLevel) -> (selector: SegmentSelector)
        ensures
            selector.0 == (index % 0x2000) * 8 + rpl.number(),
            selector.0 / 8 == index % 0x2000,
            selector.0 % 4 == rpl.number(),
    {
        let level: u16 = rpl.as_u16();
        proof {
            lemma_selector_fields(index, level);
            lemma_selector_parts(index << 3 | level);
        }
        SegmentSelector(index << 3 | level)
    }

    /// Index of the descriptor.
    pub fn index(&self) -> (index: u16)
        ensures
            index == self.0 / 8,
    {
        proof {
            lemma_selector_parts(self.0);
        }
        self.0 >> 3
    }

    /// Requested privilege level.
    pub fn rpl(&self) -> (level: PrivilegeLevel)
        ensures
            level.number() == self.0 % 4,
    {
        proof {
            lemma_selector_parts(self.0);
        }
        PrivilegeLevel::from_u16(self.0 & 0b11)
    }
}

} // verus!
