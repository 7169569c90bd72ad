//! The firmware memory map: a run of 24-byte records, closed by a record of
//! type 0, read into a table of at most twenty memory areas.

use vstd::prelude::*;
use crate::address::{AddressRangeError, PhysAddr, is_physical};
use crate::bytes::{le_u32, le_u64, read_u32, read_u64};
use crate::text::{decimal, hex_digits, push_decimal, push_hex, push_text};

verus! {

/// Address at which the loader leaves the firmware map.
pub const E820_MAP_ADDRESS: u64 = 0x500;

/// Number of areas that the table can hold.
pub const E820_MAX: usize = 20;

/// Number of bytes in one record of the firmware map.
pub const RECORD_SIZE: usize = 24;

/// What the firmware says of a memory area.
#[derive(Debug, Clone, Copy, PartialEq, Eq, Structural)]
pub enum E820Type {
    /// No area: the type of the closing record and of unused table entries.
    Missing,
    Free,
    Reserved,
    Unknown,
}

/// One area of physical memory.
#[derive(Debug, Copy, Clone, PartialEq, Eq, Structural)]
pub struct E820Tag {
    pub base_address: PhysAddr,
    pub size: u64,
    pub mem_type: E820Type,
}

impl E820Type {
    /// Name of the type as the memory map shows it.
    pub open spec fn name(self) -> Seq<char> {
        match self {
            E820Type::Missing => "None"@,
            E820Type::Free => "Free"@,
            E820Type::Reserved => "Reserved"@,
            E820Type::Unknown => "Unknown"@,
        }
    }

    /// Name of the type as the memory map shows it.
    pub fn as_str(&self) -> (name: &'static str)
        ensures
            name@ == self.name(),
    {
        match self {
            E820Type::Missing => "None",
            E820Type::Free => "Free",
            E820Type::Reserved => "Reserved",
            E820Type::Unknown => "Unknown",
        }
    }
}

impl E820Tag {
    /// The entry that fills the unused part of the table.
    pub fn missing() -> (tag: E820Tag)
        ensures
            tag.base_address@ == 0,
            tag.size == 0,
            tag.mem_type == E820Type::Missing,
    {
        E820Tag { base_address: PhysAddr::new_unchecked(0), size: 0, mem_type: E820Type::Missing }
    }

    /// Whether the area is free memory.
    pub fn is_free(&self) -> (free: bool)
        ensures
            free <==> self.mem_type == E820Type::Free,
    {
        self.mem_type == E820Type::Free
    }
}

/// A record as the firmware wrote it.
#[derive(Debug, Copy, Clone, PartialEq, Eq, Structural)]
pub struct RawE820Tag {
    pub base_address: u64,
    pub size: u64,
    pub mem_type: u32,
    pub reserved: u32,
}

/// Number of complete records in `bytes`.
pub open spec fn record_count(bytes: Seq<u8>) -> int {
    bytes.len() as int / 24
}

/// The record with the given index.
pub open spec fn record_at(bytes: Seq<u8>, index: int) -> RawE820Tag {
    RawE820Tag {
        base_address: le_u64(bytes, 24 * index),
        size: le_u64(bytes, 24 * index + 8),
        mem_type: le_u32(bytes, 24 * index + 16),
        reserved: le_u32(bytes, 24 * index + 20),
    }
}

/// The area type that a type code of the firmware stands for.
pub open spec fn type_of_code(code: u32) -> E820Type {
    if code == 0 {
        E820Type::Missing
    } else if code == 1 {
        E820Type::Free
    } else if code == 2 {
        E820Type::Reserved
    } else {
        E820Type::Unknown
    }
}

impl RawE820Tag {
    /// Reads the record with the given index.
    pub fn read(bytes: &[u8], index: usize) -> (raw: RawE820Tag)
        requires
            index < record_count(bytes@),
        ensures
            raw == record_at(bytes@, index as int),
    {
        assert(24 * (index + 1) <= bytes.len()) by {
            assert(24 * (bytes@.len() as int / 24) <= bytes@.len());
        }
        let at: usize = index * RECORD_SIZE;
        RawE820Tag {
            base_address: read_u64(bytes, at),
            size: read_u64(bytes, at + 8),
            mem_type: read_u32(bytes, at + 16),
            reserved: read_u32(bytes, at + 20),
        }
    }

    /// The area type that this record's type code stands for.
    pub fn area_type(&self) -> (mem_type: E820Type)
        ensures
            mem_type == type_of_code(self.mem_type),
    {
        match self.mem_type {
            0 => E820Type::Missing,
            1 => E820Type::Free,
            2 => E820Type::Reserved,
            _ => E820Type::Unknown,
        }
    }
}

/// Why a firmware map was refused.
#[derive(Debug, Copy, Clone, PartialEq, Eq, Structural)]
pub enum E820Error {
    /// A twenty-first area came before the closing record.
    TooManyAreas,
    /// The base of an area is not a physical address.
    InvalidAddress(AddressRangeError),
    /// The bytes end before a closing record.
    Unterminated,
}

/// Record `index` is complete, is not the closing record, and starts at a
/// physical address.
pub open spec fn is_area(bytes: Seq<u8>, index: int) -> bool {
    &&& 0 <= index < record_count(bytes)
    &&& record_at(bytes, index).mem_type != 0
    &&& is_physical(record_at(bytes, index).base_address)
}

/// Where reading stops when it has come to record `from`: at the first
/// record from there that is no area, and at the table's capacity at the
/// latest.
pub open spec fn stored_count(bytes: Seq<u8>, from: int) -> int
    decreases E820_MAX - from,
{
    if 0 <= from < E820_MAX && is_area(bytes, from) {
        stored_count(bytes, from + 1)
    } else {
        from
    }
}

/// What reading `bytes` comes to: the number of areas stored, or the reason
/// the map is refused.
pub open spec fn read_outcome(bytes: Seq<u8>) -> Result<int, E820Error> {
    let stop = stored_count(bytes, 0);
    if stop >= record_count(bytes) {
        Err(E820Error::Unterminated)
    } else if record_at(bytes, stop).mem_type == 0 {
        Ok(stop)
    } else if stop == E820_MAX {
        Err(E820Error::TooManyAreas)
    } else {
        Err(
            E820Error::InvalidAddress(
                AddressRangeError { address: record_at(bytes, stop).base_address },
            ),
        )
    }
}

/// The table entry `tag` holds what the record `raw` says.
pub open spec fn describes(tag: E820Tag, raw: RawE820Tag) -> bool {
    &&& tag.base_address@ == raw.base_address
    &&& tag.size == raw.size
    &&& tag.mem_type == type_of_code(raw.mem_type)
}

/// Sum of the sizes of the given areas.
pub open spec fn sum_of_sizes(areas: Seq<E820Tag>) -> int
    decreases areas.len(),
{
    if areas.len() == 0 {
        0
    } else {
        sum_of_sizes(areas.drop_last()) + areas.last().size
    }
}

/// Reading stops within the table's capacity, every record before the stop
/// is an area, and the record at the stop is none unless the table is full.
pub proof fn lemma_stored_count(bytes: Seq<u8>, from: int)
    requires
        0 <= from <= E820_MAX,
    ensures
        from <= stored_count(bytes, from) <= E820_MAX,
        forall|j: int| from <= j < stored_count(bytes, from) ==> is_area(bytes, j),
        stored_count(bytes, from) < E820_MAX ==> !is_area(bytes, stored_count(bytes, from)),
    decreases E820_MAX - from,
{
    if from < E820_MAX && is_area(bytes, from) {
        lemma_stored_count(bytes, from + 1);
    }
}

/// Reading that has found areas in all records before `reached` stops where
/// reading from `reached` stops.
pub proof fn lemma_stored_count_from(bytes: Seq<u8>, reached: int)
    requires
        0 <= reached <= E820_MAX,
        forall|j: int| 0 <= j < reached ==> is_area(bytes, j),
    ensures
        stored_count(bytes, 0) == stored_count(bytes, reached),
    decreases reached,
{
    if reached > 0 {
        lemma_stored_count_from(bytes, reached - 1);
    }
}

/// A map whose first twenty records are all areas and whose twenty-first
/// record is complete and is not the closing one is refused for holding too
/// many areas.
pub proof fn lemma_twenty_first_area_is_refused(bytes: Seq<u8>)
    requires
        forall|j: int| 0 <= j < E820_MAX ==> is_area(bytes, j),
        E820_MAX < record_count(bytes),
        record_at(bytes, E820_MAX as int).mem_type != 0,
    ensures
        read_outcome(bytes) == Err::<int, E820Error>(E820Error::TooManyAreas),
{
    lemma_stored_count_from(bytes, E820_MAX as int);
}

/// The table of memory areas that the firmware reported, in the order in
/// which it reported them.
#[derive(Debug, Copy, Clone)]
pub struct MemoryMap {
    table: [E820Tag; E820_MAX],
    area_num: usize,
    memory_size: u128,
}

impl View for MemoryMap {
    type V = Seq<E820Tag>;

    closed spec fn view(&self) -> Seq<E820Tag> {
        self.table@.take(self.area_num as int)
    }
}

impl MemoryMap {
    #[verifier::type_invariant]
    spec fn well_formed(self) -> bool {
        &&& self.area_num <= E820_MAX
        &&& self.memory_size == sum_of_sizes(self@)
    }

    /// The table before a firmware map has been read: it holds no area.
    pub fn new() -> (map: MemoryMap)
        ensures
            map@ == Seq::<E820Tag>::empty(),
    {
        let map = MemoryMap { table: [E820Tag::missing();E820_MAX], area_num: 0, memory_size: 0 };
        assert(map@ =~= Seq::<E820Tag>::empty());
        map
    }
}

/// Reads the firmware map in `bytes`: one record after the other up to the
/// closing record, each checked and entered into the table.
pub fn read_e820_map(bytes: &[u8]) -> (read: Result<MemoryMap, E820Error>)
    ensures
        match read {
            Ok(map) => {
                &&& read_outcome(bytes@) == Ok::<int, E820Error>(map@.len() as int)
                &&& map@.len() <= E820_MAX
                &&& forall|j: int|
                    0 <= j < map@.len() ==> describes(#[trigger] map@[j], record_at(bytes@, j))
            },
            Err(e) => read_outcome(bytes@) == Err::<int, E820Error>(e),
        },
{
    let mut table: [E820Tag; E820_MAX] = [E820Tag::missing();E820_MAX];
    let mut area_num: usize = 0;
    let mut memory_size: u128 = 0;
    let records: usize = bytes.len() / RECORD_SIZE;
    loop
        invariant
            records == record_count(bytes@),
            area_num <= E820_MAX,
            forall|j: int| 0 <= j < area_num ==> is_area(bytes@, j),
            forall|j: int|
                0 <= j < area_num ==> describes(#[trigger] table@[j], record_at(bytes@, j)),
            memory_size == sum_of_sizes(table@.take(area_num as int)),
            memory_size <= area_num * 0xffff_ffff_ffff_ffff,
        decreases E820_MAX + 1 - area_num,
    {
        proof {
            lemma_stored_count_from(bytes@, area_num as int);
        }
        if area_num >= records {
            return Err(E820Error::Unterminated);
        }
        let raw: RawE820Tag = RawE820Tag::read(bytes, area_num);
        if raw.mem_type == 0 {
            return Ok(MemoryMap { table, area_num, memory_size });
        }
        if area_num == E820_MAX {
            return Err(E820Error::TooManyAreas);
        }
        match PhysAddr::new(raw.base_address) {
            Err(e) => {
                return Err(E820Error::InvalidAddress(e));
            },
            Ok(base_address) => {
                let ghost before = table@;
                table[area_num] = E820Tag {
                    base_address,
                    size: raw.size,
                    mem_type: raw.area_type(),
                };
                proof {
                    assert(table@.take(area_num + 1).drop_last() =~= before.take(area_num as int));
                }
                memory_size += raw.size as u128;
                area_num += 1;
            },
        }
    }
}

/// Total size in bytes of all areas of the map.
pub fn physical_memory_size(map: &MemoryMap) -> (size: u128)
    ensures
        size == sum_of_sizes(map@),
{
    proof {
        use_type_invariant(map);
    }
    map.memory_size
}

/// Number of areas in the map.
pub fn memory_area_num(map: &MemoryMap) -> (count: usize)
    ensures
        count == map@.len(),
        count <= E820_MAX,
{
    proof {
        use_type_invariant(map);
    }
    map.area_num
}

/// A walk over the areas of the map, in the order of the table.
pub fn all_memory_area(map: &MemoryMap) -> (areas: MemoryAreaIter)
    ensures
        areas@ == map@,
{
    proof {
        use_type_invariant(map);
    }
    MemoryAreaIter { map: *map, loc: 0 }
}

/// The free areas among the given ones, in the same order.
pub open spec fn free_areas(areas: Seq<E820Tag>) -> Seq<E820Tag>
    decreases areas.len(),
{
    if areas.len() == 0 {
        areas
    } else if areas.last().mem_type == E820Type::Free {
        free_areas(areas.drop_last()).push(areas.last())
    } else {
        free_areas(areas.drop_last())
    }
}

/// The free areas are areas of the table, and all of them are free.
pub proof fn lemma_free_areas(areas: Seq<E820Tag>)
    ensures
        free_areas(areas).len() <= areas.len(),
        forall|i: int|
            0 <= i < free_areas(areas).len() ==> (#[trigger] free_areas(areas)[i]).mem_type
                == E820Type::Free && areas.contains(free_areas(areas)[i]),
        forall|j: int|
            0 <= j < areas.len() && (#[trigger] areas[j]).mem_type == E820Type::Free
                ==> free_areas(areas).contains(areas[j]),
    decreases areas.len(),
{
    if areas.len() > 0 {
        let head = areas.drop_last();
        lemma_free_areas(head);
        let last: int = areas.len() - 1;
        assert(areas[last] == areas.last());
        assert forall|i: int| 0 <= i < free_areas(areas).len() implies (#[trigger] free_areas(
            areas,
        )[i]).mem_type == E820Type::Free && areas.contains(free_areas(areas)[i]) by {
            if i < free_areas(head).len() {
                let k = choose|k: int| 0 <= k < head.len() && head[k] == free_areas(head)[i];
                assert(areas[k] == free_areas(head)[i]);
            }
        }
        assert forall|j: int|
            0 <= j < areas.len() && (#[trigger] areas[j]).mem_type
                == E820Type::Free implies free_areas(areas).contains(areas[j]) by {
            if j < head.len() {
                assert(head[j] == areas[j]);
                let k = choose|k: int|
                    0 <= k < free_areas(head).len() && free_areas(head)[k] == head[j];
                assert(free_areas(areas)[k] == areas[j]);
            } else {
                let k: int = free_areas(areas).len() - 1;
                assert(free_areas(areas)[k] == areas[j]);
            }
        }
    }
}

/// A walk over the free areas of the map only, in the order of the table.
pub fn free_memory_area(map: &MemoryMap) -> (areas: MemoryAreaIter)
    ensures
        areas@ == free_areas(map@),
{
    let mut table: [E820Tag; E820_MAX] = [E820Tag::missing();E820_MAX];
    let mut area_num: usize = 0;
    let mut memory_size: u128 = 0;
    let count: usize = memory_area_num(map);
    let mut walk: MemoryAreaIter = all_memory_area(map);
    let mut seen: usize = 0;
    while seen < count
        invariant
            count == map@.len(),
            count <= E820_MAX,
            seen <= count,
            area_num <= seen,
            walk@ == map@.skip(seen as int),
            table@.take(area_num as int) == free_areas(map@.take(seen as int)),
            memory_size == sum_of_sizes(table@.take(area_num as int)),
            memory_size <= area_num * 0xffff_ffff_ffff_ffff,
        decreases count - seen,
    {
        let ghost before = table@;
        proof {
            assert(map@.take(seen + 1).drop_last() =~= map@.take(seen as int));
        }
        match walk.next() {
            Some(tag) => {
                if tag.is_free() {
                    table[area_num] = tag;
                    proof {
                        assert(table@.take(area_num + 1).drop_last() =~= before.take(
                            area_num as int,
                        ));
                        assert(table@.take(area_num + 1) =~= before.take(area_num as int).push(
                            tag,
                        ));
                    }
                    memory_size += tag.size as u128;
                    area_num += 1;
                }
            },
            None => {},
        }
        seen += 1;
    }
    proof {
        assert(map@.take(seen as int) =~= map@);
    }
    let free = MemoryMap { table, area_num, memory_size };
    all_memory_area(&free)
}

/// A position in the table of memory areas. Its view is the sequence of
/// areas that are still to come.
#[derive(Debug, Copy, Clone)]
pub struct MemoryAreaIter {
    map: MemoryMap,
    loc: usize,
}

impl View for MemoryAreaIter {
    type V = Seq<E820Tag>;

    closed spec fn view(&self) -> Seq<E820Tag> {
        self.map@.skip(self.loc as int)
    }
}

impl MemoryAreaIter {
    #[verifier::type_invariant]
    spec fn well_formed(self) -> bool {
        &&& self.map.well_formed()
        &&& self.loc <= self.map.area_num
    }

    /// The next area, if one is left.
    pub fn next(&mut self) -> (area: Option<E820Tag>)
        ensures
            match area {
                Some(tag) => old(self)@.len() > 0 && tag == old(self)@[0] && final(self)@ == old(
                    self,
                )@.skip(1),
                None => old(self)@.len() == 0 && final(self)@ == old(self)@,
            },
    {
        proof {
            use_type_invariant(&*self);
        }
        if self.loc >= self.map.area_num {
            None
        } else {
            let tag: E820Tag = self.map.table[self.loc];
            self.loc += 1;
            Some(tag)
        }
    }
}

/// The text with the line of one area behind it: base address and size in
/// sixteen hexadecimal digits each, and the name of the type.
pub open spec fn with_area_line(text: Seq<char>, area: E820Tag) -> Seq<char> {
    text + "0x"@ + hex_digits(area.base_address@ as int, 16) + "  0x"@ + hex_digits(
        area.size as int,
        16,
    ) + "  "@ + area.mem_type.name() + "\n"@
}

/// The text with the lines of the given areas behind it.
pub open spec fn with_area_lines(text: Seq<char>, areas: Seq<E820Tag>) -> Seq<char>
    decreases areas.len(),
{
    if areas.len() == 0 {
        text
    } else {
        with_area_line(with_area_lines(text, areas.drop_last()), areas.last())
    }
}

/// What is shown of the memory map: a heading, one line for each area, and
/// the total size of the areas in whole mebibytes.
pub open spec fn memory_map_text(areas: Seq<E820Tag>) -> Seq<char> {
    let text = Seq::<char>::empty() + "Memory map:\n"@;
    let text = text + "Start Address       Size                Memory Type         \n"@;
    let text = with_area_lines(text, areas);
    text + "Total memory size: "@ + decimal(sum_of_sizes(areas) / 1024 / 1024) + "MB\n"@
}

/// The text that is shown of the memory map.
pub fn print_memory_map(map: &MemoryMap) -> (text: String)
    ensures
        text@ == memory_map_text(map@),
{
    let mut text: String = String::new();
    push_text(&mut text, "Memory map:\n");
    push_text(&mut text, "Start Address       Size                Memory Type         \n");
    let mut areas: MemoryAreaIter = all_memory_area(map);
    let ghost heading = text@;
    let ghost mut shown: int = 0;
    loop
        invariant
            0 <= shown <= map@.len(),
            areas@ == map@.skip(shown),
            text@ == with_area_lines(heading, map@.take(shown)),
        ensures
            text@ == with_area_lines(heading, map@),
        decreases map@.len() - shown,
    {
        match areas.next() {
            None => {
                proof {
                    assert(map@.take(shown) =~= map@);
                }
                break ;
            },
            Some(tag) => {
                proof {
                    assert(map@.take(shown + 1).drop_last() =~= map@.take(shown));
                    assert(map@.take(shown + 1).last() == tag);
                }
                push_text(&mut text, "0x");
                push_hex(&mut text, tag.base_address.as_u64(), 16);
                push_text(&mut text, "  0x");
                push_hex(&mut text, tag.size, 16);
                push_text(&mut text, "  ");
                push_text(&mut text, tag.mem_type.as_str());
                push_text(&mut text, "\n");
                proof {
                    shown = shown + 1;
                }
            },
        }
    }
    let total_mem_size: u128 = physical_memory_size(map);
    push_text(&mut text, "Total memory size: ");
    push_decimal(&mut text, total_mem_size / 1024 / 1024);
    push_text(&mut text, "MB\n");
    text
}

} // verus!
