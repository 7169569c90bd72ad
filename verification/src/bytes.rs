//! Numbers as the machine keeps them in memory: the lowest byte first.

use vstd::prelude::*;

verus! {

/// The number that the eight bytes from `at` on hold.
pub open spec fn le_u64(bytes: Seq<u8>, at: int) -> u64 {
    (bytes[at] + bytes[at + 1] * 0x100 + bytes[at + 2] * 0x1_0000 + bytes[at + 3] * 0x100_0000
        + bytes[at + 4] * 0x1_0000_0000 + bytes[at + 5] * 0x100_0000_0000 + bytes[at + 6]
        * 0x1_0000_0000_0000 + bytes[at + 7] * 0x100_0000_0000_0000) as u64
}

/// The number that the four bytes from `at` on hold.
pub open spec fn le_u32(bytes: Seq<u8>, at: int) -> u32 {
    (bytes[at] + bytes[at + 1] * 0x100 + bytes[at + 2] * 0x1_0000 + bytes[at + 3]
        * 0x100_0000) as u32
}

/// The number that the two bytes from `at` on hold.
pub open spec fn le_u16(bytes: Seq<u8>, at: int) -> u16 {
    (bytes[at] + bytes[at + 1] * 0x100) as u16
}

/// The two bytes of a number of 16 bits.
pub open spec fn u16_bytes(value: u16) -> Seq<u8> {
    seq![(value % 0x100) as u8, (value / 0x100) as u8]
}

/// The four bytes of a number of 32 bits.
pub open spec fn u32_bytes(value: u32) -> Seq<u8> {
    seq![
        (value % 0x100) as u8,
        ((value / 0x100) % 0x100) as u8,
        ((value / 0x1_0000) % 0x100) as u8,
        (value / 0x100_0000) as u8,
    ]
}

/// The eight bytes of a number of 64 bits.
pub open spec fn u64_bytes(value: u64) -> Seq<u8> {
    seq![
        (value % 0x100) as u8,
        ((value / 0x100) % 0x100) as u8,
        ((value / 0x1_0000) % 0x100) as u8,
        ((value / 0x100_0000) % 0x100) as u8,
        ((value / 0x1_0000_0000) % 0x100) as u8,
        ((value / 0x100_0000_0000) % 0x100) as u8,
        ((value / 0x1_0000_0000_0000) % 0x100) as u8,
        (value / 0x100_0000_0000_0000) as u8,
    ]
}

/// The bytes of a number hold that number.
pub proof fn lemma_bytes_round_trip(short: u16, word: u32, long: u64)
    ensures
        le_u16(u16_bytes(short), 0) == short,
        le_u32(u32_bytes(word), 0) == word,
        le_u64(u64_bytes(long), 0) == long,
{
    assert(short == short % 0x100 + (short / 0x100) * 0x100);
    assert(word == word % 0x100 + ((word / 0x100) % 0x100) * 0x100 + ((word / 0x1_0000) % 0x100)
        * 0x1_0000 + (word / 0x100_0000) * 0x100_0000) by (bit_vector);
    assert(long == long % 0x100 + ((long / 0x100) % 0x100) * 0x100 + ((long / 0x1_0000) % 0x100)
        * 0x1_0000 + ((long / 0x100_0000) % 0x100) * 0x100_0000 + ((long / 0x1_0000_0000) % 0x100)
        * 0x1_0000_0000 + ((long / 0x100_0000_0000) % 0x100) * 0x100_0000_0000 + ((long
        / 0x1_0000_0000_0000) % 0x100) * 0x1_0000_0000_0000 + (long / 0x100_0000_0000_0000)
        * 0x100_0000_0000_0000) by (bit_vector);
}

pub(crate) fn read_u64(bytes: &[u8], at: usize) -> (value: u64)
    requires
        at + 8 <= bytes.len(),
    ensures
        value == le_u64(bytes@, at as int),
{
    (bytes[at] as u64) + (bytes[at + 1] as u64) * 0x100 + (bytes[at + 2] as u64) * 0x1_0000 + (
    bytes[at + 3] as u64) * 0x100_0000 + (bytes[at + 4] as u64) * 0x1_0000_0000 + (bytes[at
        + 5] as u64) * 0x100_0000_0000 + (bytes[at + 6] as u64) * 0x1_0000_0000_0000 + (bytes[at
        + 7] as u64) * 0x100_0000_0000_0000
}

pub(crate) fn read_u32(bytes: &[u8], at: usize) -> (value: u32)
    requires
        at + 4 <= bytes.len(),
    ensures
        value == le_u32(bytes@, at as int),
{
    (bytes[at] as u32) + (bytes[at + 1] as u32) * 0x100 + (bytes[at + 2] as u32) * 0x1_0000 + (
    bytes[at + 3] as u32) * 0x100_0000
}

/// Appends the two bytes of `value`.
pub(crate) fn push_u16(bytes: &mut Vec<u8>, value: u16)
    ensures
        final(bytes)@ == old(bytes)@ + u16_bytes(value),
{
    bytes.push((value % 0x100) as u8);
    bytes.push((value / 0x100) as u8);
    assert(bytes@ =~= old(bytes)@ + u16_bytes(value));
}

/// Appends the four bytes of `value`.
pub(crate) fn push_u32(bytes: &mut Vec<u8>, value: u32)
    ensures
        final(bytes)@ == old(bytes)@ + u32_bytes(value),
{
    bytes.push((value % 0x100) as u8);
    bytes.push(((value / 0x100) % 0x100) as u8);
    bytes.push(((value / 0x1_0000) % 0x100) as u8);
    bytes.push((value / 0x100_0000) as u8);
    assert(bytes@ =~= old(bytes)@ + u32_bytes(value));
}

/// Appends the eight bytes of `value`.
pub(crate) fn push_u64(bytes: &mut Vec<u8>, value: u64)
    ensures
        final(bytes)@ == old(bytes)@ + u64_bytes(value),
{
    bytes.push((value % 0x100) as u8);
    bytes.push(((value / 0x100) % 0x100) as u8);
    bytes.push(((value / 0x1_0000) % 0x100) as u8);
    bytes.push(((value / 0x100_0000) % 0x100) as u8);
    bytes.push(((value / 0x1_0000_0000) % 0x100) as u8);
    bytes.push(((value / 0x100_0000_0000) % 0x100) as u8);
    bytes.push(((value / 0x1_0000_0000_0000) % 0x100) as u8);
    bytes.push((value / 0x100_0000_0000_0000) as u8);
    assert(bytes@ =~= old(bytes)@ + u64_bytes(value));
}

} // verus!
