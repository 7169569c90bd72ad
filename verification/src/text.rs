//! Building text one character at a time.

use vstd::prelude::*;
use vstd::string::StringExecFns;

verus! {

/// `String::push` of std: appends the character to the end of the string.
#[verifier::external_body]
pub(crate) fn push_char(text: &mut String, character: char)
    ensures
        final(text)@ == old(text)@.push(character),
{
    text.push(character)
}

/// The characters with the codes of the given bytes.
pub open spec fn chars_of(bytes: Seq<u8>) -> Seq<char> {
    Seq::new(bytes.len(), |i: int| bytes[i] as char)
}

/// The text whose characters have the codes of the given bytes.
pub fn text_of_bytes(bytes: &[u8]) -> (text: String)
    ensures
        text@ == chars_of(bytes@),
{
    let mut text: String = String::new();
    let mut at: usize = 0;
    while at < bytes.len()
        invariant
            at <= bytes.len(),
            text@ == chars_of(bytes@.take(at as int)),
        decreases bytes.len() - at,
    {
        push_char(&mut text, bytes[at] as char);
        proof {
            assert(text@ =~= chars_of(bytes@.take(at + 1)));
        }
        at += 1;
    }
    proof {
        assert(bytes@.take(at as int) =~= bytes@);
    }
    text
}

/// The character that stands for a digit: `0` to `9` for the values below
/// ten, `A` to `F` for the values from ten to fifteen.
pub open spec fn digit_of(value: int) -> char {
    if value < 10 {
        (0x30 + value) as char
    } else {
        (0x41 + value - 10) as char
    }
}

/// The last `count` digits of `value` to the base 16, the highest first,
/// with zeros in front where the value has fewer digits.
pub open spec fn hex_digits(value: int, count: nat) -> Seq<char>
    decreases count,
{
    if count == 0 {
        Seq::empty()
    } else {
        hex_digits(value / 16, (count - 1) as nat).push(digit_of(value % 16))
    }
}

/// The digits of `value` to the base 10, the highest first, without zeros
/// in front.
pub open spec fn decimal(value: int) -> Seq<char>
    decreases value,
{
    if value < 10 {
        seq![digit_of(value)]
    } else {
        decimal(value / 10).push(digit_of(value % 10))
    }
}

/// The digits of `value` to the base 16, the highest first, without zeros
/// in front.
pub open spec fn hexadecimal(value: int) -> Seq<char>
    decreases value,
{
    if value < 16 {
        seq![digit_of(value)]
    } else {
        hexadecimal(value / 16).push(digit_of(value % 16))
    }
}

fn digit(value: u8) -> (character: char)
    requires
        value < 16,
    ensures
        character == digit_of(value as int),
{
    if value < 10 {
        (0x30 + value) as char
    } else {
        (0x41 + value - 10) as char
    }
}

/// Appends `more`.
pub(crate) fn push_text(text: &mut String, more: &str)
    ensures
        final(text)@ == old(text)@ + more@,
{
    text.append(more);
}

/// Appends the last `count` hexadecimal digits of `value`.
pub(crate) fn push_hex(text: &mut String, value: u64, count: u8)
    ensures
        final(text)@ == old(text)@ + hex_digits(value as int, count as nat),
    decreases count,
{
    if count > 0 {
        push_hex(text, value / 16, count - 1);
        push_char(text, digit((value % 16) as u8));
    }
    proof {
        assert(text@ =~= old(text)@ + hex_digits(value as int, count as nat));
    }
}

/// Appends the decimal digits of `value`.
pub(crate) fn push_decimal(text: &mut String, value: u128)
    ensures
        final(text)@ == old(text)@ + decimal(value as int),
    decreases value,
{
    if value < 10 {
        push_char(text, digit(value as u8));
    } else {
        push_decimal(text, value / 10);
        push_char(text, digit((value % 10) as u8));
    }
    proof {
        assert(text@ =~= old(text)@ + decimal(value as int));
    }
}

/// Appends the hexadecimal digits of `value`.
pub(crate) fn push_hexadecimal(text: &mut String, value: u64)
    ensures
        final(text)@ == old(text)@ + hexadecimal(value as int),
    decreases value,
{
    if value < 16 {
        push_char(text, digit(value as u8));
    } else {
        push_hexadecimal(text, value / 16);
        push_char(text, digit((value % 16) as u8));
    }
    proof {
        assert(text@ =~= old(text)@ + hexadecimal(value as int));
    }
}

} // verus!
