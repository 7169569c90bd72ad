//! Decoding of the scan codes that the keyboard sends. The decoding itself
//! is the work of the crate `pc_keyboard`.

use vstd::prelude::*;
use pc_keyboard::{DecodedKey, Error, KeyCode, KeyEvent, Keyboard, ScancodeSet1};
use pc_keyboard::layouts::Us104Key;
use crate::text::push_char;

verus! {

/// A key press or release as `pc_keyboard` reports it. Verus sees nothing
/// inside it.
#[verifier::external_type_specification]
#[verifier::external_body]
pub struct ExKeyEvent(KeyEvent);

/// The error of the decoder of `pc_keyboard`. Verus sees nothing inside it.
#[verifier::external_type_specification]
#[verifier::external_body]
pub struct ExError(Error);

/// The code by which `pc_keyboard` names a key. Verus sees nothing inside
/// it.
#[verifier::external_type_specification]
#[verifier::external_body]
pub struct ExKeyCode(KeyCode);

/// The decoder of `pc_keyboard` for a US keyboard with 104 keys that sends
/// the first set of scan codes. It remembers the scan codes of a key that
/// are still to be completed, and the modifier keys that are held. Verus
/// sees nothing inside it.
#[verifier::external_body]
pub struct ScancodeDecoder {
    keyboard: Keyboard<Us104Key, ScancodeSet1>,
}

/// A key that was pressed.
#[derive(Debug, Copy, Clone, PartialEq, Eq)]
pub enum Key {
    /// A key that stands for a character.
    Unicode(char),
    /// A key that stands for no character.
    RawKey(KeyCode),
}

/// `Keyboard::new` of `pc_keyboard`, for the layout `Us104Key` and the scan
/// codes `ScancodeSet1`. Nothing is claimed of the decoder it makes.
#[verifier::external_body]
fn new_decoder() -> ScancodeDecoder {
    ScancodeDecoder { keyboard: Keyboard::new(Us104Key, ScancodeSet1) }
}

/// `Keyboard::add_byte` of `pc_keyboard`. What it returns depends on the
/// bytes that the decoder was given before: nothing is claimed of it.
#[verifier::external_body]
fn add_byte(decoder: &mut ScancodeDecoder, byte: u8) -> Result<Option<KeyEvent>, Error> {
    decoder.keyboard.add_byte(byte)
}

/// `Keyboard::process_keyevent` of `pc_keyboard`, its result moved into a
/// `Key`. What it returns depends on the modifier keys that the decoder has
/// seen: nothing is claimed of it.
#[verifier::external_body]
fn process_keyevent(decoder: &mut ScancodeDecoder, event: KeyEvent) -> Option<Key> {
    match decoder.keyboard.process_keyevent(event) {
        Some(DecodedKey::Unicode(character)) => Some(Key::Unicode(character)),
        Some(DecodedKey::RawKey(code)) => Some(Key::RawKey(code)),
        None => None,
    }
}

/// The name of a key code as the `Debug` impl of `pc_keyboard` writes it.
/// Nothing is claimed of the text.
#[verifier::external_body]
fn key_code_text(code: &KeyCode) -> String {
    format!("{:?}", code)
}

impl ScancodeDecoder {
    /// A decoder that has seen no scan code yet.
    pub fn new() -> ScancodeDecoder {
        new_decoder()
    }

    /// Takes one byte of scan code and gives the key that it completes the
    /// press of, if any. Whether a byte is refused, awaits more bytes or
    /// completes a key is for `pc_keyboard` to say; what is done with its
    /// answer is what `pressed_key` states.
    pub fn decode(&mut self, scancode: u8) -> (key: Option<Key>) {
        let added: Result<Option<KeyEvent>, Error> = add_byte(self, scancode);
        self.pressed_key(added)
    }

    /// What comes of a byte once the decoder has answered for it. Only a
    /// key event is looked at further: it goes back to the decoder, which
    /// says whether it is the press of a key and which. A byte that was
    /// refused and a byte that completes no key event give no key and leave
    /// the decoder as it is.
    pub fn pressed_key(&mut self, added: Result<Option<KeyEvent>, Error>) -> (key: Option<Key>)
        ensures
            !(added matches Ok(Some(_))) ==> key is None && *final(self) == *old(self),
    {
        match added {
            Ok(Some(key_event)) => process_keyevent(self, key_event),
            _ => None,
        }
    }
}

impl Key {
    /// What is shown for the key: the character for which it stands, or
    /// else the name of its key code.
    pub fn text(&self) -> (text: String)
        ensures
            *self matches Key::Unicode(character) ==> text@ == seq![character],
    {
        match self {
            Key::Unicode(character) => {
                let mut text: String = String::new();
                push_char(&mut text, *character);
                text
            },
            Key::RawKey(code) => key_code_text(code),
        }
    }
}

} // verus!
