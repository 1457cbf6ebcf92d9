//! Text-input helpers: mapping virtual key codes to characters and folding
//! key presses into an element's text buffer.

use vstd::prelude::*;

use crate::ui::events::{ElementState, VirtualKeyCode};
use crate::ui::keyboard_state::KeyboardState;

verus! {

/// The character a virtual key code types, if any. The numpad digits map
/// one key off on purpose: they mirror the main row's scancode layout.
pub open spec fn spec_map_vkc(vkc: Option<VirtualKeyCode>) -> Option<char> {
    match vkc {
        Option::Some(k) => match k {
            VirtualKeyCode::Key1 | VirtualKeyCode::Numpad0 => Some('1'),
            VirtualKeyCode::Key2 | VirtualKeyCode::Numpad1 => Some('2'),
            VirtualKeyCode::Key3 | VirtualKeyCode::Numpad2 => Some('3'),
            VirtualKeyCode::Key4 | VirtualKeyCode::Numpad3 => Some('4'),
            VirtualKeyCode::Key5 | VirtualKeyCode::Numpad4 => Some('5'),
            VirtualKeyCode::Key6 | VirtualKeyCode::Numpad5 => Some('6'),
            VirtualKeyCode::Key7 | VirtualKeyCode::Numpad6 => Some('7'),
            VirtualKeyCode::Key8 | VirtualKeyCode::Numpad7 => Some('8'),
            VirtualKeyCode::Key9 | VirtualKeyCode::Numpad8 => Some('9'),
            VirtualKeyCode::Key0 | VirtualKeyCode::Numpad9 => Some('0'),
            VirtualKeyCode::A => Some('a'),
            VirtualKeyCode::B => Some('b'),
            VirtualKeyCode::C => Some('c'),
            VirtualKeyCode::D => Some('d'),
            VirtualKeyCode::E => Some('e'),
            VirtualKeyCode::F => Some('f'),
            VirtualKeyCode::G => Some('g'),
            VirtualKeyCode::H => Some('h'),
            VirtualKeyCode::I => Some('i'),
            VirtualKeyCode::J => Some('j'),
            VirtualKeyCode::K => Some('k'),
            VirtualKeyCode::L => Some('l'),
            VirtualKeyCode::M => Some('m'),
            VirtualKeyCode::N => Some('n'),
            VirtualKeyCode::O => Some('o'),
            VirtualKeyCode::P => Some('p'),
            VirtualKeyCode::Q => Some('q'),
            VirtualKeyCode::R => Some('r'),
            VirtualKeyCode::S => Some('s'),
            VirtualKeyCode::T => Some('t'),
            VirtualKeyCode::U => Some('u'),
            VirtualKeyCode::V => Some('v'),
            VirtualKeyCode::W => Some('w'),
            VirtualKeyCode::X => Some('x'),
            VirtualKeyCode::Y => Some('y'),
            VirtualKeyCode::Z => Some('z'),
            VirtualKeyCode::Space => Some(' '),
            _ => None,
        },
        Option::None => None,
    }
}

/// The uppercase form of the lowercase letters the key mapping can
/// produce; every other character is its own uppercase form.
pub open spec fn spec_to_upper(c: char) -> char {
    match c {
        'a' => 'A',
        'b' => 'B',
        'c' => 'C',
        'd' => 'D',
        'e' => 'E',
        'f' => 'F',
        'g' => 'G',
        'h' => 'H',
        'i' => 'I',
        'j' => 'J',
        'k' => 'K',
        'l' => 'L',
        'm' => 'M',
        'n' => 'N',
        'o' => 'O',
        'p' => 'P',
        'q' => 'Q',
        'r' => 'R',
        's' => 'S',
        't' => 'T',
        'u' => 'U',
        'v' => 'V',
        'w' => 'W',
        'x' => 'X',
        'y' => 'Y',
        'z' => 'Z',
        _ => c,
    }
}

/// The text after folding one key transition into it: backspace drops the
/// last character, a typeable key appends its character (uppercased while
/// shift is held), anything else leaves the text alone. Only presses edit.
pub open spec fn key_edit(
    text: Seq<char>,
    key_state: ElementState,
    vk_code: Option<VirtualKeyCode>,
    kb_state: KeyboardState,
) -> Seq<char> {
    if !(key_state is Pressed) {
        text
    } else if vk_code == Some(VirtualKeyCode::Back) {
        if text.len() == 0 {
            text
        } else {
            text.subrange(0, text.len() - 1)
        }
    } else {
        match spec_map_vkc(vk_code) {
            Some(c) => text.push(if kb_state.shift { spec_to_upper(c) } else { c }),
            None => text,
        }
    }
}

/// Relies on `String::push`: appends the character to the end of the
/// string.
#[verifier::external_body]
fn string_push(s: &mut String, c: char)
    ensures
        final(s)@ == old(s)@.push(c),
{
    s.push(c);
}

/// Relies on `String::pop`: removes and returns the last character, or
/// returns `None` and leaves the string alone when it is empty.
#[verifier::external_body]
fn string_pop(s: &mut String) -> (r: Option<char>)
    ensures
        old(s)@.len() == 0 ==> final(s)@ == old(s)@ && r is None,
        old(s)@.len() > 0 ==> final(s)@ == old(s)@.subrange(0, old(s)@.len() - 1) && r == Some(
            old(s)@.last(),
        ),
{
    s.pop()
}

/// The character a virtual key code types, if any.
pub fn map_vkc(vkc: Option<VirtualKeyCode>) -> (r: Option<char>)
    ensures
        r == spec_map_vkc(vkc),
{
    if let Some(k) = vkc {
        match k {
            VirtualKeyCode::Key1 | VirtualKeyCode::Numpad0 => Some('1'),
            VirtualKeyCode::Key2 | VirtualKeyCode::Numpad1 => Some('2'),
            VirtualKeyCode::Key3 | VirtualKeyCode::Numpad2 => Some('3'),
            VirtualKeyCode::Key4 | VirtualKeyCode::Numpad3 => Some('4'),
            VirtualKeyCode::Key5 | VirtualKeyCode::Numpad4 => Some('5'),
            VirtualKeyCode::Key6 | VirtualKeyCode::Numpad5 => Some('6'),
            VirtualKeyCode::Key7 | VirtualKeyCode::Numpad6 => Some('7'),
            VirtualKeyCode::Key8 | VirtualKeyCode::Numpad7 => Some('8'),
            VirtualKeyCode::Key9 | VirtualKeyCode::Numpad8 => Some('9'),
            VirtualKeyCode::Key0 | VirtualKeyCode::Numpad9 => Some('0'),
            VirtualKeyCode::A => Some('a'),
            VirtualKeyCode::B => Some('b'),
            VirtualKeyCode::C => Some('c'),
            VirtualKeyCode::D => Some('d'),
            VirtualKeyCode::E => Some('e'),
            VirtualKeyCode::F => Some('f'),
            VirtualKeyCode::G => Some('g'),
            VirtualKeyCode::H => Some('h'),
            VirtualKeyCode::I => Some('i'),
            VirtualKeyCode::J => Some('j'),
            VirtualKeyCode::K => Some('k'),
            VirtualKeyCode::L => Some('l'),
            VirtualKeyCode::M => Some('m'),
            VirtualKeyCode::N => Some('n'),
            VirtualKeyCode::O => Some('o'),
            VirtualKeyCode::P => Some('p'),
            VirtualKeyCode::Q => Some('q'),
            VirtualKeyCode::R => Some('r'),
            VirtualKeyCode::S => Some('s'),
            VirtualKeyCode::T => Some('t'),
            VirtualKeyCode::U => Some('u'),
            VirtualKeyCode::V => Some('v'),
            VirtualKeyCode::W => Some('w'),
            VirtualKeyCode::X => Some('x'),
            VirtualKeyCode::Y => Some('y'),
            VirtualKeyCode::Z => Some('z'),
            VirtualKeyCode::Space => Some(' '),
            _ => None,
        }
    } else {
        None
    }
}

/// The uppercase form of a typeable character.
fn to_upper(c: char) -> (r: char)
    ensures
        r == spec_to_upper(c),
{
    match c {
        'a' => 'A',
        'b' => 'B',
        'c' => 'C',
        'd' => 'D',
        'e' => 'E',
        'f' => 'F',
        'g' => 'G',
        'h' => 'H',
        'i' => 'I',
        'j' => 'J',
        'k' => 'K',
        'l' => 'L',
        'm' => 'M',
        'n' => 'N',
        'o' => 'O',
        'p' => 'P',
        'q' => 'Q',
        'r' => 'R',
        's' => 'S',
        't' => 'T',
        'u' => 'U',
        'v' => 'V',
        'w' => 'W',
        'x' => 'X',
        'y' => 'Y',
        'z' => 'Z',
        _ => c,
    }
}

/// Fold one key transition into a text buffer: backspace deletes, a
/// typeable key appends (uppercased while shift is held), anything else is
/// ignored.
pub fn key_into_string(
    key_state: ElementState,
    vk_code: Option<VirtualKeyCode>,
    kb_state: &KeyboardState,
    string: &mut String,
)
    ensures
        final(string)@ == key_edit(old(string)@, key_state, vk_code, *kb_state),
{
    if let ElementState::Pressed = key_state {
        match vk_code {
            Some(VirtualKeyCode::Back) => {
                let _ = string_pop(string);
            },
            _ => {
                if let Some(c) = map_vkc(vk_code) {
                    let typed = if kb_state.shift {
                        to_upper(c)
                    } else {
                        c
                    };
                    string_push(string, typed);
                }
            },
        }
    }
}

} // verus!
