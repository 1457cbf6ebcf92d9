//! Modifier-key state, updated from every keyboard event's virtual key
//! code.

use vstd::prelude::*;

use crate::ui::events::{ElementState, VirtualKeyCode};

verus! {

/// The modifier keys currently believed held. No debouncing: the flags
/// follow the raw pressed/released transitions.
#[derive(Clone, Copy, Debug, PartialEq, Eq, Structural)]
pub struct KeyboardState {
    pub shift: bool,
    pub control: bool,
    pub alt: bool,
}

/// The modifier state after seeing one key transition: a shift, control or
/// alt key sets its flag to "pressed", every other key leaves the state
/// alone.
pub open spec fn modifiers_updated(
    pre: KeyboardState,
    key_state: ElementState,
    vk_code: Option<VirtualKeyCode>,
) -> KeyboardState {
    let held = key_state is Pressed;
    match vk_code {
        Some(VirtualKeyCode::LShift) | Some(VirtualKeyCode::RShift) => KeyboardState {
            shift: held,
            ..pre
        },
        Some(VirtualKeyCode::LControl) | Some(VirtualKeyCode::RControl) => KeyboardState {
            control: held,
            ..pre
        },
        Some(VirtualKeyCode::LAlt) | Some(VirtualKeyCode::RAlt) => KeyboardState {
            alt: held,
            ..pre
        },
        _ => pre,
    }
}

impl KeyboardState {
    /// A state with no modifier held.
    pub fn new() -> (r: KeyboardState)
        ensures
            r == (KeyboardState { shift: false, control: false, alt: false }),
    {
        KeyboardState { shift: false, control: false, alt: false }
    }

    /// Fold one key transition into the modifier flags.
    pub fn update(&mut self, key_state: ElementState, vk_code: Option<VirtualKeyCode>)
        ensures
            *final(self) == modifiers_updated(*old(self), key_state, vk_code),
    {
        let held = match key_state {
            ElementState::Pressed => true,
            ElementState::Released => false,
        };
        match vk_code {
            Some(VirtualKeyCode::LShift) | Some(VirtualKeyCode::RShift) => {
                self.shift = held;
            },
            Some(VirtualKeyCode::LControl) | Some(VirtualKeyCode::RControl) => {
                self.control = held;
            },
            Some(VirtualKeyCode::LAlt) | Some(VirtualKeyCode::RAlt) => {
                self.alt = held;
            },
            _ => {},
        }
    }
}

} // verus!
