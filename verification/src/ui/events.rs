//! The closed set of raw input events the pane can classify.
//!
//! These are plain-value stand-ins for the platform event types: the
//! embedding layer converts whatever its windowing library produces into
//! this form before calling into the pane, and converts back on the way out.

use vstd::prelude::*;

verus! {

/// Pressed-or-released state of a key or mouse button.
#[derive(Clone, Copy, Debug, PartialEq, Eq, Structural)]
pub enum ElementState {
    Pressed,
    Released,
}

/// A mouse button: the three first-class buttons plus an open-ended set of
/// numbered "other" buttons.
#[derive(Clone, Copy, Debug, PartialEq, Eq, Structural)]
pub enum MouseButton {
    Left,
    Right,
    Middle,
    Other(u8),
}

/// The symbolic keys the widget layer can interpret: the printable keys the
/// text-input mapping knows, the modifier keys, and editing keys.
#[derive(Clone, Copy, Debug, PartialEq, Eq, Structural)]
pub enum VirtualKeyCode {
    Key0,
    Key1,
    Key2,
    Key3,
    Key4,
    Key5,
    Key6,
    Key7,
    Key8,
    Key9,
    Numpad0,
    Numpad1,
    Numpad2,
    Numpad3,
    Numpad4,
    Numpad5,
    Numpad6,
    Numpad7,
    Numpad8,
    Numpad9,
    A,
    B,
    C,
    D,
    E,
    F,
    G,
    H,
    I,
    J,
    K,
    L,
    M,
    N,
    O,
    P,
    Q,
    R,
    S,
    T,
    U,
    V,
    W,
    X,
    Y,
    Z,
    Space,
    Back,
    Return,
    Escape,
    Tab,
    LShift,
    RShift,
    LControl,
    RControl,
    LAlt,
    RAlt,
}

/// One raw input event, already reduced to plain values.
///
/// Unrecognized platform events are classified as `Other`; the pane passes
/// them through untouched. A scroll event's delta carries no pane semantics,
/// so it is not represented here: the caller keeps the raw event alongside
/// and reads the delta from it when the remainder reports a pass-through.
#[derive(Clone, Copy, Debug, PartialEq, Eq)]
pub enum Event {
    /// The surface was resized to the given pixel dimensions.
    Resized(u32, u32),
    /// A key transition: state, platform scancode, optional symbolic key.
    KeyboardInput {
        state: ElementState,
        scancode: u32,
        virtual_keycode: Option<VirtualKeyCode>,
    },
    /// A mouse-button transition.
    MouseInput { state: ElementState, button: MouseButton },
    /// The pointer moved to the given pixel position.
    CursorMoved { x: i32, y: i32 },
    /// A scalar scroll; passed straight through to the caller.
    MouseWheel,
    /// Anything else; passed straight through to the caller.
    Other,
}

} // verus!
