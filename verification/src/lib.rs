//! A minimal retained-mode widget layer for interactive 2D overlays.
//!
//! Given a stream of raw input events (pointer motion, pointer buttons, key
//! presses, resize), the pane-level state machine decides which interface
//! element currently owns mouse focus and which owns keyboard focus, routes
//! each event to that element's handler, and hands whatever the handler did
//! not consume back to the caller as a generic "remainder" value.
//!
//! GPU rendering, window creation and text rasterization are collaborator
//! capabilities behind the `GeometrySink` boundary and the handler traits;
//! the focus-coordination and dispatch logic itself is verified.

pub mod ui;

pub use self::ui::controls::{HexButton, RectButton, TextBox, TextField};
pub use self::ui::element::{Element, ElementBorder, ElementKind, Region};
pub use self::ui::enums::{EventRemainderOld, HandlerOption, TextAlign, UiRequest};
pub use self::ui::events::{ElementState, Event, MouseButton, VirtualKeyCode};
pub use self::ui::functions::{key_into_string, map_vkc};
pub use self::ui::keyboard_state::KeyboardState;
pub use self::ui::mouse_state::{MouseState, NormPoint};
pub use self::ui::pane::Pane;
pub use self::ui::shape_2d::Shape2d;
pub use self::ui::traits::{
    CustomEventRemainder, CustomEventRemainderClone, CustomEventRemainderDebug, EventRemainder,
    GeometrySink, KeyboardEventHandler, MouseEventHandler, SetMouseFocus,
};
pub use self::ui::vertex::Vertex;
