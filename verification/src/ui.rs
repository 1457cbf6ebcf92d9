//! The widget layer: input-state trackers, elements, and the event-dispatch
//! pane.

pub mod controls;
pub mod element;
pub mod enums;
pub mod fixedpoint;
pub mod functions;
pub mod keyboard_state;
pub mod events;
pub mod mouse_state;
pub mod pane;
pub mod shape_2d;
pub mod traits;
pub mod vertex;
