//! The boundaries where caller logic plugs into the pane: remainder
//! construction, per-element event handlers, focus notification, and the
//! geometry sink that receives regenerated vertex data.

use vstd::prelude::*;

use crate::ui::enums::UiRequest;
use crate::ui::events::{ElementState, Event, MouseButton, VirtualKeyCode};
use crate::ui::keyboard_state::KeyboardState;
use crate::ui::vertex::Vertex;

verus! {

/// Something that can be told it gained or lost mouse focus, such as the
/// caller's background object.
pub trait SetMouseFocus {
    fn set_mouse_focus(&mut self, focus: bool);
}

/// The caller-defined value the pane returns from every dispatch: a
/// default "nothing of interest happened", a wrapper around an event that
/// reached the background unclaimed, and a dedicated "closed" value for
/// the quit hotkey.
///
/// The three spec functions let an implementation say which values count
/// as which, so the pane's contracts can name them.
pub trait EventRemainder: Sized {
    /// Which values mean "nothing of interest happened".
    spec fn is_default(&self) -> bool;

    /// Which values wrap the given unclaimed event.
    spec fn is_event(&self, event: Event) -> bool;

    /// Which values report the quit hotkey.
    spec fn is_closed(&self) -> bool;

    /// The "nothing of interest happened" value.
    fn default_value() -> (r: Self)
        ensures
            r.is_default(),
    ;

    /// Wrap an event that no element claimed.
    fn event(event: Event) -> (r: Self)
        ensures
            r.is_event(event),
    ;

    /// The value reporting that the quit hotkey fired.
    fn closed() -> (r: Self)
        ensures
            r.is_closed(),
    ;
}

/// A caller-supplied mouse handler attached to one element. The returned
/// pair carries an instruction for the pane and a remainder for the
/// caller.
pub trait MouseEventHandler<R>: Sized {
    fn handle(&mut self, state: ElementState, button: MouseButton) -> (UiRequest, R);
}

/// A caller-supplied keyboard handler attached to one element; it may edit
/// the element's text buffer in place.
pub trait KeyboardEventHandler<R>: Sized {
    fn handle(
        &mut self,
        key_state: ElementState,
        vk_code: Option<VirtualKeyCode>,
        kb_state: &KeyboardState,
        text: &mut String,
    ) -> (UiRequest, R);
}

/// The render-side collaborator: accepts complete replacement vertex and
/// index lists whenever the pane invalidates its geometry. There is no
/// partial-update path on purpose.
pub trait GeometrySink {
    /// Accept the one-time initial upload of both buffers.
    fn init_buffers(&mut self, vertices: &Vec<Vertex>, indices: &Vec<u16>);

    /// Accept a full replacement of the vertex buffer.
    fn write_vertices(&mut self, vertices: &Vec<Vertex>);
}

/// A caller-defined remainder payload that can be boxed, cloned and
/// printed.
pub trait CustomEventRemainder: CustomEventRemainderClone + CustomEventRemainderDebug {

}

/// Cloning capability for boxed custom remainders.
pub trait CustomEventRemainderClone: Sized {
    fn clone_box(&self) -> Box<Self>;
}

/// Printing capability for boxed custom remainders.
pub trait CustomEventRemainderDebug {
    /// The rendered debug text.
    fn debug_string(&self) -> String;
}

} // verus!
