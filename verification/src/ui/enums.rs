//! Small shared enums: handler requests, remainders, handler slots, text
//! alignment.

use vstd::prelude::*;

use crate::ui::events::Event;

verus! {

/// The instructions an element handler may return to influence pane-level
/// focus and redraw state.
#[derive(Clone, Copy, Debug, PartialEq, Eq, Structural)]
pub enum UiRequest {
    /// No instruction.
    NoOp,
    /// Force a geometry regeneration.
    Refresh,
    /// Claim (`true`) or release (`false`) keyboard focus for the element
    /// that returned the request.
    KeyboardFocus(bool),
}

/// A ready-made remainder enum for callers that do not need a custom one.
#[derive(Clone, Copy, Debug, PartialEq, Eq)]
pub enum EventRemainderOld {
    /// Nothing of interest happened.
    Nothing,
    /// The quit hotkey fired.
    Closed,
    /// The pointer moved to this pixel position, unclaimed by any element.
    MousePosition(i32, i32),
    /// A scroll event reached the background.
    MouseWheel,
    /// Some other event reached the background, unclaimed.
    Unhandled(Event),
}

/// An optional handler slot on an element: absent, a handler value, or a
/// delegation to the sub-element with the given index.
#[derive(Clone, Copy, Debug, PartialEq, Eq)]
pub enum HandlerOption<T> {
    Absent,
    Fn(T),
    Sub(usize),
}

/// Horizontal alignment of an element's label.
#[derive(Clone, Copy, Debug, PartialEq, Eq, Structural)]
pub enum TextAlign {
    Center,
    Left,
    Right,
}

impl<T> HandlerOption<T> {
    /// True unless the slot is empty.
    pub fn is_some(&self) -> (r: bool)
        ensures
            r == !(self is Absent),
    {
        if let HandlerOption::Absent = self {
            false
        } else {
            true
        }
    }

    /// A short description of the slot's shape, for diagnostics.
    pub fn debug_string(&self) -> (r: String)
        ensures
            self is Fn ==> r@ == "HandlerOption::Fn(_)"@,
            self matches HandlerOption::Sub(_) ==> r@ == "HandlerOption::Sub(_)"@,
            self is Absent ==> r@ == "HandlerOption::Absent"@,
    {
        match self {
            HandlerOption::Fn(_) => "HandlerOption::Fn(_)".to_owned(),
            HandlerOption::Sub(_) => "HandlerOption::Sub(_)".to_owned(),
            HandlerOption::Absent => "HandlerOption::Absent".to_owned(),
        }
    }
}

} // verus!

verus! {

/// The remainder `EventRemainderOld::event` produces for each raw event:
/// pointer motion and scroll get their dedicated variants, everything
/// else is wrapped whole.
pub open spec fn spec_old_remainder_of(event: Event) -> EventRemainderOld {
    match event {
        Event::CursorMoved { x, y } => EventRemainderOld::MousePosition(x, y),
        Event::MouseWheel => EventRemainderOld::MouseWheel,
        _ => EventRemainderOld::Unhandled(event),
    }
}

impl crate::ui::traits::EventRemainder for EventRemainderOld {
    open spec fn is_default(&self) -> bool {
        *self is Nothing
    }

    open spec fn is_event(&self, event: Event) -> bool {
        *self == spec_old_remainder_of(event)
    }

    open spec fn is_closed(&self) -> bool {
        *self is Closed
    }

    fn default_value() -> (r: Self) {
        EventRemainderOld::Nothing
    }

    fn event(event: Event) -> (r: Self) {
        match event {
            Event::CursorMoved { x, y } => EventRemainderOld::MousePosition(x, y),
            Event::MouseWheel => EventRemainderOld::MouseWheel,
            _ => EventRemainderOld::Unhandled(event),
        }
    }

    fn closed() -> (r: Self) {
        EventRemainderOld::Closed
    }
}

} // verus!
