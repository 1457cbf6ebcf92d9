//! End-to-end dispatch scenarios: focus coordination, hotkeys, handler
//! routing, and the geometry-refresh protocol.

use std::cell::RefCell;
use std::rc::Rc;

use enamel::{
    Element, ElementKind, ElementState, Event, EventRemainder, EventRemainderOld, GeometrySink,
    KeyboardEventHandler, KeyboardState, MouseButton, MouseEventHandler, Pane, Shape2d, TextBox,
    UiRequest, Vertex, VirtualKeyCode,
};

const ORANGE: (u8, u8, u8, u8) = (245, 102, 0, 255);
const DIMS: (u32, u32) = (600, 800);

/// A mouse handler that reports which element it belongs to and how many
/// times it has run, and always returns a fixed request.
struct TestMouseHandler {
    req: UiRequest,
    marker: i32,
    calls: i32,
}

impl MouseEventHandler<EventRemainderOld> for TestMouseHandler {
    fn handle(&mut self, _state: ElementState, _button: MouseButton) -> (UiRequest, EventRemainderOld) {
        self.calls += 1;
        (self.req, EventRemainderOld::MousePosition(self.marker, self.calls))
    }
}

/// A keyboard handler that types into the element's text buffer and
/// reports the buffer's length.
struct TypingKeyboardHandler;

impl KeyboardEventHandler<EventRemainderOld> for TypingKeyboardHandler {
    fn handle(
        &mut self,
        key_state: ElementState,
        vk_code: Option<VirtualKeyCode>,
        kb_state: &KeyboardState,
        text: &mut String,
    ) -> (UiRequest, EventRemainderOld) {
        enamel::key_into_string(key_state, vk_code, kb_state, text);
        (UiRequest::NoOp, EventRemainderOld::MousePosition(text.len() as i32, -7))
    }
}

/// A sink that counts buffer initializations and vertex rewrites.
struct SharedSink {
    log: Rc<RefCell<(usize, usize)>>,
}

impl GeometrySink for SharedSink {
    fn init_buffers(&mut self, _vertices: &Vec<Vertex>, _indices: &Vec<u16>) {
        self.log.borrow_mut().0 += 1;
    }

    fn write_vertices(&mut self, _vertices: &Vec<Vertex>) {
        self.log.borrow_mut().1 += 1;
    }
}

type TestPane = Pane<TestMouseHandler, TypingKeyboardHandler, SharedSink>;

/// A 1000x1000-millinorm square element centered at `offset_x` millinorm.
fn square(offset_x: i32, marker: i32, req: UiRequest, with_kb: bool) -> Element<TestMouseHandler, TypingKeyboardHandler> {
    let shape = Shape2d::rectangle(1000, 1000, 0, ORANGE);
    let e = Element::new(ElementKind::RectButton, (0, 0, 0), (offset_x, 0, 0), shape)
        .mouse_event_handler(TestMouseHandler { req, marker, calls: 0 });
    if with_kb {
        e.keyboard_event_handler(TypingKeyboardHandler)
    } else {
        e
    }
}

/// Element A covers x in [-500,500], element B covers x in [0,1000]
/// (millinorm); they overlap on [0,500]. A's mouse handler claims
/// keyboard focus, B's releases it.
fn two_element_pane() -> (TestPane, Rc<RefCell<(usize, usize)>>) {
    let log = Rc::new(RefCell::new((0usize, 0usize)));
    let sink = SharedSink { log: log.clone() };
    let pane = Pane::new(DIMS, sink)
        .element(square(0, 10, UiRequest::KeyboardFocus(true), true))
        .element(square(500, 20, UiRequest::KeyboardFocus(false), false));
    assert!(pane.geometry_fits());
    (pane.init(), log)
}

fn motion(x: i32, y: i32) -> Event {
    Event::CursorMoved { x, y }
}

fn press(button: MouseButton) -> Event {
    Event::MouseInput { state: ElementState::Pressed, button }
}

fn release(button: MouseButton) -> Event {
    Event::MouseInput { state: ElementState::Released, button }
}

fn key(state: ElementState, vkc: Option<VirtualKeyCode>) -> Event {
    Event::KeyboardInput { state, scancode: 0, virtual_keycode: vkc }
}

#[test]
fn init_uploads_buffers_once() {
    let (_pane, log) = two_element_pane();
    assert_eq!(log.borrow().0, 1);
    assert_eq!(log.borrow().1, 0);
}

#[test]
fn cursor_motion_passes_through_and_does_not_refocus() {
    let (mut pane, log) = two_element_pane();
    let r: EventRemainderOld = pane.handle_event(motion(300, 400));
    assert_eq!(r, EventRemainderOld::MousePosition(300, 400));
    // Focus resolution is coalesced into the draw cycle.
    assert_eq!(pane.mouse_focus_index(), None);
    assert_eq!(log.borrow().1, 0);
    assert_eq!(pane.mouse_state().position(), (300, 400));
}

#[test]
fn prepare_frame_resolves_focus_and_refreshes_once() {
    let (mut pane, log) = two_element_pane();
    let _: EventRemainderOld = pane.handle_event(motion(300, 400));
    pane.prepare_frame(DIMS);
    assert_eq!(pane.mouse_focus_index(), Some(0));
    assert_eq!(log.borrow().1, 1);
    // A second pass with an unmoved pointer changes nothing.
    pane.prepare_frame(DIMS);
    assert_eq!(pane.mouse_focus_index(), Some(0));
    assert_eq!(log.borrow().1, 1);
}

#[test]
fn first_match_wins_on_overlap() {
    // Pixel (350,400) lies inside both A and B; A is first in
    // registration order and must win.
    let (mut pane, _log) = two_element_pane();
    let _: EventRemainderOld = pane.handle_event(motion(350, 400));
    pane.prepare_frame(DIMS);
    assert_eq!(pane.mouse_focus_index(), Some(0));
    // Outside A, inside B: B wins.
    let _: EventRemainderOld = pane.handle_event(motion(525, 400));
    pane.prepare_frame(DIMS);
    assert_eq!(pane.mouse_focus_index(), Some(1));
}

#[test]
fn click_dispatches_to_focused_element() {
    let (mut pane, _log) = two_element_pane();
    let _: EventRemainderOld = pane.handle_event(motion(300, 400));
    pane.prepare_frame(DIMS);
    let r: EventRemainderOld = pane.handle_event(press(MouseButton::Left));
    // A's handler ran for the first time.
    assert_eq!(r, EventRemainderOld::MousePosition(10, 1));
    let r: EventRemainderOld = pane.handle_event(release(MouseButton::Left));
    assert_eq!(r, EventRemainderOld::MousePosition(10, 2));
}

#[test]
fn press_never_changes_focus_mid_click() {
    let (mut pane, _log) = two_element_pane();
    let _: EventRemainderOld = pane.handle_event(motion(300, 400));
    pane.prepare_frame(DIMS);
    assert_eq!(pane.mouse_focus_index(), Some(0));
    let _: EventRemainderOld = pane.handle_event(press(MouseButton::Left));
    // Drag over to B's exclusive region while the button is held.
    let _: EventRemainderOld = pane.handle_event(motion(525, 400));
    pane.prepare_frame(DIMS);
    assert_eq!(pane.mouse_focus_index(), Some(0));
    let r: EventRemainderOld = pane.handle_event(press(MouseButton::Left));
    // Still A's handler, even though the pointer is over B.
    assert_eq!(r, EventRemainderOld::MousePosition(10, 2));
    assert_eq!(pane.mouse_focus_index(), Some(0));
    // Releasing the button lets resolution run again: B takes over.
    let r: EventRemainderOld = pane.handle_event(release(MouseButton::Left));
    assert_eq!(r, EventRemainderOld::MousePosition(20, 1));
    assert_eq!(pane.mouse_focus_index(), Some(1));
}

#[test]
fn click_grants_keyboard_focus_to_requesting_element() {
    let (mut pane, _log) = two_element_pane();
    let _: EventRemainderOld = pane.handle_event(motion(300, 400));
    pane.prepare_frame(DIMS);
    assert_eq!(pane.keybd_focus_index(), None);
    let _: EventRemainderOld = pane.handle_event(press(MouseButton::Left));
    assert_eq!(pane.keybd_focus_index(), Some(0));
}

#[test]
fn release_request_from_other_element_keeps_keyboard_focus() {
    let (mut pane, _log) = two_element_pane();
    // Give A keyboard focus.
    let _: EventRemainderOld = pane.handle_event(motion(300, 400));
    pane.prepare_frame(DIMS);
    let _: EventRemainderOld = pane.handle_event(press(MouseButton::Left));
    let _: EventRemainderOld = pane.handle_event(release(MouseButton::Left));
    assert_eq!(pane.keybd_focus_index(), Some(0));
    // Click B, whose handler returns a keyboard-focus release. A handler
    // may only release focus for itself, so A keeps it.
    let _: EventRemainderOld = pane.handle_event(motion(525, 400));
    pane.prepare_frame(DIMS);
    let _: EventRemainderOld = pane.handle_event(press(MouseButton::Left));
    assert_eq!(pane.keybd_focus_index(), Some(0));
}

#[test]
fn empty_click_clears_keyboard_focus_with_one_refresh() {
    let (mut pane, log) = two_element_pane();
    // Focus A and give it keyboard focus.
    let _: EventRemainderOld = pane.handle_event(motion(300, 400));
    pane.prepare_frame(DIMS);
    let _: EventRemainderOld = pane.handle_event(press(MouseButton::Left));
    let _: EventRemainderOld = pane.handle_event(release(MouseButton::Left));
    assert_eq!(pane.keybd_focus_index(), Some(0));
    // Move to empty space; the draw pass drops mouse focus.
    let _: EventRemainderOld = pane.handle_event(motion(50, 700));
    pane.prepare_frame(DIMS);
    assert_eq!(pane.mouse_focus_index(), None);
    let before = log.borrow().1;
    let r: EventRemainderOld = pane.handle_event(press(MouseButton::Left));
    // The raw event comes back unchanged, keyboard focus is gone, and
    // exactly one geometry refresh ran.
    assert_eq!(
        r,
        EventRemainderOld::Unhandled(press(MouseButton::Left))
    );
    assert_eq!(pane.keybd_focus_index(), None);
    assert_eq!(log.borrow().1, before + 1);
}

#[test]
fn empty_click_without_keyboard_focus_refreshes_nothing() {
    let (mut pane, log) = two_element_pane();
    let _: EventRemainderOld = pane.handle_event(motion(50, 700));
    pane.prepare_frame(DIMS);
    assert_eq!(pane.mouse_focus_index(), None);
    let before = log.borrow().1;
    let _: EventRemainderOld = pane.handle_event(press(MouseButton::Left));
    assert_eq!(log.borrow().1, before);
}

#[test]
fn keyboard_event_reaches_focused_element_handler() {
    // An element whose mouse handler claims keyboard focus receives the
    // next keyboard event (no control held) in its keyboard handler.
    let (mut pane, _log) = two_element_pane();
    let _: EventRemainderOld = pane.handle_event(motion(300, 400));
    pane.prepare_frame(DIMS);
    let _: EventRemainderOld = pane.handle_event(press(MouseButton::Left));
    assert_eq!(pane.keybd_focus_index(), Some(0));
    let r: EventRemainderOld = pane.handle_event(key(ElementState::Pressed, Some(VirtualKeyCode::A)));
    // The handler typed one character and reported the buffer length.
    assert_eq!(r, EventRemainderOld::MousePosition(1, -7));
    let r: EventRemainderOld = pane.handle_event(key(ElementState::Pressed, Some(VirtualKeyCode::B)));
    assert_eq!(r, EventRemainderOld::MousePosition(2, -7));
}

#[test]
fn keyboard_event_without_focus_passes_through() {
    let (mut pane, _log) = two_element_pane();
    let ev = key(ElementState::Pressed, Some(VirtualKeyCode::A));
    let r: EventRemainderOld = pane.handle_event(ev);
    assert_eq!(r, EventRemainderOld::Unhandled(ev));
}

#[test]
fn control_q_always_yields_closed() {
    let (mut pane, _log) = two_element_pane();
    // Hold control, then press Q: the dedicated "closed" remainder.
    let _: EventRemainderOld = pane.handle_event(key(ElementState::Pressed, Some(VirtualKeyCode::LControl)));
    let r: EventRemainderOld = pane.handle_event(key(ElementState::Pressed, Some(VirtualKeyCode::Q)));
    assert_eq!(r, EventRemainderOld::Closed);
}

#[test]
fn control_q_never_reaches_the_keyboard_handler() {
    let (mut pane, _log) = two_element_pane();
    // Give A keyboard focus first.
    let _: EventRemainderOld = pane.handle_event(motion(300, 400));
    pane.prepare_frame(DIMS);
    let _: EventRemainderOld = pane.handle_event(press(MouseButton::Left));
    let _: EventRemainderOld = pane.handle_event(release(MouseButton::Left));
    // The hotkey fires regardless of focus, and the element's text stays
    // untouched by it.
    let _: EventRemainderOld = pane.handle_event(key(ElementState::Pressed, Some(VirtualKeyCode::LControl)));
    let r: EventRemainderOld = pane.handle_event(key(ElementState::Pressed, Some(VirtualKeyCode::Q)));
    assert_eq!(r, EventRemainderOld::Closed);
    // Release control and type: the buffer starts from length one, so
    // nothing was typed while the hotkey fired.
    let _: EventRemainderOld = pane.handle_event(key(ElementState::Released, Some(VirtualKeyCode::LControl)));
    let r: EventRemainderOld = pane.handle_event(key(ElementState::Pressed, Some(VirtualKeyCode::A)));
    assert_eq!(r, EventRemainderOld::MousePosition(1, -7));
}

#[test]
fn control_with_other_keys_passes_through() {
    let (mut pane, _log) = two_element_pane();
    let _: EventRemainderOld = pane.handle_event(key(ElementState::Pressed, Some(VirtualKeyCode::LControl)));
    let ev = key(ElementState::Pressed, Some(VirtualKeyCode::W));
    let r: EventRemainderOld = pane.handle_event(ev);
    assert_eq!(r, EventRemainderOld::Unhandled(ev));
    // A release of Q under control is not the hotkey either.
    let ev = key(ElementState::Released, Some(VirtualKeyCode::Q));
    let r: EventRemainderOld = pane.handle_event(ev);
    assert_eq!(r, EventRemainderOld::Unhandled(ev));
}

#[test]
fn resize_refreshes_geometry_and_passes_through() {
    let (mut pane, log) = two_element_pane();
    let before = log.borrow().1;
    let r: EventRemainderOld = pane.handle_event(Event::Resized(1024, 768));
    assert_eq!(r, EventRemainderOld::Unhandled(Event::Resized(1024, 768)));
    assert_eq!(log.borrow().1, before + 1);
}

#[test]
fn wheel_and_unknown_events_pass_through() {
    let (mut pane, log) = two_element_pane();
    let r: EventRemainderOld = pane.handle_event(Event::MouseWheel);
    assert_eq!(r, EventRemainderOld::MouseWheel);
    let r: EventRemainderOld = pane.handle_event(Event::Other);
    assert_eq!(r, EventRemainderOld::Unhandled(Event::Other));
    assert_eq!(log.borrow().1, 0);
}

#[test]
fn stale_input_skips_focus_resolution() {
    let (mut pane, _log) = two_element_pane();
    let _: EventRemainderOld = pane.handle_event(motion(300, 400));
    pane.prepare_frame(DIMS);
    assert_eq!(pane.mouse_focus_index(), Some(0));
    // Move over B, then mark the history stale by hand: the next pass
    // keeps the previous answer.
    let _: EventRemainderOld = pane.handle_event(motion(525, 400));
    pane.set_input_stale();
    assert!(pane.input_is_stale());
    pane.prepare_frame(DIMS);
    assert_eq!(pane.mouse_focus_index(), Some(0));
    // A motion to the same coordinate leaves the history stale.
    let _: EventRemainderOld = pane.handle_event(motion(525, 400));
    assert!(pane.input_is_stale());
    pane.prepare_frame(DIMS);
    assert_eq!(pane.mouse_focus_index(), Some(0));
    // A genuine move clears it and resolution runs again.
    let _: EventRemainderOld = pane.handle_event(motion(526, 400));
    assert!(!pane.input_is_stale());
    pane.prepare_frame(DIMS);
    assert_eq!(pane.mouse_focus_index(), Some(1));
}

#[test]
fn remainder_constructors_match_their_events() {
    let closed = <EventRemainderOld as EventRemainder>::closed();
    assert_eq!(closed, EventRemainderOld::Closed);
    let dflt = <EventRemainderOld as EventRemainder>::default_value();
    assert_eq!(dflt, EventRemainderOld::Nothing);
    let ev = Event::CursorMoved { x: 3, y: 4 };
    assert_eq!(
        <EventRemainderOld as EventRemainder>::event(ev),
        EventRemainderOld::MousePosition(3, 4)
    );
    assert_eq!(
        <EventRemainderOld as EventRemainder>::event(Event::MouseWheel),
        EventRemainderOld::MouseWheel
    );
}

#[test]
fn text_box_routes_typing_into_its_field() {
    let log = Rc::new(RefCell::new((0usize, 0usize)));
    let sink = SharedSink { log: log.clone() };
    let pane = Pane::new(DIMS, sink).element(
        TextBox::new((0, 0, 0), (-385, 270), 4450, "Text:", ORANGE, "")
            .mouse_event_handler(TestMouseHandler {
                req: UiRequest::KeyboardFocus(true),
                marker: 30,
                calls: 0,
            })
            .keyboard_event_handler(TypingKeyboardHandler),
    );
    assert!(pane.geometry_fits());
    let mut pane: TestPane = pane.init();
    assert!(pane.is_initialized());
    let _: EventRemainderOld = pane.handle_event(motion(300, 400));
    pane.prepare_frame(DIMS);
    assert_eq!(pane.mouse_focus_index(), Some(0));
    let _: EventRemainderOld = pane.handle_event(press(MouseButton::Left));
    assert_eq!(pane.keybd_focus_index(), Some(0));
    // Typing lands in the nested field's empty buffer, not in the
    // five-character label: one keystroke makes the buffer one long.
    let r: EventRemainderOld = pane.handle_event(key(ElementState::Pressed, Some(VirtualKeyCode::A)));
    assert_eq!(r, EventRemainderOld::MousePosition(1, -7));
}

#[test]
fn update_mouse_focus_resolves_against_current_dimensions() {
    let (mut pane, log) = two_element_pane();
    let _: EventRemainderOld = pane.handle_event(motion(300, 400));
    pane.update_mouse_focus();
    assert_eq!(pane.mouse_focus_index(), Some(0));
    assert_eq!(log.borrow().1, 1);
    // An unchanged answer triggers no further refresh.
    pane.update_mouse_focus();
    assert_eq!(log.borrow().1, 1);
}

/// A mouse handler that claims keyboard focus on its first run and
/// releases it on the next.
struct ToggleKeyboardClaim {
    claimed: bool,
}

impl MouseEventHandler<EventRemainderOld> for ToggleKeyboardClaim {
    fn handle(&mut self, _state: ElementState, _button: MouseButton) -> (UiRequest, EventRemainderOld) {
        let req = if self.claimed {
            UiRequest::KeyboardFocus(false)
        } else {
            UiRequest::KeyboardFocus(true)
        };
        self.claimed = !self.claimed;
        (req, EventRemainderOld::Nothing)
    }
}

#[test]
fn element_can_release_its_own_keyboard_focus() {
    let log = Rc::new(RefCell::new((0usize, 0usize)));
    let sink = SharedSink { log: log.clone() };
    let shape = Shape2d::rectangle(1000, 1000, 0, ORANGE);
    let element = Element::new(ElementKind::RectButton, (0, 0, 0), (0, 0, 0), shape)
        .mouse_event_handler(ToggleKeyboardClaim { claimed: false });
    let mut pane: Pane<ToggleKeyboardClaim, TypingKeyboardHandler, SharedSink> =
        Pane::new(DIMS, sink).element(element).init();
    let _: EventRemainderOld = pane.handle_event(motion(300, 400));
    pane.prepare_frame(DIMS);
    // The press claims keyboard focus, the release gives it back.
    let _: EventRemainderOld = pane.handle_event(press(MouseButton::Left));
    assert_eq!(pane.keybd_focus_index(), Some(0));
    let _: EventRemainderOld = pane.handle_event(release(MouseButton::Left));
    assert_eq!(pane.keybd_focus_index(), None);
}
