//! Input-state trackers: position history staleness, button state, the
//! modifier flags, and the text-input key mapping.

use enamel::{ElementState, KeyboardState, MouseButton, MouseState, VirtualKeyCode};

#[test]
fn new_mouse_state_is_zeroed() {
    let ms = MouseState::new();
    assert_eq!(ms.position(), (0, 0));
    assert!(!ms.is_stale());
    assert_eq!(ms.button(MouseButton::Left), ElementState::Released);
    assert_eq!(ms.button(MouseButton::Other(3)), ElementState::Released);
    assert!(!ms.any_pressed());
}

#[test]
fn surface_position_maps_corners_exactly() {
    // Pixel (0,0) on a 600x800 surface maps to normalized (-1.0, 1.0),
    // pixel (600,800) to (1.0, -1.0).
    let mut ms = MouseState::new();
    let p = ms.surface_position((600, 800));
    assert!(p.eq_whole(-1, 1));
    ms.update_position((600, 800));
    let p = ms.surface_position((600, 800));
    assert!(p.eq_whole(1, -1));
}

#[test]
fn surface_position_center() {
    let mut ms = MouseState::new();
    ms.update_position((300, 400));
    let p = ms.surface_position((600, 800));
    assert!(p.eq_whole(0, 0));
}

#[test]
fn staleness_idempotence_on_repeated_motion() {
    // After the first motion to a coordinate, further motions to the same
    // coordinate leave the history stale until a differing coordinate
    // arrives.
    let mut ms = MouseState::new();
    ms.update_position((5, 5));
    assert!(!ms.is_stale());
    ms.update_position((5, 5));
    assert!(ms.is_stale());
    ms.update_position((5, 5));
    assert!(ms.is_stale());
    ms.update_position((6, 5));
    assert!(!ms.is_stale());
    assert_eq!(ms.position(), (6, 5));
}

#[test]
fn set_stale_marks_by_hand() {
    let mut ms = MouseState::new();
    ms.update_position((9, 9));
    assert!(!ms.is_stale());
    ms.set_stale();
    assert!(ms.is_stale());
    ms.update_position((10, 9));
    assert!(!ms.is_stale());
}

#[test]
fn buttons_record_and_unseen_reads_released() {
    let mut ms = MouseState::new();
    ms.set_button(MouseButton::Left, ElementState::Pressed);
    ms.set_button(MouseButton::Other(7), ElementState::Pressed);
    assert_eq!(ms.button(MouseButton::Left), ElementState::Pressed);
    assert_eq!(ms.button(MouseButton::Other(7)), ElementState::Pressed);
    // A button never seen reads as released rather than failing.
    assert_eq!(ms.button(MouseButton::Other(9)), ElementState::Released);
    ms.set_button(MouseButton::Left, ElementState::Released);
    assert_eq!(ms.button(MouseButton::Left), ElementState::Released);
}

#[test]
fn any_pressed_ignores_other_buttons() {
    let mut ms = MouseState::new();
    ms.set_button(MouseButton::Other(4), ElementState::Pressed);
    assert!(!ms.any_pressed());
    ms.set_button(MouseButton::Middle, ElementState::Pressed);
    assert!(ms.any_pressed());
    ms.set_button(MouseButton::Middle, ElementState::Released);
    assert!(!ms.any_pressed());
}

#[test]
fn modifier_flags_follow_transitions() {
    let mut kb = KeyboardState::new();
    assert!(!kb.shift && !kb.control && !kb.alt);
    kb.update(ElementState::Pressed, Some(VirtualKeyCode::LShift));
    assert!(kb.shift);
    kb.update(ElementState::Pressed, Some(VirtualKeyCode::RControl));
    assert!(kb.control && kb.shift);
    kb.update(ElementState::Released, Some(VirtualKeyCode::LShift));
    assert!(!kb.shift && kb.control);
    kb.update(ElementState::Pressed, Some(VirtualKeyCode::LAlt));
    assert!(kb.alt);
    kb.update(ElementState::Pressed, Some(VirtualKeyCode::A));
    assert!(!kb.shift && kb.control && kb.alt);
    kb.update(ElementState::Released, None);
    assert!(kb.control && kb.alt);
}

#[test]
fn map_vkc_table_samples() {
    assert_eq!(enamel::map_vkc(Some(VirtualKeyCode::A)), Some('a'));
    assert_eq!(enamel::map_vkc(Some(VirtualKeyCode::Z)), Some('z'));
    assert_eq!(enamel::map_vkc(Some(VirtualKeyCode::Key1)), Some('1'));
    assert_eq!(enamel::map_vkc(Some(VirtualKeyCode::Key0)), Some('0'));
    // The numpad digits deliberately map one key off.
    assert_eq!(enamel::map_vkc(Some(VirtualKeyCode::Numpad0)), Some('1'));
    assert_eq!(enamel::map_vkc(Some(VirtualKeyCode::Numpad9)), Some('0'));
    assert_eq!(enamel::map_vkc(Some(VirtualKeyCode::Space)), Some(' '));
    assert_eq!(enamel::map_vkc(Some(VirtualKeyCode::Back)), None);
    assert_eq!(enamel::map_vkc(Some(VirtualKeyCode::LShift)), None);
    assert_eq!(enamel::map_vkc(None), None);
}

#[test]
fn key_into_string_types_and_deletes() {
    let kb = KeyboardState::new();
    let mut s = String::new();
    enamel::key_into_string(ElementState::Pressed, Some(VirtualKeyCode::A), &kb, &mut s);
    enamel::key_into_string(ElementState::Pressed, Some(VirtualKeyCode::B), &kb, &mut s);
    assert_eq!(s, "ab");
    enamel::key_into_string(ElementState::Pressed, Some(VirtualKeyCode::Back), &kb, &mut s);
    assert_eq!(s, "a");
    enamel::key_into_string(ElementState::Pressed, Some(VirtualKeyCode::Back), &kb, &mut s);
    enamel::key_into_string(ElementState::Pressed, Some(VirtualKeyCode::Back), &kb, &mut s);
    assert_eq!(s, "");
}

#[test]
fn key_into_string_shift_uppercases_letters_only() {
    let mut kb = KeyboardState::new();
    kb.shift = true;
    let mut s = String::new();
    enamel::key_into_string(ElementState::Pressed, Some(VirtualKeyCode::C), &kb, &mut s);
    enamel::key_into_string(ElementState::Pressed, Some(VirtualKeyCode::Key1), &kb, &mut s);
    enamel::key_into_string(ElementState::Pressed, Some(VirtualKeyCode::Space), &kb, &mut s);
    assert_eq!(s, "C1 ");
}

#[test]
fn key_into_string_ignores_releases_and_unmapped_keys() {
    let kb = KeyboardState::new();
    let mut s = String::from("x");
    enamel::key_into_string(ElementState::Released, Some(VirtualKeyCode::A), &kb, &mut s);
    enamel::key_into_string(ElementState::Pressed, Some(VirtualKeyCode::Escape), &kb, &mut s);
    enamel::key_into_string(ElementState::Pressed, None, &kb, &mut s);
    assert_eq!(s, "x");
}
