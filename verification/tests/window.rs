use rusty_puzzles::input::{ArrowKey, Input, Key, MouseButton};
use rusty_puzzles::window::{InputTracker, PhysicalKey, PointerButton, WindowInput};

fn moved(t: &mut InputTracker, x: i32, y: i32) {
    let r = t.handle(WindowInput::CursorMoved { x, y });
    assert!(!r.exit);
}

#[test]
fn press_sends_down_then_drag() {
    let mut t = InputTracker::new(false);
    moved(&mut t, 5, 6);
    let r = t.handle(WindowInput::Mouse { button: PointerButton::Left, pressed: true });
    assert_eq!(
        r.inputs,
        vec![Input::MouseDown((MouseButton::Left, (5, 6))), Input::MouseHeld((MouseButton::Left, (5, 6)))]
    );
    assert!(t.left_held);
    // moving drags at the new position
    let r = t.handle(WindowInput::CursorMoved { x: 9, y: 1 });
    assert_eq!(r.inputs, vec![Input::MouseHeld((MouseButton::Left, (9, 1)))]);
}

#[test]
fn release_ends_drag() {
    let mut t = InputTracker::new(false);
    moved(&mut t, 1, 1);
    t.handle(WindowInput::Mouse { button: PointerButton::Right, pressed: true });
    let r = t.handle(WindowInput::Mouse { button: PointerButton::Right, pressed: false });
    assert_eq!(r.inputs, vec![Input::MouseUp((MouseButton::Right, (1, 1)))]);
    let r = t.handle(WindowInput::Other);
    assert!(r.inputs.is_empty());
}

#[test]
fn no_mouse_input_outside_window() {
    let mut t = InputTracker::new(false);
    let r = t.handle(WindowInput::Mouse { button: PointerButton::Left, pressed: true });
    assert!(r.inputs.is_empty());
    assert!(!t.left_held);
    moved(&mut t, 2, 3);
    t.handle(WindowInput::Mouse { button: PointerButton::Left, pressed: true });
    let r = t.handle(WindowInput::CursorLeft);
    assert!(r.inputs.is_empty());
    let r = t.handle(WindowInput::Other);
    assert!(r.inputs.is_empty());
    // the button is still held, so drags resume when the pointer comes back
    let r = t.handle(WindowInput::CursorMoved { x: 4, y: 4 });
    assert_eq!(r.inputs, vec![Input::MouseHeld((MouseButton::Left, (4, 4)))]);
}

#[test]
fn other_buttons_end_the_event() {
    let mut t = InputTracker::new(false);
    moved(&mut t, 2, 3);
    t.handle(WindowInput::Mouse { button: PointerButton::Left, pressed: true });
    let r = t.handle(WindowInput::Mouse { button: PointerButton::Other, pressed: true });
    assert!(r.inputs.is_empty());
    assert!(!r.exit);
}

#[test]
fn key_presses_and_releases() {
    let mut t = InputTracker::new(false);
    let r = t.handle(WindowInput::Keyboard { key: PhysicalKey::Other, pressed: true, character: Some('n') });
    assert_eq!(r.inputs, vec![Input::KeyDown(Key::Character('n'))]);
    let r = t.handle(WindowInput::Keyboard { key: PhysicalKey::Arrow(ArrowKey::Up), pressed: true, character: None });
    assert_eq!(r.inputs, vec![Input::KeyDown(Key::Special(ArrowKey::Up))]);
    let r = t.handle(WindowInput::Keyboard { key: PhysicalKey::Other, pressed: false, character: Some('n') });
    assert!(r.inputs.is_empty());
}

#[test]
fn released_key_sends_no_drag() {
    let mut t = InputTracker::new(false);
    moved(&mut t, 0, 0);
    t.handle(WindowInput::Mouse { button: PointerButton::Left, pressed: true });
    let r = t.handle(WindowInput::Keyboard { key: PhysicalKey::Other, pressed: false, character: None });
    assert!(r.inputs.is_empty());
    let r = t.handle(WindowInput::Keyboard { key: PhysicalKey::Other, pressed: true, character: Some('x') });
    assert_eq!(r.inputs, vec![Input::KeyDown(Key::Character('x')), Input::MouseHeld((MouseButton::Left, (0, 0)))]);
}

#[test]
fn escape_and_close_quit() {
    let mut t = InputTracker::new(false);
    let r = t.handle(WindowInput::Keyboard { key: PhysicalKey::Escape, pressed: true, character: None });
    assert!(r.exit);
    let r = t.handle(WindowInput::Keyboard { key: PhysicalKey::Escape, pressed: false, character: None });
    assert!(!r.exit);
    let r = t.handle(WindowInput::CloseRequested);
    assert!(r.exit);
}

#[test]
fn control_click_counts_as_right_click_when_enabled() {
    let mut t = InputTracker::new(true);
    moved(&mut t, 3, 3);
    t.handle(WindowInput::Keyboard { key: PhysicalKey::Control, pressed: true, character: None });
    assert!(t.control_held);
    let r = t.handle(WindowInput::Mouse { button: PointerButton::Left, pressed: true });
    assert_eq!(r.inputs[0], Input::MouseDown((MouseButton::Right, (3, 3))));
    assert!(t.right_held && !t.left_held);
    t.handle(WindowInput::Keyboard { key: PhysicalKey::Control, pressed: false, character: None });
    assert!(!t.control_held);

    let mut plain = InputTracker::new(false);
    moved(&mut plain, 3, 3);
    plain.handle(WindowInput::Keyboard { key: PhysicalKey::Control, pressed: true, character: None });
    let r = plain.handle(WindowInput::Mouse { button: PointerButton::Left, pressed: true });
    assert_eq!(r.inputs[0], Input::MouseDown((MouseButton::Left, (3, 3))));
}

#[test]
fn both_buttons_drag_left_first() {
    let mut t = InputTracker::new(false);
    moved(&mut t, 8, 8);
    t.handle(WindowInput::Mouse { button: PointerButton::Right, pressed: true });
    let r = t.handle(WindowInput::Mouse { button: PointerButton::Left, pressed: true });
    assert_eq!(
        r.inputs,
        vec![
            Input::MouseDown((MouseButton::Left, (8, 8))),
            Input::MouseHeld((MouseButton::Left, (8, 8))),
            Input::MouseHeld((MouseButton::Right, (8, 8))),
        ]
    );
}
