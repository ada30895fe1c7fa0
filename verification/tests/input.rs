use rusty_puzzles::input::{
    midend_key, midend_key_on_screen, ArrowKey, Input, Key, MidendKey, MouseButton, CURSOR_DOWN, CURSOR_LEFT, CURSOR_RIGHT,
    CURSOR_UP, LEFT_BUTTON, LEFT_DRAG, LEFT_RELEASE, RIGHT_BUTTON, RIGHT_DRAG, RIGHT_RELEASE,
};

#[test]
fn mouse_input_keeps_position() {
    assert_eq!(
        midend_key(&Input::MouseDown((MouseButton::Left, (10, 20)))),
        MidendKey { x: 10, y: 20, button: LEFT_BUTTON }
    );
    assert_eq!(
        midend_key(&Input::MouseHeld((MouseButton::Right, (-3, 7)))),
        MidendKey { x: -3, y: 7, button: RIGHT_DRAG }
    );
    assert_eq!(
        midend_key(&Input::MouseUp((MouseButton::Right, (1, 2)))),
        MidendKey { x: 1, y: 2, button: RIGHT_RELEASE }
    );
}

#[test]
fn mouse_codes_follow_press_code() {
    assert_eq!(LEFT_BUTTON, 0x200);
    assert_eq!(RIGHT_BUTTON, 0x202);
    assert_eq!(LEFT_DRAG, LEFT_BUTTON + 3);
    assert_eq!(LEFT_RELEASE, LEFT_BUTTON + 6);
    assert_eq!(RIGHT_DRAG, RIGHT_BUTTON + 3);
    assert_eq!(RIGHT_RELEASE, RIGHT_BUTTON + 6);
    let held = midend_key(&Input::MouseHeld((MouseButton::Left, (0, 0))));
    assert_eq!(held.button, 0x203);
    let up = midend_key(&Input::MouseUp((MouseButton::Left, (0, 0))));
    assert_eq!(up.button, 0x206);
}

#[test]
fn arrow_keys_map_to_cursor_codes() {
    let code = |a| midend_key(&Input::KeyDown(Key::Special(a)));
    assert_eq!(code(ArrowKey::Up), MidendKey { x: 0, y: 0, button: CURSOR_UP });
    assert_eq!(code(ArrowKey::Down), MidendKey { x: 0, y: 0, button: CURSOR_DOWN });
    assert_eq!(code(ArrowKey::Left), MidendKey { x: 0, y: 0, button: CURSOR_LEFT });
    assert_eq!(code(ArrowKey::Right), MidendKey { x: 0, y: 0, button: CURSOR_RIGHT });
    assert_eq!(CURSOR_UP, 0x209);
    assert_eq!(CURSOR_RIGHT, 0x20C);
}

#[test]
fn characters_are_sent_as_code_points() {
    assert_eq!(midend_key(&Input::KeyDown(Key::Character('u'))), MidendKey { x: 0, y: 0, button: 'u' as i32 });
    assert_eq!(midend_key(&Input::KeyDown(Key::Character('\u{e9}'))).button, 0xe9);
    assert_eq!(midend_key(&Input::KeyDown(Key::Character('\u{10FFFF}'))).button, 0x10FFFF);
}

#[test]
fn halved_position_rounds_toward_zero() {
    let down = Input::MouseDown((MouseButton::Left, (7, -7)));
    assert_eq!(midend_key_on_screen(&down, true), MidendKey { x: 3, y: -3, button: LEFT_BUTTON });
    assert_eq!(midend_key_on_screen(&down, false), MidendKey { x: 7, y: -7, button: LEFT_BUTTON });
    let far = Input::MouseUp((MouseButton::Right, (i32::MIN, i32::MAX)));
    assert_eq!(
        midend_key_on_screen(&far, true),
        MidendKey { x: i32::MIN / 2, y: i32::MAX / 2, button: RIGHT_RELEASE }
    );
    let key = Input::KeyDown(Key::Character('a'));
    assert_eq!(midend_key_on_screen(&key, true), MidendKey { x: 0, y: 0, button: 'a' as i32 });
}
