//! The input the front end hands to the midend, and the key codes it is
//! sent as.
use vstd::prelude::*;

verus! {

/// Midend code: left button pressed.
pub const LEFT_BUTTON: i32 = 0x200;

/// Midend code: right button pressed.
pub const RIGHT_BUTTON: i32 = 0x202;

/// Midend code: left button dragged.
pub const LEFT_DRAG: i32 = 0x203;

/// Midend code: right button dragged.
pub const RIGHT_DRAG: i32 = 0x205;

/// Midend code: left button released.
pub const LEFT_RELEASE: i32 = 0x206;

/// Midend code: right button released.
pub const RIGHT_RELEASE: i32 = 0x208;

/// Midend code: cursor key up.
pub const CURSOR_UP: i32 = 0x209;

/// Midend code: cursor key down.
pub const CURSOR_DOWN: i32 = 0x20A;

/// Midend code: cursor key left.
pub const CURSOR_LEFT: i32 = 0x20B;

/// Midend code: cursor key right.
pub const CURSOR_RIGHT: i32 = 0x20C;

/// The mouse buttons a puzzle reacts to.
#[derive(Debug, Clone, Copy, PartialEq, Eq, Structural)]
pub enum MouseButton {
    Left,
    Right,
}

/// The special keys a puzzle reacts to: the arrow keys.
#[derive(Debug, Clone, Copy, PartialEq, Eq, Structural)]
pub enum ArrowKey {
    Left,
    Down,
    Right,
    Up,
}

/// A key press: a character, or one of the special keys.
#[derive(Debug, Clone, Copy, PartialEq, Eq, Structural)]
pub enum Key {
    Character(char),
    Special(ArrowKey),
}

/// One piece of input for the midend; mouse input carries the pointer's
/// position in window pixels.
#[derive(Debug, Clone, Copy, PartialEq, Eq)]
pub enum Input {
    MouseDown((MouseButton, (i32, i32))),
    MouseHeld((MouseButton, (i32, i32))),
    MouseUp((MouseButton, (i32, i32))),
    KeyDown(Key),
}

/// What the midend is told of a piece of input: a position and a key code.
#[derive(Debug, Clone, Copy, PartialEq, Eq, Structural)]
pub struct MidendKey {
    pub x: i32,
    pub y: i32,
    pub button: i32,
}

/// The midend's press, drag and release codes for a mouse button.
pub open spec fn button_codes(button: MouseButton) -> (i32, i32, i32) {
    match button {
        MouseButton::Left => (LEFT_BUTTON, LEFT_DRAG, LEFT_RELEASE),
        MouseButton::Right => (RIGHT_BUTTON, RIGHT_DRAG, RIGHT_RELEASE),
    }
}

/// The midend's code for an arrow key.
pub open spec fn arrow_code(key: ArrowKey) -> int {
    match key {
        ArrowKey::Left => CURSOR_LEFT as int,
        ArrowKey::Down => CURSOR_DOWN as int,
        ArrowKey::Right => CURSOR_RIGHT as int,
        ArrowKey::Up => CURSOR_UP as int,
    }
}

/// The key code, and the position, that the midend receives for `input`:
/// mouse input goes with the pointer's position, key presses with `(0, 0)`,
/// and a character is sent as its code point.
pub open spec fn midend_key_spec(input: Input) -> MidendKey {
    match input {
        Input::MouseDown((b, (x, y))) => MidendKey { x, y, button: button_codes(b).0 },
        Input::MouseHeld((b, (x, y))) => MidendKey { x, y, button: button_codes(b).1 },
        Input::MouseUp((b, (x, y))) => MidendKey { x, y, button: button_codes(b).2 },
        Input::KeyDown(Key::Special(k)) => MidendKey { x: 0, y: 0, button: arrow_code(k) as i32 },
        Input::KeyDown(Key::Character(c)) => MidendKey { x: 0, y: 0, button: c as i32 },
    }
}

/// What the midend is told of a piece of input.
pub fn midend_key(input: &Input) -> (k: MidendKey)
    ensures
        k == midend_key_spec(*input),
{
    let button = match input {
        Input::MouseDown((MouseButton::Left, _)) => LEFT_BUTTON,
        Input::MouseDown((MouseButton::Right, _)) => RIGHT_BUTTON,
        Input::MouseHeld((MouseButton::Left, _)) => LEFT_DRAG,
        Input::MouseHeld((MouseButton::Right, _)) => RIGHT_DRAG,
        Input::MouseUp((MouseButton::Left, _)) => LEFT_RELEASE,
        Input::MouseUp((MouseButton::Right, _)) => RIGHT_RELEASE,
        Input::KeyDown(Key::Special(ArrowKey::Left)) => CURSOR_LEFT,
        Input::KeyDown(Key::Special(ArrowKey::Down)) => CURSOR_DOWN,
        Input::KeyDown(Key::Special(ArrowKey::Right)) => CURSOR_RIGHT,
        Input::KeyDown(Key::Special(ArrowKey::Up)) => CURSOR_UP,
        Input::KeyDown(Key::Character(character)) => char_code(*character),
    };
    let (x, y) = match input {
        Input::MouseDown((_, (x, y))) | Input::MouseHeld((_, (x, y))) | Input::MouseUp((_, (x, y))) => (*x, *y),
        Input::KeyDown(_) => (0, 0),
    };
    MidendKey { x, y, button }
}

/// `v / 2` as Rust's integer division computes it: rounded toward zero.
pub open spec fn half_toward_zero(v: int) -> int {
    if v >= 0 {
        v / 2
    } else {
        -((-v) / 2)
    }
}

/// What the midend is told of `input` on a screen whose pointer positions count
/// two pixels for each of the midend's (`halve`, as on macOS): the key code of
/// `midend_key`, and its position halved, rounding toward zero.
pub fn midend_key_on_screen(input: &Input, halve: bool) -> (k: MidendKey)
    ensures
        k.button == midend_key_spec(*input).button,
        k.x == if halve {
            half_toward_zero(midend_key_spec(*input).x as int)
        } else {
            midend_key_spec(*input).x as int
        },
        k.y == if halve {
            half_toward_zero(midend_key_spec(*input).y as int)
        } else {
            midend_key_spec(*input).y as int
        },
{
    let k = midend_key(input);
    if halve {
        MidendKey { x: halve_toward_zero(k.x), y: halve_toward_zero(k.y), button: k.button }
    } else {
        k
    }
}

/// Halves `v`, rounding toward zero.
fn halve_toward_zero(v: i32) -> (h: i32)
    ensures
        h as int == half_toward_zero(v as int),
{
    if v >= 0 {
        let a: u32 = v as u32;
        (a / 2) as i32
    } else {
        let a: u64 = (-(v as i64)) as u64;
        let q: u64 = a / 2;
        assert(q <= 0x4000_0000);
        -(q as i64) as i32
    }
}

/// A character's code point.
fn char_code(c: char) -> (code: i32)
    ensures
        code == c as i32,
        code as int == c as int,
{
    let u = c as u32;
    u as i32
}

/// Every mouse event reaches the midend at the pointer's position, and a
/// button's drag and release codes lie three and six above its press code.
pub proof fn lemma_mouse_codes(b: MouseButton, x: i32, y: i32)
    ensures
        midend_key_spec(Input::MouseDown((b, (x, y)))) == (MidendKey { x, y, button: button_codes(b).0 }),
        midend_key_spec(Input::MouseHeld((b, (x, y)))).button == midend_key_spec(Input::MouseDown((b, (x, y)))).button + 3,
        midend_key_spec(Input::MouseUp((b, (x, y)))).button == midend_key_spec(Input::MouseDown((b, (x, y)))).button + 6,
        midend_key_spec(Input::MouseHeld((b, (x, y)))).x == x,
        midend_key_spec(Input::MouseUp((b, (x, y)))).y == y,
{
}

/// Every mouse input reaches the midend at the pointer's position, both
/// coordinates as they are, whichever button and whatever the event.
pub proof fn lemma_mouse_position(b: MouseButton, x: i32, y: i32)
    ensures
        midend_key_spec(Input::MouseDown((b, (x, y)))).x == x,
        midend_key_spec(Input::MouseDown((b, (x, y)))).y == y,
        midend_key_spec(Input::MouseHeld((b, (x, y)))).x == x,
        midend_key_spec(Input::MouseHeld((b, (x, y)))).y == y,
        midend_key_spec(Input::MouseUp((b, (x, y)))).x == x,
        midend_key_spec(Input::MouseUp((b, (x, y)))).y == y,
{
}

/// The midend's codes: `0x200`, `0x203`, `0x206` press, drag and release the
/// left button, `0x202`, `0x205`, `0x208` the right one; an arrow key is its
/// own cursor code (`0x209` up, `0x20A` down, `0x20B` left, `0x20C` right), a
/// character its code point, and key presses come at `(0, 0)`.
pub proof fn lemma_midend_codes(p: (i32, i32), a: ArrowKey, c: char)
    ensures
        midend_key_spec(Input::MouseDown((MouseButton::Left, p))).button == 0x200,
        midend_key_spec(Input::MouseHeld((MouseButton::Left, p))).button == 0x203,
        midend_key_spec(Input::MouseUp((MouseButton::Left, p))).button == 0x206,
        midend_key_spec(Input::MouseDown((MouseButton::Right, p))).button == 0x202,
        midend_key_spec(Input::MouseHeld((MouseButton::Right, p))).button == 0x205,
        midend_key_spec(Input::MouseUp((MouseButton::Right, p))).button == 0x208,
        midend_key_spec(Input::KeyDown(Key::Special(a))).button == match a {
            ArrowKey::Up => 0x209int,
            ArrowKey::Down => 0x20A,
            ArrowKey::Left => 0x20B,
            ArrowKey::Right => 0x20C,
        },
        midend_key_spec(Input::KeyDown(Key::Character(c))).button == c as int,
        midend_key_spec(Input::KeyDown(Key::Special(a))).x == 0,
        midend_key_spec(Input::KeyDown(Key::Special(a))).y == 0,
        midend_key_spec(Input::KeyDown(Key::Character(c))).x == 0,
        midend_key_spec(Input::KeyDown(Key::Character(c))).y == 0,
{
}

/// On a screen that counts two pixels per logical one, a mouse input reaches
/// the midend at half its position, rounded toward zero: twice the result is
/// within one of the position, on its side of zero, and no larger in size.
pub proof fn lemma_halved_position(b: MouseButton, x: i32, y: i32)
    ensures
        ({
            let k = midend_key_spec(Input::MouseDown((b, (x, y))));
            let hx = half_toward_zero(k.x as int);
            let hy = half_toward_zero(k.y as int);
            &&& x >= 0 ==> 0 <= x - 2 * hx <= 1
            &&& x < 0 ==> 0 <= 2 * hx - x <= 1
            &&& y >= 0 ==> 0 <= y - 2 * hy <= 1
            &&& y < 0 ==> 0 <= 2 * hy - y <= 1
        }),
{
}

} // verus!
