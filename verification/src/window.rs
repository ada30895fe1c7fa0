//! The window's input, tracked between events and turned into input for the
//! midend: pointer position, which buttons are held, and the control key.
use vstd::prelude::*;
use crate::input::{ArrowKey, Input, Key, MouseButton};

verus! {

/// The physical key behind a keyboard event, as far as the front end cares.
#[derive(Debug, Clone, Copy, PartialEq, Eq, Structural)]
pub enum PhysicalKey {
    /// Either control key.
    Control,
    Escape,
    Arrow(ArrowKey),
    Other,
}

/// The pointer button behind a mouse event.
#[derive(Debug, Clone, Copy, PartialEq, Eq, Structural)]
pub enum PointerButton {
    Left,
    Right,
    Other,
}

/// A window event, as far as the input it carries goes.
#[derive(Debug, Clone, Copy, PartialEq, Eq)]
pub enum WindowInput {
    /// A key went down or up; `character` is the first character of the text
    /// it produces, if it produces text.
    Keyboard { key: PhysicalKey, pressed: bool, character: Option<char> },
    /// The pointer moved to `(x, y)` in window pixels.
    CursorMoved { x: i32, y: i32 },
    /// The pointer left the window.
    CursorLeft,
    /// A pointer button went down or up.
    Mouse { button: PointerButton, pressed: bool },
    /// The window was asked to close.
    CloseRequested,
    /// Any other event.
    Other,
}

/// What the front end does about a window event: the input it passes to the
/// midend, in order, and whether the application quits.
pub struct Reaction {
    pub inputs: Vec<Input>,
    pub exit: bool,
}

/// The input state of the window between events.
#[derive(Debug, Clone, Copy, PartialEq, Eq)]
pub struct InputTracker {
    /// Where the pointer is, while it is inside the window.
    pub cursor: Option<(i32, i32)>,
    /// Whether the left button is held.
    pub left_held: bool,
    /// Whether the right button is held.
    pub right_held: bool,
    /// Whether a control key is held.
    pub control_held: bool,
    /// Whether a left click made with control held counts as a right click.
    pub control_click_is_right: bool,
}

/// The button a click counts as: with the option set, a left click made
/// while control is held counts as a right click.
pub open spec fn effective_button(t: InputTracker, button: PointerButton) -> PointerButton {
    if t.control_click_is_right && t.control_held && button == PointerButton::Left {
        PointerButton::Right
    } else {
        button
    }
}

/// The drag input sent for each held button while the pointer is inside the
/// window: left first, then right.
pub open spec fn held_inputs(t: InputTracker) -> Seq<Input> {
    match t.cursor {
        Some(p) => {
            let l = if t.left_held { seq![Input::MouseHeld((MouseButton::Left, p))] } else { Seq::empty() };
            let r = if t.right_held { seq![Input::MouseHeld((MouseButton::Right, p))] } else { Seq::empty() };
            l + r
        },
        None => Seq::empty(),
    }
}

/// The input a key press produces: the character it types, if any, then the
/// arrow it is, if it is one.
pub open spec fn key_inputs(key: PhysicalKey, character: Option<char>) -> Seq<Input> {
    let chars = match character {
        Some(c) => seq![Input::KeyDown(Key::Character(c))],
        None => Seq::empty(),
    };
    let arrows = match key {
        PhysicalKey::Arrow(a) => seq![Input::KeyDown(Key::Special(a))],
        _ => Seq::empty(),
    };
    chars + arrows
}

/// The state after an event, the input it produces before the held buttons are
/// reported, whether it quits, and whether the held buttons are reported
/// afterwards (released keys and other buttons end the event at once).
pub open spec fn step(t: InputTracker, e: WindowInput) -> (InputTracker, Seq<Input>, bool, bool) {
    match e {
        WindowInput::Keyboard { key, pressed, character } => {
            let t2 = if key == PhysicalKey::Control {
                InputTracker { control_held: pressed, ..t }
            } else {
                t
            };
            if !pressed {
                (t2, Seq::empty(), false, false)
            } else {
                (t2, key_inputs(key, character), key == PhysicalKey::Escape, true)
            }
        },
        WindowInput::CursorMoved { x, y } => (InputTracker { cursor: Some((x, y)), ..t }, Seq::empty(), false, true),
        WindowInput::CursorLeft => (InputTracker { cursor: None, ..t }, Seq::empty(), false, true),
        WindowInput::Mouse { button, pressed } => {
            match effective_button(t, button) {
                PointerButton::Other => (t, Seq::empty(), false, false),
                b => {
                    let mb = if b == PointerButton::Left { MouseButton::Left } else { MouseButton::Right };
                    match t.cursor {
                        Some(p) => {
                            let t2 = if mb == MouseButton::Left {
                                InputTracker { left_held: pressed, ..t }
                            } else {
                                InputTracker { right_held: pressed, ..t }
                            };
                            let i = if pressed { Input::MouseDown((mb, p)) } else { Input::MouseUp((mb, p)) };
                            (t2, seq![i], false, true)
                        },
                        None => (t, Seq::empty(), false, true),
                    }
                },
            }
        },
        WindowInput::CloseRequested => (t, Seq::empty(), true, true),
        WindowInput::Other => (t, Seq::empty(), false, true),
    }
}

/// The state after an event.
pub open spec fn next_state(t: InputTracker, e: WindowInput) -> InputTracker {
    step(t, e).0
}

/// All the input an event produces: its own, then the held buttons in the new
/// state unless the event ended at once.
pub open spec fn reaction_inputs(t: InputTracker, e: WindowInput) -> Seq<Input> {
    let (t2, own, _, report_held) = step(t, e);
    if report_held { own + held_inputs(t2) } else { own }
}

/// Whether an event quits the application.
pub open spec fn reaction_exit(t: InputTracker, e: WindowInput) -> bool {
    step(t, e).2
}

impl InputTracker {
    /// No pointer, no buttons or keys held.
    pub fn new(control_click_is_right: bool) -> (t: InputTracker)
        ensures
            t.cursor.is_none(),
            !t.left_held,
            !t.right_held,
            !t.control_held,
            t.control_click_is_right == control_click_is_right,
    {
        InputTracker { cursor: None, left_held: false, right_held: false, control_held: false, control_click_is_right }
    }

    fn push_held(&self, inputs: &mut Vec<Input>)
        ensures
            final(inputs)@ == old(inputs)@ + held_inputs(*self),
    {
        if let Some(p) = self.cursor {
            if self.left_held {
                inputs.push(Input::MouseHeld((MouseButton::Left, p)));
            }
            if self.right_held {
                inputs.push(Input::MouseHeld((MouseButton::Right, p)));
            }
        } else {
            assert(held_inputs(*self) =~= Seq::empty());
        }
        assert(final(inputs)@ =~= old(inputs)@ + held_inputs(*self));
    }

    /// Takes in a window event: updates the state and says what to pass on.
    pub fn handle(&mut self, event: WindowInput) -> (r: Reaction)
        ensures
            *final(self) == next_state(*old(self), event),
            r.inputs@ == reaction_inputs(*old(self), event),
            r.exit == reaction_exit(*old(self), event),
    {
        let mut inputs: Vec<Input> = Vec::new();
        let mut exit = false;
        match event {
            WindowInput::Keyboard { key, pressed, character } => {
                if key == PhysicalKey::Control {
                    self.control_held = pressed;
                }
                if !pressed {
                    return Reaction { inputs, exit: false };
                }
                if let Some(c) = character {
                    inputs.push(Input::KeyDown(Key::Character(c)));
                }
                match key {
                    PhysicalKey::Escape => {
                        exit = true;
                    },
                    PhysicalKey::Arrow(a) => {
                        inputs.push(Input::KeyDown(Key::Special(a)));
                    },
                    _ => {},
                }
            },
            WindowInput::CursorMoved { x, y } => {
                self.cursor = Some((x, y));
            },
            WindowInput::CursorLeft => {
                self.cursor = None;
            },
            WindowInput::Mouse { button, pressed } => {
                let effective = if self.control_click_is_right && self.control_held && button
                    == PointerButton::Left {
                    PointerButton::Right
                } else {
                    button
                };
                let mb = match effective {
                    PointerButton::Left => MouseButton::Left,
                    PointerButton::Right => MouseButton::Right,
                    PointerButton::Other => {
                        return Reaction { inputs, exit: false };
                    },
                };
                if let Some(p) = self.cursor {
                    match mb {
                        MouseButton::Left => {
                            self.left_held = pressed;
                        },
                        MouseButton::Right => {
                            self.right_held = pressed;
                        },
                    }
                    if pressed {
                        inputs.push(Input::MouseDown((mb, p)));
                    } else {
                        inputs.push(Input::MouseUp((mb, p)));
                    }
                }
            },
            WindowInput::CloseRequested => {
                exit = true;
            },
            WindowInput::Other => {},
        }
        self.push_held(&mut inputs);
        Reaction { inputs, exit }
    }
}

proof fn lemma_typed_key_inputs(key: PhysicalKey, c: char)
    ensures
        forall|k: int| 0 <= k < key_inputs(key, Some(c)).len() ==> #[trigger] key_inputs(key, Some(c))[k] is KeyDown,
{
    match key {
        PhysicalKey::Arrow(a) => {
            assert(key_inputs(key, Some(c)) =~= seq![
                Input::KeyDown(Key::Character(c)),
                Input::KeyDown(Key::Special(a)),
            ]);
        },
        _ => {
            assert(key_inputs(key, Some(c)) =~= seq![Input::KeyDown(Key::Character(c))]);
        },
    }
}

/// A key press only ever produces key input.
proof fn lemma_key_inputs_are_key_presses(key: PhysicalKey, character: Option<char>)
    ensures
        forall|k: int| 0 <= k < key_inputs(key, character).len() ==> #[trigger] key_inputs(key, character)[k] is KeyDown,
{
    match character {
        Some(c) => {
            lemma_typed_key_inputs(key, c);
        },
        None => {
            match key {
                PhysicalKey::Arrow(a) => {
                    assert(key_inputs(key, character) =~= seq![Input::KeyDown(Key::Special(a))]);
                },
                _ => {
                    assert(key_inputs(key, character) =~= Seq::<Input>::empty());
                },
            }
        },
    }
}

/// Whether a piece of input comes from the mouse.
pub open spec fn is_mouse_input(i: Input) -> bool {
    !(i is KeyDown)
}

/// While the pointer is outside the window no mouse input reaches the
/// midend, whatever happens, until the pointer moves back in.
pub proof fn lemma_no_mouse_input_outside(t: InputTracker, e: WindowInput)
    requires
        t.cursor.is_none(),
        !(e is CursorMoved),
    ensures
        forall|k: int|
            0 <= k < reaction_inputs(t, e).len() ==> !is_mouse_input(#[trigger] reaction_inputs(t, e)[k]),
        next_state(t, e).cursor.is_none(),
{
    assert(held_inputs(next_state(t, e)) =~= Seq::empty());
    match e {
        WindowInput::Keyboard { key, pressed, character } => {
            if pressed {
                assert(reaction_inputs(t, e) =~= key_inputs(key, character));
                lemma_key_inputs_are_key_presses(key, character);
            }
        },
        _ => {
            assert(reaction_inputs(t, e) =~= Seq::<Input>::empty());
        },
    }
}

/// Pressing a button with the pointer at `p` sends the press and, in the
/// same breath, a drag at `p` for it; the button then counts as held.
pub proof fn lemma_press_then_drag(t: InputTracker, p: (i32, i32))
    requires
        t.cursor == Some(p),
        !t.right_held,
        !(t.control_click_is_right && t.control_held),
    ensures
        reaction_inputs(t, WindowInput::Mouse { button: PointerButton::Left, pressed: true })
            == seq![Input::MouseDown((MouseButton::Left, p)), Input::MouseHeld((MouseButton::Left, p))],
        next_state(t, WindowInput::Mouse { button: PointerButton::Left, pressed: true }).left_held,
{
    let e = WindowInput::Mouse { button: PointerButton::Left, pressed: true };
    assert(reaction_inputs(t, e) =~= seq![Input::MouseDown((MouseButton::Left, p)), Input::MouseHeld((MouseButton::Left, p))]);
}

/// Releasing a held button with the pointer in the window sends the release,
/// and no drag for that button follows, then or later, until it is pressed
/// again.
pub proof fn lemma_release_ends_drag(t: InputTracker, b: PointerButton, p: (i32, i32))
    requires
        t.cursor == Some(p),
        b != PointerButton::Other,
        effective_button(t, b) == b,
    ensures
        ({
            let e = WindowInput::Mouse { button: b, pressed: false };
            let mb = if b == PointerButton::Left { MouseButton::Left } else { MouseButton::Right };
            &&& reaction_inputs(t, e)[0] == Input::MouseUp((mb, p))
            &&& forall|k: int|
                0 <= k < reaction_inputs(t, e).len() ==> reaction_inputs(t, e)[k] != Input::MouseHeld((mb, p))
            &&& if b == PointerButton::Left { !next_state(t, e).left_held } else { !next_state(t, e).right_held }
        }),
{
}

/// A key that goes up sends nothing, not even drags of held buttons; the
/// control key's state follows the event whether it goes down or up.
pub proof fn lemma_key_release_is_silent(t: InputTracker, key: PhysicalKey, character: Option<char>)
    ensures
        reaction_inputs(t, WindowInput::Keyboard { key, pressed: false, character }) == Seq::<Input>::empty(),
        !reaction_exit(t, WindowInput::Keyboard { key, pressed: false, character }),
        key == PhysicalKey::Control ==> next_state(t, WindowInput::Keyboard { key, pressed: false, character }).control_held == false,
        key == PhysicalKey::Control ==> next_state(t, WindowInput::Keyboard { key, pressed: true, character }).control_held == true,
{
}

/// Escape and a close request quit the application; nothing else does.
pub proof fn lemma_exit_events(t: InputTracker, e: WindowInput)
    ensures
        reaction_exit(t, e) <==> (e is CloseRequested || e == (WindowInput::Keyboard {
            key: PhysicalKey::Escape,
            pressed: true,
            character: e->Keyboard_character,
        })),
{
}

proof fn lemma_arrow_typed(a: ArrowKey, c: char)
    ensures
        key_inputs(PhysicalKey::Arrow(a), Some(c)) == seq![
            Input::KeyDown(Key::Character(c)),
            Input::KeyDown(Key::Special(a)),
        ],
{
    assert(key_inputs(PhysicalKey::Arrow(a), Some(c)) =~= seq![
        Input::KeyDown(Key::Character(c)),
        Input::KeyDown(Key::Special(a)),
    ]);
}

/// The arrow-key law for a key that also types `c`.
proof fn lemma_typed_arrow_reaction(t: InputTracker, a: ArrowKey, c: char)
    ensures
        ({
            let r = reaction_inputs(t, WindowInput::Keyboard { key: PhysicalKey::Arrow(a), pressed: true, character: Some(c) });
            &&& r.len() >= 2
            &&& r[0] == Input::KeyDown(Key::Character(c))
            &&& r[1] == Input::KeyDown(Key::Special(a))
            &&& forall|k: int| 1 < k < r.len() ==> #[trigger] r[k] is MouseHeld
            &&& !t.left_held && !t.right_held ==> r.len() == 2
        }),
{
    let e = WindowInput::Keyboard { key: PhysicalKey::Arrow(a), pressed: true, character: Some(c) };
    let r = reaction_inputs(t, e);
    let h = held_inputs(t);
    assert(next_state(t, e) == t);
    assert(forall|k: int| 0 <= k < h.len() ==> #[trigger] h[k] is MouseHeld);
    let own = seq![Input::KeyDown(Key::Character(c)), Input::KeyDown(Key::Special(a))];
    lemma_arrow_typed(a, c);
    assert(r == own + h);
    assert(r[0] == own[0]);
    assert(r[1] == own[1]);
    assert forall|k: int| 1 < k < r.len() implies #[trigger] r[k] is MouseHeld by {
        assert(r[k] == h[k - 2]);
    }
    if !t.left_held && !t.right_held {
        assert(h =~= Seq::<Input>::empty());
    }
}

/// A pressed arrow key sends the key-down of that same arrow: first, or right
/// after the character it types if it types one; everything after that is the
/// drag of a held button, and with no button held nothing else is sent.
pub proof fn lemma_arrow_key_sends_that_arrow(t: InputTracker, a: ArrowKey, character: Option<char>)
    ensures
        ({
            let r = reaction_inputs(t, WindowInput::Keyboard { key: PhysicalKey::Arrow(a), pressed: true, character });
            let first: int = if character is Some { 1 } else { 0 };
            &&& r.len() >= first + 1
            &&& character is Some ==> r[0] == Input::KeyDown(Key::Character(character->0))
            &&& r[first] == Input::KeyDown(Key::Special(a))
            &&& forall|k: int| first < k < r.len() ==> #[trigger] r[k] is MouseHeld
            &&& !t.left_held && !t.right_held ==> r.len() == first + 1
        }),
        !reaction_exit(t, WindowInput::Keyboard { key: PhysicalKey::Arrow(a), pressed: true, character }),
{
    let e = WindowInput::Keyboard { key: PhysicalKey::Arrow(a), pressed: true, character };
    let r = reaction_inputs(t, e);
    let h = held_inputs(t);
    assert(next_state(t, e) == t);
    assert(r == key_inputs(PhysicalKey::Arrow(a), character) + h);
    assert(forall|k: int| 0 <= k < h.len() ==> #[trigger] h[k] is MouseHeld);
    if character is Some {
        lemma_typed_arrow_reaction(t, a, character->0);
    } else {
        let own = seq![Input::KeyDown(Key::Special(a))];
        assert(key_inputs(PhysicalKey::Arrow(a), character) =~= own);
        assert(r == own + h);
        assert(r[0] == own[0]);
        assert forall|k: int| 1 <= k < r.len() implies #[trigger] r[k] is MouseHeld by {
            assert(r[k] == h[k - 1]);
        }
    }
    if !t.left_held && !t.right_held {
        assert(h =~= Seq::<Input>::empty());
    }
}

/// Pressing or releasing a button with the pointer at `p` sends, first, the
/// press or release of the button it counts as, at `p`: the right button, or
/// the left one unless control turns it into a right click. That button is then
/// held exactly when it was pressed, the other keeps its state, and the drags
/// that follow a press are at `p`, left before right.
pub proof fn lemma_click_at_pointer(t: InputTracker, b: PointerButton, pressed: bool, p: (i32, i32))
    requires
        t.cursor == Some(p),
        b != PointerButton::Other,
    ensures
        ({
            let e = WindowInput::Mouse { button: b, pressed };
            let mb = if b == PointerButton::Right || (t.control_click_is_right && t.control_held) {
                MouseButton::Right
            } else {
                MouseButton::Left
            };
            let r = reaction_inputs(t, e);
            let t2 = next_state(t, e);
            let l = if t2.left_held { seq![Input::MouseHeld((MouseButton::Left, p))] } else { Seq::<Input>::empty() };
            let rr = if t2.right_held { seq![Input::MouseHeld((MouseButton::Right, p))] } else { Seq::<Input>::empty() };
            &&& r == seq![if pressed { Input::MouseDown((mb, p)) } else { Input::MouseUp((mb, p)) }] + l + rr
            &&& mb == MouseButton::Left ==> t2.left_held == pressed && t2.right_held == t.right_held
            &&& mb == MouseButton::Right ==> t2.right_held == pressed && t2.left_held == t.left_held
            &&& t2.cursor == Some(p)
            &&& !reaction_exit(t, e)
        }),
{
    let e = WindowInput::Mouse { button: b, pressed };
    let r = reaction_inputs(t, e);
    let t2 = next_state(t, e);
    let l = if t2.left_held { seq![Input::MouseHeld((MouseButton::Left, p))] } else { Seq::<Input>::empty() };
    let rr = if t2.right_held { seq![Input::MouseHeld((MouseButton::Right, p))] } else { Seq::<Input>::empty() };
    assert(held_inputs(t2) =~= l + rr);
}

} // verus!
