//! Input events received from a controller, and the synthesizer actions that
//! each one asks for.

use vstd::prelude::*;
use crate::text::{same_text, signed_decimal_text, signed_dec_chars};

verus! {

/// An input event sent by a controller; the variant is the message's `type`.
#[derive(Debug, Clone)]
pub enum RemoteInputEvent {
    MouseMove { x: i32, y: i32 },
    MouseClick { x: i32, y: i32, button: String },
    MouseDown { x: i32, y: i32, button: String },
    MouseUp { x: i32, y: i32, button: String },
    MouseScroll { delta_x: i32, delta_y: i32 },
    KeyPress { key: String },
    KeyDown { key: String },
    KeyUp { key: String },
    TypeText { text: String },
}

#[derive(Clone, Copy, Debug, PartialEq, Eq, Structural)]
pub enum MouseButton {
    Left,
    Right,
    Middle,
}

/// Press, release, or both in turn.
#[derive(Clone, Copy, Debug, PartialEq, Eq, Structural)]
pub enum Direction {
    Press,
    Release,
    Click,
}

#[derive(Clone, Copy, Debug, PartialEq, Eq, Structural)]
pub enum Axis {
    Vertical,
    Horizontal,
}

/// A key the synthesizer can press; `Function(n)` is the key Fn.
#[derive(Clone, Copy, Debug, PartialEq, Eq, Structural)]
pub enum KeyCode {
    Return,
    Tab,
    Escape,
    Backspace,
    Delete,
    Space,
    UpArrow,
    DownArrow,
    LeftArrow,
    RightArrow,
    Home,
    End,
    PageUp,
    PageDown,
    Shift,
    Control,
    Alt,
    Meta,
    Function(u8),
    Unicode(char),
}

/// One operation of the input synthesizer, in absolute screen coordinates.
#[derive(Debug, Clone)]
pub enum InputAction {
    MoveTo { x: i32, y: i32 },
    Button { button: MouseButton, direction: Direction },
    Scroll { amount: i32, axis: Axis },
    Key { key: KeyCode, direction: Direction },
    Text { text: String },
}

/// Lower-case form of a text as `str::to_lowercase` gives it.
pub uninterp spec fn lower_of(s: Seq<char>) -> Seq<char>;

/// Relies on `str::to_lowercase`: the result depends on the characters alone.
#[verifier::external_body]
fn lowercase(s: &str) -> (r: String)
    ensures
        r@ == lower_of(s@),
{
    s.to_lowercase()
}

/// Button named by a message; unknown names give the left button.
pub open spec fn button_spec(name: Seq<char>) -> MouseButton {
    if name == "right"@ {
        MouseButton::Right
    } else if name == "middle"@ {
        MouseButton::Middle
    } else {
        MouseButton::Left
    }
}

/// The key-name table, over lower-case names.
pub open spec fn named_key(n: Seq<char>) -> Option<KeyCode> {
    if n == "enter"@ || n == "return"@ {
        Some(KeyCode::Return)
    } else if n == "tab"@ {
        Some(KeyCode::Tab)
    } else if n == "escape"@ || n == "esc"@ {
        Some(KeyCode::Escape)
    } else if n == "backspace"@ {
        Some(KeyCode::Backspace)
    } else if n == "delete"@ {
        Some(KeyCode::Delete)
    } else if n == "space"@ {
        Some(KeyCode::Space)
    } else if n == "up"@ || n == "arrowup"@ {
        Some(KeyCode::UpArrow)
    } else if n == "down"@ || n == "arrowdown"@ {
        Some(KeyCode::DownArrow)
    } else if n == "left"@ || n == "arrowleft"@ {
        Some(KeyCode::LeftArrow)
    } else if n == "right"@ || n == "arrowright"@ {
        Some(KeyCode::RightArrow)
    } else if n == "home"@ {
        Some(KeyCode::Home)
    } else if n == "end"@ {
        Some(KeyCode::End)
    } else if n == "pageup"@ {
        Some(KeyCode::PageUp)
    } else if n == "pagedown"@ {
        Some(KeyCode::PageDown)
    } else if n == "shift"@ {
        Some(KeyCode::Shift)
    } else if n == "control"@ || n == "ctrl"@ {
        Some(KeyCode::Control)
    } else if n == "alt"@ {
        Some(KeyCode::Alt)
    } else if n == "meta"@ || n == "win"@ || n == "cmd"@ {
        Some(KeyCode::Meta)
    } else if n == "f1"@ {
        Some(KeyCode::Function(1))
    } else if n == "f2"@ {
        Some(KeyCode::Function(2))
    } else if n == "f3"@ {
        Some(KeyCode::Function(3))
    } else if n == "f4"@ {
        Some(KeyCode::Function(4))
    } else if n == "f5"@ {
        Some(KeyCode::Function(5))
    } else if n == "f6"@ {
        Some(KeyCode::Function(6))
    } else if n == "f7"@ {
        Some(KeyCode::Function(7))
    } else if n == "f8"@ {
        Some(KeyCode::Function(8))
    } else if n == "f9"@ {
        Some(KeyCode::Function(9))
    } else if n == "f10"@ {
        Some(KeyCode::Function(10))
    } else if n == "f11"@ {
        Some(KeyCode::Function(11))
    } else if n == "f12"@ {
        Some(KeyCode::Function(12))
    } else {
        None
    }
}

/// The key a name stands for: the table entry of its lower-case form, else
/// the character itself when the name is a single character, else nothing.
pub open spec fn key_spec(lowered: Seq<char>, key: Seq<char>) -> Option<KeyCode> {
    match named_key(lowered) {
        Some(k) => Some(k),
        None => if key.len() == 1 {
            Some(KeyCode::Unicode(key[0]))
        } else {
            None
        },
    }
}

/// The button a message names.
pub fn button_from_name(name: &str) -> (r: MouseButton)
    ensures
        r == button_spec(name@),
{
    if same_text(name, "right") {
        MouseButton::Right
    } else if same_text(name, "middle") {
        MouseButton::Middle
    } else {
        MouseButton::Left
    }
}

/// Looks a lower-case name up in the key-name table.
pub fn named_key_of(n: &str) -> (r: Option<KeyCode>)
    ensures
        r == named_key(n@),
{
    if same_text(n, "enter") || same_text(n, "return") {
        Some(KeyCode::Return)
    } else if same_text(n, "tab") {
        Some(KeyCode::Tab)
    } else if same_text(n, "escape") || same_text(n, "esc") {
        Some(KeyCode::Escape)
    } else if same_text(n, "backspace") {
        Some(KeyCode::Backspace)
    } else if same_text(n, "delete") {
        Some(KeyCode::Delete)
    } else if same_text(n, "space") {
        Some(KeyCode::Space)
    } else if same_text(n, "up") || same_text(n, "arrowup") {
        Some(KeyCode::UpArrow)
    } else if same_text(n, "down") || same_text(n, "arrowdown") {
        Some(KeyCode::DownArrow)
    } else if same_text(n, "left") || same_text(n, "arrowleft") {
        Some(KeyCode::LeftArrow)
    } else if same_text(n, "right") || same_text(n, "arrowright") {
        Some(KeyCode::RightArrow)
    } else if same_text(n, "home") {
        Some(KeyCode::Home)
    } else if same_text(n, "end") {
        Some(KeyCode::End)
    } else if same_text(n, "pageup") {
        Some(KeyCode::PageUp)
    } else if same_text(n, "pagedown") {
        Some(KeyCode::PageDown)
    } else if same_text(n, "shift") {
        Some(KeyCode::Shift)
    } else if same_text(n, "control") || same_text(n, "ctrl") {
        Some(KeyCode::Control)
    } else if same_text(n, "alt") {
        Some(KeyCode::Alt)
    } else if same_text(n, "meta") || same_text(n, "win") || same_text(n, "cmd") {
        Some(KeyCode::Meta)
    } else if same_text(n, "f1") {
        Some(KeyCode::Function(1))
    } else if same_text(n, "f2") {
        Some(KeyCode::Function(2))
    } else if same_text(n, "f3") {
        Some(KeyCode::Function(3))
    } else if same_text(n, "f4") {
        Some(KeyCode::Function(4))
    } else if same_text(n, "f5") {
        Some(KeyCode::Function(5))
    } else if same_text(n, "f6") {
        Some(KeyCode::Function(6))
    } else if same_text(n, "f7") {
        Some(KeyCode::Function(7))
    } else if same_text(n, "f8") {
        Some(KeyCode::Function(8))
    } else if same_text(n, "f9") {
        Some(KeyCode::Function(9))
    } else if same_text(n, "f10") {
        Some(KeyCode::Function(10))
    } else if same_text(n, "f11") {
        Some(KeyCode::Function(11))
    } else if same_text(n, "f12") {
        Some(KeyCode::Function(12))
    } else {
        None
    }
}

/// The key that `key` names, given its lower-case form `lowered`.
pub fn key_from_lowered(lowered: &str, key: &str) -> (r: Option<KeyCode>)
    ensures
        r == key_spec(lowered@, key@),
{
    match named_key_of(lowered) {
        Some(k) => Some(k),
        None => {
            if key.unicode_len() == 1 {
                Some(KeyCode::Unicode(key.get_char(0)))
            } else {
                None
            }
        },
    }
}

/// The key that a message's key name stands for; names matched
/// case-insensitively, unknown multi-character names give nothing.
pub fn resolve_key(key: &str) -> (r: Option<KeyCode>)
    ensures
        r == key_spec(lower_of(key@), key@),
{
    let lowered = lowercase(key);
    key_from_lowered(lowered.as_str(), key)
}

/// The actions a key event asks for with the key `k` already resolved.
pub open spec fn key_actions(k: Option<KeyCode>, d: Direction) -> Seq<InputAction> {
    match k {
        Some(key) => seq![InputAction::Key { key, direction: d }],
        None => Seq::empty(),
    }
}

/// The actions a scroll asks for: vertical first, then horizontal, each only
/// when its delta is not zero.
pub open spec fn scroll_actions(delta_x: i32, delta_y: i32) -> Seq<InputAction> {
    let v = if delta_y != 0 {
        seq![InputAction::Scroll { amount: delta_y, axis: Axis::Vertical }]
    } else {
        Seq::empty()
    };
    let h = if delta_x != 0 {
        seq![InputAction::Scroll { amount: delta_x, axis: Axis::Horizontal }]
    } else {
        Seq::empty()
    };
    v + h
}

/// The actions an event asks for, in the order the synthesizer applies
/// them; key names go through `lowered`, which gives a name's lower-case form.
pub open spec fn event_actions_with(e: RemoteInputEvent, lowered: spec_fn(Seq<char>) -> Seq<char>) -> Seq<
    InputAction,
> {
    match e {
        RemoteInputEvent::MouseMove { x, y } => seq![InputAction::MoveTo { x, y }],
        RemoteInputEvent::MouseClick { x, y, button } => seq![
            InputAction::MoveTo { x, y },
            InputAction::Button { button: button_spec(button@), direction: Direction::Click },
        ],
        RemoteInputEvent::MouseDown { x, y, button } => seq![
            InputAction::MoveTo { x, y },
            InputAction::Button { button: button_spec(button@), direction: Direction::Press },
        ],
        RemoteInputEvent::MouseUp { x, y, button } => seq![
            InputAction::MoveTo { x, y },
            InputAction::Button { button: button_spec(button@), direction: Direction::Release },
        ],
        RemoteInputEvent::MouseScroll { delta_x, delta_y } => scroll_actions(delta_x, delta_y),
        RemoteInputEvent::KeyPress { key } => key_actions(
            key_spec(lowered(key@), key@),
            Direction::Click,
        ),
        RemoteInputEvent::KeyDown { key } => key_actions(
            key_spec(lowered(key@), key@),
            Direction::Press,
        ),
        RemoteInputEvent::KeyUp { key } => key_actions(
            key_spec(lowered(key@), key@),
            Direction::Release,
        ),
        RemoteInputEvent::TypeText { text } => seq![InputAction::Text { text }],
    }
}

/// The actions an event asks for.
pub open spec fn event_actions(e: RemoteInputEvent) -> Seq<InputAction> {
    event_actions_with(e, |s: Seq<char>| lower_of(s))
}

fn key_event_actions(key: &str, direction: Direction) -> (r: Vec<InputAction>)
    ensures
        r@ == key_actions(key_spec(lower_of(key@), key@), direction),
{
    let mut v: Vec<InputAction> = Vec::new();
    match resolve_key(key) {
        Some(k) => {
            v.push(InputAction::Key { key: k, direction });
        },
        None => {},
    }
    proof {
        assert(v@ =~= key_actions(key_spec(lower_of(key@), key@), direction));
    }
    v
}

/// The actions that an input event received in a session asks for.
pub fn input_actions(event: RemoteInputEvent) -> (r: Vec<InputAction>)
    ensures
        r@ == event_actions(event),
{
    let ghost e = event;
    let mut v: Vec<InputAction> = Vec::new();
    match event {
        RemoteInputEvent::MouseMove { x, y } => {
            v.push(InputAction::MoveTo { x, y });
        },
        RemoteInputEvent::MouseClick { x, y, button } => {
            v.push(InputAction::MoveTo { x, y });
            v.push(
                InputAction::Button {
                    button: button_from_name(button.as_str()),
                    direction: Direction::Click,
                },
            );
        },
        RemoteInputEvent::MouseDown { x, y, button } => {
            v.push(InputAction::MoveTo { x, y });
            v.push(
                InputAction::Button {
                    button: button_from_name(button.as_str()),
                    direction: Direction::Press,
                },
            );
        },
        RemoteInputEvent::MouseUp { x, y, button } => {
            v.push(InputAction::MoveTo { x, y });
            v.push(
                InputAction::Button {
                    button: button_from_name(button.as_str()),
                    direction: Direction::Release,
                },
            );
        },
        RemoteInputEvent::MouseScroll { delta_x, delta_y } => {
            if delta_y != 0 {
                v.push(InputAction::Scroll { amount: delta_y, axis: Axis::Vertical });
            }
            if delta_x != 0 {
                v.push(InputAction::Scroll { amount: delta_x, axis: Axis::Horizontal });
            }
        },
        RemoteInputEvent::KeyPress { key } => {
            v = key_event_actions(key.as_str(), Direction::Click);
        },
        RemoteInputEvent::KeyDown { key } => {
            v = key_event_actions(key.as_str(), Direction::Press);
        },
        RemoteInputEvent::KeyUp { key } => {
            v = key_event_actions(key.as_str(), Direction::Release);
        },
        RemoteInputEvent::TypeText { text } => {
            v.push(InputAction::Text { text });
        },
    }
    proof {
        assert(v@ =~= event_actions(e));
    }
    v
}

/// The smaller key table of the one-shot key command, over lower-case names.
pub open spec fn command_key(n: Seq<char>) -> Option<KeyCode> {
    if n == "enter"@ || n == "return"@ {
        Some(KeyCode::Return)
    } else if n == "tab"@ {
        Some(KeyCode::Tab)
    } else if n == "escape"@ || n == "esc"@ {
        Some(KeyCode::Escape)
    } else if n == "backspace"@ {
        Some(KeyCode::Backspace)
    } else if n == "delete"@ {
        Some(KeyCode::Delete)
    } else if n == "space"@ {
        Some(KeyCode::Space)
    } else if n == "up"@ {
        Some(KeyCode::UpArrow)
    } else if n == "down"@ {
        Some(KeyCode::DownArrow)
    } else if n == "left"@ {
        Some(KeyCode::LeftArrow)
    } else if n == "right"@ {
        Some(KeyCode::RightArrow)
    } else {
        None
    }
}

/// Looks a lower-case name up in the key table of the one-shot key command.
pub fn command_key_of(n: &str) -> (r: Option<KeyCode>)
    ensures
        r == command_key(n@),
{
    if same_text(n, "enter") || same_text(n, "return") {
        Some(KeyCode::Return)
    } else if same_text(n, "tab") {
        Some(KeyCode::Tab)
    } else if same_text(n, "escape") || same_text(n, "esc") {
        Some(KeyCode::Escape)
    } else if same_text(n, "backspace") {
        Some(KeyCode::Backspace)
    } else if same_text(n, "delete") {
        Some(KeyCode::Delete)
    } else if same_text(n, "space") {
        Some(KeyCode::Space)
    } else if same_text(n, "up") {
        Some(KeyCode::UpArrow)
    } else if same_text(n, "down") {
        Some(KeyCode::DownArrow)
    } else if same_text(n, "left") {
        Some(KeyCode::LeftArrow)
    } else if same_text(n, "right") {
        Some(KeyCode::RightArrow)
    } else {
        None
    }
}

/// What a one-shot input command performs, and the message it reports once
/// the synthesizer has done so.
#[derive(Debug)]
pub struct InputPlan {
    pub actions: Vec<InputAction>,
    pub message: String,
}

/// Text `(x, y)`.
pub open spec fn point_chars(x: i32, y: i32) -> Seq<char> {
    seq!['('] + signed_dec_chars(x as int) + seq![','] + seq![' '] + signed_dec_chars(y as int)
        + seq![')']
}

fn point_text(x: i32, y: i32) -> (r: String)
    ensures
        r@ == point_chars(x, y),
{
    proof {
        reveal_strlit("(");
        reveal_strlit(", ");
        reveal_strlit(")");
    }
    let mut s = String::from_str("(");
    s.append(signed_decimal_text(x).as_str());
    s.append(", ");
    s.append(signed_decimal_text(y).as_str());
    s.append(")");
    proof {
        assert(s@ =~= point_chars(x, y));
    }
    s
}

/// Button of the click command; none or an unknown name gives the left one.
pub open spec fn optional_button(button: Option<String>) -> MouseButton {
    match button {
        Some(b) => button_spec(b@),
        None => MouseButton::Left,
    }
}

/// Click command: move to `(x, y)`, then click the button.
pub fn mouse_click_plan(x: i32, y: i32, button: Option<String>) -> (r: InputPlan)
    ensures
        r.actions@ == seq![
            InputAction::MoveTo { x, y },
            InputAction::Button { button: optional_button(button), direction: Direction::Click },
        ],
        r.message@ == "Clicked at "@ + point_chars(x, y),
{
    let b = match &button {
        Some(name) => button_from_name(name.as_str()),
        None => MouseButton::Left,
    };
    let mut actions: Vec<InputAction> = Vec::new();
    actions.push(InputAction::MoveTo { x, y });
    actions.push(InputAction::Button { button: b, direction: Direction::Click });
    let message = String::from_str("Clicked at ").concat(point_text(x, y).as_str());
    proof {
        assert(actions@ =~= seq![
            InputAction::MoveTo { x, y },
            InputAction::Button { button: optional_button(button), direction: Direction::Click },
        ]);
    }
    InputPlan { actions, message }
}

/// Move command: move the pointer to `(x, y)`.
pub fn mouse_move_plan(x: i32, y: i32) -> (r: InputPlan)
    ensures
        r.actions@ == seq![InputAction::MoveTo { x, y }],
        r.message@ == "Mouse moved to "@ + point_chars(x, y),
{
    let mut actions: Vec<InputAction> = Vec::new();
    actions.push(InputAction::MoveTo { x, y });
    let message = String::from_str("Mouse moved to ").concat(point_text(x, y).as_str());
    proof {
        assert(actions@ =~= seq![InputAction::MoveTo { x, y }]);
    }
    InputPlan { actions, message }
}

/// Key command: a named key is clicked; any other text is typed as it is.
pub fn key_press_plan(key: String) -> (r: InputPlan)
    ensures
        r.actions@.len() == 1,
        match command_key(lower_of(key@)) {
            Some(k) => r.actions@[0] == InputAction::Key { key: k, direction: Direction::Click },
            None => r.actions@[0] matches InputAction::Text { text } && text@ == key@,
        },
        r.message@ == "Key pressed: "@ + key@,
{
    let lowered = lowercase(key.as_str());
    let message = String::from_str("Key pressed: ").concat(key.as_str());
    let mut actions: Vec<InputAction> = Vec::new();
    match command_key_of(lowered.as_str()) {
        Some(k) => {
            actions.push(InputAction::Key { key: k, direction: Direction::Click });
        },
        None => {
            actions.push(InputAction::Text { text: key });
        },
    }
    InputPlan { actions, message }
}

/// Text command: type the text as it is.
pub fn type_text_plan(text: String) -> (r: InputPlan)
    ensures
        r.actions@.len() == 1,
        r.actions@[0] matches InputAction::Text { text: t } && t@ == text@,
        r.message@ == "Typed: "@ + text@,
{
    let message = String::from_str("Typed: ").concat(text.as_str());
    let mut actions: Vec<InputAction> = Vec::new();
    actions.push(InputAction::Text { text });
    InputPlan { actions, message }
}

} // verus!
