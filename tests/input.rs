use smartlab::input::{
    button_from_name, input_actions, key_from_lowered, key_press_plan, mouse_click_plan,
    mouse_move_plan, resolve_key, type_text_plan, Axis, Direction, InputAction, KeyCode,
    MouseButton, RemoteInputEvent,
};

fn is_move(a: &InputAction, x: i32, y: i32) -> bool {
    matches!(a, InputAction::MoveTo { x: ax, y: ay } if *ax == x && *ay == y)
}

fn is_button(a: &InputAction, b: MouseButton, d: Direction) -> bool {
    matches!(a, InputAction::Button { button, direction } if *button == b && *direction == d)
}

#[test]
fn move_then_left_click() {
    let a = input_actions(RemoteInputEvent::MouseMove { x: 100, y: 200 });
    assert_eq!(a.len(), 1);
    assert!(is_move(&a[0], 100, 200));
    let a = input_actions(RemoteInputEvent::MouseClick { x: 100, y: 200, button: "left".to_string() });
    assert_eq!(a.len(), 2);
    assert!(is_move(&a[0], 100, 200));
    assert!(is_button(&a[1], MouseButton::Left, Direction::Click));
}

#[test]
fn press_and_release_buttons() {
    let a = input_actions(RemoteInputEvent::MouseDown { x: 1, y: 2, button: "right".to_string() });
    assert!(is_button(&a[1], MouseButton::Right, Direction::Press));
    let a = input_actions(RemoteInputEvent::MouseUp { x: 1, y: 2, button: "middle".to_string() });
    assert!(is_button(&a[1], MouseButton::Middle, Direction::Release));
    assert_eq!(button_from_name("bogus"), MouseButton::Left);
    assert_eq!(button_from_name("Right"), MouseButton::Left);
}

#[test]
fn scroll_vertical_then_horizontal() {
    let a = input_actions(RemoteInputEvent::MouseScroll { delta_x: 3, delta_y: -2 });
    assert_eq!(a.len(), 2);
    assert!(matches!(a[0], InputAction::Scroll { amount: -2, axis: Axis::Vertical }));
    assert!(matches!(a[1], InputAction::Scroll { amount: 3, axis: Axis::Horizontal }));
    assert!(input_actions(RemoteInputEvent::MouseScroll { delta_x: 0, delta_y: 0 }).is_empty());
}

#[test]
fn key_table_is_case_insensitive() {
    assert_eq!(resolve_key("ENTER"), Some(KeyCode::Return));
    assert_eq!(resolve_key("Return"), Some(KeyCode::Return));
    assert_eq!(resolve_key("Esc"), Some(KeyCode::Escape));
    assert_eq!(resolve_key("ArrowLeft"), Some(KeyCode::LeftArrow));
    assert_eq!(resolve_key("CTRL"), Some(KeyCode::Control));
    assert_eq!(resolve_key("cmd"), Some(KeyCode::Meta));
    assert_eq!(resolve_key("F12"), Some(KeyCode::Function(12)));
    assert_eq!(resolve_key("pagedown"), Some(KeyCode::PageDown));
}

#[test]
fn single_characters_and_unknown_names() {
    assert_eq!(resolve_key("a"), Some(KeyCode::Unicode('a')));
    assert_eq!(resolve_key("A"), Some(KeyCode::Unicode('A')));
    assert_eq!(resolve_key("é"), Some(KeyCode::Unicode('é')));
    assert_eq!(resolve_key("f13"), None);
    assert_eq!(resolve_key("hello"), None);
    assert_eq!(resolve_key(""), None);
    assert_eq!(key_from_lowered("tab", "TAB"), Some(KeyCode::Tab));
    assert_eq!(key_from_lowered("xy", "XY"), None);
}

#[test]
fn key_events_map_directions() {
    let a = input_actions(RemoteInputEvent::KeyDown { key: "Shift".to_string() });
    assert!(matches!(a[0], InputAction::Key { key: KeyCode::Shift, direction: Direction::Press }));
    let a = input_actions(RemoteInputEvent::KeyUp { key: "shift".to_string() });
    assert!(matches!(a[0], InputAction::Key { key: KeyCode::Shift, direction: Direction::Release }));
    let a = input_actions(RemoteInputEvent::KeyPress { key: "x".to_string() });
    assert!(matches!(a[0], InputAction::Key { key: KeyCode::Unicode('x'), direction: Direction::Click }));
    assert!(input_actions(RemoteInputEvent::KeyPress { key: "nosuchkey".to_string() }).is_empty());
}

#[test]
fn type_text_event() {
    let a = input_actions(RemoteInputEvent::TypeText { text: "héllo".to_string() });
    assert!(matches!(&a[0], InputAction::Text { text } if text == "héllo"));
}

#[test]
fn command_plans_and_messages() {
    let p = mouse_click_plan(-5, 7, Some("right".to_string()));
    assert!(is_move(&p.actions[0], -5, 7));
    assert!(is_button(&p.actions[1], MouseButton::Right, Direction::Click));
    assert_eq!(p.message, "Clicked at (-5, 7)");
    let p = mouse_click_plan(i32::MIN, 0, None);
    assert!(is_button(&p.actions[1], MouseButton::Left, Direction::Click));
    assert_eq!(p.message, "Clicked at (-2147483648, 0)");
    assert_eq!(mouse_move_plan(10, 20).message, "Mouse moved to (10, 20)");
    let p = key_press_plan("Enter".to_string());
    assert!(matches!(p.actions[0], InputAction::Key { key: KeyCode::Return, direction: Direction::Click }));
    assert_eq!(p.message, "Key pressed: Enter");
    let p = key_press_plan("home".to_string());
    assert!(matches!(&p.actions[0], InputAction::Text { text } if text == "home"));
    let p = type_text_plan("abc".to_string());
    assert_eq!(p.message, "Typed: abc");
}
