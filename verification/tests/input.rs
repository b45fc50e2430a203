use telera::layout::create_layout;
use telera::sidebar::PAGE_COUNT;
use telera::input::{text_contains, AppState, MouseButton, PhysicalKey, Reaction, WindowInput};

fn key(key: PhysicalKey, pressed: bool, text: Option<&str>) -> WindowInput {
    WindowInput::KeyboardInput { key, pressed, text: text.map(|t| t.chars().collect()) }
}

#[test]
fn control_plus_and_minus_zoom() {
    let mut s = AppState::new();
    assert_eq!(s.handle_event(key(PhysicalKey::ControlLeft, true, None)), Reaction::RequestRedraw);
    assert!(s.lcon);
    s.handle_event(key(PhysicalKey::Other, true, Some("+")));
    s.handle_event(key(PhysicalKey::Other, true, Some("+")));
    assert_eq!(s.clay_user_data.user_scale, 2);
    s.handle_event(key(PhysicalKey::Other, true, Some("-")));
    assert_eq!(s.clay_user_data.user_scale, 1);
    s.handle_event(key(PhysicalKey::ControlLeft, false, None));
    assert!(!s.lcon);
    s.handle_event(key(PhysicalKey::Other, true, Some("+")));
    assert_eq!(s.clay_user_data.user_scale, 1);
}

#[test]
fn zoom_out_stops_at_zero() {
    let mut s = AppState::new();
    s.handle_event(key(PhysicalKey::ControlRight, true, None));
    assert!(s.rcon && !s.lcon);
    s.handle_event(key(PhysicalKey::Other, true, Some("-")));
    assert_eq!(s.clay_user_data.user_scale, 0);
}

#[test]
fn plus_and_minus_in_one_key() {
    let mut s = AppState::new();
    s.handle_event(key(PhysicalKey::ControlLeft, true, None));
    s.handle_event(key(PhysicalKey::Other, true, Some("+-")));
    assert_eq!(s.clay_user_data.user_scale, 0);
}

#[test]
fn mouse_buttons() {
    let mut s = AppState::new();
    let r = s.handle_event(WindowInput::MouseInput { button: MouseButton::Left, pressed: true });
    assert_eq!(r, Reaction::RequestRedraw);
    assert!(s.clay_user_data.mouse_down_rising_edge);
    s.handle_event(WindowInput::MouseInput { button: MouseButton::Other, pressed: false });
    assert!(s.clay_user_data.mouse_down_rising_edge);
    s.handle_event(WindowInput::MouseInput { button: MouseButton::Left, pressed: false });
    assert!(!s.clay_user_data.mouse_down_rising_edge);
}

#[test]
fn other_reactions() {
    let mut s = AppState::new();
    assert_eq!(s.handle_event(WindowInput::CloseRequested), Reaction::Exit);
    assert_eq!(
        s.handle_event(WindowInput::Resized { width: 640, height: 480 }),
        Reaction::Resize { width: 640, height: 480 }
    );
    assert_eq!(s.handle_event(WindowInput::ScaleFactorChanged), Reaction::ApplyScaleFactor);
    assert_eq!(s.handle_event(WindowInput::RedrawRequested), Reaction::Render);
    assert_eq!(s.handle_event(WindowInput::MouseWheel), Reaction::RequestRedraw);
    assert_eq!(s.handle_event(WindowInput::CursorMoved), Reaction::RequestRedraw);
    assert_eq!(s.handle_event(WindowInput::Other), Reaction::Nothing);
    assert_eq!(s, AppState::new());
}

#[test]
fn overflow_is_refused() {
    let mut s = AppState::new();
    s.handle_event(key(PhysicalKey::ControlLeft, true, None));
    s.clay_user_data.user_scale = u32::MAX;
    assert!(!s.can_handle(&key(PhysicalKey::Other, true, Some("+"))));
    assert!(s.can_handle(&key(PhysicalKey::Other, true, Some("-"))));
    assert!(s.can_handle(&key(PhysicalKey::ControlLeft, false, Some("+"))));
}

#[test]
fn text_search() {
    let t: Vec<char> = "a+b".chars().collect();
    assert!(text_contains(&t, '+'));
    assert!(!text_contains(&t, '-'));
    assert!(!text_contains(&Vec::new(), '+'));
}

#[test]
fn press_is_used_by_one_frame() {
    let mut s = AppState::new();
    s.handle_event(WindowInput::MouseInput { button: MouseButton::Left, pressed: true });
    let mut hovered = vec![false; PAGE_COUNT];
    hovered[5] = true;
    assert_eq!(s.handle_event(WindowInput::RedrawRequested), Reaction::Render);
    let ops = s.render_frame(&hovered);
    assert!(!ops.is_empty());
    assert_eq!(s.clay_user_data.selected_page, 5);
    assert!(!s.clay_user_data.mouse_down_rising_edge);
    s.handle_event(WindowInput::CursorMoved);
    s.handle_event(WindowInput::MouseInput { button: MouseButton::Other, pressed: true });
    hovered[5] = false;
    hovered[7] = true;
    s.handle_event(WindowInput::RedrawRequested);
    s.render_frame(&hovered);
    assert_eq!(s.clay_user_data.selected_page, 5);
}

#[test]
fn render_frame_matches_layout() {
    let mut s = AppState::new();
    s.handle_event(WindowInput::MouseInput { button: MouseButton::Left, pressed: true });
    let mut copy = s.clay_user_data;
    let hovered = vec![false; PAGE_COUNT];
    let expected = create_layout(&mut copy, &hovered);
    assert_eq!(s.render_frame(&hovered), expected);
    assert_eq!(s.clay_user_data.selected_page, copy.selected_page);
    assert!(!s.clay_user_data.mouse_down_rising_edge);
}
