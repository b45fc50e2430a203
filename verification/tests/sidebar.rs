use telera::sidebar::{
    initialize_user_data, main_content_title, sidebar_button, sidebar_pages, Border, ButtonStyle,
    ClayState, Palette, Rgb, PAGE_COUNT,
};

#[test]
fn palette_channels() {
    assert_eq!(Palette::Base.rgb(), Rgb { r: 252, g: 245, b: 199 });
    assert_eq!(Palette::Dark.rgb(), Rgb { r: 36, g: 62, b: 54 });
    assert_eq!(Palette::Pink.rgb(), Rgb { r: 239, g: 185, b: 203 });
    assert_eq!(Palette::Lavender.rgb(), Rgb { r: 230, g: 173, b: 236 });
    assert_eq!(Palette::Purple.rgb(), Rgb { r: 194, g: 135, b: 232 });
    assert_eq!(Palette::White.rgb(), Rgb { r: 255, g: 255, b: 255 });
    assert_eq!(Palette::Panel.rgb(), Rgb { r: 90, g: 90, b: 90 });
}

#[test]
fn hovered_button_with_press_is_clicked() {
    let style = sidebar_button(true, true, false);
    assert_eq!(
        style,
        ButtonStyle {
            background: Some(Palette::Lavender),
            border: None,
            text_color: Palette::Dark,
            clicked: true
        }
    );
}

#[test]
fn idle_selected_button() {
    let style = sidebar_button(false, true, true);
    assert_eq!(style.background, None);
    assert_eq!(style.text_color, Palette::Pink);
    assert_eq!(style.border, Some(Border { width: 5, color: Palette::Purple }));
    assert!(!style.clicked);
}

#[test]
fn hover_without_press_is_no_click() {
    assert!(!sidebar_button(true, false, false).clicked);
}

#[test]
fn click_selects_page_and_later_buttons_see_it() {
    let mut state = ClayState::new();
    state.mouse_down_rising_edge = true;
    let mut hovered = vec![false; PAGE_COUNT];
    hovered[4] = true;
    let styles = state.layout_sidebar(&hovered);
    assert_eq!(styles.len(), PAGE_COUNT);
    assert_eq!(state.selected_page, 4);
    // page 0 was selected when its button was drawn
    assert!(styles[0].border.is_some());
    assert!(styles[4].clicked);
    // the clicked button is drawn against the selection before its click
    assert!(styles[4].border.is_none());
    assert!(styles[5].border.is_none());
    assert!(state.mouse_down_rising_edge);
}

#[test]
fn last_click_wins() {
    let mut state = ClayState { mouse_down_rising_edge: true, selected_page: 2, user_scale: 3 };
    let hovered = vec![false, true, false, false, false, false, true, false, false];
    let styles = state.layout_sidebar(&hovered);
    assert_eq!(state.selected_page, 6);
    assert_eq!(state.user_scale, 3);
    assert!(styles[1].clicked && styles[6].clicked);
    // page 2 was still selected when button 1 was drawn, page 1 when button 2 was
    assert!(styles[1].border.is_none());
    assert!(styles[2].border.is_none());
    assert!(styles[6].border.is_none());
}

#[test]
fn no_press_keeps_page() {
    let mut state = ClayState { mouse_down_rising_edge: false, selected_page: 3, user_scale: 0 };
    let hovered = vec![true; PAGE_COUNT];
    let styles = state.layout_sidebar(&hovered);
    assert_eq!(state.selected_page, 3);
    assert!(styles.iter().all(|s| !s.clicked));
    assert!(styles[3].border.is_some());
    assert_eq!(styles.iter().filter(|s| s.border.is_some()).count(), 1);
}

#[test]
fn end_frame_clears_press() {
    let mut state = ClayState { mouse_down_rising_edge: true, selected_page: 1, user_scale: 2 };
    state.end_frame();
    assert_eq!(state, ClayState { mouse_down_rising_edge: false, selected_page: 1, user_scale: 2 });
}

#[test]
fn pages_and_titles() {
    let pages = sidebar_pages();
    assert_eq!(
        pages,
        vec![
            "Current Date", "Future Date", "Inventory lookup", "Add Items", "Edit Item",
            "Remove Items", "Web Lookup", "Chat AI", "Weather"
        ]
    );
    assert_eq!(main_content_title(0), Some("Current Date"));
    assert_eq!(main_content_title(1), None);
    assert_eq!(main_content_title(8), None);
}

#[test]
fn initialize_keeps_state() {
    let mut state = ClayState { mouse_down_rising_edge: true, selected_page: 7, user_scale: 9 };
    initialize_user_data(&mut state);
    assert_eq!(state, ClayState { mouse_down_rising_edge: true, selected_page: 7, user_scale: 9 });
    assert_eq!(ClayState::new(), ClayState { mouse_down_rising_edge: false, selected_page: 0, user_scale: 0 });
}
