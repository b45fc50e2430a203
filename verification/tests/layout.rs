use telera::layout::{create_layout, Direction, ElementDecl, ElementId, LayoutOp, Padding, Sizing, TextSpec};
use telera::sidebar::{ClayState, Palette, PAGE_COUNT};

fn depth_ok(ops: &[LayoutOp]) -> bool {
    let mut depth: i64 = 0;
    for op in ops {
        match op {
            LayoutOp::Open(_) => depth += 1,
            LayoutOp::Close => {
                if depth == 0 {
                    return false;
                }
                depth -= 1
            }
            LayoutOp::Text(_) => {}
        }
    }
    depth == 0
}

#[test]
fn first_page_layout() {
    let mut state = ClayState::new();
    let ops = create_layout(&mut state, &vec![false; PAGE_COUNT]);
    assert_eq!(ops.len(), 5 + 3 * PAGE_COUNT + 2 + 7 + 2);
    assert!(depth_ok(&ops));
    match ops[0] {
        LayoutOp::Open(d) => {
            assert_eq!(d.id, ElementId::Named("outer_container"));
            assert_eq!((d.width, d.height), (Sizing::Grow, Sizing::Grow));
            assert_eq!(d.padding, Padding { left: 8, right: 8, top: 8, bottom: 8 });
            assert_eq!(d.child_gap, 8);
            assert_eq!(d.background, Some(Palette::Base));
        }
        _ => panic!("outer container expected"),
    }
    match ops[1] {
        LayoutOp::Open(d) => {
            assert_eq!(d.id, ElementId::Named("sidebar"));
            assert_eq!(d.direction, Direction::TopToBottom);
            assert_eq!(d.corner_radius, 25);
            assert_eq!(d.background, Some(Palette::Dark));
        }
        _ => panic!("sidebar expected"),
    }
    assert_eq!(ops[3], LayoutOp::Text(TextSpec { text: "Pages:", font_size: 18, color: Palette::Dark }));
    // the first button carries the selection border
    match ops[5] {
        LayoutOp::Open(d) => {
            assert_eq!(d.id, ElementId::Indexed("page_button", 0));
            assert!(d.border.is_some());
            assert_eq!(d.padding, Padding { left: 16, right: 16, top: 8, bottom: 8 });
        }
        _ => panic!("button expected"),
    }
    assert_eq!(ops[6], LayoutOp::Text(TextSpec { text: "Current Date", font_size: 16, color: Palette::Pink }));
    assert_eq!(ops[5 + 3 * 8 + 1], LayoutOp::Text(TextSpec { text: "Weather", font_size: 16, color: Palette::Pink }));
    assert!(ops.contains(&LayoutOp::Text(TextSpec { text: "Current Date", font_size: 24, color: Palette::Dark })));
}

#[test]
fn other_page_has_empty_content() {
    let mut state = ClayState::new();
    state.mouse_down_rising_edge = true;
    let mut hovered = vec![false; PAGE_COUNT];
    hovered[2] = true;
    let ops = create_layout(&mut state, &hovered);
    assert_eq!(state.selected_page, 2);
    assert_eq!(ops.len(), 5 + 3 * PAGE_COUNT + 2 + 2);
    assert!(depth_ok(&ops));
    match ops[5 + 3 * 2] {
        LayoutOp::Open(d) => assert_eq!(d.background, Some(Palette::Lavender)),
        _ => panic!("button expected"),
    }
    assert_eq!(ops[5 + 3 * 2 + 1], LayoutOp::Text(TextSpec { text: "Inventory lookup", font_size: 16, color: Palette::Dark }));
}

#[test]
fn style_helpers() {
    let plain = ElementDecl {
        id: ElementId::Anonymous,
        width: Sizing::Fit,
        height: Sizing::Fit,
        padding: Padding { left: 0, right: 0, top: 0, bottom: 0 },
        child_gap: 0,
        direction: Direction::LeftToRight,
        background: None,
        corner_radius: 0,
        border: None,
    };
    let mut decl = plain;
    let grown = decl.layout_expand();
    assert_eq!((grown.width, grown.height), (Sizing::Grow, Sizing::Grow));
    assert_eq!(decl, grown);
    let mut panel_decl = plain;
    let panel = panel_decl.content_background_config();
    assert_eq!((panel.background, panel.corner_radius), (Some(Palette::Panel), 8));
    assert_eq!(panel.width, Sizing::Fit);
    assert_eq!(panel_decl, panel);
    let both = decl.content_background_config();
    assert_eq!((both.width, both.background), (Sizing::Grow, Some(Palette::Panel)));
}
