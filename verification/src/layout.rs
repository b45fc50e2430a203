//! The layout of the interface for one frame, as the sequence of elements and
//! texts that the layout engine receives: an outer container holding the
//! sidebar of page buttons and the main content area.

use vstd::prelude::*;
use crate::sidebar::{
    button_style_spec, page_label, selection_after, sidebar_page, ButtonStyle, ClayState,
    Palette, BUTTON_FONT_SIZE, PAGE_COUNT,
};

verus! {

/// How an element is sized along one axis.
#[derive(Clone, Copy, PartialEq, Eq, Structural, Debug)]
pub enum Sizing {
    /// As large as its content.
    Fit,
    /// As large as the room its parent leaves.
    Grow,
}

/// The axis along which an element places its children.
#[derive(Clone, Copy, PartialEq, Eq, Structural, Debug)]
pub enum Direction {
    LeftToRight,
    TopToBottom,
}

/// Room left inside an element's edges, in pixels.
#[derive(Clone, Copy, PartialEq, Eq, Structural, Debug)]
pub struct Padding {
    pub left: u16,
    pub right: u16,
    pub top: u16,
    pub bottom: u16,
}

/// The widths of an element's border on each side, and its colour; no colour
/// leaves the layout engine's default.
#[derive(Clone, Copy, PartialEq, Eq, Structural, Debug)]
pub struct BorderSpec {
    pub left: u16,
    pub right: u16,
    pub top: u16,
    pub bottom: u16,
    pub color: Option<Palette>,
}

/// How an element is identified to the layout engine.
#[derive(Clone, Copy, PartialEq, Eq, Debug)]
pub enum ElementId {
    Anonymous,
    Named(&'static str),
    Indexed(&'static str, u32),
}

/// The declaration of one element.
#[derive(Clone, Copy, PartialEq, Eq, Debug)]
pub struct ElementDecl {
    pub id: ElementId,
    pub width: Sizing,
    pub height: Sizing,
    pub padding: Padding,
    pub child_gap: u16,
    pub direction: Direction,
    pub background: Option<Palette>,
    /// Radius of all four corners, in pixels.
    pub corner_radius: u16,
    pub border: Option<BorderSpec>,
}

/// A run of text.
#[derive(Clone, Copy, PartialEq, Eq, Debug)]
pub struct TextSpec {
    pub text: &'static str,
    pub font_size: u16,
    pub color: Palette,
}

/// One step of the layout: open an element (its children follow until the
/// matching close), add a text, or close the innermost open element.
#[derive(Clone, Copy, PartialEq, Eq, Debug)]
pub enum LayoutOp {
    Open(ElementDecl),
    Text(TextSpec),
    Close,
}

/// The same padding on all four sides.
pub open spec fn padding_all(p: u16) -> Padding {
    Padding { left: p, right: p, top: p, bottom: p }
}

/// An element with nothing set: anonymous, fitted to its content, laid out
/// left to right, with no padding, gap, fill, rounding or border.
pub open spec fn plain_decl() -> ElementDecl {
    ElementDecl {
        id: ElementId::Anonymous,
        width: Sizing::Fit,
        height: Sizing::Fit,
        padding: padding_all(0),
        child_gap: 0,
        direction: Direction::LeftToRight,
        background: None,
        corner_radius: 0,
        border: None,
    }
}

/// A border of the same width on all sides.
pub open spec fn border_all(width: u16, color: Option<Palette>) -> BorderSpec {
    BorderSpec { left: width, right: width, top: width, bottom: width, color }
}

/// A border along the bottom edge only.
pub open spec fn border_bottom(width: u16, color: Option<Palette>) -> BorderSpec {
    BorderSpec { left: 0, right: 0, top: 0, bottom: width, color }
}

/// The container of the whole interface.
pub open spec fn outer_decl() -> ElementDecl {
    ElementDecl {
        id: ElementId::Named("outer_container"),
        width: Sizing::Grow,
        height: Sizing::Grow,
        padding: padding_all(8),
        child_gap: 8,
        background: Some(Palette::Base),
        ..plain_decl()
    }
}

/// The sidebar column.
pub open spec fn sidebar_decl() -> ElementDecl {
    ElementDecl {
        id: ElementId::Named("sidebar"),
        direction: Direction::TopToBottom,
        padding: padding_all(20),
        child_gap: 20,
        background: Some(Palette::Dark),
        corner_radius: 25,
        ..plain_decl()
    }
}

/// The heading row above the page buttons.
pub open spec fn heading_decl() -> ElementDecl {
    ElementDecl { width: Sizing::Grow, border: Some(border_bottom(5, None)), ..plain_decl() }
}

/// The text of the heading row.
pub open spec fn heading_text() -> TextSpec {
    TextSpec { text: "Pages:", font_size: 18, color: Palette::Dark }
}

/// The element of the button for page `i`, drawn in the given style. Each
/// button is named by the label `page_button` and its page index, so that
/// whether the pointer is over it can be asked of the layout engine before
/// the frame is laid out.
pub open spec fn button_decl(i: int, style: ButtonStyle) -> ElementDecl {
    ElementDecl {
        id: ElementId::Indexed("page_button", i as u32),
        padding: Padding { left: 16, right: 16, top: 8, bottom: 8 },
        corner_radius: 5,
        background: style.background,
        border: match style.border {
            Some(b) => Some(border_all(b.width, Some(b.color))),
            None => None,
        },
        ..plain_decl()
    }
}

/// The label of the button for page `i`, drawn in the given style.
pub open spec fn button_text(i: int, style: ButtonStyle) -> TextSpec {
    TextSpec { text: page_label(i), font_size: BUTTON_FONT_SIZE, color: style.text_color }
}

/// The main content area.
pub open spec fn main_decl() -> ElementDecl {
    ElementDecl {
        id: ElementId::Named("Main Content"),
        direction: Direction::TopToBottom,
        width: Sizing::Grow,
        height: Sizing::Grow,
        border: Some(border_all(3, Some(Palette::Dark))),
        ..plain_decl()
    }
}

/// The title bar of the first page.
pub open spec fn titlebar_decl() -> ElementDecl {
    ElementDecl {
        id: ElementId::Named("current-date-titlebar"),
        width: Sizing::Grow,
        border: Some(border_bottom(5, Some(Palette::Dark))),
        ..plain_decl()
    }
}

/// An empty element that takes up the room it is given.
pub open spec fn spacer_decl() -> ElementDecl {
    ElementDecl { width: Sizing::Grow, height: Sizing::Grow, ..plain_decl() }
}

/// The text of the first page's title bar.
pub open spec fn title_text() -> TextSpec {
    TextSpec { text: "Current Date", font_size: 24, color: Palette::Dark }
}

/// The style of button `i`: the selection it sees is the one left by the
/// buttons drawn before it.
pub open spec fn button_style_at(before: ClayState, hovered: Seq<bool>, i: int) -> ButtonStyle {
    button_style_spec(
        hovered[i],
        before.mouse_down_rising_edge,
        selection_after(before.selected_page, hovered, before.mouse_down_rising_edge, i) == i,
    )
}

/// The steps of the first `n` page buttons.
pub open spec fn button_ops(before: ClayState, hovered: Seq<bool>, n: int) -> Seq<LayoutOp>
    decreases n,
{
    if n <= 0 {
        Seq::empty()
    } else {
        let i = n - 1;
        let style = button_style_at(before, hovered, i);
        button_ops(before, hovered, i) + seq![
            LayoutOp::Open(button_decl(i, style)),
            LayoutOp::Text(button_text(i, style)),
            LayoutOp::Close,
        ]
    }
}

/// The steps of the main content for the selected page: a title bar between
/// two spacers on the first page, nothing on the others.
pub open spec fn content_ops(page: u8) -> Seq<LayoutOp> {
    if page == 0 {
        seq![
            LayoutOp::Open(titlebar_decl()),
            LayoutOp::Open(spacer_decl()),
            LayoutOp::Close,
            LayoutOp::Text(title_text()),
            LayoutOp::Open(spacer_decl()),
            LayoutOp::Close,
            LayoutOp::Close,
        ]
    } else {
        Seq::empty()
    }
}

/// The whole frame, given the state before it and which buttons are hovered.
pub open spec fn layout_spec(before: ClayState, hovered: Seq<bool>) -> Seq<LayoutOp> {
    let after = selection_after(
        before.selected_page,
        hovered,
        before.mouse_down_rising_edge,
        hovered.len() as int,
    );
    seq![
        LayoutOp::Open(outer_decl()),
        LayoutOp::Open(sidebar_decl()),
        LayoutOp::Open(heading_decl()),
        LayoutOp::Text(heading_text()),
        LayoutOp::Close,
    ] + button_ops(before, hovered, hovered.len() as int) + seq![
        LayoutOp::Close,
        LayoutOp::Open(main_decl()),
    ] + content_ops(after) + seq![LayoutOp::Close, LayoutOp::Close]
}

/// The nesting depth after running `ops` from depth `d`, or none when a
/// close comes with no element open.
pub open spec fn depth_after(ops: Seq<LayoutOp>, d: int) -> Option<int>
    decreases ops.len(),
{
    if ops.len() == 0 {
        Some(d)
    } else {
        match ops[0] {
            LayoutOp::Open(_) => depth_after(ops.drop_first(), d + 1),
            LayoutOp::Text(_) => depth_after(ops.drop_first(), d),
            LayoutOp::Close => if d <= 0 {
                None
            } else {
                depth_after(ops.drop_first(), d - 1)
            },
        }
    }
}

/// Every element opened in `ops` is closed again, and nothing is closed
/// that was not opened.
pub open spec fn well_nested(ops: Seq<LayoutOp>) -> bool {
    depth_after(ops, 0) == Some(0int)
}

proof fn lemma_depth_concat(a: Seq<LayoutOp>, b: Seq<LayoutOp>, d: int)
    ensures
        depth_after(a + b, d) == match depth_after(a, d) {
            Some(e) => depth_after(b, e),
            None => None,
        },
    decreases a.len(),
{
    if a.len() > 0 {
        assert((a + b).drop_first() =~= a.drop_first() + b);
        assert((a + b)[0] == a[0]);
        match a[0] {
            LayoutOp::Open(_) => lemma_depth_concat(a.drop_first(), b, d + 1),
            LayoutOp::Text(_) => lemma_depth_concat(a.drop_first(), b, d),
            LayoutOp::Close => if d > 0 {
                lemma_depth_concat(a.drop_first(), b, d - 1)
            },
        }
    } else {
        assert(a + b =~= b);
    }
}

proof fn lemma_element_depth(e: ElementDecl, t: TextSpec, d: int)
    requires
        d >= 0,
    ensures
        depth_after(seq![LayoutOp::Open(e), LayoutOp::Text(t), LayoutOp::Close], d) == Some(d),
{
    reveal_with_fuel(depth_after, 4);
    let s = seq![LayoutOp::Open(e), LayoutOp::Text(t), LayoutOp::Close];
    assert(s.drop_first() =~= seq![LayoutOp::Text(t), LayoutOp::Close]);
    assert(s.drop_first().drop_first() =~= seq![LayoutOp::Close]);
    assert(s.drop_first().drop_first().drop_first() =~= Seq::<LayoutOp>::empty());
}

proof fn lemma_buttons_depth(before: ClayState, hovered: Seq<bool>, n: int, d: int)
    requires
        d >= 0,
    ensures
        depth_after(button_ops(before, hovered, n), d) == Some(d),
    decreases n,
{
    if n <= 0 {
    } else {
        let i = n - 1;
        let style = button_style_at(before, hovered, i);
        lemma_buttons_depth(before, hovered, i, d);
        lemma_element_depth(button_decl(i, style), button_text(i, style), d);
        lemma_depth_concat(button_ops(before, hovered, i), seq![
            LayoutOp::Open(button_decl(i, style)),
            LayoutOp::Text(button_text(i, style)),
            LayoutOp::Close,
        ], d);
    }
}

proof fn lemma_content_depth(page: u8, d: int)
    requires
        d >= 0,
    ensures
        depth_after(content_ops(page), d) == Some(d),
{
    if page == 0 {
        let c = content_ops(page);
        let a = seq![LayoutOp::Open(titlebar_decl())];
        let b = seq![LayoutOp::Open(spacer_decl()), LayoutOp::Close];
        let t = seq![LayoutOp::Text(title_text())];
        let z = seq![LayoutOp::Close];
        assert(c =~= a + (b + (t + (b + z))));
        assert(depth_after(b, d + 1) == Some(d + 1)) by {
            reveal_with_fuel(depth_after, 3);
            assert(b.drop_first() =~= seq![LayoutOp::Close]);
            assert(b.drop_first().drop_first() =~= Seq::<LayoutOp>::empty());
        }
        assert(depth_after(t, d + 1) == Some(d + 1)) by {
            reveal_with_fuel(depth_after, 2);
            assert(t.drop_first() =~= Seq::<LayoutOp>::empty());
        }
        assert(depth_after(z, d + 1) == Some(d)) by {
            reveal_with_fuel(depth_after, 2);
            assert(z.drop_first() =~= Seq::<LayoutOp>::empty());
        }
        assert(depth_after(a, d) == Some(d + 1)) by {
            reveal_with_fuel(depth_after, 2);
            assert(a.drop_first() =~= Seq::<LayoutOp>::empty());
        }
        lemma_depth_concat(b, z, d + 1);
        lemma_depth_concat(t, b + z, d + 1);
        lemma_depth_concat(b, t + (b + z), d + 1);
        lemma_depth_concat(a, b + (t + (b + z)), d);
    } else {
    }
}

/// The layout of every frame is well nested: each element opened is closed
/// again, and no close comes without an open element.
pub proof fn law_layout_well_nested(before: ClayState, hovered: Seq<bool>)
    ensures
        well_nested(layout_spec(before, hovered)),
{
    let after = selection_after(before.selected_page, hovered, before.mouse_down_rising_edge, hovered.len() as int);
    let head = seq![
        LayoutOp::Open(outer_decl()),
        LayoutOp::Open(sidebar_decl()),
        LayoutOp::Open(heading_decl()),
        LayoutOp::Text(heading_text()),
        LayoutOp::Close,
    ];
    let buttons = button_ops(before, hovered, hovered.len() as int);
    let mid = seq![LayoutOp::Close, LayoutOp::Open(main_decl())];
    let content = content_ops(after);
    let tail = seq![LayoutOp::Close, LayoutOp::Close];
    assert(layout_spec(before, hovered) =~= head + (buttons + (mid + (content + tail))));
    assert(depth_after(head, 0) == Some(2int)) by {
        reveal_with_fuel(depth_after, 6);
        let h1 = head.drop_first();
        let h2 = h1.drop_first();
        let h3 = h2.drop_first();
        let h4 = h3.drop_first();
        assert(h4 =~= seq![LayoutOp::Close]);
        assert(h4.drop_first() =~= Seq::<LayoutOp>::empty());
    }
    assert(depth_after(mid, 2) == Some(2int)) by {
        reveal_with_fuel(depth_after, 3);
        assert(mid.drop_first() =~= seq![LayoutOp::Open(main_decl())]);
        assert(mid.drop_first().drop_first() =~= Seq::<LayoutOp>::empty());
    }
    assert(depth_after(tail, 2) == Some(0int)) by {
        reveal_with_fuel(depth_after, 3);
        assert(tail.drop_first() =~= seq![LayoutOp::Close]);
        assert(tail.drop_first().drop_first() =~= Seq::<LayoutOp>::empty());
    }
    lemma_buttons_depth(before, hovered, hovered.len() as int, 2);
    lemma_content_depth(after, 2);
    lemma_depth_concat(content, tail, 2);
    lemma_depth_concat(mid, content + tail, 2);
    lemma_depth_concat(buttons, mid + (content + tail), 2);
    lemma_depth_concat(head, buttons + (mid + (content + tail)), 0);
}

proof fn lemma_button_ops_index(before: ClayState, hovered: Seq<bool>, n: int)
    requires
        n >= 0,
    ensures
        button_ops(before, hovered, n).len() == 3 * n,
        forall|i: int| 0 <= i < n ==> {
            let style = button_style_at(before, hovered, i);
            &&& #[trigger] button_ops(before, hovered, n)[3 * i] == LayoutOp::Open(button_decl(i, style))
            &&& button_ops(before, hovered, n)[3 * i + 1] == LayoutOp::Text(button_text(i, style))
            &&& button_ops(before, hovered, n)[3 * i + 2] == LayoutOp::Close
        },
    decreases n,
{
    if n > 0 {
        lemma_button_ops_index(before, hovered, n - 1);
        let front = button_ops(before, hovered, n - 1);
        let whole = button_ops(before, hovered, n);
        assert forall|i: int| 0 <= i < n implies {
            let style = button_style_at(before, hovered, i);
            &&& #[trigger] whole[3 * i] == LayoutOp::Open(button_decl(i, style))
            &&& whole[3 * i + 1] == LayoutOp::Text(button_text(i, style))
            &&& whole[3 * i + 2] == LayoutOp::Close
        } by {
            if i < n - 1 {
                assert(whole[3 * i] == front[3 * i]);
                assert(whole[3 * i + 1] == front[3 * i + 1]);
                assert(whole[3 * i + 2] == front[3 * i + 2]);
            }
        }
    }
}

/// The sidebar labels, in page order.
pub proof fn law_page_labels_in_order()
    ensures
        page_label(0) == "Current Date",
        page_label(1) == "Future Date",
        page_label(2) == "Inventory lookup",
        page_label(3) == "Add Items",
        page_label(4) == "Edit Item",
        page_label(5) == "Remove Items",
        page_label(6) == "Web Lookup",
        page_label(7) == "Chat AI",
        page_label(8) == "Weather",
{
}

/// In every frame, the sidebar holds one button per page, in page order:
/// button `i` is the element named `page_button` with index `i`, it holds
/// exactly one text, which is page `i`'s label (the label `sidebar_pages`
/// gives at `i`) at the button font size, and it is filled lavender with a
/// dark label while hovered and unfilled with a pink label otherwise.
pub proof fn law_buttons_labelled_in_page_order(before: ClayState, hovered: Seq<bool>)
    requires
        hovered.len() == PAGE_COUNT,
    ensures
        forall|i: int| 0 <= i < PAGE_COUNT ==> {
            &&& (#[trigger] layout_spec(before, hovered)[5 + 3 * i]) matches LayoutOp::Open(d)
                && d.id == ElementId::Indexed("page_button", i as u32)
                && d.background == (if hovered[i] { Some(Palette::Lavender) } else { None })
            &&& layout_spec(before, hovered)[5 + 3 * i + 1] matches LayoutOp::Text(t)
                && t.text == page_label(i) && t.font_size == BUTTON_FONT_SIZE
                && t.color == (if hovered[i] { Palette::Dark } else { Palette::Pink })
            &&& layout_spec(before, hovered)[5 + 3 * i + 2] == LayoutOp::Close
        },
{
    let n = hovered.len() as int;
    lemma_button_ops_index(before, hovered, n);
    let after = selection_after(before.selected_page, hovered, before.mouse_down_rising_edge, n);
    let head = seq![
        LayoutOp::Open(outer_decl()),
        LayoutOp::Open(sidebar_decl()),
        LayoutOp::Open(heading_decl()),
        LayoutOp::Text(heading_text()),
        LayoutOp::Close,
    ];
    let buttons = button_ops(before, hovered, n);
    let rest = seq![LayoutOp::Close, LayoutOp::Open(main_decl())] + content_ops(after) + seq![
        LayoutOp::Close,
        LayoutOp::Close,
    ];
    assert(layout_spec(before, hovered) =~= head + buttons + rest);
    assert forall|i: int| 0 <= i < PAGE_COUNT implies {
        &&& (#[trigger] layout_spec(before, hovered)[5 + 3 * i]) matches LayoutOp::Open(d)
            && d.id == ElementId::Indexed("page_button", i as u32)
            && d.background == (if hovered[i] { Some(Palette::Lavender) } else { None })
        &&& layout_spec(before, hovered)[5 + 3 * i + 1] matches LayoutOp::Text(t)
            && t.text == page_label(i) && t.font_size == BUTTON_FONT_SIZE
            && t.color == (if hovered[i] { Palette::Dark } else { Palette::Pink })
        &&& layout_spec(before, hovered)[5 + 3 * i + 2] == LayoutOp::Close
    } by {
        let l = layout_spec(before, hovered);
        assert(l[5 + 3 * i] == buttons[3 * i]);
        assert(l[5 + 3 * i + 1] == buttons[3 * i + 1]);
        assert(l[5 + 3 * i + 2] == buttons[3 * i + 2]);
    }
}

fn plain() -> (d: ElementDecl)
    ensures
        d == plain_decl(),
{
    ElementDecl {
        id: ElementId::Anonymous,
        width: Sizing::Fit,
        height: Sizing::Fit,
        padding: Padding { left: 0, right: 0, top: 0, bottom: 0 },
        child_gap: 0,
        direction: Direction::LeftToRight,
        background: None,
        corner_radius: 0,
        border: None,
    }
}

fn button_element(i: usize, style: ButtonStyle) -> (d: ElementDecl)
    requires
        i < PAGE_COUNT,
    ensures
        d == button_decl(i as int, style),
{
    let border = match style.border {
        Some(b) => Some(BorderSpec { left: b.width, right: b.width, top: b.width, bottom: b.width, color: Some(b.color) }),
        None => None,
    };
    ElementDecl {
        id: ElementId::Indexed("page_button", i as u32),
        padding: Padding { left: 16, right: 16, top: 8, bottom: 8 },
        corner_radius: 5,
        background: style.background,
        border,
        ..plain()
    }
}

impl ElementDecl {
    /// Grows this element to fill its parent in both directions, and returns
    /// a copy of the result.
    pub fn layout_expand(&mut self) -> (d: Self)
        ensures
            *final(self) == (ElementDecl { width: Sizing::Grow, height: Sizing::Grow, ..*old(self) }),
            d == *final(self),
    {
        self.width = Sizing::Grow;
        self.height = Sizing::Grow;
        *self
    }

    /// Styles this element as a content panel, grey with rounded corners,
    /// and returns a copy of the result.
    pub fn content_background_config(&mut self) -> (d: Self)
        ensures
            *final(self) == (ElementDecl { background: Some(Palette::Panel), corner_radius: 8, ..*old(self) }),
            d == *final(self),
    {
        self.background = Some(Palette::Panel);
        self.corner_radius = 8;
        *self
    }
}

/// Lays out one frame. `hovered[i]` tells whether the pointer is over the
/// button of page `i`. The sidebar decides the selected page as its buttons
/// are drawn, and the main content shows the page selected after them.
pub fn create_layout(user_data: &mut ClayState, hovered: &Vec<bool>) -> (ops: Vec<LayoutOp>)
    requires
        hovered.len() == PAGE_COUNT,
    ensures
        ops@ == layout_spec(*old(user_data), hovered@),
        final(user_data).selected_page == selection_after(
            old(user_data).selected_page,
            hovered@,
            old(user_data).mouse_down_rising_edge,
            PAGE_COUNT as int,
        ),
        final(user_data).mouse_down_rising_edge == old(user_data).mouse_down_rising_edge,
        final(user_data).user_scale == old(user_data).user_scale,
{
    let ghost before = *user_data;
    let styles = user_data.layout_sidebar(hovered);
    let mut ops: Vec<LayoutOp> = Vec::new();
    ops.push(LayoutOp::Open(ElementDecl {
        id: ElementId::Named("outer_container"),
        width: Sizing::Grow,
        height: Sizing::Grow,
        padding: Padding { left: 8, right: 8, top: 8, bottom: 8 },
        child_gap: 8,
        background: Some(Palette::Base),
        ..plain()
    }));
    ops.push(LayoutOp::Open(ElementDecl {
        id: ElementId::Named("sidebar"),
        direction: Direction::TopToBottom,
        padding: Padding { left: 20, right: 20, top: 20, bottom: 20 },
        child_gap: 20,
        background: Some(Palette::Dark),
        corner_radius: 25,
        ..plain()
    }));
    ops.push(LayoutOp::Open(ElementDecl {
        width: Sizing::Grow,
        border: Some(BorderSpec { left: 0, right: 0, top: 0, bottom: 5, color: None }),
        ..plain()
    }));
    ops.push(LayoutOp::Text(TextSpec { text: "Pages:", font_size: 18, color: Palette::Dark }));
    ops.push(LayoutOp::Close);
    let ghost prefix = ops@;
    assert(prefix =~= seq![
        LayoutOp::Open(outer_decl()),
        LayoutOp::Open(sidebar_decl()),
        LayoutOp::Open(heading_decl()),
        LayoutOp::Text(heading_text()),
        LayoutOp::Close,
    ]);
    let mut i: usize = 0;
    while i < PAGE_COUNT
        invariant
            i <= PAGE_COUNT,
            hovered.len() == PAGE_COUNT,
            styles.len() == PAGE_COUNT,
            forall|j: int| 0 <= j < PAGE_COUNT ==> #[trigger] styles[j] == button_style_at(before, hovered@, j),
            ops@ == prefix + button_ops(before, hovered@, i as int),
        decreases PAGE_COUNT - i,
    {
        let style = styles[i];
        ops.push(LayoutOp::Open(button_element(i, style)));
        ops.push(LayoutOp::Text(TextSpec { text: sidebar_page(i), font_size: BUTTON_FONT_SIZE, color: style.text_color }));
        ops.push(LayoutOp::Close);
        proof {
            assert(button_ops(before, hovered@, i + 1) == button_ops(before, hovered@, i as int) + seq![
                LayoutOp::Open(button_decl(i as int, style)),
                LayoutOp::Text(button_text(i as int, style)),
                LayoutOp::Close,
            ]);
            assert(ops@ =~= prefix + button_ops(before, hovered@, i + 1));
        }
        i = i + 1;
    }
    let ghost middle = ops@;
    ops.push(LayoutOp::Close);
    ops.push(LayoutOp::Open(ElementDecl {
        id: ElementId::Named("Main Content"),
        direction: Direction::TopToBottom,
        width: Sizing::Grow,
        height: Sizing::Grow,
        border: Some(BorderSpec { left: 3, right: 3, top: 3, bottom: 3, color: Some(Palette::Dark) }),
        ..plain()
    }));
    let ghost with_main = ops@;
    assert(with_main =~= middle + seq![LayoutOp::Close, LayoutOp::Open(main_decl())]);
    if user_data.selected_page == 0 {
        ops.push(LayoutOp::Open(ElementDecl {
            id: ElementId::Named("current-date-titlebar"),
            width: Sizing::Grow,
            border: Some(BorderSpec { left: 0, right: 0, top: 0, bottom: 5, color: Some(Palette::Dark) }),
            ..plain()
        }));
        ops.push(LayoutOp::Open(ElementDecl { width: Sizing::Grow, height: Sizing::Grow, ..plain() }));
        ops.push(LayoutOp::Close);
        ops.push(LayoutOp::Text(TextSpec { text: "Current Date", font_size: 24, color: Palette::Dark }));
        ops.push(LayoutOp::Open(ElementDecl { width: Sizing::Grow, height: Sizing::Grow, ..plain() }));
        ops.push(LayoutOp::Close);
        ops.push(LayoutOp::Close);
    }
    let ghost with_content = ops@;
    assert(with_content =~= with_main + content_ops(user_data.selected_page));
    ops.push(LayoutOp::Close);
    ops.push(LayoutOp::Close);
    assert(ops@ =~= layout_spec(before, hovered@));
    ops
}

} // verus!
