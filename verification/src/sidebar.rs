//! The sidebar of page buttons and the state that the layout reads each frame.

use vstd::prelude::*;

verus! {

/// The named colours of the interface.
#[derive(Clone, Copy, PartialEq, Eq, Structural, Debug)]
pub enum Palette {
    White,
    Base,
    Dark,
    Pink,
    Lavender,
    Purple,
    Panel,
}

/// A colour with one byte per channel.
#[derive(Clone, Copy, PartialEq, Eq, Structural, Debug)]
pub struct Rgb {
    pub r: u8,
    pub g: u8,
    pub b: u8,
}

/// The channels of each palette colour.
pub open spec fn palette_rgb(p: Palette) -> Rgb {
    match p {
        Palette::White => Rgb { r: 255, g: 255, b: 255 },
        Palette::Base => Rgb { r: 252, g: 245, b: 199 },
        Palette::Dark => Rgb { r: 36, g: 62, b: 54 },
        Palette::Pink => Rgb { r: 239, g: 185, b: 203 },
        Palette::Lavender => Rgb { r: 230, g: 173, b: 236 },
        Palette::Purple => Rgb { r: 194, g: 135, b: 232 },
        Palette::Panel => Rgb { r: 90, g: 90, b: 90 },
    }
}

impl Palette {
    /// The channels of this colour.
    pub fn rgb(self) -> (c: Rgb)
        ensures
            c == palette_rgb(self),
    {
        match self {
            Palette::White => Rgb { r: 255, g: 255, b: 255 },
            Palette::Base => Rgb { r: 252, g: 245, b: 199 },
            Palette::Dark => Rgb { r: 36, g: 62, b: 54 },
            Palette::Pink => Rgb { r: 239, g: 185, b: 203 },
            Palette::Lavender => Rgb { r: 230, g: 173, b: 236 },
            Palette::Purple => Rgb { r: 194, g: 135, b: 232 },
            Palette::Panel => Rgb { r: 90, g: 90, b: 90 },
        }
    }
}

/// A border drawn around an element.
#[derive(Clone, Copy, PartialEq, Eq, Structural, Debug)]
pub struct Border {
    pub width: u16,
    pub color: Palette,
}

/// How one sidebar button is drawn this frame, and whether it was clicked.
#[derive(Clone, Copy, PartialEq, Eq, Structural, Debug)]
pub struct ButtonStyle {
    /// Fill behind the label; none leaves the sidebar colour showing.
    pub background: Option<Palette>,
    /// Border that marks the selected page.
    pub border: Option<Border>,
    /// Colour of the label.
    pub text_color: Palette,
    /// The button was hovered while the mouse button went down.
    pub clicked: bool,
}

/// Font size of the sidebar button labels.
pub const BUTTON_FONT_SIZE: u16 = 16;

/// Width of the border around the selected page's button.
pub const SELECTED_BORDER_WIDTH: u16 = 5;

/// Number of pages offered in the sidebar.
pub const PAGE_COUNT: usize = 9;

/// The look of a sidebar button: lavender behind a dark label while hovered,
/// a pink label otherwise, a purple border when its page is selected, and a
/// click exactly when it is hovered while the mouse button goes down.
pub open spec fn button_style_spec(hovered: bool, click_event: bool, selected: bool) -> ButtonStyle {
    ButtonStyle {
        background: if hovered { Some(Palette::Lavender) } else { None },
        border: if selected {
            Some(Border { width: SELECTED_BORDER_WIDTH, color: Palette::Purple })
        } else {
            None
        },
        text_color: if hovered { Palette::Dark } else { Palette::Pink },
        clicked: hovered && click_event,
    }
}

/// Each part of a button's look depends on one thing only: the fill and
/// the label colour on hover alone (lavender behind a dark label while
/// hovered, no fill and a pink label otherwise, whether or not the page is
/// selected), the border on selection alone (a purple border of width five
/// exactly when the page is selected), and the click on hover and the press
/// together.
pub proof fn law_button_look(hovered: bool, click_event: bool, selected: bool)
    ensures
        button_style_spec(hovered, click_event, selected).background
            == (if hovered { Some(Palette::Lavender) } else { None }),
        button_style_spec(hovered, click_event, selected).text_color
            == (if hovered { Palette::Dark } else { Palette::Pink }),
        button_style_spec(hovered, click_event, selected).border == (if selected {
            Some(Border { width: 5, color: Palette::Purple })
        } else {
            None
        }),
        button_style_spec(hovered, click_event, selected).clicked == (hovered && click_event),
{
}

/// Decides how one sidebar button looks and whether it was clicked.
pub fn sidebar_button(hovered: bool, click_event: bool, selected_page: bool) -> (style: ButtonStyle)
    ensures
        style == button_style_spec(hovered, click_event, selected_page),
{
    let background = if hovered { Some(Palette::Lavender) } else { None };
    let border = if selected_page {
        Some(Border { width: SELECTED_BORDER_WIDTH, color: Palette::Purple })
    } else {
        None
    };
    let text_color = if hovered { Palette::Dark } else { Palette::Pink };
    ButtonStyle { background, border, text_color, clicked: hovered && click_event }
}

/// The page selected after the first `n` buttons have been drawn: the last
/// of them that was clicked, or `selected` when none was.
pub open spec fn selection_after(selected: u8, hovered: Seq<bool>, click_event: bool, n: int) -> u8
    decreases n,
{
    if n <= 0 {
        selected
    } else if hovered[n - 1] && click_event {
        (n - 1) as u8
    } else {
        selection_after(selected, hovered, click_event, n - 1)
    }
}

/// Without a mouse press, drawing the sidebar keeps the selected page.
pub proof fn law_no_press_keeps_page(selected: u8, hovered: Seq<bool>, n: int)
    ensures
        selection_after(selected, hovered, false, n) == selected,
    decreases n,
{
    if n > 0 {
        law_no_press_keeps_page(selected, hovered, n - 1);
    }
}

/// After the first `n` buttons, the selected page is the last of them that
/// was clicked, or the page selected before when none was.
pub proof fn law_last_click_wins(selected: u8, hovered: Seq<bool>, click_event: bool, n: int)
    requires
        0 <= n <= hovered.len(),
        n <= 256,
    ensures
        ({
            let s = selection_after(selected, hovered, click_event, n);
            ||| (s == selected && forall|j: int| 0 <= j < n ==> !(#[trigger] hovered[j] && click_event))
            ||| (0 <= s < n && hovered[s as int] && click_event
                && forall|j: int| s < j < n ==> !(#[trigger] hovered[j] && click_event))
        }),
    decreases n,
{
    if n > 0 {
        law_last_click_wins(selected, hovered, click_event, n - 1);
    }
}

/// A selected page that names a sidebar button stays one after a frame with
/// no more buttons than pages.
pub proof fn law_page_stays_in_range(selected: u8, hovered: Seq<bool>, click_event: bool)
    requires
        selected < PAGE_COUNT,
        hovered.len() <= PAGE_COUNT,
    ensures
        selection_after(selected, hovered, click_event, hovered.len() as int) < PAGE_COUNT,
{
    law_last_click_wins(selected, hovered, click_event, hovered.len() as int);
}

/// The state of the interface that the layout reads and writes each frame.
#[derive(Clone, Copy, PartialEq, Eq, Structural, Debug)]
pub struct ClayState {
    /// The left mouse button went down since the last frame.
    pub mouse_down_rising_edge: bool,
    /// Index of the page shown in the main content area.
    pub selected_page: u8,
    /// Zoom steps chosen with Ctrl and `+` / `-`.
    pub user_scale: u32,
}

impl ClayState {
    /// The state before any input: nothing pressed, the first page, no zoom.
    pub fn new() -> (s: Self)
        ensures
            s == (ClayState { mouse_down_rising_edge: false, selected_page: 0, user_scale: 0 }),
    {
        ClayState { mouse_down_rising_edge: false, selected_page: 0, user_scale: 0 }
    }

    /// Decides the sidebar for one frame. `hovered[i]` tells whether the
    /// pointer is over the button of page `i`. The buttons are taken in
    /// order; a clicked button selects its page at once, so the buttons after
    /// it are drawn against the new selection.
    pub fn layout_sidebar(&mut self, hovered: &Vec<bool>) -> (styles: Vec<ButtonStyle>)
        requires
            hovered.len() <= 256,
        ensures
            styles.len() == hovered.len(),
            forall|i: int|
                0 <= i < hovered.len() ==> #[trigger] styles[i] == button_style_spec(
                    hovered[i],
                    old(self).mouse_down_rising_edge,
                    selection_after(
                        old(self).selected_page,
                        hovered@,
                        old(self).mouse_down_rising_edge,
                        i,
                    ) == i,
                ),
            final(self).selected_page == selection_after(
                old(self).selected_page,
                hovered@,
                old(self).mouse_down_rising_edge,
                hovered.len() as int,
            ),
            final(self).mouse_down_rising_edge == old(self).mouse_down_rising_edge,
            final(self).user_scale == old(self).user_scale,
    {
        let mut styles: Vec<ButtonStyle> = Vec::new();
        let n = hovered.len();
        let mut i: usize = 0;
        while i < n
            invariant
                n == hovered.len(),
                n <= 256,
                i <= n,
                styles.len() == i,
                self.mouse_down_rising_edge == old(self).mouse_down_rising_edge,
                self.user_scale == old(self).user_scale,
                self.selected_page == selection_after(
                    old(self).selected_page,
                    hovered@,
                    old(self).mouse_down_rising_edge,
                    i as int,
                ),
                forall|j: int|
                    0 <= j < i ==> #[trigger] styles[j] == button_style_spec(
                        hovered[j],
                        old(self).mouse_down_rising_edge,
                        selection_after(
                            old(self).selected_page,
                            hovered@,
                            old(self).mouse_down_rising_edge,
                            j,
                        ) == j,
                    ),
            decreases n - i,
        {
            let page: u8 = i as u8;
            let style = sidebar_button(hovered[i], self.mouse_down_rising_edge, self.selected_page == page);
            if style.clicked {
                self.selected_page = page;
            }
            styles.push(style);
            i = i + 1;
        }
        styles
    }

    /// Ends a frame: the mouse press it showed has been used.
    pub fn end_frame(&mut self)
        ensures
            *final(self) == (ClayState { mouse_down_rising_edge: false, ..*old(self) }),
    {
        self.mouse_down_rising_edge = false;
    }
}

/// The label of the sidebar button for page `i`.
pub open spec fn page_label(i: int) -> &'static str {
    if i == 0 {
        "Current Date"
    } else if i == 1 {
        "Future Date"
    } else if i == 2 {
        "Inventory lookup"
    } else if i == 3 {
        "Add Items"
    } else if i == 4 {
        "Edit Item"
    } else if i == 5 {
        "Remove Items"
    } else if i == 6 {
        "Web Lookup"
    } else if i == 7 {
        "Chat AI"
    } else {
        "Weather"
    }
}

/// The label of the sidebar button for page `i`.
pub fn sidebar_page(i: usize) -> (label: &'static str)
    requires
        i < PAGE_COUNT,
    ensures
        label == page_label(i as int),
{
    if i == 0 {
        "Current Date"
    } else if i == 1 {
        "Future Date"
    } else if i == 2 {
        "Inventory lookup"
    } else if i == 3 {
        "Add Items"
    } else if i == 4 {
        "Edit Item"
    } else if i == 5 {
        "Remove Items"
    } else if i == 6 {
        "Web Lookup"
    } else if i == 7 {
        "Chat AI"
    } else {
        "Weather"
    }
}

/// The labels of the sidebar buttons, in the order they are drawn.
pub fn sidebar_pages() -> (pages: Vec<&'static str>)
    ensures
        pages.len() == PAGE_COUNT,
        forall|i: int| 0 <= i < PAGE_COUNT ==> #[trigger] pages[i] == page_label(i),
{
    let mut pages: Vec<&'static str> = Vec::new();
    let mut i: usize = 0;
    while i < PAGE_COUNT
        invariant
            i <= PAGE_COUNT,
            pages.len() == i,
            forall|j: int| 0 <= j < i ==> #[trigger] pages[j] == page_label(j),
        decreases PAGE_COUNT - i,
    {
        pages.push(sidebar_page(i));
        i = i + 1;
    }
    pages
}

/// The title bar shown above the main content: only the first page has one.
pub fn main_content_title(selected_page: u8) -> (title: Option<&'static str>)
    ensures
        title == (if selected_page == 0 { Some("Current Date") } else { None::<&'static str> }),
{
    if selected_page == 0 {
        Some("Current Date")
    } else {
        None
    }
}

/// Prepares the layout state before the first frame; the state starts out
/// ready, so nothing changes.
pub fn initialize_user_data(user_data: &mut ClayState)
    ensures
        *final(user_data) == *old(user_data),
{
}

} // verus!
