//! How window input changes the interface state, and what the window must do
//! in answer.

use vstd::prelude::*;
use crate::layout::{create_layout, layout_spec, LayoutOp};
use crate::sidebar::{law_no_press_keeps_page, selection_after, ClayState, PAGE_COUNT};

verus! {

/// Which mouse button an event is about.
#[derive(Clone, Copy, PartialEq, Eq, Structural, Debug)]
pub enum MouseButton {
    Left,
    Other,
}

/// Which physical key an event is about, as far as the interface cares.
#[derive(Clone, Copy, PartialEq, Eq, Structural, Debug)]
pub enum PhysicalKey {
    ControlLeft,
    ControlRight,
    Other,
}

/// A window event, with the values that the interface decides on.
#[derive(Debug)]
pub enum WindowInput {
    CloseRequested,
    Resized { width: u32, height: u32 },
    ScaleFactorChanged,
    RedrawRequested,
    MouseInput { button: MouseButton, pressed: bool },
    MouseWheel,
    CursorMoved,
    /// A key went down or up; `text` is the text it produces, if any.
    KeyboardInput { key: PhysicalKey, pressed: bool, text: Option<Vec<char>> },
    Other,
}

/// What the window must do after an event.
#[derive(Clone, Copy, PartialEq, Eq, Structural, Debug)]
pub enum Reaction {
    /// Leave the event loop.
    Exit,
    /// Resize the surface and the layout to the new inner size.
    Resize { width: u32, height: u32 },
    /// Take the new scale factor into the renderer.
    ApplyScaleFactor,
    /// Lay out and draw a frame, then end it.
    Render,
    /// Ask for a new frame.
    RequestRedraw,
    /// Nothing to do.
    Nothing,
}

/// The interface state that window input changes.
#[derive(Clone, Copy, PartialEq, Eq, Structural, Debug)]
pub struct AppState {
    /// The left Control key is held.
    pub lcon: bool,
    /// The right Control key is held.
    pub rcon: bool,
    pub clay_user_data: ClayState,
}

/// The zoom steps after a key that produced `text`, with Control held or not:
/// a `+` adds a step, then a `-` removes one unless none is left.
pub open spec fn scale_after_text(scale: u32, ctrl: bool, text: Option<Seq<char>>) -> int {
    let plus = ctrl && (text matches Some(t) && t.contains('+'));
    let minus = ctrl && (text matches Some(t) && t.contains('-'));
    let up: int = if plus { scale + 1 } else { scale as int };
    if minus && up > 0 { up - 1 } else { up }
}

/// The text of an optional key event, as a sequence.
pub open spec fn text_view(text: Option<Vec<char>>) -> Option<Seq<char>> {
    match text {
        Some(t) => Some(t@),
        None => None,
    }
}

/// An event is handled without overflow unless it adds a zoom step to the
/// largest count there is.
pub open spec fn input_allowed(s: AppState, event: WindowInput) -> bool {
    match event {
        WindowInput::KeyboardInput { key, pressed, text } => {
            let ctrl = key_flags(s, key, pressed);
            (ctrl.0 || ctrl.1) && (text matches Some(t) && t@.contains('+'))
                ==> s.clay_user_data.user_scale < u32::MAX
        },
        _ => true,
    }
}

/// The Control flags after a press or release of `key`.
pub open spec fn key_flags(s: AppState, key: PhysicalKey, pressed: bool) -> (bool, bool) {
    match key {
        PhysicalKey::ControlLeft => (pressed, s.rcon),
        PhysicalKey::ControlRight => (s.lcon, pressed),
        PhysicalKey::Other => (s.lcon, s.rcon),
    }
}

/// Tells whether `text` holds the character `c`.
pub fn text_contains(text: &Vec<char>, c: char) -> (found: bool)
    ensures
        found == text@.contains(c),
{
    let mut i: usize = 0;
    while i < text.len()
        invariant
            i <= text.len(),
            forall|j: int| 0 <= j < i ==> text@[j] != c,
        decreases text.len() - i,
    {
        if text[i] == c {
            assert(text@[i as int] == c);
            return true;
        }
        i = i + 1;
    }
    false
}

/// Whether the left mouse button went down since the last frame, after an
/// event: a left button event records whether it was a press, any other
/// event leaves the flag as it was.
pub open spec fn press_after(press: bool, event: WindowInput) -> bool {
    match event {
        WindowInput::MouseInput { button, pressed } => if button == MouseButton::Left {
            pressed
        } else {
            press
        },
        _ => press,
    }
}

/// The press flag after a sequence of events.
pub open spec fn press_after_all(press: bool, events: Seq<WindowInput>) -> bool
    decreases events.len(),
{
    if events.len() == 0 {
        press
    } else {
        press_after(press_after_all(press, events.drop_last()), events.last())
    }
}

/// The event is about the left mouse button.
pub open spec fn is_left_button_event(event: WindowInput) -> bool {
    event matches WindowInput::MouseInput { button, .. } && button == MouseButton::Left
}

/// The interface state after a frame is laid out and ended: the sidebar's
/// clicks have chosen the page, and the press has been used.
pub open spec fn frame_state(c: ClayState, hovered: Seq<bool>) -> ClayState {
    ClayState {
        selected_page: selection_after(
            c.selected_page,
            hovered,
            c.mouse_down_rising_edge,
            hovered.len() as int,
        ),
        mouse_down_rising_edge: false,
        user_scale: c.user_scale,
    }
}

proof fn lemma_no_left_press(events: Seq<WindowInput>)
    requires
        forall|i: int| 0 <= i < events.len() ==> !is_left_button_event(#[trigger] events[i]),
    ensures
        !press_after_all(false, events),
    decreases events.len(),
{
    if events.len() > 0 {
        let front = events.drop_last();
        assert forall|i: int| 0 <= i < front.len() implies !is_left_button_event(#[trigger] front[i]) by {
            assert(front[i] == events[i]);
        }
        lemma_no_left_press(front);
        assert(!is_left_button_event(events[events.len() - 1]));
    }
}

/// One mouse press changes the selected page in at most one layout pass.
/// After a frame has been drawn, events that do not use the left mouse
/// button leave no press behind (and `handle_event` changes the selected page
/// on no event), so the next frame keeps the page and ends, again, with no
/// press; by the same law, so does every frame after it.
pub proof fn law_press_used_once(before: ClayState, hovered: Seq<bool>, events: Seq<WindowInput>, next: Seq<bool>)
    requires
        forall|i: int| 0 <= i < events.len() ==> !is_left_button_event(#[trigger] events[i]),
    ensures
        ({
            let drawn = frame_state(before, hovered);
            let waiting = ClayState {
                mouse_down_rising_edge: press_after_all(drawn.mouse_down_rising_edge, events),
                ..drawn
            };
            let drawn_next = frame_state(waiting, next);
            &&& !waiting.mouse_down_rising_edge
            &&& drawn_next.selected_page == drawn.selected_page
            &&& !drawn_next.mouse_down_rising_edge
        }),
{
    lemma_no_left_press(events);
    let drawn = frame_state(before, hovered);
    law_no_press_keeps_page(drawn.selected_page, next, next.len() as int);
}

/// Adding a zoom step with Control held and then removing one gives back the
/// zoom steps one started from.
pub proof fn law_zoom_in_then_out(scale: u32, plus: Seq<char>, minus: Seq<char>)
    requires
        scale < u32::MAX,
        plus.contains('+'),
        !plus.contains('-'),
        minus.contains('-'),
        !minus.contains('+'),
    ensures
        scale_after_text(scale, true, Some(plus)) == scale + 1,
        scale_after_text((scale + 1) as u32, true, Some(minus)) == scale,
{
}

/// Only a key whose text holds `+` or `-` changes the zoom steps: a key with
/// no text (a Control or Shift key, say), or with text that holds neither,
/// leaves them as they were, Control held or not. With Control held, a text
/// holding `+` and no `-` adds exactly one step, and one holding `-` and no
/// `+` removes exactly one when there is one.
pub proof fn law_zoom_only_by_plus_or_minus(scale: u32, ctrl: bool, text: Option<Seq<char>>)
    ensures
        !(text matches Some(t) && (t.contains('+') || t.contains('-')))
            ==> scale_after_text(scale, ctrl, text) == scale,
        (ctrl && (text matches Some(t) && t.contains('+') && !t.contains('-')))
            ==> scale_after_text(scale, ctrl, text) == scale + 1,
        (ctrl && scale > 0 && (text matches Some(t) && t.contains('-') && !t.contains('+')))
            ==> scale_after_text(scale, ctrl, text) == scale - 1,
        (ctrl && (text matches Some(t) && t.contains('+') && t.contains('-')))
            ==> scale_after_text(scale, ctrl, text) == scale,
{
}

/// Without a Control key held, no key changes the zoom steps.
pub proof fn law_zoom_needs_control(scale: u32, text: Option<Seq<char>>)
    ensures
        scale_after_text(scale, false, text) == scale,
{
}

/// The zoom steps never go below none, and one key changes them by at most one.
pub proof fn law_zoom_bounded(scale: u32, ctrl: bool, text: Option<Seq<char>>)
    ensures
        0 <= scale_after_text(scale, ctrl, text),
        scale - 1 <= scale_after_text(scale, ctrl, text) <= scale + 1,
        scale == 0 && !(text matches Some(t) && t.contains('+')) ==> scale_after_text(scale, ctrl, text) == 0,
{
}

/// A Control key reads as held exactly when its last event was a press; an
/// event of the other Control key, or of any other key, leaves it as it was.
pub proof fn law_control_tracking(s: AppState, key: PhysicalKey, pressed: bool)
    ensures
        key == PhysicalKey::ControlLeft ==> key_flags(s, key, pressed) == (pressed, s.rcon),
        key == PhysicalKey::ControlRight ==> key_flags(s, key, pressed) == (s.lcon, pressed),
        key == PhysicalKey::Other ==> key_flags(s, key, pressed) == (s.lcon, s.rcon),
{
}

impl AppState {
    /// Tells whether `handle_event` can take the event without overflowing
    /// the zoom steps.
    pub fn can_handle(&self, event: &WindowInput) -> (ok: bool)
        ensures
            ok == input_allowed(*self, *event),
    {
        match event {
            WindowInput::KeyboardInput { key, pressed, text } => {
                let (l, r) = match key {
                    PhysicalKey::ControlLeft => (*pressed, self.rcon),
                    PhysicalKey::ControlRight => (self.lcon, *pressed),
                    PhysicalKey::Other => (self.lcon, self.rcon),
                };
                match text {
                    Some(t) => !((l || r) && text_contains(t, '+'))
                        || self.clay_user_data.user_scale < u32::MAX,
                    None => true,
                }
            },
            _ => true,
        }
    }

    /// Draws the frame a redraw asks for: lays it out from the pointer's
    /// hover over each page button, then ends the frame, which uses up the
    /// mouse press.
    pub fn render_frame(&mut self, hovered: &Vec<bool>) -> (ops: Vec<LayoutOp>)
        requires
            hovered.len() == PAGE_COUNT,
        ensures
            ops@ == layout_spec(old(self).clay_user_data, hovered@),
            final(self).clay_user_data == frame_state(old(self).clay_user_data, hovered@),
            final(self).lcon == old(self).lcon,
            final(self).rcon == old(self).rcon,
    {
        let ops = create_layout(&mut self.clay_user_data, hovered);
        self.clay_user_data.end_frame();
        ops
    }

    /// The state before any input.
    pub fn new() -> (s: Self)
        ensures
            !s.lcon,
            !s.rcon,
            s.clay_user_data == (ClayState { mouse_down_rising_edge: false, selected_page: 0, user_scale: 0 }),
    {
        AppState { lcon: false, rcon: false, clay_user_data: ClayState::new() }
    }

    /// Handles one window event.
    ///
    /// The Control keys set their flag when pressed and clear it when
    /// released. With either held, a key whose text holds `+` adds a zoom
    /// step and one whose text holds `-` removes one, never going below
    /// none. A left mouse button event records whether it was a press. Every
    /// mouse and keyboard event asks for a new frame.
    pub fn handle_event(&mut self, event: WindowInput) -> (reaction: Reaction)
        requires
            input_allowed(*old(self), event),
        ensures
            final(self).clay_user_data.mouse_down_rising_edge == press_after(
                old(self).clay_user_data.mouse_down_rising_edge,
                event,
            ),
            match event {
                WindowInput::CloseRequested => reaction == Reaction::Exit && *final(self) == *old(self),
                WindowInput::Resized { width, height } => reaction == (Reaction::Resize { width, height })
                    && *final(self) == *old(self),
                WindowInput::ScaleFactorChanged => reaction == Reaction::ApplyScaleFactor
                    && *final(self) == *old(self),
                WindowInput::RedrawRequested => reaction == Reaction::Render && *final(self) == *old(self),
                WindowInput::MouseInput { button, pressed } => reaction == Reaction::RequestRedraw
                    && *final(self) == (if button == MouseButton::Left {
                        AppState {
                            clay_user_data: ClayState {
                                mouse_down_rising_edge: pressed,
                                ..old(self).clay_user_data
                            },
                            ..*old(self)
                        }
                    } else {
                        *old(self)
                    }),
                WindowInput::MouseWheel => reaction == Reaction::RequestRedraw && *final(self) == *old(self),
                WindowInput::CursorMoved => reaction == Reaction::RequestRedraw && *final(self) == *old(self),
                WindowInput::KeyboardInput { key, pressed, text } => {
                    let flags = key_flags(*old(self), key, pressed);
                    &&& reaction == Reaction::RequestRedraw
                    &&& final(self).lcon == flags.0
                    &&& final(self).rcon == flags.1
                    &&& final(self).clay_user_data.user_scale == scale_after_text(
                        old(self).clay_user_data.user_scale,
                        flags.0 || flags.1,
                        text_view(text),
                    )
                    &&& final(self).clay_user_data.mouse_down_rising_edge
                        == old(self).clay_user_data.mouse_down_rising_edge
                    &&& final(self).clay_user_data.selected_page == old(self).clay_user_data.selected_page
                },
                WindowInput::Other => reaction == Reaction::Nothing && *final(self) == *old(self),
            },
    {
        match event {
            WindowInput::CloseRequested => Reaction::Exit,
            WindowInput::Resized { width, height } => Reaction::Resize { width, height },
            WindowInput::ScaleFactorChanged => Reaction::ApplyScaleFactor,
            WindowInput::RedrawRequested => Reaction::Render,
            WindowInput::MouseInput { button, pressed } => {
                match button {
                    MouseButton::Left => {
                        self.clay_user_data.mouse_down_rising_edge = pressed;
                    },
                    MouseButton::Other => {},
                }
                Reaction::RequestRedraw
            },
            WindowInput::MouseWheel => Reaction::RequestRedraw,
            WindowInput::CursorMoved => Reaction::RequestRedraw,
            WindowInput::KeyboardInput { key, pressed, text } => {
                match key {
                    PhysicalKey::ControlLeft => {
                        self.lcon = pressed;
                    },
                    PhysicalKey::ControlRight => {
                        self.rcon = pressed;
                    },
                    PhysicalKey::Other => {},
                }
                match text {
                    Some(t) => {
                        let ctrl = self.lcon || self.rcon;
                        if ctrl && text_contains(&t, '+') {
                            self.clay_user_data.user_scale = self.clay_user_data.user_scale + 1;
                        }
                        if ctrl && text_contains(&t, '-') && self.clay_user_data.user_scale > 0 {
                            self.clay_user_data.user_scale = self.clay_user_data.user_scale - 1;
                        }
                    },
                    None => {},
                }
                Reaction::RequestRedraw
            },
            WindowInput::Other => Reaction::Nothing,
        }
    }
}

} // verus!
