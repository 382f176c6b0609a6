//! State of the diagnostic overlay that the render state itself decides on:
//! whether it is shown, and the cursor shape it last reported.

use vstd::prelude::*;

verus! {

/// Shape of the mouse cursor that the overlay asks for.
#[derive(Clone, Copy, Debug, PartialEq, Eq, Structural)]
pub enum CursorShape {
    Arrow,
    TextInput,
    ResizeAll,
    ResizeNS,
    ResizeEW,
    ResizeNESW,
    ResizeNWSE,
    Hand,
    NotAllowed,
}

/// The overlay's own state. Widgets keep theirs inside the UI library; this is
/// what gates and accompanies the overlay pass.
#[derive(Clone, Copy, Debug, PartialEq, Eq)]
pub struct ImguiState {
    /// The cursor shape reported when the overlay was last built; `None` if
    /// it asked for no cursor, or was never built.
    pub last_cursor: Option<CursorShape>,
    /// Whether the overlay is shown.
    pub should_render: bool,
}

/// Whether two reported cursor shapes are the same.
pub fn same_cursor(a: Option<CursorShape>, b: Option<CursorShape>) -> (same: bool)
    ensures
        same == (a == b),
{
    match (a, b) {
        (None, None) => true,
        (Some(x), Some(y)) => x == y,
        _ => false,
    }
}

impl ImguiState {
    /// The overlay at start-up: hidden, with no cursor reported yet.
    pub open spec fn initial() -> ImguiState {
        ImguiState { last_cursor: None, should_render: false }
    }

    /// This state with the overlay's visibility flipped.
    pub open spec fn toggled(self) -> ImguiState {
        ImguiState { should_render: !self.should_render, ..self }
    }

    /// This state after the overlay reported the given cursor shape.
    pub open spec fn with_cursor(self, cursor: Option<CursorShape>) -> ImguiState {
        ImguiState { last_cursor: cursor, ..self }
    }

    /// The overlay at start-up: hidden, with no cursor reported yet.
    pub fn new() -> (state: ImguiState)
        ensures
            state == ImguiState::initial(),
    {
        ImguiState { last_cursor: None, should_render: false }
    }

    /// Shows the overlay if it is hidden and hides it if it is shown. The
    /// reported cursor is kept.
    pub fn toggle(&mut self)
        ensures
            *final(self) == old(self).toggled(),
    {
        self.should_render = !self.should_render;
    }

    /// Whether a window event is handed to the overlay: only while it is shown.
    pub fn handle_event(&self) -> (forwarded: bool)
        ensures
            forwarded == self.should_render,
    {
        self.should_render
    }

    /// Records the cursor shape that the overlay reports for this frame and
    /// says whether it differs from the one recorded before.
    pub fn observe_cursor(&mut self, cursor: Option<CursorShape>) -> (changed: bool)
        ensures
            changed == (old(self).last_cursor != cursor),
            *final(self) == old(self).with_cursor(cursor),
    {
        let changed = !same_cursor(self.last_cursor, cursor);
        self.last_cursor = cursor;
        changed
    }
}

/// Toggling the overlay twice gives back the state before, cursor included.
pub proof fn lemma_toggle_twice(state: ImguiState)
    ensures
        state.toggled().toggled() == state,
        state.toggled().should_render != state.should_render,
        state.toggled().last_cursor == state.last_cursor,
{
}

} // verus!
