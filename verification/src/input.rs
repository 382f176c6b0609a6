//! Window events as far as the render state reads them, and what it answers.

use vstd::prelude::*;

verus! {

/// A key of the keyboard.
#[derive(Clone, Copy, Debug, PartialEq, Eq, Structural)]
pub enum Key {
    /// Asks the window to close.
    Escape,
    /// Shows or hides the overlay.
    F3,
    /// Any other key.
    Other,
}

/// What happened to a key.
#[derive(Clone, Copy, Debug, PartialEq, Eq, Structural)]
pub enum Action {
    Release,
    Press,
    Repeat,
}

/// An event of the host window.
#[derive(Clone, Copy, Debug, PartialEq, Eq, Structural)]
pub enum WindowEvent {
    /// A key changed its state.
    Key(Key, Action),
    /// The window's size changed to this width and height.
    Size(i32, i32),
    /// Any other event.
    Other,
}

/// What the host has to do after the render state has seen an event.
#[derive(Clone, Copy, Debug, PartialEq, Eq, Structural)]
pub struct InputEffects {
    /// Whether the event was consumed. The render state consumes none.
    pub handled: bool,
    /// Hand the event to the overlay's platform adapter.
    pub forward_to_overlay: bool,
    /// Ask the window to close.
    pub close_window: bool,
    /// Rebuild the presentation chain from the state's new configuration.
    pub rebuild_chain: bool,
}

impl WindowEvent {
    /// The event is a press of the given key.
    pub open spec fn is_press_of(self, key: Key) -> bool {
        self == WindowEvent::Key(key, Action::Press)
    }

    /// The new size, if the event is a change of the window's size.
    pub open spec fn new_size(self) -> Option<(i32, i32)> {
        match self {
            WindowEvent::Size(w, h) => Some((w, h)),
            _ => None,
        }
    }
}

} // verus!
