//! The events that the frame loop polls, and which of them ask it to stop.

use vstd::prelude::*;

verus! {

/// The keys that the loop tells apart.
#[derive(Clone, Copy, Debug, PartialEq, Eq, Structural)]
pub enum Key {
    Q,
    Escape,
    /// Any other key, or a key without a keycode.
    Other,
}

/// One event taken from the platform's queue.
#[derive(Clone, Copy, Debug, PartialEq, Eq, Structural)]
pub enum InputEvent {
    /// The platform asks the application to close.
    Quit,
    KeyDown(Key),
    KeyUp(Key),
    /// Any other event (mouse motion, window events, ...).
    Other,
}

/// A system quit request, or the release of Q or Escape.
pub open spec fn requests_quit(e: InputEvent) -> bool {
    ||| e is Quit
    ||| e == InputEvent::KeyUp(Key::Q)
    ||| e == InputEvent::KeyUp(Key::Escape)
}

/// What one poll returned (at most one event) asks the loop to stop.
pub open spec fn polls_quit(e: Option<InputEvent>) -> bool {
    e matches Some(ev) && requests_quit(ev)
}

impl InputEvent {
    /// Whether this event asks the loop to stop.
    pub fn is_quit_request(&self) -> (r: bool)
        ensures
            r == requests_quit(*self),
    {
        match self {
            InputEvent::Quit => true,
            InputEvent::KeyUp(Key::Q) => true,
            InputEvent::KeyUp(Key::Escape) => true,
            _ => false,
        }
    }
}

/// Whether the result of one poll asks the loop to stop.
pub fn is_quit_poll(e: &Option<InputEvent>) -> (r: bool)
    ensures
        r == polls_quit(*e),
{
    match e {
        Some(ev) => ev.is_quit_request(),
        None => false,
    }
}

} // verus!
