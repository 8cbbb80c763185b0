//! The windowing events that the session loop reads, as plain values.

use vstd::prelude::*;

verus! {

/// The keys the session tells apart.
#[derive(Clone, Copy, Debug, PartialEq, Eq, Structural)]
pub enum VirtualKeyCode {
    Escape,
    /// Any key other than Escape.
    Other,
}

/// An event addressed to the window.
#[derive(Clone, Copy, Debug, PartialEq, Eq, Structural)]
pub enum WindowEvent {
    /// The user asked to close the window.
    CloseRequested,
    /// A key was pressed or released; the key code is absent when the platform
    /// could not map the key.
    KeyboardInput { virtual_keycode: Option<VirtualKeyCode> },
    /// Any other window event (resize, focus, cursor motion, ...).
    Other,
}

/// An event taken from the windowing system's queue.
#[derive(Clone, Copy, Debug, PartialEq, Eq, Structural)]
pub enum Event {
    WindowEvent(WindowEvent),
    DeviceEvent,
    Awakened,
    Suspended(bool),
}

/// The event asks the session to end: a close request on the window, or
/// keyboard input on the Escape key.
pub open spec fn requests_exit(e: Event) -> bool {
    match e {
        Event::WindowEvent(WindowEvent::CloseRequested) => true,
        Event::WindowEvent(WindowEvent::KeyboardInput { virtual_keycode }) =>
            virtual_keycode == Some(VirtualKeyCode::Escape),
        _ => false,
    }
}

impl Event {
    /// Whether this event asks the session to end.
    pub fn is_exit_request(&self) -> (r: bool)
        ensures
            r == requests_exit(*self),
    {
        match self {
            Event::WindowEvent(WindowEvent::CloseRequested) => true,
            Event::WindowEvent(
                WindowEvent::KeyboardInput { virtual_keycode: Some(VirtualKeyCode::Escape) },
            ) => true,
            _ => false,
        }
    }
}

} // verus!
