//! A minimal immediate-mode GUI session: one window, one centred text widget,
//! and an event loop that runs until the window is closed or Escape is hit.
//!
//! The library holds the decisions of that loop and the GUI state they drive;
//! the window, the graphics context and the renderer live with the caller.

mod event;
mod gui;
mod state;

pub use event::{requests_exit, Event, VirtualKeyCode, WindowEvent};
pub use gui::{
    batch_requests_exit, greeting_widget, gui_inputs, GuiObject, Ids, QueuedEvent, GREETING,
    GREETING_FONT_SIZE, GREETING_RGB,
};
pub use state::TextWidget;
