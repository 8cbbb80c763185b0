use conrod::event::Input;
use hello_conrod::{
    Event, GuiObject, QueuedEvent, VirtualKeyCode, WindowEvent, GREETING, GREETING_FONT_SIZE,
    GREETING_RGB,
};

fn fresh_gui() -> GuiObject {
    let ui = conrod::UiBuilder::new([400.0, 200.0]).build();
    GuiObject::new(ui)
}

fn queued(event: Event, input: Option<Input>) -> QueuedEvent {
    QueuedEvent { event, input }
}

fn escape() -> Event {
    Event::WindowEvent(WindowEvent::KeyboardInput { virtual_keycode: Some(VirtualKeyCode::Escape) })
}

fn close() -> Event {
    Event::WindowEvent(WindowEvent::CloseRequested)
}

fn ordinary_events() -> Vec<Event> {
    vec![
        Event::WindowEvent(WindowEvent::KeyboardInput { virtual_keycode: Some(VirtualKeyCode::Other) }),
        Event::WindowEvent(WindowEvent::KeyboardInput { virtual_keycode: None }),
        Event::WindowEvent(WindowEvent::Other),
        Event::DeviceEvent,
        Event::Awakened,
        Event::Suspended(true),
        Event::Suspended(false),
    ]
}

#[test]
fn close_request_ends_session() {
    let mut gui = fresh_gui();
    assert!(!gui.process_event(close(), None));
}

#[test]
fn escape_key_ends_session() {
    let mut gui = fresh_gui();
    assert!(!gui.process_event(escape(), None));
}

#[test]
fn escape_with_gui_input_still_ends_session() {
    let mut gui = fresh_gui();
    assert!(!gui.process_event(escape(), Some(Input::Focus(true))));
}

#[test]
fn ordinary_events_keep_session_going() {
    let mut gui = fresh_gui();
    for e in ordinary_events() {
        assert!(gui.process_event(e, None));
        assert!(gui.process_event(e, Some(Input::Resize(400, 200))));
    }
}

#[test]
fn event_classification() {
    assert!(close().is_exit_request());
    assert!(escape().is_exit_request());
    for e in ordinary_events() {
        assert!(!e.is_exit_request());
    }
}

#[test]
fn one_widget_id_after_construction() {
    let gui = fresh_gui();
    // The window widget takes the first node of the graph; the greeting the next.
    assert_eq!(gui.ids().text, 1);
}

#[test]
fn widget_ids_stable_across_calls() {
    let mut gui = fresh_gui();
    let ids = gui.ids();
    gui.update();
    assert_eq!(gui.ids(), ids);
    assert!(gui.process_event(Event::WindowEvent(WindowEvent::Other), Some(Input::Focus(true))));
    assert_eq!(gui.ids(), ids);
    let batch = vec![
        queued(Event::WindowEvent(WindowEvent::Other), Some(Input::Resize(300, 100))),
        queued(close(), None),
    ];
    assert!(!gui.handle_winit_events(batch));
    assert_eq!(gui.ids(), ids);
}

#[test]
fn empty_batch_keeps_session_going() {
    let mut gui = fresh_gui();
    assert!(gui.handle_winit_events(Vec::new()));
}

#[test]
fn batch_without_exit_keeps_session_going() {
    let mut gui = fresh_gui();
    let batch = ordinary_events()
        .into_iter()
        .map(|e| queued(e, Some(Input::Focus(true))))
        .collect();
    assert!(gui.handle_winit_events(batch));
}

#[test]
fn batch_with_close_ends_session() {
    let mut gui = fresh_gui();
    let batch = vec![
        queued(Event::DeviceEvent, None),
        queued(close(), None),
        queued(Event::Awakened, None),
    ];
    assert!(!gui.handle_winit_events(batch));
}

#[test]
fn batch_with_escape_last_ends_session() {
    let mut gui = fresh_gui();
    let batch = vec![
        queued(Event::WindowEvent(WindowEvent::Other), Some(Input::Redraw)),
        queued(escape(), None),
    ];
    assert!(!gui.handle_winit_events(batch));
}

#[test]
fn greeting_style() {
    assert_eq!(GREETING, "Hello World!");
    assert_eq!(GREETING_FONT_SIZE, 32);
    assert_eq!(GREETING_RGB, (255, 255, 255));
}

#[test]
fn update_marks_gui_for_redraw() {
    let mut gui = fresh_gui();
    // Spend the redraws that a fresh Ui asks for.
    while gui.ui().draw_if_changed().is_some() {}
    assert!(gui.ui().draw_if_changed().is_none());
    gui.update();
    assert!(gui.ui().draw_if_changed().is_some());
}

#[test]
fn no_redraw_once_settled_and_unchanged() {
    let mut gui = fresh_gui();
    gui.update();
    while gui.ui().draw_if_changed().is_some() {}
    // Two consecutive draws with nothing changed between them: neither renders.
    assert!(gui.ui().draw_if_changed().is_none());
    assert!(gui.ui().draw_if_changed().is_none());
}

#[test]
fn event_without_gui_input_leaves_gui_clean() {
    let mut gui = fresh_gui();
    gui.update();
    while gui.ui().draw_if_changed().is_some() {}
    assert!(gui.process_event(Event::DeviceEvent, None));
    let batch = vec![queued(Event::Awakened, None), queued(close(), Some(Input::Redraw))];
    assert!(!gui.handle_winit_events(batch));
    assert!(gui.ui().draw_if_changed().is_none());
}

#[test]
fn events_after_exit_request_still_reach_gui() {
    let mut gui = fresh_gui();
    gui.update();
    while gui.ui().draw_if_changed().is_some() {}
    let batch = vec![
        queued(close(), None),
        queued(Event::WindowEvent(WindowEvent::Other), Some(Input::Redraw)),
    ];
    assert!(!gui.handle_winit_events(batch));
    // The redraw request after the close request was handed to the GUI.
    assert!(gui.ui().draw_if_changed().is_some());
}

#[test]
fn exit_event_input_is_not_fed() {
    let mut gui = fresh_gui();
    gui.update();
    while gui.ui().draw_if_changed().is_some() {}
    assert!(!gui.process_event(close(), Some(Input::Redraw)));
    assert!(gui.ui().draw_if_changed().is_none());
}

#[test]
fn gui_input_marks_gui_for_redraw() {
    let mut gui = fresh_gui();
    gui.update();
    while gui.ui().draw_if_changed().is_some() {}
    assert!(gui.process_event(Event::DeviceEvent, Some(Input::Redraw)));
    assert!(gui.ui().draw_if_changed().is_some());
}
