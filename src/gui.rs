//! The GUI of the session: its state, the identifiers of its widgets, and the
//! handling of each batch of window events.

use vstd::prelude::*;

use crate::event::{requests_exit, Event};
use crate::state::{GuiState, TextWidget};

verus! {

/// The text shown in the middle of the window.
pub const GREETING: &'static str = "Hello World!";

/// The font size of the greeting, in points.
pub const GREETING_FONT_SIZE: u32 = 32;

/// The colour of the greeting as red, green and blue bytes: white.
pub const GREETING_RGB: (u8, u8, u8) = (255, 255, 255);

/// The greeting, white at 32 points, centred on the window, as the text widget
/// with the given id.
pub open spec fn greeting_widget(id: usize) -> TextWidget {
    (id, GREETING@, GREETING_FONT_SIZE, GREETING_RGB)
}

/// The widget identifiers of the session, generated once from its `Ui`.
#[derive(Clone, Copy, Debug, PartialEq, Eq, Structural)]
pub struct Ids {
    /// The index of the greeting's text widget in the widget graph.
    pub text: usize,
}

/// An event taken from the window's queue, beside what the GUI toolkit made of
/// it: `input` is absent when the event means nothing to the GUI.
pub struct QueuedEvent {
    pub event: Event,
    pub input: Option<conrod::event::Input>,
}

/// The inputs of a batch that reach the GUI, in order: those of the events
/// that carry input and do not ask the session to end.
pub open spec fn gui_inputs(s: Seq<QueuedEvent>) -> Seq<conrod::event::Input>
    decreases s.len(),
{
    if s.len() == 0 {
        Seq::empty()
    } else {
        let e = s.last();
        let rest = gui_inputs(s.drop_last());
        match e.input {
            Some(input) if !requests_exit(e.event) => rest.push(input),
            _ => rest,
        }
    }
}

/// Some event of the batch asks the session to end.
pub open spec fn batch_requests_exit(s: Seq<QueuedEvent>) -> bool {
    exists|i: int| 0 <= i < s.len() && requests_exit(#[trigger] s[i].event)
}

/// The GUI state of the session and the identifiers of its widgets.
pub struct GuiObject {
    state: GuiState,
    ids: Ids,
}

impl GuiObject {
    /// The identifiers, fixed when the object was made.
    pub closed spec fn ids_view(&self) -> Ids {
        self.ids
    }

    /// The `Ui`.
    pub closed spec fn ui_view(&self) -> conrod::Ui {
        self.state.ui_view()
    }

    /// The widget ids generated in the `Ui` since it was taken over.
    pub closed spec fn made(&self) -> Seq<usize> {
        self.state.made()
    }

    /// The inputs handed to the `Ui` since it was taken over.
    pub closed spec fn fed(&self) -> Seq<conrod::event::Input> {
        self.state.fed()
    }

    /// What the last widget pass declared, if one was made.
    pub closed spec fn declared(&self) -> Option<TextWidget> {
        self.state.declared()
    }

    /// The greeting's id was generated in this object's `Ui`.
    pub closed spec fn wf(&self) -> bool {
        self.state.made().contains(self.ids.text)
    }

    /// Takes over a `Ui` and generates the one widget identifier in it.
    pub fn new(ui: conrod::Ui) -> (r: GuiObject)
        ensures
            r.wf(),
            r.made() == seq![r.ids_view().text],
            r.fed() == Seq::<conrod::event::Input>::empty(),
            r.declared() == None::<TextWidget>,
    {
        let mut state = GuiState::new(ui);
        let text = state.next_widget_id();
        let r = GuiObject { state, ids: Ids { text } };
        assert(r.made()[0] == text);
        r
    }

    /// The widget identifiers.
    pub fn ids(&self) -> (r: Ids)
        ensures
            r == self.ids_view(),
    {
        self.ids
    }

    /// The `Ui`, to draw from.
    pub fn ui(&self) -> (r: &conrod::Ui)
        ensures
            *r == self.ui_view(),
    {
        self.state.ui()
    }

    /// Declares the widget tree: the greeting, centred on the window.
    pub fn update(&mut self)
        requires
            old(self).wf(),
        ensures
            final(self).wf(),
            final(self).ids_view() == old(self).ids_view(),
            final(self).made() == old(self).made(),
            final(self).fed() == old(self).fed(),
            final(self).declared() == Some(greeting_widget(old(self).ids_view().text)),
    {
        self.state.set_text_widget(self.ids.text, GREETING, GREETING_FONT_SIZE, GREETING_RGB);
    }

    /// Handles one event. Returns false when the event asks the session to
    /// end, and then leaves the GUI alone. Otherwise the event's GUI input, if
    /// any, is fed to the `Ui` and the widget tree declared anew.
    pub fn process_event(&mut self, event: Event, input: Option<conrod::event::Input>) -> (r: bool)
        requires
            old(self).wf(),
        ensures
            r == !requests_exit(event),
            final(self).wf(),
            final(self).ids_view() == old(self).ids_view(),
            final(self).made() == old(self).made(),
            requests_exit(event) || input is None ==> *final(self) == *old(self),
            !requests_exit(event) && input is Some ==> {
                &&& final(self).fed() == old(self).fed().push(input->0)
                &&& final(self).declared() == Some(greeting_widget(old(self).ids_view().text))
            },
    {
        if event.is_exit_request() {
            return false;
        }
        match input {
            None => true,
            Some(input) => {
                self.state.feed_input(input);
                self.update();
                true
            },
        }
    }

    /// Handles a batch of events in order. Every event is handled, also those
    /// after one that asks the session to end; the result is false exactly
    /// when some event of the batch asks for that.
    pub fn handle_winit_events(&mut self, events: Vec<QueuedEvent>) -> (r: bool)
        requires
            old(self).wf(),
        ensures
            r == !batch_requests_exit(events@),
            final(self).wf(),
            final(self).ids_view() == old(self).ids_view(),
            final(self).made() == old(self).made(),
            final(self).fed() == old(self).fed() + gui_inputs(events@),
            gui_inputs(events@).len() == 0 ==> *final(self) == *old(self),
            gui_inputs(events@).len() > 0 ==> final(self).declared() == Some(
                greeting_widget(old(self).ids_view().text),
            ),
    {
        let ghost s = events@;
        let ghost mut k: int = 0;
        let mut pending = events;
        let mut go_on = true;
        while pending.len() > 0
            invariant
                s == events@,
                0 <= k <= s.len(),
                pending@ == s.subrange(k, s.len() as int),
                go_on == forall|j: int| 0 <= j < k ==> !requests_exit(#[trigger] s[j].event),
                self.wf(),
                self.ids_view() == old(self).ids_view(),
                self.made() == old(self).made(),
                self.fed() == old(self).fed() + gui_inputs(s.subrange(0, k)),
                gui_inputs(s.subrange(0, k)).len() == 0 ==> *self == *old(self),
                gui_inputs(s.subrange(0, k)).len() > 0 ==> self.declared() == Some(
                    greeting_widget(old(self).ids_view().text),
                ),
            decreases pending.len(),
        {
            let QueuedEvent { event, input } = pending.remove(0);
            let more = self.process_event(event, input);
            go_on = go_on && more;
            proof {
                let before = s.subrange(0, k);
                let after = s.subrange(0, k + 1);
                assert(after.drop_last() =~= before);
                assert(after.last() == s[k]);
                assert(self.fed() =~= old(self).fed() + gui_inputs(after));
                k = k + 1;
            }
        }
        proof {
            assert(s.subrange(0, k) =~= s);
        }
        go_on
    }
}

} // verus!
