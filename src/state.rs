//! conrod's `Ui` behind the only calls the session makes on it, with a ghost
//! record of what each call handed over.

use conrod::{Colorable, Positionable, Widget};
use vstd::prelude::*;

verus! {

#[verifier::external_type_specification]
#[verifier::external_body]
pub struct ExUi(conrod::Ui);

#[verifier::external_type_specification]
#[verifier::external_body]
pub struct ExInput(conrod::event::Input);

/// One text widget centred on the window, as declared to the `Ui`: its widget
/// id, its text, its font size and its colour as red, green and blue bytes.
pub type TextWidget = (usize, Seq<char>, u32, (u8, u8, u8));

/// A `Ui` together with what the session handed to it since it was taken over.
pub struct GuiState {
    ui: conrod::Ui,
    made: Ghost<Seq<usize>>,
    fed: Ghost<Seq<conrod::event::Input>>,
    declared: Ghost<Option<TextWidget>>,
}

impl GuiState {
    /// The `Ui` itself.
    pub closed spec fn ui_view(&self) -> conrod::Ui {
        self.ui
    }

    /// The widget ids generated in the `Ui`, in order.
    pub closed spec fn made(&self) -> Seq<usize> {
        self.made@
    }

    /// The inputs handed to the `Ui`, in order.
    pub closed spec fn fed(&self) -> Seq<conrod::event::Input> {
        self.fed@
    }

    /// What the last widget pass declared, if one was made.
    pub closed spec fn declared(&self) -> Option<TextWidget> {
        self.declared@
    }

    /// Takes over a `Ui`; nothing has been handed to it yet.
    pub(crate) fn new(ui: conrod::Ui) -> (r: GuiState)
        ensures
            r.ui_view() == ui,
            r.made() == Seq::<usize>::empty(),
            r.fed() == Seq::<conrod::event::Input>::empty(),
            r.declared() == None::<TextWidget>,
    {
        GuiState { ui, made: Ghost(Seq::empty()), fed: Ghost(Seq::empty()), declared: Ghost(None) }
    }

    pub(crate) fn ui(&self) -> (r: &conrod::Ui)
        ensures
            *r == self.ui_view(),
    {
        &self.ui
    }

    /// Relies on `Ui::widget_id_generator` and `widget::id::Generator::next`: a
    /// fresh placeholder node is added to the widget graph (whose nodes are
    /// never removed) and its `u32` index returned.
    #[verifier::external_body]
    pub(crate) fn next_widget_id(&mut self) -> (r: usize)
        ensures
            final(self).made() == old(self).made().push(r),
            final(self).fed() == old(self).fed(),
            final(self).declared() == old(self).declared(),
            r <= u32::MAX,
    {
        self.ui.widget_id_generator().next().index()
    }

    /// Relies on `Ui::handle_event`: the input is recorded in the GUI state.
    #[verifier::external_body]
    pub(crate) fn feed_input(&mut self, input: conrod::event::Input)
        ensures
            final(self).fed() == old(self).fed().push(input),
            final(self).made() == old(self).made(),
            final(self).declared() == old(self).declared(),
    {
        self.ui.handle_event(input)
    }

    /// Relies on `Ui::set_widgets`, `widget::Text::new`, `Positionable::middle_of`,
    /// `color::rgb_bytes`, `Colorable::color`, `Text::font_size` and
    /// `Widget::set`: one widget pass declares a single text widget, centred on
    /// the window. conrod asserts that the id is a node of the widget graph and
    /// holds no widget of another kind: an id generated here only ever holds
    /// this text widget.
    #[verifier::external_body]
    pub(crate) fn set_text_widget(&mut self, id: usize, text: &str, font_size: u32, rgb: (u8, u8, u8))
        requires
            old(self).made().contains(id),
        ensures
            final(self).declared() == Some::<TextWidget>((id, text@, font_size, rgb)),
            final(self).made() == old(self).made(),
            final(self).fed() == old(self).fed(),
    {
        let cell = &mut self.ui.set_widgets();
        let window = cell.window;
        conrod::widget::Text::new(text)
            .middle_of(window)
            .color(conrod::color::rgb_bytes(rgb.0, rgb.1, rgb.2))
            .font_size(font_size)
            .set(conrod::widget::Id::new(id), cell);
    }
}

} // verus!
