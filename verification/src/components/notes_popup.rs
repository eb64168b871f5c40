//! The popup that shows the notes of an application.

use crate::action::{actions_view, Action, ActionView, Mode, ModeView};
use crate::components::job_list::spec_notes_popup;
use crate::event::Event;
use crate::geometry::Rect;
use crate::keys::{KeyCode, KeyEvent};
use vstd::prelude::*;

verus! {

/// The popup of notes.
pub struct NotesPopup {
    has_sink: bool,
    notes: &'static str,
}

/// What the popup holds, as plain values.
pub ghost struct NotesPopupModel {
    pub sink: bool,
    pub notes: Seq<char>,
}

impl NotesPopupModel {
    /// The popup after an action: the text that is handed to it becomes its
    /// notes. Any other action changes nothing.
    pub open spec fn after_update(self, action: ActionView) -> NotesPopupModel {
        match action {
            ActionView::DispatchNotesPopupData(text) => NotesPopupModel { notes: text, ..self },
            _ => self,
        }
    }

    /// The actions that a key makes the popup send: escape goes back to the
    /// list and hands over the notes that the popup holds. A popup without
    /// a sink sends nothing.
    pub open spec fn key_emits(self, code: KeyCode) -> Seq<ActionView> {
        if self.sink && code == KeyCode::Esc {
            seq![ActionView::ChangeMode(ModeView::Home), ActionView::NotesPopupData(self.notes)]
        } else {
            Seq::<ActionView>::empty()
        }
    }
}

impl View for NotesPopup {
    type V = NotesPopupModel;

    closed spec fn view(&self) -> NotesPopupModel {
        NotesPopupModel { sink: self.has_sink, notes: self.notes@ }
    }
}

impl NotesPopup {
    /// A popup without notes and without a sink.
    pub fn new() -> (r: NotesPopup)
        ensures
            r@ == (NotesPopupModel { sink: false, notes: Seq::<char>::empty() }),
    {
        let empty: &'static str = "";
        proof {
            reveal_strlit("");
            assert(empty@ =~= Seq::<char>::empty());
        }
        NotesPopup { has_sink: false, notes: empty }
    }

    /// The mode that the popup belongs to.
    pub fn mode(&self) -> (r: Mode)
        ensures
            r@ == ModeView::Popup(spec_notes_popup()),
    {
        Mode::Popup("notes_popup")
    }

    /// The name of the popup.
    pub fn id(&self) -> (r: String)
        ensures
            r@ == "Notes Popup"@,
    {
        "Notes Popup".to_string()
    }

    /// Gives the popup its sink: from now on its handlers send actions.
    pub fn register_action_handler(&mut self)
        ensures
            final(self)@ == (NotesPopupModel { sink: true, ..old(self)@ }),
    {
        self.has_sink = true;
    }

    /// Takes an action. The popup changes as `after_update` says; no action is sent.
    pub fn update(&mut self, action: &Action) -> (r: Vec<Action>)
        ensures
            final(self)@ == old(self)@.after_update(action@),
            r@.len() == 0,
    {
        match action {
            Action::DispatchNotesPopupData(notes) => {
                self.notes = *notes;
            },
            _ => {},
        }
        Vec::new()
    }

    /// Takes a key. The popup stays as it is, and the actions that
    /// `key_emits` names are returned in their order. What escape hands
    /// over is the text that the popup holds, that is, the text that was
    /// last dispatched to it: the popup has no text of its own to answer
    /// with, so what was asked of it comes back.
    pub fn handle_key_event(&mut self, key: KeyEvent) -> (r: Vec<Action>)
        ensures
            final(self)@ == old(self)@,
            actions_view(r@) == old(self)@.key_emits(key.code),
    {
        let mut emitted: Vec<Action> = Vec::new();
        if self.has_sink && key.code == KeyCode::Esc {
            emitted.push(Action::ChangeMode(Mode::Home));
            emitted.push(Action::NotesPopupData(self.notes));
        }
        assert(actions_view(emitted@) =~= old(self)@.key_emits(key.code));
        emitted
    }

    /// Takes an event: a key goes to `handle_key_event`, any other event
    /// changes nothing and sends nothing.
    pub fn handle_events(&mut self, event: Event) -> (r: Vec<Action>)
        ensures
            final(self)@ == old(self)@,
            actions_view(r@) == (match event {
                Event::Key(key) => old(self)@.key_emits(key.code),
                _ => Seq::<ActionView>::empty(),
            }),
    {
        match event {
            Event::Key(key) => self.handle_key_event(key),
            _ => {
                let none: Vec<Action> = Vec::new();
                assert(actions_view(none@) =~= Seq::<ActionView>::empty());
                none
            },
        }
    }

    /// Where the popup is drawn inside the area, and the notes to show there.
    pub fn draw(&self, area: Rect) -> (r: (Rect, &'static str))
        ensures
            r.0 == area.spec_inner(8, 4),
            r.1@ == self@.notes,
    {
        (area.inner(8, 4), self.notes)
    }
}

} // verus!
