//! The components of the dashboard, and what all of them answer to.

use crate::action::{actions_view, Action, ActionView, Mode, ModeView};
use crate::components::edit_job::{spec_slots, EditJob, EditJobModel, Field, FieldSlot};
use crate::components::job_list::{spec_list_area, ListDrawing};
use crate::components::job_list::{spec_notes_popup, JobList, JobListModel};
use crate::components::notes_popup::{NotesPopup, NotesPopupModel};
use crate::components::search::Home;
use crate::config::Config;
use crate::event::{Event, MouseEventKind};
use crate::geometry::Position;
use crate::geometry::{Rect, Size};
use crate::keys::KeyEvent;
use vstd::prelude::*;

verus! {

/// A component of the dashboard.
pub enum Component {
    Home(Home),
    JobList(JobList),
    EditJob(EditJob),
    NotesPopup(NotesPopup),
}

/// What a component holds, as plain values.
pub ghost enum ComponentModel {
    Home,
    JobList(JobListModel),
    EditJob(EditJobModel),
    NotesPopup(NotesPopupModel),
}

impl ComponentModel {
    /// The mode that the component belongs to. It depends on the kind of
    /// the component alone, so it never changes.
    pub open spec fn mode(self) -> ModeView {
        match self {
            ComponentModel::Home => ModeView::Home,
            ComponentModel::JobList(_) => ModeView::Home,
            ComponentModel::EditJob(_) => ModeView::EditJob,
            ComponentModel::NotesPopup(_) => ModeView::Popup(spec_notes_popup()),
        }
    }

    /// The component after an action. An action that a component does not
    /// know leaves it as it is.
    pub open spec fn after_update(self, action: ActionView) -> ComponentModel {
        match self {
            ComponentModel::Home => self,
            ComponentModel::JobList(list) => ComponentModel::JobList(list.after_update(action)),
            ComponentModel::EditJob(form) => ComponentModel::EditJob(form.after_update(action)),
            ComponentModel::NotesPopup(popup) => ComponentModel::NotesPopup(
                popup.after_update(action),
            ),
        }
    }

    /// The actions that the component sends when it takes an action.
    pub open spec fn update_emits(self) -> Seq<ActionView> {
        match self {
            ComponentModel::JobList(list) => list.update_emits(),
            _ => Seq::<ActionView>::empty(),
        }
    }

    /// Tells whether `after_event` says what the event does to the
    /// component. It does not for the list under a move of the pointer,
    /// where the layout engine places the rows.
    pub open spec fn event_is_exact(self, event: Event) -> bool {
        match (self, event) {
            (ComponentModel::JobList(_), Event::Mouse(mouse)) => mouse.kind
                != MouseEventKind::Moved,
            _ => true,
        }
    }

    /// The component after an event.
    pub open spec fn after_event(self, event: Event) -> ComponentModel {
        match (self, event) {
            (ComponentModel::JobList(list), Event::Key(key)) => ComponentModel::JobList(
                list.after_key(key.code),
            ),
            (ComponentModel::JobList(list), Event::Mouse(mouse)) => ComponentModel::JobList(
                list.after_scroll(mouse.kind),
            ),
            (ComponentModel::EditJob(form), Event::Key(key)) => ComponentModel::EditJob(
                form.after_key(key),
            ),
            _ => self,
        }
    }

    /// The actions that the component sends when it takes an event.
    pub open spec fn event_emits(self, event: Event) -> Seq<ActionView> {
        match (self, event) {
            (ComponentModel::JobList(list), Event::Key(key)) => list.key_emits(key.code),
            (ComponentModel::NotesPopup(popup), Event::Key(key)) => popup.key_emits(key.code),
            _ => Seq::<ActionView>::empty(),
        }
    }

    /// The component with its sink: the list and the popup send actions
    /// from then on, the other components stay as they are.
    pub open spec fn with_sink(self) -> ComponentModel {
        match self {
            ComponentModel::JobList(list) => ComponentModel::JobList(
                JobListModel { sink: true, ..list },
            ),
            ComponentModel::NotesPopup(popup) => ComponentModel::NotesPopup(
                NotesPopupModel { sink: true, ..popup },
            ),
            other => other,
        }
    }

    /// The component after it was drawn into the area: the list notes the
    /// area, and the form notes that its fields were shown anew.
    pub open spec fn after_draw(self, area: Rect) -> ComponentModel {
        match self {
            ComponentModel::JobList(list) => ComponentModel::JobList(
                JobListModel { area: Some(spec_list_area(area)), ..list },
            ),
            ComponentModel::EditJob(form) => ComponentModel::EditJob(
                EditJobModel { restyle_pending: false, ..form },
            ),
            other => other,
        }
    }

    /// The component after the key that waits for its focused field was
    /// handed out.
    pub open spec fn after_take_input(self) -> ComponentModel {
        match self {
            ComponentModel::EditJob(form) => ComponentModel::EditJob(
                EditJobModel { pending_input: None, ..form },
            ),
            other => other,
        }
    }

    /// The key that waits for the focused field of the component, with the field.
    pub open spec fn pending_input(self) -> Option<(Field, KeyEvent)> {
        match self {
            ComponentModel::EditJob(form) => match form.pending_input {
                Some(key) => Some((Field::spec_from(form.focus), key)),
                None => None,
            },
            _ => None,
        }
    }

    /// The component with the key bindings of a configuration: the list
    /// keeps them, the other components read nothing from a configuration.
    pub open spec fn with_config(self, bindings: Map<Seq<KeyEvent>, ActionView>) -> ComponentModel {
        match self {
            ComponentModel::JobList(list) => ComponentModel::JobList(
                JobListModel { bindings: bindings, ..list },
            ),
            other => other,
        }
    }

    /// Tells whether `after` is the component after the event, where
    /// `after_event` does not say it: the list after a move of the pointer.
    pub open spec fn event_led_to(self, event: Event, after: ComponentModel) -> bool {
        match (self, event, after) {
            (
                ComponentModel::JobList(list),
                Event::Mouse(mouse),
                ComponentModel::JobList(next),
            ) => mouse.kind == MouseEventKind::Moved ==> list.pointer_moved(
                Position { x: mouse.column, y: mouse.row },
                next,
            ),
            _ => true,
        }
    }

    /// Tells whether two values are components of the same kind.
    pub open spec fn same_kind(self, other: ComponentModel) -> bool {
        match (self, other) {
            (ComponentModel::Home, ComponentModel::Home) => true,
            (ComponentModel::JobList(_), ComponentModel::JobList(_)) => true,
            (ComponentModel::EditJob(_), ComponentModel::EditJob(_)) => true,
            (ComponentModel::NotesPopup(_), ComponentModel::NotesPopup(_)) => true,
            _ => false,
        }
    }
}

impl View for Component {
    type V = ComponentModel;

    open spec fn view(&self) -> ComponentModel {
        match self {
            Component::Home(_) => ComponentModel::Home,
            Component::JobList(list) => ComponentModel::JobList(list@),
            Component::EditJob(form) => ComponentModel::EditJob(form@),
            Component::NotesPopup(popup) => ComponentModel::NotesPopup(popup@),
        }
    }
}

impl Component {
    /// The invariant of the component.
    pub open spec fn wf(&self) -> bool {
        match self {
            Component::JobList(list) => list@.wf(),
            Component::EditJob(form) => form.wf(),
            _ => true,
        }
    }

    /// The mode that the component belongs to.
    pub fn mode(&self) -> (r: Mode)
        ensures
            r@ == self@.mode(),
    {
        match self {
            Component::Home(home) => home.mode(),
            Component::JobList(list) => list.mode(),
            Component::EditJob(form) => form.mode(),
            Component::NotesPopup(popup) => popup.mode(),
        }
    }

    /// The name of the component, for diagnostics. It is never empty.
    pub fn id(&self) -> (r: String)
        ensures
            r@ == (match self@ {
                ComponentModel::Home => "Home"@,
                ComponentModel::JobList(_) => "Job List"@,
                ComponentModel::EditJob(_) => "Edit Job"@,
                ComponentModel::NotesPopup(_) => "Notes Popup"@,
            }),
            r@.len() > 0,
    {
        proof {
            reveal_strlit("Home");
            reveal_strlit("Job List");
            reveal_strlit("Edit Job");
            reveal_strlit("Notes Popup");
        }
        match self {
            Component::Home(_) => "Home".to_string(),
            Component::JobList(list) => list.id(),
            Component::EditJob(_) => "Edit Job".to_string(),
            Component::NotesPopup(popup) => popup.id(),
        }
    }

    /// Gives the component its sink. The list and the popup send actions
    /// from then on; the other components send none and stay as they are.
    pub fn register_action_handler(&mut self)
        requires
            old(self).wf(),
        ensures
            final(self).wf(),
            final(self)@ == old(self)@.with_sink(),
    {
        match self {
            Component::JobList(list) => list.register_action_handler(),
            Component::NotesPopup(popup) => popup.register_action_handler(),
            _ => {},
        }
    }

    /// Gives the component the configuration.
    pub fn register_config_handler(&mut self, config: Config)
        requires
            old(self).wf(),
        ensures
            final(self).wf(),
            final(self)@ == old(self)@.with_config(config.keybindings@),
    {
        match self {
            Component::JobList(list) => list.register_config_handler(config),
            Component::EditJob(form) => form.register_config_handler(config),
            _ => {},
        }
    }

    /// Prepares the component for a screen of the given size, once before
    /// the first cycle. A component that cannot be prepared says why, and
    /// the application does not start. None of the components has anything
    /// to prepare: each succeeds on every size and stays as it is.
    pub fn init(&mut self, size: Size) -> (r: Result<(), String>)
        ensures
            r.is_ok(),
            *final(self) == *old(self),
    {
        let _ = size;
        Ok(())
    }

    /// Takes an event. The actions that `event_emits` names are returned in
    /// their order, and the component changes as `after_event` says,
    /// wherever that function says it.
    pub fn handle_events(&mut self, event: Event) -> (r: Vec<Action>)
        requires
            old(self).wf(),
        ensures
            final(self).wf(),
            final(self)@.same_kind(old(self)@),
            actions_view(r@) == old(self)@.event_emits(event),
            old(self)@.event_is_exact(event) ==> final(self)@ == old(self)@.after_event(event),
            old(self)@.event_led_to(event, final(self)@),
    {
        match self {
            Component::Home(_) => {
                let none: Vec<Action> = Vec::new();
                assert(actions_view(none@) =~= Seq::<ActionView>::empty());
                none
            },
            Component::JobList(list) => {
                let emitted = list.handle_events(event);
                assert(emitted@.len() == 0 ==> actions_view(emitted@) =~= Seq::<ActionView>::empty());
                emitted
            },
            Component::EditJob(form) => {
                let emitted = form.handle_events(event);
                assert(actions_view(emitted@) =~= Seq::<ActionView>::empty());
                emitted
            },
            Component::NotesPopup(popup) => popup.handle_events(event),
        }
    }

    /// Takes an action. The component changes as `after_update` says, and
    /// the actions that `update_emits` names are returned in their order.
    pub fn update(&mut self, action: &Action) -> (r: Vec<Action>)
        requires
            old(self).wf(),
        ensures
            final(self).wf(),
            final(self)@ == old(self)@.after_update(action@),
            actions_view(r@) == old(self)@.update_emits(),
    {
        match self {
            Component::Home(_) => {
                let none: Vec<Action> = Vec::new();
                assert(actions_view(none@) =~= Seq::<ActionView>::empty());
                none
            },
            Component::JobList(list) => list.update(action),
            Component::EditJob(form) => {
                let emitted = form.update(action);
                assert(actions_view(emitted@) =~= Seq::<ActionView>::empty());
                emitted
            },
            Component::NotesPopup(popup) => {
                let emitted = popup.update(action);
                assert(actions_view(emitted@) =~= Seq::<ActionView>::empty());
                emitted
            },
        }
    }

    /// Says what is to be painted for the component in the area.
    pub fn draw(&mut self, area: Rect) -> (r: Drawing)
        requires
            old(self).wf(),
        ensures
            final(self).wf(),
            final(self)@ == old(self)@.after_draw(area),
            r.shows(old(self)@, area),
    {
        match self {
            Component::Home(_) => Drawing::Home,
            Component::JobList(list) => Drawing::JobList(list.draw(area)),
            Component::EditJob(form) => {
                let restyle = form.take_restyle();
                Drawing::EditJob(form.draw(), restyle)
            },
            Component::NotesPopup(popup) => {
                let (inner, text) = popup.draw(area);
                Drawing::NotesPopup(inner, text)
            },
        }
    }

    /// Hands out the key that waits for the focused field of the component.
    pub fn take_input(&mut self) -> (r: Option<(Field, KeyEvent)>)
        requires
            old(self).wf(),
        ensures
            final(self).wf(),
            final(self)@ == old(self)@.after_take_input(),
            r == old(self)@.pending_input(),
    {
        match self {
            Component::EditJob(form) => form.take_input(),
            _ => None,
        }
    }
}

/// What is to be painted for one component.
pub enum Drawing {
    /// The search bar.
    Home,
    /// The list: its border, the area of its rows, and the rows.
    JobList(ListDrawing),
    /// The places of the fields of the form, and whether the fields are
    /// to be shown anew first.
    EditJob(Vec<FieldSlot>, bool),
    /// Where the popup goes, and its notes.
    NotesPopup(Rect, &'static str),
}

impl Drawing {
    /// Tells whether this is what is to be painted in the area for a
    /// component that holds `model`.
    pub open spec fn shows(&self, model: ComponentModel, area: Rect) -> bool {
        match (model, *self) {
            (ComponentModel::Home, Drawing::Home) => true,
            (ComponentModel::JobList(list), Drawing::JobList(drawing)) => {
                &&& drawing.region == area.spec_inner(2, 2)
                &&& drawing.area == spec_list_area(area)
                &&& drawing.rows@.len() == list.row_count(spec_list_area(area))
                &&& forall|k: int|
                    0 <= k < drawing.rows@.len() ==> (#[trigger] drawing.rows@[k]).index
                        == list.start + k
                &&& forall|k: int|
                    0 <= k < drawing.rows@.len() ==> (#[trigger] drawing.rows@[k]).state
                        == list.row_state(k)
            },
            (ComponentModel::EditJob(form), Drawing::EditJob(slots, restyle)) => slots@
                == spec_slots() && restyle == form.restyle_pending,
            (ComponentModel::NotesPopup(popup), Drawing::NotesPopup(inner, text)) => inner
                == area.spec_inner(8, 4) && text@ == popup.notes,
            _ => false,
        }
    }
}

} // verus!
