//! The form that edits one application: which field has the focus, and
//! where each field is drawn.

use crate::action::{Action, ActionView, Mode, ModeView};
use crate::components::util::Colour;
use crate::config::Config;
use crate::database::schema::{JobApplication, JobApplicationView};
use crate::event::Event;
use crate::focus::{spec_next, spec_prev, FocusIndex};
use crate::keys::{KeyCode, KeyEvent, KeyEventKind, NONE, SHIFT};
use vstd::prelude::*;

verus! {

/// A field of the form.
#[derive(Debug, Clone, Copy, PartialEq, Eq, Hash, Structural)]
pub enum Field {
    Unfocused,
    Position,
    PositionCategory,
    CompanyName,
    WorkType,
    Location,
    LocationType,
    ApplicationDate,
    Status,
    ContactInfo,
    Url,
    Files,
    Notes,
}

impl Field {
    /// The number of the field; the absence of a field is minus one.
    pub open spec fn spec_index(self) -> int {
        match self {
            Field::Unfocused => -1,
            Field::Position => 0,
            Field::PositionCategory => 1,
            Field::CompanyName => 2,
            Field::WorkType => 3,
            Field::Location => 4,
            Field::LocationType => 5,
            Field::ApplicationDate => 6,
            Field::Status => 7,
            Field::ContactInfo => 8,
            Field::Url => 9,
            Field::Files => 10,
            Field::Notes => 11,
        }
    }

    /// The field with the given number; a number that no field has gives none.
    pub open spec fn spec_from(value: int) -> Field {
        if value == 0 {
            Field::Position
        } else if value == 1 {
            Field::PositionCategory
        } else if value == 2 {
            Field::CompanyName
        } else if value == 3 {
            Field::WorkType
        } else if value == 4 {
            Field::Location
        } else if value == 5 {
            Field::LocationType
        } else if value == 6 {
            Field::ApplicationDate
        } else if value == 7 {
            Field::Status
        } else if value == 8 {
            Field::ContactInfo
        } else if value == 9 {
            Field::Url
        } else if value == 10 {
            Field::Files
        } else if value == 11 {
            Field::Notes
        } else {
            Field::Unfocused
        }
    }

    /// The title under which the field is shown.
    pub open spec fn spec_title(self) -> Seq<char> {
        match self {
            Field::Unfocused => "None"@,
            Field::Position => "Position"@,
            Field::PositionCategory => "PositionCategory"@,
            Field::CompanyName => "CompanyName"@,
            Field::WorkType => "WorkType"@,
            Field::Location => "Location"@,
            Field::LocationType => "LocationType"@,
            Field::ApplicationDate => "ApplicationDate"@,
            Field::Status => "Status"@,
            Field::ContactInfo => "ContactInfo"@,
            Field::Url => "Url"@,
            Field::Files => "Files"@,
            Field::Notes => "Notes"@,
        }
    }

    /// The number of fields of the form.
    pub fn len() -> (r: i8)
        ensures
            r == 12,
    {
        12
    }

    /// The number of the field.
    pub fn index(self) -> (r: i8)
        ensures
            r == self.spec_index(),
    {
        match self {
            Field::Unfocused => -1,
            Field::Position => 0,
            Field::PositionCategory => 1,
            Field::CompanyName => 2,
            Field::WorkType => 3,
            Field::Location => 4,
            Field::LocationType => 5,
            Field::ApplicationDate => 6,
            Field::Status => 7,
            Field::ContactInfo => 8,
            Field::Url => 9,
            Field::Files => 10,
            Field::Notes => 11,
        }
    }

    /// The field with the given number.
    pub fn from_index(value: i8) -> (r: Field)
        ensures
            r == Self::spec_from(value as int),
    {
        match value {
            0 => Field::Position,
            1 => Field::PositionCategory,
            2 => Field::CompanyName,
            3 => Field::WorkType,
            4 => Field::Location,
            5 => Field::LocationType,
            6 => Field::ApplicationDate,
            7 => Field::Status,
            8 => Field::ContactInfo,
            9 => Field::Url,
            10 => Field::Files,
            11 => Field::Notes,
            _ => Field::Unfocused,
        }
    }

    /// The title under which the field is shown.
    pub fn title(self) -> (r: String)
        ensures
            r@ == self.spec_title(),
    {
        match self {
            Field::Unfocused => "None".to_string(),
            Field::Position => "Position".to_string(),
            Field::PositionCategory => "PositionCategory".to_string(),
            Field::CompanyName => "CompanyName".to_string(),
            Field::WorkType => "WorkType".to_string(),
            Field::Location => "Location".to_string(),
            Field::LocationType => "LocationType".to_string(),
            Field::ApplicationDate => "ApplicationDate".to_string(),
            Field::Status => "Status".to_string(),
            Field::ContactInfo => "ContactInfo".to_string(),
            Field::Url => "Url".to_string(),
            Field::Files => "Files".to_string(),
            Field::Notes => "Notes".to_string(),
        }
    }

    /// Moves forward by `rhs` fields; past the last field there is none.
    pub fn add_assign(&mut self, rhs: i8)
        requires
            i8::MIN <= old(self).spec_index() + rhs <= i8::MAX,
        ensures
            *final(self) == Self::spec_from(old(self).spec_index() + rhs),
    {
        let value: i8 = self.index() + rhs;
        *self = Field::from_index(value);
    }

    /// Moves back by `rhs` fields; before the first field there is none.
    pub fn sub_assign(&mut self, rhs: i8)
        requires
            i8::MIN <= old(self).spec_index() - rhs <= i8::MAX,
        ensures
            *final(self) == Self::spec_from(old(self).spec_index() - rhs),
    {
        let value: i8 = self.index() - rhs;
        *self = Field::from_index(value);
    }

    /// Going to a field's number and back gives the field.
    pub proof fn lemma_index_round_trip(field: Field)
        ensures
            Self::spec_from(field.spec_index()) == field,
    {
    }
}

/// How much of its chunk a field takes.
#[derive(Debug, Clone, Copy, PartialEq, Eq, Structural)]
pub enum Share {
    /// The whole chunk.
    Whole,
    /// The left seventy hundredths.
    Wide,
    /// The right thirty hundredths.
    Narrow,
}

/// Where a field is drawn: the chunk, counted down the left column and then
/// down the right one, and the share of the chunk.
#[derive(Debug, Clone, Copy, PartialEq, Eq, Structural)]
pub struct FieldSlot {
    pub field: Field,
    pub chunk: usize,
    pub share: Share,
}

/// How a field is shown.
#[derive(Debug, Clone, Copy, PartialEq, Eq, Structural)]
pub struct FieldStyle {
    pub border: Colour,
    pub cursor_underlined: bool,
}

/// The place of every field of the form.
pub open spec fn spec_slots() -> Seq<FieldSlot> {
    seq![
        FieldSlot { field: Field::Position, chunk: 0, share: Share::Wide },
        FieldSlot { field: Field::PositionCategory, chunk: 0, share: Share::Narrow },
        FieldSlot { field: Field::CompanyName, chunk: 1, share: Share::Whole },
        FieldSlot { field: Field::WorkType, chunk: 2, share: Share::Whole },
        FieldSlot { field: Field::Location, chunk: 3, share: Share::Wide },
        FieldSlot { field: Field::LocationType, chunk: 3, share: Share::Narrow },
        FieldSlot { field: Field::ApplicationDate, chunk: 4, share: Share::Whole },
        FieldSlot { field: Field::Status, chunk: 5, share: Share::Whole },
        FieldSlot { field: Field::ContactInfo, chunk: 6, share: Share::Whole },
        FieldSlot { field: Field::Url, chunk: 7, share: Share::Whole },
        FieldSlot { field: Field::Files, chunk: 8, share: Share::Whole },
        FieldSlot { field: Field::Notes, chunk: 9, share: Share::Whole },
    ]
}

/// The form.
pub struct EditJob {
    config: Config,
    job: JobApplication,
    focus: FocusIndex,
    focused_updated: bool,
    restyle_pending: bool,
    pending_input: Option<KeyEvent>,
}

/// What the form holds, as plain values.
pub ghost struct EditJobModel {
    /// The number of the field that has the focus.
    pub focus: int,
    /// Whether the fields show the focus as it is now.
    pub focused_updated: bool,
    /// Whether the fields are waiting to be shown anew.
    pub restyle_pending: bool,
    /// The key that the focused field has yet to take.
    pub pending_input: Option<KeyEvent>,
    pub job: JobApplicationView,
}

/// What a key does to the form.
pub enum KeyEffect {
    /// The focus goes to the next field.
    Forward,
    /// The focus goes to the previous field.
    Back,
    /// The key is text for the focused field.
    Input,
}

/// What a key does to the form: tab alone and enter go forward, back-tab
/// with shift goes back, and any other key is text for the focused field.
pub open spec fn spec_key_effect(key: KeyEvent) -> KeyEffect {
    if key.code == KeyCode::Tab && key.modifiers == NONE && key.kind == KeyEventKind::Press {
        KeyEffect::Forward
    } else if key.code == KeyCode::BackTab && key.modifiers == SHIFT && key.kind
        == KeyEventKind::Press {
        KeyEffect::Back
    } else if key.code == KeyCode::Enter {
        KeyEffect::Forward
    } else {
        KeyEffect::Input
    }
}

impl EditJobModel {
    /// The focus is on one of the twelve fields.
    pub open spec fn wf(self) -> bool {
        0 <= self.focus < 12
    }

    /// The form after a key.
    pub open spec fn after_key(self, key: KeyEvent) -> EditJobModel {
        match spec_key_effect(key) {
            KeyEffect::Forward => EditJobModel {
                focus: spec_next(self.focus, 12),
                focused_updated: false,
                ..self
            },
            KeyEffect::Back => EditJobModel {
                focus: spec_prev(self.focus, 12),
                focused_updated: false,
                ..self
            },
            KeyEffect::Input => EditJobModel { pending_input: Some(key), ..self },
        }
    }

    /// The form after an action: a render makes the fields show the focus
    /// anew where they do not yet, a filled form replaces the application,
    /// and a move of the focus goes to the next or the previous field,
    /// around the ends. Any other action changes nothing.
    pub open spec fn after_update(self, action: ActionView) -> EditJobModel {
        match action {
            ActionView::Render => if !self.focused_updated {
                EditJobModel { focused_updated: true, restyle_pending: true, ..self }
            } else {
                self
            },
            ActionView::PopulateEditJobForm(job) => EditJobModel { job: job, ..self },
            ActionView::FocusNext => EditJobModel {
                focus: spec_next(self.focus, 12),
                focused_updated: false,
                ..self
            },
            ActionView::FocusPrevious => EditJobModel {
                focus: spec_prev(self.focus, 12),
                focused_updated: false,
                ..self
            },
            _ => self,
        }
    }
}

impl View for EditJob {
    type V = EditJobModel;

    closed spec fn view(&self) -> EditJobModel {
        EditJobModel {
            focus: self.focus.spec_index(),
            focused_updated: self.focused_updated,
            restyle_pending: self.restyle_pending,
            pending_input: self.pending_input,
            job: self.job@,
        }
    }
}

impl EditJob {
    /// The invariant of the form: its cursor runs over the twelve fields.
    pub closed spec fn wf(&self) -> bool {
        self.focus.wf() && self.focus.spec_count() == 12
    }

    /// The form holds what its invariant says.
    pub proof fn lemma_wf(&self)
        requires
            self.wf(),
        ensures
            self@.wf(),
    {
    }

    /// An empty form with the focus on the first field.
    pub fn new() -> (r: EditJob)
        ensures
            r.wf(),
            r@ == (EditJobModel {
                focus: 0,
                focused_updated: false,
                restyle_pending: false,
                pending_input: None,
                job: JobApplication::spec_default(),
            }),
    {
        EditJob {
            config: Config::new(),
            job: JobApplication::default(),
            focus: FocusIndex::new(12),
            focused_updated: false,
            restyle_pending: false,
            pending_input: None,
        }
    }

    /// The fields of the form with their titles, in the order of their numbers.
    pub fn create_fields() -> (r: Vec<(Field, String)>)
        ensures
            r@.len() == 12,
            forall|i: int|
                0 <= i < 12 ==> (#[trigger] r@[i]).0 == Field::spec_from(i) && r@[i].1@
                    == Field::spec_from(i).spec_title(),
    {
        let mut fields: Vec<(Field, String)> = Vec::new();
        let mut i: i8 = 0;
        while i < 12
            invariant
                0 <= i <= 12,
                fields@.len() == i,
                forall|k: int|
                    0 <= k < i ==> (#[trigger] fields@[k]).0 == Field::spec_from(k) && fields@[k].1@
                        == Field::spec_from(k).spec_title(),
            decreases 12 - i,
        {
            let field = Field::from_index(i);
            fields.push((field, field.title()));
            i = i + 1;
        }
        fields
    }

    /// The mode that the form belongs to.
    pub fn mode(&self) -> (r: Mode)
        ensures
            r@ == ModeView::EditJob,
    {
        Mode::EditJob
    }

    /// The form sends no action, so it keeps no sink.
    pub fn register_action_handler(&mut self)
        ensures
            *final(self) == *old(self),
    {
    }

    /// The form reads nothing from the configuration.
    pub fn register_config_handler(&mut self, config: Config)
        ensures
            *final(self) == *old(self),
    {
        let _ = config;
    }

    /// The field that has the focus.
    pub fn focused_field(&self) -> (r: Field)
        requires
            self.wf(),
        ensures
            r == Field::spec_from(self@.focus),
            r != Field::Unfocused,
    {
        match self.focus.current() {
            Some(i) => Field::from_index(i as i8),
            None => Field::Position,
        }
    }

    /// How the field is to be shown: the focused field with a blue border
    /// and an underlined cursor, any other with a white border.
    pub fn field_style(&self, field: Field) -> (r: FieldStyle)
        requires
            self.wf(),
        ensures
            r == (if field == Field::spec_from(self@.focus) {
                FieldStyle { border: Colour::Blue, cursor_underlined: true }
            } else {
                FieldStyle { border: Colour::White, cursor_underlined: false }
            }),
    {
        if field == self.focused_field() {
            FieldStyle { border: Colour::Blue, cursor_underlined: true }
        } else {
            FieldStyle { border: Colour::White, cursor_underlined: false }
        }
    }

    /// Takes a key. The form changes as `after_key` says; no action is sent.
    pub fn handle_key_event(&mut self, key: KeyEvent) -> (r: Vec<Action>)
        requires
            old(self).wf(),
        ensures
            final(self).wf(),
            final(self)@ == old(self)@.after_key(key),
            r@.len() == 0,
    {
        let forward = (key.code == KeyCode::Tab && key.modifiers == NONE && key.kind
            == KeyEventKind::Press) || key.code == KeyCode::Enter;
        let back = key.code == KeyCode::BackTab && key.modifiers == SHIFT && key.kind
            == KeyEventKind::Press;
        if forward {
            self.focus.advance();
            self.focused_updated = false;
        } else if back {
            self.focus.retreat();
            self.focused_updated = false;
        } else {
            self.pending_input = Some(key);
        }
        Vec::new()
    }

    /// Takes an event: a key goes to `handle_key_event`, any other event
    /// changes nothing.
    pub fn handle_events(&mut self, event: Event) -> (r: Vec<Action>)
        requires
            old(self).wf(),
        ensures
            final(self).wf(),
            r@.len() == 0,
            final(self)@ == (match event {
                Event::Key(key) => old(self)@.after_key(key),
                _ => old(self)@,
            }),
    {
        match event {
            Event::Key(key) => self.handle_key_event(key),
            _ => Vec::new(),
        }
    }

    /// Takes an action. The form changes as `after_update` says; no action is sent.
    pub fn update(&mut self, action: &Action) -> (r: Vec<Action>)
        requires
            old(self).wf(),
        ensures
            final(self).wf(),
            final(self)@ == old(self)@.after_update(action@),
            r@.len() == 0,
    {
        match action {
            Action::Render => {
                if !self.focused_updated {
                    self.restyle_pending = true;
                    self.focused_updated = true;
                }
            },
            Action::PopulateEditJobForm(job) => {
                self.job = job.copy();
            },
            Action::FocusNext => {
                self.focus.advance();
                self.focused_updated = false;
            },
            Action::FocusPrevious => {
                self.focus.retreat();
                self.focused_updated = false;
            },
            _ => {},
        }
        Vec::new()
    }

    /// Hands out the key that the focused field has yet to take, with the field.
    pub fn take_input(&mut self) -> (r: Option<(Field, KeyEvent)>)
        requires
            old(self).wf(),
        ensures
            final(self).wf(),
            final(self)@ == (EditJobModel { pending_input: None, ..old(self)@ }),
            r == (match old(self)@.pending_input {
                Some(key) => Some((Field::spec_from(old(self)@.focus), key)),
                None => None,
            }),
    {
        let field = self.focused_field();
        match self.pending_input {
            Some(key) => {
                self.pending_input = None;
                Some((field, key))
            },
            None => None,
        }
    }

    /// Tells whether the fields are waiting to be shown anew, and notes
    /// that they no longer are.
    pub fn take_restyle(&mut self) -> (r: bool)
        ensures
            final(self).wf() == old(self).wf(),
            final(self)@ == (EditJobModel { restyle_pending: false, ..old(self)@ }),
            r == old(self)@.restyle_pending,
    {
        let pending = self.restyle_pending;
        self.restyle_pending = false;
        pending
    }

    /// The application that the form holds.
    pub fn job(&self) -> (r: &JobApplication)
        ensures
            r@ == self@.job,
    {
        &self.job
    }

    /// Where each field of the form is drawn.
    pub fn draw(&self) -> (r: Vec<FieldSlot>)
        ensures
            r@ == spec_slots(),
    {
        let mut slots: Vec<FieldSlot> = Vec::new();
        slots.push(FieldSlot { field: Field::Position, chunk: 0, share: Share::Wide });
        slots.push(FieldSlot { field: Field::PositionCategory, chunk: 0, share: Share::Narrow });
        slots.push(FieldSlot { field: Field::CompanyName, chunk: 1, share: Share::Whole });
        slots.push(FieldSlot { field: Field::WorkType, chunk: 2, share: Share::Whole });
        slots.push(FieldSlot { field: Field::Location, chunk: 3, share: Share::Wide });
        slots.push(FieldSlot { field: Field::LocationType, chunk: 3, share: Share::Narrow });
        slots.push(FieldSlot { field: Field::ApplicationDate, chunk: 4, share: Share::Whole });
        slots.push(FieldSlot { field: Field::Status, chunk: 5, share: Share::Whole });
        slots.push(FieldSlot { field: Field::ContactInfo, chunk: 6, share: Share::Whole });
        slots.push(FieldSlot { field: Field::Url, chunk: 7, share: Share::Whole });
        slots.push(FieldSlot { field: Field::Files, chunk: 8, share: Share::Whole });
        slots.push(FieldSlot { field: Field::Notes, chunk: 9, share: Share::Whole });
        assert(slots@ =~= spec_slots());
        slots
    }
}

} // verus!
