//! The modes of the application and the actions that flow through it.

use crate::database::schema::{copy_jobs, jobs_view, JobApplication, JobApplicationView};
use crate::text::same_text;
use vstd::prelude::*;

verus! {

/// The screen that is active. Exactly one mode is active at any time.
#[derive(Debug, Clone, Copy, PartialEq, Eq, Hash)]
pub enum Mode {
    /// The list of applications.
    Home,
    /// The form that edits one application.
    EditJob,
    /// A popup, known by its name.
    Popup(&'static str),
}

/// A mode as a plain value: two popups are the same mode when their names
/// hold the same characters.
pub ghost enum ModeView {
    Home,
    EditJob,
    Popup(Seq<char>),
}

impl View for Mode {
    type V = ModeView;

    open spec fn view(&self) -> ModeView {
        match *self {
            Mode::Home => ModeView::Home,
            Mode::EditJob => ModeView::EditJob,
            Mode::Popup(name) => ModeView::Popup(name@),
        }
    }
}

impl Mode {
    /// Tells whether two modes are the same mode.
    pub fn same(&self, other: &Mode) -> (r: bool)
        ensures
            r == (self@ == other@),
    {
        match (*self, *other) {
            (Mode::Home, Mode::Home) => true,
            (Mode::EditJob, Mode::EditJob) => true,
            (Mode::Popup(a), Mode::Popup(b)) => same_text(a, b),
            _ => false,
        }
    }
}

impl Default for Mode {
    /// The mode in which the application starts.
    fn default() -> (r: Mode)
        ensures
            r@ == ModeView::Home,
    {
        Mode::Home
    }
}

/// An intent that travels through the queue. A value is complete in itself:
/// it refers to nothing that a component owns.
#[derive(Debug, Clone, PartialEq, Eq)]
pub enum Action {
    Tick,
    Render,
    Resize(u16, u16),
    Suspend,
    Resume,
    Quit,
    ClearScreen,
    Error(String),
    Help,
    DispatchJobSearch,
    JobResults(Vec<JobApplication>),
    IndexNext,
    IndexPrevious,
    FocusNext,
    FocusPrevious,
    UnFocusField,
    ChangeMode(Mode),
    PopulateEditJobForm(JobApplication),
    EnterPopup(&'static str),
    ExitPopup,
    DispatchNotesPopupData(&'static str),
    NotesPopupData(&'static str),
}

/// An action as a plain value.
pub ghost enum ActionView {
    Tick,
    Render,
    Resize(u16, u16),
    Suspend,
    Resume,
    Quit,
    ClearScreen,
    Error(Seq<char>),
    Help,
    DispatchJobSearch,
    JobResults(Seq<JobApplicationView>),
    IndexNext,
    IndexPrevious,
    FocusNext,
    FocusPrevious,
    UnFocusField,
    ChangeMode(ModeView),
    PopulateEditJobForm(JobApplicationView),
    EnterPopup(Seq<char>),
    ExitPopup,
    DispatchNotesPopupData(Seq<char>),
    NotesPopupData(Seq<char>),
}

impl View for Action {
    type V = ActionView;

    open spec fn view(&self) -> ActionView {
        match *self {
            Action::Tick => ActionView::Tick,
            Action::Render => ActionView::Render,
            Action::Resize(w, h) => ActionView::Resize(w, h),
            Action::Suspend => ActionView::Suspend,
            Action::Resume => ActionView::Resume,
            Action::Quit => ActionView::Quit,
            Action::ClearScreen => ActionView::ClearScreen,
            Action::Error(message) => ActionView::Error(message@),
            Action::Help => ActionView::Help,
            Action::DispatchJobSearch => ActionView::DispatchJobSearch,
            Action::JobResults(jobs) => ActionView::JobResults(jobs_view(jobs@)),
            Action::IndexNext => ActionView::IndexNext,
            Action::IndexPrevious => ActionView::IndexPrevious,
            Action::FocusNext => ActionView::FocusNext,
            Action::FocusPrevious => ActionView::FocusPrevious,
            Action::UnFocusField => ActionView::UnFocusField,
            Action::ChangeMode(mode) => ActionView::ChangeMode(mode@),
            Action::PopulateEditJobForm(job) => ActionView::PopulateEditJobForm(job@),
            Action::EnterPopup(name) => ActionView::EnterPopup(name@),
            Action::ExitPopup => ActionView::ExitPopup,
            Action::DispatchNotesPopupData(text) => ActionView::DispatchNotesPopupData(text@),
            Action::NotesPopupData(text) => ActionView::NotesPopupData(text@),
        }
    }
}

/// What each action of a list holds, in order.
pub open spec fn actions_view(actions: Seq<Action>) -> Seq<ActionView> {
    actions.map_values(|a: Action| a@)
}

impl Action {
    /// The name of the kind of the action, whatever the action carries.
    pub open spec fn spec_name(action: ActionView) -> Seq<char> {
        match action {
            ActionView::Tick => "Tick"@,
            ActionView::Render => "Render"@,
            ActionView::Resize(_, _) => "Resize"@,
            ActionView::Suspend => "Suspend"@,
            ActionView::Resume => "Resume"@,
            ActionView::Quit => "Quit"@,
            ActionView::ClearScreen => "ClearScreen"@,
            ActionView::Error(_) => "Error"@,
            ActionView::Help => "Help"@,
            ActionView::DispatchJobSearch => "DispatchJobSearch"@,
            ActionView::JobResults(_) => "JobResults"@,
            ActionView::IndexNext => "IndexNext"@,
            ActionView::IndexPrevious => "IndexPrevious"@,
            ActionView::FocusNext => "FocusNext"@,
            ActionView::FocusPrevious => "FocusPrevious"@,
            ActionView::UnFocusField => "UnFocusField"@,
            ActionView::ChangeMode(_) => "ChangeMode"@,
            ActionView::PopulateEditJobForm(_) => "PopulateEditJobForm"@,
            ActionView::EnterPopup(_) => "EnterPopup"@,
            ActionView::ExitPopup => "ExitPopup"@,
            ActionView::DispatchNotesPopupData(_) => "DispatchNotesPopupData"@,
            ActionView::NotesPopupData(_) => "NotesPopupData"@,
        }
    }

    /// The name of the kind of the action, as it is written in logs.
    pub fn to_string(&self) -> (r: String)
        ensures
            r@ == Self::spec_name(self@),
    {
        match self {
            Action::Tick => "Tick".to_string(),
            Action::Render => "Render".to_string(),
            Action::Resize(_, _) => "Resize".to_string(),
            Action::Suspend => "Suspend".to_string(),
            Action::Resume => "Resume".to_string(),
            Action::Quit => "Quit".to_string(),
            Action::ClearScreen => "ClearScreen".to_string(),
            Action::Error(_) => "Error".to_string(),
            Action::Help => "Help".to_string(),
            Action::DispatchJobSearch => "DispatchJobSearch".to_string(),
            Action::JobResults(_) => "JobResults".to_string(),
            Action::IndexNext => "IndexNext".to_string(),
            Action::IndexPrevious => "IndexPrevious".to_string(),
            Action::FocusNext => "FocusNext".to_string(),
            Action::FocusPrevious => "FocusPrevious".to_string(),
            Action::UnFocusField => "UnFocusField".to_string(),
            Action::ChangeMode(_) => "ChangeMode".to_string(),
            Action::PopulateEditJobForm(_) => "PopulateEditJobForm".to_string(),
            Action::EnterPopup(_) => "EnterPopup".to_string(),
            Action::ExitPopup => "ExitPopup".to_string(),
            Action::DispatchNotesPopupData(_) => "DispatchNotesPopupData".to_string(),
            Action::NotesPopupData(_) => "NotesPopupData".to_string(),
        }
    }

    /// An owned copy that holds the same as this action.
    pub fn copy(&self) -> (r: Action)
        ensures
            r@ == self@,
    {
        match self {
            Action::Tick => Action::Tick,
            Action::Render => Action::Render,
            Action::Resize(w, h) => Action::Resize(*w, *h),
            Action::Suspend => Action::Suspend,
            Action::Resume => Action::Resume,
            Action::Quit => Action::Quit,
            Action::ClearScreen => Action::ClearScreen,
            Action::Error(message) => Action::Error(message.clone()),
            Action::Help => Action::Help,
            Action::DispatchJobSearch => Action::DispatchJobSearch,
            Action::JobResults(jobs) => Action::JobResults(copy_jobs(jobs)),
            Action::IndexNext => Action::IndexNext,
            Action::IndexPrevious => Action::IndexPrevious,
            Action::FocusNext => Action::FocusNext,
            Action::FocusPrevious => Action::FocusPrevious,
            Action::UnFocusField => Action::UnFocusField,
            Action::ChangeMode(mode) => Action::ChangeMode(*mode),
            Action::PopulateEditJobForm(job) => Action::PopulateEditJobForm(job.copy()),
            Action::EnterPopup(name) => Action::EnterPopup(*name),
            Action::ExitPopup => Action::ExitPopup,
            Action::DispatchNotesPopupData(text) => Action::DispatchNotesPopupData(*text),
            Action::NotesPopupData(text) => Action::NotesPopupData(*text),
        }
    }
}

} // verus!
