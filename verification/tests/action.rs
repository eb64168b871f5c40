use job_tracker::action::{Action, Mode};
use job_tracker::database::schema::JobApplication;

#[test]
fn a_copy_of_an_action_equals_it() {
    let actions = vec![
        Action::Tick,
        Action::Render,
        Action::Resize(80, 24),
        Action::Suspend,
        Action::Resume,
        Action::Quit,
        Action::ClearScreen,
        Action::Error("broken".to_string()),
        Action::Help,
        Action::DispatchJobSearch,
        Action::JobResults(vec![JobApplication::test(1), JobApplication::test(2)]),
        Action::IndexNext,
        Action::IndexPrevious,
        Action::FocusNext,
        Action::FocusPrevious,
        Action::UnFocusField,
        Action::ChangeMode(Mode::Popup("notes_popup")),
        Action::PopulateEditJobForm(JobApplication::test(3)),
        Action::EnterPopup("notes_popup"),
        Action::ExitPopup,
        Action::DispatchNotesPopupData("text"),
        Action::NotesPopupData("text"),
    ];
    for action in &actions {
        assert_eq!(&action.copy(), action);
    }
    assert_ne!(Action::Resize(1, 2), Action::Resize(2, 1));
    assert_ne!(Action::Error("a".to_string()), Action::Error("b".to_string()));
}

#[test]
fn the_starting_mode_is_home() {
    assert_eq!(Mode::default(), Mode::Home);
    assert!(Mode::default().same(&Mode::Home));
}

#[test]
fn an_action_is_logged_by_the_name_of_its_kind() {
    assert_eq!(Action::Tick.to_string(), "Tick");
    assert_eq!(Action::Resize(3, 4).to_string(), "Resize");
    assert_eq!(Action::Error("x".to_string()).to_string(), "Error");
    assert_eq!(Action::JobResults(Vec::new()).to_string(), "JobResults");
    assert_eq!(Action::ChangeMode(Mode::Home).to_string(), "ChangeMode");
    assert_eq!(Action::UnFocusField.to_string(), "UnFocusField");
    assert_eq!(Action::DispatchNotesPopupData("x").to_string(), "DispatchNotesPopupData");
    assert_eq!(Action::NotesPopupData("x").to_string(), "NotesPopupData");
}
