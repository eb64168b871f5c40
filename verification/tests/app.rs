use job_tracker::action::{Action, Mode};
use job_tracker::app::{App, Effect, LoopStep};
use job_tracker::components::component::{Component, Drawing};
use job_tracker::components::edit_job::{EditJob, Field};
use job_tracker::components::job_list::JobList;
use job_tracker::components::notes_popup::NotesPopup;
use job_tracker::components::search::Home;
use job_tracker::config::Config;
use job_tracker::database::schema::JobApplication;
use job_tracker::event::{Event, MouseEvent, MouseEventKind};
use job_tracker::geometry::{Rect, Size};
use job_tracker::keys::{KeyBindings, KeyCode, KeyEvent, CONTROL, NONE};

fn drain(app: &mut App) -> Vec<Effect> {
    let mut effects = Vec::new();
    let mut guard = 0;
    while let Some(action) = app.next_action() {
        effects.push(app.handle_action(action));
        guard += 1;
        assert!(guard < 1000);
    }
    effects
}

fn key(c: char) -> KeyEvent {
    KeyEvent::new(KeyCode::Char(c), NONE)
}

fn list_and_form() -> App {
    let components = vec![
        Component::JobList(JobList::new()),
        Component::EditJob(EditJob::new()),
    ];
    App::with_components(components, Config::new())
}

fn focused_field(app: &App, place: usize) -> Field {
    match &app.components()[place] {
        Component::EditJob(form) => form.focused_field(),
        _ => panic!("no form at that place"),
    }
}

fn jobs_of(app: &App, place: usize) -> usize {
    match &app.components()[place] {
        Component::JobList(list) => list.jobs().len(),
        _ => panic!("no list at that place"),
    }
}

#[test]
fn the_starting_controller_shows_the_home_components() {
    let app = App::new();
    assert_eq!(app.mode(), Mode::Home);
    assert_eq!(app.current_mode_components(), &vec![0, 1]);
    assert_eq!(app.components().len(), 3);
    assert_eq!(app.pending_actions(), 0);
    assert!(!app.should_quit());
    assert!(!app.should_suspend());
    assert!(app.last_tick_key_events().is_empty());
    assert_eq!(app.after_drain(), LoopStep::Continue);
}

#[test]
fn the_view_follows_the_last_change_of_mode() {
    let mut app = App::new();
    app.register_components();
    for action in [
        Action::Tick,
        Action::ChangeMode(Mode::EditJob),
        Action::Render,
        Action::ChangeMode(Mode::Popup("notes_popup")),
        Action::ChangeMode(Mode::Home),
        Action::Tick,
        Action::ChangeMode(Mode::EditJob),
        Action::Help,
    ] {
        app.enqueue(action);
    }
    drain(&mut app);
    assert_eq!(app.mode(), Mode::EditJob);
    assert_eq!(app.current_mode_components(), &vec![2]);
}

#[test]
fn without_a_change_of_mode_the_view_stays() {
    let mut app = App::new();
    app.register_components();
    for action in [Action::Tick, Action::Render, Action::Help, Action::Resize(80, 24)] {
        app.enqueue(action);
    }
    drain(&mut app);
    assert_eq!(app.mode(), Mode::Home);
    assert_eq!(app.current_mode_components(), &vec![0, 1]);
}

#[test]
fn a_mode_that_no_component_owns_shows_nothing() {
    let mut app = App::new();
    app.enqueue(Action::ChangeMode(Mode::Popup("notes_popup")));
    drain(&mut app);
    assert_eq!(app.mode(), Mode::Popup("notes_popup"));
    assert!(app.current_mode_components().is_empty());
    app.enqueue(Action::ChangeMode(Mode::Popup("other")));
    drain(&mut app);
    assert_eq!(app.mode(), Mode::Popup("other"));
}

#[test]
fn popups_with_different_names_are_different_modes() {
    let components = vec![
        Component::Home(Home::new()),
        Component::NotesPopup(NotesPopup::new()),
    ];
    let mut app = App::with_components(components, Config::new());
    app.enqueue(Action::ChangeMode(Mode::Popup("other")));
    drain(&mut app);
    assert!(app.current_mode_components().is_empty());
    app.enqueue(Action::ChangeMode(Mode::Popup("notes_popup")));
    drain(&mut app);
    assert_eq!(app.current_mode_components(), &vec![1]);
    assert!(Mode::Popup("a").same(&Mode::Popup("a")));
    assert!(!Mode::Popup("a").same(&Mode::Popup("b")));
    assert!(!Mode::Home.same(&Mode::EditJob));
}

#[test]
fn after_a_change_of_mode_only_the_new_component_is_updated() {
    let mut app = list_and_form();
    app.register_components();
    assert_eq!(app.current_mode_components(), &vec![0]);
    // An event of the list asks for the form.
    app.handle_events(Event::Key(KeyEvent::new(KeyCode::Enter, NONE)));
    assert_eq!(app.pending_actions(), 1);
    drain(&mut app);
    assert_eq!(app.mode(), Mode::EditJob);
    assert_eq!(app.current_mode_components(), &vec![1]);
    // The list was never updated while in view with a list to fetch, so it
    // would ask for a search on any action it received.
    assert_eq!(jobs_of(&app, 0), 0);
    app.enqueue(Action::Tick);
    let effects = drain(&mut app);
    assert_eq!(effects, vec![Effect::Nothing]);
    assert_eq!(app.pending_actions(), 0);
    assert_eq!(jobs_of(&app, 0), 0);
    // The form does receive what is dispatched now.
    app.enqueue(Action::FocusNext);
    drain(&mut app);
    assert_eq!(focused_field(&app, 1), Field::PositionCategory);
}

#[test]
fn the_list_in_view_fetches_its_applications() {
    let mut app = list_and_form();
    app.register_components();
    app.enqueue(Action::Tick);
    drain(&mut app);
    assert_eq!(jobs_of(&app, 0), 6);
    assert_eq!(app.pending_actions(), 0);
    match &app.components()[0] {
        Component::JobList(list) => {
            assert_eq!(list.jobs()[3], JobApplication::test(3));
        }
        _ => panic!("no list"),
    }
}

#[test]
fn thirteen_focus_moves_over_twelve_fields_end_on_the_second() {
    let mut app = list_and_form();
    app.enqueue(Action::ChangeMode(Mode::EditJob));
    for _ in 0..13 {
        app.enqueue(Action::FocusNext);
    }
    drain(&mut app);
    assert_eq!(focused_field(&app, 1), Field::PositionCategory);
    assert_eq!(focused_field(&app, 1).index(), 1);
    app.enqueue(Action::FocusPrevious);
    app.enqueue(Action::FocusPrevious);
    drain(&mut app);
    assert_eq!(focused_field(&app, 1), Field::Notes);
}

#[test]
fn suspend_then_resume_queues_resume_and_clear_screen() {
    let mut app = App::new();
    app.register_components();
    app.enqueue(Action::Tick);
    drain(&mut app);
    app.enqueue(Action::Suspend);
    drain(&mut app);
    assert!(app.should_suspend());
    assert_eq!(app.after_drain(), LoopStep::Suspend);
    app.resumed();
    assert_eq!(app.pending_actions(), 2);
    assert_eq!(app.next_action(), Some(Action::Resume));
    assert_eq!(app.next_action(), Some(Action::ClearScreen));
    assert_eq!(app.next_action(), None);
    app.resumed();
    let effects = drain(&mut app);
    assert_eq!(effects, vec![Effect::Nothing, Effect::ClearScreen]);
    assert!(!app.should_suspend());
    assert_eq!(app.after_drain(), LoopStep::Continue);
}

#[test]
fn quit_comes_before_suspend() {
    let mut app = App::new();
    app.enqueue(Action::Quit);
    app.enqueue(Action::Suspend);
    drain(&mut app);
    assert!(app.should_quit());
    assert!(app.should_suspend());
    assert_eq!(app.after_drain(), LoopStep::Quit);
    let mut other = App::new();
    other.enqueue(Action::Suspend);
    other.enqueue(Action::Quit);
    drain(&mut other);
    assert_eq!(other.after_drain(), LoopStep::Quit);
    let mut only = App::new();
    only.enqueue(Action::Suspend);
    drain(&mut only);
    assert_eq!(only.after_drain(), LoopStep::Suspend);
}

#[test]
fn every_component_can_be_prepared() {
    let mut app = App::new();
    app.register_components();
    assert_eq!(app.init_components(Size { width: 80, height: 24 }), Ok(()));
    assert_eq!(app.init_components(Size { width: 0, height: 0 }), Ok(()));
    assert_eq!(app.mode(), Mode::Home);
    assert_eq!(app.current_mode_components(), &vec![0, 1]);
    assert_eq!(app.pending_actions(), 0);
}

#[test]
fn a_list_out_of_view_gets_no_event() {
    let mut app = list_and_form();
    app.register_components();
    app.enqueue(Action::Tick);
    drain(&mut app);
    app.render(Rect { x: 0, y: 0, width: 104, height: 29 });
    app.enqueue(Action::ChangeMode(Mode::EditJob));
    drain(&mut app);
    let moved = Event::Mouse(MouseEvent {
        kind: MouseEventKind::Moved,
        column: 10,
        row: 20,
        modifiers: NONE,
    });
    app.handle_events(moved);
    app.handle_events(Event::Key(KeyEvent::new(KeyCode::Down, NONE)));
    match &app.components()[0] {
        Component::JobList(list) => assert_eq!(list.selected_index(), 0),
        _ => panic!("no list"),
    }
    app.take_input(1);
    app.enqueue(Action::ChangeMode(Mode::Home));
    drain(&mut app);
    app.handle_events(moved);
    match &app.components()[0] {
        Component::JobList(list) => assert_eq!(list.selected_index(), 2),
        _ => panic!("no list"),
    }
    assert_eq!(focused_field(&app, 1), Field::Position);
}

#[test]
fn a_tick_empties_the_buffer_of_keys() {
    let mut table = KeyBindings::new();
    table.insert(vec![key('a'), key('b')], Action::Help);
    let mut app = App::with_components(Vec::new(), Config { keybindings: table });
    app.handle_events(Event::Key(key('a')));
    assert_eq!(app.last_tick_key_events().len(), 1);
    assert_eq!(app.pending_actions(), 0);
    app.handle_events(Event::Tick);
    drain(&mut app);
    assert!(app.last_tick_key_events().is_empty());
    app.handle_events(Event::Key(key('b')));
    assert_eq!(app.pending_actions(), 0);
    assert_eq!(app.last_tick_key_events().len(), 1);
}

#[test]
fn without_a_tick_the_sequence_completes() {
    let mut table = KeyBindings::new();
    table.insert(vec![key('a'), key('b')], Action::Help);
    let mut app = App::with_components(Vec::new(), Config { keybindings: table });
    app.handle_events(Event::Key(key('a')));
    app.handle_events(Event::Key(key('b')));
    assert_eq!(app.next_action(), Some(Action::Help));
}

#[test]
fn events_map_to_their_actions() {
    let mut app = App::with_components(Vec::new(), Config::new());
    app.handle_events(Event::Quit);
    app.handle_events(Event::Tick);
    app.handle_events(Event::Render);
    app.handle_events(Event::Resize(120, 40));
    app.handle_events(Event::Mouse(MouseEvent {
        kind: MouseEventKind::Moved,
        column: 1,
        row: 1,
        modifiers: NONE,
    }));
    app.handle_events(Event::Key(KeyEvent::new(KeyCode::Char('q'), CONTROL)));
    assert_eq!(app.next_action(), Some(Action::Quit));
    assert_eq!(app.next_action(), Some(Action::Tick));
    assert_eq!(app.next_action(), Some(Action::Render));
    assert_eq!(app.next_action(), Some(Action::Resize(120, 40)));
    assert_eq!(app.next_action(), Some(Action::Quit));
    assert_eq!(app.next_action(), None);
}

#[test]
fn actions_have_their_effects_on_the_terminal() {
    let mut app = App::new();
    assert_eq!(app.handle_action(Action::Render), Effect::Render);
    assert_eq!(app.handle_action(Action::Resize(10, 20)), Effect::Resize(10, 20));
    assert_eq!(app.handle_action(Action::ClearScreen), Effect::ClearScreen);
    assert_eq!(app.handle_action(Action::Help), Effect::Nothing);
    assert_eq!(app.handle_action(Action::Error("x".to_string())), Effect::Nothing);
    assert_eq!(app.handle_action(Action::Quit), Effect::Nothing);
    assert!(app.should_quit());
}

#[test]
fn what_a_component_sends_is_processed_after_what_waits_already() {
    let mut app = list_and_form();
    app.register_components();
    app.enqueue(Action::Help);
    app.enqueue(Action::Render);
    let first = app.next_action().unwrap();
    app.handle_action(first);
    // The empty list asked for a search; the request stands behind the render.
    assert_eq!(app.next_action(), Some(Action::Render));
    assert_eq!(app.next_action(), Some(Action::DispatchJobSearch));
    assert_eq!(app.next_action(), None);
}

#[test]
fn escape_in_the_list_opens_the_popup_and_escape_there_closes_it() {
    let components = vec![
        Component::JobList(JobList::new()),
        Component::NotesPopup(NotesPopup::new()),
    ];
    let mut app = App::with_components(components, Config::new());
    app.register_components();
    app.enqueue(Action::Tick);
    drain(&mut app);
    app.handle_events(Event::Key(KeyEvent::new(KeyCode::Esc, NONE)));
    drain(&mut app);
    assert_eq!(app.mode(), Mode::Popup("notes_popup"));
    assert_eq!(app.current_mode_components(), &vec![1]);
    match &app.components()[1] {
        Component::NotesPopup(popup) => {
            let (_, text) = popup.draw(Rect { x: 0, y: 0, width: 80, height: 24 });
            assert_eq!(text, "This is a test note popup.");
        }
        _ => panic!("no popup"),
    }
    app.handle_events(Event::Key(KeyEvent::new(KeyCode::Esc, NONE)));
    drain(&mut app);
    assert_eq!(app.mode(), Mode::Home);
    match &app.components()[0] {
        Component::JobList(list) => {
            assert_eq!(list.jobs()[0].notes, Some("This is a test note popup.".to_string()));
            assert!(!list.notes_popup_visible());
        }
        _ => panic!("no list"),
    }
}

#[test]
fn render_gives_one_drawing_for_each_component_in_view() {
    let mut app = App::new();
    app.register_components();
    app.enqueue(Action::Tick);
    drain(&mut app);
    let area = Rect { x: 0, y: 0, width: 104, height: 29 };
    let drawings = app.render(area);
    assert_eq!(drawings.len(), 2);
    assert!(matches!(drawings[0], Drawing::Home));
    match &drawings[1] {
        Drawing::JobList(list) => {
            assert_eq!(list.area, Rect { x: 2, y: 3, width: 100, height: 24 });
            let rows = &list.rows;
            assert_eq!(rows.len(), 3);
            assert_eq!(rows[0].index, 0);
            assert!(rows[0].state.focused);
            assert!(!rows[1].state.focused);
            assert_eq!(rows[2].index, 2);
        }
        _ => panic!("no list drawn"),
    }
    app.enqueue(Action::ChangeMode(Mode::EditJob));
    app.enqueue(Action::Render);
    drain(&mut app);
    let drawings = app.render(area);
    assert_eq!(drawings.len(), 1);
    match &drawings[0] {
        Drawing::EditJob(slots, restyle) => {
            assert_eq!(slots.len(), 12);
            assert!(*restyle);
        }
        _ => panic!("no form drawn"),
    }
    match &app.render(area)[0] {
        Drawing::EditJob(_, restyle) => assert!(!*restyle),
        _ => panic!("no form drawn"),
    }
}

#[test]
fn a_key_for_the_form_waits_until_it_is_taken() {
    let mut app = list_and_form();
    app.enqueue(Action::ChangeMode(Mode::EditJob));
    drain(&mut app);
    app.handle_events(Event::Key(key('x')));
    assert_eq!(app.take_input(0), None);
    assert_eq!(app.take_input(1), Some((Field::Position, key('x'))));
    assert_eq!(app.take_input(1), None);
}
