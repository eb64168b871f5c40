use job_tracker::components::job_item::{FocusedField, JobItem, JobListingState};
use job_tracker::components::util::Colour;
use job_tracker::database::schema::JobApplication;
use job_tracker::event::{MouseEvent, MouseEventKind};
use job_tracker::geometry::{Constraint, Position, Rect};

fn regions() -> Vec<Rect> {
    vec![
        Rect { x: 0, y: 10, width: 40, height: 8 },
        Rect { x: 40, y: 10, width: 40, height: 8 },
        Rect { x: 80, y: 10, width: 20, height: 8 },
    ]
}

fn state(field: FocusedField) -> JobListingState {
    JobListingState { focused: true, focused_field: field }
}

#[test]
fn fields_have_their_numbers() {
    assert_eq!(FocusedField::len(), 6);
    assert_eq!(FocusedField::from_index(FocusedField::len()), FocusedField::Unfocused);
    assert_ne!(FocusedField::from_index(FocusedField::len() - 1), FocusedField::Unfocused);
    assert_eq!(FocusedField::Unfocused.index(), -1);
    assert_eq!(FocusedField::Status.index(), 0);
    assert_eq!(FocusedField::CoverLetter.index(), 5);
    for i in 0..6i8 {
        assert_eq!(FocusedField::from_index(i).index(), i);
    }
    assert_eq!(FocusedField::from_index(6), FocusedField::Unfocused);
    assert_eq!(FocusedField::from_index(-1), FocusedField::Unfocused);
    assert_eq!(FocusedField::from_index(-128), FocusedField::Unfocused);
    assert_eq!(FocusedField::default(), FocusedField::Unfocused);
}

#[test]
fn fields_move_by_steps() {
    let mut field = FocusedField::Status;
    field.add_assign(2);
    assert_eq!(field, FocusedField::ApplicationLink);
    field.sub_assign(1);
    assert_eq!(field, FocusedField::Notes);
    field.add_assign(5);
    assert_eq!(field, FocusedField::Unfocused);
    field.add_assign(1);
    assert_eq!(field, FocusedField::Status);
    field.sub_assign(1);
    assert_eq!(field, FocusedField::Unfocused);
}

#[test]
fn the_default_state_has_no_focus() {
    let state = JobListingState::default();
    assert!(!state.focused);
    assert_eq!(state.focused_field, FocusedField::Unfocused);
}

#[test]
fn a_row_is_divided_into_three_blocks() {
    let item = JobItem::new(JobApplication::test(1));
    let area = Rect { x: 0, y: 0, width: 100, height: 8 };
    let expected = vec![Constraint::Length(40), Constraint::Fill(2), Constraint::Fill(1)];
    assert_eq!(item.layout(area), expected);
    assert_eq!(JobItem::row_layout(), expected);
}

#[test]
fn the_pointer_over_the_notes_focuses_them() {
    let mut s = state(FocusedField::Status);
    JobItem::focus_under_pointer(&regions(), Position { x: 50, y: 12 }, &mut s);
    assert_eq!(s.focused_field, FocusedField::Notes);
    assert!(s.focused);
}

#[test]
fn the_pointer_over_the_links_focuses_the_link_under_it() {
    // Eight lines give each of the four links one line, below the border.
    let expected = [
        (10, FocusedField::Notes),
        (11, FocusedField::Status),
        (12, FocusedField::Notes),
        (13, FocusedField::ApplicationLink),
        (14, FocusedField::CompanyWebsite),
        (15, FocusedField::CV),
        (16, FocusedField::CoverLetter),
        // The last line lies below the last part: the focus stays.
        (17, FocusedField::CV),
    ];
    for (row, field) in expected {
        let mut s = state(FocusedField::CV);
        JobItem::focus_under_pointer(&regions(), Position { x: 90, y: row }, &mut s);
        assert_eq!(s.focused_field, field, "row {}", row);
    }
}

#[test]
fn the_pointer_elsewhere_leaves_the_focus() {
    let mut s = state(FocusedField::CV);
    JobItem::focus_under_pointer(&regions(), Position { x: 5, y: 12 }, &mut s);
    assert_eq!(s.focused_field, FocusedField::CV);
    JobItem::focus_under_pointer(&regions(), Position { x: 90, y: 30 }, &mut s);
    assert_eq!(s.focused_field, FocusedField::CV);
    JobItem::focus_under_pointer(&Vec::new(), Position { x: 90, y: 12 }, &mut s);
    assert_eq!(s.focused_field, FocusedField::CV);
}

#[test]
fn a_block_of_links_too_low_for_four_links_leaves_the_focus() {
    let low = vec![
        Rect { x: 0, y: 0, width: 40, height: 5 },
        Rect { x: 40, y: 0, width: 40, height: 5 },
        Rect { x: 80, y: 0, width: 20, height: 5 },
    ];
    let mut s = state(FocusedField::CV);
    JobItem::focus_under_pointer(&low, Position { x: 90, y: 2 }, &mut s);
    assert_eq!(s.focused_field, FocusedField::CV);
}

#[test]
fn the_pointer_in_a_region_goes_through_the_layout() {
    let item = JobItem::new(JobApplication::test(1));
    let region = Rect { x: 0, y: 0, width: 100, height: 8 };
    let mut s = state(FocusedField::Unfocused);
    item.handle_mouse_moved_in_region(region, Position { x: 60, y: 4 }, &mut s);
    assert_eq!(s.focused_field, FocusedField::Notes);
    item.handle_mouse_moved_in_region(region, Position { x: 95, y: 4 }, &mut s);
    assert_eq!(s.focused_field, FocusedField::CompanyWebsite);
    item.handle_mouse_moved_in_region(region, Position { x: 10, y: 4 }, &mut s);
    assert_eq!(s.focused_field, FocusedField::CompanyWebsite);
}

#[test]
fn an_event_of_the_pointer_alone_changes_nothing() {
    let mut s = state(FocusedField::CV);
    let event = MouseEvent { kind: MouseEventKind::Moved, column: 3, row: 4, modifiers: 0 };
    JobItem::handle_mouse_event(event, &mut s);
    assert_eq!(s, state(FocusedField::CV));
}

#[test]
fn the_left_block_shows_the_application() {
    let item = JobItem::new(JobApplication::test(2));
    let block = item.info_block(&state(FocusedField::Status));
    assert_eq!(block.border, Colour::White);
    assert_eq!(block.status, "Interviewing");
    assert_eq!(block.status_colour, Colour::Blue);
    assert_eq!(block.date, "2024-05-20");
    assert_eq!(
        block.lines,
        vec![
            "Backend Developer 2".to_string(),
            "Acme Inc 2".to_string(),
            String::new(),
            "San Francisco, CA".to_string(),
        ]
    );
    let other = item.info_block(&JobListingState::default());
    assert_eq!(other.border, Colour::DarkGray);
}

#[test]
fn the_block_of_notes_shows_the_notes() {
    let item = JobItem::new(JobApplication::test(2));
    let focused = item.notes_block(&state(FocusedField::Notes));
    assert_eq!(focused.border, Colour::Blue);
    assert_eq!(focused.text, "Interview scheduled for next week.");
    assert_eq!(item.notes_block(&state(FocusedField::CV)).border, Colour::White);
    assert_eq!(item.notes_block(&JobListingState::default()).border, Colour::DarkGray);
    let bare = JobItem::new(JobApplication::default());
    assert_eq!(bare.notes_block(&JobListingState::default()).text, "");
}

#[test]
fn the_block_of_links_marks_the_focused_link() {
    let item = JobItem::new(JobApplication::test(2));
    let links = item.links_block(&state(FocusedField::CV));
    assert_eq!(links.border, Colour::Blue);
    assert_eq!(links.application_link, Colour::Reset);
    assert_eq!(links.company_website, Colour::Reset);
    assert_eq!(links.cv, Colour::DarkGray);
    assert_eq!(links.cover_letter, Colour::Reset);
    let status = item.links_block(&state(FocusedField::Status));
    assert_eq!(status.border, Colour::White);
    assert_eq!(status.cv, Colour::Reset);
    let notes = item.links_block(&state(FocusedField::Notes));
    assert_eq!(notes.border, Colour::Blue);
    let other = item.links_block(&JobListingState {
        focused: false,
        focused_field: FocusedField::CV,
    });
    assert_eq!(other.border, Colour::DarkGray);
    assert_eq!(other.cv, Colour::Reset);
}

#[test]
fn the_focus_goes_around_the_six_parts() {
    let parts = [
        FocusedField::Status,
        FocusedField::Notes,
        FocusedField::ApplicationLink,
        FocusedField::CompanyWebsite,
        FocusedField::CV,
        FocusedField::CoverLetter,
    ];
    for i in 0..6 {
        assert_eq!(parts[i].following(), parts[(i + 1) % 6]);
        assert_eq!(parts[i].preceding(), parts[(i + 5) % 6]);
        assert_eq!(parts[i].following().preceding(), parts[i]);
        let mut field = parts[i];
        for _ in 0..6 {
            field = field.following();
        }
        assert_eq!(field, parts[i]);
    }
    assert_eq!(FocusedField::CV.following(), FocusedField::CoverLetter);
    assert_eq!(FocusedField::Unfocused.following(), FocusedField::Status);
    assert_eq!(FocusedField::Unfocused.preceding(), FocusedField::CoverLetter);
}

#[test]
fn the_pointer_above_or_below_the_region_leaves_the_focus() {
    let item = JobItem::new(JobApplication::test(1));
    let region = Rect { x: 0, y: 10, width: 100, height: 8 };
    let mut s = state(FocusedField::CV);
    item.handle_mouse_moved_in_region(region, Position { x: 60, y: 9 }, &mut s);
    assert_eq!(s.focused_field, FocusedField::CV);
    item.handle_mouse_moved_in_region(region, Position { x: 95, y: 18 }, &mut s);
    assert_eq!(s.focused_field, FocusedField::CV);
    item.handle_mouse_moved_in_region(region, Position { x: 95, y: 17 }, &mut s);
    assert_eq!(s.focused_field, FocusedField::CV);
    item.handle_mouse_moved_in_region(region, Position { x: 95, y: 16 }, &mut s);
    assert_eq!(s.focused_field, FocusedField::CoverLetter);
}
