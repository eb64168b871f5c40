use job_tracker::components::job_item::{FocusedField, JobListingState};
use job_tracker::components::util::{
    is_focused_field_to_bg_color, is_focused_field_to_fg_color, status_colour, Colour,
};
use job_tracker::database::schema::ApplicationStatus;

#[test]
fn every_status_has_its_colour() {
    assert_eq!(status_colour(ApplicationStatus::Applied), Colour::Cyan);
    assert_eq!(status_colour(ApplicationStatus::Interviewing), Colour::Blue);
    assert_eq!(status_colour(ApplicationStatus::Offered), Colour::Green);
    assert_eq!(status_colour(ApplicationStatus::Rejected), Colour::Red);
    assert_eq!(status_colour(ApplicationStatus::Withdrawn), Colour::Magenta);
    assert_eq!(status_colour(ApplicationStatus::Accepted), Colour::Blue);
}

#[test]
fn the_foreground_follows_the_focus() {
    let on = JobListingState { focused: true, focused_field: FocusedField::CompanyWebsite };
    assert_eq!(is_focused_field_to_fg_color(&on, 3, false), Colour::Blue);
    assert_eq!(is_focused_field_to_fg_color(&on, 2, false), Colour::White);
    assert_eq!(is_focused_field_to_fg_color(&on, 2, true), Colour::Blue);
    assert_eq!(is_focused_field_to_fg_color(&on, 4, true), Colour::White);
    let off = JobListingState { focused: false, focused_field: FocusedField::CompanyWebsite };
    assert_eq!(is_focused_field_to_fg_color(&off, 3, false), Colour::DarkGray);
    assert_eq!(is_focused_field_to_fg_color(&off, 2, true), Colour::DarkGray);
}

#[test]
fn the_background_follows_the_focus() {
    let on = JobListingState { focused: true, focused_field: FocusedField::CompanyWebsite };
    assert_eq!(is_focused_field_to_bg_color(&on, 3, false), Colour::DarkGray);
    assert_eq!(is_focused_field_to_bg_color(&on, 2, false), Colour::Reset);
    assert_eq!(is_focused_field_to_bg_color(&on, 2, true), Colour::DarkGray);
    assert_eq!(is_focused_field_to_bg_color(&on, 4, true), Colour::Reset);
    let off = JobListingState { focused: false, focused_field: FocusedField::CompanyWebsite };
    assert_eq!(is_focused_field_to_bg_color(&off, 3, false), Colour::Reset);
}
