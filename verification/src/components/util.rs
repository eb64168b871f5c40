//! The colours by which a row shows its status and its focus.

use crate::components::job_item::JobListingState;
use crate::database::schema::ApplicationStatus;
use vstd::prelude::*;

verus! {

/// A colour of the terminal.
#[derive(Clone, Copy, Debug, PartialEq, Eq, Structural)]
pub enum Colour {
    Reset,
    White,
    DarkGray,
    Blue,
    Cyan,
    Green,
    Red,
    Magenta,
}

/// The colour that stands for a status.
pub open spec fn spec_status_colour(status: ApplicationStatus) -> Colour {
    match status {
        ApplicationStatus::Applied => Colour::Cyan,
        ApplicationStatus::Interviewing => Colour::Blue,
        ApplicationStatus::Offered => Colour::Green,
        ApplicationStatus::Rejected => Colour::Red,
        ApplicationStatus::Withdrawn => Colour::Magenta,
        ApplicationStatus::Accepted => Colour::Blue,
    }
}

/// Tells whether the focus is on the part with the given number, or, where
/// `more_than` is set, on a later part.
pub open spec fn spec_is_on(state: JobListingState, desired_field: int, more_than: bool) -> bool {
    state.focused_field.spec_index() == desired_field || (more_than
        && state.focused_field.spec_index() > desired_field)
}

/// The foreground of a part: blue where the focus is on it, white on the
/// rest of the selected row, dark gray on the other rows.
pub open spec fn spec_fg_color(state: JobListingState, desired_field: int, more_than: bool) -> Colour {
    if state.focused {
        if spec_is_on(state, desired_field, more_than) {
            Colour::Blue
        } else {
            Colour::White
        }
    } else {
        Colour::DarkGray
    }
}

/// The background of a part: dark gray where the focus is on it, none elsewhere.
pub open spec fn spec_bg_color(state: JobListingState, desired_field: int, more_than: bool) -> Colour {
    if state.focused && spec_is_on(state, desired_field, more_than) {
        Colour::DarkGray
    } else {
        Colour::Reset
    }
}

/// The colour that stands for a status.
pub fn status_colour(status: ApplicationStatus) -> (r: Colour)
    ensures
        r == spec_status_colour(status),
{
    match status {
        ApplicationStatus::Applied => Colour::Cyan,
        ApplicationStatus::Interviewing => Colour::Blue,
        ApplicationStatus::Offered => Colour::Green,
        ApplicationStatus::Rejected => Colour::Red,
        ApplicationStatus::Withdrawn => Colour::Magenta,
        ApplicationStatus::Accepted => Colour::Blue,
    }
}

/// The foreground of the part with the given number.
pub fn is_focused_field_to_fg_color(
    state: &JobListingState,
    desired_field: i8,
    more_than: bool,
) -> (r: Colour)
    ensures
        r == spec_fg_color(*state, desired_field as int, more_than),
{
    if state.focused {
        let current: i8 = state.focused_field.index();
        if current == desired_field || (more_than && current > desired_field) {
            Colour::Blue
        } else {
            Colour::White
        }
    } else {
        Colour::DarkGray
    }
}

/// The background of the part with the given number.
pub fn is_focused_field_to_bg_color(
    state: &JobListingState,
    desired_field: i8,
    more_than: bool,
) -> (r: Colour)
    ensures
        r == spec_bg_color(*state, desired_field as int, more_than),
{
    if state.focused {
        let current: i8 = state.focused_field.index();
        if current == desired_field || (more_than && current > desired_field) {
            Colour::DarkGray
        } else {
            Colour::Reset
        }
    } else {
        Colour::Reset
    }
}

} // verus!
