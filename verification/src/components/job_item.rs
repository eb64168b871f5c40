//! One row of the list of applications, and the focus inside it.

use crate::components::util::{
    is_focused_field_to_bg_color, is_focused_field_to_fg_color, spec_bg_color, spec_fg_color,
    spec_status_colour, status_colour, Colour,
};
use crate::database::schema::JobApplication;
use crate::event::MouseEvent;
use crate::focus::{spec_next, spec_prev, FocusIndex};
use crate::geometry::{Constraint, Direction, Position, Rect};
use crate::text::{copy_optional_text, optional_text_view};
use vstd::prelude::*;

verus! {

/// The part of a row that has the focus.
#[derive(Clone, Copy, Debug, PartialEq, Eq, PartialOrd, Ord, Structural)]
pub enum FocusedField {
    Unfocused,
    Status,
    Notes,
    ApplicationLink,
    CompanyWebsite,
    CV,
    CoverLetter,
}

impl FocusedField {
    /// The number of the part; the absence of a part is minus one.
    pub open spec fn spec_index(self) -> int {
        match self {
            FocusedField::Unfocused => -1,
            FocusedField::Status => 0,
            FocusedField::Notes => 1,
            FocusedField::ApplicationLink => 2,
            FocusedField::CompanyWebsite => 3,
            FocusedField::CV => 4,
            FocusedField::CoverLetter => 5,
        }
    }

    /// The part with the given number; a number that no part has gives none.
    pub open spec fn spec_from(value: int) -> FocusedField {
        if value == 0 {
            FocusedField::Status
        } else if value == 1 {
            FocusedField::Notes
        } else if value == 2 {
            FocusedField::ApplicationLink
        } else if value == 3 {
            FocusedField::CompanyWebsite
        } else if value == 4 {
            FocusedField::CV
        } else if value == 5 {
            FocusedField::CoverLetter
        } else {
            FocusedField::Unfocused
        }
    }

    /// The number of parts of a row that can have the focus: the parts
    /// have the numbers below it, and it is the first number without a part.
    pub fn len() -> (r: i8)
        ensures
            r == 6,
            forall|i: int| 0 <= i < r ==> Self::spec_from(i) != FocusedField::Unfocused,
            Self::spec_from(r as int) == FocusedField::Unfocused,
    {
        6
    }

    /// The number of the part.
    pub fn index(self) -> (r: i8)
        ensures
            r == self.spec_index(),
    {
        match self {
            FocusedField::Unfocused => -1,
            FocusedField::Status => 0,
            FocusedField::Notes => 1,
            FocusedField::ApplicationLink => 2,
            FocusedField::CompanyWebsite => 3,
            FocusedField::CV => 4,
            FocusedField::CoverLetter => 5,
        }
    }

    /// The part with the given number.
    pub fn from_index(value: i8) -> (r: FocusedField)
        ensures
            r == Self::spec_from(value as int),
    {
        match value {
            0 => FocusedField::Status,
            1 => FocusedField::Notes,
            2 => FocusedField::ApplicationLink,
            3 => FocusedField::CompanyWebsite,
            4 => FocusedField::CV,
            5 => FocusedField::CoverLetter,
            _ => FocusedField::Unfocused,
        }
    }

    /// Moves the focus forward by `rhs` parts.
    pub fn add_assign(&mut self, rhs: i8)
        requires
            i8::MIN <= old(self).spec_index() + rhs <= i8::MAX,
        ensures
            *final(self) == Self::spec_from(old(self).spec_index() + rhs),
    {
        let value: i8 = self.index() + rhs;
        *self = FocusedField::from_index(value);
    }

    /// Moves the focus back by `rhs` parts.
    pub fn sub_assign(&mut self, rhs: i8)
        requires
            i8::MIN <= old(self).spec_index() - rhs <= i8::MAX,
        ensures
            *final(self) == Self::spec_from(old(self).spec_index() - rhs),
    {
        let value: i8 = self.index() - rhs;
        *self = FocusedField::from_index(value);
    }

    /// The part after this one, around the end: after the last part comes
    /// the first. From no part the focus goes to the first part.
    pub open spec fn spec_following(self) -> FocusedField {
        Self::spec_from(spec_next(self.spec_index(), 6))
    }

    /// The part before this one, around the end: before the first part
    /// comes the last. From no part the focus goes to the last part.
    pub open spec fn spec_preceding(self) -> FocusedField {
        Self::spec_from(spec_prev(self.spec_index(), 6))
    }

    /// The cursor over the parts of a row that stands on this part.
    fn cursor(self) -> (r: FocusIndex)
        requires
            self != FocusedField::Unfocused,
        ensures
            r.wf(),
            r.spec_count() == 6,
            r.spec_index() == self.spec_index(),
    {
        let mut cursor = FocusIndex::new(6);
        cursor.set(self.index() as usize);
        cursor
    }

    /// The part on which a cursor over the parts of a row stands.
    fn at(cursor: &FocusIndex) -> (r: FocusedField)
        requires
            cursor.wf(),
            cursor.spec_count() == 6,
        ensures
            r == Self::spec_from(cursor.spec_index()),
            r != FocusedField::Unfocused,
    {
        match cursor.current() {
            Some(i) => FocusedField::from_index(i as i8),
            None => FocusedField::Status,
        }
    }

    /// The part after this one, around the end.
    pub fn following(self) -> (r: FocusedField)
        ensures
            r == self.spec_following(),
            r != FocusedField::Unfocused,
    {
        match self {
            FocusedField::Unfocused => FocusedField::Status,
            _ => {
                let mut cursor = self.cursor();
                cursor.advance();
                Self::at(&cursor)
            },
        }
    }

    /// The part before this one, around the end.
    pub fn preceding(self) -> (r: FocusedField)
        ensures
            r == self.spec_preceding(),
            r != FocusedField::Unfocused,
    {
        match self {
            FocusedField::Unfocused => FocusedField::CoverLetter,
            _ => {
                let mut cursor = self.cursor();
                cursor.retreat();
                Self::at(&cursor)
            },
        }
    }

    /// Going forward once for each of the six parts comes back to the part.
    pub proof fn lemma_six_steps_return(field: FocusedField)
        requires
            field != FocusedField::Unfocused,
        ensures
            field.spec_following().spec_following().spec_following().spec_following().spec_following().spec_following()
                == field,
            field.spec_following().spec_preceding() == field,
            field.spec_preceding().spec_following() == field,
    {
    }

    /// Going to a part's number and back gives the part.
    pub proof fn lemma_index_round_trip(field: FocusedField)
        ensures
            Self::spec_from(field.spec_index()) == field,
    {
    }
}

impl Default for FocusedField {
    fn default() -> (r: FocusedField)
        ensures
            r == FocusedField::Unfocused,
    {
        FocusedField::Unfocused
    }
}

/// The focus of one row: whether the row is the selected one, and which of
/// its parts has the focus.
#[derive(Clone, Copy, Debug, PartialEq, Eq, Structural)]
pub struct JobListingState {
    pub focused: bool,
    pub focused_field: FocusedField,
}

impl Default for JobListingState {
    fn default() -> (r: JobListingState)
        ensures
            r == (JobListingState { focused: false, focused_field: FocusedField::Unfocused }),
    {
        JobListingState { focused: false, focused_field: FocusedField::Unfocused }
    }
}

/// What the left block of a row shows.
pub struct InfoBlock {
    pub border: Colour,
    pub status: String,
    pub status_colour: Colour,
    pub date: String,
    pub lines: Vec<String>,
}

/// What the block of links of a row shows: the border, and the background
/// of each of the four links, in their order.
#[derive(Clone, Copy, Debug, PartialEq, Eq, Structural)]
pub struct LinksBlock {
    pub border: Colour,
    pub application_link: Colour,
    pub company_website: Colour,
    pub cv: Colour,
    pub cover_letter: Colour,
}

/// What the block of notes of a row shows.
pub struct NotesBlock {
    pub border: Colour,
    pub text: String,
}

/// One row of the list.
pub struct JobItem {
    job: JobApplication,
}

/// The row of the pointer inside the block of links, counted from the line
/// below the border; on the border itself it counts as the second line.
pub open spec fn spec_link_row(region: Rect, position: Position) -> int {
    let relative = if position.y >= region.y {
        position.y - region.y
    } else {
        0
    };
    if relative == 0 {
        1
    } else {
        relative - 1
    }
}

/// The height that each of the four links takes inside the block of links.
pub open spec fn spec_link_height(region: Rect) -> int {
    (if region.height >= 2 {
        region.height - 2
    } else {
        0
    }) / 4
}

/// The focus after the pointer moved to `position` over a row divided into
/// `regions`: over the second region the notes take the focus; over the
/// third, the part whose number is the pointer's row divided by the height
/// of a link does, where that number is the number of a part. Below the
/// last part, in a region too low to hold four links, and anywhere else
/// the focus stays.
pub open spec fn spec_pointer_focus(
    regions: Seq<Rect>,
    position: Position,
    before: FocusedField,
) -> FocusedField {
    let after_notes = if regions.len() > 1 && regions[1].spec_contains(position) {
        FocusedField::Notes
    } else {
        before
    };
    if regions.len() > 2 && regions[2].spec_contains(position) && spec_link_height(regions[2])
        > 0 && spec_link_row(regions[2], position) / spec_link_height(regions[2]) < 6 {
        FocusedField::spec_from(spec_link_row(regions[2], position) / spec_link_height(regions[2]))
    } else {
        after_notes
    }
}

/// The pointer never takes the focus away from the parts: the focus stays
/// as it was or goes to one of the six parts.
pub proof fn lemma_pointer_focus_is_a_part(
    regions: Seq<Rect>,
    position: Position,
    before: FocusedField,
)
    ensures
        spec_pointer_focus(regions, position, before) == before || 0 <= spec_pointer_focus(
            regions,
            position,
            before,
        ).spec_index() < 6,
{
    if regions.len() > 2 && regions[2].spec_contains(position) && spec_link_height(regions[2])
        > 0 {
        let row = spec_link_row(regions[2], position);
        let height = spec_link_height(regions[2]);
        assert(row >= 0);
        assert(row / height >= 0) by (nonlinear_arith)
            requires
                row >= 0,
                height > 0,
        ;
    }
}

impl JobItem {
    /// The application that the row shows.
    pub closed spec fn job(&self) -> JobApplication {
        self.job
    }

    /// A row for the application.
    pub fn new(job: JobApplication) -> (r: JobItem)
        ensures
            r.job() == job,
    {
        JobItem { job }
    }

    /// Takes an event of the pointer. The focus is left as it is.
    pub fn handle_mouse_event(mouse_event: MouseEvent, state: &mut JobListingState)
        ensures
            *final(state) == *old(state),
    {
        let _ = Position { x: mouse_event.column, y: mouse_event.row };
    }

    /// How the area of a row is divided: a block of forty cells, then two
    /// blocks that share the rest two to one.
    pub fn layout(&self, area: Rect) -> (r: Vec<Constraint>)
        ensures
            r@ == seq![Constraint::Length(40), Constraint::Fill(2), Constraint::Fill(1)],
    {
        let _ = area;
        Self::row_layout()
    }

    /// How any row is divided.
    pub fn row_layout() -> (r: Vec<Constraint>)
        ensures
            r@ == seq![Constraint::Length(40), Constraint::Fill(2), Constraint::Fill(1)],
    {
        let mut parts: Vec<Constraint> = Vec::new();
        parts.push(Constraint::Length(40));
        parts.push(Constraint::Fill(2));
        parts.push(Constraint::Fill(1));
        assert(parts@ =~= seq![Constraint::Length(40), Constraint::Fill(2), Constraint::Fill(1)]);
        parts
    }

    /// Moves the focus to the part of the row that lies under the pointer,
    /// given the regions into which the row is divided.
    pub fn focus_under_pointer(regions: &Vec<Rect>, position: Position, state: &mut JobListingState)
        ensures
            final(state).focused == old(state).focused,
            final(state).focused_field == spec_pointer_focus(
                regions@,
                position,
                old(state).focused_field,
            ),
    {
        if regions.len() > 1 && regions[1].contains(position) {
            state.focused_field = FocusedField::Notes;
        }
        if regions.len() > 2 && regions[2].contains(position) {
            let region = regions[2];
            let relative: u16 = position.y - region.y;
            let row: u16 = if relative == 0 {
                1
            } else {
                relative - 1
            };
            let field_height: u16 = (if region.height >= 2 {
                region.height - 2
            } else {
                0
            }) / 4;
            if field_height > 0 {
                let field_index: u16 = row / field_height;
                if field_index < 6 {
                    state.focused_field = FocusedField::from_index(field_index as i8);
                }
            }
        }
    }

    /// Moves the focus to the part of the row that lies under the pointer.
    /// The row is divided by the layout engine, so the focus that results
    /// is the one that `spec_pointer_focus` gives for some division of the
    /// region into three parts of the region's height. Whatever the
    /// division, the focus stays or goes to one of the six parts, and it
    /// stays where the pointer is above or below the region.
    pub fn handle_mouse_moved_in_region(
        &self,
        region: Rect,
        position: Position,
        state: &mut JobListingState,
    )
        ensures
            final(state).focused == old(state).focused,
            final(state).focused_field == old(state).focused_field
                || 0 <= final(state).focused_field.spec_index() < 6,
            !(region.y <= position.y < region.spec_bottom())
                ==> final(state).focused_field == old(state).focused_field,
            exists|regions: Seq<Rect>|
                regions.len() == 3 && (forall|i: int|
                    0 <= i < 3 ==> (#[trigger] regions[i]).spec_spans(Direction::Horizontal, region))
                    && final(state).focused_field == spec_pointer_focus(
                    regions,
                    position,
                    old(state).focused_field,
                ),
    {
        let parts = self.layout(region);
        let regions = region.split(Direction::Horizontal, &parts);
        Self::focus_under_pointer(&regions, position, state);
        proof {
            assert(regions@.len() == 3);
            lemma_pointer_focus_is_a_part(regions@, position, old(state).focused_field);
            assert(regions@[1].spec_spans(Direction::Horizontal, region));
            assert(regions@[2].spec_spans(Direction::Horizontal, region));
        }
    }

    /// The border of the left block: white on the selected row, dark gray elsewhere.
    pub open spec fn spec_info_border(state: JobListingState) -> Colour {
        if state.focused {
            Colour::White
        } else {
            Colour::DarkGray
        }
    }

    /// The border of the block of notes: blue when the notes have the focus,
    /// white on the rest of the selected row, dark gray elsewhere.
    pub open spec fn spec_notes_border(state: JobListingState) -> Colour {
        if state.focused {
            if state.focused_field == FocusedField::Notes {
                Colour::Blue
            } else {
                Colour::White
            }
        } else {
            Colour::DarkGray
        }
    }

    /// The left block: status and date above, then position, company, an
    /// empty line and the location.
    pub fn info_block(&self, state: &JobListingState) -> (r: InfoBlock)
        ensures
            r.border == Self::spec_info_border(*state),
            r.status@ == self.job().status.label(),
            r.status_colour == spec_status_colour(self.job().status),
            r.date@ == self.job().application_date@,
            r.lines@.len() == 4,
            r.lines@[0]@ == self.job().position@,
            r.lines@[1]@ == self.job().company_name@,
            r.lines@[2]@ == Seq::<char>::empty(),
            r.lines@[3]@ == self.job().location@,
    {
        let mut lines: Vec<String> = Vec::new();
        lines.push(self.job.position.clone());
        lines.push(self.job.company_name.clone());
        lines.push(String::new());
        lines.push(self.job.location.clone());
        InfoBlock {
            border: if state.focused {
                Colour::White
            } else {
                Colour::DarkGray
            },
            status: self.job.status.to_string(),
            status_colour: status_colour(self.job.status),
            date: self.job.application_date.clone(),
            lines,
        }
    }

    /// The block of links: the border, and behind each link the background
    /// that shows whether it has the focus.
    pub fn links_block(&self, state: &JobListingState) -> (r: LinksBlock)
        ensures
            r.border == spec_fg_color(*state, 1, true),
            r.application_link == spec_bg_color(
                *state,
                FocusedField::ApplicationLink.spec_index(),
                false,
            ),
            r.company_website == spec_bg_color(
                *state,
                FocusedField::CompanyWebsite.spec_index(),
                false,
            ),
            r.cv == spec_bg_color(*state, FocusedField::CV.spec_index(), false),
            r.cover_letter == spec_bg_color(*state, FocusedField::CoverLetter.spec_index(), false),
    {
        LinksBlock {
            border: is_focused_field_to_fg_color(state, 1, true),
            application_link: is_focused_field_to_bg_color(
                state,
                FocusedField::ApplicationLink.index(),
                false,
            ),
            company_website: is_focused_field_to_bg_color(
                state,
                FocusedField::CompanyWebsite.index(),
                false,
            ),
            cv: is_focused_field_to_bg_color(state, FocusedField::CV.index(), false),
            cover_letter: is_focused_field_to_bg_color(
                state,
                FocusedField::CoverLetter.index(),
                false,
            ),
        }
    }

    /// The block of notes: the border and the notes, empty where there are none.
    pub fn notes_block(&self, state: &JobListingState) -> (r: NotesBlock)
        ensures
            r.border == Self::spec_notes_border(*state),
            r.text@ == (match optional_text_view(self.job().notes) {
                Some(text) => text,
                None => Seq::<char>::empty(),
            }),
    {
        let border = if state.focused {
            if state.focused_field == FocusedField::Notes {
                Colour::Blue
            } else {
                Colour::White
            }
        } else {
            Colour::DarkGray
        };
        let text = match copy_optional_text(&self.job.notes) {
            Some(text) => text,
            None => String::new(),
        };
        NotesBlock { border, text }
    }
}

} // verus!
