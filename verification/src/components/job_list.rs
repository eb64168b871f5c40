//! The list of applications: which row is selected, which rows are in
//! view, and how keys and the pointer move the selection.

use crate::action::{actions_view, Action, ActionView, Mode, ModeView};
use crate::components::job_item::{spec_pointer_focus, FocusedField, JobItem, JobListingState};
use crate::config::Config;
use crate::database::schema::{copy_jobs, jobs_view, JobApplication, JobApplicationView};
use crate::event::{Event, MouseEvent, MouseEventKind};
use crate::focus::{spec_next, spec_prev, FocusIndex};
use crate::geometry::{spec_lengths_upto, Constraint, Direction, Position, Rect, BORDER_TOP};
use crate::keys::{normalized_keys, KeyCode, KeyEvent};
use vstd::prelude::*;

verus! {

/// The height of one row of the list, in lines.
pub const ROW_HEIGHT: u16 = 8;

/// The name of the popup that shows the notes.
pub open spec fn spec_notes_popup() -> Seq<char> {
    "notes_popup"@
}

/// The text that the list hands to the popup of notes.
pub open spec fn spec_popup_text() -> Seq<char> {
    "This is a test note popup."@
}

/// Where the list stands: the first row in view, the selected row, and the
/// focus inside the selected row.
pub struct JobListState {
    visible_start_index: usize,
    selected_index: usize,
    selected_job_state: JobListingState,
}

impl Default for JobListState {
    fn default() -> (r: JobListState)
        ensures
            r.spec_start() == 0,
            r.spec_selected() == 0,
            r.spec_focus() == (JobListingState {
                focused: false,
                focused_field: FocusedField::Unfocused,
            }),
    {
        JobListState {
            visible_start_index: 0,
            selected_index: 0,
            selected_job_state: JobListingState::default(),
        }
    }
}

impl JobListState {
    /// The first row in view.
    pub closed spec fn spec_start(&self) -> int {
        self.visible_start_index as int
    }

    /// The selected row.
    pub closed spec fn spec_selected(&self) -> int {
        self.selected_index as int
    }

    /// The focus inside the selected row.
    pub closed spec fn spec_focus(&self) -> JobListingState {
        self.selected_job_state
    }
}

/// The list of applications.
pub struct JobList {
    has_sink: bool,
    config: Config,
    jobs: Vec<JobApplication>,
    state: JobListState,
    area: Option<Rect>,
    notes_popup_visible: bool,
}

/// What the list holds, as plain values.
pub ghost struct JobListModel {
    pub jobs: Seq<JobApplicationView>,
    pub selected: int,
    pub start: int,
    pub focus: JobListingState,
    pub area: Option<Rect>,
    pub sink: bool,
    pub popup_visible: bool,
    /// The key bindings of the configuration that the list was given.
    pub bindings: Map<Seq<KeyEvent>, ActionView>,
}

/// The number of whole rows that fit into an area.
pub open spec fn spec_rows(area: Rect) -> int {
    area.height as int / (ROW_HEIGHT as int)
}

/// The first row in view for a list of `len` rows of which `visible` fit,
/// with row `selected` selected. A list that fits is shown from its first
/// row. Otherwise the selected row is centred: half of the rows in view,
/// rounded down, stand above it, as far as the first and the last row of
/// the list allow.
pub open spec fn spec_window_start(len: int, visible: int, selected: int) -> int {
    if len <= visible {
        0
    } else if selected - visible / 2 < 0 {
        0
    } else if selected - visible / 2 > len - visible {
        len - visible
    } else {
        selected - visible / 2
    }
}

/// The window always holds the selected row and never runs past the first
/// or the last row of the list.
pub proof fn lemma_window_holds_selection(len: int, visible: int, selected: int)
    requires
        0 <= selected < len,
        visible >= 1,
    ensures
        0 <= spec_window_start(len, visible, selected) <= selected,
        selected < spec_window_start(len, visible, selected) + visible,
        len <= visible ==> spec_window_start(len, visible, selected) == 0,
        len > visible ==> spec_window_start(len, visible, selected) + visible <= len,
{
}

impl JobListModel {
    /// The selection points at a row of the list, or at zero in an empty list.
    pub open spec fn wf(self) -> bool {
        &&& self.start >= 0
        &&& self.selected == 0 || 0 <= self.selected < self.jobs.len()
    }

    /// The list with its window put around the selected row, once the list
    /// knows the area it is drawn in.
    pub open spec fn rewindowed(self) -> JobListModel {
        match self.area {
            Some(area) => JobListModel {
                start: spec_window_start(self.jobs.len() as int, spec_rows(area), self.selected),
                ..self
            },
            None => self,
        }
    }

    /// The list with the row after the selected one selected: after the
    /// last row comes the first.
    pub open spec fn moved_down(self) -> JobListModel {
        JobListModel { selected: spec_next(self.selected, self.jobs.len() as int), ..self }
    }

    /// The list with the row before the selected one selected: before the
    /// first row comes the last.
    pub open spec fn moved_up(self) -> JobListModel {
        JobListModel { selected: spec_prev(self.selected, self.jobs.len() as int), ..self }
    }

    /// The list with the focus inside the row set to `field`.
    pub open spec fn with_field(self, field: FocusedField) -> JobListModel {
        JobListModel {
            focus: JobListingState { focused: self.focus.focused, focused_field: field },
            ..self
        }
    }

    /// The list after a key. The selection is a cursor that goes around the
    /// rows: tab and down go to the next row, back-tab and up to the row
    /// before, and past either end the cursor comes back in at the other.
    /// Tab and back-tab leave the window where it is; up and down put it
    /// around the selection. Right and left take the focus around the six
    /// parts of the row in the same way. Any other key changes nothing.
    pub open spec fn after_key(self, code: KeyCode) -> JobListModel {
        match code {
            KeyCode::Tab => self.moved_down(),
            KeyCode::BackTab => self.moved_up(),
            KeyCode::Up => self.moved_up().rewindowed(),
            KeyCode::Down => self.moved_down().rewindowed(),
            KeyCode::Right => self.with_field(self.focus.focused_field.spec_following()),
            KeyCode::Left => self.with_field(self.focus.focused_field.spec_preceding()),
            _ => self,
        }
    }

    /// The list after the wheel of the pointer was turned: the selection
    /// goes to the row before or after, around the ends, and the window is
    /// put around it. Any other event of the pointer changes nothing.
    pub open spec fn after_scroll(self, kind: MouseEventKind) -> JobListModel {
        match kind {
            MouseEventKind::ScrollUp => self.moved_up().rewindowed(),
            MouseEventKind::ScrollDown => self.moved_down().rewindowed(),
            _ => self,
        }
    }

    /// The list after an action.
    pub open spec fn after_update(self, action: ActionView) -> JobListModel {
        match action {
            ActionView::JobResults(results) => JobListModel {
                jobs: results,
                selected: 0,
                start: 0,
                ..self
            },
            ActionView::NotesPopupData(text) => JobListModel {
                popup_visible: false,
                jobs: if self.jobs.len() > 0 {
                    self.jobs.update(0, JobApplicationView { notes: Some(text), ..self.jobs[0] })
                } else {
                    self.jobs
                },
                ..self
            },
            _ => self,
        }
    }

    /// The actions that the list sends when it takes an action: a request
    /// for a search while it is empty and has a sink, else nothing.
    pub open spec fn update_emits(self) -> Seq<ActionView> {
        if self.jobs.len() == 0 && self.sink {
            seq![ActionView::DispatchJobSearch]
        } else {
            Seq::<ActionView>::empty()
        }
    }

    /// The number of rows to draw in the area.
    pub open spec fn row_count(self, area: Rect) -> int {
        if self.start >= self.jobs.len() {
            0
        } else if spec_rows(area) < self.jobs.len() - self.start {
            spec_rows(area)
        } else {
            self.jobs.len() - self.start
        }
    }

    /// The focus with which row `k` of those in view is drawn.
    pub open spec fn row_state(self, k: int) -> JobListingState {
        JobListingState {
            focused: self.selected < self.jobs.len() && self.jobs[self.selected].id
                == self.jobs[self.start + k].id,
            focused_field: self.focus.focused_field,
        }
    }

    /// Tells whether `after` is the list after the pointer moved to
    /// `position`: a list that was not drawn yet stays as it is; else the
    /// result is the one that `spec_pointer_rows` gives for the rows of the
    /// list's area, which are known wherever they fit, and for some
    /// division of the rows into their parts.
    pub open spec fn pointer_moved(self, position: Position, after: JobListModel) -> bool {
        match self.area {
            None => after == self,
            Some(area) => exists|rows: Seq<Rect>, parts: Seq<Seq<Rect>>|
                spec_divides(area, rows, parts) && after == spec_pointer_rows(
                    self,
                    rows,
                    parts,
                    position,
                    rows.len(),
                ),
        }
    }

    /// The actions that a key makes the list send: enter asks for the form,
    /// escape asks for the popup of notes and hands it its text. A list
    /// that has no sink sends nothing.
    pub open spec fn key_emits(self, code: KeyCode) -> Seq<ActionView> {
        if !self.sink {
            Seq::<ActionView>::empty()
        } else {
            match code {
                KeyCode::Enter => seq![ActionView::ChangeMode(ModeView::EditJob)],
                KeyCode::Esc => seq![
                    ActionView::ChangeMode(ModeView::Popup(spec_notes_popup())),
                    ActionView::DispatchNotesPopupData(spec_popup_text()),
                ],
                _ => Seq::<ActionView>::empty(),
            }
        }
    }
}

impl View for JobList {
    type V = JobListModel;

    closed spec fn view(&self) -> JobListModel {
        JobListModel {
            jobs: jobs_view(self.jobs@),
            selected: self.state.selected_index as int,
            start: self.state.visible_start_index as int,
            focus: self.state.selected_job_state,
            area: self.area,
            sink: self.has_sink,
            popup_visible: self.notes_popup_visible,
            bindings: self.config.keybindings@,
        }
    }
}

impl JobList {
    /// An empty list without a sink, not drawn yet.
    pub fn new() -> (r: JobList)
        ensures
            r@.wf(),
            r@ == (JobListModel {
                jobs: Seq::<JobApplicationView>::empty(),
                selected: 0,
                start: 0,
                focus: JobListingState { focused: false, focused_field: FocusedField::Unfocused },
                area: None,
                sink: false,
                popup_visible: false,
                bindings: Map::<Seq<KeyEvent>, ActionView>::empty().insert(
                    normalized_keys(seq![KeyEvent::spec_quit_key()]),
                    ActionView::Quit,
                ),
            }),
    {
        let jobs: Vec<JobApplication> = Vec::new();
        assert(jobs_view(jobs@) =~= Seq::<JobApplicationView>::empty());
        JobList {
            has_sink: false,
            config: Config::new(),
            jobs,
            state: JobListState::default(),
            area: None,
            notes_popup_visible: false,
        }
    }

    /// The mode that the list belongs to.
    pub fn mode(&self) -> (r: Mode)
        ensures
            r@ == ModeView::Home,
    {
        Mode::Home
    }

    /// The name of the list.
    pub fn id(&self) -> (r: String)
        ensures
            r@ == "Job List"@,
    {
        "Job List".to_string()
    }

    /// Gives the list its sink: from now on its handlers send actions.
    pub fn register_action_handler(&mut self)
        ensures
            final(self)@ == (JobListModel { sink: true, ..old(self)@ }),
    {
        self.has_sink = true;
    }

    /// Gives the list the configuration. Nothing else changes.
    pub fn register_config_handler(&mut self, config: Config)
        ensures
            final(self)@ == (JobListModel { bindings: config.keybindings@, ..old(self)@ }),
    {
        self.config = config;
    }

    /// How the area of the list is divided: one row of eight lines for each
    /// eight lines of its height.
    pub fn layout(&self, area: Rect) -> (r: Vec<Constraint>)
        ensures
            r@.len() == spec_rows(area),
            forall|i: int| 0 <= i < r@.len() ==> r@[i] == Constraint::Length(8),
    {
        let num_rows: u16 = area.height / ROW_HEIGHT;
        let mut rows: Vec<Constraint> = Vec::new();
        let mut i: u16 = 0;
        while i < num_rows
            invariant
                0 <= i <= num_rows,
                rows@.len() == i,
                forall|k: int| 0 <= k < rows@.len() ==> rows@[k] == Constraint::Length(8),
            decreases num_rows - i,
        {
            rows.push(Constraint::Length(ROW_HEIGHT));
            i = i + 1;
        }
        rows
    }

    /// The first row in view, for the area that the list is drawn in.
    pub fn get_visible_jobs(&self, area: Rect) -> (r: usize)
        requires
            self@.wf(),
        ensures
            r == spec_window_start(self@.jobs.len() as int, spec_rows(area), self@.selected),
    {
        let num_visible: usize = (area.height / ROW_HEIGHT) as usize;
        let selected: usize = self.state.selected_index;
        let jobs_len: usize = self.jobs.len();
        if jobs_len <= num_visible {
            0
        } else {
            let half: usize = num_visible / 2;
            let last: usize = jobs_len - num_visible;
            if selected < half {
                0
            } else if selected - half > last {
                last
            } else {
                selected - half
            }
        }
    }

    fn set_visible_jobs(&mut self, start: usize)
        ensures
            final(self)@ == (JobListModel { start: start as int, ..old(self)@ }),
    {
        self.state.visible_start_index = start;
    }

    fn rewindow(&mut self)
        requires
            old(self)@.wf(),
        ensures
            final(self)@ == old(self)@.rewindowed(),
            final(self)@.wf(),
    {
        match self.area {
            Some(area) => {
                let start = self.get_visible_jobs(area);
                self.set_visible_jobs(start);
            },
            None => {},
        }
    }

    /// The cursor over the rows of the list that stands on the selected row.
    fn row_cursor(&self) -> (r: FocusIndex)
        requires
            self@.wf(),
        ensures
            r.wf(),
            r.spec_count() == self@.jobs.len(),
            r.spec_index() == self@.selected,
    {
        assert(self@.jobs.len() == self.jobs.len());
        let mut cursor = FocusIndex::new(self.jobs.len());
        cursor.set(self.state.selected_index);
        cursor
    }

    /// Selects the row on which the cursor stands.
    fn select_at(&mut self, cursor: &FocusIndex)
        requires
            cursor.wf(),
            cursor.spec_count() == old(self)@.jobs.len(),
        ensures
            final(self)@ == (JobListModel { selected: cursor.spec_index(), ..old(self)@ }),
            old(self)@.start >= 0 ==> final(self)@.wf(),
    {
        self.state.selected_index = match cursor.current() {
            Some(row) => row,
            None => 0,
        };
    }

    /// Selects the row after the selected one, around the end.
    fn select_next(&mut self)
        requires
            old(self)@.wf(),
        ensures
            final(self)@.wf(),
            final(self)@ == old(self)@.moved_down(),
    {
        let mut cursor = self.row_cursor();
        cursor.advance();
        self.select_at(&cursor);
    }

    /// Selects the row before the selected one, around the end.
    fn select_previous(&mut self)
        requires
            old(self)@.wf(),
        ensures
            final(self)@.wf(),
            final(self)@ == old(self)@.moved_up(),
    {
        let mut cursor = self.row_cursor();
        cursor.retreat();
        self.select_at(&cursor);
    }

    /// Takes a key. The list changes as `after_key` says, and the actions
    /// that `key_emits` names are returned in their order.
    pub fn handle_key_event(&mut self, key: KeyEvent) -> (r: Vec<Action>)
        requires
            old(self)@.wf(),
        ensures
            final(self)@.wf(),
            final(self)@ == old(self)@.after_key(key.code),
            actions_view(r@) == old(self)@.key_emits(key.code),
    {
        let mut emitted: Vec<Action> = Vec::new();
        match key.code {
            KeyCode::Tab => {
                self.select_next();
            },
            KeyCode::BackTab => {
                self.select_previous();
            },
            KeyCode::Enter => {
                if self.has_sink {
                    emitted.push(Action::ChangeMode(Mode::EditJob));
                }
            },
            KeyCode::Esc => {
                if self.has_sink {
                    emitted.push(Action::ChangeMode(Mode::Popup("notes_popup")));
                    emitted.push(Action::DispatchNotesPopupData("This is a test note popup."));
                }
            },
            KeyCode::Up => {
                self.select_previous();
                self.rewindow();
            },
            KeyCode::Down => {
                self.select_next();
                self.rewindow();
            },
            KeyCode::Right => {
                let field = self.state.selected_job_state.focused_field;
                self.state.selected_job_state.focused_field = field.following();
            },
            KeyCode::Left => {
                let field = self.state.selected_job_state.focused_field;
                self.state.selected_job_state.focused_field = field.preceding();
            },
            _ => {},
        }
        assert(actions_view(emitted@) =~= old(self)@.key_emits(key.code));
        emitted
    }

    /// Takes the pointer over the rows of the list, given the regions of the
    /// rows and the parts into which each row is divided. Each row under
    /// the pointer that shows an application becomes the selected row, and
    /// the focus inside it goes to the part under the pointer.
    pub fn apply_pointer(&mut self, rows: &Vec<Rect>, parts: &Vec<Vec<Rect>>, position: Position)
        requires
            old(self)@.wf(),
            parts@.len() == rows@.len(),
        ensures
            final(self)@.wf(),
            final(self)@ == spec_pointer_rows(
                old(self)@,
                rows@,
                spec_parts(parts@),
                position,
                rows@.len(),
            ),
    {
        assert(jobs_view(self.jobs@).len() == self.jobs@.len());
        let start: usize = self.state.visible_start_index;
        let mut i: usize = 0;
        while i < rows.len()
            invariant
                0 <= i <= rows@.len(),
                parts@.len() == rows@.len(),
                start == old(self)@.start,
                self@.start == start,
                self@.wf(),
                self@ == spec_pointer_rows(old(self)@, rows@, spec_parts(parts@), position, i as nat),
            decreases rows.len() - i,
        {
            assert(jobs_view(self.jobs@).len() == self.jobs@.len());
            assert(self@.jobs.len() == self.jobs.len());
            assert(spec_parts(parts@)[i as int] == parts@[i as int]@);
            assert(self@.start == start);
            if rows[i].contains(position) && i < self.jobs.len() && start < self.jobs.len() - i {
                self.state.selected_index = start + i;
                JobItem::focus_under_pointer(&parts[i], position, &mut self.state.selected_job_state);
            }
            i = i + 1;
        }
    }

    /// Takes an event of the pointer. Scrolling moves the selection by one
    /// row and puts the window around it. A move of the pointer selects the
    /// row under it, once the list has been drawn; the rows are placed by
    /// the layout engine, so the result is the one that `spec_pointer_rows`
    /// gives for some division of the list's area. No action is sent.
    pub fn handle_mouse_event(&mut self, mouse: MouseEvent) -> (r: Vec<Action>)
        requires
            old(self)@.wf(),
        ensures
            final(self)@.wf(),
            r@.len() == 0,
            mouse.kind != MouseEventKind::Moved ==> final(self)@ == old(self)@.after_scroll(
                mouse.kind,
            ),
            mouse.kind == MouseEventKind::Moved ==> old(self)@.pointer_moved(
                Position { x: mouse.column, y: mouse.row },
                final(self)@,
            ),
    {
        match mouse.kind {
            MouseEventKind::ScrollUp => {
                self.select_previous();
                self.rewindow();
            },
            MouseEventKind::ScrollDown => {
                self.select_next();
                self.rewindow();
            },
            MouseEventKind::Moved => {
                match self.area {
                    Some(area) => {
                        let row_constraints = self.layout(area);
                        let rows = area.split(Direction::Vertical, &row_constraints);
                        proof {
                            let cs = row_constraints@;
                            lemma_row_lengths(cs, cs.len());
                            if spec_rows_fit(area) {
                                assert(area.spec_lengths_fit(Direction::Vertical, cs));
                                assert forall|i: int| 0 <= i < rows@.len() implies #[trigger] rows@[i]
                                    == spec_row(area, i) by {
                                    lemma_row_lengths(cs, i as nat);
                                    assert(rows@[i] == area.spec_length_part(
                                        Direction::Vertical,
                                        cs,
                                        i,
                                    ));
                                }
                            }
                        }
                        let mut parts: Vec<Vec<Rect>> = Vec::new();
                        let mut i: usize = 0;
                        while i < rows.len()
                            invariant
                                0 <= i <= rows@.len(),
                                parts@.len() == i,
                                rows@.len() == spec_rows(area),
                                forall|k: int|
                                    0 <= k < rows@.len() ==> (#[trigger] rows@[k]).spec_spans(
                                        Direction::Vertical,
                                        area,
                                    ),
                                spec_rows_fit(area) ==> forall|k: int|
                                    0 <= k < rows@.len() ==> #[trigger] rows@[k] == spec_row(area, k),
                                forall|k: int|
                                    0 <= k < i ==> spec_row_divided(
                                        rows@[k],
                                        #[trigger] spec_parts(parts@)[k],
                                    ),
                            decreases rows.len() - i,
                        {
                            let item_constraints = JobItem::row_layout();
                            let row_parts = rows[i].split(Direction::Horizontal, &item_constraints);
                            let ghost before = parts@;
                            parts.push(row_parts);
                            assert forall|k: int| 0 <= k < i + 1 implies spec_row_divided(
                                rows@[k],
                                #[trigger] spec_parts(parts@)[k],
                            ) by {
                                if k < i {
                                    assert(spec_parts(parts@)[k] == spec_parts(before)[k]);
                                } else {
                                    assert(spec_parts(parts@)[k] == row_parts@);
                                }
                            }
                            i = i + 1;
                        }
                        let position = Position { x: mouse.column, y: mouse.row };
                        self.apply_pointer(&rows, &parts, position);
                        assert(spec_divides(area, rows@, spec_parts(parts@)));
                    },
                    None => {},
                }
            },
            _ => {},
        }
        Vec::new()
    }

    /// Takes an event: a key goes to `handle_key_event`, an event of the
    /// pointer to `handle_mouse_event`, and any other event changes nothing.
    pub fn handle_events(&mut self, event: Event) -> (r: Vec<Action>)
        requires
            old(self)@.wf(),
        ensures
            final(self)@.wf(),
            match event {
                Event::Key(key) => final(self)@ == old(self)@.after_key(key.code) && actions_view(
                    r@,
                ) == old(self)@.key_emits(key.code),
                Event::Mouse(mouse) => r@.len() == 0 && (mouse.kind != MouseEventKind::Moved
                    ==> final(self)@ == old(self)@.after_scroll(mouse.kind)) && (mouse.kind
                    == MouseEventKind::Moved ==> old(self)@.pointer_moved(
                    Position { x: mouse.column, y: mouse.row },
                    final(self)@,
                )),
                _ => final(self)@ == old(self)@ && r@.len() == 0,
            },
    {
        match event {
            Event::Key(key) => self.handle_key_event(key),
            Event::Mouse(mouse) => self.handle_mouse_event(mouse),
            _ => Vec::new(),
        }
    }

    /// Takes an action. New results replace the list and put the selection
    /// and the window back at its first row. The answer of the popup of
    /// notes closes the popup and becomes the notes of the first
    /// application, where there is one. Any other action changes nothing.
    /// While the list is empty, each action makes it ask for a search.
    pub fn update(&mut self, action: &Action) -> (r: Vec<Action>)
        requires
            old(self)@.wf(),
        ensures
            final(self)@.wf(),
            final(self)@ == old(self)@.after_update(action@),
            actions_view(r@) == old(self)@.update_emits(),
    {
        assert(jobs_view(self.jobs@).len() == self.jobs@.len());
        let mut emitted: Vec<Action> = Vec::new();
        if self.jobs.len() == 0 && self.has_sink {
            emitted.push(Action::DispatchJobSearch);
        }
        assert(actions_view(emitted@) =~= old(self)@.update_emits());
        match action {
            Action::JobResults(res) => {
                self.jobs = copy_jobs(res);
                self.state.selected_index = 0;
                self.state.visible_start_index = 0;
            },
            Action::NotesPopupData(text) => {
                self.notes_popup_visible = false;
                if self.jobs.len() > 0 {
                    let mut first = self.jobs[0].copy();
                    first.notes = Some((*text).to_string());
                    let ghost before = self.jobs@;
                    self.jobs.set(0, first);
                    assert(jobs_view(self.jobs@) =~= jobs_view(before).update(
                        0,
                        JobApplicationView { notes: Some(text@), ..jobs_view(before)[0] },
                    ));
                }
            },
            _ => {},
        }
        emitted
    }

    /// Takes the area that the component is drawn in and says what is to be
    /// drawn: the list stands inside a margin of two cells, below a border
    /// along its top; its rows are the applications from the first row in
    /// view on, as many as fit, each with the focus to show. A row is shown
    /// as selected when it has the number of the selected application. The
    /// list notes the area of its rows.
    pub fn draw(&mut self, area: Rect) -> (r: ListDrawing)
        requires
            old(self)@.wf(),
        ensures
            final(self)@ == (JobListModel { area: Some(spec_list_area(area)), ..old(self)@ }),
            final(self)@.wf(),
            r.region == area.spec_inner(2, 2),
            r.area == spec_list_area(area),
            r.rows@.len() == old(self)@.row_count(spec_list_area(area)),
            forall|k: int|
                0 <= k < r.rows@.len() ==> (#[trigger] r.rows@[k]).index == old(self)@.start + k,
            forall|k: int|
                0 <= k < r.rows@.len() ==> (#[trigger] r.rows@[k]).state == old(self)@.row_state(k),
    {
        assert(jobs_view(self.jobs@).len() == self.jobs@.len());
        let region = area.inner(2, 2);
        let inner = region.within_borders(BORDER_TOP);
        self.area = Some(inner);
        let num_visible: usize = (inner.height / ROW_HEIGHT) as usize;
        let start: usize = self.state.visible_start_index;
        let len: usize = self.jobs.len();
        let mut plan: Vec<RowPlan> = Vec::new();
        if start >= len {
            return ListDrawing { region, area: inner, rows: plan };
        }
        let count: usize = if num_visible < len - start {
            num_visible
        } else {
            len - start
        };
        let selected: usize = self.state.selected_index;
        let mut k: usize = 0;
        while k < count
            invariant
                0 <= k <= count,
                count <= len - start,
                start < len,
                len == self.jobs@.len(),
                selected == self.state.selected_index,
                start == self.state.visible_start_index,
                self@ == (JobListModel { area: Some(inner), ..old(self)@ }),
                old(self)@.wf(),
                plan@.len() == k,
                forall|j: int| 0 <= j < k ==> (#[trigger] plan@[j]).index == start + j,
                forall|j: int| 0 <= j < k ==> (#[trigger] plan@[j]).state == old(self)@.row_state(j),
            decreases count - k,
        {
            assert(jobs_view(self.jobs@).len() == self.jobs@.len());
            assert(jobs_view(self.jobs@)[start + k].id == self.jobs@[start + k].id);
            let focused = selected < len && self.jobs[selected].id == self.jobs[start + k].id;
            proof {
                if selected < len {
                    assert(jobs_view(self.jobs@)[selected as int].id == self.jobs@[selected as int].id);
                }
            }
            plan.push(
                RowPlan {
                    index: start + k,
                    state: JobListingState {
                        focused,
                        focused_field: self.state.selected_job_state.focused_field,
                    },
                },
            );
            k = k + 1;
        }
        ListDrawing { region, area: inner, rows: plan }
    }

    /// The applications of the list.
    pub fn jobs(&self) -> (r: &Vec<JobApplication>)
        ensures
            jobs_view(r@) == self@.jobs,
    {
        &self.jobs
    }

    /// The selected row.
    pub fn selected_index(&self) -> (r: usize)
        ensures
            r == self@.selected,
    {
        self.state.selected_index
    }

    /// The first row in view.
    pub fn visible_start_index(&self) -> (r: usize)
        ensures
            r == self@.start,
    {
        self.state.visible_start_index
    }

    /// The focus inside the selected row.
    pub fn selected_job_state(&self) -> (r: JobListingState)
        ensures
            r == self@.focus,
    {
        self.state.selected_job_state
    }

    /// Tells whether the popup of notes is counted as open.
    pub fn notes_popup_visible(&self) -> (r: bool)
        ensures
            r == self@.popup_visible,
    {
        self.notes_popup_visible
    }
}

/// What is to be drawn for the list: the region of its border, the area
/// of its rows, and the rows.
pub struct ListDrawing {
    pub region: Rect,
    pub area: Rect,
    pub rows: Vec<RowPlan>,
}

/// The area of the rows of a list that is drawn into `area`: inside a
/// margin of two cells, below a border along the top.
pub open spec fn spec_list_area(area: Rect) -> Rect {
    area.spec_inner(2, 2).spec_within_borders(BORDER_TOP)
}

/// One row to draw: the number of the application in the list, and the
/// focus to show it with.
#[derive(Clone, Copy, Debug)]
pub struct RowPlan {
    pub index: usize,
    pub state: JobListingState,
}

/// The parts of each row, as plain sequences.
pub open spec fn spec_parts(parts: Seq<Vec<Rect>>) -> Seq<Seq<Rect>> {
    parts.map_values(|p: Vec<Rect>| p@)
}

/// Tells whether `parts` divides the row into three regions of its height.
pub open spec fn spec_row_divided(row: Rect, parts: Seq<Rect>) -> bool {
    parts.len() == 3 && forall|j: int|
        0 <= j < 3 ==> (#[trigger] parts[j]).spec_spans(Direction::Horizontal, row)
}

/// Row `i` of a list drawn into `area`: as wide as the area, eight lines
/// high, below the rows before it.
pub open spec fn spec_row(area: Rect, i: int) -> Rect {
    Rect {
        x: area.x,
        y: (area.y + ROW_HEIGHT * i) as u16,
        width: area.width,
        height: ROW_HEIGHT,
    }
}

/// Tells whether the rows of the list reach no further down than the
/// last line that there is.
pub open spec fn spec_rows_fit(area: Rect) -> bool {
    ROW_HEIGHT * spec_rows(area) <= area.spec_extent(Direction::Vertical)
}

/// Tells whether `rows` divides the area of the list into its rows, each
/// as wide as the area, and `parts` divides each row into three regions.
/// Where the rows fit, each row is the one that `spec_row` gives.
pub open spec fn spec_divides(area: Rect, rows: Seq<Rect>, parts: Seq<Seq<Rect>>) -> bool {
    &&& rows.len() == spec_rows(area)
    &&& parts.len() == rows.len()
    &&& forall|i: int| 0 <= i < rows.len() ==> (#[trigger] rows[i]).spec_spans(Direction::Vertical, area)
    &&& forall|i: int| 0 <= i < rows.len() ==> spec_row_divided(rows[i], #[trigger] parts[i])
    &&& spec_rows_fit(area) ==> forall|i: int|
        0 <= i < rows.len() ==> #[trigger] rows[i] == spec_row(area, i)
}

/// An area whose bottom is a line of the screen always holds its rows.
pub proof fn lemma_rows_fit(area: Rect)
    requires
        area.y + area.height <= u16::MAX,
    ensures
        spec_rows_fit(area),
{
    let h = area.height as int;
    assert(8 * (h / 8) <= h) by (nonlinear_arith)
        requires
            h >= 0,
    ;
}

/// Rows of eight lines take eight lines each.
proof fn lemma_row_lengths(constraints: Seq<Constraint>, n: nat)
    requires
        n <= constraints.len(),
        forall|i: int| 0 <= i < constraints.len() ==> constraints[i] == Constraint::Length(8),
    ensures
        spec_lengths_upto(constraints, n) == 8 * n,
    decreases n,
{
    if n > 0 {
        lemma_row_lengths(constraints, (n - 1) as nat);
    }
}

/// The list after the pointer was found over row `index` of those in view,
/// or not: a row under the pointer that shows an application becomes the
/// selected row, and the focus inside it goes to the part under the pointer.
pub open spec fn spec_pointer_step(
    list: JobListModel,
    start: int,
    row: Rect,
    parts: Seq<Rect>,
    index: int,
    position: Position,
) -> JobListModel {
    if row.spec_contains(position) && start + index < list.jobs.len() {
        JobListModel {
            selected: start + index,
            focus: JobListingState {
                focused: list.focus.focused,
                focused_field: spec_pointer_focus(parts, position, list.focus.focused_field),
            },
            ..list
        }
    } else {
        list
    }
}

/// The list after the pointer was taken over the first `upto` rows in view,
/// one after the other.
pub open spec fn spec_pointer_rows(
    list: JobListModel,
    rows: Seq<Rect>,
    parts: Seq<Seq<Rect>>,
    position: Position,
    upto: nat,
) -> JobListModel
    decreases upto,
{
    if upto == 0 {
        list
    } else {
        spec_pointer_step(
            spec_pointer_rows(list, rows, parts, position, (upto - 1) as nat),
            list.start,
            rows[upto - 1],
            parts[upto - 1],
            upto - 1,
            position,
        )
    }
}

/// Where the rows of the list fit, the row under the pointer becomes the
/// selected row, if it shows an application, whatever the parts of the
/// rows are: the rows do not overlap, so no other row takes the pointer.
pub proof fn lemma_pointer_selects_row(
    list: JobListModel,
    area: Rect,
    rows: Seq<Rect>,
    parts: Seq<Seq<Rect>>,
    position: Position,
    row: int,
    upto: nat,
)
    requires
        spec_rows_fit(area),
        rows.len() == spec_rows(area),
        parts.len() == rows.len(),
        forall|k: int| 0 <= k < rows.len() ==> #[trigger] rows[k] == spec_row(area, k),
        0 <= row < rows.len(),
        rows[row].spec_contains(position),
        0 <= list.start,
        list.start + row < list.jobs.len(),
        upto <= rows.len(),
    ensures
        spec_pointer_rows(list, rows, parts, position, upto).selected == (if upto > row {
            list.start + row
        } else {
            list.selected
        }),
        spec_pointer_rows(list, rows, parts, position, upto).jobs == list.jobs,
        spec_pointer_rows(list, rows, parts, position, upto).start == list.start,
    decreases upto,
{
    if upto > 0 {
        lemma_pointer_selects_row(list, area, rows, parts, position, row, (upto - 1) as nat);
        let k = upto - 1;
        assert(rows[k] == spec_row(area, k));
        assert(rows[row] == spec_row(area, row));
        if k != row {
            assert(!rows[k].spec_contains(position));
        }
    }
}

} // verus!
