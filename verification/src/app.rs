//! The controller: it owns the queue of actions, the components and the
//! current mode, and applies each action to the components in view.

use crate::action::{actions_view, Action, ActionView, Mode, ModeView};
use crate::components::component::{Component, ComponentModel, Drawing};
use crate::components::edit_job::{EditJob, EditJobModel, Field};
use crate::components::job_item::{FocusedField, JobListingState};
use crate::components::job_list::{JobList, JobListModel};
use crate::components::search::Home;
use crate::config::Config;
use crate::database::schema::{jobs_view, JobApplication, JobApplicationView};
use crate::event::{Event, MouseEventKind};
use crate::geometry::{Rect, Size};
use crate::keys::{
    lemma_idle_press, normalized_keys, spec_buffer_after, spec_emitted, KeyEvent,
    KeySequenceMatcher,
};
use std::collections::VecDeque;
use vstd::prelude::*;

verus! {

/// What the loop has to do on the terminal after an action was applied.
#[derive(Debug, Clone, Copy, PartialEq, Eq, Structural)]
pub enum Effect {
    /// Nothing.
    Nothing,
    /// Clear the screen.
    ClearScreen,
    /// Give the draw surface the new size, then draw.
    Resize(u16, u16),
    /// Draw.
    Render,
}

/// How the loop goes on after the queue was drained.
#[derive(Debug, Clone, Copy, PartialEq, Eq, Structural)]
pub enum LoopStep {
    /// Wait for the next event.
    Continue,
    /// Release the terminal, wait for the signal to resume, take the
    /// terminal again and call `resumed`.
    Suspend,
    /// Tear the terminal down and stop.
    Quit,
}

/// The controller.
pub struct App {
    config: Config,
    components: Vec<Component>,
    current_mode_components: Vec<usize>,
    should_quit: bool,
    should_suspend: bool,
    mode: Mode,
    last_tick_key_events: KeySequenceMatcher,
    queue: VecDeque<Action>,
}

/// What the controller holds, as plain values.
pub ghost struct AppModel {
    pub mode: ModeView,
    /// The components in view, by their place among the components, in
    /// the order in which they were registered.
    pub visible: Seq<int>,
    pub should_quit: bool,
    pub should_suspend: bool,
    /// The key presses since the last tick that were not bound alone.
    pub buffer: Seq<KeyEvent>,
    /// The actions that wait, the oldest first.
    pub queue: Seq<ActionView>,
    pub components: Seq<ComponentModel>,
    pub bindings: Map<Seq<KeyEvent>, ActionView>,
}

/// The places of those among the first `n` components that belong to the
/// mode, in rising order.
pub open spec fn visible_upto(components: Seq<ComponentModel>, mode: ModeView, n: nat) -> Seq<int>
    decreases n,
{
    if n == 0 {
        Seq::<int>::empty()
    } else if components[n - 1].mode() == mode {
        visible_upto(components, mode, (n - 1) as nat).push(n - 1)
    } else {
        visible_upto(components, mode, (n - 1) as nat)
    }
}

/// The places of the components that belong to the mode, in the order in
/// which the components were registered.
pub open spec fn visible_in(components: Seq<ComponentModel>, mode: ModeView) -> Seq<int> {
    visible_upto(components, mode, components.len())
}

/// The results of a search: six sample applications, numbered from zero.
pub open spec fn spec_search_results() -> Seq<JobApplicationView> {
    Seq::new(6, |i: int| JobApplication::spec_test(i))
}

/// The key bindings that the application starts with: control and `q` quits.
pub open spec fn spec_default_bindings() -> Map<Seq<KeyEvent>, ActionView> {
    Map::<Seq<KeyEvent>, ActionView>::empty().insert(
        normalized_keys(seq![KeyEvent::spec_quit_key()]),
        ActionView::Quit,
    )
}

/// The controller that the application starts with: the search bar, an
/// empty list and an empty form, of which the first two are in view;
/// nothing waits, no key is held and no flag is raised.
pub open spec fn spec_initial() -> AppModel {
    AppModel {
        mode: ModeView::Home,
        visible: seq![0int, 1int],
        should_quit: false,
        should_suspend: false,
        buffer: Seq::<KeyEvent>::empty(),
        queue: Seq::<ActionView>::empty(),
        components: seq![
            ComponentModel::Home,
            ComponentModel::JobList(
                JobListModel {
                    jobs: Seq::<JobApplicationView>::empty(),
                    selected: 0,
                    start: 0,
                    focus: JobListingState { focused: false, focused_field: FocusedField::Unfocused },
                    area: None,
                    sink: false,
                    popup_visible: false,
                    bindings: spec_default_bindings(),
                },
            ),
            ComponentModel::EditJob(
                EditJobModel {
                    focus: 0,
                    focused_updated: false,
                    restyle_pending: false,
                    pending_input: None,
                    job: JobApplication::spec_default(),
                },
            ),
        ],
        bindings: spec_default_bindings(),
    }
}

/// What the loop has to do on the terminal for an action.
pub open spec fn spec_effect(action: ActionView) -> Effect {
    match action {
        ActionView::ClearScreen => Effect::ClearScreen,
        ActionView::Resize(w, h) => Effect::Resize(w, h),
        ActionView::Render => Effect::Render,
        _ => Effect::Nothing,
    }
}

impl AppModel {
    /// The components in view are exactly those that belong to the mode.
    pub open spec fn wf(self) -> bool {
        self.visible == visible_in(self.components, self.mode)
    }

    /// The controller after the effects that an action has on the
    /// controller itself: a tick empties the buffer of keys, quit and
    /// suspend raise their flags, resume lowers the flag of suspend, a
    /// request for a search queues its results, and a change of mode
    /// sets the mode and the components in view. No other action changes
    /// the controller itself, and none but a change of mode changes the mode.
    pub open spec fn global_step(self, action: ActionView) -> AppModel {
        match action {
            ActionView::Tick => AppModel { buffer: Seq::<KeyEvent>::empty(), ..self },
            ActionView::Quit => AppModel { should_quit: true, ..self },
            ActionView::Suspend => AppModel { should_suspend: true, ..self },
            ActionView::Resume => AppModel { should_suspend: false, ..self },
            ActionView::DispatchJobSearch => AppModel {
                queue: self.queue.push(ActionView::JobResults(spec_search_results())),
                ..self
            },
            ActionView::ChangeMode(mode) => AppModel {
                mode: mode,
                visible: visible_in(self.components, mode),
                ..self
            },
            _ => self,
        }
    }

    /// The controller after the action was handed to the first `upto`
    /// components in view, one after the other: each changes as its own
    /// rules say, and what it sends joins the end of the queue.
    pub open spec fn forwarded(self, action: ActionView, upto: nat) -> AppModel
        decreases upto,
    {
        if upto == 0 {
            self
        } else {
            let before = self.forwarded(action, (upto - 1) as nat);
            let place = self.visible[upto - 1];
            AppModel {
                components: before.components.update(
                    place,
                    before.components[place].after_update(action),
                ),
                queue: before.queue + before.components[place].update_emits(),
                ..before
            }
        }
    }

    /// The controller after one action taken from the queue: first the
    /// effects on the controller itself, then the action is handed to
    /// every component that is in view after them.
    pub open spec fn step(self, action: ActionView) -> AppModel {
        let after = self.global_step(action);
        after.forwarded(action, after.visible.len())
    }

    /// The controller after the actions that an event stands for joined
    /// the queue: quit, tick, render and a new size each give their action;
    /// a key goes through the matcher, which may give the action bound to
    /// it; an event of the pointer gives none.
    pub open spec fn with_event_actions(self, event: Event) -> AppModel {
        match event {
            Event::Quit => AppModel { queue: self.queue.push(ActionView::Quit), ..self },
            Event::Tick => AppModel { queue: self.queue.push(ActionView::Tick), ..self },
            Event::Render => AppModel { queue: self.queue.push(ActionView::Render), ..self },
            Event::Resize(w, h) => AppModel {
                queue: self.queue.push(ActionView::Resize(w, h)),
                ..self
            },
            Event::Key(key) => self.with_key(key),
            Event::Mouse(_) => self,
        }
    }

    /// The controller after a key went through the matcher.
    pub open spec fn with_key(self, key: KeyEvent) -> AppModel {
        AppModel {
            buffer: spec_buffer_after(self.buffer, key, self.bindings),
            queue: match spec_emitted(self.buffer, key, self.bindings) {
                Some(action) => self.queue.push(action),
                None => self.queue,
            },
            ..self
        }
    }

    /// The controller after the event was handed to the first `upto`
    /// components in view, one after the other.
    pub open spec fn event_forwarded(self, event: Event, upto: nat) -> AppModel
        decreases upto,
    {
        if upto == 0 {
            self
        } else {
            let before = self.event_forwarded(event, (upto - 1) as nat);
            let place = self.visible[upto - 1];
            AppModel {
                components: before.components.update(
                    place,
                    before.components[place].after_event(event),
                ),
                queue: before.queue + before.components[place].event_emits(event),
                ..before
            }
        }
    }

    /// The controller after an event: the actions that the event stands
    /// for join the queue, then the event itself is handed to every
    /// component in view, and what they send joins the queue after them.
    pub open spec fn after_event(self, event: Event) -> AppModel {
        let mapped = self.with_event_actions(event);
        mapped.event_forwarded(event, mapped.visible.len())
    }

    /// The controller after the first `upto` components in view were
    /// drawn into the area, one after the other.
    pub open spec fn drawn(self, area: Rect, upto: nat) -> AppModel
        decreases upto,
    {
        if upto == 0 {
            self
        } else {
            let before = self.drawn(area, (upto - 1) as nat);
            let place = self.visible[upto - 1];
            AppModel {
                components: before.components.update(
                    place,
                    before.components[place].after_draw(area),
                ),
                ..before
            }
        }
    }

    /// The controller after every component was given its sink and the
    /// configuration.
    pub open spec fn registered(self) -> AppModel {
        AppModel {
            components: self.components.map_values(
                |c: ComponentModel| c.with_sink().with_config(self.bindings),
            ),
            ..self
        }
    }

    /// The controller after a list of actions, each applied as `step` says.
    pub open spec fn steps(self, actions: Seq<ActionView>) -> AppModel
        decreases actions.len(),
    {
        if actions.len() == 0 {
            self
        } else {
            self.steps(actions.drop_last()).step(actions.last())
        }
    }
}

/// Tells whether `after_event` says all that the event does. It does not
/// for a move of the pointer, where the layout engine places the rows of
/// the list.
pub open spec fn spec_event_is_exact(event: Event) -> bool {
    match event {
        Event::Mouse(mouse) => mouse.kind != MouseEventKind::Moved,
        _ => true,
    }
}

/// The mode that a list of actions leads to from `mode`: that of the last
/// change of mode in the list, or `mode` itself where there is none.
pub open spec fn last_mode(mode: ModeView, actions: Seq<ActionView>) -> ModeView
    decreases actions.len(),
{
    if actions.len() == 0 {
        mode
    } else {
        match actions.last() {
            ActionView::ChangeMode(next) => next,
            _ => last_mode(mode, actions.drop_last()),
        }
    }
}

/// The places of a list of components, as integers.
pub open spec fn places_view(places: Seq<usize>) -> Seq<int> {
    places.map_values(|p: usize| p as int)
}

/// What each component of a list holds.
pub open spec fn components_view(components: Seq<Component>) -> Seq<ComponentModel> {
    components.map_values(|c: Component| c@)
}

/// Every place in view is the place of a component, and the places rise.
pub proof fn lemma_visible_in_range(components: Seq<ComponentModel>, mode: ModeView, n: nat)
    requires
        n <= components.len(),
    ensures
        visible_upto(components, mode, n).len() <= n,
        forall|k: int|
            0 <= k < visible_upto(components, mode, n).len() ==> 0 <= (#[trigger] visible_upto(
                components,
                mode,
                n,
            )[k]) < n,
        forall|k: int|
            0 <= k < visible_upto(components, mode, n).len() ==> components[visible_upto(
                components,
                mode,
                n,
            )[k]].mode() == mode,
    decreases n,
{
    if n > 0 {
        lemma_visible_in_range(components, mode, (n - 1) as nat);
    }
}

/// A component is in view if and only if it belongs to the mode.
pub proof fn lemma_visible_is_exact(
    components: Seq<ComponentModel>,
    mode: ModeView,
    n: nat,
    place: int,
)
    requires
        n <= components.len(),
        0 <= place < n,
    ensures
        visible_upto(components, mode, n).contains(place) <==> components[place].mode() == mode,
    decreases n,
{
    lemma_visible_in_range(components, mode, n);
    let now = visible_upto(components, mode, n);
    let before = visible_upto(components, mode, (n - 1) as nat);
    lemma_visible_in_range(components, mode, (n - 1) as nat);
    if place < n - 1 {
        lemma_visible_is_exact(components, mode, (n - 1) as nat, place);
        if components[n - 1].mode() == mode {
            assert(now == before.push(n - 1));
            if before.contains(place) {
                let k = choose|k: int| 0 <= k < before.len() && before[k] == place;
                assert(now[k] == place);
            }
            if now.contains(place) {
                let k = choose|k: int| 0 <= k < now.len() && now[k] == place;
                assert(k < before.len());
                assert(before[k] == place);
            }
        }
    } else {
        if components[n - 1].mode() == mode {
            assert(now == before.push(n - 1));
            assert(now[before.len() as int] == place);
        } else {
            if now.contains(place) {
                let k = choose|k: int| 0 <= k < now.len() && now[k] == place;
                assert(now[k] < n - 1);
            }
        }
    }
}

/// The components in view depend on the modes of the components alone.
pub proof fn lemma_visible_by_modes(
    a: Seq<ComponentModel>,
    b: Seq<ComponentModel>,
    mode: ModeView,
    n: nat,
)
    requires
        a.len() == b.len(),
        n <= a.len(),
        forall|i: int| 0 <= i < a.len() ==> (#[trigger] a[i]).mode() == b[i].mode(),
    ensures
        visible_upto(a, mode, n) == visible_upto(b, mode, n),
    decreases n,
{
    if n > 0 {
        lemma_visible_by_modes(a, b, mode, (n - 1) as nat);
    }
}

/// A component that is not among the first `upto` in view is left as it
/// is when an action is handed to them.
pub proof fn lemma_forwarded_leaves_others(m: AppModel, action: ActionView, upto: nat, i: int)
    requires
        upto <= m.visible.len(),
        0 <= i < m.components.len(),
        forall|k: int| 0 <= k < m.visible.len() ==> 0 <= (#[trigger] m.visible[k]) < m.components.len(),
        forall|k: int| 0 <= k < upto ==> (#[trigger] m.visible[k]) != i,
    ensures
        m.forwarded(action, upto).components[i] == m.components[i],
    decreases upto,
{
    if upto > 0 {
        lemma_forwarded_leaves_others(m, action, (upto - 1) as nat, i);
        lemma_forwarded_keeps_view(m, action, (upto - 1) as nat);
        assert(m.visible[upto - 1] != i);
    }
}

/// An action reaches only the components of the mode that is current once
/// the action's own effects are applied: a component of any other mode is
/// left exactly as it was.
pub proof fn lemma_step_leaves_hidden(m: AppModel, action: ActionView, i: int)
    requires
        m.wf(),
        0 <= i < m.components.len(),
        m.components[i].mode() != m.step(action).mode,
    ensures
        m.step(action).components[i] == m.components[i],
{
    let g = m.global_step(action);
    lemma_visible_in_range(g.components, g.mode, g.components.len());
    lemma_forwarded_keeps_view(g, action, g.visible.len());
    lemma_forwarded_leaves_others(g, action, g.visible.len(), i);
}

/// Drawing changes neither the mode, nor the queue, nor what is in view,
/// nor the kind of any component, and leaves alone every component that
/// is not among the first `upto` in view.
pub proof fn lemma_drawn_keeps_view(m: AppModel, area: Rect, upto: nat)
    requires
        upto <= m.visible.len(),
        forall|k: int| 0 <= k < m.visible.len() ==> 0 <= (#[trigger] m.visible[k]) < m.components.len(),
    ensures
        m.drawn(area, upto) == (AppModel { components: m.drawn(area, upto).components, ..m }),
        m.drawn(area, upto).components.len() == m.components.len(),
        forall|i: int|
            0 <= i < m.components.len() ==> (#[trigger] m.drawn(area, upto).components[i]).mode()
                == m.components[i].mode(),
        forall|i: int|
            0 <= i < m.components.len() && (forall|k: int| 0 <= k < upto ==> m.visible[k] != i)
                ==> (#[trigger] m.drawn(area, upto).components[i]) == m.components[i],
    decreases upto,
{
    if upto > 0 {
        lemma_drawn_keeps_view(m, area, (upto - 1) as nat);
    }
}

/// The places in view rise, so no component is in view twice.
pub proof fn lemma_visible_rises(components: Seq<ComponentModel>, mode: ModeView, n: nat)
    requires
        n <= components.len(),
    ensures
        forall|j: int, k: int|
            0 <= j < k < visible_upto(components, mode, n).len() ==> visible_upto(
                components,
                mode,
                n,
            )[j] < visible_upto(components, mode, n)[k],
    decreases n,
{
    if n > 0 {
        lemma_visible_rises(components, mode, (n - 1) as nat);
        lemma_visible_in_range(components, mode, (n - 1) as nat);
    }
}

/// Handing an action to the components in view changes neither the mode,
/// nor the components in view, nor the kind of any component.
pub proof fn lemma_forwarded_keeps_view(m: AppModel, action: ActionView, upto: nat)
    requires
        upto <= m.visible.len(),
        forall|k: int| 0 <= k < m.visible.len() ==> 0 <= (#[trigger] m.visible[k]) < m.components.len(),
    ensures
        m.forwarded(action, upto).mode == m.mode,
        m.forwarded(action, upto).visible == m.visible,
        m.forwarded(action, upto).should_quit == m.should_quit,
        m.forwarded(action, upto).should_suspend == m.should_suspend,
        m.forwarded(action, upto).buffer == m.buffer,
        m.forwarded(action, upto).bindings == m.bindings,
        m.forwarded(action, upto).components.len() == m.components.len(),
        forall|i: int|
            0 <= i < m.components.len() ==> (#[trigger] m.forwarded(action, upto).components[i]).mode()
                == m.components[i].mode(),
    decreases upto,
{
    if upto > 0 {
        lemma_forwarded_keeps_view(m, action, (upto - 1) as nat);
    }
}

/// One step keeps the controller well formed, and leads to the mode that
/// the action names if it is a change of mode, else to the mode before.
/// No other action alters the mode.
pub proof fn lemma_step_keeps_wf(m: AppModel, action: ActionView)
    requires
        m.wf(),
    ensures
        m.step(action).wf(),
        m.step(action).components.len() == m.components.len(),
        m.step(action).mode == (match action {
            ActionView::ChangeMode(next) => next,
            _ => m.mode,
        }),
{
    let g = m.global_step(action);
    lemma_visible_in_range(g.components, g.mode, g.components.len());
    lemma_forwarded_keeps_view(g, action, g.visible.len());
    let f = g.forwarded(action, g.visible.len());
    lemma_visible_by_modes(f.components, g.components, g.mode, g.components.len());
}

/// A tick always empties the buffer of keys, whatever it held, so the
/// next key is resolved by the binding of that key alone.
pub proof fn lemma_tick_empties_buffer(m: AppModel, key: KeyEvent)
    requires
        m.wf(),
    ensures
        m.step(ActionView::Tick).buffer == Seq::<KeyEvent>::empty(),
        m.step(ActionView::Tick).with_key(key).queue == (if m.bindings.contains_key(
            normalized_keys(seq![key]),
        ) {
            m.step(ActionView::Tick).queue.push(m.bindings[normalized_keys(seq![key])])
        } else {
            m.step(ActionView::Tick).queue
        }),
{
    let g = m.global_step(ActionView::Tick);
    lemma_visible_in_range(g.components, g.mode, g.components.len());
    lemma_forwarded_keeps_view(g, ActionView::Tick, g.visible.len());
    lemma_idle_press(key, m.bindings);
}

/// After any list of actions the components in view are exactly those
/// that belong to the mode of the last change of mode in the list, or to
/// the mode at the start where the list holds no change of mode.
pub proof fn lemma_visible_follows_last_mode(m: AppModel, actions: Seq<ActionView>)
    requires
        m.wf(),
    ensures
        m.steps(actions).wf(),
        m.steps(actions).mode == last_mode(m.mode, actions),
        m.steps(actions).visible == visible_in(
            m.steps(actions).components,
            last_mode(m.mode, actions),
        ),
        m.steps(actions).components.len() == m.components.len(),
    decreases actions.len(),
{
    if actions.len() > 0 {
        let before = m.steps(actions.drop_last());
        lemma_visible_follows_last_mode(m, actions.drop_last());
        lemma_step_keeps_wf(before, actions.last());
    }
}

/// Puts copies of the actions at the end of the queue, in their order.
fn push_all(queue: &mut VecDeque<Action>, actions: &Vec<Action>)
    ensures
        actions_view(final(queue)@) == actions_view(old(queue)@) + actions_view(actions@),
{
    let mut j: usize = 0;
    assert(actions_view(old(queue)@) + actions_view(actions@).take(0) =~= actions_view(
        old(queue)@,
    ));
    while j < actions.len()
        invariant
            0 <= j <= actions@.len(),
            actions_view(queue@) == actions_view(old(queue)@) + actions_view(actions@).take(
                j as int,
            ),
        decreases actions.len() - j,
    {
        let ghost before = queue@;
        queue.push_back(actions[j].copy());
        assert(actions_view(queue@) =~= actions_view(before).push(actions@[j as int]@));
        assert(actions_view(actions@).take(j as int + 1) =~= actions_view(actions@).take(
            j as int,
        ).push(actions@[j as int]@));
        assert(actions_view(old(queue)@) + actions_view(actions@).take(j as int + 1) =~= (
        actions_view(old(queue)@) + actions_view(actions@).take(j as int)).push(
            actions@[j as int]@,
        ));
        j = j + 1;
    }
    assert(actions_view(actions@).take(actions@.len() as int) =~= actions_view(actions@));
}

impl View for App {
    type V = AppModel;

    closed spec fn view(&self) -> AppModel {
        AppModel {
            mode: self.mode@,
            visible: places_view(self.current_mode_components@),
            should_quit: self.should_quit,
            should_suspend: self.should_suspend,
            buffer: self.last_tick_key_events@,
            queue: actions_view(self.queue@),
            components: components_view(self.components@),
            bindings: self.config.keybindings@,
        }
    }
}

impl App {
    /// The invariant of the controller: the components in view are those
    /// of the current mode, and every component holds its own invariant.
    pub closed spec fn wf(&self) -> bool {
        &&& self@.wf()
        &&& forall|i: int| 0 <= i < self.components@.len() ==> (#[trigger] self.components@[i]).wf()
    }

    /// A well-formed controller has the components of its mode in view.
    pub proof fn lemma_wf(&self)
        requires
            self.wf(),
        ensures
            self@.wf(),
    {
    }

    /// A controller in the starting mode over the given components, with an
    /// empty queue, no key held and no flag raised.
    pub fn with_components(components: Vec<Component>, config: Config) -> (r: App)
        requires
            forall|i: int| 0 <= i < components@.len() ==> (#[trigger] components@[i]).wf(),
        ensures
            r.wf(),
            r@ == (AppModel {
                mode: ModeView::Home,
                visible: visible_in(components_view(components@), ModeView::Home),
                should_quit: false,
                should_suspend: false,
                buffer: Seq::<KeyEvent>::empty(),
                queue: Seq::<ActionView>::empty(),
                components: components_view(components@),
                bindings: config.keybindings@,
            }),
    {
        let queue: VecDeque<Action> = VecDeque::new();
        assert(actions_view(queue@) =~= Seq::<ActionView>::empty());
        let mut app = App {
            config,
            components,
            current_mode_components: Vec::new(),
            should_quit: false,
            should_suspend: false,
            mode: Mode::default(),
            last_tick_key_events: KeySequenceMatcher::new(),
            queue,
        };
        app.refresh_visible();
        app
    }

    /// The controller that the application starts with: the search bar,
    /// the list and the form, in the starting mode.
    pub fn new() -> (r: App)
        ensures
            r.wf(),
            r@ == spec_initial(),
    {
        let mut components: Vec<Component> = Vec::new();
        components.push(Component::Home(Home::new()));
        components.push(Component::JobList(JobList::new()));
        components.push(Component::EditJob(EditJob::new()));
        let app = App::with_components(components, Config::new());
        proof {
            let c = app@.components;
            reveal_with_fuel(visible_upto, 4);
            assert(visible_in(c, ModeView::Home) =~= seq![0int, 1int]);
            assert(c =~= spec_initial().components);
        }
        app
    }

    /// Puts into view exactly the components of the current mode, in the
    /// order in which they were registered.
    fn refresh_visible(&mut self)
        requires
            forall|i: int|
                0 <= i < old(self).components@.len() ==> (#[trigger] old(self).components@[i]).wf(),
        ensures
            final(self).wf(),
            final(self)@ == (AppModel {
                visible: visible_in(old(self)@.components, old(self)@.mode),
                ..old(self)@
            }),
    {
        self.current_mode_components = Vec::new();
        let mut idx: usize = 0;
        assert(places_view(self.current_mode_components@) =~= Seq::<int>::empty());
        while idx < self.components.len()
            invariant
                0 <= idx <= self.components@.len(),
                self.components == old(self).components,
                self.mode == old(self).mode,
                self.should_quit == old(self).should_quit,
                self.should_suspend == old(self).should_suspend,
                self.last_tick_key_events == old(self).last_tick_key_events,
                self.queue == old(self).queue,
                self.config == old(self).config,
                places_view(self.current_mode_components@) == visible_upto(
                    components_view(self.components@),
                    self.mode@,
                    idx as nat,
                ),
            decreases self.components.len() - idx,
        {
            let ghost before = self.current_mode_components@;
            let owner = self.components[idx].mode();
            if owner.same(&self.mode) {
                self.current_mode_components.push(idx);
                assert(places_view(self.current_mode_components@) =~= places_view(before).push(
                    idx as int,
                ));
            }
            idx = idx + 1;
        }
    }

    /// Puts an action at the end of the queue.
    pub fn enqueue(&mut self, action: Action)
        requires
            old(self).wf(),
        ensures
            final(self).wf(),
            final(self)@ == (AppModel { queue: old(self)@.queue.push(action@), ..old(self)@ }),
    {
        let ghost before = self.queue@;
        self.queue.push_back(action);
        assert(actions_view(self.queue@) =~= actions_view(before).push(action@));
    }

    /// Takes the oldest action from the queue, if there is one.
    pub fn next_action(&mut self) -> (r: Option<Action>)
        requires
            old(self).wf(),
        ensures
            final(self).wf(),
            match r {
                Some(action) => old(self)@.queue.len() > 0 && action@ == old(self)@.queue[0]
                    && final(self)@ == (AppModel {
                    queue: old(self)@.queue.subrange(1, old(self)@.queue.len() as int),
                    ..old(self)@
                }),
                None => old(self)@.queue.len() == 0 && final(self)@ == old(self)@,
            },
    {
        let ghost before = self.queue@;
        let taken = self.queue.pop_front();
        proof {
            if before.len() > 0 {
                assert(actions_view(self.queue@) =~= actions_view(before).subrange(
                    1,
                    before.len() as int,
                ));
            }
        }
        taken
    }

    /// The number of actions that wait in the queue.
    pub fn pending_actions(&self) -> (r: usize)
        ensures
            r == self@.queue.len(),
    {
        self.queue.len()
    }

    /// The current mode.
    pub fn mode(&self) -> (r: Mode)
        ensures
            r@ == self@.mode,
    {
        self.mode
    }

    /// The components in view, by their place among the components.
    pub fn current_mode_components(&self) -> (r: &Vec<usize>)
        ensures
            places_view(r@) == self@.visible,
    {
        &self.current_mode_components
    }

    /// All components, in the order in which they were registered.
    pub fn components(&self) -> (r: &Vec<Component>)
        ensures
            components_view(r@) == self@.components,
    {
        &self.components
    }

    /// Tells whether quit was asked for.
    pub fn should_quit(&self) -> (r: bool)
        ensures
            r == self@.should_quit,
    {
        self.should_quit
    }

    /// Tells whether suspend was asked for and not yet answered by resume.
    pub fn should_suspend(&self) -> (r: bool)
        ensures
            r == self@.should_suspend,
    {
        self.should_suspend
    }

    /// The key presses held since the last tick.
    pub fn last_tick_key_events(&self) -> (r: &Vec<KeyEvent>)
        ensures
            r@ == self@.buffer,
    {
        self.last_tick_key_events.pending()
    }

    /// Answers a request for a search: the results join the queue.
    fn handle_job_search(&mut self)
        requires
            old(self).wf(),
        ensures
            final(self).wf(),
            final(self)@ == (AppModel {
                queue: old(self)@.queue.push(ActionView::JobResults(spec_search_results())),
                ..old(self)@
            }),
    {
        let mut results: Vec<JobApplication> = Vec::new();
        let mut id: i32 = 0;
        while id < 6
            invariant
                0 <= id <= 6,
                results@.len() == id,
                forall|k: int| 0 <= k < id ==> (#[trigger] results@[k])@ == JobApplication::spec_test(k),
            decreases 6 - id,
        {
            results.push(JobApplication::test(id));
            id = id + 1;
        }
        assert(jobs_view(results@) =~= spec_search_results());
        self.enqueue(Action::JobResults(results));
    }

    /// Applies the effects that the action has on the controller itself.
    fn apply_global(&mut self, action: &Action) -> (effect: Effect)
        requires
            old(self).wf(),
        ensures
            final(self).wf(),
            final(self)@ == old(self)@.global_step(action@),
            effect == spec_effect(action@),
    {
        match action {
            Action::Tick => {
                self.last_tick_key_events.clear();
                Effect::Nothing
            },
            Action::Quit => {
                self.should_quit = true;
                Effect::Nothing
            },
            Action::Suspend => {
                self.should_suspend = true;
                Effect::Nothing
            },
            Action::Resume => {
                self.should_suspend = false;
                Effect::Nothing
            },
            Action::ClearScreen => Effect::ClearScreen,
            Action::Resize(w, h) => Effect::Resize(*w, *h),
            Action::Render => Effect::Render,
            Action::DispatchJobSearch => {
                self.handle_job_search();
                Effect::Nothing
            },
            Action::ChangeMode(new_mode) => {
                self.mode = *new_mode;
                self.refresh_visible();
                Effect::Nothing
            },
            _ => Effect::Nothing,
        }
    }

    /// Hands the action to every component in view, in their order, and
    /// queues what they send.
    fn forward(&mut self, action: &Action)
        requires
            old(self).wf(),
        ensures
            final(self).wf(),
            final(self)@ == old(self)@.forwarded(action@, old(self)@.visible.len()),
    {
        proof {
            lemma_visible_in_range(
                old(self)@.components,
                old(self)@.mode,
                old(self)@.components.len(),
            );
        }
        let mut k: usize = 0;
        while k < self.current_mode_components.len()
            invariant
                0 <= k <= self.current_mode_components@.len(),
                self.current_mode_components == old(self).current_mode_components,
                self.components@.len() == old(self).components@.len(),
                forall|j: int|
                    0 <= j < old(self)@.visible.len() ==> 0 <= (#[trigger] old(self)@.visible[j])
                        < old(self)@.components.len(),
                forall|i: int|
                    0 <= i < self.components@.len() ==> (#[trigger] self.components@[i]).wf(),
                self@ == old(self)@.forwarded(action@, k as nat),
            decreases self.current_mode_components.len() - k,
        {
            let place: usize = self.current_mode_components[k];
            assert(old(self)@.visible[k as int] == place);
            let ghost before = self.components@;
            let ghost queue_before = self@.queue;
            let emitted = self.components[place].update(action);
            assert(components_view(self.components@) =~= components_view(before).update(
                place as int,
                before[place as int]@.after_update(action@),
            ));
            push_all(&mut self.queue, &emitted);
            k = k + 1;
        }
        proof {
            let n = old(self)@.visible.len();
            lemma_forwarded_keeps_view(old(self)@, action@, n);
            lemma_visible_by_modes(
                self@.components,
                old(self)@.components,
                old(self)@.mode,
                old(self)@.components.len(),
            );
        }
    }

    /// Applies one action taken from the queue: first its effects on the
    /// controller itself, then the action is handed to every component
    /// that is in view after them, and what the components send joins the
    /// end of the queue. The result says what the loop has to do on the
    /// terminal.
    pub fn handle_action(&mut self, action: Action) -> (effect: Effect)
        requires
            old(self).wf(),
        ensures
            final(self).wf(),
            final(self)@ == old(self)@.step(action@),
            effect == spec_effect(action@),
    {
        let effect = self.apply_global(&action);
        self.forward(&action);
        effect
    }

    /// Takes a key through the matcher: the action bound to it, if any,
    /// joins the queue.
    pub fn handle_key_event(&mut self, key: KeyEvent)
        requires
            old(self).wf(),
        ensures
            final(self).wf(),
            final(self)@ == old(self)@.with_key(key),
    {
        match self.last_tick_key_events.press(key, &self.config.keybindings) {
            Some(action) => {
                let ghost before = self.queue@;
                self.queue.push_back(action);
                assert(actions_view(self.queue@) =~= actions_view(before).push(action@));
            },
            None => {},
        }
    }

    /// Queues the actions that the event stands for.
    fn map_event(&mut self, event: Event)
        requires
            old(self).wf(),
        ensures
            final(self).wf(),
            final(self)@ == old(self)@.with_event_actions(event),
    {
        match event {
            Event::Quit => self.enqueue(Action::Quit),
            Event::Tick => self.enqueue(Action::Tick),
            Event::Render => self.enqueue(Action::Render),
            Event::Resize(w, h) => self.enqueue(Action::Resize(w, h)),
            Event::Key(key) => self.handle_key_event(key),
            Event::Mouse(_) => {},
        }
    }

    /// Takes an event of the terminal: the actions that it stands for join
    /// the queue, then the event is handed to every component in view, in
    /// their order, and what they send joins the queue after them. No
    /// component out of view is touched. The result is the one that
    /// `after_event` gives; under a move of the pointer a list in view
    /// changes as `event_led_to` says instead, since the layout engine
    /// places its rows.
    pub fn handle_events(&mut self, event: Event)
        requires
            old(self).wf(),
        ensures
            final(self).wf(),
            spec_event_is_exact(event) ==> final(self)@ == old(self)@.after_event(event),
            final(self)@ == (AppModel {
                components: final(self)@.components,
                ..old(self)@.after_event(event)
            }),
            final(self)@.components.len() == old(self)@.components.len(),
            forall|i: int|
                0 <= i < old(self)@.components.len() ==> (#[trigger] final(self)@.components[i]).same_kind(
                    old(self)@.components[i],
                ),
            forall|i: int|
                0 <= i < old(self)@.components.len() && !(old(self)@.components[i] is JobList)
                    ==> (#[trigger] final(self)@.components[i]) == old(self)@.after_event(
                    event,
                ).components[i],
            forall|i: int|
                0 <= i < old(self)@.components.len() && !old(self)@.visible.contains(i)
                    ==> (#[trigger] final(self)@.components[i]) == old(self)@.components[i],
            forall|i: int|
                0 <= i < old(self)@.components.len() && old(self)@.visible.contains(i) ==> old(
                    self,
                )@.components[i].event_led_to(event, #[trigger] final(self)@.components[i]),
    {
        self.map_event(event);
        let ghost mapped = self@;
        proof {
            lemma_visible_in_range(mapped.components, mapped.mode, mapped.components.len());
            lemma_visible_rises(mapped.components, mapped.mode, mapped.components.len());
            assert(mapped.visible == old(self)@.visible);
            assert(mapped.components == old(self)@.components);
        }
        let mut k: usize = 0;
        while k < self.current_mode_components.len()
            invariant
                0 <= k <= self.current_mode_components@.len(),
                mapped == old(self)@.with_event_actions(event),
                mapped.visible == places_view(self.current_mode_components@),
                mapped.wf(),
                self@.mode == mapped.mode,
                self.components@.len() == mapped.components.len(),
                forall|j: int|
                    0 <= j < mapped.visible.len() ==> 0 <= (#[trigger] mapped.visible[j])
                        < mapped.components.len(),
                forall|i: int|
                    0 <= i < self.components@.len() ==> (#[trigger] self.components@[i]).wf(),
                forall|i: int|
                    0 <= i < mapped.components.len() ==> (#[trigger] self@.components[i]).same_kind(
                        mapped.components[i],
                    ),
                forall|i: int|
                    0 <= i < mapped.components.len() ==> (#[trigger] mapped.event_forwarded(
                        event,
                        k as nat,
                    ).components[i]).same_kind(mapped.components[i]),
                mapped.event_forwarded(event, k as nat).components.len() == mapped.components.len(),
                forall|i: int|
                    0 <= i < mapped.components.len() && (spec_event_is_exact(event) || !(
                    mapped.components[i] is JobList)) ==> (#[trigger] self@.components[i])
                        == mapped.event_forwarded(event, k as nat).components[i],
                self@ == (AppModel {
                    components: self@.components,
                    ..mapped.event_forwarded(event, k as nat)
                }),
                forall|i: int, j: int|
                    0 <= i < j < mapped.visible.len() ==> mapped.visible[i] < mapped.visible[j],
                forall|i: int|
                    0 <= i < mapped.components.len() && !mapped.visible.take(k as int).contains(i)
                        ==> (#[trigger] self@.components[i]) == mapped.components[i],
                forall|i: int|
                    0 <= i < mapped.components.len() && mapped.visible.take(k as int).contains(i)
                        ==> mapped.components[i].event_led_to(
                        event,
                        #[trigger] self@.components[i],
                    ),
            decreases self.current_mode_components.len() - k,
        {
            let place: usize = self.current_mode_components[k];
            assert(mapped.visible[k as int] == place);
            let ghost before = self.components@;
            let ghost folded = mapped.event_forwarded(event, k as nat);
            let ghost seen = mapped.visible.take(k as int);
            proof {
                if seen.contains(place as int) {
                    let j = choose|j: int| 0 <= j < seen.len() && seen[j] == place as int;
                    assert(mapped.visible[j] < mapped.visible[k as int]);
                }
                assert(components_view(before)[place as int] == mapped.components[place as int]);
            }
            let emitted = self.components[place].handle_events(event);
            assert(components_view(self.components@) =~= components_view(before).update(
                place as int,
                self.components@[place as int]@,
            ));
            proof {
                if !spec_event_is_exact(event) {
                    assert(before[place as int]@.event_emits(event) =~= Seq::<ActionView>::empty());
                    assert(folded.components[place as int].event_emits(event) =~= Seq::<
                        ActionView,
                    >::empty());
                }
                assert(before[place as int]@ == components_view(before)[place as int]);
            }
            push_all(&mut self.queue, &emitted);
            proof {
                let next = mapped.visible.take(k as int + 1);
                assert(next =~= seen.push(place as int));
                assert forall|i: int|
                    0 <= i < mapped.components.len() && !next.contains(i) implies (
                #[trigger] self@.components[i]) == mapped.components[i] by {
                    assert(next[k as int] == place as int);
                    assert(i != place as int);
                    if seen.contains(i) {
                        let j = choose|j: int| 0 <= j < seen.len() && seen[j] == i;
                        assert(next[j] == i);
                    }
                }
                assert forall|i: int|
                    0 <= i < mapped.components.len() && next.contains(
                        i,
                    ) implies mapped.components[i].event_led_to(
                    event,
                    #[trigger] self@.components[i],
                ) by {
                    if i != place as int {
                        let j = choose|j: int| 0 <= j < next.len() && next[j] == i;
                        assert(j < k);
                        assert(seen[j] == i);
                    }
                }
            }
            k = k + 1;
        }
        proof {
            assert(mapped.visible.take(mapped.visible.len() as int) =~= mapped.visible);
            let n = mapped.visible.len();
            let done = mapped.event_forwarded(event, n);
            assert forall|i: int| 0 <= i < self@.components.len() implies (
            #[trigger] self@.components[i]).mode() == mapped.components[i].mode() by {
                assert(self@.components[i].same_kind(mapped.components[i]));
            }
            lemma_visible_by_modes(
                self@.components,
                mapped.components,
                mapped.mode,
                mapped.components.len(),
            );
            if spec_event_is_exact(event) {
                assert(self@.components =~= done.components);
            }
        }
    }

    /// How the loop goes on once the queue is empty. Once quit was seen the
    /// loop stops after the pass, whatever else was asked for in it; else a
    /// raised flag of suspend releases the terminal.
    pub fn after_drain(&self) -> (r: LoopStep)
        ensures
            r == (if self@.should_quit {
                LoopStep::Quit
            } else if self@.should_suspend {
                LoopStep::Suspend
            } else {
                LoopStep::Continue
            }),
    {
        if self.should_quit {
            LoopStep::Quit
        } else if self.should_suspend {
            LoopStep::Suspend
        } else {
            LoopStep::Continue
        }
    }

    /// Notes that the terminal was taken again after a suspension: resume
    /// and then a clearing of the screen join the queue, in that order.
    pub fn resumed(&mut self)
        requires
            old(self).wf(),
        ensures
            final(self).wf(),
            final(self)@ == (AppModel {
                queue: old(self)@.queue.push(ActionView::Resume).push(ActionView::ClearScreen),
                ..old(self)@
            }),
    {
        self.enqueue(Action::Resume);
        self.enqueue(Action::ClearScreen);
    }

    /// Gives every component its sink and a copy of the configuration, as
    /// is done once before the loop starts.
    pub fn register_components(&mut self)
        requires
            old(self).wf(),
        ensures
            final(self).wf(),
            final(self)@ == old(self)@.registered(),
    {
        let mut i: usize = 0;
        while i < self.components.len()
            invariant
                0 <= i <= self.components@.len(),
                self.components@.len() == old(self).components@.len(),
                forall|j: int|
                    0 <= j < self.components@.len() ==> (#[trigger] self.components@[j]).wf(),
                forall|j: int| 0 <= j < i ==> (#[trigger] self.components@[j])@ == old(
                    self,
                ).components@[j]@.with_sink().with_config(old(self)@.bindings),
                forall|j: int|
                    i <= j < self.components@.len() ==> (#[trigger] self.components@[j])@ == old(
                        self,
                    ).components@[j]@,
                self@ == (AppModel { components: self@.components, ..old(self)@ }),
            decreases self.components.len() - i,
        {
            self.components[i].register_action_handler();
            let config = self.config.copy();
            self.components[i].register_config_handler(config);
            i = i + 1;
        }
        proof {
            assert(self@.components =~= old(self)@.registered().components);
            assert forall|j: int| 0 <= j < self@.components.len() implies (
            #[trigger] self@.components[j]).mode() == old(self)@.components[j].mode() by {
                assert(self@.components[j] == old(self)@.components[j].with_sink().with_config(
                    old(self)@.bindings,
                ));
            }
            lemma_visible_by_modes(
                self@.components,
                old(self)@.components,
                old(self)@.mode,
                old(self)@.components.len(),
            );
        }
    }

    /// Prepares every component for a screen of the given size, in the
    /// order in which they were registered, as is done once before the
    /// first cycle. The first component that cannot be prepared stops the
    /// start with its reason. None of the components fails, so the result
    /// is always a success, and no component changes.
    pub fn init_components(&mut self, size: Size) -> (r: Result<(), String>)
        requires
            old(self).wf(),
        ensures
            final(self).wf(),
            final(self)@ == old(self)@,
            r.is_ok(),
    {
        let mut i: usize = 0;
        while i < self.components.len()
            invariant
                0 <= i <= self.components@.len(),
                self.components@ == old(self).components@,
                self@ == old(self)@,
                self.wf(),
            decreases self.components.len() - i,
        {
            let ghost before = self.components@;
            match self.components[i].init(size) {
                Ok(_) => {},
                Err(reason) => {
                    return Err(reason);
                },
            }
            assert(self.components@ =~= before);
            i = i + 1;
        }
        Ok(())
    }

    /// Says what is to be painted: one drawing for each component in view,
    /// in their order, all for the same area. The loop paints them; where
    /// painting one fails, it reports the failure with `enqueue` as an
    /// error action and goes on with the next.
    pub fn render(&mut self, area: Rect) -> (r: Vec<Drawing>)
        requires
            old(self).wf(),
        ensures
            final(self).wf(),
            final(self)@ == old(self)@.drawn(area, old(self)@.visible.len()),
            r@.len() == old(self)@.visible.len(),
            forall|k: int|
                0 <= k < r@.len() ==> (#[trigger] r@[k]).shows(
                    old(self)@.components[old(self)@.visible[k]],
                    area,
                ),
    {
        proof {
            lemma_visible_in_range(
                old(self)@.components,
                old(self)@.mode,
                old(self)@.components.len(),
            );
            lemma_visible_rises(old(self)@.components, old(self)@.mode, old(self)@.components.len());
        }
        let mut drawings: Vec<Drawing> = Vec::new();
        let mut k: usize = 0;
        while k < self.current_mode_components.len()
            invariant
                0 <= k <= self.current_mode_components@.len(),
                self.current_mode_components == old(self).current_mode_components,
                self.components@.len() == old(self).components@.len(),
                old(self)@.visible == places_view(self.current_mode_components@),
                forall|j: int|
                    0 <= j < old(self)@.visible.len() ==> 0 <= (#[trigger] old(self)@.visible[j])
                        < old(self)@.components.len(),
                forall|i: int, j: int|
                    0 <= i < j < old(self)@.visible.len() ==> old(self)@.visible[i] < old(
                        self,
                    )@.visible[j],
                forall|i: int|
                    0 <= i < self.components@.len() ==> (#[trigger] self.components@[i]).wf(),
                self@ == old(self)@.drawn(area, k as nat),
                drawings@.len() == k,
                forall|j: int|
                    0 <= j < k ==> (#[trigger] drawings@[j]).shows(
                        old(self)@.components[old(self)@.visible[j]],
                        area,
                    ),
            decreases self.current_mode_components.len() - k,
        {
            let place: usize = self.current_mode_components[k];
            assert(old(self)@.visible[k as int] == place);
            let ghost before = self.components@;
            proof {
                lemma_drawn_keeps_view(old(self)@, area, k as nat);
                assert(forall|j: int| 0 <= j < k ==> old(self)@.visible[j] != place);
                assert(self@.components[place as int] == old(self)@.components[place as int]);
                assert(before[place as int]@ == components_view(before)[place as int]);
            }
            let drawing = self.components[place].draw(area);
            assert(components_view(self.components@) =~= components_view(before).update(
                place as int,
                before[place as int]@.after_draw(area),
            ));
            drawings.push(drawing);
            k = k + 1;
        }
        proof {
            lemma_drawn_keeps_view(old(self)@, area, old(self)@.visible.len());
            lemma_visible_by_modes(
                self@.components,
                old(self)@.components,
                old(self)@.mode,
                old(self)@.components.len(),
            );
        }
        drawings
    }

    /// Hands out the key that waits for the focused field of the component
    /// at `place`, where that component is the form and a key waits.
    pub fn take_input(&mut self, place: usize) -> (r: Option<(Field, KeyEvent)>)
        requires
            old(self).wf(),
            place < old(self)@.components.len(),
        ensures
            final(self).wf(),
            final(self)@ == (AppModel {
                components: old(self)@.components.update(
                    place as int,
                    old(self)@.components[place as int].after_take_input(),
                ),
                ..old(self)@
            }),
            r == old(self)@.components[place as int].pending_input(),
    {
        let ghost before = self.components@;
        assert(before[place as int]@ == components_view(before)[place as int]);
        let taken = self.components[place].take_input();
        proof {
            assert(components_view(self.components@) =~= components_view(before).update(
                place as int,
                before[place as int]@.after_take_input(),
            ));
            assert forall|j: int| 0 <= j < self@.components.len() implies (
            #[trigger] self@.components[j]).mode() == old(self)@.components[j].mode() by {}
            lemma_visible_by_modes(
                self@.components,
                old(self)@.components,
                old(self)@.mode,
                old(self)@.components.len(),
            );
        }
        taken
    }
}

} // verus!
