//! Key presses, the table that binds sequences of them to actions, and the
//! matcher that resolves what the user types.

use crate::action::{Action, ActionView};
use vstd::prelude::*;

verus! {

/// The key that was pressed.
#[derive(Debug, Clone, Copy, PartialEq, Eq, Hash, Structural)]
pub enum KeyCode {
    Backspace,
    Enter,
    Left,
    Right,
    Up,
    Down,
    Home,
    End,
    PageUp,
    PageDown,
    Tab,
    BackTab,
    Delete,
    Insert,
    /// A function key, by its number.
    F(u8),
    /// A character key.
    Char(char),
    Null,
    Esc,
    CapsLock,
    ScrollLock,
    NumLock,
    PrintScreen,
    Pause,
    Menu,
    KeypadBegin,
    /// A media key, by its number.
    Media(u8),
    /// A modifier key pressed alone, by its number.
    Modifier(u8),
}

/// Whether the key went down, is held, or came up.
#[derive(Debug, Clone, Copy, PartialEq, Eq, Hash, Structural)]
pub enum KeyEventKind {
    Press,
    Repeat,
    Release,
}

/// The bit of the shift key among the modifiers.
pub const SHIFT: u8 = 1;

/// The bit of the control key among the modifiers.
pub const CONTROL: u8 = 2;

/// The bit of the alt key among the modifiers.
pub const ALT: u8 = 4;

/// No modifier, and no state.
pub const NONE: u8 = 0;

/// One key event: the key, the modifiers held with it as a set of bits,
/// the kind of event, and the keyboard state as a set of bits.
#[derive(Debug, Clone, Copy)]
pub struct KeyEvent {
    pub code: KeyCode,
    pub modifiers: u8,
    pub kind: KeyEventKind,
    pub state: u8,
}

/// Tells whether the character is a capital letter from A to Z.
pub open spec fn spec_is_upper(c: char) -> bool {
    65 <= c as u32 <= 90
}

/// The capital letter of a small letter from a to z; any other character as it is.
pub open spec fn spec_upper(c: char) -> char {
    if 97 <= c as u32 <= 122 {
        ((c as u32 - 32) as u8) as char
    } else {
        c
    }
}

fn is_upper(c: char) -> (r: bool)
    ensures
        r == spec_is_upper(c),
{
    let n: u32 = c as u32;
    65 <= n && n <= 90
}

fn upper(c: char) -> (r: char)
    ensures
        r == spec_upper(c),
{
    let n: u32 = c as u32;
    if 97 <= n && n <= 122 {
        let m: u8 = (n - 32) as u8;
        m as char
    } else {
        c
    }
}

impl KeyEvent {
    /// The press of a key with the given modifiers.
    pub fn new(code: KeyCode, modifiers: u8) -> (r: KeyEvent)
        ensures
            r == (KeyEvent { code, modifiers, kind: KeyEventKind::Press, state: NONE }),
    {
        KeyEvent { code, modifiers, kind: KeyEventKind::Press, state: NONE }
    }

    /// Control and `q`, pressed.
    pub open spec fn spec_quit_key() -> KeyEvent {
        KeyEvent { code: KeyCode::Char('q'), modifiers: CONTROL, kind: KeyEventKind::Press, state: NONE }
    }

    /// The event in the form in which events are compared: a capital letter
    /// always carries the shift bit, and a small letter typed with shift
    /// stands as its capital.
    pub open spec fn spec_normalized(self) -> KeyEvent {
        match self.code {
            KeyCode::Char(c) => {
                if spec_is_upper(c) {
                    KeyEvent { modifiers: self.modifiers | SHIFT, ..self }
                } else if self.modifiers & SHIFT != 0 {
                    KeyEvent { code: KeyCode::Char(spec_upper(c)), ..self }
                } else {
                    self
                }
            },
            _ => self,
        }
    }

    /// The event in the form in which events are compared.
    pub fn normalized(self) -> (r: KeyEvent)
        ensures
            r == self.spec_normalized(),
    {
        match self.code {
            KeyCode::Char(c) => {
                if is_upper(c) {
                    KeyEvent {
                        code: self.code,
                        modifiers: self.modifiers | SHIFT,
                        kind: self.kind,
                        state: self.state,
                    }
                } else if self.modifiers & SHIFT != 0 {
                    KeyEvent {
                        code: KeyCode::Char(upper(c)),
                        modifiers: self.modifiers,
                        kind: self.kind,
                        state: self.state,
                    }
                } else {
                    self
                }
            },
            _ => self,
        }
    }

    /// Tells whether two events count as the same key press.
    pub fn same(&self, other: &KeyEvent) -> (r: bool)
        ensures
            r == (self.spec_normalized() == other.spec_normalized()),
    {
        let a = self.normalized();
        let b = other.normalized();
        a.code == b.code && a.modifiers == b.modifiers && a.kind == b.kind && a.state == b.state
    }
}

impl PartialEq for KeyEvent {
    /// Two events are equal when they count as the same key press.
    fn eq(&self, other: &KeyEvent) -> (r: bool) {
        self.same(other)
    }
}

impl Eq for KeyEvent {

}

impl vstd::std_specs::cmp::PartialEqSpecImpl for KeyEvent {
    open spec fn obeys_eq_spec() -> bool {
        true
    }

    open spec fn eq_spec(&self, other: &KeyEvent) -> bool {
        self.spec_normalized() == other.spec_normalized()
    }
}

/// The events of a sequence, each in the form in which events are compared.
pub open spec fn normalized_keys(keys: Seq<KeyEvent>) -> Seq<KeyEvent> {
    keys.map_values(|k: KeyEvent| k.spec_normalized())
}

/// Tells whether two sequences hold the same key presses in the same order.
pub fn same_keys(a: &Vec<KeyEvent>, b: &Vec<KeyEvent>) -> (r: bool)
    ensures
        r == (normalized_keys(a@) == normalized_keys(b@)),
{
    if a.len() != b.len() {
        assert(normalized_keys(a@).len() != normalized_keys(b@).len());
        return false;
    }
    let mut i: usize = 0;
    while i < a.len()
        invariant
            0 <= i <= a.len(),
            a.len() == b.len(),
            forall|k: int| 0 <= k < i ==> a@[k].spec_normalized() == b@[k].spec_normalized(),
        decreases a.len() - i,
    {
        if !a[i].same(&b[i]) {
            assert(normalized_keys(a@)[i as int] != normalized_keys(b@)[i as int]);
            return false;
        }
        i = i + 1;
    }
    assert(normalized_keys(a@) =~= normalized_keys(b@));
    true
}

/// One entry of the table: a sequence of key presses and the action bound to it.
pub struct Binding {
    pub keys: Vec<KeyEvent>,
    pub action: Action,
}

/// The table that a list of entries stands for. Where a sequence occurs
/// more than once, the entry that was added last counts.
pub open spec fn table_of(entries: Seq<Binding>) -> Map<Seq<KeyEvent>, ActionView>
    decreases entries.len(),
{
    if entries.len() == 0 {
        Map::empty()
    } else {
        table_of(entries.drop_last()).insert(
            normalized_keys(entries.last().keys@),
            entries.last().action@,
        )
    }
}

/// The key bindings: a table from sequences of key presses to actions.
pub struct KeyBindings {
    entries: Vec<Binding>,
}

impl View for KeyBindings {
    type V = Map<Seq<KeyEvent>, ActionView>;

    closed spec fn view(&self) -> Map<Seq<KeyEvent>, ActionView> {
        table_of(self.entries@)
    }
}

impl KeyBindings {
    /// A table without bindings.
    pub fn new() -> (r: KeyBindings)
        ensures
            r@ == Map::<Seq<KeyEvent>, ActionView>::empty(),
    {
        KeyBindings { entries: Vec::new() }
    }

    /// Binds the sequence to the action. An earlier binding of the same
    /// sequence is replaced.
    pub fn insert(&mut self, keys: Vec<KeyEvent>, action: Action)
        ensures
            final(self)@ == old(self)@.insert(normalized_keys(keys@), action@),
    {
        self.entries.push(Binding { keys, action });
        assert(self.entries@.drop_last() =~= old(self).entries@);
    }

    /// An owned copy of the table, with the same bindings.
    pub fn copy(&self) -> (r: KeyBindings)
        ensures
            r@ == self@,
    {
        let mut entries: Vec<Binding> = Vec::new();
        let mut i: usize = 0;
        assert(self.entries@.take(0) =~= Seq::<Binding>::empty());
        while i < self.entries.len()
            invariant
                0 <= i <= self.entries@.len(),
                entries@.len() == i,
                table_of(entries@) == table_of(self.entries@.take(i as int)),
            decreases self.entries.len() - i,
        {
            let ghost before = entries@;
            let mut keys: Vec<KeyEvent> = Vec::new();
            let mut j: usize = 0;
            while j < self.entries[i].keys.len()
                invariant
                    0 <= i < self.entries@.len(),
                    0 <= j <= self.entries@[i as int].keys@.len(),
                    keys@ == self.entries@[i as int].keys@.take(j as int),
                decreases self.entries@[i as int].keys@.len() - j,
            {
                keys.push(self.entries[i].keys[j]);
                assert(keys@ =~= self.entries@[i as int].keys@.take(j as int + 1));
                j = j + 1;
            }
            assert(keys@ =~= self.entries@[i as int].keys@);
            entries.push(Binding { keys, action: self.entries[i].action.copy() });
            proof {
                assert(entries@.drop_last() =~= before);
                assert(self.entries@.take(i as int + 1).drop_last() =~= self.entries@.take(i as int));
                assert(self.entries@.take(i as int + 1).last() == self.entries@[i as int]);
            }
            i = i + 1;
        }
        assert(self.entries@.take(self.entries@.len() as int) =~= self.entries@);
        KeyBindings { entries }
    }

    /// The action bound to the sequence, if there is one.
    pub fn get(&self, keys: &Vec<KeyEvent>) -> (r: Option<&Action>)
        ensures
            match r {
                Some(action) => self@.contains_key(normalized_keys(keys@)) && self@[normalized_keys(
                    keys@,
                )] == action@,
                None => !self@.contains_key(normalized_keys(keys@)),
            },
    {
        let ghost wanted = normalized_keys(keys@);
        let mut i: usize = self.entries.len();
        assert(self.entries@.take(i as int) =~= self.entries@);
        while i > 0
            invariant
                0 <= i <= self.entries.len(),
                wanted == normalized_keys(keys@),
                table_of(self.entries@).contains_key(wanted) == table_of(
                    self.entries@.take(i as int),
                ).contains_key(wanted),
                table_of(self.entries@.take(i as int)).contains_key(wanted) ==> table_of(
                    self.entries@,
                )[wanted] == table_of(self.entries@.take(i as int))[wanted],
            decreases i,
        {
            let ghost part = self.entries@.take(i as int);
            assert(part.drop_last() =~= self.entries@.take(i as int - 1));
            assert(part.last() == self.entries@[i as int - 1]);
            i = i - 1;
            if same_keys(&self.entries[i].keys, keys) {
                return Some(&self.entries[i].action);
            }
        }
        None
    }
}

impl Default for KeyBindings {
    /// The bindings that the application starts with: control and `q` quits.
    fn default() -> (r: KeyBindings)
        ensures
            r@ == Map::<Seq<KeyEvent>, ActionView>::empty().insert(
                normalized_keys(seq![KeyEvent::spec_quit_key()]),
                ActionView::Quit,
            ),
    {
        let mut table = KeyBindings::new();
        let mut keys: Vec<KeyEvent> = Vec::new();
        keys.push(KeyEvent::new(KeyCode::Char('q'), CONTROL));
        assert(keys@ =~= seq![KeyEvent::spec_quit_key()]);
        table.insert(keys, Action::Quit);
        table
    }
}

/// What the matcher holds after a key press: a key that is bound alone
/// leaves the buffer as it was, any other key is added at its end.
pub open spec fn spec_buffer_after(
    buffer: Seq<KeyEvent>,
    key: KeyEvent,
    table: Map<Seq<KeyEvent>, ActionView>,
) -> Seq<KeyEvent> {
    if table.contains_key(normalized_keys(seq![key])) {
        buffer
    } else {
        buffer.push(key)
    }
}

/// The action that a key press gives: the binding of the key alone if
/// there is one; else the binding of the whole buffer with the key at its
/// end, if there is one; else nothing.
pub open spec fn spec_emitted(
    buffer: Seq<KeyEvent>,
    key: KeyEvent,
    table: Map<Seq<KeyEvent>, ActionView>,
) -> Option<ActionView> {
    let single = normalized_keys(seq![key]);
    let whole = normalized_keys(buffer.push(key));
    if table.contains_key(single) {
        Some(table[single])
    } else if table.contains_key(whole) {
        Some(table[whole])
    } else {
        None
    }
}

/// An idle matcher resolves a key by the binding of the key alone: with
/// nothing held, the whole buffer is the key itself.
pub proof fn lemma_idle_press(key: KeyEvent, table: Map<Seq<KeyEvent>, ActionView>)
    ensures
        spec_emitted(Seq::<KeyEvent>::empty(), key, table) == (if table.contains_key(
            normalized_keys(seq![key]),
        ) {
            Some(table[normalized_keys(seq![key])])
        } else {
            None
        }),
{
    assert(Seq::<KeyEvent>::empty().push(key) =~= seq![key]);
}

/// A key that is bound alone gives its action whatever the matcher holds,
/// and leaves what the matcher holds as it is.
pub proof fn lemma_single_key_wins(
    buffer: Seq<KeyEvent>,
    key: KeyEvent,
    table: Map<Seq<KeyEvent>, ActionView>,
)
    requires
        table.contains_key(normalized_keys(seq![key])),
    ensures
        spec_emitted(buffer, key, table) == Some(table[normalized_keys(seq![key])]),
        spec_buffer_after(buffer, key, table) == buffer,
{
}

/// What an optional action holds.
pub open spec fn optional_action_view(action: Option<Action>) -> Option<ActionView> {
    match action {
        Some(a) => Some(a@),
        None => None,
    }
}

/// Resolves key presses to bound actions. It is idle while its buffer is
/// empty, and accumulating while the buffer holds presses that have not
/// been cleared yet.
pub struct KeySequenceMatcher {
    buffer: Vec<KeyEvent>,
}

impl View for KeySequenceMatcher {
    type V = Seq<KeyEvent>;

    closed spec fn view(&self) -> Seq<KeyEvent> {
        self.buffer@
    }
}

impl KeySequenceMatcher {
    /// An idle matcher.
    pub fn new() -> (r: KeySequenceMatcher)
        ensures
            r@ == Seq::<KeyEvent>::empty(),
    {
        KeySequenceMatcher { buffer: Vec::new() }
    }

    /// Takes one key press and gives the action bound to it, if any.
    pub fn press(&mut self, key: KeyEvent, bindings: &KeyBindings) -> (r: Option<Action>)
        ensures
            final(self)@ == spec_buffer_after(old(self)@, key, bindings@),
            optional_action_view(r) == spec_emitted(old(self)@, key, bindings@),
    {
        let mut single: Vec<KeyEvent> = Vec::new();
        single.push(key);
        assert(single@ =~= seq![key]);
        match bindings.get(&single) {
            Some(action) => Some(action.copy()),
            None => {
                self.buffer.push(key);
                match bindings.get(&self.buffer) {
                    Some(action) => Some(action.copy()),
                    None => None,
                }
            },
        }
    }

    /// Forgets the key presses held so far.
    pub fn clear(&mut self)
        ensures
            final(self)@ == Seq::<KeyEvent>::empty(),
    {
        self.buffer.clear();
    }

    /// The key presses held so far, in the order in which they came.
    pub fn pending(&self) -> (r: &Vec<KeyEvent>)
        ensures
            r@ == self@,
    {
        &self.buffer
    }
}

} // verus!
