use job_tracker::action::Action;
use job_tracker::keys::{
    same_keys, KeyBindings, KeyCode, KeyEvent, KeyEventKind, KeySequenceMatcher, CONTROL, NONE,
    SHIFT,
};

fn key(c: char) -> KeyEvent {
    KeyEvent::new(KeyCode::Char(c), NONE)
}

fn chord_table() -> KeyBindings {
    let mut table = KeyBindings::new();
    table.insert(vec![key('a')], Action::Help);
    table.insert(vec![key('a'), key('b')], Action::Suspend);
    table
}

#[test]
fn a_key_bound_alone_wins_over_the_sequence_it_starts() {
    let table = chord_table();
    let mut matcher = KeySequenceMatcher::new();
    assert_eq!(matcher.press(key('a'), &table), Some(Action::Help));
    assert!(matcher.pending().is_empty());
}

#[test]
fn an_unbound_key_is_held_and_the_next_single_key_still_matches() {
    let table = chord_table();
    let mut matcher = KeySequenceMatcher::new();
    assert_eq!(matcher.press(key('b'), &table), None);
    assert_eq!(matcher.pending().len(), 1);
    assert_eq!(matcher.press(key('a'), &table), Some(Action::Help));
    assert_eq!(matcher.pending().len(), 1);
}

#[test]
fn a_sequence_matches_when_its_keys_are_not_bound_alone() {
    let mut table = KeyBindings::new();
    table.insert(vec![key('g'), key('g')], Action::IndexPrevious);
    table.insert(vec![key('g'), key('g'), key('x')], Action::IndexNext);
    let mut matcher = KeySequenceMatcher::new();
    assert_eq!(matcher.press(key('g'), &table), None);
    assert_eq!(matcher.press(key('g'), &table), Some(Action::IndexPrevious));
    assert_eq!(matcher.pending().len(), 2);
    assert_eq!(matcher.press(key('x'), &table), Some(Action::IndexNext));
    assert_eq!(matcher.press(key('g'), &table), None);
    assert_eq!(matcher.pending().len(), 4);
}

#[test]
fn clearing_makes_the_matcher_forget_a_prefix() {
    let mut table = KeyBindings::new();
    table.insert(vec![key('a'), key('b')], Action::Suspend);
    let mut matcher = KeySequenceMatcher::new();
    assert_eq!(matcher.press(key('a'), &table), None);
    matcher.clear();
    assert!(matcher.pending().is_empty());
    assert_eq!(matcher.press(key('b'), &table), None);
    assert_eq!(matcher.pending().len(), 1);
}

#[test]
fn without_clearing_the_prefix_completes_the_sequence() {
    let mut table = KeyBindings::new();
    table.insert(vec![key('a'), key('b')], Action::Suspend);
    let mut matcher = KeySequenceMatcher::new();
    assert_eq!(matcher.press(key('a'), &table), None);
    assert_eq!(matcher.press(key('b'), &table), Some(Action::Suspend));
}

#[test]
fn the_default_table_binds_control_q_to_quit() {
    let table = KeyBindings::default();
    let quit = vec![KeyEvent::new(KeyCode::Char('q'), CONTROL)];
    assert_eq!(table.get(&quit), Some(&Action::Quit));
    assert_eq!(table.get(&vec![key('q')]), None);
    assert_eq!(table.get(&Vec::new()), None);
}

#[test]
fn a_later_binding_replaces_an_earlier_one() {
    let mut table = KeyBindings::new();
    table.insert(vec![key('x')], Action::Help);
    table.insert(vec![key('y')], Action::Quit);
    table.insert(vec![key('x')], Action::Render);
    assert_eq!(table.get(&vec![key('x')]), Some(&Action::Render));
    assert_eq!(table.get(&vec![key('y')]), Some(&Action::Quit));
}

#[test]
fn a_capital_letter_equals_the_small_letter_with_shift() {
    let capital = KeyEvent::new(KeyCode::Char('A'), NONE);
    let shifted = KeyEvent::new(KeyCode::Char('a'), SHIFT);
    assert!(capital.same(&shifted));
    assert!(capital == shifted);
    assert!(!capital.same(&key('a')));
    assert_eq!(shifted.normalized().code, KeyCode::Char('A'));
    assert_eq!(capital.normalized().modifiers, SHIFT);
    assert_eq!(key('a').normalized().code, KeyCode::Char('a'));
    let tab = KeyEvent::new(KeyCode::Tab, SHIFT);
    assert_eq!(tab.normalized().code, KeyCode::Tab);
    assert_eq!(tab.normalized().modifiers, SHIFT);
}

#[test]
fn events_differ_by_kind_state_and_modifiers() {
    let press = key('a');
    let release = KeyEvent { kind: KeyEventKind::Release, ..press };
    let keypad = KeyEvent { state: 1, ..press };
    let control = KeyEvent { modifiers: CONTROL, ..press };
    assert!(!press.same(&release));
    assert!(!press.same(&keypad));
    assert!(!press.same(&control));
    assert!(press.same(&press));
}

#[test]
fn sequences_are_compared_key_by_key() {
    assert!(same_keys(&vec![key('a'), key('b')], &vec![key('a'), key('b')]));
    assert!(!same_keys(&vec![key('a'), key('b')], &vec![key('b'), key('a')]));
    assert!(!same_keys(&vec![key('a')], &vec![key('a'), key('a')]));
    assert!(same_keys(&Vec::new(), &Vec::new()));
    assert!(same_keys(
        &vec![KeyEvent::new(KeyCode::Char('Z'), NONE)],
        &vec![KeyEvent::new(KeyCode::Char('z'), SHIFT)]
    ));
}

#[test]
fn a_copy_of_the_table_holds_the_same_bindings() {
    let mut table = chord_table();
    table.insert(vec![key('a')], Action::Render);
    let copy = table.copy();
    assert_eq!(copy.get(&vec![key('a')]), Some(&Action::Render));
    assert_eq!(copy.get(&vec![key('a'), key('b')]), Some(&Action::Suspend));
    assert_eq!(copy.get(&vec![key('b')]), None);
    assert_eq!(KeyBindings::new().copy().get(&vec![key('a')]), None);
}
