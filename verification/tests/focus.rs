use job_tracker::focus::FocusIndex;

#[test]
fn thirteen_steps_over_twelve_targets_end_on_the_second() {
    let mut focus = FocusIndex::new(12);
    for _ in 0..13 {
        focus.advance();
    }
    assert_eq!(focus.current(), Some(1));
}

#[test]
fn a_full_cycle_returns_to_the_start() {
    for count in 1..20usize {
        for start in 0..count {
            let mut focus = FocusIndex::new(count);
            focus.set(start);
            for _ in 0..count {
                focus.advance();
            }
            assert_eq!(focus.current(), Some(start));
        }
    }
}

#[test]
fn retreat_undoes_advance() {
    for start in 0..5usize {
        let mut focus = FocusIndex::new(5);
        focus.set(start);
        focus.advance();
        focus.retreat();
        assert_eq!(focus.current(), Some(start));
        focus.retreat();
        focus.advance();
        assert_eq!(focus.current(), Some(start));
    }
}

#[test]
fn advance_wraps_to_the_first_and_retreat_to_the_last() {
    let mut focus = FocusIndex::new(3);
    focus.set(2);
    focus.advance();
    assert_eq!(focus.current(), Some(0));
    focus.retreat();
    assert_eq!(focus.current(), Some(2));
}

#[test]
fn without_targets_there_is_no_focus() {
    let mut focus = FocusIndex::new(0);
    assert_eq!(focus.current(), None);
    focus.advance();
    assert_eq!(focus.current(), None);
    focus.retreat();
    assert_eq!(focus.current(), None);
    focus.set(7);
    assert_eq!(focus.current(), None);
    assert_eq!(focus.count(), 0);
}

#[test]
fn set_wraps_into_the_range() {
    let mut focus = FocusIndex::new(4);
    focus.set(3);
    assert_eq!(focus.current(), Some(3));
    focus.set(4);
    assert_eq!(focus.current(), Some(0));
    focus.set(10);
    assert_eq!(focus.current(), Some(2));
}

#[test]
fn reset_points_at_the_first_of_the_new_targets() {
    let mut focus = FocusIndex::new(4);
    focus.set(3);
    focus.reset(2);
    assert_eq!(focus.count(), 2);
    assert_eq!(focus.current(), Some(0));
    focus.reset(0);
    assert_eq!(focus.current(), None);
}
