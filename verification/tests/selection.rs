use led_preview::selection::SelectionState;

#[test]
fn advance_from_beyond_the_bound_wraps_to_zero() {
    let mut state = SelectionState::new(14, 13);
    assert_eq!(state.read(), 14);
    state.advance();
    assert_eq!(state.read(), 0);
}

#[test]
fn advance_counts_up_and_wraps_at_the_bound() {
    let mut state = SelectionState::new(10, 13);
    state.advance();
    assert_eq!(state.read(), 11);
    state.advance();
    assert_eq!(state.read(), 12);
    state.advance();
    assert_eq!(state.read(), 0);
    state.advance();
    assert_eq!(state.read(), 1);
}

#[test]
fn a_full_cycle_returns_to_the_start() {
    for effect_count in 1..20usize {
        for start in 0..effect_count {
            let mut state = SelectionState::new(start, effect_count);
            for _ in 0..effect_count {
                state.advance();
            }
            assert_eq!(state.read(), start);
        }
    }
}

#[test]
fn a_full_cycle_from_outside_does_not_return() {
    let mut state = SelectionState::new(14, 13);
    for _ in 0..13 {
        state.advance();
    }
    assert_eq!(state.read(), 12);
}

#[test]
fn advance_visits_every_index_below_the_bound() {
    let mut state = SelectionState::new(14, 13);
    let mut seen: Vec<usize> = Vec::new();
    for _ in 0..13 {
        state.advance();
        seen.push(state.read());
    }
    assert_eq!(seen, vec![0, 1, 2, 3, 4, 5, 6, 7, 8, 9, 10, 11, 12]);
}

#[test]
fn advance_with_a_cycle_of_zero_or_one_stays_at_zero() {
    let mut none = SelectionState::new(5, 0);
    none.advance();
    assert_eq!(none.read(), 0);
    none.advance();
    assert_eq!(none.read(), 0);
    let mut one = SelectionState::new(0, 1);
    one.advance();
    assert_eq!(one.read(), 0);
}

#[test]
fn advance_at_the_largest_index_wraps_without_overflow() {
    let mut state = SelectionState::new(usize::MAX, 13);
    state.advance();
    assert_eq!(state.read(), 0);
    let mut wide = SelectionState::new(usize::MAX - 1, usize::MAX);
    wide.advance();
    assert_eq!(wide.read(), 0);
    let mut wider = SelectionState::new(usize::MAX - 2, usize::MAX);
    wider.advance();
    assert_eq!(wider.read(), usize::MAX - 1);
}
