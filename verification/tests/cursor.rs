use dfa_regex::dfa::{Dfa, DfaState, DfaStateMut};

/// start --a--> middle --b--> end (accepting)
fn chain_ab() -> Dfa {
    let mut dfa = Dfa::default();
    let start = dfa.start_id();
    let middle = dfa.push_state();
    let end = dfa.push_state();
    dfa.state_mut(start).add_transition(b'a', middle);
    dfa.state_mut(middle).add_transition(b'b', end);
    dfa.state_mut(end).mark_accept();
    dfa
}

#[test]
fn start_cursor_stands_on_the_start_state() {
    let mut dfa = Dfa::default();
    assert!(!dfa.start().is_accepted());
    let start = dfa.start_id();
    dfa.state_mut(start).mark_accept();
    assert!(dfa.start().is_accepted());
}

#[test]
fn transition_walks_the_chain() {
    let dfa = chain_ab();
    let at_start = dfa.start();
    assert!(!at_start.is_accepted());
    let at_middle = at_start.transition(b'a').expect("start has a transition for a");
    assert!(!at_middle.is_accepted());
    let at_end = at_middle.transition(b'b').expect("middle has a transition for b");
    assert!(at_end.is_accepted());
    assert!(at_end.transition(b'a').is_none());
    assert!(at_end.transition(b'b').is_none());
}

#[test]
fn transition_leaves_the_cursor_where_it_was() {
    let dfa = chain_ab();
    let at_start = dfa.start();
    let first = at_start.transition(b'a');
    let again = at_start.transition(b'a');
    assert!(first.is_some());
    assert!(again.is_some());
    assert!(!at_start.is_accepted());
    assert!(at_start.transition(b'b').is_none());
}

#[test]
fn transition_on_unmapped_input_is_none() {
    let dfa = chain_ab();
    let at_start = dfa.start();
    for byte in 0..=255u8 {
        assert_eq!(at_start.transition(byte).is_some(), byte == b'a');
    }
}

#[test]
fn cursor_can_be_bound_to_any_state() {
    let mut dfa = Dfa::default();
    let start = dfa.start_id();
    let middle = dfa.push_state();
    let end = dfa.push_state();
    dfa.state_mut(start).add_transition(b'a', middle);
    dfa.state_mut(middle).add_transition(b'b', end);
    dfa.state_mut(end).mark_accept();

    assert!(DfaState::new(&dfa, end).is_accepted());
    let at_middle = DfaState::new(&dfa, middle);
    assert!(!at_middle.is_accepted());
    assert!(at_middle.transition(b'a').is_none());
    assert!(at_middle.transition(b'b').expect("middle leads to end").is_accepted());
}

#[test]
fn mutable_cursor_marks_its_state_as_accepting() {
    let mut dfa = Dfa::default();
    let start = dfa.start_id();
    let other = dfa.push_state();
    dfa.state_mut(start).add_transition(b'a', other);

    DfaStateMut::new(&mut dfa, other).mark_accept();

    assert!(dfa.state(other).accepts());
    assert!(!dfa.state(start).accepts());
    assert_eq!(dfa.len(), 2);
    assert_eq!(dfa.state(start).lookup_transition(b'a'), Some(other));
    assert!(dfa.match_bytes(b"a"));
    assert!(!dfa.match_bytes(b""));
}

#[test]
fn mutable_cursor_marking_twice_is_the_same_as_once() {
    let mut dfa = Dfa::default();
    let start = dfa.start_id();
    let mut cursor = DfaStateMut::new(&mut dfa, start);
    cursor.mark_accept();
    cursor.mark_accept();
    assert!(dfa.state(start).accepts());
    assert!(dfa.match_bytes(b""));
}

#[test]
fn cursors_print_for_debugging() {
    let mut dfa = Dfa::default();
    let start = dfa.start_id();
    assert!(format!("{:?}", dfa.start()).starts_with("DfaState"));
    assert!(format!("{:?}", DfaStateMut::new(&mut dfa, start)).starts_with("DfaStateMut"));
}
