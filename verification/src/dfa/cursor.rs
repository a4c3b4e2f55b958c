//! Cursors: a position inside one automaton, for walking it state by state.

use vstd::prelude::*;
use super::{step, Dfa, State, StateId, StateView};

verus! {

/// A cursor into a DFA
#[derive(Debug)]
pub struct DfaState<'a> {
    dfa: &'a Dfa,
    current: StateId,
}

impl<'a> DfaState<'a> {
    #[verifier::type_invariant]
    spec fn bound_to_a_state(self) -> bool {
        self.dfa.wf() && self.current@ < self.dfa@.len()
    }

    /// The automaton this cursor walks.
    pub closed spec fn automaton(&self) -> Seq<StateView> {
        self.dfa@
    }

    /// The position of the state this cursor stands on.
    pub closed spec fn position(&self) -> nat {
        self.current@
    }

    /// Binds a cursor to the state `current` of `dfa`.
    pub fn new(dfa: &'a Dfa, current: StateId) -> (cursor: Self)
        requires
            dfa.wf(),
            current@ < dfa@.len(),
        ensures
            cursor.automaton() == dfa@,
            cursor.position() == current@,
    {
        Self { dfa, current }
    }

    /// Initiate a transition from the current state to the next state based on the given input
    ///
    /// Returns a cursor to the next state or `None` if no transition for the given input exists.
    pub fn transition(&self, input: u8) -> (next: Option<Self>)
        ensures
            match next {
                Some(cursor) => {
                    &&& cursor.automaton() == self.automaton()
                    &&& step(self.automaton(), self.position(), input) == Some(cursor.position())
                },
                None => step(self.automaton(), self.position(), input) is None,
            },
    {
        proof {
            use_type_invariant(self);
        }
        match self.state().lookup_transition(input) {
            Some(next_state) => Some(Self::new(self.dfa, next_state)),
            None => None,
        }
    }

    /// Returns true if this is an accept state
    pub fn is_accepted(&self) -> (accepted: bool)
        ensures
            accepted == self.automaton()[self.position() as int].accept,
    {
        self.state().accepts()
    }

    fn state(&self) -> (state: &State)
        ensures
            state@ == self.automaton()[self.position() as int],
    {
        proof {
            use_type_invariant(self);
        }
        self.dfa.state(self.current)
    }
}

/// A mutable cursor into a DFA
///
/// It can do one thing to the automaton it borrows: mark the state it
/// stands on as accepting. Its fields are public so that this can be said in
/// terms of the borrow: from there a caller knows what the automaton is once
/// the cursor is gone.
#[derive(Debug)]
pub struct DfaStateMut<'a> {
    /// The automaton, borrowed for as long as the cursor lives.
    pub dfa: &'a mut Dfa,
    /// The state the cursor stands on.
    pub current: StateId,
}

impl<'a> DfaStateMut<'a> {
    /// Binds a cursor to the state `current` of `dfa`.
    pub fn new(dfa: &'a mut Dfa, current: StateId) -> (cursor: Self)
        ensures
            *cursor.dfa == *old(dfa),
            *final(cursor.dfa) == *final(dfa),
            cursor.current == current,
    {
        Self { dfa, current }
    }

    /// Mark this state as an accept state
    pub fn mark_accept(&mut self)
        requires
            old(self).current@ < old(self).dfa@.len(),
        ensures
            final(self).current == old(self).current,
            *final(final(self).dfa) == *final(old(self).dfa),
            final(self).dfa@ == old(self).dfa@.update(
                old(self).current@ as int,
                (StateView { accept: true, ..old(self).dfa@[old(self).current@ as int] }),
            ),
            old(self).dfa.wf() ==> final(self).dfa.wf(),
    {
        self.state_mut().mark_accept();
    }

    fn state_mut(&mut self) -> (state: &mut State)
        requires
            old(self).current@ < old(self).dfa@.len(),
        ensures
            state@ == old(self).dfa@[old(self).current@ as int],
            final(self).current == old(self).current,
            *final(final(self).dfa) == *final(old(self).dfa),
            final(self).dfa@ == old(self).dfa@.update(old(self).current@ as int, final(state)@),
    {
        self.dfa.state_mut(self.current)
    }
}

} // verus!
