//! The automaton: states, transitions and accept marking.
//!
//! An automaton is modelled as a sequence of [`StateView`]s, the start state
//! first. What it means to read input is said once, by [`run`] and
//! [`accepts`], and every operation below is stated against that model.

use vstd::prelude::*;
use vstd::pervasive::unreached;
use fxhash::FxHashMap;

mod cursor;
mod table;

pub use cursor::{DfaState, DfaStateMut};

verus! {

/// The largest number of states an automaton can hold: one for each value of
/// the 16-bit state identifier.
pub const MAX_STATES: usize = 65536;

/// Identifies a state by its position in the automaton that handed it out.
///
/// An identifier means nothing to any other automaton.
#[derive(Debug, Clone, Copy, PartialEq, Eq, Hash, Structural)]
pub struct StateId(u16);

impl View for StateId {
    type V = nat;

    /// The position this identifier stands for.
    closed spec fn view(&self) -> nat {
        self.0 as nat
    }
}

impl StateId {
    /// The position this identifier stands for.
    pub fn index(self) -> (i: usize)
        ensures
            i == self@,
            i < MAX_STATES,
    {
        self.0 as usize
    }
}

/// A state as a mathematical value.
pub struct StateView {
    /// The position the state was created for.
    pub id: nat,
    /// Whether input that ends in this state is accepted.
    pub accept: bool,
    /// Where each input byte leads. A byte without an entry leads nowhere.
    pub next: Map<u8, nat>,
}

impl StateView {
    /// The state a fresh identifier starts out as: rejecting, with no way out.
    pub open spec fn fresh(id: nat) -> StateView {
        StateView { id, accept: false, next: Map::empty() }
    }
}

/// What every automaton built through its own operations satisfies: there is
/// a start state, the states fit the identifier width, each state sits at the
/// position its identifier names, and no transition leads outside.
pub open spec fn well_formed(states: Seq<StateView>) -> bool {
    &&& 1 <= states.len() <= MAX_STATES
    &&& forall|i: int| 0 <= i < states.len() ==> (#[trigger] states[i]).id == i
    &&& forall|i: int, input: u8|
        0 <= i < states.len() && #[trigger] states[i].next.contains_key(input)
            ==> states[i].next[input] < states.len()
}

/// Where reading `input` in the state at position `from` leads, if anywhere.
pub open spec fn step(states: Seq<StateView>, from: nat, input: u8) -> Option<nat> {
    if states[from as int].next.contains_key(input) {
        Some(states[from as int].next[input])
    } else {
        None
    }
}

/// The position reached from the start state once all of `input` has been
/// read, or `None` if some byte had no transition to follow.
pub open spec fn run(states: Seq<StateView>, input: Seq<u8>) -> Option<nat>
    decreases input.len(),
{
    if input.len() == 0 {
        Some(0)
    } else {
        match run(states, input.drop_last()) {
            Some(state) => step(states, state, input.last()),
            None => None,
        }
    }
}

/// Whether the automaton accepts `input`: reading it from the start state
/// never gets stuck and ends in an accept state.
pub open spec fn accepts(states: Seq<StateView>, input: Seq<u8>) -> bool {
    match run(states, input) {
        Some(state) => states[state as int].accept,
        None => false,
    }
}

/// Once a prefix of the input has no transition to follow, reading further
/// cannot recover: the run of the whole input is stuck as well.
pub proof fn lemma_stuck_prefix_stays_stuck(states: Seq<StateView>, input: Seq<u8>, k: int)
    requires
        0 <= k <= input.len(),
        run(states, input.take(k)) is None,
    ensures
        run(states, input) is None,
    decreases input.len(),
{
    if k == input.len() {
        assert(input.take(k) =~= input);
    } else {
        assert(input.drop_last().take(k) =~= input.take(k));
        lemma_stuck_prefix_stays_stuck(states, input.drop_last(), k);
    }
}

/// One state of an automaton.
#[derive(Debug)]
pub struct State {
    id: StateId,
    /// If true, input that ends at this state is accepted.
    accept: bool,
    /// The states reachable from this one, keyed by the input that leads there.
    next_states: FxHashMap<u8, StateId>,
}

impl View for State {
    type V = StateView;

    closed spec fn view(&self) -> StateView {
        StateView {
            id: self.id@,
            accept: self.accept,
            next: self.next_states@.map_values(|target: StateId| target@),
        }
    }
}

impl Clone for State {
    fn clone(&self) -> (state: Self)
        ensures
            state@ == self@,
    {
        Self { id: self.id, accept: self.accept, next_states: self.next_states.clone() }
    }
}

impl State {
    /// A state for the position `id`: rejecting, with no transitions.
    pub fn new(id: StateId) -> (state: Self)
        ensures
            state@ == StateView::fresh(id@),
    {
        let state = Self { id, accept: false, next_states: table::table_new() };
        assert(state@.next =~= Map::empty());
        state
    }

    /// Records that reading `input` in this state leads to `next_state`.
    ///
    /// A state has at most one way out per input byte, so `input` must not
    /// have a transition yet.
    pub fn add_transition(&mut self, input: u8, next_state: StateId)
        requires
            !old(self)@.next.contains_key(input),
        ensures
            final(self)@ == (StateView {
                next: old(self)@.next.insert(input, next_state@),
                ..old(self)@
            }),
    {
        if table::table_contains_key(&self.next_states, input) {
            // Never silently replace a transition: a caller that got here
            // unverified is stopped.
            unreached::<()>();
        }
        table::table_insert(&mut self.next_states, input, next_state);
        assert(self@.next =~= old(self)@.next.insert(input, next_state@));
    }

    /// Mark this state as an accept state.
    pub fn mark_accept(&mut self)
        ensures
            final(self)@ == (StateView { accept: true, ..old(self)@ }),
    {
        self.accept = true;
    }

    /// The state that reading `input` leads to, if there is one.
    pub fn lookup_transition(&self, input: u8) -> (target: Option<StateId>)
        ensures
            match target {
                Some(id) => self@.next.contains_key(input) && id@ == self@.next[input],
                None => !self@.next.contains_key(input),
            },
    {
        match table::table_get(&self.next_states, input) {
            Some(target) => Some(*target),
            None => None,
        }
    }

    /// Whether input that ends at this state is accepted.
    pub fn accepts(&self) -> (accept: bool)
        ensures
            accept == self@.accept,
    {
        self.accept
    }
}

/// Deterministic finite automaton.
///
/// The states are kept in the order they were added; the first one is the
/// start state.
#[derive(Debug)]
pub struct Dfa {
    states: Vec<State>,
}

impl View for Dfa {
    type V = Seq<StateView>;

    closed spec fn view(&self) -> Seq<StateView> {
        self.states@.map_values(|state: State| state@)
    }
}

impl Clone for Dfa {
    fn clone(&self) -> (dfa: Self)
        ensures
            dfa@ == self@,
    {
        Self { states: self.states.clone() }
    }
}

impl Default for Dfa {
    /// An automaton with the start state alone: it accepts nothing.
    fn default() -> (dfa: Self)
        ensures
            dfa@ == seq![StateView::fresh(0)],
            dfa.wf(),
    {
        let mut dfa = Self { states: Vec::new() };
        // Must have at least one state. First state is the start state.
        dfa.push_state();
        dfa
    }
}

impl Dfa {
    /// Whether this automaton is well-formed. Walking an automaton asks for
    /// it; every operation of the automaton itself keeps it.
    pub open spec fn wf(&self) -> bool {
        well_formed(self@)
    }

    /// The number of states.
    pub fn len(&self) -> (n: usize)
        ensures
            n == self@.len(),
    {
        self.states.len()
    }

    /// Whether `id` names a state of this automaton, which is what `state`
    /// and `state_mut` ask of their argument.
    pub fn contains(&self, id: StateId) -> (found: bool)
        ensures
            found == (id@ < self@.len()),
    {
        id.index() < self.states.len()
    }

    /// Returns a cursor to the start state of the DFA
    pub fn start(&self) -> (cursor: DfaState<'_>)
        requires
            self.wf(),
        ensures
            cursor.automaton() == self@,
            cursor.position() == 0,
    {
        DfaState::new(self, self.start_id())
    }

    /// Returns the ID of the start state
    pub fn start_id(&self) -> (id: StateId)
        ensures
            id@ == 0,
    {
        // Start state is always the first state
        StateId(0)
    }

    /// Returns true if this DFA accepts the given bytes or false if the bytes are not accepted
    pub fn match_bytes(&self, bytes: &[u8]) -> (accepted: bool)
        requires
            self.wf(),
        ensures
            accepted == accepts(self@, bytes@),
    {
        let mut curr = self.start();
        let mut i: usize = 0;
        while i < bytes.len()
            invariant
                i <= bytes.len(),
                curr.automaton() == self@,
                run(self@, bytes@.take(i as int)) == Some(curr.position()),
            decreases bytes.len() - i,
        {
            proof {
                assert(bytes@.take(i + 1).drop_last() =~= bytes@.take(i as int));
            }
            curr = match curr.transition(bytes[i]) {
                Some(next) => next,
                None => {
                    proof {
                        lemma_stuck_prefix_stays_stuck(self@, bytes@, i + 1);
                    }
                    return false;
                },
            };
            i += 1;
        }
        proof {
            assert(bytes@.take(i as int) =~= bytes@);
        }
        curr.is_accepted()
    }

    /// Pushes a new empty state into the DFA and returns its ID
    ///
    /// There must be an identifier left for it.
    pub fn push_state(&mut self) -> (id: StateId)
        requires
            old(self)@.len() < MAX_STATES,
        ensures
            id@ == old(self)@.len(),
            final(self)@ == old(self)@.push(StateView::fresh(id@)),
            old(self).wf() ==> final(self).wf(),
    {
        let next_index = self.states.len();
        let id = match u16::try_from(next_index) {
            Ok(index) => StateId(index),
            // Never wrap around to an identifier already handed out: a
            // caller that got here unverified is stopped.
            Err(_) => unreached(),
        };
        self.states.push(State::new(id));
        id
    }

    /// Records that being in state `from` and reading `input` moves to state
    /// `to`.
    ///
    /// Both must be states of this automaton, and `from` must not have a
    /// transition for `input` yet.
    pub fn add_transition(&mut self, from: StateId, input: u8, to: StateId)
        requires
            from@ < old(self)@.len(),
            to@ < old(self)@.len(),
            !old(self)@[from@ as int].next.contains_key(input),
        ensures
            final(self)@ == old(self)@.update(
                from@ as int,
                (StateView {
                    next: old(self)@[from@ as int].next.insert(input, to@),
                    ..old(self)@[from@ as int]
                }),
            ),
            old(self).wf() ==> final(self).wf(),
    {
        self.state_mut(from).add_transition(input, to);
    }

    /// Marks `state` as an accept state.
    pub fn mark_accept(&mut self, state: StateId)
        requires
            state@ < old(self)@.len(),
        ensures
            final(self)@ == old(self)@.update(
                state@ as int,
                (StateView { accept: true, ..old(self)@[state@ as int] }),
            ),
            old(self).wf() ==> final(self).wf(),
    {
        self.state_mut(state).mark_accept();
    }

    /// Get a state based on its ID
    ///
    /// The identifier must name a state of this automaton. The lookup is
    /// bounds-checked all the same.
    pub fn state(&self, id: StateId) -> (state: &State)
        requires
            id@ < self@.len(),
        ensures
            state@ == self@[id@ as int],
    {
        &self.states[id.index()]
    }

    /// Gets a mutable state based on its ID
    ///
    /// The identifier must name a state of this automaton. What the caller
    /// makes of the state is what the automaton holds at that position once
    /// the borrow ends; whether the automaton is still well-formed then is
    /// for the caller to show.
    pub fn state_mut(&mut self, id: StateId) -> (state: &mut State)
        requires
            id@ < old(self)@.len(),
        ensures
            state@ == old(self)@[id@ as int],
            final(self)@ == old(self)@.update(id@ as int, final(state)@),
    {
        let index = id.index();
        &mut self.states[index]
    }
}

} // verus!
