//! A matcher for literal byte patterns, built on a deterministic finite
//! automaton whose behaviour is stated and proved with Verus.
//!
//! [`Regex::parse`] compiles a pattern into a chain of states, one per byte,
//! and [`Regex::match_bytes`] walks that chain. The automaton itself, which
//! can hold any transition graph, is in [`dfa`]; the chain a pattern
//! compiles to, and the proof that it accepts the pattern and nothing else,
//! are in [`literal`].

use vstd::prelude::*;
use crate::dfa::{accepts, Dfa, StateView, MAX_STATES};
use crate::literal::{
    lemma_literal_accepts, lemma_literal_injective, lemma_literal_well_formed, literal_automaton,
    literal_state,
};

pub mod dfa;
pub mod literal;

verus! {

/// A compiled pattern. It matches one byte string, the pattern it was
/// compiled from, and nothing else.
#[derive(Debug)]
pub struct Regex {
    dfa: Dfa,
}

impl View for Regex {
    type V = Seq<u8>;

    /// The pattern this matcher was compiled from.
    closed spec fn view(&self) -> Seq<u8> {
        choose|pattern: Seq<u8>| self.dfa@ == literal_automaton(pattern)
    }
}

impl Clone for Regex {
    fn clone(&self) -> (re: Self)
        ensures
            re@ == self@,
            re.automaton() == self.automaton(),
    {
        proof {
            use_type_invariant(self);
        }
        Self { dfa: self.dfa.clone() }
    }
}

impl Regex {
    /// Holds of every matcher: its automaton is the chain for its pattern,
    /// and the pattern is short enough for the chain to fit.
    #[verifier::type_invariant]
    pub closed spec fn wf(self) -> bool {
        &&& self.dfa@ == literal_automaton(self@)
        &&& self@.len() < MAX_STATES
    }

    /// The automaton that does the matching.
    pub closed spec fn automaton(&self) -> Seq<StateView> {
        self.dfa@
    }

    /// Whether this matcher accepts `input`.
    pub open spec fn matches(&self, input: Seq<u8>) -> bool {
        accepts(self.automaton(), input)
    }

    /// Compiles a literal pattern.
    ///
    /// Every byte of the pattern gets a state of its own, so the pattern must
    /// leave one state identifier free for the state that follows its last
    /// byte.
    pub fn parse(pattern: &[u8]) -> (re: Self)
        requires
            pattern@.len() < MAX_STATES,
        ensures
            re@ == pattern@,
            re.automaton() == literal_automaton(pattern@),
            re.wf(),
    {
        let mut dfa = Dfa::default();

        let mut curr = dfa.start_id();
        let mut i: usize = 0;
        while i < pattern.len()
            invariant
                i <= pattern.len() < MAX_STATES,
                curr@ == i,
                dfa@.len() == i + 1,
                dfa@[i as int] == StateView::fresh(i as nat),
                forall|j: int| 0 <= j < i ==> dfa@[j] == literal_state(pattern@, j),
            decreases pattern.len() - i,
        {
            let ch = pattern[i];
            let next_state = dfa.push_state();
            dfa.add_transition(curr, ch, next_state);
            curr = next_state;
            i += 1;
        }
        // Mark the last state we get to as the acceptance state
        dfa.mark_accept(curr);

        proof {
            assert(dfa@ =~= literal_automaton(pattern@));
        }
        let re = Self { dfa };
        proof {
            lemma_literal_injective(re@, pattern@);
        }
        re
    }

    /// Returns true if this regex matches the given bytes
    pub fn match_bytes(&self, bytes: &[u8]) -> (matched: bool)
        ensures
            matched == self.matches(bytes@),
            matched == (bytes@ == self@),
    {
        proof {
            use_type_invariant(self);
            lemma_literal_well_formed(self@);
            lemma_literal_accepts(self@, bytes@);
        }
        self.dfa.match_bytes(bytes)
    }
}

// What compiling and matching come to together. `Regex::parse` leaves the
// matcher with `literal_automaton` of its pattern, and `Regex::match_bytes`
// answers what `accepts` says of that automaton; the patterns spoken of are
// those that `parse` takes.

/// A compiled pattern matches the pattern itself.
pub proof fn lemma_pattern_matches_itself(pattern: Seq<u8>)
    requires
        pattern.len() < MAX_STATES,
    ensures
        accepts(literal_automaton(pattern), pattern),
{
    lemma_literal_accepts(pattern, pattern);
}

/// A compiled pattern rejects every input that differs from the pattern,
/// whether in a byte or in length.
pub proof fn lemma_pattern_rejects_any_other_input(pattern: Seq<u8>, input: Seq<u8>)
    requires
        pattern.len() < MAX_STATES,
        input != pattern,
    ensures
        !accepts(literal_automaton(pattern), input),
{
    lemma_literal_accepts(pattern, input);
}

/// The empty pattern matches the empty input and rejects every other.
pub proof fn lemma_empty_pattern_matches_only_empty_input(input: Seq<u8>)
    ensures
        accepts(literal_automaton(Seq::empty()), input) <==> input.len() == 0,
{
    lemma_literal_accepts(Seq::empty(), input);
}

/// An input that stops short of the pattern is rejected, and so is one that
/// goes on after it.
pub proof fn lemma_proper_prefix_is_rejected(pattern: Seq<u8>, input: Seq<u8>)
    requires
        pattern.len() < MAX_STATES,
        input != pattern,
        input.is_prefix_of(pattern) || pattern.is_prefix_of(input),
    ensures
        !accepts(literal_automaton(pattern), input),
{
    lemma_literal_accepts(pattern, input);
}

/// Two matchers compiled from the same pattern give the same answer on every
/// input. The answer depends on the pattern and the input alone; the order
/// in which a transition table happens to store its entries plays no part.
pub proof fn lemma_same_pattern_same_answer(first: Regex, second: Regex, input: Seq<u8>)
    requires
        first.wf(),
        second.wf(),
        first@ == second@,
    ensures
        first.automaton() == second.automaton(),
        first.matches(input) == second.matches(input),
{
}

} // verus!
