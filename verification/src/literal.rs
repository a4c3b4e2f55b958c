//! The automaton of a literal pattern: a chain of states, one transition per
//! pattern byte, ending in the only accept state.

use vstd::prelude::*;
use crate::dfa::{accepts, run, well_formed, StateView, MAX_STATES};

verus! {

/// The state at position `i` of the chain for `pattern`: it expects the
/// pattern's byte `i` and moves on to the next position, or, past the last
/// byte, accepts and leads nowhere.
pub open spec fn literal_state(pattern: Seq<u8>, i: int) -> StateView {
    StateView {
        id: i as nat,
        accept: i == pattern.len(),
        next: if 0 <= i < pattern.len() {
            Map::empty().insert(pattern[i], (i + 1) as nat)
        } else {
            Map::empty()
        },
    }
}

/// The automaton that recognizes `pattern` and nothing else.
pub open spec fn literal_automaton(pattern: Seq<u8>) -> Seq<StateView> {
    Seq::new(pattern.len() + 1, |i: int| literal_state(pattern, i))
}

/// The chain for a pattern that leaves room for its final state is
/// well-formed.
pub proof fn lemma_literal_well_formed(pattern: Seq<u8>)
    requires
        pattern.len() < MAX_STATES,
    ensures
        well_formed(literal_automaton(pattern)),
{
}

/// Different patterns have different chains.
pub proof fn lemma_literal_injective(p: Seq<u8>, q: Seq<u8>)
    requires
        literal_automaton(p) == literal_automaton(q),
    ensures
        p == q,
{
    // The chains have one state more than the patterns have bytes.
    assert(q.len() + 1 == literal_automaton(q).len());
    assert forall|i: int| 0 <= i < p.len() implies p[i] == q[i] by {
        // State `i` has a single transition, on byte `i` of its pattern.
        assert(literal_automaton(q)[i] == literal_state(q, i));
        assert(literal_state(p, i).next.contains_key(p[i]));
    }
}

/// Reading `input` along the chain for `pattern` advances one position per
/// byte for as long as the input agrees with the pattern, and gets stuck at
/// the first byte that does not.
pub proof fn lemma_literal_run(pattern: Seq<u8>, input: Seq<u8>)
    ensures
        run(literal_automaton(pattern), input) == if input.is_prefix_of(pattern) {
            Some(input.len())
        } else {
            None
        },
    decreases input.len(),
{
    if input.len() > 0 {
        // The run of all but the last byte is known by induction; the last
        // byte is followed exactly where it is the pattern's next byte.
        lemma_literal_run(pattern, input.drop_last());
    }
}

/// The chain for `pattern` accepts an input exactly when the input is the
/// pattern, byte for byte.
pub proof fn lemma_literal_accepts(pattern: Seq<u8>, input: Seq<u8>)
    ensures
        accepts(literal_automaton(pattern), input) <==> input == pattern,
{
    lemma_literal_run(pattern, input);
    if input.is_prefix_of(pattern) && input.len() == pattern.len() {
        assert(input =~= pattern);
    }
}

} // verus!
