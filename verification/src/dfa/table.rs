//! The transition table of one state: a hash map from input byte to target
//! state, hashed with `fxhash`.
//!
//! `FxHashMap` is std's `HashMap` with `fxhash`'s hasher plugged in. vstd only
//! describes what a `HashMap` does for hashers it knows to be deterministic,
//! so the operations used on the table are stated here and taken on trust.

use vstd::prelude::*;
use fxhash::FxHashMap;
use super::StateId;

verus! {

/// `fxhash::FxHasher`, the hasher behind every transition table. Nothing of
/// its insides is visible to the verifier.
#[verifier::external_type_specification]
#[verifier::external_body]
pub struct ExFxHasher(fxhash::FxHasher);

/// `std::hash::BuildHasherDefault`, which turns a default-constructible
/// hasher into the hasher factory that a `HashMap` wants.
#[verifier::external_type_specification]
#[verifier::external_body]
#[verifier::reject_recursive_types(H)]
pub struct ExBuildHasherDefault<H>(std::hash::BuildHasherDefault<H>);

/// An empty table, from `FxHashMap::default()`. That a default map is empty
/// is something vstd states whatever the hasher, so nothing is taken on
/// trust here.
pub(crate) fn table_new() -> (table: FxHashMap<u8, StateId>)
    ensures
        table@ == Map::<u8, StateId>::empty(),
{
    FxHashMap::default()
}

/// Calls `HashMap::insert` on a table hashed by `FxHasher`.
///
/// Trusted: afterwards the table maps `input` to `target` and is otherwise
/// unchanged. This holds because `FxHasher` starts from a fixed state and
/// mixes in each written word with fixed constants, so equal keys always
/// hash alike, and `u8` keys are equal exactly when `==` says so.
#[verifier::external_body]
pub(crate) fn table_insert(table: &mut FxHashMap<u8, StateId>, input: u8, target: StateId)
    ensures
        final(table)@ == old(table)@.insert(input, target),
{
    table.insert(input, target);
}

/// Calls `HashMap::contains_key` on a table hashed by `FxHasher`.
///
/// Trusted: the result says whether the table holds an entry for `input`.
/// The reasons are those given for insertion.
#[verifier::external_body]
pub(crate) fn table_contains_key(table: &FxHashMap<u8, StateId>, input: u8) -> (found: bool)
    ensures
        found == table@.contains_key(input),
{
    table.contains_key(&input)
}

/// Calls `HashMap::get` on a table hashed by `FxHasher`.
///
/// Trusted: the result is the target recorded for `input`, or `None` when
/// the table holds no entry for it. The reasons are those given for
/// insertion.
#[verifier::external_body]
pub(crate) fn table_get(table: &FxHashMap<u8, StateId>, input: u8) -> (target: Option<&StateId>)
    ensures
        target == (if table@.contains_key(input) {
            Some(&table@[input])
        } else {
            None
        }),
{
    table.get(&input)
}

} // verus!
