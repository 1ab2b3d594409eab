//! The service's guarantees, stated and proved over the handler models.
//!
//! A run of create requests against the store is modelled as a fold of
//! [`create_model_store`] over a sequence of records; since the boundary
//! layer serialises all store access under one lock, any set of concurrent
//! requests is observed as some such run.

use vstd::prelude::*;
use crate::handlers::{create_model_outcome, create_model_store, fetch_model, CreateOutcome};
use crate::record::MovieView;

verus! {

/// The table after a run of create requests, applied left to right.
pub open spec fn run_creates(s: Map<u64, MovieView>, ms: Seq<MovieView>) -> Map<u64, MovieView>
    decreases ms.len(),
{
    if ms.len() == 0 {
        s
    } else {
        run_creates(create_model_store(s, ms[0]), ms.skip(1))
    }
}

/// The outcome of each create request in a run, in order.
pub open spec fn run_create_outcomes(s: Map<u64, MovieView>, ms: Seq<MovieView>) -> Seq<
    CreateOutcome,
>
    decreases ms.len(),
{
    if ms.len() == 0 {
        Seq::empty()
    } else {
        seq![create_model_outcome(s, ms[0])] + run_create_outcomes(
            create_model_store(s, ms[0]),
            ms.skip(1),
        )
    }
}

/// Round trip: creating a valid record whose key is absent succeeds, and a
/// fetch of that key then returns exactly that record.
pub proof fn lemma_create_then_fetch(s: Map<u64, MovieView>, m: MovieView)
    requires
        m.has_valid_key(),
        !s.contains_key(m.key()),
    ensures
        create_model_outcome(s, m) == CreateOutcome::Created,
        fetch_model(create_model_store(s, m), m.key()) == Some(m),
{
}

/// Creating against an occupied key is refused and changes nothing: the
/// whole table, and in particular the record stored under that key, stays
/// as it was.
pub proof fn lemma_create_conflict(s: Map<u64, MovieView>, m: MovieView)
    requires
        m.has_valid_key(),
        s.contains_key(m.key()),
    ensures
        create_model_outcome(s, m) == CreateOutcome::Conflict,
        create_model_store(s, m) == s,
{
}

/// A run of create requests whose keys are all already present reports a
/// conflict for every one of them and leaves the table unchanged.
pub proof fn lemma_present_keys_all_conflict(s: Map<u64, MovieView>, ms: Seq<MovieView>)
    requires
        forall|i: int|
            0 <= i < ms.len() ==> (#[trigger] ms[i]).has_valid_key() && s.contains_key(
                ms[i].key(),
            ),
    ensures
        run_creates(s, ms) == s,
        run_create_outcomes(s, ms).len() == ms.len(),
        forall|i: int|
            0 <= i < ms.len() ==> run_create_outcomes(s, ms)[i] == CreateOutcome::Conflict,
    decreases ms.len(),
{
    if ms.len() > 0 {
        assert(create_model_store(s, ms[0]) == s);
        lemma_present_keys_all_conflict(s, ms.skip(1));
    }
}

/// The same record repeated `n` times, as a run of create requests.
pub open spec fn repeated_record(m: MovieView, n: nat) -> Seq<MovieView> {
    Seq::new(n, |i: int| m)
}

/// Idempotent failure: however often a record whose key is already present
/// is created again, every attempt reports a conflict and the table stays
/// as it was.
pub proof fn lemma_repeated_create_conflicts(s: Map<u64, MovieView>, m: MovieView, n: nat)
    requires
        m.has_valid_key(),
        s.contains_key(m.key()),
    ensures
        run_creates(s, repeated_record(m, n)) == s,
        run_create_outcomes(s, repeated_record(m, n)).len() == n,
        forall|i: int|
            0 <= i < n ==> #[trigger] run_create_outcomes(s, repeated_record(m, n))[i]
                == CreateOutcome::Conflict,
{
    lemma_present_keys_all_conflict(s, repeated_record(m, n));
}

/// Absence: fetching a key that is not in the table finds nothing.
pub proof fn lemma_fetch_absent(s: Map<u64, MovieView>, key: u64)
    requires
        !s.contains_key(key),
    ensures
        fetch_model(s, key) is None,
{
}

/// Malformed id: creating a record whose id is not a decimal `u64` is
/// rejected as such and changes nothing.
pub proof fn lemma_malformed_id_no_mutation(s: Map<u64, MovieView>, m: MovieView)
    requires
        !m.has_valid_key(),
    ensures
        create_model_outcome(s, m) == CreateOutcome::MalformedId,
        create_model_store(s, m) == s,
{
}

/// A run of create requests none of which uses key `k` neither adds,
/// removes nor changes an entry under `k`.
pub proof fn lemma_run_creates_preserves_other_keys(
    s: Map<u64, MovieView>,
    ms: Seq<MovieView>,
    k: u64,
)
    requires
        forall|i: int|
            0 <= i < ms.len() ==> ((#[trigger] ms[i]).has_valid_key() ==> ms[i].key() != k),
    ensures
        run_creates(s, ms).contains_key(k) == s.contains_key(k),
        s.contains_key(k) ==> run_creates(s, ms)[k] == s[k],
    decreases ms.len(),
{
    if ms.len() > 0 {
        lemma_run_creates_preserves_other_keys(create_model_store(s, ms[0]), ms.skip(1), k);
    }
}

/// Distinct keys all land: a run of valid create requests with pairwise
/// distinct keys, none already present, succeeds at every step, and
/// afterwards every one of the records is fetchable under its key.
pub proof fn lemma_distinct_creates_all_succeed(s: Map<u64, MovieView>, ms: Seq<MovieView>)
    requires
        forall|i: int| 0 <= i < ms.len() ==> (#[trigger] ms[i]).has_valid_key(),
        forall|i: int| 0 <= i < ms.len() ==> !s.contains_key((#[trigger] ms[i]).key()),
        forall|i: int, j: int| 0 <= i < j < ms.len() ==> ms[i].key() != ms[j].key(),
    ensures
        run_create_outcomes(s, ms).len() == ms.len(),
        forall|i: int|
            0 <= i < ms.len() ==> run_create_outcomes(s, ms)[i] == CreateOutcome::Created,
        forall|i: int|
            0 <= i < ms.len() ==> fetch_model(run_creates(s, ms), (#[trigger] ms[i]).key())
                == Some(ms[i]),
    decreases ms.len(),
{
    if ms.len() > 0 {
        let m0 = ms[0];
        let s1 = create_model_store(s, m0);
        assert(create_model_outcome(s, m0) == CreateOutcome::Created);
        assert forall|i: int| 0 <= i < ms.skip(1).len() implies !s1.contains_key(
            (#[trigger] ms.skip(1)[i]).key(),
        ) by {
            assert(ms.skip(1)[i] == ms[i + 1]);
            assert(ms[0].key() != ms[i + 1].key());
        }
        lemma_distinct_creates_all_succeed(s1, ms.skip(1));
        assert forall|i: int| 0 <= i < ms.skip(1).len() implies (
        #[trigger] ms.skip(1)[i]).has_valid_key() && ms.skip(1)[i].key() != m0.key() by {
            assert(ms.skip(1)[i] == ms[i + 1]);
        }
        lemma_run_creates_preserves_other_keys(s1, ms.skip(1), m0.key());
        assert(fetch_model(run_creates(s, ms), m0.key()) == Some(m0));
        assert forall|i: int| 0 <= i < ms.len() implies fetch_model(
            run_creates(s, ms),
            (#[trigger] ms[i]).key(),
        ) == Some(ms[i]) by {
            if i > 0 {
                assert(ms.skip(1)[i - 1] == ms[i]);
            }
        }
    }
}

/// Same key, one winner: a run of valid create requests that all use one
/// absent key `k` succeeds exactly once — at the first request — reports a
/// conflict for every later one, and stores the first record under `k`.
pub proof fn lemma_same_key_single_success(s: Map<u64, MovieView>, ms: Seq<MovieView>, k: u64)
    requires
        ms.len() > 0,
        forall|i: int|
            0 <= i < ms.len() ==> (#[trigger] ms[i]).has_valid_key() && ms[i].key() == k,
        !s.contains_key(k),
    ensures
        run_create_outcomes(s, ms).len() == ms.len(),
        run_create_outcomes(s, ms)[0] == CreateOutcome::Created,
        forall|i: int|
            1 <= i < ms.len() ==> run_create_outcomes(s, ms)[i] == CreateOutcome::Conflict,
        run_creates(s, ms) == s.insert(k, ms[0]),
        fetch_model(run_creates(s, ms), k) == Some(ms[0]),
{
    let m0 = ms[0];
    let s1 = create_model_store(s, m0);
    assert(create_model_outcome(s, m0) == CreateOutcome::Created);
    assert(s1 == s.insert(k, m0));
    assert forall|i: int| 0 <= i < ms.skip(1).len() implies (
    #[trigger] ms.skip(1)[i]).has_valid_key() && s1.contains_key(ms.skip(1)[i].key()) by {
        assert(ms.skip(1)[i] == ms[i + 1]);
    }
    lemma_present_keys_all_conflict(s1, ms.skip(1));
    assert forall|i: int| 1 <= i < ms.len() implies run_create_outcomes(s, ms)[i]
        == CreateOutcome::Conflict by {
        assert(run_create_outcomes(s1, ms.skip(1))[i - 1] == CreateOutcome::Conflict);
    }
}

} // verus!
