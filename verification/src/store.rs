//! The record store: a table from numeric key to record.
//!
//! Keys are unique; an entry, once inserted, is never overwritten or
//! removed. The store is owned exclusively by the serving process; callers
//! that share it across tasks place it behind a mutual-exclusion lock, so
//! each operation here sees the table alone.

use vstd::prelude::*;
use std::collections::HashMap;
use crate::record::{Movie, MovieView};

verus! {

broadcast use vstd::std_specs::hash::group_hash_axioms;

/// An in-memory table from numeric key to [`Movie`], with at-most-once
/// insertion per key.
pub struct RecordStore {
    table: HashMap<u64, Movie>,
}

impl View for RecordStore {
    type V = Map<u64, MovieView>;

    closed spec fn view(&self) -> Map<u64, MovieView> {
        Map::new(|k: u64| self.table@.contains_key(k), |k: u64| self.table@[k]@)
    }
}

/// Outcome of [`RecordStore::insert`].
#[derive(Clone, Copy, Debug, PartialEq, Eq, Structural)]
pub enum InsertOutcome {
    /// The key was absent; the record is now stored under it.
    Inserted,
    /// The key was already present; the store is unchanged.
    Conflict,
}

impl RecordStore {
    /// Creates an empty store.
    pub fn new() -> (s: RecordStore)
        ensures
            s@ == Map::<u64, MovieView>::empty(),
    {
        let s = RecordStore { table: HashMap::new() };
        proof {
            assert(s@ =~= Map::<u64, MovieView>::empty());
        }
        s
    }

    /// Returns the record stored under `key`, if any. No side effects.
    pub fn get(&self, key: u64) -> (r: Option<&Movie>)
        ensures
            match r {
                Some(m) => self@.contains_key(key) && m@ == self@[key],
                None => !self@.contains_key(key),
            },
    {
        self.table.get(&key)
    }

    /// `key` is present in the store.
    pub fn contains(&self, key: u64) -> (r: bool)
        ensures
            r == self@.contains_key(key),
    {
        self.table.contains_key(&key)
    }

    /// Inserts `movie` under `key` if `key` is absent; an occupied key is
    /// left exactly as it was and reported as a conflict.
    pub fn insert(&mut self, key: u64, movie: Movie) -> (r: InsertOutcome)
        ensures
            old(self)@.contains_key(key) ==> r == InsertOutcome::Conflict && final(self)@ == old(
                self,
            )@,
            !old(self)@.contains_key(key) ==> r == InsertOutcome::Inserted && final(self)@ == old(
                self,
            )@.insert(key, movie@),
    {
        if self.table.contains_key(&key) {
            InsertOutcome::Conflict
        } else {
            let ghost pre = self@;
            self.table.insert(key, movie);
            proof {
                assert(self@ =~= pre.insert(key, movie@));
            }
            InsertOutcome::Inserted
        }
    }
}

} // verus!
