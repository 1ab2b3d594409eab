//! The request handlers: fetch a record by key, create a record from a
//! client payload.
//!
//! Handlers validate input, call into the store, and map each outcome to a
//! status code and message. They never touch the transport: the boundary
//! layer hands them plain values and carries their results back.

use vstd::prelude::*;
use crate::parse::parse_u64;
use crate::record::{Movie, MovieView};
use crate::store::{InsertOutcome, RecordStore};

verus! {

/// Outcome of handling a fetch request.
pub enum FetchOutcome {
    /// The key was present; this is a copy of the stored record.
    Found(Movie),
    /// The key was absent.
    NotFound,
}

/// Outcome of handling a create request.
#[derive(Clone, Copy, Debug, PartialEq, Eq, Structural)]
pub enum CreateOutcome {
    /// The id was valid and its key absent; the record is now stored.
    Created,
    /// The key was already present; nothing was stored.
    Conflict,
    /// The id does not denote a `u64`; nothing was stored.
    MalformedId,
}

/// What a fetch of `key` finds in a store whose table is `s`.
pub open spec fn fetch_model(s: Map<u64, MovieView>, key: u64) -> Option<MovieView> {
    if s.contains_key(key) {
        Some(s[key])
    } else {
        None
    }
}

/// The outcome of creating `m` against a store whose table is `s`.
pub open spec fn create_model_outcome(s: Map<u64, MovieView>, m: MovieView) -> CreateOutcome {
    if !m.has_valid_key() {
        CreateOutcome::MalformedId
    } else if s.contains_key(m.key()) {
        CreateOutcome::Conflict
    } else {
        CreateOutcome::Created
    }
}

/// The table after creating `m` against `s`: extended by `m` under its key
/// on success, unchanged on conflict or a malformed id.
pub open spec fn create_model_store(s: Map<u64, MovieView>, m: MovieView) -> Map<u64, MovieView> {
    if create_model_outcome(s, m) == CreateOutcome::Created {
        s.insert(m.key(), m)
    } else {
        s
    }
}

/// Handles `GET` of one record: returns a copy of the record stored under
/// `key`, or reports its absence. The store is not changed.
pub fn fetch(store: &RecordStore, key: u64) -> (r: FetchOutcome)
    ensures
        match r {
            FetchOutcome::Found(m) => fetch_model(store@, key) == Some(m@),
            FetchOutcome::NotFound => fetch_model(store@, key) is None,
        },
{
    match store.get(key) {
        Some(m) => FetchOutcome::Found(m.clone()),
        None => FetchOutcome::NotFound,
    }
}

/// Handles `POST` of one record: parses the textual id, rejects a malformed
/// one, reports a conflict on an occupied key, and otherwise stores the
/// record under its key.
pub fn create(store: &mut RecordStore, movie: Movie) -> (r: CreateOutcome)
    ensures
        r == create_model_outcome(old(store)@, movie@),
        final(store)@ == create_model_store(old(store)@, movie@),
{
    let key = match parse_u64(movie.id.as_str()) {
        Some(k) => k,
        None => {
            return CreateOutcome::MalformedId;
        },
    };
    match store.insert(key, movie) {
        InsertOutcome::Inserted => CreateOutcome::Created,
        InsertOutcome::Conflict => CreateOutcome::Conflict,
    }
}

/// The status code a fetch outcome is reported with.
pub open spec fn fetch_status_model(r: FetchOutcome) -> u16 {
    match r {
        FetchOutcome::Found(_) => 200,
        FetchOutcome::NotFound => 421,
    }
}

/// Maps a fetch outcome to its status code: success, or a client-visible
/// not-found class code.
pub fn fetch_status_code(r: &FetchOutcome) -> (c: u16)
    ensures
        c == fetch_status_model(*r),
{
    match r {
        FetchOutcome::Found(_) => 200,
        FetchOutcome::NotFound => 421,
    }
}

/// The status code a create outcome is reported with.
pub open spec fn create_status_model(r: CreateOutcome) -> u16 {
    match r {
        CreateOutcome::Created => 200,
        CreateOutcome::Conflict => 420,
        CreateOutcome::MalformedId => 400,
    }
}

/// Maps a create outcome to its status code: success, a conflict class
/// code, or a bad-request class code for a malformed id.
pub fn create_status_code(r: &CreateOutcome) -> (c: u16)
    ensures
        c == create_status_model(*r),
{
    match r {
        CreateOutcome::Created => 200,
        CreateOutcome::Conflict => 420,
        CreateOutcome::MalformedId => 400,
    }
}

/// The message body reported when a fetched key is absent.
pub fn not_found_message() -> (r: &'static str)
    ensures
        r@ == "Could not find movie!"@,
{
    "Could not find movie!"
}

/// The message body reported for each create outcome.
pub fn create_message(r: &CreateOutcome) -> (m: &'static str)
    ensures
        *r == CreateOutcome::Created ==> m@ == "Added movie to db!"@,
        *r == CreateOutcome::Conflict ==> m@ == "Already have this movie stored"@,
        *r == CreateOutcome::MalformedId ==> m@ == "Movie id must be a decimal integer"@,
{
    match r {
        CreateOutcome::Created => "Added movie to db!",
        CreateOutcome::Conflict => "Already have this movie stored",
        CreateOutcome::MalformedId => "Movie id must be a decimal integer",
    }
}

} // verus!
