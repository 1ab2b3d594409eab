//! The stored record: a movie with a textual id, a name, a year and a
//! quality flag.

use vstd::prelude::*;
use crate::parse::{digits_value, is_u64_string};

verus! {

/// A movie record as received from a client. The `id` field is text; it is
/// interpreted as the numeric store key (see [`crate::parse`]).
pub struct Movie {
    pub id: String,
    pub name: String,
    pub year: u16,
    pub was_good: bool,
}

/// The mathematical content of a [`Movie`]: both strings as character
/// sequences, the scalars as themselves.
pub ghost struct MovieView {
    pub id: Seq<char>,
    pub name: Seq<char>,
    pub year: u16,
    pub was_good: bool,
}

impl View for Movie {
    type V = MovieView;

    open spec fn view(&self) -> MovieView {
        MovieView { id: self.id@, name: self.name@, year: self.year, was_good: self.was_good }
    }
}

impl MovieView {
    /// The record's id denotes a key that fits in a `u64`.
    pub open spec fn has_valid_key(self) -> bool {
        is_u64_string(self.id)
    }

    /// The numeric key the record's id denotes (meaningful under
    /// [`MovieView::has_valid_key`]).
    pub open spec fn key(self) -> u64 {
        digits_value(self.id) as u64
    }
}

impl Clone for Movie {
    fn clone(&self) -> (r: Movie)
        ensures
            r == *self,
    {
        Movie {
            id: self.id.clone(),
            name: self.name.clone(),
            year: self.year,
            was_good: self.was_good,
        }
    }
}

} // verus!
