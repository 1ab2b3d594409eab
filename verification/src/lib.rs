//! A minimal in-memory movie record service core: a key-to-record store with
//! at-most-once insertion, the request handlers that validate a textual id,
//! detect conflicts and map outcomes to status codes, and proofs of the
//! store's round-trip and conflict behaviour.

pub mod parse;
pub mod record;
pub mod store;
pub mod handlers;
pub mod laws;
