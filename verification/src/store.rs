//! What a lookup in the database answered, as the decisions see it.

use vstd::prelude::*;

verus! {

/// The outcome of fetching at most one row.
#[derive(Debug, PartialEq, Eq)]
pub enum Lookup<T> {
    /// The row that was found.
    Found(T),
    /// The query ran and matched no row.
    Missing,
    /// The query failed.
    Failed,
}

} // verus!
