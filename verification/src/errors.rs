//! The closed set of failure categories raised by the persistence core.

use vstd::prelude::*;

verus! {

/// A failure reported by the underlying storage engine.
#[derive(Debug)]
pub enum StoreError {
    /// A uniqueness constraint rejected an insert.
    Conflict,
    /// Any other engine failure, carrying the engine's message.
    Failure(String),
}

/// A stored or supplied text did not match any variant of a closed
/// enumeration.  Carries the offending text and the enumeration's name.
#[derive(Debug, Clone)]
pub struct ParseEnumError {
    pub input: String,
    pub target_enum: String,
}

impl ParseEnumError {
    pub fn new(input: &str, target_enum: &str) -> (r: Self)
        ensures
            r.input@ == input@,
            r.target_enum@ == target_enum@,
    {
        Self { input: input.to_owned(), target_enum: target_enum.to_owned() }
    }
}

/// The error taxonomy of the repository, surfaced unchanged to the boundary
/// layer.
#[derive(Debug)]
pub enum AppError {
    /// Connection, query or transaction failure from the storage engine.
    DbError(StoreError),
    /// The caller supplied a structurally invalid request.
    InvalidInput(String),
    /// A stored or supplied enumeration text could not be decoded.
    ParseError(ParseEnumError),
    /// An update or delete referenced an identifier absent from the store.
    NotFound(i64),
}

} // verus!
