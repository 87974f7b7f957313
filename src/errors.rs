use vstd::prelude::*;

verus! {

/// The storage error taxonomy seen by callers.
#[derive(PartialEq, Eq, Structural, Clone, Copy, Debug)]
pub enum DatabaseError {
    /// A lookup, delete or filter matched no row.
    NotFound,
    /// An insert collided with a uniqueness constraint.
    UniqueViolation,
    /// A changeset had nothing to assign.
    NoFieldsToUpdate,
    /// Every other engine or connection failure.
    Others,
}

/// What the engine (driver and pool together) reports when a statement fails.
#[derive(PartialEq, Eq, Structural, Clone, Copy, Debug)]
pub enum EngineFailure {
    /// A uniqueness constraint was violated.
    UniqueViolation,
    /// The statement expected a row and found none.
    NotFound,
    /// The statement could not be built, such as an update with no column to set.
    QueryBuilder,
    /// Anything else, including a failure to lease a connection.
    Other,
}

/// The result of a storage operation.
pub type StorageResult<T> = Result<T, DatabaseError>;

/// The result of running one statement on the engine.
pub type EngineResult<T> = Result<T, EngineFailure>;

} // verus!
