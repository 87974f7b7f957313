use vstd::prelude::*;

use crate::errors::{DatabaseError, EngineFailure, EngineResult, StorageResult};

verus! {

/// How a failed insert is reported.
pub open spec fn insert_error(f: EngineFailure) -> DatabaseError {
    match f {
        EngineFailure::UniqueViolation => DatabaseError::UniqueViolation,
        _ => DatabaseError::Others,
    }
}

/// Classifies the engine's answer to a single-row insert: the inserted row,
/// `UniqueViolation` for a uniqueness collision, `Others` for anything else.
pub fn generic_insert<R>(outcome: EngineResult<R>) -> (r: StorageResult<R>)
    ensures
        r == match outcome {
            Ok(row) => Ok(row),
            Err(f) => Err(insert_error(f)),
        },
{
    match outcome {
        Ok(row) => Ok(row),
        Err(EngineFailure::UniqueViolation) => Err(DatabaseError::UniqueViolation),
        Err(_) => Err(DatabaseError::Others),
    }
}


/// Classifies the engine's answer to a predicate-scoped update: the number
/// of rows it changed (zero included), `Others` for every failure.
pub fn generic_update(outcome: EngineResult<usize>) -> (r: StorageResult<usize>)
    ensures
        r == match outcome {
            Ok(n) => Ok(n),
            Err(_) => Err(DatabaseError::Others),
        },
{
    match outcome {
        Ok(n) => Ok(n),
        Err(_) => Err(DatabaseError::Others),
    }
}

/// Classifies the engine's answer to a predicate-scoped update that returns
/// the changed rows: those rows, `Others` for every failure.
pub fn generic_update_with_results<R>(outcome: EngineResult<Vec<R>>) -> (r: StorageResult<Vec<R>>)
    ensures
        r == match outcome {
            Ok(rows) => Ok(rows),
            Err(_) => Err(DatabaseError::Others),
        },
{
    match outcome {
        Ok(rows) => Ok(rows),
        Err(_) => Err(DatabaseError::Others),
    }
}

/// What remains to be done for an update by primary key once the engine has
/// answered the update itself.
pub enum UpdateByIdStep<R> {
    /// The operation is over, with this result.
    Done(StorageResult<R>),
    /// The changeset set nothing: look the row up by the same key and hand
    /// the lookup's outcome to `generic_find_by_id_core`.
    FindCurrent,
}

/// The step that follows the engine's answer to an update by primary key.
pub open spec fn update_by_id_step<R>(outcome: EngineResult<R>) -> UpdateByIdStep<R> {
    match outcome {
        Ok(row) => UpdateByIdStep::Done(Ok(row)),
        Err(EngineFailure::QueryBuilder) => UpdateByIdStep::FindCurrent,
        Err(EngineFailure::NotFound) => UpdateByIdStep::Done(Err(DatabaseError::NotFound)),
        Err(_) => UpdateByIdStep::Done(Err(DatabaseError::Others)),
    }
}

/// Decides an update by primary key from the engine's answer: the updated
/// row; a lookup of the current row when the statement could not be built
/// (an empty changeset); `NotFound` when no row has the key; `Others` else.
pub fn generic_update_by_id<R>(outcome: EngineResult<R>) -> (r: UpdateByIdStep<R>)
    ensures
        r == update_by_id_step(outcome),
{
    match outcome {
        Ok(row) => UpdateByIdStep::Done(Ok(row)),
        Err(EngineFailure::QueryBuilder) => UpdateByIdStep::FindCurrent,
        Err(EngineFailure::NotFound) => UpdateByIdStep::Done(Err(DatabaseError::NotFound)),
        Err(_) => UpdateByIdStep::Done(Err(DatabaseError::Others)),
    }
}

/// How a delete's answer is classified.
pub open spec fn deleted(outcome: EngineResult<usize>) -> StorageResult<bool> {
    match outcome {
        Ok(n) => if n > 0 { Ok(true) } else { Err(DatabaseError::NotFound) },
        Err(_) => Err(DatabaseError::Others),
    }
}

/// Classifies the engine's answer to a predicate-scoped delete: `true` when
/// one or more rows went, `NotFound` when none did, `Others` on failure.
pub fn generic_delete(outcome: EngineResult<usize>) -> (r: StorageResult<bool>)
    ensures
        r == deleted(outcome),
{
    match outcome {
        Ok(n) => if n > 0 { Ok(true) } else { Err(DatabaseError::NotFound) },
        Err(_) => Err(DatabaseError::Others),
    }
}

/// Classifies the engine's answer to a delete that returns the deleted rows:
/// the first of them, `NotFound` when none was deleted, `Others` on failure.
pub fn generic_delete_one_with_result<R>(outcome: EngineResult<Vec<R>>) -> (r: StorageResult<R>)
    ensures
        r == match outcome {
            Ok(rows) => if rows@.len() > 0 { Ok(rows@[0]) } else { Err(DatabaseError::NotFound) },
            Err(_) => Err(DatabaseError::Others),
        },
{
    match outcome {
        Ok(mut rows) => {
            if rows.len() > 0 {
                Ok(rows.remove(0))
            } else {
                Err(DatabaseError::NotFound)
            }
        },
        Err(_) => Err(DatabaseError::Others),
    }
}

/// How a single-row lookup's answer is classified, by key or by predicate.
pub open spec fn lookup<R>(outcome: EngineResult<R>) -> StorageResult<R> {
    match outcome {
        Ok(row) => Ok(row),
        Err(EngineFailure::NotFound) => Err(DatabaseError::NotFound),
        Err(_) => Err(DatabaseError::Others),
    }
}

/// What an optional variant makes of a result: only `NotFound` is absorbed.
pub open spec fn optional<R>(res: StorageResult<R>) -> StorageResult<Option<R>> {
    match res {
        Ok(v) => Ok(Some(v)),
        Err(DatabaseError::NotFound) => Ok(None),
        Err(e) => Err(e),
    }
}

/// Turns `NotFound` into an empty result and passes every other error on.
pub fn to_optional<T>(arg: StorageResult<T>) -> (r: StorageResult<Option<T>>)
    ensures
        r == optional(arg),
{
    match arg {
        Ok(value) => Ok(Some(value)),
        Err(DatabaseError::NotFound) => Ok(None),
        Err(e) => Err(e),
    }
}

/// Classifies the engine's answer to a lookup by primary key.
pub fn generic_find_by_id_core<R>(outcome: EngineResult<R>) -> (r: StorageResult<R>)
    ensures
        r == lookup(outcome),
{
    match outcome {
        Ok(value) => Ok(value),
        Err(EngineFailure::NotFound) => Err(DatabaseError::NotFound),
        Err(_) => Err(DatabaseError::Others),
    }
}

/// A lookup by primary key: the row, `NotFound` or `Others`.
pub fn generic_find_by_id<R>(outcome: EngineResult<R>) -> (r: StorageResult<R>)
    ensures
        r == lookup(outcome),
{
    generic_find_by_id_core(outcome)
}

/// A lookup by primary key where absence is an empty result.
pub fn generic_find_by_id_optional<R>(outcome: EngineResult<R>) -> (r: StorageResult<Option<R>>)
    ensures
        r == optional(lookup(outcome)),
{
    to_optional(generic_find_by_id_core(outcome))
}

/// Classifies the engine's answer to a single-row lookup by predicate.
pub fn generic_find_one_core<R>(outcome: EngineResult<R>) -> (r: StorageResult<R>)
    ensures
        r == lookup(outcome),
{
    match outcome {
        Ok(value) => Ok(value),
        Err(EngineFailure::NotFound) => Err(DatabaseError::NotFound),
        Err(_) => Err(DatabaseError::Others),
    }
}

/// A lookup by predicate: the row, `NotFound` or `Others`.
pub fn generic_find_one<R>(outcome: EngineResult<R>) -> (r: StorageResult<R>)
    ensures
        r == lookup(outcome),
{
    generic_find_one_core(outcome)
}

/// A lookup by predicate where absence is an empty result.
pub fn generic_find_one_optional<R>(outcome: EngineResult<R>) -> (r: StorageResult<Option<R>>)
    ensures
        r == optional(lookup(outcome)),
{
    to_optional(generic_find_one_core(outcome))
}

/// The number of rows that a filtered list with ordering asks for when the
/// caller names no limit.
pub const DEFAULT_FILTER_ORDER_LIMIT: i64 = 100;

/// The limit that an ordered filter pushes to the engine.
pub open spec fn order_limit(limit: Option<i64>) -> i64 {
    match limit {
        Some(l) => l,
        None => DEFAULT_FILTER_ORDER_LIMIT,
    }
}

/// The limit that an ordered filter issues: the caller's, else one hundred.
pub fn filter_order_limit(limit: Option<i64>) -> (r: i64)
    ensures
        r == order_limit(limit),
{
    match limit {
        Some(l) => l,
        None => DEFAULT_FILTER_ORDER_LIMIT,
    }
}

/// The rows that a list keeps under a limit: its first `l` rows when the
/// limit `l` is not negative and the list is longer, else all of it.
pub open spec fn capped<R>(rows: Seq<R>, limit: Option<i64>) -> Seq<R> {
    match limit {
        Some(l) => if 0 <= l && l < rows.len() { rows.take(l as int) } else { rows },
        None => rows,
    }
}

/// How a filtered list's answer is classified: the rows kept under the
/// limit, in the engine's order; any failure at all is `NotFound`.
pub open spec fn filtered<R>(outcome: EngineResult<Vec<R>>, limit: Option<i64>) -> StorageResult<Seq<R>> {
    match outcome {
        Ok(rows) => Ok(capped(rows@, limit)),
        Err(_) => Err(DatabaseError::NotFound),
    }
}

fn cap_rows<R>(rows: Vec<R>, limit: Option<i64>) -> (r: Vec<R>)
    ensures
        r@ == capped(rows@, limit),
{
    let mut rows = rows;
    match limit {
        Some(l) => {
            let n = rows.len();
            if 0 <= l && (l as u64) < (n as u64) {
                rows.truncate(l as usize);
            }
        },
        None => {},
    }
    rows
}

/// Classifies the engine's answer to a filtered list issued with `limit`.
/// Rows past the limit, should the engine hand any back, are dropped.
/// Every failure, a true absence of rows included, is `NotFound`.
pub fn generic_filter<R>(outcome: EngineResult<Vec<R>>, limit: Option<i64>) -> (r: StorageResult<Vec<R>>)
    ensures
        match r {
            Ok(rows) => filtered(outcome, limit) == Ok::<Seq<R>, DatabaseError>(rows@),
            Err(e) => filtered(outcome, limit) == Err::<Seq<R>, DatabaseError>(e),
        },
{
    match outcome {
        Ok(rows) => Ok(cap_rows(rows, limit)),
        Err(_) => Err(DatabaseError::NotFound),
    }
}

/// Classifies the engine's answer to an ordered filtered list issued with
/// the limit of `filter_order_limit(limit)`: at most that many rows, in the
/// order the engine sorted them; every failure is `NotFound`.
pub fn generic_filter_order<R>(outcome: EngineResult<Vec<R>>, limit: Option<i64>) -> (r: StorageResult<Vec<R>>)
    ensures
        match r {
            Ok(rows) => filtered(outcome, Some(order_limit(limit))) == Ok::<Seq<R>, DatabaseError>(rows@),
            Err(e) => filtered(outcome, Some(order_limit(limit))) == Err::<Seq<R>, DatabaseError>(e),
        },
{
    let l = filter_order_limit(limit);
    generic_filter(outcome, Some(l))
}

} // verus!
