use vstd::prelude::*;

use crate::errors::{DatabaseError, EngineFailure, EngineResult, StorageResult};
use crate::generics::{
    deleted, filtered, insert_error, lookup, optional, order_limit, update_by_id_step, UpdateByIdStep,
    DEFAULT_FILTER_ORDER_LIMIT,
};
use crate::payment_attempt::{is_latest_at, PaymentAttempt};

verus! {

/// For every answer of the engine, the optional lookup is empty exactly when
/// the plain lookup fails with `NotFound`; it holds the row exactly when the
/// plain lookup succeeds with it; and any other error is the same in both.
pub proof fn lemma_find_one_optional_absorbs_only_not_found<R>(outcome: EngineResult<R>)
    ensures
        optional(lookup(outcome)) == Ok::<Option<R>, DatabaseError>(None) <==> lookup(outcome)
            == Err::<R, DatabaseError>(DatabaseError::NotFound),
        forall|row: R|
            optional(lookup(outcome)) == Ok::<Option<R>, DatabaseError>(Some(row)) <==> lookup(
                outcome,
            ) == Ok::<R, DatabaseError>(row),
        forall|e: DatabaseError|
            e != DatabaseError::NotFound ==> (optional(lookup(outcome)) == Err::<
                Option<R>,
                DatabaseError,
            >(e) <==> lookup(outcome) == Err::<R, DatabaseError>(e)),
{
}

/// A delete succeeds, with `true`, exactly when the engine deleted at least
/// one row, and fails with `NotFound` exactly when it deleted none.
pub proof fn lemma_delete_reports_matched_rows(n: usize)
    ensures
        deleted(Ok(n)) == Ok::<bool, DatabaseError>(true) <==> n > 0,
        deleted(Ok(n)) == Err::<bool, DatabaseError>(DatabaseError::NotFound) <==> n == 0,
{
}

/// What an update by primary key ends with: the step decided from the
/// update's answer, then, when the current row is wanted, the lookup's.
pub open spec fn update_by_id_result<R>(
    update: EngineResult<R>,
    current: EngineResult<R>,
) -> StorageResult<R> {
    match update_by_id_step(update) {
        UpdateByIdStep::Done(r) => r,
        UpdateByIdStep::FindCurrent => lookup(current),
    }
}

/// An update by primary key whose changeset sets nothing (the engine cannot
/// build the statement) yields the current row unchanged when the key
/// exists, and `NotFound` when it does not; an update of a key that does not
/// exist fails with `NotFound`.
pub proof fn lemma_empty_changeset_keeps_current_row<R>(current: R)
    ensures
        update_by_id_result(Err(EngineFailure::QueryBuilder), Ok(current)) == Ok::<
            R,
            DatabaseError,
        >(current),
        update_by_id_result::<R>(Err(EngineFailure::QueryBuilder), Err(EngineFailure::NotFound))
            == Err::<R, DatabaseError>(DatabaseError::NotFound),
        forall|lookup_outcome: EngineResult<R>|
            update_by_id_result(Err(EngineFailure::NotFound), lookup_outcome) == Err::<
                R,
                DatabaseError,
            >(DatabaseError::NotFound),
{
}

/// An insert fails with `UniqueViolation` exactly when the engine reports a
/// uniqueness collision, and succeeds with the engine's row otherwise.
pub proof fn lemma_insert_collision_is_unique_violation(f: EngineFailure)
    ensures
        insert_error(f) == DatabaseError::UniqueViolation <==> f == EngineFailure::UniqueViolation,
        f != EngineFailure::UniqueViolation ==> insert_error(f) == DatabaseError::Others,
{
}

/// An ordered filter issued without a limit keeps at most one hundred rows,
/// and those it keeps are the first ones in the order the engine sorted.
pub proof fn lemma_filter_order_default_cap<R>(rows: Vec<R>)
    ensures
        order_limit(None) == DEFAULT_FILTER_ORDER_LIMIT,
        DEFAULT_FILTER_ORDER_LIMIT == 100,
        ({
            let kept = filtered(Ok::<Vec<R>, EngineFailure>(rows), Some(order_limit(None)))->Ok_0;
            &&& kept.len() <= 100
            &&& kept == rows@.take(kept.len() as int)
        }),
{
    if rows@.len() <= 100 {
        assert(rows@.take(rows@.len() as int) =~= rows@);
    }
}

/// At most one row of a list is the latest.
pub proof fn lemma_latest_is_unique(rows: Seq<PaymentAttempt>, i: int, j: int)
    requires
        is_latest_at(rows, i),
        is_latest_at(rows, j),
    ensures
        i == j,
{
    if i < j {
        assert(rows[j].created_at < rows[i].created_at);
    } else if j < i {
        assert(rows[i].created_at < rows[j].created_at);
    }
}

/// Of three attempts created one after the other, the latest is the third,
/// and no other.
pub proof fn lemma_latest_of_three(a: PaymentAttempt, b: PaymentAttempt, c: PaymentAttempt)
    requires
        a.created_at < b.created_at,
        b.created_at < c.created_at,
    ensures
        is_latest_at(seq![a, b, c], 2),
        forall|i: int| is_latest_at(seq![a, b, c], i) ==> i == 2,
{
    let s = seq![a, b, c];
    assert(s[0] == a && s[1] == b && s[2] == c);
    assert forall|i: int| is_latest_at(s, i) implies i == 2 by {
        lemma_latest_is_unique(s, i, 2);
    }
}

} // verus!
