use vstd::prelude::*;

use crate::errors::{DatabaseError, EngineFailure, EngineResult, StorageResult};
use crate::generics::{
    capped, filtered, generic_filter, generic_filter_order, generic_find_one,
    generic_find_one_optional, generic_insert, generic_update_with_results, insert_error, lookup,
    optional, order_limit,
};

verus! {

/// The lifecycle states of a payment attempt.
#[derive(PartialEq, Eq, Structural, Clone, Copy, Debug)]
pub enum AttemptStatus {
    Started,
    AuthenticationFailed,
    RouterDeclined,
    AuthenticationPending,
    AuthenticationSuccessful,
    Authorized,
    AuthorizationFailed,
    Charged,
    Authorizing,
    CodInitiated,
    Voided,
    VoidInitiated,
    CaptureInitiated,
    CaptureFailed,
    VoidFailed,
    AutoRefunded,
    PartialCharged,
    Unresolved,
    Pending,
    Failure,
    PaymentMethodAwaited,
    ConfirmationAwaited,
}

/// A stored payment attempt: the columns that the storage policies read.
/// `created_at` counts microseconds since the Unix epoch.
#[derive(Clone, Debug, PartialEq, Eq)]
pub struct PaymentAttempt {
    pub payment_id: String,
    pub merchant_id: String,
    pub attempt_id: String,
    pub status: AttemptStatus,
    pub connector_transaction_id: Option<String>,
    pub created_at: i64,
}

/// The payload of a new payment attempt.
#[derive(Clone, Debug, PartialEq, Eq)]
pub struct PaymentAttemptNew {
    pub payment_id: String,
    pub merchant_id: String,
    pub attempt_id: String,
    pub status: AttemptStatus,
    pub connector_transaction_id: Option<String>,
}

/// An equality conjunction over payment-attempt columns: each column that is
/// named must equal the given value; an unnamed column is unconstrained.
#[derive(Clone, Debug, PartialEq, Eq)]
pub struct AttemptFilter {
    pub payment_id: Option<String>,
    pub merchant_id: Option<String>,
    pub connector_transaction_id: Option<String>,
    pub attempt_id: Option<String>,
    pub status: Option<AttemptStatus>,
}

/// Whether a required column value satisfies an optional equality.
pub open spec fn column_matches(want: Option<String>, have: String) -> bool {
    match want {
        Some(w) => w@ == have@,
        None => true,
    }
}

/// Whether a nullable column value satisfies an optional equality.
pub open spec fn nullable_column_matches(want: Option<String>, have: Option<String>) -> bool {
    match want {
        Some(w) => match have {
            Some(h) => w@ == h@,
            None => false,
        },
        None => true,
    }
}

/// The number of rows that the latest-attempt query asks for.
pub const LATEST_ATTEMPT_LIMIT: i64 = 1;

impl AttemptFilter {
    /// Whether a row satisfies every equality of the filter.
    pub open spec fn matches(&self, a: PaymentAttempt) -> bool {
        &&& column_matches(self.payment_id, a.payment_id)
        &&& column_matches(self.merchant_id, a.merchant_id)
        &&& nullable_column_matches(self.connector_transaction_id, a.connector_transaction_id)
        &&& column_matches(self.attempt_id, a.attempt_id)
        &&& match self.status {
            Some(s) => s == a.status,
            None => true,
        }
    }

    /// The rows of one payment of one merchant.
    pub fn by_payment_id_merchant_id(payment_id: &str, merchant_id: &str) -> (r: AttemptFilter)
        ensures
            forall|a: PaymentAttempt| #[trigger]
                r.matches(a) <==> (a.payment_id@ == payment_id@ && a.merchant_id@
                    == merchant_id@),
    {
        AttemptFilter {
            payment_id: Some(payment_id.to_owned()),
            merchant_id: Some(merchant_id.to_owned()),
            connector_transaction_id: None,
            attempt_id: None,
            status: None,
        }
    }

    /// The rows of one payment of one merchant with one connector transaction.
    pub fn by_connector_transaction_id_payment_id_merchant_id(
        connector_transaction_id: &str,
        payment_id: &str,
        merchant_id: &str,
    ) -> (r: AttemptFilter)
        ensures
            forall|a: PaymentAttempt| #[trigger]
                r.matches(a) <==> (a.connector_transaction_id is Some
                    && a.connector_transaction_id->Some_0@ == connector_transaction_id@
                    && a.payment_id@ == payment_id@ && a.merchant_id@ == merchant_id@),
    {
        AttemptFilter {
            payment_id: Some(payment_id.to_owned()),
            merchant_id: Some(merchant_id.to_owned()),
            connector_transaction_id: Some(connector_transaction_id.to_owned()),
            attempt_id: None,
            status: None,
        }
    }

    /// The rows of one merchant with one connector transaction.
    pub fn by_merchant_id_connector_txn_id(merchant_id: &str, connector_txn_id: &str) -> (r:
        AttemptFilter)
        ensures
            forall|a: PaymentAttempt| #[trigger]
                r.matches(a) <==> (a.merchant_id@ == merchant_id@
                    && a.connector_transaction_id is Some
                    && a.connector_transaction_id->Some_0@ == connector_txn_id@),
    {
        AttemptFilter {
            payment_id: None,
            merchant_id: Some(merchant_id.to_owned()),
            connector_transaction_id: Some(connector_txn_id.to_owned()),
            attempt_id: None,
            status: None,
        }
    }

    /// The rows of one merchant with one attempt id.
    pub fn by_merchant_id_attempt_id(merchant_id: &str, attempt_id: &str) -> (r: AttemptFilter)
        ensures
            forall|a: PaymentAttempt| #[trigger]
                r.matches(a) <==> (a.merchant_id@ == merchant_id@ && a.attempt_id@
                    == attempt_id@),
    {
        AttemptFilter {
            payment_id: None,
            merchant_id: Some(merchant_id.to_owned()),
            connector_transaction_id: None,
            attempt_id: Some(attempt_id.to_owned()),
            status: None,
        }
    }

    /// The charged rows of one payment of one merchant.
    pub fn charged_by_payment_id_merchant_id(payment_id: &str, merchant_id: &str) -> (r:
        AttemptFilter)
        ensures
            forall|a: PaymentAttempt| #[trigger]
                r.matches(a) <==> (a.payment_id@ == payment_id@ && a.merchant_id@
                    == merchant_id@ && a.status == AttemptStatus::Charged),
    {
        AttemptFilter {
            payment_id: Some(payment_id.to_owned()),
            merchant_id: Some(merchant_id.to_owned()),
            connector_transaction_id: None,
            attempt_id: None,
            status: Some(AttemptStatus::Charged),
        }
    }
}

/// Row `i` has the greatest creation time of `rows`, and every later row was
/// created strictly before it: among rows created at the same latest time,
/// the last one in the list.
pub open spec fn is_latest_at(rows: Seq<PaymentAttempt>, i: int) -> bool {
    &&& 0 <= i < rows.len()
    &&& forall|j: int| 0 <= j < rows.len() ==> #[trigger] rows[j].created_at <= rows[i].created_at
    &&& forall|j: int| i < j < rows.len() ==> #[trigger] rows[j].created_at < rows[i].created_at
}

/// The most recently created of `rows`, in one pass; `NotFound` when there
/// is none. Of rows created at the same latest time, the last one wins.
pub fn latest_attempt(rows: Vec<PaymentAttempt>) -> (r: StorageResult<PaymentAttempt>)
    ensures
        match r {
            Ok(a) => exists|i: int| is_latest_at(rows@, i) && a == rows@[i],
            Err(e) => e == DatabaseError::NotFound && rows@.len() == 0,
        },
{
    if rows.len() == 0 {
        return Err(DatabaseError::NotFound);
    }
    let mut best: usize = 0;
    let mut k: usize = 1;
    while k < rows.len()
        invariant
            1 <= k <= rows.len(),
            best < k,
            forall|j: int| 0 <= j < k ==> #[trigger] rows@[j].created_at <= rows@[best as int].created_at,
            forall|j: int| best < j < k ==> #[trigger] rows@[j].created_at < rows@[best as int].created_at,
        decreases rows.len() - k,
    {
        if rows[best].created_at <= rows[k].created_at {
            best = k;
        }
        k = k + 1;
    }
    let ghost before = rows@;
    let mut rows = rows;
    let a = rows.remove(best);
    assert(is_latest_at(before, best as int));
    Ok(a)
}

impl PaymentAttemptNew {
    /// Classifies the engine's answer to inserting this payload.
    pub fn insert(outcome: EngineResult<PaymentAttempt>) -> (r: StorageResult<PaymentAttempt>)
        ensures
            r == match outcome {
                Ok(row) => Ok(row),
                Err(f) => Err(insert_error(f)),
            },
    {
        generic_insert(outcome)
    }
}

/// What an attempt update yields from the update primitive's result: the
/// last updated row; the unmodified attempt when there was nothing to set;
/// `NotFound` when no row was updated; any other error unchanged.
pub open spec fn settled_update(
    current: PaymentAttempt,
    res: StorageResult<Vec<PaymentAttempt>>,
) -> StorageResult<PaymentAttempt> {
    match res {
        Ok(rows) => if rows@.len() > 0 {
            Ok(rows@.last())
        } else {
            Err(DatabaseError::NotFound)
        },
        Err(DatabaseError::NoFieldsToUpdate) => Ok(current),
        Err(e) => Err(e),
    }
}

impl PaymentAttempt {
    /// Settles an update of this attempt from the update primitive's result.
    pub fn settle_update(self, res: StorageResult<Vec<PaymentAttempt>>) -> (r: StorageResult<
        PaymentAttempt,
    >)
        ensures
            r == settled_update(self, res),
    {
        match res {
            Err(DatabaseError::NoFieldsToUpdate) => Ok(self),
            Err(e) => Err(e),
            Ok(mut rows) => match rows.pop() {
                Some(a) => Ok(a),
                None => Err(DatabaseError::NotFound),
            },
        }
    }

    /// Finishes an update of this attempt, issued with the filter
    /// `AttemptFilter::by_payment_id_merchant_id` of its own payment and
    /// merchant, from the engine's answer: the last row it returned;
    /// `NotFound` when it returned none; this attempt unchanged when the
    /// statement could not be built because the changeset sets nothing;
    /// `Others` for any other failure.
    pub fn update(self, outcome: EngineResult<Vec<PaymentAttempt>>) -> (r: StorageResult<
        PaymentAttempt,
    >)
        ensures
            r == settled_update(
                self,
                match outcome {
                    Ok(rows) => Ok(rows),
                    Err(EngineFailure::QueryBuilder) => Err(DatabaseError::NoFieldsToUpdate),
                    Err(_) => Err(DatabaseError::Others),
                },
            ),
            outcome == Err::<Vec<PaymentAttempt>, EngineFailure>(EngineFailure::QueryBuilder) ==> r
                == Ok::<PaymentAttempt, DatabaseError>(self),
    {
        let res = match outcome {
            Err(EngineFailure::QueryBuilder) => Err(DatabaseError::NoFieldsToUpdate),
            other => generic_update_with_results(other),
        };
        self.settle_update(res)
    }

    /// The one attempt of a payment of a merchant, looked up with
    /// `AttemptFilter::by_payment_id_merchant_id`.
    pub fn find_by_payment_id_merchant_id(outcome: EngineResult<PaymentAttempt>) -> (r:
        StorageResult<PaymentAttempt>)
        ensures
            r == lookup(outcome),
    {
        generic_find_one(outcome)
    }

    /// The latest attempt of a payment of a merchant, asked of the engine with
    /// `AttemptFilter::by_payment_id_merchant_id`, newest first, and the limit
    /// `LATEST_ATTEMPT_LIMIT`: at most one row; any failure is `NotFound`.
    pub fn find_latest_by_payment_id_merchant_id(outcome: EngineResult<Vec<PaymentAttempt>>) -> (r:
        StorageResult<Vec<PaymentAttempt>>)
        ensures
            match r {
                Ok(rows) => filtered(outcome, Some(LATEST_ATTEMPT_LIMIT))
                    == Ok::<Seq<PaymentAttempt>, DatabaseError>(rows@) && rows@.len() <= 1,
                Err(e) => e == DatabaseError::NotFound && outcome is Err,
            },
    {
        let r = generic_filter_order(outcome, Some(LATEST_ATTEMPT_LIMIT));
        assert(order_limit(Some(LATEST_ATTEMPT_LIMIT)) == LATEST_ATTEMPT_LIMIT);
        r
    }

    /// The attempt of a payment of a merchant, if there is one.
    pub fn find_optional_by_payment_id_merchant_id(outcome: EngineResult<PaymentAttempt>) -> (r:
        StorageResult<Option<PaymentAttempt>>)
        ensures
            r == optional(lookup(outcome)),
    {
        generic_find_one_optional(outcome)
    }

    /// The attempt of a payment of a merchant with a connector transaction,
    /// looked up with
    /// `AttemptFilter::by_connector_transaction_id_payment_id_merchant_id`.
    pub fn find_by_connector_transaction_id_payment_id_merchant_id(
        outcome: EngineResult<PaymentAttempt>,
    ) -> (r: StorageResult<PaymentAttempt>)
        ensures
            r == lookup(outcome),
    {
        generic_find_one(outcome)
    }

    /// The last successful attempt of a payment of a merchant. The engine is
    /// asked, with `AttemptFilter::charged_by_payment_id_merchant_id` and no
    /// order or limit, for every charged attempt; the latest is picked here.
    /// A failure of that query, or no charged attempt, is `NotFound`.
    pub fn find_last_successful_attempt_by_payment_id_merchant_id(
        outcome: EngineResult<Vec<PaymentAttempt>>,
    ) -> (r: StorageResult<PaymentAttempt>)
        ensures
            match r {
                Ok(a) => outcome is Ok && exists|i: int|
                    is_latest_at(outcome->Ok_0@, i) && a == outcome->Ok_0@[i],
                Err(e) => e == DatabaseError::NotFound && (outcome is Err || outcome->Ok_0@.len()
                    == 0),
            },
    {
        let ghost o = outcome;
        match generic_filter(outcome, None) {
            Ok(rows) => {
                assert(rows@ == capped(o->Ok_0@, None));
                latest_attempt(rows)
            },
            Err(e) => Err(e),
        }
    }

    /// The attempt of a merchant with a connector transaction, looked up with
    /// `AttemptFilter::by_merchant_id_connector_txn_id`.
    pub fn find_by_merchant_id_connector_txn_id(outcome: EngineResult<PaymentAttempt>) -> (r:
        StorageResult<PaymentAttempt>)
        ensures
            r == lookup(outcome),
    {
        generic_find_one(outcome)
    }

    /// The attempt of a merchant with an attempt id, looked up with
    /// `AttemptFilter::by_merchant_id_attempt_id`.
    pub fn find_by_merchant_id_attempt_id(outcome: EngineResult<PaymentAttempt>) -> (r:
        StorageResult<PaymentAttempt>)
        ensures
            r == lookup(outcome),
    {
        generic_find_one(outcome)
    }
}

} // verus!
