use storage_models::errors::{DatabaseError, EngineFailure};
use storage_models::generics::{
    filter_order_limit, generic_delete, generic_delete_one_with_result, generic_filter,
    generic_filter_order, generic_find_by_id, generic_find_by_id_core,
    generic_find_by_id_optional, generic_find_one, generic_find_one_optional, generic_insert,
    generic_update, generic_update_by_id, generic_update_with_results, to_optional,
    UpdateByIdStep,
};

#[test]
fn insert_passes_row_through() {
    assert_eq!(generic_insert::<u32>(Ok(7)), Ok(7));
}

#[test]
fn insert_maps_unique_violation() {
    assert_eq!(
        generic_insert::<u32>(Err(EngineFailure::UniqueViolation)),
        Err(DatabaseError::UniqueViolation)
    );
}

#[test]
fn insert_maps_other_failures_to_others() {
    for f in [EngineFailure::NotFound, EngineFailure::QueryBuilder, EngineFailure::Other] {
        assert_eq!(generic_insert::<u32>(Err(f)), Err(DatabaseError::Others));
    }
}

#[test]
fn update_counts_zero_as_success() {
    assert_eq!(generic_update(Ok(0)), Ok(0));
    assert_eq!(generic_update(Ok(3)), Ok(3));
    assert_eq!(generic_update(Err(EngineFailure::NotFound)), Err(DatabaseError::Others));
    assert_eq!(generic_update(Err(EngineFailure::QueryBuilder)), Err(DatabaseError::Others));
}

#[test]
fn update_with_results_returns_rows_or_others() {
    assert_eq!(generic_update_with_results::<u8>(Ok(vec![1, 2])), Ok(vec![1, 2]));
    assert_eq!(
        generic_update_with_results::<u8>(Err(EngineFailure::UniqueViolation)),
        Err(DatabaseError::Others)
    );
}

fn finish_update_by_id(update: Result<u32, EngineFailure>, current: Result<u32, EngineFailure>) -> Result<u32, DatabaseError> {
    match generic_update_by_id(update) {
        UpdateByIdStep::Done(r) => r,
        UpdateByIdStep::FindCurrent => generic_find_by_id_core(current),
    }
}

#[test]
fn update_by_id_empty_changeset_returns_current_row() {
    assert_eq!(finish_update_by_id(Err(EngineFailure::QueryBuilder), Ok(41)), Ok(41));
}

#[test]
fn update_by_id_empty_changeset_missing_key_is_not_found() {
    assert_eq!(
        finish_update_by_id(Err(EngineFailure::QueryBuilder), Err(EngineFailure::NotFound)),
        Err(DatabaseError::NotFound)
    );
}

#[test]
fn update_by_id_missing_key_is_not_found() {
    assert_eq!(
        finish_update_by_id(Err(EngineFailure::NotFound), Ok(41)),
        Err(DatabaseError::NotFound)
    );
}

#[test]
fn update_by_id_other_failure_is_others() {
    assert_eq!(finish_update_by_id(Err(EngineFailure::Other), Ok(41)), Err(DatabaseError::Others));
    assert_eq!(
        finish_update_by_id(Err(EngineFailure::UniqueViolation), Ok(41)),
        Err(DatabaseError::Others)
    );
}

#[test]
fn update_by_id_returns_updated_row() {
    assert_eq!(finish_update_by_id(Ok(42), Ok(41)), Ok(42));
}

#[test]
fn delete_reports_true_when_rows_went() {
    assert_eq!(generic_delete(Ok(1)), Ok(true));
    assert_eq!(generic_delete(Ok(5)), Ok(true));
}

#[test]
fn delete_of_nothing_is_not_found() {
    assert_eq!(generic_delete(Ok(0)), Err(DatabaseError::NotFound));
}

#[test]
fn delete_failure_is_others() {
    assert_eq!(generic_delete(Err(EngineFailure::NotFound)), Err(DatabaseError::Others));
}

#[test]
fn delete_one_with_result_returns_first_row() {
    assert_eq!(generic_delete_one_with_result::<u8>(Ok(vec![9, 8, 7])), Ok(9));
    assert_eq!(generic_delete_one_with_result::<u8>(Ok(vec![])), Err(DatabaseError::NotFound));
    assert_eq!(
        generic_delete_one_with_result::<u8>(Err(EngineFailure::Other)),
        Err(DatabaseError::Others)
    );
}

#[test]
fn find_by_id_classifies_failures() {
    assert_eq!(generic_find_by_id::<u8>(Ok(3)), Ok(3));
    assert_eq!(generic_find_by_id::<u8>(Err(EngineFailure::NotFound)), Err(DatabaseError::NotFound));
    assert_eq!(generic_find_by_id::<u8>(Err(EngineFailure::QueryBuilder)), Err(DatabaseError::Others));
    assert_eq!(generic_find_by_id_optional::<u8>(Err(EngineFailure::NotFound)), Ok(None));
    assert_eq!(generic_find_by_id_optional::<u8>(Ok(3)), Ok(Some(3)));
    assert_eq!(generic_find_by_id_optional::<u8>(Err(EngineFailure::Other)), Err(DatabaseError::Others));
}

#[test]
fn find_one_optional_is_empty_only_for_not_found() {
    for f in [
        EngineFailure::NotFound,
        EngineFailure::UniqueViolation,
        EngineFailure::QueryBuilder,
        EngineFailure::Other,
    ] {
        let plain = generic_find_one::<u8>(Err(f));
        let optional = generic_find_one_optional::<u8>(Err(f));
        if plain == Err(DatabaseError::NotFound) {
            assert_eq!(optional, Ok(None));
        } else {
            assert_eq!(optional, Err(plain.unwrap_err()));
        }
    }
    assert_eq!(generic_find_one_optional::<u8>(Ok(5)), Ok(Some(5)));
    assert_eq!(generic_find_one::<u8>(Ok(5)), Ok(5));
}

#[test]
fn to_optional_absorbs_only_not_found() {
    assert_eq!(to_optional::<u8>(Err(DatabaseError::NotFound)), Ok(None));
    assert_eq!(to_optional::<u8>(Err(DatabaseError::NoFieldsToUpdate)), Err(DatabaseError::NoFieldsToUpdate));
    assert_eq!(to_optional::<u8>(Err(DatabaseError::UniqueViolation)), Err(DatabaseError::UniqueViolation));
    assert_eq!(to_optional::<u8>(Ok(1)), Ok(Some(1)));
}

#[test]
fn filter_maps_every_failure_to_not_found() {
    for f in [EngineFailure::NotFound, EngineFailure::Other, EngineFailure::UniqueViolation] {
        assert_eq!(generic_filter::<u8>(Err(f), None), Err(DatabaseError::NotFound));
        assert_eq!(generic_filter_order::<u8>(Err(f), None), Err(DatabaseError::NotFound));
    }
}

#[test]
fn filter_keeps_rows_within_limit() {
    assert_eq!(generic_filter::<u8>(Ok(vec![1, 2, 3]), None), Ok(vec![1, 2, 3]));
    assert_eq!(generic_filter::<u8>(Ok(vec![1, 2, 3]), Some(2)), Ok(vec![1, 2]));
    assert_eq!(generic_filter::<u8>(Ok(vec![1, 2, 3]), Some(5)), Ok(vec![1, 2, 3]));
    assert_eq!(generic_filter::<u8>(Ok(vec![]), None), Ok(vec![]));
}

#[test]
fn filter_order_default_limit_is_one_hundred() {
    assert_eq!(filter_order_limit(None), 100);
    assert_eq!(filter_order_limit(Some(7)), 7);
}

#[test]
fn filter_order_without_limit_keeps_first_hundred_in_order() {
    let rows: Vec<u32> = (0..150).rev().collect();
    let kept = generic_filter_order(Ok(rows.clone()), None).unwrap();
    assert_eq!(kept.len(), 100);
    assert_eq!(kept, rows[..100].to_vec());
}

#[test]
fn filter_order_with_limit_uses_it() {
    let kept = generic_filter_order::<u32>(Ok(vec![5, 4, 3]), Some(1)).unwrap();
    assert_eq!(kept, vec![5]);
}
