use crsql_merge::{
    after_value_lookup, after_version_lookup, check_for_local_delete, classify_step,
    crsql_check_for_local_delete, crsql_did_cid_win, AfterVersion, DeleteStatus, Lookup,
    MergeError, StepCode, StepOutcome, StmtKind, DELETED_LOCALLY, SQLITE_DONE, SQLITE_OK,
    SQLITE_ROW,
};

fn compare_text(incoming: &str, local: &str) -> i64 {
    match incoming.cmp(local) {
        std::cmp::Ordering::Less => -1,
        std::cmp::Ordering::Equal => 0,
        std::cmp::Ordering::Greater => 1,
    }
}

fn resolve(incoming_version: i64, version: Lookup, value: Lookup) -> Result<bool, MergeError> {
    match after_version_lookup(incoming_version, version) {
        AfterVersion::Decided(r) => r,
        AfterVersion::CompareValues => after_value_lookup(value),
    }
}

#[test]
fn equal_version_tie_break_loses_to_greater_local_value() {
    let cmp = compare_text("Alice", "Bob");
    assert_eq!(after_version_lookup(5, Ok(StepOutcome::Row(5))), AfterVersion::CompareValues);
    assert_eq!(after_value_lookup(Ok(StepOutcome::Row(cmp))), Ok(false));
    assert_eq!(resolve(5, Ok(StepOutcome::Row(5)), Ok(StepOutcome::Row(cmp))), Ok(false));
}

#[test]
fn newer_incoming_version_wins_regardless_of_values() {
    let cmp = compare_text("Alice", "Bob");
    assert_eq!(after_version_lookup(6, Ok(StepOutcome::Row(5))), AfterVersion::Decided(Ok(true)));
    assert_eq!(resolve(6, Ok(StepOutcome::Row(5)), Ok(StepOutcome::Row(cmp))), Ok(true));
}

#[test]
fn older_incoming_version_loses_regardless_of_values() {
    let cmp = compare_text("Zed", "Bob");
    assert_eq!(after_version_lookup(4, Ok(StepOutcome::Row(5))), AfterVersion::Decided(Ok(false)));
    assert_eq!(resolve(4, Ok(StepOutcome::Row(5)), Ok(StepOutcome::Row(cmp))), Ok(false));
}

#[test]
fn absent_clock_record_wins() {
    assert_eq!(after_version_lookup(1, Ok(StepOutcome::Done)), AfterVersion::Decided(Ok(true)));
    assert_eq!(resolve(i64::MIN, Ok(StepOutcome::Done), Ok(StepOutcome::Done)), Ok(true));
}

#[test]
fn tie_break_is_complementary() {
    let ab = compare_text("Alice", "Bob");
    let ba = compare_text("Bob", "Alice");
    let r1 = resolve(3, Ok(StepOutcome::Row(3)), Ok(StepOutcome::Row(ab)));
    let r2 = resolve(3, Ok(StepOutcome::Row(3)), Ok(StepOutcome::Row(ba)));
    assert_eq!(r1, Ok(false));
    assert_eq!(r2, Ok(true));
}

#[test]
fn tie_break_on_equal_values_keeps_local() {
    let same = compare_text("Bob", "Bob");
    assert_eq!(resolve(3, Ok(StepOutcome::Row(3)), Ok(StepOutcome::Row(same))), Ok(false));
}

#[test]
fn missing_row_at_equal_version_is_an_error() {
    assert_eq!(after_value_lookup(Ok(StepOutcome::Done)), Err(MergeError::MissingRow));
    assert_eq!(
        resolve(7, Ok(StepOutcome::Row(7)), Ok(StepOutcome::Done)),
        Err(MergeError::MissingRow)
    );
}

#[test]
fn unexpected_step_codes_are_errors() {
    assert_eq!(
        after_version_lookup(7, Ok(StepOutcome::Failed(5))),
        AfterVersion::Decided(Err(MergeError::UnexpectedCode(StmtKind::GetColVersion, 5)))
    );
    assert_eq!(after_value_lookup(Ok(StepOutcome::Failed(11))), Err(MergeError::UnexpectedCode(StmtKind::GetCurrValue, 11)));
}

#[test]
fn lookup_errors_pass_through() {
    assert_eq!(
        after_version_lookup(7, Err(MergeError::BindFailed(25))),
        AfterVersion::Decided(Err(MergeError::BindFailed(25)))
    );
    assert_eq!(after_value_lookup(Err(MergeError::PrepareFailed)), Err(MergeError::PrepareFailed));
}

#[test]
fn did_cid_win_codes() {
    assert_eq!(crsql_did_cid_win(&Ok(true)), 1);
    assert_eq!(crsql_did_cid_win(&Ok(false)), 0);
    assert_eq!(crsql_did_cid_win(&Err(MergeError::MissingRow)), -1);
}

#[test]
fn tombstone_found_means_deleted() {
    assert_eq!(check_for_local_delete(Ok(StepOutcome::Row(1))), Ok(DeleteStatus::DeletedLocally));
}

#[test]
fn no_tombstone_means_not_deleted() {
    assert_eq!(check_for_local_delete(Ok(StepOutcome::Done)), Ok(DeleteStatus::NotDeleted));
}

#[test]
fn tombstone_check_errors() {
    assert_eq!(
        check_for_local_delete(Ok(StepOutcome::Failed(10))),
        Err(MergeError::UnexpectedCode(StmtKind::CheckForLocalDelete, 10))
    );
    assert_eq!(
        check_for_local_delete(Err(MergeError::CacheKeyFailed(StmtKind::GetCurrValue))),
        Err(MergeError::CacheKeyFailed(StmtKind::GetCurrValue))
    );
}

#[test]
fn check_for_local_delete_codes() {
    assert_eq!(crsql_check_for_local_delete(&Ok(DeleteStatus::NotDeleted)), SQLITE_OK);
    assert_eq!(crsql_check_for_local_delete(&Ok(DeleteStatus::DeletedLocally)), DELETED_LOCALLY);
    assert_eq!(crsql_check_for_local_delete(&Err(MergeError::UnexpectedCode(StmtKind::CheckForLocalDelete, 10))), 10);
    assert_eq!(crsql_check_for_local_delete(&Err(MergeError::UnexpectedCode(StmtKind::CheckForLocalDelete, -4))), 1);
    assert_eq!(crsql_check_for_local_delete(&Err(MergeError::MissingRow)), 1);
}

#[test]
fn error_codes_are_positive() {
    assert_eq!(MergeError::BindFailed(25).code(), 1);
    assert_eq!(MergeError::UnexpectedCode(StmtKind::GetColVersion, 5).code(), 5);
    assert_eq!(MergeError::BindFailed(0).code(), 1);
    assert_eq!(MergeError::InvalidIdentifier.code(), 1);
    assert_eq!(MergeError::PrepareFailed.code(), 1);
}

#[test]
fn step_codes_are_classified() {
    assert_eq!(classify_step(SQLITE_ROW), StepCode::Row);
    assert_eq!(classify_step(SQLITE_DONE), StepCode::Done);
    assert_eq!(classify_step(100), StepCode::Row);
    assert_eq!(classify_step(101), StepCode::Done);
    assert_eq!(classify_step(5), StepCode::Other(5));
    assert_eq!(classify_step(0), StepCode::Other(0));
}

#[test]
fn failed_bind_in_tombstone_check_reports_generic_error() {
    let r = check_for_local_delete(Err(MergeError::BindFailed(25)));
    assert_eq!(r, Err(MergeError::BindFailed(25)));
    assert_eq!(crsql_check_for_local_delete(&r), 1);
}

#[test]
fn error_messages() {
    assert_eq!(
        MergeError::MissingRow.message("t"),
        "could not find row to merge with for tbl t"
    );
    assert_eq!(
        MergeError::CacheKeyFailed(StmtKind::GetColVersion).message("t"),
        "Failed creating cache key for CACHED_STMT_GET_COL_VERSION"
    );
    assert_eq!(
        MergeError::CacheKeyFailed(StmtKind::GetCurrValue).message("t"),
        "Failed creating cache key for CACHED_STMT_GET_CURR_VALUE"
    );
    assert_eq!(
        MergeError::CacheKeyFailed(StmtKind::CheckForLocalDelete).message("t"),
        "Failed creating cache key for CACHED_STMT_CHECK_FOR_LOCAL_DELETE"
    );
    assert_eq!(
        MergeError::UnexpectedCode(StmtKind::GetColVersion, 5).message("t"),
        "Bad return code when selecting local column version"
    );
    assert_eq!(
        MergeError::UnexpectedCode(StmtKind::GetCurrValue, 5).message("t"),
        "Bad return code when selecting current value"
    );
    assert_eq!(
        MergeError::UnexpectedCode(StmtKind::CheckForLocalDelete, 5).message("t"),
        "Bad return code when checking for local delete"
    );
    assert_eq!(
        MergeError::BindFailed(25).message("items"),
        "Failed binding primary key values for tbl items"
    );
    assert_eq!(MergeError::PrepareFailed.message("t"), "Failed preparing statement for tbl t");
    assert_eq!(MergeError::InvalidIdentifier.message("t"), "identifier is not valid text");
}
