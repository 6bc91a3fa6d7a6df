use vstd::prelude::*;
use crate::cache::StmtKind;
use crate::error::MergeError;

verus! {

/// Result code of the underlying engine for success.
pub const SQLITE_OK: i32 = 0;

/// Status code reported for a row that carries a tombstone locally.
pub const DELETED_LOCALLY: i32 = -1;

/// What one step of a cached lookup statement returned. For the version
/// lookup a row carries the local column version; for the current-value
/// lookup it carries the comparator's verdict on (incoming, local): negative,
/// zero or positive; for the delete lookup its content does not matter.
#[derive(Clone, Copy, Debug, PartialEq, Eq, Structural)]
pub enum StepOutcome {
    Row(i64),
    Done,
    Failed(i32),
}

/// Step result code: a row is available.
pub const SQLITE_ROW: i32 = 100;

/// Step result code: no more rows.
pub const SQLITE_DONE: i32 = 101;

/// What the result code of a statement step says.
#[derive(Clone, Copy, Debug, PartialEq, Eq, Structural)]
pub enum StepCode {
    Row,
    Done,
    Other(i32),
}

/// Classifies a step's result code; anything but a row or the end of rows
/// is unexpected.
pub fn classify_step(rc: i32) -> (r: StepCode)
    ensures
        rc == SQLITE_ROW ==> r == StepCode::Row,
        rc == SQLITE_DONE ==> r == StepCode::Done,
        rc != SQLITE_ROW && rc != SQLITE_DONE ==> r == StepCode::Other(rc),
{
    if rc == SQLITE_ROW {
        StepCode::Row
    } else if rc == SQLITE_DONE {
        StepCode::Done
    } else {
        StepCode::Other(rc)
    }
}

/// A lookup as the caller ran it: the step's outcome, or the error met while
/// obtaining or binding its statement.
pub type Lookup = Result<StepOutcome, MergeError>;

/// What the resolver does once the local version is known.
#[derive(Clone, Copy, Debug, PartialEq, Eq)]
pub enum AfterVersion {
    /// The versions decide: this is the answer.
    Decided(Result<bool, MergeError>),
    /// The versions are equal: the live values decide.
    CompareValues,
}

pub open spec fn after_version_spec(incoming_version: i64, version: Lookup) -> AfterVersion {
    match version {
        Err(e) => AfterVersion::Decided(Err(e)),
        Ok(StepOutcome::Done) => AfterVersion::Decided(Ok(true)),
        Ok(StepOutcome::Failed(rc)) => AfterVersion::Decided(
            Err(MergeError::UnexpectedCode(StmtKind::GetColVersion, rc)),
        ),
        Ok(StepOutcome::Row(local)) => if incoming_version > local {
            AfterVersion::Decided(Ok(true))
        } else if incoming_version < local {
            AfterVersion::Decided(Ok(false))
        } else {
            AfterVersion::CompareValues
        },
    }
}

pub open spec fn tie_break_spec(value: Lookup) -> Result<bool, MergeError> {
    match value {
        Err(e) => Err(e),
        Ok(StepOutcome::Row(cmp)) => Ok(cmp > 0),
        Ok(StepOutcome::Done) => Err(MergeError::MissingRow),
        Ok(StepOutcome::Failed(rc)) => Err(MergeError::UnexpectedCode(StmtKind::GetCurrValue, rc)),
    }
}

/// Whether an incoming column change wins over local state, given the local
/// version lookup and, where the versions are equal, the current-value lookup.
pub open spec fn resolve_result(incoming_version: i64, version: Lookup, value: Lookup) -> Result<
    bool,
    MergeError,
> {
    match after_version_spec(incoming_version, version) {
        AfterVersion::Decided(r) => r,
        AfterVersion::CompareValues => tie_break_spec(value),
    }
}

/// First decision of the resolver, on the local clock record's version: no
/// record means the incoming change wins; a newer incoming version wins and an
/// older one loses; equal versions go on to compare the live values.
pub fn after_version_lookup(incoming_version: i64, version: Lookup) -> (r: AfterVersion)
    ensures
        r == after_version_spec(incoming_version, version),
{
    match version {
        Err(e) => AfterVersion::Decided(Err(e)),
        Ok(StepOutcome::Done) => AfterVersion::Decided(Ok(true)),
        Ok(StepOutcome::Failed(rc)) => AfterVersion::Decided(
            Err(MergeError::UnexpectedCode(StmtKind::GetColVersion, rc)),
        ),
        Ok(StepOutcome::Row(local)) => {
            if incoming_version > local {
                AfterVersion::Decided(Ok(true))
            } else if incoming_version < local {
                AfterVersion::Decided(Ok(false))
            } else {
                AfterVersion::CompareValues
            }
        },
    }
}

/// Tie-break on equal versions: the incoming value wins iff it sorts strictly
/// after the local one. A missing row is an integrity error.
pub fn after_value_lookup(value: Lookup) -> (r: Result<bool, MergeError>)
    ensures
        r == tie_break_spec(value),
{
    match value {
        Err(e) => Err(e),
        Ok(StepOutcome::Row(cmp)) => Ok(cmp > 0),
        Ok(StepOutcome::Done) => Err(MergeError::MissingRow),
        Ok(StepOutcome::Failed(rc)) => Err(MergeError::UnexpectedCode(StmtKind::GetCurrValue, rc)),
    }
}

/// The status code of a resolution: 1 when the incoming change wins, 0 when
/// it loses, -1 on error.
pub fn crsql_did_cid_win(result: &Result<bool, MergeError>) -> (r: i32)
    ensures
        r == match *result {
            Ok(true) => 1i32,
            Ok(false) => 0i32,
            Err(_) => -1i32,
        },
{
    match result {
        Ok(did_win) => if *did_win {
            1
        } else {
            0
        },
        Err(_) => -1,
    }
}

/// Whether a row carries a tombstone in the local clock records.
#[derive(Clone, Copy, Debug, PartialEq, Eq, Structural)]
pub enum DeleteStatus {
    NotDeleted,
    DeletedLocally,
}

pub open spec fn delete_status_spec(lookup: Lookup) -> Result<DeleteStatus, MergeError> {
    match lookup {
        Err(e) => Err(e),
        Ok(StepOutcome::Row(_)) => Ok(DeleteStatus::DeletedLocally),
        Ok(StepOutcome::Done) => Ok(DeleteStatus::NotDeleted),
        Ok(StepOutcome::Failed(rc)) => Err(MergeError::UnexpectedCode(StmtKind::CheckForLocalDelete, rc)),
    }
}

/// Decides on the outcome of the tombstone lookup: a record with the delete
/// sentinel means the row was deleted locally, none means it was not.
pub fn check_for_local_delete(lookup: Lookup) -> (r: Result<DeleteStatus, MergeError>)
    ensures
        r == delete_status_spec(lookup),
{
    match lookup {
        Err(e) => Err(e),
        Ok(StepOutcome::Row(_)) => Ok(DeleteStatus::DeletedLocally),
        Ok(StepOutcome::Done) => Ok(DeleteStatus::NotDeleted),
        Ok(StepOutcome::Failed(rc)) => Err(MergeError::UnexpectedCode(StmtKind::CheckForLocalDelete, rc)),
    }
}

/// The status code of a tombstone check: `SQLITE_OK` when not deleted,
/// `DELETED_LOCALLY` when deleted, and the error's positive code otherwise.
pub fn crsql_check_for_local_delete(result: &Result<DeleteStatus, MergeError>) -> (r: i32)
    ensures
        r == match *result {
            Ok(DeleteStatus::NotDeleted) => SQLITE_OK,
            Ok(DeleteStatus::DeletedLocally) => DELETED_LOCALLY,
            Err(e) => crate::error::error_code_of(e),
        },
{
    match result {
        Ok(DeleteStatus::NotDeleted) => SQLITE_OK,
        Ok(DeleteStatus::DeletedLocally) => DELETED_LOCALLY,
        Err(e) => e.code(),
    }
}

} // verus!
