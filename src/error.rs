use vstd::prelude::*;
use crate::cache::StmtKind;

verus! {

/// Result code of the underlying engine for a generic failure.
pub const SQLITE_ERROR: i32 = 1;

/// Why a merge lookup failed.
#[derive(Clone, Copy, Debug, PartialEq, Eq, Structural)]
pub enum MergeError {
    /// An identifier handed in was not valid text.
    InvalidIdentifier,
    /// No cache key can be formed for a statement of this kind.
    CacheKeyFailed(StmtKind),
    /// The query text of a statement did not compile.
    PrepareFailed,
    /// Binding the primary-key tuple or the column name failed with this code.
    BindFailed(i32),
    /// A step of the statement of this kind returned this code, neither a row
    /// nor the end of rows.
    UnexpectedCode(StmtKind, i32),
    /// A clock record exists at the incoming version but its row is gone.
    MissingRow,
}

/// The numeric code reported for an error: the step's own code where it is
/// a failure code, the generic failure code otherwise.
pub open spec fn error_code_of(e: MergeError) -> i32 {
    match e {
        MergeError::UnexpectedCode(_, rc) => if rc > 0 {
            rc
        } else {
            SQLITE_ERROR
        },
        _ => SQLITE_ERROR,
    }
}

/// The text reported for an error met while merging into `table`.
pub open spec fn message_of(e: MergeError, table: Seq<char>) -> Seq<char> {
    match e {
        MergeError::InvalidIdentifier => "identifier is not valid text"@,
        MergeError::CacheKeyFailed(StmtKind::GetColVersion) =>
            "Failed creating cache key for CACHED_STMT_GET_COL_VERSION"@,
        MergeError::CacheKeyFailed(StmtKind::GetCurrValue) =>
            "Failed creating cache key for CACHED_STMT_GET_CURR_VALUE"@,
        MergeError::CacheKeyFailed(StmtKind::CheckForLocalDelete) =>
            "Failed creating cache key for CACHED_STMT_CHECK_FOR_LOCAL_DELETE"@,
        MergeError::PrepareFailed => "Failed preparing statement for tbl "@ + table,
        MergeError::BindFailed(_) => "Failed binding primary key values for tbl "@ + table,
        MergeError::UnexpectedCode(StmtKind::GetColVersion, _) =>
            "Bad return code when selecting local column version"@,
        MergeError::UnexpectedCode(StmtKind::GetCurrValue, _) =>
            "Bad return code when selecting current value"@,
        MergeError::UnexpectedCode(StmtKind::CheckForLocalDelete, _) =>
            "Bad return code when checking for local delete"@,
        MergeError::MissingRow => "could not find row to merge with for tbl "@ + table,
    }
}

impl MergeError {
    /// The numeric code reported to callers for this error.
    pub fn code(&self) -> (r: i32)
        ensures
            r == error_code_of(*self),
            r > 0,
    {
        match *self {
            MergeError::UnexpectedCode(_, rc) => if rc > 0 {
                rc
            } else {
                SQLITE_ERROR
            },
            _ => SQLITE_ERROR,
        }
    }

    /// The message reported to callers for this error, met while merging
    /// into `table`.
    pub fn message(&self, table: &str) -> (r: String)
        ensures
            r@ == message_of(*self, table@),
    {
        match *self {
            MergeError::InvalidIdentifier => String::from_str("identifier is not valid text"),
            MergeError::CacheKeyFailed(StmtKind::GetColVersion) => String::from_str(
                "Failed creating cache key for CACHED_STMT_GET_COL_VERSION",
            ),
            MergeError::CacheKeyFailed(StmtKind::GetCurrValue) => String::from_str(
                "Failed creating cache key for CACHED_STMT_GET_CURR_VALUE",
            ),
            MergeError::CacheKeyFailed(StmtKind::CheckForLocalDelete) => String::from_str(
                "Failed creating cache key for CACHED_STMT_CHECK_FOR_LOCAL_DELETE",
            ),
            MergeError::PrepareFailed => {
                let mut m = String::from_str("Failed preparing statement for tbl ");
                m.append(table);
                m
            },
            MergeError::BindFailed(_) => {
                let mut m = String::from_str("Failed binding primary key values for tbl ");
                m.append(table);
                m
            },
            MergeError::UnexpectedCode(StmtKind::GetColVersion, _) => String::from_str(
                "Bad return code when selecting local column version",
            ),
            MergeError::UnexpectedCode(StmtKind::GetCurrValue, _) => String::from_str(
                "Bad return code when selecting current value",
            ),
            MergeError::UnexpectedCode(StmtKind::CheckForLocalDelete, _) => String::from_str(
                "Bad return code when checking for local delete",
            ),
            MergeError::MissingRow => {
                let mut m = String::from_str("could not find row to merge with for tbl ");
                m.append(table);
                m
            },
        }
    }
}

} // verus!
