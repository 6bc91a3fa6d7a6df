//! Conflict-resolution core of a column-level replication layer on a
//! relational store: who wins a concurrent write, whether a row was deleted
//! locally, and the cache of compiled statements that both lookups share.

mod cache;
mod error;
mod ident;
mod laws;
mod merge;
mod query;
mod tombstone;

pub use cache::{
    acquire, acquired_as, cache_key, column_name_param, key_of, kind_has_column, query_sql,
    query_text, same_key, Acquired, CacheKey, CallContext, StmtCache, StmtCaches, StmtKind,
};
pub use error::{error_code_of, message_of, MergeError, SQLITE_ERROR};
pub use ident::{escape_ident, escaped};
pub use laws::{
    lemma_absent_clock_wins, lemma_compiled_once, lemma_contexts_never_share, lemma_missing_row_is_error,
    lemma_tie_break_complementary, lemma_tombstone_detected, lemma_version_dominates,
};
pub use merge::{
    after_value_lookup, after_version_lookup, after_version_spec, check_for_local_delete,
    classify_step, crsql_check_for_local_delete, crsql_did_cid_win, delete_status_spec,
    resolve_result, tie_break_spec, AfterVersion, DeleteStatus, Lookup, StepCode, StepOutcome,
    DELETED_LOCALLY, SQLITE_DONE, SQLITE_OK, SQLITE_ROW,
};
pub use query::{
    col_version_query, col_version_sql, curr_value_query, curr_value_sql, local_delete_query,
    local_delete_sql, DELETE_SENTINEL,
};
pub use tombstone::{
    can_advance_spec, delete_key, start_local_delete_check, CheckAction, CheckEvent, CheckPhase,
    LocalDeleteCheck,
};
