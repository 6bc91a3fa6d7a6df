use vstd::prelude::*;
use crate::cache::{acquired_as, Acquired, CallContext, StmtCaches, StmtKind};
use crate::error::MergeError;
use crate::merge::{delete_status_spec, resolve_result, DeleteStatus, Lookup, StepOutcome};

verus! {

/// At equal versions, resolving a in over b and b in over a gives
/// complementary answers when the comparator orders a and b strictly; when it
/// finds them equal, the incoming value loses in both directions.
/// `a_over_b` and `b_over_a` are the comparator's verdicts on (a, b) and on
/// (b, a), which a total order makes opposite in sign.
pub proof fn lemma_tie_break_complementary(version: i64, a_over_b: i64, b_over_a: i64)
    requires
        a_over_b > 0 <==> b_over_a < 0,
        a_over_b < 0 <==> b_over_a > 0,
    ensures
        ({
            let ra = resolve_result(version, Ok(StepOutcome::Row(version)), Ok(StepOutcome::Row(a_over_b)));
            let rb = resolve_result(version, Ok(StepOutcome::Row(version)), Ok(StepOutcome::Row(b_over_a)));
            &&& ra is Ok && rb is Ok
            &&& a_over_b != 0 ==> ra->Ok_0 != rb->Ok_0
            &&& a_over_b == 0 ==> !ra->Ok_0 && !rb->Ok_0
        }),
{
}

/// A newer incoming version wins and an older one loses, whatever the values.
pub proof fn lemma_version_dominates(incoming_version: i64, local_version: i64, value: Lookup)
    ensures
        incoming_version > local_version ==> resolve_result(
            incoming_version,
            Ok(StepOutcome::Row(local_version)),
            value,
        ) == Ok::<bool, MergeError>(true),
        incoming_version < local_version ==> resolve_result(
            incoming_version,
            Ok(StepOutcome::Row(local_version)),
            value,
        ) == Ok::<bool, MergeError>(false),
{
}

/// Without a local clock record the incoming change wins.
pub proof fn lemma_absent_clock_wins(incoming_version: i64, value: Lookup)
    ensures
        resolve_result(incoming_version, Ok(StepOutcome::Done), value) == Ok::<bool, MergeError>(
            true,
        ),
{
}

/// A clock record at the incoming version whose row is missing gives an
/// error, never an answer.
pub proof fn lemma_missing_row_is_error(version: i64)
    ensures
        resolve_result(version, Ok(StepOutcome::Row(version)), Ok(StepOutcome::Done))
            == Err::<bool, MergeError>(MergeError::MissingRow),
{
}

/// The tombstone check reports a deleted row whenever a sentinel record is
/// found, and a live row when none is.
pub proof fn lemma_tombstone_detected(row: i64)
    ensures
        delete_status_spec(Ok(StepOutcome::Row(row))) == Ok::<DeleteStatus, MergeError>(
            DeleteStatus::DeletedLocally,
        ),
        delete_status_spec(Ok(StepOutcome::Done)) == Ok::<DeleteStatus, MergeError>(
            DeleteStatus::NotDeleted,
        ),
{
}

/// Once a statement is installed for a key in one context, acquiring that key
/// there yields the installed statement and never asks to compile again.
pub proof fn lemma_compiled_once(
    before: StmtCaches,
    after: StmtCaches,
    ctx: CallContext,
    key: (StmtKind, Seq<char>, Option<Seq<char>>),
    handle: u64,
)
    requires
        after.cache_of(ctx) == before.cache_of(ctx).insert(key, handle),
    ensures
        forall|a: Acquired, sql: Seq<char>|
            #[trigger] acquired_as(a, after.cache_of(ctx), key, sql) ==> a == Acquired::Cached(
                handle,
            ),
{
}

/// A nested call never gets a statement of the outer call: whatever key each
/// context looks up, the two statements differ.
pub proof fn lemma_contexts_never_share(
    caches: StmtCaches,
    outer_key: (StmtKind, Seq<char>, Option<Seq<char>>),
    nested_key: (StmtKind, Seq<char>, Option<Seq<char>>),
)
    requires
        caches.wf(),
        caches.cache_of(CallContext::Outer).contains_key(outer_key),
        caches.cache_of(CallContext::Nested).contains_key(nested_key),
    ensures
        caches.cache_of(CallContext::Outer)[outer_key] != caches.cache_of(
            CallContext::Nested,
        )[nested_key],
{
    caches.lemma_lookup_held(CallContext::Outer, outer_key);
    caches.lemma_lookup_held(CallContext::Nested, nested_key);
}

} // verus!
