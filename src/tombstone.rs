use vstd::prelude::*;
use crate::cache::{acquire, Acquired, CacheKey, CallContext, StmtCaches, StmtKind};
use crate::error::MergeError;
use crate::merge::{check_for_local_delete, delete_status_spec, DeleteStatus, Lookup};
use crate::query::local_delete_sql;

verus! {

/// Where a tombstone check stands.
#[derive(Debug)]
pub enum CheckPhase {
    /// Waiting for the compilation of its statement, to be cached under this key.
    Compiling(CacheKey),
    /// Waiting for the step of this statement.
    Running(u64),
    /// Done.
    Finished,
}

/// A tombstone check of one row in progress, in one call context.
#[derive(Debug)]
pub struct LocalDeleteCheck {
    pub ctx: CallContext,
    pub phase: CheckPhase,
}

/// What the caller does next for a tombstone check.
#[derive(Debug)]
pub enum CheckAction {
    /// Compile this text as a persistent statement, then report `Compiled`.
    Compile(String),
    /// Bind the primary-key tuple to this statement, step it once, reset it,
    /// then report `Stepped`.
    Run(u64),
    /// The check is over with this answer.
    Finish(Result<DeleteStatus, MergeError>),
}

/// What the caller reports back to a tombstone check.
#[derive(Clone, Copy, Debug)]
pub enum CheckEvent {
    /// How compiling the statement went: its handle, or the engine's code.
    Compiled(Result<u64, i32>),
    /// How running the statement went.
    Stepped(Lookup),
}

/// The key of the tombstone statement of `table`.
pub open spec fn delete_key(table: Seq<char>) -> (StmtKind, Seq<char>, Option<Seq<char>>) {
    (StmtKind::CheckForLocalDelete, table, None)
}

/// Whether `advance` may take `event` now: the event answers the action
/// asked for, the statement being compiled is not cached yet, and a newly
/// compiled statement is one that neither context holds.
pub open spec fn can_advance_spec(
    check: LocalDeleteCheck,
    caches: StmtCaches,
    event: CheckEvent,
) -> bool {
    &&& caches.wf()
    &&& match (check.phase, event) {
        (CheckPhase::Compiling(k), CheckEvent::Compiled(outcome)) => {
            &&& !caches.cache_of(check.ctx).contains_key(k@)
            &&& outcome is Ok ==> !caches.holds_in(CallContext::Outer, outcome->Ok_0)
            &&& outcome is Ok ==> !caches.holds_in(CallContext::Nested, outcome->Ok_0)
        },
        (CheckPhase::Running(_), CheckEvent::Stepped(_)) => true,
        _ => false,
    }
}

/// Starts the tombstone check of a row of `table` in `ctx`. The statement is
/// the cached one where the context has it; otherwise the caller is asked to
/// compile the existence query for a sentinel clock record of that row.
pub fn start_local_delete_check(
    caches: &StmtCaches,
    ctx: CallContext,
    table: &str,
    pk_where: &str,
) -> (r: (LocalDeleteCheck, CheckAction))
    ensures
        r.0.ctx == ctx,
        caches.cache_of(ctx).contains_key(delete_key(table@)) ==> {
            let h = caches.cache_of(ctx)[delete_key(table@)];
            &&& r.0.phase matches CheckPhase::Running(p) && p == h
            &&& r.1 matches CheckAction::Run(a) && a == h
        },
        !caches.cache_of(ctx).contains_key(delete_key(table@)) ==> {
            &&& r.0.phase matches CheckPhase::Compiling(k) && k@ == delete_key(table@)
            &&& r.1 matches CheckAction::Compile(sql) && sql@ == local_delete_sql(table@, pk_where@)
        },
{
    match acquire(caches, ctx, StmtKind::CheckForLocalDelete, table, None, pk_where) {
        Ok(Acquired::Cached(h)) => (
            LocalDeleteCheck { ctx, phase: CheckPhase::Running(h) },
            CheckAction::Run(h),
        ),
        Ok(Acquired::Compile(key, sql)) => (
            LocalDeleteCheck { ctx, phase: CheckPhase::Compiling(key) },
            CheckAction::Compile(sql),
        ),
        Err(e) => (LocalDeleteCheck { ctx, phase: CheckPhase::Finished }, CheckAction::Finish(Err(e))),
    }
}

impl LocalDeleteCheck {
    /// Whether `advance` may take `event` now.
    pub fn can_advance(&self, caches: &StmtCaches, event: &CheckEvent) -> (r: bool)
        requires
            caches.wf(),
        ensures
            r == can_advance_spec(*self, *caches, *event),
    {
        match (&self.phase, event) {
            (CheckPhase::Compiling(k), CheckEvent::Compiled(outcome)) => {
                if caches.lookup(self.ctx, k).is_some() {
                    return false;
                }
                match outcome {
                    Ok(h) => !caches.holds_handle(*h),
                    Err(_) => true,
                }
            },
            (CheckPhase::Running(_), CheckEvent::Stepped(_)) => true,
            _ => false,
        }
    }

    /// Takes the caller's report and says what comes next. A compiled
    /// statement is cached for this context and then run; a failed
    /// compilation ends the check with an error and caches nothing; a step
    /// ends the check with the tombstone decision on it.
    pub fn advance(&mut self, caches: &mut StmtCaches, event: CheckEvent) -> (r: CheckAction)
        requires
            can_advance_spec(*old(self), *old(caches), event),
        ensures
            final(caches).wf(),
            final(self).ctx == old(self).ctx,
            match (old(self).phase, event) {
                (CheckPhase::Compiling(k), CheckEvent::Compiled(Ok(h))) => {
                    &&& r matches CheckAction::Run(a) && a == h
                    &&& final(self).phase matches CheckPhase::Running(p) && p == h
                    &&& final(caches).cache_of(old(self).ctx) == old(caches).cache_of(
                        old(self).ctx,
                    ).insert(k@, h)
                    &&& forall|other: CallContext|
                        other != old(self).ctx ==> #[trigger] final(caches).cache_of(other)
                            == old(caches).cache_of(other)
                },
                (CheckPhase::Compiling(_), CheckEvent::Compiled(Err(_))) => {
                    &&& r matches CheckAction::Finish(res) && res == Err::<DeleteStatus, MergeError>(
                        MergeError::PrepareFailed,
                    )
                    &&& final(self).phase is Finished
                    &&& forall|c: CallContext| #[trigger] final(caches).cache_of(c) == old(
                        caches,
                    ).cache_of(c)
                },
                (_, CheckEvent::Stepped(lookup)) => {
                    &&& r matches CheckAction::Finish(res) && res == delete_status_spec(lookup)
                    &&& final(self).phase is Finished
                    &&& *final(caches) == *old(caches)
                },
                _ => false,
            },
    {
        let mut phase = CheckPhase::Finished;
        std::mem::swap(&mut self.phase, &mut phase);
        match (phase, event) {
            (CheckPhase::Compiling(k), CheckEvent::Compiled(outcome)) => {
                match caches.compiled(self.ctx, k, outcome) {
                    Ok(h) => {
                        self.phase = CheckPhase::Running(h);
                        CheckAction::Run(h)
                    },
                    Err(e) => CheckAction::Finish(Err(e)),
                }
            },
            (_, CheckEvent::Stepped(lookup)) => CheckAction::Finish(check_for_local_delete(lookup)),
            (_, CheckEvent::Compiled(_)) => CheckAction::Finish(Err(MergeError::PrepareFailed)),
        }
    }
}

} // verus!
