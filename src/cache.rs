use vstd::prelude::*;
use crate::error::MergeError;
use crate::query::{
    col_version_query, col_version_sql, curr_value_query, curr_value_sql, local_delete_query,
    local_delete_sql,
};

verus! {

/// The kinds of statement that the merge lookups compile and cache.
#[derive(Clone, Copy, Debug, PartialEq, Eq, Structural)]
pub enum StmtKind {
    GetColVersion,
    GetCurrValue,
    CheckForLocalDelete,
}

/// Whether statements of this kind are specific to one column.
pub open spec fn kind_has_column(kind: StmtKind) -> bool {
    kind == StmtKind::GetCurrValue
}

pub open spec fn opt_view(o: Option<String>) -> Option<Seq<char>> {
    match o {
        Some(s) => Some(s@),
        None => None,
    }
}

/// The key under which one compiled statement is cached.
#[derive(Debug)]
pub struct CacheKey {
    pub kind: StmtKind,
    pub table: String,
    pub column: Option<String>,
}

impl View for CacheKey {
    type V = (StmtKind, Seq<char>, Option<Seq<char>>);

    open spec fn view(&self) -> Self::V {
        (self.kind, self.table@, opt_view(self.column))
    }
}

/// The canonical key of (kind, table, column): the column counts only for
/// kinds that are specific to one column, and such a kind cannot do without it.
pub open spec fn key_of(kind: StmtKind, table: Seq<char>, column: Option<Seq<char>>) -> Option<
    (StmtKind, Seq<char>, Option<Seq<char>>),
> {
    if kind_has_column(kind) {
        match column {
            Some(c) => Some((kind, table, Some(c))),
            None => None,
        }
    } else {
        Some((kind, table, None))
    }
}

pub open spec fn opt_str_view(o: Option<&str>) -> Option<Seq<char>> {
    match o {
        Some(s) => Some(s@),
        None => None,
    }
}

/// Builds the cache key of a statement kind for `table` (and `column`).
pub fn cache_key(kind: StmtKind, table: &str, column: Option<&str>) -> (r: Result<
    CacheKey,
    MergeError,
>)
    ensures
        key_of(kind, table@, opt_str_view(column)) is None <==> r == Err::<CacheKey, MergeError>(
            MergeError::CacheKeyFailed(kind),
        ),
        r is Ok ==> Some(r->Ok_0@) == key_of(kind, table@, opt_str_view(column)),
        r is Err ==> key_of(kind, table@, opt_str_view(column)) is None,
{
    let t = String::from_str(table);
    match kind {
        StmtKind::GetCurrValue => match column {
            Some(c) => Ok(CacheKey { kind, table: t, column: Some(String::from_str(c)) }),
            None => Err(MergeError::CacheKeyFailed(kind)),
        },
        _ => Ok(CacheKey { kind, table: t, column: None }),
    }
}

/// Whether two keys name the same statement.
pub fn same_key(a: &CacheKey, b: &CacheKey) -> (r: bool)
    ensures
        r == (a@ == b@),
{
    if a.kind != b.kind || a.table != b.table {
        return false;
    }
    match (&a.column, &b.column) {
        (Some(x), Some(y)) => *x == *y,
        (None, None) => true,
        _ => false,
    }
}

/// The handle cached under `k` in a list of entries: the first entry with
/// that key.
pub open spec fn find(s: Seq<((StmtKind, Seq<char>, Option<Seq<char>>), u64)>, k: (
    StmtKind,
    Seq<char>,
    Option<Seq<char>>,
)) -> Option<u64>
    decreases s.len(),
{
    if s.len() == 0 {
        None
    } else {
        match find(s.drop_last(), k) {
            Some(h) => Some(h),
            None => if s.last().0 == k {
                Some(s.last().1)
            } else {
                None
            },
        }
    }
}

proof fn lemma_find_prefix(
    s: Seq<((StmtKind, Seq<char>, Option<Seq<char>>), u64)>,
    j: int,
    k: (StmtKind, Seq<char>, Option<Seq<char>>),
)
    requires
        0 <= j <= s.len(),
        find(s.take(j), k) is Some,
    ensures
        find(s, k) == find(s.take(j), k),
    decreases s.len(),
{
    if j < s.len() {
        assert(s.drop_last().take(j) =~= s.take(j));
        lemma_find_prefix(s.drop_last(), j, k);
    } else {
        assert(s.take(j) =~= s);
    }
}

proof fn lemma_find_held(
    s: Seq<((StmtKind, Seq<char>, Option<Seq<char>>), u64)>,
    k: (StmtKind, Seq<char>, Option<Seq<char>>),
)
    requires
        find(s, k) is Some,
    ensures
        exists|i: int| 0 <= i < s.len() && #[trigger] s[i].1 == find(s, k)->Some_0,
    decreases s.len(),
{
    if find(s.drop_last(), k) is Some {
        lemma_find_held(s.drop_last(), k);
        let i = choose|i: int| 0 <= i < s.drop_last().len() && #[trigger] s.drop_last()[i].1 == find(s.drop_last(), k)->Some_0;
        assert(s[i].1 == find(s, k)->Some_0);
    } else {
        assert(s[s.len() - 1].1 == find(s, k)->Some_0);
    }
}

/// Compiled statements of one call context, by key. A statement handle is
/// the number under which the caller keeps the compiled object.
pub struct StmtCache {
    entries: Vec<(CacheKey, u64)>,
}

impl StmtCache {
    pub closed spec fn entry_views(&self) -> Seq<((StmtKind, Seq<char>, Option<Seq<char>>), u64)> {
        self.entries@.map_values(|e: (CacheKey, u64)| (e.0@, e.1))
    }

    /// Whether the cache holds the statement `handle`.
    pub closed spec fn holds(&self, handle: u64) -> bool {
        exists|i: int| 0 <= i < self.entries@.len() && #[trigger] self.entries@[i].1 == handle
    }

    /// Every statement that a key looks up is one that the cache holds.
    pub proof fn lemma_lookup_held(&self, k: (StmtKind, Seq<char>, Option<Seq<char>>))
        requires
            self@.contains_key(k),
        ensures
            self.holds(self@[k]),
    {
        lemma_find_held(self.entry_views(), k);
        let i = choose|i: int|
            0 <= i < self.entry_views().len() && #[trigger] self.entry_views()[i].1 == find(
                self.entry_views(),
                k,
            )->Some_0;
        assert(self.entries@[i].1 == self@[k]);
    }

    /// Whether the cache holds the statement `handle`.
    pub fn holds_handle(&self, handle: u64) -> (r: bool)
        ensures
            r == self.holds(handle),
    {
        let n = self.entries.len();
        let mut i: usize = 0;
        while i < n
            invariant
                n == self.entries@.len(),
                i <= n,
                forall|j: int| 0 <= j < i ==> #[trigger] self.entries@[j].1 != handle,
            decreases n - i,
        {
            if self.entries[i].1 == handle {
                return true;
            }
            i = i + 1;
        }
        false
    }

    /// An empty cache.
    pub fn new() -> (r: StmtCache)
        ensures
            r@ == Map::<(StmtKind, Seq<char>, Option<Seq<char>>), u64>::empty(),
            forall|h: u64| !#[trigger] r.holds(h),
    {
        let r = StmtCache { entries: Vec::new() };
        assert(r@ =~= Map::<(StmtKind, Seq<char>, Option<Seq<char>>), u64>::empty());
        r
    }

    /// The statement cached under `key`, if any.
    pub fn lookup(&self, key: &CacheKey) -> (r: Option<u64>)
        ensures
            r == (if self@.contains_key(key@) {
                Some(self@[key@])
            } else {
                None
            }),
    {
        let n = self.entries.len();
        let mut i: usize = 0;
        while i < n
            invariant
                n == self.entries@.len(),
                i <= n,
                find(self.entry_views().take(i as int), key@) is None,
            decreases n - i,
        {
            let e = &self.entries[i];
            proof {
                let s = self.entry_views();
                assert(s.take(i + 1).drop_last() =~= s.take(i as int));
            }
            if same_key(&e.0, key) {
                proof {
                    lemma_find_prefix(self.entry_views(), i + 1, key@);
                }
                return Some(e.1);
            }
            i = i + 1;
        }
        assert(self.entry_views().take(n as int) =~= self.entry_views());
        None
    }

    /// Caches a newly compiled statement under a key that has none yet.
    pub fn install(&mut self, key: CacheKey, handle: u64)
        requires
            !old(self)@.contains_key(key@),
        ensures
            final(self)@ == old(self)@.insert(key@, handle),
            forall|h: u64| #[trigger] final(self).holds(h) == (old(self).holds(h) || h == handle),
    {
        let ghost k = key@;
        let ghost before = self.entry_views();
        self.entries.push((key, handle));
        proof {
            let after = self.entry_views();
            assert(after.drop_last() =~= before);
            assert(after.last() == (k, handle));
            assert(self@ =~= old(self)@.insert(k, handle));
            let n = old(self).entries@.len();
            assert(self.entries@[n as int].1 == handle);
            assert forall|h: u64| #[trigger] self.holds(h) == (old(self).holds(h) || h == handle) by {
                if self.holds(h) {
                    let i = choose|i: int| 0 <= i < self.entries@.len() && #[trigger] self.entries@[i].1 == h;
                    if i < n {
                        assert(old(self).entries@[i].1 == h);
                    }
                }
                if old(self).holds(h) {
                    let i = choose|i: int| 0 <= i < old(self).entries@.len() && #[trigger] old(self).entries@[i].1 == h;
                    assert(self.entries@[i].1 == h);
                }
            }
        }
    }
}

impl View for StmtCache {
    type V = Map<(StmtKind, Seq<char>, Option<Seq<char>>), u64>;

    closed spec fn view(&self) -> Self::V {
        Map::new(
            |k: (StmtKind, Seq<char>, Option<Seq<char>>)| find(self.entry_views(), k) is Some,
            |k: (StmtKind, Seq<char>, Option<Seq<char>>)| find(self.entry_views(), k)->Some_0,
        )
    }
}

/// The call context a lookup runs in: the outer, writing one, or one nested
/// inside it (a trigger fired while a statement of the outer one is stepping).
#[derive(Clone, Copy, Debug, PartialEq, Eq, Structural)]
pub enum CallContext {
    Outer,
    Nested,
}

/// One independent statement cache per call context, so that a nested call
/// never reuses a statement that the outer call is still stepping.
pub struct StmtCaches {
    outer: StmtCache,
    nested: StmtCache,
}

impl StmtCaches {
    /// The cache of one context.
    pub closed spec fn cache_of(&self, ctx: CallContext) -> Map<
        (StmtKind, Seq<char>, Option<Seq<char>>),
        u64,
    > {
        match ctx {
            CallContext::Outer => self.outer@,
            CallContext::Nested => self.nested@,
        }
    }

    /// Whether the cache of `ctx` holds the statement `handle`.
    pub closed spec fn holds_in(&self, ctx: CallContext, handle: u64) -> bool {
        match ctx {
            CallContext::Outer => self.outer.holds(handle),
            CallContext::Nested => self.nested.holds(handle),
        }
    }

    /// No statement is cached in both contexts.
    pub open spec fn wf(&self) -> bool {
        forall|h: u64|
            !(#[trigger] self.holds_in(CallContext::Outer, h) && self.holds_in(
                CallContext::Nested,
                h,
            ))
    }

    /// Every statement that a key looks up in a context is one that the
    /// cache of that context holds.
    pub proof fn lemma_lookup_held(&self, ctx: CallContext, k: (StmtKind, Seq<char>, Option<Seq<char>>))
        requires
            self.cache_of(ctx).contains_key(k),
        ensures
            self.holds_in(ctx, self.cache_of(ctx)[k]),
    {
        match ctx {
            CallContext::Outer => self.outer.lemma_lookup_held(k),
            CallContext::Nested => self.nested.lemma_lookup_held(k),
        }
    }

    /// Whether either context holds the statement `handle`.
    pub fn holds_handle(&self, handle: u64) -> (r: bool)
        ensures
            r == (self.holds_in(CallContext::Outer, handle) || self.holds_in(
                CallContext::Nested,
                handle,
            )),
    {
        self.outer.holds_handle(handle) || self.nested.holds_handle(handle)
    }

    /// Empty caches for both contexts.
    pub fn new() -> (r: StmtCaches)
        ensures
            r.wf(),
            forall|ctx: CallContext, h: u64| !#[trigger] r.holds_in(ctx, h),
            forall|ctx: CallContext|
                #[trigger] r.cache_of(ctx) == Map::<
                    (StmtKind, Seq<char>, Option<Seq<char>>),
                    u64,
                >::empty(),
    {
        StmtCaches { outer: StmtCache::new(), nested: StmtCache::new() }
    }

    /// The statement cached under `key` for `ctx`, if any.
    pub fn lookup(&self, ctx: CallContext, key: &CacheKey) -> (r: Option<u64>)
        ensures
            r == (if self.cache_of(ctx).contains_key(key@) {
                Some(self.cache_of(ctx)[key@])
            } else {
                None
            }),
    {
        match ctx {
            CallContext::Outer => self.outer.lookup(key),
            CallContext::Nested => self.nested.lookup(key),
        }
    }

    /// Caches a newly compiled statement for `ctx`; the other context's
    /// cache is left as it was. The statement must be one that neither
    /// context holds yet.
    pub fn install(&mut self, ctx: CallContext, key: CacheKey, handle: u64)
        requires
            old(self).wf(),
            !old(self).cache_of(ctx).contains_key(key@),
            !old(self).holds_in(CallContext::Outer, handle),
            !old(self).holds_in(CallContext::Nested, handle),
        ensures
            final(self).wf(),
            final(self).cache_of(ctx) == old(self).cache_of(ctx).insert(key@, handle),
            forall|c: CallContext, h: u64|
                #[trigger] final(self).holds_in(c, h) == (old(self).holds_in(c, h) || (c == ctx
                    && h == handle)),
            forall|other: CallContext|
                other != ctx ==> #[trigger] final(self).cache_of(other) == old(self).cache_of(
                    other,
                ),
    {
        match ctx {
            CallContext::Outer => self.outer.install(key, handle),
            CallContext::Nested => self.nested.install(key, handle),
        }
        proof {
            assert forall|h: u64|
                !(#[trigger] self.holds_in(CallContext::Outer, h) && self.holds_in(
                    CallContext::Nested,
                    h,
                )) by {
                assert(self.outer.holds(h) == (old(self).outer.holds(h) || (ctx
                    == CallContext::Outer && h == handle)));
                assert(self.nested.holds(h) == (old(self).nested.holds(h) || (ctx
                    == CallContext::Nested && h == handle)));
                assert(!(old(self).holds_in(CallContext::Outer, h) && old(self).holds_in(
                    CallContext::Nested,
                    h,
                )));
            }
        }
    }
}

impl StmtCaches {
    /// Records how compiling a statement that `acquire` asked for went: a
    /// compiled statement is cached under `key` for `ctx` and its handle
    /// returned; a failed compilation leaves both caches as they were.
    pub fn compiled(&mut self, ctx: CallContext, key: CacheKey, outcome: Result<u64, i32>) -> (r:
        Result<u64, MergeError>)
        requires
            old(self).wf(),
            !old(self).cache_of(ctx).contains_key(key@),
            outcome is Ok ==> !old(self).holds_in(CallContext::Outer, outcome->Ok_0),
            outcome is Ok ==> !old(self).holds_in(CallContext::Nested, outcome->Ok_0),
        ensures
            final(self).wf(),
            match outcome {
                Ok(h) => {
                    &&& r == Ok::<u64, MergeError>(h)
                    &&& final(self).cache_of(ctx) == old(self).cache_of(ctx).insert(key@, h)
                },
                Err(_) => {
                    &&& r == Err::<u64, MergeError>(MergeError::PrepareFailed)
                    &&& final(self).cache_of(ctx) == old(self).cache_of(ctx)
                },
            },
            forall|other: CallContext|
                other != ctx ==> #[trigger] final(self).cache_of(other) == old(self).cache_of(
                    other,
                ),
    {
        match outcome {
            Ok(h) => {
                self.install(ctx, key, h);
                Ok(h)
            },
            Err(_) => Err(MergeError::PrepareFailed),
        }
    }
}

/// The position (counted from 1) of the column-name parameter of the
/// column-version query: right after the `pk_count` primary-key parameters.
/// There is none when that position does not fit a parameter index.
pub fn column_name_param(pk_count: usize) -> (r: Option<i32>)
    ensures
        pk_count < i32::MAX ==> r == Some((pk_count + 1) as i32),
        pk_count >= i32::MAX ==> r is None,
{
    if pk_count < 2147483647 {
        Some(pk_count as i32 + 1)
    } else {
        None
    }
}

/// The query text compiled for a statement kind.
pub open spec fn query_sql(
    kind: StmtKind,
    table: Seq<char>,
    column: Seq<char>,
    pk_where: Seq<char>,
) -> Seq<char> {
    match kind {
        StmtKind::GetColVersion => col_version_sql(table, pk_where),
        StmtKind::GetCurrValue => curr_value_sql(table, column, pk_where),
        StmtKind::CheckForLocalDelete => local_delete_sql(table, pk_where),
    }
}

/// Builds the query text of a statement kind.
pub fn query_text(kind: StmtKind, table: &str, column: &str, pk_where: &str) -> (r: String)
    ensures
        r@ == query_sql(kind, table@, column@, pk_where@),
{
    match kind {
        StmtKind::GetColVersion => col_version_query(table, pk_where),
        StmtKind::GetCurrValue => curr_value_query(table, column, pk_where),
        StmtKind::CheckForLocalDelete => local_delete_query(table, pk_where),
    }
}

/// Where the statement for a lookup comes from.
#[derive(Debug)]
pub enum Acquired {
    /// It is cached under this handle: bind, step and reset it.
    Cached(u64),
    /// It is not cached yet: compile this text as a persistent statement and
    /// install it under this key.
    Compile(CacheKey, String),
}

pub open spec fn unwrap_or_empty(o: Option<Seq<char>>) -> Seq<char> {
    match o {
        Some(c) => c,
        None => Seq::empty(),
    }
}

/// What `acquire` yields for a key that could be formed: the cached handle on
/// a hit; on a miss, that key and the query text to compile.
pub open spec fn acquired_as(
    a: Acquired,
    cache: Map<(StmtKind, Seq<char>, Option<Seq<char>>), u64>,
    k: (StmtKind, Seq<char>, Option<Seq<char>>),
    sql: Seq<char>,
) -> bool {
    if cache.contains_key(k) {
        a == Acquired::Cached(cache[k])
    } else {
        match a {
            Acquired::Compile(key, text) => key@ == k && text@ == sql,
            Acquired::Cached(_) => false,
        }
    }
}

/// Finds the statement of `kind` for `table` (and `column`) in the cache of
/// `ctx`. The query text is built only when the statement is not cached.
pub fn acquire(
    caches: &StmtCaches,
    ctx: CallContext,
    kind: StmtKind,
    table: &str,
    column: Option<&str>,
    pk_where: &str,
) -> (r: Result<Acquired, MergeError>)
    ensures
        match key_of(kind, table@, opt_str_view(column)) {
            None => r == Err::<Acquired, MergeError>(MergeError::CacheKeyFailed(kind)),
            Some(k) => r is Ok && acquired_as(
                r->Ok_0,
                caches.cache_of(ctx),
                k,
                query_sql(kind, table@, unwrap_or_empty(opt_str_view(column)), pk_where@),
            ),
        },
{
    let key = match cache_key(kind, table, column) {
        Ok(k) => k,
        Err(e) => return Err(e),
    };
    match caches.lookup(ctx, &key) {
        Some(h) => Ok(Acquired::Cached(h)),
        None => {
            let sql = match column {
                Some(c) => query_text(kind, table, c, pk_where),
                None => query_text(kind, table, "", pk_where),
            };
            Ok(Acquired::Compile(key, sql))
        },
    }
}

} // verus!
