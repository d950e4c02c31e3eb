//! Cached pane contexts and the fallback context.
use vstd::prelude::*;
use crate::terminal::types::{copy_shell, CommandInfo, PaneId, ShellType, TerminalContext, TerminalContextEvent};
use crate::text::{chars_of, decimal, is_whitespace, is_ws, owned, push_decimal, string_of};

verus! {

/// A pane context kept for `ttl` milliseconds from `cached_at`.
#[derive(Debug, Clone)]
pub struct CachedContext {
    pub context: TerminalContext,
    pub cached_at: u64,
    pub ttl: u64,
}

impl CachedContext {
    /// Whether more than `ttl` has passed since caching (a clock that went
    /// back counts as no time passed).
    pub fn is_expired(&self, now: u64) -> (r: bool)
        ensures
            r == (now > self.cached_at && now - self.cached_at > self.ttl),
    {
        let elapsed = now.saturating_sub(self.cached_at);
        elapsed > self.ttl
    }
}

/// The context used when nothing is known of any pane: pane 0, home
/// directory, Bash, no shell integration.
pub fn create_default_context() -> (r: TerminalContext)
    ensures
        r.pane_id == PaneId(0),
        r.current_working_directory matches Some(d) && d@ == "~"@,
        r.shell_type == Some(ShellType::Bash),
        !r.shell_integration_enabled,
        r.current_command is None,
        r.command_history@.len() == 0,
        r.window_title is None,
        !r.is_active,
{
    let mut context = TerminalContext::new(PaneId::new(0));
    context.update_cwd(owned("~"));
    context.update_shell_type(ShellType::Bash);
    context.set_shell_integration(false);
    context
}

// ---------------------------------------------------------------------------
// Copies
// ---------------------------------------------------------------------------

/// Two commands say the same.
pub open spec fn same_command(a: CommandInfo, b: CommandInfo) -> bool {
    &&& a.command == b.command
    &&& a.args@ == b.args@
    &&& a.start_time == b.start_time
    &&& a.end_time == b.end_time
    &&& a.exit_code == b.exit_code
    &&& a.working_directory == b.working_directory
}

/// Two command lists say the same, entry by entry.
pub open spec fn same_commands(a: Seq<CommandInfo>, b: Seq<CommandInfo>) -> bool {
    a.len() == b.len() && forall|i: int| 0 <= i < a.len() ==> same_command(#[trigger] a[i], b[i])
}

/// Two contexts say the same.
pub open spec fn same_context(a: TerminalContext, b: TerminalContext) -> bool {
    &&& a.pane_id == b.pane_id
    &&& a.current_working_directory == b.current_working_directory
    &&& a.shell_type == b.shell_type
    &&& a.shell_integration_enabled == b.shell_integration_enabled
    &&& match (a.current_command, b.current_command) {
        (Some(x), Some(y)) => same_command(x, y),
        (None, None) => true,
        _ => false,
    }
    &&& same_commands(a.command_history@, b.command_history@)
    &&& a.window_title == b.window_title
    &&& a.last_activity == b.last_activity
    &&& a.is_active == b.is_active
}

fn copy_text(s: &Option<String>) -> (r: Option<String>)
    ensures
        r == *s,
{
    match s {
        Some(t) => Some(t.clone()),
        None => None,
    }
}

fn copy_strings(v: &Vec<String>) -> (r: Vec<String>)
    ensures
        r@ == v@,
{
    let mut out: Vec<String> = Vec::new();
    let mut i: usize = 0;
    while i < v.len()
        invariant
            i <= v@.len(),
            out@ == v@.take(i as int),
        decreases v.len() - i,
    {
        out.push(v[i].clone());
        assert(v@.take(i + 1) =~= v@.take(i as int).push(v@[i as int]));
        i += 1;
    }
    assert(v@.take(v@.len() as int) =~= v@);
    out
}

/// A copy of a command.
pub fn copy_command(c: &CommandInfo) -> (r: CommandInfo)
    ensures
        same_command(r, *c),
{
    CommandInfo {
        command: c.command.clone(),
        args: copy_strings(&c.args),
        start_time: c.start_time,
        end_time: c.end_time,
        exit_code: c.exit_code,
        working_directory: copy_text(&c.working_directory),
    }
}

/// A copy of a context.
pub fn copy_context(c: &TerminalContext) -> (r: TerminalContext)
    ensures
        same_context(r, *c),
{
    let mut history: Vec<CommandInfo> = Vec::new();
    let mut i: usize = 0;
    while i < c.command_history.len()
        invariant
            i <= c.command_history@.len(),
            history@.len() == i,
            forall|k: int| 0 <= k < i ==> same_command(#[trigger] history@[k], c.command_history@[k]),
        decreases c.command_history.len() - i,
    {
        history.push(copy_command(&c.command_history[i]));
        i += 1;
    }
    TerminalContext {
        pane_id: c.pane_id,
        current_working_directory: copy_text(&c.current_working_directory),
        shell_type: match &c.shell_type {
            Some(t) => Some(copy_shell(t)),
            None => None,
        },
        shell_integration_enabled: c.shell_integration_enabled,
        current_command: match &c.current_command {
            Some(cmd) => Some(copy_command(cmd)),
            None => None,
        },
        command_history: history,
        window_title: copy_text(&c.window_title),
        last_activity: c.last_activity,
        is_active: c.is_active,
    }
}

// ---------------------------------------------------------------------------
// The context cache
// ---------------------------------------------------------------------------

/// The counters of the context cache.
#[derive(Debug, Clone, Copy, PartialEq, Eq, Structural)]
pub struct CacheStats {
    pub total_entries: usize,
    pub hit_count: u64,
    pub miss_count: u64,
    pub eviction_count: u64,
}

impl CacheStats {
    pub fn new() -> (r: Self)
        ensures
            r == (CacheStats { total_entries: 0, hit_count: 0, miss_count: 0, eviction_count: 0 }),
    {
        CacheStats { total_entries: 0, hit_count: 0, miss_count: 0, eviction_count: 0 }
    }
}

/// The entry of `pane` in a list of cached contexts: the first one.
pub open spec fn entry_of(s: Seq<(PaneId, CachedContext)>, pane: PaneId) -> Option<CachedContext>
    decreases s.len(),
{
    if s.len() == 0 {
        None
    } else if s[0].0 == pane {
        Some(s[0].1)
    } else {
        entry_of(s.drop_first(), pane)
    }
}

/// No pane is cached twice.
pub open spec fn distinct_panes(s: Seq<(PaneId, CachedContext)>) -> bool {
    forall|i: int, j: int| 0 <= i < j < s.len() ==> s[i].0 != s[j].0
}

proof fn lemma_entry_at(s: Seq<(PaneId, CachedContext)>, i: int)
    requires
        distinct_panes(s),
        0 <= i < s.len(),
    ensures
        entry_of(s, s[i].0) == Some(s[i].1),
    decreases s.len(),
{
    if i > 0 {
        assert(s[0].0 != s[i].0);
        assert(distinct_panes(s.drop_first()));
        assert(s.drop_first()[i - 1] == s[i]);
        lemma_entry_at(s.drop_first(), i - 1);
    }
}

proof fn lemma_entry_absent(s: Seq<(PaneId, CachedContext)>, p: PaneId)
    requires
        forall|k: int| 0 <= k < s.len() ==> (#[trigger] s[k]).0 != p,
    ensures
        entry_of(s, p) is None,
    decreases s.len(),
{
    if s.len() > 0 {
        assert forall|k: int| 0 <= k < s.drop_first().len() implies (#[trigger] s.drop_first()[k]).0 != p by {
            assert(s.drop_first()[k] == s[k + 1]);
        }
        lemma_entry_absent(s.drop_first(), p);
    }
}

proof fn lemma_entry_found(s: Seq<(PaneId, CachedContext)>, p: PaneId)
    requires
        entry_of(s, p) is Some,
    ensures
        exists|k: int| 0 <= k < s.len() && (#[trigger] s[k]).0 == p && entry_of(s, p) == Some(s[k].1),
    decreases s.len(),
{
    if s[0].0 != p {
        lemma_entry_found(s.drop_first(), p);
        let k = choose|k: int| 0 <= k < s.drop_first().len() && (#[trigger] s.drop_first()[k]).0 == p
            && entry_of(s.drop_first(), p) == Some(s.drop_first()[k].1);
        assert(s[k + 1] == s.drop_first()[k]);
    } else {
        assert(s[0].0 == p);
    }
}

/// What a list of cached contexts holds, by pane.
pub open spec fn cache_map(s: Seq<(PaneId, CachedContext)>) -> Map<PaneId, CachedContext> {
    Map::new(|p: PaneId| entry_of(s, p) is Some, |p: PaneId| entry_of(s, p)->0)
}

proof fn lemma_map_update(s: Seq<(PaneId, CachedContext)>, i: int, e: (PaneId, CachedContext))
    requires
        distinct_panes(s),
        0 <= i < s.len(),
        s[i].0 == e.0,
    ensures
        distinct_panes(s.update(i, e)),
        cache_map(s.update(i, e)) == cache_map(s).insert(e.0, e.1),
{
    let t = s.update(i, e);
    assert forall|a: int, b: int| 0 <= a < b < t.len() implies t[a].0 != t[b].0 by {
        assert(s[a].0 != s[b].0);
    }
    assert forall|p: PaneId| #[trigger] cache_map(t).contains_key(p) == cache_map(s).insert(e.0, e.1).contains_key(p)
        && (cache_map(t).contains_key(p) ==> cache_map(t)[p] == cache_map(s).insert(e.0, e.1)[p]) by {
        if p == e.0 {
            lemma_entry_at(t, i);
        } else if entry_of(s, p) is Some {
            lemma_entry_found(s, p);
            let k = choose|k: int| 0 <= k < s.len() && (#[trigger] s[k]).0 == p && entry_of(s, p) == Some(s[k].1);
            assert(t[k] == s[k]);
            lemma_entry_at(t, k);
        } else {
            assert forall|k: int| 0 <= k < t.len() implies (#[trigger] t[k]).0 != p by {
                if k != i && s[k].0 == p {
                    lemma_entry_at(s, k);
                }
            }
            lemma_entry_absent(t, p);
        }
    }
    assert(cache_map(t) =~= cache_map(s).insert(e.0, e.1));
}

proof fn lemma_map_push(s: Seq<(PaneId, CachedContext)>, e: (PaneId, CachedContext))
    requires
        distinct_panes(s),
        forall|k: int| 0 <= k < s.len() ==> (#[trigger] s[k]).0 != e.0,
    ensures
        distinct_panes(s.push(e)),
        cache_map(s.push(e)) == cache_map(s).insert(e.0, e.1),
{
    let t = s.push(e);
    assert forall|a: int, b: int| 0 <= a < b < t.len() implies t[a].0 != t[b].0 by {
        if b < s.len() {
            assert(s[a].0 != s[b].0);
        }
    }
    assert forall|p: PaneId| #[trigger] cache_map(t).contains_key(p) == cache_map(s).insert(e.0, e.1).contains_key(p)
        && (cache_map(t).contains_key(p) ==> cache_map(t)[p] == cache_map(s).insert(e.0, e.1)[p]) by {
        if p == e.0 {
            lemma_entry_at(t, s.len() as int);
        } else if entry_of(s, p) is Some {
            lemma_entry_found(s, p);
            let k = choose|k: int| 0 <= k < s.len() && (#[trigger] s[k]).0 == p && entry_of(s, p) == Some(s[k].1);
            lemma_entry_at(t, k);
        } else {
            assert forall|k: int| 0 <= k < t.len() implies (#[trigger] t[k]).0 != p by {
                if k < s.len() && s[k].0 == p {
                    lemma_entry_at(s, k);
                }
            }
            lemma_entry_absent(t, p);
        }
    }
    assert(cache_map(t) =~= cache_map(s).insert(e.0, e.1));
}

proof fn lemma_map_remove(s: Seq<(PaneId, CachedContext)>, i: int)
    requires
        distinct_panes(s),
        0 <= i < s.len(),
    ensures
        distinct_panes(s.remove(i)),
        cache_map(s.remove(i)) == cache_map(s).remove(s[i].0),
{
    let t = s.remove(i);
    let q = s[i].0;
    assert forall|a: int, b: int| 0 <= a < b < t.len() implies t[a].0 != t[b].0 by {
        let a2 = if a < i { a } else { a + 1 };
        let b2 = if b < i { b } else { b + 1 };
        assert(t[a] == s[a2] && t[b] == s[b2]);
        assert(s[a2].0 != s[b2].0);
    }
    assert forall|p: PaneId| #[trigger] cache_map(t).contains_key(p) == cache_map(s).remove(q).contains_key(p)
        && (cache_map(t).contains_key(p) ==> cache_map(t)[p] == cache_map(s).remove(q)[p]) by {
        if p == q {
            assert forall|k: int| 0 <= k < t.len() implies (#[trigger] t[k]).0 != p by {
                let k2 = if k < i { k } else { k + 1 };
                assert(t[k] == s[k2]);
                assert(s[k2].0 != s[i].0);
            }
            lemma_entry_absent(t, p);
        } else if entry_of(s, p) is Some {
            lemma_entry_found(s, p);
            let k = choose|k: int| 0 <= k < s.len() && (#[trigger] s[k]).0 == p && entry_of(s, p) == Some(s[k].1);
            let k2 = if k < i { k } else { k - 1 };
            assert(t[k2] == s[k]);
            lemma_entry_at(t, k2);
        } else {
            assert forall|k: int| 0 <= k < t.len() implies (#[trigger] t[k]).0 != p by {
                let k2 = if k < i { k } else { k + 1 };
                assert(t[k] == s[k2]);
                if s[k2].0 == p {
                    lemma_entry_at(s, k2);
                }
            }
            lemma_entry_absent(t, p);
        }
    }
    assert(cache_map(t) =~= cache_map(s).remove(q));
}

/// The position of `pane` in a list of cached contexts.
fn find_pane(s: &Vec<(PaneId, CachedContext)>, pane: PaneId) -> (r: Option<usize>)
    requires
        distinct_panes(s@),
    ensures
        match r {
            Some(i) => i < s@.len() && s@[i as int].0 == pane,
            None => forall|k: int| 0 <= k < s@.len() ==> (#[trigger] s@[k]).0 != pane,
        },
{
    let mut i: usize = 0;
    while i < s.len()
        invariant
            i <= s@.len(),
            forall|k: int| 0 <= k < i ==> (#[trigger] s@[k]).0 != pane,
        decreases s.len() - i,
    {
        if s[i].0 == pane {
            return Some(i);
        }
        i += 1;
    }
    None
}

/// Whether a cached context is still fresh at `now`.
pub open spec fn fresh_at(c: CachedContext, now: u64) -> bool {
    !(now > c.cached_at && now - c.cached_at > c.ttl)
}

/// The context cache of the terminal context service, with its counters.
/// Querying panes themselves is the caller's part: it hands the results in.
pub struct TerminalContextService {
    /// the cached contexts, each pane once
    pub entries: Vec<(PaneId, CachedContext)>,
    pub hit_count: u64,
    pub miss_count: u64,
    pub eviction_count: u64,
    /// how long a cached context stays fresh, in milliseconds
    pub default_cache_ttl: u64,
    /// how long a pane query may take, in milliseconds
    pub query_timeout: u64,
}

impl TerminalContextService {
    /// The cached contexts, by pane.
    pub open spec fn cached(&self) -> Map<PaneId, CachedContext> {
        cache_map(self.entries@)
    }

    /// How many contexts are cached.
    pub open spec fn cached_count(&self) -> nat {
        self.entries@.len()
    }

    /// The hit, miss and eviction counts.
    pub open spec fn counters(&self) -> (u64, u64, u64) {
        (self.hit_count, self.miss_count, self.eviction_count)
    }

    pub open spec fn wf(&self) -> bool {
        distinct_panes(self.entries@)
    }

    /// An empty cache: contexts fresh for 30 seconds, queries given 5.
    pub fn new() -> (r: Self)
        ensures
            r.wf(),
            r.cached() == Map::<PaneId, CachedContext>::empty(),
            r.cached_count() == 0,
            r.counters() == (0u64, 0u64, 0u64),
            r.default_cache_ttl == 30000,
            r.query_timeout == 5000,
    {
        let r = TerminalContextService {
            entries: Vec::new(),
            hit_count: 0,
            miss_count: 0,
            eviction_count: 0,
            default_cache_ttl: 30000,
            query_timeout: 5000,
        };
        assert(r.cached() =~= Map::<PaneId, CachedContext>::empty());
        r
    }

    /// Caches a pane's context as of `now`, in place of any before.
    pub fn cache_context(&mut self, pane_id: PaneId, context: TerminalContext, now: u64)
        requires
            old(self).wf(),
        ensures
            final(self).wf(),
            final(self).cached() == old(self).cached().insert(
                pane_id,
                CachedContext { context, cached_at: now, ttl: old(self).default_cache_ttl },
            ),
            final(self).counters() == old(self).counters(),
            final(self).default_cache_ttl == old(self).default_cache_ttl,
            final(self).query_timeout == old(self).query_timeout,
    {
        let ghost s0 = self.entries@;
        let entry = (pane_id, CachedContext { context, cached_at: now, ttl: self.default_cache_ttl });
        let ghost e = entry;
        match find_pane(&self.entries, pane_id) {
            Some(i) => {
                self.entries.set(i, entry);
                proof {
                    assert(self.entries@ =~= s0.update(i as int, e));
                    lemma_map_update(s0, i as int, e);
                }
            },
            None => {
                self.entries.push(entry);
                proof {
                    lemma_map_push(s0, e);
                }
            },
        }
    }

    /// Drops a pane's cached context, counting an eviction when there was
    /// one.
    pub fn invalidate_cache(&mut self, pane_id: PaneId)
        requires
            old(self).wf(),
            old(self).counters().2 < u64::MAX,
        ensures
            final(self).wf(),
            final(self).cached() == old(self).cached().remove(pane_id),
            final(self).counters() == (
                old(self).counters().0,
                old(self).counters().1,
                if old(self).cached().contains_key(pane_id) {
                    (old(self).counters().2 + 1) as u64
                } else {
                    old(self).counters().2
                },
            ),
            final(self).default_cache_ttl == old(self).default_cache_ttl,
            final(self).query_timeout == old(self).query_timeout,
    {
        let ghost s0 = self.entries@;
        match find_pane(&self.entries, pane_id) {
            Some(i) => {
                proof {
                    lemma_entry_at(s0, i as int);
                    lemma_map_remove(s0, i as int);
                }
                self.entries.remove(i);
                self.eviction_count = self.eviction_count + 1;
            },
            None => {
                proof {
                    lemma_entry_absent(s0, pane_id);
                    assert(cache_map(s0).remove(pane_id) =~= cache_map(s0));
                }
            },
        }
    }

    /// Drops every cached context, each counted as an eviction.
    pub fn clear_all_cache(&mut self)
        requires
            old(self).wf(),
            old(self).counters().2 + old(self).cached_count() <= u64::MAX,
        ensures
            final(self).wf(),
            final(self).cached() == Map::<PaneId, CachedContext>::empty(),
            final(self).cached_count() == 0,
            final(self).counters() == (
                old(self).counters().0,
                old(self).counters().1,
                (old(self).counters().2 + old(self).cached_count()) as u64,
            ),
            final(self).default_cache_ttl == old(self).default_cache_ttl,
            final(self).query_timeout == old(self).query_timeout,
    {
        let n = self.entries.len() as u64;
        self.entries = Vec::new();
        self.eviction_count = self.eviction_count + n;
        assert(self.cached() =~= Map::<PaneId, CachedContext>::empty());
    }

    /// The counters, with the number of cached contexts.
    pub fn get_cache_stats(&self) -> (r: CacheStats)
        ensures
            r.total_entries == self.cached_count(),
            (r.hit_count, r.miss_count, r.eviction_count) == self.counters(),
    {
        CacheStats {
            total_entries: self.entries.len(),
            hit_count: self.hit_count,
            miss_count: self.miss_count,
            eviction_count: self.eviction_count,
        }
    }

    /// A copy of a pane's cached context while it is fresh; a stale one is
    /// dropped and counted as an eviction.
    pub fn get_cached_context(&mut self, pane_id: PaneId, now: u64) -> (r: Option<CachedContext>)
        requires
            old(self).wf(),
            old(self).counters().2 < u64::MAX,
        ensures
            final(self).wf(),
            final(self).default_cache_ttl == old(self).default_cache_ttl,
            final(self).query_timeout == old(self).query_timeout,
            (final(self).counters().0, final(self).counters().1) == (old(self).counters().0, old(self).counters().1),
            match (r, old(self).cached().contains_key(pane_id)) {
                (Some(c), true) => {
                    let e = old(self).cached()[pane_id];
                    &&& fresh_at(e, now)
                    &&& same_context(c.context, e.context)
                    &&& c.cached_at == e.cached_at
                    &&& c.ttl == e.ttl
                    &&& final(self).cached() == old(self).cached()
                    &&& final(self).counters() == old(self).counters()
                },
                (None, true) => {
                    &&& !fresh_at(old(self).cached()[pane_id], now)
                    &&& final(self).cached() == old(self).cached().remove(pane_id)
                    &&& final(self).counters().2 == old(self).counters().2 + 1
                },
                (None, false) => final(self).cached() == old(self).cached() && final(self).counters()
                    == old(self).counters(),
                (Some(_), false) => false,
            },
    {
        let ghost s0 = self.entries@;
        match find_pane(&self.entries, pane_id) {
            None => {
                proof {
                    lemma_entry_absent(s0, pane_id);
                }
                None
            },
            Some(i) => {
                proof {
                    lemma_entry_at(s0, i as int);
                }
                if self.entries[i].1.is_expired(now) {
                    proof {
                        lemma_map_remove(s0, i as int);
                    }
                    self.entries.remove(i);
                    self.eviction_count = self.eviction_count + 1;
                    None
                } else {
                    let e = &self.entries[i].1;
                    Some(CachedContext { context: copy_context(&e.context), cached_at: e.cached_at, ttl: e.ttl })
                }
            },
        }
    }

    /// The cache's part of a context request: the fresh cached context (a
    /// hit) or nothing (a miss), counted either way.
    pub fn lookup_context(&mut self, pane_id: PaneId, now: u64) -> (r: Option<TerminalContext>)
        requires
            old(self).wf(),
            old(self).counters().0 < u64::MAX,
            old(self).counters().1 < u64::MAX,
            old(self).counters().2 < u64::MAX,
        ensures
            final(self).wf(),
            final(self).default_cache_ttl == old(self).default_cache_ttl,
            final(self).query_timeout == old(self).query_timeout,
            r is Some <==> (old(self).cached().contains_key(pane_id) && fresh_at(old(self).cached()[pane_id], now)),
            r matches Some(c) ==> same_context(c, old(self).cached()[pane_id].context),
            r is Some ==> final(self).counters() == ((old(self).counters().0 + 1) as u64, old(self).counters().1, old(self).counters().2),
            r is None ==> final(self).counters().0 == old(self).counters().0 && final(self).counters().1 == old(self).counters().1 + 1,
    {
        match self.get_cached_context(pane_id, now) {
            Some(c) => {
                self.hit_count = self.hit_count + 1;
                Some(c.context)
            },
            None => {
                self.miss_count = self.miss_count + 1;
                None
            },
        }
    }

    /// Keeps a freshly queried context and gives the event that announces
    /// it.
    pub fn store_queried_context(&mut self, pane_id: PaneId, context: TerminalContext, now: u64) -> (r: TerminalContextEvent)
        requires
            old(self).wf(),
        ensures
            final(self).wf(),
            final(self).cached() == old(self).cached().insert(
                pane_id,
                CachedContext { context, cached_at: now, ttl: old(self).default_cache_ttl },
            ),
            final(self).counters() == old(self).counters(),
            final(self).default_cache_ttl == old(self).default_cache_ttl,
            final(self).query_timeout == old(self).query_timeout,
            r matches TerminalContextEvent::PaneContextUpdated { pane_id: p, context: c } && p == pane_id
                && same_context(c, context),
    {
        let event = TerminalContextEvent::PaneContextUpdated { pane_id, context: copy_context(&context) };
        self.cache_context(pane_id, context, now);
        event
    }

    /// A fresh cached context of any pane (the first cached), if there is
    /// one.
    pub fn any_cached_context(&self, now: u64) -> (r: Option<TerminalContext>)
        requires
            self.wf(),
        ensures
            r is None ==> forall|p: PaneId| #[trigger] self.cached().contains_key(p) ==> !fresh_at(self.cached()[p], now),
            r matches Some(c) ==> exists|p: PaneId| #[trigger] self.cached().contains_key(p) && fresh_at(self.cached()[p], now)
                && same_context(c, self.cached()[p].context),
    {
        let mut i: usize = 0;
        while i < self.entries.len()
            invariant
                self.wf(),
                i <= self.entries@.len(),
                forall|k: int| 0 <= k < i ==> !fresh_at((#[trigger] self.entries@[k]).1, now),
            decreases self.entries.len() - i,
        {
            if !self.entries[i].1.is_expired(now) {
                proof {
                    lemma_entry_at(self.entries@, i as int);
                    assert(self.cached().contains_key(self.entries@[i as int].0));
                }
                return Some(copy_context(&self.entries[i].1.context));
            }
            i += 1;
        }
        proof {
            assert forall|p: PaneId| #[trigger] self.cached().contains_key(p) implies !fresh_at(self.cached()[p], now) by {
                lemma_entry_found(self.entries@, p);
            }
        }
        None
    }

    /// The last two steps of a request with fallback: a fresh cached
    /// context of any pane, else the default context.
    pub fn fallback_context(&self, now: u64) -> (r: TerminalContext)
        requires
            self.wf(),
        ensures
            (exists|p: PaneId| #[trigger] self.cached().contains_key(p) && fresh_at(self.cached()[p], now)) ==> exists|p: PaneId|
                #[trigger] self.cached().contains_key(p) && fresh_at(self.cached()[p], now) && same_context(r, self.cached()[p].context),
            (forall|p: PaneId| #[trigger] self.cached().contains_key(p) ==> !fresh_at(self.cached()[p], now)) ==> (r.pane_id == PaneId(0)
                && (r.current_working_directory matches Some(d) && d@ == "~"@) && r.shell_type == Some(ShellType::Bash)
                && !r.shell_integration_enabled),
    {
        match self.any_cached_context(now) {
            Some(c) => c,
            None => create_default_context(),
        }
    }
}

/// A context cached at `now` is found fresh and unchanged by any read no
/// more than the cache's lifetime later, and is gone once invalidated;
/// caching a pane leaves the other panes' entries as they were.
pub proof fn law_context_cache_read_after_write(
    m: Map<PaneId, CachedContext>,
    pane: PaneId,
    other: PaneId,
    context: TerminalContext,
    now: u64,
    ttl: u64,
    later: u64,
)
    requires
        now <= later,
        later - now <= ttl,
        other != pane,
    ensures
        ({
            let m1 = m.insert(pane, CachedContext { context, cached_at: now, ttl });
            &&& m1.contains_key(pane)
            &&& fresh_at(m1[pane], later)
            &&& m1[pane].context == context
            &&& !m1.remove(pane).contains_key(pane)
            &&& m1.contains_key(other) == m.contains_key(other)
            &&& m.contains_key(other) ==> m1[other] == m[other]
        }),
{
}

/// The error of a request that needs an active pane when none is.
pub fn no_active_terminal_message() -> (r: String)
    ensures
        r@ == "没有活跃的终端"@,
{
    owned("没有活跃的终端")
}

/// The error of a request for a pane that does not exist.
pub fn pane_not_found_message(pane_id: PaneId) -> (r: String)
    ensures
        r@ == "面板不存在: "@ + decimal(pane_id.0 as nat),
{
    let mut out = chars_of("面板不存在: ");
    push_decimal(&mut out, pane_id.0 as u64);
    string_of(&out)
}

// ---------------------------------------------------------------------------
// Contexts from what the shell reports
// ---------------------------------------------------------------------------

/// The words of a text: its maximal runs of non-whitespace characters.
pub open spec fn words(s: Seq<char>) -> Seq<Seq<char>>
    decreases s.len(),
{
    words_from(s, Seq::empty())
}

/// The words of `s`, with `cur` the part of a word read just before it.
pub open spec fn words_from(s: Seq<char>, cur: Seq<char>) -> Seq<Seq<char>>
    decreases s.len(),
{
    if s.len() == 0 {
        if cur.len() > 0 {
            seq![cur]
        } else {
            Seq::empty()
        }
    } else if is_ws(s[0]) {
        if cur.len() > 0 {
            seq![cur] + words_from(s.drop_first(), Seq::empty())
        } else {
            words_from(s.drop_first(), Seq::empty())
        }
    } else {
        words_from(s.drop_first(), cur.push(s[0]))
    }
}

/// Whether a text has no whitespace character.
pub open spec fn no_ws(s: Seq<char>) -> bool {
    forall|i: int| 0 <= i < s.len() ==> !is_ws(#[trigger] s[i])
}

proof fn lemma_words_from_unbroken(s: Seq<char>, cur: Seq<char>)
    requires
        no_ws(s),
    ensures
        words_from(s, cur) == (if (cur + s).len() > 0 {
            seq![cur + s]
        } else {
            Seq::<Seq<char>>::empty()
        }),
    decreases s.len(),
{
    if s.len() == 0 {
        assert(cur + s =~= cur);
    } else {
        assert(!is_ws(s[0]));
        lemma_words_from_unbroken(s.drop_first(), cur.push(s[0]));
        assert(cur.push(s[0]) + s.drop_first() =~= cur + s);
    }
}

proof fn lemma_words_from_space(a: Seq<char>, b: Seq<char>, cur: Seq<char>)
    ensures
        words_from(a + seq![' '] + b, cur) == words_from(a, cur) + words(b),
    decreases a.len(),
{
    let t = a + seq![' '] + b;
    assert(is_ws(' '));
    if a.len() == 0 {
        assert(t[0] == ' ');
        assert(t.drop_first() =~= b);
        if cur.len() > 0 {
            assert(words_from(a, cur) == seq![cur]);
        } else {
            assert(words_from(a, cur) =~= Seq::<Seq<char>>::empty());
        }
        assert(words_from(b, Seq::empty()) == words(b));
    } else {
        assert(t[0] == a[0]);
        assert(t.drop_first() =~= a.drop_first() + seq![' '] + b);
        if is_ws(a[0]) {
            lemma_words_from_space(a.drop_first(), b, Seq::empty());
            if cur.len() > 0 {
                assert(seq![cur] + (words_from(a.drop_first(), Seq::empty()) + words(b)) =~= (seq![cur]
                    + words_from(a.drop_first(), Seq::empty())) + words(b));
            }
        } else {
            lemma_words_from_space(a.drop_first(), b, cur.push(a[0]));
        }
    }
}

proof fn lemma_words_from_shape(s: Seq<char>, cur: Seq<char>)
    requires
        no_ws(cur),
    ensures
        forall|k: int|
            0 <= k < words_from(s, cur).len() ==> (#[trigger] words_from(s, cur)[k]).len() > 0 && no_ws(
                words_from(s, cur)[k],
            ),
    decreases s.len(),
{
    if s.len() == 0 {
        if cur.len() > 0 {
            assert(words_from(s, cur) == seq![cur]);
            assert(words_from(s, cur)[0] == cur);
        } else {
            assert(words_from(s, cur).len() == 0);
        }
    } else if is_ws(s[0]) {
        lemma_words_from_shape(s.drop_first(), Seq::empty());
        let rest = words_from(s.drop_first(), Seq::<char>::empty());
        if cur.len() == 0 {
            assert(words_from(s, cur) == rest);
        } else {
            assert(words_from(s, cur) == seq![cur] + rest);
            assert forall|k: int| 0 <= k < (seq![cur] + rest).len() implies (#[trigger] (seq![cur]
                + rest)[k]).len() > 0 && no_ws((seq![cur] + rest)[k]) by {
                if k > 0 {
                    assert((seq![cur] + rest)[k] == rest[k - 1]);
                }
            }
        }
    } else {
        let c2 = cur.push(s[0]);
        assert forall|i: int| 0 <= i < c2.len() implies !is_ws(#[trigger] c2[i]) by {
            if i < cur.len() {
                assert(c2[i] == cur[i]);
            }
        }
        lemma_words_from_shape(s.drop_first(), c2);
        assert(words_from(s, cur) == words_from(s.drop_first(), c2));
    }
}

/// The words of a text are its maximal runs of non-whitespace characters:
/// each word is non-empty and holds no whitespace; a non-empty text without
/// whitespace is one word, the whole text; and a space splits a text into
/// the words before it followed by the words after it.
pub proof fn law_words(s: Seq<char>, a: Seq<char>, b: Seq<char>)
    ensures
        forall|k: int| 0 <= k < words(s).len() ==> (#[trigger] words(s)[k]).len() > 0 && no_ws(words(s)[k]),
        s.len() > 0 && no_ws(s) ==> words(s) == seq![s],
        s.len() == 0 ==> words(s).len() == 0,
        words(a + seq![' '] + b) == words(a) + words(b),
{
    lemma_words_from_shape(s, Seq::empty());
    if no_ws(s) {
        lemma_words_from_unbroken(s, Seq::empty());
        assert(Seq::<char>::empty() + s =~= s);
    }
    lemma_words_from_space(a, b, Seq::empty());
}

/// `str::split_whitespace`, written out: the words of a text, in order.
pub fn split_whitespace_chars(s: &Vec<char>) -> (r: Vec<Vec<char>>)
    ensures
        r@.map_values(|w: Vec<char>| w@) == words(s@),
{
    let mut out: Vec<Vec<char>> = Vec::new();
    let mut cur: Vec<char> = Vec::new();
    let mut i: usize = 0;
    proof {
        assert(s@.skip(0) =~= s@);
        assert(out@.map_values(|w: Vec<char>| w@) =~= Seq::<Seq<char>>::empty());
        assert(Seq::<Seq<char>>::empty() + words_from(s@, cur@) =~= words_from(s@, cur@));
    }
    while i < s.len()
        invariant
            i <= s@.len(),
            out@.map_values(|w: Vec<char>| w@) + words_from(s@.skip(i as int), cur@) == words(s@),
        decreases s.len() - i,
    {
        let ghost rest = s@.skip(i as int);
        let ghost c0 = cur@;
        let ghost o0 = out@.map_values(|w: Vec<char>| w@);
        proof {
            assert(rest.drop_first() =~= s@.skip(i + 1));
            assert(rest[0] == s@[i as int]);
        }
        let c = s[i];
        if is_whitespace(c) {
            if cur.len() > 0 {
                out.push(cur);
                cur = Vec::new();
                proof {
                    assert(words_from(rest, c0) == seq![c0] + words_from(rest.drop_first(), Seq::empty()));
                    assert(out@.map_values(|w: Vec<char>| w@) =~= o0.push(c0));
                    assert(o0.push(c0) + words_from(s@.skip(i + 1), cur@) =~= o0 + (seq![c0]
                        + words_from(s@.skip(i + 1), Seq::empty())));
                }
            } else {
                proof {
                    assert(words_from(rest, c0) == words_from(rest.drop_first(), Seq::empty()));
                    assert(cur@ =~= Seq::<char>::empty());
                }
            }
        } else {
            cur.push(c);
            proof {
                assert(words_from(rest, c0) == words_from(rest.drop_first(), c0.push(c)));
            }
        }
        i += 1;
    }
    proof {
        assert(s@.skip(i as int) =~= Seq::<char>::empty());
    }
    let ghost o1 = out@.map_values(|w: Vec<char>| w@);
    if cur.len() > 0 {
        let ghost w = cur@;
        out.push(cur);
        assert(out@.map_values(|w: Vec<char>| w@) =~= o1 + seq![w]);
    } else {
        assert(o1 + words_from(Seq::<char>::empty(), cur@) =~= o1);
    }
    out
}

/// A command as the shell reports it, turned into a pane's command: the
/// first word of its command line is the command, the other words its
/// arguments; no command line gives an empty command.
pub fn convert_command_info(
    command_line: Option<&str>,
    start_time: u64,
    end_time: Option<u64>,
    exit_code: Option<i32>,
    working_directory: Option<String>,
) -> (r: CommandInfo)
    ensures
        ({
            let ws = match command_line {
                Some(l) => words(l@),
                None => Seq::empty(),
            };
            &&& ws.len() == 0 ==> r.command@ == Seq::<char>::empty() && r.args@.len() == 0
            &&& ws.len() > 0 ==> r.command@ == ws[0] && r.args@.map_values(|a: String| a@) == ws.drop_first()
        }),
        r.start_time == start_time,
        r.end_time == end_time,
        r.exit_code == exit_code,
        r.working_directory == working_directory,
{
    let mut command = String::new();
    let mut args: Vec<String> = Vec::new();
    if let Some(line) = command_line {
        let parts = split_whitespace_chars(&chars_of(line));
        let ghost ws = words(line@);
        if parts.len() > 0 {
            command = string_of(&parts[0]);
            let mut k: usize = 1;
            while k < parts.len()
                invariant
                    1 <= k <= parts@.len(),
                    parts@.map_values(|w: Vec<char>| w@) == ws,
                    args@.map_values(|a: String| a@) == ws.drop_first().take(k - 1),
                decreases parts.len() - k,
            {
                let ghost before = args@.map_values(|a: String| a@);
                args.push(string_of(&parts[k]));
                proof {
                    assert(ws[k as int] == parts@[k as int]@);
                    assert(args@.map_values(|a: String| a@) =~= before.push(parts@[k as int]@));
                    assert(ws.drop_first().take(k as int) =~= ws.drop_first().take(k - 1).push(ws[k as int]));
                }
                k += 1;
            }
            proof {
                assert(ws.drop_first().take(parts@.len() - 1) =~= ws.drop_first());
                assert(ws[0] == parts@[0]@);
            }
        } else {
            assert(args@.map_values(|a: String| a@) =~= Seq::<Seq<char>>::empty());
        }
    } else {
        assert(args@.map_values(|a: String| a@) =~= Seq::<Seq<char>>::empty());
    }
    CommandInfo { command, args, start_time, end_time, exit_code, working_directory }
}

/// What the shell integration reports of a pane.
#[derive(Debug)]
pub struct ShellReport {
    pub shell_type: Option<ShellType>,
    pub integration_enabled: bool,
    pub current_command: Option<CommandInfo>,
    pub command_history: Vec<CommandInfo>,
    pub window_title: Option<String>,
}

/// A pane's context from what is known of it: whether it is the active
/// pane, its working directory and what its shell reports.
pub fn context_from_report(pane_id: PaneId, is_active: bool, cwd: Option<String>, report: Option<ShellReport>) -> (r: TerminalContext)
    ensures
        r.pane_id == pane_id,
        r.is_active == is_active,
        r.current_working_directory == cwd,
        match report {
            Some(rep) => {
                &&& r.shell_type == rep.shell_type
                &&& r.shell_integration_enabled == rep.integration_enabled
                &&& r.current_command == rep.current_command
                &&& r.command_history == rep.command_history
                &&& r.window_title == rep.window_title
            },
            None => {
                &&& r.shell_type is None
                &&& !r.shell_integration_enabled
                &&& r.current_command is None
                &&& r.command_history@.len() == 0
                &&& r.window_title is None
            },
        },
{
    let mut context = TerminalContext::new(pane_id);
    context.set_active(is_active);
    if let Some(d) = cwd {
        context.update_cwd(d);
    }
    if let Some(rep) = report {
        let ShellReport { shell_type, integration_enabled, current_command, command_history, window_title } = rep;
        if let Some(t) = shell_type {
            context.update_shell_type(t);
        }
        context.set_shell_integration(integration_enabled);
        if let Some(cmd) = current_command {
            context.set_current_command(Some(cmd));
        }
        context.command_history = command_history;
        if let Some(t) = window_title {
            context.update_window_title(t);
        }
    }
    context
}

} // verus!
