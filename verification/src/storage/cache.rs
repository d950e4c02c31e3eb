//! The unified cache: values under string keys, grouped by namespace, each
//! with an optional time to live.
//!
//! Times are milliseconds on a clock that the caller reads and passes in;
//! an entry whose deadline has come is treated as absent and is dropped
//! when it is next looked at.
use vstd::prelude::*;
use crate::keyed::{
    distinct_keys, find_key, keyed_map, kept_map, lemma_keyed_index, lemma_keyed_len,
    lemma_keyed_push, lemma_keyed_remove, lemma_keyed_update, lemma_sweep_done, lemma_sweep_step,
    sweep_so_far,
};
use crate::text::{owned, push_str, starts_with, chars_of, slice_chars, string_of, starts_with_chars};

verus! {

/// Namespaces keep the keys of different parts of the application apart.
#[derive(Debug, Clone, Copy, PartialEq, Eq, Structural)]
pub enum CacheNamespace {
    Rules,
    Session,
    UI,
    Agent,
    Completion,
    Terminal,
    /// the default namespace: keys are used as given
    Global,
}

/// The text put before a key of each namespace.
pub open spec fn ns_prefix(ns: CacheNamespace) -> Seq<char> {
    match ns {
        CacheNamespace::Rules => "rules:"@,
        CacheNamespace::Session => "session:"@,
        CacheNamespace::UI => "ui:"@,
        CacheNamespace::Agent => "agent:"@,
        CacheNamespace::Completion => "completion:"@,
        CacheNamespace::Terminal => "terminal:"@,
        CacheNamespace::Global => ""@,
    }
}

impl CacheNamespace {
    pub fn prefix(&self) -> (r: &'static str)
        ensures
            r@ == ns_prefix(*self),
    {
        match self {
            CacheNamespace::Rules => "rules:",
            CacheNamespace::Session => "session:",
            CacheNamespace::UI => "ui:",
            CacheNamespace::Agent => "agent:",
            CacheNamespace::Completion => "completion:",
            CacheNamespace::Terminal => "terminal:",
            CacheNamespace::Global => "",
        }
    }

    /// The full key of `key` in this namespace.
    pub fn make_key(&self, key: &str) -> (r: String)
        ensures
            r@ == ns_prefix(*self) + key@,
    {
        let mut s = owned(self.prefix());
        push_str(&mut s, key);
        s
    }
}

/// A cached value with its bookkeeping.
#[derive(Debug, Clone)]
pub struct CacheEntry<V> {
    pub value: V,
    /// when the entry stops being valid, if ever
    pub expires_at: Option<u64>,
    pub created_at: u64,
    pub last_accessed: u64,
    pub hit_count: u64,
}

/// The deadline of a time to live that starts at `now`; one that would
/// overflow the clock never comes.
pub open spec fn deadline(ttl: Option<u64>, now: u64) -> Option<u64> {
    match ttl {
        Some(t) => if now + t <= u64::MAX {
            Some((now + t) as u64)
        } else {
            None
        },
        None => None,
    }
}

/// Whether an entry's deadline has come at `now`.
pub open spec fn expired_at<V>(e: CacheEntry<V>, now: u64) -> bool {
    e.expires_at matches Some(d) && now >= d
}

/// A fresh entry written at `now`.
pub open spec fn fresh_entry<V>(value: V, ttl: Option<u64>, now: u64) -> CacheEntry<V> {
    CacheEntry {
        value,
        expires_at: deadline(ttl, now),
        created_at: now,
        last_accessed: now,
        hit_count: 0,
    }
}

/// An entry after one more read at `now` (the hit count stops at its top).
pub open spec fn refreshed<V>(e: CacheEntry<V>, now: u64) -> CacheEntry<V> {
    CacheEntry {
        value: e.value,
        expires_at: e.expires_at,
        created_at: e.created_at,
        last_accessed: now,
        hit_count: if e.hit_count < u64::MAX {
            (e.hit_count + 1) as u64
        } else {
            u64::MAX
        },
    }
}

impl<V> CacheEntry<V> {
    pub fn new(value: V, ttl: Option<u64>, now: u64) -> (r: Self)
        ensures
            r == fresh_entry(value, ttl, now),
    {
        let expires_at = match ttl {
            Some(t) => now.checked_add(t),
            None => None,
        };
        CacheEntry { value, expires_at, created_at: now, last_accessed: now, hit_count: 0 }
    }

    pub fn is_expired(&self, now: u64) -> (r: bool)
        ensures
            r == expired_at(*self, now),
    {
        match self.expires_at {
            Some(d) => now >= d,
            None => false,
        }
    }

    pub fn refresh_access(&mut self, now: u64)
        ensures
            *final(self) == refreshed(*old(self), now),
    {
        self.hit_count = self.hit_count.saturating_add(1);
        self.last_accessed = now;
    }

    /// Time left before the deadline, if there is one that has not passed.
    pub fn remaining_ttl(&self, now: u64) -> (r: Option<u64>)
        ensures
            r == (match self.expires_at {
                Some(d) => if d >= now { Some((d - now) as u64) } else { None },
                None => None,
            }),
    {
        match self.expires_at {
            Some(d) => if d >= now { Some(d - now) } else { None },
            None => None,
        }
    }
}

/// What a lookup reports of an entry.
#[derive(Debug, Clone)]
pub struct CacheEntrySnapshot<V> {
    pub value: V,
    pub expires_at: Option<u64>,
    pub created_at: u64,
    pub last_accessed: u64,
    pub hit_count: u64,
    pub remaining_ttl: Option<u64>,
}

/// Whether `k` holds an entry that is valid at `now`.
pub open spec fn live<V>(m: Map<Seq<char>, CacheEntry<V>>, k: Seq<char>, now: u64) -> bool {
    m.contains_key(k) && !expired_at(m[k], now)
}

/// The cache after `k` is looked at: a valid entry counts the hit, an
/// expired one is dropped.
pub open spec fn after_access<V>(m: Map<Seq<char>, CacheEntry<V>>, k: Seq<char>, now: u64) -> Map<
    Seq<char>,
    CacheEntry<V>,
> {
    if live(m, k, now) {
        m.insert(k, refreshed(m[k], now))
    } else if m.contains_key(k) {
        m.remove(k)
    } else {
        m
    }
}

/// Keeps the entries that are valid at `now`.
pub open spec fn unexpired<V>(now: u64) -> spec_fn(Seq<char>, CacheEntry<V>) -> bool {
    |k: Seq<char>, e: CacheEntry<V>| !expired_at(e, now)
}

/// Keeps the entries outside a namespace.
pub open spec fn outside_prefix<V>(prefix: Seq<char>) -> spec_fn(Seq<char>, CacheEntry<V>) -> bool {
    |k: Seq<char>, e: CacheEntry<V>| !starts_with(k, prefix)
}

/// The cache after writing `items` in order, all at `now` and without a
/// time to live.
pub open spec fn batch_written<V>(
    m: Map<Seq<char>, CacheEntry<V>>,
    items: Seq<(String, V)>,
    now: u64,
) -> Map<Seq<char>, CacheEntry<V>>
    decreases items.len(),
{
    if items.len() == 0 {
        m
    } else {
        batch_written(m, items.drop_last(), now).insert(
            items.last().0@,
            fresh_entry(items.last().1, None, now),
        )
    }
}


/// The cache after the keys are looked at, in order.
pub open spec fn after_accesses<V>(m: Map<Seq<char>, CacheEntry<V>>, keys: Seq<Seq<char>>, now: u64) -> Map<
    Seq<char>,
    CacheEntry<V>,
>
    decreases keys.len(),
{
    if keys.len() == 0 {
        m
    } else {
        after_access(after_accesses(m, keys.drop_last(), now), keys.last(), now)
    }
}

/// Looking keys up changes no key's validity, nor a valid entry's value.
proof fn lemma_accesses_keep<V>(m: Map<Seq<char>, CacheEntry<V>>, keys: Seq<Seq<char>>, now: u64, k: Seq<char>)
    ensures
        live(after_accesses(m, keys, now), k, now) == live(m, k, now),
        live(m, k, now) ==> after_accesses(m, keys, now)[k].value == m[k].value,
    decreases keys.len(),
{
    if keys.len() > 0 {
        lemma_accesses_keep(m, keys.drop_last(), now, k);
    }
}

/// The cache: distinct keys, each with its entry.
#[derive(Debug, Clone)]
pub struct UnifiedCache<V> {
    entries: Vec<(String, CacheEntry<V>)>,
}

impl<V> View for UnifiedCache<V> {
    type V = Map<Seq<char>, CacheEntry<V>>;

    closed spec fn view(&self) -> Map<Seq<char>, CacheEntry<V>> {
        keyed_map(self.entries@)
    }
}

impl<V: Clone> UnifiedCache<V> {
    /// Each key is held once.
    pub closed spec fn wf(&self) -> bool {
        distinct_keys(self.entries@)
    }

    pub fn new() -> (r: Self)
        ensures
            r.wf(),
            r@ == Map::<Seq<char>, CacheEntry<V>>::empty(),
    {
        let r = UnifiedCache { entries: Vec::new() };
        assert(keyed_map(r.entries@) =~= Map::<Seq<char>, CacheEntry<V>>::empty());
        r
    }

    /// Looks `key` up at `now`: counts the hit of a valid entry and gives
    /// its place, drops an expired one.
    fn access(&mut self, key: &str, now: u64) -> (r: Option<usize>)
        requires
            old(self).wf(),
        ensures
            final(self).wf(),
            final(self)@ == after_access(old(self)@, key@, now),
            r is Some <==> live(old(self)@, key@, now),
            r matches Some(i) ==> i < final(self).entries@.len() && final(self).entries@[i as int].0@
                == key@ && final(self).entries@[i as int].1 == refreshed(old(self)@[key@], now),
    {
        let ghost s0 = self.entries@;
        match find_key(&self.entries, key) {
            None => None,
            Some(i) => {
                proof {
                    lemma_keyed_index(s0, i as int);
                }
                if self.entries[i].1.is_expired(now) {
                    proof {
                        lemma_keyed_remove(s0, i as int);
                    }
                    let _ = self.entries.remove(i);
                    None
                } else {
                    let (k, mut e) = self.entries.remove(i);
                    e.refresh_access(now);
                    let ghost p = (k, e);
                    self.entries.insert(i, (k, e));
                    proof {
                        assert(self.entries@ =~= s0.update(i as int, p));
                        lemma_keyed_update(s0, i as int, p);
                    }
                    Some(i)
                }
            },
        }
    }

    /// The value under `key`, if it is valid at `now` (a copy made with
    /// `clone`); an expired entry is dropped.
    pub fn get(&mut self, key: &str, now: u64) -> (r: Option<V>)
        requires
            old(self).wf(),
        ensures
            final(self).wf(),
            final(self)@ == after_access(old(self)@, key@, now),
            r is Some <==> live(old(self)@, key@, now),
            r matches Some(v) ==> cloned(old(self)@[key@].value, v),
    {
        match self.access(key, now) {
            Some(i) => Some(self.entries[i].1.value.clone()),
            None => None,
        }
    }

    /// The values under `keys` that are valid at `now`, each key once, in
    /// the order of first mention (copies made with `clone`); each key is
    /// looked up in turn, so hits are counted and expired entries dropped.
    pub fn get_batch(&mut self, keys: &Vec<String>, now: u64) -> (r: Vec<(String, V)>)
        requires
            old(self).wf(),
        ensures
            final(self).wf(),
            final(self)@ == after_accesses(old(self)@, keys@.map_values(|k: String| k@), now),
            forall|i: int| 0 <= i < r@.len() ==> {
                &&& live(old(self)@, (#[trigger] r@[i]).0@, now)
                &&& cloned(old(self)@[r@[i].0@].value, r@[i].1)
                &&& exists|j: int| 0 <= j < keys@.len() && keys@[j]@ == r@[i].0@
            },
            forall|i: int, j: int| 0 <= i < j < r@.len() ==> r@[i].0@ != r@[j].0@,
            forall|j: int|
                0 <= j < keys@.len() && live(old(self)@, (#[trigger] keys@[j])@, now) ==> exists|i: int|
                    0 <= i < r@.len() && r@[i].0@ == keys@[j]@,
    {
        let ghost m0 = self@;
        let ghost ks = keys@.map_values(|k: String| k@);
        let mut out: Vec<(String, V)> = Vec::new();
        let mut n: usize = 0;
        while n < keys.len()
            invariant
                self.wf(),
                n <= keys@.len(),
                ks == keys@.map_values(|k: String| k@),
                self@ == after_accesses(m0, ks.take(n as int), now),
                forall|i: int| 0 <= i < out@.len() ==> {
                    &&& live(m0, (#[trigger] out@[i]).0@, now)
                    &&& cloned(m0[out@[i].0@].value, out@[i].1)
                    &&& exists|j: int| 0 <= j < keys@.len() && keys@[j]@ == out@[i].0@
                },
                forall|i: int, j: int| 0 <= i < j < out@.len() ==> out@[i].0@ != out@[j].0@,
                forall|j: int|
                    0 <= j < n && live(m0, (#[trigger] keys@[j])@, now) ==> exists|i: int|
                        0 <= i < out@.len() && out@[i].0@ == keys@[j]@,
            decreases keys.len() - n,
        {
            let key = &keys[n];
            proof {
                assert(ks.take(n + 1).drop_last() =~= ks.take(n as int));
                assert(ks.take(n + 1).last() == key@);
                lemma_accesses_keep(m0, ks.take(n as int), now, key@);
            }
            let ghost before = self@;
            let ghost out0 = out@;
            let found = self.get(key.as_str(), now);
            match found {
                Some(v) => {
                    let mut seen = false;
                    let mut t: usize = 0;
                    while t < out.len()
                        invariant
                            t <= out@.len(),
                            seen ==> exists|i: int| 0 <= i < out@.len() && out@[i].0@ == key@,
                            !seen ==> forall|i: int| 0 <= i < t ==> out@[i].0@ != key@,
                        decreases out.len() - t,
                    {
                        if crate::text::chars_eq(&crate::text::chars_of(out[t].0.as_str()), &crate::text::chars_of(key.as_str())) {
                            seen = true;
                        }
                        t += 1;
                    }
                    if !seen {
                        let ghost o0 = out@;
                        out.push((key.clone(), v));
                        proof {
                            assert(out@[o0.len() as int].0@ == key@);
                            assert(keys@[n as int]@ == key@);
                        }
                    }
                },
                None => {},
            }
            proof {
                assert forall|j: int|
                    0 <= j < n + 1 && live(m0, (#[trigger] keys@[j])@, now) implies exists|i: int|
                        0 <= i < out@.len() && out@[i].0@ == keys@[j]@ by {
                    if j < n {
                        let i = choose|i: int| 0 <= i < out0.len() && out0[i].0@ == keys@[j]@;
                        assert(out@[i] == out0[i]);
                    } else {
                        assert(keys@[j] == *key);
                    }
                }
            }
            n += 1;
        }
        assert(ks.take(keys@.len() as int) =~= ks);
        out
    }

    /// The entry under `key` as it is after this read, if it is valid at
    /// `now`; an expired entry is dropped.
    pub fn snapshot(&mut self, key: &str, now: u64) -> (r: Option<CacheEntrySnapshot<V>>)
        requires
            old(self).wf(),
        ensures
            final(self).wf(),
            final(self)@ == after_access(old(self)@, key@, now),
            r is Some <==> live(old(self)@, key@, now),
            r matches Some(snap) ==> {
                let e = final(self)@[key@];
                &&& cloned(e.value, snap.value)
                &&& snap.expires_at == e.expires_at
                &&& snap.created_at == e.created_at
                &&& snap.last_accessed == now
                &&& snap.hit_count == e.hit_count
                &&& snap.remaining_ttl == (match e.expires_at {
                    Some(d) => Some((d - now) as u64),
                    None => None,
                })
            },
    {
        match self.access(key, now) {
            Some(i) => {
                proof {
                    lemma_keyed_index(self.entries@, i as int);
                }
                let e = &self.entries[i].1;
                Some(
                    CacheEntrySnapshot {
                        value: e.value.clone(),
                        expires_at: e.expires_at,
                        created_at: e.created_at,
                        last_accessed: e.last_accessed,
                        hit_count: e.hit_count,
                        remaining_ttl: e.remaining_ttl(now),
                    },
                )
            },
            None => None,
        }
    }

    /// Stores `value` under `key` at `now`, replacing what was there.
    pub fn set_with_policy(&mut self, key: &str, value: V, ttl: Option<u64>, now: u64)
        requires
            old(self).wf(),
        ensures
            final(self).wf(),
            final(self)@ == old(self)@.insert(key@, fresh_entry(value, ttl, now)),
    {
        let ghost s0 = self.entries@;
        let entry = CacheEntry::new(value, ttl, now);
        let p = (owned(key), entry);
        match find_key(&self.entries, key) {
            Some(i) => {
                self.entries.set(i, p);
                proof {
                    lemma_keyed_update(s0, i as int, p);
                }
            },
            None => {
                self.entries.push(p);
                proof {
                    lemma_keyed_push(s0, p);
                }
            },
        }
    }

    /// Stores `value` under `key`, valid until removed.
    pub fn set(&mut self, key: &str, value: V, now: u64)
        requires
            old(self).wf(),
        ensures
            final(self).wf(),
            final(self)@ == old(self)@.insert(key@, fresh_entry(value, None, now)),
    {
        self.set_with_policy(key, value, None, now)
    }

    /// Stores `value` under `key`, valid for `ttl` milliseconds from `now`.
    pub fn set_with_ttl(&mut self, key: &str, value: V, ttl: u64, now: u64)
        requires
            old(self).wf(),
        ensures
            final(self).wf(),
            final(self)@ == old(self)@.insert(key@, fresh_entry(value, Some(ttl), now)),
    {
        self.set_with_policy(key, value, Some(ttl), now)
    }

    /// Gives the entry under `key` a new time to live from `now` (none: it
    /// stays until removed); an absent key is left absent.
    pub fn update_ttl(&mut self, key: &str, ttl: Option<u64>, now: u64)
        requires
            old(self).wf(),
        ensures
            final(self).wf(),
            final(self)@ == (if old(self)@.contains_key(key@) {
                old(self)@.insert(
                    key@,
                    CacheEntry { expires_at: deadline(ttl, now), ..old(self)@[key@] },
                )
            } else {
                old(self)@
            }),
    {
        let ghost s0 = self.entries@;
        match find_key(&self.entries, key) {
            Some(i) => {
                proof {
                    lemma_keyed_index(s0, i as int);
                }
                let (k, mut e) = self.entries.remove(i);
                e.expires_at = match ttl {
                    Some(t) => now.checked_add(t),
                    None => None,
                };
                let ghost p = (k, e);
                self.entries.insert(i, (k, e));
                proof {
                    assert(self.entries@ =~= s0.update(i as int, p));
                    lemma_keyed_update(s0, i as int, p);
                }
            },
            None => {},
        }
    }

    /// Counts a hit on `key` if it is valid at `now`; an expired entry is
    /// dropped.
    pub fn touch(&mut self, key: &str, now: u64) -> (r: bool)
        requires
            old(self).wf(),
        ensures
            final(self).wf(),
            final(self)@ == after_access(old(self)@, key@, now),
            r == live(old(self)@, key@, now),
    {
        self.access(key, now).is_some()
    }

    /// Whether `key` holds a value valid at `now`; the read counts as a hit,
    /// and an expired entry is dropped.
    pub fn contains_key(&mut self, key: &str, now: u64) -> (r: bool)
        requires
            old(self).wf(),
        ensures
            final(self).wf(),
            final(self)@ == after_access(old(self)@, key@, now),
            r == live(old(self)@, key@, now),
    {
        self.access(key, now).is_some()
    }

    /// Removes `key` and gives back its value, expired or not.
    pub fn remove(&mut self, key: &str) -> (r: Option<V>)
        requires
            old(self).wf(),
        ensures
            final(self).wf(),
            final(self)@ == old(self)@.remove(key@),
            r is Some <==> old(self)@.contains_key(key@),
            r matches Some(v) ==> v == old(self)@[key@].value,
    {
        let ghost s0 = self.entries@;
        match find_key(&self.entries, key) {
            Some(i) => {
                proof {
                    lemma_keyed_index(s0, i as int);
                    lemma_keyed_remove(s0, i as int);
                }
                let (_, e) = self.entries.remove(i);
                Some(e.value)
            },
            None => {
                assert(old(self)@.remove(key@) =~= old(self)@);
                None
            },
        }
    }

    /// Empties the cache.
    pub fn clear(&mut self)
        ensures
            final(self).wf(),
            final(self)@ == Map::<Seq<char>, CacheEntry<V>>::empty(),
    {
        self.entries = Vec::new();
        assert(keyed_map(self.entries@) =~= Map::<Seq<char>, CacheEntry<V>>::empty());
    }

    /// Keeps the entries that `keep` accepts and drops the others; gives
    /// the number dropped.
    fn sweep(&mut self, keep: Ghost<spec_fn(Seq<char>, CacheEntry<V>) -> bool>, now: u64, prefix: &Vec<char>, by_prefix: bool) -> (r: usize)
        requires
            old(self).wf(),
            by_prefix ==> keep@ == outside_prefix::<V>(prefix@),
            !by_prefix ==> keep@ == unexpired::<V>(now),
        ensures
            final(self).wf(),
            final(self)@ == kept_map(old(self)@, keep@),
            r == old(self)@.len() - final(self)@.len(),
    {
        let ghost s0 = self.entries@;
        let mut rest: Vec<(String, CacheEntry<V>)> = Vec::new();
        std::mem::swap(&mut rest, &mut self.entries);
        let mut kept: Vec<(String, CacheEntry<V>)> = Vec::new();
        let ghost mut idx: Seq<int> = Seq::empty();
        let ghost mut n: int = 0;
        let total = rest.len();
        while rest.len() > 0
            invariant
                distinct_keys(s0),
                sweep_so_far(s0, kept@, idx, n, keep@),
                rest@ == s0.skip(n),
                kept@.len() <= n,
                total == s0.len(),
                by_prefix ==> keep@ == outside_prefix::<V>(prefix@),
                !by_prefix ==> keep@ == unexpired::<V>(now),
            decreases rest.len(),
        {
            let item = rest.remove(0);
            proof {
                assert(item == s0[n]);
                lemma_sweep_step(s0, kept@, idx, n, keep@);
            }
            let name = chars_of(item.0.as_str());
            let keep_it = if by_prefix {
                !starts_with_chars(&name, prefix)
            } else {
                !item.1.is_expired(now)
            };
            if keep_it {
                kept.push(item);
                proof {
                    idx = idx.push(n);
                }
            }
            proof {
                n = n + 1;
                assert(rest@ =~= s0.skip(n));
            }
        }
        proof {
            lemma_sweep_done(s0, kept@, idx, keep@);
            lemma_keyed_len(s0);
            lemma_keyed_len(kept@);
        }
        self.entries = kept;
        total - self.entries.len()
    }

    /// Drops the entries expired at `now`; gives how many went.
    pub fn purge_expired(&mut self, now: u64) -> (r: usize)
        requires
            old(self).wf(),
        ensures
            final(self).wf(),
            final(self)@ == kept_map(old(self)@, unexpired::<V>(now)),
            r == old(self)@.len() - final(self)@.len(),
    {
        let none: Vec<char> = Vec::new();
        self.sweep(Ghost(unexpired::<V>(now)), now, &none, false)
    }

    /// The number of entries valid at `now` (expired ones are dropped).
    pub fn len(&mut self, now: u64) -> (r: usize)
        requires
            old(self).wf(),
        ensures
            final(self).wf(),
            final(self)@ == kept_map(old(self)@, unexpired::<V>(now)),
            r == final(self)@.len(),
    {
        self.purge_expired(now);
        proof {
            lemma_keyed_len(self.entries@);
        }
        self.entries.len()
    }

    /// The keys valid at `now`, each once (expired entries are dropped).
    pub fn keys(&mut self, now: u64) -> (r: Vec<String>)
        requires
            old(self).wf(),
        ensures
            final(self).wf(),
            final(self)@ == kept_map(old(self)@, unexpired::<V>(now)),
            forall|i: int, j: int| 0 <= i < j < r@.len() ==> r@[i]@ != r@[j]@,
            forall|i: int| 0 <= i < r@.len() ==> final(self)@.contains_key(#[trigger] r@[i]@),
            forall|k: Seq<char>| #[trigger]
                final(self)@.contains_key(k) ==> exists|i: int| 0 <= i < r@.len() && r@[i]@ == k,
    {
        self.purge_expired(now);
        let mut out: Vec<String> = Vec::new();
        let mut i: usize = 0;
        while i < self.entries.len()
            invariant
                distinct_keys(self.entries@),
                i <= self.entries@.len(),
                out@.len() == i,
                forall|j: int| 0 <= j < i ==> (#[trigger] out@[j])@ == self.entries@[j].0@,
            decreases self.entries.len() - i,
        {
            out.push(self.entries[i].0.clone());
            i += 1;
        }
        proof {
            let s = self.entries@;
            assert forall|a: int, b: int| 0 <= a < b < out@.len() implies out@[a]@ != out@[b]@ by {
                assert(s[a].0@ != s[b].0@);
            }
            assert forall|a: int| 0 <= a < out@.len() implies keyed_map(s).contains_key(
                #[trigger] out@[a]@,
            ) by {
                lemma_keyed_index(s, a);
            }
            assert forall|k: Seq<char>| #[trigger] keyed_map(s).contains_key(k) implies exists|
                a: int,
            | 0 <= a < out@.len() && out@[a]@ == k by {
                let a = choose|a: int| 0 <= a < s.len() && s[a].0@ == k;
                assert(out@[a]@ == k);
            }
        }
        out
    }

    /// Writes `items` in order at `now`, without a time to live.
    pub fn set_batch(&mut self, items: Vec<(String, V)>, now: u64)
        requires
            old(self).wf(),
        ensures
            final(self).wf(),
            final(self)@ == batch_written(old(self)@, items@, now),
    {
        let ghost m0 = self@;
        let ghost all = items@;
        let mut rest = items;
        let ghost mut n: int = 0;
        while rest.len() > 0
            invariant
                self.wf(),
                0 <= n <= all.len(),
                rest@ == all.skip(n),
                self@ == batch_written(m0, all.take(n), now),
            decreases rest.len(),
        {
            let (key, value) = rest.remove(0);
            proof {
                assert(all.take(n + 1).drop_last() =~= all.take(n));
                assert(all.take(n + 1).last() == all[n]);
            }
            self.set(key.as_str(), value, now);
            proof {
                n = n + 1;
                assert(rest@ =~= all.skip(n));
            }
        }
        assert(all.take(n) =~= all);
    }

    // ----- namespaced access -----

    pub fn get_ns(&mut self, namespace: CacheNamespace, key: &str, now: u64) -> (r: Option<V>)
        requires
            old(self).wf(),
        ensures
            final(self).wf(),
            final(self)@ == after_access(old(self)@, ns_prefix(namespace) + key@, now),
            r is Some <==> live(old(self)@, ns_prefix(namespace) + key@, now),
            r matches Some(v) ==> cloned(old(self)@[ns_prefix(namespace) + key@].value, v),
    {
        let full = namespace.make_key(key);
        self.get(full.as_str(), now)
    }

    pub fn set_ns(&mut self, namespace: CacheNamespace, key: &str, value: V, now: u64)
        requires
            old(self).wf(),
        ensures
            final(self).wf(),
            final(self)@ == old(self)@.insert(
                ns_prefix(namespace) + key@,
                fresh_entry(value, None, now),
            ),
    {
        let full = namespace.make_key(key);
        self.set(full.as_str(), value, now)
    }

    pub fn set_ns_with_ttl(
        &mut self,
        namespace: CacheNamespace,
        key: &str,
        value: V,
        ttl: u64,
        now: u64,
    )
        requires
            old(self).wf(),
        ensures
            final(self).wf(),
            final(self)@ == old(self)@.insert(
                ns_prefix(namespace) + key@,
                fresh_entry(value, Some(ttl), now),
            ),
    {
        let full = namespace.make_key(key);
        self.set_with_ttl(full.as_str(), value, ttl, now)
    }

    pub fn remove_ns(&mut self, namespace: CacheNamespace, key: &str) -> (r: Option<V>)
        requires
            old(self).wf(),
        ensures
            final(self).wf(),
            final(self)@ == old(self)@.remove(ns_prefix(namespace) + key@),
            r is Some <==> old(self)@.contains_key(ns_prefix(namespace) + key@),
            r matches Some(v) ==> v == old(self)@[ns_prefix(namespace) + key@].value,
    {
        let full = namespace.make_key(key);
        self.remove(full.as_str())
    }

    pub fn contains_key_ns(&mut self, namespace: CacheNamespace, key: &str, now: u64) -> (r: bool)
        requires
            old(self).wf(),
        ensures
            final(self).wf(),
            final(self)@ == after_access(old(self)@, ns_prefix(namespace) + key@, now),
            r == live(old(self)@, ns_prefix(namespace) + key@, now),
    {
        let full = namespace.make_key(key);
        self.contains_key(full.as_str(), now)
    }

    /// Drops every key of a namespace (the global namespace holds them
    /// all); gives how many went, expired ones included.
    pub fn clear_namespace(&mut self, namespace: CacheNamespace) -> (r: usize)
        requires
            old(self).wf(),
        ensures
            final(self).wf(),
            final(self)@ == kept_map(old(self)@, outside_prefix::<V>(ns_prefix(namespace))),
            r == old(self)@.len() - final(self)@.len(),
    {
        let prefix = chars_of(namespace.prefix());
        self.sweep(Ghost(outside_prefix::<V>(ns_prefix(namespace))), 0, &prefix, true)
    }

    /// The keys of a namespace valid at `now`, without the namespace's
    /// prefix (expired entries are dropped first).
    pub fn keys_in_namespace(&mut self, namespace: CacheNamespace, now: u64) -> (r: Vec<String>)
        requires
            old(self).wf(),
        ensures
            final(self).wf(),
            final(self)@ == kept_map(old(self)@, unexpired::<V>(now)),
            forall|i: int, j: int| 0 <= i < j < r@.len() ==> r@[i]@ != r@[j]@,
            forall|i: int|
                0 <= i < r@.len() ==> final(self)@.contains_key(
                    ns_prefix(namespace) + #[trigger] r@[i]@,
                ),
            forall|k: Seq<char>| #[trigger]
                final(self)@.contains_key(k) && starts_with(k, ns_prefix(namespace)) ==> exists|
                    i: int,
                | 0 <= i < r@.len() && ns_prefix(namespace) + r@[i]@ == k,
    {
        self.purge_expired(now);
        let prefix = chars_of(namespace.prefix());
        let ghost pre = prefix@;
        let mut out: Vec<String> = Vec::new();
        let ghost mut from: Seq<int> = Seq::empty();
        let mut i: usize = 0;
        while i < self.entries.len()
            invariant
                distinct_keys(self.entries@),
                pre == ns_prefix(namespace),
                prefix@ == pre,
                i <= self.entries@.len(),
                from.len() == out@.len(),
                forall|j: int| 0 <= j < from.len() ==> 0 <= #[trigger] from[j] < i,
                forall|a: int, b: int| 0 <= a < b < from.len() ==> from[a] < from[b],
                forall|j: int|
                    0 <= j < out@.len() ==> pre + (#[trigger] out@[j])@ == self.entries@[from[j]].0@,
                forall|k: int|
                    0 <= k < i && starts_with(#[trigger] self.entries@[k].0@, pre) ==> exists|j: int|
                        0 <= j < from.len() && from[j] == k,
            decreases self.entries.len() - i,
        {
            let name = chars_of(self.entries[i].0.as_str());
            if starts_with_chars(&name, &prefix) {
                let rest = slice_chars(&name, prefix.len(), name.len());
                let key = string_of(&rest);
                proof {
                    assert(pre + key@ =~= name@);
                }
                out.push(key);
                proof {
                    let old_from = from;
                    from = from.push(i as int);
                    assert forall|k: int|
                        0 <= k < i + 1 && starts_with(
                            #[trigger] self.entries@[k].0@,
                            pre,
                        ) implies exists|j: int| 0 <= j < from.len() && from[j] == k by {
                        if k == i {
                            assert(from[old_from.len() as int] == k);
                        } else {
                            let j = choose|j: int| 0 <= j < old_from.len() && old_from[j] == k;
                            assert(from[j] == k);
                        }
                    }
                }
            }
            i += 1;
        }
        proof {
            let s = self.entries@;
            assert forall|a: int, b: int| 0 <= a < b < out@.len() implies out@[a]@ != out@[b]@ by {
                assert(s[from[a]].0@ != s[from[b]].0@);
                if out@[a]@ == out@[b]@ {
                    assert(pre + out@[a]@ == pre + out@[b]@);
                }
            }
            assert forall|a: int| 0 <= a < out@.len() implies keyed_map(s).contains_key(
                pre + #[trigger] out@[a]@,
            ) by {
                lemma_keyed_index(s, from[a]);
            }
            assert forall|k: Seq<char>| #[trigger]
                keyed_map(s).contains_key(k) && starts_with(k, pre) implies exists|a: int|
                0 <= a < out@.len() && pre + out@[a]@ == k by {
                let c = choose|c: int| 0 <= c < s.len() && s[c].0@ == k;
                assert(starts_with(s[c].0@, pre));
                let a = choose|a: int| 0 <= a < from.len() && from[a] == c;
                assert(pre + out@[a]@ == k);
            }
        }
        out
    }
}

impl<V: Clone> Default for UnifiedCache<V> {
    fn default() -> (r: Self)
        ensures
            r.wf(),
            r@ == Map::<Seq<char>, CacheEntry<V>>::empty(),
    {
        Self::new()
    }
}

/// A value written with a time to live is read back, as written, at every
/// moment before its deadline (always, without one); other keys keep
/// their entries.
pub proof fn law_read_after_write<V>(
    m: Map<Seq<char>, CacheEntry<V>>,
    k: Seq<char>,
    v: V,
    ttl: Option<u64>,
    now: u64,
    later: u64,
    other: Seq<char>,
)
    requires
        now <= later,
        deadline(ttl, now) matches Some(d) ==> later < d,
        other != k,
    ensures
        live(m.insert(k, fresh_entry(v, ttl, now)), k, later),
        m.insert(k, fresh_entry(v, ttl, now))[k].value == v,
        m.insert(k, fresh_entry(v, ttl, now)).contains_key(other) == m.contains_key(other),
        m.contains_key(other) ==> m.insert(k, fresh_entry(v, ttl, now))[other] == m[other],
{
}

/// Once its deadline has come a value is no longer read back: the read
/// finds nothing and drops the entry.
pub proof fn law_expired_read<V>(m: Map<Seq<char>, CacheEntry<V>>, k: Seq<char>, v: V, ttl: u64, now: u64, later: u64)
    requires
        now + ttl <= u64::MAX,
        later >= now + ttl,
    ensures
        !live(m.insert(k, fresh_entry(v, Some(ttl), now)), k, later),
        !after_access(m.insert(k, fresh_entry(v, Some(ttl), now)), k, later).contains_key(k),
{
}

/// After a purge every entry left is valid, and every valid entry is left
/// as it was.
pub proof fn law_purge_keeps_valid<V>(m: Map<Seq<char>, CacheEntry<V>>, now: u64, k: Seq<char>)
    ensures
        kept_map(m, unexpired::<V>(now)).contains_key(k) <==> live(m, k, now),
        live(m, k, now) ==> kept_map(m, unexpired::<V>(now))[k] == m[k],
{
}

/// Clearing a namespace drops exactly its keys: a key of another namespace
/// stays; clearing the global namespace drops every key.
pub proof fn law_clear_namespace<V>(
    m: Map<Seq<char>, CacheEntry<V>>,
    ns: CacheNamespace,
    k: Seq<char>,
)
    ensures
        kept_map(m, outside_prefix::<V>(ns_prefix(ns))).contains_key(ns_prefix(ns) + k) == false,
        ns == CacheNamespace::Global ==> kept_map(m, outside_prefix::<V>(ns_prefix(ns))) =~= Map::<
            Seq<char>,
            CacheEntry<V>,
        >::empty(),
        m.contains_key(k) && !starts_with(k, ns_prefix(ns)) ==> kept_map(
            m,
            outside_prefix::<V>(ns_prefix(ns)),
        ).contains_key(k),
{
    assert((ns_prefix(ns) + k).subrange(0, ns_prefix(ns).len() as int) =~= ns_prefix(ns));
    if ns == CacheNamespace::Global {
        reveal_strlit("");
        assert forall|j: Seq<char>| starts_with(j, ns_prefix(ns)) by {
            assert(j.subrange(0, 0) =~= ""@);
        }
    }
}

/// Keys of two different named namespaces never meet, whatever the keys
/// (the global namespace adds no prefix, so it is left out).
pub proof fn law_namespaces_apart(a: CacheNamespace, b: CacheNamespace, ka: Seq<char>, kb: Seq<char>)
    requires
        a != b,
        a != CacheNamespace::Global,
        b != CacheNamespace::Global,
    ensures
        ns_prefix(a) + ka != ns_prefix(b) + kb,
{
    reveal_strlit("rules:");
    reveal_strlit("session:");
    reveal_strlit("ui:");
    reveal_strlit("agent:");
    reveal_strlit("completion:");
    reveal_strlit("terminal:");
    assert((ns_prefix(a) + ka)[0] == ns_prefix(a)[0]);
    assert((ns_prefix(b) + kb)[0] == ns_prefix(b)[0]);
}

} // verus!
