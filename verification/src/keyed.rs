//! Lists of `(key, item)` pairs with string keys, each key once, read as a
//! map from key text to item.
use vstd::prelude::*;
use crate::text::{chars_eq, chars_of};

verus! {

/// No key occurs twice.
pub open spec fn distinct_keys<T>(s: Seq<(String, T)>) -> bool {
    forall|i: int, j: int| 0 <= i < j < s.len() ==> s[i].0@ != s[j].0@
}

/// The item stored under each key.
pub open spec fn keyed_map<T>(s: Seq<(String, T)>) -> Map<Seq<char>, T> {
    Map::new(
        |k: Seq<char>| exists|i: int| 0 <= i < s.len() && s[i].0@ == k,
        |k: Seq<char>| s[choose|i: int| 0 <= i < s.len() && s[i].0@ == k].1,
    )
}

/// The part of a map whose entries satisfy `keep`.
pub open spec fn kept_map<T>(m: Map<Seq<char>, T>, keep: spec_fn(Seq<char>, T) -> bool) -> Map<
    Seq<char>,
    T,
> {
    Map::new(|k: Seq<char>| m.contains_key(k) && keep(k, m[k]), |k: Seq<char>| m[k])
}

pub proof fn lemma_keyed_index<T>(s: Seq<(String, T)>, j: int)
    requires
        distinct_keys(s),
        0 <= j < s.len(),
    ensures
        keyed_map(s).contains_key(s[j].0@),
        keyed_map(s)[s[j].0@] == s[j].1,
{
    let k = s[j].0@;
    assert(exists|i: int| 0 <= i < s.len() && s[i].0@ == k);
    let c = choose|i: int| 0 <= i < s.len() && s[i].0@ == k;
    if c != j {
        if c < j {
            assert(s[c].0@ != s[j].0@);
        } else {
            assert(s[j].0@ != s[c].0@);
        }
    }
}

pub proof fn lemma_keyed_update<T>(s: Seq<(String, T)>, i: int, p: (String, T))
    requires
        distinct_keys(s),
        0 <= i < s.len(),
        s[i].0@ == p.0@,
    ensures
        distinct_keys(s.update(i, p)),
        keyed_map(s.update(i, p)) == keyed_map(s).insert(p.0@, p.1),
{
    let t = s.update(i, p);
    assert forall|a: int, b: int| 0 <= a < b < t.len() implies t[a].0@ != t[b].0@ by {
        assert(s[a].0@ != s[b].0@);
    }
    let m = keyed_map(s).insert(p.0@, p.1);
    assert forall|k: Seq<char>| #[trigger] keyed_map(t).contains_key(k) <==> m.contains_key(k) by {
        if keyed_map(t).contains_key(k) {
            let j = choose|j: int| 0 <= j < t.len() && t[j].0@ == k;
            lemma_keyed_index(s, j);
        }
        if m.contains_key(k) {
            if k == p.0@ {
                lemma_keyed_index(t, i);
            } else {
                let j = choose|j: int| 0 <= j < s.len() && s[j].0@ == k;
                lemma_keyed_index(t, j);
            }
        }
    }
    assert forall|k: Seq<char>| #[trigger] keyed_map(t).contains_key(k) implies keyed_map(t)[k]
        == m[k] by {
        let j = choose|j: int| 0 <= j < t.len() && t[j].0@ == k;
        lemma_keyed_index(t, j);
        lemma_keyed_index(s, j);
    }
    assert(keyed_map(t) =~= m);
}

pub proof fn lemma_keyed_push<T>(s: Seq<(String, T)>, p: (String, T))
    requires
        distinct_keys(s),
        !keyed_map(s).contains_key(p.0@),
    ensures
        distinct_keys(s.push(p)),
        keyed_map(s.push(p)) == keyed_map(s).insert(p.0@, p.1),
{
    let t = s.push(p);
    let n = s.len() as int;
    assert forall|a: int, b: int| 0 <= a < b < t.len() implies t[a].0@ != t[b].0@ by {
        if b == n {
            lemma_keyed_index(s, a);
        } else {
            assert(s[a].0@ != s[b].0@);
        }
    }
    let m = keyed_map(s).insert(p.0@, p.1);
    assert forall|k: Seq<char>| #[trigger] keyed_map(t).contains_key(k) <==> m.contains_key(k) by {
        if keyed_map(t).contains_key(k) {
            let j = choose|j: int| 0 <= j < t.len() && t[j].0@ == k;
            if j < n {
                lemma_keyed_index(s, j);
            }
        }
        if m.contains_key(k) {
            if k == p.0@ {
                lemma_keyed_index(t, n);
            } else {
                let j = choose|j: int| 0 <= j < s.len() && s[j].0@ == k;
                lemma_keyed_index(t, j);
            }
        }
    }
    assert forall|k: Seq<char>| #[trigger] keyed_map(t).contains_key(k) implies keyed_map(t)[k]
        == m[k] by {
        let j = choose|j: int| 0 <= j < t.len() && t[j].0@ == k;
        lemma_keyed_index(t, j);
        if j < n {
            lemma_keyed_index(s, j);
        }
    }
    assert(keyed_map(t) =~= m);
}

pub proof fn lemma_keyed_remove<T>(s: Seq<(String, T)>, i: int)
    requires
        distinct_keys(s),
        0 <= i < s.len(),
    ensures
        distinct_keys(s.remove(i)),
        keyed_map(s.remove(i)) == keyed_map(s).remove(s[i].0@),
{
    let t = s.remove(i);
    let key = s[i].0@;
    assert forall|a: int, b: int| 0 <= a < b < t.len() implies t[a].0@ != t[b].0@ by {
        let a0 = if a < i { a } else { a + 1 };
        let b0 = if b < i { b } else { b + 1 };
        assert(t[a] == s[a0] && t[b] == s[b0]);
        assert(s[a0].0@ != s[b0].0@);
    }
    let m = keyed_map(s).remove(key);
    assert forall|k: Seq<char>| #[trigger] keyed_map(t).contains_key(k) <==> m.contains_key(k) by {
        if keyed_map(t).contains_key(k) {
            let j = choose|j: int| 0 <= j < t.len() && t[j].0@ == k;
            let j0 = if j < i { j } else { j + 1 };
            assert(t[j] == s[j0]);
            lemma_keyed_index(s, j0);
            assert(s[j0].0@ != s[i].0@) by {
                if j0 < i {
                } else {
                }
            }
        }
        if m.contains_key(k) {
            let j = choose|j: int| 0 <= j < s.len() && s[j].0@ == k;
            assert(j != i);
            let j1 = if j < i { j } else { j - 1 };
            assert(t[j1] == s[j]);
            lemma_keyed_index(t, j1);
        }
    }
    assert forall|k: Seq<char>| #[trigger] keyed_map(t).contains_key(k) implies keyed_map(t)[k]
        == m[k] by {
        let j = choose|j: int| 0 <= j < t.len() && t[j].0@ == k;
        let j0 = if j < i { j } else { j + 1 };
        assert(t[j] == s[j0]);
        lemma_keyed_index(t, j);
        lemma_keyed_index(s, j0);
    }
    assert(keyed_map(t) =~= m);
}

/// A list of distinct keys has as many entries as its map has keys.
pub proof fn lemma_keyed_len<T>(s: Seq<(String, T)>)
    requires
        distinct_keys(s),
    ensures
        keyed_map(s).dom().finite(),
        keyed_map(s).len() == s.len(),
    decreases s.len(),
{
    if s.len() == 0 {
        assert(keyed_map(s).dom() =~= Set::<Seq<char>>::empty());
    } else {
        let t = s.drop_last();
        let last = s.last();
        assert(distinct_keys(t));
        lemma_keyed_len(t);
        assert(!keyed_map(t).contains_key(last.0@)) by {
            if keyed_map(t).contains_key(last.0@) {
                let j = choose|j: int| 0 <= j < t.len() && t[j].0@ == last.0@;
                assert(s[j].0@ != s[s.len() - 1].0@);
            }
        }
        lemma_keyed_push(t, last);
        assert(t.push(last) =~= s);
    }
}

/// What a sweep that keeps the entries satisfying `keep` has done after the
/// first `n` entries of `s`: `kept` holds those of them that satisfy it, in
/// order, `idx[j]` being where `kept[j]` stood.
pub open spec fn sweep_so_far<T>(
    s: Seq<(String, T)>,
    kept: Seq<(String, T)>,
    idx: Seq<int>,
    n: int,
    keep: spec_fn(Seq<char>, T) -> bool,
) -> bool {
    &&& 0 <= n <= s.len()
    &&& idx.len() == kept.len()
    &&& forall|j: int| 0 <= j < idx.len() ==> 0 <= #[trigger] idx[j] < n
    &&& forall|a: int, b: int| 0 <= a < b < idx.len() ==> idx[a] < idx[b]
    &&& forall|j: int| 0 <= j < kept.len() ==> #[trigger] kept[j] == s[idx[j]]
    &&& forall|j: int| 0 <= j < kept.len() ==> keep(#[trigger] kept[j].0@, kept[j].1)
    &&& forall|k: int|
        0 <= k < n && keep(#[trigger] s[k].0@, s[k].1) ==> exists|j: int|
            0 <= j < idx.len() && idx[j] == k
}

/// One more entry looked at by a sweep.
pub proof fn lemma_sweep_step<T>(
    s: Seq<(String, T)>,
    kept: Seq<(String, T)>,
    idx: Seq<int>,
    n: int,
    keep: spec_fn(Seq<char>, T) -> bool,
)
    requires
        sweep_so_far(s, kept, idx, n, keep),
        n < s.len(),
    ensures
        keep(s[n].0@, s[n].1) ==> sweep_so_far(s, kept.push(s[n]), idx.push(n), n + 1, keep),
        !keep(s[n].0@, s[n].1) ==> sweep_so_far(s, kept, idx, n + 1, keep),
{
    if keep(s[n].0@, s[n].1) {
        let kept1 = kept.push(s[n]);
        let idx1 = idx.push(n);
        assert forall|k: int| 0 <= k < n + 1 && keep(#[trigger] s[k].0@, s[k].1) implies exists|
            j: int,
        | 0 <= j < idx1.len() && idx1[j] == k by {
            if k == n {
                assert(idx1[idx.len() as int] == n);
            } else {
                let j = choose|j: int| 0 <= j < idx.len() && idx[j] == k;
                assert(idx1[j] == k);
            }
        }
        assert forall|j: int| 0 <= j < kept1.len() implies keep(#[trigger] kept1[j].0@, kept1[j].1) by {
            if j < kept.len() {
                assert(kept1[j] == kept[j]);
            }
        }
        assert forall|j: int| 0 <= j < kept1.len() implies #[trigger] kept1[j] == s[idx1[j]] by {
            if j < kept.len() {
                assert(kept1[j] == kept[j]);
            }
        }
    } else {
        assert forall|k: int| 0 <= k < n + 1 && keep(#[trigger] s[k].0@, s[k].1) implies exists|
            j: int,
        | 0 <= j < idx.len() && idx[j] == k by {
            let j = choose|j: int| 0 <= j < idx.len() && idx[j] == k;
        }
    }
}

/// A finished sweep keeps exactly the entries that satisfy `keep`.
pub proof fn lemma_sweep_done<T>(
    s: Seq<(String, T)>,
    kept: Seq<(String, T)>,
    idx: Seq<int>,
    keep: spec_fn(Seq<char>, T) -> bool,
)
    requires
        distinct_keys(s),
        sweep_so_far(s, kept, idx, s.len() as int, keep),
    ensures
        distinct_keys(kept),
        keyed_map(kept) == kept_map(keyed_map(s), keep),
{
    assert forall|a: int, b: int| 0 <= a < b < kept.len() implies kept[a].0@ != kept[b].0@ by {
        assert(kept[a] == s[idx[a]] && kept[b] == s[idx[b]]);
        assert(s[idx[a]].0@ != s[idx[b]].0@);
    }
    let m = kept_map(keyed_map(s), keep);
    assert forall|k: Seq<char>| #[trigger] keyed_map(kept).contains_key(k) <==> m.contains_key(k) by {
        if keyed_map(kept).contains_key(k) {
            let j = choose|j: int| 0 <= j < kept.len() && kept[j].0@ == k;
            assert(kept[j] == s[idx[j]]);
            lemma_keyed_index(s, idx[j]);
            assert(keep(kept[j].0@, kept[j].1));
        }
        if m.contains_key(k) {
            let i = choose|i: int| 0 <= i < s.len() && s[i].0@ == k;
            lemma_keyed_index(s, i);
            assert(keep(s[i].0@, s[i].1));
            let j = choose|j: int| 0 <= j < idx.len() && idx[j] == i;
            assert(kept[j] == s[i]);
            lemma_keyed_index(kept, j);
        }
    }
    assert forall|k: Seq<char>| #[trigger] keyed_map(kept).contains_key(k) implies keyed_map(kept)[k]
        == m[k] by {
        let j = choose|j: int| 0 <= j < kept.len() && kept[j].0@ == k;
        assert(kept[j] == s[idx[j]]);
        lemma_keyed_index(kept, j);
        lemma_keyed_index(s, idx[j]);
    }
    assert(keyed_map(kept) =~= m);
}

/// Where `key` stands in the list, if it is there.
pub fn find_key<T>(s: &Vec<(String, T)>, key: &str) -> (r: Option<usize>)
    requires
        distinct_keys(s@),
    ensures
        r is None <==> !keyed_map(s@).contains_key(key@),
        r matches Some(i) ==> i < s@.len() && s@[i as int].0@ == key@,
{
    let wanted = chars_of(key);
    let mut i: usize = 0;
    while i < s.len()
        invariant
            i <= s@.len(),
            distinct_keys(s@),
            wanted@ == key@,
            forall|k: int| 0 <= k < i ==> s@[k].0@ != key@,
        decreases s.len() - i,
    {
        let name = chars_of(s[i].0.as_str());
        if chars_eq(&name, &wanted) {
            proof {
                lemma_keyed_index(s@, i as int);
            }
            return Some(i);
        }
        i += 1;
    }
    None
}

} // verus!
