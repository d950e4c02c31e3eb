//! Backup files: their names, and which of them are old enough to go.
use vstd::prelude::*;
use crate::text::{chars_of, decimal, ends_with, ends_with_chars, owned, push_decimal, starts_with, starts_with_chars, string_of};

verus! {

/// A file name whose extension is `bak`: something before the last `.`,
/// and `bak` after it.
pub open spec fn is_bak_name(name: Seq<char>) -> bool {
    name.len() > 4 && ends_with(name, ".bak"@)
}

/// Whether a file name has the extension `bak` (`Path::extension` of the
/// name is `bak`).
pub fn has_bak_extension(name: &str) -> (r: bool)
    ensures
        r == is_bak_name(name@),
{
    let n = chars_of(name);
    n.len() > 4 && ends_with_chars(&n, &chars_of(".bak"))
}

/// The name with each `.` written as `_`.
pub open spec fn dots_to_underscores(name: Seq<char>) -> Seq<char> {
    name.map_values(|c: char| if c == '.' { '_' } else { c })
}

/// The prefix of the backups of a file: its name with `.` written as `_`,
/// or `unknown` for a path without a name.
pub fn backup_prefix(file_name: Option<&str>) -> (r: String)
    ensures
        match file_name {
            Some(n) => r@ == dots_to_underscores(n@),
            None => r@ == "unknown"@,
        },
{
    match file_name {
        None => owned("unknown"),
        Some(n) => {
            let c = chars_of(n);
            let mut out: Vec<char> = Vec::new();
            let mut i: usize = 0;
            while i < c.len()
                invariant
                    i <= c@.len(),
                    out@ == dots_to_underscores(c@.take(i as int)),
                decreases c.len() - i,
            {
                out.push(if c[i] == '.' { '_' } else { c[i] });
                assert(dots_to_underscores(c@.take(i + 1)) =~= dots_to_underscores(c@.take(i as int)).push(
                    if c@[i as int] == '.' { '_' } else { c@[i as int] },
                ));
                i += 1;
            }
            assert(c@.take(c@.len() as int) =~= c@);
            string_of(&out)
        },
    }
}

/// The name of a backup made at `timestamp` (seconds since the epoch):
/// `{prefix}.{timestamp}.bak`.
pub fn backup_file_name(prefix: &str, timestamp: u64) -> (r: String)
    ensures
        r@ == prefix@ + "."@ + decimal(timestamp as nat) + ".bak"@,
{
    let mut out = chars_of(prefix);
    out.push('.');
    let ghost a = out@;
    push_decimal(&mut out, timestamp);
    let tail = chars_of(".bak");
    let mut i: usize = 0;
    let ghost b = out@;
    while i < tail.len()
        invariant
            i <= tail@.len(),
            tail@ == ".bak"@,
            out@ == b + tail@.take(i as int),
        decreases tail.len() - i,
    {
        out.push(tail[i]);
        assert(tail@.take(i + 1) =~= tail@.take(i as int).push(tail@[i as int]));
        i += 1;
    }
    assert(tail@.take(tail@.len() as int) =~= tail@);
    proof {
        reveal_strlit(".");
        assert(a =~= prefix@ + "."@);
    }
    string_of(&out)
}

/// `removed` names positions of `times` each once, as many as exceed
/// `keep`, and none of them is newer than a position it leaves.
pub open spec fn oldest_chosen(times: Seq<u64>, keep: nat, removed: Seq<usize>) -> bool {
    &&& removed.len() == (if times.len() > keep { times.len() - keep } else { 0 })
    &&& forall|i: int, j: int| 0 <= i < j < removed.len() ==> removed[i] != removed[j]
    &&& forall|i: int| 0 <= i < removed.len() ==> removed[i] < times.len()
    &&& forall|i: int, k: int|
        0 <= i < removed.len() && 0 <= k < times.len() && !removed.contains(k as usize)
            ==> times[#[trigger] removed[i] as int] <= #[trigger] times[k]
}

/// The positions of the backups to delete so that only `keep` remain: the
/// oldest ones (the first of equally old ones first).
pub fn oldest_backups(times: &Vec<u64>, keep: usize) -> (r: Vec<usize>)
    ensures
        oldest_chosen(times@, keep as nat, r@),
{
    let n = times.len();
    let excess: usize = if n > keep { n - keep } else { 0 };
    let mut taken: Vec<bool> = Vec::new();
    let mut t: usize = 0;
    while t < n
        invariant
            t <= n,
            n == times@.len(),
            taken@.len() == t,
            forall|k: int| 0 <= k < t ==> !taken@[k],
        decreases n - t,
    {
        taken.push(false);
        t += 1;
    }
    let mut removed: Vec<usize> = Vec::new();
    while removed.len() < excess
        invariant
            n == times@.len(),
            taken@.len() == n,
            excess <= n,
            removed@.len() <= excess,
            forall|k: int| 0 <= k < n ==> (taken@[k] <==> removed@.contains(k as usize)),
            forall|i: int, j: int| 0 <= i < j < removed@.len() ==> removed@[i] != removed@[j],
            forall|i: int| 0 <= i < removed@.len() ==> removed@[i] < n,
            forall|i: int, k: int|
                0 <= i < removed@.len() && 0 <= k < n && !taken@[k] ==> times@[#[trigger] removed@[i] as int]
                    <= #[trigger] times@[k],
        decreases excess - removed@.len(),
    {
        proof {
            // some position is still free: fewer are taken than there are
            if forall|k: int| 0 <= k < n ==> taken@[k] {
                assert forall|k: usize| (k as int) < n implies #[trigger] removed@.contains(k) by {
                    assert(taken@[k as int]);
                }
                lemma_distinct_covering(removed@, n as nat);
                assert(false);
            }
        }
        let mut best: usize = n;
        let mut k: usize = 0;
        while k < n
            invariant
                n == times@.len(),
                taken@.len() == n,
                k <= n,
                best == n || (best < k && !taken@[best as int]),
                best < n ==> forall|j: int| 0 <= j < k && !taken@[j] ==> times@[best as int] <= times@[j],
                best == n ==> forall|j: int| 0 <= j < k ==> taken@[j],
            decreases n - k,
        {
            if !taken[k] {
                if best == n || times[k] < times[best] {
                    best = k;
                }
            }
            k += 1;
        }
        proof {
            if best == n {
                let w = choose|k: int| 0 <= k < n && !taken@[k];
                assert(taken@[w]);
            }
        }
        let ghost old_removed = removed@;
        let ghost old_taken = taken@;
        removed.push(best);
        taken.set(best, true);
        proof {
            assert forall|k: int| 0 <= k < n implies (taken@[k] <==> removed@.contains(k as usize)) by {
                if k == best as int {
                    assert(removed@[removed@.len() - 1] == best);
                } else {
                    if removed@.contains(k as usize) {
                        let j = choose|j: int| 0 <= j < removed@.len() && removed@[j] == k as usize;
                        if j < old_removed.len() {
                            assert(old_removed[j] == k as usize);
                        }
                    }
                    if old_removed.contains(k as usize) {
                        let j = choose|j: int| 0 <= j < old_removed.len() && old_removed[j] == k as usize;
                        assert(removed@[j] == k as usize);
                    }
                }
            }
            assert forall|i: int, j: int| 0 <= i < j < removed@.len() implies removed@[i] != removed@[j] by {
                if j == removed@.len() - 1 {
                    assert(!old_taken[best as int]);
                    if old_removed[i] == best {
                        assert(old_removed.contains(best));
                    }
                }
            }
        }
    }
    proof {
        assert forall|k: int| 0 <= k < times@.len() && !removed@.contains(k as usize) implies !taken@[k] by {}
    }
    removed
}

/// Distinct positions below `n` that cover every position are `n` of them.
proof fn lemma_distinct_covering(s: Seq<usize>, n: nat)
    requires
        forall|i: int, j: int| 0 <= i < j < s.len() ==> s[i] != s[j],
        forall|k: usize| (k as int) < n ==> #[trigger] s.contains(k),
        n <= usize::MAX,
    ensures
        s.len() >= n,
{
    let covered = Set::new(|k: int| 0 <= k < n);
    let f = |i: int| s[i] as int;
    let dom = Set::new(|i: int| 0 <= i < s.len());
    assert(covered.finite()) by {
        vstd::set_lib::lemma_int_range(0, n as int);
        assert(covered =~= vstd::set_lib::set_int_range(0, n as int));
    }
    assert(dom.finite()) by {
        vstd::set_lib::lemma_int_range(0, s.len() as int);
        assert(dom =~= vstd::set_lib::set_int_range(0, s.len() as int));
    }
    assert(covered.subset_of(dom.map(f))) by {
        assert forall|k: int| covered.contains(k) implies dom.map(f).contains(k) by {
            assert(s.contains(k as usize));
            let i = choose|i: int| 0 <= i < s.len() && s[i] == k as usize;
            assert(dom.contains(i) && f(i) == k);
        }
    }
    vstd::set_lib::lemma_map_size_bound(dom, dom.map(f), f);
    vstd::set_lib::lemma_len_subset(covered, dom.map(f));
    vstd::set_lib::lemma_int_range(0, n as int);
    assert(covered =~= vstd::set_lib::set_int_range(0, n as int));
    vstd::set_lib::lemma_int_range(0, s.len() as int);
    assert(dom =~= vstd::set_lib::set_int_range(0, s.len() as int));
}

/// Whether a directory entry's name makes it a backup: a `bak` extension,
/// or, for a file's backups, the file's prefix at its start.
pub open spec fn qualifies(name: Seq<char>, prefix: Option<Seq<char>>) -> bool {
    match prefix {
        None => is_bak_name(name),
        Some(p) => starts_with(name, p),
    }
}

/// The backups among a directory's entries (name, time of last change if
/// known): those that qualify and whose time is known, in order.
pub open spec fn candidates(entries: Seq<(String, Option<u64>)>, prefix: Option<Seq<char>>) -> Seq<(Seq<char>, u64)>
    decreases entries.len(),
{
    if entries.len() == 0 {
        Seq::empty()
    } else {
        let c = candidates(entries.drop_last(), prefix);
        let (name, t) = entries.last();
        if qualifies(name@, prefix) && t is Some {
            c.push((name@, t->0))
        } else {
            c
        }
    }
}

/// The times of the backups, in order.
pub open spec fn times_of(c: Seq<(Seq<char>, u64)>) -> Seq<u64> {
    c.map_values(|p: (Seq<char>, u64)| p.1)
}

/// `names` are the backups at positions that `oldest_chosen` allows.
pub open spec fn oldest_names(names: Seq<String>, c: Seq<(Seq<char>, u64)>, keep: nat) -> bool {
    exists|removed: Seq<usize>|
        #[trigger] oldest_chosen(times_of(c), keep, removed) && names.len() == removed.len()
            && forall|i: int| 0 <= i < names.len() ==> (#[trigger] names[i])@ == c[removed[i] as int].0
}

/// The backups to delete so that `keep` remain: among the entries of the
/// backup directory (name, time of last change if it could be read), those
/// that are backups (without a `prefix`, those with a `bak` extension; with
/// one, those whose name starts with it) and whose time is known; the oldest
/// of them go.
pub fn backups_to_remove(entries: &Vec<(String, Option<u64>)>, prefix: Option<&str>, keep: usize) -> (r: Vec<String>)
    ensures
        oldest_names(
            r@,
            candidates(
                entries@,
                match prefix {
                    Some(p) => Some(p@),
                    None => None,
                },
            ),
            keep as nat,
        ),
{
    let ghost pre = match prefix {
        Some(p) => Some(p@),
        None => None,
    };
    let pc: Option<Vec<char>> = match prefix {
        Some(p) => Some(chars_of(p)),
        None => None,
    };
    let mut names: Vec<String> = Vec::new();
    let mut times: Vec<u64> = Vec::new();
    let mut i: usize = 0;
    while i < entries.len()
        invariant
            i <= entries@.len(),
            pre == (match prefix {
                Some(p) => Some(p@),
                None => None::<Seq<char>>,
            }),
            pc matches Some(v) ==> pre == Some(v@),
            pc is None ==> pre is None,
            ({
                let c = candidates(entries@.take(i as int), pre);
                &&& names@.len() == c.len()
                &&& times@ == times_of(c)
                &&& forall|k: int| 0 <= k < c.len() ==> (#[trigger] names@[k])@ == c[k].0
            }),
        decreases entries.len() - i,
    {
        proof {
            let t = entries@.take(i + 1);
            assert(t.drop_last() =~= entries@.take(i as int));
            assert(t.last() == entries@[i as int]);
        }
        let (name, time) = &entries[i];
        let ok = match &pc {
            None => has_bak_extension(name.as_str()),
            Some(p) => starts_with_chars(&chars_of(name.as_str()), p),
        };
        let ghost c0 = candidates(entries@.take(i as int), pre);
        if ok {
            if let Some(t) = time {
                names.push(name.clone());
                times.push(*t);
                assert(times@ =~= times_of(c0.push((name@, *t))));
            }
        }
        i += 1;
    }
    assert(entries@.take(entries@.len() as int) =~= entries@);
    let ghost c = candidates(entries@, pre);
    let removed = oldest_backups(&times, keep);
    let mut out: Vec<String> = Vec::new();
    let mut j: usize = 0;
    while j < removed.len()
        invariant
            j <= removed@.len(),
            oldest_chosen(times@, keep as nat, removed@),
            times@ == times_of(c),
            names@.len() == c.len(),
            forall|k: int| 0 <= k < c.len() ==> (#[trigger] names@[k])@ == c[k].0,
            out@.len() == j,
            forall|m: int| 0 <= m < j ==> (#[trigger] out@[m])@ == c[removed@[m] as int].0,
        decreases removed.len() - j,
    {
        let idx = removed[j];
        out.push(names[idx].clone());
        j += 1;
    }
    assert(oldest_chosen(times_of(c), keep as nat, removed@));
    out
}

} // verus!

verus! {

/// Whether backup `a` comes before backup `b` when the newest are tried
/// first: `a` is newer, or as new and listed earlier.
pub open spec fn tried_before(times: Seq<u64>, a: usize, b: usize) -> bool {
    times[a as int] > times[b as int] || (times[a as int] == times[b as int] && a < b)
}

/// `order` lists every position of `times` once, newest first, equally new
/// ones in the order they were listed.
pub open spec fn newest_first(times: Seq<u64>, order: Seq<usize>) -> bool {
    &&& order.len() == times.len()
    &&& forall|i: int, j: int| 0 <= i < j < order.len() ==> order[i] != order[j]
    &&& forall|i: int| 0 <= i < order.len() ==> order[i] < times.len()
    &&& forall|i: int, j: int|
        0 <= i < j < order.len() ==> tried_before(times, #[trigger] order[i], #[trigger] order[j])
}

/// The positions of `times`, newest first; equally new ones keep their order.
pub fn newest_first_order(times: &Vec<u64>) -> (r: Vec<usize>)
    ensures
        newest_first(times@, r@),
{
    let n = times.len();
    let mut taken: Vec<bool> = Vec::new();
    let mut t: usize = 0;
    while t < n
        invariant
            t <= n,
            n == times@.len(),
            taken@.len() == t,
            forall|k: int| 0 <= k < t ==> !taken@[k],
        decreases n - t,
    {
        taken.push(false);
        t += 1;
    }
    let mut order: Vec<usize> = Vec::new();
    while order.len() < n
        invariant
            n == times@.len(),
            taken@.len() == n,
            order@.len() <= n,
            forall|k: int| 0 <= k < n ==> (taken@[k] <==> order@.contains(k as usize)),
            forall|i: int, j: int| 0 <= i < j < order@.len() ==> order@[i] != order@[j],
            forall|i: int| 0 <= i < order@.len() ==> order@[i] < n,
            forall|i: int, j: int|
                0 <= i < j < order@.len() ==> tried_before(times@, #[trigger] order@[i], #[trigger] order@[j]),
            forall|i: int, k: int|
                0 <= i < order@.len() && 0 <= k < n && !#[trigger] taken@[k] ==> tried_before(
                    times@,
                    #[trigger] order@[i],
                    k as usize,
                ),
        decreases n - order@.len(),
    {
        proof {
            if forall|k: int| 0 <= k < n ==> taken@[k] {
                assert forall|k: usize| (k as int) < n implies #[trigger] order@.contains(k) by {
                    assert(taken@[k as int]);
                }
                lemma_distinct_covering(order@, n as nat);
                assert(false);
            }
        }
        let mut best: usize = n;
        let mut k: usize = 0;
        while k < n
            invariant
                n == times@.len(),
                taken@.len() == n,
                k <= n,
                best == n || (best < k && !taken@[best as int]),
                best < n ==> forall|j: int| 0 <= j < k && !taken@[j] ==> tried_before(times@, best, j as usize) || j == best,
                best == n ==> forall|j: int| 0 <= j < k ==> taken@[j],
            decreases n - k,
        {
            if !taken[k] {
                if best == n || times[k] > times[best] {
                    best = k;
                }
            }
            k += 1;
        }
        proof {
            if best == n {
                let w = choose|k: int| 0 <= k < n && !taken@[k];
                assert(taken@[w]);
            }
        }
        let ghost old_order = order@;
        let ghost old_taken = taken@;
        order.push(best);
        taken.set(best, true);
        proof {
            assert forall|k: int| 0 <= k < n implies (taken@[k] <==> order@.contains(k as usize)) by {
                if k == best as int {
                    assert(order@[order@.len() - 1] == best);
                } else {
                    if order@.contains(k as usize) {
                        let j = choose|j: int| 0 <= j < order@.len() && order@[j] == k as usize;
                        if j < old_order.len() {
                            assert(old_order[j] == k as usize);
                        }
                    }
                    if old_order.contains(k as usize) {
                        let j = choose|j: int| 0 <= j < old_order.len() && old_order[j] == k as usize;
                        assert(order@[j] == k as usize);
                    }
                }
            }
            assert forall|i: int, j: int| 0 <= i < j < order@.len() implies order@[i] != order@[j] by {
                if j == order@.len() - 1 {
                    assert(!old_taken[best as int]);
                    if old_order[i] == best {
                        assert(old_order.contains(best));
                    }
                }
            }
            assert forall|i: int, j: int| 0 <= i < j < order@.len() implies tried_before(
                times@,
                #[trigger] order@[i],
                #[trigger] order@[j],
            ) by {
                if j == order@.len() - 1 {
                    assert(old_order[i] == order@[i]);
                    assert(!old_taken[best as int]);
                }
            }
        }
    }
    order
}

/// The names of the backups in `c` at the positions `order` gives.
pub open spec fn names_in_order(names: Seq<String>, c: Seq<(Seq<char>, u64)>, order: Seq<usize>) -> bool {
    &&& names.len() == order.len()
    &&& forall|i: int| 0 <= i < names.len() ==> (#[trigger] names[i])@ == c[order[i] as int].0
}

/// The order in which a damaged state file is restored from its backups:
/// among the entries of the backup directory (name, time of last change if
/// it could be read), those with a `bak` extension and a known time, newest
/// first, equally new ones in the order they were listed.
pub fn backups_newest_first(entries: &Vec<(String, Option<u64>)>) -> (r: Vec<String>)
    ensures
        exists|order: Seq<usize>|
            #[trigger] newest_first(times_of(candidates(entries@, None)), order) && names_in_order(
                r@,
                candidates(entries@, None),
                order,
            ),
{
    let mut names: Vec<String> = Vec::new();
    let mut times: Vec<u64> = Vec::new();
    let mut i: usize = 0;
    while i < entries.len()
        invariant
            i <= entries@.len(),
            ({
                let c = candidates(entries@.take(i as int), None);
                &&& names@.len() == c.len()
                &&& times@ == times_of(c)
                &&& forall|k: int| 0 <= k < c.len() ==> (#[trigger] names@[k])@ == c[k].0
            }),
        decreases entries.len() - i,
    {
        proof {
            let t = entries@.take(i + 1);
            assert(t.drop_last() =~= entries@.take(i as int));
            assert(t.last() == entries@[i as int]);
        }
        let (name, time) = &entries[i];
        let ghost c0 = candidates(entries@.take(i as int), None);
        if has_bak_extension(name.as_str()) {
            if let Some(t) = time {
                names.push(name.clone());
                times.push(*t);
                assert(times@ =~= times_of(c0.push((name@, *t))));
            }
        }
        i += 1;
    }
    assert(entries@.take(entries@.len() as int) =~= entries@);
    let ghost c = candidates(entries@, None);
    let order = newest_first_order(&times);
    let mut out: Vec<String> = Vec::new();
    let mut j: usize = 0;
    while j < order.len()
        invariant
            j <= order@.len(),
            newest_first(times@, order@),
            times@ == times_of(c),
            names@.len() == c.len(),
            forall|k: int| 0 <= k < c.len() ==> (#[trigger] names@[k])@ == c[k].0,
            out@.len() == j,
            forall|m: int| 0 <= m < j ==> (#[trigger] out@[m])@ == c[order@[m] as int].0,
        decreases order.len() - j,
    {
        let idx = order[j];
        out.push(names[idx].clone());
        j += 1;
    }
    assert(newest_first(times_of(c), order@));
    assert(names_in_order(out@, c, order@));
    out
}

} // verus!
