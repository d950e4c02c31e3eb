//! The registry of active terminal panes: one pane active overall, and one
//! per window.
//!
//! Each change returns the event that announces it, if any; whoever holds
//! the registry hands the event to the subscribers.
use vstd::prelude::*;
use crate::terminal::types::{PaneId, TerminalContextEvent};

verus! {

/// Identifier of an application window.
#[derive(Debug, Clone, Copy, PartialEq, Eq, Structural, Hash)]
pub struct WindowId(pub u32);

impl WindowId {
    pub fn new(id: u32) -> (r: Self)
        ensures
            r.0 == id,
    {
        WindowId(id)
    }

    pub fn as_u32(&self) -> (r: u32)
        ensures
            r == self.0,
    {
        self.0
    }
}

impl From<u32> for WindowId {
    fn from(id: u32) -> (r: Self) {
        WindowId(id)
    }
}

impl vstd::std_specs::convert::FromSpecImpl<u32> for WindowId {
    open spec fn obeys_from_spec() -> bool {
        true
    }

    open spec fn from_spec(v: u32) -> WindowId {
        WindowId(v)
    }
}

/// Counts reported by the registry.
#[derive(Debug, Clone, Copy)]
pub struct RegistryStats {
    pub global_active_pane: Option<PaneId>,
    pub window_active_pane_count: usize,
    pub event_subscriber_count: usize,
}

/// What the registry holds: the active pane, and each window's active pane
/// by window number.
pub struct RegistryView {
    pub active: Option<PaneId>,
    pub windows: Map<u32, PaneId>,
}

/// The registry of active panes.
#[derive(Debug, Clone)]
pub struct ActiveTerminalContextRegistry {
    global_active_pane: Option<PaneId>,
    /// each window once
    window_active_panes: Vec<(WindowId, PaneId)>,
}

/// No window is listed twice.
pub open spec fn distinct_windows(s: Seq<(WindowId, PaneId)>) -> bool {
    forall|i: int, j: int| 0 <= i < j < s.len() ==> s[i].0 != s[j].0
}

/// The pane of each listed window, by window number.
pub open spec fn window_map(s: Seq<(WindowId, PaneId)>) -> Map<u32, PaneId> {
    Map::new(
        |w: u32| exists|i: int| 0 <= i < s.len() && s[i].0.0 == w,
        |w: u32| s[choose|i: int| 0 <= i < s.len() && s[i].0.0 == w].1,
    )
}

proof fn lemma_window_map_index(s: Seq<(WindowId, PaneId)>, j: int)
    requires
        distinct_windows(s),
        0 <= j < s.len(),
    ensures
        window_map(s).contains_key(s[j].0.0),
        window_map(s)[s[j].0.0] == s[j].1,
{
    let w = s[j].0.0;
    assert(exists|i: int| 0 <= i < s.len() && s[i].0.0 == w);
    let c = choose|i: int| 0 <= i < s.len() && s[i].0.0 == w;
    if c != j {
        if c < j {
            assert(s[c].0 != s[j].0);
        } else {
            assert(s[j].0 != s[c].0);
        }
    }
}

proof fn lemma_window_map_update(s: Seq<(WindowId, PaneId)>, i: int, p: (WindowId, PaneId))
    requires
        distinct_windows(s),
        0 <= i < s.len(),
        s[i].0 == p.0,
    ensures
        distinct_windows(s.update(i, p)),
        window_map(s.update(i, p)) == window_map(s).insert(p.0.0, p.1),
{
    let t = s.update(i, p);
    assert forall|a: int, b: int| 0 <= a < b < t.len() implies t[a].0 != t[b].0 by {
        assert(s[a].0 != s[b].0);
    }
    let m = window_map(s).insert(p.0.0, p.1);
    assert forall|w: u32| #[trigger] window_map(t).contains_key(w) <==> m.contains_key(w) by {
        if window_map(t).contains_key(w) {
            let j = choose|j: int| 0 <= j < t.len() && t[j].0.0 == w;
            lemma_window_map_index(s, j);
        }
        if m.contains_key(w) {
            if w == p.0.0 {
                lemma_window_map_index(t, i);
            } else {
                let j = choose|j: int| 0 <= j < s.len() && s[j].0.0 == w;
                lemma_window_map_index(t, j);
            }
        }
    }
    assert forall|w: u32| #[trigger] window_map(t).contains_key(w) implies window_map(t)[w]
        == m[w] by {
        let j = choose|j: int| 0 <= j < t.len() && t[j].0.0 == w;
        lemma_window_map_index(t, j);
        lemma_window_map_index(s, j);
    }
    assert(window_map(t) =~= m);
}

proof fn lemma_window_map_push(s: Seq<(WindowId, PaneId)>, p: (WindowId, PaneId))
    requires
        distinct_windows(s),
        !window_map(s).contains_key(p.0.0),
    ensures
        distinct_windows(s.push(p)),
        window_map(s.push(p)) == window_map(s).insert(p.0.0, p.1),
{
    let t = s.push(p);
    let n = s.len() as int;
    assert forall|a: int, b: int| 0 <= a < b < t.len() implies t[a].0 != t[b].0 by {
        if b == n {
            lemma_window_map_index(s, a);
        } else {
            assert(s[a].0 != s[b].0);
        }
    }
    let m = window_map(s).insert(p.0.0, p.1);
    assert forall|w: u32| #[trigger] window_map(t).contains_key(w) <==> m.contains_key(w) by {
        if window_map(t).contains_key(w) {
            let j = choose|j: int| 0 <= j < t.len() && t[j].0.0 == w;
            if j < n {
                lemma_window_map_index(s, j);
            }
        }
        if m.contains_key(w) {
            if w == p.0.0 {
                lemma_window_map_index(t, n);
            } else {
                let j = choose|j: int| 0 <= j < s.len() && s[j].0.0 == w;
                lemma_window_map_index(t, j);
            }
        }
    }
    assert forall|w: u32| #[trigger] window_map(t).contains_key(w) implies window_map(t)[w]
        == m[w] by {
        let j = choose|j: int| 0 <= j < t.len() && t[j].0.0 == w;
        lemma_window_map_index(t, j);
        if j < n {
            lemma_window_map_index(s, j);
        }
    }
    assert(window_map(t) =~= m);
}

proof fn lemma_window_map_remove(s: Seq<(WindowId, PaneId)>, i: int)
    requires
        distinct_windows(s),
        0 <= i < s.len(),
    ensures
        distinct_windows(s.remove(i)),
        window_map(s.remove(i)) == window_map(s).remove(s[i].0.0),
{
    let t = s.remove(i);
    let key = s[i].0.0;
    assert forall|a: int, b: int| 0 <= a < b < t.len() implies t[a].0 != t[b].0 by {
        let a0 = if a < i { a } else { a + 1 };
        let b0 = if b < i { b } else { b + 1 };
        assert(t[a] == s[a0] && t[b] == s[b0]);
        assert(s[a0].0 != s[b0].0);
    }
    let m = window_map(s).remove(key);
    assert forall|w: u32| #[trigger] window_map(t).contains_key(w) <==> m.contains_key(w) by {
        if window_map(t).contains_key(w) {
            let j = choose|j: int| 0 <= j < t.len() && t[j].0.0 == w;
            let j0 = if j < i { j } else { j + 1 };
            assert(t[j] == s[j0]);
            lemma_window_map_index(s, j0);
            assert(s[j0].0 != s[i].0);
        }
        if m.contains_key(w) {
            let j = choose|j: int| 0 <= j < s.len() && s[j].0.0 == w;
            assert(j != i);
            let j1 = if j < i { j } else { j - 1 };
            assert(t[j1] == s[j]);
            lemma_window_map_index(t, j1);
        }
    }
    assert forall|w: u32| #[trigger] window_map(t).contains_key(w) implies window_map(t)[w]
        == m[w] by {
        let j = choose|j: int| 0 <= j < t.len() && t[j].0.0 == w;
        let j0 = if j < i { j } else { j + 1 };
        assert(t[j] == s[j0]);
        lemma_window_map_index(t, j);
        lemma_window_map_index(s, j0);
    }
    assert(window_map(t) =~= m);
}

/// The index of window `w` in the list, if it is there.
fn find_window(s: &Vec<(WindowId, PaneId)>, w: u32) -> (r: Option<usize>)
    requires
        distinct_windows(s@),
    ensures
        r is None <==> !window_map(s@).contains_key(w),
        r matches Some(i) ==> i < s@.len() && s@[i as int].0.0 == w,
{
    let mut i: usize = 0;
    while i < s.len()
        invariant
            i <= s@.len(),
            distinct_windows(s@),
            forall|k: int| 0 <= k < i ==> s@[k].0.0 != w,
        decreases s.len() - i,
    {
        if s[i].0.0 == w {
            proof {
                lemma_window_map_index(s@, i as int);
            }
            return Some(i);
        }
        i += 1;
    }
    None
}

/// Changing the active pane: no event when it is already active.
pub open spec fn set_active_step(v: RegistryView, p: PaneId) -> (RegistryView, Option<
    TerminalContextEvent,
>) {
    if v.active == Some(p) {
        (v, None)
    } else {
        (
            RegistryView { active: Some(p), windows: v.windows },
            Some(TerminalContextEvent::ActivePaneChanged { old_pane_id: v.active, new_pane_id: Some(p) }),
        )
    }
}

/// Clearing the active pane: an event only when one was active.
pub open spec fn clear_active_step(v: RegistryView) -> (RegistryView, Option<TerminalContextEvent>) {
    let next = RegistryView { active: None, windows: v.windows };
    if v.active is Some {
        (next, Some(TerminalContextEvent::ActivePaneChanged { old_pane_id: v.active, new_pane_id: None }))
    } else {
        (next, None)
    }
}

/// Setting a window's active pane; the main window (0), or any window while
/// no pane is active, also sets the active pane.
pub open spec fn set_window_step(v: RegistryView, w: u32, p: PaneId) -> (RegistryView, Option<
    TerminalContextEvent,
>) {
    let next = RegistryView { active: v.active, windows: v.windows.insert(w, p) };
    if w == 0 || v.active is None {
        set_active_step(next, p)
    } else {
        (next, None)
    }
}

/// Forgetting a window's active pane; when that pane is the active one, the
/// active pane is cleared too.
pub open spec fn remove_window_step(v: RegistryView, w: u32) -> (RegistryView, Option<PaneId>, Option<
    TerminalContextEvent,
>) {
    if v.windows.contains_key(w) {
        let p = v.windows[w];
        let next = RegistryView { active: v.active, windows: v.windows.remove(w) };
        if v.active == Some(p) {
            let (after, e) = clear_active_step(next);
            (after, Some(p), e)
        } else {
            (next, Some(p), None)
        }
    } else {
        (v, None, None)
    }
}

impl View for ActiveTerminalContextRegistry {
    type V = RegistryView;

    closed spec fn view(&self) -> RegistryView {
        RegistryView {
            active: self.global_active_pane,
            windows: window_map(self.window_active_panes@),
        }
    }
}

impl ActiveTerminalContextRegistry {
    /// Each window is listed once.
    pub closed spec fn wf(&self) -> bool {
        distinct_windows(self.window_active_panes@)
    }

    /// An empty registry: no pane active anywhere.
    pub fn new() -> (r: Self)
        ensures
            r.wf(),
            r@.active is None,
            r@.windows == Map::<u32, PaneId>::empty(),
    {
        let r = ActiveTerminalContextRegistry { global_active_pane: None, window_active_panes: Vec::new() };
        assert(window_map(r.window_active_panes@) =~= Map::<u32, PaneId>::empty());
        r
    }

    /// Makes `pane_id` the active pane, and returns the event announcing
    /// the change (none when the pane was active already).
    pub fn set_active_pane(&mut self, pane_id: PaneId) -> (e: Option<TerminalContextEvent>)
        requires
            old(self).wf(),
        ensures
            final(self).wf(),
            (final(self)@, e) == set_active_step(old(self)@, pane_id),
    {
        let unchanged = match self.global_active_pane {
            Some(old_id) => old_id.0 == pane_id.0,
            None => false,
        };
        if unchanged {
            return None;
        }
        let old_pane_id = self.global_active_pane;
        self.global_active_pane = Some(pane_id);
        Some(TerminalContextEvent::ActivePaneChanged { old_pane_id, new_pane_id: Some(pane_id) })
    }

    /// The active pane, if any.
    pub fn get_active_pane(&self) -> (r: Option<PaneId>)
        ensures
            r == self@.active,
    {
        self.global_active_pane
    }

    /// Clears the active pane, and returns the event announcing it (none
    /// when no pane was active).
    pub fn clear_active_pane(&mut self) -> (e: Option<TerminalContextEvent>)
        requires
            old(self).wf(),
        ensures
            final(self).wf(),
            (final(self)@, e) == clear_active_step(old(self)@),
    {
        let old_pane_id = self.global_active_pane;
        self.global_active_pane = None;
        match old_pane_id {
            Some(_) => Some(TerminalContextEvent::ActivePaneChanged { old_pane_id, new_pane_id: None }),
            None => None,
        }
    }

    /// Whether `pane_id` is the active pane.
    pub fn is_pane_active(&self, pane_id: PaneId) -> (r: bool)
        ensures
            r == (self@.active == Some(pane_id)),
    {
        match self.global_active_pane {
            Some(id) => id.0 == pane_id.0,
            None => false,
        }
    }

    /// Sets the active pane of a window; see `set_window_step` for when the
    /// overall active pane follows.
    pub fn set_window_active_pane(&mut self, window_id: WindowId, pane_id: PaneId) -> (e: Option<
        TerminalContextEvent,
    >)
        requires
            old(self).wf(),
        ensures
            final(self).wf(),
            (final(self)@, e) == set_window_step(old(self)@, window_id.0, pane_id),
    {
        let ghost s0 = self.window_active_panes@;
        let p = (window_id, pane_id);
        match find_window(&self.window_active_panes, window_id.0) {
            Some(i) => {
                self.window_active_panes.set(i, p);
                proof {
                    assert(self.window_active_panes@ == s0.update(i as int, p));
                    lemma_window_map_update(s0, i as int, p);
                }
            },
            None => {
                self.window_active_panes.push(p);
                proof {
                    lemma_window_map_push(s0, p);
                }
            },
        }
        if window_id.as_u32() == 0 || self.global_active_pane.is_none() {
            self.set_active_pane(pane_id)
        } else {
            None
        }
    }

    /// The active pane of a window, if it has one.
    pub fn get_window_active_pane(&self, window_id: WindowId) -> (r: Option<PaneId>)
        requires
            self.wf(),
        ensures
            r == (if self@.windows.contains_key(window_id.0) {
                Some(self@.windows[window_id.0])
            } else {
                None
            }),
    {
        match find_window(&self.window_active_panes, window_id.0) {
            Some(i) => {
                proof {
                    lemma_window_map_index(self.window_active_panes@, i as int);
                }
                Some(self.window_active_panes[i].1)
            },
            None => None,
        }
    }

    /// Forgets a window's active pane, and returns it together with the
    /// event that clearing the overall active pane sends, if it was that
    /// pane.
    pub fn remove_window_active_pane(&mut self, window_id: WindowId) -> (r: (
        Option<PaneId>,
        Option<TerminalContextEvent>,
    ))
        requires
            old(self).wf(),
        ensures
            final(self).wf(),
            (final(self)@, r.0, r.1) == remove_window_step(old(self)@, window_id.0),
    {
        let ghost s0 = self.window_active_panes@;
        match find_window(&self.window_active_panes, window_id.0) {
            Some(i) => {
                proof {
                    lemma_window_map_index(s0, i as int);
                    lemma_window_map_remove(s0, i as int);
                }
                let (_, pane_id) = self.window_active_panes.remove(i);
                if self.is_pane_active(pane_id) {
                    let e = self.clear_active_pane();
                    (Some(pane_id), e)
                } else {
                    (Some(pane_id), None)
                }
            },
            None => (None, None),
        }
    }

    /// The registry's counts; the number of event subscribers is that of
    /// the channel the events go out on.
    pub fn get_stats(&self, event_subscriber_count: usize) -> (r: RegistryStats)
        requires
            self.wf(),
        ensures
            r.global_active_pane == self@.active,
            r.window_active_pane_count == self@.windows.len(),
            r.event_subscriber_count == event_subscriber_count,
    {
        proof {
            lemma_window_count(self.window_active_panes@);
        }
        RegistryStats {
            global_active_pane: self.global_active_pane,
            window_active_pane_count: self.window_active_panes.len(),
            event_subscriber_count,
        }
    }
}

/// A list of distinct windows has as many entries as its map has keys.
proof fn lemma_window_count(s: Seq<(WindowId, PaneId)>)
    requires
        distinct_windows(s),
    ensures
        window_map(s).dom().finite(),
        window_map(s).len() == s.len(),
    decreases s.len(),
{
    if s.len() == 0 {
        assert(window_map(s).dom() =~= Set::<u32>::empty());
    } else {
        let t = s.drop_last();
        let last = s.last();
        assert(distinct_windows(t));
        lemma_window_count(t);
        assert(!window_map(t).contains_key(last.0.0)) by {
            if window_map(t).contains_key(last.0.0) {
                let j = choose|j: int| 0 <= j < t.len() && t[j].0.0 == last.0.0;
                assert(s[j].0 != s[s.len() - 1].0);
            }
        }
        lemma_window_map_push(t, last);
        assert(t.push(last) =~= s);
    }
}

impl Default for ActiveTerminalContextRegistry {
    fn default() -> (r: Self)
        ensures
            r.wf(),
            r@.active is None,
            r@.windows == Map::<u32, PaneId>::empty(),
    {
        Self::new()
    }
}

/// After a pane is made active it is the active pane, and making it active
/// again changes nothing and sends no event.
pub proof fn law_set_active_idempotent(v: RegistryView, p: PaneId)
    ensures
        set_active_step(v, p).0.active == Some(p),
        set_active_step(set_active_step(v, p).0, p) == (set_active_step(v, p).0, None::<
            TerminalContextEvent,
        >),
{
}

/// Setting or clearing the active pane sends an event exactly when the
/// active pane changes, and the event names the old and the new pane.
pub proof fn law_event_iff_change(v: RegistryView, p: PaneId)
    ensures
        set_active_step(v, p).1 is Some <==> set_active_step(v, p).0.active != v.active,
        clear_active_step(v).1 is Some <==> clear_active_step(v).0.active != v.active,
        set_active_step(v, p).1 matches Some(TerminalContextEvent::ActivePaneChanged {
            old_pane_id,
            new_pane_id,
        }) ==> old_pane_id == v.active && new_pane_id == set_active_step(v, p).0.active,
        clear_active_step(v).1 matches Some(TerminalContextEvent::ActivePaneChanged {
            old_pane_id,
            new_pane_id,
        }) ==> old_pane_id == v.active && new_pane_id == clear_active_step(v).0.active,
{
}

/// Clearing after setting leaves no active pane, and announces the pane
/// that was set.
pub proof fn law_clear_after_set(v: RegistryView, p: PaneId)
    ensures
        clear_active_step(set_active_step(v, p).0).0.active is None,
        clear_active_step(set_active_step(v, p).0).1 == Some(
            TerminalContextEvent::ActivePaneChanged { old_pane_id: Some(p), new_pane_id: None },
        ),
{
}

/// A window's pane is read back after it is set, and removing the window
/// gives that pane back and forgets the window; other windows keep theirs.
pub proof fn law_window_roundtrip(v: RegistryView, w: u32, p: PaneId, other: u32)
    requires
        other != w,
    ensures
        set_window_step(v, w, p).0.windows.contains_key(w),
        set_window_step(v, w, p).0.windows[w] == p,
        remove_window_step(set_window_step(v, w, p).0, w).1 == Some(p),
        !remove_window_step(set_window_step(v, w, p).0, w).0.windows.contains_key(w),
        set_window_step(v, w, p).0.windows.contains_key(other) == v.windows.contains_key(other),
        v.windows.contains_key(other) ==> set_window_step(v, w, p).0.windows[other]
            == v.windows[other],
{
}

/// Setting a window's active pane makes that pane the active one, with the
/// event that announces the change, whenever no pane was active or the
/// window is the main window (0); for any other window, while a pane is
/// active, the active pane stays as it was and nothing is announced.
pub proof fn law_window_pane_becomes_active(v: RegistryView, w: u32, p: PaneId)
    ensures
        v.active is None ==> set_window_step(v, w, p).0.active == Some(p)
            && set_window_step(v, w, p).1 == Some(
            TerminalContextEvent::ActivePaneChanged { old_pane_id: None, new_pane_id: Some(p) },
        ),
        w == 0 ==> set_window_step(v, w, p).0.active == Some(p),
        w == 0 && v.active != Some(p) ==> set_window_step(v, w, p).1 == Some(
            TerminalContextEvent::ActivePaneChanged { old_pane_id: v.active, new_pane_id: Some(p) },
        ),
        w != 0 && v.active is Some ==> set_window_step(v, w, p).0.active == v.active
            && set_window_step(v, w, p).1 is None,
{
}

} // verus!
