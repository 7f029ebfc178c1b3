//! In-memory context cache: the current snapshot and a capacity-bounded
//! history of recent ones.

use vstd::prelude::*;
use std::collections::VecDeque;
use crate::runtime::now_millis;
use crate::types::{ContextSnapshot, SnapshotView};

verus! {

/// How many recent snapshots the cache keeps.
pub const RECENT_CAPACITY: usize = 100;

/// The snapshots among `s` taken strictly after `cutoff`, in order.
pub open spec fn taken_after(s: Seq<SnapshotView>, cutoff: i64) -> Seq<SnapshotView>
    decreases s.len(),
{
    if s.len() == 0 {
        Seq::empty()
    } else if s.last().timestamp > cutoff {
        taken_after(s.drop_last(), cutoff).push(s.last())
    } else {
        taken_after(s.drop_last(), cutoff)
    }
}

/// The history after recording `new` into a history bounded by `cap`: the
/// oldest entry makes room when the history is full.
pub open spec fn bounded_push(s: Seq<SnapshotView>, new: SnapshotView, cap: nat) -> Seq<SnapshotView> {
    if s.len() >= cap {
        s.drop_first().push(new)
    } else {
        s.push(new)
    }
}

/// The last `cap` entries of `s` (all of `s` when it has no more).
pub open spec fn latest(s: Seq<SnapshotView>, cap: nat) -> Seq<SnapshotView> {
    if s.len() <= cap {
        s
    } else {
        s.subrange(s.len() - cap, s.len() as int)
    }
}

/// The history of a cache that was created empty and then given each of
/// `s` in order (each step is what [`ContextCache::update`] does).
pub open spec fn history_after(s: Seq<SnapshotView>) -> Seq<SnapshotView>
    decreases s.len(),
{
    if s.len() == 0 {
        Seq::empty()
    } else {
        bounded_push(history_after(s.drop_last()), s.last(), RECENT_CAPACITY as nat)
    }
}

/// `now - window`: a window longer than `i64::MAX` milliseconds (beyond any
/// time delta) counts as no window at all, and the difference saturates at
/// the smallest timestamp.
pub open spec fn cutoff_before(now: i64, window_ms: u64) -> i64 {
    if window_ms > i64::MAX {
        now
    } else if now - window_ms < i64::MIN {
        i64::MIN
    } else {
        (now - window_ms) as i64
    }
}

/// Computes [`cutoff_before`].
pub fn window_cutoff(now: i64, window_ms: u64) -> (c: i64)
    ensures
        c == cutoff_before(now, window_ms),
{
    if window_ms > i64::MAX as u64 {
        return now;
    }
    let wide: i128 = (now as i128) - (window_ms as i128);
    if wide < (i64::MIN as i128) {
        i64::MIN
    } else {
        wide as i64
    }
}

/// The current snapshot and the last `RECENT_CAPACITY` snapshots recorded.
pub struct ContextCache {
    current: Option<ContextSnapshot>,
    recent: VecDeque<ContextSnapshot>,
}

impl ContextCache {
    #[verifier::type_invariant]
    spec fn bounded(&self) -> bool {
        self.recent@.len() <= RECENT_CAPACITY
    }

    /// The current snapshot, if one was recorded.
    pub closed spec fn current_view(&self) -> Option<SnapshotView> {
        match self.current {
            Some(s) => Some(s@),
            None => None,
        }
    }

    /// The recorded history, oldest first.
    pub closed spec fn recent_view(&self) -> Seq<SnapshotView> {
        self.recent@.map_values(|s: ContextSnapshot| s@)
    }

    /// An empty cache.
    pub fn new() -> (c: ContextCache)
        ensures
            c.current_view().is_none(),
            c.recent_view().len() == 0,
    {
        let c = ContextCache { current: None, recent: VecDeque::new() };
        assert(c.recent_view() =~= Seq::empty());
        c
    }

    /// The current snapshot; `None` until the first one is recorded.
    pub fn get_current(&self) -> (r: Option<ContextSnapshot>)
        ensures
            match r {
                Some(s) => self.current_view() == Some(s@),
                None => self.current_view().is_none(),
            },
    {
        match &self.current {
            Some(s) => Some(s.copy()),
            None => None,
        }
    }

    /// Records `snapshot` as the current one and appends it to the history,
    /// dropping the oldest entry when the history is full.
    pub fn update(&mut self, snapshot: ContextSnapshot)
        ensures
            final(self).current_view() == Some(snapshot@),
            final(self).recent_view() == bounded_push(old(self).recent_view(), snapshot@, RECENT_CAPACITY as nat),
            old(self).recent_view().len() <= RECENT_CAPACITY,
            final(self).recent_view().len() <= RECENT_CAPACITY,
    {
        proof {
            use_type_invariant(&*self);
        }
        let ghost before = self.recent_view();
        let mut recent: VecDeque<ContextSnapshot> = VecDeque::new();
        std::mem::swap(&mut recent, &mut self.recent);
        if recent.len() >= RECENT_CAPACITY {
            recent.pop_front();
        }
        recent.push_back(snapshot.copy());
        self.recent = recent;
        self.current = Some(snapshot);
        proof {
            assert(self.recent_view() =~= bounded_push(before, snapshot@, RECENT_CAPACITY as nat));
        }
    }

    /// The recorded snapshots taken strictly after `cutoff`, oldest first.
    pub fn recent_since(&self, cutoff: i64) -> (r: Vec<ContextSnapshot>)
        ensures
            r@.map_values(|s: ContextSnapshot| s@) == taken_after(self.recent_view(), cutoff),
    {
        let mut out: Vec<ContextSnapshot> = Vec::new();
        let mut i: usize = 0;
        let n = self.recent.len();
        while i < n
            invariant
                n == self.recent@.len(),
                i <= n,
                out@.map_values(|s: ContextSnapshot| s@) == taken_after(self.recent_view().take(i as int), cutoff),
            decreases n - i,
        {
            let s = &self.recent[i];
            let ghost before = out@;
            proof {
                assert(self.recent_view().take(i + 1).drop_last() =~= self.recent_view().take(i as int));
                assert(self.recent_view().take(i + 1).last() == s@);
            }
            if s.timestamp > cutoff {
                out.push(s.copy());
                assert(out@.map_values(|s: ContextSnapshot| s@) =~= before.map_values(|s: ContextSnapshot| s@).push(s@));
            }
            i += 1;
        }
        assert(self.recent_view().take(n as int) =~= self.recent_view());
        out
    }

    /// The recorded snapshots taken within the last `window_ms` milliseconds
    /// (strictly after `now - window_ms`), oldest first.
    pub fn get_recent(&self, window_ms: u64) -> (r: Vec<ContextSnapshot>)
        ensures
            exists|now: i64| r@.map_values(|s: ContextSnapshot| s@) == taken_after(
                self.recent_view(),
                cutoff_before(now, window_ms),
            ),
    {
        let now = now_millis();
        self.recent_since(window_cutoff(now, window_ms))
    }
}

impl Default for ContextCache {
    /// Same as `new`.
    fn default() -> (c: Self)
        ensures
            c.current_view().is_none(),
            c.recent_view().len() == 0,
    {
        Self::new()
    }
}

/// Reading the cache right after recording a snapshot gives that snapshot
/// back, and the history ends with it.
pub proof fn law_update_then_read(before: Seq<SnapshotView>, s: SnapshotView)
    ensures
        bounded_push(before, s, RECENT_CAPACITY as nat).last() == s,
        before.len() <= RECENT_CAPACITY ==> bounded_push(before, s, RECENT_CAPACITY as nat).len()
            <= RECENT_CAPACITY,
        before.len() < RECENT_CAPACITY ==> bounded_push(before, s, RECENT_CAPACITY as nat).len()
            == before.len() + 1,
{
}

/// The history never holds more than `RECENT_CAPACITY` snapshots: after any
/// sequence of updates it is exactly the last `RECENT_CAPACITY` snapshots
/// recorded, in the order they were recorded (the oldest are dropped first).
pub proof fn law_history_keeps_latest(s: Seq<SnapshotView>)
    ensures
        history_after(s) == latest(s, RECENT_CAPACITY as nat),
        history_after(s).len() <= RECENT_CAPACITY,
    decreases s.len(),
{
    if s.len() > 0 {
        let init = s.drop_last();
        law_history_keeps_latest(init);
        let n = s.len() as int;
        if init.len() < RECENT_CAPACITY {
            assert(init.push(s.last()) =~= s);
        } else {
            let h = init.subrange(n - 1 - RECENT_CAPACITY, n - 1);
            assert(h.drop_first().push(s.last()) =~= s.subrange(n - RECENT_CAPACITY, n));
        }
    }
}

} // verus!
