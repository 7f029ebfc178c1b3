//! Working memory: a ring buffer of the most recent snapshots, bounded in
//! size and in age.

use vstd::prelude::*;
use std::collections::VecDeque;
use crate::runtime::now_millis;
use crate::types::{ContextSnapshot, SnapshotView};

verus! {

pub const DEFAULT_MAX_SIZE: usize = 200;
/// Thirty minutes, in milliseconds.
pub const DEFAULT_MAX_AGE_MS: u64 = 1_800_000;

/// The last `max` entries of `s`.
pub open spec fn keep_last(s: Seq<SnapshotView>, max: nat) -> Seq<SnapshotView> {
    if s.len() > max {
        s.skip(s.len() - max)
    } else {
        s
    }
}

/// `s` without its leading entries taken before `cutoff`.
pub open spec fn drop_older(s: Seq<SnapshotView>, cutoff: i64) -> Seq<SnapshotView>
    decreases s.len(),
{
    if s.len() > 0 && s[0].timestamp < cutoff {
        drop_older(s.drop_first(), cutoff)
    } else {
        s
    }
}

/// `now - max_age`, saturating at the smallest timestamp.
pub open spec fn age_cutoff(now: i64, max_age_ms: u64) -> i64 {
    if now - max_age_ms < i64::MIN {
        i64::MIN
    } else {
        (now - max_age_ms) as i64
    }
}

/// The buffer after pushing `new` at time `now`.
pub open spec fn after_push(s: Seq<SnapshotView>, new: SnapshotView, max_size: nat, max_age_ms: u64, now: i64) -> Seq<SnapshotView> {
    drop_older(keep_last(s.push(new), max_size), age_cutoff(now, max_age_ms))
}

/// The most recent snapshots, at most `max_size` of them and none older
/// than `max_age_ms` at the last push.
pub struct WorkingMemory {
    buffer: VecDeque<ContextSnapshot>,
    max_size: usize,
    max_age_ms: u64,
}

impl WorkingMemory {
    /// The buffered snapshots, oldest first.
    pub closed spec fn contents(&self) -> Seq<SnapshotView> {
        self.buffer@.map_values(|s: ContextSnapshot| s@)
    }

    /// The most snapshots kept.
    pub closed spec fn size_bound(&self) -> usize {
        self.max_size
    }

    /// The oldest a snapshot may be at a push, in milliseconds.
    pub closed spec fn age_bound(&self) -> u64 {
        self.max_age_ms
    }

    /// An empty working memory with the given bounds.
    pub fn new(max_size: usize, max_age_ms: u64) -> (m: WorkingMemory)
        ensures
            m.contents().len() == 0,
            m.size_bound() == max_size,
            m.age_bound() == max_age_ms,
    {
        let m = WorkingMemory { buffer: VecDeque::new(), max_size, max_age_ms };
        assert(m.contents() =~= Seq::empty());
        m
    }

    /// Pushes `snapshot` at time `now`: the oldest entries beyond `max_size`
    /// are dropped, then the leading entries older than `now - max_age_ms`.
    pub fn push_at(&mut self, snapshot: ContextSnapshot, now: i64)
        ensures
            final(self).size_bound() == old(self).size_bound(),
            final(self).age_bound() == old(self).age_bound(),
            final(self).contents() == after_push(old(self).contents(), snapshot@, old(self).size_bound() as nat, old(self).age_bound(), now),
    {
        let ghost pushed = self.contents().push(snapshot@);
        self.buffer.push_back(snapshot);
        assert(self.contents() =~= pushed);
        while self.buffer.len() > self.max_size
            invariant
                self.max_size == old(self).max_size,
                self.max_age_ms == old(self).max_age_ms,
                pushed == old(self).contents().push(snapshot@),
                keep_last(pushed, self.max_size as nat) == keep_last(self.contents(), self.max_size as nat),
            decreases self.buffer.len(),
        {
            let ghost before = self.contents();
            self.buffer.pop_front();
            assert(self.contents() =~= before.drop_first());
            assert(before.skip(before.len() - self.max_size) =~= before.drop_first().skip(before.drop_first().len() - self.max_size));
        }
        assert(keep_last(self.contents(), self.max_size as nat) == self.contents());
        let ghost kept = self.contents();
        assert(kept == keep_last(old(self).contents().push(snapshot@), old(self).max_size as nat));
        let wide: i128 = (now as i128) - (self.max_age_ms as i128);
        let cutoff: i64 = if wide < (i64::MIN as i128) { i64::MIN } else { wide as i64 };
        while self.buffer.len() > 0 && self.buffer[0].timestamp < cutoff
            invariant
                self.max_size == old(self).max_size,
                self.max_age_ms == old(self).max_age_ms,
                drop_older(kept, cutoff) == drop_older(self.contents(), cutoff),
            decreases self.buffer.len(),
        {
            let ghost before = self.contents();
            self.buffer.pop_front();
            assert(self.contents() =~= before.drop_first());
        }
    }

    /// Pushes `snapshot` at the current time (see [`Self::push_at`]).
    pub fn push(&mut self, snapshot: ContextSnapshot)
        ensures
            final(self).size_bound() == old(self).size_bound(),
            final(self).age_bound() == old(self).age_bound(),
            exists|now: i64| final(self).contents() == after_push(old(self).contents(), snapshot@, old(self).size_bound() as nat, old(self).age_bound(), now),
    {
        let now = now_millis();
        self.push_at(snapshot, now);
    }

    /// A copy of every buffered snapshot, oldest first.
    pub fn get_all(&self) -> (r: Vec<ContextSnapshot>)
        ensures
            r@.map_values(|s: ContextSnapshot| s@) == self.contents(),
    {
        let mut out: Vec<ContextSnapshot> = Vec::new();
        let mut i: usize = 0;
        while i < self.buffer.len()
            invariant
                i <= self.buffer@.len(),
                out@.map_values(|s: ContextSnapshot| s@) == self.contents().take(i as int),
            decreases self.buffer.len() - i,
        {
            let ghost before = out@;
            out.push(self.buffer[i].copy());
            assert(out@.map_values(|s: ContextSnapshot| s@) =~= before.map_values(|s: ContextSnapshot| s@).push(self.contents()[i as int]));
            assert(self.contents().take(i + 1) =~= self.contents().take(i as int).push(self.contents()[i as int]));
            i += 1;
        }
        assert(self.contents().take(self.buffer@.len() as int) =~= self.contents());
        out
    }
}

impl Default for WorkingMemory {
    /// An empty working memory with the default bounds (200 snapshots, 30
    /// minutes).
    fn default() -> (m: WorkingMemory)
        ensures
            m.contents().len() == 0,
            m.size_bound() == DEFAULT_MAX_SIZE,
            m.age_bound() == DEFAULT_MAX_AGE_MS,
    {
        Self::new(DEFAULT_MAX_SIZE, DEFAULT_MAX_AGE_MS)
    }
}

/// Working memory never holds more than `max_size` snapshots, and after a
/// push its oldest snapshot is no older than the age cutoff.
pub proof fn law_working_memory_bounds(s: Seq<SnapshotView>, new: SnapshotView, max_size: nat, max_age_ms: u64, now: i64)
    ensures
        after_push(s, new, max_size, max_age_ms, now).len() <= max_size,
        after_push(s, new, max_size, max_age_ms, now).len() > 0 ==> after_push(s, new, max_size, max_age_ms, now)[0].timestamp
            >= age_cutoff(now, max_age_ms),
{
    lemma_drop_older(keep_last(s.push(new), max_size), age_cutoff(now, max_age_ms));
}

proof fn lemma_drop_older(s: Seq<SnapshotView>, cutoff: i64)
    ensures
        drop_older(s, cutoff).len() <= s.len(),
        drop_older(s, cutoff).len() > 0 ==> drop_older(s, cutoff)[0].timestamp >= cutoff,
    decreases s.len(),
{
    if s.len() > 0 && s[0].timestamp < cutoff {
        lemma_drop_older(s.drop_first(), cutoff);
    }
}

} // verus!
