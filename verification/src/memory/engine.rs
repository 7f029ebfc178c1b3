//! The memory engine's decisions: which snapshots become memory, how their
//! text is chunked, which timeline events they open, how search hits are
//! filtered, how embedding work is batched, and what retention removes.
//! Persisting, embedding and searching happen in the application, which
//! calls these steps in order.

use vstd::prelude::*;
use crate::memory::chunking::{chunk_text, chunks_of, estimate_tokens, token_estimate};
use crate::memory::deduplicator::{content_hash, content_hash_of, keys_after_put, Deduplicator};
use crate::memory::timeline_builder::TimelineBuilder;
use crate::memory::working_memory::WorkingMemory;
use crate::model::{MemoryChunk, TimeRange, TimelineEvent};
use crate::runtime::{new_uuid, now_millis};
use crate::text::{is_blank, str_is_blank, opt_view};
use crate::types::{ContextSnapshot, Metadata, SnapshotView};

verus! {

/// Memory older than this many days is purged by default.
pub const DEFAULT_RETENTION_DAYS: u32 = 90;
/// Milliseconds in a day.
pub const MS_PER_DAY: i64 = 86_400_000;

/// A snapshot is worth remembering when its visible or selected text holds
/// more than white space.
pub open spec fn significant(s: SnapshotView) -> bool {
    ||| (s.visible_text matches Some(t) && !is_blank(t))
    ||| (s.selected_text matches Some(t) && !is_blank(t))
}

/// Exec form of [`significant`].
pub fn is_significant(snapshot: &ContextSnapshot) -> (b: bool)
    ensures
        b == significant(snapshot@),
{
    let visible = match &snapshot.visible_text {
        Some(t) => !str_is_blank(t.as_str()),
        None => false,
    };
    let selected = match &snapshot.selected_text {
        Some(t) => !str_is_blank(t.as_str()),
        None => false,
    };
    visible || selected
}

/// The text a snapshot contributes to memory: its visible text, when the
/// snapshot is significant and that text is not blank.
pub open spec fn memorable_text(s: SnapshotView) -> Option<Seq<char>> {
    if significant(s) && (s.visible_text matches Some(t) && !is_blank(t)) {
        s.visible_text
    } else {
        None
    }
}

/// A token count as stored: the estimate, or `i64::MAX` if it does not fit.
pub open spec fn stored_token_count(n: nat) -> i64 {
    if n <= i64::MAX {
        n as i64
    } else {
        i64::MAX
    }
}

/// `now` minus `days` days, saturating at the smallest timestamp.
pub open spec fn retention_cutoff(now: i64, days: u32) -> i64 {
    if now - days * MS_PER_DAY < i64::MIN {
        i64::MIN
    } else {
        (now - days * MS_PER_DAY) as i64
    }
}

/// Deletes memory older than a number of days.
pub struct RetentionPurger {
    pub retention_days: u32,
}

impl RetentionPurger {
    /// A purger keeping `retention_days` days.
    pub fn new(retention_days: u32) -> (p: RetentionPurger)
        ensures
            p.retention_days == retention_days,
    {
        RetentionPurger { retention_days }
    }

    /// The moment before which memory is purged, given the current time.
    pub fn cutoff_at(&self, now: i64) -> (c: i64)
        ensures
            c == retention_cutoff(now, self.retention_days),
    {
        let d: i128 = self.retention_days as i128;
        assert(0 <= d * 86_400_000 <= 4294967295 * 86_400_000) by (nonlinear_arith)
            requires
                0 <= d <= 4294967295,
        ;
        let span: i128 = d * 86_400_000;
        let wide: i128 = (now as i128) - span;
        if wide < i64::MIN as i128 {
            i64::MIN
        } else {
            wide as i64
        }
    }

    /// The moment before which memory is purged now.
    pub fn purge_cutoff(&self) -> (c: i64)
        ensures
            exists|now: i64| c == retention_cutoff(now, self.retention_days),
    {
        let now = now_millis();
        self.cutoff_at(now)
    }
}

impl Default for RetentionPurger {
    /// A purger keeping the default 90 days.
    fn default() -> (p: RetentionPurger)
        ensures
            p.retention_days == DEFAULT_RETENTION_DAYS,
    {
        Self::new(DEFAULT_RETENTION_DAYS)
    }
}

/// The per-snapshot state of the memory engine.
pub struct MemoryIngestor {
    pub working_memory: WorkingMemory,
    pub timeline_builder: TimelineBuilder,
    pub deduplicator: Deduplicator,
}

impl MemoryIngestor {
    /// A fresh ingestor with default bounds.
    pub fn new() -> (m: MemoryIngestor)
        ensures
            m.working_memory.contents().len() == 0,
            m.working_memory.size_bound() == crate::memory::working_memory::DEFAULT_MAX_SIZE,
            m.working_memory.age_bound() == crate::memory::working_memory::DEFAULT_MAX_AGE_MS,
            m.timeline_builder.last_event.is_none(),
            m.deduplicator.hashes().len() == 0,
            m.deduplicator.capacity() == crate::memory::deduplicator::DEFAULT_CAPACITY,
    {
        MemoryIngestor {
            working_memory: WorkingMemory::default(),
            timeline_builder: TimelineBuilder::new(),
            deduplicator: Deduplicator::default(),
        }
    }

    /// First step of ingestion: the snapshot joins working memory.
    pub fn remember(&mut self, snapshot: &ContextSnapshot)
        ensures
            final(self).timeline_builder == old(self).timeline_builder,
            final(self).deduplicator == old(self).deduplicator,
            final(self).working_memory.size_bound() == old(self).working_memory.size_bound(),
            final(self).working_memory.age_bound() == old(self).working_memory.age_bound(),
            exists|now: i64| final(self).working_memory.contents() == crate::memory::working_memory::after_push(
                old(self).working_memory.contents(),
                snapshot@,
                old(self).working_memory.size_bound() as nat,
                old(self).working_memory.age_bound(),
                now,
            ),
    {
        self.working_memory.push(snapshot.copy());
    }

    /// Second step, once the snapshot is persisted: the timeline event it
    /// opens, if any (see `TimelineBuilder`).
    pub fn timeline_event(&mut self, snapshot: &ContextSnapshot) -> (r: Option<TimelineEvent>)
        ensures
            final(self).working_memory == old(self).working_memory,
            final(self).deduplicator == old(self).deduplicator,
            crate::memory::timeline_builder::is_debounced(old(self).timeline_builder.last_event, snapshot@) ==> r.is_none()
                && final(self).timeline_builder == old(self).timeline_builder,
            !crate::memory::timeline_builder::is_debounced(old(self).timeline_builder.last_event, snapshot@) ==> (r matches Some(e) && {
                &&& e.timestamp == snapshot.timestamp
                &&& e.event_type == crate::memory::timeline_builder::classify(old(self).timeline_builder.last_event, snapshot@)
                &&& e.summary@ == crate::memory::timeline_builder::summary_of(snapshot@)
                &&& e.application@ == snapshot.process_name@
                &&& e.window_title@ == snapshot.window_title@
                &&& e.duration_ms.is_none()
                &&& e.context_id == Some(snapshot.id)
                &&& final(self).timeline_builder.last_event == Some(e)
            }),
    {
        self.timeline_builder.process_context_change(snapshot)
    }

    /// Third step, once the event is persisted: the memory chunks of the
    /// snapshot. Only a significant snapshot with non-blank visible text that
    /// was not seen recently yields chunks: one per piece of
    /// [`chunk_text`], each carrying its content hash, estimated token count,
    /// the snapshot's id, time and application, and a fresh id.
    pub fn memory_chunks(&mut self, snapshot: &ContextSnapshot) -> (r: Vec<MemoryChunk>)
        ensures
            final(self).working_memory == old(self).working_memory,
            final(self).timeline_builder == old(self).timeline_builder,
            final(self).deduplicator.capacity() == old(self).deduplicator.capacity(),
            memorable_text(snapshot@) is None ==> r@.len() == 0 && final(self).deduplicator.hashes() == old(self).deduplicator.hashes(),
            memorable_text(snapshot@) matches Some(text) ==> {
                let dup = old(self).deduplicator.hashes().contains(content_hash_of(text));
                &&& final(self).deduplicator.hashes() == if dup {
                    old(self).deduplicator.hashes()
                } else {
                    keys_after_put(old(self).deduplicator.hashes(), content_hash_of(text), old(self).deduplicator.capacity())
                }
                &&& dup ==> r@.len() == 0
                &&& !dup ==> r@.len() == chunks_of(text).len()
                &&& !dup ==> forall|i: int| 0 <= i < r@.len() ==> {
                    &&& (#[trigger] r@[i]).content@ == chunks_of(text)[i]
                    &&& r@[i].content_hash@ == content_hash_of(chunks_of(text)[i])
                    &&& r@[i].token_count == stored_token_count(token_estimate(chunks_of(text)[i].len()))
                    &&& r@[i].context_id == Some(snapshot.id)
                    &&& r@[i].timestamp == snapshot.timestamp
                    &&& r@[i].application@ == snapshot.process_name@
                    &&& r@[i].metadata@.len() == 0
                }
            },
    {
        if !is_significant(snapshot) {
            return Vec::new();
        }
        let text = match &snapshot.visible_text {
            Some(t) => {
                if str_is_blank(t.as_str()) {
                    return Vec::new();
                }
                t
            },
            None => {
                return Vec::new();
            },
        };
        if self.deduplicator.is_duplicate(text.as_str()) {
            return Vec::new();
        }
        let pieces = chunk_text(text.as_str());
        let mut out: Vec<MemoryChunk> = Vec::new();
        let mut i: usize = 0;
        while i < pieces.len()
            invariant
                i <= pieces@.len(),
                pieces@.len() == chunks_of(text@).len(),
                forall|k: int| 0 <= k < pieces@.len() ==> #[trigger] pieces@[k]@ == chunks_of(text@)[k],
                out@.len() == i,
                forall|k: int| 0 <= k < i ==> {
                    &&& (#[trigger] out@[k]).content@ == chunks_of(text@)[k]
                    &&& out@[k].content_hash@ == content_hash_of(chunks_of(text@)[k])
                    &&& out@[k].token_count == stored_token_count(token_estimate(chunks_of(text@)[k].len()))
                    &&& out@[k].context_id == Some(snapshot.id)
                    &&& out@[k].timestamp == snapshot.timestamp
                    &&& out@[k].application@ == snapshot.process_name@
                    &&& out@[k].metadata@.len() == 0
                },
            decreases pieces.len() - i,
        {
            let piece = pieces[i].clone();
            let tokens = estimate_tokens(piece.as_str());
            let token_count: i64 = if tokens as u128 <= i64::MAX as u128 { tokens as i64 } else { i64::MAX };
            let chunk = MemoryChunk {
                id: new_uuid(),
                context_id: Some(snapshot.id),
                content_hash: content_hash(piece.as_str()),
                content: piece,
                timestamp: snapshot.timestamp,
                application: snapshot.process_name.clone(),
                metadata: Metadata::new(),
                token_count,
            };
            out.push(chunk);
            i += 1;
        }
        out
    }

    /// The snapshots in working memory, oldest first.
    pub fn get_working_memory(&self) -> (r: Vec<ContextSnapshot>)
        ensures
            r@.map_values(|s: ContextSnapshot| s@) == self.working_memory.contents(),
    {
        self.working_memory.get_all()
    }
}

impl Default for MemoryIngestor {
    /// Same as `new`.
    fn default() -> (m: Self)
        ensures
            m.working_memory.contents().len() == 0,
            m.working_memory.size_bound() == crate::memory::working_memory::DEFAULT_MAX_SIZE,
            m.working_memory.age_bound() == crate::memory::working_memory::DEFAULT_MAX_AGE_MS,
            m.timeline_builder.last_event.is_none(),
            m.deduplicator.hashes().len() == 0,
            m.deduplicator.capacity() == crate::memory::deduplicator::DEFAULT_CAPACITY,
    {
        Self::new()
    }
}

/// Post-filters for semantic search hits.
pub struct SearchFilter {
    pub time_range: Option<TimeRange>,
    pub application_filter: Option<String>,
}

/// Whether a hit with this time and application passes the filter.
pub open spec fn hit_passes(f: SearchFilter, timestamp: i64, application: Seq<char>) -> bool {
    &&& (f.time_range matches Some(r) ==> r.holds(timestamp))
    &&& (f.application_filter matches Some(a) ==> a@ == application)
}

/// Whether a search hit passes the time-range and application filters.
pub fn keep_hit(filter: &SearchFilter, timestamp: i64, application: &str) -> (b: bool)
    ensures
        b == hit_passes(*filter, timestamp, application@),
{
    let in_range = match &filter.time_range {
        Some(r) => r.contains(timestamp),
        None => true,
    };
    let app_ok = match &filter.application_filter {
        Some(a) => crate::text::str_eq(a.as_str(), application),
        None => true,
    };
    in_range && app_ok
}

/// Default number of chunks embedded together.
pub const DEFAULT_BATCH_SIZE: usize = 10;

/// Chunks waiting to be embedded and persisted together.
pub struct EmbeddingQueue {
    pub queue: Vec<MemoryChunk>,
    pub batch_size: usize,
}

impl EmbeddingQueue {
    /// The waiting chunks, in arrival order.
    pub open spec fn pending(&self) -> Seq<MemoryChunk> {
        self.queue@
    }

    /// An empty queue flushing every `DEFAULT_BATCH_SIZE` chunks.
    pub fn new() -> (q: EmbeddingQueue)
        ensures
            q.pending().len() == 0,
            q.batch_size == DEFAULT_BATCH_SIZE,
    {
        EmbeddingQueue { queue: Vec::new(), batch_size: DEFAULT_BATCH_SIZE }
    }

    /// Queues `chunk`; returns whether the batch is full and due to be
    /// flushed.
    pub fn enqueue(&mut self, chunk: MemoryChunk) -> (flush: bool)
        ensures
            final(self).batch_size == old(self).batch_size,
            final(self).pending() == old(self).pending().push(chunk),
            flush == (final(self).pending().len() >= old(self).batch_size),
    {
        self.queue.push(chunk);
        self.queue.len() >= self.batch_size
    }

    /// Takes every waiting chunk, even when fewer than a batch.
    pub fn take_batch(&mut self) -> (batch: Vec<MemoryChunk>)
        ensures
            final(self).batch_size == old(self).batch_size,
            batch@ == old(self).pending(),
            final(self).pending().len() == 0,
    {
        let mut batch: Vec<MemoryChunk> = Vec::new();
        std::mem::swap(&mut batch, &mut self.queue);
        batch
    }
}

impl Default for EmbeddingQueue {
    /// Same as `new`.
    fn default() -> (q: Self)
        ensures
            q.pending().len() == 0,
            q.batch_size == DEFAULT_BATCH_SIZE,
    {
        Self::new()
    }
}

} // verus!
