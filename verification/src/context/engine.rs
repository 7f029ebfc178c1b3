//! The context engine: assembly, enrichment, language detection, change
//! detection and caching, wired together. Broadcasting new snapshots to
//! subscribers is the application's part.

use vstd::prelude::*;
use crate::context::assembler::{assembled_view, SnapshotAssembler, VisionCapture};
use crate::context::cache::{bounded_push, ContextCache, RECENT_CAPACITY};
use crate::context::change_detector::{is_meaningful_change, ChangeDetector};
use crate::context::chromium::ChromiumEnricher;
use crate::context::enricher::{ContextEnricher, WindowProbe};
use crate::context::language::{detect_language, detected_language};
use crate::context::registry::{apply_enrichment, matching, BuiltinEnricher, PluginRegistry, PluginSandbox, DEFAULT_TIMEOUT_MS};
use crate::text::opt_view;
use crate::context::vscode::VsCodeEnricher;
use crate::types::{ContexaError, ContextSnapshot, SnapshotView};

verus! {

/// The snapshot with its language set from its visible text, when it has any.
pub open spec fn with_detected_language(v: SnapshotView) -> SnapshotView {
    match v.visible_text {
        Some(t) => SnapshotView { language: detected_language(t), ..v },
        None => v,
    }
}

/// What running enricher `e` can make of `before`: a successful run gives
/// what the enricher promises, a failed one leaves the snapshot as it was.
pub open spec fn enrichment_step<E: ContextEnricher>(
    e: E,
    address_bar: Option<Seq<char>>,
    before: SnapshotView,
    after: SnapshotView,
) -> bool {
    ||| e.enriches(before, address_bar, true, after)
    ||| (after == before && exists|a: SnapshotView| e.enriches(before, address_bar, false, a))
}

/// `views` traces running each of `es` in order: `views[0]` is the snapshot
/// before the first enricher and `views[i + 1]` the one after `es[i]`.
pub open spec fn enrichment_run<E: ContextEnricher>(
    es: Seq<E>,
    address_bar: Option<Seq<char>>,
    views: Seq<SnapshotView>,
) -> bool {
    &&& views.len() == es.len() + 1
    &&& forall|i: int| 0 <= i < es.len() ==> enrichment_step(#[trigger] es[i], address_bar, views[i], views[i + 1])
}

/// Assembles, enriches and filters captured context.
pub struct ContexaContextEngine<E: ContextEnricher> {
    assembler: SnapshotAssembler,
    registry: PluginRegistry<E>,
    sandbox: PluginSandbox,
    change_detector: ChangeDetector,
    cache: ContextCache,
}

impl<E: ContextEnricher> ContexaContextEngine<E> {
    /// The registry is ordered by priority.
    pub closed spec fn wf(&self) -> bool {
        self.registry.wf()
    }

    /// The registered enrichers in execution order.
    pub closed spec fn enrichers(&self) -> Seq<E> {
        self.registry.entries()
    }

    /// The last snapshot the change detector saw.
    pub closed spec fn baseline(&self) -> Option<SnapshotView> {
        self.change_detector.baseline()
    }

    /// The cached current snapshot.
    pub closed spec fn current(&self) -> Option<SnapshotView> {
        self.cache.current_view()
    }

    /// The cached history.
    pub closed spec fn recent(&self) -> Seq<SnapshotView> {
        self.cache.recent_view()
    }

    /// An engine with no enrichers, no baseline and an empty cache.
    pub fn new() -> (e: Self)
        ensures
            e.wf(),
            e.enrichers().len() == 0,
            e.baseline().is_none(),
            e.current().is_none(),
            e.recent().len() == 0,
            e.timeout_ms() == DEFAULT_TIMEOUT_MS,
    {
        ContexaContextEngine {
            assembler: SnapshotAssembler,
            registry: PluginRegistry::new(),
            sandbox: PluginSandbox::default(),
            change_detector: ChangeDetector::new(),
            cache: ContextCache::new(),
        }
    }

    /// The sandbox's time limit for each enricher, in milliseconds.
    pub closed spec fn timeout_ms(&self) -> u64 {
        self.sandbox.timeout_ms
    }

    /// The time limit, in milliseconds, the application gives each enricher.
    pub fn enricher_timeout(&self) -> (ms: u64)
        ensures
            ms == self.timeout_ms(),
    {
        self.sandbox.timeout_ms
    }

    /// The current snapshot; `None` until the first one is recorded.
    pub fn get_current(&self) -> (r: Option<ContextSnapshot>)
        ensures
            match r {
                Some(s) => self.current() == Some(s@),
                None => self.current().is_none(),
            },
    {
        self.cache.get_current()
    }

    /// Recorded snapshots of the last `window_ms` milliseconds, oldest first.
    pub fn get_recent(&self, window_ms: u64) -> (r: Vec<ContextSnapshot>)
        ensures
            exists|now: i64| r@.map_values(|s: ContextSnapshot| s@) == crate::context::cache::taken_after(
                self.recent(),
                crate::context::cache::cutoff_before(now, window_ms),
            ),
    {
        self.cache.get_recent(window_ms)
    }

    /// The current selection; selection tracking runs in the application,
    /// so the engine itself reports none.
    pub fn get_selection(&self) -> (r: Option<String>)
        ensures
            r.is_none(),
    {
        None
    }

    /// Registers an enricher (kept in descending priority order).
    pub fn register_enricher(&mut self, enricher: E)
        requires
            old(self).wf(),
        ensures
            final(self).wf(),
            final(self).enrichers() == old(self).enrichers().insert(
                crate::context::registry::insert_position(
                    crate::context::registry::priorities(old(self).enrichers()),
                    enricher.spec_priority(),
                ),
                enricher,
            ),
            final(self).baseline() == old(self).baseline(),
            final(self).current() == old(self).current(),
            final(self).recent() == old(self).recent(),
            final(self).timeout_ms() == old(self).timeout_ms(),
    {
        self.registry.register(enricher);
    }

    /// The registered enrichers that handle `process_name`, in execution
    /// order (for running them under the sandbox's time limit).
    pub fn enrichers_for(&self, process_name: &str) -> (r: Vec<&E>)
        ensures
            r@.len() == crate::context::registry::matching(self.enrichers(), process_name@).len(),
            forall|i: int|
                0 <= i < r@.len() ==> *r@[i] == crate::context::registry::matching(self.enrichers(), process_name@)[i],
    {
        self.registry.get_enrichers(process_name)
    }

    /// The last steps for an enriched snapshot: its language is detected
    /// from its visible text, the change detector compares it with the last
    /// snapshot (and keeps it as the new baseline), and only a meaningful
    /// change is cached and returned.
    pub fn finish_snapshot(&mut self, snapshot: ContextSnapshot) -> (r: Option<ContextSnapshot>)
        ensures
            final(self).wf() == old(self).wf(),
            final(self).enrichers() == old(self).enrichers(),
            final(self).baseline() == Some(with_detected_language(snapshot@)),
            match r {
                Some(s) => {
                    &&& s@ == with_detected_language(snapshot@)
                    &&& is_meaningful_change(old(self).baseline(), s@)
                    &&& final(self).current() == Some(s@)
                    &&& final(self).recent() == bounded_push(old(self).recent(), s@, RECENT_CAPACITY as nat)
                },
                None => {
                    &&& !is_meaningful_change(old(self).baseline(), with_detected_language(snapshot@))
                    &&& final(self).current() == old(self).current()
                    &&& final(self).recent() == old(self).recent()
                },
            },
    {
        let ghost assembled = snapshot@;
        let mut snapshot = snapshot;
        let language = match &snapshot.visible_text {
            Some(text) => Some(detect_language(text.as_str())),
            None => None,
        };
        match language {
            Some(l) => {
                snapshot.language = l;
            },
            None => {},
        }
        assert(snapshot@ == with_detected_language(assembled));
        let changed = self.change_detector.has_changed(&snapshot);
        if !changed {
            return None;
        }
        self.cache.update(snapshot.copy());
        Some(snapshot)
    }

    /// Turns a vision capture into a snapshot: assembles it, runs every
    /// matching enricher in priority order (an enricher that fails leaves the
    /// snapshot as it was), then finishes it as [`Self::finish_snapshot`]
    /// does. Returns the snapshot only when it is a meaningful change.
    pub fn process_vision_result(&mut self, result: VisionCapture, probe: &WindowProbe) -> (r: Result<
        Option<ContextSnapshot>,
        ContexaError,
    >)
        requires
            old(self).wf(),
        ensures
            final(self).wf(),
            final(self).enrichers() == old(self).enrichers(),
            r is Ok,
            exists|views: Seq<SnapshotView>| {
                let v = with_detected_language(views.last());
                &&& #[trigger] enrichment_run(
                    matching(old(self).enrichers(), result.process_name@),
                    opt_view(probe.address_bar),
                    views,
                )
                &&& views[0] == assembled_view(result, views[0].id)
                &&& final(self).baseline() == Some(v)
                &&& match r {
                    Ok(Some(s)) => {
                        &&& s@ == v
                        &&& is_meaningful_change(old(self).baseline(), v)
                        &&& final(self).current() == Some(v)
                        &&& final(self).recent() == bounded_push(old(self).recent(), v, RECENT_CAPACITY as nat)
                    },
                    _ => {
                        &&& !is_meaningful_change(old(self).baseline(), v)
                        &&& final(self).current() == old(self).current()
                        &&& final(self).recent() == old(self).recent()
                    },
                }
            },
    {
        let ghost vision = result;
        let ghost bar = opt_view(probe.address_bar);
        let mut snapshot = self.assembler.assemble(result);
        let ghost es = matching(self.registry.entries(), vision.process_name@);
        let enrichers = self.registry.get_enrichers(snapshot.process_name.as_str());
        let ghost mut views: Seq<SnapshotView> = seq![snapshot@];
        let mut i: usize = 0;
        while i < enrichers.len()
            invariant
                i <= enrichers@.len(),
                bar == opt_view(probe.address_bar),
                enrichers@.len() == es.len(),
                forall|k: int| 0 <= k < enrichers@.len() ==> *enrichers@[k] == es[k],
                snapshot.wf(),
                views.len() == i + 1,
                views[0] == assembled_view(vision, views[0].id),
                views.last() == snapshot@,
                forall|k: int| 0 <= k < i ==> enrichment_step(#[trigger] es[k], bar, views[k], views[k + 1]),
            decreases enrichers.len() - i,
        {
            let ghost before = snapshot@;
            let e = enrichers[i];
            assert(*e == es[i as int]);
            let _ = apply_enrichment(e, &mut snapshot, probe);
            proof {
                assert(enrichment_step(es[i as int], bar, before, snapshot@));
                let prev = views;
                views = views.push(snapshot@);
                assert forall|k: int| 0 <= k < i + 1 implies enrichment_step(#[trigger] es[k], bar, views[k], views[k + 1]) by {
                    if k < i {
                        assert(views[k] == prev[k]);
                        assert(views[k + 1] == prev[k + 1]);
                    }
                }
            }
            i += 1;
        }
        let out = self.finish_snapshot(snapshot);
        assert(enrichment_run(es, bar, views));
        Ok(out)
    }
}

impl<E: ContextEnricher> Default for ContexaContextEngine<E> {
    /// Same as `new`.
    fn default() -> (e: Self)
        ensures
            e.wf(),
            e.enrichers().len() == 0,
            e.baseline().is_none(),
            e.current().is_none(),
            e.recent().len() == 0,
            e.timeout_ms() == DEFAULT_TIMEOUT_MS,
    {
        Self::new()
    }
}

impl ContexaContextEngine<BuiltinEnricher> {
    /// An engine with the Chrome, Edge and VS Code enrichers registered.
    pub fn with_builtin_enrichers() -> (e: Self)
        ensures
            e.wf(),
            e.enrichers().len() == 3,
            e.baseline().is_none(),
            e.current().is_none(),
            e.recent().len() == 0,
            e.timeout_ms() == DEFAULT_TIMEOUT_MS,
    {
        let mut engine = Self::new();
        engine.register_enricher(BuiltinEnricher::Chromium(ChromiumEnricher::chrome()));
        engine.register_enricher(BuiltinEnricher::Chromium(ChromiumEnricher::edge()));
        engine.register_enricher(BuiltinEnricher::VsCode(VsCodeEnricher));
        engine
    }
}

/// Two snapshots agree on everything the change detector compares.
pub open spec fn alike(a: SnapshotView, b: SnapshotView) -> bool {
    &&& a.hwnd == b.hwnd
    &&& a.window_title == b.window_title
    &&& a.url == b.url
    &&& a.document_path == b.document_path
    &&& a.selected_text == b.selected_text
    &&& a.visible_text == b.visible_text
}

/// A built-in enricher treats alike snapshots alike.
proof fn lemma_builtin_step_alike(
    e: BuiltinEnricher,
    bar: Option<Seq<char>>,
    b1: SnapshotView,
    a1: SnapshotView,
    b2: SnapshotView,
    a2: SnapshotView,
)
    requires
        alike(b1, b2),
        enrichment_step(e, bar, b1, a1),
        enrichment_step(e, bar, b2, a2),
    ensures
        alike(a1, a2),
{
}

/// Running the built-in enrichers over alike snapshots keeps them alike,
/// step by step.
proof fn lemma_builtin_run_alike(
    es: Seq<BuiltinEnricher>,
    bar: Option<Seq<char>>,
    v1: Seq<SnapshotView>,
    v2: Seq<SnapshotView>,
    k: int,
)
    requires
        enrichment_run(es, bar, v1),
        enrichment_run(es, bar, v2),
        alike(v1[0], v2[0]),
        0 <= k <= es.len(),
    ensures
        alike(v1[k], v2[k]),
    decreases k,
{
    if k > 0 {
        lemma_builtin_run_alike(es, bar, v1, v2, k - 1);
        assert(enrichment_step(es[k - 1], bar, v1[k - 1], v1[k]));
        assert(enrichment_step(es[k - 1], bar, v2[k - 1], v2[k]));
        lemma_builtin_step_alike(es[k - 1], bar, v1[k - 1], v1[k], v2[k - 1], v2[k]);
    }
}

/// Processing the same capture twice, with the same built-in enrichers and
/// the same window probe, reports no change the second time: whatever
/// identifier each assembly drew, the second snapshot is no meaningful
/// change against the first (so the second call returns `Ok(None)`).
pub proof fn law_same_capture_twice_is_no_change(
    es: Seq<BuiltinEnricher>,
    vision: VisionCapture,
    address_bar: Option<Seq<char>>,
    first: Seq<SnapshotView>,
    second: Seq<SnapshotView>,
)
    requires
        enrichment_run(es, address_bar, first),
        enrichment_run(es, address_bar, second),
        first[0] == assembled_view(vision, first[0].id),
        second[0] == assembled_view(vision, second[0].id),
    ensures
        !is_meaningful_change(
            Some(with_detected_language(first.last())),
            with_detected_language(second.last()),
        ),
{
    lemma_builtin_run_alike(es, address_bar, first, second, es.len() as int);
}

} // verus!
