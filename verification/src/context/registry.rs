//! Plugin registry (enrichers kept in descending priority order) and the
//! sandbox settings enrichers run under.

use vstd::prelude::*;
use crate::context::chromium::ChromiumEnricher;
use crate::context::enricher::{ContextEnricher, PluginInfo, WindowProbe};
use crate::context::vscode::VsCodeEnricher;
use crate::text::opt_view;
use crate::types::{ContexaError, ContextSnapshot, SnapshotView};

verus! {

/// The priorities of `es`, in order.
pub open spec fn priorities<E: ContextEnricher>(es: Seq<E>) -> Seq<u32> {
    es.map_values(|e: E| e.spec_priority())
}

/// Priorities never increase along the sequence.
pub open spec fn descending(p: Seq<u32>) -> bool {
    forall|i: int, j: int| 0 <= i <= j < p.len() ==> #[trigger] p[i] >= #[trigger] p[j]
}

/// Where an entry of priority `p` goes in a descending sequence: after every
/// entry of priority at least `p` (so equal priorities keep registration
/// order, as a stable sort of the appended entry would).
pub open spec fn insert_position(p: Seq<u32>, new: u32) -> int
    decreases p.len(),
{
    if p.len() == 0 {
        0
    } else if p.last() >= new {
        p.len() as int
    } else {
        insert_position(p.drop_last(), new)
    }
}

/// The entries of `es` that handle `process_name`, in order.
pub open spec fn matching<E: ContextEnricher>(es: Seq<E>, process_name: Seq<char>) -> Seq<E>
    decreases es.len(),
{
    if es.len() == 0 {
        Seq::empty()
    } else if es.last().spec_matches(process_name) {
        matching(es.drop_last(), process_name).push(es.last())
    } else {
        matching(es.drop_last(), process_name)
    }
}

/// Whether an enricher has priority `v`.
pub open spec fn has_priority<E: ContextEnricher>(v: u32) -> spec_fn(E) -> bool {
    |e: E| e.spec_priority() == v
}

/// The entries of `es` with priority `v`, in order.
pub open spec fn with_priority<E: ContextEnricher>(es: Seq<E>, v: u32) -> Seq<E> {
    es.filter(has_priority::<E>(v))
}

/// The registry that registering each of `es`, in order, into an empty
/// registry produces (each step is what [`PluginRegistry::register`] does).
pub open spec fn registered<E: ContextEnricher>(es: Seq<E>) -> Seq<E>
    decreases es.len(),
{
    if es.len() == 0 {
        Seq::empty()
    } else {
        let r = registered(es.drop_last());
        r.insert(insert_position(priorities(r), es.last().spec_priority()), es.last())
    }
}

/// Registered enrichers, highest priority first.
pub struct PluginRegistry<E: ContextEnricher> {
    enrichers: Vec<E>,
}

impl<E: ContextEnricher> PluginRegistry<E> {
    /// The registered enrichers in execution order.
    pub closed spec fn entries(&self) -> Seq<E> {
        self.enrichers@
    }

    /// Enrichers are ordered by descending priority.
    pub open spec fn wf(&self) -> bool {
        descending(priorities(self.entries()))
    }

    /// An empty registry.
    pub fn new() -> (r: Self)
        ensures
            r.wf(),
            r.entries().len() == 0,
    {
        PluginRegistry { enrichers: Vec::new() }
    }

    /// Registers `enricher` after every enricher whose priority is at least
    /// its own, keeping the registry ordered by descending priority.
    pub fn register(&mut self, enricher: E)
        requires
            old(self).wf(),
        ensures
            final(self).wf(),
            final(self).entries() == old(self).entries().insert(
                insert_position(priorities(old(self).entries()), enricher.spec_priority()),
                enricher,
            ),
    {
        let p = enricher.priority();
        let ghost prios = priorities(self.enrichers@);
        let mut pos = self.enrichers.len();
        assert(prios.take(pos as int) == prios);
        while pos > 0 && self.enrichers[pos - 1].priority() < p
            invariant
                pos <= self.enrichers@.len(),
                prios == priorities(self.enrichers@),
                descending(prios),
                insert_position(prios, p) == insert_position(prios.take(pos as int), p),
                forall|k: int| pos <= k < prios.len() ==> #[trigger] prios[k] < p,
            decreases pos,
        {
            proof {
                assert(prios.take(pos as int).drop_last() == prios.take(pos - 1));
                assert(prios.take(pos as int).last() == prios[pos - 1]);
            }
            pos -= 1;
        }
        proof {
            assert(prios.take(prios.len() as int) == prios);
            if pos > 0 {
                assert(prios.take(pos as int).last() == prios[pos - 1]);
            }
            assert(insert_position(prios, p) == pos);
        }
        let ghost before = self.enrichers@;
        self.enrichers.insert(pos, enricher);
        proof {
            let after = priorities(self.enrichers@);
            assert(after =~= prios.insert(pos as int, p));
            assert forall|i: int, j: int| 0 <= i <= j < after.len() implies #[trigger] after[i] >= #[trigger] after[j] by {
                if i < pos && j > pos {
                    assert(prios[i] >= prios[j - 1]);
                } else if i < pos && j == pos {
                    assert(prios[i] >= p);
                } else if i == pos && j > pos {
                    assert(prios[j - 1] < p);
                } else if i > pos {
                    assert(prios[i - 1] >= prios[j - 1]);
                }
            }
        }
    }

    /// The enrichers that handle `process_name`, in execution order.
    pub fn get_enrichers(&self, process_name: &str) -> (r: Vec<&E>)
        ensures
            r@.len() == matching(self.entries(), process_name@).len(),
            forall|i: int| 0 <= i < r@.len() ==> *r@[i] == matching(self.entries(), process_name@)[i],
    {
        let mut out: Vec<&E> = Vec::new();
        let mut i: usize = 0;
        while i < self.enrichers.len()
            invariant
                i <= self.enrichers@.len(),
                out@.len() == matching(self.enrichers@.take(i as int), process_name@).len(),
                forall|k: int| 0 <= k < out@.len() ==> *out@[k] == matching(self.enrichers@.take(i as int), process_name@)[k],
            decreases self.enrichers.len() - i,
        {
            proof {
                assert(self.enrichers@.take(i + 1).drop_last() == self.enrichers@.take(i as int));
                assert(self.enrichers@.take(i + 1).last() == self.enrichers@[i as int]);
            }
            if self.enrichers[i].matches(process_name) {
                out.push(&self.enrichers[i]);
            }
            i += 1;
        }
        assert(self.enrichers@.take(self.enrichers.len() as int) == self.enrichers@);
        out
    }

    /// Descriptive information about every registered enricher, in order.
    pub fn list_all(&self) -> (r: Vec<PluginInfo>)
        ensures
            r@.len() == self.entries().len(),
            forall|i: int| 0 <= i < r@.len() ==> self.entries()[i].describes(#[trigger] r@[i]),
    {
        let mut out: Vec<PluginInfo> = Vec::new();
        let mut i: usize = 0;
        while i < self.enrichers.len()
            invariant
                i <= self.enrichers@.len(),
                out@.len() == i,
                forall|k: int| 0 <= k < i ==> self.entries()[k].describes(#[trigger] out@[k]),
            decreases self.enrichers.len() - i,
        {
            let info = self.enrichers[i].info();
            let ghost prev = out@;
            out.push(info);
            assert forall|k: int| 0 <= k < i + 1 implies self.entries()[k].describes(#[trigger] out@[k]) by {
                if k < i {
                    assert(out@[k] == prev[k]);
                }
            }
            i += 1;
        }
        out
    }
}

impl<E: ContextEnricher> Default for PluginRegistry<E> {
    /// Same as `new`.
    fn default() -> (r: Self)
        ensures
            r.wf(),
            r.entries().len() == 0,
    {
        Self::new()
    }
}

/// The enrichers for a process run in descending priority order: the
/// matching subsequence of a descending registry is itself descending.
pub proof fn law_matching_enrichers_by_priority<E: ContextEnricher>(es: Seq<E>, process_name: Seq<char>)
    requires
        descending(priorities(es)),
    ensures
        descending(priorities(matching(es, process_name))),
        forall|i: int| 0 <= i < matching(es, process_name).len() ==> (#[trigger] matching(es, process_name)[i]).spec_matches(process_name),
    decreases es.len(),
{
    if es.len() > 0 {
        let init = es.drop_last();
        assert(priorities(init) =~= priorities(es).drop_last());
        law_matching_enrichers_by_priority(init, process_name);
        assert forall|i: int| 0 <= i < init.len() implies #[trigger] init[i].spec_priority() >= es.last().spec_priority() by {
            assert(priorities(es)[i] >= priorities(es)[es.len() - 1]);
            assert(init[i] == es[i]);
        }
        lemma_matching_bounded_by(init, process_name, es.last().spec_priority());
        let m = matching(es, process_name);
        let pm = priorities(m);
        if es.last().spec_matches(process_name) {
            let mi = matching(init, process_name);
            assert(m == mi.push(es.last()));
            assert forall|i: int, j: int| 0 <= i <= j < pm.len() implies #[trigger] pm[i] >= #[trigger] pm[j] by {
                if j == pm.len() - 1 {
                    assert(pm[j] == es.last().spec_priority());
                    if i < j {
                        assert(pm[i] == mi[i].spec_priority());
                    }
                } else {
                    assert(pm[i] == priorities(mi)[i]);
                    assert(pm[j] == priorities(mi)[j]);
                }
            }
        }
    }
}

/// Registration is a stable sort by descending priority: whatever order
/// enrichers are registered in, the registry holds them highest priority
/// first, and enrichers of equal priority stay in registration order. The
/// same holds of the enrichers that handle any one process.
pub proof fn law_registration_orders_by_priority<E: ContextEnricher>(es: Seq<E>, process_name: Seq<char>)
    ensures
        registered(es).len() == es.len(),
        descending(priorities(registered(es))),
        forall|v: u32| #[trigger] with_priority(registered(es), v) == with_priority(es, v),
        descending(priorities(matching(registered(es), process_name))),
        forall|v: u32|
            #[trigger] with_priority(matching(registered(es), process_name), v) == with_priority(
                matching(es, process_name),
                v,
            ),
{
    lemma_registered_sorted(es);
    law_matching_enrichers_by_priority(registered(es), process_name);
    assert forall|v: u32|
        #[trigger] with_priority(matching(registered(es), process_name), v) == with_priority(
            matching(es, process_name),
            v,
        ) by {
        lemma_priority_matching_commute(registered(es), process_name, v);
        lemma_priority_matching_commute(es, process_name, v);
    }
}

/// Where `new` goes in a descending sequence: every entry before the
/// position has at least priority `new`, every entry after it less.
proof fn lemma_insert_position(p: Seq<u32>, new: u32)
    requires
        descending(p),
    ensures
        0 <= insert_position(p, new) <= p.len(),
        forall|k: int| 0 <= k < insert_position(p, new) ==> #[trigger] p[k] >= new,
        forall|k: int| insert_position(p, new) <= k < p.len() ==> #[trigger] p[k] < new,
    decreases p.len(),
{
    if p.len() > 0 {
        if p.last() >= new {
            assert forall|k: int| 0 <= k < p.len() implies #[trigger] p[k] >= new by {
                assert(p[k] >= p[p.len() - 1]);
            }
        } else {
            let init = p.drop_last();
            assert forall|i: int, j: int| 0 <= i <= j < init.len() implies #[trigger] init[i] >= #[trigger] init[j] by {
                assert(p[i] >= p[j]);
            }
            lemma_insert_position(init, new);
            assert forall|k: int| insert_position(p, new) <= k < p.len() implies #[trigger] p[k] < new by {
                if k < p.len() - 1 {
                    assert(p[k] == init[k]);
                }
            }
            assert forall|k: int| 0 <= k < insert_position(p, new) implies #[trigger] p[k] >= new by {
                assert(p[k] == init[k]);
            }
        }
    }
}

/// A sequence none of whose entries has priority `v` has none to select.
proof fn lemma_no_priority<E: ContextEnricher>(s: Seq<E>, v: u32)
    requires
        forall|k: int| 0 <= k < s.len() ==> (#[trigger] s[k]).spec_priority() != v,
    ensures
        with_priority(s, v) == Seq::<E>::empty(),
    decreases s.len(),
{
    reveal(Seq::filter);
    if s.len() > 0 {
        assert forall|k: int| 0 <= k < s.drop_last().len() implies (#[trigger] s.drop_last()[k]).spec_priority() != v by {
            assert(s.drop_last()[k] == s[k]);
        }
        lemma_no_priority(s.drop_last(), v);
        assert(s.last() == s[s.len() - 1]);
    }
}

/// The registry built from `es` is descending and holds, for each priority,
/// the enrichers of that priority in registration order.
proof fn lemma_registered_sorted<E: ContextEnricher>(es: Seq<E>)
    ensures
        registered(es).len() == es.len(),
        descending(priorities(registered(es))),
        forall|v: u32| #[trigger] with_priority(registered(es), v) == with_priority(es, v),
    decreases es.len(),
{
    if es.len() == 0 {
        assert forall|v: u32| #[trigger] with_priority(registered(es), v) == with_priority(es, v) by {
            assert(registered(es) == es);
        }
    } else {
        let init = es.drop_last();
        let x = es.last();
        let px = x.spec_priority();
        lemma_registered_sorted(init);
        let r = registered(init);
        let prios = priorities(r);
        let pos = insert_position(prios, px);
        lemma_insert_position(prios, px);
        assert(prios.len() == r.len());
        let out = r.insert(pos, x);
        assert(registered(es) == out);
        let after = priorities(out);
        assert(after =~= prios.insert(pos, px));
        assert forall|i: int, j: int| 0 <= i <= j < after.len() implies #[trigger] after[i] >= #[trigger] after[j] by {
            if i < pos && j > pos {
                assert(prios[i] >= prios[j - 1]);
            } else if i < pos && j == pos {
                assert(prios[i] >= px);
            } else if i == pos && j > pos {
                assert(prios[j - 1] < px);
            } else if i > pos {
                assert(prios[i - 1] >= prios[j - 1]);
            }
        }
        let head = r.take(pos);
        let tail = r.skip(pos);
        assert(r =~= head + tail);
        assert(out =~= head + seq![x] + tail);
        assert(es =~= init.push(x));
        assert forall|v: u32| #[trigger] with_priority(registered(es), v) == with_priority(es, v) by {
            let pred = has_priority::<E>(v);
            Seq::filter_distributes_over_add(head, tail, pred);
            Seq::filter_distributes_over_add(head + seq![x], tail, pred);
            Seq::filter_distributes_over_add(head, seq![x], pred);
            init.lemma_filter_push(x, pred);
            Seq::<E>::empty().lemma_filter_push(x, pred);
            assert(seq![x] =~= Seq::<E>::empty().push(x));
            reveal_with_fuel(Seq::filter, 1);
            assert(Seq::<E>::empty().filter(pred) =~= Seq::<E>::empty());
            assert(with_priority(seq![x], v) == if px == v { seq![x] } else { Seq::<E>::empty() });
            assert(with_priority(out, v) == with_priority(head, v) + with_priority(seq![x], v) + with_priority(tail, v));
            assert(with_priority(r, v) == with_priority(head, v) + with_priority(tail, v));
            assert(with_priority(r, v) == with_priority(init, v));
            assert(with_priority(es, v) == if px == v { with_priority(init, v).push(x) } else { with_priority(init, v) });
            if px == v {
                assert forall|k: int| 0 <= k < tail.len() implies (#[trigger] tail[k]).spec_priority() != v by {
                    assert(tail[k] == r[pos + k]);
                    assert(prios[pos + k] < px);
                }
                lemma_no_priority(tail, v);
                assert(with_priority(out, v) =~= with_priority(head, v).push(x));
                assert(with_priority(r, v) =~= with_priority(head, v));
            } else {
                assert(with_priority(out, v) =~= with_priority(head, v) + with_priority(tail, v));
            }
        }
    }
}

/// Selecting one priority and selecting the enrichers of one process can be
/// done in either order.
proof fn lemma_priority_matching_commute<E: ContextEnricher>(s: Seq<E>, process_name: Seq<char>, v: u32)
    ensures
        with_priority(matching(s, process_name), v) == matching(with_priority(s, v), process_name),
    decreases s.len(),
{
    reveal(Seq::filter);
    if s.len() > 0 {
        let init = s.drop_last();
        let x = s.last();
        lemma_priority_matching_commute(init, process_name, v);
        let wi = with_priority(init, v);
        let mi = matching(init, process_name);
        assert(s =~= init.push(x));
        init.lemma_filter_push(x, has_priority::<E>(v));
        mi.lemma_filter_push(x, has_priority::<E>(v));
        assert(wi.push(x).drop_last() =~= wi);
        assert(wi.push(x).last() == x);
    }
}

/// Every enricher that precedes the last in a descending registry has at
/// least the last one's priority.
proof fn lemma_matching_bounded_by<E: ContextEnricher>(es: Seq<E>, process_name: Seq<char>, p: u32)
    requires
        forall|i: int| 0 <= i < es.len() ==> #[trigger] es[i].spec_priority() >= p,
    ensures
        forall|i: int| 0 <= i < matching(es, process_name).len() ==> #[trigger] matching(es, process_name)[i].spec_priority() >= p,
    decreases es.len(),
{
    if es.len() > 0 {
        assert forall|i: int| 0 <= i < es.drop_last().len() implies #[trigger] es.drop_last()[i].spec_priority() >= p by {
            assert(es.drop_last()[i] == es[i]);
        }
        lemma_matching_bounded_by(es.drop_last(), process_name, p);
        let mi = matching(es.drop_last(), process_name);
        if es.last().spec_matches(process_name) {
            assert(matching(es, process_name) == mi.push(es.last()));
            assert(es.last() == es[es.len() - 1]);
        }
    }
}

/// The built-in enrichers.
#[derive(Clone, Copy, Debug)]
pub enum BuiltinEnricher {
    Chromium(ChromiumEnricher),
    VsCode(VsCodeEnricher),
}

impl ContextEnricher for BuiltinEnricher {
    open spec fn spec_matches(&self, process_name: Seq<char>) -> bool {
        match self {
            BuiltinEnricher::Chromium(e) => e.spec_matches(process_name),
            BuiltinEnricher::VsCode(e) => e.spec_matches(process_name),
        }
    }

    open spec fn spec_priority(&self) -> u32 {
        match self {
            BuiltinEnricher::Chromium(e) => e.spec_priority(),
            BuiltinEnricher::VsCode(e) => e.spec_priority(),
        }
    }

    open spec fn enriches(
        &self,
        before: SnapshotView,
        address_bar: Option<Seq<char>>,
        succeeded: bool,
        after: SnapshotView,
    ) -> bool {
        match self {
            BuiltinEnricher::Chromium(e) => e.enriches(before, address_bar, succeeded, after),
            BuiltinEnricher::VsCode(e) => e.enriches(before, address_bar, succeeded, after),
        }
    }

    open spec fn describes(&self, info: PluginInfo) -> bool {
        match self {
            BuiltinEnricher::Chromium(e) => e.describes(info),
            BuiltinEnricher::VsCode(e) => e.describes(info),
        }
    }

    fn matches(&self, process_name: &str) -> (r: bool) {
        match self {
            BuiltinEnricher::Chromium(e) => e.matches(process_name),
            BuiltinEnricher::VsCode(e) => e.matches(process_name),
        }
    }

    fn enrich(&self, snapshot: &mut ContextSnapshot, probe: &WindowProbe) -> (r: Result<(), ContexaError>) {
        match self {
            BuiltinEnricher::Chromium(e) => e.enrich(snapshot, probe),
            BuiltinEnricher::VsCode(e) => e.enrich(snapshot, probe),
        }
    }

    fn priority(&self) -> (p: u32) {
        match self {
            BuiltinEnricher::Chromium(e) => e.priority(),
            BuiltinEnricher::VsCode(e) => e.priority(),
        }
    }

    fn info(&self) -> (i: PluginInfo)
        ensures
            match self {
                BuiltinEnricher::Chromium(e) => crate::context::chromium::chromium_info(*e, i),
                BuiltinEnricher::VsCode(_) => crate::context::vscode::vscode_info(i),
            },
    {
        match self {
            BuiltinEnricher::Chromium(e) => e.info(),
            BuiltinEnricher::VsCode(e) => e.info(),
        }
    }
}

/// Default time an enricher may take, in milliseconds.
pub const DEFAULT_TIMEOUT_MS: u64 = 20;

/// Settings for running enrichers with error isolation and a time limit.
/// The timed, off-thread execution itself belongs to the application; the
/// library's part is [`apply_enrichment`].
pub struct PluginSandbox {
    /// The time each enricher may take, in milliseconds.
    pub timeout_ms: u64,
}

impl PluginSandbox {
    /// A sandbox that gives each enricher `timeout_ms` milliseconds.
    pub fn new(timeout_ms: u64) -> (s: PluginSandbox)
        ensures
            s.timeout_ms == timeout_ms,
    {
        PluginSandbox { timeout_ms }
    }
}

impl Default for PluginSandbox {
    /// A sandbox giving each enricher the default 20 milliseconds.
    fn default() -> (s: PluginSandbox)
        ensures
            s.timeout_ms == DEFAULT_TIMEOUT_MS,
    {
        PluginSandbox { timeout_ms: DEFAULT_TIMEOUT_MS }
    }
}

/// Runs `enricher` on a copy of `snapshot` and keeps the result only when
/// the enricher succeeds: a failing enricher leaves the snapshot unchanged.
pub fn apply_enrichment<E: ContextEnricher>(enricher: &E, snapshot: &mut ContextSnapshot, probe: &WindowProbe) -> (ok: bool)
    requires
        old(snapshot).wf(),
    ensures
        final(snapshot).wf(),
        ok ==> enricher.enriches(old(snapshot)@, opt_view(probe.address_bar), true, final(snapshot)@),
        !ok ==> final(snapshot)@ == old(snapshot)@ && exists|after: SnapshotView|
            enricher.enriches(old(snapshot)@, opt_view(probe.address_bar), false, after),
{
    let mut working = snapshot.copy();
    match enricher.enrich(&mut working, probe) {
        Ok(()) => {
            *snapshot = working;
            true
        },
        Err(_) => false,
    }
}

} // verus!
