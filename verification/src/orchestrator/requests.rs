//! The table of requests the orchestrator has accepted, and the decisions
//! taken when a request arrives. Running a request's pipeline, the
//! concurrency limit and cancelling the running task are the application's
//! part: it reports each step back through [`RequestTable::set_status`].

use vstd::prelude::*;
use crate::orchestrator::decision::{plan_for, DecisionEngine};
use crate::text::{opt_view, str_eq};
use crate::types::{
    status_view, ContexaError, ContextSnapshot, ExecutionPlan, RequestHandle, RequestStatus,
    SnapshotView, StatusView, UserRequest,
};

verus! {

/// What the table records of a request.
pub struct HandleView {
    pub id: Seq<char>,
    pub status: StatusView,
    pub started_at: i64,
}

impl View for RequestHandle {
    type V = HandleView;

    open spec fn view(&self) -> HandleView {
        HandleView { id: self.id@, status: status_view(self.status), started_at: self.started_at }
    }
}

/// No two entries share an id.
pub open spec fn ids_unique(s: Seq<HandleView>) -> bool {
    forall|i: int, j: int|
        0 <= i < s.len() && 0 <= j < s.len() && i != j ==> #[trigger] s[i].id != #[trigger] s[j].id
}

/// Whether some entry has this id.
pub open spec fn has_id(s: Seq<HandleView>, id: Seq<char>) -> bool {
    exists|i: int| 0 <= i < s.len() && (#[trigger] s[i]).id == id
}

/// The position of the entry with this id (meaningful when there is one).
pub open spec fn slot_of(s: Seq<HandleView>, id: Seq<char>) -> int {
    choose|i: int| 0 <= i < s.len() && (#[trigger] s[i]).id == id
}

/// The entries after recording `h`: it replaces the entry with its id, or
/// is appended when there is none.
pub open spec fn after_insert(s: Seq<HandleView>, h: HandleView) -> Seq<HandleView> {
    if has_id(s, h.id) {
        s.update(slot_of(s, h.id), h)
    } else {
        s.push(h)
    }
}

/// The entries after setting the status of the request `id`, if recorded.
pub open spec fn after_status(s: Seq<HandleView>, id: Seq<char>, status: StatusView) -> Seq<HandleView> {
    if has_id(s, id) {
        let i = slot_of(s, id);
        s.update(i, HandleView { status, ..s[i] })
    } else {
        s
    }
}

/// The error for a request id that is not recorded.
pub open spec fn unknown_request_text(id: Seq<char>) -> Seq<char> {
    "unknown request id: "@ + id
}

/// The context a request is planned against: its override, else the
/// current snapshot.
pub open spec fn planning_context(
    override_ctx: Option<SnapshotView>,
    current: Option<SnapshotView>,
) -> Option<SnapshotView> {
    match override_ctx {
        Some(c) => Some(c),
        None => current,
    }
}

/// The requests accepted so far, each with its current status.
pub struct RequestTable {
    entries: Vec<RequestHandle>,
}

impl RequestTable {
    /// The recorded requests, in the order they were first accepted.
    pub closed spec fn handles(&self) -> Seq<HandleView> {
        self.entries@.map_values(|h: RequestHandle| h@)
    }

    /// The table's invariant: ids are unique.
    pub closed spec fn wf(&self) -> bool {
        ids_unique(self.handles())
    }

    /// An empty table.
    pub fn new() -> (t: RequestTable)
        ensures
            t.wf(),
            t.handles().len() == 0,
    {
        let t = RequestTable { entries: Vec::new() };
        assert(t.handles() =~= Seq::<HandleView>::empty());
        t
    }

    /// The position of the request `id`, if recorded.
    fn find(&self, id: &str) -> (r: Option<usize>)
        requires
            self.wf(),
        ensures
            match r {
                Some(i) => has_id(self.handles(), id@) && i == slot_of(self.handles(), id@),
                None => !has_id(self.handles(), id@),
            },
    {
        let ghost hs = self.handles();
        let mut i: usize = 0;
        while i < self.entries.len()
            invariant
                i <= self.entries.len(),
                hs == self.handles(),
                hs.len() == self.entries.len(),
                ids_unique(hs),
                forall|j: int| 0 <= j < i ==> (#[trigger] hs[j]).id != id@,
            decreases self.entries.len() - i,
        {
            if str_eq(self.entries[i].id.as_str(), id) {
                assert(hs[i as int].id == id@);
                let ghost k = slot_of(hs, id@);
                assert(hs[k].id == id@);
                return Some(i);
            }
            i += 1;
        }
        proof {
            if has_id(hs, id@) {
                let k = choose|k: int| 0 <= k < hs.len() && (#[trigger] hs[k]).id == id@;
                assert(hs[k].id != id@);
            }
        }
        None
    }

    /// Records `handle`, replacing the request with the same id if there
    /// is one.
    pub fn insert(&mut self, handle: RequestHandle)
        requires
            old(self).wf(),
        ensures
            final(self).wf(),
            final(self).handles() == after_insert(old(self).handles(), handle@),
    {
        let ghost hs = self.handles();
        let ghost h = handle@;
        match self.find(handle.id.as_str()) {
            Some(i) => {
                self.entries.set(i, handle);
                assert(self.handles() =~= hs.update(i as int, h));
            },
            None => {
                self.entries.push(handle);
                assert(self.handles() =~= hs.push(h));
            },
        }
        proof {
            lemma_insert_keeps_unique(hs, h);
        }
    }

    /// Sets the status of the request `id`; an unknown id is ignored.
    pub fn set_status(&mut self, id: &str, status: RequestStatus)
        requires
            old(self).wf(),
        ensures
            final(self).wf(),
            final(self).handles() == after_status(old(self).handles(), id@, status_view(status)),
    {
        let ghost hs = self.handles();
        let ghost st = status_view(status);
        if let Some(i) = self.find(id) {
            let updated = RequestHandle {
                id: self.entries[i].id.clone(),
                status,
                started_at: self.entries[i].started_at,
            };
            self.entries.set(i, updated);
            assert(self.handles() =~= hs.update(i as int, HandleView { status: st, ..hs[i as int] }));
        }
        proof {
            lemma_status_keeps_unique(hs, id@, st);
        }
    }

    /// Marks the request `id` cancelled. An unknown id is an error and
    /// changes nothing.
    pub fn cancel(&mut self, id: &str) -> (r: Result<(), ContexaError>)
        requires
            old(self).wf(),
        ensures
            final(self).wf(),
            has_id(old(self).handles(), id@) ==> r is Ok && final(self).handles() == after_status(
                old(self).handles(),
                id@,
                StatusView::Cancelled,
            ),
            !has_id(old(self).handles(), id@) ==> final(self).handles() == old(self).handles() && (
            r matches Err(ContexaError::Conversion(m)) && m@ == unknown_request_text(id@)),
    {
        match self.find(id) {
            Some(_) => {
                self.set_status(id, RequestStatus::Cancelled);
                Ok(())
            },
            None => {
                let mut m = String::from_str("unknown request id: ");
                m.append(id);
                Err(ContexaError::Conversion(m))
            },
        }
    }

    /// Every recorded request with its status.
    pub fn get_active(&self) -> (r: Vec<RequestHandle>)
        ensures
            r@.map_values(|h: RequestHandle| h@) == self.handles(),
    {
        let mut out: Vec<RequestHandle> = Vec::new();
        let mut i: usize = 0;
        while i < self.entries.len()
            invariant
                i <= self.entries.len(),
                out@.map_values(|h: RequestHandle| h@) == self.handles().subrange(0, i as int),
            decreases self.entries.len() - i,
        {
            let h = self.entries[i].copy();
            assert(h@ == self.handles()[i as int]);
            let ghost prev = out@;
            out.push(h);
            assert(out@.map_values(|h: RequestHandle| h@) =~= prev.map_values(|h: RequestHandle| h@).push(h@));
            assert(self.handles().subrange(0, i + 1) =~= self.handles().subrange(0, i as int).push(h@));
            i += 1;
        }
        assert(self.handles().subrange(0, self.entries.len() as int) =~= self.handles());
        out
    }

    /// Accepts a request: plans it against its context override, else the
    /// current snapshot, and records it as planning under `id`, started at
    /// `now`. Without any context the request is refused and nothing is
    /// recorded.
    pub fn accept(
        &mut self,
        request: &UserRequest,
        current: Option<ContextSnapshot>,
        id: String,
        now: i64,
    ) -> (r: Result<(ExecutionPlan, RequestHandle), ContexaError>)
        requires
            old(self).wf(),
        ensures
            final(self).wf(),
            match planning_context(
                match request.context_override {
                    Some(c) => Some(c@),
                    None => None,
                },
                match current {
                    Some(c) => Some(c@),
                    None => None,
                },
            ) {
                None => r matches Err(ContexaError::ContextUnavailable) && final(self).handles() == old(
                    self,
                ).handles(),
                Some(ctx) => r matches Ok((plan, handle)) && {
                    &&& plan == plan_for(
                        request.action,
                        opt_view(request.query),
                        request.preferences.force_search,
                        ctx,
                    )
                    &&& handle@ == (HandleView { id: id@, status: StatusView::Planning, started_at: now })
                    &&& final(self).handles() == after_insert(old(self).handles(), handle@)
                },
            },
    {
        let context = match &request.context_override {
            Some(c) => c.copy(),
            None => match current {
                Some(c) => c,
                None => {
                    return Err(ContexaError::ContextUnavailable);
                },
            },
        };
        let plan = DecisionEngine.decide(request, &context);
        let handle = RequestHandle { id, status: RequestStatus::Planning, started_at: now };
        self.insert(handle.copy());
        Ok((plan, handle))
    }
}

impl Default for RequestTable {
    /// Same as `new`.
    fn default() -> (t: Self)
        ensures
            t.wf(),
            t.handles().len() == 0,
    {
        Self::new()
    }
}

/// Recording a request keeps ids unique.
proof fn lemma_insert_keeps_unique(s: Seq<HandleView>, h: HandleView)
    requires
        ids_unique(s),
    ensures
        ids_unique(after_insert(s, h)),
{
    if has_id(s, h.id) {
        let k = slot_of(s, h.id);
        assert(s[k].id == h.id);
    }
}

/// Changing a status keeps ids unique.
proof fn lemma_status_keeps_unique(s: Seq<HandleView>, id: Seq<char>, st: StatusView)
    requires
        ids_unique(s),
    ensures
        ids_unique(after_status(s, id, st)),
{
    if has_id(s, id) {
        let k = slot_of(s, id);
        assert(s[k].id == id);
        let t = after_status(s, id, st);
        assert forall|i: int, j: int| 0 <= i < t.len() && 0 <= j < t.len() && i != j implies #[trigger] t[i].id != #[trigger] t[j].id by {
            assert(t[i].id == s[i].id);
            assert(t[j].id == s[j].id);
        }
    }
}

/// A recorded request can be read back: after recording `h`, the entry
/// with its id is `h`, and the table still has unique ids.
pub proof fn law_recorded_request_reads_back(s: Seq<HandleView>, h: HandleView)
    requires
        ids_unique(s),
    ensures
        ids_unique(after_insert(s, h)),
        has_id(after_insert(s, h), h.id),
        after_insert(s, h)[slot_of(after_insert(s, h), h.id)] == h,
{
    lemma_insert_keeps_unique(s, h);
    let t = after_insert(s, h);
    let i = if has_id(s, h.id) { slot_of(s, h.id) } else { s.len() as int };
    if has_id(s, h.id) {
        assert(s[slot_of(s, h.id)].id == h.id);
    }
    assert(t[i] == h);
    assert(has_id(t, h.id));
    let k = slot_of(t, h.id);
    assert(t[k].id == h.id);
}

/// Changing the status of one request leaves every other request as it
/// was, and a cancelled request reads back as cancelled.
pub proof fn law_status_change_is_local(s: Seq<HandleView>, id: Seq<char>, st: StatusView, other: int)
    requires
        ids_unique(s),
        has_id(s, id),
        0 <= other < s.len(),
        s[other].id != id,
    ensures
        after_status(s, id, st)[other] == s[other],
        after_status(s, id, st)[slot_of(s, id)].status == st,
        after_status(s, id, st)[slot_of(s, id)].id == id,
{
    let k = slot_of(s, id);
    assert(s[k].id == id);
}

} // verus!
