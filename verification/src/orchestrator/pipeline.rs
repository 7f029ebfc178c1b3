//! What the pipeline gathers for a planned request before the prompt is
//! built. The application performs each step (memory search, OCR, web
//! search, timeline read) and builds the prompt from what they return.

use vstd::prelude::*;
use crate::model::TimeRange;
use crate::text::{is_blank, opt_view, str_is_blank};
use crate::types::{ContexaError, ContextSnapshot, ExecutionPlan, UserRequest};

verus! {

/// How far back a recall looks, in days.
pub const DEFAULT_TIMELINE_LOOKBACK_DAYS: i64 = 7;
/// The recall window in milliseconds.
pub const TIMELINE_LOOKBACK_MS: i64 = 604_800_000;

/// The steps the pipeline performs for one request.
#[derive(Debug)]
pub struct GatherSteps {
    /// The query to search memory with, if memory is searched.
    pub memory_query: Option<String>,
    /// Whether the window is read by OCR.
    pub run_ocr: bool,
    /// The query to search the web with, if the web is searched.
    pub search_query: Option<String>,
    /// The timeline range to read, if the timeline is read.
    pub timeline: Option<TimeRange>,
}

/// The query, when it holds more than white space.
pub open spec fn usable_query(query: Option<Seq<char>>) -> Option<Seq<char>> {
    match query {
        Some(q) => if is_blank(q) { None } else { Some(q) },
        None => None,
    }
}

/// The steps for `plan` and `query` at time `now`: memory and web searches
/// need a non-blank query; OCR follows the plan; a recall reads the last
/// seven days up to `now`.
pub open spec fn steps_for(plan: ExecutionPlan, query: Option<Seq<char>>, now: i64) -> (
    Option<Seq<char>>,
    bool,
    Option<Seq<char>>,
    Option<TimeRange>,
) {
    (
        if plan.need_memory { usable_query(query) } else { None },
        plan.need_ocr,
        if plan.need_search { usable_query(query) } else { None },
        if plan.need_timeline {
            Some(TimeRange { start: (now - TIMELINE_LOOKBACK_MS) as i64, end: now })
        } else {
            None
        },
    )
}

/// The view of the steps.
pub open spec fn steps_view(g: GatherSteps) -> (Option<Seq<char>>, bool, Option<Seq<char>>, Option<TimeRange>) {
    (opt_view(g.memory_query), g.run_ocr, opt_view(g.search_query), g.timeline)
}

/// The query, when it holds more than white space.
fn usable(query: &Option<String>) -> (r: Option<String>)
    ensures
        opt_view(r) == usable_query(opt_view(*query)),
{
    match query {
        Some(q) => if str_is_blank(q.as_str()) {
            None
        } else {
            Some(q.clone())
        },
        None => None,
    }
}

/// The steps the pipeline performs for `plan` and `query` at time `now`.
pub fn gather_steps(plan: &ExecutionPlan, query: &Option<String>, now: i64) -> (g: GatherSteps)
    requires
        now >= i64::MIN + TIMELINE_LOOKBACK_MS,
    ensures
        steps_view(g) == steps_for(*plan, opt_view(*query), now),
{
    let memory_query = if plan.need_memory { usable(query) } else { None };
    let search_query = if plan.need_search { usable(query) } else { None };
    let timeline = if plan.need_timeline {
        Some(TimeRange { start: now - TIMELINE_LOOKBACK_MS, end: now })
    } else {
        None
    };
    GatherSteps { memory_query, run_ocr: plan.need_ocr, search_query, timeline }
}

/// The context a request runs against: its override, else the current
/// snapshot; with neither the request fails as context-unavailable.
pub fn resolve_context(request: &UserRequest, current: Option<ContextSnapshot>) -> (r: Result<
    ContextSnapshot,
    ContexaError,
>)
    ensures
        match request.context_override {
            Some(c) => r matches Ok(s) && s@ == c@,
            None => match current {
                Some(c) => r matches Ok(s) && s@ == c@,
                None => r matches Err(ContexaError::ContextUnavailable),
            },
        },
{
    match &request.context_override {
        Some(c) => Ok(c.copy()),
        None => match current {
            Some(c) => Ok(c),
            None => Err(ContexaError::ContextUnavailable),
        },
    }
}

/// What the prompt is built from once the steps have run.
#[derive(Debug)]
pub struct GatheredSources<M, O, S, L> {
    /// The memories found (none when memory was not searched).
    pub memory: Vec<M>,
    /// The OCR reading, when OCR ran and succeeded.
    pub ocr: Option<O>,
    /// The web search results, when the search ran and succeeded.
    pub search: Option<S>,
    /// The timeline read, when it was read.
    pub timeline: Option<L>,
}

/// What a step that may degrade contributes: its result when it ran and
/// succeeded, nothing when it failed or did not run.
pub open spec fn degraded<T, Y>(outcome: Option<Result<T, Y>>) -> Option<T> {
    match outcome {
        Some(Ok(t)) => Some(t),
        _ => None,
    }
}

/// Combines the outcomes of the steps (`None` for a step that did not run),
/// in the order they run: memory search, OCR, web search, timeline. A
/// failed memory search or timeline read fails the request; a failed OCR
/// or web search only leaves its source out, and the request proceeds with
/// the local context.
pub fn combine_sources<M, O, S, L, X, Y>(
    memory: Option<Result<Vec<M>, X>>,
    ocr: Option<Result<O, Y>>,
    search: Option<Result<S, Y>>,
    timeline: Option<Result<L, X>>,
) -> (r: Result<GatheredSources<M, O, S, L>, X>)
    ensures
        match memory {
            Some(Err(e)) => r == Err::<GatheredSources<M, O, S, L>, X>(e),
            _ => match timeline {
                Some(Err(e)) => r == Err::<GatheredSources<M, O, S, L>, X>(e),
                _ => r matches Ok(g) && {
                    &&& g.memory@ == match memory {
                        Some(Ok(v)) => v@,
                        _ => Seq::<M>::empty(),
                    }
                    &&& g.ocr == degraded(ocr)
                    &&& g.search == degraded(search)
                    &&& g.timeline == degraded(timeline)
                },
            },
        },
{
    let memory = match memory {
        Some(Err(e)) => return Err(e),
        Some(Ok(v)) => v,
        None => Vec::new(),
    };
    let ocr = match ocr {
        Some(Ok(o)) => Some(o),
        _ => None,
    };
    let search = match search {
        Some(Ok(found)) => Some(found),
        _ => None,
    };
    let timeline = match timeline {
        Some(Err(e)) => return Err(e),
        Some(Ok(t)) => Some(t),
        None => None,
    };
    Ok(GatheredSources { memory, ocr, search, timeline })
}

/// The recall window always ends at `now` and spans seven days.
pub proof fn law_recall_window_spans_a_week(plan: ExecutionPlan, query: Option<Seq<char>>, now: i64)
    requires
        plan.need_timeline,
        now >= i64::MIN + TIMELINE_LOOKBACK_MS,
    ensures
        steps_for(plan, query, now).3 matches Some(r) && r.end == now && r.end - r.start
            == DEFAULT_TIMELINE_LOOKBACK_DAYS * 86_400_000,
{
}

/// Each source is gathered on its own terms, whatever else the plan needs:
/// the web is searched with the query exactly when the plan needs search
/// and the query is not blank, memory likewise when the plan needs memory,
/// and OCR runs exactly when the plan needs it.
pub proof fn law_each_source_follows_its_own_need(plan: ExecutionPlan, q: Seq<char>, now: i64)
    ensures
        plan.need_search && !is_blank(q) ==> steps_for(plan, Some(q), now).2 == Some(q),
        !plan.need_search || is_blank(q) ==> steps_for(plan, Some(q), now).2 is None,
        steps_for(plan, None, now).2 is None,
        plan.need_memory && !is_blank(q) ==> steps_for(plan, Some(q), now).0 == Some(q),
        !plan.need_memory || is_blank(q) ==> steps_for(plan, Some(q), now).0 is None,
        steps_for(plan, None, now).0 is None,
        steps_for(plan, Some(q), now).1 == plan.need_ocr,
        steps_for(plan, Some(q), now).3 is Some <==> plan.need_timeline,
{
}

} // verus!
