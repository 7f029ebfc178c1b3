//! The decision engine: which sources a request needs.
//!
//! Two of its inputs are heuristics. Whether UI Automation produced usable
//! text stands in for a per-window confidence score: the score is 1 when the
//! snapshot was not captured by OCR alone and holds non-blank visible text,
//! 0 otherwise, and OCR is needed when it is below one half, that is when it
//! is 0. Whether a query implies history or a web search is decided by
//! keywords in its lowercase form.

use vstd::prelude::*;
use crate::text::{contains_chars, chars_of, contains_seq, is_blank, str_is_blank, to_lowercase, unicode_lowercase};
use crate::types::{CaptureMethod, ContextSnapshot, ExecutionPlan, RequestAction, SnapshotView, UserRequest};

verus! {

/// Whether UI Automation produced usable text for the snapshot.
pub open spec fn uia_usable(s: SnapshotView) -> bool {
    s.capture_method != CaptureMethod::Ocr && (s.visible_text matches Some(t) && !is_blank(t))
}

/// Keywords that make a query about the user's own history.
pub open spec fn history_keywords() -> Seq<Seq<char>> {
    seq![
        "yesterday"@,
        "earlier"@,
        "before"@,
        "previously"@,
        "last time"@,
        "remember"@,
        "what did i"@,
    ]
}

/// Keywords that make a query call for a web search.
pub open spec fn search_keywords() -> Seq<Seq<char>> {
    seq!["search for"@, "look up"@, "latest"@, "current price"@, "news about"@]
}

/// Whether `text` contains one of `keywords`.
pub open spec fn mentions_any(text: Seq<char>, keywords: Seq<Seq<char>>) -> bool {
    exists|i: int| 0 <= i < keywords.len() && contains_seq(text, #[trigger] keywords[i])
}

/// Whether a query, in lowercase, contains one of `keywords`; no query
/// contains none.
pub open spec fn query_mentions(query: Option<Seq<char>>, keywords: Seq<Seq<char>>) -> bool {
    match query {
        Some(q) => mentions_any(unicode_lowercase(q), keywords),
        None => false,
    }
}

/// The plan for a request in the given context.
pub open spec fn plan_for(
    action: RequestAction,
    query: Option<Seq<char>>,
    force_search: bool,
    s: SnapshotView,
) -> ExecutionPlan {
    let none = ExecutionPlan {
        need_context: true,
        need_ocr: false,
        need_memory: false,
        need_timeline: false,
        need_search: false,
        need_mcp: false,
    };
    match action {
        RequestAction::Explain => ExecutionPlan { need_ocr: !uia_usable(s), need_memory: true, ..none },
        RequestAction::Summarize => ExecutionPlan { need_ocr: !uia_usable(s), ..none },
        RequestAction::Translate { .. } => ExecutionPlan {
            need_ocr: s.selected_text is None && !uia_usable(s),
            ..none
        },
        RequestAction::Search => ExecutionPlan { need_memory: true, need_search: true, ..none },
        RequestAction::Recall => ExecutionPlan { need_timeline: true, need_memory: true, ..none },
        RequestAction::Chat => ExecutionPlan {
            need_ocr: !uia_usable(s),
            need_memory: query_mentions(query, history_keywords()),
            need_search: force_search || query_mentions(query, search_keywords()),
            ..none
        },
    }
}

/// Whether UI Automation produced usable text for `context`.
fn uia_text_usable(context: &ContextSnapshot) -> (b: bool)
    ensures
        b == uia_usable(context@),
{
    let by_ocr = match context.capture_method {
        CaptureMethod::Ocr => true,
        _ => false,
    };
    if by_ocr {
        return false;
    }
    match &context.visible_text {
        Some(t) => !str_is_blank(t.as_str()),
        None => false,
    }
}

/// Whether `text` contains one of `keywords`.
fn mentions_any_of(text: &Vec<char>, keywords: &Vec<&str>) -> (b: bool)
    ensures
        b == mentions_any(text@, keywords@.map_values(|k: &str| k@)),
{
    let ghost kws = keywords@.map_values(|k: &str| k@);
    let mut i: usize = 0;
    while i < keywords.len()
        invariant
            i <= keywords.len(),
            kws == keywords@.map_values(|k: &str| k@),
            forall|j: int| 0 <= j < i ==> !contains_seq(text@, #[trigger] kws[j]),
        decreases keywords.len() - i,
    {
        let kw = chars_of(keywords[i]);
        if contains_chars(text, &kw) {
            assert(contains_seq(text@, kws[i as int]));
            return true;
        }
        i += 1;
    }
    false
}

/// Whether the lowercase query contains one of `keywords`.
fn query_mentions_any(query: Option<&str>, keywords: &Vec<&str>) -> (b: bool)
    ensures
        b == query_mentions(
            match query {
                Some(q) => Some(q@),
                None => None,
            },
            keywords@.map_values(|k: &str| k@),
        ),
{
    match query {
        Some(q) => {
            let lower = to_lowercase(q);
            let text = chars_of(lower.as_str());
            mentions_any_of(&text, keywords)
        },
        None => false,
    }
}

/// Whether the query asks about the user's own history.
pub fn query_implies_history(query: Option<&str>) -> (b: bool)
    ensures
        b == query_mentions(
            match query {
                Some(q) => Some(q@),
                None => None,
            },
            history_keywords(),
        ),
{
    let keywords: Vec<&str> = vec![
        "yesterday",
        "earlier",
        "before",
        "previously",
        "last time",
        "remember",
        "what did i",
    ];
    assert(keywords@.map_values(|k: &str| k@) =~= history_keywords());
    query_mentions_any(query, &keywords)
}

/// Whether the query calls for a web search.
pub fn should_search(query: Option<&str>) -> (b: bool)
    ensures
        b == query_mentions(
            match query {
                Some(q) => Some(q@),
                None => None,
            },
            search_keywords(),
        ),
{
    let keywords: Vec<&str> = vec!["search for", "look up", "latest", "current price", "news about"];
    assert(keywords@.map_values(|k: &str| k@) =~= search_keywords());
    query_mentions_any(query, &keywords)
}

/// Decides which sources a request needs.
#[derive(Clone, Copy, Debug)]
pub struct DecisionEngine;

impl DecisionEngine {
    /// The execution plan for `request` in `context`: context always;
    /// OCR when UI Automation text is not usable (for a translation, only
    /// when nothing is selected either); memory for explanations, searches,
    /// recalls and history-flavoured chats; search for searches and for chats
    /// that force it or ask for it; the timeline for recalls.
    pub fn decide(&self, request: &UserRequest, context: &ContextSnapshot) -> (plan: ExecutionPlan)
        ensures
            plan == plan_for(
                request.action,
                crate::text::opt_view(request.query),
                request.preferences.force_search,
                context@,
            ),
    {
        let mut plan = ExecutionPlan {
            need_context: true,
            need_ocr: false,
            need_memory: false,
            need_timeline: false,
            need_search: false,
            need_mcp: false,
        };
        let query: Option<&str> = match &request.query {
            Some(q) => Some(q.as_str()),
            None => None,
        };
        match &request.action {
            RequestAction::Explain => {
                plan.need_ocr = !uia_text_usable(context);
                plan.need_memory = true;
            },
            RequestAction::Summarize => {
                plan.need_ocr = !uia_text_usable(context);
            },
            RequestAction::Translate { .. } => {
                plan.need_ocr = context.selected_text.is_none() && !uia_text_usable(context);
            },
            RequestAction::Search => {
                plan.need_memory = true;
                plan.need_search = true;
            },
            RequestAction::Recall => {
                plan.need_timeline = true;
                plan.need_memory = true;
            },
            RequestAction::Chat => {
                plan.need_ocr = !uia_text_usable(context);
                plan.need_memory = query_implies_history(query);
                plan.need_search = request.preferences.force_search || should_search(query);
            },
        }
        plan
    }
}

/// Every plan gathers the current context and none calls out over MCP.
pub proof fn law_every_plan_needs_context(
    action: RequestAction,
    query: Option<Seq<char>>,
    force_search: bool,
    s: SnapshotView,
)
    ensures
        plan_for(action, query, force_search, s).need_context,
        !plan_for(action, query, force_search, s).need_mcp,
{
}

/// OCR is only ever planned when UI Automation gave no usable text, and a
/// translation of selected text never needs it.
pub proof fn law_ocr_only_without_usable_text(
    action: RequestAction,
    query: Option<Seq<char>>,
    force_search: bool,
    s: SnapshotView,
)
    ensures
        plan_for(action, query, force_search, s).need_ocr ==> !uia_usable(s),
        (action is Translate && s.selected_text is Some) ==> !plan_for(action, query, force_search, s).need_ocr,
{
}

/// A chat that forces search always searches, whatever its query says.
pub proof fn law_forced_search_searches(query: Option<Seq<char>>, s: SnapshotView)
    ensures
        plan_for(RequestAction::Chat, query, true, s).need_search,
{
}

/// A chat needs memory exactly when its query, in lowercase, mentions the
/// user's history: "yesterday", "earlier", "before", "previously", "last
/// time", "remember" or "what did i". Any other request keeps its fixed
/// memory need.
pub proof fn law_history_words_need_memory(q: Seq<char>, force_search: bool, s: SnapshotView)
    ensures
        plan_for(RequestAction::Chat, Some(q), force_search, s).need_memory <==> {
            let l = unicode_lowercase(q);
            ||| contains_seq(l, "yesterday"@)
            ||| contains_seq(l, "earlier"@)
            ||| contains_seq(l, "before"@)
            ||| contains_seq(l, "previously"@)
            ||| contains_seq(l, "last time"@)
            ||| contains_seq(l, "remember"@)
            ||| contains_seq(l, "what did i"@)
        },
        !plan_for(RequestAction::Chat, None, force_search, s).need_memory,
{
    let kw = history_keywords();
    assert(kw.len() == 7);
    assert(kw[0] == "yesterday"@);
    assert(kw[1] == "earlier"@);
    assert(kw[2] == "before"@);
    assert(kw[3] == "previously"@);
    assert(kw[4] == "last time"@);
    assert(kw[5] == "remember"@);
    assert(kw[6] == "what did i"@);
}

/// A chat that does not force search searches exactly when its query, in
/// lowercase, asks for it: "search for", "look up", "latest", "current
/// price" or "news about".
pub proof fn law_search_words_need_search(q: Seq<char>, s: SnapshotView)
    ensures
        plan_for(RequestAction::Chat, Some(q), false, s).need_search <==> {
            let l = unicode_lowercase(q);
            ||| contains_seq(l, "search for"@)
            ||| contains_seq(l, "look up"@)
            ||| contains_seq(l, "latest"@)
            ||| contains_seq(l, "current price"@)
            ||| contains_seq(l, "news about"@)
        },
        !plan_for(RequestAction::Chat, None, false, s).need_search,
{
    let kw = search_keywords();
    assert(kw.len() == 5);
    assert(kw[0] == "search for"@);
    assert(kw[1] == "look up"@);
    assert(kw[2] == "latest"@);
    assert(kw[3] == "current price"@);
    assert(kw[4] == "news about"@);
}

} // verus!
