use contexa::commands::{accepted, default_stream, parse_action, rejected};
use contexa::model::TimeRange;
use contexa::orchestrator::decision::{query_implies_history, should_search, DecisionEngine};
use contexa::orchestrator::pipeline::{combine_sources, gather_steps, resolve_context, GatheredSources};
use contexa::orchestrator::requests::RequestTable;
use contexa::types::{
    CaptureMethod, ContexaError, ContextSnapshot, ExecutionPlan, Metadata, RequestAction,
    RequestPreferences, RequestStatus, UserRequest,
};

fn context(visible_text: Option<&str>, selected_text: Option<&str>) -> ContextSnapshot {
    ContextSnapshot {
        id: uuid::Uuid::new_v4().as_u128(),
        timestamp: chrono::Utc::now().timestamp_millis(),
        window_title: "t".to_string(),
        process_name: "p".to_string(),
        process_id: 1,
        hwnd: None,
        url: None,
        document_path: None,
        visible_text: visible_text.map(str::to_string),
        selected_text: selected_text.map(str::to_string),
        metadata: Metadata::new(),
        language: None,
        capture_method: CaptureMethod::Uia,
    }
}

fn request(action: RequestAction, query: Option<&str>) -> UserRequest {
    UserRequest {
        id: uuid::Uuid::new_v4().as_u128(),
        action,
        query: query.map(str::to_string),
        context_override: None,
        preferences: RequestPreferences::default(),
    }
}

// ---- decision ----

#[test]
fn explain_needs_memory_and_context_but_not_search() {
    let plan = DecisionEngine.decide(&request(RequestAction::Explain, None), &context(Some("text"), None));
    assert!(plan.need_context);
    assert!(plan.need_memory);
    assert!(!plan.need_search);
    assert!(!plan.need_ocr);
}

#[test]
fn explain_needs_ocr_when_no_visible_text() {
    let plan = DecisionEngine.decide(&request(RequestAction::Explain, None), &context(None, None));
    assert!(plan.need_ocr);
}

#[test]
fn summarize_does_not_need_memory() {
    let plan = DecisionEngine.decide(&request(RequestAction::Summarize, None), &context(Some("text"), None));
    assert!(!plan.need_memory);
}

#[test]
fn translate_skips_ocr_when_text_is_selected() {
    let action = RequestAction::Translate { target_lang: "fr".to_string() };
    let plan = DecisionEngine.decide(&request(action, None), &context(None, Some("selected")));
    assert!(!plan.need_ocr);
}

#[test]
fn translate_needs_ocr_when_nothing_selected_and_no_visible_text() {
    let action = RequestAction::Translate { target_lang: "fr".to_string() };
    let plan = DecisionEngine.decide(&request(action, None), &context(None, None));
    assert!(plan.need_ocr);
}

#[test]
fn search_action_needs_memory_and_search() {
    let plan = DecisionEngine.decide(&request(RequestAction::Search, Some("rust ownership")), &context(Some("x"), None));
    assert!(plan.need_memory);
    assert!(plan.need_search);
}

#[test]
fn recall_needs_timeline_and_memory_but_not_context_gated_extras() {
    let plan = DecisionEngine.decide(&request(RequestAction::Recall, None), &context(Some("x"), None));
    assert!(plan.need_timeline);
    assert!(plan.need_memory);
    assert!(!plan.need_ocr);
}

#[test]
fn chat_triggers_memory_for_history_flavored_queries() {
    let plan = DecisionEngine.decide(
        &request(RequestAction::Chat, Some("what did I work on yesterday?")),
        &context(Some("x"), None),
    );
    assert!(plan.need_memory);
}

#[test]
fn chat_does_not_trigger_memory_for_unrelated_queries() {
    let plan = DecisionEngine.decide(
        &request(RequestAction::Chat, Some("fix this bug")),
        &context(Some("x"), None),
    );
    assert!(!plan.need_memory);
}

#[test]
fn chat_force_search_preference_overrides_keyword_heuristic() {
    let mut req = request(RequestAction::Chat, Some("fix this bug"));
    req.preferences.force_search = true;
    let plan = DecisionEngine.decide(&req, &context(Some("x"), None));
    assert!(plan.need_search);
}

#[test]
fn ocr_capture_always_needs_ocr() {
    let mut ctx = context(Some("plenty of text"), None);
    ctx.capture_method = CaptureMethod::Ocr;
    let plan = DecisionEngine.decide(&request(RequestAction::Summarize, None), &ctx);
    assert!(plan.need_ocr);
    let blank = context(Some("  \n "), None);
    let plan = DecisionEngine.decide(&request(RequestAction::Summarize, None), &blank);
    assert!(plan.need_ocr);
}

#[test]
fn keywords_are_matched_case_insensitively() {
    assert!(query_implies_history(Some("Do you REMEMBER this?")));
    assert!(!query_implies_history(Some("remind me")));
    assert!(!query_implies_history(None));
    assert!(should_search(Some("Look Up the weather")));
    assert!(should_search(Some("latest news")));
    assert!(!should_search(Some("explain lifetimes")));
    assert!(!should_search(None));
}

#[test]
fn chat_search_keyword_triggers_search() {
    let plan = DecisionEngine.decide(
        &request(RequestAction::Chat, Some("search for rust jobs")),
        &context(Some("x"), None),
    );
    assert!(plan.need_search);
    assert!(!plan.need_memory);
}

// ---- requests ----

#[test]
fn accepted_request_is_recorded_as_planning() {
    let mut table = RequestTable::new();
    let req = request(RequestAction::Explain, None);
    let (plan, handle) = table
        .accept(&req, Some(context(Some("text"), None)), "r1".to_string(), 42)
        .expect("context is available");
    assert!(plan.need_memory);
    assert_eq!(handle.id, "r1");
    assert!(matches!(handle.status, RequestStatus::Planning));
    assert_eq!(handle.started_at, 42);
    let active = table.get_active();
    assert_eq!(active.len(), 1);
    assert_eq!(active[0].id, "r1");
}

#[test]
fn request_without_context_is_refused() {
    let mut table = RequestTable::new();
    let req = request(RequestAction::Chat, Some("hi"));
    let r = table.accept(&req, None, "r1".to_string(), 0);
    assert!(matches!(r, Err(ContexaError::ContextUnavailable)));
    assert!(table.get_active().is_empty());
}

#[test]
fn context_override_takes_precedence() {
    let mut table = RequestTable::new();
    let mut req = request(RequestAction::Summarize, None);
    req.context_override = Some(context(None, None));
    let (plan, _) = table
        .accept(&req, Some(context(Some("usable"), None)), "r1".to_string(), 0)
        .expect("override is a context");
    assert!(plan.need_ocr);
}

#[test]
fn status_updates_and_cancel() {
    let mut table = RequestTable::new();
    let req = request(RequestAction::Search, Some("q"));
    table.accept(&req, Some(context(Some("x"), None)), "a".to_string(), 1).expect("accepted");
    table.accept(&req, Some(context(Some("x"), None)), "b".to_string(), 2).expect("accepted");
    table.set_status("a", RequestStatus::Generating);
    table.set_status("zzz", RequestStatus::Complete);
    assert!(table.cancel("b").is_ok());
    let active = table.get_active();
    assert_eq!(active.len(), 2);
    assert!(matches!(active[0].status, RequestStatus::Generating));
    assert!(matches!(active[1].status, RequestStatus::Cancelled));
}

#[test]
fn cancelling_an_unknown_request_is_an_error() {
    let mut table = RequestTable::new();
    match table.cancel("nope") {
        Err(ContexaError::Conversion(m)) => assert_eq!(m, "unknown request id: nope"),
        other => panic!("unexpected: {other:?}"),
    }
}

#[test]
fn reusing_an_id_replaces_the_request() {
    let mut table = RequestTable::new();
    let req = request(RequestAction::Recall, None);
    table.accept(&req, Some(context(None, None)), "same".to_string(), 1).expect("accepted");
    table.set_status("same", RequestStatus::Failed("boom".to_string()));
    table.accept(&req, Some(context(None, None)), "same".to_string(), 5).expect("accepted");
    let active = table.get_active();
    assert_eq!(active.len(), 1);
    assert_eq!(active[0].started_at, 5);
    assert!(matches!(active[0].status, RequestStatus::Planning));
}

// ---- pipeline ----

#[test]
fn gather_steps_follow_the_plan() {
    let plan = ExecutionPlan {
        need_context: true,
        need_ocr: true,
        need_memory: true,
        need_timeline: true,
        need_search: false,
        need_mcp: false,
    };
    let g = gather_steps(&plan, &Some("rust".to_string()), 1_000_000_000_000);
    assert_eq!(g.memory_query.as_deref(), Some("rust"));
    assert!(g.run_ocr);
    assert_eq!(g.search_query, None);
    let r: TimeRange = g.timeline.expect("recall reads the timeline");
    assert_eq!(r.end, 1_000_000_000_000);
    assert_eq!(r.start, 1_000_000_000_000 - 7 * 86_400_000);
}

#[test]
fn blank_query_skips_searches() {
    let plan = ExecutionPlan {
        need_context: true,
        need_ocr: false,
        need_memory: true,
        need_timeline: false,
        need_search: true,
        need_mcp: false,
    };
    let g = gather_steps(&plan, &Some("   ".to_string()), 0);
    assert_eq!(g.memory_query, None);
    assert_eq!(g.search_query, None);
    assert!(g.timeline.is_none());
    let g = gather_steps(&plan, &None, 0);
    assert_eq!(g.memory_query, None);
}

#[test]
fn resolve_context_prefers_override() {
    let mut req = request(RequestAction::Chat, None);
    assert!(matches!(resolve_context(&req, None), Err(ContexaError::ContextUnavailable)));
    let current = context(Some("current"), None);
    let got = resolve_context(&req, Some(current)).expect("current context");
    assert_eq!(got.visible_text.as_deref(), Some("current"));
    req.context_override = Some(context(Some("override"), None));
    let got = resolve_context(&req, Some(context(Some("current"), None))).expect("override");
    assert_eq!(got.visible_text.as_deref(), Some("override"));
}

#[test]
fn error_messages_match_their_variants() {
    assert_eq!(ContexaError::ContextUnavailable.message(), "Context unavailable");
    assert_eq!(ContexaError::Conversion("x".to_string()).message(), "Conversion error: x");
    assert_eq!(
        ContexaError::LlmProviderError { provider: "openai".to_string(), message: "HTTP 500".to_string() }.message(),
        "LLM provider error (openai): HTTP 500"
    );
    assert_eq!(ContexaError::TaskJoin("t".to_string()).message(), "Background task failed: t");
}

// ---- desktop commands ----

#[test]
fn actions_parse_by_name() {
    assert!(matches!(parse_action("chat", None), Ok(RequestAction::Chat)));
    assert!(matches!(parse_action("explain", None), Ok(RequestAction::Explain)));
    assert!(matches!(parse_action("summarize", None), Ok(RequestAction::Summarize)));
    assert!(matches!(parse_action("search", None), Ok(RequestAction::Search)));
    assert!(matches!(parse_action("recall", None), Ok(RequestAction::Recall)));
    match parse_action("translate", Some("fr".to_string())) {
        Ok(RequestAction::Translate { target_lang }) => assert_eq!(target_lang, "fr"),
        other => panic!("unexpected {other:?}"),
    }
    assert_eq!(
        parse_action("translate", None).unwrap_err(),
        "target_lang is required for the translate action"
    );
    assert_eq!(parse_action("dance", None).unwrap_err(), "unknown action: dance");
    assert_eq!(parse_action("Chat", None).unwrap_err(), "unknown action: Chat");
}

#[test]
fn command_responses() {
    assert!(default_stream());
    let r = rejected("no context".to_string());
    assert_eq!(r.request_id, "");
    assert_eq!(r.status, "rejected");
    assert_eq!(r.reason.as_deref(), Some("no context"));
    let a = accepted("id-1".to_string());
    assert_eq!(a.request_id, "id-1");
    assert_eq!(a.status, "accepted");
    assert_eq!(a.reason, None);
}

#[test]
fn failed_ocr_or_search_proceeds_with_local_context() {
    let r: Result<GatheredSources<u32, &str, &str, u8>, String> = combine_sources::<u32, &str, &str, u8, String, String>(
        Some(Ok(vec![1, 2])),
        Some(Err("ocr down".to_string())),
        Some(Err("rate limited".to_string())),
        Some(Ok(7)),
    );
    let g = r.unwrap();
    assert_eq!(g.memory, vec![1, 2]);
    assert_eq!(g.ocr, None);
    assert_eq!(g.search, None);
    assert_eq!(g.timeline, Some(7));
}

#[test]
fn successful_sources_are_all_kept() {
    let r: Result<GatheredSources<u32, &str, &str, u8>, String> =
        combine_sources::<u32, &str, &str, u8, String, String>(None, Some(Ok("text")), Some(Ok("hits")), None);
    let g = r.unwrap();
    assert!(g.memory.is_empty());
    assert_eq!(g.ocr, Some("text"));
    assert_eq!(g.search, Some("hits"));
    assert_eq!(g.timeline, None);
}

#[test]
fn failed_memory_or_timeline_fails_the_request() {
    let r: Result<GatheredSources<u32, &str, &str, u8>, String> =
        combine_sources::<u32, &str, &str, u8, String, String>(Some(Err("db".to_string())), None, None, Some(Err("later".to_string())));
    assert_eq!(r.err(), Some("db".to_string()));
    let r: Result<GatheredSources<u32, &str, &str, u8>, String> =
        combine_sources::<u32, &str, &str, u8, String, String>(Some(Ok(vec![])), None, None, Some(Err("timeline".to_string())));
    assert_eq!(r.err(), Some("timeline".to_string()));
}
