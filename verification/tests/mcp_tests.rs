use contexa::mcp::auth::{first_matching_token, generate_raw_token, hash_token, TokenCache};
use contexa::mcp::tools::{
    visible_text_result, GetRecentContextRequest, GetTimelineRequest, GetVisibleTextRequest,
    SearchContextRequest,
};
use contexa::model::TokenInfo;
use contexa::types::{CaptureMethod, ContextSnapshot, Metadata};

fn snapshot(text: Option<&str>) -> ContextSnapshot {
    ContextSnapshot {
        id: 1,
        timestamp: 0,
        window_title: "w".to_string(),
        process_name: "p.exe".to_string(),
        process_id: 1,
        hwnd: None,
        url: None,
        document_path: None,
        visible_text: text.map(str::to_string),
        selected_text: None,
        metadata: Metadata::new(),
        language: None,
        capture_method: CaptureMethod::Hybrid,
    }
}

fn token_row(id: &str, hash: &str) -> TokenInfo {
    TokenInfo {
        id: id.to_string(),
        token_hash: hash.to_string(),
        label: "Cursor".to_string(),
        created_at: 0,
        last_used_at: None,
        revoked: false,
    }
}

// ---- tool arguments ----

#[test]
fn defaults_apply_when_arguments_are_missing() {
    assert_eq!(GetVisibleTextRequest { max_length: None }.max_chars(), 10_000);
    assert_eq!(GetVisibleTextRequest { max_length: Some(5) }.max_chars(), 5);
    assert_eq!(GetRecentContextRequest { minutes: None }.window_minutes(), 30);
    assert_eq!(GetRecentContextRequest { minutes: Some(90) }.window_minutes(), 90);
    assert_eq!(GetRecentContextRequest { minutes: Some(10_000) }.window_minutes(), 1440);
    assert_eq!(GetRecentContextRequest { minutes: Some(10_000) }.summary(), r#"{"minutes":1440}"#);
    let t = GetTimelineRequest { start: String::new(), end: String::new(), limit: None };
    assert_eq!(t.event_limit(), 50);
    let s = SearchContextRequest { query: "q".to_string(), limit: None };
    assert_eq!(s.result_limit(), 10);
}

#[test]
fn audit_summaries_are_json_shaped() {
    assert_eq!(GetVisibleTextRequest { max_length: None }.summary(), r#"{"max_length":10000}"#);
    assert_eq!(GetRecentContextRequest { minutes: Some(15) }.summary(), r#"{"minutes":15}"#);
    let t = GetTimelineRequest {
        start: "2024-01-01T00:00:00Z".to_string(),
        end: "2024-01-02T00:00:00Z".to_string(),
        limit: Some(3),
    };
    assert_eq!(
        t.summary(),
        r#"{"start":"2024-01-01T00:00:00Z","end":"2024-01-02T00:00:00Z","limit":3}"#
    );
    let s = SearchContextRequest { query: "say \"hi\"".to_string(), limit: None };
    assert_eq!(s.summary(), r#"{"query":"say \"hi\"","limit":10}"#);
}

#[test]
fn timeline_query_parses_both_timestamps() {
    let t = GetTimelineRequest {
        start: "1970-01-01T00:00:01Z".to_string(),
        end: "1970-01-01T01:00:00+01:00".to_string(),
        limit: Some(7),
    };
    let (range, page) = t.query().expect("valid timestamps");
    assert_eq!(range.start, 1_000);
    assert_eq!(range.end, 0);
    assert_eq!(page.limit, 7);
    assert_eq!(page.offset, 0);
}

#[test]
fn invalid_timestamp_is_reported_with_its_text() {
    let t = GetTimelineRequest { start: "yesterday".to_string(), end: "nope".to_string(), limit: None };
    let err = t.query().expect_err("start does not parse");
    assert!(err.starts_with("invalid RFC3339 timestamp \"yesterday\": "));
    let t = GetTimelineRequest {
        start: "2024-01-01T00:00:00Z".to_string(),
        end: "nope".to_string(),
        limit: None,
    };
    let err = t.query().expect_err("end does not parse");
    assert!(err.starts_with("invalid RFC3339 timestamp \"nope\": "));
}

#[test]
fn visible_text_is_truncated_by_characters() {
    let s = snapshot(Some("héllo wörld"));
    let v = visible_text_result(Some(&s), 5);
    assert_eq!(v.text, "héllo");
    assert!(v.truncated);
    assert_eq!(v.capture_method, Some("hybrid"));
    let v = visible_text_result(Some(&s), 11);
    assert_eq!(v.text, "héllo wörld");
    assert!(!v.truncated);
}

#[test]
fn visible_text_without_snapshot_or_text() {
    let v = visible_text_result(None, 10);
    assert_eq!(v.text, "");
    assert_eq!(v.capture_method, None);
    assert!(!v.truncated);
    let s = snapshot(None);
    let v = visible_text_result(Some(&s), 10);
    assert_eq!(v.text, "");
    assert_eq!(v.capture_method, Some("hybrid"));
}

// ---- tokens ----

#[test]
fn raw_tokens_have_the_documented_shape() {
    let a = generate_raw_token();
    let b = generate_raw_token();
    assert!(a.starts_with("ctx_"));
    assert_eq!(a.len(), 68);
    assert!(a[4..].chars().all(|c| c.is_ascii_hexdigit() && !c.is_ascii_uppercase()));
    assert_ne!(a, b);
}

#[test]
fn hashed_token_matches_only_itself() {
    let raw = "ctx_0123456789abcdef";
    let hash = hash_token(raw).expect("hashing succeeds");
    let rows = vec![token_row("t-bad", "not a hash"), token_row("t-1", &hash)];
    assert_eq!(first_matching_token(raw, &rows), Some(1));
    assert_eq!(first_matching_token("ctx_unknown", &rows), None);
    assert_eq!(first_matching_token(raw, &Vec::new()), None);
}

#[test]
fn token_cache_remembers_and_forgets_by_id() {
    let mut cache = TokenCache::new();
    assert_eq!(cache.get("a"), None);
    cache.remember("a", "id-1");
    cache.remember("b", "id-2");
    cache.remember("c", "id-1");
    assert_eq!(cache.get("a").as_deref(), Some("id-1"));
    cache.remember("a", "id-3");
    assert_eq!(cache.get("a").as_deref(), Some("id-3"));
    cache.forget_id("id-1");
    assert_eq!(cache.get("c"), None);
    assert_eq!(cache.get("a").as_deref(), Some("id-3"));
    assert_eq!(cache.get("b").as_deref(), Some("id-2"));
}
