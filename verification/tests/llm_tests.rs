use contexa::llm::anthropic::{self, messages_body, StreamEvent};
use contexa::llm::gemini::{self, generate_body, GenerateChunk};
use contexa::llm::ollama::{self, chunk_step, is_chunk_line};
use contexa::llm::openai::{self, chat_body, ChatChunk};
use contexa::llm::provider::{after_primary, assert_secure_base_url, is_secure_base_url, FallbackStep};
use contexa::llm::stream::{is_done_marker, sse_payload, LineBuffer, StreamStep};
use contexa::llm::types::{find_system, Message, Role};

fn msg(role: Role, content: &str) -> Message {
    Message { role, content: content.to_string() }
}

// ---- base URL guard ----

#[test]
fn https_is_allowed() {
    assert_secure_base_url("https://api.openai.com/v1");
}

#[test]
fn loopback_http_is_allowed() {
    assert_secure_base_url("http://localhost:1234/v1");
    assert_secure_base_url("http://127.0.0.1:1234/v1");
}

#[test]
fn non_loopback_http_is_not_secure() {
    assert!(!is_secure_base_url("http://api.openai.com/v1"));
    assert!(is_secure_base_url("http://[::1]:8080"));
    assert!(is_secure_base_url("https://example.com"));
}

#[test]
fn loopback_must_be_the_whole_host() {
    assert!(!is_secure_base_url("http://localhost.attacker.example/v1"));
    assert!(!is_secure_base_url("http://127.0.0.1.nip.io/v1"));
    assert!(!is_secure_base_url("http://[::1]evil/v1"));
    assert!(is_secure_base_url("http://localhost"));
    assert!(is_secure_base_url("http://localhost/v1"));
    assert!(is_secure_base_url("http://127.0.0.1?x=1"));
    assert!(!is_secure_base_url("http://"));
}

// ---- roles and request bodies ----

#[test]
fn system_message_moves_to_top_level_field() {
    let messages = [msg(Role::System, "be terse"), msg(Role::User, "hi")];
    let body = messages_body("sonnet-latest", &messages, None);
    assert_eq!(body.system.as_deref(), Some("be terse"));
    assert_eq!(body.messages.len(), 1);
    assert_eq!(body.messages[0].role, "user");
    assert_eq!(body.messages[0].content, "hi");
    assert_eq!(body.max_tokens, 4096);
    assert!(body.stream);
}

#[test]
fn assistant_role_maps_to_model() {
    assert_eq!(gemini::role_str(Role::Assistant), "model");
    assert_eq!(gemini::role_str(Role::User), "user");
}

#[test]
fn role_names_per_provider() {
    assert_eq!(anthropic::role_str(Role::System), "user");
    assert_eq!(anthropic::role_str(Role::Assistant), "assistant");
    assert_eq!(openai::role_str(Role::System), "system");
    assert_eq!(ollama::role_str(Role::Assistant), "assistant");
    assert_eq!(gemini::role_str(Role::System), "user");
}

#[test]
fn only_the_first_system_message_is_sent() {
    let messages = [
        msg(Role::User, "a"),
        msg(Role::System, "first"),
        msg(Role::System, "second"),
        msg(Role::Assistant, "b"),
    ];
    assert_eq!(find_system(&messages).as_deref(), Some("first"));
    let body = generate_body(&messages, Some(100));
    assert_eq!(body.system_instruction.as_deref(), Some("first"));
    assert_eq!(body.contents.len(), 2);
    assert_eq!(body.contents[1].role, "model");
    assert_eq!(body.max_output_tokens, Some(100));
    assert_eq!(find_system(&[msg(Role::User, "x")]), None);
    let body = messages_body("m", &[msg(Role::System, "a"), msg(Role::User, "hi"), msg(Role::System, "b")], None);
    assert_eq!(body.system.as_deref(), Some("a"));
    assert_eq!(body.messages.len(), 1);
    assert_eq!(body.messages[0].role, "user");
    assert_eq!(body.model, "m");
    assert_eq!(body.max_tokens, 4096);
}

#[test]
fn chat_bodies_keep_every_message() {
    let messages = [msg(Role::System, "s"), msg(Role::User, "u"), msg(Role::Assistant, "a")];
    let body = chat_body("gpt-4o", &messages, Some(100));
    assert_eq!(body.model, "gpt-4o");
    let roles: Vec<&str> = body.messages.iter().map(|m| m.role.as_str()).collect();
    assert_eq!(roles, vec!["system", "user", "assistant"]);
    assert_eq!(body.max_tokens, Some(100));
    assert!(body.stream);
    let body = ollama::chat_body("llama3.2:3b", &messages, None);
    assert_eq!(body.messages.len(), 3);
    assert_eq!(body.num_predict, None);
}

#[test]
fn explicit_completion_budget_is_kept() {
    let body = messages_body("m", &[msg(Role::User, "hi")], Some(7));
    assert_eq!(body.max_tokens, 7);
    assert_eq!(body.system, None);
}

// ---- stream reading ----

#[test]
fn line_buffer_splits_on_line_feeds() {
    let mut buf = LineBuffer::new();
    buf.push_text("data: a\ndata: b");
    assert_eq!(buf.next_line().as_deref(), Some("data: a"));
    assert_eq!(buf.next_line(), None);
    buf.push_text("\n\n");
    assert_eq!(buf.next_line().as_deref(), Some("data: b"));
    assert_eq!(buf.next_line().as_deref(), Some(""));
    assert_eq!(buf.next_line(), None);
}

#[test]
fn sse_payload_takes_data_lines_only() {
    assert_eq!(sse_payload("data: {\"x\":1}  ").as_deref(), Some("{\"x\":1}"));
    assert_eq!(sse_payload("  data:[DONE]").as_deref(), Some("[DONE]"));
    assert_eq!(sse_payload("event: ping"), None);
    assert_eq!(sse_payload("   "), None);
    assert_eq!(sse_payload("data:").as_deref(), Some(""));
    assert!(is_done_marker("[DONE]"));
    assert!(!is_done_marker("[done]"));
}

#[test]
fn anthropic_events_emit_stop_or_skip() {
    match anthropic::event_step(StreamEvent::ContentBlockDelta { text: Some("Hello".to_string()) }) {
        StreamStep::Emit(t) => assert_eq!(t, "Hello"),
        other => panic!("unexpected {other:?}"),
    }
    assert!(matches!(
        anthropic::event_step(StreamEvent::ContentBlockDelta { text: Some(String::new()) }),
        StreamStep::Skip
    ));
    assert!(matches!(anthropic::event_step(StreamEvent::ContentBlockDelta { text: None }), StreamStep::Skip));
    assert!(matches!(anthropic::event_step(StreamEvent::MessageStop), StreamStep::Stop));
    assert!(matches!(anthropic::event_step(StreamEvent::Other), StreamStep::Skip));
}

#[test]
fn gemini_chunk_texts_skip_empty_parts() {
    let chunk = GenerateChunk {
        candidates: vec![
            Some(vec![Some("Hel".to_string()), None, Some(String::new())]),
            None,
            Some(vec![Some("lo".to_string())]),
        ],
    };
    assert_eq!(gemini::chunk_texts(&chunk), vec!["Hel".to_string(), "lo".to_string()]);
}

#[test]
fn openai_chunk_texts_skip_empty_deltas() {
    let chunk = ChatChunk { choices: vec![Some("Hello".to_string()), None, Some(String::new())] };
    assert_eq!(openai::chunk_texts(&chunk), vec!["Hello".to_string()]);
    let empty = ChatChunk { choices: vec![] };
    assert!(openai::chunk_texts(&empty).is_empty());
}

#[test]
fn ollama_chunks_emit_and_finish() {
    assert!(!is_chunk_line("  "));
    assert!(is_chunk_line("{\"done\":true}"));
    let (emit, done) = chunk_step(Some("The".to_string()), false);
    assert_eq!(emit.as_deref(), Some("The"));
    assert!(!done);
    let (emit, done) = chunk_step(Some(String::new()), true);
    assert_eq!(emit, None);
    assert!(done);
}

// ---- fallback chain ----

#[test]
fn fallback_chain_decisions() {
    assert_eq!(after_primary(true, true), FallbackStep::UsePrimary);
    assert_eq!(after_primary(true, false), FallbackStep::UsePrimary);
    assert_eq!(after_primary(false, true), FallbackStep::TryFallback);
    assert_eq!(after_primary(false, false), FallbackStep::FailWithPrimary);
}

#[test]
fn openai_lines_are_skipped_stopped_or_decoded() {
    assert!(matches!(openai::line_action(": keep-alive"), openai::LineAction::Skip));
    assert!(matches!(openai::line_action(""), openai::LineAction::Skip));
    assert!(matches!(openai::line_action("data: [DONE]"), openai::LineAction::Stop));
    match openai::line_action("data: {\"choices\":[]}") {
        openai::LineAction::Decode(p) => assert_eq!(p, "{\"choices\":[]}"),
        other => panic!("unexpected {:?}", other),
    }
}
