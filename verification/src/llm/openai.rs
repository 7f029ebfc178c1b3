//! The OpenAI chat-completions API (also spoken by LM Studio): request
//! body and stream chunks.

use vstd::prelude::*;
use crate::llm::provider::{all_wire_messages, scheme_role, RoleScheme};
use crate::llm::stream::{is_done_marker, non_empty_texts, present_texts, sse_payload, sse_payload_of};
use crate::llm::types::{all_messages, message_views, wire_views, Message, Role, WireMessage};
use crate::text::opt_view;

verus! {

/// The API's default address.
pub const DEFAULT_BASE_URL: &'static str = "https://api.openai.com/v1";
/// The context window assumed for the model family.
pub const DEFAULT_MAX_TOKENS: usize = 128_000;
/// The provider's name in logs and errors.
pub const PROVIDER_NAME: &'static str = "openai";
/// LM Studio's default local address; it speaks this API without a key.
pub const LM_STUDIO_BASE_URL: &'static str = "http://localhost:1234/v1";
/// The context window assumed for LM Studio models.
pub const LM_STUDIO_MAX_TOKENS: usize = 8192;
/// LM Studio's name in logs and errors.
pub const LM_STUDIO_NAME: &'static str = "lm-studio";

/// The role's name in this API.
pub fn role_str(role: Role) -> (r: &'static str)
    ensures
        r@ == scheme_role(RoleScheme::Chat, role),
{
    match role {
        Role::System => "system",
        Role::User => "user",
        Role::Assistant => "assistant",
    }
}

/// The body of a streaming chat-completions request (the sampling
/// temperature, when set, is added by the application).
#[derive(Debug)]
pub struct ChatBody {
    pub model: String,
    pub messages: Vec<WireMessage>,
    pub stream: bool,
    pub max_tokens: Option<u32>,
}

/// The request body for `messages`: every message, system ones included.
pub fn chat_body(model: &str, messages: &[Message], max_tokens: Option<u32>) -> (b: ChatBody)
    ensures
        b.model@ == model@,
        wire_views(b.messages@) == all_messages(message_views(messages@), |role: Role| scheme_role(RoleScheme::Chat, role)),
        b.stream,
        b.max_tokens == max_tokens,
{
    ChatBody {
        model: String::from_str(model),
        messages: all_wire_messages(messages, RoleScheme::Chat),
        stream: true,
        max_tokens,
    }
}

/// A decoded stream chunk: each choice's delta content.
#[derive(Debug)]
pub struct ChatChunk {
    pub choices: Vec<Option<String>>,
}

/// The texts a chunk forwards: each choice's non-empty delta content, in
/// order.
pub fn chunk_texts(chunk: &ChatChunk) -> (r: Vec<String>)
    ensures
        r@.map_values(|s: String| s@) == present_texts(chunk.choices@.map_values(|o: Option<String>| opt_view(o))),
{
    non_empty_texts(&chunk.choices)
}

/// What one line of the response stream asks of the reader.
#[derive(Debug)]
pub enum LineAction {
    /// Not an event payload; keep reading.
    Skip,
    /// The end-of-stream marker; stop reading.
    Stop,
    /// A payload to decode as a chunk (a payload that does not decode
    /// fails the stream).
    Decode(String),
}

/// What one line of the response stream asks of the reader: a line with
/// no event payload is skipped, the payload `[DONE]` ends the stream, and
/// any other payload is decoded.
pub fn line_action(line: &str) -> (a: LineAction)
    ensures
        match sse_payload_of(line@) {
            None => a is Skip,
            Some(p) => if p == "[DONE]"@ {
                a is Stop
            } else {
                a matches LineAction::Decode(q) && q@ == p
            },
        },
{
    match sse_payload(line) {
        None => LineAction::Skip,
        Some(payload) => if is_done_marker(payload.as_str()) {
            LineAction::Stop
        } else {
            LineAction::Decode(payload)
        },
    }
}

} // verus!
