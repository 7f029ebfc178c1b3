//! The Ollama chat API: request body and stream chunks (one JSON object
//! per line).

use vstd::prelude::*;
use crate::llm::provider::{all_wire_messages, scheme_role, RoleScheme};
use crate::llm::types::{all_messages, message_views, wire_views, Message, Role, WireMessage};
use crate::text::{is_blank, opt_view, str_is_blank};

verus! {

/// The local server's default address.
pub const DEFAULT_BASE_URL: &'static str = "http://localhost:11434";
/// The context window assumed for local models.
pub const DEFAULT_MAX_TOKENS: usize = 8192;
/// The provider's name in logs and errors.
pub const PROVIDER_NAME: &'static str = "ollama";

/// The role's name in this API.
pub fn role_str(role: Role) -> (r: &'static str)
    ensures
        r@ == scheme_role(RoleScheme::Chat, role),
{
    match role {
        Role::System => "system",
        Role::User => "user",
        Role::Assistant => "assistant",
    }
}

/// The body of a streaming chat request; the options always carry the
/// prediction limit (and the sampling temperature, added by the
/// application).
#[derive(Debug)]
pub struct ChatBody {
    pub model: String,
    pub messages: Vec<WireMessage>,
    pub stream: bool,
    pub num_predict: Option<u32>,
}

/// The request body for `messages`: every message, system ones included.
pub fn chat_body(model: &str, messages: &[Message], max_tokens: Option<u32>) -> (b: ChatBody)
    ensures
        b.model@ == model@,
        wire_views(b.messages@) == all_messages(message_views(messages@), |role: Role| scheme_role(RoleScheme::Chat, role)),
        b.stream,
        b.num_predict == max_tokens,
{
    ChatBody {
        model: String::from_str(model),
        messages: all_wire_messages(messages, RoleScheme::Chat),
        stream: true,
        num_predict: max_tokens,
    }
}

/// Whether a received line carries a chunk (blank lines are skipped).
pub fn is_chunk_line(line: &str) -> (b: bool)
    ensures
        b == !is_blank(line@),
{
    !str_is_blank(line)
}

/// What a decoded chunk makes the reader do: forward the message content
/// when it is not empty, and stop after a chunk marked done.
pub fn chunk_step(message: Option<String>, done: bool) -> (r: (Option<String>, bool))
    ensures
        opt_view(r.0) == match opt_view(message) {
            Some(c) => if c.len() > 0 { Some(c) } else { None },
            None => None,
        },
        r.1 == done,
{
    let emit = match message {
        Some(c) => if c.as_str().is_empty() { None } else { Some(c) },
        None => None,
    };
    (emit, done)
}

} // verus!
