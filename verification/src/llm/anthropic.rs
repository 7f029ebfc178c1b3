//! The Anthropic Messages API: request body and stream events.

use vstd::prelude::*;
use crate::llm::provider::{conversation_messages, scheme_role, RoleScheme};
use crate::llm::stream::StreamStep;
use crate::llm::types::{conversation, find_system, first_system, message_views, wire_views, Message, Role, WireMessage};
use crate::text::opt_view;

verus! {

/// The API's default address.
pub const DEFAULT_BASE_URL: &'static str = "https://api.anthropic.com/v1";
/// The API version header value.
pub const ANTHROPIC_VERSION: &'static str = "2023-06-01";
/// The context window assumed for the model family.
pub const DEFAULT_MAX_TOKENS: usize = 200_000;
/// The completion length requested when the caller sets none (the API
/// requires one).
pub const DEFAULT_COMPLETION_TOKENS: u32 = 4096;
/// The provider's name in logs and errors.
pub const PROVIDER_NAME: &'static str = "anthropic";

/// The role's name in this API: system prompts travel in their own field,
/// so a system role is sent as a user.
pub fn role_str(role: Role) -> (r: &'static str)
    ensures
        r@ == scheme_role(RoleScheme::Messages, role),
{
    match role {
        Role::System | Role::User => "user",
        Role::Assistant => "assistant",
    }
}

/// The body of a streaming Messages request (the sampling temperature,
/// when set, is added by the application).
#[derive(Debug)]
pub struct MessagesBody {
    pub model: String,
    pub messages: Vec<WireMessage>,
    pub system: Option<String>,
    pub max_tokens: u32,
    pub stream: bool,
}

/// The request body for `messages`: the first system message becomes the
/// top-level `system` field, system messages are left out of the list, and
/// the completion length defaults to 4096 tokens.
pub fn messages_body(model: &str, messages: &[Message], max_tokens: Option<u32>) -> (b: MessagesBody)
    ensures
        b.model@ == model@,
        opt_view(b.system) == first_system(message_views(messages@)),
        wire_views(b.messages@) == conversation(
            message_views(messages@),
            |role: Role| scheme_role(RoleScheme::Messages, role),
        ),
        b.max_tokens == match max_tokens {
            Some(n) => n,
            None => DEFAULT_COMPLETION_TOKENS,
        },
        b.stream,
{
    MessagesBody {
        model: String::from_str(model),
        messages: conversation_messages(messages, RoleScheme::Messages),
        system: find_system(messages),
        max_tokens: match max_tokens {
            Some(n) => n,
            None => DEFAULT_COMPLETION_TOKENS,
        },
        stream: true,
    }
}

/// A server-sent event of the stream, as far as it matters here.
#[derive(Debug)]
pub enum StreamEvent {
    /// `content_block_delta`, with the delta's text if it has one.
    ContentBlockDelta { text: Option<String> },
    /// `message_stop`.
    MessageStop,
    /// Any other event type.
    Other,
}

/// What a stream event makes the reader do: forward non-empty delta text,
/// stop at `message_stop`, skip everything else.
pub fn event_step(event: StreamEvent) -> (s: StreamStep)
    ensures
        match event {
            StreamEvent::ContentBlockDelta { text: Some(t) } => if t@.len() > 0 {
                s matches StreamStep::Emit(e) && e@ == t@
            } else {
                s is Skip
            },
            StreamEvent::ContentBlockDelta { text: None } => s is Skip,
            StreamEvent::MessageStop => s is Stop,
            StreamEvent::Other => s is Skip,
        },
{
    match event {
        StreamEvent::ContentBlockDelta { text: Some(t) } => if !t.as_str().is_empty() {
            StreamStep::Emit(t)
        } else {
            StreamStep::Skip
        },
        StreamEvent::ContentBlockDelta { text: None } => StreamStep::Skip,
        StreamEvent::MessageStop => StreamStep::Stop,
        StreamEvent::Other => StreamStep::Skip,
    }
}

} // verus!
