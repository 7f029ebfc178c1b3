//! What every provider shares: the base-URL guard, the role schemes, and
//! the conversion of a conversation to wire messages.

use vstd::prelude::*;
use crate::llm::types::{
    all_messages, conversation, message_views, wire_views, Message, MessageView, Role, WireMessage,
};
use crate::text::{chars_of, slice_chars, starts_with, starts_with_chars};

verus! {

/// Whether the host of an address ends at index `n` of `s` (the end, or a
/// port, path, query or fragment begins there).
pub open spec fn host_ends_at(s: Seq<char>, n: int) -> bool {
    n == s.len() || (0 <= n < s.len() && (s[n] == ':' || s[n] == '/' || s[n] == '?' || s[n] == '#'))
}

/// Whether the address `rest` (what follows `http://`) names exactly the
/// host `host`.
pub open spec fn names_host(rest: Seq<char>, host: Seq<char>) -> bool {
    starts_with(rest, host) && host_ends_at(rest, host.len() as int)
}

/// Whether a base URL may receive an API key: anything but plaintext HTTP,
/// except plaintext HTTP to a loopback host (exactly `localhost`,
/// `127.0.0.1` or `[::1]`, with any port and path), which local test
/// servers use.
pub open spec fn is_secure_base_url_spec(url: Seq<char>) -> bool {
    let rest = url.subrange(7, url.len() as int);
    !starts_with(url, "http://"@) || names_host(rest, "localhost"@) || names_host(rest, "127.0.0.1"@)
        || names_host(rest, "[::1]"@)
}

/// Whether `rest` names exactly the host `host` (see [`names_host`]).
fn names_host_chars(rest: &Vec<char>, host: &str) -> (b: bool)
    ensures
        b == names_host(rest@, host@),
{
    let h = chars_of(host);
    if !starts_with_chars(rest, &h) {
        return false;
    }
    let n = h.len();
    if n == rest.len() {
        return true;
    }
    if n > rest.len() {
        return false;
    }
    let c = rest[n];
    c == ':' || c == '/' || c == '?' || c == '#'
}

/// Whether `url` may receive an API key (see [`is_secure_base_url_spec`]).
pub fn is_secure_base_url(url: &str) -> (b: bool)
    ensures
        b == is_secure_base_url_spec(url@),
{
    let u = chars_of(url);
    let plain = chars_of("http://");
    proof {
        reveal_strlit("http://");
    }
    if !starts_with_chars(&u, &plain) {
        return true;
    }
    let rest = slice_chars(&u, 7, u.len());
    names_host_chars(&rest, "localhost") || names_host_chars(&rest, "127.0.0.1") || names_host_chars(&rest, "[::1]")
}

/// The guard of the key-bearing providers' `with_base_url`: only a secure
/// base URL may be configured. Configuring any other is a caller mistake,
/// which the application reports by panicking before it gets here.
pub fn assert_secure_base_url(url: &str)
    requires
        is_secure_base_url_spec(url@),
{
    let secure = is_secure_base_url(url);
    assert(secure);
}

/// How a provider names roles.
#[derive(Clone, Copy, Debug, PartialEq, Eq, Structural)]
pub enum RoleScheme {
    /// `system`, `user`, `assistant` (OpenAI, Ollama, LM Studio).
    Chat,
    /// `user` for system and user messages, `assistant` (Anthropic).
    Messages,
    /// `user` for system and user messages, `model` (Gemini).
    Gemini,
}

/// The role's name in a scheme.
pub open spec fn scheme_role(scheme: RoleScheme, role: Role) -> Seq<char> {
    match (scheme, role) {
        (RoleScheme::Chat, Role::System) => "system"@,
        (RoleScheme::Chat, Role::User) => "user"@,
        (RoleScheme::Chat, Role::Assistant) => "assistant"@,
        (RoleScheme::Messages, Role::Assistant) => "assistant"@,
        (RoleScheme::Gemini, Role::Assistant) => "model"@,
        (_, _) => "user"@,
    }
}

/// The role's name in a scheme.
fn role_name(scheme: RoleScheme, role: Role) -> (r: &'static str)
    ensures
        r@ == scheme_role(scheme, role),
{
    match scheme {
        RoleScheme::Chat => crate::llm::openai::role_str(role),
        RoleScheme::Messages => crate::llm::anthropic::role_str(role),
        RoleScheme::Gemini => crate::llm::gemini::role_str(role),
    }
}

/// The non-system messages with the scheme's role names (for providers
/// that take the system prompt in a separate field).
pub fn conversation_messages(messages: &[Message], scheme: RoleScheme) -> (r: Vec<WireMessage>)
    ensures
        wire_views(r@) == conversation(message_views(messages@), |role: Role| scheme_role(scheme, role)),
{
    let ghost ms = message_views(messages@);
    let ghost name = |role: Role| scheme_role(scheme, role);
    let mut out: Vec<WireMessage> = Vec::new();
    let mut i: usize = 0;
    while i < messages.len()
        invariant
            i <= messages.len(),
            ms == message_views(messages@),
            name == (|role: Role| scheme_role(scheme, role)),
            wire_views(out@) == conversation(ms.subrange(0, i as int), name),
        decreases messages.len() - i,
    {
        let ghost prev = out@;
        assert(ms.subrange(0, i + 1).drop_last() =~= ms.subrange(0, i as int));
        assert(ms.subrange(0, i + 1).last() == ms[i as int]);
        if messages[i].role != Role::System {
            let role = role_name(scheme, messages[i].role);
            out.push(WireMessage { role: String::from_str(role), content: messages[i].content.clone() });
            assert(wire_views(out@) =~= wire_views(prev).push((name(ms[i as int].role), ms[i as int].content)));
        }
        i += 1;
    }
    assert(ms.subrange(0, messages.len() as int) =~= ms);
    out
}

/// Every message with the scheme's role names.
pub fn all_wire_messages(messages: &[Message], scheme: RoleScheme) -> (r: Vec<WireMessage>)
    ensures
        wire_views(r@) == all_messages(message_views(messages@), |role: Role| scheme_role(scheme, role)),
{
    let ghost ms = message_views(messages@);
    let ghost name = |role: Role| scheme_role(scheme, role);
    let mut out: Vec<WireMessage> = Vec::new();
    let mut i: usize = 0;
    while i < messages.len()
        invariant
            i <= messages.len(),
            ms == message_views(messages@),
            name == (|role: Role| scheme_role(scheme, role)),
            wire_views(out@) == all_messages(ms.subrange(0, i as int), name),
        decreases messages.len() - i,
    {
        let ghost prev = out@;
        let role = role_name(scheme, messages[i].role);
        out.push(WireMessage { role: String::from_str(role), content: messages[i].content.clone() });
        assert(wire_views(out@) =~= wire_views(prev).push((name(ms[i as int].role), ms[i as int].content)));
        assert(all_messages(ms.subrange(0, i + 1), name) =~= all_messages(ms.subrange(0, i as int), name).push(
            (name(ms[i as int].role), ms[i as int].content),
        ));
        i += 1;
    }
    assert(ms.subrange(0, messages.len() as int) =~= ms);
    out
}

/// What the fallback chain does once the primary provider has answered.
#[derive(Clone, Copy, Debug, PartialEq, Eq, Structural)]
pub enum FallbackStep {
    /// Return the primary's response (success).
    UsePrimary,
    /// Ask the fallback provider and return whatever it answers.
    TryFallback,
    /// Return the primary's error.
    FailWithPrimary,
}

/// The fallback chain: a successful primary answers; a failed one hands
/// over to the fallback when one is configured, else its error stands.
pub fn after_primary(primary_succeeded: bool, has_fallback: bool) -> (step: FallbackStep)
    ensures
        primary_succeeded ==> step == FallbackStep::UsePrimary,
        !primary_succeeded && has_fallback ==> step == FallbackStep::TryFallback,
        !primary_succeeded && !has_fallback ==> step == FallbackStep::FailWithPrimary,
{
    if primary_succeeded {
        FallbackStep::UsePrimary
    } else if has_fallback {
        FallbackStep::TryFallback
    } else {
        FallbackStep::FailWithPrimary
    }
}

/// How each API names roles: the chat APIs use `system`, `user` and
/// `assistant`; Anthropic sends system prompts as `user` and answers as
/// `assistant`; Gemini sends system prompts as `user` and answers as
/// `model`.
pub proof fn law_role_names()
    ensures
        scheme_role(RoleScheme::Chat, Role::System) == "system"@,
        scheme_role(RoleScheme::Chat, Role::User) == "user"@,
        scheme_role(RoleScheme::Chat, Role::Assistant) == "assistant"@,
        scheme_role(RoleScheme::Messages, Role::System) == "user"@,
        scheme_role(RoleScheme::Messages, Role::User) == "user"@,
        scheme_role(RoleScheme::Messages, Role::Assistant) == "assistant"@,
        scheme_role(RoleScheme::Gemini, Role::System) == "user"@,
        scheme_role(RoleScheme::Gemini, Role::User) == "user"@,
        scheme_role(RoleScheme::Gemini, Role::Assistant) == "model"@,
{
}

} // verus!
