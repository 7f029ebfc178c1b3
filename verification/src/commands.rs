//! The desktop app's commands: how a `handle_request` call is read and
//! answered. Running the request and streaming its events are the
//! application's part.

use vstd::prelude::*;
use crate::types::RequestAction;

verus! {

/// The `stream` argument of `handle_request` when the caller omits it.
pub fn default_stream() -> (b: bool)
    ensures
        b,
{
    true
}

/// The answer to `handle_request`: the request id and `accepted`, or an
/// empty id, `rejected` and the reason.
#[derive(Debug)]
pub struct HandleRequestResponse {
    pub request_id: String,
    pub status: String,
    pub reason: Option<String>,
}

/// A refusal with its reason.
pub fn rejected(reason: String) -> (r: HandleRequestResponse)
    ensures
        r.request_id@.len() == 0,
        r.status@ == "rejected"@,
        r.reason matches Some(m) && m@ == reason@,
{
    HandleRequestResponse { request_id: String::new(), status: String::from_str("rejected"), reason: Some(reason) }
}

/// An acceptance under the request's id.
pub fn accepted(request_id: String) -> (r: HandleRequestResponse)
    ensures
        r.request_id@ == request_id@,
        r.status@ == "accepted"@,
        r.reason is None,
{
    HandleRequestResponse { request_id, status: String::from_str("accepted"), reason: None }
}

/// The action named by a command argument, if it names one; a translation
/// also needs its target language.
pub open spec fn action_named(action: Seq<char>, has_target: bool) -> Option<Seq<char>> {
    if action == "chat"@ || action == "explain"@ || action == "summarize"@ || action == "search"@ || action
        == "recall"@ || (action == "translate"@ && has_target) {
        Some(action)
    } else {
        None
    }
}

/// The error for a command argument that names no action.
pub open spec fn parse_action_error(action: Seq<char>) -> Seq<char> {
    if action == "translate"@ {
        "target_lang is required for the translate action"@
    } else {
        "unknown action: "@ + action
    }
}

/// Reads the `action` argument of `handle_request`.
pub fn parse_action(action: &str, target_lang: Option<String>) -> (r: Result<RequestAction, String>)
    ensures
        action@ == "chat"@ ==> r matches Ok(RequestAction::Chat),
        action@ == "explain"@ ==> r matches Ok(RequestAction::Explain),
        action@ == "summarize"@ ==> r matches Ok(RequestAction::Summarize),
        action@ == "search"@ ==> r matches Ok(RequestAction::Search),
        action@ == "recall"@ ==> r matches Ok(RequestAction::Recall),
        action@ == "translate"@ ==> match target_lang {
            Some(t) => (r matches Ok(RequestAction::Translate { target_lang: l }) && l@ == t@),
            None => (r matches Err(m) && m@ == parse_action_error(action@)),
        },
        action_named(action@, target_lang is Some) is None ==> (r matches Err(m) && m@ == parse_action_error(
            action@,
        )),
{
    proof {
        reveal_strlit("chat");
        reveal_strlit("explain");
        reveal_strlit("summarize");
        reveal_strlit("translate");
        reveal_strlit("search");
        reveal_strlit("recall");
        assert("chat"@.len() == 4 && "explain"@.len() == 7 && "summarize"@.len() == 9);
        assert("translate"@.len() == 9 && "search"@.len() == 6 && "recall"@.len() == 6);
        assert("summarize"@[0] != "translate"@[0]);
        assert("search"@[0] != "recall"@[0]);
    }
    if crate::text::str_eq(action, "chat") {
        Ok(RequestAction::Chat)
    } else if crate::text::str_eq(action, "explain") {
        Ok(RequestAction::Explain)
    } else if crate::text::str_eq(action, "summarize") {
        Ok(RequestAction::Summarize)
    } else if crate::text::str_eq(action, "translate") {
        match target_lang {
            Some(target_lang) => Ok(RequestAction::Translate { target_lang }),
            None => Err(String::from_str("target_lang is required for the translate action")),
        }
    } else if crate::text::str_eq(action, "search") {
        Ok(RequestAction::Search)
    } else if crate::text::str_eq(action, "recall") {
        Ok(RequestAction::Recall)
    } else {
        Err(String::from_str("unknown action: ").concat(action))
    }
}

} // verus!
