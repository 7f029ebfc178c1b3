//! The Gemini `streamGenerateContent` API: request body and stream chunks.

use vstd::prelude::*;
use crate::llm::provider::{conversation_messages, scheme_role, RoleScheme};
use crate::llm::stream::{non_empty_texts, present_texts};
use crate::llm::types::{conversation, find_system, first_system, message_views, wire_views, Message, Role, WireMessage};
use crate::text::opt_view;

verus! {

/// The API's default address.
pub const DEFAULT_BASE_URL: &'static str = "https://generativelanguage.googleapis.com/v1beta";
/// The context window assumed for the model family.
pub const DEFAULT_MAX_TOKENS: usize = 1_000_000;
/// The provider's name in logs and errors.
pub const PROVIDER_NAME: &'static str = "gemini";

/// The role's name in this API: `user` or `model`; system prompts travel
/// in their own field, so a system role is sent as a user.
pub fn role_str(role: Role) -> (r: &'static str)
    ensures
        r@ == scheme_role(RoleScheme::Gemini, role),
{
    match role {
        Role::System | Role::User => "user",
        Role::Assistant => "model",
    }
}

/// The body of a generate request: one content entry (with one text part)
/// per non-system message, the system instruction, and the output limit
/// (the sampling temperature, when set, is added by the application).
#[derive(Debug)]
pub struct GenerateBody {
    pub contents: Vec<WireMessage>,
    pub system_instruction: Option<String>,
    pub max_output_tokens: Option<u32>,
}

/// The request body for `messages`: the first system message becomes the
/// system instruction, and system messages are left out of the contents.
pub fn generate_body(messages: &[Message], max_tokens: Option<u32>) -> (b: GenerateBody)
    ensures
        opt_view(b.system_instruction) == first_system(message_views(messages@)),
        wire_views(b.contents@) == conversation(
            message_views(messages@),
            |role: Role| scheme_role(RoleScheme::Gemini, role),
        ),
        b.max_output_tokens == max_tokens,
{
    GenerateBody {
        contents: conversation_messages(messages, RoleScheme::Gemini),
        system_instruction: find_system(messages),
        max_output_tokens: max_tokens,
    }
}

/// A decoded stream chunk: for each candidate, its content's part texts
/// (`None` for a candidate without content).
#[derive(Debug)]
pub struct GenerateChunk {
    pub candidates: Vec<Option<Vec<Option<String>>>>,
}

/// The part texts of all candidates with content, in order.
pub open spec fn candidate_parts(cs: Seq<Option<Vec<Option<String>>>>) -> Seq<Option<Seq<char>>>
    decreases cs.len(),
{
    if cs.len() == 0 {
        Seq::empty()
    } else {
        let rest = candidate_parts(cs.drop_last());
        match cs.last() {
            Some(parts) => rest + parts@.map_values(|o: Option<String>| opt_view(o)),
            None => rest,
        }
    }
}

/// The texts a chunk forwards: every non-empty part text of every
/// candidate with content, in order.
pub fn chunk_texts(chunk: &GenerateChunk) -> (r: Vec<String>)
    ensures
        r@.map_values(|s: String| s@) == present_texts(candidate_parts(chunk.candidates@)),
{
    let mut flat: Vec<Option<String>> = Vec::new();
    let mut i: usize = 0;
    while i < chunk.candidates.len()
        invariant
            i <= chunk.candidates.len(),
            flat@.map_values(|o: Option<String>| opt_view(o)) == candidate_parts(chunk.candidates@.subrange(0, i as int)),
        decreases chunk.candidates.len() - i,
    {
        let ghost cs = chunk.candidates@.subrange(0, i + 1);
        assert(cs.drop_last() =~= chunk.candidates@.subrange(0, i as int));
        match &chunk.candidates[i] {
            Some(parts) => {
                let mut k: usize = 0;
                let ghost before = flat@.map_values(|o: Option<String>| opt_view(o));
                while k < parts.len()
                    invariant
                        k <= parts.len(),
                        flat@.map_values(|o: Option<String>| opt_view(o)) == before + parts@.subrange(0, k as int).map_values(
                            |o: Option<String>| opt_view(o),
                        ),
                    decreases parts.len() - k,
                {
                    let ghost prev = flat@;
                    let item = crate::text::clone_opt(&parts[k]);
                    flat.push(item);
                    assert(flat@.map_values(|o: Option<String>| opt_view(o)) =~= prev.map_values(|o: Option<String>| opt_view(o)).push(
                        opt_view(parts@[k as int]),
                    ));
                    assert(parts@.subrange(0, k + 1).map_values(|o: Option<String>| opt_view(o)) =~= parts@.subrange(0, k as int).map_values(
                        |o: Option<String>| opt_view(o),
                    ).push(opt_view(parts@[k as int])));
                    k += 1;
                }
                assert(parts@.subrange(0, parts.len() as int) =~= parts@);
            },
            None => {},
        }
        i += 1;
    }
    assert(chunk.candidates@.subrange(0, chunk.candidates.len() as int) =~= chunk.candidates@);
    non_empty_texts(&flat)
}

} // verus!
