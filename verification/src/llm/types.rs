//! Chat messages and what providers send on the wire.

use vstd::prelude::*;

verus! {

/// Who wrote a message.
#[derive(Clone, Copy, Debug, PartialEq, Eq, Structural)]
pub enum Role {
    System,
    User,
    Assistant,
}

/// One message of a conversation.
#[derive(Debug)]
pub struct Message {
    pub role: Role,
    pub content: String,
}

/// The mathematical content of a [`Message`].
pub struct MessageView {
    pub role: Role,
    pub content: Seq<char>,
}

impl View for Message {
    type V = MessageView;

    open spec fn view(&self) -> MessageView {
        MessageView { role: self.role, content: self.content@ }
    }
}

/// A message as a provider's API receives it: the provider's name for
/// the role, and the text.
#[derive(Debug)]
pub struct WireMessage {
    pub role: String,
    pub content: String,
}

/// The view of a wire message: role text and content.
pub open spec fn wire_view(w: WireMessage) -> (Seq<char>, Seq<char>) {
    (w.role@, w.content@)
}

/// The views of a sequence of messages.
pub open spec fn message_views(ms: Seq<Message>) -> Seq<MessageView> {
    ms.map_values(|m: Message| m@)
}

/// The views of a sequence of wire messages.
pub open spec fn wire_views(ws: Seq<WireMessage>) -> Seq<(Seq<char>, Seq<char>)> {
    ws.map_values(|w: WireMessage| wire_view(w))
}

/// The content of the first system message; none when there is none.
pub open spec fn first_system(ms: Seq<MessageView>) -> Option<Seq<char>>
    decreases ms.len(),
{
    if ms.len() == 0 {
        None
    } else if ms[0].role == Role::System {
        Some(ms[0].content)
    } else {
        first_system(ms.drop_first())
    }
}

/// The messages that are not system messages, in order, each with the
/// role name `name` gives it.
pub open spec fn conversation(ms: Seq<MessageView>, name: spec_fn(Role) -> Seq<char>) -> Seq<(Seq<char>, Seq<char>)>
    decreases ms.len(),
{
    if ms.len() == 0 {
        Seq::empty()
    } else if ms.last().role == Role::System {
        conversation(ms.drop_last(), name)
    } else {
        conversation(ms.drop_last(), name).push((name(ms.last().role), ms.last().content))
    }
}

/// Every message, in order, each with the role name `name` gives it.
pub open spec fn all_messages(ms: Seq<MessageView>, name: spec_fn(Role) -> Seq<char>) -> Seq<(Seq<char>, Seq<char>)> {
    ms.map_values(|m: MessageView| (name(m.role), m.content))
}

/// The content of the first system message (for providers that take the
/// system prompt in a field of its own).
pub fn find_system(messages: &[Message]) -> (r: Option<String>)
    ensures
        crate::text::opt_view(r) == first_system(message_views(messages@)),
{
    let ghost ms = message_views(messages@);
    let mut i: usize = 0;
    assert(ms.subrange(0, ms.len() as int) =~= ms);
    while i < messages.len()
        invariant
            i <= messages.len(),
            ms == message_views(messages@),
            first_system(ms) == first_system(ms.subrange(i as int, ms.len() as int)),
        decreases messages.len() - i,
    {
        let ghost rest = ms.subrange(i as int, ms.len() as int);
        assert(rest[0] == ms[i as int]);
        if messages[i].role == Role::System {
            return Some(messages[i].content.clone());
        }
        assert(rest.drop_first() =~= ms.subrange(i + 1, ms.len() as int));
        i += 1;
    }
    None
}

} // verus!
