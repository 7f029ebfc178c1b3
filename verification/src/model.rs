//! Persistence model: timeline events, memory chunks, tokens and paging.

use vstd::prelude::*;
use crate::text::{chars_eq, chars_of, decimal_text, usize_to_decimal};
use crate::types::{ContexaError, Metadata};

verus! {

/// Kinds of timeline events.
#[derive(Clone, Copy, Debug, PartialEq, Eq, Structural)]
pub enum EventType {
    ContextChange,
    AppSwitch,
    UserQuery,
    AiResponse,
}

/// The stored name of an event type.
pub open spec fn event_type_name(t: EventType) -> Seq<char> {
    match t {
        EventType::ContextChange => "context_change"@,
        EventType::AppSwitch => "app_switch"@,
        EventType::UserQuery => "user_query"@,
        EventType::AiResponse => "ai_response"@,
    }
}

/// The event type a stored name denotes, if any.
pub open spec fn event_type_from_name(s: Seq<char>) -> Option<EventType> {
    if s == "context_change"@ {
        Some(EventType::ContextChange)
    } else if s == "app_switch"@ {
        Some(EventType::AppSwitch)
    } else if s == "user_query"@ {
        Some(EventType::UserQuery)
    } else if s == "ai_response"@ {
        Some(EventType::AiResponse)
    } else {
        None
    }
}

impl EventType {
    /// The snake_case name under which the event type is stored.
    pub fn as_str(self) -> (s: &'static str)
        ensures
            s@ == event_type_name(self),
    {
        match self {
            EventType::ContextChange => "context_change",
            EventType::AppSwitch => "app_switch",
            EventType::UserQuery => "user_query",
            EventType::AiResponse => "ai_response",
        }
    }

    /// Parses a stored name; the error names the unknown value.
    pub fn parse(s: &str) -> (r: Result<EventType, String>)
        ensures
            match r {
                Ok(t) => event_type_from_name(s@) == Some(t),
                Err(msg) => event_type_from_name(s@).is_none() && msg@ == "unknown event_type: "@ + s@,
            },
    {
        let v = chars_of(s);
        if chars_eq(&v, &chars_of("context_change")) {
            Ok(EventType::ContextChange)
        } else if chars_eq(&v, &chars_of("app_switch")) {
            Ok(EventType::AppSwitch)
        } else if chars_eq(&v, &chars_of("user_query")) {
            Ok(EventType::UserQuery)
        } else if chars_eq(&v, &chars_of("ai_response")) {
            Ok(EventType::AiResponse)
        } else {
            Err(String::from_str("unknown event_type: ").concat(s))
        }
    }
}

/// Parsing an event type's stored name gives the event type back.
pub proof fn law_event_type_round_trip(t: EventType)
    ensures
        event_type_from_name(event_type_name(t)) == Some(t),
{
    reveal_strlit("context_change");
    reveal_strlit("app_switch");
    reveal_strlit("user_query");
    reveal_strlit("ai_response");
    assert("context_change"@ != "app_switch"@) by {
        assert("context_change"@.len() != "app_switch"@.len());
    }
    assert("context_change"@ != "user_query"@) by {
        assert("context_change"@.len() != "user_query"@.len());
    }
    assert("context_change"@ != "ai_response"@) by {
        assert("context_change"@.len() != "ai_response"@.len());
    }
    assert("app_switch"@ != "user_query"@) by {
        assert("app_switch"@[0] != "user_query"@[0]);
    }
    assert("app_switch"@ != "ai_response"@) by {
        assert("app_switch"@.len() != "ai_response"@.len());
    }
    assert("user_query"@ != "ai_response"@) by {
        assert("user_query"@.len() != "ai_response"@.len());
    }
}

/// A stored piece of visible text awaiting or holding an embedding.
#[derive(Debug)]
pub struct MemoryChunk {
    pub id: u128,
    pub context_id: Option<u128>,
    pub content: String,
    pub content_hash: String,
    pub timestamp: i64,
    pub application: String,
    pub metadata: Metadata,
    pub token_count: i64,
}

/// A human-readable entry of the activity timeline.
#[derive(Debug)]
pub struct TimelineEvent {
    pub id: u128,
    pub timestamp: i64,
    pub event_type: EventType,
    pub summary: String,
    pub application: String,
    pub window_title: String,
    pub duration_ms: Option<i64>,
    pub context_id: Option<u128>,
}

impl TimelineEvent {
    /// A copy of the event.
    pub fn copy(&self) -> (r: TimelineEvent)
        ensures
            r == *self,
    {
        TimelineEvent {
            id: self.id,
            timestamp: self.timestamp,
            event_type: self.event_type,
            summary: self.summary.clone(),
            application: self.application.clone(),
            window_title: self.window_title.clone(),
            duration_ms: self.duration_ms,
            context_id: self.context_id,
        }
    }
}

/// Rows removed by a retention purge.
#[derive(Clone, Copy, Debug)]
pub struct PurgeStats {
    pub chunks_deleted: usize,
    pub snapshots_deleted: usize,
    pub events_deleted: usize,
}

/// An inclusive time range, in milliseconds since the Unix epoch.
#[derive(Clone, Copy, Debug)]
pub struct TimeRange {
    pub start: i64,
    pub end: i64,
}

impl TimeRange {
    /// Whether `t` lies in the range (both ends included).
    pub open spec fn holds(self, t: i64) -> bool {
        self.start <= t && t <= self.end
    }

    /// Exec form of [`TimeRange::holds`].
    pub fn contains(&self, t: i64) -> (b: bool)
        ensures
            b == self.holds(t),
    {
        self.start <= t && t <= self.end
    }
}

/// A page request.
#[derive(Clone, Copy, Debug)]
pub struct Pagination {
    pub limit: u32,
    pub offset: u32,
}

/// One page of results and the total count matching the query.
#[derive(Debug)]
pub struct Page<T> {
    pub items: Vec<T>,
    pub total: i64,
}

/// An MCP access token row (only the bcrypt hash of the token is stored).
#[derive(Debug)]
pub struct TokenInfo {
    pub id: String,
    pub token_hash: String,
    pub label: String,
    pub created_at: i64,
    pub last_used_at: Option<i64>,
    pub revoked: bool,
}

/// The vector table for an embedding of `dims` dimensions, if supported.
pub open spec fn embedding_table_name(dims: nat) -> Option<Seq<char>> {
    if dims == 384 {
        Some("embeddings"@)
    } else if dims == 768 {
        Some("embeddings_768"@)
    } else {
        None
    }
}

/// Chooses the vector table for an embedding by its dimension count; other
/// dimension counts are refused with a conversion error naming the count.
pub fn embedding_table(dims: usize) -> (r: Result<&'static str, ContexaError>)
    ensures
        match r {
            Ok(t) => embedding_table_name(dims as nat) == Some(t@),
            Err(e) => embedding_table_name(dims as nat).is_none() && (e matches ContexaError::Conversion(m)
                && m@ == "unsupported embedding dimensions: "@ + decimal_text(dims as nat)
                + " (expected 384 or 768)"@),
        },
{
    if dims == 384 {
        Ok("embeddings")
    } else if dims == 768 {
        Ok("embeddings_768")
    } else {
        let msg = String::from_str("unsupported embedding dimensions: ").concat(usize_to_decimal(dims).as_str()).concat(
            " (expected 384 or 768)",
        );
        Err(ContexaError::Conversion(msg))
    }
}

/// Chooses the vector table to search with a query vector by its dimension
/// count; other dimension counts are refused with a conversion error naming
/// the count.
pub fn search_table(dims: usize) -> (r: Result<&'static str, ContexaError>)
    ensures
        match r {
            Ok(t) => embedding_table_name(dims as nat) == Some(t@),
            Err(e) => embedding_table_name(dims as nat).is_none() && (e matches ContexaError::Conversion(m)
                && m@ == "unsupported query vector dimensions: "@ + decimal_text(dims as nat)
                + " (expected 384 or 768)"@),
        },
{
    if dims == 384 {
        Ok("embeddings")
    } else if dims == 768 {
        Ok("embeddings_768")
    } else {
        let msg = String::from_str("unsupported query vector dimensions: ").concat(usize_to_decimal(dims).as_str()).concat(
            " (expected 384 or 768)",
        );
        Err(ContexaError::Conversion(msg))
    }
}

/// The SQL `LIMIT` for a result count: the count itself, or `i64::MAX` when
/// it does not fit (a negative limit would mean "no limit").
pub fn sql_limit(limit: usize) -> (r: i64)
    ensures
        r == if limit <= i64::MAX { limit as i64 } else { i64::MAX },
{
    if limit as u128 <= i64::MAX as u128 {
        limit as i64
    } else {
        i64::MAX
    }
}

} // verus!
