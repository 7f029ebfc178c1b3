//! The MCP tools' arguments, defaults, audit summaries and results, as far
//! as they are computed rather than read from the database or serialized.

use vstd::prelude::*;
use crate::model::{Pagination, TimeRange};
use crate::text::{chars_of, decimal_text, slice_chars, string_from_chars, usize_to_decimal};
use crate::runtime::{parse_rfc3339_millis, rfc3339_outcome};
use crate::types::{capture_method_name, ContextSnapshot};

verus! {

/// Minutes of context the tools look back over by default.
pub const DEFAULT_RECENT_MINUTES: u32 = 30;
/// The longest look-back a tool accepts, in minutes (one day).
pub const MAX_RECENT_MINUTES: u32 = 1440;
/// Timeline events returned by default.
pub const DEFAULT_TIMELINE_LIMIT: u32 = 50;
/// Search results returned by default.
pub const DEFAULT_SEARCH_LIMIT: usize = 10;
/// Visible-text characters returned by default.
pub const DEFAULT_MAX_VISIBLE_TEXT: usize = 10_000;

/// Arguments of `get_visible_text`.
#[derive(Debug)]
pub struct GetVisibleTextRequest {
    /// Characters to return at most (default 10000).
    pub max_length: Option<u32>,
}

/// Arguments of `get_recent_context`.
#[derive(Debug)]
pub struct GetRecentContextRequest {
    /// Minutes to look back (default 30, at most 1440).
    pub minutes: Option<u32>,
}

/// Arguments of `get_timeline`.
#[derive(Debug)]
pub struct GetTimelineRequest {
    /// RFC 3339 start timestamp.
    pub start: String,
    /// RFC 3339 end timestamp.
    pub end: String,
    /// Events to return at most (default 50).
    pub limit: Option<u32>,
}

/// Arguments of `search_context`.
#[derive(Debug)]
pub struct SearchContextRequest {
    /// The semantic search query.
    pub query: String,
    /// Results to return at most (default 10).
    pub limit: Option<u32>,
}

impl GetVisibleTextRequest {
    /// The character limit: the given one, else 10000.
    #[verifier::allow_in_spec]
    pub fn max_chars(&self) -> usize
        returns
            (match self.max_length {
                Some(v) => v as usize,
                None => DEFAULT_MAX_VISIBLE_TEXT,
            }),
    {
        match self.max_length {
            Some(v) => v as usize,
            None => DEFAULT_MAX_VISIBLE_TEXT,
        }
    }

    /// The audit summary: `{"max_length":N}`.
    pub fn summary(&self) -> (s: String)
        ensures
            s@ == "{\"max_length\":"@ + decimal_text(self.max_chars() as nat) + "}"@,
    {
        let n = self.max_chars();
        String::from_str("{\"max_length\":").concat(usize_to_decimal(n).as_str()).concat("}")
    }
}

impl GetRecentContextRequest {
    /// The look-back: the given minutes (at most 1440), else 30.
    #[verifier::allow_in_spec]
    pub fn window_minutes(&self) -> u32
        returns
            (match self.minutes {
                Some(v) => if v > MAX_RECENT_MINUTES { MAX_RECENT_MINUTES } else { v },
                None => DEFAULT_RECENT_MINUTES,
            }),
    {
        match self.minutes {
            Some(v) => if v > MAX_RECENT_MINUTES {
                MAX_RECENT_MINUTES
            } else {
                v
            },
            None => DEFAULT_RECENT_MINUTES,
        }
    }

    /// The audit summary: `{"minutes":N}`.
    pub fn summary(&self) -> (s: String)
        ensures
            s@ == "{\"minutes\":"@ + decimal_text(self.window_minutes() as nat) + "}"@,
    {
        let m = self.window_minutes();
        String::from_str("{\"minutes\":").concat(usize_to_decimal(m as usize).as_str()).concat("}")
    }
}

/// How Rust's `Debug` formatting writes a string: quoted, with escapes.
pub uninterp spec fn debug_str_text(s: Seq<char>) -> Seq<char>;

/// std's `Debug` formatting of a string (`format!("{s:?}")`). The result
/// is named: it depends on the text alone.
#[verifier::external_body]
fn debug_quoted(s: &str) -> (r: String)
    ensures
        r@ == debug_str_text(s@),
{
    format!("{s:?}")
}

/// The error for a timestamp that does not parse.
pub open spec fn invalid_timestamp_text(s: Seq<char>, reason: Seq<char>) -> Seq<char> {
    "invalid RFC3339 timestamp "@ + debug_str_text(s) + ": "@ + reason
}

/// One timestamp of a timeline request, in milliseconds.
pub open spec fn timestamp_outcome(s: Seq<char>) -> Result<i64, Seq<char>> {
    match rfc3339_outcome(s) {
        Ok(t) => Ok(t),
        Err(reason) => Err(invalid_timestamp_text(s, reason)),
    }
}

/// Parses one timestamp of a timeline request.
fn parse_timestamp(s: &str) -> (r: Result<i64, String>)
    ensures
        match r {
            Ok(t) => timestamp_outcome(s@) == Ok::<i64, Seq<char>>(t),
            Err(m) => timestamp_outcome(s@) == Err::<i64, Seq<char>>(m@),
        },
{
    match parse_rfc3339_millis(s) {
        Ok(t) => Ok(t),
        Err(reason) => Err(
            String::from_str("invalid RFC3339 timestamp ").concat(debug_quoted(s).as_str()).concat(": ").concat(
                reason.as_str(),
            ),
        ),
    }
}

impl GetTimelineRequest {
    /// The event limit: the given one, else 50.
    #[verifier::allow_in_spec]
    pub fn event_limit(&self) -> u32
        returns
            (match self.limit {
                Some(v) => v,
                None => DEFAULT_TIMELINE_LIMIT,
            }),
    {
        match self.limit {
            Some(v) => v,
            None => DEFAULT_TIMELINE_LIMIT,
        }
    }

    /// The audit summary: `{"start":"S","end":"E","limit":N}`, with the
    /// timestamps as given.
    pub fn summary(&self) -> (s: String)
        ensures
            s@ == "{\"start\":\""@ + self.start@ + "\",\"end\":\""@ + self.end@ + "\",\"limit\":"@ + decimal_text(
                self.event_limit() as nat,
            ) + "}"@,
    {
        let n = self.event_limit();
        String::from_str("{\"start\":\"").concat(self.start.as_str()).concat("\",\"end\":\"").concat(
            self.end.as_str(),
        ).concat("\",\"limit\":").concat(usize_to_decimal(n as usize).as_str()).concat("}")
    }

    /// The range and page to read: both timestamps parsed (the start is
    /// reported first when both are invalid), the first page of the limit.
    pub fn query(&self) -> (r: Result<(TimeRange, Pagination), String>)
        ensures
            match (timestamp_outcome(self.start@), timestamp_outcome(self.end@)) {
                (Err(m), _) => r matches Err(e) && e@ == m,
                (Ok(_), Err(m)) => r matches Err(e) && e@ == m,
                (Ok(start), Ok(end)) => r matches Ok((range, page)) && range.start == start && range.end
                    == end && page.limit == self.event_limit() && page.offset == 0,
            },
    {
        let start = match parse_timestamp(self.start.as_str()) {
            Ok(t) => t,
            Err(m) => {
                return Err(m);
            },
        };
        let end = match parse_timestamp(self.end.as_str()) {
            Ok(t) => t,
            Err(m) => {
                return Err(m);
            },
        };
        Ok((TimeRange { start, end }, Pagination { limit: self.event_limit(), offset: 0 }))
    }
}

impl SearchContextRequest {
    /// The result limit: the given one, else 10.
    #[verifier::allow_in_spec]
    pub fn result_limit(&self) -> usize
        returns
            (match self.limit {
                Some(v) => v as usize,
                None => DEFAULT_SEARCH_LIMIT,
            }),
    {
        match self.limit {
            Some(v) => v as usize,
            None => DEFAULT_SEARCH_LIMIT,
        }
    }

    /// The audit summary: `{"query":Q,"limit":N}`, the query written as
    /// Rust's `Debug` writes a string.
    pub fn summary(&self) -> (s: String)
        ensures
            s@ == "{\"query\":"@ + debug_str_text(self.query@) + ",\"limit\":"@ + decimal_text(
                self.result_limit() as nat,
            ) + "}"@,
    {
        let n = self.result_limit();
        String::from_str("{\"query\":").concat(debug_quoted(self.query.as_str()).as_str()).concat(",\"limit\":").concat(
            usize_to_decimal(n).as_str(),
        ).concat("}")
    }
}

/// The result of `get_visible_text`.
#[derive(Debug)]
pub struct VisibleText {
    pub text: String,
    pub capture_method: Option<&'static str>,
    pub truncated: bool,
}

/// The visible text of the latest snapshot, cut to `max_length`
/// characters and flagged when cut; without a snapshot, empty text and no
/// capture method.
pub fn visible_text_result(latest: Option<&ContextSnapshot>, max_length: usize) -> (v: VisibleText)
    ensures
        match latest {
            None => v.text@.len() == 0 && v.capture_method is None && !v.truncated,
            Some(s) => {
                let full = match s.visible_text {
                    Some(t) => t@,
                    None => Seq::<char>::empty(),
                };
                &&& v.truncated == (full.len() > max_length)
                &&& v.text@ == if full.len() > max_length { full.take(max_length as int) } else { full }
                &&& v.capture_method matches Some(m) && m@ == capture_method_name(s.capture_method)
            },
        },
{
    match latest {
        None => VisibleText { text: String::new(), capture_method: None, truncated: false },
        Some(s) => {
            let full = match &s.visible_text {
                Some(t) => chars_of(t.as_str()),
                None => Vec::new(),
            };
            let truncated = full.len() > max_length;
            let kept = if truncated {
                slice_chars(&full, 0, max_length)
            } else {
                full
            };
            VisibleText {
                text: string_from_chars(&kept),
                capture_method: Some(s.capture_method.as_str()),
                truncated,
            }
        },
    }
}

} // verus!
