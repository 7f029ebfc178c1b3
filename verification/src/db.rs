//! Decoding stored rows into the library's types. The application runs
//! the SQL, reads each column, and parses the metadata JSON column; the
//! identifiers, timestamps and enumerations are decoded here.

use vstd::prelude::*;
use crate::model::{event_type_from_name, EventType, Page, TimelineEvent};
use crate::runtime::{
    format_rfc3339_millis, format_uuid, parse_rfc3339_millis, parse_uuid, rfc3339_outcome, rfc3339_text_of,
    uuid_outcome, uuid_text_of,
};
use crate::types::{capture_method_from_name, CaptureMethod, ContexaError, ContextSnapshot, Metadata};
use crate::text::{clone_opt, opt_view};

verus! {

/// A stored identifier decoded: the UUID's 128-bit value, or a conversion
/// error with the parser's text.
pub open spec fn id_outcome(s: Seq<char>) -> Result<u128, Seq<char>> {
    uuid_outcome(s)
}

/// Decodes a stored UUID.
pub fn decode_id(s: &str) -> (r: Result<u128, ContexaError>)
    ensures
        match uuid_outcome(s@) {
            Ok(v) => r == Ok::<u128, ContexaError>(v),
            Err(m) => r matches Err(ContexaError::Conversion(e)) && e@ == m,
        },
{
    match parse_uuid(s) {
        Ok(v) => Ok(v),
        Err(m) => Err(ContexaError::Conversion(m)),
    }
}

/// An identifier as the text the tables store: its hyphenated lowercase
/// UUID text.
pub fn encode_id(id: u128) -> (s: String)
    ensures
        s@ == uuid_text_of(id),
{
    format_uuid(id)
}

/// An instant as the RFC 3339 text the tables store, or a conversion error
/// for an instant that cannot be written as a date.
pub fn encode_timestamp(ms: i64) -> (r: Result<String, ContexaError>)
    ensures
        match rfc3339_text_of(ms) {
            Some(t) => r matches Ok(s) && s@ == t,
            None => r matches Err(ContexaError::Conversion(_)),
        },
{
    match format_rfc3339_millis(ms) {
        Some(t) => Ok(t),
        None => Err(ContexaError::Conversion(String::from_str("timestamp out of range"))),
    }
}

/// Decodes a stored RFC 3339 timestamp to milliseconds.
pub fn decode_timestamp(s: &str) -> (r: Result<i64, ContexaError>)
    ensures
        match rfc3339_outcome(s@) {
            Ok(t) => r == Ok::<i64, ContexaError>(t),
            Err(m) => r matches Err(ContexaError::Conversion(e)) && e@ == m,
        },
{
    match parse_rfc3339_millis(s) {
        Ok(t) => Ok(t),
        Err(m) => Err(ContexaError::Conversion(m)),
    }
}

/// A `timeline_events` row as read.
#[derive(Debug)]
pub struct EventRow {
    pub id: String,
    pub timestamp: String,
    pub event_type: String,
    pub summary: String,
    pub application: String,
    pub window_title: String,
    pub duration_ms: Option<i64>,
    pub context_id: Option<String>,
}

/// Whether a row decodes, and then what it decodes to: the columns are
/// checked in order (id, timestamp, event type, context id), the first bad
/// one failing the row.
pub open spec fn event_row_decodes(row: EventRow) -> bool {
    &&& uuid_outcome(row.id@) is Ok
    &&& rfc3339_outcome(row.timestamp@) is Ok
    &&& event_type_from_name(row.event_type@) is Some
    &&& (row.context_id matches Some(c) ==> uuid_outcome(c@) is Ok)
}

/// The event a row decodes to (meaningful when it decodes).
pub open spec fn event_of_row(row: EventRow, e: TimelineEvent) -> bool {
    &&& uuid_outcome(row.id@) == Ok::<u128, Seq<char>>(e.id)
    &&& rfc3339_outcome(row.timestamp@) == Ok::<i64, Seq<char>>(e.timestamp)
    &&& event_type_from_name(row.event_type@) == Some(e.event_type)
    &&& e.summary@ == row.summary@
    &&& e.application@ == row.application@
    &&& e.window_title@ == row.window_title@
    &&& e.duration_ms == row.duration_ms
    &&& match row.context_id {
        Some(c) => e.context_id matches Some(v) && uuid_outcome(c@) == Ok::<u128, Seq<char>>(v),
        None => e.context_id is None,
    }
}

/// Decodes a timeline row; the first column that does not decode fails it
/// with a conversion error.
pub fn event_from_row(row: &EventRow) -> (r: Result<TimelineEvent, ContexaError>)
    ensures
        event_row_decodes(*row) <==> r is Ok,
        r matches Ok(e) ==> event_of_row(*row, e),
        r matches Err(e) ==> e is Conversion,
{
    let id = match decode_id(row.id.as_str()) {
        Ok(v) => v,
        Err(e) => {
            return Err(e);
        },
    };
    let timestamp = match decode_timestamp(row.timestamp.as_str()) {
        Ok(t) => t,
        Err(e) => {
            return Err(e);
        },
    };
    let event_type = match EventType::parse(row.event_type.as_str()) {
        Ok(t) => t,
        Err(m) => {
            return Err(ContexaError::Conversion(m));
        },
    };
    let context_id = match &row.context_id {
        Some(c) => match decode_id(c.as_str()) {
            Ok(v) => Some(v),
            Err(e) => {
                return Err(e);
            },
        },
        None => None,
    };
    Ok(TimelineEvent {
        id,
        timestamp,
        event_type,
        summary: row.summary.clone(),
        application: row.application.clone(),
        window_title: row.window_title.clone(),
        duration_ms: row.duration_ms,
        context_id,
    })
}

/// Decodes a page of timeline rows with the total count of matching rows;
/// the first row that does not decode fails the page.
pub fn events_page(rows: &Vec<EventRow>, total: i64) -> (r: Result<Page<TimelineEvent>, ContexaError>)
    ensures
        (forall|i: int| 0 <= i < rows@.len() ==> event_row_decodes(#[trigger] rows@[i])) <==> r is Ok,
        r matches Ok(p) ==> p.total == total && p.items@.len() == rows@.len() && forall|i: int|
            0 <= i < rows@.len() ==> event_of_row(#[trigger] rows@[i], p.items@[i]),
{
    let mut items: Vec<TimelineEvent> = Vec::new();
    let mut k: usize = 0;
    while k < rows.len()
        invariant
            k <= rows@.len(),
            items@.len() == k,
            forall|i: int| 0 <= i < k ==> event_row_decodes(#[trigger] rows@[i]),
            forall|i: int| 0 <= i < k ==> event_of_row(rows@[i], #[trigger] items@[i]),
        decreases rows.len() - k,
    {
        let decoded = event_from_row(&rows[k]);
        let e = match decoded {
            Ok(e) => e,
            Err(err) => {
                assert(!event_row_decodes(rows@[k as int]));
                return Err(err);
            },
        };
        assert(event_row_decodes(rows@[k as int]) && event_of_row(rows@[k as int], e));
        let ghost prev = items@;
        items.push(e);
        assert(items@[k as int] == e);
        assert forall|i: int| 0 <= i < k + 1 implies event_of_row(rows@[i], #[trigger] items@[i]) by {
            if i < k {
                assert(items@[i] == prev[i]);
            }
        }
        k += 1;
    }
    Ok(Page { items, total })
}

/// A `context_snapshots` row as read, with its metadata JSON already
/// parsed by the application.
#[derive(Debug)]
pub struct SnapshotRow {
    pub id: String,
    pub timestamp: String,
    pub window_title: String,
    pub process_name: String,
    pub process_id: i64,
    pub hwnd: Option<i64>,
    pub url: Option<String>,
    pub document_path: Option<String>,
    pub visible_text: Option<String>,
    pub selected_text: Option<String>,
    pub metadata: Metadata,
    pub language: Option<String>,
    pub capture_method: String,
}

/// Whether a snapshot row decodes: id, timestamp and capture method.
pub open spec fn snapshot_row_decodes(row: SnapshotRow) -> bool {
    &&& uuid_outcome(row.id@) is Ok
    &&& rfc3339_outcome(row.timestamp@) is Ok
    &&& capture_method_from_name(row.capture_method@) is Some
}

/// Decodes a snapshot row; the first column that does not decode (id,
/// timestamp, capture method) fails it with a conversion error.
pub fn snapshot_from_row(row: SnapshotRow) -> (r: Result<ContextSnapshot, ContexaError>)
    ensures
        snapshot_row_decodes(row) <==> r is Ok,
        r matches Err(e) ==> e is Conversion,
        r matches Ok(s) ==> {
            &&& uuid_outcome(row.id@) == Ok::<u128, Seq<char>>(s.id)
            &&& rfc3339_outcome(row.timestamp@) == Ok::<i64, Seq<char>>(s.timestamp)
            &&& capture_method_from_name(row.capture_method@) == Some(s.capture_method)
            &&& s.window_title@ == row.window_title@
            &&& s.process_name@ == row.process_name@
            &&& s.process_id == row.process_id
            &&& s.hwnd == row.hwnd
            &&& opt_view(s.url) == opt_view(row.url)
            &&& opt_view(s.document_path) == opt_view(row.document_path)
            &&& opt_view(s.visible_text) == opt_view(row.visible_text)
            &&& opt_view(s.selected_text) == opt_view(row.selected_text)
            &&& s.metadata@ == row.metadata@
            &&& opt_view(s.language) == opt_view(row.language)
        },
{
    let id = match decode_id(row.id.as_str()) {
        Ok(v) => v,
        Err(e) => {
            return Err(e);
        },
    };
    let timestamp = match decode_timestamp(row.timestamp.as_str()) {
        Ok(t) => t,
        Err(e) => {
            return Err(e);
        },
    };
    let capture_method = match CaptureMethod::parse(row.capture_method.as_str()) {
        Ok(m) => m,
        Err(m) => {
            return Err(ContexaError::Conversion(m));
        },
    };
    Ok(ContextSnapshot {
        id,
        timestamp,
        window_title: row.window_title,
        process_name: row.process_name,
        process_id: row.process_id,
        hwnd: row.hwnd,
        url: row.url,
        document_path: row.document_path,
        visible_text: row.visible_text,
        selected_text: row.selected_text,
        metadata: row.metadata,
        language: row.language,
        capture_method,
    })
}

} // verus!
