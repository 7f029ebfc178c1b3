//! Timeline building: context changes become human-readable events, with
//! repeats of the same application and window debounced.

use vstd::prelude::*;
use crate::model::{EventType, TimelineEvent};
use crate::runtime::new_uuid;
use crate::text::{chars_of, slice_chars, string_from_chars, push_char};
use crate::types::{ContextSnapshot, SnapshotView};

verus! {

/// The ellipsis appended to truncated text.
pub const ELLIPSIS: char = '\u{2026}';

/// `s` when it has at most `max` characters, otherwise its first `max`
/// characters followed by an ellipsis.
pub open spec fn truncated_with_ellipsis(s: Seq<char>, max: nat) -> Seq<char> {
    if s.len() <= max {
        s
    } else {
        s.take(max as int).push(ELLIPSIS)
    }
}

/// Path separators (both are separators in Windows paths).
pub open spec fn is_separator(c: char) -> bool {
    c == '/' || c == '\\'
}

/// `s` without trailing separators.
pub open spec fn trim_trailing_separators(s: Seq<char>) -> Seq<char>
    decreases s.len(),
{
    if s.len() > 0 && is_separator(s.last()) {
        trim_trailing_separators(s.drop_last())
    } else {
        s
    }
}

/// The characters after the last separator of `s` (all of `s` without one).
pub open spec fn last_segment(s: Seq<char>) -> Seq<char>
    decreases s.len(),
{
    if s.len() == 0 {
        Seq::empty()
    } else if is_separator(s.last()) {
        Seq::empty()
    } else {
        last_segment(s.drop_last()).push(s.last())
    }
}

/// `s` without a leading drive prefix (an ASCII letter and `:`).
pub open spec fn strip_drive(s: Seq<char>) -> Seq<char> {
    if s.len() >= 2 && s[1] == ':' && is_ascii_letter(s[0]) {
        s.subrange(2, s.len() as int)
    } else {
        s
    }
}

/// Whether `c` is an ASCII letter.
pub open spec fn is_ascii_letter(c: char) -> bool {
    ('a' <= c && c <= 'z') || ('A' <= c && c <= 'Z')
}

/// The last component of a path body: separators are dropped from the end,
/// and so are `.` components, which name the directory they stand in.
pub open spec fn last_component(s: Seq<char>) -> Option<Seq<char>>
    decreases s.len(),
{
    let t = trim_trailing_separators(s);
    if t.len() == 0 {
        None
    } else if last_segment(t) == seq!['.'] {
        proof {
            lemma_trim_shorter(s);
        }
        last_component(t.drop_last())
    } else {
        Some(last_segment(t))
    }
}

/// The final component of a Windows path, as `Path::file_name` finds it: a
/// drive prefix is not a component, trailing separators and `.` components
/// are skipped, and a last component `..` (or none at all) has no file
/// name, in which case the whole path is given back.
pub open spec fn file_name_of(path: Seq<char>) -> Seq<char> {
    match last_component(strip_drive(path)) {
        Some(c) => if c == seq!['.', '.'] { path } else { c },
        None => path,
    }
}

/// Dropping separators never lengthens a text.
pub proof fn lemma_trim_shorter(s: Seq<char>)
    ensures
        trim_trailing_separators(s).len() <= s.len(),
    decreases s.len(),
{
    if s.len() > 0 && is_separator(s.last()) {
        lemma_trim_shorter(s.drop_last());
    }
}

/// The summary of a snapshot: what is browsed, edited, or used.
pub open spec fn summary_of(s: SnapshotView) -> Seq<char> {
    match (s.url, s.document_path) {
        (Some(url), _) => "Browsing: "@ + truncated_with_ellipsis(url, 80),
        (None, Some(path)) => "Editing: "@ + file_name_of(path),
        (None, None) => "Using "@ + s.process_name + ": "@ + truncated_with_ellipsis(s.window_title, 60),
    }
}

/// Truncates `s` to `max` characters, marking a cut with an ellipsis.
pub fn truncate(s: &str, max_chars: usize) -> (r: String)
    ensures
        r@ == truncated_with_ellipsis(s@, max_chars as nat),
{
    let v = chars_of(s);
    if v.len() <= max_chars {
        return string_from_chars(&v);
    }
    let mut out = string_from_chars(&slice_chars(&v, 0, max_chars));
    push_char(&mut out, ELLIPSIS);
    out
}

/// The end of `v[start..end]` once trailing separators are dropped.
fn trim_end(v: &Vec<char>, start: usize, end: usize) -> (t_end: usize)
    requires
        start <= end <= v@.len(),
    ensures
        start <= t_end <= end,
        v@.subrange(start as int, t_end as int) == trim_trailing_separators(v@.subrange(start as int, end as int)),
{
    let mut t_end = end;
    while t_end > start && (v[t_end - 1] == '/' || v[t_end - 1] == '\\')
        invariant
            start <= t_end <= end <= v@.len(),
            trim_trailing_separators(v@.subrange(start as int, end as int)) == trim_trailing_separators(
                v@.subrange(start as int, t_end as int),
            ),
        decreases t_end,
    {
        assert(v@.subrange(start as int, t_end as int).drop_last() == v@.subrange(start as int, t_end - 1));
        assert(v@.subrange(start as int, t_end as int).last() == v@[t_end - 1]);
        t_end -= 1;
    }
    if t_end > start {
        assert(v@.subrange(start as int, t_end as int).last() == v@[t_end - 1]);
    }
    t_end
}

/// Where the last segment of `v[start..end]` begins.
fn segment_start(v: &Vec<char>, start: usize, end: usize) -> (seg: usize)
    requires
        start <= end <= v@.len(),
    ensures
        start <= seg <= end,
        v@.subrange(seg as int, end as int) == last_segment(v@.subrange(start as int, end as int)),
{
    let mut seg = end;
    assert(v@.subrange(end as int, end as int) =~= Seq::<char>::empty());
    assert(v@.subrange(start as int, end as int) == v@.subrange(start as int, seg as int));
    while seg > start && !(v[seg - 1] == '/' || v[seg - 1] == '\\')
        invariant
            start <= seg <= end <= v@.len(),
            last_segment(v@.subrange(start as int, end as int)) == last_segment(v@.subrange(start as int, seg as int))
                + v@.subrange(seg as int, end as int),
        decreases seg,
    {
        assert(v@.subrange(start as int, seg as int).drop_last() == v@.subrange(start as int, seg - 1));
        assert(v@.subrange(start as int, seg as int).last() == v@[seg - 1]);
        assert(v@.subrange(seg - 1, end as int) =~= seq![v@[seg - 1]] + v@.subrange(seg as int, end as int));
        seg -= 1;
    }
    if seg > start {
        assert(v@.subrange(start as int, seg as int).last() == v@[seg - 1]);
    }
    seg
}

/// The final component of a path (see [`file_name_of`]).
pub fn file_name(path: &str) -> (r: String)
    ensures
        r@ == file_name_of(path@),
{
    let v = chars_of(path);
    let ghost p = v@;
    let start: usize = if v.len() >= 2 && v[1] == ':' && (('a' <= v[0] && v[0] <= 'z') || ('A' <= v[0] && v[0] <= 'Z')) {
        2
    } else {
        0
    };
    assert(strip_drive(p) == p.subrange(start as int, p.len() as int));
    let mut end: usize = v.len();
    loop
        invariant
            start <= end <= v@.len(),
            p == v@,
            p == path@,
            last_component(strip_drive(p)) == last_component(p.subrange(start as int, end as int)),
        decreases end,
    {
        let ghost cur = p.subrange(start as int, end as int);
        let t_end = trim_end(&v, start, end);
        let ghost t = p.subrange(start as int, t_end as int);
        if t_end == start {
            assert(last_component(cur) == None::<Seq<char>>);
            return string_from_chars(&v);
        }
        let seg_start = segment_start(&v, start, t_end);
        let seg = slice_chars(&v, seg_start, t_end);
        assert(seg@ == last_segment(t));
        if seg.len() == 1 && seg[0] == '.' {
            assert(seg@ =~= seq!['.']);
            assert(t.drop_last() =~= p.subrange(start as int, t_end - 1));
            assert(last_component(cur) == last_component(t.drop_last()));
            end = t_end - 1;
        } else {
            proof {
                if seg@ == seq!['.'] {
                    assert(seg@.len() == 1 && seg@[0] == '.');
                }
            }
            assert(last_component(cur) == Some(last_segment(t)));
            if seg.len() == 2 && seg[0] == '.' && seg[1] == '.' {
                assert(seg@ =~= seq!['.', '.']);
                return string_from_chars(&v);
            }
            proof {
                if seg@ == seq!['.', '.'] {
                    assert(seg@.len() == 2 && seg@[0] == '.' && seg@[1] == '.');
                }
            }
            return string_from_chars(&seg);
        }
    }
}

/// The summary of a snapshot (see [`summary_of`]).
pub fn generate_summary(snapshot: &ContextSnapshot) -> (r: String)
    ensures
        r@ == summary_of(snapshot@),
{
    match (&snapshot.url, &snapshot.document_path) {
        (Some(url), _) => String::from_str("Browsing: ").concat(truncate(url.as_str(), 80).as_str()),
        (None, Some(path)) => String::from_str("Editing: ").concat(file_name(path.as_str()).as_str()),
        (None, None) => String::from_str("Using ").concat(snapshot.process_name.as_str()).concat(": ").concat(
            truncate(snapshot.window_title.as_str(), 60).as_str(),
        ),
    }
}

/// Whether a snapshot repeats the application and window of the last event.
pub open spec fn is_debounced(last: Option<TimelineEvent>, s: SnapshotView) -> bool {
    match last {
        Some(prev) => prev.application@ == s.process_name && prev.window_title@ == s.window_title,
        None => false,
    }
}

/// An application switch when the last event was in another application, a
/// context change otherwise.
pub open spec fn classify(last: Option<TimelineEvent>, s: SnapshotView) -> EventType {
    match last {
        Some(prev) => if prev.application@ != s.process_name {
            EventType::AppSwitch
        } else {
            EventType::ContextChange
        },
        None => EventType::ContextChange,
    }
}

/// Turns context changes into timeline events.
pub struct TimelineBuilder {
    pub last_event: Option<TimelineEvent>,
}

impl TimelineBuilder {
    /// A builder that has produced no event yet.
    pub fn new() -> (b: TimelineBuilder)
        ensures
            b.last_event.is_none(),
    {
        TimelineBuilder { last_event: None }
    }

    /// Produces the event for `snapshot` under the identifier `id`, or `None`
    /// when it repeats the last event's application and window. The new
    /// event becomes the one later snapshots are compared with.
    pub fn process_with_id(&mut self, snapshot: &ContextSnapshot, id: u128) -> (r: Option<TimelineEvent>)
        ensures
            is_debounced(old(self).last_event, snapshot@) ==> r.is_none() && final(self).last_event == old(self).last_event,
            !is_debounced(old(self).last_event, snapshot@) ==> (r matches Some(e) && {
                &&& e.id == id
                &&& e.timestamp == snapshot.timestamp
                &&& e.event_type == classify(old(self).last_event, snapshot@)
                &&& e.summary@ == summary_of(snapshot@)
                &&& e.application@ == snapshot.process_name@
                &&& e.window_title@ == snapshot.window_title@
                &&& e.duration_ms.is_none()
                &&& e.context_id == Some(snapshot.id)
                &&& final(self).last_event == Some(e)
            }),
    {
        match &self.last_event {
            Some(prev) => {
                if prev.application == snapshot.process_name && prev.window_title == snapshot.window_title {
                    return None;
                }
            },
            None => {},
        }
        let event_type = match &self.last_event {
            Some(prev) => if !(prev.application == snapshot.process_name) {
                EventType::AppSwitch
            } else {
                EventType::ContextChange
            },
            None => EventType::ContextChange,
        };
        let event = TimelineEvent {
            id,
            timestamp: snapshot.timestamp,
            event_type,
            summary: generate_summary(snapshot),
            application: snapshot.process_name.clone(),
            window_title: snapshot.window_title.clone(),
            duration_ms: None,
            context_id: Some(snapshot.id),
        };
        self.last_event = Some(event.copy());
        Some(event)
    }

    /// Produces the event for `snapshot` under a fresh identifier (see
    /// [`Self::process_with_id`]).
    pub fn process_context_change(&mut self, snapshot: &ContextSnapshot) -> (r: Option<TimelineEvent>)
        ensures
            is_debounced(old(self).last_event, snapshot@) ==> r.is_none() && final(self).last_event == old(self).last_event,
            !is_debounced(old(self).last_event, snapshot@) ==> (r matches Some(e) && {
                &&& e.timestamp == snapshot.timestamp
                &&& e.event_type == classify(old(self).last_event, snapshot@)
                &&& e.summary@ == summary_of(snapshot@)
                &&& e.application@ == snapshot.process_name@
                &&& e.window_title@ == snapshot.window_title@
                &&& e.duration_ms.is_none()
                &&& e.context_id == Some(snapshot.id)
                &&& final(self).last_event == Some(e)
            }),
    {
        let id = new_uuid();
        self.process_with_id(snapshot, id)
    }
}

impl Default for TimelineBuilder {
    /// Same as `new`.
    fn default() -> (b: Self)
        ensures
            b.last_event.is_none(),
    {
        Self::new()
    }
}

/// Two consecutive snapshots of the same application and window give one
/// event: the second is debounced.
pub proof fn law_repeat_is_debounced(e: TimelineEvent, s: SnapshotView)
    requires
        e.application@ == s.process_name,
        e.window_title@ == s.window_title,
    ensures
        is_debounced(Some(e), s),
{
}

} // verus!
