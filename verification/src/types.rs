//! Shared context, request and error types.

use vstd::prelude::*;
use crate::text::{chars_of, chars_eq, clone_opt, opt_view};

verus! {

/// How the visible text of a snapshot was obtained.
#[derive(Clone, Copy, Debug, PartialEq, Eq, Structural)]
pub enum CaptureMethod {
    Uia,
    Ocr,
    Hybrid,
}

/// The stored name of a capture method.
pub open spec fn capture_method_name(m: CaptureMethod) -> Seq<char> {
    match m {
        CaptureMethod::Uia => "uia"@,
        CaptureMethod::Ocr => "ocr"@,
        CaptureMethod::Hybrid => "hybrid"@,
    }
}

/// The capture method a stored name denotes, if any.
pub open spec fn capture_method_from_name(s: Seq<char>) -> Option<CaptureMethod> {
    if s == "uia"@ {
        Some(CaptureMethod::Uia)
    } else if s == "ocr"@ {
        Some(CaptureMethod::Ocr)
    } else if s == "hybrid"@ {
        Some(CaptureMethod::Hybrid)
    } else {
        None
    }
}

impl CaptureMethod {
    /// The lowercase name under which the method is stored and reported.
    pub fn as_str(self) -> (s: &'static str)
        ensures
            s@ == capture_method_name(self),
    {
        match self {
            CaptureMethod::Uia => "uia",
            CaptureMethod::Ocr => "ocr",
            CaptureMethod::Hybrid => "hybrid",
        }
    }

    /// Parses a stored name; the error names the unknown value.
    pub fn parse(s: &str) -> (r: Result<CaptureMethod, String>)
        ensures
            match r {
                Ok(m) => capture_method_from_name(s@) == Some(m),
                Err(msg) => capture_method_from_name(s@).is_none() && msg@ == "unknown capture_method: "@
                    + s@,
            },
    {
        let v = chars_of(s);
        if chars_eq(&v, &chars_of("uia")) {
            Ok(CaptureMethod::Uia)
        } else if chars_eq(&v, &chars_of("ocr")) {
            Ok(CaptureMethod::Ocr)
        } else if chars_eq(&v, &chars_of("hybrid")) {
            Ok(CaptureMethod::Hybrid)
        } else {
            Err(String::from_str("unknown capture_method: ").concat(s))
        }
    }
}

/// Parsing a capture method's stored name gives the method back.
pub proof fn law_capture_method_round_trip(m: CaptureMethod)
    ensures
        capture_method_from_name(capture_method_name(m)) == Some(m),
{
    reveal_strlit("uia");
    reveal_strlit("ocr");
    reveal_strlit("hybrid");
    assert("uia"@ != "ocr"@) by {
        assert("uia"@[0] != "ocr"@[0]);
    }
    assert("uia"@ != "hybrid"@) by {
        assert("uia"@.len() != "hybrid"@.len());
    }
    assert("ocr"@ != "hybrid"@) by {
        assert("ocr"@.len() != "hybrid"@.len());
    }
}

/// String-keyed string metadata attached to a snapshot, in insertion order,
/// each key at most once.
#[derive(Debug)]
pub struct Metadata {
    pub entries: Vec<(String, String)>,
}

/// The characters of a key/value pair.
pub open spec fn pair_view(e: (String, String)) -> (Seq<char>, Seq<char>) {
    (e.0@, e.1@)
}

impl View for Metadata {
    type V = Seq<(Seq<char>, Seq<char>)>;

    open spec fn view(&self) -> Seq<(Seq<char>, Seq<char>)> {
        self.entries@.map_values(|e: (String, String)| pair_view(e))
    }
}

/// The value stored under `key` among `entries`, if any (the first match).
pub open spec fn lookup(entries: Seq<(Seq<char>, Seq<char>)>, key: Seq<char>) -> Option<Seq<char>>
    decreases entries.len(),
{
    if entries.len() == 0 {
        None
    } else if entries[0].0 == key {
        Some(entries[0].1)
    } else {
        lookup(entries.drop_first(), key)
    }
}

/// No key occurs twice.
pub open spec fn keys_unique(entries: Seq<(Seq<char>, Seq<char>)>) -> bool {
    forall|i: int, j: int|
        0 <= i < entries.len() && 0 <= j < entries.len() && i != j ==> #[trigger] entries[i].0
            != #[trigger] entries[j].0
}

/// Replacing the first entry for a key replaces its value and nothing else.
proof fn lemma_lookup_update(entries: Seq<(Seq<char>, Seq<char>)>, i: int, kv: (Seq<char>, Seq<char>), k: Seq<char>)
    requires
        0 <= i < entries.len(),
        entries[i].0 == kv.0,
        forall|j: int| 0 <= j < i ==> #[trigger] entries[j].0 != kv.0,
    ensures
        lookup(entries.update(i, kv), k) == if k == kv.0 {
            Some(kv.1)
        } else {
            lookup(entries, k)
        },
    decreases entries.len(),
{
    if i == 0 {
        assert(entries.update(i, kv).drop_first() == entries.drop_first());
    } else {
        assert(entries.update(i, kv).drop_first() == entries.drop_first().update(i - 1, kv));
        assert forall|j: int| 0 <= j < i - 1 implies #[trigger] entries.drop_first()[j].0 != kv.0 by {
            assert(entries[j + 1].0 != kv.0);
        }
        assert(entries[0].0 != kv.0);
        lemma_lookup_update(entries.drop_first(), i - 1, kv, k);
    }
}

/// Appending an entry adds its key if it was absent and changes nothing else.
proof fn lemma_lookup_push(entries: Seq<(Seq<char>, Seq<char>)>, kv: (Seq<char>, Seq<char>), k: Seq<char>)
    ensures
        lookup(entries.push(kv), k) == match lookup(entries, k) {
            Some(v) => Some(v),
            None => if k == kv.0 {
                Some(kv.1)
            } else {
                None
            },
        },
    decreases entries.len(),
{
    if entries.len() > 0 {
        assert(entries.push(kv).drop_first() == entries.drop_first().push(kv));
        lemma_lookup_push(entries.drop_first(), kv, k);
    } else {
        assert(entries.push(kv).drop_first() == entries);
    }
}

/// A key that no entry carries has no value.
proof fn lemma_lookup_absent(entries: Seq<(Seq<char>, Seq<char>)>, key: Seq<char>)
    requires
        forall|j: int| 0 <= j < entries.len() ==> #[trigger] entries[j].0 != key,
    ensures
        lookup(entries, key).is_none(),
    decreases entries.len(),
{
    if entries.len() > 0 {
        assert(entries[0].0 != key);
        assert forall|j: int| 0 <= j < entries.drop_first().len() implies #[trigger] entries.drop_first()[j].0 != key by {
            assert(entries[j + 1].0 != key);
        }
        lemma_lookup_absent(entries.drop_first(), key);
    }
}

/// The first entry carrying a key gives its value.
proof fn lemma_lookup_found(entries: Seq<(Seq<char>, Seq<char>)>, i: int, key: Seq<char>)
    requires
        0 <= i < entries.len(),
        entries[i].0 == key,
        forall|j: int| 0 <= j < i ==> #[trigger] entries[j].0 != key,
    ensures
        lookup(entries, key) == Some(entries[i].1),
    decreases entries.len(),
{
    if i > 0 {
        assert(entries[0].0 != key);
        assert forall|j: int| 0 <= j < i - 1 implies #[trigger] entries.drop_first()[j].0 != key by {
            assert(entries[j + 1].0 != key);
        }
        lemma_lookup_found(entries.drop_first(), i - 1, key);
    }
}

impl Metadata {
    /// The value stored under `key`, if any.
    pub open spec fn spec_get(&self, key: Seq<char>) -> Option<Seq<char>> {
        lookup(self@, key)
    }

    /// Keys are unique.
    pub open spec fn wf(&self) -> bool {
        keys_unique(self@)
    }

    /// Empty metadata.
    pub fn new() -> (m: Metadata)
        ensures
            m.wf(),
            m@.len() == 0,
            forall|k: Seq<char>| m.spec_get(k).is_none(),
    {
        let m = Metadata { entries: Vec::new() };
        assert(m@ =~= Seq::empty());
        m
    }

    /// Number of keys.
    pub fn len(&self) -> (n: usize)
        ensures
            n == self@.len(),
    {
        self.entries.len()
    }

    /// Whether no key is stored.
    pub fn is_empty(&self) -> (b: bool)
        ensures
            b == (self@.len() == 0),
    {
        self.entries.len() == 0
    }

    /// The value stored under `key`, if any.
    pub fn get(&self, key: &str) -> (r: Option<String>)
        ensures
            opt_view(r) == self.spec_get(key@),
    {
        let k = chars_of(key);
        let mut i: usize = 0;
        while i < self.entries.len()
            invariant
                i <= self.entries.len(),
                k@ == key@,
                forall|j: int| 0 <= j < i ==> #[trigger] self@[j].0 != key@,
            decreases self.entries.len() - i,
        {
            if chars_eq(&chars_of(self.entries[i].0.as_str()), &k) {
                proof {
                    lemma_lookup_found(self@, i as int, key@);
                }
                return Some(self.entries[i].1.clone());
            }
            i += 1;
        }
        proof {
            lemma_lookup_absent(self@, key@);
        }
        None
    }

    /// Stores `value` under `key`, replacing any previous value.
    pub fn insert(&mut self, key: String, value: String)
        requires
            old(self).wf(),
        ensures
            final(self).wf(),
            final(self).spec_get(key@) == Some(value@),
            forall|k: Seq<char>| k != key@ ==> final(self).spec_get(k) == old(self).spec_get(k),
    {
        let k = chars_of(key.as_str());
        let mut i: usize = 0;
        while i < self.entries.len()
            invariant
                i <= self.entries.len(),
                k@ == key@,
                self@ == old(self)@,
                self.entries@ == old(self).entries@,
                keys_unique(old(self)@),
                forall|j: int| 0 <= j < i ==> #[trigger] self@[j].0 != key@,
            decreases self.entries.len() - i,
        {
            if chars_eq(&chars_of(self.entries[i].0.as_str()), &k) {
                let ghost before = self@;
                let ghost kv = (key@, value@);
                self.entries.set(i, (key, value));
                proof {
                    assert(self@ =~= before.update(i as int, kv));
                    assert forall|kk: Seq<char>| #[trigger] lookup(self@, kk) == if kk == key@ {
                        Some(value@)
                    } else {
                        lookup(before, kk)
                    } by {
                        lemma_lookup_update(before, i as int, kv, kk);
                    }
                    assert forall|a: int, b: int|
                        0 <= a < before.len() && 0 <= b < before.len() && a != b implies #[trigger] self@[a].0
                            != #[trigger] self@[b].0 by {
                        assert(self@[a].0 == before[a].0);
                        assert(self@[b].0 == before[b].0);
                        assert(before[a].0 != before[b].0);
                    }
                }
                return;
            }
            i += 1;
        }
        let ghost before = self@;
        let ghost kv = (key@, value@);
        self.entries.push((key, value));
        proof {
            assert(self@ =~= before.push(kv));
            assert forall|kk: Seq<char>| kk != key@ implies #[trigger] lookup(self@, kk) == lookup(before, kk) by {
                lemma_lookup_push(before, kv, kk);
            }
            lemma_lookup_push(before, kv, key@);
            lemma_lookup_absent(before, key@);
            assert forall|a: int, b: int|
                0 <= a < self@.len() && 0 <= b < self@.len() && a != b implies #[trigger] self@[a].0
                    != #[trigger] self@[b].0 by {
                if a < before.len() && b < before.len() {
                    assert(before[a].0 != before[b].0);
                }
            }
        }
    }

    /// A copy of the metadata.
    pub fn copy(&self) -> (m: Metadata)
        ensures
            m@ == self@,
    {
        let mut entries: Vec<(String, String)> = Vec::new();
        let mut i: usize = 0;
        while i < self.entries.len()
            invariant
                i <= self.entries.len(),
                entries@.map_values(|e: (String, String)| pair_view(e)) == self@.subrange(0, i as int),
            decreases self.entries.len() - i,
        {
            let (k, v) = (self.entries[i].0.clone(), self.entries[i].1.clone());
            let ghost before = entries@;
            entries.push((k, v));
            assert(entries@.map_values(|e: (String, String)| pair_view(e)) =~= before.map_values(|e: (String, String)| pair_view(e)).push(self@[i as int]));
            assert(self@.subrange(0, i + 1) == self@.subrange(0, i as int).push(self@[i as int]));
            i += 1;
        }
        assert(self@.subrange(0, self.entries.len() as int) == self@);
        Metadata { entries }
    }
}

/// A point-in-time view of the foreground window: what it is, what it shows
/// and what was selected. Identifiers are UUIDs held as 128-bit integers and
/// timestamps are milliseconds since the Unix epoch (UTC).
#[derive(Debug)]
pub struct ContextSnapshot {
    pub id: u128,
    pub timestamp: i64,
    pub window_title: String,
    pub process_name: String,
    pub process_id: i64,
    pub hwnd: Option<i64>,
    pub url: Option<String>,
    pub document_path: Option<String>,
    pub visible_text: Option<String>,
    pub selected_text: Option<String>,
    pub metadata: Metadata,
    pub language: Option<String>,
    pub capture_method: CaptureMethod,
}

/// The mathematical content of a [`ContextSnapshot`].
pub struct SnapshotView {
    pub id: u128,
    pub timestamp: i64,
    pub window_title: Seq<char>,
    pub process_name: Seq<char>,
    pub process_id: i64,
    pub hwnd: Option<i64>,
    pub url: Option<Seq<char>>,
    pub document_path: Option<Seq<char>>,
    pub visible_text: Option<Seq<char>>,
    pub selected_text: Option<Seq<char>>,
    pub metadata: Seq<(Seq<char>, Seq<char>)>,
    pub language: Option<Seq<char>>,
    pub capture_method: CaptureMethod,
}

impl View for ContextSnapshot {
    type V = SnapshotView;

    open spec fn view(&self) -> SnapshotView {
        SnapshotView {
            id: self.id,
            timestamp: self.timestamp,
            window_title: self.window_title@,
            process_name: self.process_name@,
            process_id: self.process_id,
            hwnd: self.hwnd,
            url: opt_view(self.url),
            document_path: opt_view(self.document_path),
            visible_text: opt_view(self.visible_text),
            selected_text: opt_view(self.selected_text),
            metadata: self.metadata@,
            language: opt_view(self.language),
            capture_method: self.capture_method,
        }
    }
}

impl ContextSnapshot {
    /// Metadata keys are unique.
    pub open spec fn wf(&self) -> bool {
        self.metadata.wf()
    }

    /// A copy of the snapshot.
    pub fn copy(&self) -> (r: ContextSnapshot)
        ensures
            r@ == self@,
            r.wf() == self.wf(),
    {
        ContextSnapshot {
            id: self.id,
            timestamp: self.timestamp,
            window_title: self.window_title.clone(),
            process_name: self.process_name.clone(),
            process_id: self.process_id,
            hwnd: self.hwnd,
            url: clone_opt(&self.url),
            document_path: clone_opt(&self.document_path),
            visible_text: clone_opt(&self.visible_text),
            selected_text: clone_opt(&self.selected_text),
            metadata: self.metadata.copy(),
            language: clone_opt(&self.language),
            capture_method: self.capture_method,
        }
    }
}

/// What the user asked the assistant to do.
#[derive(Debug)]
pub enum RequestAction {
    Chat,
    Explain,
    Summarize,
    Translate { target_lang: String },
    Search,
    Recall,
}

/// Per-request knobs. The sampling temperature is carried by the
/// application layer, which owns the floating-point provider options.
#[derive(Clone, Copy, Debug)]
pub struct RequestPreferences {
    pub stream: bool,
    pub max_tokens: Option<u32>,
    pub force_search: bool,
    pub force_ocr: bool,
}

impl Default for RequestPreferences {
    /// Streaming on, no token cap, no forced search or OCR.
    fn default() -> (p: RequestPreferences)
        ensures
            p.stream,
            p.max_tokens.is_none(),
            !p.force_search,
            !p.force_ocr,
    {
        RequestPreferences { stream: true, max_tokens: None, force_search: false, force_ocr: false }
    }
}

/// A user's request to the orchestrator.
#[derive(Debug)]
pub struct UserRequest {
    pub id: u128,
    pub action: RequestAction,
    pub query: Option<String>,
    pub context_override: Option<ContextSnapshot>,
    pub preferences: RequestPreferences,
}

/// Which sources a request needs; each field is an independent decision.
#[derive(Clone, Copy, Debug, PartialEq, Eq, Structural)]
pub struct ExecutionPlan {
    pub need_context: bool,
    pub need_ocr: bool,
    pub need_memory: bool,
    pub need_timeline: bool,
    pub need_search: bool,
    pub need_mcp: bool,
}

/// Lifecycle of a request.
#[derive(Debug)]
pub enum RequestStatus {
    Planning,
    Gathering,
    Generating,
    Complete,
    Failed(String),
    Cancelled,
}

impl RequestStatus {
    /// A copy of the status.
    pub fn copy(&self) -> (r: RequestStatus)
        ensures
            status_view(r) == status_view(*self),
    {
        match self {
            RequestStatus::Planning => RequestStatus::Planning,
            RequestStatus::Gathering => RequestStatus::Gathering,
            RequestStatus::Generating => RequestStatus::Generating,
            RequestStatus::Complete => RequestStatus::Complete,
            RequestStatus::Failed(m) => RequestStatus::Failed(m.clone()),
            RequestStatus::Cancelled => RequestStatus::Cancelled,
        }
    }
}

/// A status with its failure message as characters.
pub enum StatusView {
    Planning,
    Gathering,
    Generating,
    Complete,
    Failed(Seq<char>),
    Cancelled,
}

/// The mathematical content of a status.
pub open spec fn status_view(s: RequestStatus) -> StatusView {
    match s {
        RequestStatus::Planning => StatusView::Planning,
        RequestStatus::Gathering => StatusView::Gathering,
        RequestStatus::Generating => StatusView::Generating,
        RequestStatus::Complete => StatusView::Complete,
        RequestStatus::Failed(m) => StatusView::Failed(m@),
        RequestStatus::Cancelled => StatusView::Cancelled,
    }
}

/// A request as reported to callers.
#[derive(Debug)]
pub struct RequestHandle {
    pub id: String,
    pub status: RequestStatus,
    pub started_at: i64,
}

impl RequestHandle {
    /// A copy of the handle.
    pub fn copy(&self) -> (r: RequestHandle)
        ensures
            r.id@ == self.id@,
            status_view(r.status) == status_view(self.status),
            r.started_at == self.started_at,
    {
        RequestHandle { id: self.id.clone(), status: self.status.copy(), started_at: self.started_at }
    }
}

/// Errors of the library.
#[derive(Debug)]
pub enum ContexaError {
    CaptureFailed { reason: String },
    ContextUnavailable,
    LlmProviderError { provider: String, message: String },
    Database { message: String },
    Migration { message: String },
    Serialization { message: String },
    Conversion(String),
    TaskJoin(String),
    Unauthorized,
}

} // verus!

verus! {

/// The text of an error, as shown to users.
pub open spec fn error_text(e: ContexaError) -> Seq<char> {
    match e {
        ContexaError::CaptureFailed { reason } => "Capture failed: "@ + reason@,
        ContexaError::ContextUnavailable => "Context unavailable"@,
        ContexaError::LlmProviderError { provider, message } => "LLM provider error ("@ + provider@ + "): "@
            + message@,
        ContexaError::Database { message } => "Database error: "@ + message@,
        ContexaError::Migration { message } => "Migration error: "@ + message@,
        ContexaError::Serialization { message } => "Serialization error: "@ + message@,
        ContexaError::Conversion(m) => "Conversion error: "@ + m@,
        ContexaError::TaskJoin(m) => "Background task failed: "@ + m@,
        ContexaError::Unauthorized => "Unauthorized"@,
    }
}

impl ContexaError {
    /// The text of the error, as shown to users.
    pub fn message(&self) -> (m: String)
        ensures
            m@ == error_text(*self),
    {
        match self {
            ContexaError::CaptureFailed { reason } => String::from_str("Capture failed: ").concat(reason.as_str()),
            ContexaError::ContextUnavailable => String::from_str("Context unavailable"),
            ContexaError::LlmProviderError { provider, message } => String::from_str("LLM provider error (").concat(
                provider.as_str(),
            ).concat("): ").concat(message.as_str()),
            ContexaError::Database { message } => String::from_str("Database error: ").concat(message.as_str()),
            ContexaError::Migration { message } => String::from_str("Migration error: ").concat(message.as_str()),
            ContexaError::Serialization { message } => String::from_str("Serialization error: ").concat(
                message.as_str(),
            ),
            ContexaError::Conversion(m) => String::from_str("Conversion error: ").concat(m.as_str()),
            ContexaError::TaskJoin(m) => String::from_str("Background task failed: ").concat(m.as_str()),
            ContexaError::Unauthorized => String::from_str("Unauthorized"),
        }
    }
}

} // verus!
