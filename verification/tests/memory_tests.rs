use contexa::hex::hex_encode;
use contexa::memory::chunking::{chunk_text, estimate_tokens};
use contexa::memory::deduplicator::{content_hash, Deduplicator};
use contexa::memory::engine::{
    is_significant, keep_hit, EmbeddingQueue, MemoryIngestor, RetentionPurger, SearchFilter,
};
use contexa::memory::timeline_builder::{file_name, generate_summary, truncate, TimelineBuilder};
use contexa::memory::working_memory::WorkingMemory;
use contexa::model::{EventType, MemoryChunk, TimeRange};
use contexa::types::{CaptureMethod, ContextSnapshot, Metadata};

fn now_ms() -> i64 {
    chrono::Utc::now().timestamp_millis()
}

fn snapshot(process_name: &str, window_title: &str) -> ContextSnapshot {
    ContextSnapshot {
        id: uuid::Uuid::new_v4().as_u128(),
        timestamp: now_ms(),
        window_title: window_title.to_string(),
        process_name: process_name.to_string(),
        process_id: 1,
        hwnd: None,
        url: None,
        document_path: None,
        visible_text: None,
        selected_text: None,
        metadata: Metadata::new(),
        language: None,
        capture_method: CaptureMethod::Uia,
    }
}

fn snapshot_at(timestamp: i64) -> ContextSnapshot {
    let mut s = snapshot("p", "t");
    s.timestamp = timestamp;
    s
}

// ---- chunking ----

#[test]
fn short_text_stays_a_single_chunk() {
    let text = "hello world";
    assert_eq!(chunk_text(text), vec![text.to_string()]);
}

#[test]
fn long_text_splits_into_multiple_overlapping_chunks() {
    let text = "a".repeat(3000);
    let chunks = chunk_text(&text);
    assert!(chunks.len() > 1);
    let total: usize = chunks.iter().map(|c| c.chars().count()).sum();
    assert!(total >= text.chars().count());
}

#[test]
fn estimate_tokens_is_roughly_chars_over_four() {
    assert_eq!(estimate_tokens("abcd"), 1);
    assert_eq!(estimate_tokens("abcde"), 2);
    assert_eq!(estimate_tokens(""), 1);
}

#[test]
fn long_text_chunks_have_exact_windows() {
    // 3000 characters: windows of 2048 characters advancing by 1848.
    let text = "a".repeat(3000);
    let chunks = chunk_text(&text);
    assert_eq!(chunks.len(), 2);
    assert_eq!(chunks[0].chars().count(), 2048);
    assert_eq!(chunks[1].chars().count(), 3000 - 1848);
}

#[test]
fn final_window_keeps_the_remaining_characters() {
    // Windows start every 1848 characters; the last one runs to the end.
    let text = "b".repeat(3800);
    let chunks = chunk_text(&text);
    assert_eq!(chunks.len(), 2);
    assert_eq!(chunks[1].chars().count(), 3800 - 1848);
    let text = "b".repeat(3950);
    let chunks = chunk_text(&text);
    assert_eq!(chunks.len(), 3);
    assert_eq!(chunks[2].chars().count(), 3950 - 3696);
}

#[test]
fn empty_text_is_one_empty_chunk() {
    assert_eq!(chunk_text(""), vec![String::new()]);
}

#[test]
fn consecutive_chunks_overlap_by_two_hundred_characters() {
    let text: String = (0..5000u32).map(|i| char::from(b'a' + (i % 26) as u8)).collect();
    let chunks = chunk_text(&text);
    for pair in chunks.windows(2) {
        let prev: Vec<char> = pair[0].chars().collect();
        let next: Vec<char> = pair[1].chars().collect();
        assert_eq!(prev[prev.len() - 200..], next[..200]);
    }
}

// ---- deduplicator ----

#[test]
fn first_sighting_is_not_a_duplicate() {
    let mut dd = Deduplicator::default();
    assert!(!dd.is_duplicate("hello"));
}

#[test]
fn repeated_content_is_a_duplicate() {
    let mut dd = Deduplicator::default();
    assert!(!dd.is_duplicate("hello"));
    assert!(dd.is_duplicate("hello"));
}

#[test]
fn different_content_is_not_a_duplicate() {
    let mut dd = Deduplicator::default();
    assert!(!dd.is_duplicate("hello"));
    assert!(!dd.is_duplicate("world"));
}

#[test]
fn evicts_least_recently_seen_once_over_capacity() {
    let mut dd = Deduplicator::new(1);
    assert!(!dd.is_duplicate("a"));
    assert!(!dd.is_duplicate("b"));
    assert!(!dd.is_duplicate("a"));
}

#[test]
fn zero_capacity_behaves_as_one() {
    let mut dd = Deduplicator::new(0);
    assert!(!dd.is_duplicate("a"));
    assert!(dd.is_duplicate("a"));
    assert!(!dd.is_duplicate("b"));
    assert!(!dd.is_duplicate("a"));
}

#[test]
fn content_hash_is_deterministic_and_hex() {
    let a = content_hash("same input");
    let b = content_hash("same input");
    assert_eq!(a, b);
    assert!(a.chars().all(|c| c.is_ascii_hexdigit()));
}

#[test]
fn content_hash_is_the_sha256_of_the_text() {
    assert_eq!(
        content_hash("abc"),
        "ba7816bf8f01cfea414140de5dae2223b00361a396177a9cb410ff61f20015ad"
    );
    assert_eq!(
        content_hash(""),
        "e3b0c44298fc1c149afbf4c8996fb92427ae41e4649b934ca495991b7852b855"
    );
}

#[test]
fn hex_encode_is_lowercase_two_digits_per_byte() {
    assert_eq!(hex_encode(&[0x00, 0x0f, 0xa0, 0xff]), "000fa0ff");
    assert_eq!(hex_encode(&[]), "");
}

// ---- timeline ----

#[test]
fn first_snapshot_produces_a_context_change_event() {
    let mut tb = TimelineBuilder::new();
    let event = tb
        .process_context_change(&snapshot("Code.exe", "main.rs"))
        .expect("first snapshot should produce an event");
    assert_eq!(event.event_type, EventType::ContextChange);
}

#[test]
fn same_app_and_window_is_debounced() {
    let mut tb = TimelineBuilder::new();
    tb.process_context_change(&snapshot("Code.exe", "main.rs"));
    let second = tb.process_context_change(&snapshot("Code.exe", "main.rs"));
    assert!(second.is_none());
}

#[test]
fn different_app_produces_an_app_switch_event() {
    let mut tb = TimelineBuilder::new();
    tb.process_context_change(&snapshot("Code.exe", "main.rs"));
    let event = tb
        .process_context_change(&snapshot("chrome.exe", "GitHub"))
        .expect("app switch should produce an event");
    assert_eq!(event.event_type, EventType::AppSwitch);
}

#[test]
fn same_app_different_window_produces_a_context_change_event() {
    let mut tb = TimelineBuilder::new();
    tb.process_context_change(&snapshot("Code.exe", "main.rs"));
    let event = tb
        .process_context_change(&snapshot("Code.exe", "lib.rs"))
        .expect("window change should produce an event");
    assert_eq!(event.event_type, EventType::ContextChange);
}

#[test]
fn summary_prefers_url_then_document_path_then_window_title() {
    let mut with_url = snapshot("chrome.exe", "GitHub");
    with_url.url = Some("https://github.com/rust-lang/rust".to_string());
    assert!(generate_summary(&with_url).starts_with("Browsing:"));

    let mut with_doc = snapshot("Code.exe", "main.rs — VS Code");
    with_doc.document_path = Some("D:\\Contexa\\src\\main.rs".to_string());
    assert_eq!(generate_summary(&with_doc), "Editing: main.rs");

    let plain = snapshot("notepad.exe", "Untitled");
    assert_eq!(generate_summary(&plain), "Using notepad.exe: Untitled");
}

#[test]
fn event_carries_snapshot_time_summary_and_id() {
    let mut tb = TimelineBuilder::new();
    let mut s = snapshot("chrome.exe", "GitHub");
    s.url = Some("https://example.com".to_string());
    let event = tb.process_context_change(&s).expect("first snapshot opens an event");
    assert_eq!(event.timestamp, s.timestamp);
    assert_eq!(event.summary, "Browsing: https://example.com");
    assert_eq!(event.application, "chrome.exe");
    assert_eq!(event.window_title, "GitHub");
    assert_eq!(event.context_id, Some(s.id));
    assert_eq!(event.duration_ms, None);
}

#[test]
fn truncate_adds_an_ellipsis_only_when_too_long() {
    assert_eq!(truncate("abc", 3), "abc");
    assert_eq!(truncate("abcd", 3), "abc…");
    assert_eq!(truncate("", 0), "");
}

#[test]
fn long_url_summary_is_truncated_to_eighty_characters() {
    let mut s = snapshot("chrome.exe", "x");
    s.url = Some("u".repeat(100));
    let summary = generate_summary(&s);
    assert_eq!(summary, format!("Browsing: {}…", "u".repeat(80)));
}

#[test]
fn file_name_takes_the_last_path_component() {
    assert_eq!(file_name("D:\\Contexa\\src\\main.rs"), "main.rs");
    assert_eq!(file_name("/home/user/lib.rs"), "lib.rs");
    assert_eq!(file_name("plain.txt"), "plain.txt");
}

#[test]
fn file_name_follows_windows_path_components() {
    assert_eq!(file_name("foo.txt/."), "foo.txt");
    assert_eq!(file_name("C:foo"), "foo");
    assert_eq!(file_name("C:\\"), "C:\\");
    assert_eq!(file_name("dir\\"), "dir");
    assert_eq!(file_name("a/.."), "a/..");
    assert_eq!(file_name("."), ".");
}

// ---- working memory ----

#[test]
fn evicts_oldest_beyond_max_size() {
    let mut wm = WorkingMemory::new(2, 3_600_000);
    wm.push(snapshot_at(now_ms()));
    wm.push(snapshot_at(now_ms()));
    wm.push(snapshot_at(now_ms()));
    assert_eq!(wm.get_all().len(), 2);
}

#[test]
fn evicts_snapshots_older_than_max_age() {
    let mut wm = WorkingMemory::new(200, 60_000);
    wm.push(snapshot_at(now_ms() - 3_600_000));
    wm.push(snapshot_at(now_ms()));
    assert_eq!(wm.get_all().len(), 1);
}

#[test]
fn push_at_keeps_the_newest_in_order() {
    let mut wm = WorkingMemory::new(2, 1_000);
    wm.push_at(snapshot_at(100), 100);
    wm.push_at(snapshot_at(200), 200);
    wm.push_at(snapshot_at(300), 300);
    let all = wm.get_all();
    assert_eq!(all.iter().map(|s| s.timestamp).collect::<Vec<_>>(), vec![200, 300]);
    wm.push_at(snapshot_at(2_000), 2_000);
    let all = wm.get_all();
    assert_eq!(all.iter().map(|s| s.timestamp).collect::<Vec<_>>(), vec![2_000]);
}

// ---- engine ----

#[test]
fn significance_requires_visible_or_selected_text() {
    let mut s = snapshot("p", "t");
    assert!(!is_significant(&s));

    s.visible_text = Some("   ".to_string());
    assert!(!is_significant(&s), "whitespace-only isn't significant");

    s.visible_text = Some("real content".to_string());
    assert!(is_significant(&s));
}

#[test]
fn selected_text_alone_is_significant() {
    let mut s = snapshot("p", "t");
    s.selected_text = Some("picked".to_string());
    assert!(is_significant(&s));
}

#[test]
fn retention_cutoff_is_days_before_now() {
    let purger = RetentionPurger::new(2);
    assert_eq!(purger.cutoff_at(1_000_000_000), 1_000_000_000 - 2 * 86_400_000);
    assert_eq!(RetentionPurger::default().retention_days, 90);
    assert_eq!(RetentionPurger::new(1).cutoff_at(i64::MIN), i64::MIN);
}

#[test]
fn ingestion_yields_chunks_once_per_distinct_text() {
    let mut ingestor = MemoryIngestor::new();
    let mut s = snapshot("Code.exe", "main.rs");
    s.visible_text = Some("fn main() {}".to_string());
    ingestor.remember(&s);
    assert!(ingestor.timeline_event(&s).is_some());
    let chunks = ingestor.memory_chunks(&s);
    assert_eq!(chunks.len(), 1);
    assert_eq!(chunks[0].content, "fn main() {}");
    assert_eq!(chunks[0].content_hash, content_hash("fn main() {}"));
    assert_eq!(chunks[0].token_count, 3);
    assert_eq!(chunks[0].context_id, Some(s.id));
    assert_eq!(chunks[0].application, "Code.exe");
    // The same text again is a duplicate: no chunks, no new event.
    assert!(ingestor.memory_chunks(&s).is_empty());
    assert!(ingestor.timeline_event(&s).is_none());
    assert_eq!(ingestor.get_working_memory().len(), 1);
}

#[test]
fn insignificant_snapshot_yields_no_chunks() {
    let mut ingestor = MemoryIngestor::new();
    let mut s = snapshot("p", "t");
    s.selected_text = Some("only selection".to_string());
    assert!(ingestor.memory_chunks(&s).is_empty());
}

#[test]
fn search_filter_checks_time_and_application() {
    let filter = SearchFilter {
        time_range: Some(TimeRange { start: 10, end: 20 }),
        application_filter: Some("Code.exe".to_string()),
    };
    assert!(keep_hit(&filter, 15, "Code.exe"));
    assert!(keep_hit(&filter, 10, "Code.exe"));
    assert!(keep_hit(&filter, 20, "Code.exe"));
    assert!(!keep_hit(&filter, 21, "Code.exe"));
    assert!(!keep_hit(&filter, 15, "chrome.exe"));
    let open = SearchFilter { time_range: None, application_filter: None };
    assert!(keep_hit(&open, i64::MIN, ""));
}

fn chunk(n: u128) -> MemoryChunk {
    MemoryChunk {
        id: n,
        context_id: None,
        content: format!("c{n}"),
        content_hash: String::new(),
        timestamp: 0,
        application: String::new(),
        metadata: Metadata::new(),
        token_count: 1,
    }
}

#[test]
fn embedding_queue_flushes_at_batch_size() {
    let mut q = EmbeddingQueue::new();
    for i in 0..9 {
        assert!(!q.enqueue(chunk(i)));
    }
    assert!(q.enqueue(chunk(9)));
    let batch = q.take_batch();
    assert_eq!(batch.len(), 10);
    assert_eq!(batch[3].id, 3);
    assert!(q.take_batch().is_empty());
}
