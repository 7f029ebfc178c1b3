use contexa::context::assembler::{SnapshotAssembler, VisionCapture, MAX_VISIBLE_TEXT_CHARS};
use contexa::context::cache::{ContextCache, RECENT_CAPACITY};
use contexa::context::change_detector::ChangeDetector;
use contexa::context::chromium::ChromiumEnricher;
use contexa::context::engine::ContexaContextEngine;
use contexa::context::enricher::{ContextEnricher, PluginInfo, WindowProbe};
use contexa::context::language::detect_language;
use contexa::context::registry::{apply_enrichment, BuiltinEnricher, PluginRegistry, PluginSandbox};
use contexa::context::selection::{choose_selection, NoSelectionSource, SelectionSource, SelectionTracker};
use contexa::context::vscode::{language_from_extension, parse_title, VsCodeEnricher};
use contexa::types::{CaptureMethod, ContexaError, ContextSnapshot, Metadata};

fn now_ms() -> i64 {
    chrono::Utc::now().timestamp_millis()
}

fn snapshot(hwnd: i64, title: &str, url: Option<&str>, text: Option<&str>) -> ContextSnapshot {
    ContextSnapshot {
        id: uuid::Uuid::new_v4().as_u128(),
        timestamp: now_ms(),
        window_title: title.to_string(),
        process_name: "chrome.exe".to_string(),
        process_id: 1,
        hwnd: Some(hwnd),
        url: url.map(str::to_string),
        document_path: None,
        visible_text: text.map(str::to_string),
        selected_text: None,
        metadata: Metadata::new(),
        language: None,
        capture_method: CaptureMethod::Uia,
    }
}

fn snapshot_at(timestamp: i64) -> ContextSnapshot {
    let mut s = snapshot(1, "Notepad", None, None);
    s.timestamp = timestamp;
    s.process_name = "notepad.exe".to_string();
    s
}

fn vision(uia: Option<&str>, ocr: Option<&str>) -> VisionCapture {
    VisionCapture {
        hwnd: 42,
        window_title: "Notepad".to_string(),
        process_name: "notepad.exe".to_string(),
        process_id: 1234,
        uia_text: uia.map(str::to_string),
        ocr_text: ocr.map(str::to_string),
        timestamp: now_ms(),
    }
}

fn no_probe() -> WindowProbe {
    WindowProbe { address_bar: None }
}

// ---- assembler ----

#[test]
fn maps_window_and_process_fields() {
    let snapshot = SnapshotAssembler.assemble(vision(None, None));
    assert_eq!(snapshot.window_title, "Notepad");
    assert_eq!(snapshot.process_name, "notepad.exe");
    assert_eq!(snapshot.process_id, 1234);
    assert_eq!(snapshot.hwnd, Some(42));
    assert!(snapshot.url.is_none());
    assert!(snapshot.document_path.is_none());
    assert!(snapshot.selected_text.is_none());
    assert!(snapshot.language.is_none());
}

#[test]
fn merges_uia_only() {
    let snapshot = SnapshotAssembler.assemble(vision(Some("hello"), None));
    assert_eq!(snapshot.visible_text.as_deref(), Some("hello"));
    assert_eq!(snapshot.capture_method, CaptureMethod::Uia);
}

#[test]
fn merges_ocr_only() {
    let snapshot = SnapshotAssembler.assemble(vision(None, Some("world")));
    assert_eq!(snapshot.visible_text.as_deref(), Some("world"));
    assert_eq!(snapshot.capture_method, CaptureMethod::Ocr);
}

#[test]
fn merges_uia_and_ocr_as_hybrid() {
    let snapshot = SnapshotAssembler.assemble(vision(Some("hello"), Some("world")));
    assert_eq!(snapshot.visible_text.as_deref(), Some("hello\nworld"));
    assert_eq!(snapshot.capture_method, CaptureMethod::Hybrid);
}

#[test]
fn no_text_when_neither_source_present() {
    let snapshot = SnapshotAssembler.assemble(vision(None, None));
    assert!(snapshot.visible_text.is_none());
    assert_eq!(snapshot.capture_method, CaptureMethod::Uia);
}

#[test]
fn truncates_visible_text_to_50k_chars() {
    let long_text = "a".repeat(60_000);
    let snapshot = SnapshotAssembler.assemble(vision(Some(&long_text), None));
    assert_eq!(snapshot.visible_text.map(|t| t.chars().count()), Some(50_000));
}

#[test]
fn truncation_counts_characters_not_bytes() {
    let long_text = "é".repeat(MAX_VISIBLE_TEXT_CHARS + 5);
    let snapshot = SnapshotAssembler.assemble(vision(None, Some(&long_text)));
    let text = snapshot.visible_text.unwrap();
    assert_eq!(text.chars().count(), MAX_VISIBLE_TEXT_CHARS);
    assert!(text.chars().all(|c| c == 'é'));
}

#[test]
fn assembled_snapshots_get_distinct_ids() {
    let a = SnapshotAssembler.assemble(vision(None, None));
    let b = SnapshotAssembler.assemble(vision(None, None));
    assert_ne!(a.id, b.id);
}

// ---- cache ----

#[test]
fn empty_cache_has_no_current() {
    assert!(ContextCache::new().get_current().is_none());
}

#[test]
fn update_sets_current_and_recent() {
    let mut cache = ContextCache::new();
    let s = snapshot_at(now_ms());
    let id = s.id;
    cache.update(s);
    assert_eq!(cache.get_current().map(|s| s.id), Some(id));
    assert_eq!(cache.get_recent(60_000).len(), 1);
}

#[test]
fn get_recent_filters_by_cutoff() {
    let mut cache = ContextCache::new();
    cache.update(snapshot_at(now_ms() - 2 * 3_600_000));
    cache.update(snapshot_at(now_ms()));
    let recent = cache.get_recent(300_000);
    assert_eq!(recent.len(), 1);
}

#[test]
fn recent_is_bounded_to_capacity() {
    let mut cache = ContextCache::new();
    for _ in 0..(RECENT_CAPACITY + 10) {
        cache.update(snapshot_at(now_ms()));
    }
    assert_eq!(cache.get_recent(3_600_000).len(), RECENT_CAPACITY);
}

#[test]
fn history_keeps_the_latest_snapshots_in_order() {
    let mut cache = ContextCache::new();
    for t in 1..=105i64 {
        cache.update(snapshot_at(t));
    }
    let kept: Vec<i64> = cache.recent_since(0).iter().map(|s| s.timestamp).collect();
    assert_eq!(kept, (6..=105i64).collect::<Vec<i64>>());
    assert_eq!(cache.get_current().map(|s| s.timestamp), Some(105));
}

#[test]
fn recent_since_keeps_order_and_strict_cutoff() {
    let mut cache = ContextCache::new();
    cache.update(snapshot_at(100));
    cache.update(snapshot_at(200));
    cache.update(snapshot_at(300));
    let r = cache.recent_since(200);
    assert_eq!(r.len(), 1);
    assert_eq!(r[0].timestamp, 300);
    let all = cache.recent_since(0);
    assert_eq!(all.iter().map(|s| s.timestamp).collect::<Vec<_>>(), vec![100, 200, 300]);
}

// ---- change detector ----

#[test]
fn first_snapshot_is_always_a_change() {
    let mut cd = ChangeDetector::new();
    assert!(cd.has_changed(&snapshot(1, "Tab A", None, None)));
}

#[test]
fn identical_snapshot_is_not_a_change() {
    let mut cd = ChangeDetector::new();
    let s = snapshot(1, "Tab A", Some("https://a.com"), Some("hello"));
    assert!(cd.has_changed(&s));
    assert!(!cd.has_changed(&s));
}

#[test]
fn hwnd_switch_is_a_change() {
    let mut cd = ChangeDetector::new();
    cd.has_changed(&snapshot(1, "Tab A", None, None));
    assert!(cd.has_changed(&snapshot(2, "Tab A", None, None)));
}

#[test]
fn url_change_is_a_change() {
    let mut cd = ChangeDetector::new();
    cd.has_changed(&snapshot(1, "Tab A", Some("https://a.com"), None));
    assert!(cd.has_changed(&snapshot(1, "Tab A", Some("https://b.com"), None)));
}

#[test]
fn small_text_tweak_is_not_a_change() {
    let mut cd = ChangeDetector::new();
    cd.has_changed(&snapshot(1, "Doc", None, Some(&"a".repeat(1000))));
    let mut tweaked = "a".repeat(1000);
    tweaked.push_str("bb");
    assert!(!cd.has_changed(&snapshot(1, "Doc", None, Some(&tweaked))));
}

#[test]
fn large_length_delta_is_a_change() {
    let mut cd = ChangeDetector::new();
    cd.has_changed(&snapshot(1, "Doc", None, Some(&"a".repeat(1000))));
    assert!(cd.has_changed(&snapshot(1, "Doc", None, Some(&"a".repeat(1500)))));
}

#[test]
fn ten_percent_boundary_is_not_a_change_but_just_above_is() {
    let mut cd = ChangeDetector::new();
    cd.has_changed(&snapshot(1, "Doc", None, Some(&"a".repeat(900))));
    // 100 bytes on 1000: exactly a tenth and exactly the byte threshold.
    assert!(!cd.has_changed(&snapshot(1, "Doc", None, Some(&"a".repeat(1000)))));
    // 101 bytes on 1101: above the byte threshold.
    assert!(cd.has_changed(&snapshot(1, "Doc", None, Some(&"a".repeat(1101)))));
    // 11 bytes on 101: above a tenth.
    cd.has_changed(&snapshot(1, "Doc", None, Some(&"a".repeat(90))));
    assert!(cd.has_changed(&snapshot(1, "Doc", None, Some(&"a".repeat(101)))));
}

#[test]
fn text_appearing_is_a_change() {
    let mut cd = ChangeDetector::new();
    cd.has_changed(&snapshot(1, "Doc", None, None));
    assert!(cd.has_changed(&snapshot(1, "Doc", None, Some("x"))));
}

// ---- engine ----

fn capture(hwnd: isize, title: &str, process_name: &str) -> VisionCapture {
    VisionCapture {
        hwnd,
        window_title: title.to_string(),
        process_name: process_name.to_string(),
        process_id: 1,
        uia_text: None,
        ocr_text: None,
        timestamp: now_ms(),
    }
}

struct TagEnricher;

impl ContextEnricher for TagEnricher {
    fn matches(&self, process_name: &str) -> bool {
        process_name.eq_ignore_ascii_case("tagged.exe")
    }
    fn enrich(&self, snapshot: &mut ContextSnapshot, _probe: &WindowProbe) -> Result<(), ContexaError> {
        snapshot.metadata.insert("tagged".to_string(), "yes".to_string());
        Ok(())
    }
    fn priority(&self) -> u32 {
        0
    }
    fn info(&self) -> PluginInfo {
        PluginInfo {
            id: "test.tag".to_string(),
            name: "Tag".to_string(),
            version: "0.1.0".to_string(),
            author: "test".to_string(),
            description: String::new(),
        }
    }
}

#[test]
fn first_vision_result_emits_a_snapshot_and_updates_cache() {
    let mut engine: ContexaContextEngine<BuiltinEnricher> = ContexaContextEngine::new();
    let result = engine.process_vision_result(capture(1, "Window", "app.exe"), &no_probe());
    assert!(matches!(result, Ok(Some(_))));
    assert!(engine.get_current().is_some());
}

#[test]
fn identical_second_result_emits_nothing() {
    let mut engine: ContexaContextEngine<BuiltinEnricher> = ContexaContextEngine::new();
    let _ = engine.process_vision_result(capture(1, "Window", "app.exe"), &no_probe());
    let second = engine.process_vision_result(capture(1, "Window", "app.exe"), &no_probe());
    assert!(matches!(second, Ok(None)));
}

#[test]
fn same_capture_twice_through_builtin_enrichers_is_no_change() {
    let mut engine = ContexaContextEngine::with_builtin_enrichers();
    let probe = WindowProbe { address_bar: Some("https://example.com/page".to_string()) };
    let first = engine.process_vision_result(capture(7, "Example - Google Chrome", "chrome.exe"), &probe);
    let Ok(Some(snapshot)) = first else {
        panic!("expected a snapshot");
    };
    assert_eq!(snapshot.url.as_deref(), Some("https://example.com/page"));
    let second = engine.process_vision_result(capture(7, "Example - Google Chrome", "chrome.exe"), &probe);
    assert!(matches!(second, Ok(None)));
    let mut editor = ContexaContextEngine::with_builtin_enrichers();
    let title = "main.rs - contexa - Visual Studio Code";
    assert!(matches!(editor.process_vision_result(capture(9, title, "Code.exe"), &no_probe()), Ok(Some(_))));
    assert!(matches!(editor.process_vision_result(capture(9, title, "Code.exe"), &no_probe()), Ok(None)));
}

#[test]
fn registered_enricher_runs_for_matching_process() {
    let mut engine: ContexaContextEngine<TagEnricher> = ContexaContextEngine::new();
    engine.register_enricher(TagEnricher);
    let result = engine.process_vision_result(capture(1, "Window", "tagged.exe"), &no_probe());
    let Ok(Some(snapshot)) = result else {
        panic!("expected a snapshot");
    };
    assert_eq!(snapshot.metadata.get("tagged").as_deref(), Some("yes"));
}

#[test]
fn get_selection_is_none_for_now() {
    let engine: ContexaContextEngine<BuiltinEnricher> = ContexaContextEngine::new();
    assert_eq!(engine.get_selection(), None);
}

#[test]
fn capture_method_field_is_carried_through() {
    let mut engine: ContexaContextEngine<BuiltinEnricher> = ContexaContextEngine::new();
    let result = engine.process_vision_result(capture(1, "Window", "app.exe"), &no_probe());
    let Ok(Some(snapshot)) = result else {
        panic!("expected a snapshot");
    };
    assert_eq!(snapshot.capture_method, CaptureMethod::Uia);
}

#[test]
fn builtin_engine_enriches_vscode_and_chrome_windows() {
    let mut engine = ContexaContextEngine::with_builtin_enrichers();
    let r = engine
        .process_vision_result(capture(5, "main.rs - Contexa - Visual Studio Code", "Code.exe"), &no_probe())
        .unwrap()
        .unwrap();
    assert_eq!(r.document_path.as_deref(), Some("main.rs"));
    let probe = WindowProbe { address_bar: Some("https://example.com".to_string()) };
    let r = engine.process_vision_result(capture(6, "Example", "chrome.exe"), &probe).unwrap().unwrap();
    assert_eq!(r.url.as_deref(), Some("https://example.com"));
    assert_eq!(r.metadata.get("browser").as_deref(), Some("chrome"));
    assert_eq!(engine.get_recent(60_000).len(), 2);
}

#[test]
fn engine_detects_language_of_visible_text() {
    let mut engine: ContexaContextEngine<BuiltinEnricher> = ContexaContextEngine::new();
    let mut c = capture(1, "Window", "app.exe");
    c.uia_text = Some("The quick brown fox jumps over the lazy dog repeatedly.".to_string());
    let s = engine.process_vision_result(c, &no_probe()).unwrap().unwrap();
    assert_eq!(s.language.as_deref(), Some("eng"));
}

// ---- chromium ----

#[test]
fn chrome_matches_process_name_case_insensitively() {
    let e = ChromiumEnricher::chrome();
    assert!(e.matches("chrome.exe"));
    assert!(e.matches("CHROME.EXE"));
    assert!(!e.matches("msedge.exe"));
}

#[test]
fn edge_matches_process_name_case_insensitively() {
    let e = ChromiumEnricher::edge();
    assert!(e.matches("msedge.exe"));
    assert!(!e.matches("chrome.exe"));
}

#[test]
fn plugin_ids_are_distinct() {
    assert_eq!(ChromiumEnricher::chrome().info().id, "enricher.chrome");
    assert_eq!(ChromiumEnricher::edge().info().id, "enricher.edge");
}

#[test]
fn chromium_enrich_sets_url_and_browser_tag() {
    let e = ChromiumEnricher::edge();
    let mut s = snapshot(3, "Tab", None, None);
    let probe = WindowProbe { address_bar: Some("https://b.com".to_string()) };
    assert!(e.enrich(&mut s, &probe).is_ok());
    assert_eq!(s.url.as_deref(), Some("https://b.com"));
    assert_eq!(s.metadata.get("browser").as_deref(), Some("edge"));
    assert_eq!(e.info().description, "Extracts URL from the msedge.exe address bar");
}

#[test]
fn chromium_enrich_without_window_handle_changes_nothing() {
    let e = ChromiumEnricher::chrome();
    let mut s = snapshot(3, "Tab", None, None);
    s.hwnd = None;
    let probe = WindowProbe { address_bar: Some("https://b.com".to_string()) };
    assert!(e.enrich(&mut s, &probe).is_ok());
    assert!(s.url.is_none());
    assert!(s.metadata.is_empty());
}

// ---- vscode ----

fn snapshot_with_title(title: &str) -> ContextSnapshot {
    let mut s = snapshot(1, title, None, None);
    s.process_name = "Code.exe".to_string();
    s
}

#[test]
fn matches_code_exe_case_insensitively() {
    let e = VsCodeEnricher;
    assert!(e.matches("Code.exe"));
    assert!(e.matches("code.exe"));
    assert!(!e.matches("chrome.exe"));
}

#[test]
fn parses_file_and_workspace_from_title() {
    let Some(parsed) = parse_title("main.rs - Contexa - Visual Studio Code") else {
        panic!("expected a parsed title");
    };
    assert_eq!(parsed.file_name, "main.rs");
    assert_eq!(parsed.workspace.as_deref(), Some("Contexa"));
}

#[test]
fn parses_em_dash_title_format() {
    let Some(parsed) = parse_title("main.rs — Contexa — Visual Studio Code") else {
        panic!("expected a parsed title");
    };
    assert_eq!(parsed.file_name, "main.rs");
    assert_eq!(parsed.workspace.as_deref(), Some("Contexa"));
}

#[test]
fn strips_unsaved_marker() {
    let Some(parsed) = parse_title("● main.rs - Contexa - Visual Studio Code") else {
        panic!("expected a parsed title");
    };
    assert_eq!(parsed.file_name, "main.rs");
}

#[test]
fn handles_title_without_workspace() {
    let Some(parsed) = parse_title("main.rs - Visual Studio Code") else {
        panic!("expected a parsed title");
    };
    assert_eq!(parsed.file_name, "main.rs");
    assert_eq!(parsed.workspace, None);
}

#[test]
fn non_vscode_title_is_not_parsed() {
    assert!(parse_title("Inbox - Outlook").is_none());
}

#[test]
fn enrich_sets_document_path_and_language_hint() {
    let e = VsCodeEnricher;
    let mut snapshot = snapshot_with_title("main.rs - Contexa - Visual Studio Code");
    assert!(e.enrich(&mut snapshot, &no_probe()).is_ok());
    assert_eq!(snapshot.document_path.as_deref(), Some("main.rs"));
    assert_eq!(snapshot.metadata.get("language_hint").as_deref(), Some("rust"));
    assert_eq!(snapshot.metadata.get("workspace").as_deref(), Some("Contexa"));
}

#[test]
fn unrecognized_extension_has_no_language_hint() {
    assert_eq!(language_from_extension("README"), None);
    assert_eq!(language_from_extension("script.rs"), Some("rust"));
}

#[test]
fn extension_lookup_is_case_insensitive_and_uses_last_dot() {
    assert_eq!(language_from_extension("Component.TSX"), Some("typescript"));
    assert_eq!(language_from_extension("archive.tar.json"), Some("json"));
    assert_eq!(language_from_extension("trailing."), None);
    assert_eq!(language_from_extension("rs"), None);
    assert_eq!(language_from_extension("header.hpp"), Some("cpp"));
}

#[test]
fn title_with_only_marker_is_not_parsed() {
    assert!(parse_title("● - Visual Studio Code").is_none());
    assert!(parse_title(" - Visual Studio Code").is_none());
}

// ---- language ----

#[test]
fn short_text_is_not_detected() {
    assert_eq!(detect_language("hi"), None);
}

#[test]
fn long_english_text_is_detected() {
    let text = "The quick brown fox jumps over the lazy dog repeatedly.";
    assert_eq!(detect_language(text).as_deref(), Some("eng"));
}

// ---- registry ----

struct AlwaysMatch {
    priority: u32,
}

impl ContextEnricher for AlwaysMatch {
    fn matches(&self, _process_name: &str) -> bool {
        true
    }
    fn enrich(&self, snapshot: &mut ContextSnapshot, _probe: &WindowProbe) -> Result<(), ContexaError> {
        snapshot.metadata.insert("marked".to_string(), "yes".to_string());
        Ok(())
    }
    fn priority(&self) -> u32 {
        self.priority
    }
    fn info(&self) -> PluginInfo {
        PluginInfo {
            id: "test.always".to_string(),
            name: "test.always".to_string(),
            version: "0.1.0".to_string(),
            author: "test".to_string(),
            description: String::new(),
        }
    }
}

enum TestEnricher {
    Always(AlwaysMatch),
    Never,
    Failing,
}

impl ContextEnricher for TestEnricher {
    fn matches(&self, process_name: &str) -> bool {
        match self {
            TestEnricher::Always(a) => a.matches(process_name),
            TestEnricher::Never => false,
            TestEnricher::Failing => true,
        }
    }
    fn enrich(&self, snapshot: &mut ContextSnapshot, probe: &WindowProbe) -> Result<(), ContexaError> {
        match self {
            TestEnricher::Always(a) => a.enrich(snapshot, probe),
            TestEnricher::Never => Ok(()),
            TestEnricher::Failing => {
                snapshot.metadata.insert("half".to_string(), "done".to_string());
                Err(ContexaError::Conversion("boom".to_string()))
            }
        }
    }
    fn priority(&self) -> u32 {
        match self {
            TestEnricher::Always(a) => a.priority,
            _ => 0,
        }
    }
    fn info(&self) -> PluginInfo {
        let id = match self {
            TestEnricher::Always(_) => "test.always",
            TestEnricher::Never => "test.never",
            TestEnricher::Failing => "test.failing",
        };
        PluginInfo {
            id: id.to_string(),
            name: id.to_string(),
            version: "0.1.0".to_string(),
            author: "test".to_string(),
            description: String::new(),
        }
    }
}

#[test]
fn registry_only_returns_matching_enrichers() {
    let mut registry = PluginRegistry::new();
    registry.register(TestEnricher::Always(AlwaysMatch { priority: 0 }));
    registry.register(TestEnricher::Never);
    let matches = registry.get_enrichers("anything.exe");
    assert_eq!(matches.len(), 1);
    assert_eq!(matches[0].info().id, "test.always");
}

#[test]
fn registry_sorts_by_priority_descending() {
    let mut registry = PluginRegistry::new();
    registry.register(AlwaysMatch { priority: 10 });
    registry.register(AlwaysMatch { priority: 90 });
    let ids: Vec<u32> = registry.get_enrichers("x.exe").iter().map(|e| e.priority()).collect();
    assert_eq!(ids, vec![90, 10]);
}

struct Ranked {
    priority: u32,
    tag: &'static str,
}

impl ContextEnricher for Ranked {
    fn matches(&self, process_name: &str) -> bool {
        !self.tag.starts_with("skip") || process_name == "all.exe"
    }
    fn enrich(&self, _snapshot: &mut ContextSnapshot, _probe: &WindowProbe) -> Result<(), ContexaError> {
        Ok(())
    }
    fn priority(&self) -> u32 {
        self.priority
    }
    fn info(&self) -> PluginInfo {
        PluginInfo {
            id: self.tag.to_string(),
            name: self.tag.to_string(),
            version: "0.1.0".to_string(),
            author: "test".to_string(),
            description: String::new(),
        }
    }
}

#[test]
fn registration_is_a_stable_sort_by_priority() {
    let mut registry = PluginRegistry::new();
    registry.register(Ranked { priority: 10, tag: "a" });
    registry.register(Ranked { priority: 90, tag: "b" });
    registry.register(Ranked { priority: 50, tag: "skip-c" });
    registry.register(Ranked { priority: 90, tag: "d" });
    registry.register(Ranked { priority: 10, tag: "skip-e" });
    registry.register(Ranked { priority: 50, tag: "f" });
    let all: Vec<String> = registry.list_all().into_iter().map(|i| i.id).collect();
    assert_eq!(all, vec!["b", "d", "skip-c", "f", "a", "skip-e"]);
    let some: Vec<&str> = registry.get_enrichers("one.exe").iter().map(|e| e.tag).collect();
    assert_eq!(some, vec!["b", "d", "f", "a"]);
}

#[test]
fn registry_keeps_registration_order_for_equal_priorities() {
    let mut registry = PluginRegistry::new();
    registry.register(BuiltinEnricher::Chromium(ChromiumEnricher::chrome()));
    registry.register(BuiltinEnricher::Chromium(ChromiumEnricher::edge()));
    registry.register(BuiltinEnricher::VsCode(VsCodeEnricher));
    let ids: Vec<String> = registry.list_all().into_iter().map(|i| i.id).collect();
    assert_eq!(ids, vec!["enricher.chrome", "enricher.edge", "enricher.vscode"]);
}

#[test]
fn sandbox_applies_successful_enrichment() {
    let _sandbox = PluginSandbox::new(50);
    let mut snapshot = snapshot(1, "Window", None, None);
    let enricher = AlwaysMatch { priority: 0 };
    assert!(apply_enrichment(&enricher, &mut snapshot, &no_probe()));
    assert_eq!(snapshot.metadata.get("marked").as_deref(), Some("yes"));
}

#[test]
fn sandbox_leaves_snapshot_unchanged_on_failure() {
    let _sandbox = PluginSandbox::new(50);
    let mut snapshot = snapshot(1, "Window", None, None);
    assert!(!apply_enrichment(&TestEnricher::Failing, &mut snapshot, &no_probe()));
    assert!(snapshot.metadata.is_empty());
}

#[test]
fn sandbox_keeps_the_configured_timeout() {
    let sandbox = PluginSandbox::new(10);
    assert_eq!(sandbox.timeout_ms, 10);
    assert_eq!(PluginSandbox::default().timeout_ms, 20);
}

// ---- selection ----

#[test]
fn rereads_only_when_sequence_number_changes() {
    let mut tracker = SelectionTracker::new();
    assert!(tracker.should_reread(1));
    tracker.last_clipboard_seq = 1;
    assert!(!tracker.should_reread(1));
    assert!(tracker.should_reread(2));
}

#[test]
fn uia_selection_wins_over_clipboard() {
    assert_eq!(
        choose_selection(Some("uia".to_string()), Some("clip".to_string())).as_deref(),
        Some("uia")
    );
    assert_eq!(choose_selection(None, Some("clip".to_string())).as_deref(), Some("clip"));
    let mut tracker = SelectionTracker::new();
    tracker.record_clipboard(7, Some("copied".to_string()));
    assert!(!tracker.should_reread(7));
    assert_eq!(tracker.clipboard_text().as_deref(), Some("copied"));
    assert_eq!(NoSelectionSource.poll(), None);
}

#[test]
fn builtin_engine_reports_enrichers_per_process() {
    let engine = ContexaContextEngine::with_builtin_enrichers();
    assert_eq!(engine.enrichers_for("chrome.exe").len(), 1);
    assert_eq!(engine.enrichers_for("MSEDGE.EXE").len(), 1);
    assert_eq!(engine.enrichers_for("Code.exe").len(), 1);
    assert!(engine.enrichers_for("notepad.exe").is_empty());
}

#[test]
fn text_drift_is_measured_in_characters() {
    let prev = Some("a".repeat(1000));
    let small = Some("a".repeat(1000) + &"é".repeat(51));
    assert!(!contexa::context::change_detector::text_diff_significant(&prev, &small));
    let large = Some("a".repeat(1000) + &"é".repeat(101));
    assert!(contexa::context::change_detector::text_diff_significant(&prev, &large));
}

#[test]
fn window_cutoff_falls_back_for_huge_windows() {
    assert_eq!(contexa::context::cache::window_cutoff(1_000, 10), 990);
    assert_eq!(contexa::context::cache::window_cutoff(1_000, u64::MAX), 1_000);
    assert_eq!(contexa::context::cache::window_cutoff(i64::MIN + 5, 10), i64::MIN);
}
