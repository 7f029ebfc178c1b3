use contexa::db::{decode_id, decode_timestamp, encode_id, encode_timestamp, event_from_row, events_page, snapshot_from_row, EventRow, SnapshotRow};
use contexa::model::{embedding_table, sql_limit, EventType};
use contexa::types::{CaptureMethod, ContexaError, Metadata};

const ID: &str = "67e55044-10b1-426f-9247-bb680e5fe0c8";

fn event_row() -> EventRow {
    EventRow {
        id: ID.to_string(),
        timestamp: "1970-01-01T00:00:01.500Z".to_string(),
        event_type: "app_switch".to_string(),
        summary: "Switched to VS Code".to_string(),
        application: "Code.exe".to_string(),
        window_title: "main.rs — VS Code".to_string(),
        duration_ms: Some(10),
        context_id: None,
    }
}

fn snapshot_row() -> SnapshotRow {
    let mut metadata = Metadata::new();
    metadata.insert("language".to_string(), "rust".to_string());
    SnapshotRow {
        id: ID.to_string(),
        timestamp: "2024-05-01T12:00:00+02:00".to_string(),
        window_title: "w".to_string(),
        process_name: "Code.exe".to_string(),
        process_id: 7,
        hwnd: Some(99),
        url: None,
        document_path: Some("C:\\a.rs".to_string()),
        visible_text: Some("text".to_string()),
        selected_text: None,
        metadata,
        language: Some("eng".to_string()),
        capture_method: "uia".to_string(),
    }
}

#[test]
fn ids_and_timestamps_decode() {
    let id = decode_id(ID).expect("valid uuid");
    assert_eq!(uuid::Uuid::from_u128(id).to_string(), ID);
    assert!(matches!(decode_id("not-a-uuid"), Err(ContexaError::Conversion(_))));
    assert_eq!(decode_timestamp("1970-01-01T00:00:01.500Z").expect("valid"), 1_500);
    assert_eq!(decode_timestamp("1970-01-01T01:00:00+01:00").expect("valid"), 0);
    assert!(matches!(decode_timestamp("yesterday"), Err(ContexaError::Conversion(_))));
}

#[test]
fn event_row_decodes_every_column() {
    let e = event_from_row(&event_row()).expect("row decodes");
    assert_eq!(uuid::Uuid::from_u128(e.id).to_string(), ID);
    assert_eq!(e.timestamp, 1_500);
    assert_eq!(e.event_type, EventType::AppSwitch);
    assert_eq!(e.summary, "Switched to VS Code");
    assert_eq!(e.duration_ms, Some(10));
    assert_eq!(e.context_id, None);
    let mut with_ctx = event_row();
    with_ctx.context_id = Some(ID.to_string());
    assert!(event_from_row(&with_ctx).expect("row decodes").context_id.is_some());
}

#[test]
fn bad_event_columns_are_conversion_errors() {
    let mut bad_type = event_row();
    bad_type.event_type = "nap".to_string();
    match event_from_row(&bad_type) {
        Err(ContexaError::Conversion(m)) => assert_eq!(m, "unknown event_type: nap"),
        other => panic!("unexpected {other:?}"),
    }
    let mut bad_ctx = event_row();
    bad_ctx.context_id = Some("x".to_string());
    assert!(matches!(event_from_row(&bad_ctx), Err(ContexaError::Conversion(_))));
}

#[test]
fn page_fails_on_the_first_bad_row() {
    let rows = vec![event_row(), event_row()];
    let page = events_page(&rows, 5).expect("rows decode");
    assert_eq!(page.items.len(), 2);
    assert_eq!(page.total, 5);
    let mut bad = event_row();
    bad.timestamp = "?".to_string();
    let rows = vec![event_row(), bad];
    assert!(events_page(&rows, 2).is_err());
    assert!(events_page(&Vec::new(), 0).expect("empty page").items.is_empty());
}

#[test]
fn snapshot_row_decodes() {
    let s = snapshot_from_row(snapshot_row()).expect("row decodes");
    assert_eq!(s.timestamp, 1_714_557_600_000);
    assert_eq!(s.capture_method, CaptureMethod::Uia);
    assert_eq!(s.process_id, 7);
    assert_eq!(s.hwnd, Some(99));
    assert_eq!(s.metadata.get("language").as_deref(), Some("rust"));
    let mut bad = snapshot_row();
    bad.capture_method = "camera".to_string();
    match snapshot_from_row(bad) {
        Err(ContexaError::Conversion(m)) => assert_eq!(m, "unknown capture_method: camera"),
        other => panic!("unexpected {other:?}"),
    }
}

#[test]
fn embedding_tables_by_dimension() {
    assert_eq!(embedding_table(384).expect("supported"), "embeddings");
    assert_eq!(embedding_table(768).expect("supported"), "embeddings_768");
    match embedding_table(512) {
        Err(ContexaError::Conversion(m)) => {
            assert_eq!(m, "unsupported embedding dimensions: 512 (expected 384 or 768)")
        }
        other => panic!("unexpected {other:?}"),
    }
    assert_eq!(sql_limit(10), 10);
    assert_eq!(sql_limit(usize::MAX), i64::MAX);
}

#[test]
fn search_tables_by_dimension() {
    assert_eq!(contexa::model::search_table(384).expect("supported"), "embeddings");
    match contexa::model::search_table(3) {
        Err(ContexaError::Conversion(m)) => {
            assert_eq!(m, "unsupported query vector dimensions: 3 (expected 384 or 768)")
        }
        other => panic!("unexpected {other:?}"),
    }
}

#[test]
fn identifiers_are_stored_as_hyphenated_lowercase_uuids() {
    let id: u128 = 0x0123456789abcdef0fedcba987654321;
    let text = encode_id(id);
    assert_eq!(text, "01234567-89ab-cdef-0fed-cba987654321");
    assert_eq!(decode_id(&text).ok(), Some(id));
    assert_eq!(encode_id(0), "00000000-0000-0000-0000-000000000000");
}

#[test]
fn instants_are_stored_as_rfc3339_text() {
    assert_eq!(encode_timestamp(0).ok().as_deref(), Some("1970-01-01T00:00:00+00:00"));
    let text = encode_timestamp(1_700_000_000_123).unwrap();
    assert_eq!(text, "2023-11-14T22:13:20.123+00:00");
    assert_eq!(decode_timestamp(&text).ok(), Some(1_700_000_000_123));
    assert!(matches!(encode_timestamp(i64::MAX), Err(ContexaError::Conversion(_))));
}
