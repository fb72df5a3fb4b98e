use durable_trace::parse::{parse_trace, trace_to_json, ParseError};
use durable_trace::store::{StoreAction, TraceStore};

const FIRST: &str = r#"{"name":"first","durableExecutionId":"e-1","scheduledAt":"2024-05-01T10:00:00Z","status":"running","version":1,"steps":[]}"#;
const SECOND: &str = r#"{"name":"second","durableExecutionId":"e-2","scheduledAt":"2024-05-02T10:00:00Z","completedAt":"2024-05-02T10:00:20Z","status":"completed","version":2,"steps":[]}"#;

fn carry_out(snapshot: &mut Option<String>, action: StoreAction) {
    match action {
        StoreAction::Keep => {}
        StoreAction::Write(text) => *snapshot = Some(text),
    }
}

#[test]
fn a_new_store_is_empty() {
    let store = TraceStore::new();
    assert!(!store.is_loaded());
    assert!(store.current().is_none());
}

#[test]
fn loading_text_installs_the_trace_and_writes_it() {
    let mut store = TraceStore::new();
    let action = store.load_text(FIRST).unwrap();
    let trace = parse_trace(FIRST).unwrap();
    assert!(store.is_loaded());
    assert_eq!(store.current(), Some(&trace));
    assert_eq!(action, StoreAction::Write(trace_to_json(&trace)));
}

#[test]
fn loading_a_trace_installs_it_and_writes_it() {
    let mut store = TraceStore::new();
    let trace = parse_trace(SECOND).unwrap();
    let action = store.load(trace.clone());
    assert_eq!(store.current(), Some(&trace));
    assert_eq!(action, StoreAction::Write(trace_to_json(&trace)));
}

#[test]
fn a_new_load_replaces_the_old_trace() {
    let mut store = TraceStore::new();
    store.load_text(FIRST).unwrap();
    let action = store.load_text(SECOND).unwrap();
    let second = parse_trace(SECOND).unwrap();
    assert_eq!(store.current(), Some(&second));
    assert_eq!(action, StoreAction::Write(trace_to_json(&second)));
}

#[test]
fn malformed_text_leaves_an_empty_store_empty() {
    let mut store = TraceStore::new();
    match store.load_text("{not json") {
        Err(ParseError::MalformedJson(message)) => assert!(!message.is_empty()),
        other => panic!("expected malformed JSON, got {:?}", other),
    }
    assert!(!store.is_loaded());
}

#[test]
fn malformed_text_leaves_the_loaded_trace_in_place() {
    let mut store = TraceStore::new();
    store.load_text(FIRST).unwrap();
    let before = store.current().cloned();
    let e = store.load_text("{not json").unwrap_err();
    assert!(matches!(e, ParseError::MalformedJson(_)));
    assert!(!e.message().is_empty());
    assert_eq!(store.current().cloned(), before);
}

#[test]
fn a_document_that_is_no_trace_leaves_the_loaded_trace_in_place() {
    let mut store = TraceStore::new();
    store.load_text(FIRST).unwrap();
    let e = store.load_text("{\"name\":\"only\"}").unwrap_err();
    assert!(matches!(e, ParseError::SchemaMismatch(_)));
    assert_eq!(store.current(), Some(&parse_trace(FIRST).unwrap()));
}

#[test]
fn clearing_empties_the_store_and_keeps_the_snapshot() {
    let mut store = TraceStore::new();
    store.load_text(FIRST).unwrap();
    assert_eq!(store.clear(), StoreAction::Keep);
    assert!(!store.is_loaded());
    assert_eq!(store.clear(), StoreAction::Keep);
}

#[test]
fn a_fresh_start_after_a_clear_restores_the_last_trace() {
    let mut snapshot: Option<String> = None;
    let (mut store, action) = TraceStore::restore(snapshot.as_deref());
    carry_out(&mut snapshot, action);
    assert!(!store.is_loaded());
    assert_eq!(snapshot, None);

    let action = store.load_text(FIRST).unwrap();
    carry_out(&mut snapshot, action);
    let action = store.clear();
    carry_out(&mut snapshot, action);
    assert!(!store.is_loaded());
    assert!(snapshot.is_some());

    let (restarted, action) = TraceStore::restore(snapshot.as_deref());
    assert_eq!(restarted.current(), Some(&parse_trace(FIRST).unwrap()));
    let written = snapshot.clone();
    carry_out(&mut snapshot, action);
    assert_eq!(snapshot, written);
}

#[test]
fn a_fresh_start_without_a_snapshot_is_empty() {
    let (store, action) = TraceStore::restore(None);
    assert!(!store.is_loaded());
    assert_eq!(action, StoreAction::Keep);
}

#[test]
fn a_corrupt_snapshot_counts_as_none() {
    for text in ["{not json", "", "[]", "{\"name\":\"only\"}"] {
        let (store, action) = TraceStore::restore(Some(text));
        assert!(!store.is_loaded());
        assert_eq!(action, StoreAction::Keep);
    }
}

#[test]
fn a_restored_trace_is_written_again() {
    let (store, action) = TraceStore::restore(Some(SECOND));
    let trace = parse_trace(SECOND).unwrap();
    assert_eq!(store.current(), Some(&trace));
    assert_eq!(action, StoreAction::Write(trace_to_json(&trace)));
}
