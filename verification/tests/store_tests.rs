use workers_spec::service::{create_spec, get_spec, health_body, new_spec_id, ServiceError};
use workers_spec::store::Store;

#[test]
fn test_store_insert_and_get() {
    let mut store = Store::new(":memory:").unwrap();
    store
        .insert(
            "abc123",
            "# Test spec\n\n1. Step one\n2. Step two",
            "Test Title",
            "A test spec",
            2,
            "0.1.0",
        )
        .unwrap();

    let record = store.get("abc123").unwrap().unwrap();
    assert_eq!(record.id, "abc123");
    assert_eq!(record.title, "Test Title");
    assert_eq!(record.summary, "A test spec");
    assert_eq!(record.step_count, 2);
    assert_eq!(record.version, "0.1.0");
}

#[test]
fn test_store_get_not_found() {
    let store = Store::new(":memory:").unwrap();
    assert!(store.get("nonexistent").unwrap().is_none());
}

#[test]
fn test_store_duplicate_id_fails() {
    let mut store = Store::new(":memory:").unwrap();
    store.insert("dup", "c1", "t1", "s1", 0, "0.1.0").unwrap();
    assert!(store.insert("dup", "c2", "t2", "s2", 0, "0.1.0").is_err());
}

#[test]
fn create_then_get_returns_exact_content() {
    let mut store = Store::new(":memory:").unwrap();
    let content = "---\ntitle: Test Spec\ndescription: A test\ntags: [\"rust\"]\n---\n\n## Objective\nTest.\n\n## Methodology\n\n1. First step\n2. Second step";
    let resp = create_spec(&mut store, "http://localhost:3000", content, "0.1.0").unwrap();
    assert!(!resp.id.is_empty());
    assert!(resp.url.contains(&resp.id));
    assert_eq!(resp.url, format!("http://localhost:3000/s/{}", resp.id));

    let rec = get_spec(&store, &resp.id).unwrap();
    assert_eq!(rec.id, resp.id);
    assert_eq!(rec.content, content);
    assert_eq!(rec.title, "Test Spec");
    assert_eq!(rec.summary, "A test");
    assert_eq!(rec.step_count, 2);
    assert_eq!(rec.version, "0.1.0");
}

#[test]
fn create_empty_content_rejected_with_400() {
    let mut store = Store::new(":memory:").unwrap();
    let err = create_spec(&mut store, "http://localhost:3000", "", "").unwrap_err();
    assert!(matches!(err, ServiceError::EmptyContent));
    assert_eq!(err.status_code(), 400);
    assert_eq!(err.message(), "content must not be empty");
}

#[test]
fn create_oversized_content_rejected_with_413() {
    let mut store = Store::new(":memory:").unwrap();
    let large = "x".repeat(500 * 1024 + 1);
    let err = create_spec(&mut store, "http://localhost:3000", &large, "").unwrap_err();
    assert!(matches!(err, ServiceError::OversizedContent));
    assert_eq!(err.status_code(), 413);
    assert_eq!(err.message(), "content exceeds maximum size of 512000 bytes");
}

#[test]
fn create_at_size_ceiling_succeeds() {
    let mut store = Store::new(":memory:").unwrap();
    let content = "y".repeat(500 * 1024);
    let resp = create_spec(&mut store, "http://localhost:3000", &content, "").unwrap();
    let rec = get_spec(&store, &resp.id).unwrap();
    assert_eq!(rec.content, content);
    assert_eq!(rec.step_count, 0);
}

#[test]
fn get_unknown_id_is_404() {
    let store = Store::new(":memory:").unwrap();
    let err = get_spec(&store, "never-created").unwrap_err();
    assert!(matches!(err, ServiceError::NotFound));
    assert_eq!(err.status_code(), 404);
    assert_eq!(err.message(), "spec not found");
}

#[test]
fn sequential_creates_produce_distinct_ids() {
    let mut store = Store::new(":memory:").unwrap();
    let a = create_spec(&mut store, "http://localhost:3000", "first", "").unwrap();
    let b = create_spec(&mut store, "http://localhost:3000", "second", "").unwrap();
    assert_ne!(a.id, b.id);
}

#[test]
fn many_creates_distinct_ids_and_own_content() {
    let mut store = Store::new(":memory:").unwrap();
    let mut ids: Vec<String> = Vec::new();
    for i in 0..50 {
        let content = format!("document number {}", i);
        let resp = create_spec(&mut store, "http://localhost:3000", &content, "").unwrap();
        assert!(!ids.contains(&resp.id));
        ids.push(resp.id);
    }
    for i in 0..50 {
        let rec = get_spec(&store, &ids[i]).unwrap();
        assert_eq!(rec.content, format!("document number {}", i));
    }
}

#[test]
fn generated_ids_use_url_safe_alphabet() {
    for _ in 0..20 {
        let id = new_spec_id();
        assert_eq!(id.len(), 21);
        assert!(id
            .chars()
            .all(|c| c.is_ascii_alphanumeric() || c == '-' || c == '_'));
    }
}

#[test]
fn health_body_is_ok_json() {
    assert_eq!(health_body(), "{\"status\":\"ok\"}");
}

#[test]
fn storage_error_message_is_redacted() {
    let err = ServiceError::Storage("sqlite detail goes here".to_string());
    assert_eq!(err.status_code(), 500);
    assert_eq!(err.message(), "storage error");
}

#[test]
fn step_count_stored_from_content() {
    let mut store = Store::new(":memory:").unwrap();
    let resp = create_spec(
        &mut store,
        "http://localhost:3000",
        "1. a\n2. b\n3. c",
        "",
    )
    .unwrap();
    let rec = get_spec(&store, &resp.id).unwrap();
    assert_eq!(rec.step_count, 3);
}
