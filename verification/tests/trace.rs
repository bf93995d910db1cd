use axum::http::{HeaderMap, HeaderValue};
use csp_reporter::{extract_trace, set_trace};
use serde_json::Value;

fn trace_headers(value: &'static str) -> HeaderMap {
    let mut headers = HeaderMap::new();
    headers.insert("x-cloud-trace-context", HeaderValue::from_static(value));
    headers
}

fn test_entry() -> Value {
    let mut members = serde_json::Map::new();
    members.insert("message".to_string(), Value::String("test".to_string()));
    Value::Object(members)
}

#[test]
fn extract_trace_returns_resource_name() {
    assert_eq!(
        extract_trace(&trace_headers("abc123def/SPAN_ID;o=1"), Some("my-project")),
        Some("projects/my-project/traces/abc123def".to_string())
    );
}

#[test]
fn extract_trace_returns_none_when_project_missing() {
    assert_eq!(extract_trace(&trace_headers("abc123def/SPAN_ID;o=1"), None), None);
}

#[test]
fn extract_trace_returns_none_when_header_missing() {
    assert_eq!(extract_trace(&HeaderMap::new(), Some("my-project")), None);
}

#[test]
fn extract_trace_returns_none_when_trace_id_is_empty() {
    // Header starts with '/', so the part before '/' is an empty string.
    assert_eq!(extract_trace(&trace_headers("/SPAN_ID;o=1"), Some("my-project")), None);
}

#[test]
fn extract_trace_handles_header_without_slash() {
    assert_eq!(
        extract_trace(&trace_headers("abc123def"), Some("my-project")),
        Some("projects/my-project/traces/abc123def".to_string())
    );
}

#[test]
fn extract_trace_returns_none_when_header_is_empty() {
    assert_eq!(extract_trace(&trace_headers(""), Some("my-project")), None);
}

#[test]
fn extract_trace_stops_at_the_first_slash() {
    assert_eq!(
        extract_trace(&trace_headers("abc/def/ghi"), Some("p")),
        extract_trace(&trace_headers("abc"), Some("p"))
    );
}

#[test]
fn trace_ends_with_the_trace_id() {
    let trace = extract_trace(&trace_headers("abc/def"), Some("a/b")).unwrap();
    assert_eq!(trace.rsplit('/').next(), Some("abc"));
}

#[test]
fn extract_trace_takes_any_project() {
    assert_eq!(
        extract_trace(&trace_headers("abc"), Some("")),
        Some("projects//traces/abc".to_string())
    );
    assert_eq!(
        extract_trace(&trace_headers("abc"), Some("pr\u{f6}ject")),
        Some("projects/pr\u{f6}ject/traces/abc".to_string())
    );
}

#[test]
fn extract_trace_needs_text() {
    let mut headers = HeaderMap::new();
    headers.insert(
        "x-cloud-trace-context",
        HeaderValue::from_bytes(b"abc/\xff").unwrap(),
    );
    assert_eq!(extract_trace(&headers, Some("p")), None);
}

#[test]
fn set_trace_injects_field_when_some() {
    let mut entry = test_entry();
    set_trace(&mut entry, &Some("projects/p/traces/t".to_string()));
    assert_eq!(entry["logging.googleapis.com/trace"], "projects/p/traces/t");
    assert_eq!(entry["message"], "test");
}

#[test]
fn set_trace_does_not_inject_field_when_none() {
    let mut entry = test_entry();
    set_trace(&mut entry, &None);
    assert!(entry.get("logging.googleapis.com/trace").is_none());
    assert_eq!(entry, test_entry());
}

#[test]
fn set_trace_replaces_an_earlier_trace() {
    let mut entry = test_entry();
    set_trace(&mut entry, &Some("first".to_string()));
    set_trace(&mut entry, &Some("last".to_string()));
    assert_eq!(entry["logging.googleapis.com/trace"], "last");
    assert_eq!(entry.as_object().unwrap().len(), 2);
}

#[test]
fn set_trace_makes_an_object_of_null() {
    let mut entry = Value::Null;
    set_trace(&mut entry, &Some("t".to_string()));
    assert_eq!(entry["logging.googleapis.com/trace"], "t");
    assert_eq!(entry.as_object().unwrap().len(), 1);
}

#[test]
fn set_trace_without_a_trace_takes_any_value() {
    let mut entry = Value::Bool(true);
    set_trace(&mut entry, &None);
    assert_eq!(entry, Value::Bool(true));
}
