use axum::http::{HeaderMap, HeaderValue};
use csp_reporter::{
    accepted_report, build_http_request_log, handle_csp_report, log_line, rejected_report, Reply,
    Status,
};
use serde_json::Value;

fn headers(content_type: &'static str) -> HeaderMap {
    let mut headers = HeaderMap::new();
    headers.insert("content-type", HeaderValue::from_static(content_type));
    headers
}

fn post(content_type: &'static str, body: &[u8]) -> Reply {
    handle_csp_report(
        "127.0.0.1:12345",
        "POST",
        "/csp-report",
        &headers(content_type),
        None,
        body,
    )
}

#[test]
fn accepted_body_is_logged_as_json() {
    let reply = post(
        "application/csp-report",
        br#"{"csp-report":{"blocked-uri":"https://evil.com"}}"#,
    );
    assert_eq!(reply.status, Status::NoContent);
    let entry = reply.log.unwrap();
    assert_eq!(entry["severity"], "WARNING");
    assert_eq!(entry["message"], "CSP violation report received");
    assert_eq!(entry["csp-report"]["csp-report"]["blocked-uri"], "https://evil.com");
    assert_eq!(entry["httpRequest"]["requestMethod"], "POST");
    assert_eq!(entry["httpRequest"]["requestUrl"], "/csp-report");
    assert_eq!(entry["httpRequest"]["requestSize"], "49");
    assert_eq!(entry["httpRequest"]["remoteIp"], "127.0.0.1:12345");
    assert!(entry.get("raw-body").is_none());
    assert!(entry.get("logging.googleapis.com/trace").is_none());
    assert_eq!(entry.as_object().unwrap().len(), 4);
}

#[test]
fn rejected_body_is_logged_as_text() {
    let reply = post("application/csp-report", b"this is not json");
    assert_eq!(reply.status, Status::BadRequest);
    let entry = reply.log.unwrap();
    assert_eq!(entry["severity"], "WARNING");
    assert_eq!(entry["message"], "CSP report received with invalid JSON body");
    assert_eq!(entry["raw-body"], "this is not json");
    assert_eq!(entry["httpRequest"]["requestSize"], "16");
    assert!(entry.get("csp-report").is_none());
    assert_eq!(entry.as_object().unwrap().len(), 4);
}

#[test]
fn rejected_body_that_is_not_utf8_gets_replacement_characters() {
    let reply = post("application/json", b"{\xff\"caf\xc3\xa9");
    assert_eq!(reply.status, Status::BadRequest);
    assert_eq!(reply.log.unwrap()["raw-body"], "{\u{fffd}\"caf\u{e9}");
}

#[test]
fn rejected_utf8_body_is_logged_unchanged() {
    let body = "{\u{1f600} nul \0 newline \n";
    let reply = post("application/json", body.as_bytes());
    assert_eq!(reply.status, Status::BadRequest);
    assert_eq!(reply.log.unwrap()["raw-body"], body);
}

#[test]
fn refused_content_type_is_not_logged() {
    for body in [&b"not json"[..], b"{}", b""] {
        let reply = post("text/plain", body);
        assert_eq!(reply.status, Status::UnsupportedMediaType);
        assert!(reply.log.is_none());
    }
}

#[test]
fn missing_content_type_is_refused() {
    let reply = handle_csp_report("p", "POST", "/csp-report", &HeaderMap::new(), None, b"{}");
    assert_eq!(reply.status, Status::UnsupportedMediaType);
    assert!(reply.log.is_none());
}

#[test]
fn content_type_that_is_not_text_is_refused() {
    let mut headers = HeaderMap::new();
    headers.insert(
        "content-type",
        HeaderValue::from_bytes(b"application/json; \xff").unwrap(),
    );
    let reply = handle_csp_report("p", "POST", "/csp-report", &headers, None, b"{}");
    assert_eq!(reply.status, Status::UnsupportedMediaType);
}

#[test]
fn trace_is_logged_when_header_and_project_are_known() {
    let mut headers = headers("application/json");
    headers.insert(
        "x-cloud-trace-context",
        HeaderValue::from_static("abc123def/SPAN_ID;o=1"),
    );
    for body in [&b"[1, 2.5, null]"[..], b"["] {
        let reply =
            handle_csp_report("p", "POST", "/csp-report", &headers, Some("my-project"), body);
        assert_eq!(
            reply.log.unwrap()["logging.googleapis.com/trace"],
            "projects/my-project/traces/abc123def"
        );
        let reply = handle_csp_report("p", "POST", "/csp-report", &headers, None, body);
        assert!(reply.log.unwrap().get("logging.googleapis.com/trace").is_none());
    }
}

#[test]
fn trailing_characters_are_not_json() {
    assert_eq!(post("application/json", b"{} {}").status, Status::BadRequest);
    assert_eq!(post("application/json", b" 1 ").status, Status::NoContent);
}

#[test]
fn outcome_functions_answer_for_either_result() {
    let http_request = build_http_request_log("p", "POST", "/", &HeaderMap::new(), 2);
    let trace = Some("projects/p/traces/t".to_string());

    let reply = accepted_report(http_request.clone(), Value::from(7u16), &trace);
    assert_eq!(reply.status, Status::NoContent);
    let entry = reply.log.unwrap();
    assert_eq!(entry["csp-report"], 7);
    assert_eq!(entry["httpRequest"], http_request);
    assert_eq!(entry["logging.googleapis.com/trace"], "projects/p/traces/t");

    let reply = rejected_report(http_request.clone(), "raw".to_string(), &None);
    assert_eq!(reply.status, Status::BadRequest);
    let entry = reply.log.unwrap();
    assert_eq!(entry["raw-body"], "raw");
    assert_eq!(entry["httpRequest"], http_request);
}

#[test]
fn log_lines_are_compact_json_on_one_line() {
    let reply = handle_csp_report(
        "1.2.3.4:5",
        "POST",
        "/r?a=\"b\"",
        &headers("application/json"),
        None,
        b"{\n  \"b\": 1,\n  \"a\": \"x\\ny\"\n}\n",
    );
    assert_eq!(
        log_line(&reply.log.unwrap()),
        "{\"csp-report\":{\"a\":\"x\\ny\",\"b\":1},\
         \"httpRequest\":{\"remoteIp\":\"1.2.3.4:5\",\"requestMethod\":\"POST\",\
         \"requestSize\":\"28\",\"requestUrl\":\"/r?a=\\\"b\\\"\"},\
         \"message\":\"CSP violation report received\",\"severity\":\"WARNING\"}"
    );
}

#[test]
fn log_lines_escape_line_breaks_of_bad_bodies() {
    let line = log_line(&post("application/json", b"two\r\nlines").log.unwrap());
    assert!(line.contains("\"raw-body\":\"two\\r\\nlines\""));
    assert!(!line.contains('\n') && !line.contains('\r'));
}

#[test]
fn status_codes() {
    assert_eq!(Status::Success.code(), 200);
    assert_eq!(Status::NoContent.code(), 204);
    assert_eq!(Status::BadRequest.code(), 400);
    assert_eq!(Status::PayloadTooLarge.code(), 413);
    assert_eq!(Status::UnsupportedMediaType.code(), 415);
}
