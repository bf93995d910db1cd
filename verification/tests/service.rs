//! The routes, served by the HTTP server's own router.

use axum::body::{Body, Bytes};
use axum::extract::{ConnectInfo, DefaultBodyLimit, State};
use axum::http::{HeaderMap, Method, Request, StatusCode, Uri};
use axum::response::Response;
use axum::routing::{on, MethodFilter};
use axum::Router;
use csp_reporter::server::{Handler, Method as RouteMethod, MAX_BODY_SIZE};
use csp_reporter::{app, App, Status};
use http_body_util::BodyExt;
use serde_json::Value;
use std::sync::Arc;
use tower::util::ServiceExt;

fn status_code(status: Status) -> StatusCode {
    StatusCode::from_u16(status.code()).unwrap()
}

async fn health() -> StatusCode {
    status_code(csp_reporter::health())
}

async fn handle_csp_report(
    State(app): State<Arc<App>>,
    ConnectInfo(peer_addr): ConnectInfo<String>,
    method: Method,
    uri: Uri,
    headers: HeaderMap,
    body: Bytes,
) -> StatusCode {
    let reply = app.receive_csp_report(
        &peer_addr,
        method.as_str(),
        &uri.to_string(),
        &headers,
        None,
        &body,
    );
    status_code(reply.status)
}

fn router(csp_endpoint: &str) -> Router {
    let app = Arc::new(app(csp_endpoint));
    let mut router = Router::new();
    for route in &app.routes {
        let filter = match route.method {
            RouteMethod::Get => MethodFilter::GET,
            RouteMethod::Post => MethodFilter::POST,
        };
        let answer = match route.handler {
            Handler::CspReport => on(filter, handle_csp_report),
            Handler::Health => on(filter, health),
        };
        router = router.route(&route.path, answer);
    }
    router
        .layer(DefaultBodyLimit::max(app.max_body_size))
        .with_state(app)
}

fn send(csp_endpoint: &str, request: Request<Body>) -> Response {
    tokio::runtime::Builder::new_current_thread()
        .build()
        .unwrap()
        .block_on(router(csp_endpoint).oneshot(request))
        .unwrap()
}

fn request(method: &str, uri: &str, content_type: Option<&str>, body: Vec<u8>) -> Request<Body> {
    let mut builder = Request::builder()
        .method(method)
        .uri(uri)
        .extension(ConnectInfo("127.0.0.1:12345".to_string()));
    if let Some(content_type) = content_type {
        builder = builder.header("content-type", content_type);
    }
    builder.body(Body::from(body)).unwrap()
}

fn csp_post(uri: &str, content_type: &str, body: Vec<u8>) -> Request<Body> {
    request("POST", uri, Some(content_type), body)
}

fn json(text: &str) -> Vec<u8> {
    let value: Value = serde_json::from_str(text).unwrap();
    serde_json::to_vec(&value).unwrap()
}

#[test]
fn health_returns_ok() {
    let response = send("/csp-report", request("GET", "/health", None, vec![]));
    assert_eq!(response.status(), StatusCode::OK);
}

#[test]
fn csp_report_uri_format() {
    let body = json(
        r#"{
            "csp-report": {
                "document-uri": "https://example.com",
                "violated-directive": "script-src 'self'",
                "blocked-uri": "https://evil.com/script.js",
                "original-policy": "script-src 'self'; report-uri /csp-report"
            }
        }"#,
    );
    let response = send(
        "/csp-report",
        csp_post("/csp-report", "application/csp-report", body),
    );
    assert_eq!(response.status(), StatusCode::NO_CONTENT);
}

#[test]
fn csp_report_to_format() {
    let body = json(
        r#"[{
            "type": "csp-violation",
            "age": 10,
            "url": "https://example.com/page",
            "user_agent": "Mozilla/5.0",
            "body": {
                "documentURL": "https://example.com/page",
                "blockedURL": "https://evil.com/script.js",
                "effectiveDirective": "script-src-elem",
                "originalPolicy": "script-src 'self'; report-to csp-endpoint"
            }
        }]"#,
    );
    let response = send(
        "/csp-report",
        csp_post("/csp-report", "application/reports+json", body),
    );
    assert_eq!(response.status(), StatusCode::NO_CONTENT);
}

#[test]
fn csp_report_with_application_json() {
    let response = send(
        "/csp-report",
        csp_post("/csp-report", "application/json", json(r#"{"test": true}"#)),
    );
    assert_eq!(response.status(), StatusCode::NO_CONTENT);
}

#[test]
fn csp_report_rejects_wrong_content_type() {
    let response = send(
        "/csp-report",
        csp_post("/csp-report", "text/plain", b"not json".to_vec()),
    );
    assert_eq!(response.status(), StatusCode::UNSUPPORTED_MEDIA_TYPE);
}

#[test]
fn csp_report_rejects_invalid_json() {
    let response = send(
        "/csp-report",
        csp_post(
            "/csp-report",
            "application/csp-report",
            b"this is not json".to_vec(),
        ),
    );
    assert_eq!(response.status(), StatusCode::BAD_REQUEST);
}

#[test]
fn csp_report_rejects_get_method() {
    let response = send("/csp-report", request("GET", "/csp-report", None, vec![]));
    assert_eq!(response.status(), StatusCode::METHOD_NOT_ALLOWED);
}

#[test]
fn csp_report_rejects_oversized_body() {
    // Create a body larger than MAX_BODY_SIZE
    let large_body = vec![b'{'; MAX_BODY_SIZE + 1];
    let response = send(
        "/csp-report",
        csp_post("/csp-report", "application/csp-report", large_body),
    );
    assert_eq!(response.status(), StatusCode::PAYLOAD_TOO_LARGE);
}

/// A JSON document of `n` bytes.
fn padded_json(n: usize) -> Vec<u8> {
    let mut body = vec![b' '; n];
    body[n - 1] = b'1';
    body
}

#[test]
fn body_of_the_maximum_size_is_taken() {
    assert_eq!(MAX_BODY_SIZE, 16_384);
    let response = send(
        "/csp-report",
        csp_post("/csp-report", "application/json", padded_json(16_384)),
    );
    assert_eq!(response.status(), StatusCode::NO_CONTENT);
    let response = send(
        "/csp-report",
        csp_post("/csp-report", "application/json", padded_json(16_385)),
    );
    assert_eq!(response.status(), StatusCode::PAYLOAD_TOO_LARGE);
}

#[test]
fn body_limit_comes_before_the_content_type() {
    let response = send(
        "/csp-report",
        csp_post("/csp-report", "text/plain", padded_json(16_385)),
    );
    assert_eq!(response.status(), StatusCode::PAYLOAD_TOO_LARGE);
}

#[test]
fn library_and_server_agree_on_the_body_limit() {
    let app = app("/csp-report");
    for (content_type, size, status) in [
        ("application/json", 1, Status::NoContent),
        ("application/json", 16_384, Status::NoContent),
        ("application/json", 16_385, Status::PayloadTooLarge),
        ("text/plain", 16_384, Status::UnsupportedMediaType),
        ("text/plain", 16_385, Status::PayloadTooLarge),
    ] {
        let mut headers = HeaderMap::new();
        headers.insert("content-type", content_type.parse().unwrap());
        let body = padded_json(size);
        let reply =
            app.receive_csp_report("127.0.0.1:1", "POST", "/csp-report", &headers, None, &body);
        assert_eq!(reply.status, status);
        assert_eq!(reply.log.is_some(), status == Status::NoContent);
        assert_eq!(app.takes_body(size), status != Status::PayloadTooLarge);

        let response = send("/csp-report", csp_post("/csp-report", content_type, body));
        assert_eq!(response.status(), status_code(status));
    }
}

#[test]
fn unknown_route_returns_404() {
    let response = send("/csp-report", request("GET", "/nonexistent", None, vec![]));
    assert_eq!(response.status(), StatusCode::NOT_FOUND);
}

#[test]
fn health_returns_empty_body() {
    let response = send("/csp-report", request("GET", "/health", None, vec![]));
    let body = tokio::runtime::Builder::new_current_thread()
        .build()
        .unwrap()
        .block_on(response.into_body().collect())
        .unwrap()
        .to_bytes();
    assert!(body.is_empty());
}

#[test]
fn custom_csp_endpoint_accepts_reports() {
    let response = send(
        "/custom-csp",
        csp_post("/custom-csp", "application/csp-report", json(r#"{"test": true}"#)),
    );
    assert_eq!(response.status(), StatusCode::NO_CONTENT);
}

#[test]
fn custom_csp_endpoint_default_path_returns_404() {
    let response = send(
        "/custom-csp",
        csp_post("/csp-report", "application/csp-report", json(r#"{"test": true}"#)),
    );
    assert_eq!(response.status(), StatusCode::NOT_FOUND);
}

#[test]
fn custom_csp_endpoint_keeps_the_health_check() {
    let response = send("/custom-csp", request("GET", "/health", None, vec![]));
    assert_eq!(response.status(), StatusCode::OK);
    // Reports and health checks can even share a path.
    let response = send("/health", request("GET", "/health", None, vec![]));
    assert_eq!(response.status(), StatusCode::OK);
    let response = send("/health", csp_post("/health", "application/json", json("1")));
    assert_eq!(response.status(), StatusCode::NO_CONTENT);
}

#[test]
fn csp_report_accepts_content_type_with_params() {
    let body = json(r#"{"csp-report": {"blocked-uri": "https://evil.com"}}"#);
    let response = send(
        "/csp-report",
        csp_post("/csp-report", "application/csp-report; charset=utf-8", body),
    );
    assert_eq!(response.status(), StatusCode::NO_CONTENT);
}

#[test]
fn csp_report_accepts_uppercase_content_type() {
    let response = send(
        "/csp-report",
        csp_post("/csp-report", "APPLICATION/CSP-REPORT", json(r#"{"csp-report": {}}"#)),
    );
    assert_eq!(response.status(), StatusCode::NO_CONTENT);
}

#[test]
fn csp_report_rejects_put_method() {
    let response = send(
        "/csp-report",
        request(
            "PUT",
            "/csp-report",
            Some("application/csp-report"),
            json(r#"{"test": true}"#),
        ),
    );
    assert_eq!(response.status(), StatusCode::METHOD_NOT_ALLOWED);
}

#[test]
fn csp_report_rejects_delete_method() {
    let response = send("/csp-report", request("DELETE", "/csp-report", None, vec![]));
    assert_eq!(response.status(), StatusCode::METHOD_NOT_ALLOWED);
}

#[test]
fn csp_report_rejects_empty_body() {
    // An empty body is not valid JSON and should return 400 Bad Request.
    let response = send(
        "/csp-report",
        csp_post("/csp-report", "application/csp-report", vec![]),
    );
    assert_eq!(response.status(), StatusCode::BAD_REQUEST);
}
