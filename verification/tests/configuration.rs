use csp_reporter::server::{Handler, Method, MAX_BODY_SIZE};
use csp_reporter::{app, configure, listening_entry, log_line, shutdown_entry, Config};

#[test]
fn defaults() {
    let config = configure(None, None).unwrap();
    assert_eq!(config.port, 8080);
    assert_eq!(config.csp_endpoint, "/csp-report");
}

#[test]
fn port_is_read_from_its_number() {
    for (text, port) in [
        ("443", 443),
        ("+443", 443),
        ("00443", 443),
        ("0", 0),
        ("65535", 65535),
        // What is no port number stands for the default.
        ("65536", 8080),
        ("99999999999999999999999999", 8080),
        ("", 8080),
        ("+", 8080),
        ("++1", 8080),
        ("-1", 8080),
        ("-0", 8080),
        (" 443", 8080),
        ("443 ", 8080),
        ("4_43", 8080),
        ("http", 8080),
        ("\u{664}\u{664}", 8080),
    ] {
        assert_eq!(configure(Some(text), None).unwrap().port, port, "{text:?}");
    }
}

#[test]
fn every_port_can_be_configured() {
    for port in 0..=u16::MAX {
        assert_eq!(configure(Some(&port.to_string()), None).unwrap().port, port);
    }
}

#[test]
fn path_may_be_anything_behind_a_slash() {
    for path in ["/", "/custom-csp", "/a/b", "/r\u{e9}port"] {
        let config = configure(None, Some(path)).unwrap();
        assert_eq!(config.csp_endpoint, path);
        assert_eq!(config.port, 8080);
    }
}

#[test]
fn path_without_a_slash_is_an_error() {
    for path in ["csp-report", "", " /csp-report"] {
        let entry = configure(Some("443"), Some(path)).unwrap_err();
        assert_eq!(entry["severity"], "ERROR");
        assert_eq!(
            entry["message"],
            format!("CSP_ENDPOINT must start with '/', got: {path}")
        );
        assert_eq!(entry.as_object().unwrap().len(), 2);
    }
}

#[test]
fn listening_is_logged() {
    let config = Config { port: 9000, csp_endpoint: "/custom-csp".to_string() };
    let entry = listening_entry(&config);
    assert_eq!(entry["severity"], "INFO");
    assert_eq!(entry["message"], "Listening on 0.0.0.0:9000");
    assert_eq!(entry["port"], 9000);
    assert_eq!(entry["csp_endpoint"], "/custom-csp");
    assert_eq!(
        log_line(&entry),
        "{\"csp_endpoint\":\"/custom-csp\",\"message\":\"Listening on 0.0.0.0:9000\",\
         \"port\":9000,\"severity\":\"INFO\"}"
    );
}

#[test]
fn shutdown_is_logged() {
    assert_eq!(
        log_line(&shutdown_entry()),
        "{\"message\":\"Shutdown signal received, draining connections\",\"severity\":\"INFO\"}"
    );
}

#[test]
fn routes() {
    let app = app("/custom-csp");
    assert_eq!(app.max_body_size, MAX_BODY_SIZE);
    assert_eq!(app.routes.len(), 2);
    assert_eq!(app.routes[0].path, "/custom-csp");
    assert_eq!(app.routes[0].method, Method::Post);
    assert_eq!(app.routes[0].handler, Handler::CspReport);
    assert_eq!(app.routes[1].path, "/health");
    assert_eq!(app.routes[1].method, Method::Get);
    assert_eq!(app.routes[1].handler, Handler::Health);
}
