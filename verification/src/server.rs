//! Configuration of the service, its routes, and what it logs of its own life.

use crate::content_type::accepts_content_type;
use crate::entry::{entry_members, insert_string, law_entry_members, new_entry};
use crate::headers::{header_text, header_values};
use crate::json::{json_parse, json_value, number_value, object_value, Json};
use crate::report::{handle_csp_report, report_reply, Reply, ReplyView, Status};
use crate::request_log::{request_info, RequestInfo};
use crate::text::{
    decimal, digits_value, has_prefix, law_decimal_u16_is_parsed, law_u16_digits,
    law_u16_other_text, lossy_text, parse_u16, starts_with, text_of, u16_value, usize_to_string,
};
use crate::trace::request_trace;
use axum::http::{HeaderMap, HeaderValue};
use serde_json::Value;
use vstd::prelude::*;
use vstd::utf8::{decode_utf8, valid_utf8};

verus! {

/// Maximum size of a request body: 16 KiB.
pub const MAX_BODY_SIZE: usize = 16_384;

/// A request method.
#[derive(Clone, Copy, Debug, PartialEq, Eq, Structural)]
pub enum Method {
    Get,
    Post,
}

/// What answers a request.
#[derive(Clone, Copy, Debug, PartialEq, Eq, Structural)]
pub enum Handler {
    /// `handle_csp_report`
    CspReport,
    /// `health`
    Health,
}

/// Requests for `path` with `method` are answered by `handler`.
#[derive(Debug)]
pub struct Route {
    pub path: String,
    pub method: Method,
    pub handler: Handler,
}

/// What a route says.
pub struct RouteView {
    pub path: Seq<char>,
    pub method: Method,
    pub handler: Handler,
}

impl View for Route {
    type V = RouteView;

    open spec fn view(&self) -> RouteView {
        RouteView { path: self.path@, method: self.method, handler: self.handler }
    }
}

/// The service: its routes, and the size of the largest body that it takes.
#[derive(Debug)]
pub struct App {
    pub routes: Vec<Route>,
    pub max_body_size: usize,
}

/// What a service says: its routes, and the size of the largest body that it takes.
pub struct AppView {
    pub routes: Seq<RouteView>,
    pub max_body_size: nat,
}

impl View for App {
    type V = AppView;

    open spec fn view(&self) -> AppView {
        AppView {
            routes: self.routes@.map_values(|route: Route| route@),
            max_body_size: self.max_body_size as nat,
        }
    }
}

impl AppView {
    /// The service takes bodies of `n` bytes.
    pub open spec fn takes_body(self, n: nat) -> bool {
        n <= self.max_body_size
    }

    /// The reply to a report that is sent to this service. A body that it does not take is not
    /// looked at, whatever its content type.
    pub open spec fn reply(
        self,
        info: RequestInfo,
        trace: Option<Seq<char>>,
        parsed: Option<Json>,
        raw_body: Seq<char>,
    ) -> ReplyView {
        if self.takes_body(info.body_len) {
            report_reply(info, trace, parsed, raw_body)
        } else {
            ReplyView { status: Status::PayloadTooLarge, log: None }
        }
    }
}

/// A path begins with a slash.
pub open spec fn is_path(path: Seq<char>) -> bool {
    path.len() > 0 && path[0] == '/'
}

/// The routes of the service that takes reports at `csp_endpoint`.
pub open spec fn app_routes(csp_endpoint: Seq<char>) -> Seq<RouteView> {
    seq![
        RouteView { path: csp_endpoint, method: Method::Post, handler: Handler::CspReport },
        RouteView { path: "/health"@, method: Method::Get, handler: Handler::Health },
    ]
}

/// What the service that takes reports at `csp_endpoint` says.
pub open spec fn app_view(csp_endpoint: Seq<char>) -> AppView {
    AppView { routes: app_routes(csp_endpoint), max_body_size: MAX_BODY_SIZE as nat }
}

/// The service that takes reports at `csp_endpoint`.
///
/// How requests are matched with routes, and what a request that
/// matches none is answered, is up to the HTTP server.
pub fn app(csp_endpoint: &str) -> (app: App)
    requires
        is_path(csp_endpoint@),
    ensures
        app@ == app_view(csp_endpoint@),
        app.max_body_size == 16384,
        app.routes@.len() == 2,
        app.routes@[0].path@ == csp_endpoint@,
        app.routes@[0].method == Method::Post,
        app.routes@[0].handler == Handler::CspReport,
        app.routes@[1].path@ == "/health"@,
        app.routes@[1].method == Method::Get,
        app.routes@[1].handler == Handler::Health,
{
    let mut routes: Vec<Route> = Vec::new();
    routes.push(
        Route { path: csp_endpoint.to_owned(), method: Method::Post, handler: Handler::CspReport },
    );
    routes.push(
        Route { path: "/health".to_owned(), method: Method::Get, handler: Handler::Health },
    );
    let app: App = App { routes, max_body_size: MAX_BODY_SIZE };
    assert(app@.routes =~= app_routes(csp_endpoint@));
    app
}

impl App {
    /// Whether the service takes a body of `n` bytes: one of exactly the maximum size it does.
    pub fn takes_body(&self, n: usize) -> (takes: bool)
        ensures
            takes == self@.takes_body(n as nat),
    {
        n <= self.max_body_size
    }

    /// Receives a violation report: refuses a body that is too large, and handles any other.
    ///
    /// A server need not read all of a body to learn that it is too large; it may then give this
    /// reply by itself.
    pub fn receive_csp_report(
        &self,
        peer_addr: &str,
        method: &str,
        uri: &str,
        headers: &HeaderMap<HeaderValue>,
        project: Option<&str>,
        body: &[u8],
    ) -> (reply: Reply)
        ensures
            reply@ == self@.reply(
                request_info(peer_addr, method, uri, headers, body@.len()),
                request_trace(
                    header_text(header_values(*headers), "x-cloud-trace-context"@),
                    text_of(project),
                ),
                json_parse(body@),
                lossy_text(body@),
            ),
            valid_utf8(body@) ==> reply@ == self@.reply(
                request_info(peer_addr, method, uri, headers, body@.len()),
                request_trace(
                    header_text(header_values(*headers), "x-cloud-trace-context"@),
                    text_of(project),
                ),
                json_parse(body@),
                decode_utf8(body@),
            ),
            body@.len() == 0 ==> reply.status != Status::NoContent,
            reply.status == Status::PayloadTooLarge <==> body@.len() > self.max_body_size,
            body@.len() > self.max_body_size ==> reply.log is None,
            body@.len() <= self.max_body_size ==> (header_text(
                header_values(*headers),
                "content-type"@,
            ) matches Some(ct) ==> {
                &&& reply.status == Status::UnsupportedMediaType <==> !accepts_content_type(ct)
                &&& reply.status == Status::NoContent <==> accepts_content_type(ct) && json_parse(
                    body@,
                ) is Some
                &&& reply.status == Status::BadRequest <==> accepts_content_type(ct) && json_parse(
                    body@,
                ) is None
            }),
    {
        if !self.takes_body(body.len()) {
            return Reply { status: Status::PayloadTooLarge, log: None };
        }
        handle_csp_report(peer_addr, method, uri, headers, project, body)
    }
}

/// Health check.
pub fn health() -> (status: Status)
    ensures
        status == Status::Success,
{
    Status::Success
}

/// The configuration of the service.
#[derive(Debug)]
pub struct Config {
    /// The TCP port to listen on.
    pub port: u16,
    /// The path at which reports are taken.
    pub csp_endpoint: String,
}

impl Config {
    /// The path begins with a slash.
    pub open spec fn well_formed(self) -> bool {
        is_path(self.csp_endpoint@)
    }
}

/// The port that the variable `PORT` asks for: 8080 if it is unset or is no port number.
pub open spec fn listen_port(port: Option<Seq<char>>) -> u16 {
    match port {
        Some(port) => match u16_value(port) {
            Some(port) => port,
            None => 8080,
        },
        None => 8080,
    }
}

/// The path that the variable `CSP_ENDPOINT` asks for: `/csp-report` if it is unset.
pub open spec fn endpoint_path(csp_endpoint: Option<Seq<char>>) -> Seq<char> {
    match csp_endpoint {
        Some(path) => path,
        None => "/csp-report"@,
    }
}

/// The entry that is logged if the path does not begin with a slash.
pub open spec fn bad_endpoint_entry(path: Seq<char>) -> Json {
    Json::Object(
        entry_members("ERROR"@, "CSP_ENDPOINT must start with '/', got: "@ + path),
    )
}

/// To begin with a slash is to have the prefix `/`.
proof fn lemma_path_prefix(path: Seq<char>)
    ensures
        is_path(path) <==> has_prefix(path, "/"@),
{
    reveal_strlit("/");
    assert("/"@ =~= seq!['/']);
    if path.len() > 0 {
        assert(path.subrange(0, 1) =~= seq![path[0]]);
        assert(path.subrange(0, 1)[0] == path[0]);
    }
}

/// The configuration, from the values of the environment variables `PORT` and `CSP_ENDPOINT`, or
/// the entry to log before giving up.
pub fn configure(port: Option<&str>, csp_endpoint: Option<&str>) -> (config: Result<Config, Value>)
    ensures
        config is Ok <==> is_path(endpoint_path(text_of(csp_endpoint))),
        config matches Ok(c) ==> {
            &&& c.well_formed()
            &&& c.port == listen_port(text_of(port))
            &&& c.csp_endpoint@ == endpoint_path(text_of(csp_endpoint))
        },
        config matches Err(entry) ==> json_value(entry) == bad_endpoint_entry(
            endpoint_path(text_of(csp_endpoint)),
        ),
        csp_endpoint matches Some(path) ==> {
            &&& config is Ok <==> path@.len() > 0 && path@[0] == '/'
            &&& config matches Ok(c) ==> c.csp_endpoint@ == path@
        },
        csp_endpoint is None ==> (config matches Ok(c) && c.csp_endpoint@ == "/csp-report"@),
        port is None ==> (config matches Ok(c) ==> c.port == 8080),
        port matches Some(text) ==> (config matches Ok(c) ==> match u16_value(text@) {
            Some(n) => c.port == n,
            None => c.port == 8080,
        }),
{
    proof {
        lemma_path_prefix(endpoint_path(text_of(csp_endpoint)));
        law_default_path_is_accepted();
    }
    let port: u16 = match port {
        Some(port) => match parse_u16(port) {
            Some(port) => port,
            None => 8080,
        },
        None => 8080,
    };
    let csp_endpoint: &str = match csp_endpoint {
        Some(path) => path,
        None => "/csp-report",
    };
    if !starts_with(csp_endpoint, "/") {
        let mut message: String = "CSP_ENDPOINT must start with '/', got: ".to_owned();
        message.append(csp_endpoint);
        return Err(object_value(new_entry("ERROR", message.as_str())));
    }
    Ok(Config { port, csp_endpoint: csp_endpoint.to_owned() })
}

/// The entry that is logged when the service listens.
pub open spec fn listening_log(port: u16, csp_endpoint: Seq<char>) -> Json {
    Json::Object(
        entry_members("INFO"@, "Listening on 0.0.0.0:"@ + decimal(port as nat)).insert(
            "port"@,
            Json::Number(decimal(port as nat)),
        ).insert("csp_endpoint"@, Json::String(csp_endpoint)),
    )
}

/// The entry to log when the service listens, on all IPv4 addresses.
pub fn listening_entry(config: &Config) -> (entry: Value)
    ensures
        json_value(entry) == listening_log(config.port, config.csp_endpoint@),
{
    let mut message: String = "Listening on 0.0.0.0:".to_owned();
    message.append(usize_to_string(config.port as usize).as_str());
    let mut members: serde_json::Map<String, Value> = new_entry("INFO", message.as_str());
    members.insert("port".to_owned(), number_value(config.port));
    insert_string(&mut members, "csp_endpoint", config.csp_endpoint.as_str());
    object_value(members)
}

/// The entry that is logged when the service has been told to stop.
pub open spec fn shutdown_log() -> Json {
    Json::Object(entry_members("INFO"@, "Shutdown signal received, draining connections"@))
}

/// The entry to log when the service has been told to stop.
pub fn shutdown_entry() -> (entry: Value)
    ensures
        json_value(entry) == shutdown_log(),
{
    object_value(new_entry("INFO", "Shutdown signal received, draining connections"))
}

/// Whatever the configuration, what the service logs of its own life has a severity and a message.
pub proof fn law_entries_have_severity_and_message(port: u16, path: Seq<char>)
    ensures
        bad_endpoint_entry(path).has_string("severity"@, "ERROR"@),
        bad_endpoint_entry(path).string_member("message"@) is Some,
        listening_log(port, path).has_string("severity"@, "INFO"@),
        listening_log(port, path).string_member("message"@) is Some,
        shutdown_log().has_string("severity"@, "INFO"@),
        shutdown_log().string_member("message"@) is Some,
{
    reveal_strlit("severity");
    reveal_strlit("message");
    reveal_strlit("port");
    reveal_strlit("csp_endpoint");
    assert("severity"@.len() == 8);
    assert("message"@.len() == 7);
    assert("port"@.len() == 4);
    assert("csp_endpoint"@.len() == 12);
}

/// Reports are taken at the configured path only, with `POST`; the health check is there
/// whatever that path is.
pub proof fn law_routes(csp_endpoint: Seq<char>, route: RouteView)
    ensures
        app_routes(csp_endpoint).contains(route) <==> {
            ||| route.handler == Handler::CspReport && route.path == csp_endpoint && route.method
                == Method::Post
            ||| route.handler == Handler::Health && route.path == "/health"@ && route.method
                == Method::Get
        },
{
    assert(app_routes(csp_endpoint)[0].handler == Handler::CspReport);
    assert(app_routes(csp_endpoint)[1].handler == Handler::Health);
}

/// Wherever the service takes reports, a report is answered 413, and not logged, if and only if
/// its body has more than 16384 bytes, whatever its content type. Any other report gets the reply
/// of the report handler.
pub proof fn law_body_limit(
    csp_endpoint: Seq<char>,
    info: RequestInfo,
    trace: Option<Seq<char>>,
    parsed: Option<Json>,
    raw_body: Seq<char>,
)
    ensures
        ({
            let app = app_view(csp_endpoint);
            let reply = app.reply(info, trace, parsed, raw_body);
            &&& app.routes.contains(
                (RouteView {
                    path: csp_endpoint,
                    method: Method::Post,
                    handler: Handler::CspReport,
                }),
            )
            &&& app.takes_body(info.body_len) <==> info.body_len <= 16384
            &&& reply.status.number() == 413 <==> info.body_len > 16384
            &&& info.body_len > 16384 ==> reply.log is None
            &&& info.body_len <= 16384 ==> reply == report_reply(info, trace, parsed, raw_body)
        }),
{
    assert(app_routes(csp_endpoint)[0].path == csp_endpoint);
}

/// A service with another path does not know the default path.
pub proof fn law_other_path_replaces_the_default(csp_endpoint: Seq<char>, route: RouteView)
    requires
        csp_endpoint != endpoint_path(None),
        app_routes(csp_endpoint).contains(route),
    ensures
        route.path != endpoint_path(None),
{
    reveal_strlit("/csp-report");
    reveal_strlit("/health");
    assert("/csp-report"@.len() != "/health"@.len());
}

/// The default path is one that the service can be configured with.
pub proof fn law_default_path_is_accepted()
    ensures
        is_path(endpoint_path(None)),
{
    reveal_strlit("/csp-report");
}

/// Every port can be asked for, by its number.
pub proof fn law_every_port_can_be_configured(port: u16)
    ensures
        listen_port(Some(decimal(port as nat))) == port,
{
    law_decimal_u16_is_parsed(port);
}

/// A path that is asked for is used exactly as it is, whatever it is; only if none is asked for,
/// the default is.
pub proof fn law_path_is_used_as_given(path: Seq<char>)
    ensures
        endpoint_path(Some(path)) == path,
        endpoint_path(None) == "/csp-report"@,
        is_path(path) <==> path.len() > 0 && path[0] == '/',
{
}

/// Text that stands for a port number, with or without a plus sign before it, asks for that port.
pub proof fn law_port_digits(digits: Seq<char>)
    requires
        digits.len() > 0,
        forall|i: int| 0 <= i < digits.len() ==> '0' <= #[trigger] digits[i] <= '9',
        digits_value(digits) <= 65535,
    ensures
        listen_port(Some(digits)) as nat == digits_value(digits),
        listen_port(Some(seq!['+'] + digits)) as nat == digits_value(digits),
{
    law_u16_digits(digits);
}

/// Any other text, or none, asks for port 8080: text without digits, with anything in it that is
/// neither a digit nor a plus sign at its beginning, or for a number that is too large.
pub proof fn law_other_port_text_means_the_default(s: Seq<char>)
    requires
        s.len() == 0 || s == seq!['+'] || (exists|i: int|
            0 <= i < s.len() && !('0' <= #[trigger] s[i] <= '9') && !(i == 0 && s[0] == '+')) || (
        s.len() > 0 && (forall|i: int| 0 <= i < s.len() ==> '0' <= #[trigger] s[i] <= '9')
            && digits_value(s) > 65535),
    ensures
        listen_port(Some(s)) == 8080,
        listen_port(None) == 8080,
        s.len() > 0 && (forall|i: int| 0 <= i < s.len() ==> '0' <= #[trigger] s[i] <= '9')
            ==> listen_port(Some(seq!['+'] + s)) == 8080,
{
    if s.len() > 0 && (forall|i: int| 0 <= i < s.len() ==> '0' <= #[trigger] s[i] <= '9') {
        law_u16_digits(s);
        assert('0' <= s[0] <= '9');
    } else {
        law_u16_other_text(s);
    }
}

/// The entry for a bad path names that path, and says nothing else.
pub proof fn law_bad_path_is_named(path: Seq<char>, key: Seq<char>)
    ensures
        bad_endpoint_entry(path) matches Json::Object(members) && {
            &&& members.dom().contains(key) <==> key == "severity"@ || key == "message"@
            &&& members["severity"@] == Json::String("ERROR"@)
            &&& members["message"@] == Json::String(
                "CSP_ENDPOINT must start with '/', got: "@ + path,
            )
        },
{
    law_entry_members("ERROR"@, "CSP_ENDPOINT must start with '/', got: "@ + path, key);
}

/// The entry that is logged when the service listens gives port and path as they are configured.
pub proof fn law_listening_entry(port: u16, csp_endpoint: Seq<char>, key: Seq<char>)
    ensures
        listening_log(port, csp_endpoint) matches Json::Object(members) && {
            &&& members.dom().contains(key) <==> key == "severity"@ || key == "message"@ || key
                == "port"@ || key == "csp_endpoint"@
            &&& members["severity"@] == Json::String("INFO"@)
            &&& members["message"@] == Json::String(
                "Listening on 0.0.0.0:"@ + decimal(port as nat),
            )
            &&& members["port"@] == Json::Number(decimal(port as nat))
            &&& members["csp_endpoint"@] == Json::String(csp_endpoint)
        },
{
    law_entry_members("INFO"@, "Listening on 0.0.0.0:"@ + decimal(port as nat), key);
    reveal_strlit("severity");
    reveal_strlit("message");
    reveal_strlit("port");
    reveal_strlit("csp_endpoint");
    assert("severity"@.len() == 8);
    assert("message"@.len() == 7);
    assert("port"@.len() == 4);
    assert("csp_endpoint"@.len() == 12);
}

/// The entry that is logged at the end has a severity and a message, and nothing else.
pub proof fn law_shutdown_entry(key: Seq<char>)
    ensures
        shutdown_log() matches Json::Object(members) && {
            &&& members.dom().contains(key) <==> key == "severity"@ || key == "message"@
            &&& members["severity"@] == Json::String("INFO"@)
            &&& members["message"@] == Json::String(
                "Shutdown signal received, draining connections"@,
            )
        },
{
    law_entry_members("INFO"@, "Shutdown signal received, draining connections"@, key);
}

/// A service refuses the bodies that are larger than its maximum, with 413 and without logging
/// them, and hands every other to the report handler.
pub proof fn law_any_body_limit(
    app: AppView,
    info: RequestInfo,
    trace: Option<Seq<char>>,
    parsed: Option<Json>,
    raw_body: Seq<char>,
)
    ensures
        app.takes_body(info.body_len) <==> info.body_len <= app.max_body_size,
        info.body_len > app.max_body_size ==> {
            &&& app.reply(info, trace, parsed, raw_body).status == Status::PayloadTooLarge
            &&& app.reply(info, trace, parsed, raw_body).log is None
        },
        info.body_len <= app.max_body_size ==> app.reply(info, trace, parsed, raw_body)
            == report_reply(info, trace, parsed, raw_body),
{
}

/// What a service says is what it is made of.
pub proof fn law_app_view(app: App, i: int)
    requires
        0 <= i < app.routes@.len(),
    ensures
        app@.max_body_size == app.max_body_size as nat,
        app@.routes.len() == app.routes@.len(),
        app@.routes[i].path == app.routes@[i].path@,
        app@.routes[i].method == app.routes@[i].method,
        app@.routes[i].handler == app.routes@[i].handler,
{
}

} // verus!
