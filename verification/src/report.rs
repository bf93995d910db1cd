//! Replies to violation reports, and what is logged of them.

use crate::content_type::{
    accepts_content_type, is_accepted_content_type, lemma_empty_is_refused,
};
use crate::entry::{entry_members, new_entry};
use crate::headers::{header_str, header_text, header_values};
use crate::json::{json_parse, json_value, object_value, parse_json, string_value, Json};
use crate::request_log::{build_http_request_log, request_info, RequestInfo};
use crate::text::{from_utf8_lossy, lossy_text, string_of, text_of};
use crate::trace::{extract_trace, request_trace, set_trace, with_trace};
use axum::http::{HeaderMap, HeaderValue};
use serde_json::Value;
use vstd::prelude::*;
use vstd::utf8::{decode_utf8, encode_utf8, valid_utf8};

verus! {

/// The statuses that this service answers with itself.
#[derive(Clone, Copy, Debug, PartialEq, Eq, Structural)]
pub enum Status {
    Success,
    NoContent,
    BadRequest,
    PayloadTooLarge,
    UnsupportedMediaType,
}

impl Status {
    /// The HTTP status code.
    pub open spec fn number(self) -> u16 {
        match self {
            Status::Success => 200,
            Status::NoContent => 204,
            Status::BadRequest => 400,
            Status::PayloadTooLarge => 413,
            Status::UnsupportedMediaType => 415,
        }
    }

    /// The HTTP status code.
    pub fn code(self) -> (code: u16)
        ensures
            code == self.number(),
    {
        match self {
            Status::Success => 200,
            Status::NoContent => 204,
            Status::BadRequest => 400,
            Status::PayloadTooLarge => 413,
            Status::UnsupportedMediaType => 415,
        }
    }
}

/// The reply to a report: the status to answer with, and the entry to log, if any.
#[derive(Debug)]
pub struct Reply {
    pub status: Status,
    pub log: Option<Value>,
}

/// What a reply says.
pub struct ReplyView {
    pub status: Status,
    pub log: Option<Json>,
}

impl View for Reply {
    type V = ReplyView;

    open spec fn view(&self) -> ReplyView {
        ReplyView {
            status: self.status,
            log: match self.log {
                Some(entry) => Some(json_value(entry)),
                None => None,
            },
        }
    }
}

/// The content type that a request declares; empty if it declares none.
pub open spec fn content_type(headers: Map<Seq<char>, Seq<Seq<u8>>>) -> Seq<char> {
    match header_text(headers, "content-type"@) {
        Some(ct) => ct,
        None => Seq::empty(),
    }
}

/// The log entry for a report: the report itself beside what is known of the request.
pub open spec fn accepted_entry(
    http_request: Json,
    report: Json,
    trace: Option<Seq<char>>,
) -> Json {
    with_trace(
        Json::Object(
            entry_members("WARNING"@, "CSP violation report received"@).insert(
                "httpRequest"@,
                http_request,
            ).insert("csp-report"@, report),
        ),
        trace,
    )
}

/// The log entry for a body that is not JSON: the body as text beside what is known of the
/// request.
pub open spec fn rejected_entry(
    http_request: Json,
    raw_body: Seq<char>,
    trace: Option<Seq<char>>,
) -> Json {
    with_trace(
        Json::Object(
            entry_members("WARNING"@, "CSP report received with invalid JSON body"@).insert(
                "httpRequest"@,
                http_request,
            ).insert("raw-body"@, Json::String(raw_body)),
        ),
        trace,
    )
}

/// The reply to a report, from the request, its trace, the value of its body as JSON (`None` if
/// it is not JSON) and its body as text.
pub open spec fn report_reply(
    info: RequestInfo,
    trace: Option<Seq<char>>,
    parsed: Option<Json>,
    raw_body: Seq<char>,
) -> ReplyView {
    if !accepts_content_type(content_type(info.headers)) {
        ReplyView { status: Status::UnsupportedMediaType, log: None }
    } else {
        match parsed {
            Some(report) => ReplyView {
                status: Status::NoContent,
                log: Some(accepted_entry(info.log(), report, trace)),
            },
            None => ReplyView {
                status: Status::BadRequest,
                log: Some(rejected_entry(info.log(), raw_body, trace)),
            },
        }
    }
}

/// The reply to a report whose body is the JSON value `report`.
pub fn accepted_report(http_request: Value, report: Value, trace: &Option<String>) -> (reply: Reply)
    ensures
        reply.status == Status::NoContent,
        reply@.log == Some(
            accepted_entry(json_value(http_request), json_value(report), string_of(*trace)),
        ),
{
    let mut members: serde_json::Map<String, Value> = new_entry(
        "WARNING",
        "CSP violation report received",
    );
    members.insert("httpRequest".to_owned(), http_request);
    members.insert("csp-report".to_owned(), report);
    let mut entry: Value = object_value(members);
    set_trace(&mut entry, trace);
    Reply { status: Status::NoContent, log: Some(entry) }
}

/// The reply to a report whose body is not JSON, but the text `raw_body`.
pub fn rejected_report(http_request: Value, raw_body: String, trace: &Option<String>) -> (reply:
    Reply)
    ensures
        reply.status == Status::BadRequest,
        reply@.log == Some(
            rejected_entry(json_value(http_request), raw_body@, string_of(*trace)),
        ),
{
    let mut members: serde_json::Map<String, Value> = new_entry(
        "WARNING",
        "CSP report received with invalid JSON body",
    );
    members.insert("httpRequest".to_owned(), http_request);
    members.insert("raw-body".to_owned(), string_value(raw_body));
    let mut entry: Value = object_value(members);
    set_trace(&mut entry, trace);
    Reply { status: Status::BadRequest, log: Some(entry) }
}

/// Handles an incoming violation report.
///
/// Accepts both the legacy `report-uri` format (`application/csp-report`) and the newer
/// Reporting API format (`application/reports+json`). A report with another content type is
/// refused and leaves no trace in the log; of any other, one entry is logged. `project` is the
/// cloud project that the service runs in, if it is known.
pub fn handle_csp_report(
    peer_addr: &str,
    method: &str,
    uri: &str,
    headers: &HeaderMap<HeaderValue>,
    project: Option<&str>,
    body: &[u8],
) -> (reply: Reply)
    ensures
        reply@ == report_reply(
            request_info(peer_addr, method, uri, headers, body@.len()),
            request_trace(
                header_text(header_values(*headers), "x-cloud-trace-context"@),
                text_of(project),
            ),
            json_parse(body@),
            lossy_text(body@),
        ),
        valid_utf8(body@) ==> reply@ == report_reply(
            request_info(peer_addr, method, uri, headers, body@.len()),
            request_trace(
                header_text(header_values(*headers), "x-cloud-trace-context"@),
                text_of(project),
            ),
            json_parse(body@),
            decode_utf8(body@),
        ),
        body@.len() == 0 ==> reply.status != Status::NoContent,
        header_text(header_values(*headers), "content-type"@) is None ==> reply.status
            == Status::UnsupportedMediaType,
        header_text(header_values(*headers), "content-type"@) matches Some(ct) ==> {
            &&& reply.status == Status::UnsupportedMediaType <==> !accepts_content_type(ct)
            &&& reply.status == Status::NoContent <==> accepts_content_type(ct) && json_parse(
                body@,
            ) is Some
            &&& reply.status == Status::BadRequest <==> accepts_content_type(ct) && json_parse(
                body@,
            ) is None
        },
        reply.log is None <==> reply.status == Status::UnsupportedMediaType,
{
    proof {
        reveal_strlit("content-type");
        reveal_strlit("");
        assert(""@ =~= Seq::empty());
        lemma_empty_is_refused();
    }
    let content_type: &str = match header_str(headers, "content-type") {
        Some(ct) => ct,
        None => "",
    };

    // Only accept the JSON-like content types used by violation reports.
    if !is_accepted_content_type(content_type) {
        return Reply { status: Status::UnsupportedMediaType, log: None };
    }
    let http_request: Value = build_http_request_log(peer_addr, method, uri, headers, body.len());
    let trace: Option<String> = extract_trace(headers, project);

    match parse_json(body) {
        Ok(report) => accepted_report(http_request, report, &trace),
        Err(_) => rejected_report(http_request, from_utf8_lossy(body), &trace),
    }
}

/// The names of the members of log entries differ.
proof fn lemma_member_names()
    ensures
        "severity"@.len() == 8,
        "message"@.len() == 7,
        "httpRequest"@.len() == 11,
        "csp-report"@.len() == 10,
        "raw-body"@.len() == 8,
        "raw-body"@ != "severity"@,
        "logging.googleapis.com/trace"@.len() == 28,
{
    reveal_strlit("severity");
    reveal_strlit("message");
    reveal_strlit("httpRequest");
    reveal_strlit("csp-report");
    reveal_strlit("raw-body");
    reveal_strlit("logging.googleapis.com/trace");
    assert("raw-body"@[0] != "severity"@[0]);
}

/// A report is answered by one of three statuses: 415 if its content type is not one that
/// reports are sent with, whatever its body; otherwise 204 if its body is JSON, and 400 if not.
pub proof fn law_reply_status(
    info: RequestInfo,
    trace: Option<Seq<char>>,
    parsed: Option<Json>,
    raw_body: Seq<char>,
)
    ensures
        ({
            let code = report_reply(info, trace, parsed, raw_body).status.number();
            let accepted = accepts_content_type(content_type(info.headers));
            &&& code == 415 <==> !accepted
            &&& code == 204 <==> accepted && parsed is Some
            &&& code == 400 <==> accepted && parsed is None
        }),
{
}

/// A report that declares no content type, or one that is not text, is refused.
pub proof fn law_missing_content_type_is_refused(
    info: RequestInfo,
    trace: Option<Seq<char>>,
    parsed: Option<Json>,
    raw_body: Seq<char>,
)
    requires
        header_text(info.headers, "content-type"@) is None,
    ensures
        report_reply(info, trace, parsed, raw_body).status == Status::UnsupportedMediaType,
{
    lemma_empty_is_refused();
}

/// A report that is refused for its content type is not logged. Of any other report one entry is
/// logged: a warning, with what is known of the request, and with the trace exactly if the
/// request has one.
pub proof fn law_what_is_logged(
    info: RequestInfo,
    trace: Option<Seq<char>>,
    parsed: Option<Json>,
    raw_body: Seq<char>,
)
    ensures
        ({
            let reply = report_reply(info, trace, parsed, raw_body);
            &&& reply.log is None <==> reply.status == Status::UnsupportedMediaType
            &&& reply.log matches Some(entry) ==> {
                &&& entry.has_string("severity"@, "WARNING"@)
                &&& entry.string_member("message"@) is Some
                &&& entry.members().dom().contains("httpRequest"@)
                &&& entry.members()["httpRequest"@] == info.log()
                &&& entry.string_member("logging.googleapis.com/trace"@) == trace
            }
        }),
{
    lemma_member_names();
}

/// A body that is JSON is logged whole, as JSON; one that is not is logged as text.
pub proof fn law_body_is_logged(
    info: RequestInfo,
    trace: Option<Seq<char>>,
    parsed: Option<Json>,
    raw_body: Seq<char>,
)
    requires
        accepts_content_type(content_type(info.headers)),
    ensures
        ({
            let entry = report_reply(info, trace, parsed, raw_body).log->0;
            &&& entry.members().dom().contains("csp-report"@) <==> parsed is Some
            &&& parsed is Some ==> entry.members()["csp-report"@] == parsed->0
            &&& entry.members().dom().contains("raw-body"@) <==> parsed is None
            &&& parsed is None ==> entry.has_string("raw-body"@, raw_body)
        }),
{
    lemma_member_names();
}

/// A body that is UTF-8 but not JSON can be recovered, byte for byte, from what is logged of it.
pub proof fn law_raw_body_can_be_recovered(
    info: RequestInfo,
    trace: Option<Seq<char>>,
    body: Seq<u8>,
)
    requires
        accepts_content_type(content_type(info.headers)),
        valid_utf8(body),
    ensures
        ({
            let entry = report_reply(info, trace, None, decode_utf8(body)).log->0;
            &&& entry.string_member("raw-body"@) is Some
            &&& encode_utf8(entry.string_member("raw-body"@)->0) == body
        }),
{
    lemma_member_names();
    vstd::utf8::decode_utf8_encode_utf8(body);
}

/// The entry for a report has the report, whole, beside what is known of the request, and its
/// trace exactly if it has one; and nothing else.
pub proof fn law_accepted_entry(
    http_request: Json,
    report: Json,
    trace: Option<Seq<char>>,
    key: Seq<char>,
)
    ensures
        accepted_entry(http_request, report, trace) matches Json::Object(members) && {
            &&& members.dom().contains(key) <==> key == "severity"@ || key == "message"@ || key
                == "httpRequest"@ || key == "csp-report"@ || (key == "logging.googleapis.com/trace"@
                && trace is Some)
            &&& members["severity"@] == Json::String("WARNING"@)
            &&& members["message"@] == Json::String("CSP violation report received"@)
            &&& members["httpRequest"@] == http_request
            &&& members["csp-report"@] == report
            &&& trace is Some ==> members["logging.googleapis.com/trace"@] == Json::String(trace->0)
        },
{
    lemma_member_names();
}

/// The entry for a body that is not JSON has the body, as text, beside what is known of the
/// request, and its trace exactly if it has one; and nothing else.
pub proof fn law_rejected_entry(
    http_request: Json,
    raw_body: Seq<char>,
    trace: Option<Seq<char>>,
    key: Seq<char>,
)
    ensures
        rejected_entry(http_request, raw_body, trace) matches Json::Object(members) && {
            &&& members.dom().contains(key) <==> key == "severity"@ || key == "message"@ || key
                == "httpRequest"@ || key == "raw-body"@ || (key == "logging.googleapis.com/trace"@
                && trace is Some)
            &&& members["severity"@] == Json::String("WARNING"@)
            &&& members["message"@] == Json::String("CSP report received with invalid JSON body"@)
            &&& members["httpRequest"@] == http_request
            &&& members["raw-body"@] == Json::String(raw_body)
            &&& trace is Some ==> members["logging.googleapis.com/trace"@] == Json::String(trace->0)
        },
{
    lemma_member_names();
}

/// The content type that decides is the text of the `Content-Type` header, whatever the other
/// headers hold.
pub proof fn law_content_type_header_decides(
    info: RequestInfo,
    ct: Seq<char>,
    trace: Option<Seq<char>>,
    parsed: Option<Json>,
    raw_body: Seq<char>,
)
    requires
        header_text(info.headers, "content-type"@) == Some(ct),
    ensures
        ({
            let status = report_reply(info, trace, parsed, raw_body).status;
            &&& status == Status::UnsupportedMediaType <==> !accepts_content_type(ct)
            &&& accepts_content_type(ct) && parsed is Some <==> status == Status::NoContent
            &&& accepts_content_type(ct) && parsed is None <==> status == Status::BadRequest
        }),
{
}

/// Two requests with the same content type and body get the same status, whatever else they
/// differ in: peer, method, URL, other headers or trace.
pub proof fn law_status_depends_on_content_type_and_body(
    a: RequestInfo,
    b: RequestInfo,
    trace_a: Option<Seq<char>>,
    trace_b: Option<Seq<char>>,
    parsed: Option<Json>,
    raw_body: Seq<char>,
)
    requires
        header_text(a.headers, "content-type"@) == header_text(b.headers, "content-type"@),
    ensures
        report_reply(a, trace_a, parsed, raw_body).status == report_reply(
            b,
            trace_b,
            parsed,
            raw_body,
        ).status,
{
}

/// What is logged of a request with an accepted content type is the entry for a report if the body
/// is JSON, and the entry for a bad body if it is not; of any other request nothing is logged.
pub proof fn law_logged_entry(
    info: RequestInfo,
    ct: Seq<char>,
    trace: Option<Seq<char>>,
    report: Json,
    raw_body: Seq<char>,
)
    requires
        header_text(info.headers, "content-type"@) == Some(ct),
    ensures
        accepts_content_type(ct) ==> {
            &&& report_reply(info, trace, Some(report), raw_body).log == Some(
                accepted_entry(info.log(), report, trace),
            )
            &&& report_reply(info, trace, None, raw_body).log == Some(
                rejected_entry(info.log(), raw_body, trace),
            )
        },
        !accepts_content_type(ct) ==> {
            &&& report_reply(info, trace, Some(report), raw_body).log is None
            &&& report_reply(info, trace, None, raw_body).log is None
        },
{
}

/// Different reports are logged differently, and so are different bad bodies.
pub proof fn law_different_bodies_are_logged_differently(
    http_request: Json,
    trace: Option<Seq<char>>,
    report1: Json,
    report2: Json,
    raw1: Seq<char>,
    raw2: Seq<char>,
)
    ensures
        accepted_entry(http_request, report1, trace) == accepted_entry(http_request, report2, trace)
            ==> report1 == report2,
        rejected_entry(http_request, raw1, trace) == rejected_entry(http_request, raw2, trace)
            ==> raw1 == raw2,
        accepted_entry(http_request, report1, trace) != rejected_entry(http_request, raw1, trace),
{
    law_accepted_entry(http_request, report1, trace, "raw-body"@);
    law_accepted_entry(http_request, report2, trace, "raw-body"@);
    law_rejected_entry(http_request, raw1, trace, "raw-body"@);
    law_rejected_entry(http_request, raw2, trace, "raw-body"@);
    lemma_member_names();
}

/// What a reply says is its status and its entry.
pub proof fn law_reply_view(reply: Reply)
    ensures
        reply@.status == reply.status,
        reply@.log is Some <==> reply.log is Some,
        reply.log matches Some(entry) ==> reply@.log == Some(json_value(entry)),
{
}

/// The codes of the statuses.
pub proof fn law_status_codes(status: Status)
    ensures
        status.number() == 200 <==> status == Status::Success,
        status.number() == 204 <==> status == Status::NoContent,
        status.number() == 400 <==> status == Status::BadRequest,
        status.number() == 413 <==> status == Status::PayloadTooLarge,
        status.number() == 415 <==> status == Status::UnsupportedMediaType,
{
}

} // verus!
