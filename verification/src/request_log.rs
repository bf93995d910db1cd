//! The `httpRequest` object of a structured log entry.

use crate::entry::insert_string;
use crate::headers::{header_str, header_text, header_values, is_simple_name};
use crate::json::{json_members, json_value, object_value, Json};
use crate::text::{decimal, digits_value, is_digit, law_decimal_is_read_back, usize_to_string};
use axum::http::{HeaderMap, HeaderValue};
use serde_json::Value;
use vstd::prelude::*;

verus! {

/// What is known of a request: the address of the direct peer, the method, the URL, the values
/// of the headers and the size of the body in bytes.
pub struct RequestInfo {
    pub peer_addr: Seq<char>,
    pub method: Seq<char>,
    pub uri: Seq<char>,
    pub headers: Map<Seq<char>, Seq<Seq<u8>>>,
    pub body_len: nat,
}

impl RequestInfo {
    /// The text of the field `key` of the log object; `None` where the object has no such field.
    pub open spec fn field(self, key: Seq<char>) -> Option<Seq<char>> {
        if key == "requestMethod"@ {
            Some(self.method)
        } else if key == "requestUrl"@ {
            Some(self.uri)
        } else if key == "requestSize"@ {
            Some(decimal(self.body_len))
        } else if key == "remoteIp"@ {
            Some(self.peer_addr)
        } else if key == "userAgent"@ {
            header_text(self.headers, "user-agent"@)
        } else if key == "referer"@ {
            header_text(self.headers, "referer"@)
        } else if key == "xForwardedFor"@ {
            header_text(self.headers, "x-forwarded-for"@)
        } else if key == "xRealIp"@ {
            header_text(self.headers, "x-real-ip"@)
        } else if key == "origin"@ {
            header_text(self.headers, "origin"@)
        } else if key == "protocol"@ {
            header_text(self.headers, "x-forwarded-proto"@)
        } else {
            None
        }
    }

    /// The log object: every field that the request has, as a string.
    pub open spec fn log(self) -> Json {
        Json::Object(
            Map::new(
                |key: Seq<char>| self.field(key) is Some,
                |key: Seq<char>| Json::String(self.field(key)->0),
            ),
        )
    }
}

/// What is known of a request, from the arguments that describe it.
pub open spec fn request_info(
    peer_addr: &str,
    method: &str,
    uri: &str,
    headers: &HeaderMap<HeaderValue>,
    body_len: nat,
) -> RequestInfo {
    RequestInfo {
        peer_addr: peer_addr@,
        method: method@,
        uri: uri@,
        headers: header_values(*headers),
        body_len,
    }
}

/// `members` with the member `key` set to `text`, if there is a text.
spec fn insert_some(members: Map<Seq<char>, Json>, key: Seq<char>, text: Option<Seq<char>>) -> Map<
    Seq<char>,
    Json,
> {
    match text {
        Some(text) => members.insert(key, Json::String(text)),
        None => members,
    }
}

/// Sets the member `key` to the text of the header `name`, if the request has it.
fn insert_header(
    members: &mut serde_json::Map<String, Value>,
    key: &str,
    headers: &HeaderMap<HeaderValue>,
    name: &str,
)
    requires
        is_simple_name(name@),
    ensures
        json_members(*final(members)) == insert_some(
            json_members(*old(members)),
            key@,
            header_text(header_values(*headers), name@),
        ),
{
    if let Some(text) = header_str(headers, name) {
        insert_string(members, key, text);
    }
}

/// The names of the fields differ: equally long ones in their first characters.
proof fn lemma_field_names()
    ensures
        "requestMethod"@.len() == 13,
        "requestUrl"@.len() == 10,
        "requestSize"@.len() == 11,
        "remoteIp"@.len() == 8,
        "userAgent"@.len() == 9,
        "referer"@.len() == 7,
        "xForwardedFor"@.len() == 13,
        "xRealIp"@.len() == 7,
        "origin"@.len() == 6,
        "protocol"@.len() == 8,
        "requestMethod"@ != "xForwardedFor"@,
        "remoteIp"@ != "protocol"@,
        "referer"@ != "xRealIp"@,
{
    reveal_strlit("requestMethod");
    reveal_strlit("requestUrl");
    reveal_strlit("requestSize");
    reveal_strlit("remoteIp");
    reveal_strlit("userAgent");
    reveal_strlit("referer");
    reveal_strlit("xForwardedFor");
    reveal_strlit("xRealIp");
    reveal_strlit("origin");
    reveal_strlit("protocol");
    assert("requestMethod"@[0] != "xForwardedFor"@[0]);
    assert("remoteIp"@[0] != "protocol"@[0]);
    assert("referer"@[0] != "xRealIp"@[0]);
}

/// The names of the headers that the log object is made from can be looked up.
proof fn lemma_header_names()
    ensures
        is_simple_name("user-agent"@),
        is_simple_name("referer"@),
        is_simple_name("x-forwarded-for"@),
        is_simple_name("x-real-ip"@),
        is_simple_name("origin"@),
        is_simple_name("x-forwarded-proto"@),
{
    reveal_strlit("user-agent");
    reveal_strlit("referer");
    reveal_strlit("x-forwarded-for");
    reveal_strlit("x-real-ip");
    reveal_strlit("origin");
    reveal_strlit("x-forwarded-proto");
}

/// Builds the structured logging `httpRequest` object of a request.
///
/// `remoteIp` is the address of the direct peer. `X-Forwarded-For` and `X-Real-IP` are separate
/// fields, so that readers of the log can apply their own trust policy. A field that comes from
/// a header is there if and only if the request has that header, as text.
pub fn build_http_request_log(
    peer_addr: &str,
    method: &str,
    uri: &str,
    headers: &HeaderMap<HeaderValue>,
    body_len: usize,
) -> (log: Value)
    ensures
        json_value(log) == request_info(peer_addr, method, uri, headers, body_len as nat).log(),
        json_value(log) matches Json::Object(fields) && {
            &&& fields.dom().contains("requestMethod"@)
            &&& fields["requestMethod"@] == Json::String(method@)
            &&& fields.dom().contains("requestUrl"@)
            &&& fields["requestUrl"@] == Json::String(uri@)
            &&& fields.dom().contains("requestSize"@)
            &&& fields["requestSize"@] == Json::String(decimal(body_len as nat))
            &&& fields.dom().contains("remoteIp"@)
            &&& fields["remoteIp"@] == Json::String(peer_addr@)
        },
{
    proof {
        lemma_field_names();
        lemma_header_names();
    }
    proof {
        law_request_is_logged_as_given(
            peer_addr,
            method,
            uri,
            headers,
            body_len as nat,
            Seq::empty(),
        );
    }
    let mut members: serde_json::Map<String, Value> = serde_json::Map::new();

    insert_string(&mut members, "requestMethod", method);
    insert_string(&mut members, "requestUrl", uri);
    // The logging service expects a 64-bit integer as a string.
    insert_string(&mut members, "requestSize", usize_to_string(body_len).as_str());
    insert_string(&mut members, "remoteIp", peer_addr);

    insert_header(&mut members, "userAgent", headers, "user-agent");
    insert_header(&mut members, "referer", headers, "referer");
    // Informational: behind a trusted proxy these identify the originating client.
    insert_header(&mut members, "xForwardedFor", headers, "x-forwarded-for");
    insert_header(&mut members, "xRealIp", headers, "x-real-ip");
    insert_header(&mut members, "origin", headers, "origin");
    insert_header(&mut members, "protocol", headers, "x-forwarded-proto");

    assert(json_members(members) =~= request_info(
        peer_addr,
        method,
        uri,
        headers,
        body_len as nat,
    ).log()->Object_0);
    object_value(members)
}

/// Whatever the headers claim, `remoteIp` is the address of the direct peer; method, URL and
/// body size are always there too.
pub proof fn law_request_line_is_always_logged(info: RequestInfo)
    ensures
        info.log() is Object,
        info.log().has_string("requestMethod"@, info.method),
        info.log().has_string("requestUrl"@, info.uri),
        info.log().has_string("requestSize"@, decimal(info.body_len)),
        info.log().has_string("remoteIp"@, info.peer_addr),
{
    lemma_field_names();
}

/// The size of the body can be read back from the log object.
pub proof fn law_body_size_is_read_back(info: RequestInfo)
    ensures
        ({
            let size = info.log().string_member("requestSize"@);
            &&& size is Some
            &&& size->0.len() > 0
            &&& forall|i: int| 0 <= i < size->0.len() ==> is_digit(#[trigger] size->0[i])
            &&& digits_value(size->0) == info.body_len
        }),
{
    lemma_field_names();
    law_decimal_is_read_back(info.body_len);
}

/// A field that comes from a header holds that header's text, and is absent where the request
/// has no such header.
pub proof fn law_header_fields_mirror_the_headers(info: RequestInfo)
    ensures
        info.log().string_member("userAgent"@) == header_text(info.headers, "user-agent"@),
        info.log().string_member("referer"@) == header_text(info.headers, "referer"@),
        info.log().string_member("xForwardedFor"@) == header_text(info.headers, "x-forwarded-for"@),
        info.log().string_member("xRealIp"@) == header_text(info.headers, "x-real-ip"@),
        info.log().string_member("origin"@) == header_text(info.headers, "origin"@),
        info.log().string_member("protocol"@) == header_text(info.headers, "x-forwarded-proto"@),
{
    lemma_field_names();
}

/// No header but the six that have a field of their own has any influence on the log object.
pub proof fn law_other_headers_are_not_logged(a: RequestInfo, b: RequestInfo)
    requires
        a.peer_addr == b.peer_addr,
        a.method == b.method,
        a.uri == b.uri,
        a.body_len == b.body_len,
        header_text(a.headers, "user-agent"@) == header_text(b.headers, "user-agent"@),
        header_text(a.headers, "referer"@) == header_text(b.headers, "referer"@),
        header_text(a.headers, "x-forwarded-for"@) == header_text(b.headers, "x-forwarded-for"@),
        header_text(a.headers, "x-real-ip"@) == header_text(b.headers, "x-real-ip"@),
        header_text(a.headers, "origin"@) == header_text(b.headers, "origin"@),
        header_text(a.headers, "x-forwarded-proto"@) == header_text(
            b.headers,
            "x-forwarded-proto"@,
        ),
    ensures
        a.log() == b.log(),
{
    assert forall|key: Seq<char>| a.field(key) == b.field(key) by {}
    assert(a.log()->Object_0 =~= b.log()->Object_0);
}

/// The log object has no field but the ten that are named here.
pub proof fn law_no_other_fields(info: RequestInfo, key: Seq<char>)
    requires
        info.log().members().dom().contains(key),
    ensures
        key == "requestMethod"@ || key == "requestUrl"@ || key == "requestSize"@ || key
            == "remoteIp"@ || key == "userAgent"@ || key == "referer"@ || key == "xForwardedFor"@
            || key == "xRealIp"@ || key == "origin"@ || key == "protocol"@,
{
}

/// What is logged of a request is what the request was described by: the peer, method and URL are
/// the ones given, whatever the headers claim, the size is that of the body, each header has its
/// text in its own field, and there are no other fields.
pub proof fn law_request_is_logged_as_given(
    peer_addr: &str,
    method: &str,
    uri: &str,
    headers: &HeaderMap<HeaderValue>,
    body_len: nat,
    key: Seq<char>,
)
    ensures
        request_info(peer_addr, method, uri, headers, body_len).log() matches Json::Object(fields)
            && {
            let values = header_values(*headers);
            &&& fields.dom().contains("requestMethod"@)
            &&& fields["requestMethod"@] == Json::String(method@)
            &&& fields.dom().contains("requestUrl"@)
            &&& fields["requestUrl"@] == Json::String(uri@)
            &&& fields.dom().contains("requestSize"@)
            &&& fields["requestSize"@] == Json::String(decimal(body_len))
            &&& fields.dom().contains("remoteIp"@)
            &&& fields["remoteIp"@] == Json::String(peer_addr@)
            &&& match header_text(values, "user-agent"@) {
                Some(text) => fields.dom().contains("userAgent"@) && fields["userAgent"@]
                    == Json::String(text),
                None => !fields.dom().contains("userAgent"@),
            }
            &&& match header_text(values, "referer"@) {
                Some(text) => fields.dom().contains("referer"@) && fields["referer"@]
                    == Json::String(text),
                None => !fields.dom().contains("referer"@),
            }
            &&& match header_text(values, "x-forwarded-for"@) {
                Some(text) => fields.dom().contains("xForwardedFor"@) && fields["xForwardedFor"@]
                    == Json::String(text),
                None => !fields.dom().contains("xForwardedFor"@),
            }
            &&& match header_text(values, "x-real-ip"@) {
                Some(text) => fields.dom().contains("xRealIp"@) && fields["xRealIp"@]
                    == Json::String(text),
                None => !fields.dom().contains("xRealIp"@),
            }
            &&& match header_text(values, "origin"@) {
                Some(text) => fields.dom().contains("origin"@) && fields["origin"@]
                    == Json::String(text),
                None => !fields.dom().contains("origin"@),
            }
            &&& match header_text(values, "x-forwarded-proto"@) {
                Some(text) => fields.dom().contains("protocol"@) && fields["protocol"@]
                    == Json::String(text),
                None => !fields.dom().contains("protocol"@),
            }
            &&& fields.dom().contains(key) ==> key == "requestMethod"@ || key == "requestUrl"@
                || key == "requestSize"@ || key == "remoteIp"@ || key == "userAgent"@
                || key == "referer"@ || key == "xForwardedFor"@ || key == "xRealIp"@
                || key == "origin"@ || key == "protocol"@
        },
{
    lemma_field_names();
}

/// A description of a request holds what it was made from.
pub proof fn law_request_info(
    peer_addr: &str,
    method: &str,
    uri: &str,
    headers: &HeaderMap<HeaderValue>,
    body_len: nat,
)
    ensures
        request_info(peer_addr, method, uri, headers, body_len).peer_addr == peer_addr@,
        request_info(peer_addr, method, uri, headers, body_len).method == method@,
        request_info(peer_addr, method, uri, headers, body_len).uri == uri@,
        request_info(peer_addr, method, uri, headers, body_len).headers == header_values(*headers),
        request_info(peer_addr, method, uri, headers, body_len).body_len == body_len,
{
}

/// Requests from different peers, with different methods or for different URLs are logged
/// differently, and so are bodies of different sizes.
pub proof fn law_different_requests_are_logged_differently(a: RequestInfo, b: RequestInfo)
    requires
        a.log() == b.log(),
    ensures
        a.peer_addr == b.peer_addr,
        a.method == b.method,
        a.uri == b.uri,
        a.body_len == b.body_len,
{
    law_request_line_is_always_logged(a);
    law_request_line_is_always_logged(b);
    law_decimal_is_read_back(a.body_len);
    law_decimal_is_read_back(b.body_len);
}

} // verus!
