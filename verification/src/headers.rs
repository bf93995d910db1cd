//! Request headers, as `axum` hands them over.

use crate::text::text_of;
use axum::http::header::ToStrError;
use axum::http::{HeaderMap, HeaderValue};
use vstd::prelude::*;

verus! {

/// `http::HeaderMap`: a multimap from header names to values.
#[verifier::external_type_specification]
#[verifier::external_body]
#[verifier::reject_recursive_types(T)]
pub struct ExHeaderMap<T>(axum::http::HeaderMap<T>);

/// `http::HeaderValue`: the bytes of one value of a header.
#[verifier::external_type_specification]
#[verifier::external_body]
pub struct ExHeaderValue(axum::http::HeaderValue);

/// `http::header::ToStrError`: says that a header value is not text.
#[verifier::external_type_specification]
#[verifier::external_body]
pub struct ExToStrError(axum::http::header::ToStrError);

/// The values in a header map, in the order in which they were added, by the lower-case name
/// of their header.
pub uninterp spec fn header_values(
    headers: axum::http::HeaderMap<axum::http::HeaderValue>,
) -> Map<Seq<char>, Seq<Seq<u8>>>;

/// The bytes in a header value.
pub uninterp spec fn header_bytes(value: axum::http::HeaderValue) -> Seq<u8>;

/// A header name that is written in lower-case letters, digits and hyphens.
pub open spec fn is_simple_name(name: Seq<char>) -> bool {
    &&& 0 < name.len() <= 64
    &&& forall|i: int| 0 <= i < name.len() ==> is_simple_name_char(#[trigger] name[i])
}

/// A lower-case letter, a digit or a hyphen.
pub open spec fn is_simple_name_char(c: char) -> bool {
    'a' <= c <= 'z' || '0' <= c <= '9' || c == '-'
}

/// A byte that may stand in header text: visible ASCII, a space or a tab.
pub open spec fn is_text_byte(b: u8) -> bool {
    32 <= b < 127 || b == 9
}

/// All of the bytes may stand in header text.
pub open spec fn is_header_text(bytes: Seq<u8>) -> bool {
    forall|i: int| 0 <= i < bytes.len() ==> is_text_byte(#[trigger] bytes[i])
}

/// ASCII bytes as characters.
pub open spec fn ascii_chars(bytes: Seq<u8>) -> Seq<char> {
    bytes.map_values(|b: u8| b as char)
}

/// The text of the header `name`: of its first value, if there is one and it is text.
pub open spec fn header_text(values: Map<Seq<char>, Seq<Seq<u8>>>, name: Seq<char>) -> Option<
    Seq<char>,
> {
    if values.dom().contains(name) && is_header_text(values[name][0]) {
        Some(ascii_chars(values[name][0]))
    } else {
        None
    }
}

/// `http::HeaderMap::get`, on a string: the first value of the header `name`, if it has one.
/// The claim is made for simple names, which the map looks up as they are.
#[verifier::external_body]
fn get_header<'a>(headers: &'a HeaderMap<HeaderValue>, name: &str) -> (value: Option<
    &'a HeaderValue,
>)
    requires
        is_simple_name(name@),
    ensures
        value is Some <==> header_values(*headers).dom().contains(name@),
        value matches Some(v) ==> header_bytes(*v) == header_values(*headers)[name@][0],
{
    headers.get(name)
}

/// `http::HeaderValue::to_str` succeeds on the values that consist of visible ASCII characters,
/// spaces and tabs, and gives those characters.
#[verifier::external_body]
fn value_to_str<'a>(value: &'a HeaderValue) -> (text: Result<&'a str, ToStrError>)
    ensures
        text is Ok <==> is_header_text(header_bytes(*value)),
        text matches Ok(t) ==> t@ == ascii_chars(header_bytes(*value)),
{
    value.to_str()
}

/// The text of the header `name`, or nothing if the header is missing or is not text.
pub(crate) fn header_str<'a>(headers: &'a HeaderMap<HeaderValue>, name: &str) -> (text: Option<
    &'a str,
>)
    requires
        is_simple_name(name@),
    ensures
        text_of(text) == header_text(header_values(*headers), name@),
{
    match get_header(headers, name) {
        Some(value) => match value_to_str(value) {
            Ok(text) => Some(text),
            Err(_) => None,
        },
        None => None,
    }
}

/// The text of a header is that of its first value, byte by byte. A header has a text exactly if
/// it is there and its first value consists of visible ASCII characters, spaces and tabs.
pub proof fn law_header_text(values: Map<Seq<char>, Seq<Seq<u8>>>, name: Seq<char>)
    ensures
        header_text(values, name) is Some <==> values.dom().contains(name) && (forall|i: int|
            0 <= i < values[name][0].len() ==> (32 <= #[trigger] values[name][0][i] <= 126
                || values[name][0][i] == 9)),
        header_text(values, name) matches Some(text) ==> {
            &&& text.len() == values[name][0].len()
            &&& forall|i: int|
                0 <= i < text.len() ==> #[trigger] text[i] as int == values[name][0][i] as int
        },
{
}

/// What other headers hold has no influence on the text of a header.
pub proof fn law_headers_are_independent(
    a: Map<Seq<char>, Seq<Seq<u8>>>,
    b: Map<Seq<char>, Seq<Seq<u8>>>,
    name: Seq<char>,
)
    requires
        a.dom().contains(name) == b.dom().contains(name),
        a.dom().contains(name) ==> a[name][0] == b[name][0],
    ensures
        header_text(a, name) == header_text(b, name),
{
}

} // verus!
