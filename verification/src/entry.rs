//! Structured log entries.

use crate::json::{
    display_json, json_members, json_text, json_value, no_members, string_value, Json,
};
use serde_json::Value;
use vstd::prelude::*;

verus! {

/// The members that every log entry begins with.
pub open spec fn entry_members(severity: Seq<char>, message: Seq<char>) -> Map<Seq<char>, Json> {
    no_members().insert("severity"@, Json::String(severity)).insert(
        "message"@,
        Json::String(message),
    )
}

/// Sets the member `key` to the string `text`.
pub(crate) fn insert_string(members: &mut serde_json::Map<String, Value>, key: &str, text: &str)
    ensures
        json_members(*final(members)) == json_members(*old(members)).insert(
            key@,
            Json::String(text@),
        ),
{
    members.insert(key.to_owned(), string_value(text.to_owned()));
}

/// The members of a new log entry.
pub(crate) fn new_entry(severity: &str, message: &str) -> (members: serde_json::Map<String, Value>)
    ensures
        json_members(members) == entry_members(severity@, message@),
{
    let mut members: serde_json::Map<String, Value> = serde_json::Map::new();
    insert_string(&mut members, "severity", severity);
    insert_string(&mut members, "message", message);
    members
}

/// The text of a log entry, as it is written to standard output: compact JSON on one line.
pub fn log_line(entry: &Value) -> (line: String)
    ensures
        line@ == json_text(json_value(*entry)),
        !line@.contains('\n'),
        !line@.contains('\r'),
{
    display_json(entry)
}

/// A new entry has a severity and a message, as they were given, and nothing else.
pub proof fn law_entry_members(severity: Seq<char>, message: Seq<char>, key: Seq<char>)
    ensures
        entry_members(severity, message).dom().contains(key) <==> key == "severity"@ || key
            == "message"@,
        entry_members(severity, message)["severity"@] == Json::String(severity),
        entry_members(severity, message)["message"@] == Json::String(message),
{
    reveal_strlit("severity");
    reveal_strlit("message");
    assert("severity"@.len() != "message"@.len());
}

} // verus!
