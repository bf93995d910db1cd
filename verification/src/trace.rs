//! Correlation of log entries with the trace of the request that caused them.

use crate::headers::{header_str, header_text, header_values};
use crate::json::{json_value, set_member, string_value, Json};
use crate::text::{string_of, text_of};
use axum::http::{HeaderMap, HeaderValue};
use serde_json::Value;
use vstd::prelude::*;

verus! {

/// The part of `s` before its first slash; all of `s` if it has none.
pub open spec fn before_slash(s: Seq<char>) -> Seq<char> {
    match s.index_of_first('/') {
        Some(i) => s.take(i),
        None => s,
    }
}

/// The part of `s` after its last slash; all of `s` if it has none.
pub open spec fn after_last_slash(s: Seq<char>) -> Seq<char> {
    match s.index_of_last('/') {
        Some(i) => s.skip(i + 1),
        None => s,
    }
}

/// The resource name of the trace `id` in `project`.
pub open spec fn trace_name(project: Seq<char>, id: Seq<char>) -> Seq<char> {
    "projects/"@ + project + "/traces/"@ + id
}

/// The trace of a request, from the text of its `X-Cloud-Trace-Context` header: `None` if there
/// is no header, if its trace identifier is empty, or if the project is not known.
pub open spec fn request_trace(
    header: Option<Seq<char>>,
    project: Option<Seq<char>>,
) -> Option<Seq<char>> {
    match (header, project) {
        (Some(header), Some(project)) => if before_slash(header).len() > 0 {
            Some(trace_name(project, before_slash(header)))
        } else {
            None
        },
        _ => None,
    }
}

/// A log entry with the trace added, if there is one.
pub open spec fn with_trace(entry: Json, trace: Option<Seq<char>>) -> Json {
    match trace {
        Some(trace) => entry.with_member("logging.googleapis.com/trace"@, Json::String(trace)),
        None => entry,
    }
}

/// The part of `s` before its first slash.
fn take_before_slash<'a>(s: &'a str) -> (head: &'a str)
    ensures
        head@ == before_slash(s@),
{
    let len: usize = s.unicode_len();
    let mut n: usize = 0;
    for c in it: s.chars()
        invariant
            len == s@.len(),
            it.seq() == s@,
            n == it.index(),
            forall|j: int| 0 <= j < n ==> s@[j] != '/',
    {
        if c == '/' {
            proof {
                s@.index_of_first_ensures('/');
                assert(s@[n as int] == '/');
                assert(s@.contains('/'));
            }
            return s.substring_char(0, n);
        }
        n = n + 1;
    }
    proof {
        s@.index_of_first_ensures('/');
    }
    s
}

/// The trace resource name `projects/{project}/traces/{trace_id}` that structured logging
/// expects, from the `X-Cloud-Trace-Context` header and the project that the service runs in.
///
/// The header has the form `TRACE_ID/SPAN_ID;o=OPTIONS`. If the header, its trace identifier or
/// the project is missing, there is no trace.
pub fn extract_trace(headers: &HeaderMap<HeaderValue>, project: Option<&str>) -> (trace: Option<
    String,
>)
    ensures
        string_of(trace) == request_trace(
            header_text(header_values(*headers), "x-cloud-trace-context"@),
            text_of(project),
        ),
        project is None ==> trace is None,
        header_text(header_values(*headers), "x-cloud-trace-context"@) is None ==> trace is None,
        trace matches Some(t) ==> t@ == "projects/"@ + project->0@ + "/traces/"@ + before_slash(
            header_text(header_values(*headers), "x-cloud-trace-context"@)->0,
        ),
{
    proof {
        reveal_strlit("x-cloud-trace-context");
    }
    let header: &str = match header_str(headers, "x-cloud-trace-context") {
        Some(header) => header,
        None => return None,
    };
    let id: &str = take_before_slash(header);
    if id.is_empty() {
        return None;
    }
    match project {
        Some(project) => {
            let mut name: String = "projects/".to_owned();
            name.append(project);
            name.append("/traces/");
            name.append(id);
            Some(name)
        },
        None => None,
    }
}

/// Adds the trace, if there is one, to a log entry under the key `logging.googleapis.com/trace`,
/// by which entries are correlated with the trace of the originating request.
pub fn set_trace(log_entry: &mut Value, trace: &Option<String>)
    requires
        trace is Some ==> json_value(*old(log_entry)).takes_members(),
    ensures
        json_value(*final(log_entry)) == with_trace(
            json_value(*old(log_entry)),
            string_of(*trace),
        ),
        trace is None ==> *final(log_entry) == *old(log_entry),
{
    if let Some(trace) = trace {
        set_member(log_entry, "logging.googleapis.com/trace", string_value(trace.clone()));
    }
}

/// Only the part of the header before its first slash counts: span and options may be anything,
/// or missing.
pub proof fn law_only_the_trace_id_counts(
    id: Seq<char>,
    rest: Seq<char>,
    project: Option<Seq<char>>,
)
    requires
        !id.contains('/'),
    ensures
        before_slash(id) == id,
        before_slash(id + seq!['/'] + rest) == id,
        request_trace(Some(id + seq!['/'] + rest), project) == request_trace(Some(id), project),
{
    let header = id + seq!['/'] + rest;
    id.index_of_first_ensures('/');
    header.index_of_first_ensures('/');
    assert(header[id.len() as int] == '/');
    let i = header.index_of_first('/')->0;
    if i < id.len() {
        assert(id[i] == '/');
    }
    assert(header.take(id.len() as int) =~= id);
}

/// A trace identifier is the beginning of the header, and has no slash in it.
pub proof fn law_trace_id_has_no_slash(header: Seq<char>)
    ensures
        !before_slash(header).contains('/'),
        before_slash(header).is_prefix_of(header),
{
    header.index_of_first_ensures('/');
}

/// Whatever the project is called, the last segment of the trace of a request is the trace
/// identifier of its header.
pub proof fn law_trace_id_is_the_last_segment(header: Seq<char>, project: Seq<char>)
    requires
        request_trace(Some(header), Some(project)) is Some,
    ensures
        after_last_slash(request_trace(Some(header), Some(project))->0) == before_slash(header),
{
    let id = before_slash(header);
    let head = "projects/"@ + project + "/traces/"@;
    let name = trace_name(project, id);
    law_trace_id_has_no_slash(header);
    reveal_strlit("/traces/");
    assert(name =~= head + id);
    assert(head.last() == '/');
    assert(name[head.len() - 1] == '/');
    name.index_of_last_ensures('/');
    let last = name.index_of_last('/')->0;
    if last >= head.len() {
        assert(id[last - head.len()] == '/');
    }
    assert(name.skip(head.len() as int) =~= id);
}

/// There is a trace exactly where the header has a trace identifier and the project is known.
pub proof fn law_trace_needs_id_and_project(header: Option<Seq<char>>, project: Option<Seq<char>>)
    ensures
        request_trace(header, project) is Some <==> project is Some && header is Some
            && header->0.len() > 0 && header->0[0] != '/',
{
    if let Some(h) = header {
        h.index_of_first_ensures('/');
        if h.len() > 0 && h[0] == '/' {
            assert(h.contains('/'));
        }
        if before_slash(h).len() == 0 && h.len() > 0 {
            assert(h[0] == '/');
        }
    }
}

/// An entry with a trace has that trace under its key, and every other member as it was.
pub proof fn law_trace_is_added_beside_the_rest(entry: Json, trace: Seq<char>, key: Seq<char>)
    requires
        key != "logging.googleapis.com/trace"@,
    ensures
        with_trace(entry, Some(trace)).has_string("logging.googleapis.com/trace"@, trace),
        with_trace(entry, Some(trace)).members().dom().contains(key)
            <==> entry.members().dom().contains(key),
        entry.members().dom().contains(key) ==> with_trace(entry, Some(trace)).members()[key]
            == entry.members()[key],
{
}

/// The trace that was set last is the one that stays.
pub proof fn law_last_trace_stays(entry: Json, first: Option<Seq<char>>, last: Seq<char>)
    ensures
        with_trace(with_trace(entry, first), Some(last)) == with_trace(entry, Some(last)),
{
    assert(with_trace(with_trace(entry, first), Some(last)).members() =~= with_trace(
        entry,
        Some(last),
    ).members());
}

/// Without a trace an entry stays as it is.
pub proof fn law_no_trace_changes_nothing(entry: Json)
    ensures
        with_trace(entry, None) == entry,
{
}

/// A trace is the text `projects/`, all of the project, `/traces/` and the trace identifier, one
/// behind the other. The identifier is the beginning of the header up to its first slash, or all
/// of it if it has none.
pub proof fn law_trace_is_made_of_project_and_id(header: Seq<char>, project: Seq<char>)
    requires
        header.len() > 0,
        header[0] != '/',
    ensures
        request_trace(Some(header), Some(project)) matches Some(name) && exists|n: int|
            {
                &&& 0 < n <= header.len()
                &&& forall|i: int| 0 <= i < n ==> header[i] != '/'
                &&& n == header.len() || header[n] == '/'
                &&& name == "projects/"@ + project + "/traces/"@ + #[trigger] header.take(n)
            },
{
    law_trace_needs_id_and_project(Some(header), Some(project));
    header.index_of_first_ensures('/');
    let n = before_slash(header).len() as int;
    assert(header.take(n) =~= before_slash(header));
    if header.contains('/') {
        assert(header[n] == '/');
    }
}

/// From a trace, project and trace identifier can be read back: different projects or different
/// identifiers never have the same trace.
pub proof fn law_different_traces_differ(
    header1: Seq<char>,
    project1: Seq<char>,
    header2: Seq<char>,
    project2: Seq<char>,
)
    requires
        request_trace(Some(header1), Some(project1)) is Some,
        request_trace(Some(header1), Some(project1)) == request_trace(
            Some(header2),
            Some(project2),
        ),
    ensures
        project1 == project2,
        before_slash(header1) == before_slash(header2),
{
    law_trace_id_is_the_last_segment(header1, project1);
    law_trace_id_is_the_last_segment(header2, project2);
    let id = before_slash(header1);
    let name1 = trace_name(project1, id);
    let name2 = trace_name(project2, id);
    reveal_strlit("projects/");
    reveal_strlit("/traces/");
    assert("projects/"@.len() == 9);
    assert("/traces/"@.len() == 8);
    assert(name1 == name2);
    assert(project1.len() == project2.len());
    assert(name1.subrange(9, 9 + project1.len() as int) =~= project1);
    assert(name2.subrange(9, 9 + project2.len() as int) =~= project2);
}

/// The identifier is the beginning of the header up to its first slash, or all of it if it has
/// none.
pub proof fn law_before_slash(s: Seq<char>)
    ensures
        before_slash(s).len() <= s.len(),
        forall|i: int|
            #![trigger before_slash(s)[i]]
            0 <= i < before_slash(s).len() ==> before_slash(s)[i] == s[i] && s[i] != '/',
        before_slash(s).len() < s.len() ==> s[before_slash(s).len() as int] == '/',
{
    s.index_of_first_ensures('/');
    if !s.contains('/') {
        assert forall|i: int| 0 <= i < s.len() implies s[i] != '/' by {
            assert(s.contains(s[i]));
        }
    }
}

/// A trace that is added to an object stands under its key, and every other member is as it was;
/// without a trace nothing changes. Added to `null` it is the only member.
pub proof fn law_trace_in_an_object(
    members: Map<Seq<char>, Json>,
    trace: Seq<char>,
    key: Seq<char>,
)
    ensures
        with_trace(Json::Object(members), None) == Json::Object(members),
        with_trace(Json::Object(members), Some(trace)) matches Json::Object(after) && {
            &&& after.dom().contains("logging.googleapis.com/trace"@)
            &&& after["logging.googleapis.com/trace"@] == Json::String(trace)
            &&& key != "logging.googleapis.com/trace"@ ==> {
                &&& after.dom().contains(key) <==> members.dom().contains(key)
                &&& members.dom().contains(key) ==> after[key] == members[key]
            }
        },
        with_trace(Json::Null, Some(trace)) matches Json::Object(after) && {
            &&& after.dom().contains(key) <==> key == "logging.googleapis.com/trace"@
            &&& after["logging.googleapis.com/trace"@] == Json::String(trace)
        },
{
}

} // verus!
