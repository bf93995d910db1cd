//! The content types that browsers send violation reports with.

use crate::text::{
    ascii_lower, ascii_lower_char, has_prefix, law_ascii_lower, law_prefix, starts_with,
};
use vstd::prelude::*;

verus! {

/// The content type is one of the three that reports come with, in any mix of upper and lower
/// case, perhaps with something behind it.
pub open spec fn accepts_content_type(ct: Seq<char>) -> bool {
    ||| has_prefix(ascii_lower(ct), "application/csp-report"@)
    ||| has_prefix(ascii_lower(ct), "application/json"@)
    ||| has_prefix(ascii_lower(ct), "application/reports+json"@)
}

/// Whether the content type is one that violation reports are sent with: the legacy
/// `report-uri` format, the newer Reporting API format, or plain JSON.
pub fn is_accepted_content_type(ct: &str) -> (accepted: bool)
    ensures
        accepted == accepts_content_type(ct@),
{
    let lower: String = ct.to_ascii_lowercase();
    starts_with(lower.as_str(), "application/csp-report") || starts_with(
        lower.as_str(),
        "application/json",
    ) || starts_with(lower.as_str(), "application/reports+json")
}

/// The legacy format, the Reporting API format and plain JSON are accepted, with any parameters.
pub proof fn law_report_formats_are_accepted(parameters: Seq<char>)
    ensures
        accepts_content_type("application/csp-report"@ + parameters),
        accepts_content_type("application/reports+json"@ + parameters),
        accepts_content_type("application/json"@ + parameters),
{
    reveal_strlit("application/csp-report");
    reveal_strlit("application/reports+json");
    reveal_strlit("application/json");
    lemma_lower_case_prefix("application/csp-report"@, parameters);
    lemma_lower_case_prefix("application/reports+json"@, parameters);
    lemma_lower_case_prefix("application/json"@, parameters);
}

/// A prefix without upper-case letters survives lower-casing.
proof fn lemma_lower_case_prefix(prefix: Seq<char>, rest: Seq<char>)
    requires
        forall|i: int| 0 <= i < prefix.len() ==> !('A' <= #[trigger] prefix[i] <= 'Z'),
    ensures
        has_prefix(ascii_lower(prefix + rest), prefix),
{
    assert(ascii_lower(prefix + rest).subrange(0, prefix.len() as int) =~= prefix);
}

/// Upper and lower case make no difference.
pub proof fn law_case_is_ignored(a: Seq<char>, b: Seq<char>)
    requires
        ascii_lower(a) == ascii_lower(b),
    ensures
        accepts_content_type(a) == accepts_content_type(b),
{
}

/// Lower-casing a content type does not change whether it is accepted.
pub proof fn law_lower_case_is_equivalent(ct: Seq<char>)
    ensures
        accepts_content_type(ascii_lower(ct)) == accepts_content_type(ct),
{
    assert forall|c: char| #[trigger] ascii_lower_char(ascii_lower_char(c)) == ascii_lower_char(
        c,
    ) by {}
    assert(ascii_lower(ascii_lower(ct)) =~= ascii_lower(ct));
}

/// Parameters behind an accepted content type do not matter.
pub proof fn law_parameters_are_ignored(ct: Seq<char>, parameters: Seq<char>)
    requires
        accepts_content_type(ct),
    ensures
        accepts_content_type(ct + parameters),
{
    let lower = ascii_lower(ct);
    let longer = ascii_lower(ct + parameters);
    assert(longer.subrange(0, lower.len() as int) =~= lower);
    assert forall|p: Seq<char>| has_prefix(lower, p) implies #[trigger] has_prefix(longer, p) by {
        assert(longer.subrange(0, p.len() as int) =~= lower.subrange(0, p.len() as int));
    }
}

/// `ct` begins with `name`, but for upper and lower case.
pub open spec fn begins_with_name(ct: Seq<char>, name: Seq<char>) -> bool {
    &&& name.len() <= ct.len()
    &&& forall|i: int|
        0 <= i < name.len() ==> ct[i] == #[trigger] name[i] || ('A' <= ct[i] <= 'Z' && ct[i] as int
            + 32 == name[i] as int)
}

/// A content type is accepted if and only if, but for upper and lower case, it begins with one of
/// three names. Every other is refused.
pub proof fn law_what_is_accepted(ct: Seq<char>)
    ensures
        accepts_content_type(ct) <==> begins_with_name(ct, "application/csp-report"@)
            || begins_with_name(ct, "application/json"@) || begins_with_name(
            ct,
            "application/reports+json"@,
        ),
{
    reveal_strlit("application/csp-report");
    reveal_strlit("application/json");
    reveal_strlit("application/reports+json");
    lemma_begins_with_name(ct, "application/csp-report"@);
    lemma_begins_with_name(ct, "application/json"@);
    lemma_begins_with_name(ct, "application/reports+json"@);
}

/// Whatever is accepted is, in lower case, one of the three names and something behind it.
pub proof fn law_only_report_types_are_accepted(ct: Seq<char>)
    requires
        accepts_content_type(ct),
    ensures
        exists|rest: Seq<char>|
            {
                ||| ascii_lower(ct) == #[trigger] ("application/csp-report"@ + rest)
                ||| ascii_lower(ct) == "application/json"@ + rest
                ||| ascii_lower(ct) == "application/reports+json"@ + rest
            },
{
    let lower = ascii_lower(ct);
    let name = if has_prefix(lower, "application/csp-report"@) {
        "application/csp-report"@
    } else if has_prefix(lower, "application/json"@) {
        "application/json"@
    } else {
        "application/reports+json"@
    };
    let rest = lower.skip(name.len() as int);
    assert(lower =~= name + rest);
    assert("application/csp-report"@ + rest == "application/csp-report"@ + rest);
}

/// For a name without upper-case letters, to begin with it but for case is to begin with it in
/// lower case.
proof fn lemma_begins_with_name(ct: Seq<char>, name: Seq<char>)
    requires
        forall|i: int| 0 <= i < name.len() ==> !('A' <= #[trigger] name[i] <= 'Z'),
    ensures
        has_prefix(ascii_lower(ct), name) <==> begins_with_name(ct, name),
{
    law_prefix(ascii_lower(ct), name);
    law_ascii_lower(ct);
    if begins_with_name(ct, name) {
        assert forall|i: int| 0 <= i < name.len() implies ascii_lower(ct)[i]
            == #[trigger] name[i] by {
            assert(ascii_lower(ct)[i] as int == name[i] as int);
        }
    }
    if has_prefix(ascii_lower(ct), name) {
        assert forall|i: int| 0 <= i < name.len() implies ct[i] == #[trigger] name[i] || ('A'
            <= ct[i] <= 'Z' && ct[i] as int + 32 == name[i] as int) by {
            assert(ascii_lower(ct)[i] == name[i]);
        }
    }
}

/// Without a content type nothing is accepted.
pub(crate) proof fn lemma_empty_is_refused()
    ensures
        !accepts_content_type(Seq::empty()),
{
    reveal_strlit("application/csp-report");
    reveal_strlit("application/json");
    reveal_strlit("application/reports+json");
    assert("application/csp-report"@.len() > 0);
    assert("application/json"@.len() > 0);
    assert("application/reports+json"@.len() > 0);
}

} // verus!
