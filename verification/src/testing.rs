//! Making traces comparable: identifiers differ from run to run, so a
//! test compares a stand-in that keeps only their length.

use crate::encoding::{decimal, decimal_digits};
use vstd::prelude::*;

verus! {

/// The stand-in for an identifier: the label and the length of the
/// identifier, as `[label:lgN]`.
pub open spec fn redacted(label: Seq<char>, id: Seq<char>) -> Seq<char> {
    seq!['['] + label + ":lg"@ + decimal_digits(id.len()) + seq![']']
}

/// What a test compares in the place of a trace identifier: the
/// identifier itself where the test fixed it, else its stand-in.
pub open spec fn comparable_trace_id(id: Seq<char>, is_trace_id_constant: bool) -> Seq<char> {
    if is_trace_id_constant {
        id
    } else {
        redacted("trace_id"@, id)
    }
}

fn redact(label: &str, id: &str) -> (out: String)
    ensures
        out@ == redacted(label@, id@),
{
    proof {
        reveal_strlit("[");
        reveal_strlit("]");
    }
    let mut out = "[".to_owned();
    out.append(label);
    out.append(":lg");
    let n = id.unicode_len();
    out.append(decimal(n as u64).as_str());
    out.append("]");
    out
}

/// Replaces a trace identifier by what a test compares in its place.
pub fn redact_trace_id(id: &str, is_trace_id_constant: bool) -> (out: String)
    ensures
        out@ == comparable_trace_id(id@, is_trace_id_constant),
{
    if is_trace_id_constant {
        id.to_owned()
    } else {
        redact("trace_id", id)
    }
}

/// Replaces a span identifier by its stand-in.
pub fn redact_span_id(id: &str) -> (out: String)
    ensures
        out@ == redacted("span_id"@, id@),
{
    redact("span_id", id)
}

} // verus!
