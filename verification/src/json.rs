//! JSON text for the bodies of requests.

use vstd::prelude::*;

verus! {

/// The JSON string of a text: the text between quotation marks, with the
/// quotation mark, the reverse solidus and the control characters escaped.
pub uninterp spec fn quoted(text: Seq<char>) -> Seq<char>;

/// `serde_json::to_string` on a `str`: the text as a JSON string. It writes
/// to memory only, and serializing a `str` has no other way to fail, so
/// there is always a result.
#[verifier::external_body]
fn json_string(text: &str) -> (out: String)
    ensures
        out@ == quoted(text@),
{
    match serde_json::to_string(text) {
        Ok(out) => out,
        Err(_) => String::new(),
    }
}

/// The JSON string of a text.
pub fn quote(text: &str) -> (out: String)
    ensures
        out@ == quoted(text@),
{
    json_string(text)
}

/// Appends the JSON string of a text.
pub fn push_quoted(out: &mut String, text: &str)
    ensures
        final(out)@ == old(out)@ + quoted(text@),
{
    out.append(json_string(text).as_str());
}

} // verus!
