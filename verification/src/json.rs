//! JSON string literals, as `serde_json` writes them.

use vstd::prelude::*;
use crate::text::push_text;

verus! {

/// The JSON string literal that `serde_json::to_string` writes for a text:
/// the text between double quotes, with the escapes that JSON asks for.
pub uninterp spec fn json_string(text: Seq<char>) -> Seq<char>;

/// Calls `serde_json::to_string` on a string slice.
///
/// Trusted: the result is what `json_string` names. The call returns a
/// `Result`, but for a string slice written to memory the crate's code has no
/// step that fails; should it fail all the same, the empty text comes back.
#[verifier::external_body]
fn json_quote(text: &str) -> (r: String)
    ensures
        r@ == json_string(text@),
{
    serde_json::to_string(text).unwrap_or_default()
}

/// Appends `raw` to `out` as a JSON string literal.
pub fn write_json_str(out: &mut String, raw: &str)
    ensures
        final(out)@ == old(out)@ + json_string(raw@),
{
    let quoted = json_quote(raw);
    push_text(out, quoted.as_str());
}

} // verus!
