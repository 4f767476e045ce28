use vstd::prelude::*;

verus! {

/// Whether a text is one JSON document.
pub uninterp spec fn is_json_text(text: Seq<char>) -> bool;

/// Parses the text with `serde_json::from_str::<serde_json::Value>` and
/// hands back the parse error's `Display` text, if any. Claimed: whether
/// there is an error depends on the text alone; the error text is left open.
#[verifier::external_body]
pub(crate) fn json_parse_error(text: &str) -> (result: Option<String>)
    ensures
        result is None <==> is_json_text(text@),
{
    serde_json::from_str::<serde_json::Value>(text).err().map(|error| error.to_string())
}

/// Whether a text is valid JSON.
pub fn is_valid_json(text: &str) -> (result: bool)
    ensures
        result == is_json_text(text@),
{
    json_parse_error(text).is_none()
}

} // verus!
