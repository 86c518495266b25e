//! The trusted seam to serde_json: one wrapper that reads a
//! chat-completion reply body into plain values, pinned as a function of
//! the body text by the name `first_choice_of`.

use vstd::prelude::*;

verus! {

/// The reading of a chat-completion reply body, a function of the body
/// text alone: `None` when the body is not JSON, holds no `choices`
/// array, or its first choice carries no string content under
/// `message.content`; `Some(None)` when the choices array is empty;
/// `Some(Some(text))` when the first choice's message content is `text`.
pub uninterp spec fn first_choice_of(body: Seq<char>) -> Option<Option<Seq<char>>>;

/// Relies on serde_json's `from_str` and `Value` accessors (`get`,
/// `as_array`, `as_str`), which depend on their arguments alone: stands
/// for the one typed deserialization of the reply body, handing back as
/// plain values exactly what the reply logic reads — the first choice's
/// content, an empty choices list, or that neither can be read.
#[verifier::external_body]
pub(crate) fn parse_first_choice(body: &str) -> (r: Option<Option<String>>)
    ensures
        r.deep_view() == first_choice_of(body@),
{
    let parsed: serde_json::Value = match serde_json::from_str(body) {
        Ok(value) => value,
        Err(_) => return None,
    };
    let items = match parsed.get("choices").and_then(serde_json::Value::as_array) {
        Some(array) => array,
        None => return None,
    };
    let first = match items.first() {
        Some(choice) => choice,
        None => return Some(None),
    };
    let content = first.get("message").and_then(|m| m.get("content"));
    content.and_then(serde_json::Value::as_str).map(|text| Some(text.to_owned()))
}

} // verus!
