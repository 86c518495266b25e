//! Reading a chat-completion reply body: what its list of choices held,
//! and what each finding means for the provider's caller.

use vstd::prelude::*;

use crate::json::first_choice_of;
use crate::json::parse_first_choice;
use crate::provider::ProviderError;
use crate::types::LLMResponse;

verus! {

/// What a success-status reply body held: not a chat-completion reply at
/// all, a reply with an empty list of choices, or the content text of
/// the first choice.
pub enum BodyReading {
    Malformed,
    NoChoices,
    Content(String),
}

/// How a reading corresponds to what `first_choice_of` says the body
/// holds.
pub open spec fn reading_for(first: Option<Option<Seq<char>>>, r: BodyReading) -> bool {
    match first {
        None => r is Malformed,
        Some(None) => r is NoChoices,
        Some(Some(text)) => r matches BodyReading::Content(s) && s@ == text,
    }
}

/// Reads the reply body: parses it as JSON and takes the content string
/// of the first choice under the `choices` key, exactly as
/// `first_choice_of` accounts for the body text.
pub fn read_reply_body(body: &str) -> (r: BodyReading)
    ensures
        reading_for(first_choice_of(body@), r),
{
    match parse_first_choice(body) {
        None => BodyReading::Malformed,
        Some(None) => BodyReading::NoChoices,
        Some(Some(text)) => BodyReading::Content(text),
    }
}

/// What a reading of a success-status body means for the caller.
pub open spec fn reading_outcome_spec(reading: BodyReading) -> Result<LLMResponse, ProviderError> {
    match reading {
        BodyReading::Malformed => Err(ProviderError::Malformed),
        BodyReading::NoChoices => Err(ProviderError::NoChoices),
        BodyReading::Content(text) => Ok(LLMResponse { content: text }),
    }
}

/// What a success-status reply with the given body must produce: a
/// malformed body is the parse error, an empty choices list is the
/// no-choices error (never an empty success), and the first choice's
/// content is the answer, unchanged.
pub open spec fn body_outcome_for(body: Seq<char>, r: Result<LLMResponse, ProviderError>) -> bool {
    match first_choice_of(body) {
        None => r == Result::<LLMResponse, ProviderError>::Err(ProviderError::Malformed),
        Some(None) => r == Result::<LLMResponse, ProviderError>::Err(ProviderError::NoChoices),
        Some(Some(text)) => r matches Ok(answer) && answer.content@ == text,
    }
}

/// Maps a reading of a success-status body to the provider's result.
pub fn reading_outcome(reading: BodyReading) -> (r: Result<LLMResponse, ProviderError>)
    ensures
        r == reading_outcome_spec(reading),
{
    match reading {
        BodyReading::Malformed => Err(ProviderError::Malformed),
        BodyReading::NoChoices => Err(ProviderError::NoChoices),
        BodyReading::Content(text) => Ok(LLMResponse { content: text }),
    }
}

} // verus!
