//! Plain data carried between the UI boundary, the registry, and providers.

use vstd::prelude::*;

verus! {

/// One UI-initiated request: the user's prompt, the symbolic archetype
/// name to route it through, and an optional user-supplied addendum to
/// the archetype's system prompt.
#[derive(Debug)]
pub struct AppRequest {
    pub prompt: String,
    pub archetype: String,
    pub user_system_prompt: Option<String>,
}

/// The text a successful provider call produced, returned to the caller
/// unchanged.
#[derive(Debug)]
pub struct LLMResponse {
    pub content: String,
}

/// What one provider invocation consumes: the fully composed prompt and
/// the model it is addressed to.
pub struct ProviderRequest {
    pub full_prompt: String,
    pub model_name: String,
}

/// A raw HTTP answer as a transport hands it back: the status code and
/// the response body text.
pub struct HttpReply {
    pub status: u16,
    pub body: String,
}

} // verus!
