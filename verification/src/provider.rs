//! The provider abstraction: one capability, "answer a composed prompt
//! against a named model", implemented per backend; the transport
//! abstraction it rests on; and the per-request error taxonomy.

use vstd::prelude::*;

use crate::text::append_decimal;
use crate::text::dec_rep;
use crate::types::HttpReply;
use crate::types::LLMResponse;
use crate::types::ProviderRequest;

verus! {

/// Why one provider call failed. Every case is recoverable per-request
/// and is surfaced to the caller as a descriptive string.
pub enum ProviderError {
    /// The request never produced an HTTP answer; carries the underlying
    /// cause's text.
    Transport(String),
    /// The HTTP answer carried a non-success status code.
    ApiStatus(u16),
    /// The response body parsed, but its list of choices was empty.
    NoChoices,
    /// The response body could not be read as a chat-completion reply.
    Malformed,
}

/// Whether an HTTP status code counts as success.
pub open spec fn status_is_success(status: u16) -> bool {
    200 <= status < 300
}

impl ProviderError {
    /// The descriptive text of this error.
    pub open spec fn message_spec(self) -> Seq<char> {
        match self {
            ProviderError::Transport(cause) => "Failed to send request to Groq API: "@ + cause@,
            ProviderError::ApiStatus(status) => "Groq API Error: "@ + dec_rep(status as nat),
            ProviderError::NoChoices => "Groq response contained no choices."@,
            ProviderError::Malformed => "Failed to parse Groq response"@,
        }
    }

    /// Renders this error as the string shown to the caller.
    pub fn message(&self) -> (r: String)
        ensures
            r@ == self.message_spec(),
    {
        match self {
            ProviderError::Transport(cause) => {
                let mut out = String::from_str("Failed to send request to Groq API: ");
                out.append(cause.as_str());
                out
            },
            ProviderError::ApiStatus(status) => {
                let mut out = String::from_str("Groq API Error: ");
                append_decimal(&mut out, *status);
                out
            },
            ProviderError::NoChoices => String::from_str("Groq response contained no choices."),
            ProviderError::Malformed => String::from_str("Failed to parse Groq response"),
        }
    }
}

/// One HTTP POST of a JSON body, authenticated by a bearer token. This
/// is the library's I/O edge: the real transport performs the network
/// call outside the library, a scripted transport answers from a script.
/// `post_ens` is each transport's own statement of what its answers
/// satisfy; nothing here promises that a transport succeeds.
pub trait HttpTransport {
    /// What holds of an answer `r` to a POST of `body` to `url` under
    /// `bearer`. A transport that states nothing of its answers leaves
    /// the default, which promises nothing.
    open spec fn post_ens(&self, url: Seq<char>, bearer: Seq<char>, body: Seq<char>, r: Result<
        HttpReply,
        String,
    >) -> bool {
        true
    }

    /// Sends `body` to `url` with the bearer credential; returns the raw
    /// reply, or the underlying cause's text when no reply came.
    fn post_json(&self, url: &str, bearer: &str, body: &str) -> (r: Result<HttpReply, String>)
        ensures
            self.post_ens(url@, bearer@, body@, r),
    ;
}

/// The universal provider contract: answer a composed prompt against a
/// named model. Callers depend only on this capability, never on a
/// concrete backend. `ens` is each backend's own statement of what its
/// answers satisfy.
pub trait LLMProvider {
    /// What holds of an answer `r` to a request carrying `full_prompt`
    /// and `model_name`.
    spec fn ens(&self, full_prompt: Seq<char>, model_name: Seq<char>, r: Result<
        LLMResponse,
        ProviderError,
    >) -> bool;

    /// Answers the composed request, or says why it could not.
    fn ask(&self, request: &ProviderRequest) -> (r: Result<LLMResponse, ProviderError>)
        ensures
            self.ens(request.full_prompt@, request.model_name@, r),
    ;
}

/// A transport that answers every POST from a fixed script instead of
/// the network; it performs no I/O and exists for exercising providers.
pub struct ScriptedTransport {
    pub script: Result<HttpReply, String>,
}

impl HttpTransport for ScriptedTransport {
    /// The answer is the script, whatever was posted.
    open spec fn post_ens(&self, url: Seq<char>, bearer: Seq<char>, body: Seq<char>, r: Result<
        HttpReply,
        String,
    >) -> bool {
        match (self.script, r) {
            (Ok(s), Ok(a)) => a.status == s.status && a.body@ == s.body@,
            (Err(s), Err(a)) => a@ == s@,
            _ => false,
        }
    }

    fn post_json(&self, url: &str, bearer: &str, body: &str) -> (r: Result<HttpReply, String>) {
        match &self.script {
            Ok(reply) => Ok(HttpReply { status: reply.status, body: reply.body.clone() }),
            Err(cause) => Err(cause.clone()),
        }
    }
}

} // verus!
