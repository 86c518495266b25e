//! The Groq-style chat-completion backend: builds the vendor's JSON
//! request body, posts it through a transport, and interprets the raw
//! reply.

use vstd::prelude::*;

use crate::provider::status_is_success;
use crate::provider::HttpTransport;
use crate::provider::LLMProvider;
use crate::provider::ProviderError;
use crate::reply::body_outcome_for;
use crate::reply::read_reply_body;
use crate::reply::reading_outcome;
use crate::text::append_json_escaped;
use crate::text::json_escaped;
use crate::types::HttpReply;
use crate::types::LLMResponse;
use crate::types::ProviderRequest;

verus! {

/// The fixed vendor endpoint every request goes to.
pub open spec fn groq_endpoint() -> Seq<char> {
    "https://api.groq.com/openai/v1/chat/completions"@
}

/// The JSON body of one chat-completion request: the target model and a
/// single user-role message whose content is the full composed prompt.
pub open spec fn request_body_spec(model_name: Seq<char>, full_prompt: Seq<char>) -> Seq<char> {
    "{\"model\":\""@ + json_escaped(model_name)
        + "\",\"messages\":[{\"role\":\"user\",\"content\":\""@ + json_escaped(full_prompt)
        + "\"}]}"@
}

/// Builds the wire body for a request, exactly as `request_body_spec`
/// describes.
pub fn build_request_body(request: &ProviderRequest) -> (r: String)
    ensures
        r@ == request_body_spec(request.model_name@, request.full_prompt@),
{
    let mut out = String::from_str("{\"model\":\"");
    append_json_escaped(&mut out, request.model_name.as_str());
    out.append("\",\"messages\":[{\"role\":\"user\",\"content\":\"");
    append_json_escaped(&mut out, request.full_prompt.as_str());
    out.append("\"}]}");
    proof {
        assert(out@ =~= request_body_spec(request.model_name@, request.full_prompt@));
    }
    out
}

/// How the adapter's result relates to the raw outcome of the POST: no
/// reply is a transport error carrying the cause; a non-success status
/// is an error carrying that status; a success status yields exactly
/// what `body_outcome_for` says the reply body produces — the first
/// choice's content unchanged, or one of the two body errors.
pub open spec fn groq_result_for(
    posted: Result<HttpReply, String>,
    r: Result<LLMResponse, ProviderError>,
) -> bool {
    match posted {
        Err(cause) => r == Result::<LLMResponse, ProviderError>::Err(
            ProviderError::Transport(cause),
        ),
        Ok(reply) => if !status_is_success(reply.status) {
            r == Result::<LLMResponse, ProviderError>::Err(ProviderError::ApiStatus(reply.status))
        } else {
            body_outcome_for(reply.body@, r)
        },
    }
}

/// One vendor's backend: a bearer credential, supplied at construction,
/// and the transport the requests go through. The instance holds no
/// request-specific mutable state; one instance may serve any number of
/// archetypes and concurrent calls.
pub struct GroqProvider<T: HttpTransport> {
    pub api_key: String,
    pub transport: T,
}

impl<T: HttpTransport> GroqProvider<T> {
    /// A backend over the given credential and transport.
    pub fn new(api_key: String, transport: T) -> (r: GroqProvider<T>)
        ensures
            r.api_key@ == api_key@,
            r.transport == transport,
    {
        GroqProvider { api_key, transport }
    }
}

impl<T: HttpTransport> LLMProvider for GroqProvider<T> {
    /// The answer is accounted for by some outcome of posting exactly
    /// the request body for this model and prompt, with this backend's
    /// credential, to the fixed endpoint.
    open spec fn ens(&self, full_prompt: Seq<char>, model_name: Seq<char>, r: Result<
        LLMResponse,
        ProviderError,
    >) -> bool {
        exists|posted: Result<HttpReply, String>|
            #[trigger] self.transport.post_ens(
                groq_endpoint(),
                self.api_key@,
                request_body_spec(model_name, full_prompt),
                posted,
            ) && groq_result_for(posted, r)
    }

    fn ask(&self, request: &ProviderRequest) -> (r: Result<LLMResponse, ProviderError>) {
        let body = build_request_body(request);
        let posted = self.transport.post_json(
            "https://api.groq.com/openai/v1/chat/completions",
            self.api_key.as_str(),
            body.as_str(),
        );
        let ghost posted_outcome = posted;
        let result = match posted {
            Err(cause) => Err(ProviderError::Transport(cause)),
            Ok(reply) => {
                if !(200 <= reply.status && reply.status < 300) {
                    Err(ProviderError::ApiStatus(reply.status))
                } else {
                    let reading = read_reply_body(reply.body.as_str());
                    reading_outcome(reading)
                }
            },
        };
        proof {
            assert(self.transport.post_ens(
                groq_endpoint(),
                self.api_key@,
                request_body_spec(request.model_name@, request.full_prompt@),
                posted_outcome,
            ));
            assert(groq_result_for(posted_outcome, result));
        }
        result
    }
}

} // verus!
