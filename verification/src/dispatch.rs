//! The single entry point: resolve the archetype, compose the prompt,
//! invoke the bound provider, and surface every error as descriptive
//! text.

use vstd::prelude::*;

use crate::compose::compose;
use crate::compose::composed_prompt;
use crate::groq::groq_endpoint;
use crate::json::first_choice_of;
use crate::groq::groq_result_for;
use crate::groq::request_body_spec;
use crate::groq::GroqProvider;
use crate::provider::status_is_success;
use crate::provider::HttpTransport;
use crate::provider::LLMProvider;
use crate::provider::ProviderError;
use crate::provider::ScriptedTransport;
use crate::types::HttpReply;
use crate::registry::lemma_lookup_iff_has;
use crate::registry::Archetype;
use crate::registry::Registry;
use crate::types::AppRequest;
use crate::types::LLMResponse;
use crate::types::ProviderRequest;

verus! {

/// The text reported for a name no archetype carries.
pub open spec fn not_found_message(name: Seq<char>) -> Seq<char> {
    "Archetype '"@ + name + "' not found."@
}

/// How the dispatcher's result relates to a provider outcome: a success
/// passes through unchanged, an error is rendered as its message.
pub open spec fn surfaced(outcome: Result<LLMResponse, ProviderError>, r: Result<
    LLMResponse,
    String,
>) -> bool {
    match (outcome, r) {
        (Ok(answer), Ok(surfaced_answer)) => surfaced_answer == answer,
        (Err(error), Err(text)) => text@ == error.message_spec(),
        _ => false,
    }
}

/// What the dispatcher returns when the archetype is found: an outcome
/// that the archetype's own provider accounts for, on exactly the
/// composed prompt and the archetype's model, surfaced as text.
pub open spec fn dispatched<P: LLMProvider>(
    state: Registry<P>,
    request: AppRequest,
    archetype: Archetype,
    r: Result<LLMResponse, String>,
) -> bool {
    exists|outcome: Result<LLMResponse, ProviderError>|
        #[trigger] state.providers@[archetype.provider as int].ens(
            composed_prompt(
                archetype.system_prompt@,
                request.user_system_prompt.deep_view(),
                request.prompt@,
            ),
            archetype.model_name@,
            outcome,
        ) && surfaced(outcome, r)
}

/// A surfaced provider error is never mistaken for the lookup error:
/// whatever the archetype name and the provider error, their texts
/// already differ on the first character.
pub proof fn lemma_error_texts_distinct(name: Seq<char>, error: ProviderError)
    ensures
        error.message_spec() != not_found_message(name),
{
    reveal_strlit("Archetype '");
    reveal_strlit("Failed to send request to Groq API: ");
    reveal_strlit("Groq API Error: ");
    reveal_strlit("Groq response contained no choices.");
    reveal_strlit("Failed to parse Groq response");
    assert(not_found_message(name)[0] == 'A');
    match error {
        ProviderError::Transport(_) => {
            assert(error.message_spec()[0] == 'F');
        },
        ProviderError::ApiStatus(_) => {
            assert(error.message_spec()[0] == 'G');
        },
        ProviderError::NoChoices => {
            assert(error.message_spec()[0] == 'G');
        },
        ProviderError::Malformed => {
            assert(error.message_spec()[0] == 'F');
        },
    }
}

/// The contracts compose end to end: when the archetype's provider is a
/// Groq backend over a scripted transport whose script answers with a
/// non-success status, a dispatched result can only be the error text
/// carrying that status.
pub proof fn lemma_scripted_status_surfaced(
    state: Registry<GroqProvider<ScriptedTransport>>,
    request: AppRequest,
    archetype: Archetype,
    r: Result<LLMResponse, String>,
)
    requires
        0 <= archetype.provider < state.providers@.len(),
        state.providers@[archetype.provider as int].transport.script matches Ok(reply)
            && !status_is_success(reply.status),
        dispatched(state, request, archetype, r),
    ensures
        r matches Err(text) && text@ == ProviderError::ApiStatus(
            state.providers@[archetype.provider as int].transport.script->Ok_0.status,
        ).message_spec(),
{
    let provider = state.providers@[archetype.provider as int];
    let full_prompt = composed_prompt(
        archetype.system_prompt@,
        request.user_system_prompt.deep_view(),
        request.prompt@,
    );
    let outcome = choose|outcome: Result<LLMResponse, ProviderError>|
        #[trigger] provider.ens(full_prompt, archetype.model_name@, outcome) && surfaced(
            outcome,
            r,
        );
    let posted = choose|posted: Result<HttpReply, String>|
        #[trigger] provider.transport.post_ens(
            groq_endpoint(),
            provider.api_key@,
            request_body_spec(archetype.model_name@, full_prompt),
            posted,
        ) && groq_result_for(posted, outcome);
    let status = provider.transport.script->Ok_0.status;
    assert(posted matches Ok(reply) && reply.status == status);
    assert(outcome == Result::<LLMResponse, ProviderError>::Err(ProviderError::ApiStatus(status)));
}

/// The success path composes end to end: when the script answers with a
/// success status and a body whose first choice's content is `text`, a
/// dispatched result can only be a success carrying exactly `text`.
pub proof fn lemma_scripted_success_surfaced(
    state: Registry<GroqProvider<ScriptedTransport>>,
    request: AppRequest,
    archetype: Archetype,
    r: Result<LLMResponse, String>,
    text: Seq<char>,
)
    requires
        0 <= archetype.provider < state.providers@.len(),
        state.providers@[archetype.provider as int].transport.script matches Ok(reply)
            && status_is_success(reply.status) && first_choice_of(reply.body@) == Some(Some(text)),
        dispatched(state, request, archetype, r),
    ensures
        r matches Ok(answer) && answer.content@ == text,
{
    let provider = state.providers@[archetype.provider as int];
    let full_prompt = composed_prompt(
        archetype.system_prompt@,
        request.user_system_prompt.deep_view(),
        request.prompt@,
    );
    let outcome = choose|outcome: Result<LLMResponse, ProviderError>|
        #[trigger] provider.ens(full_prompt, archetype.model_name@, outcome) && surfaced(
            outcome,
            r,
        );
    let posted = choose|posted: Result<HttpReply, String>|
        #[trigger] provider.transport.post_ens(
            groq_endpoint(),
            provider.api_key@,
            request_body_spec(archetype.model_name@, full_prompt),
            posted,
        ) && groq_result_for(posted, outcome);
    assert(posted matches Ok(reply) && reply.body@ == provider.transport.script->Ok_0.body@);
    assert(outcome matches Ok(answer) && answer.content@ == text);
}

/// An empty choices list composes end to end as well: when the script
/// answers with a success status and a body whose choices array is
/// empty, a dispatched result can only be the no-choices error text.
pub proof fn lemma_scripted_no_choices_surfaced(
    state: Registry<GroqProvider<ScriptedTransport>>,
    request: AppRequest,
    archetype: Archetype,
    r: Result<LLMResponse, String>,
)
    requires
        0 <= archetype.provider < state.providers@.len(),
        state.providers@[archetype.provider as int].transport.script matches Ok(reply)
            && status_is_success(reply.status) && first_choice_of(reply.body@) == Some(
            None::<Seq<char>>,
        ),
        dispatched(state, request, archetype, r),
    ensures
        r matches Err(message) && message@ == ProviderError::NoChoices.message_spec(),
{
    let provider = state.providers@[archetype.provider as int];
    let full_prompt = composed_prompt(
        archetype.system_prompt@,
        request.user_system_prompt.deep_view(),
        request.prompt@,
    );
    let outcome = choose|outcome: Result<LLMResponse, ProviderError>|
        #[trigger] provider.ens(full_prompt, archetype.model_name@, outcome) && surfaced(
            outcome,
            r,
        );
    let posted = choose|posted: Result<HttpReply, String>|
        #[trigger] provider.transport.post_ens(
            groq_endpoint(),
            provider.api_key@,
            request_body_spec(archetype.model_name@, full_prompt),
            posted,
        ) && groq_result_for(posted, outcome);
    assert(posted matches Ok(reply) && reply.body@ == provider.transport.script->Ok_0.body@);
    assert(outcome == Result::<LLMResponse, ProviderError>::Err(ProviderError::NoChoices));
}

/// Likewise for a transport that never answers: when the script fails
/// with a cause, a dispatched result can only be the transport error
/// text carrying that cause.
pub proof fn lemma_scripted_transport_failure_surfaced(
    state: Registry<GroqProvider<ScriptedTransport>>,
    request: AppRequest,
    archetype: Archetype,
    r: Result<LLMResponse, String>,
)
    requires
        0 <= archetype.provider < state.providers@.len(),
        state.providers@[archetype.provider as int].transport.script is Err,
        dispatched(state, request, archetype, r),
    ensures
        r matches Err(text) && text@ == "Failed to send request to Groq API: "@
            + state.providers@[archetype.provider as int].transport.script->Err_0@,
{
    let provider = state.providers@[archetype.provider as int];
    let full_prompt = composed_prompt(
        archetype.system_prompt@,
        request.user_system_prompt.deep_view(),
        request.prompt@,
    );
    let outcome = choose|outcome: Result<LLMResponse, ProviderError>|
        #[trigger] provider.ens(full_prompt, archetype.model_name@, outcome) && surfaced(
            outcome,
            r,
        );
    let posted = choose|posted: Result<HttpReply, String>|
        #[trigger] provider.transport.post_ens(
            groq_endpoint(),
            provider.api_key@,
            request_body_spec(archetype.model_name@, full_prompt),
            posted,
        ) && groq_result_for(posted, outcome);
    assert(posted matches Err(cause) && cause@ == provider.transport.script->Err_0@);
}

/// Resolves the request's archetype, composes the full prompt, asks the
/// archetype's provider, and maps the result to a UI-facing shape: a
/// missing archetype and every provider error come back as descriptive
/// strings, a success comes back unchanged.
pub fn ask_guardian<P: LLMProvider>(state: &Registry<P>, request: &AppRequest) -> (r: Result<
    LLMResponse,
    String,
>)
    requires
        state.wf(),
    ensures
        !state.has_archetype(request.archetype@) ==> (r matches Err(text) && text@
            == not_found_message(request.archetype@)),
        state.has_archetype(request.archetype@) ==> (state.spec_lookup(request.archetype@) matches
            Some(archetype) && dispatched(*state, *request, archetype, r)),
{
    proof {
        lemma_lookup_iff_has(*state, request.archetype@);
    }
    let archetype = match state.get(&request.archetype) {
        Some(a) => a,
        None => {
            let mut text = String::from_str("Archetype '");
            text.append(request.archetype.as_str());
            text.append("' not found.");
            proof {
                assert(text@ =~= not_found_message(request.archetype@));
            }
            return Err(text);
        },
    };
    proof {
        let i = choose|i: int|
            0 <= i < state.archetypes@.len() && state.archetypes@[i] == *archetype
                && #[trigger] state.archetypes@[i].name@ == request.archetype@;
        assert(state.archetypes@[i].valid(state.providers@.len()));
    }
    let full_prompt = compose(archetype, request);
    let provider_request = ProviderRequest {
        full_prompt,
        model_name: archetype.model_name.clone(),
    };
    let outcome = state.providers[archetype.provider].ask(&provider_request);
    let ghost provider_outcome = outcome;
    let result = match outcome {
        Ok(answer) => Ok(answer),
        Err(error) => Err(error.message()),
    };
    proof {
        assert(surfaced(provider_outcome, result));
    }
    result
}

} // verus!
