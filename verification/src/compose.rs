//! The prompt composer: a deterministic string-concatenation policy that
//! merges an archetype's system prompt, the user's optional instructions,
//! and the user's prompt into one text blob.

use vstd::prelude::*;

use crate::registry::Archetype;
use crate::types::AppRequest;

verus! {

/// The header that introduces the user's optional instructions.
pub open spec fn instructions_header() -> Seq<char> {
    "\n\n--- User's Instructions ---\n"@
}

/// The header that introduces the user's prompt.
pub open spec fn prompt_header() -> Seq<char> {
    "\n\n--- User's Prompt ---\n"@
}

/// The composed prompt: the system prompt verbatim; then, only when user
/// instructions are present and non-empty, their header and text; then
/// always the prompt header and the user's prompt verbatim.
pub open spec fn composed_prompt(
    system_prompt: Seq<char>,
    user_system_prompt: Option<Seq<char>>,
    prompt: Seq<char>,
) -> Seq<char> {
    let lead = match user_system_prompt {
        Some(u) => if u.len() > 0 {
            system_prompt + instructions_header() + u
        } else {
            system_prompt
        },
        None => system_prompt,
    };
    lead + prompt_header() + prompt
}

/// Merges the archetype's system prompt with the request's optional user
/// instructions and its prompt, exactly as `composed_prompt` describes.
pub fn compose(archetype: &Archetype, request: &AppRequest) -> (r: String)
    ensures
        r@ == composed_prompt(
            archetype.system_prompt@,
            request.user_system_prompt.deep_view(),
            request.prompt@,
        ),
{
    let mut out = String::from_str(archetype.system_prompt.as_str());
    match &request.user_system_prompt {
        Some(u) => {
            if !u.as_str().is_empty() {
                out.append("\n\n--- User's Instructions ---\n");
                out.append(u.as_str());
            }
        },
        None => {},
    }
    out.append("\n\n--- User's Prompt ---\n");
    out.append(request.prompt.as_str());
    proof {
        assert(out@ =~= composed_prompt(
            archetype.system_prompt@,
            request.user_system_prompt.deep_view(),
            request.prompt@,
        ));
    }
    out
}

/// A composed prompt is never empty, whatever the inputs: the prompt
/// header alone already guarantees it, so every provider request built
/// from a composition carries a non-empty full prompt.
pub proof fn lemma_composed_prompt_nonempty(
    system_prompt: Seq<char>,
    user_system_prompt: Option<Seq<char>>,
    prompt: Seq<char>,
)
    ensures
        composed_prompt(system_prompt, user_system_prompt, prompt).len() > 0,
{
    reveal_strlit("\n\n--- User's Prompt ---\n");
    assert(prompt_header().len() == 24);
}

/// The composer is deterministic: two outputs composed from identical
/// inputs are identical.
pub proof fn lemma_compose_deterministic(
    r1: Seq<char>,
    r2: Seq<char>,
    system_prompt: Seq<char>,
    user_system_prompt: Option<Seq<char>>,
    prompt: Seq<char>,
)
    requires
        r1 == composed_prompt(system_prompt, user_system_prompt, prompt),
        r2 == composed_prompt(system_prompt, user_system_prompt, prompt),
    ensures
        r1 == r2,
{
}

/// Without user instructions the composition is the system prompt, the
/// prompt header and the prompt, with no instructions section at all.
pub proof fn lemma_compose_without_instructions(system_prompt: Seq<char>, prompt: Seq<char>)
    ensures
        composed_prompt(system_prompt, None, prompt) == system_prompt + prompt_header() + prompt,
        composed_prompt(system_prompt, Some(Seq::empty()), prompt) == system_prompt
            + prompt_header() + prompt,
{
}

/// With non-empty user instructions the composition holds all three
/// sections in order: system prompt, instructions, prompt.
pub proof fn lemma_compose_with_instructions(
    system_prompt: Seq<char>,
    user_system_prompt: Seq<char>,
    prompt: Seq<char>,
)
    requires
        user_system_prompt.len() > 0,
    ensures
        composed_prompt(system_prompt, Some(user_system_prompt), prompt) == system_prompt
            + instructions_header() + user_system_prompt + prompt_header() + prompt,
{
}

} // verus!
