use guardian_core::ask_guardian;
use guardian_core::Archetype;
use guardian_core::AppRequest;
use guardian_core::GroqProvider;
use guardian_core::HttpReply;
use guardian_core::Registry;
use guardian_core::ScriptedTransport;

fn scripted_provider(script: Result<HttpReply, String>) -> GroqProvider<ScriptedTransport> {
    GroqProvider::new("test-key".to_string(), ScriptedTransport { script })
}

fn ok_provider(status: u16, body: &str) -> GroqProvider<ScriptedTransport> {
    scripted_provider(Ok(HttpReply { status, body: body.to_string() }))
}

fn request(archetype: &str, prompt: &str) -> AppRequest {
    AppRequest {
        prompt: prompt.to_string(),
        archetype: archetype.to_string(),
        user_system_prompt: None,
    }
}

#[test]
fn unknown_archetype_is_reported_verbatim() {
    let registry = Registry::new(ok_provider(200, "{}"));
    let result = ask_guardian(&registry, &request("NonexistentMode", "hi"));
    assert_eq!(result.unwrap_err(), "Archetype 'NonexistentMode' not found.");
}

#[test]
fn one_choice_content_comes_back_unchanged() {
    let body = "{\"choices\":[{\"message\":{\"content\":\"hello\"}}]}";
    let registry = Registry::new(ok_provider(200, body));
    let answer = ask_guardian(&registry, &request("Scout", "say hello")).unwrap();
    assert_eq!(answer.content, "hello");
}

#[test]
fn extra_fields_and_later_choices_are_ignored() {
    let body = "{\"id\":\"x1\",\"choices\":[{\"index\":0,\"message\":{\"role\":\"assistant\",\"content\":\"first\"}},{\"message\":{\"content\":\"second\"}}],\"usage\":{\"total_tokens\":7}}";
    let registry = Registry::new(ok_provider(200, body));
    let answer = ask_guardian(&registry, &request("Architect", "pick one")).unwrap();
    assert_eq!(answer.content, "first");
}

#[test]
fn empty_choices_list_is_an_error_not_a_success() {
    let registry = Registry::new(ok_provider(200, "{\"choices\":[]}"));
    let message = ask_guardian(&registry, &request("Scout", "hi")).unwrap_err();
    assert!(message.contains("no choices"));
    assert_eq!(message, "Groq response contained no choices.");
}

#[test]
fn non_success_status_reports_the_code() {
    let registry = Registry::new(ok_provider(401, "ignored"));
    let message = ask_guardian(&registry, &request("Scout", "hi")).unwrap_err();
    assert!(message.contains("401"));
    assert_eq!(message, "Groq API Error: 401");
}

#[test]
fn unparsable_body_is_a_parse_error() {
    let registry = Registry::new(ok_provider(200, "not json at all"));
    let message = ask_guardian(&registry, &request("Scout", "hi")).unwrap_err();
    assert_eq!(message, "Failed to parse Groq response");
}

#[test]
fn missing_content_field_is_a_parse_error() {
    let registry = Registry::new(ok_provider(200, "{\"choices\":[{\"message\":{}}]}"));
    let message = ask_guardian(&registry, &request("Scout", "hi")).unwrap_err();
    assert_eq!(message, "Failed to parse Groq response");
}

#[test]
fn transport_failure_reports_the_cause() {
    let registry = Registry::new(scripted_provider(Err("connection refused".to_string())));
    let message = ask_guardian(&registry, &request("Scout", "hi")).unwrap_err();
    assert_eq!(message, "Failed to send request to Groq API: connection refused");
}

#[test]
fn distinct_providers_answer_without_cross_contamination() {
    let calm = ok_provider(200, "{\"choices\":[{\"message\":{\"content\":\"calm answer\"}}]}");
    let bold = ok_provider(200, "{\"choices\":[{\"message\":{\"content\":\"bold answer\"}}]}");
    let mut registry = Registry::with_providers(vec![calm, bold]);
    assert!(registry.add_archetype(Archetype {
        name: "Calm".to_string(),
        system_prompt: "You are calm.".to_string(),
        model_name: "llama3-8b-8192".to_string(),
        provider: 0,
    }));
    assert!(registry.add_archetype(Archetype {
        name: "Bold".to_string(),
        system_prompt: "You are bold.".to_string(),
        model_name: "llama3-70b-8192".to_string(),
        provider: 1,
    }));

    let calm_answer = ask_guardian(&registry, &request("Calm", "first question")).unwrap();
    let bold_answer = ask_guardian(&registry, &request("Bold", "second question")).unwrap();
    assert_eq!(calm_answer.content, "calm answer");
    assert_eq!(bold_answer.content, "bold answer");
}
