use guardian_core::build_request_body;
use guardian_core::ProviderError;
use guardian_core::ProviderRequest;

#[test]
fn request_body_embeds_model_and_prompt() {
    let body = build_request_body(&ProviderRequest {
        full_prompt: "hello there".to_string(),
        model_name: "llama3-8b-8192".to_string(),
    });
    assert_eq!(
        body,
        "{\"model\":\"llama3-8b-8192\",\"messages\":[{\"role\":\"user\",\"content\":\"hello there\"}]}"
    );
}

#[test]
fn request_body_escapes_quotes_backslashes_and_controls() {
    let body = build_request_body(&ProviderRequest {
        full_prompt: "a \"quote\", a \\ backslash,\nand a tab\t.".to_string(),
        model_name: "m".to_string(),
    });
    assert_eq!(
        body,
        "{\"model\":\"m\",\"messages\":[{\"role\":\"user\",\"content\":\"a \\\"quote\\\", a \\\\ backslash,\\u000aand a tab\\u0009.\"}]}"
    );
    let parsed: serde_json::Value = serde_json::from_str(&body).expect("body must be valid JSON");
    assert_eq!(
        parsed["messages"][0]["content"].as_str().unwrap(),
        "a \"quote\", a \\ backslash,\nand a tab\t."
    );
    assert_eq!(parsed["model"].as_str().unwrap(), "m");
}

#[test]
fn error_messages_render_exactly() {
    assert_eq!(
        ProviderError::Transport("timed out".to_string()).message(),
        "Failed to send request to Groq API: timed out"
    );
    assert_eq!(ProviderError::ApiStatus(500).message(), "Groq API Error: 500");
    assert_eq!(ProviderError::ApiStatus(0).message(), "Groq API Error: 0");
    assert_eq!(ProviderError::NoChoices.message(), "Groq response contained no choices.");
    assert_eq!(ProviderError::Malformed.message(), "Failed to parse Groq response");
}
