use guardian_core::compose;
use guardian_core::Archetype;
use guardian_core::AppRequest;

fn archetype(system_prompt: &str) -> Archetype {
    Archetype {
        name: "Scout".to_string(),
        system_prompt: system_prompt.to_string(),
        model_name: "llama3-8b-8192".to_string(),
        provider: 0,
    }
}

fn request(prompt: &str, user_system_prompt: Option<&str>) -> AppRequest {
    AppRequest {
        prompt: prompt.to_string(),
        archetype: "Scout".to_string(),
        user_system_prompt: user_system_prompt.map(|s| s.to_string()),
    }
}

#[test]
fn compose_is_deterministic() {
    let a = archetype("You are terse.");
    let r = request("What is Rust?", Some("Answer in one line."));
    let first = compose(&a, &r);
    let second = compose(&a, &r);
    assert_eq!(first, second);
}

#[test]
fn compose_without_instructions_omits_the_section() {
    let a = archetype("You are terse.");
    let r = request("What is Rust?", None);
    let composed = compose(&a, &r);
    assert_eq!(composed, "You are terse.\n\n--- User's Prompt ---\nWhat is Rust?");
    assert!(!composed.contains("--- User's Instructions ---"));
}

#[test]
fn compose_with_empty_instructions_omits_the_section() {
    let a = archetype("You are terse.");
    let r = request("What is Rust?", Some(""));
    let composed = compose(&a, &r);
    assert_eq!(composed, "You are terse.\n\n--- User's Prompt ---\nWhat is Rust?");
    assert!(!composed.contains("--- User's Instructions ---"));
}

#[test]
fn compose_with_instructions_holds_three_sections_in_order() {
    let a = archetype("You are terse.");
    let r = request("What is Rust?", Some("Answer in one line."));
    let composed = compose(&a, &r);
    assert_eq!(
        composed,
        "You are terse.\n\n--- User's Instructions ---\nAnswer in one line.\n\n--- User's Prompt ---\nWhat is Rust?"
    );
    let system_at = composed.find("You are terse.").unwrap();
    let instructions_at = composed.find("--- User's Instructions ---").unwrap();
    let prompt_at = composed.find("--- User's Prompt ---").unwrap();
    assert!(system_at < instructions_at);
    assert!(instructions_at < prompt_at);
}

#[test]
fn compose_keeps_prompt_text_verbatim() {
    let a = archetype("Persona.");
    let r = request("line one\nline two \"quoted\"", None);
    let composed = compose(&a, &r);
    assert!(composed.ends_with("\n\n--- User's Prompt ---\nline one\nline two \"quoted\""));
}
