use guardian_core::Archetype;
use guardian_core::GroqProvider;
use guardian_core::HttpReply;
use guardian_core::Registry;
use guardian_core::ScriptedTransport;

fn scripted_provider(status: u16, body: &str) -> GroqProvider<ScriptedTransport> {
    GroqProvider::new(
        "test-key".to_string(),
        ScriptedTransport { script: Ok(HttpReply { status, body: body.to_string() }) },
    )
}

#[test]
fn builtin_registry_resolves_every_entry_wellformed() {
    let registry = Registry::new(scripted_provider(200, "{}"));
    for name in ["Scout", "Architect"] {
        let archetype = registry.get(&name.to_string()).expect("built-in archetype missing");
        assert_eq!(archetype.name, name);
        assert!(!archetype.system_prompt.is_empty());
        assert!(!archetype.model_name.is_empty());
        assert!(archetype.provider < registry.providers.len());
    }
}

#[test]
fn builtin_registry_binds_models() {
    let registry = Registry::new(scripted_provider(200, "{}"));
    let scout = registry.get(&"Scout".to_string()).unwrap();
    assert_eq!(scout.model_name, "llama3-8b-8192");
    let architect = registry.get(&"Architect".to_string()).unwrap();
    assert_eq!(architect.model_name, "llama3-70b-8192");
}

#[test]
fn get_unknown_name_is_none() {
    let registry = Registry::new(scripted_provider(200, "{}"));
    assert!(registry.get(&"NonexistentMode".to_string()).is_none());
}

#[test]
fn add_archetype_refuses_invalid_entries() {
    let mut registry = Registry::with_providers(vec![scripted_provider(200, "{}")]);
    let good = Archetype {
        name: "Sage".to_string(),
        system_prompt: "You are the Sage.".to_string(),
        model_name: "llama3-8b-8192".to_string(),
        provider: 0,
    };
    assert!(registry.add_archetype(good));

    let empty_prompt = Archetype {
        name: "Empty".to_string(),
        system_prompt: "".to_string(),
        model_name: "llama3-8b-8192".to_string(),
        provider: 0,
    };
    assert!(!registry.add_archetype(empty_prompt));

    let empty_model = Archetype {
        name: "Modeless".to_string(),
        system_prompt: "You are.".to_string(),
        model_name: "".to_string(),
        provider: 0,
    };
    assert!(!registry.add_archetype(empty_model));

    let bad_provider = Archetype {
        name: "Orphan".to_string(),
        system_prompt: "You are.".to_string(),
        model_name: "llama3-8b-8192".to_string(),
        provider: 7,
    };
    assert!(!registry.add_archetype(bad_provider));

    let duplicate = Archetype {
        name: "Sage".to_string(),
        system_prompt: "Another persona.".to_string(),
        model_name: "llama3-70b-8192".to_string(),
        provider: 0,
    };
    assert!(!registry.add_archetype(duplicate));

    assert_eq!(registry.archetypes.len(), 1);
    assert_eq!(registry.get(&"Sage".to_string()).unwrap().system_prompt, "You are the Sage.");
}
