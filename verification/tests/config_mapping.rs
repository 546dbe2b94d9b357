use naia_supervisor::config::{map_locale_language, map_provider, model_primary};

#[test]
fn provider_mapping_matches_gateway_names() {
    assert_eq!(map_provider(&"gemini".to_string()), Some("google"));
    assert_eq!(map_provider(&"nextain".to_string()), Some("google"));
    assert_eq!(map_provider(&"anthropic".to_string()), Some("anthropic"));
    assert_eq!(map_provider(&"openai".to_string()), Some("openai"));
    assert_eq!(map_provider(&"xai".to_string()), Some("xai"));
    assert_eq!(map_provider(&"zai".to_string()), Some("zai"));
}

#[test]
fn unconfigured_providers_map_to_nothing() {
    assert_eq!(map_provider(&"ollama".to_string()), None);
    assert_eq!(map_provider(&"mistral".to_string()), None);
    assert_eq!(map_provider(&"".to_string()), None);
}

#[test]
fn model_reference_joins_provider_and_model() {
    assert_eq!(
        model_primary("google", &"gemini-2.5-flash".to_string()),
        "google/gemini-2.5-flash"
    );
    assert_eq!(model_primary("xai", &"grok-4".to_string()), "xai/grok-4");
}

#[test]
fn locale_codes_map_to_language_names() {
    assert_eq!(map_locale_language(&"ko".to_string()), "Korean");
    assert_eq!(map_locale_language(&"en".to_string()), "English");
    assert_eq!(map_locale_language(&"ja".to_string()), "Japanese");
    assert_eq!(map_locale_language(&"pt".to_string()), "Portuguese");
    assert_eq!(map_locale_language(&"vi".to_string()), "Vietnamese");
}

#[test]
fn unknown_locale_is_kept_verbatim() {
    assert_eq!(map_locale_language(&"tlh".to_string()), "tlh");
    assert_eq!(map_locale_language(&"".to_string()), "");
}
