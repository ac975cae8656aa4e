use synapse::settings::{
    AnthropicSettings, ApiKeys, EnabledCapabilities, OpenAISettings, SafetySettings, Settings,
    StoredSettings,
};
use synapse::store::{
    delete_api_key, load_api_key, load_settings, merge_settings, save_api_key, save_settings,
    split_settings, SettingsError, StoreRead, DEFAULT_MAX_TOKENS, DEFAULT_TEMPERATURE_BITS,
};

fn sample(openai_key: &str, anthropic_key: &str) -> Settings {
    Settings {
        selected_model: "model-large".to_string(),
        default_provider: "anthropic".to_string(),
        openai: OpenAISettings {
            api_key: openai_key.to_string(),
            org_id: Some("org-42".to_string()),
            default_temperature_bits: 0.25f32.to_bits(),
            max_tokens: 2048,
            system_prompt: "Be brief.".to_string(),
            use_moderation: false,
        },
        anthropic: AnthropicSettings {
            api_key: anthropic_key.to_string(),
            max_tokens: 1024,
            system_prompt: "Be kind.".to_string(),
            stop_sequences: Some(vec!["\n\nUser:".to_string(), "END".to_string()]),
        },
        safety: SafetySettings {
            content_filter_level: "strict".to_string(),
            enabled_capabilities: EnabledCapabilities { code_generation: false, external_links: true },
        },
    }
}

fn save_ok(s: Settings) -> StoredSettings {
    match save_settings(Ok(s)) {
        Ok(rec) => rec,
        Err(e) => panic!("save failed: {:?}", e),
    }
}

fn assert_default(s: &Settings) {
    assert_eq!(s.selected_model, "gpt-4-turbo-preview");
    assert_eq!(s.default_provider, "openai");
    assert_eq!(s.openai.api_key, "");
    assert_eq!(s.openai.org_id, None);
    assert_eq!(f32::from_bits(s.openai.default_temperature_bits), 0.7f32);
    assert_eq!(s.openai.max_tokens, 4096);
    assert_eq!(s.openai.system_prompt, "");
    assert!(s.openai.use_moderation);
    assert_eq!(s.anthropic.api_key, "");
    assert_eq!(s.anthropic.max_tokens, 4096);
    assert_eq!(s.anthropic.system_prompt, "");
    assert_eq!(s.anthropic.stop_sequences, None);
    assert_eq!(s.safety.content_filter_level, "moderate");
    assert!(s.safety.enabled_capabilities.code_generation);
    assert!(s.safety.enabled_capabilities.external_links);
}

#[test]
fn round_trip_with_both_keys() {
    let s = sample("sk-openai", "sk-ant");
    let loaded = load_settings(StoreRead::Record(save_ok(s.clone())));
    assert_eq!(loaded, s);
}

#[test]
fn round_trip_with_empty_keys() {
    for (o, a) in [("", ""), ("sk-openai", ""), ("", "sk-ant")] {
        let s = sample(o, a);
        let loaded = load_settings(StoreRead::Record(save_ok(s.clone())));
        assert_eq!(loaded, s);
    }
}

#[test]
fn saved_record_keeps_secrets_out_of_settings() {
    let rec = save_ok(sample("sk-openai", "sk-ant"));
    assert_eq!(rec.settings.openai.api_key, "");
    assert_eq!(rec.settings.anthropic.api_key, "");
    assert_eq!(rec.api_keys.openai, Some("sk-openai".to_string()));
    assert_eq!(rec.api_keys.anthropic, Some("sk-ant".to_string()));
    assert_eq!(rec.settings.openai.system_prompt, "Be brief.");
    assert_eq!(rec.settings.openai.org_id, Some("org-42".to_string()));
    assert_eq!(rec.settings.anthropic.stop_sequences.as_ref().map(|v| v.len()), Some(2));
}

#[test]
fn empty_anthropic_key_clears_earlier_key() {
    let first = save_ok(sample("sk-openai", "sk-ant"));
    assert_eq!(first.api_keys.anthropic, Some("sk-ant".to_string()));
    let second = save_ok(sample("sk-openai", ""));
    assert_eq!(second.api_keys.anthropic, None);
    let loaded = load_settings(StoreRead::Record(second));
    assert_eq!(loaded.anthropic.api_key, "");
    assert_eq!(loaded.openai.api_key, "sk-openai");
}

#[test]
fn missing_record_loads_defaults() {
    assert_default(&load_settings(StoreRead::Missing));
}

#[test]
fn corrupt_record_loads_defaults() {
    assert_default(&load_settings(StoreRead::Corrupt));
}

#[test]
fn default_record_has_no_keys() {
    let d = StoredSettings::default();
    assert_default(&d.settings);
    assert_eq!(d.api_keys, ApiKeys { openai: None, anthropic: None });
    assert_eq!(f32::from_bits(DEFAULT_TEMPERATURE_BITS), 0.7f32);
    assert_eq!(DEFAULT_MAX_TOKENS, 4096);
}

#[test]
fn undecodable_input_is_rejected() {
    let r = save_settings(Err("key must be a string at line 1 column 2".to_string()));
    assert_eq!(
        r,
        Err(SettingsError::Deserialization("key must be a string at line 1 column 2".to_string()))
    );
}

#[test]
fn saving_twice_gives_identical_records() {
    let a = save_ok(sample("sk-openai", ""));
    let b = save_ok(sample("sk-openai", ""));
    assert_eq!(a, b);
}

#[test]
fn resaving_loaded_settings_reproduces_record() {
    let rec = save_ok(sample("", "sk-ant"));
    let again = save_ok(load_settings(StoreRead::Record(rec.clone())));
    assert_eq!(again, rec);
}

#[test]
fn split_then_merge_restores_keys() {
    let s = sample("k1", "k2");
    let rec = split_settings(s.clone());
    assert_eq!(rec.api_keys.openai.as_deref(), Some("k1"));
    assert_eq!(merge_settings(rec), s);
}

#[test]
fn merge_keeps_inline_key_without_bundle() {
    let mut rec = split_settings(sample("", ""));
    rec.settings.openai.api_key = "inline".to_string();
    let merged = merge_settings(rec);
    assert_eq!(merged.openai.api_key, "inline");
    assert_eq!(merged.anthropic.api_key, "");
}

#[test]
fn error_messages() {
    assert_eq!(
        SettingsError::BackendAccess("no store".to_string()).message(),
        "Failed to access keychain: no store"
    );
    assert_eq!(
        SettingsError::Deserialization("EOF".to_string()).message(),
        "Invalid settings format: EOF"
    );
    assert_eq!(
        SettingsError::Serialization("bad".to_string()).message(),
        "Failed to serialize settings: bad"
    );
    assert_eq!(
        SettingsError::BackendWrite("denied".to_string()).message(),
        "Failed to save to keychain: denied"
    );
}

#[test]
fn per_provider_entry_points_do_nothing() {
    assert_eq!(save_api_key("openai".to_string(), "sk".to_string()), Ok(()));
    assert_eq!(load_api_key("openai".to_string()), Ok(None));
    assert_eq!(delete_api_key("anthropic".to_string()), Ok(()));
}
