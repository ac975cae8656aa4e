//! Splitting secrets out of the settings, recombining them, and the decisions
//! that a save or a load makes.
use vstd::prelude::*;
use vstd::string::StringExecFns;

use crate::settings::{
    AnthropicSettings, AnthropicView, ApiKeys, ApiKeysView, EnabledCapabilities, OpenAISettings,
    OpenAIView, SafetySettings, SafetyView, Settings, SettingsView, StoredSettings, StoredView,
};

verus! {

/// The sampling temperature of the default settings, 0.7, as an IEEE-754
/// single-precision bit pattern.
pub const DEFAULT_TEMPERATURE_BITS: u32 = 0x3f33_3333;

/// The token limit of the default settings, for both providers.
pub const DEFAULT_MAX_TOKENS: i32 = 4096;

/// Where a key goes in the secret bundle: an empty key is no key.
pub open spec fn key_slot(key: Seq<char>) -> Option<Seq<char>> {
    if key.len() == 0 {
        None
    } else {
        Some(key)
    }
}

/// The settings with both API keys blanked.
pub open spec fn redacted(s: SettingsView) -> SettingsView {
    SettingsView {
        openai: OpenAIView { api_key: Seq::empty(), ..s.openai },
        anthropic: AnthropicView { api_key: Seq::empty(), ..s.anthropic },
        ..s
    }
}

/// The record persisted for the settings `s`.
pub open spec fn stored_form(s: SettingsView) -> StoredView {
    StoredView {
        settings: redacted(s),
        api_keys: ApiKeysView {
            openai: key_slot(s.openai.api_key),
            anthropic: key_slot(s.anthropic.api_key),
        },
    }
}

/// The key that ends up in the settings: the bundled one where there is one.
pub open spec fn restored_key(bundled: Option<Seq<char>>, inline: Seq<char>) -> Seq<char> {
    match bundled {
        Some(k) => k,
        None => inline,
    }
}

/// The settings recombined from a persisted record.
pub open spec fn merged_form(r: StoredView) -> SettingsView {
    SettingsView {
        openai: OpenAIView {
            api_key: restored_key(r.api_keys.openai, r.settings.openai.api_key),
            ..r.settings.openai
        },
        anthropic: AnthropicView {
            api_key: restored_key(r.api_keys.anthropic, r.settings.anthropic.api_key),
            ..r.settings.anthropic
        },
        ..r.settings
    }
}

/// The settings used whenever no valid record exists.
pub open spec fn default_settings_view() -> SettingsView {
    SettingsView {
        selected_model: "gpt-4-turbo-preview"@,
        default_provider: "openai"@,
        openai: OpenAIView {
            api_key: Seq::empty(),
            org_id: None,
            default_temperature_bits: DEFAULT_TEMPERATURE_BITS,
            max_tokens: DEFAULT_MAX_TOKENS,
            system_prompt: Seq::empty(),
            use_moderation: true,
        },
        anthropic: AnthropicView {
            api_key: Seq::empty(),
            max_tokens: DEFAULT_MAX_TOKENS,
            system_prompt: Seq::empty(),
            stop_sequences: None,
        },
        safety: SafetyView {
            content_filter_level: "moderate"@,
            enabled_capabilities: EnabledCapabilities { code_generation: true, external_links: true },
        },
    }
}

/// The default record: default settings and no keys.
pub open spec fn default_stored_view() -> StoredView {
    StoredView {
        settings: default_settings_view(),
        api_keys: ApiKeysView { openai: None, anthropic: None },
    }
}

fn into_key_slot(key: String) -> (r: Option<String>)
    ensures
        r.deep_view() == key_slot(key@),
{
    if key.as_str().is_empty() {
        None
    } else {
        Some(key)
    }
}

/// Lifts both API keys out of `settings` into the secret bundle and blanks
/// them in the settings that are kept.
pub fn split_settings(settings: Settings) -> (r: StoredSettings)
    ensures
        r@ == stored_form(settings@),
{
    let Settings { selected_model, default_provider, openai, anthropic, safety } = settings;
    let openai_key = into_key_slot(openai.api_key);
    let anthropic_key = into_key_slot(anthropic.api_key);
    let r = StoredSettings {
        settings: Settings {
            selected_model,
            default_provider,
            openai: OpenAISettings {
                api_key: String::new(),
                org_id: openai.org_id,
                default_temperature_bits: openai.default_temperature_bits,
                max_tokens: openai.max_tokens,
                system_prompt: openai.system_prompt,
                use_moderation: openai.use_moderation,
            },
            anthropic: AnthropicSettings {
                api_key: String::new(),
                max_tokens: anthropic.max_tokens,
                system_prompt: anthropic.system_prompt,
                stop_sequences: anthropic.stop_sequences,
            },
            safety,
        },
        api_keys: ApiKeys { openai: openai_key, anthropic: anthropic_key },
    };
    r
}

/// Puts the bundled API keys back into the settings of a persisted record.
pub fn merge_settings(stored: StoredSettings) -> (r: Settings)
    ensures
        r@ == merged_form(stored@),
{
    let StoredSettings { settings, api_keys } = stored;
    let mut settings = settings;
    if let Some(k) = api_keys.openai {
        settings.openai.api_key = k;
    }
    if let Some(k) = api_keys.anthropic {
        settings.anthropic.api_key = k;
    }
    settings
}

impl Default for StoredSettings {
    fn default() -> (r: Self)
        ensures
            r@ == default_stored_view(),
    {
        StoredSettings {
            settings: Settings {
                selected_model: String::from_str("gpt-4-turbo-preview"),
                default_provider: String::from_str("openai"),
                openai: OpenAISettings {
                    api_key: String::new(),
                    org_id: None,
                    default_temperature_bits: DEFAULT_TEMPERATURE_BITS,
                    max_tokens: DEFAULT_MAX_TOKENS,
                    system_prompt: String::new(),
                    use_moderation: true,
                },
                anthropic: AnthropicSettings {
                    api_key: String::new(),
                    max_tokens: DEFAULT_MAX_TOKENS,
                    system_prompt: String::new(),
                    stop_sequences: None,
                },
                safety: SafetySettings {
                    content_filter_level: String::from_str("moderate"),
                    enabled_capabilities: EnabledCapabilities {
                        code_generation: true,
                        external_links: true,
                    },
                },
            },
            api_keys: ApiKeys { openai: None, anthropic: None },
        }
    }
}

/// Why a save failed. Each variant carries the underlying failure's text.
#[derive(Clone, Debug, PartialEq, Eq)]
pub enum SettingsError {
    /// The credential store could not be opened.
    BackendAccess(String),
    /// The settings handed in were not a well-formed settings value.
    Deserialization(String),
    /// A record could not be encoded.
    Serialization(String),
    /// The credential store refused the write.
    BackendWrite(String),
}

/// The human-readable text of an error, as the UI shows it.
pub open spec fn error_message(e: SettingsError) -> Seq<char> {
    match e {
        SettingsError::BackendAccess(d) => "Failed to access keychain: "@ + d@,
        SettingsError::Deserialization(d) => "Invalid settings format: "@ + d@,
        SettingsError::Serialization(d) => "Failed to serialize settings: "@ + d@,
        SettingsError::BackendWrite(d) => "Failed to save to keychain: "@ + d@,
    }
}

impl SettingsError {
    /// The text that a failed operation hands to its caller.
    pub fn message(&self) -> (r: String)
        ensures
            r@ == error_message(*self),
    {
        match self {
            SettingsError::BackendAccess(d) => String::from_str("Failed to access keychain: ").concat(
                d.as_str(),
            ),
            SettingsError::Deserialization(d) => String::from_str("Invalid settings format: ").concat(
                d.as_str(),
            ),
            SettingsError::Serialization(d) => String::from_str(
                "Failed to serialize settings: ",
            ).concat(d.as_str()),
            SettingsError::BackendWrite(d) => String::from_str("Failed to save to keychain: ").concat(
                d.as_str(),
            ),
        }
    }
}

/// What reading the settings entry of the credential store gave.
#[derive(Clone, Debug, PartialEq, Eq)]
pub enum StoreRead {
    /// No record could be read: none was ever saved, or the store failed.
    Missing,
    /// A record was read but did not decode as a stored record.
    Corrupt,
    /// A record was read and decoded.
    Record(StoredSettings),
}

/// The mathematical value of a [`StoreRead`].
pub enum ReadView {
    Missing,
    Corrupt,
    Record(StoredView),
}

impl View for StoreRead {
    type V = ReadView;

    open spec fn view(&self) -> ReadView {
        match self {
            StoreRead::Missing => ReadView::Missing,
            StoreRead::Corrupt => ReadView::Corrupt,
            StoreRead::Record(r) => ReadView::Record(r@),
        }
    }
}

/// The settings that a load returns: the recombined record where there is a
/// valid one, the defaults otherwise.
pub open spec fn loaded_form(read: ReadView) -> SettingsView {
    match read {
        ReadView::Record(r) => merged_form(r),
        _ => default_settings_view(),
    }
}

/// The record that a save produces from `parsed`, if any.
pub open spec fn produced_record(parsed: Result<Settings, String>) -> Option<StoredView> {
    match parsed {
        Ok(s) => Some(stored_form(s@)),
        Err(_) => None,
    }
}

/// The record carried by a save's result, if any.
pub open spec fn record_of(r: Result<StoredSettings, SettingsError>) -> Option<StoredView> {
    match r {
        Ok(rec) => Some(rec@),
        Err(_) => None,
    }
}

/// What the credential store holds after a save that produced `produced`: a
/// produced record replaces the held one whole (no merge); a save that
/// produced none writes nothing.
pub open spec fn held_after_save(held: ReadView, produced: Option<StoredView>) -> ReadView {
    match produced {
        Some(rec) => ReadView::Record(rec),
        None => held,
    }
}

/// Decides what a save writes. `parsed` is the settings as decoded from the
/// caller's text, or the decoder's error. A decoded value yields the record
/// to persist, with both keys moved into the secret bundle; a decoding error
/// yields a `Deserialization` error and no record.
pub fn save_settings(parsed: Result<Settings, String>) -> (r: Result<StoredSettings, SettingsError>)
    ensures
        r is Ok <==> parsed is Ok,
        record_of(r) == produced_record(parsed),
        parsed matches Ok(s) ==> r matches Ok(rec) && rec@ == stored_form(s@),
        parsed matches Err(d) ==> r == Err::<StoredSettings, SettingsError>(
            SettingsError::Deserialization(d),
        ),
        r matches Ok(rec) ==> rec@.settings.openai.api_key.len() == 0
            && rec@.settings.anthropic.api_key.len() == 0,
{
    match parsed {
        Ok(s) => Ok(split_settings(s)),
        Err(d) => Err(SettingsError::Deserialization(d)),
    }
}

/// Decides what a load returns from what the credential store gave: the
/// recombined settings of a valid record, and the defaults when the record is
/// missing or corrupt.
pub fn load_settings(read: StoreRead) -> (r: Settings)
    ensures
        r@ == loaded_form(read@),
        read is Missing ==> r@ == default_settings_view(),
        read is Corrupt ==> r@ == default_settings_view(),
        read matches StoreRead::Record(rec) ==> r@ == merged_form(rec@),
{
    match read {
        StoreRead::Record(rec) => merge_settings(rec),
        _ => StoredSettings::default().settings,
    }
}

/// Per-provider entry point for storing one key. Keys are saved with the
/// settings, so this does nothing and succeeds.
pub fn save_api_key(_provider: String, _key: String) -> (r: Result<(), String>)
    ensures
        r == Ok::<(), String>(()),
{
    Ok(())
}

/// Per-provider entry point for reading one key. Keys are loaded with the
/// settings, so this finds none.
pub fn load_api_key(_provider: String) -> (r: Result<Option<String>, String>)
    ensures
        r == Ok::<Option<String>, String>(None),
{
    Ok(None)
}

/// Per-provider entry point for removing one key. A key is dropped by saving
/// settings without it, so this does nothing and succeeds.
pub fn delete_api_key(_provider: String) -> (r: Result<(), String>)
    ensures
        r == Ok::<(), String>(()),
{
    Ok(())
}

} // verus!
