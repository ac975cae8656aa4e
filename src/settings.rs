//! The settings types and their mathematical views.
use vstd::prelude::*;

verus! {

/// Which optional capabilities the assistant may use.
#[derive(Clone, Copy, Debug, PartialEq, Eq, Structural)]
pub struct EnabledCapabilities {
    pub code_generation: bool,
    pub external_links: bool,
}

/// Content-safety configuration.
#[derive(Clone, Debug, PartialEq, Eq)]
pub struct SafetySettings {
    pub content_filter_level: String,
    pub enabled_capabilities: EnabledCapabilities,
}

/// Settings for the Anthropic provider.
#[derive(Clone, Debug, PartialEq, Eq)]
pub struct AnthropicSettings {
    pub api_key: String,
    pub max_tokens: i32,
    pub system_prompt: String,
    pub stop_sequences: Option<Vec<String>>,
}

/// Settings for the OpenAI provider.
///
/// The sampling temperature is a single-precision float; it is held here as
/// its IEEE-754 bit pattern (what `f32::to_bits` gives), which this library
/// only carries and never interprets.
#[derive(Clone, Debug, PartialEq, Eq)]
pub struct OpenAISettings {
    pub api_key: String,
    pub org_id: Option<String>,
    pub default_temperature_bits: u32,
    pub max_tokens: i32,
    pub system_prompt: String,
    pub use_moderation: bool,
}

/// The complete user-facing configuration.
#[derive(Clone, Debug, PartialEq, Eq)]
pub struct Settings {
    pub selected_model: String,
    pub default_provider: String,
    pub openai: OpenAISettings,
    pub anthropic: AnthropicSettings,
    pub safety: SafetySettings,
}

/// The secret bundle kept beside the redacted settings: `None` where no key
/// was given.
#[derive(Clone, Debug, PartialEq, Eq)]
pub struct ApiKeys {
    pub openai: Option<String>,
    pub anthropic: Option<String>,
}

/// The persisted record: settings with both API keys blanked, and the keys
/// themselves in their own bundle.
#[derive(Clone, Debug, PartialEq, Eq)]
pub struct StoredSettings {
    pub settings: Settings,
    pub api_keys: ApiKeys,
}

/// The mathematical value of a [`SafetySettings`].
pub struct SafetyView {
    pub content_filter_level: Seq<char>,
    pub enabled_capabilities: EnabledCapabilities,
}

/// The mathematical value of an [`AnthropicSettings`].
pub struct AnthropicView {
    pub api_key: Seq<char>,
    pub max_tokens: i32,
    pub system_prompt: Seq<char>,
    pub stop_sequences: Option<Seq<Seq<char>>>,
}

/// The mathematical value of an [`OpenAISettings`].
pub struct OpenAIView {
    pub api_key: Seq<char>,
    pub org_id: Option<Seq<char>>,
    pub default_temperature_bits: u32,
    pub max_tokens: i32,
    pub system_prompt: Seq<char>,
    pub use_moderation: bool,
}

/// The mathematical value of a [`Settings`]: strings as character sequences.
pub struct SettingsView {
    pub selected_model: Seq<char>,
    pub default_provider: Seq<char>,
    pub openai: OpenAIView,
    pub anthropic: AnthropicView,
    pub safety: SafetyView,
}

/// The mathematical value of an [`ApiKeys`] bundle.
pub struct ApiKeysView {
    pub openai: Option<Seq<char>>,
    pub anthropic: Option<Seq<char>>,
}

/// The mathematical value of a [`StoredSettings`] record.
pub struct StoredView {
    pub settings: SettingsView,
    pub api_keys: ApiKeysView,
}

impl View for SafetySettings {
    type V = SafetyView;

    open spec fn view(&self) -> SafetyView {
        SafetyView {
            content_filter_level: self.content_filter_level@,
            enabled_capabilities: self.enabled_capabilities,
        }
    }
}

impl View for AnthropicSettings {
    type V = AnthropicView;

    open spec fn view(&self) -> AnthropicView {
        AnthropicView {
            api_key: self.api_key@,
            max_tokens: self.max_tokens,
            system_prompt: self.system_prompt@,
            stop_sequences: self.stop_sequences.deep_view(),
        }
    }
}

impl View for OpenAISettings {
    type V = OpenAIView;

    open spec fn view(&self) -> OpenAIView {
        OpenAIView {
            api_key: self.api_key@,
            org_id: self.org_id.deep_view(),
            default_temperature_bits: self.default_temperature_bits,
            max_tokens: self.max_tokens,
            system_prompt: self.system_prompt@,
            use_moderation: self.use_moderation,
        }
    }
}

impl View for Settings {
    type V = SettingsView;

    open spec fn view(&self) -> SettingsView {
        SettingsView {
            selected_model: self.selected_model@,
            default_provider: self.default_provider@,
            openai: self.openai@,
            anthropic: self.anthropic@,
            safety: self.safety@,
        }
    }
}

impl View for ApiKeys {
    type V = ApiKeysView;

    open spec fn view(&self) -> ApiKeysView {
        ApiKeysView { openai: self.openai.deep_view(), anthropic: self.anthropic.deep_view() }
    }
}

impl View for StoredSettings {
    type V = StoredView;

    open spec fn view(&self) -> StoredView {
        StoredView { settings: self.settings@, api_keys: self.api_keys@ }
    }
}

} // verus!
