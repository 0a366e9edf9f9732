//! The configuration model: which provider is selected and how each one is
//! reached, the overlay's dimensions, and the safety switches.
//! Configuration is a read-only input to adapter construction; reading and
//! writing it on disk lives outside the library.

use vstd::prelude::*;

verus! {

/// The whole configuration.
#[derive(Debug, Clone)]
pub struct Config {
    pub ai: AIConfig,
    pub ui: UIConfig,
    pub safety: SafetyConfig,
}

/// Which provider is used by default, and each provider's settings.
#[derive(Debug, Clone)]
pub struct AIConfig {
    pub default_provider: String,
    pub ollama: OllamaConfig,
    pub openai: OpenAIConfig,
    pub anthropic: AnthropicConfig,
    pub gemini: GeminiConfig,
}

/// The local provider: reachable at a base URL, no credential.
#[derive(Debug, Clone)]
pub struct OllamaConfig {
    pub enabled: bool,
    pub base_url: String,
    pub model: String,
}

#[derive(Debug, Clone)]
pub struct OpenAIConfig {
    pub enabled: bool,
    pub api_key: Option<String>,
    pub model: String,
    pub base_url: String,
}

#[derive(Debug, Clone)]
pub struct AnthropicConfig {
    pub enabled: bool,
    pub api_key: Option<String>,
    pub model: String,
}

#[derive(Debug, Clone)]
pub struct GeminiConfig {
    pub enabled: bool,
    pub api_key: Option<String>,
    pub model: String,
}

/// The overlay's size as percentages of the terminal, and whether
/// animations run.
#[derive(Debug, Clone)]
pub struct UIConfig {
    pub modal_width_percent: u16,
    pub modal_height_percent: u16,
    pub animations: bool,
}

/// The safety switches around destructive commands.
#[derive(Debug, Clone)]
pub struct SafetyConfig {
    pub detect_destructive_commands: bool,
    pub confirm_destructive: bool,
    pub default_dry_run: bool,
}

impl Default for Config {
    /// The stock configuration: the local provider enabled and selected,
    /// the cloud providers present but disabled, an 80 by 70 percent
    /// overlay with animations, and destructive-command detection with
    /// confirmation on.
    fn default() -> (r: Self)
        ensures
            r.ai.default_provider@ == "ollama"@,
            r.ai.ollama.enabled == true,
            r.ai.ollama.base_url@ == "http://localhost:11434"@,
            r.ai.ollama.model@ == "llama3"@,
            r.ai.openai.enabled == false,
            r.ai.openai.api_key is None,
            r.ai.openai.model@ == "gpt-4"@,
            r.ai.openai.base_url@ == "https://api.openai.com/v1"@,
            r.ai.anthropic.enabled == false,
            r.ai.anthropic.api_key is None,
            r.ai.anthropic.model@ == "latest"@,
            r.ai.gemini.enabled == false,
            r.ai.gemini.api_key is None,
            r.ai.gemini.model@ == "gemini-1.5-pro"@,
            r.ui.modal_width_percent == 80,
            r.ui.modal_height_percent == 70,
            r.ui.animations == true,
            r.safety.detect_destructive_commands == true,
            r.safety.confirm_destructive == true,
            r.safety.default_dry_run == false,
    {
        Config {
            ai: AIConfig {
                default_provider: "ollama".to_owned(),
                ollama: OllamaConfig {
                    enabled: true,
                    base_url: "http://localhost:11434".to_owned(),
                    model: "llama3".to_owned(),
                },
                openai: OpenAIConfig {
                    enabled: false,
                    api_key: None,
                    model: "gpt-4".to_owned(),
                    base_url: "https://api.openai.com/v1".to_owned(),
                },
                anthropic: AnthropicConfig {
                    enabled: false,
                    api_key: None,
                    model: "latest".to_owned(),
                },
                gemini: GeminiConfig {
                    enabled: false,
                    api_key: None,
                    model: "gemini-1.5-pro".to_owned(),
                },
            },
            ui: UIConfig { modal_width_percent: 80, modal_height_percent: 70, animations: true },
            safety: SafetyConfig {
                detect_destructive_commands: true,
                confirm_destructive: true,
                default_dry_run: false,
            },
        }
    }
}

} // verus!
