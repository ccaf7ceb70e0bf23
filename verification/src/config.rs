//! The configuration snapshot handed to each service client, with its
//! defaults, and the credential set resolved outside the configuration file.
//!
//! Fractional tunables (temperatures, voice settings, silence thresholds) are
//! carried as integer thousandths so that every field is a plain value;
//! durations carried the same way are in milliseconds.

use vstd::prelude::*;
use vstd::string::StringExecFns;

use crate::errors::{AppError, ConfigError};
use crate::text::{spec_contains, spec_env_var_name, env_var_name, str_contains, str_eq};

verus! {

/// Application configuration structure.
#[derive(Debug)]
pub struct AppConfig {
    /// Transcription service configuration.
    pub whisper: WhisperConfig,
    /// Chat service configuration.
    pub openwebui: OpenWebUiConfig,
    /// Speech-synthesis service configuration.
    pub elevenlabs: ElevenLabsConfig,
    /// Audio preferences.
    pub audio: AudioConfig,
    /// UI preferences.
    pub ui: UiConfig,
}

/// Transcription service configuration.
#[derive(Debug)]
pub struct WhisperConfig {
    /// Transcription endpoint URL.
    pub endpoint: String,
    /// Model to use (e.g. "whisper-1").
    pub model: String,
    /// Language code (optional, e.g. "en").
    pub language: Option<String>,
    /// Sampling temperature, in thousandths.
    pub temperature_milli: u32,
    /// Timeout in seconds.
    pub timeout_secs: u64,
}

/// Chat service configuration.
#[derive(Debug)]
pub struct OpenWebUiConfig {
    /// Chat endpoint URL.
    pub endpoint: String,
    /// Model to use.
    pub model: String,
    /// Maximum context length in bytes of content.
    pub max_context_length: usize,
    /// Generation temperature, in thousandths.
    pub temperature_milli: u32,
    /// Maximum tokens to generate.
    pub max_tokens: Option<usize>,
    /// Whether to ask for streaming responses.
    pub stream: bool,
    /// Timeout in seconds.
    pub timeout_secs: u64,
}

/// Speech-synthesis service configuration.
#[derive(Debug)]
pub struct ElevenLabsConfig {
    /// Speech-synthesis endpoint URL.
    pub endpoint: String,
    /// Voice to use.
    pub voice_id: String,
    /// Model to use (e.g. "eleven_monolingual_v1").
    pub model_id: String,
    /// Voice settings.
    pub voice_settings: VoiceSettings,
    /// Timeout in seconds.
    pub timeout_secs: u64,
}

/// Voice synthesis settings, each knob in thousandths of its unit range.
#[derive(Debug)]
pub struct VoiceSettings {
    /// Stability, in thousandths.
    pub stability_milli: u32,
    /// Similarity boost, in thousandths.
    pub similarity_boost_milli: u32,
    /// Style, in thousandths.
    pub style_milli: Option<u32>,
    /// Use speaker boost.
    pub use_speaker_boost: bool,
}

/// Audio recording configuration.
#[derive(Debug)]
pub struct AudioConfig {
    /// Sample rate for recording (Hz).
    pub sample_rate: u32,
    /// Bit depth.
    pub bit_depth: u16,
    /// Number of channels (1 = mono, 2 = stereo).
    pub channels: u16,
    /// Recording format.
    pub format: String,
    /// Silence detection threshold, in thousandths.
    pub silence_threshold_milli: u32,
    /// Silence duration before stopping, in milliseconds.
    pub silence_duration_ms: u32,
    /// Maximum recording duration (seconds).
    pub max_duration: u32,
}

/// UI preferences.
#[derive(Debug)]
pub struct UiConfig {
    /// Theme ("light" or "dark").
    pub theme: String,
    /// Show transcription in real time.
    pub show_transcription: bool,
    /// Show thinking indicator.
    pub show_thinking: bool,
    /// Auto-minimize after response.
    pub auto_minimize: bool,
    /// Window always on top.
    pub always_on_top: bool,
    /// Global hotkey.
    pub global_hotkey: Option<String>,
}

/// API keys, resolved separately and never stored in the configuration file.
#[derive(Debug)]
pub struct ApiKeys {
    pub whisper: Option<String>,
    pub openwebui: Option<String>,
    pub elevenlabs: Option<String>,
}

/// Two optional strings with equal content.
pub open spec fn opt_str_eq(a: Option<String>, b: Option<String>) -> bool {
    match (a, b) {
        (Option::Some(x), Option::Some(y)) => x@ == y@,
        (Option::None, Option::None) => true,
        _ => false,
    }
}

/// Two transcription configurations with equal content.
pub open spec fn whisper_config_eq(a: WhisperConfig, b: WhisperConfig) -> bool {
    &&& a.endpoint@ == b.endpoint@
    &&& a.model@ == b.model@
    &&& opt_str_eq(a.language, b.language)
    &&& a.temperature_milli == b.temperature_milli
    &&& a.timeout_secs == b.timeout_secs
}

/// Two chat configurations with equal content.
pub open spec fn openwebui_config_eq(a: OpenWebUiConfig, b: OpenWebUiConfig) -> bool {
    &&& a.endpoint@ == b.endpoint@
    &&& a.model@ == b.model@
    &&& a.max_context_length == b.max_context_length
    &&& a.temperature_milli == b.temperature_milli
    &&& a.max_tokens == b.max_tokens
    &&& a.stream == b.stream
    &&& a.timeout_secs == b.timeout_secs
}

/// Two speech-synthesis configurations with equal content.
pub open spec fn elevenlabs_config_eq(a: ElevenLabsConfig, b: ElevenLabsConfig) -> bool {
    &&& a.endpoint@ == b.endpoint@
    &&& a.voice_id@ == b.voice_id@
    &&& a.model_id@ == b.model_id@
    &&& a.voice_settings == b.voice_settings
    &&& a.timeout_secs == b.timeout_secs
}

/// Two audio configurations with equal content.
pub open spec fn audio_config_eq(a: AudioConfig, b: AudioConfig) -> bool {
    &&& a.sample_rate == b.sample_rate
    &&& a.bit_depth == b.bit_depth
    &&& a.channels == b.channels
    &&& a.format@ == b.format@
    &&& a.silence_threshold_milli == b.silence_threshold_milli
    &&& a.silence_duration_ms == b.silence_duration_ms
    &&& a.max_duration == b.max_duration
}

/// Two UI configurations with equal content.
pub open spec fn ui_config_eq(a: UiConfig, b: UiConfig) -> bool {
    &&& a.theme@ == b.theme@
    &&& a.show_transcription == b.show_transcription
    &&& a.show_thinking == b.show_thinking
    &&& a.auto_minimize == b.auto_minimize
    &&& a.always_on_top == b.always_on_top
    &&& opt_str_eq(a.global_hotkey, b.global_hotkey)
}

/// Two configuration snapshots with equal content.
pub open spec fn config_eq(a: AppConfig, b: AppConfig) -> bool {
    &&& whisper_config_eq(a.whisper, b.whisper)
    &&& openwebui_config_eq(a.openwebui, b.openwebui)
    &&& elevenlabs_config_eq(a.elevenlabs, b.elevenlabs)
    &&& audio_config_eq(a.audio, b.audio)
    &&& ui_config_eq(a.ui, b.ui)
}

/// Two credential sets with equal content.
pub open spec fn api_keys_eq(a: ApiKeys, b: ApiKeys) -> bool {
    &&& opt_str_eq(a.whisper, b.whisper)
    &&& opt_str_eq(a.openwebui, b.openwebui)
    &&& opt_str_eq(a.elevenlabs, b.elevenlabs)
}

/// Copies an optional string, keeping its content.
pub fn clone_opt_string(s: &Option<String>) -> (r: Option<String>)
    ensures
        opt_str_eq(r, *s),
{
    match s {
        Option::Some(x) => Option::Some(x.clone()),
        Option::None => Option::None,
    }
}

impl Clone for WhisperConfig {
    /// Copies the configuration, keeping every field's content.
    fn clone(&self) -> (r: Self)
        ensures
            whisper_config_eq(r, *self),
    {
        WhisperConfig {
            endpoint: self.endpoint.clone(),
            model: self.model.clone(),
            language: clone_opt_string(&self.language),
            temperature_milli: self.temperature_milli,
            timeout_secs: self.timeout_secs,
        }
    }
}

impl Clone for OpenWebUiConfig {
    /// Copies the configuration, keeping every field's content.
    fn clone(&self) -> (r: Self)
        ensures
            openwebui_config_eq(r, *self),
    {
        OpenWebUiConfig {
            endpoint: self.endpoint.clone(),
            model: self.model.clone(),
            max_context_length: self.max_context_length,
            temperature_milli: self.temperature_milli,
            max_tokens: self.max_tokens,
            stream: self.stream,
            timeout_secs: self.timeout_secs,
        }
    }
}

impl Clone for ElevenLabsConfig {
    /// Copies the configuration, keeping every field's content.
    fn clone(&self) -> (r: Self)
        ensures
            elevenlabs_config_eq(r, *self),
    {
        ElevenLabsConfig {
            endpoint: self.endpoint.clone(),
            voice_id: self.voice_id.clone(),
            model_id: self.model_id.clone(),
            voice_settings: self.voice_settings.clone(),
            timeout_secs: self.timeout_secs,
        }
    }
}

impl Clone for VoiceSettings {
    /// Copies the settings exactly.
    fn clone(&self) -> (r: Self)
        ensures
            r == *self,
    {
        VoiceSettings {
            stability_milli: self.stability_milli,
            similarity_boost_milli: self.similarity_boost_milli,
            style_milli: self.style_milli,
            use_speaker_boost: self.use_speaker_boost,
        }
    }
}

impl Clone for AudioConfig {
    /// Copies the configuration, keeping every field's content.
    fn clone(&self) -> (r: Self)
        ensures
            audio_config_eq(r, *self),
    {
        AudioConfig {
            sample_rate: self.sample_rate,
            bit_depth: self.bit_depth,
            channels: self.channels,
            format: self.format.clone(),
            silence_threshold_milli: self.silence_threshold_milli,
            silence_duration_ms: self.silence_duration_ms,
            max_duration: self.max_duration,
        }
    }
}

impl Clone for UiConfig {
    /// Copies the configuration, keeping every field's content.
    fn clone(&self) -> (r: Self)
        ensures
            ui_config_eq(r, *self),
    {
        UiConfig {
            theme: self.theme.clone(),
            show_transcription: self.show_transcription,
            show_thinking: self.show_thinking,
            auto_minimize: self.auto_minimize,
            always_on_top: self.always_on_top,
            global_hotkey: clone_opt_string(&self.global_hotkey),
        }
    }
}

impl Clone for AppConfig {
    /// Copies the snapshot, keeping every field's content.
    fn clone(&self) -> (r: Self)
        ensures
            config_eq(r, *self),
    {
        AppConfig {
            whisper: self.whisper.clone(),
            openwebui: self.openwebui.clone(),
            elevenlabs: self.elevenlabs.clone(),
            audio: self.audio.clone(),
            ui: self.ui.clone(),
        }
    }
}

impl Clone for ApiKeys {
    /// Copies the credential set, keeping every key's content.
    fn clone(&self) -> (r: Self)
        ensures
            api_keys_eq(r, *self),
    {
        ApiKeys {
            whisper: clone_opt_string(&self.whisper),
            openwebui: clone_opt_string(&self.openwebui),
            elevenlabs: clone_opt_string(&self.elevenlabs),
        }
    }
}

#[verifier::external_type_specification]
#[verifier::external_body]
pub struct ExKeyringEntry(keyring::Entry);

#[verifier::external_type_specification]
#[verifier::external_body]
pub struct ExKeyringError(keyring::Error);

/// Relies on keyring::Entry::new: the handle for this service and user in
/// the platform secret store, or the store's error.
#[verifier::external_body]
fn keyring_entry_new(service: &str, user: &str) -> Result<keyring::Entry, keyring::Error> {
    keyring::Entry::new(service, user)
}

/// Relies on keyring::Entry::get_password: whatever the secret store holds
/// for the entry, or its error; nothing is promised of the value.
#[verifier::external_body]
fn keyring_get_password(entry: &keyring::Entry) -> Result<String, keyring::Error> {
    entry.get_password()
}

/// Relies on keyring::Entry::set_password: stores the secret, or reports the
/// store's error.
#[verifier::external_body]
fn keyring_set_password(entry: &keyring::Entry, password: &str) -> Result<(), keyring::Error> {
    entry.set_password(password)
}

/// Relies on keyring::Entry::delete_credential: removes the entry, or
/// reports the store's error.
#[verifier::external_body]
fn keyring_delete_credential(entry: &keyring::Entry) -> Result<(), keyring::Error> {
    entry.delete_credential()
}

/// Relies on keyring::Error's Display rendering for the human-readable
/// message.
#[verifier::external_body]
fn keyring_error_message(e: &keyring::Error) -> String {
    format!("{}", e)
}

/// Wraps a secret-store error as this library's configuration error,
/// carrying its message.
pub fn config_error_from_keyring(e: &keyring::Error) -> (r: ConfigError)
    ensures
        r is KeyringError,
{
    ConfigError::KeyringError(keyring_error_message(e))
}

/// A value accepted from the primary environment variable: non-empty and not
/// one of the known placeholder values.
pub open spec fn primary_key_ok(k: Seq<char>) -> bool {
    &&& k.len() > 0
    &&& k != "your-openai-api-key-here"@
    &&& k != "your-openwebui-api-key-here"@
    &&& k != "your-elevenlabs-api-key-here"@
}

/// A value accepted from an alternate environment variable: non-empty and
/// free of the placeholder fragments.
pub open spec fn alt_key_ok(k: Seq<char>) -> bool {
    &&& k.len() > 0
    &&& !spec_contains(k, "your-"@)
    &&& !spec_contains(k, "-api-key-here"@)
}

/// The primary environment variable offered an acceptable value.
pub open spec fn accepted_primary(k: Option<String>) -> bool {
    k matches Some(s) && primary_key_ok(s@)
}

/// An alternate environment variable offered an acceptable value.
pub open spec fn accepted_alt(k: Option<String>) -> bool {
    k matches Some(s) && alt_key_ok(s@)
}

/// The error message given when no credential could be resolved, naming the
/// environment variable that would have been read first.
pub open spec fn spec_missing_key_message(service: Seq<char>) -> Seq<char> {
    "API key not found for '"@ + service + "'. Set "@ + spec_env_var_name(service)
        + " environment variable or store via app settings."@
}

/// True when a primary environment value is accepted as a credential.
pub fn primary_key_acceptable(k: &str) -> (r: bool)
    ensures
        r == primary_key_ok(k@),
{
    !k.is_empty() && !str_eq(k, "your-openai-api-key-here") && !str_eq(
        k,
        "your-openwebui-api-key-here",
    ) && !str_eq(k, "your-elevenlabs-api-key-here")
}

/// True when an alternate environment value is accepted as a credential.
pub fn alt_key_acceptable(k: &str) -> (r: bool)
    ensures
        r == alt_key_ok(k@),
{
    !k.is_empty() && !str_contains(k, "your-") && !str_contains(k, "-api-key-here")
}

/// The alternate environment variable consulted for a service when its
/// primary variable offers nothing.
pub fn alt_env_var_name(service: &str) -> (r: Option<String>)
    ensures
        service@ == "whisper"@ ==> (r matches Some(n) && n@ == "OPENAI_API_KEY"@),
        service@ == "openwebui"@ ==> (r matches Some(n) && n@ == "OPENWEBUI_API_KEY"@),
        service@ == "elevenlabs"@ ==> (r matches Some(n) && n@ == "ELEVENLABS_API_KEY"@),
        service@ != "whisper"@ && service@ != "openwebui"@ && service@ != "elevenlabs"@ ==> r
            is None,
{
    proof {
        reveal_strlit("whisper");
        reveal_strlit("openwebui");
        reveal_strlit("elevenlabs");
        assert("whisper"@.len() == 7);
        assert("openwebui"@.len() == 9);
        assert("elevenlabs"@.len() == 10);
    }
    if str_eq(service, "whisper") {
        Some(String::from_str("OPENAI_API_KEY"))
    } else if str_eq(service, "openwebui") {
        Some(String::from_str("OPENWEBUI_API_KEY"))
    } else if str_eq(service, "elevenlabs") {
        Some(String::from_str("ELEVENLABS_API_KEY"))
    } else {
        None
    }
}

/// Resolves a service's credential in priority order: the primary
/// environment variable (placeholders rejected), then an alternate variable
/// (placeholder fragments rejected), then whatever the secret store offered;
/// with all three empty-handed, a missing-configuration error naming the
/// expected environment variable.
pub fn resolve_api_key(
    service: &str,
    primary_env: Option<String>,
    alt_env: Option<String>,
    stored: Option<String>,
) -> (r: Result<String, AppError>)
    ensures
        accepted_primary(primary_env) ==> (primary_env matches Some(k) && r == Ok::<
            String,
            AppError,
        >(k)),
        !accepted_primary(primary_env) && accepted_alt(alt_env) ==> (alt_env matches Some(k) && r
            == Ok::<String, AppError>(k)),
        !accepted_primary(primary_env) && !accepted_alt(alt_env) ==> (stored matches Some(k) ==> r
            == Ok::<String, AppError>(k)),
        !accepted_primary(primary_env) && !accepted_alt(alt_env) && stored is None ==> (r matches
            Err(AppError::Config(ConfigError::MissingConfig(m))) && m@ == spec_missing_key_message(
            service@,
        )),
{
    let primary_good = match &primary_env {
        Option::Some(k) => primary_key_acceptable(k.as_str()),
        Option::None => false,
    };
    if primary_good {
        return Ok(primary_env.unwrap());
    }
    let alt_good = match &alt_env {
        Option::Some(k) => alt_key_acceptable(k.as_str()),
        Option::None => false,
    };
    if alt_good {
        return Ok(alt_env.unwrap());
    }
    match stored {
        Option::Some(k) => Ok(k),
        Option::None => {
            let var = env_var_name(service);
            let m = String::from_str("API key not found for '").concat(service).concat(
                "'. Set ",
            ).concat(var.as_str()).concat(" environment variable or store via app settings.");
            Err(AppError::Config(ConfigError::MissingConfig(m)))
        },
    }
}

/// Configuration manager: the secret-store side of configuration, under a
/// fixed application namespace. Loading and saving the configuration file
/// itself is the embedding program's work.
#[derive(Debug)]
pub struct ConfigManager {
    /// The namespace under which this application's entries live in the
    /// platform secret store.
    pub keyring_service: String,
}

impl ConfigManager {
    /// Creates the manager with the application's secret-store namespace.
    pub fn new() -> (m: Self)
        ensures
            m.keyring_service@ == "com.cmac.talk-to-cmac"@,
    {
        ConfigManager { keyring_service: String::from_str("com.cmac.talk-to-cmac") }
    }

    /// Stores a service's credential in the platform secret store; any store
    /// failure surfaces as a keyring configuration error.
    pub fn store_api_key(&self, service: &str, api_key: &str) -> (r: Result<(), AppError>)
        ensures
            r matches Err(e) ==> (e matches AppError::Config(c) && c is KeyringError),
    {
        let entry = match keyring_entry_new(self.keyring_service.as_str(), service) {
            Result::Ok(e) => e,
            Result::Err(e) => {
                return Err(AppError::Config(config_error_from_keyring(&e)));
            },
        };
        match keyring_set_password(&entry, api_key) {
            Result::Ok(_) => Ok(()),
            Result::Err(e) => Err(AppError::Config(config_error_from_keyring(&e))),
        }
    }

    /// Removes a service's credential from the platform secret store; any
    /// store failure surfaces as a keyring configuration error.
    pub fn delete_api_key(&self, service: &str) -> (r: Result<(), AppError>)
        ensures
            r matches Err(e) ==> (e matches AppError::Config(c) && c is KeyringError),
    {
        let entry = match keyring_entry_new(self.keyring_service.as_str(), service) {
            Result::Ok(e) => e,
            Result::Err(e) => {
                return Err(AppError::Config(config_error_from_keyring(&e)));
            },
        };
        match keyring_delete_credential(&entry) {
            Result::Ok(_) => Ok(()),
            Result::Err(e) => Err(AppError::Config(config_error_from_keyring(&e))),
        }
    }

    /// Resolves a service's credential: the given environment values take
    /// priority as [`resolve_api_key`] fixes, and only when both are
    /// empty-handed is the platform secret store consulted. An unreachable
    /// store surfaces as a keyring configuration error.
    pub fn get_api_key(&self, service: &str, primary_env: Option<String>, alt_env: Option<
        String,
    >) -> (r: Result<String, AppError>)
        ensures
            accepted_primary(primary_env) ==> (primary_env matches Some(k) && r == Ok::<
                String,
                AppError,
            >(k)),
            !accepted_primary(primary_env) && accepted_alt(alt_env) ==> (alt_env matches Some(k)
                && r == Ok::<String, AppError>(k)),
            !accepted_primary(primary_env) && !accepted_alt(alt_env) ==> (r is Ok || (r matches Err(
                AppError::Config(c),
            ) && (c is KeyringError || (c matches ConfigError::MissingConfig(m) && m@
                == spec_missing_key_message(service@))))),
    {
        let primary_good = match &primary_env {
            Option::Some(k) => primary_key_acceptable(k.as_str()),
            Option::None => false,
        };
        if primary_good {
            return Ok(primary_env.unwrap());
        }
        let alt_good = match &alt_env {
            Option::Some(k) => alt_key_acceptable(k.as_str()),
            Option::None => false,
        };
        if alt_good {
            return Ok(alt_env.unwrap());
        }
        let entry = match keyring_entry_new(self.keyring_service.as_str(), service) {
            Result::Ok(e) => e,
            Result::Err(e) => {
                return Err(AppError::Config(config_error_from_keyring(&e)));
            },
        };
        let stored = match keyring_get_password(&entry) {
            Result::Ok(k) => Option::Some(k),
            Result::Err(_) => Option::None,
        };
        resolve_api_key(service, primary_env, alt_env, stored)
    }
}

impl Default for AppConfig {
    /// The built-in defaults, used when no configuration file exists.
    fn default() -> (c: Self)
        ensures
            c.whisper.endpoint@ == "https://api.openai.com/v1/audio/transcriptions"@,
            c.whisper.model@ == "whisper-1"@,
            (c.whisper.language matches Some(l) && l@ == "en"@),
            c.whisper.temperature_milli == 0,
            c.whisper.timeout_secs == 30,
            c.openwebui.endpoint@ == "http://localhost:3000/api/chat"@,
            c.openwebui.model@ == "llama3.2"@,
            c.openwebui.max_context_length == 4096,
            c.openwebui.temperature_milli == 700,
            c.openwebui.max_tokens == Some(1024usize),
            c.openwebui.stream == false,
            c.openwebui.timeout_secs == 60,
            c.elevenlabs.endpoint@ == "https://api.elevenlabs.io/v1/text-to-speech"@,
            c.elevenlabs.voice_id@ == "21m00Tcm4TlvDq8ikWAM"@,
            c.elevenlabs.model_id@ == "eleven_monolingual_v1"@,
            c.elevenlabs.voice_settings == (VoiceSettings {
                stability_milli: 500u32,
                similarity_boost_milli: 750u32,
                style_milli: Some(0u32),
                use_speaker_boost: true,
            }),
            c.elevenlabs.timeout_secs == 30,
            c.audio.sample_rate == 16000,
            c.audio.bit_depth == 16,
            c.audio.channels == 1,
            c.audio.format@ == "wav"@,
            c.audio.silence_threshold_milli == 10,
            c.audio.silence_duration_ms == 2000,
            c.audio.max_duration == 300,
            c.ui.theme@ == "dark"@,
            c.ui.show_transcription == true,
            c.ui.show_thinking == true,
            c.ui.auto_minimize == false,
            c.ui.always_on_top == true,
            (c.ui.global_hotkey matches Some(h) && h@ == "CommandOrControl+Shift+Space"@),
    {
        AppConfig {
            whisper: WhisperConfig {
                endpoint: String::from_str("https://api.openai.com/v1/audio/transcriptions"),
                model: String::from_str("whisper-1"),
                language: Some(String::from_str("en")),
                temperature_milli: 0,
                timeout_secs: 30,
            },
            openwebui: OpenWebUiConfig {
                endpoint: String::from_str("http://localhost:3000/api/chat"),
                model: String::from_str("llama3.2"),
                max_context_length: 4096,
                temperature_milli: 700,
                max_tokens: Some(1024),
                stream: false,
                timeout_secs: 60,
            },
            elevenlabs: ElevenLabsConfig {
                endpoint: String::from_str("https://api.elevenlabs.io/v1/text-to-speech"),
                voice_id: String::from_str("21m00Tcm4TlvDq8ikWAM"),
                model_id: String::from_str("eleven_monolingual_v1"),
                voice_settings: VoiceSettings {
                    stability_milli: 500,
                    similarity_boost_milli: 750,
                    style_milli: Some(0),
                    use_speaker_boost: true,
                },
                timeout_secs: 30,
            },
            audio: AudioConfig {
                sample_rate: 16000,
                bit_depth: 16,
                channels: 1,
                format: String::from_str("wav"),
                silence_threshold_milli: 10,
                silence_duration_ms: 2000,
                max_duration: 300,
            },
            ui: UiConfig {
                theme: String::from_str("dark"),
                show_transcription: true,
                show_thinking: true,
                auto_minimize: false,
                always_on_top: true,
                global_hotkey: Some(String::from_str("CommandOrControl+Shift+Space")),
            },
        }
    }
}

} // verus!
