//! Configuration defaults and credential resolution.

use talk_to_cmac::config::{alt_env_var_name, resolve_api_key, ApiKeys, AppConfig, ConfigManager};
use talk_to_cmac::errors::{AppError, ConfigError};
use talk_to_cmac::state::{AppState, MessageRole};
use talk_to_cmac::text::{dec, env_var_name, hex16, str_contains, strip_suffix, trim_trailing};

#[test]
fn test_default_config() {
    let config = AppConfig::default();
    assert_eq!(config.audio.sample_rate, 16000);
    assert_eq!(config.ui.theme, "dark");
}

#[test]
fn test_config_loading() {
    let manager = ConfigManager::new();
    assert_eq!(manager.keyring_service, "com.cmac.talk-to-cmac");
}

#[test]
fn test_load_config() {
    let config = AppConfig::default();
    assert_eq!(config.whisper.model, "whisper-1");
    assert_eq!(config.openwebui.model, "llama3.2");
    assert_eq!(config.elevenlabs.model_id, "eleven_monolingual_v1");
}

#[test]
fn test_clear_conversation() {
    let config = AppConfig::default();
    let api_keys = ApiKeys { whisper: None, openwebui: None, elevenlabs: None };
    let mut state = AppState::new(config, api_keys);

    state.add_message(MessageRole::User, "Test".to_string());
    assert_eq!(state.get_conversation().messages.len(), 1);

    state.clear_conversation();
    assert_eq!(state.get_conversation().messages.len(), 0);
}

#[test]
fn primary_environment_value_wins() {
    let r = resolve_api_key(
        "whisper",
        Some("real-key".to_string()),
        Some("alt-key".to_string()),
        Some("stored-key".to_string()),
    );
    assert_eq!(r.unwrap(), "real-key");
}

#[test]
fn placeholder_primary_falls_through_to_the_alternate() {
    let r = resolve_api_key(
        "whisper",
        Some("your-openai-api-key-here".to_string()),
        Some("alt-key".to_string()),
        Some("stored-key".to_string()),
    );
    assert_eq!(r.unwrap(), "alt-key");
}

#[test]
fn placeholder_fragments_reject_the_alternate_too() {
    let r = resolve_api_key(
        "whisper",
        Some("".to_string()),
        Some("your-secret".to_string()),
        Some("stored-key".to_string()),
    );
    assert_eq!(r.unwrap(), "stored-key");
    let r2 = resolve_api_key(
        "whisper",
        None,
        Some("something-api-key-here".to_string()),
        Some("stored-key".to_string()),
    );
    assert_eq!(r2.unwrap(), "stored-key");
}

#[test]
fn missing_everywhere_names_the_environment_variable() {
    let r = resolve_api_key("whisper", None, None, None);
    match r {
        Err(AppError::Config(ConfigError::MissingConfig(m))) => {
            assert_eq!(
                m,
                "API key not found for 'whisper'. Set WHISPER_API_KEY environment \
                 variable or store via app settings."
            );
        },
        _ => panic!("expected MissingConfig"),
    }
}

#[test]
fn missing_everywhere_consults_the_store() {
    // With both environment values empty-handed the manager asks the secret
    // store; whatever this machine's store answers, the outcome is a key or
    // one of the two configuration errors, never a panic.
    let manager = ConfigManager::new();
    let r = manager.get_api_key("talk-test-absent-service", None, None);
    match r {
        Ok(_) => {},
        Err(AppError::Config(ConfigError::MissingConfig(_))) => {},
        Err(AppError::Config(ConfigError::KeyringError(_))) => {},
        other => panic!("unexpected outcome: {:?}", other),
    }
}

#[test]
fn environment_variable_names_follow_the_rule() {
    assert_eq!(env_var_name("whisper"), "WHISPER_API_KEY");
    assert_eq!(env_var_name("talk-to-x"), "TALK_TO_X_API_KEY");
    assert_eq!(env_var_name("openwebui"), "OPENWEBUI_API_KEY");
}

#[test]
fn alternate_variables_are_fixed_per_service() {
    assert_eq!(alt_env_var_name("whisper").as_deref(), Some("OPENAI_API_KEY"));
    assert_eq!(alt_env_var_name("openwebui").as_deref(), Some("OPENWEBUI_API_KEY"));
    assert_eq!(alt_env_var_name("elevenlabs").as_deref(), Some("ELEVENLABS_API_KEY"));
    assert_eq!(alt_env_var_name("toaster"), None);
}

#[test]
fn text_helpers_behave() {
    assert_eq!(dec(502), "502");
    assert_eq!(dec(0), "0");
    assert_eq!(hex16(0), "0000000000000000");
    assert_eq!(hex16(0x1a2b), "0000000000001a2b");
    assert_eq!(trim_trailing("http://e///", '/'), "http://e");
    assert_eq!(trim_trailing("abc", '/'), "abc");
    assert_eq!(strip_suffix("a/text-to-speech", "/text-to-speech"), "a");
    assert_eq!(strip_suffix("abc", "/text-to-speech"), "abc");
    assert!(str_contains("your-key-here", "your-"));
    assert!(!str_contains("key", "your-"));
    assert!(str_contains("abc", ""));
}
