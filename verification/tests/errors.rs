//! Error rendering and conversion behaviour.

use talk_to_cmac::config::config_error_from_keyring;
use talk_to_cmac::errors::{
    classify_transport_failure, network_error_of, AppError, AudioError, ConfigError,
    ElevenLabsError, NetworkError, OpenWebUiError, WhisperError,
};

#[test]
fn test_error_display() {
    let error = AppError::WhisperApi(WhisperError::TranscriptionFailed("test".to_string()));
    assert!(error.message().contains("Whisper API error"));
}

#[test]
fn test_error_conversion() {
    let network_error = NetworkError::Timeout;
    let app_error: AppError = network_error.into();
    assert!(matches!(app_error, AppError::Network(_)));
}

#[test]
fn whisper_error_messages() {
    assert_eq!(
        WhisperError::TranscriptionFailed("boom".to_string()).message(),
        "Failed to transcribe audio: boom"
    );
    assert_eq!(
        WhisperError::AudioFileTooLarge.message(),
        "Audio file too large: maximum size is 25MB"
    );
    assert_eq!(WhisperError::EmptyResponse.message(), "Whisper API returned empty response");
    assert_eq!(WhisperError::Timeout.message(), "Whisper API timeout");
}

#[test]
fn openwebui_error_messages() {
    assert_eq!(
        OpenWebUiError::ModelNotFound("llama".to_string()).message(),
        "Model not found: llama"
    );
    assert_eq!(OpenWebUiError::ContextLimitExceeded.message(), "Context limit exceeded");
    assert_eq!(OpenWebUiError::StreamingNotSupported.message(), "Streaming not supported");
}

#[test]
fn elevenlabs_error_messages() {
    assert_eq!(
        ElevenLabsError::VoiceNotFound("v9".to_string()).message(),
        "Voice not found: v9"
    );
    assert_eq!(ElevenLabsError::QuotaExceeded.message(), "Quota exceeded");
    assert_eq!(ElevenLabsError::CharacterLimitExceeded.message(), "Character limit exceeded");
}

#[test]
fn config_and_audio_error_messages() {
    assert_eq!(
        ConfigError::MissingConfig("X".to_string()).message(),
        "Missing required configuration: X"
    );
    assert_eq!(ConfigError::FileNotFound.message(), "Configuration file not found");
    assert_eq!(AudioError::BufferOverflow.message(), "Audio buffer overflow");
}

#[test]
fn app_error_message_nests_the_layer() {
    let e = AppError::ElevenLabs(ElevenLabsError::Timeout);
    assert_eq!(e.message(), "ElevenLabs API error: ElevenLabs API timeout");
    let e = AppError::Config(ConfigError::ParseError("bad json".to_string()));
    assert_eq!(e.message(), "Configuration error: Configuration parse error: bad json");
    let e = AppError::State("locked".to_string());
    assert_eq!(e.message(), "State error: locked");
}

#[test]
fn reqwest_transport_errors_are_classified() {
    // Nothing listens on port 1 of the loopback interface, so the request
    // fails at connect time without leaving the machine.
    let runtime = tokio::runtime::Runtime::new().unwrap();
    let err = runtime
        .block_on(async {
            let client = reqwest::Client::builder()
                .timeout(std::time::Duration::from_secs(5))
                .build()
                .unwrap();
            client.get("http://127.0.0.1:1/").send().await
        })
        .unwrap_err();
    assert!(matches!(network_error_of(&err), NetworkError::ConnectionRefused));
}

#[test]
fn keyring_errors_become_config_errors() {
    let e = config_error_from_keyring(&keyring::Error::NoEntry);
    assert!(matches!(e, ConfigError::KeyringError(_)));
    let msg = e.message();
    assert!(msg.starts_with("Failed to access keyring: "));
}

#[test]
fn transport_failure_classification() {
    assert!(matches!(
        classify_transport_failure(true, true, true, "x".to_string()),
        NetworkError::Timeout
    ));
    assert!(matches!(
        classify_transport_failure(false, true, false, "x".to_string()),
        NetworkError::ConnectionRefused
    ));
    assert!(matches!(
        classify_transport_failure(false, false, true, "x".to_string()),
        NetworkError::TooManyRedirects
    ));
    match classify_transport_failure(false, false, false, "dns oops".to_string()) {
        NetworkError::RequestFailed(m) => assert_eq!(m, "dns oops"),
        _ => panic!("expected RequestFailed"),
    }
}
