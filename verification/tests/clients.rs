//! Client validation, request construction and response classification.

use talk_to_cmac::config::{ElevenLabsConfig, OpenWebUiConfig, VoiceSettings, WhisperConfig};
use talk_to_cmac::elevenlabs::{
    speech_classify_error, speech_transport_error, voices_classify_response, ElevenLabsClient,
};
use talk_to_cmac::errors::{AppError, ElevenLabsError, OpenWebUiError, WhisperError};
use talk_to_cmac::openwebui::{
    chat_classify_response, chat_transport_error, extract_reply, parse_chat_completion,
    OpenWebUiClient,
};
use talk_to_cmac::whisper::{
    parse_transcription, transcription_of_text, whisper_classify_response,
    whisper_transport_error, WhisperClient,
};

fn whisper_config() -> WhisperConfig {
    WhisperConfig {
        endpoint: "https://api.openai.com/v1/audio/transcriptions".to_string(),
        model: "whisper-1".to_string(),
        language: Some("en".to_string()),
        temperature_milli: 0,
        timeout_secs: 30,
    }
}

fn openwebui_config(max_context_length: usize) -> OpenWebUiConfig {
    OpenWebUiConfig {
        endpoint: "http://localhost:3000/api/chat".to_string(),
        model: "llama3.2".to_string(),
        max_context_length,
        temperature_milli: 700,
        max_tokens: Some(1024),
        stream: false,
        timeout_secs: 60,
    }
}

fn elevenlabs_config() -> ElevenLabsConfig {
    ElevenLabsConfig {
        endpoint: "https://api.elevenlabs.io/v1/text-to-speech".to_string(),
        voice_id: "21m00Tcm4TlvDq8ikWAM".to_string(),
        model_id: "eleven_monolingual_v1".to_string(),
        voice_settings: VoiceSettings {
            stability_milli: 500,
            similarity_boost_milli: 750,
            style_milli: Some(0),
            use_speaker_boost: true,
        },
        timeout_secs: 30,
    }
}

#[test]
fn test_whisper_client_creation() {
    let client = WhisperClient::new(whisper_config(), None);
    assert_eq!(client.config.model, "whisper-1");
    assert_eq!(client.config.timeout_secs, 30);
}

#[test]
fn test_audio_size_validation() {
    let client = WhisperClient::new(whisper_config(), None);
    let large_audio = vec![0u8; 26 * 1024 * 1024];
    let result = client.transcribe_request(large_audio, "test.wav");
    assert!(result.is_err());
    assert!(matches!(
        result,
        Err(AppError::WhisperApi(WhisperError::AudioFileTooLarge))
    ));
}

#[test]
fn small_audio_builds_the_upload() {
    let client = WhisperClient::new(whisper_config(), Some("key".to_string()));
    let q = client.transcribe_request(vec![1, 2, 3], "clip.wav").unwrap();
    assert_eq!(q.endpoint, "https://api.openai.com/v1/audio/transcriptions");
    assert_eq!(q.model, "whisper-1");
    assert_eq!(q.language.as_deref(), Some("en"));
    assert_eq!(q.api_key.as_deref(), Some("key"));
    assert_eq!(q.audio_data, vec![1, 2, 3]);
    assert_eq!(q.filename, "clip.wav");
}

#[test]
fn audio_at_the_limit_is_accepted() {
    let client = WhisperClient::new(whisper_config(), None);
    let at_limit = vec![0u8; 25 * 1024 * 1024];
    assert!(client.transcribe_request(at_limit, "test.wav").is_ok());
}

#[test]
fn empty_history_and_exact_limit_are_accepted() {
    let client = OpenWebUiClient::new(openwebui_config(100), None);
    let q = client.chat_request(vec![]).unwrap();
    assert_eq!(q.messages.len(), 0);
    let exact = client.chat_request(vec![("user".to_string(), "a".repeat(100))]);
    assert!(exact.is_ok());
}

#[test]
fn speech_text_at_the_limit_is_accepted() {
    let client = ElevenLabsClient::new(elevenlabs_config(), Some("k".to_string()));
    assert!(client.speech_request(&"a".repeat(5000)).is_ok());
    assert!(client.speech_request(&"a".repeat(5001)).is_err());
}

#[test]
fn whisper_success_body_yields_the_text() {
    let r = whisper_classify_response(200, "{\"text\": \"hello\", \"language\": \"en\"}");
    assert_eq!(r.unwrap(), "hello");
}

#[test]
fn whisper_blank_text_is_an_empty_response() {
    let r = whisper_classify_response(200, "{\"text\": \"  \\n\"}");
    assert!(matches!(r, Err(AppError::WhisperApi(WhisperError::EmptyResponse))));
    let r2 = transcription_of_text(Some("\t ".to_string()));
    assert!(matches!(r2, Err(AppError::WhisperApi(WhisperError::EmptyResponse))));
    // Unicode whitespace counts as blank too: no-break space, em space,
    // line tabulation.
    let r3 = transcription_of_text(Some("\u{a0}\u{2003}\u{b}".to_string()));
    assert!(matches!(r3, Err(AppError::WhisperApi(WhisperError::EmptyResponse))));
    let r4 = whisper_classify_response(200, "{\"text\": \"\\u00a0\"}");
    assert!(matches!(r4, Err(AppError::WhisperApi(WhisperError::EmptyResponse))));
}

#[test]
fn whisper_error_statuses_are_classified() {
    assert!(matches!(
        whisper_classify_response(401, "{}"),
        Err(AppError::WhisperApi(WhisperError::AuthenticationFailed))
    ));
    assert!(matches!(
        whisper_classify_response(429, "{}"),
        Err(AppError::WhisperApi(WhisperError::RateLimitExceeded))
    ));
    match whisper_classify_response(500, "{\"error\": {\"message\": \"server oops\"}}") {
        Err(AppError::WhisperApi(WhisperError::TranscriptionFailed(m))) => {
            assert_eq!(m, "server oops")
        },
        _ => panic!("expected TranscriptionFailed"),
    }
    match whisper_classify_response(502, "not json") {
        Err(AppError::WhisperApi(WhisperError::TranscriptionFailed(m))) => {
            assert_eq!(m, "HTTP 502")
        },
        _ => panic!("expected TranscriptionFailed"),
    }
}

#[test]
fn whisper_transport_failures_are_classified() {
    assert!(matches!(whisper_transport_error(true, "x".to_string()), WhisperError::Timeout));
    match whisper_transport_error(false, "conn reset".to_string()) {
        WhisperError::TranscriptionFailed(m) => assert_eq!(m, "conn reset"),
        _ => panic!("expected TranscriptionFailed"),
    }
}

#[test]
fn parse_transcription_reads_text_and_language() {
    let t = parse_transcription("{\"text\": \"hi\", \"language\": \"en\"}").unwrap();
    assert_eq!(t.text, "hi");
    assert_eq!(t.language.as_deref(), Some("en"));
    assert!(parse_transcription("{\"no_text\": 1}").is_none());
}

#[test]
fn test_openwebui_client_creation() {
    let client = OpenWebUiClient::new(openwebui_config(4096), None);
    assert_eq!(client.config.max_context_length, 4096);
    assert_eq!(client.config.max_tokens, Some(1024));
    assert_eq!(client.config.timeout_secs, 60);
    assert_eq!(client.get_model(), "llama3.2");
}

#[test]
fn test_context_length_validation() {
    let client = OpenWebUiClient::new(openwebui_config(100), None);
    let messages = vec![("user".to_string(), "a".repeat(200))];
    let result = client.chat_request(messages);
    assert!(result.is_err());
    assert!(matches!(
        result,
        Err(AppError::OpenWebUi(OpenWebUiError::ContextLimitExceeded))
    ));
}

#[test]
fn chat_request_maps_the_history() {
    let client = OpenWebUiClient::new(openwebui_config(4096), Some("k".to_string()));
    let q = client
        .chat_request(vec![
            ("user".to_string(), "hi".to_string()),
            ("assistant".to_string(), "hello".to_string()),
        ])
        .unwrap();
    assert_eq!(q.model, "llama3.2");
    assert_eq!(q.messages.len(), 2);
    assert_eq!(q.messages[0].role, "user");
    assert_eq!(q.messages[0].content, "hi");
    assert_eq!(q.messages[1].role, "assistant");
    assert_eq!(q.messages[1].content, "hello");
    assert!(!q.stream);
}

#[test]
fn chat_probe_request_is_minimal() {
    let client = OpenWebUiClient::new(openwebui_config(4096), Some("k".to_string()));
    let q = client.probe_request();
    assert_eq!(q.endpoint, "http://localhost:3000/api/chat");
    assert_eq!(q.api_key.as_deref(), Some("k"));
    assert_eq!(q.model, "llama3.2");
    assert_eq!(q.messages.len(), 1);
    assert_eq!(q.messages[0].role, "user");
    assert_eq!(q.messages[0].content, "test");
    assert_eq!(q.temperature_milli, 100);
    assert_eq!(q.max_tokens, Some(5));
    assert!(!q.stream);
    assert_eq!(q.timeout_secs, 5);
}

#[test]
fn chat_success_body_yields_the_reply() {
    let body = "{\"id\": \"c1\", \"model\": \"llama3.2\", \"choices\": [{\"index\": 0, \
                \"message\": {\"role\": \"assistant\", \"content\": \"hi there\"}, \
                \"finish_reason\": \"stop\"}], \"usage\": {\"prompt_tokens\": 3, \
                \"completion_tokens\": 2, \"total_tokens\": 5}}";
    let r = chat_classify_response(200, false, "llama3.2", body);
    assert_eq!(r.unwrap(), "hi there");

    let resp = parse_chat_completion(body).unwrap();
    assert_eq!(resp.id.as_deref(), Some("c1"));
    assert_eq!(resp.choices.len(), 1);
    assert_eq!(resp.usage.unwrap().total_tokens, 5);
}

#[test]
fn chat_without_choices_is_a_parse_failure() {
    let resp = parse_chat_completion("{\"choices\": []}").unwrap();
    match extract_reply(&resp) {
        Err(AppError::OpenWebUi(OpenWebUiError::ResponseParseFailed(m))) => {
            assert_eq!(m, "No choices in response")
        },
        _ => panic!("expected ResponseParseFailed"),
    }
}

#[test]
fn chat_streaming_is_refused() {
    let r = chat_classify_response(200, true, "llama3.2", "{}");
    assert!(matches!(
        r,
        Err(AppError::OpenWebUi(OpenWebUiError::StreamingNotSupported))
    ));
}

#[test]
fn chat_error_statuses_are_classified() {
    assert!(matches!(
        chat_classify_response(403, false, "llama3.2", "{}"),
        Err(AppError::OpenWebUi(OpenWebUiError::AuthenticationFailed))
    ));
    match chat_classify_response(404, false, "llama3.2", "{}") {
        Err(AppError::OpenWebUi(OpenWebUiError::ModelNotFound(m))) => assert_eq!(m, "llama3.2"),
        _ => panic!("expected ModelNotFound"),
    }
    assert!(matches!(
        chat_classify_response(429, false, "llama3.2", "{}"),
        Err(AppError::OpenWebUi(OpenWebUiError::RateLimitExceeded))
    ));
    match chat_classify_response(500, false, "llama3.2", "plain text") {
        Err(AppError::OpenWebUi(OpenWebUiError::MessageSendFailed(m))) => {
            assert_eq!(m, "HTTP 500")
        },
        _ => panic!("expected MessageSendFailed"),
    }
    assert!(matches!(
        chat_transport_error(true, "x".to_string()),
        OpenWebUiError::Timeout
    ));
}

#[test]
fn test_elevenlabs_client_creation() {
    let client = ElevenLabsClient::new(elevenlabs_config(), None);
    assert_eq!(client.get_voice_id(), "21m00Tcm4TlvDq8ikWAM");
    assert_eq!(client.config.model_id, "eleven_monolingual_v1");
    assert_eq!(client.config.timeout_secs, 30);
}

#[test]
fn test_character_limit_validation() {
    let client = ElevenLabsClient::new(elevenlabs_config(), Some("test_key".to_string()));
    let long_text = "a".repeat(6000);
    let result = client.speech_request(&long_text);
    assert!(result.is_err());
    assert!(matches!(
        result,
        Err(AppError::ElevenLabs(ElevenLabsError::CharacterLimitExceeded))
    ));
}

#[test]
fn speech_request_builds_the_voice_url() {
    let client = ElevenLabsClient::new(elevenlabs_config(), Some("test_key".to_string()));
    let q = client.speech_request("hi there").unwrap();
    assert_eq!(
        q.endpoint,
        "https://api.elevenlabs.io/v1/text-to-speech/21m00Tcm4TlvDq8ikWAM"
    );
    assert_eq!(q.text, "hi there");
    assert_eq!(q.api_key.as_deref(), Some("test_key"));
    assert!(q.check_auth().is_ok());

    let keyless = ElevenLabsClient::new(elevenlabs_config(), None);
    let q2 = keyless.speech_request("hi").unwrap();
    assert!(matches!(
        q2.check_auth(),
        Err(AppError::ElevenLabs(ElevenLabsError::AuthenticationFailed))
    ));
}

#[test]
fn voices_request_derives_the_listing_url() {
    let client = ElevenLabsClient::new(elevenlabs_config(), Some("k".to_string()));
    let q = client.voices_request().unwrap();
    assert_eq!(q.endpoint, "https://api.elevenlabs.io/v1/voices");
    let keyless = ElevenLabsClient::new(elevenlabs_config(), None);
    assert!(matches!(
        keyless.voices_request(),
        Err(AppError::ElevenLabs(ElevenLabsError::AuthenticationFailed))
    ));
}

#[test]
fn speech_error_statuses_are_classified() {
    assert!(matches!(
        speech_classify_error(401, "v", "{}"),
        AppError::ElevenLabs(ElevenLabsError::AuthenticationFailed)
    ));
    match speech_classify_error(404, "v9", "{}") {
        AppError::ElevenLabs(ElevenLabsError::VoiceNotFound(m)) => assert_eq!(m, "v9"),
        _ => panic!("expected VoiceNotFound"),
    }
    assert!(matches!(
        speech_classify_error(402, "v", "{}"),
        AppError::ElevenLabs(ElevenLabsError::QuotaExceeded)
    ));
    assert!(matches!(
        speech_classify_error(429, "v", "{}"),
        AppError::ElevenLabs(ElevenLabsError::RateLimitExceeded)
    ));
    match speech_classify_error(500, "v", "{\"detail\": \"busy\"}") {
        AppError::ElevenLabs(ElevenLabsError::SynthesisFailed(m)) => assert_eq!(m, "busy"),
        _ => panic!("expected SynthesisFailed"),
    }
    match speech_classify_error(500, "v", "{\"detail\": {\"message\": \"deep busy\"}}") {
        AppError::ElevenLabs(ElevenLabsError::SynthesisFailed(m)) => assert_eq!(m, "deep busy"),
        _ => panic!("expected SynthesisFailed"),
    }
    match speech_classify_error(503, "v", "oops") {
        AppError::ElevenLabs(ElevenLabsError::SynthesisFailed(m)) => {
            assert_eq!(m, "HTTP 503: oops")
        },
        _ => panic!("expected SynthesisFailed"),
    }
    assert!(matches!(
        speech_transport_error(true, "x".to_string()),
        ElevenLabsError::Timeout
    ));
}

#[test]
fn voices_listing_is_parsed_or_classified() {
    let body = "{\"voices\": [{\"voice_id\": \"v1\", \"name\": \"Rachel\", \
                \"category\": \"premade\", \"labels\": {\"accent\": \"american\"}}, \
                {\"voice_id\": \"v2\", \"name\": \"Sam\"}]}";
    let voices = voices_classify_response(200, body).unwrap();
    assert_eq!(voices.len(), 2);
    assert_eq!(voices[0].voice_id, "v1");
    assert_eq!(voices[0].name, "Rachel");
    assert_eq!(voices[0].category.as_deref(), Some("premade"));
    assert_eq!(
        voices[0].labels.as_ref().unwrap()[0],
        ("accent".to_string(), "american".to_string())
    );
    assert_eq!(voices[1].labels, None);

    match voices_classify_response(500, "{}") {
        Err(AppError::ElevenLabs(ElevenLabsError::SynthesisFailed(m))) => {
            assert_eq!(m, "Failed to fetch voices: HTTP 500")
        },
        _ => panic!("expected SynthesisFailed"),
    }
}
