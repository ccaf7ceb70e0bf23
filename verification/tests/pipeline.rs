//! Pipeline scenarios, retry behaviour and connectivity classification.

use talk_to_cmac::config::{ApiKeys, AppConfig, VoiceSettings};
use talk_to_cmac::errors::{AppError, OpenWebUiError, WhisperError};
use talk_to_cmac::pipeline::{
    apply_api_key, apply_voice_settings, begin_speaking, begin_transcribing, get_app_state,
    http_success, pipeline_begin, pipeline_on_chat, pipeline_on_speech, pipeline_on_transcription,
    probe_reachable, process_audio_finish, record_probe_outcome, send_message_begin,
    send_message_finish, service_status_of_probe, synthesize_speech_finish,
};
use talk_to_cmac::retry::{RetryDecision, RetryState};
use talk_to_cmac::state::{AppState, AppStatus, MessageRole, ServiceStatus};

fn fresh_state() -> AppState {
    let config = AppConfig::default();
    let keys = ApiKeys { whisper: None, openwebui: None, elevenlabs: None };
    AppState::new(config, keys)
}

/// A client that fails its first attempts and succeeds on the given one.
fn run_retries(fail_before: usize, outcomes_seen: &mut usize) -> Result<&'static str, AppError> {
    let mut retry = RetryState::new();
    loop {
        *outcomes_seen += 1;
        let attempt_result: Result<&'static str, AppError> = if *outcomes_seen > fail_before {
            Ok("done")
        } else {
            Err(AppError::WhisperApi(WhisperError::Timeout))
        };
        match retry.step(attempt_result) {
            RetryDecision::Done(r) => return r,
            RetryDecision::RetryAfterSecs(d) => {
                // The backoff doubles: 1s after the first failure, 2s after
                // the second.
                assert_eq!(d, 1u64 << (*outcomes_seen - 1));
            },
        }
    }
}

#[test]
fn retry_succeeds_on_the_third_attempt() {
    let mut attempts = 0;
    let r = run_retries(2, &mut attempts);
    assert_eq!(r.unwrap(), "done");
    assert_eq!(attempts, 3);
}

#[test]
fn retry_surfaces_the_final_error_after_three_attempts() {
    let mut retry = RetryState::new();
    let mut attempts = 0;
    let result = loop {
        attempts += 1;
        let e = if attempts == 3 {
            AppError::WhisperApi(WhisperError::RateLimitExceeded)
        } else {
            AppError::WhisperApi(WhisperError::Timeout)
        };
        match retry.step::<String>(Err(e)) {
            RetryDecision::Done(r) => break r,
            RetryDecision::RetryAfterSecs(_) => continue,
        }
    };
    assert_eq!(attempts, 3);
    // The surfaced error is the final attempt's error, not an earlier one.
    assert!(matches!(
        result,
        Err(AppError::WhisperApi(WhisperError::RateLimitExceeded))
    ));
}

#[test]
fn full_pipeline_scenario() {
    let mut state = fresh_state();
    pipeline_begin(&mut state);
    assert_eq!(state.get_status(), AppStatus::Transcribing);

    // The transcription client returned "hello" for the audio bytes "X".
    let (transcription, history) =
        pipeline_on_transcription(&mut state, Ok("hello".to_string())).unwrap();
    assert_eq!(transcription, "hello");
    assert_eq!(history, vec![("user".to_string(), "hello".to_string())]);
    assert_eq!(state.get_status(), AppStatus::Thinking);

    // The chat client, given that history, returned "hi there".
    let reply = pipeline_on_chat(&mut state, Ok("hi there".to_string())).unwrap();
    assert_eq!(reply, "hi there");
    assert_eq!(state.get_status(), AppStatus::Speaking);

    // The speech client returned the bytes [1, 2, 3].
    let out = pipeline_on_speech(&mut state, transcription, reply, Ok(vec![1u8, 2, 3])).unwrap();
    assert_eq!(out.transcription, "hello");
    assert_eq!(out.llm_response, "hi there");
    assert_eq!(out.audio_response, vec![1u8, 2, 3]);
    assert_eq!(state.get_status(), AppStatus::Idle);

    let conv = state.get_conversation();
    assert_eq!(conv.messages.len(), 2);
    assert_eq!(conv.messages[0].role, MessageRole::User);
    assert_eq!(conv.messages[0].content, "hello");
    assert_eq!(conv.messages[1].role, MessageRole::Assistant);
    assert_eq!(conv.messages[1].content, "hi there");
}

#[test]
fn failure_mid_pipeline_keeps_the_user_message() {
    let mut state = fresh_state();
    pipeline_begin(&mut state);
    let (_t, _history) =
        pipeline_on_transcription(&mut state, Ok("hello".to_string())).unwrap();

    // The chat step fails permanently: every attempt of the retry budget
    // fails, and the surfaced error feeds the pipeline. The speech step is
    // never reached.
    let mut retry = RetryState::new();
    let mut attempts = 0;
    let surfaced: Result<String, AppError> = loop {
        attempts += 1;
        let e = AppError::OpenWebUi(OpenWebUiError::AuthenticationFailed);
        match retry.step::<String>(Err(e)) {
            RetryDecision::Done(r) => break r,
            RetryDecision::RetryAfterSecs(_) => continue,
        }
    };
    assert_eq!(attempts, 3);
    let r = pipeline_on_chat(&mut state, surfaced);
    assert!(r.is_err());
    assert_eq!(
        r.unwrap_err(),
        "OpenWebUI API error: OpenWebUI API authentication failed"
    );
    match state.get_status() {
        AppStatus::Error { message } => {
            assert_eq!(message, "OpenWebUI API error: OpenWebUI API authentication failed")
        },
        other => panic!("expected an error status, got {:?}", other),
    }

    // No rollback: the conversation holds exactly the user message.
    let conv = state.get_conversation();
    assert_eq!(conv.messages.len(), 1);
    assert_eq!(conv.messages[0].role, MessageRole::User);
    assert_eq!(conv.messages[0].content, "hello");
}

#[test]
fn standalone_transcription_updates_the_status() {
    let mut state = fresh_state();
    begin_transcribing(&mut state);
    assert_eq!(state.get_status(), AppStatus::Transcribing);
    let r = process_audio_finish(&mut state, Ok("words".to_string()));
    assert_eq!(r.unwrap(), "words");
    assert_eq!(state.get_status(), AppStatus::Idle);
    assert_eq!(state.get_conversation().messages.len(), 0);

    begin_transcribing(&mut state);
    let r2 = process_audio_finish(
        &mut state,
        Err(AppError::WhisperApi(WhisperError::AudioFileTooLarge)),
    );
    assert!(r2.is_err());
    assert!(matches!(state.get_status(), AppStatus::Error { .. }));
}

#[test]
fn standalone_chat_appends_both_messages() {
    let mut state = fresh_state();
    let history = send_message_begin(&mut state, "ping".to_string());
    assert_eq!(state.get_status(), AppStatus::Thinking);
    assert_eq!(history, vec![("user".to_string(), "ping".to_string())]);
    let r = send_message_finish(&mut state, Ok("pong".to_string()));
    assert_eq!(r.unwrap(), "pong");
    assert_eq!(state.get_status(), AppStatus::Idle);
    let conv = state.get_conversation();
    assert_eq!(conv.messages.len(), 2);
    assert_eq!(conv.messages[1].role, MessageRole::Assistant);
    assert_eq!(conv.messages[1].content, "pong");
}

#[test]
fn standalone_synthesis_updates_the_status() {
    let mut state = fresh_state();
    begin_speaking(&mut state);
    assert_eq!(state.get_status(), AppStatus::Speaking);
    let r = synthesize_speech_finish(&mut state, Ok(vec![9u8]));
    assert_eq!(r.unwrap(), vec![9u8]);
    assert_eq!(state.get_status(), AppStatus::Idle);
}

#[test]
fn probe_classification_counts_any_response_under_500_as_up() {
    assert!(probe_reachable(Some(200)));
    assert!(probe_reachable(Some(401)));
    assert!(probe_reachable(Some(403)));
    // A 404 still means the server answered: the service is up.
    assert!(probe_reachable(Some(404)));
    assert!(!probe_reachable(Some(500)));
    assert!(!probe_reachable(Some(503)));
    // A transport-level failure means it is down.
    assert!(!probe_reachable(None));
}

#[test]
fn probe_outcomes_map_to_service_statuses() {
    assert!(matches!(service_status_of_probe(Ok(true)), ServiceStatus::Connected));
    match service_status_of_probe(Ok(false)) {
        ServiceStatus::Disconnected { reason } => assert_eq!(reason, "Service unreachable"),
        _ => panic!("expected Disconnected"),
    }
    match service_status_of_probe(Err(AppError::Generic("no transport".to_string()))) {
        ServiceStatus::Disconnected { reason } => {
            assert_eq!(reason, "Application error: no transport")
        },
        _ => panic!("expected Disconnected"),
    }
}

#[test]
fn recording_probe_outcomes_updates_the_state() {
    let mut state = fresh_state();
    let up = record_probe_outcome(&mut state, "whisper", Ok(probe_reachable(Some(404))));
    assert!(matches!(up, ServiceStatus::Connected));
    let down = record_probe_outcome(&mut state, "openwebui", Ok(probe_reachable(None)));
    assert!(matches!(down, ServiceStatus::Disconnected { .. }));
    let conn = state.get_connectivity();
    assert!(matches!(conn.whisper, ServiceStatus::Connected));
    assert!(matches!(conn.openwebui, ServiceStatus::Disconnected { .. }));
    assert!(matches!(conn.elevenlabs, ServiceStatus::Unknown));
}

#[test]
fn app_state_snapshot_reports_the_message_count() {
    let mut state = fresh_state();
    state.add_message(MessageRole::User, "one".to_string());
    state.add_message(MessageRole::Assistant, "two".to_string());
    let snap = get_app_state(&state);
    assert_eq!(snap.status, AppStatus::Idle);
    assert_eq!(snap.message_count, 2);
}

#[test]
fn applying_api_keys_knows_the_services() {
    let mut state = fresh_state();
    assert!(apply_api_key(&mut state, "whisper", "wk".to_string()).is_ok());
    assert!(apply_api_key(&mut state, "elevenlabs", "ek".to_string()).is_ok());
    let keys = state.get_api_keys();
    assert_eq!(keys.whisper.as_deref(), Some("wk"));
    assert_eq!(keys.openwebui, None);
    assert_eq!(keys.elevenlabs.as_deref(), Some("ek"));

    let r = apply_api_key(&mut state, "toaster", "tk".to_string());
    assert_eq!(r.unwrap_err(), "Unknown service: toaster");
}

#[test]
fn applying_voice_settings_touches_only_them() {
    let mut state = fresh_state();
    let settings = VoiceSettings {
        stability_milli: 900,
        similarity_boost_milli: 100,
        style_milli: None,
        use_speaker_boost: false,
    };
    apply_voice_settings(&mut state, settings);
    let config = state.get_config();
    assert_eq!(config.elevenlabs.voice_settings.stability_milli, 900);
    assert_eq!(config.elevenlabs.voice_settings.style_milli, None);
    assert_eq!(config.elevenlabs.voice_id, "21m00Tcm4TlvDq8ikWAM");
    assert_eq!(config.openwebui.model, "llama3.2");
}

#[test]
fn http_success_is_the_2xx_range() {
    assert!(!http_success(199));
    assert!(http_success(200));
    assert!(http_success(299));
    assert!(!http_success(300));
    assert!(!http_success(404));
}
