//! State container behaviour: status, conversation cap, reset, connectivity.

use talk_to_cmac::config::{ApiKeys, AppConfig};
use talk_to_cmac::state::{AppState, AppStatus, MessageRole, ServiceStatus};

fn fresh_state() -> AppState {
    let config = AppConfig::default();
    let keys = ApiKeys { whisper: None, openwebui: None, elevenlabs: None };
    AppState::new(config, keys)
}

#[test]
fn test_app_state_creation() {
    let state = fresh_state();
    assert_eq!(state.get_status(), AppStatus::Idle);
}

#[test]
fn test_state_creation() {
    let state = fresh_state();
    assert_eq!(state.get_status(), AppStatus::Idle);
}

#[test]
fn test_status_change() {
    let mut state = fresh_state();
    state.set_status(AppStatus::Listening);
    assert_eq!(state.get_status(), AppStatus::Listening);
}

#[test]
fn test_message_addition() {
    let mut state = fresh_state();
    state.add_message(MessageRole::User, "Hello".to_string());
    let conversation = state.get_conversation();
    assert_eq!(conversation.messages.len(), 1);
    assert_eq!(conversation.messages[0].content, "Hello");
}

#[test]
fn test_conversation_clearing() {
    let mut state = fresh_state();
    state.add_message(MessageRole::User, "Hello".to_string());
    state.clear_conversation();
    let conversation = state.get_conversation();
    assert_eq!(conversation.messages.len(), 0);
}

#[test]
fn test_max_messages() {
    let mut state = fresh_state();

    for i in 0..25 {
        state.add_message(MessageRole::User, format!("Message {}", i));
    }

    let conversation = state.get_conversation();
    assert_eq!(conversation.messages.len(), 20);
}

#[test]
fn trim_keeps_the_last_messages_in_order() {
    let mut state = fresh_state();
    for i in 0..25 {
        state.add_message(MessageRole::User, format!("Message {}", i));
    }
    let conversation = state.get_conversation();
    for (k, m) in conversation.messages.iter().enumerate() {
        assert_eq!(m.content, format!("Message {}", k + 5));
    }
}

#[test]
fn clearing_issues_a_distinct_identifier() {
    let mut state = fresh_state();
    let before = state.get_conversation().id;
    state.clear_conversation();
    let after = state.get_conversation().id;
    assert_ne!(before, after);
    state.clear_conversation();
    let third = state.get_conversation().id;
    assert_ne!(after, third);
    assert_eq!(state.get_conversation().messages.len(), 0);
}

#[test]
fn api_messages_carry_role_names_and_content() {
    let mut state = fresh_state();
    state.add_message(MessageRole::User, "hi".to_string());
    state.add_message(MessageRole::Assistant, "hello".to_string());
    state.add_message(MessageRole::System, "sys".to_string());
    let msgs = state.get_api_messages();
    assert_eq!(msgs.len(), 3);
    assert_eq!(msgs[0], ("user".to_string(), "hi".to_string()));
    assert_eq!(msgs[1], ("assistant".to_string(), "hello".to_string()));
    assert_eq!(msgs[2], ("system".to_string(), "sys".to_string()));
}

#[test]
fn service_status_updates_are_independent() {
    let mut state = fresh_state();
    assert!(!state.all_services_connected());
    state.update_service_status("whisper", ServiceStatus::Connected);
    state.update_service_status("openwebui", ServiceStatus::Connected);
    assert!(!state.all_services_connected());
    state.update_service_status("elevenlabs", ServiceStatus::Connected);
    assert!(state.all_services_connected());
    state.update_service_status(
        "openwebui",
        ServiceStatus::Disconnected { reason: "down".to_string() },
    );
    assert!(!state.all_services_connected());
    let conn = state.get_connectivity();
    assert!(matches!(conn.whisper, ServiceStatus::Connected));
    assert!(matches!(conn.openwebui, ServiceStatus::Disconnected { .. }));
}

#[test]
fn unknown_service_changes_nothing() {
    let mut state = fresh_state();
    state.update_service_status("whisper", ServiceStatus::Connected);
    state.update_service_status("printer", ServiceStatus::Connected);
    let conn = state.get_connectivity();
    assert!(matches!(conn.whisper, ServiceStatus::Connected));
    assert!(matches!(conn.openwebui, ServiceStatus::Unknown));
    assert!(matches!(conn.elevenlabs, ServiceStatus::Unknown));
}

#[test]
fn config_and_keys_round_trip() {
    let mut state = fresh_state();
    let mut config = state.get_config();
    config.openwebui.model = "mixtral".to_string();
    state.update_config(config);
    assert_eq!(state.get_config().openwebui.model, "mixtral");

    let keys = ApiKeys {
        whisper: Some("wk".to_string()),
        openwebui: None,
        elevenlabs: Some("ek".to_string()),
    };
    state.update_api_keys(keys);
    let back = state.get_api_keys();
    assert_eq!(back.whisper.as_deref(), Some("wk"));
    assert_eq!(back.openwebui, None);
    assert_eq!(back.elevenlabs.as_deref(), Some("ek"));
}
