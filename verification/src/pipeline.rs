//! The pipeline orchestrator: the status transitions and conversation
//! updates around each service call, for the standalone operations and for
//! the composite transcribe → chat → synthesize flow, and the classification
//! of connectivity probes.
//!
//! Each function here is one decision point. The embedding program performs
//! the service call between two of them and hands the outcome in; a failure
//! at any step records the error status and stops, leaving whatever the
//! earlier steps appended to the conversation in place (deliberately: no
//! rollback).

use vstd::prelude::*;
use vstd::string::StringExecFns;

use crate::errors::AppError;
use crate::state::{
    spec_push_capped, spec_role_name, AppState, AppStatus, ConnectivityStatus, Message,
    MessageRole, ServiceStatus, service_status_eq, status_eq, connectivity_eq,
};

verus! {

/// The composite result of one full pipeline run.
#[derive(Debug)]
pub struct VoiceQueryResponse {
    /// What the audio said.
    pub transcription: String,
    /// What the model answered.
    pub llm_response: String,
    /// The answer as synthesized audio.
    pub audio_response: Vec<u8>,
}

/// The per-service outcome of one connectivity check.
#[derive(Debug)]
pub struct ConnectivityResponse {
    pub whisper: ServiceStatus,
    pub openwebui: ServiceStatus,
    pub elevenlabs: ServiceStatus,
}

/// A snapshot of the application state for the UI.
#[derive(Debug)]
pub struct AppStateResponse {
    pub status: AppStatus,
    pub message_count: usize,
    pub connectivity: ConnectivityStatus,
}

/// True when the status is an HTTP success.
pub fn http_success(status: u16) -> (r: bool)
    ensures
        r == (200 <= status < 300),
{
    200 <= status && status < 300
}

/// Classifies a connectivity probe's outcome: any response under 500 means
/// the service is up (a 401, 403 or 404 is an auth or resource issue, not an
/// outage), while a 5xx or any transport failure (None) means it is not.
pub fn probe_reachable(outcome: Option<u16>) -> (r: bool)
    ensures
        r == (outcome matches Some(status) && status < 500),
{
    match outcome {
        Option::Some(status) => status < 500,
        Option::None => false,
    }
}

/// Maps a probe's reachability result onto the service's stored status: up
/// is Connected, down is Disconnected naming the reason, and a failure to
/// even attempt the probe is Disconnected carrying that error's message.
pub fn service_status_of_probe(outcome: Result<bool, AppError>) -> (r: ServiceStatus)
    ensures
        outcome == Ok::<bool, AppError>(true) ==> r == ServiceStatus::Connected,
        outcome == Ok::<bool, AppError>(false) ==> (r matches ServiceStatus::Disconnected {
            reason,
        } && reason@ == "Service unreachable"@),
        outcome matches Err(e) ==> (r matches ServiceStatus::Disconnected { reason } && reason@
            == e.spec_message()),
{
    match outcome {
        Result::Ok(true) => ServiceStatus::Connected,
        Result::Ok(false) => ServiceStatus::Disconnected {
            reason: String::from_str("Service unreachable"),
        },
        Result::Err(e) => ServiceStatus::Disconnected { reason: e.message() },
    }
}

/// Records one service's probe outcome in the state and returns the stored
/// status.
pub fn record_probe_outcome(state: &mut AppState, service: &str, outcome: Result<
    bool,
    AppError,
>) -> (r: ServiceStatus)
    requires
        old(state).wf(),
    ensures
        final(state).wf(),
        outcome == Ok::<bool, AppError>(true) ==> r == ServiceStatus::Connected,
        outcome == Ok::<bool, AppError>(false) ==> (r matches ServiceStatus::Disconnected {
            reason,
        } && reason@ == "Service unreachable"@),
        outcome matches Err(e) ==> (r matches ServiceStatus::Disconnected { reason } && reason@
            == e.spec_message()),
        service@ == "whisper"@ ==> service_status_eq(final(state).connectivity.whisper, r),
        service@ != "whisper"@ ==> final(state).connectivity.whisper == old(
            state,
        ).connectivity.whisper,
        service@ == "openwebui"@ ==> service_status_eq(final(state).connectivity.openwebui, r),
        service@ != "openwebui"@ ==> final(state).connectivity.openwebui == old(
            state,
        ).connectivity.openwebui,
        service@ == "elevenlabs"@ ==> service_status_eq(final(state).connectivity.elevenlabs, r),
        service@ != "elevenlabs"@ ==> final(state).connectivity.elevenlabs == old(
            state,
        ).connectivity.elevenlabs,
        final(state).status == old(state).status,
        final(state).conversation == old(state).conversation,
        final(state).config == old(state).config,
        final(state).api_keys == old(state).api_keys,
{
    let st = service_status_of_probe(outcome);
    let kept = st.clone();
    state.update_service_status(service, st);
    kept
}

/// Composes the UI snapshot: the current status, how many messages the
/// conversation holds, and the connectivity of the three services.
pub fn get_app_state(state: &AppState) -> (r: AppStateResponse)
    ensures
        status_eq(r.status, state.status),
        r.message_count == state.conversation.messages@.len(),
        connectivity_eq(r.connectivity, state.connectivity),
{
    AppStateResponse {
        status: state.get_status(),
        message_count: state.conversation.messages.len(),
        connectivity: state.get_connectivity(),
    }
}

/// The conversation `newm` is `oldm` with one message appended under the cap
/// rule: the message has the given role, content and timestamp, and the
/// retained prefix is the tail of `oldm`, in order.
pub open spec fn appended_with(
    oldm: Seq<Message>,
    newm: Seq<Message>,
    max: nat,
    role: MessageRole,
    content: Seq<char>,
    ts: u64,
) -> bool {
    &&& newm.len() == (if oldm.len() + 1 <= max {
        (oldm.len() + 1) as int
    } else {
        max as int
    })
    &&& (newm.len() > 0 ==> newm.last().role == role && newm.last().content@ == content
        && newm.last().timestamp == ts)
    &&& (forall|i: int|
        0 <= i < newm.len() - 1 ==> newm[i] == oldm[i + (oldm.len() + 1 - newm.len())])
}

/// One capped push is one append in the sense of [`appended_with`].
proof fn lemma_push_capped_appended(oldm: Seq<Message>, m: Message, max: nat)
    requires
        oldm.len() <= max,
    ensures
        appended_with(oldm, spec_push_capped(oldm, m, max), max, m.role, m.content@, m.timestamp),
{
    let newm = spec_push_capped(oldm, m, max);
    if oldm.len() + 1 <= max {
        assert(newm == oldm.push(m));
    } else {
        assert(newm =~= oldm.push(m).skip(oldm.len() + 1 - max));
    }
}

/// Failure-mid-pipeline law. A successful transcription step appends the
/// user's message ([`pipeline_on_transcription`] ensures `appended_with`),
/// and a failing chat step leaves the conversation exactly as it found it
/// and records the error status ([`pipeline_on_chat`]'s failure clauses), so
/// a pipeline that fails at the chat step leaves exactly the transcribed
/// user message on an initially empty conversation — no assistant message,
/// and no composite result, since the speech step is never given one. Stated
/// for conversations whose cap admits at least one message: with a cap of
/// zero the trim rule retains nothing.
pub proof fn lemma_failure_mid_pipeline(
    before: Seq<Message>,
    after: Seq<Message>,
    max: nat,
    text: Seq<char>,
    ts: u64,
)
    requires
        max >= 1,
        before.len() == 0,
        appended_with(before, after, max, MessageRole::User, text, ts),
    ensures
        after.len() == 1,
        after[0].role == MessageRole::User,
        after[0].content@ == text,
{
    assert(after.last() == after[0]);
}

/// Starts a transcription operation: the status becomes Transcribing.
pub fn begin_transcribing(state: &mut AppState)
    requires
        old(state).wf(),
    ensures
        final(state).wf(),
        final(state).status is Transcribing,
        final(state).conversation == old(state).conversation,
        final(state).config == old(state).config,
        final(state).api_keys == old(state).api_keys,
        final(state).connectivity == old(state).connectivity,
{
    state.set_status(AppStatus::Transcribing);
}

/// Starts a synthesis operation: the status becomes Speaking.
pub fn begin_speaking(state: &mut AppState)
    requires
        old(state).wf(),
    ensures
        final(state).wf(),
        final(state).status is Speaking,
        final(state).conversation == old(state).conversation,
        final(state).config == old(state).config,
        final(state).api_keys == old(state).api_keys,
        final(state).connectivity == old(state).connectivity,
{
    state.set_status(AppStatus::Speaking);
}

/// Finishes a standalone transcription: a success returns the text and the
/// status goes back to Idle; a failure records the error status and surfaces
/// its message. The conversation is untouched either way.
pub fn process_audio_finish(state: &mut AppState, result: Result<String, AppError>) -> (r: Result<
    String,
    String,
>)
    requires
        old(state).wf(),
    ensures
        final(state).wf(),
        result matches Ok(t) ==> final(state).status is Idle && r == Ok::<String, String>(t),
        result matches Err(e) ==> (final(state).status matches AppStatus::Error { message }
            && message@ == e.spec_message() && (r matches Err(m) && m@ == e.spec_message())),
        final(state).conversation == old(state).conversation,
        final(state).config == old(state).config,
        final(state).api_keys == old(state).api_keys,
        final(state).connectivity == old(state).connectivity,
{
    match result {
        Result::Ok(t) => {
            state.set_status(AppStatus::Idle);
            Ok(t)
        },
        Result::Err(e) => {
            let m = e.message();
            state.set_status(AppStatus::Error { message: m.clone() });
            Err(m)
        },
    }
}

/// Finishes a standalone synthesis: a success returns the audio and the
/// status goes back to Idle; a failure records the error status and surfaces
/// its message. The conversation is untouched either way.
pub fn synthesize_speech_finish(state: &mut AppState, result: Result<Vec<u8>, AppError>) -> (r:
    Result<Vec<u8>, String>)
    requires
        old(state).wf(),
    ensures
        final(state).wf(),
        result matches Ok(audio) ==> final(state).status is Idle && r == Ok::<Vec<u8>, String>(
            audio,
        ),
        result matches Err(e) ==> (final(state).status matches AppStatus::Error { message }
            && message@ == e.spec_message() && (r matches Err(m) && m@ == e.spec_message())),
        final(state).conversation == old(state).conversation,
        final(state).config == old(state).config,
        final(state).api_keys == old(state).api_keys,
        final(state).connectivity == old(state).connectivity,
{
    match result {
        Result::Ok(audio) => {
            state.set_status(AppStatus::Idle);
            Ok(audio)
        },
        Result::Err(e) => {
            let m = e.message();
            state.set_status(AppStatus::Error { message: m.clone() });
            Err(m)
        },
    }
}

/// Starts a standalone chat operation: the status becomes Thinking, the user
/// message joins the conversation under the cap rule, and the full history —
/// that message included — comes back for the chat call.
pub fn send_message_begin(state: &mut AppState, message: String) -> (history: Vec<
    (String, String),
>)
    requires
        old(state).wf(),
    ensures
        final(state).wf(),
        final(state).status is Thinking,
        appended_with(
            old(state).conversation.messages@,
            final(state).conversation.messages@,
            old(state).conversation.max_messages as nat,
            MessageRole::User,
            message@,
            final(state).conversation.updated_at,
        ),
        history@.len() == final(state).conversation.messages@.len(),
        forall|i: int|
            #![all_triggers]
            0 <= i < history@.len() ==> history@[i].0@ == spec_role_name(
                final(state).conversation.messages@[i].role,
            ) && history@[i].1@ == final(state).conversation.messages@[i].content@,
        final(state).conversation.id == old(state).conversation.id,
        final(state).conversation.max_messages == old(state).conversation.max_messages,
        final(state).conversation.started_at == old(state).conversation.started_at,
        final(state).config == old(state).config,
        final(state).api_keys == old(state).api_keys,
        final(state).connectivity == old(state).connectivity,
{
    state.set_status(AppStatus::Thinking);
    let ghost gmsg = message;
    state.add_message(MessageRole::User, message);
    proof {
        lemma_push_capped_appended(
            old(state).conversation.messages@,
            Message {
                role: MessageRole::User,
                content: gmsg,
                timestamp: state.conversation.updated_at,
            },
            old(state).conversation.max_messages as nat,
        );
    }
    state.get_api_messages()
}

/// Finishes a standalone chat operation: a success appends the assistant's
/// reply under the cap rule and the status goes back to Idle; a failure
/// records the error status, surfaces its message, and leaves the
/// conversation as it was — the user message stays.
pub fn send_message_finish(state: &mut AppState, result: Result<String, AppError>) -> (r: Result<
    String,
    String,
>)
    requires
        old(state).wf(),
    ensures
        final(state).wf(),
        result matches Ok(t) ==> final(state).status is Idle && r == Ok::<String, String>(t)
            && appended_with(
            old(state).conversation.messages@,
            final(state).conversation.messages@,
            old(state).conversation.max_messages as nat,
            MessageRole::Assistant,
            t@,
            final(state).conversation.updated_at,
        ),
        result matches Err(e) ==> (final(state).status matches AppStatus::Error { message }
            && message@ == e.spec_message() && (r matches Err(m) && m@ == e.spec_message())
            && final(state).conversation == old(state).conversation),
        final(state).conversation.id == old(state).conversation.id,
        final(state).conversation.max_messages == old(state).conversation.max_messages,
        final(state).conversation.started_at == old(state).conversation.started_at,
        final(state).config == old(state).config,
        final(state).api_keys == old(state).api_keys,
        final(state).connectivity == old(state).connectivity,
{
    match result {
        Result::Ok(t) => {
            state.set_status(AppStatus::Idle);
            let kept = t.clone();
            let ghost gkept = kept;
            state.add_message(MessageRole::Assistant, kept);
            proof {
                lemma_push_capped_appended(
                    old(state).conversation.messages@,
                    Message {
                        role: MessageRole::Assistant,
                        content: gkept,
                        timestamp: state.conversation.updated_at,
                    },
                    old(state).conversation.max_messages as nat,
                );
            }
            Ok(t)
        },
        Result::Err(e) => {
            let m = e.message();
            state.set_status(AppStatus::Error { message: m.clone() });
            Err(m)
        },
    }
}

/// Starts the composite pipeline: the status becomes Transcribing.
pub fn pipeline_begin(state: &mut AppState)
    requires
        old(state).wf(),
    ensures
        final(state).wf(),
        final(state).status is Transcribing,
        final(state).conversation == old(state).conversation,
        final(state).config == old(state).config,
        final(state).api_keys == old(state).api_keys,
        final(state).connectivity == old(state).connectivity,
{
    state.set_status(AppStatus::Transcribing);
}

/// Handles the pipeline's transcription outcome. A success appends the text
/// as the user's message, moves the status to Thinking, and hands back the
/// text with the full history for the chat step; a failure records the error
/// status, surfaces its message, and stops the pipeline with the
/// conversation untouched.
pub fn pipeline_on_transcription(state: &mut AppState, result: Result<String, AppError>) -> (r:
    Result<(String, Vec<(String, String)>), String>)
    requires
        old(state).wf(),
    ensures
        final(state).wf(),
        result matches Ok(t) ==> final(state).status is Thinking && (r matches Ok(p) && p.0 == t
            && p.1@.len() == final(state).conversation.messages@.len() && (forall|i: int|
            #![all_triggers]
            0 <= i < p.1@.len() ==> p.1@[i].0@ == spec_role_name(
                final(state).conversation.messages@[i].role,
            ) && p.1@[i].1@ == final(state).conversation.messages@[i].content@)) && appended_with(
            old(state).conversation.messages@,
            final(state).conversation.messages@,
            old(state).conversation.max_messages as nat,
            MessageRole::User,
            t@,
            final(state).conversation.updated_at,
        ),
        result matches Err(e) ==> (final(state).status matches AppStatus::Error { message }
            && message@ == e.spec_message() && (r matches Err(m) && m@ == e.spec_message())
            && final(state).conversation == old(state).conversation),
        final(state).conversation.id == old(state).conversation.id,
        final(state).conversation.max_messages == old(state).conversation.max_messages,
        final(state).conversation.started_at == old(state).conversation.started_at,
        final(state).config == old(state).config,
        final(state).api_keys == old(state).api_keys,
        final(state).connectivity == old(state).connectivity,
{
    match result {
        Result::Ok(t) => {
            state.set_status(AppStatus::Thinking);
            let kept = t.clone();
            let ghost gkept = kept;
            state.add_message(MessageRole::User, kept);
            proof {
                lemma_push_capped_appended(
                    old(state).conversation.messages@,
                    Message {
                        role: MessageRole::User,
                        content: gkept,
                        timestamp: state.conversation.updated_at,
                    },
                    old(state).conversation.max_messages as nat,
                );
            }
            let history = state.get_api_messages();
            Ok((t, history))
        },
        Result::Err(e) => {
            let m = e.message();
            state.set_status(AppStatus::Error { message: m.clone() });
            Err(m)
        },
    }
}

/// Handles the pipeline's chat outcome. A success appends the reply as the
/// assistant's message, moves the status to Speaking, and hands the reply to
/// the synthesis step; a failure records the error status, surfaces its
/// message, and stops the pipeline — the user message appended by the
/// previous step stays, by design.
pub fn pipeline_on_chat(state: &mut AppState, result: Result<String, AppError>) -> (r: Result<
    String,
    String,
>)
    requires
        old(state).wf(),
    ensures
        final(state).wf(),
        result matches Ok(t) ==> final(state).status is Speaking && r == Ok::<String, String>(t)
            && appended_with(
            old(state).conversation.messages@,
            final(state).conversation.messages@,
            old(state).conversation.max_messages as nat,
            MessageRole::Assistant,
            t@,
            final(state).conversation.updated_at,
        ),
        result matches Err(e) ==> (final(state).status matches AppStatus::Error { message }
            && message@ == e.spec_message() && (r matches Err(m) && m@ == e.spec_message())
            && final(state).conversation == old(state).conversation),
        final(state).conversation.id == old(state).conversation.id,
        final(state).conversation.max_messages == old(state).conversation.max_messages,
        final(state).conversation.started_at == old(state).conversation.started_at,
        final(state).config == old(state).config,
        final(state).api_keys == old(state).api_keys,
        final(state).connectivity == old(state).connectivity,
{
    match result {
        Result::Ok(t) => {
            let kept = t.clone();
            let ghost gkept = kept;
            state.add_message(MessageRole::Assistant, kept);
            proof {
                lemma_push_capped_appended(
                    old(state).conversation.messages@,
                    Message {
                        role: MessageRole::Assistant,
                        content: gkept,
                        timestamp: state.conversation.updated_at,
                    },
                    old(state).conversation.max_messages as nat,
                );
            }
            state.set_status(AppStatus::Speaking);
            Ok(t)
        },
        Result::Err(e) => {
            let m = e.message();
            state.set_status(AppStatus::Error { message: m.clone() });
            Err(m)
        },
    }
}

/// Handles the pipeline's synthesis outcome. A success returns the composite
/// result and the status goes back to Idle; a failure records the error
/// status, surfaces its message, and stops — both messages appended by the
/// earlier steps stay, by design.
pub fn pipeline_on_speech(
    state: &mut AppState,
    transcription: String,
    llm_response: String,
    result: Result<Vec<u8>, AppError>,
) -> (r: Result<VoiceQueryResponse, String>)
    requires
        old(state).wf(),
    ensures
        final(state).wf(),
        result matches Ok(audio) ==> final(state).status is Idle && (r matches Ok(v)
            && v.transcription == transcription && v.llm_response == llm_response
            && v.audio_response == audio),
        result matches Err(e) ==> (final(state).status matches AppStatus::Error { message }
            && message@ == e.spec_message() && (r matches Err(m) && m@ == e.spec_message())),
        final(state).conversation == old(state).conversation,
        final(state).config == old(state).config,
        final(state).api_keys == old(state).api_keys,
        final(state).connectivity == old(state).connectivity,
{
    match result {
        Result::Ok(audio) => {
            state.set_status(AppStatus::Idle);
            Ok(VoiceQueryResponse { transcription, llm_response, audio_response: audio })
        },
        Result::Err(e) => {
            let m = e.message();
            state.set_status(AppStatus::Error { message: m.clone() });
            Err(m)
        },
    }
}

/// Applies one service's new credential to the state: an unknown service
/// name changes nothing and is reported.
pub fn apply_api_key(state: &mut AppState, service: &str, api_key: String) -> (r: Result<
    (),
    String,
>)
    requires
        old(state).wf(),
    ensures
        final(state).wf(),
        service@ == "whisper"@ ==> r is Ok && final(state).api_keys.whisper == Some(api_key),
        service@ == "openwebui"@ ==> r is Ok && final(state).api_keys.openwebui == Some(api_key),
        service@ == "elevenlabs"@ ==> r is Ok && final(state).api_keys.elevenlabs == Some(api_key),
        service@ != "whisper"@ ==> final(state).api_keys.whisper == old(state).api_keys.whisper,
        service@ != "openwebui"@ ==> final(state).api_keys.openwebui == old(
            state,
        ).api_keys.openwebui,
        service@ != "elevenlabs"@ ==> final(state).api_keys.elevenlabs == old(
            state,
        ).api_keys.elevenlabs,
        service@ != "whisper"@ && service@ != "openwebui"@ && service@ != "elevenlabs"@ ==> (r
            matches Err(m) && m@ == "Unknown service: "@ + service@),
        final(state).status == old(state).status,
        final(state).conversation == old(state).conversation,
        final(state).config == old(state).config,
        final(state).connectivity == old(state).connectivity,
{
    proof {
        reveal_strlit("whisper");
        reveal_strlit("openwebui");
        reveal_strlit("elevenlabs");
        assert("whisper"@.len() == 7);
        assert("openwebui"@.len() == 9);
        assert("elevenlabs"@.len() == 10);
    }
    if crate::text::str_eq(service, "whisper") {
        self_update_whisper(state, api_key);
        Ok(())
    } else if crate::text::str_eq(service, "openwebui") {
        self_update_openwebui(state, api_key);
        Ok(())
    } else if crate::text::str_eq(service, "elevenlabs") {
        self_update_elevenlabs(state, api_key);
        Ok(())
    } else {
        Err(String::from_str("Unknown service: ").concat(service))
    }
}

fn self_update_whisper(state: &mut AppState, api_key: String)
    requires
        old(state).wf(),
    ensures
        final(state).wf(),
        final(state).api_keys.whisper == Some(api_key),
        final(state).api_keys.openwebui == old(state).api_keys.openwebui,
        final(state).api_keys.elevenlabs == old(state).api_keys.elevenlabs,
        final(state).status == old(state).status,
        final(state).conversation == old(state).conversation,
        final(state).config == old(state).config,
        final(state).connectivity == old(state).connectivity,
{
    state.api_keys.whisper = Some(api_key);
}

fn self_update_openwebui(state: &mut AppState, api_key: String)
    requires
        old(state).wf(),
    ensures
        final(state).wf(),
        final(state).api_keys.openwebui == Some(api_key),
        final(state).api_keys.whisper == old(state).api_keys.whisper,
        final(state).api_keys.elevenlabs == old(state).api_keys.elevenlabs,
        final(state).status == old(state).status,
        final(state).conversation == old(state).conversation,
        final(state).config == old(state).config,
        final(state).connectivity == old(state).connectivity,
{
    state.api_keys.openwebui = Some(api_key);
}

fn self_update_elevenlabs(state: &mut AppState, api_key: String)
    requires
        old(state).wf(),
    ensures
        final(state).wf(),
        final(state).api_keys.elevenlabs == Some(api_key),
        final(state).api_keys.whisper == old(state).api_keys.whisper,
        final(state).api_keys.openwebui == old(state).api_keys.openwebui,
        final(state).status == old(state).status,
        final(state).conversation == old(state).conversation,
        final(state).config == old(state).config,
        final(state).connectivity == old(state).connectivity,
{
    state.api_keys.elevenlabs = Some(api_key);
}

/// Applies new voice settings to the configuration snapshot in the state,
/// leaving every other setting as it was.
pub fn apply_voice_settings(state: &mut AppState, settings: crate::config::VoiceSettings)
    requires
        old(state).wf(),
    ensures
        final(state).wf(),
        final(state).config.elevenlabs.voice_settings == settings,
        final(state).config.elevenlabs.endpoint == old(state).config.elevenlabs.endpoint,
        final(state).config.elevenlabs.voice_id == old(state).config.elevenlabs.voice_id,
        final(state).config.elevenlabs.model_id == old(state).config.elevenlabs.model_id,
        final(state).config.elevenlabs.timeout_secs == old(state).config.elevenlabs.timeout_secs,
        final(state).config.whisper == old(state).config.whisper,
        final(state).config.openwebui == old(state).config.openwebui,
        final(state).config.audio == old(state).config.audio,
        final(state).config.ui == old(state).config.ui,
        final(state).status == old(state).status,
        final(state).conversation == old(state).conversation,
        final(state).api_keys == old(state).api_keys,
        final(state).connectivity == old(state).connectivity,
{
    state.config.elevenlabs.voice_settings = settings;
}

} // verus!
