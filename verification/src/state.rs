//! Application state: conversation context, current processing status and
//! service connectivity, with verified capped-append and reset behaviour.
//!
//! The container itself is single-threaded; the embedding program wraps one
//! value of [`AppState`] in its own mutual-exclusion primitive and keeps each
//! critical section to a single method call.

use vstd::prelude::*;
use vstd::string::StringExecFns;

use crate::config::{api_keys_eq, config_eq, ApiKeys, AppConfig};
use crate::text::{hex16, lemma_hex16_injective, spec_hex16, str_eq};

verus! {

/// Application status enum.
#[derive(Debug, PartialEq)]
pub enum AppStatus {
    /// Application is idle.
    Idle,
    /// Recording audio from the microphone.
    Recording,
    /// Listening for voice input (older name for Recording).
    Listening,
    /// Transcribing audio.
    Transcribing,
    /// Processing a message through the language model.
    Thinking,
    /// Converting a response to speech.
    Speaking,
    /// Error state.
    Error { message: String },
}

/// Message role enum.
#[derive(Debug, Clone, Copy, PartialEq, Eq, Structural)]
pub enum MessageRole {
    User,
    Assistant,
    System,
}

/// One message of the conversation; immutable once created.
#[derive(Debug, PartialEq)]
pub struct Message {
    /// Message role.
    pub role: MessageRole,
    /// Message content.
    pub content: String,
    /// Seconds since the Unix epoch when the message was appended.
    pub timestamp: u64,
}

/// Conversation context structure.
#[derive(Debug)]
pub struct ConversationContext {
    /// Conversation identifier.
    pub id: String,
    /// Message history, oldest first.
    pub messages: Vec<Message>,
    /// Maximum number of messages kept in context.
    pub max_messages: usize,
    /// Started timestamp.
    pub started_at: u64,
    /// Last updated timestamp.
    pub updated_at: u64,
}

/// Individual service status.
#[derive(Debug, PartialEq)]
pub enum ServiceStatus {
    /// Service is connected and operational.
    Connected,
    /// Service connection is being checked.
    Checking,
    /// Service is disconnected or unreachable.
    Disconnected { reason: String },
    /// Service has not been checked yet.
    Unknown,
}

/// Connectivity status of the three services, checked independently.
#[derive(Debug)]
pub struct ConnectivityStatus {
    /// Transcription service status.
    pub whisper: ServiceStatus,
    /// Chat service status.
    pub openwebui: ServiceStatus,
    /// Speech-synthesis service status.
    pub elevenlabs: ServiceStatus,
    /// Last checked timestamp, shared by the three services.
    pub last_checked: u64,
}

/// Two statuses with equal content.
pub open spec fn status_eq(a: AppStatus, b: AppStatus) -> bool {
    match (a, b) {
        (AppStatus::Idle, AppStatus::Idle) => true,
        (AppStatus::Recording, AppStatus::Recording) => true,
        (AppStatus::Listening, AppStatus::Listening) => true,
        (AppStatus::Transcribing, AppStatus::Transcribing) => true,
        (AppStatus::Thinking, AppStatus::Thinking) => true,
        (AppStatus::Speaking, AppStatus::Speaking) => true,
        (AppStatus::Error { message: m1 }, AppStatus::Error { message: m2 }) => m1@ == m2@,
        _ => false,
    }
}

/// Two messages with equal content.
pub open spec fn message_eq(a: Message, b: Message) -> bool {
    a.role == b.role && a.content@ == b.content@ && a.timestamp == b.timestamp
}

/// Two message sequences with pairwise equal content.
pub open spec fn msgs_eq(a: Seq<Message>, b: Seq<Message>) -> bool {
    a.len() == b.len() && forall|i: int|
        0 <= i < a.len() ==> message_eq(#[trigger] a[i], #[trigger] b[i])
}

/// Two conversations with equal content.
pub open spec fn conv_eq(a: ConversationContext, b: ConversationContext) -> bool {
    &&& a.id@ == b.id@
    &&& msgs_eq(a.messages@, b.messages@)
    &&& a.max_messages == b.max_messages
    &&& a.started_at == b.started_at
    &&& a.updated_at == b.updated_at
}

/// Two service statuses with equal content.
pub open spec fn service_status_eq(a: ServiceStatus, b: ServiceStatus) -> bool {
    match (a, b) {
        (ServiceStatus::Connected, ServiceStatus::Connected) => true,
        (ServiceStatus::Checking, ServiceStatus::Checking) => true,
        (
            ServiceStatus::Disconnected { reason: r1 },
            ServiceStatus::Disconnected { reason: r2 },
        ) => r1@ == r2@,
        (ServiceStatus::Unknown, ServiceStatus::Unknown) => true,
        _ => false,
    }
}

/// Two connectivity snapshots with equal content.
pub open spec fn connectivity_eq(a: ConnectivityStatus, b: ConnectivityStatus) -> bool {
    &&& service_status_eq(a.whisper, b.whisper)
    &&& service_status_eq(a.openwebui, b.openwebui)
    &&& service_status_eq(a.elevenlabs, b.elevenlabs)
    &&& a.last_checked == b.last_checked
}

impl Clone for AppStatus {
    /// Copies the status, keeping any error message's content.
    fn clone(&self) -> (r: Self)
        ensures
            status_eq(r, *self),
    {
        match self {
            AppStatus::Idle => AppStatus::Idle,
            AppStatus::Recording => AppStatus::Recording,
            AppStatus::Listening => AppStatus::Listening,
            AppStatus::Transcribing => AppStatus::Transcribing,
            AppStatus::Thinking => AppStatus::Thinking,
            AppStatus::Speaking => AppStatus::Speaking,
            AppStatus::Error { message } => AppStatus::Error { message: message.clone() },
        }
    }
}

impl Clone for Message {
    /// Copies the message, keeping its content.
    fn clone(&self) -> (r: Self)
        ensures
            message_eq(r, *self),
    {
        Message { role: self.role, content: self.content.clone(), timestamp: self.timestamp }
    }
}

impl Clone for ConversationContext {
    /// Copies the conversation, keeping every message's content.
    fn clone(&self) -> (r: Self)
        ensures
            conv_eq(r, *self),
    {
        let n = self.messages.len();
        let mut messages: Vec<Message> = Vec::new();
        let mut i: usize = 0;
        while i < n
            invariant
                n == self.messages@.len(),
                0 <= i <= n,
                messages@.len() == i,
                forall|j: int|
                    0 <= j < i ==> message_eq(#[trigger] messages@[j], self.messages@[j]),
            decreases n - i,
        {
            messages.push(self.messages[i].clone());
            i = i + 1;
        }
        ConversationContext {
            id: self.id.clone(),
            messages,
            max_messages: self.max_messages,
            started_at: self.started_at,
            updated_at: self.updated_at,
        }
    }
}

impl Clone for ServiceStatus {
    /// Copies the status, keeping any disconnect reason's content.
    fn clone(&self) -> (r: Self)
        ensures
            service_status_eq(r, *self),
    {
        match self {
            ServiceStatus::Connected => ServiceStatus::Connected,
            ServiceStatus::Checking => ServiceStatus::Checking,
            ServiceStatus::Disconnected { reason } => ServiceStatus::Disconnected {
                reason: reason.clone(),
            },
            ServiceStatus::Unknown => ServiceStatus::Unknown,
        }
    }
}

impl Clone for ConnectivityStatus {
    /// Copies the snapshot, keeping every field's content.
    fn clone(&self) -> (r: Self)
        ensures
            connectivity_eq(r, *self),
    {
        ConnectivityStatus {
            whisper: self.whisper.clone(),
            openwebui: self.openwebui.clone(),
            elevenlabs: self.elevenlabs.clone(),
            last_checked: self.last_checked,
        }
    }
}

/// A sequence trimmed to its last `max` elements (all of them when it is not
/// longer than `max`): the FIFO eviction rule of the conversation.
pub open spec fn spec_trim(s: Seq<Message>, max: nat) -> Seq<Message> {
    if s.len() <= max {
        s
    } else {
        s.skip(s.len() - max)
    }
}

/// One capped append: push, then trim to the cap.
pub open spec fn spec_push_capped(s: Seq<Message>, m: Message, max: nat) -> Seq<Message> {
    spec_trim(s.push(m), max)
}

/// A whole sequence of messages appended one by one, each append capped.
pub open spec fn spec_append_all(s: Seq<Message>, msgs: Seq<Message>, max: nat) -> Seq<Message>
    decreases msgs.len(),
{
    if msgs.len() == 0 {
        s
    } else {
        spec_append_all(spec_push_capped(s, msgs[0], max), msgs.drop_first(), max)
    }
}

/// Trimming a trimmed prefix before appending more is the same as trimming
/// once at the end.
proof fn lemma_trim_concat(x: Seq<Message>, rest: Seq<Message>, max: nat)
    ensures
        spec_trim(spec_trim(x, max) + rest, max) == spec_trim(x + rest, max),
{
    let t = spec_trim(x, max);
    if x.len() <= max {
        assert(t == x);
    } else {
        assert(t.len() == max);
        assert(spec_trim(t + rest, max) =~= spec_trim(x + rest, max));
    }
}

/// Appending any run of messages under the cap rule leaves exactly the last
/// `max` of the combined history, in their original relative order. With an
/// empty starting history and more than `max` appended messages, that is the
/// last `max` of the appended run.
pub proof fn lemma_append_all_keeps_last(s: Seq<Message>, msgs: Seq<Message>, max: nat)
    requires
        s.len() <= max,
    ensures
        spec_append_all(s, msgs, max) == spec_trim(s + msgs, max),
    decreases msgs.len(),
{
    if msgs.len() == 0 {
        assert(s + msgs =~= s);
    } else {
        let m = msgs[0];
        let s1 = spec_push_capped(s, m, max);
        assert(s1.len() <= max);
        lemma_append_all_keeps_last(s1, msgs.drop_first(), max);
        lemma_trim_concat(s.push(m), msgs.drop_first(), max);
        assert(s.push(m) + msgs.drop_first() =~= s + msgs);
    }
}

/// Relies on std::time::SystemTime::now, which vstd gives no specification:
/// seconds since the Unix epoch at the moment of the call, 0 if the clock
/// reads before the epoch. Nothing is promised of the value.
#[verifier::external_body]
fn system_clock_secs() -> u64 {
    match std::time::SystemTime::now().duration_since(std::time::UNIX_EPOCH) {
        Ok(d) => d.as_secs(),
        Err(_) => 0,
    }
}

/// The current Unix timestamp in seconds; the value depends on the system
/// clock, so nothing is promised of it.
pub fn current_timestamp() -> u64 {
    system_clock_secs()
}

/// Relies on rand::random: a random 64-bit value. Nothing is promised of it.
#[verifier::external_body]
fn random_u64() -> u64 {
    rand::random::<u64>()
}

/// Issues a conversation identifier: the sixteen hexadecimal digits of the
/// issue number, a dash, then sixteen random hexadecimal digits.
fn generate_id(seq: u64) -> (r: String)
    ensures
        r@.len() >= 16,
        r@.subrange(0, 16) == spec_hex16(seq),
{
    let head = hex16(seq);
    let tail = hex16(random_u64());
    let r = head.concat("-").concat(tail.as_str());
    proof {
        reveal_strlit("-");
        assert(r@.subrange(0, 16) =~= spec_hex16(seq));
    }
    r
}

/// The mutable application state: status, conversation, configuration,
/// credentials and connectivity, held together so one lock around the whole
/// value gives per-field atomicity.
#[derive(Debug)]
pub struct AppState {
    /// Current application status.
    pub status: AppStatus,
    /// Conversation context (in-memory only).
    pub conversation: ConversationContext,
    /// Configuration snapshot.
    pub config: AppConfig,
    /// API keys.
    pub api_keys: ApiKeys,
    /// Service connectivity.
    pub connectivity: ConnectivityStatus,
    /// Issue number of the current conversation identifier.
    pub conv_seq: u64,
}

impl AppState {
    /// The state's invariant: the history respects the cap, and the
    /// conversation identifier opens with the digits of its issue number
    /// (which makes each reset provably issue a distinct identifier).
    pub open spec fn wf(self) -> bool {
        &&& self.conversation.messages@.len() <= self.conversation.max_messages
        &&& self.conversation.id@.len() >= 16
        &&& self.conversation.id@.subrange(0, 16) == spec_hex16(self.conv_seq)
    }

    /// Creates the state: idle, an empty conversation capped at 20 messages,
    /// and all three services unchecked.
    pub fn new(config: AppConfig, api_keys: ApiKeys) -> (s: Self)
        ensures
            s.wf(),
            s.status is Idle,
            s.conversation.messages@.len() == 0,
            s.conversation.max_messages == 20,
            s.conversation.started_at == s.conversation.updated_at,
            s.config == config,
            s.api_keys == api_keys,
            s.connectivity.whisper is Unknown,
            s.connectivity.openwebui is Unknown,
            s.connectivity.elevenlabs is Unknown,
            s.connectivity.last_checked == 0,
    {
        let now = current_timestamp();
        AppState {
            status: AppStatus::Idle,
            conversation: ConversationContext {
                id: generate_id(0),
                messages: Vec::new(),
                max_messages: 20,
                started_at: now,
                updated_at: now,
            },
            config,
            api_keys,
            connectivity: ConnectivityStatus {
                whisper: ServiceStatus::Unknown,
                openwebui: ServiceStatus::Unknown,
                elevenlabs: ServiceStatus::Unknown,
                last_checked: 0,
            },
            conv_seq: 0,
        }
    }

    /// Returns the current status.
    pub fn get_status(&self) -> (r: AppStatus)
        ensures
            status_eq(r, self.status),
    {
        self.status.clone()
    }

    /// Sets the application status.
    pub fn set_status(&mut self, status: AppStatus)
        requires
            old(self).wf(),
        ensures
            final(self).wf(),
            final(self).status == status,
            final(self).conversation == old(self).conversation,
            final(self).config == old(self).config,
            final(self).api_keys == old(self).api_keys,
            final(self).connectivity == old(self).connectivity,
            final(self).conv_seq == old(self).conv_seq,
    {
        self.status = status;
    }

    /// Returns the configuration snapshot.
    pub fn get_config(&self) -> (r: AppConfig)
        ensures
            config_eq(r, self.config),
    {
        self.config.clone()
    }

    /// Replaces the configuration snapshot wholesale.
    pub fn update_config(&mut self, config: AppConfig)
        requires
            old(self).wf(),
        ensures
            final(self).wf(),
            final(self).config == config,
            final(self).status == old(self).status,
            final(self).conversation == old(self).conversation,
            final(self).api_keys == old(self).api_keys,
            final(self).connectivity == old(self).connectivity,
            final(self).conv_seq == old(self).conv_seq,
    {
        self.config = config;
    }

    /// Returns the credential set.
    pub fn get_api_keys(&self) -> (r: ApiKeys)
        ensures
            api_keys_eq(r, self.api_keys),
    {
        self.api_keys.clone()
    }

    /// Replaces the credential set wholesale.
    pub fn update_api_keys(&mut self, api_keys: ApiKeys)
        requires
            old(self).wf(),
        ensures
            final(self).wf(),
            final(self).api_keys == api_keys,
            final(self).status == old(self).status,
            final(self).conversation == old(self).conversation,
            final(self).config == old(self).config,
            final(self).connectivity == old(self).connectivity,
            final(self).conv_seq == old(self).conv_seq,
    {
        self.api_keys = api_keys;
    }

    /// Appends a message to the conversation, dropping the oldest message
    /// when the cap would be exceeded; the new message's timestamp is the
    /// conversation's new last-updated time.
    pub fn add_message(&mut self, role: MessageRole, content: String)
        requires
            old(self).wf(),
        ensures
            final(self).wf(),
            final(self).conversation.messages@ == spec_push_capped(
                old(self).conversation.messages@,
                (Message {
                    role,
                    content,
                    timestamp: final(self).conversation.updated_at,
                }),
                old(self).conversation.max_messages as nat,
            ),
            final(self).conversation.id == old(self).conversation.id,
            final(self).conversation.max_messages == old(self).conversation.max_messages,
            final(self).conversation.started_at == old(self).conversation.started_at,
            final(self).status == old(self).status,
            final(self).config == old(self).config,
            final(self).api_keys == old(self).api_keys,
            final(self).connectivity == old(self).connectivity,
            final(self).conv_seq == old(self).conv_seq,
    {
        let now = current_timestamp();
        let message = Message { role, content, timestamp: now };
        self.conversation.messages.push(message);
        self.conversation.updated_at = now;
        if self.conversation.messages.len() > self.conversation.max_messages {
            self.conversation.messages.remove(0);
            proof {
                let pushed = old(self).conversation.messages@.push(
                    Message { role, content, timestamp: now },
                );
                assert(self.conversation.messages@ =~= pushed.skip(
                    pushed.len() - old(self).conversation.max_messages,
                ));
            }
        }
    }

    /// Returns a copy of the conversation history.
    pub fn get_conversation(&self) -> (r: ConversationContext)
        ensures
            conv_eq(r, self.conversation),
    {
        self.conversation.clone()
    }

    /// Resets the conversation: no messages, the same cap, fresh timestamps,
    /// and an identifier distinct from the previous one.
    pub fn clear_conversation(&mut self)
        requires
            old(self).wf(),
        ensures
            final(self).wf(),
            final(self).conversation.messages@.len() == 0,
            final(self).conversation.id@ != old(self).conversation.id@,
            final(self).conversation.max_messages == old(self).conversation.max_messages,
            final(self).conversation.started_at == final(self).conversation.updated_at,
            final(self).status == old(self).status,
            final(self).config == old(self).config,
            final(self).api_keys == old(self).api_keys,
            final(self).connectivity == old(self).connectivity,
    {
        let now = current_timestamp();
        let new_seq: u64 = if self.conv_seq == u64::MAX {
            0
        } else {
            self.conv_seq + 1
        };
        let id = generate_id(new_seq);
        self.conv_seq = new_seq;
        self.conversation = ConversationContext {
            id,
            messages: Vec::new(),
            max_messages: self.conversation.max_messages,
            started_at: now,
            updated_at: now,
        };
        proof {
            if self.conversation.id@ == old(self).conversation.id@ {
                let old_id = old(self).conversation.id@;
                assert(self.conversation.id@.subrange(0, 16) == old_id.subrange(0, 16));
                lemma_hex16_injective(new_seq, old(self).conv_seq);
            }
        }
    }

    /// Returns the history as (role name, content) pairs for the chat API.
    pub fn get_api_messages(&self) -> (r: Vec<(String, String)>)
        ensures
            r@.len() == self.conversation.messages@.len(),
            forall|i: int|
                #![all_triggers]
                0 <= i < r@.len() ==> r@[i].0@ == spec_role_name(
                    self.conversation.messages@[i].role,
                ) && r@[i].1@ == self.conversation.messages@[i].content@,
    {
        let n = self.conversation.messages.len();
        let mut r: Vec<(String, String)> = Vec::new();
        let mut i: usize = 0;
        while i < n
            invariant
                n == self.conversation.messages@.len(),
                0 <= i <= n,
                r@.len() == i,
                forall|j: int|
                    #![all_triggers]
                    0 <= j < i ==> r@[j].0@ == spec_role_name(
                        self.conversation.messages@[j].role,
                    ) && r@[j].1@ == self.conversation.messages@[j].content@,
            decreases n - i,
        {
            let m = &self.conversation.messages[i];
            r.push((role_string(m.role), m.content.clone()));
            i = i + 1;
        }
        r
    }

    /// Replaces the connectivity snapshot wholesale.
    pub fn update_connectivity(&mut self, connectivity: ConnectivityStatus)
        requires
            old(self).wf(),
        ensures
            final(self).wf(),
            final(self).connectivity == connectivity,
            final(self).status == old(self).status,
            final(self).conversation == old(self).conversation,
            final(self).config == old(self).config,
            final(self).api_keys == old(self).api_keys,
            final(self).conv_seq == old(self).conv_seq,
    {
        self.connectivity = connectivity;
    }

    /// Returns the connectivity snapshot.
    pub fn get_connectivity(&self) -> (r: ConnectivityStatus)
        ensures
            connectivity_eq(r, self.connectivity),
    {
        self.connectivity.clone()
    }

    /// Sets one service's status, named "whisper", "openwebui" or
    /// "elevenlabs"; any other name changes no service. The shared
    /// last-checked timestamp is refreshed either way.
    pub fn update_service_status(&mut self, service: &str, status: ServiceStatus)
        requires
            old(self).wf(),
        ensures
            final(self).wf(),
            service@ == "whisper"@ ==> final(self).connectivity.whisper == status,
            service@ != "whisper"@
                ==> final(self).connectivity.whisper == old(self).connectivity.whisper,
            service@ == "openwebui"@ ==> final(self).connectivity.openwebui == status,
            service@ != "openwebui"@
                ==> final(self).connectivity.openwebui == old(self).connectivity.openwebui,
            service@ == "elevenlabs"@ ==> final(self).connectivity.elevenlabs == status,
            service@ != "elevenlabs"@
                ==> final(self).connectivity.elevenlabs == old(self).connectivity.elevenlabs,
            final(self).status == old(self).status,
            final(self).conversation == old(self).conversation,
            final(self).config == old(self).config,
            final(self).api_keys == old(self).api_keys,
            final(self).conv_seq == old(self).conv_seq,
    {
        proof {
            reveal_strlit("whisper");
            reveal_strlit("openwebui");
            reveal_strlit("elevenlabs");
            assert("whisper"@.len() == 7);
            assert("openwebui"@.len() == 9);
            assert("elevenlabs"@.len() == 10);
        }
        if str_eq(service, "whisper") {
            self.connectivity.whisper = status;
        } else if str_eq(service, "openwebui") {
            self.connectivity.openwebui = status;
        } else if str_eq(service, "elevenlabs") {
            self.connectivity.elevenlabs = status;
        }
        self.connectivity.last_checked = current_timestamp();
    }

    /// True exactly when all three services are currently Connected.
    pub fn all_services_connected(&self) -> (r: bool)
        ensures
            r == (self.connectivity.whisper is Connected && self.connectivity.openwebui
                is Connected && self.connectivity.elevenlabs is Connected),
    {
        let w = matches!(self.connectivity.whisper, ServiceStatus::Connected);
        let o = matches!(self.connectivity.openwebui, ServiceStatus::Connected);
        let e = matches!(self.connectivity.elevenlabs, ServiceStatus::Connected);
        w && o && e
    }
}

/// The lower-case wire name of a message role.
pub open spec fn spec_role_name(r: MessageRole) -> Seq<char> {
    match r {
        MessageRole::User => "user"@,
        MessageRole::Assistant => "assistant"@,
        MessageRole::System => "system"@,
    }
}

/// Renders the lower-case wire name of a message role.
pub fn role_string(r: MessageRole) -> (s: String)
    ensures
        s@ == spec_role_name(r),
{
    match r {
        MessageRole::User => String::from_str("user"),
        MessageRole::Assistant => String::from_str("assistant"),
        MessageRole::System => String::from_str("system"),
    }
}

} // verus!
