//! Error types for every backend operation, with a verified human-readable
//! message for each variant and conversions into the application-level error.

use vstd::prelude::*;
use vstd::string::StringExecFns;

verus! {

/// Main error type for the application.
#[derive(Debug, Clone)]
pub enum AppError {
    /// Errors related to the transcription service.
    WhisperApi(WhisperError),
    /// Errors related to the chat service.
    OpenWebUi(OpenWebUiError),
    /// Errors related to the speech service.
    ElevenLabs(ElevenLabsError),
    /// Network-related errors.
    Network(NetworkError),
    /// Configuration-related errors.
    Config(ConfigError),
    /// Audio processing errors.
    Audio(AudioError),
    /// State management errors.
    State(String),
    /// Generic errors.
    Generic(String),
}

/// Errors specific to transcription operations.
#[derive(Debug, Clone)]
pub enum WhisperError {
    TranscriptionFailed(String),
    InvalidAudioFormat,
    AudioFileTooLarge,
    AuthenticationFailed,
    EmptyResponse,
    Timeout,
    RateLimitExceeded,
}

/// Errors specific to chat operations.
#[derive(Debug, Clone)]
pub enum OpenWebUiError {
    MessageSendFailed(String),
    ResponseParseFailed(String),
    AuthenticationFailed,
    ModelNotFound(String),
    Timeout,
    ContextLimitExceeded,
    RateLimitExceeded,
    StreamingNotSupported,
}

/// Errors specific to speech-synthesis operations.
#[derive(Debug, Clone)]
pub enum ElevenLabsError {
    SynthesisFailed(String),
    VoiceNotFound(String),
    InvalidVoiceSettings,
    AuthenticationFailed,
    Timeout,
    CharacterLimitExceeded,
    RateLimitExceeded,
    QuotaExceeded,
}

/// Network-related errors.
#[derive(Debug, Clone)]
pub enum NetworkError {
    RequestFailed(String),
    Timeout,
    NoConnection,
    DnsResolutionFailed,
    TlsError(String),
    ConnectionRefused,
    TooManyRedirects,
}

/// Configuration-related errors.
#[derive(Debug, Clone)]
pub enum ConfigError {
    LoadFailed(String),
    SaveFailed(String),
    MissingConfig(String),
    InvalidValue(String),
    KeyringError(String),
    FileNotFound,
    ParseError(String),
}

/// Audio processing errors.
#[derive(Debug, Clone)]
pub enum AudioError {
    ReadFailed(String),
    WriteFailed(String),
    InvalidFormat(String),
    ConversionFailed(String),
    DeviceError(String),
    BufferOverflow,
    BufferUnderflow,
}

/// Result type alias for convenience.
pub type AppResult<T> = Result<T, AppError>;

impl WhisperError {
    /// The message shown for this error.
    pub open spec fn spec_message(self) -> Seq<char> {
        match self {
            WhisperError::TranscriptionFailed(s) => "Failed to transcribe audio: "@ + s@,
            WhisperError::InvalidAudioFormat => "Invalid audio format: expected 16kHz WAV"@,
            WhisperError::AudioFileTooLarge => "Audio file too large: maximum size is 25MB"@,
            WhisperError::AuthenticationFailed => "Whisper API authentication failed"@,
            WhisperError::EmptyResponse => "Whisper API returned empty response"@,
            WhisperError::Timeout => "Whisper API timeout"@,
            WhisperError::RateLimitExceeded => "Whisper API rate limit exceeded"@,
        }
    }

    /// Renders the message shown for this error.
    pub fn message(&self) -> (r: String)
        ensures
            r@ == self.spec_message(),
    {
        match self {
            WhisperError::TranscriptionFailed(s) => String::from_str(
                "Failed to transcribe audio: ",
            ).concat(s.as_str()),
            WhisperError::InvalidAudioFormat => String::from_str(
                "Invalid audio format: expected 16kHz WAV",
            ),
            WhisperError::AudioFileTooLarge => String::from_str(
                "Audio file too large: maximum size is 25MB",
            ),
            WhisperError::AuthenticationFailed => String::from_str(
                "Whisper API authentication failed",
            ),
            WhisperError::EmptyResponse => String::from_str("Whisper API returned empty response"),
            WhisperError::Timeout => String::from_str("Whisper API timeout"),
            WhisperError::RateLimitExceeded => String::from_str(
                "Whisper API rate limit exceeded",
            ),
        }
    }
}

impl OpenWebUiError {
    /// The message shown for this error.
    pub open spec fn spec_message(self) -> Seq<char> {
        match self {
            OpenWebUiError::MessageSendFailed(s) => "Failed to send message: "@ + s@,
            OpenWebUiError::ResponseParseFailed(s) => "Failed to parse response: "@ + s@,
            OpenWebUiError::AuthenticationFailed => "OpenWebUI API authentication failed"@,
            OpenWebUiError::ModelNotFound(s) => "Model not found: "@ + s@,
            OpenWebUiError::Timeout => "OpenWebUI API timeout"@,
            OpenWebUiError::ContextLimitExceeded => "Context limit exceeded"@,
            OpenWebUiError::RateLimitExceeded => "OpenWebUI API rate limit exceeded"@,
            OpenWebUiError::StreamingNotSupported => "Streaming not supported"@,
        }
    }

    /// Renders the message shown for this error.
    pub fn message(&self) -> (r: String)
        ensures
            r@ == self.spec_message(),
    {
        match self {
            OpenWebUiError::MessageSendFailed(s) => String::from_str(
                "Failed to send message: ",
            ).concat(s.as_str()),
            OpenWebUiError::ResponseParseFailed(s) => String::from_str(
                "Failed to parse response: ",
            ).concat(s.as_str()),
            OpenWebUiError::AuthenticationFailed => String::from_str(
                "OpenWebUI API authentication failed",
            ),
            OpenWebUiError::ModelNotFound(s) => String::from_str("Model not found: ").concat(
                s.as_str(),
            ),
            OpenWebUiError::Timeout => String::from_str("OpenWebUI API timeout"),
            OpenWebUiError::ContextLimitExceeded => String::from_str("Context limit exceeded"),
            OpenWebUiError::RateLimitExceeded => String::from_str(
                "OpenWebUI API rate limit exceeded",
            ),
            OpenWebUiError::StreamingNotSupported => String::from_str("Streaming not supported"),
        }
    }
}

impl ElevenLabsError {
    /// The message shown for this error.
    pub open spec fn spec_message(self) -> Seq<char> {
        match self {
            ElevenLabsError::SynthesisFailed(s) => "Failed to synthesize speech: "@ + s@,
            ElevenLabsError::VoiceNotFound(s) => "Voice not found: "@ + s@,
            ElevenLabsError::InvalidVoiceSettings => "Invalid voice settings"@,
            ElevenLabsError::AuthenticationFailed => "ElevenLabs API authentication failed"@,
            ElevenLabsError::Timeout => "ElevenLabs API timeout"@,
            ElevenLabsError::CharacterLimitExceeded => "Character limit exceeded"@,
            ElevenLabsError::RateLimitExceeded => "ElevenLabs API rate limit exceeded"@,
            ElevenLabsError::QuotaExceeded => "Quota exceeded"@,
        }
    }

    /// Renders the message shown for this error.
    pub fn message(&self) -> (r: String)
        ensures
            r@ == self.spec_message(),
    {
        match self {
            ElevenLabsError::SynthesisFailed(s) => String::from_str(
                "Failed to synthesize speech: ",
            ).concat(s.as_str()),
            ElevenLabsError::VoiceNotFound(s) => String::from_str("Voice not found: ").concat(
                s.as_str(),
            ),
            ElevenLabsError::InvalidVoiceSettings => String::from_str("Invalid voice settings"),
            ElevenLabsError::AuthenticationFailed => String::from_str(
                "ElevenLabs API authentication failed",
            ),
            ElevenLabsError::Timeout => String::from_str("ElevenLabs API timeout"),
            ElevenLabsError::CharacterLimitExceeded => String::from_str(
                "Character limit exceeded",
            ),
            ElevenLabsError::RateLimitExceeded => String::from_str(
                "ElevenLabs API rate limit exceeded",
            ),
            ElevenLabsError::QuotaExceeded => String::from_str("Quota exceeded"),
        }
    }
}

impl NetworkError {
    /// The message shown for this error.
    pub open spec fn spec_message(self) -> Seq<char> {
        match self {
            NetworkError::RequestFailed(s) => "HTTP request failed: "@ + s@,
            NetworkError::Timeout => "Connection timeout"@,
            NetworkError::NoConnection => "No internet connection"@,
            NetworkError::DnsResolutionFailed => "DNS resolution failed"@,
            NetworkError::TlsError(s) => "SSL/TLS error: "@ + s@,
            NetworkError::ConnectionRefused => "Connection refused"@,
            NetworkError::TooManyRedirects => "Too many redirects"@,
        }
    }

    /// Renders the message shown for this error.
    pub fn message(&self) -> (r: String)
        ensures
            r@ == self.spec_message(),
    {
        match self {
            NetworkError::RequestFailed(s) => String::from_str("HTTP request failed: ").concat(
                s.as_str(),
            ),
            NetworkError::Timeout => String::from_str("Connection timeout"),
            NetworkError::NoConnection => String::from_str("No internet connection"),
            NetworkError::DnsResolutionFailed => String::from_str("DNS resolution failed"),
            NetworkError::TlsError(s) => String::from_str("SSL/TLS error: ").concat(s.as_str()),
            NetworkError::ConnectionRefused => String::from_str("Connection refused"),
            NetworkError::TooManyRedirects => String::from_str("Too many redirects"),
        }
    }
}

impl ConfigError {
    /// The message shown for this error.
    pub open spec fn spec_message(self) -> Seq<char> {
        match self {
            ConfigError::LoadFailed(s) => "Failed to load configuration: "@ + s@,
            ConfigError::SaveFailed(s) => "Failed to save configuration: "@ + s@,
            ConfigError::MissingConfig(s) => "Missing required configuration: "@ + s@,
            ConfigError::InvalidValue(s) => "Invalid configuration value: "@ + s@,
            ConfigError::KeyringError(s) => "Failed to access keyring: "@ + s@,
            ConfigError::FileNotFound => "Configuration file not found"@,
            ConfigError::ParseError(s) => "Configuration parse error: "@ + s@,
        }
    }

    /// Renders the message shown for this error.
    pub fn message(&self) -> (r: String)
        ensures
            r@ == self.spec_message(),
    {
        match self {
            ConfigError::LoadFailed(s) => String::from_str(
                "Failed to load configuration: ",
            ).concat(s.as_str()),
            ConfigError::SaveFailed(s) => String::from_str(
                "Failed to save configuration: ",
            ).concat(s.as_str()),
            ConfigError::MissingConfig(s) => String::from_str(
                "Missing required configuration: ",
            ).concat(s.as_str()),
            ConfigError::InvalidValue(s) => String::from_str(
                "Invalid configuration value: ",
            ).concat(s.as_str()),
            ConfigError::KeyringError(s) => String::from_str("Failed to access keyring: ").concat(
                s.as_str(),
            ),
            ConfigError::FileNotFound => String::from_str("Configuration file not found"),
            ConfigError::ParseError(s) => String::from_str("Configuration parse error: ").concat(
                s.as_str(),
            ),
        }
    }
}

impl AudioError {
    /// The message shown for this error.
    pub open spec fn spec_message(self) -> Seq<char> {
        match self {
            AudioError::ReadFailed(s) => "Failed to read audio file: "@ + s@,
            AudioError::WriteFailed(s) => "Failed to write audio file: "@ + s@,
            AudioError::InvalidFormat(s) => "Invalid audio format: "@ + s@,
            AudioError::ConversionFailed(s) => "Audio conversion failed: "@ + s@,
            AudioError::DeviceError(s) => "Audio device error: "@ + s@,
            AudioError::BufferOverflow => "Audio buffer overflow"@,
            AudioError::BufferUnderflow => "Audio buffer underflow"@,
        }
    }

    /// Renders the message shown for this error.
    pub fn message(&self) -> (r: String)
        ensures
            r@ == self.spec_message(),
    {
        match self {
            AudioError::ReadFailed(s) => String::from_str("Failed to read audio file: ").concat(
                s.as_str(),
            ),
            AudioError::WriteFailed(s) => String::from_str("Failed to write audio file: ").concat(
                s.as_str(),
            ),
            AudioError::InvalidFormat(s) => String::from_str("Invalid audio format: ").concat(
                s.as_str(),
            ),
            AudioError::ConversionFailed(s) => String::from_str(
                "Audio conversion failed: ",
            ).concat(s.as_str()),
            AudioError::DeviceError(s) => String::from_str("Audio device error: ").concat(
                s.as_str(),
            ),
            AudioError::BufferOverflow => String::from_str("Audio buffer overflow"),
            AudioError::BufferUnderflow => String::from_str("Audio buffer underflow"),
        }
    }
}

impl AppError {
    /// The message shown for this error: the failing layer, then its detail.
    pub open spec fn spec_message(self) -> Seq<char> {
        match self {
            AppError::WhisperApi(e) => "Whisper API error: "@ + e.spec_message(),
            AppError::OpenWebUi(e) => "OpenWebUI API error: "@ + e.spec_message(),
            AppError::ElevenLabs(e) => "ElevenLabs API error: "@ + e.spec_message(),
            AppError::Network(e) => "Network error: "@ + e.spec_message(),
            AppError::Config(e) => "Configuration error: "@ + e.spec_message(),
            AppError::Audio(e) => "Audio error: "@ + e.spec_message(),
            AppError::State(s) => "State error: "@ + s@,
            AppError::Generic(s) => "Application error: "@ + s@,
        }
    }

    /// Renders the message shown for this error.
    pub fn message(&self) -> (r: String)
        ensures
            r@ == self.spec_message(),
    {
        match self {
            AppError::WhisperApi(e) => {
                let m = e.message();
                String::from_str("Whisper API error: ").concat(m.as_str())
            },
            AppError::OpenWebUi(e) => {
                let m = e.message();
                String::from_str("OpenWebUI API error: ").concat(m.as_str())
            },
            AppError::ElevenLabs(e) => {
                let m = e.message();
                String::from_str("ElevenLabs API error: ").concat(m.as_str())
            },
            AppError::Network(e) => {
                let m = e.message();
                String::from_str("Network error: ").concat(m.as_str())
            },
            AppError::Config(e) => {
                let m = e.message();
                String::from_str("Configuration error: ").concat(m.as_str())
            },
            AppError::Audio(e) => {
                let m = e.message();
                String::from_str("Audio error: ").concat(m.as_str())
            },
            AppError::State(s) => String::from_str("State error: ").concat(s.as_str()),
            AppError::Generic(s) => String::from_str("Application error: ").concat(s.as_str()),
        }
    }
}

impl From<WhisperError> for AppError {
    /// Wraps a transcription error as an application error.
    fn from(e: WhisperError) -> (r: AppError) {
        AppError::WhisperApi(e)
    }
}

impl vstd::std_specs::convert::FromSpecImpl<WhisperError> for AppError {
    open spec fn obeys_from_spec() -> bool {
        true
    }

    open spec fn from_spec(e: WhisperError) -> AppError {
        AppError::WhisperApi(e)
    }
}

impl From<OpenWebUiError> for AppError {
    /// Wraps a chat error as an application error.
    fn from(e: OpenWebUiError) -> (r: AppError) {
        AppError::OpenWebUi(e)
    }
}

impl vstd::std_specs::convert::FromSpecImpl<OpenWebUiError> for AppError {
    open spec fn obeys_from_spec() -> bool {
        true
    }

    open spec fn from_spec(e: OpenWebUiError) -> AppError {
        AppError::OpenWebUi(e)
    }
}

impl From<ElevenLabsError> for AppError {
    /// Wraps a speech-synthesis error as an application error.
    fn from(e: ElevenLabsError) -> (r: AppError) {
        AppError::ElevenLabs(e)
    }
}

impl vstd::std_specs::convert::FromSpecImpl<ElevenLabsError> for AppError {
    open spec fn obeys_from_spec() -> bool {
        true
    }

    open spec fn from_spec(e: ElevenLabsError) -> AppError {
        AppError::ElevenLabs(e)
    }
}

impl From<NetworkError> for AppError {
    /// Wraps a network error as an application error.
    fn from(e: NetworkError) -> (r: AppError) {
        AppError::Network(e)
    }
}

impl vstd::std_specs::convert::FromSpecImpl<NetworkError> for AppError {
    open spec fn obeys_from_spec() -> bool {
        true
    }

    open spec fn from_spec(e: NetworkError) -> AppError {
        AppError::Network(e)
    }
}

impl From<ConfigError> for AppError {
    /// Wraps a configuration error as an application error.
    fn from(e: ConfigError) -> (r: AppError) {
        AppError::Config(e)
    }
}

impl vstd::std_specs::convert::FromSpecImpl<ConfigError> for AppError {
    open spec fn obeys_from_spec() -> bool {
        true
    }

    open spec fn from_spec(e: ConfigError) -> AppError {
        AppError::Config(e)
    }
}

impl From<AudioError> for AppError {
    /// Wraps an audio error as an application error.
    fn from(e: AudioError) -> (r: AppError) {
        AppError::Audio(e)
    }
}

impl vstd::std_specs::convert::FromSpecImpl<AudioError> for AppError {
    open spec fn obeys_from_spec() -> bool {
        true
    }

    open spec fn from_spec(e: AudioError) -> AppError {
        AppError::Audio(e)
    }
}

#[verifier::external_type_specification]
#[verifier::external_body]
pub struct ExReqwestError(reqwest::Error);

pub assume_specification[ reqwest::Error::is_timeout ](e: &reqwest::Error) -> bool;

pub assume_specification[ reqwest::Error::is_connect ](e: &reqwest::Error) -> bool;

pub assume_specification[ reqwest::Error::is_redirect ](e: &reqwest::Error) -> bool;

/// Relies on reqwest::Error's Display rendering for the transport's message
/// text.
#[verifier::external_body]
fn reqwest_error_text(e: &reqwest::Error) -> String {
    format!("{}", e)
}

/// Classifies an HTTP transport error by its own predicates, as
/// [`classify_transport_failure`] fixes: a deadline, a connection failure and
/// a redirect loop are told apart, and anything else carries the transport's
/// message.
pub fn network_error_of(e: &reqwest::Error) -> (r: NetworkError)
    ensures
        r is Timeout || r is ConnectionRefused || r is TooManyRedirects || r is RequestFailed,
{
    let timed_out = e.is_timeout();
    let connect_failed = e.is_connect();
    let redirect_loop = e.is_redirect();
    let detail = reqwest_error_text(e);
    classify_transport_failure(timed_out, connect_failed, redirect_loop, detail)
}

/// Classifies a transport failure from its transport-level predicates, as
/// reported by the HTTP client: a client-side deadline, a refused or failed
/// connection, and a redirect loop are told apart; anything else carries the
/// transport's own text.
pub fn classify_transport_failure(
    timed_out: bool,
    connect_failed: bool,
    redirect_loop: bool,
    detail: String,
) -> (r: NetworkError)
    ensures
        timed_out ==> r == NetworkError::Timeout,
        !timed_out && connect_failed ==> r == NetworkError::ConnectionRefused,
        !timed_out && !connect_failed && redirect_loop ==> r == NetworkError::TooManyRedirects,
        !timed_out && !connect_failed && !redirect_loop ==> r == NetworkError::RequestFailed(
            detail,
        ),
{
    if timed_out {
        NetworkError::Timeout
    } else if connect_failed {
        NetworkError::ConnectionRefused
    } else if redirect_loop {
        NetworkError::TooManyRedirects
    } else {
        NetworkError::RequestFailed(detail)
    }
}

} // verus!
