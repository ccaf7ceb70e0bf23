//! The transcription client: request validation and construction, and the
//! classification of everything the service can send back.
//!
//! The HTTP transport lives outside the library; it receives a
//! [`TranscribeRequest`], performs the multipart upload, and hands the raw
//! status and body back to [`whisper_classify_response`].

use vstd::prelude::*;
use vstd::string::StringExecFns;

use crate::config::{clone_opt_string, opt_str_eq, WhisperConfig};
use crate::errors::{AppError, WhisperError};
use crate::json::{json_as_str, json_get, json_parse};
use crate::text::{dec, is_blank, spec_dec, str_is_blank};

verus! {

/// The upload size limit: 25 MiB of audio.
pub const MAX_AUDIO_BYTES: usize = 25 * 1024 * 1024;

/// Transcription client: the configuration snapshot and credential it was
/// constructed with.
#[derive(Debug)]
pub struct WhisperClient {
    pub config: WhisperConfig,
    pub api_key: Option<String>,
}

/// A transcription response: the text, and the detected language when the
/// service reports one.
#[derive(Debug)]
pub struct TranscriptionResponse {
    pub text: String,
    pub language: Option<String>,
}

/// Everything the transport needs for one transcription upload.
#[derive(Debug)]
pub struct TranscribeRequest {
    /// Where to send the upload.
    pub endpoint: String,
    /// Bearer credential, when one is configured.
    pub api_key: Option<String>,
    /// Model form field.
    pub model: String,
    /// Language form field, when configured.
    pub language: Option<String>,
    /// Sampling temperature in thousandths; sent only when positive.
    pub temperature_milli: u32,
    /// The audio bytes to upload.
    pub audio_data: Vec<u8>,
    /// Filename hint for the upload.
    pub filename: String,
    /// Per-call deadline in seconds.
    pub timeout_secs: u64,
}

impl WhisperClient {
    /// Builds the client from a configuration snapshot and an optional
    /// credential.
    pub fn new(config: WhisperConfig, api_key: Option<String>) -> (c: Self)
        ensures
            c.config == config,
            c.api_key == api_key,
    {
        WhisperClient { config, api_key }
    }

    /// Validates one transcription call and lays out its request: audio over
    /// 25 MiB is rejected before any transport work, and anything else yields
    /// exactly the configured upload.
    pub fn transcribe_request(&self, audio_data: Vec<u8>, filename: &str) -> (r: Result<
        TranscribeRequest,
        AppError,
    >)
        ensures
            audio_data@.len() > MAX_AUDIO_BYTES ==> r == Err::<TranscribeRequest, AppError>(
                AppError::WhisperApi(WhisperError::AudioFileTooLarge),
            ),
            audio_data@.len() <= MAX_AUDIO_BYTES ==> (r matches Ok(q) && q.endpoint@
                == self.config.endpoint@ && opt_str_eq(q.api_key, self.api_key) && q.model@
                == self.config.model@ && opt_str_eq(q.language, self.config.language)
                && q.temperature_milli == self.config.temperature_milli && q.audio_data@
                == audio_data@ && q.filename@ == filename@ && q.timeout_secs
                == self.config.timeout_secs),
    {
        if audio_data.len() > MAX_AUDIO_BYTES {
            return Err(AppError::WhisperApi(WhisperError::AudioFileTooLarge));
        }
        Ok(
            TranscribeRequest {
                endpoint: self.config.endpoint.clone(),
                api_key: clone_opt_string(&self.api_key),
                model: self.config.model.clone(),
                language: clone_opt_string(&self.config.language),
                temperature_milli: self.config.temperature_milli,
                audio_data,
                filename: filename.to_owned(),
                timeout_secs: self.config.timeout_secs,
            },
        )
    }

    /// Swaps the configuration snapshot without reconstruction.
    pub fn update_config(&mut self, config: WhisperConfig)
        ensures
            final(self).config == config,
            final(self).api_key == old(self).api_key,
    {
        self.config = config;
    }

    /// Swaps the credential without reconstruction.
    pub fn update_api_key(&mut self, api_key: Option<String>)
        ensures
            final(self).api_key == api_key,
            final(self).config == old(self).config,
    {
        self.api_key = api_key;
    }
}

/// The "text" string field of a transcription body, when the body is JSON
/// that carries one: a pure function of the body text, computed by
/// serde_json through [`extract_text`].
pub uninterp spec fn whisper_text_of(body: Seq<char>) -> Option<Seq<char>>;

/// The "error.message" string of an error body, when the body is JSON that
/// carries one: a pure function of the body text, computed by serde_json
/// through [`extract_error_message`]. Both the transcription and the chat
/// service write this shape.
pub uninterp spec fn error_message_of(body: Seq<char>) -> Option<Seq<char>>;

/// Relies on serde_json::from_str and serde_json::Value's get/as_str: reads
/// the "text" string field of the body, a function of the body text alone,
/// named by [`whisper_text_of`].
#[verifier::external_body]
fn extract_text(body: &str) -> (r: Option<String>)
    ensures
        match whisper_text_of(body@) {
            Some(t) => r matches Some(s) && s@ == t,
            None => r is None,
        },
{
    serde_json::from_str::<serde_json::Value>(body).ok().and_then(
        |v| v.get("text").and_then(|t| t.as_str().map(|s| s.to_string())),
    )
}

/// Relies on serde_json::from_str and serde_json::Value's get/as_str: reads
/// the "error.message" string of the body, a function of the body text
/// alone, named by [`error_message_of`].
#[verifier::external_body]
pub(crate) fn extract_error_message(body: &str) -> (r: Option<String>)
    ensures
        match error_message_of(body@) {
            Some(t) => r matches Some(s) && s@ == t,
            None => r is None,
        },
{
    serde_json::from_str::<serde_json::Value>(body).ok().and_then(
        |v| v.get("error").and_then(|e| e.get("message")).and_then(
            |m| m.as_str().map(|s| s.to_string()),
        ),
    )
}

/// Reads a transcription body into its response structure: exactly when the
/// body carries a text field, with the language taken along when one is
/// there.
pub fn parse_transcription(body: &str) -> (r: Option<TranscriptionResponse>)
    ensures
        match whisper_text_of(body@) {
            Some(t) => r matches Some(tr) && tr.text@ == t,
            None => r is None,
        },
{
    let text = match extract_text(body) {
        Option::None => { return Option::None },
        Option::Some(s) => s,
    };
    let language = match json_parse(body) {
        Option::None => Option::None,
        Option::Some(v) => match json_get(&v, "language") {
            Option::None => Option::None,
            Option::Some(l) => json_as_str(&l),
        },
    };
    Option::Some(TranscriptionResponse { text, language })
}

/// Decides a transcription from the text the service returned: no text is a
/// parse failure, whitespace-only text is an empty response, and any other
/// text is the transcription.
pub fn transcription_of_text(text: Option<String>) -> (r: Result<String, AppError>)
    ensures
        text is None ==> (r matches Err(AppError::WhisperApi(WhisperError::TranscriptionFailed(m)))
            && m@ == "missing transcription text in response"@),
        text matches Some(t) ==> (if is_blank(t@) {
            r == Err::<String, AppError>(AppError::WhisperApi(WhisperError::EmptyResponse))
        } else {
            r == Ok::<String, AppError>(t)
        }),
{
    match text {
        Option::None => Err(
            AppError::WhisperApi(
                WhisperError::TranscriptionFailed(
                    String::from_str("missing transcription text in response"),
                ),
            ),
        ),
        Option::Some(t) => {
            if str_is_blank(t.as_str()) {
                Err(AppError::WhisperApi(WhisperError::EmptyResponse))
            } else {
                Ok(t)
            }
        },
    }
}

/// Classifies a failing transcription status: authentication for 401/403,
/// rate limiting for 429, and otherwise the service's own error message, or
/// the bare status when no message could be read.
pub fn whisper_error_for_status(status: u16, detail: Option<String>) -> (r: WhisperError)
    ensures
        status == 401 || status == 403 ==> r == WhisperError::AuthenticationFailed,
        status != 401 && status != 403 && status == 429 ==> r == WhisperError::RateLimitExceeded,
        status != 401 && status != 403 && status != 429 ==> match detail {
            Some(m) => r == WhisperError::TranscriptionFailed(m),
            None => r matches WhisperError::TranscriptionFailed(f) && f@ == "HTTP "@ + spec_dec(
                status as u64,
            ),
        },
{
    if status == 401 || status == 403 {
        WhisperError::AuthenticationFailed
    } else if status == 429 {
        WhisperError::RateLimitExceeded
    } else {
        match detail {
            Option::Some(m) => WhisperError::TranscriptionFailed(m),
            Option::None => {
                let code = dec(status as u64);
                WhisperError::TranscriptionFailed(String::from_str("HTTP ").concat(code.as_str()))
            },
        }
    }
}

/// Classifies one transcription attempt's HTTP response. A success status
/// yields the transcription exactly as [`transcription_of_text`] decides it
/// on the body's text field; any other status yields the error
/// [`whisper_error_for_status`] assigns it on the body's error message.
pub fn whisper_classify_response(status: u16, body: &str) -> (r: Result<String, AppError>)
    ensures
        200 <= status < 300 ==> match whisper_text_of(body@) {
            Some(t) => if is_blank(t) {
                r == Err::<String, AppError>(AppError::WhisperApi(WhisperError::EmptyResponse))
            } else {
                r matches Ok(s) && s@ == t
            },
            None => r matches Err(AppError::WhisperApi(WhisperError::TranscriptionFailed(m)))
                && m@ == "missing transcription text in response"@,
        },
        status == 401 || status == 403 ==> r == Err::<String, AppError>(
            AppError::WhisperApi(WhisperError::AuthenticationFailed),
        ),
        status == 429 ==> r == Err::<String, AppError>(
            AppError::WhisperApi(WhisperError::RateLimitExceeded),
        ),
        !(200 <= status < 300) && status != 401 && status != 403 && status != 429 ==> (r matches
            Err(AppError::WhisperApi(WhisperError::TranscriptionFailed(m))) && (match
            error_message_of(body@) {
            Some(t) => m@ == t,
            None => m@ == "HTTP "@ + spec_dec(status as u64),
        })),
{
    if 200 <= status && status < 300 {
        transcription_of_text(extract_text(body))
    } else {
        Err(AppError::WhisperApi(whisper_error_for_status(status, extract_error_message(body))))
    }
}

/// Maps one transcription attempt's transport failure: a client-side deadline
/// becomes a timeout, anything else carries the transport's own text.
pub fn whisper_transport_error(timed_out: bool, detail: String) -> (r: WhisperError)
    ensures
        timed_out ==> r == WhisperError::Timeout,
        !timed_out ==> r == WhisperError::TranscriptionFailed(detail),
{
    if timed_out {
        WhisperError::Timeout
    } else {
        WhisperError::TranscriptionFailed(detail)
    }
}

} // verus!
