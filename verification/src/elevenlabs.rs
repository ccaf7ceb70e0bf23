//! The speech-synthesis client: request validation and construction, voice
//! listing, and the classification of everything the service can send back.
//!
//! The HTTP transport lives outside the library; it receives a
//! [`SpeechRequest`] or a [`VoicesRequest`], performs the call, and hands the
//! status and body back to the classification functions here.

use vstd::prelude::*;
use vstd::string::StringExecFns;

use crate::config::{clone_opt_string, opt_str_eq, ElevenLabsConfig, VoiceSettings};
use crate::errors::{AppError, ElevenLabsError};
use crate::text::{
    dec, opt_text_eq, spec_dec, spec_strip_suffix, spec_trim_trailing, strip_suffix,
    trim_trailing, utf8_len,
};

verus! {

/// The synthesis text limit, in bytes: typical plan limits sit near 5000
/// characters.
pub const MAX_SPEECH_CHARS: usize = 5000;

/// Speech-synthesis client: the configuration snapshot and credential it was
/// constructed with.
#[derive(Debug)]
pub struct ElevenLabsClient {
    pub config: ElevenLabsConfig,
    pub api_key: Option<String>,
}

/// Voice information from the voice listing.
#[derive(Debug)]
pub struct Voice {
    pub voice_id: String,
    pub name: String,
    pub category: Option<String>,
    /// Label entries, in the service's order.
    pub labels: Option<Vec<(String, String)>>,
}

/// Everything the transport needs for one synthesis call.
#[derive(Debug)]
pub struct SpeechRequest {
    /// Where to post the synthesis request: the configured endpoint without
    /// trailing slashes, then the voice as one more path segment.
    pub endpoint: String,
    /// The voice the request addresses, as named in the endpoint.
    pub voice_id: String,
    /// Service credential, when one is configured.
    pub api_key: Option<String>,
    /// Model named in the payload.
    pub model_id: String,
    /// Voice settings named in the payload.
    pub voice_settings: VoiceSettings,
    /// The text to synthesize.
    pub text: String,
    /// Per-call deadline in seconds.
    pub timeout_secs: u64,
}

/// Everything the transport needs to list voices.
#[derive(Debug)]
pub struct VoicesRequest {
    /// Where to fetch the voices: the synthesis endpoint with its
    /// "/text-to-speech" segment dropped and "/voices" in its place.
    pub endpoint: String,
    /// Service credential.
    pub api_key: String,
    /// Per-call deadline in seconds.
    pub timeout_secs: u64,
}

impl ElevenLabsClient {
    /// Builds the client from a configuration snapshot and an optional
    /// credential.
    pub fn new(config: ElevenLabsConfig, api_key: Option<String>) -> (c: Self)
        ensures
            c.config == config,
            c.api_key == api_key,
    {
        ElevenLabsClient { config, api_key }
    }

    /// Validates one synthesis call and lays out its request: text over the
    /// limit is rejected before any transport work, and anything else yields
    /// exactly the configured call against the voice's URL.
    pub fn speech_request(&self, text: &str) -> (r: Result<SpeechRequest, AppError>)
        ensures
            utf8_len(text@) > MAX_SPEECH_CHARS ==> r == Err::<SpeechRequest, AppError>(
                AppError::ElevenLabs(ElevenLabsError::CharacterLimitExceeded),
            ),
            utf8_len(text@) <= MAX_SPEECH_CHARS ==> (r matches Ok(q) && q.endpoint@
                == spec_trim_trailing(self.config.endpoint@, '/') + "/"@ + self.config.voice_id@
                && q.voice_id@ == self.config.voice_id@ && opt_str_eq(q.api_key, self.api_key)
                && q.model_id@ == self.config.model_id@
                && q.voice_settings == self.config.voice_settings && q.text@ == text@
                && q.timeout_secs == self.config.timeout_secs),
    {
        if text.as_bytes().len() > MAX_SPEECH_CHARS {
            return Err(AppError::ElevenLabs(ElevenLabsError::CharacterLimitExceeded));
        }
        let base = trim_trailing(self.config.endpoint.as_str(), '/');
        let endpoint = base.concat("/").concat(self.config.voice_id.as_str());
        Ok(
            SpeechRequest {
                endpoint,
                voice_id: self.config.voice_id.clone(),
                api_key: clone_opt_string(&self.api_key),
                model_id: self.config.model_id.clone(),
                voice_settings: self.config.voice_settings.clone(),
                text: text.to_owned(),
                timeout_secs: self.config.timeout_secs,
            },
        )
    }

    /// Lays out a voice-listing call, which needs a credential up front.
    pub fn voices_request(&self) -> (r: Result<VoicesRequest, AppError>)
        ensures
            self.api_key is None ==> r == Err::<VoicesRequest, AppError>(
                AppError::ElevenLabs(ElevenLabsError::AuthenticationFailed),
            ),
            self.api_key matches Some(k) ==> (r matches Ok(q) && q.endpoint@ == spec_strip_suffix(
                spec_trim_trailing(self.config.endpoint@, '/'),
                "/text-to-speech"@,
            ) + "/voices"@ && q.api_key@ == k@ && q.timeout_secs == self.config.timeout_secs),
    {
        match &self.api_key {
            Option::None => Err(AppError::ElevenLabs(ElevenLabsError::AuthenticationFailed)),
            Option::Some(k) => {
                let base = trim_trailing(self.config.endpoint.as_str(), '/');
                let stripped = strip_suffix(base.as_str(), "/text-to-speech");
                Ok(
                    VoicesRequest {
                        endpoint: stripped.concat("/voices"),
                        api_key: k.clone(),
                        timeout_secs: self.config.timeout_secs,
                    },
                )
            },
        }
    }

    /// True when the connectivity probe can run at all: it needs a
    /// credential, and without one the service counts as unreachable.
    pub fn probe_possible(&self) -> (r: bool)
        ensures
            r == (self.api_key is Some),
    {
        self.api_key.is_some()
    }

    /// Swaps the configuration snapshot without reconstruction.
    pub fn update_config(&mut self, config: ElevenLabsConfig)
        ensures
            final(self).config == config,
            final(self).api_key == old(self).api_key,
    {
        self.config = config;
    }

    /// Swaps the credential without reconstruction.
    pub fn update_api_key(&mut self, api_key: Option<String>)
        ensures
            final(self).api_key == api_key,
            final(self).config == old(self).config,
    {
        self.api_key = api_key;
    }

    /// The configured voice.
    pub fn get_voice_id(&self) -> (r: &str)
        ensures
            r@ == self.config.voice_id@,
    {
        self.config.voice_id.as_str()
    }

    /// Replaces the configured voice.
    pub fn set_voice_id(&mut self, voice_id: String)
        ensures
            final(self).config.voice_id == voice_id,
            final(self).config.endpoint == old(self).config.endpoint,
            final(self).config.model_id == old(self).config.model_id,
            final(self).config.voice_settings == old(self).config.voice_settings,
            final(self).config.timeout_secs == old(self).config.timeout_secs,
            final(self).api_key == old(self).api_key,
    {
        self.config.voice_id = voice_id;
    }

    /// Replaces the configured voice settings.
    pub fn update_voice_settings(&mut self, settings: VoiceSettings)
        ensures
            final(self).config.voice_settings == settings,
            final(self).config.endpoint == old(self).config.endpoint,
            final(self).config.voice_id == old(self).config.voice_id,
            final(self).config.model_id == old(self).config.model_id,
            final(self).config.timeout_secs == old(self).config.timeout_secs,
            final(self).api_key == old(self).api_key,
    {
        self.config.voice_settings = settings;
    }
}

impl SpeechRequest {
    /// A synthesis attempt needs a credential; without one it fails before
    /// any transport work.
    pub fn check_auth(&self) -> (r: Result<(), AppError>)
        ensures
            self.api_key is None ==> r == Err::<(), AppError>(
                AppError::ElevenLabs(ElevenLabsError::AuthenticationFailed),
            ),
            self.api_key is Some ==> r == Ok::<(), AppError>(()),
    {
        match &self.api_key {
            Option::None => Err(AppError::ElevenLabs(ElevenLabsError::AuthenticationFailed)),
            Option::Some(_) => Ok(()),
        }
    }
}

/// The message of a `{"detail": ...}` body, when the body is JSON whose
/// detail is either the message itself or an object carrying one: a pure
/// function of the body text, computed by serde_json through
/// [`extract_detail_message`].
pub uninterp spec fn detail_message_of(body: Seq<char>) -> Option<Seq<char>>;

/// The voices list of a voice-listing body, when the body is JSON that
/// carries a well-formed one — each entry its identifier, name, optional
/// category and optional label pairs: a pure function of the body text,
/// computed by serde_json through [`extract_voices`].
pub uninterp spec fn voices_of(body: Seq<char>) -> Option<
    Seq<(Seq<char>, Seq<char>, Option<Seq<char>>, Option<Seq<(Seq<char>, Seq<char>)>>)>,
>;

/// Optional label pairs carrying exactly the optional pair list.
pub open spec fn opt_labels_eq(
    a: Option<Vec<(String, String)>>,
    b: Option<Seq<(Seq<char>, Seq<char>)>>,
) -> bool {
    match (a, b) {
        (Option::Some(list), Option::Some(v)) => list@.len() == v.len() && (forall|i: int|
            #![all_triggers]
            0 <= i < v.len() ==> list@[i].0@ == v[i].0 && list@[i].1@ == v[i].1),
        (Option::None, Option::None) => true,
        _ => false,
    }
}

/// Relies on serde_json::from_str and serde_json::Value's get/as_str: reads
/// the "detail" message of the body — the detail itself when it is a string,
/// else its "message" field — a function of the body text alone, named by
/// [`detail_message_of`].
#[verifier::external_body]
pub(crate) fn extract_detail_message(body: &str) -> (r: Option<String>)
    ensures
        match detail_message_of(body@) {
            Some(t) => r matches Some(s) && s@ == t,
            None => r is None,
        },
{
    serde_json::from_str::<serde_json::Value>(body).ok().and_then(
        |v| v.get("detail").and_then(
            |d| match d.as_str() {
                Some(s) => Some(s.to_string()),
                None => d.get("message").and_then(|m| m.as_str().map(|s| s.to_string())),
            },
        ),
    )
}

/// Relies on serde_json::from_str and serde_json::Value's accessors: reads
/// the voices array of the body — requiring each entry's identifier and
/// name, taking the category and the label pairs along when present — a
/// function of the body text alone, named by [`voices_of`].
#[verifier::external_body]
fn extract_voices(body: &str) -> (r: Option<
    Vec<(String, String, Option<String>, Option<Vec<(String, String)>>)>,
>)
    ensures
        match voices_of(body@) {
            Some(vs) => r matches Some(list) && list@.len() == vs.len() && (forall|i: int|
                #![all_triggers]
                0 <= i < vs.len() ==> list@[i].0@ == vs[i].0 && list@[i].1@ == vs[i].1
                    && opt_text_eq(list@[i].2, vs[i].2) && opt_labels_eq(list@[i].3, vs[i].3)),
            None => r is None,
        },
{
    serde_json::from_str::<serde_json::Value>(body).ok()?.get("voices")?.as_array()?.iter().map(|x| {
        let labels = match x.get("labels").and_then(|l| l.as_object()) {
            None => None,
            Some(m) => {
                let ps: Option<Vec<_>> = m.iter().map(|(k, w)| Some((k.clone(), w.as_str()?.to_owned()))).collect();
                Some(ps?)
            },
        };
        Some((x.get("voice_id")?.as_str()?.to_owned(), x.get("name")?.as_str()?.to_owned(),
              x.get("category").and_then(|c| c.as_str()).map(str::to_owned), labels))
    }).collect()
}

/// Classifies a failing synthesis status: authentication for 401/403, a
/// missing voice for 404, rate limiting for 429, spent quota for 402, and
/// otherwise the service's own message, or the status and raw body when no
/// message could be read.
pub fn speech_error_for_status(status: u16, voice_id: &str, detail: Option<String>, body: &str) -> (
    r: ElevenLabsError)
    ensures
        status == 401 || status == 403 ==> r == ElevenLabsError::AuthenticationFailed,
        status == 404 ==> (r matches ElevenLabsError::VoiceNotFound(m) && m@ == voice_id@),
        status != 401 && status != 403 && status != 404 && status == 429 ==> r
            == ElevenLabsError::RateLimitExceeded,
        status != 401 && status != 403 && status != 404 && status != 429 && status == 402 ==> r
            == ElevenLabsError::QuotaExceeded,
        status != 401 && status != 403 && status != 404 && status != 429 && status != 402
            ==> match detail {
            Some(m) => r == ElevenLabsError::SynthesisFailed(m),
            None => r matches ElevenLabsError::SynthesisFailed(f) && f@ == "HTTP "@ + spec_dec(
                status as u64,
            ) + ": "@ + body@,
        },
{
    if status == 401 || status == 403 {
        ElevenLabsError::AuthenticationFailed
    } else if status == 404 {
        ElevenLabsError::VoiceNotFound(voice_id.to_owned())
    } else if status == 429 {
        ElevenLabsError::RateLimitExceeded
    } else if status == 402 {
        ElevenLabsError::QuotaExceeded
    } else {
        match detail {
            Option::Some(m) => ElevenLabsError::SynthesisFailed(m),
            Option::None => {
                let code = dec(status as u64);
                ElevenLabsError::SynthesisFailed(
                    String::from_str("HTTP ").concat(code.as_str()).concat(": ").concat(body),
                )
            },
        }
    }
}

/// Classifies one failing synthesis attempt from its status and body text,
/// reading the structured detail message out of the body where one exists.
pub fn speech_classify_error(status: u16, voice_id: &str, body: &str) -> (r: AppError)
    ensures
        status == 401 || status == 403 ==> r == AppError::ElevenLabs(
            ElevenLabsError::AuthenticationFailed,
        ),
        status == 404 ==> (r matches AppError::ElevenLabs(ElevenLabsError::VoiceNotFound(m)) && m@
            == voice_id@),
        status != 401 && status != 403 && status != 404 && status == 429 ==> r
            == AppError::ElevenLabs(ElevenLabsError::RateLimitExceeded),
        status != 401 && status != 403 && status != 404 && status != 429 && status == 402 ==> r
            == AppError::ElevenLabs(ElevenLabsError::QuotaExceeded),
        status != 401 && status != 403 && status != 404 && status != 429 && status != 402 ==> (r
            matches AppError::ElevenLabs(ElevenLabsError::SynthesisFailed(m)) && (match
        detail_message_of(body@) {
            Some(t) => m@ == t,
            None => m@ == "HTTP "@ + spec_dec(status as u64) + ": "@ + body@,
        })),
{
    AppError::ElevenLabs(
        speech_error_for_status(status, voice_id, extract_detail_message(body), body),
    )
}

/// Maps one synthesis attempt's transport failure: a client-side deadline
/// becomes a timeout, anything else carries the transport's own text.
pub fn speech_transport_error(timed_out: bool, detail: String) -> (r: ElevenLabsError)
    ensures
        timed_out ==> r == ElevenLabsError::Timeout,
        !timed_out ==> r == ElevenLabsError::SynthesisFailed(detail),
{
    if timed_out {
        ElevenLabsError::Timeout
    } else {
        ElevenLabsError::SynthesisFailed(detail)
    }
}

/// One voice carrying exactly one entry of the named voices list.
pub open spec fn voice_matches(
    v: Voice,
    w: (Seq<char>, Seq<char>, Option<Seq<char>>, Option<Seq<(Seq<char>, Seq<char>)>>),
) -> bool {
    &&& v.voice_id@ == w.0
    &&& v.name@ == w.1
    &&& opt_text_eq(v.category, w.2)
    &&& opt_labels_eq(v.labels, w.3)
}

/// Reads a voice-listing body into its voices: exactly when the body carries
/// a well-formed voices list, whose entries come through unchanged.
pub fn parse_voices(body: &str) -> (r: Option<Vec<Voice>>)
    ensures
        match voices_of(body@) {
            Some(vs) => r matches Some(voices) && voices@.len() == vs.len() && (forall|i: int|
                0 <= i < vs.len() ==> voice_matches(#[trigger] voices@[i], vs[i])),
            None => r is None,
        },
{
    let mut list = match extract_voices(body) {
        Option::None => { return Option::None },
        Option::Some(l) => l,
    };
    let ghost orig = list@;
    let mut voices: Vec<Voice> = Vec::new();
    while list.len() > 0
        invariant
            voices@.len() + list@.len() == orig.len(),
            list@ =~= orig.skip(voices@.len() as int),
            forall|i: int|
                #![all_triggers]
                0 <= i < voices@.len() ==> voices@[i].voice_id == orig[i].0 && voices@[i].name
                    == orig[i].1 && voices@[i].category == orig[i].2 && voices@[i].labels
                    == orig[i].3,
        decreases list.len(),
    {
        let ghost k = voices@.len() as int;
        let t = list.remove(0);
        proof {
            assert(t == orig[k]);
            assert(list@ =~= orig.skip(k + 1));
        }
        voices.push(Voice { voice_id: t.0, name: t.1, category: t.2, labels: t.3 });
    }
    Option::Some(voices)
}

/// Classifies one voice-listing response: any failing status is a synthesis
/// failure naming the status, and a success yields exactly the body's voices
/// list, or a parse failure when the body does not hold one.
pub fn voices_classify_response(status: u16, body: &str) -> (r: Result<Vec<Voice>, AppError>)
    ensures
        !(200 <= status < 300) ==> (r matches Err(
            AppError::ElevenLabs(ElevenLabsError::SynthesisFailed(m)),
        ) && m@ == "Failed to fetch voices: HTTP "@ + spec_dec(status as u64)),
        200 <= status < 300 ==> match voices_of(body@) {
            Some(vs) => r matches Ok(voices) && voices@.len() == vs.len() && (forall|i: int|
                0 <= i < vs.len() ==> voice_matches(#[trigger] voices@[i], vs[i])),
            None => r matches Err(AppError::ElevenLabs(ElevenLabsError::SynthesisFailed(m))) && m@
                == "malformed voices response body"@,
        },
{
    if 200 <= status && status < 300 {
        match parse_voices(body) {
            Option::None => Err(
                AppError::ElevenLabs(
                    ElevenLabsError::SynthesisFailed(
                        String::from_str("malformed voices response body"),
                    ),
                ),
            ),
            Option::Some(voices) => Ok(voices),
        }
    } else {
        let code = dec(status as u64);
        Err(
            AppError::ElevenLabs(
                ElevenLabsError::SynthesisFailed(
                    String::from_str("Failed to fetch voices: HTTP ").concat(code.as_str()),
                ),
            ),
        )
    }
}

} // verus!
