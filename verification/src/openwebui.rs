//! The chat client: context-length validation, request construction, and the
//! classification of everything the service can send back.
//!
//! The HTTP transport lives outside the library; it receives a
//! [`ChatRequest`], posts it as JSON, and hands the raw status and body back
//! to [`chat_classify_response`].

use vstd::prelude::*;
use vstd::string::StringExecFns;

use crate::config::{clone_opt_string, opt_str_eq, OpenWebUiConfig};
use crate::errors::{AppError, OpenWebUiError};
use crate::json::{json_as_str, json_as_u64, json_get, json_parse};
use crate::text::{dec, opt_text_eq, spec_dec, utf8_len};
use crate::whisper::{error_message_of, extract_error_message};

verus! {

/// Chat client: the configuration snapshot and credential it was constructed
/// with.
#[derive(Debug)]
pub struct OpenWebUiClient {
    pub config: OpenWebUiConfig,
    pub api_key: Option<String>,
}

/// Chat message for the API request and response.
#[derive(Debug)]
pub struct ChatMessage {
    pub role: String,
    pub content: String,
}

/// Chat completion response.
#[derive(Debug)]
pub struct ChatCompletionResponse {
    pub id: Option<String>,
    pub model: Option<String>,
    pub choices: Vec<ChatChoice>,
    pub usage: Option<ChatUsage>,
}

/// Chat choice from a response.
#[derive(Debug)]
pub struct ChatChoice {
    pub index: usize,
    pub message: ChatMessage,
    pub finish_reason: Option<String>,
}

/// Token usage information.
#[derive(Debug, Clone, Copy, PartialEq, Eq, Structural)]
pub struct ChatUsage {
    pub prompt_tokens: usize,
    pub completion_tokens: usize,
    pub total_tokens: usize,
}

/// Everything the transport needs for one chat call.
#[derive(Debug)]
pub struct ChatRequest {
    /// Where to post the completion request.
    pub endpoint: String,
    /// Bearer credential, when one is configured.
    pub api_key: Option<String>,
    /// Model named in the payload.
    pub model: String,
    /// Full conversation history, oldest first.
    pub messages: Vec<ChatMessage>,
    /// Generation temperature in thousandths.
    pub temperature_milli: u32,
    /// Maximum tokens to generate, when configured.
    pub max_tokens: Option<usize>,
    /// Whether a streaming response is requested.
    pub stream: bool,
    /// Per-call deadline in seconds.
    pub timeout_secs: u64,
}

/// The total byte length of the content parts of a (role, content) history.
pub open spec fn spec_total_content_bytes(ms: Seq<(String, String)>) -> nat
    decreases ms.len(),
{
    if ms.len() == 0 {
        0
    } else {
        utf8_len(ms[0].1@) + spec_total_content_bytes(ms.drop_first())
    }
}

impl OpenWebUiClient {
    /// Builds the client from a configuration snapshot and an optional
    /// credential.
    pub fn new(config: OpenWebUiConfig, api_key: Option<String>) -> (c: Self)
        ensures
            c.config == config,
            c.api_key == api_key,
    {
        OpenWebUiClient { config, api_key }
    }

    /// Validates one chat call and lays out its request: a history whose
    /// total content length exceeds the configured maximum context length is
    /// rejected before any transport work, and anything else yields exactly
    /// the configured call with the history mapped onto wire messages.
    pub fn chat_request(&self, messages: Vec<(String, String)>) -> (r: Result<
        ChatRequest,
        AppError,
    >)
        ensures
            spec_total_content_bytes(messages@) > self.config.max_context_length ==> r == Err::<
                ChatRequest,
                AppError,
            >(AppError::OpenWebUi(OpenWebUiError::ContextLimitExceeded)),
            spec_total_content_bytes(messages@) <= self.config.max_context_length ==> (r matches Ok(
                q,
            ) && q.endpoint@ == self.config.endpoint@ && opt_str_eq(q.api_key, self.api_key)
                && q.model@ == self.config.model@ && q.messages@.len() == messages@.len() && (
            forall|i: int|
                #![all_triggers]
                0 <= i < messages@.len() ==> q.messages@[i].role@ == messages@[i].0@
                    && q.messages@[i].content@ == messages@[i].1@) && q.temperature_milli
                == self.config.temperature_milli && q.max_tokens == self.config.max_tokens
                && q.stream == self.config.stream && q.timeout_secs == self.config.timeout_secs),
    {
        let n = messages.len();
        let mut total: usize = 0;
        let mut i: usize = 0;
        proof {
            assert(messages@.skip(0) =~= messages@);
        }
        while i < n
            invariant
                n == messages@.len(),
                0 <= i <= n,
                spec_total_content_bytes(messages@) == total + spec_total_content_bytes(
                    messages@.skip(i as int),
                ),
            decreases n - i,
        {
            proof {
                assert(messages@.skip(i as int).drop_first() =~= messages@.skip(i as int + 1));
                assert(messages@.skip(i as int)[0] == messages@[i as int]);
            }
            let len = messages[i].1.as_str().as_bytes().len();
            match total.checked_add(len) {
                Option::Some(t) => {
                    total = t;
                },
                Option::None => {
                    return Err(AppError::OpenWebUi(OpenWebUiError::ContextLimitExceeded));
                },
            }
            i = i + 1;
        }
        proof {
            assert(messages@.skip(n as int) =~= Seq::<(String, String)>::empty());
        }
        if total > self.config.max_context_length {
            return Err(AppError::OpenWebUi(OpenWebUiError::ContextLimitExceeded));
        }
        let mut wire: Vec<ChatMessage> = Vec::new();
        let mut j: usize = 0;
        while j < n
            invariant
                n == messages@.len(),
                0 <= j <= n,
                wire@.len() == j,
                forall|k: int|
                    #![all_triggers]
                    0 <= k < j ==> wire@[k].role@ == messages@[k].0@ && wire@[k].content@
                        == messages@[k].1@,
            decreases n - j,
        {
            let pair = &messages[j];
            wire.push(ChatMessage { role: pair.0.clone(), content: pair.1.clone() });
            j = j + 1;
        }
        Ok(
            ChatRequest {
                endpoint: self.config.endpoint.clone(),
                api_key: clone_opt_string(&self.api_key),
                model: self.config.model.clone(),
                messages: wire,
                temperature_milli: self.config.temperature_milli,
                max_tokens: self.config.max_tokens,
                stream: self.config.stream,
                timeout_secs: self.config.timeout_secs,
            },
        )
    }

    /// Swaps the configuration snapshot without reconstruction.
    pub fn update_config(&mut self, config: OpenWebUiConfig)
        ensures
            final(self).config == config,
            final(self).api_key == old(self).api_key,
    {
        self.config = config;
    }

    /// Swaps the credential without reconstruction.
    pub fn update_api_key(&mut self, api_key: Option<String>)
        ensures
            final(self).api_key == api_key,
            final(self).config == old(self).config,
    {
        self.api_key = api_key;
    }

    /// The configured model name.
    pub fn get_model(&self) -> (r: &str)
        ensures
            r@ == self.config.model@,
    {
        self.config.model.as_str()
    }

    /// Lays out the connectivity probe: a minimal single-message completion
    /// against the configured endpoint, with a low temperature, a five-token
    /// cap and a five-second deadline.
    pub fn probe_request(&self) -> (q: ChatRequest)
        ensures
            q.endpoint@ == self.config.endpoint@,
            opt_str_eq(q.api_key, self.api_key),
            q.model@ == self.config.model@,
            q.messages@.len() == 1,
            q.messages@[0].role@ == "user"@,
            q.messages@[0].content@ == "test"@,
            q.temperature_milli == 100,
            q.max_tokens == Some(5usize),
            q.stream == false,
            q.timeout_secs == 5,
    {
        let mut messages: Vec<ChatMessage> = Vec::new();
        messages.push(
            ChatMessage { role: String::from_str("user"), content: String::from_str("test") },
        );
        ChatRequest {
            endpoint: self.config.endpoint.clone(),
            api_key: clone_opt_string(&self.api_key),
            model: self.config.model.clone(),
            messages,
            temperature_milli: 100,
            max_tokens: Some(5),
            stream: false,
            timeout_secs: 5,
        }
    }

    /// Replaces the configured model name.
    pub fn set_model(&mut self, model: String)
        ensures
            final(self).config.model == model,
            final(self).config.endpoint == old(self).config.endpoint,
            final(self).config.max_context_length == old(self).config.max_context_length,
            final(self).config.temperature_milli == old(self).config.temperature_milli,
            final(self).config.max_tokens == old(self).config.max_tokens,
            final(self).config.stream == old(self).config.stream,
            final(self).config.timeout_secs == old(self).config.timeout_secs,
            final(self).api_key == old(self).api_key,
    {
        self.config.model = model;
    }
}

/// The choices list of a chat completion body, when the body is JSON that
/// carries a well-formed one — each entry its index, role, content and
/// optional finish reason: a pure function of the body text, computed by
/// serde_json through [`extract_choices`].
pub uninterp spec fn chat_choices_of(body: Seq<char>) -> Option<
    Seq<(u64, Seq<char>, Seq<char>, Option<Seq<char>>)>,
>;

/// Relies on serde_json::from_str and serde_json::Value's accessors: reads
/// the choices array of the body — requiring each entry's index, role and
/// content, taking the finish reason along when present — a function of the
/// body text alone, named by [`chat_choices_of`].
#[verifier::external_body]
fn extract_choices(body: &str) -> (r: Option<Vec<(u64, String, String, Option<String>)>>)
    ensures
        match chat_choices_of(body@) {
            Some(cs) => r matches Some(list) && list@.len() == cs.len() && (forall|i: int|
                #![all_triggers]
                0 <= i < cs.len() ==> list@[i].0 == cs[i].0 && list@[i].1@ == cs[i].1
                    && list@[i].2@ == cs[i].2 && opt_text_eq(list@[i].3, cs[i].3)),
            None => r is None,
        },
{
    let v: serde_json::Value = serde_json::from_str(body).ok()?;
    v.get("choices")?.as_array()?.iter().map(|c| {
        let m = c.get("message")?;
        Some((c.get("index")?.as_u64()?,
              m.get("role")?.as_str()?.to_owned(),
              m.get("content")?.as_str()?.to_owned(),
              c.get("finish_reason").and_then(|f| f.as_str()).map(|s| s.to_owned())))
    }).collect::<Option<Vec<_>>>()
}

/// Reads the usage object when all three counters are present.
fn parse_usage(v: &serde_json::Value) -> Option<ChatUsage> {
    let prompt = match json_get(v, "prompt_tokens") {
        Option::None => { return Option::None },
        Option::Some(x) => match json_as_u64(&x) {
            Option::None => { return Option::None },
            Option::Some(u) => u,
        },
    };
    let completion = match json_get(v, "completion_tokens") {
        Option::None => { return Option::None },
        Option::Some(x) => match json_as_u64(&x) {
            Option::None => { return Option::None },
            Option::Some(u) => u,
        },
    };
    let total = match json_get(v, "total_tokens") {
        Option::None => { return Option::None },
        Option::Some(x) => match json_as_u64(&x) {
            Option::None => { return Option::None },
            Option::Some(u) => u,
        },
    };
    if prompt > usize::MAX as u64 || completion > usize::MAX as u64 || total > usize::MAX as u64 {
        return Option::None;
    }
    Option::Some(
        ChatUsage {
            prompt_tokens: prompt as usize,
            completion_tokens: completion as usize,
            total_tokens: total as usize,
        },
    )
}

/// Reads a chat completion body into its response structure: exactly when
/// the body carries a well-formed choices list, whose entries come through
/// unchanged (given indices that fit the platform); the id, model and usage
/// fields are taken along when present and well-formed.
pub fn parse_chat_completion(body: &str) -> (r: Option<ChatCompletionResponse>)
    ensures
        match chat_choices_of(body@) {
            Some(cs) => (forall|i: int| 0 <= i < cs.len() ==> (#[trigger] cs[i]).0 <= usize::MAX)
                ==> (r matches Some(resp) && resp.choices@.len() == cs.len() && (forall|i: int|
                #![all_triggers]
                0 <= i < cs.len() ==> resp.choices@[i].index == cs[i].0
                    && resp.choices@[i].message.role@ == cs[i].1 && resp.choices@[i].message.content@
                    == cs[i].2 && opt_text_eq(resp.choices@[i].finish_reason, cs[i].3))),
            None => r is None,
        },
{
    let mut list = match extract_choices(body) {
        Option::None => { return Option::None },
        Option::Some(l) => l,
    };
    let ghost orig = list@;
    proof {
        match chat_choices_of(body@) {
            Option::Some(cs) => {
                assert(orig.len() == cs.len());
                assert(forall|i: int|
                    #![all_triggers]
                    0 <= i < cs.len() ==> orig[i].0 == cs[i].0 && orig[i].1@ == cs[i].1
                        && orig[i].2@ == cs[i].2 && opt_text_eq(orig[i].3, cs[i].3));
            },
            Option::None => {
                assert(false);
            },
        }
    }
    let mut choices: Vec<ChatChoice> = Vec::new();
    while list.len() > 0
        invariant
            choices@.len() + list@.len() == orig.len(),
            list@ =~= orig.skip(choices@.len() as int),
            chat_choices_of(body@) is Some,
            chat_choices_of(body@) matches Some(cs) ==> orig.len() == cs.len() && (forall|i: int|
                #![all_triggers]
                0 <= i < cs.len() ==> orig[i].0 == cs[i].0 && orig[i].1@ == cs[i].1 && orig[i].2@
                    == cs[i].2 && opt_text_eq(orig[i].3, cs[i].3)),
            forall|i: int|
                #![all_triggers]
                0 <= i < choices@.len() ==> choices@[i].index == orig[i].0
                    && choices@[i].message.role == orig[i].1 && choices@[i].message.content
                    == orig[i].2 && choices@[i].finish_reason == orig[i].3,
        decreases list.len(),
    {
        let ghost k = choices@.len() as int;
        let t = list.remove(0);
        proof {
            assert(t == orig[k]);
            assert(list@ =~= orig.skip(k + 1));
        }
        if t.0 > usize::MAX as u64 {
            proof {
                match chat_choices_of(body@) {
                    Option::Some(cs) => {
                        assert(cs[k].0 == orig[k].0);
                    },
                    Option::None => {},
                }
            }
            return Option::None;
        }
        choices.push(
            ChatChoice {
                index: t.0 as usize,
                message: ChatMessage { role: t.1, content: t.2 },
                finish_reason: t.3,
            },
        );
    }
    let id = match json_parse(body) {
        Option::None => Option::None,
        Option::Some(v) => match json_get(&v, "id") {
            Option::None => Option::None,
            Option::Some(x) => json_as_str(&x),
        },
    };
    let model = match json_parse(body) {
        Option::None => Option::None,
        Option::Some(v) => match json_get(&v, "model") {
            Option::None => Option::None,
            Option::Some(x) => json_as_str(&x),
        },
    };
    let usage = match json_parse(body) {
        Option::None => Option::None,
        Option::Some(v) => match json_get(&v, "usage") {
            Option::None => Option::None,
            Option::Some(x) => parse_usage(&x),
        },
    };
    Option::Some(ChatCompletionResponse { id, model, choices, usage })
}

/// Extracts the assistant's reply: the first choice's message content, or a
/// parse failure when the response holds no choices.
pub fn extract_reply(resp: &ChatCompletionResponse) -> (r: Result<String, AppError>)
    ensures
        resp.choices@.len() == 0 ==> (r matches Err(
            AppError::OpenWebUi(OpenWebUiError::ResponseParseFailed(m)),
        ) && m@ == "No choices in response"@),
        resp.choices@.len() > 0 ==> (r matches Ok(t) && t@ == resp.choices@[0].message.content@),
{
    if resp.choices.len() == 0 {
        Err(
            AppError::OpenWebUi(
                OpenWebUiError::ResponseParseFailed(String::from_str("No choices in response")),
            ),
        )
    } else {
        Ok(resp.choices[0].message.content.clone())
    }
}

/// Classifies a failing chat status: authentication for 401/403, a missing
/// model for 404, rate limiting for 429, and otherwise the service's own
/// error message, or the bare status when no message could be read.
pub fn chat_error_for_status(status: u16, model: &str, detail: Option<String>) -> (r:
    OpenWebUiError)
    ensures
        status == 401 || status == 403 ==> r == OpenWebUiError::AuthenticationFailed,
        status == 404 ==> (r matches OpenWebUiError::ModelNotFound(m) && m@ == model@),
        status != 401 && status != 403 && status != 404 && status == 429 ==> r
            == OpenWebUiError::RateLimitExceeded,
        status != 401 && status != 403 && status != 404 && status != 429 ==> match detail {
            Some(m) => r == OpenWebUiError::MessageSendFailed(m),
            None => r matches OpenWebUiError::MessageSendFailed(f) && f@ == "HTTP "@ + spec_dec(
                status as u64,
            ),
        },
{
    if status == 401 || status == 403 {
        OpenWebUiError::AuthenticationFailed
    } else if status == 404 {
        OpenWebUiError::ModelNotFound(model.to_owned())
    } else if status == 429 {
        OpenWebUiError::RateLimitExceeded
    } else {
        match detail {
            Option::Some(m) => OpenWebUiError::MessageSendFailed(m),
            Option::None => {
                let code = dec(status as u64);
                OpenWebUiError::MessageSendFailed(String::from_str("HTTP ").concat(code.as_str()))
            },
        }
    }
}

/// Classifies one chat attempt's HTTP response. A success status with a
/// streaming request is refused outright rather than silently degraded; a
/// plain success yields the reply exactly as [`extract_reply`] decides it;
/// any other status yields the error [`chat_error_for_status`] assigns it.
pub fn chat_classify_response(status: u16, stream: bool, model: &str, body: &str) -> (r: Result<
    String,
    AppError,
>)
    ensures
        200 <= status < 300 && stream ==> r == Err::<String, AppError>(
            AppError::OpenWebUi(OpenWebUiError::StreamingNotSupported),
        ),
        200 <= status < 300 && !stream ==> match chat_choices_of(body@) {
            Some(cs) => (forall|i: int| 0 <= i < cs.len() ==> (#[trigger] cs[i]).0 <= usize::MAX)
                ==> (if cs.len() == 0 {
                r matches Err(AppError::OpenWebUi(OpenWebUiError::ResponseParseFailed(m))) && m@
                    == "No choices in response"@
            } else {
                r matches Ok(t) && t@ == cs[0].2
            }),
            None => r matches Err(AppError::OpenWebUi(OpenWebUiError::ResponseParseFailed(m)))
                && m@ == "malformed chat completion body"@,
        },
        status == 401 || status == 403 ==> r == Err::<String, AppError>(
            AppError::OpenWebUi(OpenWebUiError::AuthenticationFailed),
        ),
        status == 404 ==> (r matches Err(AppError::OpenWebUi(OpenWebUiError::ModelNotFound(m)))
            && m@ == model@),
        status == 429 ==> r == Err::<String, AppError>(
            AppError::OpenWebUi(OpenWebUiError::RateLimitExceeded),
        ),
        !(200 <= status < 300) && status != 401 && status != 403 && status != 404 && status != 429
            ==> (r matches Err(AppError::OpenWebUi(OpenWebUiError::MessageSendFailed(m))) && (
        match error_message_of(body@) {
            Some(t) => m@ == t,
            None => m@ == "HTTP "@ + spec_dec(status as u64),
        })),
{
    if 200 <= status && status < 300 {
        if stream {
            return Err(AppError::OpenWebUi(OpenWebUiError::StreamingNotSupported));
        }
        match parse_chat_completion(body) {
            Option::None => Err(
                AppError::OpenWebUi(
                    OpenWebUiError::ResponseParseFailed(
                        String::from_str("malformed chat completion body"),
                    ),
                ),
            ),
            Option::Some(resp) => extract_reply(&resp),
        }
    } else {
        Err(
            AppError::OpenWebUi(
                chat_error_for_status(status, model, extract_error_message(body)),
            ),
        )
    }
}

/// Maps one chat attempt's transport failure: a client-side deadline becomes
/// a timeout, anything else carries the transport's own text.
pub fn chat_transport_error(timed_out: bool, detail: String) -> (r: OpenWebUiError)
    ensures
        timed_out ==> r == OpenWebUiError::Timeout,
        !timed_out ==> r == OpenWebUiError::MessageSendFailed(detail),
{
    if timed_out {
        OpenWebUiError::Timeout
    } else {
        OpenWebUiError::MessageSendFailed(detail)
    }
}

} // verus!
