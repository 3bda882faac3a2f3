//! The client: its construction from an API key, and the requests it sends.
use vstd::prelude::*;

use crate::config::{engine_name, ModleConfig};
use crate::config::{is_default_config};
use crate::err::{Error, RequestFailure};
use crate::types::{ChatMessage, CompletionRequest, Input, Parameter, Role};

verus! {

/// The HTTP client of `reqwest`, carried through unopened.
#[verifier::external_type_specification]
#[verifier::external_body]
pub struct ExClient(reqwest::Client);

/// A header value of the `http` crate, carried through unopened.
#[verifier::external_type_specification]
#[verifier::external_body]
pub struct ExHeaderValue(reqwest::header::HeaderValue);

/// A byte that may stand in an HTTP header value: a visible ASCII character,
/// a space or a tab, or any byte of 128 and above.
pub open spec fn is_header_value_byte(b: u8) -> bool {
    (b >= 32 && b != 127) || b == 9
}

/// Bytes that make a valid HTTP header value.
pub open spec fn is_header_value(bytes: Seq<u8>) -> bool {
    forall|i: int| 0 <= i < bytes.len() ==> is_header_value_byte(#[trigger] bytes[i])
}

/// How the `http` crate describes a rejected header value.
pub const INVALID_HEADER_VALUE_TEXT: &'static str = "failed to parse header value";

/// The header value that `HeaderValue::from_bytes` makes of valid bytes: a
/// function of the bytes alone.
pub uninterp spec fn header_value_of(bytes: Seq<u8>) -> reqwest::header::HeaderValue;

/// `HeaderValue::from_bytes` of the `http` crate (re-exported by `reqwest`),
/// with its error turned into the error's text. Claimed, as its source shows:
/// it succeeds exactly when every byte is a valid header-value byte, the
/// value it makes is a function of the bytes (`header_value_of`), and the
/// error (`InvalidHeaderValue`) always displays as
/// `INVALID_HEADER_VALUE_TEXT`.
#[verifier::external_body]
fn header_value_from_bytes(bytes: &[u8]) -> (value: core::result::Result<reqwest::header::HeaderValue, String>)
    ensures
        value is Ok <==> is_header_value(bytes@),
        value matches Ok(v) ==> v == header_value_of(bytes@),
        value matches Err(text) ==> text@ == INVALID_HEADER_VALUE_TEXT@,
{
    match reqwest::header::HeaderValue::from_bytes(bytes) {
        Ok(value) => Ok(value),
        Err(error) => Err(error.to_string()),
    }
}

/// A header name that `HeaderName::from_static` of the `http` crate takes
/// without panicking: not empty, shorter than 65536 characters, and made of
/// lower-case letters, digits and `-`.
pub open spec fn is_static_header_name(name: Seq<char>) -> bool {
    &&& 0 < name.len() < 65536
    &&& forall|i: int| 0 <= i < name.len() ==> {
        let c = #[trigger] name[i];
        ('a' <= c && c <= 'z') || ('0' <= c && c <= '9') || c == '-'
    }
}

/// What the HTTP client is built from: the one header that it sends with
/// every request, and the time after which a request is abandoned.
pub struct ClientSettings {
    pub header_name: &'static str,
    pub header_value: reqwest::header::HeaderValue,
    pub timeout: core::time::Duration,
}

/// `reqwest`'s client built from `settings`: a header map that holds
/// `settings.header_value` under `settings.header_name` (`HeaderMap::new`,
/// `HeaderName::from_static`, `HeaderMap::insert`), handed to
/// `ClientBuilder::new().default_headers(..).timeout(settings.timeout).build()`;
/// an error is turned into what it reports of itself. Whether the build
/// succeeds depends on the machine (a TLS backend and the resolver's
/// configuration are loaded), so nothing is claimed of the outcome.
#[verifier::external_body]
fn build_client(settings: ClientSettings) -> (client: core::result::Result<reqwest::Client, RequestFailure>)
    requires
        is_static_header_name(settings.header_name@),
{
    let mut headers = reqwest::header::HeaderMap::new();
    headers.insert(reqwest::header::HeaderName::from_static(settings.header_name), settings.header_value);
    match reqwest::ClientBuilder::new().default_headers(headers).timeout(settings.timeout).build() {
        Ok(client) => Ok(client),
        Err(error) => Err(RequestFailure {
            text: error.to_string(),
            status: error.status().map(|status| status.as_u16()),
            is_timeout: error.is_timeout(),
        }),
    }
}

/// The text of the `Authorization` header that the client sends.
pub open spec fn authorization_value(api_key: Seq<char>) -> Seq<char> {
    "Bearer "@ + api_key
}

/// A character whose UTF-8 bytes may stand in an HTTP header value: any but
/// the control characters other than tab.
pub open spec fn is_header_value_char(c: char) -> bool {
    (c >= ' ' && c != '\u{7f}') || c == '\t'
}

/// The API key makes a valid `Authorization` header value: it holds no
/// control character but tab.
pub open spec fn accepts_api_key(api_key: Seq<char>) -> bool {
    forall|i: int| 0 <= i < api_key.len() ==> is_header_value_char(#[trigger] api_key[i])
}

proof fn lemma_header_value_concat(a: Seq<u8>, b: Seq<u8>)
    ensures
        is_header_value(a + b) <==> is_header_value(a) && is_header_value(b),
{
    if is_header_value(a) && is_header_value(b) {
        assert forall|i: int| 0 <= i < (a + b).len() implies is_header_value_byte(#[trigger] (a + b)[i]) by {
            if i >= a.len() {
                assert((a + b)[i] == b[i - a.len()]);
            }
        }
    }
    if is_header_value(a + b) {
        assert forall|i: int| 0 <= i < b.len() implies is_header_value_byte(#[trigger] b[i]) by {
            assert((a + b)[i + a.len()] == b[i]);
        }
        assert forall|i: int| 0 <= i < a.len() implies is_header_value_byte(#[trigger] a[i]) by {
            assert((a + b)[i] == a[i]);
        }
    }
}

proof fn lemma_scalar_header_bytes(c: char)
    ensures
        is_header_value(vstd::utf8::encode_scalar(c as u32)) <==> is_header_value_char(c),
{
    let v = c as u32;
    if v <= 0x7F {
        assert(((v & 0x7F) as u8) as u32 == v) by (bit_vector)
            requires
                v <= 0x7F,
        ;
        let bytes = vstd::utf8::encode_scalar(v);
        assert(bytes.len() == 1 && bytes[0] as u32 == v);
    } else {
        assert(forall|x: u32| #![auto] (0xC0u8 | ((x >> 6) & 0x1F) as u8) >= 0x80) by (bit_vector);
        assert(forall|x: u32| #![auto] (0xE0u8 | ((x >> 12) & 0x0F) as u8) >= 0x80) by (bit_vector);
        assert(forall|x: u32| #![auto] (0xF0u8 | ((x >> 18) & 0x7) as u8) >= 0x80) by (bit_vector);
        assert(forall|x: u32| #![auto] (0x80u8 | (x & 0x3F) as u8) >= 0x80) by (bit_vector);
        assert(forall|x: u32| #![auto] (0x80u8 | ((x >> 6) & 0x3F) as u8) >= 0x80) by (bit_vector);
        assert(forall|x: u32| #![auto] (0x80u8 | ((x >> 12) & 0x3F) as u8) >= 0x80) by (bit_vector);
        let bytes = vstd::utf8::encode_scalar(v);
        assert forall|i: int| 0 <= i < bytes.len() implies is_header_value_byte(#[trigger] bytes[i]) by {
            assert(bytes[i] >= 0x80);
        }
    }
}

/// The UTF-8 bytes of a text make a valid header value exactly when each of
/// its characters may stand in one.
pub proof fn lemma_header_value_chars(s: Seq<char>)
    ensures
        is_header_value(vstd::utf8::encode_utf8(s)) <==> forall|i: int|
            0 <= i < s.len() ==> is_header_value_char(#[trigger] s[i]),
    decreases s.len(),
{
    if s.len() > 0 {
        lemma_header_value_chars(s.drop_first());
        lemma_scalar_header_bytes(s[0]);
        lemma_header_value_concat(
            vstd::utf8::encode_scalar(s[0] as u32),
            vstd::utf8::encode_utf8(s.drop_first()),
        );
        if forall|i: int| 0 <= i < s.len() ==> is_header_value_char(#[trigger] s[i]) {
            assert forall|i: int| 0 <= i < s.drop_first().len() implies is_header_value_char(
                #[trigger] s.drop_first()[i],
            ) by {
                assert(s.drop_first()[i] == s[i + 1]);
            }
        }
        if is_header_value(vstd::utf8::encode_utf8(s)) {
            assert forall|i: int| 0 <= i < s.len() implies is_header_value_char(#[trigger] s[i]) by {
                if i > 0 {
                    assert(s[i] == s.drop_first()[i - 1]);
                }
            }
        }
    }
}

/// The `Authorization` value `Bearer <api_key>` is valid exactly when the
/// API key holds no control character but tab.
pub proof fn lemma_authorization_accepted(api_key: Seq<char>)
    ensures
        is_header_value(vstd::utf8::encode_utf8(authorization_value(api_key))) <==> accepts_api_key(api_key),
{
    let value = authorization_value(api_key);
    reveal_strlit("Bearer ");
    lemma_header_value_chars(value);
    if accepts_api_key(api_key) {
        assert forall|i: int| 0 <= i < value.len() implies is_header_value_char(#[trigger] value[i]) by {
            if i >= 7 {
                assert(value[i] == api_key[i - 7]);
            }
        }
    }
    if forall|i: int| 0 <= i < value.len() ==> is_header_value_char(#[trigger] value[i]) {
        assert forall|i: int| 0 <= i < api_key.len() implies is_header_value_char(#[trigger] api_key[i]) by {
            assert(value[i + 7] == api_key[i]);
        }
    }
}

/// The name of the header that carries the API key.
pub const AUTHORIZATION_HEADER: &'static str = "authorization";

/// The name of the header that gives the content type of a request's body.
pub const CONTENT_TYPE_HEADER: &'static str = "content-type";

/// The settings of the HTTP client that talks to the service for `api_key`
/// under `config`: it sends `Authorization: Bearer <api_key>` with every
/// request and abandons a request after `config.timeout`.
pub open spec fn is_client_settings(settings: ClientSettings, api_key: Seq<char>, config: ModleConfig) -> bool {
    &&& settings.header_name@ == AUTHORIZATION_HEADER@
    &&& settings.header_value == header_value_of(vstd::utf8::encode_utf8(authorization_value(api_key)))
    &&& settings.timeout == config.timeout
}

/// The system message with which a single question is sent.
pub const ASSISTANT_PROMPT: &'static str = "You are a helpful assistant.";

/// The `result_format` that every request asks for.
pub const RESULT_FORMAT: &'static str = "message";

/// The header that asks the service to answer as a stream of server-sent events.
pub const SSE_HEADER: &'static str = "X-DashScope-SSE";

/// The value of `SSE_HEADER` that turns streaming on.
pub const SSE_ENABLE: &'static str = "enable";

/// The content type of a request's body.
pub const JSON_CONTENT_TYPE: &'static str = "application/json";

/// The parameters of a request: answers in the message format, delivered
/// piece by piece when `streaming`, of at most `max_tokens` tokens when a
/// limit is set.
pub open spec fn is_request_parameters(parameters: Parameter, streaming: bool, max_tokens: Option<u32>) -> bool {
    &&& parameters.result_format matches Some(format) && format@ == RESULT_FORMAT@
    &&& parameters.incremental_output == if streaming { Some(true) } else { None::<bool> }
    &&& parameters.max_tokens == max_tokens
}

/// The headers of a request besides those the client always sends: the
/// content type, and the one that turns streaming on when `streaming`.
pub open spec fn request_header_list(streaming: bool) -> Seq<(&'static str, &'static str)> {
    if streaming {
        seq![(CONTENT_TYPE_HEADER, JSON_CONTENT_TYPE), (SSE_HEADER, SSE_ENABLE)]
    } else {
        seq![(CONTENT_TYPE_HEADER, JSON_CONTENT_TYPE)]
    }
}

/// A client of the service: the HTTP client, which sends the API key with
/// every request, and the configuration.
pub struct Qwen {
    pub client: reqwest::Client,
    pub config: ModleConfig,
}

impl Qwen {
    /// A client with the default configuration; see `new_with_config`.
    pub fn new(api_key: String) -> (qwen: crate::Result<Self>)
        ensures
            qwen matches Ok(q) ==> accepts_api_key(api_key@) && is_default_config(q.config),
            qwen matches Err(e) ==> (e is InvalidHeaderValue <==> !accepts_api_key(api_key@)),
            qwen matches Err(e) ==> e is InvalidHeaderValue || e is ClientError,
            qwen matches Err(Error::InvalidHeaderValue(text)) ==> text@ == INVALID_HEADER_VALUE_TEXT@,
    {
        Self::new_with_config(api_key, ModleConfig::default())
    }

    /// The settings of the HTTP client for `api_key` under `config`; fails with
    /// `InvalidHeaderValue` exactly when `Bearer <api_key>` is not a valid
    /// header value.
    pub fn client_settings(api_key: &String, config: &ModleConfig) -> (settings: crate::Result<ClientSettings>)
        ensures
            settings is Ok <==> accepts_api_key(api_key@),
            settings matches Ok(s) ==> is_client_settings(s, api_key@, *config),
            settings matches Err(e) ==> e matches Error::InvalidHeaderValue(text) && text@
                == INVALID_HEADER_VALUE_TEXT@,
    {
        let mut token = String::from_str("Bearer ");
        token.append(api_key.as_str());
        proof {
            lemma_authorization_accepted(api_key@);
        }
        match header_value_from_bytes(token.as_str().as_bytes()) {
            Ok(value) => Ok(ClientSettings { header_name: AUTHORIZATION_HEADER, header_value: value, timeout: config.timeout }),
            Err(text) => Err(Error::InvalidHeaderValue(text)),
        }
    }

    /// A client that sends `Authorization: Bearer <api_key>` with every request
    /// and uses `config`: the HTTP client is built from `client_settings`.
    /// Fails with `InvalidHeaderValue` exactly when that header value is not
    /// valid; otherwise fails only with `ClientError`, when the HTTP client
    /// cannot be built on this machine.
    pub fn new_with_config(api_key: String, config: ModleConfig) -> (qwen: crate::Result<Self>)
        ensures
            qwen matches Ok(q) ==> accepts_api_key(api_key@) && q.config == config,
            qwen matches Err(e) ==> (e is InvalidHeaderValue <==> !accepts_api_key(api_key@)),
            qwen matches Err(e) ==> e is InvalidHeaderValue || e is ClientError,
            qwen matches Err(Error::InvalidHeaderValue(text)) ==> text@ == INVALID_HEADER_VALUE_TEXT@,
    {
        let settings = match Self::client_settings(&api_key, &config) {
            Ok(settings) => settings,
            Err(error) => {
                return Err(error);
            },
        };
        proof {
            reveal_strlit("authorization");
        }
        Self::with_client(build_client(settings), config)
    }

    /// The client that the outcome of building the HTTP client makes: with the
    /// HTTP client built, a client of the service that uses `config`; when it
    /// could not be built, `ClientError` with what the HTTP client reported.
    pub fn with_client(built: core::result::Result<reqwest::Client, RequestFailure>, config: ModleConfig) -> (qwen: crate::Result<Self>)
        ensures
            match built {
                Ok(client) => qwen == Ok::<Qwen, Error>(Qwen { client, config }),
                Err(failure) => qwen == Err::<Qwen, Error>(Error::ClientError(failure)),
            },
    {
        match built {
            Ok(client) => Ok(Qwen { client, config }),
            Err(failure) => Err(Error::ClientError(failure)),
        }
    }

    /// The headers that a request carries besides those the client always
    /// sends: the content type, and `X-DashScope-SSE: enable` when streaming.
    pub fn request_headers(streaming: bool) -> (headers: Vec<(&'static str, &'static str)>)
        ensures
            headers@ == request_header_list(streaming),
    {
        let mut headers = Vec::new();
        headers.push((CONTENT_TYPE_HEADER, JSON_CONTENT_TYPE));
        if streaming {
            headers.push((SSE_HEADER, SSE_ENABLE));
        }
        headers
    }

    /// The messages that ask a single question: the assistant prompt as the
    /// system message, then `question` from the user.
    pub fn question_messages(question: String) -> (messages: Vec<ChatMessage>)
        ensures
            messages@.len() == 2,
            messages@[0].role == Role::System,
            messages@[0].content@ == ASSISTANT_PROMPT@,
            messages@[1] == (ChatMessage { role: Role::User, content: question }),
    {
        let mut messages = Vec::new();
        messages.push(ChatMessage { role: Role::System, content: String::from_str(ASSISTANT_PROMPT) });
        messages.push(ChatMessage { role: Role::User, content: question });
        messages
    }

    /// The request that asks the configured model to answer `history`, as one
    /// completion or, when `streaming`, piece by piece, within the configured
    /// limit of tokens.
    pub fn completion_request<'a>(&'a self, history: &'a Vec<ChatMessage>, streaming: bool) -> (request: CompletionRequest<'a>)
        ensures
            request.model@ == engine_name(self.config.engine),
            request.input.messages@ == history@,
            is_request_parameters(request.parameters, streaming, self.config.max_tokens),
    {
        let incremental_output = if streaming {
            Some(true)
        } else {
            None
        };
        CompletionRequest {
            model: self.config.engine.as_ref(),
            input: Input { messages: history },
            parameters: Parameter {
                result_format: Some(String::from_str(RESULT_FORMAT)),
                incremental_output,
                max_tokens: self.config.max_tokens,
            },
        }
    }
}

} // verus!
