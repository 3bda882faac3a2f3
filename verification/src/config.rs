//! Configuration of the client: the model in use, the endpoint, the timeout.
use vstd::prelude::*;

verus! {

/// The Qwen models that the service offers, or a model named by the caller.
#[derive(Debug, Clone, PartialEq)]
pub enum QwenEngine {
    QwenMax,
    QwenMaxLongContext,
    QwenPlus,
    QwenMax0428,
    QwenTurbo,
    Qwen2_72bInstruct,
    Qwen2_57bA14bInstruct,
    Qwen2_7bInstruct,
    Qwen2_1_5bInstruct,
    Qwen2_0_5bInstruct,
    Custom(&'static str),
}

/// The name under which the service knows a model.
pub open spec fn engine_name(engine: QwenEngine) -> Seq<char> {
    match engine {
        QwenEngine::QwenMax => "qwen-max"@,
        QwenEngine::QwenMaxLongContext => "qwen-max-longcontext"@,
        QwenEngine::QwenPlus => "qwen-plus"@,
        QwenEngine::QwenMax0428 => "qwen-max-0428"@,
        QwenEngine::QwenTurbo => "qwen-turbo"@,
        QwenEngine::Qwen2_72bInstruct => "qwen2-72b-instruct"@,
        QwenEngine::Qwen2_57bA14bInstruct => "qwen2-57-a14b-instruct"@,
        QwenEngine::Qwen2_7bInstruct => "qwen2-7b-instrcut"@,
        QwenEngine::Qwen2_1_5bInstruct => "qwen2-1,5-instruct"@,
        QwenEngine::Qwen2_0_5bInstruct => "qwen2-0.5-instruct"@,
        QwenEngine::Custom(custom) => custom@,
    }
}

impl QwenEngine {
    /// The model's name as the service expects it in a request.
    pub fn as_ref(&self) -> (name: &'static str)
        ensures
            name@ == engine_name(*self),
    {
        match self {
            QwenEngine::QwenMax => "qwen-max",
            QwenEngine::QwenMaxLongContext => "qwen-max-longcontext",
            QwenEngine::QwenPlus => "qwen-plus",
            QwenEngine::QwenMax0428 => "qwen-max-0428",
            QwenEngine::QwenTurbo => "qwen-turbo",
            QwenEngine::Qwen2_72bInstruct => "qwen2-72b-instruct",
            QwenEngine::Qwen2_57bA14bInstruct => "qwen2-57-a14b-instruct",
            QwenEngine::Qwen2_7bInstruct => "qwen2-7b-instrcut",
            QwenEngine::Qwen2_1_5bInstruct => "qwen2-1,5-instruct",
            QwenEngine::Qwen2_0_5bInstruct => "qwen2-0.5-instruct",
            QwenEngine::Custom(custom) => custom,
        }
    }
}

/// A character that may stand in the host of a plain https address.
pub open spec fn is_plain_host_char(c: char) -> bool {
    ('a' <= c && c <= 'z') || c == '.'
}

/// A character that may stand in the path of a plain https address.
pub open spec fn is_plain_path_char(c: char) -> bool {
    ('a' <= c && c <= 'z') || ('0' <= c && c <= '9') || c == '/' || c == '-'
}

/// `s` is `https://`, then a host of lower-case letters and dots that begins
/// and ends with a letter and ends at index `host_end`, then an empty path or
/// a path that begins with `/` and holds letters, digits, `/` and `-` only.
pub open spec fn is_plain_https_url_split(s: Seq<char>, host_end: int) -> bool {
    &&& 8 < host_end <= s.len()
    &&& s.len() < 0x1_0000_0000
    &&& s.subrange(0, 8) == "https://"@
    &&& forall|i: int| 8 <= i < host_end ==> is_plain_host_char(#[trigger] s[i])
    &&& 'a' <= s[8] && s[8] <= 'z'
    &&& 'a' <= s[host_end - 1] && s[host_end - 1] <= 'z'
    &&& host_end < s.len() ==> s[host_end] == '/'
    &&& forall|i: int| host_end <= i < s.len() ==> is_plain_path_char(#[trigger] s[i])
}

/// An address that the `url` crate always parses: see `is_plain_https_url_split`.
pub open spec fn is_plain_https_url(s: Seq<char>) -> bool {
    exists|host_end: int| is_plain_https_url_split(s, host_end)
}

impl QwenEngine {
    /// The model's name as an owned string (what displaying the model shows).
    pub fn to_string(&self) -> (name: String)
        ensures
            name@ == engine_name(*self),
    {
        String::from_str(self.as_ref())
    }
}

impl Default for QwenEngine {
    /// The default model is `qwen-max`.
    fn default() -> (engine: Self)
        ensures
            engine == QwenEngine::QwenMax,
    {
        QwenEngine::QwenMax
    }
}

/// An address of the `url` crate, carried through unopened.
#[verifier::external_type_specification]
#[verifier::external_body]
pub struct ExUrl(url::Url);

/// The parse error of the `url` crate, carried through unopened.
#[verifier::external_type_specification]
#[verifier::external_body]
pub struct ExUrlParseError(url::ParseError);

/// What `url::Url::from_str` makes of a text: a function of the text alone.
pub uninterp spec fn parsed_url(input: Seq<char>) -> core::result::Result<url::Url, url::ParseError>;

/// `url::Url::from_str`, which calls `Url::parse`. Claimed: its result is a
/// function of the text (`parsed_url`), and on a plain https address
/// (`is_plain_https_url`) it is `Ok`. Such an address has no characters that
/// the parser rewrites or rejects: the host holds lower-case letters and dots
/// only, which the IDNA step passes through unchanged, and its last label is
/// not a number. Of other input nothing more is claimed.
pub assume_specification[ <url::Url as core::str::FromStr>::from_str ](input: &str) -> (r: core::result::Result<url::Url, url::ParseError>)
    ensures
        r == parsed_url(input@),
        is_plain_https_url(input@) ==> r is Ok,
;

/// The duration that `Duration::from_secs` makes of a number of seconds.
pub uninterp spec fn duration_from_secs(secs: u64) -> core::time::Duration;

/// `Duration::from_secs`: claimed only that its result is a function of the
/// number of seconds (`duration_from_secs`).
pub assume_specification[ core::time::Duration::from_secs ](secs: u64) -> (d: core::time::Duration)
    ensures
        d == duration_from_secs(secs),
;

/// The endpoint of the text-generation service.
pub const DEFAULT_API_URL: &'static str = "https://dashscope.aliyuncs.com/api/v1/services/aigc/text-generation/generation";

/// The number of seconds after which a request is abandoned by default.
pub const DEFAULT_TIMEOUT_SECS: u64 = 100;

/// The configuration that `ModleConfig::default` makes: `qwen-max` at the
/// service's endpoint, a timeout of `DEFAULT_TIMEOUT_SECS` seconds, no limit
/// on the tokens generated.
pub open spec fn is_default_config(config: ModleConfig) -> bool {
    &&& config.engine == QwenEngine::QwenMax
    &&& parsed_url(DEFAULT_API_URL@) == core::result::Result::<url::Url, url::ParseError>::Ok(config.api_url)
    &&& config.timeout == duration_from_secs(DEFAULT_TIMEOUT_SECS)
    &&& config.max_tokens is None
}

/// How the client talks to the service.
pub struct ModleConfig {
    /// The Qwen version used
    pub engine: QwenEngine,
    /// URL of the api/v1/services/aigc/text-generation/generation endpoint. Can be used to set a proxy
    pub api_url: url::Url,
    /// Timeout for the http requests sent to avoid potentially permanently hanging requests.
    pub timeout: core::time::Duration,
    /// Controls the maximum number of tokens to generate in the completion
    pub max_tokens: Option<u32>,
}

/// The default endpoint is a plain https address, so it always parses.
pub proof fn lemma_default_api_url_is_plain()
    ensures
        is_plain_https_url(DEFAULT_API_URL@),
{
    reveal_strlit("https://dashscope.aliyuncs.com/api/v1/services/aigc/text-generation/generation");
    reveal_strlit("https://");
    assert(DEFAULT_API_URL@.subrange(0, 8) =~= "https://"@);
    assert(is_plain_https_url_split(DEFAULT_API_URL@, 30));
}

impl Default for ModleConfig {
    /// `qwen-max` at the service's endpoint, a timeout of 100 seconds, and no
    /// limit on the tokens generated.
    fn default() -> (config: Self)
        ensures
            is_default_config(config),
    {
        proof {
            lemma_default_api_url_is_plain();
        }
        let api_url = match <url::Url as core::str::FromStr>::from_str(DEFAULT_API_URL) {
            Ok(url) => url,
            Err(_) => vstd::pervasive::unreached(),
        };
        ModleConfig {
            engine: QwenEngine::default(),
            api_url,
            timeout: core::time::Duration::from_secs(DEFAULT_TIMEOUT_SECS),
            max_tokens: None,
        }
    }
}

} // verus!
