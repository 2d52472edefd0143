//! The model client's rules: which backend a base URL names, the settings a
//! client starts with, the requests each backend takes and how its replies
//! are read.
use vstd::prelude::*;

use crate::json::opt_view;
use vstd::arithmetic::power2::{lemma2_to64, lemma_pow2_strictly_increases, lemma_pow2_unfold, pow2};
use crate::replies::ModelTurnResponse;
use crate::types::Usage;
use crate::text::{has_infix, join2, join3, str_contains, str_eq};

verus! {

/// The wire protocol a model endpoint speaks.
#[derive(PartialEq, Eq, Structural, Clone, Copy, Debug)]
pub enum BackendKind {
    Auto,
    DeepSeekChat,
    FireworksChat,
    OpenAiResponses,
}

impl BackendKind {
    /// The name of the backend on the command line and in configuration.
    pub fn as_str(self) -> (r: &'static str)
        ensures
            r@ == backend_name(self),
    {
        match self {
            BackendKind::Auto => "auto",
            BackendKind::DeepSeekChat => "deepseek-chat",
            BackendKind::FireworksChat => "fireworks-chat",
            BackendKind::OpenAiResponses => "openai-responses",
        }
    }
}

/// The name of a backend.
pub open spec fn backend_name(b: BackendKind) -> Seq<char> {
    match b {
        BackendKind::Auto => "auto"@,
        BackendKind::DeepSeekChat => "deepseek-chat"@,
        BackendKind::FireworksChat => "fireworks-chat"@,
        BackendKind::OpenAiResponses => "openai-responses"@,
    }
}

/// How much reasoning a model is asked for.
#[derive(PartialEq, Eq, Structural, Clone, Copy, Debug)]
pub enum ReasoningEffort {
    NoReasoning,
    Minimal,
    Low,
    Medium,
    High,
    Xhigh,
}

impl ReasoningEffort {
    /// The name of the effort level on the wire and on the command line.
    pub fn as_str(self) -> (r: &'static str)
        ensures
            r@ == effort_name(self),
    {
        match self {
            ReasoningEffort::NoReasoning => "none",
            ReasoningEffort::Minimal => "minimal",
            ReasoningEffort::Low => "low",
            ReasoningEffort::Medium => "medium",
            ReasoningEffort::High => "high",
            ReasoningEffort::Xhigh => "xhigh",
        }
    }
}

/// The name of an effort level.
pub open spec fn effort_name(e: ReasoningEffort) -> Seq<char> {
    match e {
        ReasoningEffort::NoReasoning => "none"@,
        ReasoningEffort::Minimal => "minimal"@,
        ReasoningEffort::Low => "low"@,
        ReasoningEffort::Medium => "medium"@,
        ReasoningEffort::High => "high"@,
        ReasoningEffort::Xhigh => "xhigh"@,
    }
}

/// Settings given explicitly, which win over the environment and the defaults.
#[derive(Debug)]
pub struct ClientOverrides {
    pub base_url: Option<String>,
    pub model: Option<String>,
    pub backend: Option<BackendKind>,
    pub reasoning_effort: Option<ReasoningEffort>,
}

impl ClientOverrides {
    /// No overrides.
    pub fn none() -> (r: Self)
        ensures
            r.base_url is None,
            r.model is None,
            r.backend is None,
            r.reasoning_effort is None,
    {
        ClientOverrides { base_url: None, model: None, backend: None, reasoning_effort: None }
    }
}

/// Why the model client refused a setting or a reply.
#[derive(Debug)]
pub enum ApiError {
    /// The base URL does not parse; `reason` is the parser's message.
    InvalidBaseUrl { url: String, reason: String },
    /// The base URL has no host.
    MissingHost { url: String },
    /// No backend is known for the base URL's host.
    UnknownBackend { url: String },
    /// No API key is configured.
    MissingApiKey,
    /// The fireworks backend takes only low, medium and high efforts.
    UnsupportedReasoningEffort { effort: ReasoningEffort },
    /// A chat reply without choices.
    NoChoices { url: String },
    /// A chat reply whose first choice has no message.
    NoMessage { url: String },
    /// A chat reply whose tool calls do not read as tool calls.
    InvalidToolCalls { url: String, reason: String },
    /// A chat reply whose tool calls are neither a list nor null.
    UnsupportedToolCalls { url: String },
    /// A responses reply without output items.
    NoOutputItems { url: String },
    /// A function call item of a responses reply lacks the field `field`.
    IncompleteFunctionCall { field: String },
    /// A text completion that came back without text.
    NoTextContent,
}

/// The message of an error, as users see it.
pub open spec fn error_message(e: ApiError) -> Seq<char> {
    match e {
        ApiError::InvalidBaseUrl { url, reason } => "failed to parse OPENAI_BASE_URL '"@ + url@ + "': "@ + reason@,
        ApiError::MissingHost { url } => "OPENAI_BASE_URL '"@ + url@ + "' does not include a host"@,
        ApiError::UnknownBackend { url } => "could not infer backend from '"@ + url@
            + "'; pass --backend deepseek-chat, --backend fireworks-chat, or --backend openai-responses"@,
        ApiError::MissingApiKey => "OpenAI API key not configured. Set OPENAI_API_KEY or api.openai.api_key in your config file."@,
        ApiError::UnsupportedReasoningEffort { effort } => "reasoning effort '"@ + effort_name(effort)
            + "' is not supported by fireworks-chat; use low, medium, or high"@,
        ApiError::NoChoices { url } => "No choices in response from "@ + url@,
        ApiError::NoMessage { url } => "Response from "@ + url@ + " did not include a message"@,
        ApiError::InvalidToolCalls { url, reason } => "Failed to parse tool calls from "@ + url@ + ": "@ + reason@,
        ApiError::UnsupportedToolCalls { url } => "Response from "@ + url@ + " included tool_calls in an unsupported format"@,
        ApiError::NoOutputItems { url } => "Response from "@ + url@ + " did not include output items"@,
        ApiError::IncompleteFunctionCall { field } => "Responses function_call item missing "@ + field@,
        ApiError::NoTextContent => "Text completion returned no text content"@,
    }
}

impl ApiError {
    /// The message of the error, as users see it.
    pub fn message(&self) -> (r: String)
        ensures
            r@ == error_message(*self),
    {
        match self {
            ApiError::InvalidBaseUrl { url, reason } => {
                let mut s = join3("failed to parse OPENAI_BASE_URL '", url.as_str(), "': ");
                s.append(reason.as_str());
                s
            },
            ApiError::MissingHost { url } => join3("OPENAI_BASE_URL '", url.as_str(), "' does not include a host"),
            ApiError::UnknownBackend { url } => join3(
                "could not infer backend from '",
                url.as_str(),
                "'; pass --backend deepseek-chat, --backend fireworks-chat, or --backend openai-responses",
            ),
            ApiError::MissingApiKey => String::from_str(
                "OpenAI API key not configured. Set OPENAI_API_KEY or api.openai.api_key in your config file.",
            ),
            ApiError::UnsupportedReasoningEffort { effort } => join3(
                "reasoning effort '",
                effort.as_str(),
                "' is not supported by fireworks-chat; use low, medium, or high",
            ),
            ApiError::NoChoices { url } => join2("No choices in response from ", url.as_str()),
            ApiError::NoMessage { url } => join3("Response from ", url.as_str(), " did not include a message"),
            ApiError::InvalidToolCalls { url, reason } => {
                let mut s = join3("Failed to parse tool calls from ", url.as_str(), ": ");
                s.append(reason.as_str());
                s
            },
            ApiError::UnsupportedToolCalls { url } => join3(
                "Response from ",
                url.as_str(),
                " included tool_calls in an unsupported format",
            ),
            ApiError::NoOutputItems { url } => join3("Response from ", url.as_str(), " did not include output items"),
            ApiError::IncompleteFunctionCall { field } => join2("Responses function_call item missing ", field.as_str()),
            ApiError::NoTextContent => String::from_str("Text completion returned no text content"),
        }
    }
}

/// The model a backend uses when none is given.
pub open spec fn default_model(backend: BackendKind) -> Seq<char> {
    match backend {
        BackendKind::DeepSeekChat => "deepseek-v4-pro"@,
        _ => "gpt-5.4"@,
    }
}

/// The model a backend uses when none is given. `Auto` has none: it is
/// resolved to a concrete backend first.
pub fn default_model_for_backend(backend: BackendKind) -> (r: String)
    requires
        backend != BackendKind::Auto,
    ensures
        r@ == default_model(backend),
{
    proof {
        reveal_strlit("deepseek-v4-pro");
        reveal_strlit("gpt-5.4");
    }
    match backend {
        BackendKind::DeepSeekChat => String::from_str("deepseek-v4-pro"),
        _ => String::from_str("gpt-5.4"),
    }
}

/// The reasoning effort a backend asks for when none is given: extra high for
/// the responses API, none otherwise.
pub fn default_reasoning_effort(backend: BackendKind) -> (r: Option<ReasoningEffort>)
    ensures
        r == (if backend == BackendKind::OpenAiResponses {
            Some(ReasoningEffort::Xhigh)
        } else {
            None
        }),
{
    match backend {
        BackendKind::OpenAiResponses => Some(ReasoningEffort::Xhigh),
        _ => None,
    }
}

/// The base URL used when none is given, from the requested backend.
pub open spec fn default_base_url(backend: BackendKind) -> Seq<char> {
    match backend {
        BackendKind::DeepSeekChat => "https://api.deepseek.com"@,
        _ => "https://api.openai.com/v1"@,
    }
}

/// The base URL used when none is given, from the requested backend.
pub fn default_base_url_for_backend_hint(backend: BackendKind) -> (r: &'static str)
    ensures
        r@ == default_base_url(backend),
{
    match backend {
        BackendKind::DeepSeekChat => "https://api.deepseek.com",
        _ => "https://api.openai.com/v1",
    }
}

/// The API key for a backend: every backend uses the configured OpenAI key,
/// `configured`, and fails without one.
pub fn api_key_for_backend(backend: BackendKind, configured: Option<String>) -> (r: Result<String, ApiError>)
    ensures
        match configured {
            Some(k) => r matches Ok(x) && x@ == k@,
            None => r matches Err(ApiError::MissingApiKey),
        },
{
    match configured {
        Some(k) => Ok(k),
        None => Err(ApiError::MissingApiKey),
    }
}

/// What `url::Url::parse` makes of a text: `Ok` with the parsed URL's host
/// (`Url::host_str`), or `Err` with the parser's message.
pub uninterp spec fn url_host_outcome(s: Seq<char>) -> Result<Option<Seq<char>>, Seq<char>>;

/// Calls `url::Url::parse` on `s` and reads the host of the result with
/// `Url::host_str`; the outcome is named `url_host_outcome` of `s`.
#[verifier::external_body]
fn parse_url_host(s: &str) -> (r: Result<Option<String>, String>)
    ensures
        match r {
            Ok(h) => url_host_outcome(s@) == Ok::<Option<Seq<char>>, Seq<char>>(opt_view(h)),
            Err(e) => url_host_outcome(s@) == Err::<Option<Seq<char>>, Seq<char>>(e@),
        },
{
    match url::Url::parse(s) {
        Ok(parsed) => Ok(parsed.host_str().map(String::from)),
        Err(error) => Err(error.to_string()),
    }
}

/// The backend a host serves, if it is a known one: any host containing
/// "fireworks.ai", then exactly "api.deepseek.com" or "api.openai.com".
pub open spec fn host_backend(host: Seq<char>) -> Option<BackendKind> {
    if has_infix(host, "fireworks.ai"@) {
        Some(BackendKind::FireworksChat)
    } else if host == "api.deepseek.com"@ {
        Some(BackendKind::DeepSeekChat)
    } else if host == "api.openai.com"@ {
        Some(BackendKind::OpenAiResponses)
    } else {
        None
    }
}

/// Whether `r` is the answer of the backend detection for the base URL `url`
/// whose parse gave `outcome`: the host's backend, or the error that says
/// why there is none.
pub open spec fn is_detection(r: Result<BackendKind, ApiError>, url: Seq<char>, outcome: Result<Option<Seq<char>>, Seq<char>>) -> bool {
    match outcome {
        Err(reason) => r matches Err(ApiError::InvalidBaseUrl { url: u, reason: m }) && u@ == url && m@ == reason,
        Ok(None) => r matches Err(ApiError::MissingHost { url: u }) && u@ == url,
        Ok(Some(host)) => match host_backend(host) {
            Some(b) => r == Ok::<BackendKind, ApiError>(b),
            None => r matches Err(ApiError::UnknownBackend { url: u }) && u@ == url,
        },
    }
}

/// The backend a base URL names, from what the URL parser made of it
/// (`outcome`: the host, or the parser's message).
pub fn backend_for_host(base_url: &str, outcome: Result<Option<String>, String>) -> (r: Result<BackendKind, ApiError>)
    ensures
        is_detection(
            r,
            base_url@,
            match outcome {
                Ok(h) => Ok(opt_view(h)),
                Err(e) => Err(e@),
            },
        ),
{
    proof {
        reveal_strlit("api.deepseek.com");
        reveal_strlit("api.openai.com");
    }
    match outcome {
        Err(reason) => Err(ApiError::InvalidBaseUrl { url: String::from_str(base_url), reason }),
        Ok(None) => Err(ApiError::MissingHost { url: String::from_str(base_url) }),
        Ok(Some(host)) => {
            if str_contains(host.as_str(), "fireworks.ai") {
                Ok(BackendKind::FireworksChat)
            } else if str_eq(host.as_str(), "api.deepseek.com") {
                Ok(BackendKind::DeepSeekChat)
            } else if str_eq(host.as_str(), "api.openai.com") {
                Ok(BackendKind::OpenAiResponses)
            } else {
                Err(ApiError::UnknownBackend { url: String::from_str(base_url) })
            }
        },
    }
}

/// The backend a base URL names: the URL is parsed, and its host picks the
/// backend.
pub fn detect_backend(base_url: &str) -> (r: Result<BackendKind, ApiError>)
    ensures
        is_detection(r, base_url@, url_host_outcome(base_url@)),
{
    let outcome = parse_url_host(base_url);
    backend_for_host(base_url, outcome)
}

/// What a client is made with.
#[derive(Debug)]
pub struct ClientSettings {
    pub base_url: String,
    pub api_key: String,
    pub model: String,
    pub backend: BackendKind,
    pub reasoning_effort: Option<ReasoningEffort>,
}

/// The first of the given texts that is present, else `fallback`.
pub open spec fn first_of(a: Option<Seq<char>>, b: Option<Seq<char>>, fallback: Seq<char>) -> Seq<char> {
    match a {
        Some(x) => x,
        None => match b {
            Some(y) => y,
            None => fallback,
        },
    }
}

/// Whether `r` is what a client starts with, from `overrides`, the
/// environment's base URL and model, and the configured key.
pub open spec fn is_resolution(
    r: Result<ClientSettings, ApiError>,
    overrides: ClientOverrides,
    env_base_url: Option<Seq<char>>,
    env_model: Option<Seq<char>>,
    api_key: Option<Seq<char>>,
) -> bool {
    let requested = match overrides.backend {
        Some(b) => b,
        None => BackendKind::Auto,
    };
    let url = first_of(opt_view(overrides.base_url), env_base_url, default_base_url(requested));
    let detection = url_host_outcome(url);
    let backend_ok = requested != BackendKind::Auto || host_backend_of(detection) is Some;
    let backend = if requested == BackendKind::Auto {
        host_backend_of(detection).unwrap()
    } else {
        requested
    };
    match r {
        Ok(s) => {
            &&& backend_ok
            &&& api_key == Some(s.api_key@)
            &&& s.base_url@ == url
            &&& s.backend == backend
            &&& s.model@ == first_of(opt_view(overrides.model), env_model, default_model(backend))
            &&& s.reasoning_effort == (if backend == BackendKind::DeepSeekChat {
                None
            } else {
                match overrides.reasoning_effort {
                    Some(e) => Some(e),
                    None => if backend == BackendKind::OpenAiResponses {
                        Some(ReasoningEffort::Xhigh)
                    } else {
                        None
                    },
                }
            })
        },
        Err(e) => if backend_ok {
            api_key is None && e is MissingApiKey
        } else {
            is_detection(Err(e), url, detection)
        },
    }
}

/// The settings of a new client, from explicit `overrides`, the values of
/// `OPENAI_BASE_URL` and `OPENAI_MODEL` in the environment, and the
/// configured API key. The base URL is the override, else the environment's,
/// else the requested backend's default; an `Auto` (or absent) backend is
/// detected from that URL; the model likewise falls back to the backend's
/// default; the deepseek backend asks for no reasoning effort, the others for
/// the override or their default.
pub fn resolve_client_settings(
    overrides: ClientOverrides,
    env_base_url: Option<String>,
    env_model: Option<String>,
    api_key: Option<String>,
) -> (r: Result<ClientSettings, ApiError>)
    ensures
        is_resolution(r, overrides, opt_view(env_base_url), opt_view(env_model), opt_view(api_key)),
{
    let requested = match overrides.backend {
        Some(b) => b,
        None => BackendKind::Auto,
    };
    let base_url = match overrides.base_url {
        Some(u) => u,
        None => match env_base_url {
            Some(u) => u,
            None => String::from_str(default_base_url_for_backend_hint(requested)),
        },
    };
    let backend = match requested {
        BackendKind::Auto => {
            let detected = detect_backend(base_url.as_str());
            match detected {
                Ok(b) => b,
                Err(e) => {
                    return Err(e);
                },
            }
        },
        explicit => explicit,
    };
    let api_key = match api_key_for_backend(backend, api_key) {
        Ok(k) => k,
        Err(e) => {
            return Err(e);
        },
    };
    let model = match overrides.model {
        Some(m) => m,
        None => match env_model {
            Some(m) => m,
            None => default_model_for_backend(backend),
        },
    };
    let reasoning_effort = match backend {
        BackendKind::DeepSeekChat => None,
        _ => match overrides.reasoning_effort {
            Some(e) => Some(e),
            None => default_reasoning_effort(backend),
        },
    };
    Ok(ClientSettings { base_url, api_key, model, backend, reasoning_effort })
}

/// The backend that a parse outcome's host names, if any.
pub open spec fn host_backend_of(outcome: Result<Option<Seq<char>>, Seq<char>>) -> Option<BackendKind> {
    match outcome {
        Ok(Some(host)) => host_backend(host),
        _ => None,
    }
}

/// A completion of plain text, with the tokens it took.
#[derive(Debug)]
pub struct TextCompletion {
    pub content: String,
    pub usage: Usage,
}

/// The text completion in a model's turn: its text and usage, or an error
/// when the turn carried no text.
pub fn text_completion(response: ModelTurnResponse) -> (r: Result<TextCompletion, ApiError>)
    ensures
        match response.assistant.content {
            Some(c) => r matches Ok(t) && t.content@ == c@ && t.usage == response.usage,
            None => r matches Err(ApiError::NoTextContent),
        },
{
    match response.assistant.content {
        Some(content) => Ok(TextCompletion { content, usage: response.usage }),
        None => Err(ApiError::NoTextContent),
    }
}

/// The path, under the base URL, that a backend posts turns to.
pub open spec fn endpoint_path(backend: BackendKind) -> Seq<char> {
    if backend == BackendKind::OpenAiResponses {
        "/responses"@
    } else {
        "/chat/completions"@
    }
}

/// The URL that a backend posts turns to. `Auto` posts nowhere: it is
/// resolved to a concrete backend when the client is made.
pub fn endpoint_url(base_url: &str, backend: BackendKind) -> (r: String)
    requires
        backend != BackendKind::Auto,
    ensures
        r@ == base_url@ + endpoint_path(backend),
{
    match backend {
        BackendKind::OpenAiResponses => join2(base_url, "/responses"),
        _ => join2(base_url, "/chat/completions"),
    }
}

/// How many times a request is sent before its last error is reported.
pub const MAX_ATTEMPTS: u32 = 3;

/// The seconds waited before attempt number `attempt` (counted from 0) is
/// sent again: one, then doubling.
pub fn backoff_delay_secs(attempt: u32) -> (r: u64)
    requires
        1 <= attempt <= 64,
    ensures
        r == pow2((attempt - 1) as nat),
{
    proof {
        lemma2_to64();
    }
    let mut d: u64 = 1;
    let mut k: u32 = 1;
    while k < attempt
        invariant
            1 <= k <= attempt <= 64,
            d == pow2((k - 1) as nat),
            pow2(64) == 0x1_0000_0000_0000_0000,
        decreases attempt - k,
    {
        proof {
            lemma_pow2_unfold(k as nat);
            lemma_pow2_strictly_increases(k as nat, 64);
        }
        d = d * 2;
        k = k + 1;
    }
    d
}

/// What a reply's status asks of the sender.
#[derive(PartialEq, Eq, Structural, Clone, Copy, Debug)]
pub enum StatusAction {
    /// A success (2xx): read the reply.
    Accept,
    /// Too many requests (429) or a server error (5xx): try again.
    Retry,
    /// Any other status: give up with this reply.
    Fail,
}

/// What a reply with HTTP status `status` asks of the sender.
pub fn classify_status(status: u16) -> (r: StatusAction)
    ensures
        r == (if 200 <= status <= 299 {
            StatusAction::Accept
        } else if status == 429 || 500 <= status <= 599 {
            StatusAction::Retry
        } else {
            StatusAction::Fail
        }),
{
    if 200 <= status && status <= 299 {
        StatusAction::Accept
    } else if status == 429 || (500 <= status && status <= 599) {
        StatusAction::Retry
    } else {
        StatusAction::Fail
    }
}

/// What a reply with HTTP status `status` asks of the sender (see `classify_status`).
pub open spec fn status_action(status: u16) -> StatusAction {
    if 200 <= status <= 299 {
        StatusAction::Accept
    } else if status == 429 || 500 <= status <= 599 {
        StatusAction::Retry
    } else {
        StatusAction::Fail
    }
}

/// What the sender does after the reply to one attempt.
#[derive(PartialEq, Eq, Structural, Clone, Copy, Debug)]
pub enum RetryStep {
    /// The reply is a success: read it.
    Done,
    /// Send again after this many seconds.
    RetryAfter(u64),
    /// The reply asks for another try, but every attempt is spent: report it.
    GiveUp,
    /// The reply is an error that no retry mends: report it.
    Fail,
}

/// What the sender does after the reply with `status` to attempt `attempt`
/// (counted from 0): read a success; report a lasting error; after a rate
/// limit or a server error, send again after `2^attempt` seconds while
/// attempts remain, and report the error once they are spent.
pub open spec fn retry_decision(attempt: nat, status: u16) -> RetryStep {
    match status_action(status) {
        StatusAction::Accept => RetryStep::Done,
        StatusAction::Fail => RetryStep::Fail,
        StatusAction::Retry => if attempt + 1 < MAX_ATTEMPTS {
            RetryStep::RetryAfter(pow2(attempt) as u64)
        } else {
            RetryStep::GiveUp
        },
    }
}

/// What the sender does after the reply with `status` to attempt `attempt`.
pub fn after_reply(attempt: u32, status: u16) -> (r: RetryStep)
    requires
        attempt < MAX_ATTEMPTS,
    ensures
        r == retry_decision(attempt as nat, status),
{
    match classify_status(status) {
        StatusAction::Accept => RetryStep::Done,
        StatusAction::Fail => RetryStep::Fail,
        StatusAction::Retry => if attempt + 1 < MAX_ATTEMPTS {
            RetryStep::RetryAfter(backoff_delay_secs(attempt + 1))
        } else {
            RetryStep::GiveUp
        },
    }
}

/// How many requests a sender that follows `retry_decision` from attempt
/// `attempt` sends when the replies come with `statuses` in turn (counting
/// the ones sent before, and stopping where the statuses run out).
pub open spec fn requests_sent(attempt: nat, statuses: Seq<u16>) -> nat
    decreases statuses.len(),
{
    if statuses.len() == 0 {
        attempt
    } else {
        match retry_decision(attempt, statuses[0]) {
            RetryStep::RetryAfter(_) => requests_sent(attempt + 1, statuses.drop_first()),
            _ => attempt + 1,
        }
    }
}

proof fn lemma_requests_bounded(attempt: nat, statuses: Seq<u16>)
    requires
        attempt < MAX_ATTEMPTS,
    ensures
        requests_sent(attempt, statuses) <= MAX_ATTEMPTS,
        (forall|i: int| 0 <= i < statuses.len() ==> status_action(#[trigger] statuses[i]) == StatusAction::Retry)
            && attempt + statuses.len() >= MAX_ATTEMPTS ==> requests_sent(attempt, statuses) == MAX_ATTEMPTS,
    decreases statuses.len(),
{
    if statuses.len() > 0 {
        if attempt + 1 < MAX_ATTEMPTS {
            if status_action(statuses[0]) == StatusAction::Retry {
                let rest = statuses.drop_first();
                if forall|j: int| 0 <= j < statuses.len() ==> status_action(#[trigger] statuses[j]) == StatusAction::Retry {
                    assert forall|i: int| 0 <= i < rest.len() implies status_action(#[trigger] rest[i])
                        == StatusAction::Retry by {
                        assert(rest[i] == statuses[i + 1]);
                    }
                }
                lemma_requests_bounded(attempt + 1, rest);
            }
        }
    }
}

/// A request is sent at most `MAX_ATTEMPTS` (three) times, whatever the replies;
/// and when every reply asks for another try, exactly three requests go out.
pub proof fn law_at_most_three_requests(statuses: Seq<u16>)
    ensures
        requests_sent(0, statuses) <= 3,
        statuses.len() >= 3 && (forall|i: int| 0 <= i < statuses.len() ==> status_action(#[trigger] statuses[i]) == StatusAction::Retry)
            ==> requests_sent(0, statuses) == 3,
{
    lemma_requests_bounded(0, statuses);
}

} // verus!
