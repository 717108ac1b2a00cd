//! The client's settings and the decisions it makes: which credential it sends, the
//! request it builds, and what it does after each attempt.
//!
//! Sending a request and waiting between attempts are left to the caller, which runs the
//! loop: build the request with [`ClientSettings::outgoing_request`], send it, hand what
//! came back to [`ClientSettings::after_attempt`], and do what that says.

use vstd::prelude::*;
use vstd::slice::slice_to_vec;
use vstd::utf8::{decode_utf8, encode_utf8, valid_utf8};

use crate::error::{
    error_for_status, extract_message, extracted_message, kind_for_status, reason_phrase,
    reason_phrase_for, ApiError, ValidationError,
};
use crate::formats::{
    source_media_type, source_wire_token, target_wire_token, SourceFormat, TargetFormat,
};
use crate::percent::{percent_encode, percent_encoded};
use crate::result::{opt_string_view, opt_view, ConversionResult};
use crate::text::{push_str, str_chars, string_of, strip_bounds, trim};
use crate::transport::{header_lookup, HttpRequest, HttpResponse};

verus! {

/// The production API host.
pub const DEFAULT_BASE_URL: &'static str = "https://api.labelzoom.com";

/// The environment variable consulted when no credential is configured.
pub const API_KEY_ENV_VAR: &'static str = "LABELZOOM_API_KEY";

/// This library's version, as it appears in the User-Agent.
pub const VERSION: &'static str = "1.0.0";

/// The response header that carries the support handle.
pub const REQUEST_ID_HEADER: &'static str = "x-lz-request-id";

/// How a client is configured before it is built. Deliberately not `Debug`: it may hold
/// the credential.
///
/// `api_key` has two layers of `Option` on purpose: the outer says whether a credential
/// was configured at all, the inner whether it was a value or an explicit "none". Unset
/// reads the environment; explicitly empty must not.
#[derive(Clone)]
pub struct ClientConfig {
    /// The configured credential, if one was configured.
    pub api_key: Option<Option<String>>,
    /// The API host, possibly with a path prefix.
    pub base_url: String,
    /// Retries after the initial attempt.
    pub max_retries: u32,
    /// A token appended to the User-Agent.
    pub user_agent_suffix: Option<String>,
    /// Whether the retry backoff is jittered.
    pub jitter: bool,
}

/// A built client's settings. Deliberately not `Debug`: it holds the credential.
#[derive(Clone)]
pub struct ClientSettings {
    /// The API host with its trailing slashes removed.
    pub base_url: String,
    /// The credential sent as a bearer token, if any.
    pub credential: Option<String>,
    /// Retries after the initial attempt.
    pub max_retries: u32,
    /// The User-Agent sent with every request.
    pub user_agent: String,
    /// Whether the retry backoff is jittered.
    pub jitter: bool,
}

/// What the client does after an attempt.
#[derive(Debug)]
pub enum Step<R> {
    /// Wait, then try again.
    Retry,
    /// Return this result.
    Succeed(ConversionResult),
    /// Return this API error.
    Fail(ApiError<R>),
    /// Return the transport's error: no response arrived and no retry is left.
    GiveUp,
}

/// The shape of a [`Step`], without its payload.
#[derive(Clone, Copy, Debug, PartialEq, Eq, Structural)]
pub enum Decision {
    /// Wait, then try again.
    Retry,
    /// Return the response as a result.
    Succeed,
    /// Return the response as an API error.
    Fail,
    /// Return the transport's error.
    GiveUp,
}

/// The shape of a step.
pub open spec fn decision_of<R>(step: Step<R>) -> Decision {
    match step {
        Step::Retry => Decision::Retry,
        Step::Succeed(_) => Decision::Succeed,
        Step::Fail(_) => Decision::Fail,
        Step::GiveUp => Decision::GiveUp,
    }
}

/// Statuses worth another attempt: 429 and the 5xx range. No other status is retried.
pub open spec fn retryable(status: u16) -> bool {
    status == 429 || (500 <= status && status <= 599)
}

/// What the client does after attempt number `attempt` (counted from 1), given the status
/// of the response, or `None` when no response arrived. There are `max_retries + 1`
/// attempts in all.
pub open spec fn decide(max_retries: int, attempt: int, status: Option<u16>) -> Decision {
    match status {
        None => if attempt > max_retries {
            Decision::GiveUp
        } else {
            Decision::Retry
        },
        Some(s) => if 200 <= s && s < 300 {
            Decision::Succeed
        } else if attempt > max_retries || !retryable(s) {
            Decision::Fail
        } else {
            Decision::Retry
        },
    }
}

/// Whether a status is worth another attempt.
pub fn is_retryable(status: u16) -> (r: bool)
    ensures
        r == retryable(status),
        r == (status == 429 || (500 <= status && status <= 599)),
{
    status == 429 || (500 <= status && status <= 599)
}

/// The status of an attempt's outcome.
pub open spec fn status_of(outcome: Option<HttpResponse>) -> Option<u16> {
    match outcome {
        Some(response) => Some(response.status),
        None => None,
    }
}

/// `s` with every trailing `/` removed.
pub open spec fn without_trailing_slashes(s: Seq<char>) -> Seq<char>
    decreases s.len(),
{
    if s.len() > 0 && s.last() == '/' {
        without_trailing_slashes(s.drop_last())
    } else {
        s
    }
}

/// The User-Agent: the SDK's own token, then the suffix, trimmed, when it is not blank.
///
/// Appended, never prepended: the server parses a leading `LabelZoomStudio/` as a Studio
/// version and silently changes PDF handling for old versions.
pub open spec fn user_agent_for(os: Seq<char>, arch: Seq<char>, suffix: Option<Seq<char>>) -> Seq<
    char,
> {
    let base = "labelzoom-rust-sdk/"@ + VERSION@ + " (rust; "@ + os + " "@ + arch + ")"@;
    match suffix {
        Some(s) => if trim(s).len() > 0 {
            base + " "@ + trim(s)
        } else {
            base
        },
        None => base,
    }
}

/// The credential a configuration resolves to: the configured one when there is one,
/// including an explicit "none"; otherwise the environment's, when it is not empty.
pub open spec fn resolved_credential(api_key: Option<Option<String>>, environment: Option<String>) -> Option<
    String,
> {
    match api_key {
        Some(configured) => configured,
        None => match environment {
            Some(value) => if value@.len() > 0 {
                Some(value)
            } else {
                None
            },
            None => None,
        },
    }
}

/// The URL a conversion is posted to.
pub open spec fn conversion_url(
    base_url: Seq<char>,
    source: SourceFormat,
    target: TargetFormat,
    params: Option<Seq<char>>,
) -> Seq<char> {
    let path = base_url + "/api/v2/convert/"@ + source_wire_token(source) + "/to/"@
        + target_wire_token(target);
    match params {
        Some(p) => path + "?params="@ + percent_encoded(encode_utf8(p)),
        None => path,
    }
}

/// The request `Content-Type`: `text/plain` for a base64 body, the source's own media type
/// otherwise.
pub open spec fn content_type_for(source: SourceFormat, base64_text: bool) -> Seq<char> {
    if base64_text {
        "text/plain"@
    } else {
        source_media_type(source)
    }
}

/// The headers of every request, in order. `Accept` is always `*/*`, and `Authorization`
/// is sent only when there is a credential.
pub open spec fn request_headers(
    content_type: Seq<char>,
    user_agent: Seq<char>,
    credential: Option<Seq<char>>,
) -> Seq<(Seq<char>, Seq<char>)> {
    let base = seq![
        ("content-type"@, content_type),
        ("accept"@, "*/*"@),
        ("user-agent"@, user_agent),
    ];
    match credential {
        Some(c) => base.push(("authorization"@, "Bearer "@ + c)),
        None => base,
    }
}

/// Header pairs, by their views.
pub open spec fn header_views(headers: Seq<(String, String)>) -> Seq<(Seq<char>, Seq<char>)> {
    headers.map_values(|h: (String, String)| (h.0@, h.1@))
}

/// The message of the local rejection of an empty body.
pub open spec fn empty_body_message() -> Seq<char> {
    "Source body cannot be empty; the API rejects zero-length requests."@
}

/// What `String::from_utf8_lossy` returns: the text of `bytes`, with each malformed
/// sequence replaced by U+FFFD.
pub uninterp spec fn utf8_lossy(bytes: Seq<u8>) -> Seq<char>;

/// `String::from_utf8_lossy` from std.
///
/// Claimed: the result is a function of `bytes` alone, and is the decoded text when
/// `bytes` is valid UTF-8, as std documents. How malformed input is replaced is left to
/// the name `utf8_lossy`.
#[verifier::external_body]
fn lossy_text(bytes: &[u8]) -> (r: String)
    ensures
        r@ == utf8_lossy(bytes@),
        valid_utf8(bytes@) ==> r@ == decode_utf8(bytes@),
{
    String::from_utf8_lossy(bytes).into_owned()
}

/// What a successful response becomes.
pub open spec fn result_for(response: HttpResponse, result: ConversionResult) -> bool {
    &&& result.bytes@ == response.body@
    &&& result.status == response.status
    &&& opt_string_view(result.content_type) == header_lookup(
        response.headers@,
        "content-type"@,
        0,
    )
    &&& opt_string_view(result.request_id) == header_lookup(
        response.headers@,
        REQUEST_ID_HEADER@,
        0,
    )
}

/// What a non-2xx response becomes. The body is never discarded: it is the raw body, and
/// the message is derived from it.
pub open spec fn error_for<R>(response: HttpResponse, retry_after: Option<R>, error: ApiError<R>) -> bool {
    let raw = utf8_lossy(response.body@);
    let message = extracted_message(raw, reason_phrase_for(response.status));
    &&& error.status == response.status
    &&& error.raw_body@ == raw
    &&& valid_utf8(response.body@) ==> error.raw_body@ == decode_utf8(response.body@)
    &&& error.message@ == message
    &&& error.kind == kind_for_status(response.status, message, retry_after)
    &&& opt_string_view(error.request_id) == header_lookup(
        response.headers@,
        REQUEST_ID_HEADER@,
        0,
    )
}

/// An owned copy of an optional borrowed string.
fn owned(s: Option<&str>) -> (r: Option<String>)
    ensures
        opt_string_view(r) == opt_view(s),
{
    match s {
        Some(v) => Some(v.to_owned()),
        None => None,
    }
}

/// The result a 2xx response becomes.
pub fn read_result(response: HttpResponse) -> (r: ConversionResult)
    ensures
        result_for(response, r),
{
    let content_type = owned(response.header("content-type"));
    // Case-insensitive lookup, which matters here: the gateway sets X-LZ-Request-Id but
    // CORS exposes it as X-LZ-Request-ID.
    let request_id = owned(response.header(REQUEST_ID_HEADER));
    ConversionResult { content_type, request_id, status: response.status, bytes: response.body }
}

/// The API error a non-2xx response becomes.
pub fn read_error<R>(response: &HttpResponse, retry_after: Option<R>) -> (r: ApiError<R>)
    ensures
        error_for(*response, retry_after, r),
{
    let request_id = owned(response.header(REQUEST_ID_HEADER));
    let raw_body = lossy_text(response.body.as_slice());
    let message = extract_message(raw_body.as_str(), reason_phrase(response.status));
    error_for_status(response.status, message, request_id, raw_body, retry_after)
}

/// Removes every trailing `/`: a base URL of `https://api.labelzoom.com///` must still
/// produce a single-slash path.
pub fn normalize_base_url(base_url: &str) -> (r: String)
    ensures
        r@ == without_trailing_slashes(base_url@),
{
    let v = str_chars(base_url);
    let mut hi: usize = v.len();
    assert(v@.subrange(0, v@.len() as int) == v@);
    while hi > 0 && v[hi - 1] == '/'
        invariant
            hi <= v@.len(),
            v@ == base_url@,
            without_trailing_slashes(v@) == without_trailing_slashes(v@.subrange(0, hi as int)),
        decreases hi,
    {
        assert(v@.subrange(0, hi as int).drop_last() == v@.subrange(0, hi - 1));
        hi = hi - 1;
    }
    assert(v@.subrange(0, v@.len() as int) == v@);
    string_of(v.as_slice(), 0, hi)
}

/// The User-Agent for a platform, with an optional suffix.
pub fn user_agent(os: &str, arch: &str, suffix: Option<&str>) -> (r: String)
    ensures
        r@ == user_agent_for(os@, arch@, opt_view(suffix)),
{
    let mut agent = String::new();
    push_str(&mut agent, "labelzoom-rust-sdk/");
    push_str(&mut agent, VERSION);
    push_str(&mut agent, " (rust; ");
    push_str(&mut agent, os);
    push_str(&mut agent, " ");
    push_str(&mut agent, arch);
    push_str(&mut agent, ")");
    if let Some(suffix) = suffix {
        let v = str_chars(suffix);
        assert(v@.subrange(0, v@.len() as int) == v@);
        let (lo, hi) = strip_bounds(v.as_slice(), 0, v.len(), false);
        if lo < hi {
            push_str(&mut agent, " ");
            let trimmed = string_of(v.as_slice(), lo, hi);
            push_str(&mut agent, trimmed.as_str());
        }
    }
    agent
}

impl ClientConfig {
    /// The defaults: no credential configured, the production host, 2 retries, no
    /// User-Agent suffix, jitter on.
    pub fn new() -> (r: ClientConfig)
        ensures
            r.api_key is None,
            r.base_url@ == DEFAULT_BASE_URL@,
            r.max_retries == 2,
            r.user_agent_suffix is None,
            r.jitter,
    {
        let mut base_url = String::new();
        push_str(&mut base_url, DEFAULT_BASE_URL);
        ClientConfig { api_key: None, base_url, max_retries: 2, user_agent_suffix: None, jitter: true }
    }

    /// Sets the credential. An empty string forces anonymous mode and suppresses the
    /// environment fallback.
    pub fn api_key(self, api_key: String) -> (r: ClientConfig)
        ensures
            r.api_key == (if api_key@.len() == 0 {
                Some(None::<String>)
            } else {
                Some(Some(api_key))
            }),
            r.base_url == self.base_url,
            r.max_retries == self.max_retries,
            r.user_agent_suffix == self.user_agent_suffix,
            r.jitter == self.jitter,
    {
        let configured = if api_key.as_str().is_empty() {
            None
        } else {
            Some(api_key)
        };
        ClientConfig { api_key: Some(configured), ..self }
    }

    /// Forces the free tier: no credential, and no environment fallback.
    pub fn anonymous(self) -> (r: ClientConfig)
        ensures
            r.api_key == Some(None::<String>),
            r.base_url == self.base_url,
            r.max_retries == self.max_retries,
            r.user_agent_suffix == self.user_agent_suffix,
            r.jitter == self.jitter,
    {
        ClientConfig { api_key: Some(None), ..self }
    }

    /// Overrides the API host. A path prefix is preserved.
    pub fn base_url(self, base_url: String) -> (r: ClientConfig)
        ensures
            r.api_key == self.api_key,
            r.base_url == base_url,
            r.max_retries == self.max_retries,
            r.user_agent_suffix == self.user_agent_suffix,
            r.jitter == self.jitter,
    {
        ClientConfig { base_url, ..self }
    }

    /// Sets the number of retries after the initial attempt. Zero disables retrying.
    pub fn max_retries(self, max_retries: u32) -> (r: ClientConfig)
        ensures
            r.api_key == self.api_key,
            r.base_url == self.base_url,
            r.max_retries == max_retries,
            r.user_agent_suffix == self.user_agent_suffix,
            r.jitter == self.jitter,
    {
        ClientConfig { max_retries, ..self }
    }

    /// Appends a token to the SDK's own User-Agent.
    pub fn user_agent_suffix(self, suffix: String) -> (r: ClientConfig)
        ensures
            r.api_key == self.api_key,
            r.base_url == self.base_url,
            r.max_retries == self.max_retries,
            r.user_agent_suffix == Some(suffix),
            r.jitter == self.jitter,
    {
        ClientConfig { user_agent_suffix: Some(suffix), ..self }
    }

    /// Turns retry jitter on or off.
    pub fn jitter(self, jitter: bool) -> (r: ClientConfig)
        ensures
            r.api_key == self.api_key,
            r.base_url == self.base_url,
            r.max_retries == self.max_retries,
            r.user_agent_suffix == self.user_agent_suffix,
            r.jitter == jitter,
    {
        ClientConfig { jitter, ..self }
    }

    /// Whether building needs the environment's credential: only when none was
    /// configured, not even an explicit "none".
    pub fn reads_environment(&self) -> (r: bool)
        ensures
            r == self.api_key is None,
    {
        self.api_key.is_none()
    }

    /// Builds the settings, given the environment's credential (consulted only when none
    /// was configured) and the platform's name for the User-Agent.
    pub fn build(self, environment_key: Option<String>, os: &str, arch: &str) -> (r: ClientSettings)
        ensures
            r.credential == resolved_credential(self.api_key, environment_key),
            r.base_url@ == without_trailing_slashes(self.base_url@),
            r.max_retries == self.max_retries,
            r.user_agent@ == user_agent_for(
                os@,
                arch@,
                opt_string_view(self.user_agent_suffix),
            ),
            r.jitter == self.jitter,
    {
        let credential = match self.api_key {
            // Explicitly configured, including explicitly empty.
            Some(configured) => configured,
            // Never configured: the environment's, when it is not empty.
            None => match environment_key {
                Some(value) => if value.as_str().is_empty() {
                    None
                } else {
                    Some(value)
                },
                None => None,
            },
        };
        let suffix = match &self.user_agent_suffix {
            Some(s) => Some(s.as_str()),
            None => None,
        };
        let agent = user_agent(os, arch, suffix);
        ClientSettings {
            base_url: normalize_base_url(self.base_url.as_str()),
            credential,
            max_retries: self.max_retries,
            user_agent: agent,
            jitter: self.jitter,
        }
    }
}

impl ClientSettings {
    /// Whether a credential was resolved. `false` means requests go out on the anonymous
    /// free tier, which is a supported mode rather than an error.
    pub fn is_authenticated(&self) -> (r: bool)
        ensures
            r == self.credential is Some,
    {
        self.credential.is_some()
    }

    /// The URL a conversion is posted to, given its rendered `params` JSON, if any.
    ///
    /// Concatenated, not resolved: a base URL carrying a path prefix must keep it.
    pub fn request_url(&self, source: SourceFormat, target: TargetFormat, params: Option<&str>) -> (r:
        String)
        ensures
            r@ == conversion_url(self.base_url@, source, target, opt_view(params)),
    {
        let mut url = String::new();
        push_str(&mut url, self.base_url.as_str());
        push_str(&mut url, "/api/v2/convert/");
        push_str(&mut url, source.wire_token());
        push_str(&mut url, "/to/");
        push_str(&mut url, target.wire_token());
        if let Some(params) = params {
            push_str(&mut url, "?params=");
            let encoded = percent_encode(params);
            push_str(&mut url, encoded.as_str());
        }
        url
    }

    /// The headers every attempt carries.
    pub fn request_headers(&self, source: SourceFormat, base64_text: bool) -> (r: Vec<
        (String, String),
    >)
        ensures
            header_views(r@) == request_headers(
                content_type_for(source, base64_text),
                self.user_agent@,
                opt_string_view(self.credential),
            ),
    {
        let content_type = if base64_text {
            "text/plain"
        } else {
            source.media_type()
        };
        let mut headers: Vec<(String, String)> = Vec::new();
        headers.push(("content-type".to_owned(), content_type.to_owned()));
        headers.push(("accept".to_owned(), "*/*".to_owned()));
        headers.push(("user-agent".to_owned(), self.user_agent.clone()));
        if let Some(credential) = &self.credential {
            let mut bearer = String::new();
            push_str(&mut bearer, "Bearer ");
            push_str(&mut bearer, credential.as_str());
            headers.push(("authorization".to_owned(), bearer));
        }
        assert(header_views(headers@) == request_headers(
            content_type_for(source, base64_text),
            self.user_agent@,
            opt_string_view(self.credential),
        ));
        headers
    }

    /// The request one conversion sends on every attempt, given the outcome of rendering
    /// its options: the empty-body check comes first, then any rejection of the options.
    pub fn outgoing_request(
        &self,
        source: SourceFormat,
        target: TargetFormat,
        body: &[u8],
        base64_text: bool,
        params: Result<Option<String>, ValidationError>,
    ) -> (r: Result<HttpRequest, ValidationError>)
        ensures
            if body@.len() == 0 {
                r matches Err(e) && e.parameter@ == "body"@ && e.message@ == empty_body_message()
            } else {
                match params {
                    Err(pe) => r == Err::<HttpRequest, ValidationError>(pe),
                    Ok(p) => r matches Ok(request) && request.method@ == "POST"@ && request.url@
                        == conversion_url(self.base_url@, source, target, opt_string_view(p))
                        && header_views(request.headers@) == request_headers(
                        content_type_for(source, base64_text),
                        self.user_agent@,
                        opt_string_view(self.credential),
                    ) && request.body@ == body@,
                }
            },
    {
        if body.len() == 0 {
            // The gateway rejects a zero-length body with 400; catching it here saves a
            // round trip and gives a clearer message.
            let mut parameter = String::new();
            push_str(&mut parameter, "body");
            let mut message = String::new();
            push_str(&mut message, "Source body cannot be empty; the API rejects zero-length requests.");
            return Err(ValidationError { parameter, message });
        }
        let params = match params {
            Ok(p) => p,
            Err(e) => return Err(e),
        };
        let params_str = match &params {
            Some(p) => Some(p.as_str()),
            None => None,
        };
        let url = self.request_url(source, target, params_str);
        let headers = self.request_headers(source, base64_text);
        Ok(HttpRequest { method: "POST", url, headers, body: slice_to_vec(body) })
    }

    /// What to do after attempt number `attempt` (counted from 1), given the response, or
    /// `None` when no response arrived, and the response's `Retry-After` in seconds.
    pub fn after_attempt<R>(&self, attempt: u64, outcome: Option<HttpResponse>, retry_after: Option<
        R,
    >) -> (r: Step<R>)
        ensures
            decision_of(r) == decide(self.max_retries as int, attempt as int, status_of(outcome)),
            r matches Step::Succeed(result) ==> (outcome matches Some(response) && result_for(
                response,
                result,
            )),
            r matches Step::Fail(error) ==> (outcome matches Some(response) && error_for(
                response,
                retry_after,
                error,
            )),
            outcome matches Some(response) && 200 <= response.status && response.status <= 299
                ==> r is Succeed,
            outcome matches Some(response) && (response.status == 429 || (500 <= response.status
                && response.status <= 599)) && attempt <= self.max_retries ==> r is Retry,
            outcome matches Some(response) && !(200 <= response.status && response.status <= 299)
                && !(response.status == 429 || (500 <= response.status && response.status <= 599))
                ==> r is Fail,
            outcome is None && attempt <= self.max_retries ==> r is Retry,
            outcome is None && attempt > self.max_retries ==> r is GiveUp,
    {
        let last = attempt > self.max_retries as u64;
        match outcome {
            None => if last {
                Step::GiveUp
            } else {
                Step::Retry
            },
            Some(response) => {
                if 200 <= response.status && response.status < 300 {
                    Step::Succeed(read_result(response))
                } else if last || !is_retryable(response.status) {
                    Step::Fail(read_error(&response, retry_after))
                } else {
                    Step::Retry
                }
            },
        }
    }
}

/// How many attempts a conversion makes, and how it ends, when attempt `attempt` onwards
/// see the statuses `statuses[attempt - 1..]` (an absent entry standing for no response).
pub open spec fn run(max_retries: nat, statuses: Seq<Option<u16>>, attempt: nat) -> (nat, Decision)
    decreases max_retries + 1 - attempt,
{
    let status = if 1 <= attempt && attempt <= statuses.len() {
        statuses[attempt - 1]
    } else {
        None
    };
    let d = decide(max_retries as int, attempt as int, status);
    if d == Decision::Retry && attempt <= max_retries {
        run(max_retries, statuses, attempt + 1)
    } else {
        (attempt, d)
    }
}

/// Only 429, a 5xx, or the absence of a response is retried, and only while attempts
/// remain; no other 4xx is ever retried.
pub proof fn lemma_retry_only_when_retryable(max_retries: int, attempt: int, status: Option<u16>)
    requires
        decide(max_retries, attempt, status) == Decision::Retry,
    ensures
        attempt <= max_retries,
        status matches Some(s) ==> retryable(s) && !(200 <= s < 300),
{
}

/// A 429 or any status from 500 to 599 is retried while attempts remain, and on the last
/// attempt it fails rather than giving up silently.
pub proof fn lemma_transient_statuses_retried(max_retries: int, attempt: int, s: u16)
    requires
        s == 429 || (500 <= s && s <= 599),
    ensures
        attempt <= max_retries ==> decide(max_retries, attempt, Some(s)) == Decision::Retry,
        attempt > max_retries ==> decide(max_retries, attempt, Some(s)) == Decision::Fail,
{
}

/// Any status outside 200-299 that is neither 429 nor 500-599 fails on the attempt that
/// saw it, whatever attempts remain: no such status is ever retried.
pub proof fn lemma_other_statuses_fail_at_once(max_retries: int, attempt: int, s: u16)
    requires
        !(200 <= s && s <= 299),
        !(s == 429 || (500 <= s && s <= 599)),
    ensures
        decide(max_retries, attempt, Some(s)) == Decision::Fail,
{
}

/// With `max_retries` zero, the first attempt is the last.
pub proof fn lemma_zero_retries_disables_retrying(attempt: int, status: Option<u16>)
    requires
        attempt >= 1,
    ensures
        decide(0, attempt, status) != Decision::Retry,
{
}

/// A 2xx response is returned as a result on any attempt, and nothing else is.
pub proof fn lemma_success_exactly_on_2xx(max_retries: int, attempt: int, status: Option<u16>)
    ensures
        (decide(max_retries, attempt, status) == Decision::Succeed) <==> (status matches Some(s)
            && 200 <= s < 300),
{
}

/// Whatever the responses, a conversion makes at least one and at most `max_retries + 1`
/// attempts, and ends in something other than a retry.
pub proof fn lemma_attempts_bounded(max_retries: nat, statuses: Seq<Option<u16>>, attempt: nat)
    requires
        1 <= attempt <= max_retries + 1,
    ensures
        attempt <= run(max_retries, statuses, attempt).0 <= max_retries + 1,
        run(max_retries, statuses, attempt).1 != Decision::Retry,
    decreases max_retries + 1 - attempt,
{
    let status = if 1 <= attempt && attempt <= statuses.len() {
        statuses[attempt - 1]
    } else {
        None
    };
    let d = decide(max_retries as int, attempt as int, status);
    if d == Decision::Retry && attempt <= max_retries {
        lemma_attempts_bounded(max_retries, statuses, attempt + 1);
    }
}

/// A header lookup sees only the names and values of the headers.
proof fn lemma_lookup_by_views(
    headers: Seq<(String, String)>,
    views: Seq<(Seq<char>, Seq<char>)>,
    name: Seq<char>,
    from: int,
)
    requires
        header_views(headers) == views,
        0 <= from,
    ensures
        header_lookup(headers, name, from) == view_lookup(views, name, from),
    decreases headers.len() - from,
{
    if from < headers.len() {
        assert(views[from] == (headers[from].0@, headers[from].1@));
        lemma_lookup_by_views(headers, views, name, from + 1);
    }
}

/// `header_lookup`, over header views.
pub open spec fn view_lookup(views: Seq<(Seq<char>, Seq<char>)>, name: Seq<char>, from: int) -> Option<
    Seq<char>,
>
    decreases views.len() - from,
{
    if from < 0 || from >= views.len() {
        None
    } else if crate::text::eq_ignore_ascii_case(views[from].0, name) {
        Some(views[from].1)
    } else {
        view_lookup(views, name, from + 1)
    }
}

/// What a request's headers say when looked up by name: the content type, `Accept: */*`,
/// the User-Agent, and `Authorization: Bearer <credential>` exactly when there is a
/// credential; without one the header is absent, never `Bearer ` with nothing after it.
pub proof fn lemma_request_header_lookup(
    headers: Seq<(String, String)>,
    content_type: Seq<char>,
    agent: Seq<char>,
    credential: Option<Seq<char>>,
)
    requires
        header_views(headers) == request_headers(content_type, agent, credential),
    ensures
        header_lookup(headers, "content-type"@, 0) == Some(content_type),
        header_lookup(headers, "accept"@, 0) == Some("*/*"@),
        header_lookup(headers, "user-agent"@, 0) == Some(agent),
        header_lookup(headers, "authorization"@, 0) == match credential {
            Some(c) => Some("Bearer "@ + c),
            None => None,
        },
{
    let views = request_headers(content_type, agent, credential);
    reveal_strlit("content-type");
    reveal_strlit("accept");
    reveal_strlit("user-agent");
    reveal_strlit("authorization");
    lemma_lookup_by_views(headers, views, "content-type"@, 0);
    lemma_lookup_by_views(headers, views, "accept"@, 0);
    lemma_lookup_by_views(headers, views, "user-agent"@, 0);
    lemma_lookup_by_views(headers, views, "authorization"@, 0);
    assert(!crate::text::eq_ignore_ascii_case("content-type"@, "authorization"@)) by {
        assert(crate::text::ascii_lower_seq("content-type"@).len() != crate::text::ascii_lower_seq(
            "authorization"@,
        ).len());
    }
    assert(!crate::text::eq_ignore_ascii_case("accept"@, "authorization"@)) by {
        assert(crate::text::ascii_lower_seq("accept"@).len() != crate::text::ascii_lower_seq(
            "authorization"@,
        ).len());
    }
    assert(!crate::text::eq_ignore_ascii_case("user-agent"@, "authorization"@)) by {
        assert(crate::text::ascii_lower_seq("user-agent"@).len() != crate::text::ascii_lower_seq(
            "authorization"@,
        ).len());
    }
    assert(!crate::text::eq_ignore_ascii_case("content-type"@, "accept"@)) by {
        assert(crate::text::ascii_lower_seq("content-type"@).len() != crate::text::ascii_lower_seq(
            "accept"@,
        ).len());
    }
    assert(!crate::text::eq_ignore_ascii_case("content-type"@, "user-agent"@)) by {
        assert(crate::text::ascii_lower_seq("content-type"@).len() != crate::text::ascii_lower_seq(
            "user-agent"@,
        ).len());
    }
    assert(!crate::text::eq_ignore_ascii_case("accept"@, "user-agent"@)) by {
        assert(crate::text::ascii_lower_seq("accept"@).len() != crate::text::ascii_lower_seq(
            "user-agent"@,
        ).len());
    }
    assert(crate::text::eq_ignore_ascii_case("content-type"@, "content-type"@));
    assert(crate::text::eq_ignore_ascii_case("accept"@, "accept"@));
    assert(crate::text::eq_ignore_ascii_case("user-agent"@, "user-agent"@));
    assert(crate::text::eq_ignore_ascii_case("authorization"@, "authorization"@));
    reveal_with_fuel(view_lookup, 5);
}

/// A configured credential, even an explicit "none", is used as configured: the
/// environment cannot change it, and building does not read the environment.
pub proof fn lemma_configured_credential_ignores_environment(
    config: ClientConfig,
    a: Option<String>,
    b: Option<String>,
)
    requires
        config.api_key is Some,
    ensures
        resolved_credential(config.api_key, a) == resolved_credential(config.api_key, b),
        resolved_credential(config.api_key, a) == config.api_key->0,
{
}

/// A normalized base URL ends in no `/`, is a prefix of what was given, and normalizing
/// it again changes nothing.
pub proof fn lemma_base_url_normalized(s: Seq<char>)
    ensures
        without_trailing_slashes(s).len() > 0 ==> without_trailing_slashes(s).last() != '/',
        without_trailing_slashes(s).len() <= s.len(),
        without_trailing_slashes(s) == s.take(without_trailing_slashes(s).len() as int),
        without_trailing_slashes(without_trailing_slashes(s)) == without_trailing_slashes(s),
    decreases s.len(),
{
    if s.len() > 0 && s.last() == '/' {
        lemma_base_url_normalized(s.drop_last());
        let t = without_trailing_slashes(s.drop_last());
        assert(s.drop_last().take(t.len() as int) == s.take(t.len() as int));
    } else {
        assert(s.take(s.len() as int) == s);
    }
}

/// The User-Agent never begins with `LabelZoomStudio/`, which the server would parse as
/// a Studio version.
pub proof fn lemma_user_agent_not_studio(os: Seq<char>, arch: Seq<char>, suffix: Option<Seq<char>>)
    ensures
        !("LabelZoomStudio/"@.is_prefix_of(user_agent_for(os, arch, suffix))),
{
    reveal_strlit("LabelZoomStudio/");
    reveal_strlit("labelzoom-rust-sdk/");
    let agent = user_agent_for(os, arch, suffix);
    let base = "labelzoom-rust-sdk/"@ + VERSION@ + " (rust; "@ + os + " "@ + arch + ")"@;
    assert(agent[0] == base[0]);
    assert(base[0] == 'l');
    assert("LabelZoomStudio/"@[0] == 'L');
}

} // verus!
