//! The error taxonomy, and how a non-2xx response is mapped onto it.

use vstd::prelude::*;

use crate::result::{opt_string_view, opt_view};
use crate::text::{
    ascii_lower_seq, contains_chars, contains_seq, decimal, is_ascii_text, push_str, str_chars,
    string_of, strip_bounds, trim, u64_decimal,
};

verus! {

/// Caps the derived message. `ApiError::raw_body` keeps the whole body.
pub const MAX_MESSAGE_LENGTH: usize = 512;

/// A request rejected before it left the process.
#[derive(Debug, Clone)]
pub struct ValidationError {
    /// The conversion parameter at fault, named as it appears on the wire.
    pub parameter: String,
    /// What was wrong with it.
    pub message: String,
}

/// Which class of API error this is.
///
/// The per-status data lives on the variant that has it rather than on every error: only
/// a 403 can be a paywall, and only a rate limit carries a `Retry-After`. `R` is the type
/// in which the `Retry-After` delay is expressed; this library only carries it.
#[derive(Debug, Clone, PartialEq)]
#[non_exhaustive]
pub enum ApiErrorKind<R> {
    /// HTTP 400. The request was malformed or the conversion path is invalid.
    BadRequest,
    /// HTTP 401. The supplied credential was rejected.
    Unauthorized,
    /// HTTP 403. The credential is valid but not entitled to this operation.
    Forbidden {
        /// True when this 403 is a paywall rather than a permissions problem: "JSON
        /// export is a paid feature" and friends.
        is_paid_feature: bool,
    },
    /// HTTP 404. The conversion path does not exist.
    NotFound,
    /// HTTP 413. The body exceeded the tier's limit: 1 MB on the anonymous free tier.
    PayloadTooLarge,
    /// HTTP 429. Too many requests.
    RateLimited {
        /// `Retry-After` in seconds, when the server sent one.
        retry_after_seconds: Option<R>,
    },
    /// HTTP 5xx. Retried automatically before surfacing.
    ServerError,
    /// Any other non-2xx. A 406 from content negotiation is the one that shows up in
    /// practice.
    Other,
}

/// A non-2xx response from the LabelZoom API.
#[derive(Debug, Clone)]
pub struct ApiError<R> {
    /// Which of the API's error classes this is.
    pub kind: ApiErrorKind<R>,
    /// The HTTP status code the API returned.
    pub status: u16,
    /// The human-readable detail, derived from the body and capped at 512 characters.
    pub message: String,
    /// The `X-LZ-Request-Id` response header, when the server sent one.
    pub request_id: Option<String>,
    /// The response body, untruncated. `message` is derived from it; this is not.
    pub raw_body: String,
}

impl ValidationError {
    /// How the error reads: `invalid <parameter>: <message>`.
    pub fn display_text(&self) -> (r: String)
        ensures
            r@ == "invalid "@ + self.parameter@ + ": "@ + self.message@,
    {
        let mut r = String::new();
        push_str(&mut r, "invalid ");
        push_str(&mut r, self.parameter.as_str());
        push_str(&mut r, ": ");
        push_str(&mut r, self.message.as_str());
        r
    }
}

impl<R> ApiError<R> {
    /// How the error reads: `HTTP <status>: <message>`, then ` (request <id>)` when the
    /// server sent a request id.
    pub fn display_text(&self) -> (r: String)
        ensures
            r@ == "HTTP "@ + decimal(self.status as int) + ": "@ + self.message@ + match self.request_id {
                Some(id) => " (request "@ + id@ + ")"@,
                None => Seq::empty(),
            },
    {
        let mut r = String::new();
        push_str(&mut r, "HTTP ");
        let status = u64_decimal(self.status as u64);
        push_str(&mut r, status.as_str());
        push_str(&mut r, ": ");
        push_str(&mut r, self.message.as_str());
        let ghost before = r@;
        match &self.request_id {
            Some(id) => {
                push_str(&mut r, " (request ");
                push_str(&mut r, id.as_str());
                push_str(&mut r, ")");
            },
            None => {
                assert(before + Seq::<char>::empty() == before);
            },
        }
        r
    }
}

impl<R: Copy> ApiError<R> {
    /// Whether this is a 403 raised by the paywall rather than by permissions.
    pub fn is_paid_feature(&self) -> (r: bool)
        ensures
            r == (self.kind == ApiErrorKind::<R>::Forbidden { is_paid_feature: true }),
    {
        match self.kind {
            ApiErrorKind::Forbidden { is_paid_feature } => is_paid_feature,
            _ => false,
        }
    }

    /// `Retry-After` in seconds, if this is a rate limit that carried one.
    pub fn retry_after_seconds(&self) -> (r: Option<R>)
        ensures
            r == (match self.kind {
                ApiErrorKind::RateLimited { retry_after_seconds } => retry_after_seconds,
                _ => None,
            }),
    {
        match self.kind {
            ApiErrorKind::RateLimited { retry_after_seconds } => retry_after_seconds,
            _ => None,
        }
    }
}

/// What `str::to_lowercase` returns: the Unicode lowercase mapping of each character.
pub uninterp spec fn unicode_lowercase(s: Seq<char>) -> Seq<char>;

/// `str::to_lowercase` from std.
///
/// Claimed: the result is a function of the characters of `s` alone, named
/// `unicode_lowercase`; and on ASCII text it is the ASCII lowercase of `s`, as std
/// documents (ASCII `A-Z` become `a-z`, every other ASCII character is kept). What it is on
/// other text is left to the name.
#[verifier::external_body]
fn to_lowercase(s: &str) -> (r: String)
    ensures
        r@ == unicode_lowercase(s@),
        is_ascii_text(s@) ==> r@ == ascii_lower_seq(s@),
{
    s.to_lowercase()
}

/// The phrase that marks a paywall 403.
pub open spec fn paid_feature_phrase() -> Seq<char> {
    seq!['p', 'a', 'i', 'd', ' ', 'f', 'e', 'a', 't', 'u', 'r', 'e']
}

/// Whether a message says "paid feature", in any case.
pub open spec fn mentions_paid_feature(message: Seq<char>) -> bool {
    contains_seq(unicode_lowercase(message), paid_feature_phrase())
}

/// The error class for a status.
pub open spec fn kind_for_status<R>(status: u16, message: Seq<char>, retry_after: Option<R>) -> ApiErrorKind<R> {
    if status == 400 {
        ApiErrorKind::BadRequest
    } else if status == 401 {
        ApiErrorKind::Unauthorized
    } else if status == 403 {
        ApiErrorKind::Forbidden { is_paid_feature: mentions_paid_feature(message) }
    } else if status == 404 {
        ApiErrorKind::NotFound
    } else if status == 413 {
        ApiErrorKind::PayloadTooLarge
    } else if status == 429 {
        ApiErrorKind::RateLimited { retry_after_seconds: retry_after }
    } else if 500 <= status <= 599 {
        ApiErrorKind::ServerError
    } else {
        ApiErrorKind::Other
    }
}

/// Each status lands in its documented class: 400, 401, 403, 404, 413 and 429 in their
/// own, every status from 500 to 599 in `ServerError`, and every other status in `Other`.
/// Only a 429 carries `Retry-After`.
pub proof fn lemma_status_classes<R>(status: u16, message: Seq<char>, retry_after: Option<R>)
    ensures
        status == 400 ==> kind_for_status(status, message, retry_after) is BadRequest,
        status == 401 ==> kind_for_status(status, message, retry_after) is Unauthorized,
        status == 403 ==> kind_for_status(status, message, retry_after) is Forbidden,
        status == 404 ==> kind_for_status(status, message, retry_after) is NotFound,
        status == 413 ==> kind_for_status(status, message, retry_after) is PayloadTooLarge,
        status == 429 ==> kind_for_status(status, message, retry_after) == (
        ApiErrorKind::<R>::RateLimited { retry_after_seconds: retry_after }),
        500 <= status && status <= 599 ==> kind_for_status(status, message, retry_after) is ServerError,
        status != 400 && status != 401 && status != 403 && status != 404 && status != 413
            && status != 429 && !(500 <= status && status <= 599) ==> kind_for_status(
            status,
            message,
            retry_after,
        ) is Other,
{
}

/// Whether `message` says "paid feature", in any case.
pub fn says_paid_feature(message: &str) -> (r: bool)
    ensures
        r == mentions_paid_feature(message@),
        is_ascii_text(message@) ==> r == contains_seq(
            ascii_lower_seq(message@),
            paid_feature_phrase(),
        ),
{
    let lowered = to_lowercase(message);
    let hay = str_chars(lowered.as_str());
    let needle = ['p', 'a', 'i', 'd', ' ', 'f', 'e', 'a', 't', 'u', 'r', 'e'];
    assert(needle@ == paid_feature_phrase());
    contains_chars(hay.as_slice(), needle.as_slice())
}

/// Maps a response onto the typed error for its status.
pub fn error_for_status<R>(
    status: u16,
    message: String,
    request_id: Option<String>,
    raw_body: String,
    retry_after_seconds: Option<R>,
) -> (r: ApiError<R>)
    ensures
        r.kind == kind_for_status(status, message@, retry_after_seconds),
        status == 403 && is_ascii_text(message@) ==> r.kind == (ApiErrorKind::<R>::Forbidden {
            is_paid_feature: contains_seq(ascii_lower_seq(message@), paid_feature_phrase()),
        }),
        status == 400 ==> r.kind is BadRequest,
        status == 401 ==> r.kind is Unauthorized,
        status == 403 ==> r.kind is Forbidden,
        status == 404 ==> r.kind is NotFound,
        status == 413 ==> r.kind is PayloadTooLarge,
        status == 429 ==> r.kind == (ApiErrorKind::<R>::RateLimited {
            retry_after_seconds,
        }),
        500 <= status && status <= 599 ==> r.kind is ServerError,
        status != 400 && status != 401 && status != 403 && status != 404 && status != 413
            && status != 429 && !(500 <= status && status <= 599) ==> r.kind is Other,
        r.status == status,
        r.message == message,
        r.request_id == request_id,
        r.raw_body == raw_body,
{
    let kind = if status == 400 {
        ApiErrorKind::BadRequest
    } else if status == 401 {
        ApiErrorKind::Unauthorized
    } else if status == 403 {
        ApiErrorKind::Forbidden { is_paid_feature: says_paid_feature(message.as_str()) }
    } else if status == 404 {
        ApiErrorKind::NotFound
    } else if status == 413 {
        ApiErrorKind::PayloadTooLarge
    } else if status == 429 {
        ApiErrorKind::RateLimited { retry_after_seconds }
    } else if 500 <= status && status <= 599 {
        ApiErrorKind::ServerError
    } else {
        ApiErrorKind::Other
    };
    ApiError { kind, status, message, request_id, raw_body }
}

/// `s`, cut to its first 512 characters.
pub open spec fn truncated(s: Seq<char>) -> Seq<char> {
    if s.len() > MAX_MESSAGE_LENGTH {
        s.take(MAX_MESSAGE_LENGTH as int)
    } else {
        s
    }
}

/// A derived message is never longer than 512 characters, and is a prefix of what it was
/// derived from.
pub proof fn lemma_truncated_bounded(s: Seq<char>)
    ensures
        truncated(s).len() <= MAX_MESSAGE_LENGTH,
        truncated(s) == s.take(truncated(s).len() as int),
        s.len() <= MAX_MESSAGE_LENGTH ==> truncated(s) == s,
{
    if s.len() <= MAX_MESSAGE_LENGTH {
        assert(s.take(s.len() as int) == s);
    }
}

/// Truncates `v[from..to]` by character, to at most 512 characters.
fn truncate_range(v: &[char], from: usize, to: usize) -> (r: String)
    requires
        from <= to <= v@.len(),
    ensures
        r@ == truncated(v@.subrange(from as int, to as int)),
{
    if to - from > MAX_MESSAGE_LENGTH {
        let r = string_of(v, from, from + MAX_MESSAGE_LENGTH);
        assert(v@.subrange(from as int, to as int).take(MAX_MESSAGE_LENGTH as int) == v@.subrange(
            from as int,
            from + MAX_MESSAGE_LENGTH,
        ));
        r
    } else {
        string_of(v, from, to)
    }
}

/// Truncates by character, not byte: slicing a multi-byte character in half would panic.
pub fn truncate(value: &str) -> (r: String)
    ensures
        r@ == truncated(value@),
{
    let v = str_chars(value);
    assert(v@.subrange(0, v@.len() as int) == v@);
    truncate_range(v.as_slice(), 0, v.len())
}

/// The HTTP reason phrase for a status, from the table this library knows.
pub open spec fn reason_phrase_for(status: u16) -> Option<Seq<char>> {
    if status == 400 {
        Some("Bad Request"@)
    } else if status == 401 {
        Some("Unauthorized"@)
    } else if status == 403 {
        Some("Forbidden"@)
    } else if status == 404 {
        Some("Not Found"@)
    } else if status == 405 {
        Some("Method Not Allowed"@)
    } else if status == 406 {
        Some("Not Acceptable"@)
    } else if status == 408 {
        Some("Request Timeout"@)
    } else if status == 409 {
        Some("Conflict"@)
    } else if status == 413 {
        Some("Payload Too Large"@)
    } else if status == 415 {
        Some("Unsupported Media Type"@)
    } else if status == 422 {
        Some("Unprocessable Entity"@)
    } else if status == 429 {
        Some("Too Many Requests"@)
    } else if status == 500 {
        Some("Internal Server Error"@)
    } else if status == 501 {
        Some("Not Implemented"@)
    } else if status == 502 {
        Some("Bad Gateway"@)
    } else if status == 503 {
        Some("Service Unavailable"@)
    } else if status == 504 {
        Some("Gateway Timeout"@)
    } else {
        None
    }
}

/// The HTTP reason phrase for a status.
///
/// Derived from a table rather than read off the response: a transport does not reliably
/// surface a phrase.
pub fn reason_phrase(status: u16) -> (r: Option<&'static str>)
    ensures
        opt_view(r) == reason_phrase_for(status),
{
    if status == 400 {
        Some("Bad Request")
    } else if status == 401 {
        Some("Unauthorized")
    } else if status == 403 {
        Some("Forbidden")
    } else if status == 404 {
        Some("Not Found")
    } else if status == 405 {
        Some("Method Not Allowed")
    } else if status == 406 {
        Some("Not Acceptable")
    } else if status == 408 {
        Some("Request Timeout")
    } else if status == 409 {
        Some("Conflict")
    } else if status == 413 {
        Some("Payload Too Large")
    } else if status == 415 {
        Some("Unsupported Media Type")
    } else if status == 422 {
        Some("Unprocessable Entity")
    } else if status == 429 {
        Some("Too Many Requests")
    } else if status == 500 {
        Some("Internal Server Error")
    } else if status == 501 {
        Some("Not Implemented")
    } else if status == 502 {
        Some("Bad Gateway")
    } else if status == 503 {
        Some("Service Unavailable")
    } else if status == 504 {
        Some("Gateway Timeout")
    } else {
        None
    }
}

/// The string member `key` of `text`, when `text` parses as a JSON object that has a
/// member `key` whose value is a string.
pub uninterp spec fn json_string_member_of(text: Seq<char>, key: Seq<char>) -> Option<Seq<char>>;

/// `serde_json::from_str` into a `serde_json::Value`, then `Map::get(key)` on the object.
///
/// Claimed: the outcome is a function of `text` and `key` alone. Which JSON documents
/// parse, and to what, is left to the name `json_string_member_of`.
#[verifier::external_body]
fn json_string_member(text: &str, key: &str) -> (r: Option<String>)
    ensures
        opt_string_view(r) == json_string_member_of(text@, key@),
{
    match serde_json::from_str::<serde_json::Value>(text) {
        Ok(serde_json::Value::Object(map)) => match map.get(key) {
            Some(serde_json::Value::String(member)) => Some(member.clone()),
            Some(_) => None,
            None => None,
        },
        Ok(_) => None,
        Err(_) => None,
    }
}

/// The member of an error body that carries its detail.
pub open spec fn message_key() -> Seq<char> {
    "message"@
}

/// The message used when there is neither a body nor a reason phrase.
pub open spec fn no_body_message() -> Seq<char> {
    "The LabelZoom API returned an error with no response body."@
}

/// The human-readable detail of an error, given what a JSON parse of the body found
/// under `message`:
/// 1. the JSON `message`, when the body is not blank and the member is not blank;
/// 2. the trimmed body, when it is not blank;
/// 3. the reason phrase, when there is a non-blank one;
/// 4. a fixed sentence.
/// The first two are capped at 512 characters.
pub open spec fn error_message(
    raw_body: Seq<char>,
    json_message: Option<Seq<char>>,
    reason_phrase: Option<Seq<char>>,
) -> Seq<char> {
    if trim(raw_body).len() > 0 {
        match json_message {
            Some(detail) => if trim(detail).len() > 0 {
                truncated(detail)
            } else {
                truncated(trim(raw_body))
            },
            None => truncated(trim(raw_body)),
        }
    } else {
        match reason_phrase {
            Some(phrase) => if trim(phrase).len() > 0 {
                phrase
            } else {
                no_body_message()
            },
            None => no_body_message(),
        }
    }
}

/// The detail `extract_message` derives: the JSON `message` member is only looked for
/// when the body is not blank.
pub open spec fn extracted_message(raw_body: Seq<char>, reason_phrase: Option<Seq<char>>) -> Seq<
    char,
> {
    if trim(raw_body).len() > 0 {
        error_message(raw_body, json_string_member_of(raw_body, message_key()), reason_phrase)
    } else {
        error_message(raw_body, None, reason_phrase)
    }
}

/// Whether a string is empty once trimmed.
fn is_blank(s: &str) -> (r: bool)
    ensures
        r == (trim(s@).len() == 0),
{
    let v = str_chars(s);
    assert(v@.subrange(0, v@.len() as int) == v@);
    let (lo, hi) = strip_bounds(v.as_slice(), 0, v.len(), false);
    lo == hi
}

/// Picks the human-readable detail of an error from the body, what a JSON parse of the
/// body found under `message`, and the status's reason phrase.
pub fn message_from(raw_body: &str, json_message: Option<&str>, reason_phrase: Option<&str>) -> (r:
    String)
    ensures
        r@ == error_message(raw_body@, opt_view(json_message), opt_view(reason_phrase)),
{
    let body = str_chars(raw_body);
    assert(body@.subrange(0, body@.len() as int) == body@);
    let (lo, hi) = strip_bounds(body.as_slice(), 0, body.len(), false);
    if lo < hi {
        if let Some(detail) = json_message {
            if !is_blank(detail) {
                return truncate(detail);
            }
        }
        // Not JSON, or JSON without a usable message. The raw body is still the most
        // useful thing available, and a parse failure must not mask the HTTP error.
        return truncate_range(body.as_slice(), lo, hi);
    }
    match reason_phrase {
        Some(phrase) => {
            if !is_blank(phrase) {
                let mut r = String::new();
                push_str(&mut r, phrase);
                return r;
            }
        },
        None => {},
    }
    let mut r = String::new();
    push_str(&mut r, "The LabelZoom API returned an error with no response body.");
    r
}

/// Pulls the human-readable detail out of an error body.
///
/// Both shapes in play put it on `message`: the gateway returns `{"message": "..."}` and
/// Spring returns `{timestamp, status, error, message, path}`. Anything else falls through
/// to the raw text, then to the reason phrase.
pub fn extract_message(raw_body: &str, reason_phrase: Option<&str>) -> (r: String)
    ensures
        r@ == extracted_message(raw_body@, opt_view(reason_phrase)),
{
    if is_blank(raw_body) {
        return message_from(raw_body, None, reason_phrase);
    }
    let parsed = json_string_member(raw_body, "message");
    match parsed {
        Some(detail) => message_from(raw_body, Some(detail.as_str()), reason_phrase),
        None => message_from(raw_body, None, reason_phrase),
    }
}

} // verus!
