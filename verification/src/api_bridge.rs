//! Maps errors of the Responses API client onto the runtime's error kinds.
//!
//! HTTP failures are classified by status and by the JSON error object in the body:
//! overload and slow-down signals on 503, policy violations on 400/403, usage-limit
//! and quota signals on 429; everything else keeps its status, body and tracking headers.

use vstd::prelude::*;
use base64::Engine;
use crate::error::{
    KodexErr, KodexErrView, MisalignmentErrorDetails, MisalignmentSteer, MisalignmentView, RetryLimitReachedError,
    UnexpectedResponseError, UnexpectedView, UsageLimitReachedError, omv,
};
use crate::headers::{HeaderList, extract_header, hdr, header_lookup};
use crate::rate_limits::{
    DEFAULT_LIMIT_ID, limit_name_header, parse_rate_limit_for_limit, parse_rate_limit_reached_type, spec_rate_limit_snapshot,
    spec_reached_type,
};
use crate::json::{Json, JsonView, jget, jget_opt, jstr_opt, json_get, json_as_str, parse_json, parse_json_bytes, serde_json_from_str, serde_json_from_slice};
use crate::text::{ov, seq_contains, seq_is_blank, str_contains, str_is_blank};

verus! {

// ----------------------------------------------------------------------------------------
// Input types
// ----------------------------------------------------------------------------------------

/// Transport-level failures of a request.
pub enum TransportError {
    /// The server answered with a non-success status.
    Http { status: u16, url: Option<String>, headers: Option<HeaderList>, body: Option<String> },
    RetryLimit,
    Timeout,
    /// A network policy denied the request; the denial as text.
    Policy(String),
    /// The connection failed; the underlying error as text.
    Connection(String),
    Network(String),
    Build(String),
    /// The response exceeded the size limit; the error as text.
    ResponseTooLarge { message: String },
}

/// Errors produced by the Responses API client.
pub enum ApiError {
    ContextWindowExceeded,
    QuotaExceeded,
    UsageNotIncluded,
    Retryable { message: String, delay: Option<std::time::Duration> },
    RateLimitExceeded { message: String, delay: Option<std::time::Duration> },
    Stream(String),
    ServerOverloaded,
    Api { status: u16, message: String },
    InvalidRequest { message: String },
    InvalidPrompt { message: String },
    CyberPolicy { message: String },
    BioPolicy { message: String },
    MisalignmentPolicyViolation { message: String, misalignment: Option<MisalignmentErrorDetails> },
    Transport(TransportError),
    RateLimit(String),
}

} // verus!

verus! {

// ----------------------------------------------------------------------------------------
// Outside calls
// ----------------------------------------------------------------------------------------

/// How `http::StatusCode` displays a status: its number and canonical reason phrase.
pub uninterp spec fn http_status_display(status: u16) -> Seq<char>;

/// Calls `http::StatusCode::from_u16(status)` and displays it with `to_string`.
/// Claimed: the text is the named display of the status. `from_u16` accepts 100..=999.
#[verifier::external_body]
fn status_display(status: u16) -> (r: String)
    requires
        100 <= status <= 999,
    ensures
        r@ == http_status_display(status),
{
    match http::StatusCode::from_u16(status) {
        Ok(code) => code.to_string(),
        Err(_) => String::new(),
    }
}

/// What `base64::engine::general_purpose::STANDARD.decode` gives for a text.
pub uninterp spec fn base64_standard_decode(input: Seq<char>) -> Option<Seq<u8>>;

/// Calls `STANDARD.decode(input)`. Claimed: the bytes are the named decoding of the input
/// (`None` exactly when the engine rejects it).
#[verifier::external_body]
fn decode_base64(input: &str) -> (r: Option<Vec<u8>>)
    ensures
        match r {
            Some(b) => base64_standard_decode(input@) == Some(b@),
            None => base64_standard_decode(input@) is None,
        },
{
    base64::engine::general_purpose::STANDARD.decode(input).ok()
}

/// The first second that `chrono::DateTime::<Utc>` represents: the start of
/// January 1 of year -262143 (`NaiveDate::MIN`), in Unix seconds.
pub const CHRONO_MIN_TIMESTAMP: i64 = -8_334_601_228_800;
/// The last second that `chrono::DateTime::<Utc>` represents: the end of
/// December 31 of year 262142 (`NaiveDate::MAX`), in Unix seconds.
pub const CHRONO_MAX_TIMESTAMP: i64 = 8_210_266_876_799;

/// Whether `chrono::DateTime::<Utc>::from_timestamp(secs, 0)` accepts the seconds: the
/// day they fall on lies between `NaiveDate::MIN` and `NaiveDate::MAX`.
pub open spec fn chrono_timestamp_in_range(secs: i64) -> bool {
    CHRONO_MIN_TIMESTAMP <= secs <= CHRONO_MAX_TIMESTAMP
}

/// Calls `DateTime::<Utc>::from_timestamp(secs, 0)` and reads the instant back with
/// `timestamp()`. Claimed: the call succeeds exactly on the seconds chrono's date range
/// covers (its year bounds `MIN_YEAR`/`MAX_YEAR`, with whole days of 86 400 seconds and a
/// zero nanosecond part that is always valid), and on success the instant has the given
/// seconds (chrono documents the round trip).
#[verifier::external_body]
fn utc_timestamp(secs: i64) -> (r: Option<i64>)
    ensures
        chrono_timestamp_in_range(secs) ==> r == Some(secs),
        !chrono_timestamp_in_range(secs) ==> r is None,
{
    chrono::DateTime::<chrono::Utc>::from_timestamp(secs, 0).map(|t| t.timestamp())
}

} // verus!

verus! {

// ----------------------------------------------------------------------------------------
// Header rules
// ----------------------------------------------------------------------------------------

pub const ACTIVE_LIMIT_HEADER: &'static str = "x-kodex-active-limit";
pub const REQUEST_ID_HEADER: &'static str = "x-request-id";
pub const OAI_REQUEST_ID_HEADER: &'static str = "x-oai-request-id";
pub const CF_RAY_HEADER: &'static str = "cf-ray";
pub const X_OPENAI_AUTHORIZATION_ERROR_HEADER: &'static str = "x-openai-authorization-error";
pub const X_ERROR_JSON_HEADER: &'static str = "x-error-json";

pub open spec fn or_opt(a: Option<Seq<char>>, b: Option<Seq<char>>) -> Option<Seq<char>> {
    match a {
        Some(x) => Some(x),
        None => b,
    }
}

/// The request id: `x-request-id`, else `x-oai-request-id`.
pub open spec fn spec_request_id(headers: Option<HeaderList>) -> Option<Seq<char>> {
    or_opt(hdr(headers, REQUEST_ID_HEADER@), hdr(headers, OAI_REQUEST_ID_HEADER@))
}

/// The id that tracks a request: the request id, else the Cloudflare ray id.
pub open spec fn spec_request_tracking_id(headers: Option<HeaderList>) -> Option<Seq<char>> {
    or_opt(spec_request_id(headers), hdr(headers, CF_RAY_HEADER@))
}

/// The `error.code` string inside the base64-encoded JSON of `x-error-json`.
pub open spec fn spec_x_error_json_code(headers: Option<HeaderList>) -> Option<Seq<char>> {
    match hdr(headers, X_ERROR_JSON_HEADER@) {
        Some(encoded) => match base64_standard_decode(encoded) {
            Some(bytes) => jstr_opt(jget_opt(jget_opt(serde_json_from_slice(bytes), "error"@), "code"@)),
            None => None,
        },
        None => None,
    }
}

fn headers_ref(headers: &Option<HeaderList>) -> (r: Option<&HeaderList>)
    ensures
        match headers {
            Some(h) => r == Some(h),
            None => r is None,
        },
{
    match headers {
        Some(h) => Some(h),
        None => None,
    }
}

fn header_of(headers: &Option<HeaderList>, name: &str) -> (r: Option<String>)
    ensures
        ov(r) == hdr(*headers, name@),
{
    let h = headers_ref(headers);
    extract_header(h, name)
}

pub fn extract_request_id(headers: &Option<HeaderList>) -> (r: Option<String>)
    ensures
        ov(r) == spec_request_id(*headers),
{
    match header_of(headers, REQUEST_ID_HEADER) {
        Some(id) => Some(id),
        None => header_of(headers, OAI_REQUEST_ID_HEADER),
    }
}

pub fn extract_request_tracking_id(headers: &Option<HeaderList>) -> (r: Option<String>)
    ensures
        ov(r) == spec_request_tracking_id(*headers),
{
    match extract_request_id(headers) {
        Some(id) => Some(id),
        None => header_of(headers, CF_RAY_HEADER),
    }
}

fn json_member<'a>(j: Option<&'a Json>, key: &str) -> (r: Option<&'a Json>)
    ensures
        match j {
            Some(v) => match r {
                Some(m) => jget(v.view(), key@) == Some(m.view()),
                None => jget(v.view(), key@) is None,
            },
            None => r is None,
        },
{
    match j {
        Some(v) => json_get(v, key),
        None => None,
    }
}

pub open spec fn oj(j: Option<&Json>) -> Option<JsonView> {
    match j {
        Some(v) => Some(v.view()),
        None => None,
    }
}

fn json_member_str<'a>(j: Option<&'a Json>, key: &str) -> (r: Option<&'a str>)
    ensures
        match r {
            Some(s) => jstr_opt(jget_opt(oj(j), key@)) == Some(s@),
            None => jstr_opt(jget_opt(oj(j), key@)) is None,
        },
{
    match json_member(j, key) {
        Some(m) => json_as_str(m),
        None => None,
    }
}

pub fn extract_x_error_json_code(headers: &Option<HeaderList>) -> (r: Option<String>)
    ensures
        ov(r) == spec_x_error_json_code(*headers),
{
    let encoded = match header_of(headers, X_ERROR_JSON_HEADER) {
        Some(e) => e,
        None => return None,
    };
    let decoded = match decode_base64(encoded.as_str()) {
        Some(d) => d,
        None => return None,
    };
    let parsed = parse_json_bytes(decoded.as_slice());
    let error = match &parsed {
        Some(p) => json_member(Some(p), "error"),
        None => None,
    };
    match json_member_str(error, "code") {
        Some(code) => Some(code.to_owned()),
        None => None,
    }
}

// ----------------------------------------------------------------------------------------
// Body rules
// ----------------------------------------------------------------------------------------

pub const CLOUDFLARE_BLOCKED_MESSAGE: &'static str =
    "Access blocked by Cloudflare. This usually happens when connecting from a restricted region";

/// The user-facing message for a response blocked by Cloudflare.
pub open spec fn spec_user_message(status: u16, body: Seq<char>) -> Option<Seq<char>> {
    if status == 403 && seq_contains(body, "Cloudflare"@) && seq_contains(body, "blocked"@) {
        Some(CLOUDFLARE_BLOCKED_MESSAGE@ + " (status "@ + http_status_display(status) + ")"@)
    } else {
        None
    }
}

pub fn api_error_user_message(status: u16, body: &str) -> (r: Option<String>)
    requires
        100 <= status <= 999,
    ensures
        ov(r) == spec_user_message(status, body@),
{
    if status == 403 && str_contains(body, "Cloudflare") && str_contains(body, "blocked") {
        let mut m = String::from_str(CLOUDFLARE_BLOCKED_MESSAGE);
        m.append(" (status ");
        let d = status_display(status);
        m.append(d.as_str());
        m.append(")");
        Some(m)
    } else {
        None
    }
}

} // verus!

verus! {

/// An optional string member: `Some(None)` when absent or null, `Some(Some(s))` for a
/// string, `None` (a type error) for anything else.
pub open spec fn opt_str_member(obj: JsonView, key: Seq<char>) -> Option<Option<Seq<char>>> {
    match jget(obj, key) {
        None => Some(None),
        Some(JsonView::Null) => Some(None),
        Some(JsonView::Str(s)) => Some(Some(s)),
        Some(_) => None,
    }
}

/// An optional `i64` member, read as `opt_str_member` reads strings.
pub open spec fn opt_i64_member(obj: JsonView, key: Seq<char>) -> Option<Option<i64>> {
    match jget(obj, key) {
        None => Some(None),
        Some(JsonView::Null) => Some(None),
        Some(JsonView::Number(Some(n))) => Some(Some(n)),
        Some(_) => None,
    }
}

/// The optional `steer` member: an object whose `message` is a string.
pub open spec fn steer_member(obj: JsonView) -> Option<Option<Seq<char>>> {
    match jget(obj, "steer"@) {
        None => Some(None),
        Some(JsonView::Null) => Some(None),
        Some(JsonView::Object(e)) => match jget(JsonView::Object(e), "message"@) {
            Some(JsonView::Str(m)) => Some(Some(m)),
            _ => None,
        },
        Some(_) => None,
    }
}

/// Misalignment details read from a JSON object (`None` when the value does not fit).
pub open spec fn spec_misalignment(v: Option<JsonView>) -> Option<MisalignmentView> {
    match v {
        Some(JsonView::Object(e)) => {
            let o = JsonView::Object(e);
            match (opt_str_member(o, "error_type"@), opt_str_member(o, "detailed_explanation"@), steer_member(o)) {
                (Some(a), Some(b), Some(c)) => Some(MisalignmentView { error_type: a, detailed_explanation: b, steer: c }),
                _ => None,
            }
        },
        _ => None,
    }
}

enum Member<T> {
    Missing,
    Present(T),
    Mistyped,
}

fn opt_str_of(obj: &Json, key: &str) -> (r: Member<String>)
    ensures
        match r {
            Member::Missing => opt_str_member(obj.view(), key@) == Some(None::<Seq<char>>),
            Member::Present(s) => opt_str_member(obj.view(), key@) == Some(Some(s@)),
            Member::Mistyped => opt_str_member(obj.view(), key@) is None,
        },
{
    match json_get(obj, key) {
        None => Member::Missing,
        Some(Json::Null) => Member::Missing,
        Some(Json::Str(s)) => Member::Present(s.clone()),
        Some(_) => Member::Mistyped,
    }
}

fn opt_i64_of(obj: &Json, key: &str) -> (r: Member<i64>)
    ensures
        match r {
            Member::Missing => opt_i64_member(obj.view(), key@) == Some(None::<i64>),
            Member::Present(n) => opt_i64_member(obj.view(), key@) == Some(Some(n)),
            Member::Mistyped => opt_i64_member(obj.view(), key@) is None,
        },
{
    match json_get(obj, key) {
        None => Member::Missing,
        Some(Json::Null) => Member::Missing,
        Some(Json::Number(Some(n))) => Member::Present(*n),
        Some(_) => Member::Mistyped,
    }
}

fn member_to_opt(m: Member<String>) -> (r: Option<Option<String>>)
    ensures
        match m {
            Member::Missing => r == Some(None::<String>),
            Member::Present(s) => r == Some(Some(s)),
            Member::Mistyped => r is None,
        },
{
    match m {
        Member::Missing => Some(None),
        Member::Present(s) => Some(Some(s)),
        Member::Mistyped => None,
    }
}

fn steer_of(obj: &Json) -> (r: Option<Option<MisalignmentSteer>>)
    ensures
        match r {
            Some(None) => steer_member(obj.view()) == Some(None::<Seq<char>>),
            Some(Some(s)) => steer_member(obj.view()) == Some(Some(s.message@)),
            None => steer_member(obj.view()) is None,
        },
{
    match json_get(obj, "steer") {
        None => Some(None),
        Some(Json::Null) => Some(None),
        Some(s) => {
            match s {
                Json::Object(_) => {
                    match json_get(s, "message") {
                        Some(Json::Str(m)) => Some(Some(MisalignmentSteer { message: m.clone() })),
                        _ => None,
                    }
                },
                _ => None,
            }
        },
    }
}

/// Reads misalignment details the way `serde_json::from_value::<MisalignmentErrorDetails>` does
/// for an object: optional string fields, an optional `steer` object with a string `message`.
pub fn misalignment_details(v: Option<&Json>) -> (r: Option<MisalignmentErrorDetails>)
    ensures
        omv(r) == spec_misalignment(oj(v)),
{
    let o = match v {
        Some(o) => o,
        None => return None,
    };
    match o {
        Json::Object(_) => {},
        _ => return None,
    }
    let error_type = match member_to_opt(opt_str_of(o, "error_type")) {
        Some(x) => x,
        None => return None,
    };
    let detailed_explanation = match member_to_opt(opt_str_of(o, "detailed_explanation")) {
        Some(x) => x,
        None => return None,
    };
    let steer = match steer_of(o) {
        Some(x) => x,
        None => return None,
    };
    Some(MisalignmentErrorDetails { error_type, detailed_explanation, steer })
}

/// The `error` object of a 429 body, read as `UsageErrorResponse`.
pub struct UsageBodyView {
    pub code: Option<Seq<char>>,
    pub error_type: Option<Seq<char>>,
    pub plan_type: Option<Seq<char>>,
    pub resets_at: Option<i64>,
}

/// The usage-error body: a JSON object whose required `error` member is an object with
/// optional string `code`, `type`, `plan_type` and optional integer `resets_at`.
pub open spec fn spec_usage_body(body: Seq<char>) -> Option<UsageBodyView> {
    match jget_opt(serde_json_from_str(body), "error"@) {
        Some(JsonView::Object(e)) => {
            let o = JsonView::Object(e);
            match (opt_str_member(o, "code"@), opt_str_member(o, "type"@), opt_str_member(o, "plan_type"@), opt_i64_member(o, "resets_at"@)) {
                (Some(c), Some(t), Some(p), Some(r)) => Some(UsageBodyView { code: c, error_type: t, plan_type: p, resets_at: r }),
                _ => None,
            }
        },
        _ => None,
    }
}

struct UsageBody {
    code: Option<String>,
    error_type: Option<String>,
    plan_type: Option<String>,
    resets_at: Option<i64>,
}

fn usage_body(body: &str) -> (r: Option<UsageBody>)
    ensures
        match r {
            Some(u) => spec_usage_body(body@) == Some(UsageBodyView {
                code: ov(u.code),
                error_type: ov(u.error_type),
                plan_type: ov(u.plan_type),
                resets_at: u.resets_at,
            }),
            None => spec_usage_body(body@) is None,
        },
{
    let parsed = parse_json(body);
    let error = match &parsed {
        Some(p) => json_member(Some(p), "error"),
        None => None,
    };
    let o = match error {
        Some(o) => o,
        None => return None,
    };
    match o {
        Json::Object(_) => {},
        _ => return None,
    }
    let code = match member_to_opt(opt_str_of(o, "code")) {
        Some(x) => x,
        None => return None,
    };
    let error_type = match member_to_opt(opt_str_of(o, "type")) {
        Some(x) => x,
        None => return None,
    };
    let plan_type = match member_to_opt(opt_str_of(o, "plan_type")) {
        Some(x) => x,
        None => return None,
    };
    let resets_at = match opt_i64_of(o, "resets_at") {
        Member::Missing => None,
        Member::Present(n) => Some(n),
        Member::Mistyped => return None,
    };
    Some(UsageBody { code, error_type, plan_type, resets_at })
}

} // verus!

verus! {

pub const INVALID_PROMPT_ERROR_CODE: &'static str = "invalid_prompt";
pub const INVALID_PROMPT_FALLBACK_MESSAGE: &'static str = "Invalid request.";
pub const CYBER_POLICY_ERROR_CODE: &'static str = "cyber_policy";
pub const CYBER_POLICY_FALLBACK_MESSAGE: &'static str =
    "This request has been flagged for possible cybersecurity risk.";
pub const BIO_POLICY_ERROR_CODE: &'static str = "bio_policy";
pub const BIO_POLICY_FALLBACK_MESSAGE: &'static str =
    "This content was flagged for possible biological risk.";
pub const MISALIGNMENT_POLICY_VIOLATION_ERROR_CODE: &'static str = "misalignment_policy_violation";
pub const MISALIGNMENT_POLICY_VIOLATION_FALLBACK_MESSAGE: &'static str =
    "This request was blocked due to a misalignment policy violation.";
pub const INVALID_IMAGE_MESSAGE: &'static str =
    "The image data you provided does not represent a valid image";

/// The error's `message` when it is a string that is not blank, else `fallback`.
pub open spec fn message_or(error: Option<JsonView>, fallback: Seq<char>) -> Seq<char> {
    match jstr_opt(jget_opt(error, "message"@)) {
        Some(m) => if seq_is_blank(m) {
            fallback
        } else {
            m
        },
        None => fallback,
    }
}

/// Error codes of a 429 that mean the quota or spend limit is exhausted.
pub open spec fn is_quota_code(code: Option<Seq<char>>) -> bool {
    ||| code == Some("insufficient_quota"@)
    ||| code == Some("credit_balance_exhausted"@)
    ||| code == Some("organization_spend_limit_exceeded"@)
    ||| code == Some("project_spend_limit_exceeded"@)
    ||| code == Some("organization_usage_limit_exceeded"@)
}

/// The mapping of a 429 response.
pub open spec fn spec_map_too_many_requests(headers: Option<HeaderList>, body: Seq<char>) -> KodexErrView {
    let retry = KodexErrView::RetryLimit { status: 429, request_id: spec_request_tracking_id(headers) };
    match spec_usage_body(body) {
        Some(u) => if u.error_type == Some("usage_limit_reached"@) {
            KodexErrView::UsageLimitReached {
                plan_type: u.plan_type,
                resets_at: match u.resets_at {
                    Some(s) => if chrono_timestamp_in_range(s) {
                        Some(s)
                    } else {
                        None
                    },
                    None => None,
                },
                rate_limits: spec_rate_limit_snapshot(headers, hdr(headers, ACTIVE_LIMIT_HEADER@)),
                rate_limit_reached_type: spec_reached_type(headers),
            }
        } else if u.error_type == Some("usage_not_included"@) {
            KodexErrView::UsageNotIncluded
        } else if u.error_type == Some("insufficient_quota"@) || is_quota_code(u.code) {
            KodexErrView::QuotaExceeded
        } else {
            retry
        },
        None => retry,
    }
}

/// The text of an optional response body (empty when there is none).
pub open spec fn body_text_of(body: Option<String>) -> Seq<char> {
    match body {
        Some(b) => b@,
        None => Seq::empty(),
    }
}

/// The mapping of an HTTP failure with the given status, URL, headers and body.
pub open spec fn spec_map_http(status: u16, url: Option<String>, headers: Option<HeaderList>, body: Option<String>) -> KodexErrView {
    let text = body_text_of(body);
    let error = jget_opt(serde_json_from_str(text), "error"@);
    let code = jstr_opt(jget_opt(error, "code"@));
    if status == 503 && code == Some("server_is_overloaded"@) {
        KodexErrView::ServerOverloaded
    } else if status == 503 && code == Some("slow_down"@) {
        KodexErrView::RateLimitExceeded {
            message: match jstr_opt(jget_opt(error, "message"@)) {
                Some(m) => m,
                None => Seq::empty(),
            },
            retry_delay: None,
        }
    } else if (status == 400 || status == 403) && code == Some(MISALIGNMENT_POLICY_VIOLATION_ERROR_CODE@) {
        KodexErrView::MisalignmentPolicyViolation {
            message: message_or(error, MISALIGNMENT_POLICY_VIOLATION_FALLBACK_MESSAGE@),
            misalignment: spec_misalignment(jget_opt(error, "misalignment"@)),
        }
    } else if status == 400 {
        if code == Some(BIO_POLICY_ERROR_CODE@) {
            KodexErrView::BioPolicy { message: message_or(error, BIO_POLICY_FALLBACK_MESSAGE@) }
        } else if code == Some(INVALID_PROMPT_ERROR_CODE@) {
            KodexErrView::InvalidPrompt { message: message_or(error, INVALID_PROMPT_FALLBACK_MESSAGE@) }
        } else if code == Some(CYBER_POLICY_ERROR_CODE@) {
            KodexErrView::CyberPolicy { message: message_or(error, CYBER_POLICY_FALLBACK_MESSAGE@) }
        } else if seq_contains(text, INVALID_IMAGE_MESSAGE@) {
            KodexErrView::InvalidImageRequest
        } else {
            KodexErrView::InvalidRequest(text)
        }
    } else if status == 500 {
        KodexErrView::InternalServerError
    } else if status == 429 {
        spec_map_too_many_requests(headers, text)
    } else {
        KodexErrView::UnexpectedStatus(UnexpectedView {
            status,
            body: text,
            user_message: spec_user_message(status, text),
            url: ov(url),
            cf_ray: hdr(headers, CF_RAY_HEADER@),
            request_id: spec_request_id(headers),
            identity_authorization_error: hdr(headers, X_OPENAI_AUTHORIZATION_ERROR_HEADER@),
            identity_error_code: spec_x_error_json_code(headers),
        })
    }
}

fn opt_is(o: &Option<String>, lit: &str) -> (r: bool)
    ensures
        r == (ov(*o) == Some(lit@)),
{
    match o {
        Some(s) => crate::text::str_eq(s.as_str(), lit),
        None => false,
    }
}

fn str_opt_is(o: Option<&str>, lit: &str) -> (r: bool)
    ensures
        r == (match o {
            Some(s) => s@ == lit@,
            None => false,
        }),
{
    match o {
        Some(s) => crate::text::str_eq(s, lit),
        None => false,
    }
}

fn message_or_fallback(error: Option<&Json>, fallback: &str) -> (r: String)
    ensures
        r@ == message_or(oj(error), fallback@),
{
    match json_member_str(error, "message") {
        Some(m) => if str_is_blank(m) {
            String::from_str(fallback)
        } else {
            String::from_str(m)
        },
        None => String::from_str(fallback),
    }
}

fn map_too_many_requests(headers: &Option<HeaderList>, body: &str) -> (r: KodexErr)
    ensures
        r.view() == spec_map_too_many_requests(*headers, body@),
{
    match usage_body(body) {
        Some(u) => {
            if opt_is(&u.error_type, "usage_limit_reached") {
                let resets_at = match u.resets_at {
                    Some(s) => utc_timestamp(s),
                    None => None,
                };
                let limit_id = header_of(headers, ACTIVE_LIMIT_HEADER);
                let rate_limit_reached_type = parse_rate_limit_reached_type(headers);
                let rate_limits = match &limit_id {
                    Some(id) => parse_rate_limit_for_limit(headers, Some(id.as_str())),
                    None => parse_rate_limit_for_limit(headers, None),
                };
                return KodexErr::UsageLimitReached(UsageLimitReachedError {
                    plan_type: u.plan_type,
                    resets_at,
                    rate_limits,
                    rate_limit_reached_type,
                });
            } else if opt_is(&u.error_type, "usage_not_included") {
                return KodexErr::UsageNotIncluded;
            } else if opt_is(&u.error_type, "insufficient_quota") || opt_is(&u.code, "insufficient_quota")
                || opt_is(&u.code, "credit_balance_exhausted") || opt_is(&u.code, "organization_spend_limit_exceeded")
                || opt_is(&u.code, "project_spend_limit_exceeded") || opt_is(&u.code, "organization_usage_limit_exceeded") {
                return KodexErr::QuotaExceeded;
            }
        },
        None => {},
    }
    KodexErr::RetryLimit(RetryLimitReachedError { status: 429, request_id: extract_request_tracking_id(headers) })
}

/// Maps an HTTP failure by status and body, as described by [`spec_map_http`].
pub fn map_http_error(status: u16, url: Option<String>, headers: Option<HeaderList>, body: Option<String>) -> (r: KodexErr)
    requires
        100 <= status <= 999,
    ensures
        r.view() == spec_map_http(status, url, headers, body),
{
    let ghost text = body_text_of(body);
    let body_text: String = match body {
        Some(b) => b,
        None => String::new(),
    };
    assert(body_text@ == text);
    let parsed = parse_json(body_text.as_str());
    let error = match &parsed {
        Some(p) => json_member(Some(p), "error"),
        None => None,
    };
    assert(oj(error) == jget_opt(serde_json_from_str(text), "error"@));
    let code = json_member_str(error, "code");
    if status == 503 && str_opt_is(code, "server_is_overloaded") {
        return KodexErr::ServerOverloaded;
    }
    if status == 503 && str_opt_is(code, "slow_down") {
        let message = match json_member_str(error, "message") {
            Some(m) => String::from_str(m),
            None => String::new(),
        };
        return KodexErr::RateLimitExceeded { message, retry_delay: None };
    }
    if (status == 400 || status == 403) && str_opt_is(code, MISALIGNMENT_POLICY_VIOLATION_ERROR_CODE) {
        let message = message_or_fallback(error, MISALIGNMENT_POLICY_VIOLATION_FALLBACK_MESSAGE);
        let misalignment = misalignment_details(json_member(error, "misalignment"));
        return KodexErr::MisalignmentPolicyViolation { message, misalignment };
    }
    if status == 400 {
        if str_opt_is(code, BIO_POLICY_ERROR_CODE) {
            KodexErr::BioPolicy { message: message_or_fallback(error, BIO_POLICY_FALLBACK_MESSAGE) }
        } else if str_opt_is(code, INVALID_PROMPT_ERROR_CODE) {
            KodexErr::InvalidPrompt { message: message_or_fallback(error, INVALID_PROMPT_FALLBACK_MESSAGE) }
        } else if str_opt_is(code, CYBER_POLICY_ERROR_CODE) {
            KodexErr::CyberPolicy { message: message_or_fallback(error, CYBER_POLICY_FALLBACK_MESSAGE) }
        } else if str_contains(body_text.as_str(), INVALID_IMAGE_MESSAGE) {
            KodexErr::InvalidImageRequest
        } else {
            KodexErr::InvalidRequest(body_text)
        }
    } else if status == 500 {
        KodexErr::InternalServerError
    } else if status == 429 {
        map_too_many_requests(&headers, body_text.as_str())
    } else {
        let user_message = api_error_user_message(status, body_text.as_str());
        let cf_ray = header_of(&headers, CF_RAY_HEADER);
        let request_id = extract_request_id(&headers);
        let identity_authorization_error = header_of(&headers, X_OPENAI_AUTHORIZATION_ERROR_HEADER);
        let identity_error_code = extract_x_error_json_code(&headers);
        KodexErr::UnexpectedStatus(UnexpectedResponseError {
            status,
            user_message,
            body: body_text,
            url,
            cf_ray,
            request_id,
            identity_authorization_error,
            identity_error_code,
        })
    }
}

} // verus!

verus! {

/// The statuses an API error carries are valid HTTP status codes (100..=999), as
/// `http::StatusCode` guarantees, and its header names are lowercase, as
/// `http::HeaderMap` stores them.
pub open spec fn api_error_well_formed(err: ApiError) -> bool {
    match err {
        ApiError::Api { status, .. } => 100 <= status <= 999,
        ApiError::Transport(TransportError::Http { status, headers, .. }) => {
            &&& 100 <= status <= 999
            &&& headers matches Some(h) ==> h.well_formed()
        },
        _ => true,
    }
}

/// The runtime error that an API error maps to.
pub open spec fn spec_map_api_error(err: ApiError) -> KodexErrView {
    match err {
        ApiError::ContextWindowExceeded => KodexErrView::ContextWindowExceeded,
        ApiError::QuotaExceeded => KodexErrView::QuotaExceeded,
        ApiError::UsageNotIncluded => KodexErrView::UsageNotIncluded,
        ApiError::Retryable { message, delay } => KodexErrView::Stream { message: message@, retry_delay: delay },
        ApiError::RateLimitExceeded { message, delay } => KodexErrView::RateLimitExceeded {
            message: message@,
            retry_delay: delay,
        },
        ApiError::Stream(m) => KodexErrView::Stream { message: m@, retry_delay: None },
        ApiError::ServerOverloaded => KodexErrView::ServerOverloaded,
        ApiError::Api { status, message } => KodexErrView::UnexpectedStatus(UnexpectedView {
            status,
            body: message@,
            user_message: spec_user_message(status, message@),
            url: None,
            cf_ray: None,
            request_id: None,
            identity_authorization_error: None,
            identity_error_code: None,
        }),
        ApiError::InvalidRequest { message } => KodexErrView::InvalidRequest(message@),
        ApiError::InvalidPrompt { message } => KodexErrView::InvalidPrompt { message: message@ },
        ApiError::CyberPolicy { message } => KodexErrView::CyberPolicy { message: message@ },
        ApiError::BioPolicy { message } => KodexErrView::BioPolicy { message: message@ },
        ApiError::MisalignmentPolicyViolation { message, misalignment } => KodexErrView::MisalignmentPolicyViolation {
            message: message@,
            misalignment: omv(misalignment),
        },
        ApiError::Transport(t) => match t {
            TransportError::Http { status, url, headers, body } => spec_map_http(status, url, headers, body),
            TransportError::RetryLimit => KodexErrView::RetryLimit { status: 500, request_id: None },
            TransportError::Timeout => KodexErrView::RequestTimeout,
            TransportError::Policy(denied) => KodexErrView::Fatal(denied@),
            TransportError::Connection(source) => KodexErrView::ConnectionFailed(source@),
            TransportError::Network(m) => KodexErrView::Stream { message: m@, retry_delay: None },
            TransportError::Build(m) => KodexErrView::Stream { message: m@, retry_delay: None },
            TransportError::ResponseTooLarge { message } => KodexErrView::InvalidRequest(message@),
        },
        ApiError::RateLimit(m) => KodexErrView::Stream { message: m@, retry_delay: None },
    }
}

/// Maps an API client error onto the runtime's error kinds.
pub fn map_api_error(err: ApiError) -> (r: KodexErr)
    requires
        api_error_well_formed(err),
    ensures
        r.view() == spec_map_api_error(err),
{
    match err {
        ApiError::ContextWindowExceeded => KodexErr::ContextWindowExceeded,
        ApiError::QuotaExceeded => KodexErr::QuotaExceeded,
        ApiError::UsageNotIncluded => KodexErr::UsageNotIncluded,
        ApiError::Retryable { message, delay } => KodexErr::Stream { message, retry_delay: delay },
        ApiError::RateLimitExceeded { message, delay } => KodexErr::RateLimitExceeded { message, retry_delay: delay },
        ApiError::Stream(msg) => KodexErr::Stream { message: msg, retry_delay: None },
        ApiError::ServerOverloaded => KodexErr::ServerOverloaded,
        ApiError::Api { status, message } => {
            let user_message = api_error_user_message(status, message.as_str());
            KodexErr::UnexpectedStatus(UnexpectedResponseError {
                status,
                body: message,
                user_message,
                url: None,
                cf_ray: None,
                request_id: None,
                identity_authorization_error: None,
                identity_error_code: None,
            })
        },
        ApiError::InvalidRequest { message } => KodexErr::InvalidRequest(message),
        ApiError::InvalidPrompt { message } => KodexErr::InvalidPrompt { message },
        ApiError::CyberPolicy { message } => KodexErr::CyberPolicy { message },
        ApiError::BioPolicy { message } => KodexErr::BioPolicy { message },
        ApiError::MisalignmentPolicyViolation { message, misalignment } => KodexErr::MisalignmentPolicyViolation {
            message,
            misalignment,
        },
        ApiError::Transport(transport) => match transport {
            TransportError::Http { status, url, headers, body } => map_http_error(status, url, headers, body),
            TransportError::RetryLimit => KodexErr::RetryLimit(RetryLimitReachedError { status: 500, request_id: None }),
            TransportError::Timeout => KodexErr::RequestTimeout,
            TransportError::Policy(denied) => KodexErr::Fatal(denied),
            TransportError::Connection(source) => KodexErr::ConnectionFailed(source),
            TransportError::Network(msg) => KodexErr::Stream { message: msg, retry_delay: None },
            TransportError::Build(msg) => KodexErr::Stream { message: msg, retry_delay: None },
            TransportError::ResponseTooLarge { message } => KodexErr::InvalidRequest(message),
        },
        ApiError::RateLimit(msg) => KodexErr::Stream { message: msg, retry_delay: None },
    }
}

} // verus!

verus! {

/// A request is tracked by its request id whenever it has one; the Cloudflare ray id
/// is only the fallback.
pub proof fn law_tracking_id_prefers_request_id(headers: Option<HeaderList>)
    ensures
        spec_request_id(headers) is Some ==> spec_request_tracking_id(headers) == spec_request_id(headers),
        spec_request_id(headers) is None ==> spec_request_tracking_id(headers) == hdr(headers, CF_RAY_HEADER@),
{
}

/// A misalignment-policy violation is recognized the same way on 400 and on 403.
pub proof fn law_misalignment_same_on_400_and_403(url: Option<String>, headers: Option<HeaderList>, body: Option<String>)
    requires
        jstr_opt(jget_opt(jget_opt(serde_json_from_str(body_text_of(body)), "error"@), "code"@))
            == Some(MISALIGNMENT_POLICY_VIOLATION_ERROR_CODE@),
    ensures
        spec_map_http(400, url, headers, body) == spec_map_http(403, url, headers, body),
        spec_map_http(400, url, headers, body) is MisalignmentPolicyViolation,
{
}

/// A body that is not JSON is classified by its status alone: a 400 is an invalid
/// request (or invalid image), a 500 an internal error, a 429 the retry limit, and any
/// other status (503 included) an unexpected status that keeps the body.
pub proof fn law_non_json_bodies_map_by_status(status: u16, url: Option<String>, headers: Option<HeaderList>, body: Option<String>)
    requires
        serde_json_from_str(body_text_of(body)) is None,
    ensures
        status == 400 ==> (spec_map_http(status, url, headers, body) is InvalidRequest
            || spec_map_http(status, url, headers, body) is InvalidImageRequest),
        status == 500 ==> spec_map_http(status, url, headers, body) is InternalServerError,
        status == 429 ==> spec_map_http(status, url, headers, body) == (KodexErrView::RetryLimit {
            status: 429,
            request_id: spec_request_tracking_id(headers),
        }),
        (status != 400 && status != 500 && status != 429) ==> spec_map_http(status, url, headers, body) is UnexpectedStatus,
{
}

} // verus!

verus! {

/// A usage-limit rejection carries its reached-limit kind twice, and both agree: the
/// snapshot of the limit holds the same kind as the error.
pub proof fn law_reached_type_copied_to_snapshot(headers: Option<HeaderList>, body: Seq<char>)
    ensures
        spec_map_too_many_requests(headers, body) matches KodexErrView::UsageLimitReached { rate_limits, rate_limit_reached_type, .. }
            ==> (rate_limits matches Some(s) ==> s.rate_limit_reached_type == rate_limit_reached_type),
{
}

/// The display name of the limit that was hit is read only from that limit's own
/// header: when it is absent, the snapshot has no name, whatever the limit's id.
pub proof fn law_limit_name_never_falls_back_to_limit_id(h: HeaderList, limit_id: Option<Seq<char>>)
    requires
        header_lookup(h.entries@, limit_name_header(match limit_id {
            Some(i) => i,
            None => DEFAULT_LIMIT_ID@,
        })) is None,
    ensures
        spec_rate_limit_snapshot(Some(h), limit_id) matches Some(s) && s.limit_name is None,
{
}

} // verus!

verus! {

/// A usage-limit rejection keeps what the body says: on a 429 whose body parses as a
/// usage error of type `usage_limit_reached`, the error is a usage limit whose plan type
/// is the body's `error.plan_type` string (none when the member is absent or null), and
/// whose reset time is the body's `error.resets_at` whenever chrono can represent it.
pub proof fn law_usage_limit_keeps_body_plan_and_reset(
    url: Option<String>,
    headers: Option<HeaderList>,
    body: String,
    error: Seq<(Seq<char>, JsonView)>,
)
    requires
        jget_opt(serde_json_from_str(body@), "error"@) == Some(JsonView::Object(error)),
        jget(JsonView::Object(error), "type"@) == Some(JsonView::Str("usage_limit_reached"@)),
        spec_usage_body(body@) is Some,
    ensures
        spec_map_http(429, url, headers, Some(body)) matches KodexErrView::UsageLimitReached { plan_type, resets_at, .. } && {
            &&& (jget(JsonView::Object(error), "plan_type"@) matches Some(JsonView::Str(p)) ==> plan_type == Some(p))
            &&& (jget(JsonView::Object(error), "plan_type"@) is None ==> plan_type is None)
            &&& (jget(JsonView::Object(error), "resets_at"@) matches Some(JsonView::Number(Some(s)))
                    ==> (resets_at == Some(s) <==> CHRONO_MIN_TIMESTAMP <= s <= CHRONO_MAX_TIMESTAMP))
        },
{
}

} // verus!
