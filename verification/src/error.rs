//! The runtime's error kinds, as plain values, with their mathematical views.

use vstd::prelude::*;
use crate::text::{ov};
use crate::rate_limits::{RateLimitSnapshot, RateLimitReachedType, SnapshotView, osnap};

verus! {

/// Guidance attached to a misalignment-policy rejection.
pub struct MisalignmentSteer {
    pub message: String,
}

/// Details of a misalignment-policy rejection, as the service reports them.
pub struct MisalignmentErrorDetails {
    pub error_type: Option<String>,
    pub detailed_explanation: Option<String>,
    pub steer: Option<MisalignmentSteer>,
}

/// A response with a status the runtime does not handle specially.
pub struct UnexpectedResponseError {
    pub status: u16,
    pub body: String,
    pub user_message: Option<String>,
    pub url: Option<String>,
    pub cf_ray: Option<String>,
    pub request_id: Option<String>,
    pub identity_authorization_error: Option<String>,
    pub identity_error_code: Option<String>,
}

/// A 429 whose body reports that the account's usage limit was reached, with the
/// snapshot of the limit that was hit.
pub struct UsageLimitReachedError {
    pub plan_type: Option<String>,
    pub resets_at: Option<i64>,
    pub rate_limits: Option<RateLimitSnapshot>,
    pub rate_limit_reached_type: Option<RateLimitReachedType>,
}

/// Retries were exhausted on the given status.
pub struct RetryLimitReachedError {
    pub status: u16,
    pub request_id: Option<String>,
}

/// The runtime's error kinds that API errors map onto.
pub enum KodexErr {
    ContextWindowExceeded,
    QuotaExceeded,
    UsageNotIncluded,
    Stream { message: String, retry_delay: Option<std::time::Duration> },
    RateLimitExceeded { message: String, retry_delay: Option<std::time::Duration> },
    ServerOverloaded,
    UnexpectedStatus(UnexpectedResponseError),
    InvalidRequest(String),
    InvalidPrompt { message: String },
    CyberPolicy { message: String },
    BioPolicy { message: String },
    MisalignmentPolicyViolation { message: String, misalignment: Option<MisalignmentErrorDetails> },
    InvalidImageRequest,
    InternalServerError,
    UsageLimitReached(UsageLimitReachedError),
    RetryLimit(RetryLimitReachedError),
    RequestTimeout,
    Fatal(String),
    ConnectionFailed(String),
    UnsupportedOperation(String),
    ThreadNotFound(String),
    InternalAgentDied,
}

pub struct MisalignmentView {
    pub error_type: Option<Seq<char>>,
    pub detailed_explanation: Option<Seq<char>>,
    pub steer: Option<Seq<char>>,
}

pub open spec fn misalignment_view(m: MisalignmentErrorDetails) -> MisalignmentView {
    MisalignmentView {
        error_type: ov(m.error_type),
        detailed_explanation: ov(m.detailed_explanation),
        steer: match m.steer {
            Some(s) => Some(s.message@),
            None => None,
        },
    }
}

pub open spec fn omv(m: Option<MisalignmentErrorDetails>) -> Option<MisalignmentView> {
    match m {
        Some(m) => Some(misalignment_view(m)),
        None => None,
    }
}

pub struct UnexpectedView {
    pub status: u16,
    pub body: Seq<char>,
    pub user_message: Option<Seq<char>>,
    pub url: Option<Seq<char>>,
    pub cf_ray: Option<Seq<char>>,
    pub request_id: Option<Seq<char>>,
    pub identity_authorization_error: Option<Seq<char>>,
    pub identity_error_code: Option<Seq<char>>,
}

pub enum KodexErrView {
    ContextWindowExceeded,
    QuotaExceeded,
    UsageNotIncluded,
    Stream { message: Seq<char>, retry_delay: Option<std::time::Duration> },
    RateLimitExceeded { message: Seq<char>, retry_delay: Option<std::time::Duration> },
    ServerOverloaded,
    UnexpectedStatus(UnexpectedView),
    InvalidRequest(Seq<char>),
    InvalidPrompt { message: Seq<char> },
    CyberPolicy { message: Seq<char> },
    BioPolicy { message: Seq<char> },
    MisalignmentPolicyViolation { message: Seq<char>, misalignment: Option<MisalignmentView> },
    InvalidImageRequest,
    InternalServerError,
    UsageLimitReached {
        plan_type: Option<Seq<char>>,
        resets_at: Option<i64>,
        rate_limits: Option<SnapshotView>,
        rate_limit_reached_type: Option<RateLimitReachedType>,
    },
    RetryLimit { status: u16, request_id: Option<Seq<char>> },
    RequestTimeout,
    Fatal(Seq<char>),
    ConnectionFailed(Seq<char>),
    UnsupportedOperation(Seq<char>),
    ThreadNotFound(Seq<char>),
    InternalAgentDied,
}

impl KodexErr {
    pub open spec fn view(self) -> KodexErrView {
        match self {
            KodexErr::ContextWindowExceeded => KodexErrView::ContextWindowExceeded,
            KodexErr::QuotaExceeded => KodexErrView::QuotaExceeded,
            KodexErr::UsageNotIncluded => KodexErrView::UsageNotIncluded,
            KodexErr::Stream { message, retry_delay } => KodexErrView::Stream { message: message@, retry_delay },
            KodexErr::RateLimitExceeded { message, retry_delay } => KodexErrView::RateLimitExceeded {
                message: message@,
                retry_delay,
            },
            KodexErr::ServerOverloaded => KodexErrView::ServerOverloaded,
            KodexErr::UnexpectedStatus(e) => KodexErrView::UnexpectedStatus(UnexpectedView {
                status: e.status,
                body: e.body@,
                user_message: ov(e.user_message),
                url: ov(e.url),
                cf_ray: ov(e.cf_ray),
                request_id: ov(e.request_id),
                identity_authorization_error: ov(e.identity_authorization_error),
                identity_error_code: ov(e.identity_error_code),
            }),
            KodexErr::InvalidRequest(m) => KodexErrView::InvalidRequest(m@),
            KodexErr::InvalidPrompt { message } => KodexErrView::InvalidPrompt { message: message@ },
            KodexErr::CyberPolicy { message } => KodexErrView::CyberPolicy { message: message@ },
            KodexErr::BioPolicy { message } => KodexErrView::BioPolicy { message: message@ },
            KodexErr::MisalignmentPolicyViolation { message, misalignment } => KodexErrView::MisalignmentPolicyViolation {
                message: message@,
                misalignment: omv(misalignment),
            },
            KodexErr::InvalidImageRequest => KodexErrView::InvalidImageRequest,
            KodexErr::InternalServerError => KodexErrView::InternalServerError,
            KodexErr::UsageLimitReached(u) => KodexErrView::UsageLimitReached {
                plan_type: ov(u.plan_type),
                resets_at: u.resets_at,
                rate_limits: osnap(u.rate_limits),
                rate_limit_reached_type: u.rate_limit_reached_type,
            },
            KodexErr::RetryLimit(r) => KodexErrView::RetryLimit { status: r.status, request_id: ov(r.request_id) },
            KodexErr::RequestTimeout => KodexErrView::RequestTimeout,
            KodexErr::Fatal(m) => KodexErrView::Fatal(m@),
            KodexErr::ConnectionFailed(m) => KodexErrView::ConnectionFailed(m@),
            KodexErr::UnsupportedOperation(m) => KodexErrView::UnsupportedOperation(m@),
            KodexErr::ThreadNotFound(m) => KodexErrView::ThreadNotFound(m@),
            KodexErr::InternalAgentDied => KodexErrView::InternalAgentDied,
        }
    }
}

} // verus!
