use base64::Engine;
use kodex::error::{KodexErr, MisalignmentErrorDetails};
use kodex::api_bridge::{
    map_api_error, ApiError, TransportError, ACTIVE_LIMIT_HEADER,
    CF_RAY_HEADER, REQUEST_ID_HEADER, X_ERROR_JSON_HEADER, X_OPENAI_AUTHORIZATION_ERROR_HEADER,
};
use kodex::headers::HeaderList;
use kodex::rate_limits::RateLimitReachedType;
use std::time::Duration;

fn headers(entries: &[(&str, &[u8])]) -> HeaderList {
    HeaderList {
        entries: entries
            .iter()
            .map(|(name, value)| (name.to_string(), value.to_vec()))
            .collect(),
    }
}

fn http(status: u16, url: Option<&str>, headers: Option<HeaderList>, body: &str) -> KodexErr {
    map_api_error(ApiError::Transport(TransportError::Http {
        status,
        url: url.map(str::to_string),
        headers,
        body: Some(body.to_string()),
    }))
}

#[test]
fn map_api_error_maps_server_overloaded() {
    let err = map_api_error(ApiError::ServerOverloaded);
    assert!(matches!(err, KodexErr::ServerOverloaded));
}

#[test]
fn map_api_error_preserves_retry_delay() {
    let retry_delay = Duration::from_secs(17);
    match map_api_error(ApiError::Retryable { message: "retry later".to_string(), delay: Some(retry_delay) }) {
        KodexErr::Stream { message, retry_delay: delay } => {
            assert_eq!(message, "retry later");
            assert_eq!(delay, Some(retry_delay));
        }
        _ => panic!("expected a stream error"),
    }
    match map_api_error(ApiError::RateLimitExceeded { message: "retry later".to_string(), delay: Some(retry_delay) }) {
        KodexErr::RateLimitExceeded { message, retry_delay: delay } => {
            assert_eq!(message, "retry later");
            assert_eq!(delay, Some(retry_delay));
        }
        _ => panic!("expected a rate-limit error"),
    }
}

#[test]
fn map_api_error_distinguishes_capacity_from_slow_down() {
    for code in ["server_is_overloaded", "slow_down", "unknown_error"] {
        let body = format!(r#"{{"error":{{"code":"{code}","message":"retry later"}}}}"#);
        let err = http(503, None, None, &body);
        match code {
            "server_is_overloaded" => assert!(matches!(err, KodexErr::ServerOverloaded)),
            "slow_down" => match err {
                KodexErr::RateLimitExceeded { message, retry_delay } => {
                    assert_eq!(message, "retry later");
                    assert_eq!(retry_delay, None);
                }
                _ => panic!("expected a rate-limit error"),
            },
            _ => match err {
                KodexErr::UnexpectedStatus(e) => assert_eq!(e.status, 503),
                _ => panic!("expected an unexpected status"),
            },
        }
    }
}

#[test]
fn map_api_error_maps_cloudflare_blocked_response_to_user_message() {
    let err = http(
        403,
        Some("http://example.com/blocked"),
        Some(headers(&[(CF_RAY_HEADER, b"ray-id")])),
        "<html><body>Cloudflare error: Sorry, you have been blocked</body></html>",
    );
    let KodexErr::UnexpectedStatus(err) = err else {
        panic!("expected an unexpected status");
    };
    assert_eq!(
        err.user_message.as_deref(),
        Some(
            "Access blocked by Cloudflare. This usually happens when connecting from a restricted region (status 403 Forbidden)"
        )
    );
    assert_eq!(err.url.as_deref(), Some("http://example.com/blocked"));
    assert_eq!(err.cf_ray.as_deref(), Some("ray-id"));
}

#[test]
fn map_api_error_maps_cyber_policy_from_400_body() {
    let body = r#"{"error":{"message":"This request has been flagged for potentially high-risk cyber activity.","type":"invalid_request","param":null,"code":"cyber_policy"}}"#;
    let err = http(400, Some("http://example.com/v1/responses"), None, body);
    let KodexErr::CyberPolicy { message } = err else {
        panic!("expected a cyber policy error");
    };
    assert_eq!(message, "This request has been flagged for potentially high-risk cyber activity.");
}

#[test]
fn map_api_error_maps_wrapped_websocket_cyber_policy_from_400_body() {
    let body = r#"{"type":"error","status":400,"error":{"message":"This websocket request was flagged.","type":"invalid_request","code":"cyber_policy"}}"#;
    let err = http(400, Some("ws://example.com/v1/responses"), None, body);
    let KodexErr::CyberPolicy { message } = err else {
        panic!("expected a cyber policy error");
    };
    assert_eq!(message, "This websocket request was flagged.");
}

#[test]
fn map_api_error_uses_cyber_policy_fallback_for_missing_message() {
    let err = http(400, Some("http://example.com/v1/responses"), None, r#"{"error":{"code":"cyber_policy"}}"#);
    let KodexErr::CyberPolicy { message } = err else {
        panic!("expected a cyber policy error");
    };
    assert_eq!(message, "This request has been flagged for possible cybersecurity risk.");
}

#[test]
fn map_api_error_preserves_typed_errors() {
    let message = "This request was rejected.";
    match map_api_error(ApiError::BioPolicy { message: message.to_string() }) {
        KodexErr::BioPolicy { message: m } => assert_eq!(m, message),
        _ => panic!("expected a bio policy error"),
    }
    match map_api_error(ApiError::InvalidPrompt { message: message.to_string() }) {
        KodexErr::InvalidPrompt { message: m } => assert_eq!(m, message),
        _ => panic!("expected an invalid prompt error"),
    }
}

#[test]
fn map_api_error_maps_http_and_wrapped_websocket_typed_errors() {
    for (code, fallback) in [
        ("bio_policy", "This content was flagged for possible biological risk."),
        ("invalid_prompt", "Invalid request."),
    ] {
        for wrapped in [false, true] {
            for (message, expected) in [
                (Some("This request was rejected."), "This request was rejected."),
                (None, fallback),
                (Some(""), fallback),
                (Some("  "), fallback),
            ] {
                let error = match message {
                    Some(m) => format!(r#"{{"code":"{code}","message":"{m}"}}"#),
                    None => format!(r#"{{"code":"{code}"}}"#),
                };
                let body = if wrapped {
                    format!(r#"{{"type":"error","status":400,"error":{error}}}"#)
                } else {
                    format!(r#"{{"error":{error}}}"#)
                };
                let got = match http(400, None, None, &body) {
                    KodexErr::BioPolicy { message } if code == "bio_policy" => message,
                    KodexErr::InvalidPrompt { message } if code == "invalid_prompt" => message,
                    _ => panic!("expected a typed error for {code}"),
                };
                assert_eq!(got, expected);
            }
        }
    }
}

fn assert_misalignment_policy_violation_from_http_body(status: u16) {
    let body = r#"{"error":{"message":"This request violated the misalignment policy.","type":"invalid_request_error","code":"misalignment_policy_violation"}}"#;
    let err = http(status, Some("http://example.com/v1/responses"), None, body);
    let KodexErr::MisalignmentPolicyViolation { message, misalignment } = err else {
        panic!("expected a misalignment policy violation");
    };
    assert_eq!(message, "This request violated the misalignment policy.");
    assert!(misalignment.is_none());
}

#[test]
fn map_api_error_maps_misalignment_policy_violation_from_400_body() {
    assert_misalignment_policy_violation_from_http_body(400);
}

#[test]
fn map_api_error_maps_misalignment_policy_violation_from_403_body() {
    assert_misalignment_policy_violation_from_http_body(403);
}

fn assert_details(misalignment: Option<MisalignmentErrorDetails>, error_type: &str) {
    let details = misalignment.expect("misalignment details");
    assert_eq!(details.error_type.as_deref(), Some(error_type));
    assert_eq!(details.detailed_explanation.as_deref(), Some("The agent attempted an external transfer."));
    assert_eq!(
        details.steer.map(|s| s.message).as_deref(),
        Some("Do not transfer the user's files.")
    );
}

#[test]
fn map_api_error_preserves_misalignment_details_from_403_body() {
    let body = r#"{"error":{"message":"This request violated the misalignment policy.","code":"misalignment_policy_violation","misalignment":{"error_type":"unauthorized_data_transfer","detailed_explanation":"The agent attempted an external transfer.","steer":{"message":"Do not transfer the user's files."}}}}"#;
    let err = http(403, Some("http://example.com/v1/responses"), None, body);
    let KodexErr::MisalignmentPolicyViolation { message, misalignment } = err else {
        panic!("expected a misalignment policy violation");
    };
    assert_eq!(message, "This request violated the misalignment policy.");
    assert_details(misalignment, "unauthorized_data_transfer");
}

#[test]
fn map_api_error_preserves_misalignment_details_from_wrapped_websocket_error() {
    let body = r#"{"type":"error","status":403,"error":{"message":"This websocket request violated the misalignment policy.","code":"misalignment_policy_violation","misalignment":{"error_type":"future_safety_category","detailed_explanation":"The agent attempted an external transfer.","steer":{"message":"Do not transfer the user's files."}}}}"#;
    let err = http(403, Some("ws://example.com/v1/responses"), None, body);
    let KodexErr::MisalignmentPolicyViolation { message, misalignment } = err else {
        panic!("expected a misalignment policy violation");
    };
    assert_eq!(message, "This websocket request violated the misalignment policy.");
    assert_details(misalignment, "future_safety_category");
}

#[test]
fn map_api_error_keeps_other_400_errors_generic() {
    for code in ["invalid_request", "some_other_policy"] {
        let body = format!(r#"{{"error":{{"message":"Some other bad request.","code":"{code}"}}}}"#);
        let err = http(400, Some("http://example.com/v1/responses"), None, &body);
        let KodexErr::InvalidRequest(message) = err else {
            panic!("expected an invalid request");
        };
        assert_eq!(message, body);
    }
}

#[test]
fn map_api_error_distinguishes_http_quota_errors_from_rate_limits() {
    for (error, rate_limit) in [
        (r#"{"type":"insufficient_quota"}"#, false),
        (r#"{"code":"insufficient_quota"}"#, false),
        (r#"{"code":"credit_balance_exhausted"}"#, false),
        (r#"{"code":"organization_spend_limit_exceeded"}"#, false),
        (r#"{"code":"project_spend_limit_exceeded"}"#, false),
        (r#"{"code":"organization_usage_limit_exceeded"}"#, false),
        (r#"{"type":"rate_limit_error","code":"rate_limit_exceeded"}"#, true),
        (r#"{"type":"rate_limit_error","code":"slow_down"}"#, true),
    ] {
        let err = http(429, None, None, &format!(r#"{{"error":{error}}}"#));
        if rate_limit {
            let KodexErr::RetryLimit(e) = err else {
                panic!("expected a retry limit for {error}");
            };
            assert_eq!(e.status, 429);
        } else {
            assert!(matches!(err, KodexErr::QuotaExceeded), "{error}");
        }
    }
}

#[test]
fn map_api_error_maps_usage_limit_limit_name_header() {
    let h = headers(&[(ACTIVE_LIMIT_HEADER, b"kodex_other"), ("x-kodex-other-limit-name", b"kodex_other")]);
    let body = r#"{"error":{"type":"usage_limit_reached","plan_type":"pro"}}"#;
    let err = http(429, Some("http://example.com/v1/responses"), Some(h), body);
    let KodexErr::UsageLimitReached(usage_limit) = err else {
        panic!("expected a usage limit");
    };
    assert_eq!(
        usage_limit.rate_limits.as_ref().and_then(|snapshot| snapshot.limit_name.as_deref()),
        Some("kodex_other")
    );
}

#[test]
fn map_api_error_does_not_fallback_limit_name_to_limit_id() {
    let h = headers(&[(ACTIVE_LIMIT_HEADER, b"kodex_other")]);
    let body = r#"{"error":{"type":"usage_limit_reached","plan_type":"pro"}}"#;
    let err = http(429, Some("http://example.com/v1/responses"), Some(h), body);
    let KodexErr::UsageLimitReached(usage_limit) = err else {
        panic!("expected a usage limit");
    };
    assert_eq!(
        usage_limit.rate_limits.as_ref().and_then(|snapshot| snapshot.limit_name.as_deref()),
        None
    );
}

#[test]
fn map_api_error_copies_rate_limit_reached_type_to_usage_limit_snapshot() {
    for (active_limit, expected_limit_id) in [(None, "kodex"), (Some("kodex_other"), "kodex_other")] {
        let mut entries: Vec<(&str, &[u8])> = Vec::new();
        if let Some(active_limit) = active_limit {
            entries.push((ACTIVE_LIMIT_HEADER, active_limit.as_bytes()));
        }
        entries.push(("x-kodex-credits-has-credits", b"true"));
        entries.push(("x-kodex-credits-unlimited", b"false"));
        entries.push(("x-kodex-credits-balance", b""));
        entries.push(("x-kodex-rate-limit-reached-type", b"workspace_member_usage_limit_reached"));
        let body = r#"{"error":{"type":"usage_limit_reached","plan_type":"pro"}}"#;
        let err = http(429, Some("http://example.com/v1/responses"), Some(headers(&entries)), body);
        let KodexErr::UsageLimitReached(usage_limit) = err else {
            panic!("expected a usage limit");
        };
        assert_eq!(
            usage_limit.rate_limit_reached_type,
            Some(RateLimitReachedType::WorkspaceMemberUsageLimitReached)
        );
        let snapshot = usage_limit.rate_limits.as_ref().expect("usage limit snapshot");
        assert_eq!(snapshot.limit_id.as_deref(), Some(expected_limit_id));
        assert_eq!(
            snapshot.rate_limit_reached_type,
            Some(RateLimitReachedType::WorkspaceMemberUsageLimitReached)
        );
        assert_eq!(
            snapshot
                .credits
                .as_ref()
                .map(|credits| (credits.has_credits, credits.unlimited, credits.balance.as_deref())),
            Some((true, false, None))
        );
    }
}

#[test]
fn map_api_error_ignores_unparseable_rate_limit_reached_type_headers() {
    let values: [&[u8]; 2] = [b"future_rate_limit_reached_type", &[0xff]];
    for value in values {
        let h = headers(&[("x-kodex-rate-limit-reached-type", value)]);
        let body = r#"{"error":{"type":"usage_limit_reached","plan_type":"pro"}}"#;
        let err = http(429, Some("http://example.com/v1/responses"), Some(h), body);
        let KodexErr::UsageLimitReached(usage_limit) = err else {
            panic!("expected a usage limit");
        };
        assert_eq!(usage_limit.rate_limit_reached_type, None);
    }
}

#[test]
fn usage_limit_snapshot_reads_credit_balance_and_default_limit_name() {
    let h = headers(&[
        ("x-kodex-limit-name", b"Kodex"),
        ("x-kodex-credits-has-credits", b"false"),
        ("x-kodex-credits-unlimited", b"true"),
        ("x-kodex-credits-balance", b"12.5"),
    ]);
    let body = r#"{"error":{"type":"usage_limit_reached"}}"#;
    let KodexErr::UsageLimitReached(usage_limit) = http(429, None, Some(h), body) else {
        panic!("expected a usage limit");
    };
    let snapshot = usage_limit.rate_limits.expect("usage limit snapshot");
    assert_eq!(snapshot.limit_id.as_deref(), Some("kodex"));
    assert_eq!(snapshot.limit_name.as_deref(), Some("Kodex"));
    let credits = snapshot.credits.expect("credits");
    assert_eq!((credits.has_credits, credits.unlimited, credits.balance.as_deref()), (false, true, Some("12.5")));
    assert_eq!(usage_limit.rate_limit_reached_type, None);
}

#[test]
fn usage_limit_without_headers_has_no_snapshot() {
    let body = r#"{"error":{"type":"usage_limit_reached","plan_type":"pro"}}"#;
    let KodexErr::UsageLimitReached(usage_limit) = http(429, None, None, body) else {
        panic!("expected a usage limit");
    };
    assert!(usage_limit.rate_limits.is_none());
    let h = headers(&[("x-kodex-credits-has-credits", b"yes"), ("x-kodex-credits-unlimited", b"false")]);
    let KodexErr::UsageLimitReached(usage_limit) = http(429, None, Some(h), body) else {
        panic!("expected a usage limit");
    };
    assert!(usage_limit.rate_limits.expect("usage limit snapshot").credits.is_none());
}

#[test]
fn map_api_error_extracts_identity_auth_details_from_headers() {
    let x_error_json = base64::engine::general_purpose::STANDARD.encode(r#"{"error":{"code":"token_expired"}}"#);
    let h = headers(&[
        (REQUEST_ID_HEADER, b"req-401"),
        (CF_RAY_HEADER, b"ray-401"),
        (X_OPENAI_AUTHORIZATION_ERROR_HEADER, b"missing_authorization_header"),
        (X_ERROR_JSON_HEADER, x_error_json.as_bytes()),
    ]);
    let err = http(401, Some("https://chatgpt.com/backend-api/kodex/models"), Some(h), r#"{"detail":"Unauthorized"}"#);
    let KodexErr::UnexpectedStatus(err) = err else {
        panic!("expected an unexpected status");
    };
    assert_eq!(err.request_id.as_deref(), Some("req-401"));
    assert_eq!(err.cf_ray.as_deref(), Some("ray-401"));
    assert_eq!(err.identity_authorization_error.as_deref(), Some("missing_authorization_header"));
    assert_eq!(err.identity_error_code.as_deref(), Some("token_expired"));
}

// ---- further cases of the mapping ----

#[test]
fn usage_limit_keeps_reset_time_within_chrono_range() {
    let body = r#"{"error":{"type":"usage_limit_reached","resets_at":1725029869}}"#;
    let KodexErr::UsageLimitReached(u) = http(429, None, None, body) else {
        panic!("expected a usage limit");
    };
    assert_eq!(u.resets_at, Some(1725029869));
    assert_eq!(u.plan_type, None);
    let body = r#"{"error":{"type":"usage_limit_reached","resets_at":9223372036854775807}}"#;
    let KodexErr::UsageLimitReached(u) = http(429, None, None, body) else {
        panic!("expected a usage limit");
    };
    assert_eq!(u.resets_at, None);
}

#[test]
fn usage_limit_reset_time_bounds_are_chrono_date_range() {
    for (secs, kept) in [
        (8_210_266_876_799i64, true),
        (8_210_266_876_800, false),
        (-8_334_601_228_800, true),
        (-8_334_601_228_801, false),
    ] {
        let body = format!(r#"{{"error":{{"type":"usage_limit_reached","resets_at":{secs}}}}}"#);
        let KodexErr::UsageLimitReached(u) = http(429, None, None, &body) else {
            panic!("expected a usage limit");
        };
        assert_eq!(u.resets_at, if kept { Some(secs) } else { None }, "{secs}");
    }
}

#[test]
fn policy_messages_made_of_unicode_white_space_use_the_fallback() {
    let body = "{\"error\":{\"code\":\"bio_policy\",\"message\":\"\u{3000}\\t\u{2003}\u{85}\"}}";
    let KodexErr::BioPolicy { message } = http(400, None, None, body) else {
        panic!("expected a bio policy error");
    };
    assert_eq!(message, "This content was flagged for possible biological risk.");
    // A zero-width space is not white space: the message is kept.
    let body = "{\"error\":{\"code\":\"bio_policy\",\"message\":\"\u{200B}\"}}";
    let KodexErr::BioPolicy { message } = http(400, None, None, body) else {
        panic!("expected a bio policy error");
    };
    assert_eq!(message, "\u{200B}");
}

#[test]
fn usage_not_included_and_mistyped_usage_bodies() {
    assert!(matches!(
        http(429, None, None, r#"{"error":{"type":"usage_not_included"}}"#),
        KodexErr::UsageNotIncluded
    ));
    // A mistyped field makes the body unreadable, so the retry limit is reported with
    // the tracking id (request id first, else the ray id).
    let h = headers(&[(CF_RAY_HEADER, b"ray-1")]);
    let KodexErr::RetryLimit(r) = http(429, None, Some(h), r#"{"error":{"type":"usage_limit_reached","resets_at":"soon"}}"#) else {
        panic!("expected a retry limit");
    };
    assert_eq!(r.request_id.as_deref(), Some("ray-1"));
    let h = headers(&[(CF_RAY_HEADER, b"ray-1"), ("x-oai-request-id", b"oai-1")]);
    let KodexErr::RetryLimit(r) = http(429, None, Some(h), "not json") else {
        panic!("expected a retry limit");
    };
    assert_eq!(r.request_id.as_deref(), Some("oai-1"));
}

#[test]
fn invalid_image_and_server_errors() {
    let err = http(400, None, None, "The image data you provided does not represent a valid image.");
    assert!(matches!(err, KodexErr::InvalidImageRequest));
    assert!(matches!(http(500, None, None, "{}"), KodexErr::InternalServerError));
    let err = map_api_error(ApiError::Transport(TransportError::Http { status: 400, url: None, headers: None, body: None }));
    let KodexErr::InvalidRequest(body) = err else {
        panic!("expected an invalid request");
    };
    assert_eq!(body, "");
}

#[test]
fn header_values_that_are_not_visible_ascii_are_ignored() {
    let h = headers(&[(REQUEST_ID_HEADER, &[0xff]), (REQUEST_ID_HEADER, b"second"), ("x-oai-request-id", b"oai")]);
    let KodexErr::UnexpectedStatus(e) = http(404, None, Some(h), "missing") else {
        panic!("expected an unexpected status");
    };
    // The first value of a header is the one read; when it is not text, the next
    // candidate header is used.
    assert_eq!(e.request_id.as_deref(), Some("oai"));
    assert_eq!(e.user_message, None);
}

#[test]
fn transport_and_plain_api_errors() {
    assert!(matches!(map_api_error(ApiError::Transport(TransportError::Timeout)), KodexErr::RequestTimeout));
    let KodexErr::RetryLimit(r) = map_api_error(ApiError::Transport(TransportError::RetryLimit)) else {
        panic!("expected a retry limit");
    };
    assert_eq!((r.status, r.request_id), (500, None));
    assert!(matches!(map_api_error(ApiError::Transport(TransportError::Policy("denied".into()))), KodexErr::Fatal(m) if m == "denied"));
    assert!(matches!(map_api_error(ApiError::Transport(TransportError::Connection("refused".into()))), KodexErr::ConnectionFailed(m) if m == "refused"));
    assert!(matches!(map_api_error(ApiError::Transport(TransportError::Network("reset".into()))), KodexErr::Stream { message, retry_delay: None } if message == "reset"));
    assert!(matches!(map_api_error(ApiError::RateLimit("slow".into())), KodexErr::Stream { message, retry_delay: None } if message == "slow"));
    assert!(matches!(map_api_error(ApiError::ContextWindowExceeded), KodexErr::ContextWindowExceeded));
    let KodexErr::UnexpectedStatus(e) = map_api_error(ApiError::Api { status: 403, message: "Cloudflare: you have been blocked".into() }) else {
        panic!("expected an unexpected status");
    };
    assert_eq!(e.body, "Cloudflare: you have been blocked");
    assert!(e.user_message.unwrap().ends_with("(status 403 Forbidden)"));
    assert_eq!(e.url, None);
}
