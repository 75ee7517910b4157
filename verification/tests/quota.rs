use usage_widget::quota::body_plan;
use usage_widget::quota::fetch_usage_from_api;
use usage_widget::quota::is_success;
use usage_widget::quota::quota_request;
use usage_widget::quota::BodyPlan;
use usage_widget::quota::HttpReply;
use usage_widget::quota::QuotaError;
use usage_widget::quota::UsageApiResponse;
use usage_widget::quota::UsageWindow;
use usage_widget::quota::AUTHORIZATION_HEADER;
use usage_widget::quota::VERSION_HEADER;

#[test]
fn request_carries_the_token_as_bearer() {
    let request = quota_request("sk-abc");
    assert_eq!(request.url, "https://api.anthropic.com/api/oauth/usage");
    assert_eq!(request.authorization, "Bearer sk-abc");
    assert_eq!(request.api_version, "oauth-2025-04-20");
    assert_eq!(quota_request("").authorization, "Bearer ");
    assert_eq!(AUTHORIZATION_HEADER, "Authorization");
    assert_eq!(VERSION_HEADER, "anthropic-beta");
}

#[test]
fn success_is_200_to_299() {
    assert!(!is_success(0));
    assert!(!is_success(199));
    assert!(is_success(200));
    assert!(is_success(204));
    assert!(is_success(299));
    assert!(!is_success(300));
    assert!(!is_success(401));
    assert!(!is_success(500));
    assert!(!is_success(u16::MAX));
}

#[test]
fn body_is_decoded_on_success_only() {
    assert_eq!(body_plan(200), BodyPlan::DecodeUsage);
    assert_eq!(body_plan(299), BodyPlan::DecodeUsage);
    assert_eq!(body_plan(199), BodyPlan::ReadText);
    assert_eq!(body_plan(300), BodyPlan::ReadText);
    assert_eq!(body_plan(403), BodyPlan::ReadText);
}

#[test]
fn no_response_is_a_transport_error() {
    let r = fetch_usage_from_api::<f64>(HttpReply::NoResponse { cause: "dns error".to_string() });
    match r {
        Err(QuotaError::Transport { cause }) => assert_eq!(cause, "dns error"),
        other => panic!("expected Transport, got {:?}", other),
    }
}

#[test]
fn refusal_is_a_status_error() {
    let r = fetch_usage_from_api::<f64>(HttpReply::Refused {
        status: 500,
        body: Some("boom".to_string()),
    });
    match r {
        Err(QuotaError::HttpStatus { code, body }) => {
            assert_eq!(code, 500);
            assert_eq!(body, "boom");
        }
        other => panic!("expected HttpStatus, got {:?}", other),
    }
}

#[test]
fn refusal_without_a_readable_body_has_the_empty_body() {
    let r = fetch_usage_from_api::<f64>(HttpReply::Refused { status: 401, body: None });
    match r {
        Err(QuotaError::HttpStatus { code, body }) => {
            assert_eq!(code, 401);
            assert_eq!(body, "");
        }
        other => panic!("expected HttpStatus, got {:?}", other),
    }
}

#[test]
fn undecodable_body_is_a_decode_error() {
    let r = fetch_usage_from_api::<f64>(HttpReply::Undecodable {
        detail: "missing field".to_string(),
    });
    match r {
        Err(QuotaError::DecodeError { detail }) => assert_eq!(detail, "missing field"),
        other => panic!("expected DecodeError, got {:?}", other),
    }
}

#[test]
fn usage_is_handed_on() {
    let usage = UsageApiResponse {
        five_hour: Some(UsageWindow { utilization: 0.25, resets_at: "2024-03-10T12:00:00Z".to_string() }),
        seven_day: None,
        seven_day_sonnet: Some(UsageWindow { utilization: 1.5, resets_at: "later".to_string() }),
        seven_day_opus: None,
    };
    let got = fetch_usage_from_api(HttpReply::Usage(usage)).unwrap();
    let five = got.five_hour.unwrap();
    assert_eq!(five.utilization, 0.25);
    assert_eq!(five.resets_at, "2024-03-10T12:00:00Z");
    assert!(got.seven_day.is_none());
    let sonnet = got.seven_day_sonnet.unwrap();
    assert_eq!(sonnet.utilization, 1.5);
    assert_eq!(sonnet.resets_at, "later");
    assert!(got.seven_day_opus.is_none());
}

#[test]
fn messages_of_quota_errors() {
    assert_eq!(
        QuotaError::Transport { cause: "connection refused".to_string() }.message(),
        "API request failed: connection refused"
    );
    assert_eq!(
        QuotaError::HttpStatus { code: 401, body: "{\"error\":\"expired\"}".to_string() }.message(),
        "API error 401 Unauthorized: {\"error\":\"expired\"}"
    );
    assert_eq!(
        QuotaError::HttpStatus { code: 500, body: String::new() }.message(),
        "API error 500 Internal Server Error: "
    );
    assert_eq!(
        QuotaError::HttpStatus { code: 403, body: "no".to_string() }.message(),
        "API error 403 Forbidden: no"
    );
    assert_eq!(
        QuotaError::HttpStatus { code: 999, body: "x".to_string() }.message(),
        "API error 999 <unknown status code>: x"
    );
    assert_eq!(
        QuotaError::HttpStatus { code: 99, body: "x".to_string() }.message(),
        "API error 99: x"
    );
    for code in [100u16, 204, 301, 404, 418, 429, 503, 599] {
        let line = reqwest::StatusCode::from_u16(code).unwrap().to_string();
        assert_eq!(
            QuotaError::HttpStatus { code, body: "b".to_string() }.message(),
            format!("API error {}: b", line)
        );
    }
    assert_eq!(
        QuotaError::HttpStatus { code: u16::MAX, body: "x".to_string() }.message(),
        "API error 65535: x"
    );
    assert_eq!(
        QuotaError::DecodeError { detail: "expected value".to_string() }.message(),
        "Failed to parse API response: expected value"
    );
}

#[test]
fn only_401_and_403_refuse_the_credential() {
    let status = |code: u16| QuotaError::HttpStatus { code, body: "401 403".to_string() };
    assert!(status(401).is_auth_failure());
    assert!(status(403).is_auth_failure());
    assert!(!status(400).is_auth_failure());
    assert!(!status(402).is_auth_failure());
    assert!(!status(404).is_auth_failure());
    assert!(!status(500).is_auth_failure());
    assert!(!status(4010).is_auth_failure());
    assert!(!QuotaError::Transport { cause: "401".to_string() }.is_auth_failure());
    assert!(!QuotaError::DecodeError { detail: "403".to_string() }.is_auth_failure());
}
