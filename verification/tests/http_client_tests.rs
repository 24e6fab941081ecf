use playit::api::{ApiResponseError, ApiResult, PortRange, PortType, RetryPolicy};
use playit::client::{PlayitApi, PlayitApiBuilder};
use playit::http_client::{
    after_attempt, parse_error_text, parse_retry_after, parsed_answer, retry_after_with,
    retry_delay, AttemptOutcome, AuthPolicy, AuthState, CallStep, HttpClient, HttpClientError,
    JsonFailure, RequestFailure, MAX_REQUEST_ATTEMPTS, SECOND,
};

const NETWORK_FAILURE: RequestFailure =
    RequestFailure { connect: false, timeout: false, request: true, body: false };

fn answered(status: u16, retry_after: Option<&str>, body: &str) -> AttemptOutcome {
    AttemptOutcome::Answered {
        status,
        retry_after: retry_after.map(|value| value.to_string()),
        body: body.to_string(),
    }
}

const SUCCESS_BODY: &str = r#"{"status":"success","data":{"ok":true}}"#;
const SUCCESS_BODY_WITH_TRAILING_DATA: &str =
    r#"{"status":"success","data":{"ok":true}} trailing"#;
const SERVER_ERROR_BODY: &str =
    r#"{"status":"error","data":{"type":"internal","message":{"trace_id":"test"}}}"#;

fn read_body(body: &str) -> Result<ApiResult<serde_json::Value, serde_json::Value>, JsonFailure> {
    let value: serde_json::Value = serde_json::from_str(body).map_err(|error| JsonFailure {
        message: error.to_string(),
        debug: format!("{error:?}"),
    })?;
    let data = value["data"].clone();
    Ok(match value["status"].as_str() {
        Some("success") => ApiResult::Success(data),
        Some("error") => {
            let trace_id = data["message"]["trace_id"].as_str().unwrap();
            ApiResult::Error(ApiResponseError::Internal(trace_id.to_string()))
        }
        _ => ApiResult::Fail(data),
    })
}

struct Call {
    result: Result<ApiResult<serde_json::Value, serde_json::Value>, HttpClientError>,
    requests: u32,
    waited_nanos: u128,
}

/// Send a request that is answered with these outcomes in turn.
fn call_with_policy(outcomes: Vec<AttemptOutcome>, policy: RetryPolicy) -> Call {
    let mut requests = 0;
    let mut waited_nanos = 0;
    for outcome in outcomes {
        requests += 1;
        let result = match after_attempt(policy, requests - 1, outcome, 0) {
            CallStep::Retry { delay_nanos } => {
                waited_nanos += delay_nanos;
                continue;
            }
            CallStep::Parse { status, body } => parsed_answer(status, read_body(&body)),
            CallStep::Fail(error) => Err(error),
        };
        return Call { result, requests, waited_nanos };
    }
    panic!("another request was asked for after {requests}");
}

#[test]
fn read_only_policy_retries_transient_network_failure() {
    let call = call_with_policy(
        vec![AttemptOutcome::NotAnswered(NETWORK_FAILURE), answered(200, None, SUCCESS_BODY)],
        RetryPolicy::Transient,
    );
    assert!(matches!(call.result, Ok(ApiResult::Success(data)) if data["ok"] == true));
    assert_eq!(call.requests, 2);
    assert_eq!(call.waited_nanos, 250_000_000);
}

#[test]
fn mutation_policy_does_not_retry_ambiguous_network_failure() {
    let call = call_with_policy(
        vec![AttemptOutcome::NotAnswered(NETWORK_FAILURE)],
        RetryPolicy::Never,
    );
    assert!(matches!(call.result, Err(HttpClientError::RequestError(_))));
    assert_eq!(call.requests, 1);
}

#[test]
fn mutation_policy_does_not_retry_server_error() {
    let call =
        call_with_policy(vec![answered(500, None, SERVER_ERROR_BODY)], RetryPolicy::Never);
    assert!(matches!(call.result, Ok(ApiResult::Error(_))));
    assert_eq!(call.requests, 1);
}

#[test]
fn json_parser_rejects_trailing_data() {
    let call = call_with_policy(
        vec![answered(200, None, SUCCESS_BODY_WITH_TRAILING_DATA)],
        RetryPolicy::Never,
    );
    assert!(matches!(
        call.result,
        Err(HttpClientError::ParseError(_, status))
            if status == reqwest::StatusCode::OK.as_u16()
    ));
    assert_eq!(call.requests, 1);
    assert!(matches!(parsed_answer(200, Ok(7u8)), Ok(7)));
}

#[test]
fn rate_limit_uses_retry_after_header() {
    let call = call_with_policy(
        vec![answered(429, Some("1"), SERVER_ERROR_BODY), answered(200, None, SUCCESS_BODY)],
        RetryPolicy::Transient,
    );
    assert!(matches!(call.result, Ok(ApiResult::Success(_))));
    assert_eq!(call.waited_nanos, SECOND);
    assert_eq!(call.requests, 2);
    let last = after_attempt(RetryPolicy::Transient, 2, answered(429, Some("1"), ""), 0);
    assert!(matches!(last, CallStep::Fail(HttpClientError::TooManyRequests)));
}

#[test]
fn transient_retry_attempts_are_bounded() {
    let responses =
        (0..MAX_REQUEST_ATTEMPTS).map(|_| answered(503, None, SERVER_ERROR_BODY)).collect();
    let call = call_with_policy(responses, RetryPolicy::Transient);
    assert!(matches!(call.result, Ok(ApiResult::Error(_))));
    assert_eq!(call.requests, MAX_REQUEST_ATTEMPTS);
    assert_eq!(call.waited_nanos, 250_000_000 + 500_000_000);
}

#[test]
fn broken_answers_and_unbuilt_requests() {
    let lost = AttemptOutcome::BodyLost {
        failure: RequestFailure { connect: false, timeout: false, request: false, body: true },
        retry_after: Some("2".to_string()),
    };
    let step = after_attempt(RetryPolicy::Transient, 0, lost, 0);
    assert!(matches!(step, CallStep::Retry { delay_nanos } if delay_nanos == 2 * SECOND));
    let unbuilt = after_attempt(
        RetryPolicy::Transient,
        0,
        AttemptOutcome::NotBuilt(NETWORK_FAILURE),
        0,
    );
    assert!(matches!(unbuilt, CallStep::Fail(HttpClientError::RequestError(_))));
    let hopeless = RequestFailure { connect: false, timeout: false, request: false, body: false };
    let step = after_attempt(RetryPolicy::Transient, 0, AttemptOutcome::NotAnswered(hopeless), 0);
    assert!(matches!(step, CallStep::Fail(HttpClientError::RequestError(_))));
}

#[test]
fn pauses_follow_the_header_up_to_a_cap() {
    assert_eq!(retry_delay(0, None, 0), 250_000_000);
    assert_eq!(retry_delay(1, None, 0), 500_000_000);
    assert_eq!(retry_delay(100, None, 0), 5 * SECOND);
    assert_eq!(retry_delay(0, Some("3600"), 0), 5 * SECOND);
    assert_eq!(retry_delay(0, Some("0"), 0), 0);
    assert_eq!(retry_delay(0, Some("soon"), 0), 250_000_000);
    assert_eq!(parse_retry_after(" 7 ", 0), Some(7 * SECOND));
    assert_eq!(parse_retry_after("+7", 0), Some(7 * SECOND));
    assert_eq!(parse_retry_after("18446744073709551616", 0), None);
    assert_eq!(parse_retry_after("", 0), None);
}

#[test]
fn retry_dates_are_read() {
    let date = "Sun, 06 Nov 1994 08:49:37 GMT";
    let at: u128 = 784_111_777;
    assert_eq!(parse_retry_after(date, (at - 2) * SECOND), Some(2 * SECOND));
    assert_eq!(parse_retry_after(date, (at - 2) * SECOND + 1), Some(2 * SECOND - 1));
    assert_eq!(parse_retry_after(date, (at + 2) * SECOND), Some(0));
    assert_eq!(retry_after_with("anything", Some(10), 9 * SECOND), Some(SECOND));
    assert_eq!(retry_after_with("anything", None, 0), None);
    assert_eq!(retry_after_with("4", Some(10), 0), Some(4 * SECOND));
}

#[test]
fn auth_state_header_values_and_kinds() {
    assert_eq!(AuthState::anonymous().header_value(), None);
    assert_eq!(AuthState::anonymous().kind(), "anonymous");
    assert_eq!(
        AuthState::agent_key("  padded-credential  ".to_string()).header_value().as_deref(),
        Some("Agent-Key padded-credential")
    );
    assert_eq!(AuthState::agent_key("padded-credential".to_string()).kind(), "agent");
    assert_eq!(
        AuthState::bearer("account-credential".to_string()).header_value().as_deref(),
        Some("Bearer account-credential")
    );
    assert_eq!(AuthState::bearer("account-credential".to_string()).kind(), "account");
}

#[test]
fn auth_state_debug_never_exposes_credentials() {
    for state in [
        AuthState::agent_key("agent-credential-value".to_string()),
        AuthState::bearer("account-credential-value".to_string()),
    ] {
        let rendered = state.debug_text();
        assert!(!rendered.contains("agent-credential-value"));
        assert!(!rendered.contains("account-credential-value"));
    }
    let client = HttpClient::new(
        "http://127.0.0.1:1".to_string(),
        AuthState::agent_key("agent-credential-value".to_string()).header_value(),
    );
    let rendered = client.debug_text();
    assert!(!rendered.contains("agent-credential-value"));
    assert_eq!(
        rendered,
        "HttpClient { api_base: \"http://127.0.0.1:1\", auth: \"<redacted>\", .. }"
    );
}

#[test]
fn auth_policy_allows_expected_families() {
    let anonymous = AuthState::anonymous();
    let agent = AuthState::agent_key("agent-credential-value".to_string());
    let account = AuthState::bearer("account-credential-value".to_string());
    assert!(AuthPolicy::Anonymous.allows(&anonymous));
    assert!(!AuthPolicy::Anonymous.allows(&agent));
    assert!(AuthPolicy::Agent.allows(&agent));
    assert!(!AuthPolicy::Agent.allows(&account));
    assert!(AuthPolicy::Account.allows(&account));
    assert!(!AuthPolicy::Account.allows(&anonymous));
    assert!(AuthPolicy::AgentOrAccount.allows(&agent));
    assert!(AuthPolicy::AgentOrAccount.allows(&account));
    assert!(!AuthPolicy::AgentOrAccount.allows(&anonymous));
}

#[test]
fn auth_kind_reports_family_without_leaking_secret() {
    let mut client = HttpClient::new_with_auth(
        "http://127.0.0.1:1".to_string(),
        AuthState::bearer("account-credential-value".to_string()),
    );
    assert_eq!(client.auth_kind(), "account");
    client.set_auth(AuthState::agent_key("agent-credential-value".to_string()));
    assert_eq!(client.auth_kind(), "agent");
    client.remove_auth();
    assert_eq!(client.auth_kind(), "anonymous");
    let odd = HttpClient::new("base".to_string(), Some("Basic abc".to_string()));
    assert_eq!(odd.auth_kind(), "unknown");
    assert_eq!(odd.request_url("/claim/setup"), "base/claim/setup");
}

#[test]
fn builders_choose_the_credential() {
    let base = || "https://api.playit.gg".to_string();
    assert_eq!(PlayitApiBuilder::new(base()).build().get_client().auth_header, None);
    assert_eq!(
        PlayitApiBuilder::new(base())
            .auth(AuthState::bearer("k".to_string()))
            .build()
            .get_client()
            .auth_header
            .as_deref(),
        Some("Bearer k")
    );
    assert_eq!(
        PlayitApi::create(base(), Some(" secret ".to_string()))
            .get_client()
            .auth_header
            .as_deref(),
        Some("Agent-Key secret")
    );
    assert_eq!(PlayitApi::create(base(), None).get_client().auth_header, None);
    assert_eq!(
        PlayitApi::from_bearer(base(), "k".to_string()).get_client().auth_header.as_deref(),
        Some("Bearer k")
    );
}

#[test]
fn transport_errors_in_words() {
    let json = || JsonFailure { message: "bad".to_string(), debug: "Error(bad)".to_string() };
    let parse = HttpClientError::ParseError(json(), 503);
    assert_eq!(
        parse.to_text(),
        "failed to parse API response (503 Service Unavailable): bad"
    );
    assert_eq!(parse_error_text("200 OK", "bad"), "failed to parse API response (200 OK): bad");
    assert_eq!(parse.debug_text(), "ParseError { error: Error(bad), status: 503 }");
    assert!(parse.is_transient());
    assert!(!HttpClientError::ParseError(json(), 404).is_transient());
    assert!(HttpClientError::ParseError(json(), 429).is_transient());
    let serialize = HttpClientError::SerializeError(json());
    assert_eq!(serialize.to_text(), "failed to serialize API request: bad");
    assert_eq!(serialize.debug_text(), "SerializeError(Error(bad))");
    assert!(!serialize.is_transient());
    let connect = RequestFailure { connect: true, timeout: false, request: true, body: false };
    assert_eq!(
        HttpClientError::RequestError(connect).to_text(),
        "could not connect to the API"
    );
    assert_eq!(
        HttpClientError::RequestError(connect).debug_text(),
        "RequestError { connect: true, timeout: false, request: true }"
    );
    assert_eq!(HttpClientError::RequestError(NETWORK_FAILURE).to_text(), "API request failed");
    assert_eq!(HttpClientError::TooManyRequests.to_text(), "API rate limit exceeded");
    assert!(HttpClientError::TooManyRequests.is_transient());
}

#[test]
fn ports_match_by_type_and_range() {
    assert!(PortType::Both.matches(PortType::Tcp));
    assert!(PortType::Both.matches(PortType::Udp));
    assert!(PortType::Tcp.matches(PortType::Tcp));
    assert!(!PortType::Tcp.matches(PortType::Udp));
    assert!(!PortType::Udp.matches(PortType::Both));
    let range = PortRange { from: 10, to: 12 };
    assert!(!range.contains(9));
    assert!(range.contains(10));
    assert!(range.contains(11));
    assert!(!range.contains(12));
}
