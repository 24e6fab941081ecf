use playit::api::{
    AccountStatus, ApiError, ApiResponseError, ApiResult, AuthError, SignedEpoch, SigninFail,
    TotpStatus, WebAuthToken, WebSession,
};
use playit::auth::{
    complete_totp, sign_in, signed_in, span_nanos, totp_request, AccountSession, SigninError, TotpError,
    TotpSubmitFail, TOTP_PATH,
};
use playit::http_client::{AuthPolicy, HttpClientError, RequestFailure};

fn web_session(key: &str, totp_status: TotpStatus) -> WebSession {
    WebSession {
        session_key: key.to_string(),
        auth: WebAuthToken {
            update_version: 1,
            account_id: 123,
            timestamp: 456,
            account_status: AccountStatus::Verified,
            totp_status,
            admin_id: None,
            admin_review_id: Some(7),
            read_only: false,
            show_admin: false,
        },
    }
}

fn test_session(totp_status: TotpStatus) -> AccountSession {
    AccountSession::new(
        "http://127.0.0.1:1".to_string(),
        web_session("super-secret-session-key", totp_status),
    )
}

#[test]
fn rejects_empty_credentials_without_network() {
    assert!(matches!(sign_in("", "password"), Err(SigninError::EmptyCredentials)));
    assert!(matches!(sign_in("   ", "password"), Err(SigninError::EmptyCredentials)));
    assert!(matches!(sign_in("user@example.com", ""), Err(SigninError::EmptyCredentials)));
    let sent = sign_in(" user@example.com ", " ").unwrap();
    assert_eq!(sent.email, " user@example.com ");
    assert_eq!(sent.password, " ");
}

#[test]
fn returns_session_on_success() {
    let session = signed_in(
        "https://api.playit.gg",
        Ok(web_session("test-session-key", TotpStatus::NotSetup)),
    )
    .unwrap();
    assert_eq!(session.session().session_key, "test-session-key");
    assert!(matches!(session.session().auth.totp_status, TotpStatus::NotSetup));
    assert_eq!(session.account_id(), 123);
    assert!(!session.requires_totp());
    assert_eq!(session.api_base(), "https://api.playit.gg");
    assert_eq!(session.into_session().session_key, "test-session-key");
}

#[test]
fn maps_incorrect_credentials() {
    let error = signed_in("base", Err(ApiError::Fail(SigninFail::IncorrectCredentials)))
        .err()
        .unwrap();
    assert!(matches!(error, SigninError::IncorrectCredentials));
    assert_eq!(error.to_text(), "incorrect email or password");
}

#[test]
fn other_sign_in_failures_keep_their_kind() {
    let banned = signed_in("base", Err(ApiError::Fail(SigninFail::AccountBanned))).err().unwrap();
    assert!(matches!(banned, SigninError::AccountBanned));
    assert_eq!(banned.to_text(), "playit.gg account is banned");

    let api = signed_in(
        "base",
        Err(ApiError::ApiError(ApiResponseError::Auth(AuthError::InvalidHeader))),
    )
    .err()
    .unwrap();
    assert_eq!(api.to_text(), "playit.gg API error: Auth(InvalidHeader)");

    let transport = signed_in(
        "base",
        Err(ApiError::ClientError(HttpClientError::RequestError(RequestFailure {
            connect: false,
            timeout: true,
            request: true,
            body: false,
        }))),
    )
    .err()
    .unwrap();
    assert_eq!(transport.to_text(), "playit.gg request failed: API request timed out");
    assert_eq!(
        SigninError::EmptyCredentials.to_text(),
        "email and password must not be empty"
    );
}

#[test]
fn account_client_sends_bearer_session_key() {
    let session = AccountSession::new(
        "https://api.playit.gg".to_string(),
        web_session("test-session-key", TotpStatus::NotSetup),
    );
    let client = session.account_client();
    assert_eq!(client.get_client().auth_header.as_deref(), Some("Bearer test-session-key"));
    assert_eq!(client.get_client().api_base(), "https://api.playit.gg");
}

#[test]
fn debug_never_exposes_the_session_key() {
    let rendered = test_session(TotpStatus::NotSetup).debug_text();
    assert!(
        !rendered.contains("super-secret-session-key"),
        "Debug must not leak the session key: {rendered}"
    );
    assert!(rendered.contains("123"));
}

#[test]
fn shown_sessions_have_every_other_part() {
    let session = test_session(TotpStatus::Signed(SignedEpoch { epoch_sec: 1 }));
    assert_eq!(
        session.debug_text_with("1.5s"),
        "AccountSession { account_id: 123, account_status: Verified, \
         totp_status: Signed(SignedEpoch { epoch_sec: 1 }), read_only: false, \
         api_base: \"http://127.0.0.1:1\", age: 1.5s, .. }"
    );
    let shown = session.debug_text();
    assert!(shown.starts_with("AccountSession { account_id: 123"));
    assert!(shown.ends_with("s, .. }"));
}

#[test]
fn sessions_grow_older() {
    let session = test_session(TotpStatus::NotSetup);
    let first = session.age();
    let second = session.age();
    assert!(first <= second);
}

#[test]
fn totp_required_is_reported() {
    assert!(!test_session(TotpStatus::NotSetup).requires_totp());
    assert!(test_session(TotpStatus::Required).requires_totp());
    assert!(!test_session(TotpStatus::Signed(SignedEpoch { epoch_sec: 1 })).requires_totp());
}

#[test]
fn session_details_come_from_the_token() {
    let session = test_session(TotpStatus::NotSetup);
    assert_eq!(session.account_status(), AccountStatus::Verified);
    assert_eq!(*session.totp_status(), TotpStatus::NotSetup);
    assert!(!session.is_read_only());
}

#[test]
fn totp_invalid_code_maps_without_leaking_code() {
    let session = AccountSession::new(
        "base".to_string(),
        web_session("fixture-pending-credential", TotpStatus::Required),
    );
    assert_eq!(TOTP_PATH, "/login/totp");
    assert_eq!(totp_request("123456").code, "123456");
    let error = complete_totp(&session, Ok(ApiResult::Fail(TotpSubmitFail::InvalidCode)))
        .err()
        .unwrap();
    assert!(matches!(error, TotpError::InvalidCode));
    assert!(!error.to_text().contains("123456"));
}

#[test]
fn totp_outcomes_keep_their_kind() {
    let pending = test_session(TotpStatus::Required);
    let done = complete_totp(
        &pending,
        Ok(ApiResult::Success(web_session("new-key", TotpStatus::NotSetup))),
    )
    .unwrap();
    assert_eq!(done.session().session_key, "new-key");
    assert_eq!(done.api_base(), "http://127.0.0.1:1");

    let not_setup =
        complete_totp(&pending, Ok(ApiResult::Fail(TotpSubmitFail::TotpNotSetup))).err().unwrap();
    assert_eq!(not_setup.to_text(), "playit.gg request failed: TotpNotSetup");

    for error in [
        AuthError::SessionExpired,
        AuthError::AuthRequired,
        AuthError::NoLongerValid,
        AuthError::InvalidToken,
    ] {
        let expired =
            complete_totp(&pending, Ok(ApiResult::Error(ApiResponseError::Auth(error))))
                .err()
                .unwrap();
        assert!(matches!(expired, TotpError::SessionExpired));
        assert_eq!(
            expired.to_text(),
            "account session expired; run `playit account login` again"
        );
    }

    let other = complete_totp(
        &pending,
        Ok(ApiResult::Error(ApiResponseError::Internal("abc".to_string()))),
    )
    .err()
    .unwrap();
    assert_eq!(
        other.to_text(),
        "playit.gg request failed: Internal(ApiInternalError { trace_id: \"abc\" })"
    );
    let transport = complete_totp(&pending, Err(HttpClientError::TooManyRequests)).err().unwrap();
    assert_eq!(transport.to_text(), "playit.gg request failed: TooManyRequests");
    assert_eq!(
        TotpError::NotSupported.to_text(),
        "TOTP completion is not available in this build; run `playit account login` again"
    );
}

#[test]
fn auth_state_kind_is_log_safe() {
    let session = test_session(TotpStatus::NotSetup);
    assert_eq!(session.auth_state().kind(), "account");
    assert!(AuthPolicy::Account.allows(&session.auth_state()));
    assert!(!AuthPolicy::Agent.allows(&session.auth_state()));
}

#[test]
fn time_spans_are_counted_in_nanoseconds() {
    assert_eq!(span_nanos(0, 0), 0);
    assert_eq!(span_nanos(2, 5), 2_000_000_005);
    assert_eq!(span_nanos(u64::MAX, 999_999_999), 18_446_744_073_709_551_615_999_999_999);
}
