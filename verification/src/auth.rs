//! Signing in to an account.
//!
//! Passwords and one-time codes go into the request alone. Nothing here keeps them, and no
//! error is made from them.

use vstd::prelude::*;

use crate::api::{
    AccountStatus, ApiError, ApiResult, SigninFail, TotpStatus, WebSession, WebSessionView,
};
use crate::client::PlayitApi;
use crate::http_client::{
    shown_bool, AuthState, AuthStateView, HttpClientError, HttpClientView,
};
use crate::outside::{
    debug_quoted, duration_shown, duration_text, elapsed, instant_now, quote_debug,
};
use crate::text::{decimal, decimal_text, join2, join3, owned, trim, trimmed};
use crate::tunnels::valid_call_error;

verus! {

// ---------------------------------------------------------------------------
// Sessions
// ---------------------------------------------------------------------------

/// An authenticated session of an account.
///
/// It holds the session, the address of the API that issued it, and when it was made. It is
/// not refreshed or stored; discarding it ends it on this machine.
pub struct AccountSession {
    pub session: WebSession,
    pub api_base: String,
    pub created_at: std::time::Instant,
}

/// The model of an [`AccountSession`]. When it was made is left out.
#[verifier::ext_equal]
pub struct AccountSessionView {
    pub session: WebSessionView,
    pub api_base: Seq<char>,
}

impl View for AccountSession {
    type V = AccountSessionView;

    open spec fn view(&self) -> AccountSessionView {
        AccountSessionView { session: self.session@, api_base: self.api_base@ }
    }
}

impl AccountSessionView {
    /// What may be shown of the session, with its age as it is shown.
    pub open spec fn shown(self, age: Seq<char>) -> Seq<char> {
        "AccountSession { account_id: "@ + decimal(self.session.auth.account_id as nat)
            + ", account_status: "@ + self.session.auth.account_status.shown()
            + ", totp_status: "@ + self.session.auth.totp_status.shown() + ", read_only: "@
            + shown_bool(self.session.auth.read_only) + ", api_base: "@ + debug_quoted(
            self.api_base,
        ) + ", age: "@ + age + ", .. }"@
    }
}

impl AccountSession {
    /// A session that was just issued.
    pub fn new(api_base: String, session: WebSession) -> (r: Self)
        ensures
            r@ == (AccountSessionView { session: session@, api_base: api_base@ }),
            r.session == session,
    {
        AccountSession { session, api_base, created_at: instant_now() }
    }

    /// The session. Whoever handles it handles the secret key.
    pub fn session(&self) -> (r: &WebSession)
        ensures
            *r == self.session,
    {
        &self.session
    }

    /// The session without its wrapper.
    pub fn into_session(self) -> (r: WebSession)
        ensures
            r == self.session,
    {
        self.session
    }

    /// The address of the API that issued the session.
    pub fn api_base(&self) -> (r: &str)
        ensures
            r@ == self@.api_base,
    {
        self.api_base.as_str()
    }

    /// How long ago the session was made, in nanoseconds. How long that is depends on the
    /// clock alone.
    pub fn age(&self) -> (r: u128)
        ensures
            exists|secs: u64, nanos: u32|
                nanos < 1_000_000_000 && r == #[trigger] whole_nanos(secs, nanos),
    {
        let (secs, nanos) = elapsed(&self.created_at);
        span_nanos(secs, nanos)
    }

    pub fn account_id(&self) -> (r: u64)
        ensures
            r == self@.session.auth.account_id,
    {
        self.session.auth.account_id
    }

    pub fn account_status(&self) -> (r: AccountStatus)
        ensures
            r == self@.session.auth.account_status,
    {
        self.session.auth.account_status
    }

    pub fn totp_status(&self) -> (r: &TotpStatus)
        ensures
            *r == self@.session.auth.totp_status,
    {
        &self.session.auth.totp_status
    }

    /// Whether a one-time code must still be submitted.
    pub fn requires_totp(&self) -> (r: bool)
        ensures
            r == (self@.session.auth.totp_status == TotpStatus::Required),
    {
        match self.session.auth.totp_status {
            TotpStatus::Required => true,
            _ => false,
        }
    }

    pub fn is_read_only(&self) -> (r: bool)
        ensures
            r == self@.session.auth.read_only,
    {
        self.session.auth.read_only
    }

    /// The credential of the session.
    pub fn auth_state(&self) -> (r: AuthState)
        ensures
            r@ == AuthStateView::Bearer(self@.session.session_key),
    {
        AuthState::bearer(self.session.session_key.clone())
    }

    /// A client that sends the session's key.
    pub fn account_client(&self) -> (r: PlayitApi)
        ensures
            r@ == (HttpClientView {
                api_base: self@.api_base,
                auth_header: Some("Bearer "@ + self@.session.session_key),
            }),
    {
        PlayitApi::from_bearer(self.api_base.clone(), self.session.session_key.clone())
    }

    /// The session with its key left out.
    pub fn debug_text(&self) -> (r: String)
        ensures
            exists|secs: u64, nanos: u32|
                r@ == self@.shown(#[trigger] duration_shown(secs, nanos)),
    {
        let (secs, nanos) = elapsed(&self.created_at);
        let age = duration_text(secs, nanos);
        self.debug_text_with(age.as_str())
    }

    /// The session with its key left out, given its age as it is shown.
    pub fn debug_text_with(&self, age: &str) -> (r: String)
        ensures
            r@ == self@.shown(age@),
    {
        let id = decimal_text(self.session.auth.account_id);
        let totp = self.session.auth.totp_status.debug_text();
        let base = quote_debug(self.api_base.as_str());
        let mut out = join3("AccountSession { account_id: ", id.as_str(), ", account_status: ");
        out.append(self.session.auth.account_status.name());
        out.append(", totp_status: ");
        out.append(totp.as_str());
        out.append(", read_only: ");
        if self.session.auth.read_only {
            out.append("true");
        } else {
            out.append("false");
        }
        out.append(", api_base: ");
        out.append(base.as_str());
        out.append(", age: ");
        out.append(age);
        out.append(", .. }");
        out
    }
}

/// A time span in nanoseconds.
pub open spec fn whole_nanos(secs: u64, nanos: u32) -> int {
    secs * 1_000_000_000 + nanos
}

/// A time span in nanoseconds, given its whole seconds and the nanoseconds beyond them.
pub fn span_nanos(secs: u64, nanos: u32) -> (r: u128)
    ensures
        r == whole_nanos(secs, nanos),
{
    secs as u128 * 1_000_000_000 + nanos as u128
}

/// What is shown of a session does not depend on its secret key.
pub proof fn shown_sessions_hide_their_key(
    session: AccountSessionView,
    key: Seq<char>,
    age: Seq<char>,
)
    ensures
        session.shown(age) == (AccountSessionView {
            session: WebSessionView { session_key: key, ..session.session },
            ..session
        }).shown(age),
{
}

// ---------------------------------------------------------------------------
// Signing in
// ---------------------------------------------------------------------------

/// What is sent to sign in.
pub struct LoginCredentials {
    pub email: String,
    pub password: String,
}

/// Why signing in failed.
#[derive(Debug)]
pub enum SigninError {
    /// The email or the password is empty; nothing was sent.
    EmptyCredentials,
    IncorrectCredentials,
    AccountBanned,
    /// The API answered with a structured error.
    Api(String),
    /// The API could not be asked.
    Transport(String),
}

/// The model of a [`SigninError`].
#[verifier::ext_equal]
pub enum SigninErrorView {
    EmptyCredentials,
    IncorrectCredentials,
    AccountBanned,
    Api(Seq<char>),
    Transport(Seq<char>),
}

impl View for SigninError {
    type V = SigninErrorView;

    open spec fn view(&self) -> SigninErrorView {
        match *self {
            SigninError::EmptyCredentials => SigninErrorView::EmptyCredentials,
            SigninError::IncorrectCredentials => SigninErrorView::IncorrectCredentials,
            SigninError::AccountBanned => SigninErrorView::AccountBanned,
            SigninError::Api(error) => SigninErrorView::Api(error@),
            SigninError::Transport(error) => SigninErrorView::Transport(error@),
        }
    }
}

impl SigninErrorView {
    /// The error in words.
    pub open spec fn shown(self) -> Seq<char> {
        match self {
            SigninErrorView::EmptyCredentials => "email and password must not be empty"@,
            SigninErrorView::IncorrectCredentials => "incorrect email or password"@,
            SigninErrorView::AccountBanned => "playit.gg account is banned"@,
            SigninErrorView::Api(error) => "playit.gg API error: "@ + error,
            SigninErrorView::Transport(error) => "playit.gg request failed: "@ + error,
        }
    }
}

impl SigninError {
    /// The error in words.
    pub fn to_text(&self) -> (r: String)
        ensures
            r@ == self@.shown(),
    {
        match self {
            SigninError::EmptyCredentials => owned("email and password must not be empty"),
            SigninError::IncorrectCredentials => owned("incorrect email or password"),
            SigninError::AccountBanned => owned("playit.gg account is banned"),
            SigninError::Api(error) => join2("playit.gg API error: ", error.as_str()),
            SigninError::Transport(error) => join2("playit.gg request failed: ", error.as_str()),
        }
    }
}

/// What to send to sign in. Without an email or a password nothing is sent.
pub fn sign_in(email: &str, password: &str) -> (r: Result<LoginCredentials, SigninError>)
    ensures
        if trimmed(email@).len() == 0 || password@.len() == 0 {
            r == Err::<LoginCredentials, SigninError>(SigninError::EmptyCredentials)
        } else {
            r is Ok && r->Ok_0.email@ == email@ && r->Ok_0.password@ == password@
        },
{
    if trim(email).is_empty() || password.is_empty() {
        return Err(SigninError::EmptyCredentials);
    }
    Ok(LoginCredentials { email: owned(email), password: owned(password) })
}

/// The session that the API answered, or why there is none.
pub open spec fn session_answered(
    api_base: Seq<char>,
    answer: Result<WebSession, ApiError<SigninFail>>,
) -> Result<AccountSessionView, SigninErrorView> {
    match answer {
        Ok(session) => Ok(AccountSessionView { session: session@, api_base }),
        Err(ApiError::Fail(SigninFail::IncorrectCredentials)) => Err(
            SigninErrorView::IncorrectCredentials,
        ),
        Err(ApiError::Fail(SigninFail::AccountBanned)) => Err(SigninErrorView::AccountBanned),
        Err(ApiError::ApiError(error)) => Err(SigninErrorView::Api(error@.shown())),
        Err(ApiError::ClientError(error)) => Err(SigninErrorView::Transport(error@.message())),
    }
}

/// The session that the API answered, or why there is none.
pub fn signed_in(api_base: &str, answer: Result<WebSession, ApiError<SigninFail>>) -> (r: Result<
    AccountSession,
    SigninError,
>)
    requires
        answer matches Err(error) ==> valid_call_error(error),
    ensures
        match session_answered(api_base@, answer) {
            Ok(session) => r is Ok && r->Ok_0@ == session,
            Err(error) => r is Err && r->Err_0@ == error,
        },
{
    match answer {
        Ok(session) => Ok(AccountSession::new(owned(api_base), session)),
        Err(ApiError::Fail(SigninFail::IncorrectCredentials)) => Err(
            SigninError::IncorrectCredentials,
        ),
        Err(ApiError::Fail(SigninFail::AccountBanned)) => Err(SigninError::AccountBanned),
        Err(ApiError::ApiError(error)) => Err(SigninError::Api(error.debug_text())),
        Err(ApiError::ClientError(error)) => Err(SigninError::Transport(error.to_text())),
    }
}

// ---------------------------------------------------------------------------
// One-time codes
// ---------------------------------------------------------------------------

/// The path that one-time codes are posted to.
pub const TOTP_PATH: &'static str = "/login/totp";

/// What is sent to submit a one-time code.
pub struct ReqLoginTotp {
    pub code: String,
}

/// Why a one-time code was refused.
#[derive(Clone, Copy, Debug, PartialEq, Eq, Structural)]
pub enum TotpSubmitFail {
    InvalidCode,
    TotpNotSetup,
    Other,
}

impl TotpSubmitFail {
    pub open spec fn shown(self) -> Seq<char> {
        match self {
            TotpSubmitFail::InvalidCode => "InvalidCode"@,
            TotpSubmitFail::TotpNotSetup => "TotpNotSetup"@,
            TotpSubmitFail::Other => "Other"@,
        }
    }

    /// The name of the reason.
    pub fn name(&self) -> (r: &'static str)
        ensures
            r@ == self.shown(),
    {
        match self {
            TotpSubmitFail::InvalidCode => "InvalidCode",
            TotpSubmitFail::TotpNotSetup => "TotpNotSetup",
            TotpSubmitFail::Other => "Other",
        }
    }
}

/// Why a one-time code brought no session.
#[derive(Debug)]
pub enum TotpError {
    NotSupported,
    InvalidCode,
    /// The session is no longer valid; sign in again.
    SessionExpired,
    /// Anything else, in words that do not hold the code.
    Failed(String),
}

/// The model of a [`TotpError`].
#[verifier::ext_equal]
pub enum TotpErrorView {
    NotSupported,
    InvalidCode,
    SessionExpired,
    Failed(Seq<char>),
}

impl View for TotpError {
    type V = TotpErrorView;

    open spec fn view(&self) -> TotpErrorView {
        match *self {
            TotpError::NotSupported => TotpErrorView::NotSupported,
            TotpError::InvalidCode => TotpErrorView::InvalidCode,
            TotpError::SessionExpired => TotpErrorView::SessionExpired,
            TotpError::Failed(error) => TotpErrorView::Failed(error@),
        }
    }
}

impl TotpErrorView {
    /// The error in words.
    pub open spec fn shown(self) -> Seq<char> {
        match self {
            TotpErrorView::NotSupported =>
                "TOTP completion is not available in this build; run `playit account login` again"@,
            TotpErrorView::InvalidCode => "the TOTP code was rejected"@,
            TotpErrorView::SessionExpired =>
                "account session expired; run `playit account login` again"@,
            TotpErrorView::Failed(error) => "playit.gg request failed: "@ + error,
        }
    }
}

impl TotpError {
    /// The error in words.
    pub fn to_text(&self) -> (r: String)
        ensures
            r@ == self@.shown(),
    {
        match self {
            TotpError::NotSupported => owned(
                "TOTP completion is not available in this build; run `playit account login` again",
            ),
            TotpError::InvalidCode => owned("the TOTP code was rejected"),
            TotpError::SessionExpired => owned(
                "account session expired; run `playit account login` again",
            ),
            TotpError::Failed(error) => join2("playit.gg request failed: ", error.as_str()),
        }
    }
}

/// What to send to submit a one-time code.
pub fn totp_request(code: &str) -> (r: ReqLoginTotp)
    ensures
        r.code@ == code@,
{
    ReqLoginTotp { code: owned(code) }
}

/// The session that replaces the pending one, or why there is none.
pub open spec fn totp_answered(
    pending: AccountSessionView,
    outcome: Result<ApiResult<WebSession, TotpSubmitFail>, HttpClientError>,
) -> Result<AccountSessionView, TotpErrorView> {
    match outcome {
        Err(error) => Err(TotpErrorView::Failed(error@.debugged())),
        Ok(ApiResult::Success(new)) => Ok(
            AccountSessionView { session: new@, api_base: pending.api_base },
        ),
        Ok(ApiResult::Fail(TotpSubmitFail::InvalidCode)) => Err(TotpErrorView::InvalidCode),
        Ok(ApiResult::Fail(other)) => Err(TotpErrorView::Failed(other.shown())),
        Ok(ApiResult::Error(error)) => Err(
            if error@.ends_session() {
                TotpErrorView::SessionExpired
            } else {
                TotpErrorView::Failed(error@.shown())
            },
        ),
    }
}

/// The session that replaces the pending one, or why there is none. What came of the call
/// decides alone: the code is no part of it.
pub fn complete_totp(
    session: &AccountSession,
    outcome: Result<ApiResult<WebSession, TotpSubmitFail>, HttpClientError>,
) -> (r: Result<AccountSession, TotpError>)
    ensures
        match totp_answered(session@, outcome) {
            Ok(new) => r is Ok && r->Ok_0@ == new,
            Err(error) => r is Err && r->Err_0@ == error,
        },
{
    match outcome {
        Err(error) => Err(TotpError::Failed(error.debug_text())),
        Ok(ApiResult::Success(new)) => Ok(AccountSession::new(session.api_base.clone(), new)),
        Ok(ApiResult::Fail(fail)) => match fail {
            TotpSubmitFail::InvalidCode => Err(TotpError::InvalidCode),
            other => Err(TotpError::Failed(owned(other.name()))),
        },
        Ok(ApiResult::Error(error)) => if error.ends_session() {
            Err(TotpError::SessionExpired)
        } else {
            Err(TotpError::Failed(error.debug_text()))
        },
    }
}

/// Signing in gives the session that the API answered, at the address that was asked, and nothing
/// else does; wrong credentials and a banned account are told as such, other refusals as the
/// API's, and a call without an answer as a failed request.
pub proof fn sign_ins_give_the_answered_session(
    api_base: Seq<char>,
    answer: Result<WebSession, ApiError<SigninFail>>,
)
    ensures
        answer matches Ok(session) ==> session_answered(api_base, answer) == Ok::<
            AccountSessionView,
            SigninErrorView,
        >(AccountSessionView { session: session@, api_base }),
        answer is Err ==> session_answered(api_base, answer) is Err,
        answer matches Err(ApiError::Fail(SigninFail::IncorrectCredentials))
            ==> session_answered(api_base, answer)->Err_0 is IncorrectCredentials,
        answer matches Err(ApiError::Fail(SigninFail::AccountBanned)) ==> session_answered(
            api_base,
            answer,
        )->Err_0 is AccountBanned,
        answer matches Err(ApiError::ApiError(error)) ==> session_answered(api_base, answer)->Err_0
            == SigninErrorView::Api(error@.shown()),
        answer matches Err(ApiError::ClientError(error)) ==> session_answered(
            api_base,
            answer,
        )->Err_0 == SigninErrorView::Transport(error@.message()),
{
}

/// A one-time code that was accepted gives the session that the API answered, at the address of
/// the pending one. A wrong code and an expired session are told as such, and anything else as a
/// failed request.
pub proof fn codes_give_the_answered_session(
    pending: AccountSessionView,
    outcome: Result<ApiResult<WebSession, TotpSubmitFail>, HttpClientError>,
)
    ensures
        outcome matches Ok(ApiResult::Success(session)) ==> totp_answered(pending, outcome) == Ok::<
            AccountSessionView,
            TotpErrorView,
        >(AccountSessionView { session: session@, api_base: pending.api_base }),
        !(outcome matches Ok(ApiResult::Success(_))) ==> totp_answered(pending, outcome) is Err,
        totp_answered(pending, outcome) == Err::<AccountSessionView, TotpErrorView>(
            TotpErrorView::InvalidCode,
        ) <==> (outcome matches Ok(ApiResult::Fail(TotpSubmitFail::InvalidCode))),
        outcome matches Ok(ApiResult::Error(error)) ==> (totp_answered(pending, outcome)->Err_0
            is SessionExpired <==> error@.ends_session()),
        outcome is Err ==> totp_answered(pending, outcome)->Err_0 is Failed,
        outcome matches Ok(ApiResult::Fail(fail)) ==> fail != TotpSubmitFail::InvalidCode
            ==> totp_answered(pending, outcome)->Err_0 == TotpErrorView::Failed(fail.shown()),
{
}

/// What went wrong while signing in is told in words.
pub proof fn sign_in_errors_are_told(error: SigninErrorView, code: TotpErrorView)
    ensures
        error is EmptyCredentials ==> error.shown() == "email and password must not be empty"@,
        error is IncorrectCredentials ==> error.shown() == "incorrect email or password"@,
        error is AccountBanned ==> error.shown() == "playit.gg account is banned"@,
        error matches SigninErrorView::Api(reason) ==> error.shown() == "playit.gg API error: "@
            + reason,
        error matches SigninErrorView::Transport(reason) ==> error.shown()
            == "playit.gg request failed: "@ + reason,
        code is InvalidCode ==> code.shown() == "the TOTP code was rejected"@,
        code is SessionExpired ==> code.shown()
            == "account session expired; run `playit account login` again"@,
        code matches TotpErrorView::Failed(reason) ==> code.shown() == "playit.gg request failed: "@
            + reason,
{
}

/// A second has a thousand million nanoseconds.
pub proof fn spans_add_up(secs: u64, nanos: u32)
    ensures
        whole_nanos(secs, nanos) == secs * 1_000_000_000 + nanos,
        TOTP_PATH@ == "/login/totp"@,
{
}

/// A session is shown with its account, what that account may do, and where it is, but without
/// its key.
pub proof fn sessions_are_shown_without_their_key(session: AccountSessionView, age: Seq<char>)
    ensures
        session.shown(age) == "AccountSession { account_id: "@ + decimal(
            session.session.auth.account_id as nat,
        ) + ", account_status: "@ + session.session.auth.account_status.shown()
            + ", totp_status: "@ + session.session.auth.totp_status.shown() + ", read_only: "@ + (
        if session.session.auth.read_only {
            "true"@
        } else {
            "false"@
        }) + ", api_base: "@ + debug_quoted(session.api_base) + ", age: "@ + age + ", .. }"@,
{
}

} // verus!
