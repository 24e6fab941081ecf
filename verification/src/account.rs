//! The account commands of the command line.

use vstd::prelude::*;

use crate::api::{ApiError, ApiResult, SigninFail, TotpStatus, WebSession};
use crate::auth::{
    complete_totp, session_answered, sign_in, signed_in, totp_answered, totp_request,
    AccountSession, AccountSessionView, LoginCredentials, ReqLoginTotp, SigninErrorView,
    TotpSubmitFail,
};
use crate::cli::{CliError, CliErrorView};
use crate::client::{PlayitApi, PlayitApiBuilder};
use crate::http_client::{HttpClientError, HttpClientView};
use crate::session::{PersistedSession, SessionStoreError};
use crate::text::{
    decimal, decimal_text, join2, join3, owned, texts, trim, trimmed, trimmed_has_no_outer_whitespace,
};
use crate::tunnels::valid_call_error;
use crate::web_api::WebApiError;

verus! {

/// The parts of the session file's path below the user's configuration directory.
pub fn session_file(config_dir: Option<String>) -> (r: Result<
    (String, &'static str, &'static str),
    CliError,
>)
    ensures
        match config_dir {
            Some(dir) => r is Ok && r->Ok_0.0 == dir && r->Ok_0.1@ == "playit-cli"@ && r->Ok_0.2@
                == "account-session.json"@,
            None => r is Err && r->Err_0@ == CliErrorView::SessionError(
                "could not locate the user config directory"@,
            ),
        },
{
    match config_dir {
        Some(dir) => Ok((dir, "playit-cli", "account-session.json")),
        None => Err(CliError::SessionError(owned("could not locate the user config directory"))),
    }
}

/// The stored session, or the error that tells to log in.
pub fn load_stored_session(loaded: Result<Option<PersistedSession>, SessionStoreError>) -> (r:
    Result<PersistedSession, CliError>)
    ensures
        match loaded {
            Ok(Some(session)) => r == Ok::<PersistedSession, CliError>(session),
            Ok(None) => r is Err && r->Err_0@ == CliErrorView::SessionError(
                "not logged in; run `playit account login` first"@,
            ),
            Err(error) => r is Err && r->Err_0@ == CliErrorView::SessionError(
                "session store unavailable: "@ + error.reason(),
            ),
        },
{
    match loaded {
        Ok(Some(session)) => Ok(session),
        Ok(None) => Err(
            CliError::SessionError(owned("not logged in; run `playit account login` first")),
        ),
        Err(error) => Err(CliError::SessionError(error.to_text())),
    }
}

/// A client with the stored session.
pub fn stored_account_client(stored: &PersistedSession) -> (r: PlayitApi)
    ensures
        r@ == (HttpClientView {
            api_base: stored@.api_base,
            auth_header: Some("Bearer "@ + stored@.session_key),
        }),
{
    PlayitApiBuilder::new(stored.api_base.clone()).bearer(stored.session_key.clone()).build()
}

/// What is told of the stored session. The secret is no part of it.
pub fn run_account_status(stored: &PersistedSession) -> (r: String)
    ensures
        r@ == "account "@ + decimal(stored@.account_id as nat) + " ("@ + stored@.api_base
            + "), saved at unix "@ + decimal(stored@.saved_at_unix as nat),
{
    let id = decimal_text(stored.account_id);
    let saved = decimal_text(stored.saved_at_unix);
    let mut out = join3("account ", id.as_str(), " (");
    out.append(stored.api_base.as_str());
    out.append("), saved at unix ");
    out.append(saved.as_str());
    out
}

/// What is told after the stored session was checked.
pub fn run_account_validate(stored: &PersistedSession, checked: Result<(), WebApiError>) -> (r:
    Result<String, CliError>)
    ensures
        match checked {
            Ok(_) => r is Ok && r->Ok_0@ == "account "@ + decimal(stored@.account_id as nat)
                + " session is valid ("@ + stored@.api_base + ")"@,
            Err(error) => r is Err && r->Err_0@ == CliErrorView::SessionError(error@.shown()),
        },
{
    match checked {
        Ok(_) => {
            let id = decimal_text(stored.account_id);
            let mut out = join3("account ", id.as_str(), " session is valid (");
            out.append(stored.api_base.as_str());
            out.append(")");
            Ok(out)
        },
        Err(error) => Err(CliError::SessionError(error.to_text())),
    }
}

/// What is told after the stored session was checked before a setup with it.
pub fn require_valid_stored_session(
    stored: &PersistedSession,
    checked: Result<(), WebApiError>,
) -> (r: Result<String, CliError>)
    ensures
        match checked {
            Ok(_) => r is Ok && r->Ok_0@ == "using stored account "@ + decimal(
                stored@.account_id as nat,
            ) + " ("@ + stored@.api_base + ")"@,
            Err(error) => r is Err && r->Err_0@ == CliErrorView::SessionError(error@.shown()),
        },
{
    match checked {
        Ok(_) => {
            let id = decimal_text(stored.account_id);
            let mut out = join3("using stored account ", id.as_str(), " (");
            out.append(stored.api_base.as_str());
            out.append(")");
            Ok(out)
        },
        Err(error) => Err(CliError::SessionError(error.to_text())),
    }
}

/// What is told after the stored session was deleted, or was not.
pub fn run_account_logout(cleared: Result<(), SessionStoreError>) -> (r: Result<String, CliError>)
    ensures
        match cleared {
            Ok(_) => r is Ok && r->Ok_0@ == "account session cleared"@,
            Err(error) => r is Err && r->Err_0@ == CliErrorView::SessionError(
                "session store unavailable: "@ + error.reason(),
            ),
        },
{
    match cleared {
        Ok(_) => Ok(owned("account session cleared")),
        Err(error) => Err(CliError::SessionError(error.to_text())),
    }
}

/// What is told of a new session, in one line or two.
pub open spec fn session_lines(session: AccountSessionView) -> Seq<Seq<char>> {
    let first = "signed in as account "@ + decimal(session.session.auth.account_id as nat) + " ("@
        + session.session.auth.account_status.shown() + ")"@;
    if session.session.auth.totp_status == TotpStatus::Required {
        seq![
            first,
            "the stored session still requires a TOTP code; run `playit account login` again to complete it."@,
        ]
    } else {
        seq![first]
    }
}

/// What is told of a new session, in one line or two.
pub fn report_session(session: &AccountSession) -> (r: Vec<String>)
    ensures
        texts(r@) == session_lines(session@),
{
    let id = decimal_text(session.account_id());
    let status = session.account_status();
    let mut out = join3("signed in as account ", id.as_str(), " (");
    out.append(status.name());
    out.append(")");
    let mut lines: Vec<String> = Vec::new();
    lines.push(out);
    if session.requires_totp() {
        lines.push(
            owned(
                "the stored session still requires a TOTP code; run `playit account login` again to complete it.",
            ),
        );
    }
    assert(texts(lines@) =~= session_lines(session@));
    lines
}

// ---------------------------------------------------------------------------
// Signing in
// ---------------------------------------------------------------------------

/// What came of a login's last step.
pub enum LoginEvent {
    /// The API at this address answered the credentials.
    SignedIn { api_base: String, answer: Result<WebSession, ApiError<SigninFail>> },
    /// The API answered the one-time code for the pending session.
    TotpAnswered {
        pending: AccountSession,
        outcome: Result<ApiResult<WebSession, TotpSubmitFail>, HttpClientError>,
    },
    /// The session was stored, or was not.
    Stored(Result<(), SessionStoreError>),
}

/// What a login does next.
pub enum LoginNext {
    /// Ask the user for a one-time code, and submit it with this session.
    AskTotp(AccountSession),
    /// Store this session.
    Store(AccountSession),
    Done,
    Fail(CliError),
}

/// The model of a [`LoginNext`].
#[verifier::ext_equal]
pub enum LoginNextView {
    AskTotp(AccountSessionView),
    Store(AccountSessionView),
    Done,
    Fail(CliErrorView),
}

impl View for LoginNext {
    type V = LoginNextView;

    open spec fn view(&self) -> LoginNextView {
        match *self {
            LoginNext::AskTotp(session) => LoginNextView::AskTotp(session@),
            LoginNext::Store(session) => LoginNextView::Store(session@),
            LoginNext::Done => LoginNextView::Done,
            LoginNext::Fail(error) => LoginNextView::Fail(error@),
        }
    }
}

/// What a login shows, one text after the other, and what it does then.
pub struct LoginStep {
    pub show: Vec<String>,
    pub next: LoginNext,
}

/// The model of a [`LoginStep`].
#[verifier::ext_equal]
pub struct LoginStepView {
    pub show: Seq<Seq<char>>,
    pub next: LoginNextView,
}

impl View for LoginStep {
    type V = LoginStepView;

    open spec fn view(&self) -> LoginStepView {
        LoginStepView { show: texts(self.show@), next: self.next@ }
    }
}

pub open spec fn login_failed(message: Seq<char>) -> LoginStepView {
    LoginStepView {
        show: Seq::empty(),
        next: LoginNextView::Fail(CliErrorView::SessionError(message)),
    }
}

/// What follows an event of a login.
pub open spec fn after_login(event: LoginEvent) -> LoginStepView {
    match event {
        LoginEvent::SignedIn { api_base, answer } => match session_answered(api_base@, answer) {
            Err(error) => login_failed(error.shown()),
            Ok(session) => if session.session.auth.totp_status == TotpStatus::Required {
                LoginStepView {
                    show: seq!["this account requires a TOTP code"@],
                    next: LoginNextView::AskTotp(session),
                }
            } else {
                LoginStepView {
                    show: session_lines(session),
                    next: LoginNextView::Store(session),
                }
            },
        },
        LoginEvent::TotpAnswered { pending, outcome } => match totp_answered(pending@, outcome) {
            Err(error) => login_failed(error.shown()),
            Ok(session) => LoginStepView {
                show: session_lines(session),
                next: LoginNextView::Store(session),
            },
        },
        LoginEvent::Stored(Ok(_)) => LoginStepView {
            show: seq!["account session stored"@],
            next: LoginNextView::Done,
        },
        LoginEvent::Stored(Err(error)) => login_failed(
            "session store unavailable: "@ + error.reason(),
        ),
    }
}

fn login_step(line: Option<&str>, next: LoginNext) -> (r: LoginStep)
    ensures
        r@ == (LoginStepView {
            show: match line {
                Some(text) => seq![text@],
                None => Seq::empty(),
            },
            next: next@,
        }),
{
    let mut lines: Vec<String> = Vec::new();
    match line {
        Some(text) => {
            lines.push(owned(text));
            assert(texts(lines@) =~= seq![text@]);
        },
        None => {
            assert(texts(lines@) =~= Seq::empty());
        },
    }
    LoginStep { show: lines, next }
}

/// What follows an event of a login.
pub fn run_account_login(event: LoginEvent) -> (r: LoginStep)
    requires
        event matches LoginEvent::SignedIn { answer: Err(error), .. } ==> valid_call_error(error),
    ensures
        r@ == after_login(event),
{
    match event {
        LoginEvent::SignedIn { api_base, answer } => match signed_in(api_base.as_str(), answer) {
            Err(error) => login_step(
                None,
                LoginNext::Fail(CliError::SessionError(error.to_text())),
            ),
            Ok(session) => if session.requires_totp() {
                login_step(
                    Some("this account requires a TOTP code"),
                    LoginNext::AskTotp(session),
                )
            } else {
                LoginStep { show: report_session(&session), next: LoginNext::Store(session) }
            },
        },
        LoginEvent::TotpAnswered { pending, outcome } => match complete_totp(&pending, outcome) {
            Err(error) => login_step(
                None,
                LoginNext::Fail(CliError::SessionError(error.to_text())),
            ),
            Ok(session) => LoginStep {
                show: report_session(&session),
                next: LoginNext::Store(session),
            },
        },
        LoginEvent::Stored(Ok(_)) => login_step(Some("account session stored"), LoginNext::Done),
        LoginEvent::Stored(Err(error)) => login_step(
            None,
            LoginNext::Fail(CliError::SessionError(error.to_text())),
        ),
    }
}

/// A session is stored only if it needs no one-time code or the API accepted one for it, and
/// it is the session that the API answered; a code is asked for exactly if the session needs
/// one.
pub proof fn sessions_are_completed_before_they_are_stored(event: LoginEvent)
    ensures
        after_login(event).next matches LoginNextView::Store(session) ==> {
            ||| event matches LoginEvent::SignedIn { api_base, answer: Ok(answered) }
                && session.session == answered@ && session.api_base == api_base@
                && session.session.auth.totp_status != TotpStatus::Required
            ||| event matches LoginEvent::TotpAnswered {
                pending,
                outcome: Ok(ApiResult::Success(answered)),
            } && session.session == answered@ && session.api_base == pending@.api_base
        },
        after_login(event).next matches LoginNextView::AskTotp(session) ==> event
            is SignedIn && session.session.auth.totp_status == TotpStatus::Required,
        event matches LoginEvent::SignedIn { answer: Ok(answered), .. } && answered@.auth.totp_status
            == TotpStatus::Required ==> after_login(event).next is AskTotp,
{
}

/// Where the password comes from.
pub enum PasswordSource {
    /// A line of the standard input.
    Stdin,
    /// This one.
    Given(String),
    /// A line of the standard input, after a warning that it is echoed.
    EchoedStdin,
}

/// Where the password comes from; `environment` is the value of the variable for it. An
/// empty variable is an error.
pub fn read_password(password_stdin: bool, environment: Option<String>) -> (r: Result<
    PasswordSource,
    CliError,
>)
    ensures
        if password_stdin {
            r == Ok::<PasswordSource, CliError>(PasswordSource::Stdin)
        } else {
            match environment {
                Some(password) => if password@.len() == 0 {
                    r is Err && r->Err_0@ == CliErrorView::SessionError(
                        "PLAYIT_PASSWORD is set but empty"@,
                    )
                } else {
                    r == Ok::<PasswordSource, CliError>(PasswordSource::Given(password))
                },
                None => r == Ok::<PasswordSource, CliError>(PasswordSource::EchoedStdin),
            }
        },
{
    if password_stdin {
        return Ok(PasswordSource::Stdin);
    }
    match environment {
        Some(password) => if password.as_str().is_empty() {
            Err(CliError::SessionError(owned("PLAYIT_PASSWORD is set but empty")))
        } else {
            Ok(PasswordSource::Given(password))
        },
        None => Ok(PasswordSource::EchoedStdin),
    }
}

/// A line without the characters that end it.
pub open spec fn line_content(line: Seq<char>) -> Seq<char>
    decreases line.len(),
{
    if line.len() > 0 && (line.last() == '\r' || line.last() == '\n') {
        line_content(line.drop_last())
    } else {
        line
    }
}

/// The password on a line: all of it but the characters that end the line, so that spaces
/// at its ends are kept.
pub fn read_stdin_line(line: &str) -> (r: String)
    ensures
        r@ == line_content(line@),
{
    let mut end: usize = line.unicode_len();
    assert(line@.take(end as int) == line@);
    while end > 0 && (line.get_char(end - 1) == '\r' || line.get_char(end - 1) == '\n')
        invariant
            end <= line@.len(),
            line_content(line@) == line_content(line@.take(end as int)),
        decreases end,
    {
        assert(line@.take(end as int).drop_last() == line@.take(end - 1));
        end = end - 1;
    }
    assert(line@.subrange(0, end as int) == line@.take(end as int));
    owned(line.substring_char(0, end))
}

/// What to send to sign in with an email and a password as they were given: the email without
/// the whitespace at its ends, the password as it is. Where one of them is missing nothing is
/// sent.
pub fn login_credentials(email: &str, password: &str) -> (r: Result<LoginCredentials, CliError>)
    ensures
        if trimmed(email@).len() == 0 || password@.len() == 0 {
            r is Err && r->Err_0@ == CliErrorView::SessionError(
                SigninErrorView::EmptyCredentials.shown(),
            )
        } else {
            r is Ok && r->Ok_0.email@ == trimmed(email@) && r->Ok_0.password@ == password@
        },
{
    proof {
        trimmed_has_no_outer_whitespace(email@);
    }
    match sign_in(trim(email), password) {
        Ok(credentials) => Ok(credentials),
        Err(error) => Err(CliError::SessionError(error.to_text())),
    }
}

/// What to send for a one-time code as it was given: the code without the whitespace at its
/// ends.
pub fn login_code(code: &str) -> (r: ReqLoginTotp)
    ensures
        r.code@ == trimmed(code@),
{
    totp_request(trim(code))
}

/// The answer on a line that was asked for: all of it but the whitespace at its ends.
pub fn prompted_line(line: &str) -> (r: String)
    ensures
        r@ == trimmed(line@),
{
    owned(trim(line))
}

/// The text that asks for an answer.
pub fn prompt_line(prompt: &str) -> (r: String)
    ensures
        r@ == prompt@ + ": "@,
{
    join2(prompt, ": ")
}

/// A session that needs no one-time code is told and stored at once, and so is the one that a code
/// completed; a session that needs a code is completed first. Whatever fails ends the login with
/// the reason, and a stored session ends it well.
pub proof fn logins_lead_to_a_stored_session(event: LoginEvent)
    ensures
        event matches LoginEvent::SignedIn { api_base, answer: Ok(session) } ==> {
            let signed = AccountSessionView { session: session@, api_base: api_base@ };
            &&& session@.auth.totp_status == TotpStatus::Required ==> after_login(event).next
                == LoginNextView::AskTotp(signed) && after_login(event).show == seq![
                "this account requires a TOTP code"@,
            ]
            &&& session@.auth.totp_status != TotpStatus::Required ==> after_login(event).next
                == LoginNextView::Store(signed) && after_login(event).show == session_lines(signed)
        },
        event matches LoginEvent::TotpAnswered { pending, outcome: Ok(ApiResult::Success(session)) }
            ==> after_login(event).next == LoginNextView::Store(
            AccountSessionView { session: session@, api_base: pending@.api_base },
        ),
        event matches LoginEvent::SignedIn { answer: Err(_), .. } ==> after_login(event).next
            is Fail,
        event matches LoginEvent::TotpAnswered { outcome: Err(_), .. } ==> after_login(event).next
            is Fail,
        event matches LoginEvent::TotpAnswered { outcome: Ok(ApiResult::Fail(_)), .. }
            ==> after_login(event).next is Fail,
        event matches LoginEvent::Stored(Ok(_)) ==> after_login(event).next is Done && after_login(
            event,
        ).show == seq!["account session stored"@],
        event matches LoginEvent::Stored(Err(error)) ==> after_login(event).next
            == LoginNextView::Fail(
            CliErrorView::SessionError("session store unavailable: "@ + error.reason()),
        ),
        after_login(event).next matches LoginNextView::Fail(error) ==> error is SessionError
            && after_login(event).show.len() == 0,
{
}

/// What is told of a session names its account and the account's status, and warns exactly if the
/// session still needs a one-time code.
pub proof fn sessions_are_told_by_their_account(session: AccountSessionView)
    ensures
        session_lines(session).len() == if session.session.auth.totp_status
            == TotpStatus::Required {
            2int
        } else {
            1
        },
        session_lines(session)[0] == "signed in as account "@ + decimal(
            session.session.auth.account_id as nat,
        ) + " ("@ + session.session.auth.account_status.shown() + ")"@,
{
}

/// Of a line that was typed everything counts but the characters at its very end that end it.
pub proof fn lines_keep_their_content(line: Seq<char>)
    ensures
        line_content(line).len() <= line.len(),
        line_content(line) == line.take(line_content(line).len() as int),
        line_content(line).len() > 0 ==> line_content(line).last() != '\r' && line_content(
            line,
        ).last() != '\n',
        forall|i: int|
            line_content(line).len() <= i < line.len() ==> (#[trigger] line[i]) == '\r' || line[i]
                == '\n',
    decreases line.len(),
{
    if line.len() > 0 && (line.last() == '\r' || line.last() == '\n') {
        let rest = line.drop_last();
        lines_keep_their_content(rest);
        assert(line_content(line) =~= line.take(line_content(line).len() as int));
        assert forall|i: int| line_content(line).len() <= i < line.len() implies (
        #[trigger] line[i]) == '\r' || line[i] == '\n' by {
            if i < rest.len() {
                assert(rest[i] == line[i]);
            }
        }
    } else {
        assert(line.take(line.len() as int) =~= line);
    }
}

} // verus!
