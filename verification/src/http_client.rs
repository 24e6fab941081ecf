//! The HTTP side of the API client: credentials, retries and transport errors.

use vstd::prelude::*;

use crate::api::RetryPolicy;
use crate::outside::{
    debug_quoted, http_date_secs, http_status_text, parse_http_date, quote_debug, status_text,
};
use crate::text::{
    copy_opt, decimal, decimal_text, has_prefix, join2, join3, opt_text, owned, parse_number,
    starts_with, text_number, trim, trimmed,
};

verus! {

// ---------------------------------------------------------------------------
// Credentials
// ---------------------------------------------------------------------------

/// The credential of an API request.
///
/// Call sites say which credential they use. The secret is handed out only in the
/// header value of a request: what is shown of a credential never holds it.
pub enum AuthState {
    /// No credential.
    Anonymous,
    /// A long-lived agent secret, sent as `Authorization: Agent-Key <secret>`.
    AgentKey(String),
    /// An account session key, sent as `Authorization: Bearer <key>`.
    Bearer(String),
}

/// The model of an [`AuthState`].
#[verifier::ext_equal]
pub enum AuthStateView {
    Anonymous,
    AgentKey(Seq<char>),
    Bearer(Seq<char>),
}

impl View for AuthState {
    type V = AuthStateView;

    open spec fn view(&self) -> AuthStateView {
        match *self {
            AuthState::Anonymous => AuthStateView::Anonymous,
            AuthState::AgentKey(secret) => AuthStateView::AgentKey(secret@),
            AuthState::Bearer(token) => AuthStateView::Bearer(token@),
        }
    }
}

impl AuthStateView {
    /// The value of the `Authorization` header.
    pub open spec fn header(self) -> Option<Seq<char>> {
        match self {
            AuthStateView::Anonymous => None,
            AuthStateView::AgentKey(secret) => Some("Agent-Key "@ + secret),
            AuthStateView::Bearer(token) => Some("Bearer "@ + token),
        }
    }

    /// The family of the credential.
    pub open spec fn kind(self) -> Seq<char> {
        match self {
            AuthStateView::Anonymous => "anonymous"@,
            AuthStateView::AgentKey(_) => "agent"@,
            AuthStateView::Bearer(_) => "account"@,
        }
    }

    /// What may be shown of the credential.
    pub open spec fn shown(self) -> Seq<char> {
        match self {
            AuthStateView::Anonymous => "Anonymous"@,
            AuthStateView::AgentKey(_) => "AgentKey(<redacted>)"@,
            AuthStateView::Bearer(_) => "Bearer(<redacted>)"@,
        }
    }

    /// Two credentials of one family, whatever their secrets are.
    pub open spec fn same_family(self, other: Self) -> bool {
        match (self, other) {
            (AuthStateView::Anonymous, AuthStateView::Anonymous) => true,
            (AuthStateView::AgentKey(_), AuthStateView::AgentKey(_)) => true,
            (AuthStateView::Bearer(_), AuthStateView::Bearer(_)) => true,
            _ => false,
        }
    }
}

impl AuthState {
    /// No credential.
    pub fn anonymous() -> (r: Self)
        ensures
            r@ == AuthStateView::Anonymous,
    {
        AuthState::Anonymous
    }

    /// An agent secret, without surrounding whitespace.
    pub fn agent_key(secret: String) -> (r: Self)
        ensures
            r@ == AuthStateView::AgentKey(trimmed(secret@)),
    {
        AuthState::AgentKey(owned(trim(secret.as_str())))
    }

    /// An account session key.
    pub fn bearer(token: String) -> (r: Self)
        ensures
            r@ == AuthStateView::Bearer(token@),
    {
        AuthState::Bearer(token)
    }

    /// The value of the `Authorization` header, if any.
    pub fn header_value(&self) -> (r: Option<String>)
        ensures
            opt_text(r) == self@.header(),
    {
        match self {
            AuthState::Anonymous => None,
            AuthState::AgentKey(secret) => Some(join2("Agent-Key ", secret.as_str())),
            AuthState::Bearer(token) => Some(join2("Bearer ", token.as_str())),
        }
    }

    /// The family of the credential, safe to log and trace.
    pub fn kind(&self) -> (r: &'static str)
        ensures
            r@ == self@.kind(),
    {
        match self {
            AuthState::Anonymous => "anonymous",
            AuthState::AgentKey(_) => "agent",
            AuthState::Bearer(_) => "account",
        }
    }

    /// The credential with its secret left out.
    pub fn debug_text(&self) -> (r: &'static str)
        ensures
            r@ == self@.shown(),
    {
        match self {
            AuthState::Anonymous => "Anonymous",
            AuthState::AgentKey(_) => "AgentKey(<redacted>)",
            AuthState::Bearer(_) => "Bearer(<redacted>)",
        }
    }
}

impl Clone for AuthState {
    fn clone(&self) -> (r: Self)
        ensures
            r == *self,
    {
        match self {
            AuthState::Anonymous => AuthState::Anonymous,
            AuthState::AgentKey(secret) => AuthState::AgentKey(secret.clone()),
            AuthState::Bearer(token) => AuthState::Bearer(token.clone()),
        }
    }
}

/// The families of credentials that an endpoint accepts.
#[derive(Clone, Copy, Debug, PartialEq, Eq, Structural)]
pub enum AuthPolicy {
    Anonymous,
    Agent,
    Account,
    AgentOrAccount,
}

impl AuthPolicy {
    /// Whether a credential satisfies this policy.
    pub open spec fn accepts(self, auth: AuthStateView) -> bool {
        match self {
            AuthPolicy::Anonymous => auth is Anonymous,
            AuthPolicy::Agent => auth is AgentKey,
            AuthPolicy::Account => auth is Bearer,
            AuthPolicy::AgentOrAccount => !(auth is Anonymous),
        }
    }

    /// Whether `auth` satisfies this policy.
    pub fn allows(&self, auth: &AuthState) -> (r: bool)
        ensures
            r == self.accepts(auth@),
    {
        match (self, auth) {
            (AuthPolicy::Anonymous, AuthState::Anonymous) => true,
            (AuthPolicy::Agent, AuthState::AgentKey(_)) => true,
            (AuthPolicy::Account, AuthState::Bearer(_)) => true,
            (AuthPolicy::AgentOrAccount, AuthState::AgentKey(_)) => true,
            (AuthPolicy::AgentOrAccount, AuthState::Bearer(_)) => true,
            _ => false,
        }
    }
}

/// What is shown and logged of a credential does not depend on its secret.
pub proof fn shown_credentials_hide_their_secret(a: AuthStateView, b: AuthStateView)
    requires
        a.same_family(b),
    ensures
        a.shown() == b.shown(),
        a.kind() == b.kind(),
{
}

/// A policy looks at the family of a credential alone, and each credential but the
/// missing one satisfies exactly the policy of its family and the combined one.
pub proof fn policies_accept_by_family(auth: AuthStateView, other: AuthStateView, policy: AuthPolicy)
    requires
        auth.same_family(other),
    ensures
        policy.accepts(auth) == policy.accepts(other),
        AuthPolicy::AgentOrAccount.accepts(auth) == (AuthPolicy::Agent.accepts(auth)
            || AuthPolicy::Account.accepts(auth)),
        !(AuthPolicy::Agent.accepts(auth) && AuthPolicy::Account.accepts(auth)),
        AuthPolicy::Anonymous.accepts(auth) == (auth.header() is None),
{
}

// ---------------------------------------------------------------------------
// The client
// ---------------------------------------------------------------------------

/// The address and the credential that API requests are made with.
pub struct HttpClient {
    pub api_base: String,
    pub auth_header: Option<String>,
}

/// The model of an [`HttpClient`].
#[verifier::ext_equal]
pub struct HttpClientView {
    pub api_base: Seq<char>,
    pub auth_header: Option<Seq<char>>,
}

impl View for HttpClient {
    type V = HttpClientView;

    open spec fn view(&self) -> HttpClientView {
        HttpClientView { api_base: self.api_base@, auth_header: opt_text(self.auth_header) }
    }
}

/// The family of the credential that an `Authorization` header carries.
pub open spec fn header_kind(header: Option<Seq<char>>) -> Seq<char> {
    match header {
        None => "anonymous"@,
        Some(value) => if has_prefix(value, "Agent-Key "@) {
            "agent"@
        } else if has_prefix(value, "Bearer "@) {
            "account"@
        } else {
            "unknown"@
        },
    }
}

impl HttpClient {
    pub fn new(api_base: String, auth_header: Option<String>) -> (r: Self)
        ensures
            r@ == (HttpClientView { api_base: api_base@, auth_header: opt_text(auth_header) }),
    {
        HttpClient { api_base, auth_header }
    }

    /// A client with a credential.
    pub fn new_with_auth(api_base: String, auth: AuthState) -> (r: Self)
        ensures
            r@ == (HttpClientView { api_base: api_base@, auth_header: auth@.header() }),
    {
        HttpClient::new(api_base, auth.header_value())
    }

    pub fn api_base(&self) -> (r: &str)
        ensures
            r@ == self@.api_base,
    {
        self.api_base.as_str()
    }

    /// Send no credential from now on.
    pub fn remove_auth(&mut self)
        ensures
            final(self)@ == (HttpClientView { auth_header: None, ..old(self)@ }),
    {
        self.auth_header = None;
    }

    /// Send this credential from now on.
    pub fn set_auth(&mut self, auth: AuthState)
        ensures
            final(self)@ == (HttpClientView { auth_header: auth@.header(), ..old(self)@ }),
    {
        self.auth_header = auth.header_value();
    }

    /// The family of the credential in use, safe to log and trace.
    pub fn auth_kind(&self) -> (r: &'static str)
        ensures
            r@ == header_kind(self@.auth_header),
    {
        match &self.auth_header {
            None => "anonymous",
            Some(value) => if starts_with(value.as_str(), "Agent-Key ") {
                "agent"
            } else if starts_with(value.as_str(), "Bearer ") {
                "account"
            } else {
                "unknown"
            },
        }
    }

    /// The URL that a call of `path` is posted to.
    pub fn request_url(&self, path: &str) -> (r: String)
        ensures
            r@ == self@.api_base + path@,
    {
        join2(self.api_base.as_str(), path)
    }

    /// The client with its credential left out.
    pub fn debug_text(&self) -> (r: String)
        ensures
            r@ == "HttpClient { api_base: "@ + debug_quoted(self@.api_base)
                + ", auth: \"<redacted>\", .. }"@,
    {
        let base = quote_debug(self.api_base.as_str());
        join3("HttpClient { api_base: ", base.as_str(), ", auth: \"<redacted>\", .. }")
    }
}

impl Clone for HttpClient {
    fn clone(&self) -> (r: Self)
        ensures
            r == *self,
    {
        HttpClient { api_base: self.api_base.clone(), auth_header: copy_opt(&self.auth_header) }
    }
}

proof fn lemma_prefix_of_sum(a: Seq<char>, b: Seq<char>)
    ensures
        has_prefix(a + b, a),
{
    assert((a + b).take(a.len() as int) == a);
}

/// A client that was given a credential reports the credential's family.
pub proof fn clients_report_the_kind_of_their_credential(auth: AuthStateView)
    ensures
        header_kind(auth.header()) == auth.kind(),
{
    reveal_strlit("Agent-Key ");
    reveal_strlit("Bearer ");
    match auth {
        AuthStateView::Anonymous => {},
        AuthStateView::AgentKey(secret) => {
            lemma_prefix_of_sum("Agent-Key "@, secret);
        },
        AuthStateView::Bearer(token) => {
            lemma_prefix_of_sum("Bearer "@, token);
            let value = "Bearer "@ + token;
            if has_prefix(value, "Agent-Key "@) {
                assert(value.take(10)[0] == 'B');
                assert("Agent-Key "@[0] == 'A');
            }
        },
    }
}

// ---------------------------------------------------------------------------
// Transport errors
// ---------------------------------------------------------------------------

/// What is known of a request that got no answer.
#[derive(Clone, Copy, Debug, PartialEq, Eq, Structural)]
pub struct RequestFailure {
    pub connect: bool,
    pub timeout: bool,
    pub request: bool,
    pub body: bool,
}

/// A JSON error: its message and its debugging text.
#[derive(Debug)]
pub struct JsonFailure {
    pub message: String,
    pub debug: String,
}

/// Why an API call got no usable answer.
#[derive(Debug)]
pub enum HttpClientError {
    SerializeError(JsonFailure),
    ParseError(JsonFailure, u16),
    RequestError(RequestFailure),
    TooManyRequests,
}

/// The model of an [`HttpClientError`]; a JSON error is its message and its
/// debugging text.
#[verifier::ext_equal]
pub enum HttpClientErrorView {
    SerializeError(Seq<char>, Seq<char>),
    ParseError(Seq<char>, Seq<char>, u16),
    RequestError(RequestFailure),
    TooManyRequests,
}

impl View for HttpClientError {
    type V = HttpClientErrorView;

    open spec fn view(&self) -> HttpClientErrorView {
        match *self {
            HttpClientError::SerializeError(e) => HttpClientErrorView::SerializeError(
                e.message@,
                e.debug@,
            ),
            HttpClientError::ParseError(e, status) => HttpClientErrorView::ParseError(
                e.message@,
                e.debug@,
                status,
            ),
            HttpClientError::RequestError(failure) => HttpClientErrorView::RequestError(failure),
            HttpClientError::TooManyRequests => HttpClientErrorView::TooManyRequests,
        }
    }
}

/// The status codes that the server answers when it asks the client to come back.
pub open spec fn is_busy_status(status: u16) -> bool {
    status == 429 || 500 <= status <= 599
}

impl RequestFailure {
    /// A failure on the way to the server or back.
    pub open spec fn retryable(self) -> bool {
        self.connect || self.timeout || self.request || self.body
    }
}

pub open spec fn shown_bool(b: bool) -> Seq<char> {
    if b {
        "true"@
    } else {
        "false"@
    }
}

fn bool_text(b: bool) -> (r: &'static str)
    ensures
        r@ == shown_bool(b),
{
    if b {
        "true"
    } else {
        "false"
    }
}

/// The message for an answer that could not be read, with its status as it is shown.
pub open spec fn unreadable_answer(status: Seq<char>, message: Seq<char>) -> Seq<char> {
    "failed to parse API response ("@ + status + "): "@ + message
}

/// The message for an answer that could not be read, with its status as it is shown.
pub fn parse_error_text(status: &str, message: &str) -> (r: String)
    ensures
        r@ == unreadable_answer(status@, message@),
{
    let mut out = join3("failed to parse API response (", status, "): ");
    out.append(message);
    out
}

impl HttpClientErrorView {
    /// The error may go away by itself.
    pub open spec fn transient(self) -> bool {
        match self {
            HttpClientErrorView::RequestError(failure) => failure.retryable(),
            HttpClientErrorView::ParseError(_, _, status) => is_busy_status(status),
            HttpClientErrorView::TooManyRequests => true,
            HttpClientErrorView::SerializeError(_, _) => false,
        }
    }

    /// The error in words.
    pub open spec fn message(self) -> Seq<char> {
        match self {
            HttpClientErrorView::SerializeError(message, _) => "failed to serialize API request: "@
                + message,
            HttpClientErrorView::ParseError(message, _, status) => unreadable_answer(
                http_status_text(status),
                message,
            ),
            HttpClientErrorView::RequestError(failure) => if failure.timeout {
                "API request timed out"@
            } else if failure.connect {
                "could not connect to the API"@
            } else {
                "API request failed"@
            },
            HttpClientErrorView::TooManyRequests => "API rate limit exceeded"@,
        }
    }

    /// The error with its parts.
    pub open spec fn debugged(self) -> Seq<char> {
        match self {
            HttpClientErrorView::SerializeError(_, debug) => "SerializeError("@ + debug + ")"@,
            HttpClientErrorView::ParseError(_, debug, status) => "ParseError { error: "@ + debug
                + ", status: "@ + decimal(status as nat) + " }"@,
            HttpClientErrorView::RequestError(failure) => "RequestError { connect: "@ + shown_bool(
                failure.connect,
            ) + ", timeout: "@ + shown_bool(failure.timeout) + ", request: "@ + shown_bool(
                failure.request,
            ) + " }"@,
            HttpClientErrorView::TooManyRequests => "TooManyRequests"@,
        }
    }

    /// The error's status, if it has one, is a status code.
    pub open spec fn valid(self) -> bool {
        self matches HttpClientErrorView::ParseError(_, _, status) ==> 100 <= status <= 999
    }
}

impl RequestFailure {
    /// Whether the failure lies on the way to the server or back.
    pub fn is_retryable(&self) -> (r: bool)
        ensures
            r == self.retryable(),
    {
        self.connect || self.timeout || self.request || self.body
    }
}

fn is_busy(status: u16) -> (r: bool)
    ensures
        r == is_busy_status(status),
{
    status == 429 || (500 <= status && status <= 599)
}

impl HttpClientError {
    /// Whether the error may go away by itself.
    pub fn is_transient(&self) -> (r: bool)
        ensures
            r == self@.transient(),
    {
        match self {
            HttpClientError::RequestError(failure) => failure.is_retryable(),
            HttpClientError::ParseError(_, status) => is_busy(*status),
            HttpClientError::TooManyRequests => true,
            HttpClientError::SerializeError(_) => false,
        }
    }

    /// The error in words.
    pub fn to_text(&self) -> (r: String)
        requires
            self@.valid(),
        ensures
            r@ == self@.message(),
    {
        match self {
            HttpClientError::SerializeError(e) => join2(
                "failed to serialize API request: ",
                e.message.as_str(),
            ),
            HttpClientError::ParseError(e, status) => {
                let shown = status_text(*status);
                parse_error_text(shown.as_str(), e.message.as_str())
            },
            HttpClientError::RequestError(failure) => if failure.timeout {
                owned("API request timed out")
            } else if failure.connect {
                owned("could not connect to the API")
            } else {
                owned("API request failed")
            },
            HttpClientError::TooManyRequests => owned("API rate limit exceeded"),
        }
    }

    /// The error with its parts.
    pub fn debug_text(&self) -> (r: String)
        ensures
            r@ == self@.debugged(),
    {
        match self {
            HttpClientError::SerializeError(e) => join3("SerializeError(", e.debug.as_str(), ")"),
            HttpClientError::ParseError(e, status) => {
                let number = decimal_text(*status as u64);
                let mut out = join3("ParseError { error: ", e.debug.as_str(), ", status: ");
                out.append(number.as_str());
                out.append(" }");
                out
            },
            HttpClientError::RequestError(failure) => {
                let mut out = join3(
                    "RequestError { connect: ",
                    bool_text(failure.connect),
                    ", timeout: ",
                );
                out.append(bool_text(failure.timeout));
                out.append(", request: ");
                out.append(bool_text(failure.request));
                out.append(" }");
                out
            },
            HttpClientError::TooManyRequests => owned("TooManyRequests"),
        }
    }
}

// ---------------------------------------------------------------------------
// Retries
// ---------------------------------------------------------------------------

pub const MAX_REQUEST_ATTEMPTS: u32 = 3;

/// Nanoseconds in a second.
pub const SECOND: u128 = 1_000_000_000;

/// The pause before the first repeated request; the second is twice as long.
pub const RETRY_DELAY: u128 = 250_000_000;

/// The longest pause before a repeated request, whatever the server asks for.
pub const MAX_RETRY_DELAY: u128 = 5_000_000_000;

/// The pause that a `Retry-After` header asks for at the time `now`, both in
/// nanoseconds: a number of seconds, or a date to wait for, which is given in seconds.
pub open spec fn pause_asked(value: Seq<char>, date: Option<u64>, now: nat) -> Option<nat> {
    match text_number(trimmed(value), u64::MAX as nat) {
        Ok(seconds) => Some(seconds * SECOND as nat),
        Err(_) => match date {
            Some(at) => Some(
                if at * SECOND > now {
                    (at * SECOND - now) as nat
                } else {
                    0
                },
            ),
            None => None,
        },
    }
}

/// The pause that a `Retry-After` header asks for at the time `now`, both in
/// nanoseconds.
pub open spec fn retry_after_delay(value: Seq<char>, now: nat) -> Option<nat> {
    pause_asked(value, http_date_secs(trimmed(value)), now)
}

pub open spec fn min_nat(a: nat, b: nat) -> nat {
    if a <= b {
        a
    } else {
        b
    }
}

/// The pause after a failed attempt, counted from 0.
pub open spec fn delay_after(attempt: nat, retry_after: Option<Seq<char>>, now: nat) -> nat {
    let asked = match retry_after {
        Some(value) => retry_after_delay(value, now),
        None => None,
    };
    match asked {
        Some(delay) => min_nat(delay, MAX_RETRY_DELAY as nat),
        None => min_nat(RETRY_DELAY as nat * (attempt + 1), MAX_RETRY_DELAY as nat),
    }
}

/// What came of one attempt at a request. `retry_after` is the text of the header of
/// that name, where the answer has one that is text.
#[derive(Debug)]
pub enum AttemptOutcome {
    /// The request could not be made.
    NotBuilt(RequestFailure),
    /// The request was not answered.
    NotAnswered(RequestFailure),
    /// The answer broke off before its end.
    BodyLost { failure: RequestFailure, retry_after: Option<String> },
    /// The whole answer came.
    Answered { status: u16, retry_after: Option<String>, body: String },
}

/// What follows an attempt at a request.
#[derive(Debug)]
pub enum CallStep {
    /// Wait so many nanoseconds, then send the request again.
    Retry { delay_nanos: u128 },
    /// Give up.
    Fail(HttpClientError),
    /// Read the answer.
    Parse { status: u16, body: String },
}

/// The model of an [`AttemptOutcome`].
#[verifier::ext_equal]
pub enum AttemptOutcomeView {
    NotBuilt(RequestFailure),
    NotAnswered(RequestFailure),
    BodyLost { failure: RequestFailure, retry_after: Option<Seq<char>> },
    Answered { status: u16, retry_after: Option<Seq<char>>, body: Seq<char> },
}

/// The model of a [`CallStep`].
#[verifier::ext_equal]
pub enum CallStepView {
    Retry { delay_nanos: nat },
    Fail(HttpClientErrorView),
    Parse { status: u16, body: Seq<char> },
}

impl View for AttemptOutcome {
    type V = AttemptOutcomeView;

    open spec fn view(&self) -> AttemptOutcomeView {
        match *self {
            AttemptOutcome::NotBuilt(failure) => AttemptOutcomeView::NotBuilt(failure),
            AttemptOutcome::NotAnswered(failure) => AttemptOutcomeView::NotAnswered(failure),
            AttemptOutcome::BodyLost { failure, retry_after } => AttemptOutcomeView::BodyLost {
                failure,
                retry_after: opt_text(retry_after),
            },
            AttemptOutcome::Answered { status, retry_after, body } => AttemptOutcomeView::Answered {
                status,
                retry_after: opt_text(retry_after),
                body: body@,
            },
        }
    }
}

impl View for CallStep {
    type V = CallStepView;

    open spec fn view(&self) -> CallStepView {
        match *self {
            CallStep::Retry { delay_nanos } => CallStepView::Retry {
                delay_nanos: delay_nanos as nat,
            },
            CallStep::Fail(error) => CallStepView::Fail(error@),
            CallStep::Parse { status, body } => CallStepView::Parse { status, body: body@ },
        }
    }
}

/// How often a request is sent at most.
pub open spec fn max_attempts(policy: RetryPolicy) -> nat {
    match policy {
        RetryPolicy::Never => 1,
        RetryPolicy::Transient => MAX_REQUEST_ATTEMPTS as nat,
    }
}

/// The `Retry-After` header that an attempt brought.
pub open spec fn outcome_retry_after(outcome: AttemptOutcomeView) -> Option<Seq<char>> {
    match outcome {
        AttemptOutcomeView::BodyLost { retry_after, .. } => retry_after,
        AttemptOutcomeView::Answered { retry_after, .. } => retry_after,
        _ => None,
    }
}

/// Sending the request again could help.
pub open spec fn worth_retrying(outcome: AttemptOutcomeView) -> bool {
    match outcome {
        AttemptOutcomeView::NotBuilt(_) => false,
        AttemptOutcomeView::NotAnswered(failure) => failure.retryable(),
        AttemptOutcomeView::BodyLost { failure, .. } => failure.retryable(),
        AttemptOutcomeView::Answered { status, .. } => is_busy_status(status),
    }
}

/// What follows attempt number `attempt`, counted from 0, at the time `now`.
pub open spec fn step_after(
    policy: RetryPolicy,
    attempt: nat,
    outcome: AttemptOutcomeView,
    now: nat,
) -> CallStepView {
    if attempt + 1 < max_attempts(policy) && worth_retrying(outcome) {
        CallStepView::Retry { delay_nanos: delay_after(attempt, outcome_retry_after(outcome), now) }
    } else {
        match outcome {
            AttemptOutcomeView::NotBuilt(failure) => CallStepView::Fail(
                HttpClientErrorView::RequestError(failure),
            ),
            AttemptOutcomeView::NotAnswered(failure) => CallStepView::Fail(
                HttpClientErrorView::RequestError(failure),
            ),
            AttemptOutcomeView::BodyLost { failure, .. } => CallStepView::Fail(
                HttpClientErrorView::RequestError(failure),
            ),
            AttemptOutcomeView::Answered { status, body, .. } => if status == 429 {
                CallStepView::Fail(HttpClientErrorView::TooManyRequests)
            } else {
                CallStepView::Parse { status, body }
            },
        }
    }
}

/// The pause that a `Retry-After` header asks for at the time `now`, in nanoseconds.
pub fn parse_retry_after(value: &str, now_nanos: u128) -> (r: Option<u128>)
    ensures
        match r {
            Some(delay) => retry_after_delay(value@, now_nanos as nat) == Some(delay as nat),
            None => retry_after_delay(value@, now_nanos as nat) is None,
        },
{
    retry_after_with(value, parse_http_date(trim(value)), now_nanos)
}

/// The pause that a `Retry-After` header asks for at the time `now`, in nanoseconds,
/// given the date that it denotes if it is one, in seconds.
pub fn retry_after_with(value: &str, date: Option<u64>, now_nanos: u128) -> (r: Option<u128>)
    ensures
        match r {
            Some(delay) => pause_asked(value@, date, now_nanos as nat) == Some(delay as nat),
            None => pause_asked(value@, date, now_nanos as nat) is None,
        },
{
    match parse_number(trim(value), u64::MAX) {
        Ok(seconds) => Some(seconds as u128 * SECOND),
        Err(_) => match date {
            Some(at) => {
                let at_nanos: u128 = at as u128 * SECOND;
                if at_nanos > now_nanos {
                    Some(at_nanos - now_nanos)
                } else {
                    Some(0)
                }
            },
            None => None,
        },
    }
}

/// The pause after a failed attempt, counted from 0, in nanoseconds.
pub fn retry_delay(attempt: u32, retry_after: Option<&str>, now_nanos: u128) -> (r: u128)
    ensures
        r == delay_after(
            attempt as nat,
            match retry_after {
                Some(value) => Some(value@),
                None => None,
            },
            now_nanos as nat,
        ),
        r <= MAX_RETRY_DELAY,
{
    let asked = match retry_after {
        Some(value) => parse_retry_after(value, now_nanos),
        None => None,
    };
    let delay: u128 = match asked {
        Some(delay) => delay,
        None => RETRY_DELAY * (attempt as u128 + 1),
    };
    if delay <= MAX_RETRY_DELAY {
        delay
    } else {
        MAX_RETRY_DELAY
    }
}

fn borrowed(value: &Option<String>) -> (r: Option<&str>)
    ensures
        opt_text(*value) == match r {
            Some(v) => Some(v@),
            None => None,
        },
{
    match value {
        Some(value) => Some(value.as_str()),
        None => None,
    }
}

/// What follows attempt number `attempt`, counted from 0, at the time `now_nanos`.
pub fn after_attempt(
    policy: RetryPolicy,
    attempt: u32,
    outcome: AttemptOutcome,
    now_nanos: u128,
) -> (r: CallStep)
    requires
        attempt < max_attempts(policy),
    ensures
        r@ == step_after(policy, attempt as nat, outcome@, now_nanos as nat),
{
    let max: u32 = match policy {
        RetryPolicy::Never => 1,
        RetryPolicy::Transient => MAX_REQUEST_ATTEMPTS,
    };
    let again = attempt + 1 < max;
    match outcome {
        AttemptOutcome::NotBuilt(failure) => CallStep::Fail(HttpClientError::RequestError(failure)),
        AttemptOutcome::NotAnswered(failure) => if again && failure.is_retryable() {
            CallStep::Retry { delay_nanos: retry_delay(attempt, None, now_nanos) }
        } else {
            CallStep::Fail(HttpClientError::RequestError(failure))
        },
        AttemptOutcome::BodyLost { failure, retry_after } => if again && failure.is_retryable() {
            CallStep::Retry { delay_nanos: retry_delay(attempt, borrowed(&retry_after), now_nanos) }
        } else {
            CallStep::Fail(HttpClientError::RequestError(failure))
        },
        AttemptOutcome::Answered { status, retry_after, body } => if again && is_busy(status) {
            CallStep::Retry { delay_nanos: retry_delay(attempt, borrowed(&retry_after), now_nanos) }
        } else if status == 429 {
            CallStep::Fail(HttpClientError::TooManyRequests)
        } else {
            CallStep::Parse { status, body }
        },
    }
}

/// What a call returns once its answer was read: the result, or the parse error
/// together with the status of the answer.
pub fn parsed_answer<T>(status: u16, parsed: Result<T, JsonFailure>) -> (r: Result<
    T,
    HttpClientError,
>)
    ensures
        match parsed {
            Ok(value) => r == Ok::<T, HttpClientError>(value),
            Err(failure) => r == Err::<T, HttpClientError>(
                HttpClientError::ParseError(failure, status),
            ),
        },
{
    match parsed {
        Ok(value) => Ok(value),
        Err(failure) => Err(HttpClientError::ParseError(failure, status)),
    }
}

/// A request that must not be repeated is never sent a second time, and no request
/// is sent more often than its policy allows: the last attempt never asks for another.
pub proof fn requests_are_bounded(policy: RetryPolicy, attempt: nat, outcome: AttemptOutcomeView, now: nat)
    ensures
        step_after(policy, attempt, outcome, now) is Retry ==> attempt + 1 < max_attempts(policy),
        max_attempts(policy) <= 3,
        policy == RetryPolicy::Never ==> !(step_after(policy, attempt, outcome, now) is Retry),
{
}

/// No pause is longer than five seconds, whatever the server asks for.
pub proof fn pauses_are_bounded(attempt: nat, retry_after: Option<Seq<char>>, now: nat)
    ensures
        delay_after(attempt, retry_after, now) <= 5 * SECOND,
{
}

/// An answer is handed on to be read as it came, and only if no further attempt is
/// owed and the server does not limit the rate.
pub proof fn answers_are_read_unchanged(policy: RetryPolicy, attempt: nat, outcome: AttemptOutcomeView, now: nat)
    ensures
        step_after(policy, attempt, outcome, now) matches CallStepView::Parse { status, body } ==> (
        status != 429 && (outcome matches AttemptOutcomeView::Answered { status: s, body: b, .. }
            && s == status && b == body)),
{
}

/// A request carries the very credential that its client was given, marked by its family: an
/// agent's secret, the token of an account, or none.
pub proof fn credentials_are_sent_as_given(auth: AuthState)
    ensures
        auth is Anonymous ==> auth@.header() is None && auth@.kind() == "anonymous"@,
        auth matches AuthState::AgentKey(secret) ==> auth@.header() == Some(
            "Agent-Key "@ + secret@,
        ) && auth@.kind() == "agent"@,
        auth matches AuthState::Bearer(token) ==> auth@.header() == Some("Bearer "@ + token@)
            && auth@.kind() == "account"@,
{
}

/// An endpoint for agents takes an agent's secret and nothing else, one for accounts an account's
/// token and nothing else, one for both either of them, and one for nobody in particular only a
/// request without a credential.
pub proof fn endpoints_take_their_own_credentials(auth: AuthState)
    ensures
        AuthPolicy::Anonymous.accepts(auth@) <==> auth is Anonymous,
        AuthPolicy::Agent.accepts(auth@) <==> auth is AgentKey,
        AuthPolicy::Account.accepts(auth@) <==> auth is Bearer,
        AuthPolicy::AgentOrAccount.accepts(auth@) <==> auth is AgentKey || auth is Bearer,
{
}

/// A request that may be repeated is sent again exactly if there was a passing failure, and it
/// was sent fewer than three times: the way to the server or back failed, the server limits the
/// rate, or it failed itself. A request that must not be repeated, and one that could not be
/// made, is not.
pub proof fn passing_failures_are_repeated(
    policy: RetryPolicy,
    attempt: nat,
    outcome: AttemptOutcome,
    now: nat,
)
    ensures
        step_after(policy, attempt, outcome@, now) is Retry <==> {
            &&& policy is Transient
            &&& attempt < 2
            &&& match outcome {
                AttemptOutcome::NotBuilt(_) => false,
                AttemptOutcome::NotAnswered(failure) => failure.connect || failure.timeout
                    || failure.request || failure.body,
                AttemptOutcome::BodyLost { failure, .. } => failure.connect || failure.timeout
                    || failure.request || failure.body,
                AttemptOutcome::Answered { status, .. } => status == 429 || (500 <= status
                    && status < 600),
            }
        },
{
}

/// What is not repeated ends the call: an answer is read, with its status, whatever that is,
/// unless the server limits the rate, which is told as such; a failure is told as it was.
pub proof fn calls_end_with_what_came(
    policy: RetryPolicy,
    attempt: nat,
    outcome: AttemptOutcome,
    now: nat,
)
    requires
        !(step_after(policy, attempt, outcome@, now) is Retry),
    ensures
        match outcome {
            AttemptOutcome::NotBuilt(failure) => step_after(policy, attempt, outcome@, now)
                == CallStepView::Fail(HttpClientErrorView::RequestError(failure)),
            AttemptOutcome::NotAnswered(failure) => step_after(policy, attempt, outcome@, now)
                == CallStepView::Fail(HttpClientErrorView::RequestError(failure)),
            AttemptOutcome::BodyLost { failure, .. } => step_after(policy, attempt, outcome@, now)
                == CallStepView::Fail(HttpClientErrorView::RequestError(failure)),
            AttemptOutcome::Answered { status, body, .. } => if status == 429 {
                step_after(policy, attempt, outcome@, now) == CallStepView::Fail(
                    HttpClientErrorView::TooManyRequests,
                )
            } else {
                step_after(policy, attempt, outcome@, now) == (CallStepView::Parse {
                    status,
                    body: body@,
                })
            },
        },
{
}

/// The pause before a request is repeated is as long as the server asks for, in seconds or up to
/// a date, but at most five seconds; where it asks for nothing that can be read, it grows by a
/// quarter of a second with each attempt.
pub proof fn pauses_follow_the_server(attempt: nat, value: Seq<char>, now: nat)
    ensures
        attempt < 20 ==> delay_after(attempt, None, now) == 250_000_000 * (attempt + 1),
        attempt >= 20 ==> delay_after(attempt, None, now) == 5_000_000_000,
        text_number(trimmed(value), u64::MAX as nat) matches Ok(seconds) ==> delay_after(
            attempt,
            Some(value),
            now,
        ) == if seconds <= 5 {
            seconds * 1_000_000_000
        } else {
            5_000_000_000
        },
        text_number(trimmed(value), u64::MAX as nat) is Err && http_date_secs(trimmed(value))
            is None ==> delay_after(attempt, Some(value), now) == delay_after(attempt, None, now),
        text_number(trimmed(value), u64::MAX as nat) is Err ==> (http_date_secs(trimmed(value))
            matches Some(at) ==> {
            let left = at * 1_000_000_000 - now;
            delay_after(attempt, Some(value), now) == if left <= 0 {
                0
            } else if left <= 5_000_000_000 {
                left
            } else {
                5_000_000_000
            }
        }),
{
    assert(attempt < 20 ==> 250_000_000 * (attempt + 1) <= 5_000_000_000);
    assert(attempt >= 20 ==> 250_000_000 * (attempt + 1) >= 5_000_000_000);
}

/// The pause is read off the answer itself, where there was one.
pub proof fn pauses_come_from_the_answer(
    policy: RetryPolicy,
    attempt: nat,
    outcome: AttemptOutcome,
    now: nat,
)
    ensures
        step_after(policy, attempt, outcome@, now) matches CallStepView::Retry { delay_nanos }
            ==> delay_nanos == delay_after(
            attempt,
            match outcome {
                AttemptOutcome::BodyLost { retry_after, .. } => opt_text(retry_after),
                AttemptOutcome::Answered { retry_after, .. } => opt_text(retry_after),
                _ => None,
            },
            now,
        ),
{
}

/// An error may go away by itself exactly if the way to the server failed, the server limited the
/// rate, or it failed itself; what is told of it names that.
pub proof fn transport_errors_are_told_apart(error: HttpClientError)
    ensures
        error@.transient() <==> match error {
            HttpClientError::RequestError(failure) => failure.connect || failure.timeout
                || failure.request || failure.body,
            HttpClientError::ParseError(_, status) => status == 429 || (500 <= status && status
                < 600),
            HttpClientError::TooManyRequests => true,
            HttpClientError::SerializeError(_) => false,
        },
        match error {
            HttpClientError::SerializeError(e) => error@.message()
                == "failed to serialize API request: "@ + e.message@,
            HttpClientError::ParseError(e, status) => error@.message()
                == "failed to parse API response ("@ + http_status_text(status) + "): "@
                + e.message@,
            HttpClientError::RequestError(failure) => error@.message() == if failure.timeout {
                "API request timed out"@
            } else if failure.connect {
                "could not connect to the API"@
            } else {
                "API request failed"@
            },
            HttpClientError::TooManyRequests => error@.message() == "API rate limit exceeded"@,
        },
{
}

/// A client says what its fields hold.
pub proof fn clients_say_what_they_hold(client: HttpClient)
    ensures
        client@.api_base == client.api_base@,
        client@.auth_header == opt_text(client.auth_header),
{
}

/// What follows an attempt is told as what it is.
pub proof fn call_steps_say_what_they_are(step: CallStep)
    ensures
        step matches CallStep::Retry { delay_nanos }
            ==> step@ == (CallStepView::Retry { delay_nanos: delay_nanos as nat, }),
        step matches CallStep::Fail(error) ==> step@ == CallStepView::Fail(error@),
        step matches CallStep::Parse { status, body }
            ==> step@ == (CallStepView::Parse { status, body: body@ }),
{
}

/// An error with its parts shows all that is known of it.
pub proof fn transport_errors_show_their_parts(error: HttpClientError)
    ensures
        match error {
            HttpClientError::SerializeError(e) => error@.debugged() == "SerializeError("@ + e.debug@
                + ")"@,
            HttpClientError::ParseError(e, status) => error@.debugged() == "ParseError { error: "@
                + e.debug@ + ", status: "@ + decimal(status as nat) + " }"@,
            HttpClientError::RequestError(failure) => error@.debugged()
                == "RequestError { connect: "@ + (if failure.connect {
                "true"@
            } else {
                "false"@
            }) + ", timeout: "@ + (if failure.timeout {
                "true"@
            } else {
                "false"@
            }) + ", request: "@ + (if failure.request {
                "true"@
            } else {
                "false"@
            }) + " }"@,
            HttpClientError::TooManyRequests => error@.debugged() == "TooManyRequests"@,
        },
{
}

/// The family of a credential is read off the start of its header.
pub proof fn headers_show_their_family(header: Option<Seq<char>>)
    ensures
        header is None ==> header_kind(header) == "anonymous"@,
        header matches Some(value) ==> has_prefix(value, "Agent-Key "@) ==> header_kind(header)
            == "agent"@,
        header matches Some(value) ==> !has_prefix(value, "Agent-Key "@) && has_prefix(
            value,
            "Bearer "@,
        ) ==> header_kind(header) == "account"@,
        header matches Some(value) ==> !has_prefix(value, "Agent-Key "@) && !has_prefix(
            value,
            "Bearer "@,
        ) ==> header_kind(header) == "unknown"@,
{
}

/// A credential is shown by its family alone.
pub proof fn credentials_are_shown_by_family(auth: AuthState)
    ensures
        auth is Anonymous ==> auth@.shown() == "Anonymous"@,
        auth is AgentKey ==> auth@.shown() == "AgentKey(<redacted>)"@,
        auth is Bearer ==> auth@.shown() == "Bearer(<redacted>)"@,
{
}

} // verus!
