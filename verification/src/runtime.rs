//! The runtime's supervisor: from the secret to a running agent, and back after failures.

use vstd::prelude::*;

use crate::api::{ApiResponseError, ApiResponseErrorView, AuthErrorView, Platform};
use crate::control::maintained_control::ControlConnectionState;
use crate::error::{plain_error, ErrorArea, IoFailure, IoFailureView, RuntimeError, RuntimeErrorView};
use crate::handle::{make_inner, new_handle, PlayitHandle};
use crate::http_client::HttpClientError;
use crate::model::{
    AgentLifecycle, AgentLifecycleView, ServiceError, ServiceErrorCode, ServiceErrorView,
    ServicePhase, ServiceUpdate, ServiceUpdateView,
};
use crate::options::{version_text, RuntimeOptions, RuntimeOptionsView};
use crate::outside::{
    is_hex_text, json_null_entry, json_string, parse_json_null_entry, parse_json_string, uuid_parse,
};
use crate::secret::{
    secret_complaint, valid_secret, validate_secret, LoadedSecret, LoadedSecretView, SecretSource,
    SecretSourceView,
};
use crate::state::{StatusContext, StatusContextView};
use crate::text::{join2, join3, opt_text, owned, same, trim, trimmed};

verus! {

// ---------------------------------------------------------------------------
// Setup errors
// ---------------------------------------------------------------------------

/// Why an agent could not be set up.
#[derive(Debug)]
pub enum SetupError {
    FailedToConnect,
    RequestError(HttpClientError),
    /// The API refused the registration; the text is the refusal as JSON.
    ApiFail(String),
    ApiError(ApiResponseError),
    Timeout,
    IoError(IoFailure),
    AttemptingToAuthWithOldFlow,
    FailedToDecodeSignedAgentRegisterHex,
    NoResponseFromAuthenticate,
    RegisterInvalidSignature,
    RegisterUnauthorized,
}

/// The model of a [`SetupError`].
#[verifier::ext_equal]
pub enum SetupErrorView {
    FailedToConnect,
    RequestError,
    ApiFail(Seq<char>),
    ApiError(ApiResponseErrorView),
    Timeout,
    IoError(IoFailureView),
    AttemptingToAuthWithOldFlow,
    FailedToDecodeSignedAgentRegisterHex,
    NoResponseFromAuthenticate,
    RegisterInvalidSignature,
    RegisterUnauthorized,
}

impl View for SetupError {
    type V = SetupErrorView;

    open spec fn view(&self) -> SetupErrorView {
        match *self {
            SetupError::FailedToConnect => SetupErrorView::FailedToConnect,
            SetupError::RequestError(_) => SetupErrorView::RequestError,
            SetupError::ApiFail(payload) => SetupErrorView::ApiFail(payload@),
            SetupError::ApiError(error) => SetupErrorView::ApiError(error@),
            SetupError::Timeout => SetupErrorView::Timeout,
            SetupError::IoError(failure) => SetupErrorView::IoError(failure@),
            SetupError::AttemptingToAuthWithOldFlow => SetupErrorView::AttemptingToAuthWithOldFlow,
            SetupError::FailedToDecodeSignedAgentRegisterHex =>
                SetupErrorView::FailedToDecodeSignedAgentRegisterHex,
            SetupError::NoResponseFromAuthenticate => SetupErrorView::NoResponseFromAuthenticate,
            SetupError::RegisterInvalidSignature => SetupErrorView::RegisterInvalidSignature,
            SetupError::RegisterUnauthorized => SetupErrorView::RegisterUnauthorized,
        }
    }
}

impl SetupErrorView {
    /// The refusal of a registration, as the API names it: as a JSON string, or as the only
    /// key of a JSON object, with null for its value.
    pub open spec fn register_error(self) -> Option<Seq<char>> {
        match self {
            SetupErrorView::ApiFail(payload) => match json_string(payload) {
                Some(name) => Some(name),
                None => json_null_entry(payload),
            },
            _ => None,
        }
    }

    /// The configured secret is not or no longer valid.
    pub open spec fn invalid_agent_secret(self) -> bool {
        self matches SetupErrorView::ApiError(error) && error.ends_agent_secret()
    }

    /// The error may go away by itself.
    pub open spec fn transient(self) -> bool {
        match self {
            SetupErrorView::FailedToConnect => true,
            SetupErrorView::RequestError => true,
            SetupErrorView::Timeout => true,
            SetupErrorView::IoError(_) => true,
            SetupErrorView::AttemptingToAuthWithOldFlow => true,
            SetupErrorView::NoResponseFromAuthenticate => true,
            SetupErrorView::RegisterUnauthorized => true,
            SetupErrorView::ApiError(error) => error is Internal || error
                == ApiResponseErrorView::Auth(AuthErrorView::SessionExpired),
            _ => false,
        }
    }

    /// The error for people, given how the API names a refused registration.
    pub open spec fn user_message(self, register_error: Option<Seq<char>>) -> Seq<char> {
        match self {
            SetupErrorView::FailedToConnect =>
                "Could not connect to Playit tunnel servers. The service will retry automatically; check your internet connection, firewall, VPN, or DNS settings."@,
            SetupErrorView::RequestError =>
                "Could not reach the Playit API. The service will retry automatically; check your internet connection or try again later."@,
            SetupErrorView::ApiError(error) => if error.ends_agent_secret() {
                "The configured playit secret is no longer valid. Run playit setup to provision a new secret."@
            } else {
                "The playit API rejected the agent startup request: "@ + error.shown()
            },
            SetupErrorView::ApiFail(_) => if is_over_limit(register_error) {
                over_limit_message()
            } else {
                "The playit API rejected the agent registration request. Check your account and tunnel configuration, then try again."@
            },
            SetupErrorView::Timeout =>
                "Timed out while connecting to Playit. The service will retry automatically; check your network or firewall."@,
            SetupErrorView::IoError(failure) => "Could not open a required network socket: "@
                + failure.message + ". The service will retry automatically."@,
            SetupErrorView::AttemptingToAuthWithOldFlow =>
                "Failed to start the playit agent: "@ + "AttemptingToAuthWithOldFlow"@,
            SetupErrorView::FailedToDecodeSignedAgentRegisterHex =>
                "Failed to start the playit agent: "@ + "FailedToDecodeSignedAgentRegisterHex"@,
            SetupErrorView::NoResponseFromAuthenticate => "Failed to start the playit agent: "@
                + "NoResponseFromAuthenticate"@,
            SetupErrorView::RegisterInvalidSignature => "Failed to start the playit agent: "@
                + "RegisterInvalidSignature"@,
            SetupErrorView::RegisterUnauthorized => "Failed to start the playit agent: "@
                + "RegisterUnauthorized"@,
        }
    }
}

/// The registration was refused because the account has too many agents.
pub open spec fn is_over_limit(register_error: Option<Seq<char>>) -> bool {
    register_error == Some("AgentDisabledOverLimit"@)
}

pub open spec fn over_limit_message() -> Seq<char> {
    "This account is over the agent limit. Delete an unused agent or upgrade the account, then the service will retry."@
}

/// What is told about an account with too many agents.
pub fn agent_disabled_over_limit_message() -> (r: String)
    ensures
        r@ == over_limit_message(),
{
    owned(
        "This account is over the agent limit. Delete an unused agent or upgrade the account, then the service will retry.",
    )
}

/// How the API names a refused registration.
pub fn parse_proto_register_error(error: &SetupError) -> (r: Option<String>)
    ensures
        opt_text(r) == error@.register_error(),
{
    match error {
        SetupError::ApiFail(payload) => match parse_json_string(payload.as_str()) {
            Some(name) => Some(name),
            None => parse_json_null_entry(payload.as_str()),
        },
        _ => None,
    }
}

fn names_over_limit(register_error: &Option<String>) -> (r: bool)
    ensures
        r == is_over_limit(opt_text(*register_error)),
{
    match register_error {
        Some(name) => same(name.as_str(), "AgentDisabledOverLimit"),
        None => false,
    }
}

/// Whether the registration was refused because the account has too many agents.
pub fn is_agent_disabled_over_limit_error(error: &SetupError) -> (r: bool)
    ensures
        r == is_over_limit(error@.register_error()),
{
    let register_error = parse_proto_register_error(error);
    names_over_limit(&register_error)
}

/// Whether the configured secret is not or no longer valid.
pub fn is_invalid_agent_secret_error(error: &SetupError) -> (r: bool)
    ensures
        r == error@.invalid_agent_secret(),
{
    match error {
        SetupError::ApiError(error) => error.ends_agent_secret(),
        _ => false,
    }
}

/// Whether the error may go away by itself.
pub fn is_transient_setup_error(error: &SetupError) -> (r: bool)
    ensures
        r == error@.transient(),
{
    match error {
        SetupError::FailedToConnect => true,
        SetupError::RequestError(_) => true,
        SetupError::Timeout => true,
        SetupError::IoError(_) => true,
        SetupError::AttemptingToAuthWithOldFlow => true,
        SetupError::NoResponseFromAuthenticate => true,
        SetupError::RegisterUnauthorized => true,
        SetupError::ApiError(ApiResponseError::Internal(_)) => true,
        SetupError::ApiError(ApiResponseError::Auth(crate::api::AuthError::SessionExpired)) => true,
        _ => false,
    }
}

/// The error for people.
pub fn setup_error_user_message(error: &SetupError) -> (r: String)
    ensures
        r@ == error@.user_message(error@.register_error()),
{
    let register_error = parse_proto_register_error(error);
    setup_error_message_with(error, &register_error)
}

/// The error for people, given how the API names a refused registration.
pub fn setup_error_message_with(error: &SetupError, register_error: &Option<String>) -> (r: String)
    ensures
        r@ == error@.user_message(opt_text(*register_error)),
{
    match error {
        SetupError::FailedToConnect => owned(
            "Could not connect to Playit tunnel servers. The service will retry automatically; check your internet connection, firewall, VPN, or DNS settings.",
        ),
        SetupError::RequestError(_) => owned(
            "Could not reach the Playit API. The service will retry automatically; check your internet connection or try again later.",
        ),
        SetupError::ApiError(error) => if error.ends_agent_secret() {
            owned(
                "The configured playit secret is no longer valid. Run playit setup to provision a new secret.",
            )
        } else {
            let shown = error.debug_text();
            join2("The playit API rejected the agent startup request: ", shown.as_str())
        },
        SetupError::ApiFail(_) => if names_over_limit(register_error) {
            agent_disabled_over_limit_message()
        } else {
            owned(
                "The playit API rejected the agent registration request. Check your account and tunnel configuration, then try again.",
            )
        },
        SetupError::Timeout => owned(
            "Timed out while connecting to Playit. The service will retry automatically; check your network or firewall.",
        ),
        SetupError::IoError(failure) => join3(
            "Could not open a required network socket: ",
            failure.message.as_str(),
            ". The service will retry automatically.",
        ),
        SetupError::AttemptingToAuthWithOldFlow => join2(
            "Failed to start the playit agent: ",
            "AttemptingToAuthWithOldFlow",
        ),
        SetupError::FailedToDecodeSignedAgentRegisterHex => join2(
            "Failed to start the playit agent: ",
            "FailedToDecodeSignedAgentRegisterHex",
        ),
        SetupError::NoResponseFromAuthenticate => join2(
            "Failed to start the playit agent: ",
            "NoResponseFromAuthenticate",
        ),
        SetupError::RegisterInvalidSignature => join2(
            "Failed to start the playit agent: ",
            "RegisterInvalidSignature",
        ),
        SetupError::RegisterUnauthorized => join2(
            "Failed to start the playit agent: ",
            "RegisterUnauthorized",
        ),
    }
}

// ---------------------------------------------------------------------------
// Start
// ---------------------------------------------------------------------------

pub open spec fn setup_failure(message: Seq<char>, retryable: bool) -> RuntimeErrorView {
    RuntimeErrorView::Failure(
        ErrorArea::Setup,
        plain_error(ServiceErrorCode::Internal, message, retryable),
    )
}

/// What is wrong with the options of a runtime.
pub open spec fn options_error(options: RuntimeOptionsView) -> Option<RuntimeErrorView> {
    if options.secret_path.len() == 0 {
        Some(setup_failure("RuntimeOptions.secret_path must not be empty"@, false))
    } else if trimmed(options.api_base).len() == 0 {
        Some(setup_failure("RuntimeOptions.api_base must not be empty"@, false))
    } else {
        None
    }
}

/// What keeps a runtime from starting: its options, or an inline secret that is none.
pub open spec fn start_error(options: RuntimeOptionsView) -> Option<RuntimeErrorView> {
    match options_error(options) {
        Some(error) => Some(error),
        None => match options.secret {
            Some(secret) => if valid_secret(trimmed(secret)) {
                None
            } else {
                Some(
                    RuntimeErrorView::Failure(
                        ErrorArea::Secret,
                        plain_error(
                            ServiceErrorCode::InvalidSecret,
                            secret_complaint(trimmed(secret)),
                            false,
                        ),
                    ),
                )
            },
            None => None,
        },
    }
}

/// Accept the options of a runtime.
pub fn validate_options(options: &RuntimeOptions) -> (r: Result<(), RuntimeError>)
    ensures
        match options_error(options@) {
            Some(error) => r is Err && r->Err_0@ == error,
            None => r is Ok,
        },
{
    if options.secret_path.as_str().is_empty() {
        return Err(
            RuntimeError::setup(owned("RuntimeOptions.secret_path must not be empty"), false),
        );
    }
    if trim(options.api_base.as_str()).is_empty() {
        return Err(RuntimeError::setup(owned("RuntimeOptions.api_base must not be empty"), false));
    }
    Ok(())
}

/// Where the secret of a runtime comes from.
pub open spec fn source_of(options: RuntimeOptionsView) -> SecretSourceView {
    match options.secret {
        Some(secret) => SecretSourceView::Inline { secret },
        None => SecretSourceView::File { path: options.secret_path },
    }
}

/// Whether a runtime can start, and where its secret comes from.
pub fn check_start(options: &RuntimeOptions) -> (r: Result<SecretSource, RuntimeError>)
    ensures
        match start_error(options@) {
            Some(error) => r is Err && r->Err_0@ == error,
            None => r is Ok && r->Ok_0@ == source_of(options@),
        },
{
    match validate_options(options) {
        Ok(_) => {},
        Err(error) => return Err(error),
    }
    let source = SecretSource::from_options(options);
    match &options.secret {
        Some(secret) => match validate_secret(trim(secret.as_str())) {
            Ok(_) => {},
            Err(message) => return Err(
                RuntimeError::secret(ServiceErrorCode::InvalidSecret, message, false),
            ),
        },
        None => {},
    }
    Ok(source)
}

// ---------------------------------------------------------------------------
// Pauses
// ---------------------------------------------------------------------------

/// The pause before an account with too many agents is tried again, in seconds.
pub const AGENT_LIMIT_RETRY_SECS: u64 = 30;

/// The pause before attempt number `attempt` is repeated, in seconds.
pub open spec fn retry_pause(attempt: u32) -> u64 {
    if attempt == 0 {
        1
    } else if attempt == 1 {
        2
    } else if attempt == 2 {
        4
    } else if attempt == 3 {
        8
    } else if attempt == 4 {
        15
    } else {
        30
    }
}

/// The pause before attempt number `attempt` is repeated, in seconds.
pub fn retry_delay(attempt: u32) -> (r: u64)
    ensures
        r == retry_pause(attempt),
{
    match attempt {
        0 => 1,
        1 => 2,
        2 => 4,
        3 => 8,
        4 => 15,
        _ => 30,
    }
}

/// The pauses never get shorter, and none is longer than half a minute.
pub proof fn pauses_grow_up_to_a_cap(a: u32, b: u32)
    requires
        a <= b,
    ensures
        1 <= retry_pause(a) <= retry_pause(b) <= 30,
{
}

// ---------------------------------------------------------------------------
// The supervisor
// ---------------------------------------------------------------------------

/// Why the supervisor pauses.
#[derive(Clone, Copy, Debug, PartialEq, Eq, Structural)]
pub enum Pause {
    /// Something failed that may go away by itself.
    Retry,
    /// The account has too many agents.
    AgentLimit,
}

/// The supervisor's state.
pub struct Supervisor {
    pub source: SecretSource,
    /// Whether somebody can provision a secret.
    pub can_receive: bool,
    /// The secret in use.
    pub secret: String,
    /// How often a pause after a failure came to its end.
    pub retry_attempt: u32,
    /// The reason of the last pause.
    pub pause: Pause,
}

/// The model of a [`Supervisor`].
#[verifier::ext_equal]
pub struct SupervisorView {
    pub source: SecretSourceView,
    pub can_receive: bool,
    pub secret: Seq<char>,
    pub retry_attempt: u32,
    pub pause: Pause,
}

impl View for Supervisor {
    type V = SupervisorView;

    open spec fn view(&self) -> SupervisorView {
        SupervisorView {
            source: self.source@,
            can_receive: self.can_receive,
            secret: self.secret@,
            retry_attempt: self.retry_attempt,
            pause: self.pause,
        }
    }
}

/// What came of the supervisor's last step.
#[derive(Debug)]
pub enum SupervisorEvent {
    /// The secret was loaded, or was not.
    Loaded(LoadedSecret),
    /// A secret was provisioned; none if the runtime stops.
    Provisioned(Result<Option<String>, RuntimeError>),
    /// The agent was set up, or was not.
    AgentBuilt(Result<(), SetupError>),
    /// The agent stopped.
    AgentStopped(Result<(), RuntimeError>),
    /// Whether a pause came to its end before the runtime stops.
    Paused { completed: bool },
}

/// The model of a [`SupervisorEvent`].
#[verifier::ext_equal]
pub enum SupervisorEventView {
    Loaded(LoadedSecretView),
    Provisioned(Result<Option<Seq<char>>, RuntimeErrorView>),
    AgentBuilt(Result<(), SetupErrorView>),
    AgentStopped(Result<(), RuntimeErrorView>),
    Paused { completed: bool },
}

impl View for SupervisorEvent {
    type V = SupervisorEventView;

    open spec fn view(&self) -> SupervisorEventView {
        match *self {
            SupervisorEvent::Loaded(loaded) => SupervisorEventView::Loaded(loaded@),
            SupervisorEvent::Provisioned(result) => SupervisorEventView::Provisioned(
                match result {
                    Ok(secret) => Ok(opt_text(secret)),
                    Err(error) => Err(error@),
                },
            ),
            SupervisorEvent::AgentBuilt(result) => SupervisorEventView::AgentBuilt(
                match result {
                    Ok(_) => Ok(()),
                    Err(error) => Err(error@),
                },
            ),
            SupervisorEvent::AgentStopped(result) => SupervisorEventView::AgentStopped(
                match result {
                    Ok(_) => Ok(()),
                    Err(error) => Err(error@),
                },
            ),
            SupervisorEvent::Paused { completed } => SupervisorEventView::Paused { completed },
        }
    }
}

/// Something that the supervisor changes or tells.
#[derive(Debug)]
pub enum Effect {
    /// Tell the state.
    Publish {
        phase: ServicePhase,
        has_secret: bool,
        last_error: Option<ServiceError>,
        lifecycle: AgentLifecycle,
    },
    /// Talk to the API with this secret, or not at all.
    SetApi(Option<String>),
    /// Read the tunnels' origins from the API, if it answers.
    RefreshOrigins,
}

/// The model of an [`Effect`].
#[verifier::ext_equal]
pub enum EffectView {
    Publish {
        phase: ServicePhase,
        has_secret: bool,
        last_error: Option<ServiceErrorView>,
        lifecycle: AgentLifecycleView,
    },
    SetApi(Option<Seq<char>>),
    RefreshOrigins,
}

impl View for Effect {
    type V = EffectView;

    open spec fn view(&self) -> EffectView {
        match *self {
            Effect::Publish { phase, has_secret, last_error, lifecycle } => EffectView::Publish {
                phase,
                has_secret,
                last_error: match last_error {
                    Some(error) => Some(error@),
                    None => None,
                },
                lifecycle: lifecycle@,
            },
            Effect::SetApi(secret) => EffectView::SetApi(opt_text(secret)),
            Effect::RefreshOrigins => EffectView::RefreshOrigins,
        }
    }
}

/// What the supervisor waits for next.
#[derive(Debug)]
pub enum Next {
    /// A secret.
    AwaitSecret,
    /// An agent that is set up with this secret.
    BuildAgent { secret: String },
    /// The end of the agent.
    RunAgent,
    /// The end of a pause.
    Pause { secs: u64 },
    /// Nothing: the runtime ends.
    Finish(Result<(), RuntimeError>),
}

/// The model of a [`Next`].
#[verifier::ext_equal]
pub enum NextView {
    AwaitSecret,
    BuildAgent { secret: Seq<char> },
    RunAgent,
    Pause { secs: u64 },
    Finish(Result<(), RuntimeErrorView>),
}

impl View for Next {
    type V = NextView;

    open spec fn view(&self) -> NextView {
        match *self {
            Next::AwaitSecret => NextView::AwaitSecret,
            Next::BuildAgent { secret } => NextView::BuildAgent { secret: secret@ },
            Next::RunAgent => NextView::RunAgent,
            Next::Pause { secs } => NextView::Pause { secs },
            Next::Finish(result) => NextView::Finish(
                match result {
                    Ok(_) => Ok(()),
                    Err(error) => Err(error@),
                },
            ),
        }
    }
}

/// The effects to perform in order, and what to wait for after them.
#[derive(Debug)]
pub struct SupervisorStep {
    pub effects: Vec<Effect>,
    pub next: Next,
}

/// The model of a [`SupervisorStep`].
#[verifier::ext_equal]
pub struct SupervisorStepView {
    pub effects: Seq<EffectView>,
    pub next: NextView,
}

pub open spec fn effects_view(effects: Seq<Effect>) -> Seq<EffectView> {
    effects.map_values(|effect: Effect| effect@)
}

impl View for SupervisorStep {
    type V = SupervisorStepView;

    open spec fn view(&self) -> SupervisorStepView {
        SupervisorStepView { effects: effects_view(self.effects@), next: self.next@ }
    }
}

pub open spec fn starting(has_secret: bool) -> EffectView {
    EffectView::Publish {
        phase: ServicePhase::Starting,
        has_secret,
        last_error: None,
        lifecycle: AgentLifecycleView::Starting,
    }
}

pub open spec fn reconnecting(error: ServiceErrorView) -> EffectView {
    EffectView::Publish {
        phase: ServicePhase::Reconnecting,
        has_secret: true,
        last_error: Some(error),
        lifecycle: AgentLifecycleView::Starting,
    }
}

pub open spec fn stopping(has_secret: bool) -> EffectView {
    EffectView::Publish {
        phase: ServicePhase::Stopping,
        has_secret,
        last_error: None,
        lifecycle: AgentLifecycleView::Stopping,
    }
}

pub open spec fn waiting(last_error: Option<ServiceErrorView>) -> EffectView {
    EffectView::Publish {
        phase: ServicePhase::WaitingForSecret,
        has_secret: false,
        last_error,
        lifecycle: AgentLifecycleView::WaitingForSecret,
    }
}

pub open spec fn secret_failure(
    code: ServiceErrorCode,
    message: Seq<char>,
    retryable: bool,
) -> RuntimeErrorView {
    RuntimeErrorView::Failure(ErrorArea::Secret, plain_error(code, message, retryable))
}

pub open spec fn invalid_secret_error() -> ServiceErrorView {
    plain_error(
        ServiceErrorCode::InvalidSecret,
        "The configured playit secret is no longer valid. Run playit setup to provision a new secret."@,
        true,
    )
}

pub open spec fn over_limit_error() -> ServiceErrorView {
    plain_error(ServiceErrorCode::AgentDisabledOverLimit, over_limit_message(), true)
}

impl SupervisorView {
    /// The wait for a secret, after some effects.
    pub open spec fn wait_for_secret(
        self,
        effects: Seq<EffectView>,
        last_error: Option<ServiceErrorView>,
    ) -> (SupervisorView, SupervisorStepView) {
        if self.source is Inline {
            (
                self,
                SupervisorStepView {
                    effects,
                    next: NextView::Finish(
                        Err(
                            secret_failure(
                                ServiceErrorCode::ProvisioningUnavailable,
                                "No file-backed secret source is available for provisioning."@,
                                false,
                            ),
                        ),
                    ),
                },
            )
        } else if !self.can_receive {
            (
                self,
                SupervisorStepView {
                    effects,
                    next: NextView::Finish(Err(self.source.provisioning_error())),
                },
            )
        } else {
            (
                self,
                SupervisorStepView {
                    effects: effects.push(waiting(last_error)),
                    next: NextView::AwaitSecret,
                },
            )
        }
    }

    /// The setup of an agent with the current secret, after some effects.
    pub open spec fn build(self, effects: Seq<EffectView>, cancelled: bool) -> (
        SupervisorView,
        SupervisorStepView,
    ) {
        if cancelled {
            self.stop(effects, true)
        } else {
            (
                self,
                SupervisorStepView {
                    effects: effects.push(EffectView::SetApi(Some(self.secret))).push(
                        EffectView::RefreshOrigins,
                    ).push(starting(true)),
                    next: NextView::BuildAgent { secret: self.secret },
                },
            )
        }
    }

    /// The end of the runtime, after some effects.
    pub open spec fn stop(self, effects: Seq<EffectView>, has_secret: bool) -> (
        SupervisorView,
        SupervisorStepView,
    ) {
        (
            self,
            SupervisorStepView {
                effects: effects.push(stopping(has_secret)),
                next: NextView::Finish(Ok(())),
            },
        )
    }

    /// A pause after something failed that may go away by itself.
    pub open spec fn retry(self, message: Seq<char>) -> (SupervisorView, SupervisorStepView) {
        (
            SupervisorView { pause: Pause::Retry, ..self },
            SupervisorStepView {
                effects: seq![reconnecting(setup_failure(message, true).service_error())],
                next: NextView::Pause { secs: retry_pause(self.retry_attempt) },
            },
        )
    }

    /// What follows an agent that could not be set up, given how the API names a refused
    /// registration.
    pub open spec fn after_setup_error(
        self,
        error: SetupErrorView,
        register_error: Option<Seq<char>>,
    ) -> (SupervisorView, SupervisorStepView) {
        let message = error.user_message(register_error);
        if self.source is File && error.invalid_agent_secret() {
            self.wait_for_secret(
                seq![EffectView::SetApi(None)],
                Some(invalid_secret_error()),
            )
        } else if is_over_limit(register_error) {
            (
                SupervisorView { pause: Pause::AgentLimit, ..self },
                SupervisorStepView {
                    effects: seq![
                        EffectView::Publish {
                            phase: ServicePhase::DisabledOverLimit,
                            has_secret: true,
                            last_error: Some(over_limit_error()),
                            lifecycle: AgentLifecycleView::DisabledOverLimit(over_limit_error()),
                        },
                    ],
                    next: NextView::Pause { secs: AGENT_LIMIT_RETRY_SECS },
                },
            )
        } else if error.transient() {
            self.retry(message)
        } else {
            let failure = setup_failure(message, true);
            (
                self,
                SupervisorStepView {
                    effects: seq![
                        EffectView::Publish {
                            phase: ServicePhase::Error,
                            has_secret: true,
                            last_error: Some(failure.service_error()),
                            lifecycle: AgentLifecycleView::Error(failure.service_error()),
                        },
                    ],
                    next: NextView::Finish(Err(failure)),
                },
            )
        }
    }

    /// What follows the attempt to load the secret.
    pub open spec fn after_load(self, loaded: LoadedSecretView, cancelled: bool) -> (
        SupervisorView,
        SupervisorStepView,
    ) {
        match loaded {
            LoadedSecretView::Ready(secret) => (SupervisorView { secret, ..self }).build(
                seq![starting(true)],
                cancelled,
            ),
            LoadedSecretView::Missing => self.wait_for_secret(Seq::empty(), None),
            LoadedSecretView::Invalid(message) => {
                let error = secret_failure(
                    ServiceErrorCode::InvalidSecret,
                    message,
                    self.source is File,
                );
                let told = seq![
                    EffectView::Publish {
                        phase: ServicePhase::HasInvalidSecret,
                        has_secret: false,
                        last_error: Some(error.service_error()),
                        lifecycle: AgentLifecycleView::HasInvalidSecret(error.service_error()),
                    },
                ];
                if self.source is File {
                    self.wait_for_secret(told, Some(error.service_error()))
                } else {
                    (
                        self,
                        SupervisorStepView { effects: told, next: NextView::Finish(Err(error)) },
                    )
                }
            },
        }
    }

    /// What follows an event; `cancelled` is whether the runtime stops.
    pub open spec fn after(self, event: SupervisorEventView, cancelled: bool) -> (
        SupervisorView,
        SupervisorStepView,
    ) {
        match event {
            SupervisorEventView::Loaded(loaded) => self.after_load(loaded, cancelled),
            SupervisorEventView::Provisioned(Err(error)) => (
                self,
                SupervisorStepView { effects: Seq::empty(), next: NextView::Finish(Err(error)) },
            ),
            SupervisorEventView::Provisioned(Ok(Some(secret))) => (SupervisorView {
                secret,
                ..self
            }).build(seq![starting(true)], cancelled),
            SupervisorEventView::Provisioned(Ok(None)) => self.stop(Seq::empty(), false),
            SupervisorEventView::AgentBuilt(Ok(_)) => (
                self,
                SupervisorStepView {
                    effects: seq![
                        EffectView::Publish {
                            phase: ServicePhase::Running,
                            has_secret: true,
                            last_error: None,
                            lifecycle: AgentLifecycleView::Starting,
                        },
                    ],
                    next: NextView::RunAgent,
                },
            ),
            SupervisorEventView::AgentBuilt(Err(error)) => self.after_setup_error(
                error,
                error.register_error(),
            ),
            SupervisorEventView::AgentStopped(Ok(_)) => (
                self,
                SupervisorStepView { effects: Seq::empty(), next: NextView::Finish(Ok(())) },
            ),
            SupervisorEventView::AgentStopped(Err(error)) => if cancelled {
                self.stop(Seq::empty(), true)
            } else {
                self.retry(error.shown())
            },
            SupervisorEventView::Paused { completed } => if !completed {
                self.stop(Seq::empty(), true)
            } else {
                (match self.pause {
                    Pause::Retry => SupervisorView {
                        retry_attempt: if self.retry_attempt < u32::MAX {
                            (self.retry_attempt + 1) as u32
                        } else {
                            u32::MAX
                        },
                        ..self
                    },
                    Pause::AgentLimit => self,
                }).build(Seq::empty(), cancelled)
            },
        }
    }
}

fn publish_starting(has_secret: bool) -> (r: Effect)
    ensures
        r@ == starting(has_secret),
{
    Effect::Publish {
        phase: ServicePhase::Starting,
        has_secret,
        last_error: None,
        lifecycle: AgentLifecycle::Starting,
    }
}

fn publish_reconnecting(error: ServiceError) -> (r: Effect)
    ensures
        r@ == reconnecting(error@),
{
    Effect::Publish {
        phase: ServicePhase::Reconnecting,
        has_secret: true,
        last_error: Some(error),
        lifecycle: AgentLifecycle::Starting,
    }
}

fn publish_stopping(has_secret: bool) -> (r: Effect)
    ensures
        r@ == stopping(has_secret),
{
    Effect::Publish {
        phase: ServicePhase::Stopping,
        has_secret,
        last_error: None,
        lifecycle: AgentLifecycle::Stopping,
    }
}

fn push_effect(effects: &mut Vec<Effect>, effect: Effect)
    ensures
        effects_view(final(effects)@) == effects_view(old(effects)@).push(effect@),
{
    let ghost before = effects@;
    effects.push(effect);
    assert(effects_view(effects@) =~= effects_view(before).push(effect@));
}

fn no_effects() -> (r: Vec<Effect>)
    ensures
        effects_view(r@) == Seq::<EffectView>::empty(),
{
    let r: Vec<Effect> = Vec::new();
    assert(effects_view(r@) =~= Seq::<EffectView>::empty());
    r
}

fn one_effect(effect: Effect) -> (r: Vec<Effect>)
    ensures
        effects_view(r@) == seq![effect@],
{
    let mut r = no_effects();
    push_effect(&mut r, effect);
    assert(effects_view(r@) =~= seq![effect@]);
    r
}

impl Supervisor {
    pub fn new(source: SecretSource, can_receive: bool) -> (r: Self)
        ensures
            r@ == (SupervisorView {
                source: source@,
                can_receive,
                secret: Seq::empty(),
                retry_attempt: 0,
                pause: Pause::Retry,
            }),
    {
        let r = Supervisor {
            source,
            can_receive,
            secret: String::new(),
            retry_attempt: 0,
            pause: Pause::Retry,
        };
        assert(r.secret@ =~= Seq::empty());
        r
    }

    fn wait_for_secret(&self, effects: Vec<Effect>, last_error: Option<ServiceError>) -> (r:
        SupervisorStep)
        ensures
            (self@, r@) == self@.wait_for_secret(
                effects_view(effects@),
                match last_error {
                    Some(error) => Some(error@),
                    None => None,
                },
            ),
    {
        if !self.source.allows_provisioning() {
            return SupervisorStep {
                effects,
                next: Next::Finish(
                    Err(
                        RuntimeError::secret(
                            ServiceErrorCode::ProvisioningUnavailable,
                            owned("No file-backed secret source is available for provisioning."),
                            false,
                        ),
                    ),
                ),
            };
        }
        if !self.can_receive {
            return SupervisorStep {
                effects,
                next: Next::Finish(Err(self.source.provisioning_error())),
            };
        }
        let mut effects = effects;
        push_effect(
            &mut effects,
            Effect::Publish {
                phase: ServicePhase::WaitingForSecret,
                has_secret: false,
                last_error,
                lifecycle: AgentLifecycle::WaitingForSecret,
            },
        );
        SupervisorStep { effects, next: Next::AwaitSecret }
    }

    fn stop(&self, effects: Vec<Effect>, has_secret: bool) -> (r: SupervisorStep)
        ensures
            (self@, r@) == self@.stop(effects_view(effects@), has_secret),
    {
        let mut effects = effects;
        push_effect(&mut effects, publish_stopping(has_secret));
        SupervisorStep { effects, next: Next::Finish(Ok(())) }
    }

    fn build(&self, effects: Vec<Effect>, cancelled: bool) -> (r: SupervisorStep)
        ensures
            (self@, r@) == self@.build(effects_view(effects@), cancelled),
    {
        if cancelled {
            return self.stop(effects, true);
        }
        let mut effects = effects;
        push_effect(&mut effects, Effect::SetApi(Some(self.secret.clone())));
        push_effect(&mut effects, Effect::RefreshOrigins);
        push_effect(&mut effects, publish_starting(true));
        SupervisorStep { effects, next: Next::BuildAgent { secret: self.secret.clone() } }
    }

    fn retry(&mut self, message: String) -> (r: SupervisorStep)
        ensures
            (final(self)@, r@) == old(self)@.retry(message@),
    {
        self.pause = Pause::Retry;
        let error = RuntimeError::setup(message, true);
        SupervisorStep {
            effects: one_effect(publish_reconnecting(error.as_service_error())),
            next: Next::Pause { secs: retry_delay(self.retry_attempt) },
        }
    }

    /// What follows an agent that could not be set up, given how the API names a refused
    /// registration.
    pub fn after_setup_error(&mut self, error: SetupError, register_error: Option<String>) -> (r:
        SupervisorStep)
        ensures
            (final(self)@, r@) == old(self)@.after_setup_error(error@, opt_text(register_error)),
    {
        if self.source.allows_provisioning() && is_invalid_agent_secret_error(&error) {
            let known = RuntimeError::secret(
                ServiceErrorCode::InvalidSecret,
                owned(
                    "The configured playit secret is no longer valid. Run playit setup to provision a new secret.",
                ),
                true,
            );
            let effects = one_effect(Effect::SetApi(None));
            return self.wait_for_secret(effects, Some(known.as_service_error()));
        }
        if names_over_limit(&register_error) {
            let known = RuntimeError::setup_with_code(
                ServiceErrorCode::AgentDisabledOverLimit,
                agent_disabled_over_limit_message(),
                true,
            );
            self.pause = Pause::AgentLimit;
            return SupervisorStep {
                effects: one_effect(
                    Effect::Publish {
                        phase: ServicePhase::DisabledOverLimit,
                        has_secret: true,
                        last_error: Some(known.as_service_error()),
                        lifecycle: AgentLifecycle::DisabledOverLimit(known.as_service_error()),
                    },
                ),
                next: Next::Pause { secs: AGENT_LIMIT_RETRY_SECS },
            };
        }
        let message = setup_error_message_with(&error, &register_error);
        if is_transient_setup_error(&error) {
            return self.retry(message);
        }
        let failure = RuntimeError::setup(message, true);
        SupervisorStep {
            effects: one_effect(
                Effect::Publish {
                    phase: ServicePhase::Error,
                    has_secret: true,
                    last_error: Some(failure.as_service_error()),
                    lifecycle: AgentLifecycle::Error(failure.as_service_error()),
                },
            ),
            next: Next::Finish(Err(failure)),
        }
    }

    fn after_load(&mut self, loaded: LoadedSecret, cancelled: bool) -> (r: SupervisorStep)
        ensures
            (final(self)@, r@) == old(self)@.after_load(loaded@, cancelled),
    {
        match loaded {
            LoadedSecret::Ready(secret) => {
                self.secret = secret;
                let effects = one_effect(publish_starting(true));
                self.build(effects, cancelled)
            },
            LoadedSecret::Missing => self.wait_for_secret(no_effects(), None),
            LoadedSecret::Invalid(message) => {
                let error = RuntimeError::secret(
                    ServiceErrorCode::InvalidSecret,
                    message,
                    self.source.allows_provisioning(),
                );
                let effects = one_effect(
                    Effect::Publish {
                        phase: ServicePhase::HasInvalidSecret,
                        has_secret: false,
                        last_error: Some(error.as_service_error()),
                        lifecycle: AgentLifecycle::HasInvalidSecret(error.as_service_error()),
                    },
                );
                if self.source.allows_provisioning() {
                    self.wait_for_secret(effects, Some(error.as_service_error()))
                } else {
                    SupervisorStep { effects, next: Next::Finish(Err(error)) }
                }
            },
        }
    }

    /// What follows an event; `cancelled` is whether the runtime stops.
    pub fn step(&mut self, event: SupervisorEvent, cancelled: bool) -> (r: SupervisorStep)
        ensures
            (final(self)@, r@) == old(self)@.after(event@, cancelled),
    {
        match event {
            SupervisorEvent::Loaded(loaded) => self.after_load(loaded, cancelled),
            SupervisorEvent::Provisioned(result) => match result {
                Err(error) => SupervisorStep {
                    effects: no_effects(),
                    next: Next::Finish(Err(error)),
                },
                Ok(Some(secret)) => {
                    self.secret = secret;
                    let effects = one_effect(publish_starting(true));
                    self.build(effects, cancelled)
                },
                Ok(None) => self.stop(no_effects(), false),
            },
            SupervisorEvent::AgentBuilt(result) => match result {
                Ok(_) => SupervisorStep {
                    effects: one_effect(
                        Effect::Publish {
                            phase: ServicePhase::Running,
                            has_secret: true,
                            last_error: None,
                            lifecycle: AgentLifecycle::Starting,
                        },
                    ),
                    next: Next::RunAgent,
                },
                Err(error) => {
                    let register_error = parse_proto_register_error(&error);
                    self.after_setup_error(error, register_error)
                },
            },
            SupervisorEvent::AgentStopped(result) => match result {
                Ok(_) => SupervisorStep { effects: no_effects(), next: Next::Finish(Ok(())) },
                Err(error) => if cancelled {
                    self.stop(no_effects(), true)
                } else {
                    let message = error.to_text();
                    self.retry(message)
                },
            },
            SupervisorEvent::Paused { completed } => if !completed {
                self.stop(no_effects(), true)
            } else {
                match self.pause {
                    Pause::Retry => {
                        if self.retry_attempt < u32::MAX {
                            self.retry_attempt = self.retry_attempt + 1;
                        }
                    },
                    Pause::AgentLimit => {},
                }
                self.build(no_effects(), cancelled)
            },
        }
    }
}

// ---------------------------------------------------------------------------
// The runtime
// ---------------------------------------------------------------------------

/// The owner of a runtime.
pub struct PlayitRuntime {
    /// Whether the supervisor's end was not waited for yet.
    pub supervised: bool,
}

/// A runtime that begins: its owner, its handle, its supervisor, and the two changes to
/// tell subscribers, in order.
pub struct StartedRuntime {
    pub runtime: PlayitRuntime,
    pub handle: PlayitHandle,
    pub supervisor: Supervisor,
    pub updates: (ServiceUpdate, ServiceUpdate),
}

/// What the status of a runtime tells that begins at the moment `now`.
pub open spec fn context_of(options: RuntimeOptionsView, now: u64) -> StatusContextView {
    StatusContextView {
        secret_path: match options.secret {
            Some(_) => None,
            None => Some(options.secret_path),
        },
        version: version_text(options.version.major, options.version.minor, options.version.patch),
        start_time: now,
    }
}

impl PlayitRuntime {
    /// Begin a runtime in process `pid` at the moment `now`, on this platform. A secret can
    /// be provisioned unless one is given inline.
    pub fn start(options: &RuntimeOptions, current_platform: Platform, pid: u32, now: u64) -> (r:
        Result<StartedRuntime, RuntimeError>)
        ensures
            match start_error(options@) {
                Some(error) => r is Err && r->Err_0@ == error,
                None => match uuid_parse(options@.version.variant_id) {
                    Err(error) => r is Err && r->Err_0@ == setup_failure(
                        "invalid variant ID "@ + options@.version.variant_id + ": "@ + error,
                        false,
                    ),
                    Ok(variant_id) => {
                        let source = source_of(options@);
                        let context = context_of(options@, now);
                        &&& r is Ok
                        &&& r->Ok_0.runtime.supervised
                        &&& r->Ok_0.handle@ == new_handle(
                            options@,
                            source,
                            context,
                            source is File,
                            variant_id,
                            current_platform,
                        ).performed(starting(false), pid, now)
                        &&& r->Ok_0.supervisor@ == (SupervisorView {
                            source,
                            can_receive: source is File,
                            secret: Seq::empty(),
                            retry_attempt: 0,
                            pause: Pause::Retry,
                        })
                        &&& r->Ok_0.updates.0@ == ServiceUpdateView::Status(
                            context.status(ServicePhase::Starting, false, None, pid, now),
                        )
                        &&& r->Ok_0.updates.1@ == ServiceUpdateView::Lifecycle(
                            AgentLifecycleView::Starting,
                        )
                    },
                },
            },
    {
        let source = match check_start(options) {
            Ok(source) => source,
            Err(error) => return Err(error),
        };
        let can_provision = source.allows_provisioning();
        let secret_path = match source.secret_path() {
            Some(path) => Some(owned(path)),
            None => None,
        };
        let context = StatusContext::new(secret_path, options.version.version_string(), now);
        let supervisor = Supervisor::new(source.clone(), can_provision);
        let inner = match make_inner(options, source, context, can_provision, current_platform) {
            Ok(inner) => inner,
            Err(error) => return Err(error),
        };
        let mut handle = PlayitHandle { inner };
        let status = handle.inner.status_context.status(
            ServicePhase::Starting,
            false,
            None,
            pid,
            now,
        );
        let updates = handle.publish_state(status, AgentLifecycle::Starting);
        Ok(
            StartedRuntime {
                runtime: PlayitRuntime { supervised: true },
                handle,
                supervisor,
                updates,
            },
        )
    }

    /// The end of the runtime, given how the supervisor's task ended; the outer error is that
    /// of the task itself. An end that was waited for before is told as a success.
    pub fn wait(&mut self, joined: Result<Result<(), RuntimeError>, String>) -> (r: Result<
        (),
        RuntimeError,
    >)
        ensures
            !final(self).supervised,
            if !old(self).supervised {
                r == Ok::<(), RuntimeError>(())
            } else {
                match joined {
                    Ok(result) => r == result,
                    Err(error) => r is Err && r->Err_0@ == setup_failure(
                        "runtime task failed: "@ + error@,
                        false,
                    ),
                }
            },
    {
        if !self.supervised {
            return Ok(());
        }
        self.supervised = false;
        match joined {
            Ok(result) => result,
            Err(error) => Err(
                RuntimeError::setup(join2("runtime task failed: ", error.as_str()), false),
            ),
        }
    }
}

// ---------------------------------------------------------------------------
// Laws of the supervisor
// ---------------------------------------------------------------------------

/// An agent is set up only with a secret that was loaded or provisioned: the supervisor
/// uses the new one, or the one that it had.
pub proof fn agents_use_the_latest_secret(
    supervisor: SupervisorView,
    event: SupervisorEventView,
    cancelled: bool,
)
    ensures
        supervisor.after(event, cancelled).0.secret == match event {
            SupervisorEventView::Loaded(LoadedSecretView::Ready(secret)) => secret,
            SupervisorEventView::Provisioned(Ok(Some(secret))) => secret,
            _ => supervisor.secret,
        },
        supervisor.after(event, cancelled).1.next matches NextView::BuildAgent { secret }
            ==> secret == supervisor.after(event, cancelled).0.secret && !cancelled,
{
}

/// A secret is waited for only where one can be stored: a runtime with an inline secret
/// never waits for another one.
pub proof fn only_file_secrets_are_waited_for(
    supervisor: SupervisorView,
    event: SupervisorEventView,
    cancelled: bool,
)
    ensures
        supervisor.after(event, cancelled).1.next is AwaitSecret ==> supervisor.source is File
            && supervisor.can_receive,
        supervisor.after(event, cancelled).0.source == supervisor.source,
{
}

/// An expired account session never makes the agent's secret invalid: the setup is tried
/// again with the same secret, and nobody is asked for a new one.
pub proof fn session_expiry_keeps_the_secret(supervisor: SupervisorView, cancelled: bool)
    ensures
        ({
            let error = SetupErrorView::ApiError(
                ApiResponseErrorView::Auth(AuthErrorView::SessionExpired),
            );
            let after = supervisor.after(
                SupervisorEventView::AgentBuilt(Err(error)),
                cancelled,
            );
            &&& after.0.secret == supervisor.secret
            &&& after.1.next is Pause
            &&& !error.invalid_agent_secret()
        }),
{
}

/// A secret that the API no longer accepts is not used any more: the API client is dropped
/// before a new secret is waited for.
pub proof fn invalid_secrets_are_dropped(
    supervisor: SupervisorView,
    error: SetupErrorView,
    cancelled: bool,
)
    requires
        supervisor.source is File,
        error.invalid_agent_secret(),
    ensures
        ({
            let after = supervisor.after(SupervisorEventView::AgentBuilt(Err(error)), cancelled);
            &&& after.1.effects.len() > 0
            &&& after.1.effects[0] == EffectView::SetApi(None)
            &&& !(after.1.next is BuildAgent)
            &&& !(after.1.next is Pause)
        }),
{
}

/// A runtime that stops sets up no agent any more: after a pause, a secret or a failed
/// agent it ends, and says so.
pub proof fn stopping_runtimes_end(supervisor: SupervisorView, event: SupervisorEventView)
    requires
        event is Paused || event matches SupervisorEventView::Provisioned(Ok(_)) || event
            matches SupervisorEventView::AgentStopped(Err(_)) || event
            matches SupervisorEventView::Loaded(LoadedSecretView::Ready(_)),
    ensures
        ({
            let step = supervisor.after(event, true).1;
            &&& step.next == NextView::Finish(Ok(()))
            &&& step.effects.len() > 0
            &&& step.effects.last() matches EffectView::Publish { phase, lifecycle, .. }
            &&& phase == ServicePhase::Stopping
            &&& lifecycle is Stopping
        }),
{
}

/// Every pause is at least a second and at most half a minute long.
pub proof fn supervisor_pauses_are_bounded(
    supervisor: SupervisorView,
    event: SupervisorEventView,
    cancelled: bool,
)
    ensures
        supervisor.after(event, cancelled).1.next matches NextView::Pause { secs } ==> 1 <= secs
            <= 30,
{
}

// ---------------------------------------------------------------------------
// The running agent
// ---------------------------------------------------------------------------

/// Why the agent stopped: the task's own failure is a text.
#[derive(Debug)]
pub enum AgentStop {
    Requested,
    Unexpected(Result<(), String>),
}

/// Why the agent's task ended: on request if the runtime stops.
pub fn classify_agent_completion(runtime_cancelled: bool, result: Result<(), String>) -> (r:
    AgentStop)
    ensures
        r == if runtime_cancelled {
            AgentStop::Requested
        } else {
            AgentStop::Unexpected(result)
        },
{
    if runtime_cancelled {
        AgentStop::Requested
    } else {
        AgentStop::Unexpected(result)
    }
}

impl AgentStop {
    /// Whether the end is to be told as a stop on request.
    pub fn is_requested(&self) -> (r: bool)
        ensures
            r == (self is Requested),
    {
        match self {
            AgentStop::Requested => true,
            AgentStop::Unexpected(_) => false,
        }
    }

    /// What running the agent came to.
    pub fn into_result(self) -> (r: Result<(), RuntimeError>)
        ensures
            match self {
                AgentStop::Requested => r is Ok,
                AgentStop::Unexpected(Ok(_)) => r is Err && r->Err_0@ == setup_failure(
                    "playit agent task stopped unexpectedly"@,
                    true,
                ),
                AgentStop::Unexpected(Err(error)) => r is Err && r->Err_0@ == setup_failure(
                    "playit agent task failed: "@ + error@,
                    true,
                ),
            },
    {
        match self {
            AgentStop::Requested => Ok(()),
            AgentStop::Unexpected(Ok(_)) => Err(
                RuntimeError::setup(owned("playit agent task stopped unexpectedly"), true),
            ),
            AgentStop::Unexpected(Err(error)) => Err(
                RuntimeError::setup(join2("playit agent task failed: ", error.as_str()), true),
            ),
        }
    }
}

/// Turns changes of the control channel into phases of the service.
pub struct ControlStateWatch {
    pub last_state: Option<ControlConnectionState>,
}

/// The phase of the service while the control channel is in a state.
pub open spec fn phase_of(state: ControlConnectionState) -> ServicePhase {
    match state {
        ControlConnectionState::Connected => ServicePhase::Running,
        ControlConnectionState::Reconnecting => ServicePhase::Reconnecting,
    }
}

impl ControlStateWatch {
    pub fn new() -> (r: Self)
        ensures
            r.last_state is None,
    {
        ControlStateWatch { last_state: None }
    }

    /// The phase to tell, if the state is another one than before.
    pub fn observe(&mut self, state: ControlConnectionState) -> (r: Option<ServicePhase>)
        ensures
            final(self).last_state == Some(state),
            r == if old(self).last_state == Some(state) {
                None
            } else {
                Some(phase_of(state))
            },
    {
        let changed = match self.last_state {
            Some(last) => last != state,
            None => true,
        };
        self.last_state = Some(state);
        if changed {
            Some(
                match state {
                    ControlConnectionState::Connected => ServicePhase::Running,
                    ControlConnectionState::Reconnecting => ServicePhase::Reconnecting,
                },
            )
        } else {
            None
        }
    }
}

// ---------------------------------------------------------------------------
// Laws of failures
// ---------------------------------------------------------------------------

/// A setup that failed for a reason that may go away is tried again with the same secret: the
/// runtime tells that it reconnects, pauses, and then sets the agent up. It never ends for such
/// a reason, and asks nobody for another secret.
pub proof fn passing_failures_are_retried(
    supervisor: SupervisorView,
    error: SetupError,
    cancelled: bool,
)
    requires
        error is FailedToConnect || error is RequestError || error is Timeout || error is IoError
            || error is AttemptingToAuthWithOldFlow || error is NoResponseFromAuthenticate || error
            is RegisterUnauthorized || error matches SetupError::ApiError(
            ApiResponseError::Internal(_),
        ) || error matches SetupError::ApiError(
            ApiResponseError::Auth(crate::api::AuthError::SessionExpired),
        ),
    ensures
        error@.transient(),
        ({
            let (after, step) = supervisor.after(
                SupervisorEventView::AgentBuilt(Err(error@)),
                cancelled,
            );
            &&& after == (SupervisorView { pause: Pause::Retry, ..supervisor })
            &&& step.next is Pause
            &&& supervisor.retry_attempt == 0 ==> step.next == (NextView::Pause { secs: 1 })
            &&& step.effects == seq![
                EffectView::Publish {
                    phase: ServicePhase::Reconnecting,
                    has_secret: true,
                    last_error: Some(
                        ServiceErrorView {
                            code: ServiceErrorCode::Internal,
                            message: error@.user_message(error@.register_error()),
                            retryable: true,
                            details: None,
                        },
                    ),
                    lifecycle: AgentLifecycleView::Starting,
                },
            ]
            &&& after.after(SupervisorEventView::Paused { completed: true }, false).1.next == (
            NextView::BuildAgent { secret: supervisor.secret })
        }),
{
}

/// The runtime gives a setup up only if it cannot succeed: the API refuses the request or the
/// registration, or what it sent cannot be read or trusted. Then it ends with an error, and says
/// so; a refused secret that came from a file is waited for anew instead.
pub proof fn setups_end_only_for_good(
    supervisor: SupervisorView,
    error: SetupError,
    cancelled: bool,
)
    ensures
        ({
            let (after, step) = supervisor.after(
                SupervisorEventView::AgentBuilt(Err(error@)),
                cancelled,
            );
            let refused_secret = error matches SetupError::ApiError(
                ApiResponseError::Auth(reason),
            ) && (reason is InvalidAgentKey || reason is NoLongerValid);
            let over_limit = error matches SetupError::ApiFail(payload) && (json_string(payload@)
                == Some("AgentDisabledOverLimit"@) || (json_string(payload@) is None
                && json_null_entry(payload@) == Some("AgentDisabledOverLimit"@)));
            let for_good = error is FailedToDecodeSignedAgentRegisterHex || error
                is RegisterInvalidSignature || (error is ApiFail && !over_limit) || (
            error matches SetupError::ApiError(answer) && !(answer is Internal)
                && !(answer matches ApiResponseError::Auth(
                crate::api::AuthError::SessionExpired,
            )));
            &&& step.next is Finish <==> for_good && !(refused_secret && supervisor.source is File
                && supervisor.can_receive)
            &&& step.next matches NextView::Finish(result) ==> result is Err
            &&& for_good && !(refused_secret && supervisor.source is File) ==> {
                &&& step.effects.len() == 1
                &&& step.effects[0] matches EffectView::Publish { phase, has_secret, .. } && phase
                    == ServicePhase::Error && has_secret
            }
            &&& refused_secret && supervisor.source is File && supervisor.can_receive ==> {
                &&& step.next == NextView::AwaitSecret
                &&& step.effects == seq![
                    EffectView::SetApi(None),
                    EffectView::Publish {
                        phase: ServicePhase::WaitingForSecret,
                        has_secret: false,
                        last_error: Some(
                            ServiceErrorView {
                                code: ServiceErrorCode::InvalidSecret,
                                message:
                                    "The configured playit secret is no longer valid. Run playit setup to provision a new secret."@,
                                retryable: true,
                                details: None,
                            },
                        ),
                        lifecycle: AgentLifecycleView::WaitingForSecret,
                    },
                ]
            }
            &&& after.secret == supervisor.secret
            &&& after.retry_attempt == supervisor.retry_attempt
        }),
{
}

/// An account with too many agents is tried again every half minute with the same secret, and
/// the state says why.
pub proof fn accounts_over_their_limit_are_retried(
    supervisor: SupervisorView,
    payload: Seq<char>,
    cancelled: bool,
)
    requires
        json_string(payload) == Some("AgentDisabledOverLimit"@) || (json_string(payload) is None
            && json_null_entry(payload) == Some("AgentDisabledOverLimit"@)),
    ensures
        ({
            let (after, step) = supervisor.after(
                SupervisorEventView::AgentBuilt(Err(SetupErrorView::ApiFail(payload))),
                cancelled,
            );
            &&& step.next == (NextView::Pause { secs: 30 })
            &&& ({
                let told = ServiceErrorView {
                    code: ServiceErrorCode::AgentDisabledOverLimit,
                    message:
                        "This account is over the agent limit. Delete an unused agent or upgrade the account, then the service will retry."@,
                    retryable: true,
                    details: None,
                };
                step.effects == seq![
                    EffectView::Publish {
                        phase: ServicePhase::DisabledOverLimit,
                        has_secret: true,
                        last_error: Some(told),
                        lifecycle: AgentLifecycleView::DisabledOverLimit(told),
                    },
                ]
            })
            &&& after.after(SupervisorEventView::Paused { completed: true }, false).1.next == (
            NextView::BuildAgent { secret: supervisor.secret })
            &&& after.after(
                SupervisorEventView::Paused { completed: true },
                false,
            ).0.retry_attempt == supervisor.retry_attempt
        }),
{
}

/// A secret that is there is used: once it was loaded or provisioned the agent is set up with
/// it, and so is the client of the API. The state tells that the service starts and has a
/// secret.
pub proof fn new_secrets_are_used(supervisor: SupervisorView, secret: Seq<char>)
    ensures
        ({
            let loaded = supervisor.after(
                SupervisorEventView::Loaded(LoadedSecretView::Ready(secret)),
                false,
            );
            let provisioned = supervisor.after(
                SupervisorEventView::Provisioned(Ok(Some(secret))),
                false,
            );
            &&& loaded == provisioned
            &&& loaded.0 == (SupervisorView { secret, ..supervisor })
            &&& loaded.1.next == (NextView::BuildAgent { secret })
            &&& loaded.1.effects.len() == 4
            &&& loaded.1.effects[1] == EffectView::SetApi(Some(secret))
            &&& loaded.1.effects[2] == EffectView::RefreshOrigins
            &&& forall|i: int|
                i == 0 || i == 3 ==> (#[trigger] loaded.1.effects[i]) == (EffectView::Publish {
                    phase: ServicePhase::Starting,
                    has_secret: true,
                    last_error: None,
                    lifecycle: AgentLifecycleView::Starting,
                })
        }),
{
}

/// Without a usable secret no agent is set up. Where a secret can be provisioned it is waited
/// for, and the state says so, with the complaint about a bad one; an inline secret that is bad
/// ends the runtime.
pub proof fn missing_secrets_are_waited_for(
    supervisor: SupervisorView,
    loaded: LoadedSecretView,
    cancelled: bool,
)
    requires
        !(loaded is Ready),
    ensures
        ({
            let (after, step) = supervisor.after(
                SupervisorEventView::Loaded(loaded),
                cancelled,
            );
            &&& after == supervisor
            &&& supervisor.source is File && supervisor.can_receive ==> {
                &&& step.next == NextView::AwaitSecret
                &&& step.effects.len() > 0
                &&& step.effects.last() matches EffectView::Publish {
                    phase,
                    has_secret,
                    last_error,
                    lifecycle,
                } && phase == ServicePhase::WaitingForSecret && !has_secret && lifecycle
                    is WaitingForSecret && match loaded {
                    LoadedSecretView::Invalid(message) => last_error == Some(
                        ServiceErrorView {
                            code: ServiceErrorCode::InvalidSecret,
                            message,
                            retryable: true,
                            details: None,
                        },
                    ),
                    _ => last_error is None,
                }
            }
            &&& !(supervisor.source is File && supervisor.can_receive) ==> step.next is Finish
                && step.next->Finish_0 is Err
            &&& loaded is Invalid ==> {
                &&& step.effects.len() > 0
                &&& step.effects[0] matches EffectView::Publish { phase, has_secret, lifecycle, .. }
                &&& phase == ServicePhase::HasInvalidSecret
                &&& !has_secret
                &&& lifecycle is HasInvalidSecret
            }
        }),
{
}

/// An agent that is set up runs, and the state says so. If it stops by itself it is set up again
/// after a pause; if it was asked to stop, the runtime ends without an error.
pub proof fn agents_run_until_they_are_stopped(
    supervisor: SupervisorView,
    failure: RuntimeErrorView,
)
    ensures
        supervisor.after(SupervisorEventView::AgentBuilt(Ok(())), false).0 == supervisor,
        supervisor.after(SupervisorEventView::AgentBuilt(Ok(())), false).1.next
            == NextView::RunAgent,
        supervisor.after(SupervisorEventView::AgentBuilt(Ok(())), false).1.effects == seq![
            EffectView::Publish {
                phase: ServicePhase::Running,
                has_secret: true,
                last_error: None,
                lifecycle: AgentLifecycleView::Starting,
            },
        ],
        supervisor.after(SupervisorEventView::AgentStopped(Ok(())), false).1.next
            == NextView::Finish(Ok(())),
        ({
            let (after, step) = supervisor.after(
                SupervisorEventView::AgentStopped(Err(failure)),
                false,
            );
            &&& step.next is Pause
            &&& step.effects == seq![
                EffectView::Publish {
                    phase: ServicePhase::Reconnecting,
                    has_secret: true,
                    last_error: Some(
                        ServiceErrorView {
                            code: ServiceErrorCode::Internal,
                            message: failure.shown(),
                            retryable: true,
                            details: None,
                        },
                    ),
                    lifecycle: AgentLifecycleView::Starting,
                },
            ]
            &&& after.after(SupervisorEventView::Paused { completed: true }, false).1.next == (
            NextView::BuildAgent { secret: supervisor.secret })
        }),
{
}

/// The first pauses after failures in a row are 1, 2, 4, 8 and 15 seconds long, and all later
/// ones half a minute; each pause that ended counts, until the counter is full.
pub proof fn pauses_follow_the_schedule(supervisor: SupervisorView, attempt: u32)
    ensures
        retry_pause(0) == 1,
        retry_pause(1) == 2,
        retry_pause(2) == 4,
        retry_pause(3) == 8,
        retry_pause(4) == 15,
        attempt >= 5 ==> retry_pause(attempt) == 30,
        supervisor.pause is Retry && supervisor.retry_attempt < u32::MAX ==> supervisor.after(
            SupervisorEventView::Paused { completed: true },
            false,
        ).0.retry_attempt == supervisor.retry_attempt + 1,
        supervisor.retry(Seq::empty()).1.next == (NextView::Pause {
            secs: if supervisor.retry_attempt == 0 {
                1
            } else if supervisor.retry_attempt == 1 {
                2
            } else if supervisor.retry_attempt == 2 {
                4
            } else if supervisor.retry_attempt == 3 {
                8
            } else if supervisor.retry_attempt == 4 {
                15
            } else {
                30
            },
        }),
{
}

/// Errors that are tried again by themselves are told so, and a refused secret sends people to
/// the setup.
pub proof fn failures_are_told_to_people(error: SetupError)
    ensures
        ({
            let told = error@.user_message(error@.register_error());
            &&& error is FailedToConnect ==> told
                == "Could not connect to Playit tunnel servers. The service will retry automatically; check your internet connection, firewall, VPN, or DNS settings."@
            &&& error is RequestError ==> told
                == "Could not reach the Playit API. The service will retry automatically; check your internet connection or try again later."@
            &&& error is Timeout ==> told
                == "Timed out while connecting to Playit. The service will retry automatically; check your network or firewall."@
            &&& error matches SetupError::IoError(failure) ==> told
                == "Could not open a required network socket: "@ + failure.message@
                + ". The service will retry automatically."@
            &&& error matches SetupError::ApiError(answer) ==> if answer
                matches ApiResponseError::Auth(crate::api::AuthError::InvalidAgentKey) || answer
                matches ApiResponseError::Auth(crate::api::AuthError::NoLongerValid) {
                told
                    == "The configured playit secret is no longer valid. Run playit setup to provision a new secret."@
            } else {
                told == "The playit API rejected the agent startup request: "@ + answer@.shown()
            }
            &&& error matches SetupError::ApiFail(payload) ==> if json_string(payload@) == Some(
                "AgentDisabledOverLimit"@,
            ) || (json_string(payload@) is None && json_null_entry(payload@) == Some(
                "AgentDisabledOverLimit"@,
            )) {
                told
                    == "This account is over the agent limit. Delete an unused agent or upgrade the account, then the service will retry."@
            } else {
                told
                    == "The playit API rejected the agent registration request. Check your account and tunnel configuration, then try again."@
            }
            &&& error is AttemptingToAuthWithOldFlow ==> told
                == "Failed to start the playit agent: "@ + "AttemptingToAuthWithOldFlow"@
            &&& error is FailedToDecodeSignedAgentRegisterHex ==> told
                == "Failed to start the playit agent: "@ + "FailedToDecodeSignedAgentRegisterHex"@
            &&& error is NoResponseFromAuthenticate ==> told
                == "Failed to start the playit agent: "@ + "NoResponseFromAuthenticate"@
            &&& error is RegisterInvalidSignature ==> told
                == "Failed to start the playit agent: "@ + "RegisterInvalidSignature"@
            &&& error is RegisterUnauthorized ==> told
                == "Failed to start the playit agent: "@ + "RegisterUnauthorized"@
        }),
{
}

/// A runtime starts unless it has no path for its secret, no address of the API, or an inline
/// secret that is empty or no hexadecimal text; the secret that is given inline is the one that
/// it uses, and else the one in the file.
pub proof fn runtimes_start_with_usable_options(options: RuntimeOptionsView)
    ensures
        start_error(options) is None <==> {
            &&& options.secret_path.len() > 0
            &&& trimmed(options.api_base).len() > 0
            &&& options.secret matches Some(secret) ==> trimmed(secret).len() > 0 && is_hex_text(
                trimmed(secret),
            )
        },
        options_error(options) is None <==> options.secret_path.len() > 0 && trimmed(
            options.api_base,
        ).len() > 0,
        options.secret matches Some(secret) ==> source_of(options) == (SecretSourceView::Inline {
            secret,
        }),
        options.secret is None ==> source_of(options) == (SecretSourceView::File {
            path: options.secret_path,
        }),
        start_error(options) matches Some(error) ==> error matches RuntimeErrorView::Failure(
            _,
            told,
        ) && !told.retryable,
{
}

/// The status tells the path of the secret unless the secret is inline, and the version and the
/// beginning of the runtime.
pub proof fn statuses_begin_with_the_options(options: RuntimeOptionsView, now: u64)
    ensures
        context_of(options, now).secret_path == if options.secret is Some {
            None
        } else {
            Some(options.secret_path)
        },
        context_of(options, now).version == version_text(
            options.version.major,
            options.version.minor,
            options.version.patch,
        ),
        context_of(options, now).start_time == now,
{
}

/// The service runs while the control channel is connected, and reconnects else.
pub proof fn phases_follow_the_channel(state: ControlConnectionState)
    ensures
        phase_of(state) == ServicePhase::Running <==> state is Connected,
        phase_of(state) == ServicePhase::Reconnecting <==> state is Reconnecting,
{
}

/// An effect is told as what it is.
pub proof fn effects_say_what_they_are(effect: Effect)
    ensures
        effect matches Effect::Publish { phase, has_secret, last_error, lifecycle }
            ==> effect@ == (EffectView::Publish {
            phase,
            has_secret,
            last_error: match last_error { Some(error) => Some(error@), None => None, },
            lifecycle: lifecycle@,
        }),
        effect matches Effect::SetApi(secret) ==> effect@ == EffectView::SetApi(opt_text(secret)),
        effect is RefreshOrigins ==> effect@ == EffectView::RefreshOrigins,
{
}

/// What is waited for is told as what it is.
pub proof fn next_steps_say_what_they_are(next: Next)
    ensures
        next is AwaitSecret ==> next@ == NextView::AwaitSecret,
        next matches Next::BuildAgent { secret }
            ==> next@ == (NextView::BuildAgent { secret: secret@ }),
        next is RunAgent ==> next@ == NextView::RunAgent,
        next matches Next::Pause { secs } ==> next@ == (NextView::Pause { secs }),
        next matches Next::Finish(result)
            ==> next@ == NextView::Finish(
            match result {
                Ok(_) => Ok(()),
                Err(error) => Err(error@),
            },
        ),
{
}

/// What keeps a runtime from starting is told in words, and a bad secret with its own code.
pub proof fn unusable_options_are_told(options: RuntimeOptionsView)
    ensures
        options.secret_path.len() == 0 ==> start_error(options) == Some(
            setup_failure("RuntimeOptions.secret_path must not be empty"@, false),
        ),
        options.secret_path.len() > 0 && trimmed(options.api_base).len() == 0 ==> start_error(
            options,
        ) == Some(setup_failure("RuntimeOptions.api_base must not be empty"@, false)),
        options.secret_path.len() > 0 && trimmed(options.api_base).len() > 0 ==> (start_error(
            options,
        ) matches Some(error) ==> error == RuntimeErrorView::Failure(
            ErrorArea::Secret,
            ServiceErrorView {
                code: ServiceErrorCode::InvalidSecret,
                message: secret_complaint(trimmed(options.secret->0)),
                retryable: false,
                details: None,
            },
        )),
        forall|message: Seq<char>, retryable: bool| #[trigger]
            setup_failure(message, retryable) == RuntimeErrorView::Failure(
                ErrorArea::Setup,
                ServiceErrorView {
                    code: ServiceErrorCode::Internal,
                    message,
                    retryable,
                    details: None,
                },
            ),
{
}

/// A runtime that has nowhere to wait for a secret says why, and its state says what was wrong
/// with the secret that it had.
pub proof fn runtimes_without_a_secret_say_why(
    supervisor: SupervisorView,
    message: Seq<char>,
    cancelled: bool,
)
    ensures
        supervisor.source is Inline ==> supervisor.after(
            SupervisorEventView::Loaded(LoadedSecretView::Missing),
            cancelled,
        ).1.next == NextView::Finish(
            Err(
                RuntimeErrorView::Failure(
                    ErrorArea::Secret,
                    ServiceErrorView {
                        code: ServiceErrorCode::ProvisioningUnavailable,
                        message: "No file-backed secret source is available for provisioning."@,
                        retryable: false,
                        details: None,
                    },
                ),
            ),
        ),
        supervisor.source is File && !supervisor.can_receive ==> supervisor.after(
            SupervisorEventView::Loaded(LoadedSecretView::Missing),
            cancelled,
        ).1.next == NextView::Finish(Err(supervisor.source.provisioning_error())),
        supervisor.source is Inline ==> supervisor.after(
            SupervisorEventView::Loaded(LoadedSecretView::Invalid(message)),
            cancelled,
        ).1.next == NextView::Finish(
            Err(
                RuntimeErrorView::Failure(
                    ErrorArea::Secret,
                    ServiceErrorView {
                        code: ServiceErrorCode::InvalidSecret,
                        message,
                        retryable: false,
                        details: None,
                    },
                ),
            ),
        ),
        ({
            let told = ServiceErrorView {
                code: ServiceErrorCode::InvalidSecret,
                message,
                retryable: supervisor.source is File,
                details: None,
            };
            let effects = supervisor.after(
                SupervisorEventView::Loaded(LoadedSecretView::Invalid(message)),
                cancelled,
            ).1.effects;
            effects.len() > 0 && effects[0] == (EffectView::Publish {
                phase: ServicePhase::HasInvalidSecret,
                has_secret: false,
                last_error: Some(told),
                lifecycle: AgentLifecycleView::HasInvalidSecret(told),
            })
        }),
        supervisor.after(SupervisorEventView::Provisioned(Ok(None)), cancelled).1.next
            == NextView::Finish(Ok(())),
        forall|error: RuntimeErrorView| #[trigger]
            supervisor.after(SupervisorEventView::Provisioned(Err(error)), cancelled).1.next
                == NextView::Finish(Err(error)),
{
}

/// A runtime that ends tells that it stops and whether it had a secret: it had none if it still
/// waited for one.
pub proof fn ending_runtimes_tell_so(supervisor: SupervisorView, secret: Seq<char>)
    ensures
        supervisor.after(SupervisorEventView::Provisioned(Ok(None)), false).1.effects == seq![
            EffectView::Publish {
                phase: ServicePhase::Stopping,
                has_secret: false,
                last_error: None,
                lifecycle: AgentLifecycleView::Stopping,
            },
        ],
        ({
            let told = EffectView::Publish {
                phase: ServicePhase::Stopping,
                has_secret: true,
                last_error: None,
                lifecycle: AgentLifecycleView::Stopping,
            };
            let unfinished = SupervisorEventView::Paused { completed: false };
            let loaded = SupervisorEventView::Loaded(LoadedSecretView::Ready(secret));
            &&& supervisor.after(unfinished, false).1.effects == seq![told]
            &&& supervisor.after(unfinished, false).1.next == NextView::Finish(Ok(()))
            &&& supervisor.after(loaded, true).1.effects.last() == told
        }),
        supervisor.pause is Retry && supervisor.retry_attempt == u32::MAX ==> supervisor.after(
            SupervisorEventView::Paused { completed: true },
            false,
        ).0.retry_attempt == u32::MAX,
        supervisor.pause is AgentLimit ==> supervisor.after(
            SupervisorEventView::Paused { completed: true },
            false,
        ).0 == supervisor,
{
}

/// A setup that is given up for good is told as an error of the service, with what people are to
/// know of it, and ends the runtime with that very error.
pub proof fn failed_setups_are_told(supervisor: SupervisorView, error: SetupError)
    requires
        error is FailedToDecodeSignedAgentRegisterHex || error is RegisterInvalidSignature,
    ensures
        ({
            let told = ServiceErrorView {
                code: ServiceErrorCode::Internal,
                message: error@.user_message(error@.register_error()),
                retryable: true,
                details: None,
            };
            let step = supervisor.after(SupervisorEventView::AgentBuilt(Err(error@)), false).1;
            &&& step.effects == seq![
                EffectView::Publish {
                    phase: ServicePhase::Error,
                    has_secret: true,
                    last_error: Some(told),
                    lifecycle: AgentLifecycleView::Error(told),
                },
            ]
            &&& step.next == NextView::Finish(
                Err(RuntimeErrorView::Failure(ErrorArea::Setup, told)),
            )
        }),
{
}

} // verus!
