//! The command line: what a command asks for, and how claims are carried through by hand.

use vstd::prelude::*;

use crate::api::{
    ApiError, ApiErrorNoFail, ApiResponseError, ApiResponseErrorView, ApiResult, ClaimAgentType,
    ClaimSetupError, ClaimSetupResponse,
};
use crate::claim::{claim_page, generate_claim_code, is_claim_code};
use crate::http_client::{HttpClientError, HttpClientErrorView};
use crate::ids::{uuid_shown, uuid_text};
use crate::options::PACKAGE_VERSION;
use crate::outside::{
    debug_quoted, decode_hex, is_hex_text, json_quoted, parse_uuid, quote_debug, quote_json,
    uuid_parse,
};
use crate::state::{guest_link, guest_login_link};
use crate::text::{copy_opt, join2, join3, opt_text, owned, same, texts, trim, trimmed};
use crate::web_api::{
    AgentDeleteMoveDetails, AgentsList, ClaimAcceptFail, ClaimAccepted, ClaimDetails,
    ClaimDetailsFail, ClaimRejectFail, ReqAgentsDelete, TunnelsStrategy, WebApiError,
};

verus! {

// ---------------------------------------------------------------------------
// Errors
// ---------------------------------------------------------------------------

/// Why a command failed.
#[derive(Debug)]
pub enum CliError {
    InvalidClaimCode,
    NotImplemented,
    MissingSecret,
    MalformedSecret,
    InvalidSecret,
    /// The terminal failed; the I/O error as `{:?}` shows it.
    RenderError(String),
    SecretFileLoadError,
    /// The secret file could not be written; the I/O error as `{:?}` shows it.
    SecretFileWriteError(String),
    SecretFilePathMissing,
    InvalidPortType,
    InvalidPortCount,
    InvalidMappingOverride,
    AgentClaimRejected,
    InvalidConfigFile,
    TunnelNotFound(u128),
    TimedOut,
    AnswerNotProvided,
    SessionError(String),
    TunnelOverwrittenAlready(u128),
    ResourceNotFoundAfterCreate(u128),
    RequestError(HttpClientError),
    ApiError(ApiResponseError),
    ApiFail(String),
    /// The agent could not be set up; the error as `{:?}` shows it.
    TunnelSetupError(String),
    ServiceError(String),
    IpcError(String),
}

/// The model of a [`CliError`].
#[verifier::ext_equal]
pub enum CliErrorView {
    InvalidClaimCode,
    NotImplemented,
    MissingSecret,
    MalformedSecret,
    InvalidSecret,
    RenderError(Seq<char>),
    SecretFileLoadError,
    SecretFileWriteError(Seq<char>),
    SecretFilePathMissing,
    InvalidPortType,
    InvalidPortCount,
    InvalidMappingOverride,
    AgentClaimRejected,
    InvalidConfigFile,
    TunnelNotFound(u128),
    TimedOut,
    AnswerNotProvided,
    SessionError(Seq<char>),
    TunnelOverwrittenAlready(u128),
    ResourceNotFoundAfterCreate(u128),
    RequestError(HttpClientErrorView),
    ApiError(ApiResponseErrorView),
    ApiFail(Seq<char>),
    TunnelSetupError(Seq<char>),
    ServiceError(Seq<char>),
    IpcError(Seq<char>),
}

impl View for CliError {
    type V = CliErrorView;

    open spec fn view(&self) -> CliErrorView {
        match *self {
            CliError::InvalidClaimCode => CliErrorView::InvalidClaimCode,
            CliError::NotImplemented => CliErrorView::NotImplemented,
            CliError::MissingSecret => CliErrorView::MissingSecret,
            CliError::MalformedSecret => CliErrorView::MalformedSecret,
            CliError::InvalidSecret => CliErrorView::InvalidSecret,
            CliError::RenderError(error) => CliErrorView::RenderError(error@),
            CliError::SecretFileLoadError => CliErrorView::SecretFileLoadError,
            CliError::SecretFileWriteError(error) => CliErrorView::SecretFileWriteError(error@),
            CliError::SecretFilePathMissing => CliErrorView::SecretFilePathMissing,
            CliError::InvalidPortType => CliErrorView::InvalidPortType,
            CliError::InvalidPortCount => CliErrorView::InvalidPortCount,
            CliError::InvalidMappingOverride => CliErrorView::InvalidMappingOverride,
            CliError::AgentClaimRejected => CliErrorView::AgentClaimRejected,
            CliError::InvalidConfigFile => CliErrorView::InvalidConfigFile,
            CliError::TunnelNotFound(id) => CliErrorView::TunnelNotFound(id),
            CliError::TimedOut => CliErrorView::TimedOut,
            CliError::AnswerNotProvided => CliErrorView::AnswerNotProvided,
            CliError::SessionError(message) => CliErrorView::SessionError(message@),
            CliError::TunnelOverwrittenAlready(id) => CliErrorView::TunnelOverwrittenAlready(id),
            CliError::ResourceNotFoundAfterCreate(id) => CliErrorView::ResourceNotFoundAfterCreate(id),
            CliError::RequestError(error) => CliErrorView::RequestError(error@),
            CliError::ApiError(error) => CliErrorView::ApiError(error@),
            CliError::ApiFail(message) => CliErrorView::ApiFail(message@),
            CliError::TunnelSetupError(error) => CliErrorView::TunnelSetupError(error@),
            CliError::ServiceError(message) => CliErrorView::ServiceError(message@),
            CliError::IpcError(message) => CliErrorView::IpcError(message@),
        }
    }
}

impl CliErrorView {
    /// The error in words.
    pub open spec fn shown(self) -> Seq<char> {
        match self {
            CliErrorView::InvalidClaimCode => "InvalidClaimCode"@,
            CliErrorView::NotImplemented => "NotImplemented"@,
            CliErrorView::MissingSecret => "MissingSecret"@,
            CliErrorView::MalformedSecret => "MalformedSecret"@,
            CliErrorView::InvalidSecret => "InvalidSecret"@,
            CliErrorView::RenderError(error) => "RenderError("@ + error + ")"@,
            CliErrorView::SecretFileLoadError => "SecretFileLoadError"@,
            CliErrorView::SecretFileWriteError(error) => "SecretFileWriteError("@ + error + ")"@,
            CliErrorView::SecretFilePathMissing => "SecretFilePathMissing"@,
            CliErrorView::InvalidPortType => "InvalidPortType"@,
            CliErrorView::InvalidPortCount => "InvalidPortCount"@,
            CliErrorView::InvalidMappingOverride => "InvalidMappingOverride"@,
            CliErrorView::AgentClaimRejected => "AgentClaimRejected"@,
            CliErrorView::InvalidConfigFile => "InvalidConfigFile"@,
            CliErrorView::TunnelNotFound(id) => "TunnelNotFound("@ + uuid_shown(id) + ")"@,
            CliErrorView::TimedOut => "TimedOut"@,
            CliErrorView::AnswerNotProvided => "AnswerNotProvided"@,
            CliErrorView::SessionError(message) => message,
            CliErrorView::TunnelOverwrittenAlready(id) => "TunnelOverwrittenAlready("@ + uuid_shown(id) + ")"@,
            CliErrorView::ResourceNotFoundAfterCreate(id) => "ResourceNotFoundAfterCreate("@ + uuid_shown(id) + ")"@,
            CliErrorView::RequestError(error) => "RequestError("@ + error.debugged() + ")"@,
            CliErrorView::ApiError(error) => "ApiError("@ + error.shown() + ")"@,
            CliErrorView::ApiFail(message) => message,
            CliErrorView::TunnelSetupError(error) => "TunnelSetupError("@ + error + ")"@,
            CliErrorView::ServiceError(message) => message,
            CliErrorView::IpcError(message) => message,
        }
    }
}

impl CliError {
    /// The error in words.
    pub fn to_text(&self) -> (r: String)
        ensures
            r@ == self@.shown(),
    {
        match self {
            CliError::InvalidClaimCode => owned("InvalidClaimCode"),
            CliError::NotImplemented => owned("NotImplemented"),
            CliError::MissingSecret => owned("MissingSecret"),
            CliError::MalformedSecret => owned("MalformedSecret"),
            CliError::InvalidSecret => owned("InvalidSecret"),
            CliError::RenderError(error) => join3("RenderError(", error.as_str(), ")"),
            CliError::SecretFileLoadError => owned("SecretFileLoadError"),
            CliError::SecretFileWriteError(error) => join3("SecretFileWriteError(", error.as_str(), ")"),
            CliError::SecretFilePathMissing => owned("SecretFilePathMissing"),
            CliError::InvalidPortType => owned("InvalidPortType"),
            CliError::InvalidPortCount => owned("InvalidPortCount"),
            CliError::InvalidMappingOverride => owned("InvalidMappingOverride"),
            CliError::AgentClaimRejected => owned("AgentClaimRejected"),
            CliError::InvalidConfigFile => owned("InvalidConfigFile"),
            CliError::TunnelNotFound(id) => {
                let id = uuid_text(*id);
                join3("TunnelNotFound(", id.as_str(), ")")
            },
            CliError::TimedOut => owned("TimedOut"),
            CliError::AnswerNotProvided => owned("AnswerNotProvided"),
            CliError::SessionError(message) => message.clone(),
            CliError::TunnelOverwrittenAlready(id) => {
                let id = uuid_text(*id);
                join3("TunnelOverwrittenAlready(", id.as_str(), ")")
            },
            CliError::ResourceNotFoundAfterCreate(id) => {
                let id = uuid_text(*id);
                join3("ResourceNotFoundAfterCreate(", id.as_str(), ")")
            },
            CliError::RequestError(error) => {
                let shown = error.debug_text();
                join3("RequestError(", shown.as_str(), ")")
            },
            CliError::ApiError(error) => {
                let shown = error.debug_text();
                join3("ApiError(", shown.as_str(), ")")
            },
            CliError::ApiFail(message) => message.clone(),
            CliError::TunnelSetupError(error) => join3("TunnelSetupError(", error.as_str(), ")"),
            CliError::ServiceError(message) => message.clone(),
            CliError::IpcError(message) => message.clone(),
        }
    }
}

/// The error for a call as an account that got no usable answer.
pub fn session_error(error: WebApiError) -> (r: CliError)
    ensures
        r@ == CliErrorView::SessionError(error@.shown()),
{
    CliError::SessionError(error.to_text())
}

/// The error for a call whose failure is typed; the failure is given as JSON.
pub fn cli_error(error: ApiError<String>) -> (r: CliError)
    ensures
        r@ == match error {
            ApiError::Fail(fail) => CliErrorView::ApiFail(fail@),
            ApiError::ApiError(e) => CliErrorView::ApiError(e@),
            ApiError::ClientError(e) => CliErrorView::RequestError(e@),
        },
{
    match error {
        ApiError::Fail(fail) => CliError::ApiFail(fail),
        ApiError::ApiError(e) => CliError::ApiError(e),
        ApiError::ClientError(e) => CliError::RequestError(e),
    }
}

/// The error for a call without typed failures.
pub fn cli_error_no_fail(error: ApiErrorNoFail) -> (r: CliError)
    ensures
        r@ == match error {
            ApiErrorNoFail::UnexpectedFail => CliErrorView::ApiFail("unexpected API fail response"@),
            ApiErrorNoFail::ApiError(e) => CliErrorView::ApiError(e@),
            ApiErrorNoFail::ClientError(e) => CliErrorView::RequestError(e@),
        },
{
    match error {
        ApiErrorNoFail::UnexpectedFail => CliError::ApiFail(owned("unexpected API fail response")),
        ApiErrorNoFail::ApiError(e) => CliError::ApiError(e),
        ApiErrorNoFail::ClientError(e) => CliError::RequestError(e),
    }
}

// ---------------------------------------------------------------------------
// Commands
// ---------------------------------------------------------------------------

/// How the service is started and stopped.
#[derive(Clone, Copy, Debug, PartialEq, Eq, Structural)]
pub enum ServiceManagerMode {
    /// Not by a service manager.
    Unmanaged,
    Systemd,
    OpenRc,
    WindowsService,
    Native,
}

/// The operating system of the command line, with the flags that it offers there.
#[derive(Clone, Copy, Debug, PartialEq, Eq, Structural)]
pub enum CliHost {
    Linux { systemd: bool, openrc: bool },
    Windows,
    Other,
}

impl CliHost {
    /// The two flags exclude each other.
    pub open spec fn valid(self) -> bool {
        self matches CliHost::Linux { systemd, openrc } ==> !(systemd && openrc)
    }
}

/// How the service is started and stopped.
pub open spec fn manager_of(host: CliHost) -> ServiceManagerMode {
    match host {
        CliHost::Linux { systemd, openrc } => if systemd {
            ServiceManagerMode::Systemd
        } else if openrc {
            ServiceManagerMode::OpenRc
        } else {
            ServiceManagerMode::Unmanaged
        },
        CliHost::Windows => ServiceManagerMode::WindowsService,
        CliHost::Other => ServiceManagerMode::Native,
    }
}

/// How the service is started and stopped.
pub fn service_manager_mode(host: CliHost) -> (r: ServiceManagerMode)
    requires
        host.valid(),
    ensures
        r == manager_of(host),
{
    match host {
        CliHost::Linux { systemd, openrc } => if systemd {
            ServiceManagerMode::Systemd
        } else if openrc {
            ServiceManagerMode::OpenRc
        } else {
            ServiceManagerMode::Unmanaged
        },
        CliHost::Windows => ServiceManagerMode::WindowsService,
        CliHost::Other => ServiceManagerMode::Native,
    }
}

/// A command, as it was given.
#[derive(Debug)]
pub enum Command {
    /// No command.
    Auto,
    Attach { stdout: bool },
    Start,
    Stop,
    Status,
    Version,
    Reset,
    SecretPath,
    Setup { direct: bool, name: Option<String> },
    AgentsList,
    AgentsDelete { agent_id: String, move_tunnels_to: Option<String>, disable_tunnels: bool },
    AccountLoginUrl,
    AccountLogin { email: Option<String>, password_stdin: bool },
    AccountLogout,
    AccountStatus,
    AccountValidate,
    ClaimGenerate,
    ClaimUrl { claim_code: String },
    ClaimExchange { claim_code: String, wait: u32 },
    ClaimInspect { claim_code: String },
    ClaimApprove { claim_code: String, name: Option<String>, agent_type: Option<String> },
    ClaimReject { claim_code: String },
}

/// How the command line follows the service.
#[derive(Clone, Copy, Debug, PartialEq, Eq, Structural)]
pub enum AttachMode {
    Stdout,
    Interactive,
}

/// What a command comes to.
#[derive(Debug)]
pub enum CliAction {
    Auto { attach: AttachMode, manager: ServiceManagerMode },
    Attach { attach: AttachMode },
    Start { manager: ServiceManagerMode },
    Stop { manager: ServiceManagerMode },
    Status,
    Reset,
    SecretPath,
    Setup { direct: bool, name: Option<String>, manager: ServiceManagerMode },
    AgentsList,
    AgentsDelete { agent_id: String, move_tunnels_to: Option<String>, disable_tunnels: bool },
    AccountLoginUrl,
    AccountLogin { email: Option<String>, password_stdin: bool },
    AccountLogout,
    AccountStatus,
    AccountValidate,
    /// Exchange the claim and print the secret.
    ClaimExchange { claim_code: String, agent_type: ClaimAgentType, wait: u32 },
    ClaimInspect { claim_code: String },
    ClaimApprove { claim_code: String, name: Option<String>, agent_type: Option<String> },
    ClaimReject { claim_code: String },
    /// Print a text.
    Print(String),
}

/// What the command line does.
#[derive(Debug)]
pub struct CliPlan {
    /// Whether logs go to the standard output.
    pub log_to_stdout: bool,
    pub action: CliAction,
}

/// Logs go to the standard output if either flag says so.
pub open spec fn to_stdout(stdout: bool, command: Command) -> bool {
    stdout || command == (Command::Attach { stdout: true })
}

pub open spec fn attach_of(stdout: bool) -> AttachMode {
    if stdout {
        AttachMode::Stdout
    } else {
        AttachMode::Interactive
    }
}

/// What a command comes to, given where its output goes.
pub open spec fn action_of(
    stdout: bool,
    manager: ServiceManagerMode,
    command: Command,
    action: CliAction,
) -> bool {
    let attach = attach_of(to_stdout(stdout, command));
    match command {
        Command::Auto => action == (CliAction::Auto { attach, manager }),
        Command::Attach { .. } => action == (CliAction::Attach { attach }),
        Command::Start => action == (CliAction::Start { manager }),
        Command::Stop => action == (CliAction::Stop { manager }),
        Command::Status => action is Status,
        Command::Version => action matches CliAction::Print(text) && text@ == PACKAGE_VERSION@,
        Command::Reset => action is Reset,
        Command::SecretPath => action is SecretPath,
        Command::Setup { direct, name } => action == (CliAction::Setup { direct, name, manager }),
        Command::AgentsList => action is AgentsList,
        Command::AgentsDelete { agent_id, move_tunnels_to, disable_tunnels } => action == (
        CliAction::AgentsDelete { agent_id, move_tunnels_to, disable_tunnels }),
        Command::AccountLoginUrl => action is AccountLoginUrl,
        Command::AccountLogin { email, password_stdin } => action == (CliAction::AccountLogin {
            email,
            password_stdin,
        }),
        Command::AccountLogout => action is AccountLogout,
        Command::AccountStatus => action is AccountStatus,
        Command::AccountValidate => action is AccountValidate,
        Command::ClaimGenerate => action matches CliAction::Print(code) && is_claim_code(code@),
        Command::ClaimUrl { claim_code } => is_hex_text(claim_code@) && (action
            matches CliAction::Print(url) && url@ == claim_page(claim_code@)),
        Command::ClaimExchange { claim_code, wait } => action == (CliAction::ClaimExchange {
            claim_code,
            agent_type: ClaimAgentType::SelfManaged,
            wait,
        }),
        Command::ClaimInspect { claim_code } => action == (CliAction::ClaimInspect { claim_code }),
        Command::ClaimApprove { claim_code, name, agent_type } => action == (
        CliAction::ClaimApprove { claim_code, name, agent_type }),
        Command::ClaimReject { claim_code } => action == (CliAction::ClaimReject { claim_code }),
    }
}

/// What the command line does. Only a claim code that is none keeps a command from being
/// carried out.
pub fn run_cli(stdout: bool, host: CliHost, command: Command) -> (r: Result<CliPlan, CliError>)
    requires
        host.valid(),
    ensures
        match r {
            Ok(plan) => plan.log_to_stdout == to_stdout(stdout, command) && action_of(
                stdout,
                manager_of(host),
                command,
                plan.action,
            ),
            Err(error) => error@ == CliErrorView::InvalidClaimCode && (command
                matches Command::ClaimUrl { claim_code } && !is_hex_text(claim_code@)),
        },
{
    let manager = service_manager_mode(host);
    let log_to_stdout = stdout || match &command {
        Command::Attach { stdout } => *stdout,
        _ => false,
    };
    let attach = if log_to_stdout {
        AttachMode::Stdout
    } else {
        AttachMode::Interactive
    };
    let action = match command {
        Command::Auto => CliAction::Auto { attach, manager },
        Command::Attach { .. } => CliAction::Attach { attach },
        Command::Start => CliAction::Start { manager },
        Command::Stop => CliAction::Stop { manager },
        Command::Status => CliAction::Status,
        Command::Version => CliAction::Print(owned(PACKAGE_VERSION)),
        Command::Reset => CliAction::Reset,
        Command::SecretPath => CliAction::SecretPath,
        Command::Setup { direct, name } => CliAction::Setup { direct, name, manager },
        Command::AgentsList => CliAction::AgentsList,
        Command::AgentsDelete { agent_id, move_tunnels_to, disable_tunnels } =>
            CliAction::AgentsDelete { agent_id, move_tunnels_to, disable_tunnels },
        Command::AccountLoginUrl => CliAction::AccountLoginUrl,
        Command::AccountLogin { email, password_stdin } => CliAction::AccountLogin {
            email,
            password_stdin,
        },
        Command::AccountLogout => CliAction::AccountLogout,
        Command::AccountStatus => CliAction::AccountStatus,
        Command::AccountValidate => CliAction::AccountValidate,
        Command::ClaimGenerate => CliAction::Print(claim_generate()),
        Command::ClaimUrl { claim_code } => match claim_url(claim_code.as_str()) {
            Ok(url) => CliAction::Print(url),
            Err(error) => return Err(error),
        },
        Command::ClaimExchange { claim_code, wait } => CliAction::ClaimExchange {
            claim_code,
            agent_type: ClaimAgentType::SelfManaged,
            wait,
        },
        Command::ClaimInspect { claim_code } => CliAction::ClaimInspect { claim_code },
        Command::ClaimApprove { claim_code, name, agent_type } => CliAction::ClaimApprove {
            claim_code,
            name,
            agent_type,
        },
        Command::ClaimReject { claim_code } => CliAction::ClaimReject { claim_code },
    };
    Ok(CliPlan { log_to_stdout, action })
}

// ---------------------------------------------------------------------------
// Setup
// ---------------------------------------------------------------------------

/// How long a guest's login link is shown before the setup goes on, in milliseconds.
pub const GUEST_LINK_PAUSE_MILLIS: u64 = 10_000;

/// What is told when the service is set up.
pub open spec fn setup_told() -> Seq<char> {
    "playit setup is complete. The background service is ready."@
}

/// Setting the service up, with the stored session or in the browser.
pub struct SetupFlow {
    /// With the stored session.
    pub direct: bool,
    /// The agent's name that was given.
    pub name: Option<String>,
    /// The claim that is made for it.
    pub claim_code: String,
    /// The secret that the claim was exchanged for: empty until then.
    pub secret: String,
}

/// The model of a [`SetupFlow`].
#[verifier::ext_equal]
pub struct SetupFlowView {
    pub direct: bool,
    pub name: Option<Seq<char>>,
    pub claim_code: Seq<char>,
    pub secret: Seq<char>,
}

impl View for SetupFlow {
    type V = SetupFlowView;

    open spec fn view(&self) -> SetupFlowView {
        SetupFlowView {
            direct: self.direct,
            name: opt_text(self.name),
            claim_code: self.claim_code@,
            secret: self.secret@,
        }
    }
}

/// What came of the last step of a setup.
#[derive(Debug)]
pub enum SetupEvent {
    SessionChecked(Result<(), CliError>),
    /// Whether the service waits for a secret.
    ServiceWaiting(Result<(), CliError>),
    Approved(Result<(), CliError>),
    /// The secret that the claim was exchanged for.
    Exchanged(Result<String, CliError>),
    Provisioned(Result<(), CliError>),
    /// The key of a guest session, if there is one.
    GuestLogin(Option<String>),
    Paused,
}

/// What a setup does next.
#[derive(Debug)]
pub enum SetupNext {
    /// Check that the stored session is accepted.
    RequireSession,
    /// See to it that the service waits for a secret.
    EnsureWaiting,
    /// Approve the claim with the stored session.
    Approve { claim_code: String, name: Option<String> },
    /// Exchange the claim for the secret, however long the owner takes where the wait is 0.
    Exchange { claim_code: String, agent_type: ClaimAgentType, wait_sec: u32 },
    /// Hand the secret to the service.
    Provision { secret: String },
    /// Ask for a guest session with the secret.
    LoginGuest { secret: String },
    Pause { millis: u64 },
    Done,
    Fail(CliError),
}

/// The model of a [`SetupNext`].
#[verifier::ext_equal]
pub enum SetupNextView {
    RequireSession,
    EnsureWaiting,
    Approve { claim_code: Seq<char>, name: Option<Seq<char>> },
    Exchange { claim_code: Seq<char>, agent_type: ClaimAgentType, wait_sec: u32 },
    Provision { secret: Seq<char> },
    LoginGuest { secret: Seq<char> },
    Pause { millis: u64 },
    Done,
    Fail(CliErrorView),
}

impl View for SetupNext {
    type V = SetupNextView;

    open spec fn view(&self) -> SetupNextView {
        match *self {
            SetupNext::RequireSession => SetupNextView::RequireSession,
            SetupNext::EnsureWaiting => SetupNextView::EnsureWaiting,
            SetupNext::Approve { claim_code, name } => SetupNextView::Approve {
                claim_code: claim_code@,
                name: opt_text(name),
            },
            SetupNext::Exchange { claim_code, agent_type, wait_sec } => SetupNextView::Exchange {
                claim_code: claim_code@,
                agent_type,
                wait_sec,
            },
            SetupNext::Provision { secret } => SetupNextView::Provision { secret: secret@ },
            SetupNext::LoginGuest { secret } => SetupNextView::LoginGuest { secret: secret@ },
            SetupNext::Pause { millis } => SetupNextView::Pause { millis },
            SetupNext::Done => SetupNextView::Done,
            SetupNext::Fail(error) => SetupNextView::Fail(error@),
        }
    }
}

/// What a setup shows, if anything, and what it does then.
#[derive(Debug)]
pub struct SetupStep {
    pub show: Option<String>,
    pub next: SetupNext,
}

/// The model of a [`SetupStep`].
#[verifier::ext_equal]
pub struct SetupStepView {
    pub show: Option<Seq<char>>,
    pub next: SetupNextView,
}

impl View for SetupStep {
    type V = SetupStepView;

    open spec fn view(&self) -> SetupStepView {
        SetupStepView { show: opt_text(self.show), next: self.next@ }
    }
}

/// A step that shows nothing.
pub open spec fn quietly(next: SetupNextView) -> SetupStepView {
    SetupStepView { show: None, next }
}

impl SetupFlowView {
    /// What a setup begins with.
    pub open spec fn first(self) -> SetupNextView {
        if self.direct {
            SetupNextView::RequireSession
        } else {
            SetupNextView::EnsureWaiting
        }
    }

    /// The exchange of the claim: for an agent that can be assigned, with no end to the wait.
    pub open spec fn exchange(self) -> SetupNextView {
        SetupNextView::Exchange {
            claim_code: self.claim_code,
            agent_type: ClaimAgentType::Assignable,
            wait_sec: 0,
        }
    }

    /// What follows an event.
    pub open spec fn step(self, event: SetupEvent) -> SetupStepView {
        match event {
            SetupEvent::SessionChecked(Ok(_)) => quietly(SetupNextView::EnsureWaiting),
            SetupEvent::SessionChecked(Err(error)) => quietly(SetupNextView::Fail(error@)),
            SetupEvent::ServiceWaiting(Ok(_)) => if self.direct {
                quietly(
                    SetupNextView::Approve { claim_code: self.claim_code, name: self.name },
                )
            } else if is_hex_text(self.claim_code) {
                SetupStepView {
                    show: Some(
                        "Open this link to finish setting up playit:\n"@ + claim_page(
                            self.claim_code,
                        ),
                    ),
                    next: self.exchange(),
                }
            } else {
                quietly(SetupNextView::Fail(CliErrorView::InvalidClaimCode))
            },
            SetupEvent::ServiceWaiting(Err(error)) => quietly(SetupNextView::Fail(error@)),
            SetupEvent::Approved(Ok(_)) => quietly(self.exchange()),
            SetupEvent::Approved(Err(error)) => quietly(SetupNextView::Fail(error@)),
            SetupEvent::Exchanged(Ok(secret)) => quietly(
                SetupNextView::Provision { secret: secret@ },
            ),
            SetupEvent::Exchanged(Err(error)) => quietly(SetupNextView::Fail(error@)),
            SetupEvent::Provisioned(Ok(_)) => if self.direct {
                SetupStepView { show: Some(setup_told()), next: SetupNextView::Done }
            } else {
                quietly(SetupNextView::LoginGuest { secret: self.secret })
            },
            SetupEvent::Provisioned(Err(error)) => quietly(SetupNextView::Fail(error@)),
            SetupEvent::GuestLogin(Some(key)) => SetupStepView {
                show: Some("Guest login:\n"@ + guest_link(key@)),
                next: SetupNextView::Pause { millis: GUEST_LINK_PAUSE_MILLIS },
            },
            SetupEvent::GuestLogin(None) => SetupStepView {
                show: Some(setup_told()),
                next: SetupNextView::Done,
            },
            SetupEvent::Paused => SetupStepView {
                show: Some(setup_told()),
                next: SetupNextView::Done,
            },
        }
    }

    /// The setup after an event: it keeps the secret that the claim was exchanged for.
    pub open spec fn after(self, event: SetupEvent) -> SetupFlowView {
        match event {
            SetupEvent::Exchanged(Ok(secret)) => SetupFlowView { secret: secret@, ..self },
            _ => self,
        }
    }

    /// The setup after some events.
    pub open spec fn reached(self, events: Seq<SetupEvent>) -> SetupFlowView
        decreases events.len(),
    {
        if events.len() == 0 {
            self
        } else {
            self.reached(events.drop_last()).after(events.last())
        }
    }

    /// What the setup does after some events.
    pub open spec fn next_after(self, events: Seq<SetupEvent>) -> SetupNextView {
        if events.len() == 0 {
            self.first()
        } else {
            self.reached(events.drop_last()).step(events.last()).next
        }
    }

    /// The events of a setup from its beginning on: each came of what was to be done.
    pub open spec fn runs(self, events: Seq<SetupEvent>) -> bool
        decreases events.len(),
    {
        events.len() == 0 || (self.runs(events.drop_last()) && came_of(
            events.last(),
            self.next_after(events.drop_last()),
        ))
    }
}

/// An event is what came of a step of a setup.
pub open spec fn came_of(event: SetupEvent, next: SetupNextView) -> bool {
    match next {
        SetupNextView::RequireSession => event is SessionChecked,
        SetupNextView::EnsureWaiting => event is ServiceWaiting,
        SetupNextView::Approve { .. } => event is Approved,
        SetupNextView::Exchange { .. } => event is Exchanged,
        SetupNextView::Provision { .. } => event is Provisioned,
        SetupNextView::LoginGuest { .. } => event is GuestLogin,
        SetupNextView::Pause { .. } => event is Paused,
        SetupNextView::Done => false,
        SetupNextView::Fail(_) => false,
    }
}

/// Set the service up with a new claim, with the stored session or in the browser.
pub fn run_setup_flow(direct: bool, name: Option<String>) -> (r: SetupFlow)
    ensures
        is_claim_code(r@.claim_code),
        r@ == (SetupFlowView {
            direct,
            name: opt_text(name),
            claim_code: r@.claim_code,
            secret: Seq::empty(),
        }),
{
    SetupFlow::start(direct, name, claim_generate())
}

impl SetupFlow {
    /// Set the service up with a claim.
    pub fn start(direct: bool, name: Option<String>, claim_code: String) -> (r: Self)
        ensures
            r@ == (SetupFlowView {
                direct,
                name: opt_text(name),
                claim_code: claim_code@,
                secret: Seq::empty(),
            }),
    {
        let flow = SetupFlow { direct, name, claim_code, secret: String::new() };
        assert(flow@.secret =~= Seq::empty());
        flow
    }

    /// What a setup begins with.
    pub fn first(&self) -> (r: SetupNext)
        ensures
            r@ == self@.first(),
    {
        if self.direct {
            SetupNext::RequireSession
        } else {
            SetupNext::EnsureWaiting
        }
    }

    fn exchange(&self) -> (r: SetupNext)
        ensures
            r@ == self@.exchange(),
    {
        SetupNext::Exchange {
            claim_code: self.claim_code.clone(),
            agent_type: ClaimAgentType::Assignable,
            wait_sec: 0,
        }
    }

    /// What follows an event.
    pub fn step(&mut self, event: SetupEvent) -> (r: SetupStep)
        ensures
            final(self)@ == old(self)@.after(event),
            r@ == old(self)@.step(event),
    {
        match event {
            SetupEvent::SessionChecked(Ok(_)) => SetupStep {
                show: None,
                next: SetupNext::EnsureWaiting,
            },
            SetupEvent::ServiceWaiting(Ok(_)) => if self.direct {
                let next = SetupNext::Approve {
                    claim_code: self.claim_code.clone(),
                    name: copy_opt(&self.name),
                };
                SetupStep { show: None, next }
            } else {
                match claim_url(self.claim_code.as_str()) {
                    Ok(page) => SetupStep {
                        show: Some(
                            join2("Open this link to finish setting up playit:\n", page.as_str()),
                        ),
                        next: self.exchange(),
                    },
                    Err(error) => SetupStep { show: None, next: SetupNext::Fail(error) },
                }
            },
            SetupEvent::Approved(Ok(_)) => SetupStep { show: None, next: self.exchange() },
            SetupEvent::Exchanged(Ok(secret)) => {
                self.secret = secret.clone();
                SetupStep { show: None, next: SetupNext::Provision { secret } }
            },
            SetupEvent::Provisioned(Ok(_)) => if self.direct {
                setup_complete()
            } else {
                SetupStep {
                    show: None,
                    next: SetupNext::LoginGuest { secret: self.secret.clone() },
                }
            },
            SetupEvent::GuestLogin(Some(key)) => {
                let link = guest_login_link(key.as_str());
                SetupStep {
                    show: Some(join2("Guest login:\n", link.as_str())),
                    next: SetupNext::Pause { millis: GUEST_LINK_PAUSE_MILLIS },
                }
            },
            SetupEvent::GuestLogin(None) => setup_complete(),
            SetupEvent::Paused => setup_complete(),
            SetupEvent::SessionChecked(Err(error)) => SetupStep {
                show: None,
                next: SetupNext::Fail(error),
            },
            SetupEvent::ServiceWaiting(Err(error)) => SetupStep {
                show: None,
                next: SetupNext::Fail(error),
            },
            SetupEvent::Approved(Err(error)) => SetupStep {
                show: None,
                next: SetupNext::Fail(error),
            },
            SetupEvent::Exchanged(Err(error)) => SetupStep {
                show: None,
                next: SetupNext::Fail(error),
            },
            SetupEvent::Provisioned(Err(error)) => SetupStep {
                show: None,
                next: SetupNext::Fail(error),
            },
        }
    }
}

fn setup_complete() -> (r: SetupStep)
    ensures
        r@ == (SetupStepView { show: Some(setup_told()), next: SetupNextView::Done }),
{
    SetupStep {
        show: Some(owned("playit setup is complete. The background service is ready.")),
        next: SetupNext::Done,
    }
}

/// A setup has one claim: it is the one that is approved and exchanged, and the secret that the
/// service gets, and that a guest is signed in with, is the one that this exchange gave.
pub proof fn setups_provision_the_exchanged_secret(flow: SetupFlowView, events: Seq<SetupEvent>)
    requires
        flow.runs(events),
    ensures
        match flow.next_after(events) {
            SetupNextView::Approve { claim_code, name } => claim_code == flow.claim_code && name
                == flow.name && flow.direct,
            SetupNextView::Exchange { claim_code, agent_type, wait_sec } => claim_code
                == flow.claim_code && agent_type == ClaimAgentType::Assignable && wait_sec == 0,
            SetupNextView::Provision { secret } => {
                &&& events.len() >= 2
                &&& events.last() matches SetupEvent::Exchanged(Ok(given)) && given@ == secret
                &&& flow.next_after(events.drop_last()) == flow.exchange()
            },
            SetupNextView::LoginGuest { secret } => {
                &&& events.len() >= 3
                &&& events.last() matches SetupEvent::Provisioned(Ok(_))
                &&& events[events.len() - 2] matches SetupEvent::Exchanged(Ok(given)) && given@
                    == secret
                &&& flow.next_after(events.drop_last()) == (SetupNextView::Provision { secret })
            },
            _ => true,
        },
    decreases events.len(),
{
    if events.len() > 0 {
        let before = events.drop_last();
        lemma_setups_keep_their_claim(flow, before);
        setups_provision_the_exchanged_secret(flow, before);
        if before.len() > 0 {
            assert(before.last() == events[events.len() - 2]);
        }
    }
}

/// The service waits for a secret before a claim is shown, approved or exchanged, and a direct
/// setup begins with a session that is accepted.
pub proof fn setups_never_waste_a_claim(flow: SetupFlowView, events: Seq<SetupEvent>)
    requires
        flow.runs(events),
    ensures
        flow.next_after(events) is Approve || flow.next_after(events) is Exchange
            || flow.next_after(events) is Provision || flow.next_after(events) is LoginGuest
            || flow.next_after(events) is Pause || flow.next_after(events) is Done ==> exists|
            i: int,
        |
            0 <= i < events.len() && (#[trigger] events[i] matches SetupEvent::ServiceWaiting(
                Ok(_),
            )),
        flow.direct && !(flow.next_after(events) is RequireSession || flow.next_after(
            events,
        ) is Fail) ==> events.len() > 0 && events[0] matches SetupEvent::SessionChecked(Ok(_)),
    decreases events.len(),
{
    if events.len() > 0 {
        let before = events.drop_last();
        setups_never_waste_a_claim(flow, before);
        lemma_setups_keep_their_claim(flow, before);
        assert(events[events.len() - 1] == events.last());
        if before.len() > 0 {
            assert(events[0] == before[0]);
        }
        if exists|i: int|
            0 <= i < before.len() && (#[trigger] before[i] matches SetupEvent::ServiceWaiting(
                Ok(_),
            )) {
            let i = choose|i: int|
                0 <= i < before.len() && (#[trigger] before[i] matches SetupEvent::ServiceWaiting(
                    Ok(_),
                ));
            assert(events[i] == before[i]);
        }
    }
}

proof fn lemma_setups_keep_their_claim(flow: SetupFlowView, events: Seq<SetupEvent>)
    ensures
        flow.reached(events).claim_code == flow.claim_code,
        flow.reached(events).name == flow.name,
        flow.reached(events).direct == flow.direct,
    decreases events.len(),
{
    if events.len() > 0 {
        lemma_setups_keep_their_claim(flow, events.drop_last());
    }
}

/// What is shown of a failed question where a claim stands.
pub open spec fn setup_failure_shown(error: ApiError<ClaimSetupError>) -> Seq<char> {
    match error {
        ApiError::Fail(fail) => "Fail("@ + fail.shown() + ")"@,
        ApiError::ApiError(e) => "ApiError("@ + e@.shown() + ")"@,
        ApiError::ClientError(e) => "ClientError("@ + e@.debugged() + ")"@,
    }
}

/// What is shown of a failed question where a claim stands.
pub fn setup_failure_text(error: &ApiError<ClaimSetupError>) -> (r: String)
    ensures
        r@ == setup_failure_shown(*error),
{
    match error {
        ApiError::Fail(fail) => join3("Fail(", fail.name(), ")"),
        ApiError::ApiError(e) => {
            let shown = e.debug_text();
            join3("ApiError(", shown.as_str(), ")")
        },
        ApiError::ClientError(e) => {
            let shown = e.debug_text();
            join3("ClientError(", shown.as_str(), ")")
        },
    }
}

/// The error for a failed question where a claim stands: the failure is told as JSON.
pub fn setup_cli_error(error: ApiError<ClaimSetupError>) -> (r: CliError)
    ensures
        r@ == match error {
            ApiError::Fail(fail) => CliErrorView::ApiFail(json_quoted(fail.shown())),
            ApiError::ApiError(e) => CliErrorView::ApiError(e@),
            ApiError::ClientError(e) => CliErrorView::RequestError(e@),
        },
{
    match error {
        ApiError::Fail(fail) => cli_error(ApiError::Fail(quote_json(fail.name()))),
        ApiError::ApiError(e) => cli_error(ApiError::ApiError(e)),
        ApiError::ClientError(e) => cli_error(ApiError::ClientError(e)),
    }
}

// ---------------------------------------------------------------------------
// Claims
// ---------------------------------------------------------------------------

/// A new claim code.
pub fn claim_generate() -> (r: String)
    ensures
        is_claim_code(r@),
{
    generate_claim_code()
}

/// The page of a claim, for a code that is one.
pub fn claim_url(code: &str) -> (r: Result<String, CliError>)
    ensures
        if is_hex_text(code@) {
            r is Ok && r->Ok_0@ == claim_page(code@)
        } else {
            r is Err && r->Err_0@ == CliErrorView::InvalidClaimCode
        },
{
    match decode_hex(code) {
        Some(_) => Ok(join2("https://playit.gg/claim/", code)),
        None => Err(CliError::InvalidClaimCode),
    }
}

/// Every code that is generated has a page.
pub proof fn generated_codes_have_a_page(code: Seq<char>)
    requires
        is_claim_code(code),
    ensures
        is_hex_text(code),
{
    crate::claim::claim_codes_are_ten_hex_digits(code);
}

/// The name of a claim's state.
pub open spec fn setup_name(setup: ClaimSetupResponse) -> Seq<char> {
    match setup {
        ClaimSetupResponse::WaitingForUserVisit => "WaitingForUserVisit"@,
        ClaimSetupResponse::WaitingForUser => "WaitingForUser"@,
        ClaimSetupResponse::UserAccepted => "UserAccepted"@,
        ClaimSetupResponse::UserRejected => "UserRejected"@,
    }
}

/// Where a claim stands, in words.
pub fn claim_inspect(claim_code: &str, setup: ClaimSetupResponse) -> (r: String)
    ensures
        r@ == "claim "@ + claim_code@ + ": "@ + setup_name(setup),
{
    let mut out = join3("claim ", claim_code, ": ");
    match setup {
        ClaimSetupResponse::WaitingForUserVisit => out.append("WaitingForUserVisit"),
        ClaimSetupResponse::WaitingForUser => out.append("WaitingForUser"),
        ClaimSetupResponse::UserAccepted => out.append("UserAccepted"),
        ClaimSetupResponse::UserRejected => out.append("UserRejected"),
    }
    out
}

/// The agent type that a flag names; the text is the flag as it is shown in a message.
pub open spec fn agent_type_of(value: Option<Seq<char>>, shown: Seq<char>) -> Result<
    ClaimAgentType,
    Seq<char>,
> {
    match value {
        None => Ok(ClaimAgentType::SelfManaged),
        Some(value) => if trimmed(value).len() == 0 || trimmed(value) == "self-managed"@ {
            Ok(ClaimAgentType::SelfManaged)
        } else if trimmed(value) == "assignable"@ {
            Ok(ClaimAgentType::Assignable)
        } else {
            Err(
                "invalid --agent-type "@ + shown + ": expected `assignable` or `self-managed`"@,
            )
        },
    }
}

/// The agent type that a flag names.
pub fn parse_claim_agent_type(value: Option<String>) -> (r: Result<ClaimAgentType, CliError>)
    ensures
        match agent_type_of(
            opt_text(value),
            debug_quoted(trimmed(value->0@)),
        ) {
            Ok(kind) => r == Ok::<ClaimAgentType, CliError>(kind),
            Err(message) => r is Err && r->Err_0@ == CliErrorView::ApiFail(message),
        },
{
    match &value {
        None => Ok(ClaimAgentType::SelfManaged),
        Some(text) => {
            let shown = quote_debug(trim(text.as_str()));
            claim_agent_type(text.as_str(), shown.as_str())
        },
    }
}

/// The agent type that a flag names; `shown` is the flag as it is shown in a message.
pub fn claim_agent_type(value: &str, shown: &str) -> (r: Result<ClaimAgentType, CliError>)
    ensures
        match agent_type_of(Some(value@), shown@) {
            Ok(kind) => r == Ok::<ClaimAgentType, CliError>(kind),
            Err(message) => r is Err && r->Err_0@ == CliErrorView::ApiFail(message),
        },
{
    let value = trim(value);
    if value.is_empty() || same(value, "self-managed") {
        Ok(ClaimAgentType::SelfManaged)
    } else if same(value, "assignable") {
        Ok(ClaimAgentType::Assignable)
    } else {
        Err(
            CliError::ApiFail(
                join3(
                    "invalid --agent-type ",
                    shown,
                    ": expected `assignable` or `self-managed`",
                ),
            ),
        )
    }
}

// ---------------------------------------------------------------------------
// Waiting for a claim to become visible
// ---------------------------------------------------------------------------

/// How often a claim is looked up.
pub const DETAILS_ROUNDS: u32 = 40;

/// The pause between two looks, in milliseconds.
pub const DETAILS_PAUSE_MILLIS: u64 = 500;

/// The wait for a claim to become visible to the account.
pub struct ClaimWait {
    pub claim_code: String,
    pub rounds_left: u32,
}

/// What follows a look at a claim.
pub enum WaitStep {
    Found(ClaimDetails),
    /// Pause, then announce the claim and look again.
    Pause,
    /// Pause, then give up.
    PauseThenFail(CliError),
    Fail(CliError),
}

pub open spec fn details_fail_name(fail: ClaimDetailsFail) -> Seq<char> {
    match fail {
        ClaimDetailsFail::AlreadyClaimed => "AlreadyClaimed"@,
        ClaimDetailsFail::AlreadyRejected => "AlreadyRejected"@,
        ClaimDetailsFail::ClaimExpired => "ClaimExpired"@,
        ClaimDetailsFail::DifferentOwner => "DifferentOwner"@,
        ClaimDetailsFail::WaitingForAgent => "WaitingForAgent"@,
        ClaimDetailsFail::InvalidCode => "InvalidCode"@,
        ClaimDetailsFail::Other => "Other"@,
    }
}

fn details_fail_text(fail: ClaimDetailsFail) -> (r: &'static str)
    ensures
        r@ == details_fail_name(fail),
{
    match fail {
        ClaimDetailsFail::AlreadyClaimed => "AlreadyClaimed",
        ClaimDetailsFail::AlreadyRejected => "AlreadyRejected",
        ClaimDetailsFail::ClaimExpired => "ClaimExpired",
        ClaimDetailsFail::DifferentOwner => "DifferentOwner",
        ClaimDetailsFail::WaitingForAgent => "WaitingForAgent",
        ClaimDetailsFail::InvalidCode => "InvalidCode",
        ClaimDetailsFail::Other => "Other",
    }
}

/// The error of a claim that did not become visible.
pub open spec fn never_visible(claim_code: Seq<char>) -> CliErrorView {
    CliErrorView::ApiFail(
        "timed out waiting for claim "@ + claim_code
            + " to become visible; is the machine polling this code?"@,
    )
}

impl ClaimWait {
    pub fn new(claim_code: String) -> (r: Self)
        ensures
            r.claim_code == claim_code,
            r.rounds_left == DETAILS_ROUNDS,
    {
        ClaimWait { claim_code, rounds_left: DETAILS_ROUNDS }
    }

    /// What follows a look at the claim.
    pub fn looked(
        &mut self,
        outcome: Result<ApiResult<ClaimDetails, ClaimDetailsFail>, WebApiError>,
    ) -> (r: WaitStep)
        requires
            old(self).rounds_left > 0,
        ensures
            final(self).claim_code == old(self).claim_code,
            final(self).rounds_left == old(self).rounds_left - 1,
            match outcome {
                Err(error) => r matches WaitStep::Fail(e) && e@ == CliErrorView::SessionError(
                    error@.shown(),
                ),
                Ok(ApiResult::Success(details)) => r == WaitStep::Found(details),
                Ok(ApiResult::Fail(ClaimDetailsFail::WaitingForAgent)) => if old(self).rounds_left
                    > 1 {
                    r is Pause
                } else {
                    r matches WaitStep::PauseThenFail(e) && e@ == never_visible(
                        old(self).claim_code@,
                    )
                },
                Ok(ApiResult::Fail(fail)) => r matches WaitStep::Fail(e) && e@
                    == CliErrorView::ApiFail(
                    "cannot use claim "@ + old(self).claim_code@ + ": "@ + details_fail_name(fail),
                ),
                Ok(ApiResult::Error(error)) => r == WaitStep::Fail(CliError::ApiError(error)),
            },
    {
        self.rounds_left = self.rounds_left - 1;
        match outcome {
            Err(error) => WaitStep::Fail(session_error(error)),
            Ok(ApiResult::Success(details)) => WaitStep::Found(details),
            Ok(ApiResult::Fail(fail)) => match fail {
                ClaimDetailsFail::WaitingForAgent => if self.rounds_left > 0 {
                    WaitStep::Pause
                } else {
                    WaitStep::PauseThenFail(
                        CliError::ApiFail(
                            join3(
                                "timed out waiting for claim ",
                                self.claim_code.as_str(),
                                " to become visible; is the machine polling this code?",
                            ),
                        ),
                    )
                },
                fail => {
                    let mut message = join3("cannot use claim ", self.claim_code.as_str(), ": ");
                    message.append(details_fail_text(fail));
                    WaitStep::Fail(CliError::ApiFail(message))
                },
            },
            Ok(ApiResult::Error(error)) => WaitStep::Fail(CliError::ApiError(error)),
        }
    }
}

// ---------------------------------------------------------------------------
// Approving and rejecting
// ---------------------------------------------------------------------------

/// Whether a name that was given can be used as it is; else one is asked for.
pub fn usable_name(name: &Option<String>) -> (r: bool)
    ensures
        r == (name matches Some(n) && trimmed(n@).len() > 0),
{
    match name {
        Some(name) => !trim(name.as_str()).is_empty(),
        None => false,
    }
}

/// The name of an agent, which must not be blank.
pub fn checked_agent_name(name: &str) -> (r: Result<String, CliError>)
    ensures
        if trimmed(name@).len() == 0 {
            r is Err && r->Err_0@ == CliErrorView::ApiFail("agent name must not be empty"@)
        } else {
            r is Ok && r->Ok_0@ == trimmed(name@)
        },
{
    let name = trim(name);
    if name.is_empty() {
        Err(CliError::ApiFail(owned("agent name must not be empty")))
    } else {
        Ok(owned(name))
    }
}

pub open spec fn accept_fail_name(fail: ClaimAcceptFail) -> Seq<char> {
    match fail {
        ClaimAcceptFail::InvalidCode => "InvalidCode"@,
        ClaimAcceptFail::AgentNotReady => "AgentNotReady"@,
        ClaimAcceptFail::CodeNotFound => "CodeNotFound"@,
        ClaimAcceptFail::InvalidAgentType => "InvalidAgentType"@,
        ClaimAcceptFail::ClaimAlreadyAccepted => "ClaimAlreadyAccepted"@,
        ClaimAcceptFail::ClaimRejected => "ClaimRejected"@,
        ClaimAcceptFail::CodeExpired => "CodeExpired"@,
        ClaimAcceptFail::InvalidName => "InvalidName"@,
        ClaimAcceptFail::Other => "Other"@,
    }
}

fn accept_fail_text(fail: ClaimAcceptFail) -> (r: &'static str)
    ensures
        r@ == accept_fail_name(fail),
{
    match fail {
        ClaimAcceptFail::InvalidCode => "InvalidCode",
        ClaimAcceptFail::AgentNotReady => "AgentNotReady",
        ClaimAcceptFail::CodeNotFound => "CodeNotFound",
        ClaimAcceptFail::InvalidAgentType => "InvalidAgentType",
        ClaimAcceptFail::ClaimAlreadyAccepted => "ClaimAlreadyAccepted",
        ClaimAcceptFail::ClaimRejected => "ClaimRejected",
        ClaimAcceptFail::CodeExpired => "CodeExpired",
        ClaimAcceptFail::InvalidName => "InvalidName",
        ClaimAcceptFail::Other => "Other",
    }
}

/// What to tell after a claim was to be approved: two lines, or an error.
pub open spec fn approval_told(
    claim_code: Seq<char>,
    name: Seq<char>,
    outcome: Result<ApiResult<ClaimAccepted, ClaimAcceptFail>, WebApiError>,
) -> Result<Seq<Seq<char>>, CliErrorView> {
    match outcome {
        Ok(ApiResult::Success(accepted)) => Ok(
            seq![
                "claim approved, agent "@ + uuid_shown(accepted.agent_id) + " ("@ + name + ")"@,
                "run `claim exchange "@ + claim_code + "` to fetch the agent secret"@,
            ],
        ),
        Ok(ApiResult::Fail(fail)) => Err(
            CliErrorView::ApiFail(
                "claim "@ + claim_code + " was not approved: "@ + accept_fail_name(fail),
            ),
        ),
        Ok(ApiResult::Error(error)) => Err(CliErrorView::ApiError(error@)),
        Err(error) => Err(CliErrorView::SessionError(error@.shown())),
    }
}

/// What to tell after a claim was to be approved: two lines, or an error.
pub fn claim_approve(
    claim_code: &str,
    name: &str,
    outcome: Result<ApiResult<ClaimAccepted, ClaimAcceptFail>, WebApiError>,
) -> (r: Result<Vec<String>, CliError>)
    ensures
        match approval_told(claim_code@, name@, outcome) {
            Ok(lines) => r is Ok && texts(r->Ok_0@) == lines,
            Err(error) => r is Err && r->Err_0@ == error,
        },
{
    match outcome {
        Ok(ApiResult::Success(accepted)) => {
            let id = uuid_text(accepted.agent_id);
            let mut first = join3("claim approved, agent ", id.as_str(), " (");
            first.append(name);
            first.append(")");
            let second = join3(
                "run `claim exchange ",
                claim_code,
                "` to fetch the agent secret",
            );
            let mut lines: Vec<String> = Vec::new();
            lines.push(first);
            lines.push(second);
            assert(texts(lines@) =~= seq![
                "claim approved, agent "@ + uuid_shown(accepted.agent_id) + " ("@ + name@ + ")"@,
                "run `claim exchange "@ + claim_code@ + "` to fetch the agent secret"@,
            ]);
            Ok(lines)
        },
        Ok(ApiResult::Fail(fail)) => {
            let mut message = join3("claim ", claim_code, " was not approved: ");
            message.append(accept_fail_text(fail));
            Err(CliError::ApiFail(message))
        },
        Ok(ApiResult::Error(error)) => Err(CliError::ApiError(error)),
        Err(error) => Err(session_error(error)),
    }
}

/// How far the approval of a claim is: what it waits for.
#[derive(Clone, Copy, Debug, PartialEq, Eq, Structural)]
pub enum ApprovalStage {
    /// The stored session.
    Session,
    /// The details of the claim.
    Details,
    /// A name for the agent.
    Name,
    /// The answer to the approval.
    Answer,
    /// Nothing: it is over.
    Over,
}

/// The approval of a claim with the stored session.
pub struct ClaimApproval {
    pub claim_code: String,
    /// The agent's name: the one that was given, later the one that is sent.
    pub name: Option<String>,
    /// The agent type that was given.
    pub agent_type: Option<String>,
    pub stage: ApprovalStage,
}

/// The model of a [`ClaimApproval`].
#[verifier::ext_equal]
pub struct ClaimApprovalView {
    pub claim_code: Seq<char>,
    pub name: Option<Seq<char>>,
    pub agent_type: Option<Seq<char>>,
    pub stage: ApprovalStage,
}

impl View for ClaimApproval {
    type V = ClaimApprovalView;

    open spec fn view(&self) -> ClaimApprovalView {
        ClaimApprovalView {
            claim_code: self.claim_code@,
            name: opt_text(self.name),
            agent_type: opt_text(self.agent_type),
            stage: self.stage,
        }
    }
}

/// What came of an approval's last step.
#[derive(Debug)]
pub enum ApprovalEvent {
    /// Whether a session is stored.
    SessionLoaded(Result<(), CliError>),
    DetailsFound(Result<ClaimDetails, CliError>),
    /// The name that the user gave when asked.
    NameGiven(Result<String, CliError>),
    Answered(Result<ApiResult<ClaimAccepted, ClaimAcceptFail>, WebApiError>),
}

impl ApprovalEvent {
    /// The name that the machine gave itself, where the event brings it.
    pub open spec fn machine_name(self) -> Seq<char> {
        match self {
            ApprovalEvent::DetailsFound(Ok(details)) => details.name@,
            _ => Seq::empty(),
        }
    }
}

/// What an approval does next.
#[derive(Debug)]
pub enum ApprovalNext {
    /// Wait for the details of the claim.
    AwaitDetails,
    /// Ask the user for a name.
    AskName,
    /// Accept the claim.
    Accept { name: String, agent_type: ClaimAgentType },
    Done,
    Fail(CliError),
}

/// The model of an [`ApprovalNext`].
#[verifier::ext_equal]
pub enum ApprovalNextView {
    AwaitDetails,
    AskName,
    Accept { name: Seq<char>, agent_type: ClaimAgentType },
    Done,
    Fail(CliErrorView),
}

impl View for ApprovalNext {
    type V = ApprovalNextView;

    open spec fn view(&self) -> ApprovalNextView {
        match *self {
            ApprovalNext::AwaitDetails => ApprovalNextView::AwaitDetails,
            ApprovalNext::AskName => ApprovalNextView::AskName,
            ApprovalNext::Accept { name, agent_type } => ApprovalNextView::Accept {
                name: name@,
                agent_type,
            },
            ApprovalNext::Done => ApprovalNextView::Done,
            ApprovalNext::Fail(error) => ApprovalNextView::Fail(error@),
        }
    }
}

/// What an approval shows, one text after the other, and what it does then.
#[derive(Debug)]
pub struct ApprovalStep {
    pub show: Vec<String>,
    pub next: ApprovalNext,
}

/// The model of an [`ApprovalStep`].
#[verifier::ext_equal]
pub struct ApprovalStepView {
    pub show: Seq<Seq<char>>,
    pub next: ApprovalNextView,
}

impl View for ApprovalStep {
    type V = ApprovalStepView;

    open spec fn view(&self) -> ApprovalStepView {
        ApprovalStepView { show: texts(self.show@), next: self.next@ }
    }
}

/// The details of a claim in words; `shown_name` is the machine's name as it is shown.
pub open spec fn details_shown(
    claim_code: Seq<char>,
    agent_type: ClaimAgentType,
    shown_name: Seq<char>,
) -> Seq<char> {
    "claim "@ + claim_code + ": "@ + (match agent_type {
        ClaimAgentType::Assignable => "Assignable"@,
        ClaimAgentType::SelfManaged => "SelfManaged"@,
    }) + " named "@ + shown_name
}

/// The event is one that the stage waits for.
pub open spec fn awaited(stage: ApprovalStage, event: ApprovalEvent) -> bool {
    match event {
        ApprovalEvent::SessionLoaded(_) => stage == ApprovalStage::Session,
        ApprovalEvent::DetailsFound(_) => stage == ApprovalStage::Details,
        ApprovalEvent::NameGiven(_) => stage == ApprovalStage::Name,
        ApprovalEvent::Answered(_) => stage == ApprovalStage::Answer,
    }
}

impl ClaimApprovalView {
    /// The end of the approval with an error.
    pub open spec fn fail(self, show: Seq<Seq<char>>, error: CliErrorView) -> (
        ClaimApprovalView,
        ApprovalStepView,
    ) {
        (
            ClaimApprovalView { stage: ApprovalStage::Over, ..self },
            ApprovalStepView { show, next: ApprovalNextView::Fail(error) },
        )
    }

    /// The approval under a name, which must not be blank; `shown_type` is the agent type
    /// that was given, as it is shown.
    pub open spec fn accept(self, show: Seq<Seq<char>>, name: Seq<char>, shown_type: Seq<char>) -> (
        ClaimApprovalView,
        ApprovalStepView,
    ) {
        if trimmed(name).len() == 0 {
            self.fail(show, CliErrorView::ApiFail("agent name must not be empty"@))
        } else {
            match agent_type_of(self.agent_type, shown_type) {
                Err(message) => self.fail(show, CliErrorView::ApiFail(message)),
                Ok(agent_type) => (
                    ClaimApprovalView {
                        name: Some(trimmed(name)),
                        stage: ApprovalStage::Answer,
                        ..self
                    },
                    ApprovalStepView {
                        show,
                        next: ApprovalNextView::Accept { name: trimmed(name), agent_type },
                    },
                ),
            }
        }
    }

    /// What follows an event, given the machine's name and the agent type that was given, as
    /// they are shown.
    pub open spec fn after(
        self,
        event: ApprovalEvent,
        shown_name: Seq<char>,
        shown_type: Seq<char>,
    ) -> (ClaimApprovalView, ApprovalStepView) {
        match event {
            ApprovalEvent::SessionLoaded(Err(error)) => self.fail(Seq::empty(), error@),
            ApprovalEvent::SessionLoaded(Ok(_)) => (
                ClaimApprovalView { stage: ApprovalStage::Details, ..self },
                ApprovalStepView { show: Seq::empty(), next: ApprovalNextView::AwaitDetails },
            ),
            ApprovalEvent::DetailsFound(Err(error)) => self.fail(Seq::empty(), error@),
            ApprovalEvent::DetailsFound(Ok(details)) => {
                let show = seq![details_shown(self.claim_code, details.agent_type, shown_name)];
                if self.name is Some && trimmed(self.name->0).len() > 0 {
                    self.accept(show, self.name->0, shown_type)
                } else {
                    (
                        ClaimApprovalView { stage: ApprovalStage::Name, ..self },
                        ApprovalStepView { show, next: ApprovalNextView::AskName },
                    )
                }
            },
            ApprovalEvent::NameGiven(Err(error)) => self.fail(Seq::empty(), error@),
            ApprovalEvent::NameGiven(Ok(name)) => self.accept(Seq::empty(), name@, shown_type),
            ApprovalEvent::Answered(outcome) => match approval_told(
                self.claim_code,
                match self.name {
                    Some(name) => name,
                    None => Seq::empty(),
                },
                outcome,
            ) {
                Ok(lines) => (
                    ClaimApprovalView { stage: ApprovalStage::Over, ..self },
                    ApprovalStepView { show: lines, next: ApprovalNextView::Done },
                ),
                Err(error) => self.fail(Seq::empty(), error),
            },
        }
    }

    /// The agent type that was given, as it is shown.
    pub open spec fn shown_type(self) -> Seq<char> {
        debug_quoted(
            match self.agent_type {
                Some(value) => trimmed(value),
                None => Seq::empty(),
            },
        )
    }

    /// What follows an event.
    pub open spec fn after_event(self, event: ApprovalEvent) -> (
        ClaimApprovalView,
        ApprovalStepView,
    ) {
        self.after(event, debug_quoted(event.machine_name()), self.shown_type())
    }

    /// The approval after some events.
    pub open spec fn reached(self, events: Seq<ApprovalEvent>) -> ClaimApprovalView
        decreases events.len(),
    {
        if events.len() == 0 {
            self
        } else {
            self.reached(events.drop_last()).after_event(events.last()).0
        }
    }

    /// Each of the events is one that the approval waited for when it came.
    pub open spec fn runs(self, events: Seq<ApprovalEvent>) -> bool
        decreases events.len(),
    {
        events.len() == 0 || (self.runs(events.drop_last()) && awaited(
            self.reached(events.drop_last()).stage,
            events.last(),
        ))
    }
}

fn no_lines() -> (r: Vec<String>)
    ensures
        texts(r@) == Seq::<Seq<char>>::empty(),
{
    let r: Vec<String> = Vec::new();
    assert(texts(r@) =~= Seq::<Seq<char>>::empty());
    r
}

impl ClaimApproval {
    /// Begin the approval of a claim, which needs a code that has a page: the stored session
    /// is loaded first.
    pub fn start(claim_code: String, name: Option<String>, agent_type: Option<String>) -> (r:
        Result<Self, CliError>)
        ensures
            if is_hex_text(claim_code@) {
                r is Ok && r->Ok_0@ == (ClaimApprovalView {
                    claim_code: claim_code@,
                    name: opt_text(name),
                    agent_type: opt_text(agent_type),
                    stage: ApprovalStage::Session,
                })
            } else {
                r == Err::<ClaimApproval, CliError>(CliError::InvalidClaimCode)
            },
    {
        match claim_url(claim_code.as_str()) {
            Ok(_) => Ok(
                ClaimApproval { claim_code, name, agent_type, stage: ApprovalStage::Session },
            ),
            Err(_) => Err(CliError::InvalidClaimCode),
        }
    }

    fn fail(&mut self, show: Vec<String>, error: CliError) -> (r: ApprovalStep)
        ensures
            (final(self)@, r@) == old(self)@.fail(texts(show@), error@),
    {
        self.stage = ApprovalStage::Over;
        ApprovalStep { show, next: ApprovalNext::Fail(error) }
    }

    fn accept(&mut self, show: Vec<String>, name: &str, shown_type: &str) -> (r: ApprovalStep)
        ensures
            (final(self)@, r@) == old(self)@.accept(texts(show@), name@, shown_type@),
    {
        let name = match checked_agent_name(name) {
            Ok(name) => name,
            Err(error) => return self.fail(show, error),
        };
        let named = match &self.agent_type {
            Some(value) => claim_agent_type(value.as_str(), shown_type),
            None => Ok(ClaimAgentType::SelfManaged),
        };
        match named {
            Ok(agent_type) => {
                self.name = Some(name.clone());
                self.stage = ApprovalStage::Answer;
                ApprovalStep { show, next: ApprovalNext::Accept { name, agent_type } }
            },
            Err(error) => self.fail(show, error),
        }
    }

    /// What follows an event.
    pub fn step(&mut self, event: ApprovalEvent) -> (r: ApprovalStep)
        requires
            awaited(old(self)@.stage, event),
        ensures
            (final(self)@, r@) == old(self)@.after_event(event),
    {
        let shown_type = match &self.agent_type {
            Some(value) => quote_debug(trim(value.as_str())),
            None => {
                let empty = "";
                proof {
                    reveal_strlit("");
                }
                assert(empty@ =~= Seq::empty());
                quote_debug(empty)
            },
        };
        let shown_name = match &event {
            ApprovalEvent::DetailsFound(Ok(details)) => quote_debug(details.name.as_str()),
            _ => {
                let empty = "";
                proof {
                    reveal_strlit("");
                }
                assert(empty@ =~= Seq::empty());
                quote_debug(empty)
            },
        };
        self.step_with(event, shown_name.as_str(), shown_type.as_str())
    }

    /// What follows an event, given the machine's name and the agent type that was given, as
    /// they are shown.
    pub fn step_with(&mut self, event: ApprovalEvent, shown_name: &str, shown_type: &str) -> (r:
        ApprovalStep)
        requires
            awaited(old(self)@.stage, event),
        ensures
            (final(self)@, r@) == old(self)@.after(event, shown_name@, shown_type@),
    {
        match event {
            ApprovalEvent::SessionLoaded(Ok(_)) => {
                self.stage = ApprovalStage::Details;
                ApprovalStep { show: no_lines(), next: ApprovalNext::AwaitDetails }
            },
            ApprovalEvent::SessionLoaded(Err(error)) => self.fail(no_lines(), error),
            ApprovalEvent::DetailsFound(Ok(details)) => {
                let mut line = join3("claim ", self.claim_code.as_str(), ": ");
                match details.agent_type {
                    ClaimAgentType::Assignable => line.append("Assignable"),
                    ClaimAgentType::SelfManaged => line.append("SelfManaged"),
                }
                line.append(" named ");
                line.append(shown_name);
                let mut show = no_lines();
                show.push(line);
                assert(texts(show@) =~= seq![line@]);
                if usable_name(&self.name) {
                    match copy_opt(&self.name) {
                        Some(name) => self.accept(show, name.as_str(), shown_type),
                        None => self.accept(show, "", shown_type),
                    }
                } else {
                    self.stage = ApprovalStage::Name;
                    ApprovalStep { show, next: ApprovalNext::AskName }
                }
            },
            ApprovalEvent::DetailsFound(Err(error)) => self.fail(no_lines(), error),
            ApprovalEvent::NameGiven(Ok(name)) => self.accept(
                no_lines(),
                name.as_str(),
                shown_type,
            ),
            ApprovalEvent::NameGiven(Err(error)) => self.fail(no_lines(), error),
            ApprovalEvent::Answered(outcome) => {
                let name = match copy_opt(&self.name) {
                    Some(name) => name,
                    None => {
                        let empty = String::new();
                        assert(empty@ =~= Seq::empty());
                        empty
                    },
                };
                match claim_approve(self.claim_code.as_str(), name.as_str(), outcome) {
                    Ok(lines) => {
                        self.stage = ApprovalStage::Over;
                        ApprovalStep { show: lines, next: ApprovalNext::Done }
                    },
                    Err(error) => self.fail(no_lines(), error),
                }
            },
        }
    }
}

/// A claim is accepted only under a name that is not blank and with a type that the flag
/// names, and after each step the approval waits for what that step asks for.
pub proof fn approvals_are_complete(
    approval: ClaimApprovalView,
    event: ApprovalEvent,
    shown_name: Seq<char>,
    shown_type: Seq<char>,
)
    ensures
        ({
            let (after, step) = approval.after(event, shown_name, shown_type);
            &&& step.next matches ApprovalNextView::Accept { name, agent_type } ==> {
                &&& name.len() > 0
                &&& agent_type_of(approval.agent_type, shown_type) == Ok::<
                    ClaimAgentType,
                    Seq<char>,
                >(agent_type)
                &&& event is DetailsFound || event is NameGiven
            }
            &&& after.claim_code == approval.claim_code
            &&& after.stage == match step.next {
                ApprovalNextView::AwaitDetails => ApprovalStage::Details,
                ApprovalNextView::AskName => ApprovalStage::Name,
                ApprovalNextView::Accept { .. } => ApprovalStage::Answer,
                _ => ApprovalStage::Over,
            }
        }),
{
}

/// Whatever happens, a claim is accepted only after a session was loaded and the details of
/// the claim were found: a name is asked for and an answer is waited for only then.
pub proof fn claims_are_accepted_after_their_details(
    approval: ClaimApprovalView,
    events: Seq<ApprovalEvent>,
)
    requires
        approval.stage == ApprovalStage::Session,
        approval.runs(events),
        approval.reached(events).stage == ApprovalStage::Name || approval.reached(events).stage
            == ApprovalStage::Answer,
    ensures
        events.len() >= 2,
        events[0] matches ApprovalEvent::SessionLoaded(Ok(_)),
        events[1] matches ApprovalEvent::DetailsFound(Ok(_)),
    decreases events.len(),
{
    let before = events.drop_last();
    let event = events.last();
    approvals_are_complete(
        approval.reached(before),
        event,
        debug_quoted(event.machine_name()),
        approval.reached(before).shown_type(),
    );
    if event is DetailsFound {
        lemma_details_come_second(approval, before);
    } else {
        claims_are_accepted_after_their_details(approval, before);
    }
}

proof fn lemma_details_come_second(approval: ClaimApprovalView, events: Seq<ApprovalEvent>)
    requires
        approval.stage == ApprovalStage::Session,
        approval.runs(events),
        approval.reached(events).stage == ApprovalStage::Details,
    ensures
        events.len() == 1,
        events[0] matches ApprovalEvent::SessionLoaded(Ok(_)),
{
    let before = events.drop_last();
    assert(awaited(approval.reached(before).stage, events.last()));
    if before.len() > 0 {
        lemma_never_back(approval, before);
    }
}

proof fn lemma_never_back(approval: ClaimApprovalView, events: Seq<ApprovalEvent>)
    requires
        events.len() > 0,
        approval.runs(events),
    ensures
        approval.reached(events).stage != ApprovalStage::Session,
{
}

pub open spec fn reject_fail_name(fail: ClaimRejectFail) -> Seq<char> {
    match fail {
        ClaimRejectFail::InvalidCode => "InvalidCode"@,
        ClaimRejectFail::CodeNotFound => "CodeNotFound"@,
        ClaimRejectFail::ClaimAccepted => "ClaimAccepted"@,
        ClaimRejectFail::ClaimAlreadyRejected => "ClaimAlreadyRejected"@,
        ClaimRejectFail::Other => "Other"@,
    }
}

/// What to tell after a claim was to be rejected.
pub fn claim_reject(
    claim_code: &str,
    outcome: Result<ApiResult<(), ClaimRejectFail>, WebApiError>,
) -> (r: Result<String, CliError>)
    ensures
        match outcome {
            Ok(ApiResult::Success(_)) => r is Ok && r->Ok_0@ == "claim "@ + claim_code@
                + " rejected"@,
            Ok(ApiResult::Fail(fail)) => r is Err && r->Err_0@ == CliErrorView::ApiFail(
                "claim "@ + claim_code@ + " was not rejected: "@ + reject_fail_name(fail),
            ),
            Ok(ApiResult::Error(error)) => r is Err && r->Err_0@ == CliErrorView::ApiError(error@),
            Err(error) => r is Err && r->Err_0@ == CliErrorView::SessionError(error@.shown()),
        },
{
    match outcome {
        Ok(ApiResult::Success(_)) => Ok(join3("claim ", claim_code, " rejected")),
        Ok(ApiResult::Fail(fail)) => {
            let mut message = join3("claim ", claim_code, " was not rejected: ");
            match fail {
                ClaimRejectFail::InvalidCode => message.append("InvalidCode"),
                ClaimRejectFail::CodeNotFound => message.append("CodeNotFound"),
                ClaimRejectFail::ClaimAccepted => message.append("ClaimAccepted"),
                ClaimRejectFail::ClaimAlreadyRejected => message.append("ClaimAlreadyRejected"),
                ClaimRejectFail::Other => message.append("Other"),
            }
            Err(CliError::ApiFail(message))
        },
        Ok(ApiResult::Error(error)) => Err(CliError::ApiError(error)),
        Err(error) => Err(session_error(error)),
    }
}

// ---------------------------------------------------------------------------
// Agents
// ---------------------------------------------------------------------------

/// The lines that list agents.
pub open spec fn agent_lines(list: AgentsList) -> Seq<Seq<char>> {
    if list.agents@.len() == 0 {
        seq!["no agents"@]
    } else {
        Seq::new(
            list.agents@.len(),
            |i: int| uuid_shown(list.agents@[i].id) + " "@ + list.agents@[i].name@,
        )
    }
}

/// The lines that list the agents of the account. A typed failure is the text of its JSON.
pub fn agents_list(outcome: Result<ApiResult<AgentsList, String>, WebApiError>) -> (r: Result<
    Vec<String>,
    CliError,
>)
    ensures
        match outcome {
            Ok(ApiResult::Success(list)) => r is Ok && texts(r->Ok_0@) == agent_lines(list),
            Ok(ApiResult::Fail(fail)) => r is Err && r->Err_0@ == CliErrorView::ApiFail(
                "agents list failed: "@ + fail@,
            ),
            Ok(ApiResult::Error(error)) => r is Err && r->Err_0@ == CliErrorView::ApiError(error@),
            Err(error) => r is Err && r->Err_0@ == CliErrorView::SessionError(error@.shown()),
        },
{
    match outcome {
        Ok(ApiResult::Success(list)) => {
            let mut lines: Vec<String> = Vec::new();
            if list.agents.len() == 0 {
                lines.push(owned("no agents"));
            }
            let mut i: usize = 0;
            while i < list.agents.len()
                invariant
                    i <= list.agents.len(),
                    list.agents@.len() == 0 ==> texts(lines@) == seq!["no agents"@],
                    list.agents@.len() > 0 ==> lines@.len() == i,
                    list.agents@.len() > 0 ==> forall|k: int|
                        0 <= k < i ==> (#[trigger] lines@[k])@ == uuid_shown(list.agents@[k].id)
                            + " "@ + list.agents@[k].name@,
                decreases list.agents.len() - i,
            {
                let id = uuid_text(list.agents[i].id);
                lines.push(join3(id.as_str(), " ", list.agents[i].name.as_str()));
                i = i + 1;
            }
            assert(texts(lines@) =~= agent_lines(list));
            Ok(lines)
        },
        Ok(ApiResult::Fail(fail)) => Err(
            CliError::ApiFail(join2("agents list failed: ", fail.as_str())),
        ),
        Ok(ApiResult::Error(error)) => Err(CliError::ApiError(error)),
        Err(error) => Err(session_error(error)),
    }
}

/// The request to delete an agent, given what reading the IDs as UUIDs gave.
pub open spec fn delete_request(
    agent_id: Seq<char>,
    move_tunnels_to: Option<Seq<char>>,
    disable_tunnels: bool,
    agent: Result<u128, Seq<char>>,
    target: Option<Result<u128, Seq<char>>>,
) -> Result<ReqAgentsDelete, CliErrorView> {
    match agent {
        Err(_) => Err(CliErrorView::ApiFail("invalid agent id: "@ + agent_id)),
        Ok(agent) => match target {
            Some(Err(_)) => Err(
                CliErrorView::ApiFail(
                    "invalid --move-tunnels-to agent id: "@ + move_tunnels_to->0,
                ),
            ),
            Some(Ok(target)) => Ok(
                ReqAgentsDelete {
                    agent_id: agent,
                    tunnels_strategy: TunnelsStrategy::MoveToAgent(
                        AgentDeleteMoveDetails { agent_id: Some(target), disable_tunnels },
                    ),
                },
            ),
            None => Ok(
                ReqAgentsDelete {
                    agent_id: agent,
                    tunnels_strategy: TunnelsStrategy::MoveToAgent(
                        AgentDeleteMoveDetails { agent_id: None, disable_tunnels },
                    ),
                },
            ),
        },
    }
}

/// What reading an optional ID as a UUID gives.
pub open spec fn optional_uuid(id: Option<Seq<char>>) -> Option<Result<u128, Seq<char>>> {
    match id {
        Some(id) => Some(uuid_parse(trimmed(id))),
        None => None,
    }
}

/// The request to delete an agent.
pub fn agents_delete(
    agent_id: &str,
    move_tunnels_to: &Option<String>,
    disable_tunnels: bool,
) -> (r: Result<ReqAgentsDelete, CliError>)
    ensures
        match r {
            Ok(request) => delete_request(
                agent_id@,
                opt_text(*move_tunnels_to),
                disable_tunnels,
                uuid_parse(trimmed(agent_id@)),
                optional_uuid(opt_text(*move_tunnels_to)),
            ) == Ok::<ReqAgentsDelete, CliErrorView>(request),
            Err(error) => delete_request(
                agent_id@,
                opt_text(*move_tunnels_to),
                disable_tunnels,
                uuid_parse(trimmed(agent_id@)),
                optional_uuid(opt_text(*move_tunnels_to)),
            ) == Err::<ReqAgentsDelete, CliErrorView>(error@),
        },
{
    let agent = parse_uuid(trim(agent_id));
    let target = match move_tunnels_to {
        Some(id) => Some(parse_uuid(trim(id.as_str()))),
        None => None,
    };
    agents_delete_with(agent_id, move_tunnels_to, disable_tunnels, agent, target)
}

/// The request to delete an agent, given what reading the IDs as UUIDs gave.
pub fn agents_delete_with(
    agent_id: &str,
    move_tunnels_to: &Option<String>,
    disable_tunnels: bool,
    agent: Result<u128, String>,
    target: Option<Result<u128, String>>,
) -> (r: Result<ReqAgentsDelete, CliError>)
    requires
        target is Some <==> move_tunnels_to is Some,
    ensures
        ({
            let expected = delete_request(
                agent_id@,
                opt_text(*move_tunnels_to),
                disable_tunnels,
                match agent {
                    Ok(id) => Ok(id),
                    Err(message) => Err(message@),
                },
                match target {
                    Some(Ok(id)) => Some(Ok(id)),
                    Some(Err(message)) => Some(Err(message@)),
                    None => None,
                },
            );
            match r {
                Ok(request) => expected == Ok::<ReqAgentsDelete, CliErrorView>(request),
                Err(error) => expected == Err::<ReqAgentsDelete, CliErrorView>(error@),
            }
        }),
{
    let agent: u128 = match agent {
        Ok(id) => id,
        Err(_) => return Err(CliError::ApiFail(join2("invalid agent id: ", agent_id))),
    };
    let target = match target {
        Some(Ok(id)) => Some(id),
        Some(Err(_)) => {
            let given = match move_tunnels_to {
                Some(given) => given.clone(),
                None => String::new(),
            };
            return Err(
                CliError::ApiFail(
                    join2("invalid --move-tunnels-to agent id: ", given.as_str()),
                ),
            );
        },
        None => None,
    };
    Ok(
        ReqAgentsDelete {
            agent_id: agent,
            tunnels_strategy: TunnelsStrategy::MoveToAgent(
                AgentDeleteMoveDetails { agent_id: target, disable_tunnels },
            ),
        },
    )
}

/// What to tell after an agent was to be deleted. A typed failure is the text of its JSON.
pub fn agent_deleted(
    agent_id: u128,
    outcome: Result<ApiResult<(), String>, WebApiError>,
) -> (r: Result<String, CliError>)
    ensures
        match outcome {
            Ok(ApiResult::Success(_)) => r is Ok && r->Ok_0@ == "agent "@ + uuid_shown(agent_id)
                + " deleted"@,
            Ok(ApiResult::Fail(fail)) => r is Err && r->Err_0@ == CliErrorView::ApiFail(
                "agent "@ + uuid_shown(agent_id) + " was not deleted: "@ + fail@,
            ),
            Ok(ApiResult::Error(error)) => r is Err && r->Err_0@ == CliErrorView::ApiError(error@),
            Err(error) => r is Err && r->Err_0@ == CliErrorView::SessionError(error@.shown()),
        },
{
    let id = uuid_text(agent_id);
    match outcome {
        Ok(ApiResult::Success(_)) => Ok(join3("agent ", id.as_str(), " deleted")),
        Ok(ApiResult::Fail(fail)) => {
            let mut message = join3("agent ", id.as_str(), " was not deleted: ");
            message.append(fail.as_str());
            Err(CliError::ApiFail(message))
        },
        Ok(ApiResult::Error(error)) => Err(CliError::ApiError(error)),
        Err(error) => Err(session_error(error)),
    }
}

// ---------------------------------------------------------------------------
// Exchanging a claim
// ---------------------------------------------------------------------------

/// The exchange of a claim for its secret.
pub struct ClaimExchange {
    pub claim_code: String,
    /// When the exchange is given up, in milliseconds since the Unix epoch.
    pub end_at: u64,
    /// What was shown last.
    pub last_message: String,
}

/// The model of a [`ClaimExchange`].
#[verifier::ext_equal]
pub struct ClaimExchangeView {
    pub claim_code: Seq<char>,
    pub end_at: u64,
    pub last_message: Seq<char>,
}

impl View for ClaimExchange {
    type V = ClaimExchangeView;

    open spec fn view(&self) -> ClaimExchangeView {
        ClaimExchangeView {
            claim_code: self.claim_code@,
            end_at: self.end_at,
            last_message: self.last_message@,
        }
    }
}

/// What the API answered to the request for the secret. A refusal is known by its name.
#[derive(Debug)]
pub enum ExchangeAnswer {
    Secret(String),
    Refused(String),
    ApiError(ApiResponseError),
    ClientError(HttpClientError),
}

/// What an exchange does next.
#[derive(Debug)]
pub enum ExchangeNext {
    /// Ask where the claim stands.
    Setup,
    /// Ask for the secret.
    Exchange,
    Done(String),
    Fail(CliError),
}

/// The model of an [`ExchangeNext`].
#[verifier::ext_equal]
pub enum ExchangeNextView {
    Setup,
    Exchange,
    Done(Seq<char>),
    Fail(CliErrorView),
}

impl View for ExchangeNext {
    type V = ExchangeNextView;

    open spec fn view(&self) -> ExchangeNextView {
        match *self {
            ExchangeNext::Setup => ExchangeNextView::Setup,
            ExchangeNext::Exchange => ExchangeNextView::Exchange,
            ExchangeNext::Done(secret) => ExchangeNextView::Done(secret@),
            ExchangeNext::Fail(error) => ExchangeNextView::Fail(error@),
        }
    }
}

/// What an exchange shows, one text after the other, how long it pauses after that, in
/// milliseconds, and what it does then.
#[derive(Debug)]
pub struct ExchangeStep {
    pub show: Vec<String>,
    pub pause_millis: u64,
    pub next: ExchangeNext,
}

/// The model of an [`ExchangeStep`].
#[verifier::ext_equal]
pub struct ExchangeStepView {
    pub show: Seq<Seq<char>>,
    pub pause_millis: u64,
    pub next: ExchangeNextView,
}

impl View for ExchangeStep {
    type V = ExchangeStepView;

    open spec fn view(&self) -> ExchangeStepView {
        ExchangeStepView {
            show: texts(self.show@),
            pause_millis: self.pause_millis,
            next: self.next@,
        }
    }
}

/// An exchange that begins at the moment `now`, with the seconds that it waits, where 0 means
/// no limit.
pub open spec fn exchange_from(claim_code: Seq<char>, wait_sec: u32, now: u64) -> ClaimExchangeView {
    ClaimExchangeView {
        claim_code,
        end_at: if wait_sec == 0 {
            u64::MAX
        } else {
            (now + wait_sec * 1000) as u64
        },
        last_message: "Preparing setup..."@,
    }
}

impl ClaimExchangeView {
    /// What follows an answer after which the exchange would go on, at the moment `now`: the
    /// message is shown, and past its end the exchange is given up.
    pub open spec fn go_on(
        self,
        message: Seq<char>,
        pause_millis: u64,
        next: ExchangeNextView,
        now: u64,
    ) -> ExchangeStepView {
        if now > self.end_at {
            ExchangeStepView {
                show: seq![message, "Setup timed out before the program was approved."@],
                pause_millis: 2000,
                next: ExchangeNextView::Fail(CliErrorView::TimedOut),
            }
        } else {
            ExchangeStepView { show: seq![message], pause_millis, next }
        }
    }

    /// What follows while the claim waits for its owner: the page is shown, with what to do
    /// there.
    pub open spec fn waiting(self, prompt: Seq<char>, now: u64) -> (
        ClaimExchangeView,
        ExchangeStepView,
    ) {
        if is_hex_text(self.claim_code) {
            let message = prompt + claim_page(self.claim_code);
            (
                ClaimExchangeView { last_message: message, ..self },
                self.go_on(message, 200, ExchangeNextView::Setup, now),
            )
        } else {
            (
                self,
                ExchangeStepView {
                    show: Seq::empty(),
                    pause_millis: 0,
                    next: ExchangeNextView::Fail(CliErrorView::InvalidClaimCode),
                },
            )
        }
    }

    /// What follows the answer to the question where the claim stands, at the moment `now`.
    pub open spec fn after_setup(self, result: Result<ClaimSetupResponse, Seq<char>>, now: u64) -> (
        ClaimExchangeView,
        ExchangeStepView,
    ) {
        match result {
            Err(error) => (
                self,
                self.go_on(
                    self.last_message + "\n\nError: "@ + error,
                    2000,
                    ExchangeNextView::Setup,
                    now,
                ),
            ),
            Ok(ClaimSetupResponse::WaitingForUserVisit) => self.waiting(
                "Open this link to finish setting up playit:\n"@,
                now,
            ),
            Ok(ClaimSetupResponse::WaitingForUser) => self.waiting(
                "Approve this program in your browser:\n"@,
                now,
            ),
            Ok(ClaimSetupResponse::UserAccepted) => (
                self,
                ExchangeStepView {
                    show: seq!["Program approved. Finishing setup..."@],
                    pause_millis: 0,
                    next: ExchangeNextView::Exchange,
                },
            ),
            Ok(ClaimSetupResponse::UserRejected) => (
                self,
                ExchangeStepView {
                    show: seq!["Setup was not approved in the browser."@],
                    pause_millis: 3000,
                    next: ExchangeNextView::Fail(CliErrorView::AgentClaimRejected),
                },
            ),
        }
    }

    /// What follows the answer to the request for the secret, at the moment `now`.
    pub open spec fn after_exchange(self, answer: ExchangeAnswer, now: u64) -> ExchangeStepView {
        match answer {
            ExchangeAnswer::Secret(secret) => ExchangeStepView {
                show: Seq::empty(),
                pause_millis: 0,
                next: ExchangeNextView::Done(secret@),
            },
            ExchangeAnswer::Refused(status) => {
                self.go_on(
                    "Waiting for claim code \""@ + self.claim_code + "\" to be approved: "@
                        + status@,
                    2000,
                    ExchangeNextView::Exchange,
                    now,
                )
            },
            ExchangeAnswer::ApiError(error) => ExchangeStepView {
                show: Seq::empty(),
                pause_millis: 0,
                next: ExchangeNextView::Fail(CliErrorView::ApiError(error@)),
            },
            ExchangeAnswer::ClientError(error) => ExchangeStepView {
                show: Seq::empty(),
                pause_millis: 0,
                next: ExchangeNextView::Fail(CliErrorView::RequestError(error@)),
            },
        }
    }
}

fn exchange_step(show: Option<String>, pause_millis: u64, next: ExchangeNext) -> (r: ExchangeStep)
    ensures
        r@ == (ExchangeStepView {
            show: match show {
                Some(text) => seq![text@],
                None => Seq::empty(),
            },
            pause_millis,
            next: next@,
        }),
{
    let mut lines: Vec<String> = Vec::new();
    match show {
        Some(text) => {
            lines.push(text);
            assert(texts(lines@) =~= seq![text@]);
        },
        None => {
            assert(texts(lines@) =~= Seq::empty());
        },
    }
    ExchangeStep { show: lines, pause_millis, next }
}

impl ClaimExchange {
    /// An exchange that begins at the moment `now` and is given up after `wait_sec` seconds,
    /// or never if that is 0.
    pub fn start(claim_code: String, wait_sec: u32, now: u64) -> (r: Self)
        requires
            now + wait_sec * 1000 <= u64::MAX,
        ensures
            r@ == exchange_from(claim_code@, wait_sec, now),
    {
        ClaimExchange {
            claim_code,
            end_at: if wait_sec == 0 {
                u64::MAX
            } else {
                now + wait_sec as u64 * 1000
            },
            last_message: owned("Preparing setup..."),
        }
    }

    fn go_on(&self, message: String, pause_millis: u64, next: ExchangeNext, now: u64) -> (r:
        ExchangeStep)
        ensures
            r@ == self@.go_on(message@, pause_millis, next@, now),
    {
        if now > self.end_at {
            let mut lines: Vec<String> = Vec::new();
            lines.push(message);
            lines.push(owned("Setup timed out before the program was approved."));
            assert(texts(lines@) =~= seq![
                message@,
                "Setup timed out before the program was approved."@,
            ]);
            ExchangeStep {
                show: lines,
                pause_millis: 2000,
                next: ExchangeNext::Fail(CliError::TimedOut),
            }
        } else {
            exchange_step(Some(message), pause_millis, next)
        }
    }

    fn waiting(&mut self, prompt: &str, now: u64) -> (r: ExchangeStep)
        ensures
            (final(self)@, r@) == old(self)@.waiting(prompt@, now),
    {
        match claim_url(self.claim_code.as_str()) {
            Ok(url) => {
                let message = join2(prompt, url.as_str());
                self.last_message = message.clone();
                self.go_on(message, 200, ExchangeNext::Setup, now)
            },
            Err(error) => exchange_step(None, 0, ExchangeNext::Fail(error)),
        }
    }

    /// What follows the answer to the question where the claim stands, at the moment `now`;
    /// an error is what is shown of it.
    pub fn setup_done(&mut self, result: Result<ClaimSetupResponse, String>, now: u64) -> (r:
        ExchangeStep)
        ensures
            (final(self)@, r@) == old(self)@.after_setup(
                match result {
                    Ok(response) => Ok(response),
                    Err(error) => Err(error@),
                },
                now,
            ),
    {
        match result {
            Err(error) => {
                let text = join3(self.last_message.as_str(), "\n\nError: ", error.as_str());
                self.go_on(text, 2000, ExchangeNext::Setup, now)
            },
            Ok(response) => match response {
                ClaimSetupResponse::WaitingForUserVisit => self.waiting(
                    "Open this link to finish setting up playit:\n",
                    now,
                ),
                ClaimSetupResponse::WaitingForUser => self.waiting(
                    "Approve this program in your browser:\n",
                    now,
                ),
                ClaimSetupResponse::UserAccepted => exchange_step(
                    Some(owned("Program approved. Finishing setup...")),
                    0,
                    ExchangeNext::Exchange,
                ),
                ClaimSetupResponse::UserRejected => exchange_step(
                    Some(owned("Setup was not approved in the browser.")),
                    3000,
                    ExchangeNext::Fail(CliError::AgentClaimRejected),
                ),
            },
        }
    }

    /// What follows the answer to the request for the secret, at the moment `now`.
    pub fn exchange_done(&self, answer: ExchangeAnswer, now: u64) -> (r: ExchangeStep)
        ensures
            r@ == self@.after_exchange(answer, now),
    {
        match answer {
            ExchangeAnswer::Secret(secret) => exchange_step(None, 0, ExchangeNext::Done(secret)),
            ExchangeAnswer::Refused(status) => {
                let mut told = join3(
                    "Waiting for claim code \"",
                    self.claim_code.as_str(),
                    "\" to be approved: ",
                );
                told.append(status.as_str());
                self.go_on(told, 2000, ExchangeNext::Exchange, now)
            },
            ExchangeAnswer::ApiError(error) => exchange_step(
                None,
                0,
                ExchangeNext::Fail(CliError::ApiError(error)),
            ),
            ExchangeAnswer::ClientError(error) => exchange_step(
                None,
                0,
                ExchangeNext::Fail(CliError::RequestError(error)),
            ),
        }
    }
}

/// A secret is asked for only after the owner accepted the claim, or after the API refused
/// an earlier request. An exchange without a limit never times out; one with a limit asks for
/// nothing more once its time is over, unless the owner has accepted the claim, and ends as
/// timed out while the owner has not acted.
pub proof fn exchanges_follow_the_owner(
    exchange: ClaimExchangeView,
    result: Result<ClaimSetupResponse, Seq<char>>,
    answer: ExchangeAnswer,
    now: u64,
)
    ensures
        exchange.after_setup(result, now).1.next is Exchange ==> result == Ok::<
            ClaimSetupResponse,
            Seq<char>,
        >(ClaimSetupResponse::UserAccepted),
        exchange.after_exchange(answer, now).next is Exchange ==> answer is Refused,
        exchange.after_exchange(answer, now).next matches ExchangeNextView::Done(secret) ==> (answer
            matches ExchangeAnswer::Secret(given) && given@ == secret),
        exchange.after_setup(result, now).0.end_at == exchange.end_at,
        exchange.end_at == u64::MAX ==> {
            &&& exchange.after_setup(result, now).1.next != ExchangeNextView::Fail(
                CliErrorView::TimedOut,
            )
            &&& exchange.after_exchange(answer, now).next != ExchangeNextView::Fail(
                CliErrorView::TimedOut,
            )
        },
        now > exchange.end_at ==> {
            &&& !(exchange.after_setup(result, now).1.next is Setup)
            &&& !(exchange.after_exchange(answer, now).next is Exchange)
            &&& !(exchange.after_exchange(answer, now).next is Setup)
            &&& answer is Refused ==> exchange.after_exchange(answer, now).next
                == ExchangeNextView::Fail(CliErrorView::TimedOut)
        },
        now > exchange.end_at && is_hex_text(exchange.claim_code) && still_waiting(result)
            ==> exchange.after_setup(result, now).1.next == ExchangeNextView::Fail(
            CliErrorView::TimedOut,
        ),
{
}

/// The owner has not acted, as far as is known.
pub open spec fn still_waiting(result: Result<ClaimSetupResponse, Seq<char>>) -> bool {
    match result {
        Ok(ClaimSetupResponse::WaitingForUserVisit) => true,
        Ok(ClaimSetupResponse::WaitingForUser) => true,
        Ok(_) => false,
        Err(_) => true,
    }
}

/// An exchange that waits for a number of seconds has timed out as soon as more than that
/// have passed since its start, if the owner has not acted by then.
pub proof fn waits_end_in_time(
    claim_code: Seq<char>,
    wait_sec: u32,
    start: u64,
    last_message: Seq<char>,
    result: Result<ClaimSetupResponse, Seq<char>>,
    now: u64,
)
    requires
        wait_sec > 0,
        start + wait_sec * 1000 <= u64::MAX,
        now > start + wait_sec * 1000,
        is_hex_text(claim_code),
        still_waiting(result),
    ensures
        (ClaimExchangeView {
            last_message,
            ..exchange_from(claim_code, wait_sec, start)
        }).after_setup(result, now).1.next == ExchangeNextView::Fail(CliErrorView::TimedOut),
{
}

/// Each state of a claim is shown by its name.
pub proof fn claim_states_are_shown_by_name(setup: ClaimSetupResponse)
    ensures
        setup is WaitingForUserVisit ==> setup_name(setup) == "WaitingForUserVisit"@,
        setup is WaitingForUser ==> setup_name(setup) == "WaitingForUser"@,
        setup is UserAccepted ==> setup_name(setup) == "UserAccepted"@,
        setup is UserRejected ==> setup_name(setup) == "UserRejected"@,
{
}

/// Each reason why there are no details of a claim is told by its name.
pub proof fn missing_details_are_told_by_name(fail: ClaimDetailsFail)
    ensures
        fail is AlreadyClaimed ==> details_fail_name(fail) == "AlreadyClaimed"@,
        fail is AlreadyRejected ==> details_fail_name(fail) == "AlreadyRejected"@,
        fail is ClaimExpired ==> details_fail_name(fail) == "ClaimExpired"@,
        fail is DifferentOwner ==> details_fail_name(fail) == "DifferentOwner"@,
        fail is WaitingForAgent ==> details_fail_name(fail) == "WaitingForAgent"@,
        fail is InvalidCode ==> details_fail_name(fail) == "InvalidCode"@,
        fail is Other ==> details_fail_name(fail) == "Other"@,
{
}

/// Each reason why a claim is not accepted is told by its name.
pub proof fn refused_approvals_are_told_by_name(fail: ClaimAcceptFail)
    ensures
        fail is InvalidCode ==> accept_fail_name(fail) == "InvalidCode"@,
        fail is AgentNotReady ==> accept_fail_name(fail) == "AgentNotReady"@,
        fail is CodeNotFound ==> accept_fail_name(fail) == "CodeNotFound"@,
        fail is InvalidAgentType ==> accept_fail_name(fail) == "InvalidAgentType"@,
        fail is ClaimAlreadyAccepted ==> accept_fail_name(fail) == "ClaimAlreadyAccepted"@,
        fail is ClaimRejected ==> accept_fail_name(fail) == "ClaimRejected"@,
        fail is CodeExpired ==> accept_fail_name(fail) == "CodeExpired"@,
        fail is InvalidName ==> accept_fail_name(fail) == "InvalidName"@,
        fail is Other ==> accept_fail_name(fail) == "Other"@,
{
}

/// Each reason why a claim is not rejected is told by its name.
pub proof fn refused_rejections_are_told_by_name(fail: ClaimRejectFail)
    ensures
        fail is InvalidCode ==> reject_fail_name(fail) == "InvalidCode"@,
        fail is CodeNotFound ==> reject_fail_name(fail) == "CodeNotFound"@,
        fail is ClaimAccepted ==> reject_fail_name(fail) == "ClaimAccepted"@,
        fail is ClaimAlreadyRejected ==> reject_fail_name(fail) == "ClaimAlreadyRejected"@,
        fail is Other ==> reject_fail_name(fail) == "Other"@,
{
}

// ---------------------------------------------------------------------------
// Laws of the commands
// ---------------------------------------------------------------------------

/// Every command comes to what its name says, with just the values that it was given; what starts
/// or stops the service does so with the service manager of the host.
pub proof fn commands_do_what_they_say(
    stdout: bool,
    manager: ServiceManagerMode,
    command: Command,
    action: CliAction,
)
    requires
        action_of(stdout, manager, command, action),
    ensures
        command is Auto <==> action is Auto,
        command is Attach <==> action is Attach,
        command is Start <==> action is Start,
        command is Stop <==> action is Stop,
        command is Status <==> action is Status,
        command is Reset <==> action is Reset,
        command is SecretPath <==> action is SecretPath,
        command is Setup <==> action is Setup,
        command is AgentsList <==> action is AgentsList,
        command is AgentsDelete <==> action is AgentsDelete,
        command is AccountLoginUrl <==> action is AccountLoginUrl,
        command is AccountLogin <==> action is AccountLogin,
        command is AccountLogout <==> action is AccountLogout,
        command is AccountStatus <==> action is AccountStatus,
        command is AccountValidate <==> action is AccountValidate,
        command is ClaimExchange <==> action is ClaimExchange,
        command is ClaimInspect <==> action is ClaimInspect,
        command is ClaimApprove <==> action is ClaimApprove,
        command is ClaimReject <==> action is ClaimReject,
        command is Version || command is ClaimGenerate || command is ClaimUrl <==> action is Print,
        command is Auto ==> action == (CliAction::Auto {
            attach: if stdout {
                AttachMode::Stdout
            } else {
                AttachMode::Interactive
            },
            manager,
        }),
        command matches Command::Attach { stdout: here } ==> action == (CliAction::Attach {
            attach: if stdout || here {
                AttachMode::Stdout
            } else {
                AttachMode::Interactive
            },
        }),
        command is Start ==> action == (CliAction::Start { manager }),
        command is Stop ==> action == (CliAction::Stop { manager }),
        command matches Command::Setup { direct, name } ==> action == (CliAction::Setup {
            direct,
            name,
            manager,
        }),
        command matches Command::AgentsDelete { agent_id, move_tunnels_to, disable_tunnels }
            ==> action == (CliAction::AgentsDelete { agent_id, move_tunnels_to, disable_tunnels }),
        command matches Command::AccountLogin { email, password_stdin } ==> action == (
        CliAction::AccountLogin { email, password_stdin }),
        command matches Command::ClaimExchange { claim_code, wait } ==> action == (
        CliAction::ClaimExchange { claim_code, agent_type: ClaimAgentType::SelfManaged, wait }),
        command matches Command::ClaimInspect { claim_code } ==> action == (
        CliAction::ClaimInspect { claim_code }),
        command matches Command::ClaimApprove { claim_code, name, agent_type } ==> action == (
        CliAction::ClaimApprove { claim_code, name, agent_type }),
        command matches Command::ClaimReject { claim_code } ==> action == (
        CliAction::ClaimReject { claim_code }),
        command matches Command::ClaimUrl { claim_code } ==> (action matches CliAction::Print(url)
            && url@ == "https://playit.gg/claim/"@ + claim_code@),
        command is ClaimGenerate ==> (action matches CliAction::Print(code) && code@.len() == 10
            && is_hex_text(code@)),
        command is Version ==> (action matches CliAction::Print(version) && version@
            == PACKAGE_VERSION@),
{
    if command is ClaimGenerate {
        crate::claim::claim_codes_are_ten_hex_digits(action->Print_0@);
    }
}

/// The service is managed by what the host has: on Linux by the manager that a flag names and
/// else by none, on Windows by its services, elsewhere by itself. Logs go to the standard output
/// exactly if a flag says so.
pub proof fn hosts_have_their_service_manager(host: CliHost, stdout: bool, command: Command)
    ensures
        host matches CliHost::Linux { systemd, openrc } ==> {
            &&& systemd ==> manager_of(host) == ServiceManagerMode::Systemd
            &&& !systemd && openrc ==> manager_of(host) == ServiceManagerMode::OpenRc
            &&& !systemd && !openrc ==> manager_of(host) == ServiceManagerMode::Unmanaged
        },
        host is Windows ==> manager_of(host) == ServiceManagerMode::WindowsService,
        host is Other ==> manager_of(host) == ServiceManagerMode::Native,
        to_stdout(stdout, command) <==> stdout || (command matches Command::Attach { stdout: here }
            && here),
{
}

/// A setup goes on after each step that succeeded and ends, with its error, at the first that did
/// not. With the stored session the claim is approved by the program itself, else its page is
/// shown; once the service has the secret, a setup in the browser offers a guest's login, and
/// tells that it is complete.
pub proof fn setups_take_their_course(flow: SetupFlowView, event: SetupEvent)
    ensures
        flow.first() == if flow.direct {
            SetupNextView::RequireSession
        } else {
            SetupNextView::EnsureWaiting
        },
        event matches SetupEvent::SessionChecked(Ok(_)) ==> flow.step(event).next
            == SetupNextView::EnsureWaiting,
        event matches SetupEvent::ServiceWaiting(Ok(_)) ==> if flow.direct {
            flow.step(event).next == (SetupNextView::Approve {
                claim_code: flow.claim_code,
                name: flow.name,
            }) && flow.step(event).show is None
        } else {
            is_hex_text(flow.claim_code) ==> flow.step(event).next == (SetupNextView::Exchange {
                claim_code: flow.claim_code,
                agent_type: ClaimAgentType::Assignable,
                wait_sec: 0,
            }) && flow.step(event).show == Some(
                "Open this link to finish setting up playit:\n"@ + (
                "https://playit.gg/claim/"@ + flow.claim_code),
            )
        },
        event matches SetupEvent::Approved(Ok(_)) ==> flow.step(event).next == (
        SetupNextView::Exchange {
            claim_code: flow.claim_code,
            agent_type: ClaimAgentType::Assignable,
            wait_sec: 0,
        }),
        event matches SetupEvent::Exchanged(Ok(secret)) ==> flow.step(event).next == (
        SetupNextView::Provision { secret: secret@ }) && flow.after(event).secret == secret@,
        event matches SetupEvent::Provisioned(Ok(_)) ==> flow.step(event).next == if flow.direct {
            SetupNextView::Done
        } else {
            SetupNextView::LoginGuest { secret: flow.secret }
        },
        event matches SetupEvent::GuestLogin(Some(key)) ==> flow.step(event).next == (
        SetupNextView::Pause { millis: 10_000 }) && flow.step(event).show == Some(
            "Guest login:\n"@ + ("https://playit.gg/login/guest-account/"@ + key@),
        ),
        event matches SetupEvent::GuestLogin(None) ==> flow.step(event).next is Done,
        event is Paused ==> flow.step(event).next is Done,
        flow.step(event).next is Done ==> flow.step(event).show == Some(
            "playit setup is complete. The background service is ready."@,
        ),
        event matches SetupEvent::SessionChecked(Err(error)) ==> flow.step(event).next
            == SetupNextView::Fail(error@),
        event matches SetupEvent::ServiceWaiting(Err(error)) ==> flow.step(event).next
            == SetupNextView::Fail(error@),
        event matches SetupEvent::Approved(Err(error)) ==> flow.step(event).next
            == SetupNextView::Fail(error@),
        event matches SetupEvent::Exchanged(Err(error)) ==> flow.step(event).next
            == SetupNextView::Fail(error@),
        event matches SetupEvent::Provisioned(Err(error)) ==> flow.step(event).next
            == SetupNextView::Fail(error@),
        !(event matches SetupEvent::Exchanged(Ok(_))) ==> flow.after(event) == flow,
{
}

/// An agent is managed by itself unless a flag says that it can be assigned; any other word is
/// refused.
pub proof fn agent_types_are_read_from_their_flag(value: Option<Seq<char>>, shown: Seq<char>)
    ensures
        agent_type_of(value, shown) == Ok::<ClaimAgentType, Seq<char>>(ClaimAgentType::Assignable)
            <==> value is Some && trimmed(value->0) == "assignable"@,
        agent_type_of(value, shown) == Ok::<ClaimAgentType, Seq<char>>(ClaimAgentType::SelfManaged)
            <==> value is None || trimmed(value->0).len() == 0 || trimmed(value->0)
            == "self-managed"@,
        agent_type_of(value, shown) is Err ==> agent_type_of(value, shown)->Err_0
            == "invalid --agent-type "@ + shown + ": expected `assignable` or `self-managed`"@,
{
    reveal_strlit("assignable");
    reveal_strlit("self-managed");
}

/// A claim is approved under the name that was given, or else under the one that is asked for once
/// its details were found, without the whitespace around it and never a blank one. What the API
/// answers ends the approval: an accepted claim is told, with what to do next, and anything else
/// is an error.
pub proof fn approvals_take_their_course(
    approval: ClaimApprovalView,
    event: ApprovalEvent,
    shown_name: Seq<char>,
    shown_type: Seq<char>,
)
    ensures
        ({
            let (after, step) = approval.after(event, shown_name, shown_type);
            let type_known = agent_type_of(approval.agent_type, shown_type) is Ok;
            let given = approval.name is Some && trimmed(approval.name->0).len() > 0;
            &&& event matches ApprovalEvent::SessionLoaded(Ok(_)) ==> step.next is AwaitDetails
            &&& event matches ApprovalEvent::DetailsFound(Ok(_)) ==> step.show.len() == 1
            &&& event matches ApprovalEvent::DetailsFound(Ok(_)) ==> !given ==> step.next is AskName
            &&& event matches ApprovalEvent::DetailsFound(Ok(_)) ==> given && type_known
                ==> step.next == (ApprovalNextView::Accept {
                name: trimmed(approval.name->0),
                agent_type: agent_type_of(approval.agent_type, shown_type)->Ok_0,
            })
            &&& event matches ApprovalEvent::NameGiven(Ok(name)) ==> trimmed(name@).len() > 0
                && type_known ==> step.next == (ApprovalNextView::Accept {
                name: trimmed(name@),
                agent_type: agent_type_of(approval.agent_type, shown_type)->Ok_0,
            })
            &&& event matches ApprovalEvent::NameGiven(Ok(name)) ==> trimmed(name@).len() == 0
                ==> step.next == ApprovalNextView::Fail(
                CliErrorView::ApiFail("agent name must not be empty"@),
            )
            &&& event matches ApprovalEvent::Answered(Ok(ApiResult::Success(_))) ==> step.next
                is Done && step.show.len() == 2
            &&& event matches ApprovalEvent::Answered(Ok(ApiResult::Fail(_))) ==> step.next is Fail
            &&& event matches ApprovalEvent::Answered(Ok(ApiResult::Error(error))) ==> step.next
                == ApprovalNextView::Fail(CliErrorView::ApiError(error@))
            &&& event matches ApprovalEvent::Answered(Err(_)) ==> step.next is Fail
            &&& event matches ApprovalEvent::SessionLoaded(Err(error)) ==> step.next
                == ApprovalNextView::Fail(error@)
            &&& event matches ApprovalEvent::DetailsFound(Err(error)) ==> step.next
                == ApprovalNextView::Fail(error@)
            &&& event matches ApprovalEvent::NameGiven(Err(error)) ==> step.next
                == ApprovalNextView::Fail(error@)
        }),
{
}

/// An approved claim is told with the agent that it made, its name, and the command that fetches
/// the secret; a refused one with the reason.
pub proof fn approvals_are_told(
    claim_code: Seq<char>,
    name: Seq<char>,
    outcome: Result<ApiResult<ClaimAccepted, ClaimAcceptFail>, WebApiError>,
)
    ensures
        outcome matches Ok(ApiResult::Success(accepted)) ==> approval_told(
            claim_code,
            name,
            outcome,
        ) == Ok::<Seq<Seq<char>>, CliErrorView>(
            seq![
                "claim approved, agent "@ + uuid_shown(accepted.agent_id) + " ("@ + name + ")"@,
                "run `claim exchange "@ + claim_code + "` to fetch the agent secret"@,
            ],
        ),
        outcome matches Ok(ApiResult::Fail(fail)) ==> approval_told(claim_code, name, outcome)
            == Err::<Seq<Seq<char>>, CliErrorView>(
            CliErrorView::ApiFail(
                "claim "@ + claim_code + " was not approved: "@ + accept_fail_name(fail),
            ),
        ),
        outcome matches Ok(ApiResult::Error(error)) ==> approval_told(claim_code, name, outcome)
            == Err::<Seq<Seq<char>>, CliErrorView>(CliErrorView::ApiError(error@)),
        outcome matches Err(error) ==> approval_told(claim_code, name, outcome) == Err::<
            Seq<Seq<char>>,
            CliErrorView,
        >(CliErrorView::SessionError(error@.shown())),
{
}

/// An exchange shows its page while the owner has not decided, asks again after a fifth of a
/// second, or two after an error, asks for the secret as soon as the claim is accepted, and ends
/// if it is rejected; it gives the secret that the API gave.
pub proof fn exchanges_take_their_course(
    exchange: ClaimExchangeView,
    result: Result<ClaimSetupResponse, Seq<char>>,
    answer: ExchangeAnswer,
    now: u64,
)
    requires
        now <= exchange.end_at,
    ensures
        ({
            let (after, step) = exchange.after_setup(result, now);
            let page = "https://playit.gg/claim/"@ + exchange.claim_code;
            let shown_page = if result == Ok::<ClaimSetupResponse, Seq<char>>(
                ClaimSetupResponse::WaitingForUserVisit,
            ) {
                "Open this link to finish setting up playit:\n"@ + page
            } else {
                "Approve this program in your browser:\n"@ + page
            };
            &&& (result == Ok::<ClaimSetupResponse, Seq<char>>(
                ClaimSetupResponse::WaitingForUserVisit,
            ) || result == Ok::<ClaimSetupResponse, Seq<char>>(ClaimSetupResponse::WaitingForUser))
                && is_hex_text(exchange.claim_code) ==> step == (ExchangeStepView {
                show: seq![shown_page],
                pause_millis: 200,
                next: ExchangeNextView::Setup,
            })
            &&& result == Ok::<ClaimSetupResponse, Seq<char>>(ClaimSetupResponse::UserAccepted)
                ==> step.next == ExchangeNextView::Exchange && step.pause_millis == 0
            &&& result == Ok::<ClaimSetupResponse, Seq<char>>(ClaimSetupResponse::UserRejected)
                ==> step.next == ExchangeNextView::Fail(CliErrorView::AgentClaimRejected)
            &&& result is Err ==> step.next == ExchangeNextView::Setup && step.pause_millis == 2000
            &&& after.claim_code == exchange.claim_code
        }),
        answer matches ExchangeAnswer::Secret(secret) ==> exchange.after_exchange(answer, now).next
            == ExchangeNextView::Done(secret@),
        answer is Refused ==> exchange.after_exchange(answer, now).next
            == ExchangeNextView::Exchange && exchange.after_exchange(answer, now).pause_millis
            == 2000,
        answer matches ExchangeAnswer::ApiError(error) ==> exchange.after_exchange(answer, now).next
            == ExchangeNextView::Fail(CliErrorView::ApiError(error@)),
        answer matches ExchangeAnswer::ClientError(error) ==> exchange.after_exchange(
            answer,
            now,
        ).next == ExchangeNextView::Fail(CliErrorView::RequestError(error@)),
{
}

/// An exchange ends the given number of seconds after its start, and never where that is 0.
pub proof fn exchanges_end_when_asked_to(claim_code: Seq<char>, wait_sec: u32, now: u64)
    ensures
        exchange_from(claim_code, wait_sec, now).claim_code == claim_code,
        wait_sec == 0 ==> exchange_from(claim_code, wait_sec, now).end_at == u64::MAX,
        wait_sec > 0 && now + wait_sec * 1000 <= u64::MAX ==> exchange_from(
            claim_code,
            wait_sec,
            now,
        ).end_at == now + wait_sec * 1000,
        DETAILS_ROUNDS == 40,
        DETAILS_PAUSE_MILLIS == 500,
{
}

/// Every agent of the account is listed, in the order of the API, by its ID and its name.
pub proof fn agents_are_listed_one_by_one(list: AgentsList, i: int)
    ensures
        list.agents@.len() == 0 ==> agent_lines(list) == seq!["no agents"@],
        list.agents@.len() > 0 ==> agent_lines(list).len() == list.agents@.len(),
        0 <= i < list.agents@.len() ==> agent_lines(list)[i] == uuid_shown(list.agents@[i].id)
            + " "@ + list.agents@[i].name@,
{
}

/// The agent with the given ID is deleted; its tunnels go to the agent that was named, or to none,
/// and are disabled only if that was asked for. An ID that cannot be read is refused.
pub proof fn the_named_agent_is_deleted(
    agent_id: Seq<char>,
    move_tunnels_to: Option<Seq<char>>,
    disable_tunnels: bool,
    agent: Result<u128, Seq<char>>,
    target: Option<Result<u128, Seq<char>>>,
)
    ensures
        ({
            let request = delete_request(
                agent_id,
                move_tunnels_to,
                disable_tunnels,
                agent,
                target,
            );
            &&& request is Ok <==> agent is Ok && (target is Some ==> target->0 is Ok)
            &&& request is Ok ==> {
                &&& request->Ok_0.agent_id == agent->Ok_0
                &&& request->Ok_0.tunnels_strategy matches TunnelsStrategy::MoveToAgent(details)
                &&& details.disable_tunnels == disable_tunnels
                &&& target is None ==> details.agent_id is None
                &&& target is Some ==> details.agent_id == Some(target->0->Ok_0)
            }
            &&& agent is Err ==> request->Err_0 == CliErrorView::ApiFail(
                "invalid agent id: "@ + agent_id,
            )
        }),
        move_tunnels_to matches Some(id) ==> optional_uuid(move_tunnels_to) == Some(
            uuid_parse(trimmed(id)),
        ),
        move_tunnels_to is None ==> optional_uuid(move_tunnels_to) is None,
{
}

/// What is told of a failed command names it, with what it is about.
pub proof fn failed_commands_are_told(error: CliErrorView)
    ensures
        error is InvalidClaimCode ==> error.shown() == "InvalidClaimCode"@,
        error is AgentClaimRejected ==> error.shown() == "AgentClaimRejected"@,
        error is TimedOut ==> error.shown() == "TimedOut"@,
        error is AnswerNotProvided ==> error.shown() == "AnswerNotProvided"@,
        error matches CliErrorView::SessionError(message) ==> error.shown() == message,
        error matches CliErrorView::ApiFail(message) ==> error.shown() == message,
        error matches CliErrorView::ServiceError(message) ==> error.shown() == message,
        error matches CliErrorView::IpcError(message) ==> error.shown() == message,
        error matches CliErrorView::ApiError(e) ==> error.shown() == "ApiError("@ + e.shown()
            + ")"@,
        error matches CliErrorView::RequestError(e) ==> error.shown() == "RequestError("@
            + e.debugged() + ")"@,
        forall|code: Seq<char>| #[trigger]
            never_visible(code) == CliErrorView::ApiFail(
                "timed out waiting for claim "@ + code
                    + " to become visible; is the machine polling this code?"@,
            ),
{
}

/// A step of a setup is told as what it is.
pub proof fn setup_steps_say_what_they_are(next: SetupNext)
    ensures
        next is RequireSession ==> next@ == SetupNextView::RequireSession,
        next is EnsureWaiting ==> next@ == SetupNextView::EnsureWaiting,
        next matches SetupNext::Approve { claim_code, name }
            ==> next@ == (SetupNextView::Approve {
            claim_code: claim_code@,
            name: opt_text(name),
        }),
        next matches SetupNext::Exchange { claim_code, agent_type, wait_sec }
            ==> next@ == (SetupNextView::Exchange {
            claim_code: claim_code@,
            agent_type,
            wait_sec,
        }),
        next matches SetupNext::Provision { secret }
            ==> next@ == (SetupNextView::Provision { secret: secret@ }),
        next matches SetupNext::LoginGuest { secret }
            ==> next@ == (SetupNextView::LoginGuest { secret: secret@ }),
        next matches SetupNext::Pause { millis } ==> next@ == (SetupNextView::Pause { millis }),
        next is Done ==> next@ == SetupNextView::Done,
        next matches SetupNext::Fail(error) ==> next@ == SetupNextView::Fail(error@),
{
}

/// A step of an exchange is told as what it is.
pub proof fn exchange_steps_say_what_they_are(next: ExchangeNext)
    ensures
        next is Setup ==> next@ == ExchangeNextView::Setup,
        next is Exchange ==> next@ == ExchangeNextView::Exchange,
        next matches ExchangeNext::Done(secret) ==> next@ == ExchangeNextView::Done(secret@),
        next matches ExchangeNext::Fail(error) ==> next@ == ExchangeNextView::Fail(error@),
{
}

/// A step of an approval is told as what it is.
pub proof fn approval_steps_say_what_they_are(next: ApprovalNext)
    ensures
        next is AwaitDetails ==> next@ == ApprovalNextView::AwaitDetails,
        next is AskName ==> next@ == ApprovalNextView::AskName,
        next matches ApprovalNext::Accept { name, agent_type }
            ==> next@ == (ApprovalNextView::Accept { name: name@, agent_type, }),
        next is Done ==> next@ == ApprovalNextView::Done,
        next matches ApprovalNext::Fail(error) ==> next@ == ApprovalNextView::Fail(error@),
{
}

/// The details of a claim are told by its code, the type of the agent, and the name that the
/// machine gave itself; the name is the quoted one, and so is the type in an error.
pub proof fn details_are_told_before_the_approval(
    approval: ClaimApprovalView,
    details: ClaimDetails,
    shown_name: Seq<char>,
    shown_type: Seq<char>,
)
    ensures
        approval.after(
            ApprovalEvent::DetailsFound(Ok(details)),
            shown_name,
            shown_type,
        ).1.show[0] == "claim "@ + approval.claim_code + ": "@ + (if details.agent_type
            is Assignable {
            "Assignable"@
        } else {
            "SelfManaged"@
        }) + " named "@ + shown_name,
        approval.after_event(ApprovalEvent::DetailsFound(Ok(details))) == approval.after(
            ApprovalEvent::DetailsFound(Ok(details)),
            debug_quoted(details.name@),
            approval.shown_type(),
        ),
        approval.agent_type matches Some(value) ==> approval.shown_type() == debug_quoted(
            trimmed(value),
        ),
{
}

/// A failed question where a claim stands is shown with its kind and what came back.
pub proof fn failed_claim_questions_are_shown(error: ApiError<ClaimSetupError>)
    ensures
        error matches ApiError::Fail(fail) ==> setup_failure_shown(error) == "Fail("@ + fail.shown()
            + ")"@,
        error matches ApiError::ApiError(e) ==> setup_failure_shown(error) == "ApiError("@
            + e@.shown() + ")"@,
        error matches ApiError::ClientError(e) ==> setup_failure_shown(error) == "ClientError("@
            + e@.debugged() + ")"@,
{
}

} // verus!
