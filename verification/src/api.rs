//! The parts of the Playit API's vocabulary that the library reads or writes.

use vstd::prelude::*;

use crate::http_client::{HttpClientError, HttpClientErrorView};
use crate::outside::{debug_quoted, quote_debug};
use crate::text::{decimal, decimal_text, join3, owned};

verus! {

/// The status of a Playit account.
#[derive(Clone, Copy, Debug, PartialEq, Eq, Structural)]
pub enum AccountStatus {
    Guest,
    EmailNotVerified,
    Verified,
}

impl AccountStatus {
    pub open spec fn shown(self) -> Seq<char> {
        match self {
            AccountStatus::Guest => "Guest"@,
            AccountStatus::EmailNotVerified => "EmailNotVerified"@,
            AccountStatus::Verified => "Verified"@,
        }
    }

    /// The name of this value.
    pub fn name(&self) -> (r: &'static str)
        ensures
            r@ == self.shown(),
    {
        match self {
            AccountStatus::Guest => "Guest",
            AccountStatus::EmailNotVerified => "EmailNotVerified",
            AccountStatus::Verified => "Verified",
        }
    }
}

/// When a one-time code was last accepted.
#[derive(Clone, Copy, Debug, PartialEq, Eq, Structural)]
pub struct SignedEpoch {
    pub epoch_sec: u64,
}

/// Where a session stands with its one-time code.
#[derive(Clone, Copy, Debug, PartialEq, Eq, Structural)]
pub enum TotpStatus {
    Required,
    NotSetup,
    Signed(SignedEpoch),
}

impl TotpStatus {
    pub open spec fn shown(self) -> Seq<char> {
        match self {
            TotpStatus::Required => "Required"@,
            TotpStatus::NotSetup => "NotSetup"@,
            TotpStatus::Signed(signed) => "Signed(SignedEpoch { epoch_sec: "@ + decimal(
                signed.epoch_sec as nat,
            ) + " })"@,
        }
    }

    /// The status in words.
    pub fn debug_text(&self) -> (r: String)
        ensures
            r@ == self.shown(),
    {
        match self {
            TotpStatus::Required => owned("Required"),
            TotpStatus::NotSetup => owned("NotSetup"),
            TotpStatus::Signed(signed) => {
                let epoch = decimal_text(signed.epoch_sec);
                join3("Signed(SignedEpoch { epoch_sec: ", epoch.as_str(), " })")
            },
        }
    }
}

/// What a session token says of its account.
#[derive(Clone, Copy, Debug, PartialEq, Eq, Structural)]
pub struct WebAuthToken {
    pub update_version: u32,
    pub account_id: u64,
    pub timestamp: u64,
    pub account_status: AccountStatus,
    pub totp_status: TotpStatus,
    pub admin_id: Option<u64>,
    pub admin_review_id: Option<u64>,
    pub read_only: bool,
    pub show_admin: bool,
}

/// A session of an account: the secret key and what its token says.
pub struct WebSession {
    /// The secret. Never shown, never logged.
    pub session_key: String,
    pub auth: WebAuthToken,
}

/// The model of a [`WebSession`].
#[verifier::ext_equal]
pub struct WebSessionView {
    pub session_key: Seq<char>,
    pub auth: WebAuthToken,
}

impl View for WebSession {
    type V = WebSessionView;

    open spec fn view(&self) -> WebSessionView {
        WebSessionView { session_key: self.session_key@, auth: self.auth }
    }
}

/// Why the API did not accept a credential.
#[derive(Debug)]
pub enum AuthError {
    AuthRequired,
    SessionExpired,
    NoLongerValid,
    InvalidToken,
    InvalidAgentKey,
    InvalidHeader,
    TotpRequred,
    /// Any other reason, by its name.
    Other(String),
}

/// The model of an [`AuthError`].
#[verifier::ext_equal]
pub enum AuthErrorView {
    AuthRequired,
    SessionExpired,
    NoLongerValid,
    InvalidToken,
    InvalidAgentKey,
    InvalidHeader,
    TotpRequred,
    Other(Seq<char>),
}

impl View for AuthError {
    type V = AuthErrorView;

    open spec fn view(&self) -> AuthErrorView {
        match *self {
            AuthError::AuthRequired => AuthErrorView::AuthRequired,
            AuthError::SessionExpired => AuthErrorView::SessionExpired,
            AuthError::NoLongerValid => AuthErrorView::NoLongerValid,
            AuthError::InvalidToken => AuthErrorView::InvalidToken,
            AuthError::InvalidAgentKey => AuthErrorView::InvalidAgentKey,
            AuthError::InvalidHeader => AuthErrorView::InvalidHeader,
            AuthError::TotpRequred => AuthErrorView::TotpRequred,
            AuthError::Other(name) => AuthErrorView::Other(name@),
        }
    }
}

impl AuthErrorView {
    pub open spec fn shown(self) -> Seq<char> {
        match self {
            AuthErrorView::AuthRequired => "AuthRequired"@,
            AuthErrorView::SessionExpired => "SessionExpired"@,
            AuthErrorView::NoLongerValid => "NoLongerValid"@,
            AuthErrorView::InvalidToken => "InvalidToken"@,
            AuthErrorView::InvalidAgentKey => "InvalidAgentKey"@,
            AuthErrorView::InvalidHeader => "InvalidHeader"@,
            AuthErrorView::TotpRequred => "TotpRequred"@,
            AuthErrorView::Other(name) => name,
        }
    }

    /// The account session that was sent is no longer accepted.
    pub open spec fn ends_session(self) -> bool {
        ||| self == AuthErrorView::SessionExpired
        ||| self == AuthErrorView::AuthRequired
        ||| self == AuthErrorView::NoLongerValid
        ||| self == AuthErrorView::InvalidToken
    }

    /// The agent secret that was sent is no longer accepted.
    pub open spec fn ends_agent_secret(self) -> bool {
        ||| self == AuthErrorView::InvalidAgentKey
        ||| self == AuthErrorView::NoLongerValid
    }
}

impl AuthError {
    /// The name of the reason.
    pub fn name(&self) -> (r: String)
        ensures
            r@ == self@.shown(),
    {
        match self {
            AuthError::AuthRequired => owned("AuthRequired"),
            AuthError::SessionExpired => owned("SessionExpired"),
            AuthError::NoLongerValid => owned("NoLongerValid"),
            AuthError::InvalidToken => owned("InvalidToken"),
            AuthError::InvalidAgentKey => owned("InvalidAgentKey"),
            AuthError::InvalidHeader => owned("InvalidHeader"),
            AuthError::TotpRequred => owned("TotpRequred"),
            AuthError::Other(name) => name.clone(),
        }
    }

    /// Whether the account session that was sent is no longer accepted.
    pub fn ends_session(&self) -> (r: bool)
        ensures
            r == self@.ends_session(),
    {
        match self {
            AuthError::SessionExpired => true,
            AuthError::AuthRequired => true,
            AuthError::NoLongerValid => true,
            AuthError::InvalidToken => true,
            _ => false,
        }
    }

    /// Whether the agent secret that was sent is no longer accepted.
    pub fn ends_agent_secret(&self) -> (r: bool)
        ensures
            r == self@.ends_agent_secret(),
    {
        match self {
            AuthError::InvalidAgentKey => true,
            AuthError::NoLongerValid => true,
            _ => false,
        }
    }
}

/// A structured error that the API answers in place of a result.
#[derive(Debug)]
pub enum ApiResponseError {
    Validation(String),
    PathNotFound(String),
    Auth(AuthError),
    /// The API failed; the text is the reference that it gave.
    Internal(String),
}

/// The model of an [`ApiResponseError`].
#[verifier::ext_equal]
pub enum ApiResponseErrorView {
    Validation(Seq<char>),
    PathNotFound(Seq<char>),
    Auth(AuthErrorView),
    Internal(Seq<char>),
}

impl View for ApiResponseError {
    type V = ApiResponseErrorView;

    open spec fn view(&self) -> ApiResponseErrorView {
        match *self {
            ApiResponseError::Validation(message) => ApiResponseErrorView::Validation(message@),
            ApiResponseError::PathNotFound(path) => ApiResponseErrorView::PathNotFound(path@),
            ApiResponseError::Auth(error) => ApiResponseErrorView::Auth(error@),
            ApiResponseError::Internal(trace_id) => ApiResponseErrorView::Internal(trace_id@),
        }
    }
}

impl ApiResponseErrorView {
    /// The error in words.
    pub open spec fn shown(self) -> Seq<char> {
        match self {
            ApiResponseErrorView::Validation(message) => "Validation("@ + debug_quoted(message)
                + ")"@,
            ApiResponseErrorView::PathNotFound(path) => "PathNotFound(PathNotFound { path: "@
                + debug_quoted(path) + " })"@,
            ApiResponseErrorView::Auth(error) => "Auth("@ + error.shown() + ")"@,
            ApiResponseErrorView::Internal(trace_id) => "Internal(ApiInternalError { trace_id: "@
                + debug_quoted(trace_id) + " })"@,
        }
    }

    /// The account session that was sent is no longer accepted.
    pub open spec fn ends_session(self) -> bool {
        self matches ApiResponseErrorView::Auth(error) && error.ends_session()
    }

    /// The agent secret that was sent is no longer accepted.
    pub open spec fn ends_agent_secret(self) -> bool {
        self matches ApiResponseErrorView::Auth(error) && error.ends_agent_secret()
    }
}

impl ApiResponseError {
    /// The error in words.
    pub fn debug_text(&self) -> (r: String)
        ensures
            r@ == self@.shown(),
    {
        match self {
            ApiResponseError::Validation(message) => {
                let quoted = quote_debug(message.as_str());
                join3("Validation(", quoted.as_str(), ")")
            },
            ApiResponseError::PathNotFound(path) => {
                let quoted = quote_debug(path.as_str());
                join3("PathNotFound(PathNotFound { path: ", quoted.as_str(), " })")
            },
            ApiResponseError::Auth(error) => {
                let name = error.name();
                join3("Auth(", name.as_str(), ")")
            },
            ApiResponseError::Internal(trace_id) => {
                let quoted = quote_debug(trace_id.as_str());
                join3("Internal(ApiInternalError { trace_id: ", quoted.as_str(), " })")
            },
        }
    }

    /// Whether the account session that was sent is no longer accepted.
    pub fn ends_session(&self) -> (r: bool)
        ensures
            r == self@.ends_session(),
    {
        match self {
            ApiResponseError::Auth(error) => error.ends_session(),
            _ => false,
        }
    }

    /// Whether the agent secret that was sent is no longer accepted.
    pub fn ends_agent_secret(&self) -> (r: bool)
        ensures
            r == self@.ends_agent_secret(),
    {
        match self {
            ApiResponseError::Auth(error) => error.ends_agent_secret(),
            _ => false,
        }
    }
}

/// What the API answered: a result, a typed failure of the request, or an error.
#[derive(Debug)]
pub enum ApiResult<S, F> {
    Success(S),
    Fail(F),
    Error(ApiResponseError),
}

/// Why an API call gave no result.
#[derive(Debug)]
pub enum ApiError<F> {
    Fail(F),
    ApiError(ApiResponseError),
    ClientError(HttpClientError),
}

/// Why an API call without typed failures gave no result.
#[derive(Debug)]
pub enum ApiErrorNoFail {
    UnexpectedFail,
    ApiError(ApiResponseError),
    ClientError(HttpClientError),
}

/// The model of an [`ApiErrorNoFail`].
#[verifier::ext_equal]
pub enum ApiErrorNoFailView {
    UnexpectedFail,
    ApiError(ApiResponseErrorView),
    ClientError(HttpClientErrorView),
}

impl View for ApiErrorNoFail {
    type V = ApiErrorNoFailView;

    open spec fn view(&self) -> ApiErrorNoFailView {
        match *self {
            ApiErrorNoFail::UnexpectedFail => ApiErrorNoFailView::UnexpectedFail,
            ApiErrorNoFail::ApiError(error) => ApiErrorNoFailView::ApiError(error@),
            ApiErrorNoFail::ClientError(error) => ApiErrorNoFailView::ClientError(error@),
        }
    }
}

/// Whether a failed request may be sent again.
#[derive(Clone, Copy, Debug, PartialEq, Eq, Structural)]
pub enum RetryPolicy {
    Never,
    Transient,
}

/// Why a sign-in was refused.
#[derive(Clone, Copy, Debug, PartialEq, Eq, Structural)]
pub enum SigninFail {
    IncorrectCredentials,
    AccountBanned,
}

/// How an agent is managed after its claim.
#[derive(Clone, Copy, Debug, PartialEq, Eq, Structural)]
pub enum ClaimAgentType {
    Assignable,
    SelfManaged,
}

/// Where a claim stands, as the machine sees it.
#[derive(Clone, Copy, Debug, PartialEq, Eq, Structural)]
pub enum ClaimSetupResponse {
    WaitingForUserVisit,
    WaitingForUser,
    UserAccepted,
    UserRejected,
}

/// Why a claim could not be set up.
#[derive(Clone, Copy, Debug, PartialEq, Eq, Structural)]
pub enum ClaimSetupError {
    InvalidCode,
    CodeExpired,
    VersionTextTooLong,
}

impl ClaimSetupError {
    pub open spec fn shown(self) -> Seq<char> {
        match self {
            ClaimSetupError::InvalidCode => "InvalidCode"@,
            ClaimSetupError::CodeExpired => "CodeExpired"@,
            ClaimSetupError::VersionTextTooLong => "VersionTextTooLong"@,
        }
    }

    /// The name of this value.
    pub fn name(&self) -> (r: &'static str)
        ensures
            r@ == self.shown(),
    {
        match self {
            ClaimSetupError::InvalidCode => "InvalidCode",
            ClaimSetupError::CodeExpired => "CodeExpired",
            ClaimSetupError::VersionTextTooLong => "VersionTextTooLong",
        }
    }
}

/// Why a claim could not be exchanged for a secret.
#[derive(Clone, Copy, Debug, PartialEq, Eq, Structural)]
pub enum ClaimExchangeError {
    NotAccepted,
    Other,
}

/// Why a tunnel could not be deleted.
#[derive(Clone, Copy, Debug, PartialEq, Eq, Structural)]
pub enum DeleteError {
    TunnelNotFound,
}

/// The platform that an agent registers as.
#[derive(Clone, Copy, Debug, PartialEq, Eq, Structural)]
pub enum Platform {
    Linux,
    Freebsd,
    Windows,
    Macos,
    Android,
    Ios,
    Docker,
    MinecraftPlugin,
    Unknown,
}

/// The transport protocol of a port.
#[derive(Clone, Copy, Debug, PartialEq, Eq, Structural)]
pub enum PortType {
    Tcp,
    Udp,
    Both,
}

impl PortType {
    /// Whether traffic of type `port` reaches a port of this type.
    pub fn matches(&self, port: PortType) -> (r: bool)
        ensures
            r == (*self == PortType::Both || *self == port),
    {
        match *self {
            PortType::Both => true,
            other => other == port,
        }
    }
}

/// A half-open range of ports.
#[derive(Clone, Copy, Debug, PartialEq, Eq, Structural)]
pub struct PortRange {
    pub from: u16,
    pub to: u16,
}

impl PortRange {
    /// Whether `port` is in the range: `from` is, `to` is not.
    pub fn contains(&self, port: u16) -> (r: bool)
        ensures
            r == (self.from <= port < self.to),
    {
        self.from <= port && port < self.to
    }
}

/// Why a tunnel could not be created.
#[derive(Clone, Copy, Debug, PartialEq, Eq, Structural)]
pub enum TunnelCreateErrorV1 {
    AgentNotFound,
    InvalidAgentId,
    AgentVersionTooOld,
    DedicatedIpNotFound,
    PortAllocNotFound,
    InvalidIpHostname,
    InvalidPortCount,
    RequiresVerifiedAccount,
    RegionNotSupported,
    InvalidTunnelConfig,
    FirewallNotFound,
    TunnelNameIsNotAscii,
    TunnelNameTooLong,
    PortAllocDoesNotMatchPortDetails,
    RegionRequiresPlayitPremium,
    PortAllocCurrentlyAssigned,
    PublicPortRequiresPlayitPremium,
    RequiresPlayitPremium,
    AllocRequestNotSupportedByPorts,
    InvalidHostnameId,
    HostnameHasTunnelTypeTarget,
    EndpointDoesNotSupportProtocol,
    InvalidGatewayId,
    GatewayAlreadyHasTunnelType,
    GatewayDoesNotSupportTunnelType,
    TunnelTypeBlockedOnRegion,
    InvalidSoftwareDescription,
    Other,
}

/// A game or service that a tunnel is made for.
#[derive(Clone, Copy, Debug, PartialEq, Eq, Structural)]
pub enum TunnelType {
    MinecraftJava,
}

/// The part of the Playit network that serves a tunnel.
#[derive(Clone, Copy, Debug, PartialEq, Eq, Structural)]
pub enum PlayitNetwork {
    Global,
}

/// The raw ports that a tunnel forwards.
#[derive(Debug)]
pub struct TunnelProtocolRawPorts {
    pub port_type: PortType,
    pub port_count: u16,
    pub software_description: String,
}

/// What a tunnel forwards.
#[derive(Debug)]
pub enum TunnelProtocolV1 {
    RawPorts(TunnelProtocolRawPorts),
    TunnelType(TunnelType),
}

/// The model of a [`TunnelProtocolV1`].
#[verifier::ext_equal]
pub enum TunnelProtocolV1View {
    RawPorts { port_type: PortType, port_count: u16, software_description: Seq<char> },
    TunnelType(TunnelType),
}

impl View for TunnelProtocolV1 {
    type V = TunnelProtocolV1View;

    open spec fn view(&self) -> TunnelProtocolV1View {
        match *self {
            TunnelProtocolV1::RawPorts(ports) => TunnelProtocolV1View::RawPorts {
                port_type: ports.port_type,
                port_count: ports.port_count,
                software_description: ports.software_description@,
            },
            TunnelProtocolV1::TunnelType(kind) => TunnelProtocolV1View::TunnelType(kind),
        }
    }
}

/// One named setting of a tunnel's origin.
#[derive(Debug)]
pub struct AgentTunnelAttr {
    pub name: String,
    pub value: String,
}

/// The agent that a tunnel ends at, and where it forwards to.
#[derive(Debug)]
pub struct AgentOrigin {
    pub agent_id: Option<u128>,
    pub config: Option<Vec<AgentTunnelAttr>>,
}

/// Where a tunnel ends.
#[derive(Debug)]
pub enum AccountTunnelOriginCreate {
    Agent(AgentOrigin),
}

/// Where a tunnel begins.
#[derive(Clone, Copy, Debug, PartialEq, Eq, Structural)]
pub enum CreateTunnelEndpoint {
    Region { region: PlayitNetwork, port: Option<u16> },
}

/// A request for a tunnel.
#[derive(Debug)]
pub struct ReqTunnelsCreateV1 {
    pub name: String,
    pub protocol: TunnelProtocolV1,
    pub origin: AccountTunnelOriginCreate,
    pub endpoint: CreateTunnelEndpoint,
    pub enabled: bool,
    pub firewall_id: Option<u128>,
}

/// The model of a [`ReqTunnelsCreateV1`]: the origin is the agent and its settings,
/// each a name and a value.
#[verifier::ext_equal]
pub struct ReqTunnelsCreateV1View {
    pub name: Seq<char>,
    pub protocol: TunnelProtocolV1View,
    pub agent_id: Option<u128>,
    pub config: Option<Seq<(Seq<char>, Seq<char>)>>,
    pub endpoint: CreateTunnelEndpoint,
    pub enabled: bool,
    pub firewall_id: Option<u128>,
}

impl View for ReqTunnelsCreateV1 {
    type V = ReqTunnelsCreateV1View;

    open spec fn view(&self) -> ReqTunnelsCreateV1View {
        let AccountTunnelOriginCreate::Agent(origin) = self.origin;
        ReqTunnelsCreateV1View {
            name: self.name@,
            protocol: self.protocol@,
            agent_id: origin.agent_id,
            config: match origin.config {
                Some(fields) => Some(
                    fields@.map_values(|field: AgentTunnelAttr| (field.name@, field.value@)),
                ),
                None => None,
            },
            endpoint: self.endpoint,
            enabled: self.enabled,
            firewall_id: self.firewall_id,
        }
    }
}

/// The version that an agent registers with.
#[derive(Clone, Copy, Debug, PartialEq, Eq, Structural)]
pub struct AgentVersion {
    pub variant_id: u128,
    pub version_major: u32,
    pub version_minor: u32,
    pub version_patch: u32,
}

/// An account session ends when the API says that it expired, is missing, is no longer valid or
/// is no session, and an agent's secret when it is no key or is no longer valid. Nothing else
/// that the API can answer ends either of them.
pub proof fn only_refused_credentials_end(error: ApiResponseError)
    ensures
        error@.ends_session() <==> {
            ||| error matches ApiResponseError::Auth(AuthError::SessionExpired)
            ||| error matches ApiResponseError::Auth(AuthError::AuthRequired)
            ||| error matches ApiResponseError::Auth(AuthError::NoLongerValid)
            ||| error matches ApiResponseError::Auth(AuthError::InvalidToken)
        },
        error@.ends_agent_secret() <==> {
            ||| error matches ApiResponseError::Auth(AuthError::InvalidAgentKey)
            ||| error matches ApiResponseError::Auth(AuthError::NoLongerValid)
        },
{
}

/// An error is shown with its kind and what the API said.
pub proof fn api_errors_show_what_was_said(error: ApiResponseError)
    ensures
        error matches ApiResponseError::Validation(message) ==> error@.shown() == "Validation("@
            + debug_quoted(message@) + ")"@,
        error matches ApiResponseError::PathNotFound(path) ==> error@.shown()
            == "PathNotFound(PathNotFound { path: "@ + debug_quoted(path@) + " })"@,
        error matches ApiResponseError::Internal(trace_id) ==> error@.shown()
            == "Internal(ApiInternalError { trace_id: "@ + debug_quoted(trace_id@) + " })"@,
        error matches ApiResponseError::Auth(AuthError::Other(name)) ==> error@.shown() == "Auth("@
            + name@ + ")"@,
        error matches ApiResponseError::Auth(AuthError::SessionExpired) ==> error@.shown()
            == "Auth("@ + "SessionExpired"@ + ")"@,
        error matches ApiResponseError::Auth(AuthError::AuthRequired) ==> error@.shown()
            == "Auth("@ + "AuthRequired"@ + ")"@,
        error matches ApiResponseError::Auth(AuthError::NoLongerValid) ==> error@.shown()
            == "Auth("@ + "NoLongerValid"@ + ")"@,
        error matches ApiResponseError::Auth(AuthError::InvalidToken) ==> error@.shown()
            == "Auth("@ + "InvalidToken"@ + ")"@,
        error matches ApiResponseError::Auth(AuthError::InvalidAgentKey) ==> error@.shown()
            == "Auth("@ + "InvalidAgentKey"@ + ")"@,
        error matches ApiResponseError::Auth(AuthError::InvalidHeader) ==> error@.shown()
            == "Auth("@ + "InvalidHeader"@ + ")"@,
        error matches ApiResponseError::Auth(AuthError::TotpRequred) ==> error@.shown()
            == "Auth("@ + "TotpRequred"@ + ")"@,
{
}

/// Each status of an account is shown by its name.
pub proof fn account_statuses_are_shown_by_name(status: AccountStatus)
    ensures
        status is Guest ==> status.shown() == "Guest"@,
        status is EmailNotVerified ==> status.shown() == "EmailNotVerified"@,
        status is Verified ==> status.shown() == "Verified"@,
{
}

/// Each reason why a claim cannot be set up is shown by its name.
pub proof fn claim_refusals_are_shown_by_name(reason: ClaimSetupError)
    ensures
        reason is InvalidCode ==> reason.shown() == "InvalidCode"@,
        reason is CodeExpired ==> reason.shown() == "CodeExpired"@,
        reason is VersionTextTooLong ==> reason.shown() == "VersionTextTooLong"@,
{
}

/// The protocol of a tunnel is told as what it is.
pub proof fn protocols_say_what_they_are(protocol: TunnelProtocolV1)
    ensures
        protocol matches TunnelProtocolV1::RawPorts(ports)
            ==> protocol@ == (TunnelProtocolV1View::RawPorts {
            port_type: ports.port_type,
            port_count: ports.port_count,
            software_description: ports.software_description@,
        }),
        protocol matches TunnelProtocolV1::TunnelType(kind)
            ==> protocol@ == TunnelProtocolV1View::TunnelType(kind),
{
}

/// A request for a tunnel says what it asks for: its name and protocol, the agent that it is for,
/// what that agent is to do, the public endpoint, and whether it is enabled.
pub proof fn tunnel_requests_say_what_they_ask(request: ReqTunnelsCreateV1)
    ensures
        request@.name == request.name@,
        request@.protocol == request.protocol@,
        request@.endpoint == request.endpoint,
        request@.enabled == request.enabled,
        request@.firewall_id == request.firewall_id,
        request.origin matches AccountTunnelOriginCreate::Agent(agent) ==> request@.agent_id
            == agent.agent_id && (agent.config matches Some(fields) ==> request@.config is Some
            && request@.config->0.len() == fields@.len() && (forall|i: int|
            0 <= i < fields@.len() ==> #[trigger] request@.config->0[i] == (
                fields@[i].name@,
                fields@[i].value@,
            ))) && (agent.config is None ==> request@.config is None),
{
}

} // verus!
