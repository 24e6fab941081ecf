//! The protocol between the service and its clients: messages, their names, and the
//! client's side of a conversation.

use vstd::prelude::*;

use crate::error::{IoErrorKind, IoFailure, IoFailureView};
use crate::model::{
    AccountLoginUrlResponse, AccountLoginUrlResponseView, AccountResponse, AccountResponseView,
    AccountTunnelListResponse, AccountTunnelListResponseView, AgentLifecycle, AgentLifecycleView,
    ClaimResponse, ClaimResponseView, CommandResponse, CommandResponseView, ProtocolInfo,
    ProtocolInfoView, SecretPathResponse, SecretPathResponseView, ServiceError, ServiceErrorView,
    ServiceStatus, ServiceStatusView, ServiceUpdate, SubscribeResponse, SubscribeResponseView,
    TunnelCreateResponse, TunnelCreateResponseView, TunnelListResponse, TunnelListResponseView,
    TunnelProtocol,
};
use crate::text::{decimal, decimal_text, join2, join3, opt_text, owned, same};

verus! {

/// The version of the protocol.
pub const IPC_VERSION: u32 = 3;

// ---------------------------------------------------------------------------
// Errors
// ---------------------------------------------------------------------------

/// Why a conversation with the service failed.
#[derive(Debug)]
pub enum IpcError {
    AlreadyRunning,
    BindFailed(IoFailure),
    ConnectionFailed(IoFailure),
    IoError(IoFailure),
    /// A message that is no JSON of the expected form, by the parser's words.
    JsonError(String),
    NotRunning,
    ProtocolMismatch { expected: u32, actual: u32 },
    ProtocolError(String),
    Service(ServiceError),
}

/// The model of an [`IpcError`].
#[verifier::ext_equal]
pub enum IpcErrorView {
    AlreadyRunning,
    BindFailed(IoFailureView),
    ConnectionFailed(IoFailureView),
    IoError(IoFailureView),
    JsonError(Seq<char>),
    NotRunning,
    ProtocolMismatch { expected: u32, actual: u32 },
    ProtocolError(Seq<char>),
    Service(ServiceErrorView),
}

impl View for IpcError {
    type V = IpcErrorView;

    open spec fn view(&self) -> IpcErrorView {
        match *self {
            IpcError::AlreadyRunning => IpcErrorView::AlreadyRunning,
            IpcError::BindFailed(e) => IpcErrorView::BindFailed(e@),
            IpcError::ConnectionFailed(e) => IpcErrorView::ConnectionFailed(e@),
            IpcError::IoError(e) => IpcErrorView::IoError(e@),
            IpcError::JsonError(e) => IpcErrorView::JsonError(e@),
            IpcError::NotRunning => IpcErrorView::NotRunning,
            IpcError::ProtocolMismatch { expected, actual } => IpcErrorView::ProtocolMismatch {
                expected,
                actual,
            },
            IpcError::ProtocolError(message) => IpcErrorView::ProtocolError(message@),
            IpcError::Service(error) => IpcErrorView::Service(error@),
        }
    }
}

/// The kinds of I/O failures by which a closed connection shows.
pub open spec fn closes_connection(kind: IoErrorKind) -> bool {
    ||| kind == IoErrorKind::UnexpectedEof
    ||| kind == IoErrorKind::BrokenPipe
    ||| kind == IoErrorKind::ConnectionAborted
    ||| kind == IoErrorKind::ConnectionReset
    ||| kind == IoErrorKind::NotConnected
}

fn is_connection_closed_error(failure: &IoFailure) -> (r: bool)
    ensures
        r == closes_connection(failure.kind),
{
    match failure.kind {
        IoErrorKind::UnexpectedEof => true,
        IoErrorKind::BrokenPipe => true,
        IoErrorKind::ConnectionAborted => true,
        IoErrorKind::ConnectionReset => true,
        IoErrorKind::NotConnected => true,
        _ => false,
    }
}

impl IpcErrorView {
    /// The error in words.
    pub open spec fn shown(self) -> Seq<char> {
        match self {
            IpcErrorView::AlreadyRunning => "Another instance is already running"@,
            IpcErrorView::BindFailed(e) => "Failed to bind to socket: "@ + e.message,
            IpcErrorView::ConnectionFailed(e) => "Failed to connect to socket: "@ + e.message,
            IpcErrorView::IoError(e) => "IO error: "@ + e.message,
            IpcErrorView::JsonError(e) => "JSON error: "@ + e,
            IpcErrorView::NotRunning => "Service is not running"@,
            IpcErrorView::ProtocolMismatch { expected, actual } =>
                "IPC protocol mismatch: expected version "@ + decimal(expected as nat) + ", got "@
                + decimal(actual as nat),
            IpcErrorView::ProtocolError(message) => message,
            IpcErrorView::Service(error) => error.code.shown() + ": "@ + error.message,
        }
    }
}

impl IpcError {
    /// Whether the connection was closed.
    pub fn is_connection_closed(&self) -> (r: bool)
        ensures
            r == (self@ matches IpcErrorView::IoError(e) && closes_connection(e.kind)),
    {
        match self {
            IpcError::IoError(failure) => is_connection_closed_error(failure),
            _ => false,
        }
    }

    /// The error in words.
    pub fn to_text(&self) -> (r: String)
        ensures
            r@ == self@.shown(),
    {
        match self {
            IpcError::AlreadyRunning => owned("Another instance is already running"),
            IpcError::BindFailed(e) => join2("Failed to bind to socket: ", e.message.as_str()),
            IpcError::ConnectionFailed(e) => join2(
                "Failed to connect to socket: ",
                e.message.as_str(),
            ),
            IpcError::IoError(e) => join2("IO error: ", e.message.as_str()),
            IpcError::JsonError(e) => join2("JSON error: ", e.as_str()),
            IpcError::NotRunning => owned("Service is not running"),
            IpcError::ProtocolMismatch { expected, actual } => {
                let expected = decimal_text(*expected as u64);
                let actual = decimal_text(*actual as u64);
                let mut out = join3(
                    "IPC protocol mismatch: expected version ",
                    expected.as_str(),
                    ", got ",
                );
                out.append(actual.as_str());
                out
            },
            IpcError::ProtocolError(message) => message.clone(),
            IpcError::Service(error) => error.to_text(),
        }
    }
}

/// Why a line could not be read or written.
#[derive(Debug)]
pub enum LineFailure {
    Io(IoFailure),
    TooLong,
}

/// The error for a line that could not be read or written.
pub fn line_codec_error(failure: LineFailure) -> (r: IpcError)
    ensures
        r@ == match failure {
            LineFailure::Io(e) => IpcErrorView::IoError(e@),
            LineFailure::TooLong => IpcErrorView::ProtocolError(
                "IPC frame exceeded maximum line length"@,
            ),
        },
{
    match failure {
        LineFailure::Io(e) => IpcError::IoError(e),
        LineFailure::TooLong => IpcError::ProtocolError(
            owned("IPC frame exceeded maximum line length"),
        ),
    }
}

/// The line that was read, given what reading gave: no line means that the connection
/// was closed.
pub fn read_line(line: Option<Result<String, LineFailure>>) -> (r: Result<String, IpcError>)
    ensures
        match line {
            Some(Ok(text)) => r == Ok::<String, IpcError>(text),
            Some(Err(LineFailure::Io(e))) => r is Err && r->Err_0@ == IpcErrorView::IoError(e@),
            Some(Err(LineFailure::TooLong)) => r is Err && r->Err_0@ == IpcErrorView::ProtocolError(
                "IPC frame exceeded maximum line length"@,
            ),
            None => r is Err && r->Err_0@ == IpcErrorView::IoError(
                IoFailureView {
                    kind: IoErrorKind::UnexpectedEof,
                    message: "Connection closed"@,
                },
            ),
        },
{
    match line {
        Some(Ok(text)) => Ok(text),
        Some(Err(failure)) => Err(line_codec_error(failure)),
        None => Err(
            IpcError::IoError(IoFailure::new(IoErrorKind::UnexpectedEof, "Connection closed")),
        ),
    }
}

// ---------------------------------------------------------------------------
// Messages
// ---------------------------------------------------------------------------

/// What a client asks of the service.
#[derive(Debug)]
pub enum ServiceRequest {
    Subscribe,
    GetStatus,
    GetState,
    GetTunnels,
    GetAccountTunnels,
    CreateTunnel {
        local_port: u16,
        protocol: TunnelProtocol,
        local_address: Option<String>,
        name: Option<String>,
    },
    CreateMinecraftJavaTunnel {
        local_port: u16,
        local_address: Option<String>,
        name: Option<String>,
    },
    DeleteTunnel { tunnel_id: String },
    ReassignTunnel { tunnel_id: String, local_port: u16, local_address: Option<String> },
    GetAccount,
    StartClaim,
    Stop,
    SetSecret { secret: String },
    ResetSecret,
    GetSecretPath,
    GetAccountLoginUrl,
}

/// The model of a [`ServiceRequest`].
#[verifier::ext_equal]
pub enum ServiceRequestView {
    Subscribe,
    GetStatus,
    GetState,
    GetTunnels,
    GetAccountTunnels,
    CreateTunnel {
        local_port: u16,
        protocol: TunnelProtocol,
        local_address: Option<Seq<char>>,
        name: Option<Seq<char>>,
    },
    CreateMinecraftJavaTunnel {
        local_port: u16,
        local_address: Option<Seq<char>>,
        name: Option<Seq<char>>,
    },
    DeleteTunnel { tunnel_id: Seq<char> },
    ReassignTunnel { tunnel_id: Seq<char>, local_port: u16, local_address: Option<Seq<char>> },
    GetAccount,
    StartClaim,
    Stop,
    SetSecret { secret: Seq<char> },
    ResetSecret,
    GetSecretPath,
    GetAccountLoginUrl,
}

impl View for ServiceRequest {
    type V = ServiceRequestView;

    open spec fn view(&self) -> ServiceRequestView {
        match *self {
            ServiceRequest::Subscribe => ServiceRequestView::Subscribe,
            ServiceRequest::GetStatus => ServiceRequestView::GetStatus,
            ServiceRequest::GetState => ServiceRequestView::GetState,
            ServiceRequest::GetTunnels => ServiceRequestView::GetTunnels,
            ServiceRequest::GetAccountTunnels => ServiceRequestView::GetAccountTunnels,
            ServiceRequest::CreateTunnel { local_port, protocol, local_address, name } => ServiceRequestView::CreateTunnel {
                local_port,
                protocol,
                local_address: opt_text(local_address),
                name: opt_text(name),
            },
            ServiceRequest::CreateMinecraftJavaTunnel { local_port, local_address, name } => ServiceRequestView::CreateMinecraftJavaTunnel {
                local_port,
                local_address: opt_text(local_address),
                name: opt_text(name),
            },
            ServiceRequest::DeleteTunnel { tunnel_id } => ServiceRequestView::DeleteTunnel {
                tunnel_id: tunnel_id@,
            },
            ServiceRequest::ReassignTunnel { tunnel_id, local_port, local_address } => ServiceRequestView::ReassignTunnel {
                tunnel_id: tunnel_id@,
                local_port,
                local_address: opt_text(local_address),
            },
            ServiceRequest::GetAccount => ServiceRequestView::GetAccount,
            ServiceRequest::StartClaim => ServiceRequestView::StartClaim,
            ServiceRequest::Stop => ServiceRequestView::Stop,
            ServiceRequest::SetSecret { secret } => ServiceRequestView::SetSecret {
                secret: secret@,
            },
            ServiceRequest::ResetSecret => ServiceRequestView::ResetSecret,
            ServiceRequest::GetSecretPath => ServiceRequestView::GetSecretPath,
            ServiceRequest::GetAccountLoginUrl => ServiceRequestView::GetAccountLoginUrl,
        }
    }
}

impl ServiceRequestView {
    /// The name of the request on the wire.
    pub open spec fn wire_type(self) -> Seq<char> {
        match self {
            ServiceRequestView::Subscribe => "subscribe"@,
            ServiceRequestView::GetStatus => "get_status"@,
            ServiceRequestView::GetState => "get_state"@,
            ServiceRequestView::GetTunnels => "get_tunnels"@,
            ServiceRequestView::GetAccountTunnels => "get_account_tunnels"@,
            ServiceRequestView::CreateTunnel { .. } => "create_tunnel"@,
            ServiceRequestView::CreateMinecraftJavaTunnel { .. } => "create_minecraft_java_tunnel"@,
            ServiceRequestView::DeleteTunnel { .. } => "delete_tunnel"@,
            ServiceRequestView::ReassignTunnel { .. } => "reassign_tunnel"@,
            ServiceRequestView::GetAccount => "get_account"@,
            ServiceRequestView::StartClaim => "start_claim"@,
            ServiceRequestView::Stop => "stop"@,
            ServiceRequestView::SetSecret { .. } => "set_secret"@,
            ServiceRequestView::ResetSecret => "reset_secret"@,
            ServiceRequestView::GetSecretPath => "get_secret_path"@,
            ServiceRequestView::GetAccountLoginUrl => "get_account_login_url"@,
        }
    }
}

impl ServiceRequest {
    /// The name of the request on the wire.
    pub fn wire_type(&self) -> (r: &'static str)
        ensures
            r@ == self@.wire_type(),
    {
        match self {
            ServiceRequest::Subscribe => "subscribe",
            ServiceRequest::GetStatus => "get_status",
            ServiceRequest::GetState => "get_state",
            ServiceRequest::GetTunnels => "get_tunnels",
            ServiceRequest::GetAccountTunnels => "get_account_tunnels",
            ServiceRequest::CreateTunnel { .. } => "create_tunnel",
            ServiceRequest::CreateMinecraftJavaTunnel { .. } => "create_minecraft_java_tunnel",
            ServiceRequest::DeleteTunnel { .. } => "delete_tunnel",
            ServiceRequest::ReassignTunnel { .. } => "reassign_tunnel",
            ServiceRequest::GetAccount => "get_account",
            ServiceRequest::StartClaim => "start_claim",
            ServiceRequest::Stop => "stop",
            ServiceRequest::SetSecret { .. } => "set_secret",
            ServiceRequest::ResetSecret => "reset_secret",
            ServiceRequest::GetSecretPath => "get_secret_path",
            ServiceRequest::GetAccountLoginUrl => "get_account_login_url",
        }
    }
}

/// A message whose type this version does not know: the type, and the rest as JSON.
#[derive(Debug)]
pub struct UnknownTaggedMessage {
    pub wire_type: String,
    pub rest: String,
}

/// A request, as it arrives.
#[derive(Debug)]
pub enum ServiceRequestOrUnknown {
    Known(ServiceRequest),
    Unknown(UnknownTaggedMessage),
}

/// A request with its number.
#[derive(Debug)]
pub struct RequestEnvelope {
    pub ipc_version: u32,
    pub request_id: u64,
    pub request: ServiceRequest,
}

/// A request with its number, as it arrives.
#[derive(Debug)]
pub struct IncomingRequestEnvelope {
    pub ipc_version: u32,
    pub request_id: u64,
    pub request: ServiceRequestOrUnknown,
}

/// The first message of the service.
#[derive(Debug)]
pub struct HelloEnvelope {
    pub protocol: ProtocolInfo,
}

/// An answer with the number of its request.
#[derive(Debug)]
pub struct ResponseEnvelope {
    pub ipc_version: u32,
    pub request_id: u64,
    pub response: ServiceResponse,
}

/// A change that the service tells its subscribers.
#[derive(Debug)]
pub struct EventEnvelope {
    pub ipc_version: u32,
    pub event: ServiceUpdate,
}

/// A change whose type this version does not know: the type, and the data as JSON.
#[derive(Debug)]
pub struct UnknownTaggedEvent {
    pub wire_type: String,
    pub data: Option<String>,
}

/// A change, as it arrives.
#[derive(Debug)]
pub enum ServiceUpdateOrUnknown {
    Known(ServiceUpdate),
    Unknown(UnknownTaggedEvent),
}

/// A change that the service tells its subscribers, as it arrives.
#[derive(Debug)]
pub struct IncomingEventEnvelope {
    pub ipc_version: u32,
    pub event: ServiceUpdateOrUnknown,
}

/// What the service answers.
#[derive(Debug)]
pub enum ServiceResponse {
    Subscribe(SubscribeResponse),
    Status(ServiceStatus),
    State(AgentLifecycle),
    Tunnels(TunnelListResponse),
    AccountTunnels(AccountTunnelListResponse),
    CreateTunnel(TunnelCreateResponse),
    DeleteTunnel(CommandResponse),
    ReassignTunnel(CommandResponse),
    Account(AccountResponse),
    Claim(ClaimResponse),
    Stop(CommandResponse),
    SetSecret(CommandResponse),
    ResetSecret(CommandResponse),
    SecretPath(SecretPathResponse),
    AccountLoginUrl(AccountLoginUrlResponse),
    Error(ServiceError),
}

/// The model of a [`ServiceResponse`].
#[verifier::ext_equal]
pub enum ServiceResponseView {
    Subscribe(SubscribeResponseView),
    Status(ServiceStatusView),
    State(AgentLifecycleView),
    Tunnels(TunnelListResponseView),
    AccountTunnels(AccountTunnelListResponseView),
    CreateTunnel(TunnelCreateResponseView),
    DeleteTunnel(CommandResponseView),
    ReassignTunnel(CommandResponseView),
    Account(AccountResponseView),
    Claim(ClaimResponseView),
    Stop(CommandResponseView),
    SetSecret(CommandResponseView),
    ResetSecret(CommandResponseView),
    SecretPath(SecretPathResponseView),
    AccountLoginUrl(AccountLoginUrlResponseView),
    Error(ServiceErrorView),
}

impl View for ServiceResponse {
    type V = ServiceResponseView;

    open spec fn view(&self) -> ServiceResponseView {
        match *self {
            ServiceResponse::Subscribe(value) => ServiceResponseView::Subscribe(value@),
            ServiceResponse::Status(value) => ServiceResponseView::Status(value@),
            ServiceResponse::State(value) => ServiceResponseView::State(value@),
            ServiceResponse::Tunnels(value) => ServiceResponseView::Tunnels(value@),
            ServiceResponse::AccountTunnels(value) => ServiceResponseView::AccountTunnels(value@),
            ServiceResponse::CreateTunnel(value) => ServiceResponseView::CreateTunnel(value@),
            ServiceResponse::DeleteTunnel(value) => ServiceResponseView::DeleteTunnel(value@),
            ServiceResponse::ReassignTunnel(value) => ServiceResponseView::ReassignTunnel(value@),
            ServiceResponse::Account(value) => ServiceResponseView::Account(value@),
            ServiceResponse::Claim(value) => ServiceResponseView::Claim(value@),
            ServiceResponse::Stop(value) => ServiceResponseView::Stop(value@),
            ServiceResponse::SetSecret(value) => ServiceResponseView::SetSecret(value@),
            ServiceResponse::ResetSecret(value) => ServiceResponseView::ResetSecret(value@),
            ServiceResponse::SecretPath(value) => ServiceResponseView::SecretPath(value@),
            ServiceResponse::AccountLoginUrl(value) => ServiceResponseView::AccountLoginUrl(value@),
            ServiceResponse::Error(value) => ServiceResponseView::Error(value@),
        }
    }
}

impl ServiceResponse {
    /// The name of the answer on the wire.
    pub open spec fn wire_type(self) -> Seq<char> {
        match self {
            ServiceResponse::Subscribe(_) => "subscribe"@,
            ServiceResponse::Status(_) => "status"@,
            ServiceResponse::State(_) => "state"@,
            ServiceResponse::Tunnels(_) => "tunnels"@,
            ServiceResponse::AccountTunnels(_) => "account_tunnels"@,
            ServiceResponse::CreateTunnel(_) => "create_tunnel"@,
            ServiceResponse::DeleteTunnel(_) => "delete_tunnel"@,
            ServiceResponse::ReassignTunnel(_) => "reassign_tunnel"@,
            ServiceResponse::Account(_) => "account"@,
            ServiceResponse::Claim(_) => "claim"@,
            ServiceResponse::Stop(_) => "stop"@,
            ServiceResponse::SetSecret(_) => "set_secret"@,
            ServiceResponse::ResetSecret(_) => "reset_secret"@,
            ServiceResponse::SecretPath(_) => "secret_path"@,
            ServiceResponse::AccountLoginUrl(_) => "account_login_url"@,
            ServiceResponse::Error(_) => "error"@,
        }
    }
}

/// The name of an answer on the wire.
pub fn service_response_name(response: &ServiceResponse) -> (r: &'static str)
    ensures
        r@ == response.wire_type(),
{
    match response {
        ServiceResponse::Subscribe(_) => "subscribe",
        ServiceResponse::Status(_) => "status",
        ServiceResponse::State(_) => "state",
        ServiceResponse::Tunnels(_) => "tunnels",
        ServiceResponse::AccountTunnels(_) => "account_tunnels",
        ServiceResponse::CreateTunnel(_) => "create_tunnel",
        ServiceResponse::DeleteTunnel(_) => "delete_tunnel",
        ServiceResponse::ReassignTunnel(_) => "reassign_tunnel",
        ServiceResponse::Account(_) => "account",
        ServiceResponse::Claim(_) => "claim",
        ServiceResponse::Stop(_) => "stop",
        ServiceResponse::SetSecret(_) => "set_secret",
        ServiceResponse::ResetSecret(_) => "reset_secret",
        ServiceResponse::SecretPath(_) => "secret_path",
        ServiceResponse::AccountLoginUrl(_) => "account_login_url",
        ServiceResponse::Error(_) => "error",
    }
}

/// A message of the service.
#[derive(Debug)]
pub enum ServerEnvelope {
    Hello(HelloEnvelope),
    Response(ResponseEnvelope),
    Event(EventEnvelope),
}

/// A message of the service, as it arrives at a subscriber.
#[derive(Debug)]
pub enum IncomingServerEnvelope {
    Hello(HelloEnvelope),
    Response(ResponseEnvelope),
    Event(IncomingEventEnvelope),
}

/// The name of a change on the wire.
pub open spec fn update_name(update: ServiceUpdate) -> Seq<char> {
    match update {
        ServiceUpdate::Status(_) => "status"@,
        ServiceUpdate::Lifecycle(_) => "lifecycle"@,
        ServiceUpdate::Stats(_) => "stats"@,
        ServiceUpdate::Log(_) => "log"@,
    }
}

/// The name of a change on the wire.
pub fn service_update_name(update: &ServiceUpdate) -> (r: &'static str)
    ensures
        r@ == update_name(*update),
{
    match update {
        ServiceUpdate::Status(_) => "status",
        ServiceUpdate::Lifecycle(_) => "lifecycle",
        ServiceUpdate::Stats(_) => "stats",
        ServiceUpdate::Log(_) => "log",
    }
}

/// The names of the changes that this version knows.
pub open spec fn known_update(wire_type: Seq<char>) -> bool {
    ||| wire_type == "status"@
    ||| wire_type == "lifecycle"@
    ||| wire_type == "stats"@
    ||| wire_type == "log"@
}

/// Whether this version knows changes of this name.
pub fn is_known_update_type(event_type: &str) -> (r: bool)
    ensures
        r == known_update(event_type@),
{
    same(event_type, "status") || same(event_type, "lifecycle") || same(event_type, "stats")
        || same(event_type, "log")
}

/// The names of the requests that this version knows.
pub open spec fn known_request(wire_type: Seq<char>) -> bool {
    ||| wire_type == "subscribe"@
    ||| wire_type == "get_status"@
    ||| wire_type == "get_state"@
    ||| wire_type == "get_tunnels"@
    ||| wire_type == "get_account_tunnels"@
    ||| wire_type == "create_tunnel"@
    ||| wire_type == "create_minecraft_java_tunnel"@
    ||| wire_type == "delete_tunnel"@
    ||| wire_type == "reassign_tunnel"@
    ||| wire_type == "get_account"@
    ||| wire_type == "start_claim"@
    ||| wire_type == "stop"@
    ||| wire_type == "set_secret"@
    ||| wire_type == "reset_secret"@
    ||| wire_type == "get_secret_path"@
    ||| wire_type == "get_account_login_url"@
}

/// Whether this version knows requests of this name.
pub fn is_known_request_type(wire_type: &str) -> (r: bool)
    ensures
        r == known_request(wire_type@),
{
    same(wire_type, "subscribe")
        || same(wire_type, "get_status")
        || same(wire_type, "get_state")
        || same(wire_type, "get_tunnels")
        || same(wire_type, "get_account_tunnels")
        || same(wire_type, "create_tunnel")
        || same(wire_type, "create_minecraft_java_tunnel")
        || same(wire_type, "delete_tunnel")
        || same(wire_type, "reassign_tunnel")
        || same(wire_type, "get_account")
        || same(wire_type, "start_claim")
        || same(wire_type, "stop")
        || same(wire_type, "set_secret")
        || same(wire_type, "reset_secret")
        || same(wire_type, "get_secret_path")
        || same(wire_type, "get_account_login_url")
}

/// The known names are exactly the names of the requests: a request that this version
/// can make is never taken for an unknown one, and no other name is known.
pub proof fn known_names_are_the_requests(wire_type: Seq<char>)
    ensures
        known_request(wire_type) <==> exists|request: ServiceRequestView|
            #[trigger] request.wire_type() == wire_type,
{
    assert(ServiceRequestView::Subscribe.wire_type() == "subscribe"@);
    assert(ServiceRequestView::GetStatus.wire_type() == "get_status"@);
    assert(ServiceRequestView::GetState.wire_type() == "get_state"@);
    assert(ServiceRequestView::GetTunnels.wire_type() == "get_tunnels"@);
    assert(ServiceRequestView::GetAccountTunnels.wire_type() == "get_account_tunnels"@);
    assert((ServiceRequestView::CreateTunnel { local_port: 1, protocol: TunnelProtocol::Tcp, local_address: None, name: None }).wire_type() == "create_tunnel"@);
    assert((ServiceRequestView::CreateMinecraftJavaTunnel { local_port: 1, local_address: None, name: None }).wire_type() == "create_minecraft_java_tunnel"@);
    assert((ServiceRequestView::DeleteTunnel { tunnel_id: Seq::empty() }).wire_type() == "delete_tunnel"@);
    assert((ServiceRequestView::ReassignTunnel { tunnel_id: Seq::empty(), local_port: 1, local_address: None }).wire_type() == "reassign_tunnel"@);
    assert(ServiceRequestView::GetAccount.wire_type() == "get_account"@);
    assert(ServiceRequestView::StartClaim.wire_type() == "start_claim"@);
    assert(ServiceRequestView::Stop.wire_type() == "stop"@);
    assert((ServiceRequestView::SetSecret { secret: Seq::empty() }).wire_type() == "set_secret"@);
    assert(ServiceRequestView::ResetSecret.wire_type() == "reset_secret"@);
    assert(ServiceRequestView::GetSecretPath.wire_type() == "get_secret_path"@);
    assert(ServiceRequestView::GetAccountLoginUrl.wire_type() == "get_account_login_url"@);
}

/// The known names of changes are exactly the names of the changes: a change that this
/// version can tell is never taken for an unknown one, and no other name is known.
pub proof fn known_names_are_the_updates(wire_type: Seq<char>)
    ensures
        known_update(wire_type) <==> exists|update: ServiceUpdate|
            #[trigger] update_name(update) == wire_type,
{
    assert(update_name(ServiceUpdate::Status(arbitrary())) == "status"@);
    assert(update_name(ServiceUpdate::Lifecycle(arbitrary())) == "lifecycle"@);
    assert(update_name(ServiceUpdate::Stats(arbitrary())) == "stats"@);
    assert(update_name(ServiceUpdate::Log(arbitrary())) == "log"@);
}

/// What the service says of the protocol that it speaks.
pub open spec fn protocol() -> ProtocolInfoView {
    ProtocolInfoView {
        ipc_version: IPC_VERSION,
        capabilities: seq![
            "structured_responses"@,
            "stream_events"@,
            "lifecycle_state"@,
            "rich_status"@,
            "secret_provisioning"@,
            "tunnel_management"@,
            "account_tunnel_management"@,
            "semantic_tunnel_types"@,
            "account_state"@,
            "control_reconnect_state"@,
            "claim_provisioning"@,
        ],
    }
}

/// What the service says of the protocol that it speaks.
pub fn protocol_info() -> (r: ProtocolInfo)
    ensures
        r@ == protocol(),
{
    let mut capabilities: Vec<String> = Vec::new();
    capabilities.push(owned("structured_responses"));
    capabilities.push(owned("stream_events"));
    capabilities.push(owned("lifecycle_state"));
    capabilities.push(owned("rich_status"));
    capabilities.push(owned("secret_provisioning"));
    capabilities.push(owned("tunnel_management"));
    capabilities.push(owned("account_tunnel_management"));
    capabilities.push(owned("semantic_tunnel_types"));
    capabilities.push(owned("account_state"));
    capabilities.push(owned("control_reconnect_state"));
    capabilities.push(owned("claim_provisioning"));
    let r = ProtocolInfo { ipc_version: IPC_VERSION, capabilities };
    assert(r@.capabilities =~= protocol().capabilities);
    r
}

// ---------------------------------------------------------------------------
// The client's side
// ---------------------------------------------------------------------------

/// A client of the service: the number of its next request, and what the service said
/// of its protocol.
pub struct IpcClient {
    pub next_request_id: u64,
    pub server_protocol: ProtocolInfo,
}

/// The error for a message of another version of the protocol.
pub open spec fn version_mismatch(actual: u32) -> IpcErrorView {
    IpcErrorView::ProtocolMismatch { expected: IPC_VERSION, actual }
}

/// Accept messages of this version of the protocol only.
pub fn ensure_ipc_version(actual: u32) -> (r: Result<(), IpcError>)
    ensures
        if actual == IPC_VERSION {
            r is Ok
        } else {
            r is Err && r->Err_0@ == version_mismatch(actual)
        },
{
    if actual == IPC_VERSION {
        Ok(())
    } else {
        Err(IpcError::ProtocolMismatch { expected: IPC_VERSION, actual })
    }
}

/// The hello of the service, which is its first message.
pub fn recv_hello(envelope: ServerEnvelope) -> (r: Result<HelloEnvelope, IpcError>)
    ensures
        match envelope {
            ServerEnvelope::Hello(hello) => r == Ok::<HelloEnvelope, IpcError>(hello),
            ServerEnvelope::Response(response) => r is Err && r->Err_0@
                == IpcErrorView::ProtocolError(
                "expected hello frame, got "@ + response.response.wire_type() + " RPC response"@,
            ),
            ServerEnvelope::Event(event) => r is Err && r->Err_0@ == IpcErrorView::ProtocolError(
                "expected hello frame, got "@ + update_name(event.event) + " stream event"@,
            ),
        },
{
    match envelope {
        ServerEnvelope::Hello(hello) => Ok(hello),
        ServerEnvelope::Response(response) => Err(
            IpcError::ProtocolError(
                join3(
                    "expected hello frame, got ",
                    service_response_name(&response.response),
                    " RPC response",
                ),
            ),
        ),
        ServerEnvelope::Event(event) => Err(
            IpcError::ProtocolError(
                join3(
                    "expected hello frame, got ",
                    service_update_name(&event.event),
                    " stream event",
                ),
            ),
        ),
    }
}

/// The answer that a message of the service brings, while one is waited for.
pub open spec fn awaited_response(envelope: ServerEnvelope) -> Result<ResponseEnvelope, IpcErrorView> {
    match envelope {
        ServerEnvelope::Response(response) => Ok(response),
        ServerEnvelope::Event(event) => Err(
            IpcErrorView::ProtocolError(
                "received "@ + update_name(event.event)
                    + " stream event while waiting for RPC response"@,
            ),
        ),
        ServerEnvelope::Hello(_) => Err(
            IpcErrorView::ProtocolError(
                "received duplicate hello while waiting for RPC response"@,
            ),
        ),
    }
}

/// The answer that a message of the service brings, while one is waited for.
pub fn recv_response(envelope: ServerEnvelope) -> (r: Result<ResponseEnvelope, IpcError>)
    ensures
        match r {
            Ok(response) => awaited_response(envelope) == Ok::<ResponseEnvelope, IpcErrorView>(
                response,
            ),
            Err(error) => awaited_response(envelope) == Err::<ResponseEnvelope, IpcErrorView>(
                error@,
            ),
        },
{
    match envelope {
        ServerEnvelope::Response(response) => Ok(response),
        ServerEnvelope::Event(event) => Err(
            IpcError::ProtocolError(
                join3(
                    "received ",
                    service_update_name(&event.event),
                    " stream event while waiting for RPC response",
                ),
            ),
        ),
        ServerEnvelope::Hello(_) => Err(
            IpcError::ProtocolError(
                owned("received duplicate hello while waiting for RPC response"),
            ),
        ),
    }
}

/// What a message of the service means to the client who made request `request_id`: an
/// answer of this version of the protocol, to that request.
pub open spec fn answer_to(request_id: u64, envelope: ServerEnvelope) -> Result<
    ServiceResponse,
    IpcErrorView,
> {
    match awaited_response(envelope) {
        Err(error) => Err(error),
        Ok(response) => if response.ipc_version != IPC_VERSION {
            Err(version_mismatch(response.ipc_version))
        } else if response.request_id != request_id {
            Err(
                IpcErrorView::ProtocolError(
                    "mismatched response id: expected "@ + decimal(request_id as nat) + ", got "@
                        + decimal(response.request_id as nat),
                ),
            )
        } else {
            Ok(response.response)
        },
    }
}

/// Whether a message that arrives at a subscriber is acceptable: a change of a known
/// name must have the form of that change.
pub open spec fn malformed_update(envelope: IncomingServerEnvelope) -> Option<Seq<char>> {
    match envelope {
        IncomingServerEnvelope::Event(event) => match event.event {
            ServiceUpdateOrUnknown::Unknown(unknown) => if known_update(unknown.wire_type@) {
                Some("invalid IPC event payload for "@ + unknown.wire_type@)
            } else {
                None
            },
            ServiceUpdateOrUnknown::Known(_) => None,
        },
        _ => None,
    }
}

/// Accept a message that arrives at a subscriber, unless it is a malformed change.
pub fn validate_incoming_server_envelope(envelope: &IncomingServerEnvelope) -> (r: Result<
    (),
    IpcError,
>)
    ensures
        match malformed_update(*envelope) {
            Some(message) => r is Err && r->Err_0@ == IpcErrorView::ProtocolError(message),
            None => r is Ok,
        },
{
    match envelope {
        IncomingServerEnvelope::Event(event) => match &event.event {
            ServiceUpdateOrUnknown::Unknown(unknown) => {
                if is_known_update_type(unknown.wire_type.as_str()) {
                    return Err(
                        IpcError::ProtocolError(
                            join2("invalid IPC event payload for ", unknown.wire_type.as_str()),
                        ),
                    );
                }
            },
            ServiceUpdateOrUnknown::Known(_) => {},
        },
        _ => {},
    }
    Ok(())
}

/// The change that a message brings to a subscriber: none if its type is not known, in
/// which case the next message is waited for.
pub open spec fn update_in(envelope: IncomingServerEnvelope) -> Result<
    Option<ServiceUpdate>,
    IpcErrorView,
> {
    match malformed_update(envelope) {
        Some(message) => Err(IpcErrorView::ProtocolError(message)),
        None => match envelope {
            IncomingServerEnvelope::Event(event) => if event.ipc_version != IPC_VERSION {
                Err(version_mismatch(event.ipc_version))
            } else {
                match event.event {
                    ServiceUpdateOrUnknown::Known(update) => Ok(Some(update)),
                    ServiceUpdateOrUnknown::Unknown(_) => Ok(None),
                }
            },
            IncomingServerEnvelope::Response(response) => Err(
                IpcErrorView::ProtocolError(
                    "received "@ + response.response.wire_type()
                        + " RPC response while waiting for stream event"@,
                ),
            ),
            IncomingServerEnvelope::Hello(_) => Err(
                IpcErrorView::ProtocolError(
                    "received duplicate hello while waiting for stream event"@,
                ),
            ),
        },
    }
}

/// The change that a message brings to a subscriber.
pub fn recv_update(envelope: IncomingServerEnvelope) -> (r: Result<Option<ServiceUpdate>, IpcError>)
    ensures
        match r {
            Ok(update) => update_in(envelope) == Ok::<Option<ServiceUpdate>, IpcErrorView>(update),
            Err(error) => update_in(envelope) == Err::<Option<ServiceUpdate>, IpcErrorView>(error@),
        },
{
    match validate_incoming_server_envelope(&envelope) {
        Ok(_) => {},
        Err(error) => return Err(error),
    }
    match envelope {
        IncomingServerEnvelope::Event(event) => {
            match ensure_ipc_version(event.ipc_version) {
                Ok(_) => {},
                Err(error) => return Err(error),
            }
            match event.event {
                ServiceUpdateOrUnknown::Known(update) => Ok(Some(update)),
                ServiceUpdateOrUnknown::Unknown(_) => Ok(None),
            }
        },
        IncomingServerEnvelope::Response(response) => Err(
            IpcError::ProtocolError(
                join3(
                    "received ",
                    service_response_name(&response.response),
                    " RPC response while waiting for stream event",
                ),
            ),
        ),
        IncomingServerEnvelope::Hello(_) => Err(
            IpcError::ProtocolError(
                owned("received duplicate hello while waiting for stream event"),
            ),
        ),
    }
}

/// The error for an answer of another kind than the one that was expected.
pub open spec fn unexpected_answer(expected: Seq<char>, response: ServiceResponse) -> IpcErrorView {
    match response {
        ServiceResponse::Error(error) => IpcErrorView::Service(error@),
        _ => IpcErrorView::ProtocolError(
            "expected "@ + expected + ", got "@ + response.wire_type(),
        ),
    }
}

/// What an answer holds. An error of the service is passed on with its code; an answer of
/// another kind than `expected` is an error of the protocol.
pub fn expect_response<T, F: FnOnce(ServiceResponse) -> Option<T>>(
    response: ServiceResponse,
    expected: &str,
    extract: F,
) -> (r: Result<T, IpcError>)
    requires
        !(response is Error) ==> extract.requires((response,)),
    ensures
        response is Error ==> r is Err && r->Err_0@ == unexpected_answer(expected@, response),
        !(response is Error) ==> exists|found: Option<T>|
            #[trigger] extract.ensures((response,), found) && match found {
                Some(value) => r == Ok::<T, IpcError>(value),
                None => r is Err && r->Err_0@ == unexpected_answer(expected@, response),
            },
{
    let response = match response {
        ServiceResponse::Error(error) => return Err(IpcError::Service(error)),
        response => response,
    };
    let response_type = service_response_name(&response);
    let found = extract(response);
    match found {
        Some(value) => Ok(value),
        None => {
            let mut message = join3("expected ", expected, ", got ");
            message.append(response_type);
            Err(IpcError::ProtocolError(message))
        },
    }
}


fn subscribe_in(response: ServiceResponse) -> (found: Option<SubscribeResponse>)
    ensures
        found == match response {
            ServiceResponse::Subscribe(value) => Some(value),
            _ => None,
        },
{
    match response {
        ServiceResponse::Subscribe(value) => Some(value),
        _ => None,
    }
}

fn status_in(response: ServiceResponse) -> (found: Option<ServiceStatus>)
    ensures
        found == match response {
            ServiceResponse::Status(value) => Some(value),
            _ => None,
        },
{
    match response {
        ServiceResponse::Status(value) => Some(value),
        _ => None,
    }
}

fn state_in(response: ServiceResponse) -> (found: Option<AgentLifecycle>)
    ensures
        found == match response {
            ServiceResponse::State(value) => Some(value),
            _ => None,
        },
{
    match response {
        ServiceResponse::State(value) => Some(value),
        _ => None,
    }
}

fn tunnels_in(response: ServiceResponse) -> (found: Option<TunnelListResponse>)
    ensures
        found == match response {
            ServiceResponse::Tunnels(value) => Some(value),
            _ => None,
        },
{
    match response {
        ServiceResponse::Tunnels(value) => Some(value),
        _ => None,
    }
}

fn account_tunnels_in(response: ServiceResponse) -> (found: Option<AccountTunnelListResponse>)
    ensures
        found == match response {
            ServiceResponse::AccountTunnels(value) => Some(value),
            _ => None,
        },
{
    match response {
        ServiceResponse::AccountTunnels(value) => Some(value),
        _ => None,
    }
}

fn create_tunnel_in(response: ServiceResponse) -> (found: Option<TunnelCreateResponse>)
    ensures
        found == match response {
            ServiceResponse::CreateTunnel(value) => Some(value),
            _ => None,
        },
{
    match response {
        ServiceResponse::CreateTunnel(value) => Some(value),
        _ => None,
    }
}

fn delete_tunnel_in(response: ServiceResponse) -> (found: Option<CommandResponse>)
    ensures
        found == match response {
            ServiceResponse::DeleteTunnel(value) => Some(value),
            _ => None,
        },
{
    match response {
        ServiceResponse::DeleteTunnel(value) => Some(value),
        _ => None,
    }
}

fn reassign_tunnel_in(response: ServiceResponse) -> (found: Option<CommandResponse>)
    ensures
        found == match response {
            ServiceResponse::ReassignTunnel(value) => Some(value),
            _ => None,
        },
{
    match response {
        ServiceResponse::ReassignTunnel(value) => Some(value),
        _ => None,
    }
}

fn account_in(response: ServiceResponse) -> (found: Option<AccountResponse>)
    ensures
        found == match response {
            ServiceResponse::Account(value) => Some(value),
            _ => None,
        },
{
    match response {
        ServiceResponse::Account(value) => Some(value),
        _ => None,
    }
}

fn claim_in(response: ServiceResponse) -> (found: Option<ClaimResponse>)
    ensures
        found == match response {
            ServiceResponse::Claim(value) => Some(value),
            _ => None,
        },
{
    match response {
        ServiceResponse::Claim(value) => Some(value),
        _ => None,
    }
}

fn stop_in(response: ServiceResponse) -> (found: Option<CommandResponse>)
    ensures
        found == match response {
            ServiceResponse::Stop(value) => Some(value),
            _ => None,
        },
{
    match response {
        ServiceResponse::Stop(value) => Some(value),
        _ => None,
    }
}

fn set_secret_in(response: ServiceResponse) -> (found: Option<CommandResponse>)
    ensures
        found == match response {
            ServiceResponse::SetSecret(value) => Some(value),
            _ => None,
        },
{
    match response {
        ServiceResponse::SetSecret(value) => Some(value),
        _ => None,
    }
}

fn reset_secret_in(response: ServiceResponse) -> (found: Option<CommandResponse>)
    ensures
        found == match response {
            ServiceResponse::ResetSecret(value) => Some(value),
            _ => None,
        },
{
    match response {
        ServiceResponse::ResetSecret(value) => Some(value),
        _ => None,
    }
}

fn secret_path_in(response: ServiceResponse) -> (found: Option<SecretPathResponse>)
    ensures
        found == match response {
            ServiceResponse::SecretPath(value) => Some(value),
            _ => None,
        },
{
    match response {
        ServiceResponse::SecretPath(value) => Some(value),
        _ => None,
    }
}

fn account_login_url_in(response: ServiceResponse) -> (found: Option<AccountLoginUrlResponse>)
    ensures
        found == match response {
            ServiceResponse::AccountLoginUrl(value) => Some(value),
            _ => None,
        },
{
    match response {
        ServiceResponse::AccountLoginUrl(value) => Some(value),
        _ => None,
    }
}

/// A client made a request: the message that carries it, and the client afterwards.
pub open spec fn asked(
    before: IpcClient,
    after: IpcClient,
    envelope: RequestEnvelope,
    request: ServiceRequestView,
) -> bool {
    &&& envelope.ipc_version == IPC_VERSION
    &&& envelope.request_id == before.next_request_id
    &&& envelope.request@ == request
    &&& after.next_request_id == before.next_request_id + 1
    &&& after.server_protocol == before.server_protocol
}

impl IpcClient {
    /// A client, once the first message of the service arrived: it must be the hello of a
    /// service that speaks this version of the protocol.
    pub fn connected(envelope: ServerEnvelope) -> (r: Result<Self, IpcError>)
        ensures
            match envelope {
                ServerEnvelope::Hello(hello) => if hello.protocol.ipc_version == IPC_VERSION {
                    r is Ok && r->Ok_0.next_request_id == 1 && r->Ok_0.server_protocol
                        == hello.protocol
                } else {
                    r is Err && r->Err_0@ == version_mismatch(hello.protocol.ipc_version)
                },
                ServerEnvelope::Response(response) => r is Err && r->Err_0@
                    == IpcErrorView::ProtocolError(
                    "expected hello frame, got "@ + response.response.wire_type()
                        + " RPC response"@,
                ),
                ServerEnvelope::Event(event) => r is Err && r->Err_0@
                    == IpcErrorView::ProtocolError(
                    "expected hello frame, got "@ + update_name(event.event) + " stream event"@,
                ),
            },
    {
        let hello = match recv_hello(envelope) {
            Ok(hello) => hello,
            Err(error) => return Err(error),
        };
        match ensure_ipc_version(hello.protocol.ipc_version) {
            Ok(_) => {},
            Err(error) => return Err(error),
        }
        Ok(IpcClient { next_request_id: 1, server_protocol: hello.protocol })
    }

    /// What the service said of its protocol.
    pub fn server_protocol(&self) -> (r: &ProtocolInfo)
        ensures
            *r == self.server_protocol,
    {
        &self.server_protocol
    }

    /// The message that carries a request, with a number that no earlier request of this
    /// client has.
    pub fn send_request(&mut self, request: ServiceRequest) -> (r: RequestEnvelope)
        requires
            old(self).next_request_id < u64::MAX,
        ensures
            r == (RequestEnvelope {
                ipc_version: IPC_VERSION,
                request_id: old(self).next_request_id,
                request,
            }),
            final(self).next_request_id == old(self).next_request_id + 1,
            final(self).server_protocol == old(self).server_protocol,
    {
        let request_id: u64 = self.next_request_id;
        self.next_request_id = request_id + 1;
        RequestEnvelope { ipc_version: IPC_VERSION, request_id, request }
    }

    /// The answer to request `request_id`, given the message that arrived.
    pub fn request(request_id: u64, envelope: ServerEnvelope) -> (r: Result<
        ServiceResponse,
        IpcError,
    >)
        ensures
            match r {
                Ok(response) => answer_to(request_id, envelope) == Ok::<
                    ServiceResponse,
                    IpcErrorView,
                >(response),
                Err(error) => answer_to(request_id, envelope) == Err::<
                    ServiceResponse,
                    IpcErrorView,
                >(error@),
            },
    {
        let response = match recv_response(envelope) {
            Ok(response) => response,
            Err(error) => return Err(error),
        };
        match ensure_ipc_version(response.ipc_version) {
            Ok(_) => {},
            Err(error) => return Err(error),
        }
        if response.request_id != request_id {
            let expected = decimal_text(request_id);
            let actual = decimal_text(response.request_id);
            let mut message = join3(
                "mismatched response id: expected ",
                expected.as_str(),
                ", got ",
            );
            message.append(actual.as_str());
            return Err(IpcError::ProtocolError(message));
        }
        Ok(response.response)
    }


    /// Ask for the state that a subscription starts from, and for every change after it.
    pub fn subscribe(&mut self) -> (r: RequestEnvelope)
        requires
            old(self).next_request_id < u64::MAX,
        ensures
            asked(*old(self), *final(self), r, ServiceRequestView::Subscribe),
    {
        self.send_request(ServiceRequest::Subscribe)
    }

    /// The answer to a request for the state that a subscription starts from.
    pub fn subscribe_answer(response: ServiceResponse) -> (r: Result<SubscribeResponse, IpcError>)
        ensures
            match response {
                ServiceResponse::Subscribe(value) => r == Ok::<SubscribeResponse, IpcError>(value),
                other => r is Err && r->Err_0@ == unexpected_answer("subscribe response"@, other),
            },
    {
        expect_response(response, "subscribe response", subscribe_in)
    }

    /// Ask for the status of the service.
    pub fn status(&mut self) -> (r: RequestEnvelope)
        requires
            old(self).next_request_id < u64::MAX,
        ensures
            asked(*old(self), *final(self), r, ServiceRequestView::GetStatus),
    {
        self.send_request(ServiceRequest::GetStatus)
    }

    /// The answer to a request for the status of the service.
    pub fn status_answer(response: ServiceResponse) -> (r: Result<ServiceStatus, IpcError>)
        ensures
            match response {
                ServiceResponse::Status(value) => r == Ok::<ServiceStatus, IpcError>(value),
                other => r is Err && r->Err_0@ == unexpected_answer("status response"@, other),
            },
    {
        expect_response(response, "status response", status_in)
    }

    /// Ask for the state of the agent.
    pub fn lifecycle(&mut self) -> (r: RequestEnvelope)
        requires
            old(self).next_request_id < u64::MAX,
        ensures
            asked(*old(self), *final(self), r, ServiceRequestView::GetState),
    {
        self.send_request(ServiceRequest::GetState)
    }

    /// The answer to a request for the state of the agent.
    pub fn lifecycle_answer(response: ServiceResponse) -> (r: Result<AgentLifecycle, IpcError>)
        ensures
            match response {
                ServiceResponse::State(value) => r == Ok::<AgentLifecycle, IpcError>(value),
                other => r is Err && r->Err_0@ == unexpected_answer("lifecycle response"@, other),
            },
    {
        expect_response(response, "lifecycle response", state_in)
    }

    /// Ask for the tunnels of the agent.
    pub fn list_tunnels(&mut self) -> (r: RequestEnvelope)
        requires
            old(self).next_request_id < u64::MAX,
        ensures
            asked(*old(self), *final(self), r, ServiceRequestView::GetTunnels),
    {
        self.send_request(ServiceRequest::GetTunnels)
    }

    /// The answer to a request for the tunnels of the agent.
    pub fn list_tunnels_answer(response: ServiceResponse) -> (r: Result<
        TunnelListResponse,
        IpcError,
    >)
        ensures
            match response {
                ServiceResponse::Tunnels(value) => r == Ok::<TunnelListResponse, IpcError>(value),
                other => r is Err && r->Err_0@ == unexpected_answer("tunnel list response"@, other),
            },
    {
        expect_response(response, "tunnel list response", tunnels_in)
    }

    /// Ask for the tunnels of the account.
    pub fn list_account_tunnels(&mut self) -> (r: RequestEnvelope)
        requires
            old(self).next_request_id < u64::MAX,
        ensures
            asked(*old(self), *final(self), r, ServiceRequestView::GetAccountTunnels),
    {
        self.send_request(ServiceRequest::GetAccountTunnels)
    }

    /// The answer to a request for the tunnels of the account.
    pub fn list_account_tunnels_answer(response: ServiceResponse) -> (r: Result<
        AccountTunnelListResponse,
        IpcError,
    >)
        ensures
            match response {
                ServiceResponse::AccountTunnels(value) => r == Ok::<AccountTunnelListResponse, IpcError>(
                    value,
                ),
                other => r is Err && r->Err_0@ == unexpected_answer(
                    "account tunnel list response"@,
                    other,
                ),
            },
    {
        expect_response(response, "account tunnel list response", account_tunnels_in)
    }

    /// Ask for a new tunnel.
    pub fn create_tunnel(
        &mut self,
        local_port: u16,
        protocol: TunnelProtocol,
        local_address: Option<String>,
        name: Option<String>,
    ) -> (r: RequestEnvelope)
        requires
            old(self).next_request_id < u64::MAX,
        ensures
            asked(
                *old(self),
                *final(self),
                r,
                ServiceRequestView::CreateTunnel {
                    local_port,
                    protocol,
                    local_address: opt_text(local_address),
                    name: opt_text(name),
                },
            ),
    {
        self.send_request(ServiceRequest::CreateTunnel { local_port, protocol, local_address, name })
    }

    /// The answer to a request for the new tunnel.
    pub fn create_tunnel_answer(response: ServiceResponse) -> (r: Result<
        TunnelCreateResponse,
        IpcError,
    >)
        ensures
            match response {
                ServiceResponse::CreateTunnel(value) => r == Ok::<TunnelCreateResponse, IpcError>(
                    value,
                ),
                other => r is Err && r->Err_0@ == unexpected_answer(
                    "tunnel create response"@,
                    other,
                ),
            },
    {
        expect_response(response, "tunnel create response", create_tunnel_in)
    }

    /// Ask for a new tunnel to a Minecraft server.
    pub fn create_minecraft_java_tunnel(
        &mut self,
        local_port: u16,
        local_address: Option<String>,
        name: Option<String>,
    ) -> (r: RequestEnvelope)
        requires
            old(self).next_request_id < u64::MAX,
        ensures
            asked(
                *old(self),
                *final(self),
                r,
                ServiceRequestView::CreateMinecraftJavaTunnel {
                    local_port,
                    local_address: opt_text(local_address),
                    name: opt_text(name),
                },
            ),
    {
        self.send_request(ServiceRequest::CreateMinecraftJavaTunnel { local_port, local_address, name })
    }

    /// The answer to a request for the new tunnel to a Minecraft server.
    pub fn create_minecraft_java_tunnel_answer(response: ServiceResponse) -> (r: Result<
        TunnelCreateResponse,
        IpcError,
    >)
        ensures
            match response {
                ServiceResponse::CreateTunnel(value) => r == Ok::<TunnelCreateResponse, IpcError>(
                    value,
                ),
                other => r is Err && r->Err_0@ == unexpected_answer(
                    "Minecraft Java tunnel create response"@,
                    other,
                ),
            },
    {
        expect_response(response, "Minecraft Java tunnel create response", create_tunnel_in)
    }

    /// Ask that a tunnel be deleted.
    pub fn delete_tunnel(&mut self, tunnel_id: &str) -> (r: RequestEnvelope)
        requires
            old(self).next_request_id < u64::MAX,
        ensures
            asked(
                *old(self),
                *final(self),
                r,
                ServiceRequestView::DeleteTunnel {
                    tunnel_id: tunnel_id@,
                },
            ),
    {
        self.send_request(ServiceRequest::DeleteTunnel { tunnel_id: owned(tunnel_id) })
    }

    /// The answer to a request for whether a tunnel is deleted.
    pub fn delete_tunnel_answer(response: ServiceResponse) -> (r: Result<CommandResponse, IpcError>)
        ensures
            match response {
                ServiceResponse::DeleteTunnel(value) => r == Ok::<CommandResponse, IpcError>(value),
                other => r is Err && r->Err_0@ == unexpected_answer(
                    "tunnel delete response"@,
                    other,
                ),
            },
    {
        expect_response(response, "tunnel delete response", delete_tunnel_in)
    }

    /// Ask that a tunnel lead to another local address.
    pub fn reassign_tunnel(
        &mut self,
        tunnel_id: &str,
        local_port: u16,
        local_address: Option<String>,
    ) -> (r: RequestEnvelope)
        requires
            old(self).next_request_id < u64::MAX,
        ensures
            asked(
                *old(self),
                *final(self),
                r,
                ServiceRequestView::ReassignTunnel {
                    tunnel_id: tunnel_id@,
                    local_port,
                    local_address: opt_text(local_address),
                },
            ),
    {
        self.send_request(ServiceRequest::ReassignTunnel { tunnel_id: owned(tunnel_id), local_port, local_address })
    }

    /// The answer to a request for whether a tunnel is reassigned.
    pub fn reassign_tunnel_answer(response: ServiceResponse) -> (r: Result<
        CommandResponse,
        IpcError,
    >)
        ensures
            match response {
                ServiceResponse::ReassignTunnel(value) => r == Ok::<CommandResponse, IpcError>(
                    value,
                ),
                other => r is Err && r->Err_0@ == unexpected_answer(
                    "tunnel reassignment response"@,
                    other,
                ),
            },
    {
        expect_response(response, "tunnel reassignment response", reassign_tunnel_in)
    }

    /// Ask what is known of the account.
    pub fn account(&mut self) -> (r: RequestEnvelope)
        requires
            old(self).next_request_id < u64::MAX,
        ensures
            asked(*old(self), *final(self), r, ServiceRequestView::GetAccount),
    {
        self.send_request(ServiceRequest::GetAccount)
    }

    /// The answer to a request for what is known of the account.
    pub fn account_answer(response: ServiceResponse) -> (r: Result<AccountResponse, IpcError>)
        ensures
            match response {
                ServiceResponse::Account(value) => r == Ok::<AccountResponse, IpcError>(value),
                other => r is Err && r->Err_0@ == unexpected_answer("account response"@, other),
            },
    {
        expect_response(response, "account response", account_in)
    }

    /// Ask for a claim to be started.
    pub fn start_claim(&mut self) -> (r: RequestEnvelope)
        requires
            old(self).next_request_id < u64::MAX,
        ensures
            asked(*old(self), *final(self), r, ServiceRequestView::StartClaim),
    {
        self.send_request(ServiceRequest::StartClaim)
    }

    /// The answer to a request for the page of the claim.
    pub fn start_claim_answer(response: ServiceResponse) -> (r: Result<ClaimResponse, IpcError>)
        ensures
            match response {
                ServiceResponse::Claim(value) => r == Ok::<ClaimResponse, IpcError>(value),
                other => r is Err && r->Err_0@ == unexpected_answer("claim response"@, other),
            },
    {
        expect_response(response, "claim response", claim_in)
    }

    /// Ask the service to stop.
    pub fn stop(&mut self) -> (r: RequestEnvelope)
        requires
            old(self).next_request_id < u64::MAX,
        ensures
            asked(*old(self), *final(self), r, ServiceRequestView::Stop),
    {
        self.send_request(ServiceRequest::Stop)
    }

    /// The answer to a request for whether the service stops.
    pub fn stop_answer(response: ServiceResponse) -> (r: Result<CommandResponse, IpcError>)
        ensures
            match response {
                ServiceResponse::Stop(value) => r == Ok::<CommandResponse, IpcError>(value),
                other => r is Err && r->Err_0@ == unexpected_answer("stop response"@, other),
            },
    {
        expect_response(response, "stop response", stop_in)
    }

    /// Hand the service a secret.
    pub fn set_secret(&mut self, secret: &str) -> (r: RequestEnvelope)
        requires
            old(self).next_request_id < u64::MAX,
        ensures
            asked(*old(self), *final(self), r, ServiceRequestView::SetSecret { secret: secret@ }),
    {
        self.send_request(ServiceRequest::SetSecret { secret: owned(secret) })
    }

    /// The answer to a request for whether the secret is stored.
    pub fn set_secret_answer(response: ServiceResponse) -> (r: Result<CommandResponse, IpcError>)
        ensures
            match response {
                ServiceResponse::SetSecret(value) => r == Ok::<CommandResponse, IpcError>(value),
                other => r is Err && r->Err_0@ == unexpected_answer(
                    "secret provisioning response"@,
                    other,
                ),
            },
    {
        expect_response(response, "secret provisioning response", set_secret_in)
    }

    /// Ask that the secret be removed.
    pub fn reset_secret(&mut self) -> (r: RequestEnvelope)
        requires
            old(self).next_request_id < u64::MAX,
        ensures
            asked(*old(self), *final(self), r, ServiceRequestView::ResetSecret),
    {
        self.send_request(ServiceRequest::ResetSecret)
    }

    /// The answer to a request for whether the secret is removed.
    pub fn reset_secret_answer(response: ServiceResponse) -> (r: Result<CommandResponse, IpcError>)
        ensures
            match response {
                ServiceResponse::ResetSecret(value) => r == Ok::<CommandResponse, IpcError>(value),
                other => r is Err && r->Err_0@ == unexpected_answer(
                    "reset secret response"@,
                    other,
                ),
            },
    {
        expect_response(response, "reset secret response", reset_secret_in)
    }

    /// Ask for the path of the secret.
    pub fn get_secret_path(&mut self) -> (r: RequestEnvelope)
        requires
            old(self).next_request_id < u64::MAX,
        ensures
            asked(*old(self), *final(self), r, ServiceRequestView::GetSecretPath),
    {
        self.send_request(ServiceRequest::GetSecretPath)
    }

    /// The answer to a request for the path of the secret.
    pub fn get_secret_path_answer(response: ServiceResponse) -> (r: Result<
        SecretPathResponse,
        IpcError,
    >)
        ensures
            match response {
                ServiceResponse::SecretPath(value) => r == Ok::<SecretPathResponse, IpcError>(
                    value,
                ),
                other => r is Err && r->Err_0@ == unexpected_answer("secret path response"@, other),
            },
    {
        expect_response(response, "secret path response", secret_path_in)
    }

    /// Ask for a login link of the account.
    pub fn get_account_login_url(&mut self) -> (r: RequestEnvelope)
        requires
            old(self).next_request_id < u64::MAX,
        ensures
            asked(*old(self), *final(self), r, ServiceRequestView::GetAccountLoginUrl),
    {
        self.send_request(ServiceRequest::GetAccountLoginUrl)
    }

    /// The answer to a request for the login link of the account.
    pub fn get_account_login_url_answer(response: ServiceResponse) -> (r: Result<
        AccountLoginUrlResponse,
        IpcError,
    >)
        ensures
            match response {
                ServiceResponse::AccountLoginUrl(value) => r == Ok::<AccountLoginUrlResponse, IpcError>(
                    value,
                ),
                other => r is Err && r->Err_0@ == unexpected_answer(
                    "account login URL response"@,
                    other,
                ),
            },
    {
        expect_response(response, "account login URL response", account_login_url_in)
    }
}

// ---------------------------------------------------------------------------
// Laws
// ---------------------------------------------------------------------------

/// An answer is accepted only if it has the number of the request and the version of the
/// protocol.
pub proof fn answers_belong_to_their_request(request_id: u64, envelope: ServerEnvelope)
    ensures
        answer_to(request_id, envelope) matches Ok(response) ==> envelope == ServerEnvelope::Response(
            ResponseEnvelope { ipc_version: IPC_VERSION, request_id, response },
        ),
{
}

/// Changes of an unknown type are skipped, and only those: a malformed change of a known
/// type, an answer and a second hello are errors.
pub proof fn only_unknown_updates_are_skipped(envelope: IncomingServerEnvelope)
    ensures
        update_in(envelope) == Ok::<Option<ServiceUpdate>, IpcErrorView>(None) ==> {
            &&& envelope matches IncomingServerEnvelope::Event(event)
            &&& event.ipc_version == IPC_VERSION
            &&& event.event matches ServiceUpdateOrUnknown::Unknown(unknown)
            &&& !known_update(unknown.wire_type@)
        },
        update_in(envelope) matches Ok(Some(update)) ==> {
            &&& envelope matches IncomingServerEnvelope::Event(event)
            &&& event.event == ServiceUpdateOrUnknown::Known(update)
        },
{
}

/// Each request has the name by which the two sides know it.
pub proof fn requests_have_names(request: ServiceRequestView)
    ensures
        request is Subscribe ==> request.wire_type() == "subscribe"@,
        request is GetStatus ==> request.wire_type() == "get_status"@,
        request is GetState ==> request.wire_type() == "get_state"@,
        request is GetTunnels ==> request.wire_type() == "get_tunnels"@,
        request is GetAccountTunnels ==> request.wire_type() == "get_account_tunnels"@,
        request is CreateTunnel ==> request.wire_type() == "create_tunnel"@,
        request is CreateMinecraftJavaTunnel ==> request.wire_type() == "create_minecraft_java_tunnel"@,
        request is DeleteTunnel ==> request.wire_type() == "delete_tunnel"@,
        request is ReassignTunnel ==> request.wire_type() == "reassign_tunnel"@,
        request is GetAccount ==> request.wire_type() == "get_account"@,
        request is StartClaim ==> request.wire_type() == "start_claim"@,
        request is Stop ==> request.wire_type() == "stop"@,
        request is SetSecret ==> request.wire_type() == "set_secret"@,
        request is ResetSecret ==> request.wire_type() == "reset_secret"@,
        request is GetSecretPath ==> request.wire_type() == "get_secret_path"@,
        request is GetAccountLoginUrl ==> request.wire_type() == "get_account_login_url"@,
{
}

/// Each answer has the name by which the two sides know it.
pub proof fn answers_have_names(response: ServiceResponse)
    ensures
        response is Subscribe ==> response.wire_type() == "subscribe"@,
        response is Status ==> response.wire_type() == "status"@,
        response is State ==> response.wire_type() == "state"@,
        response is Tunnels ==> response.wire_type() == "tunnels"@,
        response is AccountTunnels ==> response.wire_type() == "account_tunnels"@,
        response is CreateTunnel ==> response.wire_type() == "create_tunnel"@,
        response is DeleteTunnel ==> response.wire_type() == "delete_tunnel"@,
        response is ReassignTunnel ==> response.wire_type() == "reassign_tunnel"@,
        response is Account ==> response.wire_type() == "account"@,
        response is Claim ==> response.wire_type() == "claim"@,
        response is Stop ==> response.wire_type() == "stop"@,
        response is SetSecret ==> response.wire_type() == "set_secret"@,
        response is ResetSecret ==> response.wire_type() == "reset_secret"@,
        response is SecretPath ==> response.wire_type() == "secret_path"@,
        response is AccountLoginUrl ==> response.wire_type() == "account_login_url"@,
        response is Error ==> response.wire_type() == "error"@,
{
}

/// Each change has the name by which the two sides know it.
pub proof fn updates_have_names(update: ServiceUpdate)
    ensures
        update is Status ==> update_name(update) == "status"@,
        update is Lifecycle ==> update_name(update) == "lifecycle"@,
        update is Stats ==> update_name(update) == "stats"@,
        update is Log ==> update_name(update) == "log"@,
{
}

/// A client takes for its answer the answer to its own request, in version 3 of the protocol, and
/// nothing else: an answer to another request, or of another version, a change, and a second
/// hello are errors.
pub proof fn clients_take_their_own_answer(request_id: u64, envelope: ServerEnvelope)
    ensures
        answer_to(request_id, envelope) is Ok <==> (envelope matches ServerEnvelope::Response(
            response,
        ) && response.ipc_version == 3 && response.request_id == request_id),
        answer_to(request_id, envelope) matches Ok(answer) ==> (envelope
            matches ServerEnvelope::Response(response) && answer == response.response),
        envelope matches ServerEnvelope::Response(response) ==> response.ipc_version != 3
            ==> answer_to(request_id, envelope) == Err::<ServiceResponse, IpcErrorView>(
            IpcErrorView::ProtocolMismatch { expected: 3, actual: response.ipc_version },
        ),
{
}

/// A subscriber gets every change that it knows, of version 3 of the protocol, and passes over a
/// change whose name it does not know. A known name with a content that cannot be read, an
/// answer, and a second hello are errors.
pub proof fn subscribers_get_every_change(envelope: IncomingServerEnvelope)
    ensures
        envelope matches IncomingServerEnvelope::Event(event) ==> (event.event
            matches ServiceUpdateOrUnknown::Known(update) ==> (event.ipc_version == 3
            ==> update_in(envelope) == Ok::<Option<ServiceUpdate>, IpcErrorView>(Some(update)))
            && (event.ipc_version != 3 ==> update_in(envelope) == Err::<
            Option<ServiceUpdate>,
            IpcErrorView,
        >(IpcErrorView::ProtocolMismatch { expected: 3, actual: event.ipc_version }))),
        envelope matches IncomingServerEnvelope::Event(event) ==> (event.event
            matches ServiceUpdateOrUnknown::Unknown(unknown) ==> {
            let known = unknown.wire_type@ == "status"@ || unknown.wire_type@ == "lifecycle"@
                || unknown.wire_type@ == "stats"@ || unknown.wire_type@ == "log"@;
            &&& known ==> update_in(envelope) is Err
            &&& !known && event.ipc_version == 3 ==> update_in(envelope) == Ok::<
                Option<ServiceUpdate>,
                IpcErrorView,
            >(None)
        }),
        !(envelope is Event) ==> update_in(envelope) is Err,
{
}

/// A closed connection shows by an end in the middle of a message, or by the system's word that
/// the other side is gone; no other failure counts as one.
pub proof fn closed_connections_are_known(kind: IoErrorKind)
    ensures
        closes_connection(kind) <==> kind is UnexpectedEof || kind is BrokenPipe || kind
            is ConnectionAborted || kind is ConnectionReset || kind is NotConnected,
{
}

/// The protocol is version 3, and the service tells all that it can do beyond the least.
pub proof fn services_tell_their_protocol()
    ensures
        protocol().ipc_version == 3,
        protocol().capabilities == seq![
            "structured_responses"@,
            "stream_events"@,
            "lifecycle_state"@,
            "rich_status"@,
            "secret_provisioning"@,
            "tunnel_management"@,
            "account_tunnel_management"@,
            "semantic_tunnel_types"@,
            "account_state"@,
            "control_reconnect_state"@,
            "claim_provisioning"@,
        ],
{
}

/// Every request of a client carries what was asked and a number of its own, one above that of
/// the request before it.
pub proof fn requests_are_numbered(
    before: IpcClient,
    after: IpcClient,
    envelope: RequestEnvelope,
    request: ServiceRequestView,
)
    requires
        asked(before, after, envelope, request),
    ensures
        envelope.ipc_version == 3,
        envelope.request@ == request,
        envelope.request_id == before.next_request_id,
        after.next_request_id == envelope.request_id + 1,
        after.server_protocol == before.server_protocol,
{
}

/// An error that the service answers reaches the caller with its code and message; any other
/// answer that was not expected is an error of the protocol that names both.
pub proof fn service_errors_are_passed_on(expected: Seq<char>, response: ServiceResponse)
    ensures
        response matches ServiceResponse::Error(error) ==> unexpected_answer(expected, response)
            == IpcErrorView::Service(error@),
        !(response is Error) ==> unexpected_answer(expected, response)
            == IpcErrorView::ProtocolError(
            "expected "@ + expected + ", got "@ + response.wire_type(),
        ),
        forall|actual: u32| #[trigger]
            version_mismatch(actual) == (IpcErrorView::ProtocolMismatch { expected: 3, actual }),
{
}

/// What is told of an error of the connection names what failed, and the system's reason.
pub proof fn connection_errors_are_told(error: IpcError)
    ensures
        error is AlreadyRunning ==> error@.shown() == "Another instance is already running"@,
        error matches IpcError::BindFailed(e) ==> error@.shown() == "Failed to bind to socket: "@
            + e.message@,
        error matches IpcError::ConnectionFailed(e) ==> error@.shown()
            == "Failed to connect to socket: "@ + e.message@,
        error matches IpcError::IoError(e) ==> error@.shown() == "IO error: "@ + e.message@,
        error is NotRunning ==> error@.shown() == "Service is not running"@,
        error matches IpcError::ProtocolMismatch { expected, actual } ==> error@.shown()
            == "IPC protocol mismatch: expected version "@ + decimal(expected as nat) + ", got "@
            + decimal(actual as nat),
        error matches IpcError::ProtocolError(message) ==> error@.shown() == message@,
        error matches IpcError::Service(e) ==> error@.shown() == e.code.shown() + ": "@
            + e.message@,
{
}

/// A request is told as what it is, with all that it carries.
pub proof fn requests_say_what_they_are(request: ServiceRequest)
    ensures
        request is Subscribe ==> request@ == ServiceRequestView::Subscribe,
        request is GetStatus ==> request@ == ServiceRequestView::GetStatus,
        request is GetState ==> request@ == ServiceRequestView::GetState,
        request is GetTunnels ==> request@ == ServiceRequestView::GetTunnels,
        request is GetAccountTunnels ==> request@ == ServiceRequestView::GetAccountTunnels,
        request matches ServiceRequest::CreateTunnel { local_port, protocol, local_address, name }
            ==> request@ == (ServiceRequestView::CreateTunnel {
            local_port,
            protocol,
            local_address: opt_text(local_address),
            name: opt_text(name),
        }),
        request matches ServiceRequest::CreateMinecraftJavaTunnel {
            local_port,
            local_address,
            name,
        }
            ==> request@ == (ServiceRequestView::CreateMinecraftJavaTunnel {
            local_port,
            local_address: opt_text(local_address),
            name: opt_text(name),
        }),
        request matches ServiceRequest::DeleteTunnel { tunnel_id }
            ==> request@ == (ServiceRequestView::DeleteTunnel { tunnel_id: tunnel_id@, }),
        request matches ServiceRequest::ReassignTunnel { tunnel_id, local_port, local_address }
            ==> request@ == (ServiceRequestView::ReassignTunnel {
            tunnel_id: tunnel_id@,
            local_port,
            local_address: opt_text(local_address),
        }),
        request is GetAccount ==> request@ == ServiceRequestView::GetAccount,
        request is StartClaim ==> request@ == ServiceRequestView::StartClaim,
        request is Stop ==> request@ == ServiceRequestView::Stop,
        request matches ServiceRequest::SetSecret { secret }
            ==> request@ == (ServiceRequestView::SetSecret { secret: secret@, }),
        request is ResetSecret ==> request@ == ServiceRequestView::ResetSecret,
        request is GetSecretPath ==> request@ == ServiceRequestView::GetSecretPath,
        request is GetAccountLoginUrl ==> request@ == ServiceRequestView::GetAccountLoginUrl,
{
}

/// An answer is told as what it is, with all that it carries.
pub proof fn answers_say_what_they_are(response: ServiceResponse)
    ensures
        response matches ServiceResponse::Subscribe(value)
            ==> response@ == ServiceResponseView::Subscribe(value@),
        response matches ServiceResponse::Status(value)
            ==> response@ == ServiceResponseView::Status(value@),
        response matches ServiceResponse::State(value)
            ==> response@ == ServiceResponseView::State(value@),
        response matches ServiceResponse::Tunnels(value)
            ==> response@ == ServiceResponseView::Tunnels(value@),
        response matches ServiceResponse::AccountTunnels(value)
            ==> response@ == ServiceResponseView::AccountTunnels(value@),
        response matches ServiceResponse::CreateTunnel(value)
            ==> response@ == ServiceResponseView::CreateTunnel(value@),
        response matches ServiceResponse::DeleteTunnel(value)
            ==> response@ == ServiceResponseView::DeleteTunnel(value@),
        response matches ServiceResponse::ReassignTunnel(value)
            ==> response@ == ServiceResponseView::ReassignTunnel(value@),
        response matches ServiceResponse::Account(value)
            ==> response@ == ServiceResponseView::Account(value@),
        response matches ServiceResponse::Claim(value)
            ==> response@ == ServiceResponseView::Claim(value@),
        response matches ServiceResponse::Stop(value)
            ==> response@ == ServiceResponseView::Stop(value@),
        response matches ServiceResponse::SetSecret(value)
            ==> response@ == ServiceResponseView::SetSecret(value@),
        response matches ServiceResponse::ResetSecret(value)
            ==> response@ == ServiceResponseView::ResetSecret(value@),
        response matches ServiceResponse::SecretPath(value)
            ==> response@ == ServiceResponseView::SecretPath(value@),
        response matches ServiceResponse::AccountLoginUrl(value)
            ==> response@ == ServiceResponseView::AccountLoginUrl(value@),
        response matches ServiceResponse::Error(value)
            ==> response@ == ServiceResponseView::Error(value@),
{
}

/// A message that was not expected is told with what it was and what was waited for.
pub proof fn unexpected_messages_are_told(
    request_id: u64,
    envelope: ServerEnvelope,
    incoming: IncomingServerEnvelope,
)
    ensures
        envelope matches ServerEnvelope::Event(event) ==> answer_to(request_id, envelope) == Err::<
            ServiceResponse,
            IpcErrorView,
        >(
            IpcErrorView::ProtocolError(
                "received "@ + update_name(event.event)
                    + " stream event while waiting for RPC response"@,
            ),
        ),
        envelope is Hello ==> answer_to(request_id, envelope) == Err::<
            ServiceResponse,
            IpcErrorView,
        >(
            IpcErrorView::ProtocolError(
                "received duplicate hello while waiting for RPC response"@,
            ),
        ),
        envelope matches ServerEnvelope::Response(response) ==> response.ipc_version == 3
            && response.request_id != request_id ==> answer_to(request_id, envelope) == Err::<
            ServiceResponse,
            IpcErrorView,
        >(
            IpcErrorView::ProtocolError(
                "mismatched response id: expected "@ + decimal(request_id as nat) + ", got "@
                    + decimal(response.request_id as nat),
            ),
        ),
        incoming is Hello ==> update_in(incoming) == Err::<Option<ServiceUpdate>, IpcErrorView>(
            IpcErrorView::ProtocolError(
                "received duplicate hello while waiting for stream event"@,
            ),
        ),
        incoming matches IncomingServerEnvelope::Response(response) ==> update_in(incoming) == Err::<
            Option<ServiceUpdate>,
            IpcErrorView,
        >(
            IpcErrorView::ProtocolError(
                "received "@ + response.response.wire_type()
                    + " RPC response while waiting for stream event"@,
            ),
        ),
        malformed_update(incoming) matches Some(message) ==> (incoming
            matches IncomingServerEnvelope::Event(event) && event.event
            matches ServiceUpdateOrUnknown::Unknown(unknown) && message
            == "invalid IPC event payload for "@ + unknown.wire_type@),
{
}

} // verus!
