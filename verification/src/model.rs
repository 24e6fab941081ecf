//! The service's data model: what the agent publishes and what the service protocol carries.

use vstd::prelude::*;

use crate::text::{copy_opt, copy_texts, join3, opt_text, texts};

verus! {

/// What the service knows of the account behind the agent.
#[derive(Clone, Copy, Debug, PartialEq, Eq, Structural)]
pub enum AccountStatus {
    Unknown,
    Guest,
    EmailNotVerified,
    Verified,
}

impl Default for AccountStatus {
    fn default() -> (r: Self)
        ensures
            r == AccountStatus::Unknown,
    {
        AccountStatus::Unknown
    }
}

impl AccountStatus {
    /// The name of this value on the wire.
    pub open spec fn wire(self) -> Seq<char> {
        match self {
            AccountStatus::Unknown => "unknown"@,
            AccountStatus::Guest => "guest"@,
            AccountStatus::EmailNotVerified => "email_not_verified"@,
            AccountStatus::Verified => "verified"@,
        }
    }

    /// The name of this value on the wire.
    pub fn wire_name(&self) -> (r: &'static str)
        ensures
            r@ == self.wire(),
    {
        match self {
            AccountStatus::Unknown => "unknown",
            AccountStatus::Guest => "guest",
            AccountStatus::EmailNotVerified => "email_not_verified",
            AccountStatus::Verified => "verified",
        }
    }
}

/// The severity of a log line.
#[derive(Clone, Copy, Debug, PartialEq, Eq, Structural)]
pub enum LogLevel {
    Trace,
    Debug,
    Info,
    Warn,
    Error,
}

impl Default for LogLevel {
    fn default() -> (r: Self)
        ensures
            r == LogLevel::Info,
    {
        LogLevel::Info
    }
}

impl LogLevel {
    /// The name of this value on the wire.
    pub open spec fn wire(self) -> Seq<char> {
        match self {
            LogLevel::Trace => "trace"@,
            LogLevel::Debug => "debug"@,
            LogLevel::Info => "info"@,
            LogLevel::Warn => "warn"@,
            LogLevel::Error => "error"@,
        }
    }

    /// The name of this value on the wire.
    pub fn wire_name(&self) -> (r: &'static str)
        ensures
            r@ == self.wire(),
    {
        match self {
            LogLevel::Trace => "trace",
            LogLevel::Debug => "debug",
            LogLevel::Info => "info",
            LogLevel::Warn => "warn",
            LogLevel::Error => "error",
        }
    }
}

/// The phase that the service is in.
#[derive(Clone, Copy, Debug, PartialEq, Eq, Structural)]
pub enum ServicePhase {
    WaitingForSecret,
    HasInvalidSecret,
    DisabledOverLimit,
    Starting,
    Reconnecting,
    Running,
    Stopping,
    Error,
}

impl Default for ServicePhase {
    fn default() -> (r: Self)
        ensures
            r == ServicePhase::Starting,
    {
        ServicePhase::Starting
    }
}

impl ServicePhase {
    /// The name of this value on the wire.
    pub open spec fn wire(self) -> Seq<char> {
        match self {
            ServicePhase::WaitingForSecret => "waiting_for_secret"@,
            ServicePhase::HasInvalidSecret => "has_invalid_secret"@,
            ServicePhase::DisabledOverLimit => "disabled_over_limit"@,
            ServicePhase::Starting => "starting"@,
            ServicePhase::Reconnecting => "reconnecting"@,
            ServicePhase::Running => "running"@,
            ServicePhase::Stopping => "stopping"@,
            ServicePhase::Error => "error"@,
        }
    }

    /// The name of this value on the wire.
    pub fn wire_name(&self) -> (r: &'static str)
        ensures
            r@ == self.wire(),
    {
        match self {
            ServicePhase::WaitingForSecret => "waiting_for_secret",
            ServicePhase::HasInvalidSecret => "has_invalid_secret",
            ServicePhase::DisabledOverLimit => "disabled_over_limit",
            ServicePhase::Starting => "starting",
            ServicePhase::Reconnecting => "reconnecting",
            ServicePhase::Running => "running",
            ServicePhase::Stopping => "stopping",
            ServicePhase::Error => "error",
        }
    }
}

/// The reason of a service error, stable across versions.
#[derive(Clone, Copy, Debug, PartialEq, Eq, Structural)]
pub enum ServiceErrorCode {
    Internal,
    UnsupportedProtocol,
    InvalidRequest,
    InvalidRequestType,
    AgentDisabledOverLimit,
    InvalidSecret,
    SecretPinned,
    ProvisioningUnavailable,
    SecretWriteFailed,
    ApiUnavailable,
    InvalidTunnelRequest,
    TunnelNotFound,
    ApiRejected,
    PermissionDenied,
}

impl Default for ServiceErrorCode {
    fn default() -> (r: Self)
        ensures
            r == ServiceErrorCode::Internal,
    {
        ServiceErrorCode::Internal
    }
}

impl ServiceErrorCode {
    /// The name of this value on the wire.
    pub open spec fn wire(self) -> Seq<char> {
        match self {
            ServiceErrorCode::Internal => "internal"@,
            ServiceErrorCode::UnsupportedProtocol => "unsupported_protocol"@,
            ServiceErrorCode::InvalidRequest => "invalid_request"@,
            ServiceErrorCode::InvalidRequestType => "invalid_request_type"@,
            ServiceErrorCode::AgentDisabledOverLimit => "agent_disabled_over_limit"@,
            ServiceErrorCode::InvalidSecret => "invalid_secret"@,
            ServiceErrorCode::SecretPinned => "secret_pinned"@,
            ServiceErrorCode::ProvisioningUnavailable => "provisioning_unavailable"@,
            ServiceErrorCode::SecretWriteFailed => "secret_write_failed"@,
            ServiceErrorCode::ApiUnavailable => "api_unavailable"@,
            ServiceErrorCode::InvalidTunnelRequest => "invalid_tunnel_request"@,
            ServiceErrorCode::TunnelNotFound => "tunnel_not_found"@,
            ServiceErrorCode::ApiRejected => "api_rejected"@,
            ServiceErrorCode::PermissionDenied => "permission_denied"@,
        }
    }

    /// The name of this value on the wire.
    pub fn wire_name(&self) -> (r: &'static str)
        ensures
            r@ == self.wire(),
    {
        match self {
            ServiceErrorCode::Internal => "internal",
            ServiceErrorCode::UnsupportedProtocol => "unsupported_protocol",
            ServiceErrorCode::InvalidRequest => "invalid_request",
            ServiceErrorCode::InvalidRequestType => "invalid_request_type",
            ServiceErrorCode::AgentDisabledOverLimit => "agent_disabled_over_limit",
            ServiceErrorCode::InvalidSecret => "invalid_secret",
            ServiceErrorCode::SecretPinned => "secret_pinned",
            ServiceErrorCode::ProvisioningUnavailable => "provisioning_unavailable",
            ServiceErrorCode::SecretWriteFailed => "secret_write_failed",
            ServiceErrorCode::ApiUnavailable => "api_unavailable",
            ServiceErrorCode::InvalidTunnelRequest => "invalid_tunnel_request",
            ServiceErrorCode::TunnelNotFound => "tunnel_not_found",
            ServiceErrorCode::ApiRejected => "api_rejected",
            ServiceErrorCode::PermissionDenied => "permission_denied",
        }
    }

    /// The name of this value in messages.
    pub open spec fn shown(self) -> Seq<char> {
        match self {
            ServiceErrorCode::Internal => "Internal"@,
            ServiceErrorCode::UnsupportedProtocol => "UnsupportedProtocol"@,
            ServiceErrorCode::InvalidRequest => "InvalidRequest"@,
            ServiceErrorCode::InvalidRequestType => "InvalidRequestType"@,
            ServiceErrorCode::AgentDisabledOverLimit => "AgentDisabledOverLimit"@,
            ServiceErrorCode::InvalidSecret => "InvalidSecret"@,
            ServiceErrorCode::SecretPinned => "SecretPinned"@,
            ServiceErrorCode::ProvisioningUnavailable => "ProvisioningUnavailable"@,
            ServiceErrorCode::SecretWriteFailed => "SecretWriteFailed"@,
            ServiceErrorCode::ApiUnavailable => "ApiUnavailable"@,
            ServiceErrorCode::InvalidTunnelRequest => "InvalidTunnelRequest"@,
            ServiceErrorCode::TunnelNotFound => "TunnelNotFound"@,
            ServiceErrorCode::ApiRejected => "ApiRejected"@,
            ServiceErrorCode::PermissionDenied => "PermissionDenied"@,
        }
    }

    /// The name of this value in messages.
    pub fn name(&self) -> (r: &'static str)
        ensures
            r@ == self.shown(),
    {
        match self {
            ServiceErrorCode::Internal => "Internal",
            ServiceErrorCode::UnsupportedProtocol => "UnsupportedProtocol",
            ServiceErrorCode::InvalidRequest => "InvalidRequest",
            ServiceErrorCode::InvalidRequestType => "InvalidRequestType",
            ServiceErrorCode::AgentDisabledOverLimit => "AgentDisabledOverLimit",
            ServiceErrorCode::InvalidSecret => "InvalidSecret",
            ServiceErrorCode::SecretPinned => "SecretPinned",
            ServiceErrorCode::ProvisioningUnavailable => "ProvisioningUnavailable",
            ServiceErrorCode::SecretWriteFailed => "SecretWriteFailed",
            ServiceErrorCode::ApiUnavailable => "ApiUnavailable",
            ServiceErrorCode::InvalidTunnelRequest => "InvalidTunnelRequest",
            ServiceErrorCode::TunnelNotFound => "TunnelNotFound",
            ServiceErrorCode::ApiRejected => "ApiRejected",
            ServiceErrorCode::PermissionDenied => "PermissionDenied",
        }
    }
}

/// The transport protocol of a tunnel.
#[derive(Clone, Copy, Debug, PartialEq, Eq, Structural)]
pub enum TunnelProtocol {
    Tcp,
    Udp,
    Both,
}

impl Default for TunnelProtocol {
    fn default() -> (r: Self)
        ensures
            r == TunnelProtocol::Tcp,
    {
        TunnelProtocol::Tcp
    }
}

impl TunnelProtocol {
    /// The name of this value on the wire.
    pub open spec fn wire(self) -> Seq<char> {
        match self {
            TunnelProtocol::Tcp => "tcp"@,
            TunnelProtocol::Udp => "udp"@,
            TunnelProtocol::Both => "both"@,
        }
    }

    /// The name of this value on the wire.
    pub fn wire_name(&self) -> (r: &'static str)
        ensures
            r@ == self.wire(),
    {
        match self {
            TunnelProtocol::Tcp => "tcp",
            TunnelProtocol::Udp => "udp",
            TunnelProtocol::Both => "both",
        }
    }
}

/// The protocol version and the optional features that a service speaks.
#[derive(Debug)]
pub struct ProtocolInfo {
    pub ipc_version: u32,
    pub capabilities: Vec<String>,
}

/// The model of a [`ProtocolInfo`].
#[verifier::ext_equal]
pub struct ProtocolInfoView {
    pub ipc_version: u32,
    pub capabilities: Seq<Seq<char>>,
}

impl View for ProtocolInfo {
    type V = ProtocolInfoView;

    open spec fn view(&self) -> ProtocolInfoView {
        ProtocolInfoView {
            ipc_version: self.ipc_version,
            capabilities: texts(self.capabilities@),
        }
    }
}

impl Default for ProtocolInfo {
    fn default() -> (r: Self)
        ensures
            r@ == ProtocolInfoView::empty(),
    {
        let r = ProtocolInfo {
            ipc_version: 0,
            capabilities: Vec::new(),
        };
        assert(r@ =~~= ProtocolInfoView::empty());
        r
    }
}

impl ProtocolInfoView {
    /// The value whose every field is empty, zero or the default of its type.
    pub open spec fn empty() -> Self {
        ProtocolInfoView {
            ipc_version: 0,
            capabilities: Seq::empty(),
        }
    }
}

impl Clone for ProtocolInfo {
    fn clone(&self) -> (r: Self)
        ensures
            r@ == self@,
    {
        let r = ProtocolInfo {
            ipc_version: self.ipc_version,
            capabilities: copy_texts(&self.capabilities),
        };
        assert(r@ =~~= self@);
        r
    }
}

/// An error as the service reports it to its clients.
#[derive(Debug)]
pub struct ServiceError {
    pub code: ServiceErrorCode,
    pub message: String,
    pub retryable: bool,
    /// A JSON text with more about the error.
    pub details: Option<String>,
}

/// The model of a [`ServiceError`].
#[verifier::ext_equal]
pub struct ServiceErrorView {
    pub code: ServiceErrorCode,
    pub message: Seq<char>,
    pub retryable: bool,
    pub details: Option<Seq<char>>,
}

impl View for ServiceError {
    type V = ServiceErrorView;

    open spec fn view(&self) -> ServiceErrorView {
        ServiceErrorView {
            code: self.code,
            message: self.message@,
            retryable: self.retryable,
            details: opt_text(self.details),
        }
    }
}

impl Default for ServiceError {
    fn default() -> (r: Self)
        ensures
            r@ == ServiceErrorView::empty(),
    {
        let r = ServiceError {
            code: ServiceErrorCode::default(),
            message: String::new(),
            retryable: false,
            details: None,
        };
        assert(r@ =~~= ServiceErrorView::empty());
        r
    }
}

impl ServiceErrorView {
    /// The value whose every field is empty, zero or the default of its type.
    pub open spec fn empty() -> Self {
        ServiceErrorView {
            code: ServiceErrorCode::Internal,
            message: Seq::empty(),
            retryable: false,
            details: None,
        }
    }
}

impl Clone for ServiceError {
    fn clone(&self) -> (r: Self)
        ensures
            r == *self,
    {
        ServiceError {
            code: self.code,
            message: self.message.clone(),
            retryable: self.retryable,
            details: copy_opt(&self.details),
        }
    }
}

impl ServiceError {
    /// The error as one line of text: its code, then its message.
    pub fn to_text(&self) -> (r: String)
        ensures
            r@ == self.code.shown() + ": "@ + self.message@,
    {
        join3(self.code.name(), ": ", self.message.as_str())
    }
}

/// A tunnel that the agent serves.
#[derive(Debug)]
pub struct TunnelState {
    pub id: String,
    pub name: Option<String>,
    pub display_address: String,
    pub destination: String,
    pub protocol: TunnelProtocol,
    pub port_count: u16,
    pub local_address: Option<String>,
    pub local_port: Option<u16>,
    pub is_disabled: bool,
    pub disabled_reason: Option<String>,
}

/// The model of a [`TunnelState`].
#[verifier::ext_equal]
pub struct TunnelStateView {
    pub id: Seq<char>,
    pub name: Option<Seq<char>>,
    pub display_address: Seq<char>,
    pub destination: Seq<char>,
    pub protocol: TunnelProtocol,
    pub port_count: u16,
    pub local_address: Option<Seq<char>>,
    pub local_port: Option<u16>,
    pub is_disabled: bool,
    pub disabled_reason: Option<Seq<char>>,
}

impl View for TunnelState {
    type V = TunnelStateView;

    open spec fn view(&self) -> TunnelStateView {
        TunnelStateView {
            id: self.id@,
            name: opt_text(self.name),
            display_address: self.display_address@,
            destination: self.destination@,
            protocol: self.protocol,
            port_count: self.port_count,
            local_address: opt_text(self.local_address),
            local_port: self.local_port,
            is_disabled: self.is_disabled,
            disabled_reason: opt_text(self.disabled_reason),
        }
    }
}

impl Default for TunnelState {
    fn default() -> (r: Self)
        ensures
            r@ == TunnelStateView::empty(),
    {
        let r = TunnelState {
            id: String::new(),
            name: None,
            display_address: String::new(),
            destination: String::new(),
            protocol: TunnelProtocol::default(),
            port_count: 0,
            local_address: None,
            local_port: None,
            is_disabled: false,
            disabled_reason: None,
        };
        assert(r@ =~~= TunnelStateView::empty());
        r
    }
}

impl TunnelStateView {
    /// The value whose every field is empty, zero or the default of its type.
    pub open spec fn empty() -> Self {
        TunnelStateView {
            id: Seq::empty(),
            name: None,
            display_address: Seq::empty(),
            destination: Seq::empty(),
            protocol: TunnelProtocol::Tcp,
            port_count: 0,
            local_address: None,
            local_port: None,
            is_disabled: false,
            disabled_reason: None,
        }
    }
}

impl Clone for TunnelState {
    fn clone(&self) -> (r: Self)
        ensures
            r == *self,
    {
        TunnelState {
            id: self.id.clone(),
            name: copy_opt(&self.name),
            display_address: self.display_address.clone(),
            destination: self.destination.clone(),
            protocol: self.protocol,
            port_count: self.port_count,
            local_address: copy_opt(&self.local_address),
            local_port: self.local_port,
            is_disabled: self.is_disabled,
            disabled_reason: copy_opt(&self.disabled_reason),
        }
    }
}

/// A copy of a list of [`TunnelState`].
pub fn copy_tunnel_states(v: &Vec<TunnelState>) -> (r: Vec<TunnelState>)
    ensures
        r@ == v@,
{
    let mut out: Vec<TunnelState> = Vec::new();
    let mut i: usize = 0;
    while i < v.len()
        invariant
            i <= v.len(),
            out@ == v@.take(i as int),
        decreases v.len() - i,
    {
        out.push(v[i].clone());
        i = i + 1;
        assert(out@ == v@.take(i as int));
    }
    assert(v@.take(v@.len() as int) == v@);
    out
}

/// A tunnel that still waits for its public address.
#[derive(Debug)]
pub struct PendingTunnelState {
    pub id: String,
    pub status_msg: String,
}

/// The model of a [`PendingTunnelState`].
#[verifier::ext_equal]
pub struct PendingTunnelStateView {
    pub id: Seq<char>,
    pub status_msg: Seq<char>,
}

impl View for PendingTunnelState {
    type V = PendingTunnelStateView;

    open spec fn view(&self) -> PendingTunnelStateView {
        PendingTunnelStateView {
            id: self.id@,
            status_msg: self.status_msg@,
        }
    }
}

impl Default for PendingTunnelState {
    fn default() -> (r: Self)
        ensures
            r@ == PendingTunnelStateView::empty(),
    {
        let r = PendingTunnelState {
            id: String::new(),
            status_msg: String::new(),
        };
        assert(r@ =~~= PendingTunnelStateView::empty());
        r
    }
}

impl PendingTunnelStateView {
    /// The value whose every field is empty, zero or the default of its type.
    pub open spec fn empty() -> Self {
        PendingTunnelStateView {
            id: Seq::empty(),
            status_msg: Seq::empty(),
        }
    }
}

impl Clone for PendingTunnelState {
    fn clone(&self) -> (r: Self)
        ensures
            r == *self,
    {
        PendingTunnelState {
            id: self.id.clone(),
            status_msg: self.status_msg.clone(),
        }
    }
}

/// A copy of a list of [`PendingTunnelState`].
pub fn copy_pending_tunnel_states(v: &Vec<PendingTunnelState>) -> (r: Vec<PendingTunnelState>)
    ensures
        r@ == v@,
{
    let mut out: Vec<PendingTunnelState> = Vec::new();
    let mut i: usize = 0;
    while i < v.len()
        invariant
            i <= v.len(),
            out@ == v@.take(i as int),
        decreases v.len() - i,
    {
        out.push(v[i].clone());
        i = i + 1;
        assert(out@ == v@.take(i as int));
    }
    assert(v@.take(v@.len() as int) == v@);
    out
}

/// A notice for the account owner.
#[derive(Debug)]
pub struct NoticeState {
    pub priority: String,
    pub message: String,
    pub resolve_link: Option<String>,
}

/// The model of a [`NoticeState`].
#[verifier::ext_equal]
pub struct NoticeStateView {
    pub priority: Seq<char>,
    pub message: Seq<char>,
    pub resolve_link: Option<Seq<char>>,
}

impl View for NoticeState {
    type V = NoticeStateView;

    open spec fn view(&self) -> NoticeStateView {
        NoticeStateView {
            priority: self.priority@,
            message: self.message@,
            resolve_link: opt_text(self.resolve_link),
        }
    }
}

impl Default for NoticeState {
    fn default() -> (r: Self)
        ensures
            r@ == NoticeStateView::empty(),
    {
        let r = NoticeState {
            priority: String::new(),
            message: String::new(),
            resolve_link: None,
        };
        assert(r@ =~~= NoticeStateView::empty());
        r
    }
}

impl NoticeStateView {
    /// The value whose every field is empty, zero or the default of its type.
    pub open spec fn empty() -> Self {
        NoticeStateView {
            priority: Seq::empty(),
            message: Seq::empty(),
            resolve_link: None,
        }
    }
}

impl Clone for NoticeState {
    fn clone(&self) -> (r: Self)
        ensures
            r == *self,
    {
        NoticeState {
            priority: self.priority.clone(),
            message: self.message.clone(),
            resolve_link: copy_opt(&self.resolve_link),
        }
    }
}

/// A copy of a list of [`NoticeState`].
pub fn copy_notice_states(v: &Vec<NoticeState>) -> (r: Vec<NoticeState>)
    ensures
        r@ == v@,
{
    let mut out: Vec<NoticeState> = Vec::new();
    let mut i: usize = 0;
    while i < v.len()
        invariant
            i <= v.len(),
            out@ == v@.take(i as int),
        decreases v.len() - i,
    {
        out.push(v[i].clone());
        i = i + 1;
        assert(out@ == v@.take(i as int));
    }
    assert(v@.take(v@.len() as int) == v@);
    out
}

/// What a running agent knows of its account.
#[derive(Debug)]
pub struct AgentState {
    pub version: String,
    pub tunnels: Vec<TunnelState>,
    pub pending_tunnels: Vec<PendingTunnelState>,
    pub notices: Vec<NoticeState>,
    pub account_status: AccountStatus,
    pub agent_id: String,
    pub login_link: Option<String>,
    pub start_time: u64,
}

/// The model of a [`AgentState`].
#[verifier::ext_equal]
pub struct AgentStateView {
    pub version: Seq<char>,
    pub tunnels: Seq<TunnelStateView>,
    pub pending_tunnels: Seq<PendingTunnelStateView>,
    pub notices: Seq<NoticeStateView>,
    pub account_status: AccountStatus,
    pub agent_id: Seq<char>,
    pub login_link: Option<Seq<char>>,
    pub start_time: u64,
}

impl View for AgentState {
    type V = AgentStateView;

    open spec fn view(&self) -> AgentStateView {
        AgentStateView {
            version: self.version@,
            tunnels: self.tunnels@.map_values(|x: TunnelState| x@),
            pending_tunnels: self.pending_tunnels@.map_values(|x: PendingTunnelState| x@),
            notices: self.notices@.map_values(|x: NoticeState| x@),
            account_status: self.account_status,
            agent_id: self.agent_id@,
            login_link: opt_text(self.login_link),
            start_time: self.start_time,
        }
    }
}

impl Default for AgentState {
    fn default() -> (r: Self)
        ensures
            r@ == AgentStateView::empty(),
    {
        let r = AgentState {
            version: String::new(),
            tunnels: Vec::new(),
            pending_tunnels: Vec::new(),
            notices: Vec::new(),
            account_status: AccountStatus::default(),
            agent_id: String::new(),
            login_link: None,
            start_time: 0,
        };
        assert(r@ =~~= AgentStateView::empty());
        r
    }
}

impl AgentStateView {
    /// The value whose every field is empty, zero or the default of its type.
    pub open spec fn empty() -> Self {
        AgentStateView {
            version: Seq::empty(),
            tunnels: Seq::empty(),
            pending_tunnels: Seq::empty(),
            notices: Seq::empty(),
            account_status: AccountStatus::Unknown,
            agent_id: Seq::empty(),
            login_link: None,
            start_time: 0,
        }
    }
}

impl Clone for AgentState {
    fn clone(&self) -> (r: Self)
        ensures
            r@ == self@,
    {
        let r = AgentState {
            version: self.version.clone(),
            tunnels: copy_tunnel_states(&self.tunnels),
            pending_tunnels: copy_pending_tunnel_states(&self.pending_tunnels),
            notices: copy_notice_states(&self.notices),
            account_status: self.account_status,
            agent_id: self.agent_id.clone(),
            login_link: copy_opt(&self.login_link),
            start_time: self.start_time,
        };
        assert(r@ =~~= self@);
        r
    }
}

/// The life of the agent as its clients see it.
#[derive(Debug)]
pub enum AgentLifecycle {
    WaitingForSecret,
    HasInvalidSecret(ServiceError),
    DisabledOverLimit(ServiceError),
    Starting,
    Running(AgentState),
    Stopping,
    Error(ServiceError),
}

/// The model of an [`AgentLifecycle`].
#[verifier::ext_equal]
pub enum AgentLifecycleView {
    WaitingForSecret,
    HasInvalidSecret(ServiceErrorView),
    DisabledOverLimit(ServiceErrorView),
    Starting,
    Running(AgentStateView),
    Stopping,
    Error(ServiceErrorView),
}

impl View for AgentLifecycle {
    type V = AgentLifecycleView;

    open spec fn view(&self) -> AgentLifecycleView {
        match *self {
            AgentLifecycle::WaitingForSecret => AgentLifecycleView::WaitingForSecret,
            AgentLifecycle::HasInvalidSecret(e) => AgentLifecycleView::HasInvalidSecret(e@),
            AgentLifecycle::DisabledOverLimit(e) => AgentLifecycleView::DisabledOverLimit(e@),
            AgentLifecycle::Starting => AgentLifecycleView::Starting,
            AgentLifecycle::Running(s) => AgentLifecycleView::Running(s@),
            AgentLifecycle::Stopping => AgentLifecycleView::Stopping,
            AgentLifecycle::Error(e) => AgentLifecycleView::Error(e@),
        }
    }
}

impl Default for AgentLifecycle {
    fn default() -> (r: Self)
        ensures
            r == AgentLifecycle::Starting,
    {
        AgentLifecycle::Starting
    }
}

impl Clone for AgentLifecycle {
    fn clone(&self) -> (r: Self)
        ensures
            r@ == self@,
    {
        match self {
            AgentLifecycle::WaitingForSecret => AgentLifecycle::WaitingForSecret,
            AgentLifecycle::HasInvalidSecret(e) => AgentLifecycle::HasInvalidSecret(e.clone()),
            AgentLifecycle::DisabledOverLimit(e) => AgentLifecycle::DisabledOverLimit(e.clone()),
            AgentLifecycle::Starting => AgentLifecycle::Starting,
            AgentLifecycle::Running(s) => AgentLifecycle::Running(s.clone()),
            AgentLifecycle::Stopping => AgentLifecycle::Stopping,
            AgentLifecycle::Error(e) => AgentLifecycle::Error(e.clone()),
        }
    }
}

/// Traffic counters of the running agent.
#[derive(Clone, Copy, Debug, PartialEq, Eq, Structural)]
pub struct ConnectionStats {
    pub bytes_in: u64,
    pub bytes_out: u64,
    pub active_tcp: u32,
    pub active_udp: u32,
}

impl Default for ConnectionStats {
    fn default() -> (r: Self)
        ensures
            r == (ConnectionStats { bytes_in: 0, bytes_out: 0, active_tcp: 0, active_udp: 0 }),
    {
        ConnectionStats { bytes_in: 0, bytes_out: 0, active_tcp: 0, active_udp: 0 }
    }
}

/// The status of the service process.
#[derive(Debug)]
pub struct ServiceStatus {
    pub phase: ServicePhase,
    pub pid: u32,
    pub uptime_secs: u64,
    pub version: String,
    pub socket_path: String,
    pub secret_path: Option<String>,
    pub has_secret: bool,
    pub protocol: ProtocolInfo,
    pub last_error: Option<ServiceError>,
}

/// The model of a [`ServiceStatus`].
#[verifier::ext_equal]
pub struct ServiceStatusView {
    pub phase: ServicePhase,
    pub pid: u32,
    pub uptime_secs: u64,
    pub version: Seq<char>,
    pub socket_path: Seq<char>,
    pub secret_path: Option<Seq<char>>,
    pub has_secret: bool,
    pub protocol: ProtocolInfoView,
    pub last_error: Option<ServiceErrorView>,
}

impl View for ServiceStatus {
    type V = ServiceStatusView;

    open spec fn view(&self) -> ServiceStatusView {
        ServiceStatusView {
            phase: self.phase,
            pid: self.pid,
            uptime_secs: self.uptime_secs,
            version: self.version@,
            socket_path: self.socket_path@,
            secret_path: opt_text(self.secret_path),
            has_secret: self.has_secret,
            protocol: self.protocol@,
            last_error: match self.last_error {
                Some(x) => Some(x@),
                None => None,
            },
        }
    }
}

impl Default for ServiceStatus {
    fn default() -> (r: Self)
        ensures
            r@ == ServiceStatusView::empty(),
    {
        let r = ServiceStatus {
            phase: ServicePhase::default(),
            pid: 0,
            uptime_secs: 0,
            version: String::new(),
            socket_path: String::new(),
            secret_path: None,
            has_secret: false,
            protocol: ProtocolInfo::default(),
            last_error: None,
        };
        assert(r@ =~~= ServiceStatusView::empty());
        r
    }
}

impl ServiceStatusView {
    /// The value whose every field is empty, zero or the default of its type.
    pub open spec fn empty() -> Self {
        ServiceStatusView {
            phase: ServicePhase::Starting,
            pid: 0,
            uptime_secs: 0,
            version: Seq::empty(),
            socket_path: Seq::empty(),
            secret_path: None,
            has_secret: false,
            protocol: ProtocolInfoView::empty(),
            last_error: None,
        }
    }
}

impl Clone for ServiceStatus {
    fn clone(&self) -> (r: Self)
        ensures
            r@ == self@,
    {
        let r = ServiceStatus {
            phase: self.phase,
            pid: self.pid,
            uptime_secs: self.uptime_secs,
            version: self.version.clone(),
            socket_path: self.socket_path.clone(),
            secret_path: copy_opt(&self.secret_path),
            has_secret: self.has_secret,
            protocol: self.protocol.clone(),
            last_error: match &self.last_error {
                Some(x) => Some(x.clone()),
                None => None,
            },
        };
        assert(r@ =~~= self@);
        r
    }
}

/// A log line.
#[derive(Debug)]
pub struct LogEntry {
    pub level: LogLevel,
    pub target: String,
    pub message: String,
    pub timestamp: u64,
}

/// The model of a [`LogEntry`].
#[verifier::ext_equal]
pub struct LogEntryView {
    pub level: LogLevel,
    pub target: Seq<char>,
    pub message: Seq<char>,
    pub timestamp: u64,
}

impl View for LogEntry {
    type V = LogEntryView;

    open spec fn view(&self) -> LogEntryView {
        LogEntryView {
            level: self.level,
            target: self.target@,
            message: self.message@,
            timestamp: self.timestamp,
        }
    }
}

impl Default for LogEntry {
    fn default() -> (r: Self)
        ensures
            r@ == LogEntryView::empty(),
    {
        let r = LogEntry {
            level: LogLevel::default(),
            target: String::new(),
            message: String::new(),
            timestamp: 0,
        };
        assert(r@ =~~= LogEntryView::empty());
        r
    }
}

impl LogEntryView {
    /// The value whose every field is empty, zero or the default of its type.
    pub open spec fn empty() -> Self {
        LogEntryView {
            level: LogLevel::Info,
            target: Seq::empty(),
            message: Seq::empty(),
            timestamp: 0,
        }
    }
}

impl Clone for LogEntry {
    fn clone(&self) -> (r: Self)
        ensures
            r == *self,
    {
        LogEntry {
            level: self.level,
            target: self.target.clone(),
            message: self.message.clone(),
            timestamp: self.timestamp,
        }
    }
}

/// The state that a new subscriber starts from.
#[derive(Debug)]
pub struct SubscriptionSnapshot {
    pub status: ServiceStatus,
    pub lifecycle: AgentLifecycle,
    pub stats: ConnectionStats,
}

/// The model of a [`SubscriptionSnapshot`].
#[verifier::ext_equal]
pub struct SubscriptionSnapshotView {
    pub status: ServiceStatusView,
    pub lifecycle: AgentLifecycleView,
    pub stats: ConnectionStats,
}

impl View for SubscriptionSnapshot {
    type V = SubscriptionSnapshotView;

    open spec fn view(&self) -> SubscriptionSnapshotView {
        SubscriptionSnapshotView {
            status: self.status@,
            lifecycle: self.lifecycle@,
            stats: self.stats,
        }
    }
}

impl SubscriptionSnapshotView {
    /// The snapshot of a service that starts.
    pub open spec fn empty() -> Self {
        SubscriptionSnapshotView {
            status: ServiceStatusView::empty(),
            lifecycle: AgentLifecycleView::Starting,
            stats: ConnectionStats { bytes_in: 0, bytes_out: 0, active_tcp: 0, active_udp: 0 },
        }
    }
}

impl Default for SubscriptionSnapshot {
    fn default() -> (r: Self)
        ensures
            r@ == SubscriptionSnapshotView::empty(),
    {
        SubscriptionSnapshot {
            status: ServiceStatus::default(),
            lifecycle: AgentLifecycle::default(),
            stats: ConnectionStats::default(),
        }
    }
}

/// One change that the service tells its subscribers.
#[derive(Debug)]
pub enum ServiceUpdate {
    Status(ServiceStatus),
    Lifecycle(AgentLifecycle),
    Stats(ConnectionStats),
    Log(LogEntry),
}

/// The model of a [`ServiceUpdate`].
#[verifier::ext_equal]
pub enum ServiceUpdateView {
    Status(ServiceStatusView),
    Lifecycle(AgentLifecycleView),
    Stats(ConnectionStats),
    Log(LogEntryView),
}

impl View for ServiceUpdate {
    type V = ServiceUpdateView;

    open spec fn view(&self) -> ServiceUpdateView {
        match *self {
            ServiceUpdate::Status(s) => ServiceUpdateView::Status(s@),
            ServiceUpdate::Lifecycle(l) => ServiceUpdateView::Lifecycle(l@),
            ServiceUpdate::Stats(s) => ServiceUpdateView::Stats(s),
            ServiceUpdate::Log(l) => ServiceUpdateView::Log(l@),
        }
    }
}

/// The answer to a command.
#[derive(Debug)]
pub struct CommandResponse {
    pub accepted: bool,
    pub message: Option<String>,
}

/// The model of a [`CommandResponse`].
#[verifier::ext_equal]
pub struct CommandResponseView {
    pub accepted: bool,
    pub message: Option<Seq<char>>,
}

impl View for CommandResponse {
    type V = CommandResponseView;

    open spec fn view(&self) -> CommandResponseView {
        CommandResponseView {
            accepted: self.accepted,
            message: opt_text(self.message),
        }
    }
}

impl Default for CommandResponse {
    fn default() -> (r: Self)
        ensures
            r@ == CommandResponseView::empty(),
    {
        let r = CommandResponse {
            accepted: false,
            message: None,
        };
        assert(r@ =~~= CommandResponseView::empty());
        r
    }
}

impl CommandResponseView {
    /// The value whose every field is empty, zero or the default of its type.
    pub open spec fn empty() -> Self {
        CommandResponseView {
            accepted: false,
            message: None,
        }
    }
}

impl Clone for CommandResponse {
    fn clone(&self) -> (r: Self)
        ensures
            r == *self,
    {
        CommandResponse {
            accepted: self.accepted,
            message: copy_opt(&self.message),
        }
    }
}

/// Where the secret is stored.
#[derive(Debug)]
pub struct SecretPathResponse {
    pub secret_path: Option<String>,
}

/// The model of a [`SecretPathResponse`].
#[verifier::ext_equal]
pub struct SecretPathResponseView {
    pub secret_path: Option<Seq<char>>,
}

impl View for SecretPathResponse {
    type V = SecretPathResponseView;

    open spec fn view(&self) -> SecretPathResponseView {
        SecretPathResponseView {
            secret_path: opt_text(self.secret_path),
        }
    }
}

impl Default for SecretPathResponse {
    fn default() -> (r: Self)
        ensures
            r@ == SecretPathResponseView::empty(),
    {
        let r = SecretPathResponse {
            secret_path: None,
        };
        assert(r@ =~~= SecretPathResponseView::empty());
        r
    }
}

impl SecretPathResponseView {
    /// The value whose every field is empty, zero or the default of its type.
    pub open spec fn empty() -> Self {
        SecretPathResponseView {
            secret_path: None,
        }
    }
}

impl Clone for SecretPathResponse {
    fn clone(&self) -> (r: Self)
        ensures
            r == *self,
    {
        SecretPathResponse {
            secret_path: copy_opt(&self.secret_path),
        }
    }
}

/// A link that signs the account owner in.
#[derive(Debug)]
pub struct AccountLoginUrlResponse {
    pub login_url: String,
}

/// The model of a [`AccountLoginUrlResponse`].
#[verifier::ext_equal]
pub struct AccountLoginUrlResponseView {
    pub login_url: Seq<char>,
}

impl View for AccountLoginUrlResponse {
    type V = AccountLoginUrlResponseView;

    open spec fn view(&self) -> AccountLoginUrlResponseView {
        AccountLoginUrlResponseView {
            login_url: self.login_url@,
        }
    }
}

impl Default for AccountLoginUrlResponse {
    fn default() -> (r: Self)
        ensures
            r@ == AccountLoginUrlResponseView::empty(),
    {
        let r = AccountLoginUrlResponse {
            login_url: String::new(),
        };
        assert(r@ =~~= AccountLoginUrlResponseView::empty());
        r
    }
}

impl AccountLoginUrlResponseView {
    /// The value whose every field is empty, zero or the default of its type.
    pub open spec fn empty() -> Self {
        AccountLoginUrlResponseView {
            login_url: Seq::empty(),
        }
    }
}

impl Clone for AccountLoginUrlResponse {
    fn clone(&self) -> (r: Self)
        ensures
            r == *self,
    {
        AccountLoginUrlResponse {
            login_url: self.login_url.clone(),
        }
    }
}

/// The answer to a subscription.
#[derive(Debug)]
pub struct SubscribeResponse {
    pub protocol: ProtocolInfo,
    pub snapshot: SubscriptionSnapshot,
}

/// The model of a [`SubscribeResponse`].
#[verifier::ext_equal]
pub struct SubscribeResponseView {
    pub protocol: ProtocolInfoView,
    pub snapshot: SubscriptionSnapshotView,
}

impl View for SubscribeResponse {
    type V = SubscribeResponseView;

    open spec fn view(&self) -> SubscribeResponseView {
        SubscribeResponseView { protocol: self.protocol@, snapshot: self.snapshot@ }
    }
}

impl SubscribeResponseView {
    /// The value whose every field is the default of its type.
    pub open spec fn empty() -> Self {
        SubscribeResponseView {
            protocol: ProtocolInfoView::empty(),
            snapshot: SubscriptionSnapshotView::empty(),
        }
    }
}

impl Default for SubscribeResponse {
    fn default() -> (r: Self)
        ensures
            r@ == SubscribeResponseView::empty(),
    {
        SubscribeResponse {
            protocol: ProtocolInfo::default(),
            snapshot: SubscriptionSnapshot::default(),
        }
    }
}

/// The tunnels of the running agent.
#[derive(Debug)]
pub struct TunnelListResponse {
    pub tunnels: Vec<TunnelState>,
    pub pending_tunnels: Vec<PendingTunnelState>,
}

/// The model of a [`TunnelListResponse`].
#[verifier::ext_equal]
pub struct TunnelListResponseView {
    pub tunnels: Seq<TunnelStateView>,
    pub pending_tunnels: Seq<PendingTunnelStateView>,
}

impl View for TunnelListResponse {
    type V = TunnelListResponseView;

    open spec fn view(&self) -> TunnelListResponseView {
        TunnelListResponseView {
            tunnels: self.tunnels@.map_values(|x: TunnelState| x@),
            pending_tunnels: self.pending_tunnels@.map_values(|x: PendingTunnelState| x@),
        }
    }
}

impl Default for TunnelListResponse {
    fn default() -> (r: Self)
        ensures
            r@ == TunnelListResponseView::empty(),
    {
        let r = TunnelListResponse {
            tunnels: Vec::new(),
            pending_tunnels: Vec::new(),
        };
        assert(r@ =~~= TunnelListResponseView::empty());
        r
    }
}

impl TunnelListResponseView {
    /// The value whose every field is empty, zero or the default of its type.
    pub open spec fn empty() -> Self {
        TunnelListResponseView {
            tunnels: Seq::empty(),
            pending_tunnels: Seq::empty(),
        }
    }
}

/// A tunnel of the account, served by this agent, by another or by none.
#[derive(Debug)]
pub struct AccountTunnelState {
    pub id: String,
    pub name: Option<String>,
    pub display_address: String,
    pub destination: String,
    pub protocol: TunnelProtocol,
    pub tunnel_type: Option<String>,
    pub local_address: Option<String>,
    pub local_port: Option<u16>,
    pub agent_id: Option<String>,
    pub is_disabled: bool,
    pub disabled_reason: Option<String>,
}

/// The model of a [`AccountTunnelState`].
#[verifier::ext_equal]
pub struct AccountTunnelStateView {
    pub id: Seq<char>,
    pub name: Option<Seq<char>>,
    pub display_address: Seq<char>,
    pub destination: Seq<char>,
    pub protocol: TunnelProtocol,
    pub tunnel_type: Option<Seq<char>>,
    pub local_address: Option<Seq<char>>,
    pub local_port: Option<u16>,
    pub agent_id: Option<Seq<char>>,
    pub is_disabled: bool,
    pub disabled_reason: Option<Seq<char>>,
}

impl View for AccountTunnelState {
    type V = AccountTunnelStateView;

    open spec fn view(&self) -> AccountTunnelStateView {
        AccountTunnelStateView {
            id: self.id@,
            name: opt_text(self.name),
            display_address: self.display_address@,
            destination: self.destination@,
            protocol: self.protocol,
            tunnel_type: opt_text(self.tunnel_type),
            local_address: opt_text(self.local_address),
            local_port: self.local_port,
            agent_id: opt_text(self.agent_id),
            is_disabled: self.is_disabled,
            disabled_reason: opt_text(self.disabled_reason),
        }
    }
}

impl Default for AccountTunnelState {
    fn default() -> (r: Self)
        ensures
            r@ == AccountTunnelStateView::empty(),
    {
        let r = AccountTunnelState {
            id: String::new(),
            name: None,
            display_address: String::new(),
            destination: String::new(),
            protocol: TunnelProtocol::default(),
            tunnel_type: None,
            local_address: None,
            local_port: None,
            agent_id: None,
            is_disabled: false,
            disabled_reason: None,
        };
        assert(r@ =~~= AccountTunnelStateView::empty());
        r
    }
}

impl AccountTunnelStateView {
    /// The value whose every field is empty, zero or the default of its type.
    pub open spec fn empty() -> Self {
        AccountTunnelStateView {
            id: Seq::empty(),
            name: None,
            display_address: Seq::empty(),
            destination: Seq::empty(),
            protocol: TunnelProtocol::Tcp,
            tunnel_type: None,
            local_address: None,
            local_port: None,
            agent_id: None,
            is_disabled: false,
            disabled_reason: None,
        }
    }
}

impl Clone for AccountTunnelState {
    fn clone(&self) -> (r: Self)
        ensures
            r == *self,
    {
        AccountTunnelState {
            id: self.id.clone(),
            name: copy_opt(&self.name),
            display_address: self.display_address.clone(),
            destination: self.destination.clone(),
            protocol: self.protocol,
            tunnel_type: copy_opt(&self.tunnel_type),
            local_address: copy_opt(&self.local_address),
            local_port: self.local_port,
            agent_id: copy_opt(&self.agent_id),
            is_disabled: self.is_disabled,
            disabled_reason: copy_opt(&self.disabled_reason),
        }
    }
}

/// The tunnels of the whole account.
#[derive(Debug)]
pub struct AccountTunnelListResponse {
    pub tunnels: Vec<AccountTunnelState>,
}

/// The model of a [`AccountTunnelListResponse`].
#[verifier::ext_equal]
pub struct AccountTunnelListResponseView {
    pub tunnels: Seq<AccountTunnelStateView>,
}

impl View for AccountTunnelListResponse {
    type V = AccountTunnelListResponseView;

    open spec fn view(&self) -> AccountTunnelListResponseView {
        AccountTunnelListResponseView {
            tunnels: self.tunnels@.map_values(|x: AccountTunnelState| x@),
        }
    }
}

impl Default for AccountTunnelListResponse {
    fn default() -> (r: Self)
        ensures
            r@ == AccountTunnelListResponseView::empty(),
    {
        let r = AccountTunnelListResponse {
            tunnels: Vec::new(),
        };
        assert(r@ =~~= AccountTunnelListResponseView::empty());
        r
    }
}

impl AccountTunnelListResponseView {
    /// The value whose every field is empty, zero or the default of its type.
    pub open spec fn empty() -> Self {
        AccountTunnelListResponseView {
            tunnels: Seq::empty(),
        }
    }
}

/// A tunnel that was asked for.
#[derive(Debug)]
pub struct TunnelCreateResponse {
    pub tunnel_id: String,
    pub message: Option<String>,
}

/// The model of a [`TunnelCreateResponse`].
#[verifier::ext_equal]
pub struct TunnelCreateResponseView {
    pub tunnel_id: Seq<char>,
    pub message: Option<Seq<char>>,
}

impl View for TunnelCreateResponse {
    type V = TunnelCreateResponseView;

    open spec fn view(&self) -> TunnelCreateResponseView {
        TunnelCreateResponseView {
            tunnel_id: self.tunnel_id@,
            message: opt_text(self.message),
        }
    }
}

impl Default for TunnelCreateResponse {
    fn default() -> (r: Self)
        ensures
            r@ == TunnelCreateResponseView::empty(),
    {
        let r = TunnelCreateResponse {
            tunnel_id: String::new(),
            message: None,
        };
        assert(r@ =~~= TunnelCreateResponseView::empty());
        r
    }
}

impl TunnelCreateResponseView {
    /// The value whose every field is empty, zero or the default of its type.
    pub open spec fn empty() -> Self {
        TunnelCreateResponseView {
            tunnel_id: Seq::empty(),
            message: None,
        }
    }
}

impl Clone for TunnelCreateResponse {
    fn clone(&self) -> (r: Self)
        ensures
            r == *self,
    {
        TunnelCreateResponse {
            tunnel_id: self.tunnel_id.clone(),
            message: copy_opt(&self.message),
        }
    }
}

/// What the service tells of the account.
#[derive(Debug)]
pub struct AccountResponse {
    pub status: AccountStatus,
    pub agent_id: Option<String>,
    pub login_link: Option<String>,
    pub claim_url: Option<String>,
}

/// The model of a [`AccountResponse`].
#[verifier::ext_equal]
pub struct AccountResponseView {
    pub status: AccountStatus,
    pub agent_id: Option<Seq<char>>,
    pub login_link: Option<Seq<char>>,
    pub claim_url: Option<Seq<char>>,
}

impl View for AccountResponse {
    type V = AccountResponseView;

    open spec fn view(&self) -> AccountResponseView {
        AccountResponseView {
            status: self.status,
            agent_id: opt_text(self.agent_id),
            login_link: opt_text(self.login_link),
            claim_url: opt_text(self.claim_url),
        }
    }
}

impl Default for AccountResponse {
    fn default() -> (r: Self)
        ensures
            r@ == AccountResponseView::empty(),
    {
        let r = AccountResponse {
            status: AccountStatus::default(),
            agent_id: None,
            login_link: None,
            claim_url: None,
        };
        assert(r@ =~~= AccountResponseView::empty());
        r
    }
}

impl AccountResponseView {
    /// The value whose every field is empty, zero or the default of its type.
    pub open spec fn empty() -> Self {
        AccountResponseView {
            status: AccountStatus::Unknown,
            agent_id: None,
            login_link: None,
            claim_url: None,
        }
    }
}

impl Clone for AccountResponse {
    fn clone(&self) -> (r: Self)
        ensures
            r == *self,
    {
        AccountResponse {
            status: self.status,
            agent_id: copy_opt(&self.agent_id),
            login_link: copy_opt(&self.login_link),
            claim_url: copy_opt(&self.claim_url),
        }
    }
}

/// The page on which the account owner claims the agent.
#[derive(Debug)]
pub struct ClaimResponse {
    pub claim_url: String,
}

/// The model of a [`ClaimResponse`].
#[verifier::ext_equal]
pub struct ClaimResponseView {
    pub claim_url: Seq<char>,
}

impl View for ClaimResponse {
    type V = ClaimResponseView;

    open spec fn view(&self) -> ClaimResponseView {
        ClaimResponseView {
            claim_url: self.claim_url@,
        }
    }
}

impl Default for ClaimResponse {
    fn default() -> (r: Self)
        ensures
            r@ == ClaimResponseView::empty(),
    {
        let r = ClaimResponse {
            claim_url: String::new(),
        };
        assert(r@ =~~= ClaimResponseView::empty());
        r
    }
}

impl ClaimResponseView {
    /// The value whose every field is empty, zero or the default of its type.
    pub open spec fn empty() -> Self {
        ClaimResponseView {
            claim_url: Seq::empty(),
        }
    }
}

impl Clone for ClaimResponse {
    fn clone(&self) -> (r: Self)
        ensures
            r == *self,
    {
        ClaimResponse {
            claim_url: self.claim_url.clone(),
        }
    }
}

/// Each status of an account has the name that clients know it by.
pub proof fn account_statuses_have_names(status: AccountStatus)
    ensures
        status is Unknown ==> status.wire() == "unknown"@,
        status is Guest ==> status.wire() == "guest"@,
        status is EmailNotVerified ==> status.wire() == "email_not_verified"@,
        status is Verified ==> status.wire() == "verified"@,
{
}

/// Each level of the log has the name that clients know it by.
pub proof fn log_levels_have_names(level: LogLevel)
    ensures
        level is Trace ==> level.wire() == "trace"@,
        level is Debug ==> level.wire() == "debug"@,
        level is Info ==> level.wire() == "info"@,
        level is Warn ==> level.wire() == "warn"@,
        level is Error ==> level.wire() == "error"@,
{
}

/// Each phase of the service has the name that clients know it by.
pub proof fn phases_have_names(phase: ServicePhase)
    ensures
        phase is WaitingForSecret ==> phase.wire() == "waiting_for_secret"@,
        phase is HasInvalidSecret ==> phase.wire() == "has_invalid_secret"@,
        phase is DisabledOverLimit ==> phase.wire() == "disabled_over_limit"@,
        phase is Starting ==> phase.wire() == "starting"@,
        phase is Reconnecting ==> phase.wire() == "reconnecting"@,
        phase is Running ==> phase.wire() == "running"@,
        phase is Stopping ==> phase.wire() == "stopping"@,
        phase is Error ==> phase.wire() == "error"@,
{
}

/// Each error code has the name that clients know it by.
pub proof fn error_codes_have_names(code: ServiceErrorCode)
    ensures
        code is Internal ==> code.wire() == "internal"@,
        code is UnsupportedProtocol ==> code.wire() == "unsupported_protocol"@,
        code is InvalidRequest ==> code.wire() == "invalid_request"@,
        code is InvalidRequestType ==> code.wire() == "invalid_request_type"@,
        code is AgentDisabledOverLimit ==> code.wire() == "agent_disabled_over_limit"@,
        code is InvalidSecret ==> code.wire() == "invalid_secret"@,
        code is SecretPinned ==> code.wire() == "secret_pinned"@,
        code is ProvisioningUnavailable ==> code.wire() == "provisioning_unavailable"@,
        code is SecretWriteFailed ==> code.wire() == "secret_write_failed"@,
        code is ApiUnavailable ==> code.wire() == "api_unavailable"@,
        code is InvalidTunnelRequest ==> code.wire() == "invalid_tunnel_request"@,
        code is TunnelNotFound ==> code.wire() == "tunnel_not_found"@,
        code is ApiRejected ==> code.wire() == "api_rejected"@,
        code is PermissionDenied ==> code.wire() == "permission_denied"@,
{
}

/// Each error code has a name in messages.
pub proof fn error_codes_are_shown_by_name(code: ServiceErrorCode)
    ensures
        code is Internal ==> code.shown() == "Internal"@,
        code is UnsupportedProtocol ==> code.shown() == "UnsupportedProtocol"@,
        code is InvalidRequest ==> code.shown() == "InvalidRequest"@,
        code is InvalidRequestType ==> code.shown() == "InvalidRequestType"@,
        code is AgentDisabledOverLimit ==> code.shown() == "AgentDisabledOverLimit"@,
        code is InvalidSecret ==> code.shown() == "InvalidSecret"@,
        code is SecretPinned ==> code.shown() == "SecretPinned"@,
        code is ProvisioningUnavailable ==> code.shown() == "ProvisioningUnavailable"@,
        code is SecretWriteFailed ==> code.shown() == "SecretWriteFailed"@,
        code is ApiUnavailable ==> code.shown() == "ApiUnavailable"@,
        code is InvalidTunnelRequest ==> code.shown() == "InvalidTunnelRequest"@,
        code is TunnelNotFound ==> code.shown() == "TunnelNotFound"@,
        code is ApiRejected ==> code.shown() == "ApiRejected"@,
        code is PermissionDenied ==> code.shown() == "PermissionDenied"@,
{
}

/// Each protocol of a tunnel has the name that clients know it by.
pub proof fn tunnel_protocols_have_names(protocol: TunnelProtocol)
    ensures
        protocol is Tcp ==> protocol.wire() == "tcp"@,
        protocol is Udp ==> protocol.wire() == "udp"@,
        protocol is Both ==> protocol.wire() == "both"@,
{
}

/// An error says what its fields hold, each under its own name.
pub proof fn errors_say_what_they_hold(error: ServiceError)
    ensures
        error@.code == error.code,
        error@.message == error.message@,
        error@.retryable == error.retryable,
        error@.details == opt_text(error.details),
{
}

/// A tunnel says what its fields hold: its public address is not its local one.
pub proof fn tunnels_say_what_they_hold(tunnel: TunnelState)
    ensures
        tunnel@.id == tunnel.id@,
        tunnel@.name == opt_text(tunnel.name),
        tunnel@.display_address == tunnel.display_address@,
        tunnel@.destination == tunnel.destination@,
        tunnel@.protocol == tunnel.protocol,
        tunnel@.port_count == tunnel.port_count,
        tunnel@.local_address == opt_text(tunnel.local_address),
        tunnel@.local_port == tunnel.local_port,
        tunnel@.is_disabled == tunnel.is_disabled,
        tunnel@.disabled_reason == opt_text(tunnel.disabled_reason),
{
}

/// A tunnel without an address yet says what its fields hold.
pub proof fn pending_tunnels_say_what_they_hold(tunnel: PendingTunnelState)
    ensures
        tunnel@.id == tunnel.id@,
        tunnel@.status_msg == tunnel.status_msg@,
{
}

/// A notice says what its fields hold.
pub proof fn notices_say_what_they_hold(notice: NoticeState)
    ensures
        notice@.priority == notice.priority@,
        notice@.message == notice.message@,
        notice@.resolve_link == opt_text(notice.resolve_link),
{
}

/// The state of an agent says what its fields hold.
pub proof fn states_say_what_they_hold(state: AgentState)
    ensures
        state@.version == state.version@,
        state@.tunnels == state.tunnels@.map_values(|x: TunnelState| x@),
        state@.pending_tunnels == state.pending_tunnels@.map_values(|x: PendingTunnelState| x@),
        state@.notices == state.notices@.map_values(|x: NoticeState| x@),
        state@.account_status == state.account_status,
        state@.agent_id == state.agent_id@,
        state@.login_link == opt_text(state.login_link),
        state@.start_time == state.start_time,
{
}

/// A lifecycle is told as what it is.
pub proof fn lifecycles_say_what_they_are(lifecycle: AgentLifecycle)
    ensures
        lifecycle is WaitingForSecret ==> lifecycle@ == AgentLifecycleView::WaitingForSecret,
        lifecycle matches AgentLifecycle::HasInvalidSecret(e)
            ==> lifecycle@ == AgentLifecycleView::HasInvalidSecret(e@),
        lifecycle matches AgentLifecycle::DisabledOverLimit(e)
            ==> lifecycle@ == AgentLifecycleView::DisabledOverLimit(e@),
        lifecycle is Starting ==> lifecycle@ == AgentLifecycleView::Starting,
        lifecycle matches AgentLifecycle::Running(s)
            ==> lifecycle@ == AgentLifecycleView::Running(s@),
        lifecycle is Stopping ==> lifecycle@ == AgentLifecycleView::Stopping,
        lifecycle matches AgentLifecycle::Error(e) ==> lifecycle@ == AgentLifecycleView::Error(e@),
{
}

/// A status says what its fields hold.
pub proof fn statuses_say_what_they_hold(status: ServiceStatus)
    ensures
        status@.phase == status.phase,
        status@.pid == status.pid,
        status@.uptime_secs == status.uptime_secs,
        status@.version == status.version@,
        status@.socket_path == status.socket_path@,
        status@.secret_path == opt_text(status.secret_path),
        status@.has_secret == status.has_secret,
        status@.protocol == status.protocol@,
        status@.last_error == match status.last_error { Some(x) => Some(x@), None => None, },
{
}

/// A snapshot says what its fields hold.
pub proof fn snapshots_say_what_they_hold(snapshot: SubscriptionSnapshot)
    ensures
        snapshot@.status == snapshot.status@,
        snapshot@.lifecycle == snapshot.lifecycle@,
        snapshot@.stats == snapshot.stats,
{
}

/// A change is told as what it is.
pub proof fn updates_say_what_they_are(update: ServiceUpdate)
    ensures
        update matches ServiceUpdate::Status(s) ==> update@ == ServiceUpdateView::Status(s@),
        update matches ServiceUpdate::Lifecycle(l) ==> update@ == ServiceUpdateView::Lifecycle(l@),
        update matches ServiceUpdate::Stats(s) ==> update@ == ServiceUpdateView::Stats(s),
        update matches ServiceUpdate::Log(l) ==> update@ == ServiceUpdateView::Log(l@),
{
}

/// The answer to a command says what its fields hold.
pub proof fn command_answers_say_what_they_hold(answer: CommandResponse)
    ensures
        answer@.accepted == answer.accepted,
        answer@.message == opt_text(answer.message),
{
}

/// The answer about the secret file says what its field holds.
pub proof fn secret_paths_say_what_they_hold(answer: SecretPathResponse)
    ensures
        answer@.secret_path == opt_text(answer.secret_path),
{
}

/// The answer with a login link says what its field holds.
pub proof fn login_links_say_what_they_hold(answer: AccountLoginUrlResponse)
    ensures
        answer@.login_url == answer.login_url@,
{
}

/// A list of tunnels says what its fields hold.
pub proof fn tunnel_lists_say_what_they_hold(list: TunnelListResponse)
    ensures
        list@.tunnels == list.tunnels@.map_values(|x: TunnelState| x@),
        list@.pending_tunnels == list.pending_tunnels@.map_values(|x: PendingTunnelState| x@),
{
}

/// The answer about a new tunnel says what its fields hold.
pub proof fn created_tunnels_say_what_they_hold(answer: TunnelCreateResponse)
    ensures
        answer@.tunnel_id == answer.tunnel_id@,
        answer@.message == opt_text(answer.message),
{
}

/// The answer about the account says what its fields hold.
pub proof fn account_answers_say_what_they_hold(answer: AccountResponse)
    ensures
        answer@.status == answer.status,
        answer@.agent_id == opt_text(answer.agent_id),
        answer@.login_link == opt_text(answer.login_link),
        answer@.claim_url == opt_text(answer.claim_url),
{
}

/// The answer about a claim says what its field holds.
pub proof fn claim_answers_say_what_they_hold(answer: ClaimResponse)
    ensures
        answer@.claim_url == answer.claim_url@,
{
}

} // verus!
