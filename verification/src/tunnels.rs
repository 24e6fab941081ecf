//! Tunnel operations: requests, and the errors that callers get.

use vstd::prelude::*;

use crate::api::{
    AccountTunnelOriginCreate, AgentOrigin, AgentTunnelAttr, ApiError, ApiResponseError,
    ApiResponseErrorView, CreateTunnelEndpoint, DeleteError, PlayitNetwork, PortType,
    ReqTunnelsCreateV1, ReqTunnelsCreateV1View, TunnelCreateErrorV1, TunnelProtocolRawPorts,
    TunnelProtocolV1, TunnelProtocolV1View, TunnelType,
};
use crate::error::{plain_error, ErrorArea, RuntimeError, RuntimeErrorView};
use crate::http_client::{HttpClientError, HttpClientErrorView};
use crate::model::{
    AgentLifecycle, AgentLifecycleView, ServiceErrorCode, ServiceErrorView, TunnelListResponse,
    TunnelListResponseView, TunnelProtocol,
};
use crate::outside::{http_status_text, parse_uuid, status_text, uuid_parse};
use crate::text::{
    decimal, decimal_text, join2, join3, opt_text, owned, trim, trimmed, trimmed_end, trimmed_start,
};

verus! {

// ---------------------------------------------------------------------------
// Errors of a request that does not fit the agent's state
// ---------------------------------------------------------------------------

pub open spec fn invalid_error(
    code: ServiceErrorCode,
    message: Seq<char>,
    retryable: bool,
) -> RuntimeErrorView {
    RuntimeErrorView::Failure(ErrorArea::InvalidState, plain_error(code, message, retryable))
}

pub open spec fn api_error(
    code: ServiceErrorCode,
    message: Seq<char>,
    retryable: bool,
) -> RuntimeErrorView {
    RuntimeErrorView::Failure(ErrorArea::Api, plain_error(code, message, retryable))
}

impl AgentLifecycleView {
    /// The name of the state.
    pub open spec fn name(self) -> Seq<char> {
        match self {
            AgentLifecycleView::WaitingForSecret => "waiting_for_secret"@,
            AgentLifecycleView::HasInvalidSecret(_) => "has_invalid_secret"@,
            AgentLifecycleView::DisabledOverLimit(_) => "disabled_over_limit"@,
            AgentLifecycleView::Starting => "starting"@,
            AgentLifecycleView::Running(_) => "running"@,
            AgentLifecycleView::Stopping => "stopping"@,
            AgentLifecycleView::Error(_) => "error"@,
        }
    }
}

/// The name of an agent's state.
pub fn lifecycle_name(lifecycle: &AgentLifecycle) -> (r: &'static str)
    ensures
        r@ == lifecycle@.name(),
{
    match lifecycle {
        AgentLifecycle::WaitingForSecret => "waiting_for_secret",
        AgentLifecycle::HasInvalidSecret(_) => "has_invalid_secret",
        AgentLifecycle::DisabledOverLimit(_) => "disabled_over_limit",
        AgentLifecycle::Starting => "starting",
        AgentLifecycle::Running(_) => "running",
        AgentLifecycle::Stopping => "stopping",
        AgentLifecycle::Error(_) => "error",
    }
}

/// Why an operation that needs a running agent is refused in another state.
pub open spec fn not_ready(operation: Seq<char>, lifecycle: AgentLifecycleView) -> RuntimeErrorView {
    match lifecycle {
        AgentLifecycleView::WaitingForSecret => invalid_error(
            ServiceErrorCode::ProvisioningUnavailable,
            "Cannot "@ + operation + " while the service is waiting for an agent secret."@,
            true,
        ),
        AgentLifecycleView::HasInvalidSecret(error) => invalid_error(
            ServiceErrorCode::InvalidSecret,
            "Cannot "@ + operation + ": "@ + error.message,
            false,
        ),
        AgentLifecycleView::DisabledOverLimit(error) => invalid_error(
            ServiceErrorCode::AgentDisabledOverLimit,
            "Cannot "@ + operation + ": "@ + error.message,
            false,
        ),
        AgentLifecycleView::Starting | AgentLifecycleView::Stopping => invalid_error(
            ServiceErrorCode::ApiUnavailable,
            "Cannot "@ + operation + " while the service is "@ + lifecycle.name() + "."@,
            true,
        ),
        AgentLifecycleView::Error(error) => invalid_error(
            error.code,
            "Cannot "@ + operation + ": "@ + error.message,
            error.retryable,
        ),
        AgentLifecycleView::Running(_) => invalid_error(
            ServiceErrorCode::Internal,
            "Cannot "@ + operation + " because the running state changed unexpectedly."@,
            false,
        ),
    }
}

/// Why an operation that needs a running agent is refused in another state.
pub fn service_not_ready_error(operation: &str, lifecycle: &AgentLifecycle) -> (r: RuntimeError)
    ensures
        r@ == not_ready(operation@, lifecycle@),
{
    match lifecycle {
        AgentLifecycle::WaitingForSecret => RuntimeError::invalid(
            ServiceErrorCode::ProvisioningUnavailable,
            join3(
                "Cannot ",
                operation,
                " while the service is waiting for an agent secret.",
            ),
            true,
        ),
        AgentLifecycle::HasInvalidSecret(error) => {
            let mut message = join3("Cannot ", operation, ": ");
            message.append(error.message.as_str());
            RuntimeError::invalid(ServiceErrorCode::InvalidSecret, message, false)
        },
        AgentLifecycle::DisabledOverLimit(error) => {
            let mut message = join3("Cannot ", operation, ": ");
            message.append(error.message.as_str());
            RuntimeError::invalid(ServiceErrorCode::AgentDisabledOverLimit, message, false)
        },
        AgentLifecycle::Starting | AgentLifecycle::Stopping => {
            let mut message = join3("Cannot ", operation, " while the service is ");
            message.append(lifecycle_name(lifecycle));
            message.append(".");
            RuntimeError::invalid(ServiceErrorCode::ApiUnavailable, message, true)
        },
        AgentLifecycle::Error(error) => {
            let mut message = join3("Cannot ", operation, ": ");
            message.append(error.message.as_str());
            RuntimeError::invalid(error.code, message, error.retryable)
        },
        AgentLifecycle::Running(_) => RuntimeError::invalid(
            ServiceErrorCode::Internal,
            join3("Cannot ", operation, " because the running state changed unexpectedly."),
            false,
        ),
    }
}

pub open spec fn guidance() -> Seq<char> {
    "Delete unused agents: https://playit.gg/account/agents\nIncrease your agent limit: https://playit.gg/account/upgrade"@
}

/// What to do about an account with too many agents.
pub fn over_limit_guidance() -> (r: String)
    ensures
        r@ == guidance(),
{
    owned(
        "Delete unused agents: https://playit.gg/account/agents\nIncrease your agent limit: https://playit.gg/account/upgrade",
    )
}

/// Why a secret cannot be provisioned in a state.
pub open spec fn no_provisioning(lifecycle: AgentLifecycleView) -> RuntimeErrorView {
    let (message, retryable) = match lifecycle {
        AgentLifecycleView::WaitingForSecret => (
            "The Playit service is not ready to save a secret yet. Try setup again in a few seconds."@,
            true,
        ),
        AgentLifecycleView::HasInvalidSecret(error) => (
            "The Playit service is not waiting for a new secret because its current secret is invalid: "@
                + error.message,
            false,
        ),
        AgentLifecycleView::DisabledOverLimit(error) => (
            "Setup is unavailable because this account is over the agent limit.\n"@ + guidance()
                + "\nReason: "@ + error.message,
            false,
        ),
        AgentLifecycleView::Starting => (
            "The Playit service is still starting. Try setup again in a few seconds."@,
            true,
        ),
        AgentLifecycleView::Running(_) => (
            "The Playit service already has a configured secret. Run playit reset before provisioning a new one."@,
            false,
        ),
        AgentLifecycleView::Stopping => (
            "The Playit service is stopping and cannot accept setup right now."@,
            true,
        ),
        AgentLifecycleView::Error(error) => (
            "The Playit service reported an error and cannot accept setup right now: "@
                + error.message,
            true,
        ),
    };
    invalid_error(ServiceErrorCode::ProvisioningUnavailable, message, retryable)
}

/// Why a secret cannot be provisioned in a state.
pub fn secret_provisioning_state_error(lifecycle: &AgentLifecycle) -> (r: RuntimeError)
    ensures
        r@ == no_provisioning(lifecycle@),
{
    let (message, retryable) = match lifecycle {
        AgentLifecycle::WaitingForSecret => (
            owned(
                "The Playit service is not ready to save a secret yet. Try setup again in a few seconds.",
            ),
            true,
        ),
        AgentLifecycle::HasInvalidSecret(error) => (
            join2(
                "The Playit service is not waiting for a new secret because its current secret is invalid: ",
                error.message.as_str(),
            ),
            false,
        ),
        AgentLifecycle::DisabledOverLimit(error) => {
            let advice = over_limit_guidance();
            let mut message = join3(
                "Setup is unavailable because this account is over the agent limit.\n",
                advice.as_str(),
                "\nReason: ",
            );
            message.append(error.message.as_str());
            (message, false)
        },
        AgentLifecycle::Starting => (
            owned("The Playit service is still starting. Try setup again in a few seconds."),
            true,
        ),
        AgentLifecycle::Running(_) => (
            owned(
                "The Playit service already has a configured secret. Run playit reset before provisioning a new one.",
            ),
            false,
        ),
        AgentLifecycle::Stopping => (
            owned("The Playit service is stopping and cannot accept setup right now."),
            true,
        ),
        AgentLifecycle::Error(error) => (
            join2(
                "The Playit service reported an error and cannot accept setup right now: ",
                error.message.as_str(),
            ),
            true,
        ),
    };
    RuntimeError::invalid(ServiceErrorCode::ProvisioningUnavailable, message, retryable)
}

// ---------------------------------------------------------------------------
// Requests
// ---------------------------------------------------------------------------

/// The tunnels of a running agent.
pub fn tunnel_list(lifecycle: AgentLifecycle) -> (r: Result<TunnelListResponse, RuntimeError>)
    ensures
        match lifecycle@ {
            AgentLifecycleView::Running(state) => r is Ok && r->Ok_0@ == (TunnelListResponseView {
                tunnels: state.tunnels,
                pending_tunnels: state.pending_tunnels,
            }),
            other => r is Err && r->Err_0@ == not_ready("list tunnels"@, other),
        },
{
    match lifecycle {
        AgentLifecycle::Running(state) => Ok(
            TunnelListResponse { tunnels: state.tunnels, pending_tunnels: state.pending_tunnels },
        ),
        lifecycle => Err(service_not_ready_error("list tunnels", &lifecycle)),
    }
}

/// The name of a tunnel: what the caller gave, without surrounding whitespace, or a
/// default.
pub open spec fn tunnel_name(name: Option<Seq<char>>) -> Seq<char> {
    match name {
        Some(name) => if trimmed(name).len() > 0 {
            trimmed(name)
        } else {
            "playit-tunnel"@
        },
        None => "playit-tunnel"@,
    }
}

/// The name of a tunnel: what the caller gave, without surrounding whitespace, or a
/// default.
pub fn normalize_tunnel_name(name: Option<String>) -> (r: String)
    ensures
        r@ == tunnel_name(opt_text(name)),
{
    match name {
        Some(name) => {
            let name = trim(name.as_str());
            if name.is_empty() {
                owned("playit-tunnel")
            } else {
                owned(name)
            }
        },
        None => owned("playit-tunnel"),
    }
}

/// The address that a tunnel forwards to, as the caller wrote it.
pub open spec fn address_given(local_address: Option<Seq<char>>) -> Seq<char> {
    match local_address {
        Some(address) => address,
        None => "127.0.0.1"@,
    }
}

/// The text to read as an IP address before a tunnel is asked for: what the caller
/// wrote, without surrounding whitespace, or the loopback address.
pub fn local_address_text(local_address: &Option<String>) -> (r: String)
    ensures
        r@ == trimmed(address_given(opt_text(*local_address))),
        local_address is None ==> r@ == "127.0.0.1"@,
        local_address matches Some(address) ==> r@ == trimmed(address@),
{
    proof {
        no_address_means_this_machine(Seq::empty());
    }
    match local_address {
        Some(address) => owned(trim(address.as_str())),
        None => owned(trim("127.0.0.1")),
    }
}

/// The request for a tunnel: `local_ip` is the IP address that the text of
/// [`local_address_text`] denotes, in its canonical form, and `agent_id` what reading
/// the running agent's ID as a UUID gave.
pub open spec fn tunnel_request(
    lifecycle: AgentLifecycleView,
    local_port: u16,
    local_address: Option<Seq<char>>,
    local_ip: Option<Seq<char>>,
    name: Option<Seq<char>>,
    protocol: TunnelProtocolV1View,
    agent_id: Result<u128, Seq<char>>,
) -> Result<ReqTunnelsCreateV1View, RuntimeErrorView> {
    if local_port == 0 {
        Err(
            invalid_error(
                ServiceErrorCode::InvalidTunnelRequest,
                "local_port must be between 1 and 65535"@,
                false,
            ),
        )
    } else {
        match local_ip {
            None => Err(
                invalid_error(
                    ServiceErrorCode::InvalidTunnelRequest,
                    "local_address is not a valid IP address: "@ + address_given(local_address),
                    false,
                ),
            ),
            Some(ip) => if !(lifecycle is Running) {
                Err(not_ready("create a tunnel"@, lifecycle))
            } else {
                match agent_id {
                    Err(_) => Err(
                        api_error(
                            ServiceErrorCode::ApiUnavailable,
                            "The running agent has not reported a valid agent ID yet"@,
                            true,
                        ),
                    ),
                    Ok(id) => Ok(
                        ReqTunnelsCreateV1View {
                            name: tunnel_name(name),
                            protocol,
                            agent_id: Some(id),
                            config: Some(
                                seq![
                                    ("local_ip"@, ip),
                                    ("local_port"@, decimal(local_port as nat)),
                                ],
                            ),
                            endpoint: CreateTunnelEndpoint::Region {
                                region: PlayitNetwork::Global,
                                port: None,
                            },
                            enabled: true,
                            firewall_id: None,
                        },
                    ),
                }
            },
        }
    }
}

/// What reading the running agent's ID as a UUID gives.
pub open spec fn agent_uuid(lifecycle: AgentLifecycleView) -> Result<u128, Seq<char>> {
    match lifecycle {
        AgentLifecycleView::Running(state) => uuid_parse(state.agent_id),
        _ => Err(Seq::empty()),
    }
}

/// What a request holds where it was made, and the error where it was not.
pub open spec fn request_view(
    r: Result<ReqTunnelsCreateV1, RuntimeError>,
) -> Result<ReqTunnelsCreateV1View, RuntimeErrorView> {
    match r {
        Ok(request) => Ok(request@),
        Err(error) => Err(error@),
    }
}

/// The protocol of a tunnel for plain ports.
pub open spec fn raw_protocol(protocol: TunnelProtocol) -> TunnelProtocolV1View {
    match protocol {
        TunnelProtocol::Tcp => TunnelProtocolV1View::RawPorts {
            port_type: PortType::Tcp,
            port_count: 1,
            software_description: "custom TCP tunnel"@,
        },
        TunnelProtocol::Udp => TunnelProtocolV1View::RawPorts {
            port_type: PortType::Udp,
            port_count: 1,
            software_description: "custom UDP tunnel"@,
        },
        TunnelProtocol::Both => TunnelProtocolV1View::RawPorts {
            port_type: PortType::Both,
            port_count: 1,
            software_description: "custom TCP and UDP tunnel"@,
        },
    }
}

/// A request for a tunnel of one plain port.
pub fn create_request(
    lifecycle: AgentLifecycle,
    local_port: u16,
    protocol: TunnelProtocol,
    local_address: Option<String>,
    local_ip: Option<String>,
    name: Option<String>,
) -> (r: Result<ReqTunnelsCreateV1, RuntimeError>)
    ensures
        request_view(r) == tunnel_request(
            lifecycle@,
            local_port,
            opt_text(local_address),
            opt_text(local_ip),
            opt_text(name),
            raw_protocol(protocol),
            agent_uuid(lifecycle@),
        ),
{
    let (port_type, description) = match protocol {
        TunnelProtocol::Tcp => (PortType::Tcp, "custom TCP tunnel"),
        TunnelProtocol::Udp => (PortType::Udp, "custom UDP tunnel"),
        TunnelProtocol::Both => (PortType::Both, "custom TCP and UDP tunnel"),
    };
    create_request_with_protocol(
        lifecycle,
        local_port,
        local_address,
        local_ip,
        name,
        TunnelProtocolV1::RawPorts(
            TunnelProtocolRawPorts {
                port_type,
                port_count: 1,
                software_description: owned(description),
            },
        ),
    )
}

/// A request for a tunnel to a Minecraft server.
pub fn create_minecraft_request(
    lifecycle: AgentLifecycle,
    local_port: u16,
    local_address: Option<String>,
    local_ip: Option<String>,
    name: Option<String>,
) -> (r: Result<ReqTunnelsCreateV1, RuntimeError>)
    ensures
        request_view(r) == tunnel_request(
            lifecycle@,
            local_port,
            opt_text(local_address),
            opt_text(local_ip),
            opt_text(name),
            TunnelProtocolV1View::TunnelType(TunnelType::MinecraftJava),
            agent_uuid(lifecycle@),
        ),
{
    create_request_with_protocol(
        lifecycle,
        local_port,
        local_address,
        local_ip,
        name,
        TunnelProtocolV1::TunnelType(TunnelType::MinecraftJava),
    )
}

/// A request for a tunnel with a given protocol.
pub fn create_request_with_protocol(
    lifecycle: AgentLifecycle,
    local_port: u16,
    local_address: Option<String>,
    local_ip: Option<String>,
    name: Option<String>,
    protocol: TunnelProtocolV1,
) -> (r: Result<ReqTunnelsCreateV1, RuntimeError>)
    ensures
        request_view(r) == tunnel_request(
            lifecycle@,
            local_port,
            opt_text(local_address),
            opt_text(local_ip),
            opt_text(name),
            protocol@,
            agent_uuid(lifecycle@),
        ),
{
    let agent_id = match &lifecycle {
        AgentLifecycle::Running(state) => parse_uuid(state.agent_id.as_str()),
        _ => Err(String::new()),
    };
    assert(agent_uuid(lifecycle@) matches Err(_) <==> agent_id is Err);
    build_request(lifecycle, local_port, local_address, local_ip, name, protocol, agent_id)
}

/// A request for a tunnel, given what reading the running agent's ID as a UUID gave.
pub fn build_request(
    lifecycle: AgentLifecycle,
    local_port: u16,
    local_address: Option<String>,
    local_ip: Option<String>,
    name: Option<String>,
    protocol: TunnelProtocolV1,
    agent_id: Result<u128, String>,
) -> (r: Result<ReqTunnelsCreateV1, RuntimeError>)
    ensures
        request_view(r) == tunnel_request(
            lifecycle@,
            local_port,
            opt_text(local_address),
            opt_text(local_ip),
            opt_text(name),
            protocol@,
            match agent_id {
                Ok(id) => Ok(id),
                Err(message) => Err(message@),
            },
        ),
{
    if local_port == 0 {
        return Err(
            RuntimeError::invalid(
                ServiceErrorCode::InvalidTunnelRequest,
                owned("local_port must be between 1 and 65535"),
                false,
            ),
        );
    }
    let ip = match local_ip {
        Some(ip) => ip,
        None => {
            let address = match local_address {
                Some(address) => address,
                None => owned("127.0.0.1"),
            };
            return Err(
                RuntimeError::invalid(
                    ServiceErrorCode::InvalidTunnelRequest,
                    join2("local_address is not a valid IP address: ", address.as_str()),
                    false,
                ),
            );
        },
    };
    match lifecycle {
        AgentLifecycle::Running(_) => {},
        lifecycle => return Err(service_not_ready_error("create a tunnel", &lifecycle)),
    }
    let id: u128 = match agent_id {
        Ok(id) => id,
        Err(_) => return Err(
            RuntimeError::api(
                ServiceErrorCode::ApiUnavailable,
                owned("The running agent has not reported a valid agent ID yet"),
                true,
            ),
        ),
    };
    let mut fields: Vec<AgentTunnelAttr> = Vec::new();
    fields.push(AgentTunnelAttr { name: owned("local_ip"), value: ip });
    fields.push(
        AgentTunnelAttr { name: owned("local_port"), value: decimal_text(local_port as u64) },
    );
    let request = ReqTunnelsCreateV1 {
        name: normalize_tunnel_name(name),
        protocol,
        origin: AccountTunnelOriginCreate::Agent(
            AgentOrigin { agent_id: Some(id), config: Some(fields) },
        ),
        endpoint: CreateTunnelEndpoint::Region { region: PlayitNetwork::Global, port: None },
        enabled: true,
        firewall_id: None,
    };
    assert(request@.config->0 =~= seq![
        ("local_ip"@, opt_text(local_ip)->0),
        ("local_port"@, decimal(local_port as nat)),
    ]);
    Ok(request)
}

/// The ID of a tunnel, which is a UUID.
pub fn parse_tunnel_id(tunnel_id: &str) -> (r: Result<u128, RuntimeError>)
    ensures
        match uuid_parse(trimmed(tunnel_id@)) {
            Ok(id) => r == Ok::<u128, RuntimeError>(id),
            Err(_) => r is Err && r->Err_0@ == bad_tunnel_id(),
        },
{
    checked_tunnel_id(parse_uuid(trim(tunnel_id)))
}

pub open spec fn bad_tunnel_id() -> RuntimeErrorView {
    invalid_error(
        ServiceErrorCode::InvalidTunnelRequest,
        "tunnel_id must be a valid UUID"@,
        false,
    )
}

/// The ID of a tunnel, given what reading it as a UUID gave.
pub fn checked_tunnel_id(parsed: Result<u128, String>) -> (r: Result<u128, RuntimeError>)
    ensures
        match parsed {
            Ok(id) => r == Ok::<u128, RuntimeError>(id),
            Err(_) => r is Err && r->Err_0@ == bad_tunnel_id(),
        },
{
    match parsed {
        Ok(id) => Ok(id),
        Err(_) => Err(
            RuntimeError::invalid(
                ServiceErrorCode::InvalidTunnelRequest,
                owned("tunnel_id must be a valid UUID"),
                false,
            ),
        ),
    }
}

// ---------------------------------------------------------------------------
// Errors of the API
// ---------------------------------------------------------------------------

/// The longest message of the API that is passed on.
pub const MAX_MESSAGE_CHARS: usize = 512;

/// A message of the API that is fit to be passed on: trimmed, cut to a bounded length,
/// never empty.
pub open spec fn bounded(message: Seq<char>) -> Seq<char> {
    let text = trimmed(message);
    if text.len() > MAX_MESSAGE_CHARS {
        text.take(MAX_MESSAGE_CHARS as int) + "…"@
    } else if text.len() == 0 {
        "no additional details"@
    } else {
        text
    }
}

/// A message of the API that is fit to be passed on.
pub fn bounded_message(message: &str) -> (r: String)
    ensures
        r@ == bounded(message@),
{
    let text = trim(message);
    if text.unicode_len() > MAX_MESSAGE_CHARS {
        let head = text.substring_char(0, MAX_MESSAGE_CHARS);
        assert(head@ == text@.take(MAX_MESSAGE_CHARS as int));
        join2(head, "…")
    } else if text.is_empty() {
        owned("no additional details")
    } else {
        owned(text)
    }
}

/// A message that is passed on is never empty and at most one character longer than
/// the limit.
pub proof fn bounded_messages_are_short(message: Seq<char>)
    ensures
        0 < bounded(message).len() <= MAX_MESSAGE_CHARS + 1,
{
    reveal_strlit("…");
    reveal_strlit("no additional details");
}

/// The code and the reason for a tunnel that could not be created.
pub open spec fn create_failure(failure: TunnelCreateErrorV1) -> (ServiceErrorCode, Seq<char>) {
    match failure {
        TunnelCreateErrorV1::AgentNotFound => (
            ServiceErrorCode::ApiRejected,
            "the agent was not found"@,
        ),
        TunnelCreateErrorV1::InvalidAgentId => (
            ServiceErrorCode::InvalidTunnelRequest,
            "the agent ID is invalid"@,
        ),
        TunnelCreateErrorV1::AgentVersionTooOld => (
            ServiceErrorCode::ApiRejected,
            "the agent version is too old for this tunnel"@,
        ),
        TunnelCreateErrorV1::DedicatedIpNotFound => (
            ServiceErrorCode::ApiRejected,
            "the requested dedicated IP was not found"@,
        ),
        TunnelCreateErrorV1::PortAllocNotFound => (
            ServiceErrorCode::ApiRejected,
            "the requested port allocation was not found"@,
        ),
        TunnelCreateErrorV1::InvalidIpHostname => (
            ServiceErrorCode::InvalidTunnelRequest,
            "the local IP or hostname is invalid"@,
        ),
        TunnelCreateErrorV1::InvalidPortCount => (
            ServiceErrorCode::InvalidTunnelRequest,
            "the requested port count is invalid"@,
        ),
        TunnelCreateErrorV1::RequiresVerifiedAccount => (
            ServiceErrorCode::PermissionDenied,
            "a verified account is required"@,
        ),
        TunnelCreateErrorV1::RegionNotSupported => (
            ServiceErrorCode::ApiRejected,
            "the requested region is not supported"@,
        ),
        TunnelCreateErrorV1::InvalidTunnelConfig => (
            ServiceErrorCode::InvalidTunnelRequest,
            "the tunnel configuration is invalid"@,
        ),
        TunnelCreateErrorV1::FirewallNotFound => (
            ServiceErrorCode::ApiRejected,
            "the requested firewall was not found"@,
        ),
        TunnelCreateErrorV1::TunnelNameIsNotAscii => (
            ServiceErrorCode::InvalidTunnelRequest,
            "the tunnel name must contain only ASCII characters"@,
        ),
        TunnelCreateErrorV1::TunnelNameTooLong => (
            ServiceErrorCode::InvalidTunnelRequest,
            "the tunnel name is too long"@,
        ),
        TunnelCreateErrorV1::PortAllocDoesNotMatchPortDetails => (
            ServiceErrorCode::InvalidTunnelRequest,
            "the port allocation does not match the requested tunnel"@,
        ),
        TunnelCreateErrorV1::RegionRequiresPlayitPremium => (
            ServiceErrorCode::PermissionDenied,
            "the requested region requires Playit Premium"@,
        ),
        TunnelCreateErrorV1::PortAllocCurrentlyAssigned => (
            ServiceErrorCode::ApiRejected,
            "the requested port allocation is already assigned"@,
        ),
        TunnelCreateErrorV1::PublicPortRequiresPlayitPremium => (
            ServiceErrorCode::PermissionDenied,
            "the requested public port requires Playit Premium"@,
        ),
        TunnelCreateErrorV1::RequiresPlayitPremium => (
            ServiceErrorCode::PermissionDenied,
            "a Playit Premium account is required"@,
        ),
        TunnelCreateErrorV1::AllocRequestNotSupportedByPorts => (
            ServiceErrorCode::InvalidTunnelRequest,
            "the allocation request is not supported by the requested ports"@,
        ),
        TunnelCreateErrorV1::InvalidHostnameId => (
            ServiceErrorCode::InvalidTunnelRequest,
            "the hostname ID is invalid"@,
        ),
        TunnelCreateErrorV1::HostnameHasTunnelTypeTarget => (
            ServiceErrorCode::InvalidTunnelRequest,
            "the hostname is already configured for a tunnel type"@,
        ),
        TunnelCreateErrorV1::EndpointDoesNotSupportProtocol => (
            ServiceErrorCode::InvalidTunnelRequest,
            "the endpoint does not support the requested protocol"@,
        ),
        TunnelCreateErrorV1::InvalidGatewayId => (
            ServiceErrorCode::InvalidTunnelRequest,
            "the gateway ID is invalid"@,
        ),
        TunnelCreateErrorV1::GatewayAlreadyHasTunnelType => (
            ServiceErrorCode::ApiRejected,
            "the gateway already has a tunnel type"@,
        ),
        TunnelCreateErrorV1::GatewayDoesNotSupportTunnelType => (
            ServiceErrorCode::ApiRejected,
            "the gateway does not support the requested tunnel type"@,
        ),
        TunnelCreateErrorV1::TunnelTypeBlockedOnRegion => (
            ServiceErrorCode::ApiRejected,
            "the requested tunnel type is blocked in this region"@,
        ),
        TunnelCreateErrorV1::InvalidSoftwareDescription => (
            ServiceErrorCode::InvalidTunnelRequest,
            "the software description is invalid"@,
        ),
        TunnelCreateErrorV1::Other => (
            ServiceErrorCode::ApiRejected,
            "the API rejected the request"@,
        ),
    }
}

/// The error for a tunnel that could not be created.
pub open spec fn create_failure_error(failure: TunnelCreateErrorV1) -> RuntimeErrorView {
    api_error(
        create_failure(failure).0,
        "The playit API rejected tunnel creation: "@ + create_failure(failure).1 + "."@,
        false,
    )
}

/// The error for a tunnel that could not be created.
pub fn map_tunnel_create_failure(failure: TunnelCreateErrorV1) -> (r: RuntimeError)
    ensures
        r@ == create_failure_error(failure),
{
    let (code, reason) = match failure {
        TunnelCreateErrorV1::AgentNotFound => (
            ServiceErrorCode::ApiRejected,
            "the agent was not found",
        ),
        TunnelCreateErrorV1::InvalidAgentId => (
            ServiceErrorCode::InvalidTunnelRequest,
            "the agent ID is invalid",
        ),
        TunnelCreateErrorV1::AgentVersionTooOld => (
            ServiceErrorCode::ApiRejected,
            "the agent version is too old for this tunnel",
        ),
        TunnelCreateErrorV1::DedicatedIpNotFound => (
            ServiceErrorCode::ApiRejected,
            "the requested dedicated IP was not found",
        ),
        TunnelCreateErrorV1::PortAllocNotFound => (
            ServiceErrorCode::ApiRejected,
            "the requested port allocation was not found",
        ),
        TunnelCreateErrorV1::InvalidIpHostname => (
            ServiceErrorCode::InvalidTunnelRequest,
            "the local IP or hostname is invalid",
        ),
        TunnelCreateErrorV1::InvalidPortCount => (
            ServiceErrorCode::InvalidTunnelRequest,
            "the requested port count is invalid",
        ),
        TunnelCreateErrorV1::RequiresVerifiedAccount => (
            ServiceErrorCode::PermissionDenied,
            "a verified account is required",
        ),
        TunnelCreateErrorV1::RegionNotSupported => (
            ServiceErrorCode::ApiRejected,
            "the requested region is not supported",
        ),
        TunnelCreateErrorV1::InvalidTunnelConfig => (
            ServiceErrorCode::InvalidTunnelRequest,
            "the tunnel configuration is invalid",
        ),
        TunnelCreateErrorV1::FirewallNotFound => (
            ServiceErrorCode::ApiRejected,
            "the requested firewall was not found",
        ),
        TunnelCreateErrorV1::TunnelNameIsNotAscii => (
            ServiceErrorCode::InvalidTunnelRequest,
            "the tunnel name must contain only ASCII characters",
        ),
        TunnelCreateErrorV1::TunnelNameTooLong => (
            ServiceErrorCode::InvalidTunnelRequest,
            "the tunnel name is too long",
        ),
        TunnelCreateErrorV1::PortAllocDoesNotMatchPortDetails => (
            ServiceErrorCode::InvalidTunnelRequest,
            "the port allocation does not match the requested tunnel",
        ),
        TunnelCreateErrorV1::RegionRequiresPlayitPremium => (
            ServiceErrorCode::PermissionDenied,
            "the requested region requires Playit Premium",
        ),
        TunnelCreateErrorV1::PortAllocCurrentlyAssigned => (
            ServiceErrorCode::ApiRejected,
            "the requested port allocation is already assigned",
        ),
        TunnelCreateErrorV1::PublicPortRequiresPlayitPremium => (
            ServiceErrorCode::PermissionDenied,
            "the requested public port requires Playit Premium",
        ),
        TunnelCreateErrorV1::RequiresPlayitPremium => (
            ServiceErrorCode::PermissionDenied,
            "a Playit Premium account is required",
        ),
        TunnelCreateErrorV1::AllocRequestNotSupportedByPorts => (
            ServiceErrorCode::InvalidTunnelRequest,
            "the allocation request is not supported by the requested ports",
        ),
        TunnelCreateErrorV1::InvalidHostnameId => (
            ServiceErrorCode::InvalidTunnelRequest,
            "the hostname ID is invalid",
        ),
        TunnelCreateErrorV1::HostnameHasTunnelTypeTarget => (
            ServiceErrorCode::InvalidTunnelRequest,
            "the hostname is already configured for a tunnel type",
        ),
        TunnelCreateErrorV1::EndpointDoesNotSupportProtocol => (
            ServiceErrorCode::InvalidTunnelRequest,
            "the endpoint does not support the requested protocol",
        ),
        TunnelCreateErrorV1::InvalidGatewayId => (
            ServiceErrorCode::InvalidTunnelRequest,
            "the gateway ID is invalid",
        ),
        TunnelCreateErrorV1::GatewayAlreadyHasTunnelType => (
            ServiceErrorCode::ApiRejected,
            "the gateway already has a tunnel type",
        ),
        TunnelCreateErrorV1::GatewayDoesNotSupportTunnelType => (
            ServiceErrorCode::ApiRejected,
            "the gateway does not support the requested tunnel type",
        ),
        TunnelCreateErrorV1::TunnelTypeBlockedOnRegion => (
            ServiceErrorCode::ApiRejected,
            "the requested tunnel type is blocked in this region",
        ),
        TunnelCreateErrorV1::InvalidSoftwareDescription => (
            ServiceErrorCode::InvalidTunnelRequest,
            "the software description is invalid",
        ),
        TunnelCreateErrorV1::Other => (
            ServiceErrorCode::ApiRejected,
            "the API rejected the request",
        ),
    };
    RuntimeError::api(
        code,
        join3("The playit API rejected tunnel creation: ", reason, "."),
        false,
    )
}

/// The error for an operation that the API answered with a structured error.
pub open spec fn response_error(
    operation: Seq<char>,
    error: ApiResponseErrorView,
    validation_code: ServiceErrorCode,
) -> RuntimeErrorView {
    match error {
        ApiResponseErrorView::Validation(message) => invalid_error(
            validation_code,
            "The playit API rejected "@ + operation + ": "@ + bounded(message) + "."@,
            false,
        ),
        ApiResponseErrorView::PathNotFound(_) => api_error(
            ServiceErrorCode::ApiRejected,
            "The playit API does not support "@ + operation + "."@,
            false,
        ),
        ApiResponseErrorView::Auth(_) => api_error(
            ServiceErrorCode::PermissionDenied,
            "The playit API did not authorize "@ + operation + "."@,
            false,
        ),
        ApiResponseErrorView::Internal(trace_id) => api_error(
            ServiceErrorCode::ApiUnavailable,
            "The playit API reported a temporary internal error while performing "@ + operation
                + " (reference "@ + bounded(trace_id) + ")."@,
            true,
        ),
    }
}

/// The error for an operation that the API answered with a structured error.
pub fn map_api_response_error(
    operation: &str,
    error: ApiResponseError,
    validation_code: ServiceErrorCode,
) -> (r: RuntimeError)
    ensures
        r@ == response_error(operation@, error@, validation_code),
{
    match error {
        ApiResponseError::Validation(message) => {
            let text = bounded_message(message.as_str());
            let mut out = join3("The playit API rejected ", operation, ": ");
            out.append(text.as_str());
            out.append(".");
            RuntimeError::invalid(validation_code, out, false)
        },
        ApiResponseError::PathNotFound(_) => RuntimeError::api(
            ServiceErrorCode::ApiRejected,
            join3("The playit API does not support ", operation, "."),
            false,
        ),
        ApiResponseError::Auth(_) => RuntimeError::api(
            ServiceErrorCode::PermissionDenied,
            join3("The playit API did not authorize ", operation, "."),
            false,
        ),
        ApiResponseError::Internal(trace_id) => {
            let text = bounded_message(trace_id.as_str());
            let mut out = join3(
                "The playit API reported a temporary internal error while performing ",
                operation,
                " (reference ",
            );
            out.append(text.as_str());
            out.append(").");
            RuntimeError::api(ServiceErrorCode::ApiUnavailable, out, true)
        },
    }
}

/// The code and the message for an answer that could not be read, with its status as it
/// is shown.
pub open spec fn unreadable_response(
    operation: Seq<char>,
    status: Seq<char>,
    transient: bool,
) -> (ServiceErrorCode, Seq<char>) {
    (
        if transient {
            ServiceErrorCode::ApiUnavailable
        } else {
            ServiceErrorCode::ApiRejected
        },
        "The playit API returned an invalid response for "@ + operation + " ("@ + status + ")."@,
    )
}

/// The code and the message for an answer that could not be read, with its status as it
/// is shown.
pub fn unreadable_response_error(operation: &str, status: &str, transient: bool) -> (r: (
    ServiceErrorCode,
    String,
))
    ensures
        (r.0, r.1@) == unreadable_response(operation@, status@, transient),
{
    let mut out = join3("The playit API returned an invalid response for ", operation, " (");
    out.append(status);
    out.append(").");
    (
        if transient {
            ServiceErrorCode::ApiUnavailable
        } else {
            ServiceErrorCode::ApiRejected
        },
        out,
    )
}

/// The error for an operation that got no usable answer.
pub open spec fn client_error(
    operation: Seq<char>,
    error: HttpClientErrorView,
) -> RuntimeErrorView {
    let (code, message) = match error {
        HttpClientErrorView::TooManyRequests => (
            ServiceErrorCode::ApiUnavailable,
            "The playit API is rate limiting "@ + operation + "; try again later."@,
        ),
        HttpClientErrorView::RequestError(_) => if error.transient() {
            (
                ServiceErrorCode::ApiUnavailable,
                "Could not reach the playit API while performing "@ + operation + "."@,
            )
        } else {
            (
                ServiceErrorCode::Internal,
                "The playit API request for "@ + operation + " could not be sent."@,
            )
        },
        HttpClientErrorView::ParseError(_, _, status) => unreadable_response(
            operation,
            http_status_text(status),
            error.transient(),
        ),
        HttpClientErrorView::SerializeError(_, _) => (
            ServiceErrorCode::Internal,
            "Could not prepare the playit API request for "@ + operation + "."@,
        ),
    };
    api_error(code, message, error.transient())
}

/// The error for an operation that got no usable answer.
pub fn map_http_client_error(operation: &str, error: HttpClientError) -> (r: RuntimeError)
    requires
        error@.valid(),
    ensures
        r@ == client_error(operation@, error@),
{
    let retryable = error.is_transient();
    let (code, message) = match error {
        HttpClientError::TooManyRequests => (
            ServiceErrorCode::ApiUnavailable,
            join3("The playit API is rate limiting ", operation, "; try again later."),
        ),
        HttpClientError::RequestError(_) => if retryable {
            (
                ServiceErrorCode::ApiUnavailable,
                join3("Could not reach the playit API while performing ", operation, "."),
            )
        } else {
            (
                ServiceErrorCode::Internal,
                join3("The playit API request for ", operation, " could not be sent."),
            )
        },
        HttpClientError::ParseError(_, status) => {
            let shown = status_text(status);
            unreadable_response_error(operation, shown.as_str(), retryable)
        },
        HttpClientError::SerializeError(_) => (
            ServiceErrorCode::Internal,
            join3("Could not prepare the playit API request for ", operation, "."),
        ),
    };
    RuntimeError::api(code, message, retryable)
}

/// The error of a failed call holds a status code, if it holds a status.
pub open spec fn valid_call_error<F>(error: ApiError<F>) -> bool {
    error matches ApiError::ClientError(e) ==> e@.valid()
}

/// The error for a tunnel that was not created.
pub fn map_tunnel_create_error(error: ApiError<TunnelCreateErrorV1>) -> (r: RuntimeError)
    requires
        valid_call_error(error),
    ensures
        r@ == match error {
            ApiError::Fail(failure) => create_failure_error(failure),
            ApiError::ApiError(e) => response_error(
                "tunnel creation"@,
                e@,
                ServiceErrorCode::InvalidTunnelRequest,
            ),
            ApiError::ClientError(e) => client_error("tunnel creation"@, e@),
        },
{
    match error {
        ApiError::Fail(failure) => map_tunnel_create_failure(failure),
        ApiError::ApiError(error) => map_api_response_error(
            "tunnel creation",
            error,
            ServiceErrorCode::InvalidTunnelRequest,
        ),
        ApiError::ClientError(error) => map_http_client_error("tunnel creation", error),
    }
}

/// The error for a tunnel that was not deleted.
pub fn map_tunnel_delete_error(error: ApiError<DeleteError>) -> (r: RuntimeError)
    requires
        valid_call_error(error),
    ensures
        r@ == match error {
            ApiError::Fail(DeleteError::TunnelNotFound) => api_error(
                ServiceErrorCode::TunnelNotFound,
                "The requested tunnel does not exist."@,
                false,
            ),
            ApiError::ApiError(e) => response_error(
                "tunnel deletion"@,
                e@,
                ServiceErrorCode::InvalidTunnelRequest,
            ),
            ApiError::ClientError(e) => client_error("tunnel deletion"@, e@),
        },
{
    match error {
        ApiError::Fail(DeleteError::TunnelNotFound) => RuntimeError::api(
            ServiceErrorCode::TunnelNotFound,
            owned("The requested tunnel does not exist."),
            false,
        ),
        ApiError::ApiError(error) => map_api_response_error(
            "tunnel deletion",
            error,
            ServiceErrorCode::InvalidTunnelRequest,
        ),
        ApiError::ClientError(error) => map_http_client_error("tunnel deletion", error),
    }
}

/// The error for any other operation that failed.
pub open spec fn generic_error<F>(operation: Seq<char>, error: ApiError<F>) -> RuntimeErrorView {
    match error {
        ApiError::Fail(_) => api_error(
            ServiceErrorCode::ApiRejected,
            "The playit API rejected "@ + operation + "."@,
            false,
        ),
        ApiError::ApiError(e) => response_error(operation, e@, ServiceErrorCode::ApiRejected),
        ApiError::ClientError(e) => client_error(operation, e@),
    }
}

/// The error for any other operation that failed.
pub fn map_generic_api_error<F>(operation: &str, error: ApiError<F>) -> (r: RuntimeError)
    requires
        valid_call_error(error),
    ensures
        r@ == generic_error(operation@, error),
{
    match error {
        ApiError::Fail(_) => RuntimeError::api(
            ServiceErrorCode::ApiRejected,
            join3("The playit API rejected ", operation, "."),
            false,
        ),
        ApiError::ApiError(error) => map_api_response_error(
            operation,
            error,
            ServiceErrorCode::ApiRejected,
        ),
        ApiError::ClientError(error) => map_http_client_error(operation, error),
    }
}

// ---------------------------------------------------------------------------
// Laws
// ---------------------------------------------------------------------------

/// A request that the API refuses for what it asks is never reported as an outage of
/// the API, and never as worth another try.
pub proof fn refusals_are_no_outages(failure: TunnelCreateErrorV1)
    ensures
        create_failure_error(failure).service_error().code != ServiceErrorCode::ApiUnavailable,
        !create_failure_error(failure).service_error().retryable,
{
}

/// Of the structured errors, exactly the internal ones of the API are an outage and
/// worth another try.
pub proof fn only_internal_errors_are_outages(
    operation: Seq<char>,
    error: ApiResponseErrorView,
    validation_code: ServiceErrorCode,
)
    requires
        validation_code != ServiceErrorCode::ApiUnavailable,
    ensures
        response_error(operation, error, validation_code).service_error().retryable <==> error
            is Internal,
        response_error(operation, error, validation_code).service_error().code
            == ServiceErrorCode::ApiUnavailable <==> error is Internal,
{
}

/// A tunnel is asked for only by a running agent, for a port above 0 and an IP address,
/// and the request names exactly that agent, port and address.
pub proof fn requests_name_what_was_asked(
    lifecycle: AgentLifecycleView,
    local_port: u16,
    local_address: Option<Seq<char>>,
    local_ip: Option<Seq<char>>,
    name: Option<Seq<char>>,
    protocol: TunnelProtocolV1View,
    agent_id: Result<u128, Seq<char>>,
)
    ensures
        tunnel_request(
            lifecycle,
            local_port,
            local_address,
            local_ip,
            name,
            protocol,
            agent_id,
        ) matches Ok(request) ==> {
            &&& lifecycle is Running
            &&& local_port > 0
            &&& local_ip is Some
            &&& agent_id == Ok::<u128, Seq<char>>(request.agent_id->0)
            &&& request.agent_id is Some
            &&& request.protocol == protocol
            &&& request.name.len() > 0
            &&& request.config == Some(
                seq![("local_ip"@, local_ip->0), ("local_port"@, decimal(local_port as nat))],
            )
        },
{
    reveal_strlit("playit-tunnel");
}

/// Whatever keeps an operation from being done in a state other than running, the
/// error tells whether waiting can help: while the agent waits, starts or stops it can.
pub proof fn unready_states_say_whether_to_wait(operation: Seq<char>, lifecycle: AgentLifecycleView)
    ensures
        lifecycle is WaitingForSecret || lifecycle is Starting || lifecycle is Stopping
            ==> not_ready(operation, lifecycle).service_error().retryable,
        lifecycle is HasInvalidSecret || lifecycle is DisabledOverLimit || lifecycle is Running
            ==> !not_ready(operation, lifecycle).service_error().retryable,
        lifecycle matches AgentLifecycleView::Error(error) ==> not_ready(
            operation,
            lifecycle,
        ).service_error().retryable == error.retryable,
{
}

/// A tunnel without a given address forwards to this machine; one with an address forwards to
/// that, and the whitespace around it does not count.
pub proof fn no_address_means_this_machine(address: Seq<char>)
    ensures
        address_given(None) == "127.0.0.1"@,
        trimmed(address_given(None)) == "127.0.0.1"@,
        trimmed(address_given(None)) == seq!['1', '2', '7', '.', '0', '.', '0', '.', '1'],
        address_given(Some(address)) == address,
{
    reveal_strlit("127.0.0.1");
    let text = "127.0.0.1"@;
    assert(text[0] == '1');
    assert(text.last() == '1');
    assert(trimmed_start(text) == text);
    assert(trimmed_end(text) == text);
    assert(text =~= seq!['1', '2', '7', '.', '0', '.', '0', '.', '1']);
}

/// A request is made exactly if the port is above 0, the address is an IP address, and the agent
/// runs and has an ID; it asks for a tunnel that is enabled, anywhere, with any public port,
/// without a firewall, under the name that was given or, if that is blank, under a name of its
/// own. What is wrong with the request itself is told first, and as final; an agent that has no
/// ID yet may get one.
pub proof fn requests_are_made_when_they_can_be(
    lifecycle: AgentLifecycleView,
    local_port: u16,
    local_address: Option<Seq<char>>,
    local_ip: Option<Seq<char>>,
    name: Option<Seq<char>>,
    protocol: TunnelProtocolV1View,
    agent_id: Result<u128, Seq<char>>,
)
    ensures
        ({
            let made = tunnel_request(
                lifecycle,
                local_port,
                local_address,
                local_ip,
                name,
                protocol,
                agent_id,
            );
            &&& made is Ok <==> local_port > 0 && local_ip is Some && lifecycle is Running
                && agent_id is Ok
            &&& made matches Ok(request) ==> {
                &&& request.enabled
                &&& request.firewall_id is None
                &&& request.endpoint == (CreateTunnelEndpoint::Region {
                    region: PlayitNetwork::Global,
                    port: None,
                })
                &&& request.protocol == protocol
                &&& name is Some && trimmed(name->0).len() > 0 ==> request.name == trimmed(name->0)
                &&& !(name is Some && trimmed(name->0).len() > 0) ==> request.name
                    == "playit-tunnel"@
                &&& request.config matches Some(config) && config.len() == 2 && config[0] == (
                    "local_ip"@,
                    local_ip->0,
                ) && config[1] == ("local_port"@, decimal(local_port as nat))
                &&& request.agent_id == Some(agent_id->Ok_0)
            }
            &&& local_port == 0 || local_ip is None ==> made is Err
                && made->Err_0.service_error().code == ServiceErrorCode::InvalidTunnelRequest
                && !made->Err_0.service_error().retryable
            &&& local_port > 0 && local_ip is None ==> made->Err_0.service_error().message
                == "local_address is not a valid IP address: "@ + (match local_address {
                Some(address) => address,
                None => "127.0.0.1"@,
            })
            &&& local_port > 0 && local_ip is Some && !(lifecycle is Running) ==> made == Err::<
                ReqTunnelsCreateV1View,
                RuntimeErrorView,
            >(not_ready("create a tunnel"@, lifecycle))
            &&& local_port > 0 && local_ip is Some && lifecycle is Running && agent_id is Err
                ==> made is Err && made->Err_0.service_error().code
                == ServiceErrorCode::ApiUnavailable && made->Err_0.service_error().retryable
        }),
{
}

/// A tunnel for plain ports has one port, for the protocol that was asked for, and the agent
/// that it is for is the one that runs.
pub proof fn plain_tunnels_have_the_asked_protocol(
    protocol: TunnelProtocol,
    lifecycle: AgentLifecycleView,
)
    ensures
        raw_protocol(protocol) matches TunnelProtocolV1View::RawPorts { port_type, port_count, .. }
            && port_count == 1 && (port_type is Tcp <==> protocol is Tcp) && (port_type is Udp
            <==> protocol is Udp) && (port_type is Both <==> protocol is Both),
        lifecycle matches AgentLifecycleView::Running(state) ==> agent_uuid(lifecycle)
            == uuid_parse(state.agent_id),
        !(lifecycle is Running) ==> agent_uuid(lifecycle) is Err,
{
}

/// Without a running agent an operation is refused with the reason: no secret yet, a bad one, too
/// many agents, an error of its own, or a service that is not up. The message names the operation.
pub proof fn refusals_name_the_state(operation: Seq<char>, lifecycle: AgentLifecycleView)
    ensures
        ({
            let told = not_ready(operation, lifecycle).service_error();
            let cannot = "Cannot "@ + operation;
            &&& lifecycle is WaitingForSecret ==> told.code
                == ServiceErrorCode::ProvisioningUnavailable
            &&& lifecycle matches AgentLifecycleView::HasInvalidSecret(error) ==> told.code
                == ServiceErrorCode::InvalidSecret && told.message == cannot + ": "@
                + error.message
            &&& lifecycle matches AgentLifecycleView::DisabledOverLimit(error) ==> told.code
                == ServiceErrorCode::AgentDisabledOverLimit && told.message == cannot + ": "@
                + error.message
            &&& lifecycle matches AgentLifecycleView::Error(error) ==> told.code == error.code
                && told.message == cannot + ": "@ + error.message
            &&& lifecycle is Starting || lifecycle is Stopping ==> told.code
                == ServiceErrorCode::ApiUnavailable
            &&& lifecycle is Running ==> told.code == ServiceErrorCode::Internal
            &&& told.message.len() >= cannot.len()
            &&& told.message.take(cannot.len() as int) == cannot
        }),
{
    let told = not_ready(operation, lifecycle).service_error();
    let cannot = "Cannot "@ + operation;
    assert(told.message.take(cannot.len() as int) =~= cannot);
}

/// A secret is never taken but when the service waits for one; whether to try again later depends
/// on the state alone: a running agent has its secret, and a bad secret or too many agents do not
/// go away by waiting.
pub proof fn states_say_whether_setup_can_be_repeated(lifecycle: AgentLifecycleView)
    ensures
        no_provisioning(lifecycle).service_error().code
            == ServiceErrorCode::ProvisioningUnavailable,
        no_provisioning(lifecycle).service_error().retryable <==> lifecycle is WaitingForSecret
            || lifecycle is Starting || lifecycle is Stopping || lifecycle is Error,
{
}

/// A message of the API is passed on without the whitespace around it, whole up to 512
/// characters, and cut with a mark behind them else; a blank one is replaced.
pub proof fn messages_are_passed_on_whole(message: Seq<char>)
    ensures
        0 < trimmed(message).len() <= 512 ==> bounded(message) == trimmed(message),
        trimmed(message).len() > 512 ==> bounded(message) == trimmed(message).take(512) + "…"@,
        trimmed(message).len() == 0 ==> bounded(message) == "no additional details"@,
{
}

/// A refused tunnel is told by its kind: a permission that the account lacks, a request that is
/// wrong in itself, or anything else that the API rejects. The message holds the reason.
pub proof fn refused_tunnels_are_told_by_kind(failure: TunnelCreateErrorV1)
    ensures
        ({
            let told = create_failure_error(failure).service_error();
            let lacks = failure is RequiresVerifiedAccount || failure is RegionRequiresPlayitPremium
                || failure is PublicPortRequiresPlayitPremium || failure is RequiresPlayitPremium;
            let rejected = failure is AgentNotFound || failure is AgentVersionTooOld || failure
                is DedicatedIpNotFound || failure is PortAllocNotFound || failure
                is RegionNotSupported || failure is FirewallNotFound || failure
                is PortAllocCurrentlyAssigned || failure is GatewayAlreadyHasTunnelType || failure
                is GatewayDoesNotSupportTunnelType || failure is TunnelTypeBlockedOnRegion
                || failure is Other;
            &&& told.code == ServiceErrorCode::PermissionDenied <==> lacks
            &&& told.code == ServiceErrorCode::ApiRejected <==> rejected
            &&& told.code == ServiceErrorCode::InvalidTunnelRequest <==> !lacks && !rejected
            &&& told.message == "The playit API rejected tunnel creation: "@ + create_failure(
                failure,
            ).1 + "."@
            &&& told.details is None
        }),
{
}

/// A structured error is told by its kind: what the API found wrong under the code that the
/// operation gives it, a request that it does not know as rejected, a credential that it does not
/// accept as a lack of permission, and its own failure as an outage, with its reference.
pub proof fn structured_errors_are_told_by_kind(
    operation: Seq<char>,
    error: ApiResponseErrorView,
    validation_code: ServiceErrorCode,
)
    ensures
        ({
            let told = response_error(operation, error, validation_code).service_error();
            &&& error matches ApiResponseErrorView::Validation(message) ==> told.code
                == validation_code && told.message == "The playit API rejected "@ + operation
                + ": "@ + bounded(message) + "."@
            &&& error is PathNotFound ==> told.code == ServiceErrorCode::ApiRejected
                && told.message == "The playit API does not support "@ + operation + "."@
            &&& error is Auth ==> told.code == ServiceErrorCode::PermissionDenied && told.message
                == "The playit API did not authorize "@ + operation + "."@
            &&& error matches ApiResponseErrorView::Internal(trace_id) ==> told.code
                == ServiceErrorCode::ApiUnavailable && told.retryable && told.message
                == "The playit API reported a temporary internal error while performing "@
                + operation + " (reference "@ + bounded(trace_id) + ")."@
            &&& !(error is Internal) ==> !told.retryable
        }),
{
}

/// A call without a usable answer is worth another try exactly if the API was busy or could not
/// be reached; only a request that could not be made or sent is an error of this program.
pub proof fn lost_calls_are_told_by_kind(operation: Seq<char>, error: HttpClientErrorView)
    ensures
        ({
            let told = client_error(operation, error).service_error();
            &&& error is TooManyRequests ==> told.retryable && told.code
                == ServiceErrorCode::ApiUnavailable
            &&& error matches HttpClientErrorView::RequestError(failure) ==> if failure.connect
                || failure.timeout || failure.request || failure.body {
                told.retryable && told.code == ServiceErrorCode::ApiUnavailable
            } else {
                !told.retryable && told.code == ServiceErrorCode::Internal
            }
            &&& error matches HttpClientErrorView::ParseError(_, _, status) ==> if status == 429
                || 500 <= status <= 599 {
                told.retryable && told.code == ServiceErrorCode::ApiUnavailable
            } else {
                !told.retryable && told.code == ServiceErrorCode::ApiRejected
            }
            &&& error is SerializeError ==> !told.retryable && told.code
                == ServiceErrorCode::Internal
        }),
{
}

/// Any other call that the API refuses is told as rejected, and as final.
pub proof fn other_refusals_are_final<F>(operation: Seq<char>, error: ApiError<F>)
    ensures
        error is Fail ==> generic_error(operation, error).service_error().code
            == ServiceErrorCode::ApiRejected && !generic_error(
            operation,
            error,
        ).service_error().retryable,
        error matches ApiError::ApiError(e) ==> generic_error(operation, error) == response_error(
            operation,
            e@,
            ServiceErrorCode::ApiRejected,
        ),
        error matches ApiError::ClientError(e) ==> generic_error(operation, error) == client_error(
            operation,
            e@,
        ),
{
}

/// A tunnel that is to be deleted is named by a UUID; anything else is a wrong request.
pub proof fn bad_tunnel_ids_are_wrong_requests()
    ensures
        bad_tunnel_id().service_error() == (ServiceErrorView {
            code: ServiceErrorCode::InvalidTunnelRequest,
            message: "tunnel_id must be a valid UUID"@,
            retryable: false,
            details: None,
        }),
{
}

/// Each state has the name that clients know it by.
pub proof fn states_have_their_names(lifecycle: AgentLifecycleView)
    ensures
        lifecycle is WaitingForSecret ==> lifecycle.name() == "waiting_for_secret"@,
        lifecycle is HasInvalidSecret ==> lifecycle.name() == "has_invalid_secret"@,
        lifecycle is DisabledOverLimit ==> lifecycle.name() == "disabled_over_limit"@,
        lifecycle is Starting ==> lifecycle.name() == "starting"@,
        lifecycle is Running ==> lifecycle.name() == "running"@,
        lifecycle is Stopping ==> lifecycle.name() == "stopping"@,
        lifecycle is Error ==> lifecycle.name() == "error"@,
{
}

/// A refused tunnel is told with the reason that the API gave for it.
pub proof fn refused_tunnels_are_told_why(failure: TunnelCreateErrorV1)
    ensures
        failure is AgentNotFound ==> create_failure(failure).1 == "the agent was not found"@,
        failure is InvalidAgentId ==> create_failure(failure).1 == "the agent ID is invalid"@,
        failure is AgentVersionTooOld ==> create_failure(failure).1
            == "the agent version is too old for this tunnel"@,
        failure is DedicatedIpNotFound ==> create_failure(failure).1
            == "the requested dedicated IP was not found"@,
        failure is PortAllocNotFound ==> create_failure(failure).1
            == "the requested port allocation was not found"@,
        failure is InvalidIpHostname ==> create_failure(failure).1
            == "the local IP or hostname is invalid"@,
        failure is InvalidPortCount ==> create_failure(failure).1
            == "the requested port count is invalid"@,
        failure is RequiresVerifiedAccount ==> create_failure(failure).1
            == "a verified account is required"@,
        failure is RegionNotSupported ==> create_failure(failure).1
            == "the requested region is not supported"@,
        failure is InvalidTunnelConfig ==> create_failure(failure).1
            == "the tunnel configuration is invalid"@,
        failure is FirewallNotFound ==> create_failure(failure).1
            == "the requested firewall was not found"@,
        failure is TunnelNameIsNotAscii ==> create_failure(failure).1
            == "the tunnel name must contain only ASCII characters"@,
        failure is TunnelNameTooLong ==> create_failure(failure).1
            == "the tunnel name is too long"@,
        failure is PortAllocDoesNotMatchPortDetails ==> create_failure(failure).1
            == "the port allocation does not match the requested tunnel"@,
        failure is RegionRequiresPlayitPremium ==> create_failure(failure).1
            == "the requested region requires Playit Premium"@,
        failure is PortAllocCurrentlyAssigned ==> create_failure(failure).1
            == "the requested port allocation is already assigned"@,
        failure is PublicPortRequiresPlayitPremium ==> create_failure(failure).1
            == "the requested public port requires Playit Premium"@,
        failure is RequiresPlayitPremium ==> create_failure(failure).1
            == "a Playit Premium account is required"@,
        failure is AllocRequestNotSupportedByPorts ==> create_failure(failure).1
            == "the allocation request is not supported by the requested ports"@,
        failure is InvalidHostnameId ==> create_failure(failure).1 == "the hostname ID is invalid"@,
        failure is HostnameHasTunnelTypeTarget ==> create_failure(failure).1
            == "the hostname is already configured for a tunnel type"@,
        failure is EndpointDoesNotSupportProtocol ==> create_failure(failure).1
            == "the endpoint does not support the requested protocol"@,
        failure is InvalidGatewayId ==> create_failure(failure).1 == "the gateway ID is invalid"@,
        failure is GatewayAlreadyHasTunnelType ==> create_failure(failure).1
            == "the gateway already has a tunnel type"@,
        failure is GatewayDoesNotSupportTunnelType ==> create_failure(failure).1
            == "the gateway does not support the requested tunnel type"@,
        failure is TunnelTypeBlockedOnRegion ==> create_failure(failure).1
            == "the requested tunnel type is blocked in this region"@,
        failure is InvalidSoftwareDescription ==> create_failure(failure).1
            == "the software description is invalid"@,
        failure is Other ==> create_failure(failure).1 == "the API rejected the request"@,
{
}

/// Why a secret cannot be provisioned is told in words that fit the state.
pub proof fn refused_setups_are_told_why(lifecycle: AgentLifecycleView)
    ensures
        ({
            let told = no_provisioning(lifecycle).service_error().message;
            &&& lifecycle is WaitingForSecret ==> told
                == "The Playit service is not ready to save a secret yet. Try setup again in a few seconds."@
            &&& lifecycle matches AgentLifecycleView::HasInvalidSecret(error) ==> told
                == "The Playit service is not waiting for a new secret because its current secret is invalid: "@
                + error.message
            &&& lifecycle matches AgentLifecycleView::DisabledOverLimit(error) ==> told
                == "Setup is unavailable because this account is over the agent limit.\n"@
                + "Delete unused agents: https://playit.gg/account/agents\nIncrease your agent limit: https://playit.gg/account/upgrade"@
                + "\nReason: "@ + error.message
            &&& lifecycle is Starting ==> told
                == "The Playit service is still starting. Try setup again in a few seconds."@
            &&& lifecycle is Running ==> told
                == "The Playit service already has a configured secret. Run playit reset before provisioning a new one."@
            &&& lifecycle is Stopping ==> told
                == "The Playit service is stopping and cannot accept setup right now."@
            &&& lifecycle matches AgentLifecycleView::Error(error) ==> told
                == "The Playit service reported an error and cannot accept setup right now: "@
                + error.message
        }),
{
}

/// A call without a usable answer is told with the operation that it was for.
pub proof fn lost_calls_name_their_operation(operation: Seq<char>, error: HttpClientErrorView)
    ensures
        ({
            let told = client_error(operation, error).service_error().message;
            &&& error is TooManyRequests ==> told == "The playit API is rate limiting "@ + operation
                + "; try again later."@
            &&& error matches HttpClientErrorView::RequestError(failure) ==> told == if failure.connect
                || failure.timeout || failure.request || failure.body {
                "Could not reach the playit API while performing "@ + operation + "."@
            } else {
                "The playit API request for "@ + operation + " could not be sent."@
            }
            &&& error matches HttpClientErrorView::ParseError(_, _, status) ==> told
                == "The playit API returned an invalid response for "@ + operation + " ("@
                + http_status_text(status) + ")."@
            &&& error is SerializeError ==> told == "Could not prepare the playit API request for "@
                + operation + "."@
        }),
{
}

/// What is asked for, and what is refused, is told in words.
pub proof fn requests_and_refusals_are_told<F>(
    protocol: TunnelProtocol,
    operation: Seq<char>,
    error: ApiError<F>,
    lifecycle: AgentLifecycleView,
)
    ensures
        raw_protocol(protocol)->software_description == if protocol is Tcp {
            "custom TCP tunnel"@
        } else if protocol is Udp {
            "custom UDP tunnel"@
        } else {
            "custom TCP and UDP tunnel"@
        },
        error is Fail ==> generic_error(operation, error).service_error().message
            == "The playit API rejected "@ + operation + "."@,
        lifecycle is WaitingForSecret ==> not_ready(operation, lifecycle).service_error().message
            == "Cannot "@ + operation + " while the service is waiting for an agent secret."@,
        lifecycle is Starting ==> not_ready(operation, lifecycle).service_error().message
            == "Cannot "@ + operation + " while the service is "@ + "starting"@ + "."@,
        lifecycle is Stopping ==> not_ready(operation, lifecycle).service_error().message
            == "Cannot "@ + operation + " while the service is "@ + "stopping"@ + "."@,
        lifecycle is Running ==> not_ready(operation, lifecycle).service_error().message
            == "Cannot "@ + operation + " because the running state changed unexpectedly."@,
{
}

/// A port that is none is told with the ports that there are, and an agent without an ID as one
/// that has not reported it.
pub proof fn impossible_requests_are_told(
    lifecycle: AgentLifecycleView,
    local_port: u16,
    local_address: Option<Seq<char>>,
    local_ip: Option<Seq<char>>,
    name: Option<Seq<char>>,
    protocol: TunnelProtocolV1View,
    agent_id: Result<u128, Seq<char>>,
)
    ensures
        ({
            let made = tunnel_request(
                lifecycle,
                local_port,
                local_address,
                local_ip,
                name,
                protocol,
                agent_id,
            );
            &&& local_port == 0 ==> made->Err_0.service_error().message
                == "local_port must be between 1 and 65535"@
            &&& local_port > 0 && local_ip is Some && lifecycle is Running && agent_id is Err
                ==> made->Err_0.service_error().message
                == "The running agent has not reported a valid agent ID yet"@
        }),
{
}

} // verus!
