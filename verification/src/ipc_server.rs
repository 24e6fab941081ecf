//! The service's side of a conversation: which request gets which answer.

use vstd::prelude::*;

use crate::api::{ReqTunnelsCreateV1, TunnelProtocolV1View, TunnelType};
use crate::claim::{claim_page, is_claim_code};
use crate::error::{plain_error, IoErrorKind, IoFailure, RuntimeError, RuntimeErrorView};
use crate::handle::{api_not_ready, planned, ApiCall, HandleView, LoginUrlPlan, PlayitHandle};
use crate::http_client::HttpClient;
use crate::ipc::{
    answer_to, asked, is_known_request_type, known_request, protocol, protocol_info, update_in,
    EventEnvelope, HelloEnvelope, IncomingEventEnvelope, IncomingRequestEnvelope,
    IncomingServerEnvelope, IpcClient, IpcError, IpcErrorView, RequestEnvelope, ResponseEnvelope,
    ServerEnvelope, ServiceRequest, ServiceRequestOrUnknown, ServiceRequestView, ServiceResponse,
    ServiceResponseView, ServiceUpdateOrUnknown, IPC_VERSION,
};
use crate::model::{
    AccountLoginUrlResponse, AccountLoginUrlResponseView, AgentLifecycleView, ClaimResponseView,
    CommandResponse, CommandResponseView, SecretPathResponse, SecretPathResponseView, ServiceError,
    ServiceErrorCode, ServiceErrorView, ServiceStatus, ServiceStatusView, ServiceUpdate,
    ServiceUpdateView, SubscribeResponse, SubscribeResponseView, SubscriptionSnapshotView,
    TunnelCreateResponse, TunnelListResponseView,
};
use crate::outside::{json_quoted, quote_json, uuid_parse};
use crate::secret::SecretSourceView;
use crate::state::fresh_link;
use crate::text::{decimal, decimal_text, join2, join3, opt_text, owned, trimmed};
use crate::tunnels::{
    agent_uuid, bad_tunnel_id, not_ready, raw_protocol, tunnel_request,
};

verus! {

// ---------------------------------------------------------------------------
// Errors of the protocol
// ---------------------------------------------------------------------------

/// An error of the protocol, without details.
pub fn protocol_error(code: ServiceErrorCode, message: String, retryable: bool) -> (r: ServiceError)
    ensures
        r@ == plain_error(code, message@, retryable),
{
    ServiceError { code, message, retryable, details: None }
}

/// The error for a request whose type is not known, with the type as a JSON text.
pub open spec fn unknown_type(request_type: Seq<char>, quoted: Seq<char>) -> ServiceErrorView {
    ServiceErrorView {
        code: ServiceErrorCode::InvalidRequestType,
        message: "unknown IPC request type: "@ + request_type,
        retryable: false,
        details: Some("{\"request_type\":"@ + quoted + "}"@),
    }
}

/// The error for a request whose type is not known.
pub fn invalid_request_type_error(request_type: &str) -> (r: ServiceError)
    ensures
        r@ == unknown_type(request_type@, json_quoted(request_type@)),
{
    let quoted = quote_json(request_type);
    unknown_type_error(request_type, quoted.as_str())
}

/// The error for a request whose type is not known, with the type as a JSON text.
pub fn unknown_type_error(request_type: &str, quoted: &str) -> (r: ServiceError)
    ensures
        r@ == unknown_type(request_type@, quoted@),
{
    ServiceError {
        code: ServiceErrorCode::InvalidRequestType,
        message: join2("unknown IPC request type: ", request_type),
        retryable: false,
        details: Some(join3("{\"request_type\":", quoted, "}")),
    }
}

/// The error for a request of another version of the protocol.
pub open spec fn unsupported_version(version: u32) -> ServiceErrorView {
    plain_error(
        ServiceErrorCode::UnsupportedProtocol,
        "unsupported IPC version "@ + decimal(version as nat) + " (expected "@ + decimal(
            IPC_VERSION as nat,
        ) + ")"@,
        false,
    )
}

/// Why a request is refused before anything is done, if so.
pub open spec fn refusal(envelope: IncomingRequestEnvelope) -> Option<ServiceErrorView> {
    if envelope.ipc_version != IPC_VERSION {
        Some(unsupported_version(envelope.ipc_version))
    } else {
        match envelope.request {
            ServiceRequestOrUnknown::Known(_) => None,
            ServiceRequestOrUnknown::Unknown(unknown) => Some(
                if known_request(unknown.wire_type@) {
                    plain_error(
                        ServiceErrorCode::InvalidRequest,
                        "invalid IPC request payload for "@ + unknown.wire_type@,
                        false,
                    )
                } else {
                    unknown_type(unknown.wire_type@, json_quoted(unknown.wire_type@))
                },
            ),
        }
    }
}

/// The request that a message carries, or the answer that refuses it.
pub fn validate_request_envelope(envelope: IncomingRequestEnvelope) -> (r: Result<
    ServiceRequest,
    ServiceResponse,
>)
    ensures
        match refusal(envelope) {
            Some(error) => r is Err && r->Err_0@ == ServiceResponseView::Error(error),
            None => envelope.request matches ServiceRequestOrUnknown::Known(request) && r == Ok::<
                ServiceRequest,
                ServiceResponse,
            >(request),
        },
{
    if envelope.ipc_version != IPC_VERSION {
        let actual = decimal_text(envelope.ipc_version as u64);
        let expected = decimal_text(IPC_VERSION as u64);
        let mut message = join3("unsupported IPC version ", actual.as_str(), " (expected ");
        message.append(expected.as_str());
        message.append(")");
        return Err(
            ServiceResponse::Error(
                protocol_error(ServiceErrorCode::UnsupportedProtocol, message, false),
            ),
        );
    }
    match envelope.request {
        ServiceRequestOrUnknown::Known(request) => Ok(request),
        ServiceRequestOrUnknown::Unknown(unknown) => {
            if is_known_request_type(unknown.wire_type.as_str()) {
                Err(
                    ServiceResponse::Error(
                        protocol_error(
                            ServiceErrorCode::InvalidRequest,
                            join2("invalid IPC request payload for ", unknown.wire_type.as_str()),
                            false,
                        ),
                    ),
                )
            } else {
                Err(
                    ServiceResponse::Error(
                        invalid_request_type_error(unknown.wire_type.as_str()),
                    ),
                )
            }
        },
    }
}

/// A request of another version, of an unknown type or of a broken form is refused, and
/// never worth another try; any other is not.
pub proof fn refusals_are_final(envelope: IncomingRequestEnvelope)
    ensures
        refusal(envelope) matches Some(error) ==> !error.retryable,
        refusal(envelope) is None <==> envelope.ipc_version == IPC_VERSION && envelope.request
            is Known,
{
}

// ---------------------------------------------------------------------------
// Answers
// ---------------------------------------------------------------------------

/// The answer to a request, and whether the client gets changes from now on.
#[derive(Debug)]
pub struct RequestOutcome {
    pub response: ServiceResponse,
    pub subscribed: bool,
}

impl RequestOutcome {
    pub fn respond(response: ServiceResponse) -> (r: Self)
        ensures
            r == (RequestOutcome { response, subscribed: false }),
    {
        RequestOutcome { response, subscribed: false }
    }
}

/// The answer for an operation that failed.
pub open spec fn failure(error: RuntimeErrorView) -> ServiceResponseView {
    ServiceResponseView::Error(error.service_error())
}

/// The answer for an operation that failed.
pub fn runtime_error_response(error: RuntimeError) -> (r: ServiceResponse)
    ensures
        r@ == failure(error@),
{
    ServiceResponse::Error(error.as_service_error())
}

/// What a request comes to.
pub enum ServerStep {
    /// Answer.
    Respond(RequestOutcome),
    /// Stop the daemon, then answer.
    StopHost(RequestOutcome),
    /// Begin the claim of this code, then answer.
    BeginClaim { code: String, outcome: RequestOutcome },
    /// Ask the API for a tunnel; [`tunnel_created`] has the answer.
    CreateTunnel(ApiCall<ReqTunnelsCreateV1>),
    /// Ask the API to delete a tunnel; [`tunnel_deleted`] has the answer.
    DeleteTunnel(ApiCall<u128>),
    /// Hand the secret over to be stored; [`secret_set`] has the answer.
    Provision { secret: String },
    /// Remove the secret file; [`secret_reset`] has the answer.
    RemoveSecret { path: String },
    /// Ask the API for a guest session; [`login_url_made`] has the answer.
    GuestLogin(HttpClient),
}

/// The service answers at once.
pub open spec fn answers(step: ServerStep, response: ServiceResponseView, subscribed: bool) -> bool {
    step matches ServerStep::Respond(outcome) && outcome.response@ == response
        && outcome.subscribed == subscribed
}

/// A status with the endpoint of the service.
pub open spec fn at_endpoint(status: ServiceStatusView, socket_path: Seq<char>) -> ServiceStatusView {
    ServiceStatusView { socket_path, ..status }
}

/// What a request for a tunnel comes to, given the request to send or the refusal.
pub open spec fn creates(
    handle: PlayitHandle,
    request: Result<crate::api::ReqTunnelsCreateV1View, RuntimeErrorView>,
    step: ServerStep,
) -> bool {
    match request {
        Ok(request) => step matches ServerStep::CreateTunnel(call) && call.request@ == request
            && handle.inner.api == Some(call.client),
        Err(error) => answers(step, failure(error), false),
    }
}

/// What a request comes to. `before` and `after` are the handle's states, `local_ip` the IP
/// address that the request's local address denotes, and `now` the time.
pub open spec fn serves(
    socket_path: Seq<char>,
    before: PlayitHandle,
    after: PlayitHandle,
    request: ServiceRequestView,
    local_ip: Option<Seq<char>>,
    now: u64,
    step: ServerStep,
) -> bool {
    let handle = before@;
    &&& after.inner.api == before.inner.api
    &&& !(request is StartClaim) ==> after@ == handle
    &&& match request {
        ServiceRequestView::Subscribe => answers(
            step,
            ServiceResponseView::Subscribe(
                SubscribeResponseView {
                    protocol: protocol(),
                    snapshot: SubscriptionSnapshotView {
                        status: at_endpoint(handle.status(now), socket_path),
                        ..handle.state
                    },
                },
            ),
            true,
        ),
        ServiceRequestView::GetStatus => answers(
            step,
            ServiceResponseView::Status(at_endpoint(handle.status(now), socket_path)),
            false,
        ),
        ServiceRequestView::GetState => answers(
            step,
            ServiceResponseView::State(handle.state.lifecycle),
            false,
        ),
        ServiceRequestView::GetTunnels => answers(
            step,
            if handle.cancelled {
                failure(RuntimeErrorView::Stopped)
            } else {
                match handle.state.lifecycle {
                    AgentLifecycleView::Running(state) => ServiceResponseView::Tunnels(
                        TunnelListResponseView {
                            tunnels: state.tunnels,
                            pending_tunnels: state.pending_tunnels,
                        },
                    ),
                    other => failure(not_ready("list tunnels"@, other)),
                }
            },
            false,
        ),
        ServiceRequestView::GetAccountTunnels => answers(
            step,
            ServiceResponseView::Error(
                unknown_type(
                    "get_account_tunnels"@,
                    json_quoted("get_account_tunnels"@),
                ),
            ),
            false,
        ),
        ServiceRequestView::ReassignTunnel { .. } => answers(
            step,
            ServiceResponseView::Error(
                unknown_type("reassign_tunnel"@, json_quoted("reassign_tunnel"@)),
            ),
            false,
        ),
        ServiceRequestView::CreateTunnel { local_port, protocol, local_address, name } => creates(
            before,
            planned(
                before,
                tunnel_request(
                    handle.state.lifecycle,
                    local_port,
                    local_address,
                    local_ip,
                    name,
                    raw_protocol(protocol),
                    agent_uuid(handle.state.lifecycle),
                ),
            ),
            step,
        ),
        ServiceRequestView::CreateMinecraftJavaTunnel { local_port, local_address, name } =>
            creates(
            before,
            planned(
                before,
                tunnel_request(
                    handle.state.lifecycle,
                    local_port,
                    local_address,
                    local_ip,
                    name,
                    TunnelProtocolV1View::TunnelType(TunnelType::MinecraftJava),
                    agent_uuid(handle.state.lifecycle),
                ),
            ),
            step,
        ),
        ServiceRequestView::DeleteTunnel { tunnel_id } => if handle.cancelled {
            answers(step, failure(RuntimeErrorView::Stopped), false)
        } else {
            match uuid_parse(trimmed(tunnel_id)) {
                Err(_) => answers(step, failure(bad_tunnel_id()), false),
                Ok(id) => match before.inner.api {
                    Some(client) => step == ServerStep::DeleteTunnel(
                        ApiCall { client, request: id },
                    ),
                    None => answers(step, failure(api_not_ready()), false),
                },
            }
        },
        ServiceRequestView::GetAccount => answers(
            step,
            if handle.cancelled {
                failure(RuntimeErrorView::Stopped)
            } else {
                ServiceResponseView::Account(handle.account())
            },
            false,
        ),
        ServiceRequestView::StartClaim => match handle.provisioning_refused() {
            Some(error) => answers(step, failure(error), false) && after@ == handle,
            None => {
                &&& after@.claim_code matches Some(code)
                &&& after@ == (HandleView { claim_code: Some(code), ..handle })
                &&& match handle.claim_code {
                    Some(active) => {
                        &&& code == active
                        &&& answers(
                            step,
                            ServiceResponseView::Claim(
                                ClaimResponseView { claim_url: claim_page(code) },
                            ),
                            false,
                        )
                    },
                    None => {
                        &&& is_claim_code(code)
                        &&& step matches ServerStep::BeginClaim { code: begun, outcome }
                        &&& begun@ == code
                        &&& outcome.response@ == ServiceResponseView::Claim(
                            ClaimResponseView { claim_url: claim_page(code) },
                        )
                        &&& !outcome.subscribed
                    },
                }
            },
        },
        ServiceRequestView::Stop => step matches ServerStep::StopHost(outcome)
            && outcome.response@ == ServiceResponseView::Stop(
            CommandResponseView { accepted: true, message: Some("shutdown requested"@) },
        ) && !outcome.subscribed,
        ServiceRequestView::SetSecret { secret } => match handle.provisioning_refused() {
            Some(error) => answers(step, failure(error), false),
            None => step matches ServerStep::Provision { secret: handed } && handed@ == secret,
        },
        ServiceRequestView::ResetSecret => if handle.cancelled {
            answers(step, failure(RuntimeErrorView::Stopped), false)
        } else {
            match handle.source {
                SecretSourceView::File { path } => step matches ServerStep::RemoveSecret {
                    path: removed,
                } && removed@ == path,
                SecretSourceView::Inline { .. } => answers(
                    step,
                    failure(handle.source.reset_error()),
                    false,
                ),
            }
        },
        ServiceRequestView::GetSecretPath => answers(
            step,
            ServiceResponseView::SecretPath(
                SecretPathResponseView {
                    secret_path: match handle.source {
                        SecretSourceView::File { path } => Some(path),
                        SecretSourceView::Inline { .. } => None,
                    },
                },
            ),
            false,
        ),
        ServiceRequestView::GetAccountLoginUrl => if handle.cancelled {
            answers(step, failure(RuntimeErrorView::Stopped), false)
        } else {
            match fresh_link(handle.login, now) {
                Some(link) => answers(
                    step,
                    ServiceResponseView::AccountLoginUrl(
                        AccountLoginUrlResponseView { login_url: link },
                    ),
                    false,
                ),
                None => match before.inner.api {
                    Some(client) => step == ServerStep::GuestLogin(client),
                    None => answers(step, failure(api_not_ready()), false),
                },
            }
        },
    }
}

/// The service, which clients reach at its endpoint.
pub struct IpcServer {
    pub socket_path: String,
}

/// The answers that a request can get. An error can answer any.
pub open spec fn fits(request: ServiceRequestView, response: ServiceResponseView) -> bool {
    response is Error || match request {
        ServiceRequestView::Subscribe => response is Subscribe,
        ServiceRequestView::GetStatus => response is Status,
        ServiceRequestView::GetState => response is State,
        ServiceRequestView::GetTunnels => response is Tunnels,
        ServiceRequestView::GetAccountTunnels => response is AccountTunnels,
        ServiceRequestView::CreateTunnel { .. } => response is CreateTunnel,
        ServiceRequestView::CreateMinecraftJavaTunnel { .. } => response is CreateTunnel,
        ServiceRequestView::DeleteTunnel { .. } => response is DeleteTunnel,
        ServiceRequestView::ReassignTunnel { .. } => response is ReassignTunnel,
        ServiceRequestView::GetAccount => response is Account,
        ServiceRequestView::StartClaim => response is Claim,
        ServiceRequestView::Stop => response is Stop,
        ServiceRequestView::SetSecret { .. } => response is SetSecret,
        ServiceRequestView::ResetSecret => response is ResetSecret,
        ServiceRequestView::GetSecretPath => response is SecretPath,
        ServiceRequestView::GetAccountLoginUrl => response is AccountLoginUrl,
    }
}

/// Every request gets an answer of the kind that its client waits for, or an error: at once,
/// or by the function that answers for the step that the request comes to.
pub proof fn requests_get_fitting_answers(
    socket_path: Seq<char>,
    before: PlayitHandle,
    after: PlayitHandle,
    request: ServiceRequestView,
    local_ip: Option<Seq<char>>,
    now: u64,
    step: ServerStep,
)
    requires
        serves(socket_path, before, after, request, local_ip, now, step),
    ensures
        match step {
            ServerStep::Respond(outcome) => fits(request, outcome.response@),
            ServerStep::StopHost(outcome) => request is Stop && fits(request, outcome.response@),
            ServerStep::BeginClaim { outcome, .. } => fits(request, outcome.response@),
            ServerStep::CreateTunnel(_) => request is CreateTunnel || request
                is CreateMinecraftJavaTunnel,
            ServerStep::DeleteTunnel(_) => request is DeleteTunnel,
            ServerStep::Provision { .. } => request is SetSecret,
            ServerStep::RemoveSecret { .. } => request is ResetSecret,
            ServerStep::GuestLogin(_) => request is GetAccountLoginUrl,
        },
{
}

/// The requests that a runtime answers while it stops: those for what is known of it, and
/// those that are none of its operations.
pub open spec fn answered_to_the_end(request: ServiceRequestView) -> bool {
    ||| request is Subscribe
    ||| request is GetStatus
    ||| request is GetState
    ||| request is GetSecretPath
    ||| request is Stop
    ||| request is GetAccountTunnels
    ||| request is ReassignTunnel
}

/// A runtime that stops refuses every operation, whatever its state is and whatever is asked
/// for, and does nothing.
pub proof fn stopped_runtimes_do_nothing(
    socket_path: Seq<char>,
    before: PlayitHandle,
    after: PlayitHandle,
    request: ServiceRequestView,
    local_ip: Option<Seq<char>>,
    now: u64,
    step: ServerStep,
)
    requires
        before@.cancelled,
        !answered_to_the_end(request),
        serves(socket_path, before, after, request, local_ip, now, step),
    ensures
        answers(step, failure(RuntimeErrorView::Stopped), false),
        after@ == before@,
{
}

/// Two steps that a client cannot tell apart: the same answer, or the same work on the
/// client's behalf. The code of a new claim is random.
pub open spec fn same_to_clients(a: ServerStep, b: ServerStep) -> bool {
    match (a, b) {
        (ServerStep::Respond(x), ServerStep::Respond(y)) => x.response@ == y.response@
            && x.subscribed == y.subscribed,
        (ServerStep::StopHost(x), ServerStep::StopHost(y)) => x.response@ == y.response@
            && x.subscribed == y.subscribed,
        (ServerStep::BeginClaim { .. }, ServerStep::BeginClaim { .. }) => true,
        (ServerStep::CreateTunnel(x), ServerStep::CreateTunnel(y)) => x.request@ == y.request@,
        (ServerStep::DeleteTunnel(x), ServerStep::DeleteTunnel(y)) => x.request == y.request,
        (ServerStep::Provision { secret: x }, ServerStep::Provision { secret: y }) => x@ == y@,
        (ServerStep::RemoveSecret { path: x }, ServerStep::RemoveSecret { path: y }) => x@ == y@,
        (ServerStep::GuestLogin(_), ServerStep::GuestLogin(_)) => true,
        _ => false,
    }
}

/// No answer depends on the agent's secret: runtimes that differ in nothing else treat every
/// request alike.
pub proof fn answers_hide_the_secret(
    socket_path: Seq<char>,
    before: (PlayitHandle, PlayitHandle),
    after: (PlayitHandle, PlayitHandle),
    request: ServiceRequestView,
    local_ip: Option<Seq<char>>,
    now: u64,
    steps: (ServerStep, ServerStep),
)
    requires
        before.0@.same_but_secret(before.1@),
        serves(socket_path, before.0, after.0, request, local_ip, now, steps.0),
        serves(socket_path, before.1, after.1, request, local_ip, now, steps.1),
    ensures
        same_to_clients(steps.0, steps.1),
{
}

/// Only a request to stop stops the daemon, and it leaves the runtime as it is.
pub proof fn only_stop_requests_stop_the_daemon(
    socket_path: Seq<char>,
    before: PlayitHandle,
    after: PlayitHandle,
    request: ServiceRequestView,
    local_ip: Option<Seq<char>>,
    now: u64,
    step: ServerStep,
)
    requires
        serves(socket_path, before, after, request, local_ip, now, step),
    ensures
        step is StopHost <==> request is Stop,
        after@.cancelled == before@.cancelled,
        after@.state == before@.state,
{
}

fn respond(response: ServiceResponse) -> (r: ServerStep)
    ensures
        r == ServerStep::Respond(RequestOutcome { response, subscribed: false }),
{
    ServerStep::Respond(RequestOutcome::respond(response))
}

fn refuse(error: RuntimeError) -> (r: ServerStep)
    ensures
        answers(r, failure(error@), false),
{
    respond(runtime_error_response(error))
}

impl IpcServer {
    pub fn new(socket_path: String) -> (r: Self)
        ensures
            r.socket_path == socket_path,
    {
        IpcServer { socket_path }
    }

    fn subscribe_response(&self, handle: &PlayitHandle, now: u64) -> (r: SubscribeResponse)
        ensures
            r@ == (SubscribeResponseView {
                protocol: protocol(),
                snapshot: SubscriptionSnapshotView {
                    status: at_endpoint(handle@.status(now), self.socket_path@),
                    ..handle@.state
                },
            }),
    {
        let mut response = handle.subscription_snapshot(now);
        response.snapshot.status.socket_path = self.socket_path.clone();
        response
    }

    fn status_response(&self, handle: &PlayitHandle, now: u64) -> (r: ServiceStatus)
        ensures
            r@ == at_endpoint(handle@.status(now), self.socket_path@),
    {
        let mut status = handle.status(now);
        status.socket_path = self.socket_path.clone();
        status
    }

    /// What a request comes to. `local_ip` is the IP address that the request's local
    /// address denotes, in its canonical form, and `now` the time in milliseconds.
    pub fn handle_service_request(
        &self,
        handle: &mut PlayitHandle,
        request: ServiceRequest,
        local_ip: Option<String>,
        now: u64,
    ) -> (r: ServerStep)
        ensures
            serves(
                self.socket_path@,
                *old(handle),
                *final(handle),
                request@,
                opt_text(local_ip),
                now,
                r,
            ),
    {
        match request {
            ServiceRequest::Subscribe => ServerStep::Respond(
                RequestOutcome {
                    response: ServiceResponse::Subscribe(self.subscribe_response(handle, now)),
                    subscribed: true,
                },
            ),
            ServiceRequest::GetStatus => respond(
                ServiceResponse::Status(self.status_response(handle, now)),
            ),
            ServiceRequest::GetState => respond(ServiceResponse::State(handle.lifecycle())),
            ServiceRequest::GetTunnels => match handle.list_tunnels() {
                Ok(tunnels) => respond(ServiceResponse::Tunnels(tunnels)),
                Err(error) => refuse(error),
            },
            ServiceRequest::GetAccountTunnels => respond(
                ServiceResponse::Error(invalid_request_type_error("get_account_tunnels")),
            ),
            ServiceRequest::ReassignTunnel { .. } => respond(
                ServiceResponse::Error(invalid_request_type_error("reassign_tunnel")),
            ),
            ServiceRequest::CreateTunnel { local_port, protocol, local_address, name } => {
                match handle.create_tunnel(local_port, protocol, local_address, local_ip, name) {
                    Ok(call) => ServerStep::CreateTunnel(call),
                    Err(error) => refuse(error),
                }
            },
            ServiceRequest::CreateMinecraftJavaTunnel { local_port, local_address, name } => {
                match handle.create_minecraft_java_tunnel(
                    local_port,
                    local_address,
                    local_ip,
                    name,
                ) {
                    Ok(call) => ServerStep::CreateTunnel(call),
                    Err(error) => refuse(error),
                }
            },
            ServiceRequest::DeleteTunnel { tunnel_id } => match handle.delete_tunnel(
                tunnel_id.as_str(),
            ) {
                Ok(call) => ServerStep::DeleteTunnel(call),
                Err(error) => refuse(error),
            },
            ServiceRequest::GetAccount => match handle.account() {
                Ok(account) => respond(ServiceResponse::Account(account)),
                Err(error) => refuse(error),
            },
            ServiceRequest::StartClaim => match handle.start_claim() {
                Ok(start) => {
                    let outcome = RequestOutcome::respond(ServiceResponse::Claim(start.response));
                    match start.begin {
                        Some(code) => ServerStep::BeginClaim { code, outcome },
                        None => ServerStep::Respond(outcome),
                    }
                },
                Err(error) => refuse(error),
            },
            ServiceRequest::Stop => ServerStep::StopHost(
                RequestOutcome::respond(
                    ServiceResponse::Stop(
                        CommandResponse {
                            accepted: true,
                            message: Some(owned("shutdown requested")),
                        },
                    ),
                ),
            ),
            ServiceRequest::SetSecret { secret } => match handle.set_secret() {
                Ok(_) => ServerStep::Provision { secret },
                Err(error) => refuse(error),
            },
            ServiceRequest::ResetSecret => match handle.reset_secret() {
                Ok(path) => ServerStep::RemoveSecret { path },
                Err(error) => refuse(error),
            },
            ServiceRequest::GetSecretPath => respond(
                ServiceResponse::SecretPath(
                    SecretPathResponse { secret_path: handle.secret_path() },
                ),
            ),
            ServiceRequest::GetAccountLoginUrl => match handle.account_login_url(now) {
                Ok(LoginUrlPlan::Known(known)) => respond(ServiceResponse::AccountLoginUrl(known)),
                Ok(LoginUrlPlan::Ask(client)) => ServerStep::GuestLogin(client),
                Err(error) => refuse(error),
            },
        }
    }

    /// What a message comes to: a request that is not acceptable is answered at once.
    pub fn handle_request_envelope(
        &self,
        handle: &mut PlayitHandle,
        envelope: IncomingRequestEnvelope,
        local_ip: Option<String>,
        now: u64,
    ) -> (r: ServerStep)
        ensures
            match refusal(envelope) {
                Some(error) => {
                    &&& answers(r, ServiceResponseView::Error(error), false)
                    &&& *final(handle) == *old(handle)
                },
                None => {
                    &&& envelope.request matches ServiceRequestOrUnknown::Known(request)
                    &&& serves(
                        self.socket_path@,
                        *old(handle),
                        *final(handle),
                        request@,
                        opt_text(local_ip),
                        now,
                        r,
                    )
                },
            },
    {
        match validate_request_envelope(envelope) {
            Ok(request) => self.handle_service_request(handle, request, local_ip, now),
            Err(response) => respond(response),
        }
    }

    /// A change as this service tells it: a status names the endpoint.
    pub fn transport_event(&self, event: ServiceUpdate) -> (r: ServiceUpdate)
        ensures
            r@ == match event@ {
                ServiceUpdateView::Status(status) => ServiceUpdateView::Status(
                    at_endpoint(status, self.socket_path@),
                ),
                other => other,
            },
    {
        match event {
            ServiceUpdate::Status(status) => {
                let mut status = status;
                status.socket_path = self.socket_path.clone();
                ServiceUpdate::Status(status)
            },
            event => event,
        }
    }
}

/// The answer after a tunnel was asked for.
pub fn tunnel_created(result: Result<TunnelCreateResponse, RuntimeError>) -> (r: RequestOutcome)
    ensures
        !r.subscribed,
        r.response@ == match result {
            Ok(created) => ServiceResponseView::CreateTunnel(created@),
            Err(error) => failure(error@),
        },
{
    match result {
        Ok(created) => RequestOutcome::respond(ServiceResponse::CreateTunnel(created)),
        Err(error) => RequestOutcome::respond(runtime_error_response(error)),
    }
}

/// The answer after a tunnel was to be deleted.
pub fn tunnel_deleted(result: Result<CommandResponse, RuntimeError>) -> (r: RequestOutcome)
    ensures
        !r.subscribed,
        r.response@ == match result {
            Ok(done) => ServiceResponseView::DeleteTunnel(done@),
            Err(error) => failure(error@),
        },
{
    match result {
        Ok(done) => RequestOutcome::respond(ServiceResponse::DeleteTunnel(done)),
        Err(error) => RequestOutcome::respond(runtime_error_response(error)),
    }
}

/// The answer after a secret was to be stored.
pub fn secret_set(result: Result<CommandResponse, RuntimeError>) -> (r: RequestOutcome)
    ensures
        !r.subscribed,
        r.response@ == match result {
            Ok(done) => ServiceResponseView::SetSecret(done@),
            Err(error) => failure(error@),
        },
{
    match result {
        Ok(done) => RequestOutcome::respond(ServiceResponse::SetSecret(done)),
        Err(error) => RequestOutcome::respond(runtime_error_response(error)),
    }
}

/// The answer after the secret was to be removed.
pub fn secret_reset(result: Result<CommandResponse, RuntimeError>) -> (r: RequestOutcome)
    ensures
        !r.subscribed,
        r.response@ == match result {
            Ok(done) => ServiceResponseView::ResetSecret(done@),
            Err(error) => failure(error@),
        },
{
    match result {
        Ok(done) => RequestOutcome::respond(ServiceResponse::ResetSecret(done)),
        Err(error) => RequestOutcome::respond(runtime_error_response(error)),
    }
}

/// The answer after a login link was asked for.
pub fn login_url_made(result: Result<AccountLoginUrlResponse, RuntimeError>) -> (r: RequestOutcome)
    ensures
        !r.subscribed,
        r.response@ == match result {
            Ok(made) => ServiceResponseView::AccountLoginUrl(made@),
            Err(error) => failure(error@),
        },
{
    match result {
        Ok(made) => RequestOutcome::respond(ServiceResponse::AccountLoginUrl(made)),
        Err(error) => RequestOutcome::respond(runtime_error_response(error)),
    }
}

// ---------------------------------------------------------------------------
// One client
// ---------------------------------------------------------------------------

/// The service's side of the conversation with one client.
pub struct ClientConversation {
    /// Whether the client gets changes.
    pub subscribed: bool,
}

impl ClientConversation {
    pub fn new() -> (r: Self)
        ensures
            !r.subscribed,
    {
        ClientConversation { subscribed: false }
    }

    /// The first message.
    pub fn hello(&self) -> (r: ServerEnvelope)
        ensures
            r matches ServerEnvelope::Hello(hello) && hello.protocol@ == protocol(),
    {
        ServerEnvelope::Hello(HelloEnvelope { protocol: protocol_info() })
    }

    /// The message that answers request `request_id`. Once subscribed, a client stays so.
    pub fn respond(&mut self, request_id: u64, outcome: RequestOutcome) -> (r: ServerEnvelope)
        ensures
            final(self).subscribed == (old(self).subscribed || outcome.subscribed),
            r == ServerEnvelope::Response(
                ResponseEnvelope {
                    ipc_version: IPC_VERSION,
                    request_id,
                    response: outcome.response,
                },
            ),
    {
        if outcome.subscribed {
            self.subscribed = true;
        }
        ServerEnvelope::Response(
            ResponseEnvelope { ipc_version: IPC_VERSION, request_id, response: outcome.response },
        )
    }

    /// The message that tells a change, if the client gets changes.
    pub fn event(&self, server: &IpcServer, update: ServiceUpdate) -> (r: Option<ServerEnvelope>)
        ensures
            r is Some <==> self.subscribed,
            r matches Some(envelope) ==> {
                &&& envelope matches ServerEnvelope::Event(event)
                &&& event.ipc_version == IPC_VERSION
                &&& event.event@ == match update@ {
                    ServiceUpdateView::Status(status) => ServiceUpdateView::Status(
                        at_endpoint(status, server.socket_path@),
                    ),
                    other => other,
                }
            },
    {
        if !self.subscribed {
            return None;
        }
        Some(
            ServerEnvelope::Event(
                EventEnvelope {
                    ipc_version: IPC_VERSION,
                    event: server.transport_event(update),
                },
            ),
        )
    }
}

/// The two sides of a conversation agree: a client accepts the service's first message, the
/// service refuses no request that a client makes, the client takes its answer for that
/// request, and every change that it tells for a change.
pub proof fn the_two_sides_agree(
    before: IpcClient,
    after: IpcClient,
    envelope: RequestEnvelope,
    request: ServiceRequestView,
    hello: HelloEnvelope,
    response: ServiceResponse,
    update: ServiceUpdate,
)
    requires
        asked(before, after, envelope, request),
        hello.protocol@ == protocol(),
    ensures
        hello.protocol.ipc_version == IPC_VERSION,
        refusal(
            IncomingRequestEnvelope {
                ipc_version: envelope.ipc_version,
                request_id: envelope.request_id,
                request: ServiceRequestOrUnknown::Known(envelope.request),
            },
        ) is None,
        answer_to(
            envelope.request_id,
            ServerEnvelope::Response(
                ResponseEnvelope {
                    ipc_version: IPC_VERSION,
                    request_id: envelope.request_id,
                    response,
                },
            ),
        ) == Ok::<ServiceResponse, IpcErrorView>(response),
        update_in(
            IncomingServerEnvelope::Event(
                IncomingEventEnvelope {
                    ipc_version: IPC_VERSION,
                    event: ServiceUpdateOrUnknown::Known(update),
                },
            ),
        ) == Ok::<Option<ServiceUpdate>, IpcErrorView>(Some(update)),
{
}

// ---------------------------------------------------------------------------
// The listener
// ---------------------------------------------------------------------------

/// Whether a new service may take the endpoint: not while another one answers there.
pub fn claim_endpoint(answers_there: bool) -> (r: Result<(), IpcError>)
    ensures
        if answers_there {
            r == Err::<(), IpcError>(IpcError::AlreadyRunning)
        } else {
            r is Ok
        },
{
    if answers_there {
        Err(IpcError::AlreadyRunning)
    } else {
        Ok(())
    }
}

/// What follows a listener that could not be made with its permission bits: where the
/// system cannot set them at once, they are set afterwards; any other failure is final.
pub fn listener_failed(failure: IoFailure) -> (r: Result<(), IpcError>)
    ensures
        if failure.kind == IoErrorKind::Unsupported {
            r is Ok
        } else {
            r == Err::<(), IpcError>(IpcError::BindFailed(failure))
        },
{
    if failure.kind == IoErrorKind::Unsupported {
        Ok(())
    } else {
        Err(IpcError::BindFailed(failure))
    }
}

// ---------------------------------------------------------------------------
// Laws of what is answered
// ---------------------------------------------------------------------------

/// A request is read exactly if it is of version 3 of the protocol and of a form that this
/// version knows. Another version is told first, with both numbers; a name that is known, with
/// a content that cannot be read, is told apart from a name that is not.
pub proof fn refusals_tell_what_is_wrong(envelope: IncomingRequestEnvelope)
    ensures
        envelope.ipc_version == 3 && envelope.request is Known <==> refusal(envelope) is None,
        envelope.ipc_version != 3 ==> refusal(envelope) == Some(
            ServiceErrorView {
                code: ServiceErrorCode::UnsupportedProtocol,
                message: "unsupported IPC version "@ + decimal(envelope.ipc_version as nat)
                    + " (expected "@ + decimal(3) + ")"@,
                retryable: false,
                details: None,
            },
        ),
        envelope.ipc_version == 3 ==> (envelope.request matches ServiceRequestOrUnknown::Unknown(
            unknown,
        ) ==> refusal(envelope) is Some && refusal(envelope)->0.code == (if known_request(
            unknown.wire_type@,
        ) {
            ServiceErrorCode::InvalidRequest
        } else {
            ServiceErrorCode::InvalidRequestType
        })),
{
}

/// Whoever asks for the state of the service gets it as it is, now and at this endpoint; only
/// who subscribes gets the changes too, and nothing else that is asked for changes the service.
pub proof fn questions_are_answered_from_the_state(
    socket_path: Seq<char>,
    before: PlayitHandle,
    after: PlayitHandle,
    request: ServiceRequestView,
    local_ip: Option<Seq<char>>,
    now: u64,
    step: ServerStep,
)
    requires
        serves(socket_path, before, after, request, local_ip, now, step),
    ensures
        request is Subscribe || request is GetStatus || request is GetState || request is GetTunnels
            || request is GetAccount || request is GetSecretPath ==> {
            &&& after@ == before@
            &&& step is Respond
            &&& step->Respond_0.subscribed <==> request is Subscribe
            &&& match step->Respond_0.response@ {
                ServiceResponseView::Subscribe(answer) => {
                    &&& request is Subscribe
                    &&& answer.snapshot.lifecycle == before@.state.lifecycle
                    &&& answer.snapshot.stats == before@.state.stats
                    &&& answer.snapshot.status.socket_path == socket_path
                    &&& answer.snapshot.status.phase == before@.state.status.phase
                    &&& answer.snapshot.status.has_secret == before@.state.status.has_secret
                    &&& answer.snapshot.status.last_error == before@.state.status.last_error
                },
                ServiceResponseView::Status(status) => {
                    &&& request is GetStatus
                    &&& status.socket_path == socket_path
                    &&& status.phase == before@.state.status.phase
                    &&& status.pid == before@.state.status.pid
                    &&& status.version == before@.state.status.version
                    &&& status.has_secret == before@.state.status.has_secret
                    &&& status.last_error == before@.state.status.last_error
                    &&& status.secret_path == before@.state.status.secret_path
                    &&& now >= before@.context.start_time ==> status.uptime_secs * 1000 <= now
                        - before@.context.start_time < (status.uptime_secs + 1) * 1000
                },
                ServiceResponseView::State(lifecycle) => request is GetState && lifecycle
                    == before@.state.lifecycle,
                ServiceResponseView::Tunnels(list) => {
                    &&& request is GetTunnels
                    &&& !before@.cancelled
                    &&& before@.state.lifecycle matches AgentLifecycleView::Running(state)
                    &&& list.tunnels == state.tunnels
                    &&& list.pending_tunnels == state.pending_tunnels
                },
                ServiceResponseView::Account(account) => {
                    &&& request is GetAccount
                    &&& !before@.cancelled
                    &&& account == before@.account()
                },
                ServiceResponseView::SecretPath(answer) => {
                    &&& request is GetSecretPath
                    &&& before@.source matches SecretSourceView::File { path }
                        ==> answer.secret_path == Some(path)
                    &&& before@.source is Inline ==> answer.secret_path is None
                },
                ServiceResponseView::Error(error) => {
                    ||| request is GetTunnels && (before@.cancelled
                        || !(before@.state.lifecycle is Running))
                    ||| request is GetAccount && before@.cancelled
                },
                _ => false,
            }
        },
{
}

/// A command is carried out exactly as asked, once it can be: the tunnel with the given ID is
/// deleted, the given secret is handed over to be stored, the secret file is removed, the daemon
/// stops. A runtime that stops refuses all but the last.
pub proof fn commands_are_carried_out(
    socket_path: Seq<char>,
    before: PlayitHandle,
    after: PlayitHandle,
    request: ServiceRequestView,
    local_ip: Option<Seq<char>>,
    now: u64,
    step: ServerStep,
)
    requires
        serves(socket_path, before, after, request, local_ip, now, step),
    ensures
        request matches ServiceRequestView::DeleteTunnel { tunnel_id } ==> (step is DeleteTunnel
            <==> !before@.cancelled && uuid_parse(trimmed(tunnel_id)) is Ok && before@.api
            is Some),
        request matches ServiceRequestView::DeleteTunnel { tunnel_id } ==> (step
            matches ServerStep::DeleteTunnel(call) ==> uuid_parse(trimmed(tunnel_id)) == Ok::<
            u128,
            Seq<char>,
        >(call.request) && before.inner.api == Some(call.client)),
        request matches ServiceRequestView::SetSecret { secret } ==> (step is Provision
            <==> !before@.cancelled && before@.state.lifecycle is WaitingForSecret
            && before@.can_provision) && (step matches ServerStep::Provision { secret: handed }
            ==> handed@ == secret),
        request is ResetSecret ==> (step is RemoveSecret <==> !before@.cancelled && before@.source
            is File) && (step matches ServerStep::RemoveSecret { path } ==> before@.source == (
        SecretSourceView::File { path: path@ })),
        request is Stop <==> step is StopHost,
        request is Stop ==> (step->StopHost_0.response@ matches ServiceResponseView::Stop(answer)
            && answer.accepted && answer.message == Some("shutdown requested"@)),
        request is GetAccountLoginUrl ==> (step matches ServerStep::GuestLogin(client)
            ==> before.inner.api == Some(client) && !before@.cancelled),
{
}

/// A tunnel is asked for exactly if it can be: for the port and the address that were given, with
/// the protocol that was asked for, and for the agent that runs.
pub proof fn tunnels_are_asked_for_as_requested(
    socket_path: Seq<char>,
    before: PlayitHandle,
    after: PlayitHandle,
    request: ServiceRequestView,
    local_ip: Option<Seq<char>>,
    now: u64,
    step: ServerStep,
)
    requires
        serves(socket_path, before, after, request, local_ip, now, step),
        request is CreateTunnel || request is CreateMinecraftJavaTunnel,
    ensures
        ({
            let (local_port, name) = match request {
                ServiceRequestView::CreateTunnel { local_port, name, .. } => (local_port, name),
                ServiceRequestView::CreateMinecraftJavaTunnel { local_port, name, .. } => (
                    local_port,
                    name,
                ),
                _ => (0u16, None),
            };
            let agent = match before@.state.lifecycle {
                AgentLifecycleView::Running(state) => uuid_parse(state.agent_id),
                _ => Err(Seq::empty()),
            };
            &&& step is CreateTunnel <==> !before@.cancelled && local_port > 0 && local_ip is Some
                && before@.state.lifecycle is Running && agent is Ok && before@.api is Some
            &&& step is CreateTunnel ==> {
                let sent = step->CreateTunnel_0.request@;
                &&& before.inner.api == Some(step->CreateTunnel_0.client)
                &&& sent.config == Some(
                    seq![("local_ip"@, local_ip->0), ("local_port"@, decimal(local_port as nat))],
                )
                &&& sent.agent_id == Some(agent->Ok_0)
                &&& sent.enabled
                &&& sent.name == (if name is Some && trimmed(name->0).len() > 0 {
                    trimmed(name->0)
                } else {
                    "playit-tunnel"@
                })
                &&& request is CreateMinecraftJavaTunnel ==> sent.protocol
                    == TunnelProtocolV1View::TunnelType(TunnelType::MinecraftJava)
                &&& request matches ServiceRequestView::CreateTunnel { protocol, .. }
                    ==> sent.protocol is RawPorts && sent.protocol->port_count == 1 && (
                sent.protocol->port_type is Tcp <==> protocol is Tcp) && (
                sent.protocol->port_type is Udp <==> protocol is Udp) && (
                sent.protocol->port_type is Both <==> protocol is Both)
            }
            &&& !(step is CreateTunnel) ==> step is Respond && step->Respond_0.response@ is Error
                && !step->Respond_0.subscribed
        }),
{
}

/// A claim is begun exactly if a secret is waited for and can be stored and no claim is active;
/// the answer names the page of the claim that is active from then on.
pub proof fn claims_are_begun_when_needed(
    socket_path: Seq<char>,
    before: PlayitHandle,
    after: PlayitHandle,
    local_ip: Option<Seq<char>>,
    now: u64,
    step: ServerStep,
)
    requires
        serves(
            socket_path,
            before,
            after,
            ServiceRequestView::StartClaim,
            local_ip,
            now,
            step,
        ),
    ensures
        ({
            let awaited = !before@.cancelled && before@.state.lifecycle is WaitingForSecret
                && before@.can_provision;
            &&& step is BeginClaim <==> awaited && before@.claim_code is None
            &&& !awaited ==> after@ == before@ && step is Respond
                && step->Respond_0.response@ is Error
            &&& awaited ==> after@.claim_code is Some
            &&& awaited && before@.claim_code is Some ==> after@ == before@
            &&& step matches ServerStep::BeginClaim { code, outcome } ==> after@.claim_code == Some(
                code@,
            ) && outcome.response@ == ServiceResponseView::Claim(
                ClaimResponseView { claim_url: "https://playit.gg/claim/"@ + code@ },
            )
            &&& awaited && before@.claim_code is Some ==> step is Respond
                && step->Respond_0.response@ == ServiceResponseView::Claim(
                ClaimResponseView {
                    claim_url: "https://playit.gg/claim/"@ + before@.claim_code->0,
                },
            )
        }),
{
}

/// A failed operation is answered with its error, as clients see it.
pub proof fn failures_are_answered_with_their_error(error: RuntimeErrorView)
    ensures
        failure(error) == ServiceResponseView::Error(error.service_error()),
{
}

/// A request that cannot be read is told by the name that it came under.
pub proof fn unreadable_requests_are_named(envelope: IncomingRequestEnvelope)
    ensures
        envelope.ipc_version == 3 ==> (envelope.request matches ServiceRequestOrUnknown::Unknown(
            unknown,
        ) ==> refusal(envelope) == Some(
            if known_request(unknown.wire_type@) {
                ServiceErrorView {
                    code: ServiceErrorCode::InvalidRequest,
                    message: "invalid IPC request payload for "@ + unknown.wire_type@,
                    retryable: false,
                    details: None,
                }
            } else {
                ServiceErrorView {
                    code: ServiceErrorCode::InvalidRequestType,
                    message: "unknown IPC request type: "@ + unknown.wire_type@,
                    retryable: false,
                    details: Some("{\"request_type\":"@ + json_quoted(unknown.wire_type@) + "}"@),
                }
            },
        )),
{
}

/// Only who asks to subscribe gets changes from then on, whatever the answer to anything else is.
pub proof fn only_subscribers_get_changes(
    socket_path: Seq<char>,
    before: PlayitHandle,
    after: PlayitHandle,
    request: ServiceRequestView,
    local_ip: Option<Seq<char>>,
    now: u64,
    step: ServerStep,
)
    requires
        serves(socket_path, before, after, request, local_ip, now, step),
    ensures
        step matches ServerStep::Respond(outcome) ==> (outcome.subscribed <==> request
            is Subscribe),
        step matches ServerStep::StopHost(outcome) ==> !outcome.subscribed,
        step matches ServerStep::BeginClaim { outcome, .. } ==> !outcome.subscribed,
        !(request is StartClaim) ==> after@ == before@,
        after.inner.api == before.inner.api,
{
}

/// A login link that is fresh is answered at once, as it is; else a guest session is asked for
/// with the client that is in use, and without one the answer is that the API is not ready.
pub proof fn login_links_are_answered(
    socket_path: Seq<char>,
    before: PlayitHandle,
    after: PlayitHandle,
    local_ip: Option<Seq<char>>,
    now: u64,
    step: ServerStep,
)
    requires
        serves(
            socket_path,
            before,
            after,
            ServiceRequestView::GetAccountLoginUrl,
            local_ip,
            now,
            step,
        ),
    ensures
        before@.cancelled ==> step is Respond && step->Respond_0.response@ is Error,
        !before@.cancelled && fresh_link(before@.login, now) is Some ==> step is Respond
            && step->Respond_0.response@ == ServiceResponseView::AccountLoginUrl(
            AccountLoginUrlResponseView { login_url: fresh_link(before@.login, now)->0 },
        ),
        !before@.cancelled && fresh_link(before@.login, now) is None && before.inner.api is Some
            ==> step == ServerStep::GuestLogin(before.inner.api->0),
        !before@.cancelled && fresh_link(before@.login, now) is None && before.inner.api is None
            ==> step is Respond && step->Respond_0.response@ is Error
            && step->Respond_0.response@->Error_0.code == ServiceErrorCode::ApiUnavailable,
{
}

} // verus!
