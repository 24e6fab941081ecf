use playit::api::{
    AgentVersion, ApiError, ApiResponseError, AuthError, DeleteError, Platform, TunnelCreateErrorV1,
};
use playit::error::{IoErrorKind, IoFailure, RuntimeError};
use playit::handle::{
    create_tunnel_answer, delete_tunnel_answer, make_inner, set_secret_answer, LoginUrlPlan,
    PlayitHandle, PollOutcome, ProvisionOutcome,
};
use playit::ipc::{
    IncomingRequestEnvelope, IpcClient, IpcError, ServerEnvelope, ServiceRequest, ServiceRequestOrUnknown,
    ServiceResponse, UnknownTaggedMessage, IPC_VERSION,
};
use playit::ipc_server::{
    claim_endpoint, invalid_request_type_error, listener_failed, login_url_made, secret_reset,
    secret_set, tunnel_created, tunnel_deleted, unknown_type_error, ClientConversation, IpcServer,
    RequestOutcome, ServerStep,
};
use playit::model::{
    AccountStatus, AgentLifecycle, AgentState, CommandResponse, ConnectionStats, ServiceError, ServiceErrorCode,
    ServicePhase, ServiceStatus, ServiceUpdate,
};
use playit::options::RuntimeOptions;
use playit::runtime::{PlayitRuntime, SetupError, Supervisor, SupervisorEvent};
use playit::secret::{LoadedSecret, SecretSource};
use playit::state::{PollNews, RunData, StatePolling, StatusContext};

fn handle_for(source: SecretSource, can_provision: bool) -> PlayitHandle {
    let options = RuntimeOptions {
        secret_path: "test-secret.toml".to_string(),
        ..RuntimeOptions::default()
    };
    let context = StatusContext::new(
        Some("test-secret.toml".to_string()),
        options.version.version_string(),
        1_000,
    );
    let inner = make_inner(&options, source, context, can_provision, Platform::Linux).ok().unwrap();
    PlayitHandle { inner }
}

fn file_source() -> SecretSource {
    SecretSource::File { path: "test-secret.toml".to_string() }
}

fn test_handle() -> PlayitHandle {
    handle_for(file_source(), true)
}

fn waiting_handle() -> PlayitHandle {
    let mut handle = test_handle();
    let status = handle.inner.status_context.status(
        ServicePhase::WaitingForSecret,
        false,
        None,
        77,
        5_000,
    );
    let _ = handle.publish_state(status, AgentLifecycle::WaitingForSecret);
    handle
}

fn running_handle() -> PlayitHandle {
    let mut handle = test_handle();
    let status =
        handle.inner.status_context.status(ServicePhase::Running, true, None, 77, 5_000);
    let state = AgentState {
        agent_id: "00000000-0000-0000-0000-000000000001".to_string(),
        ..AgentState::default()
    };
    let _ = handle.publish_state(status, AgentLifecycle::Running(state));
    handle.set_api(Some("deadbeef".to_string()));
    handle
}

fn outcome(step: ServerStep) -> RequestOutcome {
    match step {
        ServerStep::Respond(outcome) => outcome,
        ServerStep::StopHost(outcome) => outcome,
        ServerStep::BeginClaim { outcome, .. } => outcome,
        _ => panic!("expected a response"),
    }
}

fn code(response: &ServiceResponse) -> ServiceErrorCode {
    match response {
        ServiceResponse::Error(error) => error.code,
        other => panic!("expected an error, got {other:?}"),
    }
}

#[test]
fn account_normalizes_running_state_without_exposing_empty_agent_ids() {
    let mut handle = test_handle();
    handle.inner.state_cache.set_lifecycle(AgentLifecycle::Running(AgentState {
        account_status: AccountStatus::Verified,
        agent_id: "agent-id".to_string(),
        login_link: Some("https://playit.gg/login/example".to_string()),
        ..AgentState::default()
    }));
    handle.inner.claim_code = Some("active-code".to_string());

    let account = handle.account().ok().unwrap();
    assert!(matches!(account.status, AccountStatus::Verified));
    assert_eq!(account.agent_id.as_deref(), Some("agent-id"));
    assert_eq!(account.login_link.as_deref(), Some("https://playit.gg/login/example"));
    assert_eq!(account.claim_url.as_deref(), Some("https://playit.gg/claim/active-code"));

    handle.inner.state_cache.set_lifecycle(AgentLifecycle::Running(AgentState::default()));
    let account = handle.account().ok().unwrap();
    assert!(account.agent_id.is_none());
}

#[test]
fn operations_after_shutdown_report_stopped() {
    let mut handle = test_handle();
    handle.request_shutdown();

    assert!(matches!(handle.account(), Err(RuntimeError::Stopped)));
    assert!(matches!(handle.reset_secret(), Err(RuntimeError::Stopped)));
    assert!(matches!(handle.start_claim(), Err(RuntimeError::Stopped)));
    assert!(matches!(handle.list_tunnels(), Err(RuntimeError::Stopped)));
    assert!(matches!(handle.set_secret(), Err(RuntimeError::Stopped)));
}

#[test]
fn handles_are_made_for_valid_versions_only() {
    let mut options = RuntimeOptions::default();
    options.version.variant_id = "nope".to_string();
    let context = StatusContext::new(None, "1".to_string(), 0);
    assert!(make_inner(&options, file_source(), context, true, Platform::Linux).is_err());
    let handle = test_handle();
    assert_eq!(handle.inner.platform, Platform::Linux);
    let AgentVersion { variant_id, .. } = handle.inner.agent_version;
    assert_eq!(variant_id, 0x308943e8faef4835a2ba270351f72aa3);
}

#[test]
fn runtimes_report_no_endpoint_and_count_their_time() {
    let handle = waiting_handle();
    let status = handle.status(63_500);
    assert!(status.socket_path.is_empty());
    assert_eq!(status.uptime_secs, 62);
    assert_eq!(status.pid, 77);
    assert_eq!(status.secret_path.as_deref(), Some("test-secret.toml"));
    assert_eq!(handle.status(0).uptime_secs, 0);
    assert_eq!(handle.secret_path().as_deref(), Some("test-secret.toml"));
}

#[test]
fn claim_start_is_direct_idempotent_and_cancellable() {
    let mut handle = waiting_handle();
    let first = handle.start_claim().ok().unwrap();
    let second = handle.start_claim().ok().unwrap();
    assert_eq!(first.response.claim_url, second.response.claim_url);
    let started = first.begin.unwrap();
    assert!(second.begin.is_none());
    assert_eq!(first.response.claim_url, format!("https://playit.gg/claim/{started}"));
    handle.claim_finished("another");
    assert!(handle.claim_url().is_some());
    handle.claim_finished(&started);
    assert!(handle.claim_url().is_none());
}

#[test]
fn claims_are_refused_where_no_secret_is_awaited() {
    let mut running = running_handle();
    assert!(running.start_claim().is_err());
    let mut inline = handle_for(SecretSource::Inline { secret: "dead".to_string() }, false);
    inline.inner.state_cache.set_lifecycle(AgentLifecycle::WaitingForSecret);
    assert_eq!(
        inline.start_claim().err().unwrap().as_service_error().code,
        ServiceErrorCode::SecretPinned
    );
}

#[test]
fn reset_secret_removes_the_file_and_requests_shutdown() {
    let mut handle = waiting_handle();
    let path = handle.reset_secret().ok().unwrap();
    assert_eq!(path, "test-secret.toml");
    let response = handle.reset_secret_answer(&path, Ok(())).ok().unwrap();
    assert!(response.accepted);
    assert!(handle.inner.cancelled);

    let mut handle = waiting_handle();
    let denied = IoFailure::new(IoErrorKind::PermissionDenied, "denied");
    assert!(handle.reset_secret_answer("test-secret.toml", Err(denied)).is_err());
    assert!(!handle.inner.cancelled);
}

#[test]
fn secrets_are_taken_while_awaited() {
    assert!(waiting_handle().set_secret().is_ok());
    assert!(running_handle().set_secret().is_err());
    assert!(handle_for(file_source(), false).set_secret().is_err());
    let stored = set_secret_answer(ProvisionOutcome::Answered(Ok(())));
    assert!(stored.ok().unwrap().accepted);
    assert!(matches!(
        set_secret_answer(ProvisionOutcome::Stopped),
        Err(RuntimeError::Stopped)
    ));
    let refused =
        set_secret_answer(ProvisionOutcome::Answered(Err("no".to_string())));
    assert_eq!(
        refused.err().unwrap().as_service_error().code,
        ServiceErrorCode::SecretWriteFailed
    );
}

#[test]
fn login_links_are_kept_for_a_while() {
    let mut handle = running_handle();
    assert!(matches!(handle.account_login_url(10_000), Ok(LoginUrlPlan::Ask(_))));
    let answer: Result<String, ApiError<()>> = Ok("key".to_string());
    let url = handle.account_login_answer(answer, 10_000).ok().unwrap();
    assert_eq!(url.login_url, "https://playit.gg/login/guest-account/key");
    assert!(matches!(
        handle.account_login_url(24_999),
        Ok(LoginUrlPlan::Known(known)) if known.login_url == url.login_url
    ));
    assert!(matches!(handle.account_login_url(25_001), Ok(LoginUrlPlan::Ask(_))));
    let failed: Result<String, ApiError<()>> =
        Err(ApiError::ApiError(ApiResponseError::Internal("t".to_string())));
    assert!(handle.account_login_answer(failed, 26_000).is_err());
}

#[test]
fn tunnels_are_created_and_deleted_through_the_api() {
    let handle = running_handle();
    let call = handle
        .create_tunnel(
            25565,
            Default::default(),
            Some("::1".to_string()),
            Some("::1".to_string()),
            None,
        )
        .ok()
        .unwrap();
    assert_eq!(call.request.name, "playit-tunnel");
    let java = handle
        .create_minecraft_java_tunnel(1, None, Some("127.0.0.1".to_string()), None)
        .ok()
        .unwrap();
    assert_eq!(java.request.name, "playit-tunnel");
    let deletion = handle.delete_tunnel("00000000-0000-0000-0000-0000000000ff").ok().unwrap();
    assert_eq!(deletion.request, 255);
    assert_eq!(
        create_tunnel_answer(Ok("id".to_string())).ok().unwrap().tunnel_id,
        "id"
    );
    let failed = create_tunnel_answer(Err(ApiError::Fail(
        TunnelCreateErrorV1::RequiresVerifiedAccount,
    )));
    assert_eq!(
        failed.err().unwrap().as_service_error().code,
        ServiceErrorCode::PermissionDenied
    );
    assert!(delete_tunnel_answer(Ok(())).ok().unwrap().accepted);
    let missing =
        delete_tunnel_answer(Err(ApiError::Fail(DeleteError::TunnelNotFound)));
    assert_eq!(
        missing.err().unwrap().as_service_error().code,
        ServiceErrorCode::TunnelNotFound
    );
}

#[test]
fn ipc_server_delegates_status_and_lifecycle_to_runtime() {
    let socket_path = "/tmp/delegation.sock".to_string();
    let server = IpcServer::new(socket_path.clone());
    let mut handle = waiting_handle();
    let status =
        outcome(server.handle_service_request(&mut handle, ServiceRequest::GetStatus, None, 9_000));
    match status.response {
        ServiceResponse::Status(status) => {
            assert!(matches!(status.phase, ServicePhase::WaitingForSecret));
            assert_eq!(status.socket_path, socket_path);
        }
        other => panic!("expected a status, got {other:?}"),
    }
    let state =
        outcome(server.handle_service_request(&mut handle, ServiceRequest::GetState, None, 9_000));
    assert!(matches!(
        state.response,
        ServiceResponse::State(AgentLifecycle::WaitingForSecret)
    ));
    assert!(matches!(
        server.transport_event(ServiceUpdate::Status(ServiceStatus::default())),
        ServiceUpdate::Status(status) if status.socket_path == socket_path
    ));
}

#[test]
fn ipc_server_delegates_runtime_operations_and_errors() {
    let socket_path = "/tmp/operations.sock".to_string();
    let server = IpcServer::new(socket_path.clone());
    let mut handle = waiting_handle();

    let account = outcome(server.handle_service_request(
        &mut handle,
        ServiceRequest::GetAccount,
        None,
        0,
    ))
    .response;
    assert!(matches!(
        account,
        ServiceResponse::Account(account)
            if matches!(account.status, AccountStatus::Unknown) && account.agent_id.is_none()
    ));

    let tunnels = outcome(server.handle_service_request(
        &mut handle,
        ServiceRequest::GetTunnels,
        None,
        0,
    ))
    .response;
    assert_eq!(code(&tunnels), ServiceErrorCode::ProvisioningUnavailable);

    let create = outcome(server.handle_service_request(
        &mut handle,
        ServiceRequest::CreateTunnel {
            local_port: 0,
            protocol: Default::default(),
            local_address: None,
            name: None,
        },
        Some("127.0.0.1".to_string()),
        0,
    ))
    .response;
    assert_eq!(code(&create), ServiceErrorCode::InvalidTunnelRequest);

    let delete = outcome(server.handle_service_request(
        &mut handle,
        ServiceRequest::DeleteTunnel { tunnel_id: "not-a-uuid".to_string() },
        None,
        0,
    ))
    .response;
    assert_eq!(code(&delete), ServiceErrorCode::InvalidTunnelRequest);

    let login = outcome(server.handle_service_request(
        &mut handle,
        ServiceRequest::GetAccountLoginUrl,
        None,
        0,
    ))
    .response;
    assert_eq!(code(&login), ServiceErrorCode::ApiUnavailable);

    let secret_path = outcome(server.handle_service_request(
        &mut handle,
        ServiceRequest::GetSecretPath,
        None,
        0,
    ))
    .response;
    assert!(matches!(secret_path, ServiceResponse::SecretPath(_)));

    let subscribe =
        outcome(server.handle_service_request(&mut handle, ServiceRequest::Subscribe, None, 0));
    assert!(subscribe.subscribed);
    assert_eq!(
        match subscribe.response {
            ServiceResponse::Subscribe(response) => response.snapshot.status.socket_path,
            other => panic!("expected subscription response, got {other:?}"),
        },
        socket_path
    );

    let claim = outcome(server.handle_service_request(
        &mut handle,
        ServiceRequest::StartClaim,
        None,
        0,
    ))
    .response;
    let claim_url = match claim {
        ServiceResponse::Claim(response) => response.claim_url,
        other => panic!("expected claim response, got {other:?}"),
    };
    let repeated_claim =
        server.handle_service_request(&mut handle, ServiceRequest::StartClaim, None, 0);
    assert!(matches!(repeated_claim, ServerStep::Respond(_)));
    assert!(matches!(
        outcome(repeated_claim).response,
        ServiceResponse::Claim(response) if response.claim_url == claim_url
    ));

    let set_secret = server.handle_service_request(
        &mut handle,
        ServiceRequest::SetSecret { secret: "not-hex".to_string() },
        None,
        0,
    );
    assert!(matches!(&set_secret, ServerStep::Provision { secret } if secret == "not-hex"));
    let refused = secret_set(set_secret_answer(ProvisionOutcome::Answered(Err(
        "not hex".to_string(),
    ))));
    assert_eq!(code(&refused.response), ServiceErrorCode::SecretWriteFailed);

    let reset =
        server.handle_service_request(&mut handle, ServiceRequest::ResetSecret, None, 0);
    let path = match reset {
        ServerStep::RemoveSecret { path } => path,
        _ => panic!("expected the removal"),
    };
    let removed = secret_reset(handle.reset_secret_answer(&path, Ok(())));
    assert!(matches!(
        removed.response,
        ServiceResponse::ResetSecret(CommandResponse { accepted: true, .. })
    ));
}

fn incoming(ipc_version: u32, request: ServiceRequestOrUnknown) -> IncomingRequestEnvelope {
    IncomingRequestEnvelope { ipc_version, request_id: 1, request }
}

fn unknown(wire_type: &str) -> ServiceRequestOrUnknown {
    ServiceRequestOrUnknown::Unknown(UnknownTaggedMessage {
        wire_type: wire_type.to_string(),
        rest: "{}".to_string(),
    })
}

#[test]
fn ipc_server_preserves_protocol_validation_and_connection_liveness() {
    let server = IpcServer::new("/tmp/validation.sock".to_string());
    let mut handle = waiting_handle();
    let mut client = ClientConversation::new();
    assert!(matches!(client.hello(), ServerEnvelope::Hello(_)));

    let refused = outcome(server.handle_request_envelope(
        &mut handle,
        incoming(IPC_VERSION, unknown("future_request")),
        None,
        0,
    ));
    match &refused.response {
        ServiceResponse::Error(error) => {
            assert_eq!(error.code, ServiceErrorCode::InvalidRequestType);
            assert!(!error.retryable);
        }
        other => panic!("expected an error, got {other:?}"),
    }
    assert!(matches!(client.respond(1, refused), ServerEnvelope::Response(_)));

    let known = ServiceRequestOrUnknown::Known(ServiceRequest::GetState);
    let answered =
        outcome(server.handle_request_envelope(&mut handle, incoming(IPC_VERSION, known), None, 0));
    match client.respond(2, answered) {
        ServerEnvelope::Response(envelope) => {
            assert_eq!(envelope.request_id, 2);
            assert!(matches!(
                envelope.response,
                ServiceResponse::State(AgentLifecycle::WaitingForSecret)
            ));
        }
        _ => panic!("expected a response"),
    }
}

#[test]
fn requests_of_another_version_or_form_are_refused() {
    let server = IpcServer::new("s".to_string());
    let mut handle = waiting_handle();
    let known = ServiceRequestOrUnknown::Known(ServiceRequest::Stop);
    let newer = server.handle_request_envelope(&mut handle, incoming(9, known), None, 0);
    assert!(matches!(&newer, ServerStep::Respond(_)));
    assert_eq!(code(&outcome(newer).response), ServiceErrorCode::UnsupportedProtocol);
    let malformed = server.handle_request_envelope(
        &mut handle,
        incoming(IPC_VERSION, unknown("stop")),
        None,
        0,
    );
    assert_eq!(code(&outcome(malformed).response), ServiceErrorCode::InvalidRequest);
    let error = invalid_request_type_error("a\"b\n");
    assert_eq!(error.details.as_deref(), Some("{\"request_type\":\"a\\\"b\\n\"}"));
    assert_eq!(error.message, "unknown IPC request type: a\"b\n");
    let error: ServiceError = unknown_type_error("a\"b", "\"a\\\"b\"");
    assert_eq!(error.details.as_deref(), Some("{\"request_type\":\"a\\\"b\"}"));
}

#[test]
fn ipc_stop_requests_host_shutdown_without_exposing_runtime_shutdown() {
    let server = IpcServer::new("s".to_string());
    let mut handle = waiting_handle();
    let step = server.handle_service_request(&mut handle, ServiceRequest::Stop, None, 0);
    assert!(matches!(&step, ServerStep::StopHost(_)));
    assert!(matches!(
        outcome(step).response,
        ServiceResponse::Stop(CommandResponse { accepted: true, .. })
    ));
    assert!(!handle.inner.cancelled);
    assert!(!matches!(handle.lifecycle(), AgentLifecycle::Stopping));
}

#[test]
fn events_go_to_subscribers_only() {
    let server = IpcServer::new("sock".to_string());
    let mut handle = waiting_handle();
    let mut client = ClientConversation::new();
    let status = || ServiceUpdate::Status(ServiceStatus::default());
    assert!(client.event(&server, status()).is_none());
    let subscribed =
        outcome(server.handle_service_request(&mut handle, ServiceRequest::Subscribe, None, 0));
    let _ = client.respond(1, subscribed);
    match client.event(&server, status()) {
        Some(ServerEnvelope::Event(event)) => assert!(matches!(
            event.event,
            ServiceUpdate::Status(status) if status.socket_path == "sock"
        )),
        _ => panic!("expected an event"),
    }
    let other =
        outcome(server.handle_service_request(&mut handle, ServiceRequest::GetState, None, 0));
    let _ = client.respond(2, other);
    assert!(client.subscribed);
}

#[test]
fn operations_with_api_work_are_planned_first() {
    let server = IpcServer::new("sock".to_string());
    let mut handle = running_handle();
    let ip = || Some("127.0.0.1".to_string());
    let java = server.handle_service_request(
        &mut handle,
        ServiceRequest::CreateMinecraftJavaTunnel {
            local_port: 5,
            local_address: None,
            name: Some("n".to_string()),
        },
        ip(),
        0,
    );
    assert!(matches!(&java, ServerStep::CreateTunnel(call) if call.request.name == "n"));
    let delete = server.handle_service_request(
        &mut handle,
        ServiceRequest::DeleteTunnel {
            tunnel_id: "00000000-0000-0000-0000-000000000009".to_string(),
        },
        None,
        0,
    );
    assert!(matches!(&delete, ServerStep::DeleteTunnel(call) if call.request == 9));
    let login = server.handle_service_request(
        &mut handle,
        ServiceRequest::GetAccountLoginUrl,
        None,
        0,
    );
    assert!(matches!(login, ServerStep::GuestLogin(_)));
    let created = tunnel_created(create_tunnel_answer(Ok("id".to_string())));
    assert!(matches!(created.response, ServiceResponse::CreateTunnel(_)));
    let deleted = tunnel_deleted(delete_tunnel_answer(Ok(())));
    assert!(matches!(deleted.response, ServiceResponse::DeleteTunnel(_)));
    let answer: Result<String, ApiError<()>> = Ok("k".to_string());
    let made = login_url_made(handle.account_login_answer(answer, 0));
    assert!(matches!(made.response, ServiceResponse::AccountLoginUrl(_)));
    for request in [
        ServiceRequest::GetAccountTunnels,
        ServiceRequest::ReassignTunnel {
            tunnel_id: "x".to_string(),
            local_port: 1,
            local_address: None,
        },
    ] {
        let refused = outcome(server.handle_service_request(&mut handle, request, None, 0));
        assert_eq!(code(&refused.response), ServiceErrorCode::InvalidRequestType);
    }
}

#[test]
fn endpoints_are_claimed_once() {
    assert!(claim_endpoint(false).is_ok());
    assert!(matches!(claim_endpoint(true), Err(IpcError::AlreadyRunning)));
    assert!(listener_failed(IoFailure::new(IoErrorKind::Unsupported, "no modes")).is_ok());
    let failed = listener_failed(IoFailure::new(IoErrorKind::AddrInUse, "in use"));
    assert_eq!(failed.err().unwrap().to_text(), "Failed to bind to socket: in use");
}

#[test]
fn host_event_sender_receives_startup_events_before_start_returns() {
    let options = RuntimeOptions {
        secret_path: "test-secret.toml".to_string(),
        ..RuntimeOptions::default()
    };
    let started = PlayitRuntime::start(&options, Platform::Linux, 7, 1_000).ok().unwrap();
    assert!(matches!(
        started.updates.0,
        ServiceUpdate::Status(status) if matches!(status.phase, ServicePhase::Starting)
    ));
    assert!(matches!(started.updates.1, ServiceUpdate::Lifecycle(AgentLifecycle::Starting)));
    assert!(started.handle.inner.can_provision);
    assert!(started.runtime.supervised);
}

#[test]
fn direct_runtime_publishes_events_and_never_owns_an_ipc_endpoint() {
    let options = RuntimeOptions {
        secret_path: "test-secret.toml".to_string(),
        ..RuntimeOptions::default()
    };
    let started = PlayitRuntime::start(&options, Platform::Linux, 7, 1_000).ok().unwrap();
    let (mut handle, mut supervisor) = (started.handle, started.supervisor);
    assert!(handle.status(2_000).socket_path.is_empty());
    assert!(matches!(handle.lifecycle(), AgentLifecycle::Starting));

    let step = supervisor.step(SupervisorEvent::Loaded(LoadedSecret::Missing), false);
    let mut saw_waiting = false;
    for effect in step.effects {
        if let Some((_, ServiceUpdate::Lifecycle(AgentLifecycle::WaitingForSecret))) =
            handle.perform(effect, 7, 2_000)
        {
            saw_waiting = true;
        }
    }
    assert!(saw_waiting);

    handle.request_shutdown();
    let step = supervisor.step(SupervisorEvent::Provisioned(Ok(None)), true);
    for effect in step.effects {
        let _ = handle.perform(effect, 7, 3_000);
    }
    assert!(matches!(handle.lifecycle(), AgentLifecycle::Stopping));
    assert!(handle.status(3_000).socket_path.is_empty());
}

#[test]
fn the_api_is_used_with_the_agents_secret() {
    let mut handle = test_handle();
    let mut supervisor = Supervisor::new(file_source(), true);
    let loaded = SupervisorEvent::Loaded(LoadedSecret::Ready("beef".to_string()));
    for effect in supervisor.step(loaded, false).effects {
        let _ = handle.perform(effect, 7, 0);
    }
    let client = handle.inner.api.as_ref().unwrap();
    assert_eq!(client.auth_header.as_deref(), Some("Agent-Key beef"));
    let refused = SupervisorEvent::AgentBuilt(Err(SetupError::ApiError(ApiResponseError::Auth(
        AuthError::NoLongerValid,
    ))));
    for effect in supervisor.step(refused, false).effects {
        let _ = handle.perform(effect, 7, 0);
    }
    assert!(handle.inner.api.is_none());
    assert!(matches!(handle.lifecycle(), AgentLifecycle::WaitingForSecret));
}

#[test]
fn inline_runtimes_take_no_secret() {
    let options = RuntimeOptions {
        secret: Some("dead".to_string()),
        ..RuntimeOptions::default()
    };
    let started = PlayitRuntime::start(&options, Platform::Macos, 7, 0).ok().unwrap();
    assert!(!started.handle.inner.can_provision);
    assert!(!started.supervisor.can_receive);
    assert!(started.handle.status(0).secret_path.is_none());
    let broken = RuntimeOptions { secret: Some("x".to_string()), ..RuntimeOptions::default() };
    assert!(PlayitRuntime::start(&broken, Platform::Macos, 7, 0).is_err());
}

#[test]
fn runtimes_are_waited_for_once() {
    let mut runtime = PlayitRuntime { supervised: true };
    let error = runtime.wait(Err("panicked".to_string())).err().unwrap().as_service_error();
    assert_eq!(error.message, "runtime task failed: panicked");
    assert!(!error.retryable);
    assert!(runtime.wait(Err("again".to_string())).is_ok());
    let mut runtime = PlayitRuntime { supervised: true };
    assert!(matches!(runtime.wait(Ok(Err(RuntimeError::stopped()))), Err(RuntimeError::Stopped)));
}

#[test]
fn run_data_and_counts_are_published() {
    let mut handle = running_handle();
    let data = RunData {
        agent_id: "a".to_string(),
        account_status: playit::api::AccountStatus::Verified,
        tunnels: vec![],
        pending: vec![],
        notices: vec![],
    };
    let mut polling = StatePolling::new();
    let outcome = handle.state_polled(&mut polling, Some(&data), Some("link".to_string()));
    assert!(matches!(
        outcome,
        PollOutcome::Told {
            update: ServiceUpdate::Lifecycle(AgentLifecycle::Running(state)),
            recovered: false,
            news: PollNews::Loaded,
        } if state.agent_id == "a"
            && state.version == "1.0.0"
            && state.start_time == 1_000
            && state.login_link.is_none()
    ));
    assert!(matches!(
        handle.state_polled(&mut polling, None, None),
        PollOutcome::Silent { was_available: true }
    ));
    assert!(matches!(handle.lifecycle(), AgentLifecycle::Running(state) if state.agent_id == "a"));
    assert!(matches!(
        handle.state_polled(&mut polling, Some(&data), None),
        PollOutcome::Told { recovered: true, news: PollNews::Unchanged, .. }
    ));
    assert_eq!(handle.account().ok().unwrap().agent_id.as_deref(), Some("a"));
    let stats = ConnectionStats { bytes_in: 5, bytes_out: 6, active_tcp: 1, active_udp: 2 };
    assert!(matches!(handle.publish_stats(stats), ServiceUpdate::Stats(s) if s.bytes_in == 5));
    assert_eq!(handle.stats().active_udp, 2);
    let status =
        handle.inner.status_context.status(ServicePhase::Reconnecting, true, None, 1, 2_000);
    let _ = handle.publish_status(status);
    assert!(matches!(handle.status(2_000).phase, ServicePhase::Reconnecting));
    assert!(matches!(handle.lifecycle(), AgentLifecycle::Running(_)));
}

fn inline_handle(secret: &str) -> PlayitHandle {
    let mut handle = handle_for(SecretSource::Inline { secret: secret.to_string() }, false);
    handle.inner.state_cache.set_lifecycle(AgentLifecycle::Running(AgentState {
        agent_id: "00000000-0000-0000-0000-000000000001".to_string(),
        ..AgentState::default()
    }));
    handle.set_api(Some(secret.to_string()));
    handle
}

#[test]
fn answers_do_not_depend_on_the_secret() {
    let server = IpcServer::new("sock".to_string());
    let (mut one, mut other) = (inline_handle("deadbeef"), inline_handle("cafe"));
    let requests = || {
        vec![
            ServiceRequest::Subscribe,
            ServiceRequest::GetStatus,
            ServiceRequest::GetState,
            ServiceRequest::GetTunnels,
            ServiceRequest::GetAccount,
            ServiceRequest::StartClaim,
            ServiceRequest::SetSecret { secret: "beef".to_string() },
            ServiceRequest::ResetSecret,
            ServiceRequest::GetSecretPath,
            ServiceRequest::Stop,
        ]
    };
    for (a, b) in requests().into_iter().zip(requests()) {
        let first = outcome(server.handle_service_request(&mut one, a, None, 5_000));
        let second = outcome(server.handle_service_request(&mut other, b, None, 5_000));
        let shown = format!("{:?}", first.response);
        assert_eq!(shown, format!("{:?}", second.response));
        assert!(!shown.contains("deadbeef"));
    }
}

#[test]
fn told_states_do_not_depend_on_the_secret() {
    let told = |secret: &str| {
        let mut handle = test_handle();
        let mut supervisor = Supervisor::new(file_source(), true);
        let loaded = SupervisorEvent::Loaded(LoadedSecret::Ready(secret.to_string()));
        let mut updates = Vec::new();
        for effect in supervisor.step(loaded, false).effects {
            updates.push(format!("{:?}", handle.perform(effect, 7, 1_000)));
        }
        updates
    };
    assert_eq!(told("deadbeef"), told("cafe"));
    assert!(told("deadbeef").iter().all(|update| !update.contains("deadbeef")));
}

#[test]
fn clients_and_server_understand_each_other() {
    let server = IpcServer::new("sock".to_string());
    let mut handle = waiting_handle();
    let mut conversation = ClientConversation::new();
    let mut client = IpcClient::connected(conversation.hello()).ok().unwrap();
    let envelope = client.status();
    let request_id = envelope.request_id;
    let incoming = IncomingRequestEnvelope {
        ipc_version: envelope.ipc_version,
        request_id,
        request: ServiceRequestOrUnknown::Known(envelope.request),
    };
    let step = server.handle_request_envelope(&mut handle, incoming, None, 9_000);
    let answer = conversation.respond(request_id, outcome(step));
    let status = IpcClient::status_answer(IpcClient::request(request_id, answer).ok().unwrap());
    assert_eq!(status.ok().unwrap().socket_path, "sock");
}

#[test]
fn stopped_runtimes_answer_that_they_stopped() {
    let server = IpcServer::new("sock".to_string());
    let mut handle = running_handle();
    handle.request_shutdown();
    for request in [
        ServiceRequest::GetTunnels,
        ServiceRequest::GetAccount,
        ServiceRequest::StartClaim,
        ServiceRequest::SetSecret { secret: "beef".to_string() },
        ServiceRequest::ResetSecret,
        ServiceRequest::GetAccountLoginUrl,
        ServiceRequest::DeleteTunnel { tunnel_id: "x".to_string() },
    ] {
        let refused = outcome(server.handle_service_request(&mut handle, request, None, 0));
        match refused.response {
            ServiceResponse::Error(error) => {
                assert_eq!(error.message, "The Playit runtime has stopped.")
            }
            other => panic!("expected an error, got {other:?}"),
        }
    }
}
