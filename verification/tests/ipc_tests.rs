use playit::error::{IoErrorKind, IoFailure};
use playit::ipc::{
    expect_response, is_known_request_type, is_known_update_type, line_codec_error, protocol_info,
    read_line, recv_response, recv_update, service_response_name, service_update_name,
    validate_incoming_server_envelope, EventEnvelope, HelloEnvelope, IncomingEventEnvelope,
    IncomingServerEnvelope, IpcClient, IpcError, LineFailure, ResponseEnvelope, ServerEnvelope,
    ServiceRequest, ServiceResponse, ServiceUpdateOrUnknown, UnknownTaggedEvent, IPC_VERSION,
};
use playit::model::{
    AccountLoginUrlResponse, AccountResponse, AccountTunnelListResponse, AgentLifecycle,
    ClaimResponse, CommandResponse, LogEntry, ProtocolInfo, SecretPathResponse, ServiceError,
    ServiceErrorCode, ServiceStatus, ServiceUpdate, SubscribeResponse, TunnelCreateResponse,
    TunnelListResponse, TunnelProtocol,
};

fn hello(ipc_version: u32) -> ServerEnvelope {
    ServerEnvelope::Hello(HelloEnvelope {
        protocol: ProtocolInfo { ipc_version, capabilities: vec!["stream_events".to_string()] },
    })
}

fn response(request_id: u64, response: ServiceResponse) -> ServerEnvelope {
    ServerEnvelope::Response(ResponseEnvelope { ipc_version: IPC_VERSION, request_id, response })
}

#[test]
fn connect_succeeds_after_valid_hello() {
    let client = IpcClient::connected(hello(IPC_VERSION)).ok().unwrap();
    assert_eq!(client.server_protocol().ipc_version, IPC_VERSION);
    assert_eq!(client.server_protocol().capabilities, vec!["stream_events"]);
}

#[test]
fn connect_fails_on_ipc_mismatch() {
    let error = match IpcClient::connected(hello(IPC_VERSION + 1)) {
        Ok(_) => panic!("expected version mismatch"),
        Err(error) => error,
    };
    assert!(matches!(
        error,
        IpcError::ProtocolMismatch { expected: IPC_VERSION, actual } if actual == IPC_VERSION + 1
    ));
    assert_eq!(error.to_text(), "IPC protocol mismatch: expected version 3, got 4");
}

#[test]
fn connect_fails_when_first_frame_is_not_hello() {
    let error = match IpcClient::connected(response(
        1,
        ServiceResponse::State(AgentLifecycle::Starting),
    )) {
        Ok(_) => panic!("expected protocol error"),
        Err(error) => error,
    };
    assert!(matches!(error, IpcError::ProtocolError(_)));
}

fn unknown_event(wire_type: &str) -> IncomingServerEnvelope {
    IncomingServerEnvelope::Event(IncomingEventEnvelope {
        ipc_version: IPC_VERSION,
        event: ServiceUpdateOrUnknown::Unknown(UnknownTaggedEvent {
            wire_type: wire_type.to_string(),
            data: Some("{\"hello\":\"world\"}".to_string()),
        }),
    })
}

#[test]
fn recv_update_ignores_unknown_event_types() {
    assert!(matches!(recv_update(unknown_event("future_event")), Ok(None)));
    let known = IncomingServerEnvelope::Event(IncomingEventEnvelope {
        ipc_version: IPC_VERSION,
        event: ServiceUpdateOrUnknown::Known(ServiceUpdate::Stats(Default::default())),
    });
    assert!(matches!(recv_update(known), Ok(Some(ServiceUpdate::Stats(_)))));
}

#[test]
fn updates_of_another_version_are_refused() {
    let event = IncomingServerEnvelope::Event(IncomingEventEnvelope {
        ipc_version: IPC_VERSION + 1,
        event: ServiceUpdateOrUnknown::Known(ServiceUpdate::Stats(Default::default())),
    });
    assert!(matches!(recv_update(event), Err(IpcError::ProtocolMismatch { .. })));
    let hello = IncomingServerEnvelope::Hello(HelloEnvelope { protocol: protocol_info() });
    assert!(matches!(recv_update(hello), Err(IpcError::ProtocolError(_))));
}

#[test]
fn malformed_known_event_payload_remains_an_error() {
    let error = validate_incoming_server_envelope(&unknown_event("stats"))
        .err()
        .expect("malformed known event should fail");
    assert!(matches!(error, IpcError::ProtocolError(_)));
    assert_eq!(error.to_text(), "invalid IPC event payload for stats");
    assert!(validate_incoming_server_envelope(&unknown_event("future")).is_ok());
}

#[test]
fn tunnel_management_requests_use_stable_json_names() {
    let request = ServiceRequest::CreateTunnel {
        local_port: 25565,
        protocol: TunnelProtocol::Udp,
        local_address: Some("127.0.0.1".to_string()),
        name: Some("minecraft".to_string()),
    };
    assert_eq!(request.wire_type(), "create_tunnel");
    assert!(matches!(
        request,
        ServiceRequest::CreateTunnel { protocol, local_port: 25565, .. }
            if protocol.wire_name() == "udp"
    ));
    assert!(is_known_request_type("create_tunnel"));

    let minecraft_request = ServiceRequest::CreateMinecraftJavaTunnel {
        local_port: 25565,
        local_address: Some("127.0.0.1".to_string()),
        name: Some("minecraft".to_string()),
    };
    assert_eq!(minecraft_request.wire_type(), "create_minecraft_java_tunnel");
    assert!(matches!(
        minecraft_request,
        ServiceRequest::CreateMinecraftJavaTunnel { local_port: 25565, .. }
    ));
    assert!(is_known_request_type("create_minecraft_java_tunnel"));
    assert!(!is_known_request_type("future_request"));
}

#[test]
fn tunnel_protocol_has_stable_wire_names() {
    assert_eq!(serde_json::to_string(TunnelProtocol::Tcp.wire_name()).unwrap(), "\"tcp\"");
    assert_eq!(serde_json::to_string(TunnelProtocol::Udp.wire_name()).unwrap(), "\"udp\"");
    assert_eq!(serde_json::to_string(TunnelProtocol::Both.wire_name()).unwrap(), "\"both\"");
}

fn nothing(_: ServiceResponse) -> Option<()> {
    None
}

#[test]
fn service_errors_preserve_structured_codes() {
    let error = expect_response(
        ServiceResponse::Error(ServiceError {
            code: ServiceErrorCode::InvalidTunnelRequest,
            message: "bad request".to_string(),
            retryable: false,
            details: None,
        }),
        "test response",
        nothing,
    )
    .unwrap_err();

    assert_eq!(error.to_text(), "InvalidTunnelRequest: bad request");
    assert!(matches!(
        error,
        IpcError::Service(ServiceError { code: ServiceErrorCode::InvalidTunnelRequest, .. })
    ));
}

fn all_requests() -> Vec<ServiceRequest> {
    vec![
        ServiceRequest::Subscribe,
        ServiceRequest::GetStatus,
        ServiceRequest::GetState,
        ServiceRequest::GetTunnels,
        ServiceRequest::GetAccountTunnels,
        ServiceRequest::CreateTunnel {
            local_port: 1,
            protocol: TunnelProtocol::Tcp,
            local_address: None,
            name: None,
        },
        ServiceRequest::CreateMinecraftJavaTunnel {
            local_port: 1,
            local_address: None,
            name: None,
        },
        ServiceRequest::DeleteTunnel {
            tunnel_id: "00000000-0000-0000-0000-000000000000".to_string(),
        },
        ServiceRequest::ReassignTunnel {
            tunnel_id: "00000000-0000-0000-0000-000000000000".to_string(),
            local_port: 1,
            local_address: None,
        },
        ServiceRequest::GetAccount,
        ServiceRequest::StartClaim,
        ServiceRequest::Stop,
        ServiceRequest::SetSecret { secret: "x".to_string() },
        ServiceRequest::ResetSecret,
        ServiceRequest::GetSecretPath,
        ServiceRequest::GetAccountLoginUrl,
    ]
}

#[test]
fn ipc_operation_and_response_names_are_stable() {
    let requests = [
        ServiceRequest::GetTunnels,
        ServiceRequest::CreateTunnel {
            local_port: 1,
            protocol: TunnelProtocol::Tcp,
            local_address: None,
            name: None,
        },
        ServiceRequest::DeleteTunnel {
            tunnel_id: "00000000-0000-0000-0000-000000000000".to_string(),
        },
        ServiceRequest::GetAccount,
        ServiceRequest::StartClaim,
    ];
    let expected_requests =
        ["get_tunnels", "create_tunnel", "delete_tunnel", "get_account", "start_claim"];
    for (request, expected) in requests.into_iter().zip(expected_requests) {
        assert_eq!(request.wire_type(), expected);
    }

    let responses = [
        ServiceResponse::Tunnels(TunnelListResponse::default()),
        ServiceResponse::CreateTunnel(TunnelCreateResponse::default()),
        ServiceResponse::DeleteTunnel(CommandResponse::default()),
        ServiceResponse::Account(AccountResponse::default()),
        ServiceResponse::Claim(ClaimResponse::default()),
    ];
    let expected_responses = ["tunnels", "create_tunnel", "delete_tunnel", "account", "claim"];
    for (response, expected) in responses.into_iter().zip(expected_responses) {
        assert_eq!(service_response_name(&response), expected);
    }
}

#[test]
fn every_request_is_known_by_its_name() {
    let names: Vec<&str> = all_requests().iter().map(|request| request.wire_type()).collect();
    assert_eq!(
        names,
        vec![
            "subscribe",
            "get_status",
            "get_state",
            "get_tunnels",
            "get_account_tunnels",
            "create_tunnel",
            "create_minecraft_java_tunnel",
            "delete_tunnel",
            "reassign_tunnel",
            "get_account",
            "start_claim",
            "stop",
            "set_secret",
            "reset_secret",
            "get_secret_path",
            "get_account_login_url",
        ]
    );
    assert!(names.iter().all(|name| is_known_request_type(name)));
}

#[test]
fn every_update_is_known_by_its_name() {
    let updates = [
        ServiceUpdate::Status(ServiceStatus::default()),
        ServiceUpdate::Lifecycle(AgentLifecycle::Starting),
        ServiceUpdate::Stats(Default::default()),
        ServiceUpdate::Log(LogEntry::default()),
    ];
    let names: Vec<&str> = updates.iter().map(service_update_name).collect();
    assert_eq!(names, vec!["status", "lifecycle", "stats", "log"]);
    assert!(names.iter().all(|name| is_known_update_type(name)));
    assert!(!is_known_update_type("future_event"));
}

#[test]
fn requests_are_numbered_and_answered_by_number() {
    let mut client = IpcClient::connected(hello(IPC_VERSION)).ok().unwrap();
    let first = client.send_request(ServiceRequest::GetStatus);
    assert_eq!((first.ipc_version, first.request_id), (IPC_VERSION, 1));
    let second = client.send_request(ServiceRequest::GetState);
    assert_eq!(second.request_id, 2);
    let answer =
        IpcClient::request(2, response(2, ServiceResponse::State(AgentLifecycle::Stopping)));
    assert!(matches!(
        IpcClient::lifecycle_answer(answer.ok().unwrap()),
        Ok(AgentLifecycle::Stopping)
    ));
    let wrong =
        IpcClient::request(2, response(1, ServiceResponse::State(AgentLifecycle::Stopping)));
    assert!(matches!(wrong, Err(IpcError::ProtocolError(_))));
    let third = client.create_tunnel(80, TunnelProtocol::Both, None, Some("web".to_string()));
    assert_eq!(third.request_id, 3);
    assert!(matches!(
        third.request,
        ServiceRequest::CreateTunnel { local_port: 80, protocol: TunnelProtocol::Both, .. }
    ));
    let names = [
        client.subscribe(),
        client.status(),
        client.lifecycle(),
        client.list_tunnels(),
        client.list_account_tunnels(),
        client.create_minecraft_java_tunnel(25565, None, None),
        client.delete_tunnel("t"),
        client.reassign_tunnel("t", 1, None),
        client.account(),
        client.start_claim(),
        client.stop(),
        client.set_secret("beef"),
        client.reset_secret(),
        client.get_secret_path(),
        client.get_account_login_url(),
    ]
    .map(|envelope| envelope.request.wire_type());
    assert_eq!(names[5], "create_minecraft_java_tunnel");
    assert_eq!(names[14], "get_account_login_url");
}

#[test]
fn only_responses_answer() {
    assert!(matches!(recv_response(hello(IPC_VERSION)), Err(IpcError::ProtocolError(_))));
    let event = ServerEnvelope::Event(EventEnvelope {
        ipc_version: IPC_VERSION,
        event: ServiceUpdate::Stats(Default::default()),
    });
    assert!(matches!(recv_response(event), Err(IpcError::ProtocolError(_))));
    let newer = ServerEnvelope::Response(ResponseEnvelope {
        ipc_version: 9,
        request_id: 1,
        response: ServiceResponse::Stop(CommandResponse::default()),
    });
    assert!(matches!(
        IpcClient::request(1, newer),
        Err(IpcError::ProtocolMismatch { expected: 3, actual: 9 })
    ));
}

#[test]
fn answers_are_unpacked_by_their_operation() {
    let command = CommandResponse { accepted: true, message: Some("ok".to_string()) };
    assert!(IpcClient::stop_answer(ServiceResponse::Stop(command.clone())).unwrap().accepted);
    assert!(IpcClient::set_secret_answer(ServiceResponse::SetSecret(command.clone())).is_ok());
    assert!(IpcClient::reset_secret_answer(ServiceResponse::ResetSecret(command.clone())).is_ok());
    assert!(IpcClient::delete_tunnel_answer(ServiceResponse::DeleteTunnel(command.clone())).is_ok());
    assert!(IpcClient::reassign_tunnel_answer(ServiceResponse::ReassignTunnel(command.clone())).is_ok());
    assert!(IpcClient::status_answer(ServiceResponse::Status(ServiceStatus::default())).is_ok());
    assert!(IpcClient::subscribe_answer(ServiceResponse::Subscribe(SubscribeResponse::default())).is_ok());
    assert!(IpcClient::list_tunnels_answer(ServiceResponse::Tunnels(Default::default())).is_ok());
    assert!(IpcClient::list_account_tunnels_answer(ServiceResponse::AccountTunnels(
        AccountTunnelListResponse::default()
    ))
    .is_ok());
    assert!(IpcClient::create_tunnel_answer(ServiceResponse::CreateTunnel(Default::default())).is_ok());
    assert!(IpcClient::create_minecraft_java_tunnel_answer(ServiceResponse::CreateTunnel(
        Default::default()
    ))
    .is_ok());
    assert!(IpcClient::account_answer(ServiceResponse::Account(AccountResponse::default())).is_ok());
    assert!(IpcClient::start_claim_answer(ServiceResponse::Claim(ClaimResponse::default())).is_ok());
    assert!(IpcClient::get_secret_path_answer(ServiceResponse::SecretPath(
        SecretPathResponse::default()
    ))
    .is_ok());
    assert!(IpcClient::get_account_login_url_answer(ServiceResponse::AccountLoginUrl(
        AccountLoginUrlResponse::default()
    ))
    .is_ok());
    let mixed = IpcClient::stop_answer(ServiceResponse::SetSecret(command)).unwrap_err();
    assert!(matches!(mixed, IpcError::ProtocolError(_)));
}

#[test]
fn closed_connections_are_recognised() {
    let closed = read_line(None).unwrap_err();
    assert!(closed.is_connection_closed());
    assert_eq!(closed.to_text(), "IO error: Connection closed");
    assert_eq!(read_line(Some(Ok("x".to_string()))).unwrap(), "x");
    let long = line_codec_error(LineFailure::TooLong);
    assert_eq!(long.to_text(), "IPC frame exceeded maximum line length");
    assert!(!long.is_connection_closed());
    for (kind, closes) in [
        (IoErrorKind::BrokenPipe, true),
        (IoErrorKind::ConnectionReset, true),
        (IoErrorKind::NotFound, false),
    ] {
        let error = line_codec_error(LineFailure::Io(IoFailure::new(kind, "x")));
        assert_eq!(error.is_connection_closed(), closes);
    }
}
