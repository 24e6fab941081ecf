use playit::api::{
    AccountTunnelOriginCreate, ApiError, ApiResponseError, AuthError, CreateTunnelEndpoint,
    DeleteError, PlayitNetwork, PortType, TunnelCreateErrorV1, TunnelProtocolV1, TunnelType,
};
use playit::http_client::{HttpClientError, JsonFailure, RequestFailure};
use playit::model::{
    AgentLifecycle, AgentState, ServiceError, ServiceErrorCode, TunnelProtocol, TunnelState,
};
use playit::tunnels::{
    bounded_message, checked_tunnel_id, create_minecraft_request, create_request,
    map_api_response_error, map_generic_api_error, map_tunnel_create_error,
    map_tunnel_delete_error, parse_tunnel_id, secret_provisioning_state_error,
    service_not_ready_error, tunnel_list, unreadable_response_error,
};

fn running() -> AgentLifecycle {
    AgentLifecycle::Running(AgentState {
        agent_id: "00000000-0000-0000-0000-000000000001".to_string(),
        ..AgentState::default()
    })
}

fn some(text: &str) -> Option<String> {
    Some(text.to_string())
}

#[test]
fn typed_business_failures_are_not_reported_as_outages() {
    let error =
        map_tunnel_create_error(ApiError::Fail(TunnelCreateErrorV1::RequiresVerifiedAccount));
    assert!(matches!(error.as_service_error().code, ServiceErrorCode::PermissionDenied));
    assert!(!error.as_service_error().retryable);
    assert_eq!(
        error.as_service_error().message,
        "The playit API rejected tunnel creation: a verified account is required."
    );

    let error = map_api_response_error(
        "tunnel creation",
        ApiResponseError::Validation("bad local address".to_string()),
        ServiceErrorCode::InvalidTunnelRequest,
    );
    assert!(matches!(error.as_service_error().code, ServiceErrorCode::InvalidTunnelRequest));
    assert!(!error.as_service_error().retryable);
    assert_eq!(
        error.as_service_error().message,
        "The playit API rejected tunnel creation: bad local address."
    );
}

#[test]
fn delete_not_found_is_a_specific_non_retryable_error() {
    let error = map_tunnel_delete_error(ApiError::Fail(DeleteError::TunnelNotFound));
    assert!(matches!(error.as_service_error().code, ServiceErrorCode::TunnelNotFound));
    assert!(!error.as_service_error().retryable);
}

#[test]
fn tunnel_request_validation_preserves_defaults_and_protocols() {
    for (protocol, expected) in [
        (TunnelProtocol::Tcp, PortType::Tcp),
        (TunnelProtocol::Udp, PortType::Udp),
        (TunnelProtocol::Both, PortType::Both),
    ] {
        let request = create_request(
            running(),
            25565,
            protocol,
            some(" 127.0.0.1 "),
            some("127.0.0.1"),
            some("  "),
        )
        .unwrap();
        assert_eq!(request.name, "playit-tunnel");
        assert!(matches!(
            request.protocol,
            TunnelProtocolV1::RawPorts(details)
                if details.port_type == expected
                    && details.port_count == 1
                    && !details.software_description.is_empty()
        ));
        let AccountTunnelOriginCreate::Agent(origin) = request.origin;
        assert_eq!(
            origin.agent_id,
            Some(uuid::Uuid::parse_str("00000000-0000-0000-0000-000000000001").unwrap().as_u128())
        );
        let config = origin.config.unwrap();
        assert!(config.iter().any(|f| f.name == "local_ip" && f.value == "127.0.0.1"));
        assert!(config.iter().any(|f| f.name == "local_port" && f.value == "25565"));
        assert!(matches!(
            request.endpoint,
            CreateTunnelEndpoint::Region { region: PlayitNetwork::Global, port: None }
        ));
        assert!(request.enabled);
        assert_eq!(request.firewall_id, None);
    }
}

#[test]
fn minecraft_request_uses_the_semantic_playit_tunnel_type() {
    let request = create_minecraft_request(
        running(),
        25565,
        some("127.0.0.1"),
        some("127.0.0.1"),
        some("minecraft"),
    )
    .unwrap();

    assert_eq!(request.name, "minecraft");
    assert!(matches!(
        request.protocol,
        TunnelProtocolV1::TunnelType(TunnelType::MinecraftJava)
    ));
    let AccountTunnelOriginCreate::Agent(origin) = request.origin;
    assert_eq!(
        uuid::Uuid::from_u128(origin.agent_id.unwrap()).to_string(),
        "00000000-0000-0000-0000-000000000001"
    );
    assert!(matches!(
        request.endpoint,
        CreateTunnelEndpoint::Region { region: PlayitNetwork::Global, .. }
    ));
}

#[test]
fn tunnel_request_validation_rejects_bad_input_and_unready_state() {
    assert!(matches!(
        create_request(running(), 0, TunnelProtocol::Tcp, None, some("127.0.0.1"), None)
            .unwrap_err()
            .as_service_error()
            .code,
        ServiceErrorCode::InvalidTunnelRequest
    ));
    let error = create_request(
        running(),
        25565,
        TunnelProtocol::Tcp,
        some("localhost"),
        None,
        None,
    )
    .unwrap_err()
    .as_service_error();
    assert!(matches!(error.code, ServiceErrorCode::InvalidTunnelRequest));
    assert_eq!(error.message, "local_address is not a valid IP address: localhost");
    assert!(matches!(
        service_not_ready_error("list tunnels", &AgentLifecycle::WaitingForSecret)
            .as_service_error()
            .code,
        ServiceErrorCode::ProvisioningUnavailable
    ));
    assert!(parse_tunnel_id("not-a-uuid").is_err());
}

#[test]
fn requests_need_a_running_agent_with_an_id() {
    let error = create_request(
        AgentLifecycle::Starting,
        1,
        TunnelProtocol::Tcp,
        None,
        some("127.0.0.1"),
        None,
    )
    .unwrap_err()
    .as_service_error();
    assert_eq!(error.message, "Cannot create a tunnel while the service is starting.");
    assert!(error.retryable);
    let nameless = AgentLifecycle::Running(AgentState::default());
    let error =
        create_request(nameless, 1, TunnelProtocol::Tcp, None, some("127.0.0.1"), None)
            .unwrap_err()
            .as_service_error();
    assert_eq!(error.message, "The running agent has not reported a valid agent ID yet");
    assert_eq!(error.code, ServiceErrorCode::ApiUnavailable);
}

#[test]
fn tunnel_ids_are_uuids() {
    let id = "67e55044-10b1-426f-9247-bb680e5fe0c8";
    assert_eq!(
        parse_tunnel_id(&format!(" {id} ")).unwrap(),
        uuid::Uuid::parse_str(id).unwrap().as_u128()
    );
    assert_eq!(checked_tunnel_id(Ok(4)).unwrap(), 4);
    let error = checked_tunnel_id(Err("no".to_string())).err().unwrap().as_service_error();
    assert_eq!(error.message, "tunnel_id must be a valid UUID");
}

#[test]
fn tunnels_are_listed_while_running() {
    let state = AgentState {
        tunnels: vec![TunnelState { id: "t".to_string(), ..TunnelState::default() }],
        pending_tunnels: vec![Default::default()],
        ..AgentState::default()
    };
    let list = tunnel_list(AgentLifecycle::Running(state)).unwrap();
    assert_eq!(list.tunnels[0].id, "t");
    assert_eq!(list.pending_tunnels.len(), 1);
    let error = tunnel_list(AgentLifecycle::Stopping).err().unwrap().as_service_error();
    assert_eq!(error.message, "Cannot list tunnels while the service is stopping.");
}

fn known(code: ServiceErrorCode, retryable: bool) -> ServiceError {
    ServiceError { code, message: "known".to_string(), retryable, details: None }
}

#[test]
fn unready_states_are_explained() {
    let error = |lifecycle| service_not_ready_error("act", &lifecycle).as_service_error();
    let invalid =
        error(AgentLifecycle::HasInvalidSecret(known(ServiceErrorCode::Internal, true)));
    assert_eq!(invalid.code, ServiceErrorCode::InvalidSecret);
    assert_eq!(invalid.message, "Cannot act: known");
    assert!(!invalid.retryable);
    let limit =
        error(AgentLifecycle::DisabledOverLimit(known(ServiceErrorCode::Internal, true)));
    assert_eq!(limit.code, ServiceErrorCode::AgentDisabledOverLimit);
    let broken = error(AgentLifecycle::Error(known(ServiceErrorCode::ApiRejected, true)));
    assert_eq!(broken.code, ServiceErrorCode::ApiRejected);
    assert!(broken.retryable);
    assert_eq!(error(running()).code, ServiceErrorCode::Internal);
}

#[test]
fn provisioning_is_refused_with_a_reason() {
    let error = |lifecycle| secret_provisioning_state_error(&lifecycle).as_service_error();
    assert_eq!(
        error(running()).message,
        "The Playit service already has a configured secret. Run playit reset before \
         provisioning a new one."
    );
    assert_eq!(
        error(AgentLifecycle::DisabledOverLimit(known(ServiceErrorCode::Internal, true))).message,
        "Setup is unavailable because this account is over the agent limit.\n\
         Delete unused agents: https://playit.gg/account/agents\n\
         Increase your agent limit: https://playit.gg/account/upgrade\nReason: known"
    );
    assert!(error(AgentLifecycle::Starting).retryable);
    assert!(error(AgentLifecycle::Stopping).retryable);
    assert!(error(AgentLifecycle::WaitingForSecret).retryable);
    assert!(!error(AgentLifecycle::HasInvalidSecret(known(ServiceErrorCode::Internal, true)))
        .retryable);
    assert_eq!(
        error(AgentLifecycle::Error(known(ServiceErrorCode::Internal, true))).message,
        "The Playit service reported an error and cannot accept setup right now: known"
    );
}

#[test]
fn api_messages_are_bounded() {
    assert_eq!(bounded_message("  "), "no additional details");
    assert_eq!(bounded_message(" x "), "x");
    let exact = "é".repeat(512);
    assert_eq!(bounded_message(&exact), exact);
    let long = "é".repeat(513);
    assert_eq!(bounded_message(&long), format!("{exact}…"));
}

#[test]
fn api_errors_are_mapped() {
    let map = |error| {
        map_api_response_error("guest login", error, ServiceErrorCode::ApiRejected)
            .as_service_error()
    };
    let internal = map(ApiResponseError::Internal("abc".to_string()));
    assert_eq!(
        internal.message,
        "The playit API reported a temporary internal error while performing guest login \
         (reference abc)."
    );
    assert!(internal.retryable);
    let auth = map(ApiResponseError::Auth(AuthError::AuthRequired));
    assert_eq!(auth.code, ServiceErrorCode::PermissionDenied);
    assert_eq!(auth.message, "The playit API did not authorize guest login.");
    let path = map(ApiResponseError::PathNotFound("/x".to_string()));
    assert_eq!(path.message, "The playit API does not support guest login.");
    let fail: ApiError<u8> = ApiError::Fail(1);
    let generic = map_generic_api_error("guest login", fail).as_service_error();
    assert_eq!(generic.message, "The playit API rejected guest login.");
    assert_eq!(generic.code, ServiceErrorCode::ApiRejected);
}

#[test]
fn transport_errors_are_mapped() {
    let map = |error| {
        let error: ApiError<u8> = ApiError::ClientError(error);
        map_generic_api_error("tunnel creation", error).as_service_error()
    };
    let failure = |request| RequestFailure { connect: false, timeout: false, request, body: false };
    assert!(map(HttpClientError::TooManyRequests).retryable);
    assert_eq!(
        map(HttpClientError::RequestError(failure(true))).message,
        "Could not reach the playit API while performing tunnel creation."
    );
    let unsent = map(HttpClientError::RequestError(failure(false)));
    assert_eq!(
        unsent.message,
        "The playit API request for tunnel creation could not be sent."
    );
    assert_eq!(unsent.code, ServiceErrorCode::Internal);
    let json = || JsonFailure { message: String::new(), debug: String::new() };
    let parse = map(HttpClientError::ParseError(json(), 404));
    assert_eq!(
        parse.message,
        "The playit API returned an invalid response for tunnel creation (404 Not Found)."
    );
    assert_eq!(parse.code, ServiceErrorCode::ApiRejected);
    assert!(!parse.retryable);
    let busy = map(HttpClientError::ParseError(json(), 503));
    assert_eq!(busy.code, ServiceErrorCode::ApiUnavailable);
    assert!(busy.retryable);
    assert_eq!(
        map(HttpClientError::SerializeError(json())).message,
        "Could not prepare the playit API request for tunnel creation."
    );
    let (code, message) = unreadable_response_error("x", "299 <unknown status code>", false);
    assert_eq!(code, ServiceErrorCode::ApiRejected);
    assert_eq!(
        message,
        "The playit API returned an invalid response for x (299 <unknown status code>)."
    );
}
