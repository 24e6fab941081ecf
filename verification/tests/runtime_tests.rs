use playit::api::{ApiResponseError, AuthError, Platform};
use playit::control::maintained_control::ControlConnectionState;
use playit::error::{IoErrorKind, IoFailure, RuntimeError};
use playit::http_client::HttpClientError;
use playit::model::{AgentLifecycle, ServiceErrorCode, ServicePhase};
use playit::options::{
    platform_for_options, RuntimeOptions, VersionDetails, VersionOverrideFile, DEFAULT_VARIANT_ID,
};
use playit::runtime::{
    check_start, classify_agent_completion, is_agent_disabled_over_limit_error,
    is_invalid_agent_secret_error, is_transient_setup_error, retry_delay,
    setup_error_message_with, setup_error_user_message, validate_options, AgentStop,
    ControlStateWatch, Effect, Next, SetupError, Supervisor, SupervisorEvent,
};
use playit::secret::{LoadedSecret, SecretSource};

fn file_supervisor() -> Supervisor {
    Supervisor::new(SecretSource::File { path: "secret.toml".to_string() }, true)
}

fn phases(effects: &[Effect]) -> Vec<ServicePhase> {
    effects
        .iter()
        .filter_map(|effect| match effect {
            Effect::Publish { phase, .. } => Some(*phase),
            _ => None,
        })
        .collect()
}

#[test]
fn agent_self_completion_is_unexpected_without_runtime_shutdown() {
    assert!(matches!(
        classify_agent_completion(false, Ok(())),
        AgentStop::Unexpected(Ok(()))
    ));
}

#[test]
fn completed_agent_is_requested_only_after_runtime_shutdown() {
    assert!(matches!(classify_agent_completion(true, Ok(())), AgentStop::Requested));
}

#[test]
fn agent_stops_have_results() {
    assert!(AgentStop::Requested.is_requested());
    assert!(AgentStop::Requested.into_result().is_ok());
    let stopped = AgentStop::Unexpected(Ok(())).into_result().err().unwrap();
    assert_eq!(
        stopped.to_text(),
        "runtime setup error: playit agent task stopped unexpectedly"
    );
    let failed = AgentStop::Unexpected(Err("panic".to_string())).into_result().err().unwrap();
    assert_eq!(failed.as_service_error().message, "playit agent task failed: panic");
    assert!(failed.as_service_error().retryable);
}

#[test]
fn transient_setup_failures_are_retried() {
    assert!(is_transient_setup_error(&SetupError::FailedToConnect));
    assert!(!is_transient_setup_error(&SetupError::RegisterInvalidSignature));
    assert!(is_transient_setup_error(&SetupError::ApiError(ApiResponseError::Auth(
        AuthError::SessionExpired
    ))));
    assert!(!is_transient_setup_error(&SetupError::ApiError(ApiResponseError::Auth(
        AuthError::NoLongerValid
    ))));
    assert!(is_transient_setup_error(&SetupError::RequestError(
        HttpClientError::TooManyRequests
    )));
}

#[test]
fn transient_retry_backoff_is_capped() {
    assert_eq!(std::time::Duration::from_secs(retry_delay(0)), std::time::Duration::from_secs(1));
    assert_eq!(std::time::Duration::from_secs(retry_delay(4)), std::time::Duration::from_secs(15));
    assert_eq!(
        std::time::Duration::from_secs(retry_delay(100)),
        std::time::Duration::from_secs(30)
    );
}

#[test]
fn setup_error_message_handles_connection_failure() {
    let message = setup_error_user_message(&SetupError::FailedToConnect);
    assert!(message.contains("Could not connect to Playit tunnel servers"));
    assert!(message.contains("retry automatically"));
    assert!(message.contains("firewall"));
}

#[test]
fn setup_error_message_handles_timeout() {
    let message = setup_error_user_message(&SetupError::Timeout);
    assert!(message.contains("Timed out while connecting to Playit"));
    assert!(message.contains("retry automatically"));
}

#[test]
fn setup_error_message_handles_io_error() {
    let message = setup_error_user_message(&SetupError::IoError(IoFailure::new(
        IoErrorKind::AddrInUse,
        "address already in use",
    )));
    assert!(message.contains("Could not open a required network socket"));
    assert!(message.contains("address already in use"));
}

#[test]
fn setup_error_message_handles_invalid_secret() {
    let message = setup_error_user_message(&SetupError::ApiError(ApiResponseError::Auth(
        AuthError::NoLongerValid,
    )));
    assert!(message.contains("secret is no longer valid"));
    assert!(message.contains("playit setup"));
}

#[test]
fn setup_error_message_handles_agent_limit() {
    let payload = serde_json::to_string("AgentDisabledOverLimit").unwrap();
    let error = SetupError::ApiFail(payload);
    let message = setup_error_user_message(&error);
    assert!(message.contains("over the agent limit"));
    assert!(is_agent_disabled_over_limit_error(&error));
    let other = SetupError::ApiFail("\"InvalidVersion\"".to_string());
    assert!(setup_error_user_message(&other).contains("rejected the agent registration"));
    assert!(!is_agent_disabled_over_limit_error(&other));
    assert!(!is_agent_disabled_over_limit_error(&SetupError::ApiFail("nonsense".to_string())));
    assert!(setup_error_message_with(&other, &Some("AgentDisabledOverLimit".to_string()))
        .contains("over the agent limit"));
}

#[test]
fn refusals_may_be_written_as_an_object() {
    let over_limit = |payload: &str| {
        let error = SetupError::ApiFail(payload.to_string());
        let says_so = setup_error_user_message(&error).contains("over the agent limit");
        assert_eq!(says_so, is_agent_disabled_over_limit_error(&error));
        says_so
    };
    assert!(over_limit(r#"{"AgentDisabledOverLimit":null}"#));
    assert!(over_limit(r#" { "AgentDisabledOverLimit" : null } "#));
    assert!(!over_limit(r#"{"InvalidVersion":null}"#));
    assert!(!over_limit(r#"{"AgentDisabledOverLimit":1}"#));
    assert!(!over_limit(r#"{"AgentDisabledOverLimit":{}}"#));
    assert!(!over_limit(r#"{"AgentDisabledOverLimit":null,"InvalidVersion":null}"#));
    assert!(!over_limit(r#"{"AgentDisabledOverLimit":null,"AgentDisabledOverLimit":null}"#));
    assert!(!over_limit(r#"{"AgentDisabledOverLimit":null} {}"#));
    assert!(!over_limit(r#"["AgentDisabledOverLimit"]"#));
    assert!(!over_limit("{}"));
    assert!(!over_limit("null"));
}

#[test]
fn other_setup_errors_are_named() {
    assert_eq!(
        setup_error_user_message(&SetupError::RegisterUnauthorized),
        "Failed to start the playit agent: RegisterUnauthorized"
    );
    assert_eq!(
        setup_error_user_message(&SetupError::ApiError(ApiResponseError::Auth(
            AuthError::InvalidHeader
        ))),
        "The playit API rejected the agent startup request: Auth(InvalidHeader)"
    );
    assert!(is_invalid_agent_secret_error(&SetupError::ApiError(ApiResponseError::Auth(
        AuthError::InvalidAgentKey
    ))));
    assert!(!is_invalid_agent_secret_error(&SetupError::ApiError(ApiResponseError::Auth(
        AuthError::SessionExpired
    ))));
}

#[test]
fn starts_without_a_secret_and_can_be_stopped_without_ipc() {
    let mut supervisor = file_supervisor();
    let step = supervisor.step(SupervisorEvent::Loaded(LoadedSecret::Missing), false);
    assert!(matches!(step.next, Next::AwaitSecret));
    assert!(matches!(
        step.effects.last(),
        Some(Effect::Publish { lifecycle: AgentLifecycle::WaitingForSecret, .. })
    ));
    let step = supervisor.step(SupervisorEvent::Provisioned(Ok(None)), true);
    assert!(matches!(step.next, Next::Finish(Ok(()))));
    assert!(matches!(
        step.effects.last(),
        Some(Effect::Publish {
            lifecycle: AgentLifecycle::Stopping,
            has_secret: false,
            phase: ServicePhase::Stopping,
            ..
        })
    ));
}

#[test]
fn a_stored_secret_starts_the_agent() {
    let mut supervisor = file_supervisor();
    let step = supervisor
        .step(SupervisorEvent::Loaded(LoadedSecret::Ready("deadbeef".to_string())), false);
    assert!(matches!(&step.next, Next::BuildAgent { secret } if secret == "deadbeef"));
    assert_eq!(phases(&step.effects), vec![ServicePhase::Starting, ServicePhase::Starting]);
    assert!(matches!(&step.effects[1], Effect::SetApi(Some(secret)) if secret == "deadbeef"));
    assert!(matches!(step.effects[2], Effect::RefreshOrigins));
    let step = supervisor.step(SupervisorEvent::AgentBuilt(Ok(())), false);
    assert!(matches!(step.next, Next::RunAgent));
    assert_eq!(phases(&step.effects), vec![ServicePhase::Running]);
    let step = supervisor.step(SupervisorEvent::AgentStopped(Ok(())), true);
    assert!(matches!(step.next, Next::Finish(Ok(()))));
}

#[test]
fn failed_agents_are_retried_with_growing_pauses() {
    let mut supervisor = file_supervisor();
    let _ = supervisor
        .step(SupervisorEvent::Loaded(LoadedSecret::Ready("deadbeef".to_string())), false);
    for secs in [1, 2, 4, 8, 15, 30, 30] {
        let step = supervisor.step(
            SupervisorEvent::AgentBuilt(Err(SetupError::FailedToConnect)),
            false,
        );
        assert!(matches!(step.next, Next::Pause { secs: pause } if pause == secs));
        assert_eq!(phases(&step.effects), vec![ServicePhase::Reconnecting]);
        let step = supervisor.step(SupervisorEvent::Paused { completed: true }, false);
        assert!(matches!(&step.next, Next::BuildAgent { secret } if secret == "deadbeef"));
    }
    let stopped = RuntimeError::setup("gone".to_string(), true);
    let step = supervisor.step(SupervisorEvent::AgentStopped(Err(stopped)), false);
    assert!(matches!(step.next, Next::Pause { secs: 30 }));
    match &step.effects[0] {
        Effect::Publish { last_error: Some(error), .. } => {
            assert_eq!(error.message, "runtime setup error: gone");
        }
        other => panic!("expected a state, got {other:?}"),
    }
    let step = supervisor.step(SupervisorEvent::Paused { completed: false }, true);
    assert!(matches!(step.next, Next::Finish(Ok(()))));
}

#[test]
fn agent_limits_pause_without_counting() {
    let mut supervisor = file_supervisor();
    let step = supervisor.step(
        SupervisorEvent::AgentBuilt(Err(SetupError::ApiFail(
            "\"AgentDisabledOverLimit\"".to_string(),
        ))),
        false,
    );
    assert!(matches!(step.next, Next::Pause { secs: 30 }));
    assert!(matches!(
        &step.effects[0],
        Effect::Publish { lifecycle: AgentLifecycle::DisabledOverLimit(error), has_secret: true, .. }
            if error.code == ServiceErrorCode::AgentDisabledOverLimit && error.retryable
    ));
    let _ = supervisor.step(SupervisorEvent::Paused { completed: true }, false);
    assert_eq!(supervisor.retry_attempt, 0);
    let step = supervisor.after_setup_error(
        SetupError::ApiFail("x".to_string()),
        Some("AgentDisabledOverLimit".to_string()),
    );
    assert!(matches!(step.next, Next::Pause { secs: 30 }));
}

#[test]
fn invalid_agent_secrets_are_replaced_or_fatal() {
    let invalid = || {
        SupervisorEvent::AgentBuilt(Err(SetupError::ApiError(ApiResponseError::Auth(
            AuthError::InvalidAgentKey,
        ))))
    };
    let mut supervisor = file_supervisor();
    let step = supervisor.step(invalid(), false);
    assert!(matches!(step.effects[0], Effect::SetApi(None)));
    assert!(matches!(step.next, Next::AwaitSecret));
    let step =
        supervisor.step(SupervisorEvent::Provisioned(Ok(Some("beef".to_string()))), false);
    assert!(matches!(&step.next, Next::BuildAgent { secret } if secret == "beef"));

    let mut inline =
        Supervisor::new(SecretSource::Inline { secret: "dead".to_string() }, false);
    let step = inline.step(invalid(), false);
    assert!(matches!(step.next, Next::Finish(Err(_))));
    assert_eq!(phases(&step.effects), vec![ServicePhase::Error]);
    let step = inline.step(
        SupervisorEvent::Loaded(LoadedSecret::Invalid("bad".to_string())),
        false,
    );
    match step.next {
        Next::Finish(Err(error)) => {
            assert_eq!(error.as_service_error().code, ServiceErrorCode::InvalidSecret);
            assert!(!error.as_service_error().retryable);
        }
        other => panic!("expected an end, got {other:?}"),
    }
    let step = inline.step(SupervisorEvent::Loaded(LoadedSecret::Missing), false);
    match step.next {
        Next::Finish(Err(error)) => {
            assert_eq!(error.as_service_error().code, ServiceErrorCode::ProvisioningUnavailable)
        }
        other => panic!("expected an end, got {other:?}"),
    }
    let mut deaf = Supervisor::new(SecretSource::File { path: "p".to_string() }, false);
    let step = deaf.step(SupervisorEvent::Loaded(LoadedSecret::Missing), false);
    match step.next {
        Next::Finish(Err(error)) => {
            assert_eq!(error.as_service_error().message, "Secret provisioning is unavailable.")
        }
        other => panic!("expected an end, got {other:?}"),
    }
    let step = deaf.step(
        SupervisorEvent::Provisioned(Err(RuntimeError::stopped())),
        false,
    );
    assert!(matches!(step.next, Next::Finish(Err(RuntimeError::Stopped))));
}

#[test]
fn stored_secrets_that_are_none_are_told_and_awaited_anew() {
    let mut supervisor = file_supervisor();
    let step = supervisor.step(
        SupervisorEvent::Loaded(LoadedSecret::Invalid("broken".to_string())),
        false,
    );
    assert_eq!(
        phases(&step.effects),
        vec![ServicePhase::HasInvalidSecret, ServicePhase::WaitingForSecret]
    );
    assert!(matches!(step.next, Next::AwaitSecret));
    match &step.effects[1] {
        Effect::Publish { last_error: Some(error), .. } => assert_eq!(error.message, "broken"),
        other => panic!("expected a state, got {other:?}"),
    }
}

#[test]
fn control_states_become_phases_once() {
    let mut watch = ControlStateWatch::new();
    assert_eq!(watch.observe(ControlConnectionState::Connected), Some(ServicePhase::Running));
    assert_eq!(watch.observe(ControlConnectionState::Connected), None);
    assert_eq!(
        watch.observe(ControlConnectionState::Reconnecting),
        Some(ServicePhase::Reconnecting)
    );
}

#[test]
fn options_are_checked_before_a_start() {
    assert!(validate_options(&RuntimeOptions::default()).is_ok());
    assert!(matches!(
        check_start(&RuntimeOptions::default()),
        Ok(SecretSource::File { path }) if path == "playit-secret.toml"
    ));
    let empty = RuntimeOptions { secret_path: String::new(), ..RuntimeOptions::default() };
    assert_eq!(
        check_start(&empty).err().unwrap().as_service_error().message,
        "RuntimeOptions.secret_path must not be empty"
    );
    let blank = RuntimeOptions { api_base: "  ".to_string(), ..RuntimeOptions::default() };
    assert_eq!(
        validate_options(&blank).err().unwrap().as_service_error().message,
        "RuntimeOptions.api_base must not be empty"
    );
    let inline =
        RuntimeOptions { secret: Some("nope".to_string()), ..RuntimeOptions::default() };
    assert_eq!(
        check_start(&inline).err().unwrap().as_service_error().code,
        ServiceErrorCode::InvalidSecret
    );
    let good =
        RuntimeOptions { secret: Some(" dead ".to_string()), ..RuntimeOptions::default() };
    assert!(matches!(check_start(&good), Ok(SecretSource::Inline { .. })));
}

#[test]
fn debug_output_redacts_inline_secrets() {
    let options =
        RuntimeOptions { secret: Some("deadbeef".to_string()), ..RuntimeOptions::default() };
    let debug = options.debug_text();

    assert!(debug.contains("<redacted>"));
    assert!(!debug.contains("deadbeef"));
    assert_eq!(
        debug,
        "RuntimeOptions { secret_path: \"playit-secret.toml\", secret: Some(\"<redacted>\"), \
         version: VersionDetails { variant_id: \"308943e8-faef-4835-a2ba-270351f72aa3\", \
         major: 1, minor: 0, patch: 0 }, platform_docker: false, \
         api_base: \"https://api.playit.gg\" }"
    );
    assert!(RuntimeOptions::default().debug_text().contains("secret: None"));
}

#[test]
fn versions_are_read_and_written() {
    let version = VersionDetails::from_version_string("1.2.3-beta.4", DEFAULT_VARIANT_ID).unwrap();
    assert_eq!((version.major, version.minor, version.patch), (1, 2, 3));
    assert_eq!(version.version_string(), "1.2.3");
    let again =
        VersionDetails::from_version_string(&version.version_string(), DEFAULT_VARIANT_ID).unwrap();
    assert_eq!((again.major, again.minor, again.patch), (1, 2, 3));
    let long = VersionDetails::from_version_string("10.20.4294967295.9", "v").unwrap();
    assert_eq!(long.version_string(), "10.20.4294967295");
    assert_eq!(
        VersionDetails::from_version_string("1", "v").err().unwrap(),
        "missing minor version in 1"
    );
    assert_eq!(
        VersionDetails::from_version_string("1.2", "v").err().unwrap(),
        "missing patch version in 1.2"
    );
    for part in ["", "x", "4294967296", "-1", "+"] {
        let expected = format!(
            "Invalid version component {part}: {}",
            part.parse::<u32>().err().unwrap()
        );
        let text = format!("0.{part}.0");
        if !part.contains('-') {
            assert_eq!(
                VersionDetails::from_version_string(&text, "v").err().unwrap(),
                expected
            );
        }
    }
    assert_eq!(
        VersionDetails::from_version_string("+1.2.3", "v").unwrap().major,
        1
    );
    assert_eq!(VersionDetails::from_cargo_package().unwrap().version_string(), "1.0.0");
}

#[test]
fn overrides_replace_what_they_hold() {
    let mut version = VersionDetails::from_version_string("1.2.3", "v").unwrap();
    version.apply_overrides(VersionOverrideFile::default());
    assert_eq!(version.version_string(), "1.2.3");
    version.apply_overrides(VersionOverrideFile {
        variant_id: Some(DEFAULT_VARIANT_ID.to_string()),
        minor: Some(9),
        ..VersionOverrideFile::default()
    });
    assert_eq!(version.version_string(), "1.9.3");
    let agent = version.agent_version().unwrap();
    assert_eq!(
        agent.variant_id,
        uuid::Uuid::parse_str(DEFAULT_VARIANT_ID).unwrap().as_u128()
    );
    assert_eq!(agent.version_minor, 9);
    version.variant_id = "nope".to_string();
    let expected = format!(
        "invalid variant ID nope: {}",
        uuid::Uuid::parse_str("nope").err().unwrap()
    );
    assert_eq!(version.agent_version().err().unwrap(), expected);
    assert_eq!(version.agent_version_with(Ok(5)).unwrap().variant_id, 5);
}

#[test]
fn docker_is_registered_as_such() {
    let plain = RuntimeOptions::default();
    assert_eq!(platform_for_options(&plain, Platform::Linux), Platform::Linux);
    let docker = RuntimeOptions { platform_docker: true, ..RuntimeOptions::default() };
    assert_eq!(platform_for_options(&docker, Platform::Linux), Platform::Docker);
}

#[test]
fn setup_errors_can_preserve_specific_wire_codes() {
    let error = RuntimeError::setup_with_code(
        ServiceErrorCode::AgentDisabledOverLimit,
        "over limit".to_string(),
        true,
    );

    assert!(matches!(
        error.as_service_error().code,
        ServiceErrorCode::AgentDisabledOverLimit
    ));
}

#[test]
fn runtime_errors_in_words() {
    let io = RuntimeError::Io(IoFailure::new(IoErrorKind::Other, "disk"));
    assert_eq!(io.to_text(), "runtime I/O error: disk");
    assert_eq!(io.as_service_error().code, ServiceErrorCode::Internal);
    assert_eq!(io.as_service_error().message, "disk");
    assert_eq!(RuntimeError::stopped().to_text(), "the Playit runtime has stopped");
    assert_eq!(
        RuntimeError::stopped().as_service_error().message,
        "The Playit runtime has stopped."
    );
    let api = RuntimeError::api(ServiceErrorCode::ApiRejected, "no".to_string(), false);
    assert_eq!(api.to_text(), "Playit API error: no");
    assert_eq!(api.as_service_error().to_text(), "ApiRejected: no");
    let state = RuntimeError::invalid(ServiceErrorCode::Internal, "x".to_string(), false);
    assert_eq!(state.to_text(), "invalid runtime state: x");
    let secret = RuntimeError::secret(ServiceErrorCode::InvalidSecret, "y".to_string(), true);
    assert_eq!(secret.to_text(), "secret error: y");
}
