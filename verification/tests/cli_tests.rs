use playit::account::{
    load_stored_session, login_code, login_credentials, prompt_line, prompted_line,
    read_password, read_stdin_line, report_session, require_valid_stored_session, run_account_login, run_account_logout,
    run_account_status, run_account_validate, session_file, stored_account_client, LoginEvent,
    LoginNext, PasswordSource,
};
use playit::api::{
    AccountStatus, ApiError, ApiErrorNoFail, ApiResponseError, ApiResult, AuthError,
    ClaimAgentType, ClaimSetupError, ClaimSetupResponse, Platform, SigninFail, TotpStatus, WebAuthToken, WebSession,
};
use playit::auth::{AccountSession, TotpSubmitFail};
use playit::cli::{
    agent_deleted, agents_delete, agents_delete_with, agents_list, checked_agent_name,
    claim_agent_type, claim_approve, claim_generate, claim_inspect, claim_reject, claim_url,
    cli_error, cli_error_no_fail, parse_claim_agent_type, run_cli, run_setup_flow,
    service_manager_mode, session_error, setup_cli_error, setup_failure_text, usable_name, ApprovalEvent, ApprovalNext, ApprovalStage, AttachMode,
    ClaimApproval, ClaimExchange, ClaimWait, CliAction, CliError, CliHost,
    Command, ExchangeAnswer, ExchangeNext, ServiceManagerMode, SetupEvent, SetupFlow,
    SetupNext, WaitStep,
};
use playit::daemon::{
    api_base, daemon_ends, load_overrides_by_extension,
    load_version_overrides, log_directory, log_directory_created, log_file_name, log_file_target,
    parsed_version_overrides, run_daemon_result, DaemonError, DaemonEvent, DaemonOptions,
    DaemonStep, OverrideFormat,
};
use playit::error::{IoErrorKind, IoFailure, RuntimeError};
use playit::http_client::HttpClientError;
use playit::ipc::{
    IncomingRequestEnvelope, IpcClient, IpcError, RequestEnvelope, ServiceRequestOrUnknown,
};
use playit::ipc_server::{ClientConversation, IpcServer, ServerStep};
use playit::model::{AgentLifecycle, ServicePhase};
use playit::options::VersionOverrideFile;
use playit::runtime::{Next, PlayitRuntime, SupervisorEvent};
use playit::session::{io_unavailable, PersistedSession};
use playit::web_api::{
    accept_claim, claim_details, reject_claim, AgentListEntry, AgentsList, ClaimAcceptFail,
    ClaimAccepted, ClaimDetails, ClaimDetailsFail, ClaimRejectFail, TunnelsStrategy, WebApiError,
};

#[test]
fn linux_service_manager_mode_defaults_to_none() {
    let host = CliHost::Linux { systemd: false, openrc: false };
    assert_eq!(service_manager_mode(host), ServiceManagerMode::Unmanaged);
}

#[test]
fn linux_service_manager_mode_accepts_systemd() {
    let host = CliHost::Linux { systemd: true, openrc: false };
    assert_eq!(service_manager_mode(host), ServiceManagerMode::Systemd);
}

#[test]
fn linux_service_manager_mode_accepts_openrc() {
    let host = CliHost::Linux { systemd: false, openrc: true };
    assert_eq!(service_manager_mode(host), ServiceManagerMode::OpenRc);
}

#[test]
fn windows_service_manager_mode_uses_windows_service() {
    assert_eq!(service_manager_mode(CliHost::Windows), ServiceManagerMode::WindowsService);
    assert_eq!(service_manager_mode(CliHost::Other), ServiceManagerMode::Native);
}

#[test]
fn commands_become_actions() {
    let plan = |stdout, command| run_cli(stdout, CliHost::Other, command).ok().unwrap();
    let auto = plan(true, Command::Auto);
    assert!(auto.log_to_stdout);
    assert!(matches!(
        auto.action,
        CliAction::Auto { attach: AttachMode::Stdout, manager: ServiceManagerMode::Native }
    ));
    let quiet = plan(false, Command::Attach { stdout: false });
    assert!(!quiet.log_to_stdout);
    assert!(matches!(quiet.action, CliAction::Attach { attach: AttachMode::Interactive }));
    let loud = plan(false, Command::Attach { stdout: true });
    assert!(loud.log_to_stdout);
    assert!(matches!(loud.action, CliAction::Attach { attach: AttachMode::Stdout }));
    assert!(matches!(
        plan(false, Command::Version).action,
        CliAction::Print(version) if version == "1.0.0"
    ));
    assert!(matches!(
        plan(false, Command::ClaimUrl { claim_code: "beef".to_string() }).action,
        CliAction::Print(url) if url == "https://playit.gg/claim/beef"
    ));
    assert!(matches!(
        run_cli(false, CliHost::Other, Command::ClaimUrl { claim_code: "x".to_string() }),
        Err(CliError::InvalidClaimCode)
    ));
    assert!(matches!(
        plan(false, Command::ClaimExchange { claim_code: "beef".to_string(), wait: 9 }).action,
        CliAction::ClaimExchange { agent_type: ClaimAgentType::SelfManaged, wait: 9, .. }
    ));
    assert!(matches!(
        plan(false, Command::ClaimGenerate).action,
        CliAction::Print(code) if code.len() == 10
    ));
}

#[test]
fn direct_setups_use_the_stored_session() {
    let mut flow = SetupFlow::start(true, Some("box".to_string()), "00ff00ff00".to_string());
    assert!(matches!(flow.first(), SetupNext::RequireSession));
    let step = flow.step(SetupEvent::SessionChecked(Ok(())));
    assert!(matches!(step.next, SetupNext::EnsureWaiting));
    let step = flow.step(SetupEvent::ServiceWaiting(Ok(())));
    assert!(step.show.is_none());
    assert!(matches!(
        step.next,
        SetupNext::Approve { claim_code, name: Some(name) }
            if claim_code == "00ff00ff00" && name == "box"
    ));
    let step = flow.step(SetupEvent::Approved(Ok(())));
    assert!(matches!(
        step.next,
        SetupNext::Exchange { claim_code, agent_type: ClaimAgentType::Assignable, wait_sec: 0 }
            if claim_code == "00ff00ff00"
    ));
    let step = flow.step(SetupEvent::Exchanged(Ok("deadbeef".to_string())));
    assert!(matches!(step.next, SetupNext::Provision { secret } if secret == "deadbeef"));
    let step = flow.step(SetupEvent::Provisioned(Ok(())));
    assert_eq!(
        step.show.as_deref(),
        Some("playit setup is complete. The background service is ready.")
    );
    assert!(matches!(step.next, SetupNext::Done));
}

#[test]
fn browser_setups_show_the_claim_and_a_guest_login() {
    let mut flow = SetupFlow::start(false, None, "00ff00ff00".to_string());
    assert!(matches!(flow.first(), SetupNext::EnsureWaiting));
    let step = flow.step(SetupEvent::ServiceWaiting(Ok(())));
    assert_eq!(
        step.show.as_deref(),
        Some("Open this link to finish setting up playit:\nhttps://playit.gg/claim/00ff00ff00")
    );
    assert!(matches!(
        step.next,
        SetupNext::Exchange { claim_code, agent_type: ClaimAgentType::Assignable, wait_sec: 0 }
            if claim_code == "00ff00ff00"
    ));
    let step = flow.step(SetupEvent::Exchanged(Ok("deadbeef".to_string())));
    assert!(matches!(step.next, SetupNext::Provision { secret } if secret == "deadbeef"));
    let step = flow.step(SetupEvent::Provisioned(Ok(())));
    assert!(step.show.is_none());
    assert!(matches!(step.next, SetupNext::LoginGuest { secret } if secret == "deadbeef"));
    let step = flow.step(SetupEvent::GuestLogin(Some("key".to_string())));
    assert_eq!(
        step.show.as_deref(),
        Some("Guest login:\nhttps://playit.gg/login/guest-account/key")
    );
    assert!(matches!(step.next, SetupNext::Pause { millis: 10_000 }));
    for event in [SetupEvent::Paused, SetupEvent::GuestLogin(None)] {
        let step = flow.step(event);
        assert_eq!(
            step.show.as_deref(),
            Some("playit setup is complete. The background service is ready.")
        );
        assert!(matches!(step.next, SetupNext::Done));
    }
}

#[test]
fn setups_end_at_the_first_failure() {
    let mut flow = SetupFlow::start(false, None, "00ff00ff00".to_string());
    for event in [
        SetupEvent::SessionChecked(Err(CliError::TimedOut)),
        SetupEvent::ServiceWaiting(Err(CliError::TimedOut)),
        SetupEvent::Approved(Err(CliError::TimedOut)),
        SetupEvent::Exchanged(Err(CliError::TimedOut)),
        SetupEvent::Provisioned(Err(CliError::TimedOut)),
    ] {
        let step = flow.step(event);
        assert!(step.show.is_none());
        assert!(matches!(step.next, SetupNext::Fail(CliError::TimedOut)));
    }
    let mut broken = SetupFlow::start(false, None, "no code".to_string());
    let step = broken.step(SetupEvent::ServiceWaiting(Ok(())));
    assert!(matches!(step.next, SetupNext::Fail(CliError::InvalidClaimCode)));
    let flow = run_setup_flow(true, None);
    assert_eq!(flow.claim_code.len(), 10);
    assert_ne!(flow.claim_code, run_setup_flow(true, None).claim_code);
    assert!(flow.direct && flow.name.is_none() && flow.secret.is_empty());
}

#[test]
fn failed_claim_questions_are_told() {
    let fail = || ApiError::Fail(ClaimSetupError::CodeExpired);
    assert_eq!(setup_failure_text(&fail()), "Fail(CodeExpired)");
    assert!(matches!(setup_cli_error(fail()), CliError::ApiFail(json) if json == "\"CodeExpired\""));
    let busy = || ApiError::ClientError(HttpClientError::TooManyRequests);
    assert_eq!(setup_failure_text(&busy()), "ClientError(TooManyRequests)");
    assert!(matches!(
        setup_cli_error(busy()),
        CliError::RequestError(HttpClientError::TooManyRequests)
    ));
    let invalid = || ApiError::ApiError(ApiResponseError::Validation("bad".to_string()));
    let shown = setup_failure_text(&invalid());
    assert!(shown.starts_with("ApiError(") && shown.contains("bad"));
    assert!(matches!(setup_cli_error(invalid()), CliError::ApiError(_)));
}

#[test]
fn claim_codes_are_hex() {
    let code = claim_generate();
    assert_eq!(code.len(), 10);
    assert!(claim_url(&code).is_ok());
    assert!(claim_url("").is_ok());
    assert!(matches!(claim_url("abc"), Err(CliError::InvalidClaimCode)));
    assert!(matches!(claim_url("zz"), Err(CliError::InvalidClaimCode)));
    assert_eq!(
        claim_inspect("beef", ClaimSetupResponse::WaitingForUser),
        "claim beef: WaitingForUser"
    );
}

#[test]
fn agent_types_are_read() {
    let read = |value: Option<&str>| parse_claim_agent_type(value.map(|v| v.to_string()));
    assert_eq!(read(None).ok(), Some(ClaimAgentType::SelfManaged));
    assert_eq!(read(Some("  ")).ok(), Some(ClaimAgentType::SelfManaged));
    assert_eq!(read(Some("self-managed")).ok(), Some(ClaimAgentType::SelfManaged));
    assert_eq!(read(Some(" assignable ")).ok(), Some(ClaimAgentType::Assignable));
    assert_eq!(
        read(Some(" a\"b ")).err().unwrap().to_text(),
        "invalid --agent-type \"a\\\"b\": expected `assignable` or `self-managed`"
    );
    assert_eq!(
        claim_agent_type("x", "SHOWN").err().unwrap().to_text(),
        "invalid --agent-type SHOWN: expected `assignable` or `self-managed`"
    );
}

fn details() -> ClaimDetails {
    ClaimDetails {
        agent_type: ClaimAgentType::SelfManaged,
        name: "fixture-agent".to_string(),
        remote_ip: "::1".to_string(),
        version: "fixture".to_string(),
    }
}

#[test]
fn claim_details_success() {
    let post = claim_details("fixture-code");
    assert_eq!((post.path, post.body.code.as_str()), ("/claim/details", "fixture-code"));
    let mut wait = ClaimWait::new("fixture-code".to_string());
    match wait.looked(Ok(ApiResult::Success(details()))) {
        WaitStep::Found(details) => {
            assert_eq!(details.name, "fixture-agent");
            assert!(matches!(details.agent_type, ClaimAgentType::SelfManaged));
        }
        _ => panic!("expected details"),
    }
}

#[test]
fn claim_details_waiting_for_agent() {
    let mut wait = ClaimWait::new("fixture-code".to_string());
    for _ in 0..39 {
        assert!(matches!(
            wait.looked(Ok(ApiResult::Fail(ClaimDetailsFail::WaitingForAgent))),
            WaitStep::Pause
        ));
    }
    match wait.looked(Ok(ApiResult::Fail(ClaimDetailsFail::WaitingForAgent))) {
        WaitStep::PauseThenFail(error) => assert_eq!(
            error.to_text(),
            "timed out waiting for claim fixture-code to become visible; \
             is the machine polling this code?"
        ),
        _ => panic!("expected the last round"),
    }
}

#[test]
fn other_answers_end_the_wait() {
    let fail = |outcome| {
        let mut wait = ClaimWait::new("beef".to_string());
        match wait.looked(outcome) {
            WaitStep::Fail(error) => error.to_text(),
            _ => panic!("expected an error"),
        }
    };
    assert_eq!(
        fail(Ok(ApiResult::Fail(ClaimDetailsFail::ClaimExpired))),
        "cannot use claim beef: ClaimExpired"
    );
    assert_eq!(fail(Err(WebApiError::Api("no".to_string()))), {
        WebApiError::Api("no".to_string()).to_text()
    });
    assert_eq!(
        fail(Ok(ApiResult::Error(ApiResponseError::Auth(AuthError::AuthRequired)))),
        "ApiError(Auth(AuthRequired))"
    );
}

#[test]
fn claim_accept_success_returns_agent_id() {
    let post = accept_claim("fixture-code", "fixture-agent", ClaimAgentType::SelfManaged);
    assert_eq!(post.path, "/claim/accept");
    assert_eq!(post.body.name, "fixture-agent");
    let agent_id =
        uuid::Uuid::parse_str("00000000-0000-0000-0000-000000000001").unwrap().as_u128();
    let accepted = claim_approve(
        "fixture-code",
        "fixture-agent",
        Ok(ApiResult::Success(ClaimAccepted { agent_id })),
    );
    assert_eq!(
        accepted.ok().unwrap(),
        vec![
            "claim approved, agent 00000000-0000-0000-0000-000000000001 (fixture-agent)"
                .to_string(),
            "run `claim exchange fixture-code` to fetch the agent secret".to_string(),
        ]
    );
    let refused =
        claim_approve("beef", "box", Ok(ApiResult::Fail(ClaimAcceptFail::ClaimAlreadyAccepted)));
    assert_eq!(
        refused.err().unwrap().to_text(),
        "claim beef was not approved: ClaimAlreadyAccepted"
    );
    assert!(matches!(
        claim_approve("beef", "box", Err(WebApiError::SessionExpired)),
        Err(CliError::SessionError(_))
    ));
}

#[test]
fn claim_reject_success() {
    assert_eq!(reject_claim("fixture-code").path, "/claim/reject");
    let rejected = claim_reject("fixture-code", Ok(ApiResult::Success(())));
    assert_eq!(rejected.ok().unwrap(), "claim fixture-code rejected");
}

#[test]
fn claim_reject_already_rejected() {
    let rejected =
        claim_reject("fixture-code", Ok(ApiResult::Fail(ClaimRejectFail::ClaimAlreadyRejected)));
    assert_eq!(
        rejected.err().unwrap().to_text(),
        "claim fixture-code was not rejected: ClaimAlreadyRejected"
    );
}

#[test]
fn agents_need_a_name() {
    assert!(usable_name(&Some(" x ".to_string())));
    assert!(!usable_name(&Some("  ".to_string())));
    assert!(!usable_name(&None));
    assert_eq!(checked_agent_name(" x ").ok().unwrap(), "x");
    assert_eq!(
        checked_agent_name(" ").err().unwrap().to_text(),
        "agent name must not be empty"
    );
}

#[test]
fn agents_are_listed_line_by_line() {
    let list = AgentsList {
        agents: vec![AgentListEntry { id: 255, name: "one".to_string() }],
    };
    assert_eq!(
        agents_list(Ok(ApiResult::Success(list))).ok().unwrap(),
        vec!["00000000-0000-0000-0000-0000000000ff one".to_string()]
    );
    assert_eq!(
        agents_list(Ok(ApiResult::Success(AgentsList { agents: vec![] }))).ok().unwrap(),
        vec!["no agents".to_string()]
    );
    assert_eq!(
        agents_list(Ok(ApiResult::Fail("{}".to_string()))).err().unwrap().to_text(),
        "agents list failed: {}"
    );
}

#[test]
fn agents_are_deleted_by_id() {
    let id = "00000000-0000-0000-0000-000000000007";
    let request = agents_delete(id, &None, true).ok().unwrap();
    assert_eq!(request.agent_id, 7);
    let TunnelsStrategy::MoveToAgent(details) = request.tunnels_strategy;
    assert_eq!(details.agent_id, None);
    assert!(details.disable_tunnels);
    let moved = agents_delete(&format!(" {id} "), &Some(id.to_string()), false).ok().unwrap();
    let TunnelsStrategy::MoveToAgent(details) = moved.tunnels_strategy;
    assert_eq!(details.agent_id, Some(7));
    assert_eq!(
        agents_delete("no", &None, false).err().unwrap().to_text(),
        "invalid agent id: no"
    );
    assert_eq!(
        agents_delete(id, &Some("no".to_string()), false).err().unwrap().to_text(),
        "invalid --move-tunnels-to agent id: no"
    );
    assert_eq!(agents_delete_with("a", &None, false, Ok(3), None).ok().unwrap().agent_id, 3);
    assert_eq!(
        agent_deleted(7, Ok(ApiResult::Success(()))).ok().unwrap(),
        format!("agent {id} deleted")
    );
    assert_eq!(
        agent_deleted(7, Ok(ApiResult::Fail("\"X\"".to_string()))).err().unwrap().to_text(),
        format!("agent {id} was not deleted: \"X\"")
    );
}

#[test]
fn claims_are_exchanged_for_a_secret() {
    let mut exchange = ClaimExchange::start("beef".to_string(), 1, 10_000);
    let step = exchange.setup_done(Err("down".to_string()), 10_500);
    assert_eq!(step.show, vec!["Preparing setup...\n\nError: down".to_string()]);
    assert_eq!(step.pause_millis, 2000);
    let step = exchange.setup_done(Ok(ClaimSetupResponse::WaitingForUserVisit), 10_500);
    let shown = "Open this link to finish setting up playit:\nhttps://playit.gg/claim/beef";
    assert_eq!(step.show, vec![shown.to_string()]);
    assert_eq!(step.pause_millis, 200);
    assert!(matches!(step.next, ExchangeNext::Setup));
    let step = exchange.setup_done(Err("down".to_string()), 10_500);
    assert_eq!(step.show, vec![format!("{shown}\n\nError: down")]);
    let step = exchange.setup_done(Ok(ClaimSetupResponse::WaitingForUser), 10_500);
    assert!(step.show[0].starts_with("Approve this program in your browser:\n"));
    let step = exchange.setup_done(Ok(ClaimSetupResponse::UserAccepted), 10_500);
    assert!(matches!(step.next, ExchangeNext::Exchange));
    let refused = || ExchangeAnswer::Refused("NotAccepted".to_string());
    let step = exchange.exchange_done(refused(), 11_000);
    assert!(matches!(step.next, ExchangeNext::Exchange));
    assert_eq!(
        step.show,
        vec!["Waiting for claim code \"beef\" to be approved: NotAccepted".to_string()]
    );
    let step = exchange.exchange_done(refused(), 11_001);
    assert!(matches!(step.next, ExchangeNext::Fail(CliError::TimedOut)));
    assert_eq!(step.show.len(), 2);
    let step = exchange.exchange_done(ExchangeAnswer::Secret("s".to_string()), 0);
    assert!(matches!(step.next, ExchangeNext::Done(secret) if secret == "s"));
    let step =
        exchange.exchange_done(ExchangeAnswer::ClientError(HttpClientError::TooManyRequests), 0);
    assert!(matches!(step.next, ExchangeNext::Fail(CliError::RequestError(_))));
    let step = exchange.setup_done(Ok(ClaimSetupResponse::UserRejected), 10_500);
    assert!(matches!(step.next, ExchangeNext::Fail(CliError::AgentClaimRejected)));
    assert_eq!(step.pause_millis, 3000);
    let endless = ClaimExchange::start("beef".to_string(), 0, 10_000);
    let step = endless.exchange_done(refused(), u64::MAX);
    assert!(matches!(step.next, ExchangeNext::Exchange));
    let mut broken = ClaimExchange::start("zz".to_string(), 0, 0);
    let step = broken.setup_done(Ok(ClaimSetupResponse::WaitingForUser), 10_500);
    assert!(matches!(step.next, ExchangeNext::Fail(CliError::InvalidClaimCode)));
}

#[test]
fn timed_exchanges_end_while_the_owner_waits() {
    let limited = || ClaimExchange::start("beef".to_string(), 5, 10_000);
    let late = "Setup timed out before the program was approved.".to_string();
    let page = "https://playit.gg/claim/beef";
    for (response, prompt) in [
        (ClaimSetupResponse::WaitingForUserVisit, "Open this link to finish setting up playit:"),
        (ClaimSetupResponse::WaitingForUser, "Approve this program in your browser:"),
    ] {
        let step = limited().setup_done(Ok(response), 15_000);
        assert!(matches!(step.next, ExchangeNext::Setup));
        let step = limited().setup_done(Ok(response), 15_001);
        assert!(matches!(step.next, ExchangeNext::Fail(CliError::TimedOut)));
        assert_eq!(step.pause_millis, 2000);
        assert_eq!(step.show, vec![format!("{prompt}\n{page}"), late.clone()]);
        let mut endless = ClaimExchange::start("beef".to_string(), 0, 10_000);
        assert!(matches!(endless.setup_done(Ok(response), u64::MAX).next, ExchangeNext::Setup));
    }
    let step = limited().setup_done(Err("down".to_string()), 15_001);
    assert!(matches!(step.next, ExchangeNext::Fail(CliError::TimedOut)));
    assert_eq!(step.show, vec!["Preparing setup...\n\nError: down".to_string(), late]);
    let step = limited().setup_done(Ok(ClaimSetupResponse::UserAccepted), 15_001);
    assert!(matches!(step.next, ExchangeNext::Exchange));
    let step = limited().setup_done(Ok(ClaimSetupResponse::UserRejected), 15_001);
    assert!(matches!(step.next, ExchangeNext::Fail(CliError::AgentClaimRejected)));
    let mut broken = ClaimExchange::start("zz".to_string(), 5, 10_000);
    let step = broken.setup_done(Ok(ClaimSetupResponse::WaitingForUser), 15_001);
    assert!(matches!(step.next, ExchangeNext::Fail(CliError::InvalidClaimCode)));
}

fn approval(name: Option<&str>, agent_type: Option<&str>) -> ClaimApproval {
    ClaimApproval::start(
        "beef".to_string(),
        name.map(|name| name.to_string()),
        agent_type.map(|kind| kind.to_string()),
    )
    .ok()
    .unwrap()
}

#[test]
fn claims_are_approved_step_by_step() {
    let mut approval = approval(Some("  "), Some("assignable"));
    let step = approval.step(ApprovalEvent::SessionLoaded(Ok(())));
    assert!(matches!(step.next, ApprovalNext::AwaitDetails));
    let step = approval.step(ApprovalEvent::DetailsFound(Ok(details())));
    assert_eq!(step.show, vec!["claim beef: SelfManaged named \"fixture-agent\"".to_string()]);
    assert!(matches!(step.next, ApprovalNext::AskName));
    let step = approval.step(ApprovalEvent::NameGiven(Ok(" box ".to_string())));
    assert!(matches!(
        &step.next,
        ApprovalNext::Accept { name, agent_type: ClaimAgentType::Assignable } if name == "box"
    ));
    let accepted = Ok(ApiResult::Success(ClaimAccepted { agent_id: 1 }));
    let step = approval.step(ApprovalEvent::Answered(accepted));
    assert!(matches!(step.next, ApprovalNext::Done));
    assert_eq!(
        step.show[0],
        "claim approved, agent 00000000-0000-0000-0000-000000000001 (box)"
    );
    assert_eq!(approval.stage, ApprovalStage::Over);
}

#[test]
fn approvals_end_at_the_first_error() {
    let error = ClaimApproval::start("zz".to_string(), None, None).err().unwrap();
    assert!(matches!(error, CliError::InvalidClaimCode));
    let mut lost = approval(None, None);
    let step = lost.step(ApprovalEvent::SessionLoaded(Err(CliError::AnswerNotProvided)));
    assert!(matches!(step.next, ApprovalNext::Fail(CliError::AnswerNotProvided)));
    let found = |approval: &mut ClaimApproval| {
        let _ = approval.step(ApprovalEvent::SessionLoaded(Ok(())));
        approval.step(ApprovalEvent::DetailsFound(Ok(details())))
    };
    let mut typed = approval(Some("box"), Some("a\"b"));
    match found(&mut typed).next {
        ApprovalNext::Fail(error) => assert_eq!(
            error.to_text(),
            "invalid --agent-type \"a\\\"b\": expected `assignable` or `self-managed`"
        ),
        other => panic!("expected an error, got {other:?}"),
    }
    let mut nameless = approval(None, None);
    assert!(matches!(found(&mut nameless).next, ApprovalNext::AskName));
    match nameless.step(ApprovalEvent::NameGiven(Ok(" ".to_string()))).next {
        ApprovalNext::Fail(error) => assert_eq!(error.to_text(), "agent name must not be empty"),
        other => panic!("expected an error, got {other:?}"),
    }
    let mut shown = approval(None, None);
    let _ = shown.step(ApprovalEvent::SessionLoaded(Ok(())));
    let step = shown.step_with(ApprovalEvent::DetailsFound(Ok(details())), "NAME", "TYPE");
    assert_eq!(step.show, vec!["claim beef: SelfManaged named NAME".to_string()]);
}

#[test]
fn command_errors_in_words() {
    assert_eq!(CliError::TimedOut.to_text(), "TimedOut");
    assert_eq!(CliError::AgentClaimRejected.to_text(), "AgentClaimRejected");
    assert_eq!(CliError::MissingSecret.to_text(), "MissingSecret");
    assert_eq!(CliError::RenderError("Os".to_string()).to_text(), "RenderError(Os)");
    assert_eq!(
        CliError::TunnelNotFound(255).to_text(),
        "TunnelNotFound(00000000-0000-0000-0000-0000000000ff)"
    );
    assert_eq!(cli_error(ApiError::Fail("\"X\"".to_string())).to_text(), "\"X\"");
    assert_eq!(
        cli_error(ApiError::ClientError(HttpClientError::TooManyRequests)).to_text(),
        "RequestError(TooManyRequests)"
    );
    assert_eq!(
        cli_error_no_fail(ApiErrorNoFail::UnexpectedFail).to_text(),
        "unexpected API fail response"
    );
    assert_eq!(
        session_error(WebApiError::Transport("down".to_string())).to_text(),
        WebApiError::Transport("down".to_string()).to_text()
    );
    assert_eq!(
        cli_error_no_fail(ApiErrorNoFail::ClientError(HttpClientError::TooManyRequests)).to_text(),
        "RequestError(TooManyRequests)"
    );
}

fn stored() -> PersistedSession {
    PersistedSession {
        version: 1,
        api_base: "https://api".to_string(),
        session_key: "top-secret".to_string(),
        account_id: 12,
        saved_at_unix: 99,
    }
}

#[test]
fn stored_sessions_are_told_without_their_key() {
    assert_eq!(run_account_status(&stored()), "account 12 (https://api), saved at unix 99");
    assert_eq!(
        run_account_validate(&stored(), Ok(())).ok().unwrap(),
        "account 12 session is valid (https://api)"
    );
    assert_eq!(
        require_valid_stored_session(&stored(), Ok(())).ok().unwrap(),
        "using stored account 12 (https://api)"
    );
    assert!(run_account_validate(&stored(), Err(WebApiError::SessionExpired)).is_err());
    assert_eq!(
        stored_account_client(&stored()).client.auth_header.as_deref(),
        Some("Bearer top-secret")
    );
    assert!(load_stored_session(Ok(Some(stored()))).is_ok());
    assert_eq!(
        load_stored_session(Ok(None)).err().unwrap().to_text(),
        "not logged in; run `playit account login` first"
    );
    let broken = || io_unavailable(IoFailure::new(IoErrorKind::Other, "disk"));
    assert_eq!(
        load_stored_session(Err(broken())).err().unwrap().to_text(),
        "session store unavailable: disk"
    );
    assert_eq!(run_account_logout(Ok(())).ok().unwrap(), "account session cleared");
    assert!(run_account_logout(Err(broken())).is_err());
    assert_eq!(
        session_file(Some("/c".to_string())).ok().unwrap(),
        ("/c".to_string(), "playit-cli", "account-session.json")
    );
    assert!(session_file(None).is_err());
}

#[test]
fn sign_ins_are_reported() {
    let token = |totp_status| WebAuthToken {
        update_version: 1,
        account_id: 5,
        timestamp: 0,
        account_status: AccountStatus::EmailNotVerified,
        totp_status,
        admin_id: None,
        admin_review_id: None,
        read_only: false,
        show_admin: false,
    };
    let session = |totp_status| {
        AccountSession::new(
            "https://api".to_string(),
            WebSession { session_key: "k".to_string(), auth: token(totp_status) },
        )
    };
    assert_eq!(
        report_session(&session(TotpStatus::NotSetup)),
        vec!["signed in as account 5 (EmailNotVerified)".to_string()]
    );
    assert_eq!(report_session(&session(TotpStatus::Required)).len(), 2);
}

fn answered(totp_status: TotpStatus) -> WebSession {
    WebSession {
        session_key: "k".to_string(),
        auth: WebAuthToken {
            update_version: 1,
            account_id: 5,
            timestamp: 0,
            account_status: AccountStatus::Verified,
            totp_status,
            admin_id: None,
            admin_review_id: None,
            read_only: false,
            show_admin: false,
        },
    }
}

#[test]
fn logins_complete_a_session_before_they_store_it() {
    let signed_in = |totp_status| {
        run_account_login(LoginEvent::SignedIn {
            api_base: "https://api".to_string(),
            answer: Ok(answered(totp_status)),
        })
    };
    let step = signed_in(TotpStatus::NotSetup);
    assert_eq!(step.show, vec!["signed in as account 5 (Verified)".to_string()]);
    assert!(matches!(step.next, LoginNext::Store(session) if session.account_id() == 5));
    let step = signed_in(TotpStatus::Required);
    assert_eq!(step.show, vec!["this account requires a TOTP code".to_string()]);
    let pending = match step.next {
        LoginNext::AskTotp(pending) => pending,
        _ => panic!("expected the code to be asked for"),
    };
    let outcome = Ok(ApiResult::Success(answered(TotpStatus::NotSetup)));
    let step = run_account_login(LoginEvent::TotpAnswered { pending, outcome });
    assert!(matches!(step.next, LoginNext::Store(session) if session.api_base() == "https://api"));
    let step = run_account_login(LoginEvent::Stored(Ok(())));
    assert_eq!(step.show, vec!["account session stored".to_string()]);
    assert!(matches!(step.next, LoginNext::Done));
}

#[test]
fn failed_logins_store_nothing() {
    let failure = |event| match run_account_login(event).next {
        LoginNext::Fail(error) => error.to_text(),
        _ => panic!("expected an error"),
    };
    assert_eq!(
        failure(LoginEvent::SignedIn {
            api_base: "b".to_string(),
            answer: Err(ApiError::Fail(SigninFail::IncorrectCredentials)),
        }),
        "incorrect email or password"
    );
    let pending =
        AccountSession::new("https://api".to_string(), answered(TotpStatus::Required));
    assert_eq!(
        failure(LoginEvent::TotpAnswered {
            pending,
            outcome: Ok(ApiResult::Fail(TotpSubmitFail::InvalidCode)),
        }),
        "the TOTP code was rejected"
    );
    let full = io_unavailable(IoFailure::new(IoErrorKind::Other, "full"));
    assert_eq!(failure(LoginEvent::Stored(Err(full))), "session store unavailable: full");
}

#[test]
fn passwords_keep_their_spaces() {
    assert_eq!(read_stdin_line(" pass word \r\n"), " pass word ");
    assert_eq!(read_stdin_line("\n"), "");
    assert_eq!(prompt_line("TOTP code"), "TOTP code: ");
    assert_eq!(prompted_line(" 123 456 \r\n"), "123 456");
    assert!(matches!(read_password(true, None), Ok(PasswordSource::Stdin)));
    assert!(matches!(read_password(false, None), Ok(PasswordSource::EchoedStdin)));
    assert!(matches!(
        read_password(false, Some("p".to_string())),
        Ok(PasswordSource::Given(password)) if password == "p"
    ));
    assert_eq!(
        read_password(false, Some(String::new())).err().unwrap().to_text(),
        "PLAYIT_PASSWORD is set but empty"
    );
}

#[test]
fn daemons_end_with_their_parts() {
    assert!(matches!(daemon_ends(DaemonEvent::Interrupted), DaemonStep::ShutDown(Ok(()))));
    assert!(matches!(daemon_ends(DaemonEvent::StopRequested), DaemonStep::ShutDown(Ok(()))));
    let stopped = DaemonError::Runtime(RuntimeError::stopped());
    assert_eq!(stopped.to_text(), "Runtime error: the Playit runtime has stopped");
    assert_eq!(
        DaemonError::Ipc(IpcError::AlreadyRunning).to_text(),
        "IPC error: Another instance is already running"
    );
    assert!(run_daemon_result(Ok(()), Ok(())).is_ok());
    assert!(run_daemon_result(Err(stopped), Ok(())).is_err());
    assert!(run_daemon_result(Ok(()), Err(RuntimeError::stopped())).is_err());
}

#[test]
fn missing_file_secret_reports_waiting_for_secret() {
    let options = DaemonOptions {
        secret: None,
        secret_path: Some("missing-secret.toml".to_string()),
        socket_path: Some("missing-secret.sock".to_string()),
        log_path: None,
        platform_docker: false,
        ..DaemonOptions::with_secret_path("unused.toml".to_string())
    };
    let runtime_options = options.runtime_options("fallback.toml", api_base(None));
    assert_eq!(runtime_options.api_base, "https://api.playit.gg");
    let started = PlayitRuntime::start(&runtime_options, Platform::Linux, 7, 1_000).ok().unwrap();
    let (mut runtime, mut handle, mut supervisor) =
        (started.runtime, started.handle, started.supervisor);
    let missing = IoFailure::new(IoErrorKind::NotFound, "missing");
    let loaded = handle.inner.secret_source.load(Err(missing));
    let step = supervisor.step(SupervisorEvent::Loaded(loaded), false);
    for effect in step.effects {
        let _ = handle.perform(effect, 7, 2_000);
    }
    assert!(matches!(step.next, Next::AwaitSecret));

    let server = IpcServer::new(options.socket_path.clone().unwrap());
    let mut conversation = ClientConversation::new();
    let mut client = IpcClient::connected(conversation.hello()).ok().unwrap();
    let mut stopped = false;
    let mut ask = |envelope: RequestEnvelope| {
        let request_id = envelope.request_id;
        let incoming = IncomingRequestEnvelope {
            ipc_version: envelope.ipc_version,
            request_id,
            request: ServiceRequestOrUnknown::Known(envelope.request),
        };
        let outcome = match server.handle_request_envelope(&mut handle, incoming, None, 3_000) {
            ServerStep::Respond(outcome) => outcome,
            ServerStep::StopHost(outcome) => {
                stopped = true;
                outcome
            }
            _ => panic!("expected an answer"),
        };
        IpcClient::request(request_id, conversation.respond(request_id, outcome)).ok().unwrap()
    };
    assert!(matches!(
        IpcClient::lifecycle_answer(ask(client.lifecycle())),
        Ok(AgentLifecycle::WaitingForSecret)
    ));
    let status = IpcClient::status_answer(ask(client.status())).ok().unwrap();
    assert!(matches!(status.phase, ServicePhase::WaitingForSecret));
    assert!(!status.has_secret);
    assert_eq!(status.secret_path.as_deref(), Some("missing-secret.toml"));

    let stop_response = IpcClient::stop_answer(ask(client.stop())).ok().unwrap();
    assert!(stop_response.accepted);
    assert!(stopped);

    let result = match daemon_ends(DaemonEvent::StopRequested) {
        DaemonStep::ShutDown(result) => result,
        DaemonStep::End(_) => panic!("expected a shutdown"),
    };
    handle.request_shutdown();
    let step = supervisor.step(SupervisorEvent::Provisioned(Ok(None)), true);
    let ended = match step.next {
        Next::Finish(ended) => ended,
        other => panic!("expected the end, got {other:?}"),
    };
    let daemon_result = run_daemon_result(result, runtime.wait(Ok(ended)));
    assert!(daemon_result.is_ok());
}

#[test]
fn daemon_options_fill_in_defaults() {
    let mut options = DaemonOptions::with_secret_path("a".to_string());
    options.secret_path = None;
    assert_eq!(
        options.runtime_options("fallback.toml", api_base(Some("b".to_string()))).secret_path,
        "fallback.toml"
    );
    assert!(options.use_ansi(Platform::Linux));
    assert!(!options.use_ansi(Platform::Windows));
    options.platform_docker = true;
    assert!(options.use_ansi(Platform::Windows));
}

#[test]
fn override_files_are_known_by_their_extension() {
    let load = |extension| load_overrides_by_extension("f", extension, Ok("{}".to_string()));
    assert!(matches!(load(Some("JSON")), Ok((_, OverrideFormat::Json))));
    assert!(matches!(load(Some("yml")), Ok((_, OverrideFormat::Yaml))));
    assert!(matches!(load(Some("Yaml")), Ok((_, OverrideFormat::Yaml))));
    let message = "Unsupported version override file format for f. Use .json, .yaml, or .yml";
    assert_eq!(load(Some("toml")).err().unwrap(), message);
    assert_eq!(load(None).err().unwrap(), message);
    assert_eq!(
        load_overrides_by_extension("f", Some("json"), Err("gone".to_string())).err().unwrap(),
        "Failed to read version override file f: gone"
    );
    let load = |path| load_version_overrides(path, Ok("{}".to_string()));
    assert!(matches!(load("/etc/version.JSON"), Ok((_, OverrideFormat::Json))));
    assert!(matches!(load("a.b/version.yml"), Ok((_, OverrideFormat::Yaml))));
    assert!(matches!(load("./version.json"), Ok((_, OverrideFormat::Json))));
    assert!(matches!(load("../etc//version.yaml"), Ok((_, OverrideFormat::Yaml))));
    assert!(matches!(load("C:\\playit\\version.json"), Ok((_, OverrideFormat::Json))));
    assert!(load("a.json/version").is_err());
    assert!(load("a.json/..").is_err());
    assert!(load("/etc/.json").is_err());
    assert!(load("version.json.").is_err());
    assert_eq!(
        parsed_version_overrides("f", OverrideFormat::Yaml, Err("bad".to_string())).err().unwrap(),
        "Invalid YAML in f: bad"
    );
    let parsed =
        parsed_version_overrides("f", OverrideFormat::Json, Ok(VersionOverrideFile::default()));
    assert!(parsed.is_ok());
}

#[test]
fn logs_go_to_a_file_in_a_directory() {
    let denied = || Err("denied".to_string());
    assert_eq!(log_directory("/v/l.log"), "/v");
    assert_eq!(log_directory("/l.log"), "/");
    assert_eq!(log_directory("l.log"), "");
    assert_eq!(log_directory(""), ".");
    assert_eq!(log_directory("/"), ".");
    assert_eq!(log_directory("./logs/l.log"), "./logs");
    assert_eq!(log_directory("./l.log"), ".");
    assert_eq!(log_directory("../l.log"), "..");
    assert_eq!(log_directory("logs/l.log/"), "logs");
    assert_eq!(log_file_name("./logs/l.log", "./logs", Ok(())).ok().unwrap(), "l.log");
    assert_eq!(log_file_name("logs//l.log/", "logs", Ok(())).ok().unwrap(), "l.log");
    assert_eq!(log_file_name("logs/..", "logs", Ok(())).err().unwrap(), "Invalid --log-path logs/..");
    assert_eq!(log_file_name("/v/l.log", "/v", Ok(())).ok().unwrap(), "l.log");
    assert_eq!(log_file_name("/", ".", Ok(())).err().unwrap(), "Invalid --log-path /");
    assert_eq!(
        log_file_name("/", ".", denied()).err().unwrap(),
        "Failed to create log directory .: denied"
    );
    let named = log_file_target("l", "d", Ok(()), Some("l".to_string()));
    assert_eq!(named.ok().unwrap(), "l");
    assert!(log_file_target("l", "d", denied(), Some("l".to_string())).is_err());
    assert!(log_directory_created("/v", Ok(())).is_ok());
    assert_eq!(
        log_directory_created("/v", Err("denied".to_string())).err().unwrap(),
        "Failed to create log directory /v: denied"
    );
}

#[test]
fn emails_and_codes_are_sent_without_outer_whitespace() {
    let credentials = login_credentials(" me@example.com\n", " pass word ").ok().unwrap();
    assert_eq!(credentials.email, "me@example.com");
    assert_eq!(credentials.password, " pass word ");
    for (email, password) in [(" \t", "secret"), ("me@example.com", "")] {
        match login_credentials(email, password) {
            Err(CliError::SessionError(message)) => {
                assert_eq!(message, "email and password must not be empty");
            }
            _ => panic!("expected a session error"),
        }
    }
    assert_eq!(login_code(" 123456\r\n").code, "123456");
}
