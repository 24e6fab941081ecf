use playit::api::{
    AccountStatus, ApiErrorNoFail, ApiResponseError, AuthError, ClaimAgentType, RetryPolicy,
    TotpStatus, WebAuthToken, WebSession,
};
use playit::auth::AccountSession;
use playit::error::{IoErrorKind, IoFailure};
use playit::http_client::{AuthPolicy, HttpClientError};
use playit::session::{
    io_unavailable, session_file_content, session_file_parsed, session_file_removed,
    FileSessionStore, MemorySessionStore, PersistedSession, SaveProgress, SaveStep, SessionStore,
    SessionStoreError, SESSION_FILE_MODE, SESSION_FORMAT_VERSION,
};
use playit::web_api::{
    accept_claim, account_read, claim_details, create_tunnel, delete_agent, delete_tunnel,
    list_agents, list_domains, list_tunnels, map_no_fail, reject_claim, session_checked, transport_error,
    AgentDeleteMoveDetails, ReqAgentsDelete, ReqTunnelsList, TunnelsStrategy, WebApiError,
};

fn persisted() -> PersistedSession {
    PersistedSession::from_account_session(&AccountSession::new(
        "https://api.playit.gg".to_string(),
        WebSession {
            session_key: "super-secret-session-key".to_string(),
            auth: WebAuthToken {
                update_version: 1,
                account_id: 42,
                timestamp: 1,
                account_status: AccountStatus::Verified,
                totp_status: TotpStatus::NotSetup,
                admin_id: None,
                admin_review_id: None,
                read_only: false,
                show_admin: false,
            },
        },
    ))
}

#[test]
fn memory_store_roundtrips_and_clears() {
    let mut store = MemorySessionStore::new();
    assert!(store.load().unwrap().is_none());

    store.save(persisted()).unwrap();
    let loaded = store.load().unwrap().expect("session saved");
    assert_eq!(loaded.session_key, "super-secret-session-key");
    assert_eq!(loaded.account_id, 42);
    assert_eq!(loaded.version, SESSION_FORMAT_VERSION);

    let mut second = persisted();
    second.account_id = 7;
    store.save(second).unwrap();
    assert_eq!(store.load().unwrap().unwrap().account_id, 7);

    store.clear().unwrap();
    assert!(store.load().unwrap().is_none());
    assert!(MemorySessionStore::default().load().unwrap().is_none());
}

#[test]
fn persisted_debug_never_exposes_the_session_key() {
    let rendered = persisted().debug_text();
    assert!(
        !rendered.contains("super-secret-session-key"),
        "Debug must not leak the session key: {rendered}"
    );
    assert!(rendered.contains("42"));
}

#[test]
fn snapshots_hold_what_the_session_says() {
    let mut session = persisted();
    assert!(session.saved_at_unix > 1_600_000_000);
    session.saved_at_unix = 5;
    assert_eq!(session.api_base, "https://api.playit.gg");
    assert_eq!(
        session.debug_text(),
        "PersistedSession { version: 1, api_base: \"https://api.playit.gg\", \
         session_key: \"<redacted>\", account_id: 42, saved_at_unix: 5 }"
    );
}

#[test]
fn file_store_rejects_corrupt_content() {
    let store = FileSessionStore::new("session.json".to_string());
    assert!(store.load(Ok(b"{not json".to_vec()), read).is_err());
}

#[test]
fn missing_and_blank_files_hold_no_session() {
    let missing = IoFailure::new(IoErrorKind::NotFound, "no such file");
    assert!(session_file_content(Err(missing)).unwrap().is_none());
    assert!(session_file_content(Ok(Vec::new())).unwrap().is_none());
    assert!(session_file_content(Ok(b" \t\r\n\x0c".to_vec())).unwrap().is_none());
    assert_eq!(session_file_content(Ok(b" {}".to_vec())).unwrap(), Some(b" {}".to_vec()));
    let denied = IoFailure::new(IoErrorKind::PermissionDenied, "denied");
    let error = session_file_content(Err(denied)).err().unwrap();
    assert_eq!(error.to_text(), "session store unavailable: denied");
    assert!(session_file_parsed(Ok(persisted())).unwrap().is_some());
}

#[test]
fn file_store_outcomes() {
    assert_eq!(SESSION_FILE_MODE, 0o600);
    let store = FileSessionStore::new("/tmp/session.json".to_string());
    assert_eq!(store.path(), "/tmp/session.json");
    assert!(session_file_removed(Ok(())).is_ok());
    assert!(session_file_removed(Err(IoFailure::new(IoErrorKind::NotFound, "gone"))).is_ok());
    assert!(session_file_removed(Err(IoFailure::new(IoErrorKind::Other, "busy"))).is_err());
    let SessionStoreError::Unavailable(reason) =
        io_unavailable(IoFailure::new(IoErrorKind::Other, "disk"));
    assert_eq!(reason, "disk");
}

#[test]
fn session_expired_maps_to_reauthentication() {
    let error = map_no_fail(ApiErrorNoFail::ApiError(ApiResponseError::Auth(
        AuthError::SessionExpired,
    )));
    assert!(matches!(error, WebApiError::SessionExpired));
    assert_eq!(error.to_text(), "account session expired; run `playit account login` again");
}

#[test]
fn unexpected_fail_maps_to_api_error() {
    let error = map_no_fail(ApiErrorNoFail::UnexpectedFail);
    assert!(matches!(error, WebApiError::Api(_)));
    assert_eq!(error.to_text(), "playit.gg API error: unexpected fail response");
}

#[test]
fn validate_with_key_reports_session_expired() {
    let read: Result<(), ApiErrorNoFail> = Err(ApiErrorNoFail::ApiError(ApiResponseError::Auth(
        AuthError::SessionExpired,
    )));
    assert!(matches!(session_checked(read).unwrap_err(), WebApiError::SessionExpired));
    assert!(session_checked(Ok(5u8)).is_ok());
}

#[test]
fn other_refusals_do_not_expire_the_session() {
    let error = map_no_fail(ApiErrorNoFail::ApiError(ApiResponseError::Auth(
        AuthError::Other("AdminOnly".to_string()),
    )));
    assert_eq!(error.to_text(), "playit.gg API error: Auth(AdminOnly)");
    let error = map_no_fail(ApiErrorNoFail::ApiError(ApiResponseError::Validation(
        "bad \"name\"".to_string(),
    )));
    assert_eq!(error.to_text(), "playit.gg API error: Validation(\"bad \\\"name\\\"\")");
    let error = map_no_fail(ApiErrorNoFail::ClientError(HttpClientError::TooManyRequests));
    assert_eq!(error.to_text(), "playit.gg request failed: TooManyRequests");
    assert_eq!(
        transport_error(HttpClientError::TooManyRequests).to_text(),
        "playit.gg request failed: TooManyRequests"
    );
    let read: Result<u8, WebApiError> = account_read(Ok(3));
    assert_eq!(read.unwrap(), 3);
}

#[test]
fn account_posts_go_to_their_paths_once() {
    let details = claim_details("fixture-code");
    assert_eq!(details.path, "/claim/details");
    assert_eq!(details.body.code, "fixture-code");
    assert_eq!(details.policy, AuthPolicy::Account);
    assert_eq!(details.retry, RetryPolicy::Never);
    let accept = accept_claim("fixture-code", "fixture-agent", ClaimAgentType::SelfManaged);
    assert_eq!(accept.path, "/claim/accept");
    assert_eq!(accept.body.name, "fixture-agent");
    assert_eq!(accept.body.agent_type, ClaimAgentType::SelfManaged);
    assert_eq!(accept.retry, RetryPolicy::Never);
    assert_eq!(reject_claim("c").path, "/claim/reject");
    assert_eq!(list_agents().path, "/agents/list");
    let request = ReqAgentsDelete {
        agent_id: 1,
        tunnels_strategy: TunnelsStrategy::MoveToAgent(AgentDeleteMoveDetails {
            agent_id: None,
            disable_tunnels: true,
        }),
    };
    assert_eq!(delete_agent(request).path, "/agents/delete");
    assert_eq!(delete_agent(request).body, request);
    assert_eq!(delete_tunnel(9).path, "/tunnels/delete");
    assert_eq!(delete_tunnel(9).body.tunnel_id, 9);
    assert_eq!(create_tunnel("body").path, "/tunnels/create");
}

/// A session as a file holds it, read and written field by field.
fn written(session: &PersistedSession) -> Vec<u8> {
    let mut fields = serde_json::Map::new();
    fields.insert("version".to_string(), session.version.into());
    fields.insert("api_base".to_string(), session.api_base.clone().into());
    fields.insert("session_key".to_string(), session.session_key.clone().into());
    fields.insert("account_id".to_string(), session.account_id.into());
    fields.insert("saved_at_unix".to_string(), session.saved_at_unix.into());
    serde_json::to_vec_pretty(&serde_json::Value::Object(fields)).unwrap()
}

fn read(content: Vec<u8>) -> Result<PersistedSession, String> {
    let value: serde_json::Value =
        serde_json::from_slice(&content).map_err(|error| error.to_string())?;
    let text = |key: &str| value[key].as_str().map(str::to_string).ok_or(key.to_string());
    let number = |key: &str| value[key].as_u64().ok_or(key.to_string());
    Ok(PersistedSession {
        version: number("version")? as u32,
        api_base: text("api_base")?,
        session_key: text("session_key")?,
        account_id: number("account_id")?,
        saved_at_unix: number("saved_at_unix")?,
    })
}

#[test]
fn file_store_roundtrips_and_clears() {
    let store = FileSessionStore::new("roundtrip.json".to_string());
    let missing = || IoFailure::new(IoErrorKind::NotFound, "missing");
    assert!(store.load(Err(missing()), read).ok().unwrap().is_none());

    let file = written(&persisted());
    let loaded = store.load(Ok(file), read).ok().unwrap().expect("session saved");
    assert_eq!(loaded.session_key, "super-secret-session-key");
    assert_eq!(loaded.account_id, 42);

    assert!(session_file_removed(Ok(())).is_ok());
    assert!(store.load(Err(missing()), read).ok().unwrap().is_none());
    assert!(session_file_removed(Err(missing())).is_ok());
}

#[test]
fn file_stores_tell_nothing_from_garbage() {
    let store = FileSessionStore::new("s.json".to_string());
    assert!(store.load(Ok(b" \n\t\r".to_vec()), read).ok().unwrap().is_none());
    assert!(store.load(Ok(b"{not json".to_vec()), read).is_err());
    let denied = Err(IoFailure::new(IoErrorKind::PermissionDenied, "denied"));
    assert_eq!(
        store.load(denied, read).err().unwrap().to_text(),
        "session store unavailable: denied"
    );
}

/// Perform every step of a save on a file, or fail at the step with this number.
fn save_to(
    store: &FileSessionStore,
    file: &mut Option<Vec<u8>>,
    session: &PersistedSession,
    failing: Option<usize>,
) -> (Result<(), SessionStoreError>, Vec<String>) {
    let mut progress = store.save(Ok(written(session)));
    let mut steps = Vec::new();
    loop {
        let save = match progress {
            SaveProgress::Perform(save) => save,
            SaveProgress::Done(result) => return (result, steps),
        };
        let result = if failing == Some(steps.len()) {
            Err(IoFailure::new(IoErrorKind::Other, "disk"))
        } else {
            Ok(())
        };
        if result.is_ok() && matches!(save.step, SaveStep::Write) {
            *file = Some(save.content.clone());
        }
        steps.push(format!("{:?}", save.step));
        progress = save.performed(result);
    }
}

#[test]
fn saves_make_the_directory_then_write_then_restrict() {
    let store = FileSessionStore::new("/home/me/session.json".to_string());
    let mut file = None;
    let (result, steps) = save_to(&store, &mut file, &persisted(), None);
    assert!(result.is_ok());
    assert_eq!(steps, ["CreateDirectory(\"/home/me\")", "Write", "Restrict"]);
    let here = FileSessionStore::new("session.json".to_string());
    let (_, steps) = save_to(&here, &mut file, &persisted(), None);
    assert_eq!(steps[0], "CreateDirectory(\"\")");
    let below = FileSessionStore::new("./data/session.json".to_string());
    let (_, steps) = save_to(&below, &mut file, &persisted(), None);
    assert_eq!(steps[0], "CreateDirectory(\"./data\")");
    for step in 0..3 {
        let (result, steps) = save_to(&store, &mut file, &persisted(), Some(step));
        assert_eq!(result.err().unwrap().to_text(), "session store unavailable: disk");
        assert_eq!(steps.len(), step + 1);
    }
    match store.save(Err("no text".to_string())) {
        SaveProgress::Done(Err(error)) => {
            assert_eq!(error.to_text(), "session store unavailable: no text");
        }
        other => panic!("expected a failure, got {other:?}"),
    }
}

#[test]
fn saved_files_are_loaded_again() {
    let store = FileSessionStore::new("/home/me/session.json".to_string());
    let mut file = None;
    let mut session = persisted();
    assert!(save_to(&store, &mut file, &session, None).0.is_ok());
    session.account_id = 43;
    assert!(save_to(&store, &mut file, &session, None).0.is_ok());
    let loaded = store.load(Ok(file.unwrap()), read).ok().unwrap().unwrap();
    assert_eq!(loaded.account_id, 43);
    assert_eq!(loaded.session_key, session.session_key);
    assert_eq!(loaded.api_base, session.api_base);
    assert_eq!(loaded.saved_at_unix, session.saved_at_unix);
    assert_eq!(loaded.version, SESSION_FORMAT_VERSION);
}

#[test]
fn account_lists_are_asked_for_as_reads() {
    let tunnels = list_tunnels();
    assert_eq!(tunnels.path, "/tunnels/list");
    assert_eq!(tunnels.policy, AuthPolicy::Account);
    assert_eq!(tunnels.retry, RetryPolicy::Transient);
    assert_eq!(tunnels.body, ReqTunnelsList { tunnel_id: None, agent_id: None });
    let domains = list_domains();
    assert_eq!(domains.path, "/domains/list");
    assert_eq!(domains.policy, AuthPolicy::Account);
    assert_eq!(domains.retry, RetryPolicy::Transient);
}
