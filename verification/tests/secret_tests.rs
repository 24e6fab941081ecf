use playit::claim::{
    claim_code_of, claim_setup_request, claim_setup_request_for, claim_step, claim_url, finish_claim, generate_claim_code,
    ClaimEnd, ClaimEvent, ClaimStep,
};
use playit::api::{
    ApiError, ApiResponseError, ClaimAgentType, ClaimExchangeError, ClaimSetupError,
    ClaimSetupResponse,
};
use playit::error::{IoErrorKind, IoFailure, RuntimeError};
use playit::http_client::HttpClientError;
use playit::model::ServiceErrorCode;
use playit::options::{VersionDetails, DEFAULT_VARIANT_ID};
use playit::secret::{
    after_provision, directory_secured, load_secret_from_path, parse_secret_entry,
    parse_secret_file, prepare_secret_file, provisioning_closed, reset_secret_file,
    secret_file_for, temporary_file_for, temporary_file_name, temporary_file_name_with, validate_secret, FileSecurity, Inspection,
    LoadedSecret, ParentWalk, SecretSource, SecretWrite, WalkStep, WriteProgress, WriteStep,
};

#[test]
fn claim_urls_are_stable() {
    assert_eq!(claim_url("abc123"), "https://playit.gg/claim/abc123");
}

#[test]
fn validates_hex_secrets_and_rejects_empty_values() {
    assert_eq!(validate_secret("deadbeef").unwrap(), "deadbeef");
    assert!(validate_secret("").is_err());
    assert!(validate_secret("not-hex").is_err());
    assert!(validate_secret("abc").is_err());
    assert_eq!(validate_secret("DeadBEEF").unwrap(), "DeadBEEF");
}

#[test]
fn persists_loads_and_resets_a_dedicated_secret_file() {
    let path = "nested/secret.toml";
    let file = prepare_secret_file(path, Some("toml"), " deadbeef ").unwrap();
    assert_eq!(file.secret, "deadbeef");
    assert_eq!(file.content, "secret_key = \"deadbeef\"\n");
    assert!(matches!(
        load_secret_from_path(path, Ok(file.content)),
        LoadedSecret::Ready(secret) if secret == "deadbeef"
    ));
    let plain = prepare_secret_file("secret", None, "deadbeef").unwrap();
    assert_eq!(plain.content, "deadbeef");
    assert!(matches!(
        load_secret_from_path("secret", Ok(plain.content)),
        LoadedSecret::Ready(secret) if secret == "deadbeef"
    ));

    assert!(reset_secret_file(path, Ok(())).unwrap().contains("Deleted secret file"));
    let missing = || IoFailure::new(IoErrorKind::NotFound, "missing");
    assert_eq!(
        reset_secret_file(path, Err(missing())).unwrap(),
        "Secret file was already absent at nested/secret.toml."
    );
    assert!(matches!(
        SecretSource::File { path: path.to_string() }.load(Err(missing())),
        LoadedSecret::Missing
    ));
    let denied = IoFailure::new(IoErrorKind::PermissionDenied, "denied");
    assert_eq!(
        reset_secret_file(path, Err(denied)).err().unwrap().as_service_error().message,
        "Failed to delete secret file nested/secret.toml: denied"
    );
}

#[test]
fn invalid_stored_secret_is_reported_without_being_accepted() {
    let content = "secret_key = \"not-hex\"\n".to_string();
    assert!(matches!(
        load_secret_from_path("p.toml", Ok(content)),
        LoadedSecret::Invalid(message) if message.contains("Invalid secret file")
    ));
    let denied = IoFailure::new(IoErrorKind::PermissionDenied, "denied");
    assert!(matches!(
        load_secret_from_path("p.toml", Err(denied)),
        LoadedSecret::Invalid(message)
            if message == "Failed to read secret file p.toml: denied"
    ));
}

#[test]
fn invalid_replacement_does_not_change_an_existing_secret() {
    let error = prepare_secret_file("secret.toml", Some("toml"), "not-hex").err().unwrap();
    assert_eq!(error.as_service_error().code, ServiceErrorCode::InvalidSecret);
    assert!(!error.as_service_error().retryable);
}

#[test]
fn secret_files_are_read_in_both_forms() {
    assert_eq!(parse_secret_file(" beef \n").unwrap(), "beef");
    assert_eq!(parse_secret_file("other = 1\nsecret_key = ' beef '\n").unwrap(), "beef");
    assert!(parse_secret_file("secret_key = 5\n").is_err());
    let large = "secret_key = \"deadbeef\"\nother = 18446744073709551615\n";
    assert_eq!(parse_secret_file(large).unwrap(), "deadbeef");
    let huge = format!("secret_key = \"deadbeef\"\nother = 1{}\n", "0".repeat(50));
    assert!(parse_secret_file(&huge).is_err());
    assert!(parse_secret_file("secret_key = \"beef\"\nsecret_key = \"beef\"\n").is_err());
    let nested = "secret_key = \"be\\u0065f\"\n[table]\nkey = [1, 2.5, 1979-05-27]\n";
    assert_eq!(parse_secret_file(nested).unwrap(), "beef");
    assert!(parse_secret_file("[table]\nsecret_key = \"beef\"\n").is_err());
    assert!(parse_secret_file("").is_err());
    assert_eq!(parse_secret_entry("zz", Some("beef".to_string())).unwrap(), "beef");
    assert!(parse_secret_entry("zz", Some("zz".to_string())).is_err());
    assert!(parse_secret_entry("zz", None).is_err());
}

#[test]
fn inline_secrets_cannot_be_replaced() {
    let inline = SecretSource::Inline { secret: " dead ".to_string() };
    assert!(inline.secret_path().is_none());
    assert!(!inline.allows_provisioning());
    assert!(matches!(
        inline.load(Ok(String::new())),
        LoadedSecret::Ready(secret) if secret == "dead"
    ));
    assert_eq!(
        inline.provisioning_error().as_service_error().code,
        ServiceErrorCode::SecretPinned
    );
    assert_eq!(inline.reset_error().as_service_error().code, ServiceErrorCode::SecretPinned);
    let broken = SecretSource::Inline { secret: "x".to_string() };
    assert!(matches!(
        broken.load(Ok(String::new())),
        LoadedSecret::Invalid(message)
            if message.starts_with("Invalid secret passed via inline configuration: ")
    ));
    let file = SecretSource::File { path: "p".to_string() };
    assert_eq!(file.secret_path(), Some("p"));
    assert!(file.allows_provisioning());
    assert_eq!(
        file.provisioning_error().as_service_error().code,
        ServiceErrorCode::ProvisioningUnavailable
    );
    assert_eq!(
        file.reset_error().as_service_error().message,
        "Failed to access secret file p"
    );
}

#[test]
fn provisioning_ends_only_with_a_stored_secret() {
    let stored = after_provision(Ok("beef".to_string()));
    assert!(stored.ack.is_ok());
    assert_eq!(stored.secret.as_deref(), Some("beef"));
    let failed = after_provision(Err(RuntimeError::secret(
        ServiceErrorCode::SecretWriteFailed,
        "disk full".to_string(),
        true,
    )));
    assert_eq!(failed.ack.err().as_deref(), Some("secret error: disk full"));
    assert!(failed.secret.is_none());
    assert_eq!(
        provisioning_closed().as_service_error().message,
        "Secret provisioning channel closed."
    );
}

#[test]
fn missing_directories_are_created_and_secured() {
    let missing = || Inspection::Failed(IoFailure::new(IoErrorKind::NotFound, "missing"));
    let walk = ParentWalk::start(Some("/a/b/c")).unwrap();
    let walk = match walk.inspected(missing(), Some("/a/b".to_string())) {
        WalkStep::Inspect(walk) => walk,
        other => panic!("expected another look, got {other:?}"),
    };
    assert_eq!(walk.current, "/a/b");
    let walk = match walk.inspected(missing(), Some("/a".to_string())) {
        WalkStep::Inspect(walk) => walk,
        other => panic!("expected another look, got {other:?}"),
    };
    let walk = match walk.inspected(Inspection::Directory, Some("/".to_string())) {
        WalkStep::Create(walk) => walk,
        other => panic!("expected the creation, got {other:?}"),
    };
    assert_eq!(walk.parent, "/a/b/c");
    assert_eq!(walk.created(Ok(())).unwrap(), vec!["/a/b/c".to_string(), "/a/b".to_string()]);
    assert!(ParentWalk::start(Some("")).is_none());
    assert!(ParentWalk::start(None).is_none());
    let root = ParentWalk::start(Some("x")).unwrap();
    assert!(matches!(root.inspected(missing(), None), WalkStep::Create(_)));
    let same = ParentWalk::start(Some("x")).unwrap();
    assert!(matches!(same.inspected(missing(), Some("x".to_string())), WalkStep::Create(_)));
}

#[test]
fn directories_that_cannot_be_used_are_errors() {
    let message = |step: WalkStep| match step {
        WalkStep::Fail(error) => error.as_service_error().message,
        other => panic!("expected an error, got {other:?}"),
    };
    let walk = ParentWalk::start(Some("/f")).unwrap();
    assert_eq!(
        message(walk.inspected(Inspection::NotADirectory, None)),
        "Secret path parent /f is not a directory"
    );
    let walk = ParentWalk::start(Some("/f")).unwrap();
    let denied = || IoFailure::new(IoErrorKind::PermissionDenied, "denied");
    assert_eq!(
        message(walk.inspected(Inspection::Failed(denied()), None)),
        "Failed to inspect secret directory /f: denied"
    );
    let walk = ParentWalk::start(Some("/f")).unwrap();
    assert_eq!(
        walk.created(Err(denied())).err().unwrap().as_service_error().message,
        "Failed to create secret directory /f: denied"
    );
    assert!(directory_secured("/f", Ok(())).is_ok());
    assert_eq!(
        directory_secured("/f", Err(denied())).err().unwrap().as_service_error().message,
        "Failed to secure secret directory /f: denied"
    );
}

fn written_steps(security: FileSecurity) -> Vec<WriteStep> {
    let mut steps = Vec::new();
    let mut write = SecretWrite::start(security, "p".to_string(), "t".to_string());
    loop {
        steps.push(write.step);
        match write.performed(Ok(())) {
            WriteProgress::Perform(next) => write = next,
            WriteProgress::Done => return steps,
            WriteProgress::Abort { .. } => panic!("nothing failed"),
        }
    }
}

#[test]
fn secret_files_are_written_beside_and_then_replaced() {
    assert_eq!(
        written_steps(FileSecurity::Unix),
        vec![
            WriteStep::Create,
            WriteStep::Write,
            WriteStep::Sync,
            WriteStep::Replace,
            WriteStep::ProtectFile
        ]
    );
    assert_eq!(
        written_steps(FileSecurity::Windows),
        vec![
            WriteStep::Create,
            WriteStep::ProtectTemporary,
            WriteStep::Write,
            WriteStep::Sync,
            WriteStep::Replace,
            WriteStep::ProtectFile
        ]
    );
}

#[test]
fn failed_writes_name_the_step_and_remove_the_temporary_file() {
    for (step, security, expected) in [
        (WriteStep::Create, FileSecurity::Unix, "Failed to create temporary secret file t: full"),
        (
            WriteStep::ProtectTemporary,
            FileSecurity::Windows,
            "Failed to secure temporary secret file t: full",
        ),
        (WriteStep::Write, FileSecurity::Unix, "Failed to write temporary secret file t: full"),
        (WriteStep::Sync, FileSecurity::Unix, "Failed to sync temporary secret file t: full"),
        (WriteStep::Replace, FileSecurity::Unix, "Failed to replace secret file p with t: full"),
        (
            WriteStep::ProtectFile,
            FileSecurity::Unix,
            "Failed to set secret file permissions on p: full",
        ),
        (WriteStep::ProtectFile, FileSecurity::Windows, "Failed to secure secret file p: full"),
    ] {
        let write = SecretWrite { security, path: "p".to_string(), temporary: "t".to_string(), step };
        match write.performed(Err(IoFailure::new(IoErrorKind::Other, "full"))) {
            WriteProgress::Abort { temporary, error } => {
                assert_eq!(temporary, "t");
                assert_eq!(error.as_service_error().message, expected);
                assert_eq!(error.as_service_error().code, ServiceErrorCode::SecretWriteFailed);
            }
            _ => panic!("expected an abort"),
        }
    }
}

#[test]
fn temporary_files_have_unlikely_names() {
    assert_eq!(
        temporary_file_name_with(Some("s.toml"), 42, &[0x00, 0xff, 0x1a]),
        ".s.toml.tmp-42-308943e8-faef-4835-a2ba-270351f72aa3-00ff1a"
    );
    let name = temporary_file_name(None, 7);
    assert!(name.starts_with(".playit.toml.tmp-7-308943e8-faef-4835-a2ba-270351f72aa3-"));
    assert_eq!(name.len(), ".playit.toml.tmp-7-308943e8-faef-4835-a2ba-270351f72aa3-".len() + 16);
    assert_ne!(temporary_file_name(None, 7), name);
}

#[test]
fn claim_codes_are_random_hex() {
    let code = generate_claim_code();
    assert_eq!(code.len(), 10);
    assert!(code.bytes().all(|b| b.is_ascii_hexdigit()));
    assert_ne!(code, generate_claim_code());
    assert_ne!(claim_url(&code), claim_url(&generate_claim_code()));
    assert_eq!(claim_code_of(&[0, 1, 0xab, 0xcd, 0xef]), "0001abcdef");
    let version = VersionDetails::from_version_string("1.2.3", DEFAULT_VARIANT_ID).unwrap();
    let request = claim_setup_request(&"abc".to_string(), &version);
    assert_eq!(request.version, "playit 1.2.3");
    assert_eq!(request.code, "abc");
    assert_eq!(request.agent_type, ClaimAgentType::SelfManaged);
    let code = "abc".to_string();
    let request = claim_setup_request_for(&code, ClaimAgentType::Assignable, &version);
    assert_eq!(request.version, "playit 1.2.3");
    assert_eq!(request.code, "abc");
    assert_eq!(request.agent_type, ClaimAgentType::Assignable);
}

#[test]
fn successful_claim_provisions_the_secret_and_clears_state() {
    assert!(matches!(
        claim_step(ClaimEvent::Checked { cancelled: false }),
        ClaimStep::Setup
    ));
    assert!(matches!(
        claim_step(ClaimEvent::SetupDone(Some(Ok(ClaimSetupResponse::UserAccepted)))),
        ClaimStep::Exchange
    ));
    assert!(matches!(
        claim_step(ClaimEvent::ExchangeDone(Some(Ok("deadbeef".to_string())))),
        ClaimStep::Provision { secret } if secret == "deadbeef"
    ));
    assert!(matches!(claim_step(ClaimEvent::Handed { taken: true }), ClaimStep::Confirm));
    assert!(matches!(
        claim_step(ClaimEvent::Confirmed { stored: true }),
        ClaimStep::End(ClaimEnd::Provisioned)
    ));
    assert!(finish_claim(Some("successful-code".to_string()), "successful-code").is_none());
    assert_eq!(
        finish_claim(Some("newer-code".to_string()), "successful-code").as_deref(),
        Some("newer-code")
    );
}

#[test]
fn claim_failure_and_cancellation_clear_active_claim_state() {
    assert!(matches!(
        claim_step(ClaimEvent::SetupDone(Some(Err(ApiError::Fail(
            ClaimSetupError::InvalidCode
        ))))),
        ClaimStep::End(ClaimEnd::CodeNotValid)
    ));
    assert!(finish_claim(Some("failed-code".to_string()), "failed-code").is_none());
    assert!(matches!(
        claim_step(ClaimEvent::Checked { cancelled: true }),
        ClaimStep::End(ClaimEnd::Cancelled)
    ));
    assert!(finish_claim(Some("cancelled-code".to_string()), "cancelled-code").is_none());
    assert!(finish_claim(None, "any").is_none());
}

#[test]
fn claims_wait_for_their_owner_and_end_on_doubt() {
    for response in [ClaimSetupResponse::WaitingForUserVisit, ClaimSetupResponse::WaitingForUser] {
        assert!(matches!(
            claim_step(ClaimEvent::SetupDone(Some(Ok(response)))),
            ClaimStep::Pause { millis: 250 }
        ));
    }
    let end = |event: ClaimEvent| match claim_step(event) {
        ClaimStep::End(end) => end,
        other => panic!("expected an end, got {other:?}"),
    };
    let setup = |error| ClaimEvent::SetupDone(Some(Err(error)));
    let exchange = |error| ClaimEvent::ExchangeDone(Some(Err(error)));
    assert_eq!(
        end(ClaimEvent::SetupDone(Some(Ok(ClaimSetupResponse::UserRejected)))),
        ClaimEnd::Rejected
    );
    assert_eq!(end(ClaimEvent::SetupDone(None)), ClaimEnd::NoResponse);
    assert_eq!(
        end(setup(ApiError::Fail(ClaimSetupError::VersionTextTooLong))),
        ClaimEnd::VersionRefused
    );
    assert_eq!(
        end(setup(ApiError::ApiError(ApiResponseError::Internal("t".to_string())))),
        ClaimEnd::ApiFailed
    );
    assert_eq!(
        end(setup(ApiError::ApiError(ApiResponseError::Validation("v".to_string())))),
        ClaimEnd::Refused
    );
    assert_eq!(
        end(setup(ApiError::ClientError(HttpClientError::TooManyRequests))),
        ClaimEnd::Unreachable
    );
    assert!(matches!(
        claim_step(exchange(ApiError::Fail(ClaimExchangeError::NotAccepted))),
        ClaimStep::Pause { millis: 1000 }
    ));
    assert_eq!(end(exchange(ApiError::Fail(ClaimExchangeError::Other))), ClaimEnd::Refused);
    assert_eq!(
        end(exchange(ApiError::ClientError(HttpClientError::TooManyRequests))),
        ClaimEnd::Unreachable
    );
    assert_eq!(end(ClaimEvent::ExchangeDone(None)), ClaimEnd::NoResponse);
    assert_eq!(end(ClaimEvent::Paused { completed: false }), ClaimEnd::Cancelled);
    assert!(matches!(claim_step(ClaimEvent::Paused { completed: true }), ClaimStep::Setup));
    assert_eq!(end(ClaimEvent::Handed { taken: false }), ClaimEnd::SecretNotTaken);
    assert_eq!(end(ClaimEvent::Confirmed { stored: false }), ClaimEnd::SecretNotStored);
}

#[test]
fn secret_files_are_known_by_their_path() {
    for path in [
        "playit.toml",
        "/etc/playit.toml",
        "a/.playit.toml",
        "/x.toml",
        "./data/playit/secret.toml",
        "../secret.toml",
        "a//b.toml",
        "a/b.toml/",
        "C:\\data\\secret.toml",
    ] {
        let file = secret_file_for(path, " deadbeef ").ok().unwrap();
        assert_eq!(file.content, "secret_key = \"deadbeef\"\n");
        assert_eq!(file.secret, "deadbeef");
    }
    for path in ["playit", "playit.TOML", "a.toml/playit", ".toml", "playit.toml.bak", ""] {
        assert_eq!(secret_file_for(path, "deadbeef").ok().unwrap().content, "deadbeef");
    }
    assert!(secret_file_for("playit.toml", "not-hex").is_err());
}

#[test]
fn directories_are_looked_at_from_the_secret_file_up() {
    let missing = || Inspection::Failed(IoFailure::new(IoErrorKind::NotFound, "missing"));
    let mut walk = ParentWalk::for_file("/a/b/s.toml").unwrap();
    let mut seen = Vec::new();
    let walk = loop {
        seen.push(walk.current.clone());
        match walk.looked(missing()) {
            WalkStep::Inspect(next) => walk = next,
            WalkStep::Create(next) => break next,
            WalkStep::Fail(_) => panic!("a missing directory is no failure"),
        }
    };
    assert_eq!(seen, ["/a/b", "/a", "/"]);
    assert_eq!(walk.missing, seen);
    assert_eq!(walk.parent, "/a/b");

    let relative = ParentWalk::for_file("a/s.toml").unwrap();
    assert_eq!(relative.current, "a");
    match relative.looked(missing()) {
        WalkStep::Inspect(next) => assert_eq!(next.current, ""),
        _ => panic!("expected another look"),
    }
    let mut walk = ParentWalk::for_file("./data/playit/secret.toml").unwrap();
    assert_eq!(walk.parent, "./data/playit");
    for above in ["./data", ".", ""] {
        match walk.looked(missing()) {
            WalkStep::Inspect(next) => walk = next,
            _ => panic!("expected another look"),
        }
        assert_eq!(walk.current, above);
    }
    match walk.looked(missing()) {
        WalkStep::Create(walk) => {
            assert_eq!(walk.missing, ["./data/playit", "./data", ".", ""]);
        }
        _ => panic!("expected the end of the walk"),
    }
    assert_eq!(ParentWalk::for_file("../s.toml").unwrap().parent, "..");
    assert_eq!(ParentWalk::for_file("a/b/c/").unwrap().parent, "a/b");
    assert!(ParentWalk::for_file("s.toml").is_none());
    assert!(ParentWalk::for_file("").is_none());
    assert!(ParentWalk::for_file("/").is_none());
    let found = ParentWalk::for_file("/a/s.toml").unwrap().looked(Inspection::Directory);
    assert!(matches!(found, WalkStep::Create(walk) if walk.missing.is_empty()));
}

#[test]
fn temporary_files_stand_beside_the_secret_file() {
    let (directory, name) = temporary_file_for("/a/s.toml", 42);
    assert_eq!(directory, "/a");
    let start = format!(".s.toml.tmp-42-{DEFAULT_VARIANT_ID}-");
    assert!(name.starts_with(&start));
    assert_eq!(name.len(), start.len() + 16);
    let (directory, name) = temporary_file_for("./data/playit/secret.toml", 42);
    assert_eq!(directory, "./data/playit");
    assert!(name.starts_with(".secret.toml.tmp-42-"));
    assert_eq!(temporary_file_for("s.toml", 42).0, ".");
    assert_eq!(temporary_file_for("/s.toml", 42).0, "/");
    assert!(temporary_file_for("/", 42).1.starts_with(".playit.toml.tmp-42-"));
}

#[test]
fn claims_are_exchanged_again_only_while_not_accepted() {
    let accepted = || ClaimEvent::SetupDone(Some(Ok(ClaimSetupResponse::UserAccepted)));
    assert!(matches!(claim_step(accepted()), ClaimStep::Exchange));
    let not_accepted =
        ClaimEvent::ExchangeDone(Some(Err(ApiError::Fail(ClaimExchangeError::NotAccepted))));
    assert!(matches!(claim_step(not_accepted), ClaimStep::Pause { .. }));
    assert!(matches!(claim_step(ClaimEvent::Paused { completed: true }), ClaimStep::Setup));
    for unclear in [
        Err(ApiError::ClientError(HttpClientError::TooManyRequests)),
        Err(ApiError::ApiError(ApiResponseError::Internal("trace".to_string()))),
        Err(ApiError::Fail(ClaimExchangeError::Other)),
    ] {
        let step = claim_step(ClaimEvent::ExchangeDone(Some(unclear)));
        assert!(matches!(step, ClaimStep::End(_)));
    }
    let exchanged = ClaimEvent::ExchangeDone(Some(Ok("deadbeef".to_string())));
    assert!(matches!(claim_step(exchanged), ClaimStep::Provision { .. }));
}

#[test]
fn claim_codes_have_lower_case_letters() {
    assert_eq!(claim_code_of(&[0x00, 0x1f, 0xAB, 0xCD, 0xEF]), "001fabcdef");
    let code = generate_claim_code();
    assert_eq!(code.len(), 10);
    assert!(code.chars().all(|c| c.is_ascii_digit() || ('a'..='f').contains(&c)));
}
