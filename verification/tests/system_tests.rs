use playit::error::{IoErrorKind, IoFailure};
use playit::ipc::IpcError;
use playit::linux::{
    is_openrc_service_active, is_systemd_service_active, openrc_start_args, openrc_status_args,
    openrc_stop_args, start_openrc_service, start_systemd_service, stop_openrc_service,
    stop_systemd_service, systemd_is_active_args, systemd_start_args, systemd_stop_args,
    CommandOutput, ServiceManagerError,
};
use playit::sid::{
    installed_user_sid_path, normalize_sid, pipe_security_sddl, pipe_user_sid,
    read_installed_user_sid, secret_path_sddl, secure_installed_user_sid_storage, storage_secured,
    wide_path, wide_string, write_current_user_sid, RESTRICTED_DATA_SDDL,
};
use playit::unix::{
    configure_socket_permissions, socket_group_set, socket_mode, socket_mode_set,
    socket_permission_target, GroupFailure, HostOs,
};

#[test]
fn systemd_command_args_are_stable() {
    assert_eq!(systemd_start_args(), ["start", "playit"]);
    assert_eq!(systemd_stop_args(), ["stop", "playit"]);
    assert_eq!(systemd_is_active_args(), ["is-active", "--quiet", "playit"]);
}

#[test]
fn openrc_command_args_are_stable() {
    assert_eq!(openrc_start_args(), ["playit", "start"]);
    assert_eq!(openrc_status_args(), ["playit", "status"]);
    assert_eq!(openrc_stop_args(), ["playit", "stop"]);
}

fn output(code: Option<i32>, stdout: &str, stderr: &str) -> CommandOutput {
    CommandOutput {
        code,
        status: "exit status: 1".to_string(),
        stdout: stdout.to_string(),
        stderr: stderr.to_string(),
    }
}

#[test]
fn service_manager_outcomes() {
    assert!(start_systemd_service(Ok(output(Some(0), "", ""))).is_ok());
    assert!(matches!(
        start_systemd_service(Ok(output(Some(1), "out", " no unit \n"))),
        Err(ServiceManagerError::StartFailed(message))
            if message == "systemctl start playit failed: no unit"
    ));
    assert!(matches!(
        stop_systemd_service(Err("not found".to_string())),
        Err(ServiceManagerError::StopFailed(message))
            if message == "Failed to run systemctl: not found"
    ));
    assert!(matches!(
        start_openrc_service(Ok(output(Some(1), " out ", " "))),
        Err(ServiceManagerError::StartFailed(message))
            if message == "rc-service playit start failed: out"
    ));
    assert!(matches!(
        stop_openrc_service(Ok(output(None, "", ""))),
        Err(ServiceManagerError::StopFailed(message))
            if message == "rc-service playit stop failed: exit status exit status: 1"
    ));
    assert!(is_systemd_service_active(Ok(output(Some(0), "", ""))).unwrap());
    assert!(!is_systemd_service_active(Ok(output(Some(3), "", ""))).unwrap());
    assert!(!is_systemd_service_active(Ok(output(Some(4), "", ""))).unwrap());
    assert!(matches!(
        is_systemd_service_active(Ok(output(Some(1), "", "bad"))),
        Err(ServiceManagerError::NotAvailable(message))
            if message == "systemctl is-active --quiet playit failed: bad"
    ));
    assert!(is_openrc_service_active(Ok(output(Some(0), "", ""))).unwrap());
    assert!(!is_openrc_service_active(Ok(output(Some(3), "", ""))).unwrap());
    assert!(is_openrc_service_active(Err("gone".to_string())).is_err());
}

#[test]
fn root_linux_socket_uses_restricted_playit_group_permissions() {
    let target =
        socket_permission_target("/run/playit/playitd.sock", HostOs::Linux, 0).unwrap();

    assert_eq!(target.mode, socket_mode(HostOs::Linux));
    assert_eq!(target.mode, 0o660);
    assert_eq!(target.group_name, "playit");
    assert!(target.chown_group);
}

#[test]
fn non_root_linux_socket_keeps_group_and_restricts_mode() {
    let target =
        socket_permission_target("/run/playit/playitd.sock", HostOs::Linux, 1234).unwrap();

    assert_eq!(target.mode, socket_mode(HostOs::Linux));
    assert!(!target.chown_group);
}

#[test]
fn macos_socket_is_owner_only() {
    let target = socket_permission_target(
        "/Users/test/Library/Application Support/playit.sock",
        HostOs::Other,
        0,
    )
    .unwrap();

    assert_eq!(target.mode, 0o600);
    assert!(!target.chown_group);
}

#[test]
fn non_filesystem_endpoints_are_not_chmodded() {
    assert!(socket_permission_target("@playitd", HostOs::Linux, 0).is_none());
    assert!(socket_permission_target(r"\\.\pipe\playitd-system", HostOs::Linux, 0).is_none());
}

#[test]
fn socket_permissions_are_configured_after_the_bind() {
    let path = "/run/playit/playitd.sock";
    assert!(configure_socket_permissions("@playitd", HostOs::Linux, 0, false, None)
        .unwrap()
        .is_none());
    assert!(matches!(
        configure_socket_permissions(path, HostOs::Linux, 0, false, Some(5)),
        Err(IpcError::BindFailed(failure))
            if failure.kind == IoErrorKind::NotFound
                && failure.message == "IPC socket /run/playit/playitd.sock was not created"
    ));
    let root = configure_socket_permissions(path, HostOs::Linux, 0, true, Some(5)).unwrap();
    assert_eq!(root.unwrap().group, Some(5));
    let user = configure_socket_permissions(path, HostOs::Linux, 9, true, Some(5)).unwrap();
    assert_eq!(user.unwrap().group, None);
    assert!(socket_mode_set(path, 0o660, Ok(())).is_ok());
    assert!(matches!(
        socket_mode_set(path, 0o660, Err(IoFailure::new(IoErrorKind::Other, "read-only"))),
        Err(IpcError::BindFailed(failure))
            if failure.message
                == "failed to chmod IPC socket /run/playit/playitd.sock to 660: read-only"
    ));
    assert!(matches!(
        socket_group_set(path, 77, Err(GroupFailure::Refused("not permitted".to_string()))),
        Err(IpcError::BindFailed(failure))
            if failure.kind == IoErrorKind::PermissionDenied
                && failure.message == "failed to chown IPC socket /run/playit/playitd.sock \
                                       to group gid 77: not permitted"
    ));
    assert!(matches!(
        socket_group_set("a\0b", 77, Err(GroupFailure::BadPath("nul".to_string()))),
        Err(IpcError::BindFailed(failure))
            if failure.message == "invalid IPC socket path \"a\\0b\": nul"
    ));
}

#[test]
fn pipe_sddl_allows_service_admins_and_installed_user_only() {
    let sddl = pipe_security_sddl(Some("S-1-5-21-1-2-3-1001"));

    assert!(sddl.contains("(A;;GA;;;SY)"));
    assert!(sddl.contains("(A;;GA;;;BA)"));
    assert!(sddl.contains("(A;;GA;;;S-1-5-21-1-2-3-1001)"));
    assert!(!sddl.contains(";;;AU)"));
    assert!(!sddl.contains(";;;WD)"));
    assert!(!sddl.contains(";;;BU)"));
}

#[test]
fn pipe_sddl_fallback_does_not_grant_broad_access() {
    let sddl = pipe_security_sddl(None);

    assert!(sddl.contains("(A;;GA;;;SY)"));
    assert!(sddl.contains("(A;;GA;;;BA)"));
    assert!(!sddl.contains(";;;AU)"));
    assert!(!sddl.contains(";;;WD)"));
    assert!(!sddl.contains(";;;BU)"));
    assert_eq!(pipe_security_sddl(Some("S-1-5)(A;;GA;;;WD")), sddl);
}

#[test]
fn installed_sid_storage_sddl_is_restricted() {
    assert!(RESTRICTED_DATA_SDDL.starts_with("D:P"));
    assert!(RESTRICTED_DATA_SDDL.contains("(A;;FA;;;SY)"));
    assert!(RESTRICTED_DATA_SDDL.contains("(A;;FA;;;BA)"));
    assert!(!RESTRICTED_DATA_SDDL.contains(";;;AU)"));
    assert!(!RESTRICTED_DATA_SDDL.contains(";;;WD)"));
    assert!(!RESTRICTED_DATA_SDDL.contains(";;;BU)"));
}

#[test]
fn windows_sid_validation_rejects_sddl_breakout_characters() {
    assert_eq!(normalize_sid("S-1-5-21-1-2-3-1001"), Some("S-1-5-21-1-2-3-1001"));
    assert_eq!(normalize_sid(""), None);
    assert_eq!(normalize_sid("S-1-"), None);
    assert_eq!(normalize_sid(" S-1-5-21-1-2-3-1001"), None);
    assert_eq!(normalize_sid("S-1-5-21-1-2-3-1001 "), None);
    assert_eq!(normalize_sid("S-1-5-21-1-2-3-1001)"), None);
    assert_eq!(normalize_sid("S-1-5-21-1-2-3-1001;"), None);
    assert_eq!(normalize_sid("S-1-5-21-1-2-3-1001("), None);
}

#[test]
fn windows_secret_sid_validation_rejects_sddl_breakout_characters() {
    assert_eq!(normalize_sid("S-1-5-21-1-2-3-1001"), Some("S-1-5-21-1-2-3-1001"));
    assert_eq!(normalize_sid(""), None);
    assert_eq!(normalize_sid("S-1-"), None);
    assert_eq!(normalize_sid("S-1-5-21-1-2-3-1001)"), None);
    assert_eq!(normalize_sid("S-1-5-21-1-2-3-1001;"), None);
}

#[test]
fn sids_have_digits_between_single_dashes() {
    assert_eq!(normalize_sid("S-1-5"), Some("S-1-5"));
    assert_eq!(normalize_sid("S-1-5-"), None);
    assert_eq!(normalize_sid("S-1--5"), None);
    assert_eq!(normalize_sid("S-1-5--21"), None);
    assert_eq!(normalize_sid("S-1-S"), None);
    assert_eq!(normalize_sid("S-2-5"), None);
    assert_eq!(normalize_sid("s-1-5"), None);
}

#[test]
fn secret_sddl_allows_only_system_administrators_and_current_user() {
    let sddl = secret_path_sddl("S-1-5-21-1-2-3-1001").unwrap();

    assert!(sddl.starts_with("D:P"));
    assert!(sddl.contains("(A;;FA;;;SY)"));
    assert!(sddl.contains("(A;;FA;;;BA)"));
    assert!(sddl.contains("(A;;FA;;;S-1-5-21-1-2-3-1001)"));
    assert!(!sddl.contains(";;;AU)"));
    assert!(!sddl.contains(";;;WD)"));
    assert!(!sddl.contains(";;;BU)"));
    let error = secret_path_sddl("WD").err().unwrap();
    assert_eq!(error.message, "Windows returned an invalid current-user SID");
}

#[test]
fn the_installed_user_is_kept_in_a_protected_file() {
    let path = installed_user_sid_path("C:\\ProgramData\\playit");
    assert_eq!(path, "C:\\ProgramData\\playit\\installed_user.sid");
    assert_eq!(installed_user_sid_path("C:\\data\\"), "C:\\data\\installed_user.sid");
    assert_eq!(
        secure_installed_user_sid_storage("C:\\data"),
        vec![
            ("C:\\data".to_string(), "D:P(A;;FA;;;SY)(A;;FA;;;BA)"),
            ("C:\\data\\installed_user.sid".to_string(), RESTRICTED_DATA_SDDL),
        ]
    );
    assert!(storage_secured(1, 2, Ok(())).is_none());
    assert!(matches!(storage_secured(2, 2, Ok(())), Some(Ok(()))));
    let denied = IoFailure::new(IoErrorKind::PermissionDenied, "denied");
    assert!(matches!(
        storage_secured(1, 2, Err(denied)),
        Some(Err(failure)) if failure.message == "denied"
    ));
    assert_eq!(
        read_installed_user_sid(Ok(" S-1-5-18\r\n".to_string())).as_deref(),
        Some("S-1-5-18")
    );
    assert_eq!(read_installed_user_sid(Ok("nobody".to_string())), None);
    let missing = IoFailure::new(IoErrorKind::NotFound, "missing");
    assert_eq!(read_installed_user_sid(Err(missing)), None);
    assert_eq!(write_current_user_sid(Some("S-1-5-18".to_string()), "S-1-5-19"), None);
    assert_eq!(write_current_user_sid(None, "S-1-5-19").as_deref(), Some("S-1-5-19\n"));
    assert_eq!(
        pipe_user_sid(None, Some("S-1-5-19".to_string())).as_deref(),
        Some("S-1-5-19")
    );
    assert_eq!(
        pipe_user_sid(Some("a".to_string()), Some("b".to_string())).as_deref(),
        Some("a")
    );
}

#[test]
fn wide_strings_are_terminated() {
    assert_eq!(wide_string("aé€").unwrap(), vec![0x61, 0xe9, 0x20ac, 0]);
    let rocket = "x\u{1f680}\u{10ffff}\u{10000}";
    let mut expected: Vec<u16> = rocket.encode_utf16().collect();
    expected.push(0);
    assert_eq!(wide_string(rocket).unwrap(), expected);
    let error = wide_string("a\0b").err().unwrap();
    assert_eq!(error.message, "Windows security descriptor contains an embedded NUL");
    assert_eq!(wide_path(vec![1, 2]).unwrap(), vec![1, 2, 0]);
    assert_eq!(
        wide_path(vec![1, 0]).err().unwrap().message,
        "secret path contains an embedded NUL"
    );
}
