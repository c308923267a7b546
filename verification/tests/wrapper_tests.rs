use goose_sandbox::{
    SandboxConfig, SandboxError, SandboxMethod, SandboxWrapper, SeatbeltProfile, ShellConfig,
};

fn shell() -> ShellConfig {
    ShellConfig {
        executable: "bash".to_string(),
        args: vec!["-c".to_string()],
    }
}

fn wrapper(method: SandboxMethod, profile: SeatbeltProfile, supported: bool) -> SandboxWrapper {
    SandboxWrapper {
        config: SandboxConfig {
            enabled: !matches!(method, SandboxMethod::Disabled),
            method,
            profile,
        },
        project_dir: "/work".to_string(),
        home_dir: "/home/u".to_string(),
        os: "linux".to_string(),
        seatbelt_supported: supported,
    }
}

#[test]
fn new_rejects_enabled_policy_on_unsupported_platform() {
    let config = SandboxConfig {
        enabled: true,
        method: SandboxMethod::Seatbelt,
        profile: SeatbeltProfile::PermissiveOpen,
    };
    let r = SandboxWrapper::new(
        config,
        "/work".to_string(),
        "/home/u".to_string(),
        "linux".to_string(),
        false,
    );
    match r {
        Err(SandboxError::PlatformUnsupported(os)) => assert_eq!(os, "linux"),
        other => panic!("expected PlatformUnsupported, got {other:?}"),
    }
}

#[test]
fn new_accepts_disabled_policy_anywhere() {
    let r = SandboxWrapper::new(
        SandboxConfig::default(),
        "/work".to_string(),
        "/home/u".to_string(),
        "linux".to_string(),
        false,
    );
    let w = r.unwrap();
    assert!(!w.config.enabled);
    assert_eq!(w.project_dir, "/work");
    assert_eq!(w.home_dir, "/home/u");
}

#[test]
fn disabled_wrapping_returns_direct_command() {
    let w = wrapper(SandboxMethod::Disabled, SeatbeltProfile::PermissiveOpen, true);
    let c = w.wrap_command(&shell(), "echo hi").unwrap();
    assert_eq!(c.program, "bash");
    assert_eq!(c.args, vec!["-c".to_string(), "echo hi".to_string()]);
    assert!(c.env.is_empty());
}

#[test]
fn docker_and_podman_wrapping_always_fail_unimplemented() {
    for m in [SandboxMethod::Docker, SandboxMethod::Podman] {
        let w = wrapper(m, SeatbeltProfile::PermissiveOpen, true);
        let r = w.wrap_command(&shell(), "echo hi");
        match r {
            Err(SandboxError::BackendNotImplemented(got)) => assert_eq!(got, m),
            other => panic!("expected BackendNotImplemented, got {other:?}"),
        }
    }
}

#[test]
fn seatbelt_wrapping_fails_on_unsupported_platform() {
    let w = wrapper(SandboxMethod::Seatbelt, SeatbeltProfile::PermissiveOpen, false);
    let r = w.wrap_command(&shell(), "echo hi");
    assert!(matches!(r, Err(SandboxError::PlatformUnsupported(_))));
}

#[test]
fn seatbelt_wrapping_reports_missing_tool() {
    let w = wrapper(SandboxMethod::Seatbelt, SeatbeltProfile::PermissiveOpen, true);
    let r = w.wrap_command_with(&shell(), "echo hi", false, true);
    match r {
        Err(SandboxError::ToolNotFound(tool)) => assert_eq!(tool, "sandbox-exec"),
        other => panic!("expected ToolNotFound, got {other:?}"),
    }
}

#[test]
fn seatbelt_wrapping_reports_missing_profile_asset() {
    let w = wrapper(
        SandboxMethod::Seatbelt,
        SeatbeltProfile::RestrictiveClosed,
        true,
    );
    let r = w.wrap_command_with(&shell(), "echo hi", true, false);
    match r {
        Err(SandboxError::ProfileAssetMissing(path)) => assert_eq!(
            path,
            "/work/crates/goose-mcp/src/developer/profiles/restrictive-closed.sb"
        ),
        other => panic!("expected ProfileAssetMissing, got {other:?}"),
    }
}

#[test]
fn seatbelt_wrapping_builds_confined_command() {
    let w = wrapper(SandboxMethod::Seatbelt, SeatbeltProfile::PermissiveOpen, true);
    let c = w.wrap_command_with(&shell(), "echo hi", true, true).unwrap();
    assert_eq!(c.program, "sandbox-exec");
    assert_eq!(
        c.args,
        vec![
            "-f".to_string(),
            "/work/crates/goose-mcp/src/developer/profiles/permissive-open.sb".to_string(),
            "-D".to_string(),
            "project_dir=/work".to_string(),
            "-D".to_string(),
            "home_dir=/home/u".to_string(),
            "bash".to_string(),
            "-c".to_string(),
            "echo hi".to_string(),
        ]
    );
    assert!(c.env.is_empty());
}

#[test]
fn profile_path_follows_filename_convention() {
    let w = wrapper(SandboxMethod::Seatbelt, SeatbeltProfile::RestrictiveOpen, true);
    assert_eq!(
        w.seatbelt_profile_path(),
        "/work/crates/goose-mcp/src/developer/profiles/restrictive-open.sb"
    );
}

#[test]
fn missing_asset_error_names_expected_path() {
    // The asset path is resolved under the project directory; with a
    // project directory that holds no profile assets the lookup fails
    // and the error carries the expected path.
    let w = SandboxWrapper {
        config: SandboxConfig {
            enabled: true,
            method: SandboxMethod::Seatbelt,
            profile: SeatbeltProfile::RestrictiveClosed,
        },
        project_dir: "/nonexistent-project-dir".to_string(),
        home_dir: "/home/u".to_string(),
        os: "macos".to_string(),
        seatbelt_supported: true,
    };
    let r = w.get_seatbelt_profile_path();
    match r {
        Err(SandboxError::ProfileAssetMissing(path)) => assert_eq!(
            path,
            "/nonexistent-project-dir/crates/goose-mcp/src/developer/profiles/restrictive-closed.sb"
        ),
        other => panic!("expected ProfileAssetMissing, got {other:?}"),
    }
}

#[test]
fn availability_rules() {
    let w = wrapper(SandboxMethod::Disabled, SeatbeltProfile::PermissiveOpen, false);
    assert!(w.is_sandboxing_available());

    let w = wrapper(SandboxMethod::Seatbelt, SeatbeltProfile::PermissiveOpen, false);
    assert!(!w.is_sandboxing_available());
}

#[test]
fn status_info_disabled() {
    let w = wrapper(SandboxMethod::Disabled, SeatbeltProfile::PermissiveOpen, true);
    assert_eq!(w.get_status_info(), "Sandboxing disabled");
}

#[test]
fn status_info_by_probe_outcome() {
    let w = wrapper(SandboxMethod::Seatbelt, SeatbeltProfile::RestrictiveClosed, true);
    assert_eq!(
        w.status_info_with(true),
        "Seatbelt sandboxing enabled (profile: RestrictiveClosed)"
    );
    assert_eq!(
        w.status_info_with(false),
        "Seatbelt sandboxing not available on this system"
    );

    let w = wrapper(SandboxMethod::Docker, SeatbeltProfile::PermissiveOpen, true);
    assert_eq!(
        w.status_info_with(true),
        "Docker sandboxing enabled (not implemented)"
    );
    assert_eq!(w.status_info_with(false), "Docker not available");

    let w = wrapper(SandboxMethod::Podman, SeatbeltProfile::PermissiveOpen, true);
    assert_eq!(
        w.status_info_with(false),
        "Podman not available"
    );
}

#[test]
fn error_messages_are_descriptive() {
    let e = SandboxError::ProfileAssetMissing("/a/b.sb".to_string());
    assert_eq!(e.message(), "Seatbelt profile not found: /a/b.sb");

    let e = SandboxError::BackendNotImplemented(SandboxMethod::Docker);
    assert!(e.message().contains("'docker' is not yet implemented"));

    let e = SandboxError::ToolNotFound("sandbox-exec".to_string());
    assert!(e.message().contains("sandbox-exec"));

    let e = SandboxError::PlatformUnsupported("linux".to_string());
    assert!(e
        .message()
        .starts_with("Sandboxing is not yet supported on linux."));

    let e = SandboxError::SpawnFailed("permission denied".to_string());
    assert_eq!(
        e.message(),
        "Failed to launch the sandboxing tool: permission denied"
    );

    let e = SandboxError::ArgumentResolutionFailed("no current dir".to_string());
    assert_eq!(
        e.message(),
        "Failed to resolve launch arguments: no current dir"
    );
}
