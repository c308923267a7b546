use std::str::FromStr;

use goose_sandbox::{SandboxConfig, SandboxMethod, SeatbeltProfile};

#[test]
fn test_sandbox_method_from_str() {
    assert_eq!(
        SandboxMethod::from_str("seatbelt").unwrap(),
        SandboxMethod::Seatbelt
    );
    assert_eq!(
        SandboxMethod::from_str("docker").unwrap(),
        SandboxMethod::Docker
    );
    assert_eq!(
        SandboxMethod::from_str("none").unwrap(),
        SandboxMethod::Disabled
    );
    assert_eq!(
        SandboxMethod::from_str("false").unwrap(),
        SandboxMethod::Disabled
    );
    assert!(SandboxMethod::from_str("invalid").is_err());
}

#[test]
fn test_seatbelt_profile_from_str() {
    assert_eq!(
        SeatbeltProfile::from_str("permissive-open").unwrap(),
        SeatbeltProfile::PermissiveOpen
    );
    assert_eq!(
        SeatbeltProfile::from_str("restrictive_closed").unwrap(),
        SeatbeltProfile::RestrictiveClosed
    );
    assert!(SeatbeltProfile::from_str("invalid").is_err());
}

#[test]
fn test_default_sandbox_config() {
    let config = SandboxConfig::default();
    assert!(!config.enabled);
    assert_eq!(config.method, SandboxMethod::Disabled);
    assert_eq!(config.profile, SeatbeltProfile::PermissiveOpen);
}

#[test]
fn method_aliases_and_case() {
    assert_eq!(
        SandboxMethod::from_str("sandbox-exec").unwrap(),
        SandboxMethod::Seatbelt
    );
    assert_eq!(
        SandboxMethod::from_str("SEATBELT").unwrap(),
        SandboxMethod::Seatbelt
    );
    assert_eq!(
        SandboxMethod::from_str("disabled").unwrap(),
        SandboxMethod::Disabled
    );
    assert_eq!(
        SandboxMethod::from_str("Podman").unwrap(),
        SandboxMethod::Podman
    );
    let e = SandboxMethod::from_str("jail").unwrap_err();
    assert_eq!(e, "Unknown sandbox method: jail");
}

#[test]
fn profile_hyphen_underscore_and_case_variants() {
    for s in [
        "permissive-open",
        "permissive_open",
        "PERMISSIVE-OPEN",
        "PermissiveOpen",
        "permissiveopen",
    ] {
        assert_eq!(
            SeatbeltProfile::from_str(s).unwrap(),
            SeatbeltProfile::PermissiveOpen,
            "variant {s} should parse",
        );
    }
    assert_eq!(
        SeatbeltProfile::from_str("Restrictive-Open").unwrap(),
        SeatbeltProfile::RestrictiveOpen
    );
    assert_eq!(
        SeatbeltProfile::from_str("permissive_CLOSED").unwrap(),
        SeatbeltProfile::PermissiveClosed
    );
    let e = SeatbeltProfile::from_str("open").unwrap_err();
    assert_eq!(e, "Unknown seatbelt profile: open");
}

#[test]
fn render_parse_round_trip() {
    for p in [
        SeatbeltProfile::PermissiveOpen,
        SeatbeltProfile::PermissiveClosed,
        SeatbeltProfile::RestrictiveOpen,
        SeatbeltProfile::RestrictiveClosed,
    ] {
        assert_eq!(SeatbeltProfile::from_str(p.canonical_name()).unwrap(), p);
    }
    for m in [
        SandboxMethod::Disabled,
        SandboxMethod::Seatbelt,
        SandboxMethod::Docker,
        SandboxMethod::Podman,
    ] {
        assert_eq!(SandboxMethod::from_str(m.canonical_name()).unwrap(), m);
    }
}

#[test]
fn profile_filenames() {
    assert_eq!(
        SeatbeltProfile::PermissiveOpen.profile_filename(),
        "permissive-open.sb"
    );
    assert_eq!(
        SeatbeltProfile::PermissiveClosed.profile_filename(),
        "permissive-closed.sb"
    );
    assert_eq!(
        SeatbeltProfile::RestrictiveOpen.profile_filename(),
        "restrictive-open.sb"
    );
    assert_eq!(
        SeatbeltProfile::RestrictiveClosed.profile_filename(),
        "restrictive-closed.sb"
    );
}
