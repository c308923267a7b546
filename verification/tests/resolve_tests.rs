use goose_sandbox::{
    parse_sandbox_config, parse_sandbox_config_from_env, SandboxMethod, SeatbeltProfile,
};

fn s(v: &str) -> Option<String> {
    Some(v.to_string())
}

#[test]
fn env_method_selects_and_enables() {
    let c = parse_sandbox_config(None, None, s("seatbelt"), None, true);
    assert!(c.enabled);
    assert_eq!(c.method, SandboxMethod::Seatbelt);
    assert_eq!(c.profile, SeatbeltProfile::PermissiveOpen);
}

#[test]
fn env_disabling_value_keeps_disabled() {
    let c = parse_sandbox_config(None, None, s("none"), None, true);
    assert!(!c.enabled);
    assert_eq!(c.method, SandboxMethod::Disabled);
}

#[test]
fn env_true_on_supported_platform_enables_seatbelt() {
    let c = parse_sandbox_config(None, None, s("true"), None, true);
    assert!(c.enabled);
    assert_eq!(c.method, SandboxMethod::Seatbelt);
    let c = parse_sandbox_config(None, None, s("TRUE"), None, true);
    assert!(c.enabled);
    assert_eq!(c.method, SandboxMethod::Seatbelt);
    let c = parse_sandbox_config(None, None, s("1"), None, true);
    assert!(c.enabled);
    assert_eq!(c.method, SandboxMethod::Seatbelt);
}

#[test]
fn env_true_on_unsupported_platform_stays_disabled() {
    let c = parse_sandbox_config(None, None, s("true"), None, false);
    assert!(!c.enabled);
    assert_eq!(c.method, SandboxMethod::Disabled);
    let c = parse_sandbox_config(None, None, s("1"), None, false);
    assert!(!c.enabled);
    assert_eq!(c.method, SandboxMethod::Disabled);
}

#[test]
fn env_profile_overrides_default() {
    let c = parse_sandbox_config(None, None, s("seatbelt"), s("restrictive-closed"), true);
    assert_eq!(c.profile, SeatbeltProfile::RestrictiveClosed);
}

#[test]
fn unparseable_values_are_ignored() {
    let c = parse_sandbox_config(None, s("bogus"), s("bogus"), s("also-bogus"), true);
    assert!(!c.enabled);
    assert_eq!(c.method, SandboxMethod::Disabled);
    assert_eq!(c.profile, SeatbeltProfile::PermissiveOpen);
}

#[test]
fn cli_method_overrides_env() {
    let c = parse_sandbox_config(Some(s("seatbelt")), None, s("docker"), None, true);
    assert!(c.enabled);
    assert_eq!(c.method, SandboxMethod::Seatbelt);

    let c = parse_sandbox_config(Some(s("none")), None, s("seatbelt"), None, true);
    assert!(!c.enabled);
    assert_eq!(c.method, SandboxMethod::Disabled);
}

#[test]
fn cli_profile_overrides_env_profile() {
    let c = parse_sandbox_config(
        None,
        s("permissive-closed"),
        s("seatbelt"),
        s("restrictive-open"),
        true,
    );
    assert_eq!(c.profile, SeatbeltProfile::PermissiveClosed);
}

#[test]
fn bare_cli_flag_uses_platform_default() {
    let c = parse_sandbox_config(Some(None), None, None, None, true);
    assert!(c.enabled);
    assert_eq!(c.method, SandboxMethod::Seatbelt);

    let c = parse_sandbox_config(Some(None), None, None, None, false);
    assert!(!c.enabled);
    assert_eq!(c.method, SandboxMethod::Disabled);
}

#[test]
fn from_env_matches_cli_absent() {
    let a = parse_sandbox_config_from_env(s("seatbelt"), s("restrictive_open"), true);
    let b = parse_sandbox_config(None, None, s("seatbelt"), s("restrictive_open"), true);
    assert_eq!(a, b);
    assert_eq!(a.profile, SeatbeltProfile::RestrictiveOpen);
}
