//! Policy resolution: merge CLI-supplied sandbox values and environment
//! values into one policy, CLI over environment over compiled defaults.
//!
//! The resolver is a pure function: the caller hands it the raw values of
//! the `GOOSE_SANDBOX` and `SEATBELT_PROFILE` environment variables and a
//! flag saying whether the running platform supports Seatbelt, so the whole
//! precedence logic is checked here and the environment is read elsewhere.

use vstd::prelude::*;

use crate::ascii::{folded_eq, lower, str_eq};
use crate::policy::{
    spec_default_config, spec_parse_method, spec_parse_profile, SandboxConfig, SandboxMethod,
    SeatbeltProfile,
};

verus! {

/// Enable sandboxing with the platform default method: Seatbelt where the
/// platform supports it; where it does not, sandboxing stays disabled
/// rather than coming up with a method that cannot work.
pub open spec fn spec_apply_platform_default(c: SandboxConfig, supported: bool) -> SandboxConfig {
    if supported {
        SandboxConfig { enabled: true, method: SandboxMethod::Seatbelt, ..c }
    } else {
        SandboxConfig { enabled: false, method: SandboxMethod::Disabled, ..c }
    }
}

/// Apply a `GOOSE_SANDBOX` value: a known method name selects that method;
/// the literal `true` (case-insensitively) or `1` asks for the platform
/// default; anything else is ignored.
pub open spec fn spec_apply_env_method(
    c: SandboxConfig,
    s: Seq<char>,
    supported: bool,
) -> SandboxConfig {
    match spec_parse_method(s) {
        Some(m) => SandboxConfig { enabled: !(m is Disabled), method: m, ..c },
        None => if lower(s) == "true"@ || s == "1"@ {
            spec_apply_platform_default(c, supported)
        } else {
            c
        },
    }
}

/// Apply an explicit CLI method string: a known method name selects that
/// method; anything else is ignored.
pub open spec fn spec_apply_cli_method(c: SandboxConfig, s: Seq<char>) -> SandboxConfig {
    match spec_parse_method(s) {
        Some(m) => SandboxConfig { enabled: !(m is Disabled), method: m, ..c },
        None => c,
    }
}

/// Apply a profile string: a known profile name overrides the profile;
/// anything else is ignored.
pub open spec fn spec_apply_profile(c: SandboxConfig, s: Seq<char>) -> SandboxConfig {
    match spec_parse_profile(s) {
        Some(p) => SandboxConfig { profile: p, ..c },
        None => c,
    }
}

/// The whole resolution: defaults, then the environment, then the CLI.
pub open spec fn spec_resolve(
    sandbox_arg: Option<Option<Seq<char>>>,
    profile_arg: Option<Seq<char>>,
    env_sandbox: Option<Seq<char>>,
    env_profile: Option<Seq<char>>,
    supported: bool,
) -> SandboxConfig {
    let c0 = spec_default_config();
    let c1 = match env_sandbox {
        Some(s) => spec_apply_env_method(c0, s, supported),
        None => c0,
    };
    let c2 = match env_profile {
        Some(s) => spec_apply_profile(c1, s),
        None => c1,
    };
    let c3 = match sandbox_arg {
        Some(Some(s)) => spec_apply_cli_method(c2, s),
        Some(None) => spec_apply_platform_default(c2, supported),
        None => c2,
    };
    match profile_arg {
        Some(s) => spec_apply_profile(c3, s),
        None => c3,
    }
}

/// Resolve the sandbox policy from CLI values and environment values.
///
/// `sandbox_arg` is the CLI sandbox flag: absent, present without a value
/// (platform default), or present with an explicit method string.
/// `profile_arg` is the CLI profile override. `env_sandbox` and
/// `env_profile` are the values of `GOOSE_SANDBOX` and `SEATBELT_PROFILE`.
/// Unparseable strings are ignored, never rejected: resolution cannot fail.
pub fn parse_sandbox_config(
    sandbox_arg: Option<Option<String>>,
    profile_arg: Option<String>,
    env_sandbox: Option<String>,
    env_profile: Option<String>,
    seatbelt_supported: bool,
) -> (r: SandboxConfig)
    ensures
        r == spec_resolve(
            sandbox_arg.deep_view(),
            profile_arg.deep_view(),
            env_sandbox.deep_view(),
            env_profile.deep_view(),
            seatbelt_supported,
        ),
        r.enabled == !(r.method is Disabled),
        r.wf(),
{
    let mut config = SandboxConfig {
        enabled: false,
        method: SandboxMethod::Disabled,
        profile: SeatbeltProfile::PermissiveOpen,
    };

    if let Some(s) = env_sandbox {
        match SandboxMethod::parse(s.as_str()) {
            Ok(m) => {
                config.enabled = !matches!(m, SandboxMethod::Disabled);
                config.method = m;
            },
            Err(_) => {
                if folded_eq(s.as_str(), "true", false) || str_eq(s.as_str(), "1") {
                    config = apply_platform_default(config, seatbelt_supported);
                }
            },
        }
    }

    if let Some(s) = env_profile {
        if let Ok(p) = SeatbeltProfile::parse(s.as_str()) {
            config.profile = p;
        }
    }

    match sandbox_arg {
        Some(Some(s)) => {
            if let Ok(m) = SandboxMethod::parse(s.as_str()) {
                config.enabled = !matches!(m, SandboxMethod::Disabled);
                config.method = m;
            }
        },
        Some(None) => {
            config = apply_platform_default(config, seatbelt_supported);
        },
        None => {},
    }

    if let Some(s) = profile_arg {
        if let Ok(p) = SeatbeltProfile::parse(s.as_str()) {
            config.profile = p;
        }
    }

    config
}

/// Resolve the sandbox policy from environment values alone, with no CLI
/// values present.
pub fn parse_sandbox_config_from_env(
    env_sandbox: Option<String>,
    env_profile: Option<String>,
    seatbelt_supported: bool,
) -> (r: SandboxConfig)
    ensures
        r == spec_resolve(
            None,
            None,
            env_sandbox.deep_view(),
            env_profile.deep_view(),
            seatbelt_supported,
        ),
        r.enabled == !(r.method is Disabled),
        r.wf(),
{
    parse_sandbox_config(None, None, env_sandbox, env_profile, seatbelt_supported)
}

fn apply_platform_default(c: SandboxConfig, supported: bool) -> (r: SandboxConfig)
    ensures
        r == spec_apply_platform_default(c, supported),
{
    if supported {
        SandboxConfig { enabled: true, method: SandboxMethod::Seatbelt, profile: c.profile }
    } else {
        SandboxConfig { enabled: false, method: SandboxMethod::Disabled, profile: c.profile }
    }
}

/// Requesting the platform default on a platform without Seatbelt support
/// never yields an enabled policy: resolution narrows toward "disabled"
/// instead of enabling a method that cannot run.
pub proof fn lemma_unsupported_platform_stays_disabled(
    profile_arg: Option<Seq<char>>,
    env_sandbox: Seq<char>,
    env_profile: Option<Seq<char>>,
)
    requires
        lower(env_sandbox) == "true"@ || env_sandbox == "1"@,
        spec_parse_method(env_sandbox) is None,
    ensures
        !spec_resolve(None, profile_arg, Some(env_sandbox), env_profile, false).enabled,
        spec_resolve(
            None,
            profile_arg,
            Some(env_sandbox),
            env_profile,
            false,
        ).method is Disabled,
        !spec_resolve(Some(None), profile_arg, Some(env_sandbox), env_profile, false).enabled,
        spec_resolve(
            Some(None),
            profile_arg,
            Some(env_sandbox),
            env_profile,
            false,
        ).method is Disabled,
{
}

/// CLI precedence: when the CLI names a method that parses, the resolved
/// method and enabled state come from the CLI value, whatever the
/// environment said; a CLI profile that parses wins the same way.
pub proof fn lemma_cli_overrides_env(
    cli_method: Seq<char>,
    cli_profile: Seq<char>,
    env_sandbox: Option<Seq<char>>,
    env_profile: Option<Seq<char>>,
    supported: bool,
    m: SandboxMethod,
    p: SeatbeltProfile,
)
    requires
        spec_parse_method(cli_method) == Some(m),
        spec_parse_profile(cli_profile) == Some(p),
    ensures
        spec_resolve(
            Some(Some(cli_method)),
            Some(cli_profile),
            env_sandbox,
            env_profile,
            supported,
        ).method == m,
        spec_resolve(
            Some(Some(cli_method)),
            Some(cli_profile),
            env_sandbox,
            env_profile,
            supported,
        ).enabled == !(m is Disabled),
        spec_resolve(
            Some(Some(cli_method)),
            Some(cli_profile),
            env_sandbox,
            env_profile,
            supported,
        ).profile == p,
{
}

} // verus!
