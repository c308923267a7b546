//! The policy model: sandbox method, confinement profile, and the resolved
//! on/off state, together with their case-insensitive parsers.

use vstd::prelude::*;
use vstd::string::StringExecFns;

use crate::ascii::{canon, folded_eq, lower};

verus! {

/// The confinement mechanism a policy selects. `Docker` and `Podman` are
/// recognized names reserved for future backends: they can be parsed and
/// reported on, but wrapping a command with them fails with a structured
/// error rather than silently running unconfined.
#[derive(Debug, Clone, Copy, PartialEq, Eq, Structural)]
pub enum SandboxMethod {
    Disabled,
    Seatbelt,
    Docker,
    Podman,
}

/// Confinement strictness tier for the Seatbelt mechanism. Permissive tiers
/// can be materialized as inline policy text; restrictive tiers resolve to
/// named policy assets shipped on disk.
#[derive(Debug, Clone, Copy, PartialEq, Eq, Structural)]
pub enum SeatbeltProfile {
    PermissiveOpen,
    PermissiveClosed,
    RestrictiveOpen,
    RestrictiveClosed,
}

/// The resolved sandbox policy: whether sandboxing is on, through which
/// mechanism, and at which strictness tier.
#[derive(Debug, Clone, PartialEq, Eq, Structural)]
pub struct SandboxConfig {
    pub enabled: bool,
    pub method: SandboxMethod,
    pub profile: SeatbeltProfile,
}

/// What a method string parses to, if anything. Matching is
/// ASCII-case-insensitive.
pub open spec fn spec_parse_method(s: Seq<char>) -> Option<SandboxMethod> {
    let l = lower(s);
    if l == "none"@ || l == "false"@ || l == "disabled"@ {
        Some(SandboxMethod::Disabled)
    } else if l == "seatbelt"@ || l == "sandbox-exec"@ {
        Some(SandboxMethod::Seatbelt)
    } else if l == "docker"@ {
        Some(SandboxMethod::Docker)
    } else if l == "podman"@ {
        Some(SandboxMethod::Podman)
    } else {
        None
    }
}

/// What a profile string parses to, if anything. Matching is
/// ASCII-case-insensitive and treats `-` and `_` alike.
pub open spec fn spec_parse_profile(s: Seq<char>) -> Option<SeatbeltProfile> {
    let l = canon(s);
    if l == "permissive_open"@ || l == "permissiveopen"@ {
        Some(SeatbeltProfile::PermissiveOpen)
    } else if l == "permissive_closed"@ || l == "permissiveclosed"@ {
        Some(SeatbeltProfile::PermissiveClosed)
    } else if l == "restrictive_open"@ || l == "restrictiveopen"@ {
        Some(SeatbeltProfile::RestrictiveOpen)
    } else if l == "restrictive_closed"@ || l == "restrictiveclosed"@ {
        Some(SeatbeltProfile::RestrictiveClosed)
    } else {
        None
    }
}

/// The canonical rendering of each method, as accepted back by the parser.
pub open spec fn spec_method_name(m: SandboxMethod) -> Seq<char> {
    match m {
        SandboxMethod::Disabled => "none"@,
        SandboxMethod::Seatbelt => "seatbelt"@,
        SandboxMethod::Docker => "docker"@,
        SandboxMethod::Podman => "podman"@,
    }
}

/// The canonical rendering of each profile, as accepted back by the parser.
pub open spec fn spec_profile_name(p: SeatbeltProfile) -> Seq<char> {
    match p {
        SeatbeltProfile::PermissiveOpen => "permissive-open"@,
        SeatbeltProfile::PermissiveClosed => "permissive-closed"@,
        SeatbeltProfile::RestrictiveOpen => "restrictive-open"@,
        SeatbeltProfile::RestrictiveClosed => "restrictive-closed"@,
    }
}

/// The bare variant name of each profile.
pub open spec fn spec_profile_variant_name(p: SeatbeltProfile) -> Seq<char> {
    match p {
        SeatbeltProfile::PermissiveOpen => "PermissiveOpen"@,
        SeatbeltProfile::PermissiveClosed => "PermissiveClosed"@,
        SeatbeltProfile::RestrictiveOpen => "RestrictiveOpen"@,
        SeatbeltProfile::RestrictiveClosed => "RestrictiveClosed"@,
    }
}

/// The on-disk asset filename of each profile.
pub open spec fn spec_profile_filename(p: SeatbeltProfile) -> Seq<char> {
    spec_profile_name(p) + ".sb"@
}

impl SandboxMethod {
    /// Parse a method string; unrecognized strings are reported, with the
    /// offending string echoed in the message.
    pub fn parse(s: &str) -> (r: Result<SandboxMethod, String>)
        ensures
            r matches Ok(m) ==> spec_parse_method(s@) == Some(m),
            r is Err ==> spec_parse_method(s@) is None,
            r matches Err(e) ==> e@ == "Unknown sandbox method: "@ + s@,
    {
        if folded_eq(s, "none", false) || folded_eq(s, "false", false) || folded_eq(
            s,
            "disabled",
            false,
        ) {
            Ok(SandboxMethod::Disabled)
        } else if folded_eq(s, "seatbelt", false) || folded_eq(s, "sandbox-exec", false) {
            Ok(SandboxMethod::Seatbelt)
        } else if folded_eq(s, "docker", false) {
            Ok(SandboxMethod::Docker)
        } else if folded_eq(s, "podman", false) {
            Ok(SandboxMethod::Podman)
        } else {
            let mut msg = String::from_str("Unknown sandbox method: ");
            msg.append(s);
            Err(msg)
        }
    }

    /// The canonical spelling of this method.
    pub fn canonical_name(&self) -> (r: &'static str)
        ensures
            r@ == spec_method_name(*self),
    {
        match self {
            SandboxMethod::Disabled => "none",
            SandboxMethod::Seatbelt => "seatbelt",
            SandboxMethod::Docker => "docker",
            SandboxMethod::Podman => "podman",
        }
    }
}

impl core::str::FromStr for SandboxMethod {
    type Err = String;

    fn from_str(s: &str) -> Result<Self, String> {
        SandboxMethod::parse(s)
    }
}

impl SeatbeltProfile {
    /// Parse a profile string; unrecognized strings are reported, with the
    /// offending string echoed in the message.
    pub fn parse(s: &str) -> (r: Result<SeatbeltProfile, String>)
        ensures
            r matches Ok(p) ==> spec_parse_profile(s@) == Some(p),
            r is Err ==> spec_parse_profile(s@) is None,
            r matches Err(e) ==> e@ == "Unknown seatbelt profile: "@ + s@,
    {
        if folded_eq(s, "permissive_open", true) || folded_eq(s, "permissiveopen", true) {
            Ok(SeatbeltProfile::PermissiveOpen)
        } else if folded_eq(s, "permissive_closed", true) || folded_eq(
            s,
            "permissiveclosed",
            true,
        ) {
            Ok(SeatbeltProfile::PermissiveClosed)
        } else if folded_eq(s, "restrictive_open", true) || folded_eq(
            s,
            "restrictiveopen",
            true,
        ) {
            Ok(SeatbeltProfile::RestrictiveOpen)
        } else if folded_eq(s, "restrictive_closed", true) || folded_eq(
            s,
            "restrictiveclosed",
            true,
        ) {
            Ok(SeatbeltProfile::RestrictiveClosed)
        } else {
            let mut msg = String::from_str("Unknown seatbelt profile: ");
            msg.append(s);
            Err(msg)
        }
    }

    /// The canonical spelling of this profile.
    pub fn canonical_name(&self) -> (r: &'static str)
        ensures
            r@ == spec_profile_name(*self),
    {
        match self {
            SeatbeltProfile::PermissiveOpen => "permissive-open",
            SeatbeltProfile::PermissiveClosed => "permissive-closed",
            SeatbeltProfile::RestrictiveOpen => "restrictive-open",
            SeatbeltProfile::RestrictiveClosed => "restrictive-closed",
        }
    }

    /// The bare variant name of this profile, as shown in status reports.
    pub fn variant_name(&self) -> (r: &'static str)
        ensures
            r@ == spec_profile_variant_name(*self),
    {
        match self {
            SeatbeltProfile::PermissiveOpen => "PermissiveOpen",
            SeatbeltProfile::PermissiveClosed => "PermissiveClosed",
            SeatbeltProfile::RestrictiveOpen => "RestrictiveOpen",
            SeatbeltProfile::RestrictiveClosed => "RestrictiveClosed",
        }
    }

    /// The filename under which this profile's policy asset is shipped.
    pub fn profile_filename(&self) -> (r: &'static str)
        ensures
            r@ == spec_profile_filename(*self),
    {
        let r: &'static str = match self {
            SeatbeltProfile::PermissiveOpen => "permissive-open.sb",
            SeatbeltProfile::PermissiveClosed => "permissive-closed.sb",
            SeatbeltProfile::RestrictiveOpen => "restrictive-open.sb",
            SeatbeltProfile::RestrictiveClosed => "restrictive-closed.sb",
        };
        proof {
            reveal_strlit("permissive-open");
            reveal_strlit("permissive-open.sb");
            reveal_strlit("permissive-closed");
            reveal_strlit("permissive-closed.sb");
            reveal_strlit("restrictive-open");
            reveal_strlit("restrictive-open.sb");
            reveal_strlit("restrictive-closed");
            reveal_strlit("restrictive-closed.sb");
            reveal_strlit(".sb");
            assert(r@ =~= spec_profile_filename(*self));
        }
        r
    }
}

impl core::str::FromStr for SeatbeltProfile {
    type Err = String;

    fn from_str(s: &str) -> Result<Self, String> {
        SeatbeltProfile::parse(s)
    }
}

/// Parsing a method's canonical rendering gives that method back: the
/// method parser and renderer round-trip.
pub proof fn lemma_method_render_parse_round_trip(m: SandboxMethod)
    ensures
        spec_parse_method(spec_method_name(m)) == Some(m),
{
    reveal_strlit("none");
    reveal_strlit("false");
    reveal_strlit("disabled");
    reveal_strlit("seatbelt");
    reveal_strlit("sandbox-exec");
    reveal_strlit("docker");
    reveal_strlit("podman");
    let name = spec_method_name(m);
    assert(lower(name) =~= name);
    match m {
        SandboxMethod::Disabled => {
        },
        SandboxMethod::Seatbelt => {
            assert(name[0] == 's' && "disabled"@[0] == 'd');
            assert(name != "disabled"@);
        },
        SandboxMethod::Docker => {
        },
        SandboxMethod::Podman => {
            assert(name[0] == 'p' && "docker"@[0] == 'd');
            assert(name != "docker"@);
        },
    }
}

/// Parsing a profile's canonical rendering gives that profile back,
/// whatever the case and hyphen variation the rendering is fed through:
/// the parser depends only on the canonical (lowercased, underscored)
/// form, and on that form it inverts the renderer.
pub proof fn lemma_profile_render_parse_round_trip(p: SeatbeltProfile)
    ensures
        spec_parse_profile(spec_profile_name(p)) == Some(p),
{
    reveal_strlit("permissive-open");
    reveal_strlit("permissive-closed");
    reveal_strlit("restrictive-open");
    reveal_strlit("restrictive-closed");
    reveal_strlit("permissive_open");
    reveal_strlit("permissiveopen");
    reveal_strlit("permissive_closed");
    reveal_strlit("permissiveclosed");
    reveal_strlit("restrictive_open");
    reveal_strlit("restrictiveopen");
    reveal_strlit("restrictive_closed");
    reveal_strlit("restrictiveclosed");
    match p {
        SeatbeltProfile::PermissiveOpen => {
            assert(canon("permissive-open"@) =~= "permissive_open"@);
        },
        SeatbeltProfile::PermissiveClosed => {
            let c = canon("permissive-closed"@);
            assert(c =~= "permissive_closed"@);
            assert(c != "permissive_open"@);
            assert(c[0] == 'p' && "permissiveopen"@[0] == 'p');
            assert(c != "permissiveopen"@);
        },
        SeatbeltProfile::RestrictiveOpen => {
            let c = canon("restrictive-open"@);
            assert(c =~= "restrictive_open"@);
            assert(c != "permissive_open"@ && c != "permissive_closed"@);
            assert(c[0] == 'r' && "permissiveclosed"@[0] == 'p');
            assert(c != "permissiveclosed"@ && c != "permissiveopen"@);
        },
        SeatbeltProfile::RestrictiveClosed => {
            let c = canon("restrictive-closed"@);
            assert(c =~= "restrictive_closed"@);
            assert(c != "permissive_open"@ && c != "permissiveopen"@);
            assert(c != "permissive_closed"@ && c != "permissiveclosed"@);
            assert(c != "restrictive_open"@ && c != "restrictiveopen"@);
        },
    }
}

/// Two strings with the same canonical form parse to the same profile:
/// case and hyphen variation never changes the outcome.
pub proof fn lemma_profile_parse_case_insensitive(s1: Seq<char>, s2: Seq<char>)
    requires
        canon(s1) == canon(s2),
    ensures
        spec_parse_profile(s1) == spec_parse_profile(s2),
{
}

/// The compiled-in default policy: sandboxing off, no method, the most
/// permissive profile.
pub open spec fn spec_default_config() -> SandboxConfig {
    SandboxConfig { enabled: false, method: SandboxMethod::Disabled, profile: SeatbeltProfile::PermissiveOpen }
}

impl SandboxConfig {
    /// A policy is well formed when a disabled method never comes enabled.
    pub open spec fn wf(&self) -> bool {
        self.method is Disabled ==> !self.enabled
    }
}

impl Default for SandboxConfig {
    fn default() -> (r: Self)
        ensures
            r == spec_default_config(),
    {
        SandboxConfig {
            enabled: false,
            method: SandboxMethod::Disabled,
            profile: SeatbeltProfile::PermissiveOpen,
        }
    }
}

} // verus!
