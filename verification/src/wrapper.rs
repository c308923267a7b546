//! Per-command sandbox wrapping: given a resolved policy and the project
//! and home directories, turn a requested shell invocation into a
//! ready-to-spawn command, either direct or confined.
//!
//! Unlike the self-reexec launcher, this path fails loudly: a command the
//! caller believed isolated must never silently run unconfined, so an
//! enabled but unavailable or unimplemented method is a structured error.

use vstd::prelude::*;
use vstd::string::StringExecFns;

use crate::command::{
    append_strings, direct_command, spec_direct_command, CommandSpec, CommandView, ShellConfig,
    ShellView,
};
use crate::policy::{
    spec_method_name, spec_profile_filename, spec_profile_variant_name, SandboxConfig,
    SandboxMethod, SeatbeltProfile,
};

verus! {

/// A terminal failure of a sandbox operation. Each variant names the
/// failing precondition; none is retried.
#[derive(Debug, Clone, PartialEq, Eq)]
pub enum SandboxError {
    /// Sandboxing was requested on a platform without the supported
    /// confinement mechanism; carries the running platform's name.
    PlatformUnsupported(String),
    /// The external sandboxing tool (carried by name) is not discoverable.
    ToolNotFound(String),
    /// The named policy asset (carried by expected path) is not on disk.
    ProfileAssetMissing(String),
    /// The requested method is recognized but has no working backend.
    BackendNotImplemented(SandboxMethod),
    /// The OS failed to launch the external process.
    SpawnFailed(String),
    /// The current executable or working directory could not be resolved.
    ArgumentResolutionFailed(String),
}

/// Mathematical model of a sandbox error.
#[verifier::ext_equal]
pub ghost enum ErrorView {
    PlatformUnsupported(Seq<char>),
    ToolNotFound(Seq<char>),
    ProfileAssetMissing(Seq<char>),
    BackendNotImplemented(SandboxMethod),
    SpawnFailed(Seq<char>),
    ArgumentResolutionFailed(Seq<char>),
}

impl View for SandboxError {
    type V = ErrorView;

    open spec fn view(&self) -> ErrorView {
        match self {
            SandboxError::PlatformUnsupported(os) => ErrorView::PlatformUnsupported(os@),
            SandboxError::ToolNotFound(t) => ErrorView::ToolNotFound(t@),
            SandboxError::ProfileAssetMissing(p) => ErrorView::ProfileAssetMissing(p@),
            SandboxError::BackendNotImplemented(m) => ErrorView::BackendNotImplemented(*m),
            SandboxError::SpawnFailed(d) => ErrorView::SpawnFailed(d@),
            SandboxError::ArgumentResolutionFailed(d) => ErrorView::ArgumentResolutionFailed(d@),
        }
    }
}

/// The descriptive, actionable text of each error.
pub open spec fn spec_error_message(e: ErrorView) -> Seq<char> {
    match e {
        ErrorView::PlatformUnsupported(os) => "Sandboxing is not yet supported on "@ + os
            + ". Sandboxing is currently only available on macOS using Seatbelt. To continue without sandboxing, remove the --sandbox flag or unset GOOSE_SANDBOX."@,
        ErrorView::ToolNotFound(t) => "Required sandboxing tool not found: "@ + t
            + ". Seatbelt sandboxing requires macOS with sandbox-exec available."@,
        ErrorView::ProfileAssetMissing(p) => "Seatbelt profile not found: "@ + p,
        ErrorView::BackendNotImplemented(m) => "Sandboxing method '"@ + spec_method_name(m)
            + "' is not yet implemented. On macOS use --sandbox=seatbelt; to disable, remove the --sandbox flag or unset GOOSE_SANDBOX."@,
        ErrorView::SpawnFailed(d) => "Failed to launch the sandboxing tool: "@ + d,
        ErrorView::ArgumentResolutionFailed(d) => "Failed to resolve launch arguments: "@ + d,
    }
}

impl SandboxError {
    /// Render this error as its descriptive text.
    pub fn message(&self) -> (r: String)
        ensures
            r@ == spec_error_message(self@),
    {
        match self {
            SandboxError::PlatformUnsupported(os) => {
                let mut s = String::from_str("Sandboxing is not yet supported on ");
                s.append(os.as_str());
                s.append(
                    ". Sandboxing is currently only available on macOS using Seatbelt. To continue without sandboxing, remove the --sandbox flag or unset GOOSE_SANDBOX.",
                );
                proof {
                    assert(s@ =~= spec_error_message(self@));
                }
                s
            },
            SandboxError::ToolNotFound(t) => {
                let mut s = String::from_str("Required sandboxing tool not found: ");
                s.append(t.as_str());
                s.append(". Seatbelt sandboxing requires macOS with sandbox-exec available.");
                proof {
                    assert(s@ =~= spec_error_message(self@));
                }
                s
            },
            SandboxError::ProfileAssetMissing(p) => {
                let mut s = String::from_str("Seatbelt profile not found: ");
                s.append(p.as_str());
                s
            },
            SandboxError::BackendNotImplemented(m) => {
                let mut s = String::from_str("Sandboxing method '");
                s.append(m.canonical_name());
                s.append(
                    "' is not yet implemented. On macOS use --sandbox=seatbelt; to disable, remove the --sandbox flag or unset GOOSE_SANDBOX.",
                );
                proof {
                    assert(s@ =~= spec_error_message(self@));
                }
                s
            },
            SandboxError::SpawnFailed(d) => {
                let mut s = String::from_str("Failed to launch the sandboxing tool: ");
                s.append(d.as_str());
                s
            },
            SandboxError::ArgumentResolutionFailed(d) => {
                let mut s = String::from_str("Failed to resolve launch arguments: ");
                s.append(d.as_str());
                s
            },
        }
    }
}

/// View of a wrap result, for stating contracts.
pub open spec fn spec_result_view(r: Result<CommandSpec, SandboxError>) -> Result<
    CommandView,
    ErrorView,
> {
    match r {
        Ok(c) => Ok(c@),
        Err(e) => Err(e@),
    }
}

/// Wraps individual shell commands according to a resolved policy and the
/// directories any confinement must allow-list.
#[derive(Debug)]
pub struct SandboxWrapper {
    pub config: SandboxConfig,
    pub project_dir: String,
    pub home_dir: String,
    /// The running platform's name, used in platform-mismatch errors.
    pub os: String,
    pub seatbelt_supported: bool,
}

/// Mathematical model of a wrapper.
#[verifier::ext_equal]
pub ghost struct WrapperView {
    pub config: SandboxConfig,
    pub project_dir: Seq<char>,
    pub home_dir: Seq<char>,
    pub os: Seq<char>,
    pub seatbelt_supported: bool,
}

impl View for SandboxWrapper {
    type V = WrapperView;

    open spec fn view(&self) -> WrapperView {
        WrapperView {
            config: self.config,
            project_dir: self.project_dir@,
            home_dir: self.home_dir@,
            os: self.os@,
            seatbelt_supported: self.seatbelt_supported,
        }
    }
}

/// The on-disk path of a profile's policy asset, under the project
/// directory by filename convention.
pub open spec fn spec_profile_asset_path(project: Seq<char>, p: SeatbeltProfile) -> Seq<char> {
    project + "/crates/goose-mcp/src/developer/profiles/"@ + spec_profile_filename(p)
}

/// Is a method available on this machine? `Disabled` always is; Seatbelt
/// needs platform support and the discoverable tool; Docker and Podman
/// report tool presence only, even though execution is unimplemented.
pub open spec fn spec_method_available(
    m: SandboxMethod,
    seatbelt_supported: bool,
    tool_found: bool,
) -> bool {
    match m {
        SandboxMethod::Disabled => true,
        SandboxMethod::Seatbelt => seatbelt_supported && tool_found,
        SandboxMethod::Docker => tool_found,
        SandboxMethod::Podman => tool_found,
    }
}

/// Decide availability from the probe outcome.
pub fn method_available(m: SandboxMethod, seatbelt_supported: bool, tool_found: bool) -> (r: bool)
    ensures
        r == spec_method_available(m, seatbelt_supported, tool_found),
{
    match m {
        SandboxMethod::Disabled => true,
        SandboxMethod::Seatbelt => seatbelt_supported && tool_found,
        SandboxMethod::Docker => tool_found,
        SandboxMethod::Podman => tool_found,
    }
}

/// The confined invocation of a command under Seatbelt: the confinement
/// tool, the profile asset by path, the project and home directories as
/// named parameters, then the shell invocation.
pub open spec fn spec_seatbelt_command(
    w: WrapperView,
    shell: ShellView,
    command: Seq<char>,
) -> CommandView {
    CommandView {
        program: "sandbox-exec"@,
        args: seq![
            "-f"@,
            spec_profile_asset_path(w.project_dir, w.config.profile),
            "-D"@,
            "project_dir="@ + w.project_dir,
            "-D"@,
            "home_dir="@ + w.home_dir,
            shell.executable,
        ] + shell.args + seq![command],
        env: Seq::empty(),
    }
}

/// The Seatbelt wrapping decision, as a function of the probe outcomes:
/// platform support, then tool discovery, then the profile asset must all
/// hold, and then the confined command is owed.
pub open spec fn spec_seatbelt_wrap(
    w: WrapperView,
    shell: ShellView,
    command: Seq<char>,
    tool_found: bool,
    asset_present: bool,
) -> Result<CommandView, ErrorView> {
    if !w.seatbelt_supported {
        Err(ErrorView::PlatformUnsupported(w.os))
    } else if !tool_found {
        Err(ErrorView::ToolNotFound("sandbox-exec"@))
    } else if !asset_present {
        Err(ErrorView::ProfileAssetMissing(spec_profile_asset_path(w.project_dir, w.config.profile)))
    } else {
        Ok(spec_seatbelt_command(w, shell, command))
    }
}

/// The whole wrapping decision: a disabled policy (or the disabled
/// method) yields the direct command; Seatbelt goes through its three
/// checks; Docker and Podman always fail as unimplemented.
pub open spec fn spec_wrap_command(
    w: WrapperView,
    shell: ShellView,
    command: Seq<char>,
    tool_found: bool,
    asset_present: bool,
) -> Result<CommandView, ErrorView> {
    if !w.config.enabled || w.config.method is Disabled {
        Ok(spec_direct_command(shell, command))
    } else {
        match w.config.method {
            SandboxMethod::Disabled => Ok(spec_direct_command(shell, command)),
            SandboxMethod::Seatbelt => spec_seatbelt_wrap(w, shell, command, tool_found, asset_present),
            SandboxMethod::Docker => Err(
                ErrorView::BackendNotImplemented(SandboxMethod::Docker),
            ),
            SandboxMethod::Podman => Err(
                ErrorView::BackendNotImplemented(SandboxMethod::Podman),
            ),
        }
    }
}

/// What the status summary says, as a function of the probe outcome.
pub open spec fn spec_status_info(w: WrapperView, tool_found: bool) -> Seq<char> {
    if !w.config.enabled {
        "Sandboxing disabled"@
    } else {
        match w.config.method {
            SandboxMethod::Disabled => "Sandboxing disabled"@,
            SandboxMethod::Seatbelt => if spec_method_available(
                SandboxMethod::Seatbelt,
                w.seatbelt_supported,
                tool_found,
            ) {
                "Seatbelt sandboxing enabled (profile: "@ + spec_profile_variant_name(
                    w.config.profile,
                ) + ")"@
            } else {
                "Seatbelt sandboxing not available on this system"@
            },
            SandboxMethod::Docker => if tool_found {
                "Docker sandboxing enabled (not implemented)"@
            } else {
                "Docker not available"@
            },
            SandboxMethod::Podman => if tool_found {
                "Podman sandboxing enabled (not implemented)"@
            } else {
                "Podman not available"@
            },
        }
    }
}

/// Relies on which::which: reports whether an executable of this name is
/// discoverable on the search path. The answer depends on the machine and
/// environment, so nothing more is assumed of it.
#[verifier::external_body]
fn tool_on_path(name: &str) -> bool {
    which::which(name).is_ok()
}

/// Relies on std::path::Path::exists: reports whether the path points at
/// an existing filesystem entity. The answer depends on what is on disk,
/// so nothing more is assumed of it.
#[verifier::external_body]
fn path_exists(path: &str) -> bool {
    std::path::Path::new(path).exists()
}

impl SandboxWrapper {
    /// Build a wrapper from a resolved policy and the directories the
    /// caller resolved. An enabled policy on a platform without the
    /// supported mechanism is rejected here, early and loudly.
    pub fn new(
        config: SandboxConfig,
        project_dir: String,
        home_dir: String,
        os: String,
        seatbelt_supported: bool,
    ) -> (r: Result<SandboxWrapper, SandboxError>)
        ensures
            config.enabled && !seatbelt_supported ==> (r matches Err(e) && e@
                == ErrorView::PlatformUnsupported(os@)),
            !(config.enabled && !seatbelt_supported) ==> (r matches Ok(w) && w@ == (WrapperView {
                config,
                project_dir: project_dir@,
                home_dir: home_dir@,
                os: os@,
                seatbelt_supported,
            })),
    {
        if config.enabled && !seatbelt_supported {
            return Err(SandboxError::PlatformUnsupported(os));
        }
        Ok(SandboxWrapper { config, project_dir, home_dir, os, seatbelt_supported })
    }

    /// The path where this wrapper's profile asset is expected.
    pub fn seatbelt_profile_path(&self) -> (r: String)
        ensures
            r@ == spec_profile_asset_path(self.project_dir@, self.config.profile),
    {
        let mut p = self.project_dir.clone();
        p.append("/crates/goose-mcp/src/developer/profiles/");
        p.append(self.config.profile.profile_filename());
        proof {
            assert(p@ =~= spec_profile_asset_path(self.project_dir@, self.config.profile));
        }
        p
    }

    /// Resolve the profile asset path and check it is on disk; a missing
    /// asset is reported with the expected path.
    pub fn get_seatbelt_profile_path(&self) -> (r: Result<String, SandboxError>)
        ensures
            r matches Ok(p) ==> p@ == spec_profile_asset_path(
                self.project_dir@,
                self.config.profile,
            ),
            r matches Err(e) ==> e@ == ErrorView::ProfileAssetMissing(
                spec_profile_asset_path(self.project_dir@, self.config.profile),
            ),
    {
        let p = self.seatbelt_profile_path();
        if path_exists(p.as_str()) {
            Ok(p)
        } else {
            Err(SandboxError::ProfileAssetMissing(p))
        }
    }

    /// Build the confined Seatbelt command, with no checks.
    fn seatbelt_command(&self, shell: &ShellConfig, command: &str) -> (c: CommandSpec)
        ensures
            c@ == spec_seatbelt_command(self@, shell@, command@),
    {
        let mut args: Vec<String> = Vec::new();
        args.push(String::from_str("-f"));
        args.push(self.seatbelt_profile_path());
        args.push(String::from_str("-D"));
        let mut pd = String::from_str("project_dir=");
        pd.append(self.project_dir.as_str());
        args.push(pd);
        args.push(String::from_str("-D"));
        let mut hd = String::from_str("home_dir=");
        hd.append(self.home_dir.as_str());
        args.push(hd);
        args.push(shell.executable.clone());
        let ghost head = args.deep_view();
        proof {
            assert(head =~= seq![
                "-f"@,
                spec_profile_asset_path(self.project_dir@, self.config.profile),
                "-D"@,
                "project_dir="@ + self.project_dir@,
                "-D"@,
                "home_dir="@ + self.home_dir@,
                shell@.executable,
            ]);
        }
        append_strings(&mut args, &shell.args);
        let ghost mid = args.deep_view();
        args.push(command.to_owned());
        proof {
            assert forall|j: int| 0 <= j < mid.len() + 1 implies #[trigger] args.deep_view()[j]
                == (mid + seq![command@])[j] by {
            }
            assert(args.deep_view() =~= mid + seq![command@]);
        }
        let c = CommandSpec { program: String::from_str("sandbox-exec"), args, env: Vec::new() };
        proof {
            assert(c@.env =~= Seq::<(Seq<char>, Seq<char>)>::empty());
            assert(c@ =~= spec_seatbelt_command(self@, shell@, command@));
        }
        c
    }

    /// The Seatbelt wrapping decision, for given probe outcomes: the
    /// confined command exactly when the platform is supported, the tool
    /// was found and the asset is present, else the error naming the
    /// first failed check.
    pub fn create_seatbelt_command_with(
        &self,
        shell: &ShellConfig,
        command: &str,
        tool_found: bool,
        asset_present: bool,
    ) -> (r: Result<CommandSpec, SandboxError>)
        ensures
            spec_result_view(r) == spec_seatbelt_wrap(
                self@,
                shell@,
                command@,
                tool_found,
                asset_present,
            ),
    {
        if !self.seatbelt_supported {
            return Err(SandboxError::PlatformUnsupported(self.os.clone()));
        }
        if !tool_found {
            return Err(SandboxError::ToolNotFound(String::from_str("sandbox-exec")));
        }
        if !asset_present {
            return Err(SandboxError::ProfileAssetMissing(self.seatbelt_profile_path()));
        }
        Ok(self.seatbelt_command(shell, command))
    }

    /// Probe the machine and build the confined Seatbelt command, or the
    /// error naming the first failed check.
    pub fn create_seatbelt_command(&self, shell: &ShellConfig, command: &str) -> (r: Result<
        CommandSpec,
        SandboxError,
    >)
        ensures
            exists|tool_found: bool, asset_present: bool|
                spec_result_view(r) == spec_seatbelt_wrap(
                    self@,
                    shell@,
                    command@,
                    tool_found,
                    asset_present,
                ),
            !self.seatbelt_supported ==> (r matches Err(e) && e@ == ErrorView::PlatformUnsupported(
                self.os@,
            )),
    {
        if !self.seatbelt_supported {
            let r = Err(SandboxError::PlatformUnsupported(self.os.clone()));
            proof {
                assert(spec_result_view(r) == spec_seatbelt_wrap(
                    self@,
                    shell@,
                    command@,
                    false,
                    false,
                ));
            }
            return r;
        }
        let tool_found = tool_on_path("sandbox-exec");
        let asset_present = path_exists(self.seatbelt_profile_path().as_str());
        let r = self.create_seatbelt_command_with(shell, command, tool_found, asset_present);
        proof {
            assert(spec_result_view(r) == spec_seatbelt_wrap(
                self@,
                shell@,
                command@,
                tool_found,
                asset_present,
            ));
        }
        r
    }

    /// The whole wrapping decision, for given probe outcomes.
    pub fn wrap_command_with(
        &self,
        shell: &ShellConfig,
        command: &str,
        tool_found: bool,
        asset_present: bool,
    ) -> (r: Result<CommandSpec, SandboxError>)
        ensures
            spec_result_view(r) == spec_wrap_command(
                self@,
                shell@,
                command@,
                tool_found,
                asset_present,
            ),
    {
        if !self.config.enabled || matches!(self.config.method, SandboxMethod::Disabled) {
            return Ok(direct_command(shell, command));
        }
        match self.config.method {
            SandboxMethod::Disabled => Ok(direct_command(shell, command)),
            SandboxMethod::Seatbelt => self.create_seatbelt_command_with(
                shell,
                command,
                tool_found,
                asset_present,
            ),
            SandboxMethod::Docker => Err(
                SandboxError::BackendNotImplemented(SandboxMethod::Docker),
            ),
            SandboxMethod::Podman => Err(
                SandboxError::BackendNotImplemented(SandboxMethod::Podman),
            ),
        }
    }

    /// Wrap a requested shell invocation according to the policy, probing
    /// the machine where the Seatbelt path needs it. Whatever the probes
    /// answer, the result is the wrapping decision for some probe
    /// outcome; the probe-independent cases are pinned exactly.
    pub fn wrap_command(&self, shell: &ShellConfig, command: &str) -> (r: Result<
        CommandSpec,
        SandboxError,
    >)
        ensures
            exists|tool_found: bool, asset_present: bool|
                spec_result_view(r) == spec_wrap_command(
                    self@,
                    shell@,
                    command@,
                    tool_found,
                    asset_present,
                ),
            (!self.config.enabled || self.config.method is Disabled) ==> (r matches Ok(c) && c@
                == spec_direct_command(shell@, command@)),
            self.config.enabled && self.config.method is Docker ==> (r matches Err(e) && e@
                == ErrorView::BackendNotImplemented(SandboxMethod::Docker)),
            self.config.enabled && self.config.method is Podman ==> (r matches Err(e) && e@
                == ErrorView::BackendNotImplemented(SandboxMethod::Podman)),
            self.config.enabled && self.config.method is Seatbelt && !self.seatbelt_supported ==> (
            r matches Err(e) && e@ == ErrorView::PlatformUnsupported(self.os@)),
    {
        if self.config.enabled && matches!(self.config.method, SandboxMethod::Seatbelt)
            && self.seatbelt_supported {
            let tool_found = tool_on_path("sandbox-exec");
            let asset_present = path_exists(self.seatbelt_profile_path().as_str());
            let r = self.wrap_command_with(shell, command, tool_found, asset_present);
            proof {
                assert(spec_result_view(r) == spec_wrap_command(
                    self@,
                    shell@,
                    command@,
                    tool_found,
                    asset_present,
                ));
            }
            r
        } else {
            let r = self.wrap_command_with(shell, command, false, false);
            proof {
                assert(spec_result_view(r) == spec_wrap_command(
                    self@,
                    shell@,
                    command@,
                    false,
                    false,
                ));
            }
            r
        }
    }

    /// Is the configured method available on this machine? Probes for the
    /// method's external tool; the answer is the availability rule for
    /// whatever the probe found.
    pub fn is_sandboxing_available(&self) -> (r: bool)
        ensures
            exists|tool_found: bool|
                r == spec_method_available(
                    self.config.method,
                    self.seatbelt_supported,
                    tool_found,
                ),
            self.config.method is Disabled ==> r,
            self.config.method is Seatbelt && !self.seatbelt_supported ==> !r,
    {
        let tool_found = match self.config.method {
            SandboxMethod::Disabled => false,
            SandboxMethod::Seatbelt => tool_on_path("sandbox-exec"),
            SandboxMethod::Docker => tool_on_path("docker"),
            SandboxMethod::Podman => tool_on_path("podman"),
        };
        let r = method_available(self.config.method, self.seatbelt_supported, tool_found);
        proof {
            assert(r == spec_method_available(
                self.config.method,
                self.seatbelt_supported,
                tool_found,
            ));
        }
        r
    }

    /// The status summary, for a given probe outcome.
    pub fn status_info_with(&self, tool_found: bool) -> (r: String)
        ensures
            r@ == spec_status_info(self@, tool_found),
    {
        if !self.config.enabled {
            return String::from_str("Sandboxing disabled");
        }
        match self.config.method {
            SandboxMethod::Disabled => String::from_str("Sandboxing disabled"),
            SandboxMethod::Seatbelt => {
                if self.seatbelt_supported && tool_found {
                    let mut s = String::from_str("Seatbelt sandboxing enabled (profile: ");
                    s.append(self.config.profile.variant_name());
                    s.append(")");
                    proof {
                        assert(s@ =~= spec_status_info(self@, tool_found));
                    }
                    s
                } else {
                    String::from_str("Seatbelt sandboxing not available on this system")
                }
            },
            SandboxMethod::Docker => {
                if tool_found {
                    String::from_str("Docker sandboxing enabled (not implemented)")
                } else {
                    String::from_str("Docker not available")
                }
            },
            SandboxMethod::Podman => {
                if tool_found {
                    String::from_str("Podman sandboxing enabled (not implemented)")
                } else {
                    String::from_str("Podman not available")
                }
            },
        }
    }

    /// A short human-readable summary of the sandboxing state: disabled,
    /// enabled and available (naming the profile), or enabled but not
    /// available.
    pub fn get_status_info(&self) -> (r: String)
        ensures
            exists|tool_found: bool| r@ == spec_status_info(self@, tool_found),
            !self.config.enabled ==> r@ == "Sandboxing disabled"@,
            self.config.method is Disabled ==> r@ == "Sandboxing disabled"@,
    {
        if !self.config.enabled {
            let r = String::from_str("Sandboxing disabled");
            proof {
                assert(r@ == spec_status_info(self@, false));
            }
            return r;
        }
        let tool_found = match self.config.method {
            SandboxMethod::Disabled => false,
            SandboxMethod::Seatbelt => tool_on_path("sandbox-exec"),
            SandboxMethod::Docker => tool_on_path("docker"),
            SandboxMethod::Podman => tool_on_path("podman"),
        };
        let r = self.status_info_with(tool_found);
        proof {
            assert(r@ == spec_status_info(self@, tool_found));
        }
        r
    }
}

} // verus!
