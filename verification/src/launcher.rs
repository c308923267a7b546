//! Planning of the self-reexec launch: decide, from the sentinel marker,
//! the requested method and profile, and the original argument vector,
//! whether the host process should be relaunched under the confinement
//! tool, and with exactly which command line.
//!
//! The decision is pure: the caller reads the environment and the argument
//! vector, hands them in, performs the returned plan (spawn and exit with
//! the child's code, print the warning, or just continue), and so owns
//! every side effect.

use vstd::prelude::*;
use vstd::string::{StrSliceExecFns, StringExecFns};

use crate::ascii::str_eq;
use crate::command::{CommandSpec, CommandView};

verus! {

/// Is this argument the sandbox-selection flag?
pub open spec fn spec_is_sandbox_flag(a: Seq<char>) -> bool {
    a == "-s"@ || a == "--sandbox"@
}

/// Does this argument look like a flag rather than a value?
pub open spec fn spec_starts_with_dash(a: Seq<char>) -> bool {
    a.len() > 0 && a[0] == '-'
}

/// Remove every occurrence of the sandbox-selection flag from an argument
/// vector, together with its value: the argument right after a flag is
/// taken as its value and removed too, unless it starts with `-` (an
/// unrelated flag that merely follows is kept).
pub open spec fn spec_filter_args(args: Seq<Seq<char>>) -> Seq<Seq<char>>
    decreases args.len(),
{
    if args.len() == 0 {
        Seq::empty()
    } else if spec_is_sandbox_flag(args[0]) {
        if args.len() >= 2 && !spec_starts_with_dash(args[1]) {
            spec_filter_args(args.skip(2))
        } else {
            spec_filter_args(args.skip(1))
        }
    } else {
        seq![args[0]] + spec_filter_args(args.skip(1))
    }
}

/// Executable test for the sandbox-selection flag.
pub fn is_sandbox_flag(a: &str) -> (r: bool)
    ensures
        r == spec_is_sandbox_flag(a@),
{
    str_eq(a, "-s") || str_eq(a, "--sandbox")
}

/// Executable test for a leading dash.
pub fn starts_with_dash(a: &str) -> (r: bool)
    ensures
        r == spec_starts_with_dash(a@),
{
    if a.unicode_len() == 0 {
        false
    } else {
        a.get_char(0) == '-'
    }
}

/// Strip the sandbox-selection flag (and its value) from an argument
/// vector, so a relaunched process does not try to re-enter sandboxing.
pub fn filter_sandbox_args(args: &Vec<String>) -> (r: Vec<String>)
    ensures
        r.deep_view() == spec_filter_args(args.deep_view()),
{
    let ghost full = args.deep_view();
    let mut out: Vec<String> = Vec::new();
    let mut i: usize = 0;
    proof {
        assert(full.skip(0) =~= full);
        assert(out.deep_view() =~= Seq::<Seq<char>>::empty());
        assert(Seq::<Seq<char>>::empty() + spec_filter_args(full) =~= spec_filter_args(full));
    }
    while i < args.len()
        invariant
            i <= args.len(),
            full == args.deep_view(),
            spec_filter_args(full) == out.deep_view() + spec_filter_args(full.skip(i as int)),
        decreases args.len() - i,
    {
        proof {
            assert(full.skip(i as int)[0] == full[i as int]);
            assert(full[i as int] == args@[i as int]@);
        }
        if is_sandbox_flag(args[i].as_str()) {
            if i + 1 < args.len() && !starts_with_dash(args[i + 1].as_str()) {
                proof {
                    assert(full.skip(i as int)[1] == full[i as int + 1]);
                    assert(full[i as int + 1] == args@[i as int + 1]@);
                    assert(full.skip(i as int).skip(2) =~= full.skip(i as int + 2));
                }
                i += 2;
            } else {
                proof {
                    if i + 1 < args.len() {
                        assert(full.skip(i as int)[1] == full[i as int + 1]);
                        assert(full[i as int + 1] == args@[i as int + 1]@);
                    }
                    assert(full.skip(i as int).skip(1) =~= full.skip(i as int + 1));
                }
                i += 1;
            }
        } else {
            let ghost pre = out.deep_view();
            out.push(args[i].clone());
            proof {
                assert forall|j: int| 0 <= j < pre.len() + 1 implies #[trigger] out.deep_view()[j]
                    == (pre + seq![full[i as int]])[j] by {
                }
                assert(out.deep_view() =~= pre + seq![full[i as int]]);
                assert(full.skip(i as int).skip(1) =~= full.skip(i as int + 1));
                assert(spec_filter_args(full.skip(i as int)) == seq![full[i as int]]
                    + spec_filter_args(full.skip(i as int + 1)));
                assert(pre + (seq![full[i as int]] + spec_filter_args(full.skip(i as int + 1)))
                    =~= (pre + seq![full[i as int]]) + spec_filter_args(full.skip(i as int + 1)));
            }
            i += 1;
        }
    }
    proof {
        assert(full.skip(args.len() as int) =~= Seq::<Seq<char>>::empty());
        assert(out.deep_view() + Seq::<Seq<char>>::empty() =~= out.deep_view());
    }
    out
}

/// An argument vector without the sandbox flag passes through the filter
/// unchanged.
pub proof fn lemma_filter_without_flag_is_identity(args: Seq<Seq<char>>)
    requires
        forall|i: int| 0 <= i < args.len() ==> !spec_is_sandbox_flag(#[trigger] args[i]),
    ensures
        spec_filter_args(args) == args,
    decreases args.len(),
{
    if args.len() == 0 {
        assert(spec_filter_args(args) =~= args);
    } else {
        assert forall|i: int| 0 <= i < args.skip(1).len() implies !spec_is_sandbox_flag(
            #[trigger] args.skip(1)[i],
        ) by {
            assert(args.skip(1)[i] == args[i + 1]);
        }
        lemma_filter_without_flag_is_identity(args.skip(1));
        assert(seq![args[0]] + args.skip(1) =~= args);
    }
}

/// The filtered vector never contains the sandbox flag itself.
pub proof fn lemma_filter_result_flag_free(args: Seq<Seq<char>>)
    ensures
        forall|i: int| 0 <= i < spec_filter_args(args).len() ==> !spec_is_sandbox_flag(
            #[trigger] spec_filter_args(args)[i],
        ),
    decreases args.len(),
{
    if args.len() == 0 {
    } else if spec_is_sandbox_flag(args[0]) {
        if args.len() >= 2 && !spec_starts_with_dash(args[1]) {
            lemma_filter_result_flag_free(args.skip(2));
            assert(spec_filter_args(args) == spec_filter_args(args.skip(2)));
            assert forall|i: int| 0 <= i < spec_filter_args(args).len() implies
                !spec_is_sandbox_flag(#[trigger] spec_filter_args(args)[i]) by {
                assert(spec_filter_args(args)[i] == spec_filter_args(args.skip(2))[i]);
            }
        } else {
            lemma_filter_result_flag_free(args.skip(1));
            assert(spec_filter_args(args) == spec_filter_args(args.skip(1)));
            assert forall|i: int| 0 <= i < spec_filter_args(args).len() implies
                !spec_is_sandbox_flag(#[trigger] spec_filter_args(args)[i]) by {
                assert(spec_filter_args(args)[i] == spec_filter_args(args.skip(1))[i]);
            }
        }
    } else {
        lemma_filter_result_flag_free(args.skip(1));
        assert forall|i: int| 0 <= i < spec_filter_args(args).len() implies !spec_is_sandbox_flag(
            #[trigger] spec_filter_args(args)[i],
        ) by {
            if i == 0 {
                assert(spec_filter_args(args)[0] == args[0]);
            } else {
                assert(spec_filter_args(args)[i] == spec_filter_args(args.skip(1))[i - 1]);
            }
        }
    }
}

/// Where the sandbox flag stands followed by a plain value, the filter
/// removes exactly that pair: with no flag before them, the arguments
/// before and after the pair pass through unchanged.
pub proof fn lemma_filter_removes_flag_and_value(
    pre: Seq<Seq<char>>,
    flag: Seq<char>,
    value: Seq<char>,
    post: Seq<Seq<char>>,
)
    requires
        spec_is_sandbox_flag(flag),
        !spec_starts_with_dash(value),
        forall|i: int| 0 <= i < pre.len() ==> !spec_is_sandbox_flag(#[trigger] pre[i]),
    ensures
        spec_filter_args(pre + seq![flag, value] + post) == pre + spec_filter_args(post),
    decreases pre.len(),
{
    let s = pre + seq![flag, value] + post;
    if pre.len() == 0 {
        assert(s[0] == flag);
        assert(s[1] == value);
        assert(s.skip(2) =~= post);
        assert(pre + spec_filter_args(post) =~= spec_filter_args(post));
    } else {
        assert(s[0] == pre[0]);
        assert(s.skip(1) =~= pre.skip(1) + seq![flag, value] + post);
        assert forall|i: int| 0 <= i < pre.skip(1).len() implies !spec_is_sandbox_flag(
            #[trigger] pre.skip(1)[i],
        ) by {
            assert(pre.skip(1)[i] == pre[i + 1]);
        }
        lemma_filter_removes_flag_and_value(pre.skip(1), flag, value, post);
        assert(seq![pre[0]] + (pre.skip(1) + spec_filter_args(post)) =~= pre + spec_filter_args(
            post,
        ));
    }
}

/// The user's state directory under a home directory.
pub open spec fn spec_state_dir(home: Seq<char>) -> Seq<char> {
    home + "/.local/state/goose"@
}

/// The user's data directory under a home directory.
pub open spec fn spec_data_dir(home: Seq<char>) -> Seq<char> {
    home + "/.local/share/goose"@
}

/// Inline policy text of the permissive-open tier: allow everything, deny
/// all file writes, then re-allow writes under the project directory and
/// the user's state and data directories.
pub open spec fn spec_permissive_open_policy(project: Seq<char>, home: Seq<char>) -> Seq<char> {
    "(version 1)\n(allow default)\n(deny file-write*)\n(allow file-write* (subpath \""@ + project
        + "\"))\n(allow file-write* (subpath \""@ + spec_state_dir(home)
        + "\"))\n(allow file-write* (subpath \""@ + spec_data_dir(home) + "\"))\n"@
}

/// Inline policy text of the permissive-closed tier: deny by default but
/// keep outbound network, file reads, writes under the three allowed
/// directories, and process spawning.
pub open spec fn spec_permissive_closed_policy(project: Seq<char>, home: Seq<char>) -> Seq<char> {
    "(version 1)\n(allow default (network*))\n(deny default (with message \"denied\"))\n(allow file-read*)\n(allow file-write* (subpath \""@
        + project + "\"))\n(allow file-write* (subpath \""@ + spec_state_dir(home)
        + "\"))\n(allow file-write* (subpath \""@ + spec_data_dir(home)
        + "\"))\n(allow process*)\n"@
}

/// Build the permissive-open inline policy text.
pub fn permissive_open_policy(project_dir: &str, home_dir: &str) -> (r: String)
    ensures
        r@ == spec_permissive_open_policy(project_dir@, home_dir@),
{
    let mut s = String::from_str(
        "(version 1)\n(allow default)\n(deny file-write*)\n(allow file-write* (subpath \"",
    );
    s.append(project_dir);
    s.append("\"))\n(allow file-write* (subpath \"");
    s.append(home_dir);
    s.append("/.local/state/goose");
    s.append("\"))\n(allow file-write* (subpath \"");
    s.append(home_dir);
    s.append("/.local/share/goose");
    s.append("\"))\n");
    proof {
        assert(s@ =~= spec_permissive_open_policy(project_dir@, home_dir@));
    }
    s
}

/// Build the permissive-closed inline policy text.
pub fn permissive_closed_policy(project_dir: &str, home_dir: &str) -> (r: String)
    ensures
        r@ == spec_permissive_closed_policy(project_dir@, home_dir@),
{
    let mut s = String::from_str(
        "(version 1)\n(allow default (network*))\n(deny default (with message \"denied\"))\n(allow file-read*)\n(allow file-write* (subpath \"",
    );
    s.append(project_dir);
    s.append("\"))\n(allow file-write* (subpath \"");
    s.append(home_dir);
    s.append("/.local/state/goose");
    s.append("\"))\n(allow file-write* (subpath \"");
    s.append(home_dir);
    s.append("/.local/share/goose");
    s.append("\"))\n(allow process*)\n");
    proof {
        assert(s@ =~= spec_permissive_closed_policy(project_dir@, home_dir@));
    }
    s
}

/// What the self-reexec launcher decides to do. The caller carries the
/// decision out: it spawns a `Relaunch` command, waits for it and exits
/// with the child's code; it prints a warning and goes on unconfined for
/// `ContinueWithWarning`; and it just goes on for `Continue`.
#[derive(Debug)]
pub enum LaunchPlan {
    Continue,
    ContinueWithWarning(String),
    Relaunch(CommandSpec),
}

/// Mathematical model of a launch decision.
#[verifier::ext_equal]
pub ghost enum PlanView {
    Continue,
    Warn(Seq<char>),
    Relaunch(CommandView),
}

impl View for LaunchPlan {
    type V = PlanView;

    open spec fn view(&self) -> PlanView {
        match self {
            LaunchPlan::Continue => PlanView::Continue,
            LaunchPlan::ContinueWithWarning(w) => PlanView::Warn(w@),
            LaunchPlan::Relaunch(c) => PlanView::Relaunch(c@),
        }
    }
}

/// The method string the launcher acts on: the CLI flag value wins over
/// the environment value; with neither, the empty string (no request).
pub open spec fn spec_requested_method(
    method_flag: Option<Seq<char>>,
    env_sandbox: Option<Seq<char>>,
) -> Seq<char> {
    if method_flag is Some {
        method_flag->0
    } else if env_sandbox is Some {
        env_sandbox->0
    } else {
        Seq::empty()
    }
}

/// The relaunch command of the Seatbelt path: the confinement tool, an
/// inline policy (`-p`) for the two permissive profile names or a named
/// built-in profile (`-n`) for anything else, the current executable, the
/// filtered argument vector, and the sentinel marker in the child's
/// environment.
pub open spec fn spec_seatbelt_relaunch(
    env_profile: Option<Seq<char>>,
    exe: Seq<char>,
    argv_tail: Seq<Seq<char>>,
    project: Seq<char>,
    home: Seq<char>,
) -> CommandView {
    let filtered = spec_filter_args(argv_tail);
    let profile = if env_profile is Some {
        env_profile->0
    } else {
        "permissive-open"@
    };
    let head = if profile == "permissive-open"@ {
        seq!["-p"@, spec_permissive_open_policy(project, home)]
    } else if profile == "permissive-closed"@ {
        seq!["-p"@, spec_permissive_closed_policy(project, home)]
    } else {
        seq!["-n"@, profile]
    };
    CommandView {
        program: "sandbox-exec"@,
        args: head + seq![exe] + filtered,
        env: seq![("GOOSE_SANDBOX_ACTIVE"@, "1"@)],
    }
}

/// The whole launch decision, from the raw inputs the caller gathered.
pub open spec fn spec_plan(
    sentinel_present: bool,
    method_flag: Option<Seq<char>>,
    env_sandbox: Option<Seq<char>>,
    env_profile: Option<Seq<char>>,
    exe: Seq<char>,
    argv_tail: Seq<Seq<char>>,
    project: Seq<char>,
    home: Seq<char>,
    seatbelt_supported: bool,
) -> PlanView {
    if sentinel_present {
        PlanView::Continue
    } else {
        let method = spec_requested_method(method_flag, env_sandbox);
        if method.len() == 0 {
            PlanView::Continue
        } else if method == "seatbelt"@ || method == "sandbox-exec"@ || method == "true"@
            || method == "1"@ {
            if seatbelt_supported {
                PlanView::Relaunch(
                    spec_seatbelt_relaunch(env_profile, exe, argv_tail, project, home),
                )
            } else {
                PlanView::Warn(
                    "Seatbelt sandboxing is only supported on macOS - proceeding without sandbox"@,
                )
            }
        } else if method == "docker"@ || method == "podman"@ {
            PlanView::Warn(
                "Docker/Podman sandboxing is not yet implemented - proceeding without sandbox"@,
            )
        } else {
            PlanView::Warn(
                "Unsupported sandbox method '"@ + method + "'. Proceeding without sandbox."@,
            )
        }
    }
}

/// Build the Seatbelt relaunch command.
pub fn seatbelt_relaunch_command(
    env_profile: Option<String>,
    exe: String,
    argv_tail: &Vec<String>,
    project_dir: &str,
    home_dir: &str,
) -> (c: CommandSpec)
    ensures
        c@ == spec_seatbelt_relaunch(
            env_profile.deep_view(),
            exe@,
            argv_tail.deep_view(),
            project_dir@,
            home_dir@,
        ),
{
    let ghost profile_spec = if env_profile.deep_view() is Some {
        env_profile.deep_view()->0
    } else {
        "permissive-open"@
    };
    let ghost exe_spec = exe@;
    let filtered = filter_sandbox_args(argv_tail);
    let profile: String = match env_profile {
        Some(p) => p,
        None => String::from_str("permissive-open"),
    };
    let mut args: Vec<String> = Vec::new();
    if str_eq(profile.as_str(), "permissive-open") {
        args.push(String::from_str("-p"));
        args.push(permissive_open_policy(project_dir, home_dir));
        proof {
            assert(args.deep_view() =~= seq![
                "-p"@,
                spec_permissive_open_policy(project_dir@, home_dir@),
            ]);
        }
    } else if str_eq(profile.as_str(), "permissive-closed") {
        args.push(String::from_str("-p"));
        args.push(permissive_closed_policy(project_dir, home_dir));
        proof {
            assert(args.deep_view() =~= seq![
                "-p"@,
                spec_permissive_closed_policy(project_dir@, home_dir@),
            ]);
        }
    } else {
        args.push(String::from_str("-n"));
        args.push(profile);
        proof {
            assert(args.deep_view() =~= seq!["-n"@, profile_spec]);
        }
    }
    let ghost head = args.deep_view();
    args.push(exe);
    proof {
        assert forall|j: int| 0 <= j < head.len() + 1 implies #[trigger] args.deep_view()[j]
            == (head + seq![exe_spec])[j] by {
        }
        assert(args.deep_view() =~= head + seq![exe_spec]);
    }
    crate::command::append_strings(&mut args, &filtered);
    let mut env: Vec<(String, String)> = Vec::new();
    env.push((String::from_str("GOOSE_SANDBOX_ACTIVE"), String::from_str("1")));
    let c = CommandSpec { program: String::from_str("sandbox-exec"), args, env };
    proof {
        let sv = spec_seatbelt_relaunch(
            env_profile.deep_view(),
            exe_spec,
            argv_tail.deep_view(),
            project_dir@,
            home_dir@,
        );
        assert(c@.args == (head + seq![exe_spec]) + filtered.deep_view());
        assert(c@.args == sv.args);
        assert(c@.env =~= sv.env);
        assert(c@ =~= sv);
    }
    c
}

/// Decide what the self-reexec launcher must do. Pure: the caller reads
/// the sentinel, the CLI flag, the environment and the argument vector,
/// and performs the returned plan.
pub fn plan_sandbox_entry(
    sentinel_present: bool,
    method_flag: Option<String>,
    env_sandbox: Option<String>,
    env_profile: Option<String>,
    exe: String,
    argv_tail: &Vec<String>,
    project_dir: &str,
    home_dir: &str,
    seatbelt_supported: bool,
) -> (p: LaunchPlan)
    ensures
        p@ == spec_plan(
            sentinel_present,
            method_flag.deep_view(),
            env_sandbox.deep_view(),
            env_profile.deep_view(),
            exe@,
            argv_tail.deep_view(),
            project_dir@,
            home_dir@,
            seatbelt_supported,
        ),
{
    if sentinel_present {
        return LaunchPlan::Continue;
    }
    let method: String = match method_flag {
        Some(m) => m,
        None => match env_sandbox {
            Some(m) => m,
            None => String::new(),
        },
    };
    if method.as_str().is_empty() {
        return LaunchPlan::Continue;
    }
    if str_eq(method.as_str(), "seatbelt") || str_eq(method.as_str(), "sandbox-exec") || str_eq(
        method.as_str(),
        "true",
    ) || str_eq(method.as_str(), "1") {
        if seatbelt_supported {
            LaunchPlan::Relaunch(
                seatbelt_relaunch_command(env_profile, exe, argv_tail, project_dir, home_dir),
            )
        } else {
            LaunchPlan::ContinueWithWarning(
                String::from_str(
                    "Seatbelt sandboxing is only supported on macOS - proceeding without sandbox",
                ),
            )
        }
    } else if str_eq(method.as_str(), "docker") || str_eq(method.as_str(), "podman") {
        LaunchPlan::ContinueWithWarning(
            String::from_str(
                "Docker/Podman sandboxing is not yet implemented - proceeding without sandbox",
            ),
        )
    } else {
        let mut w = String::from_str("Unsupported sandbox method '");
        w.append(method.as_str());
        w.append("'. Proceeding without sandbox.");
        LaunchPlan::ContinueWithWarning(w)
    }
}

/// With the sentinel environment marker present the launcher is a no-op,
/// whatever method, profile or arguments were requested: the sole
/// recursion guard.
pub proof fn lemma_sentinel_is_noop(
    method_flag: Option<Seq<char>>,
    env_sandbox: Option<Seq<char>>,
    env_profile: Option<Seq<char>>,
    exe: Seq<char>,
    argv_tail: Seq<Seq<char>>,
    project: Seq<char>,
    home: Seq<char>,
    seatbelt_supported: bool,
)
    ensures
        spec_plan(
            true,
            method_flag,
            env_sandbox,
            env_profile,
            exe,
            argv_tail,
            project,
            home,
            seatbelt_supported,
        ) == PlanView::Continue,
{
}

} // verus!
