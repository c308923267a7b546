//! A ready-to-spawn command description: program, argument vector, and
//! extra environment entries for the child. The caller that owns process
//! spawning turns this plain value into an OS command.

use vstd::prelude::*;

verus! {

/// The shell an individual command runs under: an executable name and its
/// fixed leading arguments, as supplied by the command-execution subsystem.
#[derive(Debug, Clone)]
pub struct ShellConfig {
    pub executable: String,
    pub args: Vec<String>,
}

/// Mathematical model of a shell configuration.
#[verifier::ext_equal]
pub ghost struct ShellView {
    pub executable: Seq<char>,
    pub args: Seq<Seq<char>>,
}

impl View for ShellConfig {
    type V = ShellView;

    open spec fn view(&self) -> ShellView {
        ShellView { executable: self.executable@, args: self.args.deep_view() }
    }
}

/// A command ready to be spawned: the program, its argument vector, and
/// environment variables to set in the child.
#[derive(Debug, Clone)]
pub struct CommandSpec {
    pub program: String,
    pub args: Vec<String>,
    pub env: Vec<(String, String)>,
}

/// Mathematical model of a command description.
#[verifier::ext_equal]
pub ghost struct CommandView {
    pub program: Seq<char>,
    pub args: Seq<Seq<char>>,
    pub env: Seq<(Seq<char>, Seq<char>)>,
}

impl View for CommandSpec {
    type V = CommandView;

    open spec fn view(&self) -> CommandView {
        CommandView {
            program: self.program@,
            args: self.args.deep_view(),
            env: self.env.deep_view(),
        }
    }
}

/// The direct, unwrapped invocation of `command` under a shell: the shell
/// executable, its fixed arguments, then the command string, with no extra
/// environment.
pub open spec fn spec_direct_command(shell: ShellView, command: Seq<char>) -> CommandView {
    CommandView {
        program: shell.executable,
        args: shell.args + seq![command],
        env: Seq::empty(),
    }
}

/// Clone a vector of strings, keeping its contents.
pub fn clone_strings(v: &Vec<String>) -> (r: Vec<String>)
    ensures
        r.deep_view() == v.deep_view(),
{
    let mut r: Vec<String> = Vec::new();
    let mut i: usize = 0;
    while i < v.len()
        invariant
            i <= v.len(),
            r@.len() == i,
            forall|j: int| 0 <= j < i ==> #[trigger] r@[j]@ == v@[j]@,
        decreases v.len() - i,
    {
        r.push(v[i].clone());
        i += 1;
    }
    proof {
        assert forall|j: int| 0 <= j < v@.len() implies #[trigger] r.deep_view()[j]
            == v.deep_view()[j] by {
            assert(r@[j]@ == v@[j]@);
        }
        assert(r.deep_view() =~= v.deep_view());
    }
    r
}

/// Append clones of the strings of `src` to `dst`.
pub fn append_strings(dst: &mut Vec<String>, src: &Vec<String>)
    ensures
        final(dst).deep_view() == old(dst).deep_view() + src.deep_view(),
{
    let ghost base = dst.deep_view();
    let mut k: usize = 0;
    while k < src.len()
        invariant
            k <= src.len(),
            dst@.len() == base.len() + k,
            forall|j: int| 0 <= j < base.len() ==> #[trigger] dst@[j]@ == base[j],
            forall|j: int| 0 <= j < k ==> #[trigger] dst@[base.len() + j]@ == src@[j]@,
        decreases src.len() - k,
    {
        dst.push(src[k].clone());
        k += 1;
    }
    proof {
        assert forall|j: int| 0 <= j < dst@.len() implies #[trigger] dst.deep_view()[j] == (base
            + src.deep_view())[j] by {
            if j >= base.len() {
                assert(dst@[base.len() + (j - base.len())]@ == src@[j - base.len()]@);
            }
        }
        assert(dst.deep_view() =~= base + src.deep_view());
    }
}

/// Build the direct invocation of `command` under `shell`.
pub fn direct_command(shell: &ShellConfig, command: &str) -> (r: CommandSpec)
    ensures
        r@ == spec_direct_command(shell@, command@),
{
    let mut args = clone_strings(&shell.args);
    args.push(command.to_owned());
    let r = CommandSpec { program: shell.executable.clone(), args, env: Vec::new() };
    proof {
        assert(r@.args =~= shell@.args + seq![command@]);
        assert(r@.env =~= Seq::<(Seq<char>, Seq<char>)>::empty());
        assert(r@ =~= spec_direct_command(shell@, command@));
    }
    r
}

} // verus!
