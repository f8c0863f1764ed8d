//! Shells the terminal runs commands in, and what a running command sends back.
use vstd::prelude::*;
use crate::text::concat;

verus! {

/// A request to the shell: run a command line, stop a session, or send it input.
#[derive(Debug)]
pub enum ShellMessage {
    Execute(String),
    Kill(u128),
    Input(u128, String),
}

/// A line a running command printed.
#[derive(Debug)]
pub enum ShellOutput {
    Stdout(String),
    Stderr(String),
}

/// The shells on offer.
#[derive(Debug, Clone, Copy, PartialEq, Eq, Structural)]
pub enum ShellType {
    Bash,
    Zsh,
    Fish,
    PowerShell,
}

/// The program that starts a shell.
pub open spec fn program_of(t: ShellType) -> Seq<char> {
    match t {
        ShellType::Bash => "bash"@,
        ShellType::Zsh => "zsh"@,
        ShellType::Fish => "fish"@,
        ShellType::PowerShell => "pwsh"@,
    }
}

impl ShellType {
    /// The program that starts this shell.
    pub fn get_shell_command(&self) -> (r: &'static str)
        ensures
            r@ == program_of(*self),
    {
        match self {
            ShellType::Bash => "bash",
            ShellType::Zsh => "zsh",
            ShellType::Fish => "fish",
            ShellType::PowerShell => "pwsh",
        }
    }
}

impl Default for ShellType {
    /// Zsh.
    fn default() -> (r: Self)
        ensures
            r == ShellType::Zsh,
    {
        ShellType::Zsh
    }
}

/// What a command gave back: every line it printed on standard output, then every line
/// on standard error, each as read (with its line ending).
pub fn collect_output(stdout_lines: &Vec<String>, stderr_lines: &Vec<String>) -> (r: String)
    ensures
        r@ == (stdout_lines@ + stderr_lines@).map_values(|s: String| s@).flatten(),
{
    let ghost all = stdout_lines@ + stderr_lines@;
    let mut out = String::new();
    let mut i: usize = 0;
    while i < stdout_lines.len()
        invariant
            i <= stdout_lines@.len(),
            all == stdout_lines@ + stderr_lines@,
            out@ == all.take(i as int).map_values(|s: String| s@).flatten(),
        decreases stdout_lines.len() - i,
    {
        out.append(stdout_lines[i].as_str());
        proof {
            let f = |s: String| s@;
            assert(all.take(i + 1).map_values(f) =~= all.take(i as int).map_values(f).push(all[i as int]@));
            all.take(i as int).map_values(f).lemma_flatten_push(all[i as int]@);
        }
        i = i + 1;
    }
    let n = stdout_lines.len();
    let mut j: usize = 0;
    while j < stderr_lines.len()
        invariant
            j <= stderr_lines@.len(),
            n == stdout_lines@.len(),
            all == stdout_lines@ + stderr_lines@,
            out@ == all.take(n + j).map_values(|s: String| s@).flatten(),
        decreases stderr_lines.len() - j,
    {
        out.append(stderr_lines[j].as_str());
        proof {
            let f = |s: String| s@;
            assert(all[n + j] == stderr_lines@[j as int]);
            assert(all.take(n + j + 1).map_values(f) =~= all.take(n + j).map_values(f).push(all[n + j]@));
            all.take(n + j).map_values(f).lemma_flatten_push(all[n + j]@);
        }
        j = j + 1;
    }
    assert(all.take(all.len() as int) =~= all);
    out
}

/// The output reported when the shell could not be started.
pub fn spawn_error_output(error: &str) -> (r: String)
    ensures
        r@ == "Error executing command: "@ + error@,
{
    concat("Error executing command: ", error)
}

} // verus!
