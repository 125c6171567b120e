//! The decisions of the spawn sequence that need no operating system.

use vstd::prelude::*;
use vstd::string::StringExecFns;
use crate::error::{PtyError, PtyErrorCode};
use crate::geometry::{DEFAULT_COLS, DEFAULT_ROWS};

verus! {

/// The shell run when the environment names none.
pub open spec fn fallback_shell() -> Seq<char> {
    "/bin/sh"@
}

/// The shell to run: the one the environment names, else `/bin/sh`.
pub fn shell_program(from_env: Option<String>) -> (r: String)
    ensures
        match from_env {
            Some(s) => r@ == s@,
            None => r@ == fallback_shell(),
        },
{
    match from_env {
        Some(s) => s,
        None => String::from_str("/bin/sh"),
    }
}

/// The argument that makes the shell a login shell, so that it sets up the
/// user's environment.
pub fn login_flag() -> (r: &'static str)
    ensures
        r@ == "-l"@,
{
    "-l"
}

/// What a spawn starts: the shell program and its arguments, the working
/// directory (inherited when none), and the terminal's initial size.
pub struct SpawnPlan {
    pub program: String,
    pub args: Vec<String>,
    pub cwd: Option<String>,
    pub rows: u16,
    pub cols: u16,
}

/// The plan of a session's spawn: the shell the environment names (else
/// `/bin/sh`), run as a login shell, in `cwd` if given, on a 24 x 80
/// terminal. `cwd` is taken as already checked to be an existing directory.
pub fn spawn_plan(shell_from_env: Option<String>, cwd: Option<String>) -> (r: SpawnPlan)
    ensures
        match shell_from_env {
            Some(s) => r.program@ == s@,
            None => r.program@ == fallback_shell(),
        },
        r.args@.map_values(|a: String| a@) == seq!["-l"@],
        r.cwd == cwd,
        r.rows == DEFAULT_ROWS,
        r.cols == DEFAULT_COLS,
{
    let mut args: Vec<String> = Vec::new();
    args.push(String::from_str(login_flag()));
    assert(args@.map_values(|a: String| a@) =~= seq!["-l"@]);
    SpawnPlan {
        program: shell_program(shell_from_env),
        args,
        cwd,
        rows: DEFAULT_ROWS,
        cols: DEFAULT_COLS,
    }
}

/// The message of the failure when the child's process id is unknown.
pub open spec fn no_pid_message() -> Seq<char> {
    "Could not obtain child PID"@
}

/// The process id and the process group of a freshly spawned shell, from what
/// the child reports as its id and what the terminal reports as the leader of
/// its foreground group. A missing id, or one outside the range of process
/// ids, is `SpawnFailed`; a missing group falls back to the process id.
pub fn session_pids(pid: Option<u32>, group_leader: Option<i32>) -> (r: Result<(i32, i32), PtyError>)
    ensures
        r is Ok <==> (pid matches Some(p) && p <= i32::MAX),
        r matches Ok((child, group)) ==> {
            &&& pid matches Some(p) && child == p
            &&& group == match group_leader {
                Some(g) => g,
                None => child,
            }
        },
        r matches Err(e) ==> e.code == PtyErrorCode::SpawnFailed && e.message@ == no_pid_message(),
{
    match pid {
        Some(p) if p <= i32::MAX as u32 => {
            let child = p as i32;
            let group = match group_leader {
                Some(g) => g,
                None => child,
            };
            Ok((child, group))
        },
        _ => Err(PtyError::spawn_failed(String::from_str("Could not obtain child PID"))),
    }
}

} // verus!
