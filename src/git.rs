//! The records and failures of the version-control collaborator, and the
//! parts of its command handling that need no process.

use vstd::prelude::*;
use vstd::string::StringExecFns;
use crate::text::{decimal, pieces, push_decimal};

verus! {

/// A failure of a version-control command.
#[derive(Debug)]
pub enum GitError {
    /// The executable could not be found.
    GitNotFound,
    /// The command ran and exited unsuccessfully.
    CommandFailed { code: i32, stderr: String, command: String },
    /// The command was killed by a signal.
    Killed { command: String },
    /// The command could not be started; `message` says why.
    SpawnError { message: String, command: String },
    /// The command's output was not valid UTF-8.
    InvalidUtf8,
    /// The command's output could not be parsed.
    ParseError { message: String },
    /// No repository was found at `path`.
    NotARepo { path: String },
    /// The branch is already checked out in the worktree at `path`.
    BranchAlreadyCheckedOut { branch: String, path: String },
    /// No worktree was found at the given path.
    WorktreeNotFound(String),
}

/// A local or remote branch; remote ones are named like `origin/main`.
#[derive(Debug, Clone)]
pub struct BranchInfo {
    pub name: String,
    pub is_remote: bool,
    pub is_current: bool,
}

/// One worktree: its path, the commit its HEAD points to, its branch (none
/// when detached or bare), and whether it is the bare repository.
#[derive(Debug, Clone)]
pub struct WorktreeInfo {
    pub path: String,
    pub head: String,
    pub branch: Option<String>,
    pub is_bare: bool,
}

/// One commit of a log: no parent for a root commit, several for a merge;
/// `timestamp` is in seconds since the Unix epoch.
#[derive(Debug, Clone)]
pub struct CommitInfo {
    pub hash: String,
    pub short_hash: String,
    pub parent_hashes: Vec<String>,
    pub author_name: String,
    pub author_email: String,
    pub timestamp: i64,
    pub summary: String,
}

/// What a successful command printed.
#[derive(Debug)]
pub struct GitOutput {
    pub stdout: String,
    pub stderr: String,
}

/// A line ended by a line feed, without a carriage return just before it.
pub open spec fn without_cr(p: Seq<char>) -> Seq<char> {
    if p.len() > 0 && p.last() == '\r' {
        p.drop_last()
    } else {
        p
    }
}

/// The lines of `s` as `str::lines` splits them: at each line feed, a
/// carriage return just before it dropped; the text after the last feed is
/// a line of its own unless it is empty.
pub open spec fn lines_of(s: Seq<char>) -> Seq<Seq<char>> {
    let ps = pieces(s, '\n');
    let ended = ps.drop_last().map_values(|p: Seq<char>| without_cr(p));
    if ps.last().len() == 0 {
        ended
    } else {
        ended.push(ps.last())
    }
}

/// `c` has the Unicode White_Space property, as `char::is_whitespace` tests.
pub open spec fn white_space(c: char) -> bool {
    ('\u{9}' <= c && c <= '\u{D}') || c == ' ' || c == '\u{85}' || c == '\u{A0}' || c == '\u{1680}'
        || ('\u{2000}' <= c && c <= '\u{200A}') || c == '\u{2028}' || c == '\u{2029}' || c
        == '\u{202F}' || c == '\u{205F}' || c == '\u{3000}'
}

/// `s` without its leading white space.
pub open spec fn trim_start_of(s: Seq<char>) -> Seq<char>
    decreases s.len(),
{
    if s.len() > 0 && white_space(s[0]) {
        trim_start_of(s.skip(1))
    } else {
        s
    }
}

/// `s` without its trailing white space.
pub open spec fn trim_end_of(s: Seq<char>) -> Seq<char>
    decreases s.len(),
{
    if s.len() > 0 && white_space(s.last()) {
        trim_end_of(s.drop_last())
    } else {
        s
    }
}

/// `s` without its leading and trailing white space, as `str::trim` gives it.
pub open spec fn trim_of(s: Seq<char>) -> Seq<char> {
    trim_end_of(trim_start_of(s))
}

/// Relies on `str::lines`, as `lines_of` states.
#[verifier::external_body]
fn split_lines(s: &str) -> (r: Vec<&str>)
    ensures
        r@.map_values(|l: &str| l@) == lines_of(s@),
{
    s.lines().collect()
}

/// Relies on `str::trim`, as `trim_of` states.
#[verifier::external_body]
pub(crate) fn trim_text(s: &str) -> (r: &str)
    ensures
        r@ == trim_of(s@),
{
    s.trim()
}

/// The line is not empty.
pub open spec fn non_empty(l: Seq<char>) -> bool {
    l.len() > 0
}

impl GitOutput {
    /// The non-empty lines of the standard output, in order.
    pub fn lines(&self) -> (r: Vec<&str>)
        ensures
            r@.map_values(|l: &str| l@) == lines_of(self.stdout@).filter(|l: Seq<char>| non_empty(l)),
    {
        let all = split_lines(self.stdout.as_str());
        let ghost whole = all@.map_values(|l: &str| l@);
        let mut out: Vec<&str> = Vec::new();
        let mut i: usize = 0;
        while i < all.len()
            invariant
                i <= all@.len(),
                whole == all@.map_values(|l: &str| l@),
                out@.map_values(|l: &str| l@) == whole.subrange(0, i as int).filter(
                    |l: Seq<char>| non_empty(l),
                ),
            decreases all@.len() - i,
        {
            let line = all[i];
            proof {
                reveal(Seq::filter);
                let pre = whole.subrange(0, i as int + 1);
                assert(pre.drop_last() =~= whole.subrange(0, i as int));
                assert(pre.last() == line@);
            }
            if line.unicode_len() > 0 {
                out.push(line);
            }
            proof {
                assert(out@.map_values(|l: &str| l@) =~= whole.subrange(0, i as int + 1).filter(
                    |l: Seq<char>| non_empty(l),
                ));
            }
            i = i + 1;
        }
        assert(whole.subrange(0, all@.len() as int) =~= whole);
        out
    }

    /// The standard output without white space at either end.
    pub fn trimmed(&self) -> (r: &str)
        ensures
            r@ == trim_of(self.stdout@),
    {
        trim_text(self.stdout.as_str())
    }
}

/// Runs version-control commands in one repository.
#[derive(Debug, Clone)]
pub struct Git {
    pub repo_path: String,
}

impl Git {
    /// A runner for the repository at `repo_path`.
    pub fn new(repo_path: String) -> (r: Git)
        ensures
            r.repo_path@ == repo_path@,
    {
        Git { repo_path }
    }
}

impl WorktreeInfo {
    /// An equal copy of this record.
    pub fn duplicate(&self) -> (r: WorktreeInfo)
        ensures
            r == *self,
    {
        WorktreeInfo {
            path: self.path.clone(),
            head: self.head.clone(),
            branch: match &self.branch {
                Some(b) => Some(b.clone()),
                None => None,
            },
            is_bare: self.is_bare,
        }
    }
}

/// `pat` occurs in `s`.
pub open spec fn occurs_in(pat: Seq<char>, s: Seq<char>) -> bool {
    exists|i: int| 0 <= i <= s.len() - pat.len() && #[trigger] s.subrange(i, i + pat.len()) == pat
}

/// Relies on `str::contains` with a string pattern: whether `pat` occurs in `s`.
#[verifier::external_body]
fn contains_text(s: &str, pat: &str) -> (r: bool)
    ensures
        r == occurs_in(pat@, s@),
{
    s.contains(pat)
}

/// `e` is the failure of `symbolic-ref` on a detached HEAD.
pub open spec fn is_detached_head_error(e: GitError) -> bool {
    e matches GitError::CommandFailed { stderr, .. } && occurs_in("not a symbolic ref"@, stderr@)
}

/// Whether a failed `symbolic-ref --short HEAD` means that HEAD is detached
/// (so the short commit hash names the position instead), rather than a
/// real failure.
pub fn is_detached_head(e: &GitError) -> (r: bool)
    ensures
        r == is_detached_head_error(*e),
{
    match e {
        GitError::CommandFailed { stderr, .. } => contains_text(stderr.as_str(), "not a symbolic ref"),
        _ => false,
    }
}

/// The arguments of `git worktree add`: `-b <branch>` when a new branch is
/// made, then the path, then the ref to check out, if any.
pub fn worktree_add_args(path: &str, new_branch: Option<&str>, checkout_ref: Option<&str>) -> (r:
    Vec<String>)
    ensures
        r@.map_values(|a: String| a@) == seq!["worktree"@, "add"@] + match new_branch {
            Some(b) => seq!["-b"@, b@],
            None => Seq::empty(),
        } + seq![path@] + match checkout_ref {
            Some(c) => seq![c@],
            None => Seq::empty(),
        },
{
    let mut args: Vec<String> = Vec::new();
    args.push(String::from_str("worktree"));
    args.push(String::from_str("add"));
    if let Some(b) = new_branch {
        args.push(String::from_str("-b"));
        args.push(String::from_str(b));
    }
    args.push(String::from_str(path));
    if let Some(c) = checkout_ref {
        args.push(String::from_str(c));
    }
    assert(args@.map_values(|a: String| a@) =~= seq!["worktree"@, "add"@] + match new_branch {
        Some(b) => seq!["-b"@, b@],
        None => Seq::empty(),
    } + seq![path@] + match checkout_ref {
        Some(c) => seq![c@],
        None => Seq::empty(),
    });
    args
}

/// The arguments of `git log` for at most `max_count` commits in
/// topological order, in the format the commit-log parser reads, from all
/// refs when `all_branches` holds.
pub fn commit_log_args(max_count: usize, all_branches: bool) -> (r: Vec<String>)
    ensures
        r@.map_values(|a: String| a@) == seq![
            "log"@,
            "--format=%H|%h|%P|%an|%ae|%at|%s"@,
            "-"@ + decimal(max_count as nat),
            "--topo-order"@,
        ] + if all_branches {
            seq!["--all"@]
        } else {
            Seq::empty()
        },
{
    let mut args: Vec<String> = Vec::new();
    args.push(String::from_str("log"));
    args.push(String::from_str("--format=%H|%h|%P|%an|%ae|%at|%s"));
    let mut count = String::from_str("-");
    push_decimal(&mut count, max_count as u64);
    args.push(count);
    args.push(String::from_str("--topo-order"));
    if all_branches {
        args.push(String::from_str("--all"));
    }
    assert(args@.map_values(|a: String| a@) =~= seq![
        "log"@,
        "--format=%H|%h|%P|%an|%ae|%at|%s"@,
        "-"@ + decimal(max_count as nat),
        "--topo-order"@,
    ] + if all_branches {
        seq!["--all"@]
    } else {
        Seq::empty()
    });
    args
}

/// The record of a worktree just added at `path`: its HEAD from the output of
/// `rev-parse HEAD`, its branch from the output of `symbolic-ref --short HEAD`,
/// none when that failed (a detached HEAD, or a failure that only gets
/// logged); never bare.
pub fn added_worktree(path: &str, head: &GitOutput, branch_lookup: &Result<GitOutput, GitError>) -> (r:
    WorktreeInfo)
    ensures
        r.path@ == path@,
        r.head@ == trim_of(head.stdout@),
        match branch_lookup {
            Ok(o) => r.branch matches Some(b) && b@ == trim_of(o.stdout@),
            Err(_) => r.branch is None,
        },
        !r.is_bare,
{
    let branch = match branch_lookup {
        Ok(o) => Some(String::from_str(o.trimmed())),
        Err(_) => None,
    };
    WorktreeInfo {
        path: String::from_str(path),
        head: String::from_str(head.trimmed()),
        branch,
        is_bare: false,
    }
}

/// What `symbolic-ref --short HEAD` tells of the current branch.
pub enum BranchLookup {
    /// The branch's name.
    Name(String),
    /// HEAD is detached: its short commit hash is to be used instead.
    UseShortHash,
    /// A real failure.
    Failed(GitError),
}

/// The message of a failure of `symbolic-ref --short HEAD`.
pub open spec fn symbolic_ref_command() -> Seq<char> {
    "git symbolic-ref --short HEAD"@
}

/// Decides from the outcome of `symbolic-ref --short HEAD`: the trimmed
/// output is the branch; the detached-HEAD failure asks for the short hash;
/// another failed run is reported under that command; anything else is
/// passed on.
pub fn current_branch_from(outcome: Result<GitOutput, GitError>) -> (r: BranchLookup)
    ensures
        match outcome {
            Ok(o) => r matches BranchLookup::Name(n) && n@ == trim_of(o.stdout@),
            Err(e) => if is_detached_head_error(e) {
                r is UseShortHash
            } else {
                match e {
                    GitError::CommandFailed { code, stderr, .. } => r matches BranchLookup::Failed(
                        GitError::CommandFailed { code: c, stderr: s, command },
                    ) && c == code && s == stderr && command@ == symbolic_ref_command(),
                    _ => r == BranchLookup::Failed(e),
                }
            },
        },
{
    match outcome {
        Ok(o) => BranchLookup::Name(String::from_str(o.trimmed())),
        Err(e) => {
            if is_detached_head(&e) {
                BranchLookup::UseShortHash
            } else {
                match e {
                    GitError::CommandFailed { code, stderr, .. } => BranchLookup::Failed(
                        GitError::CommandFailed {
                            code,
                            stderr,
                            command: String::from_str("git symbolic-ref --short HEAD"),
                        },
                    ),
                    other => BranchLookup::Failed(other),
                }
            }
        },
    }
}

/// The text that strict UTF-8 decoding makes of `b`, none when `b` is not
/// valid UTF-8.
pub uninterp spec fn utf8_strict(b: Seq<u8>) -> Option<Seq<char>>;

/// Relies on `String::from_utf8`: the decoding depends on the bytes alone,
/// and fails exactly on invalid UTF-8.
#[verifier::external_body]
fn decode_utf8(b: Vec<u8>) -> (r: Option<String>)
    ensures
        match utf8_strict(b@) {
            Some(t) => r matches Some(s) && s@ == t,
            None => r is None,
        },
{
    String::from_utf8(b).ok()
}

/// The output of a finished run, or why the run failed: output that is not
/// valid UTF-8 is `InvalidUtf8`; a run that exited unsuccessfully is
/// `CommandFailed` with its exit code (-1 when killed by a signal), its
/// trimmed standard error and the command line.
pub fn run_outcome(success: bool, code: Option<i32>, stdout: Vec<u8>, stderr: Vec<u8>, command: String) -> (r:
    Result<GitOutput, GitError>)
    ensures
        match (utf8_strict(stdout@), utf8_strict(stderr@)) {
            (Some(out), Some(err)) => if success {
                r matches Ok(o) && o.stdout@ == out && o.stderr@ == err
            } else {
                r matches Err(GitError::CommandFailed { code: c, stderr: s, command: cmd }) && c == (
                match code {
                    Some(k) => k,
                    None => -1i32,
                }) && s@ == trim_of(err) && cmd@ == command@
            },
            _ => r matches Err(GitError::InvalidUtf8),
        },
{
    let out = match decode_utf8(stdout) {
        Some(s) => s,
        None => return Err(GitError::InvalidUtf8),
    };
    let err = match decode_utf8(stderr) {
        Some(s) => s,
        None => return Err(GitError::InvalidUtf8),
    };
    if success {
        Ok(GitOutput { stdout: out, stderr: err })
    } else {
        let c = match code {
            Some(k) => k,
            None => -1i32,
        };
        Err(GitError::CommandFailed { code: c, stderr: String::from_str(trim_text(err.as_str())), command })
    }
}

/// Accepts any non-empty repository path; an empty one is `NotARepo` with an
/// empty path.
pub fn validate_repo_path(repo_path: &str) -> (r: Result<(), GitError>)
    ensures
        r is Ok <==> repo_path@.len() > 0,
        r matches Err(e) ==> e matches GitError::NotARepo { path } && path@.len() == 0,
{
    if repo_path.unicode_len() == 0 {
        Err(GitError::NotARepo { path: String::new() })
    } else {
        Ok(())
    }
}

} // verus!
