//! Where session worktrees live on disk.

use sha2::{Digest, Sha256};
use vstd::prelude::*;
use vstd::string::{StringExecFns, StringSliceAdditionalSpecFns};
use crate::git::{GitError, WorktreeInfo};
use crate::text::{hex, push_hex};

verus! {

/// A branch-name character that a path component may not hold.
pub open spec fn forbidden_in_path(c: char) -> bool {
    c == '/' || c == '\\' || c == ':' || c == '*' || c == '?' || c == '"' || c == '<' || c == '>'
        || c == '|'
}

/// `s` with every occurrence of `c` replaced by a dash.
pub open spec fn dash_for(s: Seq<char>, c: char) -> Seq<char> {
    s.map_values(|x: char| if x == c { '-' } else { x })
}

/// `branch` with every character a path component may not hold replaced by
/// a dash.
pub open spec fn sanitized(branch: Seq<char>) -> Seq<char> {
    branch.map_values(|x: char| if forbidden_in_path(x) { '-' } else { x })
}

/// Relies on `str::replace` with a character pattern: every occurrence of
/// `c` is replaced by "-".
#[verifier::external_body]
fn replace_with_dash(s: &str, c: char) -> (r: String)
    ensures
        r@ == dash_for(s@, c),
{
    s.replace(c, "-")
}

/// The SHA-256 digest of `b`.
pub uninterp spec fn sha256(b: Seq<u8>) -> Seq<u8>;

/// Relies on `sha2::Sha256::digest`: the digest depends on the bytes alone
/// and is 32 bytes long.
#[verifier::external_body]
fn sha256_digest(b: &[u8]) -> (r: Vec<u8>)
    ensures
        r@ == sha256(b@),
        r@.len() == 32,
{
    Sha256::digest(b).to_vec()
}

/// A path component made from a branch name: each of `/ \ : * ? " < > |`
/// becomes a dash.
pub fn sanitize_branch(branch: &str) -> (r: String)
    ensures
        r@ == sanitized(branch@),
{
    let s1 = replace_with_dash(branch, '/');
    let s2 = replace_with_dash(s1.as_str(), '\\');
    let s3 = replace_with_dash(s2.as_str(), ':');
    let s4 = replace_with_dash(s3.as_str(), '*');
    let s5 = replace_with_dash(s4.as_str(), '?');
    let s6 = replace_with_dash(s5.as_str(), '"');
    let s7 = replace_with_dash(s6.as_str(), '<');
    let s8 = replace_with_dash(s7.as_str(), '>');
    let s9 = replace_with_dash(s8.as_str(), '|');
    assert(s9@ =~= sanitized(branch@));
    s9
}

/// The name of a repository's directory of worktrees: the first 16
/// hexadecimal digits of the SHA-256 digest of its canonical path.
pub open spec fn repo_hash_of(canonical_path: &str) -> Seq<char> {
    hex(sha256(canonical_path.spec_bytes()).subrange(0, 8))
}

/// Hashes a repository's canonical path into a directory name.
pub fn repo_hash(canonical_path: &str) -> (r: String)
    ensures
        r@ == repo_hash_of(canonical_path),
        r@.len() == 16,
{
    let digest = sha256_digest(canonical_path.as_bytes());
    let mut s = String::new();
    push_hex(&mut s, digest.as_slice(), 8);
    proof {
        lemma_hex_len(digest@.subrange(0, 8));
    }
    s
}

proof fn lemma_hex_len(b: Seq<u8>)
    ensures
        hex(b).len() == 2 * b.len(),
    decreases b.len(),
{
    if b.len() > 0 {
        lemma_hex_len(b.drop_last());
    }
}

/// The application's data directory when one is known, else
/// `<home>/.local/share/maestro`, with `/tmp` for an unknown home.
pub open spec fn base_data_dir(data_dir: Option<String>, home: Option<String>) -> Seq<char> {
    match data_dir {
        Some(d) => d@,
        None => {
            let h = match home {
                Some(h) => h@,
                None => "/tmp"@,
            };
            h + "/.local/share/maestro"@
        },
    }
}

/// The base directory of all worktrees: `worktrees` under the application's
/// data directory when one is known, else under
/// `<home>/.local/share/maestro`, with `/tmp` standing in for an unknown home.
pub fn worktree_base_dir(data_dir: Option<String>, home: Option<String>) -> (r: String)
    ensures
        r@ == base_data_dir(data_dir, home) + "/worktrees"@,
{
    let mut base = match data_dir {
        Some(d) => d,
        None => {
            let mut h = match home {
                Some(h) => h,
                None => String::from_str("/tmp"),
            };
            h.append("/.local/share/maestro");
            h
        },
    };
    base.append("/worktrees");
    base
}

/// The worktree has `branch` checked out.
pub open spec fn on_branch(w: WorktreeInfo, branch: Seq<char>) -> bool {
    w.branch matches Some(b) && b@ == branch
}

/// `e` reports `branch` as checked out at `path`.
pub open spec fn is_checked_out_error(e: GitError, branch: Seq<char>, path: Seq<char>) -> bool {
    e matches GitError::BranchAlreadyCheckedOut { branch: b, path: p } && b@ == branch && p@ == path
}

/// Succeeds when no worktree has `branch` checked out; otherwise fails with
/// `BranchAlreadyCheckedOut`, naming the first such worktree's path.
pub fn ensure_branch_free(existing: &Vec<WorktreeInfo>, branch: &str) -> (r: Result<(), GitError>)
    ensures
        r is Ok <==> forall|i: int| 0 <= i < existing@.len() ==> !on_branch(#[trigger] existing@[i], branch@),
        r matches Err(e) ==> exists|i: int|
            0 <= i < existing@.len() && on_branch(#[trigger] existing@[i], branch@) && (forall|j: int|
                0 <= j < i ==> !on_branch(#[trigger] existing@[j], branch@)) && is_checked_out_error(
                e,
                branch@,
                existing@[i].path@,
            ),
{
    let target = String::from_str(branch);
    let mut i: usize = 0;
    while i < existing.len()
        invariant
            i <= existing@.len(),
            target@ == branch@,
            forall|j: int| 0 <= j < i ==> !on_branch(#[trigger] existing@[j], branch@),
        decreases existing@.len() - i,
    {
        let w = &existing[i];
        if let Some(b) = &w.branch {
            if *b == target {
                return Err(GitError::BranchAlreadyCheckedOut { branch: target, path: w.path.clone() });
            }
        }
        i = i + 1;
    }
    Ok(())
}

/// Relies on `str::starts_with` with a string pattern: whether `s` begins
/// with `p`.
#[verifier::external_body]
fn starts_with(s: &str, p: &str) -> (r: bool)
    ensures
        r == p@.is_prefix_of(s@),
{
    s.starts_with(p)
}

/// The worktree lies under `base`.
pub open spec fn under_base(w: WorktreeInfo, base: Seq<char>) -> bool {
    base.is_prefix_of(w.path@)
}

/// The worktrees whose path begins with `base`, in their order.
pub fn managed_worktrees(all: &Vec<WorktreeInfo>, base: &str) -> (r: Vec<WorktreeInfo>)
    ensures
        r@ == all@.filter(|w: WorktreeInfo| under_base(w, base@)),
{
    let mut out: Vec<WorktreeInfo> = Vec::new();
    let mut i: usize = 0;
    while i < all.len()
        invariant
            i <= all@.len(),
            out@ == all@.subrange(0, i as int).filter(|w: WorktreeInfo| under_base(w, base@)),
        decreases all@.len() - i,
    {
        proof {
            reveal(Seq::filter);
            let pre = all@.subrange(0, i as int + 1);
            assert(pre.drop_last() =~= all@.subrange(0, i as int));
        }
        if starts_with(all[i].path.as_str(), base) {
            out.push(all[i].duplicate());
        }
        i = i + 1;
    }
    assert(all@.subrange(0, all@.len() as int) =~= all@);
    out
}

/// A directory under a repository's worktree directory is an orphan when it
/// is a directory and no worktree of the repository has its path.
pub fn is_orphaned_dir(path: &str, active: &Vec<String>, is_dir: bool) -> (r: bool)
    ensures
        r == (is_dir && forall|i: int| 0 <= i < active@.len() ==> #[trigger] active@[i]@ != path@),
{
    if !is_dir {
        return false;
    }
    let p = String::from_str(path);
    let mut i: usize = 0;
    while i < active.len()
        invariant
            i <= active@.len(),
            p@ == path@,
            forall|j: int| 0 <= j < i ==> #[trigger] active@[j]@ != path@,
        decreases active@.len() - i,
    {
        if active[i] == p {
            return false;
        }
        i = i + 1;
    }
    true
}

/// Places worktrees of session branches on disk.
pub struct WorktreeManager;

impl WorktreeManager {
    /// The manager.
    pub fn new() -> (r: WorktreeManager) {
        WorktreeManager
    }

    /// The worktree path for `branch` of the repository whose canonical path
    /// is `canonical_repo`: `<base_dir>/<repo hash>/<sanitized branch>`.
    pub fn worktree_path(&self, base_dir: &str, canonical_repo: &str, branch: &str) -> (r: String)
        ensures
            r@ == base_dir@ + "/"@ + repo_hash_of(canonical_repo) + "/"@ + sanitized(branch@),
            repo_hash_of(canonical_repo).len() == 16,
    {
        let mut path = String::from_str(base_dir);
        path.append("/");
        let hash = repo_hash(canonical_repo);
        path.append(hash.as_str());
        path.append("/");
        let name = sanitize_branch(branch);
        path.append(name.as_str());
        path
    }
}

} // verus!
