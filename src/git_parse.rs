//! Parsers of the version-control collaborator's machine-readable output:
//! the worktree listing, the branch listing and the commit log.

use vstd::prelude::*;
use vstd::string::{StrSliceExecFns, StringExecFns};
use crate::git::{trim_of, trim_text, BranchInfo, CommitInfo, WorktreeInfo};
use crate::text::{first_index, pieces};

verus! {

/// Relies on `str::strip_prefix`: the rest of `s` after `p` when `s` begins
/// with `p`, else none.
#[verifier::external_body]
fn strip_prefix<'a>(s: &'a str, p: &str) -> (r: Option<&'a str>)
    ensures
        match r {
            Some(rest) => s@ == p@ + rest@,
            None => !p@.is_prefix_of(s@),
        },
{
    s.strip_prefix(p)
}

/// A worktree record as plain values: path, head, branch, bare.
pub type WorktreeView = (Seq<char>, Seq<char>, Option<Seq<char>>, bool);

/// The plain values of a worktree record.
pub open spec fn worktree_view(w: WorktreeInfo) -> WorktreeView {
    (
        w.path@,
        w.head@,
        match w.branch {
            Some(b) => Some(b@),
            None => None,
        },
        w.is_bare,
    )
}

/// The record a stanza starts from before its fields are read.
pub open spec fn blank_worktree(path: Seq<char>) -> WorktreeView {
    (path, Seq::empty(), None, false)
}

/// The text of `l` after `p`, when `l` begins with `p`.
pub open spec fn after(l: Seq<char>, p: Seq<char>) -> Seq<char> {
    l.skip(p.len() as int)
}

/// The finished records and the record being read, after one more line of
/// `git worktree list --porcelain`: a `worktree <path>` line starts a new
/// record (finishing the current one if it has a path); `HEAD <sha>`,
/// `branch refs/heads/<name>` and `bare` fill in the current one; other lines
/// are ignored.
pub open spec fn worktree_step(acc: (Seq<WorktreeView>, WorktreeView), l: Seq<char>) -> (Seq<
    WorktreeView,
>, WorktreeView) {
    let done = acc.0;
    let cur = acc.1;
    if "worktree "@.is_prefix_of(l) {
        (
            if cur.0.len() > 0 {
                done.push(cur)
            } else {
                done
            },
            blank_worktree(after(l, "worktree "@)),
        )
    } else if "HEAD "@.is_prefix_of(l) {
        (done, (cur.0, after(l, "HEAD "@), cur.2, cur.3))
    } else if "branch refs/heads/"@.is_prefix_of(l) {
        (done, (cur.0, cur.1, Some(after(l, "branch refs/heads/"@)), cur.3))
    } else if l == "bare"@ {
        (done, (cur.0, cur.1, cur.2, true))
    } else {
        (done, cur)
    }
}

/// The finished records and the record being read after `lines`.
pub open spec fn worktree_scan(lines: Seq<Seq<char>>) -> (Seq<WorktreeView>, WorktreeView)
    decreases lines.len(),
{
    if lines.len() == 0 {
        (Seq::empty(), blank_worktree(Seq::empty()))
    } else {
        worktree_step(worktree_scan(lines.drop_last()), lines.last())
    }
}

/// The worktree records of `lines`: the finished ones, then the last one if
/// it has a path.
pub open spec fn worktrees_of(lines: Seq<Seq<char>>) -> Seq<WorktreeView> {
    let (done, cur) = worktree_scan(lines);
    if cur.0.len() > 0 {
        done.push(cur)
    } else {
        done
    }
}

/// Parses the lines of `git worktree list --porcelain` into worktree records.
pub fn parse_worktree_list(lines: &Vec<&str>) -> (r: Vec<WorktreeInfo>)
    ensures
        r@.map_values(|w: WorktreeInfo| worktree_view(w)) == worktrees_of(
            lines@.map_values(|l: &str| l@),
        ),
{
    let ghost all = lines@.map_values(|l: &str| l@);
    let mut out: Vec<WorktreeInfo> = Vec::new();
    let mut path = String::new();
    let mut head = String::new();
    let mut branch: Option<String> = None;
    let mut bare = false;
    let mut i: usize = 0;
    while i < lines.len()
        invariant
            i <= lines@.len(),
            all == lines@.map_values(|l: &str| l@),
            worktree_scan(all.subrange(0, i as int)) == (
                out@.map_values(|w: WorktreeInfo| worktree_view(w)),
                worktree_view(WorktreeInfo { path, head, branch, is_bare: bare }),
            ),
        decreases lines@.len() - i,
    {
        let line = lines[i];
        let ghost pre = all.subrange(0, i as int + 1);
        proof {
            assert(pre.drop_last() =~= all.subrange(0, i as int));
            assert(pre.last() == line@);
            reveal_strlit("worktree ");
            reveal_strlit("HEAD ");
            reveal_strlit("branch refs/heads/");
            reveal_strlit("bare");
        }
        let ghost old_out = out@;
        let ghost acc = worktree_scan(all.subrange(0, i as int));
        assert(worktree_scan(pre) == worktree_step(acc, line@));
        if let Some(p) = strip_prefix(line, "worktree ") {
            assert(after(line@, "worktree "@) =~= p@);
            if path.unicode_len() > 0 {
                let w = WorktreeInfo { path, head, branch, is_bare: bare };
                out.push(w);
                assert(out@.map_values(|w: WorktreeInfo| worktree_view(w)) =~= old_out.map_values(
                    |w: WorktreeInfo| worktree_view(w),
                ).push(worktree_view(w)));
            }
            path = String::from_str(p);
            head = String::new();
            branch = None;
            bare = false;
        } else if let Some(h) = strip_prefix(line, "HEAD ") {
            assert(after(line@, "HEAD "@) =~= h@);
            head = String::from_str(h);
        } else if let Some(b) = strip_prefix(line, "branch refs/heads/") {
            assert(after(line@, "branch refs/heads/"@) =~= b@);
            branch = Some(String::from_str(b));
        } else if let Some(rest) = strip_prefix(line, "bare") {
            if rest.unicode_len() == 0 {
                assert(line@ =~= "bare"@);
                bare = true;
            } else {
                assert(line@ != "bare"@);
            }
        } else {
            assert(line@ != "bare"@) by {
                if line@ == "bare"@ {
                    assert("bare"@.is_prefix_of(line@));
                }
            }
        }
        assert(worktree_scan(pre) == (
            out@.map_values(|w: WorktreeInfo| worktree_view(w)),
            worktree_view(WorktreeInfo { path, head, branch, is_bare: bare }),
        ));
        i = i + 1;
    }
    assert(all.subrange(0, lines@.len() as int) =~= all);
    if path.unicode_len() > 0 {
        let ghost old_out = out@;
        let w = WorktreeInfo { path, head, branch, is_bare: bare };
        out.push(w);
        assert(out@.map_values(|w: WorktreeInfo| worktree_view(w)) =~= old_out.map_values(
            |w: WorktreeInfo| worktree_view(w),
        ).push(worktree_view(w)));
    }
    out
}

/// The pieces of `s` as `str::splitn(n, c)` yields them: split at the first
/// `n - 1` occurrences of `c`, the last piece keeping the rest.
pub open spec fn pieces_n(s: Seq<char>, c: char, n: nat) -> Seq<Seq<char>>
    decreases n,
{
    if n == 0 {
        Seq::empty()
    } else if n == 1 || first_index(s, c) >= s.len() {
        seq![s]
    } else {
        seq![s.take(first_index(s, c) as int)] + pieces_n(
            s.skip(first_index(s, c) as int + 1),
            c,
            (n - 1) as nat,
        )
    }
}

/// Relies on `str::splitn` with a character pattern, as `pieces_n` states.
#[verifier::external_body]
fn split_n<'a>(s: &'a str, n: usize, c: char) -> (r: Vec<&'a str>)
    ensures
        r@.map_values(|p: &str| p@) == pieces_n(s@, c, n as nat),
{
    s.splitn(n, c).collect()
}

/// `p` ends `s`.
pub open spec fn ends_with(s: Seq<char>, p: Seq<char>) -> bool {
    p.len() <= s.len() && s.skip(s.len() - p.len()) == p
}

/// Relies on `str::ends_with` with a string pattern: whether `s` ends with `p`.
#[verifier::external_body]
fn ends_with_text(s: &str, p: &str) -> (r: bool)
    ensures
        r == ends_with(s@, p@),
{
    s.ends_with(p)
}

/// A branch record as plain values: name, remote, current.
pub type BranchView = (Seq<char>, bool, bool);

/// The plain values of a branch record.
pub open spec fn branch_view(b: BranchInfo) -> BranchView {
    (b.name@, b.is_remote, b.is_current)
}

/// The branch a line of `git branch -a --format=%(HEAD)|%(refname:short)|%(refname:rstrip=-2)`
/// describes: none for a line of fewer than two fields and for a `HEAD`
/// pointer; otherwise the trimmed name, remote when the third field is
/// `refs/remotes` (what `%(refname:rstrip=-2)` prints for a remote-tracking
/// branch), current when the first is `*`.
pub open spec fn branch_of_line(l: Seq<char>) -> Option<BranchView> {
    let parts = pieces_n(l, '|', 3);
    let name = trim_of(parts[1]);
    if parts.len() < 2 {
        None
    } else if name == "HEAD"@ || ends_with(name, "/HEAD"@) {
        None
    } else {
        Some((name, parts.len() > 2 && trim_of(parts[2]) == "refs/remotes"@, trim_of(parts[0]) == "*"@))
    }
}

/// The branches the lines describe, in order.
pub open spec fn branches_of(lines: Seq<Seq<char>>) -> Seq<BranchView>
    decreases lines.len(),
{
    if lines.len() == 0 {
        Seq::empty()
    } else {
        let rest = branches_of(lines.drop_last());
        match branch_of_line(lines.last()) {
            Some(b) => rest.push(b),
            None => rest,
        }
    }
}

fn text_is(s: &str, lit: &str) -> (r: bool)
    ensures
        r == (s@ == lit@),
{
    String::from_str(s) == String::from_str(lit)
}

/// Parses one line of the branch listing.
fn parse_branch_line(line: &str) -> (r: Option<BranchInfo>)
    ensures
        match r {
            Some(b) => branch_of_line(line@) == Some(branch_view(b)),
            None => branch_of_line(line@) is None,
        },
{
    let parts = split_n(line, 3, '|');
    proof {
        assert(parts@.len() == pieces_n(line@, '|', 3).len());
    }
    if parts.len() < 2 {
        return None;
    }
    proof {
        assert(parts@[0]@ == pieces_n(line@, '|', 3)[0]);
        assert(parts@[1]@ == pieces_n(line@, '|', 3)[1]);
    }
    let name = trim_text(parts[1]);
    if text_is(name, "HEAD") || ends_with_text(name, "/HEAD") {
        return None;
    }
    let is_current = text_is(trim_text(parts[0]), "*");
    let is_remote = if parts.len() > 2 {
        proof {
            assert(parts@[2]@ == pieces_n(line@, '|', 3)[2]);
        }
        text_is(trim_text(parts[2]), "refs/remotes")
    } else {
        false
    };
    Some(BranchInfo { name: String::from_str(name), is_remote, is_current })
}

/// Parses the lines of the branch listing into branch records, leaving out
/// malformed lines and `HEAD` pointers.
pub fn parse_branch_list(lines: &Vec<&str>) -> (r: Vec<BranchInfo>)
    ensures
        r@.map_values(|b: BranchInfo| branch_view(b)) == branches_of(lines@.map_values(|l: &str| l@)),
{
    let ghost all = lines@.map_values(|l: &str| l@);
    let mut out: Vec<BranchInfo> = Vec::new();
    let mut i: usize = 0;
    while i < lines.len()
        invariant
            i <= lines@.len(),
            all == lines@.map_values(|l: &str| l@),
            out@.map_values(|b: BranchInfo| branch_view(b)) == branches_of(all.subrange(0, i as int)),
        decreases lines@.len() - i,
    {
        let ghost pre = all.subrange(0, i as int + 1);
        proof {
            assert(pre.drop_last() =~= all.subrange(0, i as int));
            assert(pre.last() == lines@[i as int]@);
        }
        let ghost old_out = out@;
        if let Some(b) = parse_branch_line(lines[i]) {
            out.push(b);
            assert(out@.map_values(|b: BranchInfo| branch_view(b)) =~= old_out.map_values(
                |b: BranchInfo| branch_view(b),
            ).push(branch_view(b)));
        }
        i = i + 1;
    }
    assert(all.subrange(0, lines@.len() as int) =~= all);
    out
}

/// Relies on `str::split` with a character pattern, as `pieces` states.
#[verifier::external_body]
fn split_all<'a>(s: &'a str, c: char) -> (r: Vec<&'a str>)
    ensures
        r@.map_values(|p: &str| p@) == pieces(s@, c),
{
    s.split(c).collect()
}

/// `c` is an ASCII decimal digit.
pub open spec fn is_digit(c: char) -> bool {
    '0' <= c && c <= '9'
}

/// The value of a string of decimal digits.
pub open spec fn digits_value(d: Seq<char>) -> int
    decreases d.len(),
{
    if d.len() == 0 {
        0
    } else {
        10 * digits_value(d.drop_last()) + (d.last() as int - 48)
    }
}

/// The number `i64::from_str` reads from `s`: an optional `+` or `-`, then
/// one or more decimal digits, with a value in the range of `i64`.
pub open spec fn i64_of(s: Seq<char>) -> Option<i64> {
    let signed = s.len() > 0 && (s[0] == '-' || s[0] == '+');
    let digits = if signed {
        s.skip(1)
    } else {
        s
    };
    let v = if s.len() > 0 && s[0] == '-' {
        -digits_value(digits)
    } else {
        digits_value(digits)
    };
    if digits.len() > 0 && (forall|i: int| 0 <= i < digits.len() ==> is_digit(#[trigger] digits[i]))
        && i64::MIN <= v <= i64::MAX {
        Some(v as i64)
    } else {
        None
    }
}

/// Relies on `i64::from_str`, as `i64_of` states.
#[verifier::external_body]
fn parse_i64(s: &str) -> (r: Option<i64>)
    ensures
        r == i64_of(s@),
{
    s.parse::<i64>().ok()
}

/// A commit record as plain values: hash, short hash, parents, author name,
/// author email, timestamp, summary.
pub type CommitView = (Seq<char>, Seq<char>, Seq<Seq<char>>, Seq<char>, Seq<char>, i64, Seq<char>);

/// The plain values of a commit record.
pub open spec fn commit_view(c: CommitInfo) -> CommitView {
    (
        c.hash@,
        c.short_hash@,
        c.parent_hashes@.map_values(|p: String| p@),
        c.author_name@,
        c.author_email@,
        c.timestamp,
        c.summary@,
    )
}

/// The commit a line of `git log --format=%H|%h|%P|%an|%ae|%at|%s`
/// describes: none for a line of fewer than seven fields; the parents are
/// the space-separated hashes of the third field (none if it is empty); a
/// timestamp that is no number counts as 0; the summary keeps any further
/// bars.
pub open spec fn commit_of_line(l: Seq<char>) -> Option<CommitView> {
    let p = pieces_n(l, '|', 7);
    if p.len() < 7 {
        None
    } else {
        Some(
            (
                p[0],
                p[1],
                if p[2].len() == 0 {
                    Seq::empty()
                } else {
                    pieces(p[2], ' ')
                },
                p[3],
                p[4],
                match i64_of(p[5]) {
                    Some(v) => v,
                    None => 0,
                },
                p[6],
            ),
        )
    }
}

/// The commits the lines describe, in order.
pub open spec fn commits_of(lines: Seq<Seq<char>>) -> Seq<CommitView>
    decreases lines.len(),
{
    if lines.len() == 0 {
        Seq::empty()
    } else {
        let rest = commits_of(lines.drop_last());
        match commit_of_line(lines.last()) {
            Some(c) => rest.push(c),
            None => rest,
        }
    }
}

fn owned_all(v: &Vec<&str>) -> (r: Vec<String>)
    ensures
        r@.map_values(|s: String| s@) == v@.map_values(|s: &str| s@),
{
    let mut out: Vec<String> = Vec::new();
    let mut i: usize = 0;
    while i < v.len()
        invariant
            i <= v@.len(),
            out@.map_values(|s: String| s@) == v@.subrange(0, i as int).map_values(|s: &str| s@),
        decreases v@.len() - i,
    {
        let ghost old_out = out@;
        let s = String::from_str(v[i]);
        out.push(s);
        proof {
            assert(v@.subrange(0, i as int + 1) =~= v@.subrange(0, i as int).push(v@[i as int]));
            assert(out@.map_values(|s: String| s@) =~= old_out.map_values(|s: String| s@).push(s@));
            assert(v@.subrange(0, i as int + 1).map_values(|s: &str| s@) =~= v@.subrange(
                0,
                i as int,
            ).map_values(|s: &str| s@).push(v@[i as int]@));
        }
        i = i + 1;
    }
    assert(v@.subrange(0, v@.len() as int) =~= v@);
    out
}

/// Parses one line of the commit log.
fn parse_commit_line(line: &str) -> (r: Option<CommitInfo>)
    ensures
        match r {
            Some(c) => commit_of_line(line@) == Some(commit_view(c)),
            None => commit_of_line(line@) is None,
        },
{
    let p = split_n(line, 7, '|');
    let ghost fields = pieces_n(line@, '|', 7);
    proof {
        assert(p@.len() == fields.len());
    }
    if p.len() < 7 {
        return None;
    }
    proof {
        assert(p@[0]@ == fields[0]);
        assert(p@[1]@ == fields[1]);
        assert(p@[2]@ == fields[2]);
        assert(p@[3]@ == fields[3]);
        assert(p@[4]@ == fields[4]);
        assert(p@[5]@ == fields[5]);
        assert(p@[6]@ == fields[6]);
    }
    let timestamp = match parse_i64(p[5]) {
        Some(v) => v,
        None => 0,
    };
    let parent_hashes = if p[2].unicode_len() == 0 {
        Vec::new()
    } else {
        owned_all(&split_all(p[2], ' '))
    };
    let c = CommitInfo {
        hash: String::from_str(p[0]),
        short_hash: String::from_str(p[1]),
        parent_hashes,
        author_name: String::from_str(p[3]),
        author_email: String::from_str(p[4]),
        timestamp,
        summary: String::from_str(p[6]),
    };
    proof {
        if p@[2]@.len() == 0 {
            assert(c.parent_hashes@.map_values(|s: String| s@) =~= Seq::<Seq<char>>::empty());
        }
    }
    Some(c)
}

/// Parses the lines of the commit log into commit records, leaving out lines
/// of fewer than seven fields.
pub fn parse_commit_log(lines: &Vec<&str>) -> (r: Vec<CommitInfo>)
    ensures
        r@.map_values(|c: CommitInfo| commit_view(c)) == commits_of(lines@.map_values(|l: &str| l@)),
{
    let ghost all = lines@.map_values(|l: &str| l@);
    let mut out: Vec<CommitInfo> = Vec::new();
    let mut i: usize = 0;
    while i < lines.len()
        invariant
            i <= lines@.len(),
            all == lines@.map_values(|l: &str| l@),
            out@.map_values(|c: CommitInfo| commit_view(c)) == commits_of(all.subrange(0, i as int)),
        decreases lines@.len() - i,
    {
        let ghost pre = all.subrange(0, i as int + 1);
        proof {
            assert(pre.drop_last() =~= all.subrange(0, i as int));
            assert(pre.last() == lines@[i as int]@);
        }
        let ghost old_out = out@;
        if let Some(c) = parse_commit_line(lines[i]) {
            out.push(c);
            assert(out@.map_values(|c: CommitInfo| commit_view(c)) =~= old_out.map_values(
                |c: CommitInfo| commit_view(c),
            ).push(commit_view(c)));
        }
        i = i + 1;
    }
    assert(all.subrange(0, lines@.len() as int) =~= all);
    out
}

} // verus!
