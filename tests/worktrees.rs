use maestro::git::{
    added_worktree, commit_log_args, current_branch_from, is_detached_head, run_outcome,
    worktree_add_args, BranchLookup, GitError, GitOutput, WorktreeInfo,
};
use maestro::git_parse::{parse_branch_list, parse_commit_log, parse_worktree_list};
use maestro::worktree::{ensure_branch_free, is_orphaned_dir, managed_worktrees};

fn wt(path: &str, branch: Option<&str>) -> WorktreeInfo {
    WorktreeInfo {
        path: path.to_string(),
        head: "abc".to_string(),
        branch: branch.map(|b| b.to_string()),
        is_bare: false,
    }
}

#[test]
fn porcelain_worktree_list() {
    let lines = vec![
        "worktree /repo",
        "HEAD 1111",
        "branch refs/heads/main",
        "worktree /wt/feature",
        "HEAD 2222",
        "branch refs/heads/feature/x",
        "worktree /wt/detached",
        "HEAD 3333",
        "detached",
        "worktree /bare.git",
        "bare",
    ];
    let r = parse_worktree_list(&lines);
    assert_eq!(r.len(), 4);
    assert_eq!(r[0].path, "/repo");
    assert_eq!(r[0].head, "1111");
    assert_eq!(r[0].branch.as_deref(), Some("main"));
    assert!(!r[0].is_bare);
    assert_eq!(r[1].branch.as_deref(), Some("feature/x"));
    assert_eq!(r[2].path, "/wt/detached");
    assert_eq!(r[2].head, "3333");
    assert!(r[2].branch.is_none());
    assert_eq!(r[3].path, "/bare.git");
    assert!(r[3].is_bare);
    assert_eq!(r[3].head, "");
}

#[test]
fn porcelain_edge_cases() {
    assert!(parse_worktree_list(&Vec::new()).is_empty());
    let orphan_fields = vec!["HEAD 1", "bare", "branch refs/heads/x"];
    assert!(parse_worktree_list(&orphan_fields).is_empty());
    let not_bare = vec!["worktree /a", "barely"];
    assert!(!parse_worktree_list(&not_bare)[0].is_bare);
}

#[test]
fn branch_checked_out_elsewhere() {
    let existing = vec![wt("/repo", Some("main")), wt("/wt/a", Some("feat")), wt("/wt/b", Some("feat"))];
    assert!(ensure_branch_free(&existing, "other").is_ok());
    match ensure_branch_free(&existing, "feat") {
        Err(GitError::BranchAlreadyCheckedOut { branch, path }) => {
            assert_eq!(branch, "feat");
            assert_eq!(path, "/wt/a");
        }
        _ => panic!("expected BranchAlreadyCheckedOut"),
    }
    assert!(ensure_branch_free(&vec![wt("/d", None)], "main").is_ok());
}

#[test]
fn managed_worktrees_under_base() {
    let all = vec![wt("/repo", Some("main")), wt("/base/h/a", Some("a")), wt("/base/h/b", None)];
    let m = managed_worktrees(&all, "/base");
    assert_eq!(m.len(), 2);
    assert_eq!(m[0].path, "/base/h/a");
    assert_eq!(m[1].path, "/base/h/b");
    assert!(managed_worktrees(&all, "/nowhere").is_empty());
}

#[test]
fn orphaned_directories() {
    let active = vec!["/base/h/a".to_string()];
    assert!(is_orphaned_dir("/base/h/b", &active, true));
    assert!(!is_orphaned_dir("/base/h/a", &active, true));
    assert!(!is_orphaned_dir("/base/h/b", &active, false));
}

#[test]
fn worktree_add_arguments() {
    assert_eq!(
        worktree_add_args("/wt/x", Some("new"), Some("main")),
        vec!["worktree", "add", "-b", "new", "/wt/x", "main"]
    );
    assert_eq!(worktree_add_args("/wt/x", None, None), vec!["worktree", "add", "/wt/x"]);
    assert_eq!(worktree_add_args("/wt/x", None, Some("dev")), vec!["worktree", "add", "/wt/x", "dev"]);
}

#[test]
fn detached_head_recognised() {
    let detached = GitError::CommandFailed {
        code: 128,
        stderr: "fatal: ref HEAD is not a symbolic ref".to_string(),
        command: "git symbolic-ref --short HEAD".to_string(),
    };
    assert!(is_detached_head(&detached));
    let other = GitError::CommandFailed {
        code: 128,
        stderr: "fatal: not a git repository".to_string(),
        command: String::new(),
    };
    assert!(!is_detached_head(&other));
    assert!(!is_detached_head(&GitError::GitNotFound));
}

#[test]
fn branch_listing() {
    let lines = vec![
        "*|main|refs/heads",
        " |feature/x|refs/heads",
        " |origin/HEAD|refs/remotes",
        " |origin/main|refs/remotes",
        " |HEAD|refs",
        "malformed",
    ];
    let r = parse_branch_list(&lines);
    assert_eq!(r.len(), 3);
    assert_eq!(r[0].name, "main");
    assert!(r[0].is_current);
    assert!(!r[0].is_remote);
    assert_eq!(r[1].name, "feature/x");
    assert!(!r[1].is_current);
    assert_eq!(r[2].name, "origin/main");
    assert!(r[2].is_remote);
    assert!(!r[1].is_remote);
    let remote = parse_branch_list(&vec![" |origin/dev| refs/remotes "]);
    assert!(remote[0].is_remote);
    let bare_word = parse_branch_list(&vec![" |origin/dev|remotes"]);
    assert!(!bare_word[0].is_remote);
    let two_fields = parse_branch_list(&vec!["*|solo"]);
    assert_eq!(two_fields[0].name, "solo");
    assert!(!two_fields[0].is_remote);
}

#[test]
fn commit_listing() {
    let lines = vec![
        "aaaa|aa|bbbb cccc|Ann|ann@x.org|1700000000|Merge a|b",
        "bbbb|bb||Bob|bob@x.org|notanumber|Root",
        "short|line",
        "dddd|dd|eeee|Cy|cy@x.org|-5|Fix",
    ];
    let r = parse_commit_log(&lines);
    assert_eq!(r.len(), 3);
    assert_eq!(r[0].hash, "aaaa");
    assert_eq!(r[0].short_hash, "aa");
    assert_eq!(r[0].parent_hashes, vec!["bbbb".to_string(), "cccc".to_string()]);
    assert_eq!(r[0].author_name, "Ann");
    assert_eq!(r[0].author_email, "ann@x.org");
    assert_eq!(r[0].timestamp, 1700000000);
    assert_eq!(r[0].summary, "Merge a|b");
    assert!(r[1].parent_hashes.is_empty());
    assert_eq!(r[1].timestamp, 0);
    assert_eq!(r[2].parent_hashes, vec!["eeee".to_string()]);
    assert_eq!(r[2].timestamp, -5);
}

fn output(stdout: &str) -> GitOutput {
    GitOutput { stdout: stdout.to_string(), stderr: String::new() }
}

#[test]
fn log_arguments() {
    assert_eq!(
        commit_log_args(50, false),
        vec!["log", "--format=%H|%h|%P|%an|%ae|%at|%s", "-50", "--topo-order"]
    );
    assert_eq!(
        commit_log_args(0, true),
        vec!["log", "--format=%H|%h|%P|%an|%ae|%at|%s", "-0", "--topo-order", "--all"]
    );
}

#[test]
fn record_of_added_worktree() {
    let w = added_worktree("/wt/a", &output("abc123\n"), &Ok(output("feat\n")));
    assert_eq!(w.path, "/wt/a");
    assert_eq!(w.head, "abc123");
    assert_eq!(w.branch.as_deref(), Some("feat"));
    assert!(!w.is_bare);
    let d = added_worktree("/wt/b", &output("def\n"), &Err(GitError::GitNotFound));
    assert!(d.branch.is_none());
}

#[test]
fn current_branch_decisions() {
    match current_branch_from(Ok(output("main\n"))) {
        BranchLookup::Name(n) => assert_eq!(n, "main"),
        _ => panic!("expected a name"),
    }
    let detached = GitError::CommandFailed {
        code: 128,
        stderr: "fatal: ref HEAD is not a symbolic ref".to_string(),
        command: "x".to_string(),
    };
    assert!(matches!(current_branch_from(Err(detached)), BranchLookup::UseShortHash));
    let real = GitError::CommandFailed { code: 1, stderr: "boom".to_string(), command: "x".to_string() };
    match current_branch_from(Err(real)) {
        BranchLookup::Failed(GitError::CommandFailed { code, stderr, command }) => {
            assert_eq!(code, 1);
            assert_eq!(stderr, "boom");
            assert_eq!(command, "git symbolic-ref --short HEAD");
        }
        _ => panic!("expected a failure"),
    }
    assert!(matches!(
        current_branch_from(Err(GitError::GitNotFound)),
        BranchLookup::Failed(GitError::GitNotFound)
    ));
}

#[test]
fn outcome_of_a_run() {
    let ok = run_outcome(true, Some(0), b"out\n".to_vec(), b"warn".to_vec(), "git x".to_string()).unwrap();
    assert_eq!(ok.stdout, "out\n");
    assert_eq!(ok.stderr, "warn");
    match run_outcome(false, Some(128), Vec::new(), b"  fatal: no\n".to_vec(), "git y".to_string()) {
        Err(GitError::CommandFailed { code, stderr, command }) => {
            assert_eq!(code, 128);
            assert_eq!(stderr, "fatal: no");
            assert_eq!(command, "git y");
        }
        _ => panic!("expected CommandFailed"),
    }
    match run_outcome(false, None, Vec::new(), Vec::new(), "git z".to_string()) {
        Err(GitError::CommandFailed { code, .. }) => assert_eq!(code, -1),
        _ => panic!("expected CommandFailed"),
    }
    assert!(matches!(
        run_outcome(true, Some(0), vec![0xff], Vec::new(), "g".to_string()),
        Err(GitError::InvalidUtf8)
    ));
    assert!(matches!(
        run_outcome(false, Some(1), Vec::new(), vec![0xc3], "g".to_string()),
        Err(GitError::InvalidUtf8)
    ));
}
