use maestro::git::{validate_repo_path, Git, GitError, GitOutput};
use maestro::session_manager::{AiMode, SessionManager, SessionStatus};
use maestro::spawn::{login_flag, session_pids, shell_program};
use maestro::worktree::{repo_hash, sanitize_branch, worktree_base_dir, WorktreeManager};
use maestro::error::PtyErrorCode;

#[test]
fn create_and_get_session() {
    let mut m = SessionManager::new();
    let c = m.create_session(3, AiMode::Claude).unwrap();
    assert_eq!(c.id, 3);
    assert_eq!(c.mode, AiMode::Claude);
    assert_eq!(c.status, SessionStatus::Starting);
    assert!(c.branch.is_none());
    assert!(c.worktree_path.is_none());
    let g = m.get_session(3).unwrap();
    assert_eq!(g.id, 3);
    assert!(m.get_session(4).is_none());
}

#[test]
fn update_status_of_known_and_unknown_sessions() {
    let mut m = SessionManager::new();
    m.create_session(1, AiMode::Plain).unwrap();
    assert!(m.update_status(1, SessionStatus::Working));
    assert_eq!(m.get_session(1).unwrap().status, SessionStatus::Working);
    assert!(!m.update_status(2, SessionStatus::Done));
    assert!(m.get_session(2).is_none());
}

#[test]
fn assign_branch_sets_branch_and_worktree() {
    let mut m = SessionManager::new();
    m.create_session(1, AiMode::Codex).unwrap();
    let c = m
        .assign_branch(1, "feature/x".to_string(), Some("/wt/x".to_string()))
        .unwrap();
    assert_eq!(c.branch.as_deref(), Some("feature/x"));
    assert_eq!(c.worktree_path.as_deref(), Some("/wt/x"));
    assert_eq!(c.mode, AiMode::Codex);
    let c2 = m.assign_branch(1, "main".to_string(), None).unwrap();
    assert_eq!(c2.branch.as_deref(), Some("main"));
    assert!(c2.worktree_path.is_none());
    assert!(m.assign_branch(9, "main".to_string(), None).is_none());
}

#[test]
fn all_sessions_and_remove() {
    let mut m = SessionManager::new();
    assert!(m.all_sessions().is_empty());
    m.create_session(1, AiMode::Gemini).unwrap();
    m.create_session(2, AiMode::Plain).unwrap();
    let existing = m.create_session(2, AiMode::Claude).unwrap_err();
    assert_eq!(existing.mode, AiMode::Plain);
    let mut ids: Vec<u32> = m.all_sessions().iter().map(|c| c.id).collect();
    ids.sort();
    assert_eq!(ids, vec![1, 2]);
    assert_eq!(m.get_session(2).unwrap().mode, AiMode::Plain);
    let r = m.remove_session(1).unwrap();
    assert_eq!(r.mode, AiMode::Gemini);
    assert!(m.remove_session(1).is_none());
    assert_eq!(m.all_sessions().len(), 1);
}

#[test]
fn shell_choice() {
    assert_eq!(shell_program(Some("/bin/zsh".to_string())), "/bin/zsh");
    assert_eq!(shell_program(None), "/bin/sh");
    assert_eq!(login_flag(), "-l");
}

#[test]
fn pids_of_spawned_shell() {
    assert_eq!(session_pids(Some(42), Some(42)).unwrap(), (42, 42));
    assert_eq!(session_pids(Some(42), Some(7)).unwrap(), (42, 7));
    assert_eq!(session_pids(Some(42), None).unwrap(), (42, 42));
    let e = session_pids(None, Some(1)).unwrap_err();
    assert_eq!(e.code, PtyErrorCode::SpawnFailed);
    assert_eq!(e.message, "Could not obtain child PID");
    assert!(session_pids(Some(u32::MAX), None).is_err());
}

#[test]
fn branch_names_become_path_components() {
    assert_eq!(sanitize_branch("feature/login"), "feature-login");
    assert_eq!(sanitize_branch("a\\b:c*d?e\"f<g>h|i"), "a-b-c-d-e-f-g-h-i");
    assert_eq!(sanitize_branch("plain"), "plain");
    assert_eq!(sanitize_branch(""), "");
}

#[test]
fn repo_hash_is_digest_prefix() {
    assert_eq!(repo_hash("/home/u/repo"), "955a1c43bce17738");
    assert_eq!(repo_hash("/home/u/repo").len(), 16);
    assert_ne!(repo_hash("/home/u/repo"), repo_hash("/home/u/other"));
}

#[test]
fn worktree_locations() {
    assert_eq!(
        worktree_base_dir(Some("/d/maestro".to_string()), Some("/home/u".to_string())),
        "/d/maestro/worktrees"
    );
    assert_eq!(
        worktree_base_dir(None, Some("/home/u".to_string())),
        "/home/u/.local/share/maestro/worktrees"
    );
    assert_eq!(worktree_base_dir(None, None), "/tmp/.local/share/maestro/worktrees");
    let w = WorktreeManager::new();
    assert_eq!(
        w.worktree_path("/base", "/home/u/repo", "feat/a"),
        "/base/955a1c43bce17738/feat-a"
    );
}

#[test]
fn git_output_lines_and_trim() {
    let o = GitOutput {
        stdout: "  a\n\nb\r\n\nc\n".to_string(),
        stderr: String::new(),
    };
    assert_eq!(o.lines(), vec!["  a", "b", "c"]);
    assert_eq!(o.trimmed(), "a\n\nb\r\n\nc");
    let empty = GitOutput { stdout: String::new(), stderr: String::new() };
    assert!(empty.lines().is_empty());
    assert_eq!(empty.trimmed(), "");
}

#[test]
fn repo_path_validation() {
    assert!(validate_repo_path("/repo").is_ok());
    match validate_repo_path("") {
        Err(GitError::NotARepo { path }) => assert_eq!(path, ""),
        _ => panic!("expected NotARepo"),
    }
    assert_eq!(Git::new("/repo".to_string()).repo_path, "/repo");
}
