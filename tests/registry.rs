use maestro::error::{PtyError, PtyErrorCode};
use maestro::geometry::validate_dimensions;
use maestro::manager::{ProcessManager, PtySession};
use maestro::spawn::{spawn_plan, SpawnPlan};

fn plan() -> SpawnPlan {
    spawn_plan(None, None)
}

fn session(pid: i32) -> Result<PtySession<i32>, String> {
    Ok(PtySession { child_pid: pid, pgid: pid, io: pid })
}

fn manager_with_two() -> ProcessManager<i32> {
    let mut m: ProcessManager<i32> = ProcessManager::new();
    assert_eq!(m.spawn_shell(&plan(), |_id, _p| session(100)).unwrap(), 1);
    assert_eq!(m.spawn_shell(&plan(), |_id, _p| session(200)).unwrap(), 2);
    m
}

fn assert_not_found<T>(r: Result<T, PtyError>, id: u32) {
    match r {
        Err(e) => {
            assert_eq!(e.code, PtyErrorCode::SessionNotFound);
            assert_eq!(e.message, format!("Session {} not found", id));
        }
        Ok(_) => panic!("expected SessionNotFound"),
    }
}

#[test]
fn spawned_ids_are_unique_and_increasing() {
    let mut m: ProcessManager<i32> = ProcessManager::new();
    let mut last = 0;
    for _ in 0..10 {
        let id = m.spawn_shell(&plan(), |_id, _p| session(1)).unwrap();
        assert!(id > last);
        last = id;
    }
    assert_eq!(last, 10);
    assert_eq!(m.session_count(), 10);
}

#[test]
fn launch_receives_the_issued_id() {
    let mut m: ProcessManager<i32> = ProcessManager::new();
    let p = spawn_plan(Some("/bin/zsh".to_string()), Some("/tmp".to_string()));
    let mut seen = None;
    let id = m
        .spawn_shell(&p, |id, plan| {
            seen = Some((plan.program.clone(), plan.args.clone(), plan.cwd.clone(), plan.rows, plan.cols));
            Ok(PtySession { child_pid: 5, pgid: 6, io: id as i32 })
        })
        .unwrap();
    assert_eq!(
        seen,
        Some(("/bin/zsh".to_string(), vec!["-l".to_string()], Some("/tmp".to_string()), 24, 80))
    );
    let s = m.session(id).unwrap();
    assert_eq!(s.io, id as i32);
    assert_eq!(s.child_pid, 5);
    assert_eq!(s.pgid, 6);
}

#[test]
fn failed_launch_spends_the_id_and_registers_nothing() {
    let mut m: ProcessManager<i32> = ProcessManager::new();
    let r = m.spawn_shell(&plan(), |_id, _p| Err("Failed to open PTY: no".to_string()));
    let e = r.unwrap_err();
    assert_eq!(e.code, PtyErrorCode::SpawnFailed);
    assert_eq!(e.message, "Failed to open PTY: no");
    assert_eq!(m.session_count(), 0);
    assert!(!m.contains_session(1));
    assert_eq!(m.spawn_shell(&plan(), |_id, _p| session(1)).unwrap(), 2);
}

#[test]
fn never_issued_ids_are_not_found() {
    let mut m = manager_with_two();
    for id in [0u32, 3, 99, u32::MAX] {
        assert_not_found(m.write_stdin(id, "ls\n", |_io, _d| Ok(())), id);
        assert_not_found(m.resize_pty(id, 24, 80, |_io, _r, _c| Ok(())), id);
        assert_not_found(m.kill_session(id), id);
    }
    assert_eq!(m.session_count(), 2);
}

#[test]
fn killed_session_is_no_longer_writable_or_resizable() {
    let mut m = manager_with_two();
    let s = m.kill_session(1).unwrap();
    assert_eq!(s.child_pid, 100);
    assert_not_found(m.write_stdin(1, "x", |_io, _d| Ok(())), 1);
    assert_not_found(m.resize_pty(1, 24, 80, |_io, _r, _c| Ok(())), 1);
    assert!(m.write_stdin(2, "x", |_io, _d| Ok(())).is_ok());
}

#[test]
fn second_kill_is_not_found() {
    let mut m = manager_with_two();
    assert!(m.kill_session(2).is_ok());
    assert_not_found(m.kill_session(2), 2);
    assert_eq!(m.spawn_shell(&plan(), |_id, _p| session(3)).unwrap(), 3);
}

#[test]
fn write_reaches_the_session_handle() {
    let m = manager_with_two();
    let mut seen = Vec::new();
    m.write_stdin(2, "echo hi\n", |io, d| {
        seen.push((*io, d.to_string()));
        Ok(())
    })
    .unwrap();
    assert_eq!(seen, vec![(200, "echo hi\n".to_string())]);
}

#[test]
fn write_failure_is_write_failed() {
    let m = manager_with_two();
    let e = m.write_stdin(1, "x", |_io, _d| Err("Write failed: broken pipe".to_string())).unwrap_err();
    assert_eq!(e.code, PtyErrorCode::WriteFailed);
    assert_eq!(e.message, "Write failed: broken pipe");
}

#[test]
fn resize_boundaries() {
    let m = manager_with_two();
    for (rows, cols) in [(0u16, 80u16), (24, 0), (501, 80), (24, 501), (0, 0)] {
        let mut called = false;
        let e = m.resize_pty(1, rows, cols, |_io, _r, _c| {
            called = true;
            Ok(())
        })
        .unwrap_err();
        assert_eq!(e.code, PtyErrorCode::ResizeFailed);
        assert_eq!(e.message, "Invalid dimensions");
        assert!(!called);
    }
    let mut applied = None;
    m.resize_pty(1, 24, 80, |io, r, c| {
        applied = Some((*io, r, c));
        Ok(())
    })
    .unwrap();
    assert_eq!(applied, Some((100, 24, 80)));
    assert!(m.resize_pty(1, 500, 500, |_io, _r, _c| Ok(())).is_ok());
    assert!(m.resize_pty(1, 1, 1, |_io, _r, _c| Ok(())).is_ok());
}

#[test]
fn invalid_dimensions_win_over_unknown_id() {
    let m = manager_with_two();
    let e = m.resize_pty(42, 0, 80, |_io, _r, _c| Ok(())).unwrap_err();
    assert_eq!(e.code, PtyErrorCode::ResizeFailed);
}

#[test]
fn resize_failure_is_resize_failed() {
    let m = manager_with_two();
    let e = m.resize_pty(2, 30, 100, |_io, _r, _c| Err("Resize failed: ioctl".to_string())).unwrap_err();
    assert_eq!(e.code, PtyErrorCode::ResizeFailed);
    assert_eq!(e.message, "Resize failed: ioctl");
}

#[test]
fn validate_dimensions_bounds() {
    assert!(validate_dimensions(24, 80).is_ok());
    assert!(validate_dimensions(500, 1).is_ok());
    assert!(validate_dimensions(0, 80).is_err());
    assert!(validate_dimensions(80, 0).is_err());
    assert!(validate_dimensions(501, 80).is_err());
    assert!(validate_dimensions(80, 501).is_err());
}

#[test]
fn error_constructors_and_text() {
    let e = PtyError::session_not_found(42);
    assert_eq!(e.code, PtyErrorCode::SessionNotFound);
    assert_eq!(e.message, "Session 42 not found");
    assert_eq!(e.to_text(), "SessionNotFound: Session 42 not found");
    assert_eq!(PtyError::session_not_found(0).message, "Session 0 not found");
    assert_eq!(PtyError::session_not_found(u32::MAX).message, "Session 4294967295 not found");
    assert_eq!(PtyError::write_failed("w".to_string()).code, PtyErrorCode::WriteFailed);
    assert_eq!(PtyError::resize_failed("r".to_string()).code, PtyErrorCode::ResizeFailed);
    let k = PtyError::kill_failed("k".to_string());
    assert_eq!(k.code, PtyErrorCode::KillFailed);
    assert_eq!(k.to_text(), "KillFailed: k");
    assert_eq!(PtyError::spawn_failed("s".to_string()).to_text(), "SpawnFailed: s");
}

#[test]
fn default_registry_is_empty() {
    let mut m: ProcessManager<()> = ProcessManager::default();
    assert_eq!(m.session_count(), 0);
    let id = m.spawn_shell(&plan(), |_id, _p| Ok(PtySession { child_pid: 1, pgid: 1, io: () })).unwrap();
    assert_eq!(id, 1);
}

#[test]
fn two_phase_spawn() {
    let mut m: ProcessManager<i32> = ProcessManager::new();
    let t1 = m.begin_spawn().unwrap();
    let t2 = m.begin_spawn().unwrap();
    assert_eq!((t1.id(), t2.id()), (1, 2));
    assert!(!m.contains_session(1));
    let e = m.finish_spawn(t2, Err("Failed to spawn shell: x".to_string())).unwrap_err();
    assert_eq!(e.code, PtyErrorCode::SpawnFailed);
    assert_eq!(e.message, "Failed to spawn shell: x");
    assert_eq!(m.finish_spawn(t1, session(9)).unwrap(), 1);
    assert_eq!(m.session(1).unwrap().child_pid, 9);
    assert!(!m.contains_session(2));
    assert_eq!(m.begin_spawn().unwrap().id(), 3);
}

#[test]
fn default_spawn_plan() {
    let p = spawn_plan(None, None);
    assert_eq!(p.program, "/bin/sh");
    assert_eq!(p.args, vec!["-l".to_string()]);
    assert!(p.cwd.is_none());
    assert_eq!((p.rows, p.cols), (24, 80));
}
