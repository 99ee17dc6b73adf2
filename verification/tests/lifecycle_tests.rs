use doge_code::lifecycle::{
    cleanup_needed, finish_cleanup, finish_direct_termination, finish_termination, grace_step, kill_wait_error,
    process_group_exists, signal_group_result, ChildPoll, GraceStep, KillWait, ProcessGroupHandle,
};

const ESRCH: i32 = 3;
const EPERM: i32 = 1;

#[test]
fn handle_captures_positive_ids_only() {
    let h = ProcessGroupHandle::from_child(Some(4242));
    assert!(h.is_armed());
    assert_eq!(h.pgid(), Some(4242));
    assert!(h.kills_on_drop());
    let gone = ProcessGroupHandle::from_child(None);
    assert!(!gone.is_armed());
    assert_eq!(gone.pgid(), None);
    let huge = ProcessGroupHandle::from_child(Some(u32::MAX));
    assert!(!huge.is_armed());
    assert_eq!(huge.pgid(), None);
    let mut h = ProcessGroupHandle::from_child(Some(7));
    h.disarm();
    assert!(!h.is_armed());
    assert!(!h.kills_on_drop());
    assert_eq!(h.pgid(), Some(7));
}

#[test]
fn group_probe_and_signal_decisions() {
    assert!(process_group_exists(10, 0, None, ESRCH));
    assert!(!process_group_exists(10, -1, Some(ESRCH), ESRCH));
    assert!(process_group_exists(10, -1, Some(EPERM), ESRCH));
    assert!(!process_group_exists(0, 0, None, ESRCH));
    assert_eq!(signal_group_result(None, -1, Some(EPERM), ESRCH, "x".into()), Ok(()));
    assert_eq!(signal_group_result(Some(5), 0, None, ESRCH, "x".into()), Ok(()));
    assert_eq!(signal_group_result(Some(5), -1, Some(ESRCH), ESRCH, "x".into()), Ok(()));
    assert_eq!(signal_group_result(Some(5), -1, Some(EPERM), ESRCH, "denied".into()), Err("denied".to_string()));
}

#[test]
fn grace_period_steps() {
    assert!(matches!(grace_step(false, ChildPoll::Exited, false, false), GraceStep::Finished));
    assert!(matches!(
        grace_step(false, ChildPoll::Exited, true, false),
        GraceStep::Continue { child_reaped: true }
    ));
    assert!(matches!(
        grace_step(false, ChildPoll::Running, false, false),
        GraceStep::Continue { child_reaped: false }
    ));
    assert!(matches!(
        grace_step(true, ChildPoll::Running, true, true),
        GraceStep::Escalate { child_reaped: true, wait_error: None }
    ));
    match grace_step(false, ChildPoll::Failed("EINTR".into()), false, false) {
        GraceStep::Escalate { child_reaped: false, wait_error: Some(e) } => assert_eq!(e, "EINTR"),
        other => panic!("{:?}", other),
    }
}

#[test]
fn forced_kill_results() {
    assert_eq!(kill_wait_error(true, None, KillWait::TimedOut), None);
    assert_eq!(
        kill_wait_error(false, None, KillWait::TimedOut),
        Some("timed out waiting for the direct child after SIGKILL".to_string())
    );
    assert_eq!(kill_wait_error(false, Some("old".into()), KillWait::Exited), Some("old".to_string()));
    assert_eq!(kill_wait_error(false, Some("old".into()), KillWait::Failed("new".into())), Some("new".to_string()));

    let mut h = ProcessGroupHandle::from_child(Some(9));
    assert_eq!(finish_termination(&mut h, None, true), Err("process group still exists after SIGKILL".to_string()));
    assert!(h.is_armed());
    assert_eq!(finish_termination(&mut h, Some("wait failed".into()), false), Err("wait failed".to_string()));
    assert!(!h.is_armed());
    let mut h = ProcessGroupHandle::from_child(Some(9));
    assert_eq!(finish_termination(&mut h, None, false), Ok(()));
    assert!(!h.is_armed());

    let mut d = ProcessGroupHandle::from_child(None);
    assert_eq!(finish_direct_termination(&mut d, Err("io".into())), Err("io".to_string()));
    assert_eq!(finish_direct_termination(&mut d, Ok(())), Ok(()));
}

#[test]
fn cleanup_after_exit() {
    let mut h = ProcessGroupHandle::from_child(Some(11));
    assert!(!cleanup_needed(&mut h, false));
    assert!(!h.is_armed());
    let mut h = ProcessGroupHandle::from_child(Some(11));
    assert!(cleanup_needed(&mut h, true));
    assert!(h.is_armed());
    assert_eq!(finish_cleanup(&mut h, true), Err("process group still exists after cleanup".to_string()));
    assert!(h.is_armed());
    assert_eq!(finish_cleanup(&mut h, false), Ok(()));
    assert!(!h.is_armed());
}
