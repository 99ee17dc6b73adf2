use doge_code::worktree::{WorktreeError, WorktreeManager};

#[test]
fn test_is_git_repository() {
    assert!(WorktreeManager::inside_work_tree(true, b"true\n".to_vec()).unwrap());
    assert!(!WorktreeManager::inside_work_tree(true, b"false\n".to_vec()).unwrap());
    assert!(!WorktreeManager::inside_work_tree(false, Vec::new()).unwrap());
}

#[test]
fn test_create_worktree() {
    let path = WorktreeManager::worktree_path("/tmp/worktrees", "test-id");
    assert_eq!(path, "/tmp/worktrees/test-id");
    assert_eq!(
        WorktreeManager::worktree_add_args(&path, "doge/test-id"),
        vec!["worktree".to_string(), "add".to_string(), path.clone(), "doge/test-id".to_string()]
    );
    assert_eq!(WorktreeManager::worktree_result(true, Vec::new(), Vec::new(), path.clone()).unwrap(), path);
}

#[test]
fn worktree_failures_carry_the_output() {
    let r = WorktreeManager::worktree_result(false, b"out".to_vec(), b"err".to_vec(), "/p".to_string());
    match r {
        Err(WorktreeError::CommandFailed { stdout, stderr }) => {
            assert_eq!(stdout, "out");
            assert_eq!(stderr, "err");
        }
        _ => panic!("expected a command failure"),
    }
    let bad = WorktreeManager::inside_work_tree(true, vec![0xff, 0xfe]);
    assert!(matches!(bad, Err(WorktreeError::Utf8Error(_))));
}
