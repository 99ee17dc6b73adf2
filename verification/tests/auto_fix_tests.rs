use doge_code::auto_fix::{AutoFixer, FixLoopAction};

/// Drives the loop with check outcomes in order; returns the final success,
/// the iterations reported, and the fix prompts requested.
fn drive(budget: usize, outcomes: &[bool]) -> (bool, usize, Vec<String>) {
    let mut fixer = AutoFixer::new(Vec::<String>::new(), budget);
    let mut fixes = Vec::new();
    let mut checks = outcomes.iter();
    loop {
        let success = *checks.next().expect("a check outcome for every check");
        match fixer.after_check(success) {
            FixLoopAction::RequestFix { iteration } => fixes.push(format!("fix {}", iteration)),
            FixLoopAction::Finish { iterations, success } => return (success, iterations, fixes),
        }
    }
}

#[test]
fn test_auto_fixer_success_first_try() {
    let (success, iters, fixes) = drive(3, &[true]);
    assert!(success);
    assert_eq!(iters, 0);
    assert!(fixes.is_empty());
}

#[test]
fn test_auto_fixer_retry_success() {
    let (success, iters, fixes) = drive(3, &[false, true]);
    assert!(success);
    assert_eq!(iters, 1);
    assert_eq!(fixes.len(), 1);
}

#[test]
fn test_auto_fixer_max_iters() {
    let (success, iters, fixes) = drive(2, &[false, false, false]);
    assert!(!success);
    assert_eq!(iters, 2);
    assert_eq!(fixes, vec!["fix 1".to_string(), "fix 2".to_string()]);
}

#[test]
fn a_reused_fixer_starts_each_run_afresh() {
    let mut fixer = AutoFixer::new((), 2);
    assert_eq!(fixer.after_check(false), FixLoopAction::RequestFix { iteration: 1 });
    assert_eq!(fixer.after_check(true), FixLoopAction::Finish { iterations: 1, success: true });
    fixer.start_run();
    assert_eq!(fixer.after_check(false), FixLoopAction::RequestFix { iteration: 1 });
    assert_eq!(fixer.after_check(false), FixLoopAction::RequestFix { iteration: 2 });
    assert_eq!(fixer.after_check(false), FixLoopAction::Finish { iterations: 2, success: false });
}
