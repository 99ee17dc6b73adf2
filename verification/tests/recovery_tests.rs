use doge_code::config::AppConfig;
use doge_code::recovery::{
    DiagnosisEngine, ErrorContext, ErrorRecoveryTool, ErrorType, FixResult, FixStrategy, PatchErrorKind,
    PatchFixStrategy,
};

const PATCH: &str = "--- a/f.txt\n+++ b/f.txt\n@@ -1,3 +1,3 @@\n alpha\n-beta\n+BETA\n gamma\n";

fn context(source: &str) -> ErrorContext {
    ErrorContext {
        error_source: source.to_string(),
        file_path: "f.txt".to_string(),
        patch_content: PATCH.to_string(),
        command: String::new(),
        output: String::new(),
    }
}

fn kind_of(e: &ErrorType) -> PatchErrorKind {
    match e {
        ErrorType::PatchApplicationError { error_kind, .. } => *error_kind,
        _ => panic!("not a patch diagnosis"),
    }
}

#[test]
fn expected_context_takes_the_context_lines() {
    assert_eq!(DiagnosisEngine::extract_expected_context(PATCH), Some("alpha\ngamma".to_string()));
    assert_eq!(DiagnosisEngine::extract_expected_context("+only\n-added\n"), None);
    assert_eq!(DiagnosisEngine::extract_expected_context(" @@ not context\n"), None);
}

#[test]
fn diagnosis_kinds_follow_the_message() {
    let d = DiagnosisEngine;
    let cases = [
        ("error: context lines do not match", PatchErrorKind::ContextMismatch),
        ("line numbers do not match here", PatchErrorKind::LineNumberMismatch),
        ("File does not exist: f.txt", PatchErrorKind::FileNotFound),
        ("target is read-only", PatchErrorKind::PermissionDenied),
        ("no write permissions for f.txt", PatchErrorKind::PermissionDenied),
        ("garbage", PatchErrorKind::InvalidFormat),
    ];
    for (msg, kind) in cases {
        let e = d.diagnose_apply_patch_error(msg, "f.txt", PATCH, Some("alpha\nbeta\n".to_string()));
        assert_eq!(kind_of(&e), kind, "{}", msg);
    }
}

#[test]
fn context_mismatch_records_expected_and_actual() {
    let e = DiagnosisEngine.diagnose_apply_patch_error(
        "context lines do not match",
        "f.txt",
        PATCH,
        Some("alpha\nbeta\n".to_string()),
    );
    match e {
        ErrorType::PatchApplicationError { expected_context, actual_context, file_path, patch_content, .. } => {
            assert_eq!(expected_context.as_deref(), Some("alpha\ngamma"));
            assert_eq!(actual_context.as_deref(), Some("alpha\nbeta\n"));
            assert_eq!(file_path, "f.txt");
            assert_eq!(patch_content, PATCH);
        }
        _ => panic!("not a patch diagnosis"),
    }
    let other = DiagnosisEngine.diagnose_apply_patch_error("garbage", "f.txt", PATCH, Some("x".to_string()));
    match other {
        ErrorType::PatchApplicationError { expected_context, actual_context, .. } => {
            assert!(expected_context.is_none());
            assert!(actual_context.is_none());
        }
        _ => panic!("not a patch diagnosis"),
    }
}

#[test]
fn strategy_handles_patch_failures_only() {
    let s = PatchFixStrategy;
    let patch = DiagnosisEngine.diagnose_apply_patch_error("garbage", "f.txt", PATCH, None);
    assert!(s.can_handle(&patch));
    let runtime = ErrorType::RuntimeError { error_message: "boom".into(), stack_trace: None, file_path: "f".into() };
    assert!(!s.can_handle(&runtime));
    match s.attempt_fix(&runtime, None, Err("x".into())) {
        Err(e) => assert_eq!(e, "This strategy cannot handle this error type"),
        Ok(_) => panic!("runtime errors are not handled"),
    }
}

#[test]
fn fix_messages_for_each_kind() {
    let s = PatchFixStrategy;
    let d = |msg: &str| DiagnosisEngine.diagnose_apply_patch_error(msg, "f.txt", PATCH, None);
    match s.attempt_fix(&d("line numbers do not match"), None, Err(String::new())).unwrap() {
        FixResult::RequiresHumanIntervention { message } => assert_eq!(
            message,
            "Line numbers in patch do not match current file 'f.txt'. Please regenerate the patch with current file content."
        ),
        other => panic!("{:?}", other),
    }
    match s.attempt_fix(&d("File does not exist"), None, Err(String::new())).unwrap() {
        FixResult::Failed { reason } => assert_eq!(reason, "File 'f.txt' does not exist. Cannot apply patch."),
        other => panic!("{:?}", other),
    }
    match s.attempt_fix(&d("read-only"), None, Err(String::new())).unwrap() {
        FixResult::Failed { reason } => {
            assert_eq!(reason, "No permission to write to file 'f.txt'. Check file permissions.")
        }
        other => panic!("{:?}", other),
    }
    match s.attempt_fix(&d("garbage"), None, Err(String::new())).unwrap() {
        FixResult::Failed { reason } => {
            assert_eq!(reason, "Patch format is invalid for file 'f.txt'. Please check the patch format.")
        }
        other => panic!("{:?}", other),
    }
    match s.attempt_fix(&d("context lines do not match"), None, Err(String::new())).unwrap() {
        FixResult::RequiresHumanIntervention { message } => assert_eq!(
            message,
            "Context mismatch detected in 'f.txt', and current file content could not be read."
        ),
        other => panic!("{:?}", other),
    }
}

#[test]
fn context_mismatch_with_fuzzed_result_gives_a_new_patch() {
    let s = PatchFixStrategy;
    let e = DiagnosisEngine.diagnose_apply_patch_error(
        "context lines do not match",
        "f.txt",
        PATCH,
        Some("alpha\nbeta\ngamma\n".to_string()),
    );
    match s.attempt_fix(&e, None, Ok("alpha\nBETA\ngamma\n".to_string())).unwrap() {
        FixResult::PatchAdjustment { new_patch } => {
            assert!(new_patch.contains("-beta"), "{}", new_patch);
            assert!(new_patch.contains("+BETA"), "{}", new_patch);
            assert_ne!(new_patch, "alpha\nBETA\ngamma\n");
        }
        other => panic!("{:?}", other),
    }
    match s.attempt_fix(&e, None, Err("no hunk matched".to_string())).unwrap() {
        FixResult::RequiresHumanIntervention { message } => {
            assert_eq!(message, "Context mismatch recovery failed for 'f.txt': no hunk matched")
        }
        other => panic!("{:?}", other),
    }
}

#[test]
fn unparsable_patch_fails_recovery() {
    let s = PatchFixStrategy;
    let bad = "--- a/f.txt\n+++ b/f.txt\n@@ -x,y +z @@\n";
    let e = DiagnosisEngine.diagnose_apply_patch_error("context lines do not match", "f.txt", bad, None);
    match s.attempt_fix(&e, Some("alpha\n".to_string()), Ok("beta\n".to_string())).unwrap() {
        FixResult::Failed { reason } => {
            assert!(reason.starts_with("Patch parse failed during recovery: error parsing patch: "), "{}", reason)
        }
        other => panic!("{:?}", other),
    }
}

#[test]
fn recovery_tool_routes_by_source() {
    let tool = ErrorRecoveryTool::new(AppConfig::default());
    match tool.diagnose_error("garbage", &context("execute_bash"), None) {
        Err(e) => assert_eq!(e, "Unknown error source: execute_bash"),
        Ok(_) => panic!("only apply_patch is diagnosed"),
    }
    match tool.attempt_recovery("garbage", &context("execute_bash"), None, Err(String::new())) {
        Err(e) => assert_eq!(e, "Unknown error source: execute_bash"),
        Ok(_) => panic!("only apply_patch is recovered"),
    }
    let d = tool.diagnose_error("File does not exist", &context("apply_patch"), None).unwrap();
    assert_eq!(kind_of(&d), PatchErrorKind::FileNotFound);
    match tool.attempt_recovery("File does not exist", &context("apply_patch"), None, Err(String::new())).unwrap() {
        FixResult::Failed { reason } => assert_eq!(reason, "File 'f.txt' does not exist. Cannot apply patch."),
        other => panic!("{:?}", other),
    }
}

#[test]
fn oversized_hunk_numbers_fail_without_parsing() {
    let huge = "--- a/f.txt\n+++ b/f.txt\n@@ -18446744073709551615 +1 @@\n x\n@@ -1 +1 @@\n y\n";
    assert!(doge_code::recovery::has_oversized_hunk_numbers(huge));
    assert!(!doge_code::recovery::has_oversized_hunk_numbers(PATCH));
    assert!(!doge_code::recovery::has_oversized_hunk_numbers("--- a\n+++ b\n@@ -1 +1 @@\n+12345678901234\n"));
    let e = DiagnosisEngine.diagnose_apply_patch_error("context lines do not match", "f.txt", huge, None);
    match PatchFixStrategy.attempt_fix(&e, Some("x\n".to_string()), Ok("y\n".to_string())).unwrap() {
        FixResult::Failed { reason } => {
            assert_eq!(reason, "Patch parse failed during recovery: hunk line numbers out of range")
        }
        other => panic!("{:?}", other),
    }
}
