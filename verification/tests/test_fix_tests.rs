use doge_code::test_fix::{build_fix_prompt, select_test_command, truncate_output, MAX_OUTPUT_BYTES};
use doge_code::testing::{
    detect_language, detect_project_languages, extract_related_files, get_test_configs, parse_rust_stack_trace,
    parse_test_output, python_test_commands, test_result_of, typescript_test_commands, FailedTest, ProjectMarkers,
    RustScan, TestResult, TestRunOutcome,
};

fn markers(cargo: bool, go: bool, package: bool, python: bool) -> ProjectMarkers {
    ProjectMarkers { cargo_toml: cargo, go_mod: go, package_json: package, python_project: python }
}

fn language_of(m: ProjectMarkers) -> String {
    detect_language(&detect_project_languages(&m, &[]))
}

#[test]
fn test_detect_language_rust() {
    assert_eq!(language_of(markers(true, false, false, false)), "rust");
}

#[test]
fn test_detect_language_go() {
    assert_eq!(language_of(markers(false, true, false, false)), "go");
}

#[test]
fn test_detect_language_python() {
    assert_eq!(language_of(markers(false, false, false, true)), "python");
}

#[test]
fn test_detect_language_typescript() {
    assert_eq!(language_of(markers(false, false, true, false)), "typescript");
}

#[test]
fn test_build_fix_prompt() {
    let result = TestResult {
        command: "cargo test".to_string(),
        stdout: "test output".to_string(),
        stderr: "error message".to_string(),
        success: false,
        exit_code: Some(1),
        failed_tests: Vec::new(),
    };
    let prompt = build_fix_prompt(&result, 1);
    assert!(prompt.contains("TEST_FAILURE_ANALYSIS"));
    assert!(prompt.contains("test output"));
    assert!(prompt.contains("error message"));
}

#[test]
fn languages_from_extensions_are_deduplicated_in_order() {
    let exts = vec!["rs".to_string(), "py".to_string(), "rs".to_string(), "md".to_string()];
    let langs = detect_project_languages(&markers(false, false, false, false), &exts);
    assert_eq!(langs, vec!["rust".to_string(), "python".to_string()]);
}

#[test]
fn test_configs_follow_project_facts() {
    let configs = get_test_configs(Some(r#"{"name":"x","scripts":{"lint":"eslint","test":"jest"}}"#.to_string()), true);
    let langs: Vec<&str> = configs.iter().map(|(l, _)| l.as_str()).collect();
    assert_eq!(langs, vec!["go", "rust", "typescript", "python"]);
    assert_eq!(configs[1].1.commands[0].command, "cargo");
    assert_eq!(configs[2].1.commands[0].command, "npm");
    assert_eq!(configs[2].1.commands[0].args, vec!["run".to_string(), "test".to_string()]);
    assert_eq!(configs[3].1.commands[0].command, "pytest");
    let none = typescript_test_commands(&None);
    assert!(none.is_empty());
    let py = python_test_commands(false);
    assert_eq!(py[0].command, "python");
    assert_eq!(py[0].args, vec!["-m".to_string(), "pytest".to_string(), "-v".to_string()]);
}

#[test]
fn select_test_command_reports_missing_language() {
    let configs = get_test_configs(None, false);
    assert!(select_test_command(&configs, "rust").is_ok());
    assert!(select_test_command(&configs, "cobol").is_err());
    assert!(select_test_command(&configs, "typescript").is_err());
}

#[test]
fn rust_failures_are_parsed_from_cargo_output() {
    let stdout = "running 2 tests\ntest tests::it_works ... ok\ntest tests::it_fails ... FAILED\n\nfailures:\n\n---- tests::it_fails stdout ----\nthread 'tests::it_fails' panicked at src/lib.rs:10:5:\nassertion failed\n\ntest result: FAILED. 1 passed; 1 failed\n";
    let result = TestResult {
        command: "cargo test".to_string(),
        stdout: stdout.to_string(),
        stderr: String::new(),
        success: false,
        exit_code: Some(101),
        failed_tests: Vec::new(),
    };
    let failed = parse_test_output(&result, "rust");
    assert!(failed.iter().any(|t| t.name == "tests::it_fails"));
}

#[test]
fn stack_frames_and_related_files() {
    let frames = parse_rust_stack_trace("   0: mycrate::module::func\n             at ./src/module.rs:42:7\n");
    assert!(!frames.is_empty());
    let t = FailedTest {
        name: "t".to_string(),
        file_path: Some("src/a.rs".to_string()),
        line_number: Some(3),
        message: String::new(),
        expected: None,
        actual: None,
        stack_trace: None,
        related_files: vec!["src/b.rs".to_string(), "src/a.rs".to_string()],
    };
    let files = extract_related_files(&[t]);
    assert!(files.contains(&"src/a.rs".to_string()));
    assert!(files.contains(&"src/b.rs".to_string()));
    assert_eq!(files.len(), 2);
}

#[test]
fn long_output_keeps_its_tail() {
    let long = format!("{}END", "x".repeat(MAX_OUTPUT_BYTES + 50));
    let t = truncate_output(&long);
    assert!(t.starts_with("...(truncated)\n"));
    assert!(t.ends_with("END"));
    assert_eq!(t.len(), "...(truncated)\n".len() + MAX_OUTPUT_BYTES);
    assert_eq!(truncate_output("short"), "short");
}

#[test]
fn test_results_record_how_the_run_ended() {
    let args = vec!["test".to_string(), "--quiet".to_string()];
    let done = test_result_of(
        "cargo",
        &args,
        1000,
        TestRunOutcome::Finished {
            stdout: b"ok\n".to_vec(),
            stderr: vec![0xff],
            success: true,
            exit_code: Some(0),
        },
    );
    assert_eq!(done.command, "cargo test --quiet");
    assert_eq!(done.stdout, "ok\n");
    assert_eq!(done.stderr, "\u{fffd}");
    assert!(done.success);
    assert_eq!(done.exit_code, Some(0));
    assert!(done.failed_tests.is_empty());

    let missing = test_result_of("nope", &vec![], 1000, TestRunOutcome::SpawnFailed("not found".to_string()));
    assert_eq!(missing.command, "nope ");
    assert_eq!(missing.stderr, "Failed to run tests: not found");
    assert!(!missing.success);
    assert_eq!(missing.exit_code, None);

    let slow = test_result_of("go", &vec!["test".to_string()], 2500, TestRunOutcome::TimedOut);
    assert_eq!(slow.stderr, "Test execution timed out after 2500ms");
    assert!(slow.stdout.is_empty());
    assert!(!slow.success);
}

#[test]
fn package_json_scripts_choose_the_npm_command() {
    let unit = get_test_configs(Some(r#"{"scripts":{"test:unit":"x","test:all":"y"}}"#.to_string()), false);
    assert_eq!(unit[2].1.commands[0].args, vec!["run".to_string(), "test:unit".to_string()]);
    assert!(get_test_configs(Some("not json".to_string()), false)[2].1.commands.is_empty());
    assert!(get_test_configs(Some(r#"{"scripts":["test"]}"#.to_string()), false)[2].1.commands.is_empty());
    assert!(get_test_configs(Some(r#"{"scripts":{"build":"tsc"}}"#.to_string()), false)[2].1.commands.is_empty());
}

#[test]
fn rust_scan_steps_over_matched_groups() {
    use_rust_scan();
}

fn use_rust_scan() {
    let mut scan = RustScan::new();
    scan.step(None, Some(vec![Some("x".into()), Some("t".into()), Some("src/a.rs".into()), Some("7".into()), Some("1".into())]));
    scan.step(Some(vec![Some("test a ... FAILED".into()), Some("a".into())]), None);
    scan.step(Some(vec![Some("test b ... FAILED".into()), Some("b".into())]), None);
    let out = scan.finish(Some(vec![None, Some("x == y".into()), Some("1".into()), Some("2".into())]));
    assert_eq!(out.len(), 2);
    assert_eq!(out[0].name, "a");
    assert_eq!(out[0].file_path.as_deref(), Some("src/a.rs"));
    assert_eq!(out[0].line_number, Some(7));
    assert_eq!(out[0].expected.as_deref(), Some("1"));
    assert_eq!(out[0].actual.as_deref(), Some("2"));
    assert_eq!(out[1].name, "b");
    assert_eq!(out[1].file_path, None);
    assert_eq!(out[1].expected, None);
}

#[test]
fn related_files_are_unique_and_complete() {
    let failure = |file: &str, related: &[&str]| FailedTest {
        name: "t".into(),
        file_path: Some(file.into()),
        line_number: None,
        message: String::new(),
        expected: None,
        actual: None,
        stack_trace: None,
        related_files: related.iter().map(|s| s.to_string()).collect(),
    };
    let files = extract_related_files(&[failure("a.rs", &["b.rs", "a.rs"]), failure("b.rs", &["c.rs"])]);
    assert_eq!(files, vec!["a.rs".to_string(), "b.rs".to_string(), "c.rs".to_string()]);
}
