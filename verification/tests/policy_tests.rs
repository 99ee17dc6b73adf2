use doge_code::config::{AppConfig, ExecutionConfig, ExecutionMode};
use doge_code::paths::PathFact;
use doge_code::policy::{
    contains_shell_syntax, parse_simple_command, validate_program_syntax, ExecutionPolicy, PolicyDenial,
    ProcessRequest,
};

const ROOT: &str = "/work/project";

fn dir_fact(path: &str, canonical: &str) -> PathFact {
    PathFact { path: path.to_string(), exists: true, is_dir: true, canonical: Some(canonical.to_string()) }
}

fn root_facts() -> Vec<PathFact> {
    vec![dir_fact(ROOT, ROOT)]
}

fn config_with_execution(exec: ExecutionConfig) -> AppConfig {
    AppConfig { project_root: ROOT.to_string(), execution: exec, execution_configured: true, ..Default::default() }
}

fn allowlist_cfg(programs: &[&str], env: &[&str]) -> AppConfig {
    let exec = ExecutionConfig {
        mode: ExecutionMode::Allowlist,
        allowed_programs: programs.iter().map(|s| s.to_string()).collect(),
        allowed_env: env.iter().map(|s| s.to_string()).collect(),
        allow_shell: false,
    };
    config_with_execution(exec)
}

fn req(program: &str, args: &[&str]) -> ProcessRequest {
    ProcessRequest {
        program: program.to_string(),
        args: args.iter().map(|s| s.to_string()).collect(),
        cwd: None,
        env: vec![],
        timeout_ms: None,
    }
}

#[test]
fn test_allowlist_success() {
    let policy = ExecutionPolicy::new(allowlist_cfg(&["cargo"], &[]));
    assert!(policy.check_process(&req("cargo", &["--version"]), &root_facts()).is_ok());
    assert!(policy.check_process(&req("cargo", &["clippy", "--all"]), &root_facts()).is_ok());
}

#[test]
fn test_program_mismatch_denied() {
    let policy = ExecutionPolicy::new(allowlist_cfg(&["cargo"], &[]));
    let err = policy.check_process(&req("git", &["status"]), &root_facts()).unwrap_err();
    assert!(matches!(err, PolicyDenial::ProgramNotAllowed { .. }));
}

#[test]
fn test_program_name_injection_denied() {
    let policy = ExecutionPolicy::new(allowlist_cfg(&["cargo"], &[]));
    for evil in ["cargo;rm", "cargo && rm", "cargo|rm", "cargo$(rm)", "cargo`rm`", "cargo rm"] {
        assert!(policy.check_process(&req(evil, &[]), &root_facts()).is_err(), "should deny {evil}");
    }
}

#[test]
fn test_relative_executable_bypass_denied() {
    let policy = ExecutionPolicy::new(allowlist_cfg(&["cargo"], &[]));
    for evil in ["./cargo", "../cargo", "sub/cargo", ".\\cargo"] {
        assert!(policy.check_process(&req(evil, &[]), &root_facts()).is_err(), "should deny {evil}");
    }
}

#[test]
fn test_absolute_executable_bypass_denied() {
    let policy = ExecutionPolicy::new(allowlist_cfg(&["cargo"], &[]));
    assert!(policy.check_process(&req("/tmp/cargo", &[]), &root_facts()).is_err());
    assert!(policy.check_process(&req("/usr/bin/cargo", &[]), &root_facts()).is_err());
}

#[test]
fn test_absolute_rule_allows_exact_path() {
    let tool = "/work/project/tool";
    let exec = ExecutionConfig {
        mode: ExecutionMode::Allowlist,
        allowed_programs: vec![tool.to_string()],
        allow_shell: false,
        ..ExecutionConfig::default()
    };
    let policy = ExecutionPolicy::new(config_with_execution(exec));
    let mut facts = root_facts();
    facts.push(PathFact { path: tool.to_string(), exists: true, is_dir: false, canonical: Some(tool.to_string()) });
    assert!(policy.check_process(&req(tool, &[]), &facts).is_ok());
    assert!(policy.check_process(&req("/tmp/other", &[]), &facts).is_err());
}

#[test]
fn test_deny_mode_denies_everything() {
    let exec = ExecutionConfig { mode: ExecutionMode::Deny, ..ExecutionConfig::default() };
    let policy = ExecutionPolicy::new(config_with_execution(exec));
    assert!(matches!(policy.check_process(&req("cargo", &[]), &root_facts()).unwrap_err(), PolicyDenial::GlobalDeny));
    assert!(policy.check_shell().is_err());
}

#[test]
fn test_unrestricted_allows() {
    let policy = ExecutionPolicy::new(AppConfig { project_root: ROOT.to_string(), ..Default::default() });
    assert!(policy.check_process(&req("anything", &[]), &root_facts()).is_ok());
    assert!(policy.check_shell().is_ok());
}

#[test]
fn test_shell_disabled() {
    let policy = ExecutionPolicy::new(allowlist_cfg(&["cargo"], &[]));
    assert!(!policy.is_shell_allowed());
    assert!(matches!(policy.check_shell().unwrap_err(), PolicyDenial::ShellDisabled));
}

#[test]
fn test_env_policy() {
    let policy = ExecutionPolicy::new(allowlist_cfg(&["cargo"], &["RUST_BACKTRACE"]));
    let ok_req = ProcessRequest {
        program: "cargo".to_string(),
        args: vec![],
        cwd: None,
        env: vec![("RUST_BACKTRACE".to_string(), "1".to_string())],
        timeout_ms: None,
    };
    assert!(policy.check_process(&ok_req, &root_facts()).is_ok());
    let bad_req = ProcessRequest {
        program: "cargo".to_string(),
        args: vec![],
        cwd: None,
        env: vec![("PATH".to_string(), "/tmp/evil".to_string())],
        timeout_ms: None,
    };
    let err = policy.check_process(&bad_req, &root_facts()).unwrap_err();
    assert!(matches!(err, PolicyDenial::EnvNotAllowed { .. }));
    assert!(!err.message().contains("/tmp/evil"));
}

#[test]
fn test_effective_timeout_min_and_unlimited() {
    let policy =
        ExecutionPolicy::new(AppConfig { project_root: ROOT.to_string(), command_timeout_ms: 300_000, ..Default::default() });
    assert_eq!(policy.effective_timeout(Some(1_000)), Some(1_000));
    assert_eq!(policy.effective_timeout(Some(999_999)), Some(300_000));
    assert_eq!(policy.effective_timeout(None), Some(300_000));
    let policy0 =
        ExecutionPolicy::new(AppConfig { project_root: ROOT.to_string(), command_timeout_ms: 0, ..Default::default() });
    assert_eq!(policy0.effective_timeout(Some(5_000)), Some(5_000));
    assert_eq!(policy0.effective_timeout(None), None);
}

#[test]
fn test_legacy_injection_rejected() {
    let policy = ExecutionPolicy::new(AppConfig {
        project_root: ROOT.to_string(),
        allowed_commands: vec!["cargo".to_string()],
        ..Default::default()
    });
    let fast = policy.check_legacy_shell_command("cargo test").expect("fast path");
    assert!(fast.is_some());
    let fast = fast.unwrap();
    assert_eq!(fast.program, "cargo");
    assert_eq!(fast.args, vec!["test".to_string()]);
    for evil in [
        "cargo test; echo hacked",
        "cargo test && echo hacked",
        "cargo test | cat",
        "cargo test > result.txt",
        "cargo test $(echo foo)",
        "cargo test `echo foo`",
        "cargo test\n echo hacked",
        "cargo test\recho hacked",
    ] {
        assert!(policy.check_legacy_shell_command(evil).is_err(), "should deny {evil:?}");
    }
}

#[test]
fn test_legacy_arg_prefix() {
    let policy = ExecutionPolicy::new(AppConfig {
        project_root: ROOT.to_string(),
        allowed_commands: vec!["git status".to_string()],
        ..Default::default()
    });
    assert!(policy.check_legacy_shell_command("git status").is_ok());
    assert!(policy.check_legacy_shell_command("git status --short").is_ok());
    assert!(policy.check_legacy_shell_command("git commit").is_err());
}

#[test]
fn test_cwd_policy() {
    let sub = "/work/project/sub";
    let outside = "/elsewhere/tmp";
    let facts = vec![dir_fact(ROOT, ROOT), dir_fact(sub, sub), dir_fact(outside, outside)];
    let policy = ExecutionPolicy::new(AppConfig { project_root: ROOT.to_string(), ..Default::default() });
    assert!(policy.check_cwd(&None, &facts).is_ok());
    assert!(policy.check_cwd(&Some(sub.to_string()), &facts).is_ok());
    assert!(policy.check_cwd(&Some(ROOT.to_string()), &facts).is_ok());
    assert!(policy.check_cwd(&Some(outside.to_string()), &facts).is_err());
    let policy2 = ExecutionPolicy::new(AppConfig {
        project_root: ROOT.to_string(),
        allowed_paths: vec![outside.to_string()],
        ..Default::default()
    });
    assert!(policy2.check_cwd(&Some(outside.to_string()), &facts).is_ok());
}

#[test]
fn test_new_config_is_authoritative_over_legacy() {
    let exec = ExecutionConfig {
        mode: ExecutionMode::Allowlist,
        allowed_programs: vec!["git".to_string()],
        allow_shell: false,
        ..ExecutionConfig::default()
    };
    let policy = ExecutionPolicy::new(AppConfig {
        project_root: ROOT.to_string(),
        execution: exec,
        execution_configured: true,
        allowed_commands: vec!["cargo".to_string()],
        ..Default::default()
    });
    assert!(policy.uses_new_policy());
    assert!(policy.check_process(&req("cargo", &[]), &root_facts()).is_err());
    assert!(policy.check_process(&req("git", &[]), &root_facts()).is_ok());
    assert!(policy.check_shell().is_err());
}

#[test]
fn test_legacy_empty_means_unrestricted_with_warning_once() {
    let policy = ExecutionPolicy::new(AppConfig {
        project_root: ROOT.to_string(),
        allowed_commands: vec![],
        ..Default::default()
    });
    assert!(policy.check_shell().is_ok());
    assert!(policy.check_process(&req("anything", &[]), &root_facts()).is_ok());
    assert!(policy.check_legacy_shell_command("rm -rf /tmp/x").is_ok());
}

#[test]
fn test_cwd_symlink_escape_denied() {
    let link = "/work/project/evil-link";
    let facts = vec![dir_fact(ROOT, ROOT), dir_fact(link, "/elsewhere/tmp")];
    let policy = ExecutionPolicy::new(AppConfig { project_root: ROOT.to_string(), ..Default::default() });
    assert!(policy.check_cwd(&Some(link.to_string()), &facts).is_err());
}

#[test]
fn cwd_reasons_name_missing_and_non_directories() {
    let file = "/work/project/file.txt";
    let facts = vec![
        dir_fact(ROOT, ROOT),
        PathFact { path: file.to_string(), exists: true, is_dir: false, canonical: Some(file.to_string()) },
    ];
    let policy = ExecutionPolicy::new(AppConfig { project_root: ROOT.to_string(), ..Default::default() });
    let missing = policy.check_cwd(&Some("/work/project/nope".to_string()), &facts).unwrap_err();
    assert_eq!(
        missing.message(),
        "Working directory '/work/project/nope' is not allowed: directory does not exist"
    );
    let not_dir = policy.check_cwd(&Some(file.to_string()), &facts).unwrap_err();
    assert_eq!(not_dir.message(), "Working directory '/work/project/file.txt' is not allowed: not a directory");
    let relative = policy.check_cwd(&Some("sub".to_string()), &facts).unwrap_err();
    assert!(relative.message().contains("/work/project/sub"));
}

#[test]
fn denial_messages_match_their_kind() {
    assert_eq!(
        PolicyDenial::GlobalDeny.message(),
        "Process execution is disabled by execution policy (mode = deny)"
    );
    assert_eq!(
        PolicyDenial::ProgramNotAllowed { program: "git".to_string() }.message(),
        "Program 'git' is not in allowed_programs"
    );
    assert_eq!(PolicyDenial::ShellDisabled.message(), "Shell execution is disabled by execution policy");
    assert_eq!(
        PolicyDenial::EnvNotAllowed { keys: vec!["PATH".to_string(), "HOME".to_string()] }.message(),
        "Environment variables not in allowed_env: PATH, HOME"
    );
    assert_eq!(
        PolicyDenial::LegacyCommandNotAllowed { command: "rm".to_string() }.message(),
        "Command 'rm' is not allowed"
    );
}

#[test]
fn shell_syntax_detection() {
    assert!(!contains_shell_syntax("cargo test --all"));
    assert!(contains_shell_syntax("cargo test; ls"));
    assert!(contains_shell_syntax("echo $(whoami)"));
    assert!(contains_shell_syntax("a || b"));
    assert!(!contains_shell_syntax("echo 'a;b'"));
}

#[test]
fn simple_command_parsing() {
    assert_eq!(
        parse_simple_command("git status --short"),
        Some(("git".to_string(), vec!["status".to_string(), "--short".to_string()]))
    );
    assert_eq!(parse_simple_command("   "), None);
}

#[test]
fn program_syntax_validation() {
    assert!(validate_program_syntax("cargo").is_ok());
    assert!(matches!(validate_program_syntax("").unwrap_err(), PolicyDenial::InvalidProgram { .. }));
    assert!(validate_program_syntax("ca rgo").is_err());
}
