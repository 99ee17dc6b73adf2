use doge_code::process::{ManagedProcessError, ManagedProcessTermination};
use doge_code::runner::{collected_capture, managed_output, CaptureTaskResult, CollectOutcome, ReadOutcome, RunEnd};

fn reader(chunks: &[&[u8]], fail: Option<&str>) -> CaptureTaskResult {
    let mut t = CaptureTaskResult::new();
    for c in chunks {
        assert!(t.record_read(ReadOutcome::Data(c.to_vec())));
    }
    match fail {
        Some(e) => assert!(!t.record_read(ReadOutcome::Failed(e.to_string()))),
        None => assert!(!t.record_read(ReadOutcome::Eof)),
    }
    t
}

#[test]
fn readers_collect_chunks_and_failures() {
    let t = reader(&[b"hel", b"lo"], None);
    assert_eq!(t.capture.finish(), ("hello".to_string(), false));
    assert!(t.warnings.is_empty());
    let t = reader(&[b"x"], Some("broken pipe"));
    assert_eq!(t.warnings, vec!["process output reader failed: broken pipe".to_string()]);

    let failed = collected_capture(CollectOutcome::Failed("panicked".into()));
    assert_eq!(failed.warnings, vec!["process output reader task failed: panicked".to_string()]);
    assert_eq!(failed.capture.finish(), (String::new(), false));
    let open = collected_capture(CollectOutcome::StillOpen);
    assert_eq!(open.warnings, vec!["process output reader did not close after cleanup".to_string()]);
    let done = collected_capture(CollectOutcome::Finished(reader(&[b"ok"], None)));
    assert_eq!(done.capture.finish().0, "ok");
}

#[test]
fn exited_runs_report_code_and_output() {
    let out = managed_output(RunEnd::Exited(Some(2)), None, reader(&[b"out"], None), reader(&[b"err"], None), None)
        .unwrap();
    assert_eq!(out.termination, ManagedProcessTermination::Exited);
    assert_eq!(out.exit_code, Some(2));
    assert_eq!(out.stdout, "out");
    assert_eq!(out.stderr, "err");
    assert!(!out.capture_truncated);
    assert!(out.warnings.is_empty());

    match managed_output(RunEnd::Exited(Some(0)), Some("EPERM".into()), reader(&[], None), reader(&[], None), None) {
        Err(ManagedProcessError::Cleanup(e)) => assert_eq!(e, "EPERM"),
        other => panic!("{:?}", other),
    }
    match managed_output(RunEnd::WaitFailed("ECHILD".into()), None, reader(&[], None), reader(&[], None), None) {
        Err(ManagedProcessError::Wait(e)) => assert_eq!(e, "ECHILD"),
        other => panic!("{:?}", other),
    }
}

#[test]
fn terminated_runs_explain_why() {
    let out = managed_output(RunEnd::TimedOut, None, reader(&[b"partial"], None), reader(&[], None), Some(1500))
        .unwrap();
    assert_eq!(out.termination, ManagedProcessTermination::TimedOut);
    assert_eq!(out.exit_code, None);
    assert_eq!(out.stdout, "partial");
    assert_eq!(out.warnings, vec!["managed process timed out after 1500 ms".to_string()]);

    let out = managed_output(
        RunEnd::Cancelled,
        Some("group survived".into()),
        reader(&[], Some("EIO")),
        reader(&[], None),
        None,
    )
    .unwrap();
    assert_eq!(out.termination, ManagedProcessTermination::Cancelled);
    assert_eq!(
        out.warnings,
        vec![
            "process output reader failed: EIO".to_string(),
            "managed process cancelled".to_string(),
            "managed process cleanup failed: group survived".to_string(),
        ]
    );
}

#[test]
fn large_output_is_cut_with_a_warning() {
    let big = vec![b'a'; 70 * 1024];
    let out = managed_output(RunEnd::Exited(Some(0)), None, reader(&[&big], None), reader(&[], None), None).unwrap();
    assert!(out.capture_truncated);
    assert!(out.stdout.contains("[output truncated: 6144 bytes omitted]"), "{}", &out.stdout[32760..32830]);
    assert_eq!(
        out.warnings,
        vec!["process output exceeded capture limits; head and tail preserved".to_string()]
    );
}
