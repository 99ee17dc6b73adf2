use doge_code::budget::{head_tail_truncate, head_truncate};
use doge_code::output::{budget_command_output, BoundedCapture, CAPTURE_HEAD_BYTES, CAPTURE_TAIL_BYTES};

#[test]
fn test_small_output_not_truncated() {
    let mut cap = BoundedCapture::new();
    cap.push(b"hello\n");
    let (text, truncated) = cap.finish();
    assert_eq!(text, "hello\n");
    assert!(!truncated);
    assert!(!cap.was_truncated());
}

#[test]
fn test_large_output_bounded_with_head_tail() {
    let mut cap = BoundedCapture::new();
    let head_marker = b"HEAD-MARKER-";
    let tail_marker = b"TAIL-MARKER-";
    cap.push(head_marker);
    let filler = vec![b'x'; 100_000];
    cap.push(&filler);
    cap.push(tail_marker);
    let (text, truncated) = cap.finish();
    assert!(truncated);
    assert!(text.contains("HEAD-MARKER-"));
    assert!(text.contains("TAIL-MARKER-"));
    assert!(text.contains("output truncated"));
    assert!(text.len() < 100_000);
    assert!(text.len() <= CAPTURE_HEAD_BYTES + CAPTURE_TAIL_BYTES + 1024);
}

#[test]
fn test_memory_does_not_grow_with_input() {
    let mut cap = BoundedCapture::new();
    for _ in 0..1000 {
        cap.push(&vec![b'a'; 10_000]);
    }
    let (text, truncated) = cap.finish();
    assert!(truncated);
    assert!(text.len() <= CAPTURE_HEAD_BYTES + CAPTURE_TAIL_BYTES + 1024);
    assert!(cap.total_bytes() == 10_000_000);
}

#[test]
fn test_budget_command_output_under_budget() {
    let (out, err, truncated, warnings) = budget_command_output("hello", "");
    assert_eq!(out, "hello");
    assert_eq!(err, "");
    assert!(!truncated);
    assert!(warnings.is_empty());
}

#[test]
fn test_budget_command_output_trims() {
    let stdout = "a".repeat(10_000);
    let stderr = "b".repeat(2_000);
    let (out, err, truncated, warnings) = budget_command_output(&stdout, &stderr);
    assert!(truncated);
    assert!(!warnings.is_empty());
    let total = out.chars().count() + err.chars().count();
    assert!(total <= 7_000, "combined too large: {total}");
}

#[test]
fn capture_omission_marker_counts_dropped_bytes() {
    let mut cap = BoundedCapture::new();
    cap.push(&vec![b'z'; CAPTURE_HEAD_BYTES + CAPTURE_TAIL_BYTES + 10]);
    let (text, truncated) = cap.finish();
    assert!(truncated);
    assert!(text.contains("\n...[output truncated: 10 bytes omitted]...\n"));
    assert_eq!(cap.total_bytes(), (CAPTURE_HEAD_BYTES + CAPTURE_TAIL_BYTES + 10) as u64);
}

#[test]
fn capture_exactly_at_limit_is_whole() {
    let mut cap = BoundedCapture::new();
    cap.push(&vec![b'q'; CAPTURE_HEAD_BYTES + CAPTURE_TAIL_BYTES]);
    let (text, truncated) = cap.finish();
    assert!(!truncated);
    assert_eq!(text.len(), CAPTURE_HEAD_BYTES + CAPTURE_TAIL_BYTES);
}

#[test]
fn budget_stdout_only_gets_whole_budget() {
    let stdout = "c".repeat(9_000);
    let (out, err, truncated, warnings) = budget_command_output(&stdout, "");
    assert!(truncated);
    assert_eq!(err, "");
    assert_eq!(out.chars().count(), 6_000);
    assert_eq!(warnings.len(), 2);
    assert_eq!(warnings[1], "stdout was truncated");
}

#[test]
fn head_tail_truncate_keeps_both_ends() {
    let text = format!("{}{}", "h".repeat(50), "t".repeat(50));
    let r = head_tail_truncate(&text, 40);
    assert!(r.truncated);
    assert_eq!(r.text.chars().count(), 40);
    assert!(r.text.starts_with('h'));
    assert!(r.text.ends_with('t'));
    assert!(r.text.contains("\n...[output truncated]...\n"));
    let fits = head_tail_truncate("short", 40);
    assert!(!fits.truncated);
    assert_eq!(fits.text, "short");
}

#[test]
fn head_truncate_marks_the_cut() {
    let r = head_truncate(&"x".repeat(100), 50);
    assert!(r.truncated);
    assert_eq!(r.text.chars().count(), 50);
    assert!(r.text.ends_with("\n...[output truncated]"));
}
