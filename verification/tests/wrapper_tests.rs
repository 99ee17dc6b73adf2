use doge_code::agent::{backoff_delay, backoff_from, Delay, RetryConfig};
use doge_code::agent_loop::{detail_lines, tools_retry_wait};
use doge_code::client::{sse_line, SseLine};
use doge_code::output::BoundedCapture;

#[test]
fn detail_lines_read_fields_from_arguments() {
    assert_eq!(detail_lines("fs_read", true, r#"{"path":"src/main.rs"}"#, "ok"), vec!["src/main.rs".to_string()]);
    assert_eq!(detail_lines("edit", true, r#"{"file_path":"a.rs","x":1}"#, "ok"), vec!["a.rs".to_string()]);
    assert_eq!(
        detail_lines("execute_bash", true, r#"{"command":"cargo test"}"#, "ok"),
        vec!["Command: cargo test".to_string()]
    );
    assert_eq!(
        detail_lines("search_text", true, r#"{"search_pattern":"fn main"}"#, "ok"),
        vec!["Keyword: fn main".to_string()]
    );
    assert_eq!(
        detail_lines("search_repomap", true, r#"{"keyword_search":["alpha","beta"]}"#, "ok"),
        vec!["Keywords: alpha, beta".to_string()]
    );
    assert!(detail_lines("search_repomap", true, r#"{"keyword_search":[]}"#, "ok").is_empty());
    assert!(detail_lines("fs_read", true, "not json", "ok").is_empty());
    assert!(detail_lines("other_tool", true, r#"{"path":"x"}"#, "ok").is_empty());
    assert_eq!(detail_lines("fs_read", false, r#"{"path":"x"}"#, "boom"), vec!["    Error: boom".to_string()]);
}

#[test]
fn sse_lines_decode_payloads() {
    assert_eq!(sse_line(b"data: {\"a\":1}\n"), SseLine::Data("{\"a\":1}".to_string()));
    assert_eq!(sse_line(b"data: [DONE]"), SseLine::Done);
    assert_eq!(sse_line(b"   \r\n"), SseLine::Skip);
    assert_eq!(sse_line(&[0x64, 0xff, 0xfe]), SseLine::Skip);
    assert_eq!(sse_line("data: h\u{e9}llo".as_bytes()), SseLine::Data("h\u{e9}llo".to_string()));
}

#[test]
fn capture_replaces_invalid_bytes() {
    let mut c = BoundedCapture::new();
    c.push(b"ok ");
    c.push(&[0xff]);
    c.push(b" done");
    let (text, truncated) = c.finish();
    assert!(!truncated);
    assert_eq!(text, "ok \u{fffd} done");
}

#[test]
fn backoff_jitter_stays_in_range() {
    let cfg = RetryConfig { respect_retry_after: false, retry_base_ms: 100, retry_jitter_ms: 50 };
    for _ in 0..50 {
        match backoff_delay(cfg, 3, None) {
            Delay::Millis(ms) => assert!((400..=425).contains(&ms), "{}", ms),
            d => panic!("{:?}", d),
        }
    }
    assert_eq!(backoff_from(cfg, 3, None, -7), Delay::Millis(400));
    assert_eq!(backoff_from(cfg, 3, None, 7), Delay::Millis(407));
    let honour = RetryConfig { respect_retry_after: true, ..cfg };
    assert_eq!(backoff_delay(honour, 2, Some(9)), Delay::Seconds(9));
}

#[test]
fn tools_retry_wait_is_base_plus_jitter() {
    for _ in 0..50 {
        let ms = tools_retry_wait(2);
        assert!((4000..9000).contains(&ms), "{}", ms);
    }
}
