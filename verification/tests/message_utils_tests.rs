use doge_code::json::{json_text, Json};
use doge_code::message_utils::{
    budget_json_value, budget_string_field, clean_json_text, max_output_chars, truncate_tool_output,
};

fn to_json(v: &serde_json::Value) -> Json {
    match v {
        serde_json::Value::Null => Json::Null,
        serde_json::Value::Bool(b) => Json::Bool(*b),
        serde_json::Value::Number(n) => Json::Number(n.to_string()),
        serde_json::Value::String(s) => Json::Str(s.clone()),
        serde_json::Value::Array(items) => Json::Array(items.iter().map(to_json).collect()),
        serde_json::Value::Object(m) => Json::Object(m.iter().map(|(k, f)| (k.clone(), to_json(f))).collect()),
    }
}

fn budget_output(content: String, tool: &str) -> String {
    truncate_tool_output(content, tool)
}

#[test]
fn test_short_output_unchanged() {
    let short = "short output";
    assert_eq!(budget_output(short.to_string(), "any_tool"), short);
}

#[test]
fn test_non_json_output_uses_legacy_slice() {
    let long = "na".repeat(5000);
    let truncated = budget_output(long.clone(), "any_tool");
    assert!(truncated.contains("truncated"));
    assert!(truncated.chars().count() < long.chars().count());
}

#[test]
fn test_read_tier_not_truncated_under_40k() {
    let content = format!("{{\"content\":\"{}\"}}", "na".repeat(15000));
    let result = budget_output(content.clone(), "fs_read");
    assert_eq!(result.chars().count(), content.chars().count());
    assert!(!result.contains("truncated"));
}

#[test]
fn test_json_output_stays_valid_json() {
    let content = format!("{{\"stdout\":\"{}\",\"exit_code\":0,\"success\":true}}", "x".repeat(20_000));
    let result = budget_output(content, "execute_bash");
    assert!(result.chars().count() <= 8000);
    let parsed: serde_json::Value = serde_json::from_str(&result).expect("truncated output must be valid JSON");
    assert_eq!(parsed["exit_code"], 0);
    assert!(parsed["stdout"].as_str().unwrap().contains("truncated"));
}

#[test]
fn test_json_error_output_stays_valid_json() {
    let content = format!("{{\"error\":\"{}\"}}", "e".repeat(20_000));
    let result = budget_output(content, "any_tool");
    let parsed: serde_json::Value = serde_json::from_str(&result).expect("truncated error output must be valid JSON");
    assert!(parsed["error"].as_str().unwrap().contains("truncated"));
}

#[test]
fn test_json_huge_array_drops_tail_but_keeps_head() {
    let items: Vec<String> = (0..1000).map(|i| format!("\"entry-{i:04}\"")).collect();
    let content = format!("{{\"entries\":[{}]}}", items.join(","));
    assert!(content.chars().count() > 8000);
    let result = budget_output(content, "fs_list");
    let parsed: serde_json::Value = serde_json::from_str(&result).expect("truncated array output must be valid JSON");
    let entries = parsed["entries"].as_array().expect("entries kept");
    assert!(entries.len() < 1000);
    assert!(entries.len() > 1);
    assert_eq!(entries[0], "entry-0000");
}

#[test]
fn test_json_multibyte_strings_survive() {
    let content = format!("{{\"content\":\"{}\"}}", "日本語のテキスト".repeat(2000));
    assert!(content.chars().count() > 8000);
    let result = budget_output(content, "any_tool");
    let parsed: serde_json::Value = serde_json::from_str(&result).expect("multibyte truncation must produce valid JSON");
    assert!(parsed["content"].as_str().unwrap().contains("日本語"));
}

#[test]
fn test_nested_object_strings_budgeted() {
    let payload = format!(
        "{{\"result\":{{\"files\":[{{\"content\":\"{}\",\"path\":\"a.rs\"}}],\"warnings\":[]}}}}",
        "y".repeat(20_000)
    );
    let result = budget_output(payload, "any_tool");
    let parsed: serde_json::Value = serde_json::from_str(&result).expect("nested truncation must produce valid JSON");
    assert!(parsed["result"]["files"][0]["content"].as_str().unwrap().contains("truncated"));
    assert_eq!(parsed["result"]["files"][0]["path"], "a.rs");
}

#[test]
fn test_fallback_envelope_survives_json_escaping_inflation() {
    let content = "\\".repeat(40_000);
    let result = budget_output(content, "any_tool");
    assert!(result.chars().count() <= 8000, "escaped envelope exceeded the cap: {} chars", result.chars().count());
    let parsed: serde_json::Value = serde_json::from_str(&result).expect("fallback envelope must be valid JSON");
    assert!(parsed["truncated_raw"].is_string());
    assert!(parsed["note"].as_str().unwrap().contains("truncated"));
}

#[test]
fn test_truncate_tool_output() {
    let short = "short output";
    assert_eq!(budget_output(short.to_string(), "any_tool"), short);
    let long = "na".repeat(5000);
    assert!(long.len() > 8000);
    let truncated = budget_output(long.clone(), "any_tool");
    assert!(truncated.contains("truncated"));
    assert!(truncated.len() < long.len());
    let read_content = "na".repeat(15000);
    let not_truncated = budget_output(read_content.clone(), "fs_read");
    assert_eq!(not_truncated.len(), 30000);
    assert!(!not_truncated.contains("truncated"));
    let plan_content = "na".repeat(15000);
    let not_truncated_plan = budget_output(plan_content.clone(), "plan_write");
    assert_eq!(not_truncated_plan.len(), 30000);
    assert!(!not_truncated_plan.contains("truncated"));
    let huge_read = "na".repeat(21000);
    let huge_truncated = budget_output(huge_read.clone(), "fs_read");
    assert!(huge_truncated.contains("truncated"));
}

#[test]
fn json_text_matches_serde_compact_form() {
    for text in [
        "{\"a\":[1,2.5,-3,true,false,null],\"b\":\"q\\\"uote\\\\slash\\n\\u0001\\t\"}",
        "[\"日本\",{}]",
        "\"\\u001f\\b\\f\\r\"",
    ] {
        let v: serde_json::Value = serde_json::from_str(text).unwrap();
        assert_eq!(json_text(&to_json(&v)), serde_json::to_string(&v).unwrap());
    }
}

#[test]
fn budget_json_value_reports_fit() {
    let v = Json::Array((0..100).map(|i| Json::Number(i.to_string())).collect());
    let (b, fits) = budget_json_value(v, 20);
    assert!(fits);
    assert!(json_text(&b).chars().count() <= 20);
    let (n, fits) = budget_json_value(Json::Null, 0);
    assert!(fits);
    assert!(matches!(n, Json::Null));
}

#[test]
fn string_fields_keep_a_marked_head() {
    assert_eq!(budget_string_field("short", 100), "short");
    assert_eq!(budget_string_field(&"a".repeat(300), 100), "[truncated 300 chars]");
    let cut = budget_string_field(&"b".repeat(1000), 400);
    assert!(cut.starts_with(&"b".repeat(340)));
    assert!(cut.ends_with("\n[...truncated 660 of 1000 chars]"));
    assert_eq!(max_output_chars("fs_read"), 40000);
    assert_eq!(max_output_chars("edit"), 8000);
}

#[test]
fn fenced_replies_are_unwrapped() {
    assert_eq!(clean_json_text("  ```json\n{\"a\":1}\n```  "), "{\"a\":1}");
    assert_eq!(clean_json_text("```\n[1]\n```"), "[1]");
    assert_eq!(clean_json_text(" {\"b\":2} "), "{\"b\":2}");
}
