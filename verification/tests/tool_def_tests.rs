use doge_code::json::{json_text, Json};
use doge_code::tool_defs::{append_remote_tools, subagent_tool_defs, RemoteToolInfo, ToolDef, ToolFunctionDef};

fn schema() -> Json {
    Json::Object(vec![
        ("type".to_string(), Json::Str("object".to_string())),
        ("properties".to_string(), Json::Object(vec![("path".to_string(), Json::Object(vec![]))])),
    ])
}

fn local(name: &str) -> ToolDef {
    ToolDef {
        kind: "function".to_string(),
        function: ToolFunctionDef {
            name: name.to_string(),
            description: format!("{name} tool"),
            parameters: schema(),
            strict: None,
        },
    }
}

fn names(defs: &[ToolDef]) -> Vec<&str> {
    defs.iter().map(|d| d.function.name.as_str()).collect()
}

#[test]
fn remote_tools_are_appended_in_order() {
    let mut tools = vec![local("fs_read")];
    let remote = vec![
        RemoteToolInfo {
            alias: "mcp_a".to_string(),
            remote_name: "a".to_string(),
            server_name: "srv".to_string(),
            description: None,
            parameters: schema(),
            strict: Some(true),
        },
        RemoteToolInfo {
            alias: "mcp_b".to_string(),
            remote_name: "b".to_string(),
            server_name: "srv".to_string(),
            description: Some("Does b".to_string()),
            parameters: Json::Null,
            strict: None,
        },
    ];
    append_remote_tools(&mut tools, &remote);
    assert_eq!(names(&tools), vec!["fs_read", "mcp_a", "mcp_b"]);
    assert_eq!(tools[1].kind, "function");
    assert_eq!(tools[1].function.description, "Remote MCP tool 'a' from server 'srv'");
    assert_eq!(tools[1].function.strict, Some(true));
    assert_eq!(json_text(&tools[1].function.parameters), json_text(&schema()));
    assert_eq!(tools[2].function.description, "Does b");
    assert_eq!(json_text(&tools[2].function.parameters), "null");
}

#[test]
fn subagent_gets_only_allowed_tools() {
    let tools = vec![local("fs_read"), local("fs_write"), local("search_text"), local("execute_bash")];
    let allowed = vec!["fs_read".to_string(), "search_text".to_string(), "fs_list".to_string()];
    let defs = subagent_tool_defs(&tools, &allowed);
    assert_eq!(names(&defs), vec!["fs_read", "search_text"]);
    assert_eq!(defs[1].function.description, "search_text tool");
    assert_eq!(json_text(&defs[0].function.parameters), r#"{"type":"object","properties":{"path":{}}}"#);
    assert!(subagent_tool_defs(&tools, &vec![]).is_empty());
}
