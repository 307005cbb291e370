use mcp_manager::MCPServer;
use mcp_manager::RawTool;
use mcp_manager::ToolSchema;
use mcp_manager::make_mcp_tool_list;

fn server() -> MCPServer {
    MCPServer {
        id: "srv-1".to_string(),
        name: "my server".to_string(),
        baseUrl: Some("https://host/events".to_string()),
        command: None,
        registryUrl: None,
        args: None,
        env: None,
    }
}

fn schema(required: &str) -> ToolSchema {
    let mut m = ToolSchema::new();
    m.insert("type".to_string(), serde_json::Value::String("object".to_string()));
    m.insert("required".to_string(), serde_json::Value::String(required.to_string()));
    m
}

#[test]
fn one_record_per_tool_copied_verbatim() {
    let s = server();
    let tools = vec![
        RawTool {
            name: "read_file".to_string(),
            description: Some("reads a file".to_string()),
            input_schema: schema("path"),
        },
        RawTool { name: "list_dir".to_string(), description: None, input_schema: schema("dir") },
    ];
    let records = make_mcp_tool_list(&s, &tools);
    assert_eq!(records.len(), 2);
    assert_eq!(records[0].name, "read_file");
    assert_eq!(records[0].description, Some("reads a file".to_string()));
    assert_eq!(records[0].inputSchema, schema("path"));
    assert_eq!(records[0].serverId, "srv-1");
    assert_eq!(records[0].serverName, "my server");
    assert_eq!(records[1].name, "list_dir");
    assert_eq!(records[1].description, None);
    assert_eq!(records[1].inputSchema, schema("dir"));
}

#[test]
fn record_ids_are_unique_within_one_listing() {
    let s = server();
    let tools: Vec<RawTool> = (0..8)
        .map(|i| RawTool {
            name: format!("tool-{i}"),
            description: None,
            input_schema: ToolSchema::new(),
        })
        .collect();
    let records = make_mcp_tool_list(&s, &tools);
    assert_eq!(records.len(), 8);
    for i in 0..records.len() {
        assert!(records[i].id.chars().count() >= 21);
        for j in 0..i {
            assert_ne!(records[i].id, records[j].id);
        }
    }
}

#[test]
fn empty_listing_yields_no_records() {
    let s = server();
    let records = make_mcp_tool_list(&s, &Vec::new());
    assert!(records.is_empty());
}

#[test]
fn ids_are_freshly_generated_not_copied_from_input() {
    let s = server();
    let tools = vec![RawTool {
        name: "t".to_string(),
        description: None,
        input_schema: ToolSchema::new(),
    }];
    let records = make_mcp_tool_list(&s, &tools);
    assert_ne!(records[0].id, records[0].name);
    assert_eq!(records[0].id.chars().count(), 21);
}
