use meeting_local::chat_context::PromptMessage;
use meeting_local::models::ChatRole;
use meeting_local::tool_calls::ToolExecutionResult;
use meeting_local::tool_loop::{RoundOutcome, SimulatedToolLoop};
use meeting_local::models::Tool;
use meeting_local::sidecar::ToolDefinition;
use meeting_local::tool_calls::{
    builtin_tool_failure, decide_after_response, extract_json_object, format_tool_result, loop_gate,
    mcp_tool_failure, parse_json_tool_call, parse_tool_call, route_tool, LoopAction, ParsedToolCall,
    SimulatedToolConfig, ToolRoute,
};
use meeting_local::tool_prompt::{build_tool_system_prompt, tool_definitions};

#[test]
fn test_parse_tool_call_fenced() {
    let output = r#"I'll search for that.
```json
{"tool": "search_transcript", "arguments": {"query": "budget"}}
```
"#;
    match parse_tool_call(output) {
        ParsedToolCall::ToolRequest { tool, arguments } => {
            assert_eq!(tool, "search_transcript");
            let arguments: serde_json::Value = serde_json::from_str(&arguments).unwrap();
            assert_eq!(arguments["query"], "budget");
        }
        _ => panic!("Expected ToolRequest"),
    }
}

#[test]
fn test_parse_tool_call_bare() {
    let output = r#"Let me check that. {"tool": "get_current_time", "arguments": {}}"#;
    match parse_tool_call(output) {
        ParsedToolCall::ToolRequest { tool, .. } => {
            assert_eq!(tool, "get_current_time");
        }
        _ => panic!("Expected ToolRequest"),
    }
}

#[test]
fn test_parse_tool_call_final_answer() {
    let output = "The meeting discussed budget allocation for Q3.";
    match parse_tool_call(output) {
        ParsedToolCall::FinalAnswer(answer) => {
            assert_eq!(answer, output);
        }
        _ => panic!("Expected FinalAnswer"),
    }
}

#[test]
fn test_parse_tool_call_malformed() {
    let output = r#"```json
{"arguments": {"query": "test"}}
```"#;
    match parse_tool_call(output) {
        ParsedToolCall::MalformedToolCall { error, .. } => {
            assert!(error.contains("Missing 'tool' field"));
        }
        _ => panic!("Expected MalformedToolCall"),
    }
}

#[test]
fn test_extract_json_object() {
    let s = r#"{"tool": "test", "arguments": {"nested": {"value": 1}}}"#;
    let result = extract_json_object(s);
    assert_eq!(result, Some(s.to_string()));
}

#[test]
fn test_extract_json_object_with_string() {
    let s = r#"{"tool": "test", "arguments": {"text": "hello {world}"}}"#;
    let result = extract_json_object(s);
    assert_eq!(result, Some(s.to_string()));
}

#[test]
fn test_build_tool_system_prompt() {
    let base = "You are a helpful assistant.";
    let parameters =
        r#"{"type": "object", "properties": {"query": {"type": "string", "description": "The search query"}}, "required": ["query"]}"#
            .to_string();
    let tools = vec![ToolDefinition {
        name: "search".to_string(),
        description: "Search for text".to_string(),
        parameters,
    }];

    let result = build_tool_system_prompt(base, &tools);
    assert!(result.contains("You are a helpful assistant"));
    assert!(result.contains("## Available Tools"));
    assert!(result.contains("**search**"));
    assert!(result.contains("query (string, required)"));
}

#[test]
fn tool_prompt_sections() {
    let parameters =
        r#"{"properties": {"b": {"description": "second"}, "a": {"type": "integer"}}, "required": ["b", 3]}"#
            .to_string();
    let no_params = r#"{"type": "object"}"#.to_string();
    let tools = vec![
        ToolDefinition { name: "t".to_string(), description: "d".to_string(), parameters },
        ToolDefinition { name: "u".to_string(), description: "e".to_string(), parameters: no_params },
    ];
    let result = build_tool_system_prompt("B", &tools);
    assert!(result.starts_with("B\n\n## Available Tools\n\n"));
    assert!(result.ends_with(
        "### Tools:\n\n**t**: d\nParameters:\n- a (integer, optional): \n- b (any, required): second\n\n**u**: e\n\n"
    ));
}

#[test]
fn json_tool_call_errors() {
    match parse_json_tool_call("{not json") {
        ParsedToolCall::MalformedToolCall { raw, error } => {
            assert_eq!(raw, "{not json");
            assert!(error.starts_with("Invalid JSON: "));
        }
        _ => panic!("expected a malformed call"),
    }
    match parse_json_tool_call(r#"{"tool": "x"}"#) {
        ParsedToolCall::ToolRequest { tool, arguments } => {
            assert_eq!(tool, "x");
            assert_eq!(arguments, "{}");
        }
        _ => panic!("expected a request"),
    }
}

#[test]
fn unbalanced_object_is_not_extracted() {
    assert_eq!(extract_json_object(r#"{"a": {"b": 1}"#), None);
    assert_eq!(extract_json_object(r#"{"a": 1} trailing"#), Some(r#"{"a": 1}"#.to_string()));
}

#[test]
fn tool_results_are_labelled() {
    assert_eq!(format_tool_result("clock", "12:00", false), "Tool result for `clock`:\n12:00");
    assert_eq!(format_tool_result("clock", "boom", true), "Tool error for `clock`:\nboom");
    assert_eq!(mcp_tool_failure("gone").content, "MCP tool error: gone");
    assert!(!mcp_tool_failure("gone").success);
    assert_eq!(builtin_tool_failure("x", "bad").content, "Error executing tool 'x': bad");
}

#[test]
fn loop_gate_counts_and_stops() {
    let config = SimulatedToolConfig::default();
    assert_eq!(config.max_iterations, 10);
    assert_eq!(loop_gate(false, 0, &config), Ok(1));
    assert_eq!(loop_gate(false, 10, &config), Err("Max tool iterations reached".to_string()));
    assert_eq!(loop_gate(true, 0, &config), Err("Cancelled".to_string()));
}

#[test]
fn responses_drive_the_loop() {
    match decide_after_response("All done.") {
        LoopAction::Finish(a) => assert_eq!(a, "All done."),
        _ => panic!("expected the final answer"),
    }
    let call = r#"{"tool": "get_current_time", "arguments": {}}"#;
    match decide_after_response(call) {
        LoopAction::CallTool { tool, assistant_message, .. } => {
            assert_eq!(tool, "get_current_time");
            assert_eq!(assistant_message, call);
        }
        _ => panic!("expected a tool call"),
    }
    let bad = "```json\n{\"arguments\": {}}\n```";
    match decide_after_response(bad) {
        LoopAction::Reprompt { user_message, .. } => assert_eq!(
            user_message,
            "Your tool call was malformed: Missing 'tool' field\nPlease use the exact format:\n```json\n{\"tool\": \"<name>\", \"arguments\": {...}}\n```"
        ),
        _ => panic!("expected a reprompt"),
    }
}

fn tool(id: &str, name: &str, tool_type: &str) -> Tool {
    Tool {
        id: id.to_string(),
        name: name.to_string(),
        description: None,
        tool_type: tool_type.to_string(),
        function_schema: "{}".to_string(),
        execution_location: "backend".to_string(),
        enabled: true,
        is_default: false,
        icon: None,
        sort_order: 0,
        created_at: String::new(),
        mcp_server_id: None,
        mcp_server_name: None,
    }
}

#[test]
fn tools_are_routed_by_name() {
    let tools = vec![tool("1", "search", "builtin"), tool("2", "files", "mcp")];
    assert!(matches!(route_tool(&tools, "search"), ToolRoute::Builtin));
    match route_tool(&tools, "files") {
        ToolRoute::Mcp(id) => assert_eq!(id, "2"),
        _ => panic!("expected MCP"),
    }
    match route_tool(&tools, "nope") {
        ToolRoute::Missing(m) => assert_eq!(
            m,
            "Tool 'nope' does not exist. Available tools are: search, files. If you have the information you need, provide your final answer without a JSON tool call block."
        ),
        _ => panic!("expected a missing tool"),
    }
}

#[test]
fn simulated_loop_runs_rounds() {
    let config = SimulatedToolConfig { max_iterations: 2 };
    let mut lp = SimulatedToolLoop::new(
        vec![PromptMessage { role: ChatRole::System, content: "sys".to_string() }],
        &config,
    );
    assert_eq!(lp.begin_round(false), Ok(()));
    match lp.handle_response(r#"{"tool": "clock", "arguments": {}}"#) {
        RoundOutcome::ToolRequested { tool, .. } => assert_eq!(tool, "clock"),
        _ => panic!("expected a tool request"),
    }
    lp.record_tool_result("clock", &ToolExecutionResult { content: "noon".to_string(), success: true });
    assert_eq!(lp.messages.len(), 3);
    assert_eq!(lp.messages[2].content, "Tool result for `clock`:\nnoon");
    assert_eq!(lp.begin_round(false), Ok(()));
    assert!(matches!(lp.handle_response("```json\n{\"x\": 1}\n```"), RoundOutcome::Reprompted));
    assert_eq!(lp.messages.len(), 5);
    assert_eq!(lp.messages[4].role, ChatRole::User);
    assert_eq!(lp.begin_round(false), Err("Max tool iterations reached".to_string()));
    assert_eq!(lp.begin_round(true), Err("Cancelled".to_string()));
    match lp.handle_response("It is noon.") {
        RoundOutcome::Finished(a) => assert_eq!(a, "It is noon."),
        _ => panic!("expected the answer"),
    }
    assert_eq!(lp.iteration, 2);
}

#[test]
fn tool_request_carries_argument_text() {
    match parse_json_tool_call(r#"{"tool": "search", "arguments": {"query": "budget", "limit": 3}}"#) {
        ParsedToolCall::ToolRequest { tool, arguments } => {
            assert_eq!(tool, "search");
            assert_eq!(arguments, r#"{"limit":3,"query":"budget"}"#);
        }
        _ => panic!("expected a request"),
    }
    match decide_after_response(r#"{"tool": "clock", "arguments": {"tz": "UTC"}}"#) {
        LoopAction::CallTool { tool, arguments, .. } => {
            assert_eq!(tool, "clock");
            assert_eq!(arguments, r#"{"tz":"UTC"}"#);
        }
        _ => panic!("expected a tool call"),
    }
}

fn stored_tool(name: &str, description: Option<&str>, function_schema: &str) -> Tool {
    Tool {
        id: format!("id-{}", name),
        name: name.to_string(),
        description: description.map(|d| d.to_string()),
        tool_type: "builtin".to_string(),
        function_schema: function_schema.to_string(),
        execution_location: "backend".to_string(),
        enabled: true,
        is_default: false,
        icon: None,
        sort_order: 0,
        created_at: String::new(),
        mcp_server_id: None,
        mcp_server_name: None,
    }
}

#[test]
fn stored_tools_become_definitions() {
    assert!(tool_definitions(&vec![]).is_none());
    let tools = vec![
        stored_tool(
            "search",
            Some("Search"),
            r#"{"name": "search", "parameters": {"type": "object", "properties": {"q": {"type": "string"}}}}"#,
        ),
        stored_tool("clock", None, "not json"),
    ];
    let defs = tool_definitions(&tools).unwrap();
    assert_eq!(defs.len(), 2);
    assert_eq!(defs[0].name, "search");
    assert_eq!(defs[0].description, "Search");
    assert_eq!(defs[0].parameters, r#"{"properties":{"q":{"type":"string"}},"type":"object"}"#);
    assert_eq!(defs[1].description, "");
    assert_eq!(defs[1].parameters, r#"{"type": "object", "properties": {}}"#);
    let prompt = build_tool_system_prompt("B", &defs);
    assert!(prompt.contains("**search**: Search\nParameters:\n- q (string, optional): \n\n"));
    assert!(prompt.ends_with("**clock**: \nParameters:\n\n"));
}
