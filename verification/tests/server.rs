use warp_tasks_mcp::server::{
    answer_parsed, error_response, handle_initialize, handle_request, handle_tools_call, handle_tools_list, internal_error,
    null_result, parse_error, route, tool_response, MCPServer, Step,
};
use warp_tasks_mcp::tools::{catalog, Property, Tool};

fn value(text: &str) -> serde_json::Value {
    serde_json::from_str(text).unwrap()
}

fn response(step: Step) -> serde_json::Value {
    match step {
        Step::Respond(v) => v,
        Step::Call { .. } => panic!("a call where a response was expected"),
    }
}

#[test]
fn request_without_method_is_invalid() {
    let r = response(handle_request(r#"{"jsonrpc":"2.0","id":1}"#));
    assert_eq!(r, value(r#"{"jsonrpc":"2.0","id":1,"error":{"code":-32600,"message":"Invalid Request"}}"#));
    let r = response(handle_request(r#"{"jsonrpc":"2.0","id":"x","method":7,"params":{}}"#));
    assert_eq!(r["error"]["code"], -32600);
    assert_eq!(r["id"], "x");
    let r = response(handle_request("[1,2,3]"));
    assert_eq!(r, value(r#"{"jsonrpc":"2.0","id":null,"error":{"code":-32600,"message":"Invalid Request"}}"#));
}

#[test]
fn unknown_method_is_not_found() {
    let r = response(handle_request(r#"{"id":2,"method":"resources/list"}"#));
    assert_eq!(r, value(r#"{"jsonrpc":"2.0","id":2,"error":{"code":-32601,"message":"Method not found"}}"#));
}

#[test]
fn unknown_tool_is_not_found() {
    let line = r#"{"jsonrpc":"2.0","id":3,"method":"tools/call","params":{"name":"no_such_tool","arguments":{}}}"#;
    let r = response(handle_request(line));
    assert_eq!(r, value(r#"{"jsonrpc":"2.0","id":3,"error":{"code":-32601,"message":"Unknown tool"}}"#));
}

#[test]
fn call_without_name_or_arguments_has_invalid_params() {
    let expected = value(r#"{"jsonrpc":"2.0","id":4,"error":{"code":-32602,"message":"Invalid params"}}"#);
    let r = response(handle_request(r#"{"id":4,"method":"tools/call"}"#));
    assert_eq!(r, expected);
    let r = response(handle_request(r#"{"id":4,"method":"tools/call","params":{"name":"heartbeat"}}"#));
    assert_eq!(r, expected);
    let r = response(handle_request(r#"{"id":4,"method":"tools/call","params":{"name":5,"arguments":{}}}"#));
    assert_eq!(r, expected);
    let r = response(handle_request(r#"{"id":4,"method":"tools/call","params":{"arguments":{}}}"#));
    assert_eq!(r, expected);
    let r = response(handle_tools_call(value("4"), &value("\"heartbeat\"")));
    assert_eq!(r, expected);
}

#[test]
fn call_of_a_known_tool_is_handed_on_with_its_arguments() {
    let line = r#"  {"id":5,"method":"tools/call","params":{"name":"search_knowledge","arguments":{"query":"redis"}}}  "#;
    match handle_request(line) {
        Step::Call { id, tool, arguments } => {
            assert_eq!(id, value("5"));
            assert_eq!(tool, Tool::SearchKnowledge);
            assert_eq!(arguments, value(r#"{"query":"redis"}"#));
        }
        Step::Respond(v) => panic!("unexpected response {}", v),
    }
}

#[test]
fn every_tool_is_found_by_its_name() {
    for tool in Tool::all() {
        assert_eq!(Tool::from_name(tool.name()), Some(tool));
    }
    assert_eq!(Tool::all().len(), 9);
    assert_eq!(Tool::from_name("Heartbeat"), None);
    assert_eq!(Tool::from_name(""), None);
}

#[test]
fn blank_line_gets_a_null_result() {
    let expected = value(r#"{"jsonrpc":"2.0","result":null}"#);
    assert_eq!(response(handle_request("")), expected);
    assert_eq!(response(handle_request(" \t\r\n")), expected);
    assert_eq!(null_result(), expected);
}

#[test]
fn line_that_is_not_json_gets_a_parse_error_with_the_trimmed_line() {
    let r = response(handle_request("  {oops  "));
    assert_eq!(r["jsonrpc"], "2.0");
    assert_eq!(r["error"]["code"], -32700);
    assert_eq!(r["error"]["message"], "Parse error");
    assert_eq!(r["error"]["data"]["line"], "{oops");
    let details = serde_json::from_str::<serde_json::Value>("{oops").unwrap_err().to_string();
    assert_eq!(r["error"]["data"]["details"], details.as_str());
    assert!(r.get("id").is_none());
    assert_eq!(
        parse_error("d", "l"),
        value(r#"{"jsonrpc":"2.0","error":{"code":-32700,"message":"Parse error","data":{"details":"d","line":"l"}}}"#)
    );
}

#[test]
fn initialize_describes_the_server() {
    let r = response(handle_request(r#"{"jsonrpc":"2.0","id":1,"method":"initialize"}"#));
    assert_eq!(
        r,
        value(
            r#"{"jsonrpc":"2.0","id":1,"result":{"protocolVersion":"2024-11-05","capabilities":{"tools":{}},"serverInfo":{"name":"warp-tasks-mcp","version":"1.0.0"}}}"#
        )
    );
    assert_eq!(handle_initialize(value("null"))["id"], serde_json::Value::Null);
}

#[test]
fn tools_list_returns_the_catalog() {
    let r = response(handle_request(r#"{"jsonrpc":"2.0","id":1,"method":"tools/list"}"#));
    assert_eq!(r["jsonrpc"], "2.0");
    assert_eq!(r["id"], 1);
    let tools = r["result"]["tools"].as_array().unwrap();
    assert_eq!(tools.len(), 9);
    let names: Vec<&str> = tools.iter().map(|t| t["name"].as_str().unwrap()).collect();
    assert_eq!(
        names,
        vec![
            "scan_trello_tasks",
            "take_trello_task",
            "update_trello_task",
            "store_knowledge",
            "search_knowledge",
            "learn_from_agents",
            "heartbeat",
            "check_agent_status",
            "execute_rag_query",
        ]
    );
    assert_eq!(
        tools[0],
        value(
            r#"{"name":"scan_trello_tasks","description":"List all Trello cards from configured boards - agents MUST use this to find tasks","inputSchema":{"type":"object","properties":{"list_filter":{"type":"string","enum":["todo","in_progress","done","all"],"description":"Filter cards by list"}},"required":[]}}"#
        )
    );
    assert_eq!(
        tools[3]["inputSchema"]["properties"]["tags"],
        value(r#"{"type":"array","items":{"type":"string"},"description":"RAG search tags"}"#)
    );
    assert_eq!(tools[3]["inputSchema"]["properties"]["metadata"], value(r#"{"type":"object"}"#));
    assert_eq!(
        tools[3]["inputSchema"]["required"],
        value(r#"["agent_id","category","key","content","tags"]"#)
    );
    assert_eq!(tools[4]["inputSchema"]["properties"]["limit"], value(r#"{"type":"number","default":10}"#));
    assert_eq!(tools[7]["inputSchema"], value(r#"{"type":"object","properties":{},"required":[]}"#));
    assert_eq!(handle_tools_list(value("\"a\""))["result"]["tools"], r["result"]["tools"]);
}

#[test]
fn catalog_has_an_entry_for_every_tool() {
    let entries = catalog();
    let tools = Tool::all();
    assert_eq!(entries.len(), tools.len());
    for (entry, tool) in entries.iter().zip(tools.iter()) {
        assert_eq!(entry.tool, *tool);
        assert_eq!(entry.to_json()["name"], tool.name());
    }
}

#[test]
fn property_schema_lists_what_is_set() {
    let p = Property::new("n", "number").or_default(-3).described("a number");
    assert_eq!(p.to_json(), value(r#"{"type":"number","default":-3,"description":"a number"}"#));
    let p = Property::text("t").one_of(vec!["a".to_string()]);
    assert_eq!(p.to_json(), value(r#"{"type":"string","enum":["a"]}"#));
}

#[test]
fn error_responses_carry_id_code_and_message() {
    assert_eq!(
        error_response(value("7"), -32603, "Internal error"),
        value(r#"{"jsonrpc":"2.0","id":7,"error":{"code":-32603,"message":"Internal error"}}"#)
    );
    assert_eq!(
        internal_error("Internal error"),
        value(r#"{"jsonrpc":"2.0","error":{"code":-32603,"message":"Internal error"}}"#)
    );
}

#[test]
fn tool_results_are_wrapped_as_content() {
    assert_eq!(
        tool_response(value("1"), &Ok("done".to_string())),
        value(r#"{"jsonrpc":"2.0","id":1,"result":{"content":[{"type":"text","text":"done"}]}}"#)
    );
    assert_eq!(
        tool_response(value("1"), &Err("store unavailable".to_string())),
        value(
            r#"{"jsonrpc":"2.0","id":1,"result":{"isError":true,"content":[{"type":"text","text":"Error: store unavailable"}]}}"#
        )
    );
}

#[test]
fn route_reads_id_method_and_params() {
    let request = value(r#"{"id":{"a":1},"method":"tools/call","params":{"name":"heartbeat","arguments":[1]}}"#);
    match route(&request) {
        Step::Call { id, tool, arguments } => {
            assert_eq!(id, value(r#"{"a":1}"#));
            assert_eq!(tool, Tool::Heartbeat);
            assert_eq!(arguments, value("[1]"));
        }
        Step::Respond(v) => panic!("unexpected response {}", v),
    }
}

#[test]
fn second_identical_call_is_served_from_the_cache() {
    let mut server = MCPServer::new();
    let line = r#"{"jsonrpc":"2.0","id":1,"method":"tools/call","params":{"name":"check_agent_status","arguments":{}}}"#;
    let id = match server.begin(line, 0) {
        Step::Call { id, tool, .. } => {
            assert_eq!(tool, Tool::CheckAgentStatus);
            id
        }
        Step::Respond(v) => panic!("unexpected response {}", v),
    };
    assert_eq!(server.response_cache.get_metrics().get_stats(), (0, 1, 0));
    let first = server.finish(line, id, &Ok("{\"active_agents\":[]}".to_string()), 10);
    let second = response(server.begin(line, 20));
    assert_eq!(first.to_string(), second.to_string());
    assert_eq!(server.response_cache.get_metrics().get_stats(), (1, 1, 0));
    let late = server.begin(line, 10 + 300000);
    assert!(matches!(late, Step::Call { .. }));
    assert_eq!(server.response_cache.get_metrics().get_stats(), (1, 2, 1));
}

#[test]
fn failed_call_is_not_cached_and_the_key_is_the_raw_line() {
    let mut server = MCPServer::new();
    let line = r#"{"id":1,"method":"tools/call","params":{"name":"heartbeat","arguments":{}}}"#;
    let r = server.finish(line, value("1"), &Err("boom".to_string()), 0);
    assert_eq!(r["result"]["isError"], true);
    assert!(matches!(server.begin(line, 1), Step::Call { .. }));
    server.finish(line, value("1"), &Ok("ok".to_string()), 2);
    assert!(matches!(server.begin(line, 3), Step::Respond(_)));
    let spaced = format!("{} ", line);
    assert!(matches!(server.begin(&spaced, 3), Step::Call { .. }));
}

#[test]
fn tools_list_is_answered_without_the_cache() {
    let mut server = MCPServer::new();
    let line = r#"{"jsonrpc":"2.0","id":1,"method":"tools/list"}"#;
    let r = response(server.begin(line, 0));
    assert!(!r["result"]["tools"].as_array().unwrap().is_empty());
    assert_eq!(server.response_cache.get_metrics().get_stats(), (0, 1, 0));
}

#[test]
fn text_is_answered_by_what_it_was_read_as() {
    let r = response(answer_parsed("x", Err("expected value".to_string())));
    assert_eq!(r["error"]["data"], value(r#"{"details":"expected value","line":"x"}"#));
    let r = response(answer_parsed("ignored", Ok(value(r#"{"id":8,"method":"initialize"}"#))));
    assert_eq!(r["id"], 8);
    assert_eq!(r["result"]["serverInfo"]["name"], "warp-tasks-mcp");
}
