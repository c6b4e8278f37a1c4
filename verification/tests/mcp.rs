use std::sync::Arc;

use agent_sdk::claude::{
    tool_response, Handling, JsonRpcError, SdkMcpServer, SdkMcpTool, ToolResult, PROTOCOL_VERSION,
};
use serde_json::Value;

type ToolHandler = dyn Fn(Value) -> ToolResult;

fn json(text: &str) -> Value {
    serde_json::from_str(text).unwrap()
}

fn adder() -> SdkMcpServer<ToolHandler> {
    let handler: Arc<ToolHandler> = Arc::new(|args: Value| {
        let a = args.get("a").and_then(Value::as_i64).unwrap_or(0);
        let b = args.get("b").and_then(Value::as_i64).unwrap_or(0);
        ToolResult::text((a + b).to_string())
    });
    SdkMcpServer::new("calc").tool(SdkMcpTool::new(
        "add",
        "Add two numbers",
        json(r#"{ "type": "object" }"#),
        handler,
    ))
}

fn handle(server: &SdkMcpServer<ToolHandler>, message: Value) -> Option<Value> {
    match server.handle_message(message) {
        Handling::Silent => None,
        Handling::Respond(response) => Some(response),
        Handling::Invoke { id, call } => {
            let result = (call.handler)(call.arguments);
            Some(tool_response(id, result))
        }
    }
}

#[test]
fn initialize_reports_server_info() {
    let response = handle(
        &adder(),
        json(r#"{ "jsonrpc": "2.0", "id": 1, "method": "initialize" }"#),
    )
    .expect("response");
    assert_eq!(response["result"]["serverInfo"]["name"], "calc");
    assert_eq!(response["result"]["protocolVersion"], PROTOCOL_VERSION);
}

#[test]
fn tools_list_describes_tools() {
    let response = handle(
        &adder(),
        json(r#"{ "jsonrpc": "2.0", "id": 2, "method": "tools/list" }"#),
    )
    .expect("response");
    let tools = response["result"]["tools"].as_array().expect("tools array");
    assert_eq!(tools.len(), 1);
    assert_eq!(tools[0]["name"], "add");
}

#[test]
fn tools_call_dispatches_to_handler() {
    let response = handle(
        &adder(),
        json(
            r#"{
                "jsonrpc": "2.0",
                "id": 3,
                "method": "tools/call",
                "params": { "name": "add", "arguments": { "a": 2, "b": 3 } }
            }"#,
        ),
    )
    .expect("response");
    assert_eq!(response["result"]["content"][0]["text"], "5");
}

#[test]
fn unknown_tool_returns_method_not_found() {
    let response = handle(
        &adder(),
        json(
            r#"{
                "jsonrpc": "2.0",
                "id": 4,
                "method": "tools/call",
                "params": { "name": "missing" }
            }"#,
        ),
    )
    .expect("response");
    assert_eq!(response["error"]["code"], -32601);
}

#[test]
fn notifications_have_no_response() {
    let response = handle(&adder(), json(r#"{ "method": "notifications/initialized" }"#));
    assert!(response.is_none());
}

#[test]
fn a_known_method_without_id_is_a_notification() {
    assert!(handle(&adder(), json(r#"{ "method": "tools/list" }"#)).is_none());
    assert!(handle(
        &adder(),
        json(r#"{ "method": "tools/call", "params": { "name": "missing" } }"#)
    )
    .is_none());
    assert!(handle(&adder(), json("[1, 2]")).is_none());
    assert!(handle(&adder(), json("null")).is_none());
}

#[test]
fn a_null_id_is_an_id() {
    let response = handle(&adder(), json(r#"{ "id": null, "method": "nope" }"#)).unwrap();
    assert_eq!(
        response,
        json(
            r#"{ "jsonrpc": "2.0", "id": null,
                 "error": { "code": -32601, "message": "method not found: nope" } }"#
        )
    );
}

#[test]
fn initialize_response_in_full() {
    let server = adder().with_version("2.3.4");
    let response = handle(&server, json(r#"{ "id": "x", "method": "initialize" }"#)).unwrap();
    assert_eq!(
        response,
        json(
            r#"{ "jsonrpc": "2.0", "id": "x", "result": {
                 "protocolVersion": "2024-11-05",
                 "capabilities": { "tools": {} },
                 "serverInfo": { "name": "calc", "version": "2.3.4" } } }"#
        )
    );
}

#[test]
fn a_new_server_has_a_version_and_no_tools() {
    let server: SdkMcpServer<ToolHandler> = SdkMcpServer::new("empty".to_string());
    assert_eq!(server.version, "0.1.0");
    assert_eq!(
        handle(&server, json(r#"{ "id": 1.5, "method": "tools/list" }"#)).unwrap(),
        json(r#"{ "jsonrpc": "2.0", "id": 1.5, "result": { "tools": [] } }"#)
    );
    assert_eq!(
        server.config_entry(),
        json(r#"{ "type": "sdk", "name": "empty" }"#)
    );
}

#[test]
fn tools_list_response_in_full() {
    let response = handle(&adder(), json(r#"{ "id": 2, "method": "tools/list" }"#)).unwrap();
    assert_eq!(
        response,
        json(
            r#"{ "jsonrpc": "2.0", "id": 2, "result": { "tools": [
                 { "name": "add", "description": "Add two numbers",
                   "inputSchema": { "type": "object" } } ] } }"#
        )
    );
}

#[test]
fn tool_call_response_in_full() {
    let response = handle(
        &adder(),
        json(r#"{ "id": 3, "method": "tools/call", "params": { "name": "add", "arguments": { "a": -7, "b": 3 } } }"#),
    )
    .unwrap();
    assert_eq!(
        response,
        json(
            r#"{ "jsonrpc": "2.0", "id": 3,
                 "result": { "content": [ { "type": "text", "text": "-4" } ] } }"#
        )
    );
}

#[test]
fn missing_tool_name_is_refused() {
    let refused = json(
        r#"{ "jsonrpc": "2.0", "id": 5,
             "error": { "code": -32602, "message": "missing tool name" } }"#,
    );
    let messages = [
        r#"{ "id": 5, "method": "tools/call" }"#,
        r#"{ "id": 5, "method": "tools/call", "params": null }"#,
        r#"{ "id": 5, "method": "tools/call", "params": { "arguments": {} } }"#,
        r#"{ "id": 5, "method": "tools/call", "params": { "name": 3 } }"#,
        r#"{ "id": 5, "method": "tools/call", "params": "add" }"#,
    ];
    for message in messages {
        assert_eq!(handle(&adder(), json(message)), Some(refused.clone()));
    }
}

#[test]
fn unknown_tool_is_named_in_the_error() {
    match adder().call_tool(Some(&json(r#"{ "name": "missing" }"#))) {
        Ok(_) => panic!("the tool does not exist"),
        Err(error) => {
            assert_eq!(error.code, -32601);
            assert_eq!(error.message, "method not found: missing");
            assert_eq!(
                error.to_value(),
                json(r#"{ "code": -32601, "message": "method not found: missing" }"#)
            );
        }
    }
}

#[test]
fn a_method_that_is_no_string_is_the_empty_method() {
    let refused = json(
        r#"{ "jsonrpc": "2.0", "id": 6,
             "error": { "code": -32601, "message": "method not found: " } }"#,
    );
    assert_eq!(handle(&adder(), json(r#"{ "id": 6 }"#)), Some(refused.clone()));
    assert_eq!(handle(&adder(), json(r#"{ "id": 6, "method": 1 }"#)), Some(refused));
}

#[test]
fn arguments_default_to_an_empty_object() {
    let call = adder().call_tool(Some(&json(r#"{ "name": "add" }"#))).unwrap_or_else(|_| panic!());
    assert_eq!(call.arguments, json("{}"));
    let call = adder()
        .call_tool(Some(&json(r#"{ "name": "add", "arguments": null }"#)))
        .unwrap_or_else(|_| panic!());
    assert_eq!(call.arguments, Value::Null);
}

#[test]
fn the_first_tool_with_a_name_is_called() {
    let other: Arc<ToolHandler> = Arc::new(|_| ToolResult::error("shadowed"));
    let server = adder()
        .tool(SdkMcpTool::new("add", "Again", Value::Null, other.clone()))
        .tool(SdkMcpTool::new("fail", "Fails", Value::Null, other));
    let call = |name: &str| {
        handle(
            &server,
            json(&format!(
                r#"{{ "id": 7, "method": "tools/call", "params": {{ "name": "{name}" }} }}"#
            )),
        )
        .unwrap()
    };
    assert_eq!(call("add")["result"]["content"][0]["text"], "0");
    assert_eq!(
        call("fail")["result"],
        json(r#"{ "content": [ { "type": "text", "text": "shadowed" } ], "isError": true }"#)
    );
    let response = handle(&server, json(r#"{ "id": 8, "method": "tools/list" }"#)).unwrap();
    let names: Vec<&str> = response["result"]["tools"]
        .as_array()
        .unwrap()
        .iter()
        .map(|tool| tool["name"].as_str().unwrap())
        .collect();
    assert_eq!(names, ["add", "add", "fail"]);
}

#[test]
fn responses_have_a_result_or_an_error() {
    let messages = [
        r#"{ "id": [1], "method": "initialize" }"#,
        r#"{ "id": [1], "method": "tools/list" }"#,
        r#"{ "id": [1], "method": "tools/call", "params": { "name": "add" } }"#,
        r#"{ "id": [1], "method": "tools/call" }"#,
        r#"{ "id": [1], "method": "resources/list" }"#,
    ];
    for message in messages {
        let response = handle(&adder(), json(message)).unwrap();
        let object = response.as_object().unwrap();
        assert_eq!(object.len(), 3);
        assert_eq!(object["jsonrpc"], "2.0");
        assert_eq!(object["id"], json("[1]"));
        assert_ne!(object.contains_key("result"), object.contains_key("error"));
    }
}

#[test]
fn results_on_the_wire() {
    assert_eq!(
        ToolResult::text("ok").into_value(),
        json(r#"{ "content": [ { "type": "text", "text": "ok" } ] }"#)
    );
    assert_eq!(
        ToolResult::error("bad".to_string()).into_value(),
        json(r#"{ "content": [ { "type": "text", "text": "bad" } ], "isError": true }"#)
    );
    assert_eq!(ToolResult::default().into_value(), json(r#"{ "content": [] }"#));
    let result = ToolResult { content: vec![json("1"), json("{}")], is_error: Some(false) };
    assert_eq!(result.clone(), result);
    assert_eq!(
        result.into_value(),
        json(r#"{ "content": [1, {}], "isError": false }"#)
    );
}

#[test]
fn errors_on_the_wire() {
    assert_eq!(
        JsonRpcError::invalid_params("bad").to_value(),
        json(r#"{ "code": -32602, "message": "bad" }"#)
    );
    assert_eq!(
        JsonRpcError::method_not_found("x/y").to_value(),
        json(r#"{ "code": -32601, "message": "method not found: x/y" }"#)
    );
}

#[test]
fn a_copy_of_a_server_answers_alike() {
    let server = adder();
    let copy = server.clone();
    assert_eq!(copy.tools[0].descriptor(), server.tools[0].descriptor());
    let message = json(r#"{ "id": 9, "method": "tools/call", "params": { "name": "add", "arguments": { "a": 1 } } }"#);
    assert_eq!(handle(&copy, message.clone()), handle(&server, message));
}

#[test]
fn an_error_result_differs_in_the_mark_alone() {
    let text = ToolResult::text("same");
    let error = ToolResult::error("same");
    assert_eq!(error.content, text.content);
    assert_eq!(text.content, vec![json(r#"{ "type": "text", "text": "same" }"#)]);
    assert_eq!(text.is_error, None);
    assert_eq!(error.is_error, Some(true));
}

#[test]
fn an_error_of_a_handler_is_a_result() {
    let handler: Arc<ToolHandler> = Arc::new(|_| ToolResult::error("broken"));
    let server = SdkMcpServer::new("s").tool(SdkMcpTool::new("t", "", Value::Null, handler));
    let response = handle(
        &server,
        json(r#"{ "id": 1, "method": "tools/call", "params": { "name": "t" } }"#),
    )
    .unwrap();
    assert_eq!(response["result"]["isError"], true);
    assert!(response.get("error").is_none());
}
