use remote_executor_for_session::json::{Json, JsonObject};
use remote_executor_for_session::jsonrpc::{
    begin_request, error_response, finish_request, incoming, parse_error_response, version,
    Incoming, JsonRpcError, JsonRpcRequest, RequestStep,
};
use remote_executor_for_session::mcp::{
    begin_method, extract_context, text_result, tools_call_result, tools_list_result, McpStep,
    McpToolDef,
};
use remote_executor_for_session::server::{
    answer_batch, initialize_response, refuse_registration, route_message, text_step, Route,
    TextStep,
};
use remote_executor_for_session::tooldefs::all_tools;

fn from_value(value: &serde_json::Value) -> Json {
    match value {
        serde_json::Value::Null => Json::Null,
        serde_json::Value::Bool(b) => Json::Bool(*b),
        serde_json::Value::Number(n) => match (n.as_i64(), n.as_u64()) {
            (Some(i), _) => Json::Int(i as i128),
            (None, Some(u)) => Json::Int(u as i128),
            (None, None) => Json::Float(n.to_string()),
        },
        serde_json::Value::String(s) => Json::str(s),
        serde_json::Value::Array(a) => Json::array(a.iter().map(from_value).collect()),
        serde_json::Value::Object(o) => {
            let mut object = JsonObject::new();
            for (k, v) in o {
                object.insert(k, from_value(v));
            }
            Json::Object(object)
        }
    }
}

fn json(text: &str) -> Json {
    from_value(&serde_json::from_str(text).unwrap())
}

fn request(value: &Json) -> Result<JsonRpcRequest, String> {
    Ok(JsonRpcRequest {
        jsonrpc: value.text_of("jsonrpc").unwrap().to_string(),
        id: value.get("id").cloned_or_null(),
        method: value.text_of("method").unwrap().to_string(),
        params: value.get("params").cloned_or_null(),
    })
}

trait OrNull {
    fn cloned_or_null(self) -> Json;
}

impl OrNull for Option<&Json> {
    fn cloned_or_null(self) -> Json {
        match self {
            Some(v) => v.clone(),
            None => Json::Null,
        }
    }
}

fn echo(value: &Json) -> Json {
    match begin_request(request(value)) {
        RequestStep::Reply(reply) => reply,
        RequestStep::Call { id, method, params } => {
            let outcome = if method == "echo" {
                Ok(params)
            } else {
                Err(JsonRpcError::method_not_found(&method))
            };
            finish_request(id, outcome)
        }
    }
}

#[test]
fn handles_batch() {
    let batch = json(
        r#"[
            { "jsonrpc": "2.0", "id": 1, "method": "echo", "params": { "a": 1 } },
            { "jsonrpc": "2.0", "id": 2, "method": "missing", "params": {} }
        ]"#,
    );
    let items = match incoming(batch) {
        Incoming::Batch(items) => items,
        Incoming::One(_) => panic!("expected a batch"),
    };
    let result: Vec<Json> = items.iter().map(echo).collect();
    assert_eq!(result[0].get2("result", "a"), Some(&Json::Int(1)));
    assert_eq!(result[1].get2("error", "code"), Some(&Json::Int(-32601)));
}

fn demo(method: &str, params: Json) -> Json {
    match begin_method(method, &params) {
        McpStep::ListTools => tools_list_result(&vec![McpToolDef {
            name: "demo".to_string(),
            description: None,
            input_schema: json(
                r#"{ "type": "object", "properties": {
                    "ExecutorSessionID": { "type": "string" },
                    "includeStructuredContent": { "type": "boolean", "default": false } } }"#,
            ),
        }]),
        McpStep::CallTool { name, arguments, context } => {
            assert_eq!(name, "demo");
            assert!(arguments.get("ExecutorSessionID").is_none());
            assert!(arguments.get("includeStructuredContent").is_none());
            let session = context.executor_session_id.unwrap_or_default();
            let metadata = Json::Object(JsonObject::new().with("session", Json::str(&session)));
            let content = Json::Object(JsonObject::new().with("metadata", metadata));
            tools_call_result(
                text_result(&session, Some(content)),
                context.include_structured_content,
            )
        }
        McpStep::Fail(e) => panic!("{}", e.message),
    }
}

#[test]
fn extracts_executor_session_id_from_call_arguments() {
    let listed = demo("tools/list", Json::Null);
    let tool = &listed.get("tools").unwrap().as_array().unwrap()[0];
    let properties = tool.get2("inputSchema", "properties").unwrap();
    assert_eq!(properties.text_of2("ExecutorSessionID", "type"), Some("string"));
    assert_eq!(
        properties.get2("includeStructuredContent", "default"),
        Some(&Json::Bool(false))
    );
    let called = demo(
        "tools/call",
        json(r#"{ "name": "demo", "arguments": { "ExecutorSessionID": "ses_1" } }"#),
    );
    let content = &called.get("content").unwrap().as_array().unwrap()[0];
    assert_eq!(content.text_of("text"), Some("ses_1"));
    assert!(called.get("structuredContent").is_none());
}

#[test]
fn returns_structured_content_only_when_requested() {
    let called = demo(
        "tools/call",
        json(
            r#"{ "name": "demo", "arguments": { "ExecutorSessionID": "ses_1", "includeStructuredContent": true } }"#,
        ),
    );
    let content = called.get("structuredContent").unwrap();
    assert_eq!(content.text_of2("metadata", "session"), Some("ses_1"));
}

#[test]
fn flags_may_be_written_as_text() {
    let mut arguments = json(r#"{ "includeStructuredContent": "true", "x": 1 }"#);
    let context = extract_context(&mut arguments);
    assert!(context.executor_session_id.is_none());
    assert_eq!(arguments, json(r#"{ "x": 1 }"#));
}

#[test]
fn errors_have_codes_and_messages() {
    assert_eq!(version(), "2.0");
    assert_eq!(JsonRpcError::invalid_params("x").code, -32602);
    assert_eq!(JsonRpcError::internal("x").code, -32603);
    assert_eq!(JsonRpcError::method_not_found("m").code, -32601);
    let reply = error_response(Json::Int(3), -1, "no", None);
    assert_eq!(
        reply,
        json(r#"{ "jsonrpc": "2.0", "id": 3, "error": { "code": -1, "message": "no" } }"#)
    );
    assert_eq!(parse_error_response("bad").get2("error", "code"), Some(&Json::Int(-32700)));
    match begin_request(Err("odd".to_string())) {
        RequestStep::Reply(reply) => {
            assert_eq!(reply.get("id"), Some(&Json::Null));
            assert_eq!(reply.get2("error", "code"), Some(&Json::Int(-32600)));
        }
        RequestStep::Call { id: _, method: _, params: _ } => panic!("expected a reply"),
    }
    match begin_method("odd", &Json::Null) {
        McpStep::Fail(e) => assert_eq!(e.code, -32601),
        _ => panic!("expected an error"),
    }
}

#[test]
fn every_tool_wants_a_session() {
    let tools = all_tools();
    let names: Vec<&str> = tools.iter().map(|t| t.name.as_str()).collect();
    assert_eq!(names.len(), 5);
    for tool in &tools {
        let property = tool.input_schema.get3("properties", "ExecutorSessionID", "type");
        assert_eq!(property, Some(&Json::str("string")));
    }
    assert!(names.contains(&"exbash"));
    let listed = tools_list_result(&tools);
    assert_eq!(listed.get("tools").unwrap().as_array().unwrap().len(), 5);
}

#[test]
fn servers_route_messages() {
    let ping = json(r#"{"jsonrpc":"2.0","id":5,"method":"ping"}"#);
    match route_message(&ping, "refs", "1") {
        Route::Reply(reply) => assert_eq!(reply.get("id"), Some(&Json::Int(5))),
        _ => panic!("expected a reply"),
    }
    let note = json(r#"{"jsonrpc":"2.0","method":"notifications/initialized"}"#);
    assert!(matches!(route_message(&note, "refs", "1"), Route::Ignore));
    let call = json(r#"{"jsonrpc":"2.0","id":5,"method":"tools/list"}"#);
    assert!(matches!(route_message(&call, "refs", "1"), Route::Forward));
    let hello = initialize_response(Json::Int(1), &Json::Null, "refs", "0.1.17");
    let result = hello.get("result").unwrap();
    assert_eq!(result.text_of2("serverInfo", "version"), Some("0.1.17"));
    assert_eq!(result.text_of("protocolVersion"), Some("2025-06-18"));
    assert!(answer_batch(vec![None, None]).is_none());
    assert_eq!(
        answer_batch(vec![None, Some(Json::Int(1)), Some(Json::Int(2))]),
        Some(json("[1, 2]"))
    );
    match text_step(Err("eof".to_string())) {
        TextStep::Reply(reply) => {
            assert_eq!(reply.get2("error", "code"), Some(&Json::Int(-32700)))
        }
        _ => panic!("expected a reply"),
    }
    assert!(refuse_registration("no slot").to_text().contains("no slot"));
}

#[test]
fn values_become_compact_text() {
    let value = json(r#"{ "b": [1, true, null, "q\"\n"], "a": {}, "c": -0.5 }"#);
    assert_eq!(value.to_text(), r#"{"a":{},"b":[1,true,null,"q\"\n"],"c":-0.5}"#);
    assert_eq!(Json::str("x").plain_text(), "x");
    assert_eq!(Json::Int(4).plain_text(), "4");
}

#[test]
fn strings_are_escaped() {
    for n in 0..0x180u32 {
        let text = char::from_u32(n).unwrap().to_string();
        assert_eq!(Json::str(&text).to_text(), serde_json::to_string(&text).unwrap());
    }
    assert_eq!(
        Json::str("a\"\\\u{8}\u{c}\n\r\t\u{1f}\u{7f}é").to_text(),
        "\"a\\\"\\\\\\b\\f\\n\\r\\t\\u001f\u{7f}é\""
    );
}

#[test]
fn texts_of_values_are_those_of_serde_json() {
    for text in [
        "null",
        "[]",
        "{}",
        r#"{"z":1,"a":[true,{"é":"x"},-3,18446744073709551615,1.5,1e300],"":null}"#,
        r#"[[[]],"\u0001",{"b":{"c":{}}}]"#,
    ] {
        let value: serde_json::Value = serde_json::from_str(text).unwrap();
        assert_eq!(from_value(&value).to_text(), value.to_string());
    }
}
