use remote_executor_for_session::client::{
    attach_arguments, attach_url, client_id, executor_url, executors_arguments, is_reply,
    list_arguments, random_client_id, register_message, tool_outcome, tool_request, WsMcpEndpoint,
};
use remote_executor_for_session::json::{Json, JsonObject};
use remote_executor_for_session::term_task::ExbashTask;

fn from_value(value: &serde_json::Value) -> Json {
    match value {
        serde_json::Value::Null => Json::Null,
        serde_json::Value::Bool(b) => Json::Bool(*b),
        serde_json::Value::Number(n) => match (n.as_i64(), n.as_u64()) {
            (Some(i), _) => Json::Int(i as i128),
            (None, Some(u)) => Json::Int(u as i128),
            (None, None) => Json::Float(n.to_string()),
        },
        serde_json::Value::String(s) => Json::str(s),
        serde_json::Value::Array(a) => Json::array(a.iter().map(from_value).collect()),
        serde_json::Value::Object(o) => {
            let mut object = JsonObject::new();
            for (k, v) in o {
                object.insert(k, from_value(v));
            }
            Json::Object(object)
        }
    }
}

fn json(text: &str) -> Json {
    from_value(&serde_json::from_str(text).unwrap())
}

fn task() -> ExbashTask {
    ExbashTask {
        async_id: "rex-1".to_string(),
        scope: "workspace".to_string(),
        executor: "box".to_string(),
        description: String::new(),
        command: String::new(),
        cwd: String::new(),
        state: None,
        exit_code: None,
        started_at: None,
    }
}

#[test]
fn endpoints_speak_websocket() {
    assert_eq!(WsMcpEndpoint::parse("ws://h").unwrap().url, "ws://h");
    assert_eq!(WsMcpEndpoint::parse("wss://h").unwrap().url, "wss://h");
    assert_eq!(
        WsMcpEndpoint::parse("http://h").unwrap_err(),
        "refs-ptyt requires a ws:// or wss:// REFS MCP endpoint"
    );
}

#[test]
fn calls_carry_the_session() {
    let request = tool_request("ses", "exbash", list_arguments("local")).unwrap();
    assert_eq!(
        request,
        json(
            r#"{"jsonrpc":"2.0","id":1,"method":"tools/call","params":{"name":"exbash","arguments":{
                "mode":"list","scope":"local","ExecutorSessionID":"ses","includeStructuredContent":true}}}"#
        )
    );
    assert_eq!(
        tool_request("ses", "exbash", Json::Null).unwrap_err(),
        "tool arguments must be an object"
    );
    assert!(is_reply(&json(r#"{"id":1}"#)));
    assert!(!is_reply(&json(r#"{"id":2}"#)));
    assert!(!is_reply(&json(r#"{"id":"1"}"#)));
    assert_eq!(
        attach_arguments(&task()),
        json(
            r#"{"mode":"attach","asyncID":"rex-1","executor":"box","scope":"workspace","refsPtytResolve":true,"read_timeout":0}"#
        )
    );
    assert_eq!(executors_arguments(), json(r#"{"method":"list_executor"}"#));
}

#[test]
fn answers_are_results_or_errors() {
    assert_eq!(tool_outcome(&json(r#"{"result":{"a":1}}"#)).unwrap(), json(r#"{"a":1}"#));
    assert_eq!(tool_outcome(&json("{}")).unwrap(), Json::Null);
    assert_eq!(tool_outcome(&json(r#"{"error":{"message":"no"}}"#)).unwrap_err(), "no");
    assert_eq!(tool_outcome(&json(r#"{"error":{}}"#)).unwrap_err(), "REFS MCP error");
}

#[test]
fn executors_are_found_by_name() {
    let result = json(
        r#"{"structuredContent":{"metadata":{"executors":[
            {"id":"box"},{"id":"other","url":"ws://o"},{"id":"box","url":"ws://b"}]}}}"#,
    );
    assert_eq!(executor_url(&result, "box"), Some("ws://b".to_string()));
    assert_eq!(executor_url(&result, "moon"), None);
    assert_eq!(attach_url(&result, &task()).unwrap(), "ws://b");
    assert_eq!(
        attach_url(&Json::Null, &task()).unwrap_err(),
        "executor URL not found: box"
    );
    let nested = json(
        r#"{"structuredContent":{"result":{"metadata":{"executors":[{"id":"box","url":"ws://n"}]}}}}"#,
    );
    assert_eq!(executor_url(&nested, "box"), Some("ws://n".to_string()));
}

#[test]
fn terminals_register_under_a_name() {
    assert_eq!(
        register_message("ses", "slot", true),
        json(r#"{"type":"refs-ptyt.register","sessionID":"ses","slotID":"slot","schedulable":true}"#)
    );
    assert_eq!(client_id(0x1f), "client-000000000000001f");
    assert_eq!(client_id(u64::MAX), "client-ffffffffffffffff");
    let name = random_client_id();
    assert_eq!(name.len(), 23);
    assert!(name.starts_with("client-"));
    assert_ne!(random_client_id(), random_client_id());
}
