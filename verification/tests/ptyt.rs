use remote_executor_for_session::json::{Json, JsonObject};
use remote_executor_for_session::ptyt::{
    active_task_from_ptyt_response, is_register_message, prepare_input_for_ptyt_schedule,
    restore_output_after_ptyt_schedule, select_slot_key, settle_response, slot_key,
    RefsPtytActiveTask, RefsPtytRegistration, RefsPtytScheduler,
};
use remote_executor_for_session::types::ExbashTaskSnapshot;

fn from_value(value: &serde_json::Value) -> Json {
    match value {
        serde_json::Value::Null => Json::Null,
        serde_json::Value::Bool(b) => Json::Bool(*b),
        serde_json::Value::Number(n) => match (n.as_i64(), n.as_u64()) {
            (Some(i), _) => Json::Int(i as i128),
            (None, Some(u)) => Json::Int(u as i128),
            (None, None) => Json::Float(n.to_string()),
        },
        serde_json::Value::String(s) => Json::str(s),
        serde_json::Value::Array(a) => Json::array(a.iter().map(from_value).collect()),
        serde_json::Value::Object(o) => {
            let mut object = JsonObject::new();
            for (k, v) in o {
                object.insert(k, from_value(v));
            }
            Json::Object(object)
        }
    }
}

fn json(text: &str) -> Json {
    from_value(&serde_json::from_str(text).unwrap())
}

fn task(async_id: &str, session_id: &str) -> RefsPtytActiveTask {
    RefsPtytActiveTask {
        task: ExbashTaskSnapshot {
            async_id: async_id.to_string(),
            executor: "local".to_string(),
            session_id: Some(session_id.to_string()),
            workdir: None,
            state: Some("running".to_string()),
            pid: None,
            exit_code: None,
            started_at: Some(1),
            ended_at: None,
            command: Some("sleep 10".to_string()),
            description: Some("demo".to_string()),
            total_output: None,
        },
        scope: "local".to_string(),
    }
}

fn slot(session_id: &str, slot_id: &str) -> RefsPtytRegistration {
    RefsPtytRegistration { session_id: session_id.to_string(), slot_id: slot_id.to_string() }
}

#[test]
fn scheduler_fills_empty_slots_before_lru_replacement() {
    let mut scheduler: RefsPtytScheduler<u8> = RefsPtytScheduler::new();
    let registered = scheduler.register(&slot("ses", "a"), true, 1);
    assert!(registered.to_text().contains("registered"));
    let registered = scheduler.register(&slot("ses", "b"), true, 2);
    assert!(registered.to_text().contains("registered"));

    let one = scheduler.assign_active_task(&task("one", "ses")).unwrap();
    assert_eq!(one.slot_id, "a");
    assert_eq!(scheduler.sender(&one.key), Some(&1));
    assert!(one.message.to_text().contains("\"asyncId\":\"one\""));
    let two = scheduler.assign_active_task(&task("two", "ses")).unwrap();
    assert_eq!(two.slot_id, "b");
    assert!(two.message.to_text().contains("\"asyncId\":\"two\""));
    let three = scheduler.assign_active_task(&task("three", "ses")).unwrap();
    assert_eq!(three.slot_id, "a");
    assert!(three.message.to_text().contains("\"asyncId\":\"three\""));
}

#[test]
fn schedule_prepare_forces_and_restores_structured_content() {
    let mut input = json(
        r#"{
            "jsonrpc": "2.0",
            "id": 1,
            "method": "tools/call",
            "params": {
                "name": "exbash",
                "arguments": {
                    "ExecutorSessionID": "ses",
                    "mode": "shell"
                }
            }
        }"#,
    );
    let call = prepare_input_for_ptyt_schedule(&mut input).unwrap();
    assert_eq!(
        input.get3("params", "arguments", "includeStructuredContent"),
        Some(&Json::Bool(true))
    );
    let mut output = json(
        r#"{
            "jsonrpc": "2.0",
            "id": 1,
            "result": {
                "content": [],
                "structuredContent": {
                    "metadata": {
                        "hostSnapshot": {
                            "asyncId": "rex-1",
                            "executor": "local",
                            "sessionId": "ses",
                            "state": "running"
                        }
                    }
                }
            }
        }"#,
    );
    let active = active_task_from_ptyt_response(&call, &output).unwrap();
    assert_eq!(active.task.async_id, "rex-1");
    restore_output_after_ptyt_schedule(&mut output, &call);
    assert!(output.get2("result", "structuredContent").is_none());
}

#[test]
fn slots_of_other_sessions_are_left_alone() {
    let mut scheduler: RefsPtytScheduler<u8> = RefsPtytScheduler::new();
    scheduler.register(&slot("other", "a"), true, 1);
    scheduler.register(&slot("ses", "off"), false, 2);
    assert!(select_slot_key(&scheduler, "ses").is_none());
    assert!(scheduler.assign_active_task(&task("one", "ses")).is_none());
    scheduler.register(&slot("ses", "off"), true, 2);
    assert_eq!(scheduler.assign_active_task(&task("one", "ses")).unwrap().slot_id, "off");
    scheduler.unregister(&slot("ses", "off"));
    assert!(scheduler.assign_active_task(&task("two", "ses")).is_none());
    let key = slot_key("other", "a");
    assert_eq!(scheduler.sender(&key), Some(&1));
    scheduler.drop_slot(&key);
    assert_eq!(scheduler.sender(&key), None);
}

#[test]
fn messages_that_are_no_task_calls_are_left_alone() {
    let mut input = json(r#"{"jsonrpc":"2.0","id":1,"method":"tools/list"}"#);
    assert!(prepare_input_for_ptyt_schedule(&mut input).is_none());
    assert_eq!(input, json(r#"{"jsonrpc":"2.0","id":1,"method":"tools/list"}"#));
    assert!(is_register_message(&json(r#"{"type":"refs-ptyt.register"}"#)));
    assert!(!is_register_message(&json(r#"{"type":"other"}"#)));
}

#[test]
fn gateway_schedules_active_exbash_without_leaking_structured_content() {
    let mut scheduler: RefsPtytScheduler<u8> = RefsPtytScheduler::new();
    let registered = scheduler.register(&slot("ses", "slot-a"), true, 1);
    assert!(registered.to_text().contains("registered"));
    let mut input = json(
        r#"{
            "jsonrpc": "2.0",
            "id": 9,
            "method": "tools/call",
            "params": {
                "name": "exbash",
                "arguments": {
                    "ExecutorSessionID": "ses",
                    "mode": "shell"
                }
            }
        }"#,
    );
    let call = prepare_input_for_ptyt_schedule(&mut input);
    assert_eq!(input.text_of2("params", "name"), Some("exbash"));
    assert_eq!(
        input.get3("params", "arguments", "includeStructuredContent"),
        Some(&Json::Bool(true))
    );
    let response = json(
        r#"{
            "jsonrpc": "2.0",
            "id": 9,
            "result": {
                "content": [],
                "structuredContent": {
                    "metadata": {
                        "hostSnapshot": {
                            "asyncId": "rex-gateway",
                            "executor": "local",
                            "sessionId": "ses",
                            "state": "running"
                        }
                    }
                }
            }
        }"#,
    );
    let (active, output) = settle_response(&call, response);
    assert_eq!(output.get("id"), Some(&Json::Int(9)));
    assert!(output.get2("result", "structuredContent").is_none());
    let assignment = scheduler.assign_active_task(&active.unwrap()).unwrap();
    assert_eq!(assignment.slot_id, "slot-a");
    let assign = assignment.message.to_text();
    assert!(assign.contains("\"refs-ptyt.assign\""));
    assert!(assign.contains("\"asyncId\":\"rex-gateway\""));
    let (none, same) = settle_response(&None, json(r#"{"id":1}"#));
    assert!(none.is_none());
    assert_eq!(same, json(r#"{"id":1}"#));
}

#[test]
fn slots_that_cannot_be_reached_are_taken_away() {
    let mut scheduler: RefsPtytScheduler<u8> = RefsPtytScheduler::new();
    scheduler.register(&slot("ses", "a"), true, 1);
    scheduler.register(&slot("ses", "b"), true, 2);
    let first = scheduler.assign_active_task(&task("one", "ses")).unwrap();
    assert_eq!(first.slot_id, "a");
    let second = scheduler.undelivered(&first.key, &task("one", "ses")).unwrap();
    assert_eq!(second.slot_id, "b");
    assert_eq!(scheduler.sender(&first.key), None);
    assert!(scheduler.undelivered(&second.key, &task("one", "ses")).is_none());
    assert_eq!(scheduler.sender(&second.key), None);
}
