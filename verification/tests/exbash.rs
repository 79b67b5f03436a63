use remote_executor_for_session::exbash::{
    exbash_cleanup_candidate, exbash_completed_output_bytes, exbash_error_indicates_missing,
    exbash_error_indicates_missing_or_lost,
    exbash_error_indicates_storage_rejection, exbash_list_header, exbash_mode_creates_task,
    exbash_remove_warning_code, exbash_sync_input_from_existing, exbash_sync_input_from_result,
    format_exbash_run_or_shell_output, format_exbash_task, format_remote_exbash_run,
    normalize_exbash_state_for_display, normalize_exbash_state_for_host, remote_exbash_runs,
    sort_exbash_tasks, tracked_async_ids, untracked_runs,
};
use remote_executor_for_session::json::{Json, JsonObject};
use remote_executor_for_session::types::ExbashTaskSnapshot;

fn from_value(value: &serde_json::Value) -> Json {
    match value {
        serde_json::Value::Null => Json::Null,
        serde_json::Value::Bool(b) => Json::Bool(*b),
        serde_json::Value::Number(n) => match (n.as_i64(), n.as_u64()) {
            (Some(i), _) => Json::Int(i as i128),
            (None, Some(u)) => Json::Int(u as i128),
            (None, None) => Json::Float(n.to_string()),
        },
        serde_json::Value::String(s) => Json::str(s),
        serde_json::Value::Array(a) => Json::array(a.iter().map(from_value).collect()),
        serde_json::Value::Object(o) => {
            let mut object = JsonObject::new();
            for (k, v) in o {
                object.insert(k, from_value(v));
            }
            Json::Object(object)
        }
    }
}

fn json(text: &str) -> Json {
    from_value(&serde_json::from_str(text).unwrap())
}

fn snapshot(async_id: &str) -> ExbashTaskSnapshot {
    ExbashTaskSnapshot {
        async_id: async_id.to_string(),
        executor: "local".to_string(),
        session_id: Some("session".to_string()),
        workdir: None,
        state: None,
        pid: None,
        exit_code: None,
        started_at: None,
        ended_at: None,
        command: None,
        description: None,
        total_output: None,
    }
}

#[test]
fn exbash_task_list_line_clips_description_and_command() {
    let line = format_exbash_task(&ExbashTaskSnapshot {
        async_id: "rex-test".to_string(),
        executor: "local".to_string(),
        session_id: Some("session".to_string()),
        workdir: None,
        state: Some("running".to_string()),
        pid: None,
        exit_code: None,
        started_at: None,
        ended_at: None,
        command: Some("012345678901234567890123456789EXTRA\nnext".to_string()),
        description: Some("abcdefghijklmnopqrstuvwxyz123456EXTRA\nnext".to_string()),
        total_output: Some(12),
    });

    assert!(line.contains(
        "totalOutput=12 description=abcdefghijklmnopqrstuvwxyz1234 command=012345678901234567890123456789"
    ));
    assert!(!line.contains("EXTRA"));
    assert!(!line.contains("description=abcdefghijklmnopqrstuvwxyz123456"));
}

#[test]
fn remote_exbash_list_line_clips_description_and_command() {
    let line = format_remote_exbash_run(&json(
        r#"{
            "asyncID": "rex-remote",
            "state": "running",
            "totalOutput": 8,
            "description": "012345678901234567890123456789EXTRA\nnext",
            "command": "abcdefghijklmnopqrstuvwxyz123456EXTRA"
        }"#,
    ));

    assert_eq!(
        line,
        "- rex-remote running totalOutput=8 description=012345678901234567890123456789 command=abcdefghijklmnopqrstuvwxyz1234"
    );
}

#[test]
fn exbash_task_sort_places_tmp_running_last() {
    let mut tasks = vec![
        ExbashTaskSnapshot {
            async_id: "tmp".to_string(),
            executor: "local".to_string(),
            session_id: Some("session".to_string()),
            workdir: None,
            state: Some("running".to_string()),
            pid: None,
            exit_code: None,
            started_at: Some(3),
            ended_at: None,
            command: Some("sleep 1".to_string()),
            description: Some("Tmp Running".to_string()),
            total_output: None,
        },
        ExbashTaskSnapshot {
            async_id: "described".to_string(),
            executor: "local".to_string(),
            session_id: Some("session".to_string()),
            workdir: None,
            state: Some("stop".to_string()),
            pid: None,
            exit_code: None,
            started_at: Some(1),
            ended_at: Some(2),
            command: Some("true".to_string()),
            description: Some("described".to_string()),
            total_output: None,
        },
    ];

    sort_exbash_tasks(&mut tasks);
    assert_eq!(
        tasks.iter().map(|task| task.async_id.as_str()).collect::<Vec<_>>(),
        vec!["described", "tmp"]
    );
}

#[test]
fn cleanup_spares_described_and_running_tasks() {
    let mut task = snapshot("a");
    task.state = Some("exit:0".to_string());
    assert!(exbash_cleanup_candidate(&task));
    task.description = Some("keep me".to_string());
    assert!(!exbash_cleanup_candidate(&task));
    task.description = Some("Tmp Running".to_string());
    assert!(exbash_cleanup_candidate(&task));
    task.state = Some("running".to_string());
    assert!(!exbash_cleanup_candidate(&task));
}

#[test]
fn states_are_normalized() {
    assert_eq!(normalize_exbash_state_for_host("running", None), Some("running".to_string()));
    assert_eq!(normalize_exbash_state_for_host("stopped", None), Some("stop".to_string()));
    assert_eq!(normalize_exbash_state_for_display("stopped", Some(3)), "exit:3");
    assert_eq!(normalize_exbash_state_for_display("exited", Some(3)), "unknown");
    assert_eq!(normalize_exbash_state_for_host("", Some(0)), Some("exit:0".to_string()));
    assert_eq!(normalize_exbash_state_for_host("odd", None), None);
    assert!(exbash_mode_creates_task("run"));
    assert!(exbash_mode_creates_task("shell"));
    assert!(!exbash_mode_creates_task("stop"));
}

#[test]
fn messages_of_executors_and_hosts_are_told_apart() {
    assert!(exbash_error_indicates_missing_or_lost("exbash task rex-1 does not exist"));
    assert!(exbash_error_indicates_missing_or_lost("task Not Found"));
    assert!(!exbash_error_indicates_missing_or_lost("permission denied"));
    assert!(exbash_error_indicates_missing_or_lost("Connection reset"));
    assert!(!exbash_error_indicates_missing("Connection reset"));
    assert!(exbash_error_indicates_missing("Async run not found"));
    assert!(exbash_error_indicates_storage_rejection("exbash task stack is full"));
    assert!(!exbash_error_indicates_storage_rejection("no such session"));
    assert_eq!(exbash_remove_warning_code("task not found"), "asyncTaskNotFound");
    assert_eq!(exbash_remove_warning_code("Connection lost"), "notReplayable");
}

#[test]
fn new_tasks_are_read_from_results() {
    let result = json(
        r#"{"metadata":{"asyncID":"rex-1","executor":"local","exitCode":0,"pid":7,"startedAt":5},
            "output":{"text":"hi"}}"#,
    );
    let input = exbash_sync_input_from_result(&result, "run", &Some("build".to_string()));
    match input {
        Some(input) => {
            assert_eq!(input.async_id, Some("rex-1".to_string()));
            assert_eq!(input.description, Some("build".to_string()));
            assert_eq!(input.pid, Some(7));
        }
        None => panic!("expected a task"),
    }
    assert!(exbash_sync_input_from_result(&json("{}"), "run", &None).is_none());
}

#[test]
fn stop_is_recorded() {
    let mut existing = snapshot("rex-1");
    existing.state = Some("running".to_string());
    existing.command = Some("sleep 10".to_string());
    let input = exbash_sync_input_from_existing(&existing, &json("{}"), "stop", 99);
    assert_eq!(input.state, Some("stop".to_string()));
    assert_eq!(input.ended_at, Some(99));
    assert_eq!(input.command, Some("sleep 10".to_string()));
}

#[test]
fn untracked_runs_are_those_that_nobody_keeps() {
    let value = json(
        r#"{"metadata":{"runs":[{"asyncID":"known"},{"asyncID":"new"}]}}"#,
    );
    let runs = remote_exbash_runs(&value);
    assert_eq!(runs.len(), 2);
    let mut kept = snapshot("known");
    kept.executor = "box".to_string();
    let names = tracked_async_ids(&vec![kept], &vec![]);
    let left = untracked_runs(&runs, &names, "box");
    assert_eq!(left.len(), 1);
    assert_eq!(left[0].text_of("asyncID"), Some("new"));
    assert_eq!(exbash_list_header(1, 0, "all", "local")[0], "local:1 workspace:0");
}

#[test]
fn finished_output_ends_with_its_size_and_code() {
    let result = json(r#"{"metadata":{"exitCode":0,"totalOutput":3},"output":{"text":"hi\n"}}"#);
    let text = format_exbash_run_or_shell_output(&result);
    assert_eq!(text, "hi\n\ntotaloutput:3bytes\nexitcode:0");
    assert_eq!(exbash_completed_output_bytes(&json("{}"), "abc"), 3);
}
