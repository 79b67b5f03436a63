use remote_executor_for_session::calls::{Action, Event, ExecutorReply, Step};
use remote_executor_for_session::exbash_tool::{look_up_ended, record_ended};
use remote_executor_for_session::host::{
    ExbashSessionStore, ExbashSyncInput, ExbashWorkdirStore, HashRefSessionStore,
    RemoteExecutorConfigStore, SessionWorkdirProvider,
};
use remote_executor_for_session::json::{Json, JsonObject};
use remote_executor_for_session::jsonrpc::JsonRpcError;
use remote_executor_for_session::mcp::{McpCallContext, McpCallResult};
use remote_executor_for_session::memory_host::MemorySessionHost;
use remote_executor_for_session::tool_call::begin_tool;

fn from_value(value: &serde_json::Value) -> Json {
    match value {
        serde_json::Value::Null => Json::Null,
        serde_json::Value::Bool(b) => Json::Bool(*b),
        serde_json::Value::Number(n) => match (n.as_i64(), n.as_u64()) {
            (Some(i), _) => Json::Int(i as i128),
            (None, Some(u)) => Json::Int(u as i128),
            (None, None) => Json::Float(n.to_string()),
        },
        serde_json::Value::String(s) => Json::str(s),
        serde_json::Value::Array(a) => Json::array(a.iter().map(from_value).collect()),
        serde_json::Value::Object(o) => {
            let mut object = JsonObject::new();
            for (k, v) in o {
                object.insert(k, from_value(v));
            }
            Json::Object(object)
        }
    }
}

fn json(text: &str) -> Json {
    from_value(&serde_json::from_str(text).unwrap())
}

fn answer(result: &str) -> ExecutorReply {
    ExecutorReply { ok: true, error: None, result: Some(json(result)) }
}

fn refusal(message: &str) -> ExecutorReply {
    ExecutorReply { ok: false, error: Some(message.to_string()), result: None }
}

fn context(session: &str) -> McpCallContext {
    McpCallContext {
        executor_session_id: Some(session.to_string()),
        include_structured_content: true,
    }
}

/// Runs a call against a host and an executor, and notes what the executor was asked.
fn call(
    host: &mut MemorySessionHost,
    name: &str,
    arguments: &str,
    executor: &mut dyn FnMut(&str, &Json) -> ExecutorReply,
    log: &mut Vec<String>,
) -> Result<McpCallResult, JsonRpcError> {
    let mut step = begin_tool(name, json(arguments), &context("ses"));
    for _ in 0..200 {
        let (stage, action) = match step {
            Step::Done(outcome) => return outcome,
            Step::Ask(stage, action) => (stage, action),
        };
        let event = match action {
            Action::SessionWorkdir { session_id } => Event::Text(host.session_workdir(&session_id)),
            Action::IsHashRef { target } => Event::Flag(host.is_hash_ref(&target)),
            Action::ResolveHashRef { session_id, target } => {
                Event::Entry(host.resolve_hash_ref(&session_id, &target))
            }
            Action::StoreHashRef { session_id, update } => {
                Event::Entry(host.store_hash_ref(&session_id, update))
            }
            Action::ListSession { session_id, executor } => {
                Event::Tasks(host.list_session_exbash(&session_id, executor.as_deref()))
            }
            Action::ListWorkdir { session_id, workdir, executor } => {
                Event::Tasks(host.list_workdir_exbash(&session_id, &workdir, executor.as_deref()))
            }
            Action::CheckSession { session_id, input } => {
                Event::Done(host.check_session_exbash_create(&session_id, &input))
            }
            Action::CheckWorkdir { session_id, workdir, input } => {
                Event::Done(host.check_workdir_exbash_create(&session_id, &workdir, &input))
            }
            Action::SessionSnapshot { session_id, async_id, executor } => {
                Event::Lookup(host.session_exbash_snapshot(&session_id, &async_id, &executor))
            }
            Action::WorkdirSnapshot { session_id, workdir, async_id, executor } => Event::Lookup(
                host.workdir_exbash_snapshot(&session_id, &workdir, &async_id, &executor),
            ),
            Action::UpsertSession { session_id, input } => {
                Event::Snapshot(host.upsert_session_exbash(&session_id, input))
            }
            Action::UpsertWorkdir { session_id, workdir, input } => {
                Event::Snapshot(host.upsert_workdir_exbash(&session_id, &workdir, input))
            }
            Action::RemoveSession { session_id, async_id, executor } => {
                Event::Removed(host.remove_session_exbash(&session_id, &async_id, &executor))
            }
            Action::RemoveWorkdir { session_id, workdir, async_id, executor } => Event::Removed(
                host.remove_workdir_exbash(&session_id, &workdir, &async_id, &executor),
            ),
            Action::Watch { scope, tracking_scope, async_id } => {
                log.push(format!("watch {} {} {}", scope.session_id, tracking_scope, async_id));
                Event::Done(Ok(()))
            }
            Action::ReadConfig { workdir } => {
                Event::Config(host.read_remote_executor_config(&workdir).map(|c| c.config))
            }
            Action::WriteConfig { workdir, config } => {
                log.push("write config".to_string());
                Event::Done(host.update_remote_executor_config(&workdir, config).map(|_| ()))
            }
            Action::Connect { executor } => {
                log.push(format!("connect {} {}", executor.id, executor.url));
                Event::Done(Ok(()))
            }
            Action::Execute { id: _, method, executor: target, params, directory } => {
                log.push(format!(
                    "{} on {} in {}",
                    method,
                    target.unwrap_or_default(),
                    directory.unwrap_or_default()
                ));
                Event::Reply(executor(&method, &params))
            }
        };
        step = stage.next(event, 77);
    }
    panic!("the call did not end")
}

fn text(result: Result<McpCallResult, JsonRpcError>) -> String {
    match result {
        Ok(r) => r.content[0].text.clone(),
        Err(e) => panic!("{} {}", e.code, e.message),
    }
}

fn error(result: Result<McpCallResult, JsonRpcError>) -> (i64, String) {
    match result {
        Ok(r) => panic!("{}", r.content[0].text),
        Err(e) => (e.code, e.message),
    }
}

fn host() -> MemorySessionHost {
    MemorySessionHost::new("ses", "/work")
}

const FILE: &str = r#"{"metadata":{"hashCode":"sha256:one","file":{"fileKey":"k","canonicalPath":"/work/a.txt","kind":"file"}},"output":{"text":"1: hello"}}"#;

#[test]
fn calls_without_a_session_are_refused() {
    let none = McpCallContext { executor_session_id: Some("  ".to_string()), include_structured_content: false };
    match begin_tool("read", json("{}"), &none) {
        Step::Done(Err(e)) => {
            assert_eq!(e.code, -32602);
            assert_eq!(e.message, "ExecutorSessionID is required");
        }
        _ => panic!("expected an error"),
    }
    let mut log = Vec::new();
    let r = call(&mut host(), "odd", "{}", &mut |_, _| answer("{}"), &mut log);
    assert_eq!(error(r).0, -32601);
    assert!(log.is_empty());
}

#[test]
fn labels_of_reads_are_keys_of_patches() {
    let mut host = host();
    let mut log = Vec::new();
    let read = text(call(
        &mut host,
        "read",
        r#"{"fileKey":"/work/a.txt"}"#,
        &mut |method, params| {
            assert_eq!(method, "read");
            assert_eq!(params.text_of("filePath"), Some("/work/a.txt"));
            assert_eq!(params.get("hashCheckMode"), Some(&Json::Bool(true)));
            answer(FILE)
        },
        &mut log,
    ));
    let start = read.find("<fileRef>").unwrap() + "<fileRef>".len();
    let end = read.find("</fileRef>").unwrap();
    let label = read[start..end].to_string();
    assert!(label.starts_with("a.txt #"));
    let arguments =
        format!(r#"{{"mode":"patch","fileKey":"{label}","patchText":"@@ -1 +1 @@"}}"#);
    let patched = text(call(
        &mut host,
        "FileAction",
        &arguments,
        &mut |method, params| {
            if method == "FileAction" {
                assert_eq!(params.text_of("filePath"), Some("/work/a.txt"));
                assert_eq!(params.text_of("hashCode"), Some("sha256:one"));
                answer(
                    r#"{"metadata":{"file":{"fileKey":"k","canonicalPath":"/work/a.txt","kind":"file"}},"output":{"text":"hashCode: sha256:two\npatched"}}"#,
                )
            } else {
                assert_eq!(method, "read");
                answer(
                    r#"{"metadata":{"hashCode":"sha256:two","file":{"fileKey":"k","canonicalPath":"/work/a.txt","kind":"file"}},"output":{"text":"x"}}"#,
                )
            }
        },
        &mut log,
    ));
    assert!(patched.starts_with("patched\n<fileRef>a.txt #"));
    assert!(!patched.contains(&label));
    assert_eq!(
        log,
        vec!["read on local in /work", "FileAction on local in /work", "read on local in /work"]
    );
}

#[test]
fn file_action_patch_requires_hash_ref() {
    let mut host = host();
    let mut log = Vec::new();
    let rejected = error(call(
        &mut host,
        "FileAction",
        r#"{"mode":"patch","fileKey":"/work/a.txt","patchText":"@@ -1 +1 @@"}"#,
        &mut |_, _| answer("{}"),
        &mut log,
    ));
    assert_eq!(rejected.0, -32602);
    assert!(rejected.1.contains("requires fileKey to be a hashRef"));
    assert!(log.is_empty());
    let unknown = error(call(
        &mut host,
        "FileAction",
        r#"{"mode":"patch","fileKey":"a.txt #0000","patchText":"@@ -1 +1 @@"}"#,
        &mut |_, _| answer("{}"),
        &mut log,
    ));
    assert_eq!(unknown, (-32603, "hashRef not found: a.txt #0000".to_string()));
    let binary = text(call(
        &mut host,
        "FileAction",
        r#"{"mode":"patch","patchMode":"binary","fileKey":"/work/a.bin","patchText":"x"}"#,
        &mut |_, params| {
            assert!(params.get("hashCheckMode").is_none());
            answer(r#"{"output":{"text":"done"}}"#)
        },
        &mut log,
    ));
    assert_eq!(binary, "done");
}

fn running(method: &str, params: &Json) -> ExecutorReply {
    assert_eq!(method, "exbash");
    match params.text_of("mode") {
        Some("run") => answer(
            r#"{"metadata":{"asyncID":"rex-1","executor":"local","command":"sleep 20","startedAt":5},"output":{"text":"","message":"detached"}}"#,
        ),
        Some("stop") => answer(r#"{"metadata":{"asyncID":"rex-1"},"output":{"text":"stopped"}}"#),
        Some("remove") => answer(r#"{"metadata":{"asyncID":"rex-1"},"output":{"text":"removed"}}"#),
        _ => refusal("odd mode"),
    }
}

#[test]
fn exbash_cleanup_syncs_host_tracking() {
    let mut host = host();
    let mut log = Vec::new();
    text(call(&mut host, "exbash", r#"{"mode":"run","command":"sleep 20"}"#, &mut running, &mut log));
    assert_eq!(log, vec!["exbash on local in /work", "watch ses local rex-1"]);
    let listed = text(call(&mut host, "exbash", r#"{"mode":"list"}"#, &mut running, &mut log));
    assert!(listed.starts_with("local:1 workspace:0\n"));
    assert!(listed.contains("showing executor=all of local"));
    assert!(listed.contains("- local:rex-1 running"));

    text(call(&mut host, "exbash", r#"{"mode":"remove","asyncID":"rex-1"}"#, &mut running, &mut log));
    let listed = text(call(&mut host, "exbash", r#"{"mode":"list"}"#, &mut running, &mut log));
    assert!(listed.contains("local:0 workspace:0"));

    text(call(&mut host, "exbash", r#"{"mode":"run","scope":"workspace","command":"sleep 20"}"#, &mut running, &mut log));
    text(call(&mut host, "exbash", r#"{"mode":"stop","asyncID":"rex-1"}"#, &mut running, &mut log));
    let listed = text(call(&mut host, "exbash", r#"{"mode":"list"}"#, &mut running, &mut log));
    assert!(listed.contains("local:0 workspace:1"));
    let kept = host.workdir_exbash_snapshot("ses", "/work", "rex-1", "local").unwrap().unwrap();
    assert_eq!(kept.state, Some("stop".to_string()));
    assert_eq!(kept.ended_at, Some(77));
    assert_eq!(kept.command, Some("sleep 20".to_string()));

    let stale = error(call(
        &mut host,
        "exbash",
        r#"{"mode":"remove","asyncID":"rex-1"}"#,
        &mut |_, _| refusal("exbash task rex-1 does not exist"),
        &mut log,
    ));
    assert_eq!(stale.1, "exbash task rex-1 does not exist");
    let listed = text(call(&mut host, "exbash", r#"{"mode":"list"}"#, &mut running, &mut log));
    assert!(listed.contains("local:0 workspace:0"));
}

#[test]
fn removal_without_a_connection_forgets_the_task_with_a_warning() {
    let mut host = host();
    let mut log = Vec::new();
    text(call(&mut host, "exbash", r#"{"mode":"run","command":"sleep 20"}"#, &mut running, &mut log));
    let removed = call(
        &mut host,
        "exbash",
        r#"{"mode":"remove","asyncID":"rex-1"}"#,
        &mut |_, _| refusal("Connection reset"),
        &mut log,
    )
    .unwrap_or_else(|e| panic!("{}", e.message));
    assert_eq!(
        removed.content[0].text,
        "warning: notReplayable\nasyncID:rex-1\nexecutor:local\nmessage:Connection reset\nhostCleanup:{\"asyncID\":\"rex-1\",\"executor\":\"local\",\"localRemoved\":true,\"workspaceRemoved\":false}"
    );
    assert_eq!(
        removed.structured_content,
        Some(json(
            r#"{"metadata":{"asyncID":"rex-1","executor":"local",
                "warning":{"code":"notReplayable","message":"Connection reset"},
                "hostCleanup":{"asyncID":"rex-1","executor":"local","localRemoved":true,"workspaceRemoved":false}}}"#
        ))
    );
    assert!(host.session_exbash_snapshot("ses", "rex-1", "local").unwrap().is_none());
    let both = error(call(
        &mut host,
        "exbash",
        r#"{"mode":"remove","asyncID":"rex-1"}"#,
        &mut |_, _| refusal("connection: task not found"),
        &mut log,
    ));
    assert_eq!(both.1, "connection: task not found");
    let other = error(call(
        &mut host,
        "exbash",
        r#"{"mode":"stop","asyncID":"rex-1"}"#,
        &mut |_, _| refusal("Connection reset"),
        &mut log,
    ));
    assert_eq!(other.1, "Connection reset");
}

#[test]
fn failed_removal_on_another_executor_keeps_the_task() {
    let mut host = host();
    host.update_remote_executor_config(
        "/work",
        json(r#"{"executors":[{"id":"box","url":"ws://box"}]}"#),
    )
    .unwrap();
    host.upsert_session_exbash(
        "ses",
        ExbashSyncInput {
            async_id: Some("rex-9".to_string()),
            executor: Some("box".to_string()),
            ..ExbashSyncInput::default()
        },
    )
    .unwrap();
    let mut log = Vec::new();
    let failed = error(call(
        &mut host,
        "exbash",
        r#"{"mode":"remove","asyncID":"rex-9","executor":"box"}"#,
        &mut |_, _| refusal("async run not found"),
        &mut log,
    ));
    assert_eq!(failed, (-32603, "async run not found".to_string()));
    assert!(host.session_exbash_snapshot("ses", "rex-9", "box").unwrap().is_some());
    let lost = error(call(
        &mut host,
        "exbash",
        r#"{"mode":"remove","asyncID":"rex-9","executor":"box"}"#,
        &mut |_, _| refusal("timed out"),
        &mut Vec::new(),
    ));
    assert_eq!(lost, (-32603, "timed out".to_string()));
    assert!(host.session_exbash_snapshot("ses", "rex-9", "box").unwrap().is_some());
    assert_eq!(log, vec!["connect box ws://box", "exbash on box in "]);
}

#[test]
fn exbash_session_stack_full_rejects_new_run_before_spawn() {
    let mut host = host().with_exbash_task_limit(1);
    host.upsert_session_exbash(
        "ses",
        ExbashSyncInput {
            async_id: Some("rex-0".to_string()),
            state: Some("running".to_string()),
            ..ExbashSyncInput::default()
        },
    )
    .unwrap();
    let mut log = Vec::new();
    let rejected = error(call(
        &mut host,
        "exbash",
        r#"{"mode":"run","command":"echo blocked"}"#,
        &mut running,
        &mut log,
    ));
    assert_eq!(rejected, (-32602, "exbash task stack is full".to_string()));
    assert!(log.is_empty());
}

#[test]
fn ended_tasks_without_description_make_room() {
    let mut host = host().with_exbash_task_limit(1);
    host.upsert_session_exbash(
        "ses",
        ExbashSyncInput {
            async_id: Some("rex-0".to_string()),
            state: Some("exit:0".to_string()),
            ..ExbashSyncInput::default()
        },
    )
    .unwrap();
    let mut log = Vec::new();
    let r = call(
        &mut host,
        "exbash",
        r#"{"mode":"run","command":"sleep 20"}"#,
        &mut running,
        &mut log,
    );
    let content = r.unwrap_or_else(|e| panic!("{}", e.message)).structured_content.unwrap();
    assert_eq!(
        content.get3("metadata", "hostCleanup", "removedCount"),
        Some(&Json::Int(1))
    );
    assert!(host.session_exbash_snapshot("ses", "rex-0", "local").unwrap().is_none());
    assert!(host.session_exbash_snapshot("ses", "rex-1", "local").unwrap().is_some());
}

#[test]
fn failed_remote_runs_only_make_room() {
    let mut host = host().with_exbash_task_limit(2);
    host.update_remote_executor_config(
        "/work",
        json(r#"{"executors":[{"id":"box","url":"ws://box"}]}"#),
    )
    .unwrap();
    for (id, state) in [("rex-0", "exit:0"), ("rex-1", "running")] {
        host.upsert_session_exbash(
            "ses",
            ExbashSyncInput {
                async_id: Some(id.to_string()),
                executor: Some("box".to_string()),
                state: Some(state.to_string()),
                ..ExbashSyncInput::default()
            },
        )
        .unwrap();
    }
    let failed = error(call(
        &mut host,
        "exbash",
        r#"{"mode":"run","command":"sleep 20","executor":"box"}"#,
        &mut |_, _| refusal("disconnected"),
        &mut Vec::new(),
    ));
    assert_eq!(failed.1, "disconnected");
    let kept = host.list_session_exbash("ses", None).unwrap();
    assert_eq!(kept.len(), 1);
    assert_eq!(kept[0].async_id, "rex-1");
    assert_eq!(kept[0].state, Some("running".to_string()));
}

#[test]
fn exbash_scopes_are_checked() {
    let mut host = host();
    let mut log = Vec::new();
    let r = error(call(&mut host, "exbash", r#"{"mode":"list","scope":"remote"}"#, &mut running, &mut log));
    assert_eq!(r, (-32602, "scope=remote requires executor".to_string()));
    let r = error(call(&mut host, "exbash", r#"{"mode":"list","scope":"remote","executor":"local"}"#, &mut running, &mut log));
    assert_eq!(r, (-32602, "scope=remote requires a remote executor".to_string()));
    let r = error(call(&mut host, "exbash", r#"{"mode":"run","scope":"remote"}"#, &mut running, &mut log));
    assert_eq!(r, (-32602, "scope=remote is only supported for exbash mode=list".to_string()));
    let r = error(call(&mut host, "exbash", r#"{"mode":"run","scope":"moon"}"#, &mut running, &mut log));
    assert_eq!(r.0, -32602);
    assert!(log.is_empty());
}

#[test]
fn ends_of_watched_tasks_are_recorded() {
    let mut host = host();
    let mut log = Vec::new();
    text(call(&mut host, "exbash", r#"{"mode":"run","command":"sleep 20"}"#, &mut running, &mut log));
    let scope = remote_executor_for_session::args::CallScope {
        session_id: "ses".to_string(),
        workdir: "/work".to_string(),
    };
    match look_up_ended(&scope, "local", "rex-1") {
        Action::SessionSnapshot { session_id, async_id, executor } => {
            let kept = host.session_exbash_snapshot(&session_id, &async_id, &executor).unwrap();
            let action =
                record_ended(&scope, "local", &kept, &json(r#"{"metadata":{"exitCode":7,"endedAt":88}}"#), 90);
            match action {
                Some(Action::UpsertSession { session_id, input }) => {
                    assert_eq!(input.state, Some("exit:7".to_string()));
                    assert_eq!(input.ended_at, Some(88));
                    host.upsert_session_exbash(&session_id, input).unwrap();
                }
                _ => panic!("expected an update"),
            }
        }
        _ => panic!("expected a question"),
    }
    let kept = host.session_exbash_snapshot("ses", "rex-1", "local").unwrap();
    assert!(record_ended(&scope, "local", &kept, &json("{}"), 91).is_none());
}

#[test]
fn executors_are_connected_and_routed_to() {
    let mut host = host();
    let mut log = Vec::new();
    let mut executor = |method: &str, _: &Json| match method {
        "list_executor" => answer(
            r#"{"metadata":{"executors":[{"id":"local","url":"ws://here"}]},"output":{"text":""}}"#,
        ),
        "list_shells" => answer(r#"{"output":{"text":"default: sh"}}"#),
        _ => answer(r#"{"output":{"text":"from box"}}"#),
    };
    text(call(
        &mut host,
        "RemoteExecutorManager",
        r#"{"method":"connect_to_executor","id":"box","url":"ws://box"}"#,
        &mut executor,
        &mut log,
    ));
    assert_eq!(log[0], "write config");
    assert_eq!(log[1], "connect box ws://box");
    assert_eq!(log[2], "list_executor on  in ");
    let shells = text(call(
        &mut host,
        "RemoteExecutorManager",
        r#"{"method":"list_shells","executor":"local"}"#,
        &mut executor,
        &mut log,
    ));
    assert_eq!(shells, "default: sh");
    let routed = call(
        &mut host,
        "exbash",
        r#"{"mode":"read","asyncID":"x","executor":"box"}"#,
        &mut executor,
        &mut log,
    )
    .unwrap_or_else(|e| panic!("{}", e.message));
    assert_eq!(routed.content[0].text, "from box");
    let content = routed.structured_content.unwrap();
    assert_eq!(content.text_of2("metadata", "executor"), Some("box"));
    let missing = error(call(
        &mut host,
        "read",
        r#"{"fileKey":"/x","executor":"moon"}"#,
        &mut executor,
        &mut log,
    ));
    assert_eq!(missing.1, "executor not found in workspace config: moon");
    let odd = error(call(
        &mut host,
        "RemoteExecutorManager",
        r#"{"method":"odd"}"#,
        &mut executor,
        &mut log,
    ));
    assert_eq!(odd.0, -32601);
}

#[test]
fn searches_go_through_every_path() {
    let mut host = host();
    let mut log = Vec::new();
    let mut seen = Vec::new();
    let found = text(call(
        &mut host,
        "rg",
        r#"{"pattern":"x","paths":["/a","/b","/c"],"max_count":2}"#,
        &mut |method, params| {
            assert_eq!(method, "rg");
            seen.push((
                params.text_of("path").unwrap().to_string(),
                params.get("max_count").unwrap().as_u64(),
            ));
            answer(r#"{"metadata":{"matches":1,"filesWalked":2,"code":0},"output":{"text":"hit"}}"#)
        },
        &mut log,
    ));
    assert_eq!(seen, vec![("/a".to_string(), Some(2)), ("/b".to_string(), Some(1))]);
    assert!(found.contains("hit\nhit\n"));
    assert!(found.contains("matches:2\nfilesWalked:4\ncode:0"));
    let files = text(call(
        &mut host,
        "rg",
        r#"{"mode":"files","pattern":"*.rs","path":"/a"}"#,
        &mut |method, _| {
            assert_eq!(method, "glob");
            answer(r#"{"metadata":{"count":1,"filesWalked":2},"output":{"text":"/a/demo.rs"}}"#)
        },
        &mut log,
    ));
    assert!(files.contains("matches:1\nfilesWalked:2\ncode:0"));
    let bad = error(call(&mut host, "rg", r#"{"mode":"odd"}"#, &mut |_, _| answer("{}"), &mut log));
    assert_eq!(bad.0, -32602);
}

#[test]
fn skills_are_listed_and_read() {
    let mut host = host();
    let mut log = Vec::new();
    let mut executor = |method: &str, params: &Json| match method {
        "glob" => {
            if params.text_of("pattern") == Some("**/SKILL.md") {
                answer(r#"{"output":{"text":"/s/b/SKILL.md\n/s/a/SKILL.md"}}"#)
            } else {
                answer(r#"{"output":{"text":"/s/a/SKILL.md\n/s/a/run.sh"}}"#)
            }
        }
        _ => {
            if params.text_of("filePath") == Some("/s/a/SKILL.md") {
                answer(r#"{"output":{"text":"---\nname: alpha\ndescription: first\n---\nBody a"}}"#)
            } else {
                answer(r#"{"output":{"text":"---\nname: beta\ndescription: second\n---\nBody b"}}"#)
            }
        }
    };
    let listed = text(call(
        &mut host,
        "skill",
        r#"{"path":"/s","executor":"local"}"#,
        &mut executor,
        &mut log,
    ));
    assert!(listed.find("alpha").unwrap() < listed.find("beta").unwrap());
    let read = text(call(
        &mut host,
        "skill",
        r#"{"path":"/s","executor":"local","mode":"read","name":"^al"}"#,
        &mut executor,
        &mut log,
    ));
    assert!(read.contains("Body a"));
    assert!(read.contains("run.sh"));
    let many = error(call(
        &mut host,
        "skill",
        r#"{"path":"/s","executor":"local","mode":"read","name":".*"}"#,
        &mut executor,
        &mut log,
    ));
    assert_eq!(many, (-32602, "skill name regex matched multiple skills: alpha, beta".to_string()));
    let none = error(call(
        &mut host,
        "skill",
        r#"{"path":"/s","executor":"local","mode":"read","name":"zeta"}"#,
        &mut executor,
        &mut log,
    ));
    assert_eq!(none, (-32602, "skill not found".to_string()));
    let bad = error(call(
        &mut host,
        "skill",
        r#"{"path":"/s","executor":"local","name":"("}"#,
        &mut executor,
        &mut log,
    ));
    assert!(bad.1.starts_with("invalid skill name regex: "));
    let unnamed = error(call(
        &mut host,
        "skill",
        r#"{"path":"/s","executor":"local","mode":"read"}"#,
        &mut executor,
        &mut log,
    ));
    assert_eq!(unnamed.1, "skill mode=read requires name regex");
}

#[test]
fn unexpected_events_end_a_call() {
    let step = begin_tool("read", json("{}"), &context("ses"));
    let stage = match step {
        Step::Ask(stage, _) => stage,
        Step::Done(_) => panic!("expected a question"),
    };
    match stage.next(Event::Flag(true), 0) {
        Step::Done(Err(e)) => assert_eq!(e.message, "unexpected reply of the host"),
        _ => panic!("expected an error"),
    }
    let blank = begin_tool("read", json("{}"), &context("ses"));
    if let Step::Ask(stage, _) = blank {
        match stage.next(Event::Text(Ok(" ".to_string())), 0) {
            Step::Done(Err(e)) => {
                assert_eq!(e.message, "workdir not found for ExecutorSessionID=ses")
            }
            _ => panic!("expected an error"),
        }
    }
}
