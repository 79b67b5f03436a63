use remote_executor_for_session::dummy_host::DummySessionHost;
use remote_executor_for_session::host::{
    ExbashSessionStore, ExbashSyncInput, ExbashWorkdirStore, HashRefSessionStore,
    RemoteExecutorConfigStore, SessionWorkdirProvider,
};
use remote_executor_for_session::json::{Json, JsonObject};
use remote_executor_for_session::memory_host::MemorySessionHost;
use remote_executor_for_session::refs::{basename, label_hash_ref, small_hash_code};
use remote_executor_for_session::session_file::JsonSessionFile;
use remote_executor_for_session::types::{ExbashTaskSnapshot, FileRefEntry, FileRefUpdate, FileStamp};

fn from_value(value: &serde_json::Value) -> Json {
    match value {
        serde_json::Value::Null => Json::Null,
        serde_json::Value::Bool(b) => Json::Bool(*b),
        serde_json::Value::Number(n) => match (n.as_i64(), n.as_u64()) {
            (Some(i), _) => Json::Int(i as i128),
            (None, Some(u)) => Json::Int(u as i128),
            (None, None) => Json::Float(n.to_string()),
        },
        serde_json::Value::String(s) => Json::str(s),
        serde_json::Value::Array(a) => Json::array(a.iter().map(from_value).collect()),
        serde_json::Value::Object(o) => {
            let mut object = JsonObject::new();
            for (k, v) in o {
                object.insert(k, from_value(v));
            }
            Json::Object(object)
        }
    }
}

fn json(text: &str) -> Json {
    from_value(&serde_json::from_str(text).unwrap())
}

fn update() -> FileRefUpdate {
    FileRefUpdate {
        executor: "local".into(),
        file: FileStamp {
            file_key: "fk".into(),
            canonical_path: "/tmp/a.txt".into(),
            kind: "file".into(),
            size: Some(1),
            mtime_ms: Some(2),
        },
        hash_code: "sha256:abc".into(),
    }
}

fn task_input() -> ExbashSyncInput {
    ExbashSyncInput {
        async_id: Some("rex-1".into()),
        executor: Some("local".into()),
        command: Some("echo hi".into()),
        state: Some("running".into()),
        pid: Some(123),
        started_at: Some(10),
        ..ExbashSyncInput::default()
    }
}

fn label_of(entry: &FileRefEntry) -> String {
    label_hash_ref(
        &basename(&entry.file_path),
        &small_hash_code(&entry.file_key_ref, &entry.hash_code),
    )
}

#[test]
fn memory_host_round_trips_hashref_and_exbash() {
    let mut host = MemorySessionHost::new("ses", "/work");
    assert_eq!(host.session_workdir("ses").unwrap(), "/work");
    let entry = host.store_hash_ref("ses", update()).unwrap();
    let label = label_of(&entry);
    let resolved = host.resolve_hash_ref("ses", &label).unwrap();
    assert_eq!(resolved.file_path, "/tmp/a.txt");
    let snapshot = host.upsert_session_exbash("ses", task_input()).unwrap();
    assert_eq!(snapshot.async_id, "rex-1");
    let wd = host.upsert_workdir_exbash("ses", "/work", task_input()).unwrap();
    assert_eq!(wd.workdir.unwrap(), "/work");
    let config = host.update_remote_executor_config("/work", json(r#"{"a": 1}"#)).unwrap();
    assert_eq!(config.config.get("a"), Some(&Json::Int(1)));
}

#[test]
fn json_file_host_round_trips_hashref_and_exbash() {
    let mut file = JsonSessionFile::new();
    let entry = file.store_hash_ref(update());
    let label = label_of(&entry);
    let resolved = file.resolve_hash_ref(&label).unwrap();
    assert_eq!(resolved.executor, "local");
    let snapshot = file.upsert_session_exbash("ses", task_input());
    assert_eq!(snapshot.async_id, "rex-1");
    let config = file.update_remote_executor_config("/work", json(r#"{"x": true}"#));
    assert!(config.config.get("x").unwrap().as_bool().unwrap());
}

#[test]
fn memory_host_refuses_unknown_references() {
    let mut host = MemorySessionHost::new("ses", "/work");
    let entry = host.store_hash_ref("ses", update()).unwrap();
    let label = label_of(&entry);
    assert!(host.is_hash_ref(&label));
    assert!(!host.is_hash_ref("a.txt"));
    assert!(host.resolve_hash_ref("other", &label).is_err());
    assert_eq!(
        host.resolve_hash_ref("ses", "a.txt").unwrap_err(),
        "invalid hashRef: a.txt"
    );
    assert_eq!(
        host.resolve_hash_ref("ses", "b.txt #0000").unwrap_err(),
        "hashRef not found: b.txt #0000"
    );
    let touched = host.retouch_hash_ref("ses", &entry.file_key_ref, "sha256:new").unwrap();
    assert_eq!(touched.unwrap().hash_code, "sha256:new");
    assert!(host.retouch_hash_ref("ses", "nothing", "x").unwrap().is_none());
}

#[test]
fn memory_host_keeps_tasks_apart() {
    let mut host = MemorySessionHost::new("ses", "/work");
    host.upsert_session_exbash("ses", task_input()).unwrap();
    host.upsert_workdir_exbash("ses", "/work", task_input()).unwrap();
    assert_eq!(host.list_session_exbash("ses", None).unwrap().len(), 1);
    assert_eq!(host.list_session_exbash("ses", Some("box")).unwrap().len(), 0);
    assert_eq!(host.list_session_exbash("other", None).unwrap().len(), 0);
    assert_eq!(host.list_workdir_exbash("ses", "/work", None).unwrap().len(), 1);
    assert!(host.session_exbash_snapshot("ses", "rex-1", "local").unwrap().is_some());
    assert!(host.remove_session_exbash("ses", "rex-1", "local").unwrap());
    assert!(!host.remove_session_exbash("ses", "rex-1", "local").unwrap());
    assert!(host.session_exbash_snapshot("ses", "rex-1", "local").unwrap().is_none());
    assert!(host.workdir_exbash_snapshot("ses", "/work", "rex-1", "local").unwrap().is_some());
    assert!(host.remove_workdir_exbash("ses", "/work", "rex-1", "local").unwrap());
    assert!(host.list_workdir_exbash("ses", "/work", None).unwrap().is_empty());
}

#[test]
fn memory_host_has_a_limit() {
    let mut host = MemorySessionHost::new("ses", "/work").with_exbash_task_limit(1);
    let mut other = task_input();
    other.async_id = Some("rex-2".into());
    assert!(host.check_session_exbash_create("ses", &other).is_ok());
    host.upsert_session_exbash("ses", task_input()).unwrap();
    assert_eq!(
        host.check_session_exbash_create("ses", &other).unwrap_err(),
        "exbash task stack is full"
    );
    assert!(host.check_session_exbash_create("ses", &task_input()).is_ok());
    assert!(host.check_workdir_exbash_create("ses", "/work", &other).is_ok());
    host.upsert_workdir_exbash("ses", "/work", task_input()).unwrap();
    assert!(host.check_workdir_exbash_create("ses", "/work", &other).is_err());
}

#[test]
fn session_file_keeps_tasks_by_workspace() {
    let mut file = JsonSessionFile::new();
    file.upsert_session_exbash("ses", task_input());
    file.upsert_workdir_exbash("/work", task_input());
    let session = file.session_exbash_snapshot("rex-1", "local").unwrap();
    assert_eq!(session.session_id, Some("ses".to_string()));
    let workdir = file.workdir_exbash_snapshot("/work", "rex-1", "local").unwrap();
    assert_eq!(workdir.workdir, Some("/work".to_string()));
    assert!(file.remove_session_exbash("rex-1", "local"));
    assert!(file.remove_workdir_exbash("/work", "rex-1", "local"));
    assert!(file.session_exbash_snapshot("rex-1", "local").is_none());
    assert_eq!(file.read_remote_executor_config("/work").config, json("{}"));
    assert!(file.resolve_hash_ref("x").is_err());
    let entry = file.store_hash_ref(update());
    let touched = file.retouch_hash_ref(&entry.file_key_ref, "sha256:new");
    assert_eq!(touched.unwrap().hash_code, "sha256:new");
}

#[test]
fn dummy_host_keeps_nothing() {
    let mut host = DummySessionHost;
    assert!(host.resolve_hash_ref("ses", "a #0000").is_err());
    assert!(host.session_exbash_snapshot("ses", "a", "local").unwrap().is_none());
    assert!(host.list_session_exbash("ses", None).unwrap().is_empty());
    assert!(host.upsert_session_exbash("ses", task_input()).is_ok());
    assert!(!host.remove_session_exbash("ses", "a", "local").unwrap());
    assert!(host.check_session_exbash_create("ses", &task_input()).is_ok());
}

#[test]
fn snapshots_read_back_from_json() {
    let mut host = MemorySessionHost::new("ses", "/work");
    let snapshot = host.upsert_session_exbash("ses", task_input()).unwrap();
    let value = snapshot.to_json();
    assert_eq!(value.text_of("asyncId"), Some("rex-1"));
    let back = ExbashTaskSnapshot::from_json(&value).unwrap();
    assert_eq!(back.async_id, "rex-1");
    assert_eq!(back.pid, Some(123));
    assert_eq!(back.started_at, Some(10));
    assert!(ExbashTaskSnapshot::from_json(&Json::Null).is_none());
}
