use remote_executor_for_session::json::{Json, JsonObject};
use remote_executor_for_session::refs::{
    basename, extract_file_ref_update, file_key_ref, inject_file_ref, label_hash_ref,
    make_entry_parts, parse_hash_ref, short_hash, small_hash_code,
};
use remote_executor_for_session::types::{FileRefEntry, RecToolResult};

fn from_value(value: &serde_json::Value) -> Json {
    match value {
        serde_json::Value::Null => Json::Null,
        serde_json::Value::Bool(b) => Json::Bool(*b),
        serde_json::Value::Number(n) => match (n.as_i64(), n.as_u64()) {
            (Some(i), _) => Json::Int(i as i128),
            (None, Some(u)) => Json::Int(u as i128),
            (None, None) => Json::Float(n.to_string()),
        },
        serde_json::Value::String(s) => Json::str(s),
        serde_json::Value::Array(a) => Json::array(a.iter().map(from_value).collect()),
        serde_json::Value::Object(o) => {
            let mut object = JsonObject::new();
            for (k, v) in o {
                object.insert(k, from_value(v));
            }
            Json::Object(object)
        }
    }
}

fn json(text: &str) -> Json {
    from_value(&serde_json::from_str(text).unwrap())
}

#[test]
fn injects_hash_ref_into_rec_args() {
    let entry = FileRefEntry {
        executor: "box".into(),
        file_path: "/remote/a.txt".into(),
        hash_code: "sha256:abc".into(),
        file_key_ref: "box:key".into(),
    };
    let injected = inject_file_ref(&json(r#"{ "filePath": "a.txt #ABCD" }"#), Some(&entry));
    assert_eq!(injected.executor, "box");
    assert_eq!(injected.args.text_of("filePath"), Some("/remote/a.txt"));
    assert_eq!(injected.args.get("hashCheckMode"), Some(&Json::Bool(true)));
    assert_eq!(injected.args.text_of("hashCode"), Some("sha256:abc"));
    assert_eq!(injected.args.text_of("targetExecutor"), Some("box"));
}

#[test]
fn extracts_file_ref_update_from_rec_result() {
    let result = RecToolResult {
        metadata: json(
            r#"{
                "hashCode": "sha256:def",
                "file": { "fileKey": "k", "canonicalPath": "/tmp/a.txt", "kind": "file" }
            }"#,
        ),
        output: json("{}"),
    };
    let update = extract_file_ref_update(&result, "local").unwrap();
    assert_eq!(update.executor, "local");
    assert_eq!(update.hash_code, "sha256:def");
    assert_eq!(update.file.canonical_path, "/tmp/a.txt");
}

#[test]
fn parses_and_labels_hash_ref_like_opencode() {
    let parsed = parse_hash_ref("src/main.rs #a1b2").unwrap();
    assert_eq!(parsed.filename, "src/main.rs");
    assert_eq!(parsed.small_hash_code, "A1B2");
    assert_eq!(label_hash_ref("main.rs", "a1b2"), "main.rs #A1B2");
    assert!(parse_hash_ref("src/main.rs#a1b2").is_none());
    assert!(parse_hash_ref("src/main.rs #XYZ1").is_none());
}

#[test]
fn computes_opencode_file_key_ref_parts() {
    let (file_key_ref, filename, small, label) =
        make_entry_parts(Some("box"), "file-key", "/remote/path/App.ts", "sha256:abc");
    assert_eq!(file_key_ref, "box:file-key");
    assert_eq!(filename, "App.ts");
    assert_eq!(small.len(), 4);
    assert_eq!(label, format!("App.ts #{}", small));
}

#[test]
fn labels_hash_refs_with_filename_only() {
    let (_file_key_ref, filename, small, label) = make_entry_parts(
        None,
        "file-key",
        ".opencode/remote_executor_infos.json",
        "sha256:abc",
    );
    assert_eq!(filename, "remote_executor_infos.json");
    assert_eq!(label, format!("remote_executor_infos.json #{}", small));
}

#[test]
fn small_hashes_are_the_head_of_a_digest() {
    assert_eq!(short_hash(&vec![0xa9, 0x99, 0x3e]), "A999");
    assert_eq!(small_hash_code("", ""), "05A7");
    assert_eq!(small_hash_code("a", "b").len(), 4);
    assert_ne!(small_hash_code("a", "b"), small_hash_code("b", "a"));
}

#[test]
fn names_and_keys_are_taken_apart() {
    assert_eq!(basename("/a/b.txt"), "b.txt");
    assert_eq!(basename("C:\\a\\b.txt"), "b.txt");
    assert_eq!(file_key_ref(None, "k"), "local:k");
    assert_eq!(file_key_ref(Some("box"), "k"), "box:k");
}

#[test]
fn labels_read_back() {
    let label = label_hash_ref("my file #1.txt", "00ff");
    let parsed = parse_hash_ref(&label).unwrap();
    assert_eq!(parsed.filename, "my file #1.txt");
    assert_eq!(parsed.small_hash_code, "00FF");
    assert_eq!(label_hash_ref("a", "ß"), "a #SS");
}

#[test]
fn results_without_a_file_report_none() {
    let result = RecToolResult {
        metadata: json(r#"{ "file": { "fileKey": "k", "canonicalPath": "/tmp", "kind": "dir" } }"#),
        output: json("{}"),
    };
    assert!(extract_file_ref_update(&result, "local").is_none());
    let injected = inject_file_ref(&json("{}"), None);
    assert_eq!(injected.executor, "local");
}
