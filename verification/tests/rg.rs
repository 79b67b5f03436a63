use remote_executor_for_session::args::CallScope;
use remote_executor_for_session::json::{Json, JsonObject};
use remote_executor_for_session::rg::{
    expand_basename_globs, extract_rg_mode, extract_rg_paths, format_rg_output,
    looks_like_absolute_path, merge_rg_results, needs_recursive_basename_glob,
    normalize_rg_files_result, prepare_rg_arguments, rg_result_match_count, rg_totals_fit,
    split_rg_path_list, RgMode, RgPathList,
};

fn from_value(value: &serde_json::Value) -> Json {
    match value {
        serde_json::Value::Null => Json::Null,
        serde_json::Value::Bool(b) => Json::Bool(*b),
        serde_json::Value::Number(n) => match (n.as_i64(), n.as_u64()) {
            (Some(i), _) => Json::Int(i as i128),
            (None, Some(u)) => Json::Int(u as i128),
            (None, None) => Json::Float(n.to_string()),
        },
        serde_json::Value::String(s) => Json::str(s),
        serde_json::Value::Array(a) => Json::array(a.iter().map(from_value).collect()),
        serde_json::Value::Object(o) => {
            let mut object = JsonObject::new();
            for (k, v) in o {
                object.insert(k, from_value(v));
            }
            Json::Object(object)
        }
    }
}

fn json(text: &str) -> Json {
    from_value(&serde_json::from_str(text).unwrap())
}

fn scope() -> CallScope {
    CallScope { session_id: "ses".to_string(), workdir: "/workspace/current".to_string() }
}

#[test]
fn rg_content_basename_globs_are_recursive() {
    let args = json(r#"{ "globs": ["small.txt", "*.rs", "src/*.ts", "**/*.md"] }"#);
    let args = expand_basename_globs(args);
    assert_eq!(
        args.get("globs"),
        Some(&json(
            r#"["small.txt", "*.rs", "src/*.ts", "**/*.md", "**/small.txt", "**/*.rs"]"#
        ))
    );
}

#[test]
fn rg_extracts_paths_array() {
    let args = json(r#"{ "paths": ["one", "two"], "path": "ignored" }"#);
    let (paths, args) = extract_rg_paths(args);
    assert_eq!(paths, RgPathList::Multi(vec!["one".to_string(), "two".to_string()]));
    assert!(args.get("path").is_none());
}

#[test]
fn rg_splits_whitespace_separated_absolute_path() {
    let (paths, _) = extract_rg_paths(json(r#"{ "path": "/one /two" }"#));
    assert_eq!(paths, RgPathList::Multi(vec!["/one".to_string(), "/two".to_string()]));
}

#[test]
fn rg_keeps_single_path_with_spaces() {
    let (paths, args) = extract_rg_paths(json(r#"{ "path": "dir with spaces" }"#));
    assert_eq!(paths, RgPathList::Single);
    assert_eq!(args.text_of("path"), Some("dir with spaces"));
}

#[test]
fn local_rg_content_defaults_to_session_workdir_root() {
    let args = json(r#"{ "pattern": "needle" }"#);
    let args = prepare_rg_arguments(&scope(), RgMode::Content, args);
    assert_eq!(args.text_of("root"), Some("/workspace/current"));
}

#[test]
fn remote_rg_content_does_not_inject_local_workdir_root() {
    let args = json(r#"{ "pattern": "needle", "executor": "exec_1" }"#);
    let args = prepare_rg_arguments(&scope(), RgMode::Content, args);
    assert!(args.get("root").is_none());
}

#[test]
fn rg_modes_are_read_or_refused() {
    assert_eq!(extract_rg_mode(&json("{}")).ok(), Some(RgMode::Content));
    assert_eq!(extract_rg_mode(&json(r#"{"mode":"files"}"#)).ok(), Some(RgMode::Files));
    match extract_rg_mode(&json(r#"{"mode":"odd"}"#)) {
        Err(e) => assert_eq!(e.code, -32602),
        Ok(_) => panic!("expected an error"),
    }
}

#[test]
fn rg_paths_are_told_apart() {
    assert!(looks_like_absolute_path("/a"));
    assert!(looks_like_absolute_path("C:\\a"));
    assert!(!looks_like_absolute_path("a/b"));
    assert!(needs_recursive_basename_glob("*.rs"));
    assert!(!needs_recursive_basename_glob("src/*.rs"));
    assert_eq!(split_rg_path_list("/a /b", false), vec!["/a", "/b"]);
}

#[test]
fn rg_results_are_merged() {
    let results = vec![
        json(r#"{"metadata":{"matches":2,"filesWalked":3,"code":0},"output":{"text":"a"}}"#),
        json(r#"{"metadata":{"matches":1,"filesWalked":4,"code":0},"output":{"text":"b"}}"#),
    ];
    assert!(rg_totals_fit(&results));
    assert_eq!(rg_result_match_count(&results[0]), 2);
    let merged = merge_rg_results(&results);
    assert_eq!(merged.get2("metadata", "matches"), Some(&Json::Int(3)));
    assert_eq!(merged.get2("metadata", "filesWalked"), Some(&Json::Int(7)));
    let huge = json(r#"{"metadata":{"matches":18446744073709551615}}"#);
    assert!(!rg_totals_fit(&vec![huge.clone(), huge]));
}

#[test]
fn rg_text_ends_with_a_footer() {
    let result = json(
        r#"{"metadata":{"matches":1,"filesWalked":1,"code":0},"output":{"text":"demo.rs:1:1:fn main() {}"}}"#,
    );
    let text = format_rg_output(&result);
    assert!(text.contains("demo.rs:1:1:fn main() {}"));
    assert!(text.contains("matches:1\nfilesWalked:1\ncode:0"));
    let files = normalize_rg_files_result(json(
        r#"{"metadata":{"count":1,"filesWalked":2},"output":{"text":"/x/demo.rs"}}"#,
    ));
    assert!(format_rg_output(&files).contains("/x/demo.rs"));
}
