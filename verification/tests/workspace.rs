use remote_executor_for_session::args::{
    extract_exbash_scope, extract_executor, extract_executor_from_value, read_requested_executor,
};
use remote_executor_for_session::json::{Json, JsonObject};
use remote_executor_for_session::skill::{
    check_regex, format_skill_list, parse_skill_info, plain_read_text, select_skills, skill_dir,
    skill_files_from_glob, skill_path_is_file, skill_target, strip_frontmatter_quotes, SkillInfo,
};
use remote_executor_for_session::workspace::{
    executor_list_output_text, find_executor, normalize_workspace_executor_url,
    upsert_workspace_executor, workspace_executor_config_from_value,
    workspace_executor_config_to_value, workspace_executor_from_arguments,
    workspace_executor_result,
};

fn from_value(value: &serde_json::Value) -> Json {
    match value {
        serde_json::Value::Null => Json::Null,
        serde_json::Value::Bool(b) => Json::Bool(*b),
        serde_json::Value::Number(n) => match (n.as_i64(), n.as_u64()) {
            (Some(i), _) => Json::Int(i as i128),
            (None, Some(u)) => Json::Int(u as i128),
            (None, None) => Json::Float(n.to_string()),
        },
        serde_json::Value::String(s) => Json::str(s),
        serde_json::Value::Array(a) => Json::array(a.iter().map(from_value).collect()),
        serde_json::Value::Object(o) => {
            let mut object = JsonObject::new();
            for (k, v) in o {
                object.insert(k, from_value(v));
            }
            Json::Object(object)
        }
    }
}

fn json(text: &str) -> Json {
    from_value(&serde_json::from_str(text).unwrap())
}

#[test]
fn executor_configurations_are_cleaned_and_read_back() {
    let mut config = workspace_executor_config_from_value(&json(
        r#"{"executors":[{"id":"local","url":"ws://l"},{"id":"a","url":"ws://a"},{"id":"","url":"x"},{"id":"a","url":"ws://b"}]}"#,
    ));
    let ids: Vec<&str> = config.executors.iter().map(|e| e.id.as_str()).collect();
    assert!(ids.contains(&"a"));
    assert!(!ids.contains(&"local"));
    let entry = workspace_executor_from_arguments(&json(
        r#"{"id":"box","url":"box:9","labels":{"os":"linux"}}"#,
    ))
    .unwrap_or_else(|e| panic!("{}", e.message));
    assert_eq!(entry.id, "box");
    upsert_workspace_executor(&mut config, entry);
    assert!(find_executor(&config, "box").is_some());
    assert!(find_executor(&config, "moon").is_none());
    let value = workspace_executor_config_to_value(&config);
    let back = workspace_executor_config_from_value(&value);
    assert_eq!(workspace_executor_config_to_value(&back), value);
    let result = workspace_executor_result(&config, Json::Null);
    assert!(executor_list_output_text(&result).is_some());
}

#[test]
fn executor_arguments_are_checked() {
    for arguments in [r#"{}"#, r#"{"id":"box"}"#, r#"{"url":"ws://x"}"#, r#"{"id":"local","url":"ws://x"}"#] {
        match workspace_executor_from_arguments(&json(arguments)) {
            Err(e) => assert_eq!(e.code, -32602),
            Ok(entry) => panic!("{}", entry.id),
        }
    }
    assert_eq!(normalize_workspace_executor_url("ws://h"), "ws://h");
    assert_eq!(normalize_workspace_executor_url("wss://h"), "wss://h");
}

#[test]
fn executors_are_taken_from_arguments() {
    let (executor, rest) = extract_executor(json(r#"{"executor":"box","x":1}"#));
    assert_eq!(executor, "box");
    assert_eq!(rest, json(r#"{"x":1}"#));
    assert_eq!(extract_executor_from_value(&json("{}")), "local");
    assert_eq!(
        read_requested_executor(&json(r#"{"targetExecutor":" box "}"#)),
        Some("box".to_string())
    );
    assert_eq!(extract_exbash_scope(&json("{}")).ok(), Some("local".to_string()));
    assert_eq!(
        extract_exbash_scope(&json(r#"{"scope":"workspace"}"#)).ok(),
        Some("workspace".to_string())
    );
    assert!(extract_exbash_scope(&json(r#"{"scope":"moon"}"#)).is_err());
}

fn skill(name: &str) -> SkillInfo {
    parse_skill_info(
        &format!("---\nname: \"{name}\"\ndescription: 'd'\n---\nBody"),
        &format!("/s/{name}/SKILL.md"),
    )
    .unwrap()
}

#[test]
fn skills_are_read_and_chosen() {
    let one = skill("alpha");
    assert_eq!(one.name, "alpha");
    assert_eq!(one.description, "d");
    assert_eq!(skill_dir(&one.location), "/s/alpha");
    assert!(parse_skill_info("no front matter", "/x").is_none());
    let chosen = select_skills(&vec![skill("beta"), skill("alpha"), skill("gamma")], "^(a|b)");
    let names: Vec<&str> = chosen.iter().map(|s| s.name.as_str()).collect();
    assert_eq!(names, vec!["alpha", "beta"]);
    assert!(format_skill_list(&chosen).contains("alpha"));
    assert!(check_regex("(").is_some());
    assert!(check_regex("a+").is_none());
    assert_eq!(strip_frontmatter_quotes(" 'x' "), "x");
    assert!(skill_path_is_file("/s/SKILL.md"));
    assert!(!skill_path_is_file("/s"));
    assert_eq!(skill_files_from_glob("/a/SKILL.md\n\n/b/SKILL.md").len(), 2);
    assert_eq!(plain_read_text("1: a\n2: b"), "a\nb");
    assert!(skill_target(&json("{}")).is_err());
}
