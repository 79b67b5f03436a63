use remote_executor_for_session::json::{Json, JsonObject};
use remote_executor_for_session::output::{
    append_footer_lines, append_visible_line, ensure_blank_line, extract_output_text, merge_output,
    strip_hash_code_lines, strip_output, OutputParts,
};

fn from_value(value: &serde_json::Value) -> Json {
    match value {
        serde_json::Value::Null => Json::Null,
        serde_json::Value::Bool(b) => Json::Bool(*b),
        serde_json::Value::Number(n) => match (n.as_i64(), n.as_u64()) {
            (Some(i), _) => Json::Int(i as i128),
            (None, Some(u)) => Json::Int(u as i128),
            (None, None) => Json::Float(n.to_string()),
        },
        serde_json::Value::String(s) => Json::str(s),
        serde_json::Value::Array(a) => Json::array(a.iter().map(from_value).collect()),
        serde_json::Value::Object(o) => {
            let mut object = JsonObject::new();
            for (k, v) in o {
                object.insert(k, from_value(v));
            }
            Json::Object(object)
        }
    }
}

fn json(text: &str) -> Json {
    from_value(&serde_json::from_str(text).unwrap())
}

#[test]
fn merges_three_output_fields_with_newlines() {
    let output = json(r#"{ "message": "m", "text": "t", "info": "i" }"#);
    assert_eq!(merge_output(&output), "m\nt\ni");
}

#[test]
fn preserves_legacy_string_output() {
    assert_eq!(merge_output(&json(r#""hello""#)), "hello");
}

#[test]
fn empty_fields_leave_no_line() {
    assert_eq!(merge_output(&json(r#"{ "text": "t" }"#)), "t");
    assert_eq!(merge_output(&json("{}")), "");
    let parts = OutputParts::default();
    assert_eq!(parts.message, "");
    assert!(OutputParts::from_json(&json(r#"{ "text": 1 }"#)).is_none());
}

#[test]
fn texts_are_taken_from_results() {
    let result = json(r#"{ "output": { "text": "t", "info": "i" }, "metadata": {} }"#);
    assert_eq!(extract_output_text(&result), "t\ni");
    assert_eq!(strip_output(result), json(r#"{ "metadata": {} }"#));
    assert_eq!(strip_hash_code_lines("a\nhashCode: x\nb"), "a\nb");
}

#[test]
fn footers_follow_a_line_break() {
    assert_eq!(ensure_blank_line("a".to_string()), "a\n\n");
    assert_eq!(
        append_footer_lines("a".to_string(), &vec!["x".to_string(), "y".to_string()]),
        "a\n\nx\ny"
    );
    assert_eq!(append_footer_lines("a".to_string(), &vec![]), "a");
    assert_eq!(ensure_blank_line("a\n".to_string()), "a\n\n");
    assert_eq!(ensure_blank_line("a\r\n\r\n".to_string()), "a\r\n\r\n");
    assert_eq!(append_visible_line("a".to_string(), "b"), "a\nb");
    assert_eq!(append_visible_line(" b \nc".to_string(), "b"), " b \nc");
}
