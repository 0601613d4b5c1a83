use kilo_executor::kilo::KiloCode;

#[test]
fn assistant_message_shows_its_content() {
    let line = r#"{"type":"assistant_message","content":"Hello there"}"#;
    assert_eq!(KiloCode::format_kilo_message(line), "Hello there");
}

#[test]
fn plain_message_shows_its_content() {
    let line = r#"{"content":"Working on it","type":"message"}"#;
    assert_eq!(KiloCode::format_kilo_message(line), "Working on it");
}

#[test]
fn tool_call_shows_tool_name() {
    let line = r#"{"type":"tool_call","name":"read_file","args":{"path":"a.rs"}}"#;
    assert_eq!(KiloCode::format_kilo_message(line), "[Tool: read_file]");
}

#[test]
fn tool_result_shows_tool_name() {
    let line = r#"{"type":"tool_result","name":"write_file"}"#;
    assert_eq!(KiloCode::format_kilo_message(line), "[Tool Result: write_file]");
}

#[test]
fn error_shows_message() {
    let line = r#"{"type":"error","message":"rate limited"}"#;
    assert_eq!(KiloCode::format_kilo_message(line), "[Error] rate limited");
}

#[test]
fn message_without_content_falls_back_to_pretty_json() {
    let line = r#"{"type":"message","text":"x"}"#;
    let expected = serde_json::to_string_pretty(
        &serde_json::from_str::<serde_json::Value>(line).unwrap(),
    )
    .unwrap();
    assert_eq!(KiloCode::format_kilo_message(line), expected);
    assert_eq!(
        KiloCode::format_kilo_message(line),
        "{\n  \"text\": \"x\",\n  \"type\": \"message\"\n}"
    );
}

#[test]
fn unknown_type_falls_back_to_pretty_json() {
    let line = r#"{"type":"progress","percent":50}"#;
    assert_eq!(
        KiloCode::format_kilo_message(line),
        "{\n  \"percent\": 50,\n  \"type\": \"progress\"\n}"
    );
}

#[test]
fn non_string_type_falls_back_to_pretty_json() {
    let line = r#"{"type":3,"content":"c"}"#;
    assert_eq!(
        KiloCode::format_kilo_message(line),
        "{\n  \"content\": \"c\",\n  \"type\": 3\n}"
    );
}

#[test]
fn non_string_content_falls_back_to_pretty_json() {
    let line = r#"{"type":"message","content":{"a":1}}"#;
    assert_eq!(
        KiloCode::format_kilo_message(line),
        "{\n  \"content\": {\n    \"a\": 1\n  },\n  \"type\": \"message\"\n}"
    );
}

#[test]
fn array_message_falls_back_to_pretty_json() {
    assert_eq!(KiloCode::format_kilo_message("[1,2]"), "[\n  1,\n  2\n]");
}

#[test]
fn text_that_is_not_json_shows_placeholder() {
    assert_eq!(KiloCode::format_kilo_message("not json"), "[Unknown Kilo message]");
}

#[test]
fn output_line_skips_blank_lines() {
    assert_eq!(KiloCode::output_line("   \n"), None);
    assert_eq!(KiloCode::output_line(""), None);
    assert_eq!(KiloCode::output_line("\t\u{3000}\r\n"), None);
}

#[test]
fn output_line_formats_json_lines() {
    assert_eq!(
        KiloCode::output_line("  {\"type\":\"tool_call\",\"name\":\"ls\"}  \n"),
        Some("[Tool: ls]".to_string())
    );
}

#[test]
fn output_line_forwards_other_lines_trimmed() {
    assert_eq!(
        KiloCode::output_line("  Starting Kilo...\n"),
        Some("Starting Kilo...".to_string())
    );
}

#[test]
fn summarize_members_reads_fields_by_name() {
    let members = Some(vec![
        ("name".to_string(), Some("grep".to_string())),
        ("type".to_string(), Some("tool_result".to_string())),
    ]);
    assert_eq!(
        KiloCode::summarize_members(&members),
        Some("[Tool Result: grep]".to_string())
    );
    let error_without_message = Some(vec![("type".to_string(), Some("error".to_string()))]);
    assert_eq!(KiloCode::summarize_members(&error_without_message), None);
    assert_eq!(KiloCode::summarize_members(&None), None);
}

#[test]
fn fallback_text_uses_placeholder_without_json() {
    assert_eq!(KiloCode::fallback_text(None), "[Unknown Kilo message]");
    assert_eq!(KiloCode::fallback_text(Some("{}".to_string())), "{}");
}

#[test]
fn json_scalars_fall_back_to_pretty_json() {
    assert_eq!(KiloCode::format_kilo_message("42"), "42");
    assert_eq!(KiloCode::format_kilo_message("\"x\""), "\"x\"");
    assert_eq!(KiloCode::format_kilo_message("null"), "null");
}
