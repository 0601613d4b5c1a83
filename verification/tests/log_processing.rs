use kilo_executor::logs::{EntryIndexProvider, KiloLogProcessor, LogMsg, NormalizedEntryType};

#[test]
fn stdout_chunks_are_buffered_until_line_end() {
    let mut p = KiloLogProcessor::new();
    assert!(p.push_message(&LogMsg::Stdout("{\"type\":".to_string())).is_empty());
    let lines = p.push_message(&LogMsg::Stdout("\"message\"}\n{\"b\"".to_string()));
    assert_eq!(lines, vec!["{\"type\":\"message\"}".to_string()]);
}

#[test]
fn each_complete_line_is_given_once() {
    let mut p = KiloLogProcessor::new();
    let first = p.push_message(&LogMsg::Stdout("one\n".to_string()));
    let second = p.push_message(&LogMsg::Stdout("two\n".to_string()));
    assert_eq!(first, vec!["one".to_string()]);
    assert_eq!(second, vec!["two".to_string()]);
}

#[test]
fn lines_split_across_chunks_are_given_once_whole() {
    let mut p = KiloLogProcessor::new();
    let mut given = Vec::new();
    for chunk in ["{\"a\"", ":1}\n{\"b", "\":2}\n\n  x  \n", "tail"] {
        given.extend(p.push_message(&LogMsg::Stdout(chunk.to_string())));
    }
    assert_eq!(given, vec!["{\"a\":1}".to_string(), "{\"b\":2}".to_string(), "x".to_string()]);
    assert_eq!(p.push_message(&LogMsg::Stdout("\n".to_string())), vec!["tail".to_string()]);
}

#[test]
fn two_json_lines_become_two_entries() {
    let mut p = KiloLogProcessor::new();
    let mut provider = EntryIndexProvider::start_from(0);
    let mut entries = Vec::new();
    for chunk in ["{\"a\":1}\n", "{\"b\":2}\n"] {
        for line in p.push_message(&LogMsg::Stdout(chunk.to_string())) {
            entries.extend(KiloLogProcessor::normalize_line(&line, &mut provider));
        }
    }
    assert_eq!(entries.len(), 2);
    assert_eq!(entries[0].index, 0);
    assert_eq!(entries[0].entry.content, "{\"a\":1}");
    assert_eq!(entries[1].index, 1);
    assert_eq!(entries[1].entry.content, "{\"b\":2}");
}

#[test]
fn other_messages_are_ignored() {
    let mut p = KiloLogProcessor::new();
    p.push_message(&LogMsg::Stdout("a\n".to_string()));
    for msg in [
        LogMsg::Stderr("err\n".to_string()),
        LogMsg::SessionId("s".to_string()),
        LogMsg::Ready,
        LogMsg::Finished,
        LogMsg::JsonPatch(json_patch::Patch(vec![])),
    ] {
        assert!(p.push_message(&msg).is_empty());
    }
    assert!(p.push_message(&LogMsg::Stdout(String::new())).is_empty());
    assert_eq!(p.push_message(&LogMsg::Stdout("b\n".to_string())), vec!["b".to_string()]);
}

#[test]
fn blank_lines_are_not_read() {
    let mut p = KiloLogProcessor::new();
    assert!(p.push_message(&LogMsg::Stdout("  \n\t\n".to_string())).is_empty());
}

#[test]
fn json_line_becomes_system_message_with_compact_json() {
    let mut provider = EntryIndexProvider::start_from(7);
    let patches = KiloLogProcessor::normalize_line("{ \"type\" : \"message\", \"n\": [1, 2] }", &mut provider);
    assert_eq!(patches.len(), 1);
    assert_eq!(patches[0].index, 7);
    assert!(patches[0].entry.entry_type == NormalizedEntryType::SystemMessage);
    assert_eq!(patches[0].entry.timestamp, None);
    assert_eq!(patches[0].entry.content, "{\"n\":[1,2],\"type\":\"message\"}");
    assert_eq!(provider.next(), 8);
}

#[test]
fn non_json_line_uses_no_index() {
    let mut provider = EntryIndexProvider::start_from(3);
    assert!(KiloLogProcessor::normalize_line("plain text", &mut provider).is_empty());
    assert_eq!(provider.next(), 3);
}

#[test]
fn normalize_entries_of_invalid_text_says_unknown() {
    let mut provider = EntryIndexProvider::start_from(0);
    let patches = KiloLogProcessor::normalize_entries("not json", &mut provider);
    assert_eq!(patches[0].entry.content, "Unknown");
    assert_eq!(patches[0].index, 0);
}

#[test]
fn index_provider_counts_up_and_wraps() {
    let mut provider = EntryIndexProvider::start_from(usize::MAX);
    assert_eq!(provider.next(), usize::MAX);
    assert_eq!(provider.next(), 0);
    assert_eq!(provider.next(), 1);
}
