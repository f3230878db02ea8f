use intentc::ast::Span;
use intentc::diagnostic::{
    format_diagnostics, format_diagnostics_json, format_diagnostics_json_with_files,
    format_diagnostics_with_files, Diagnostic, FileMap,
};

fn span(start: usize, end: usize) -> Span {
    Span::new(start, end)
}

fn error(start: usize, end: usize, message: &str) -> Diagnostic {
    Diagnostic::new(span(start, end), message.to_string())
}

fn two_files() -> FileMap {
    let mut map = FileMap::new();
    map.push("a.intent".to_string(), "one\ntwo\n".to_string(), 0);
    let start = map.end_offset() + 1;
    map.push("b.intent".to_string(), "three\nfour\n".to_string(), start);
    map
}

#[test]
fn a_diagnostic_starts_without_notes() {
    let d = error(1, 2, "wrong");
    assert_eq!(d.span, span(1, 2));
    assert_eq!(d.message, "wrong");
    assert!(d.related.is_empty());
    let d = d.with_related(span(3, 4), "here".to_string()).with_related(span(5, 6), "and there".to_string());
    assert_eq!(d.related, vec![(span(3, 4), "here".to_string()), (span(5, 6), "and there".to_string())]);
}

#[test]
fn text_shows_the_line_and_underlines_the_place() {
    let text = format_diagnostics("f.intent", "let x = y;\nlet z = 1;\n", &[error(15, 16, "unused")]);
    assert_eq!(text, "f.intent:2:5: error: unused\nlet z = 1;\n    ^\n");
}

#[test]
fn text_underlines_at_least_one_place_and_stays_in_its_line() {
    let source = "abc\ndef\n";
    assert_eq!(
        format_diagnostics("f", source, &[error(1, 1, "empty")]),
        "f:1:2: error: empty\nabc\n ^\n"
    );
    assert_eq!(
        format_diagnostics("f", source, &[error(1, 7, "long")]),
        "f:1:2: error: long\nabc\n ^^\n"
    );
    assert_eq!(
        format_diagnostics("f", source, &[error(100, 200, "behind")]),
        "f:3:1: error: behind\n\n^\n"
    );
    assert_eq!(
        format_diagnostics("f", "é = x\n", &[error(5, 1, "backwards")]),
        "f:1:5: error: backwards\né = x\n    ^\n"
    );
}

#[test]
fn columns_count_characters() {
    let text = format_diagnostics("f", "é = x\n", &[error(5, 6, "unknown")]);
    assert_eq!(text, "f:1:5: error: unknown\né = x\n    ^\n");
}

#[test]
fn notes_follow_their_diagnostic() {
    let d = error(4, 5, "moved").with_related(span(0, 1), "moved here".to_string());
    let text = format_diagnostics("f", "a = b;\n", &[d, error(0, 1, "second")]);
    assert_eq!(
        text,
        "f:1:5: error: moved\na = b;\n    ^\nf:1:1: note: moved here\na = b;\n^\nf:1:1: error: second\na = b;\n^\n"
    );
    assert_eq!(format_diagnostics("f", "a = b;\n", &[]), "");
}

#[test]
fn json_lists_the_diagnostics() {
    assert_eq!(format_diagnostics_json("f", "", &[]), "{\"diagnostics\":[]}\n");
    assert_eq!(
        format_diagnostics_json("f.intent", "ab\ncd\n", &[error(3, 5, "no")]),
        "{\"diagnostics\":[{\"level\":\"error\",\"message\":\"no\",\"primary\":{\"file\":\"f.intent\",\"line\":2,\"col\":1,\"end_line\":2,\"end_col\":3}}]}\n"
    );
    let d = error(0, 1, "a").with_related(span(1, 2), "b".to_string());
    assert_eq!(
        format_diagnostics_json("f", "ab", &[d, error(1, 2, "c")]),
        "{\"diagnostics\":[{\"level\":\"error\",\"message\":\"a\",\"primary\":{\"file\":\"f\",\"line\":1,\"col\":1,\"end_line\":1,\"end_col\":2},\"related\":[{\"message\":\"b\",\"span\":{\"file\":\"f\",\"line\":1,\"col\":2,\"end_line\":1,\"end_col\":3}}]},{\"level\":\"error\",\"message\":\"c\",\"primary\":{\"file\":\"f\",\"line\":1,\"col\":2,\"end_line\":1,\"end_col\":3}}]}\n"
    );
}

#[test]
fn json_escapes_text() {
    let json = format_diagnostics_json("f", "", &[error(0, 0, "q\" b\\ n\n r\r t\t u\u{1} \u{1f} é")]);
    assert!(json.contains("\"message\":\"q\\\" b\\\\ n\\n r\\r t\\t u\\u0001 \\u001f é\""), "{json}");
    assert_eq!(json.matches('\n').count(), 1);
    assert!(json.ends_with("]}\n"));
}

#[test]
fn a_map_finds_the_file_of_an_offset() {
    let map = two_files();
    assert!(!map.is_empty());
    assert!(FileMap::new().is_empty());
    assert_eq!(FileMap::new().end_offset(), 0);
    assert_eq!(map.end_offset(), 20);
    let (entry, local) = map.lookup(4).unwrap();
    assert_eq!((entry.path.as_str(), local), ("a.intent", 4));
    let (entry, local) = map.lookup(15).unwrap();
    assert_eq!((entry.path.as_str(), local), ("b.intent", 6));
    assert!(map.lookup(21).is_none());
    assert!(FileMap::new().lookup(0).is_none());
}

#[test]
fn the_last_file_wins_where_two_meet() {
    let mut map = FileMap::new();
    map.push("a".to_string(), "xy".to_string(), 0);
    map.push("b".to_string(), "z".to_string(), 2);
    assert_eq!(map.lookup(2).unwrap().0.path, "b");
    assert_eq!(map.lookup(1).unwrap().0.path, "a");
}

#[test]
fn text_with_files_names_the_file() {
    let text = format_diagnostics_with_files(&two_files(), &[error(15, 19, "bad"), error(99, 99, "lost")]);
    assert_eq!(text, "b.intent:2:1: error: bad\nfour\n^^^^\n?:?:?: error: lost\n");
}

#[test]
fn json_with_files_names_the_file() {
    let json = format_diagnostics_json_with_files(&two_files(), &[error(4, 7, "bad"), error(99, 99, "lost")]);
    assert_eq!(
        json,
        "{\"diagnostics\":[{\"level\":\"error\",\"message\":\"bad\",\"primary\":{\"file\":\"a.intent\",\"line\":2,\"col\":1,\"end_line\":2,\"end_col\":4}},{\"level\":\"error\",\"message\":\"lost\",\"primary\":{\"file\":null}}]}\n"
    );
}

#[test]
fn merged_maps_keep_their_diagnostics() {
    let mut map = two_files();
    let other = {
        let mut m = FileMap::new();
        m.push("c.intent".to_string(), "five\nsix\n".to_string(), 0);
        m
    };
    let before = format_diagnostics_with_files(&other, &[error(5, 8, "bad")]);
    let shift = map.extend_with(&other);
    assert_eq!(shift, 21);
    assert_eq!(
        format_diagnostics_with_files(&map, &[error(5 + shift, 8 + shift, "bad")]),
        before
    );
    assert_eq!(
        format_diagnostics_json_with_files(&map, &[error(5 + shift, 8 + shift, "bad")]),
        format_diagnostics_json_with_files(&other, &[error(5, 8, "bad")])
    );
    assert_eq!(map.lookup(4).unwrap().0.path, "a.intent");
    let mut empty = FileMap::new();
    assert_eq!(empty.extend_with(&other), 0);
    assert_eq!(empty.lookup(5).unwrap().0.path, "c.intent");
}
