use antex::previews::{preview_from_lines, preview_lines, PreviewLine};
use antex::previews::preview_text;

#[test]
fn preview_collapses_white_space_of_the_first_characters() {
    let texts = vec!["  Fix the\n\tbuild ".to_string(), "please".to_string()];
    assert_eq!(preview_text(Some(&texts)), "Fix the build please");
}

#[test]
fn preview_reads_at_most_120_characters() {
    let texts = vec!["a".repeat(100), " ".to_string(), "b".repeat(100)];
    assert_eq!(preview_text(Some(&texts)), format!("{} {}", "a".repeat(100), "b".repeat(19)));
}

#[test]
fn sessions_without_text_get_the_note() {
    assert_eq!(preview_text(None), "No short preview available");
    assert_eq!(preview_text(Some(&[])), "No short preview available");
    assert_eq!(preview_text(Some(&["".to_string()])), "No short preview available");
    assert_eq!(preview_text(Some(&["   ".to_string()])), "");
}

fn record(session_id: u128, user: bool, texts: Option<&[&str]>) -> PreviewLine {
    PreviewLine::Record {
        schema_version: 1,
        session_id,
        user,
        user_texts: texts.map(|t| t.iter().map(|s| s.to_string()).collect()),
    }
}

#[test]
fn log_lines_are_split_on_newlines() {
    assert_eq!(preview_lines(b""), vec![Vec::<u8>::new()]);
    assert_eq!(preview_lines(b"a\nbc\n"), vec![b"a".to_vec(), b"bc".to_vec(), Vec::new()]);
    assert_eq!(preview_lines(b"\n\nx"), vec![Vec::new(), Vec::new(), b"x".to_vec()]);
}

#[test]
fn at_most_64_log_lines_are_read() {
    let log = "x\n".repeat(100);
    let lines = preview_lines(log.as_bytes());
    assert_eq!(lines.len(), 64);
    assert!(lines.iter().all(|line| line == b"x"));
    let log = "y\n".repeat(63);
    assert_eq!(preview_lines(log.as_bytes()).len(), 64);
}

#[test]
fn the_first_user_message_gives_the_preview() {
    let lines = vec![
        record(7, false, None),
        record(7, true, Some(&["  hello\n world "])),
        record(7, true, Some(&["later"])),
    ];
    assert_eq!(preview_from_lines(&lines, 7), "hello world");
}

#[test]
fn the_scan_stops_at_a_foreign_or_unreadable_line() {
    let note = "No short preview available";
    let lines = vec![record(8, false, None), record(7, true, Some(&["hi"]))];
    assert_eq!(preview_from_lines(&lines, 7), note);
    let lines = vec![PreviewLine::Unreadable, record(7, true, Some(&["hi"]))];
    assert_eq!(preview_from_lines(&lines, 7), note);
    let old = PreviewLine::Record { schema_version: 2, session_id: 7, user: true, user_texts: None };
    assert_eq!(preview_from_lines(&[old], 7), note);
    // A user record whose payload is not a user message ends the scan too.
    let lines = vec![record(7, true, None), record(7, true, Some(&["hi"]))];
    assert_eq!(preview_from_lines(&lines, 7), note);
    assert_eq!(preview_from_lines(&[], 7), note);
}

#[test]
fn a_user_message_after_64_lines_is_not_read() {
    let mut lines: Vec<PreviewLine> = (0..64).map(|_| record(7, false, None)).collect();
    lines.push(record(7, true, Some(&["late"])));
    assert_eq!(preview_from_lines(&lines, 7), "No short preview available");
    lines.remove(0);
    assert_eq!(preview_from_lines(&lines, 7), "late");
}

use antex::previews::{preview_count, preview_file_ok};

#[test]
fn at_most_256_sessions_and_the_limit_are_previewed() {
    assert_eq!(preview_count(10, 3), 3);
    assert_eq!(preview_count(2, 3), 2);
    assert_eq!(preview_count(1000, 5000), 256);
    assert_eq!(preview_count(0, 5), 0);
}

#[test]
fn only_private_regular_logs_of_the_user_are_previewed() {
    assert!(preview_file_ok(true, 0o100600, 1000, 1000));
    assert!(!preview_file_ok(true, 0o100640, 1000, 1000));
    assert!(!preview_file_ok(true, 0o100600, 0, 1000));
    assert!(!preview_file_ok(false, 0o040700, 1000, 1000));
}
