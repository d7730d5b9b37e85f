use antex::diff_rows::{change_rows, hunk_ranges_fit, hunk_rows, max_line_number, DiffLineKind, DiffRow, PatchHunk};
use antex::items::FileChange;

fn line(number: usize, kind: DiffLineKind, text: &str) -> DiffRow {
    DiffRow::Line { number, kind, text: text.to_string() }
}

fn update(diff: &str) -> FileChange {
    FileChange::Update { unified_diff: diff.to_string(), move_path: None }
}

#[test]
fn an_added_file_is_all_insertions_numbered_from_one() {
    let rows = change_rows(&FileChange::Add { content: "a\nb\n".to_string() }).unwrap();
    assert_eq!(rows, vec![line(1, DiffLineKind::Insert, "a"), line(2, DiffLineKind::Insert, "b")]);
    assert_eq!(max_line_number(&rows), 2);
}

#[test]
fn a_deleted_file_is_all_deletions() {
    let rows = change_rows(&FileChange::Delete { content: "x\r\ny".to_string() }).unwrap();
    assert_eq!(rows, vec![line(1, DiffLineKind::Delete, "x"), line(2, DiffLineKind::Delete, "y")]);
    assert_eq!(change_rows(&FileChange::Delete { content: String::new() }), Some(Vec::new()));
}

#[test]
fn an_update_shows_its_hunks_with_old_and_new_numbers() {
    let diff = "--- a/f\n+++ b/f\n@@ -1,3 +1,3 @@\n one\n-two\n+TWO\n three\n@@ -10,2 +10,3 @@\n ten\n+new\n eleven\n";
    let rows = change_rows(&update(diff)).unwrap();
    assert_eq!(
        rows,
        vec![
            line(1, DiffLineKind::Context, "one"),
            line(2, DiffLineKind::Delete, "two"),
            line(2, DiffLineKind::Insert, "TWO"),
            line(3, DiffLineKind::Context, "three"),
            DiffRow::HunkGap,
            line(10, DiffLineKind::Context, "ten"),
            line(11, DiffLineKind::Insert, "new"),
            line(12, DiffLineKind::Context, "eleven"),
        ]
    );
    assert_eq!(max_line_number(&rows), 12);
}

#[test]
fn an_update_that_does_not_parse_has_no_rows() {
    assert_eq!(change_rows(&update("@@ -1,2 +1,2 @@\n-a\n")), Some(Vec::new()));
}

#[test]
fn hunk_rows_count_each_side_separately() {
    let hunk = PatchHunk {
        old_start: 5,
        new_start: 7,
        lines: vec![
            (DiffLineKind::Delete, "a\n".to_string()),
            (DiffLineKind::Delete, "b\n\n".to_string()),
            (DiffLineKind::Insert, "c".to_string()),
            (DiffLineKind::Context, "d\n".to_string()),
        ],
    };
    assert_eq!(
        hunk_rows(&[hunk]),
        vec![
            line(5, DiffLineKind::Delete, "a"),
            line(6, DiffLineKind::Delete, "b"),
            line(7, DiffLineKind::Insert, "c"),
            line(8, DiffLineKind::Context, "d"),
        ]
    );
    assert_eq!(max_line_number(&[DiffRow::HunkGap]), 0);
}

#[test]
fn line_numbers_past_usize_are_refused() {
    assert_eq!(change_rows(&update("@@ -18446744073709551615,2 +1,2 @@\n a\n b\n")), None);
}

#[test]
fn a_hunk_ending_past_usize_before_another_is_refused_before_parsing() {
    let diff = "--- a\n+++ b\n@@ -18446744073709551615,1 +1,1 @@\n x\n@@ -1,1 +3,1 @@\n y\n";
    assert!(!hunk_ranges_fit(diff));
    assert_eq!(change_rows(&update(diff)), None);
    // Large numbers in the lines of a hunk do not matter.
    let body = "@@ -1,1 +1,1 @@\n-99999999999999999999999\n+1\n";
    assert!(hunk_ranges_fit(body));
    assert_eq!(
        change_rows(&update(body)),
        Some(vec![line(1, DiffLineKind::Delete, "99999999999999999999999"), line(1, DiffLineKind::Insert, "1")])
    );
}

#[test]
fn hunks_with_line_numbers_past_half_of_usize_are_drawn() {
    let diff = "@@ -9223372036854775808,1 +9223372036854775808,1 @@\n-a\n+b\n@@ -9223372036854775818,1 +9223372036854775818,1 @@\n-c\n+d\n";
    assert!(hunk_ranges_fit(diff));
    assert_eq!(
        change_rows(&update(diff)),
        Some(vec![
            line(9223372036854775808, DiffLineKind::Delete, "a"),
            line(9223372036854775808, DiffLineKind::Insert, "b"),
            DiffRow::HunkGap,
            line(9223372036854775818, DiffLineKind::Delete, "c"),
            line(9223372036854775818, DiffLineKind::Insert, "d"),
        ])
    );
}

#[test]
fn only_hunks_followed_by_another_must_end_within_usize() {
    assert!(hunk_ranges_fit("@@ -18446744073709551615,1 +1,1 @@\n x\n"));
    assert!(!hunk_ranges_fit("@@ -1,1 +18446744073709551615 @@\n x\n@@ -5,1 +5,1 @@\n y\n"));
    assert!(!hunk_ranges_fit("@@ -+18446744073709551615 +1 @@\n x\n@@ -5,1 +5,1 @@\n y\n"));
    // Numbers past usize make the header unreadable, so nothing overflows.
    assert!(hunk_ranges_fit("@@ -18446744073709551616,1 +1,1 @@\n x\n@@ -5,1 +5,1 @@\n y\n"));
}
