use antex::table_layout::{compute_column_widths, TableColumnKind, TableColumnMetrics};
use antex::table_metrics::{collect_table_column_metrics, normalize_row, TableCellText};

fn cell(plain: &str, width: usize) -> TableCellText {
    TableCellText { plain: plain.to_string(), width }
}

fn metrics(max_width: usize, header: usize, body: usize, kind: TableColumnKind) -> TableColumnMetrics {
    TableColumnMetrics { max_width, header_token_width: header, body_token_width: body, kind }
}

#[test]
fn short_values_make_a_compact_column() {
    let header = [cell("Name", 4)];
    let rows = vec![vec![cell("a", 1)], vec![cell("bb", 2)]];
    assert_eq!(
        collect_table_column_metrics(&header, &rows, 1),
        vec![metrics(4, 4, 2, TableColumnKind::Compact)]
    );
}

#[test]
fn four_words_per_cell_make_a_narrative_column() {
    let header = [cell("Notes", 5)];
    let rows = vec![
        vec![cell("one two three four", 18)],
        vec![cell("five six seven eight", 20)],
    ];
    assert_eq!(
        collect_table_column_metrics(&header, &rows, 1),
        vec![metrics(20, 5, 5, TableColumnKind::Narrative)]
    );
    // Seven words over two cells average under four.
    let rows = vec![vec![cell("one two three", 13)], vec![cell("four five six seven", 19)]];
    assert_eq!(collect_table_column_metrics(&header, &rows, 1)[0].kind, TableColumnKind::Compact);
}

#[test]
fn wide_cells_make_a_narrative_column() {
    let header = [cell("Notes", 5)];
    // Three words of 28 columns in all.
    let rows = vec![vec![cell("aaaaaaaaaa bbbbbbbbbb cccccc", 28)]];
    assert_eq!(collect_table_column_metrics(&header, &rows, 1)[0].kind, TableColumnKind::Narrative);
    let rows = vec![vec![cell("aaaaaaaaaa bbbbbbbbbb ccccc", 27)]];
    assert_eq!(collect_table_column_metrics(&header, &rows, 1)[0].kind, TableColumnKind::Compact);
}

#[test]
fn long_tokens_make_a_token_heavy_column() {
    let header = [cell("Path", 4)];
    let rows = vec![
        vec![cell("/usr/local/share/some/file.txt", 30)],
        vec![cell("/usr/local/share/other/file.txt", 31)],
    ];
    assert_eq!(
        collect_table_column_metrics(&header, &rows, 1),
        vec![metrics(31, 4, 31, TableColumnKind::TokenHeavy)]
    );
    // One long token among six other words is not enough.
    let rows = vec![vec![cell("averyveryverylongtoken_abcdef plus three more words here", 56)]];
    assert_eq!(collect_table_column_metrics(&header, &rows, 1)[0].kind, TableColumnKind::Narrative);
}

#[test]
fn without_body_text_the_header_decides() {
    let header = [cell("A long header with five words", 29), cell("Id", 2)];
    let rows = vec![vec![cell("", 0), cell("  ", 2)]];
    assert_eq!(
        collect_table_column_metrics(&header, &rows, 2),
        vec![
            metrics(29, 6, 0, TableColumnKind::Narrative),
            metrics(2, 2, 0, TableColumnKind::Compact),
        ]
    );
}

#[test]
fn token_widths_count_terminal_columns() {
    // Each of these characters takes two columns.
    let header = [cell("漢字 テスト", 11)];
    let rows = vec![vec![cell("日本", 4)]];
    assert_eq!(
        collect_table_column_metrics(&header, &rows, 1),
        vec![metrics(11, 6, 4, TableColumnKind::Compact)]
    );
}

#[test]
fn only_the_requested_columns_are_measured() {
    let header = [cell("A", 1), cell("B", 1), cell("C", 1)];
    let rows = vec![vec![cell("x", 1), cell("y", 1), cell("z", 1)]];
    assert_eq!(collect_table_column_metrics(&header, &rows, 2).len(), 2);
    assert_eq!(collect_table_column_metrics(&header, &rows, 0), Vec::new());
}

#[test]
fn measured_columns_feed_the_width_allocation() {
    let header = [cell("Key", 3), cell("Value", 5)];
    let rows = vec![vec![cell("alpha", 5), cell("one two three four five", 23)]];
    let measured = collect_table_column_metrics(&header, &rows, 2);
    assert_eq!(compute_column_widths(&measured, None), Some(vec![5, 23]));
}

#[test]
fn rows_are_cut_or_filled_to_the_column_count() {
    let mut row = vec![cell("a", 1), cell("b", 1), cell("c", 1)];
    normalize_row(&mut row, 2);
    assert_eq!(row.iter().map(|c| c.plain.as_str()).collect::<Vec<_>>(), vec!["a", "b"]);
    normalize_row(&mut row, 4);
    assert_eq!(row.iter().map(|c| (c.plain.as_str(), c.width)).collect::<Vec<_>>(), vec![("a", 1), ("b", 1), ("", 0), ("", 0)]);
    // Short rows measure like empty cells once filled.
    let header = [cell("H", 1), cell("I", 1)];
    let mut short = vec![cell("x", 1)];
    normalize_row(&mut short, 2);
    assert_eq!(collect_table_column_metrics(&header, &[short], 2)[1].max_width, 1);
}

use antex::table_metrics::{split_table_rows, table_rendering, TableRendering};

fn text_cell(text: &str) -> TableCellText {
    TableCellText { plain: text.to_string(), width: text.len() }
}

#[test]
fn spillover_rows_leave_multi_column_tables_and_rows_are_squared() {
    let rows = vec![
        vec![text_cell("a"), text_cell("b"), text_cell("extra")],
        vec![text_cell("after the table")],
        vec![text_cell("c")],
    ];
    let split = split_table_rows(None, rows, &[false, true, false], 2);
    assert_eq!(split.header.len(), 2);
    assert!(split.header.iter().all(|c| c.plain.is_empty() && c.width == 0));
    assert_eq!(split.body.len(), 2);
    assert_eq!(split.body[0].iter().map(|c| c.plain.as_str()).collect::<Vec<_>>(), vec!["a", "b"]);
    assert_eq!(split.body[1].iter().map(|c| c.plain.as_str()).collect::<Vec<_>>(), vec!["c", ""]);
    assert_eq!(split.spillover.len(), 1);
    assert_eq!(split.spillover[0].plain, "after the table");
}

#[test]
fn single_column_tables_keep_every_row() {
    let rows = vec![vec![text_cell("x")], vec![text_cell("y")]];
    let split = split_table_rows(Some(vec![text_cell("h")]), rows, &[true, true], 1);
    assert_eq!(split.body.len(), 2);
    assert!(split.spillover.is_empty());
    assert_eq!(split.header[0].plain, "h");
}

#[test]
fn tables_fall_back_to_records_or_raw_pipes() {
    assert_eq!(table_rendering(0, 3, true, false), (TableRendering::Nothing, true));
    assert_eq!(table_rendering(2, 3, false, false), (TableRendering::Records, true));
    assert_eq!(table_rendering(2, 0, false, false), (TableRendering::RawPipes, false));
    assert_eq!(table_rendering(2, 3, true, true), (TableRendering::Records, true));
    assert_eq!(table_rendering(2, 3, true, false), (TableRendering::Aligned, true));
}
