//! What the width allocation of a markdown table learns from its cells:
//! each column's natural width, its longest tokens and what kind of text
//! it holds.

use vstd::prelude::*;
use crate::outside::{display_width, str_columns};
use crate::table_layout::{max_of, sat_sub, TableColumnKind, TableColumnMetrics};
use crate::text::{split_words, str_chars, string_from_chars, words};

verus! {

/// What the column metrics read of a table cell.
#[derive(Clone, Debug)]
pub struct TableCellText {
    /// The text of the cell without styling.
    pub plain: String,
    /// The display width of the cell as rendered (its widest line).
    pub width: usize,
}

/// A token at least this wide counts as long.
pub const LONG_TOKEN_COLUMNS: usize = 20;

/// Cells with at least this many words on average read as prose.
pub const NARRATIVE_WORDS_PER_CELL: u128 = 4;

/// Cells at least this wide on average read as prose.
pub const NARRATIVE_CELL_COLUMNS: u128 = 28;

/// The width of the widest of `ws` (0 when there are none).
pub open spec fn longest_token(ws: Seq<Seq<char>>) -> int
    decreases ws.len(),
{
    if ws.len() == 0 {
        0
    } else {
        max_of(longest_token(ws.drop_last()), str_columns(ws.last()) as int)
    }
}

/// How many of `ws` are long tokens.
pub open spec fn long_tokens(ws: Seq<Seq<char>>) -> int
    decreases ws.len(),
{
    if ws.len() == 0 {
        0
    } else {
        long_tokens(ws.drop_last()) + if str_columns(ws.last()) >= LONG_TOKEN_COLUMNS {
            1int
        } else {
            0int
        }
    }
}

/// The words of a cell.
pub open spec fn cell_words(c: TableCellText) -> Seq<Seq<char>> {
    words(c.plain@)
}

/// The widest body cell of column `col`.
pub open spec fn body_max_width(rows: Seq<Vec<TableCellText>>, col: int) -> int
    decreases rows.len(),
{
    if rows.len() == 0 {
        0
    } else {
        max_of(body_max_width(rows.drop_last(), col), rows.last()@[col].width as int)
    }
}

/// The widest token of the body cells of column `col`.
pub open spec fn body_token_width(rows: Seq<Vec<TableCellText>>, col: int) -> int
    decreases rows.len(),
{
    if rows.len() == 0 {
        0
    } else {
        max_of(body_token_width(rows.drop_last(), col), longest_token(cell_words(rows.last()@[col])))
    }
}

/// The number of words in the body cells of column `col`.
pub open spec fn body_word_count(rows: Seq<Vec<TableCellText>>, col: int) -> int
    decreases rows.len(),
{
    if rows.len() == 0 {
        0
    } else {
        body_word_count(rows.drop_last(), col) + cell_words(rows.last()@[col]).len()
    }
}

/// The number of long tokens in the body cells of column `col`.
pub open spec fn body_long_tokens(rows: Seq<Vec<TableCellText>>, col: int) -> int
    decreases rows.len(),
{
    if rows.len() == 0 {
        0
    } else {
        body_long_tokens(rows.drop_last(), col) + long_tokens(cell_words(rows.last()@[col]))
    }
}

/// The number of body cells of column `col` that hold a word.
pub open spec fn body_text_cells(rows: Seq<Vec<TableCellText>>, col: int) -> int
    decreases rows.len(),
{
    if rows.len() == 0 {
        0
    } else {
        body_text_cells(rows.drop_last(), col) + if cell_words(rows.last()@[col]).len() > 0 {
            1int
        } else {
            0int
        }
    }
}

/// The total text width of the body cells of column `col` that hold a word.
pub open spec fn body_text_width(rows: Seq<Vec<TableCellText>>, col: int) -> int
    decreases rows.len(),
{
    if rows.len() == 0 {
        0
    } else {
        body_text_width(rows.drop_last(), col) + if cell_words(rows.last()@[col]).len() > 0 {
            str_columns(rows.last()@[col].plain@) as int
        } else {
            0int
        }
    }
}

/// What kind of text column `col` holds. Long tokens make up at least half
/// of its words: token-heavy. Otherwise its cells average at least four
/// words or 28 columns: narrative (with no body text, the header decides).
/// Otherwise compact. Averages are compared as exact fractions.
pub open spec fn column_kind(header: TableCellText, rows: Seq<Vec<TableCellText>>, col: int) -> TableColumnKind {
    let long = body_long_tokens(rows, col);
    let count = body_word_count(rows, col);
    let cells = body_text_cells(rows, col);
    let many_words = if cells == 0 {
        cell_words(header).len() >= NARRATIVE_WORDS_PER_CELL
    } else {
        count >= NARRATIVE_WORDS_PER_CELL * cells
    };
    let wide = if cells == 0 {
        str_columns(header.plain@) >= NARRATIVE_CELL_COLUMNS
    } else {
        body_text_width(rows, col) >= NARRATIVE_CELL_COLUMNS * cells
    };
    if long > 0 && long >= sat_sub(count, long) {
        TableColumnKind::TokenHeavy
    } else if many_words || wide {
        TableColumnKind::Narrative
    } else {
        TableColumnKind::Compact
    }
}

/// `m` describes column `col` of the table with this header and body.
pub open spec fn metrics_of(m: TableColumnMetrics, header: TableCellText, rows: Seq<Vec<TableCellText>>, col: int) -> bool {
    &&& m.max_width == max_of(header.width as int, body_max_width(rows, col))
    &&& m.header_token_width == longest_token(cell_words(header))
    &&& m.body_token_width == body_token_width(rows, col)
    &&& m.kind == column_kind(header, rows, col)
}

/// The widest token of `plain`, its number of words and its number of long
/// tokens.
fn token_tally(plain: &str) -> (r: (usize, usize, usize))
    ensures
        r.0 == longest_token(words(plain@)),
        r.1 == words(plain@).len(),
        r.2 == long_tokens(words(plain@)),
        r.2 <= r.1,
{
    let ws = split_words(&str_chars(plain));
    let ghost wv = ws@.map_values(|w: Vec<char>| w@);
    let mut longest: usize = 0;
    let mut long: usize = 0;
    let mut i: usize = 0;
    while i < ws.len()
        invariant
            wv == ws@.map_values(|w: Vec<char>| w@),
            wv == words(plain@),
            0 <= i <= ws@.len(),
            longest == longest_token(wv.take(i as int)),
            long == long_tokens(wv.take(i as int)),
            long <= i,
        decreases ws@.len() - i,
    {
        let word = string_from_chars(ws[i].as_slice());
        let w = display_width(word.as_str());
        proof {
            assert(wv.take(i + 1).drop_last() =~= wv.take(i as int));
            assert(wv.take(i + 1).last() == ws@[i as int]@);
        }
        if w > longest {
            longest = w;
        }
        if w >= LONG_TOKEN_COLUMNS {
            long = long + 1;
        }
        i = i + 1;
    }
    proof {
        assert(wv.take(ws@.len() as int) =~= wv);
    }
    (longest, ws.len(), long)
}

/// A bound on sums of at most `n` values of a `usize`.
pub open spec fn sum_bound(n: int) -> int {
    n * 0xFFFF_FFFF_FFFF_FFFF
}

/// The metrics of column `column`.
fn column_metrics(header: &TableCellText, rows: &[Vec<TableCellText>], column: usize) -> (m: TableColumnMetrics)
    requires
        forall|r: int| 0 <= r < rows@.len() ==> column < (#[trigger] rows@[r])@.len(),
    ensures
        metrics_of(m, *header, rows@, column as int),
{
    let ghost col = column as int;
    let (header_token_width, header_words, _) = token_tally(header.plain.as_str());
    let mut max_width: usize = header.width;
    let mut token_width: usize = 0;
    let mut word_count: u128 = 0;
    let mut long_count: u128 = 0;
    let mut text_cells: u128 = 0;
    let mut text_width: u128 = 0;
    let mut r: usize = 0;
    while r < rows.len()
        invariant
            forall|k: int| 0 <= k < rows@.len() ==> column < (#[trigger] rows@[k])@.len(),
            col == column as int,
            0 <= r <= rows@.len(),
            max_width == max_of(header.width as int, body_max_width(rows@.take(r as int), col)),
            token_width == body_token_width(rows@.take(r as int), col),
            word_count == body_word_count(rows@.take(r as int), col),
            long_count == body_long_tokens(rows@.take(r as int), col),
            text_cells == body_text_cells(rows@.take(r as int), col),
            text_width == body_text_width(rows@.take(r as int), col),
            word_count <= sum_bound(r as int),
            long_count <= word_count,
            text_cells <= r,
            text_width <= sum_bound(r as int),
        decreases rows@.len() - r,
    {
        let row = &rows[r];
        proof {
            assert(column < rows@[r as int]@.len());
        }
        let cell = &row[column];
        let ghost before = rows@.take(r as int);
        proof {
            assert(rows@.take(r + 1).drop_last() =~= before);
            assert(rows@.take(r + 1).last() == rows@[r as int]);
            assert(rows@[r as int]@[col] == *cell);
            assert(max_of(max_of(header.width as int, body_max_width(before, col)), cell.width as int)
                == max_of(header.width as int, max_of(body_max_width(before, col), cell.width as int)));
        }
        if cell.width > max_width {
            max_width = cell.width;
        }
        let (tw, count, long) = token_tally(cell.plain.as_str());
        if tw > token_width {
            token_width = tw;
        }
        long_count = long_count + long as u128;
        if count > 0 {
            word_count = word_count + count as u128;
            text_cells = text_cells + 1;
            text_width = text_width + display_width(cell.plain.as_str()) as u128;
        }
        r = r + 1;
    }
    proof {
        assert(rows@.take(rows@.len() as int) =~= rows@);
    }
    let many_words = if text_cells == 0 {
        header_words as u128 >= NARRATIVE_WORDS_PER_CELL
    } else {
        word_count >= NARRATIVE_WORDS_PER_CELL * text_cells
    };
    let wide = if text_cells == 0 {
        display_width(header.plain.as_str()) as u128 >= NARRATIVE_CELL_COLUMNS
    } else {
        text_width >= NARRATIVE_CELL_COLUMNS * text_cells
    };
    let rest = if word_count > long_count {
        word_count - long_count
    } else {
        0
    };
    let kind = if long_count > 0 && long_count >= rest {
        TableColumnKind::TokenHeavy
    } else if many_words || wide {
        TableColumnKind::Narrative
    } else {
        TableColumnKind::Compact
    };
    TableColumnMetrics { max_width, header_token_width, body_token_width: token_width, kind }
}

/// The metrics of the first `column_count` columns of a table, from its
/// header cells and body rows.
pub fn collect_table_column_metrics(
    header: &[TableCellText],
    rows: &[Vec<TableCellText>],
    column_count: usize,
) -> (r: Vec<TableColumnMetrics>)
    requires
        column_count <= header@.len(),
        forall|k: int| 0 <= k < rows@.len() ==> column_count <= (#[trigger] rows@[k])@.len(),
    ensures
        r@.len() == column_count,
        forall|c: int| 0 <= c < column_count ==> metrics_of(#[trigger] r@[c], header@[c], rows@, c),
{
    let mut metrics: Vec<TableColumnMetrics> = Vec::new();
    let mut column: usize = 0;
    while column < column_count
        invariant
            column_count <= header@.len(),
            forall|k: int| 0 <= k < rows@.len() ==> column_count <= (#[trigger] rows@[k])@.len(),
            0 <= column <= column_count,
            metrics@.len() == column,
            forall|c: int| 0 <= c < column ==> metrics_of(#[trigger] metrics@[c], header@[c], rows@, c),
        decreases column_count - column,
    {
        let m = column_metrics(&header[column], rows, column);
        metrics.push(m);
        column = column + 1;
    }
    metrics
}

/// An empty cell.
pub open spec fn is_empty_cell(c: TableCellText) -> bool {
    c.plain@.len() == 0 && c.width == 0
}

/// Cut a row to `column_count` cells, or fill it with empty cells up to
/// that many.
pub fn normalize_row(row: &mut Vec<TableCellText>, column_count: usize)
    ensures
        final(row)@.len() == column_count,
        forall|i: int| 0 <= i < column_count && i < old(row)@.len() ==> #[trigger] final(row)@[i] == old(row)@[i],
        forall|i: int| old(row)@.len() <= i < column_count ==> is_empty_cell(#[trigger] final(row)@[i]),
{
    row.truncate(column_count);
    let ghost kept = row@;
    while row.len() < column_count
        invariant
            kept.len() <= row@.len() <= column_count,
            kept.len() == (if old(row)@.len() < column_count {
                old(row)@.len() as int
            } else {
                column_count as int
            }),
            forall|i: int| 0 <= i < kept.len() ==> #[trigger] row@[i] == kept[i] && kept[i] == old(row)@[i],
            forall|i: int| kept.len() <= i < row@.len() ==> is_empty_cell(#[trigger] row@[i]),
        decreases column_count - row@.len(),
    {
        row.push(TableCellText { plain: String::new(), width: 0 });
    }
}

/// Whether two cells hold the same text and width.
pub open spec fn same_cell(a: TableCellText, b: TableCellText) -> bool {
    a.plain@ == b.plain@ && a.width == b.width
}

/// Whether two rows hold the same cells.
pub open spec fn same_row(a: Seq<TableCellText>, b: Seq<TableCellText>) -> bool {
    a.len() == b.len() && forall|i: int| 0 <= i < a.len() ==> same_cell(#[trigger] a[i], b[i])
}

/// A copy of a cell.
pub fn copy_cell(c: &TableCellText) -> (r: TableCellText)
    ensures
        same_cell(r, *c),
{
    TableCellText { plain: c.plain.clone(), width: c.width }
}

/// A copy of a row.
pub fn copy_row(row: &Vec<TableCellText>) -> (r: Vec<TableCellText>)
    ensures
        same_row(r@, row@),
{
    let mut r: Vec<TableCellText> = Vec::new();
    let mut i: usize = 0;
    while i < row.len()
        invariant
            0 <= i <= row@.len(),
            r@.len() == i,
            forall|k: int| 0 <= k < i ==> same_cell(#[trigger] r@[k], row@[k]),
        decreases row@.len() - i,
    {
        r.push(copy_cell(&row[i]));
        i = i + 1;
    }
    r
}

/// Whether `out` is `row` cut or filled with empty cells to `column_count` cells.
pub open spec fn normalized_from(out: Seq<TableCellText>, row: Seq<TableCellText>, column_count: usize) -> bool {
    &&& out.len() == column_count
    &&& forall|i: int| 0 <= i < column_count && i < row.len() ==> same_cell(#[trigger] out[i], row[i])
    &&& forall|i: int| row.len() <= i < column_count ==> is_empty_cell(#[trigger] out[i])
}

/// Whether row `i` is spillover text rather than a table row: a row that
/// the parser took into a table of several columns although it is the
/// paragraph after it.
pub open spec fn spills(spillover: Seq<bool>, column_count: usize, i: int) -> bool {
    column_count > 1 && spillover[i]
}

/// The body rows that stay in the table, in order.
pub open spec fn kept_rows(rows: Seq<Seq<TableCellText>>, spillover: Seq<bool>, column_count: usize) -> Seq<
    Seq<TableCellText>,
>
    decreases rows.len(),
{
    if rows.len() == 0 {
        Seq::empty()
    } else {
        let rest = kept_rows(rows.drop_last(), spillover, column_count);
        if spills(spillover, column_count, rows.len() - 1) {
            rest
        } else {
            rest.push(rows.last())
        }
    }
}

/// The text that spills out after the table: the first cell of each
/// spillover row that has one, in order.
pub open spec fn spilled_cells(rows: Seq<Seq<TableCellText>>, spillover: Seq<bool>, column_count: usize) -> Seq<
    TableCellText,
>
    decreases rows.len(),
{
    if rows.len() == 0 {
        Seq::empty()
    } else {
        let rest = spilled_cells(rows.drop_last(), spillover, column_count);
        if spills(spillover, column_count, rows.len() - 1) && rows.last().len() > 0 {
            rest.push(rows.last()[0])
        } else {
            rest
        }
    }
}

/// A table's cells made ready for layout.
pub struct TableRows {
    /// The header, cut or filled to the column count.
    pub header: Vec<TableCellText>,
    /// The body rows that stay in the table, cut or filled to the column count.
    pub body: Vec<Vec<TableCellText>>,
    /// The cells that are rendered as plain text after the table.
    pub spillover: Vec<TableCellText>,
}

/// Split a parsed table into the rows that stay in it and the spillover
/// text after it (`spillover[i]` says whether row `i` is such text; it
/// counts only in tables of several columns), and cut or fill the header
/// (empty cells when there is none) and each body row to `column_count`
/// cells.
pub fn split_table_rows(
    header: Option<Vec<TableCellText>>,
    rows: Vec<Vec<TableCellText>>,
    spillover: &[bool],
    column_count: usize,
) -> (r: TableRows)
    requires
        spillover@.len() == rows@.len(),
    ensures
        match header {
            Some(h) => normalized_from(r.header@, h@, column_count),
            None => normalized_from(r.header@, Seq::empty(), column_count),
        },
        r.body@.len() == kept_rows(rows@.map_values(|row: Vec<TableCellText>| row@), spillover@, column_count).len(),
        forall|k: int| 0 <= k < r.body@.len() ==> normalized_from(
            #[trigger] r.body@[k]@,
            kept_rows(rows@.map_values(|row: Vec<TableCellText>| row@), spillover@, column_count)[k],
            column_count,
        ),
        same_row(r.spillover@, spilled_cells(rows@.map_values(|row: Vec<TableCellText>| row@), spillover@, column_count)),
{
    let ghost rv = rows@.map_values(|row: Vec<TableCellText>| row@);
    let mut head = match header {
        Some(h) => h,
        None => Vec::new(),
    };
    normalize_row(&mut head, column_count);
    let mut body: Vec<Vec<TableCellText>> = Vec::new();
    let mut spilled: Vec<TableCellText> = Vec::new();
    let ghost mut kept: Seq<Seq<TableCellText>> = Seq::empty();
    let mut i: usize = 0;
    proof {
        assert(rv.take(0) =~= Seq::<Seq<TableCellText>>::empty());
    }
    while i < rows.len()
        invariant
            rv == rows@.map_values(|row: Vec<TableCellText>| row@),
            spillover@.len() == rows@.len(),
            0 <= i <= rows@.len(),
            kept == kept_rows(rv.take(i as int), spillover@, column_count),
            body@.len() == kept.len(),
            forall|k: int| 0 <= k < body@.len() ==> normalized_from(#[trigger] body@[k]@, kept[k], column_count),
            same_row(spilled@, spilled_cells(rv.take(i as int), spillover@, column_count)),
        decreases rows@.len() - i,
    {
        proof {
            assert(rv.take(i + 1).drop_last() =~= rv.take(i as int));
            assert(rv.take(i + 1).last() == rows@[i as int]@);
        }
        if column_count > 1 && spillover[i] {
            if rows[i].len() > 0 {
                spilled.push(copy_cell(&rows[i][0]));
            }
        } else {
            let mut row = copy_row(&rows[i]);
            let ghost copied = row@;
            normalize_row(&mut row, column_count);
            proof {
                assert forall|k: int| 0 <= k < column_count && k < rows@[i as int]@.len() implies same_cell(
                    #[trigger] row@[k],
                    rows@[i as int]@[k],
                ) by {
                    assert(row@[k] == copied[k]);
                }
            }
            body.push(row);
            proof {
                kept = kept.push(rows@[i as int]@);
            }
        }
        i = i + 1;
    }
    proof {
        assert(rv.take(rows@.len() as int) =~= rv);
    }
    TableRows { header: head, body, spillover: spilled }
}

/// How a table is drawn.
#[derive(Clone, Copy, Debug, PartialEq, Eq, Structural)]
pub enum TableRendering {
    /// Nothing: the table has no columns.
    Nothing,
    /// An aligned grid with the allocated column widths.
    Aligned,
    /// One key/value record per body row.
    Records,
    /// The table's own pipe text, unwrapped.
    RawPipes,
}

/// How a table is drawn, and whether its lines come already wrapped: a
/// table without columns draws nothing; when the columns cannot be given
/// widths, body rows become key/value records and a header-only table keeps
/// its raw pipes; otherwise the grid is aligned, unless its values read
/// better as records (`records_read_better`).
pub open spec fn table_rendering_spec(
    column_count: usize,
    body_rows: usize,
    widths_found: bool,
    records_read_better: bool,
) -> (TableRendering, bool) {
    if column_count == 0 {
        (TableRendering::Nothing, true)
    } else if !widths_found {
        if body_rows > 0 {
            (TableRendering::Records, true)
        } else {
            (TableRendering::RawPipes, false)
        }
    } else if records_read_better {
        (TableRendering::Records, true)
    } else {
        (TableRendering::Aligned, true)
    }
}

/// How a table is drawn (see [`table_rendering_spec`]).
pub fn table_rendering(column_count: usize, body_rows: usize, widths_found: bool, records_read_better: bool) -> (r: (
    TableRendering,
    bool,
))
    ensures
        r == table_rendering_spec(column_count, body_rows, widths_found, records_read_better),
{
    if column_count == 0 {
        (TableRendering::Nothing, true)
    } else if !widths_found {
        if body_rows > 0 {
            (TableRendering::Records, true)
        } else {
            (TableRendering::RawPipes, false)
        }
    } else if records_read_better {
        (TableRendering::Records, true)
    } else {
        (TableRendering::Aligned, true)
    }
}

} // verus!
