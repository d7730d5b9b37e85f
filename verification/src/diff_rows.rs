//! The rows of a rendered file change: each line of an added or deleted
//! file, or of the hunks of an update, with its line number and kind, and a
//! gap between hunks.

use vstd::prelude::*;
use crate::items::FileChange;
use crate::outside::{parse_patch, patch_hunks};
use crate::text::{lines_spec, str_chars, string_from_chars, text_lines};

verus! {

/// How a diff line is marked: `+`, `-` or a space.
#[derive(Clone, Copy, Debug, PartialEq, Eq, Structural)]
pub enum DiffLineKind {
    Insert,
    Delete,
    Context,
}

/// One hunk of a parsed patch: where it starts in the old and the new file,
/// and its lines with their kinds.
#[derive(Clone, Debug)]
pub struct PatchHunk {
    pub old_start: usize,
    pub new_start: usize,
    pub lines: Vec<(DiffLineKind, String)>,
}

/// One row of a rendered change.
#[derive(Clone, Debug, PartialEq, Eq)]
pub enum DiffRow {
    /// A line with the number it has in its file.
    Line { number: usize, kind: DiffLineKind, text: String },
    /// The gap drawn between two hunks.
    HunkGap,
}

/// A row as plain values: `None` for a gap.
pub type RowView = Option<(int, DiffLineKind, Seq<char>)>;

/// The view of a row.
pub open spec fn row_view(r: DiffRow) -> RowView {
    match r {
        DiffRow::Line { number, kind, text } => Some((number as int, kind, text@)),
        DiffRow::HunkGap => None,
    }
}

/// The views of some rows.
pub open spec fn rows_view(rows: Seq<DiffRow>) -> Seq<RowView> {
    rows.map_values(|r: DiffRow| row_view(r))
}

/// The view of a hunk's lines.
pub open spec fn lines_view(lines: Seq<(DiffLineKind, String)>) -> Seq<(DiffLineKind, Seq<char>)> {
    lines.map_values(|l: (DiffLineKind, String)| (l.0, l.1@))
}

/// The views of some hunks.
pub open spec fn hunks_view(hunks: Seq<PatchHunk>) -> Seq<(usize, usize, Seq<(DiffLineKind, Seq<char>)>)> {
    hunks.map_values(|h: PatchHunk| (h.old_start, h.new_start, lines_view(h.lines@)))
}

/// `s` without the newlines that end it.
pub open spec fn trim_newlines(s: Seq<char>) -> Seq<char>
    decreases s.len(),
{
    if s.len() > 0 && s.last() == '\n' {
        trim_newlines(s.drop_last())
    } else {
        s
    }
}

/// The rows of a hunk's lines, counting old lines from `old` and new lines
/// from `new`: an inserted line has its new number, a deleted line its old
/// one, a context line its new one, and each line loses its newline.
pub open spec fn line_rows(lines: Seq<(DiffLineKind, Seq<char>)>, old: int, new: int) -> Seq<RowView>
    decreases lines.len(),
{
    if lines.len() == 0 {
        Seq::empty()
    } else {
        let (kind, text) = lines[0];
        let rest = lines.skip(1);
        match kind {
            DiffLineKind::Insert => seq![Some((new, kind, trim_newlines(text)))] + line_rows(rest, old, new + 1),
            DiffLineKind::Delete => seq![Some((old, kind, trim_newlines(text)))] + line_rows(rest, old + 1, new),
            DiffLineKind::Context => seq![Some((new, kind, trim_newlines(text)))] + line_rows(
                rest,
                old + 1,
                new + 1,
            ),
        }
    }
}

/// The rows of some hunks: each hunk's lines, with a gap between hunks.
pub open spec fn hunk_rows_spec(hunks: Seq<(usize, usize, Seq<(DiffLineKind, Seq<char>)>)>) -> Seq<RowView>
    decreases hunks.len(),
{
    if hunks.len() == 0 {
        Seq::empty()
    } else {
        let before = hunk_rows_spec(hunks.drop_last());
        let h = hunks.last();
        (if hunks.len() > 1 {
            before.push(None)
        } else {
            before
        }) + line_rows(h.2, h.0 as int, h.1 as int)
    }
}

/// The line numbers of every hunk stay within `usize`.
pub open spec fn hunks_fit(hunks: Seq<(usize, usize, Seq<(DiffLineKind, Seq<char>)>)>) -> bool {
    forall|i: int|
        0 <= i < hunks.len() ==> (#[trigger] hunks[i]).0 + hunks[i].2.len() <= usize::MAX && hunks[i].1
            + hunks[i].2.len() <= usize::MAX
}

/// The rows of a whole file's lines, numbered from 1, all of one kind.
pub open spec fn content_rows_spec(lines: Seq<Seq<char>>, kind: DiffLineKind) -> Seq<RowView> {
    Seq::new(lines.len(), |i: int| Some((i + 1, kind, lines[i])))
}

/// The largest line number among the rows (0 when there is none).
pub open spec fn max_number(rows: Seq<RowView>) -> int
    decreases rows.len(),
{
    if rows.len() == 0 {
        0
    } else {
        let m = max_number(rows.drop_last());
        match rows.last() {
            Some((n, _, _)) => if n > m {
                n
            } else {
                m
            },
            None => m,
        }
    }
}

/// Whether a line of `t` starts at position `s`.
pub open spec fn starts_line(t: Seq<char>, s: int) -> bool {
    0 <= s < t.len() && (s == 0 || t[s - 1] == '\n')
}

/// Whether the line that starts at `s` begins with `@@ `.
pub open spec fn header_at(text: Seq<char>, s: int) -> bool {
    0 <= s && s + 3 <= text.len() && text[s] == '@' && text[s + 1] == '@' && text[s + 2] == ' '
}

/// Whether a hunk header line starts at `s`.
pub open spec fn header_line(t: Seq<char>, s: int) -> bool {
    starts_line(t, s) && header_at(t, s)
}

/// Where the line through position `s` ends: after its newline, or at the
/// end of the text.
pub open spec fn line_end(t: Seq<char>, s: int) -> int
    decreases t.len() - s,
{
    if s < 0 || s >= t.len() {
        t.len() as int
    } else if t[s] == '\n' {
        s + 1
    } else {
        line_end(t, s + 1)
    }
}

/// The first position from `i` where ` @@` stands wholly before `e`.
pub open spec fn first_close(t: Seq<char>, i: int, e: int) -> Option<int>
    decreases e - i,
{
    if i < 0 || i + 3 > e || e > t.len() {
        None
    } else if t[i] == ' ' && t[i + 1] == '@' && t[i + 2] == '@' {
        Some(i)
    } else {
        first_close(t, i + 1, e)
    }
}

/// The first position of `c` in `[i, e)`.
pub open spec fn first_char(t: Seq<char>, c: char, i: int, e: int) -> Option<int>
    decreases e - i,
{
    if i < 0 || i >= e || e > t.len() {
        None
    } else if t[i] == c {
        Some(i)
    } else {
        first_char(t, c, i + 1, e)
    }
}

/// Whether `c` is an ASCII digit.
pub open spec fn is_digit_char(c: char) -> bool {
    '0' <= c && c <= '9'
}

/// The decimal value of `t[a..b]` when it is a non-empty run of digits.
pub open spec fn digits_value(t: Seq<char>, a: int, b: int) -> Option<int>
    decreases b - a,
{
    if a < 0 || b <= a || b > t.len() || !is_digit_char(t[b - 1]) {
        None
    } else if b - 1 == a {
        Some(t[a] as int - '0' as int)
    } else {
        match digits_value(t, a, b - 1) {
            Some(v) => Some(v * 10 + (t[b - 1] as int - '0' as int)),
            None => None,
        }
    }
}

/// The number that parsing `t[a..b]` as an unsigned integer reads, leaving
/// aside its upper limit: digits, after at most one leading `+`.
pub open spec fn number_value(t: Seq<char>, a: int, b: int) -> Option<int> {
    if b - a > 1 && t[a] == '+' {
        digits_value(t, a + 1, b)
    } else {
        digits_value(t, a, b)
    }
}

/// The start and length of a hunk range written in `t[a..b]`: `start,len`,
/// or `start` alone for a length of 1.
pub open spec fn range_value(t: Seq<char>, a: int, b: int) -> Option<(int, int)> {
    match first_char(t, ',', a, b) {
        Some(c) => match (number_value(t, a, c), number_value(t, c + 1, b)) {
            (Some(x), Some(y)) => Some((x, y)),
            _ => None,
        },
        None => match number_value(t, a, b) {
            Some(x) => Some((x, 1)),
            None => None,
        },
    }
}

/// The old and new ranges of the hunk header at `s`: after `@@ ` and up to
/// the first ` @@` of the line, `-` and the old range, one space, `+` and
/// the new range.
pub open spec fn header_ranges(t: Seq<char>, s: int) -> Option<((int, int), (int, int))> {
    let e = line_end(t, s);
    match first_close(t, s + 3, e) {
        None => None,
        Some(p) => match first_char(t, ' ', s + 3, p) {
            None => None,
            Some(q) => if q > s + 3 && t[s + 3] == '-' && q + 1 < p && t[q + 1] == '+' {
                match (range_value(t, s + 4, q), range_value(t, q + 2, p)) {
                    (Some(o), Some(n)) => Some((o, n)),
                    _ => None,
                }
            } else {
                None
            },
        },
    }
}

/// Whether the hunk header at `s` reads as two ranges whose numbers each fit
/// in `usize`, one of which ends (start plus length) past `usize::MAX`.
pub open spec fn header_end_overflows(t: Seq<char>, s: int) -> bool {
    match header_ranges(t, s) {
        Some(((a, b), (c, d))) => a <= usize::MAX && b <= usize::MAX && c <= usize::MAX && d <= usize::MAX && (
        a + b > usize::MAX || c + d > usize::MAX),
        None => false,
    }
}

/// Whether every hunk header but the last has ranges that end within
/// `usize`: the ends of all hunks but the last are computed when a parsed
/// diff is checked for hunks in order.
pub open spec fn hunk_ends_fit(t: Seq<char>) -> bool {
    forall|s: int, s2: int|
        #[trigger] header_line(t, s) && #[trigger] header_line(t, s2) && s < s2 ==> !header_end_overflows(t, s)
}

/// The rows of a change: an added file's lines as insertions, a deleted
/// file's as deletions, an update's hunks (none when its diff does not
/// parse); `None` when a hunk of an update, other than its last, ends past
/// `usize::MAX`, or when its line numbers would pass `usize`.
pub open spec fn change_rows_spec(change: FileChange) -> Option<Seq<RowView>> {
    match change {
        FileChange::Add { content } => Some(content_rows_spec(lines_spec(content@), DiffLineKind::Insert)),
        FileChange::Delete { content } => Some(content_rows_spec(lines_spec(content@), DiffLineKind::Delete)),
        FileChange::Update { unified_diff, .. } => if !hunk_ends_fit(unified_diff@) {
            None
        } else {
            match patch_hunks(unified_diff@) {
                None => Some(Seq::empty()),
                Some(h) => if hunks_fit(h) {
                    Some(hunk_rows_spec(h))
                } else {
                    None
                },
            }
        },
    }
}

/// `text` without the newlines that end it.
fn trim_newlines_of(text: &str) -> (r: String)
    ensures
        r@ == trim_newlines(text@),
{
    let chars = str_chars(text);
    let mut end: usize = chars.len();
    proof {
        assert(chars@.take(chars@.len() as int) =~= chars@);
    }
    while end > 0 && chars[end - 1] == '\n'
        invariant
            chars@ == text@,
            0 <= end <= chars@.len(),
            trim_newlines(text@) == trim_newlines(chars@.take(end as int)),
        decreases end,
    {
        proof {
            assert(chars@.take(end as int).drop_last() =~= chars@.take(end - 1));
        }
        end = end - 1;
    }
    let mut out: Vec<char> = Vec::new();
    let mut k: usize = 0;
    while k < end
        invariant
            0 <= k <= end <= chars@.len(),
            out@ == chars@.take(k as int),
        decreases end - k,
    {
        out.push(chars[k]);
        proof {
            assert(chars@.take(k as int).push(chars@[k as int]) =~= chars@.take(k + 1));
        }
        k = k + 1;
    }
    string_from_chars(out.as_slice())
}

/// The rows of some hunks, given that their line numbers fit.
pub fn hunk_rows(hunks: &[PatchHunk]) -> (r: Vec<DiffRow>)
    requires
        hunks_fit(hunks_view(hunks@)),
    ensures
        rows_view(r@) == hunk_rows_spec(hunks_view(hunks@)),
{
    let ghost hv = hunks_view(hunks@);
    let mut rows: Vec<DiffRow> = Vec::new();
    let mut h: usize = 0;
    proof {
        assert(hv.take(0) =~= Seq::<(usize, usize, Seq<(DiffLineKind, Seq<char>)>)>::empty());
        assert(rows_view(rows@) =~= Seq::<RowView>::empty());
    }
    while h < hunks.len()
        invariant
            hv == hunks_view(hunks@),
            hunks_fit(hv),
            0 <= h <= hunks@.len(),
            rows_view(rows@) == hunk_rows_spec(hv.take(h as int)),
        decreases hunks@.len() - h,
    {
        let hunk = &hunks[h];
        let ghost start = rows_view(rows@);
        if h > 0 {
            rows.push(DiffRow::HunkGap);
            proof {
                assert(rows_view(rows@) =~= start.push(None));
            }
        }
        let ghost lines = lines_view(hunk.lines@);
        let ghost mid = rows_view(rows@);
        proof {
            assert(hv[h as int] == (hunk.old_start, hunk.new_start, lines));
            assert(hunk.old_start + lines.len() <= usize::MAX && hunk.new_start + lines.len() <= usize::MAX);
            assert(lines.skip(0) =~= lines);
            assert(mid + Seq::<RowView>::empty() =~= mid);
        }
        let mut old = hunk.old_start;
        let mut new = hunk.new_start;
        let mut i: usize = 0;
        while i < hunk.lines.len()
            invariant
                lines == lines_view(hunk.lines@),
                0 <= i <= lines.len(),
                old <= hunk.old_start + i,
                new <= hunk.new_start + i,
                hunk.old_start + lines.len() <= usize::MAX,
                hunk.new_start + lines.len() <= usize::MAX,
                mid + line_rows(lines, hunk.old_start as int, hunk.new_start as int) == rows_view(rows@)
                    + line_rows(lines.skip(i as int), old as int, new as int),
            decreases lines.len() - i,
        {
            let (kind, text) = (hunk.lines[i].0, &hunk.lines[i].1);
            let trimmed = trim_newlines_of(text.as_str());
            let ghost before = rows_view(rows@);
            let ghost rest = lines.skip(i as int);
            let ghost old0 = old as int;
            let ghost new0 = new as int;
            proof {
                assert(rest[0] == (kind, text@));
                assert(rest.skip(1) =~= lines.skip(i + 1));
            }
            match kind {
                DiffLineKind::Insert => {
                    rows.push(DiffRow::Line { number: new, kind, text: trimmed });
                    new = new + 1;
                },
                DiffLineKind::Delete => {
                    rows.push(DiffRow::Line { number: old, kind, text: trimmed });
                    old = old + 1;
                },
                DiffLineKind::Context => {
                    rows.push(DiffRow::Line { number: new, kind, text: trimmed });
                    old = old + 1;
                    new = new + 1;
                },
            }
            proof {
                let row = rows_view(rows@).last();
                let tail = line_rows(lines.skip(i + 1), old as int, new as int);
                assert(rows_view(rows@) =~= before.push(row));
                assert(line_rows(rest, old0, new0) == seq![row] + tail);
                assert(before + (seq![row] + tail) =~= before.push(row) + tail);
            }
            i = i + 1;
        }
        proof {
            assert(lines.skip(lines.len() as int) =~= Seq::<(DiffLineKind, Seq<char>)>::empty());
            assert(rows_view(rows@) + Seq::<RowView>::empty() =~= rows_view(rows@));
            assert(hv.take(h + 1).drop_last() =~= hv.take(h as int));
            assert(hv.take(h + 1).last() == hv[h as int]);
        }
        h = h + 1;
    }
    proof {
        assert(hv.take(hunks@.len() as int) =~= hv);
    }
    rows
}

/// The rows of a whole file's lines, numbered from 1, all of kind `kind`.
pub fn content_rows(content: &str, kind: DiffLineKind) -> (r: Vec<DiffRow>)
    ensures
        rows_view(r@) == content_rows_spec(lines_spec(content@), kind),
{
    let chars = str_chars(content);
    let lines = text_lines(&chars);
    let ghost lv = lines@.map_values(|l: Vec<char>| l@);
    let mut rows: Vec<DiffRow> = Vec::new();
    let mut i: usize = 0;
    while i < lines.len()
        invariant
            lv == lines@.map_values(|l: Vec<char>| l@),
            lv == lines_spec(content@),
            0 <= i <= lines@.len(),
            rows_view(rows@) == content_rows_spec(lv.take(i as int), kind),
        decreases lines@.len() - i,
    {
        let text = string_from_chars(lines[i].as_slice());
        let ghost before = rows_view(rows@);
        proof {
            assert(lv[i as int] == lines@[i as int]@);
            assert(text@ == lv.take(i + 1)[i as int]);
        }
        rows.push(DiffRow::Line { number: i + 1, kind, text });
        proof {
            assert(rows_view(rows@) =~= before.push(Some(((i + 1) as int, kind, lv[i as int]))));
            assert(rows_view(rows@) =~= content_rows_spec(lv.take(i + 1), kind));
        }
        i = i + 1;
    }
    proof {
        assert(lv.take(lines@.len() as int) =~= lv);
    }
    rows
}

/// Whether the line numbers of every hunk stay within `usize`.
fn hunks_fit_exec(hunks: &Vec<PatchHunk>) -> (r: bool)
    ensures
        r == hunks_fit(hunks_view(hunks@)),
{
    let ghost hv = hunks_view(hunks@);
    let mut i: usize = 0;
    while i < hunks.len()
        invariant
            hv == hunks_view(hunks@),
            0 <= i <= hunks@.len(),
            forall|k: int|
                0 <= k < i ==> (#[trigger] hv[k]).0 + hv[k].2.len() <= usize::MAX && hv[k].1 + hv[k].2.len()
                    <= usize::MAX,
        decreases hunks@.len() - i,
    {
        let n = hunks[i].lines.len();
        proof {
            assert(hv[i as int].2.len() == n);
        }
        if n > usize::MAX - hunks[i].old_start || n > usize::MAX - hunks[i].new_start {
            proof {
                assert(!(hv[i as int].0 + hv[i as int].2.len() <= usize::MAX && hv[i as int].1
                    + hv[i as int].2.len() <= usize::MAX));
            }
            return false;
        }
        i = i + 1;
    }
    true
}

/// Whether the line that starts at `s` is a hunk header.
fn header_at_exec(chars: &Vec<char>, s: usize) -> (r: bool)
    ensures
        r == header_at(chars@, s as int),
{
    s <= chars.len() && chars.len() - s >= 3 && chars[s] == '@' && chars[s + 1] == '@' && chars[s + 2] == ' '
}

/// Where the line through position `s` ends.
fn line_end_exec(chars: &Vec<char>, s: usize) -> (r: usize)
    requires
        s <= chars@.len(),
    ensures
        r == line_end(chars@, s as int),
        s < chars@.len() ==> s < r,
        r <= chars@.len(),
{
    let mut i = s;
    while i < chars.len() && chars[i] != '\n'
        invariant
            s <= i <= chars@.len(),
            line_end(chars@, i as int) == line_end(chars@, s as int),
        decreases chars@.len() - i,
    {
        i = i + 1;
    }
    if i < chars.len() {
        i + 1
    } else {
        chars.len()
    }
}

/// No line starts strictly inside the line that starts at `s`, and the next
/// one, if any, starts where it ends.
proof fn lemma_line_end(t: Seq<char>, s: int)
    requires
        0 <= s < t.len(),
    ensures
        s < line_end(t, s) <= t.len(),
        forall|k: int| s < k < line_end(t, s) ==> !#[trigger] starts_line(t, k),
        line_end(t, s) < t.len() ==> starts_line(t, line_end(t, s)),
    decreases t.len() - s,
{
    if t[s] != '\n' {
        if s + 1 < t.len() {
            lemma_line_end(t, s + 1);
        } else {
            assert(line_end(t, s + 1) == t.len());
        }
    }
}

/// The first position from `i` where ` @@` stands wholly before `e`.
fn first_close_exec(chars: &Vec<char>, i: usize, e: usize) -> (r: Option<usize>)
    requires
        e <= chars@.len(),
    ensures
        match r {
            Some(p) => first_close(chars@, i as int, e as int) == Some(p as int) && i <= p && p + 3 <= e,
            None => first_close(chars@, i as int, e as int) is None,
        },
{
    let mut j = i;
    while j < e && e - j >= 3
        invariant
            e <= chars@.len(),
            i <= j,
            first_close(chars@, j as int, e as int) == first_close(chars@, i as int, e as int),
        decreases e - j,
    {
        if chars[j] == ' ' && chars[j + 1] == '@' && chars[j + 2] == '@' {
            return Some(j);
        }
        j = j + 1;
    }
    None
}

/// The first position of `c` in `[i, e)`.
fn first_char_exec(chars: &Vec<char>, c: char, i: usize, e: usize) -> (r: Option<usize>)
    requires
        e <= chars@.len(),
    ensures
        match r {
            Some(p) => first_char(chars@, c, i as int, e as int) == Some(p as int) && i <= p < e,
            None => first_char(chars@, c, i as int, e as int) is None,
        },
{
    let mut j = i;
    while j < e
        invariant
            e <= chars@.len(),
            i <= j,
            first_char(chars@, c, j as int, e as int) == first_char(chars@, c, i as int, e as int),
        decreases e - j,
    {
        if chars[j] == c {
            return Some(j);
        }
        j = j + 1;
    }
    None
}

/// A number read from a diff: within `usize`, or larger.
#[derive(Clone, Copy, Debug, PartialEq, Eq, Structural)]
pub enum ReadNumber {
    Fits(usize),
    Larger,
}

/// Whether a read number agrees with its value.
pub open spec fn read_matches(r: ReadNumber, v: int) -> bool {
    match r {
        ReadNumber::Fits(x) => v == x,
        ReadNumber::Larger => v > usize::MAX,
    }
}

proof fn lemma_digits_none(t: Seq<char>, a: int, b: int, j: int)
    requires
        0 <= a <= j < b <= t.len(),
        !is_digit_char(t[j]),
    ensures
        digits_value(t, a, b) is None,
    decreases b - a,
{
    if j < b - 1 {
        lemma_digits_none(t, a, b - 1, j);
    }
}

/// The value of the digits in `t[a..b]`, when they are all digits.
fn digits_exec(chars: &Vec<char>, a: usize, b: usize) -> (r: Option<ReadNumber>)
    requires
        a <= b <= chars@.len(),
    ensures
        match r {
            Some(n) => digits_value(chars@, a as int, b as int) matches Some(v) && read_matches(n, v),
            None => digits_value(chars@, a as int, b as int) is None,
        },
{
    if a >= b {
        return None;
    }
    if !('0' <= chars[a] && chars[a] <= '9') {
        proof {
            lemma_digits_none(chars@, a as int, b as int, a as int);
        }
        return None;
    }
    let mut acc: u128 = (chars[a] as u32 - '0' as u32) as u128;
    let mut larger = false;
    let ghost mut val: int = chars@[a as int] as int - '0' as int;
    let mut k = a + 1;
    while k < b
        invariant
            a < k <= b <= chars@.len(),
            digits_value(chars@, a as int, k as int) == Some(val),
            val >= 0,
            larger ==> val > usize::MAX,
            !larger ==> acc == val && acc <= usize::MAX,
        decreases b - k,
    {
        let c = chars[k];
        if !('0' <= c && c <= '9') {
            proof {
                lemma_digits_none(chars@, a as int, b as int, k as int);
            }
            return None;
        }
        let d = (c as u32 - '0' as u32) as u128;
        proof {
            val = val * 10 + (c as int - '0' as int);
        }
        if !larger {
            acc = acc * 10 + d;
            if acc > usize::MAX as u128 {
                larger = true;
            }
        }
        k = k + 1;
    }
    if larger {
        Some(ReadNumber::Larger)
    } else {
        Some(ReadNumber::Fits(acc as usize))
    }
}

/// The number that parsing `t[a..b]` as an unsigned integer reads.
fn number_exec(chars: &Vec<char>, a: usize, b: usize) -> (r: Option<ReadNumber>)
    requires
        a <= b <= chars@.len(),
    ensures
        match r {
            Some(n) => number_value(chars@, a as int, b as int) matches Some(v) && read_matches(n, v),
            None => number_value(chars@, a as int, b as int) is None,
        },
{
    if b - a > 1 && chars[a] == '+' {
        digits_exec(chars, a + 1, b)
    } else {
        digits_exec(chars, a, b)
    }
}

/// The start and length of the hunk range written in `t[a..b]`.
fn range_exec(chars: &Vec<char>, a: usize, b: usize) -> (r: Option<(ReadNumber, ReadNumber)>)
    requires
        a <= b <= chars@.len(),
    ensures
        match r {
            Some((x, y)) => range_value(chars@, a as int, b as int) matches Some((u, v)) && read_matches(x, u)
                && read_matches(y, v),
            None => range_value(chars@, a as int, b as int) is None,
        },
{
    match first_char_exec(chars, ',', a, b) {
        Some(c) => {
            let x = number_exec(chars, a, c);
            let y = number_exec(chars, c + 1, b);
            match (x, y) {
                (Some(x), Some(y)) => Some((x, y)),
                _ => None,
            }
        },
        None => match number_exec(chars, a, b) {
            Some(x) => Some((x, ReadNumber::Fits(1))),
            None => None,
        },
    }
}

/// Whether the ranges of a header, as read, end past `usize::MAX` while
/// their numbers fit.
fn ends_overflow(start: ReadNumber, len: ReadNumber) -> (r: Option<bool>)
    ensures
        match r {
            None => start == ReadNumber::Larger || len == ReadNumber::Larger,
            Some(o) => match (start, len) {
                (ReadNumber::Fits(a), ReadNumber::Fits(b)) => o == (a + b > usize::MAX),
                _ => false,
            },
        },
{
    match (start, len) {
        (ReadNumber::Fits(a), ReadNumber::Fits(b)) => Some(a > usize::MAX - b),
        (ReadNumber::Larger, _) => None,
        (_, ReadNumber::Larger) => None,
    }
}

/// Whether the hunk header at `s` reads as ranges whose numbers fit in
/// `usize` and one of which ends past `usize::MAX`.
fn header_overflows_exec(chars: &Vec<char>, s: usize) -> (r: bool)
    requires
        s + 3 <= chars.len(),
    ensures
        r == header_end_overflows(chars@, s as int),
{
    let t = chars;
    let e = line_end_exec(chars, s);
    let p = match first_close_exec(chars, s + 3, e) {
        Some(p) => p,
        None => return false,
    };
    let q = match first_char_exec(chars, ' ', s + 3, p) {
        Some(q) => q,
        None => return false,
    };
    if !(q > s + 3 && t[s + 3] == '-' && q + 1 < p && t[q + 1] == '+') {
        return false;
    }
    let (a, b) = match range_exec(chars, s + 4, q) {
        Some(r) => r,
        None => return false,
    };
    let (c, d) = match range_exec(chars, q + 2, p) {
        Some(r) => r,
        None => return false,
    };
    let old_end = match ends_overflow(a, b) {
        Some(o) => o,
        None => return false,
    };
    let new_end = match ends_overflow(c, d) {
        Some(o) => o,
        None => return false,
    };
    old_end || new_end
}

/// Whether every hunk header of `text` but the last has ranges that end
/// within `usize` (see [`hunk_ends_fit`]).
pub fn hunk_ranges_fit(text: &str) -> (r: bool)
    ensures
        r == hunk_ends_fit(text@),
{
    let chars = str_chars(text);
    let n = chars.len();
    let ghost t = text@;
    let mut i: usize = 0;
    let mut seen_bad = false;
    let ghost mut bad_pos: int = 0;
    while i < n
        invariant
            chars@ == t,
            t == text@,
            n == t.len(),
            i <= n,
            i < n ==> starts_line(t, i as int),
            forall|s: int, s2: int|
                #[trigger] header_line(t, s) && #[trigger] header_line(t, s2) && s < s2 < i
                    ==> !header_end_overflows(t, s),
            seen_bad ==> header_line(t, bad_pos) && bad_pos < i && header_end_overflows(t, bad_pos),
            !seen_bad ==> forall|s: int| #[trigger] header_line(t, s) && s < i ==> !header_end_overflows(t, s),
        decreases n - i,
    {
        proof {
            lemma_line_end(t, i as int);
        }
        if header_at_exec(&chars, i) {
            if seen_bad {
                proof {
                    assert(header_line(t, bad_pos) && header_line(t, i as int));
                }
                return false;
            }
            if header_overflows_exec(&chars, i) {
                seen_bad = true;
                proof {
                    bad_pos = i as int;
                }
            }
        }
        let next = line_end_exec(&chars, i);
        proof {
            assert forall|s: int| #[trigger] header_line(t, s) && i < s < next implies false by {}
        }
        i = next;
    }
    true
}

/// The rows of a change: an added file's lines as insertions, a deleted
/// file's as deletions, an update's hunks with gaps between them (no rows
/// when its diff does not parse); `None` when an update's line numbers would
/// pass `usize`.
pub fn change_rows(change: &FileChange) -> (r: Option<Vec<DiffRow>>)
    ensures
        match r {
            Some(rows) => change_rows_spec(*change) == Some(rows_view(rows@)),
            None => change_rows_spec(*change) is None,
        },
{
    match change {
        FileChange::Add { content } => Some(content_rows(content.as_str(), DiffLineKind::Insert)),
        FileChange::Delete { content } => Some(content_rows(content.as_str(), DiffLineKind::Delete)),
        FileChange::Update { unified_diff, .. } => if !hunk_ranges_fit(unified_diff.as_str()) {
            None
        } else {
            match parse_patch(unified_diff.as_str()) {
            None => {
                let rows: Vec<DiffRow> = Vec::new();
                proof {
                    assert(rows_view(rows@) =~= Seq::<RowView>::empty());
                }
                Some(rows)
            },
            Some(hunks) => {
                if hunks_fit_exec(&hunks) {
                    Some(hunk_rows(hunks.as_slice()))
                } else {
                    None
                }
            },
            }
        },
    }
}

/// The largest line number among the rows (0 when there is none), which
/// sets the width of the line-number gutter.
pub fn max_line_number(rows: &[DiffRow]) -> (r: usize)
    ensures
        r == max_number(rows_view(rows@)),
{
    let ghost rv = rows_view(rows@);
    let mut m: usize = 0;
    let mut i: usize = 0;
    proof {
        assert(rv.take(0) =~= Seq::<RowView>::empty());
    }
    while i < rows.len()
        invariant
            rv == rows_view(rows@),
            0 <= i <= rows@.len(),
            m == max_number(rv.take(i as int)),
        decreases rows@.len() - i,
    {
        proof {
            assert(rv.take(i + 1).drop_last() =~= rv.take(i as int));
            assert(rv.take(i + 1).last() == row_view(rows@[i as int]));
        }
        match &rows[i] {
            DiffRow::Line { number, .. } => {
                if *number > m {
                    m = *number;
                }
            },
            DiffRow::HunkGap => {},
        }
        i = i + 1;
    }
    proof {
        assert(rv.take(rows@.len() as int) =~= rv);
    }
    m
}

} // verus!
