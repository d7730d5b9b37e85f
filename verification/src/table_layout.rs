//! Column widths for aligned markdown tables: columns start at their natural
//! width and are shrunk, by priority, until the table fits.

use vstd::prelude::*;

verus! {

/// How a column's content reads, which decides how early it gives up width.
#[derive(Clone, Copy, Debug, PartialEq, Eq, Structural)]
pub enum TableColumnKind {
    /// Long unbreakable tokens (paths, URLs, identifiers).
    TokenHeavy,
    /// Running prose.
    Narrative,
    /// Short values.
    Compact,
}

/// What the width allocation knows of one column.
#[derive(Clone, Copy, Debug, PartialEq, Eq, Structural)]
pub struct TableColumnMetrics {
    /// The widest cell, header included.
    pub max_width: usize,
    /// The longest whitespace-separated token of the header.
    pub header_token_width: usize,
    /// The longest whitespace-separated token of the body cells.
    pub body_token_width: usize,
    pub kind: TableColumnKind,
}

/// The narrowest a column may become.
pub const MIN_COLUMN_WIDTH: usize = 3;

/// The soft floor of readable prose and token columns.
pub const SOFT_COLUMN_FLOOR: usize = 16;

pub open spec fn sat_sub(a: int, b: int) -> int {
    if a > b {
        a - b
    } else {
        0
    }
}

pub open spec fn min_of(a: int, b: int) -> int {
    if a < b {
        a
    } else {
        b
    }
}

pub open spec fn max_of(a: int, b: int) -> int {
    if a > b {
        a
    } else {
        b
    }
}

/// The preferred minimum width of a column before shrinking goes further:
/// prose and token columns keep a soft floor of 16, compact columns keep
/// their longest header token and their longest body token (up to 16); the
/// result lies between `min_column_width` and the column's natural width,
/// the latter winning.
pub open spec fn column_floor(m: TableColumnMetrics, min_column_width: int) -> int {
    let target = match m.kind {
        TableColumnKind::Compact => max_of(
            m.header_token_width as int,
            min_of(m.body_token_width as int, SOFT_COLUMN_FLOOR as int),
        ),
        _ => SOFT_COLUMN_FLOOR as int,
    };
    min_of(max_of(target, min_column_width), m.max_width as int)
}

/// The width a column may give up above its floor.
pub open spec fn slack(ws: Seq<usize>, floors: Seq<usize>, i: int) -> int {
    sat_sub(ws[i] as int, floors[i] as int)
}

/// Whether column `i` is of kind `k`.
pub open spec fn is_kind(ms: Seq<TableColumnMetrics>, i: int, k: TableColumnKind) -> bool {
    ms[i].kind == k
}

/// Over the first `n` columns of kind `k`, the total slack above `cap`: the
/// width removed when every such column is cut down to `cap` above its floor.
pub open spec fn excess(
    ws: Seq<usize>,
    floors: Seq<usize>,
    ms: Seq<TableColumnMetrics>,
    k: TableColumnKind,
    cap: int,
    n: int,
) -> int
    decreases n,
{
    if n <= 0 {
        0
    } else {
        excess(ws, floors, ms, k, cap, n - 1) + if is_kind(ms, n - 1, k) {
            sat_sub(slack(ws, floors, n - 1), cap)
        } else {
            0
        }
    }
}

/// The largest slack among the first `n` columns of kind `k`.
pub open spec fn max_slack(
    ws: Seq<usize>,
    floors: Seq<usize>,
    ms: Seq<TableColumnMetrics>,
    k: TableColumnKind,
    n: int,
) -> int
    decreases n,
{
    if n <= 0 {
        0
    } else if is_kind(ms, n - 1, k) {
        max_of(max_slack(ws, floors, ms, k, n - 1), slack(ws, floors, n - 1))
    } else {
        max_slack(ws, floors, ms, k, n - 1)
    }
}

/// The lowest level `c`, from `c` up to `bound`, at which cutting every
/// column of kind `k` to `c` above its floor removes at most `budget`.
pub open spec fn level_from(
    ws: Seq<usize>,
    floors: Seq<usize>,
    ms: Seq<TableColumnMetrics>,
    k: TableColumnKind,
    budget: int,
    c: int,
    bound: int,
) -> int
    decreases bound - c,
{
    if c >= bound || excess(ws, floors, ms, k, c, ws.len() as int) <= budget {
        c
    } else {
        level_from(ws, floors, ms, k, budget, c + 1, bound)
    }
}

/// The lowest level at which cutting the columns of kind `k` removes at most `budget`.
pub open spec fn level(
    ws: Seq<usize>,
    floors: Seq<usize>,
    ms: Seq<TableColumnMetrics>,
    k: TableColumnKind,
    budget: int,
) -> int {
    level_from(ws, floors, ms, k, budget, 0, max_slack(ws, floors, ms, k, ws.len() as int))
}

/// Every column of kind `k` cut down to `cap` above its floor.
pub open spec fn capped(
    ws: Seq<usize>,
    floors: Seq<usize>,
    ms: Seq<TableColumnMetrics>,
    k: TableColumnKind,
    cap: int,
) -> Seq<usize> {
    Seq::new(
        ws.len(),
        |i: int|
            if is_kind(ms, i, k) {
                (ws[i] - sat_sub(slack(ws, floors, i), cap)) as usize
            } else {
                ws[i]
            },
    )
}

/// From column `i` on, one more cell off each column of kind `k` that sits
/// exactly at `cap`, in column order, until `rem` cells are gone.
pub open spec fn distribute(
    ws: Seq<usize>,
    floors: Seq<usize>,
    ms: Seq<TableColumnMetrics>,
    k: TableColumnKind,
    cap: int,
    rem: int,
    i: int,
) -> Seq<usize>
    decreases ws.len() - i,
{
    if i >= ws.len() || i < 0 || rem <= 0 {
        ws
    } else if is_kind(ms, i, k) && slack(ws, floors, i) == cap {
        distribute(ws.update(i, (ws[i] - 1) as usize), floors, ms, k, cap, rem - 1, i + 1)
    } else {
        distribute(ws, floors, ms, k, cap, rem, i + 1)
    }
}

/// Shrinking the columns of kind `k` by up to `amount`: the columns with the
/// most slack give up width first, so that they end up balanced; returns the
/// widths and what is left to remove.
pub open spec fn shrink_kind(
    ws: Seq<usize>,
    floors: Seq<usize>,
    ms: Seq<TableColumnMetrics>,
    k: TableColumnKind,
    amount: int,
) -> (Seq<usize>, int) {
    let n = ws.len() as int;
    let to_remove = min_of(amount, excess(ws, floors, ms, k, 0, n));
    if to_remove == 0 {
        (ws, amount)
    } else {
        let cap = level(ws, floors, ms, k, to_remove);
        let cut = capped(ws, floors, ms, k, cap);
        (
            distribute(cut, floors, ms, k, cap, to_remove - excess(ws, floors, ms, k, cap, n), 0),
            amount - to_remove,
        )
    }
}

/// Shrinking columns by `amount`: token-heavy columns first, then prose, then
/// compact columns; returns the widths and what could not be removed.
pub open spec fn shrink_spec(
    ws: Seq<usize>,
    floors: Seq<usize>,
    ms: Seq<TableColumnMetrics>,
    amount: int,
) -> (Seq<usize>, int) {
    let first = shrink_kind(ws, floors, ms, TableColumnKind::TokenHeavy, amount);
    if first.1 == 0 {
        first
    } else {
        let second = shrink_kind(first.0, floors, ms, TableColumnKind::Narrative, first.1);
        if second.1 == 0 {
            second
        } else {
            shrink_kind(second.0, floors, ms, TableColumnKind::Compact, second.1)
        }
    }
}

/// The total of the first `n` widths.
pub open spec fn total(ws: Seq<usize>, n: int) -> int
    decreases n,
{
    if n <= 0 {
        0
    } else {
        total(ws, n - 1) + ws[n - 1]
    }
}

proof fn lemma_total_prefix(ws: Seq<usize>, i: int, n: int)
    requires
        0 <= i <= n <= ws.len(),
    ensures
        0 <= total(ws, i) <= total(ws, n),
    decreases n - i,
{
    if i < n {
        lemma_total_prefix(ws, i, n - 1);
    } else {
        lemma_total_nonneg(ws, i);
    }
}

proof fn lemma_total_nonneg(ws: Seq<usize>, n: int)
    requires
        n <= ws.len(),
    ensures
        0 <= total(ws, n),
    decreases n,
{
    if n > 0 {
        lemma_total_nonneg(ws, n - 1);
    }
}

/// Narrower columns have a smaller total.
proof fn lemma_total_pointwise(a: Seq<usize>, b: Seq<usize>, n: int)
    requires
        a.len() == b.len(),
        n <= a.len(),
        forall|i: int| 0 <= i < a.len() ==> a[i] <= b[i],
    ensures
        total(a, n) <= total(b, n),
    decreases n,
{
    if n > 0 {
        lemma_total_pointwise(a, b, n - 1);
    }
}

proof fn lemma_excess_bounds(
    ws: Seq<usize>,
    floors: Seq<usize>,
    ms: Seq<TableColumnMetrics>,
    k: TableColumnKind,
    cap: int,
    n: int,
)
    requires
        0 <= cap,
        n <= ws.len(),
        ws.len() == floors.len(),
    ensures
        0 <= excess(ws, floors, ms, k, cap, n) <= total(ws, n),
    decreases n,
{
    if n > 0 {
        lemma_excess_bounds(ws, floors, ms, k, cap, n - 1);
    }
}

/// A higher level removes less.
proof fn lemma_excess_monotone(
    ws: Seq<usize>,
    floors: Seq<usize>,
    ms: Seq<TableColumnMetrics>,
    k: TableColumnKind,
    c1: int,
    c2: int,
    n: int,
)
    requires
        c1 <= c2,
    ensures
        excess(ws, floors, ms, k, c2, n) <= excess(ws, floors, ms, k, c1, n),
    decreases n,
{
    if n > 0 {
        lemma_excess_monotone(ws, floors, ms, k, c1, c2, n - 1);
    }
}

/// At or above the largest slack nothing is removed.
proof fn lemma_excess_at_max(
    ws: Seq<usize>,
    floors: Seq<usize>,
    ms: Seq<TableColumnMetrics>,
    k: TableColumnKind,
    cap: int,
    n: int,
)
    requires
        cap >= max_slack(ws, floors, ms, k, n),
    ensures
        excess(ws, floors, ms, k, cap, n) == 0,
        max_slack(ws, floors, ms, k, n) >= 0,
    decreases n,
{
    if n > 0 {
        lemma_excess_at_max(ws, floors, ms, k, cap, n - 1);
    }
}

/// The level is the lowest one within budget.
proof fn lemma_level_is_lowest(
    ws: Seq<usize>,
    floors: Seq<usize>,
    ms: Seq<TableColumnMetrics>,
    k: TableColumnKind,
    budget: int,
    c: int,
    lowest: int,
    bound: int,
)
    requires
        0 <= c <= lowest <= bound,
        excess(ws, floors, ms, k, lowest, ws.len() as int) <= budget,
        forall|d: int|
            0 <= d < lowest ==> #[trigger] excess(ws, floors, ms, k, d, ws.len() as int) > budget,
    ensures
        level_from(ws, floors, ms, k, budget, c, bound) == lowest,
    decreases lowest - c,
{
    if c < lowest {
        lemma_level_is_lowest(ws, floors, ms, k, budget, c + 1, lowest, bound);
    }
}

fn saturating(a: usize, b: usize) -> (r: usize)
    ensures
        r == sat_sub(a as int, b as int),
{
    if a > b {
        a - b
    } else {
        0
    }
}

/// The width removed when the columns of kind `k` are cut to `cap` above their floors.
fn kind_excess(
    ws: &Vec<usize>,
    floors: &[usize],
    ms: &[TableColumnMetrics],
    k: TableColumnKind,
    cap: usize,
) -> (r: usize)
    requires
        ws@.len() == floors@.len(),
        ws@.len() == ms@.len(),
        total(ws@, ws@.len() as int) <= usize::MAX,
    ensures
        r == excess(ws@, floors@, ms@, k, cap as int, ws@.len() as int),
{
    let n = ws.len();
    let mut acc: usize = 0;
    let mut i: usize = 0;
    while i < n
        invariant
            n == ws@.len(),
            ws@.len() == floors@.len(),
            ws@.len() == ms@.len(),
            total(ws@, n as int) <= usize::MAX,
            0 <= i <= n,
            acc == excess(ws@, floors@, ms@, k, cap as int, i as int),
        decreases n - i,
    {
        proof {
            lemma_excess_bounds(ws@, floors@, ms@, k, cap as int, i + 1);
            lemma_total_prefix(ws@, i + 1, n as int);
        }
        if ms[i].kind == k {
            acc = acc + saturating(saturating(ws[i], floors[i]), cap);
        }
        i = i + 1;
    }
    acc
}

/// The largest slack among the columns of kind `k`.
fn kind_max_slack(ws: &Vec<usize>, floors: &[usize], ms: &[TableColumnMetrics], k: TableColumnKind) -> (r: usize)
    requires
        ws@.len() == floors@.len(),
        ws@.len() == ms@.len(),
    ensures
        r == max_slack(ws@, floors@, ms@, k, ws@.len() as int),
{
    let n = ws.len();
    let mut best: usize = 0;
    let mut i: usize = 0;
    while i < n
        invariant
            n == ws@.len(),
            ws@.len() == floors@.len(),
            ws@.len() == ms@.len(),
            0 <= i <= n,
            best == max_slack(ws@, floors@, ms@, k, i as int),
        decreases n - i,
    {
        if ms[i].kind == k {
            let s = saturating(ws[i], floors[i]);
            if s > best {
                best = s;
            }
        }
        i = i + 1;
    }
    best
}

/// Shrink the columns of kind `k` by up to `amount`, balancing their slack.
fn shrink_kind_exec(
    widths: &mut Vec<usize>,
    floors: &[usize],
    ms: &[TableColumnMetrics],
    k: TableColumnKind,
    amount: usize,
) -> (r: usize)
    requires
        old(widths)@.len() == floors@.len(),
        old(widths)@.len() == ms@.len(),
        total(old(widths)@, old(widths)@.len() as int) <= usize::MAX,
    ensures
        (final(widths)@, r as int) == shrink_kind(old(widths)@, floors@, ms@, k, amount as int),
        final(widths)@.len() == old(widths)@.len(),
        forall|i: int| 0 <= i < final(widths)@.len() ==> final(widths)@[i] <= old(widths)@[i],
{
    let ghost ws0 = widths@;
    let n = widths.len();
    let slack_total = kind_excess(widths, floors, ms, k, 0);
    let to_remove = if amount < slack_total {
        amount
    } else {
        slack_total
    };
    if to_remove == 0 {
        return amount;
    }
    let top = kind_max_slack(widths, floors, ms, k);
    let mut low: usize = 0;
    let mut high: usize = top;
    proof {
        lemma_excess_at_max(ws0, floors@, ms@, k, top as int, n as int);
    }
    while low < high
        invariant
            widths@ == ws0,
            n == ws0.len(),
            ws0.len() == floors@.len(),
            ws0.len() == ms@.len(),
            total(ws0, n as int) <= usize::MAX,
            0 <= low <= high <= top,
            excess(ws0, floors@, ms@, k, high as int, n as int) <= to_remove,
            forall|d: int|
                0 <= d < low ==> #[trigger] excess(ws0, floors@, ms@, k, d, n as int) > to_remove,
        decreases high - low,
    {
        let cap = low + (high - low) / 2;
        let removed = kind_excess(widths, floors, ms, k, cap);
        if removed > to_remove {
            proof {
                assert forall|d: int| 0 <= d < cap + 1 implies #[trigger] excess(
                    ws0,
                    floors@,
                    ms@,
                    k,
                    d,
                    n as int,
                ) > to_remove by {
                    lemma_excess_monotone(ws0, floors@, ms@, k, d, cap as int, n as int);
                }
            }
            low = cap + 1;
        } else {
            high = cap;
        }
    }
    let cap = low;
    proof {
        lemma_level_is_lowest(ws0, floors@, ms@, k, to_remove as int, 0, cap as int, top as int);
        assert(level(ws0, floors@, ms@, k, to_remove as int) == cap);
    }
    let removed_total = kind_excess(widths, floors, ms, k, cap);
    let ghost cut = capped(ws0, floors@, ms@, k, cap as int);
    let mut removed: usize = 0;
    let mut i: usize = 0;
    while i < n
        invariant
            n == ws0.len(),
            widths@.len() == n,
            ws0.len() == floors@.len(),
            ws0.len() == ms@.len(),
            total(ws0, n as int) <= usize::MAX,
            0 <= i <= n,
            removed == excess(ws0, floors@, ms@, k, cap as int, i as int),
            cut == capped(ws0, floors@, ms@, k, cap as int),
            forall|j: int| 0 <= j < i ==> widths@[j] == cut[j],
            forall|j: int| i <= j < n ==> widths@[j] == ws0[j],
        decreases n - i,
    {
        proof {
            lemma_excess_bounds(ws0, floors@, ms@, k, cap as int, i + 1);
            lemma_total_prefix(ws0, i + 1, n as int);
        }
        if ms[i].kind == k {
            let reduction = saturating(saturating(widths[i], floors[i]), cap);
            let w = widths[i] - reduction;
            proof {
                assert(cut[i as int] == w);
            }
            widths.set(i, w);
            removed = removed + reduction;
        } else {
            proof {
                assert(cut[i as int] == widths@[i as int]);
            }
        }
        i = i + 1;
    }
    proof {
        assert(widths@ =~= cut);
        if cap == 0 {
            assert(excess(ws0, floors@, ms@, k, 0, n as int) <= to_remove);
        }
    }
    let mut remainder = to_remove - removed;
    let ghost rem0 = remainder as int;
    let mut j: usize = 0;
    while j < n && remainder > 0
        invariant
            n == ws0.len(),
            widths@.len() == n,
            ws0.len() == floors@.len(),
            ws0.len() == ms@.len(),
            0 <= j <= n,
            cap >= 1 || remainder == 0,
            cut == capped(ws0, floors@, ms@, k, cap as int),
            distribute(cut, floors@, ms@, k, cap as int, rem0, 0) == distribute(
                widths@,
                floors@,
                ms@,
                k,
                cap as int,
                remainder as int,
                j as int,
            ),
            forall|t: int| 0 <= t < n ==> widths@[t] <= cut[t],
        decreases n - j,
    {
        if ms[j].kind == k && saturating(widths[j], floors[j]) == cap {
            let w = widths[j] - 1;
            widths.set(j, w);
            remainder = remainder - 1;
        }
        j = j + 1;
    }
    proof {
        assert(distribute(widths@, floors@, ms@, k, cap as int, remainder as int, j as int) == widths@);
        assert forall|t: int| 0 <= t < n implies cut[t] <= ws0[t] by {
            assert(cut[t] == (if is_kind(ms@, t, k) {
                (ws0[t] - sat_sub(slack(ws0, floors@, t), cap as int)) as usize
            } else {
                ws0[t]
            }));
        }
    }
    amount - to_remove
}

/// Shrink columns by `amount` in priority order, balancing slack within each
/// priority: token-heavy columns give up width before prose, and compact
/// columns last. Returns what could not be removed.
pub fn shrink_columns(
    widths: &mut Vec<usize>,
    floors: &[usize],
    metrics: &[TableColumnMetrics],
    amount: usize,
) -> (r: usize)
    requires
        old(widths)@.len() == floors@.len(),
        old(widths)@.len() == metrics@.len(),
        total(old(widths)@, old(widths)@.len() as int) <= usize::MAX,
    ensures
        (final(widths)@, r as int) == shrink_spec(old(widths)@, floors@, metrics@, amount as int),
{
    let ghost ws0 = widths@;
    let left = shrink_kind_exec(widths, floors, metrics, TableColumnKind::TokenHeavy, amount);
    if left == 0 {
        return 0;
    }
    proof {
        lemma_total_pointwise(widths@, ws0, widths@.len() as int);
    }
    let ghost ws1 = widths@;
    let left = shrink_kind_exec(widths, floors, metrics, TableColumnKind::Narrative, left);
    if left == 0 {
        return 0;
    }
    proof {
        lemma_total_pointwise(widths@, ws1, widths@.len() as int);
        lemma_total_prefix(ws1, widths@.len() as int, widths@.len() as int);
    }
    shrink_kind_exec(widths, floors, metrics, TableColumnKind::Compact, left)
}

/// The preferred minimum width of a column before shrinking goes further.
pub fn preferred_column_floor(metrics: &TableColumnMetrics, min_column_width: usize) -> (r: usize)
    ensures
        r == column_floor(*metrics, min_column_width as int),
{
    let token_target = match metrics.kind {
        TableColumnKind::Compact => {
            let body = if metrics.body_token_width < SOFT_COLUMN_FLOOR {
                metrics.body_token_width
            } else {
                SOFT_COLUMN_FLOOR
            };
            if metrics.header_token_width > body {
                metrics.header_token_width
            } else {
                body
            }
        },
        _ => SOFT_COLUMN_FLOOR,
    };
    let at_least = if token_target > min_column_width {
        token_target
    } else {
        min_column_width
    };
    if at_least < metrics.max_width {
        at_least
    } else {
        metrics.max_width
    }
}

/// The natural width of each column: its widest cell, at least the minimum width.
pub open spec fn natural_widths(ms: Seq<TableColumnMetrics>) -> Seq<usize> {
    Seq::new(ms.len(), |i: int| max_of(ms[i].max_width as int, MIN_COLUMN_WIDTH as int) as usize)
}

/// The preferred floor of each column.
pub open spec fn preferred_floors(ms: Seq<TableColumnMetrics>) -> Seq<usize> {
    Seq::new(ms.len(), |i: int| column_floor(ms[i], MIN_COLUMN_WIDTH as int) as usize)
}

/// The minimum width for each column.
pub open spec fn minimum_widths(n: nat) -> Seq<usize> {
    Seq::new(n, |i: int| MIN_COLUMN_WIDTH)
}

/// Column widths for an aligned table: natural widths when there is no width
/// limit; otherwise natural widths shrunk down to the preferred floors (the
/// floors themselves shrunk towards the minimum when even they do not fit).
/// Nothing when the columns cannot fit at the minimum width, or cannot be
/// shrunk enough without going under their floors.
pub open spec fn column_widths_spec(ms: Seq<TableColumnMetrics>, available: Option<usize>) -> Option<
    Seq<usize>,
> {
    let widths = natural_widths(ms);
    let n = ms.len() as int;
    match available {
        None => Some(widths),
        Some(max_width) => if max_width < n * MIN_COLUMN_WIDTH {
            None
        } else {
            let floors0 = preferred_floors(ms);
            let floor_total = total(floors0, n);
            let floors = if floor_total > max_width {
                shrink_spec(floors0, minimum_widths(n as nat), ms, floor_total - max_width).0
            } else {
                floors0
            };
            let total_width = total(widths, n);
            if total_width > max_width {
                let shrunk = shrink_spec(widths, floors, ms, total_width - max_width);
                if shrunk.1 > 0 {
                    None
                } else {
                    Some(shrunk.0)
                }
            } else {
                Some(widths)
            }
        },
    }
}

fn total_exec(ws: &Vec<usize>) -> (r: usize)
    requires
        total(ws@, ws@.len() as int) <= usize::MAX,
    ensures
        r == total(ws@, ws@.len() as int),
{
    let n = ws.len();
    let mut acc: usize = 0;
    let mut i: usize = 0;
    while i < n
        invariant
            n == ws@.len(),
            total(ws@, n as int) <= usize::MAX,
            0 <= i <= n,
            acc == total(ws@, i as int),
        decreases n - i,
    {
        proof {
            lemma_total_prefix(ws@, i + 1, n as int);
        }
        acc = acc + ws[i];
        i = i + 1;
    }
    acc
}

/// Allocate column widths for aligned, row-separated table rendering: each
/// column starts at its natural width and columns are shrunk by priority
/// until the total fits within `available_width`.
pub fn compute_column_widths(metrics: &[TableColumnMetrics], available_width: Option<usize>) -> (r:
    Option<Vec<usize>>)
    requires
        total(natural_widths(metrics@), metrics@.len() as int) <= usize::MAX,
    ensures
        match r {
            Some(w) => column_widths_spec(metrics@, available_width) == Some(w@),
            None => column_widths_spec(metrics@, available_width) is None,
        },
{
    let n = metrics.len();
    let mut widths: Vec<usize> = Vec::new();
    let mut floors: Vec<usize> = Vec::new();
    let mut minimums: Vec<usize> = Vec::new();
    let mut i: usize = 0;
    while i < n
        invariant
            n == metrics@.len(),
            0 <= i <= n,
            widths@ == natural_widths(metrics@).take(i as int),
            floors@ == preferred_floors(metrics@).take(i as int),
            minimums@ == minimum_widths(n as nat).take(i as int),
        decreases n - i,
    {
        let m = metrics[i];
        let natural = if m.max_width > MIN_COLUMN_WIDTH {
            m.max_width
        } else {
            MIN_COLUMN_WIDTH
        };
        widths.push(natural);
        floors.push(preferred_column_floor(&m, MIN_COLUMN_WIDTH));
        minimums.push(MIN_COLUMN_WIDTH);
        proof {
            assert(widths@ =~= natural_widths(metrics@).take(i + 1));
            assert(floors@ =~= preferred_floors(metrics@).take(i + 1));
            assert(minimums@ =~= minimum_widths(n as nat).take(i + 1));
        }
        i = i + 1;
    }
    proof {
        assert(widths@ =~= natural_widths(metrics@));
        assert(floors@ =~= preferred_floors(metrics@));
        assert(minimums@ =~= minimum_widths(n as nat));
        assert forall|t: int| 0 <= t < n implies floors@[t] <= widths@[t] by {}
        lemma_total_pointwise(floors@, widths@, n as int);
    }
    let max_width = match available_width {
        None => return Some(widths),
        Some(max_width) => max_width,
    };
    if max_width / MIN_COLUMN_WIDTH < n {
        proof {
            assert(max_width < n * MIN_COLUMN_WIDTH) by (nonlinear_arith)
                requires
                    max_width / 3 < n,
            ;
        }
        return None;
    }
    proof {
        assert(max_width >= n * MIN_COLUMN_WIDTH) by (nonlinear_arith)
            requires
                max_width / 3 >= n,
        ;
    }
    let floor_total = total_exec(&floors);
    if floor_total > max_width {
        let ghost floors0 = floors@;
        shrink_columns(&mut floors, minimums.as_slice(), metrics, floor_total - max_width);
        proof {
            lemma_shrink_narrows(floors0, minimums@, metrics@, (floor_total - max_width) as int);
            lemma_total_pointwise(floors@, floors0, n as int);
        }
    }
    let total_width = total_exec(&widths);
    if total_width > max_width {
        let remaining = shrink_columns(&mut widths, floors.as_slice(), metrics, total_width - max_width);
        if remaining > 0 {
            return None;
        }
    }
    Some(widths)
}

/// Shrinking never widens a column.
pub proof fn lemma_shrink_narrows(ws: Seq<usize>, floors: Seq<usize>, ms: Seq<TableColumnMetrics>, amount: int)
    requires
        ws.len() == floors.len(),
        ws.len() == ms.len(),
    ensures
        shrink_spec(ws, floors, ms, amount).0.len() == ws.len(),
        forall|i: int| 0 <= i < ws.len() ==> #[trigger] shrink_spec(ws, floors, ms, amount).0[i] <= ws[i],
{
    let first = shrink_kind(ws, floors, ms, TableColumnKind::TokenHeavy, amount);
    lemma_shrink_kind_narrows(ws, floors, ms, TableColumnKind::TokenHeavy, amount);
    if first.1 != 0 {
        let second = shrink_kind(first.0, floors, ms, TableColumnKind::Narrative, first.1);
        lemma_shrink_kind_narrows(first.0, floors, ms, TableColumnKind::Narrative, first.1);
        if second.1 != 0 {
            lemma_shrink_kind_narrows(second.0, floors, ms, TableColumnKind::Compact, second.1);
        }
    }
}

proof fn lemma_level_from_at_least(
    ws: Seq<usize>,
    floors: Seq<usize>,
    ms: Seq<TableColumnMetrics>,
    k: TableColumnKind,
    budget: int,
    c: int,
    bound: int,
)
    ensures
        level_from(ws, floors, ms, k, budget, c, bound) >= c,
    decreases bound - c,
{
    if !(c >= bound || excess(ws, floors, ms, k, c, ws.len() as int) <= budget) {
        lemma_level_from_at_least(ws, floors, ms, k, budget, c + 1, bound);
    }
}

proof fn lemma_distribute_narrows(
    ws: Seq<usize>,
    floors: Seq<usize>,
    ms: Seq<TableColumnMetrics>,
    k: TableColumnKind,
    cap: int,
    rem: int,
    i: int,
)
    requires
        cap >= 1 || rem <= 0,
        ws.len() == floors.len(),
    ensures
        distribute(ws, floors, ms, k, cap, rem, i).len() == ws.len(),
        forall|t: int|
            0 <= t < ws.len() ==> #[trigger] distribute(ws, floors, ms, k, cap, rem, i)[t] <= ws[t],
    decreases ws.len() - i,
{
    if i >= ws.len() || i < 0 || rem <= 0 {
    } else if is_kind(ms, i, k) && slack(ws, floors, i) == cap {
        let next = ws.update(i, (ws[i] - 1) as usize);
        lemma_distribute_narrows(next, floors, ms, k, cap, rem - 1, i + 1);
    } else {
        lemma_distribute_narrows(ws, floors, ms, k, cap, rem, i + 1);
    }
}

proof fn lemma_shrink_kind_narrows(
    ws: Seq<usize>,
    floors: Seq<usize>,
    ms: Seq<TableColumnMetrics>,
    k: TableColumnKind,
    amount: int,
)
    requires
        ws.len() == floors.len(),
        ws.len() == ms.len(),
    ensures
        shrink_kind(ws, floors, ms, k, amount).0.len() == ws.len(),
        forall|i: int| 0 <= i < ws.len() ==> #[trigger] shrink_kind(ws, floors, ms, k, amount).0[i] <= ws[i],
{
    let n = ws.len() as int;
    let to_remove = min_of(amount, excess(ws, floors, ms, k, 0, n));
    if to_remove != 0 {
        let cap = level(ws, floors, ms, k, to_remove);
        lemma_level_from_at_least(ws, floors, ms, k, to_remove, 0, max_slack(ws, floors, ms, k, n));
        let cut = capped(ws, floors, ms, k, cap);
        let rem = to_remove - excess(ws, floors, ms, k, cap, n);
        assert forall|t: int| 0 <= t < n implies cut[t] <= ws[t] by {
            assert(cut[t] == (if is_kind(ms, t, k) {
                (ws[t] - sat_sub(slack(ws, floors, t), cap)) as usize
            } else {
                ws[t]
            }));
        }
        if cap < 1 && rem > 0 {
            assert(false);
        }
        lemma_distribute_narrows(cut, floors, ms, k, cap, rem, 0);
    }
}

/// How many columns of kind `k` at or after `i` sit exactly at `cap` above their floor.
pub open spec fn count_at_cap(
    ws: Seq<usize>,
    floors: Seq<usize>,
    ms: Seq<TableColumnMetrics>,
    k: TableColumnKind,
    cap: int,
    i: int,
) -> int
    decreases ws.len() - i,
{
    if i < 0 || i >= ws.len() {
        0
    } else {
        (if is_kind(ms, i, k) && slack(ws, floors, i) == cap {
            1int
        } else {
            0int
        }) + count_at_cap(ws, floors, ms, k, cap, i + 1)
    }
}

/// How many of the first `n` columns of kind `k` have a slack of at least `cap`.
pub open spec fn count_reaching(
    ws: Seq<usize>,
    floors: Seq<usize>,
    ms: Seq<TableColumnMetrics>,
    k: TableColumnKind,
    cap: int,
    n: int,
) -> int
    decreases n,
{
    if n <= 0 {
        0
    } else {
        count_reaching(ws, floors, ms, k, cap, n - 1) + if is_kind(ms, n - 1, k) && slack(
            ws,
            floors,
            n - 1,
        ) >= cap {
            1int
        } else {
            0int
        }
    }
}

/// Lowering the level by one removes one more cell from every column that
/// reaches the higher level.
proof fn lemma_excess_step(
    ws: Seq<usize>,
    floors: Seq<usize>,
    ms: Seq<TableColumnMetrics>,
    k: TableColumnKind,
    cap: int,
    n: int,
)
    requires
        cap >= 1,
    ensures
        excess(ws, floors, ms, k, cap - 1, n) == excess(ws, floors, ms, k, cap, n) + count_reaching(
            ws,
            floors,
            ms,
            k,
            cap,
            n,
        ),
    decreases n,
{
    if n > 0 {
        lemma_excess_step(ws, floors, ms, k, cap, n - 1);
    }
}

proof fn lemma_total_capped(
    ws: Seq<usize>,
    floors: Seq<usize>,
    ms: Seq<TableColumnMetrics>,
    k: TableColumnKind,
    cap: int,
    n: int,
)
    requires
        cap >= 0,
        ws.len() == floors.len(),
        0 <= n <= ws.len(),
    ensures
        total(capped(ws, floors, ms, k, cap), n) == total(ws, n) - excess(ws, floors, ms, k, cap, n),
    decreases n,
{
    if n > 0 {
        lemma_total_capped(ws, floors, ms, k, cap, n - 1);
        let c = capped(ws, floors, ms, k, cap);
        assert(c[n - 1] == (if is_kind(ms, n - 1, k) {
            (ws[n - 1] - sat_sub(slack(ws, floors, n - 1), cap)) as usize
        } else {
            ws[n - 1]
        }));
    }
}

/// After cutting to `cap`, the columns at `cap` are those that reached it.
proof fn lemma_capped_at_cap(
    ws: Seq<usize>,
    floors: Seq<usize>,
    ms: Seq<TableColumnMetrics>,
    k: TableColumnKind,
    cap: int,
    i: int,
)
    requires
        cap >= 0,
        ws.len() == floors.len(),
        0 <= i <= ws.len(),
    ensures
        count_at_cap(capped(ws, floors, ms, k, cap), floors, ms, k, cap, i) + count_reaching(
            ws,
            floors,
            ms,
            k,
            cap,
            i,
        ) == count_reaching(ws, floors, ms, k, cap, ws.len() as int),
    decreases ws.len() - i,
{
    if i < ws.len() {
        lemma_capped_at_cap(ws, floors, ms, k, cap, i + 1);
        let c = capped(ws, floors, ms, k, cap);
        assert(c[i] == (if is_kind(ms, i, k) {
            (ws[i] - sat_sub(slack(ws, floors, i), cap)) as usize
        } else {
            ws[i]
        }));
    }
}

/// Columns before `i` do not count towards `count_at_cap` from `i`.
proof fn lemma_count_at_cap_update(
    ws: Seq<usize>,
    floors: Seq<usize>,
    ms: Seq<TableColumnMetrics>,
    k: TableColumnKind,
    cap: int,
    i: int,
    j: int,
    v: usize,
)
    requires
        0 <= j < i,
        j < ws.len(),
    ensures
        count_at_cap(ws.update(j, v), floors, ms, k, cap, i) == count_at_cap(ws, floors, ms, k, cap, i),
    decreases ws.len() - i,
{
    if i < ws.len() {
        lemma_count_at_cap_update(ws, floors, ms, k, cap, i + 1, j, v);
    }
}

proof fn lemma_total_update(ws: Seq<usize>, j: int, v: usize, n: int)
    requires
        0 <= j < ws.len(),
        0 <= n <= ws.len(),
    ensures
        total(ws.update(j, v), n) == total(ws, n) + (if j < n {
            v - ws[j]
        } else {
            0
        }),
    decreases n,
{
    if n > 0 {
        lemma_total_update(ws, j, v, n - 1);
    }
}

/// Handing out `rem` cells removes exactly `rem` when enough columns sit at `cap`.
proof fn lemma_total_distribute(
    ws: Seq<usize>,
    floors: Seq<usize>,
    ms: Seq<TableColumnMetrics>,
    k: TableColumnKind,
    cap: int,
    rem: int,
    i: int,
)
    requires
        cap >= 1,
        ws.len() == floors.len(),
        0 <= i <= ws.len(),
        0 <= rem <= count_at_cap(ws, floors, ms, k, cap, i),
    ensures
        total(distribute(ws, floors, ms, k, cap, rem, i), ws.len() as int) == total(ws, ws.len() as int)
            - rem,
    decreases ws.len() - i,
{
    if i >= ws.len() || rem <= 0 {
    } else if is_kind(ms, i, k) && slack(ws, floors, i) == cap {
        let next = ws.update(i, (ws[i] - 1) as usize);
        lemma_count_at_cap_update(ws, floors, ms, k, cap, i + 1, i, (ws[i] - 1) as usize);
        lemma_total_update(ws, i, (ws[i] - 1) as usize, ws.len() as int);
        lemma_total_distribute(next, floors, ms, k, cap, rem - 1, i + 1);
    } else {
        lemma_total_distribute(ws, floors, ms, k, cap, rem, i + 1);
    }
}

/// Shrinking the columns of one kind removes exactly what it reports.
proof fn lemma_total_shrink_kind(
    ws: Seq<usize>,
    floors: Seq<usize>,
    ms: Seq<TableColumnMetrics>,
    k: TableColumnKind,
    amount: int,
)
    requires
        ws.len() == floors.len(),
        ws.len() == ms.len(),
        amount >= 0,
    ensures
        total(shrink_kind(ws, floors, ms, k, amount).0, ws.len() as int) == total(ws, ws.len() as int)
            - (amount - shrink_kind(ws, floors, ms, k, amount).1),
        0 <= shrink_kind(ws, floors, ms, k, amount).1 <= amount,
        shrink_kind(ws, floors, ms, k, amount).0.len() == ws.len(),
{
    let n = ws.len() as int;
    lemma_shrink_kind_narrows(ws, floors, ms, k, amount);
    lemma_excess_bounds(ws, floors, ms, k, 0, n);
    let to_remove = min_of(amount, excess(ws, floors, ms, k, 0, n));
    if to_remove != 0 {
        let bound = max_slack(ws, floors, ms, k, n);
        let cap = level(ws, floors, ms, k, to_remove);
        lemma_level_from_at_least(ws, floors, ms, k, to_remove, 0, bound);
        lemma_excess_at_max(ws, floors, ms, k, bound, n);
        lemma_level_within_budget(ws, floors, ms, k, to_remove, 0, bound);
        let cut = capped(ws, floors, ms, k, cap);
        let rem = to_remove - excess(ws, floors, ms, k, cap, n);
        lemma_total_capped(ws, floors, ms, k, cap, n);
        lemma_capped_at_cap(ws, floors, ms, k, cap, 0);
        if cap >= 1 {
            lemma_level_below(ws, floors, ms, k, to_remove, 0, bound);
            lemma_excess_step(ws, floors, ms, k, cap, n);
            lemma_total_distribute(cut, floors, ms, k, cap, rem, 0);
        }
    }
}

/// The level found is within budget.
proof fn lemma_level_within_budget(
    ws: Seq<usize>,
    floors: Seq<usize>,
    ms: Seq<TableColumnMetrics>,
    k: TableColumnKind,
    budget: int,
    c: int,
    bound: int,
)
    requires
        excess(ws, floors, ms, k, bound, ws.len() as int) <= budget,
    ensures
        excess(ws, floors, ms, k, level_from(ws, floors, ms, k, budget, c, bound), ws.len() as int)
            <= budget || level_from(ws, floors, ms, k, budget, c, bound) > bound,
    decreases bound - c,
{
    if !(c >= bound || excess(ws, floors, ms, k, c, ws.len() as int) <= budget) {
        lemma_level_within_budget(ws, floors, ms, k, budget, c + 1, bound);
    } else if c > bound {
    }
}

/// Just below a positive level, the budget is exceeded.
proof fn lemma_level_below(
    ws: Seq<usize>,
    floors: Seq<usize>,
    ms: Seq<TableColumnMetrics>,
    k: TableColumnKind,
    budget: int,
    c: int,
    bound: int,
)
    requires
        0 <= c <= bound,
        c == 0 || excess(ws, floors, ms, k, c - 1, ws.len() as int) > budget,
    ensures
        level_from(ws, floors, ms, k, budget, c, bound) <= bound,
        level_from(ws, floors, ms, k, budget, c, bound) == 0 || excess(
            ws,
            floors,
            ms,
            k,
            level_from(ws, floors, ms, k, budget, c, bound) - 1,
            ws.len() as int,
        ) > budget,
    decreases bound - c,
{
    if !(c >= bound || excess(ws, floors, ms, k, c, ws.len() as int) <= budget) {
        lemma_level_below(ws, floors, ms, k, budget, c + 1, bound);
    }
}

/// Shrinking removes exactly `amount` minus what it reports as left over:
/// the widths lose that many cells in total.
pub proof fn lemma_shrink_removes_what_it_reports(
    ws: Seq<usize>,
    floors: Seq<usize>,
    ms: Seq<TableColumnMetrics>,
    amount: int,
)
    requires
        ws.len() == floors.len(),
        ws.len() == ms.len(),
        amount >= 0,
    ensures
        total(shrink_spec(ws, floors, ms, amount).0, ws.len() as int) == total(ws, ws.len() as int) - (
        amount - shrink_spec(ws, floors, ms, amount).1),
        0 <= shrink_spec(ws, floors, ms, amount).1 <= amount,
{
    lemma_total_shrink_kind(ws, floors, ms, TableColumnKind::TokenHeavy, amount);
    let first = shrink_kind(ws, floors, ms, TableColumnKind::TokenHeavy, amount);
    if first.1 != 0 {
        lemma_total_shrink_kind(first.0, floors, ms, TableColumnKind::Narrative, first.1);
        let second = shrink_kind(first.0, floors, ms, TableColumnKind::Narrative, first.1);
        if second.1 != 0 {
            lemma_total_shrink_kind(second.0, floors, ms, TableColumnKind::Compact, second.1);
        }
    }
}

/// When a width limit is given and widths come back, they fit within it.
pub proof fn lemma_column_widths_fit(ms: Seq<TableColumnMetrics>, available: usize)
    requires
        column_widths_spec(ms, Some(available)) is Some,
    ensures
        total(column_widths_spec(ms, Some(available))->0, ms.len() as int) <= available,
        column_widths_spec(ms, Some(available))->0.len() == ms.len(),
{
    let n = ms.len() as int;
    let widths = natural_widths(ms);
    let floors0 = preferred_floors(ms);
    let floor_total = total(floors0, n);
    let floors = if floor_total > available {
        shrink_spec(floors0, minimum_widths(n as nat), ms, floor_total - available).0
    } else {
        floors0
    };
    if floor_total > available {
        lemma_shrink_narrows(floors0, minimum_widths(n as nat), ms, floor_total - available);
    }
    let total_width = total(widths, n);
    if total_width > available {
        lemma_shrink_removes_what_it_reports(widths, floors, ms, total_width - available);
        lemma_shrink_narrows(widths, floors, ms, total_width - available);
    }
}

proof fn lemma_distribute_keeps_others(
    ws: Seq<usize>,
    floors: Seq<usize>,
    ms: Seq<TableColumnMetrics>,
    k: TableColumnKind,
    cap: int,
    rem: int,
    i: int,
)
    ensures
        forall|t: int|
            0 <= t < ws.len() && !is_kind(ms, t, k) ==> #[trigger] distribute(ws, floors, ms, k, cap, rem, i)[t]
                == ws[t],
    decreases ws.len() - i,
{
    if i >= ws.len() || i < 0 || rem <= 0 {
        assert(distribute(ws, floors, ms, k, cap, rem, i) == ws);
    } else if is_kind(ms, i, k) && slack(ws, floors, i) == cap {
        let next = ws.update(i, (ws[i] - 1) as usize);
        lemma_distribute_keeps_others(next, floors, ms, k, cap, rem - 1, i + 1);
        assert forall|t: int| 0 <= t < ws.len() && !is_kind(ms, t, k) implies #[trigger] distribute(
            ws,
            floors,
            ms,
            k,
            cap,
            rem,
            i,
        )[t] == ws[t] by {
            assert(distribute(ws, floors, ms, k, cap, rem, i) == distribute(next, floors, ms, k, cap, rem - 1, i + 1));
            assert(t != i);
            assert(distribute(next, floors, ms, k, cap, rem - 1, i + 1)[t] == next[t]);
            assert(next[t] == ws[t]);
        }
    } else {
        lemma_distribute_keeps_others(ws, floors, ms, k, cap, rem, i + 1);
        assert(distribute(ws, floors, ms, k, cap, rem, i) == distribute(ws, floors, ms, k, cap, rem, i + 1));
    }
}

/// Shrinking the columns of one kind leaves the others as they were.
proof fn lemma_shrink_kind_keeps_others(
    ws: Seq<usize>,
    floors: Seq<usize>,
    ms: Seq<TableColumnMetrics>,
    k: TableColumnKind,
    amount: int,
)
    ensures
        forall|t: int|
            0 <= t < ws.len() && !is_kind(ms, t, k) ==> #[trigger] shrink_kind(ws, floors, ms, k, amount).0[t]
                == ws[t],
{
    let n = ws.len() as int;
    let to_remove = min_of(amount, excess(ws, floors, ms, k, 0, n));
    if to_remove != 0 {
        let cap = level(ws, floors, ms, k, to_remove);
        let cut = capped(ws, floors, ms, k, cap);
        lemma_distribute_keeps_others(cut, floors, ms, k, cap, to_remove - excess(ws, floors, ms, k, cap, n), 0);
    }
}

/// The slack of the columns of kind `k` depends on those columns alone.
proof fn lemma_excess_same_columns(
    a: Seq<usize>,
    b: Seq<usize>,
    floors: Seq<usize>,
    ms: Seq<TableColumnMetrics>,
    k: TableColumnKind,
    cap: int,
    n: int,
)
    requires
        n <= a.len(),
        n <= b.len(),
        forall|t: int| 0 <= t < n && is_kind(ms, t, k) ==> a[t] == b[t],
    ensures
        excess(a, floors, ms, k, cap, n) == excess(b, floors, ms, k, cap, n),
    decreases n,
{
    if n > 0 {
        lemma_excess_same_columns(a, b, floors, ms, k, cap, n - 1);
    }
}

/// The slack of all three kinds together is at least how far the widths
/// stand above their floors in total.
proof fn lemma_kinds_cover(ws: Seq<usize>, floors: Seq<usize>, ms: Seq<TableColumnMetrics>, n: int)
    requires
        n <= ws.len(),
        n <= floors.len(),
        n <= ms.len(),
    ensures
        excess(ws, floors, ms, TableColumnKind::TokenHeavy, 0, n) + excess(
            ws,
            floors,
            ms,
            TableColumnKind::Narrative,
            0,
            n,
        ) + excess(ws, floors, ms, TableColumnKind::Compact, 0, n) >= total(ws, n) - total(floors, n),
    decreases n,
{
    if n > 0 {
        lemma_kinds_cover(ws, floors, ms, n - 1);
    }
}

/// What shrinking reports as left over: the part of `amount` beyond the
/// slack of all columns above their floors (so nothing is left over when
/// the columns together stand at least `amount` above their floors).
pub proof fn lemma_shrink_leftover(ws: Seq<usize>, floors: Seq<usize>, ms: Seq<TableColumnMetrics>, amount: int)
    requires
        ws.len() == floors.len(),
        ws.len() == ms.len(),
        amount >= 0,
    ensures
        shrink_spec(ws, floors, ms, amount).1 == sat_sub(
            amount,
            excess(ws, floors, ms, TableColumnKind::TokenHeavy, 0, ws.len() as int) + excess(
                ws,
                floors,
                ms,
                TableColumnKind::Narrative,
                0,
                ws.len() as int,
            ) + excess(ws, floors, ms, TableColumnKind::Compact, 0, ws.len() as int),
        ),
{
    let n = ws.len() as int;
    let et = excess(ws, floors, ms, TableColumnKind::TokenHeavy, 0, n);
    let en = excess(ws, floors, ms, TableColumnKind::Narrative, 0, n);
    let ec = excess(ws, floors, ms, TableColumnKind::Compact, 0, n);
    lemma_excess_bounds(ws, floors, ms, TableColumnKind::TokenHeavy, 0, n);
    lemma_excess_bounds(ws, floors, ms, TableColumnKind::Narrative, 0, n);
    lemma_excess_bounds(ws, floors, ms, TableColumnKind::Compact, 0, n);
    let first = shrink_kind(ws, floors, ms, TableColumnKind::TokenHeavy, amount);
    lemma_shrink_kind_narrows(ws, floors, ms, TableColumnKind::TokenHeavy, amount);
    lemma_shrink_kind_keeps_others(ws, floors, ms, TableColumnKind::TokenHeavy, amount);
    if first.1 != 0 {
        let w1 = first.0;
        lemma_excess_same_columns(w1, ws, floors, ms, TableColumnKind::Narrative, 0, n);
        lemma_excess_same_columns(w1, ws, floors, ms, TableColumnKind::Compact, 0, n);
        let second = shrink_kind(w1, floors, ms, TableColumnKind::Narrative, first.1);
        lemma_shrink_kind_narrows(w1, floors, ms, TableColumnKind::Narrative, first.1);
        lemma_shrink_kind_keeps_others(w1, floors, ms, TableColumnKind::Narrative, first.1);
        if second.1 != 0 {
            lemma_excess_same_columns(second.0, w1, floors, ms, TableColumnKind::Compact, 0, n);
        }
    }
}

proof fn lemma_total_minimums(n: nat, m: int)
    requires
        0 <= m <= n,
    ensures
        total(minimum_widths(n), m) == m * MIN_COLUMN_WIDTH,
    decreases m,
{
    if m > 0 {
        lemma_total_minimums(n, m - 1);
    }
}

/// A width limit gives the columns widths exactly when it leaves each of
/// them at least its minimum width of 3: `None` comes back exactly when
/// `available` is below three times the number of columns.
pub proof fn lemma_column_widths_found(ms: Seq<TableColumnMetrics>, available: usize)
    ensures
        column_widths_spec(ms, Some(available)) is None <==> available < ms.len() * MIN_COLUMN_WIDTH,
{
    let n = ms.len() as int;
    if available >= n * MIN_COLUMN_WIDTH {
        let widths = natural_widths(ms);
        let floors0 = preferred_floors(ms);
        let mins = minimum_widths(n as nat);
        let floor_total = total(floors0, n);
        lemma_total_minimums(n as nat, n);
        let floors = if floor_total > available {
            shrink_spec(floors0, mins, ms, floor_total - available).0
        } else {
            floors0
        };
        if floor_total > available {
            lemma_kinds_cover(floors0, mins, ms, n);
            lemma_shrink_leftover(floors0, mins, ms, floor_total - available);
            lemma_shrink_removes_what_it_reports(floors0, mins, ms, floor_total - available);
            lemma_shrink_narrows(floors0, mins, ms, floor_total - available);
        }
        assert(total(floors, n) <= available);
        assert(floors.len() == n);
        let total_width = total(widths, n);
        if total_width > available {
            lemma_kinds_cover(widths, floors, ms, n);
            lemma_shrink_leftover(widths, floors, ms, total_width - available);
        }
    }
}

proof fn lemma_distribute_floor(
    ws: Seq<usize>,
    floors: Seq<usize>,
    ms: Seq<TableColumnMetrics>,
    k: TableColumnKind,
    cap: int,
    rem: int,
    i: int,
    base: Seq<usize>,
)
    requires
        cap >= 1 || rem <= 0,
        ws.len() == floors.len(),
        ws.len() == base.len(),
        forall|t: int| 0 <= t < ws.len() ==> ws[t] >= min_of(base[t] as int, floors[t] as int),
    ensures
        forall|t: int|
            0 <= t < ws.len() ==> #[trigger] distribute(ws, floors, ms, k, cap, rem, i)[t] >= min_of(
                base[t] as int,
                floors[t] as int,
            ),
    decreases ws.len() - i,
{
    if i >= ws.len() || i < 0 || rem <= 0 {
        assert(distribute(ws, floors, ms, k, cap, rem, i) == ws);
    } else if is_kind(ms, i, k) && slack(ws, floors, i) == cap {
        let next = ws.update(i, (ws[i] - 1) as usize);
        assert forall|t: int| 0 <= t < next.len() implies next[t] >= min_of(base[t] as int, floors[t] as int) by {
            if t != i {
                assert(next[t] == ws[t]);
            }
        }
        lemma_distribute_floor(next, floors, ms, k, cap, rem - 1, i + 1, base);
        assert(distribute(ws, floors, ms, k, cap, rem, i) == distribute(next, floors, ms, k, cap, rem - 1, i + 1));
    } else {
        lemma_distribute_floor(ws, floors, ms, k, cap, rem, i + 1, base);
        assert(distribute(ws, floors, ms, k, cap, rem, i) == distribute(ws, floors, ms, k, cap, rem, i + 1));
    }
}

proof fn lemma_shrink_kind_floor(
    ws: Seq<usize>,
    floors: Seq<usize>,
    ms: Seq<TableColumnMetrics>,
    k: TableColumnKind,
    amount: int,
    base: Seq<usize>,
)
    requires
        ws.len() == floors.len(),
        ws.len() == ms.len(),
        ws.len() == base.len(),
        forall|t: int| 0 <= t < ws.len() ==> ws[t] >= min_of(base[t] as int, floors[t] as int),
    ensures
        forall|t: int|
            0 <= t < ws.len() ==> #[trigger] shrink_kind(ws, floors, ms, k, amount).0[t] >= min_of(
                base[t] as int,
                floors[t] as int,
            ),
{
    let n = ws.len() as int;
    let to_remove = min_of(amount, excess(ws, floors, ms, k, 0, n));
    if to_remove != 0 {
        let cap = level(ws, floors, ms, k, to_remove);
        lemma_level_from_at_least(ws, floors, ms, k, to_remove, 0, max_slack(ws, floors, ms, k, n));
        let cut = capped(ws, floors, ms, k, cap);
        let rem = to_remove - excess(ws, floors, ms, k, cap, n);
        assert forall|t: int| 0 <= t < n implies cut[t] >= min_of(base[t] as int, floors[t] as int) by {
            assert(cut[t] == (if is_kind(ms, t, k) {
                (ws[t] - sat_sub(slack(ws, floors, t), cap)) as usize
            } else {
                ws[t]
            }));
        }
        if cap < 1 && rem > 0 {
            lemma_excess_bounds(ws, floors, ms, k, cap, n);
            lemma_level_within_budget(ws, floors, ms, k, to_remove, 0, max_slack(ws, floors, ms, k, n));
            lemma_excess_at_max(ws, floors, ms, k, max_slack(ws, floors, ms, k, n), n);
        }
        lemma_distribute_floor(cut, floors, ms, k, cap, rem, 0, base);
    }
}

/// Shrinking never takes a column below its floor, nor below its width
/// when it started under its floor.
pub proof fn lemma_shrink_keeps_floors(ws: Seq<usize>, floors: Seq<usize>, ms: Seq<TableColumnMetrics>, amount: int)
    requires
        ws.len() == floors.len(),
        ws.len() == ms.len(),
    ensures
        forall|t: int|
            0 <= t < ws.len() ==> #[trigger] shrink_spec(ws, floors, ms, amount).0[t] >= min_of(
                ws[t] as int,
                floors[t] as int,
            ),
{
    lemma_shrink_kind_floor(ws, floors, ms, TableColumnKind::TokenHeavy, amount, ws);
    lemma_shrink_kind_narrows(ws, floors, ms, TableColumnKind::TokenHeavy, amount);
    let first = shrink_kind(ws, floors, ms, TableColumnKind::TokenHeavy, amount);
    if first.1 != 0 {
        lemma_shrink_kind_floor(first.0, floors, ms, TableColumnKind::Narrative, first.1, ws);
        lemma_shrink_kind_narrows(first.0, floors, ms, TableColumnKind::Narrative, first.1);
        let second = shrink_kind(first.0, floors, ms, TableColumnKind::Narrative, first.1);
        if second.1 != 0 {
            lemma_shrink_kind_floor(second.0, floors, ms, TableColumnKind::Compact, second.1, ws);
        }
    }
}

/// Each column width that comes back lies between the smaller of the
/// column's preferred floor and the minimum width of 3, and its natural
/// width.
pub proof fn lemma_column_width_bounds(ms: Seq<TableColumnMetrics>, available: Option<usize>)
    requires
        column_widths_spec(ms, available) is Some,
    ensures
        column_widths_spec(ms, available)->0.len() == ms.len(),
        forall|i: int|
            0 <= i < ms.len() ==> min_of(preferred_floors(ms)[i] as int, MIN_COLUMN_WIDTH as int)
                <= #[trigger] column_widths_spec(ms, available)->0[i] <= natural_widths(ms)[i],
{
    let n = ms.len() as int;
    let widths = natural_widths(ms);
    let floors0 = preferred_floors(ms);
    if let Some(a) = available {
        let mins = minimum_widths(n as nat);
        let floor_total = total(floors0, n);
        let floors = if floor_total > a {
            shrink_spec(floors0, mins, ms, floor_total - a).0
        } else {
            floors0
        };
        if floor_total > a {
            lemma_shrink_keeps_floors(floors0, mins, ms, floor_total - a);
            lemma_shrink_narrows(floors0, mins, ms, floor_total - a);
        }
        assert forall|i: int| 0 <= i < n implies floors[i] >= min_of(floors0[i] as int, MIN_COLUMN_WIDTH as int)
            && floors0[i] <= widths[i] by {
            assert(floors0[i] == column_floor(ms[i], MIN_COLUMN_WIDTH as int) as usize);
            assert(widths[i] == max_of(ms[i].max_width as int, MIN_COLUMN_WIDTH as int) as usize);
            if floor_total > a {
                assert(mins[i] == MIN_COLUMN_WIDTH);
            }
        }
        let total_width = total(widths, n);
        if total_width > a {
            lemma_shrink_keeps_floors(widths, floors, ms, total_width - a);
            lemma_shrink_narrows(widths, floors, ms, total_width - a);
        }
    }
}

/// The order in which kinds of columns give up width: when the token-heavy
/// columns can give up `amount` on their own, no other column changes; when
/// the token-heavy and prose columns together can, the compact columns do
/// not change.
pub proof fn lemma_shrink_order(ws: Seq<usize>, floors: Seq<usize>, ms: Seq<TableColumnMetrics>, amount: int)
    requires
        ws.len() == floors.len(),
        ws.len() == ms.len(),
        amount >= 0,
    ensures
        amount <= excess(ws, floors, ms, TableColumnKind::TokenHeavy, 0, ws.len() as int) ==> forall|t: int|
            0 <= t < ws.len() && !is_kind(ms, t, TableColumnKind::TokenHeavy) ==> #[trigger] shrink_spec(
                ws,
                floors,
                ms,
                amount,
            ).0[t] == ws[t],
        amount <= excess(ws, floors, ms, TableColumnKind::TokenHeavy, 0, ws.len() as int) + excess(
            ws,
            floors,
            ms,
            TableColumnKind::Narrative,
            0,
            ws.len() as int,
        ) ==> forall|t: int|
            0 <= t < ws.len() && is_kind(ms, t, TableColumnKind::Compact) ==> #[trigger] shrink_spec(
                ws,
                floors,
                ms,
                amount,
            ).0[t] == ws[t],
{
    let n = ws.len() as int;
    lemma_excess_bounds(ws, floors, ms, TableColumnKind::TokenHeavy, 0, n);
    lemma_shrink_kind_keeps_others(ws, floors, ms, TableColumnKind::TokenHeavy, amount);
    lemma_shrink_kind_narrows(ws, floors, ms, TableColumnKind::TokenHeavy, amount);
    let first = shrink_kind(ws, floors, ms, TableColumnKind::TokenHeavy, amount);
    if first.1 != 0 {
        lemma_excess_same_columns(first.0, ws, floors, ms, TableColumnKind::Narrative, 0, n);
        lemma_shrink_kind_keeps_others(first.0, floors, ms, TableColumnKind::Narrative, first.1);
    }
}

} // verus!
