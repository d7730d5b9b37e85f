//! Replaying the conversation into a resized terminal: which messages are
//! drawn again, within how many rows, and how tall the input area stays.

use vstd::prelude::*;

verus! {

/// The most history rows drawn again.
pub const MAX_REPLAY_ROWS: usize = 1000;

/// What a replay draws.
#[derive(Clone, Copy, Debug, PartialEq, Eq, Structural)]
pub struct ReplayPlan {
    /// The oldest message drawn; the ones after it follow in order.
    pub first_message: usize,
    /// Whether the startup banner comes first.
    pub with_startup: bool,
    /// How many of the leading rows (banner, then messages) are left out.
    pub skipped_rows: usize,
    /// Whether a line pointing at `/transcript` replaces them.
    pub notice: bool,
    /// The height of the input area.
    pub viewport_height: u16,
}

/// Walking back from message `i` with `count` rows gathered: the oldest
/// message drawn and the rows of the messages drawn. The walk stops at the
/// first message that takes the count past the budget, that message
/// included.
pub open spec fn walk_back(lens: Seq<usize>, i: int, count: int) -> (int, int)
    decreases i,
{
    if i <= 0 {
        (0, count)
    } else {
        let c = count + lens[i - 1];
        if c > MAX_REPLAY_ROWS {
            (i - 1, c)
        } else {
            walk_back(lens, i - 1, c)
        }
    }
}

/// The replay of a history whose messages take `lens` rows each, after a
/// startup banner of `startup` rows if there is one, in a terminal of the
/// given size: nothing for an empty history or a terminal without room;
/// otherwise the newest messages up to the first that passes 1000 rows, the
/// banner only when everything fits, and, past 1000 rows, the oldest ones
/// left out for a notice so that 1000 rows remain. The input area keeps
/// its height, but leaves a row and has at least one.
pub open spec fn replay_spec(lens: Seq<usize>, startup: Option<usize>, width: u16, height: u16, input_height: u16) -> Option<
    ReplayPlan,
> {
    if lens.len() == 0 || width == 0 || height < 2 {
        None
    } else {
        let (first, count) = walk_back(lens, lens.len() as int, 0);
        let with_startup = count <= MAX_REPLAY_ROWS && startup is Some;
        let rows = count + if with_startup {
            startup->0 as int
        } else {
            0
        };
        let shown = if input_height < height - 1 {
            input_height as int
        } else {
            height - 1
        };
        Some(
            ReplayPlan {
                first_message: first as usize,
                with_startup,
                skipped_rows: if rows > MAX_REPLAY_ROWS {
                    (rows - MAX_REPLAY_ROWS + 1) as usize
                } else {
                    0
                },
                notice: rows > MAX_REPLAY_ROWS,
                viewport_height: if shown < 1 {
                    1
                } else {
                    shown as u16
                },
            },
        )
    }
}

/// What a replay draws; see `replay_spec`.
pub fn replay_plan(lens: &[usize], startup: Option<usize>, width: u16, height: u16, input_height: u16) -> (r:
    Option<ReplayPlan>)
    requires
        forall|k: int| 0 <= k < lens@.len() ==> #[trigger] lens@[k] <= isize::MAX,
        startup matches Some(n) ==> n <= isize::MAX,
    ensures
        r == replay_spec(lens@, startup, width, height, input_height),
{
    if lens.len() == 0 || width == 0 || height < 2 {
        return None;
    }
    let mut i: usize = lens.len();
    let mut count: usize = 0;
    while i > 0
        invariant_except_break
            0 <= i <= lens@.len(),
            count <= MAX_REPLAY_ROWS,
            walk_back(lens@, lens@.len() as int, 0) == walk_back(lens@, i as int, count as int),
        invariant
            forall|k: int| 0 <= k < lens@.len() ==> #[trigger] lens@[k] <= isize::MAX,
        ensures
            walk_back(lens@, lens@.len() as int, 0) == (i as int, count as int),
            count <= MAX_REPLAY_ROWS + isize::MAX,
        decreases i,
    {
        let len = lens[i - 1];
        count = count + len;
        i = i - 1;
        if count > MAX_REPLAY_ROWS {
            break;
        }
    }
    let with_startup = count <= MAX_REPLAY_ROWS && startup.is_some();
    let extra: usize = match startup {
        Some(n) => if with_startup {
            n
        } else {
            0
        },
        None => 0,
    };
    let rows = count + extra;
    let (skipped_rows, notice) = if rows > MAX_REPLAY_ROWS {
        (rows - MAX_REPLAY_ROWS + 1, true)
    } else {
        (0, false)
    };
    let shown: u16 = if input_height < height - 1 {
        input_height
    } else {
        height - 1
    };
    let viewport_height: u16 = if shown < 1 {
        1
    } else {
        shown
    };
    Some(ReplayPlan { first_message: i, with_startup, skipped_rows, notice, viewport_height })
}

} // verus!
