//! The rows of the inline frame below the scrollback: the startup header,
//! the streaming answer, the input area, the footer and the status line.

use vstd::prelude::*;

verus! {

/// The most rows of a streaming answer shown below the history.
pub const MAX_LIVE_ROWS: usize = 8;

/// The narrowest width a cramped header is laid out at.
pub const CRAMPED_HEADER_WIDTH: u16 = 35;

/// `a - b`, or 0 when `b` is larger.
pub open spec fn sat(a: int, b: int) -> int {
    if a > b {
        a - b
    } else {
        0
    }
}

/// The smaller of two numbers.
pub open spec fn min2(a: int, b: int) -> int {
    if a < b {
        a
    } else {
        b
    }
}

/// The rows left for the header above the input area and its two rows of
/// footer and status.
pub open spec fn header_room(height: u16, input_height: u16) -> int {
    sat(height as int, input_height + 2)
}

/// The width that the startup header is laid out at, if it is shown: not
/// under a prompt, nor with fewer than two rows of room; cramped to 35
/// columns with fewer than six.
pub open spec fn header_width_spec(width: u16, height: u16, input_height: u16, prompt_shown: bool) -> Option<u16> {
    let room = header_room(height, input_height);
    if prompt_shown || room < 2 {
        None
    } else if room < 6 {
        Some(min2(width as int, CRAMPED_HEADER_WIDTH as int) as u16)
    } else {
        Some(width)
    }
}

/// The width that the startup header is laid out at, if it is shown.
pub fn header_width(width: u16, height: u16, input_height: u16, prompt_shown: bool) -> (r: Option<u16>)
    requires
        input_height + 2 <= u16::MAX,
    ensures
        r == header_width_spec(width, height, input_height, prompt_shown),
{
    let room: u16 = if height > input_height + 2 {
        height - (input_height + 2)
    } else {
        0
    };
    if prompt_shown || room < 2 {
        None
    } else if room < 6 {
        Some(if width < CRAMPED_HEADER_WIDTH {
            width
        } else {
            CRAMPED_HEADER_WIDTH
        })
    } else {
        Some(width)
    }
}

/// Where the parts of the frame go.
#[derive(Clone, Copy, Debug, PartialEq, Eq, Structural)]
pub struct FrameLayout {
    /// Rows of the startup header.
    pub header_height: u16,
    /// Rows of the streaming answer.
    pub live_height: u16,
    /// Rows of the whole frame.
    pub height: u16,
    /// The row where the frame starts.
    pub y: u16,
    /// Newlines printed first, to scroll the history up for a taller frame.
    pub scroll_lines: u16,
    /// The first line of the streaming answer shown (its last lines are).
    pub live_first: usize,
    /// Rows of the input area.
    pub editor_height: u16,
    /// Whether the footer and status lines are drawn.
    pub footer: bool,
}

/// The layout of the frame in a terminal of `width` by `height`, with an
/// input area of `input_height` rows, a header of `header_lines` lines
/// (dropped when it does not fit its room), a streaming answer of
/// `live_lines` lines (its last eight at most) and the frame previously
/// starting at `previous_y`; nothing for an empty terminal.
pub open spec fn frame_layout_spec(
    width: u16,
    height: u16,
    input_height: u16,
    header_lines: usize,
    live_lines: usize,
    previous_y: u16,
) -> Option<FrameLayout> {
    if width == 0 || height == 0 {
        None
    } else {
        let header = if header_lines > header_room(height, input_height) {
            0
        } else {
            header_lines as int
        };
        let live = min2(min2(live_lines as int, MAX_LIVE_ROWS as int), sat(height as int, header + input_height + 2));
        let total = min2(header + input_height + live + 2, height as int);
        let area = sat(total, header);
        let live_area = min2(live, area);
        Some(
            FrameLayout {
                header_height: header as u16,
                live_height: live as u16,
                height: total as u16,
                y: min2(previous_y as int, sat(height as int, total)) as u16,
                scroll_lines: sat(previous_y + total, height as int) as u16,
                live_first: sat(live_lines as int, live_area) as usize,
                editor_height: sat(area, live_area + 2) as u16,
                footer: area >= 2,
            },
        )
    }
}

fn sat_u32(a: u32, b: u32) -> (r: u32)
    ensures
        r == sat(a as int, b as int),
{
    if a > b {
        a - b
    } else {
        0
    }
}

fn min_u32(a: u32, b: u32) -> (r: u32)
    ensures
        r == min2(a as int, b as int),
{
    if a < b {
        a
    } else {
        b
    }
}

/// The layout of the frame; see `frame_layout_spec`.
pub fn frame_layout(width: u16, height: u16, input_height: u16, header_lines: usize, live_lines: usize, previous_y: u16) -> (r:
    Option<FrameLayout>)
    requires
        input_height + 2 <= u16::MAX,
    ensures
        r == frame_layout_spec(width, height, input_height, header_lines, live_lines, previous_y),
{
    if width == 0 || height == 0 {
        return None;
    }
    let h = height as u32;
    let room = sat_u32(h, input_height as u32 + 2);
    let header: u32 = if header_lines > room as usize {
        0
    } else {
        header_lines as u32
    };
    let capped: u32 = if live_lines < MAX_LIVE_ROWS {
        live_lines as u32
    } else {
        MAX_LIVE_ROWS as u32
    };
    let live = min_u32(capped, sat_u32(h, header + input_height as u32 + 2));
    let total = min_u32(header + input_height as u32 + live + 2, h);
    let area = sat_u32(total, header);
    let live_area = min_u32(live, area);
    let y = min_u32(previous_y as u32, sat_u32(h, total));
    let scroll = sat_u32(previous_y as u32 + total, h);
    let live_first: usize = if live_lines > live_area as usize {
        live_lines - live_area as usize
    } else {
        0
    };
    let editor = sat_u32(area, live_area + 2);
    Some(
        FrameLayout {
            header_height: header as u16,
            live_height: live as u16,
            height: total as u16,
            y: y as u16,
            scroll_lines: scroll as u16,
            live_first,
            editor_height: editor as u16,
            footer: area >= 2,
        },
    )
}

} // verus!
