//! What a rendered Markdown link leaves after its label once it closes: its
//! destination in parentheses, its local target, or nothing.

use vstd::prelude::*;

verus! {

/// What follows the label of a closed link.
#[derive(Clone, Copy, Debug, PartialEq, Eq, Structural)]
pub enum LinkSuffix {
    /// ` (destination)`, in the table cell being built when `in_cell`.
    Destination { in_cell: bool },
    /// The link's local target, after the label and ` (` when `with_label`
    /// (then closed by `)`). Outside a table cell a pending list marker first
    /// gets a line of its own (`new_line_first`), and the line is marked as
    /// ending with a local link target.
    LocalTarget { with_label: bool, in_cell: bool, new_line_first: bool },
    /// Nothing.
    Nothing,
}

/// The suffix of a closed link: its destination when it was to be shown, or
/// when it is a web link whose label shows nothing; otherwise its local
/// target when it has one.
pub open spec fn link_suffix_spec(
    show_destination: bool,
    has_visible_label: bool,
    is_web: bool,
    has_local_target: bool,
    show_local_label: bool,
    in_cell: bool,
    pending_marker_line: bool,
) -> LinkSuffix {
    if show_destination || (!has_visible_label && is_web) {
        LinkSuffix::Destination { in_cell }
    } else if has_local_target {
        LinkSuffix::LocalTarget {
            with_label: show_local_label,
            in_cell,
            new_line_first: !in_cell && pending_marker_line,
        }
    } else {
        LinkSuffix::Nothing
    }
}

/// Decide what a closing link leaves after its label (see
/// [`link_suffix_spec`]): `is_web` says whether its destination is a web
/// address, `show_local_label` whether its label is worth keeping beside its
/// local target.
pub fn link_suffix(
    show_destination: bool,
    has_visible_label: bool,
    is_web: bool,
    has_local_target: bool,
    show_local_label: bool,
    in_cell: bool,
    pending_marker_line: bool,
) -> (r: LinkSuffix)
    ensures
        r == link_suffix_spec(
            show_destination,
            has_visible_label,
            is_web,
            has_local_target,
            show_local_label,
            in_cell,
            pending_marker_line,
        ),
{
    if show_destination || (!has_visible_label && is_web) {
        LinkSuffix::Destination { in_cell }
    } else if has_local_target {
        let new_line_first = !in_cell && pending_marker_line;
        LinkSuffix::LocalTarget { with_label: show_local_label, in_cell, new_line_first }
    } else {
        LinkSuffix::Nothing
    }
}

} // verus!
