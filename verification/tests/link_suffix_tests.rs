use antex::link_suffix::{link_suffix, LinkSuffix};

#[test]
fn destinations_show_when_asked_or_when_a_web_label_is_empty() {
    assert_eq!(link_suffix(true, true, false, true, true, false, false), LinkSuffix::Destination { in_cell: false });
    assert_eq!(link_suffix(false, false, true, false, false, true, false), LinkSuffix::Destination { in_cell: true });
    assert_eq!(link_suffix(false, true, true, false, false, false, false), LinkSuffix::Nothing);
    assert_eq!(link_suffix(false, false, false, false, false, false, false), LinkSuffix::Nothing);
}

#[test]
fn local_targets_follow_their_label_and_break_a_pending_marker_line() {
    assert_eq!(
        link_suffix(false, true, false, true, true, false, true),
        LinkSuffix::LocalTarget { with_label: true, in_cell: false, new_line_first: true }
    );
    assert_eq!(
        link_suffix(false, true, false, true, false, true, true),
        LinkSuffix::LocalTarget { with_label: false, in_cell: true, new_line_first: false }
    );
}
