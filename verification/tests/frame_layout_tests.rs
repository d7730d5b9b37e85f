use antex::frame_layout::{frame_layout, header_width, FrameLayout};

#[test]
fn the_header_gets_the_room_above_the_input() {
    assert_eq!(header_width(80, 40, 3, false), Some(80));
    assert_eq!(header_width(80, 9, 3, false), Some(35));
    assert_eq!(header_width(20, 9, 3, false), Some(20));
    assert_eq!(header_width(80, 6, 3, false), None);
    assert_eq!(header_width(80, 40, 3, true), None);
}

#[test]
fn the_frame_stacks_header_answer_input_and_footer() {
    assert_eq!(
        frame_layout(80, 40, 3, 10, 20, 0),
        Some(FrameLayout {
            header_height: 10,
            live_height: 8,
            height: 23,
            y: 0,
            scroll_lines: 0,
            live_first: 12,
            editor_height: 3,
            footer: true,
        })
    );
    // A header taller than its room is dropped.
    assert_eq!(frame_layout(80, 40, 3, 36, 0, 0).unwrap().header_height, 0);
}

#[test]
fn a_small_terminal_scrolls_the_history_for_the_frame() {
    assert_eq!(
        frame_layout(80, 4, 3, 0, 5, 2),
        Some(FrameLayout {
            header_height: 0,
            live_height: 0,
            height: 4,
            y: 0,
            scroll_lines: 2,
            live_first: 5,
            editor_height: 2,
            footer: true,
        })
    );
    assert_eq!(frame_layout(0, 40, 3, 0, 0, 0), None);
    assert_eq!(frame_layout(80, 0, 3, 0, 0, 0), None);
}
