use antex::history_replay::{replay_plan, ReplayPlan};

fn plan(first_message: usize, with_startup: bool, skipped_rows: usize, notice: bool, viewport_height: u16) -> ReplayPlan {
    ReplayPlan { first_message, with_startup, skipped_rows, notice, viewport_height }
}

#[test]
fn nothing_is_replayed_without_history_or_room() {
    assert_eq!(replay_plan(&[], Some(5), 100, 30, 5), None);
    assert_eq!(replay_plan(&[3], None, 0, 30, 5), None);
    assert_eq!(replay_plan(&[3], None, 100, 1, 5), None);
}

#[test]
fn a_short_history_is_replayed_whole_after_the_banner() {
    assert_eq!(replay_plan(&[3, 4], Some(10), 100, 30, 5), Some(plan(0, true, 0, false, 5)));
    assert_eq!(replay_plan(&[3, 4], None, 32, 16, 5), Some(plan(0, false, 0, false, 5)));
}

#[test]
fn the_input_area_leaves_a_row_and_keeps_one() {
    assert_eq!(replay_plan(&[1], None, 10, 4, 9).unwrap().viewport_height, 3);
    assert_eq!(replay_plan(&[1], None, 10, 2, 0).unwrap().viewport_height, 1);
}

#[test]
fn long_histories_keep_the_newest_thousand_rows() {
    // The walk back stops at the message that passes 1000 rows.
    let lens = [400, 400, 400, 400];
    assert_eq!(replay_plan(&lens, Some(10), 80, 24, 5), Some(plan(1, false, 201, true, 5)));
    // Exactly 1000 rows fit, banner included only if it still fits.
    assert_eq!(replay_plan(&[500, 500], Some(10), 80, 24, 5), Some(plan(0, true, 11, true, 5)));
    assert_eq!(replay_plan(&[500, 500], None, 80, 24, 5), Some(plan(0, false, 0, false, 5)));
    assert_eq!(replay_plan(&[1001], Some(3), 80, 24, 5), Some(plan(0, false, 2, true, 5)));
}
