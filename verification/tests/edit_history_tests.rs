use antex::edit_history::{trim_counts, SnapshotSize};

fn text(len: usize) -> SnapshotSize {
    SnapshotSize { text_len: len, element_count: 0, images: Vec::new() }
}

#[test]
fn at_most_64_snapshots_are_kept_oldest_undo_first() {
    let undo: Vec<SnapshotSize> = (0..60).map(|_| text(1)).collect();
    let redo: Vec<SnapshotSize> = (0..10).map(|_| text(1)).collect();
    assert_eq!(trim_counts(&undo, &redo, 16), (6, 0));
    let short: Vec<SnapshotSize> = (0..3).map(|_| text(1)).collect();
    let many: Vec<SnapshotSize> = (0..70).map(|_| text(1)).collect();
    assert_eq!(trim_counts(&short, &many, 16), (3, 6));
    assert_eq!(trim_counts(&short, &short, 16), (0, 0));
}

#[test]
fn text_over_one_mebibyte_is_dropped_counting_text_elements() {
    let undo = vec![text(600_000), text(500_000)];
    assert_eq!(trim_counts(&undo, &[], 16), (1, 0));
    let with_elements = vec![SnapshotSize { text_len: 1_048_000, element_count: 100, images: Vec::new() }];
    assert_eq!(trim_counts(&with_elements, &[], 16), (1, 0));
    assert_eq!(trim_counts(&with_elements, &[], 1), (0, 0));
}

#[test]
fn a_shared_image_counts_once() {
    let shared = |id: u64| SnapshotSize { text_len: 0, element_count: 0, images: vec![(id, 10_000_000)] };
    assert_eq!(trim_counts(&[shared(7), shared(7)], &[], 16), (0, 0));
    assert_eq!(trim_counts(&[shared(7), shared(8)], &[], 16), (1, 0));
}
