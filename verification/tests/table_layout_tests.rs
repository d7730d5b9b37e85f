use antex::table_layout::{
    compute_column_widths, preferred_column_floor, shrink_columns, TableColumnKind,
    TableColumnMetrics,
};

fn column(max_width: usize, header: usize, body: usize, kind: TableColumnKind) -> TableColumnMetrics {
    TableColumnMetrics { max_width, header_token_width: header, body_token_width: body, kind }
}

#[test]
fn natural_widths_without_a_limit() {
    let metrics = [
        column(10, 3, 4, TableColumnKind::Compact),
        column(1, 1, 1, TableColumnKind::Compact),
    ];
    assert_eq!(compute_column_widths(&metrics, None), Some(vec![10, 3]));
}

#[test]
fn too_narrow_for_the_minimum_width() {
    let metrics = [
        column(10, 3, 4, TableColumnKind::Compact),
        column(5, 1, 1, TableColumnKind::Compact),
    ];
    assert_eq!(compute_column_widths(&metrics, Some(5)), None);
    assert!(compute_column_widths(&metrics, Some(6)).is_some());
}

#[test]
fn token_heavy_columns_shrink_before_prose() {
    let metrics = [
        column(40, 5, 30, TableColumnKind::TokenHeavy),
        column(30, 5, 8, TableColumnKind::Narrative),
        column(8, 4, 6, TableColumnKind::Compact),
    ];
    assert_eq!(compute_column_widths(&metrics, Some(50)), Some(vec![16, 26, 8]));
}

#[test]
fn shrinking_balances_slack_and_breaks_ties_by_column_order() {
    let metrics = [
        column(30, 1, 1, TableColumnKind::TokenHeavy),
        column(20, 1, 1, TableColumnKind::TokenHeavy),
    ];
    let mut widths = vec![30, 20];
    assert_eq!(shrink_columns(&mut widths, &[10, 10], &metrics, 15), 0);
    assert_eq!(widths, vec![17, 18]);
}

#[test]
fn shrinking_stops_at_the_floors() {
    let metrics = [column(12, 1, 1, TableColumnKind::Compact)];
    let mut widths = vec![12];
    assert_eq!(shrink_columns(&mut widths, &[10], &metrics, 5), 3);
    assert_eq!(widths, vec![10]);
}

#[test]
fn preferred_floors_by_kind() {
    assert_eq!(preferred_column_floor(&column(40, 2, 30, TableColumnKind::Narrative), 3), 16);
    assert_eq!(preferred_column_floor(&column(10, 2, 30, TableColumnKind::TokenHeavy), 3), 10);
    assert_eq!(preferred_column_floor(&column(40, 7, 30, TableColumnKind::Compact), 3), 16);
    assert_eq!(preferred_column_floor(&column(40, 20, 5, TableColumnKind::Compact), 3), 20);
    assert_eq!(preferred_column_floor(&column(40, 1, 2, TableColumnKind::Compact), 3), 3);
}

#[test]
fn any_limit_of_three_cells_per_column_gives_widths_that_fit() {
    let metrics = [
        column(40, 20, 30, TableColumnKind::Compact),
        column(60, 5, 25, TableColumnKind::TokenHeavy),
        column(80, 4, 6, TableColumnKind::Narrative),
    ];
    assert_eq!(compute_column_widths(&metrics, Some(8)), None);
    for available in 9..200 {
        let widths = compute_column_widths(&metrics, Some(available)).unwrap();
        assert!(widths.iter().sum::<usize>() <= available);
        assert!(widths.iter().all(|w| *w >= 3));
    }
}

#[test]
fn widths_stay_between_their_floor_and_natural_width() {
    let metrics = [
        column(1, 1, 1, TableColumnKind::Compact),
        column(50, 5, 30, TableColumnKind::TokenHeavy),
        column(24, 24, 10, TableColumnKind::Compact),
    ];
    for available in 9..100 {
        let widths = compute_column_widths(&metrics, Some(available)).unwrap();
        for (width, metric) in widths.iter().zip(metrics.iter()) {
            let natural = metric.max_width.max(3);
            let floor = preferred_column_floor(metric, 3).min(3);
            assert!(floor <= *width && *width <= natural, "{available}: {widths:?}");
        }
    }
}
