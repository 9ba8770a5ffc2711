use reg1d::curve::{grid_coord, render_canvas, roc_curve, roc_curve_canvas, Precision};
use reg1d::MLError;

#[test]
fn resolve_fixed_precisions() {
    assert_eq!(Precision::F1.resolve().unwrap(), (10, 11));
    assert_eq!(Precision::F01.resolve().unwrap(), (100, 101));
    assert_eq!(Precision::F001.resolve().unwrap(), (1000, 1001));
    assert_eq!(Precision::F0001.resolve().unwrap(), (10000, 10001));
}

#[test]
fn resolve_custom_precision() {
    assert_eq!(Precision::DEFINE(4).resolve().unwrap(), (4, 5));
    assert_eq!(
        Precision::DEFINE(0).resolve().unwrap_err(),
        MLError::PrecisionMismatch
    );
}

#[test]
fn grid_coord_rounds_to_the_nearest_line() {
    // 1/2 of 10 steps is exactly grid line 5.
    assert_eq!(grid_coord(1, 2, 10), 5);
    // 1/3 of 10 steps is 3.33…, nearer line 3.
    assert_eq!(grid_coord(1, 3, 10), 3);
    // 2/3 of 10 steps is 6.67…, nearer line 7.
    assert_eq!(grid_coord(2, 3, 10), 7);
    // A value halfway between two lines snaps upward: 1/4 of 2 steps.
    assert_eq!(grid_coord(1, 4, 2), 1);
    // The ends of the unit interval land on the outermost lines.
    assert_eq!(grid_coord(0, 7, 10), 0);
    assert_eq!(grid_coord(7, 7, 10), 10);
    // The largest denominator the arithmetic bound admits for ten
    // steps still snaps exactly.
    let big = usize::MAX / 21;
    assert_eq!(grid_coord(big, big, 10), 10);
    assert_eq!(grid_coord(big / 2, big, 10), 5);
}

#[test]
fn render_canvas_draws_axes_and_points() {
    let points = vec![(0, 0), (2, 2)];
    let canvas = render_canvas(&points, 2);
    let expected = vec![
        vec![' ', ' ', ' ', ' ', ' '],
        vec![' ', ' ', '\u{2502}', ' ', '\u{2022}'],
        vec![' ', ' ', '\u{2502}', ' ', ' '],
        vec![' ', ' ', '\u{2022}', '\u{2500}', '\u{2500}'],
    ];
    assert_eq!(canvas, expected);
}

#[test]
fn render_canvas_keeps_the_origin_marker_when_unplotted() {
    let points = vec![(2, 2)];
    let canvas = render_canvas(&points, 2);
    assert_eq!(canvas[3][2], '\u{253c}');
    assert_eq!(canvas[3][3], '\u{2500}');
    assert_eq!(canvas[1][2], '\u{2502}');
    assert_eq!(canvas[1][4], '\u{2022}');
    assert_eq!(canvas[0][0], ' ');
}

#[test]
fn roc_curve_canvas_snaps_exact_rates() {
    // One point at (1/2, 3/4) on a 4-step grid: column 2 + 2, row 5 - 3.
    let points = vec![((1, 2), (3, 4))];
    let canvas = roc_curve_canvas(&points, 4);
    assert_eq!(canvas.len(), 6);
    assert_eq!(canvas[0].len(), 7);
    assert_eq!(canvas[2][4], '\u{2022}');
}

#[test]
fn roc_curve_renders_a_full_sweep() {
    let mut fpr: Vec<(usize, usize)> = Vec::new();
    let mut tpr: Vec<(usize, usize)> = Vec::new();
    for k in 0..11 {
        fpr.push((10 - k, 10));
        tpr.push((10 - k, 10));
    }
    let canvas = roc_curve(&fpr, &tpr, Precision::F1).unwrap();
    assert_eq!(canvas.len(), 12);
    assert_eq!(canvas[0].len(), 13);
    // The rate pair (1, 1) plots in the top-right corner of the grid.
    assert_eq!(canvas[1][12], '\u{2022}');
    // The diagonal passes through the middle of the grid.
    assert_eq!(canvas[6][7], '\u{2022}');
    // The rate pair (0, 0) covers the origin marker.
    assert_eq!(canvas[11][2], '\u{2022}');
    // Axis cells that no point covers keep their artwork.
    assert_eq!(canvas[11][5], '\u{2500}');
    assert_eq!(canvas[4][2], '\u{2502}');
    assert_eq!(canvas[0][0], ' ');
}

#[test]
fn roc_curve_rejects_empty_data() {
    let nothing: Vec<(usize, usize)> = Vec::new();
    assert_eq!(
        roc_curve(&nothing, &nothing, Precision::F1).unwrap_err(),
        MLError::EmptyInput
    );
}

#[test]
fn roc_curve_rejects_mismatched_lengths() {
    let fpr = vec![(0, 1), (1, 1)];
    let tpr = vec![(0, 1)];
    assert_eq!(
        roc_curve(&fpr, &tpr, Precision::F1).unwrap_err(),
        MLError::ShapeMismatch
    );
}

#[test]
fn roc_curve_rejects_rates_outside_the_unit_interval() {
    let fpr = vec![(2, 1)];
    let tpr = vec![(1, 1)];
    assert_eq!(
        roc_curve(&fpr, &tpr, Precision::DEFINE(1)).unwrap_err(),
        MLError::DomainViolation
    );
    let fpr_zero_den = vec![(0, 0)];
    assert_eq!(
        roc_curve(&fpr_zero_den, &tpr, Precision::DEFINE(1)).unwrap_err(),
        MLError::DomainViolation
    );
}

#[test]
fn roc_curve_rejects_a_mismatched_sample_count() {
    let fpr = vec![(0, 1), (1, 1), (1, 1)];
    let tpr = vec![(0, 1), (0, 1), (1, 1)];
    assert_eq!(
        roc_curve(&fpr, &tpr, Precision::F1).unwrap_err(),
        MLError::PrecisionMismatch
    );
    assert_eq!(
        roc_curve(&fpr, &tpr, Precision::DEFINE(0)).unwrap_err(),
        MLError::PrecisionMismatch
    );
    let canvas = roc_curve(&fpr, &tpr, Precision::DEFINE(2)).unwrap();
    assert_eq!(canvas.len(), 4);
    assert_eq!(canvas[0].len(), 5);
}
