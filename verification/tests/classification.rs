use reg1d::classification::{tally, ConfusCounts};
use reg1d::MLError;

#[test]
fn tally_counts_each_outcome() {
    let preds = vec![true, true, false, false, true];
    let actuals = vec![true, false, false, true, true];
    let counts = tally(&preds, &actuals).unwrap();
    assert_eq!(counts.true_pos, 2);
    assert_eq!(counts.fals_pos, 1);
    assert_eq!(counts.fals_neg, 1);
    assert_eq!(counts.true_neg, 1);
}

#[test]
fn tally_partitions_the_examples() {
    let preds = vec![true, false, true, false, false, true, true];
    let actuals = vec![false, false, true, true, false, true, false];
    let counts = tally(&preds, &actuals).unwrap();
    let total = counts.true_pos + counts.fals_pos + counts.fals_neg + counts.true_neg;
    assert_eq!(total, preds.len());
}

#[test]
fn tally_rejects_mismatched_lengths() {
    let preds = vec![true, false];
    let actuals = vec![true];
    assert_eq!(tally(&preds, &actuals).unwrap_err(), MLError::ShapeMismatch);
}

#[test]
fn tally_of_empty_data_is_all_zero() {
    let preds: Vec<bool> = vec![];
    let actuals: Vec<bool> = vec![];
    let counts = tally(&preds, &actuals).unwrap();
    assert_eq!(counts.true_pos, 0);
    assert_eq!(counts.fals_pos, 0);
    assert_eq!(counts.fals_neg, 0);
    assert_eq!(counts.true_neg, 0);
}

#[test]
fn stricter_threshold_never_raises_the_rates() {
    // The same actual labels tallied against a looser and a stricter
    // prediction vector, where the stricter one is positive only where
    // the looser one is: both rate numerators may only shrink while
    // their denominators stay put.
    let actuals = vec![true, false, true, false];
    let looser = vec![true, true, true, false];
    let stricter = vec![true, false, false, false];
    let loose = tally(&looser, &actuals).unwrap();
    let strict = tally(&stricter, &actuals).unwrap();
    assert!(strict.true_pos <= loose.true_pos);
    assert!(strict.fals_pos <= loose.fals_pos);
    assert_eq!(
        strict.true_pos + strict.fals_neg,
        loose.true_pos + loose.fals_neg
    );
    assert_eq!(
        strict.fals_pos + strict.true_neg,
        loose.fals_pos + loose.true_neg
    );
}

#[test]
fn all_positive_predictions_start_the_sweep_at_one() {
    let actuals = vec![true, false, true, false, false];
    let preds = vec![true; 5];
    let counts = tally(&preds, &actuals).unwrap();
    assert_eq!(counts.true_pos, 2);
    assert_eq!(counts.fals_pos, 3);
    assert_eq!(counts.fals_neg, 0);
    assert_eq!(counts.true_neg, 0);
    assert_eq!(counts.tpr_parts(), (2, 2));
    assert_eq!(counts.fpr_parts(), (3, 3));
}

#[test]
fn metric_parts_follow_their_formulas() {
    let counts = ConfusCounts {
        true_pos: 2,
        fals_pos: 1,
        fals_neg: 1,
        true_neg: 2,
    };
    assert_eq!(counts.accuracy_parts(), (4, 6));
    assert_eq!(counts.tpr_parts(), (2, 3));
    assert_eq!(counts.fpr_parts(), (1, 3));
    assert_eq!(counts.precision_parts(), (2, 3));
    assert_eq!(counts.f1_parts(), (4, 6));
}

#[test]
fn degenerate_denominators_are_visible() {
    // No actual positives: the true-positive-rate denominator is zero
    // and the caller must guard the division.
    let counts = tally(&vec![false, true], &vec![false, false]).unwrap();
    let (_, den) = counts.tpr_parts();
    assert_eq!(den, 0);
}
