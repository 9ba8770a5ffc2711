//! Confusion-matrix bookkeeping for a binary classifier evaluated at a
//! decision threshold. The caller thresholds its per-example
//! probabilities into boolean predictions; this module tallies the four
//! (prediction, actual) outcome counts and proves the facts an ROC sweep
//! rests on.

use vstd::prelude::*;

verus! {

use crate::MLError;

/// The number of indices at which `preds` predicts `p` while `actuals`
/// holds `a`, over the first `preds.len()` examples.
pub open spec fn count_matching(preds: Seq<bool>, actuals: Seq<bool>, p: bool, a: bool) -> int
    decreases preds.len(),
{
    if preds.len() == 0 {
        0
    } else {
        count_matching(preds.drop_last(), actuals.drop_last(), p, a) + if preds.last() == p
            && actuals[preds.len() - 1] == a {
            1int
        } else {
            0int
        }
    }
}

/// The number of positions of `s` that hold `b`.
pub open spec fn count_of(s: Seq<bool>, b: bool) -> int
    decreases s.len(),
{
    if s.len() == 0 {
        0
    } else {
        count_of(s.drop_last(), b) + if s.last() == b {
            1int
        } else {
            0int
        }
    }
}

/// The four outcome counters of a binary classifier at one threshold:
/// true/false positives and negatives.
#[derive(Clone, Copy, Debug, PartialEq, Eq, Structural)]
pub struct ConfusCounts {
    pub true_pos: usize,
    pub fals_pos: usize,
    pub fals_neg: usize,
    pub true_neg: usize,
}

impl ConfusCounts {
    /// The counters agree with a tally of `preds` against `actuals`.
    pub open spec fn counts(self, preds: Seq<bool>, actuals: Seq<bool>) -> bool {
        &&& self.true_pos == count_matching(preds, actuals, true, true)
        &&& self.fals_pos == count_matching(preds, actuals, true, false)
        &&& self.fals_neg == count_matching(preds, actuals, false, true)
        &&& self.true_neg == count_matching(preds, actuals, false, false)
    }

    /// Numerator and denominator of the accuracy (TP+TN)/(TP+TN+FP+FN).
    /// A zero denominator means there were no examples; the caller must
    /// guard the division.
    pub fn accuracy_parts(&self) -> (parts: (usize, usize))
        requires
            self.true_pos + self.true_neg + self.fals_pos + self.fals_neg <= usize::MAX,
        ensures
            parts.0 == self.true_pos + self.true_neg,
            parts.1 == self.true_pos + self.true_neg + self.fals_pos + self.fals_neg,
    {
        (self.true_pos + self.true_neg, self.true_pos + self.true_neg + self.fals_pos
            + self.fals_neg)
    }

    /// Numerator and denominator of the true-positive rate TP/(TP+FN).
    /// A zero denominator means there were no actual positives; the
    /// caller must guard the division.
    pub fn tpr_parts(&self) -> (parts: (usize, usize))
        requires
            self.true_pos + self.fals_neg <= usize::MAX,
        ensures
            parts.0 == self.true_pos,
            parts.1 == self.true_pos + self.fals_neg,
    {
        (self.true_pos, self.true_pos + self.fals_neg)
    }

    /// Numerator and denominator of the false-positive rate FP/(FP+TN).
    /// A zero denominator means there were no actual negatives; the
    /// caller must guard the division.
    pub fn fpr_parts(&self) -> (parts: (usize, usize))
        requires
            self.fals_pos + self.true_neg <= usize::MAX,
        ensures
            parts.0 == self.fals_pos,
            parts.1 == self.fals_pos + self.true_neg,
    {
        (self.fals_pos, self.fals_pos + self.true_neg)
    }

    /// Numerator and denominator of the precision TP/(TP+FP). A zero
    /// denominator means nothing was predicted positive; the caller
    /// must guard the division.
    pub fn precision_parts(&self) -> (parts: (usize, usize))
        requires
            self.true_pos + self.fals_pos <= usize::MAX,
        ensures
            parts.0 == self.true_pos,
            parts.1 == self.true_pos + self.fals_pos,
    {
        (self.true_pos, self.true_pos + self.fals_pos)
    }

    /// Numerator and denominator of the F1 score 2·TP/(2·TP+FP+FN). A
    /// zero denominator means no positives on either side; the caller
    /// must guard the division.
    pub fn f1_parts(&self) -> (parts: (usize, usize))
        requires
            2 * self.true_pos + self.fals_pos + self.fals_neg <= usize::MAX,
        ensures
            parts.0 == 2 * self.true_pos,
            parts.1 == 2 * self.true_pos + self.fals_pos + self.fals_neg,
    {
        (2 * self.true_pos, 2 * self.true_pos + self.fals_pos + self.fals_neg)
    }
}

proof fn lemma_count_matching_take_step(
    preds: Seq<bool>,
    actuals: Seq<bool>,
    p: bool,
    a: bool,
    i: int,
)
    requires
        0 <= i < preds.len(),
        preds.len() <= actuals.len(),
    ensures
        count_matching(preds.take(i + 1), actuals.take(i + 1), p, a) == count_matching(
            preds.take(i),
            actuals.take(i),
            p,
            a,
        ) + if preds[i] == p && actuals[i] == a {
            1int
        } else {
            0int
        },
{
    assert(preds.take(i + 1).drop_last() =~= preds.take(i));
    assert(actuals.take(i + 1).drop_last() =~= actuals.take(i));
    assert(preds.take(i + 1).last() == preds[i]);
    assert(actuals.take(i + 1)[i] == actuals[i]);
}

/// Each (prediction, actual) pair falls in exactly one of the four
/// cells, so the four counters always partition the example count.
pub proof fn lemma_counts_partition(preds: Seq<bool>, actuals: Seq<bool>)
    ensures
        count_matching(preds, actuals, true, true) + count_matching(preds, actuals, true, false)
            + count_matching(preds, actuals, false, true) + count_matching(
            preds,
            actuals,
            false,
            false,
        ) == preds.len(),
    decreases preds.len(),
{
    if preds.len() > 0 {
        lemma_counts_partition(preds.drop_last(), actuals.drop_last());
    }
}

proof fn lemma_fewer_positives_fewer_counts(
    stricter: Seq<bool>,
    looser: Seq<bool>,
    actuals: Seq<bool>,
    a: bool,
)
    requires
        stricter.len() == looser.len(),
        forall|i: int| 0 <= i < stricter.len() && stricter[i] ==> looser[i],
    ensures
        count_matching(stricter, actuals, true, a) <= count_matching(looser, actuals, true, a),
    decreases stricter.len(),
{
    if stricter.len() > 0 {
        lemma_fewer_positives_fewer_counts(
            stricter.drop_last(),
            looser.drop_last(),
            actuals.drop_last(),
            a,
        );
        assert(stricter.last() == stricter[stricter.len() - 1]);
        assert(forall|i: int|
            0 <= i < stricter.len() - 1 && stricter.drop_last()[i] ==> looser.drop_last()[i]);
    }
}

/// The denominators of the two ROC rates depend on the actual labels
/// alone: however the predictions fall, the examples actually labelled
/// `a` split between the predicted-positive and predicted-negative
/// counters, so TP+FN is the number of actual positives and FP+TN the
/// number of actual negatives.
pub proof fn lemma_rate_denominator(preds: Seq<bool>, actuals: Seq<bool>, a: bool)
    requires
        preds.len() == actuals.len(),
    ensures
        count_matching(preds, actuals, true, a) + count_matching(preds, actuals, false, a)
            == count_of(actuals, a),
    decreases preds.len(),
{
    if preds.len() > 0 {
        lemma_rate_denominator(preds.drop_last(), actuals.drop_last(), a);
    }
}

/// When every example is predicted positive — as at a threshold of
/// zero, which every probability clears — the tally holds no negative
/// predictions at all: TP is exactly the number of actual positives
/// and FP exactly the number of actual negatives, so an ROC sweep
/// starts at rates of one wherever the rates are defined.
pub proof fn lemma_all_positive_counts(preds: Seq<bool>, actuals: Seq<bool>)
    requires
        preds.len() == actuals.len(),
        forall|i: int| 0 <= i < preds.len() ==> preds[i],
    ensures
        count_matching(preds, actuals, true, true) == count_of(actuals, true),
        count_matching(preds, actuals, true, false) == count_of(actuals, false),
        count_matching(preds, actuals, false, true) == 0,
        count_matching(preds, actuals, false, false) == 0,
    decreases preds.len(),
{
    if preds.len() > 0 {
        assert(preds[preds.len() - 1]);
        lemma_all_positive_counts(preds.drop_last(), actuals.drop_last());
    }
}

/// Raising the decision threshold can only turn positive predictions
/// into negative ones. Whenever one prediction vector (`stricter`) is
/// positive only where another (`looser`) is, the stricter tally has no
/// more true positives and no more false positives, while the two rate
/// denominators — actual positives for the true-positive rate, actual
/// negatives for the false-positive rate — are the same for both. With
/// equal denominators and smaller numerators, both rates are
/// non-increasing as the threshold rises.
pub proof fn lemma_roc_monotone(stricter: Seq<bool>, looser: Seq<bool>, actuals: Seq<bool>)
    requires
        stricter.len() == actuals.len(),
        looser.len() == actuals.len(),
        forall|i: int| 0 <= i < actuals.len() && stricter[i] ==> looser[i],
    ensures
        count_matching(stricter, actuals, true, true) <= count_matching(
            looser,
            actuals,
            true,
            true,
        ),
        count_matching(stricter, actuals, true, false) <= count_matching(
            looser,
            actuals,
            true,
            false,
        ),
        count_matching(stricter, actuals, true, true) + count_matching(
            stricter,
            actuals,
            false,
            true,
        ) == count_matching(looser, actuals, true, true) + count_matching(
            looser,
            actuals,
            false,
            true,
        ),
        count_matching(stricter, actuals, true, false) + count_matching(
            stricter,
            actuals,
            false,
            false,
        ) == count_matching(looser, actuals, true, false) + count_matching(
            looser,
            actuals,
            false,
            false,
        ),
{
    lemma_fewer_positives_fewer_counts(stricter, looser, actuals, true);
    lemma_fewer_positives_fewer_counts(stricter, looser, actuals, false);
    lemma_rate_denominator(stricter, actuals, true);
    lemma_rate_denominator(stricter, actuals, false);
    lemma_rate_denominator(looser, actuals, true);
    lemma_rate_denominator(looser, actuals, false);
}

/// Tallies thresholded predictions against the actual labels.
///
/// Fails with `ShapeMismatch` exactly when the two slices disagree in
/// length; otherwise returns the four outcome counters, which partition
/// the example count.
pub fn tally(predictions: &Vec<bool>, actuals: &Vec<bool>) -> (result: Result<
    ConfusCounts,
    MLError,
>)
    ensures
        match result {
            Ok(c) => {
                &&& predictions@.len() == actuals@.len()
                &&& c.counts(predictions@, actuals@)
                &&& c.true_pos + c.fals_pos + c.fals_neg + c.true_neg == predictions@.len()
            },
            Err(e) => {
                &&& e == MLError::ShapeMismatch
                &&& predictions@.len() != actuals@.len()
            },
        },
{
    if predictions.len() != actuals.len() {
        return Err(MLError::ShapeMismatch);
    }
    let ghost pseq = predictions@;
    let ghost aseq = actuals@;
    let mut true_pos: usize = 0;
    let mut fals_pos: usize = 0;
    let mut fals_neg: usize = 0;
    let mut true_neg: usize = 0;
    let n = predictions.len();
    for i in 0..n
        invariant
            n == pseq.len(),
            n == aseq.len(),
            pseq == predictions@,
            aseq == actuals@,
            true_pos == count_matching(pseq.take(i as int), aseq.take(i as int), true, true),
            fals_pos == count_matching(pseq.take(i as int), aseq.take(i as int), true, false),
            fals_neg == count_matching(pseq.take(i as int), aseq.take(i as int), false, true),
            true_neg == count_matching(pseq.take(i as int), aseq.take(i as int), false, false),
            true_pos + fals_pos + fals_neg + true_neg == i,
    {
        proof {
            lemma_count_matching_take_step(pseq, aseq, true, true, i as int);
            lemma_count_matching_take_step(pseq, aseq, true, false, i as int);
            lemma_count_matching_take_step(pseq, aseq, false, true, i as int);
            lemma_count_matching_take_step(pseq, aseq, false, false, i as int);
        }
        match (predictions[i], actuals[i]) {
            (true, true) => true_pos += 1,
            (true, false) => fals_pos += 1,
            (false, true) => fals_neg += 1,
            (false, false) => true_neg += 1,
        }
    }
    proof {
        assert(pseq.take(n as int) =~= pseq);
        assert(aseq.take(n as int) =~= aseq);
    }
    Ok(ConfusCounts { true_pos, fals_pos, fals_neg, true_neg })
}

} // verus!
