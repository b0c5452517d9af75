//! The immutable experiment evaluator.
//!
//! Given recorded baseline and candidate samples, the frame-rate figures drawn
//! from them and fixed [`DecisionBounds`], [`evaluate`] returns a deterministic
//! [`Verdict`]. The rule is fixed and ordered: the minimum number of samples,
//! then the candidate's worst temperature, worst power draw and total errors
//! against their ceilings, then the required improvement.
use vstd::prelude::*;

use crate::contracts::{Decision, DecisionBounds, MetricSample, MetricSummary, Verdict, VerdictReason};
use crate::reading::Reading;

verus! {

/// Frame-rate figures of a trial: arithmetic means of the two measurement sets,
/// and the gain of the candidate's over the baseline's.
#[derive(Clone, Copy, Debug)]
pub struct FpsFigures {
    /// Mean frames per second of the baseline set.
    pub baseline_mean: Reading,
    /// Mean frames per second of the candidate set.
    pub candidate_mean: Reading,
    /// The candidate's mean less the baseline's.
    pub improvement: Reading,
}

/// The highest of the readings that are numbers, the earliest of equal ones;
/// `None` where no reading is a number.
pub open spec fn highest(readings: Seq<Reading>) -> Option<Reading>
    decreases readings.len(),
{
    if readings.len() == 0 {
        None
    } else {
        match highest(readings.drop_last()) {
            None => if readings.last().nan() { None } else { Some(readings.last()) },
            Some(earlier) => if readings.last().above(earlier) { Some(readings.last()) } else { Some(earlier) },
        }
    }
}

/// A reading, or zero where there is none.
pub open spec fn or_zero(reading: Option<Reading>) -> Reading {
    match reading {
        Some(found) => found,
        None => Reading { bits: 0 },
    }
}

/// The highest reading that was observed; zero only where no reading is a
/// number.
pub open spec fn worst(readings: Seq<Reading>) -> Reading {
    or_zero(highest(readings))
}

/// The errors of all samples together.
pub open spec fn total_errors(samples: Seq<MetricSample>) -> nat
    decreases samples.len(),
{
    if samples.len() == 0 {
        0
    } else {
        total_errors(samples.drop_last()) + samples.last().errors as nat
    }
}

/// The temperatures of the samples.
pub open spec fn temperatures(samples: Seq<MetricSample>) -> Seq<Reading> {
    samples.map_values(|sample: MetricSample| sample.temperature_c)
}

/// The power draws of the samples.
pub open spec fn power_draws(samples: Seq<MetricSample>) -> Seq<Reading> {
    samples.map_values(|sample: MetricSample| sample.power_w)
}

/// The aggregate of one measurement set whose mean frame rate is `mean_fps`.
pub open spec fn summary(samples: Seq<MetricSample>, mean_fps: Reading) -> MetricSummary {
    MetricSummary {
        samples: samples.len() as u64,
        mean_fps: if samples.len() == 0 { Reading { bits: 0 } } else { mean_fps },
        max_temperature_c: worst(temperatures(samples)),
        max_power_w: worst(power_draws(samples)),
        total_errors: total_errors(samples) as u64,
    }
}

/// The decision rule: the first bound that is not met decides.
pub open spec fn reason(
    baseline: MetricSummary,
    candidate: MetricSummary,
    improvement: Reading,
    bounds: DecisionBounds,
) -> VerdictReason {
    if baseline.samples < bounds.min_samples || candidate.samples < bounds.min_samples {
        VerdictReason::InsufficientSamples
    } else if candidate.max_temperature_c.above(bounds.max_temperature_c) {
        VerdictReason::TemperatureExceeded
    } else if candidate.max_power_w.above(bounds.max_power_w) {
        VerdictReason::PowerExceeded
    } else if candidate.total_errors > bounds.max_errors {
        VerdictReason::ErrorsExceeded
    } else if improvement.at_least(bounds.min_fps_improvement) {
        VerdictReason::Promoted
    } else {
        VerdictReason::InsufficientImprovement
    }
}

/// The verdict on recorded samples.
pub open spec fn verdict(
    baseline: Seq<MetricSample>,
    candidate: Seq<MetricSample>,
    figures: FpsFigures,
    bounds: DecisionBounds,
) -> Verdict {
    let before = summary(baseline, figures.baseline_mean);
    let after = summary(candidate, figures.candidate_mean);
    let reason = reason(before, after, figures.improvement, bounds);
    Verdict {
        decision: if reason == VerdictReason::Promoted { Decision::Promote } else { Decision::Reject },
        reason,
        fps_improvement: figures.improvement,
        baseline: before,
        candidate: after,
    }
}

/// The errors of the first samples are no more than those of all.
proof fn lemma_total_grows(samples: Seq<MetricSample>, n: int)
    requires
        0 <= n <= samples.len(),
    ensures
        total_errors(samples.take(n)) <= total_errors(samples),
    decreases samples.len() - n,
{
    if n < samples.len() {
        lemma_total_grows(samples, n + 1);
        assert(samples.take(n + 1).drop_last() =~= samples.take(n));
    } else {
        assert(samples.take(n) =~= samples);
    }
}

/// Whether the errors of all samples together fit in the aggregate's counter.
pub fn errors_fit(samples: &Vec<MetricSample>) -> (fit: bool)
    ensures
        fit == (total_errors(samples@) <= u64::MAX),
{
    let mut total: u64 = 0;
    let mut i: usize = 0;
    while i < samples.len()
        invariant
            i <= samples.len(),
            total == total_errors(samples@.take(i as int)),
        decreases samples.len() - i,
    {
        proof {
            assert(samples@.take(i + 1).drop_last() =~= samples@.take(i as int));
            lemma_total_grows(samples@, i + 1);
        }
        match total.checked_add(samples[i].errors) {
            Some(sum) => {
                total = sum;
            },
            None => {
                return false;
            },
        }
        i = i + 1;
    }
    assert(samples@.take(i as int) =~= samples@);
    true
}

/// The higher of what was seen so far and one more reading.
fn higher(seen: Option<Reading>, reading: Reading) -> (higher: Option<Reading>)
    ensures
        higher == match seen {
            None => if reading.nan() { None } else { Some(reading) },
            Some(earlier) => if reading.above(earlier) { Some(reading) } else { Some(earlier) },
        },
{
    match seen {
        None => if reading.is_nan() { None } else { Some(reading) },
        Some(earlier) => if reading.exceeds(earlier) { Some(reading) } else { Some(earlier) },
    }
}

/// A reading, or zero where there is none.
fn found_or_zero(reading: Option<Reading>) -> (found: Reading)
    ensures
        found == or_zero(reading),
{
    match reading {
        Some(found) => found,
        None => Reading::zero(),
    }
}

/// Aggregates one measurement set deterministically.
///
/// Temperature and power report the worst (highest) observed value and errors
/// are summed; the mean of an empty set is zero.
pub fn summarize(samples: &Vec<MetricSample>, mean_fps: Reading) -> (aggregate: MetricSummary)
    requires
        total_errors(samples@) <= u64::MAX,
    ensures
        aggregate == summary(samples@, mean_fps),
{
    let mut hottest: Option<Reading> = None;
    let mut hungriest: Option<Reading> = None;
    let mut errors: u64 = 0;
    let mut i: usize = 0;
    while i < samples.len()
        invariant
            i <= samples.len(),
            total_errors(samples@) <= u64::MAX,
            errors == total_errors(samples@.take(i as int)),
            hottest == highest(temperatures(samples@.take(i as int))),
            hungriest == highest(power_draws(samples@.take(i as int))),
        decreases samples.len() - i,
    {
        let sample = samples[i];
        proof {
            let now = samples@.take(i as int);
            let next = samples@.take(i + 1);
            assert(next.drop_last() =~= now);
            assert(temperatures(next).drop_last() =~= temperatures(now));
            assert(power_draws(next).drop_last() =~= power_draws(now));
            lemma_total_grows(samples@, i + 1);
        }
        hottest = higher(hottest, sample.temperature_c);
        hungriest = higher(hungriest, sample.power_w);
        errors = errors + sample.errors;
        i = i + 1;
    }
    assert(samples@.take(i as int) =~= samples@);
    MetricSummary {
        samples: samples.len() as u64,
        mean_fps: if samples.len() == 0 { Reading::zero() } else { mean_fps },
        max_temperature_c: found_or_zero(hottest),
        max_power_w: found_or_zero(hungriest),
        total_errors: errors,
    }
}

/// Applies the immutable decision rule to recorded samples.
///
/// The returned [`Verdict`] carries the baseline and candidate aggregates the
/// decision used, so a journaled trial is self-describing and re-evaluation can
/// be checked against it.
pub fn evaluate(
    baseline: &Vec<MetricSample>,
    candidate: &Vec<MetricSample>,
    figures: FpsFigures,
    bounds: &DecisionBounds,
) -> (decided: Verdict)
    requires
        bounds.well_formed(),
        total_errors(baseline@) <= u64::MAX,
        total_errors(candidate@) <= u64::MAX,
    ensures
        decided == verdict(baseline@, candidate@, figures, *bounds),
{
    let before = summarize(baseline, figures.baseline_mean);
    let after = summarize(candidate, figures.candidate_mean);
    let min_samples: u64 = bounds.min_samples as u64;
    let reason = if before.samples < min_samples || after.samples < min_samples {
        VerdictReason::InsufficientSamples
    } else if after.max_temperature_c.exceeds(bounds.max_temperature_c) {
        VerdictReason::TemperatureExceeded
    } else if after.max_power_w.exceeds(bounds.max_power_w) {
        VerdictReason::PowerExceeded
    } else if after.total_errors > bounds.max_errors {
        VerdictReason::ErrorsExceeded
    } else if figures.improvement.reaches(bounds.min_fps_improvement) {
        VerdictReason::Promoted
    } else {
        VerdictReason::InsufficientImprovement
    };
    let decision = if reason == VerdictReason::Promoted { Decision::Promote } else { Decision::Reject };
    Verdict { decision, reason, fps_improvement: figures.improvement, baseline: before, candidate: after }
}

/// The highest reading is a number that was observed, and is exceeded by none.
proof fn lemma_highest(readings: Seq<Reading>)
    ensures
        highest(readings) is None <==> (forall|i: int| 0 <= i < readings.len() ==> (#[trigger] readings[i]).nan()),
        highest(readings) matches Some(found) ==> !found.nan() && readings.contains(found) && (forall|i: int|
            0 <= i < readings.len() ==> !(#[trigger] readings[i]).above(found)),
    decreases readings.len(),
{
    if readings.len() > 0 {
        let earlier = readings.drop_last();
        let at = readings.len() - 1;
        lemma_highest(earlier);
        assert forall|i: int| 0 <= i < at implies (#[trigger] readings[i]) == earlier[i] by {}
        assert(readings[at] == readings.last());
        match highest(earlier) {
            Some(found) => {
                let i = choose|i: int| 0 <= i < earlier.len() && earlier[i] == found;
                assert(readings[i] == found);
                assert(!readings[i].nan());
            },
            None => {
                assert forall|i: int| 0 <= i < at implies (#[trigger] readings[i]).nan() by {
                    assert(earlier[i].nan());
                }
                if readings.last().nan() {
                    assert forall|i: int| 0 <= i < readings.len() implies (#[trigger] readings[i]).nan() by {}
                }
            },
        }
        assert forall|i: int|
            0 <= i < readings.len() && highest(readings) is Some implies !(#[trigger] readings[i]).above(
            highest(readings)->0,
        ) by {
            if i < at {
                assert(earlier[i] == readings[i]);
            }
        }
    }
}

/// The worst reading is a number, and is exceeded by none.
pub proof fn worst_is_exceeded_by_none(readings: Seq<Reading>, at: int)
    requires
        0 <= at < readings.len(),
    ensures
        !worst(readings).nan(),
        !readings[at].above(worst(readings)),
{
    lemma_highest(readings);
    if highest(readings) is None {
        assert(readings[at].nan());
    }
}

/// The worst reading is a number.
pub proof fn worst_is_a_number(readings: Seq<Reading>)
    ensures
        !worst(readings).nan(),
{
    lemma_highest(readings);
}

/// The worst reading is one that was observed, wherever some reading is a
/// number; where none is, it is zero.
pub proof fn worst_was_observed(readings: Seq<Reading>)
    ensures
        (exists|i: int| 0 <= i < readings.len() && !(#[trigger] readings[i]).nan()) ==> readings.contains(
            worst(readings),
        ),
        (forall|i: int| 0 <= i < readings.len() ==> (#[trigger] readings[i]).nan()) ==> worst(readings) == (Reading {
            bits: 0,
        }),
{
    lemma_highest(readings);
}

} // verus!
