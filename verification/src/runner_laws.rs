//! What holds of every trial.
use vstd::prelude::*;

use crate::contracts::{
    Decision, DecisionBounds, ManifestView, MetricSample, MAX_DECISION_ERRORS, MAX_DECISION_POWER_W,
    MAX_DECISION_TEMPERATURE_C, MAX_LEASE_SECONDS,
};
use crate::control_plane::{ControlPlaneError, LifecycleResult, Step};
use crate::evaluator::FpsFigures;
use crate::provider::Provider;
use crate::reading::Reading;
use crate::runner::{MeasuredTrial, PolicyBreach, TrialRecord};

verus! {

/// A reading is no more than the whole number `n`, or is not a number.
pub open spec fn stays_within(reading: Reading, n: u64) -> bool {
    reading.nan() || reading.value() <= (2 * n) * crate::reading::half()
}

/// A spec can tighten its own safety gate but never loosen it: whatever bounds
/// pass the policy envelope, no sample of a promoted candidate exceeds the
/// policy's own ceilings, and none carries an error.
pub proof fn a_promotion_stays_within_the_policy_ceilings(
    baseline: Seq<MetricSample>,
    candidate: Seq<MetricSample>,
    figures: FpsFigures,
    bounds: DecisionBounds,
    at: int,
)
    requires
        crate::runner::bounds_fault(bounds) is None,
        crate::evaluator::total_errors(candidate) <= u64::MAX,
        crate::evaluator::verdict(baseline, candidate, figures, bounds).decision == Decision::Promote,
        0 <= at < candidate.len(),
    ensures
        stays_within(candidate[at].temperature_c, MAX_DECISION_TEMPERATURE_C),
        stays_within(candidate[at].power_w, MAX_DECISION_POWER_W),
        candidate[at].errors <= MAX_DECISION_ERRORS,
{
    let temperatures = crate::evaluator::temperatures(candidate);
    let draws = crate::evaluator::power_draws(candidate);
    crate::evaluator::worst_is_exceeded_by_none(temperatures, at);
    crate::evaluator::worst_is_exceeded_by_none(draws, at);
    assert(temperatures[at] == candidate[at].temperature_c);
    assert(draws[at] == candidate[at].power_w);
    lemma_errors_within_total(candidate, at);
}

/// No sample carries more errors than all of them together.
proof fn lemma_errors_within_total(samples: Seq<MetricSample>, at: int)
    requires
        0 <= at < samples.len(),
    ensures
        samples[at].errors <= crate::evaluator::total_errors(samples),
    decreases samples.len(),
{
    if at < samples.len() - 1 {
        assert(samples.drop_last()[at] == samples[at]);
        lemma_errors_within_total(samples.drop_last(), at);
    }
}

/// A promotion gains at least what the bounds require, on enough samples.
pub proof fn a_promotion_meets_every_bound(
    baseline: Seq<MetricSample>,
    candidate: Seq<MetricSample>,
    figures: FpsFigures,
    bounds: DecisionBounds,
)
    ensures
        ({
            let decided = crate::evaluator::verdict(baseline, candidate, figures, bounds);
            decided.decision == Decision::Promote <==> {
                &&& decided.baseline.samples >= bounds.min_samples
                &&& decided.candidate.samples >= bounds.min_samples
                &&& !decided.candidate.max_temperature_c.above(bounds.max_temperature_c)
                &&& !decided.candidate.max_power_w.above(bounds.max_power_w)
                &&& decided.candidate.total_errors <= bounds.max_errors
                &&& figures.improvement.at_least(bounds.min_fps_improvement)
            }
        }),
{
}

/// The record that a trial leaves behind is within the policy that a replay holds it
/// to, unless its lease is one that the broker refuses.
pub proof fn a_journaled_trial_is_within_policy(
    trial: MeasuredTrial,
    figures: FpsFigures,
    lifecycle: Option<Result<LifecycleResult, ControlPlaneError>>,
    record: TrialRecord,
)
    requires
        trial.well_formed(),
        trial.spec@.target.lease_seconds <= MAX_LEASE_SECONDS,
        lifecycle is Some <==> crate::runner::trial_verdict(trial, figures).decision == Decision::Promote,
        crate::runner::records(record, trial, crate::runner::trial_verdict(trial, figures), lifecycle),
    ensures
        crate::runner::breach(record) is None,
{
}

/// A verdict equals itself where its frame-rate figures are numbers.
proof fn lemma_verdict_equals_itself(
    baseline: Seq<MetricSample>,
    candidate: Seq<MetricSample>,
    figures: FpsFigures,
    bounds: DecisionBounds,
)
    requires
        !figures.baseline_mean.nan(),
        !figures.candidate_mean.nan(),
        !figures.improvement.nan(),
    ensures
        ({
            let decided = crate::evaluator::verdict(baseline, candidate, figures, bounds);
            decided.equals(&decided)
        }),
{
    crate::evaluator::worst_is_a_number(crate::evaluator::temperatures(baseline));
    crate::evaluator::worst_is_a_number(crate::evaluator::temperatures(candidate));
    crate::evaluator::worst_is_a_number(crate::evaluator::power_draws(baseline));
    crate::evaluator::worst_is_a_number(crate::evaluator::power_draws(candidate));
}

/// Re-evaluating the record that a trial leaves behind, from the same frame-rate
/// figures, reproduces the verdict it carries.
pub proof fn a_replay_reproduces_the_verdict(
    trial: MeasuredTrial,
    figures: FpsFigures,
    lifecycle: Option<Result<LifecycleResult, ControlPlaneError>>,
    record: TrialRecord,
)
    requires
        crate::runner::records(record, trial, crate::runner::trial_verdict(trial, figures), lifecycle),
        !figures.baseline_mean.nan(),
        !figures.candidate_mean.nan(),
        !figures.improvement.nan(),
    ensures
        ({
            let recomputed = crate::evaluator::verdict(
                record.baseline_samples@,
                record.candidate_samples@,
                figures,
                record.spec.bounds,
            );
            record.verdict.equals(&recomputed)
        }),
{
    lemma_verdict_equals_itself(
        record.baseline_samples@,
        record.candidate_samples@,
        figures,
        record.spec.bounds,
    );
}

/// Replaying the record that a trial leaves behind, under whatever provider,
/// finds the verdict it carries and recomputes the same one. The two compare
/// equal where the frame-rate figures are numbers, and do not where the gain is
/// none. The record is within policy exactly where its lease is one that the
/// broker grants, and is flagged for its lease alone.
pub proof fn a_journaled_trial_replays_to_itself(
    trial: MeasuredTrial,
    figures: FpsFigures,
    lifecycle: Option<Result<LifecycleResult, ControlPlaneError>>,
    record: TrialRecord,
    id: i64,
)
    requires
        trial.well_formed(),
        lifecycle is Some <==> crate::runner::trial_verdict(trial, figures).decision == Decision::Promote,
        crate::runner::records(record, trial, crate::runner::trial_verdict(trial, figures), lifecycle),
    ensures
        ({
            let outcome = crate::runner::replayed(id, record, figures);
            &&& outcome.trial_id == id
            &&& outcome.recorded == record.verdict
            &&& outcome.recomputed == record.verdict
            &&& outcome.policy_legal <==> record.spec@.target.lease_seconds <= MAX_LEASE_SECONDS
            &&& outcome.policy_reason == if record.spec@.target.lease_seconds <= MAX_LEASE_SECONDS {
                None::<PolicyBreach>
            } else {
                Some::<PolicyBreach>(PolicyBreach::Lease(record.spec@.target.lease_seconds))
            }
            &&& !figures.baseline_mean.nan() && !figures.candidate_mean.nan() && !figures.improvement.nan()
                ==> outcome.recorded.equals(&outcome.recomputed)
            &&& figures.improvement.nan() ==> !outcome.recorded.equals(&outcome.recomputed)
        }),
{
    if !figures.baseline_mean.nan() && !figures.candidate_mean.nan() && !figures.improvement.nan() {
        a_replay_reproduces_the_verdict(trial, figures, lifecycle, record);
    }
}

/// A promotion whose lifecycle got under way has a lease that the broker grants,
/// so its record is within policy whatever became of the lifecycle.
pub proof fn a_promotion_under_way_replays_as_legal<P: Provider>(
    accepted: ManifestView,
    provider: P,
    trial: MeasuredTrial,
    figures: FpsFigures,
    opening: Step,
    outcome: Result<LifecycleResult, ControlPlaneError>,
    record: TrialRecord,
    id: i64,
)
    requires
        trial.well_formed(),
        crate::runner::trial_verdict(trial, figures).decision == Decision::Promote,
        crate::control_plane::starts(accepted, provider, trial.spec@.target, opening),
        opening is Write,
        crate::runner::records(record, trial, crate::runner::trial_verdict(trial, figures), Some(outcome)),
    ensures
        crate::runner::replayed(id, record, figures).policy_legal,
        crate::runner::replayed(id, record, figures).recomputed == record.verdict,
{
    a_journaled_trial_replays_to_itself(trial, figures, Some(outcome), record, id);
}

/// A row that was rewritten to other bounds, another capability, another lease,
/// other sample counts or contradicting lifecycle fields is found out even where
/// its verdict still matches.
pub proof fn a_rewritten_record_is_found_out(record: TrialRecord)
    requires
        ({
            ||| record.spec@.target.capability_id != crate::model::MODELED_CAPABILITY_ID@
            ||| crate::runner::bounds_fault(record.spec.bounds) is Some
            ||| record.spec@.target.lease_seconds > MAX_LEASE_SECONDS
            ||| record.baseline_samples@.len() != record.spec.baseline_samples
            ||| record.candidate_samples@.len() != record.spec.candidate_samples
            ||| crate::mock::requested_value(record.spec@.target) != Some(record.candidate_value)
            ||| record.baseline_value > crate::mock::MAX_MOCK_VALUE
            ||| crate::json::has_member_besides(record.spec@.target.parameters, "value"@)
            ||| record.verdict.decision == Decision::Reject && (record.lifecycle is Some
                || record.lifecycle_error is Some)
            ||| record.verdict.decision == Decision::Promote && (record.lifecycle is Some) == (
            record.lifecycle_error is Some)
        }),
    ensures
        crate::runner::breach(record) is Some,
{
}

} // verus!
