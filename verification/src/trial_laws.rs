//! What a verdict, a replay and an accepted spec mean in terms of what went in.
use vstd::prelude::*;

use crate::contracts::{
    Decision, DecisionBounds, ExperimentSpec, MetricSample, ProviderManifest, SpecView, Verdict, VerdictReason,
};
use crate::control_plane::{ControlPlane, ControlPlaneError, LifecycleResult, Step};
use crate::evaluator::{evaluate, FpsFigures};
use crate::journal::{JournalFault, PayloadView};
use crate::json::Json;
use crate::provider::{Provider, ProviderError};
use crate::reading::Reading;
use crate::runner::{
    check_record_version, decide_trial, finish_trial, read_trial, replay_trial, validate, Envelope, MeasuredTrial,
    PolicyBreach, ReplayOutcome, RunnerError, SpecFault, StoredTrial, TrialRecord, TrialStep,
};

verus! {

/// The errors of joined sets are those of the one and those of the other, and a
/// single sample has its own.
pub proof fn errors_add_up(a: Seq<MetricSample>, b: Seq<MetricSample>, one: MetricSample)
    ensures
        crate::evaluator::total_errors(a + b) == crate::evaluator::total_errors(a) + crate::evaluator::total_errors(b),
        crate::evaluator::total_errors(seq![one]) == one.errors,
        crate::evaluator::total_errors(Seq::empty()) == 0,
    decreases b.len(),
{
    assert(crate::evaluator::total_errors(seq![one].drop_last()) == 0) by {
        assert(seq![one].drop_last() =~= Seq::empty());
    }
    assert(seq![one].last() == one);
    reveal_with_fuel(crate::evaluator::total_errors, 2);
    if b.len() == 0 {
        assert(a + b =~= a);
    } else {
        errors_add_up(a, b.drop_last(), one);
        assert((a + b).drop_last() =~= a + b.drop_last());
        assert((a + b).last() == b.last());
    }
}

/// The worst reading exceeds a bound that is not below zero exactly where some
/// reading does.
proof fn lemma_worst_exceeds(readings: Seq<Reading>, bound: Reading)
    requires
        !(Reading { bits: 0 }).above(bound),
    ensures
        crate::evaluator::worst(readings).above(bound) <==> exists|i: int|
            0 <= i < readings.len() && (#[trigger] readings[i]).above(bound),
{
    let top = crate::evaluator::worst(readings);
    crate::evaluator::worst_is_a_number(readings);
    crate::evaluator::worst_was_observed(readings);
    if top.above(bound) {
        assert(readings.contains(top));
        let i = choose|i: int| 0 <= i < readings.len() && readings[i] == top;
        assert(readings[i].above(bound));
    }
    if exists|i: int| 0 <= i < readings.len() && (#[trigger] readings[i]).above(bound) {
        let i = choose|i: int| 0 <= i < readings.len() && (#[trigger] readings[i]).above(bound);
        crate::evaluator::worst_is_exceeded_by_none(readings, i);
    }
}

/// A verdict follows from the samples, the gain and the bounds alone, and its
/// reason is the first bound that is not met: too few samples in either set, a
/// candidate sample that is too hot, one that draws too much, too many candidate
/// errors in all, too small a gain.
pub proof fn a_verdict_follows_from_its_samples(
    baseline: Seq<MetricSample>,
    candidate: Seq<MetricSample>,
    figures: FpsFigures,
    bounds: DecisionBounds,
)
    requires
        baseline.len() <= u64::MAX,
        candidate.len() <= u64::MAX,
        crate::evaluator::total_errors(candidate) <= u64::MAX,
        !(Reading { bits: 0 }).above(bounds.max_temperature_c),
        !(Reading { bits: 0 }).above(bounds.max_power_w),
    ensures
        ({
            let decided = crate::evaluator::verdict(baseline, candidate, figures, bounds);
            let enough = baseline.len() >= bounds.min_samples && candidate.len() >= bounds.min_samples;
            let hot = exists|i: int|
                0 <= i < candidate.len() && (#[trigger] candidate[i]).temperature_c.above(bounds.max_temperature_c);
            let hungry = exists|i: int|
                0 <= i < candidate.len() && (#[trigger] candidate[i]).power_w.above(bounds.max_power_w);
            let faulty = crate::evaluator::total_errors(candidate) > bounds.max_errors;
            let gains = figures.improvement.at_least(bounds.min_fps_improvement);
            &&& decided.decision == Decision::Promote <==> enough && !hot && !hungry && !faulty && gains
            &&& decided.reason == VerdictReason::Promoted <==> decided.decision == Decision::Promote
            &&& decided.reason == VerdictReason::InsufficientSamples <==> !enough
            &&& decided.reason == VerdictReason::TemperatureExceeded <==> enough && hot
            &&& decided.reason == VerdictReason::PowerExceeded <==> enough && !hot && hungry
            &&& decided.reason == VerdictReason::ErrorsExceeded <==> enough && !hot && !hungry && faulty
            &&& decided.reason == VerdictReason::InsufficientImprovement <==> enough && !hot && !hungry && !faulty
                && !gains
        }),
{
    let temperatures = crate::evaluator::temperatures(candidate);
    let draws = crate::evaluator::power_draws(candidate);
    lemma_worst_exceeds(temperatures, bounds.max_temperature_c);
    lemma_worst_exceeds(draws, bounds.max_power_w);
    assert forall|i: int| 0 <= i < candidate.len() implies (#[trigger] temperatures[i]) == candidate[i].temperature_c by {}
    assert forall|i: int| 0 <= i < candidate.len() implies (#[trigger] draws[i]) == candidate[i].power_w by {}
    if exists|i: int| 0 <= i < candidate.len() && (#[trigger] candidate[i]).temperature_c.above(bounds.max_temperature_c) {
        let i = choose|i: int|
            0 <= i < candidate.len() && (#[trigger] candidate[i]).temperature_c.above(bounds.max_temperature_c);
        assert(temperatures[i].above(bounds.max_temperature_c));
    }
    if exists|i: int| 0 <= i < temperatures.len() && (#[trigger] temperatures[i]).above(bounds.max_temperature_c) {
        let i = choose|i: int|
            0 <= i < temperatures.len() && (#[trigger] temperatures[i]).above(bounds.max_temperature_c);
        assert(candidate[i].temperature_c.above(bounds.max_temperature_c));
    }
    if exists|i: int| 0 <= i < candidate.len() && (#[trigger] candidate[i]).power_w.above(bounds.max_power_w) {
        let i = choose|i: int|
            0 <= i < candidate.len() && (#[trigger] candidate[i]).power_w.above(bounds.max_power_w);
        assert(draws[i].above(bounds.max_power_w));
    }
    if exists|i: int| 0 <= i < draws.len() && (#[trigger] draws[i]).above(bounds.max_power_w) {
        let i = choose|i: int| 0 <= i < draws.len() && (#[trigger] draws[i]).above(bounds.max_power_w);
        assert(candidate[i].power_w.above(bounds.max_power_w));
    }
}

/// A verdict reports each set for itself: its mean is the one handed in for that
/// set, its maxima and errors are those of its own samples, and the gain is the
/// one handed in.
pub proof fn a_verdict_reports_each_set_for_itself(
    baseline: Seq<MetricSample>,
    candidate: Seq<MetricSample>,
    figures: FpsFigures,
    bounds: DecisionBounds,
    at: int,
)
    requires
        baseline.len() <= u64::MAX,
        candidate.len() <= u64::MAX,
        crate::evaluator::total_errors(baseline) <= u64::MAX,
        crate::evaluator::total_errors(candidate) <= u64::MAX,
    ensures
        ({
            let decided = crate::evaluator::verdict(baseline, candidate, figures, bounds);
            &&& decided.fps_improvement == figures.improvement
            &&& decided.baseline.samples == baseline.len()
            &&& decided.candidate.samples == candidate.len()
            &&& baseline.len() > 0 ==> decided.baseline.mean_fps == figures.baseline_mean
            &&& candidate.len() > 0 ==> decided.candidate.mean_fps == figures.candidate_mean
            &&& baseline.len() == 0 ==> decided.baseline.mean_fps.value() == 0
            &&& candidate.len() == 0 ==> decided.candidate.mean_fps.value() == 0
            &&& decided.baseline.total_errors == crate::evaluator::total_errors(baseline)
            &&& decided.candidate.total_errors == crate::evaluator::total_errors(candidate)
            &&& 0 <= at < baseline.len() ==> !baseline[at].temperature_c.above(decided.baseline.max_temperature_c)
                && !baseline[at].power_w.above(decided.baseline.max_power_w)
            &&& 0 <= at < candidate.len() ==> !candidate[at].temperature_c.above(decided.candidate.max_temperature_c)
                && !candidate[at].power_w.above(decided.candidate.max_power_w)
            &&& 0 <= at < baseline.len() && !baseline[at].temperature_c.nan() ==> exists|i: int|
                0 <= i < baseline.len() && (#[trigger] baseline[i]).temperature_c == decided.baseline.max_temperature_c
            &&& 0 <= at < baseline.len() && !baseline[at].power_w.nan() ==> exists|i: int|
                0 <= i < baseline.len() && (#[trigger] baseline[i]).power_w == decided.baseline.max_power_w
            &&& 0 <= at < candidate.len() && !candidate[at].temperature_c.nan() ==> exists|i: int|
                0 <= i < candidate.len() && (#[trigger] candidate[i]).temperature_c
                    == decided.candidate.max_temperature_c
            &&& 0 <= at < candidate.len() && !candidate[at].power_w.nan() ==> exists|i: int|
                0 <= i < candidate.len() && (#[trigger] candidate[i]).power_w == decided.candidate.max_power_w
        }),
{
    assert(crate::reading::units(0) == 0);
    lemma_set_maxima(baseline, at);
    lemma_set_maxima(candidate, at);
}

/// The maxima of a set are observed in it and exceeded by none of it.
proof fn lemma_set_maxima(samples: Seq<MetricSample>, at: int)
    ensures
        0 <= at < samples.len() ==> !samples[at].temperature_c.above(
            crate::evaluator::worst(crate::evaluator::temperatures(samples)),
        ) && !samples[at].power_w.above(crate::evaluator::worst(crate::evaluator::power_draws(samples))),
        0 <= at < samples.len() && !samples[at].temperature_c.nan() ==> exists|i: int|
            0 <= i < samples.len() && (#[trigger] samples[i]).temperature_c == crate::evaluator::worst(
                crate::evaluator::temperatures(samples),
            ),
        0 <= at < samples.len() && !samples[at].power_w.nan() ==> exists|i: int|
            0 <= i < samples.len() && (#[trigger] samples[i]).power_w == crate::evaluator::worst(
                crate::evaluator::power_draws(samples),
            ),
{
    if 0 <= at < samples.len() {
        let temperatures = crate::evaluator::temperatures(samples);
        let draws = crate::evaluator::power_draws(samples);
        assert(temperatures[at] == samples[at].temperature_c);
        assert(draws[at] == samples[at].power_w);
        crate::evaluator::worst_is_exceeded_by_none(temperatures, at);
        crate::evaluator::worst_is_exceeded_by_none(draws, at);
        crate::evaluator::worst_was_observed(temperatures);
        crate::evaluator::worst_was_observed(draws);
        if !samples[at].temperature_c.nan() {
            let top = crate::evaluator::worst(temperatures);
            assert(temperatures.contains(top));
            let i = choose|i: int| 0 <= i < temperatures.len() && temperatures[i] == top;
            assert(samples[i].temperature_c == top);
        }
        if !samples[at].power_w.nan() {
            let top = crate::evaluator::worst(draws);
            assert(draws.contains(top));
            let i = choose|i: int| 0 <= i < draws.len() && draws[i] == top;
            assert(samples[i].power_w == top);
        }
    }
}

/// The aggregate of one set depends on that set and its mean alone: whatever the
/// other set, the other mean and the bounds are, it stays the same.
pub proof fn the_sets_are_aggregated_apart(
    baseline: Seq<MetricSample>,
    candidate: Seq<MetricSample>,
    figures: FpsFigures,
    bounds: DecisionBounds,
    other: Seq<MetricSample>,
    other_figures: FpsFigures,
    other_bounds: DecisionBounds,
)
    ensures
        other_figures.baseline_mean == figures.baseline_mean ==> crate::evaluator::verdict(
            baseline,
            other,
            other_figures,
            other_bounds,
        ).baseline == crate::evaluator::verdict(baseline, candidate, figures, bounds).baseline,
        other_figures.candidate_mean == figures.candidate_mean ==> crate::evaluator::verdict(
            other,
            candidate,
            other_figures,
            other_bounds,
        ).candidate == crate::evaluator::verdict(baseline, candidate, figures, bounds).candidate,
{
}

/// Verdicts that compare equal agree on everything they say.
pub proof fn equal_verdicts_say_the_same(a: Verdict, b: Verdict)
    requires
        a.equals(&b),
    ensures
        a.decision == b.decision,
        a.reason == b.reason,
        a.fps_improvement.value() == b.fps_improvement.value(),
        a.baseline.samples == b.baseline.samples,
        a.baseline.mean_fps.value() == b.baseline.mean_fps.value(),
        a.baseline.max_temperature_c.value() == b.baseline.max_temperature_c.value(),
        a.baseline.max_power_w.value() == b.baseline.max_power_w.value(),
        a.baseline.total_errors == b.baseline.total_errors,
        a.candidate.samples == b.candidate.samples,
        a.candidate.mean_fps.value() == b.candidate.mean_fps.value(),
        a.candidate.max_temperature_c.value() == b.candidate.max_temperature_c.value(),
        a.candidate.max_power_w.value() == b.candidate.max_power_w.value(),
        a.candidate.total_errors == b.candidate.total_errors,
        b.equals(&a),
{
}

/// A replay does not trust the verdict that a record carries: records that agree
/// on samples and bounds are re-evaluated to the same verdict, whatever they
/// claim, and each is compared with what it claims itself.
pub proof fn a_replay_ignores_the_recorded_verdict(
    a: TrialRecord,
    b: TrialRecord,
    figures: FpsFigures,
    a_id: i64,
    b_id: i64,
)
    requires
        a.baseline_samples@ == b.baseline_samples@,
        a.candidate_samples@ == b.candidate_samples@,
        a.spec.bounds == b.spec.bounds,
    ensures
        crate::runner::replayed(a_id, a, figures).recomputed == crate::runner::replayed(b_id, b, figures).recomputed,
        crate::runner::replayed(a_id, a, figures).recorded == a.verdict,
        crate::runner::replayed(b_id, b, figures).recorded == b.verdict,
        crate::runner::replayed(a_id, a, figures).trial_id == a_id,
{
}

/// A replay re-evaluates what was recorded: it finds a promotion exactly where
/// the recorded samples and figures meet every bound of the recorded spec, and a
/// record that decides otherwise, or that misstates its own samples or gain, is
/// not consistent.
pub proof fn a_verdict_that_does_not_follow_is_found_out(record: TrialRecord, figures: FpsFigures, id: i64)
    requires
        record.baseline_samples@.len() <= u64::MAX,
        record.candidate_samples@.len() <= u64::MAX,
        crate::evaluator::total_errors(record.baseline_samples@) <= u64::MAX,
        crate::evaluator::total_errors(record.candidate_samples@) <= u64::MAX,
        !(Reading { bits: 0 }).above(record.spec.bounds.max_temperature_c),
        !(Reading { bits: 0 }).above(record.spec.bounds.max_power_w),
    ensures
        ({
            let outcome = crate::runner::replayed(id, record, figures);
            let bounds = record.spec.bounds;
            let baseline = record.baseline_samples@;
            let candidate = record.candidate_samples@;
            let meets = baseline.len() >= bounds.min_samples && candidate.len() >= bounds.min_samples && (forall|i: int|
                0 <= i < candidate.len() ==> !(#[trigger] candidate[i]).temperature_c.above(bounds.max_temperature_c)
                    && !candidate[i].power_w.above(bounds.max_power_w)) && crate::evaluator::total_errors(candidate)
                <= bounds.max_errors && figures.improvement.at_least(bounds.min_fps_improvement);
            &&& outcome.recomputed.decision == Decision::Promote <==> meets
            &&& (record.verdict.decision == Decision::Promote) != meets ==> !outcome.recorded.equals(
                &outcome.recomputed,
            )
            &&& record.verdict.baseline.samples != baseline.len() ==> !outcome.recorded.equals(&outcome.recomputed)
            &&& record.verdict.candidate.samples != candidate.len() ==> !outcome.recorded.equals(&outcome.recomputed)
            &&& record.verdict.baseline.total_errors != crate::evaluator::total_errors(baseline)
                ==> !outcome.recorded.equals(&outcome.recomputed)
            &&& record.verdict.candidate.total_errors != crate::evaluator::total_errors(candidate)
                ==> !outcome.recorded.equals(&outcome.recomputed)
            &&& record.verdict.fps_improvement.value() != figures.improvement.value() ==> !outcome.recorded.equals(
                &outcome.recomputed,
            )
        }),
{
    let bounds = record.spec.bounds;
    let candidate = record.candidate_samples@;
    a_verdict_follows_from_its_samples(record.baseline_samples@, candidate, figures, bounds);
    a_verdict_reports_each_set_for_itself(record.baseline_samples@, candidate, figures, bounds, 0);
    if exists|i: int| 0 <= i < candidate.len() && (#[trigger] candidate[i]).temperature_c.above(bounds.max_temperature_c) {
        let i = choose|i: int|
            0 <= i < candidate.len() && (#[trigger] candidate[i]).temperature_c.above(bounds.max_temperature_c);
        assert(candidate[i].temperature_c.above(bounds.max_temperature_c));
    }
    if exists|i: int| 0 <= i < candidate.len() && (#[trigger] candidate[i]).power_w.above(bounds.max_power_w) {
        let i = choose|i: int|
            0 <= i < candidate.len() && (#[trigger] candidate[i]).power_w.above(bounds.max_power_w);
        assert(candidate[i].power_w.above(bounds.max_power_w));
    }
}

/// A spec is accepted exactly where its hypothesis has from 1 to 4096 characters,
/// its ceilings are above zero and at most 90 degrees and 250 watts, it asks for a
/// finite gain that is no loss and for no errors, none of its counts is above
/// 10000, both counted sets are at least as large as its bounds require, and its
/// target holds an unsigned value of at most 100 and nothing else. How the two
/// counts compare with each other does not matter.
pub proof fn a_spec_is_accepted_exactly_within_the_envelope(spec: SpecView)
    ensures
        crate::runner::envelope(spec) is Inside <==> {
            &&& 1 <= spec.hypothesis.len() <= 4096
            &&& spec.bounds.max_temperature_c.finite()
            &&& 0 < spec.bounds.max_temperature_c.value() <= 180 * crate::reading::half()
            &&& spec.bounds.max_power_w.finite()
            &&& 0 < spec.bounds.max_power_w.value() <= 500 * crate::reading::half()
            &&& spec.bounds.min_fps_improvement.finite()
            &&& 0 <= spec.bounds.min_fps_improvement.value()
            &&& spec.bounds.max_errors == 0
            &&& spec.bounds.min_samples <= 10_000
            &&& spec.warmup_samples <= 10_000
            &&& spec.bounds.min_samples <= spec.baseline_samples <= 10_000
            &&& spec.bounds.min_samples <= spec.candidate_samples <= 10_000
            &&& spec.target.parameters is Object
            &&& spec.target.parameters->Object_0.contains_key("value"@)
            &&& spec.target.parameters->Object_0["value"@] matches crate::json::JsonView::Unsigned(value)
            &&& value <= 100
            &&& forall|name: Seq<char>|
                spec.target.parameters->Object_0.contains_key(name) ==> name == "value"@
        },
        crate::runner::envelope(spec) matches Envelope::Inside(value) ==> spec.target.parameters->Object_0["value"@]
            == crate::json::JsonView::Unsigned(value),
{
    if let crate::json::JsonView::Object(members) = spec.target.parameters {
        if crate::json::has_member_besides(spec.target.parameters, "value"@) {
            let other = choose|other: Seq<char>| #[trigger] members.contains_key(other) && other != "value"@;
            assert(members.contains_key(other));
        }
    }
}

/// What a refused spec is told is true of it.
pub proof fn a_spec_fault_is_true_of_the_spec(spec: SpecView)
    ensures
        crate::runner::envelope(spec) matches Envelope::Outside(fault) ==> match fault {
            SpecFault::HypothesisLength { chars } => spec.hypothesis.len() == 0 || spec.hypothesis.len() > 4096,
            SpecFault::MinSamples { min_samples } => min_samples == spec.bounds.min_samples && min_samples > 10_000,
            SpecFault::CeilingOutside { ceiling, bound } => match ceiling {
                crate::runner::Ceiling::Temperature => bound == spec.bounds.max_temperature_c && !(bound.finite() && 0
                    < bound.value() <= 180 * crate::reading::half()),
                crate::runner::Ceiling::Power => bound == spec.bounds.max_power_w && !(bound.finite() && 0
                    < bound.value() <= 500 * crate::reading::half()),
            },
            SpecFault::ImprovementNotAGain { improvement } => improvement == spec.bounds.min_fps_improvement && !(
            improvement.finite() && improvement.value() >= 0),
            SpecFault::ErrorBudget { max_errors } => max_errors == spec.bounds.max_errors && max_errors > 0,
            SpecFault::CountAbove { which, count } => count > 10_000 && count == match which {
                crate::runner::SampleCount::Warmup => spec.warmup_samples,
                crate::runner::SampleCount::Baseline => spec.baseline_samples,
                crate::runner::SampleCount::Candidate => spec.candidate_samples,
            },
            SpecFault::CountBelow { which, count, min_samples } => count < min_samples && min_samples
                == spec.bounds.min_samples && (which == crate::runner::SampleCount::Baseline && count
                == spec.baseline_samples || which == crate::runner::SampleCount::Candidate && count
                == spec.candidate_samples),
            SpecFault::UnknownParameter => spec.target.parameters matches crate::json::JsonView::Object(members)
                && exists|name: Seq<char>| #[trigger] members.contains_key(name) && name != "value"@,
            SpecFault::ValueAbove { value } => value > 100 && (spec.target.parameters matches
                crate::json::JsonView::Object(members) && members.contains_key("value"@) && members["value"@]
                == crate::json::JsonView::Unsigned(value)),
        },
        crate::runner::envelope(spec) is NoValue ==> !(spec.target.parameters matches crate::json::JsonView::Object(
            members,
        ) && members.contains_key("value"@) && members["value"@] is Unsigned),
{
}

/// A journaled record is legal exactly where its spec names the modeled
/// capability, lies within the envelope and carries a lease of at most 300
/// seconds, its candidate value is the spec's, its baseline value is at most 100,
/// each set holds the declared number of samples, and its lifecycle fields are
/// those of its decision.
pub proof fn a_record_is_legal_exactly_when_it_agrees_with_itself(record: TrialRecord, figures: FpsFigures, id: i64)
    ensures
        crate::runner::replayed(id, record, figures).policy_legal <==> {
            &&& record.spec@.target.capability_id == "mock.value"@
            &&& crate::runner::envelope(record.spec@) is Inside
            &&& record.spec@.target.lease_seconds <= 300
            &&& record.spec@.target.parameters->Object_0["value"@] == crate::json::JsonView::Unsigned(
                record.candidate_value,
            )
            &&& record.baseline_value <= 100
            &&& record.baseline_samples@.len() == record.spec.baseline_samples
            &&& record.candidate_samples@.len() == record.spec.candidate_samples
            &&& match record.verdict.decision {
                Decision::Promote => (record.lifecycle is Some && record.lifecycle_error is None) || (
                record.lifecycle is None && record.lifecycle_error is Some),
                Decision::Reject => record.lifecycle is None && record.lifecycle_error is None,
            }
        },
        crate::runner::replayed(id, record, figures).policy_legal <==> crate::runner::replayed(
            id,
            record,
            figures,
        ).policy_reason is None,
{
    a_spec_is_accepted_exactly_within_the_envelope(record.spec@);
}

/// The record of a decided trial holds the spec, the two values and the two sets
/// as they were measured, and a rejected candidate has no lifecycle. What became
/// of a lifecycle stands in it, field by field.
pub proof fn a_record_holds_what_was_measured(
    trial: MeasuredTrial,
    verdict: Verdict,
    lifecycle: Option<Result<LifecycleResult, ControlPlaneError>>,
    record: TrialRecord,
)
    requires
        crate::runner::records(record, trial, verdict, lifecycle),
    ensures
        record.schema_version == 1,
        record.spec == trial.spec,
        record.baseline_value == trial.baseline_value,
        record.candidate_value == trial.candidate_value,
        record.baseline_samples == trial.baseline_samples,
        record.candidate_samples == trial.candidate_samples,
        record.verdict == verdict,
        record.lifecycle is Some <==> lifecycle matches Some(Ok(_)),
        record.lifecycle_error is Some <==> lifecycle matches Some(Err(_)),
        lifecycle matches Some(Ok(result)) ==> {
            let kept = record.lifecycle->0;
            kept.provider_id == result.provider_id && kept.preview == result.preview && kept.verified
                == result.verified && kept.rolled_back == result.rolled_back
        },
        lifecycle matches Some(Err(error)) ==> record.lifecycle_error->0.kind@ == error.kind_text()
            && record.lifecycle_error->0.error@ == error.sentence(),
{
}

/// A trial takes the lifecycle's steps one for one: what is handed out is handed
/// on with the same trial and verdict, and what ends it is journaled with them
/// and, where it is an error, told to the caller.
pub proof fn a_trial_carries_its_lifecycle(step: TrialStep, lifecycle: Step, trial: MeasuredTrial, verdict: Verdict)
    requires
        crate::runner::carries(step, lifecycle, trial, verdict),
    ensures
        lifecycle matches Step::Write { entry, pending } ==> step == (TrialStep::Lifecycle {
            entry,
            pending,
            trial,
            verdict,
        }),
        lifecycle matches Step::Done(Ok(_)) ==> (step matches TrialStep::Append { record, error } && error is None
            && record.verdict == verdict && record.baseline_samples == trial.baseline_samples && record.lifecycle is Some),
        lifecycle matches Step::Done(Err(told)) ==> (step matches TrialStep::Append { record, error } && error
            == Some(told) && record.verdict == verdict && record.lifecycle_error is Some),
{
}

/// The baseline of a trial is the value that the provider reports, held to the
/// same ceiling of 100 as the candidate.
pub proof fn a_baseline_is_what_the_provider_reports(
    outcome: Result<crate::contracts::StateSnapshot, ProviderError>,
    baseline: Result<u64, crate::runner::RunnerError>,
)
    requires
        crate::runner::baseline_of(outcome, baseline),
    ensures
        baseline matches Ok(value) ==> value <= 100 && (outcome matches Ok(snapshot) && (snapshot.state@ matches
            crate::json::JsonView::Object(members) && members.contains_key("value"@) && members["value"@]
            == crate::json::JsonView::Unsigned(value))),
        outcome matches Err(error) ==> baseline == Err::<u64, crate::runner::RunnerError>(
            crate::runner::RunnerError::ControlPlane(ControlPlaneError::Provider(error)),
        ),
        outcome matches Ok(snapshot) ==> (crate::json::member(snapshot.state@, "value"@) matches Some(
            crate::json::JsonView::Unsigned(value),
        ) ==> (value > 100 ==> baseline == Err::<u64, crate::runner::RunnerError>(
            crate::runner::RunnerError::BaselineOutOfPolicy(value),
        ))),
        outcome matches Ok(snapshot) ==> (!(crate::json::member(snapshot.state@, "value"@) matches Some(
            crate::json::JsonView::Unsigned(_),
        )) ==> baseline == Err::<u64, crate::runner::RunnerError>(crate::runner::RunnerError::InvalidBaseline)),
        outcome matches Ok(snapshot) && (snapshot.state@ matches crate::json::JsonView::Object(members)
            && members.contains_key("value"@) && (members["value"@] matches crate::json::JsonView::Unsigned(value)
            && value <= 100)) ==> baseline is Ok,
{
}

/// A measured trial was measured at its own two values: each set holds the
/// samples that the model gives for its value, in the count that the spec asks
/// for, so a trial at equal values measures alike.
pub proof fn a_trial_measures_its_two_values(trial: MeasuredTrial, at: int)
    requires
        trial.well_formed(),
    ensures
        trial.baseline_samples@.len() == trial.spec.baseline_samples,
        trial.candidate_samples@.len() == trial.spec.candidate_samples,
        trial.baseline_value <= 100,
        trial.candidate_value <= 100,
        0 <= at < trial.baseline_samples@.len() ==> {
            let sample = trial.baseline_samples@[at];
            &&& sample.fps.value() == (120 + 2 * trial.baseline_value) * crate::reading::half()
            &&& sample.temperature_c.value() == (100 + trial.baseline_value) * crate::reading::half()
            &&& sample.power_w.value() == (200 + 2 * trial.baseline_value) * crate::reading::half()
            &&& sample.errors == if trial.baseline_value > 90 { trial.baseline_value - 90 } else { 0 }
        },
        0 <= at < trial.candidate_samples@.len() ==> {
            let sample = trial.candidate_samples@[at];
            &&& sample.fps.value() == (120 + 2 * trial.candidate_value) * crate::reading::half()
            &&& sample.temperature_c.value() == (100 + trial.candidate_value) * crate::reading::half()
            &&& sample.power_w.value() == (200 + 2 * trial.candidate_value) * crate::reading::half()
            &&& sample.errors == if trial.candidate_value > 90 { trial.candidate_value - 90 } else { 0 }
        },
{
    a_spec_is_accepted_exactly_within_the_envelope(trial.spec@);
    if 0 <= at < trial.baseline_samples@.len() {
        assert(crate::model::steady(trial.baseline_samples@[at], trial.baseline_value));
    }
    if 0 <= at < trial.candidate_samples@.len() {
        assert(crate::model::steady(trial.candidate_samples@[at], trial.candidate_value));
    }
}

/// A record's version is the number it declares; one that declares none, or a
/// number of more than 32 bits, is of version zero, which no build writes.
pub proof fn a_record_declares_its_version(payload: crate::json::JsonView)
    ensures
        crate::json::member(payload, "schema_version"@) matches Some(crate::json::JsonView::Unsigned(n)) ==> (n
            <= 0xffff_ffff ==> crate::runner::declared_version(payload) == n),
        crate::runner::declared_version(payload) != 0 ==> (payload matches crate::json::JsonView::Object(members)
            && members.contains_key("schema_version"@) && members["schema_version"@]
            == crate::json::JsonView::Unsigned(crate::runner::declared_version(payload) as u64)),
{
}

/// Evaluating two sets gives each its own mean: whatever it returns carries the
/// baseline mean for the baseline and the candidate mean for the candidate, and
/// two evaluations that differ in the candidate's mean alone agree on the
/// baseline's aggregate.
pub proof fn an_evaluation_keeps_the_means_apart(
    baseline: Vec<MetricSample>,
    candidate: Vec<MetricSample>,
    figures: FpsFigures,
    candidate_mean: Reading,
    bounds: DecisionBounds,
    decided: Verdict,
    again: Verdict,
)
    requires
        baseline@.len() > 0,
        candidate@.len() > 0,
        call_ensures(evaluate, (&baseline, &candidate, figures, &bounds), decided),
        call_ensures(
            evaluate,
            (&baseline, &candidate, (FpsFigures { candidate_mean, ..figures }), &bounds),
            again,
        ),
    ensures
        decided.baseline.mean_fps == figures.baseline_mean,
        decided.candidate.mean_fps == figures.candidate_mean,
        decided.fps_improvement == figures.improvement,
        again.baseline == decided.baseline,
        again.candidate.mean_fps == candidate_mean,
        again.decision == decided.decision,
        again.reason == decided.reason,
{
}

/// Replaying two records that differ only in the verdict they carry comes to the
/// same recomputed verdict, and at least one of two that disagree on the decision
/// is found to be inconsistent.
pub proof fn replays_of_the_same_samples_agree(
    id: i64,
    one: TrialRecord,
    other: TrialRecord,
    figures: FpsFigures,
    first: ReplayOutcome,
    second: ReplayOutcome,
    first_consistent: bool,
    second_consistent: bool,
)
    requires
        one.baseline_samples@ == other.baseline_samples@,
        one.candidate_samples@ == other.candidate_samples@,
        one.spec.bounds == other.spec.bounds,
        call_ensures(replay_trial, (id, &one, figures), first),
        call_ensures(replay_trial, (id, &other, figures), second),
        call_ensures(ReplayOutcome::is_consistent, (&first,), first_consistent),
        call_ensures(ReplayOutcome::is_consistent, (&second,), second_consistent),
    ensures
        first.recomputed == second.recomputed,
        first.recorded == one.verdict,
        second.recorded == other.verdict,
        first.trial_id == id,
        one.verdict.decision != other.verdict.decision ==> !first_consistent || !second_consistent,
        first_consistent && second_consistent ==> one.verdict.reason == other.verdict.reason,
        one.verdict.equals(&first.recomputed) <==> first_consistent,
{
    a_replay_ignores_the_recorded_verdict(one, other, figures, id, id);
}

/// A spec for an advertised target is validated exactly where it lies within the
/// envelope, and the value that comes back is the one its target asks for.
pub proof fn a_validated_spec_is_within_the_envelope(
    manifest: ProviderManifest,
    spec: ExperimentSpec,
    checked: Result<u64, RunnerError>,
)
    requires
        call_ensures(validate, (&manifest, &spec), checked),
    ensures
        checked matches Ok(value) ==> {
            &&& value <= 100
            &&& spec.target.capability_id@ == "mock.value"@
            &&& crate::json::member(spec.target.parameters@, "value"@) == Some(crate::json::JsonView::Unsigned(value))
            &&& 1 <= spec.hypothesis@.len() <= 4096
            &&& spec.bounds.min_samples <= spec.baseline_samples <= 10_000
            &&& spec.bounds.min_samples <= spec.candidate_samples <= 10_000
            &&& spec.warmup_samples <= 10_000
            &&& spec.bounds.max_errors == 0
            &&& exists|i: int|
                0 <= i < manifest@.capabilities.len() && (#[trigger] manifest@.capabilities[i]).id == "mock.value"@
        },
        checked is Ok <==> spec.target.capability_id@ == "mock.value"@ && crate::runner::envelope(spec@) is Inside && (
        exists|i: int|
            0 <= i < manifest@.capabilities.len() && (#[trigger] manifest@.capabilities[i]).id == "mock.value"@),
{
    a_spec_is_accepted_exactly_within_the_envelope(spec@);
    assert(spec@.target.capability_id == spec.target.capability_id@);
    assert(spec@.target.parameters == spec.target.parameters@);
}

/// Deciding a trial starts a lifecycle only for a promotion, and then that of the
/// spec's own target; a rejection is journaled at once and touches nothing.
pub proof fn only_a_promotion_reaches_the_provider<P: Provider>(
    plane: ControlPlane<P>,
    trial: MeasuredTrial,
    figures: FpsFigures,
    step: TrialStep,
)
    requires
        trial.well_formed(),
        call_ensures(decide_trial::<P>, (&plane, trial, figures), step),
    ensures
        step matches TrialStep::Lifecycle { entry, pending, trial: carried, verdict } ==> {
            &&& verdict.decision == Decision::Promote
            &&& carried == trial
            &&& pending.request@ == trial.spec.target@
            &&& pending.request@.lease_seconds <= 300
            &&& entry.payload@ == PayloadView::Snapshot(pending.snapshot@)
            &&& figures.improvement.at_least(trial.spec.bounds.min_fps_improvement)
        },
        step matches TrialStep::Append { record, error } ==> {
            &&& record.spec == trial.spec
            &&& record.baseline_samples == trial.baseline_samples
            &&& record.candidate_samples == trial.candidate_samples
            &&& record.lifecycle is None
            &&& record.verdict.decision == Decision::Reject ==> error is None && record.lifecycle_error is None
            &&& record.verdict.decision == Decision::Promote ==> error is Some && record.lifecycle_error is Some
        },
{
    let verdict = crate::runner::trial_verdict(trial, figures);
    if verdict.decision == Decision::Promote {
        let lifecycle = choose|lifecycle: Step| #[trigger]
            crate::control_plane::starts(plane.accepted(), plane.state(), trial.spec@.target, lifecycle)
                && crate::runner::carries(step, lifecycle, trial, verdict);
        assert(crate::control_plane::starts(plane.accepted(), plane.state(), trial.spec@.target, lifecycle));
        crate::control_laws::a_lifecycle_opens_with_the_state_as_it_is(
            plane.accepted(),
            plane.state(),
            trial.spec@.target,
            lifecycle,
        );
        crate::control_laws::the_policy_lets_through_what_is_bounded(plane.accepted(), trial.spec@.target);
    }
}

/// A trial that is over is stored under the id the journal gave it, and the error
/// of its lifecycle is told before one of the trial journal.
pub proof fn a_finished_trial_is_stored_or_explained(
    record: TrialRecord,
    error: Option<ControlPlaneError>,
    reply: Result<i64, JournalFault>,
    finished: Result<StoredTrial, RunnerError>,
)
    requires
        call_ensures(finish_trial, (record, error, reply), finished),
    ensures
        finished is Ok <==> error is None && reply is Ok,
        finished matches Ok(stored) ==> reply == Ok::<i64, JournalFault>(stored.id) && stored.record == record,
        error matches Some(why) ==> finished == Err::<StoredTrial, RunnerError>(RunnerError::ControlPlane(why)),
        error is None ==> (reply matches Err(JournalFault::Storage(why)) ==> finished == Err::<
            StoredTrial,
            RunnerError,
        >(RunnerError::ControlPlane(ControlPlaneError::Journal(why)))),
        error is None ==> (reply matches Err(JournalFault::Encoding(why)) ==> finished == Err::<
            StoredTrial,
            RunnerError,
        >(RunnerError::ControlPlane(ControlPlaneError::Serialization(why)))),
{
}

/// A refused spec is told the first thing that is wrong with it: the hypothesis,
/// then the bounds in the order samples, temperature, power, gain and errors, then
/// the counts that are too large, then those that are too small, then what the
/// target holds.
pub proof fn a_spec_is_told_its_first_fault(spec: SpecView)
    ensures
        ({
            let told = crate::runner::envelope(spec);
            let bounds = spec.bounds;
            let worded = 1 <= spec.hypothesis.len() <= 4096;
            let counted = worded && bounds.min_samples <= 10_000;
            let cool = counted && bounds.max_temperature_c.finite() && 0 < bounds.max_temperature_c.value() <= 180
                * crate::reading::half();
            let frugal = cool && bounds.max_power_w.finite() && 0 < bounds.max_power_w.value() <= 500
                * crate::reading::half();
            let gaining = frugal && bounds.min_fps_improvement.finite() && bounds.min_fps_improvement.value() >= 0;
            let bounded = gaining && bounds.max_errors == 0;
            let small = bounded && spec.warmup_samples <= 10_000 && spec.baseline_samples <= 10_000
                && spec.candidate_samples <= 10_000;
            let large = small && spec.baseline_samples >= bounds.min_samples && spec.candidate_samples
                >= bounds.min_samples;
            let bare = large && !crate::json::has_member_besides(spec.target.parameters, "value"@);
            &&& !worded ==> (told matches Envelope::Outside(SpecFault::HypothesisLength { chars }) && (
            spec.hypothesis.len() <= usize::MAX ==> chars == spec.hypothesis.len()))
            &&& worded && !counted ==> told == Envelope::Outside(
                SpecFault::MinSamples { min_samples: bounds.min_samples },
            )
            &&& counted && !cool ==> told == Envelope::Outside(
                SpecFault::CeilingOutside {
                    ceiling: crate::runner::Ceiling::Temperature,
                    bound: bounds.max_temperature_c,
                },
            )
            &&& cool && !frugal ==> told == Envelope::Outside(
                SpecFault::CeilingOutside { ceiling: crate::runner::Ceiling::Power, bound: bounds.max_power_w },
            )
            &&& frugal && !gaining ==> told == Envelope::Outside(
                SpecFault::ImprovementNotAGain { improvement: bounds.min_fps_improvement },
            )
            &&& gaining && !bounded ==> told == Envelope::Outside(
                SpecFault::ErrorBudget { max_errors: bounds.max_errors },
            )
            &&& bounded && !small ==> (told matches Envelope::Outside(SpecFault::CountAbove { which, count }) && {
                &&& spec.warmup_samples > 10_000 ==> which == crate::runner::SampleCount::Warmup && count
                    == spec.warmup_samples
                &&& spec.warmup_samples <= 10_000 && spec.baseline_samples > 10_000 ==> which
                    == crate::runner::SampleCount::Baseline && count == spec.baseline_samples
                &&& spec.warmup_samples <= 10_000 && spec.baseline_samples <= 10_000 ==> which
                    == crate::runner::SampleCount::Candidate && count == spec.candidate_samples
            })
            &&& small && !large ==> (told matches Envelope::Outside(SpecFault::CountBelow {
                which,
                count,
                min_samples,
            }) && min_samples == bounds.min_samples && (spec.baseline_samples < bounds.min_samples ==> which
                == crate::runner::SampleCount::Baseline && count == spec.baseline_samples) && (spec.baseline_samples
                >= bounds.min_samples ==> which == crate::runner::SampleCount::Candidate && count
                == spec.candidate_samples))
            &&& large && !bare ==> told == Envelope::Outside(SpecFault::UnknownParameter)
            &&& bare ==> match crate::json::member(spec.target.parameters, "value"@) {
                Some(crate::json::JsonView::Unsigned(value)) => if value > 100 {
                    told == Envelope::Outside(SpecFault::ValueAbove { value })
                } else {
                    told == Envelope::Inside(value)
                },
                _ => told is NoValue,
            }
        }),
{
}

/// A record that is not legal is told the first thing about it that is not: its
/// capability, its spec, its lease, its candidate value, its baseline value, the
/// size of either set, and last its lifecycle.
pub proof fn a_record_is_told_its_first_breach(record: TrialRecord, value: u64)
    ensures
        ({
            let told = crate::runner::breach(record);
            let spec = record.spec@;
            let known = spec.target.capability_id == "mock.value"@;
            let inside = known && crate::runner::envelope(spec) == Envelope::Inside(value);
            let leased = inside && spec.target.lease_seconds <= 300;
            let aimed = leased && record.candidate_value == value;
            let based = aimed && record.baseline_value <= 100;
            let first = based && record.baseline_samples@.len() == spec.baseline_samples;
            let second = first && record.candidate_samples@.len() == spec.candidate_samples;
            let completed = record.lifecycle is Some;
            let failed = record.lifecycle_error is Some;
            &&& !known ==> told == Some(PolicyBreach::Capability)
            &&& known ==> (crate::runner::envelope(spec) matches Envelope::Outside(fault) ==> told == Some(
                PolicyBreach::Spec(fault),
            ))
            &&& known && crate::runner::envelope(spec) is NoValue ==> told == Some(PolicyBreach::NoValue)
            &&& inside && !leased ==> told == Some(PolicyBreach::Lease(spec.target.lease_seconds))
            &&& leased && !aimed ==> told == Some(PolicyBreach::CandidateValue)
            &&& aimed && !based ==> told == Some(PolicyBreach::BaselineValue(record.baseline_value))
            &&& based && !first ==> told == Some(PolicyBreach::BaselineCount)
            &&& first && !second ==> told == Some(PolicyBreach::CandidateCount)
            &&& second ==> (told is None <==> match record.verdict.decision {
                Decision::Promote => completed && !failed || failed && !completed,
                Decision::Reject => !completed && !failed,
            })
            &&& second && told is Some ==> told == Some(PolicyBreach::Lifecycle)
        }),
{
}

/// A journaled payload is read only where it is JSON that declares the record
/// version of this build, and is otherwise refused with the version it declares.
pub proof fn only_a_supported_record_is_read(payload: Json, checked: Result<(), RunnerError>)
    requires
        call_ensures(check_record_version, (&payload,), checked),
    ensures
        checked is Ok <==> crate::json::member(payload@, "schema_version"@) == Some(
            crate::json::JsonView::Unsigned(1),
        ),
        checked matches Err(error) ==> (error matches RunnerError::UnsupportedRecordVersion(version) && version != 1
            && (crate::json::member(payload@, "schema_version"@) matches Some(crate::json::JsonView::Unsigned(n)) ==> (n
            <= 0xffff_ffff ==> version == n))),
{
}

/// A row that is there is read as it is, and one that is not is reported as an
/// unknown trial under the id that was asked for.
pub proof fn a_missing_trial_is_named(id: i64, row: Option<String>, payload: Result<String, RunnerError>)
    requires
        call_ensures(read_trial, (id, row), payload),
    ensures
        row matches Some(text) ==> payload == Ok::<String, RunnerError>(text),
        row is None ==> payload == Err::<String, RunnerError>(
            RunnerError::ControlPlane(ControlPlaneError::UnknownTrial(id)),
        ),
{
}

/// A sentence about a spec shows the number at fault and the limit that it missed.
pub proof fn a_spec_fault_shows_its_numbers(fault: SpecFault, shown: Seq<char>)
    ensures
        fault matches SpecFault::HypothesisLength { chars } ==> fault.sentence(shown) == "hypothesis is "@
            + crate::text::decimal_digits(chars as u64 as nat) + " characters, outside the "@
            + crate::text::decimal_digits(1) + " to "@ + crate::text::decimal_digits(4096) + " the policy allows"@,
        fault matches SpecFault::MinSamples { min_samples } ==> fault.sentence(shown) == "min_samples is "@
            + crate::text::decimal_digits(min_samples as nat) + ", above the "@ + crate::text::decimal_digits(10_000)
            + " ceiling"@,
        fault matches SpecFault::CeilingOutside { ceiling, .. } ==> fault.sentence(shown) == (
        if ceiling is Temperature { "max_temperature_c"@ } else { "max_power_w"@ }) + " is "@ + shown
            + ", outside the 0 exclusive to "@ + crate::text::decimal_digits(
            if ceiling is Temperature { 90 } else { 250 },
        ) + " inclusive the policy allows"@,
        fault is ImprovementNotAGain ==> fault.sentence(shown) == "min_fps_improvement is "@ + shown
            + ", but the policy requires a finite gain of at least 0"@,
        fault matches SpecFault::ErrorBudget { max_errors } ==> fault.sentence(shown) == "max_errors is "@
            + crate::text::decimal_digits(max_errors as nat) + ", above the "@ + crate::text::decimal_digits(0)
            + " the policy allows"@,
        fault matches SpecFault::CountAbove { which, count } ==> fault.sentence(shown) == (if which is Warmup {
            "warmup_samples"@
        } else if which is Baseline {
            "baseline_samples"@
        } else {
            "candidate_samples"@
        }) + " is "@ + crate::text::decimal_digits(count as nat) + ", above the "@ + crate::text::decimal_digits(10_000)
            + " ceiling"@,
        fault matches SpecFault::CountBelow { which, count, min_samples } ==> fault.sentence(shown) == (
        if which is Warmup {
            "warmup_samples"@
        } else if which is Baseline {
            "baseline_samples"@
        } else {
            "candidate_samples"@
        }) + " is "@ + crate::text::decimal_digits(count as nat) + ", below the "@ + crate::text::decimal_digits(
            min_samples as nat,
        ) + " the bounds require"@,
        fault is UnknownParameter ==> fault.sentence(shown) == "target carries a parameter other than value"@,
        fault matches SpecFault::ValueAbove { value } ==> fault.sentence(shown) == "target value is "@
            + crate::text::decimal_digits(value as nat) + ", above the "@ + crate::text::decimal_digits(100)
            + " the policy allows"@,
{
}

} // verus!
