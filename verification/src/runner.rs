//! The trial runner and its journal-only replay.
//!
//! A trial measures a baseline, measures the candidate, applies the immutable
//! evaluator and, only when the verdict promotes, runs the candidate through the
//! broker lifecycle. The trial is journaled once, after that lifecycle has
//! finished, as a self-describing [`TrialRecord`]; [`replay_trial`] re-evaluates
//! it from that record alone.
use vstd::prelude::*;

use crate::contracts::{
    Decision, DecisionBounds, ExperimentSpec, MetricSample, ProviderManifest, SpecView, Verdict,
    MAX_DECISION_ERRORS, MAX_DECISION_POWER_W, MAX_DECISION_TEMPERATURE_C, MAX_HYPOTHESIS_CHARS,
    MAX_LEASE_SECONDS, MAX_SAMPLES, MIN_HYPOTHESIS_CHARS,
};
use crate::control_plane::{
    is_advertised, journal_error, ControlPlane, ControlPlaneError, LifecycleResult, Pending, Step,
};
use crate::evaluator::{evaluate, FpsFigures};
use crate::journal::{JournalEntry, JournalFault};
use crate::json::{read_json, Json, JsonView};
use crate::mock::MAX_MOCK_VALUE;
use crate::model::{measure, MODELED_CAPABILITY_ID};
use crate::provider::{Provider, ProviderError};
use crate::reading::Reading;
use crate::text::{decimal, same_text};

verus! {

/// Version of the durable [`TrialRecord`] format written to the journal.
pub const TRIAL_RECORD_VERSION: u32 = 1;

/// One of the sample counts of a spec.
#[derive(Clone, Copy, Debug, PartialEq, Eq, Structural)]
pub enum SampleCount {
    /// `warmup_samples`.
    Warmup,
    /// `baseline_samples`.
    Baseline,
    /// `candidate_samples`.
    Candidate,
}

/// One of the physical ceilings of the decision bounds.
#[derive(Clone, Copy, Debug, PartialEq, Eq, Structural)]
pub enum Ceiling {
    /// `max_temperature_c`.
    Temperature,
    /// `max_power_w`.
    Power,
}

/// How a spec steps outside the bounded alpha envelope.
#[derive(Clone, Copy, Debug)]
pub enum SpecFault {
    /// The hypothesis is blank or too long.
    HypothesisLength {
        /// Its length in characters.
        chars: usize,
    },
    /// The bounds ask for more samples than the ceiling allows.
    MinSamples {
        /// The samples asked for.
        min_samples: u32,
    },
    /// A physical ceiling is not a positive number within the policy's own.
    CeilingOutside {
        /// Which ceiling.
        ceiling: Ceiling,
        /// What the spec sets it to.
        bound: Reading,
    },
    /// The required improvement is not a finite, non-negative gain.
    ImprovementNotAGain {
        /// What the spec sets it to.
        improvement: Reading,
    },
    /// The error budget is above the policy's.
    ErrorBudget {
        /// What the spec sets it to.
        max_errors: u64,
    },
    /// A sample count is above the ceiling.
    CountAbove {
        /// Which count.
        which: SampleCount,
        /// What the spec sets it to.
        count: u32,
    },
    /// A sample count is below what the spec's own bounds require.
    CountBelow {
        /// Which count.
        which: SampleCount,
        /// What the spec sets it to.
        count: u32,
        /// What the bounds require.
        min_samples: u32,
    },
    /// The target carries a parameter that the capability does not take.
    UnknownParameter,
    /// The target value is above the policy's ceiling.
    ValueAbove {
        /// What the spec sets it to.
        value: u64,
    },
}

/// Fail-closed errors raised while running or replaying a trial.
#[derive(Debug)]
pub enum RunnerError {
    /// The broker or the durable journal rejected an operation.
    ControlPlane(ControlPlaneError),
    /// The experiment specification is outside the bounded alpha envelope.
    InvalidSpec(SpecFault),
    /// The experiment target did not carry an unsigned mock value.
    InvalidTarget,
    /// The provider snapshot did not carry an unsigned mock value.
    InvalidBaseline,
    /// The provider is sitting at a value outside the policy envelope.
    BaselineOutOfPolicy(u64),
    /// A journaled trial record was written by an unsupported record version.
    UnsupportedRecordVersion(u32),
    /// A journaled trial record could not be decoded for replay.
    Decode(String),
}

impl SampleCount {
    /// The name of the field.
    pub open spec fn text(&self) -> Seq<char> {
        match self {
            SampleCount::Warmup => "warmup_samples"@,
            SampleCount::Baseline => "baseline_samples"@,
            SampleCount::Candidate => "candidate_samples"@,
        }
    }

    /// The name of the field.
    pub fn label(&self) -> (label: &'static str)
        ensures
            label@ == self.text(),
    {
        match self {
            SampleCount::Warmup => "warmup_samples",
            SampleCount::Baseline => "baseline_samples",
            SampleCount::Candidate => "candidate_samples",
        }
    }
}

impl Ceiling {
    /// The name of the field.
    pub open spec fn text(&self) -> Seq<char> {
        match self {
            Ceiling::Temperature => "max_temperature_c"@,
            Ceiling::Power => "max_power_w"@,
        }
    }

    /// The policy's own ceiling.
    pub open spec fn limit(&self) -> u64 {
        match self {
            Ceiling::Temperature => MAX_DECISION_TEMPERATURE_C,
            Ceiling::Power => MAX_DECISION_POWER_W,
        }
    }

    /// The name of the field.
    pub fn label(&self) -> (label: &'static str)
        ensures
            label@ == self.text(),
    {
        match self {
            Ceiling::Temperature => "max_temperature_c",
            Ceiling::Power => "max_power_w",
        }
    }

    /// The policy's own ceiling.
    pub fn policy_limit(&self) -> (limit: u64)
        ensures
            limit == self.limit(),
    {
        match self {
            Ceiling::Temperature => MAX_DECISION_TEMPERATURE_C,
            Ceiling::Power => MAX_DECISION_POWER_W,
        }
    }
}

/// Decimal notation, as it stands in a sentence.
pub open spec fn digits(n: u64) -> Seq<char> {
    crate::text::decimal_digits(n as nat)
}

impl SpecFault {
    /// The sentence that describes the fault; `shown` is the decimal notation of
    /// the threshold at fault, where it is a reading.
    pub open spec fn sentence(&self, shown: Seq<char>) -> Seq<char> {
        match self {
            SpecFault::HypothesisLength { chars } => "hypothesis is "@ + digits(*chars as u64)
                + " characters, outside the "@ + digits(MIN_HYPOTHESIS_CHARS as u64) + " to "@ + digits(
                MAX_HYPOTHESIS_CHARS as u64,
            ) + " the policy allows"@,
            SpecFault::MinSamples { min_samples } => "min_samples is "@ + digits(*min_samples as u64) + ", above the "@
                + digits(MAX_SAMPLES as u64) + " ceiling"@,
            SpecFault::CeilingOutside { ceiling, .. } => ceiling.text() + " is "@ + shown
                + ", outside the 0 exclusive to "@ + digits(ceiling.limit()) + " inclusive the policy allows"@,
            SpecFault::ImprovementNotAGain { .. } => "min_fps_improvement is "@ + shown
                + ", but the policy requires a finite gain of at least 0"@,
            SpecFault::ErrorBudget { max_errors } => "max_errors is "@ + digits(*max_errors) + ", above the "@ + digits(
                MAX_DECISION_ERRORS,
            ) + " the policy allows"@,
            SpecFault::CountAbove { which, count } => which.text() + " is "@ + digits(*count as u64) + ", above the "@
                + digits(MAX_SAMPLES as u64) + " ceiling"@,
            SpecFault::CountBelow { which, count, min_samples } => which.text() + " is "@ + digits(*count as u64)
                + ", below the "@ + digits(*min_samples as u64) + " the bounds require"@,
            SpecFault::UnknownParameter => "target carries a parameter other than value"@,
            SpecFault::ValueAbove { value } => "target value is "@ + digits(*value) + ", above the "@ + digits(
                MAX_MOCK_VALUE,
            ) + " the policy allows"@,
        }
    }

    /// The reading that a sentence about the fault has to show, if any.
    pub fn reading(&self) -> (shown: Option<Reading>)
        ensures
            shown == match *self {
                SpecFault::CeilingOutside { bound, .. } => Some(bound),
                SpecFault::ImprovementNotAGain { improvement } => Some(improvement),
                _ => None,
            },
    {
        match self {
            SpecFault::CeilingOutside { bound, .. } => Some(*bound),
            SpecFault::ImprovementNotAGain { improvement } => Some(*improvement),
            _ => None,
        }
    }

    /// The sentence that describes the fault.
    pub fn message(&self, shown: &str) -> (text: String)
        ensures
            text@ == self.sentence(shown@),
    {
        match self {
            SpecFault::HypothesisLength { chars } => "hypothesis is ".to_owned()
                .concat(decimal(*chars as u64).as_str())
                .concat(" characters, outside the ")
                .concat(decimal(MIN_HYPOTHESIS_CHARS as u64).as_str())
                .concat(" to ")
                .concat(decimal(MAX_HYPOTHESIS_CHARS as u64).as_str())
                .concat(" the policy allows"),
            SpecFault::MinSamples { min_samples } => "min_samples is ".to_owned()
                .concat(decimal(*min_samples as u64).as_str())
                .concat(", above the ")
                .concat(decimal(MAX_SAMPLES as u64).as_str())
                .concat(" ceiling"),
            SpecFault::CeilingOutside { ceiling, .. } => ceiling.label().to_owned()
                .concat(" is ")
                .concat(shown)
                .concat(", outside the 0 exclusive to ")
                .concat(decimal(ceiling.policy_limit()).as_str())
                .concat(" inclusive the policy allows"),
            SpecFault::ImprovementNotAGain { .. } => "min_fps_improvement is ".to_owned()
                .concat(shown)
                .concat(", but the policy requires a finite gain of at least 0"),
            SpecFault::ErrorBudget { max_errors } => "max_errors is ".to_owned()
                .concat(decimal(*max_errors).as_str())
                .concat(", above the ")
                .concat(decimal(MAX_DECISION_ERRORS).as_str())
                .concat(" the policy allows"),
            SpecFault::CountAbove { which, count } => which.label().to_owned()
                .concat(" is ")
                .concat(decimal(*count as u64).as_str())
                .concat(", above the ")
                .concat(decimal(MAX_SAMPLES as u64).as_str())
                .concat(" ceiling"),
            SpecFault::CountBelow { which, count, min_samples } => which.label().to_owned()
                .concat(" is ")
                .concat(decimal(*count as u64).as_str())
                .concat(", below the ")
                .concat(decimal(*min_samples as u64).as_str())
                .concat(" the bounds require"),
            SpecFault::UnknownParameter => "target carries a parameter other than value".to_owned(),
            SpecFault::ValueAbove { value } => "target value is ".to_owned()
                .concat(decimal(*value).as_str())
                .concat(", above the ")
                .concat(decimal(MAX_MOCK_VALUE).as_str())
                .concat(" the policy allows"),
        }
    }
}

impl RunnerError {
    /// The sentence that describes the error; `shown` is the decimal notation of
    /// a threshold at fault, where it is a reading.
    pub open spec fn sentence(&self, shown: Seq<char>) -> Seq<char> {
        match self {
            RunnerError::ControlPlane(error) => error.sentence(),
            RunnerError::InvalidSpec(fault) => "experiment spec rejected: "@ + fault.sentence(shown),
            RunnerError::InvalidTarget => "experiment target is missing an unsigned mock value"@,
            RunnerError::InvalidBaseline => "provider snapshot is missing an unsigned mock value"@,
            RunnerError::BaselineOutOfPolicy(value) => "provider snapshot value is "@ + digits(*value) + ", above the "@
                + digits(MAX_MOCK_VALUE) + " the policy allows"@,
            RunnerError::UnsupportedRecordVersion(version) => "journaled trial uses unsupported record version "@
                + digits(*version as u64),
            RunnerError::Decode(why) => why@,
        }
    }

    /// The sentence that describes the error.
    pub fn message(&self, shown: &str) -> (text: String)
        ensures
            text@ == self.sentence(shown@),
    {
        match self {
            RunnerError::ControlPlane(error) => error.message(),
            RunnerError::InvalidSpec(fault) => "experiment spec rejected: ".to_owned().concat(
                fault.message(shown).as_str(),
            ),
            RunnerError::InvalidTarget => "experiment target is missing an unsigned mock value".to_owned(),
            RunnerError::InvalidBaseline => "provider snapshot is missing an unsigned mock value".to_owned(),
            RunnerError::BaselineOutOfPolicy(value) => "provider snapshot value is ".to_owned()
                .concat(decimal(*value).as_str())
                .concat(", above the ")
                .concat(decimal(MAX_MOCK_VALUE).as_str())
                .concat(" the policy allows"),
            RunnerError::UnsupportedRecordVersion(version) => "journaled trial uses unsupported record version ".to_owned()
                .concat(decimal(*version as u64).as_str()),
            RunnerError::Decode(why) => why.clone(),
        }
    }
}

/// Whether the whole number `n` is at least the reading.
pub open spec fn within_whole(reading: Reading, n: u64) -> bool {
    !reading.nan() && reading.value() <= (2 * n) * crate::reading::half()
}

/// The fault of decision bounds against the policy envelope: the first that
/// applies, in this order.
pub open spec fn bounds_fault(bounds: DecisionBounds) -> Option<SpecFault> {
    if bounds.min_samples > MAX_SAMPLES {
        Some(SpecFault::MinSamples { min_samples: bounds.min_samples })
    } else if !(bounds.max_temperature_c.finite() && bounds.max_temperature_c.value() > 0 && within_whole(
        bounds.max_temperature_c,
        MAX_DECISION_TEMPERATURE_C,
    )) {
        Some(SpecFault::CeilingOutside { ceiling: Ceiling::Temperature, bound: bounds.max_temperature_c })
    } else if !(bounds.max_power_w.finite() && bounds.max_power_w.value() > 0 && within_whole(
        bounds.max_power_w,
        MAX_DECISION_POWER_W,
    )) {
        Some(SpecFault::CeilingOutside { ceiling: Ceiling::Power, bound: bounds.max_power_w })
    } else if !(bounds.min_fps_improvement.finite() && bounds.min_fps_improvement.value() >= 0) {
        Some(SpecFault::ImprovementNotAGain { improvement: bounds.min_fps_improvement })
    } else if bounds.max_errors > MAX_DECISION_ERRORS {
        Some(SpecFault::ErrorBudget { max_errors: bounds.max_errors })
    } else {
        None
    }
}

/// Whether a ceiling stands outside the policy's own.
fn outside(bound: Reading, ceiling: u64) -> (yes: bool)
    requires
        ceiling <= 1000,
    ensures
        yes == !(bound.finite() && bound.value() > 0 && within_whole(bound, ceiling)),
{
    !bound.is_finite() || Reading::zero().reaches(bound) || bound.exceeds(Reading::whole(ceiling))
}

/// Rejects decision bounds that are looser than the policy envelope.
///
/// A spec may tighten a bound but never loosen it past the policy's. Thresholds
/// that are not finite are refused outright, because something that is not a
/// number compares false against every ceiling and would silently pass.
pub fn validate_bounds(bounds: &DecisionBounds) -> (checked: Result<(), SpecFault>)
    requires
        bounds.well_formed(),
    ensures
        checked == match bounds_fault(*bounds) {
            Some(fault) => Err::<(), SpecFault>(fault),
            None => Ok::<(), SpecFault>(()),
        },
{
    if bounds.min_samples > MAX_SAMPLES {
        return Err(SpecFault::MinSamples { min_samples: bounds.min_samples });
    }
    if outside(bounds.max_temperature_c, MAX_DECISION_TEMPERATURE_C) {
        return Err(SpecFault::CeilingOutside { ceiling: Ceiling::Temperature, bound: bounds.max_temperature_c });
    }
    if outside(bounds.max_power_w, MAX_DECISION_POWER_W) {
        return Err(SpecFault::CeilingOutside { ceiling: Ceiling::Power, bound: bounds.max_power_w });
    }
    let improvement = bounds.min_fps_improvement;
    if !improvement.is_finite() || !improvement.reaches(Reading::zero()) {
        return Err(SpecFault::ImprovementNotAGain { improvement });
    }
    if bounds.max_errors > MAX_DECISION_ERRORS {
        return Err(SpecFault::ErrorBudget { max_errors: bounds.max_errors });
    }
    Ok(())
}

/// Where a spec stands against the bounded alpha envelope.
pub enum Envelope {
    /// Inside, with this candidate value.
    Inside(u64),
    /// Outside, for this reason.
    Outside(SpecFault),
    /// The target carries no unsigned value.
    NoValue,
}

/// The envelope check, in its order; the capability is checked before it.
pub open spec fn envelope(spec: SpecView) -> Envelope {
    let bounds = spec.bounds;
    if spec.hypothesis.len() < MIN_HYPOTHESIS_CHARS || spec.hypothesis.len() > MAX_HYPOTHESIS_CHARS {
        Envelope::Outside(SpecFault::HypothesisLength { chars: spec.hypothesis.len() as usize })
    } else if bounds_fault(bounds) is Some {
        Envelope::Outside(bounds_fault(bounds)->0)
    } else if spec.warmup_samples > MAX_SAMPLES {
        Envelope::Outside(SpecFault::CountAbove { which: SampleCount::Warmup, count: spec.warmup_samples })
    } else if spec.baseline_samples > MAX_SAMPLES {
        Envelope::Outside(SpecFault::CountAbove { which: SampleCount::Baseline, count: spec.baseline_samples })
    } else if spec.candidate_samples > MAX_SAMPLES {
        Envelope::Outside(SpecFault::CountAbove { which: SampleCount::Candidate, count: spec.candidate_samples })
    } else if spec.baseline_samples < bounds.min_samples {
        Envelope::Outside(
            SpecFault::CountBelow {
                which: SampleCount::Baseline,
                count: spec.baseline_samples,
                min_samples: bounds.min_samples,
            },
        )
    } else if spec.candidate_samples < bounds.min_samples {
        Envelope::Outside(
            SpecFault::CountBelow {
                which: SampleCount::Candidate,
                count: spec.candidate_samples,
                min_samples: bounds.min_samples,
            },
        )
    } else if crate::json::has_member_besides(spec.target.parameters, "value"@) {
        Envelope::Outside(SpecFault::UnknownParameter)
    } else {
        match crate::mock::requested_value(spec.target) {
            None => Envelope::NoValue,
            Some(value) => if value > MAX_MOCK_VALUE {
                Envelope::Outside(SpecFault::ValueAbove { value })
            } else {
                Envelope::Inside(value)
            },
        }
    }
}

/// Checks a spec against the bounded alpha envelope and returns the candidate
/// value.
fn check_envelope(spec: &ExperimentSpec) -> (checked: Result<u64, RunnerError>)
    requires
        spec.well_formed(),
    ensures
        match envelope(spec@) {
            Envelope::Inside(value) => checked == Ok::<u64, RunnerError>(value),
            Envelope::Outside(fault) => checked == Err::<u64, RunnerError>(RunnerError::InvalidSpec(fault)),
            Envelope::NoValue => checked == Err::<u64, RunnerError>(RunnerError::InvalidTarget),
        },
{
    let chars: usize = spec.hypothesis.as_str().unicode_len();
    if chars < MIN_HYPOTHESIS_CHARS as usize || chars > MAX_HYPOTHESIS_CHARS as usize {
        return Err(RunnerError::InvalidSpec(SpecFault::HypothesisLength { chars }));
    }
    match validate_bounds(&spec.bounds) {
        Err(fault) => {
            return Err(RunnerError::InvalidSpec(fault));
        },
        Ok(()) => {},
    }
    let min_samples: u32 = spec.bounds.min_samples;
    if spec.warmup_samples > MAX_SAMPLES {
        return Err(
            RunnerError::InvalidSpec(
                SpecFault::CountAbove { which: SampleCount::Warmup, count: spec.warmup_samples },
            ),
        );
    }
    if spec.baseline_samples > MAX_SAMPLES {
        return Err(
            RunnerError::InvalidSpec(
                SpecFault::CountAbove { which: SampleCount::Baseline, count: spec.baseline_samples },
            ),
        );
    }
    if spec.candidate_samples > MAX_SAMPLES {
        return Err(
            RunnerError::InvalidSpec(
                SpecFault::CountAbove { which: SampleCount::Candidate, count: spec.candidate_samples },
            ),
        );
    }
    if spec.baseline_samples < min_samples {
        return Err(
            RunnerError::InvalidSpec(
                SpecFault::CountBelow { which: SampleCount::Baseline, count: spec.baseline_samples, min_samples },
            ),
        );
    }
    if spec.candidate_samples < min_samples {
        return Err(
            RunnerError::InvalidSpec(
                SpecFault::CountBelow { which: SampleCount::Candidate, count: spec.candidate_samples, min_samples },
            ),
        );
    }
    if spec.target.parameters.has_besides("value") {
        return Err(RunnerError::InvalidSpec(SpecFault::UnknownParameter));
    }
    match spec.target.parameters.u64_member("value") {
        None => Err(RunnerError::InvalidTarget),
        Some(value) => if value > MAX_MOCK_VALUE {
            Err(RunnerError::InvalidSpec(SpecFault::ValueAbove { value }))
        } else {
            Ok(value)
        },
    }
}

/// Rejects a spec whose parameters are unbounded or self-contradictory and
/// returns the validated candidate knob value.
///
/// The target must name the single capability that the measurement model
/// describes, and the accepted provider must advertise it, so unknown hardware
/// fails closed before anything is measured.
pub fn validate(manifest: &ProviderManifest, spec: &ExperimentSpec) -> (checked: Result<u64, RunnerError>)
    requires
        spec.well_formed(),
    ensures
        if spec@.target.capability_id == MODELED_CAPABILITY_ID@ && crate::control_plane::advertises(manifest@, spec@.target.capability_id) {
            match envelope(spec@) {
                Envelope::Inside(value) => checked == Ok::<u64, RunnerError>(value),
                Envelope::Outside(fault) => checked == Err::<u64, RunnerError>(RunnerError::InvalidSpec(fault)),
                Envelope::NoValue => checked == Err::<u64, RunnerError>(RunnerError::InvalidTarget),
            }
        } else {
            checked matches Err(RunnerError::ControlPlane(ControlPlaneError::UnknownCapability(id))) && id@
                == spec@.target.capability_id
        },
{
    let id = spec.target.capability_id.as_str();
    if !same_text(id, MODELED_CAPABILITY_ID) || !is_advertised(manifest, id) {
        return Err(
            RunnerError::ControlPlane(ControlPlaneError::UnknownCapability(spec.target.capability_id.clone())),
        );
    }
    check_envelope(spec)
}

/// A durable mirror of a broker [`LifecycleResult`].
#[derive(Clone, Debug)]
pub struct LifecycleOutcome {
    /// Provider that owned the change.
    pub provider_id: String,
    /// Human-readable preview produced before the write.
    pub preview: String,
    /// Whether the requested value was observed after apply.
    pub verified: bool,
    /// Whether the captured baseline was restored before returning.
    pub rolled_back: bool,
}

/// The durable record of a lifecycle that failed after the trial was measured.
#[derive(Clone, Debug)]
pub struct LifecycleFailure {
    /// Stable machine-readable error kind reported by the broker.
    pub kind: String,
    /// Human-readable text of the error the broker returned.
    pub error: String,
}

/// The complete, replayable record of one trial.
///
/// On a promotion exactly one of `lifecycle` and `lifecycle_error` is set,
/// because the record is written once the lifecycle has finished. On a rejection
/// both are absent: no lifecycle ran.
#[derive(Debug)]
pub struct TrialRecord {
    /// Version of the record format; see [`TRIAL_RECORD_VERSION`].
    pub schema_version: u32,
    /// The experiment specification that was run.
    pub spec: ExperimentSpec,
    /// The knob value measured as the baseline.
    pub baseline_value: u64,
    /// The knob value measured as the candidate.
    pub candidate_value: u64,
    /// The recorded baseline measurement set.
    pub baseline_samples: Vec<MetricSample>,
    /// The recorded candidate measurement set.
    pub candidate_samples: Vec<MetricSample>,
    /// The verdict the immutable evaluator produced.
    pub verdict: Verdict,
    /// The broker lifecycle outcome, present only when a promoted trial's
    /// lifecycle completed.
    pub lifecycle: Option<LifecycleOutcome>,
    /// Why a promoted trial's lifecycle did not complete, present only when the
    /// broker returned an error.
    pub lifecycle_error: Option<LifecycleFailure>,
}

/// A [`TrialRecord`] paired with the journal identifier it was stored under.
#[derive(Debug)]
pub struct StoredTrial {
    /// The durable trial-journal identifier.
    pub id: i64,
    /// The record that was journaled.
    pub record: TrialRecord,
}

/// A trial that has been measured but not decided.
#[derive(Debug)]
pub struct MeasuredTrial {
    /// The experiment specification under test.
    pub spec: ExperimentSpec,
    /// The knob value measured as the baseline.
    pub baseline_value: u64,
    /// The knob value measured as the candidate.
    pub candidate_value: u64,
    /// The baseline measurement set.
    pub baseline_samples: Vec<MetricSample>,
    /// The candidate measurement set.
    pub candidate_samples: Vec<MetricSample>,
}

/// What a trial does next.
#[derive(Debug)]
pub enum TrialStep {
    /// Write this record of the promoted change's lifecycle.
    Lifecycle {
        /// The record to write.
        entry: JournalEntry,
        /// The lifecycle to resume with the outcome.
        pending: Pending,
        /// The trial that authorized it.
        trial: MeasuredTrial,
        /// The verdict that authorized it.
        verdict: Verdict,
    },
    /// Append this record to the trial journal.
    Append {
        /// The record to append.
        record: TrialRecord,
        /// The error of a lifecycle that failed; it is reported once the record
        /// has been appended.
        error: Option<ControlPlaneError>,
    },
}

impl MeasuredTrial {
    /// Whether the sets are measurements of the two values in the counts that
    /// the spec asks for, and whether the values are within the envelope.
    pub open spec fn well_formed(&self) -> bool {
        &&& self.spec.well_formed()
        &&& self.spec@.target.capability_id == MODELED_CAPABILITY_ID@
        &&& envelope(self.spec@) == Envelope::Inside(self.candidate_value)
        &&& self.baseline_value <= MAX_MOCK_VALUE
        &&& crate::model::measured(self.baseline_samples@, self.baseline_value, self.spec.baseline_samples as nat)
        &&& crate::model::measured(self.candidate_samples@, self.candidate_value, self.spec.candidate_samples as nat)
    }
}

/// What is left of a broker outcome in the trial record.
pub open spec fn noted_outcome(
    lifecycle: Option<Result<LifecycleResult, ControlPlaneError>>,
    outcome: Option<LifecycleOutcome>,
    failure: Option<LifecycleFailure>,
) -> bool {
    match lifecycle {
        None => outcome is None && failure is None,
        Some(Ok(result)) => {
            &&& failure is None
            &&& outcome matches Some(mirror)
            &&& mirror.provider_id == result.provider_id
            &&& mirror.preview == result.preview
            &&& mirror.verified == result.verified
            &&& mirror.rolled_back == result.rolled_back
        },
        Some(Err(error)) => {
            &&& outcome is None
            &&& failure matches Some(mirror)
            &&& mirror.kind@ == error.kind_text()
            &&& mirror.error@ == error.sentence()
        },
    }
}

/// The record of a trial whose lifecycle has finished, or never ran.
pub open spec fn records(
    record: TrialRecord,
    trial: MeasuredTrial,
    verdict: Verdict,
    lifecycle: Option<Result<LifecycleResult, ControlPlaneError>>,
) -> bool {
    &&& record.schema_version == TRIAL_RECORD_VERSION
    &&& record.spec == trial.spec
    &&& record.baseline_value == trial.baseline_value
    &&& record.candidate_value == trial.candidate_value
    &&& record.baseline_samples == trial.baseline_samples
    &&& record.candidate_samples == trial.candidate_samples
    &&& record.verdict == verdict
    &&& noted_outcome(lifecycle, record.lifecycle, record.lifecycle_error)
}

/// The error that the caller of a finished lifecycle is told of.
pub open spec fn lifecycle_error(
    lifecycle: Option<Result<LifecycleResult, ControlPlaneError>>,
) -> Option<ControlPlaneError> {
    match lifecycle {
        Some(Err(error)) => Some(error),
        _ => None,
    }
}

/// The trial step that carries on a step of the lifecycle: a record is passed
/// on, and an end is journaled with the trial.
pub open spec fn carries(step: TrialStep, lifecycle: Step, trial: MeasuredTrial, verdict: Verdict) -> bool {
    match lifecycle {
        Step::Write { entry, pending } => step == (TrialStep::Lifecycle { entry, pending, trial, verdict }),
        Step::Done(outcome) => {
            &&& step matches TrialStep::Append { record, error }
            &&& records(record, trial, verdict, Some(outcome))
            &&& error == lifecycle_error(Some(outcome))
        },
    }
}

/// Builds the record of a trial.
fn record_trial(
    trial: MeasuredTrial,
    verdict: Verdict,
    lifecycle: Option<Result<LifecycleResult, ControlPlaneError>>,
) -> (step: TrialStep)
    ensures
        step matches TrialStep::Append { record, error } && records(record, trial, verdict, lifecycle) && error
            == lifecycle_error(lifecycle),
{
    let (outcome, failure, error) = match lifecycle {
        None => (None, None, None),
        Some(Ok(result)) => (
            Some(
                LifecycleOutcome {
                    provider_id: result.provider_id,
                    preview: result.preview,
                    verified: result.verified,
                    rolled_back: result.rolled_back,
                },
            ),
            None,
            None,
        ),
        Some(Err(error)) => (
            None,
            Some(LifecycleFailure { kind: error.kind().to_owned(), error: error.message() }),
            Some(error),
        ),
    };
    TrialStep::Append {
        record: TrialRecord {
            schema_version: TRIAL_RECORD_VERSION,
            spec: trial.spec,
            baseline_value: trial.baseline_value,
            candidate_value: trial.candidate_value,
            baseline_samples: trial.baseline_samples,
            candidate_samples: trial.candidate_samples,
            verdict,
            lifecycle: outcome,
            lifecycle_error: failure,
        },
        error,
    }
}

/// Carries on a step of the lifecycle.
fn carry(lifecycle: Step, trial: MeasuredTrial, verdict: Verdict) -> (step: TrialStep)
    ensures
        carries(step, lifecycle, trial, verdict),
{
    match lifecycle {
        Step::Write { entry, pending } => TrialStep::Lifecycle { entry, pending, trial, verdict },
        Step::Done(outcome) => record_trial(trial, verdict, Some(outcome)),
    }
}

/// The baseline knob value of a captured state, or why there is none: it is held
/// to the same ceiling as the candidate.
pub open spec fn baseline_of(
    outcome: Result<crate::contracts::StateSnapshot, ProviderError>,
    baseline: Result<u64, RunnerError>,
) -> bool {
    match outcome {
        Err(error) => baseline == Err::<u64, RunnerError>(
            RunnerError::ControlPlane(ControlPlaneError::Provider(error)),
        ),
        Ok(snapshot) => match crate::json::unsigned_member(snapshot.state@, "value"@) {
            None => baseline == Err::<u64, RunnerError>(RunnerError::InvalidBaseline),
            Some(value) => if value > MAX_MOCK_VALUE {
                baseline == Err::<u64, RunnerError>(RunnerError::BaselineOutOfPolicy(value))
            } else {
                baseline == Ok::<u64, RunnerError>(value)
            },
        },
    }
}

/// Reads the baseline knob value from the provider's current state.
pub fn baseline_value<P: Provider>(plane: &ControlPlane<P>) -> (baseline: Result<u64, RunnerError>)
    ensures
        exists|outcome: Result<crate::contracts::StateSnapshot, ProviderError>| #[trigger]
            plane.state().may_snapshot(outcome) && baseline_of(outcome, baseline),
{
    match plane.snapshot() {
        Err(error) => {
            assert(plane.state().may_snapshot(Err(error->Provider_0)));
            Err(RunnerError::ControlPlane(error))
        },
        Ok(snapshot) => {
            assert(plane.state().may_snapshot(Ok(snapshot)));
            match snapshot.state.u64_member("value") {
                None => Err(RunnerError::InvalidBaseline),
                Some(value) => if value > MAX_MOCK_VALUE {
                    Err(RunnerError::BaselineOutOfPolicy(value))
                } else {
                    Ok(value)
                },
            }
        },
    }
}

/// Starts a trial: validates the spec, then measures the baseline from the
/// provider's current state and the candidate from the spec target.
pub fn run_trial<P: Provider>(plane: &ControlPlane<P>, spec: &ExperimentSpec) -> (started: Result<
    MeasuredTrial,
    RunnerError,
>)
    requires
        spec.well_formed(),
    ensures
        if spec@.target.capability_id == MODELED_CAPABILITY_ID@ && crate::control_plane::advertises(
            plane.accepted(),
            spec@.target.capability_id,
        ) {
            match envelope(spec@) {
                Envelope::Outside(fault) => started == Err::<MeasuredTrial, RunnerError>(
                    RunnerError::InvalidSpec(fault),
                ),
                Envelope::NoValue => started == Err::<MeasuredTrial, RunnerError>(RunnerError::InvalidTarget),
                Envelope::Inside(candidate) => exists|outcome: Result<
                    crate::contracts::StateSnapshot,
                    ProviderError,
                >| #[trigger]
                    plane.state().may_snapshot(outcome) && match started {
                        Err(error) => baseline_of(outcome, Err(error)),
                        Ok(trial) => {
                            &&& baseline_of(outcome, Ok(trial.baseline_value))
                            &&& trial.candidate_value == candidate
                            &&& trial.spec@ == spec@
                            &&& trial.well_formed()
                        },
                    },
            }
        } else {
            started matches Err(RunnerError::ControlPlane(ControlPlaneError::UnknownCapability(id))) && id@
                == spec@.target.capability_id
        },
{
    let candidate_value: u64 = match validate(plane.capabilities(), spec) {
        Ok(value) => value,
        Err(error) => {
            return Err(error);
        },
    };
    let baseline_value: u64 = match baseline_value(plane) {
        Ok(value) => value,
        Err(error) => {
            return Err(error);
        },
    };
    let baseline_samples = measure(baseline_value, spec.warmup_samples, spec.baseline_samples);
    let candidate_samples = measure(candidate_value, spec.warmup_samples, spec.candidate_samples);
    Ok(
        MeasuredTrial { spec: spec.clone(), baseline_value, candidate_value, baseline_samples, candidate_samples },
    )
}

/// Measurements of a value within the policy hold few errors.
proof fn lemma_measured_errors(samples: Seq<MetricSample>, value: u64, counted: nat)
    requires
        crate::model::measured(samples, value, counted),
        value <= MAX_MOCK_VALUE,
    ensures
        crate::evaluator::total_errors(samples) <= 10 * counted,
    decreases counted,
{
    if counted > 0 {
        let rest = samples.drop_last();
        assert(crate::model::steady(samples[counted - 1], value));
        assert forall|i: int| 0 <= i < rest.len() implies crate::model::steady(#[trigger] rest[i], value) by {
            assert(rest[i] == samples[i]);
        }
        lemma_measured_errors(rest, value, (counted - 1) as nat);
    }
}

/// The verdict on a measured trial.
pub open spec fn trial_verdict(trial: MeasuredTrial, figures: FpsFigures) -> Verdict {
    crate::evaluator::verdict(trial.baseline_samples@, trial.candidate_samples@, figures, trial.spec.bounds)
}

/// Decides a measured trial and, on a promotion only, starts the lifecycle of
/// the candidate. A rejected candidate never reaches the provider.
pub fn decide_trial<P: Provider>(plane: &ControlPlane<P>, trial: MeasuredTrial, figures: FpsFigures) -> (step: TrialStep)
    requires
        trial.well_formed(),
    ensures
        match trial_verdict(trial, figures).decision {
            Decision::Promote => exists|lifecycle: Step| #[trigger]
                crate::control_plane::starts(plane.accepted(), plane.state(), trial.spec@.target, lifecycle) && carries(
                    step,
                    lifecycle,
                    trial,
                    trial_verdict(trial, figures),
                ),
            Decision::Reject => {
                &&& step matches TrialStep::Append { record, error }
                &&& records(record, trial, trial_verdict(trial, figures), None)
                &&& error is None
            },
        },
{
    proof {
        lemma_measured_errors(trial.baseline_samples@, trial.baseline_value, trial.spec.baseline_samples as nat);
        lemma_measured_errors(trial.candidate_samples@, trial.candidate_value, trial.spec.candidate_samples as nat);
    }
    let verdict = evaluate(&trial.baseline_samples, &trial.candidate_samples, figures, &trial.spec.bounds);
    match verdict.decision {
        Decision::Promote => {
            let lifecycle = plane.run_lifecycle(&trial.spec.target);
            carry(lifecycle, trial, verdict)
        },
        Decision::Reject => record_trial(trial, verdict, None),
    }
}

/// Goes on with the lifecycle of a promoted trial once the journal has answered.
pub fn resume_trial<P: Provider>(
    plane: &mut ControlPlane<P>,
    waiting: Pending,
    trial: MeasuredTrial,
    verdict: Verdict,
    reply: Result<i64, JournalFault>,
) -> (step: TrialStep)
    ensures
        final(plane).accepted() == old(plane).accepted(),
        exists|lifecycle: Step| #[trigger]
            crate::control_plane::resumes(
                old(plane).accepted().id,
                old(plane).state(),
                waiting,
                reply,
                final(plane).state(),
                lifecycle,
            ) && carries(step, lifecycle, trial, verdict),
{
    let lifecycle = plane.resume(waiting, reply);
    carry(lifecycle, trial, verdict)
}

/// Finishes a trial once the trial journal has answered.
///
/// The error of a failed lifecycle is reported even where the record that
/// carries it could not be appended.
pub fn finish_trial(
    record: TrialRecord,
    error: Option<ControlPlaneError>,
    reply: Result<i64, JournalFault>,
) -> (finished: Result<StoredTrial, RunnerError>)
    ensures
        finished == match (error, reply) {
            (Some(error), _) => Err::<StoredTrial, RunnerError>(RunnerError::ControlPlane(error)),
            (None, Err(fault)) => Err::<StoredTrial, RunnerError>(
                RunnerError::ControlPlane(crate::control_plane::fault_error(fault)),
            ),
            (None, Ok(id)) => Ok::<StoredTrial, RunnerError>((StoredTrial { id, record })),
        },
{
    match error {
        Some(error) => Err(RunnerError::ControlPlane(error)),
        None => match reply {
            Err(fault) => Err(RunnerError::ControlPlane(journal_error(fault))),
            Ok(id) => Ok(StoredTrial { id, record }),
        },
    }
}

/// Reads a trial row: one that is not there is reported apart from a journal that
/// could not be read.
pub fn read_trial(id: i64, row: Option<String>) -> (payload: Result<String, RunnerError>)
    ensures
        payload == match row {
            Some(text) => Ok::<String, RunnerError>(text),
            None => Err::<String, RunnerError>(RunnerError::ControlPlane(ControlPlaneError::UnknownTrial(id))),
        },
{
    match row {
        Some(text) => Ok(text),
        None => Err(RunnerError::ControlPlane(ControlPlaneError::UnknownTrial(id))),
    }
}

/// The record version that a journaled payload declares; one that declares none
/// is version zero.
pub open spec fn declared_version(payload: JsonView) -> u32 {
    match crate::json::unsigned_member(payload, "schema_version"@) {
        Some(version) => if version <= u32::MAX { version as u32 } else { 0 },
        None => 0,
    }
}

/// Refuses a journaled payload of an unsupported record version.
///
/// The version is read off the raw payload so a record whose fields this build
/// cannot decode still reports the version that wrote it.
pub fn check_record_version(payload: &Json) -> (checked: Result<(), RunnerError>)
    ensures
        checked == if declared_version(payload@) == TRIAL_RECORD_VERSION {
            Ok::<(), RunnerError>(())
        } else {
            Err::<(), RunnerError>(RunnerError::UnsupportedRecordVersion(declared_version(payload@)))
        },
{
    let version: u32 = match payload.u64_member("schema_version") {
        Some(version) => if version <= 0xffff_ffff { version as u32 } else { 0 },
        None => 0,
    };
    if version == TRIAL_RECORD_VERSION {
        Ok(())
    } else {
        Err(RunnerError::UnsupportedRecordVersion(version))
    }
}

/// Refuses a journaled payload that is not JSON, or whose record version is
/// unsupported.
pub fn check_record_text(payload: &str) -> (checked: Result<(), RunnerError>)
    ensures
        match crate::json::json_read(payload@) {
            Err(words) => checked matches Err(RunnerError::Decode(why)) && why@ == words,
            Ok(json) => checked == if declared_version(json) == TRIAL_RECORD_VERSION {
                Ok::<(), RunnerError>(())
            } else {
                Err::<(), RunnerError>(RunnerError::UnsupportedRecordVersion(declared_version(json)))
            },
        },
{
    match read_json(payload) {
        Err(why) => Err(RunnerError::Decode(why)),
        Ok(json) => check_record_version(&json),
    }
}

/// Why a journaled record is not one that the gates in force now would accept.
#[derive(Clone, Copy, Debug)]
pub enum PolicyBreach {
    /// The target names a capability that the measurement model never described.
    Capability,
    /// The spec is outside the bounded alpha envelope.
    Spec(SpecFault),
    /// The target carries no unsigned value.
    NoValue,
    /// The lease exceeds the ceiling on every change request.
    Lease(u64),
    /// The recorded candidate value is not the one the spec carries.
    CandidateValue,
    /// The recorded baseline value is above the knob ceiling.
    BaselineValue(u64),
    /// The baseline set does not hold the declared number of samples.
    BaselineCount,
    /// The candidate set does not hold the declared number of samples.
    CandidateCount,
    /// The lifecycle fields contradict the recorded decision.
    Lifecycle,
}

impl PolicyBreach {
    /// The sentence that describes the breach; `shown` is the decimal notation of
    /// a threshold at fault, where it is a reading.
    pub open spec fn sentence(&self, shown: Seq<char>) -> Seq<char> {
        match self {
            PolicyBreach::Capability => "the measurement model does not describe the capability"@,
            PolicyBreach::Spec(fault) => fault.sentence(shown),
            PolicyBreach::NoValue => "experiment target is missing an unsigned mock value"@,
            PolicyBreach::Lease(seconds) => "lease_seconds is "@ + digits(*seconds) + ", above the "@ + digits(
                MAX_LEASE_SECONDS,
            ) + " the policy allows"@,
            PolicyBreach::CandidateValue => "candidate_value is not the target value"@,
            PolicyBreach::BaselineValue(value) => "baseline_value is "@ + digits(*value) + ", above the "@ + digits(
                MAX_MOCK_VALUE,
            ) + " the policy allows"@,
            PolicyBreach::BaselineCount => "baseline_samples does not hold the declared count"@,
            PolicyBreach::CandidateCount => "candidate_samples does not hold the declared count"@,
            PolicyBreach::Lifecycle => "the lifecycle fields contradict the recorded decision"@,
        }
    }

    /// The sentence that describes the breach.
    pub fn message(&self, shown: &str) -> (text: String)
        ensures
            text@ == self.sentence(shown@),
    {
        match self {
            PolicyBreach::Capability => "the measurement model does not describe the capability".to_owned(),
            PolicyBreach::Spec(fault) => fault.message(shown),
            PolicyBreach::NoValue => "experiment target is missing an unsigned mock value".to_owned(),
            PolicyBreach::Lease(seconds) => "lease_seconds is ".to_owned()
                .concat(decimal(*seconds).as_str())
                .concat(", above the ")
                .concat(decimal(MAX_LEASE_SECONDS).as_str())
                .concat(" the policy allows"),
            PolicyBreach::CandidateValue => "candidate_value is not the target value".to_owned(),
            PolicyBreach::BaselineValue(value) => "baseline_value is ".to_owned()
                .concat(decimal(*value).as_str())
                .concat(", above the ")
                .concat(decimal(MAX_MOCK_VALUE).as_str())
                .concat(" the policy allows"),
            PolicyBreach::BaselineCount => "baseline_samples does not hold the declared count".to_owned(),
            PolicyBreach::CandidateCount => "candidate_samples does not hold the declared count".to_owned(),
            PolicyBreach::Lifecycle => "the lifecycle fields contradict the recorded decision".to_owned(),
        }
    }
}

/// The policy that a journaled record is held to; the first breach is named.
pub open spec fn breach(record: TrialRecord) -> Option<PolicyBreach> {
    let spec = record.spec@;
    if spec.target.capability_id != MODELED_CAPABILITY_ID@ {
        Some(PolicyBreach::Capability)
    } else {
        match envelope(spec) {
            Envelope::Outside(fault) => Some(PolicyBreach::Spec(fault)),
            Envelope::NoValue => Some(PolicyBreach::NoValue),
            Envelope::Inside(value) => if spec.target.lease_seconds > MAX_LEASE_SECONDS {
                Some(PolicyBreach::Lease(spec.target.lease_seconds))
            } else if record.candidate_value != value {
                Some(PolicyBreach::CandidateValue)
            } else if record.baseline_value > MAX_MOCK_VALUE {
                Some(PolicyBreach::BaselineValue(record.baseline_value))
            } else if record.baseline_samples@.len() != spec.baseline_samples {
                Some(PolicyBreach::BaselineCount)
            } else if record.candidate_samples@.len() != spec.candidate_samples {
                Some(PolicyBreach::CandidateCount)
            } else if record.verdict.decision == Decision::Promote && (record.lifecycle is Some)
                == (record.lifecycle_error is Some) {
                Some(PolicyBreach::Lifecycle)
            } else if record.verdict.decision == Decision::Reject && (record.lifecycle is Some
                || record.lifecycle_error is Some) {
                Some(PolicyBreach::Lifecycle)
            } else {
                None
            },
        }
    }
}

/// Whether a journaled record is one that the gates in force now would accept,
/// and if not, why.
///
/// The record's redundant fields are cross-checked against the spec it carries,
/// because samples and verdict can be rewritten together and comparing verdicts
/// alone would not show it.
pub fn policy_breach(record: &TrialRecord) -> (found: Option<PolicyBreach>)
    requires
        record.spec.well_formed(),
    ensures
        found == breach(*record),
{
    let spec = &record.spec;
    if !same_text(spec.target.capability_id.as_str(), MODELED_CAPABILITY_ID) {
        return Some(PolicyBreach::Capability);
    }
    let value: u64 = match check_envelope(spec) {
        Ok(value) => value,
        Err(RunnerError::InvalidSpec(fault)) => {
            return Some(PolicyBreach::Spec(fault));
        },
        Err(_) => {
            return Some(PolicyBreach::NoValue);
        },
    };
    if spec.target.lease_seconds > MAX_LEASE_SECONDS {
        return Some(PolicyBreach::Lease(spec.target.lease_seconds));
    }
    if record.candidate_value != value {
        return Some(PolicyBreach::CandidateValue);
    }
    if record.baseline_value > MAX_MOCK_VALUE {
        return Some(PolicyBreach::BaselineValue(record.baseline_value));
    }
    if record.baseline_samples.len() != spec.baseline_samples as usize {
        return Some(PolicyBreach::BaselineCount);
    }
    if record.candidate_samples.len() != spec.candidate_samples as usize {
        return Some(PolicyBreach::CandidateCount);
    }
    let completed = record.lifecycle.is_some();
    let failed = record.lifecycle_error.is_some();
    let contradicts = match record.verdict.decision {
        Decision::Promote => completed == failed,
        Decision::Reject => completed || failed,
    };
    if contradicts {
        Some(PolicyBreach::Lifecycle)
    } else {
        None
    }
}

/// The result of re-evaluating a journaled trial.
#[derive(Clone, Copy, Debug)]
pub struct ReplayOutcome {
    /// The trial-journal identifier that was replayed.
    pub trial_id: i64,
    /// The verdict read back from the journal.
    pub recorded: Verdict,
    /// The verdict recomputed from the journaled samples and bounds.
    pub recomputed: Verdict,
    /// Whether the journaled record passes every gate and agrees with the spec
    /// it carries.
    pub policy_legal: bool,
    /// Why the record does not pass, where it does not.
    pub policy_reason: Option<PolicyBreach>,
}

impl ReplayOutcome {
    /// Whether the recomputed verdict matches the one recorded at run time.
    pub fn is_consistent(&self) -> (yes: bool)
        ensures
            yes == self.recorded.equals(&self.recomputed),
    {
        self.recorded.same(&self.recomputed)
    }
}

/// What re-evaluating a journaled trial comes to.
pub open spec fn replayed(id: i64, record: TrialRecord, figures: FpsFigures) -> ReplayOutcome {
    ReplayOutcome {
        trial_id: id,
        recorded: record.verdict,
        recomputed: crate::evaluator::verdict(
            record.baseline_samples@,
            record.candidate_samples@,
            figures,
            record.spec.bounds,
        ),
        policy_legal: breach(record) is None,
        policy_reason: breach(record),
    }
}

/// Re-evaluates a journaled trial from its record and the frame-rate figures of
/// the recorded samples, and holds the record to the gates in force now.
pub fn replay_trial(id: i64, record: &TrialRecord, figures: FpsFigures) -> (outcome: ReplayOutcome)
    requires
        record.spec.well_formed(),
        crate::evaluator::total_errors(record.baseline_samples@) <= u64::MAX,
        crate::evaluator::total_errors(record.candidate_samples@) <= u64::MAX,
    ensures
        outcome == replayed(id, *record, figures),
{
    let recomputed = evaluate(&record.baseline_samples, &record.candidate_samples, figures, &record.spec.bounds);
    let policy_reason = policy_breach(record);
    ReplayOutcome {
        trial_id: id,
        recorded: record.verdict,
        recomputed,
        policy_legal: policy_reason.is_none(),
        policy_reason,
    }
}

} // verus!
