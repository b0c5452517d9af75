//! Measured trials: the model, the evaluator, and the runner.

use fpsmaxxing::contracts::{
    CapabilityDescriptor, ChangeRequest, Decision, DecisionBounds, ExperimentSpec, MetricSample,
    MetricSummary, Persistence, ProviderManifest, RiskClass, Verdict, VerdictReason,
    MAX_DECISION_ERRORS, MAX_DECISION_POWER_W, MAX_DECISION_TEMPERATURE_C, MAX_HYPOTHESIS_CHARS,
    MAX_SAMPLES,
};
use fpsmaxxing::control_plane::{ControlPlane, ControlPlaneError};
use fpsmaxxing::evaluator::{errors_fit, evaluate, summarize, FpsFigures};
use fpsmaxxing::journal::JournalFault;
use fpsmaxxing::json::Json;
use fpsmaxxing::mock::{MockProvider, MAX_MOCK_VALUE};
use fpsmaxxing::model::{measure, BASE_FPS};
use fpsmaxxing::reading::Reading;
use fpsmaxxing::runner::{
    baseline_value, check_record_text, decide_trial, finish_trial, policy_breach, read_trial,
    replay_trial, resume_trial, run_trial, validate, LifecycleFailure, LifecycleOutcome,
    PolicyBreach, ReplayOutcome, RunnerError, SpecFault, StoredTrial, TrialRecord, TrialStep,
};
use rusqlite::{Connection, OptionalExtension};
use serde_json::Value;

const HOST: &str = "linux";

fn reading(value: f64) -> Reading {
    Reading {
        bits: value.to_bits(),
    }
}

fn float(reading: Reading) -> f64 {
    f64::from_bits(reading.bits)
}

fn mean(samples: &[MetricSample]) -> f64 {
    let mut sum = 0.0;
    let mut divisor = 0.0;
    for sample in samples {
        sum += float(sample.fps);
        divisor += 1.0;
    }
    if samples.is_empty() {
        0.0
    } else {
        sum / divisor
    }
}

fn figures(baseline: &[MetricSample], candidate: &[MetricSample]) -> FpsFigures {
    let (baseline, candidate) = (mean(baseline), mean(candidate));
    FpsFigures {
        baseline_mean: reading(baseline),
        candidate_mean: reading(candidate),
        improvement: reading(candidate - baseline),
    }
}

fn judge(
    baseline: &Vec<MetricSample>,
    candidate: &Vec<MetricSample>,
    bounds: &DecisionBounds,
) -> Verdict {
    evaluate(baseline, candidate, figures(baseline, candidate), bounds)
}

fn bounds() -> DecisionBounds {
    DecisionBounds {
        min_samples: 3,
        min_fps_improvement: reading(5.0),
        max_temperature_c: reading(80.0),
        max_power_w: reading(200.0),
        max_errors: 0,
    }
}

fn samples(
    fps: f64,
    temperature_c: f64,
    power_w: f64,
    errors: u64,
    count: usize,
) -> Vec<MetricSample> {
    (0..count)
        .map(|_| MetricSample {
            fps: reading(fps),
            temperature_c: reading(temperature_c),
            power_w: reading(power_w),
            errors,
        })
        .collect()
}

#[test]
fn promotes_when_every_bound_is_met() {
    let baseline = samples(100.0, 60.0, 150.0, 0, 5);
    let candidate = samples(120.0, 70.0, 180.0, 0, 5);
    let verdict = judge(&baseline, &candidate, &bounds());
    assert_eq!(verdict.decision, Decision::Promote);
    assert_eq!(verdict.reason, VerdictReason::Promoted);
    assert!((float(verdict.fps_improvement) - 20.0).abs() < f64::EPSILON);
    assert_eq!(verdict.baseline.samples, 5);
    assert!((float(verdict.candidate.mean_fps) - 120.0).abs() < f64::EPSILON);
}

#[test]
fn rejects_when_a_set_is_below_minimum_samples() {
    let baseline = samples(100.0, 60.0, 150.0, 0, 5);
    let candidate = samples(120.0, 70.0, 180.0, 0, 2);
    let verdict = judge(&baseline, &candidate, &bounds());
    assert_eq!(verdict.decision, Decision::Reject);
    assert_eq!(verdict.reason, VerdictReason::InsufficientSamples);
}

#[test]
fn temperature_ceiling_is_checked_before_improvement() {
    let baseline = samples(100.0, 60.0, 150.0, 0, 5);
    let candidate = samples(140.0, 80.1, 180.0, 0, 5);
    let verdict = judge(&baseline, &candidate, &bounds());
    assert_eq!(verdict.decision, Decision::Reject);
    assert_eq!(verdict.reason, VerdictReason::TemperatureExceeded);
}

#[test]
fn power_ceiling_rejects_even_with_a_large_gain() {
    let baseline = samples(100.0, 60.0, 150.0, 0, 5);
    let candidate = samples(140.0, 70.0, 200.1, 0, 5);
    let verdict = judge(&baseline, &candidate, &bounds());
    assert_eq!(verdict.decision, Decision::Reject);
    assert_eq!(verdict.reason, VerdictReason::PowerExceeded);
}

#[test]
fn errors_ceiling_rejects_a_regressing_candidate() {
    let baseline = samples(100.0, 60.0, 150.0, 0, 5);
    let candidate = samples(140.0, 70.0, 180.0, 1, 5);
    let verdict = judge(&baseline, &candidate, &bounds());
    assert_eq!(verdict.decision, Decision::Reject);
    assert_eq!(verdict.reason, VerdictReason::ErrorsExceeded);
}

#[test]
fn rejects_when_improvement_is_below_threshold() {
    let baseline = samples(100.0, 60.0, 150.0, 0, 5);
    let candidate = samples(104.0, 70.0, 180.0, 0, 5);
    let verdict = judge(&baseline, &candidate, &bounds());
    assert_eq!(verdict.decision, Decision::Reject);
    assert_eq!(verdict.reason, VerdictReason::InsufficientImprovement);
    assert!((float(verdict.fps_improvement) - 4.0).abs() < f64::EPSILON);
}

#[test]
fn improvement_exactly_at_threshold_promotes() {
    let baseline = samples(100.0, 60.0, 150.0, 0, 3);
    let candidate = samples(105.0, 70.0, 180.0, 0, 3);
    let verdict = judge(&baseline, &candidate, &bounds());
    assert_eq!(verdict.decision, Decision::Promote);
    assert_eq!(verdict.reason, VerdictReason::Promoted);
}

#[test]
fn evaluation_is_deterministic_across_repeated_calls() {
    let baseline = samples(100.0, 60.0, 150.0, 0, 4);
    let candidate = samples(118.0, 72.0, 190.0, 0, 4);
    let first = judge(&baseline, &candidate, &bounds());
    let second = judge(&baseline, &candidate, &bounds());
    assert!(first.same(&second));
}

#[test]
fn an_aggregate_holds_the_worst_readings_and_all_errors() {
    let mut set = samples(100.0, 60.0, 150.0, 2, 2);
    set.extend(samples(50.0, 75.5, 149.0, 3, 1));
    set.extend(samples(50.0, f64::NAN, -1.0, 0, 1));
    let aggregate = summarize(&set, reading(75.0));
    assert_eq!(aggregate.samples, 4);
    assert_eq!(float(aggregate.mean_fps), 75.0);
    assert_eq!(float(aggregate.max_temperature_c), 75.5);
    assert_eq!(float(aggregate.max_power_w), 150.0);
    assert_eq!(aggregate.total_errors, 7);
    let empty = summarize(&Vec::new(), reading(0.0));
    assert_eq!(empty.samples, 0);
    assert_eq!(float(empty.max_temperature_c), 0.0);
}

#[test]
fn an_aggregate_reports_only_what_was_observed() {
    let aggregate = summarize(&samples(10.0, -5.0, 50.0, 1, 1), reading(10.0));
    assert_eq!(aggregate.samples, 1);
    assert_eq!(float(aggregate.mean_fps), 10.0);
    assert_eq!(float(aggregate.max_temperature_c), -5.0);
    assert_eq!(float(aggregate.max_power_w), 50.0);
    assert_eq!(aggregate.total_errors, 1);

    let mut cold = samples(10.0, -30.0, -2.0, 0, 1);
    cold.extend(samples(10.0, f64::NAN, -1.5, 0, 1));
    cold.extend(samples(10.0, -12.5, f64::NAN, 0, 1));
    cold.extend(samples(10.0, -20.0, -3.0, 0, 1));
    let aggregate = summarize(&cold, reading(10.0));
    assert_eq!(float(aggregate.max_temperature_c), -12.5);
    assert_eq!(float(aggregate.max_power_w), -1.5);

    let unknown = samples(10.0, f64::NAN, f64::NAN, 0, 2);
    let aggregate = summarize(&unknown, reading(10.0));
    assert_eq!(float(aggregate.max_temperature_c), 0.0);
    assert_eq!(float(aggregate.max_power_w), 0.0);
}

#[test]
fn error_totals_that_overflow_are_noticed() {
    assert!(errors_fit(&samples(1.0, 1.0, 1.0, u64::MAX, 1)));
    assert!(!errors_fit(&samples(1.0, 1.0, 1.0, u64::MAX, 2)));
    assert!(errors_fit(&Vec::new()));
}

#[test]
fn a_verdict_differs_from_any_other() {
    let baseline = samples(100.0, 60.0, 150.0, 0, 4);
    let candidate = samples(118.0, 72.0, 190.0, 0, 4);
    let verdict = judge(&baseline, &candidate, &bounds());
    let mut other = verdict;
    other.reason = VerdictReason::PowerExceeded;
    assert!(!verdict.same(&other));
    let mut other = verdict;
    other.candidate.max_power_w = reading(189.0);
    assert!(!verdict.same(&other));
    // No verdict about a figure that is not a number agrees with itself.
    let mut other = verdict;
    other.fps_improvement = reading(f64::NAN);
    assert!(!other.same(&other));
    let mut zero = verdict;
    zero.fps_improvement = reading(0.0);
    let mut negative_zero = verdict;
    negative_zero.fps_improvement = reading(-0.0);
    assert!(zero.same(&negative_zero));
}

#[test]
fn returns_exactly_the_counted_samples() {
    let samples = measure(40, 3, 5);
    assert_eq!(samples.len(), 5);
}

#[test]
fn warmup_samples_are_discarded() {
    // Every returned sample must be steady state; a cold-start FPS leaking
    // through would prove the warmup prefix was not dropped.
    let base = BASE_FPS as f64;
    let samples = measure(40, 4, 6);
    assert!(samples.iter().all(|sample| float(sample.fps) > base));
    assert!(samples
        .iter()
        .all(|sample| (float(sample.fps) - (base + 40.0)).abs() < f64::EPSILON));
}

#[test]
fn higher_values_raise_fps_temperature_and_power() {
    let low = &measure(10, 0, 1)[0];
    let high = &measure(60, 0, 1)[0];
    assert!(float(high.fps) > float(low.fps));
    assert!(float(high.temperature_c) > float(low.temperature_c));
    assert!(float(high.power_w) > float(low.power_w));
}

#[test]
fn faults_appear_only_past_the_safe_onset() {
    assert_eq!(measure(90, 0, 1)[0].errors, 0);
    assert_eq!(measure(95, 0, 1)[0].errors, 5);
}

#[test]
fn measurement_is_deterministic() {
    let bits = |samples: Vec<MetricSample>| -> Vec<(u64, u64, u64, u64)> {
        samples
            .iter()
            .map(|s| (s.fps.bits, s.temperature_c.bits, s.power_w.bits, s.errors))
            .collect()
    };
    assert_eq!(bits(measure(37, 2, 4)), bits(measure(37, 2, 4)));
}

#[test]
fn a_measurement_is_exactly_this() {
    let sample = measure(35, 0, 1)[0];
    assert_eq!(float(sample.fps), 95.0);
    assert_eq!(float(sample.temperature_c), 67.5);
    assert_eq!(float(sample.power_w), 135.0);
    assert_eq!(sample.errors, 0);
    // A value past the widest setting is held at it.
    let sample = measure(u64::MAX, 0, 1)[0];
    assert_eq!(float(sample.fps), 60.0 + f64::from(u32::MAX));
    assert_eq!(
        float(sample.temperature_c),
        50.0 + 0.5 * f64::from(u32::MAX)
    );
    assert_eq!(sample.errors, u64::MAX - 90);
    assert!(measure(1, 7, 0).is_empty());
}

/// A manifest advertising only the knob the measurement model describes.
fn manifest() -> ProviderManifest {
    ProviderManifest {
        id: "mock".to_owned(),
        protocol_version: 1,
        targets: vec![HOST.to_owned()],
        capabilities: vec![CapabilityDescriptor {
            id: "mock.value".to_owned(),
            description: "Sets an in-memory value".to_owned(),
            risk: RiskClass::Reversible,
            persistence: Persistence::Leased,
            input_schema: Json::object().with("type", Json::text("object")),
        }],
    }
}

fn value_json(value: u64) -> Json {
    Json::object().with("value", Json::Unsigned(value))
}

fn spec(warmup: u32, baseline: u32, candidate: u32, min_samples: u32) -> ExperimentSpec {
    spec_for_value(warmup, baseline, candidate, min_samples, 40)
}

fn spec_for_value(
    warmup: u32,
    baseline: u32,
    candidate: u32,
    min_samples: u32,
    value: u64,
) -> ExperimentSpec {
    ExperimentSpec {
        hypothesis: "raise mock.value".to_owned(),
        target: ChangeRequest {
            capability_id: "mock.value".to_owned(),
            parameters: value_json(value),
            lease_seconds: 30,
        },
        warmup_samples: warmup,
        baseline_samples: baseline,
        candidate_samples: candidate,
        bounds: DecisionBounds {
            min_samples,
            ..bounds()
        },
    }
}

fn words(fault: &SpecFault) -> String {
    let shown = fault
        .reading()
        .map(|reading| float(reading).to_string())
        .unwrap_or_default();
    fault.message(&shown)
}

fn rejection(spec: &ExperimentSpec) -> String {
    match validate(&manifest(), spec) {
        Err(RunnerError::InvalidSpec(fault)) => words(&fault),
        other => panic!("spec should be rejected, got {other:?}"),
    }
}

#[test]
fn accepts_a_spec_inside_the_envelope() {
    assert_eq!(
        validate(&manifest(), &spec(2, 5, 5, 3)).expect("spec is in envelope"),
        40
    );
    assert!(validate(
        &manifest(),
        &spec(MAX_SAMPLES, MAX_SAMPLES, MAX_SAMPLES, 3)
    )
    .is_ok());
}

#[test]
fn rejects_bounds_looser_than_the_policy_envelope() {
    let hottest = MAX_DECISION_TEMPERATURE_C as f64;
    let strongest = MAX_DECISION_POWER_W as f64;
    let mut loosened = spec(2, 5, 5, 3);
    loosened.bounds.max_temperature_c = reading(hottest + 0.1);
    assert!(rejection(&loosened).contains("max_temperature_c"));
    loosened.bounds.max_temperature_c = reading(f64::INFINITY);
    assert!(rejection(&loosened).contains("max_temperature_c"));
    loosened.bounds.max_temperature_c = reading(f64::NAN);
    assert!(rejection(&loosened).contains("max_temperature_c"));
    loosened.bounds.max_temperature_c = reading(0.0);
    assert!(rejection(&loosened).contains("max_temperature_c"));

    let mut loosened = spec(2, 5, 5, 3);
    loosened.bounds.max_power_w = reading(strongest + 0.1);
    assert!(rejection(&loosened).contains("max_power_w"));

    let mut loosened = spec(2, 5, 5, 3);
    loosened.bounds.min_fps_improvement = reading(-1.0);
    assert!(rejection(&loosened).contains("min_fps_improvement"));
    loosened.bounds.min_fps_improvement = reading(f64::NAN);
    assert!(rejection(&loosened).contains("min_fps_improvement"));

    let mut loosened = spec(2, 5, 5, 3);
    loosened.bounds.max_errors = MAX_DECISION_ERRORS + 1;
    assert!(rejection(&loosened).contains("max_errors"));

    let mut loosened = spec(2, 5, 5, 3);
    loosened.bounds.min_samples = MAX_SAMPLES + 1;
    assert!(rejection(&loosened).contains("min_samples"));
}

#[test]
fn accepts_bounds_exactly_at_the_policy_envelope() {
    // The envelope is inclusive, and a spec is free to tighten within it.
    let mut tightest = spec(2, 5, 5, 3);
    tightest.bounds.max_temperature_c = reading(MAX_DECISION_TEMPERATURE_C as f64);
    tightest.bounds.max_power_w = reading(MAX_DECISION_POWER_W as f64);
    tightest.bounds.max_errors = MAX_DECISION_ERRORS;
    tightest.bounds.min_fps_improvement = reading(0.0);
    assert!(validate(&manifest(), &tightest).is_ok());
}

#[test]
fn rejects_sample_counts_above_the_ceiling() {
    assert!(rejection(&spec(u32::MAX, 5, 5, 3)).contains("warmup_samples"));
    assert!(rejection(&spec(2, MAX_SAMPLES + 1, 5, 3)).contains("baseline_samples"));
    assert!(rejection(&spec(2, 5, u32::MAX, 3)).contains("candidate_samples"));
}

#[test]
fn rejects_counts_below_the_minimum_the_bounds_require() {
    assert!(rejection(&spec(2, 2, 5, 3)).contains("baseline_samples"));
    assert!(rejection(&spec(2, 5, 2, 3)).contains("candidate_samples"));
}

#[test]
fn rejects_a_candidate_value_above_the_policy_bound() {
    assert!(validate(&manifest(), &spec_for_value(2, 5, 5, 3, MAX_MOCK_VALUE)).is_ok());
    let message = rejection(&spec_for_value(2, 5, 5, 3, MAX_MOCK_VALUE + 1));
    assert!(message.contains("target value"), "{message}");
    assert!(rejection(&spec_for_value(2, 5, 5, 3, u64::MAX)).contains("target value"));
}

#[test]
fn rejects_a_capability_the_provider_does_not_advertise() {
    let mut foreign = spec(2, 5, 5, 3);
    foreign.target.capability_id = "gpu.core-clock-offset".to_owned();
    let error = validate(&manifest(), &foreign).expect_err("unknown hardware fails closed");
    assert!(
        matches!(
            &error,
            RunnerError::ControlPlane(ControlPlaneError::UnknownCapability(id))
                if id == "gpu.core-clock-offset"
        ),
        "{error:?}"
    );
}

#[test]
fn rejects_an_advertised_capability_the_model_does_not_describe() {
    let mut manifest = manifest();
    let mut other = manifest.capabilities[0].clone();
    other.id = "mock.other".to_owned();
    manifest.capabilities.push(other);

    let mut foreign = spec(2, 5, 5, 3);
    foreign.target.capability_id = "mock.other".to_owned();
    let error = validate(&manifest, &foreign).expect_err("an unmodeled knob fails closed");
    assert!(
        matches!(
            &error,
            RunnerError::ControlPlane(ControlPlaneError::UnknownCapability(id))
                if id == "mock.other"
        ),
        "{error:?}"
    );
    assert!(validate(&manifest, &spec(2, 5, 5, 3)).is_ok());
}

#[test]
fn rejects_a_target_without_an_unsigned_value() {
    let mut spec = spec(2, 5, 5, 3);
    spec.target.parameters = Json::object().with("value", Json::text("high"));
    assert!(matches!(
        validate(&manifest(), &spec),
        Err(RunnerError::InvalidTarget)
    ));
}

#[test]
fn rejections_read_like_this() {
    let mut blank = spec(2, 5, 5, 3);
    blank.hypothesis = String::new();
    assert_eq!(
        rejection(&blank),
        "hypothesis is 0 characters, outside the 1 to 4096 the policy allows"
    );
    // Characters count, not bytes.
    blank.hypothesis = "\u{fc}".repeat(MAX_HYPOTHESIS_CHARS as usize);
    assert!(validate(&manifest(), &blank).is_ok());
    blank.hypothesis.push('x');
    assert!(rejection(&blank).contains("4097 characters"));

    let mut wide = spec(2, 5, 5, 3);
    wide.target.parameters = value_json(1).with("extra", Json::Null);
    assert_eq!(
        rejection(&wide),
        "target carries a parameter other than value"
    );
    let mut hot = spec(2, 5, 5, 3);
    hot.bounds.max_temperature_c = reading(90.5);
    assert_eq!(
        rejection(&hot),
        "max_temperature_c is 90.5, outside the 0 exclusive to 90 inclusive the policy allows"
    );
    hot.bounds.max_temperature_c = reading(80.0);
    hot.bounds.min_fps_improvement = reading(f64::INFINITY);
    assert_eq!(
        rejection(&hot),
        "min_fps_improvement is inf, but the policy requires a finite gain of at least 0"
    );
    assert_eq!(
        rejection(&spec(2, 2, 5, 3)),
        "baseline_samples is 2, below the 3 the bounds require"
    );
    assert_eq!(
        rejection(&spec(10_001, 5, 5, 3)),
        "warmup_samples is 10001, above the 10000 ceiling"
    );
    assert_eq!(
        RunnerError::InvalidTarget.message(""),
        "experiment target is missing an unsigned mock value"
    );
    assert_eq!(
        RunnerError::BaselineOutOfPolicy(101).message(""),
        "provider snapshot value is 101, above the 100 the policy allows"
    );
}

/// A trial journal in `SQLite`.
struct TrialJournal {
    connection: Connection,
}

impl TrialJournal {
    fn open(path: &str) -> Self {
        let connection = Connection::open(path).expect("journal should open");
        connection
            .execute_batch(
                "CREATE TABLE IF NOT EXISTS experiment_trials (
                    id INTEGER PRIMARY KEY,
                    recorded_at TEXT NOT NULL,
                    payload TEXT NOT NULL
                );",
            )
            .expect("schema should create");
        Self { connection }
    }

    fn memory() -> Self {
        Self::open(":memory:")
    }

    fn append(&self, payload: &Value) -> i64 {
        self.connection
            .execute(
                "INSERT INTO experiment_trials (recorded_at, payload)
                 VALUES (strftime('%Y-%m-%dT%H:%M:%fZ', 'now'), ?1)",
                [payload.to_string()],
            )
            .expect("the record should append");
        self.connection.last_insert_rowid()
    }

    fn ids(&self) -> Vec<i64> {
        self.connection
            .prepare("SELECT id FROM experiment_trials ORDER BY id")
            .expect("query should prepare")
            .query_map([], |row| row.get(0))
            .expect("query should execute")
            .collect::<Result<Vec<i64>, _>>()
            .expect("rows should read")
    }

    fn read(&self, id: i64) -> Result<String, RunnerError> {
        let row = self
            .connection
            .query_row(
                "SELECT payload FROM experiment_trials WHERE id = ?1",
                [id],
                |row| row.get(0),
            )
            .optional()
            .expect("query should execute");
        read_trial(id, row)
    }

    fn value(&self, id: i64) -> Value {
        serde_json::from_str(&self.read(id).expect("trial should read")).expect("payload is JSON")
    }

    fn record(&self, id: i64) -> TrialRecord {
        decode(&self.value(id))
    }
}

fn object(members: Vec<(&str, Value)>) -> Value {
    Value::Object(
        members
            .into_iter()
            .map(|(name, value)| (name.to_owned(), value))
            .collect(),
    )
}

fn encode_sample(sample: &MetricSample) -> Value {
    object(vec![
        ("fps", float(sample.fps).into()),
        ("temperature_c", float(sample.temperature_c).into()),
        ("power_w", float(sample.power_w).into()),
        ("errors", sample.errors.into()),
    ])
}

fn encode_summary(summary: &MetricSummary) -> Value {
    object(vec![
        ("samples", summary.samples.into()),
        ("mean_fps", float(summary.mean_fps).into()),
        ("max_temperature_c", float(summary.max_temperature_c).into()),
        ("max_power_w", float(summary.max_power_w).into()),
        ("total_errors", summary.total_errors.into()),
    ])
}

fn encode(record: &TrialRecord) -> Value {
    let spec = &record.spec;
    let value = spec.target.parameters.u64_member("value").expect("value");
    object(vec![
        ("schema_version", record.schema_version.into()),
        (
            "spec",
            object(vec![
                ("hypothesis", spec.hypothesis.clone().into()),
                ("capability_id", spec.target.capability_id.clone().into()),
                ("value", value.into()),
                ("lease_seconds", spec.target.lease_seconds.into()),
                ("warmup_samples", spec.warmup_samples.into()),
                ("baseline_samples", spec.baseline_samples.into()),
                ("candidate_samples", spec.candidate_samples.into()),
                (
                    "bounds",
                    object(vec![
                        ("min_samples", spec.bounds.min_samples.into()),
                        (
                            "min_fps_improvement",
                            float(spec.bounds.min_fps_improvement).into(),
                        ),
                        (
                            "max_temperature_c",
                            float(spec.bounds.max_temperature_c).into(),
                        ),
                        ("max_power_w", float(spec.bounds.max_power_w).into()),
                        ("max_errors", spec.bounds.max_errors.into()),
                    ]),
                ),
            ]),
        ),
        ("baseline_value", record.baseline_value.into()),
        ("candidate_value", record.candidate_value.into()),
        (
            "baseline_samples",
            record.baseline_samples.iter().map(encode_sample).collect(),
        ),
        (
            "candidate_samples",
            record.candidate_samples.iter().map(encode_sample).collect(),
        ),
        (
            "verdict",
            object(vec![
                (
                    "decision",
                    format!("{:?}", record.verdict.decision).into(),
                ),
                ("reason", format!("{:?}", record.verdict.reason).into()),
                (
                    "fps_improvement",
                    float(record.verdict.fps_improvement).into(),
                ),
                ("baseline", encode_summary(&record.verdict.baseline)),
                ("candidate", encode_summary(&record.verdict.candidate)),
            ]),
        ),
        (
            "lifecycle",
            match &record.lifecycle {
                Some(outcome) => object(vec![
                    ("provider_id", outcome.provider_id.clone().into()),
                    ("preview", outcome.preview.clone().into()),
                    ("verified", outcome.verified.into()),
                    ("rolled_back", outcome.rolled_back.into()),
                ]),
                None => Value::Null,
            },
        ),
        (
            "lifecycle_error",
            match &record.lifecycle_error {
                Some(failure) => object(vec![
                    ("kind", failure.kind.clone().into()),
                    ("error", failure.error.clone().into()),
                ]),
                None => Value::Null,
            },
        ),
    ])
}

fn text(value: &Value) -> String {
    value.as_str().expect("text").to_owned()
}

fn number(value: &Value) -> u64 {
    value.as_u64().expect("number")
}

fn count(value: &Value) -> u32 {
    u32::try_from(number(value)).expect("count")
}

fn measured(value: &Value) -> Reading {
    reading(value.as_f64().expect("reading"))
}

fn decode_samples(value: &Value) -> Vec<MetricSample> {
    value
        .as_array()
        .expect("samples")
        .iter()
        .map(|sample| MetricSample {
            fps: measured(&sample["fps"]),
            temperature_c: measured(&sample["temperature_c"]),
            power_w: measured(&sample["power_w"]),
            errors: number(&sample["errors"]),
        })
        .collect()
}

fn decode_summary(value: &Value) -> MetricSummary {
    MetricSummary {
        samples: number(&value["samples"]),
        mean_fps: measured(&value["mean_fps"]),
        max_temperature_c: measured(&value["max_temperature_c"]),
        max_power_w: measured(&value["max_power_w"]),
        total_errors: number(&value["total_errors"]),
    }
}

fn decode(value: &Value) -> TrialRecord {
    let spec = &value["spec"];
    let limits = &spec["bounds"];
    let verdict = &value["verdict"];
    TrialRecord {
        schema_version: count(&value["schema_version"]),
        spec: ExperimentSpec {
            hypothesis: text(&spec["hypothesis"]),
            target: ChangeRequest {
                capability_id: text(&spec["capability_id"]),
                parameters: value_json(number(&spec["value"])),
                lease_seconds: number(&spec["lease_seconds"]),
            },
            warmup_samples: count(&spec["warmup_samples"]),
            baseline_samples: count(&spec["baseline_samples"]),
            candidate_samples: count(&spec["candidate_samples"]),
            bounds: DecisionBounds {
                min_samples: count(&limits["min_samples"]),
                min_fps_improvement: measured(&limits["min_fps_improvement"]),
                max_temperature_c: measured(&limits["max_temperature_c"]),
                max_power_w: measured(&limits["max_power_w"]),
                max_errors: number(&limits["max_errors"]),
            },
        },
        baseline_value: number(&value["baseline_value"]),
        candidate_value: number(&value["candidate_value"]),
        baseline_samples: decode_samples(&value["baseline_samples"]),
        candidate_samples: decode_samples(&value["candidate_samples"]),
        verdict: Verdict {
            decision: match verdict["decision"].as_str() {
                Some("Promote") => Decision::Promote,
                _ => Decision::Reject,
            },
            reason: match verdict["reason"].as_str() {
                Some("Promoted") => VerdictReason::Promoted,
                Some("InsufficientSamples") => VerdictReason::InsufficientSamples,
                Some("TemperatureExceeded") => VerdictReason::TemperatureExceeded,
                Some("PowerExceeded") => VerdictReason::PowerExceeded,
                Some("ErrorsExceeded") => VerdictReason::ErrorsExceeded,
                _ => VerdictReason::InsufficientImprovement,
            },
            fps_improvement: measured(&verdict["fps_improvement"]),
            baseline: decode_summary(&verdict["baseline"]),
            candidate: decode_summary(&verdict["candidate"]),
        },
        lifecycle: match &value["lifecycle"] {
            Value::Null => None,
            outcome => Some(LifecycleOutcome {
                provider_id: text(&outcome["provider_id"]),
                preview: text(&outcome["preview"]),
                verified: outcome["verified"].as_bool().expect("flag"),
                rolled_back: outcome["rolled_back"].as_bool().expect("flag"),
            }),
        },
        lifecycle_error: match &value["lifecycle_error"] {
            Value::Null => None,
            failure => Some(LifecycleFailure {
                kind: text(&failure["kind"]),
                error: text(&failure["error"]),
            }),
        },
    }
}

/// Runs one trial end to end and journals its record.
fn run(
    plane: &mut ControlPlane<MockProvider>,
    journal: &TrialJournal,
    spec: &ExperimentSpec,
) -> Result<StoredTrial, RunnerError> {
    let trial = run_trial(plane, spec)?;
    let figures = figures(&trial.baseline_samples, &trial.candidate_samples);
    let mut step = decide_trial(plane, trial, figures);
    loop {
        step = match step {
            TrialStep::Lifecycle {
                entry,
                pending,
                trial,
                verdict,
            } => {
                let id = entry.experiment_id.unwrap_or(1);
                resume_trial(plane, pending, trial, verdict, Ok(id))
            }
            TrialStep::Append { record, error } => {
                let id = journal.append(&encode(&record));
                return finish_trial(record, error, Ok(id));
            }
        };
    }
}

/// Replays one trial from the journal alone.
fn replay(journal: &TrialJournal, id: i64) -> Result<ReplayOutcome, RunnerError> {
    let payload = journal.read(id)?;
    check_record_text(&payload)?;
    let record = journal.record(id);
    let figures = figures(&record.baseline_samples, &record.candidate_samples);
    Ok(replay_trial(id, &record, figures))
}

fn plane(value: u64) -> ControlPlane<MockProvider> {
    ControlPlane::open(MockProvider::new(value, HOST), HOST).expect("open")
}

fn spec_for(candidate: u64, min_fps_improvement: f64, max_temperature_c: f64) -> ExperimentSpec {
    let mut spec = spec_for_value(2, 5, 5, 3, candidate);
    spec.hypothesis = format!("raise mock.value to {candidate}");
    spec.bounds.min_fps_improvement = reading(min_fps_improvement);
    spec.bounds.max_temperature_c = reading(max_temperature_c);
    spec
}

fn spec_with_lease(
    candidate: u64,
    min_fps_improvement: f64,
    max_temperature_c: f64,
    lease_seconds: u64,
) -> ExperimentSpec {
    let mut spec = spec_for(candidate, min_fps_improvement, max_temperature_c);
    spec.target.lease_seconds = lease_seconds;
    spec
}

/// Reads the mock provider's current knob value through a broker snapshot.
fn current_value(plane: &ControlPlane<MockProvider>) -> u64 {
    plane
        .snapshot()
        .expect("snapshot")
        .state
        .u64_member("value")
        .expect("mock value")
}

#[test]
fn a_promoted_experiment_runs_the_full_lifecycle() {
    let mut plane = plane(10);
    let journal = TrialJournal::memory();
    let trial = run(&mut plane, &journal, &spec_for(40, 5.0, 80.0)).expect("run trial");

    assert_eq!(trial.record.verdict.decision, Decision::Promote);
    assert_eq!(trial.record.verdict.reason, VerdictReason::Promoted);

    let lifecycle = trial
        .record
        .lifecycle
        .clone()
        .expect("a promoted trial records a lifecycle");
    assert_eq!(lifecycle.provider_id, "mock");
    assert!(
        lifecycle.verified,
        "candidate value must verify after apply"
    );
    assert!(lifecycle.rolled_back, "leased change must be rolled back");
    assert!(
        trial.record.lifecycle_error.is_none(),
        "a completed lifecycle records no failure"
    );

    // The trial journal is append-only: the outcome is carried by the single
    // row the trial inserted, which is exactly what replay reads back.
    assert_eq!(journal.ids(), [trial.id]);
    assert_eq!(journal.value(trial.id), encode(&trial.record));
    assert!(replay(&journal, trial.id)
        .expect("replay trial")
        .is_consistent());

    // The leased lifecycle restores the pre-state, so the provider is left at
    // its baseline value even after a promotion.
    assert_eq!(current_value(&plane), 10);
}

#[test]
fn a_rejected_experiment_is_never_applied_and_leaves_the_baseline() {
    let mut plane = plane(10);
    let journal = TrialJournal::memory();

    // Candidate 70 would raise FPS but drives modeled temperature to 85 C,
    // above the 80 C ceiling, so the evaluator rejects it on safety.
    let trial = run(&mut plane, &journal, &spec_for(70, 5.0, 80.0)).expect("run trial");

    assert_eq!(trial.record.verdict.decision, Decision::Reject);
    assert_eq!(
        trial.record.verdict.reason,
        VerdictReason::TemperatureExceeded
    );
    assert!(
        trial.record.lifecycle.is_none(),
        "a rejected candidate is never applied"
    );

    // Nothing was applied, so the provider still holds the baseline value.
    assert_eq!(current_value(&plane), 10);
}

#[test]
fn a_promoted_trial_survives_a_lifecycle_the_broker_refuses() {
    let mut plane = plane(10);
    let journal = TrialJournal::memory();

    // The evaluator promotes on the measurements, but the 400 second lease is
    // outside the broker's policy envelope, so the lifecycle never runs.
    let spec = spec_with_lease(40, 5.0, 80.0, 400);
    let error = run(&mut plane, &journal, &spec).expect_err("policy should deny the lease");
    assert!(matches!(
        error,
        RunnerError::ControlPlane(ControlPlaneError::PolicyDenied(_))
    ));

    // The measurements that authorized the promotion are journaled with the
    // refusal, in one append, so the trial is still discoverable and replayable.
    let ids = journal.ids();
    assert_eq!(
        ids.len(),
        1,
        "the failed promotion is journaled exactly once"
    );
    let record = journal.record(ids[0]);
    assert_eq!(record.verdict.decision, Decision::Promote);
    assert!(
        record.lifecycle.is_none(),
        "no lifecycle completed for a denied change"
    );
    let failure = record
        .lifecycle_error
        .expect("the refused lifecycle is recorded on the trial");
    assert_eq!(failure.kind, "policy-denied");
    assert!(failure.error.contains("lease exceeds 300 seconds"));

    let outcome = replay(&journal, ids[0]).expect("replay trial");
    assert!(outcome.is_consistent());
    assert_eq!(outcome.recomputed.decision, Decision::Promote);

    // Nothing reached the provider, so the baseline is untouched.
    assert_eq!(current_value(&plane), 10);
}

#[test]
fn a_trial_replays_from_the_journal_alone_with_an_identical_verdict() {
    let path = "file:replayed_trials?mode=memory&cache=shared";
    let keeper = TrialJournal::open(path);
    let trial_id = {
        let journal = TrialJournal::open(path);
        run(&mut plane(10), &journal, &spec_for(40, 5.0, 80.0))
            .expect("run trial")
            .id
    };

    // Reopen the journal as a brand new handle: no in-memory trial state.
    let outcome = replay(&TrialJournal::open(path), trial_id).expect("replay trial");
    assert!(
        outcome.is_consistent(),
        "recomputed verdict must match the journal"
    );
    assert!(outcome.recorded.same(&outcome.recomputed));
    assert_eq!(outcome.recomputed.decision, Decision::Promote);
    drop(keeper);
}

#[test]
fn an_out_of_envelope_spec_is_refused_before_any_measurement() {
    let mut plane = plane(10);
    let journal = TrialJournal::memory();
    let mut spec = spec_for(40, 5.0, 80.0);
    spec.warmup_samples = u32::MAX;
    let error = run(&mut plane, &journal, &spec).expect_err("unbounded counts should be refused");
    assert!(matches!(error, RunnerError::InvalidSpec(_)));
    assert!(
        journal.ids().is_empty(),
        "a refused spec journals nothing"
    );
    assert_eq!(current_value(&plane), 10);
}

#[test]
fn a_candidate_outside_the_policy_bound_is_refused_before_any_measurement() {
    let mut plane = plane(10);
    let journal = TrialJournal::memory();
    let error = run(&mut plane, &journal, &spec_for(u64::MAX, 5.0, 80.0))
        .expect_err("an out-of-policy candidate should be refused");
    assert!(matches!(error, RunnerError::InvalidSpec(_)));
    assert!(
        journal.ids().is_empty(),
        "a refused spec journals nothing"
    );
    assert_eq!(current_value(&plane), 10);
}

#[test]
fn a_trial_record_from_an_unsupported_version_fails_closed() {
    let journal = TrialJournal::memory();
    let trial = run(&mut plane(10), &journal, &spec_for(40, 5.0, 80.0)).expect("run trial");

    // Stand in for a record a future runner appended: the reader must refuse it
    // rather than decode it under this version's field meanings.
    let mut payload = journal.value(trial.id);
    payload["schema_version"] = Value::from(2);
    let future = journal.append(&payload);
    let error = replay(&journal, future).expect_err("a future record should be refused");
    assert!(matches!(error, RunnerError::UnsupportedRecordVersion(2)));

    // A future record that also reshaped a field must still report the version
    // that wrote it, not an opaque decode error about the reshaped field.
    payload["verdict"] = Value::from("promote");
    let reshaped = journal.append(&payload);
    let error = replay(&journal, reshaped).expect_err("a future record should be refused");
    assert!(
        matches!(error, RunnerError::UnsupportedRecordVersion(2)),
        "expected a version error, got {error:?}"
    );

    // Appending those rows left the original trial exactly as it was recorded.
    assert!(replay(&journal, trial.id)
        .expect("replay trial")
        .is_consistent());
}

#[test]
fn a_replay_reports_bounds_outside_the_policy_envelope() {
    let journal = TrialJournal::memory();
    let trial = run(&mut plane(10), &journal, &spec_for(40, 5.0, 80.0)).expect("run trial");

    // Stand in for a row whose thresholds were widened after the fact. Both the
    // recorded and the recomputed verdict promote under those widened bounds,
    // so comparing verdicts alone cannot catch it - the replay re-checks the
    // journaled bounds against the policy envelope instead.
    let mut payload = journal.value(trial.id);
    payload["spec"]["bounds"]["max_temperature_c"] = Value::from(200.0);
    let widened = journal.append(&payload);

    let outcome = replay(&journal, widened).expect("replay trial");
    assert!(
        outcome.is_consistent(),
        "the widened bounds still reproduce the recorded verdict"
    );
    assert!(
        !outcome.policy_legal,
        "a temperature ceiling of 200 C is outside the policy envelope"
    );

    // The trial as it was actually run stays legal.
    let outcome = replay(&journal, trial.id).expect("replay trial");
    assert!(outcome.is_consistent() && outcome.policy_legal);
}

#[test]
fn replaying_a_trial_that_was_never_recorded_fails_closed() {
    // An absent row is a consistency signal about recorded history, so it is
    // reported apart from a journal that could not be read at all.
    let error = replay(&TrialJournal::memory(), 404)
        .expect_err("an unrecorded trial cannot be replayed");
    assert!(
        matches!(
            error,
            RunnerError::ControlPlane(ControlPlaneError::UnknownTrial(404))
        ),
        "{error:?}"
    );
}

#[test]
fn a_trial_targeting_an_unadvertised_capability_is_refused() {
    let mut plane = plane(10);
    let journal = TrialJournal::memory();
    let mut spec = spec_for(40, 5.0, 80.0);
    spec.target.capability_id = "gpu.core-clock-offset".to_owned();
    let error = run(&mut plane, &journal, &spec).expect_err("unknown hardware should fail closed");
    assert!(
        matches!(
            error,
            RunnerError::ControlPlane(ControlPlaneError::UnknownCapability(_))
        ),
        "{error:?}"
    );
    assert!(
        journal.ids().is_empty(),
        "a refused spec journals nothing"
    );
    assert_eq!(current_value(&plane), 10);
}

#[test]
fn mvp_one_measured_experiment_is_promoted_or_rejected_by_the_evaluator() {
    let journal = TrialJournal::memory();
    let trial = run(&mut plane(10), &journal, &spec_for(40, 5.0, 80.0)).expect("run trial");
    assert!(matches!(
        trial.record.verdict.decision,
        Decision::Promote | Decision::Reject
    ));
    let recomputed = judge(
        &trial.record.baseline_samples,
        &trial.record.candidate_samples,
        &trial.record.spec.bounds,
    );
    assert!(recomputed.same(&trial.record.verdict));
}

#[test]
fn one_measured_experiment_is_promoted_and_another_rejected_then_both_replay() {
    let path = "file:transcript_trials?mode=memory&cache=shared";
    let keeper = TrialJournal::open(path);
    let promoted;
    let rejected;
    {
        let journal = TrialJournal::open(path);
        let mut plane = plane(10);
        promoted = run(&mut plane, &journal, &spec_for(40, 5.0, 80.0)).expect("promoted trial");
        assert_eq!(promoted.record.verdict.decision, Decision::Promote);
        assert_eq!(promoted.record.verdict.reason, VerdictReason::Promoted);
        let lifecycle = promoted
            .record
            .lifecycle
            .clone()
            .expect("a promotion records its lifecycle");
        assert!(lifecycle.verified && lifecycle.rolled_back);
        assert_eq!(current_value(&plane), 10);

        rejected = run(&mut plane, &journal, &spec_for(70, 5.0, 80.0)).expect("rejected trial");
        assert_eq!(rejected.record.verdict.decision, Decision::Reject);
        assert_eq!(
            rejected.record.verdict.reason,
            VerdictReason::TemperatureExceeded
        );
        assert!(rejected.record.lifecycle.is_none());
        assert!(rejected.record.lifecycle_error.is_none());
        assert_eq!(current_value(&plane), 10);
    }

    let archive = TrialJournal::open(path);
    assert_eq!(archive.ids(), [promoted.id, rejected.id]);
    for trial in [&promoted, &rejected] {
        assert_eq!(
            archive.value(trial.id),
            encode(&trial.record),
            "the journaled record must survive the round trip verbatim"
        );
        let outcome = replay(&archive, trial.id).expect("replay trial");
        assert!(
            outcome.is_consistent(),
            "replay must reproduce the recorded verdict exactly"
        );
        assert!(outcome.policy_legal, "{:?}", outcome.policy_reason);
        assert!(outcome.recomputed.same(&trial.record.verdict));
    }

    // A copy of the promotion whose temperature ceiling was widened after the
    // fact re-evaluates to the very verdict it carries, so only the policy that
    // replay re-applies can catch it.
    let mut widened = archive.value(promoted.id);
    widened["spec"]["bounds"]["max_temperature_c"] = Value::from(200.0);
    let widened_id = archive.append(&widened);
    let outcome = replay(&archive, widened_id).expect("replay the widened row");
    assert!(outcome.is_consistent());
    assert!(!outcome.policy_legal);
    assert!(matches!(
        outcome.policy_reason,
        Some(PolicyBreach::Spec(SpecFault::CeilingOutside { .. }))
    ));
    drop(keeper);
}

#[test]
fn every_rewrite_of_a_record_is_found_out() {
    let journal = TrialJournal::memory();
    let trial = run(&mut plane(10), &journal, &spec_for(40, 5.0, 80.0)).expect("run trial");
    let breach = |rewrite: &dyn Fn(&mut TrialRecord)| {
        let mut record = journal.record(trial.id);
        rewrite(&mut record);
        policy_breach(&record)
    };
    assert!(breach(&|_| ()).is_none());
    assert!(matches!(
        breach(&|record| record.spec.target.capability_id = "mock.other".to_owned()),
        Some(PolicyBreach::Capability)
    ));
    assert!(matches!(
        breach(&|record| record.spec.target.parameters = Json::object()),
        Some(PolicyBreach::NoValue)
    ));
    let lease = breach(&|record| record.spec.target.lease_seconds = 301).expect("a breach");
    assert!(matches!(lease, PolicyBreach::Lease(301)));
    assert_eq!(
        lease.message(""),
        "lease_seconds is 301, above the 300 the policy allows"
    );
    assert!(matches!(
        breach(&|record| record.candidate_value = 41),
        Some(PolicyBreach::CandidateValue)
    ));
    assert!(matches!(
        breach(&|record| record.baseline_value = 101),
        Some(PolicyBreach::BaselineValue(101))
    ));
    assert!(matches!(
        breach(&|record| {
            record.baseline_samples.pop();
        }),
        Some(PolicyBreach::BaselineCount)
    ));
    assert!(matches!(
        breach(&|record| {
            record.candidate_samples.pop();
        }),
        Some(PolicyBreach::CandidateCount)
    ));
    assert!(matches!(
        breach(&|record| record.lifecycle = None),
        Some(PolicyBreach::Lifecycle)
    ));
    assert!(matches!(
        breach(&|record| record.verdict.decision = Decision::Reject),
        Some(PolicyBreach::Lifecycle)
    ));
}

#[test]
fn a_provider_outside_the_policy_is_not_measured() {
    assert!(matches!(
        baseline_value(&plane(101)),
        Err(RunnerError::BaselineOutOfPolicy(101))
    ));
    assert_eq!(baseline_value(&plane(100)).expect("a legal baseline"), 100);
}

#[test]
fn an_unjournaled_trial_reports_what_went_wrong_first() {
    let plane = plane(10);
    let trial = run_trial(&plane, &spec_for(70, 5.0, 80.0)).expect("measured");
    let figures = figures(&trial.baseline_samples, &trial.candidate_samples);
    let TrialStep::Append { record, error } = decide_trial(&plane, trial, figures) else {
        panic!("a rejected trial is recorded at once");
    };
    assert!(error.is_none());
    let lost = finish_trial(
        record,
        None,
        Err(JournalFault::Storage("disk full".to_owned())),
    )
    .expect_err("the record was lost");
    assert!(matches!(
        lost,
        RunnerError::ControlPlane(ControlPlaneError::Journal(why)) if why == "disk full"
    ));

    let trial = run_trial(&plane, &spec_with_lease(40, 5.0, 80.0, 400)).expect("measured");
    let figures = self::figures(&trial.baseline_samples, &trial.candidate_samples);
    let TrialStep::Append { record, error } = decide_trial(&plane, trial, figures) else {
        panic!("a refused lifecycle is recorded at once");
    };
    let refused = finish_trial(
        record,
        error,
        Err(JournalFault::Storage("disk full".to_owned())),
    )
    .expect_err("the refusal comes first");
    assert!(matches!(
        refused,
        RunnerError::ControlPlane(ControlPlaneError::PolicyDenied(_))
    ));
}

#[test]
fn only_a_record_of_this_version_is_read() {
    assert!(check_record_text(r#"{"schema_version":1}"#).is_ok());
    for (payload, version) in [
        (r#"{"schema_version":3}"#, 3),
        (r#"{"schema_version":"1"}"#, 0),
        (r#"{"schema_version":4294967297}"#, 0),
        ("[]", 0),
    ] {
        assert!(matches!(
            check_record_text(payload),
            Err(RunnerError::UnsupportedRecordVersion(found)) if found == version
        ));
    }
    let Err(RunnerError::Decode(why)) = check_record_text("{") else {
        panic!("a record that is no JSON cannot be read");
    };
    assert!(why.contains("EOF while parsing"), "{why}");
}
