//! Data contracts shared by the broker, the providers and the experiment runner.
use vstd::prelude::*;

use crate::json::{Json, JsonView};
use crate::reading::Reading;

verus! {

/// The safety classification attached to a capability.
#[derive(Clone, Copy, Debug, PartialEq, Eq, Structural)]
pub enum RiskClass {
    /// Observation only; no system state changes.
    ReadOnly,
    /// Temporary and mechanically reversible without a reboot.
    Reversible,
    /// Requires an explicit approval policy before application.
    ApprovalRequired,
    /// Intentionally unavailable to autonomous agents.
    Denied,
}

impl RiskClass {
    /// The name a class is written under.
    pub open spec fn text(&self) -> Seq<char> {
        match self {
            RiskClass::ReadOnly => "read-only"@,
            RiskClass::Reversible => "reversible"@,
            RiskClass::ApprovalRequired => "approval-required"@,
            RiskClass::Denied => "denied"@,
        }
    }

    /// The name a class is written under.
    pub fn name(&self) -> (name: &'static str)
        ensures
            name@ == self.text(),
    {
        match self {
            RiskClass::ReadOnly => "read-only",
            RiskClass::Reversible => "reversible",
            RiskClass::ApprovalRequired => "approval-required",
            RiskClass::Denied => "denied",
        }
    }
}

/// How long a capability's effect can survive.
#[derive(Clone, Copy, Debug, PartialEq, Eq, Structural)]
pub enum Persistence {
    /// The operation does not change state.
    NoChange,
    /// The operation expires with its lease or provider process.
    Leased,
    /// The operation remains until it is explicitly reverted.
    Persistent,
    /// The operation requires a reboot to become active.
    RebootRequired,
}

impl Persistence {
    /// The name a persistence is written under.
    pub open spec fn text(&self) -> Seq<char> {
        match self {
            Persistence::NoChange => "none"@,
            Persistence::Leased => "leased"@,
            Persistence::Persistent => "persistent"@,
            Persistence::RebootRequired => "reboot-required"@,
        }
    }

    /// The name a persistence is written under.
    pub fn name(&self) -> (name: &'static str)
        ensures
            name@ == self.text(),
    {
        match self {
            Persistence::NoChange => "none",
            Persistence::Leased => "leased",
            Persistence::Persistent => "persistent",
            Persistence::RebootRequired => "reboot-required",
        }
    }
}

/// A semantic operation advertised by a provider.
#[derive(Debug)]
pub struct CapabilityDescriptor {
    /// Stable capability name, such as `process.cpu-affinity`.
    pub id: String,
    /// Human-readable summary for operators and agents.
    pub description: String,
    /// Safety class enforced by the policy engine.
    pub risk: RiskClass,
    /// Persistence behavior of successful changes.
    pub persistence: Persistence,
    /// JSON Schema describing accepted parameters.
    pub input_schema: Json,
}

/// What a capability descriptor says.
#[verifier::ext_equal]
pub struct CapabilityView {
    /// Capability name.
    pub id: Seq<char>,
    /// Human-readable summary.
    pub description: Seq<char>,
    /// Safety class.
    pub risk: RiskClass,
    /// Persistence behavior.
    pub persistence: Persistence,
    /// Schema of the accepted parameters.
    pub input_schema: JsonView,
}

impl View for CapabilityDescriptor {
    type V = CapabilityView;

    open spec fn view(&self) -> CapabilityView {
        CapabilityView {
            id: self.id@,
            description: self.description@,
            risk: self.risk,
            persistence: self.persistence,
            input_schema: self.input_schema@,
        }
    }
}

impl Clone for CapabilityDescriptor {
    fn clone(&self) -> (copy: Self)
        ensures
            copy@ == self@,
    {
        CapabilityDescriptor {
            id: self.id.clone(),
            description: self.description.clone(),
            risk: self.risk,
            persistence: self.persistence,
            input_schema: self.input_schema.clone(),
        }
    }
}

/// Provider identity and the capabilities it advertises.
#[derive(Debug)]
pub struct ProviderManifest {
    /// Stable provider identifier.
    pub id: String,
    /// Provider protocol version; at least 1.
    pub protocol_version: u32,
    /// Targets supported by this build.
    pub targets: Vec<String>,
    /// Semantic capabilities exposed by the provider.
    pub capabilities: Vec<CapabilityDescriptor>,
}

/// What a provider manifest says.
#[verifier::ext_equal]
pub struct ManifestView {
    /// Provider identifier.
    pub id: Seq<char>,
    /// Provider protocol version.
    pub protocol_version: u32,
    /// Targets supported by this build.
    pub targets: Seq<Seq<char>>,
    /// Capabilities exposed by the provider.
    pub capabilities: Seq<CapabilityView>,
}

impl View for ProviderManifest {
    type V = ManifestView;

    open spec fn view(&self) -> ManifestView {
        ManifestView {
            id: self.id@,
            protocol_version: self.protocol_version,
            targets: Seq::new(self.targets@.len(), |i: int| self.targets@[i]@),
            capabilities: Seq::new(self.capabilities@.len(), |i: int| self.capabilities@[i]@),
        }
    }
}

impl Clone for ProviderManifest {
    fn clone(&self) -> (copy: Self)
        ensures
            copy@ == self@,
    {
        let mut targets: Vec<String> = Vec::new();
        let mut i: usize = 0;
        while i < self.targets.len()
            invariant
                i <= self.targets.len(),
                targets.len() == i,
                forall|j: int| 0 <= j < i ==> (#[trigger] targets[j])@ == self.targets[j]@,
            decreases self.targets.len() - i,
        {
            targets.push(self.targets[i].clone());
            i = i + 1;
        }
        let mut capabilities: Vec<CapabilityDescriptor> = Vec::new();
        let mut k: usize = 0;
        while k < self.capabilities.len()
            invariant
                k <= self.capabilities.len(),
                capabilities.len() == k,
                forall|j: int| 0 <= j < k ==> (#[trigger] capabilities[j])@ == self.capabilities[j]@,
            decreases self.capabilities.len() - k,
        {
            capabilities.push(self.capabilities[k].clone());
            k = k + 1;
        }
        let copy = ProviderManifest {
            id: self.id.clone(),
            protocol_version: self.protocol_version,
            targets,
            capabilities,
        };
        assert(copy@ =~= self@);
        copy
    }
}

/// A capability descriptor as JSON.
pub open spec fn capability_json(capability: CapabilityView) -> JsonView {
    JsonView::Object(
        map![
            "id"@ => JsonView::Text(capability.id),
            "description"@ => JsonView::Text(capability.description),
            "risk"@ => JsonView::Text(capability.risk.text()),
            "persistence"@ => JsonView::Text(capability.persistence.text()),
            "input_schema"@ => capability.input_schema
        ],
    )
}

/// A provider manifest as JSON.
pub open spec fn manifest_json(manifest: ManifestView) -> JsonView {
    JsonView::Object(
        map![
            "id"@ => JsonView::Text(manifest.id),
            "protocol_version"@ => JsonView::Unsigned(manifest.protocol_version as u64),
            "targets"@ => JsonView::Array(
                manifest.targets.map_values(|target: Seq<char>| JsonView::Text(target)),
            ),
            "capabilities"@ => JsonView::Array(
                manifest.capabilities.map_values(|capability: CapabilityView| capability_json(capability)),
            )
        ],
    )
}

impl CapabilityDescriptor {
    /// The descriptor as JSON.
    fn to_json(&self) -> (json: Json)
        ensures
            json@ == capability_json(self@),
            json.names() == seq!["id"@, "description"@, "risk"@, "persistence"@, "input_schema"@],
    {
        Json::object()
            .with("id", Json::Text(self.id.clone()))
            .with("description", Json::Text(self.description.clone()))
            .with("risk", Json::text(self.risk.name()))
            .with("persistence", Json::text(self.persistence.name()))
            .with("input_schema", self.input_schema.clone())
    }
}

impl ProviderManifest {
    /// The manifest as JSON.
    pub fn to_json(&self) -> (json: Json)
        ensures
            json@ == manifest_json(self@),
            json.names() == seq!["id"@, "protocol_version"@, "targets"@, "capabilities"@],
    {
        let mut targets: Vec<Json> = Vec::new();
        let mut i: usize = 0;
        while i < self.targets.len()
            invariant
                i <= self.targets.len(),
                targets.len() == i,
                forall|j: int| 0 <= j < i ==> (#[trigger] targets[j])@ == JsonView::Text(self.targets[j]@),
            decreases self.targets.len() - i,
        {
            targets.push(Json::Text(self.targets[i].clone()));
            i = i + 1;
        }
        let mut capabilities: Vec<Json> = Vec::new();
        let mut k: usize = 0;
        while k < self.capabilities.len()
            invariant
                k <= self.capabilities.len(),
                capabilities.len() == k,
                forall|j: int| 0 <= j < k ==> (#[trigger] capabilities[j])@ == capability_json(self.capabilities[j]@),
            decreases self.capabilities.len() - k,
        {
            capabilities.push(self.capabilities[k].to_json());
            k = k + 1;
        }
        assert(crate::json::items_view(targets@) =~= self@.targets.map_values(
            |target: Seq<char>| JsonView::Text(target),
        ));
        assert(crate::json::items_view(capabilities@) =~= self@.capabilities.map_values(
            |capability: CapabilityView| capability_json(capability),
        ));
        Json::object()
            .with("id", Json::Text(self.id.clone()))
            .with("protocol_version", Json::Unsigned(self.protocol_version as u64))
            .with("targets", Json::Array(targets))
            .with("capabilities", Json::Array(capabilities))
    }
}

/// Inclusive ceiling on a [`ChangeRequest`]'s TTL lease, in seconds.
///
/// The lease is what bounds how long a mutation may survive, so the ceiling
/// belongs to the shared request type rather than to any one enforcement point.
pub const MAX_LEASE_SECONDS: u64 = 300;

/// A requested provider change.
#[derive(Debug)]
pub struct ChangeRequest {
    /// Capability being invoked.
    pub capability_id: String,
    /// Capability-specific parameters; always a JSON object.
    pub parameters: Json,
    /// Automatic rollback deadline in seconds; every mutation carries a
    /// non-zero TTL lease, at most [`MAX_LEASE_SECONDS`].
    pub lease_seconds: u64,
}

/// What a change request asks for.
#[verifier::ext_equal]
pub struct RequestView {
    /// Capability being invoked.
    pub capability_id: Seq<char>,
    /// Capability-specific parameters.
    pub parameters: JsonView,
    /// Automatic rollback deadline in seconds.
    pub lease_seconds: u64,
}

impl View for ChangeRequest {
    type V = RequestView;

    open spec fn view(&self) -> RequestView {
        RequestView {
            capability_id: self.capability_id@,
            parameters: self.parameters@,
            lease_seconds: self.lease_seconds,
        }
    }
}

impl Clone for ChangeRequest {
    fn clone(&self) -> (copy: Self)
        ensures
            copy@ == self@,
    {
        ChangeRequest {
            capability_id: self.capability_id.clone(),
            parameters: self.parameters.clone(),
            lease_seconds: self.lease_seconds,
        }
    }
}

/// Why a change request cannot be formed.
#[derive(Clone, Copy, Debug, PartialEq, Eq, Structural)]
pub enum RequestError {
    /// The parameters are not a JSON object.
    ParametersNotObject,
    /// The lease is zero seconds.
    ZeroLease,
}

/// A change request as JSON.
pub open spec fn request_json(request: RequestView) -> JsonView {
    JsonView::Object(
        map![
            "capability_id"@ => JsonView::Text(request.capability_id),
            "parameters"@ => request.parameters,
            "lease_seconds"@ => JsonView::Unsigned(request.lease_seconds)
        ],
    )
}

impl ChangeRequest {
    /// The request as JSON.
    pub fn to_json(&self) -> (json: Json)
        ensures
            json@ == request_json(self@),
            json.names() == seq!["capability_id"@, "parameters"@, "lease_seconds"@],
    {
        Json::object()
            .with("capability_id", Json::Text(self.capability_id.clone()))
            .with("parameters", self.parameters.clone())
            .with("lease_seconds", Json::Unsigned(self.lease_seconds))
    }

    /// Whether the request carries a lease, as every mutation does.
    pub open spec fn leased(&self) -> bool {
        self.lease_seconds > 0
    }

    /// Whether the request is well-formed: its parameters are named, and its
    /// lease is not zero.
    pub open spec fn well_formed(&self) -> bool {
        self.parameters@ is Object && self.leased()
    }

    /// Forms a request, accepting only an object for the parameters and only a
    /// non-zero lease.
    pub fn new(capability_id: String, parameters: Json, lease_seconds: u64) -> (request: Result<Self, RequestError>)
        ensures
            request == if !(parameters@ is Object) {
                Err::<Self, RequestError>(RequestError::ParametersNotObject)
            } else if lease_seconds == 0 {
                Err::<Self, RequestError>(RequestError::ZeroLease)
            } else {
                Ok::<Self, RequestError>((ChangeRequest { capability_id, parameters, lease_seconds }))
            },
            request matches Ok(formed) ==> formed.well_formed(),
    {
        if !parameters.is_object() {
            Err(RequestError::ParametersNotObject)
        } else if lease_seconds == 0 {
            Err(RequestError::ZeroLease)
        } else {
            Ok(ChangeRequest { capability_id, parameters, lease_seconds })
        }
    }
}

/// Opaque provider state captured before a change.
#[derive(Debug)]
pub struct StateSnapshot {
    /// Provider that produced the snapshot.
    pub provider_id: String,
    /// Provider-specific state required for rollback.
    pub state: Json,
}

/// What a snapshot says.
#[verifier::ext_equal]
pub struct SnapshotView {
    /// Provider that produced the snapshot.
    pub provider_id: Seq<char>,
    /// Provider-specific state.
    pub state: JsonView,
}

impl View for StateSnapshot {
    type V = SnapshotView;

    open spec fn view(&self) -> SnapshotView {
        SnapshotView { provider_id: self.provider_id@, state: self.state@ }
    }
}

impl Clone for StateSnapshot {
    fn clone(&self) -> (copy: Self)
        ensures
            copy@ == self@,
    {
        StateSnapshot { provider_id: self.provider_id.clone(), state: self.state.clone() }
    }
}

/// A snapshot as JSON.
pub open spec fn snapshot_json(snapshot: SnapshotView) -> JsonView {
    JsonView::Object(
        map!["provider_id"@ => JsonView::Text(snapshot.provider_id), "state"@ => snapshot.state],
    )
}

impl StateSnapshot {
    /// The snapshot as JSON.
    pub fn to_json(&self) -> (json: Json)
        ensures
            json@ == snapshot_json(self@),
            json.names() == seq!["provider_id"@, "state"@],
    {
        Json::object().with("provider_id", Json::Text(self.provider_id.clone())).with("state", self.state.clone())
    }

    /// Whether two snapshots capture the same state of the same provider.
    pub fn same(&self, other: &StateSnapshot) -> (same: bool)
        ensures
            same == (self@ == other@),
    {
        self.provider_id == other.provider_id && self.state.same(&other.state)
    }
}

/// A single deterministic performance measurement captured during a trial.
///
/// Values are recorded verbatim in the experiment journal so a trial can be
/// re-evaluated later without re-running the workload.
#[derive(Clone, Copy, Debug)]
pub struct MetricSample {
    /// Frames per second observed for this sample; higher is better.
    pub fps: Reading,
    /// Peak component temperature in degrees Celsius for this sample.
    pub temperature_c: Reading,
    /// Board power draw in watts for this sample.
    pub power_w: Reading,
    /// Correctness errors detected during this sample; zero is nominal.
    pub errors: u64,
}

/// Deterministic aggregate of one measurement set used by the evaluator.
#[derive(Clone, Copy, Debug)]
pub struct MetricSummary {
    /// Number of samples aggregated.
    pub samples: u64,
    /// Mean frames per second across the samples.
    pub mean_fps: Reading,
    /// Highest temperature observed across the samples.
    pub max_temperature_c: Reading,
    /// Highest power draw observed across the samples.
    pub max_power_w: Reading,
    /// Total correctness errors observed across the samples.
    pub total_errors: u64,
}

/// Inclusive ceiling the bounded alpha policy enforces on a trial's temperature
/// bound, in whole degrees Celsius.
///
/// The thresholds an immutable evaluator applies arrive in an experiment spec,
/// so a spec could otherwise disarm its own safety gate by declaring an
/// unreachable ceiling. Policy owns the hard envelope: a spec may tighten these
/// bounds but never loosen them.
pub const MAX_DECISION_TEMPERATURE_C: u64 = 90;

/// Inclusive ceiling the bounded alpha policy enforces on a trial's power
/// bound, in whole watts.
pub const MAX_DECISION_POWER_W: u64 = 250;

/// Inclusive ceiling the bounded alpha policy enforces on a trial's error
/// budget.
pub const MAX_DECISION_ERRORS: u64 = 0;

/// Fixed thresholds the immutable evaluator applies to a trial.
#[derive(Clone, Copy, Debug)]
pub struct DecisionBounds {
    /// Minimum samples required in each of the baseline and candidate sets
    /// before a promotion can be considered; at least one, and at most
    /// [`MAX_SAMPLES`].
    pub min_samples: u32,
    /// Minimum mean-FPS gain the candidate must show over the baseline; a
    /// non-negative gain.
    pub min_fps_improvement: Reading,
    /// Inclusive ceiling for candidate temperature in degrees Celsius; above 0
    /// and at most [`MAX_DECISION_TEMPERATURE_C`].
    pub max_temperature_c: Reading,
    /// Inclusive ceiling for candidate power draw in watts; above 0 and at most
    /// [`MAX_DECISION_POWER_W`].
    pub max_power_w: Reading,
    /// Inclusive ceiling for candidate correctness errors; at most
    /// [`MAX_DECISION_ERRORS`].
    pub max_errors: u64,
}

impl DecisionBounds {
    /// Whether the bounds ask for samples at all.
    pub open spec fn well_formed(&self) -> bool {
        self.min_samples > 0
    }
}

/// Inclusive ceiling on every sample count in an [`ExperimentSpec`].
pub const MAX_SAMPLES: u32 = 10_000;

/// Inclusive ceiling on an [`ExperimentSpec`]'s hypothesis, in characters.
pub const MAX_HYPOTHESIS_CHARS: u32 = 4_096;

/// Inclusive floor on an [`ExperimentSpec`]'s hypothesis, in characters.
pub const MIN_HYPOTHESIS_CHARS: u32 = 1;

/// A declarative, typed experiment the runner can execute, journal, and replay.
#[derive(Debug)]
pub struct ExperimentSpec {
    /// Human-authored hypothesis the trial tests; from
    /// [`MIN_HYPOTHESIS_CHARS`] to [`MAX_HYPOTHESIS_CHARS`] characters.
    pub hypothesis: String,
    /// Bounded, policy-checkable capability change under test.
    pub target: ChangeRequest,
    /// Leading measurements discarded from each phase before counting; at most
    /// [`MAX_SAMPLES`].
    pub warmup_samples: u32,
    /// Counted baseline measurements to record; at least one, and at most
    /// [`MAX_SAMPLES`].
    pub baseline_samples: u32,
    /// Counted candidate measurements to record; at least one, and at most
    /// [`MAX_SAMPLES`].
    pub candidate_samples: u32,
    /// Thresholds the evaluator uses to promote or reject.
    pub bounds: DecisionBounds,
}

impl ExperimentSpec {
    /// Whether the spec asks for counted measurements of both sets, and for a
    /// change that carries a lease.
    pub open spec fn well_formed(&self) -> bool {
        &&& self.target.leased()
        &&& self.baseline_samples > 0
        &&& self.candidate_samples > 0
        &&& self.bounds.well_formed()
    }
}

/// What an experiment specification says.
#[verifier::ext_equal]
pub struct SpecView {
    /// Hypothesis the trial tests.
    pub hypothesis: Seq<char>,
    /// Capability change under test.
    pub target: RequestView,
    /// Leading measurements discarded from each phase.
    pub warmup_samples: u32,
    /// Counted baseline measurements.
    pub baseline_samples: u32,
    /// Counted candidate measurements.
    pub candidate_samples: u32,
    /// Thresholds the evaluator uses.
    pub bounds: DecisionBounds,
}

impl View for ExperimentSpec {
    type V = SpecView;

    open spec fn view(&self) -> SpecView {
        SpecView {
            hypothesis: self.hypothesis@,
            target: self.target@,
            warmup_samples: self.warmup_samples,
            baseline_samples: self.baseline_samples,
            candidate_samples: self.candidate_samples,
            bounds: self.bounds,
        }
    }
}

impl Clone for ExperimentSpec {
    fn clone(&self) -> (copy: Self)
        ensures
            copy@ == self@,
    {
        ExperimentSpec {
            hypothesis: self.hypothesis.clone(),
            target: self.target.clone(),
            warmup_samples: self.warmup_samples,
            baseline_samples: self.baseline_samples,
            candidate_samples: self.candidate_samples,
            bounds: self.bounds,
        }
    }
}

/// The terminal keep-or-rollback decision for a trial.
#[derive(Clone, Copy, Debug, PartialEq, Eq, Structural)]
pub enum Decision {
    /// The candidate met every bound and is kept.
    Promote,
    /// The candidate failed a bound and is rolled back.
    Reject,
}

/// The single machine-readable reason behind a [`Verdict`].
#[derive(Clone, Copy, Debug, PartialEq, Eq, Structural)]
pub enum VerdictReason {
    /// The candidate cleared every bound.
    Promoted,
    /// A measurement set held fewer than the required samples.
    InsufficientSamples,
    /// Candidate temperature exceeded the ceiling.
    TemperatureExceeded,
    /// Candidate power draw exceeded the ceiling.
    PowerExceeded,
    /// Candidate correctness errors exceeded the ceiling.
    ErrorsExceeded,
    /// The candidate did not beat the baseline by the required margin.
    InsufficientImprovement,
}

/// The immutable evaluator's deterministic decision for a trial.
///
/// The verdict carries the aggregates the decision used so a journaled trial
/// is self-describing and re-evaluation can be checked against it.
#[derive(Clone, Copy, Debug)]
pub struct Verdict {
    /// Whether the candidate is kept or rolled back.
    pub decision: Decision,
    /// The reason behind the decision.
    pub reason: VerdictReason,
    /// Candidate mean-FPS gain over the baseline.
    pub fps_improvement: Reading,
    /// Baseline aggregate the decision used.
    pub baseline: MetricSummary,
    /// Candidate aggregate the decision used.
    pub candidate: MetricSummary,
}

impl MetricSummary {
    /// Whether two aggregates are equal, reading by reading.
    pub open spec fn equals(&self, other: &MetricSummary) -> bool {
        &&& self.samples == other.samples
        &&& self.mean_fps.equals(other.mean_fps)
        &&& self.max_temperature_c.equals(other.max_temperature_c)
        &&& self.max_power_w.equals(other.max_power_w)
        &&& self.total_errors == other.total_errors
    }

    /// Whether two aggregates are equal, reading by reading.
    pub fn same(&self, other: &MetricSummary) -> (same: bool)
        ensures
            same == self.equals(other),
    {
        self.samples == other.samples && self.mean_fps.same(other.mean_fps) && self.max_temperature_c.same(
            other.max_temperature_c,
        ) && self.max_power_w.same(other.max_power_w) && self.total_errors == other.total_errors
    }
}

impl Verdict {
    /// Whether two verdicts are equal.
    pub open spec fn equals(&self, other: &Verdict) -> bool {
        &&& self.decision == other.decision
        &&& self.reason == other.reason
        &&& self.fps_improvement.equals(other.fps_improvement)
        &&& self.baseline.equals(&other.baseline)
        &&& self.candidate.equals(&other.candidate)
    }

    /// Whether two verdicts are equal.
    pub fn same(&self, other: &Verdict) -> (same: bool)
        ensures
            same == self.equals(other),
    {
        self.decision == other.decision && self.reason == other.reason && self.fps_improvement.same(
            other.fps_improvement,
        ) && self.baseline.same(&other.baseline) && self.candidate.same(&other.candidate)
    }
}

} // verus!
