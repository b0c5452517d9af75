//! Capability policy and the lifecycle of one temporary change.
//!
//! A lifecycle alternates provider calls with records in a durable journal.
//! [`ControlPlane`] makes the provider calls and decides what to journal next;
//! whoever owns the journal performs each [`Step::Write`] and hands the outcome
//! back to [`ControlPlane::resume`] until the lifecycle is [`Step::Done`].
use vstd::prelude::*;

use crate::contracts::{
    CapabilityView, ChangeRequest, ManifestView, ProviderManifest, RequestView, RiskClass,
    StateSnapshot, MAX_LEASE_SECONDS,
};
use crate::journal::{EntryView, FailureNote, JournalEntry, JournalFault, NoteView, Payload, PayloadView, Stage};
use crate::json::{Json, JsonView};
use crate::mock::MAX_MOCK_VALUE;
use crate::provider::{Provider, ProviderError};
use crate::text::{same_text, signed_decimal};

verus! {

/// Fail-closed errors from the broker seam.
#[derive(Debug)]
pub enum ControlPlaneError {
    /// A caller requested a capability that is not advertised by a provider.
    UnknownCapability(String),
    /// A request does not satisfy the bounded alpha policy.
    PolicyDenied(String),
    /// A provider could not complete its lifecycle action.
    Provider(ProviderError),
    /// The verification probe did not observe the requested state after apply.
    VerificationFailed,
    /// The post-rollback probe did not match the captured snapshot.
    RollbackVerificationFailed,
    /// The durable journal could not be read or written.
    Journal(String),
    /// A journal record could not be encoded.
    Serialization(String),
    /// The journal holds no trial with that id.
    UnknownTrial(i64),
}

impl ControlPlaneError {
    /// Stable machine-readable kind used in failed terminal outcome records.
    pub open spec fn kind_text(&self) -> Seq<char> {
        match self {
            ControlPlaneError::UnknownCapability(_) => "unknown-capability"@,
            ControlPlaneError::PolicyDenied(_) => "policy-denied"@,
            ControlPlaneError::Provider(_) => "provider"@,
            ControlPlaneError::VerificationFailed => "verification-failed"@,
            ControlPlaneError::RollbackVerificationFailed => "rollback-verification-failed"@,
            ControlPlaneError::Journal(_) => "journal"@,
            ControlPlaneError::Serialization(_) => "serialization"@,
            ControlPlaneError::UnknownTrial(_) => "unknown-trial"@,
        }
    }

    /// The sentence that describes the error.
    pub open spec fn sentence(&self) -> Seq<char> {
        match self {
            ControlPlaneError::UnknownCapability(what) => "unknown capability: "@ + what@,
            ControlPlaneError::PolicyDenied(why) => "policy denied request: "@ + why@,
            ControlPlaneError::Provider(error) => error.sentence(),
            ControlPlaneError::VerificationFailed => "verification probe failed"@,
            ControlPlaneError::RollbackVerificationFailed => "rollback verification failed"@,
            ControlPlaneError::Journal(why) => why@,
            ControlPlaneError::Serialization(why) => why@,
            ControlPlaneError::UnknownTrial(id) => "unknown trial: "@ + crate::text::signed_digits(*id as int),
        }
    }

    /// Stable machine-readable kind used in failed terminal outcome records.
    pub fn kind(&self) -> (kind: &'static str)
        ensures
            kind@ == self.kind_text(),
    {
        match self {
            ControlPlaneError::UnknownCapability(_) => "unknown-capability",
            ControlPlaneError::PolicyDenied(_) => "policy-denied",
            ControlPlaneError::Provider(_) => "provider",
            ControlPlaneError::VerificationFailed => "verification-failed",
            ControlPlaneError::RollbackVerificationFailed => "rollback-verification-failed",
            ControlPlaneError::Journal(_) => "journal",
            ControlPlaneError::Serialization(_) => "serialization",
            ControlPlaneError::UnknownTrial(_) => "unknown-trial",
        }
    }

    /// The sentence that describes the error.
    pub fn message(&self) -> (text: String)
        ensures
            text@ == self.sentence(),
    {
        match self {
            ControlPlaneError::UnknownCapability(what) => "unknown capability: ".to_owned().concat(what.as_str()),
            ControlPlaneError::PolicyDenied(why) => "policy denied request: ".to_owned().concat(why.as_str()),
            ControlPlaneError::Provider(error) => error.message(),
            ControlPlaneError::VerificationFailed => "verification probe failed".to_owned(),
            ControlPlaneError::RollbackVerificationFailed => "rollback verification failed".to_owned(),
            ControlPlaneError::Journal(why) => why.clone(),
            ControlPlaneError::Serialization(why) => why.clone(),
            ControlPlaneError::UnknownTrial(id) => "unknown trial: ".to_owned().concat(signed_decimal(*id).as_str()),
        }
    }
}

/// Where a request stands against the bounded alpha policy.
pub enum PolicyVerdict {
    /// The request may run.
    Allowed,
    /// No advertised capability has the requested name.
    Unknown,
    /// The capability is not a reversible one.
    NotReversible,
    /// The lease exceeds [`MAX_LEASE_SECONDS`].
    LeaseTooLong,
    /// The parameters name no unsigned value.
    NoValue,
    /// The value exceeds [`MAX_MOCK_VALUE`].
    ValueTooLarge,
}

/// The first advertised capability of that name.
pub open spec fn advertised(capabilities: Seq<CapabilityView>, id: Seq<char>) -> Option<CapabilityView>
    decreases capabilities.len(),
{
    if capabilities.len() == 0 {
        None
    } else if capabilities[0].id == id {
        Some(capabilities[0])
    } else {
        advertised(capabilities.drop_first(), id)
    }
}

/// The policy: the checks are made in this order and the first to fail decides.
pub open spec fn policy(manifest: ManifestView, request: RequestView) -> PolicyVerdict {
    match advertised(manifest.capabilities, request.capability_id) {
        None => PolicyVerdict::Unknown,
        Some(capability) => if capability.risk != RiskClass::Reversible {
            PolicyVerdict::NotReversible
        } else if request.lease_seconds > MAX_LEASE_SECONDS {
            PolicyVerdict::LeaseTooLong
        } else {
            match crate::mock::requested_value(request) {
                None => PolicyVerdict::NoValue,
                Some(value) => if value > MAX_MOCK_VALUE {
                    PolicyVerdict::ValueTooLarge
                } else {
                    PolicyVerdict::Allowed
                },
            }
        },
    }
}

/// The error that a verdict is reported as.
pub open spec fn denied_as(verdict: PolicyVerdict, request: RequestView, error: ControlPlaneError) -> bool {
    match (verdict, error) {
        (PolicyVerdict::Unknown, ControlPlaneError::UnknownCapability(what)) => what@ == request.capability_id,
        (PolicyVerdict::NotReversible, ControlPlaneError::PolicyDenied(why)) => why@
            == "only reversible mock capabilities are enabled"@,
        (PolicyVerdict::LeaseTooLong, ControlPlaneError::PolicyDenied(why)) => why@ == "lease exceeds 300 seconds"@,
        (PolicyVerdict::NoValue, ControlPlaneError::PolicyDenied(why)) => why@
            == "mock.value requires an unsigned value"@,
        (PolicyVerdict::ValueTooLarge, ControlPlaneError::PolicyDenied(why)) => why@
            == "mock.value is bounded to 0..=100"@,
        _ => false,
    }
}

/// The first advertised capability of that name.
fn find_capability(manifest: &ProviderManifest, id: &str) -> (found: Option<usize>)
    ensures
        found is Some <==> advertised(manifest@.capabilities, id@) is Some,
        found matches Some(i) ==> i < manifest.capabilities.len() && advertised(manifest@.capabilities, id@)
            == Some(manifest.capabilities[i as int]@),
{
    let ghost all = manifest@.capabilities;
    let mut i: usize = 0;
    assert(all.skip(0) =~= all);
    while i < manifest.capabilities.len()
        invariant
            i <= manifest.capabilities.len(),
            all == manifest@.capabilities,
            advertised(all, id@) == advertised(all.skip(i as int), id@),
        decreases manifest.capabilities.len() - i,
    {
        assert(all.skip(i as int)[0] == manifest.capabilities[i as int]@);
        if same_text(manifest.capabilities[i].id.as_str(), id) {
            return Some(i);
        }
        assert(all.skip(i as int).drop_first() =~= all.skip(i + 1));
        i = i + 1;
    }
    None
}

/// Whether some advertised capability has that name.
pub open spec fn advertises(manifest: ManifestView, id: Seq<char>) -> bool {
    exists|i: int| 0 <= i < manifest.capabilities.len() && (#[trigger] manifest.capabilities[i]).id == id
}

/// Whether some advertised capability has that name.
pub(crate) fn is_advertised(manifest: &ProviderManifest, id: &str) -> (yes: bool)
    ensures
        yes == advertises(manifest@, id@),
{
    let mut i: usize = 0;
    while i < manifest.capabilities.len()
        invariant
            i <= manifest.capabilities.len(),
            forall|j: int| 0 <= j < i ==> (#[trigger] manifest@.capabilities[j]).id != id@,
        decreases manifest.capabilities.len() - i,
    {
        assert(manifest@.capabilities[i as int] == manifest.capabilities[i as int]@);
        if same_text(manifest.capabilities[i].id.as_str(), id) {
            return true;
        }
        i = i + 1;
    }
    false
}

/// A capability that is advertised is found.
pub proof fn an_advertised_capability_is_found(manifest: ManifestView, id: Seq<char>)
    ensures
        advertises(manifest, id) <==> advertised(manifest.capabilities, id) is Some,
    decreases manifest.capabilities.len(),
{
    let all = manifest.capabilities;
    if all.len() > 0 {
        let rest = ManifestView { capabilities: all.drop_first(), ..manifest };
        an_advertised_capability_is_found(rest, id);
        if advertises(manifest, id) && all[0].id != id {
            let i = choose|i: int| 0 <= i < all.len() && (#[trigger] all[i]).id == id;
            assert(rest.capabilities[i - 1] == all[i]);
        }
        if advertises(rest, id) {
            let i = choose|i: int| 0 <= i < rest.capabilities.len() && (#[trigger] rest.capabilities[i]).id == id;
            assert(all[i + 1] == rest.capabilities[i]);
        }
        assert(all[0].id == id ==> advertises(manifest, id));
    }
}

/// Checks a request against the bounded alpha policy.
pub fn validate(manifest: &ProviderManifest, request: &ChangeRequest) -> (verdict: Result<(), ControlPlaneError>)
    requires
        request.leased(),
    ensures
        verdict is Ok <==> policy(manifest@, request@) is Allowed,
        verdict matches Err(error) ==> denied_as(policy(manifest@, request@), request@, error),
{
    let capability = match find_capability(manifest, request.capability_id.as_str()) {
        Some(i) => &manifest.capabilities[i],
        None => {
            return Err(ControlPlaneError::UnknownCapability(request.capability_id.clone()));
        },
    };
    if capability.risk != RiskClass::Reversible {
        return Err(ControlPlaneError::PolicyDenied("only reversible mock capabilities are enabled".to_owned()));
    }
    if request.lease_seconds > MAX_LEASE_SECONDS {
        return Err(ControlPlaneError::PolicyDenied("lease exceeds 300 seconds".to_owned()));
    }
    match request.parameters.u64_member("value") {
        None => Err(ControlPlaneError::PolicyDenied("mock.value requires an unsigned value".to_owned())),
        Some(value) => if value > MAX_MOCK_VALUE {
            Err(ControlPlaneError::PolicyDenied("mock.value is bounded to 0..=100".to_owned()))
        } else {
            Ok(())
        },
    }
}

/// The complete, auditable outcome of a temporary experiment.
#[derive(Clone, Debug)]
pub struct LifecycleResult {
    /// Provider that owned the change.
    pub provider_id: String,
    /// Human-readable preview produced before the write.
    pub preview: String,
    /// Whether the requested value was observed after apply.
    pub verified: bool,
    /// Whether the captured baseline was restored before returning.
    pub rolled_back: bool,
}

/// The outcome of an experiment as JSON.
pub open spec fn result_json(result: LifecycleResult) -> JsonView {
    JsonView::Object(
        map![
            "provider_id"@ => JsonView::Text(result.provider_id@),
            "preview"@ => JsonView::Text(result.preview@),
            "verified"@ => JsonView::Bool(result.verified),
            "rolled_back"@ => JsonView::Bool(result.rolled_back)
        ],
    )
}

impl LifecycleResult {
    /// The outcome as JSON.
    pub fn to_json(&self) -> (json: Json)
        ensures
            json@ == result_json(*self),
            json.names() == seq!["provider_id"@, "preview"@, "verified"@, "rolled_back"@],
    {
        Json::object()
            .with("provider_id", Json::Text(self.provider_id.clone()))
            .with("preview", Json::Text(self.preview.clone()))
            .with("verified", Json::Bool(self.verified))
            .with("rolled_back", Json::Bool(self.rolled_back))
    }
}

/// A stage that failed, and how.
#[derive(Debug)]
pub struct StageFailure {
    /// Stage that failed.
    pub stage: Stage,
    /// How it failed.
    pub error: ControlPlaneError,
}

impl StageFailure {
    /// What the journal says of the failure.
    pub open spec fn noted(&self) -> NoteView {
        NoteView { kind: self.error.kind_text(), stage: self.stage, error: self.error.sentence() }
    }

    /// What the journal says of the failure.
    fn note(&self) -> (note: FailureNote)
        ensures
            note@ == self.noted(),
    {
        FailureNote { kind: self.error.kind(), stage: self.stage, error: self.error.message() }
    }
}

/// The record whose outcome a lifecycle waits for.
#[derive(Debug)]
pub enum Awaiting {
    /// The snapshot record, which opens the experiment.
    Begin,
    /// The preview record.
    Preview {
        /// Description of the change.
        preview: String,
    },
    /// The write-ahead record of the request.
    Intent {
        /// Description of the change.
        preview: String,
    },
    /// The record that the change was applied.
    Apply {
        /// Description of the change.
        preview: String,
    },
    /// The record of the verification probe.
    Verify {
        /// Description of the change.
        preview: String,
        /// Whether the requested state was observed.
        verified: bool,
    },
    /// The record that the snapshot was put back.
    Rollback {
        /// Description of the change.
        preview: String,
        /// The failure that ended the change early, if one did.
        observed: Option<StageFailure>,
    },
    /// The record of the restoration probe.
    RollbackVerify {
        /// Description of the change.
        preview: String,
        /// The failure that ended the change early, if one did.
        observed: Option<StageFailure>,
        /// Whether the captured state was observed again.
        restored: bool,
    },
    /// The closing record of a success.
    Completed {
        /// Description of the change.
        preview: String,
    },
    /// The closing record of a failure.
    Failed {
        /// What the caller is told.
        error: ControlPlaneError,
    },
}

/// A lifecycle that waits for the journal.
#[derive(Debug)]
pub struct Pending {
    /// The change under way.
    pub request: ChangeRequest,
    /// The state to put back.
    pub snapshot: StateSnapshot,
    /// The experiment's id; meaningless until the snapshot record is written.
    pub experiment_id: i64,
    /// The record that was handed out.
    pub awaiting: Awaiting,
}

/// What a lifecycle does next.
#[derive(Debug)]
pub enum Step {
    /// Write this record and report the outcome.
    Write {
        /// The record to write.
        entry: JournalEntry,
        /// The lifecycle to resume with the outcome.
        pending: Pending,
    },
    /// The lifecycle is over.
    Done(Result<LifecycleResult, ControlPlaneError>),
}

/// The error that a journal fault is reported as.
pub open spec fn fault_error(fault: JournalFault) -> ControlPlaneError {
    match fault {
        JournalFault::Storage(why) => ControlPlaneError::Journal(why),
        JournalFault::Encoding(why) => ControlPlaneError::Serialization(why),
    }
}

/// The error that a journal fault is reported as.
pub(crate) fn journal_error(fault: JournalFault) -> (error: ControlPlaneError)
    ensures
        error == fault_error(fault),
{
    match fault {
        JournalFault::Storage(why) => ControlPlaneError::Journal(why),
        JournalFault::Encoding(why) => ControlPlaneError::Serialization(why),
    }
}

/// The step writes that record for the same change, and then waits so.
pub open spec fn hands_out(
    step: Step,
    provider_id: Seq<char>,
    run: Pending,
    stage: Stage,
    payload: PayloadView,
    awaiting: Awaiting,
) -> bool {
    &&& step matches Step::Write { entry, pending }
    &&& entry@ == (EntryView { experiment_id: Some(run.experiment_id), provider_id, stage, payload })
    &&& pending == (Pending { awaiting, ..run })
}

/// The step closes the experiment with that failure.
pub open spec fn closes_with(
    step: Step,
    provider_id: Seq<char>,
    run: Pending,
    failure: StageFailure,
    suppressed: Option<StageFailure>,
) -> bool {
    hands_out(
        step,
        provider_id,
        run,
        Stage::Failed,
        PayloadView::Failed {
            failure: failure.noted(),
            suppressed: match suppressed {
                Some(earlier) => Some(earlier.noted()),
                None => None,
            },
        },
        Awaiting::Failed { error: failure.error },
    )
}

/// The provider was told to put the snapshot back, and the step reports how
/// that went. A restore that fails supersedes what ended the change early.
pub open spec fn restores<P: Provider>(
    before: P,
    after: P,
    step: Step,
    provider_id: Seq<char>,
    run: Pending,
    preview: String,
    observed: Option<StageFailure>,
) -> bool {
    exists|outcome: Result<(), ProviderError>| #[trigger]
        before.may_rollback(run.snapshot, after, outcome) && match outcome {
            Ok(_) => hands_out(
                step,
                provider_id,
                run,
                Stage::Rollback,
                PayloadView::Snapshot(run.snapshot@),
                Awaiting::Rollback { preview, observed },
            ),
            Err(error) => closes_with(
                step,
                provider_id,
                run,
                StageFailure { stage: Stage::Rollback, error: ControlPlaneError::Provider(error) },
                observed,
            ),
        }
}

/// How a lifecycle goes on once the journal has answered.
///
/// `Ok` carries the id of the experiment that the record belongs to. Whatever
/// the journal and the provider answer, exactly one of these lines applies.
pub open spec fn resumes<P: Provider>(
    provider_id: Seq<char>,
    before: P,
    waiting: Pending,
    reply: Result<i64, JournalFault>,
    after: P,
    step: Step,
) -> bool {
    match (waiting.awaiting, reply) {
        (Awaiting::Begin, Ok(experiment_id)) => {
            let run = Pending { experiment_id, ..waiting };
            &&& after == before
            &&& exists|outcome: Result<String, ProviderError>| #[trigger]
                before.may_preview(waiting.request, outcome) && match outcome {
                    Ok(preview) => hands_out(
                        step,
                        provider_id,
                        run,
                        Stage::Preview,
                        PayloadView::Preview(preview@),
                        Awaiting::Preview { preview },
                    ),
                    Err(error) => closes_with(
                        step,
                        provider_id,
                        run,
                        StageFailure { stage: Stage::Preview, error: ControlPlaneError::Provider(error) },
                        None,
                    ),
                }
        },
        (Awaiting::Begin, Err(fault)) => {
            &&& after == before
            &&& step == Step::Done(Err(fault_error(fault)))
        },
        (Awaiting::Preview { preview }, Ok(_)) => {
            &&& after == before
            &&& hands_out(
                step,
                provider_id,
                waiting,
                Stage::ApplyIntent,
                PayloadView::Request(waiting.request@),
                Awaiting::Intent { preview },
            )
        },
        (Awaiting::Preview { .. }, Err(fault)) => {
            &&& after == before
            &&& closes_with(
                step,
                provider_id,
                waiting,
                StageFailure { stage: Stage::Preview, error: fault_error(fault) },
                None,
            )
        },
        (Awaiting::Intent { preview }, Ok(_)) => exists|applied: P, outcome: Result<(), ProviderError>| #[trigger]
            before.may_apply(waiting.request, applied, outcome) && match outcome {
                Ok(_) => {
                    &&& after == applied
                    &&& hands_out(
                        step,
                        provider_id,
                        waiting,
                        Stage::Apply,
                        PayloadView::Applied,
                        Awaiting::Apply { preview },
                    )
                },
                Err(error) => restores(
                    applied,
                    after,
                    step,
                    provider_id,
                    waiting,
                    preview,
                    Some(StageFailure { stage: Stage::Apply, error: ControlPlaneError::Provider(error) }),
                ),
            },
        (Awaiting::Intent { .. }, Err(fault)) => {
            &&& after == before
            &&& closes_with(
                step,
                provider_id,
                waiting,
                StageFailure { stage: Stage::ApplyIntent, error: fault_error(fault) },
                None,
            )
        },
        (Awaiting::Apply { preview }, Ok(_)) => exists|outcome: Result<bool, ProviderError>| #[trigger]
            before.may_verify(waiting.request, outcome) && match outcome {
                Ok(verified) => {
                    &&& after == before
                    &&& hands_out(
                        step,
                        provider_id,
                        waiting,
                        Stage::Verify,
                        PayloadView::Verified(verified),
                        Awaiting::Verify { preview, verified },
                    )
                },
                Err(error) => restores(
                    before,
                    after,
                    step,
                    provider_id,
                    waiting,
                    preview,
                    Some(StageFailure { stage: Stage::Verify, error: ControlPlaneError::Provider(error) }),
                ),
            },
        (Awaiting::Apply { preview }, Err(fault)) => restores(
            before,
            after,
            step,
            provider_id,
            waiting,
            preview,
            Some(StageFailure { stage: Stage::Apply, error: fault_error(fault) }),
        ),
        (Awaiting::Verify { preview, verified }, Ok(_)) => restores(
            before,
            after,
            step,
            provider_id,
            waiting,
            preview,
            if verified {
                None
            } else {
                Some(StageFailure { stage: Stage::Verify, error: ControlPlaneError::VerificationFailed })
            },
        ),
        (Awaiting::Verify { preview, .. }, Err(fault)) => restores(
            before,
            after,
            step,
            provider_id,
            waiting,
            preview,
            Some(StageFailure { stage: Stage::Verify, error: fault_error(fault) }),
        ),
        (Awaiting::Rollback { preview, observed }, Ok(_)) => {
            &&& after == before
            &&& exists|outcome: Result<StateSnapshot, ProviderError>| #[trigger]
                before.may_snapshot(outcome) && match outcome {
                    Ok(now) => {
                        let restored = now@ == waiting.snapshot@;
                        hands_out(
                            step,
                            provider_id,
                            waiting,
                            Stage::RollbackVerify,
                            PayloadView::Restored(restored),
                            Awaiting::RollbackVerify { preview, observed, restored },
                        )
                    },
                    Err(error) => closes_with(
                        step,
                        provider_id,
                        waiting,
                        StageFailure { stage: Stage::RollbackVerify, error: ControlPlaneError::Provider(error) },
                        observed,
                    ),
                }
        },
        (Awaiting::Rollback { observed, .. }, Err(fault)) => {
            &&& after == before
            &&& closes_with(
                step,
                provider_id,
                waiting,
                StageFailure { stage: Stage::Rollback, error: fault_error(fault) },
                observed,
            )
        },
        (Awaiting::RollbackVerify { preview, observed, restored }, Ok(_)) => {
            &&& after == before
            &&& if !restored {
                closes_with(
                    step,
                    provider_id,
                    waiting,
                    StageFailure {
                        stage: Stage::RollbackVerify,
                        error: ControlPlaneError::RollbackVerificationFailed,
                    },
                    observed,
                )
            } else {
                match observed {
                    Some(failure) => closes_with(step, provider_id, waiting, failure, None),
                    None => hands_out(
                        step,
                        provider_id,
                        waiting,
                        Stage::Completed,
                        PayloadView::Completed { verified: true, rolled_back: true },
                        Awaiting::Completed { preview },
                    ),
                }
            }
        },
        (Awaiting::RollbackVerify { observed, .. }, Err(fault)) => {
            &&& after == before
            &&& closes_with(
                step,
                provider_id,
                waiting,
                StageFailure { stage: Stage::RollbackVerify, error: fault_error(fault) },
                observed,
            )
        },
        (Awaiting::Completed { preview }, Ok(_)) => {
            &&& after == before
            &&& step matches Step::Done(Ok(result))
            &&& result.provider_id@ == provider_id
            &&& result.preview == preview
            &&& result.verified
            &&& result.rolled_back
        },
        (Awaiting::Completed { .. }, Err(fault)) => {
            &&& after == before
            &&& step == Step::Done(Err(fault_error(fault)))
        },
        (Awaiting::Failed { error }, _) => {
            &&& after == before
            &&& step == Step::Done(Err(error))
        },
    }
}

/// How a lifecycle starts: a request the policy denies touches nothing, and any
/// other is preceded by a snapshot.
pub open spec fn starts<P: Provider>(
    manifest: ManifestView,
    provider: P,
    request: RequestView,
    step: Step,
) -> bool {
    match policy(manifest, request) {
        PolicyVerdict::Allowed => exists|outcome: Result<StateSnapshot, ProviderError>| #[trigger]
            provider.may_snapshot(outcome) && match outcome {
                Ok(snapshot) => {
                    &&& step matches Step::Write { entry, pending }
                    &&& entry@ == (EntryView {
                        experiment_id: None,
                        provider_id: manifest.id,
                        stage: Stage::Snapshot,
                        payload: PayloadView::Snapshot(snapshot@),
                    })
                    &&& pending.request@ == request
                    &&& pending.snapshot == snapshot
                    &&& pending.awaiting == Awaiting::Begin
                },
                Err(error) => step == Step::Done(Err(ControlPlaneError::Provider(error))),
            },
        denial => {
            &&& step matches Step::Done(Err(error))
            &&& denied_as(denial, request, error)
        },
    }
}

/// Registry and broker for one accepted provider.
#[derive(Debug)]
pub struct ControlPlane<P> {
    provider: P,
    manifest: ProviderManifest,
}

impl<P: Provider> ControlPlane<P> {
    /// The provider as it stands.
    pub closed spec fn state(&self) -> P {
        self.provider
    }

    /// The manifest that the provider was accepted with.
    pub closed spec fn accepted(&self) -> ManifestView {
        self.manifest@
    }

    /// Opens a control plane for one provider on a host whose operating system
    /// is `host`, refusing a provider that does not target it.
    pub fn open(provider: P, host: &str) -> (opened: Result<Self, ControlPlaneError>)
        ensures
            exists|manifest: ProviderManifest| #[trigger]
                provider.may_describe(manifest) && match opened {
                    Ok(plane) => manifest@.targets.contains(host@) && plane.state() == provider && plane.accepted()
                        == manifest@,
                    Err(error) => !manifest@.targets.contains(host@) && (error matches ControlPlaneError::PolicyDenied(
                        why,
                    ) && why@ == "unknown platform target"@),
                },
    {
        let manifest = provider.manifest();
        let mut i: usize = 0;
        while i < manifest.targets.len()
            invariant
                i <= manifest.targets.len(),
                provider.may_describe(manifest),
                forall|j: int| 0 <= j < i ==> (#[trigger] manifest@.targets[j]) != host@,
            decreases manifest.targets.len() - i,
        {
            assert(manifest@.targets[i as int] == manifest.targets[i as int]@);
            if same_text(manifest.targets[i].as_str(), host) {
                return Ok(ControlPlane { provider, manifest });
            }
            i = i + 1;
        }
        Err(ControlPlaneError::PolicyDenied("unknown platform target".to_owned()))
    }

    /// Lists typed capabilities that the registry has accepted for this host.
    pub fn capabilities(&self) -> (manifest: &ProviderManifest)
        ensures
            manifest@ == self.accepted(),
    {
        &self.manifest
    }

    /// The provider, for a caller that shares it.
    pub fn provider(&self) -> (provider: &P)
        ensures
            *provider == self.state(),
    {
        &self.provider
    }

    /// Captures the provider's state.
    pub fn snapshot(&self) -> (outcome: Result<StateSnapshot, ControlPlaneError>)
        ensures
            match outcome {
                Ok(snapshot) => self.state().may_snapshot(Ok(snapshot)),
                Err(error) => error matches ControlPlaneError::Provider(cause) && self.state().may_snapshot(Err(cause)),
            },
    {
        match self.provider.snapshot() {
            Ok(snapshot) => Ok(snapshot),
            Err(error) => Err(ControlPlaneError::Provider(error)),
        }
    }

    /// Starts the lifecycle of a change, restoring the snapshot even when
    /// apply, verification, or journaling fails after the snapshot is captured.
    pub fn run_lifecycle(&self, request: &ChangeRequest) -> (step: Step)
        requires
            request.leased(),
        ensures
            starts(self.accepted(), self.state(), request@, step),
    {
        match validate(&self.manifest, request) {
            Err(error) => Step::Done(Err(error)),
            Ok(()) => match self.provider.snapshot() {
                Err(error) => Step::Done(Err(ControlPlaneError::Provider(error))),
                Ok(snapshot) => {
                    let entry = JournalEntry {
                        experiment_id: None,
                        provider_id: self.manifest.id.clone(),
                        stage: Stage::Snapshot,
                        payload: Payload::Snapshot(snapshot.clone()),
                    };
                    let pending = Pending {
                        request: request.clone(),
                        snapshot,
                        experiment_id: 0,
                        awaiting: Awaiting::Begin,
                    };
                    Step::Write { entry, pending }
                },
            },
        }
    }

    /// Hands out a record of the experiment under way.
    fn hand_out(
        &self,
        request: ChangeRequest,
        snapshot: StateSnapshot,
        experiment_id: i64,
        stage: Stage,
        payload: Payload,
        awaiting: Awaiting,
    ) -> (step: Step)
        ensures
            hands_out(
                step,
                self.accepted().id,
                (Pending { request, snapshot, experiment_id, awaiting }),
                stage,
                payload@,
                awaiting,
            ),
    {
        let entry = JournalEntry {
            experiment_id: Some(experiment_id),
            provider_id: self.manifest.id.clone(),
            stage,
            payload,
        };
        Step::Write { entry, pending: Pending { request, snapshot, experiment_id, awaiting } }
    }

    /// Closes the experiment under way with a failure.
    fn close_with(
        &self,
        request: ChangeRequest,
        snapshot: StateSnapshot,
        experiment_id: i64,
        failure: StageFailure,
        suppressed: Option<StageFailure>,
    ) -> (step: Step)
        ensures
            closes_with(
                step,
                self.accepted().id,
                (Pending { request, snapshot, experiment_id, awaiting: Awaiting::Begin }),
                failure,
                suppressed,
            ),
    {
        let earlier = match &suppressed {
            Some(failure) => Some(failure.note()),
            None => None,
        };
        let payload = Payload::Failed { failure: failure.note(), suppressed: earlier };
        self.hand_out(
            request,
            snapshot,
            experiment_id,
            Stage::Failed,
            payload,
            Awaiting::Failed { error: failure.error },
        )
    }

    /// Puts the snapshot back.
    fn restore(
        &mut self,
        request: ChangeRequest,
        snapshot: StateSnapshot,
        experiment_id: i64,
        preview: String,
        observed: Option<StageFailure>,
    ) -> (step: Step)
        ensures
            final(self).accepted() == old(self).accepted(),
            restores(
                old(self).state(),
                final(self).state(),
                step,
                old(self).accepted().id,
                (Pending { request, snapshot, experiment_id, awaiting: Awaiting::Begin }),
                preview,
                observed,
            ),
    {
        match self.provider.rollback(&snapshot) {
            Ok(()) => {
                let payload = Payload::Snapshot(snapshot.clone());
                self.hand_out(
                    request,
                    snapshot,
                    experiment_id,
                    Stage::Rollback,
                    payload,
                    Awaiting::Rollback { preview, observed },
                )
            },
            Err(error) => self.close_with(
                request,
                snapshot,
                experiment_id,
                StageFailure { stage: Stage::Rollback, error: ControlPlaneError::Provider(error) },
                observed,
            ),
        }
    }

    /// Goes on with a lifecycle once the journal has answered.
    ///
    /// Once apply has been attempted, rollback runs before any error is
    /// reported, and a failed restore takes precedence over other failures. If
    /// the terminal `failed` record itself cannot be journaled, the lifecycle
    /// error is reported all the same.
    pub fn resume(&mut self, waiting: Pending, reply: Result<i64, JournalFault>) -> (step: Step)
        ensures
            final(self).accepted() == old(self).accepted(),
            resumes(old(self).accepted().id, old(self).state(), waiting, reply, final(self).state(), step),
    {
        let Pending { request, snapshot, experiment_id, awaiting } = waiting;
        match awaiting {
            Awaiting::Begin => match reply {
                Err(fault) => Step::Done(Err(journal_error(fault))),
                Ok(experiment_id) => match self.provider.preview(&request) {
                    Ok(preview) => {
                        let payload = Payload::Preview(preview.clone());
                        self.hand_out(
                            request,
                            snapshot,
                            experiment_id,
                            Stage::Preview,
                            payload,
                            Awaiting::Preview { preview },
                        )
                    },
                    Err(error) => self.close_with(
                        request,
                        snapshot,
                        experiment_id,
                        StageFailure { stage: Stage::Preview, error: ControlPlaneError::Provider(error) },
                        None,
                    ),
                },
            },
            Awaiting::Preview { preview } => match reply {
                Err(fault) => self.close_with(
                    request,
                    snapshot,
                    experiment_id,
                    StageFailure { stage: Stage::Preview, error: journal_error(fault) },
                    None,
                ),
                Ok(_) => {
                    let payload = Payload::Request(request.clone());
                    self.hand_out(
                        request,
                        snapshot,
                        experiment_id,
                        Stage::ApplyIntent,
                        payload,
                        Awaiting::Intent { preview },
                    )
                },
            },
            Awaiting::Intent { preview } => match reply {
                Err(fault) => self.close_with(
                    request,
                    snapshot,
                    experiment_id,
                    StageFailure { stage: Stage::ApplyIntent, error: journal_error(fault) },
                    None,
                ),
                Ok(_) => match self.provider.apply(&request) {
                    Ok(()) => self.hand_out(
                        request,
                        snapshot,
                        experiment_id,
                        Stage::Apply,
                        Payload::Applied,
                        Awaiting::Apply { preview },
                    ),
                    Err(error) => self.restore(
                        request,
                        snapshot,
                        experiment_id,
                        preview,
                        Some(StageFailure { stage: Stage::Apply, error: ControlPlaneError::Provider(error) }),
                    ),
                },
            },
            Awaiting::Apply { preview } => match reply {
                Err(fault) => self.restore(
                    request,
                    snapshot,
                    experiment_id,
                    preview,
                    Some(StageFailure { stage: Stage::Apply, error: journal_error(fault) }),
                ),
                Ok(_) => match self.provider.verify(&request) {
                    Ok(verified) => self.hand_out(
                        request,
                        snapshot,
                        experiment_id,
                        Stage::Verify,
                        Payload::Verified(verified),
                        Awaiting::Verify { preview, verified },
                    ),
                    Err(error) => self.restore(
                        request,
                        snapshot,
                        experiment_id,
                        preview,
                        Some(StageFailure { stage: Stage::Verify, error: ControlPlaneError::Provider(error) }),
                    ),
                },
            },
            Awaiting::Verify { preview, verified } => {
                let observed = match reply {
                    Err(fault) => Some(StageFailure { stage: Stage::Verify, error: journal_error(fault) }),
                    Ok(_) => if verified {
                        None
                    } else {
                        Some(StageFailure { stage: Stage::Verify, error: ControlPlaneError::VerificationFailed })
                    },
                };
                self.restore(request, snapshot, experiment_id, preview, observed)
            },
            Awaiting::Rollback { preview, observed } => match reply {
                Err(fault) => self.close_with(
                    request,
                    snapshot,
                    experiment_id,
                    StageFailure { stage: Stage::Rollback, error: journal_error(fault) },
                    observed,
                ),
                Ok(_) => match self.provider.snapshot() {
                    Ok(now) => {
                        let restored = now.same(&snapshot);
                        self.hand_out(
                            request,
                            snapshot,
                            experiment_id,
                            Stage::RollbackVerify,
                            Payload::Restored(restored),
                            Awaiting::RollbackVerify { preview, observed, restored },
                        )
                    },
                    Err(error) => self.close_with(
                        request,
                        snapshot,
                        experiment_id,
                        StageFailure { stage: Stage::RollbackVerify, error: ControlPlaneError::Provider(error) },
                        observed,
                    ),
                },
            },
            Awaiting::RollbackVerify { preview, observed, restored } => match reply {
                Err(fault) => self.close_with(
                    request,
                    snapshot,
                    experiment_id,
                    StageFailure { stage: Stage::RollbackVerify, error: journal_error(fault) },
                    observed,
                ),
                Ok(_) => if !restored {
                    self.close_with(
                        request,
                        snapshot,
                        experiment_id,
                        StageFailure {
                            stage: Stage::RollbackVerify,
                            error: ControlPlaneError::RollbackVerificationFailed,
                        },
                        observed,
                    )
                } else {
                    match observed {
                        Some(failure) => self.close_with(request, snapshot, experiment_id, failure, None),
                        None => self.hand_out(
                            request,
                            snapshot,
                            experiment_id,
                            Stage::Completed,
                            Payload::Completed { verified: true, rolled_back: true },
                            Awaiting::Completed { preview },
                        ),
                    }
                },
            },
            Awaiting::Completed { preview } => match reply {
                Err(fault) => Step::Done(Err(journal_error(fault))),
                Ok(_) => Step::Done(
                    Ok(
                        LifecycleResult {
                            provider_id: self.manifest.id.clone(),
                            preview,
                            verified: true,
                            rolled_back: true,
                        },
                    ),
                ),
            },
            Awaiting::Failed { error } => Step::Done(Err(error)),
        }
    }
}

} // verus!
