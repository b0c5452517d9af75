//! What the policy lets through, and what the records of a lifecycle say.
use vstd::prelude::*;

use crate::contracts::{CapabilityView, ManifestView, RequestView, RiskClass, StateSnapshot};
use crate::control_plane::{Awaiting, ControlPlane, ControlPlaneError, Pending, Step};
use crate::journal::{JournalFault, PayloadView, Stage};
use crate::json::JsonView;
use crate::mock::MockProvider;
use crate::provider::{Provider, ProviderError};

verus! {

/// The capability at that place is the first of its name.
pub open spec fn leads(capabilities: Seq<CapabilityView>, id: Seq<char>, at: int) -> bool {
    &&& 0 <= at < capabilities.len()
    &&& capabilities[at].id == id
    &&& forall|before: int| 0 <= before < at ==> (#[trigger] capabilities[before]).id != id
}

/// Of several capabilities with one name the first is meant, and none is meant
/// where no capability has the name.
pub proof fn the_first_capability_of_a_name_is_meant(capabilities: Seq<CapabilityView>, id: Seq<char>, at: int)
    ensures
        leads(capabilities, id, at) ==> crate::control_plane::advertised(capabilities, id) == Some(capabilities[at]),
        crate::control_plane::advertised(capabilities, id) is Some <==> exists|i: int|
            0 <= i < capabilities.len() && (#[trigger] capabilities[i]).id == id,
    decreases capabilities.len(),
{
    if capabilities.len() > 0 {
        let rest = capabilities.drop_first();
        the_first_capability_of_a_name_is_meant(rest, id, at - 1);
        if leads(capabilities, id, at) && at > 0 {
            assert(capabilities[0].id != id);
            assert forall|before: int| 0 <= before < at - 1 implies (#[trigger] rest[before]).id != id by {
                assert(rest[before] == capabilities[before + 1]);
            }
            assert(leads(rest, id, at - 1));
        }
        if exists|i: int| 0 <= i < rest.len() && (#[trigger] rest[i]).id == id {
            let i = choose|i: int| 0 <= i < rest.len() && (#[trigger] rest[i]).id == id;
            assert(capabilities[i + 1].id == id);
        }
        if capabilities[0].id != id && exists|i: int|
            0 <= i < capabilities.len() && (#[trigger] capabilities[i]).id == id {
            let i = choose|i: int| 0 <= i < capabilities.len() && (#[trigger] capabilities[i]).id == id;
            assert(rest[i - 1].id == id);
        }
    }
}

/// Some capability of a name that occurs is the first of that name.
proof fn lemma_some_capability_leads(capabilities: Seq<CapabilityView>, id: Seq<char>, at: int)
    requires
        0 <= at < capabilities.len(),
        capabilities[at].id == id,
    ensures
        exists|i: int| leads(capabilities, id, i),
    decreases at,
{
    if exists|before: int| 0 <= before < at && (#[trigger] capabilities[before]).id == id {
        let before = choose|before: int| 0 <= before < at && (#[trigger] capabilities[before]).id == id;
        lemma_some_capability_leads(capabilities, id, before);
    } else {
        assert(leads(capabilities, id, at));
    }
}

/// The request names an unsigned value of at most that much.
pub open spec fn asks_for_at_most(request: RequestView, most: u64) -> bool {
    request.parameters matches JsonView::Object(members) && members.contains_key("value"@) && (members["value"@] matches
        JsonView::Unsigned(value) && value <= most)
}

/// The policy lets a request through exactly where the capability that it means
/// is reversible, its lease is at most 300 seconds, and its value is an unsigned
/// one of at most 100.
pub proof fn the_policy_lets_through_what_is_bounded(manifest: ManifestView, request: RequestView)
    ensures
        crate::control_plane::policy(manifest, request) is Allowed <==> {
            &&& exists|i: int|
                leads(manifest.capabilities, request.capability_id, i) && manifest.capabilities[i].risk
                    == RiskClass::Reversible
            &&& request.lease_seconds <= 300
            &&& asks_for_at_most(request, 100)
        },
{
    let all = manifest.capabilities;
    let id = request.capability_id;
    the_first_capability_of_a_name_is_meant(all, id, 0);
    if crate::control_plane::advertised(all, id) is Some {
        let some = choose|i: int| 0 <= i < all.len() && (#[trigger] all[i]).id == id;
        lemma_some_capability_leads(all, id, some);
        let first = choose|i: int| leads(all, id, i);
        the_first_capability_of_a_name_is_meant(all, id, first);
    }
    assert forall|i: int| leads(all, id, i) implies crate::control_plane::advertised(all, id) == Some(all[i]) by {
        the_first_capability_of_a_name_is_meant(all, id, i);
    }
}

/// A tighter request is let through wherever a looser one is: neither a shorter
/// lease nor other capabilities further down the manifest are held against it.
pub proof fn a_shorter_lease_is_never_held_against_a_request(
    manifest: ManifestView,
    more: Seq<CapabilityView>,
    longer: RequestView,
    shorter: RequestView,
)
    requires
        shorter.lease_seconds <= longer.lease_seconds,
        shorter.capability_id == longer.capability_id,
        shorter.parameters == longer.parameters,
        crate::control_plane::policy(manifest, longer) is Allowed,
    ensures
        crate::control_plane::policy(manifest, shorter) is Allowed,
        crate::control_plane::policy((ManifestView { capabilities: manifest.capabilities + more, ..manifest }), shorter) is
            Allowed,
{
    let all = manifest.capabilities;
    let id = shorter.capability_id;
    let wider = ManifestView { capabilities: all + more, ..manifest };
    the_policy_lets_through_what_is_bounded(manifest, longer);
    the_policy_lets_through_what_is_bounded(manifest, shorter);
    the_policy_lets_through_what_is_bounded(wider, shorter);
    let i = choose|i: int| leads(all, id, i) && all[i].risk == RiskClass::Reversible;
    assert(wider.capabilities[i] == all[i]);
    assert forall|before: int| 0 <= before < i implies (#[trigger] wider.capabilities[before]).id != id by {
        assert(wider.capabilities[before] == all[before]);
    }
    assert(leads(wider.capabilities, id, i));
}

/// A lifecycle that ends in those words at its start.
pub open spec fn denied_in_words(step: Step, why: Seq<char>) -> bool {
    step matches Step::Done(Err(ControlPlaneError::PolicyDenied(text))) && text@ == why
}

/// A denied request is told the first thing that is wrong with it: an unknown
/// capability before its risk, the risk before the lease, the lease before the
/// value.
pub proof fn a_denied_request_is_told_what_is_wrong<P: Provider>(
    manifest: ManifestView,
    provider: P,
    request: RequestView,
    step: Step,
    at: int,
)
    requires
        crate::control_plane::starts(manifest, provider, request, step),
    ensures
        (forall|i: int| 0 <= i < manifest.capabilities.len() ==> (#[trigger] manifest.capabilities[i]).id
            != request.capability_id) ==> (step matches Step::Done(Err(ControlPlaneError::UnknownCapability(what)))
            && what@ == request.capability_id),
        leads(manifest.capabilities, request.capability_id, at) ==> {
            let reversible = manifest.capabilities[at].risk == RiskClass::Reversible;
            let valued = crate::json::member(request.parameters, "value"@);
            &&& !reversible ==> denied_in_words(step, "only reversible mock capabilities are enabled"@)
            &&& reversible && request.lease_seconds > 300 ==> denied_in_words(step, "lease exceeds 300 seconds"@)
            &&& reversible && request.lease_seconds <= 300 && !(valued matches Some(JsonView::Unsigned(_)))
                ==> denied_in_words(step, "mock.value requires an unsigned value"@)
            &&& reversible && request.lease_seconds <= 300 && (valued matches Some(JsonView::Unsigned(value)) && value
                > 100) ==> denied_in_words(step, "mock.value is bounded to 0..=100"@)
        },
{
    the_first_capability_of_a_name_is_meant(manifest.capabilities, request.capability_id, at);
}

/// A lifecycle opens with the state that the provider reports, written as the
/// snapshot record of a new experiment of that provider; the snapshot that is
/// kept to restore from is the one that was written.
pub proof fn a_lifecycle_opens_with_the_state_as_it_is<P: Provider>(
    manifest: ManifestView,
    provider: P,
    request: RequestView,
    step: Step,
)
    requires
        crate::control_plane::starts(manifest, provider, request, step),
    ensures
        step matches Step::Write { entry, pending } ==> {
            &&& provider.may_snapshot(Ok(pending.snapshot))
            &&& entry.payload@ == PayloadView::Snapshot(pending.snapshot@)
            &&& entry.stage == Stage::Snapshot
            &&& entry.provider_id@ == manifest.id
            &&& entry.experiment_id is None
            &&& pending.request@ == request
            &&& pending.awaiting is Begin
            &&& request.lease_seconds <= 300
            &&& asks_for_at_most(request, 100)
        },
        !(step is Write) && request.lease_seconds <= 300 && asks_for_at_most(request, 100) && (exists|i: int|
            leads(manifest.capabilities, request.capability_id, i) && manifest.capabilities[i].risk
                == RiskClass::Reversible) ==> (step matches Step::Done(Err(ControlPlaneError::Provider(error)))
            && provider.may_snapshot(Err(error))),
{
    the_policy_lets_through_what_is_bounded(manifest, request);
}

/// The description that a lifecycle carries along, once it has one.
pub open spec fn described(awaiting: Awaiting) -> Option<String> {
    match awaiting {
        Awaiting::Begin => None,
        Awaiting::Preview { preview } => Some(preview),
        Awaiting::Intent { preview } => Some(preview),
        Awaiting::Apply { preview } => Some(preview),
        Awaiting::Verify { preview, .. } => Some(preview),
        Awaiting::Rollback { preview, .. } => Some(preview),
        Awaiting::RollbackVerify { preview, .. } => Some(preview),
        Awaiting::Completed { preview } => Some(preview),
        Awaiting::Failed { .. } => None,
    }
}

/// Every record belongs to the experiment that the journal opened and to the
/// provider that was accepted.
pub proof fn a_record_belongs_to_its_experiment<P: Provider>(
    provider_id: Seq<char>,
    before: P,
    waiting: Pending,
    reply: Result<i64, JournalFault>,
    after: P,
    step: Step,
)
    requires
        crate::control_plane::resumes(provider_id, before, waiting, reply, after, step),
    ensures
        step matches Step::Write { entry, pending } ==> {
            &&& entry.provider_id@ == provider_id
            &&& entry.experiment_id == Some(pending.experiment_id)
            &&& waiting.awaiting is Begin ==> reply == Ok::<i64, JournalFault>(pending.experiment_id)
            &&& !(waiting.awaiting is Begin) ==> pending.experiment_id == waiting.experiment_id
            &&& pending.request == waiting.request
            &&& pending.snapshot == waiting.snapshot
        },
{
}

/// Every record says what was done: what the provider described, the request
/// itself before it is applied, what the probes saw, and the state that was put
/// back.
pub proof fn a_record_says_what_was_done<P: Provider>(
    provider_id: Seq<char>,
    before: P,
    waiting: Pending,
    reply: Result<i64, JournalFault>,
    after: P,
    step: Step,
)
    requires
        crate::control_plane::resumes(provider_id, before, waiting, reply, after, step),
    ensures
        step matches Step::Write { entry, pending } ==> {
            &&& entry.stage == Stage::Preview ==> (pending.awaiting matches Awaiting::Preview { preview }
                && before.may_preview(waiting.request, Ok(preview)) && entry.payload@ == PayloadView::Preview(preview@))
            &&& entry.stage == Stage::ApplyIntent ==> entry.payload@ == PayloadView::Request(waiting.request@)
            &&& entry.stage == Stage::Apply ==> entry.payload@ == PayloadView::Applied && exists|
                outcome: Result<(), ProviderError>,
            | #[trigger] before.may_apply(waiting.request, after, outcome) && outcome is Ok
            &&& entry.stage == Stage::Verify ==> (pending.awaiting matches Awaiting::Verify { verified, .. }
                && before.may_verify(waiting.request, Ok(verified)) && entry.payload@ == PayloadView::Verified(verified))
            &&& entry.stage == Stage::Rollback ==> entry.payload@ == PayloadView::Snapshot(waiting.snapshot@)
            &&& entry.stage == Stage::RollbackVerify ==> exists|now: Result<StateSnapshot, ProviderError>| #[trigger]
                before.may_snapshot(now) && (now matches Ok(seen) && entry.payload@ == PayloadView::Restored(
                    seen@ == waiting.snapshot@,
                ))
            &&& entry.stage == Stage::Completed ==> entry.payload@ == (PayloadView::Completed {
                verified: true,
                rolled_back: true,
            })
        },
{
}

/// What is recorded of a probe is what the lifecycle goes on from.
pub proof fn a_probe_is_recorded_as_it_was_seen<P: Provider>(
    provider_id: Seq<char>,
    before: P,
    waiting: Pending,
    reply: Result<i64, JournalFault>,
    after: P,
    step: Step,
)
    requires
        crate::control_plane::resumes(provider_id, before, waiting, reply, after, step),
    ensures
        step matches Step::Write { entry, pending } ==> {
            &&& (pending.awaiting matches Awaiting::RollbackVerify { restored, .. } ==> entry.payload@
                == PayloadView::Restored(restored))
            &&& (pending.awaiting matches Awaiting::Verify { verified, .. } ==> entry.payload@ == PayloadView::Verified(
                verified,
            ))
            &&& !(waiting.awaiting is Begin) && !(pending.awaiting is Failed) ==> described(pending.awaiting)
                == described(waiting.awaiting)
        },
{
}

/// A failed experiment is closed with the error that its caller is then told of.
pub proof fn the_recorded_failure_is_the_one_reported<P: Provider>(
    provider_id: Seq<char>,
    before: P,
    waiting: Pending,
    reply: Result<i64, JournalFault>,
    after: P,
    step: Step,
)
    requires
        crate::control_plane::resumes(provider_id, before, waiting, reply, after, step),
    ensures
        step matches Step::Write { entry, pending } ==> (entry.stage == Stage::Failed ==> (pending.awaiting matches
            Awaiting::Failed { error } && (entry.payload@ matches PayloadView::Failed { failure, .. } && failure.kind
            == error.kind_text() && failure.error == error.sentence()))),
        waiting.awaiting matches Awaiting::Failed { error } ==> step == Step::Done(Err(error)),
        step matches Step::Done(Ok(result)) ==> result.provider_id@ == provider_id && described(waiting.awaiting)
            == Some(result.preview) && reply is Ok,
{
}

/// The lifecycle is closed with that failure of that stage, and nothing was
/// superseded by it.
pub open spec fn closed_over(step: Step, stage: Stage, kind: Seq<char>, words: Seq<char>) -> bool {
    step matches Step::Write { entry, .. } && entry.stage == Stage::Failed && (entry.payload@ matches
        PayloadView::Failed { failure, suppressed } && failure.stage == stage && failure.kind == kind && failure.error
        == words && suppressed is None)
}

/// Where the journal refuses a record before the change is applied, the change is
/// never applied and the journal's own words close the experiment.
pub proof fn a_refused_record_stops_the_change<P: Provider>(
    provider_id: Seq<char>,
    before: P,
    waiting: Pending,
    reply: Result<i64, JournalFault>,
    after: P,
    step: Step,
    why: String,
)
    requires
        crate::control_plane::resumes(provider_id, before, waiting, reply, after, step),
    ensures
        reply == Err::<i64, JournalFault>(JournalFault::Storage(why)) ==> {
            &&& waiting.awaiting is Begin ==> step == Step::Done(Err(ControlPlaneError::Journal(why))) && after == before
            &&& waiting.awaiting is Preview ==> closed_over(step, Stage::Preview, "journal"@, why@) && after == before
            &&& waiting.awaiting is Intent ==> closed_over(step, Stage::ApplyIntent, "journal"@, why@) && after
                == before
            &&& waiting.awaiting is Completed ==> step == Step::Done(Err(ControlPlaneError::Journal(why)))
        },
        reply == Err::<i64, JournalFault>(JournalFault::Encoding(why)) ==> {
            &&& waiting.awaiting is Begin ==> step == Step::Done(Err(ControlPlaneError::Serialization(why))) && after
                == before
            &&& waiting.awaiting is Preview ==> closed_over(step, Stage::Preview, "serialization"@, why@) && after
                == before
            &&& waiting.awaiting is Intent ==> closed_over(step, Stage::ApplyIntent, "serialization"@, why@) && after
                == before
            &&& waiting.awaiting is Completed ==> step == Step::Done(Err(ControlPlaneError::Serialization(why)))
        },
{
}

/// The failure that a restore carries along, whether or not the restore itself
/// went well.
pub open spec fn carried(step: Step, stage: Stage, kind: Seq<char>, words: Seq<char>) -> bool {
    step matches Step::Write { entry, pending } && ((pending.awaiting matches Awaiting::Rollback {
        observed: Some(failure),
        ..
    } && failure.stage == stage && failure.error.kind_text() == kind && failure.error.sentence() == words) || (
    entry.payload@ matches PayloadView::Failed { failure, suppressed: Some(earlier) } && failure.stage
        == Stage::Rollback && failure.kind == "provider"@ && earlier.stage == stage && earlier.kind == kind
        && earlier.error == words))
}

/// Where something fails once the change may have been applied, the restore
/// carries that failure along: a record that the journal refused, in its words,
/// and a change that was not observed, as such.
pub proof fn a_failure_after_apply_is_carried_to_the_end<P: Provider>(
    provider_id: Seq<char>,
    before: P,
    waiting: Pending,
    reply: Result<i64, JournalFault>,
    after: P,
    step: Step,
    why: String,
)
    requires
        crate::control_plane::resumes(provider_id, before, waiting, reply, after, step),
    ensures
        reply == Err::<i64, JournalFault>(JournalFault::Storage(why)) ==> {
            &&& waiting.awaiting is Apply ==> carried(step, Stage::Apply, "journal"@, why@)
            &&& waiting.awaiting is Verify ==> carried(step, Stage::Verify, "journal"@, why@)
        },
        reply is Ok ==> (waiting.awaiting matches Awaiting::Verify { verified, .. } ==> {
            &&& !verified ==> carried(step, Stage::Verify, "verification-failed"@, "verification probe failed"@)
            &&& verified ==> (step matches Step::Write { entry, pending } && ((pending.awaiting matches
                Awaiting::Rollback { observed, .. } && observed is None) || (entry.payload@ matches
                PayloadView::Failed { failure, suppressed } && failure.stage == Stage::Rollback && suppressed is None)))
        }),
{
}

/// A restore is closed by what it came to: a baseline that was not seen again is
/// a failed restore, one that was seen again reports the failure that ended the
/// change early, and where there was none the experiment is completed.
pub proof fn a_restore_is_closed_by_what_it_came_to<P: Provider>(
    provider_id: Seq<char>,
    before: P,
    waiting: Pending,
    reply: Result<i64, JournalFault>,
    after: P,
    step: Step,
)
    requires
        crate::control_plane::resumes(provider_id, before, waiting, reply, after, step),
        reply is Ok,
    ensures
        waiting.awaiting matches Awaiting::RollbackVerify { observed, restored, .. } ==> (step matches Step::Write {
            entry,
            ..
        } && {
            &&& restored && observed is None <==> entry.stage == Stage::Completed
            &&& !restored ==> (entry.payload@ matches PayloadView::Failed { failure, suppressed } && failure.stage
                == Stage::RollbackVerify && failure.kind == "rollback-verification-failed"@ && failure.error
                == "rollback verification failed"@ && (suppressed is Some <==> observed is Some))
            &&& restored && observed is Some ==> closed_over(
                step,
                observed->0.stage,
                observed->0.error.kind_text(),
                observed->0.error.sentence(),
            )
        }),
        waiting.awaiting matches Awaiting::Rollback { observed, .. } ==> (step matches Step::Write { pending, .. }
            ==> (pending.awaiting matches Awaiting::RollbackVerify { observed: kept, .. } ==> kept == observed)),
{
}

/// A provider that answers every call lets the lifecycle go on from each stage to
/// the next.
pub proof fn a_willing_provider_is_taken_at_its_word<P: Provider>(
    provider_id: Seq<char>,
    before: P,
    waiting: Pending,
    reply: Result<i64, JournalFault>,
    after: P,
    step: Step,
)
    requires
        crate::control_plane::resumes(provider_id, before, waiting, reply, after, step),
        reply is Ok,
    ensures
        waiting.awaiting is Begin && (forall|outcome: Result<String, ProviderError>| #[trigger]
            before.may_preview(waiting.request, outcome) ==> outcome is Ok) ==> (step matches Step::Write { entry, .. }
            && entry.stage == Stage::Preview),
        waiting.awaiting is Preview ==> (step matches Step::Write { entry, .. } && entry.stage == Stage::ApplyIntent),
        waiting.awaiting is Intent && (forall|applied: P, outcome: Result<(), ProviderError>| #[trigger]
            before.may_apply(waiting.request, applied, outcome) ==> outcome is Ok) ==> (step matches Step::Write {
            entry,
            ..
        } && entry.stage == Stage::Apply),
        waiting.awaiting is Apply && (forall|outcome: Result<bool, ProviderError>| #[trigger]
            before.may_verify(waiting.request, outcome) ==> outcome is Ok) ==> (step matches Step::Write { entry, .. }
            && entry.stage == Stage::Verify),
        waiting.awaiting is Verify && (forall|outcome: Result<(), ProviderError>| #[trigger]
            before.may_rollback(waiting.snapshot, after, outcome) ==> outcome is Ok) ==> (step matches Step::Write {
            entry,
            ..
        } && entry.stage == Stage::Rollback),
        waiting.awaiting is Rollback && (forall|outcome: Result<StateSnapshot, ProviderError>| #[trigger]
            before.may_snapshot(outcome) ==> outcome is Ok) ==> (step matches Step::Write { entry, .. } && entry.stage
            == Stage::RollbackVerify),
        waiting.awaiting is Completed ==> step matches Step::Done(Ok(_)),
{
}

/// Each kind of error goes by a name of its own, and says what it is about.
pub proof fn an_error_is_named_and_worded_for_what_it_is(error: ControlPlaneError, other: ControlPlaneError)
    ensures
        error matches ControlPlaneError::UnknownCapability(what) ==> error.kind_text() == "unknown-capability"@
            && error.sentence() == "unknown capability: "@ + what@,
        error matches ControlPlaneError::PolicyDenied(why) ==> error.kind_text() == "policy-denied"@ && error.sentence()
            == "policy denied request: "@ + why@,
        error matches ControlPlaneError::Provider(cause) ==> error.kind_text() == "provider"@ && error.sentence()
            == cause.sentence(),
        error is VerificationFailed ==> error.kind_text() == "verification-failed"@ && error.sentence()
            == "verification probe failed"@,
        error is RollbackVerificationFailed ==> error.kind_text() == "rollback-verification-failed"@
            && error.sentence() == "rollback verification failed"@,
        error matches ControlPlaneError::Journal(why) ==> error.kind_text() == "journal"@ && error.sentence() == why@,
        error matches ControlPlaneError::Serialization(why) ==> error.kind_text() == "serialization"@
            && error.sentence() == why@,
        error matches ControlPlaneError::UnknownTrial(id) ==> error.kind_text() == "unknown-trial"@ && error.sentence()
            == "unknown trial: "@ + crate::text::signed_digits(id as int),
        error.kind_text() == other.kind_text() <==> {
            ||| error is UnknownCapability && other is UnknownCapability
            ||| error is PolicyDenied && other is PolicyDenied
            ||| error is Provider && other is Provider
            ||| error is VerificationFailed && other is VerificationFailed
            ||| error is RollbackVerificationFailed && other is RollbackVerificationFailed
            ||| error is Journal && other is Journal
            ||| error is Serialization && other is Serialization
            ||| error is UnknownTrial && other is UnknownTrial
        },
{
    reveal_strlit("unknown-capability");
    reveal_strlit("policy-denied");
    reveal_strlit("provider");
    reveal_strlit("verification-failed");
    reveal_strlit("rollback-verification-failed");
    reveal_strlit("journal");
    reveal_strlit("serialization");
    reveal_strlit("unknown-trial");
    assert("unknown-capability"@.len() == 18 && "policy-denied"@.len() == 13 && "provider"@.len() == 8);
    assert("verification-failed"@.len() == 19 && "rollback-verification-failed"@.len() == 28);
    assert("journal"@.len() == 7 && "serialization"@.len() == 13 && "unknown-trial"@.len() == 13);
    assert("policy-denied"@[0] == 'p' && "serialization"@[0] == 's' && "unknown-trial"@[0] == 'u');
}

/// A provider's error says which call failed, and about what.
pub proof fn a_provider_error_is_worded_for_what_it_is(error: ProviderError)
    ensures
        error matches ProviderError::UnsupportedCapability(what) ==> error.sentence() == "unsupported capability: "@
            + what@,
        error matches ProviderError::InvalidRequest(what) ==> error.sentence() == "invalid request: "@ + what@,
        error matches ProviderError::Unavailable(what) ==> error.sentence() == "provider unavailable: "@ + what@,
        error matches ProviderError::RollbackFailed(what) ==> error.sentence() == "rollback failed: "@ + what@,
{
}

/// On the mock provider a change that is applied is then observed, a snapshot
/// holds the value that the provider had, and rolling back to a snapshot brings
/// the value of that snapshot back, whatever happened in between.
pub proof fn the_mock_keeps_what_it_is_given(
    start: MockProvider,
    request: crate::contracts::ChangeRequest,
    applied: MockProvider,
    outcome: Result<(), ProviderError>,
    snapshot: StateSnapshot,
    later: MockProvider,
    back: MockProvider,
    rolled: Result<(), ProviderError>,
)
    requires
        start.may_apply(request, applied, outcome),
        start.may_snapshot(Ok(snapshot)),
        later.may_rollback(snapshot, back, rolled),
    ensures
        outcome is Ok ==> forall|probe: Result<bool, ProviderError>| #[trigger]
            applied.may_verify(request, probe) ==> probe == Ok::<bool, ProviderError>(true),
        outcome is Ok <==> request.capability_id@ == "mock.value"@ && (crate::json::member(
            request.parameters@,
            "value"@,
        ) matches Some(JsonView::Unsigned(_))),
        outcome is Ok ==> crate::json::member(request.parameters@, "value"@) == Some(
            JsonView::Unsigned(applied.setting()),
        ),
        outcome is Err ==> applied.setting() == start.setting(),
        rolled is Ok,
        back.setting() == start.setting(),
        snapshot.provider_id@ == "mock"@,
        crate::json::member(snapshot.state@, "value"@) == Some(JsonView::Unsigned(start.setting())),
        forall|probe: Result<StateSnapshot, ProviderError>| #[trigger]
            back.may_snapshot(probe) ==> (probe matches Ok(seen) && seen@ == snapshot@),
{
    assert(snapshot@.state == snapshot.state@);
}

/// The probe of the mock provider sees a change exactly where the value asked for
/// is the value that the provider has.
pub proof fn the_mock_sees_only_the_value_it_has(
    provider: MockProvider,
    request: crate::contracts::ChangeRequest,
    probe: Result<bool, ProviderError>,
)
    requires
        provider.may_verify(request, probe),
    ensures
        probe is Ok,
        probe == Ok::<bool, ProviderError>(true) <==> crate::json::member(request.parameters@, "value"@) == Some(
            JsonView::Unsigned(provider.setting()),
        ),
{
}

/// The mock provider previews a change with the value it has and the value asked
/// for, and describes itself as built for its target with one reversible, leased
/// capability.
pub proof fn the_mock_says_what_it_is_and_would_do(
    provider: MockProvider,
    request: crate::contracts::ChangeRequest,
    preview: Result<String, ProviderError>,
    manifest: crate::contracts::ProviderManifest,
)
    requires
        provider.may_preview(request, preview),
        provider.may_describe(manifest),
    ensures
        preview is Ok <==> crate::json::member(request.parameters@, "value"@) matches Some(JsonView::Unsigned(_)),
        preview matches Ok(text) ==> (crate::json::member(request.parameters@, "value"@) matches Some(
            JsonView::Unsigned(value),
        ) && text@ == "set mock.value from "@ + crate::text::decimal_digits(provider.setting() as nat) + " to "@
            + crate::text::decimal_digits(value as nat)),
        manifest@.id == "mock"@,
        manifest@.protocol_version == 1,
        manifest@.targets == seq![provider.built_for()],
        manifest@.capabilities.len() == 1,
        manifest@.capabilities[0].id == "mock.value"@,
        manifest@.capabilities[0].risk == RiskClass::Reversible,
        manifest@.capabilities[0].persistence == crate::contracts::Persistence::Leased,
{
}

/// A control plane opens exactly where the provider's manifest names the host, and
/// then with that provider and that manifest.
pub proof fn a_control_plane_opens_only_on_its_targets<P: Provider>(
    provider: P,
    host: &str,
    opened: Result<ControlPlane<P>, ControlPlaneError>,
)
    requires
        call_ensures(ControlPlane::<P>::open, (provider, host), opened),
    ensures
        exists|manifest: crate::contracts::ProviderManifest| #[trigger]
            provider.may_describe(manifest) && (opened is Ok <==> exists|i: int|
                0 <= i < manifest@.targets.len() && #[trigger] manifest@.targets[i] == host@) && (opened matches Ok(plane)
                ==> plane.accepted() == manifest@ && plane.state() == provider),
        opened matches Err(error) ==> (error matches ControlPlaneError::PolicyDenied(why) && why@
            == "unknown platform target"@),
{
    let manifest = choose|manifest: crate::contracts::ProviderManifest| #[trigger]
        provider.may_describe(manifest) && match opened {
            Ok(plane) => manifest@.targets.contains(host@) && plane.state() == provider && plane.accepted()
                == manifest@,
            Err(error) => !manifest@.targets.contains(host@) && (error matches ControlPlaneError::PolicyDenied(why)
                && why@ == "unknown platform target"@),
        };
    assert(provider.may_describe(manifest));
    if opened is Ok {
        let i = choose|i: int| 0 <= i < manifest@.targets.len() && manifest@.targets[i] == host@;
        assert(manifest@.targets[i] == host@);
    }
    assert(opened is Ok <==> exists|i: int|
        0 <= i < manifest@.targets.len() && #[trigger] manifest@.targets[i] == host@);
}

} // verus!
