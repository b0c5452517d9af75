//! What the broker answers, and whose change it starts.
use vstd::prelude::*;

use crate::broker::BrokerStep;
use crate::contracts::ManifestView;
use crate::control_plane::{ControlPlaneError, LifecycleResult, Pending, Step};
use crate::ipc::{BrokerErrorKind, BrokerOp, BrokerRequest, BrokerResponse};
use crate::journal::{JournalFault, PayloadView, Stage};
use crate::provider::Provider;

verus! {

/// The request is refused with that kind, in those words.
pub open spec fn turned_away(step: BrokerStep, kind: BrokerErrorKind, words: Seq<char>) -> bool {
    step matches BrokerStep::Respond(BrokerResponse::Error { error }) && error.kind == kind && error.message@ == words
}

/// Discovery answers with the whole catalog and takes no knob, whatever else the
/// request holds.
pub proof fn discovery_shows_the_catalog<P: Provider>(
    catalog: ManifestView,
    provider: P,
    request: BrokerRequest,
    before: Map<Seq<char>, Seq<char>>,
    after: Map<Seq<char>, Seq<char>>,
    step: BrokerStep,
)
    requires
        crate::broker::handles(catalog, provider, request, before, after, step),
        request.op == BrokerOp::Discover,
    ensures
        step matches BrokerStep::Respond(BrokerResponse::Capabilities { capabilities }) && capabilities@ == catalog,
        after == before,
{
}

/// Some capability of the catalog has that name.
pub open spec fn in_catalog(catalog: ManifestView, name: Seq<char>) -> bool {
    exists|i: int| 0 <= i < catalog.capabilities.len() && (#[trigger] catalog.capabilities[i]).id == name
}

/// A lifecycle request is turned away for the first thing that is wrong with it:
/// no owner, then no change, then a capability outside the catalog, then a knob
/// that somebody holds, who is named.
pub proof fn a_request_is_turned_away_for_the_first_fault<P: Provider>(
    catalog: ManifestView,
    provider: P,
    request: BrokerRequest,
    before: Map<Seq<char>, Seq<char>>,
    after: Map<Seq<char>, Seq<char>>,
    step: BrokerStep,
)
    requires
        crate::broker::handles(catalog, provider, request, before, after, step),
        request.op == BrokerOp::RunLifecycle,
    ensures
        ({
            let owned = request.owner is Some && exists|i: int|
                0 <= i < request.owner->0@.len() && !crate::text::white_space(#[trigger] request.owner->0@[i]);
            let name = request.change->0.capability_id@;
            &&& !owned ==> turned_away(step, BrokerErrorKind::Malformed, "run-lifecycle requires a non-empty owner"@)
            &&& owned && request.change is None ==> turned_away(
                step,
                BrokerErrorKind::Malformed,
                "run-lifecycle requires a change"@,
            )
            &&& owned && request.change is Some && !in_catalog(catalog, name) ==> turned_away(
                step,
                BrokerErrorKind::UnknownCapability,
                "capability "@ + crate::text::quoted(name) + " is not in the catalog"@,
            )
            &&& owned && request.change is Some && in_catalog(catalog, name) && before.contains_key(name)
                ==> turned_away(
                step,
                BrokerErrorKind::OwnerConflict,
                "capability "@ + crate::text::quoted(name) + " is already owned by "@ + crate::text::quoted(
                    before[name],
                ),
            )
        }),
{
    if request.owner is Some {
        let owner = request.owner->0@;
        if !crate::text::blank(owner) {
            let i = choose|i: int| 0 <= i < owner.len() && !crate::text::white_space(#[trigger] owner[i]);
            assert(!crate::text::white_space(request.owner->0@[i]));
        }
    }
}

/// A lifecycle that is started is the one that was asked for: the change of the
/// request, on its own knob, which was free and in the catalog and is now held by
/// the owner that asked; the first record is the provider's state before.
pub proof fn a_started_lifecycle_is_the_one_asked_for<P: Provider>(
    catalog: ManifestView,
    provider: P,
    request: BrokerRequest,
    before: Map<Seq<char>, Seq<char>>,
    after: Map<Seq<char>, Seq<char>>,
    step: BrokerStep,
)
    requires
        crate::broker::handles(catalog, provider, request, before, after, step),
        step is Write,
    ensures
        request.op == BrokerOp::RunLifecycle,
        request.owner is Some,
        request.change is Some,
        ({
            let knob = request.change->0.capability_id@;
            &&& !before.contains_key(knob)
            &&& in_catalog(catalog, knob)
            &&& after == before.insert(knob, request.owner->0@)
            &&& step matches BrokerStep::Write { entry, pending } && {
                &&& pending.guard.knob() == knob
                &&& pending.lifecycle.request@ == request.change->0@
                &&& pending.lifecycle.awaiting is Begin
                &&& provider.may_snapshot(Ok(pending.lifecycle.snapshot))
                &&& entry.stage == Stage::Snapshot
                &&& entry.provider_id@ == catalog.id
                &&& entry.experiment_id is None
                &&& entry.payload@ == PayloadView::Snapshot(pending.lifecycle.snapshot@)
            }
        }),
{
    assert(request.change->0@.capability_id == request.change->0.capability_id@);
}

/// A request that is well-formed, in the catalog and free is never turned away by
/// the broker itself: it is started, or denied by the policy, or refused by the
/// provider.
pub proof fn a_free_knob_is_given_to_whoever_asks<P: Provider>(
    catalog: ManifestView,
    provider: P,
    request: BrokerRequest,
    before: Map<Seq<char>, Seq<char>>,
    after: Map<Seq<char>, Seq<char>>,
    step: BrokerStep,
)
    requires
        crate::broker::handles(catalog, provider, request, before, after, step),
        request.op == BrokerOp::RunLifecycle,
        request.owner is Some,
        !crate::text::blank(request.owner->0@),
        request.change is Some,
        in_catalog(catalog, request.change->0.capability_id@),
        !before.contains_key(request.change->0.capability_id@),
    ensures
        crate::control_plane::policy(catalog, request.change->0@) is Allowed && (forall|
            outcome: Result<crate::contracts::StateSnapshot, crate::provider::ProviderError>,
        | #[trigger] provider.may_snapshot(outcome) ==> outcome is Ok) ==> step is Write,
        step matches BrokerStep::Respond(response) ==> (response matches BrokerResponse::Error { error } && (error.kind
            == BrokerErrorKind::PolicyDenied || error.kind == BrokerErrorKind::LifecycleFailed)),
{
    crate::control_laws::the_first_capability_of_a_name_is_meant(
        catalog.capabilities,
        request.change->0.capability_id@,
        0,
    );
    assert(request.change->0@.capability_id == request.change->0.capability_id@);
}

/// A lifecycle that ended is reported as it ended: a success with its provider,
/// its description and what was seen, and a failure under its kind in its own
/// words.
pub proof fn an_ended_lifecycle_is_reported_as_it_ended(
    response: BrokerResponse,
    outcome: Result<LifecycleResult, ControlPlaneError>,
)
    requires
        crate::broker::reports(response, outcome),
    ensures
        outcome matches Ok(result) ==> (response matches BrokerResponse::Lifecycle { lifecycle } && {
            &&& lifecycle.provider_id == result.provider_id
            &&& lifecycle.preview == result.preview
            &&& lifecycle.verified == result.verified
            &&& lifecycle.rolled_back == result.rolled_back
        }),
        outcome matches Err(failure) ==> (response matches BrokerResponse::Error { error } && {
            &&& error.message@ == failure.sentence()
            &&& error.kind == BrokerErrorKind::UnknownCapability <==> failure is UnknownCapability
            &&& error.kind == BrokerErrorKind::PolicyDenied <==> failure is PolicyDenied
            &&& error.kind == BrokerErrorKind::LifecycleFailed <==> !(failure is UnknownCapability)
                && !(failure is PolicyDenied)
        }),
{
}

/// While a lifecycle is under way the broker hands on its very records, and a
/// knob changes hands only when it ends.
pub proof fn the_broker_hands_on_the_records_of_a_lifecycle<P: Provider>(
    provider_id: Seq<char>,
    before: P,
    waiting: Pending,
    reply: Result<i64, JournalFault>,
    after: P,
    lifecycle: Step,
    step: BrokerStep,
    knob: Seq<char>,
    held: Map<Seq<char>, Seq<char>>,
    left: Map<Seq<char>, Seq<char>>,
)
    requires
        crate::control_plane::resumes(provider_id, before, waiting, reply, after, lifecycle),
        crate::broker::carries(step, lifecycle, knob, held, left),
    ensures
        step is Write <==> lifecycle is Write,
        step matches BrokerStep::Write { entry, pending } ==> (lifecycle matches Step::Write {
            entry: written,
            pending: kept,
        } && entry == written && pending.lifecycle == kept && pending.guard.knob() == knob && left == held),
        step matches BrokerStep::Write { pending, .. } ==> pending.lifecycle.request == waiting.request
            && pending.lifecycle.snapshot == waiting.snapshot,
        step is Respond ==> left == held.remove(knob),
        step matches BrokerStep::Respond(BrokerResponse::Lifecycle { .. }) <==> lifecycle matches Step::Done(Ok(_)),
        step matches BrokerStep::Respond(BrokerResponse::Lifecycle { lifecycle: report }) ==> report.verified
            && report.rolled_back && report.provider_id@ == provider_id,
{
    crate::control_laws::a_record_belongs_to_its_experiment(provider_id, before, waiting, reply, after, lifecycle);
}

} // verus!
