//! The privileged broker: the trusted side of the IPC boundary.
//!
//! The broker exposes exactly two operations, capability discovery and a bounded
//! provider lifecycle. Over the control plane it layers a capability catalog
//! check, so any out-of-catalog id is rejected before the provider is touched,
//! and single-owner-per-knob enforcement.
use vstd::prelude::*;

use crate::contracts::ManifestView;
use crate::control_plane::{
    is_advertised, ControlPlane, ControlPlaneError, LifecycleResult, Pending, Step,
};
use crate::ipc::{BrokerErrorKind, BrokerOp, BrokerRequest, BrokerResponse, LifecycleReport};
use crate::journal::{JournalEntry, JournalFault};
use crate::ownership::{OwnershipGuard, OwnershipLedger};
use crate::provider::Provider;
use crate::text::{is_blank, quote};

verus! {

/// A lifecycle under way for an owner that holds its knob.
#[derive(Debug)]
pub struct BrokerPending {
    /// The lifecycle to resume.
    pub lifecycle: Pending,
    /// The knob that is held meanwhile.
    pub guard: OwnershipGuard,
}

/// What handling a request does next.
#[derive(Debug)]
pub enum BrokerStep {
    /// Write this record and report the outcome.
    Write {
        /// The record to write.
        entry: JournalEntry,
        /// The request to resume with the outcome.
        pending: BrokerPending,
    },
    /// The request is answered.
    Respond(BrokerResponse),
}

/// The kind that a lifecycle error is reported as.
pub open spec fn kind_of(error: ControlPlaneError) -> BrokerErrorKind {
    match error {
        ControlPlaneError::UnknownCapability(_) => BrokerErrorKind::UnknownCapability,
        ControlPlaneError::PolicyDenied(_) => BrokerErrorKind::PolicyDenied,
        _ => BrokerErrorKind::LifecycleFailed,
    }
}

/// The kind that a lifecycle error is reported as.
pub fn error_kind(error: &ControlPlaneError) -> (kind: BrokerErrorKind)
    ensures
        kind == kind_of(*error),
{
    match error {
        ControlPlaneError::UnknownCapability(_) => BrokerErrorKind::UnknownCapability,
        ControlPlaneError::PolicyDenied(_) => BrokerErrorKind::PolicyDenied,
        _ => BrokerErrorKind::LifecycleFailed,
    }
}

/// The response that reports how a lifecycle ended.
pub open spec fn reports(response: BrokerResponse, outcome: Result<LifecycleResult, ControlPlaneError>) -> bool {
    match outcome {
        Ok(result) => response == (BrokerResponse::Lifecycle {
            lifecycle: (LifecycleReport {
                provider_id: result.provider_id,
                preview: result.preview,
                verified: result.verified,
                rolled_back: result.rolled_back,
            }),
        }),
        Err(error) => crate::ipc::refuses(response, kind_of(error), error.sentence()),
    }
}

/// Reports how a lifecycle ended.
fn report(outcome: Result<LifecycleResult, ControlPlaneError>) -> (response: BrokerResponse)
    ensures
        reports(response, outcome),
{
    match outcome {
        Ok(result) => BrokerResponse::lifecycle(
            LifecycleReport {
                provider_id: result.provider_id,
                preview: result.preview,
                verified: result.verified,
                rolled_back: result.rolled_back,
            },
        ),
        Err(error) => BrokerResponse::error(error_kind(&error), error.message()),
    }
}

/// The broker step that carries on a step of the lifecycle: while it is under
/// way its knob is held, and when it ends the knob is given back.
pub open spec fn carries(
    step: BrokerStep,
    lifecycle: Step,
    knob: Seq<char>,
    held: Map<Seq<char>, Seq<char>>,
    after: Map<Seq<char>, Seq<char>>,
) -> bool {
    match lifecycle {
        Step::Write { entry, pending } => {
            &&& step matches BrokerStep::Write { entry: written, pending: kept }
            &&& written == entry
            &&& kept.lifecycle == pending
            &&& kept.guard.knob() == knob
            &&& after == held
        },
        Step::Done(outcome) => {
            &&& step matches BrokerStep::Respond(response)
            &&& reports(response, outcome)
            &&& after == held.remove(knob)
        },
    }
}

/// Carries on a step of the lifecycle.
fn carry(lifecycle: Step, guard: OwnershipGuard, ledger: &mut OwnershipLedger) -> (step: BrokerStep)
    ensures
        carries(step, lifecycle, guard.knob(), old(ledger)@, final(ledger)@),
{
    match lifecycle {
        Step::Write { entry, pending } => BrokerStep::Write {
            entry,
            pending: BrokerPending { lifecycle: pending, guard },
        },
        Step::Done(outcome) => {
            ledger.release(guard);
            BrokerStep::Respond(report(outcome))
        },
    }
}

/// How a lifecycle request is handled: the checks are made in this order, and
/// the first to fail answers the request and leaves the ledger as it was.
pub open spec fn runs<P: Provider>(
    catalog: ManifestView,
    provider: P,
    request: BrokerRequest,
    before: Map<Seq<char>, Seq<char>>,
    after: Map<Seq<char>, Seq<char>>,
    step: BrokerStep,
) -> bool {
    if request.owner is None || crate::text::blank(request.owner->0@) {
        &&& after == before
        &&& step matches BrokerStep::Respond(response)
        &&& crate::ipc::refuses(
            response,
            BrokerErrorKind::Malformed,
            "run-lifecycle requires a non-empty owner"@,
        )
    } else if request.change is None {
        &&& after == before
        &&& step matches BrokerStep::Respond(response)
        &&& crate::ipc::refuses(response, BrokerErrorKind::Malformed, "run-lifecycle requires a change"@)
    } else {
        let change = request.change->0@;
        let knob = change.capability_id;
        if !crate::control_plane::advertises(catalog, knob) {
            &&& after == before
            &&& step matches BrokerStep::Respond(response)
            &&& crate::ipc::refuses(
                response,
                BrokerErrorKind::UnknownCapability,
                "capability "@ + crate::text::quoted(knob) + " is not in the catalog"@,
            )
        } else if before.contains_key(knob) {
            &&& after == before
            &&& step matches BrokerStep::Respond(response)
            &&& crate::ipc::refuses(
                response,
                BrokerErrorKind::OwnerConflict,
                "capability "@ + crate::text::quoted(knob) + " is already owned by "@ + crate::text::quoted(
                    before[knob],
                ),
            )
        } else {
            exists|lifecycle: Step| #[trigger]
                crate::control_plane::starts(catalog, provider, change, lifecycle) && carries(
                    step,
                    lifecycle,
                    knob,
                    before.insert(knob, request.owner->0@),
                    after,
                )
        }
    }
}

/// How a request is handled.
pub open spec fn handles<P: Provider>(
    catalog: ManifestView,
    provider: P,
    request: BrokerRequest,
    before: Map<Seq<char>, Seq<char>>,
    after: Map<Seq<char>, Seq<char>>,
    step: BrokerStep,
) -> bool {
    match request.op {
        BrokerOp::Discover => {
            &&& after == before
            &&& step matches BrokerStep::Respond(BrokerResponse::Capabilities { capabilities })
            &&& capabilities@ == catalog
        },
        BrokerOp::RunLifecycle => runs(catalog, provider, request, before, after, step),
    }
}

/// The request handler at the trusted end of the IPC boundary.
#[derive(Debug)]
pub struct BrokerService<P> {
    plane: ControlPlane<P>,
}

impl<P: Provider> BrokerService<P> {
    /// The control plane behind the service.
    pub closed spec fn control(&self) -> ControlPlane<P> {
        self.plane
    }

    /// Builds a broker service around an opened control plane, whose accepted
    /// manifest is the capability catalog.
    pub fn new(plane: ControlPlane<P>) -> (service: Self)
        ensures
            service.control() == plane,
    {
        BrokerService { plane }
    }

    /// Handles one decoded request.
    pub fn handle(&self, ledger: &mut OwnershipLedger, request: BrokerRequest) -> (step: BrokerStep)
        requires
            request.change matches Some(change) ==> change.leased(),
        ensures
            handles(
                self.control().accepted(),
                self.control().state(),
                request,
                old(ledger)@,
                final(ledger)@,
                step,
            ),
    {
        match request.op {
            BrokerOp::Discover => BrokerStep::Respond(
                BrokerResponse::capabilities(self.plane.capabilities().clone()),
            ),
            BrokerOp::RunLifecycle => self.run_lifecycle(ledger, request),
        }
    }

    /// Starts the lifecycle that a request asks for.
    fn run_lifecycle(&self, ledger: &mut OwnershipLedger, request: BrokerRequest) -> (step: BrokerStep)
        requires
            request.change matches Some(change) ==> change.leased(),
        ensures
            runs(
                self.control().accepted(),
                self.control().state(),
                request,
                old(ledger)@,
                final(ledger)@,
                step,
            ),
    {
        let owner = match request.owner {
            Some(owner) => owner,
            None => {
                return BrokerStep::Respond(
                    BrokerResponse::error(
                        BrokerErrorKind::Malformed,
                        "run-lifecycle requires a non-empty owner".to_owned(),
                    ),
                );
            },
        };
        if is_blank(owner.as_str()) {
            return BrokerStep::Respond(
                BrokerResponse::error(
                    BrokerErrorKind::Malformed,
                    "run-lifecycle requires a non-empty owner".to_owned(),
                ),
            );
        }
        let change = match request.change {
            Some(change) => change,
            None => {
                return BrokerStep::Respond(
                    BrokerResponse::error(BrokerErrorKind::Malformed, "run-lifecycle requires a change".to_owned()),
                );
            },
        };
        let knob = change.capability_id.as_str();
        if !is_advertised(self.plane.capabilities(), knob) {
            return BrokerStep::Respond(
                BrokerResponse::error(
                    BrokerErrorKind::UnknownCapability,
                    "capability ".to_owned().concat(quote(knob).as_str()).concat(" is not in the catalog"),
                ),
            );
        }
        match ledger.acquire(knob, owner.as_str()) {
            Err(conflict) => BrokerStep::Respond(
                BrokerResponse::error(
                    BrokerErrorKind::OwnerConflict,
                    "capability ".to_owned()
                        .concat(quote(conflict.capability_id.as_str()).as_str())
                        .concat(" is already owned by ")
                        .concat(quote(conflict.held_by.as_str()).as_str()),
                ),
            ),
            Ok(guard) => {
                let lifecycle = self.plane.run_lifecycle(&change);
                carry(lifecycle, guard, ledger)
            },
        }
    }

    /// Goes on with a request once the journal has answered.
    pub fn resume(
        &mut self,
        ledger: &mut OwnershipLedger,
        waiting: BrokerPending,
        reply: Result<i64, JournalFault>,
    ) -> (step: BrokerStep)
        ensures
            final(self).control().accepted() == old(self).control().accepted(),
            exists|lifecycle: Step| #[trigger]
                crate::control_plane::resumes(
                    old(self).control().accepted().id,
                    old(self).control().state(),
                    waiting.lifecycle,
                    reply,
                    final(self).control().state(),
                    lifecycle,
                ) && carries(step, lifecycle, waiting.guard.knob(), old(ledger)@, final(ledger)@),
    {
        let BrokerPending { lifecycle, guard } = waiting;
        let next = self.plane.resume(lifecycle, reply);
        carry(next, guard, ledger)
    }
}

/// However long the texts that a client chose, a refusal that quotes them is
/// short.
pub proof fn a_refusal_that_quotes_a_client_is_short<P: Provider>(
    catalog: ManifestView,
    provider: P,
    request: BrokerRequest,
    before: Map<Seq<char>, Seq<char>>,
    after: Map<Seq<char>, Seq<char>>,
    step: BrokerStep,
)
    requires
        runs(catalog, provider, request, before, after, step),
        step matches BrokerStep::Respond(BrokerResponse::Error { error }) && (error.kind == BrokerErrorKind::Malformed
            || error.kind == BrokerErrorKind::UnknownCapability || error.kind == BrokerErrorKind::OwnerConflict),
    ensures
        step matches BrokerStep::Respond(BrokerResponse::Error { error }) && error.message@.len() <= 400,
{
    reveal_strlit("run-lifecycle requires a non-empty owner");
    reveal_strlit("run-lifecycle requires a change");
    reveal_strlit("capability ");
    reveal_strlit(" is not in the catalog");
    reveal_strlit(" is already owned by ");
    if request.change is Some {
        let knob = request.change->0@.capability_id;
        crate::text::a_quotation_is_short(knob);
        crate::control_plane::an_advertised_capability_is_found(catalog, knob);
        if before.contains_key(knob) {
            crate::text::a_quotation_is_short(before[knob]);
        }
    }
}

/// A request that is refused, for whatever reason, leaves every knob with the
/// owner it had.
pub proof fn a_refused_request_takes_no_knob<P: Provider>(
    catalog: ManifestView,
    provider: P,
    request: BrokerRequest,
    before: Map<Seq<char>, Seq<char>>,
    after: Map<Seq<char>, Seq<char>>,
    step: BrokerStep,
)
    requires
        handles(catalog, provider, request, before, after, step),
        step is Respond,
    ensures
        after == before,
{
    if request.op == BrokerOp::RunLifecycle && request.owner is Some && request.change is Some {
        let knob = request.change->0@.capability_id;
        if !before.contains_key(knob) {
            crate::ownership::releasing_undoes_acquiring(before, knob, request.owner->0@);
        }
    }
}

/// A second owner of a held knob is refused before the provider is touched, and
/// so is a capability outside the catalog.
pub proof fn a_held_or_unknown_knob_is_refused<P: Provider>(
    catalog: ManifestView,
    provider: P,
    request: BrokerRequest,
    before: Map<Seq<char>, Seq<char>>,
    after: Map<Seq<char>, Seq<char>>,
    step: BrokerStep,
)
    requires
        handles(catalog, provider, request, before, after, step),
        request.op == BrokerOp::RunLifecycle,
        request.owner is Some,
        !crate::text::blank(request.owner->0@),
        request.change is Some,
        before.contains_key(request.change->0@.capability_id) || !crate::control_plane::advertises(
            catalog,
            request.change->0@.capability_id,
        ),
    ensures
        step matches BrokerStep::Respond(BrokerResponse::Error { error }) && error.kind == (
        if crate::control_plane::advertises(catalog, request.change->0@.capability_id) {
            BrokerErrorKind::OwnerConflict
        } else {
            BrokerErrorKind::UnknownCapability
        }),
{
}

/// A knob is held for as long as its lifecycle is under way and free once that
/// has ended, and no other knob changes hands meanwhile.
pub proof fn a_knob_is_held_while_its_lifecycle_runs(
    step: BrokerStep,
    lifecycle: Step,
    knob: Seq<char>,
    held: Map<Seq<char>, Seq<char>>,
    after: Map<Seq<char>, Seq<char>>,
    other: Seq<char>,
)
    requires
        carries(step, lifecycle, knob, held, after),
        held.contains_key(knob),
    ensures
        step is Write ==> after.contains_key(knob) && after[knob] == held[knob],
        step is Respond ==> !after.contains_key(knob),
        other != knob ==> after.contains_key(other) == held.contains_key(other),
        other != knob && held.contains_key(other) ==> after[other] == held[other],
{
}

} // verus!
