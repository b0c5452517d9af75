//! The vocabulary of the authenticated local broker IPC boundary.
//!
//! The broker exposes exactly two operations, capability discovery and a bounded
//! provider lifecycle, and no field can carry a raw shell command, an arbitrary
//! Registry path, or a raw hardware primitive.
use vstd::prelude::*;

use crate::contracts::{ChangeRequest, ProviderManifest};

verus! {

/// The operation a client asks the privileged broker to perform.
#[derive(Clone, Copy, Debug, PartialEq, Eq, Structural)]
pub enum BrokerOp {
    /// Return the typed, policy-approved capability catalog.
    Discover,
    /// Run snapshot, preview, apply, verify, and rollback for one bounded
    /// change.
    RunLifecycle,
}

/// A request sent to the broker over the authenticated local IPC boundary.
#[derive(Debug)]
pub struct BrokerRequest {
    /// Operation the client is invoking.
    pub op: BrokerOp,
    /// Logical owner that holds the single-owner lease for a lifecycle; the
    /// broker rejects a second concurrent owner of the same knob.
    pub owner: Option<String>,
    /// Bounded change for a lifecycle; ignored by discovery.
    pub change: Option<ChangeRequest>,
}

impl BrokerRequest {
    /// Builds a capability discovery request.
    pub fn discover() -> (request: Self)
        ensures
            request == (BrokerRequest { op: BrokerOp::Discover, owner: None, change: None }),
    {
        BrokerRequest { op: BrokerOp::Discover, owner: None, change: None }
    }

    /// Builds a lifecycle request owned by `owner` for one bounded change.
    pub fn run_lifecycle(owner: String, change: ChangeRequest) -> (request: Self)
        ensures
            request == (BrokerRequest { op: BrokerOp::RunLifecycle, owner: Some(owner), change: Some(change) }),
    {
        BrokerRequest { op: BrokerOp::RunLifecycle, owner: Some(owner), change: Some(change) }
    }
}

/// Which payload a [`BrokerResponse`] carries.
#[derive(Clone, Copy, Debug, PartialEq, Eq, Structural)]
pub enum BrokerOutcome {
    /// The response carries a capability catalog.
    Capabilities,
    /// The response carries a completed lifecycle report.
    Lifecycle,
    /// The response carries a typed error.
    Error,
}

/// The auditable result of a completed provider lifecycle, mirrored onto the
/// wire so the unprivileged side never links against the control plane.
#[derive(Clone, Debug)]
pub struct LifecycleReport {
    /// Provider that owned the change.
    pub provider_id: String,
    /// Human-readable preview produced before the write.
    pub preview: String,
    /// Whether the requested value was observed after apply.
    pub verified: bool,
    /// Whether the captured baseline was restored before returning.
    pub rolled_back: bool,
}

/// A stable, machine-readable classification for a broker denial or failure.
#[derive(Clone, Copy, Debug, PartialEq, Eq, Structural)]
pub enum BrokerErrorKind {
    /// The peer failed the local IPC authentication check and was rejected
    /// before any request was processed.
    Unauthenticated,
    /// The frame or request could not be decoded into a typed request.
    Malformed,
    /// The capability id is not in the provider catalog.
    UnknownCapability,
    /// The request violated the bounded broker policy.
    PolicyDenied,
    /// Another owner already holds the requested knob.
    OwnerConflict,
    /// The provider lifecycle failed after the request was accepted.
    LifecycleFailed,
    /// The broker hit an unexpected internal fault.
    Internal,
}

/// A typed error body returned to the client.
#[derive(Clone, Debug)]
pub struct BrokerErrorBody {
    /// Stable machine-readable error classification.
    pub kind: BrokerErrorKind,
    /// Human-readable detail; never contains secrets or raw host primitives.
    pub message: String,
}

/// A response returned by the broker.
///
/// The outcome and the payload it names are one value, so an outcome without its
/// payload is not representable and no consumer has to unwrap one.
#[derive(Debug)]
pub enum BrokerResponse {
    /// The typed, policy-approved capability catalog.
    Capabilities {
        /// The catalog the broker advertises.
        capabilities: ProviderManifest,
    },
    /// A completed provider lifecycle.
    Lifecycle {
        /// The auditable result of the lifecycle.
        lifecycle: LifecycleReport,
    },
    /// A typed denial or failure.
    Error {
        /// Why the request was denied or failed.
        error: BrokerErrorBody,
    },
}

/// The response is an error of that kind in those words.
pub open spec fn refuses(response: BrokerResponse, kind: BrokerErrorKind, message: Seq<char>) -> bool {
    response matches BrokerResponse::Error { error } && error.kind == kind && error.message@ == message
}

impl BrokerResponse {
    /// Builds a capability-catalog response.
    pub fn capabilities(manifest: ProviderManifest) -> (response: Self)
        ensures
            response == (BrokerResponse::Capabilities { capabilities: manifest }),
    {
        BrokerResponse::Capabilities { capabilities: manifest }
    }

    /// Builds a completed-lifecycle response.
    pub fn lifecycle(report: LifecycleReport) -> (response: Self)
        ensures
            response == (BrokerResponse::Lifecycle { lifecycle: report }),
    {
        BrokerResponse::Lifecycle { lifecycle: report }
    }

    /// Builds a typed error response.
    pub fn error(kind: BrokerErrorKind, message: String) -> (response: Self)
        ensures
            response == (BrokerResponse::Error { error: (BrokerErrorBody { kind, message }) }),
            refuses(response, kind, message@),
    {
        BrokerResponse::Error { error: BrokerErrorBody { kind, message } }
    }

    /// Returns which payload this response carries.
    pub fn outcome(&self) -> (outcome: BrokerOutcome)
        ensures
            outcome == match self {
                BrokerResponse::Capabilities { .. } => BrokerOutcome::Capabilities,
                BrokerResponse::Lifecycle { .. } => BrokerOutcome::Lifecycle,
                BrokerResponse::Error { .. } => BrokerOutcome::Error,
            },
    {
        match self {
            BrokerResponse::Capabilities { .. } => BrokerOutcome::Capabilities,
            BrokerResponse::Lifecycle { .. } => BrokerOutcome::Lifecycle,
            BrokerResponse::Error { .. } => BrokerOutcome::Error,
        }
    }
}

} // verus!
