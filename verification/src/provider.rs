//! The lifecycle contract that every provider implements.
use vstd::prelude::*;

use crate::contracts::{ChangeRequest, ProviderManifest, StateSnapshot};

verus! {

/// Errors returned through the provider boundary.
#[derive(Clone, Debug)]
pub enum ProviderError {
    /// The requested capability is not implemented by this provider.
    UnsupportedCapability(String),
    /// The provider rejected invalid or unsafe input.
    InvalidRequest(String),
    /// The external service or vendor API is unavailable.
    Unavailable(String),
    /// Rollback could not restore the captured state.
    RollbackFailed(String),
}

impl ProviderError {
    /// The sentence that describes the error.
    pub open spec fn sentence(&self) -> Seq<char> {
        match self {
            ProviderError::UnsupportedCapability(what) => "unsupported capability: "@ + what@,
            ProviderError::InvalidRequest(what) => "invalid request: "@ + what@,
            ProviderError::Unavailable(what) => "provider unavailable: "@ + what@,
            ProviderError::RollbackFailed(what) => "rollback failed: "@ + what@,
        }
    }

    /// The sentence that describes the error.
    pub fn message(&self) -> (text: String)
        ensures
            text@ == self.sentence(),
    {
        match self {
            ProviderError::UnsupportedCapability(what) => "unsupported capability: ".to_owned().concat(what.as_str()),
            ProviderError::InvalidRequest(what) => "invalid request: ".to_owned().concat(what.as_str()),
            ProviderError::Unavailable(what) => "provider unavailable: ".to_owned().concat(what.as_str()),
            ProviderError::RollbackFailed(what) => "rollback failed: ".to_owned().concat(what.as_str()),
        }
    }
}

/// Contract implemented by every provider sidecar.
///
/// Each call is tied to a relation of the implementation's own choosing, which
/// says what the call may answer and what it may do to the provider. Nothing is
/// assumed of the relations: a lifecycle is stated over them, and so is about
/// exactly the calls that it makes. An implementation that leaves a relation out
/// promises nothing of the call.
pub trait Provider: Sized {
    /// Whether the provider describes itself by this manifest.
    open spec fn may_describe(&self, manifest: ProviderManifest) -> bool {
        true
    }

    /// Whether a capture may have this outcome.
    open spec fn may_snapshot(&self, outcome: Result<StateSnapshot, ProviderError>) -> bool {
        true
    }

    /// Whether a preview of the request may have this outcome.
    open spec fn may_preview(&self, request: ChangeRequest, outcome: Result<String, ProviderError>) -> bool {
        true
    }

    /// Whether applying the request may take the provider from this state to
    /// `after` with this outcome.
    open spec fn may_apply(&self, request: ChangeRequest, after: Self, outcome: Result<(), ProviderError>) -> bool {
        true
    }

    /// Whether verifying the request may have this outcome.
    open spec fn may_verify(&self, request: ChangeRequest, outcome: Result<bool, ProviderError>) -> bool {
        true
    }

    /// Whether rolling back to the snapshot may take the provider from this
    /// state to `after` with this outcome.
    open spec fn may_rollback(&self, snapshot: StateSnapshot, after: Self, outcome: Result<(), ProviderError>) -> bool {
        true
    }

    /// Returns provider identity, supported targets, and capabilities.
    fn manifest(&self) -> (manifest: ProviderManifest)
        ensures
            self.may_describe(manifest),
    ;

    /// Captures the exact state needed to reverse the next operation.
    fn snapshot(&self) -> (outcome: Result<StateSnapshot, ProviderError>)
        ensures
            self.may_snapshot(outcome),
    ;

    /// Describes the effect of a request without performing it.
    fn preview(&self, request: &ChangeRequest) -> (outcome: Result<String, ProviderError>)
        ensures
            self.may_preview(*request, outcome),
    ;

    /// Applies a previously policy-validated request.
    fn apply(&mut self, request: &ChangeRequest) -> (outcome: Result<(), ProviderError>)
        ensures
            old(self).may_apply(*request, *final(self), outcome),
    ;

    /// Confirms that the requested effect is observable.
    fn verify(&self, request: &ChangeRequest) -> (outcome: Result<bool, ProviderError>)
        ensures
            self.may_verify(*request, outcome),
    ;

    /// Restores a state captured by [`Provider::snapshot`].
    fn rollback(&mut self, snapshot: &StateSnapshot) -> (outcome: Result<(), ProviderError>)
        ensures
            old(self).may_rollback(*snapshot, *final(self), outcome),
    ;
}

} // verus!
