//! Fail-closed peer authentication for the local IPC boundary.
//!
//! The transport resolves each connection's [`PeerIdentity`]; a
//! [`PeerAuthorizer`] then decides, fail-closed, whether that peer may talk to
//! the broker.
use vstd::prelude::*;

use crate::text::decimal;

verus! {

/// The local identity of a connected peer, resolved by the transport.
#[derive(Clone, Copy, Debug, PartialEq, Eq, Structural)]
pub struct PeerIdentity {
    /// The peer's user id.
    pub uid: u32,
    /// The peer's process id when the platform reports it.
    pub pid: Option<i32>,
}

/// Why a peer was refused at the IPC boundary.
#[derive(Clone, Copy, Debug, PartialEq, Eq, Structural)]
pub enum AuthError {
    /// The peer's uid does not match the uid the broker runs as.
    ForeignUid {
        /// The uid the broker trusts.
        expected: u32,
        /// The uid the connecting peer presented.
        actual: u32,
    },
}

impl AuthError {
    /// The sentence that describes the refusal. It names both uids, so it is for
    /// the broker's own log and never for the peer.
    pub fn message(&self) -> (text: String)
        ensures
            text@ == match *self {
                AuthError::ForeignUid { expected, actual } => "peer uid "@ + crate::text::decimal_digits(actual as nat)
                    + " does not match the broker uid "@ + crate::text::decimal_digits(expected as nat),
            },
    {
        match self {
            AuthError::ForeignUid { expected, actual } => "peer uid ".to_owned()
                .concat(decimal(*actual as u64).as_str())
                .concat(" does not match the broker uid ")
                .concat(decimal(*expected as u64).as_str()),
        }
    }
}

/// Fail-closed authorization of a connected local peer.
///
/// Implementations must return [`Err`] for any peer that is not explicitly
/// permitted, so an unrecognized or spoofed peer is refused rather than served.
/// The call is tied to a relation of the implementation's own choosing, of which
/// nothing is assumed; one that is left out promises nothing.
pub trait PeerAuthorizer: Send + Sync {
    /// Whether authorizing the peer may have this outcome.
    open spec fn may_authorize(&self, peer: PeerIdentity, outcome: Result<(), AuthError>) -> bool {
        true
    }

    /// Returns `Ok(())` only for an explicitly permitted peer.
    fn authorize(&self, peer: &PeerIdentity) -> (outcome: Result<(), AuthError>)
        ensures
            self.may_authorize(*peer, outcome),
    ;
}

/// Authorizes only peers whose uid matches the broker's own uid.
#[derive(Clone, Copy, Debug)]
pub struct SameUidAuthorizer {
    expected_uid: u32,
}

/// The calling process's effective uid, by `rustix::process::geteuid`. It is a
/// fact about the process, so nothing is claimed of its value.
#[verifier::external_body]
fn effective_uid() -> u32 {
    rustix::process::geteuid().as_raw()
}

/// Whether asking for the effective uid may have this answer. It holds of every
/// answer that was given; nothing else is known of it.
pub closed spec fn may_run_as(uid: u32) -> bool {
    call_ensures(effective_uid, (), uid)
}

impl SameUidAuthorizer {
    /// The uid that is trusted.
    pub closed spec fn trusted(&self) -> u32 {
        self.expected_uid
    }

    /// Builds an authorizer that trusts exactly `expected_uid`.
    pub fn new(expected_uid: u32) -> (authorizer: Self)
        ensures
            authorizer.trusted() == expected_uid,
    {
        SameUidAuthorizer { expected_uid }
    }

    /// Builds an authorizer that trusts the calling process's own effective uid.
    ///
    /// The trust anchor is the broker's own credentials, never a by-name
    /// filesystem lookup of the socket: replacing the socket path must not
    /// redirect the ACL onto another uid. Which uid that is depends on the
    /// process, so the contract says that it is an answer that asking may have,
    /// and not which.
    pub fn for_current_process() -> (authorizer: Self)
        ensures
            may_run_as(authorizer.trusted()),
    {
        SameUidAuthorizer::new(effective_uid())
    }

    /// Returns the uid this authorizer trusts.
    pub fn expected_uid(&self) -> (uid: u32)
        ensures
            uid == self.trusted(),
    {
        self.expected_uid
    }
}

impl PeerAuthorizer for SameUidAuthorizer {
    open spec fn may_authorize(&self, peer: PeerIdentity, outcome: Result<(), AuthError>) -> bool {
        outcome == if peer.uid == self.trusted() {
            Ok::<(), AuthError>(())
        } else {
            Err::<(), AuthError>(AuthError::ForeignUid { expected: self.trusted(), actual: peer.uid })
        }
    }

    fn authorize(&self, peer: &PeerIdentity) -> (outcome: Result<(), AuthError>) {
        if peer.uid == self.expected_uid {
            Ok(())
        } else {
            Err(AuthError::ForeignUid { expected: self.expected_uid, actual: peer.uid })
        }
    }
}

} // verus!
