//! How a broker takes over the path of its Unix domain socket.
//!
//! Only a stale socket is replaced. Whoever owns the file system performs each
//! [`BindStep`] and reports what it came to.
use vstd::prelude::*;

use crate::auth::PeerIdentity;

verus! {

/// An accepted local connection together with its resolved peer identity.
#[derive(Debug)]
pub struct Accepted<S> {
    /// The bidirectional byte stream for this connection.
    pub stream: S,
    /// The peer identity the transport resolved at accept time.
    pub peer: PeerIdentity,
}

/// Which socket file a bound transport is responsible for unlinking.
///
/// A path is not an identity: another instance may have replaced the entry since
/// the bind. The device and inode pin the entry that was created.
#[derive(Clone, Copy, Debug, PartialEq, Eq, Structural)]
pub struct SocketIdentity {
    /// Device that holds the entry.
    pub dev: u64,
    /// Inode of the entry.
    pub ino: u64,
}

/// What stands at the path, without following a symbolic link.
#[derive(Clone, Debug)]
pub enum Entry {
    /// Nothing.
    Absent,
    /// A socket.
    Socket,
    /// Anything else.
    Other,
    /// It could not be told, in these words.
    Unknown(String),
}

/// What became of connecting to the socket at the path.
#[derive(Clone, Debug)]
pub enum Probe {
    /// Something answered.
    Connected,
    /// The connection was refused.
    Refused,
    /// The entry was gone.
    Vanished,
    /// It failed otherwise, in these words.
    Failed(String),
}

/// What became of removing the stale entry.
#[derive(Clone, Debug)]
pub enum Removal {
    /// It was removed.
    Removed,
    /// It was gone already.
    Vanished,
    /// It failed, in these words.
    Failed(String),
}

/// What became of the bind so far.
#[derive(Clone, Debug)]
pub enum BindEvent {
    /// The path was looked at.
    Found(Entry),
    /// The socket at the path was probed.
    Probed(Probe),
    /// The stale entry was removed.
    Removed(Removal),
    /// The socket was bound and its entry looked at again: it is this socket, or
    /// no socket any more.
    Bound(Option<SocketIdentity>),
}

/// Why a path cannot be bound.
#[derive(Clone, Debug)]
pub enum BindError {
    /// A running broker serves the socket at the path.
    AlreadyServed,
    /// Something that is not a socket stands at the path.
    NotASocket,
    /// The entry was replaced by something that is not a socket.
    NoLongerASocket,
    /// The operating system refused, in these words.
    System(String),
}

/// What the bind does next.
#[derive(Clone, Debug)]
pub enum BindStep {
    /// Connect to the socket at the path.
    Probe,
    /// Remove the stale entry.
    Remove,
    /// Bind the socket and look at its entry.
    Bind,
    /// The socket is bound as this entry.
    Ready(SocketIdentity),
    /// The path cannot be bound; what stands there is left alone.
    Refuse(BindError),
    /// The entry just bound is not a socket; remove it and give up.
    Undo(BindError),
}

/// What the bind does next after each event.
pub open spec fn follows(event: BindEvent, step: BindStep) -> bool {
    match event {
        BindEvent::Found(Entry::Absent) => step == BindStep::Bind,
        BindEvent::Found(Entry::Socket) => step == BindStep::Probe,
        BindEvent::Found(Entry::Other) => step == BindStep::Refuse(BindError::NotASocket),
        BindEvent::Found(Entry::Unknown(why)) => step == BindStep::Refuse(BindError::System(why)),
        BindEvent::Probed(Probe::Connected) => step == BindStep::Refuse(BindError::AlreadyServed),
        BindEvent::Probed(Probe::Refused) => step == BindStep::Remove,
        BindEvent::Probed(Probe::Vanished) => step == BindStep::Remove,
        BindEvent::Probed(Probe::Failed(why)) => step == BindStep::Refuse(BindError::System(why)),
        BindEvent::Removed(Removal::Removed) => step == BindStep::Bind,
        BindEvent::Removed(Removal::Vanished) => step == BindStep::Bind,
        BindEvent::Removed(Removal::Failed(why)) => step == BindStep::Refuse(BindError::System(why)),
        BindEvent::Bound(Some(identity)) => step == BindStep::Ready(identity),
        BindEvent::Bound(None) => step == BindStep::Undo(BindError::NoLongerASocket),
    }
}

/// Decides what the bind does next.
pub fn bind(event: BindEvent) -> (step: BindStep)
    ensures
        follows(event, step),
{
    match event {
        BindEvent::Found(entry) => match entry {
            Entry::Absent => BindStep::Bind,
            Entry::Socket => BindStep::Probe,
            Entry::Other => BindStep::Refuse(BindError::NotASocket),
            Entry::Unknown(why) => BindStep::Refuse(BindError::System(why)),
        },
        BindEvent::Probed(probe) => match probe {
            Probe::Connected => BindStep::Refuse(BindError::AlreadyServed),
            Probe::Refused => BindStep::Remove,
            Probe::Vanished => BindStep::Remove,
            Probe::Failed(why) => BindStep::Refuse(BindError::System(why)),
        },
        BindEvent::Removed(removal) => match removal {
            Removal::Removed => BindStep::Bind,
            Removal::Vanished => BindStep::Bind,
            Removal::Failed(why) => BindStep::Refuse(BindError::System(why)),
        },
        BindEvent::Bound(identity) => match identity {
            Some(identity) => BindStep::Ready(identity),
            None => BindStep::Undo(BindError::NoLongerASocket),
        },
    }
}

impl BindError {
    /// The sentence that describes why the path shown cannot be bound.
    pub fn message(&self, path: &str) -> (text: String)
        ensures
            text@ == match self {
                BindError::AlreadyServed => path@ + " is already served by a running broker"@,
                BindError::NotASocket => path@ + " exists and is not a socket"@,
                BindError::NoLongerASocket => path@ + " is no longer a socket"@,
                BindError::System(why) => why@,
            },
    {
        match self {
            BindError::AlreadyServed => path.to_owned().concat(" is already served by a running broker"),
            BindError::NotASocket => path.to_owned().concat(" exists and is not a socket"),
            BindError::NoLongerASocket => path.to_owned().concat(" is no longer a socket"),
            BindError::System(why) => why.clone(),
        }
    }
}

/// Decides whether a transport that is dropped unlinks the entry at its path:
/// only where that is still the one it bound itself.
pub fn unlinks(bound: SocketIdentity, found: Option<SocketIdentity>) -> (yes: bool)
    ensures
        yes == (found == Some(bound)),
{
    match found {
        Some(identity) => identity.dev == bound.dev && identity.ino == bound.ino,
        None => false,
    }
}

/// The events of a bind so far, each following from the step before it.
pub open spec fn bind_run(events: Seq<BindEvent>) -> bool {
    &&& events.len() > 0
    &&& events[0] is Found
    &&& forall|i: int, j: int| #![trigger events[i], events[j]]
        0 <= i && j == i + 1 && j < events.len() ==> exists|step: BindStep| #[trigger]
            follows(events[i], step) && answers(step, events[j])
}

/// Whether the event reports what became of the step.
pub open spec fn answers(step: BindStep, event: BindEvent) -> bool {
    match step {
        BindStep::Probe => event is Probed,
        BindStep::Remove => event is Removed,
        BindStep::Bind => event is Bound,
        _ => false,
    }
}

/// An entry is removed only where it was found to be a socket that nothing
/// answers on: an unrelated file and a live endpoint are both left alone.
pub proof fn only_a_stale_socket_is_removed(events: Seq<BindEvent>, at: int)
    requires
        bind_run(events),
        0 <= at < events.len(),
        events[at] is Removed,
    ensures
        at == 2,
        events[0] == BindEvent::Found(Entry::Socket),
        events[1] == BindEvent::Probed(Probe::Refused) || events[1] == BindEvent::Probed(Probe::Vanished),
{
    assert(at >= 1);
    let removed = choose|step: BindStep| #[trigger] follows(events[at - 1], step) && answers(step, events[at]);
    assert(follows(events[at - 1], removed) && answers(removed, events[at]));
    assert(events[at - 1] is Probed);
    assert(at >= 2);
    let probed = choose|step: BindStep| #[trigger] follows(events[at - 2], step) && answers(step, events[at - 1]);
    assert(follows(events[at - 2], probed) && answers(probed, events[at - 1]));
    assert(events[at - 2] == BindEvent::Found(Entry::Socket));
    if at > 2 {
        let found = choose|step: BindStep| #[trigger] follows(events[at - 3], step) && answers(step, events[at - 2]);
        assert(follows(events[at - 3], found) && answers(found, events[at - 2]));
    }
}

} // verus!
