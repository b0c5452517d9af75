//! What the broker does with one accepted connection.
//!
//! Whoever owns the stream reads and writes it; each decision in between is made
//! here. A connection is authenticated before any request is read, and a
//! per-connection fault ends only that connection.
use vstd::prelude::*;

use crate::auth::{AuthError, PeerAuthorizer, PeerIdentity};
use crate::frame::{FrameError, StreamFault};
use crate::ipc::{BrokerErrorKind, BrokerRequest, BrokerResponse};
use crate::text::{decimal, quote};

verus! {

/// The most connections that are served at once.
pub const MAX_CONNECTIONS: usize = 32;

/// How long a connection may stall in either direction before it is closed, in
/// seconds.
pub const IDLE_SECONDS: u64 = 30;

/// How long a refused peer has to take its rejection, in seconds. It has not
/// authenticated, so it must not hold a connection for the full idle budget.
pub const REJECTION_SECONDS: u64 = 1;

/// Requests that may be queued for the one control-plane worker.
pub const REQUEST_BACKLOG: usize = 64;

/// What to do with a connection next.
#[derive(Debug)]
pub enum ConnectionStep {
    /// Read the next frame.
    Read,
    /// Decode this frame body as a request.
    Decode(Vec<u8>),
    /// Hand this request to the broker and write its response.
    Dispatch(BrokerRequest),
    /// Write this response and read on.
    Reply(BrokerResponse),
    /// Write this response and close the connection.
    ReplyAndClose(BrokerResponse),
    /// Write this rejection within [`REJECTION_SECONDS`] and close the
    /// connection; the reason is for the broker's own log.
    Refuse {
        /// What the peer is told.
        response: BrokerResponse,
        /// Why it was refused.
        reason: AuthError,
    },
    /// Close the connection.
    Close,
    /// Close the connection and log this fault.
    Fail(FrameError),
}

/// Decides whether a connected peer is served. A peer that is refused is told
/// only that it is not authorized.
pub fn greet<A: PeerAuthorizer>(authorizer: &A, peer: &PeerIdentity) -> (step: ConnectionStep)
    ensures
        exists|outcome: Result<(), AuthError>| #[trigger]
            authorizer.may_authorize(*peer, outcome) && match outcome {
                Ok(_) => step == ConnectionStep::Read,
                Err(error) => {
                    &&& step matches ConnectionStep::Refuse { response, reason }
                    &&& reason == error
                    &&& crate::ipc::refuses(
                        response,
                        BrokerErrorKind::Unauthenticated,
                        "peer is not authorized"@,
                    )
                },
            },
{
    match authorizer.authorize(peer) {
        Ok(()) => ConnectionStep::Read,
        Err(reason) => ConnectionStep::Refuse {
            response: BrokerResponse::error(BrokerErrorKind::Unauthenticated, "peer is not authorized".to_owned()),
            reason,
        },
    }
}

/// What becomes of a frame that was read; `None` is a clean disconnect.
pub open spec fn answers_frame(read: Result<Option<Vec<u8>>, FrameError>, step: ConnectionStep) -> bool {
    match read {
        Ok(Some(body)) => step == ConnectionStep::Decode(body),
        Ok(None) => step == ConnectionStep::Close,
        Err(FrameError::TooLarge { length }) => {
            &&& step matches ConnectionStep::ReplyAndClose(response)
            &&& crate::ipc::refuses(
                response,
                BrokerErrorKind::Malformed,
                "frame length "@ + crate::text::decimal_digits(length as nat) + " exceeds the maximum"@,
            )
        },
        Err(FrameError::Io(StreamFault::Empty)) => {
            &&& step matches ConnectionStep::Reply(response)
            &&& crate::ipc::refuses(response, BrokerErrorKind::Malformed, "empty frame"@)
        },
        Err(error) => step == ConnectionStep::Fail(error),
    }
}

/// Decides what becomes of a frame that was read; `None` is a clean disconnect.
///
/// A frame that cannot be decoded is answered rather than dropped, and where the
/// stream is still at a frame boundary the connection is kept.
pub fn on_frame(read: Result<Option<Vec<u8>>, FrameError>) -> (step: ConnectionStep)
    ensures
        answers_frame(read, step),
{
    match read {
        Ok(Some(body)) => ConnectionStep::Decode(body),
        Ok(None) => ConnectionStep::Close,
        Err(FrameError::TooLarge { length }) => ConnectionStep::ReplyAndClose(
            BrokerResponse::error(
                BrokerErrorKind::Malformed,
                "frame length ".to_owned().concat(decimal(length).as_str()).concat(" exceeds the maximum"),
            ),
        ),
        Err(FrameError::Io(StreamFault::Empty)) => ConnectionStep::Reply(
            BrokerResponse::error(BrokerErrorKind::Malformed, "empty frame".to_owned()),
        ),
        Err(error) => ConnectionStep::Fail(error),
    }
}

/// Decides what becomes of a decoded request, or of the words in which decoding
/// failed; those may hold text of the client's, so they are cut short.
pub fn on_decoded(decoded: Result<BrokerRequest, String>) -> (step: ConnectionStep)
    ensures
        match decoded {
            Ok(request) => step == ConnectionStep::Dispatch(request),
            Err(why) => {
                &&& step matches ConnectionStep::Reply(response)
                &&& crate::ipc::refuses(
                    response,
                    BrokerErrorKind::Malformed,
                    "invalid request: "@ + crate::text::quoted(why@),
                )
            },
        },
{
    match decoded {
        Ok(request) => ConnectionStep::Dispatch(request),
        Err(why) => ConnectionStep::Reply(
            BrokerResponse::error(
                BrokerErrorKind::Malformed,
                "invalid request: ".to_owned().concat(quote(why.as_str()).as_str()),
            ),
        ),
    }
}

/// How the one control-plane worker was lost.
#[derive(Clone, Copy, Debug, PartialEq, Eq, Structural)]
pub enum WorkerLoss {
    /// It had stopped before the request reached it.
    Stopped,
    /// It stopped while the request was with it.
    Dropped,
}

/// The answer to a request that the worker could not answer.
pub fn on_worker_lost(loss: WorkerLoss) -> (response: BrokerResponse)
    ensures
        crate::ipc::refuses(
            response,
            BrokerErrorKind::Internal,
            match loss {
                WorkerLoss::Stopped => "broker worker has stopped"@,
                WorkerLoss::Dropped => "broker worker dropped the request"@,
            },
        ),
{
    match loss {
        WorkerLoss::Stopped => BrokerResponse::error(BrokerErrorKind::Internal, "broker worker has stopped".to_owned()),
        WorkerLoss::Dropped => BrokerResponse::error(
            BrokerErrorKind::Internal,
            "broker worker dropped the request".to_owned(),
        ),
    }
}

/// What happened while the broker waited for the next connection.
#[derive(Clone, Copy, Debug, PartialEq, Eq, Structural)]
pub enum ServeEvent {
    /// The one control-plane worker is gone.
    WorkerLost,
    /// A connection could not be accepted.
    AcceptFailed,
    /// A connection was accepted.
    Accepted,
}

/// What the broker does next.
#[derive(Clone, Copy, Debug, PartialEq, Eq, Structural)]
pub enum ServeStep {
    /// Stop serving, and fail.
    Stop,
    /// Wait for the next connection.
    Accept,
    /// Serve the connection on its own, and wait for the next.
    Serve,
}

/// The step that follows an event.
pub open spec fn served(event: ServeEvent) -> ServeStep {
    match event {
        ServeEvent::WorkerLost => ServeStep::Stop,
        ServeEvent::AcceptFailed => ServeStep::Accept,
        ServeEvent::Accepted => ServeStep::Serve,
    }
}

/// Decides how serving goes on. Losing the worker ends it, since provider state
/// may be left applied; a failure to accept does not.
pub fn on_serve(event: ServeEvent) -> (step: ServeStep)
    ensures
        step == served(event),
{
    match event {
        ServeEvent::WorkerLost => ServeStep::Stop,
        ServeEvent::AcceptFailed => ServeStep::Accept,
        ServeEvent::Accepted => ServeStep::Serve,
    }
}

/// A failure while talking to the broker.
#[derive(Clone, Debug)]
pub enum ClientError {
    /// A frame could not be read or written.
    Frame(FrameError),
    /// The broker closed the connection before answering.
    Closed,
}

/// Decides what a client makes of the frame that answers its request.
pub fn on_response(read: Result<Option<Vec<u8>>, FrameError>) -> (body: Result<Vec<u8>, ClientError>)
    ensures
        body == match read {
            Ok(Some(bytes)) => Ok::<Vec<u8>, ClientError>(bytes),
            Ok(None) => Err::<Vec<u8>, ClientError>(ClientError::Closed),
            Err(error) => Err::<Vec<u8>, ClientError>(ClientError::Frame(error)),
        },
{
    match read {
        Ok(Some(bytes)) => Ok(bytes),
        Ok(None) => Err(ClientError::Closed),
        Err(error) => Err(ClientError::Frame(error)),
    }
}

/// No request of a foreign peer is ever read: under the same-uid rule a peer of
/// another uid is refused, and one of the same uid is served.
pub proof fn a_foreign_peer_is_refused(
    authorizer: crate::auth::SameUidAuthorizer,
    peer: PeerIdentity,
    outcome: Result<(), AuthError>,
)
    requires
        authorizer.may_authorize(peer, outcome),
    ensures
        outcome is Ok <==> peer.uid == authorizer.trusted(),
{
}

/// An empty frame leaves the connection open; only a disconnect, an over-long
/// frame or a broken stream closes it.
pub proof fn an_empty_frame_keeps_the_connection(read: Result<Option<Vec<u8>>, FrameError>, step: ConnectionStep)
    requires
        answers_frame(read, step),
    ensures
        read == Err::<Option<Vec<u8>>, FrameError>(FrameError::Io(StreamFault::Empty)) ==> step is Reply,
        (step is Close || step is ReplyAndClose || step is Fail) <==> !(read matches Ok(Some(_)) || read == Err::<
            Option<Vec<u8>>,
            FrameError,
        >(FrameError::Io(StreamFault::Empty))),
{
}

/// Serving stops for the loss of the worker and for nothing else.
pub proof fn only_a_lost_worker_stops_serving(event: ServeEvent)
    ensures
        served(event) == ServeStep::Stop <==> event == ServeEvent::WorkerLost,
        served(event) == ServeStep::Serve <==> event == ServeEvent::Accepted,
{
}

} // verus!
