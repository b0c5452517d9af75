//! The request handler at the trusted end of the IPC boundary.

use fpsmaxxing::auth::{AuthError, PeerIdentity, SameUidAuthorizer};
use fpsmaxxing::broker::{error_kind, BrokerService, BrokerStep};
use fpsmaxxing::connection::{
    greet, on_decoded, on_frame, on_response, on_serve, on_worker_lost, ClientError,
    ConnectionStep, ServeEvent, ServeStep, WorkerLoss,
};
use fpsmaxxing::contracts::{ChangeRequest, ProviderManifest};
use fpsmaxxing::control_plane::{ControlPlane, ControlPlaneError};
use fpsmaxxing::frame::{
    read_frame, write_frame, FrameError, FrameReader, ReadStep, StreamFault, MAX_FRAME_BYTES,
};
use fpsmaxxing::ipc::{BrokerErrorKind, BrokerOp, BrokerOutcome, BrokerRequest, BrokerResponse};
use fpsmaxxing::journal::{JournalFault, Stage};
use fpsmaxxing::json::Json;
use fpsmaxxing::mock::MockProvider;
use fpsmaxxing::ownership::OwnershipLedger;
use fpsmaxxing::provider::ProviderError;
use fpsmaxxing::text::MAX_QUOTED_CHARS;

const HOST: &str = "linux";

/// A broker whose journal is a list of stage names.
struct Broker {
    service: BrokerService<MockProvider>,
    ledger: OwnershipLedger,
    stages: Vec<&'static str>,
    broken: Option<Stage>,
}

impl Broker {
    fn handle(&mut self, request: BrokerRequest) -> BrokerResponse {
        let mut step = self.service.handle(&mut self.ledger, request);
        loop {
            step = match step {
                BrokerStep::Respond(response) => return response,
                BrokerStep::Write { entry, pending } => {
                    let reply = if self.broken == Some(entry.stage) {
                        Err(JournalFault::Storage("journal offline".to_owned()))
                    } else {
                        self.stages.push(entry.stage.name());
                        Ok(entry.experiment_id.unwrap_or(1))
                    };
                    self.service.resume(&mut self.ledger, pending, reply)
                }
            };
        }
    }
}

fn broker() -> Broker {
    let plane = ControlPlane::open(MockProvider::new(0, HOST), HOST).expect("plane should open");
    Broker {
        service: BrokerService::new(plane),
        ledger: OwnershipLedger::new(),
        stages: Vec::new(),
        broken: None,
    }
}

fn change(capability_id: &str, value: u64, lease: u64) -> ChangeRequest {
    ChangeRequest {
        capability_id: capability_id.to_owned(),
        parameters: Json::object().with("value", Json::Unsigned(value)),
        lease_seconds: lease,
    }
}

fn kind_of(response: &BrokerResponse) -> BrokerErrorKind {
    match response {
        BrokerResponse::Error { error } => error.kind,
        _ => panic!("response should carry an error"),
    }
}

fn words_of(response: &BrokerResponse) -> &str {
    match response {
        BrokerResponse::Error { error } => &error.message,
        _ => panic!("response should carry an error"),
    }
}

fn expect_capabilities(response: BrokerResponse) -> ProviderManifest {
    match response {
        BrokerResponse::Capabilities { capabilities } => capabilities,
        _ => panic!("expected the capability catalog"),
    }
}

#[test]
fn discover_returns_the_catalog() {
    let mut broker = broker();
    let response = broker.handle(BrokerRequest::discover());
    assert_eq!(response.outcome(), BrokerOutcome::Capabilities);
    let manifest = expect_capabilities(response);
    assert!(manifest.capabilities.iter().any(|c| c.id == "mock.value"));
    assert!(broker.stages.is_empty());
}

#[test]
fn full_lifecycle_succeeds() {
    let mut broker = broker();
    let response = broker.handle(BrokerRequest::run_lifecycle(
        "gateway".to_owned(),
        change("mock.value", 42, 30),
    ));
    assert_eq!(response.outcome(), BrokerOutcome::Lifecycle);
    let BrokerResponse::Lifecycle { lifecycle: report } = response else {
        panic!("lifecycle report should be present");
    };
    assert!(report.verified && report.rolled_back);
}

#[test]
fn out_of_catalog_capability_is_refused() {
    let mut broker = broker();
    for capability in ["shell.exec", "registry.set", "mock.unknown"] {
        let response = broker.handle(BrokerRequest::run_lifecycle(
            "gateway".to_owned(),
            change(capability, 1, 30),
        ));
        assert_eq!(
            kind_of(&response),
            BrokerErrorKind::UnknownCapability,
            "{capability} must be refused as out-of-catalog"
        );
        assert!(broker.ledger.owner_of(capability).is_none());
    }
}

#[test]
fn missing_owner_is_malformed() {
    let mut broker = broker();
    let request = BrokerRequest {
        op: BrokerOp::RunLifecycle,
        owner: None,
        change: Some(change("mock.value", 1, 30)),
    };
    assert_eq!(kind_of(&broker.handle(request)), BrokerErrorKind::Malformed);
}

#[test]
fn out_of_bounds_value_is_policy_denied() {
    let mut broker = broker();
    let response = broker.handle(BrokerRequest::run_lifecycle(
        "gateway".to_owned(),
        change("mock.value", 101, 30),
    ));
    assert_eq!(kind_of(&response), BrokerErrorKind::PolicyDenied);
}

#[test]
fn lib_second_owner_of_a_held_knob_is_refused() {
    let mut broker = broker();
    let _guard = broker
        .ledger
        .acquire("mock.value", "owner-a")
        .expect("first owner should hold the knob");
    let response = broker.handle(BrokerRequest::run_lifecycle(
        "owner-b".to_owned(),
        change("mock.value", 42, 30),
    ));
    assert_eq!(kind_of(&response), BrokerErrorKind::OwnerConflict);
}

#[test]
fn integration_second_owner_of_a_held_knob_is_refused() {
    let mut broker = broker();
    let guard = broker
        .ledger
        .acquire("mock.value", "owner-a")
        .expect("owner-a should hold the knob");
    let denied = broker.handle(BrokerRequest::run_lifecycle(
        "owner-b".to_owned(),
        change("mock.value", 42, 30),
    ));
    assert_eq!(kind_of(&denied), BrokerErrorKind::OwnerConflict);

    // Releasing the knob lets the next owner through over the same connection.
    broker.ledger.release(guard);
    let granted = broker.handle(BrokerRequest::run_lifecycle(
        "owner-b".to_owned(),
        change("mock.value", 7, 30),
    ));
    assert_eq!(granted.outcome(), BrokerOutcome::Lifecycle);
}

#[test]
fn client_runs_a_journaled_lifecycle_over_the_socket() {
    let mut broker = broker();
    let peer = PeerIdentity {
        uid: 1000,
        pid: None,
    };
    assert!(matches!(
        greet(&SameUidAuthorizer::new(1000), &peer),
        ConnectionStep::Read
    ));
    let ConnectionStep::Dispatch(discover) = on_decoded(Ok(BrokerRequest::discover())) else {
        panic!("a decoded request is dispatched");
    };
    let manifest = expect_capabilities(broker.handle(discover));
    assert!(manifest.capabilities.iter().any(|c| c.id == "mock.value"));

    let response = broker.handle(BrokerRequest::run_lifecycle(
        "gateway".to_owned(),
        change("mock.value", 42, 30),
    ));
    let BrokerResponse::Lifecycle { lifecycle } = response else {
        panic!("a completed lifecycle should answer with its report");
    };
    assert_eq!(lifecycle.provider_id, "mock");
    assert!(lifecycle.verified && lifecycle.rolled_back);
    assert_eq!(
        broker.stages,
        [
            "snapshot",
            "preview",
            "apply-intent",
            "apply",
            "verify",
            "rollback",
            "rollback-verify",
            "completed"
        ]
    );
}

#[test]
fn foreign_peer_is_refused() {
    let peer = PeerIdentity {
        uid: 1000,
        pid: Some(1),
    };
    let ConnectionStep::Refuse { response, reason } =
        greet(&SameUidAuthorizer::new(u32::MAX), &peer)
    else {
        panic!("the broker should proactively reject");
    };
    assert_eq!(kind_of(&response), BrokerErrorKind::Unauthenticated);
    assert_eq!(words_of(&response), "peer is not authorized");
    assert!(matches!(
        reason,
        AuthError::ForeignUid {
            expected: u32::MAX,
            actual: 1000
        }
    ));
}

#[test]
fn malformed_frames_are_rejected_without_crashing_the_broker() {
    let mut broker = broker();

    // Valid framing, non-JSON body: rejected, and the connection keeps serving.
    let stream = write_frame(&b"this is not json".to_vec()).expect("garbage should frame");
    let ConnectionStep::Decode(body) = on_frame(read_frame(&stream)) else {
        panic!("a whole frame is decoded");
    };
    let error = serde_json::from_slice::<serde_json::Value>(&body).expect_err("not JSON");
    let ConnectionStep::Reply(response) = on_decoded(Err(error.to_string())) else {
        panic!("a malformed body is answered, and the connection kept");
    };
    assert_eq!(kind_of(&response), BrokerErrorKind::Malformed);

    // An oversized declared length is refused without allocation.
    let stream = (MAX_FRAME_BYTES + 1).to_be_bytes().to_vec();
    let ConnectionStep::ReplyAndClose(response) = on_frame(read_frame(&stream)) else {
        panic!("an oversized frame ends the connection");
    };
    assert_eq!(kind_of(&response), BrokerErrorKind::Malformed);

    // A zero-length frame is answered and the same connection keeps serving.
    let stream = 0u32.to_be_bytes().to_vec();
    let ConnectionStep::Reply(response) = on_frame(read_frame(&stream)) else {
        panic!("an empty frame is answered, and the connection kept");
    };
    assert_eq!(kind_of(&response), BrokerErrorKind::Malformed);

    let discover = broker.handle(BrokerRequest::discover());
    assert_eq!(discover.outcome(), BrokerOutcome::Capabilities);
}

#[test]
fn a_blank_owner_or_an_absent_change_is_malformed() {
    let mut broker = broker();
    for owner in ["", "  \t\u{2003}\n"] {
        let response = broker.handle(BrokerRequest::run_lifecycle(
            owner.to_owned(),
            change("mock.value", 1, 30),
        ));
        assert_eq!(kind_of(&response), BrokerErrorKind::Malformed);
        assert_eq!(
            words_of(&response),
            "run-lifecycle requires a non-empty owner"
        );
    }
    let response = broker.handle(BrokerRequest {
        op: BrokerOp::RunLifecycle,
        owner: Some("gateway".to_owned()),
        change: None,
    });
    assert_eq!(kind_of(&response), BrokerErrorKind::Malformed);
    assert_eq!(words_of(&response), "run-lifecycle requires a change");
    assert!(broker.stages.is_empty());
}

#[test]
fn a_knob_is_free_again_after_every_lifecycle() {
    for broken in [
        None,
        Some(Stage::Snapshot),
        Some(Stage::ApplyIntent),
        Some(Stage::Rollback),
        Some(Stage::Completed),
    ] {
        let mut broker = broker();
        broker.broken = broken;
        let response = broker.handle(BrokerRequest::run_lifecycle(
            "gateway".to_owned(),
            change("mock.value", 42, 30),
        ));
        match broken {
            None => assert_eq!(response.outcome(), BrokerOutcome::Lifecycle),
            Some(_) => assert_eq!(kind_of(&response), BrokerErrorKind::LifecycleFailed),
        }
        assert!(broker.ledger.owner_of("mock.value").is_none());
    }
}

#[test]
fn a_long_capability_name_is_cut_in_the_refusal() {
    let mut broker = broker();
    let long = "x".repeat(MAX_QUOTED_CHARS + 50);
    let response = broker.handle(BrokerRequest::run_lifecycle(
        "gateway".to_owned(),
        change(&long, 1, 30),
    ));
    let words = words_of(&response);
    assert!(!words.contains(&long));
    assert!(words.contains(&"x".repeat(MAX_QUOTED_CHARS - 1)));
}

#[test]
fn lifecycle_errors_are_classified_for_the_client() {
    for (error, kind) in [
        (
            ControlPlaneError::UnknownCapability("x".to_owned()),
            BrokerErrorKind::UnknownCapability,
        ),
        (
            ControlPlaneError::PolicyDenied("x".to_owned()),
            BrokerErrorKind::PolicyDenied,
        ),
        (
            ControlPlaneError::VerificationFailed,
            BrokerErrorKind::LifecycleFailed,
        ),
        (
            ControlPlaneError::Provider(ProviderError::Unavailable("x".to_owned())),
            BrokerErrorKind::LifecycleFailed,
        ),
    ] {
        assert_eq!(error_kind(&error), kind);
    }
}

#[test]
fn a_lost_worker_is_an_internal_error() {
    assert_eq!(
        words_of(&on_worker_lost(WorkerLoss::Stopped)),
        "broker worker has stopped"
    );
    let dropped = on_worker_lost(WorkerLoss::Dropped);
    assert_eq!(kind_of(&dropped), BrokerErrorKind::Internal);
    assert_eq!(words_of(&dropped), "broker worker dropped the request");
}

#[test]
fn only_a_lost_worker_ends_serving() {
    assert_eq!(on_serve(ServeEvent::WorkerLost), ServeStep::Stop);
    assert_eq!(on_serve(ServeEvent::AcceptFailed), ServeStep::Accept);
    assert_eq!(on_serve(ServeEvent::Accepted), ServeStep::Serve);
}

#[test]
fn a_closed_stream_ends_the_exchange() {
    assert!(matches!(on_frame(Ok(None)), ConnectionStep::Close));
    assert!(matches!(
        on_frame(Err(FrameError::Io(StreamFault::TruncatedBody))),
        ConnectionStep::Fail(FrameError::Io(StreamFault::TruncatedBody))
    ));
    assert!(matches!(on_response(Ok(None)), Err(ClientError::Closed)));
    assert!(matches!(
        on_response(Err(FrameError::TooLarge { length: 9 })),
        Err(ClientError::Frame(FrameError::TooLarge { length: 9 }))
    ));
    assert_eq!(
        on_response(Ok(Some(b"{}".to_vec()))).expect("a body"),
        b"{}"
    );
}

#[test]
fn frames_round_trip() {
    let buffer = write_frame(&b"hello broker".to_vec()).expect("write should succeed");
    let body = read_frame(&buffer)
        .expect("read should succeed")
        .expect("a frame should be present");
    assert_eq!(body, b"hello broker");
}

#[test]
fn clean_eof_at_boundary_returns_none() {
    assert!(read_frame(&Vec::new())
        .expect("clean eof should not error")
        .is_none());
}

#[test]
fn oversized_declared_length_is_refused_without_allocating() {
    let mut framed = (MAX_FRAME_BYTES + 1).to_be_bytes().to_vec();
    framed.extend_from_slice(b"body");
    let error = read_frame(&framed).expect_err("oversized frame should be refused");
    assert!(matches!(error, FrameError::TooLarge { .. }));
    assert_eq!(
        error.message(),
        "frame length 1048577 exceeds the 1048576 byte maximum"
    );
}

#[test]
fn truncated_length_prefix_is_an_error() {
    let error = read_frame(&vec![0u8, 0u8]).expect_err("truncated prefix should error");
    assert!(matches!(error, FrameError::Io(_)));
    assert_eq!(error.message(), "truncated frame length prefix");
}

#[test]
fn a_frame_is_a_big_endian_length_and_its_body() {
    assert_eq!(
        write_frame(&b"abc".to_vec()).expect("a short body"),
        [0, 0, 0, 3, b'a', b'b', b'c']
    );
    let largest = vec![7u8; MAX_FRAME_BYTES as usize];
    let framed = write_frame(&largest).expect("the largest body");
    assert_eq!(read_frame(&framed).expect("read"), Some(largest.clone()));
    let mut over = largest;
    over.push(7);
    assert!(matches!(
        write_frame(&over),
        Err(FrameError::TooLarge { length: 1_048_577 })
    ));
    let truncated = read_frame(&vec![0, 0, 0, 3, b'a']).expect_err("truncated body");
    assert!(matches!(
        truncated,
        FrameError::Io(StreamFault::TruncatedBody)
    ));
    assert_eq!(truncated.message(), "early eof");
    let empty = read_frame(&vec![0, 0, 0, 0]).expect_err("empty frame");
    assert_eq!(empty.message(), "empty frame");
}

#[test]
fn a_reader_asks_for_no_more_than_its_frame() {
    let mut reader = FrameReader::new();
    let framed = write_frame(&b"hello".to_vec()).expect("frame");
    let mut at = 0;
    loop {
        match reader.step() {
            ReadStep::More(wanted) => {
                assert!(wanted > 0 && at + wanted <= framed.len());
                // Arrives one byte at a time.
                reader.feed(&framed[at..at + 1].to_vec());
                at += 1;
            }
            ReadStep::Done(body) => {
                assert_eq!(body.expect("a whole frame"), b"hello");
                break;
            }
        }
    }
    assert_eq!(at, framed.len());
    let mut cut = FrameReader::new();
    assert!(cut.end().is_ok());
    cut.feed(&vec![0u8]);
    assert!(matches!(
        cut.end(),
        Err(FrameError::Io(StreamFault::TruncatedPrefix))
    ));
}
