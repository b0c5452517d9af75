//! Provider lifecycles driven against a real `SQLite` journal.

use fpsmaxxing::contracts::{
    CapabilityDescriptor, ChangeRequest, Persistence, ProviderManifest, RequestError, RiskClass,
    StateSnapshot,
};
use fpsmaxxing::control_plane::{ControlPlane, ControlPlaneError, LifecycleResult, Step};
use fpsmaxxing::journal::{JournalEntry, JournalFault, Payload, Stage};
use fpsmaxxing::journal_scan::next_experiment_id;
use fpsmaxxing::json::Json;
use fpsmaxxing::mock::MockProvider;
use fpsmaxxing::provider::{Provider, ProviderError};
use rusqlite::Connection;

const HOST: &str = "linux";

fn value_json(value: u64) -> Json {
    Json::object().with("value", Json::Unsigned(value))
}

/// Renders a JSON value with its members in the order they were given.
fn render(json: &Json) -> String {
    match json {
        Json::Null => "null".to_owned(),
        Json::Bool(flag) => flag.to_string(),
        Json::Unsigned(number) => number.to_string(),
        Json::Negative(number) => number.to_string(),
        Json::Decimal(digits) => digits.clone(),
        Json::Text(text) => serde_json::to_string(text).expect("text should encode"),
        Json::Array(items) => {
            let items: Vec<String> = items.iter().map(render).collect();
            format!("[{}]", items.join(","))
        }
        Json::Object(members) => {
            let members: Vec<String> = members
                .iter()
                .map(|(name, value)| {
                    format!(
                        "{}:{}",
                        serde_json::to_string(name).expect("name should encode"),
                        render(value)
                    )
                })
                .collect();
            format!("{{{}}}", members.join(","))
        }
    }
}

/// A journal with the layout that the control plane's records need.
struct Journal {
    connection: Connection,
}

impl Journal {
    fn open(path: &str) -> Self {
        let connection = Connection::open(path).expect("journal should open");
        connection
            .execute_batch(
                "CREATE TABLE IF NOT EXISTS experiment_journal (
                    sequence INTEGER PRIMARY KEY,
                    experiment_id INTEGER NOT NULL,
                    recorded_at TEXT NOT NULL,
                    stage TEXT NOT NULL,
                    provider_id TEXT NOT NULL,
                    payload TEXT NOT NULL
                );",
            )
            .expect("schema should create");
        Self { connection }
    }

    fn memory() -> Self {
        Self::open(":memory:")
    }

    fn ids(&self) -> Vec<i64> {
        self.connection
            .prepare("SELECT DISTINCT experiment_id FROM experiment_journal ORDER BY experiment_id")
            .expect("query should prepare")
            .query_map([], |row| row.get(0))
            .expect("query should execute")
            .collect::<Result<Vec<i64>, _>>()
            .expect("rows should read")
    }

    fn write(&self, entry: &JournalEntry) -> Result<i64, JournalFault> {
        let id = match entry.experiment_id {
            Some(id) => id,
            None => next_experiment_id(&self.ids()).expect("an identifier should be free"),
        };
        self.connection
            .execute(
                "INSERT INTO experiment_journal (experiment_id, recorded_at, stage, provider_id, payload)
                 VALUES (?1, strftime('%Y-%m-%dT%H:%M:%fZ', 'now'), ?2, ?3, ?4)",
                (
                    id,
                    entry.stage.name(),
                    &entry.provider_id,
                    render(&entry.payload.to_json()),
                ),
            )
            .map_err(|error| JournalFault::Storage(error.to_string()))?;
        Ok(id)
    }

    fn stages(&self) -> Vec<String> {
        self.connection
            .prepare("SELECT stage FROM experiment_journal ORDER BY sequence")
            .expect("query should prepare")
            .query_map([], |row| row.get(0))
            .expect("query should execute")
            .collect::<Result<Vec<String>, _>>()
            .expect("rows should read")
    }

    fn payload(&self, stage: &str) -> String {
        self.connection
            .query_row(
                "SELECT payload FROM experiment_journal WHERE stage = ?1",
                [stage],
                |row| row.get(0),
            )
            .expect("the record should exist")
    }

    fn value(&self, stage: &str) -> serde_json::Value {
        serde_json::from_str(&self.payload(stage)).expect("payload should be JSON")
    }
}

/// Runs one lifecycle to its end, writing every record it hands out.
fn run<P: Provider>(
    plane: &mut ControlPlane<P>,
    journal: &Journal,
    request: &ChangeRequest,
) -> Result<LifecycleResult, ControlPlaneError> {
    let mut step = plane.run_lifecycle(request);
    loop {
        step = match step {
            Step::Done(outcome) => return outcome,
            Step::Write { entry, pending } => {
                let reply = journal.write(&entry);
                plane.resume(pending, reply)
            }
        };
    }
}

#[derive(Default)]
struct FakeProvider {
    value: u64,
    fail_verification: bool,
    fail_apply: bool,
    corrupt_rollback: bool,
}

impl Provider for FakeProvider {
    fn manifest(&self) -> ProviderManifest {
        ProviderManifest {
            id: "fake".to_owned(),
            protocol_version: 1,
            targets: vec![HOST.to_owned()],
            capabilities: vec![CapabilityDescriptor {
                id: "mock.value".to_owned(),
                description: "Sets an in-memory value for lifecycle tests".to_owned(),
                risk: RiskClass::Reversible,
                persistence: Persistence::Leased,
                input_schema: Json::object()
                    .with("type", Json::text("object"))
                    .with("required", Json::Array(vec![Json::text("value")])),
            }],
        }
    }

    fn snapshot(&self) -> Result<StateSnapshot, ProviderError> {
        Ok(StateSnapshot {
            provider_id: "fake".to_owned(),
            state: value_json(self.value),
        })
    }

    fn preview(&self, request: &ChangeRequest) -> Result<String, ProviderError> {
        Ok(format!(
            "set fake value to {}",
            request.parameters.u64_member("value").expect("a value")
        ))
    }

    fn apply(&mut self, request: &ChangeRequest) -> Result<(), ProviderError> {
        self.value = request
            .parameters
            .u64_member("value")
            .ok_or_else(|| ProviderError::InvalidRequest("value must be a u64".to_owned()))?;
        if self.fail_apply {
            return Err(ProviderError::Unavailable(
                "apply failed after mutating state".to_owned(),
            ));
        }
        Ok(())
    }

    fn verify(&self, request: &ChangeRequest) -> Result<bool, ProviderError> {
        Ok(!self.fail_verification
            && request.parameters.u64_member("value") == Some(self.value))
    }

    fn rollback(&mut self, snapshot: &StateSnapshot) -> Result<(), ProviderError> {
        self.value = snapshot
            .state
            .u64_member("value")
            .ok_or_else(|| ProviderError::RollbackFailed("snapshot has no value".to_owned()))?;
        if self.corrupt_rollback {
            self.value += 1;
        }
        Ok(())
    }
}

const LIFECYCLE_STAGES: [&str; 8] = [
    "snapshot",
    "preview",
    "apply-intent",
    "apply",
    "verify",
    "rollback",
    "rollback-verify",
    "completed",
];

fn request(value: u64) -> ChangeRequest {
    ChangeRequest {
        capability_id: "mock.value".to_owned(),
        parameters: value_json(value),
        lease_seconds: 30,
    }
}

fn plane_with(provider: FakeProvider) -> ControlPlane<FakeProvider> {
    ControlPlane::open(provider, HOST).expect("plane should open")
}

fn plane(fail_verification: bool) -> ControlPlane<FakeProvider> {
    plane_with(FakeProvider {
        value: 7,
        fail_verification,
        ..FakeProvider::default()
    })
}

#[test]
fn journal_proves_ordered_lifecycle_and_rollback() {
    let mut plane = plane(false);
    let journal = Journal::memory();
    let result = run(&mut plane, &journal, &request(42)).expect("lifecycle should succeed");
    assert!(result.verified && result.rolled_back);
    assert_eq!(journal.stages(), LIFECYCLE_STAGES);
}

#[test]
fn failed_verification_still_restores_the_snapshot() {
    let mut plane = plane(true);
    let journal = Journal::memory();
    let error = run(&mut plane, &journal, &request(42)).expect_err("verification should fail");
    assert!(matches!(error, ControlPlaneError::VerificationFailed));
    assert_eq!(
        journal.stages(),
        [
            "snapshot",
            "preview",
            "apply-intent",
            "apply",
            "verify",
            "rollback",
            "rollback-verify",
            "failed"
        ]
    );
    assert_eq!(journal.payload("rollback-verify"), r#"{"restored":true}"#);
    let outcome = journal.value("failed");
    assert_eq!(outcome["kind"], "verification-failed");
    assert_eq!(outcome["stage"], "verify");
    assert_eq!(plane.provider().value, 7);
}

#[test]
fn failed_apply_still_restores_the_snapshot() {
    let mut plane = plane_with(FakeProvider {
        value: 7,
        fail_apply: true,
        ..FakeProvider::default()
    });
    let journal = Journal::memory();
    let error = run(&mut plane, &journal, &request(42)).expect_err("apply should fail");
    assert!(matches!(error, ControlPlaneError::Provider(_)));
    assert_eq!(
        journal.stages(),
        [
            "snapshot",
            "preview",
            "apply-intent",
            "rollback",
            "rollback-verify",
            "failed"
        ]
    );
    let intent = journal.value("apply-intent");
    assert_eq!(intent["capability_id"], "mock.value");
    assert_eq!(intent["parameters"]["value"], 42);
    let outcome = journal.value("failed");
    assert_eq!(outcome["kind"], "provider");
    assert_eq!(outcome["stage"], "apply");
}

#[test]
fn failed_rollback_verification_reports_its_own_error_kind() {
    let mut plane = plane_with(FakeProvider {
        value: 7,
        corrupt_rollback: true,
        ..FakeProvider::default()
    });
    let journal = Journal::memory();
    let error =
        run(&mut plane, &journal, &request(42)).expect_err("rollback verification should fail");
    assert!(matches!(
        error,
        ControlPlaneError::RollbackVerificationFailed
    ));
    let outcome = journal.value("failed");
    assert_eq!(outcome["kind"], "rollback-verification-failed");
    assert_eq!(outcome["stage"], "rollback-verify");
}

#[test]
fn unjournalable_terminal_outcome_preserves_the_lifecycle_error() {
    let mut plane = plane(true);
    let journal = Journal::memory();
    journal
        .connection
        .execute_batch(
            "CREATE TRIGGER block_failed BEFORE INSERT ON experiment_journal
             WHEN NEW.stage = 'failed'
             BEGIN SELECT RAISE(ABORT, 'journal offline'); END;",
        )
        .expect("trigger should install");
    let error = run(&mut plane, &journal, &request(42)).expect_err("verification should fail");
    assert!(matches!(error, ControlPlaneError::VerificationFailed));
    assert_eq!(
        journal.stages(),
        [
            "snapshot",
            "preview",
            "apply-intent",
            "apply",
            "verify",
            "rollback",
            "rollback-verify"
        ]
    );
}

#[test]
fn shared_journal_connections_allocate_distinct_experiments() {
    let path = "file:shared_journal?mode=memory&cache=shared";
    let first_journal = Journal::open(path);
    let second_journal = Journal::open(path);
    let mut first = plane_with(FakeProvider {
        value: 7,
        ..FakeProvider::default()
    });
    let mut second = plane_with(FakeProvider {
        value: 9,
        ..FakeProvider::default()
    });
    run(&mut first, &first_journal, &request(1)).expect("first lifecycle should succeed");
    run(&mut second, &second_journal, &request(2)).expect("second lifecycle should succeed");
    assert_eq!(first_journal.ids(), [1, 2]);
}

#[test]
fn journal_correlates_stages_by_experiment_and_time() {
    let mut plane = plane(false);
    let journal = Journal::memory();
    run(&mut plane, &journal, &request(1)).expect("first lifecycle should succeed");
    run(&mut plane, &journal, &request(2)).expect("second lifecycle should succeed");
    let rows = journal
        .connection
        .prepare("SELECT experiment_id, recorded_at FROM experiment_journal ORDER BY sequence")
        .expect("query should prepare")
        .query_map([], |row| {
            Ok((row.get::<_, i64>(0)?, row.get::<_, String>(1)?))
        })
        .expect("query should execute")
        .collect::<Result<Vec<_>, _>>()
        .expect("rows should read");
    assert_eq!(rows.len(), 16);
    assert!(rows[..8].iter().all(|(experiment, _)| *experiment == 1));
    assert!(rows[8..].iter().all(|(experiment, _)| *experiment == 2));
    assert!(rows.iter().all(|(_, recorded_at)| !recorded_at.is_empty()));
}

struct ForeignProvider;

impl Provider for ForeignProvider {
    fn manifest(&self) -> ProviderManifest {
        ProviderManifest {
            id: "foreign".to_owned(),
            protocol_version: 1,
            targets: vec!["not-a-real-os".to_owned()],
            capabilities: vec![],
        }
    }

    fn snapshot(&self) -> Result<StateSnapshot, ProviderError> {
        Err(ProviderError::Unavailable("unreachable".to_owned()))
    }

    fn preview(&self, _: &ChangeRequest) -> Result<String, ProviderError> {
        Err(ProviderError::Unavailable("unreachable".to_owned()))
    }

    fn apply(&mut self, _: &ChangeRequest) -> Result<(), ProviderError> {
        Err(ProviderError::Unavailable("unreachable".to_owned()))
    }

    fn verify(&self, _: &ChangeRequest) -> Result<bool, ProviderError> {
        Err(ProviderError::Unavailable("unreachable".to_owned()))
    }

    fn rollback(&mut self, _: &StateSnapshot) -> Result<(), ProviderError> {
        Err(ProviderError::Unavailable("unreachable".to_owned()))
    }
}

#[test]
fn unknown_platform_targets_fail_closed() {
    let error = ControlPlane::open(ForeignProvider, HOST)
        .err()
        .expect("foreign targets should be rejected");
    assert!(matches!(error, ControlPlaneError::PolicyDenied(_)));
    assert_eq!(
        error.message(),
        "policy denied request: unknown platform target"
    );
}

#[test]
fn lifecycle_restores_the_baseline() {
    let mut provider = MockProvider::new(7, HOST);
    let snapshot = provider.snapshot().expect("snapshot should succeed");
    let request = request(42);
    assert!(provider.preview(&request).is_ok());
    provider.apply(&request).expect("apply should succeed");
    assert!(provider.verify(&request).expect("verify should succeed"));
    provider
        .rollback(&snapshot)
        .expect("rollback should succeed");
    assert_eq!(provider.value(), 7);
}

#[test]
fn apply_verify_and_rollback() {
    let mut provider = MockProvider::new(7, HOST);
    let snapshot = provider.snapshot().expect("snapshot should succeed");
    let request = request(42);

    provider.apply(&request).expect("apply should succeed");
    assert!(provider.verify(&request).expect("verify should succeed"));
    provider
        .rollback(&snapshot)
        .expect("rollback should succeed");
    assert_eq!(provider.value(), 7);
}

#[test]
fn lease_seconds_zero_is_rejected() {
    let request = |lease| ChangeRequest::new("mock.value".to_owned(), value_json(1), lease);
    assert!(request(1).is_ok());
    assert!(matches!(request(0), Err(RequestError::ZeroLease)));
}

#[test]
fn non_object_parameters_are_rejected_like_the_schema() {
    for parameters in [
        Json::text("value=1"),
        Json::Unsigned(1),
        Json::Array(vec![Json::Unsigned(1)]),
        Json::Null,
    ] {
        assert!(matches!(
            ChangeRequest::new("mock.value".to_owned(), parameters, 1),
            Err(RequestError::ParametersNotObject)
        ));
    }
}

#[test]
fn the_mock_provider_answers_with_its_own_words() {
    let mut provider = MockProvider::new(7, HOST);
    assert_eq!(
        provider.preview(&request(42)).expect("a preview"),
        "set mock.value from 7 to 42"
    );
    let manifest = provider.manifest();
    assert_eq!(manifest.id, "mock");
    assert_eq!(manifest.protocol_version, 1);
    assert_eq!(manifest.targets, [HOST]);
    let value_schema = Json::object()
        .with("maximum", Json::Unsigned(100))
        .with("minimum", Json::Unsigned(0))
        .with("type", Json::text("integer"));
    assert_eq!(
        manifest.capabilities[0].input_schema,
        Json::object()
            .with("properties", Json::object().with("value", value_schema))
            .with("required", Json::Array(vec![Json::text("value")]))
            .with("type", Json::text("object"))
    );

    let mut foreign = request(1);
    foreign.capability_id = "shell.exec".to_owned();
    assert!(matches!(
        provider.apply(&foreign),
        Err(ProviderError::UnsupportedCapability(id)) if id == "shell.exec"
    ));
    let mut unvalued = request(1);
    unvalued.parameters = Json::object();
    assert!(matches!(
        provider.apply(&unvalued),
        Err(ProviderError::InvalidRequest(_))
    ));
    assert!(matches!(
        provider.preview(&unvalued),
        Err(ProviderError::InvalidRequest(_))
    ));
    assert!(!provider.verify(&unvalued).expect("a probe"));
    assert!(matches!(
        provider.rollback(&StateSnapshot {
            provider_id: "mock".to_owned(),
            state: Json::Null,
        }),
        Err(ProviderError::RollbackFailed(_))
    ));
    assert_eq!(provider.value(), 7);
}

#[test]
fn a_completed_lifecycle_leaves_these_records() {
    let mut plane = ControlPlane::open(MockProvider::new(7, HOST), HOST).expect("plane");
    let journal = Journal::memory();
    let result = run(&mut plane, &journal, &request(42)).expect("lifecycle should succeed");
    assert_eq!(result.provider_id, "mock");
    assert_eq!(result.preview, "set mock.value from 7 to 42");
    assert_eq!(plane.provider().value(), 7);
    assert_eq!(
        journal.payload("snapshot"),
        r#"{"provider_id":"mock","state":{"value":7}}"#
    );
    assert_eq!(
        journal.payload("preview"),
        r#"{"description":"set mock.value from 7 to 42"}"#
    );
    assert_eq!(
        journal.payload("apply-intent"),
        r#"{"capability_id":"mock.value","parameters":{"value":42},"lease_seconds":30}"#
    );
    assert_eq!(journal.payload("apply"), r#"{"applied":true}"#);
    assert_eq!(journal.payload("verify"), r#"{"verified":true}"#);
    assert_eq!(journal.payload("rollback"), journal.payload("snapshot"));
    assert_eq!(
        journal.payload("completed"),
        r#"{"rolled_back":true,"verified":true}"#
    );
}

#[test]
fn every_policy_denial_is_told_apart() {
    let mut plane = ControlPlane::open(MockProvider::new(7, HOST), HOST).expect("plane");
    let journal = Journal::memory();
    let mut denied = |change: ChangeRequest| {
        run(&mut plane, &journal, &change)
            .expect_err("the change should be denied")
            .message()
    };
    let mut unknown = request(1);
    unknown.capability_id = "gpu.core-clock".to_owned();
    assert_eq!(denied(unknown), "unknown capability: gpu.core-clock");
    let mut long = request(1);
    long.lease_seconds = 301;
    assert_eq!(
        denied(long),
        "policy denied request: lease exceeds 300 seconds"
    );
    let mut unvalued = request(1);
    unvalued.parameters = Json::object().with("value", Json::text("1"));
    assert_eq!(
        denied(unvalued),
        "policy denied request: mock.value requires an unsigned value"
    );
    assert_eq!(
        denied(request(101)),
        "policy denied request: mock.value is bounded to 0..=100"
    );
    assert!(journal.stages().is_empty());
    let mut longest = request(100);
    longest.lease_seconds = 300;
    assert!(run(&mut plane, &journal, &longest).is_ok());
}

#[test]
fn an_irreversible_capability_is_denied() {
    struct Denied(RiskClass);
    impl Provider for Denied {
        fn manifest(&self) -> ProviderManifest {
            let mut manifest = FakeProvider::default().manifest();
            manifest.capabilities[0].risk = self.0;
            manifest
        }
        fn snapshot(&self) -> Result<StateSnapshot, ProviderError> {
            unreachable!("policy denies first")
        }
        fn preview(&self, _: &ChangeRequest) -> Result<String, ProviderError> {
            unreachable!("policy denies first")
        }
        fn apply(&mut self, _: &ChangeRequest) -> Result<(), ProviderError> {
            unreachable!("policy denies first")
        }
        fn verify(&self, _: &ChangeRequest) -> Result<bool, ProviderError> {
            unreachable!("policy denies first")
        }
        fn rollback(&mut self, _: &StateSnapshot) -> Result<(), ProviderError> {
            unreachable!("policy denies first")
        }
    }
    for risk in [
        RiskClass::ReadOnly,
        RiskClass::ApprovalRequired,
        RiskClass::Denied,
    ] {
        let mut plane = ControlPlane::open(Denied(risk), HOST).expect("plane");
        let error = run(&mut plane, &Journal::memory(), &request(1)).expect_err("denied");
        assert_eq!(
            error.message(),
            "policy denied request: only reversible mock capabilities are enabled"
        );
    }
}

#[test]
fn a_snapshot_that_cannot_be_journaled_stops_before_the_write() {
    let mut plane = plane(false);
    let step = plane.run_lifecycle(&request(42));
    let Step::Write { entry, pending } = step else {
        panic!("a lifecycle opens with its snapshot record");
    };
    assert_eq!(entry.stage, Stage::Snapshot);
    assert!(entry.experiment_id.is_none());
    assert!(matches!(&entry.payload, Payload::Snapshot(_)));
    let step = plane.resume(pending, Err(JournalFault::Storage("disk full".to_owned())));
    let Step::Done(Err(error)) = step else {
        panic!("an unjournaled experiment never starts");
    };
    assert_eq!(error.kind(), "journal");
    assert_eq!(error.message(), "disk full");
    assert_eq!(plane.provider().value, 7);
}

#[test]
fn an_unjournaled_intent_leaves_the_state_alone() {
    let mut plane = plane(false);
    let journal = Journal::memory();
    journal
        .connection
        .execute_batch(
            "CREATE TRIGGER block_intent BEFORE INSERT ON experiment_journal
             WHEN NEW.stage = 'apply-intent'
             BEGIN SELECT RAISE(ABORT, 'journal offline'); END;",
        )
        .expect("trigger should install");
    let error = run(&mut plane, &journal, &request(42)).expect_err("the intent is not journaled");
    assert!(matches!(error, ControlPlaneError::Journal(_)));
    assert_eq!(journal.stages(), ["snapshot", "preview", "failed"]);
    assert_eq!(journal.value("failed")["stage"], "apply-intent");
    assert_eq!(plane.provider().value, 7);
}

#[test]
fn a_failed_restore_keeps_the_failure_it_hides() {
    let mut plane = plane_with(FakeProvider {
        value: 7,
        fail_apply: true,
        corrupt_rollback: true,
        ..FakeProvider::default()
    });
    let journal = Journal::memory();
    let error = run(&mut plane, &journal, &request(42)).expect_err("both stages fail");
    assert!(matches!(
        error,
        ControlPlaneError::RollbackVerificationFailed
    ));
    let outcome = journal.value("failed");
    assert_eq!(outcome["stage"], "rollback-verify");
    assert_eq!(outcome["suppressed"]["kind"], "provider");
    assert_eq!(outcome["suppressed"]["stage"], "apply");
    assert_eq!(
        outcome["suppressed"]["error"],
        "provider unavailable: apply failed after mutating state"
    );
}

#[test]
fn error_kinds_and_words() {
    for (error, kind, words) in [
        (
            ControlPlaneError::VerificationFailed,
            "verification-failed",
            "verification probe failed",
        ),
        (
            ControlPlaneError::RollbackVerificationFailed,
            "rollback-verification-failed",
            "rollback verification failed",
        ),
        (
            ControlPlaneError::Serialization("bad record".to_owned()),
            "serialization",
            "bad record",
        ),
        (
            ControlPlaneError::Provider(ProviderError::UnsupportedCapability("x".to_owned())),
            "provider",
            "unsupported capability: x",
        ),
        (
            ControlPlaneError::Provider(ProviderError::RollbackFailed("x".to_owned())),
            "provider",
            "rollback failed: x",
        ),
        (
            ControlPlaneError::Provider(ProviderError::InvalidRequest("x".to_owned())),
            "provider",
            "invalid request: x",
        ),
    ] {
        assert_eq!(error.kind(), kind);
        assert_eq!(error.message(), words);
    }
}
