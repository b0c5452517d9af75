//! Restoring experiments that a crash left open.

use fpsmaxxing::contracts::{
    CapabilityDescriptor, ChangeRequest, Persistence, ProviderManifest, RiskClass, StateSnapshot,
};
use fpsmaxxing::control_plane::{ControlPlane, Step};
use fpsmaxxing::doctor::{doctor, journal_report};
use fpsmaxxing::journal::Stage;
use fpsmaxxing::journal_scan::{dangling_experiments, next_experiment_id, JournalRow};
use fpsmaxxing::json::Json;
use fpsmaxxing::mock::MockProvider;
use fpsmaxxing::provider::{Provider, ProviderError};
use fpsmaxxing::watchdog::{
    lease_expired, reclaim, Config, ReclaimPolicy, ReclaimReason, Restoration, UnclosedExperiment,
    Watchdog,
};
use rusqlite::Connection;

const HOST: &str = "linux";

const INSERT: &str =
    "INSERT INTO experiment_journal (experiment_id, recorded_at, stage, provider_id, payload)
     VALUES (?1, strftime('%Y-%m-%dT%H:%M:%fZ', 'now', ?2), ?3, ?4, ?5)";

/// A crash-leaked experiment to reconstruct in the journal: a snapshot and an
/// `apply-intent` record with no terminal outcome.
struct Leaked {
    experiment_id: i64,
    provider_id: &'static str,
    snapshot_value: u64,
    request_value: u64,
    lease_seconds: u64,
    /// `SQLite` time modifier applied to the intent timestamp.
    intent_age: &'static str,
}

fn value_json(value: u64) -> Json {
    Json::object().with("value", Json::Unsigned(value))
}

fn render(json: &Json) -> String {
    match json {
        Json::Null => "null".to_owned(),
        Json::Bool(flag) => flag.to_string(),
        Json::Unsigned(number) => number.to_string(),
        Json::Negative(number) => number.to_string(),
        Json::Decimal(digits) => digits.clone(),
        Json::Text(text) => serde_json::to_string(text).expect("text should encode"),
        Json::Array(items) => {
            let items: Vec<String> = items.iter().map(render).collect();
            format!("[{}]", items.join(","))
        }
        Json::Object(members) => {
            let members: Vec<String> = members
                .iter()
                .map(|(name, value)| {
                    format!(
                        "{}:{}",
                        serde_json::to_string(name).expect("name should encode"),
                        render(value)
                    )
                })
                .collect();
            format!("{{{}}}", members.join(","))
        }
    }
}

fn create_journal() -> Connection {
    let conn = Connection::open_in_memory().expect("journal opens");
    conn.execute_batch(
        "CREATE TABLE experiment_journal (
            sequence INTEGER PRIMARY KEY,
            experiment_id INTEGER NOT NULL,
            recorded_at TEXT NOT NULL,
            stage TEXT NOT NULL,
            provider_id TEXT NOT NULL,
            payload TEXT NOT NULL
        );",
    )
    .expect("schema creates");
    conn
}

fn insert(conn: &Connection, id: i64, age: &str, stage: &str, provider: &str, payload: &Json) {
    conn.execute(INSERT, (id, age, stage, provider, render(payload)))
        .expect("record inserts");
}

/// Reconstructs a crash-leaked experiment directly in the journal.
fn seed_leaked(conn: &Connection, leaked: &Leaked) {
    let snapshot = StateSnapshot {
        provider_id: leaked.provider_id.to_owned(),
        state: value_json(leaked.snapshot_value),
    };
    let request = ChangeRequest {
        capability_id: "mock.value".to_owned(),
        parameters: value_json(leaked.request_value),
        lease_seconds: leaked.lease_seconds,
    };
    let id = leaked.experiment_id;
    let provider = leaked.provider_id;
    insert(
        conn,
        id,
        "-1 seconds",
        "snapshot",
        provider,
        &snapshot.to_json(),
    );
    insert(
        conn,
        id,
        leaked.intent_age,
        "apply-intent",
        provider,
        &request.to_json(),
    );
}

/// Reads every row, with the age of each by the journal's own clock.
fn rows(conn: &Connection) -> Vec<JournalRow> {
    conn.prepare(
        "SELECT experiment_id, stage, provider_id, payload,
                CAST(strftime('%s', 'now') AS INTEGER)
                    - CAST(strftime('%s', recorded_at) AS INTEGER)
         FROM experiment_journal ORDER BY sequence",
    )
    .expect("query prepares")
    .query_map([], |row| {
        Ok(JournalRow {
            experiment_id: row.get(0)?,
            stage: row.get(1)?,
            provider_id: row.get(2)?,
            payload: row.get(3)?,
            age_seconds: row.get(4)?,
        })
    })
    .expect("query executes")
    .collect::<Result<Vec<_>, _>>()
    .expect("rows read")
}

fn scan<P: Provider>(watchdog: &Watchdog<P>, conn: &Connection) -> Vec<UnclosedExperiment> {
    watchdog
        .scan(&rows(conn))
        .iter()
        .map(|leaked| {
            let read = |text: &str| -> serde_json::Value {
                serde_json::from_str(text).expect("payload is JSON")
            };
            let snapshot = read(&leaked.snapshot_payload);
            let intent = read(&leaked.intent_payload);
            UnclosedExperiment::new(
                leaked,
                StateSnapshot {
                    provider_id: snapshot["provider_id"].as_str().expect("id").to_owned(),
                    state: value_json(snapshot["state"]["value"].as_u64().expect("value")),
                },
                ChangeRequest {
                    capability_id: intent["capability_id"].as_str().expect("id").to_owned(),
                    parameters: value_json(intent["parameters"]["value"].as_u64().expect("value")),
                    lease_seconds: intent["lease_seconds"].as_u64().expect("lease"),
                },
            )
        })
        .collect()
}

/// One whole pass: scan, restore, and journal what each restore came to.
fn run_pass<P: Provider>(
    watchdog: &mut Watchdog<P>,
    conn: &Connection,
    policy: ReclaimPolicy,
) -> Vec<Restoration> {
    let mut pass = reclaim(scan(watchdog, conn), policy);
    while let Some(record) = watchdog.next_restore(&mut pass) {
        for (stage, payload) in record.rows() {
            insert(
                conn,
                record.experiment_id,
                "-0 seconds",
                stage,
                &record.provider_id,
                &payload,
            );
        }
    }
    pass.restorations
}

fn stage_count(conn: &Connection, experiment_id: i64, stage: &str) -> usize {
    rows(conn)
        .iter()
        .filter(|row| row.experiment_id == experiment_id && row.stage == stage)
        .count()
}

fn terminal_count(conn: &Connection, experiment_id: i64) -> usize {
    stage_count(conn, experiment_id, "completed") + stage_count(conn, experiment_id, "failed")
}

fn payload(conn: &Connection, stage: &str) -> String {
    rows(conn)
        .into_iter()
        .find(|row| row.stage == stage)
        .expect("the record exists")
        .payload
}

#[test]
fn crash_mid_apply_restores_defaults() {
    let conn = create_journal();
    // Snapshot baseline 7, but the change pushed the value to 99 before the
    // owner died with the lease still live.
    seed_leaked(
        &conn,
        &Leaked {
            experiment_id: 1,
            provider_id: "mock",
            snapshot_value: 7,
            request_value: 99,
            lease_seconds: 300,
            intent_age: "-1 seconds",
        },
    );

    // The watchdog starts from the leaked value; recovery must return it to 7.
    let mut watchdog = Watchdog::open(MockProvider::new(99, HOST));

    let candidates = scan(&watchdog, &conn);
    assert_eq!(candidates.len(), 1);
    assert_eq!(candidates[0].experiment_id, 1);
    assert!(
        !candidates[0].lease_expired,
        "a live lease is recovered as a crash, not an expiry"
    );

    let restorations = run_pass(&mut watchdog, &conn, ReclaimPolicy::AllUnclosed);
    assert_eq!(restorations.len(), 1);
    assert!(restorations[0].restored);
    assert_eq!(restorations[0].reason, ReclaimReason::CrashRecovery);
    assert_eq!(watchdog.provider().value(), 7, "defaults are restored");
    assert_eq!(
        terminal_count(&conn, 1),
        1,
        "the restored experiment is closed with a terminal record"
    );
    assert_eq!(stage_count(&conn, 1, "watchdog-restore"), 1);
    assert_eq!(
        payload(&conn, "watchdog-restore"),
        r#"{"reason":"crash-recovery","restored":true,"snapshot":{"provider_id":"mock","state":{"value":7}}}"#
    );
    assert_eq!(
        payload(&conn, "failed"),
        r#"{"error":"watchdog restored prior state after detecting an unclosed experiment","kind":"watchdog-reclaimed","reason":"crash-recovery","stage":"watchdog"}"#
    );
}

#[test]
fn expired_lease_is_reclaimed_by_the_steady_state_poll() {
    let conn = create_journal();
    seed_leaked(
        &conn,
        &Leaked {
            experiment_id: 1,
            provider_id: "mock",
            snapshot_value: 5,
            request_value: 80,
            lease_seconds: 30,
            intent_age: "-3600 seconds",
        },
    );

    let mut watchdog = Watchdog::open(MockProvider::new(80, HOST));
    let candidates = scan(&watchdog, &conn);
    assert_eq!(candidates.len(), 1);
    assert!(candidates[0].lease_expired, "an aged lease has expired");

    let restorations = run_pass(&mut watchdog, &conn, ReclaimPolicy::ExpiredLeasesOnly);
    assert_eq!(restorations.len(), 1);
    assert!(restorations[0].restored);
    assert_eq!(restorations[0].reason, ReclaimReason::LeaseExpired);
    assert_eq!(restorations[0].lease_seconds, 30);
    assert_eq!(watchdog.provider().value(), 5);
    assert_eq!(terminal_count(&conn, 1), 1);
}

#[test]
fn expired_leases_only_leaves_live_experiments_for_their_owner() {
    let conn = create_journal();
    // Experiment 1: lease expired. Experiment 2: still inside its lease.
    seed_leaked(
        &conn,
        &Leaked {
            experiment_id: 1,
            provider_id: "mock",
            snapshot_value: 3,
            request_value: 60,
            lease_seconds: 30,
            intent_age: "-3600 seconds",
        },
    );
    seed_leaked(
        &conn,
        &Leaked {
            experiment_id: 2,
            provider_id: "mock",
            snapshot_value: 4,
            request_value: 70,
            lease_seconds: 300,
            intent_age: "-1 seconds",
        },
    );

    let mut watchdog = Watchdog::open(MockProvider::new(60, HOST));
    let restorations = run_pass(&mut watchdog, &conn, ReclaimPolicy::ExpiredLeasesOnly);

    assert_eq!(restorations.len(), 1, "only the expired lease is reclaimed");
    assert_eq!(restorations[0].experiment_id, 1);
    assert_eq!(terminal_count(&conn, 1), 1, "expired experiment is closed");
    assert_eq!(
        terminal_count(&conn, 2),
        0,
        "the live experiment is left for its owner"
    );
    assert_eq!(
        stage_count(&conn, 2, "watchdog-restore"),
        0,
        "the watchdog does not even record a restore for a live lease"
    );
}

#[test]
fn reclaim_is_idempotent_and_does_not_double_rollback() {
    let conn = create_journal();
    seed_leaked(
        &conn,
        &Leaked {
            experiment_id: 1,
            provider_id: "mock",
            snapshot_value: 7,
            request_value: 99,
            lease_seconds: 300,
            intent_age: "-1 seconds",
        },
    );

    let mut watchdog = Watchdog::open(MockProvider::new(99, HOST));
    let first = run_pass(&mut watchdog, &conn, ReclaimPolicy::AllUnclosed);
    assert_eq!(first.len(), 1);
    assert!(first[0].restored);
    assert_eq!(watchdog.provider().value(), 7);

    let second = run_pass(&mut watchdog, &conn, ReclaimPolicy::AllUnclosed);
    assert!(
        second.is_empty(),
        "a closed experiment is never reclaimed again"
    );
    assert_eq!(
        stage_count(&conn, 1, "watchdog-restore"),
        1,
        "no second restore record is written"
    );
    assert_eq!(
        terminal_count(&conn, 1),
        1,
        "no second terminal record is written"
    );
}

/// Drives a lifecycle, and stops before the record of `last` is answered.
fn drive(conn: &Connection, provider: MockProvider, value: u64, lease: u64, last: Option<Stage>) {
    let mut plane = ControlPlane::open(provider, HOST).expect("plane opens");
    let request = ChangeRequest {
        capability_id: "mock.value".to_owned(),
        parameters: value_json(value),
        lease_seconds: lease,
    };
    let mut step = plane.run_lifecycle(&request);
    loop {
        step = match step {
            Step::Done(outcome) => {
                let result = outcome.expect("lifecycle succeeds");
                assert!(result.verified && result.rolled_back);
                return;
            }
            Step::Write { entry, pending } => {
                let ids: Vec<i64> = rows(conn).iter().map(|row| row.experiment_id).collect();
                let id = entry
                    .experiment_id
                    .unwrap_or_else(|| next_experiment_id(&ids).expect("a free id"));
                insert(
                    conn,
                    id,
                    "-0 seconds",
                    entry.stage.name(),
                    &entry.provider_id,
                    &entry.payload.to_json(),
                );
                if last == Some(entry.stage) {
                    return;
                }
                plane.resume(pending, Ok(id))
            }
        };
    }
}

#[test]
fn closed_experiments_are_never_touched() {
    let conn = create_journal();
    // A full, real control-plane lifecycle that completes cleanly.
    drive(&conn, MockProvider::new(7, HOST), 42, 30, None);

    let mut watchdog = Watchdog::open(MockProvider::new(7, HOST));
    assert!(
        scan(&watchdog, &conn).is_empty(),
        "a completed experiment is not a candidate"
    );
    assert!(
        run_pass(&mut watchdog, &conn, ReclaimPolicy::AllUnclosed).is_empty(),
        "the watchdog does nothing to a cleanly closed experiment"
    );
}

#[test]
fn gateway_termination_mid_apply_is_recovered() {
    let conn = create_journal();
    // The process dies after the write-ahead apply-intent is committed but
    // before any terminal record.
    drive(
        &conn,
        MockProvider::new(7, HOST),
        99,
        120,
        Some(Stage::ApplyIntent),
    );
    assert_eq!(
        terminal_count(&conn, 1),
        0,
        "termination left the experiment unclosed"
    );

    // A fresh watchdog, with no surviving gateway state, recovers the leak.
    let mut watchdog = Watchdog::open(MockProvider::new(99, HOST));
    let restorations = run_pass(&mut watchdog, &conn, ReclaimPolicy::AllUnclosed);
    assert_eq!(restorations.len(), 1);
    assert!(restorations[0].restored);
    assert_eq!(
        watchdog.provider().value(),
        7,
        "state is restored after gateway termination"
    );
    assert_eq!(terminal_count(&conn, 1), 1);
}

#[test]
fn other_providers_experiments_are_ignored() {
    let conn = create_journal();
    seed_leaked(
        &conn,
        &Leaked {
            experiment_id: 1,
            provider_id: "other-provider",
            snapshot_value: 1,
            request_value: 50,
            lease_seconds: 30,
            intent_age: "-3600 seconds",
        },
    );

    let mut watchdog = Watchdog::open(MockProvider::new(50, HOST));
    assert!(
        scan(&watchdog, &conn).is_empty(),
        "only knobs this provider owns are in scope"
    );
    assert!(run_pass(&mut watchdog, &conn, ReclaimPolicy::AllUnclosed).is_empty());
    assert_eq!(
        terminal_count(&conn, 1),
        0,
        "another provider's experiment is left untouched"
    );
}

#[test]
fn failed_rollback_leaves_the_experiment_for_a_later_pass() {
    let conn = create_journal();
    seed_leaked(
        &conn,
        &Leaked {
            experiment_id: 1,
            provider_id: "mock",
            snapshot_value: 7,
            request_value: 99,
            lease_seconds: 300,
            intent_age: "-1 seconds",
        },
    );

    // The provider rejects its first rollback, then recovers.
    let mut watchdog = Watchdog::open(FaultyProvider {
        value: 99,
        fail_rollbacks: 1,
        corrupt_rollbacks: 0,
    });

    let first = run_pass(&mut watchdog, &conn, ReclaimPolicy::AllUnclosed);
    assert_eq!(first.len(), 1);
    assert!(!first[0].restored, "the rollback failed");
    assert!(first[0].error.is_some());
    assert_eq!(
        terminal_count(&conn, 1),
        0,
        "a failed restore leaves the experiment unclosed"
    );
    assert_eq!(
        payload(&conn, "watchdog-restore"),
        r#"{"error":"rollback failed: injected fault","reason":"crash-recovery","restored":false,"snapshot":{"provider_id":"mock","state":{"value":7}}}"#
    );

    let second = run_pass(&mut watchdog, &conn, ReclaimPolicy::AllUnclosed);
    assert_eq!(second.len(), 1);
    assert!(second[0].restored, "the retry restores state");
    assert_eq!(watchdog.provider().value, 7);
    assert_eq!(terminal_count(&conn, 1), 1);
}

#[test]
fn corrupted_rollback_is_detected_by_the_verify_probe() {
    let conn = create_journal();
    seed_leaked(
        &conn,
        &Leaked {
            experiment_id: 1,
            provider_id: "mock",
            snapshot_value: 7,
            request_value: 99,
            lease_seconds: 300,
            intent_age: "-1 seconds",
        },
    );

    // The provider claims success but leaves the wrong value the first time.
    let mut watchdog = Watchdog::open(FaultyProvider {
        value: 99,
        fail_rollbacks: 0,
        corrupt_rollbacks: 1,
    });

    let first = run_pass(&mut watchdog, &conn, ReclaimPolicy::AllUnclosed);
    assert_eq!(first.len(), 1);
    assert!(
        !first[0].restored,
        "the post-rollback probe rejects the mismatch"
    );
    assert_eq!(
        first[0].error.as_deref(),
        Some("rollback failed: post-rollback snapshot did not match the journaled snapshot")
    );
    assert_eq!(terminal_count(&conn, 1), 0);

    let second = run_pass(&mut watchdog, &conn, ReclaimPolicy::AllUnclosed);
    assert!(second[0].restored);
    assert_eq!(watchdog.provider().value, 7);
    assert_eq!(terminal_count(&conn, 1), 1);
}

/// A provider that can be told to fail or silently corrupt its rollback a fixed
/// number of times, then behave.
struct FaultyProvider {
    value: u64,
    fail_rollbacks: u32,
    corrupt_rollbacks: u32,
}

impl Provider for FaultyProvider {
    fn manifest(&self) -> ProviderManifest {
        ProviderManifest {
            id: "mock".to_owned(),
            protocol_version: 1,
            targets: vec![HOST.to_owned()],
            capabilities: vec![CapabilityDescriptor {
                id: "mock.value".to_owned(),
                description: "Injectable in-memory value for watchdog tests".to_owned(),
                risk: RiskClass::Reversible,
                persistence: Persistence::Leased,
                input_schema: Json::object().with("type", Json::text("object")),
            }],
        }
    }

    fn snapshot(&self) -> Result<StateSnapshot, ProviderError> {
        Ok(StateSnapshot {
            provider_id: "mock".to_owned(),
            state: value_json(self.value),
        })
    }

    fn preview(&self, _: &ChangeRequest) -> Result<String, ProviderError> {
        Ok("no-op preview".to_owned())
    }

    fn apply(&mut self, request: &ChangeRequest) -> Result<(), ProviderError> {
        self.value = request
            .parameters
            .u64_member("value")
            .ok_or_else(|| ProviderError::InvalidRequest("value must be a u64".to_owned()))?;
        Ok(())
    }

    fn verify(&self, request: &ChangeRequest) -> Result<bool, ProviderError> {
        Ok(request.parameters.u64_member("value") == Some(self.value))
    }

    fn rollback(&mut self, snapshot: &StateSnapshot) -> Result<(), ProviderError> {
        if self.fail_rollbacks > 0 {
            self.fail_rollbacks -= 1;
            return Err(ProviderError::RollbackFailed("injected fault".to_owned()));
        }
        self.value = snapshot
            .state
            .u64_member("value")
            .ok_or_else(|| ProviderError::RollbackFailed("snapshot has no value".to_owned()))?;
        if self.corrupt_rollbacks > 0 {
            self.corrupt_rollbacks -= 1;
            self.value += 1;
        }
        Ok(())
    }
}

fn config(args: &[&str]) -> Config {
    Config::from_args(&args.iter().map(|arg| (*arg).to_owned()).collect(), None)
}

#[test]
fn recover_all_forces_single_pass() {
    let config = config(&["--recover-all"]);
    assert!(config.once);
    assert_eq!(config.policy(), ReclaimPolicy::AllUnclosed);
}

#[test]
fn steady_state_poll_stays_expired_leases_only() {
    let config = config(&[]);
    assert!(!config.once);
    assert_eq!(config.policy(), ReclaimPolicy::ExpiredLeasesOnly);
}

#[test]
fn the_watchdog_command_line() {
    assert_eq!(config(&[]).interval_seconds, 5);
    assert_eq!(config(&["--interval", "0"]).interval_seconds, 1);
    assert_eq!(config(&["--interval", "17"]).interval_seconds, 17);
    assert_eq!(config(&["--interval", "+17"]).interval_seconds, 17);
    assert_eq!(config(&["--interval", "soon"]).interval_seconds, 5);
    assert_eq!(config(&["--interval", ""]).interval_seconds, 5);
    assert_eq!(
        config(&["--interval", "18446744073709551616"]).interval_seconds,
        5
    );
    assert_eq!(config(&["--journal", "/a"]).journal_path, "/a");
    assert_eq!(config(&[]).journal_path, "fpsmaxxing-journal.sqlite");
    // A trailing flag clears what was said before it.
    assert_eq!(
        Config::from_args(
            &["--journal", "/a", "--journal"].map(str::to_owned).to_vec(),
            Some("/inherited".to_owned())
        )
        .journal_path,
        "/inherited"
    );
    // The value of a flag is not a flag of its own.
    assert!(!config(&["--journal", "--once"]).once);
    assert!(config(&["--unknown", "--once"]).once);
}

#[test]
fn a_lease_expires_by_the_journal_clock_alone() {
    assert!(lease_expired(Some(30), 30));
    assert!(!lease_expired(Some(29), 30));
    assert!(!lease_expired(Some(-1), 30));
    assert!(!lease_expired(None, 30));
    assert!(!lease_expired(Some(i64::MAX), u64::MAX));
}

#[test]
fn a_restoration_reads_like_this() {
    let restoration = Restoration {
        experiment_id: 3,
        reason: ReclaimReason::LeaseExpired,
        lease_seconds: 30,
        restored: true,
        error: None,
    };
    assert_eq!(
        restoration.report(),
        "fpsmaxxing-watchdog: restored experiment 3 (lease expired, lease 30s)"
    );
    let failed = Restoration {
        restored: false,
        reason: ReclaimReason::CrashRecovery,
        error: Some("gone".to_owned()),
        ..restoration
    };
    assert_eq!(
        failed.report(),
        "fpsmaxxing-watchdog: could not restore experiment 3 (crash recovery): gone"
    );
    assert_eq!(
        ReclaimReason::LeaseExpired.terminal_message(),
        "watchdog restored prior state after the TTL lease expired"
    );
    assert_eq!(
        ReclaimPolicy::AllUnclosed.label(),
        "recovering all unclosed experiments"
    );
    assert_eq!(
        ReclaimPolicy::ExpiredLeasesOnly.label(),
        "reclaiming expired leases"
    );
}

#[test]
fn leaks_are_listed_in_order_and_counted() {
    let conn = create_journal();
    for experiment_id in [9, 2, 5] {
        seed_leaked(
            &conn,
            &Leaked {
                experiment_id,
                provider_id: "mock",
                snapshot_value: 1,
                request_value: 2,
                lease_seconds: 30,
                intent_age: "-3600 seconds",
            },
        );
    }
    insert(&conn, 5, "-0 seconds", "failed", "mock", &Json::object());
    let watchdog = Watchdog::open(MockProvider::new(0, HOST));
    let ids: Vec<i64> = scan(&watchdog, &conn)
        .iter()
        .map(|experiment| experiment.experiment_id)
        .collect();
    assert_eq!(ids, [2, 9]);
    assert_eq!(dangling_experiments(&rows(&conn)), 2);
    assert_eq!(
        journal_report(&Ok(Some(rows(&conn)))),
        "ready (2 dangling experiment(s) missing a terminal outcome)"
    );
}

#[test]
fn the_diagnostics_name_the_journal_state() {
    assert_eq!(journal_report(&Ok(Some(Vec::new()))), "ready");
    assert_eq!(
        journal_report(&Ok(None)),
        "unavailable (experiment_journal table missing)"
    );
    assert_eq!(
        journal_report(&Err("disk I/O error".to_owned())),
        "unavailable (disk I/O error)"
    );
    assert_eq!(
        doctor(&None, "j.sqlite"),
        "FPSMaxxing diagnostics
  contracts: ready
  provider SDK: ready
  gateway: MCP mock path available
  journal: missing (no experiments journaled yet) (j.sqlite)
  hardware writes: disabled
  status: read-only alpha mock path ready"
    );
}

#[test]
fn experiment_ids_go_on_from_the_largest() {
    assert_eq!(next_experiment_id(&Vec::new()), Some(1));
    assert_eq!(next_experiment_id(&vec![3, 7, 2]), Some(8));
    assert_eq!(next_experiment_id(&vec![i64::MAX]), None);
    assert_eq!(next_experiment_id(&vec![-5]), Some(-4));
}
