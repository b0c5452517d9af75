//! Independent lease and crash-recovery watchdog.
//!
//! The watchdog finds experiments that recorded a write-ahead intent but no
//! terminal outcome, and rolls each one back through its provider using the
//! journaled snapshot. [`Watchdog`] makes the provider calls and decides what to
//! journal; whoever owns the journal reads its rows and appends each
//! [`RestoreRecord`] in one transaction before asking for the next.
use vstd::prelude::*;

use crate::contracts::{ChangeRequest, ProviderManifest, StateSnapshot};
use crate::json::{Json, JsonView};
use crate::journal_scan::{unclosed_experiments, JournalRow, LeakedRow};
use crate::provider::{Provider, ProviderError};
use crate::text::{decimal, parse_decimal, same_text, signed_decimal};

verus! {

/// Which unclosed experiments a reclaim pass should restore.
#[derive(Clone, Copy, Debug, PartialEq, Eq, Structural)]
pub enum ReclaimPolicy {
    /// Restore every unclosed experiment regardless of its lease deadline.
    ///
    /// Used for crash and reboot recovery, when the watchdog assumes any
    /// experiment without a terminal record was abandoned by a dead owner.
    AllUnclosed,
    /// Restore only experiments whose TTL lease has already elapsed.
    ///
    /// Used by the steady-state poll loop so that experiments still inside
    /// their lease are left to their owner.
    ExpiredLeasesOnly,
}

impl ReclaimPolicy {
    /// What the policy does, in words.
    pub fn label(self) -> (label: &'static str)
        ensures
            label@ == match self {
                ReclaimPolicy::AllUnclosed => "recovering all unclosed experiments"@,
                ReclaimPolicy::ExpiredLeasesOnly => "reclaiming expired leases"@,
            },
    {
        match self {
            ReclaimPolicy::AllUnclosed => "recovering all unclosed experiments",
            ReclaimPolicy::ExpiredLeasesOnly => "reclaiming expired leases",
        }
    }
}

/// Why the watchdog restored an experiment.
#[derive(Clone, Copy, Debug, PartialEq, Eq, Structural)]
pub enum ReclaimReason {
    /// The experiment's TTL lease elapsed with no terminal outcome.
    LeaseExpired,
    /// The experiment had no terminal outcome and was restored during crash
    /// or reboot recovery before its lease elapsed.
    CrashRecovery,
}

impl ReclaimReason {
    /// Human-readable summary written into the terminal `failed` record.
    pub open spec fn summary(self) -> Seq<char> {
        match self {
            ReclaimReason::LeaseExpired => "watchdog restored prior state after the TTL lease expired"@,
            ReclaimReason::CrashRecovery => "watchdog restored prior state after detecting an unclosed experiment"@,
        }
    }

    /// Human-readable summary written into the terminal `failed` record.
    pub fn terminal_message(self) -> (message: &'static str)
        ensures
            message@ == self.summary(),
    {
        match self {
            ReclaimReason::LeaseExpired => "watchdog restored prior state after the TTL lease expired",
            ReclaimReason::CrashRecovery => "watchdog restored prior state after detecting an unclosed experiment",
        }
    }

    /// The reason as it is journaled.
    pub open spec fn journaled(self) -> Seq<char> {
        match self {
            ReclaimReason::LeaseExpired => "lease-expired"@,
            ReclaimReason::CrashRecovery => "crash-recovery"@,
        }
    }

    /// The reason as it is journaled.
    pub fn wire(self) -> (name: &'static str)
        ensures
            name@ == self.journaled(),
    {
        match self {
            ReclaimReason::LeaseExpired => "lease-expired",
            ReclaimReason::CrashRecovery => "crash-recovery",
        }
    }

    /// The reason in words.
    pub open spec fn words(self) -> Seq<char> {
        match self {
            ReclaimReason::LeaseExpired => "lease expired"@,
            ReclaimReason::CrashRecovery => "crash recovery"@,
        }
    }

    /// The reason in words.
    pub fn label(self) -> (label: &'static str)
        ensures
            label@ == self.words(),
    {
        match self {
            ReclaimReason::LeaseExpired => "lease expired",
            ReclaimReason::CrashRecovery => "crash recovery",
        }
    }
}

/// Whether a lease has elapsed, given the age of the write-ahead record.
///
/// A missing or negative age (clock skew or an unparseable timestamp) counts as
/// not expired, so recovery relies on the explicit [`ReclaimPolicy::AllUnclosed`]
/// pass rather than acting on a bad clock.
pub fn lease_expired(age_seconds: Option<i64>, lease_seconds: u64) -> (expired: bool)
    ensures
        expired == (age_seconds matches Some(age) && age >= 0 && age >= lease_seconds),
{
    match age_seconds {
        Some(age) => age >= 0 && age as u64 >= lease_seconds,
        None => false,
    }
}

/// One journaled experiment that recorded an apply intent but no terminal
/// outcome, i.e. a crash between the mutation and its rollback.
#[derive(Debug)]
pub struct UnclosedExperiment {
    /// Correlation ID shared by every journal record of this experiment.
    pub experiment_id: i64,
    /// Provider that owns the leaked change.
    pub provider_id: String,
    /// Pre-change state captured before the mutation, used for rollback.
    pub snapshot: StateSnapshot,
    /// The write-ahead change request, which carries the TTL lease.
    pub request: ChangeRequest,
    /// Whether the TTL lease has elapsed relative to the journal clock.
    pub lease_expired: bool,
}

impl UnclosedExperiment {
    /// Completes a listed experiment with its decoded snapshot and request.
    pub fn new(row: &LeakedRow, snapshot: StateSnapshot, request: ChangeRequest) -> (experiment: Self)
        ensures
            experiment.experiment_id == row.experiment_id,
            experiment.provider_id == snapshot.provider_id,
            experiment.snapshot == snapshot,
            experiment.request == request,
            experiment.lease_expired == (row.age_seconds matches Some(age) && age >= 0 && age
                >= request.lease_seconds),
    {
        let expired = lease_expired(row.age_seconds, request.lease_seconds);
        UnclosedExperiment {
            experiment_id: row.experiment_id,
            provider_id: snapshot.provider_id.clone(),
            snapshot,
            request,
            lease_expired: expired,
        }
    }

    /// Why the experiment would be restored.
    pub open spec fn why(&self) -> ReclaimReason {
        if self.lease_expired { ReclaimReason::LeaseExpired } else { ReclaimReason::CrashRecovery }
    }

    /// Whether the policy selects the experiment.
    pub open spec fn chosen_by(&self, policy: ReclaimPolicy) -> bool {
        policy == ReclaimPolicy::AllUnclosed || self.lease_expired
    }

    /// Why the experiment would be restored.
    pub fn reason(&self) -> (reason: ReclaimReason)
        ensures
            reason == self.why(),
    {
        if self.lease_expired {
            ReclaimReason::LeaseExpired
        } else {
            ReclaimReason::CrashRecovery
        }
    }

    /// Whether the policy selects the experiment.
    pub fn selected_by(&self, policy: ReclaimPolicy) -> (selected: bool)
        ensures
            selected == self.chosen_by(policy),
    {
        match policy {
            ReclaimPolicy::AllUnclosed => true,
            ReclaimPolicy::ExpiredLeasesOnly => self.lease_expired,
        }
    }
}

/// The outcome of one watchdog restore attempt.
#[derive(Clone, Debug)]
pub struct Restoration {
    /// Experiment the watchdog acted on.
    pub experiment_id: i64,
    /// Why the watchdog acted on this experiment.
    pub reason: ReclaimReason,
    /// The TTL lease the experiment carried, in seconds.
    pub lease_seconds: u64,
    /// Whether rollback restored the journaled snapshot and was verified.
    pub restored: bool,
    /// Failure detail when `restored` is false; the experiment is left
    /// unclosed so a later pass retries it.
    pub error: Option<String>,
}

impl Restoration {
    /// The line that reports the attempt.
    pub open spec fn line(&self) -> Seq<char> {
        if self.restored {
            "fpsmaxxing-watchdog: restored experiment "@ + crate::text::signed_digits(self.experiment_id as int) + " ("@
                + self.reason.words() + ", lease "@ + crate::text::decimal_digits(self.lease_seconds as nat) + "s)"@
        } else {
            "fpsmaxxing-watchdog: could not restore experiment "@ + crate::text::signed_digits(
                self.experiment_id as int,
            ) + " ("@ + self.reason.words() + "): "@ + match self.error {
                Some(why) => why@,
                None => "unknown error"@,
            }
        }
    }

    /// Reports the attempt in one line.
    pub fn report(&self) -> (text: String)
        ensures
            text@ == self.line(),
    {
        if self.restored {
            "fpsmaxxing-watchdog: restored experiment ".to_owned()
                .concat(signed_decimal(self.experiment_id).as_str())
                .concat(" (")
                .concat(self.reason.label())
                .concat(", lease ")
                .concat(decimal(self.lease_seconds).as_str())
                .concat("s)")
        } else {
            let why = match &self.error {
                Some(why) => why.as_str(),
                None => "unknown error",
            };
            "fpsmaxxing-watchdog: could not restore experiment ".to_owned()
                .concat(signed_decimal(self.experiment_id).as_str())
                .concat(" (")
                .concat(self.reason.label())
                .concat("): ")
                .concat(why)
        }
    }
}

/// What the journal is to say of one restore attempt.
#[derive(Debug)]
pub struct RestoreRecord {
    /// Experiment the watchdog acted on.
    pub experiment_id: i64,
    /// Provider the watchdog is bound to.
    pub provider_id: String,
    /// Why the watchdog acted on this experiment.
    pub reason: ReclaimReason,
    /// The state that was to be restored.
    pub snapshot: StateSnapshot,
    /// Why the state was not restored; `None` where it was.
    pub error: Option<String>,
}

impl RestoreRecord {
    /// The stages to append, together: a verified restore also closes its
    /// experiment, and a failed one leaves it open for a later pass.
    pub open spec fn appended(&self) -> Seq<Seq<char>> {
        if self.error is None { seq!["watchdog-restore"@, "failed"@] } else { seq!["watchdog-restore"@] }
    }

    /// What the restore record holds.
    pub open spec fn restore_json(&self) -> JsonView {
        let told = JsonView::Object(
            map![
                "reason"@ => JsonView::Text(self.reason.journaled()),
                "restored"@ => JsonView::Bool(self.error is None),
                "snapshot"@ => crate::contracts::snapshot_json(self.snapshot@)
            ],
        );
        match self.error {
            None => told,
            Some(why) => crate::json::with_member(told, "error"@, JsonView::Text(why@)),
        }
    }

    /// What the terminal record holds.
    pub open spec fn terminal_json(&self) -> JsonView {
        JsonView::Object(
            map![
                "error"@ => JsonView::Text(self.reason.summary()),
                "kind"@ => JsonView::Text("watchdog-reclaimed"@),
                "reason"@ => JsonView::Text(self.reason.journaled()),
                "stage"@ => JsonView::Text("watchdog"@)
            ],
        )
    }

    /// The records to append in one transaction, so that the audit trail is
    /// never left half written: the stage of each, and what it holds.
    pub fn rows(&self) -> (rows: Vec<(&'static str, Json)>)
        ensures
            rows@.len() == self.appended().len(),
            forall|i: int| 0 <= i < rows@.len() ==> (#[trigger] rows@[i]).0@ == self.appended()[i],
            rows@[0].1@ == self.restore_json(),
            rows@[0].1.names() == (if self.error is None { Seq::empty() } else { seq!["error"@] }) + seq![
                "reason"@,
                "restored"@,
                "snapshot"@,
            ],
            self.error is None ==> rows@[1].1@ == self.terminal_json() && rows@[1].1.names() == seq![
                "error"@,
                "kind"@,
                "reason"@,
                "stage"@,
            ],
    {
        let mut rows: Vec<(&'static str, Json)> = Vec::new();
        let told = match &self.error {
            None => Json::object(),
            Some(why) => Json::object().with("error", Json::Text(why.clone())),
        };
        let restore = told
            .with("reason", Json::text(self.reason.wire()))
            .with("restored", Json::Bool(self.error.is_none()))
            .with("snapshot", self.snapshot.to_json());
        proof {
            reveal_strlit("error");
            reveal_strlit("reason");
            reveal_strlit("restored");
            reveal_strlit("snapshot");
            assert("error"@.len() == 5 && "reason"@.len() == 6 && "restored"@.len() == 8 && "snapshot"@.len() == 8);
            assert(restore@->Object_0 =~= self.restore_json()->Object_0);
        }
        rows.push(("watchdog-restore", restore));
        if self.error.is_none() {
            let terminal = Json::object()
                .with("error", Json::text(self.reason.terminal_message()))
                .with("kind", Json::text("watchdog-reclaimed"))
                .with("reason", Json::text(self.reason.wire()))
                .with("stage", Json::text("watchdog"));
            rows.push(("failed", terminal));
        }
        rows
    }
}

/// A pass over the experiments that a policy selected.
#[derive(Debug)]
pub struct ReclaimPass {
    /// Selected experiments still to be restored, in order.
    pub waiting: Vec<UnclosedExperiment>,
    /// What became of those already attempted, in order.
    pub restorations: Vec<Restoration>,
}

/// The experiments that a policy selects, in order.
pub open spec fn selection(candidates: Seq<UnclosedExperiment>, policy: ReclaimPolicy) -> Seq<UnclosedExperiment> {
    candidates.filter(|experiment: UnclosedExperiment| experiment.chosen_by(policy))
}

/// Starts a pass over the candidates that the policy selects.
pub fn reclaim(candidates: Vec<UnclosedExperiment>, policy: ReclaimPolicy) -> (pass: ReclaimPass)
    ensures
        pass.waiting@ == selection(candidates@, policy),
        pass.restorations@.len() == 0,
{
    let ghost all = candidates@;
    let ghost chosen = |experiment: UnclosedExperiment| experiment.chosen_by(policy);
    let mut rest = candidates;
    let mut waiting: Vec<UnclosedExperiment> = Vec::new();
    let ghost mut done: int = 0;
    assert(all.take(0).filter(chosen) =~= Seq::empty()) by {
        reveal(Seq::filter);
    }
    while rest.len() > 0
        invariant
            0 <= done <= all.len(),
            rest@ == all.skip(done),
            chosen == (|experiment: UnclosedExperiment| experiment.chosen_by(policy)),
            waiting@ == all.take(done).filter(chosen),
        decreases rest.len(),
    {
        let experiment = rest.remove(0);
        proof {
            assert(experiment == all[done]);
            assert(all.take(done + 1).drop_last() =~= all.take(done));
            assert(all.take(done + 1).last() == all[done]);
            reveal(Seq::filter);
            assert(rest@ =~= all.skip(done + 1));
            done = done + 1;
        }
        if experiment.selected_by(policy) {
            waiting.push(experiment);
        }
    }
    assert(all.take(done) =~= all);
    ReclaimPass { waiting, restorations: Vec::new() }
}

/// The provider was told to put the snapshot back and was read again: the
/// outcome is a success only if what was read is the snapshot.
pub open spec fn restored<P: Provider>(
    before: P,
    snapshot: StateSnapshot,
    after: P,
    outcome: Result<(), ProviderError>,
) -> bool {
    exists|rollback: Result<(), ProviderError>| #[trigger]
        before.may_rollback(snapshot, after, rollback) && match rollback {
            Err(error) => outcome == Err::<(), ProviderError>(error),
            Ok(_) => exists|probe: Result<StateSnapshot, ProviderError>| #[trigger]
                after.may_snapshot(probe) && match probe {
                    Err(error) => outcome == Err::<(), ProviderError>(error),
                    Ok(now) => if now@ == snapshot@ {
                        outcome is Ok
                    } else {
                        outcome matches Err(ProviderError::RollbackFailed(why)) && why@
                            == "post-rollback snapshot did not match the journaled snapshot"@
                    },
                },
        }
}

/// What the journal and the caller are told of an attempt.
pub open spec fn attempt_noted(
    experiment: UnclosedExperiment,
    provider_id: Seq<char>,
    outcome: Result<(), ProviderError>,
    record: RestoreRecord,
    restoration: Restoration,
) -> bool {
    &&& record.experiment_id == experiment.experiment_id
    &&& record.provider_id@ == provider_id
    &&& record.reason == experiment.why()
    &&& record.snapshot == experiment.snapshot
    &&& restoration.experiment_id == experiment.experiment_id
    &&& restoration.reason == experiment.why()
    &&& restoration.lease_seconds == experiment.request.lease_seconds
    &&& restoration.restored == (outcome is Ok)
    &&& restoration.error == record.error
    &&& match outcome {
        Ok(_) => record.error is None,
        Err(error) => record.error matches Some(why) && why@ == error.sentence(),
    }
}

/// An independent watchdog bound to one provider.
#[derive(Debug)]
pub struct Watchdog<P> {
    provider: P,
    provider_id: String,
}

impl<P: Provider> Watchdog<P> {
    /// The provider as it stands.
    pub closed spec fn state(&self) -> P {
        self.provider
    }

    /// The provider's identifier.
    pub closed spec fn bound_to(&self) -> Seq<char> {
        self.provider_id@
    }

    /// Binds a watchdog to a provider.
    pub fn open(provider: P) -> (watchdog: Self)
        ensures
            watchdog.state() == provider,
            exists|manifest: ProviderManifest| #[trigger]
                provider.may_describe(manifest) && watchdog.bound_to() == manifest.id@,
    {
        let manifest = provider.manifest();
        let provider_id = manifest.id.clone();
        Watchdog { provider, provider_id }
    }

    /// Borrows the bound provider, e.g. to inspect restored state.
    pub fn provider(&self) -> (provider: &P)
        ensures
            *provider == self.state(),
    {
        &self.provider
    }

    /// Lists every unclosed experiment this provider owns, ordered by
    /// experiment.
    pub fn scan(&self, rows: &Vec<JournalRow>) -> (listing: Vec<LeakedRow>)
        ensures
            exists|pairs: Seq<(int, int)>|
                crate::journal_scan::lists_leaks(listing@, pairs, rows@, self.bound_to()),
    {
        let listing = unclosed_experiments(rows, self.provider_id.as_str());
        proof {
            let pairs = choose|pairs: Seq<(int, int)>|
                crate::journal_scan::lists_leaks(listing@, pairs, rows@, self.provider_id@);
            assert(crate::journal_scan::lists_leaks(listing@, pairs, rows@, self.bound_to()));
        }
        listing
    }

    /// Rolls the provider back to `snapshot` and confirms the restore by
    /// re-reading provider state.
    fn restore_state(&mut self, snapshot: &StateSnapshot) -> (outcome: Result<(), ProviderError>)
        ensures
            final(self).bound_to() == old(self).bound_to(),
            restored(old(self).state(), *snapshot, final(self).state(), outcome),
    {
        match self.provider.rollback(snapshot) {
            Err(error) => Err(error),
            Ok(()) => match self.provider.snapshot() {
                Err(error) => Err(error),
                Ok(now) => if now.same(snapshot) {
                    Ok(())
                } else {
                    Err(
                        ProviderError::RollbackFailed(
                            "post-rollback snapshot did not match the journaled snapshot".to_owned(),
                        ),
                    )
                },
            },
        }
    }

    /// Restores one experiment.
    fn reclaim_one(&mut self, experiment: UnclosedExperiment) -> (noted: (RestoreRecord, Restoration))
        ensures
            final(self).bound_to() == old(self).bound_to(),
            exists|outcome: Result<(), ProviderError>| #[trigger]
                restored(old(self).state(), experiment.snapshot, final(self).state(), outcome) && attempt_noted(
                    experiment,
                    old(self).bound_to(),
                    outcome,
                    noted.0,
                    noted.1,
                ),
    {
        let reason = experiment.reason();
        let outcome = self.restore_state(&experiment.snapshot);
        let error = match &outcome {
            Ok(()) => None,
            Err(error) => Some(error.message()),
        };
        let restored = outcome.is_ok();
        let shown = match &error {
            None => None,
            Some(why) => Some(why.clone()),
        };
        let record = RestoreRecord {
            experiment_id: experiment.experiment_id,
            provider_id: self.provider_id.clone(),
            reason,
            snapshot: experiment.snapshot,
            error,
        };
        let restoration = Restoration {
            experiment_id: experiment.experiment_id,
            reason,
            lease_seconds: experiment.request.lease_seconds,
            restored,
            error: shown,
        };
        (record, restoration)
    }

    /// Restores the next experiment of a pass and says what to journal of it;
    /// `None` once the pass is over.
    ///
    /// A provider that fails to roll one experiment back leaves that experiment
    /// unclosed for a later pass without blocking the others.
    pub fn next_restore(&mut self, pass: &mut ReclaimPass) -> (record: Option<RestoreRecord>)
        ensures
            final(self).bound_to() == old(self).bound_to(),
            match record {
                None => {
                    &&& old(pass).waiting@.len() == 0
                    &&& *final(pass) == *old(pass)
                    &&& final(self).state() == old(self).state()
                },
                Some(record) => {
                    &&& old(pass).waiting@.len() > 0
                    &&& final(pass).waiting@ == old(pass).waiting@.drop_first()
                    &&& final(pass).restorations@.len() == old(pass).restorations@.len() + 1
                    &&& final(pass).restorations@.drop_last() == old(pass).restorations@
                    &&& exists|outcome: Result<(), ProviderError>| #[trigger]
                        restored(
                            old(self).state(),
                            old(pass).waiting@[0].snapshot,
                            final(self).state(),
                            outcome,
                        ) && attempt_noted(
                            old(pass).waiting@[0],
                            old(self).bound_to(),
                            outcome,
                            record,
                            final(pass).restorations@.last(),
                        )
                },
            },
    {
        if pass.waiting.len() == 0 {
            return None;
        }
        let experiment = pass.waiting.remove(0);
        assert(pass.waiting@ =~= old(pass).waiting@.drop_first());
        let (record, restoration) = self.reclaim_one(experiment);
        pass.restorations.push(restoration);
        assert(pass.restorations@.drop_last() =~= old(pass).restorations@);
        Some(record)
    }
}

/// The journal file that is used where none is named.
pub const DEFAULT_JOURNAL: &'static str = "fpsmaxxing-journal.sqlite";

/// Seconds between two passes where no interval is given.
pub const DEFAULT_INTERVAL_SECONDS: u64 = 5;

/// How the watchdog process is to run.
#[derive(Debug)]
pub struct Config {
    /// The journal file.
    pub journal_path: String,
    /// Seconds between two passes; at least one.
    pub interval_seconds: u64,
    /// Whether to stop after a single pass.
    pub once: bool,
    /// Whether to recover every unclosed experiment.
    pub recover_all: bool,
}

/// What the command line has said so far.
pub struct ArgsView {
    /// The journal file named last.
    pub journal: Option<Seq<char>>,
    /// Seconds between two passes.
    pub interval_seconds: u64,
    /// Whether a single pass was asked for.
    pub once: bool,
    /// Whether a recovery pass was asked for.
    pub recover_all: bool,
}

/// The arguments as texts.
pub open spec fn texts(args: Seq<String>) -> Seq<Seq<char>> {
    args.map_values(|arg: String| arg@)
}

/// What the rest of a command line says, after what it has said so far. A flag
/// that takes a value consumes the next argument; what is not known is passed
/// over.
pub open spec fn read_args(args: Seq<Seq<char>>, said: ArgsView) -> ArgsView
    decreases args.len(),
{
    if args.len() == 0 {
        said
    } else if args[0] == "--journal"@ {
        if args.len() == 1 {
            ArgsView { journal: None, ..said }
        } else {
            read_args(args.skip(2), ArgsView { journal: Some(args[1]), ..said })
        }
    } else if args[0] == "--interval"@ {
        if args.len() == 1 {
            said
        } else {
            let interval_seconds = match crate::text::unsigned_value(args[1]) {
                Some(seconds) => if seconds >= 1 { seconds } else { 1 },
                None => said.interval_seconds,
            };
            read_args(args.skip(2), ArgsView { interval_seconds, ..said })
        }
    } else if args[0] == "--once"@ {
        read_args(args.skip(1), ArgsView { once: true, ..said })
    } else if args[0] == "--recover-all"@ {
        read_args(args.skip(1), ArgsView { recover_all: true, ..said })
    } else {
        read_args(args.skip(1), said)
    }
}

/// What a command line says before its first argument.
pub open spec fn nothing_said() -> ArgsView {
    ArgsView { journal: None, interval_seconds: DEFAULT_INTERVAL_SECONDS, once: false, recover_all: false }
}

/// The text that an optional argument holds.
pub open spec fn text_of(arg: Option<String>) -> Option<Seq<char>> {
    match arg {
        Some(text) => Some(text@),
        None => None,
    }
}

impl Config {
    /// Reads the command line; `inherited` is the journal file that the
    /// environment names. A recovery pass is always a single pass.
    pub fn from_args(args: &Vec<String>, inherited: Option<String>) -> (config: Config)
        ensures
            ({
                let said = read_args(texts(args@), nothing_said());
                &&& config.journal_path@ == match said.journal {
                    Some(path) => path,
                    None => match inherited {
                        Some(path) => path@,
                        None => DEFAULT_JOURNAL@,
                    },
                }
                &&& config.interval_seconds == said.interval_seconds
                &&& config.once == (said.once || said.recover_all)
                &&& config.recover_all == said.recover_all
            }),
    {
        let mut journal: Option<String> = None;
        let mut interval_seconds: u64 = DEFAULT_INTERVAL_SECONDS;
        let mut once = false;
        let mut recover_all = false;
        let mut i: usize = 0;
        let ghost all = texts(args@);
        assert(all.skip(0) =~= all);
        while i < args.len()
            invariant
                i <= args.len(),
                all == texts(args@),
                read_args(all, nothing_said()) == read_args(
                    all.skip(i as int),
                    (ArgsView { journal: text_of(journal), interval_seconds, once, recover_all }),
                ),
            decreases args.len() - i,
        {
            let ghost rest = all.skip(i as int);
            proof {
                assert(rest[0] == args[i as int]@);
                assert(rest.skip(1) =~= all.skip(i + 1));
                if i + 1 < args.len() {
                    assert(rest[1] == args[i + 1]@);
                    assert(rest.skip(2) =~= all.skip(i + 2));
                }
            }
            let arg = args[i].as_str();
            if same_text(arg, "--journal") {
                if i + 1 < args.len() {
                    journal = Some(args[i + 1].clone());
                    i = i + 1;
                } else {
                    journal = None;
                    assert(all.skip(i + 1).len() == 0);
                }
            } else if same_text(arg, "--interval") {
                if i + 1 < args.len() {
                    match parse_decimal(args[i + 1].as_str()) {
                        Some(seconds) => {
                            interval_seconds = if seconds >= 1 { seconds } else { 1 };
                        },
                        None => {},
                    }
                    i = i + 1;
                } else {
                    assert(all.skip(i + 1).len() == 0);
                }
            } else if same_text(arg, "--once") {
                once = true;
            } else if same_text(arg, "--recover-all") {
                recover_all = true;
            }
            i = i + 1;
        }
        assert(all.skip(i as int).len() == 0);
        let journal_path = match journal {
            Some(path) => path,
            None => match inherited {
                Some(path) => path,
                None => DEFAULT_JOURNAL.to_owned(),
            },
        };
        Config { journal_path, interval_seconds, once: once || recover_all, recover_all }
    }

    /// The policy that the process reclaims by.
    pub fn policy(&self) -> (policy: ReclaimPolicy)
        ensures
            policy == if self.recover_all { ReclaimPolicy::AllUnclosed } else { ReclaimPolicy::ExpiredLeasesOnly },
    {
        if self.recover_all {
            ReclaimPolicy::AllUnclosed
        } else {
            ReclaimPolicy::ExpiredLeasesOnly
        }
    }
}

/// A steady-state pass leaves every experiment inside its lease to its owner.
pub proof fn a_live_lease_is_left_to_its_owner(candidates: Seq<UnclosedExperiment>, at: int)
    requires
        0 <= at < selection(candidates, ReclaimPolicy::ExpiredLeasesOnly).len(),
    ensures
        selection(candidates, ReclaimPolicy::ExpiredLeasesOnly)[at].lease_expired,
        candidates.contains(selection(candidates, ReclaimPolicy::ExpiredLeasesOnly)[at]),
{
    broadcast use vstd::seq_lib::group_filter_ensures;

    let chosen = |experiment: UnclosedExperiment| experiment.chosen_by(ReclaimPolicy::ExpiredLeasesOnly);
    let listed = candidates.filter(chosen);
    assert(chosen(listed[at]));
    lemma_selected_is_candidate(candidates, chosen, at);
}

/// What a filter keeps is one of the candidates.
proof fn lemma_selected_is_candidate(
    candidates: Seq<UnclosedExperiment>,
    chosen: spec_fn(UnclosedExperiment) -> bool,
    at: int,
)
    requires
        0 <= at < candidates.filter(chosen).len(),
    ensures
        candidates.contains(candidates.filter(chosen)[at]),
    decreases candidates.len(),
{
    reveal(Seq::filter);
    let rest = candidates.drop_last();
    if at < rest.filter(chosen).len() {
        lemma_selected_is_candidate(rest, chosen, at);
        let k = choose|k: int| 0 <= k < rest.len() && rest[k] == rest.filter(chosen)[at];
        assert(candidates[k] == rest[k]);
    } else {
        assert(candidates[candidates.len() - 1] == candidates.filter(chosen)[at]);
    }
}

/// A recovery pass covers every candidate, in order.
pub proof fn a_recovery_pass_covers_every_candidate(candidates: Seq<UnclosedExperiment>)
    ensures
        selection(candidates, ReclaimPolicy::AllUnclosed) == candidates,
    decreases candidates.len(),
{
    reveal(Seq::filter);
    if candidates.len() > 0 {
        a_recovery_pass_covers_every_candidate(candidates.drop_last());
        assert(candidates.drop_last().push(candidates.last()) =~= candidates);
    } else {
        assert(selection(candidates, ReclaimPolicy::AllUnclosed) =~= candidates);
    }
}

/// The rows that were appended for a record: its stages, under its experiment.
pub open spec fn appends(rows: Seq<JournalRow>, record: RestoreRecord) -> bool {
    &&& rows.len() == record.appended().len()
    &&& forall|k: int| 0 <= k < rows.len() ==> crate::journal_scan::records_stage(
        #[trigger] rows[k],
        record.experiment_id,
        record.appended()[k],
    )
}

/// A restored experiment is closed, so no later pass rolls it back again.
pub proof fn a_restored_experiment_is_never_restored_again(
    rows: Seq<JournalRow>,
    appended: Seq<JournalRow>,
    later: Seq<JournalRow>,
    record: RestoreRecord,
    provider_id: Seq<char>,
    intent: int,
    snapshot: int,
)
    requires
        record.error is None,
        appends(appended, record),
        crate::journal_scan::leaked(rows + appended + later, provider_id, intent, snapshot),
    ensures
        (rows + appended + later)[intent].experiment_id != record.experiment_id,
{
    let now = rows + appended;
    let at = rows.len() as int + 1;
    assert(now[at] == appended[1]);
    assert(crate::journal_scan::records_stage(appended[1], record.experiment_id, "failed"@));
    assert(crate::journal_scan::records_stage(now[at], record.experiment_id, "failed"@));
    crate::journal_scan::a_closed_experiment_is_never_listed(
        now,
        later,
        provider_id,
        record.experiment_id,
        intent,
        snapshot,
    );
}

/// The journal once the rows of a pass were appended to it, record by record.
pub open spec fn extended(rows: Seq<JournalRow>, batches: Seq<Seq<JournalRow>>) -> Seq<JournalRow>
    decreases batches.len(),
{
    if batches.len() == 0 {
        rows
    } else {
        extended(rows, batches.drop_last()) + batches.last()
    }
}

/// Whether these are the records and the outcomes of a pass over the selected
/// experiments, one for each, in order.
pub open spec fn passes_over(
    selected: Seq<UnclosedExperiment>,
    provider_id: Seq<char>,
    records: Seq<RestoreRecord>,
    restorations: Seq<Restoration>,
) -> bool {
    &&& records.len() == selected.len()
    &&& restorations.len() == selected.len()
    &&& forall|k: int| 0 <= k < selected.len() ==> exists|outcome: Result<(), ProviderError>|
        attempt_noted(#[trigger] selected[k], provider_id, outcome, records[k], restorations[k])
}

/// What was in the journal before a pass is in it after the pass, at the same
/// place.
proof fn lemma_extended_keeps(rows: Seq<JournalRow>, batches: Seq<Seq<JournalRow>>)
    ensures
        extended(rows, batches).len() >= rows.len(),
        forall|i: int| 0 <= i < rows.len() ==> (#[trigger] extended(rows, batches)[i]) == rows[i],
    decreases batches.len(),
{
    if batches.len() > 0 {
        lemma_extended_keeps(rows, batches.drop_last());
    }
}

/// What is in the journal after a pass but was not before is of one of its
/// batches.
proof fn lemma_extended_adds(rows: Seq<JournalRow>, batches: Seq<Seq<JournalRow>>, at: int)
    requires
        rows.len() <= at < extended(rows, batches).len(),
    ensures
        exists|k: int, j: int|
            0 <= k < batches.len() && 0 <= j < batches[k].len() && #[trigger] batches[k][j] == extended(rows, batches)[at],
    decreases batches.len(),
{
    let fewer = batches.drop_last();
    if at < extended(rows, fewer).len() {
        lemma_extended_adds(rows, fewer, at);
        let (k, j) = choose|k: int, j: int|
            0 <= k < fewer.len() && 0 <= j < fewer[k].len() && #[trigger] fewer[k][j] == extended(rows, fewer)[at];
        assert(batches[k][j] == fewer[k][j]);
    } else {
        let k = batches.len() - 1;
        let j = at - extended(rows, fewer).len();
        assert(batches[k][j] == extended(rows, batches)[at]);
    }
}

/// Every row of a batch is in the journal after the pass.
proof fn lemma_batch_is_appended(rows: Seq<JournalRow>, batches: Seq<Seq<JournalRow>>, k: int, j: int)
    requires
        0 <= k < batches.len(),
        0 <= j < batches[k].len(),
    ensures
        exists|at: int|
            0 <= at < extended(rows, batches).len() && #[trigger] extended(rows, batches)[at] == batches[k][j],
    decreases batches.len(),
{
    let fewer = batches.drop_last();
    if k < batches.len() - 1 {
        assert(fewer[k] == batches[k]);
        lemma_batch_is_appended(rows, fewer, k, j);
        let at = choose|at: int|
            0 <= at < extended(rows, fewer).len() && #[trigger] extended(rows, fewer)[at] == fewer[k][j];
        assert(extended(rows, batches)[at] == batches[k][j]);
    } else {
        let at = extended(rows, fewer).len() + j;
        assert(extended(rows, batches)[at] == batches[k][j]);
    }
}

/// An experiment that was open before a pass whose restores all succeeded is
/// closed after it.
proof fn lemma_pass_closes(
    rows: Seq<JournalRow>,
    records: Seq<RestoreRecord>,
    batches: Seq<Seq<JournalRow>>,
    k: int,
)
    requires
        0 <= k < records.len(),
        batches.len() == records.len(),
        appends(batches[k], records[k]),
        records[k].error is None,
    ensures
        crate::journal_scan::closed(extended(rows, batches), records[k].experiment_id),
{
    let id = records[k].experiment_id;
    let all = extended(rows, batches);
    assert(crate::journal_scan::records_stage(batches[k][1], id, "failed"@));
    lemma_batch_is_appended(rows, batches, k, 1);
    let at = choose|at: int| 0 <= at < all.len() && #[trigger] all[at] == batches[k][1];
    assert(crate::journal_scan::records_stage(all[at], id, "failed"@));
}

/// A pass is idempotent: after a recovery pass whose restores all succeeded, and
/// whose records alone were appended to the journal, the journal lists nothing,
/// so a second pass of whatever policy selects nothing, calls no rollback and
/// appends no record.
pub proof fn a_second_pass_restores_nothing(
    rows: Seq<JournalRow>,
    listing: Seq<LeakedRow>,
    pairs: Seq<(int, int)>,
    candidates: Seq<UnclosedExperiment>,
    provider_id: Seq<char>,
    records: Seq<RestoreRecord>,
    restorations: Seq<Restoration>,
    batches: Seq<Seq<JournalRow>>,
    again: Seq<LeakedRow>,
    again_pairs: Seq<(int, int)>,
    again_candidates: Seq<UnclosedExperiment>,
    policy: ReclaimPolicy,
)
    requires
        crate::journal_scan::lists_leaks(listing, pairs, rows, provider_id),
        candidates.len() == listing.len(),
        forall|k: int| 0 <= k < listing.len() ==> (#[trigger] candidates[k]).experiment_id == listing[k].experiment_id,
        passes_over(selection(candidates, ReclaimPolicy::AllUnclosed), provider_id, records, restorations),
        forall|k: int| 0 <= k < restorations.len() ==> (#[trigger] restorations[k]).restored,
        batches.len() == records.len(),
        forall|k: int| 0 <= k < batches.len() ==> appends(#[trigger] batches[k], records[k]),
        crate::journal_scan::lists_leaks(again, again_pairs, extended(rows, batches), provider_id),
        again_candidates.len() == again.len(),
    ensures
        again.len() == 0,
        selection(again_candidates, policy).len() == 0,
{
    let all = extended(rows, batches);
    let selected = selection(candidates, ReclaimPolicy::AllUnclosed);
    a_recovery_pass_covers_every_candidate(candidates);
    if again.len() > 0 {
        let (intent, snapshot) = again_pairs[0];
        assert(again_pairs.contains((intent, snapshot)));
        assert(crate::journal_scan::leaked(all, provider_id, intent, snapshot));
        let id = all[intent].experiment_id;
        lemma_extended_keeps(rows, batches);
        lemma_appended_stages(rows, records, batches, intent);
        lemma_appended_stages(rows, records, batches, snapshot);
        assert(all[intent] == rows[intent]);
        assert(all[snapshot] == rows[snapshot]);
        if crate::journal_scan::closed(rows, id) {
            if crate::journal_scan::has_stage(rows, id, "completed"@) {
                let i = choose|i: int|
                    0 <= i < rows.len() && crate::journal_scan::records_stage(#[trigger] rows[i], id, "completed"@);
                assert(crate::journal_scan::records_stage(all[i], id, "completed"@));
            } else {
                let i = choose|i: int|
                    0 <= i < rows.len() && crate::journal_scan::records_stage(#[trigger] rows[i], id, "failed"@);
                assert(crate::journal_scan::records_stage(all[i], id, "failed"@));
            }
        } else {
            assert(crate::journal_scan::leaked(rows, provider_id, intent, snapshot));
            assert(pairs.contains((intent, snapshot)));
            let k = choose|k: int| 0 <= k < pairs.len() && pairs[k] == (intent, snapshot);
            assert(crate::journal_scan::entry_of(listing[k], rows, pairs[k]));
            assert(candidates[k].experiment_id == id);
            assert(selected[k] == candidates[k]);
            let outcome = choose|outcome: Result<(), ProviderError>|
                attempt_noted(selected[k], provider_id, outcome, records[k], restorations[k]);
            assert(restorations[k].restored);
            assert(appends(batches[k], records[k]));
            lemma_pass_closes(rows, records, batches, k);
        }
    }
    reveal(Seq::filter);
}

/// A pass appends no intent and no snapshot.
proof fn lemma_appended_stages(
    rows: Seq<JournalRow>,
    records: Seq<RestoreRecord>,
    batches: Seq<Seq<JournalRow>>,
    at: int,
)
    requires
        batches.len() == records.len(),
        forall|k: int| 0 <= k < batches.len() ==> appends(#[trigger] batches[k], records[k]),
        0 <= at < extended(rows, batches).len(),
        extended(rows, batches)[at].stage@ == "apply-intent"@ || extended(rows, batches)[at].stage@ == "snapshot"@,
    ensures
        at < rows.len(),
{
    if at >= rows.len() {
        reveal_strlit("watchdog-restore");
        reveal_strlit("failed");
        reveal_strlit("apply-intent");
        reveal_strlit("snapshot");
        assert("watchdog-restore"@.len() == 16 && "failed"@.len() == 6 && "apply-intent"@.len() == 12
            && "snapshot"@.len() == 8);
        lemma_extended_adds(rows, batches, at);
        let (k, j) = choose|k: int, j: int|
            0 <= k < batches.len() && 0 <= j < batches[k].len() && #[trigger] batches[k][j] == extended(rows, batches)[at];
        assert(appends(batches[k], records[k]));
        assert(crate::journal_scan::records_stage(
            batches[k][j],
            records[k].experiment_id,
            records[k].appended()[j],
        ));
    }
}

/// An experiment whose restore failed stays listed, so a later pass retries it.
pub proof fn a_failed_restore_is_retried(
    rows: Seq<JournalRow>,
    appended: Seq<JournalRow>,
    record: RestoreRecord,
    provider_id: Seq<char>,
    intent: int,
    snapshot: int,
)
    requires
        record.error is Some,
        appends(appended, record),
        crate::journal_scan::leaked(rows, provider_id, intent, snapshot),
    ensures
        crate::journal_scan::leaked(rows + appended, provider_id, intent, snapshot),
{
    reveal_strlit("watchdog-restore");
    reveal_strlit("failed");
    reveal_strlit("completed");
    assert("watchdog-restore"@.len() == 16 && "failed"@.len() == 6 && "completed"@.len() == 9);
    crate::journal_scan::an_open_experiment_stays_listed(rows, appended, provider_id, intent, snapshot);
}

/// A restore of the mock provider always takes it back to the journaled value.
pub proof fn a_mock_restore_reaches_the_baseline(
    before: crate::mock::MockProvider,
    snapshot: StateSnapshot,
    value: u64,
    after: crate::mock::MockProvider,
    outcome: Result<(), ProviderError>,
)
    requires
        snapshot@ == crate::mock::mock_snapshot(value),
        restored(before, snapshot, after, outcome),
    ensures
        outcome is Ok,
        after.setting() == value,
{
    assert(crate::json::unsigned_member(snapshot@.state, "value"@) == Some(value));
}

} // verus!
