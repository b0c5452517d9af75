//! What crash recovery and lease reclamation come to, in terms of the journal.
use vstd::prelude::*;

use crate::contracts::StateSnapshot;
use crate::journal_scan::{JournalRow, LeakedRow};
use crate::json::JsonView;
use crate::provider::{Provider, ProviderError};
use crate::watchdog::{
    lease_expired, reclaim, ArgsView, Config, ReclaimPass, ReclaimPolicy, ReclaimReason, Restoration, RestoreRecord, UnclosedExperiment,
};

verus! {

/// A pass decides on each candidate by itself: joined candidates are selected as
/// the one part and then the other, a candidate whose lease has expired is
/// selected by every policy, and one whose lease is live only by recovery.
pub proof fn each_candidate_is_decided_by_itself(
    first: Seq<UnclosedExperiment>,
    second: Seq<UnclosedExperiment>,
    one: UnclosedExperiment,
    policy: ReclaimPolicy,
)
    ensures
        crate::watchdog::selection(first + second, policy) == crate::watchdog::selection(first, policy)
            + crate::watchdog::selection(second, policy),
        crate::watchdog::selection(seq![one], policy) == if one.lease_expired || policy == ReclaimPolicy::AllUnclosed {
            seq![one]
        } else {
            Seq::empty()
        },
        crate::watchdog::selection(Seq::empty(), policy) == Seq::<UnclosedExperiment>::empty(),
    decreases second.len(),
{
    reveal(Seq::filter);
    let chosen = |experiment: UnclosedExperiment| experiment.chosen_by(policy);
    assert(Seq::<UnclosedExperiment>::empty().filter(chosen) =~= Seq::empty());
    assert(seq![one].drop_last() =~= Seq::empty());
    assert(seq![one].last() == one);
    assert(seq![one].filter(chosen) =~= if chosen(one) { seq![one] } else { Seq::empty() });
    if second.len() == 0 {
        assert(first + second =~= first);
        assert(crate::watchdog::selection(second, policy) =~= Seq::empty());
        assert(crate::watchdog::selection(first, policy) + Seq::empty() =~= crate::watchdog::selection(first, policy));
    } else {
        each_candidate_is_decided_by_itself(first, second.drop_last(), one, policy);
        assert((first + second).drop_last() =~= first + second.drop_last());
        assert((first + second).last() == second.last());
        assert((first + second).filter(chosen) =~= first.filter(chosen) + second.filter(chosen));
    }
}

/// A steady-state pass is complete: every candidate whose lease has expired is
/// selected, as often as it is a candidate, and no other is.
pub proof fn every_expired_lease_is_reclaimed(candidates: Seq<UnclosedExperiment>, one: UnclosedExperiment)
    ensures
        crate::watchdog::selection(candidates, ReclaimPolicy::ExpiredLeasesOnly).to_multiset().count(one)
            == if one.lease_expired { candidates.to_multiset().count(one) } else { 0 },
        crate::watchdog::selection(candidates, ReclaimPolicy::AllUnclosed).to_multiset().count(one)
            == candidates.to_multiset().count(one),
    decreases candidates.len(),
{
    broadcast use {vstd::multiset::group_multiset_axioms, vstd::seq_lib::group_to_multiset_ensures};

    if candidates.len() == 0 {
        each_candidate_is_decided_by_itself(candidates, candidates, one, ReclaimPolicy::ExpiredLeasesOnly);
        each_candidate_is_decided_by_itself(candidates, candidates, one, ReclaimPolicy::AllUnclosed);
        assert(candidates =~= Seq::empty());
    } else {
        let rest = candidates.drop_last();
        let last = candidates.last();
        every_expired_lease_is_reclaimed(rest, one);
        assert(candidates =~= rest + seq![last]);
        assert(candidates =~= rest.push(last));
        each_candidate_is_decided_by_itself(rest, seq![last], last, ReclaimPolicy::ExpiredLeasesOnly);
        each_candidate_is_decided_by_itself(rest, seq![last], last, ReclaimPolicy::AllUnclosed);
        let steady = crate::watchdog::selection(rest, ReclaimPolicy::ExpiredLeasesOnly);
        let all = crate::watchdog::selection(rest, ReclaimPolicy::AllUnclosed);
        assert(steady + seq![last] =~= steady.push(last));
        assert(steady + Seq::empty() =~= steady);
        assert(all + seq![last] =~= all.push(last));
    }
}

/// What is noted of an attempt is about the experiment that was attempted, and
/// says that it was restored exactly where it was.
pub proof fn an_attempt_is_noted_as_it_went(
    experiment: UnclosedExperiment,
    provider_id: Seq<char>,
    outcome: Result<(), ProviderError>,
    record: RestoreRecord,
    restoration: Restoration,
)
    requires
        crate::watchdog::attempt_noted(experiment, provider_id, outcome, record, restoration),
    ensures
        record.experiment_id == experiment.experiment_id,
        restoration.experiment_id == experiment.experiment_id,
        record.provider_id@ == provider_id,
        record.snapshot == experiment.snapshot,
        restoration.lease_seconds == experiment.request.lease_seconds,
        experiment.lease_expired ==> record.reason == ReclaimReason::LeaseExpired && restoration.reason
            == ReclaimReason::LeaseExpired,
        !experiment.lease_expired ==> record.reason == ReclaimReason::CrashRecovery && restoration.reason
            == ReclaimReason::CrashRecovery,
        outcome is Ok <==> restoration.restored,
        outcome is Ok <==> record.error is None,
        outcome is Ok <==> restoration.error is None,
        outcome matches Err(error) ==> record.error->0@ == error.sentence() && restoration.error->0@
            == error.sentence(),
{
}

/// A restore is a success only where the provider rolled back to the snapshot and
/// was then seen to have exactly that state.
pub proof fn a_restore_is_believed_only_when_seen<P: Provider>(
    before: P,
    snapshot: StateSnapshot,
    after: P,
    outcome: Result<(), ProviderError>,
)
    requires
        crate::watchdog::restored(before, snapshot, after, outcome),
    ensures
        exists|rollback: Result<(), ProviderError>| #[trigger] before.may_rollback(snapshot, after, rollback),
        outcome is Ok ==> exists|rollback: Result<(), ProviderError>| #[trigger]
            before.may_rollback(snapshot, after, rollback) && rollback is Ok,
        outcome is Ok ==> exists|probe: Result<StateSnapshot, ProviderError>| #[trigger]
            after.may_snapshot(probe) && (probe matches Ok(now) && now@ == snapshot@),
        (forall|rollback: Result<(), ProviderError>| #[trigger]
            before.may_rollback(snapshot, after, rollback) ==> rollback is Ok) && (forall|
            probe: Result<StateSnapshot, ProviderError>,
        | #[trigger] after.may_snapshot(probe) ==> (probe matches Ok(now) && now@ == snapshot@)) ==> outcome is Ok,
{
    let rollback = choose|rollback: Result<(), ProviderError>| #[trigger]
        before.may_rollback(snapshot, after, rollback) && match rollback {
            Err(error) => outcome == Err::<(), ProviderError>(error),
            Ok(_) => exists|probe: Result<StateSnapshot, ProviderError>| #[trigger]
                after.may_snapshot(probe) && match probe {
                    Err(error) => outcome == Err::<(), ProviderError>(error),
                    Ok(now) => if now@ == snapshot@ {
                        outcome is Ok
                    } else {
                        outcome is Err
                    },
                },
        };
    assert(before.may_rollback(snapshot, after, rollback));
    if rollback is Ok {
        let probe = choose|probe: Result<StateSnapshot, ProviderError>| #[trigger]
            after.may_snapshot(probe) && match probe {
                Err(error) => outcome == Err::<(), ProviderError>(error),
                Ok(now) => if now@ == snapshot@ {
                    outcome is Ok
                } else {
                    outcome is Err
                },
            };
        assert(after.may_snapshot(probe));
    }
}

/// A restored experiment is recorded and closed, in that order; one that could
/// not be restored is recorded and stays open.
pub proof fn a_restore_closes_its_experiment_and_a_failure_does_not(record: RestoreRecord)
    ensures
        record.appended().len() >= 1,
        record.appended()[0] == "watchdog-restore"@,
        record.error is None ==> record.appended().len() == 2 && record.appended()[1] == "failed"@,
        record.error is Some ==> record.appended().len() == 1,
{
}

/// The record of a restore says why, whether it succeeded, from which snapshot
/// and, where it failed, how.
pub proof fn a_restore_record_says_what_was_done(record: RestoreRecord)
    ensures
        ({
            let told = record.restore_json();
            &&& crate::json::member(told, "reason"@) == Some(
                JsonView::Text(
                    if record.reason == ReclaimReason::LeaseExpired {
                        "lease-expired"@
                    } else {
                        "crash-recovery"@
                    },
                ),
            )
            &&& crate::json::member(told, "restored"@) == Some(JsonView::Bool(record.error is None))
            &&& crate::json::member(told, "snapshot"@) is Some
            &&& crate::json::member(crate::json::member(told, "snapshot"@)->0, "state"@) == Some(record.snapshot.state@)
            &&& crate::json::member(crate::json::member(told, "snapshot"@)->0, "provider_id"@) == Some(
                JsonView::Text(record.snapshot.provider_id@),
            )
            &&& crate::json::member(told, "error"@) == match record.error {
                Some(why) => Some(JsonView::Text(why@)),
                None => None,
            }
        }),
        ({
            let closing = record.terminal_json();
            &&& crate::json::member(closing, "kind"@) == Some(JsonView::Text("watchdog-reclaimed"@))
            &&& crate::json::member(closing, "stage"@) == Some(JsonView::Text("watchdog"@))
            &&& crate::json::member(closing, "reason"@) == crate::json::member(record.restore_json(), "reason"@)
            &&& crate::json::member(closing, "error"@) == Some(
                JsonView::Text(
                    if record.reason == ReclaimReason::LeaseExpired {
                        "watchdog restored prior state after the TTL lease expired"@
                    } else {
                        "watchdog restored prior state after detecting an unclosed experiment"@
                    },
                ),
            )
        }),
{
    reveal_strlit("reason");
    reveal_strlit("restored");
    reveal_strlit("snapshot");
    reveal_strlit("error");
    reveal_strlit("kind");
    reveal_strlit("stage");
    reveal_strlit("state");
    reveal_strlit("provider_id");
    assert("reason"@.len() == 6 && "restored"@.len() == 8 && "snapshot"@.len() == 8 && "error"@.len() == 5);
    assert("restored"@[0] == 'r' && "snapshot"@[0] == 's');
    assert("kind"@.len() == 4 && "stage"@.len() == 5 && "stage"@[0] == 's' && "error"@[0] == 'e');
    assert("state"@.len() == 5 && "provider_id"@.len() == 11);
}

/// The journal lists an experiment exactly where one of its rows is a write-ahead
/// intent of that provider, one is its snapshot, and none closes it.
pub proof fn an_experiment_is_listed_exactly_when_left_open(
    listing: Seq<LeakedRow>,
    pairs: Seq<(int, int)>,
    rows: Seq<JournalRow>,
    provider_id: Seq<char>,
    id: i64,
)
    requires
        crate::journal_scan::lists_leaks(listing, pairs, rows, provider_id),
    ensures
        (exists|k: int| 0 <= k < listing.len() && (#[trigger] listing[k]).experiment_id == id) <==> {
            &&& exists|i: int|
                0 <= i < rows.len() && (#[trigger] rows[i]).experiment_id == id && rows[i].stage@ == "apply-intent"@
                    && rows[i].provider_id@ == provider_id
            &&& exists|i: int|
                0 <= i < rows.len() && (#[trigger] rows[i]).experiment_id == id && rows[i].stage@ == "snapshot"@
            &&& forall|i: int|
                0 <= i < rows.len() && (#[trigger] rows[i]).experiment_id == id ==> rows[i].stage@ != "completed"@
                    && rows[i].stage@ != "failed"@
        },
{
    if exists|k: int| 0 <= k < listing.len() && (#[trigger] listing[k]).experiment_id == id {
        let k = choose|k: int| 0 <= k < listing.len() && (#[trigger] listing[k]).experiment_id == id;
        let (intent, snapshot) = pairs[k];
        assert(crate::journal_scan::entry_of(listing[k], rows, pairs[k]));
        assert(pairs.contains((intent, snapshot)));
        assert(crate::journal_scan::leaked(rows, provider_id, intent, snapshot));
        assert(rows[intent].experiment_id == id);
        assert(rows[snapshot].experiment_id == id);
        assert forall|i: int| 0 <= i < rows.len() && (#[trigger] rows[i]).experiment_id == id implies rows[i].stage@
            != "completed"@ && rows[i].stage@ != "failed"@ by {
            assert(!crate::journal_scan::records_stage(rows[i], id, "completed"@));
            assert(!crate::journal_scan::records_stage(rows[i], id, "failed"@));
        }
    }
    let has_intent = exists|i: int|
        0 <= i < rows.len() && (#[trigger] rows[i]).experiment_id == id && rows[i].stage@ == "apply-intent"@
            && rows[i].provider_id@ == provider_id;
    let has_snapshot = exists|i: int|
        0 <= i < rows.len() && (#[trigger] rows[i]).experiment_id == id && rows[i].stage@ == "snapshot"@;
    let open = forall|i: int|
        0 <= i < rows.len() && (#[trigger] rows[i]).experiment_id == id ==> rows[i].stage@ != "completed"@
            && rows[i].stage@ != "failed"@;
    if has_intent && has_snapshot && open {
        let intent = choose|i: int|
            0 <= i < rows.len() && (#[trigger] rows[i]).experiment_id == id && rows[i].stage@ == "apply-intent"@
                && rows[i].provider_id@ == provider_id;
        let snapshot = choose|i: int|
            0 <= i < rows.len() && (#[trigger] rows[i]).experiment_id == id && rows[i].stage@ == "snapshot"@;
        assert forall|i: int| 0 <= i < rows.len() implies !crate::journal_scan::records_stage(
            #[trigger] rows[i],
            id,
            "completed"@,
        ) && !crate::journal_scan::records_stage(rows[i], id, "failed"@) by {}
        assert(crate::journal_scan::leaked(rows, provider_id, intent, snapshot));
        assert(pairs.contains((intent, snapshot)));
        let k = choose|k: int| 0 <= k < pairs.len() && pairs[k] == (intent, snapshot);
        assert(crate::journal_scan::entry_of(listing[k], rows, pairs[k]));
    }
}

/// What is listed of an experiment are its own rows: the snapshot that it is to be
/// restored from, the change that was under way, and the age of its intent.
pub proof fn a_listed_experiment_has_its_own_rows(
    listing: Seq<LeakedRow>,
    pairs: Seq<(int, int)>,
    rows: Seq<JournalRow>,
    provider_id: Seq<char>,
    at: int,
)
    requires
        crate::journal_scan::lists_leaks(listing, pairs, rows, provider_id),
        0 <= at < listing.len(),
    ensures
        exists|i: int|
            0 <= i < rows.len() && (#[trigger] rows[i]).experiment_id == listing[at].experiment_id && rows[i].stage@
                == "apply-intent"@ && rows[i].payload == listing[at].intent_payload && rows[i].age_seconds
                == listing[at].age_seconds,
        exists|i: int|
            0 <= i < rows.len() && (#[trigger] rows[i]).experiment_id == listing[at].experiment_id && rows[i].stage@
                == "snapshot"@ && rows[i].payload == listing[at].snapshot_payload,
        at > 0 ==> listing[at - 1].experiment_id <= listing[at].experiment_id,
{
    let (intent, snapshot) = pairs[at];
    assert(crate::journal_scan::entry_of(listing[at], rows, pairs[at]));
    assert(pairs.contains((intent, snapshot)));
    assert(crate::journal_scan::leaked(rows, provider_id, intent, snapshot));
    assert(rows[intent].stage@ == "apply-intent"@);
    assert(rows[snapshot].stage@ == "snapshot"@);
    if at > 0 {
        assert(listing[at - 1].experiment_id <= listing[at].experiment_id);
    }
}

/// An experiment is reported as dangling exactly where one of its rows is a
/// write-ahead intent and none closes it, whoever its provider is.
pub proof fn an_experiment_dangles_exactly_when_left_open(rows: Seq<JournalRow>, id: i64)
    ensures
        crate::journal_scan::dangling(rows).contains(id) <==> {
            &&& exists|i: int|
                0 <= i < rows.len() && (#[trigger] rows[i]).experiment_id == id && rows[i].stage@ == "apply-intent"@
            &&& forall|i: int|
                0 <= i < rows.len() && (#[trigger] rows[i]).experiment_id == id ==> rows[i].stage@ != "completed"@
                    && rows[i].stage@ != "failed"@
        },
{
    if crate::journal_scan::dangling(rows).contains(id) {
        let i = choose|i: int|
            0 <= i < rows.len() && crate::journal_scan::records_stage(#[trigger] rows[i], id, "apply-intent"@);
        assert(rows[i].experiment_id == id);
        assert forall|i: int| 0 <= i < rows.len() && (#[trigger] rows[i]).experiment_id == id implies rows[i].stage@
            != "completed"@ && rows[i].stage@ != "failed"@ by {
            assert(!crate::journal_scan::records_stage(rows[i], id, "completed"@));
            assert(!crate::journal_scan::records_stage(rows[i], id, "failed"@));
        }
    }
    let has_intent = exists|i: int|
        0 <= i < rows.len() && (#[trigger] rows[i]).experiment_id == id && rows[i].stage@ == "apply-intent"@;
    let open = forall|i: int|
        0 <= i < rows.len() && (#[trigger] rows[i]).experiment_id == id ==> rows[i].stage@ != "completed"@
            && rows[i].stage@ != "failed"@;
    if has_intent && open {
        let i = choose|i: int|
            0 <= i < rows.len() && (#[trigger] rows[i]).experiment_id == id && rows[i].stage@ == "apply-intent"@;
        assert(crate::journal_scan::records_stage(rows[i], id, "apply-intent"@));
        assert forall|i: int| 0 <= i < rows.len() implies !crate::journal_scan::records_stage(
            #[trigger] rows[i],
            id,
            "completed"@,
        ) && !crate::journal_scan::records_stage(rows[i], id, "failed"@) by {}
    }
}

/// A new experiment gets the id after the highest in use, and the first one gets
/// one.
pub proof fn a_new_id_follows_the_highest(ids: Seq<i64>, id: i64)
    requires
        crate::journal_scan::next_id(ids, id as int),
    ensures
        ids.len() == 0 ==> id == 1,
        ids.len() > 0 ==> exists|i: int| 0 <= i < ids.len() && #[trigger] ids[i] + 1 == id,
        forall|i: int| 0 <= i < ids.len() ==> (#[trigger] ids[i]) < id,
{
    if ids.len() > 0 {
        let before = (id - 1) as i64;
        assert(ids.contains(before));
        let i = choose|i: int| 0 <= i < ids.len() && ids[i] == before;
        if id == i64::MIN {
            assert(ids[i] < id);
        }
        assert(ids[i] + 1 == id);
    }
}

/// What a command line says is what its parts say, one after the other: a flag
/// with a value replaces what was said before, a switch stays on, and anything
/// else says nothing.
pub proof fn the_parts_of_a_command_line_add_up(rest: Seq<Seq<char>>, value: Seq<char>, other: Seq<char>, said: ArgsView)
    requires
        other != "--journal"@,
        other != "--interval"@,
        other != "--once"@,
        other != "--recover-all"@,
    ensures
        crate::watchdog::read_args(Seq::empty(), said) == said,
        crate::watchdog::read_args(seq!["--journal"@, value] + rest, said) == crate::watchdog::read_args(
            rest,
            (ArgsView { journal: Some(value), ..said }),
        ),
        crate::watchdog::read_args(seq!["--interval"@, value] + rest, said) == crate::watchdog::read_args(
            rest,
            (ArgsView {
                interval_seconds: match crate::text::unsigned_value(value) {
                    Some(seconds) => if seconds == 0 { 1 } else { seconds },
                    None => said.interval_seconds,
                },
                ..said
            }),
        ),
        crate::watchdog::read_args(seq!["--once"@] + rest, said) == crate::watchdog::read_args(
            rest,
            (ArgsView { once: true, ..said }),
        ),
        crate::watchdog::read_args(seq!["--recover-all"@] + rest, said) == crate::watchdog::read_args(
            rest,
            (ArgsView { recover_all: true, ..said }),
        ),
        crate::watchdog::read_args(seq![other] + rest, said) == crate::watchdog::read_args(rest, said),
        crate::watchdog::nothing_said().journal is None,
        crate::watchdog::nothing_said().interval_seconds == 5,
        !crate::watchdog::nothing_said().once,
        !crate::watchdog::nothing_said().recover_all,
{
    reveal_strlit("--journal");
    reveal_strlit("--interval");
    reveal_strlit("--once");
    reveal_strlit("--recover-all");
    assert("--journal"@.len() == 9 && "--interval"@.len() == 10 && "--once"@.len() == 6 && "--recover-all"@.len()
        == 13);
    assert((seq!["--journal"@, value] + rest).skip(2) =~= rest);
    assert((seq!["--interval"@, value] + rest).skip(2) =~= rest);
    assert((seq!["--once"@] + rest).skip(1) =~= rest);
    assert((seq!["--recover-all"@] + rest).skip(1) =~= rest);
    assert((seq![other] + rest).skip(1) =~= rest);
}

/// A steady-state pass waits for exactly the candidates whose lease has expired:
/// each as often as it is a candidate, in the order of the candidates, and none
/// has been attempted yet.
pub proof fn a_steady_pass_misses_no_expired_lease(
    candidates: Vec<UnclosedExperiment>,
    pass: ReclaimPass,
    one: UnclosedExperiment,
)
    requires
        call_ensures(reclaim, (candidates, ReclaimPolicy::ExpiredLeasesOnly), pass),
    ensures
        pass.restorations@.len() == 0,
        pass.waiting@.to_multiset().count(one) == if one.lease_expired { candidates@.to_multiset().count(one) } else {
            0
        },
        (forall|i: int| 0 <= i < candidates@.len() ==> (#[trigger] candidates@[i]).lease_expired) ==> pass.waiting@
            == candidates@,
        (forall|i: int| 0 <= i < candidates@.len() ==> !(#[trigger] candidates@[i]).lease_expired)
            ==> pass.waiting@.len() == 0,
{
    every_expired_lease_is_reclaimed(candidates@, one);
    lemma_an_expired_run_is_kept(candidates@);
}

/// Candidates that have all expired are all selected, and of candidates that are
/// all live none is.
proof fn lemma_an_expired_run_is_kept(candidates: Seq<UnclosedExperiment>)
    ensures
        (forall|i: int| 0 <= i < candidates.len() ==> (#[trigger] candidates[i]).lease_expired)
            ==> crate::watchdog::selection(candidates, ReclaimPolicy::ExpiredLeasesOnly) == candidates,
        (forall|i: int| 0 <= i < candidates.len() ==> !(#[trigger] candidates[i]).lease_expired)
            ==> crate::watchdog::selection(candidates, ReclaimPolicy::ExpiredLeasesOnly).len() == 0,
    decreases candidates.len(),
{
    if candidates.len() > 0 {
        let rest = candidates.drop_last();
        let last = candidates.last();
        lemma_an_expired_run_is_kept(rest);
        each_candidate_is_decided_by_itself(rest, seq![last], last, ReclaimPolicy::ExpiredLeasesOnly);
        assert(candidates =~= rest + seq![last]);
        assert(last == candidates[candidates.len() - 1]);
        if forall|i: int| 0 <= i < candidates.len() ==> (#[trigger] candidates[i]).lease_expired {
            assert forall|i: int| 0 <= i < rest.len() implies (#[trigger] rest[i]).lease_expired by {
                assert(rest[i] == candidates[i]);
            }
        }
        if forall|i: int| 0 <= i < candidates.len() ==> !(#[trigger] candidates[i]).lease_expired {
            assert forall|i: int| 0 <= i < rest.len() implies !(#[trigger] rest[i]).lease_expired by {
                assert(rest[i] == candidates[i]);
            }
        }
    } else {
        each_candidate_is_decided_by_itself(
            candidates,
            candidates,
            arbitrary(),
            ReclaimPolicy::ExpiredLeasesOnly,
        );
        assert(candidates =~= Seq::empty());
    }
}

/// Experiments are selected in the order in which they were candidates.
pub proof fn the_selected_stay_in_order(candidates: Seq<UnclosedExperiment>, early: int, late: int, policy: ReclaimPolicy)
    requires
        0 <= early < late < candidates.len(),
        candidates[early].lease_expired || policy == ReclaimPolicy::AllUnclosed,
        candidates[late].lease_expired || policy == ReclaimPolicy::AllUnclosed,
    ensures
        exists|i: int, j: int|
            0 <= i < j < crate::watchdog::selection(candidates, policy).len() && #[trigger] crate::watchdog::selection(
                candidates,
                policy,
            )[i] == candidates[early] && #[trigger] crate::watchdog::selection(candidates, policy)[j]
                == candidates[late],
{
    let (a, b) = (candidates[early], candidates[late]);
    let front = candidates.take(early);
    let middle = candidates.subrange(early + 1, late);
    let back = candidates.skip(late + 1);
    let all = crate::watchdog::selection(candidates, policy);
    let kept_front = crate::watchdog::selection(front, policy);
    let kept_middle = crate::watchdog::selection(middle, policy);
    let kept_back = crate::watchdog::selection(back, policy);
    assert(candidates =~= front + (seq![a] + (middle + (seq![b] + back))));
    each_candidate_is_decided_by_itself(front, seq![a] + (middle + (seq![b] + back)), a, policy);
    each_candidate_is_decided_by_itself(seq![a], middle + (seq![b] + back), a, policy);
    each_candidate_is_decided_by_itself(middle, seq![b] + back, b, policy);
    each_candidate_is_decided_by_itself(seq![b], back, b, policy);
    assert(all == kept_front + (seq![a] + (kept_middle + (seq![b] + kept_back))));
    let i = kept_front.len() as int;
    let j = i + 1 + kept_middle.len();
    assert(all[i] == a);
    assert(all[j] == b);
}

/// A lease has elapsed once the write-ahead record is as old as the lease is
/// long, and stays so; without a sound age it has not. A longer lease never
/// elapses sooner.
pub proof fn a_lease_elapses_with_age(age: Option<i64>, lease: u64, expired: bool, longer: u64, still: bool)
    requires
        call_ensures(lease_expired, (age, lease), expired),
        call_ensures(lease_expired, (age, longer), still),
        lease <= longer,
    ensures
        age is None ==> !expired,
        age matches Some(seconds) ==> (seconds < 0 ==> !expired),
        age matches Some(seconds) ==> (seconds >= 0 ==> (expired <==> lease <= seconds)),
        still ==> expired,
{
}

/// What a process is to do follows from its command line: the journal named last
/// before the one inherited, the policy of its recovery switch, and a single pass
/// for a recovery.
pub proof fn a_watchdog_runs_as_it_is_told(
    args: Vec<String>,
    inherited: Option<String>,
    config: Config,
    policy: ReclaimPolicy,
)
    requires
        call_ensures(Config::from_args, (&args, inherited), config),
        call_ensures(Config::policy, (&config,), policy),
    ensures
        policy == ReclaimPolicy::AllUnclosed <==> config.recover_all,
        policy == ReclaimPolicy::ExpiredLeasesOnly <==> !config.recover_all,
        config.recover_all ==> config.once,
        args@.len() == 0 ==> !config.once && config.interval_seconds == 5 && config.journal_path@ == match inherited {
            Some(path) => path@,
            None => "fpsmaxxing-journal.sqlite"@,
        },
        args@.len() == 2 && args@[0]@ == "--journal"@ ==> config.journal_path@ == args@[1]@,
        args@.len() == 1 && args@[0]@ == "--recover-all"@ ==> config.recover_all,
        args@.len() == 1 && args@[0]@ == "--once"@ ==> config.once && !config.recover_all,
{
    let all = crate::watchdog::texts(args@);
    let none = crate::watchdog::nothing_said();
    let other = Seq::<char>::empty();
    reveal_strlit("--journal");
    reveal_strlit("--interval");
    reveal_strlit("--once");
    reveal_strlit("--recover-all");
    assert("--journal"@.len() == 9 && "--interval"@.len() == 10 && "--once"@.len() == 6 && "--recover-all"@.len()
        == 13);
    if args@.len() > 0 {
        assert(all[0] == args@[0]@);
    }
    if args@.len() == 2 && args@[0]@ == "--journal"@ {
        assert(all =~= seq!["--journal"@, args@[1]@] + Seq::empty());
        the_parts_of_a_command_line_add_up(Seq::empty(), args@[1]@, other, none);
    }
    if args@.len() == 1 && args@[0]@ == "--recover-all"@ {
        assert(all =~= seq!["--recover-all"@] + Seq::empty());
        the_parts_of_a_command_line_add_up(Seq::empty(), other, other, none);
    }
    if args@.len() == 1 && args@[0]@ == "--once"@ {
        assert(all =~= seq!["--once"@] + Seq::empty());
        the_parts_of_a_command_line_add_up(Seq::empty(), other, other, none);
    }
}

/// The line about an attempt names the experiment and why it was attempted, with
/// the lease of one that was restored and the failure of one that was not.
pub proof fn a_line_says_how_an_attempt_went(attempt: Restoration)
    ensures
        ({
            let about = crate::text::signed_digits(attempt.experiment_id as int) + " ("@ + if attempt.reason
                == ReclaimReason::LeaseExpired {
                "lease expired"@
            } else {
                "crash recovery"@
            };
            &&& attempt.restored ==> attempt.line() == "fpsmaxxing-watchdog: restored experiment "@ + about + ", lease "@
                + crate::text::decimal_digits(attempt.lease_seconds as nat) + "s)"@
            &&& !attempt.restored ==> attempt.line() == "fpsmaxxing-watchdog: could not restore experiment "@ + about
                + "): "@ + match attempt.error {
                Some(why) => why@,
                None => "unknown error"@,
            }
        }),
{
    let about = crate::text::signed_digits(attempt.experiment_id as int) + " ("@ + attempt.reason.words();
    if attempt.restored {
        assert(attempt.line() =~= "fpsmaxxing-watchdog: restored experiment "@ + about + ", lease "@
            + crate::text::decimal_digits(attempt.lease_seconds as nat) + "s)"@);
    } else {
        assert(attempt.line() =~= "fpsmaxxing-watchdog: could not restore experiment "@ + about + "): "@
            + match attempt.error {
            Some(why) => why@,
            None => "unknown error"@,
        });
    }
}

} // verus!
