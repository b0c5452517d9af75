//! What the rows of the experiment journal say about its experiments.
use vstd::prelude::*;

use crate::text::same_text;

verus! {

/// One row of the experiment journal.
#[derive(Clone, Debug)]
pub struct JournalRow {
    /// Correlation id shared by every row of one experiment.
    pub experiment_id: i64,
    /// Name of the stage the row records.
    pub stage: String,
    /// Provider that owns the change.
    pub provider_id: String,
    /// What the row holds, as JSON text.
    pub payload: String,
    /// Age of the row by the journal's own clock, where that could be told.
    pub age_seconds: Option<i64>,
}

/// Whether a row records that stage of that experiment.
pub open spec fn records_stage(row: JournalRow, experiment_id: i64, stage: Seq<char>) -> bool {
    row.experiment_id == experiment_id && row.stage@ == stage
}

/// Whether the experiment has a row of that stage.
pub open spec fn has_stage(rows: Seq<JournalRow>, experiment_id: i64, stage: Seq<char>) -> bool {
    exists|i: int| 0 <= i < rows.len() && records_stage(#[trigger] rows[i], experiment_id, stage)
}

/// Whether the experiment has a terminal record.
pub open spec fn closed(rows: Seq<JournalRow>, experiment_id: i64) -> bool {
    has_stage(rows, experiment_id, "completed"@) || has_stage(rows, experiment_id, "failed"@)
}

/// Whether row `intent` is the write-ahead record of an experiment of that
/// provider that has no terminal record, and row `snapshot` holds its pre-state.
pub open spec fn leaked(rows: Seq<JournalRow>, provider_id: Seq<char>, intent: int, snapshot: int) -> bool {
    &&& 0 <= intent < rows.len()
    &&& 0 <= snapshot < rows.len()
    &&& rows[intent].stage@ == "apply-intent"@
    &&& rows[intent].provider_id@ == provider_id
    &&& records_stage(rows[snapshot], rows[intent].experiment_id, "snapshot"@)
    &&& !closed(rows, rows[intent].experiment_id)
}

/// An experiment left open, as the journal holds it.
#[derive(Debug)]
pub struct LeakedRow {
    /// Correlation id of the experiment.
    pub experiment_id: i64,
    /// The journaled pre-state, as JSON text.
    pub snapshot_payload: String,
    /// The journaled change request, as JSON text.
    pub intent_payload: String,
    /// Age of the write-ahead record.
    pub age_seconds: Option<i64>,
}

/// The entry of one pair of rows.
pub open spec fn entry_of(entry: LeakedRow, rows: Seq<JournalRow>, pair: (int, int)) -> bool {
    &&& entry.experiment_id == rows[pair.0].experiment_id
    &&& entry.snapshot_payload == rows[pair.1].payload
    &&& entry.intent_payload == rows[pair.0].payload
    &&& entry.age_seconds == rows[pair.0].age_seconds
}

/// The listing holds an entry for every leaked pair of rows and for no other,
/// ordered by experiment; `pairs` says which entry is of which rows.
pub open spec fn lists_leaks(
    listing: Seq<LeakedRow>,
    pairs: Seq<(int, int)>,
    rows: Seq<JournalRow>,
    provider_id: Seq<char>,
) -> bool {
    &&& listing.len() == pairs.len()
    &&& pairs.no_duplicates()
    &&& forall|k: int| 0 <= k < pairs.len() ==> entry_of(#[trigger] listing[k], rows, pairs[k])
    &&& forall|intent: int, snapshot: int| #[trigger]
        pairs.contains((intent, snapshot)) <==> leaked(rows, provider_id, intent, snapshot)
    &&& forall|a: int, b: int| #![trigger listing[a], listing[b]]
        0 <= a < b < listing.len() ==> listing[a].experiment_id <= listing[b].experiment_id
}

/// Whether the experiment has a row of that stage.
fn find_stage(rows: &Vec<JournalRow>, experiment_id: i64, stage: &str) -> (found: bool)
    ensures
        found == has_stage(rows@, experiment_id, stage@),
{
    let mut i: usize = 0;
    while i < rows.len()
        invariant
            i <= rows.len(),
            forall|j: int| 0 <= j < i ==> !records_stage(#[trigger] rows[j], experiment_id, stage@),
        decreases rows.len() - i,
    {
        if rows[i].experiment_id == experiment_id && same_text(rows[i].stage.as_str(), stage) {
            assert(records_stage(rows[i as int], experiment_id, stage@));
            return true;
        }
        i = i + 1;
    }
    false
}

/// Whether the experiment has a terminal record.
pub fn is_closed(rows: &Vec<JournalRow>, experiment_id: i64) -> (yes: bool)
    ensures
        yes == closed(rows@, experiment_id),
{
    find_stage(rows, experiment_id, "completed") || find_stage(rows, experiment_id, "failed")
}

/// Where an entry of that experiment belongs: after all of experiments that are
/// not later.
fn insertion_point(listing: &Vec<LeakedRow>, experiment_id: i64) -> (at: usize)
    requires
        forall|a: int, b: int| #![trigger listing[a], listing[b]]
            0 <= a < b < listing.len() ==> listing[a].experiment_id <= listing[b].experiment_id,
    ensures
        at <= listing.len(),
        forall|k: int| 0 <= k < at ==> (#[trigger] listing[k]).experiment_id <= experiment_id,
        forall|k: int| at <= k < listing.len() ==> (#[trigger] listing[k]).experiment_id > experiment_id,
{
    let mut at: usize = listing.len();
    while at > 0 && listing[at - 1].experiment_id > experiment_id
        invariant
            at <= listing.len(),
            forall|a: int, b: int| #![trigger listing[a], listing[b]]
                0 <= a < b < listing.len() ==> listing[a].experiment_id <= listing[b].experiment_id,
            forall|k: int| at <= k < listing.len() ==> (#[trigger] listing[k]).experiment_id > experiment_id,
        decreases at,
    {
        at = at - 1;
    }
    assert forall|k: int| 0 <= k < at implies (#[trigger] listing[k]).experiment_id <= experiment_id by {
        assert(listing[at - 1].experiment_id <= experiment_id);
    }
    at
}

/// The listing covers the pairs of rows up to row `i` as the write-ahead record
/// and row `j` as its snapshot.
spec fn lists_up_to(
    listing: Seq<LeakedRow>,
    pairs: Seq<(int, int)>,
    rows: Seq<JournalRow>,
    provider_id: Seq<char>,
    i: int,
    j: int,
) -> bool {
    &&& listing.len() == pairs.len()
    &&& pairs.no_duplicates()
    &&& forall|k: int| 0 <= k < pairs.len() ==> entry_of(#[trigger] listing[k], rows, pairs[k])
    &&& forall|intent: int, snapshot: int| #[trigger]
        pairs.contains((intent, snapshot)) <==> leaked(rows, provider_id, intent, snapshot) && (intent < i || (intent
            == i && snapshot < j))
    &&& forall|a: int, b: int| #![trigger listing[a], listing[b]]
        0 <= a < b < listing.len() ==> listing[a].experiment_id <= listing[b].experiment_id
}

/// One more entry in its place keeps the listing in order.
proof fn lemma_list_one_more(
    listing: Seq<LeakedRow>,
    pairs: Seq<(int, int)>,
    rows: Seq<JournalRow>,
    provider_id: Seq<char>,
    i: int,
    j: int,
    at: int,
    entry: LeakedRow,
)
    requires
        lists_up_to(listing, pairs, rows, provider_id, i, j),
        leaked(rows, provider_id, i, j),
        entry_of(entry, rows, (i, j)),
        0 <= at <= listing.len(),
        forall|k: int| 0 <= k < at ==> (#[trigger] listing[k]).experiment_id <= entry.experiment_id,
        forall|k: int| at <= k < listing.len() ==> (#[trigger] listing[k]).experiment_id > entry.experiment_id,
    ensures
        lists_up_to(listing.insert(at, entry), pairs.insert(at, (i, j)), rows, provider_id, i, j + 1),
{
    let longer = listing.insert(at, entry);
    let more = pairs.insert(at, (i, j));
    assert(!pairs.contains((i, j)));
    assert forall|k: int| 0 <= k < more.len() implies entry_of(#[trigger] longer[k], rows, more[k]) by {
        if k < at {
            assert(longer[k] == listing[k] && more[k] == pairs[k]);
        } else if k > at {
            assert(longer[k] == listing[k - 1] && more[k] == pairs[k - 1]);
        }
    }
    assert(more.no_duplicates()) by {
        assert forall|a: int, b: int| 0 <= a < more.len() && 0 <= b < more.len() && a != b implies more[a] != more[b] by {
            let x = if a < at { a } else { a - 1 };
            let y = if b < at { b } else { b - 1 };
            if a != at {
                assert(more[a] == pairs[x]);
                assert(pairs.contains(pairs[x]));
            }
            if b != at {
                assert(more[b] == pairs[y]);
                assert(pairs.contains(pairs[y]));
            }
        }
    }
    assert forall|intent: int, snapshot: int| #[trigger]
        more.contains((intent, snapshot)) <==> leaked(rows, provider_id, intent, snapshot) && (intent < i || (intent
            == i && snapshot < j + 1)) by {
        let pair = (intent, snapshot);
        if more.contains(pair) {
            let k = choose|k: int| 0 <= k < more.len() && more[k] == pair;
            if k < at {
                assert(pairs[k] == pair);
                assert(pairs.contains(pair));
            } else if k > at {
                assert(pairs[k - 1] == pair);
                assert(pairs.contains(pair));
            }
        }
        if pairs.contains(pair) {
            let k = choose|k: int| 0 <= k < pairs.len() && pairs[k] == pair;
            if k < at {
                assert(more[k] == pair);
            } else {
                assert(more[k + 1] == pair);
            }
        }
        if pair == (i, j) {
            assert(more[at] == pair);
        }
    }
    assert forall|a: int, b: int| #![trigger longer[a], longer[b]]
        0 <= a < b < longer.len() implies longer[a].experiment_id <= longer[b].experiment_id by {
        let x = if a < at { a } else { a - 1 };
        let y = if b < at { b } else { b - 1 };
        if a != at {
            assert(longer[a] == listing[x]);
        }
        if b != at {
            assert(longer[b] == listing[y]);
        }
    }
}

/// Lists the experiments of that provider that recorded a write-ahead intent but
/// no terminal outcome, ordered by experiment.
pub fn unclosed_experiments(rows: &Vec<JournalRow>, provider_id: &str) -> (listing: Vec<LeakedRow>)
    ensures
        exists|pairs: Seq<(int, int)>| lists_leaks(listing@, pairs, rows@, provider_id@),
{
    let mut listing: Vec<LeakedRow> = Vec::new();
    let ghost mut pairs: Seq<(int, int)> = Seq::empty();
    let mut i: usize = 0;
    while i < rows.len()
        invariant
            i <= rows.len(),
            lists_up_to(listing@, pairs, rows@, provider_id@, i as int, 0),
        decreases rows.len() - i,
    {
        let open = same_text(rows[i].stage.as_str(), "apply-intent") && same_text(
            rows[i].provider_id.as_str(),
            provider_id,
        ) && !is_closed(rows, rows[i].experiment_id);
        let mut j: usize = 0;
        while j < rows.len()
            invariant
                i < rows.len(),
                j <= rows.len(),
                open == (rows[i as int].stage@ == "apply-intent"@ && rows[i as int].provider_id@ == provider_id@
                    && !closed(rows@, rows[i as int].experiment_id)),
                lists_up_to(listing@, pairs, rows@, provider_id@, i as int, j as int),
            decreases rows.len() - j,
        {
            if open && rows[j].experiment_id == rows[i].experiment_id && same_text(rows[j].stage.as_str(), "snapshot") {
                let entry = LeakedRow {
                    experiment_id: rows[i].experiment_id,
                    snapshot_payload: rows[j].payload.clone(),
                    intent_payload: rows[i].payload.clone(),
                    age_seconds: rows[i].age_seconds,
                };
                let at: usize = insertion_point(&listing, entry.experiment_id);
                proof {
                    lemma_list_one_more(
                        listing@,
                        pairs,
                        rows@,
                        provider_id@,
                        i as int,
                        j as int,
                        at as int,
                        entry,
                    );
                    pairs = pairs.insert(at as int, (i as int, j as int));
                }
                listing.insert(at, entry);
            } else {
                assert(!leaked(rows@, provider_id@, i as int, j as int));
            }
            j = j + 1;
        }
        i = i + 1;
    }
    assert(lists_leaks(listing@, pairs, rows@, provider_id@));
    listing
}

/// The experiments with a write-ahead intent and no terminal record.
pub open spec fn dangling(rows: Seq<JournalRow>) -> Set<i64> {
    Set::new(|id: i64| has_stage(rows, id, "apply-intent"@) && !closed(rows, id))
}

/// The experiments with a write-ahead intent among the first rows, and no
/// terminal record among all.
spec fn dangling_among(rows: Seq<JournalRow>, first: int) -> Set<i64> {
    Set::new(|id: i64| has_stage(rows.take(first), id, "apply-intent"@) && !closed(rows, id))
}

/// Whether one of the first rows records that stage of that experiment.
fn find_stage_among(rows: &Vec<JournalRow>, first: usize, experiment_id: i64, stage: &str) -> (found: bool)
    requires
        first <= rows.len(),
    ensures
        found == has_stage(rows@.take(first as int), experiment_id, stage@),
{
    let mut i: usize = 0;
    while i < first
        invariant
            i <= first <= rows.len(),
            forall|j: int| 0 <= j < i ==> !records_stage(#[trigger] rows[j], experiment_id, stage@),
        decreases first - i,
    {
        if rows[i].experiment_id == experiment_id && same_text(rows[i].stage.as_str(), stage) {
            assert(records_stage(rows@.take(first as int)[i as int], experiment_id, stage@));
            return true;
        }
        i = i + 1;
    }
    false
}

/// Counts the experiments with a write-ahead intent and no terminal record.
pub fn dangling_experiments(rows: &Vec<JournalRow>) -> (count: usize)
    ensures
        dangling(rows@).finite(),
        count == dangling(rows@).len(),
{
    let mut count: usize = 0;
    let mut i: usize = 0;
    assert(dangling_among(rows@, 0) =~= Set::empty());
    while i < rows.len()
        invariant
            i <= rows.len(),
            count <= i,
            dangling_among(rows@, i as int).finite(),
            count == dangling_among(rows@, i as int).len(),
        decreases rows.len() - i,
    {
        let id: i64 = rows[i].experiment_id;
        let ghost now = dangling_among(rows@, i as int);
        let ghost next = dangling_among(rows@, i + 1);
        proof {
            lemma_one_more_row(rows@, i as int);
        }
        if same_text(rows[i].stage.as_str(), "apply-intent") && !find_stage_among(rows, i, id, "apply-intent")
            && !is_closed(rows, id) {
            assert(next =~= now.insert(id));
            count = count + 1;
        } else {
            assert(next =~= now);
        }
        i = i + 1;
    }
    assert(rows@.take(i as int) =~= rows@);
    assert(dangling_among(rows@, i as int) =~= dangling(rows@));
    count
}

/// One more row adds at most its own experiment to those with an intent.
proof fn lemma_one_more_row(rows: Seq<JournalRow>, i: int)
    requires
        0 <= i < rows.len(),
    ensures
        forall|id: i64| #[trigger] has_stage(rows.take(i + 1), id, "apply-intent"@) <==> has_stage(
            rows.take(i),
            id,
            "apply-intent"@,
        ) || records_stage(rows[i], id, "apply-intent"@),
{
    assert forall|id: i64| #[trigger] has_stage(rows.take(i + 1), id, "apply-intent"@) <==> has_stage(
        rows.take(i),
        id,
        "apply-intent"@,
    ) || records_stage(rows[i], id, "apply-intent"@) by {
        if has_stage(rows.take(i), id, "apply-intent"@) {
            let k = choose|k: int| 0 <= k < i && records_stage(#[trigger] rows.take(i)[k], id, "apply-intent"@);
            assert(records_stage(rows.take(i + 1)[k], id, "apply-intent"@));
        }
        if records_stage(rows[i], id, "apply-intent"@) {
            assert(records_stage(rows.take(i + 1)[i], id, "apply-intent"@));
        }
        if has_stage(rows.take(i + 1), id, "apply-intent"@) {
            let k = choose|k: int|
                0 <= k < i + 1 && records_stage(#[trigger] rows.take(i + 1)[k], id, "apply-intent"@);
            if k < i {
                assert(records_stage(rows.take(i)[k], id, "apply-intent"@));
            }
        }
    }
}

/// Whether `id` is the next experiment id: one past the highest in use, and the
/// first one in an empty journal.
pub open spec fn next_id(ids: Seq<i64>, id: int) -> bool {
    if ids.len() == 0 {
        id == 1
    } else {
        &&& ids.contains((id - 1) as i64)
        &&& forall|i: int| 0 <= i < ids.len() ==> (#[trigger] ids[i]) < id
    }
}

/// Allocates the id of a new experiment; `None` where the ids are exhausted.
pub fn next_experiment_id(ids: &Vec<i64>) -> (id: Option<i64>)
    ensures
        match id {
            Some(id) => next_id(ids@, id as int),
            None => ids@.contains(i64::MAX),
        },
{
    if ids.len() == 0 {
        return Some(1);
    }
    let mut highest: i64 = ids[0];
    let mut i: usize = 1;
    while i < ids.len()
        invariant
            1 <= i <= ids.len(),
            ids@.contains(highest),
            forall|j: int| 0 <= j < i ==> (#[trigger] ids[j]) <= highest,
        decreases ids.len() - i,
    {
        if ids[i] > highest {
            highest = ids[i];
            assert(ids@[i as int] == highest);
        }
        i = i + 1;
    }
    highest.checked_add(1)
}

/// A new experiment shares its id with no row that is in the journal already.
pub proof fn a_new_experiment_has_its_own_id(ids: Seq<i64>, id: i64)
    requires
        next_id(ids, id as int),
    ensures
        !ids.contains(id),
{
}

/// A terminal record closes its experiment for good: whatever is appended later,
/// the experiment is not listed again.
pub proof fn a_closed_experiment_is_never_listed(
    rows: Seq<JournalRow>,
    later: Seq<JournalRow>,
    provider_id: Seq<char>,
    experiment_id: i64,
    intent: int,
    snapshot: int,
)
    requires
        closed(rows, experiment_id),
        leaked(rows + later, provider_id, intent, snapshot),
    ensures
        (rows + later)[intent].experiment_id != experiment_id,
{
    let all = rows + later;
    if has_stage(rows, experiment_id, "completed"@) {
        let k = choose|k: int| 0 <= k < rows.len() && records_stage(#[trigger] rows[k], experiment_id, "completed"@);
        assert(records_stage(all[k], experiment_id, "completed"@));
    } else {
        let k = choose|k: int| 0 <= k < rows.len() && records_stage(#[trigger] rows[k], experiment_id, "failed"@);
        assert(records_stage(all[k], experiment_id, "failed"@));
    }
}

/// Rows that close no experiment leave every listed experiment listed.
pub proof fn an_open_experiment_stays_listed(
    rows: Seq<JournalRow>,
    later: Seq<JournalRow>,
    provider_id: Seq<char>,
    intent: int,
    snapshot: int,
)
    requires
        leaked(rows, provider_id, intent, snapshot),
        forall|k: int| 0 <= k < later.len() ==> (#[trigger] later[k]).stage@ != "completed"@ && later[k].stage@
            != "failed"@ || later[k].experiment_id != rows[intent].experiment_id,
    ensures
        leaked(rows + later, provider_id, intent, snapshot),
{
    let all = rows + later;
    let id = rows[intent].experiment_id;
    assert forall|k: int| 0 <= k < all.len() implies !records_stage(#[trigger] all[k], id, "completed"@)
        && !records_stage(all[k], id, "failed"@) by {
        if k < rows.len() {
            assert(all[k] == rows[k]);
            assert(!records_stage(rows[k], id, "completed"@));
            assert(!records_stage(rows[k], id, "failed"@));
        } else {
            assert(all[k] == later[k - rows.len()]);
        }
    }
}

/// Every experiment that is listed for recovery is one that is reported as
/// dangling.
pub proof fn a_listed_experiment_is_dangling(
    rows: Seq<JournalRow>,
    provider_id: Seq<char>,
    intent: int,
    snapshot: int,
)
    requires
        leaked(rows, provider_id, intent, snapshot),
    ensures
        dangling(rows).contains(rows[intent].experiment_id),
{
    assert(records_stage(rows[intent], rows[intent].experiment_id, "apply-intent"@));
}

} // verus!
