//! What holds of every lifecycle, whatever the provider and the journal answer.
use vstd::prelude::*;

use crate::control_plane::{Awaiting, Pending, StageFailure, Step};
use crate::contracts::{ChangeRequest, ManifestView, RequestView};
use crate::journal::{JournalFault, PayloadView, Stage};
use crate::mock::{MockProvider, MOCK_CAPABILITY_ID};
use crate::provider::{Provider, ProviderError};

verus! {

/// The stage of the record that a lifecycle waits for.
pub open spec fn awaited(awaiting: Awaiting) -> Stage {
    match awaiting {
        Awaiting::Begin => Stage::Snapshot,
        Awaiting::Preview { .. } => Stage::Preview,
        Awaiting::Intent { .. } => Stage::ApplyIntent,
        Awaiting::Apply { .. } => Stage::Apply,
        Awaiting::Verify { .. } => Stage::Verify,
        Awaiting::Rollback { .. } => Stage::Rollback,
        Awaiting::RollbackVerify { .. } => Stage::RollbackVerify,
        Awaiting::Completed { .. } => Stage::Completed,
        Awaiting::Failed { .. } => Stage::Failed,
    }
}

/// Which stage may be recorded right after which.
pub open spec fn may_follow(earlier: Stage, later: Stage) -> bool {
    match earlier {
        Stage::Snapshot => later == Stage::Preview || later == Stage::Failed,
        Stage::Preview => later == Stage::ApplyIntent || later == Stage::Failed,
        Stage::ApplyIntent => later == Stage::Apply || later == Stage::Rollback || later == Stage::Failed,
        Stage::Apply => later == Stage::Verify || later == Stage::Rollback || later == Stage::Failed,
        Stage::Verify => later == Stage::Rollback || later == Stage::Failed,
        Stage::Rollback => later == Stage::RollbackVerify || later == Stage::Failed,
        Stage::RollbackVerify => later == Stage::Completed || later == Stage::Failed,
        Stage::Completed => false,
        Stage::Failed => false,
    }
}

/// The stages an experiment hands to its journal, from the snapshot on.
pub open spec fn orderly(stages: Seq<Stage>) -> bool {
    &&& stages.len() > 0
    &&& stages[0] == Stage::Snapshot
    &&& forall|i: int, j: int| #![trigger stages[i], stages[j]]
        0 <= i && j == i + 1 && j < stages.len() ==> may_follow(stages[i], stages[j])
}

/// A lifecycle starts with the snapshot record, or with none at all.
pub proof fn a_lifecycle_starts_with_its_snapshot<P: Provider>(
    manifest: ManifestView,
    provider: P,
    request: RequestView,
    step: Step,
)
    requires
        crate::control_plane::starts(manifest, provider, request, step),
    ensures
        step matches Step::Write { entry, pending } ==> entry.stage == Stage::Snapshot && awaited(pending.awaiting)
            == Stage::Snapshot && pending.request@ == request,
        !(crate::control_plane::policy(manifest, request) is Allowed) ==> step matches Step::Done(Err(_)),
{
}

/// Every later record follows the one before it in the order of
/// [`may_follow`], and belongs to the same change and the same snapshot.
pub proof fn records_follow_in_order<P: Provider>(
    provider_id: Seq<char>,
    before: P,
    waiting: Pending,
    reply: Result<i64, JournalFault>,
    after: P,
    step: Step,
)
    requires
        crate::control_plane::resumes(provider_id, before, waiting, reply, after, step),
    ensures
        step matches Step::Write { entry, pending } ==> {
            &&& entry.stage == awaited(pending.awaiting)
            &&& may_follow(awaited(waiting.awaiting), entry.stage)
            &&& entry.experiment_id == Some(pending.experiment_id)
            &&& pending.request == waiting.request
            &&& pending.snapshot == waiting.snapshot
        },
{
}

/// A closing record is the last one, so an experiment has at most one.
pub proof fn nothing_follows_a_closing_record(stages: Seq<Stage>, at: int)
    requires
        orderly(stages),
        0 <= at < stages.len(),
        stages[at].closes(),
    ensures
        at == stages.len() - 1,
{
    if at < stages.len() - 1 {
        assert(may_follow(stages[at], stages[at + 1]));
    }
}

/// The write-ahead record precedes the record that a change was applied, and a
/// restored and probed baseline precedes a success.
pub proof fn records_rest_on_earlier_records(stages: Seq<Stage>, at: int)
    requires
        orderly(stages),
        0 <= at < stages.len(),
    ensures
        stages[at] == Stage::Apply ==> at >= 1 && stages[at - 1] == Stage::ApplyIntent,
        stages[at] == Stage::Completed ==> at >= 2 && stages[at - 1] == Stage::RollbackVerify && stages[at - 2]
            == Stage::Rollback,
        stages[at] == Stage::ApplyIntent ==> at == 2 && stages[1] == Stage::Preview,
        at <= 7,
    decreases at,
{
    if at > 0 {
        assert(may_follow(stages[at - 1], stages[at]));
        rank_grows(stages, at);
        if at > 1 {
            assert(may_follow(stages[at - 2], stages[at - 1]));
        }
        if at > 2 {
            assert(may_follow(stages[at - 3], stages[at - 2]));
        }
    }
}

/// How far along a stage stands.
pub open spec fn rank(stage: Stage) -> int {
    match stage {
        Stage::Snapshot => 0,
        Stage::Preview => 1,
        Stage::ApplyIntent => 2,
        Stage::Apply => 3,
        Stage::Verify => 4,
        Stage::Rollback => 5,
        Stage::RollbackVerify => 6,
        Stage::Completed => 7,
        Stage::Failed => 7,
    }
}

/// Every record stands further along than the one before.
proof fn rank_grows(stages: Seq<Stage>, at: int)
    requires
        orderly(stages),
        0 <= at < stages.len(),
    ensures
        at <= rank(stages[at]),
    decreases at,
{
    if at > 0 {
        assert(may_follow(stages[at - 1], stages[at]));
        rank_grows(stages, at - 1);
    }
}

/// A lifecycle that has opened its experiment ends only once its closing record
/// has been handed to the journal.
pub proof fn an_open_experiment_is_always_closed<P: Provider>(
    provider_id: Seq<char>,
    before: P,
    waiting: Pending,
    reply: Result<i64, JournalFault>,
    after: P,
    step: Step,
)
    requires
        crate::control_plane::resumes(provider_id, before, waiting, reply, after, step),
        step is Done,
    ensures
        awaited(waiting.awaiting).closes() || (waiting.awaiting is Begin && reply is Err),
{
}

/// The provider is left alone until the write-ahead record is committed, and
/// again once the snapshot has been put back.
pub proof fn nothing_changes_outside_the_write_window<P: Provider>(
    provider_id: Seq<char>,
    before: P,
    waiting: Pending,
    reply: Result<i64, JournalFault>,
    after: P,
    step: Step,
)
    requires
        crate::control_plane::resumes(provider_id, before, waiting, reply, after, step),
        !(waiting.awaiting is Intent && reply is Ok),
        !(waiting.awaiting is Apply),
        !(waiting.awaiting is Verify),
    ensures
        after == before,
{
}

/// Once apply has been attempted, the change is either still under way or the
/// provider has been told to put the snapshot back.
pub proof fn an_attempted_change_is_always_rolled_back<P: Provider>(
    provider_id: Seq<char>,
    before: P,
    waiting: Pending,
    reply: Result<i64, JournalFault>,
    after: P,
    step: Step,
)
    requires
        crate::control_plane::resumes(provider_id, before, waiting, reply, after, step),
        (waiting.awaiting is Intent && reply is Ok) || waiting.awaiting is Apply || waiting.awaiting is Verify,
    ensures
        (step matches Step::Write { entry, .. } && (entry.stage == Stage::Apply || entry.stage == Stage::Verify))
            || exists|changed: P, outcome: Result<(), ProviderError>|
            (changed == before || attempted(before, waiting.request, changed)) && #[trigger] changed.may_rollback(
                waiting.snapshot,
                after,
                outcome,
            ),
{
    if waiting.awaiting is Intent {
        let (applied, outcome) = choose|applied: P, outcome: Result<(), ProviderError>| #[trigger]
            before.may_apply(waiting.request, applied, outcome) && match outcome {
                Ok(_) => step matches Step::Write { entry, .. } && entry.stage == Stage::Apply,
                Err(_) => exists|restored: Result<(), ProviderError>| #[trigger]
                    applied.may_rollback(waiting.snapshot, after, restored),
            };
        assert(before.may_apply(waiting.request, applied, outcome));
    }
}

/// Whether an attempt to apply the request may have left the provider so.
pub open spec fn attempted<P: Provider>(before: P, request: ChangeRequest, after: P) -> bool {
    exists|outcome: Result<(), ProviderError>| #[trigger] before.may_apply(request, after, outcome)
}

/// A success has been verified, and its baseline has been seen again.
pub proof fn a_success_was_verified_and_restored<P: Provider>(
    provider_id: Seq<char>,
    before: P,
    waiting: Pending,
    reply: Result<i64, JournalFault>,
    after: P,
    step: Step,
)
    requires
        crate::control_plane::resumes(provider_id, before, waiting, reply, after, step),
    ensures
        step matches Step::Done(Ok(result)) ==> waiting.awaiting is Completed && result.verified && result.rolled_back,
        step matches Step::Write { entry, .. } && entry.stage == Stage::Completed ==> (waiting.awaiting matches
            Awaiting::RollbackVerify { observed, restored, .. } && observed is None && restored),
{
}

/// The failure that ended a change early, where the restore is under way.
pub open spec fn ended_early(awaiting: Awaiting) -> Option<StageFailure> {
    match awaiting {
        Awaiting::Rollback { observed, .. } => observed,
        Awaiting::RollbackVerify { observed, .. } => observed,
        _ => None,
    }
}

/// A restore that fails supersedes the failure that ended the change early, and
/// the closing record keeps the superseded one.
pub proof fn a_failed_restore_keeps_the_earlier_failure<P: Provider>(
    provider_id: Seq<char>,
    before: P,
    waiting: Pending,
    reply: Result<i64, JournalFault>,
    after: P,
    step: Step,
)
    requires
        crate::control_plane::resumes(provider_id, before, waiting, reply, after, step),
        waiting.awaiting is Rollback || (waiting.awaiting matches Awaiting::RollbackVerify { restored, .. } && (
        reply is Err || !restored)),
        step matches Step::Write { entry, .. } && entry.stage == Stage::Failed,
    ensures
        step matches Step::Write { entry, .. } && (entry.payload@ matches PayloadView::Failed { failure, suppressed }
            && (failure.stage == Stage::Rollback || failure.stage == Stage::RollbackVerify) && suppressed
            == match ended_early(waiting.awaiting) {
            Some(earlier) => Some(earlier.noted()),
            None => None,
        }),
{
}

/// Handing out one more record keeps an experiment's stages in order.
pub proof fn the_stages_of_an_experiment_stay_in_order<P: Provider>(
    stages: Seq<Stage>,
    provider_id: Seq<char>,
    before: P,
    waiting: Pending,
    reply: Result<i64, JournalFault>,
    after: P,
    step: Step,
)
    requires
        orderly(stages),
        stages.last() == awaited(waiting.awaiting),
        crate::control_plane::resumes(provider_id, before, waiting, reply, after, step),
    ensures
        step matches Step::Write { entry, pending } ==> orderly(stages.push(entry.stage)) && stages.push(
            entry.stage,
        ).last() == awaited(pending.awaiting),
{
    records_follow_in_order(provider_id, before, waiting, reply, after, step);
    if let Step::Write { entry, pending } = step {
        let longer = stages.push(entry.stage);
        assert forall|i: int, j: int| #![trigger longer[i], longer[j]]
            0 <= i && j == i + 1 && j < longer.len() implies may_follow(longer[i], longer[j]) by {
            if j < stages.len() {
                assert(may_follow(stages[i], stages[j]));
            }
        }
    }
}

/// The mock provider stands at its baseline, except between an applied change
/// and its rollback.
pub open spec fn mock_on_baseline(baseline: u64, provider: MockProvider, waiting: Pending) -> bool {
    &&& waiting.snapshot@ == crate::mock::mock_snapshot(baseline)
    &&& provider.setting() == baseline || waiting.awaiting is Apply || waiting.awaiting is Verify
}

/// A lifecycle on the mock provider starts from its baseline.
pub proof fn mock_lifecycle_starts_on_baseline(
    manifest: ManifestView,
    provider: MockProvider,
    request: RequestView,
    step: Step,
)
    requires
        crate::control_plane::starts(manifest, provider, request, step),
    ensures
        step matches Step::Write { pending, .. } ==> mock_on_baseline(provider.setting(), provider, pending),
{
}

/// However its journal behaves, a lifecycle on the mock provider ends with the
/// provider at its baseline.
pub proof fn mock_lifecycle_ends_on_baseline(
    provider_id: Seq<char>,
    baseline: u64,
    before: MockProvider,
    waiting: Pending,
    reply: Result<i64, JournalFault>,
    after: MockProvider,
    step: Step,
)
    requires
        mock_on_baseline(baseline, before, waiting),
        crate::control_plane::resumes(provider_id, before, waiting, reply, after, step),
    ensures
        step matches Step::Write { pending, .. } ==> mock_on_baseline(baseline, after, pending),
        step is Done ==> after.setting() == baseline,
{
    assert(crate::json::unsigned_member(waiting.snapshot@.state, "value"@) == Some(baseline));
}

/// A lifecycle on the mock provider for which everything has gone well so far.
pub open spec fn mock_on_track(baseline: u64, value: u64, provider: MockProvider, waiting: Pending) -> bool {
    &&& mock_on_baseline(baseline, provider, waiting)
    &&& waiting.request@.capability_id == MOCK_CAPABILITY_ID@
    &&& crate::mock::requested_value(waiting.request@) == Some(value)
    &&& waiting.awaiting is Apply || waiting.awaiting is Verify ==> provider.setting() == value
    &&& match waiting.awaiting {
        Awaiting::Verify { verified, .. } => verified,
        Awaiting::Rollback { observed, .. } => observed is None,
        Awaiting::RollbackVerify { observed, restored, .. } => observed is None && restored,
        Awaiting::Failed { .. } => false,
        _ => true,
    }
}

/// Where the journal accepts every record, an allowed change to the mock
/// provider goes through all its stages in order and succeeds.
pub proof fn an_allowed_mock_change_succeeds(
    provider_id: Seq<char>,
    baseline: u64,
    value: u64,
    before: MockProvider,
    waiting: Pending,
    experiment_id: i64,
    after: MockProvider,
    step: Step,
)
    requires
        mock_on_track(baseline, value, before, waiting),
        crate::control_plane::resumes(provider_id, before, waiting, Ok(experiment_id), after, step),
    ensures
        match step {
            Step::Write { entry, pending } => mock_on_track(baseline, value, after, pending) && rank(entry.stage)
                == rank(awaited(waiting.awaiting)) + 1,
            Step::Done(outcome) => outcome is Ok && waiting.awaiting is Completed && after.setting() == baseline,
        },
{
    assert(crate::json::unsigned_member(waiting.snapshot@.state, "value"@) == Some(baseline));
}

/// A lifecycle as it went: the provider and the step at each point, and what the
/// journal answered to each record.
pub struct LifecycleRun<P> {
    /// The provider as it stood when each step was handed out.
    pub states: Seq<P>,
    /// The steps, from the first on.
    pub steps: Seq<Step>,
    /// The answer to each record but the last one handed out.
    pub replies: Seq<Result<i64, JournalFault>>,
}

impl<P: Provider> LifecycleRun<P> {
    /// Whether step `i` was a record, and the next step follows from its answer.
    pub open spec fn goes_on(&self, provider_id: Seq<char>, i: int) -> bool {
        &&& self.steps[i] is Write
        &&& crate::control_plane::resumes(
            provider_id,
            self.states[i],
            self.steps[i]->pending,
            self.replies[i],
            self.states[i + 1],
            self.steps[i + 1],
        )
    }

    /// Whether the lifecycle of that request went so, up to its last step.
    pub open spec fn of(&self, manifest: ManifestView, request: RequestView) -> bool {
        &&& self.steps.len() == self.replies.len() + 1
        &&& self.states.len() == self.steps.len()
        &&& crate::control_plane::starts(manifest, self.states[0], request, self.steps[0])
        &&& forall|i: int| 0 <= i < self.replies.len() ==> #[trigger] self.goes_on(manifest.id, i)
    }

    /// Whether the lifecycle is over.
    pub open spec fn finished(&self) -> bool {
        self.steps.last() is Done
    }

    /// The stages of the records that were handed out.
    pub open spec fn recorded(&self) -> Seq<Stage> {
        Seq::new(
            if self.finished() { self.replies.len() } else { self.steps.len() },
            |i: int| self.steps[i]->entry.stage,
        )
    }
}

/// The first records of a lifecycle are in order, and the lifecycle waits for
/// the last of them.
proof fn lemma_first_records_in_order<P: Provider>(
    run: LifecycleRun<P>,
    manifest: ManifestView,
    request: RequestView,
    count: int,
)
    requires
        run.of(manifest, request),
        0 < count <= run.recorded().len(),
    ensures
        run.steps[count - 1] is Write,
        orderly(run.recorded().take(count)),
        run.recorded()[count - 1] == awaited(run.steps[count - 1]->pending.awaiting),
    decreases count,
{
    let stages = run.recorded();
    if count == 1 {
        a_lifecycle_starts_with_its_snapshot(manifest, run.states[0], request, run.steps[0]);
        if run.replies.len() > 0 {
            assert(run.goes_on(manifest.id, 0));
        }
    } else {
        let last = count - 2;
        lemma_first_records_in_order(run, manifest, request, count - 1);
        assert(run.goes_on(manifest.id, last));
        if count - 1 < run.replies.len() {
            assert(run.goes_on(manifest.id, count - 1));
        }
        the_stages_of_an_experiment_stay_in_order(
            stages.take(count - 1),
            manifest.id,
            run.states[last],
            run.steps[last]->pending,
            run.replies[last],
            run.states[last + 1],
            run.steps[last + 1],
        );
        assert(stages.take(count - 1).push(stages[count - 1]) =~= stages.take(count));
    }
}

/// However the provider and the journal behave, the records of a lifecycle are
/// in order, and there are at most eight of them.
pub proof fn a_lifecycle_records_its_stages_in_order<P: Provider>(
    run: LifecycleRun<P>,
    manifest: ManifestView,
    request: RequestView,
)
    requires
        run.of(manifest, request),
        run.recorded().len() > 0,
    ensures
        orderly(run.recorded()),
        run.recorded().len() <= 8,
{
    let count = run.recorded().len() as int;
    lemma_first_records_in_order(run, manifest, request, count);
    assert(run.recorded().take(count) =~= run.recorded());
    records_rest_on_earlier_records(run.recorded(), count - 1);
}

/// A lifecycle that has opened its experiment closes it with exactly one
/// terminal record, which is its last.
pub proof fn an_experiment_is_closed_exactly_once<P: Provider>(
    run: LifecycleRun<P>,
    manifest: ManifestView,
    request: RequestView,
)
    requires
        run.of(manifest, request),
        run.finished(),
        run.replies.len() > 0,
        run.replies[0] is Ok,
    ensures
        run.recorded().len() > 0,
        run.recorded().last().closes(),
        forall|i: int| 0 <= i < run.recorded().len() - 1 ==> !(#[trigger] run.recorded()[i]).closes(),
{
    let stages = run.recorded();
    let last = run.replies.len() - 1;
    a_lifecycle_records_its_stages_in_order(run, manifest, request);
    lemma_first_records_in_order(run, manifest, request, last + 1);
    assert(run.goes_on(manifest.id, last));
    an_open_experiment_is_always_closed(
        manifest.id,
        run.states[last],
        run.steps[last]->pending,
        run.replies[last],
        run.states[last + 1],
        run.steps[last + 1],
    );
    if last > 0 {
        assert(may_follow(stages[last - 1], stages[last]));
    }
    assert forall|i: int| 0 <= i < stages.len() - 1 implies !(#[trigger] stages[i]).closes() by {
        if stages[i].closes() {
            nothing_follows_a_closing_record(stages, i);
        }
    }
}

/// The mock provider keeps its baseline, up to any point of a lifecycle.
proof fn lemma_mock_stays_on_baseline(
    run: LifecycleRun<MockProvider>,
    manifest: ManifestView,
    request: RequestView,
    at: int,
)
    requires
        run.of(manifest, request),
        0 <= at < run.steps.len(),
    ensures
        run.steps[at] is Write ==> mock_on_baseline(
            run.states[0].setting(),
            run.states[at],
            run.steps[at]->pending,
        ),
        run.steps[at] is Done ==> run.states[at].setting() == run.states[0].setting(),
    decreases at,
{
    if at == 0 {
        mock_lifecycle_starts_on_baseline(manifest, run.states[0], request, run.steps[0]);
    } else {
        let last = at - 1;
        lemma_mock_stays_on_baseline(run, manifest, request, last);
        assert(run.goes_on(manifest.id, last));
        mock_lifecycle_ends_on_baseline(
            manifest.id,
            run.states[0].setting(),
            run.states[last],
            run.steps[last]->pending,
            run.replies[last],
            run.states[at],
            run.steps[at],
        );
    }
}

/// Whatever is asked of it and however its journal behaves, a finished lifecycle
/// leaves the mock provider with the value that it had.
pub proof fn a_lifecycle_leaves_the_mock_as_it_was(
    run: LifecycleRun<MockProvider>,
    manifest: ManifestView,
    request: RequestView,
)
    requires
        run.of(manifest, request),
        run.finished(),
    ensures
        run.states.last().setting() == run.states[0].setting(),
{
    lemma_mock_stays_on_baseline(run, manifest, request, run.steps.len() - 1);
}

/// The stages of a lifecycle for which everything goes well.
pub open spec fn full_course() -> Seq<Stage> {
    seq![
        Stage::Snapshot,
        Stage::Preview,
        Stage::ApplyIntent,
        Stage::Apply,
        Stage::Verify,
        Stage::Rollback,
        Stage::RollbackVerify,
        Stage::Completed,
    ]
}

/// A lifecycle on the mock provider stays on track while the journal accepts its
/// records.
proof fn lemma_mock_stays_on_track(
    run: LifecycleRun<MockProvider>,
    manifest: ManifestView,
    request: RequestView,
    value: u64,
    at: int,
)
    requires
        run.of(manifest, request),
        crate::control_plane::policy(manifest, request) is Allowed,
        request.capability_id == MOCK_CAPABILITY_ID@,
        crate::mock::requested_value(request) == Some(value),
        forall|i: int| 0 <= i < run.replies.len() ==> (#[trigger] run.replies[i]) is Ok,
        0 <= at < run.steps.len(),
    ensures
        match run.steps[at] {
            Step::Write { entry, pending } => {
                &&& mock_on_track(run.states[0].setting(), value, run.states[at], pending)
                &&& at <= 7
                &&& entry.stage == full_course()[at]
                &&& entry.stage == awaited(pending.awaiting)
            },
            Step::Done(outcome) => at == 8 && (outcome matches Ok(result) && result.verified && result.rolled_back),
        },
    decreases at,
{
    if at > 0 {
        let last = at - 1;
        lemma_mock_stays_on_track(run, manifest, request, value, last);
        assert(run.goes_on(manifest.id, last));
        let experiment_id = run.replies[last]->Ok_0;
        assert(run.replies[last] == Ok::<i64, JournalFault>(experiment_id));
        an_allowed_mock_change_succeeds(
            manifest.id,
            run.states[0].setting(),
            value,
            run.states[last],
            run.steps[last]->pending,
            experiment_id,
            run.states[at],
            run.steps[at],
        );
        records_follow_in_order(
            manifest.id,
            run.states[last],
            run.steps[last]->pending,
            run.replies[last],
            run.states[at],
            run.steps[at],
        );
    } else {
        mock_lifecycle_starts_on_baseline(manifest, run.states[0], request, run.steps[0]);
    }
}

/// Where the policy allows a change to the mock provider and the journal accepts
/// every record, the lifecycle goes through all eight stages and succeeds: the
/// change was verified and rolled back.
pub proof fn an_allowed_mock_lifecycle_takes_its_full_course(
    run: LifecycleRun<MockProvider>,
    manifest: ManifestView,
    request: RequestView,
)
    requires
        run.of(manifest, request),
        run.finished(),
        crate::control_plane::policy(manifest, request) is Allowed,
        request.capability_id == MOCK_CAPABILITY_ID@,
        forall|i: int| 0 <= i < run.replies.len() ==> (#[trigger] run.replies[i]) is Ok,
    ensures
        run.recorded() == full_course(),
        run.steps.last() matches Step::Done(Ok(result)) && result.verified && result.rolled_back,
{
    let value = crate::mock::requested_value(request)->0;
    lemma_mock_stays_on_track(run, manifest, request, value, run.steps.len() - 1);
    assert forall|i: int| 0 <= i < run.recorded().len() implies run.recorded()[i] == full_course()[i] by {
        lemma_mock_stays_on_track(run, manifest, request, value, i);
        assert(run.goes_on(manifest.id, i));
    }
    assert(run.recorded() =~= full_course());
}

} // verus!
