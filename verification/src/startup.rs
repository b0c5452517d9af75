//! The order in which a broker comes up.
//!
//! Each step is handed out with what came of the one before it. The lock that
//! admits one broker is taken before the journal is touched and before the
//! socket is bound, so a second broker touches neither.
use vstd::prelude::*;

verus! {

/// One step of starting a broker.
#[derive(Clone, Copy, Debug, PartialEq, Eq, Structural)]
pub enum StartStep {
    /// Establish the private directory, and resolve and vet the paths.
    ResolvePaths,
    /// Take the lock that admits one broker.
    TakeLock,
    /// Close the journal and its side files to every other user.
    RestrictJournal,
    /// Open the journal, and the control plane that writes to it.
    OpenJournal,
    /// Bind the socket.
    Bind,
    /// Serve until a fatal condition ends it.
    Serve,
    /// The broker has ended.
    Ended,
    /// The broker does not come up; nothing more is done.
    Stop,
}

/// What came of a step.
#[derive(Clone, Copy, Debug, PartialEq, Eq, Structural)]
pub enum StartEvent {
    /// The step was done.
    Done,
    /// The step failed; that another broker holds the lock is such a failure.
    Failed,
}

/// The step that a broker starts with.
pub open spec fn opening() -> StartStep {
    StartStep::ResolvePaths
}

/// The step after one that was done.
pub open spec fn following(step: StartStep) -> StartStep {
    match step {
        StartStep::ResolvePaths => StartStep::TakeLock,
        StartStep::TakeLock => StartStep::RestrictJournal,
        StartStep::RestrictJournal => StartStep::OpenJournal,
        StartStep::OpenJournal => StartStep::Bind,
        StartStep::Bind => StartStep::Serve,
        StartStep::Serve => StartStep::Ended,
        StartStep::Ended => StartStep::Ended,
        StartStep::Stop => StartStep::Stop,
    }
}

/// The step that follows one, by what came of it: the first failure ends the
/// start.
pub open spec fn continued(step: StartStep, event: StartEvent) -> StartStep {
    if event == StartEvent::Failed {
        StartStep::Stop
    } else {
        following(step)
    }
}

/// Gives the step that a broker starts with.
pub fn first_step() -> (step: StartStep)
    ensures
        step == opening(),
{
    StartStep::ResolvePaths
}

/// Gives the step that follows one, by what came of it.
pub fn next_step(step: StartStep, event: StartEvent) -> (next: StartStep)
    ensures
        next == continued(step, event),
{
    match event {
        StartEvent::Failed => StartStep::Stop,
        StartEvent::Done => match step {
            StartStep::ResolvePaths => StartStep::TakeLock,
            StartStep::TakeLock => StartStep::RestrictJournal,
            StartStep::RestrictJournal => StartStep::OpenJournal,
            StartStep::OpenJournal => StartStep::Bind,
            StartStep::Bind => StartStep::Serve,
            StartStep::Serve => StartStep::Ended,
            StartStep::Ended => StartStep::Ended,
            StartStep::Stop => StartStep::Stop,
        },
    }
}

/// Whether the step behind that place follows from what came of the one at it.
pub open spec fn follows_on(steps: Seq<StartStep>, events: Seq<StartEvent>, at: int) -> bool {
    steps[at + 1] == continued(steps[at], events[at])
}

/// Whether these are the steps that those events lead through: one event came of
/// every step but the last.
pub open spec fn leads_through(steps: Seq<StartStep>, events: Seq<StartEvent>) -> bool {
    &&& steps.len() == events.len() + 1
    &&& steps[0] == opening()
    &&& forall|i: int| 0 <= i < events.len() ==> #[trigger] follows_on(steps, events, i)
}

/// Whether the step, at an earlier place than `at`, was done.
pub open spec fn done_before(steps: Seq<StartStep>, events: Seq<StartEvent>, step: StartStep, at: int) -> bool {
    exists|i: int| 0 <= i < at && #[trigger] steps[i] == step && events[i] == StartEvent::Done
}

/// Whether a step is on the way up.
pub open spec fn on_the_way(step: StartStep) -> bool {
    step != StartStep::Stop && step != StartStep::Ended
}

/// A step on the way up follows the one that leads to it.
proof fn lemma_step_before(steps: Seq<StartStep>, events: Seq<StartEvent>, at: int)
    requires
        leads_through(steps, events),
        0 <= at < steps.len(),
        on_the_way(steps[at]),
    ensures
        at == 0 <==> steps[at] == opening(),
        at > 0 ==> on_the_way(steps[at - 1]) && events[at - 1] == StartEvent::Done && steps[at] == following(
            steps[at - 1],
        ),
{
    if at > 0 {
        assert(follows_on(steps, events, at - 1));
    }
}

/// The journal is neither restricted nor opened, and the socket neither bound
/// nor served, before the lock was taken.
pub proof fn the_lock_comes_first(steps: Seq<StartStep>, events: Seq<StartEvent>, at: int)
    requires
        leads_through(steps, events),
        0 <= at < steps.len(),
        steps[at] == StartStep::RestrictJournal || steps[at] == StartStep::OpenJournal || steps[at] == StartStep::Bind
            || steps[at] == StartStep::Serve,
    ensures
        done_before(steps, events, StartStep::TakeLock, at),
    decreases at,
{
    lemma_step_before(steps, events, at);
    if steps[at] == StartStep::RestrictJournal {
        assert(steps[at - 1] == StartStep::TakeLock);
    } else {
        the_lock_comes_first(steps, events, at - 1);
        let i = choose|i: int|
            0 <= i < at - 1 && #[trigger] steps[i] == StartStep::TakeLock && events[i] == StartEvent::Done;
        assert(steps[i] == StartStep::TakeLock);
    }
}

/// The lock is taken only once the paths were accepted, and the journal is closed
/// to every other user before it is opened.
pub proof fn nothing_is_used_before_it_is_vetted(steps: Seq<StartStep>, events: Seq<StartEvent>, at: int)
    requires
        leads_through(steps, events),
        0 <= at < steps.len(),
    ensures
        steps[at] == StartStep::TakeLock ==> done_before(steps, events, StartStep::ResolvePaths, at),
        steps[at] == StartStep::OpenJournal ==> done_before(steps, events, StartStep::RestrictJournal, at),
        steps[at] == StartStep::Bind ==> done_before(steps, events, StartStep::OpenJournal, at),
        steps[at] == StartStep::Serve ==> done_before(steps, events, StartStep::Bind, at),
{
    if on_the_way(steps[at]) {
        lemma_step_before(steps, events, at);
    }
}

/// After a failure nothing more is done: a broker that is refused the lock
/// touches neither the journal nor the socket.
pub proof fn a_failure_ends_the_start(steps: Seq<StartStep>, events: Seq<StartEvent>, failed: int, at: int)
    requires
        leads_through(steps, events),
        0 <= failed < at < steps.len(),
        events[failed] == StartEvent::Failed,
    ensures
        steps[at] == StartStep::Stop,
    decreases at,
{
    assert(follows_on(steps, events, at - 1));
    if failed < at - 1 {
        a_failure_ends_the_start(steps, events, failed, at - 1);
    }
}

} // verus!
