//! What holds of every run of the sequencer, whatever the hardware answers.
//!
//! A run is told by the outcomes that the caller reported, in order. The
//! laws here say what must have been read before an operation is asked
//! for: no peripheral is switched on before the bit that it depends on was
//! seen set, and no result is handed out unless the fault flags were read
//! clear.

use vstd::prelude::*;
use crate::layout::RESULT_ADDRESS;
use crate::sequencer::{Action, Event, Fault, Job, Sequencer, Step};

verus! {

/// The state of a run that has taken `events` in turn.
pub open spec fn state_after(job: Job, poll_limit: Option<u32>, events: Seq<Event>) -> Sequencer
    decreases events.len(),
{
    if events.len() == 0 {
        Sequencer::initial(job, poll_limit)
    } else {
        state_after(job, poll_limit, events.drop_last()).after(events.last())
    }
}

/// The operation that the run asks for once it has taken the first `i`
/// events: the one that `events[i]` answers.
pub open spec fn asked(job: Job, poll_limit: Option<u32>, events: Seq<Event>, i: int) -> Action {
    state_after(job, poll_limit, events.take(i)).pending()
}

/// Among the first `i` operations of the run, `action` was asked for and
/// answered with `event`.
pub open spec fn answered(
    job: Job,
    poll_limit: Option<u32>,
    events: Seq<Event>,
    action: Action,
    event: Event,
    i: int,
) -> bool {
    exists|j: int|
        0 <= j < i && j < events.len() && #[trigger] asked(job, poll_limit, events, j) == action
            && events[j] == event
}

/// What must have been read, and with which outcome, before `action` may be
/// asked for.
///
/// The entropy source's clocks wait for the oscillator, its control bits
/// for its bus clock, the accelerator's clock and enable bit for the
/// entropy source, every use of the accelerator for its initialisation, the
/// fault flags for the end of the operation, and the result for clear
/// fault flags.
pub open spec fn prerequisite(action: Action) -> Option<(Action, Event)> {
    match action {
        Action::SelectEntropyClock | Action::EnableEntropyBusClock => Some(
            (Action::PollOscillatorReady, Event::Flag(true)),
        ),
        Action::ResetEntropy | Action::ReleaseEntropyReset | Action::EnableEntropy => Some(
            (Action::PollEntropyBusClock, Event::Flag(true)),
        ),
        Action::EnableAcceleratorBusClock
        | Action::DisableAccelerator
        | Action::Pause { .. }
        | Action::EnableAccelerator => Some((Action::PollEntropyReady, Event::Flag(true))),
        Action::ClearFlags { .. } | Action::WriteWord { .. } | Action::Dispatch { .. } => Some(
            (Action::PollAcceleratorReady, Event::Flag(true)),
        ),
        Action::ReadFaultFlags => Some((Action::PollCompletion, Event::Flag(true))),
        Action::ReadWord { .. } => Some(
            (Action::ReadFaultFlags, Event::Faults { address_error: false, ram_error: false }),
        ),
        _ => None,
    }
}

/// The run has gone past `step` without failing.
spec fn passed(sequencer: Sequencer, step: Step) -> bool {
    sequencer.step.rank() > step.rank() && !(sequencer.step is Failed)
}

/// What the state of a run tells of its past.
spec fn remembers(job: Job, poll_limit: Option<u32>, events: Seq<Event>) -> bool {
    let s = state_after(job, poll_limit, events);
    let n = events.len() as int;
    let seen = Event::Flag(true);
    let clean = Event::Faults { address_error: false, ram_error: false };
    &&& s.job == job
    &&& s.poll_limit == poll_limit
    &&& passed(s, Step::AwaitOscillator) ==> answered(
        job,
        poll_limit,
        events,
        Action::PollOscillatorReady,
        seen,
        n,
    )
    &&& passed(s, Step::AwaitEntropyBusClock) ==> answered(
        job,
        poll_limit,
        events,
        Action::PollEntropyBusClock,
        seen,
        n,
    )
    &&& passed(s, Step::AwaitEntropy) ==> answered(
        job,
        poll_limit,
        events,
        Action::PollEntropyReady,
        seen,
        n,
    )
    &&& passed(s, Step::AwaitAccelerator) ==> answered(
        job,
        poll_limit,
        events,
        Action::PollAcceleratorReady,
        seen,
        n,
    )
    &&& passed(s, Step::AwaitCompletion) ==> answered(
        job,
        poll_limit,
        events,
        Action::PollCompletion,
        seen,
        n,
    )
    &&& passed(s, Step::CheckFaults) ==> answered(
        job,
        poll_limit,
        events,
        Action::ReadFaultFlags,
        clean,
        n,
    )
    &&& match s.step {
        Step::ClearCompletion(word) | Step::Finished(word) => answered(
            job,
            poll_limit,
            events,
            Action::ReadWord { address: RESULT_ADDRESS },
            Event::Word(word),
            n,
        ),
        _ => true,
    }
}

/// The first operations of a run are those of any run that begins alike.
proof fn lemma_asked_of_prefix(
    job: Job,
    poll_limit: Option<u32>,
    events: Seq<Event>,
    n: int,
    j: int,
)
    requires
        0 <= j <= n <= events.len(),
    ensures
        asked(job, poll_limit, events.take(n), j) == asked(job, poll_limit, events, j),
{
    assert(events.take(n).take(j) =~= events.take(j));
}

/// What was answered in the beginning of a run was answered in the run.
proof fn lemma_answered_of_prefix(
    job: Job,
    poll_limit: Option<u32>,
    events: Seq<Event>,
    n: int,
    action: Action,
    event: Event,
    i: int,
)
    requires
        0 <= i <= n <= events.len(),
        answered(job, poll_limit, events.take(n), action, event, i),
    ensures
        answered(job, poll_limit, events, action, event, i),
{
    let j = choose|j: int|
        0 <= j < i && j < events.take(n).len() && #[trigger] asked(
            job,
            poll_limit,
            events.take(n),
            j,
        ) == action && events.take(n)[j] == event;
    lemma_asked_of_prefix(job, poll_limit, events, n, j);
    assert(asked(job, poll_limit, events, j) == action);
}

/// The last answer of a run, as the run's own record shows it.
proof fn lemma_last_answer(job: Job, poll_limit: Option<u32>, events: Seq<Event>)
    requires
        events.len() > 0,
    ensures
        answered(
            job,
            poll_limit,
            events,
            state_after(job, poll_limit, events.drop_last()).pending(),
            events.last(),
            events.len() as int,
        ),
{
    let j = events.len() - 1;
    assert(events.take(j) =~= events.drop_last());
    assert(asked(job, poll_limit, events, j) == state_after(
        job,
        poll_limit,
        events.drop_last(),
    ).pending());
}

proof fn lemma_remembers(job: Job, poll_limit: Option<u32>, events: Seq<Event>)
    ensures
        remembers(job, poll_limit, events),
    decreases events.len(),
{
    if events.len() > 0 {
        let before = events.drop_last();
        let n = events.len() as int;
        lemma_remembers(job, poll_limit, before);
        lemma_last_answer(job, poll_limit, events);
        assert(before =~= events.take(n - 1));
        assert forall|action: Action, event: Event|
            answered(job, poll_limit, before, action, event, n - 1) implies answered(
            job,
            poll_limit,
            events,
            action,
            event,
            n,
        ) by {
            lemma_answered_of_prefix(job, poll_limit, events, n - 1, action, event, n - 1);
        }
    }
}

/// No operation is asked for before its prerequisite was read with the
/// outcome that it needs: in every run, whatever the hardware answered, an
/// earlier operation of the run was that read, and its answer was that
/// outcome.
pub proof fn lemma_asked_after_prerequisite(
    job: Job,
    poll_limit: Option<u32>,
    events: Seq<Event>,
    i: int,
)
    requires
        0 <= i <= events.len(),
    ensures
        prerequisite(asked(job, poll_limit, events, i)) matches Some((action, event))
            ==> answered(job, poll_limit, events, action, event, i),
{
    lemma_remembers(job, poll_limit, events.take(i));
    match prerequisite(asked(job, poll_limit, events, i)) {
        Some((action, event)) => {
            assert(answered(job, poll_limit, events.take(i), action, event, i));
            lemma_answered_of_prefix(job, poll_limit, events, i, action, event, i);
        },
        None => {},
    }
}

/// A run that ends with a result word has read the fault flags clear, and
/// the word is the one that the load from the result field returned.
pub proof fn lemma_result_was_read(
    job: Job,
    poll_limit: Option<u32>,
    events: Seq<Event>,
    word: u32,
)
    requires
        state_after(job, poll_limit, events).outcome() == Some(Ok::<u32, Fault>(word)),
    ensures
        answered(
            job,
            poll_limit,
            events,
            Action::ReadFaultFlags,
            Event::Faults { address_error: false, ram_error: false },
            events.len() as int,
        ),
        answered(
            job,
            poll_limit,
            events,
            Action::ReadWord { address: RESULT_ADDRESS },
            Event::Word(word),
            events.len() as int,
        ),
{
    lemma_remembers(job, poll_limit, events);
}

/// The greatest number of operations that a run under a limit may still
/// ask for: the writes and reads that are left, the polls that the limit
/// allows to each wait that is still to come, and what is left of the
/// polls of the wait that is going on.
pub open spec fn budget(sequencer: Sequencer) -> int {
    let limit: int = match sequencer.poll_limit {
        Some(limit) => limit as int,
        None => 0,
    };
    let polls_left = limit - sequencer.polls;
    match sequencer.step {
        Step::EnableOscillator => 22 + 5 * limit,
        Step::AwaitOscillator => 21 + 4 * limit + polls_left,
        Step::SelectEntropyClock => 21 + 4 * limit,
        Step::EnableEntropyBusClock => 20 + 4 * limit,
        Step::AwaitEntropyBusClock => 19 + 3 * limit + polls_left,
        Step::ResetEntropy => 19 + 3 * limit,
        Step::ReleaseEntropyReset => 18 + 3 * limit,
        Step::EnableEntropy => 17 + 3 * limit,
        Step::AwaitEntropy => 16 + 2 * limit + polls_left,
        Step::EnableAcceleratorBusClock => 16 + 2 * limit,
        Step::DisableAccelerator => 15 + 2 * limit,
        Step::Settle => 14 + 2 * limit,
        Step::EnableAccelerator => 13 + 2 * limit,
        Step::AwaitAccelerator => 12 + limit + polls_left,
        Step::ClearFlags => 12 + limit,
        Step::StageLength => 11 + limit,
        Step::StageOperandALow => 10 + limit,
        Step::StageOperandAHigh => 9 + limit,
        Step::StageOperandBLow => 8 + limit,
        Step::StageOperandBHigh => 7 + limit,
        Step::StageModulusLow => 6 + limit,
        Step::StageModulusHigh => 5 + limit,
        Step::Dispatch => 4 + limit,
        Step::AwaitCompletion => 3 + polls_left,
        Step::CheckFaults => 3,
        Step::ReadResult => 2,
        Step::ClearCompletion(_) => 1,
        Step::Finished(_) => 0,
        Step::Failed(_) => 0,
    }
}

/// Every operation of a run under a limit uses up some of its budget.
proof fn lemma_budget_shrinks(job: Job, limit: u32, events: Seq<Event>)
    ensures
        ({
            let s = state_after(job, Some(limit), events);
            &&& s.poll_limit == Some(limit)
            &&& s.step.wait() is Some ==> s.polls < limit
            &&& s.outcome() is None ==> budget(s) >= 1
            &&& budget(s) + events.len() <= 22 + 5 * limit || s.outcome() is Some
        }),
    decreases events.len(),
{
    if events.len() > 0 {
        lemma_budget_shrinks(job, limit, events.drop_last());
    }
}

/// A run under a limit is over after at most `22 + 5 * limit` operations,
/// whatever the hardware answers: no wait goes on for ever.
pub proof fn lemma_limited_run_ends(job: Job, limit: u32, events: Seq<Event>)
    requires
        events.len() >= 22 + 5 * limit,
    ensures
        state_after(job, Some(limit), events).outcome() is Some,
{
    lemma_budget_shrinks(job, limit, events);
}

/// A run that is over stays as it is, whatever it is told.
pub proof fn lemma_outcome_is_final(
    job: Job,
    poll_limit: Option<u32>,
    events: Seq<Event>,
    more: Seq<Event>,
)
    requires
        state_after(job, poll_limit, events).outcome() is Some,
    ensures
        state_after(job, poll_limit, events + more) == state_after(job, poll_limit, events),
    decreases more.len(),
{
    if more.len() == 0 {
        assert(events + more =~= events);
    } else {
        lemma_outcome_is_final(job, poll_limit, events, more.drop_last());
        assert((events + more).drop_last() =~= events + more.drop_last());
    }
}

/// A run without a limit never times out.
pub proof fn lemma_no_timeout_without_limit(job: Job, events: Seq<Event>)
    ensures
        ({
            let s = state_after(job, None, events);
            &&& s.poll_limit is None
            &&& s.step matches Step::Failed(fault) ==> !(fault is Timeout)
        }),
    decreases events.len(),
{
    if events.len() > 0 {
        lemma_no_timeout_without_limit(job, events.drop_last());
    }
}

} // verus!
