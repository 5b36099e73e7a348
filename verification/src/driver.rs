//! The procedure run against the model of the device, from the first write
//! to the clock controller to the clearing of the completion flag.

use vstd::prelude::*;
use crate::device::{added, operand_at, operand_buffer, Device, Model, Registers};
use crate::layout::{
    MODULUS_ADDRESS, OPERAND_A_ADDRESS, OPERAND_B_ADDRESS, OPERAND_LENGTH_ADDRESS, RAM_WORDS,
    RESULT_ADDRESS,
};
use crate::scratch::{stored, word_index};
use crate::sequencer::{operand_words, Action, Event, Fault, Job, Sequencer, Step, Wait};

verus! {

/// The scratch memory with the four fields of `job` staged.
pub open spec fn staged(ram: Seq<u32>, job: Job) -> Seq<u32> {
    let length = stored(ram, OPERAND_LENGTH_ADDRESS as int, seq![job.operand_length]);
    let a = stored(length, OPERAND_A_ADDRESS as int, operand_words(job.operand_a));
    let b = stored(a, OPERAND_B_ADDRESS as int, operand_words(job.operand_b));
    stored(b, MODULUS_ADDRESS as int, operand_words(job.modulus))
}

/// What a run comes to on a device that starts as `model`.
///
/// Without a crystal, or with no poll allowed, the wait for the oscillator
/// times out. A memory fault during the operation is reported in place of
/// a result. Otherwise the result is the sum of the operands reduced by
/// the modulus; with a modulus of zero the accelerator stores nothing, and
/// the word that the result field held before comes back.
pub open spec fn outcome_of(model: Model, job: Job, poll_limit: u32) -> Result<u32, Fault> {
    if poll_limit == 0 || !model.oscillator_fitted {
        Err(Fault::Timeout(Wait::Oscillator))
    } else if model.memory_fault {
        Err(Fault::RamError)
    } else if job.modulus == 0 {
        Ok(model.ram[word_index(RESULT_ADDRESS as int)])
    } else {
        Ok(((job.operand_a + job.operand_b) % (job.modulus as int)) as u32)
    }
}

/// The device as a run leaves it.
///
/// A run that timed out on the oscillator has switched it on and done
/// nothing else. Any other run has brought all three peripherals up and
/// staged the operands; after a memory fault the completion and memory
/// error flags are left standing, and after a clean operation the result
/// is in place and every flag is clear.
pub open spec fn left_by(model: Model, job: Job, poll_limit: u32) -> Model {
    if poll_limit == 0 || !model.oscillator_fitted {
        model.with_registers(Registers { oscillator_on: true, ..model.registers })
    } else {
        Model {
            registers: Registers {
                oscillator_on: true,
                entropy_clock_selected: true,
                entropy_bus_clock: true,
                accelerator_bus_clock: true,
                entropy_enabled: true,
                entropy_reset: false,
                entropy_interrupt: true,
                accelerator_enabled: true,
                mode: job.opcode.mode(),
                completion: model.memory_fault,
                address_error: false,
                ram_error: model.memory_fault,
            },
            ram: if model.memory_fault {
                staged(model.ram, job)
            } else {
                added(staged(model.ram, job))
            },
            ..model
        }
    }
}

/// The scratch memory after the first `words` stores of the staging.
spec fn staging(ram: Seq<u32>, job: Job, words: int) -> Seq<u32> {
    let a = word_index(OPERAND_A_ADDRESS as int);
    let b = word_index(OPERAND_B_ADDRESS as int);
    let n = word_index(MODULUS_ADDRESS as int);
    let r1 = if words >= 1 {
        ram.update(word_index(OPERAND_LENGTH_ADDRESS as int), job.operand_length)
    } else {
        ram
    };
    let r2 = if words >= 2 {
        r1.update(a, job.operand_a)
    } else {
        r1
    };
    let r3 = if words >= 3 {
        r2.update(a + 1, 0)
    } else {
        r2
    };
    let r4 = if words >= 4 {
        r3.update(b, job.operand_b)
    } else {
        r3
    };
    let r5 = if words >= 5 {
        r4.update(b + 1, 0)
    } else {
        r4
    };
    let r6 = if words >= 6 {
        r5.update(n, job.modulus)
    } else {
        r5
    };
    if words >= 7 {
        r6.update(n + 1, 0)
    } else {
        r6
    }
}

/// The device after the first `count` operations of a run in which every
/// wait was over at its first poll.
spec fn model_at(model: Model, job: Job, count: int) -> Model {
    let r = model.registers;
    Model {
        registers: Registers {
            oscillator_on: count >= 1 || r.oscillator_on,
            entropy_clock_selected: count >= 3 || r.entropy_clock_selected,
            entropy_bus_clock: count >= 4 || r.entropy_bus_clock,
            accelerator_bus_clock: count >= 10 || r.accelerator_bus_clock,
            entropy_enabled: if count < 6 {
                r.entropy_enabled
            } else {
                count >= 8
            },
            entropy_reset: if count < 6 {
                r.entropy_reset
            } else {
                count == 6
            },
            entropy_interrupt: if count < 6 {
                r.entropy_interrupt
            } else {
                count >= 8
            },
            accelerator_enabled: if count < 11 {
                r.accelerator_enabled
            } else {
                count >= 13
            },
            mode: if count < 13 {
                r.mode
            } else if count < 23 {
                0
            } else {
                job.opcode.mode()
            },
            completion: if count < 15 {
                r.completion
            } else {
                23 <= count < 27
            },
            address_error: count < 15 && r.address_error,
            ram_error: if count < 15 {
                r.ram_error
            } else {
                count >= 23 && model.memory_fault
            },
        },
        ram: if count < 23 || model.memory_fault {
            staging(model.ram, job, count - 15)
        } else {
            added(staging(model.ram, job, 7))
        },
        ..model
    }
}

/// The number of operations that have changed the device when the run is
/// in this state.
spec fn count_of(sequencer: Sequencer) -> int {
    match sequencer.step {
        Step::Failed(Fault::Timeout(_)) => 1,
        Step::Failed(_) => 24,
        step => step.rank() as int,
    }
}

/// The state of the run and the state of the device belong together.
spec fn coherent(sequencer: Sequencer, now: Model, start: Model, job: Job, poll_limit: u32) -> bool {
    let count = count_of(sequencer);
    let sound = poll_limit > 0 && start.oscillator_fitted;
    &&& sequencer.job == job
    &&& sequencer.poll_limit == Some(poll_limit)
    &&& now == model_at(start, job, count)
    &&& sequencer.polls <= poll_limit
    &&& match sequencer.step {
        Step::Failed(fault) => fault == Fault::Timeout(Wait::Oscillator) && !sound
            || fault == Fault::RamError && sound && start.memory_fault,
        Step::EnableOscillator => sequencer.polls == 0,
        Step::AwaitOscillator => poll_limit > 0 && sequencer.polls < poll_limit && (sound
            ==> sequencer.polls == 0),
        Step::ClearCompletion(word) | Step::Finished(word) => sound && !start.memory_fault
            && sequencer.polls == 0 && word == now.ram[word_index(RESULT_ADDRESS as int)],
        Step::ReadResult => sound && !start.memory_fault && sequencer.polls == 0,
        _ => sound && sequencer.polls == 0,
    }
}

/// How much of the run is left at most, in steps and in polls of the
/// current wait.
spec fn steps_left(sequencer: Sequencer) -> int {
    27 - sequencer.step.rank()
}

proof fn lemma_staging_is_staged(ram: Seq<u32>, job: Job)
    requires
        ram.len() == RAM_WORDS,
    ensures
        staging(ram, job, 7) == staged(ram, job),
{
    assert(staging(ram, job, 7) =~= staged(ram, job));
}

/// The accelerator's sum of staged operands.
proof fn lemma_added_staged(ram: Seq<u32>, job: Job)
    requires
        ram.len() == RAM_WORDS,
    ensures
        added(staged(ram, job))[word_index(RESULT_ADDRESS as int)] == if job.modulus == 0 {
            ram[word_index(RESULT_ADDRESS as int)]
        } else {
            ((job.operand_a + job.operand_b) % (job.modulus as int)) as u32
        },
{
    let s = staged(ram, job);
    assert(operand_at(s, OPERAND_A_ADDRESS as int) == job.operand_a);
    assert(operand_at(s, OPERAND_B_ADDRESS as int) == job.operand_b);
    assert(operand_at(s, MODULUS_ADDRESS as int) == job.modulus);
    if job.modulus != 0 {
        let sum = ((job.operand_a + job.operand_b) % (job.modulus as int)) as nat;
        assert(sum < job.modulus);
        assert(operand_buffer(sum)[1] == sum as u32);
    }
}

/// What one round of the run does: the pending operation is performed on
/// the device and its outcome handed to the sequencer. The run and the
/// device stay together, and the run has come closer to its end.
spec fn round_holds(
    sequencer: Sequencer,
    now: Model,
    start: Model,
    job: Job,
    poll_limit: u32,
) -> bool {
    let action = sequencer.pending();
    let next = sequencer.after(now.answer(action));
    &&& coherent(next, now.after(action), start, job, poll_limit)
    &&& steps_left(next) < steps_left(sequencer) || steps_left(next) == steps_left(sequencer)
        && poll_limit - next.polls < poll_limit - sequencer.polls
}

/// The first round: the oscillator is switched on, and the wait for it
/// begins or, where no poll is allowed, has timed out already.
#[verifier::rlimit(40)]
proof fn lemma_round_first(
    sequencer: Sequencer,
    now: Model,
    start: Model,
    job: Job,
    poll_limit: u32,
)
    requires
        start.ram.len() == RAM_WORDS,
        coherent(sequencer, now, start, job, poll_limit),
        sequencer.step == Step::EnableOscillator,
    ensures
        round_holds(sequencer, now, start, job, poll_limit),
{
    let action = sequencer.pending();
    assert(action == Action::EnableOscillator);
    let event = now.answer(action);
    assert(event == Event::Done);
    let next = sequencer.after(event);
    assert(next == sequencer.entered(Step::AwaitOscillator));
    assert(Step::AwaitOscillator.wait() == Some(Wait::Oscillator));
    assert(count_of(sequencer) == 0);
    assert(count_of(next) == 1);
    assert(now.after(action).ram =~= model_at(start, job, 1).ram);
    assert(now.after(action).registers == model_at(start, job, 1).registers);
    assert(now.after(action) == model_at(start, job, 1));
    assert(coherent(next, now.after(action), start, job, poll_limit));
}

/// A round while the oscillator is waited for and the entropy source's clocks
/// are switched on.
#[verifier::rlimit(40)]
proof fn lemma_round_clocks(
    sequencer: Sequencer,
    now: Model,
    start: Model,
    job: Job,
    poll_limit: u32,
)
    requires
        start.ram.len() == RAM_WORDS,
        coherent(sequencer, now, start, job, poll_limit),
        sequencer.outcome() is None,
        1 <= sequencer.step.rank() < 5,
    ensures
        round_holds(sequencer, now, start, job, poll_limit),
{
    let action = sequencer.pending();
    let next = sequencer.after(now.answer(action));
    assert(now.after(action).ram =~= model_at(start, job, count_of(next)).ram);
}

/// A round while the entropy source is brought up.
#[verifier::rlimit(40)]
proof fn lemma_round_entropy(
    sequencer: Sequencer,
    now: Model,
    start: Model,
    job: Job,
    poll_limit: u32,
)
    requires
        start.ram.len() == RAM_WORDS,
        coherent(sequencer, now, start, job, poll_limit),
        sequencer.outcome() is None,
        5 <= sequencer.step.rank() < 9,
    ensures
        round_holds(sequencer, now, start, job, poll_limit),
{
    let action = sequencer.pending();
    let next = sequencer.after(now.answer(action));
    assert(now.after(action).ram =~= model_at(start, job, count_of(next)).ram);
}

/// A round while the accelerator is brought up.
#[verifier::rlimit(40)]
proof fn lemma_round_accelerator(
    sequencer: Sequencer,
    now: Model,
    start: Model,
    job: Job,
    poll_limit: u32,
)
    requires
        start.ram.len() == RAM_WORDS,
        coherent(sequencer, now, start, job, poll_limit),
        sequencer.outcome() is None,
        9 <= sequencer.step.rank() < 15,
    ensures
        round_holds(sequencer, now, start, job, poll_limit),
{
    let action = sequencer.pending();
    let next = sequencer.after(now.answer(action));
    assert(now.after(action).ram =~= model_at(start, job, count_of(next)).ram);
}

/// A round while the operands are staged.
#[verifier::rlimit(40)]
proof fn lemma_round_staging(
    sequencer: Sequencer,
    now: Model,
    start: Model,
    job: Job,
    poll_limit: u32,
)
    requires
        start.ram.len() == RAM_WORDS,
        coherent(sequencer, now, start, job, poll_limit),
        sequencer.outcome() is None,
        15 <= sequencer.step.rank() < 22,
    ensures
        round_holds(sequencer, now, start, job, poll_limit),
{
    let action = sequencer.pending();
    let next = sequencer.after(now.answer(action));
    assert(now.accelerator_ready());
    assert(now.after(action).ram =~= model_at(start, job, count_of(next)).ram);
}

/// A round from the start of the operation on.
#[verifier::rlimit(40)]
proof fn lemma_round_operation(
    sequencer: Sequencer,
    now: Model,
    start: Model,
    job: Job,
    poll_limit: u32,
)
    requires
        start.ram.len() == RAM_WORDS,
        coherent(sequencer, now, start, job, poll_limit),
        sequencer.outcome() is None,
        22 <= sequencer.step.rank(),
    ensures
        round_holds(sequencer, now, start, job, poll_limit),
{
    let action = sequencer.pending();
    let next = sequencer.after(now.answer(action));
    assert(now.accelerator_ready());
    assert(now.after(action).ram =~= model_at(start, job, count_of(next)).ram);
}

/// One round of the run keeps the run and the device together.
proof fn lemma_round(sequencer: Sequencer, now: Model, start: Model, job: Job, poll_limit: u32)
    requires
        start.ram.len() == RAM_WORDS,
        coherent(sequencer, now, start, job, poll_limit),
        sequencer.outcome() is None,
    ensures
        round_holds(sequencer, now, start, job, poll_limit),
{
    if sequencer.step == Step::EnableOscillator {
        lemma_round_first(sequencer, now, start, job, poll_limit);
    } else if sequencer.step.rank() < 5 {
        lemma_round_clocks(sequencer, now, start, job, poll_limit);
    } else if sequencer.step.rank() < 9 {
        lemma_round_entropy(sequencer, now, start, job, poll_limit);
    } else if sequencer.step.rank() < 15 {
        lemma_round_accelerator(sequencer, now, start, job, poll_limit);
    } else if sequencer.step.rank() < 22 {
        lemma_round_staging(sequencer, now, start, job, poll_limit);
    } else {
        lemma_round_operation(sequencer, now, start, job, poll_limit);
    }
}

/// Runs `job` on `device`, with at most `poll_limit` polls for each wait.
pub fn run(device: &mut Device, job: Job, poll_limit: u32) -> (outcome: Result<u32, Fault>)
    requires
        old(device).wf(),
    ensures
        final(device).wf(),
        outcome == outcome_of(old(device)@, job, poll_limit),
        final(device)@ == left_by(old(device)@, job, poll_limit),
{
    let mut sequencer = Sequencer::new(job, Some(poll_limit));
    assert(device@ =~= model_at(old(device)@, job, 0));
    loop
        invariant
            old(device).wf(),
            device.wf(),
            coherent(sequencer, device@, old(device)@, job, poll_limit),
        decreases steps_left(sequencer), poll_limit - sequencer.polls,
    {
        if let Some(outcome) = sequencer.outcome() {
            proof {
                lemma_added_staged(old(device)@.ram, job);
                lemma_staging_is_staged(old(device)@.ram, job);
                assert(device@.ram =~= left_by(old(device)@, job, poll_limit).ram);
            }
            return outcome;
        }
        proof {
            lemma_round(sequencer, device@, old(device)@, job, poll_limit);
        }
        let action = sequencer.pending();
        let event = device.apply(action);
        sequencer.advance(event);
    }
}

} // verus!
