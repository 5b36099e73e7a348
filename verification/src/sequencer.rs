//! The bring-up and compute procedure as a state machine.
//!
//! A [`Sequencer`] never touches a register. It names the next operation
//! ([`Sequencer::pending`]); the caller performs it on the hardware and
//! hands the outcome back ([`Sequencer::advance`]). Every wait is a row of
//! polls, bounded where a limit was given, and the fault flags are read
//! before the result is.

use vstd::prelude::*;
use crate::layout::{
    MODE_MODULAR_ADDITION, MODULUS_ADDRESS, OPERAND_A_ADDRESS, OPERAND_B_ADDRESS,
    OPERAND_LENGTH_ADDRESS, OPERAND_WORDS, RESULT_ADDRESS, SETTLE_CYCLES,
};
use crate::scratch::{refusal, transfer, transfer_address, transfer_index};

verus! {

/// The arithmetic that the accelerator is asked for.
#[derive(Clone, Copy, Debug, PartialEq, Eq, Structural)]
pub enum Opcode {
    /// `(a + b) mod n`.
    ModularAddition,
}

impl Opcode {
    /// The value of the control register's mode field for this opcode.
    pub open spec fn mode_spec(self) -> u8 {
        MODE_MODULAR_ADDITION
    }

    /// The value of the control register's mode field for this opcode.
    #[verifier::when_used_as_spec(mode_spec)]
    pub fn mode(self) -> (m: u8)
        ensures
            m == self.mode_spec(),
    {
        match self {
            Opcode::ModularAddition => MODE_MODULAR_ADDITION,
        }
    }
}

/// One operation with its operands.
#[derive(Clone, Copy, Debug, PartialEq, Eq, Structural)]
pub struct Job {
    /// Bit length of the operands, as the accelerator is told it.
    pub operand_length: u32,
    pub operand_a: u32,
    pub operand_b: u32,
    pub modulus: u32,
    pub opcode: Opcode,
}

/// The readiness bits that the procedure waits for.
#[derive(Clone, Copy, Debug, PartialEq, Eq, Structural)]
pub enum Wait {
    /// The external oscillator is stable.
    Oscillator,
    /// The entropy source's bus clock is on.
    EntropyBusClock,
    /// The entropy source holds a data word.
    EntropyReady,
    /// The accelerator has finished its initialisation.
    AcceleratorReady,
    /// The accelerator has finished the operation.
    Completion,
}

/// Why the procedure stopped without a result.
#[derive(Clone, Copy, Debug, PartialEq, Eq, Structural)]
pub enum Fault {
    /// The readiness bit was still clear at the last poll that the limit
    /// allows.
    Timeout(Wait),
    /// The accelerator flagged an access outside its memory.
    AddressError,
    /// The accelerator flagged a clash on its memory.
    RamError,
    /// The caller answered an operation with an outcome of another kind.
    UnexpectedEvent,
}

/// A register or memory operation for the caller to perform.
#[derive(Clone, Copy, Debug, PartialEq, Eq, Structural)]
pub enum Action {
    /// Switch the external oscillator on.
    EnableOscillator,
    /// Read the oscillator's ready bit.
    PollOscillatorReady,
    /// Select the entropy source's kernel clock.
    SelectEntropyClock,
    /// Switch the entropy source's bus clock on.
    EnableEntropyBusClock,
    /// Read the entropy source's bus clock bit back.
    PollEntropyBusClock,
    /// Put the entropy source in conditioning reset with its enable bit
    /// low.
    ResetEntropy,
    /// Take the entropy source out of reset, its enable bit still low.
    ReleaseEntropyReset,
    /// Switch the entropy source and its interrupt on.
    EnableEntropy,
    /// Read the entropy source's data-ready bit.
    PollEntropyReady,
    /// Switch the accelerator's bus clock on.
    EnableAcceleratorBusClock,
    /// Clear the accelerator's enable bit.
    DisableAccelerator,
    /// Idle for a number of cycles.
    Pause { cycles: u32 },
    /// Write the accelerator's control register with only its enable bit
    /// set.
    EnableAccelerator,
    /// Read the accelerator's initialisation bit.
    PollAcceleratorReady,
    /// Write the flag-clear register with the chosen bits set.
    ClearFlags { address_error: bool, ram_error: bool, completion: bool },
    /// Store one word in the scratch memory.
    WriteWord { address: usize, value: u32 },
    /// Select the mode and set the start bit.
    Dispatch { opcode: Opcode },
    /// Read the accelerator's end-of-operation flag.
    PollCompletion,
    /// Read the accelerator's two error flags.
    ReadFaultFlags,
    /// Load one word from the scratch memory.
    ReadWord { address: usize },
    /// Nothing is left to do.
    Park,
}

/// The outcome of an operation, as the caller reports it.
#[derive(Clone, Copy, Debug, PartialEq, Eq, Structural)]
pub enum Event {
    /// A write was made, or a pause is over.
    Done,
    /// The bit that a poll read.
    Flag(bool),
    /// The word that a load returned.
    Word(u32),
    /// The error flags as read.
    Faults { address_error: bool, ram_error: bool },
}

/// The milestones of the procedure.
#[derive(Clone, Copy, Debug, PartialEq, Eq, Structural)]
pub enum Stage {
    /// Nothing is running: before the oscillator is stable, and again once
    /// the completion flag has been cleared.
    Idle,
    /// The external oscillator is stable.
    OscillatorReady,
    /// The entropy source holds a data word.
    EntropyReady,
    /// The accelerator has finished its initialisation.
    AcceleratorReady,
    /// Bit length, operands and modulus are in the scratch memory.
    OperandsStaged,
    /// The accelerator has been started.
    OperationRunning,
    /// The accelerator has flagged the end of the operation.
    OperationComplete,
    /// The result word has been read.
    ResultRead,
    /// The procedure has stopped on a fault.
    Faulted,
}

/// Where the procedure stands: each step but the last two names the
/// operation that is due.
#[derive(Clone, Copy, Debug, PartialEq, Eq, Structural)]
pub enum Step {
    EnableOscillator,
    AwaitOscillator,
    SelectEntropyClock,
    EnableEntropyBusClock,
    AwaitEntropyBusClock,
    ResetEntropy,
    ReleaseEntropyReset,
    EnableEntropy,
    AwaitEntropy,
    EnableAcceleratorBusClock,
    DisableAccelerator,
    Settle,
    EnableAccelerator,
    AwaitAccelerator,
    ClearFlags,
    StageLength,
    StageOperandALow,
    StageOperandAHigh,
    StageOperandBLow,
    StageOperandBHigh,
    StageModulusLow,
    StageModulusHigh,
    Dispatch,
    AwaitCompletion,
    CheckFaults,
    ReadResult,
    /// The result word is held; the completion flag is still to be cleared.
    ClearCompletion(u32),
    /// The procedure is over with this result word.
    Finished(u32),
    /// The procedure is over with this fault.
    Failed(Fault),
}

/// A two-word operand as a buffer, most significant word first.
pub open spec fn operand_words(value: u32) -> Seq<u32> {
    seq![0u32, value]
}

/// The `k`-th word on the bus when `values` is stored at `offset`.
pub open spec fn staged_write(offset: int, values: Seq<u32>, k: int) -> Action {
    Action::WriteWord {
        address: transfer_address(offset, k) as usize,
        value: values[transfer_index(values.len() as int, k)],
    }
}

impl Step {
    /// The readiness bit that this step polls, if it is a wait.
    pub open spec fn wait_spec(self) -> Option<Wait> {
        match self {
            Step::AwaitOscillator => Some(Wait::Oscillator),
            Step::AwaitEntropyBusClock => Some(Wait::EntropyBusClock),
            Step::AwaitEntropy => Some(Wait::EntropyReady),
            Step::AwaitAccelerator => Some(Wait::AcceleratorReady),
            Step::AwaitCompletion => Some(Wait::Completion),
            _ => None,
        }
    }

    /// The step that comes next in the fixed order of the procedure. What
    /// follows the reading of the result hangs on the word that was read,
    /// and nothing follows the last two steps: of those three, this is the
    /// step itself.
    pub open spec fn successor_spec(self) -> Step {
        match self {
            Step::EnableOscillator => Step::AwaitOscillator,
            Step::AwaitOscillator => Step::SelectEntropyClock,
            Step::SelectEntropyClock => Step::EnableEntropyBusClock,
            Step::EnableEntropyBusClock => Step::AwaitEntropyBusClock,
            Step::AwaitEntropyBusClock => Step::ResetEntropy,
            Step::ResetEntropy => Step::ReleaseEntropyReset,
            Step::ReleaseEntropyReset => Step::EnableEntropy,
            Step::EnableEntropy => Step::AwaitEntropy,
            Step::AwaitEntropy => Step::EnableAcceleratorBusClock,
            Step::EnableAcceleratorBusClock => Step::DisableAccelerator,
            Step::DisableAccelerator => Step::Settle,
            Step::Settle => Step::EnableAccelerator,
            Step::EnableAccelerator => Step::AwaitAccelerator,
            Step::AwaitAccelerator => Step::ClearFlags,
            Step::ClearFlags => Step::StageLength,
            Step::StageLength => Step::StageOperandALow,
            Step::StageOperandALow => Step::StageOperandAHigh,
            Step::StageOperandAHigh => Step::StageOperandBLow,
            Step::StageOperandBLow => Step::StageOperandBHigh,
            Step::StageOperandBHigh => Step::StageModulusLow,
            Step::StageModulusLow => Step::StageModulusHigh,
            Step::StageModulusHigh => Step::Dispatch,
            Step::Dispatch => Step::AwaitCompletion,
            Step::AwaitCompletion => Step::CheckFaults,
            Step::CheckFaults => Step::ReadResult,
            Step::ReadResult => Step::ReadResult,
            Step::ClearCompletion(word) => Step::Finished(word),
            Step::Finished(word) => Step::Finished(word),
            Step::Failed(fault) => Step::Failed(fault),
        }
    }

    /// How far along the procedure the step lies.
    pub open spec fn rank(self) -> nat {
        match self {
            Step::EnableOscillator => 0,
            Step::AwaitOscillator => 1,
            Step::SelectEntropyClock => 2,
            Step::EnableEntropyBusClock => 3,
            Step::AwaitEntropyBusClock => 4,
            Step::ResetEntropy => 5,
            Step::ReleaseEntropyReset => 6,
            Step::EnableEntropy => 7,
            Step::AwaitEntropy => 8,
            Step::EnableAcceleratorBusClock => 9,
            Step::DisableAccelerator => 10,
            Step::Settle => 11,
            Step::EnableAccelerator => 12,
            Step::AwaitAccelerator => 13,
            Step::ClearFlags => 14,
            Step::StageLength => 15,
            Step::StageOperandALow => 16,
            Step::StageOperandAHigh => 17,
            Step::StageOperandBLow => 18,
            Step::StageOperandBHigh => 19,
            Step::StageModulusLow => 20,
            Step::StageModulusHigh => 21,
            Step::Dispatch => 22,
            Step::AwaitCompletion => 23,
            Step::CheckFaults => 24,
            Step::ReadResult => 25,
            Step::ClearCompletion(_) => 26,
            Step::Finished(_) => 27,
            Step::Failed(_) => 27,
        }
    }

    /// The milestone that the step belongs to.
    pub open spec fn stage_spec(self) -> Stage {
        match self {
            Step::EnableOscillator | Step::AwaitOscillator => Stage::Idle,
            Step::SelectEntropyClock
            | Step::EnableEntropyBusClock
            | Step::AwaitEntropyBusClock
            | Step::ResetEntropy
            | Step::ReleaseEntropyReset
            | Step::EnableEntropy
            | Step::AwaitEntropy => Stage::OscillatorReady,
            Step::EnableAcceleratorBusClock
            | Step::DisableAccelerator
            | Step::Settle
            | Step::EnableAccelerator
            | Step::AwaitAccelerator => Stage::EntropyReady,
            Step::ClearFlags
            | Step::StageLength
            | Step::StageOperandALow
            | Step::StageOperandAHigh
            | Step::StageOperandBLow
            | Step::StageOperandBHigh
            | Step::StageModulusLow
            | Step::StageModulusHigh => Stage::AcceleratorReady,
            Step::Dispatch => Stage::OperandsStaged,
            Step::AwaitCompletion => Stage::OperationRunning,
            Step::CheckFaults | Step::ReadResult => Stage::OperationComplete,
            Step::ClearCompletion(_) => Stage::ResultRead,
            Step::Finished(_) => Stage::Idle,
            Step::Failed(_) => Stage::Faulted,
        }
    }

    /// The readiness bit that this step polls, if it is a wait.
    #[verifier::when_used_as_spec(wait_spec)]
    pub fn wait(self) -> (wait: Option<Wait>)
        ensures
            wait == self.wait_spec(),
    {
        match self {
            Step::AwaitOscillator => Some(Wait::Oscillator),
            Step::AwaitEntropyBusClock => Some(Wait::EntropyBusClock),
            Step::AwaitEntropy => Some(Wait::EntropyReady),
            Step::AwaitAccelerator => Some(Wait::AcceleratorReady),
            Step::AwaitCompletion => Some(Wait::Completion),
            _ => None,
        }
    }

    /// The step that comes next in the fixed order of the procedure.
    #[verifier::when_used_as_spec(successor_spec)]
    pub fn successor(self) -> (next: Step)
        ensures
            next == self.successor_spec(),
    {
        match self {
            Step::EnableOscillator => Step::AwaitOscillator,
            Step::AwaitOscillator => Step::SelectEntropyClock,
            Step::SelectEntropyClock => Step::EnableEntropyBusClock,
            Step::EnableEntropyBusClock => Step::AwaitEntropyBusClock,
            Step::AwaitEntropyBusClock => Step::ResetEntropy,
            Step::ResetEntropy => Step::ReleaseEntropyReset,
            Step::ReleaseEntropyReset => Step::EnableEntropy,
            Step::EnableEntropy => Step::AwaitEntropy,
            Step::AwaitEntropy => Step::EnableAcceleratorBusClock,
            Step::EnableAcceleratorBusClock => Step::DisableAccelerator,
            Step::DisableAccelerator => Step::Settle,
            Step::Settle => Step::EnableAccelerator,
            Step::EnableAccelerator => Step::AwaitAccelerator,
            Step::AwaitAccelerator => Step::ClearFlags,
            Step::ClearFlags => Step::StageLength,
            Step::StageLength => Step::StageOperandALow,
            Step::StageOperandALow => Step::StageOperandAHigh,
            Step::StageOperandAHigh => Step::StageOperandBLow,
            Step::StageOperandBLow => Step::StageOperandBHigh,
            Step::StageOperandBHigh => Step::StageModulusLow,
            Step::StageModulusLow => Step::StageModulusHigh,
            Step::StageModulusHigh => Step::Dispatch,
            Step::Dispatch => Step::AwaitCompletion,
            Step::AwaitCompletion => Step::CheckFaults,
            Step::CheckFaults => Step::ReadResult,
            Step::ReadResult => Step::ReadResult,
            Step::ClearCompletion(word) => Step::Finished(word),
            Step::Finished(word) => Step::Finished(word),
            Step::Failed(fault) => Step::Failed(fault),
        }
    }

    /// The milestone that the step belongs to.
    #[verifier::when_used_as_spec(stage_spec)]
    pub fn stage(self) -> (stage: Stage)
        ensures
            stage == self.stage_spec(),
    {
        match self {
            Step::EnableOscillator | Step::AwaitOscillator => Stage::Idle,
            Step::SelectEntropyClock
            | Step::EnableEntropyBusClock
            | Step::AwaitEntropyBusClock
            | Step::ResetEntropy
            | Step::ReleaseEntropyReset
            | Step::EnableEntropy
            | Step::AwaitEntropy => Stage::OscillatorReady,
            Step::EnableAcceleratorBusClock
            | Step::DisableAccelerator
            | Step::Settle
            | Step::EnableAccelerator
            | Step::AwaitAccelerator => Stage::EntropyReady,
            Step::ClearFlags
            | Step::StageLength
            | Step::StageOperandALow
            | Step::StageOperandAHigh
            | Step::StageOperandBLow
            | Step::StageOperandBHigh
            | Step::StageModulusLow
            | Step::StageModulusHigh => Stage::AcceleratorReady,
            Step::Dispatch => Stage::OperandsStaged,
            Step::AwaitCompletion => Stage::OperationRunning,
            Step::CheckFaults | Step::ReadResult => Stage::OperationComplete,
            Step::ClearCompletion(_) => Stage::ResultRead,
            Step::Finished(_) => Stage::Idle,
            Step::Failed(_) => Stage::Faulted,
        }
    }
}

/// The state of one run of the procedure.
#[derive(Clone, Copy, Debug)]
pub struct Sequencer {
    /// The operation that this run computes.
    pub job: Job,
    /// The number of polls that one wait may take; `None` for no limit.
    pub poll_limit: Option<u32>,
    /// Where the run stands.
    pub step: Step,
    /// Polls of the current wait that found the bit clear. Counted only
    /// under a limit.
    pub polls: u32,
}

impl Sequencer {
    /// The state before anything has been done.
    pub open spec fn initial(job: Job, poll_limit: Option<u32>) -> Sequencer {
        Sequencer { job, poll_limit, step: Step::EnableOscillator, polls: 0 }
    }

    /// The state in which the run has stopped on `fault`.
    pub open spec fn failed(self, fault: Fault) -> Sequencer {
        Sequencer { step: Step::Failed(fault), polls: 0, ..self }
    }

    /// The state on arrival at `step`. A wait that may take no poll at all
    /// has timed out at once.
    pub open spec fn entered(self, step: Step) -> Sequencer {
        match step.wait() {
            Some(wait) if self.poll_limit == Some(0u32) => self.failed(Fault::Timeout(wait)),
            _ => Sequencer { step, polls: 0, ..self },
        }
    }

    /// The state after a poll of `wait` has found the bit clear.
    pub open spec fn missed(self, wait: Wait) -> Sequencer {
        match self.poll_limit {
            None => self,
            Some(limit) => if self.polls + 1 < limit {
                Sequencer { polls: (self.polls + 1) as u32, ..self }
            } else {
                self.failed(Fault::Timeout(wait))
            },
        }
    }

    /// The operation that is due in this state.
    pub open spec fn pending_spec(&self) -> Action {
        match self.step {
            Step::EnableOscillator => Action::EnableOscillator,
            Step::AwaitOscillator => Action::PollOscillatorReady,
            Step::SelectEntropyClock => Action::SelectEntropyClock,
            Step::EnableEntropyBusClock => Action::EnableEntropyBusClock,
            Step::AwaitEntropyBusClock => Action::PollEntropyBusClock,
            Step::ResetEntropy => Action::ResetEntropy,
            Step::ReleaseEntropyReset => Action::ReleaseEntropyReset,
            Step::EnableEntropy => Action::EnableEntropy,
            Step::AwaitEntropy => Action::PollEntropyReady,
            Step::EnableAcceleratorBusClock => Action::EnableAcceleratorBusClock,
            Step::DisableAccelerator => Action::DisableAccelerator,
            Step::Settle => Action::Pause { cycles: SETTLE_CYCLES },
            Step::EnableAccelerator => Action::EnableAccelerator,
            Step::AwaitAccelerator => Action::PollAcceleratorReady,
            Step::ClearFlags => Action::ClearFlags {
                address_error: true,
                ram_error: true,
                completion: true,
            },
            Step::StageLength => staged_write(
                OPERAND_LENGTH_ADDRESS as int,
                seq![self.job.operand_length],
                0,
            ),
            Step::StageOperandALow => staged_write(
                OPERAND_A_ADDRESS as int,
                operand_words(self.job.operand_a),
                0,
            ),
            Step::StageOperandAHigh => staged_write(
                OPERAND_A_ADDRESS as int,
                operand_words(self.job.operand_a),
                1,
            ),
            Step::StageOperandBLow => staged_write(
                OPERAND_B_ADDRESS as int,
                operand_words(self.job.operand_b),
                0,
            ),
            Step::StageOperandBHigh => staged_write(
                OPERAND_B_ADDRESS as int,
                operand_words(self.job.operand_b),
                1,
            ),
            Step::StageModulusLow => staged_write(
                MODULUS_ADDRESS as int,
                operand_words(self.job.modulus),
                0,
            ),
            Step::StageModulusHigh => staged_write(
                MODULUS_ADDRESS as int,
                operand_words(self.job.modulus),
                1,
            ),
            Step::Dispatch => Action::Dispatch { opcode: self.job.opcode },
            Step::AwaitCompletion => Action::PollCompletion,
            Step::CheckFaults => Action::ReadFaultFlags,
            Step::ReadResult => Action::ReadWord { address: RESULT_ADDRESS },
            Step::ClearCompletion(_) => Action::ClearFlags {
                address_error: false,
                ram_error: false,
                completion: true,
            },
            Step::Finished(_) => Action::Park,
            Step::Failed(_) => Action::Park,
        }
    }

    /// The state after the pending operation has had the outcome `event`.
    ///
    /// A finished or failed run stays as it is. A wait goes on when the bit
    /// was read set, counts the poll when it was read clear, and times out
    /// when the limit is reached. After completion an address error is
    /// reported before a memory error, and the result is read only when
    /// neither flag is set. An outcome of the wrong kind stops the run.
    pub open spec fn after(self, event: Event) -> Sequencer {
        match self.step {
            Step::Finished(_) | Step::Failed(_) => self,
            Step::CheckFaults => match event {
                Event::Faults { address_error, ram_error } => if address_error {
                    self.failed(Fault::AddressError)
                } else if ram_error {
                    self.failed(Fault::RamError)
                } else {
                    self.entered(Step::ReadResult)
                },
                _ => self.failed(Fault::UnexpectedEvent),
            },
            Step::ReadResult => match event {
                Event::Word(word) => self.entered(Step::ClearCompletion(word)),
                _ => self.failed(Fault::UnexpectedEvent),
            },
            step => match step.wait() {
                Some(wait) => match event {
                    Event::Flag(true) => self.entered(step.successor()),
                    Event::Flag(false) => self.missed(wait),
                    _ => self.failed(Fault::UnexpectedEvent),
                },
                None => match event {
                    Event::Done => self.entered(step.successor()),
                    _ => self.failed(Fault::UnexpectedEvent),
                },
            },
        }
    }

    /// What the run has come to, once it is over.
    pub open spec fn outcome_spec(&self) -> Option<Result<u32, Fault>> {
        match self.step {
            Step::Finished(word) => Some(Ok(word)),
            Step::Failed(fault) => Some(Err(fault)),
            _ => None,
        }
    }
    /// A run of `job` that has done nothing yet.
    pub fn new(job: Job, poll_limit: Option<u32>) -> (sequencer: Sequencer)
        ensures
            sequencer == Sequencer::initial(job, poll_limit),
    {
        Sequencer { job, poll_limit, step: Step::EnableOscillator, polls: 0 }
    }

    /// The operation that is due. The caller performs it and reports its
    /// outcome to [`Sequencer::advance`].
    #[verifier::when_used_as_spec(pending_spec)]
    pub fn pending(&self) -> (action: Action)
        ensures
            action == self.pending_spec(),
            action matches Action::WriteWord { address, .. } ==> refusal(address as int, 1) is None,
            action matches Action::ReadWord { address } ==> refusal(address as int, 1) is None,
    {
        match self.step {
            Step::EnableOscillator => Action::EnableOscillator,
            Step::AwaitOscillator => Action::PollOscillatorReady,
            Step::SelectEntropyClock => Action::SelectEntropyClock,
            Step::EnableEntropyBusClock => Action::EnableEntropyBusClock,
            Step::AwaitEntropyBusClock => Action::PollEntropyBusClock,
            Step::ResetEntropy => Action::ResetEntropy,
            Step::ReleaseEntropyReset => Action::ReleaseEntropyReset,
            Step::EnableEntropy => Action::EnableEntropy,
            Step::AwaitEntropy => Action::PollEntropyReady,
            Step::EnableAcceleratorBusClock => Action::EnableAcceleratorBusClock,
            Step::DisableAccelerator => Action::DisableAccelerator,
            Step::Settle => Action::Pause { cycles: SETTLE_CYCLES },
            Step::EnableAccelerator => Action::EnableAccelerator,
            Step::AwaitAccelerator => Action::PollAcceleratorReady,
            Step::ClearFlags => Action::ClearFlags {
                address_error: true,
                ram_error: true,
                completion: true,
            },
            Step::StageLength => stage_length(self.job.operand_length),
            Step::StageOperandALow => stage_operand(OPERAND_A_ADDRESS, self.job.operand_a, 0),
            Step::StageOperandAHigh => stage_operand(OPERAND_A_ADDRESS, self.job.operand_a, 1),
            Step::StageOperandBLow => stage_operand(OPERAND_B_ADDRESS, self.job.operand_b, 0),
            Step::StageOperandBHigh => stage_operand(OPERAND_B_ADDRESS, self.job.operand_b, 1),
            Step::StageModulusLow => stage_operand(MODULUS_ADDRESS, self.job.modulus, 0),
            Step::StageModulusHigh => stage_operand(MODULUS_ADDRESS, self.job.modulus, 1),
            Step::Dispatch => Action::Dispatch { opcode: self.job.opcode },
            Step::AwaitCompletion => Action::PollCompletion,
            Step::CheckFaults => Action::ReadFaultFlags,
            Step::ReadResult => Action::ReadWord { address: transfer(RESULT_ADDRESS, 1, 0).address },
            Step::ClearCompletion(_) => Action::ClearFlags {
                address_error: false,
                ram_error: false,
                completion: true,
            },
            Step::Finished(_) => Action::Park,
            Step::Failed(_) => Action::Park,
        }
    }

    /// Takes the outcome of the pending operation and moves on.
    pub fn advance(&mut self, event: Event)
        ensures
            *final(self) == old(self).after(event),
    {
        let step = self.step;
        match step {
            Step::Finished(_) | Step::Failed(_) => {},
            Step::CheckFaults => match event {
                Event::Faults { address_error, ram_error } => {
                    if address_error {
                        self.fail(Fault::AddressError);
                    } else if ram_error {
                        self.fail(Fault::RamError);
                    } else {
                        self.enter(Step::ReadResult);
                    }
                },
                _ => self.fail(Fault::UnexpectedEvent),
            },
            Step::ReadResult => match event {
                Event::Word(word) => self.enter(Step::ClearCompletion(word)),
                _ => self.fail(Fault::UnexpectedEvent),
            },
            _ => match step.wait() {
                Some(wait) => match event {
                    Event::Flag(true) => self.enter(step.successor()),
                    Event::Flag(false) => self.miss(wait),
                    _ => self.fail(Fault::UnexpectedEvent),
                },
                None => match event {
                    Event::Done => self.enter(step.successor()),
                    _ => self.fail(Fault::UnexpectedEvent),
                },
            },
        }
    }

    /// The milestone that the run has reached.
    pub fn stage(&self) -> (stage: Stage)
        ensures
            stage == self.step.stage_spec(),
    {
        self.step.stage()
    }

    /// What the run has come to: the result word, or the fault that stopped
    /// it. `None` while the run is going on.
    #[verifier::when_used_as_spec(outcome_spec)]
    pub fn outcome(&self) -> (outcome: Option<Result<u32, Fault>>)
        ensures
            outcome == self.outcome_spec(),
    {
        match self.step {
            Step::Finished(word) => Some(Ok(word)),
            Step::Failed(fault) => Some(Err(fault)),
            _ => None,
        }
    }

    fn fail(&mut self, fault: Fault)
        ensures
            *final(self) == old(self).failed(fault),
    {
        self.step = Step::Failed(fault);
        self.polls = 0;
    }

    fn enter(&mut self, step: Step)
        ensures
            *final(self) == old(self).entered(step),
    {
        match (step.wait(), self.poll_limit) {
            (Some(wait), Some(0)) => self.fail(Fault::Timeout(wait)),
            _ => {
                self.step = step;
                self.polls = 0;
            },
        }
    }

    fn miss(&mut self, wait: Wait)
        ensures
            *final(self) == old(self).missed(wait),
    {
        match self.poll_limit {
            None => {},
            Some(limit) => {
                if limit > 0 && self.polls < limit - 1 {
                    self.polls = self.polls + 1;
                } else {
                    self.fail(Fault::Timeout(wait));
                }
            },
        }
    }
}

/// The store of the operand length.
fn stage_length(length: u32) -> (action: Action)
    ensures
        action == staged_write(OPERAND_LENGTH_ADDRESS as int, seq![length], 0),
{
    let t = transfer(OPERAND_LENGTH_ADDRESS, 1, 0);
    Action::WriteWord { address: t.address, value: length }
}

/// The `k`-th store of a two-word operand: the value goes out first, to the
/// lower address, and the zero word above it second.
fn stage_operand(offset: usize, value: u32, k: usize) -> (action: Action)
    requires
        k < OPERAND_WORDS,
        refusal(offset as int, OPERAND_WORDS as int) is None,
    ensures
        action == staged_write(offset as int, operand_words(value), k as int),
{
    let t = transfer(offset, OPERAND_WORDS, k);
    Action::WriteWord { address: t.address, value: if t.index == 0 { 0 } else { value } }
}

} // verus!
