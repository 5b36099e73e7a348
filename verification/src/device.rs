//! A model of the clock controller, the entropy source and the accelerator:
//! what each operation of the procedure does to them, and what it reads.
//!
//! The model answers at once: a readiness bit is set as soon as what it
//! depends on is in place. A peripheral without its bus clock ignores what
//! is written to it. The accelerator adds two-word operands, whatever bit
//! length was staged.

use vstd::prelude::*;
use crate::layout::{
    MODULUS_ADDRESS, OPERAND_A_ADDRESS, OPERAND_B_ADDRESS, OPERAND_WORDS, RAM_WORDS,
    RESULT_ADDRESS,
};
use crate::scratch::{check_access, loaded, refusal, stored, word_index, ScratchRam};
use crate::sequencer::{Action, Event, Opcode};

verus! {

/// The register bits that the procedure writes or reads.
#[derive(Clone, Copy, Debug, PartialEq, Eq, Structural)]
pub struct Registers {
    /// The external oscillator is switched on.
    pub oscillator_on: bool,
    /// The entropy source's kernel clock is the one that the procedure
    /// selects.
    pub entropy_clock_selected: bool,
    /// The entropy source's bus clock is on.
    pub entropy_bus_clock: bool,
    /// The accelerator's bus clock is on.
    pub accelerator_bus_clock: bool,
    /// The entropy source's enable bit.
    pub entropy_enabled: bool,
    /// The entropy source's conditioning reset bit.
    pub entropy_reset: bool,
    /// The entropy source's interrupt enable bit.
    pub entropy_interrupt: bool,
    /// The accelerator's enable bit.
    pub accelerator_enabled: bool,
    /// The accelerator's mode field.
    pub mode: u8,
    /// The accelerator's end-of-operation flag.
    pub completion: bool,
    /// The accelerator's address error flag.
    pub address_error: bool,
    /// The accelerator's memory error flag.
    pub ram_error: bool,
}

/// The three peripherals as plain values.
pub struct Model {
    pub registers: Registers,
    /// The words of the scratch memory, lowest address first.
    pub ram: Seq<u32>,
    /// A crystal is fitted: the oscillator becomes stable once it is on.
    pub oscillator_fitted: bool,
    /// The next operation ends with the memory error flag set and stores
    /// no result.
    pub memory_fault: bool,
}

/// The two-word value at `address`, its low word at the lower address.
pub open spec fn operand_at(ram: Seq<u32>, address: int) -> nat {
    let words = loaded(ram, address, OPERAND_WORDS as nat);
    (words[0] * 0x1_0000_0000 + words[1]) as nat
}

/// A value below 2^64 as a buffer of two words, most significant first.
pub open spec fn operand_buffer(value: nat) -> Seq<u32> {
    seq![(value / 0x1_0000_0000) as u32, (value % 0x1_0000_0000) as u32]
}

/// The scratch memory after a modular addition: the result field holds the
/// sum of the two operands reduced by the modulus. With a modulus of zero
/// nothing is stored.
pub open spec fn added(ram: Seq<u32>) -> Seq<u32> {
    let a = operand_at(ram, OPERAND_A_ADDRESS as int);
    let b = operand_at(ram, OPERAND_B_ADDRESS as int);
    let n = operand_at(ram, MODULUS_ADDRESS as int);
    if n == 0 {
        ram
    } else {
        stored(ram, RESULT_ADDRESS as int, operand_buffer((a + b) % n))
    }
}

impl Model {
    /// The oscillator's ready bit.
    pub open spec fn oscillator_ready(self) -> bool {
        self.registers.oscillator_on && self.oscillator_fitted
    }

    /// The entropy source's data-ready bit.
    pub open spec fn entropy_ready(self) -> bool {
        &&& self.oscillator_ready()
        &&& self.registers.entropy_clock_selected
        &&& self.registers.entropy_bus_clock
        &&& self.registers.entropy_enabled
        &&& !self.registers.entropy_reset
    }

    /// The accelerator's initialisation bit.
    pub open spec fn accelerator_ready(self) -> bool {
        &&& self.entropy_ready()
        &&& self.registers.accelerator_bus_clock
        &&& self.registers.accelerator_enabled
    }

    /// The model with other register bits.
    pub open spec fn with_registers(self, registers: Registers) -> Model {
        Model { registers, ..self }
    }

    /// The model after `action`.
    pub open spec fn after(self, action: Action) -> Model {
        let r = self.registers;
        match action {
            Action::EnableOscillator => self.with_registers(Registers { oscillator_on: true, ..r }),
            Action::SelectEntropyClock => self.with_registers(
                Registers { entropy_clock_selected: true, ..r },
            ),
            Action::EnableEntropyBusClock => self.with_registers(
                Registers { entropy_bus_clock: true, ..r },
            ),
            Action::ResetEntropy => if r.entropy_bus_clock {
                self.with_registers(
                    Registers {
                        entropy_enabled: false,
                        entropy_reset: true,
                        entropy_interrupt: false,
                        ..r
                    },
                )
            } else {
                self
            },
            Action::ReleaseEntropyReset => if r.entropy_bus_clock {
                self.with_registers(Registers { entropy_reset: false, ..r })
            } else {
                self
            },
            Action::EnableEntropy => if r.entropy_bus_clock {
                self.with_registers(
                    Registers { entropy_enabled: true, entropy_interrupt: true, ..r },
                )
            } else {
                self
            },
            Action::EnableAcceleratorBusClock => self.with_registers(
                Registers { accelerator_bus_clock: true, ..r },
            ),
            Action::DisableAccelerator => if r.accelerator_bus_clock {
                self.with_registers(Registers { accelerator_enabled: false, ..r })
            } else {
                self
            },
            Action::EnableAccelerator => if r.accelerator_bus_clock {
                self.with_registers(Registers { accelerator_enabled: true, mode: 0, ..r })
            } else {
                self
            },
            Action::ClearFlags { address_error, ram_error, completion } => if r.accelerator_bus_clock {
                self.with_registers(
                    Registers {
                        address_error: r.address_error && !address_error,
                        ram_error: r.ram_error && !ram_error,
                        completion: r.completion && !completion,
                        ..r
                    },
                )
            } else {
                self
            },
            Action::WriteWord { address, value } => if !self.accelerator_ready() {
                self
            } else if refusal(address as int, 1) is None {
                Model { ram: self.ram.update(word_index(address as int), value), ..self }
            } else {
                self.with_registers(Registers { address_error: true, ..r })
            },
            Action::ReadWord { address } => if self.accelerator_ready() && refusal(
                address as int,
                1,
            ) is Some {
                self.with_registers(Registers { address_error: true, ..r })
            } else {
                self
            },
            Action::Dispatch { opcode } => if !self.accelerator_ready() {
                self
            } else if self.memory_fault {
                self.with_registers(
                    Registers { mode: opcode.mode(), completion: true, ram_error: true, ..r },
                )
            } else {
                Model {
                    registers: Registers { mode: opcode.mode(), completion: true, ..r },
                    ram: added(self.ram),
                    ..self
                }
            },
            Action::PollOscillatorReady
            | Action::PollEntropyBusClock
            | Action::PollEntropyReady
            | Action::PollAcceleratorReady
            | Action::PollCompletion
            | Action::ReadFaultFlags
            | Action::Pause { .. }
            | Action::Park => self,
        }
    }

    /// What `action` reports back.
    pub open spec fn answer(self, action: Action) -> Event {
        let r = self.registers;
        match action {
            Action::PollOscillatorReady => Event::Flag(self.oscillator_ready()),
            Action::PollEntropyBusClock => Event::Flag(r.entropy_bus_clock),
            Action::PollEntropyReady => Event::Flag(self.entropy_ready()),
            Action::PollAcceleratorReady => Event::Flag(self.accelerator_ready()),
            Action::PollCompletion => Event::Flag(r.completion),
            Action::ReadFaultFlags => Event::Faults {
                address_error: r.address_error,
                ram_error: r.ram_error,
            },
            Action::ReadWord { address } => if self.accelerator_ready() && refusal(
                address as int,
                1,
            ) is None {
                Event::Word(self.ram[word_index(address as int)])
            } else {
                Event::Word(0)
            },
            _ => Event::Done,
        }
    }
}

/// The three peripherals, for a sequencer to be run against.
#[derive(Clone, Debug, PartialEq, Eq)]
pub struct Device {
    pub registers: Registers,
    pub ram: ScratchRam,
    /// A crystal is fitted: the oscillator becomes stable once it is on.
    pub oscillator_fitted: bool,
    /// The next operation ends with the memory error flag set and stores
    /// no result.
    pub memory_fault: bool,
}

impl Device {
    /// The device as plain values.
    pub open spec fn view(&self) -> Model {
        Model {
            registers: self.registers,
            ram: self.ram@,
            oscillator_fitted: self.oscillator_fitted,
            memory_fault: self.memory_fault,
        }
    }

    /// The scratch memory has its full size.
    pub open spec fn wf(&self) -> bool {
        self.ram.wf()
    }

    /// A sound device after reset: every bit clear, the memory zero.
    pub fn new() -> (device: Device)
        ensures
            device.wf(),
            device.oscillator_fitted,
            !device.memory_fault,
            device.registers == (Registers {
                oscillator_on: false,
                entropy_clock_selected: false,
                entropy_bus_clock: false,
                accelerator_bus_clock: false,
                entropy_enabled: false,
                entropy_reset: false,
                entropy_interrupt: false,
                accelerator_enabled: false,
                mode: 0,
                completion: false,
                address_error: false,
                ram_error: false,
            }),
            forall|i: int| 0 <= i < RAM_WORDS ==> device.ram@[i] == 0,
    {
        Device {
            registers: Registers {
                oscillator_on: false,
                entropy_clock_selected: false,
                entropy_bus_clock: false,
                accelerator_bus_clock: false,
                entropy_enabled: false,
                entropy_reset: false,
                entropy_interrupt: false,
                accelerator_enabled: false,
                mode: 0,
                completion: false,
                address_error: false,
                ram_error: false,
            },
            ram: ScratchRam::new(),
            oscillator_fitted: true,
            memory_fault: false,
        }
    }

    /// The oscillator's ready bit.
    pub fn oscillator_ready(&self) -> (ready: bool)
        ensures
            ready == self@.oscillator_ready(),
    {
        self.registers.oscillator_on && self.oscillator_fitted
    }

    /// The entropy source's data-ready bit.
    pub fn entropy_ready(&self) -> (ready: bool)
        ensures
            ready == self@.entropy_ready(),
    {
        self.oscillator_ready() && self.registers.entropy_clock_selected
            && self.registers.entropy_bus_clock && self.registers.entropy_enabled
            && !self.registers.entropy_reset
    }

    /// The accelerator's initialisation bit.
    pub fn accelerator_ready(&self) -> (ready: bool)
        ensures
            ready == self@.accelerator_ready(),
    {
        self.entropy_ready() && self.registers.accelerator_bus_clock
            && self.registers.accelerator_enabled
    }

    /// Performs `action` on the model and reports its outcome.
    pub fn apply(&mut self, action: Action) -> (event: Event)
        requires
            old(self).wf(),
        ensures
            final(self).wf(),
            final(self)@ == old(self)@.after(action),
            event == old(self)@.answer(action),
    {
        let event = self.read(action);
        self.write(action);
        event
    }

    /// What `action` reads.
    fn read(&self, action: Action) -> (event: Event)
        requires
            self.wf(),
        ensures
            event == self@.answer(action),
    {
        match action {
            Action::PollOscillatorReady => Event::Flag(self.oscillator_ready()),
            Action::PollEntropyBusClock => Event::Flag(self.registers.entropy_bus_clock),
            Action::PollEntropyReady => Event::Flag(self.entropy_ready()),
            Action::PollAcceleratorReady => Event::Flag(self.accelerator_ready()),
            Action::PollCompletion => Event::Flag(self.registers.completion),
            Action::ReadFaultFlags => Event::Faults {
                address_error: self.registers.address_error,
                ram_error: self.registers.ram_error,
            },
            Action::ReadWord { address } => {
                if self.accelerator_ready() {
                    match self.ram.load(address) {
                        Ok(word) => Event::Word(word),
                        Err(_) => Event::Word(0),
                    }
                } else {
                    Event::Word(0)
                }
            },
            _ => Event::Done,
        }
    }

    /// What `action` changes.
    fn write(&mut self, action: Action)
        requires
            old(self).wf(),
        ensures
            final(self).wf(),
            final(self)@ == old(self)@.after(action),
    {
        match action {
            Action::WriteWord { address, value } => self.write_word(address, value),
            Action::ReadWord { address } => self.read_word(address),
            Action::Dispatch { opcode } => self.dispatch(opcode),
            _ => self.write_register(action),
        }
    }

    /// What a store to the scratch memory changes.
    fn write_word(&mut self, address: usize, value: u32)
        requires
            old(self).wf(),
        ensures
            final(self).wf(),
            final(self)@ == old(self)@.after(Action::WriteWord { address, value }),
    {
        if self.accelerator_ready() {
            if self.ram.store(address, value).is_err() {
                self.registers.address_error = true;
            }
        }
    }

    /// What a load from the scratch memory changes: nothing, or the address
    /// error flag.
    fn read_word(&mut self, address: usize)
        requires
            old(self).wf(),
        ensures
            final(self).wf(),
            final(self)@ == old(self)@.after(Action::ReadWord { address }),
    {
        if self.accelerator_ready() && check_access(address, 1).is_err() {
            self.registers.address_error = true;
        }
    }

    /// What the start of an operation changes.
    fn dispatch(&mut self, opcode: Opcode)
        requires
            old(self).wf(),
        ensures
            final(self).wf(),
            final(self)@ == old(self)@.after(Action::Dispatch { opcode }),
    {
        if self.accelerator_ready() {
            self.registers.mode = opcode.mode();
            self.registers.completion = true;
            if self.memory_fault {
                self.registers.ram_error = true;
            } else {
                self.add();
            }
        }
    }

    /// What a write to a register changes.
    #[verifier::rlimit(40)]
    fn write_register(&mut self, action: Action)
        requires
            old(self).wf(),
            !(action is WriteWord),
            !(action is ReadWord),
            !(action is Dispatch),
        ensures
            final(self).wf(),
            final(self)@ == old(self)@.after(action),
    {
        let r = self.registers;
        match action {
            Action::EnableOscillator => {
                self.registers = Registers { oscillator_on: true, ..r };
            },
            Action::SelectEntropyClock => {
                self.registers = Registers { entropy_clock_selected: true, ..r };
            },
            Action::EnableEntropyBusClock => {
                self.registers = Registers { entropy_bus_clock: true, ..r };
            },
            Action::ResetEntropy => {
                if r.entropy_bus_clock {
                    self.registers = Registers {
                        entropy_enabled: false,
                        entropy_reset: true,
                        entropy_interrupt: false,
                        ..r
                    };
                }
            },
            Action::ReleaseEntropyReset => {
                if r.entropy_bus_clock {
                    self.registers = Registers { entropy_reset: false, ..r };
                }
            },
            Action::EnableEntropy => {
                if r.entropy_bus_clock {
                    self.registers = Registers {
                        entropy_enabled: true,
                        entropy_interrupt: true,
                        ..r
                    };
                }
            },
            Action::EnableAcceleratorBusClock => {
                self.registers = Registers { accelerator_bus_clock: true, ..r };
            },
            Action::DisableAccelerator => {
                if r.accelerator_bus_clock {
                    self.registers = Registers { accelerator_enabled: false, ..r };
                }
            },
            Action::EnableAccelerator => {
                if r.accelerator_bus_clock {
                    self.registers = Registers { accelerator_enabled: true, mode: 0, ..r };
                }
            },
            Action::ClearFlags { address_error, ram_error, completion } => {
                if r.accelerator_bus_clock {
                    self.registers = Registers {
                        address_error: r.address_error && !address_error,
                        ram_error: r.ram_error && !ram_error,
                        completion: r.completion && !completion,
                        ..r
                    };
                }
            },
            _ => {},
        }
    }

    /// The two-word value at `address`.
    fn operand(&self, address: usize) -> (value: u64)
        requires
            self.wf(),
            refusal(address as int, OPERAND_WORDS as int) is None,
        ensures
            value == operand_at(self.ram@, address as int),
    {
        let mut words: Vec<u32> = vec![0u32, 0u32];
        let _ = self.ram.read_ram(address, words.as_mut_slice());
        (words[0] as u64) * 0x1_0000_0000 + (words[1] as u64)
    }

    /// The accelerator's modular addition on what the scratch memory
    /// holds.
    fn add(&mut self)
        requires
            old(self).wf(),
        ensures
            final(self).wf(),
            final(self).ram@ == added(old(self).ram@),
            final(self).registers == old(self).registers,
            final(self).oscillator_fitted == old(self).oscillator_fitted,
            final(self).memory_fault == old(self).memory_fault,
    {
        let a: u64 = self.operand(OPERAND_A_ADDRESS);
        let b: u64 = self.operand(OPERAND_B_ADDRESS);
        let n: u64 = self.operand(MODULUS_ADDRESS);
        if n != 0 {
            let sum: u128 = (a as u128 + b as u128) % (n as u128);
            let high: u32 = (sum / 0x1_0000_0000) as u32;
            let low: u32 = (sum % 0x1_0000_0000) as u32;
            let words: Vec<u32> = vec![high, low];
            assert(words@ =~= operand_buffer(sum as nat));
            let _ = self.ram.write_ram(RESULT_ADDRESS, words.as_slice());
        }
    }
}

/// Clearing a flag that is clear changes nothing: the write to the
/// flag-clear register is all that happens.
pub proof fn lemma_clear_when_clear(
    model: Model,
    address_error: bool,
    ram_error: bool,
    completion: bool,
)
    requires
        address_error ==> !model.registers.address_error,
        ram_error ==> !model.registers.ram_error,
        completion ==> !model.registers.completion,
    ensures
        model.after(Action::ClearFlags { address_error, ram_error, completion }) == model,
{
}

/// Clearing flags a second time changes nothing, and no flag that was not
/// named is touched.
pub proof fn lemma_clear_twice(model: Model, address_error: bool, ram_error: bool, completion: bool)
    ensures
        ({
            let clear = Action::ClearFlags { address_error, ram_error, completion };
            let once = model.after(clear);
            &&& once.after(clear) == once
            &&& once.ram == model.ram
            &&& !address_error ==> once.registers.address_error == model.registers.address_error
            &&& !ram_error ==> once.registers.ram_error == model.registers.ram_error
            &&& !completion ==> once.registers.completion == model.registers.completion
        }),
{
}

} // verus!
