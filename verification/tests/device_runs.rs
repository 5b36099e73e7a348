use pka::device::{Device, Registers};
use pka::driver::run;
use pka::layout::{
    MODULUS_ADDRESS, OPERAND_A_ADDRESS, OPERAND_B_ADDRESS, OPERAND_LENGTH_ADDRESS, RESULT_ADDRESS,
};
use pka::sequencer::{Action, Event, Fault, Job, Opcode, Sequencer, Wait};

fn job(operand_a: u32, operand_b: u32, modulus: u32) -> Job {
    Job { operand_length: 64, operand_a, operand_b, modulus, opcode: Opcode::ModularAddition }
}

fn bring_up(device: &mut Device) {
    for action in [
        Action::EnableOscillator,
        Action::SelectEntropyClock,
        Action::EnableEntropyBusClock,
        Action::ResetEntropy,
        Action::ReleaseEntropyReset,
        Action::EnableEntropy,
        Action::EnableAcceleratorBusClock,
        Action::DisableAccelerator,
        Action::EnableAccelerator,
    ] {
        assert_eq!(device.apply(action), Event::Done);
    }
    assert!(device.accelerator_ready());
}

#[test]
fn eleven_plus_eleven_modulo_thirteen_is_nine() {
    let mut device = Device::new();
    assert_eq!(run(&mut device, job(11, 11, 13), 1), Ok(9));
}

#[test]
fn the_run_leaves_the_device_up_and_its_flags_clear() {
    let mut device = Device::new();
    assert_eq!(run(&mut device, job(11, 11, 13), 4), Ok(9));
    assert_eq!(
        device.registers,
        Registers {
            oscillator_on: true,
            entropy_clock_selected: true,
            entropy_bus_clock: true,
            accelerator_bus_clock: true,
            entropy_enabled: true,
            entropy_reset: false,
            entropy_interrupt: true,
            accelerator_enabled: true,
            mode: 0x0E,
            completion: false,
            address_error: false,
            ram_error: false,
        }
    );
    assert_eq!(device.ram.load(OPERAND_LENGTH_ADDRESS), Ok(64));
    assert_eq!(device.ram.load(OPERAND_A_ADDRESS), Ok(11));
    assert_eq!(device.ram.load(OPERAND_A_ADDRESS + 4), Ok(0));
    assert_eq!(device.ram.load(OPERAND_B_ADDRESS), Ok(11));
    assert_eq!(device.ram.load(OPERAND_B_ADDRESS + 4), Ok(0));
    assert_eq!(device.ram.load(MODULUS_ADDRESS), Ok(13));
    assert_eq!(device.ram.load(MODULUS_ADDRESS + 4), Ok(0));
    assert_eq!(device.ram.load(RESULT_ADDRESS), Ok(9));
    assert_eq!(device.ram.load(RESULT_ADDRESS + 4), Ok(0));
}

#[test]
fn the_sum_is_reduced_not_echoed() {
    let cases: [(u32, u32, u32, u32); 8] = [
        (0, 0, 1, 0),
        (0, 0, 13, 0),
        (5, 7, 13, 12),
        (6, 7, 13, 0),
        (12, 12, 13, 11),
        (100, 23, 7, 4),
        (0xFFFF_FFFF, 0xFFFF_FFFF, 7, 6),
        (0xFFFF_FFFF, 0xFFFF_FFFF, 0xFFFF_FFFF, 0),
    ];
    for (a, b, n, expected) in cases {
        let mut device = Device::new();
        assert_eq!(run(&mut device, job(a, b, n), 2), Ok(expected));
    }
    let mut device = Device::new();
    assert_eq!(run(&mut device, job(0x8000_0000, 0x8000_0001, 0xFFFF_FFFE), 2), Ok(3));
}

#[test]
fn a_device_can_be_run_again() {
    let mut device = Device::new();
    assert_eq!(run(&mut device, job(11, 11, 13), 1), Ok(9));
    assert_eq!(run(&mut device, job(20, 30, 17), 1), Ok(16));
    assert_eq!(device.registers.completion, false);
}

#[test]
fn stale_flags_are_cleared_before_the_operation() {
    let mut device = Device::new();
    device.registers.completion = true;
    device.registers.address_error = true;
    device.registers.ram_error = true;
    assert_eq!(run(&mut device, job(11, 11, 13), 1), Ok(9));
    assert!(!device.registers.completion);
    assert!(!device.registers.address_error);
    assert!(!device.registers.ram_error);
}

#[test]
fn a_memory_fault_is_surfaced() {
    let mut device = Device::new();
    device.memory_fault = true;
    assert_eq!(run(&mut device, job(11, 11, 13), 1), Err(Fault::RamError));
    assert!(device.registers.ram_error);
    assert!(device.registers.completion);
    assert_eq!(device.ram.load(RESULT_ADDRESS), Ok(0));
}

#[test]
fn a_missing_crystal_times_the_oscillator_out() {
    let mut device = Device::new();
    device.oscillator_fitted = false;
    assert_eq!(run(&mut device, job(11, 11, 13), 50), Err(Fault::Timeout(Wait::Oscillator)));
    assert!(device.registers.oscillator_on);
    assert!(!device.registers.entropy_bus_clock);
    assert!(!device.registers.accelerator_enabled);
}

#[test]
fn no_poll_allowed_times_the_oscillator_out() {
    let mut device = Device::new();
    assert_eq!(run(&mut device, job(11, 11, 13), 0), Err(Fault::Timeout(Wait::Oscillator)));
    assert!(device.registers.oscillator_on);
    assert!(!device.registers.entropy_clock_selected);
}

#[test]
fn a_modulus_of_zero_stores_nothing() {
    let mut device = Device::new();
    assert_eq!(run(&mut device, job(11, 11, 0), 1), Ok(0));
    let mut device = Device::new();
    assert_eq!(run(&mut device, job(11, 11, 13), 1), Ok(9));
    assert_eq!(run(&mut device, job(1, 2, 0), 1), Ok(9));
}

#[test]
fn clearing_a_clear_flag_changes_nothing() {
    let mut device = Device::new();
    assert_eq!(run(&mut device, job(11, 11, 13), 1), Ok(9));
    let before = device.clone();
    let clear = Action::ClearFlags { address_error: false, ram_error: false, completion: true };
    assert_eq!(device.apply(clear), Event::Done);
    assert_eq!(device, before);
    assert_eq!(device.apply(clear), Event::Done);
    assert_eq!(device, before);
}

#[test]
fn clearing_one_flag_leaves_the_others() {
    let mut device = Device::new();
    bring_up(&mut device);
    device.registers.completion = true;
    device.registers.address_error = true;
    device.registers.ram_error = true;
    let clear = Action::ClearFlags { address_error: false, ram_error: false, completion: true };
    device.apply(clear);
    assert!(!device.registers.completion);
    assert!(device.registers.address_error);
    assert!(device.registers.ram_error);
    let once = device.clone();
    device.apply(clear);
    assert_eq!(device, once);
    device.apply(Action::ClearFlags { address_error: true, ram_error: true, completion: false });
    assert!(!device.registers.address_error);
    assert!(!device.registers.ram_error);
}

#[test]
fn nothing_is_ready_after_reset() {
    let mut device = Device::new();
    assert_eq!(device.apply(Action::PollOscillatorReady), Event::Flag(false));
    assert_eq!(device.apply(Action::PollEntropyBusClock), Event::Flag(false));
    assert_eq!(device.apply(Action::PollEntropyReady), Event::Flag(false));
    assert_eq!(device.apply(Action::PollAcceleratorReady), Event::Flag(false));
    assert_eq!(device.apply(Action::PollCompletion), Event::Flag(false));
    assert_eq!(
        device.apply(Action::ReadFaultFlags),
        Event::Faults { address_error: false, ram_error: false }
    );
    assert_eq!(device, Device::new());
}

#[test]
fn a_peripheral_without_its_clock_ignores_writes() {
    let mut device = Device::new();
    device.apply(Action::EnableEntropy);
    device.apply(Action::EnableAccelerator);
    device.registers.completion = true;
    device.apply(Action::ClearFlags { address_error: true, ram_error: true, completion: true });
    assert!(!device.registers.entropy_enabled);
    assert!(!device.registers.accelerator_enabled);
    assert!(device.registers.completion);
}

#[test]
fn the_accelerator_waits_for_the_entropy_source() {
    let mut device = Device::new();
    device.apply(Action::EnableOscillator);
    device.apply(Action::EnableAcceleratorBusClock);
    device.apply(Action::EnableAccelerator);
    assert_eq!(device.apply(Action::PollAcceleratorReady), Event::Flag(false));
    device.apply(Action::SelectEntropyClock);
    device.apply(Action::EnableEntropyBusClock);
    device.apply(Action::ResetEntropy);
    assert_eq!(device.apply(Action::PollEntropyReady), Event::Flag(false));
    device.apply(Action::ReleaseEntropyReset);
    assert_eq!(device.apply(Action::PollEntropyReady), Event::Flag(false));
    device.apply(Action::EnableEntropy);
    assert_eq!(device.apply(Action::PollEntropyReady), Event::Flag(true));
    assert_eq!(device.apply(Action::PollAcceleratorReady), Event::Flag(true));
    device.apply(Action::DisableAccelerator);
    assert_eq!(device.apply(Action::PollAcceleratorReady), Event::Flag(false));
}

#[test]
fn the_memory_is_out_of_reach_until_the_accelerator_is_up() {
    let mut device = Device::new();
    device.apply(Action::WriteWord { address: OPERAND_A_ADDRESS, value: 11 });
    assert_eq!(device.apply(Action::ReadWord { address: OPERAND_A_ADDRESS }), Event::Word(0));
    device.apply(Action::Dispatch { opcode: Opcode::ModularAddition });
    assert_eq!(device, Device::new());
    bring_up(&mut device);
    device.apply(Action::WriteWord { address: OPERAND_A_ADDRESS, value: 11 });
    assert_eq!(device.apply(Action::ReadWord { address: OPERAND_A_ADDRESS }), Event::Word(11));
}

#[test]
fn a_bad_address_raises_the_address_error_flag() {
    let mut device = Device::new();
    bring_up(&mut device);
    device.apply(Action::WriteWord { address: OPERAND_A_ADDRESS + 2, value: 1 });
    assert!(device.registers.address_error);
    device.apply(Action::ClearFlags { address_error: true, ram_error: false, completion: false });
    assert!(!device.registers.address_error);
    assert_eq!(device.apply(Action::ReadWord { address: 0x520C_3400 }), Event::Word(0));
    assert!(device.registers.address_error);
    assert_eq!(
        device.apply(Action::ReadFaultFlags),
        Event::Faults { address_error: true, ram_error: false }
    );
}

#[test]
fn the_accelerator_adds_two_word_operands() {
    let mut device = Device::new();
    bring_up(&mut device);
    assert_eq!(device.ram.write_ram(OPERAND_A_ADDRESS, &[0x0000_0001, 0x0000_0005]), Ok(()));
    assert_eq!(device.ram.write_ram(OPERAND_B_ADDRESS, &[0xFFFF_FFFF, 0xFFFF_FFFF]), Ok(()));
    assert_eq!(device.ram.write_ram(MODULUS_ADDRESS, &[0x0000_0002, 0x0000_0000]), Ok(()));
    device.apply(Action::Dispatch { opcode: Opcode::ModularAddition });
    assert_eq!(device.apply(Action::PollCompletion), Event::Flag(true));
    // (2^32 + 5 + 2^64 - 1) mod 2^33 = 2^32 + 4
    let mut result = [0u32; 2];
    assert_eq!(device.ram.read_ram(RESULT_ADDRESS, &mut result), Ok(()));
    assert_eq!(result, [1, 4]);
    assert_eq!(device.registers.mode, 0x0E);
}

#[test]
fn a_sequencer_and_a_device_can_be_stepped_by_hand() {
    let mut device = Device::new();
    let mut sequencer = Sequencer::new(job(11, 11, 13), None);
    let mut rounds = 0;
    while sequencer.outcome().is_none() {
        let action = sequencer.pending();
        let event = device.apply(action);
        sequencer.advance(event);
        rounds += 1;
        assert!(rounds <= 27);
    }
    assert_eq!(rounds, 27);
    assert_eq!(sequencer.outcome(), Some(Ok(9)));
}
