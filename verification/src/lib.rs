//! Verified core of a driver that brings up the clock controller, the entropy
//! source and the public-key accelerator of an STM32WBA5x part, stages the
//! operands of one modular addition in the accelerator's scratch memory, runs
//! the operation and fetches the result.
//!
//! The crate touches no hardware. [`sequencer`] decides which register
//! operation comes next and what its outcome means; the firmware performs
//! the operation and reports back. [`scratch`] guards every access to the
//! scratch memory. [`device`] models the three peripherals, and [`driver`]
//! runs the sequencer against that model.

pub mod layout;
pub mod device;
pub mod driver;
pub mod scratch;
pub mod sequencer;
pub mod trace;
