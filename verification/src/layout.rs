//! Where the accelerator and the fields of its scratch memory lie.

use vstd::prelude::*;

verus! {

/// Base address of the accelerator.
pub const BASE: usize = 0x520C_2000;

/// Offset of the scratch memory from the base.
pub const RAM_OFFSET: usize = 0x400;

/// Offset of the operand bit length.
pub const OPERAND_LENGTH_OFFSET: usize = 0x408;

/// Offset of the first operand.
pub const OPERAND_A_OFFSET: usize = 0xA50;

/// Offset of the second operand.
pub const OPERAND_B_OFFSET: usize = 0xC68;

/// Offset of the modulus.
pub const MODULUS_OFFSET: usize = 0x1088;

/// Offset of the result.
pub const RESULT_OFFSET: usize = 0xE78;

/// First byte of the scratch memory.
pub const RAM_START: usize = BASE + RAM_OFFSET;

/// Upper bound of the scratch memory: every access ends strictly below it.
pub const RAM_LIMIT: usize = 0x520C_33FF;

/// Number of whole words that an aligned access can reach.
pub const RAM_WORDS: usize = 1023;

/// Where the operand bit length is staged.
pub const OPERAND_LENGTH_ADDRESS: usize = BASE + OPERAND_LENGTH_OFFSET;

/// Where the first operand is staged, low word first.
pub const OPERAND_A_ADDRESS: usize = BASE + OPERAND_A_OFFSET;

/// Where the second operand is staged, low word first.
pub const OPERAND_B_ADDRESS: usize = BASE + OPERAND_B_OFFSET;

/// Where the modulus is staged, low word first.
pub const MODULUS_ADDRESS: usize = BASE + MODULUS_OFFSET;

/// Where the accelerator leaves the result, low word first.
pub const RESULT_ADDRESS: usize = BASE + RESULT_OFFSET;

/// Words in a staged operand: the value and a zero word above it.
pub const OPERAND_WORDS: usize = 2;

/// The mode field's value for modular addition.
pub const MODE_MODULAR_ADDITION: u8 = 0x0E;

/// Idle cycles between switching the accelerator off and on again.
pub const SETTLE_CYCLES: u32 = 10;

} // verus!
