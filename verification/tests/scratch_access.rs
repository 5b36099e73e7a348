use pka::layout::{
    BASE, MODULUS_ADDRESS, OPERAND_A_ADDRESS, OPERAND_B_ADDRESS, OPERAND_LENGTH_ADDRESS,
    RAM_LIMIT, RAM_START, RAM_WORDS, RESULT_ADDRESS,
};
use pka::scratch::{check_access, AccessError, ScratchRam};

#[test]
fn fields_lie_where_the_accelerator_expects_them() {
    assert_eq!(BASE, 0x520C_2000);
    assert_eq!(OPERAND_LENGTH_ADDRESS, 0x520C_2408);
    assert_eq!(OPERAND_A_ADDRESS, 0x520C_2A50);
    assert_eq!(OPERAND_B_ADDRESS, 0x520C_2C68);
    assert_eq!(MODULUS_ADDRESS, 0x520C_3088);
    assert_eq!(RESULT_ADDRESS, 0x520C_2E78);
    assert_eq!(RAM_START, 0x520C_2400);
    assert_eq!(RAM_LIMIT, 0x520C_33FF);
    assert_eq!(RAM_WORDS, 1023);
}

#[test]
fn the_fields_do_not_overlap() {
    let fields = [
        (OPERAND_LENGTH_ADDRESS, 1),
        (OPERAND_A_ADDRESS, 2),
        (RESULT_ADDRESS, 2),
        (OPERAND_B_ADDRESS, 2),
        (MODULUS_ADDRESS, 2),
    ];
    let mut ram = ScratchRam::new();
    for (i, (address, words)) in fields.iter().enumerate() {
        let values = vec![i as u32 + 1; *words];
        assert_eq!(ram.write_ram(*address, &values), Ok(()));
    }
    for (i, (address, words)) in fields.iter().enumerate() {
        let mut back = vec![0u32; *words];
        assert_eq!(ram.read_ram(*address, &mut back), Ok(()));
        assert_eq!(back, vec![i as u32 + 1; *words]);
    }
}

#[test]
fn every_field_can_be_accessed() {
    assert_eq!(check_access(OPERAND_LENGTH_ADDRESS, 1), Ok(()));
    assert_eq!(check_access(OPERAND_A_ADDRESS, 2), Ok(()));
    assert_eq!(check_access(OPERAND_B_ADDRESS, 2), Ok(()));
    assert_eq!(check_access(MODULUS_ADDRESS, 2), Ok(()));
    assert_eq!(check_access(RESULT_ADDRESS, 2), Ok(()));
}

#[test]
fn misaligned_addresses_are_refused() {
    assert_eq!(check_access(0x520C_2409, 1), Err(AccessError::Misaligned));
    assert_eq!(check_access(0x520C_240A, 1), Err(AccessError::Misaligned));
    assert_eq!(check_access(0x520C_240B, 1), Err(AccessError::Misaligned));
    assert_eq!(check_access(0x520C_240C, 1), Ok(()));
}

#[test]
fn alignment_is_looked_at_before_the_bounds() {
    assert_eq!(check_access(0x520C_3401, 1), Err(AccessError::Misaligned));
    assert_eq!(check_access(3, 1), Err(AccessError::Misaligned));
}

#[test]
fn accesses_outside_the_memory_are_refused() {
    assert_eq!(check_access(0, 1), Err(AccessError::OutOfBounds));
    assert_eq!(check_access(0x520C_2000, 1), Err(AccessError::OutOfBounds));
    assert_eq!(check_access(0x520C_23FC, 1), Err(AccessError::OutOfBounds));
    assert_eq!(check_access(0x520C_3400, 1), Err(AccessError::OutOfBounds));
    assert_eq!(check_access(0x520C_3400, 0), Err(AccessError::OutOfBounds));
}

#[test]
fn the_last_word_ends_below_the_limit() {
    assert_eq!(check_access(0x520C_33F8, 1), Ok(()));
    assert_eq!(check_access(0x520C_33FC, 0), Ok(()));
    assert_eq!(check_access(0x520C_33FC, 1), Err(AccessError::OutOfBounds));
    assert_eq!(check_access(0x520C_33F8, 2), Err(AccessError::OutOfBounds));
    assert_eq!(check_access(RAM_START, 1023), Ok(()));
    assert_eq!(check_access(RAM_START, 1024), Err(AccessError::OutOfBounds));
}

#[test]
fn a_length_that_overflows_is_out_of_bounds() {
    assert_eq!(check_access(RAM_START, usize::MAX), Err(AccessError::OutOfBounds));
    assert_eq!(check_access(RAM_START, usize::MAX / 4 + 1), Err(AccessError::OutOfBounds));
}

#[test]
fn a_new_memory_is_zero() {
    let ram = ScratchRam::new();
    assert_eq!(ram.load(RAM_START), Ok(0));
    assert_eq!(ram.load(RESULT_ADDRESS), Ok(0));
    assert_eq!(ram.load(0x520C_33F8), Ok(0));
}

#[test]
fn one_word_comes_back() {
    let mut ram = ScratchRam::new();
    assert_eq!(ram.write_ram(OPERAND_LENGTH_ADDRESS, &[64]), Ok(()));
    let mut back = [0u32; 1];
    assert_eq!(ram.read_ram(OPERAND_LENGTH_ADDRESS, &mut back), Ok(()));
    assert_eq!(back, [64]);
}

#[test]
fn two_words_come_back() {
    let mut ram = ScratchRam::new();
    assert_eq!(ram.write_ram(OPERAND_A_ADDRESS, &[0xDEAD_BEEF, 0x0123_4567]), Ok(()));
    let mut back = [0u32; 2];
    assert_eq!(ram.read_ram(OPERAND_A_ADDRESS, &mut back), Ok(()));
    assert_eq!(back, [0xDEAD_BEEF, 0x0123_4567]);
}

#[test]
fn many_words_come_back() {
    let mut ram = ScratchRam::new();
    let values: Vec<u32> = (0..1023u32).map(|i| i.wrapping_mul(0x9E37_79B9) ^ 0xA5A5_A5A5).collect();
    assert_eq!(ram.write_ram(RAM_START, &values), Ok(()));
    let mut back = vec![0u32; 1023];
    assert_eq!(ram.read_ram(RAM_START, &mut back), Ok(()));
    assert_eq!(back, values);
}

#[test]
fn the_last_word_of_a_buffer_lands_lowest() {
    let mut ram = ScratchRam::new();
    assert_eq!(ram.write_ram(MODULUS_ADDRESS, &[1, 2, 3]), Ok(()));
    assert_eq!(ram.load(MODULUS_ADDRESS), Ok(3));
    assert_eq!(ram.load(MODULUS_ADDRESS + 4), Ok(2));
    assert_eq!(ram.load(MODULUS_ADDRESS + 8), Ok(1));
    assert_eq!(ram.load(MODULUS_ADDRESS + 12), Ok(0));
    assert_eq!(ram.load(MODULUS_ADDRESS - 4), Ok(0));
}

#[test]
fn a_load_fills_the_buffer_back_to_front() {
    let mut ram = ScratchRam::new();
    assert_eq!(ram.store(RESULT_ADDRESS, 9), Ok(()));
    assert_eq!(ram.store(RESULT_ADDRESS + 4, 7), Ok(()));
    let mut back = [0u32; 2];
    assert_eq!(ram.read_ram(RESULT_ADDRESS, &mut back), Ok(()));
    assert_eq!(back, [7, 9]);
}

#[test]
fn a_refused_store_changes_nothing() {
    let mut ram = ScratchRam::new();
    assert_eq!(ram.write_ram(OPERAND_B_ADDRESS, &[5, 6]), Ok(()));
    let before = ram.clone();
    assert_eq!(ram.write_ram(OPERAND_B_ADDRESS + 2, &[1, 2]), Err(AccessError::Misaligned));
    assert_eq!(ram.write_ram(0x520C_33F8, &[1, 2]), Err(AccessError::OutOfBounds));
    assert_eq!(ram.write_ram(0x520C_2000, &[1]), Err(AccessError::OutOfBounds));
    assert_eq!(ram.store(OPERAND_B_ADDRESS + 1, 3), Err(AccessError::Misaligned));
    assert_eq!(ram.store(0x520C_33FC, 3), Err(AccessError::OutOfBounds));
    assert_eq!(ram, before);
}

#[test]
fn a_refused_load_leaves_the_buffer() {
    let ram = ScratchRam::new();
    let mut back = [17u32, 18];
    assert_eq!(ram.read_ram(RESULT_ADDRESS + 3, &mut back), Err(AccessError::Misaligned));
    assert_eq!(back, [17, 18]);
    assert_eq!(ram.read_ram(0x520C_33F8, &mut back), Err(AccessError::OutOfBounds));
    assert_eq!(back, [17, 18]);
    assert_eq!(ram.load(RESULT_ADDRESS + 1), Err(AccessError::Misaligned));
    assert_eq!(ram.load(0x520C_23FC), Err(AccessError::OutOfBounds));
}

#[test]
fn an_empty_buffer_moves_nothing() {
    let mut ram = ScratchRam::new();
    let before = ram.clone();
    assert_eq!(ram.write_ram(RESULT_ADDRESS, &[]), Ok(()));
    assert_eq!(ram, before);
    let mut back: [u32; 0] = [];
    assert_eq!(ram.read_ram(RESULT_ADDRESS, &mut back), Ok(()));
    assert_eq!(ram.write_ram(RESULT_ADDRESS + 1, &[]), Err(AccessError::Misaligned));
}

#[test]
fn a_store_leaves_its_neighbours() {
    let mut ram = ScratchRam::new();
    assert_eq!(ram.write_ram(OPERAND_A_ADDRESS - 4, &[1, 2, 3, 4]), Ok(()));
    assert_eq!(ram.write_ram(OPERAND_A_ADDRESS, &[0, 11]), Ok(()));
    let mut back = [0u32; 4];
    assert_eq!(ram.read_ram(OPERAND_A_ADDRESS - 4, &mut back), Ok(()));
    assert_eq!(back, [1, 0, 11, 4]);
}
