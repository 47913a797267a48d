use chip8_core::{Chip8Error, Emu, Quirks};

fn machine_with(program: &[u8]) -> Emu {
    let mut emu = Emu::new();
    emu.load(program).unwrap();
    emu
}

fn run_cycles(emu: &mut Emu, n: usize) {
    for _ in 0..n {
        emu.cycle().unwrap();
    }
}

#[test]
fn fetch_reads_big_endian_and_advances_by_two() {
    // 6A12: VA = 0x12.
    let mut emu = machine_with(&[0x6A, 0x12]);
    assert_eq!(emu.cycle(), Ok(()));
    assert_eq!(emu.registers()[0xA], 0x12);
    assert_eq!(emu.pc(), 0x202);
}

#[test]
fn add_constant_wraps_and_leaves_the_flag_alone() {
    // V2 = 0xFF, VF = 0x55, V2 += 1.
    let mut emu = machine_with(&[0x62, 0xFF, 0x6F, 0x55, 0x72, 0x01]);
    run_cycles(&mut emu, 3);
    assert_eq!(emu.registers()[2], 0x00);
    assert_eq!(emu.registers()[0xF], 0x55);
}

#[test]
fn add_registers_wraps_and_sets_carry() {
    // V2 = 0xFF, V3 = 1, V2 += V3.
    let mut emu = machine_with(&[0x62, 0xFF, 0x63, 0x01, 0x82, 0x34]);
    run_cycles(&mut emu, 3);
    assert_eq!(emu.registers()[2], 0x00);
    assert_eq!(emu.registers()[0xF], 1);
}

#[test]
fn add_registers_without_overflow_clears_carry() {
    // VF = 1, V2 = 0x10, V3 = 0x20, V2 += V3.
    let mut emu = machine_with(&[0x6F, 0x01, 0x62, 0x10, 0x63, 0x20, 0x82, 0x34]);
    run_cycles(&mut emu, 4);
    assert_eq!(emu.registers()[2], 0x30);
    assert_eq!(emu.registers()[0xF], 0);
}

#[test]
fn add_into_vf_leaves_the_flag_in_vf() {
    // VF = 0xFF, V1 = 2, VF += V1: the sum 1 is overwritten by the carry 1;
    // then VF = 3, V1 = 2, VF += V1: the sum 5 is overwritten by the carry 0.
    let mut emu = machine_with(&[0x6F, 0xFF, 0x61, 0x02, 0x8F, 0x14, 0x6F, 0x03, 0x8F, 0x14]);
    run_cycles(&mut emu, 3);
    assert_eq!(emu.registers()[0xF], 1);
    run_cycles(&mut emu, 2);
    assert_eq!(emu.registers()[0xF], 0);
}

#[test]
fn subtract_without_borrow_sets_the_flag() {
    // V0 = 5, V1 = 3, V0 -= V1.
    let mut emu = machine_with(&[0x60, 0x05, 0x61, 0x03, 0x80, 0x15]);
    run_cycles(&mut emu, 3);
    assert_eq!(emu.registers()[0], 2);
    assert_eq!(emu.registers()[0xF], 1);
}

#[test]
fn subtract_with_borrow_wraps_and_clears_the_flag() {
    // V0 = 3, V1 = 5, V0 -= V1.
    let mut emu = machine_with(&[0x60, 0x03, 0x61, 0x05, 0x80, 0x15]);
    run_cycles(&mut emu, 3);
    assert_eq!(emu.registers()[0], 254);
    assert_eq!(emu.registers()[0xF], 0);
}

#[test]
fn subtract_equal_values_counts_as_no_borrow() {
    // V0 = 9, V1 = 9, V0 -= V1.
    let mut emu = machine_with(&[0x60, 0x09, 0x61, 0x09, 0x80, 0x15]);
    run_cycles(&mut emu, 3);
    assert_eq!(emu.registers()[0], 0);
    assert_eq!(emu.registers()[0xF], 1);
}

#[test]
fn reverse_subtract_uses_the_other_order() {
    // V0 = 3, V1 = 5, V0 = V1 - V0.
    let mut emu = machine_with(&[0x60, 0x03, 0x61, 0x05, 0x80, 0x17]);
    run_cycles(&mut emu, 3);
    assert_eq!(emu.registers()[0], 2);
    assert_eq!(emu.registers()[0xF], 1);
    // V0 = 5, V1 = 3, V0 = V1 - V0.
    let mut emu = machine_with(&[0x60, 0x05, 0x61, 0x03, 0x80, 0x17]);
    run_cycles(&mut emu, 3);
    assert_eq!(emu.registers()[0], 254);
    assert_eq!(emu.registers()[0xF], 0);
}

#[test]
fn copy_or_and_xor_combine_two_registers() {
    // V0 = 0xCC, V1 = 0xAA, V2 = V0, V3 = V0 | V1, V4 = V0 & V1, V5 = V0 ^ V1.
    let mut emu = machine_with(&[
        0x60, 0xCC, 0x61, 0xAA, 0x6F, 0x77, 0x82, 0x00, 0x83, 0x00, 0x83, 0x11, 0x84, 0x00,
        0x84, 0x12, 0x85, 0x00, 0x85, 0x13,
    ]);
    run_cycles(&mut emu, 10);
    assert_eq!(emu.registers()[2], 0xCC);
    assert_eq!(emu.registers()[3], 0xEE);
    assert_eq!(emu.registers()[4], 0x88);
    assert_eq!(emu.registers()[5], 0x66);
    assert_eq!(emu.registers()[0xF], 0x77);
}

#[test]
fn shift_right_acts_on_the_target_register() {
    // V0 = 0x05, V1 = 0xF0, V0 >>= 1.
    let mut emu = machine_with(&[0x60, 0x05, 0x61, 0xF0, 0x80, 0x16]);
    run_cycles(&mut emu, 3);
    assert_eq!(emu.registers()[0], 0x02);
    assert_eq!(emu.registers()[1], 0xF0);
    assert_eq!(emu.registers()[0xF], 1);
}

#[test]
fn shift_left_acts_on_the_target_register() {
    // V0 = 0x81, V1 = 0x01, V0 <<= 1.
    let mut emu = machine_with(&[0x60, 0x81, 0x61, 0x01, 0x80, 0x1E]);
    run_cycles(&mut emu, 3);
    assert_eq!(emu.registers()[0], 0x02);
    assert_eq!(emu.registers()[0xF], 1);
    // V0 = 0x41, V0 <<= 1.
    let mut emu = machine_with(&[0x60, 0x41, 0x80, 0x1E]);
    run_cycles(&mut emu, 2);
    assert_eq!(emu.registers()[0], 0x82);
    assert_eq!(emu.registers()[0xF], 0);
}

#[test]
fn shift_quirk_reads_the_second_register() {
    let quirks = Quirks { shift_reads_vy: true, index_add_sets_flag: false, sprite_wraps: false };
    // V0 = 0x05, V1 = 0xF0, V0 = V1 >> 1.
    let mut emu = Emu::with_quirks(quirks);
    emu.load(&[0x60, 0x05, 0x61, 0xF0, 0x80, 0x16]).unwrap();
    run_cycles(&mut emu, 3);
    assert_eq!(emu.registers()[0], 0x78);
    assert_eq!(emu.registers()[1], 0xF0);
    assert_eq!(emu.registers()[0xF], 0);
    // V0 = 0x05, V1 = 0xF0, V0 = V1 << 1.
    let mut emu = Emu::with_quirks(quirks);
    emu.load(&[0x60, 0x05, 0x61, 0xF0, 0x80, 0x1E]).unwrap();
    run_cycles(&mut emu, 3);
    assert_eq!(emu.registers()[0], 0xE0);
    assert_eq!(emu.registers()[0xF], 1);
}

#[test]
fn jump_sets_the_program_counter() {
    let mut emu = machine_with(&[0x1A, 0xBC]);
    emu.cycle().unwrap();
    assert_eq!(emu.pc(), 0xABC);
}

#[test]
fn jump_with_offset_adds_v0() {
    // V0 = 0x10, jump to 0x300 + V0.
    let mut emu = machine_with(&[0x60, 0x10, 0xB3, 0x00]);
    run_cycles(&mut emu, 2);
    assert_eq!(emu.pc(), 0x310);
}

#[test]
fn call_then_return_comes_back_behind_the_call() {
    // 0x200: call 0x206; 0x206: return.
    let mut emu = machine_with(&[0x22, 0x06, 0x00, 0x00, 0x00, 0x00, 0x00, 0xEE]);
    emu.cycle().unwrap();
    assert_eq!(emu.pc(), 0x206);
    assert_eq!(emu.sp(), 1);
    assert_eq!(emu.stack()[0], 0x202);
    emu.cycle().unwrap();
    assert_eq!(emu.pc(), 0x202);
    assert_eq!(emu.sp(), 0);
}

#[test]
fn seventeenth_call_overflows_and_keeps_the_stack() {
    // 0x200: call 0x200, for ever.
    let mut emu = machine_with(&[0x22, 0x00]);
    for _ in 0..16 {
        assert_eq!(emu.cycle(), Ok(()));
    }
    assert_eq!(emu.sp(), 16);
    assert_eq!(*emu.stack(), [0x202; 16]);
    assert_eq!(emu.cycle(), Err(Chip8Error::StackOverflow));
    assert_eq!(emu.sp(), 16);
    assert_eq!(*emu.stack(), [0x202; 16]);
    assert_eq!(emu.pc(), 0x200);
}

#[test]
fn seventeenth_return_underflows() {
    let mut emu = Emu::new();
    // A return at 0x300, reached by 16 calls made by hand.
    let mut program = vec![0u8; 0x102];
    program[0x100] = 0x00;
    program[0x101] = 0xEE;
    program[0] = 0x13;
    program[1] = 0x00;
    emu.load(&program).unwrap();
    for _ in 0..16 {
        emu.push(0x300).unwrap();
    }
    emu.cycle().unwrap();
    for left in (0..16u16).rev() {
        assert_eq!(emu.cycle(), Ok(()));
        assert_eq!(emu.sp(), left);
        assert_eq!(emu.pc(), 0x300);
    }
    assert_eq!(emu.cycle(), Err(Chip8Error::StackUnderflow));
    assert_eq!(emu.sp(), 0);
    assert_eq!(emu.pc(), 0x300);
}

#[test]
fn return_on_an_empty_stack_underflows_and_changes_nothing() {
    let mut emu = machine_with(&[0x00, 0xEE]);
    assert_eq!(emu.cycle(), Err(Chip8Error::StackUnderflow));
    assert_eq!(emu.pc(), 0x200);
    assert_eq!(emu.sp(), 0);
}

#[test]
fn skip_if_equal_to_constant() {
    // V1 = 7; skip if V1 == 7.
    let mut emu = machine_with(&[0x61, 0x07, 0x31, 0x07]);
    run_cycles(&mut emu, 2);
    assert_eq!(emu.pc(), 0x206);
    // V1 = 7; skip if V1 == 8.
    let mut emu = machine_with(&[0x61, 0x07, 0x31, 0x08]);
    run_cycles(&mut emu, 2);
    assert_eq!(emu.pc(), 0x204);
}

#[test]
fn skip_if_not_equal_to_constant() {
    let mut emu = machine_with(&[0x61, 0x07, 0x41, 0x08]);
    run_cycles(&mut emu, 2);
    assert_eq!(emu.pc(), 0x206);
    let mut emu = machine_with(&[0x61, 0x07, 0x41, 0x07]);
    run_cycles(&mut emu, 2);
    assert_eq!(emu.pc(), 0x204);
}

#[test]
fn skip_if_registers_equal() {
    let mut emu = machine_with(&[0x61, 0x07, 0x62, 0x07, 0x51, 0x20]);
    run_cycles(&mut emu, 3);
    assert_eq!(emu.pc(), 0x208);
    let mut emu = machine_with(&[0x61, 0x07, 0x62, 0x08, 0x51, 0x20]);
    run_cycles(&mut emu, 3);
    assert_eq!(emu.pc(), 0x206);
}

#[test]
fn skip_if_registers_differ() {
    let mut emu = machine_with(&[0x61, 0x07, 0x62, 0x08, 0x91, 0x20]);
    run_cycles(&mut emu, 3);
    assert_eq!(emu.pc(), 0x208);
    let mut emu = machine_with(&[0x61, 0x07, 0x62, 0x07, 0x91, 0x20]);
    run_cycles(&mut emu, 3);
    assert_eq!(emu.pc(), 0x206);
}

#[test]
fn skip_if_key_down_and_if_key_up() {
    // V0 = 0xA; skip if key V0 is down.
    let mut emu = machine_with(&[0x60, 0x0A, 0xE0, 0x9E]);
    emu.key_press(0xA).unwrap();
    run_cycles(&mut emu, 2);
    assert_eq!(emu.pc(), 0x206);
    let mut emu = machine_with(&[0x60, 0x0A, 0xE0, 0x9E]);
    run_cycles(&mut emu, 2);
    assert_eq!(emu.pc(), 0x204);
    // V0 = 0xA; skip if key V0 is up.
    let mut emu = machine_with(&[0x60, 0x0A, 0xE0, 0xA1]);
    run_cycles(&mut emu, 2);
    assert_eq!(emu.pc(), 0x206);
    let mut emu = machine_with(&[0x60, 0x0A, 0xE0, 0xA1]);
    emu.key_press(0xA).unwrap();
    run_cycles(&mut emu, 2);
    assert_eq!(emu.pc(), 0x204);
}

#[test]
fn a_register_value_above_15_names_no_key() {
    // V0 = 0x1A; skip if key V0 is down; skip if key V0 is up.
    let mut emu = machine_with(&[0x60, 0x1A, 0xE0, 0x9E, 0xE0, 0xA1]);
    for k in 0..16 {
        emu.key_press(k).unwrap();
    }
    run_cycles(&mut emu, 2);
    assert_eq!(emu.pc(), 0x204);
    run_cycles(&mut emu, 1);
    assert_eq!(emu.pc(), 0x208);
}

#[test]
fn wait_for_key_repeats_until_a_key_is_down() {
    // Wait for a key into V5.
    let mut emu = machine_with(&[0xF5, 0x0A]);
    for _ in 0..5 {
        assert_eq!(emu.cycle(), Ok(()));
        assert_eq!(emu.pc(), 0x200);
        assert_eq!(emu.registers()[5], 0);
    }
    emu.key_press(0xC).unwrap();
    assert_eq!(emu.cycle(), Ok(()));
    assert_eq!(emu.pc(), 0x202);
    assert_eq!(emu.registers()[5], 0xC);
}

#[test]
fn wait_for_key_takes_the_lowest_key_that_is_down() {
    let mut emu = machine_with(&[0xF5, 0x0A]);
    emu.key_press(0xC).unwrap();
    emu.key_press(0x3).unwrap();
    emu.key_press(0x9).unwrap();
    emu.cycle().unwrap();
    assert_eq!(emu.registers()[5], 0x3);
    assert_eq!(emu.pc(), 0x202);
}

#[test]
fn random_instruction_masks_the_given_byte() {
    // V4 = random & 0x3C.
    let mut emu = machine_with(&[0xC4, 0x3C]);
    assert_eq!(emu.cycle_with(0xA5), Ok(()));
    assert_eq!(emu.registers()[4], 0xA5 & 0x3C);
    assert_eq!(emu.pc(), 0x202);
}

#[test]
fn random_instruction_stays_within_its_mask() {
    // V4 = random & 0x0F, jump back.
    let mut emu = machine_with(&[0xC4, 0x0F, 0x12, 0x00]);
    for _ in 0..200 {
        emu.cycle().unwrap();
        assert!(emu.registers()[4] <= 0x0F);
        emu.cycle().unwrap();
    }
    // V4 = random & 0x00.
    let mut emu = machine_with(&[0x64, 0x99, 0xC4, 0x00]);
    run_cycles(&mut emu, 2);
    assert_eq!(emu.registers()[4], 0);
}

#[test]
fn random_instruction_draws_fresh_bytes() {
    // V4 = random & 0xFF, jump back.
    let mut emu = machine_with(&[0xC4, 0xFF, 0x12, 0x00]);
    let mut seen = [false; 256];
    for _ in 0..400 {
        emu.cycle().unwrap();
        seen[emu.registers()[4] as usize] = true;
        emu.cycle().unwrap();
    }
    assert!(seen.iter().filter(|s| **s).count() > 16);
}

#[test]
fn other_instructions_ignore_the_given_byte() {
    let mut a = machine_with(&[0x61, 0x07, 0x71, 0x01]);
    let mut b = machine_with(&[0x61, 0x07, 0x71, 0x01]);
    a.cycle_with(0x00).unwrap();
    a.cycle_with(0x00).unwrap();
    b.cycle_with(0xFF).unwrap();
    b.cycle_with(0x5A).unwrap();
    assert_eq!(a.registers(), b.registers());
    assert_eq!(a.pc(), b.pc());
}

#[test]
fn load_index_sets_the_index_register() {
    let mut emu = machine_with(&[0xAF, 0xED]);
    emu.cycle().unwrap();
    assert_eq!(emu.index(), 0xFED);
    assert_eq!(emu.pc(), 0x202);
}

#[test]
fn add_to_index_leaves_the_flag_alone() {
    // VF = 9, V1 = 0x20, I = 0xFF0, I += V1.
    let mut emu = machine_with(&[0x6F, 0x09, 0x61, 0x20, 0xAF, 0xF0, 0xF1, 0x1E]);
    run_cycles(&mut emu, 4);
    assert_eq!(emu.index(), 0x1010);
    assert_eq!(emu.registers()[0xF], 9);
}

#[test]
fn add_to_index_quirk_flags_a_sum_beyond_12_bits() {
    let quirks = Quirks { shift_reads_vy: false, index_add_sets_flag: true, sprite_wraps: false };
    let mut emu = Emu::with_quirks(quirks);
    // VF = 9, V1 = 0x20, I = 0xFF0, I += V1.
    emu.load(&[0x6F, 0x09, 0x61, 0x20, 0xAF, 0xF0, 0xF1, 0x1E]).unwrap();
    run_cycles(&mut emu, 4);
    assert_eq!(emu.index(), 0x1010);
    assert_eq!(emu.registers()[0xF], 1);
    let mut emu = Emu::with_quirks(quirks);
    // VF = 9, V1 = 0x0F, I = 0xFF0, I += V1.
    emu.load(&[0x6F, 0x09, 0x61, 0x0F, 0xAF, 0xF0, 0xF1, 0x1E]).unwrap();
    run_cycles(&mut emu, 4);
    assert_eq!(emu.index(), 0xFFF);
    assert_eq!(emu.registers()[0xF], 0);
}

#[test]
fn add_to_index_wraps_at_16_bits() {
    // V1 = 0xFF, I = 0xFFF, then I += V1 until it passes 0xFFFF.
    let mut emu = machine_with(&[0x61, 0xFF, 0xAF, 0xFF, 0xF1, 0x1E, 0x12, 0x04]);
    run_cycles(&mut emu, 2);
    let mut expected: u32 = 0xFFF;
    for _ in 0..300 {
        emu.cycle().unwrap();
        expected = (expected + 0xFF) % 0x1_0000;
        assert_eq!(emu.index() as u32, expected);
        emu.cycle().unwrap();
    }
}

#[test]
fn font_address_is_five_times_the_low_digit() {
    // V3 = 0x0A; I = glyph(V3).
    let mut emu = machine_with(&[0x63, 0x0A, 0xF3, 0x29]);
    run_cycles(&mut emu, 2);
    assert_eq!(emu.index(), 50);
    // V3 = 0xFA: only the low digit counts.
    let mut emu = machine_with(&[0x63, 0xFA, 0xF3, 0x29]);
    run_cycles(&mut emu, 2);
    assert_eq!(emu.index(), 50);
    let mut emu = machine_with(&[0x63, 0x0F, 0xF3, 0x29]);
    run_cycles(&mut emu, 2);
    assert_eq!(emu.index(), 75);
}

#[test]
fn bcd_stores_hundreds_tens_and_units() {
    // V7 = 254, I = 0x400, store BCD of V7.
    let mut emu = machine_with(&[0x67, 0xFE, 0xA4, 0x00, 0xF7, 0x33]);
    run_cycles(&mut emu, 3);
    assert_eq!(&emu.memory()[0x400..0x403], &[2, 5, 4]);
    assert_eq!(emu.index(), 0x400);
    // V7 = 7.
    let mut emu = machine_with(&[0x67, 0x07, 0xA4, 0x00, 0xF7, 0x33]);
    run_cycles(&mut emu, 3);
    assert_eq!(&emu.memory()[0x400..0x403], &[0, 0, 7]);
}

#[test]
fn bcd_beyond_the_end_of_memory_is_refused() {
    // I = 0xFFE, store BCD of V0.
    let mut emu = machine_with(&[0xAF, 0xFE, 0xF0, 0x33]);
    emu.cycle().unwrap();
    let before = *emu.memory();
    assert_eq!(emu.cycle(), Err(Chip8Error::AddressOutOfRange));
    assert_eq!(*emu.memory(), before);
    assert_eq!(emu.pc(), 0x202);
    // I = 0xFFD fits.
    let mut emu = machine_with(&[0x60, 0x7B, 0xAF, 0xFD, 0xF0, 0x33]);
    run_cycles(&mut emu, 3);
    assert_eq!(&emu.memory()[0xFFD..], &[1, 2, 3]);
}

#[test]
fn store_registers_writes_v0_to_vx_inclusive() {
    // V0 = 1, V1 = 2, V2 = 3, V3 = 4, I = 0x400, store V0..V2.
    let mut emu = machine_with(&[
        0x60, 0x01, 0x61, 0x02, 0x62, 0x03, 0x63, 0x04, 0xA4, 0x00, 0xF2, 0x55,
    ]);
    run_cycles(&mut emu, 6);
    assert_eq!(&emu.memory()[0x400..0x404], &[1, 2, 3, 0]);
    assert_eq!(emu.index(), 0x400);
    assert_eq!(emu.pc(), 0x20C);
}

#[test]
fn load_registers_reads_v0_to_vx_inclusive() {
    // V3 = 0x77, I = 0x206, load V0..V2; data follows.
    let mut emu = machine_with(&[0x63, 0x77, 0xA2, 0x06, 0xF2, 0x65, 0x0A, 0x0B, 0x0C, 0x0D]);
    run_cycles(&mut emu, 3);
    assert_eq!(&emu.registers()[0..4], &[0x0A, 0x0B, 0x0C, 0x77]);
    assert_eq!(emu.index(), 0x206);
}

#[test]
fn store_and_load_of_all_registers_round_trip() {
    let mut program = Vec::new();
    for x in 0..16u8 {
        program.extend_from_slice(&[0x60 | x, 0xF0 | x]);
    }
    // I = 0x500, store V0..VF, then clear each register, then load V0..VF.
    program.extend_from_slice(&[0xA5, 0x00, 0xFF, 0x55]);
    for x in 0..16u8 {
        program.extend_from_slice(&[0x60 | x, 0x00]);
    }
    program.extend_from_slice(&[0xFF, 0x65]);
    let mut emu = machine_with(&program);
    run_cycles(&mut emu, 16 + 2 + 16 + 1);
    for x in 0..16u8 {
        assert_eq!(emu.registers()[x as usize], 0xF0 | x);
        assert_eq!(emu.memory()[0x500 + x as usize], 0xF0 | x);
    }
}

#[test]
fn bulk_transfer_beyond_the_end_of_memory_is_refused() {
    // V0 = 1, V1 = 2, I = 0xFFF, store V0..V1.
    let mut emu = machine_with(&[0x60, 0x01, 0x61, 0x02, 0xAF, 0xFF, 0xF1, 0x55]);
    run_cycles(&mut emu, 3);
    let before = *emu.memory();
    assert_eq!(emu.cycle(), Err(Chip8Error::AddressOutOfRange));
    assert_eq!(*emu.memory(), before);
    assert_eq!(emu.pc(), 0x206);
    // I = 0xFFF, load V0..V1.
    let mut emu = machine_with(&[0x60, 0x01, 0x61, 0x02, 0xAF, 0xFF, 0xF1, 0x65]);
    run_cycles(&mut emu, 3);
    assert_eq!(emu.cycle(), Err(Chip8Error::AddressOutOfRange));
    assert_eq!(&emu.registers()[0..2], &[1, 2]);
    // I = 0xFFF, store V0 alone fits.
    let mut emu = machine_with(&[0x60, 0x09, 0xAF, 0xFF, 0xF0, 0x55]);
    run_cycles(&mut emu, 3);
    assert_eq!(emu.memory()[0xFFF], 9);
}

#[test]
fn timer_instructions_copy_between_register_and_timer() {
    // V0 = 0x21, delay = V0, V1 = delay, sound = V1.
    let mut emu = machine_with(&[0x60, 0x21, 0xF0, 0x15, 0xF1, 0x07, 0xF1, 0x18]);
    run_cycles(&mut emu, 4);
    assert_eq!(emu.delay_timer(), 0x21);
    assert_eq!(emu.registers()[1], 0x21);
    assert_eq!(emu.sound_timer(), 0x21);
    assert!(emu.is_sound_active());
}

#[test]
fn unknown_opcode_is_reported_and_changes_nothing() {
    for word in [0x0000u16, 0x0123, 0x00E1, 0x5AB1, 0x8AB8, 0x8ABF, 0x9AB5, 0xE19F, 0xE1A0, 0xF100, 0xF1FF] {
        let mut emu = machine_with(&[(word >> 8) as u8, word as u8]);
        assert_eq!(emu.cycle(), Err(Chip8Error::UnknownOpcode(word)));
        assert_eq!(emu.pc(), 0x200);
        assert!(emu.registers().iter().all(|v| *v == 0));
        // The machine stays where it is: the next cycle fails alike.
        assert_eq!(emu.cycle(), Err(Chip8Error::UnknownOpcode(word)));
    }
}

#[test]
fn fetch_beyond_the_end_of_memory_is_refused() {
    // Jump to 0xFFF: only one byte of the word lies in memory.
    let mut emu = machine_with(&[0x1F, 0xFF]);
    emu.cycle().unwrap();
    assert_eq!(emu.pc(), 0xFFF);
    assert_eq!(emu.cycle(), Err(Chip8Error::AddressOutOfRange));
    assert_eq!(emu.pc(), 0xFFF);
    // V0 = 0xFF, jump to 0xFFF + V0.
    let mut emu = machine_with(&[0x60, 0xFF, 0xBF, 0xFF]);
    run_cycles(&mut emu, 2);
    assert_eq!(emu.pc(), 0x10FE);
    assert_eq!(emu.cycle(), Err(Chip8Error::AddressOutOfRange));
}

#[test]
fn the_last_word_of_memory_can_be_executed() {
    let mut program = vec![0u8; 3584];
    // Jump to 0xFFE; there: V1 = 0x42.
    program[0] = 0x1F;
    program[1] = 0xFE;
    program[3582] = 0x61;
    program[3583] = 0x42;
    let mut emu = machine_with(&program);
    run_cycles(&mut emu, 2);
    assert_eq!(emu.registers()[1], 0x42);
    assert_eq!(emu.pc(), 0x1000);
    assert_eq!(emu.cycle(), Err(Chip8Error::AddressOutOfRange));
}
