use chip8::cpu::Chip8;
use chip8::isa::{decode, nibble, Instruction};
use chip8::Chip8Error;

fn fresh() -> Chip8 {
    let mut c = Chip8::new();
    c.init();
    c
}

fn run(c: &mut Chip8, w: u16) -> Result<(), Chip8Error> {
    c.execute(decode(w), 0)
}

#[test]
fn nibble_extracts_each_position() {
    let w: u16 = 0xABCD;
    assert_eq!(nibble(&w, 3), 0xA);
    assert_eq!(nibble(&w, 2), 0xB);
    assert_eq!(nibble(&w, 1), 0xC);
    assert_eq!(nibble(&w, 0), 0xD);
}

#[test]
fn decode_covers_the_instruction_table() {
    assert_eq!(decode(0x00E0), Instruction::ClearScreen);
    assert_eq!(decode(0x00EE), Instruction::Return);
    assert_eq!(decode(0x0123), Instruction::Unknown);
    assert_eq!(decode(0x1234), Instruction::Jump { nnn: 0x234 });
    assert_eq!(decode(0x2345), Instruction::Call { nnn: 0x345 });
    assert_eq!(decode(0x3A12), Instruction::SkipEqImm { x: 0xA, kk: 0x12 });
    assert_eq!(decode(0x4A12), Instruction::SkipNeImm { x: 0xA, kk: 0x12 });
    assert_eq!(decode(0x5AB0), Instruction::SkipEqReg { x: 0xA, y: 0xB });
    assert_eq!(decode(0x5AB1), Instruction::Unknown);
    assert_eq!(decode(0x6C42), Instruction::LoadImm { x: 0xC, kk: 0x42 });
    assert_eq!(decode(0x7C42), Instruction::AddImm { x: 0xC, kk: 0x42 });
    assert_eq!(decode(0x8120), Instruction::CopyReg { x: 1, y: 2 });
    assert_eq!(decode(0x8121), Instruction::OrReg { x: 1, y: 2 });
    assert_eq!(decode(0x8122), Instruction::AndReg { x: 1, y: 2 });
    assert_eq!(decode(0x8123), Instruction::XorReg { x: 1, y: 2 });
    assert_eq!(decode(0x8124), Instruction::AddReg { x: 1, y: 2 });
    assert_eq!(decode(0x8125), Instruction::SubXY { x: 1, y: 2 });
    assert_eq!(decode(0x8126), Instruction::ShiftRight { x: 1 });
    assert_eq!(decode(0x8127), Instruction::SubYX { x: 1, y: 2 });
    assert_eq!(decode(0x812E), Instruction::ShiftLeft { x: 1 });
    assert_eq!(decode(0x8128), Instruction::Unknown);
    assert_eq!(decode(0x9AB0), Instruction::SkipNeReg { x: 0xA, y: 0xB });
    assert_eq!(decode(0xA123), Instruction::LoadI { nnn: 0x123 });
    assert_eq!(decode(0xB123), Instruction::JumpV0 { nnn: 0x123 });
    assert_eq!(decode(0xC5FF), Instruction::Random { x: 5, kk: 0xFF });
    assert_eq!(decode(0xD12A), Instruction::Draw { x: 1, y: 2, n: 0xA });
    assert_eq!(decode(0xE39E), Instruction::SkipIfKey { x: 3 });
    assert_eq!(decode(0xE3A1), Instruction::SkipIfNoKey { x: 3 });
    assert_eq!(decode(0xE3FF), Instruction::Unknown);
    assert_eq!(decode(0xF107), Instruction::ReadDelay { x: 1 });
    assert_eq!(decode(0xF10A), Instruction::WaitKey { x: 1 });
    assert_eq!(decode(0xF115), Instruction::SetDelay { x: 1 });
    assert_eq!(decode(0xF118), Instruction::SetSound { x: 1 });
    assert_eq!(decode(0xF11E), Instruction::AddI { x: 1 });
    assert_eq!(decode(0xF129), Instruction::LoadFont { x: 1 });
    assert_eq!(decode(0xF133), Instruction::StoreBcd { x: 1 });
    assert_eq!(decode(0xF155), Instruction::StoreRegs { x: 1 });
    assert_eq!(decode(0xF165), Instruction::LoadRegs { x: 1 });
    assert_eq!(decode(0xF1FF), Instruction::Unknown);
}

#[test]
fn decode_is_a_function_of_the_word() {
    for w in [0x00E0u16, 0x1234, 0x8124, 0xD12A, 0xF165] {
        assert_eq!(decode(w), decode(w));
    }
}

#[test]
fn add_imm_wraps_and_leaves_vf_alone() {
    let mut c = fresh();
    c.registers[0xA] = 0xFF;
    c.registers[0xF] = 0x3;
    run(&mut c, 0x7A01).unwrap();
    assert_eq!(c.registers[0xA], 0x00);
    assert_eq!(c.registers[0xF], 0x3);
}

#[test]
fn add_reg_sets_carry_on_overflow() {
    let mut c = fresh();
    c.registers[1] = 0xFF;
    c.registers[2] = 0x01;
    run(&mut c, 0x8124).unwrap();
    assert_eq!(c.registers[1], 0x00);
    assert_eq!(c.registers[0xF], 1);

    let mut c = fresh();
    c.registers[1] = 0x01;
    c.registers[2] = 0x01;
    run(&mut c, 0x8124).unwrap();
    assert_eq!(c.registers[1], 0x02);
    assert_eq!(c.registers[0xF], 0);
}

#[test]
fn sub_xy_only_writes_on_the_true_branch() {
    let mut c = fresh();
    c.registers[1] = 0x05;
    c.registers[2] = 0x02;
    run(&mut c, 0x8125).unwrap();
    assert_eq!(c.registers[1], 0x03);
    assert_eq!(c.registers[0xF], 1);

    let mut c = fresh();
    c.registers[1] = 0x02;
    c.registers[2] = 0x05;
    run(&mut c, 0x8125).unwrap();
    assert_eq!(c.registers[1], 0x02);
    assert_eq!(c.registers[0xF], 0);
}

#[test]
fn sub_yx_mirrors_the_quirk() {
    let mut c = fresh();
    c.registers[1] = 0x02;
    c.registers[2] = 0x05;
    run(&mut c, 0x8127).unwrap();
    assert_eq!(c.registers[1], 0x03);
    assert_eq!(c.registers[0xF], 1);

    let mut c = fresh();
    c.registers[1] = 0x05;
    c.registers[2] = 0x02;
    run(&mut c, 0x8127).unwrap();
    assert_eq!(c.registers[1], 0x05);
    assert_eq!(c.registers[0xF], 0);
}

#[test]
fn shifts_expose_the_shifted_out_bit() {
    let mut c = fresh();
    c.registers[1] = 0x05;
    run(&mut c, 0x8126).unwrap();
    assert_eq!(c.registers[1], 0x02);
    assert_eq!(c.registers[0xF], 1);

    let mut c = fresh();
    c.registers[1] = 0x04;
    run(&mut c, 0x8126).unwrap();
    assert_eq!(c.registers[1], 0x02);
    assert_eq!(c.registers[0xF], 0);

    let mut c = fresh();
    c.registers[1] = 0x81;
    run(&mut c, 0x812E).unwrap();
    assert_eq!(c.registers[1], 0x02);
    assert_eq!(c.registers[0xF], 1);

    let mut c = fresh();
    c.registers[1] = 0x41;
    run(&mut c, 0x812E).unwrap();
    assert_eq!(c.registers[1], 0x82);
    assert_eq!(c.registers[0xF], 0);
}

#[test]
fn bitwise_family_matches_the_operators() {
    let mut c = fresh();
    c.registers[1] = 0b1100;
    c.registers[2] = 0b1010;
    run(&mut c, 0x8120).unwrap();
    assert_eq!(c.registers[1], 0b1010);

    c.registers[1] = 0b1100;
    run(&mut c, 0x8121).unwrap();
    assert_eq!(c.registers[1], 0b1110);

    c.registers[1] = 0b1100;
    run(&mut c, 0x8122).unwrap();
    assert_eq!(c.registers[1], 0b1000);

    c.registers[1] = 0b1100;
    run(&mut c, 0x8123).unwrap();
    assert_eq!(c.registers[1], 0b0110);
}

#[test]
fn skips_move_the_counter_by_two() {
    let mut c = fresh();
    c.registers[1] = 0x42;
    let pc = c.pc;
    run(&mut c, 0x3142).unwrap();
    assert_eq!(c.pc, pc + 2);
    run(&mut c, 0x3143).unwrap();
    assert_eq!(c.pc, pc + 2);
    run(&mut c, 0x4143).unwrap();
    assert_eq!(c.pc, pc + 4);

    let mut c = fresh();
    c.registers[1] = 7;
    c.registers[2] = 7;
    c.registers[3] = 8;
    let pc = c.pc;
    run(&mut c, 0x5120).unwrap();
    assert_eq!(c.pc, pc + 2);
    run(&mut c, 0x5130).unwrap();
    assert_eq!(c.pc, pc + 2);
    run(&mut c, 0x9130).unwrap();
    assert_eq!(c.pc, pc + 4);
    run(&mut c, 0x9120).unwrap();
    assert_eq!(c.pc, pc + 4);
}

#[test]
fn jumps_and_calls_set_the_counter() {
    let mut c = fresh();
    run(&mut c, 0x1ABC).unwrap();
    assert_eq!(c.pc, 0xABC);

    let mut c = fresh();
    c.registers[0] = 0x10;
    run(&mut c, 0xB200).unwrap();
    assert_eq!(c.pc, 0x210);

    let mut c = fresh();
    let ret = c.pc;
    run(&mut c, 0x2400).unwrap();
    assert_eq!(c.pc, 0x400);
    assert_eq!(c.sp, 1);
    run(&mut c, 0x00EE).unwrap();
    assert_eq!(c.pc, ret);
    assert_eq!(c.sp, 0);
}

#[test]
fn call_on_a_full_stack_overflows_but_still_jumps() {
    let mut c = fresh();
    for _ in 0..16 {
        run(&mut c, 0x2400).unwrap();
    }
    assert_eq!(c.sp, 16);
    let r = run(&mut c, 0x2600);
    assert_eq!(r, Err(Chip8Error::StackOverflow));
    assert_eq!(c.pc, 0x600);
    assert_eq!(c.sp, 16);
}

#[test]
fn return_on_an_empty_stack_underflows_and_keeps_pc() {
    let mut c = fresh();
    let pc = c.pc;
    let r = run(&mut c, 0x00EE);
    assert_eq!(r, Err(Chip8Error::StackUnderflow));
    assert_eq!(c.pc, pc);
    assert_eq!(c.sp, 0);
}

#[test]
fn clear_screen_darkens_every_cell() {
    let mut c = fresh();
    c.memory[0x600] = 0xFF;
    c.i = 0x600;
    run(&mut c, 0xD011).unwrap();
    assert!(c.display_snapshot().iter().any(|&v| v == 1));
    run(&mut c, 0x00E0).unwrap();
    assert!(c.display_snapshot().iter().all(|&v| v == 0));
    assert!(c.take_draw_flag());
}

#[test]
fn draw_twice_toggles_back_and_reports_collision() {
    let mut c = fresh();
    c.memory[0x600] = 0xFF;
    c.memory[0x601] = 0x81;
    c.i = 0x600;
    c.registers[0] = 3;
    c.registers[1] = 5;
    run(&mut c, 0xD012).unwrap();
    assert_eq!(c.registers[0xF], 0);
    let snap = c.display_snapshot();
    for col in 0..8 {
        assert_eq!(snap[5 * 64 + 3 + col], 1);
    }
    assert_eq!(snap[6 * 64 + 3], 1);
    assert_eq!(snap[6 * 64 + 4], 0);
    assert_eq!(snap[6 * 64 + 10], 1);

    run(&mut c, 0xD012).unwrap();
    assert_eq!(c.registers[0xF], 1);
    assert!(c.display_snapshot().iter().all(|&v| v == 0));
}

#[test]
fn draw_wraps_at_the_screen_edges() {
    let mut c = fresh();
    c.memory[0x600] = 0xFF;
    c.i = 0x600;
    c.registers[0] = 60;
    c.registers[1] = 31;
    run(&mut c, 0xD011).unwrap();
    let snap = c.display_snapshot();
    for col in 60..64 {
        assert_eq!(snap[31 * 64 + col], 1);
    }
    for col in 0..4 {
        assert_eq!(snap[31 * 64 + col], 1);
    }
}

#[test]
fn random_is_masked_by_the_immediate() {
    let mut c = fresh();
    c.registers[5] = 0xAA;
    run(&mut c, 0xC500).unwrap();
    assert_eq!(c.registers[5], 0);

    let mut c = fresh();
    c.execute(decode(0xC50F), 0xAB).unwrap();
    assert_eq!(c.registers[5], 0x0B);
    c.execute(decode(0xC5FF), 0xAB).unwrap();
    assert_eq!(c.registers[5], 0xAB);
}

#[test]
fn timers_read_write_and_floor_at_zero() {
    let mut c = fresh();
    c.registers[1] = 3;
    run(&mut c, 0xF115).unwrap();
    assert_eq!(c.delay_timer, 3);
    run(&mut c, 0xF118).unwrap();
    assert_eq!(c.sound_timer, 3);
    run(&mut c, 0xF207).unwrap();
    assert_eq!(c.registers[2], 3);
    for _ in 0..5 {
        c.tick_timers();
    }
    assert_eq!(c.delay_timer, 0);
    assert_eq!(c.sound_timer, 0);
}

#[test]
fn add_i_and_font_addressing() {
    let mut c = fresh();
    c.i = 0x100;
    c.registers[1] = 0x22;
    run(&mut c, 0xF11E).unwrap();
    assert_eq!(c.i, 0x122);

    c.registers[2] = 0x2;
    run(&mut c, 0xF229).unwrap();
    assert_eq!(c.i, 0x50 + 10);
    assert_eq!(c.memory[c.i as usize], 0xF0);
}

#[test]
fn bcd_writes_three_digits() {
    let mut c = fresh();
    c.registers[7] = 234;
    c.i = 0x300;
    run(&mut c, 0xF733).unwrap();
    assert_eq!(c.memory[0x300], 2);
    assert_eq!(c.memory[0x301], 3);
    assert_eq!(c.memory[0x302], 4);
    assert_eq!(c.i, 0x300);
}

#[test]
fn store_and_load_registers_round_trip() {
    let mut c = fresh();
    for k in 0..4 {
        c.registers[k] = (10 + k) as u8;
    }
    c.i = 0x400;
    run(&mut c, 0xF355).unwrap();
    assert_eq!(c.i, 0x404);
    for k in 0..4 {
        assert_eq!(c.memory[0x400 + k], (10 + k) as u8);
    }

    for k in 0..4 {
        c.registers[k] = 0;
    }
    c.i = 0x400;
    run(&mut c, 0xF365).unwrap();
    assert_eq!(c.i, 0x404);
    for k in 0..4 {
        assert_eq!(c.registers[k], (10 + k) as u8);
    }
}

#[test]
fn key_skips_follow_the_matrix() {
    let mut c = fresh();
    c.registers[1] = 0x7;
    let pc = c.pc;
    run(&mut c, 0xE19E).unwrap();
    assert_eq!(c.pc, pc);
    run(&mut c, 0xE1A1).unwrap();
    assert_eq!(c.pc, pc + 2);

    c.handle_key(0x7, true);
    run(&mut c, 0xE19E).unwrap();
    assert_eq!(c.pc, pc + 4);
    run(&mut c, 0xE1A1).unwrap();
    assert_eq!(c.pc, pc + 4);

    c.registers[1] = 200;
    run(&mut c, 0xE1A1).unwrap();
    assert_eq!(c.pc, pc + 6);
}
