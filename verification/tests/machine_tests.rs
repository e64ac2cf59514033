use chip8::cpu::{Chip8, FONTSET, MAX_ROM_LEN};
use chip8::input::{map_key, InputHandler, PhysKey};
use chip8::Chip8Error;

#[test]
fn construction_zeroes_everything() {
    let c = Chip8::new();
    assert!(c.registers.iter().all(|&v| v == 0));
    assert_eq!(c.pc, 0);
    assert_eq!(c.sp, 0);
    assert_eq!(c.i, 0);
    assert!(c.memory.iter().all(|&b| b == 0));
    assert!(c.display_snapshot().iter().all(|&v| v == 0));
}

#[test]
fn init_places_counter_and_font() {
    let mut c = Chip8::new();
    c.init();
    assert_eq!(c.pc, 0x200);
    assert_eq!(c.sp, 0);
    for (j, &b) in FONTSET.iter().enumerate() {
        assert_eq!(c.memory[0x50 + j], b);
    }
    assert_eq!(c.memory[0x4F], 0);
    assert_eq!(c.memory[0xA0], 0);
}

#[test]
fn rom_of_the_exact_limit_loads_and_one_more_byte_fails() {
    let mut c = Chip8::new();
    c.init();
    let rom = vec![0xAB; MAX_ROM_LEN];
    assert_eq!(c.load_rom(&rom), Ok(MAX_ROM_LEN));
    assert_eq!(c.memory[0x200], 0xAB);
    assert_eq!(c.memory[4095], 0xAB);

    let mut c = Chip8::new();
    c.init();
    let rom = vec![0xAB; MAX_ROM_LEN + 1];
    assert_eq!(c.load_rom(&rom), Err(Chip8Error::RomTooLarge));
    assert_eq!(c.memory[0x200], 0);
}

#[test]
fn an_empty_rom_loads_zero_bytes() {
    let mut c = Chip8::new();
    c.init();
    let rom: Vec<u8> = Vec::new();
    assert_eq!(c.load_rom(&rom), Ok(0));
    assert_eq!(c.pc, 0x200);
}

#[test]
fn a_zero_row_draw_changes_nothing() {
    let mut c = Chip8::new();
    c.init();
    c.memory[0x600] = 0xFF;
    c.i = 0x600;
    c.registers[0xF] = 1;
    c.execute(chip8::isa::decode(0xD000), 0).unwrap();
    assert!(c.display_snapshot().iter().all(|&v| v == 0));
    assert_eq!(c.registers[0xF], 0);
}

#[test]
fn one_cycle_runs_the_loaded_program() {
    let mut c = Chip8::new();
    c.init();
    let rom = vec![0x6A, 0x05, 0x00, 0x00];
    c.load_rom(&rom).unwrap();
    c.cycle_with(0).unwrap();
    assert_eq!(c.registers[0xA], 5);
    assert_eq!(c.pc, 0x202);
    c.cycle_with(0).unwrap();
    assert_eq!(c.registers[0xA], 5);
    assert_eq!(c.pc, 0x204);
}

#[test]
fn cycle_reports_stack_errors_and_continues() {
    let mut c = Chip8::new();
    c.init();
    let rom = vec![0x00, 0xEE];
    c.load_rom(&rom).unwrap();
    assert_eq!(c.cycle_with(0), Err(Chip8Error::StackUnderflow));
    assert_eq!(c.pc, 0x202);
}

#[test]
fn cycle_with_random_source_masks_to_zero() {
    let mut c = Chip8::new();
    c.init();
    let rom = vec![0xC5, 0x00];
    c.load_rom(&rom).unwrap();
    c.registers[5] = 0x77;
    c.cycle().unwrap();
    assert_eq!(c.registers[5], 0);
    assert_eq!(c.pc, 0x202);
}

#[test]
fn wait_key_stalls_until_a_key_arrives() {
    let mut c = Chip8::new();
    c.init();
    let rom = vec![0xF5, 0x0A];
    c.load_rom(&rom).unwrap();
    c.cycle_with(0).unwrap();
    assert_eq!(c.pc, 0x200);
    c.cycle_with(0).unwrap();
    assert_eq!(c.pc, 0x200);
    assert!(c.registers.iter().all(|&v| v == 0));

    c.handle_key(0x7, true);
    c.handle_key(0x3, true);
    c.cycle_with(0).unwrap();
    assert_eq!(c.registers[5], 0x3);
    assert_eq!(c.pc, 0x202);
}

#[test]
fn register_access_is_bounds_checked() {
    let mut c = Chip8::new();
    c.init();
    assert_eq!(c.register(3, 0x55), Ok(()));
    assert_eq!(c.get_register_data(&3), 0x55);
    assert_eq!(c.register(16, 0x55), Err(Chip8Error::RegisterIndexOverflow));
}

#[test]
fn push_and_pop_guard_the_stack_bounds() {
    let mut c = Chip8::new();
    c.init();
    assert_eq!(c.pop(), None);
    for k in 0..16 {
        assert_eq!(c.push(0x200 + k), Ok(()));
    }
    assert_eq!(c.push(0x300), Err(Chip8Error::StackOverflow));
    for k in (0..16).rev() {
        assert_eq!(c.pop(), Some(0x200 + k));
    }
    assert_eq!(c.pop(), None);
}

#[test]
fn draw_flag_is_taken_once() {
    let mut c = Chip8::new();
    c.init();
    assert!(!c.take_draw_flag());
    c.memory[0x600] = 0x80;
    c.i = 0x600;
    c.execute(chip8::isa::decode(0xD001), 0).unwrap();
    assert!(c.take_draw_flag());
    assert!(!c.take_draw_flag());
}

#[test]
fn physical_keys_map_to_the_conventional_layout() {
    assert_eq!(map_key(PhysKey::Digit1), 0x1);
    assert_eq!(map_key(PhysKey::Digit2), 0x2);
    assert_eq!(map_key(PhysKey::Digit3), 0x3);
    assert_eq!(map_key(PhysKey::Digit4), 0xC);
    assert_eq!(map_key(PhysKey::KeyQ), 0x4);
    assert_eq!(map_key(PhysKey::KeyW), 0x5);
    assert_eq!(map_key(PhysKey::KeyE), 0x6);
    assert_eq!(map_key(PhysKey::KeyR), 0xD);
    assert_eq!(map_key(PhysKey::KeyA), 0x7);
    assert_eq!(map_key(PhysKey::KeyS), 0x8);
    assert_eq!(map_key(PhysKey::KeyD), 0x9);
    assert_eq!(map_key(PhysKey::KeyF), 0xE);
    assert_eq!(map_key(PhysKey::KeyZ), 0xA);
    assert_eq!(map_key(PhysKey::KeyX), 0x0);
    assert_eq!(map_key(PhysKey::KeyC), 0xB);
    assert_eq!(map_key(PhysKey::KeyV), 0xF);
}

#[test]
fn out_of_range_keys_never_fault() {
    let mut h = InputHandler::new();
    h.key_pressed(200);
    assert!(!h.is_key_pressed(200));
    h.key_pressed(5);
    assert!(h.is_key_pressed(5));
    h.key_released(5);
    assert!(!h.is_key_pressed(5));

    let mut c = Chip8::new();
    c.init();
    c.handle_key(200, true);
    assert!(!c.input_handler.is_key_pressed(15));
}
