use chip8::{decode, get_bit_at, key_code, right_rotate, Chip, Display, Fault, Instruction, LoadError};

fn boot(program: Vec<u8>) -> Chip {
    Chip::new(&program).expect("program fits")
}

fn run(chip: &mut Chip, steps: usize) {
    for _ in 0..steps {
        assert_eq!(chip.step(0), Ok(()));
    }
}

#[test]
fn load_places_program_and_font() {
    let program = vec![0x12, 0x34, 0xab, 0xcd, 0xef];
    let chip = boot(program.clone());
    for (k, b) in program.iter().enumerate() {
        assert_eq!(chip.read_memory(0x200 + k), Some(*b));
    }
    assert_eq!(chip.read_memory(0x205), Some(0));
    assert_eq!(chip.read_memory(0), Some(0xf0));
    assert_eq!(chip.read_memory(5), Some(0x20));
    assert_eq!(chip.read_memory(79), Some(0x80));
    assert_eq!(chip.read_memory(80), Some(0));
    assert_eq!(chip.read_memory(4096), None);
    assert_eq!(chip.pc(), 0x200);
}

#[test]
fn load_largest_program() {
    let program = vec![0x77u8; 4096 - 0x200];
    let chip = boot(program);
    assert_eq!(chip.read_memory(0x200), Some(0x77));
    assert_eq!(chip.read_memory(4095), Some(0x77));
}

#[test]
fn load_rejects_oversized_program() {
    let program = vec![0u8; 4096 - 0x200 + 1];
    assert!(matches!(Chip::new(&program), Err(LoadError::TooLarge)));
}

#[test]
fn add_register_sets_carry() {
    // V1 = 200, V2 = 100, V1 += V2
    let mut chip = boot(vec![0x61, 200, 0x62, 100, 0x81, 0x24]);
    run(&mut chip, 3);
    assert_eq!(chip.register(1), 44);
    assert_eq!(chip.register(15), 1);
}

#[test]
fn add_register_without_carry() {
    let mut chip = boot(vec![0x61, 100, 0x62, 100, 0x81, 0x24]);
    run(&mut chip, 3);
    assert_eq!(chip.register(1), 200);
    assert_eq!(chip.register(15), 0);
}

#[test]
fn sub_register_sets_no_borrow() {
    let mut chip = boot(vec![0x61, 10, 0x62, 3, 0x81, 0x25]);
    run(&mut chip, 3);
    assert_eq!(chip.register(1), 7);
    assert_eq!(chip.register(15), 1);
}

#[test]
fn sub_register_with_borrow() {
    let mut chip = boot(vec![0x61, 3, 0x62, 10, 0x81, 0x25]);
    run(&mut chip, 3);
    assert_eq!(chip.register(1), 249);
    assert_eq!(chip.register(15), 0);
}

#[test]
fn subn_reverses_operands() {
    let mut chip = boot(vec![0x61, 3, 0x62, 10, 0x81, 0x27]);
    run(&mut chip, 3);
    assert_eq!(chip.register(1), 7);
    assert_eq!(chip.register(2), 10);
    assert_eq!(chip.register(15), 1);
}

#[test]
fn shifts_keep_dropped_bit_in_flag() {
    let mut chip = boot(vec![0x61, 0x81, 0x81, 0x06, 0x62, 0x81, 0x82, 0x0e]);
    run(&mut chip, 2);
    assert_eq!(chip.register(1), 0x40);
    assert_eq!(chip.register(15), 1);
    run(&mut chip, 2);
    assert_eq!(chip.register(2), 0x02);
    assert_eq!(chip.register(15), 1);
}

#[test]
fn add_immediate_wraps_without_flag() {
    let mut chip = boot(vec![0x6f, 0x05, 0x61, 0xff, 0x71, 0x02]);
    run(&mut chip, 3);
    assert_eq!(chip.register(1), 1);
    assert_eq!(chip.register(15), 5);
}

#[test]
fn call_then_return_restores_pc() {
    // 0x200: call 0x206; 0x206: return
    let mut chip = boot(vec![0x22, 0x06, 0x00, 0x00, 0x00, 0x00, 0x00, 0xee]);
    run(&mut chip, 1);
    assert_eq!(chip.pc(), 0x206);
    run(&mut chip, 1);
    assert_eq!(chip.pc(), 0x202);
}

#[test]
fn return_on_empty_stack_faults() {
    let mut chip = boot(vec![0x00, 0xee]);
    assert_eq!(chip.step(0), Err(Fault::StackUnderflow));
    assert_eq!(chip.pc(), 0x202);
}

#[test]
fn seventeenth_nested_call_faults() {
    // 0x200: call 0x200, forever
    let mut chip = boot(vec![0x22, 0x00]);
    run(&mut chip, 16);
    assert_eq!(chip.step(0), Err(Fault::StackOverflow));
}

#[test]
fn unknown_opcode_is_reported_and_skipped() {
    let mut chip = boot(vec![0xe0, 0x9e, 0x61, 0x07]);
    assert_eq!(chip.step(0), Err(Fault::UnknownOpcode(0xe09e)));
    assert_eq!(chip.pc(), 0x202);
    run(&mut chip, 1);
    assert_eq!(chip.register(1), 7);
}

#[test]
fn fetch_past_memory_faults() {
    // jump 0xfff: no room for a two-byte opcode
    let mut chip = boot(vec![0x1f, 0xff]);
    run(&mut chip, 1);
    assert_eq!(chip.pc(), 0xfff);
    assert_eq!(chip.step(0), Err(Fault::PcOutOfRange));
}

#[test]
fn skips_move_pc_past_next_instruction() {
    let mut chip = boot(vec![0x61, 0x05, 0x31, 0x05, 0x00, 0x00, 0x41, 0x05, 0x51, 0x10]);
    run(&mut chip, 2);
    assert_eq!(chip.pc(), 0x206);
    run(&mut chip, 1);
    assert_eq!(chip.pc(), 0x208);
}

#[test]
fn jump_with_offset_adds_v0() {
    let mut chip = boot(vec![0x60, 0x10, 0xb3, 0x00]);
    run(&mut chip, 2);
    assert_eq!(chip.pc(), 0x310);
}

#[test]
fn random_is_masked() {
    let mut chip = boot(vec![0xc3, 0x0f]);
    assert_eq!(chip.step(0xab), Ok(()));
    assert_eq!(chip.register(3), 0x0b);
}

#[test]
fn random_with_zero_mask_from_generator() {
    let mut chip = boot(vec![0x63, 0x44, 0xc3, 0x00]);
    assert_eq!(chip.new_cycle(), Ok(()));
    assert_eq!(chip.new_cycle(), Ok(()));
    assert_eq!(chip.register(3), 0);
}

#[test]
fn sprite_collision_on_redraw() {
    let mut display = Display::new();
    display.clear();
    let sprite = vec![0xffu8];
    assert!(!display.draw_sprite(&sprite, 1, 0, 0));
    assert_eq!(display.row(0), 0xff00_0000_0000_0000);
    assert!(display.draw_sprite(&sprite, 1, 0, 0));
    assert_eq!(display.row(0), 0);
}

#[test]
fn no_collision_when_lighting_other_pixels() {
    let mut display = Display::new();
    assert!(!display.draw_sprite(&vec![0xf0u8], 1, 0, 0));
    assert!(!display.draw_sprite(&vec![0x0fu8], 1, 0, 0));
    assert_eq!(display.row(0), 0xff00_0000_0000_0000);
}

#[test]
fn sprite_wraps_horizontally() {
    let mut display = Display::new();
    assert!(!display.draw_sprite(&vec![0x80u8], 1, 63, 0));
    assert_eq!(display.row(0), 1);
    assert!(display.pixel(0, 0) == false);
    assert!(display.pixel(63, 0));
}

#[test]
fn sprite_split_across_the_edge() {
    let mut display = Display::new();
    display.draw_sprite(&vec![0xffu8], 1, 60, 0);
    assert_eq!(display.row(0), 0xf000_0000_0000_000f);
}

#[test]
fn sprite_wraps_vertically() {
    let mut display = Display::new();
    display.draw_sprite(&vec![0x80u8, 0x40], 2, 0, 31);
    assert_eq!(display.row(31), 0x8000_0000_0000_0000);
    assert_eq!(display.row(0), 0x4000_0000_0000_0000);
}

#[test]
fn draw_instruction_sets_flag() {
    // I = font glyph 0, V0 = V1 = 0, draw 5 rows twice
    let mut chip = boot(vec![0xa0, 0x00, 0xd0, 0x15, 0xd0, 0x15]);
    run(&mut chip, 2);
    assert_eq!(chip.register(15), 0);
    assert_eq!(chip.display().row(0), 0xf000_0000_0000_0000);
    assert_eq!(chip.display().row(1), 0x9000_0000_0000_0000);
    run(&mut chip, 1);
    assert_eq!(chip.register(15), 1);
    assert_eq!(chip.display().row(0), 0);
}

#[test]
fn clear_instruction_darkens_screen() {
    let mut chip = boot(vec![0xd0, 0x11, 0x00, 0xe0]);
    run(&mut chip, 1);
    assert_ne!(chip.display().row(0), 0);
    run(&mut chip, 1);
    assert_eq!(chip.display().row(0), 0);
}

#[test]
fn bcd_of_249() {
    let mut chip = boot(vec![0x65, 249, 0xa3, 0x00, 0xf5, 0x33]);
    run(&mut chip, 3);
    assert_eq!(chip.read_memory(0x300), Some(2));
    assert_eq!(chip.read_memory(0x301), Some(4));
    assert_eq!(chip.read_memory(0x302), Some(9));
}

#[test]
fn bcd_past_memory_faults() {
    let mut chip = boot(vec![0xaf, 0xfe, 0xf0, 0x33]);
    run(&mut chip, 1);
    assert_eq!(chip.step(0), Err(Fault::AddressOutOfRange));
}

#[test]
fn store_then_load_registers() {
    let mut chip = boot(vec![
        0x60, 11, 0x61, 22, 0x62, 33, 0x63, 44, 0xa3, 0x00, 0xf3, 0x55, 0x60, 0, 0x61, 0, 0x62, 0,
        0x63, 0, 0xf3, 0x65,
    ]);
    run(&mut chip, 6);
    assert_eq!(chip.read_memory(0x303), Some(44));
    assert_eq!(chip.read_memory(0x304), Some(0));
    run(&mut chip, 4);
    assert_eq!(chip.register(0), 0);
    run(&mut chip, 1);
    assert_eq!(
        [chip.register(0), chip.register(1), chip.register(2), chip.register(3)],
        [11, 22, 33, 44]
    );
}

#[test]
fn store_all_sixteen_registers() {
    let mut chip = boot(vec![0x6f, 0x99, 0xa3, 0x00, 0xff, 0x55, 0x6f, 0x00, 0xff, 0x65]);
    run(&mut chip, 5);
    assert_eq!(chip.register(15), 0x99);
    assert_eq!(chip.read_memory(0x30f), Some(0x99));
}

#[test]
fn font_char_and_add_to_i() {
    let mut chip = boot(vec![0x6a, 0x0a, 0xfa, 0x29, 0x61, 0x03, 0xf1, 0x1e]);
    run(&mut chip, 2);
    assert_eq!(chip.address(), 50);
    run(&mut chip, 2);
    assert_eq!(chip.address(), 53);
}

#[test]
fn timers_are_set_read_and_ticked() {
    let mut chip = boot(vec![0x61, 0x02, 0xf1, 0x15, 0xf1, 0x18, 0xf2, 0x07]);
    run(&mut chip, 4);
    assert_eq!(chip.register(2), 2);
    chip.tick_timers();
    assert_eq!(chip.delay_timer(), 1);
    assert_eq!(chip.sound_timer(), 1);
    chip.tick_timers();
    chip.tick_timers();
    assert_eq!(chip.delay_timer(), 0);
    assert_eq!(chip.sound_timer(), 0);
}

#[test]
fn wait_key_blocks_until_press() {
    let mut chip = boot(vec![0xf4, 0x0a, 0x61, 0x01]);
    run(&mut chip, 1);
    assert!(chip.awaiting_key());
    run(&mut chip, 1);
    assert_eq!(chip.pc(), 0x202);
    chip.press_key(16);
    assert!(chip.awaiting_key());
    chip.press_key(0xb);
    assert!(!chip.awaiting_key());
    assert_eq!(chip.register(4), 0xb);
    run(&mut chip, 1);
    assert_eq!(chip.register(1), 1);
}

#[test]
fn keyboard_layout() {
    assert_eq!(key_code('1'), Some(0x1));
    assert_eq!(key_code('4'), Some(0xc));
    assert_eq!(key_code('x'), Some(0x0));
    assert_eq!(key_code('v'), Some(0xf));
    assert_eq!(key_code('r'), Some(0xd));
    assert_eq!(key_code('p'), None);
}

#[test]
fn decode_families() {
    assert_eq!(decode(0x00e0), Some(Instruction::Clear));
    assert_eq!(decode(0x0123), None);
    assert_eq!(decode(0x8ab4), Some(Instruction::AddReg { x: 0xa, y: 0xb }));
    assert_eq!(decode(0x8ab8), None);
    assert_eq!(decode(0xd12f), Some(Instruction::Draw { x: 1, y: 2, n: 15 }));
    assert_eq!(decode(0xf265), Some(Instruction::LoadRegs { x: 2 }));
    assert_eq!(decode(0xb123), Some(Instruction::JumpV0 { addr: 0x123 }));
}

#[test]
fn rotation_and_bits() {
    assert_eq!(right_rotate(1, 1), 0x8000_0000_0000_0000);
    assert_eq!(right_rotate(0xff00_0000_0000_0000, 0), 0xff00_0000_0000_0000);
    assert_eq!(right_rotate(0x8000_0000_0000_0000, 63), 1);
    assert!(get_bit_at(0b100, 2));
    assert!(!get_bit_at(0b100, 1));
    assert!(!get_bit_at(u64::MAX, 64));
}
