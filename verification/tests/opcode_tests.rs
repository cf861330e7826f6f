use chip8::opcodes::{
    bcd, nibbles, nn, nnn, op_add_reg_reg, op_call, op_cls, op_drw, op_jp_v0_addr, op_ld_b,
    op_ld_k, op_ret, op_rnd_reg_byte, op_skp, op_sub_reg_reg, op_subn, sanitize_addr,
    IOpcodeRunner, OpcodeRunner,
};
use chip8::system::SystemState;

#[test]
fn test_nibbles() {
    assert_eq!(nibbles(0x8765), (8, 7, 6, 5));
}

#[test]
fn test_nnn() {
    assert_eq!(nnn(0xA, 0xB, 0xC), 0xABC);
}

#[test]
fn test_nn() {
    assert_eq!(nn(0xF, 0xA), 0xFA);
}

#[test]
fn test_bcd() {
    assert_eq!(bcd(45), (0, 4, 5));
    assert_eq!(bcd(3), (0, 0, 3));
    assert_eq!(bcd(213), (2, 1, 3));
}

#[test]
fn test_op_ld_b() {
    let mut system = SystemState::default();
    system.address_register = 0x800;
    system.registers[8] = 123;
    op_ld_b(&mut system, 8).unwrap();
    assert_eq!(system.memory[0x800..0x803], [1, 2, 3]);
}

#[test]
fn test_sanitize_addr() {
    let system = SystemState::default();
    assert!(sanitize_addr(&system, 0x100, 1).is_err());
    assert!(sanitize_addr(&system, 4100, 1).is_err());
    assert!(sanitize_addr(&system, 4000, 100).is_err());
    assert_eq!(sanitize_addr(&system, 4000, 95).unwrap(), 4000);
}

#[test]
fn test_cls() {
    let mut system = SystemState::default();
    system.display[0..8].copy_from_slice(&rand::random::<[bool; 8]>());
    system.display[64..72].copy_from_slice(&rand::random::<[bool; 8]>());
    system.display[128..136].copy_from_slice(&rand::random::<[bool; 8]>());
    op_cls(&mut system).unwrap();
    for val in system.display.iter() {
        assert_eq!(false, *val);
    }
}

#[test]
fn test_drw() {
    let mut system = SystemState::default();
    system.memory[0x200] = 0b1001_0101;
    system.address_register = 0x200;
    system.registers[5..8].copy_from_slice(&[30, 20, 10]);
    op_drw(&mut system, 6, 5, 1).unwrap();
    assert_eq!(
        &system.display[30 * 64 + 20..30 * 64 + 28],
        &[true, false, false, true, false, true, false, true]
    );
    assert_eq!(system.registers[0xF], 0);

    system.memory[0x201] = 0b1110_0000;
    system.address_register = 0x201;
    op_drw(&mut system, 6, 5, 1).unwrap();
    assert_eq!(
        &system.display[30 * 64 + 20..30 * 64 + 28],
        &[false, true, true, true, false, true, false, true]
    );
    assert_eq!(system.registers[0xF], 1);

    system.address_register = 0x200;
    op_drw(&mut system, 6, 7, 2).unwrap();
    assert_eq!(
        &system.display[10 * 64 + 20..10 * 64 + 28],
        &[true, false, false, true, false, true, false, true]
    );
    assert_eq!(
        &system.display[11 * 64 + 20..11 * 64 + 28],
        &[true, true, true, false, false, false, false, false]
    );
    assert_eq!(system.registers[0xF], 0);
}

#[test]
fn drw_wraps_columns_at_the_display_edge() {
    let mut system = SystemState::default();
    system.memory[0x300] = 0xFF;
    system.address_register = 0x300;
    system.registers[0] = 60;
    system.registers[1] = 0;
    op_drw(&mut system, 0, 1, 1).unwrap();
    for col in [60usize, 61, 62, 63, 0, 1, 2, 3] {
        assert!(system.display[col], "column {} should be lit", col);
    }
    for col in 4..60usize {
        assert!(!system.display[col], "column {} should stay dark", col);
    }
    assert_eq!(system.registers[0xF], 0);
}

#[test]
fn drw_twice_restores_the_display_and_reports_the_collision() {
    let mut system = SystemState::default();
    system.memory[0x280] = 0xA5;
    system.memory[0x281] = 0x3C;
    system.address_register = 0x280;
    system.registers[2] = 13;
    system.registers[3] = 7;
    op_drw(&mut system, 2, 3, 2).unwrap();
    assert_eq!(system.registers[0xF], 0);
    op_drw(&mut system, 2, 3, 2).unwrap();
    // Every toggle cancels, and the second draw finds the cells the first lit.
    assert_eq!(system.registers[0xF], 1);
    for val in system.display.iter() {
        assert_eq!(false, *val);
    }
}

#[test]
fn drw_rejects_a_sprite_running_past_memory() {
    let mut system = SystemState::default();
    system.address_register = 4095;
    assert!(op_drw(&mut system, 0, 1, 2).is_err());
    assert!(op_drw(&mut system, 0, 1, 1).is_ok());
}

#[test]
fn add_with_carry_polarity() {
    let mut system = SystemState::default();
    system.registers[0] = 0xFF;
    system.registers[1] = 0x01;
    op_add_reg_reg(&mut system, 0, 1).unwrap();
    assert_eq!(system.registers[0], 0x00);
    assert_eq!(system.registers[0xF], 0);

    system.registers[2] = 0x01;
    system.registers[3] = 0x01;
    op_add_reg_reg(&mut system, 2, 3).unwrap();
    assert_eq!(system.registers[2], 0x02);
    assert_eq!(system.registers[0xF], 1);
}

#[test]
fn subtract_borrow_polarity() {
    let mut system = SystemState::default();
    system.registers[0] = 0x01;
    system.registers[1] = 0x02;
    op_sub_reg_reg(&mut system, 0, 1).unwrap();
    assert_eq!(system.registers[0], 0xFF);
    assert_eq!(system.registers[0xF], 0);

    system.registers[2] = 0x02;
    system.registers[3] = 0x01;
    op_sub_reg_reg(&mut system, 2, 3).unwrap();
    assert_eq!(system.registers[2], 0x01);
    assert_eq!(system.registers[0xF], 1);
}

#[test]
fn subn_borrow_polarity_is_reversed() {
    let mut system = SystemState::default();
    // V0 = V1 - V0 with a borrow: VF = 1.
    system.registers[0] = 0x02;
    system.registers[1] = 0x01;
    op_subn(&mut system, 0, 1).unwrap();
    assert_eq!(system.registers[0], 0xFF);
    assert_eq!(system.registers[0xF], 1);

    // V2 = V3 - V2 without a borrow: VF = 0.
    system.registers[2] = 0x01;
    system.registers[3] = 0x02;
    op_subn(&mut system, 2, 3).unwrap();
    assert_eq!(system.registers[2], 0x01);
    assert_eq!(system.registers[0xF], 0);
}

#[test]
fn call_and_return_round_trip_and_stack_limits() {
    let mut system = SystemState::default();
    system.program_counter = 0x250;
    op_call(&mut system, 0x300).unwrap();
    assert_eq!(system.program_counter, 0x300);
    op_ret(&mut system).unwrap();
    assert_eq!(system.program_counter, 0x250);
    assert_eq!(system.stack_pointer, 0);

    for depth in 0..16u16 {
        op_call(&mut system, 0x300 + 2 * depth).unwrap();
    }
    assert_eq!(system.stack_pointer, 16);
    let stack_before = system.stack.clone();
    let pc_before = system.program_counter;
    assert!(op_call(&mut system, 0x400).is_err());
    assert_eq!(system.stack, stack_before);
    assert_eq!(system.stack_pointer, 16);
    assert_eq!(system.program_counter, pc_before);
}

#[test]
fn return_from_empty_stack_is_an_error() {
    let mut system = SystemState::default();
    assert!(op_ret(&mut system).is_err());
}

#[test]
fn call_outside_program_space_is_an_error() {
    let mut system = SystemState::default();
    assert!(op_call(&mut system, 0x100).is_err());
    assert!(op_call(&mut system, 4095).is_err());
}

#[test]
fn jump_v0_is_bounds_checked() {
    let mut system = SystemState::default();
    system.registers[0] = 0xFF;
    assert!(op_jp_v0_addr(&mut system, 0xFFF).is_err());
    system.registers[0] = 0x10;
    op_jp_v0_addr(&mut system, 0x300).unwrap();
    assert_eq!(system.program_counter, 0x310);
}

#[test]
fn random_byte_is_masked() {
    let mut system = SystemState::default();
    for _ in 0..32 {
        op_rnd_reg_byte(&mut system, 0, 0x0F).unwrap();
        assert!(system.registers[0] <= 0x0F);
        op_rnd_reg_byte(&mut system, 0, 0x00).unwrap();
        assert_eq!(system.registers[0], 0x00);
    }
}

#[test]
fn bcd_store_outside_program_space_is_an_error() {
    let mut system = SystemState::default();
    system.registers[8] = 123;
    system.address_register = 0x100;
    assert!(op_ld_b(&mut system, 8).is_err());
    assert_eq!(system.memory[0x100..0x103], [0, 0, 0]);
}

#[test]
fn font_lookup_rejects_a_digit_above_fifteen() {
    let mut system = SystemState::default();
    system.registers[3] = 16;
    assert!(chip8::opcodes::op_ld_f(&mut system, 3).is_err());
    system.registers[3] = 7;
    chip8::opcodes::op_ld_f(&mut system, 3).unwrap();
    assert_eq!(system.address_register, 35);
}

#[test]
fn skip_on_key_rejects_a_key_above_fifteen() {
    let mut system = SystemState::default();
    system.registers[4] = 0x10;
    assert!(op_skp(&mut system, 4).is_err());
}

#[test]
fn wait_for_key_rewinds_until_a_capture_is_pending() {
    let mut system = SystemState::default();
    system.program_counter = 0x202;
    op_ld_k(&mut system, 5).unwrap();
    assert!(system.waiting_for_key);
    assert_eq!(system.program_counter, 0x200);

    system.program_counter = 0x202;
    system.pending_keypress = Some(0xB);
    op_ld_k(&mut system, 5).unwrap();
    assert!(!system.waiting_for_key);
    assert_eq!(system.pending_keypress, None);
    assert_eq!(system.registers[5], 0xB);
    assert_eq!(system.program_counter, 0x202);
}

#[test]
fn unknown_opcodes_are_decode_errors() {
    let mut system = SystemState::default();
    let runner = OpcodeRunner;
    system.program_counter = 0x202;
    assert!(runner.run(&mut system, 0xE1FF).is_err());
    assert!(runner.run(&mut system, 0x5121).is_err());
    assert!(runner.run(&mut system, 0xF199).is_err());
    // The legacy machine-call family decodes as a no-op instead.
    assert!(runner.run(&mut system, 0x0123).is_ok());
    assert_eq!(system.program_counter, 0x202);
}

#[test]
fn store_and_load_register_blocks_advance_i() {
    let mut system = SystemState::default();
    for reg in 0..4u8 {
        system.registers[reg as usize] = 10 + reg;
    }
    system.address_register = 0x600;
    chip8::opcodes::op_store_regs(&mut system, 3).unwrap();
    assert_eq!(&system.memory[0x600..0x604], &[10, 11, 12, 13]);
    assert_eq!(system.address_register, 0x604);

    system.address_register = 0x600;
    system.registers[0..4].copy_from_slice(&[0, 0, 0, 0]);
    chip8::opcodes::op_load_regs(&mut system, 3).unwrap();
    assert_eq!(&system.registers[0..4], &[10, 11, 12, 13]);
    assert_eq!(system.address_register, 0x604);

    system.address_register = 4094;
    assert!(chip8::opcodes::op_store_regs(&mut system, 3).is_err());
}
