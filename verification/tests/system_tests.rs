use chip8::sprites::hex_digits;
use chip8::system::SystemState;

#[test]
fn system_has_sprites() {
    let system = SystemState::new();
    assert_eq!(&system.memory[0..80], &hex_digits()[..]);
}

#[test]
fn sprite_locations() {
    let system = SystemState::new();
    assert_eq!(system.get_sprite_location(5).unwrap(), 25);
    assert!(system.get_sprite_location(20).is_err());
}

#[test]
fn programs_load() {
    let mut system = SystemState::new();
    let program = [0x01, 0x02, 0x03, 0x04, 0x05, 0x06, 0x07];
    system.load_program(&program).unwrap();
    assert_eq!(&system.memory[0x200..0x200 + program.len()], &program[..]);
    assert_eq!(system.program_counter, 0x200);
}

#[test]
fn program_too_long() {
    let mut system = SystemState::new();
    assert!(
        system.load_program(&[0x55; 4000][..]).is_err(),
        "program should be too long"
    );
}

#[test]
fn program_of_full_capacity_loads() {
    let mut system = SystemState::new();
    assert!(system.load_program(&[0x55; 3584][..]).is_ok());
    assert!(system.memory[0x200..].iter().all(|&b| b == 0x55));
}

#[test]
fn program_one_over_capacity_rejected_and_state_unchanged() {
    let mut system = SystemState::new();
    assert!(system.load_program(&[0x55; 3585][..]).is_err());
    let fresh = SystemState::new();
    assert_eq!(system.memory, fresh.memory);
    assert_eq!(system.program_counter, fresh.program_counter);
}

#[test]
fn opcodes_read_correctly() {
    let mut system = SystemState::new();
    system.program_counter = 0x200;
    system.memory[0x200..0x202].copy_from_slice(&[0x12, 0x34]);
    assert_eq!(system.next_opcode(), 0x1234);
    assert_eq!(system.program_counter, 0x202);
}

#[test]
fn tick_timers() {
    let mut system = SystemState::new();

    system.delay_timer = 5;
    system.sound_timer = 8;
    system.tick_timers();
    assert_eq!(system.delay_timer, 4);
    assert_eq!(system.sound_timer, 7);

    system.delay_timer = 10;
    system.sound_timer = 0;
    system.tick_timers();
    assert_eq!(system.delay_timer, 9);
    assert_eq!(system.sound_timer, 0);

    system.delay_timer = 0;
    system.sound_timer = 20;
    system.tick_timers();
    assert_eq!(system.delay_timer, 0);
    assert_eq!(system.sound_timer, 19);
}

#[test]
fn font_table_is_eighty_bytes_and_starts_with_zero_glyph() {
    let fonts = hex_digits();
    assert_eq!(fonts.len(), 80);
    assert_eq!(&fonts[0..5], &[0xF0, 0x90, 0x90, 0x90, 0xF0]);
    assert_eq!(&fonts[75..80], &[0xF0, 0x80, 0xF0, 0x80, 0x80]);
}

#[test]
fn err_carries_its_details() {
    let r: Result<(), chip8::errors::Error> = chip8::errors::err("something went wrong");
    match r {
        Err(e) => assert_eq!(e.0, "something went wrong"),
        Ok(()) => panic!("err must build an Err"),
    }
}
