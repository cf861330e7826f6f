use chip8::{AudioHandler, Emulator, NullAudio};

const MS_17: u64 = 17_000_000;

struct CountingAudio {
    starts: u32,
    stops: u32,
}

impl AudioHandler for CountingAudio {
    fn start_sound(&mut self) {
        self.starts += 1;
    }

    fn stop_sound(&mut self) {
        self.stops += 1;
    }
}

#[test]
fn execute_cycle() {
    let mut emulator = Emulator::<NullAudio>::default();
    emulator.load_program(&[0x01, 0x02, 0x03, 0x04]).unwrap();
    emulator.system.delay_timer = 10;

    emulator.execute_cycle(MS_17).unwrap();
    assert_eq!(emulator.system.program_counter, 0x202);
    assert_eq!(emulator.system.delay_timer, 9);

    emulator.execute_cycle(MS_17).unwrap();
    assert_eq!(emulator.system.program_counter, 0x204);
    assert_eq!(emulator.system.delay_timer, 8);
}

#[test]
fn timer_rate_is_decoupled_from_cycle_rate() {
    let mut emulator = Emulator::<NullAudio>::default();
    // A self-loop: jump back to the start forever.
    emulator.load_program(&[0x12, 0x00]).unwrap();
    emulator.system.delay_timer = 100;

    // Driving faster than 60 Hz: two 10 ms cycles tick once in total.
    emulator.execute_cycle(10_000_000).unwrap();
    assert_eq!(emulator.system.delay_timer, 100);
    emulator.execute_cycle(10_000_000).unwrap();
    assert_eq!(emulator.system.delay_timer, 99);

    // Driving slower than 60 Hz: one 50 ms cycle ticks three times.
    emulator.execute_cycle(50_000_000).unwrap();
    assert_eq!(emulator.system.delay_timer, 96);
}

#[test]
fn wait_for_key_blocks_until_a_key_arrives() {
    let mut emulator = Emulator::<NullAudio>::default();
    // LD V5, K
    emulator.load_program(&[0xF5, 0x0A]).unwrap();

    emulator.execute_cycle(0).unwrap();
    assert_eq!(emulator.system.program_counter, 0x200);
    assert!(emulator.system.waiting_for_key);
    assert_eq!(emulator.system.registers[5], 0);

    // While waiting, cycles skip fetch and execution entirely.
    emulator.system.delay_timer = 3;
    emulator.execute_cycle(MS_17).unwrap();
    assert_eq!(emulator.system.program_counter, 0x200);
    assert!(emulator.system.waiting_for_key);
    // ... but timers still tick.
    assert_eq!(emulator.system.delay_timer, 2);

    emulator.on_key_down(5);
    assert!(!emulator.system.waiting_for_key);
    assert_eq!(emulator.system.pending_keypress, Some(5));

    // The next cycle re-executes the wait instruction, which now consumes
    // the capture, writes the register and advances normally.
    emulator.execute_cycle(0).unwrap();
    assert_eq!(emulator.system.registers[5], 5);
    assert_eq!(emulator.system.pending_keypress, None);
    assert_eq!(emulator.system.program_counter, 0x202);
}

#[test]
fn key_events_track_the_keypad() {
    let mut emulator = Emulator::<NullAudio>::default();
    emulator.on_key_down(0xC);
    assert!(emulator.system.keys[0xC]);
    emulator.on_key_up(0xC);
    assert!(!emulator.system.keys[0xC]);
    // A key-down while not waiting is ignored for capture purposes.
    assert_eq!(emulator.system.pending_keypress, None);
}

#[test]
fn end_to_end_clear_loop_runs_a_thousand_cycles() {
    let mut emulator = Emulator::<NullAudio>::default();
    // CLS; LD V0, 0x0A; JP 0x200
    emulator.load_program(&[0x00, 0xE0, 0x60, 0x0A, 0x12, 0x00]).unwrap();
    for _ in 0..1000 {
        emulator.execute_cycle(MS_17).expect("the loop must not error");
    }
    assert!(emulator.get_display().iter().all(|&cell| !cell));
    assert_eq!(emulator.system.registers[0], 0x0A);
}

#[test]
fn runaway_program_counter_is_an_error_not_a_crash() {
    let mut emulator = Emulator::<NullAudio>::default();
    // JP 0xFFE: the next fetch reads the last two bytes, then the counter
    // runs past memory.
    emulator.load_program(&[0x1F, 0xFE]).unwrap();
    emulator.execute_cycle(0).unwrap();
    assert_eq!(emulator.system.program_counter, 0xFFE);
    emulator.execute_cycle(0).unwrap();
    assert_eq!(emulator.system.program_counter, 0x1000);
    assert!(emulator.execute_cycle(0).is_err());
}

#[test]
fn tone_events_fire_on_transitions_only() {
    let mut emulator = Emulator::new(CountingAudio { starts: 0, stops: 0 });
    // LD V0, 5; LD ST, V0; JP 0x204 (self-loop)
    emulator.load_program(&[0x60, 0x05, 0xF0, 0x18, 0x12, 0x04]).unwrap();

    emulator.execute_cycle(MS_17).unwrap();
    assert_eq!(emulator.audio.starts, 0);
    emulator.execute_cycle(MS_17).unwrap();
    assert_eq!(emulator.audio.starts, 1);
    assert_eq!(emulator.audio.stops, 0);

    for _ in 0..10 {
        emulator.execute_cycle(MS_17).unwrap();
    }
    assert_eq!(emulator.system.sound_timer, 0);
    assert_eq!(emulator.audio.starts, 1);
    assert_eq!(emulator.audio.stops, 1);
}

#[test]
fn reset_returns_to_the_fresh_state_and_silences_the_tone() {
    let mut emulator = Emulator::new(CountingAudio { starts: 0, stops: 0 });
    emulator.load_program(&[0x60, 0x05, 0xF0, 0x18, 0x12, 0x04]).unwrap();
    emulator.execute_cycle(0).unwrap();
    emulator.execute_cycle(0).unwrap();
    emulator.reset();
    assert_eq!(emulator.audio.stops, 1);
    assert_eq!(emulator.system.registers[0], 0);
    assert_eq!(emulator.system.sound_timer, 0);
    assert_eq!(emulator.system.program_counter, 0);
    // A fresh load works again after the reset.
    emulator.load_program(&[0x12, 0x00]).unwrap();
    emulator.execute_cycle(0).unwrap();
    assert_eq!(emulator.system.program_counter, 0x200);
}

#[test]
fn set_audio_handler_replaces_the_sink() {
    let mut emulator = Emulator::new(CountingAudio { starts: 0, stops: 0 });
    emulator.load_program(&[0x60, 0x05, 0xF0, 0x18, 0x12, 0x04]).unwrap();
    emulator.set_audio_handler(CountingAudio { starts: 7, stops: 7 });
    emulator.execute_cycle(0).unwrap();
    emulator.execute_cycle(0).unwrap();
    assert_eq!(emulator.audio.starts, 8);
}
