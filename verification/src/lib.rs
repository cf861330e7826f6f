//! A CHIP-8 virtual machine: a machine-state model, an instruction
//! decoder/dispatcher, the instruction handlers, and a cycle orchestrator
//! that drives fetch, execution, timers and the tone signal.
//!
//! Rendering, audio output and input collection are collaborator concerns:
//! the orchestrator exposes the display as plain booleans, raises start/stop
//! tone callbacks through [`AudioHandler`], and accepts key-down/key-up
//! events.

pub mod draw;
pub mod errors;
pub mod laws;
pub mod opcodes;
pub mod sprites;
pub mod system;

use vstd::prelude::*;

use crate::errors::{err, Error};
use crate::opcodes::{step_result, IOpcodeRunner, OpcodeRunner};
use crate::system::{fetch_spec, init_state, load_spec, tick_spec, StateView, SystemState,
    MEMORY_LEN, PROGRAM_START};

verus! {

/// Nanoseconds per timer step: timers decay at 60 Hz regardless of how fast
/// cycles are driven.
pub const TIMER_DELTA_NANOS: u64 = 16_666_666;

/// A tone sink: CHIP-8 has exactly one tone, which is either sounding or
/// silent, so the audio capability is a pair of edge-triggered callbacks.
pub trait AudioHandler {
    /// Called when the tone starts sounding.
    fn start_sound(&mut self);

    /// Called when the tone stops sounding.
    fn stop_sound(&mut self);
}

/// An audio handler that ignores every event.
pub struct NullAudio;

impl AudioHandler for NullAudio {
    fn start_sound(&mut self) {
    }

    fn stop_sound(&mut self) {
    }
}

/// A timer after `k` whole timer periods: stepped `k` times toward zero,
/// stopping there.
pub open spec fn dec_timer(t: u8, k: int) -> u8 {
    if k >= t {
        0u8
    } else {
        (t - k) as u8
    }
}

/// The machine state after `k` timer ticks.
pub open spec fn ticked(v: StateView, k: int) -> StateView {
    StateView {
        delay_timer: dec_timer(v.delay_timer, k),
        sound_timer: dec_timer(v.sound_timer, k),
        ..v
    }
}

/// A key-down event: the key is recorded as held; when the machine is
/// waiting for a key and no capture is pending, the key is captured; either
/// way the waiting flag clears, so the next cycle re-executes the wait
/// instruction.
pub open spec fn key_down_spec(v: StateView, key: u8) -> StateView {
    StateView {
        keys: v.keys.update(key as int, true),
        pending_keypress: if v.waiting_for_key && v.pending_keypress is None {
            Some(key)
        } else {
            v.pending_keypress
        },
        waiting_for_key: false,
        ..v
    }
}

/// A key-up event: the key is recorded as released.
pub open spec fn key_up_spec(v: StateView, key: u8) -> StateView {
    StateView { keys: v.keys.update(key as int, false), ..v }
}

/// Whether a host-supplied clock speed is acceptable: at least 60 Hz (the
/// timer rate) and at most 120 KHz.
pub fn validate_clock_speed(hz: u32) -> (r: bool)
    ensures
        r <==> 60 <= hz <= 122880,
{
    60 <= hz && hz <= 1024 * 120
}

/// The keypad key a host keyboard character stands for, on the conventional
/// 4x4 layout under the digit row (1234 / qwer / asdf / zxcv).
pub open spec fn keypad_key_spec(c: char) -> Option<u8> {
    match c {
        '1' => Some(0x1u8),
        '2' => Some(0x2u8),
        '3' => Some(0x3u8),
        '4' => Some(0xCu8),
        'q' => Some(0x4u8),
        'w' => Some(0x5u8),
        'e' => Some(0x6u8),
        'r' => Some(0xDu8),
        'a' => Some(0x7u8),
        's' => Some(0x8u8),
        'd' => Some(0x9u8),
        'f' => Some(0xEu8),
        'z' => Some(0xAu8),
        'x' => Some(0x0u8),
        'c' => Some(0xBu8),
        'v' => Some(0xFu8),
        _ => None,
    }
}

/// Maps a host keyboard character to its keypad key, if any; every mapped
/// key is a valid key-event argument.
pub fn keypad_key_from_char(c: char) -> (r: Option<u8>)
    ensures
        r == keypad_key_spec(c),
        r is Some ==> r->0 <= 0xF,
{
    match c {
        '1' => Some(0x1),
        '2' => Some(0x2),
        '3' => Some(0x3),
        '4' => Some(0xC),
        'q' => Some(0x4),
        'w' => Some(0x5),
        'e' => Some(0x6),
        'r' => Some(0xD),
        'a' => Some(0x7),
        's' => Some(0x8),
        'd' => Some(0x9),
        'f' => Some(0xE),
        'z' => Some(0xA),
        'x' => Some(0x0),
        'c' => Some(0xB),
        'v' => Some(0xF),
        _ => None,
    }
}

/// The cycle orchestrator: owns the machine state, accumulates wall-clock
/// time against the timer period, runs one instruction per cycle when not
/// blocked waiting for a key, and raises tone events on transition edges.
pub struct Emulator<A: AudioHandler> {
    /// The machine state.
    pub system: SystemState,
    /// The instruction decoder/dispatcher.
    pub opcode_runner: OpcodeRunner,
    /// The tone sink.
    pub audio: A,
    /// Whether the tone is currently sounding, tracked so start/stop events
    /// fire only on transitions.
    pub sound_playing: bool,
    /// Whether a program has been loaded since construction or the last
    /// reset.
    pub program_loaded: bool,
    /// Wall-clock time accumulated toward the next timer tick, in
    /// nanoseconds; always less than `TIMER_DELTA_NANOS` between cycles.
    pub delta_since_timers: u64,
}

impl Default for Emulator<NullAudio> {
    fn default() -> (r: Emulator<NullAudio>)
        ensures
            r.system@ == init_state(),
            !r.program_loaded,
            !r.sound_playing,
            r.delta_since_timers == 0,
    {
        Emulator::new(NullAudio)
    }
}

impl<A: AudioHandler> Emulator<A> {
    /// A fresh emulator delivering tone events to `audio`.
    pub fn new(audio: A) -> (r: Emulator<A>)
        ensures
            r.system@ == init_state(),
            !r.program_loaded,
            !r.sound_playing,
            r.delta_since_timers == 0,
            r.audio == audio,
    {
        Emulator {
            system: SystemState::new(),
            opcode_runner: OpcodeRunner,
            audio,
            sound_playing: false,
            program_loaded: false,
            delta_since_timers: 0,
        }
    }

    /// Loads a program into the emulator. If a program was previously
    /// loaded, the emulator must be reset first: loading twice without a
    /// reset is a programmer error, ruled out by precondition.
    ///
    /// Rejects a program longer than the memory above `PROGRAM_START`,
    /// leaving the emulator in its prior state.
    pub fn load_program(&mut self, program: &[u8]) -> (r: Result<(), Error>)
        requires
            !old(self).program_loaded,
            old(self).system@.wf(),
        ensures
            final(self).system@.wf(),
            r is Ok <==> program@.len() <= MEMORY_LEN - PROGRAM_START,
            r is Ok ==> final(self).system@ == load_spec(old(self).system@, program@)
                && final(self).program_loaded,
            r is Err ==> final(self).system@ == old(self).system@ && !final(self).program_loaded,
            *final(self) == (Emulator {
                system: final(self).system,
                program_loaded: final(self).program_loaded,
                ..*old(self)
            }),
    {
        match self.system.load_program(program) {
            Ok(()) => {},
            Err(e) => {
                return Err(e);
            },
        }
        self.program_loaded = true;
        Ok(())
    }

    /// A hard reset: back to the freshly-constructed state, with any active
    /// tone silenced. A program must be reloaded before executing cycles.
    pub fn reset(&mut self)
        ensures
            final(self).system@ == init_state(),
            !final(self).program_loaded,
            !final(self).sound_playing,
            final(self).delta_since_timers == 0,
    {
        self.system = SystemState::new();
        self.program_loaded = false;
        self.sound_playing = false;
        self.delta_since_timers = 0;
        self.audio.stop_sound();
    }

    /// Executes a single emulation cycle.
    ///
    /// `delta_nanos` is the wall-clock time since the previous cycle. The
    /// accumulated time is divided into whole 60 Hz periods and both timers
    /// tick once per period, so the timer rate is independent of how often
    /// the caller drives cycles; the remainder stays accumulated.
    ///
    /// When the machine is waiting for a key, fetch and execution are
    /// skipped entirely; otherwise one instruction is fetched at the program
    /// counter (an error if a whole instruction word does not lie within
    /// memory) and dispatched, and the instruction is considered consumed
    /// even when it fails.
    ///
    /// After a successful cycle the tone is sounding exactly when the sound
    /// timer is nonzero; the audio handler hears about transitions only.
    /// A failed cycle leaves the tone state untouched.
    pub fn execute_cycle(&mut self, delta_nanos: u64) -> (r: Result<(), Error>)
        requires
            old(self).program_loaded,
            old(self).system@.wf(),
            old(self).delta_since_timers + delta_nanos <= u64::MAX,
        ensures
            final(self).system@.wf(),
            final(self).program_loaded,
            ({
                let total = old(self).delta_since_timers + delta_nanos;
                let k = total as int / (TIMER_DELTA_NANOS as int);
                let tv = ticked(old(self).system@, k);
                let fetched = StateView {
                    program_counter: (tv.program_counter + 2) as u16,
                    ..tv
                };
                &&& final(self).delta_since_timers == total as int % (TIMER_DELTA_NANOS as int)
                &&& (old(self).system@.waiting_for_key ==> r is Ok && final(self).system@ == tv
                    && final(self).sound_playing == (tv.sound_timer > 0))
                &&& (!old(self).system@.waiting_for_key && tv.program_counter + 1 >= MEMORY_LEN
                    ==> r is Err && final(self).system@ == tv
                    && final(self).sound_playing == old(self).sound_playing)
                &&& (!old(self).system@.waiting_for_key && tv.program_counter + 1 < MEMORY_LEN
                    ==> {
                    &&& step_result(fetched, fetch_spec(tv), final(self).system@, r is Ok)
                    &&& (r is Ok ==> final(self).sound_playing
                        == (final(self).system@.sound_timer > 0))
                    &&& (r is Err ==> final(self).sound_playing == old(self).sound_playing)
                })
            }),
            *final(self) == (Emulator {
                system: final(self).system,
                sound_playing: final(self).sound_playing,
                delta_since_timers: final(self).delta_since_timers,
                audio: final(self).audio,
                ..*old(self)
            }),
    {
        let ghost total = old(self).delta_since_timers + delta_nanos;
        self.delta_since_timers = self.delta_since_timers + delta_nanos;

        // Tick timers once per whole period accumulated.
        let ghost mut k: int = 0;
        while self.delta_since_timers >= TIMER_DELTA_NANOS
            invariant
                0 <= k,
                self.delta_since_timers == total - k * (TIMER_DELTA_NANOS as int),
                self.system@ == ticked(old(self).system@, k),
                old(self).system@.wf(),
                *self == (Emulator {
                    system: self.system,
                    delta_since_timers: self.delta_since_timers,
                    ..*old(self)
                }),
            decreases self.delta_since_timers,
        {
            self.system.tick_timers();
            self.delta_since_timers = self.delta_since_timers - TIMER_DELTA_NANOS;
            proof {
                assert(tick_spec(ticked(old(self).system@, k)) == ticked(
                    old(self).system@,
                    k + 1,
                ));
                k = k + 1;
            }
        }
        proof {
            vstd::arithmetic::div_mod::lemma_fundamental_div_mod_converse(
                total as int,
                TIMER_DELTA_NANOS as int,
                k,
                self.delta_since_timers as int,
            );
        }

        // Fetch and execute one instruction unless blocked on a key.
        if !self.system.waiting_for_key {
            if (self.system.program_counter as usize) + 1 >= MEMORY_LEN {
                return err("program counter out of bounds");
            }
            let opcode = self.system.next_opcode();
            match self.opcode_runner.run(&mut self.system, opcode) {
                Ok(()) => {},
                Err(e) => {
                    return Err(e);
                },
            }
        }

        // Raise tone events on transition edges only.
        if self.system.sound_timer > 0 && !self.sound_playing {
            self.sound_playing = true;
            self.audio.start_sound();
        } else if self.system.sound_timer == 0 && self.sound_playing {
            self.sound_playing = false;
            self.audio.stop_sound();
        }
        Ok(())
    }

    /// The display: 32 rows of 64 cells, row-major.
    pub fn get_display(&self) -> (r: &Vec<bool>)
        ensures
            r@ == self.system@.display,
    {
        &self.system.display
    }

    /// Replaces the audio handler that receives start/stop tone callbacks.
    pub fn set_audio_handler(&mut self, audio: A)
        ensures
            *final(self) == (Emulator { audio, ..*old(self) }),
    {
        self.audio = audio;
    }

    /// Keypad key `key` went down. A key above 0xF is a programmer error,
    /// ruled out by precondition.
    pub fn on_key_down(&mut self, key: u8)
        requires
            old(self).system@.wf(),
            key <= 0xF,
        ensures
            final(self).system@ == key_down_spec(old(self).system@, key),
            *final(self) == (Emulator { system: final(self).system, ..*old(self) }),
    {
        self.system.keys[key as usize] = true;
        if self.system.waiting_for_key && self.system.pending_keypress.is_none() {
            self.system.pending_keypress = Some(key);
        }
        self.system.waiting_for_key = false;
    }

    /// Keypad key `key` went up. A key above 0xF is a programmer error,
    /// ruled out by precondition.
    pub fn on_key_up(&mut self, key: u8)
        requires
            old(self).system@.wf(),
            key <= 0xF,
        ensures
            final(self).system@ == key_up_spec(old(self).system@, key),
            *final(self) == (Emulator { system: final(self).system, ..*old(self) }),
    {
        self.system.keys[key as usize] = false;
    }
}

} // verus!
