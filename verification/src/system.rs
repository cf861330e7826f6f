//! The machine-state model: memory, registers, timers, stack, display,
//! keypad and the wait-for-key bookkeeping, together with its mathematical
//! view and the state-level operations (construction, program load,
//! instruction fetch, timer tick, font lookup).

use vstd::prelude::*;

use crate::errors::{err, Error};
use crate::sprites::{hex_digits, hex_digits_spec};

verus! {

/// Bytes of addressable memory.
pub const MEMORY_LEN: usize = 4096;

/// General-purpose registers V0..VF.
pub const REGISTER_COUNT: usize = 16;

/// Return-address stack entries.
pub const STACK_LEN: usize = 16;

/// Keypad keys 0x0..0xF.
pub const KEY_COUNT: usize = 16;

/// Display rows.
pub const DISPLAY_ROWS: usize = 32;

/// Display columns.
pub const DISPLAY_COLS: usize = 64;

/// Display cells, row-major: the cell at row `y`, column `x` is
/// `display[y * DISPLAY_COLS + x]`.
pub const DISPLAY_CELLS: usize = 2048;

/// The lowest address program code may occupy; everything below it is
/// reserved for the font table.
pub const PROGRAM_START: u16 = 0x200;

/// The mathematical value of a machine state.
pub ghost struct StateView {
    pub memory: Seq<u8>,
    pub registers: Seq<u8>,
    pub address_register: u16,
    pub delay_timer: u8,
    pub sound_timer: u8,
    pub program_counter: u16,
    pub stack_pointer: u8,
    pub stack: Seq<u16>,
    pub display: Seq<bool>,
    pub keys: Seq<bool>,
    pub waiting_for_key: bool,
    pub pending_keypress: Option<u8>,
}

impl StateView {
    /// Well-formedness: every aggregate has its fixed size and the stack
    /// pointer stays within the stack.
    pub open spec fn wf(self) -> bool {
        &&& self.memory.len() == MEMORY_LEN
        &&& self.registers.len() == REGISTER_COUNT
        &&& self.stack.len() == STACK_LEN
        &&& self.display.len() == DISPLAY_CELLS
        &&& self.keys.len() == KEY_COUNT
        &&& self.stack_pointer <= STACK_LEN
    }
}

/// `m` with the font table written over its first 80 bytes.
pub open spec fn with_font(m: Seq<u8>) -> Seq<u8> {
    Seq::new(m.len(), |i: int| if 0 <= i < 80 { hex_digits_spec()[i] } else { m[i] })
}

/// The freshly-constructed machine state: everything zeroed except the font
/// table in low memory.
pub open spec fn init_state() -> StateView {
    StateView {
        memory: with_font(Seq::new(MEMORY_LEN as nat, |i: int| 0u8)),
        registers: Seq::new(REGISTER_COUNT as nat, |i: int| 0u8),
        address_register: 0,
        delay_timer: 0,
        sound_timer: 0,
        program_counter: 0,
        stack_pointer: 0,
        stack: Seq::new(STACK_LEN as nat, |i: int| 0u16),
        display: Seq::new(DISPLAY_CELLS as nat, |i: int| false),
        keys: Seq::new(KEY_COUNT as nat, |i: int| false),
        waiting_for_key: false,
        pending_keypress: None,
    }
}

/// `v` after one timer tick: both timers move one step toward zero and
/// stop there.
pub open spec fn tick_spec(v: StateView) -> StateView {
    StateView {
        delay_timer: if v.delay_timer > 0 { (v.delay_timer - 1) as u8 } else { 0u8 },
        sound_timer: if v.sound_timer > 0 { (v.sound_timer - 1) as u8 } else { 0u8 },
        ..v
    }
}

/// `v` with `p` written at `PROGRAM_START` and the program counter placed
/// there.
pub open spec fn load_spec(v: StateView, p: Seq<u8>) -> StateView {
    StateView {
        memory: Seq::new(
            v.memory.len(),
            |i: int|
                if PROGRAM_START <= i < PROGRAM_START + p.len() {
                    p[i - PROGRAM_START]
                } else {
                    v.memory[i]
                },
        ),
        program_counter: PROGRAM_START,
        ..v
    }
}

/// The 16-bit instruction word fetched big-endian at the program counter.
pub open spec fn fetch_spec(v: StateView) -> u16 {
    (v.memory[v.program_counter as int] * 256 + v.memory[v.program_counter + 1]) as u16
}

/// The machine state: a single mutable aggregate owned by the orchestrator.
///
/// VF (register 15) doubles as the carry/borrow/collision flag output of
/// several instructions; it is kept as an ordinary register slot since
/// programs may read and write it between flag-producing instructions.
pub struct SystemState {
    pub memory: Vec<u8>,
    pub registers: Vec<u8>,
    pub address_register: u16,
    pub delay_timer: u8,
    pub sound_timer: u8,
    pub program_counter: u16,
    pub stack_pointer: u8,
    pub stack: Vec<u16>,
    pub display: Vec<bool>,
    pub keys: Vec<bool>,
    pub waiting_for_key: bool,
    pub pending_keypress: Option<u8>,
}

impl View for SystemState {
    type V = StateView;

    open spec fn view(&self) -> StateView {
        StateView {
            memory: self.memory@,
            registers: self.registers@,
            address_register: self.address_register,
            delay_timer: self.delay_timer,
            sound_timer: self.sound_timer,
            program_counter: self.program_counter,
            stack_pointer: self.stack_pointer,
            stack: self.stack@,
            display: self.display@,
            keys: self.keys@,
            waiting_for_key: self.waiting_for_key,
            pending_keypress: self.pending_keypress,
        }
    }
}

/// A vector of `n` copies of `value`.
fn filled<T: Copy>(value: T, n: usize) -> (r: Vec<T>)
    ensures
        r@.len() == n,
        forall|k: int| 0 <= k < n ==> r@[k] == value,
{
    let mut r: Vec<T> = Vec::new();
    let mut i: usize = 0;
    while i < n
        invariant
            i <= n,
            r@.len() == i,
            forall|k: int| 0 <= k < i ==> r@[k] == value,
        decreases n - i,
    {
        r.push(value);
        i = i + 1;
    }
    r
}

impl Default for SystemState {
    fn default() -> (r: SystemState)
        ensures
            r@ == init_state(),
    {
        SystemState::new()
    }
}

impl SystemState {
    /// A freshly-constructed machine: zeroed, with the font table loaded
    /// into low memory.
    pub fn new() -> (r: SystemState)
        ensures
            r@ == init_state(),
    {
        let mut system = SystemState {
            memory: filled(0u8, MEMORY_LEN),
            registers: filled(0u8, REGISTER_COUNT),
            address_register: 0,
            delay_timer: 0,
            sound_timer: 0,
            program_counter: 0,
            stack_pointer: 0,
            stack: filled(0u16, STACK_LEN),
            display: filled(false, DISPLAY_CELLS),
            keys: filled(false, KEY_COUNT),
            waiting_for_key: false,
            pending_keypress: None,
        };
        system.load_sprites();
        proof {
            assert(system@.memory =~= init_state().memory);
            assert(system@.registers =~= init_state().registers);
            assert(system@.stack =~= init_state().stack);
            assert(system@.display =~= init_state().display);
            assert(system@.keys =~= init_state().keys);
        }
        system
    }

    /// Fetches the instruction word at the program counter, big-endian, and
    /// advances the counter by two; fetch always advances, regardless of
    /// what the instruction later does to the counter.
    pub fn next_opcode(&mut self) -> (opcode: u16)
        requires
            old(self)@.wf(),
            old(self)@.program_counter + 1 < MEMORY_LEN,
        ensures
            opcode == fetch_spec(old(self)@),
            *final(self) == (SystemState {
                program_counter: final(self).program_counter,
                ..*old(self)
            }),
            final(self)@.program_counter == old(self)@.program_counter + 2,
    {
        let addr = self.program_counter as usize;
        let hi = self.memory[addr] as u16;
        let lo = self.memory[addr + 1] as u16;
        self.program_counter = self.program_counter + 2;
        hi * 256 + lo
    }

    /// Writes `program` at `PROGRAM_START` and points the program counter
    /// there; rejects a program longer than the memory above
    /// `PROGRAM_START`, leaving the state unchanged.
    pub fn load_program(&mut self, program: &[u8]) -> (r: Result<(), Error>)
        requires
            old(self)@.wf(),
        ensures
            final(self)@.wf(),
            r is Ok <==> program@.len() <= MEMORY_LEN - PROGRAM_START,
            r is Ok ==> final(self)@ == load_spec(old(self)@, program@),
            r is Err ==> final(self)@ == old(self)@,
    {
        if program.len() > MEMORY_LEN - (PROGRAM_START as usize) {
            return err("program too long");
        }
        let mut j: usize = 0;
        while j < program.len()
            invariant
                old(self)@.wf(),
                j <= program@.len(),
                program@.len() <= MEMORY_LEN - PROGRAM_START,
                self.memory@.len() == MEMORY_LEN,
                forall|k: int|
                    0 <= k < j ==> self.memory@[PROGRAM_START + k] == program@[k],
                forall|k: int|
                    0 <= k < MEMORY_LEN && !(PROGRAM_START <= k < PROGRAM_START + j)
                        ==> self.memory@[k] == old(self)@.memory[k],
                *self == (SystemState { memory: self.memory, ..*old(self) }),
            decreases program@.len() - j,
        {
            self.memory[(PROGRAM_START as usize) + j] = program[j];
            j = j + 1;
        }
        self.program_counter = PROGRAM_START;
        proof {
            assert(self@.memory =~= load_spec(old(self)@, program@).memory);
        }
        Ok(())
    }

    /// Moves both timers one step toward zero; a timer already at zero
    /// stays there.
    pub fn tick_timers(&mut self)
        ensures
            final(self)@ == tick_spec(old(self)@),
    {
        if self.delay_timer > 0 {
            self.delay_timer = self.delay_timer - 1;
        }
        if self.sound_timer > 0 {
            self.sound_timer = self.sound_timer - 1;
        }
    }

    /// The address of the font glyph for `digit`; rejects a digit above 15.
    pub fn get_sprite_location(&self, digit: u8) -> (r: Result<u16, Error>)
        ensures
            r is Ok <==> digit <= 15,
            r is Ok ==> r->Ok_0 == digit * 5,
    {
        if digit > 15 {
            return err("invalid sprite digit");
        }
        Ok((digit as u16) * 5)
    }

    /// Copies the font table into the first 80 bytes of memory.
    fn load_sprites(&mut self)
        requires
            old(self)@.wf(),
        ensures
            final(self)@ == (StateView { memory: with_font(old(self)@.memory), ..old(self)@ }),
    {
        let fonts = hex_digits();
        let mut j: usize = 0;
        while j < 80
            invariant
                old(self)@.wf(),
                j <= 80,
                fonts@ == hex_digits_spec(),
                self.memory@.len() == MEMORY_LEN,
                forall|k: int| 0 <= k < j ==> self.memory@[k] == hex_digits_spec()[k],
                forall|k: int| j <= k < MEMORY_LEN ==> self.memory@[k] == old(self)@.memory[k],
                *self == (SystemState { memory: self.memory, ..*old(self) }),
            decreases 80 - j,
        {
            self.memory[j] = fonts[j];
            j = j + 1;
        }
        proof {
            assert(self@.memory =~= with_font(old(self)@.memory));
        }
    }
}

} // verus!
