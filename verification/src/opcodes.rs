//! The instruction handlers and the decoder/dispatcher: a 16-bit instruction
//! word is split into nibbles, routed to a handler, and the handler mutates
//! the machine state exactly as its specification states.

use vstd::prelude::*;

use crate::draw::{
    draw_collides, draw_collides_upto, draw_display, lemma_collides_upto_step,
    lemma_hits_upto_step, lemma_upto_complete, sprite_bit, sprite_hits_upto, target_cell,
    wrap_col, wrap_row,
};
use crate::errors::{err, Error};
use crate::system::{StateView, SystemState, DISPLAY_CELLS, MEMORY_LEN, PROGRAM_START};

verus! {

// ---------------------------------------------------------------------------
// Decoding

/// Nibble 0 (the highest four bits) of an instruction word.
pub open spec fn nib0(opcode: u16) -> u8 {
    (opcode / 0x1000) as u8
}

/// Nibble 1 of an instruction word.
pub open spec fn nib1(opcode: u16) -> u8 {
    ((opcode / 0x100) % 0x10) as u8
}

/// Nibble 2 of an instruction word.
pub open spec fn nib2(opcode: u16) -> u8 {
    ((opcode / 0x10) % 0x10) as u8
}

/// Nibble 3 (the lowest four bits) of an instruction word.
pub open spec fn nib3(opcode: u16) -> u8 {
    (opcode % 0x10) as u8
}

/// Splits an instruction word into its four 4-bit nibbles, highest first.
pub fn nibbles(opcode: u16) -> (r: (u8, u8, u8, u8))
    ensures
        r == (nib0(opcode), nib1(opcode), nib2(opcode), nib3(opcode)),
{
    (
        (opcode / 0x1000) as u8,
        ((opcode / 0x100) % 0x10) as u8,
        ((opcode / 0x10) % 0x10) as u8,
        (opcode % 0x10) as u8,
    )
}

/// The 12-bit address built from three nibbles, each re-masked to 4 bits.
pub open spec fn nnn_spec(a: u8, b: u8, c: u8) -> u16 {
    ((a % 0x10) * 0x100 + nn_spec(b, c)) as u16
}

/// The 8-bit immediate built from two nibbles, each re-masked to 4 bits.
pub open spec fn nn_spec(a: u8, b: u8) -> u8 {
    ((a % 0x10) * 0x10 + b % 0x10) as u8
}

/// Builds the 12-bit address operand from nibbles 1-3.
pub fn nnn(a: u8, b: u8, c: u8) -> (r: u16)
    ensures
        r == nnn_spec(a, b, c),
        r < 0x1000,
{
    ((a % 0x10) as u16) * 0x100 + (nn(b, c) as u16)
}

/// Builds the 8-bit immediate operand from nibbles 2-3.
pub fn nn(a: u8, b: u8) -> (r: u8)
    ensures
        r == nn_spec(a, b),
{
    (a % 0x10) * 0x10 + b % 0x10
}

/// The three decimal digits of a byte, highest first.
pub fn bcd(val: u8) -> (r: (u8, u8, u8))
    ensures
        r == (((val / 100) % 10) as u8, ((val / 10) % 10) as u8, (val % 10) as u8),
{
    ((val / 100) % 10, (val / 10) % 10, val % 10)
}

/// A target address is valid only when it lies at `PROGRAM_START` or above
/// and `addr + len` stays strictly below the memory length.
pub open spec fn addr_ok(addr: int, len: int) -> bool {
    &&& PROGRAM_START <= addr
    &&& addr + len < MEMORY_LEN
}

/// Checks that `addr..addr + len` is a valid program-space range and returns
/// the address as an index.
pub fn sanitize_addr(system: &SystemState, addr: u16, len: usize) -> (r: Result<usize, Error>)
    requires
        system@.wf(),
    ensures
        r is Ok <==> addr_ok(addr as int, len as int),
        r is Ok ==> r->Ok_0 == addr,
{
    let i = addr as usize;
    if i < (PROGRAM_START as usize) || len >= system.memory.len() || i + len
        >= system.memory.len() {
        return err("invalid address");
    }
    Ok(i)
}

// ---------------------------------------------------------------------------
// Instruction semantics, one specification function per handler

/// `v` with the program counter moved past the next instruction when `cond`
/// holds.
pub open spec fn skip_if(v: StateView, cond: bool) -> StateView {
    if cond {
        StateView { program_counter: (v.program_counter + 2) as u16, ..v }
    } else {
        v
    }
}

/// Clear display: every cell off.
pub open spec fn cls_spec(v: StateView) -> StateView {
    StateView { display: Seq::new(v.display.len(), |i: int| false), ..v }
}

/// Return succeeds only on a non-empty call stack.
pub open spec fn ret_ok(v: StateView) -> bool {
    v.stack_pointer != 0
}

/// Return: pop the stack into the program counter.
pub open spec fn ret_spec(v: StateView) -> StateView {
    StateView {
        stack_pointer: (v.stack_pointer - 1) as u8,
        program_counter: v.stack[v.stack_pointer - 1],
        ..v
    }
}

/// Jump: set the program counter to the target.
pub open spec fn jp_spec(v: StateView, address: u16) -> StateView {
    StateView { program_counter: address, ..v }
}

/// Call succeeds only when the stack has room and the target is a valid
/// address.
pub open spec fn call_ok(v: StateView, address: u16) -> bool {
    &&& v.stack_pointer < 16
    &&& addr_ok(address as int, 1)
}

/// Call: push the current program counter, then jump.
pub open spec fn call_spec(v: StateView, address: u16) -> StateView {
    StateView {
        stack: v.stack.update(v.stack_pointer as int, v.program_counter),
        stack_pointer: (v.stack_pointer + 1) as u8,
        program_counter: address,
        ..v
    }
}

/// Load register from byte.
pub open spec fn ld_reg_byte_spec(v: StateView, x: u8, byte: u8) -> StateView {
    StateView { registers: v.registers.update(x as int, byte), ..v }
}

/// Add byte to register, wrapping silently: no flag write, unlike the
/// register-register add.
pub open spec fn add_reg_byte_spec(v: StateView, x: u8, byte: u8) -> StateView {
    StateView {
        registers: v.registers.update(x as int, ((v.registers[x as int] + byte) % 256) as u8),
        ..v
    }
}

/// Load register from register.
pub open spec fn ld_reg_reg_spec(v: StateView, x: u8, y: u8) -> StateView {
    StateView { registers: v.registers.update(x as int, v.registers[y as int]), ..v }
}

/// Bitwise or, in place.
pub open spec fn or_spec(v: StateView, x: u8, y: u8) -> StateView {
    StateView {
        registers: v.registers.update(x as int, v.registers[x as int] | v.registers[y as int]),
        ..v
    }
}

/// Bitwise and, in place.
pub open spec fn and_spec(v: StateView, x: u8, y: u8) -> StateView {
    StateView {
        registers: v.registers.update(x as int, v.registers[x as int] & v.registers[y as int]),
        ..v
    }
}

/// Bitwise xor, in place.
pub open spec fn xor_spec(v: StateView, x: u8, y: u8) -> StateView {
    StateView {
        registers: v.registers.update(x as int, v.registers[x as int] ^ v.registers[y as int]),
        ..v
    }
}

/// Register-register add: the sum wraps, and VF reports 1 when no overflow
/// occurred and 0 when it did.
pub open spec fn add_reg_reg_spec(v: StateView, x: u8, y: u8) -> StateView {
    let sum = v.registers[x as int] + v.registers[y as int];
    StateView {
        registers: v.registers.update(x as int, (sum % 256) as u8).update(
            15,
            if sum > 255 { 0u8 } else { 1u8 },
        ),
        ..v
    }
}

/// Register-register subtract: the difference wraps, and VF reports 1 when
/// no borrow occurred and 0 when it did.
pub open spec fn sub_reg_reg_spec(v: StateView, x: u8, y: u8) -> StateView {
    let vx = v.registers[x as int];
    let vy = v.registers[y as int];
    StateView {
        registers: v.registers.update(
            x as int,
            if vx >= vy { (vx - vy) as u8 } else { (vx - vy + 256) as u8 },
        ).update(15, if vx < vy { 0u8 } else { 1u8 }),
        ..v
    }
}

/// Reversed subtract: the register becomes other minus self, and VF reports
/// 1 when a borrow occurred and 0 otherwise - the opposite polarity from the
/// plain subtract.
pub open spec fn subn_spec(v: StateView, x: u8, y: u8) -> StateView {
    let vx = v.registers[x as int];
    let vy = v.registers[y as int];
    StateView {
        registers: v.registers.update(
            x as int,
            if vy >= vx { (vy - vx) as u8 } else { (vy - vx + 256) as u8 },
        ).update(15, if vy < vx { 1u8 } else { 0u8 }),
        ..v
    }
}

/// Shift right, sourcing from the second register: VF receives the bit
/// shifted out.
pub open spec fn shr_spec(v: StateView, x: u8, y: u8) -> StateView {
    let vy = v.registers[y as int];
    StateView { registers: v.registers.update(x as int, vy >> 1u8).update(15, vy & 1), ..v }
}

/// Shift left, sourcing from the second register: VF receives the bit
/// shifted out.
pub open spec fn shl_spec(v: StateView, x: u8, y: u8) -> StateView {
    let vy = v.registers[y as int];
    StateView {
        registers: v.registers.update(x as int, vy << 1u8).update(15, (vy >> 7u8) & 1),
        ..v
    }
}

/// Load I from a 12-bit-masked address.
pub open spec fn ld_i_spec(v: StateView, addr: u16) -> StateView {
    StateView { address_register: addr & 0xFFF, ..v }
}

/// The V0-relative jump succeeds only when the offset target is a valid
/// address with room for one instruction.
pub open spec fn jp_v0_ok(v: StateView, addr: u16) -> bool {
    addr_ok(addr + v.registers[0], 2)
}

/// Jump to the target plus V0.
pub open spec fn jp_v0_spec(v: StateView, addr: u16) -> StateView {
    StateView { program_counter: (addr + v.registers[0]) as u16, ..v }
}

/// Random byte masked into a register; `b` is the byte the generator
/// produced.
pub open spec fn rnd_spec(v: StateView, x: u8, byte: u8, b: u8) -> StateView {
    StateView { registers: v.registers.update(x as int, b & byte), ..v }
}

/// The draw succeeds only when the sprite's `n` bytes fit in memory at I.
pub open spec fn drw_ok(v: StateView, n: u8) -> bool {
    v.address_register + n <= MEMORY_LEN
}

/// The sprite a draw reads: `n` bytes of memory starting at I.
pub open spec fn drw_sprite(v: StateView, n: u8) -> Seq<u8> {
    v.memory.subrange(v.address_register as int, v.address_register + n)
}

/// Draw: XOR the sprite into the display with per-axis wraparound, and set
/// VF to 1 exactly when some lit cell was turned off.
pub open spec fn drw_spec(v: StateView, x: u8, y: u8, n: u8) -> StateView {
    let vx = v.registers[x as int];
    let vy = v.registers[y as int];
    let sprite = drw_sprite(v, n);
    StateView {
        display: draw_display(v.display, sprite, vx, vy),
        registers: v.registers.update(
            15,
            if draw_collides(v.display, sprite, vx, vy) { 1u8 } else { 0u8 },
        ),
        ..v
    }
}

/// The key-skip instructions succeed only on a key value at most 0xF.
pub open spec fn key_ok(v: StateView, x: u8) -> bool {
    v.registers[x as int] <= 0xF
}

/// Skip when the key named by the register is down.
pub open spec fn skp_spec(v: StateView, x: u8) -> StateView {
    skip_if(v, v.keys[v.registers[x as int] as int])
}

/// Skip when the key named by the register is up.
pub open spec fn sknp_spec(v: StateView, x: u8) -> StateView {
    skip_if(v, !v.keys[v.registers[x as int] as int])
}

/// Load register from the delay timer.
pub open spec fn ld_reg_dt_spec(v: StateView, x: u8) -> StateView {
    StateView { registers: v.registers.update(x as int, v.delay_timer), ..v }
}

/// Wait for key: a pending capture is consumed into the register; otherwise
/// the program counter rewinds so the same instruction is fetched again, and
/// the machine marks itself waiting.
pub open spec fn ld_k_spec(v: StateView, x: u8) -> StateView {
    match v.pending_keypress {
        Some(key) => StateView {
            registers: v.registers.update(x as int, key),
            pending_keypress: None,
            waiting_for_key: false,
            ..v
        },
        None => StateView {
            waiting_for_key: true,
            program_counter: (v.program_counter - 2) as u16,
            ..v
        },
    }
}

/// Load the delay timer from a register.
pub open spec fn ld_dt_spec(v: StateView, x: u8) -> StateView {
    StateView { delay_timer: v.registers[x as int], ..v }
}

/// Load the sound timer from a register.
pub open spec fn ld_st_spec(v: StateView, x: u8) -> StateView {
    StateView { sound_timer: v.registers[x as int], ..v }
}

/// Add a register into I, wrapping silently with no flag.
pub open spec fn add_i_spec(v: StateView, x: u8) -> StateView {
    StateView {
        address_register: ((v.address_register + v.registers[x as int]) % 0x10000) as u16,
        ..v
    }
}

/// Font lookup succeeds only for a digit at most 15.
pub open spec fn ld_f_ok(v: StateView, x: u8) -> bool {
    v.registers[x as int] <= 15
}

/// Load I with the font glyph address for the digit in the register.
pub open spec fn ld_f_spec(v: StateView, x: u8) -> StateView {
    StateView { address_register: (v.registers[x as int] * 5) as u16, ..v }
}

/// The BCD store succeeds only when three bytes fit at I.
pub open spec fn ld_b_ok(v: StateView) -> bool {
    addr_ok(v.address_register as int, 3)
}

/// Store the three decimal digits of the register at I, highest first.
pub open spec fn ld_b_spec(v: StateView, x: u8) -> StateView {
    let i = v.address_register as int;
    let vx = v.registers[x as int];
    StateView {
        memory: v.memory.update(i, ((vx / 100) % 10) as u8).update(
            i + 1,
            ((vx / 10) % 10) as u8,
        ).update(i + 2, (vx % 10) as u8),
        ..v
    }
}

/// The register-block store succeeds only when `x + 1` bytes fit at I with
/// a byte to spare.
pub open spec fn store_regs_ok(v: StateView, x: u8) -> bool {
    addr_ok(v.address_register as int, x + 1)
}

/// Store registers 0..=x at I; afterwards I points one past the last byte
/// written.
pub open spec fn store_regs_spec(v: StateView, x: u8) -> StateView {
    let i = v.address_register as int;
    StateView {
        memory: Seq::new(
            v.memory.len(),
            |j: int| if i <= j <= i + x { v.registers[j - i] } else { v.memory[j] },
        ),
        address_register: (i + x + 1) as u16,
        ..v
    }
}

/// The register-block load succeeds only when `x` bytes fit at I.
pub open spec fn load_regs_ok(v: StateView, x: u8) -> bool {
    addr_ok(v.address_register as int, x as int)
}

/// Load registers 0..=x from I; afterwards I points one past the last byte
/// read.
pub open spec fn load_regs_spec(v: StateView, x: u8) -> StateView {
    let i = v.address_register as int;
    StateView {
        registers: Seq::new(
            v.registers.len(),
            |j: int| if 0 <= j <= x { v.memory[i + j] } else { v.registers[j] },
        ),
        address_register: (i + x + 1) as u16,
        ..v
    }
}

// ---------------------------------------------------------------------------
// Handlers

/// Machine call (opcode class 0x0 with nonzero trailing nibbles): decodes as
/// a no-op, preserving backward behavior for ROMs containing legacy calls.
pub fn noop() -> (r: Result<(), Error>)
    ensures
        r is Ok,
{
    Ok(())
}

/// Clear display.
pub fn op_cls(system: &mut SystemState) -> (r: Result<(), Error>)
    requires
        old(system)@.wf(),
    ensures
        final(system)@.wf(),
        r is Ok,
        final(system)@ == cls_spec(old(system)@),
{
    let mut i: usize = 0;
    let n = system.display.len();
    while i < n
        invariant
            old(system)@.wf(),
            i <= n,
            n == old(system)@.display.len(),
            system.display@.len() == n,
            forall|k: int| 0 <= k < i ==> !system.display@[k],
            forall|k: int| i <= k < n ==> system.display@[k] == old(system)@.display[k],
            *system == (SystemState { display: system.display, ..*old(system) }),
        decreases n - i,
    {
        system.display[i] = false;
        i = i + 1;
    }
    proof {
        assert(system@.display =~= cls_spec(old(system)@).display);
    }
    Ok(())
}

/// Return from a call.
pub fn op_ret(system: &mut SystemState) -> (r: Result<(), Error>)
    requires
        old(system)@.wf(),
    ensures
        final(system)@.wf(),
        r is Ok <==> ret_ok(old(system)@),
        r is Ok ==> final(system)@ == ret_spec(old(system)@),
        r is Err ==> final(system)@ == old(system)@,
{
    if system.stack_pointer == 0 {
        return err("can't return from empty call stack");
    }
    system.stack_pointer = system.stack_pointer - 1;
    system.program_counter = system.stack[system.stack_pointer as usize];
    Ok(())
}

/// Jump.
pub fn op_jp(system: &mut SystemState, address: u16) -> (r: Result<(), Error>)
    requires
        old(system)@.wf(),
    ensures
        final(system)@.wf(),
        r is Ok,
        final(system)@ == jp_spec(old(system)@, address),
{
    system.program_counter = address;
    Ok(())
}

/// Call a subroutine.
pub fn op_call(system: &mut SystemState, address: u16) -> (r: Result<(), Error>)
    requires
        old(system)@.wf(),
    ensures
        final(system)@.wf(),
        r is Ok <==> call_ok(old(system)@, address),
        r is Ok ==> final(system)@ == call_spec(old(system)@, address),
        r is Err ==> final(system)@ == old(system)@,
{
    if system.stack_pointer + 1 > 16 {
        return err("stack overflow");
    }
    let address = match sanitize_addr(system, address, 1) {
        Ok(i) => i,
        Err(e) => {
            return Err(e);
        },
    };
    system.stack[system.stack_pointer as usize] = system.program_counter;
    system.stack_pointer = system.stack_pointer + 1;
    system.program_counter = address as u16;
    Ok(())
}

/// Skip when the register equals the byte.
pub fn op_se_reg_byte(system: &mut SystemState, x: u8, byte: u8) -> (r: Result<(), Error>)
    requires
        old(system)@.wf(),
        x < 16,
        old(system)@.program_counter + 2 <= 0xFFFF,
    ensures
        final(system)@.wf(),
        r is Ok,
        final(system)@ == skip_if(old(system)@, old(system)@.registers[x as int] == byte),
{
    if system.registers[x as usize] == byte {
        system.program_counter = system.program_counter + 2;
    }
    Ok(())
}

/// Skip when the register differs from the byte.
pub fn op_sne_reg_byte(system: &mut SystemState, x: u8, byte: u8) -> (r: Result<(), Error>)
    requires
        old(system)@.wf(),
        x < 16,
        old(system)@.program_counter + 2 <= 0xFFFF,
    ensures
        final(system)@.wf(),
        r is Ok,
        final(system)@ == skip_if(old(system)@, old(system)@.registers[x as int] != byte),
{
    if system.registers[x as usize] != byte {
        system.program_counter = system.program_counter + 2;
    }
    Ok(())
}

/// Skip when the registers are equal.
pub fn op_se_reg_reg(system: &mut SystemState, x: u8, y: u8) -> (r: Result<(), Error>)
    requires
        old(system)@.wf(),
        x < 16,
        y < 16,
        old(system)@.program_counter + 2 <= 0xFFFF,
    ensures
        final(system)@.wf(),
        r is Ok,
        final(system)@ == skip_if(
            old(system)@,
            old(system)@.registers[x as int] == old(system)@.registers[y as int],
        ),
{
    if system.registers[x as usize] == system.registers[y as usize] {
        system.program_counter = system.program_counter + 2;
    }
    Ok(())
}

/// Skip when the registers differ.
pub fn op_sne_reg_reg(system: &mut SystemState, x: u8, y: u8) -> (r: Result<(), Error>)
    requires
        old(system)@.wf(),
        x < 16,
        y < 16,
        old(system)@.program_counter + 2 <= 0xFFFF,
    ensures
        final(system)@.wf(),
        r is Ok,
        final(system)@ == skip_if(
            old(system)@,
            old(system)@.registers[x as int] != old(system)@.registers[y as int],
        ),
{
    if system.registers[x as usize] != system.registers[y as usize] {
        system.program_counter = system.program_counter + 2;
    }
    Ok(())
}

/// Load register from byte.
pub fn op_ld_reg_byte(system: &mut SystemState, x: u8, byte: u8) -> (r: Result<(), Error>)
    requires
        old(system)@.wf(),
        x < 16,
    ensures
        final(system)@.wf(),
        r is Ok,
        final(system)@ == ld_reg_byte_spec(old(system)@, x, byte),
{
    system.registers[x as usize] = byte;
    Ok(())
}

/// Add byte to register, wrapping silently.
pub fn op_add_reg_byte(system: &mut SystemState, x: u8, byte: u8) -> (r: Result<(), Error>)
    requires
        old(system)@.wf(),
        x < 16,
    ensures
        final(system)@.wf(),
        r is Ok,
        final(system)@ == add_reg_byte_spec(old(system)@, x, byte),
{
    let sum = (system.registers[x as usize] as u16) + (byte as u16);
    system.registers[x as usize] = (sum % 256) as u8;
    Ok(())
}

/// Load register from register.
pub fn op_ld_reg_reg(system: &mut SystemState, x: u8, y: u8) -> (r: Result<(), Error>)
    requires
        old(system)@.wf(),
        x < 16,
        y < 16,
    ensures
        final(system)@.wf(),
        r is Ok,
        final(system)@ == ld_reg_reg_spec(old(system)@, x, y),
{
    system.registers[x as usize] = system.registers[y as usize];
    Ok(())
}

/// Bitwise or.
pub fn op_or(system: &mut SystemState, x: u8, y: u8) -> (r: Result<(), Error>)
    requires
        old(system)@.wf(),
        x < 16,
        y < 16,
    ensures
        final(system)@.wf(),
        r is Ok,
        final(system)@ == or_spec(old(system)@, x, y),
{
    system.registers[x as usize] = system.registers[x as usize] | system.registers[y as usize];
    Ok(())
}

/// Bitwise and.
pub fn op_and(system: &mut SystemState, x: u8, y: u8) -> (r: Result<(), Error>)
    requires
        old(system)@.wf(),
        x < 16,
        y < 16,
    ensures
        final(system)@.wf(),
        r is Ok,
        final(system)@ == and_spec(old(system)@, x, y),
{
    system.registers[x as usize] = system.registers[x as usize] & system.registers[y as usize];
    Ok(())
}

/// Bitwise xor.
pub fn op_xor(system: &mut SystemState, x: u8, y: u8) -> (r: Result<(), Error>)
    requires
        old(system)@.wf(),
        x < 16,
        y < 16,
    ensures
        final(system)@.wf(),
        r is Ok,
        final(system)@ == xor_spec(old(system)@, x, y),
{
    system.registers[x as usize] = system.registers[x as usize] ^ system.registers[y as usize];
    Ok(())
}

/// Register-register add with the inverse carry flag.
pub fn op_add_reg_reg(system: &mut SystemState, x: u8, y: u8) -> (r: Result<(), Error>)
    requires
        old(system)@.wf(),
        x < 16,
        y < 16,
    ensures
        final(system)@.wf(),
        r is Ok,
        final(system)@ == add_reg_reg_spec(old(system)@, x, y),
{
    let sum = (system.registers[x as usize] as u16) + (system.registers[y as usize] as u16);
    system.registers[x as usize] = (sum % 256) as u8;
    system.registers[15] = if sum > 255 { 0 } else { 1 };
    Ok(())
}

/// Register-register subtract with the inverse borrow flag.
pub fn op_sub_reg_reg(system: &mut SystemState, x: u8, y: u8) -> (r: Result<(), Error>)
    requires
        old(system)@.wf(),
        x < 16,
        y < 16,
    ensures
        final(system)@.wf(),
        r is Ok,
        final(system)@ == sub_reg_reg_spec(old(system)@, x, y),
{
    let vx = system.registers[x as usize];
    let vy = system.registers[y as usize];
    system.registers[x as usize] = if vx >= vy {
        vx - vy
    } else {
        (((vx as u16) + 256) - (vy as u16)) as u8
    };
    system.registers[15] = if vx < vy { 0 } else { 1 };
    Ok(())
}

/// Shift right from the source register.
pub fn op_shr(system: &mut SystemState, x: u8, y: u8) -> (r: Result<(), Error>)
    requires
        old(system)@.wf(),
        x < 16,
        y < 16,
    ensures
        final(system)@.wf(),
        r is Ok,
        final(system)@ == shr_spec(old(system)@, x, y),
{
    let vy = system.registers[y as usize];
    system.registers[x as usize] = vy >> 1u8;
    system.registers[15] = vy & 1;
    Ok(())
}

/// Reversed subtract with the direct borrow flag.
pub fn op_subn(system: &mut SystemState, x: u8, y: u8) -> (r: Result<(), Error>)
    requires
        old(system)@.wf(),
        x < 16,
        y < 16,
    ensures
        final(system)@.wf(),
        r is Ok,
        final(system)@ == subn_spec(old(system)@, x, y),
{
    let vx = system.registers[x as usize];
    let vy = system.registers[y as usize];
    system.registers[x as usize] = if vy >= vx {
        vy - vx
    } else {
        (((vy as u16) + 256) - (vx as u16)) as u8
    };
    system.registers[15] = if vy < vx { 1 } else { 0 };
    Ok(())
}

/// Shift left from the source register.
pub fn op_shl(system: &mut SystemState, x: u8, y: u8) -> (r: Result<(), Error>)
    requires
        old(system)@.wf(),
        x < 16,
        y < 16,
    ensures
        final(system)@.wf(),
        r is Ok,
        final(system)@ == shl_spec(old(system)@, x, y),
{
    let vy = system.registers[y as usize];
    system.registers[x as usize] = vy << 1u8;
    system.registers[15] = (vy >> 7u8) & 1;
    Ok(())
}

/// Load I from a 12-bit-masked address.
pub fn op_ld_i(system: &mut SystemState, addr: u16) -> (r: Result<(), Error>)
    requires
        old(system)@.wf(),
    ensures
        final(system)@.wf(),
        r is Ok,
        final(system)@ == ld_i_spec(old(system)@, addr),
{
    system.address_register = addr & 0xFFF;
    Ok(())
}

/// Jump to the target plus V0, bounds-checked before committing.
pub fn op_jp_v0_addr(system: &mut SystemState, addr: u16) -> (r: Result<(), Error>)
    requires
        old(system)@.wf(),
    ensures
        final(system)@.wf(),
        r is Ok <==> jp_v0_ok(old(system)@, addr),
        r is Ok ==> final(system)@ == jp_v0_spec(old(system)@, addr),
        r is Err ==> final(system)@ == old(system)@,
{
    let v0 = system.registers[0];
    let target = (addr as u32) + (v0 as u32);
    if target > 0xFFFF {
        return err("invalid address");
    }
    let target = match sanitize_addr(system, target as u16, 2) {
        Ok(i) => i,
        Err(e) => {
            return Err(e);
        },
    };
    system.program_counter = target as u16;
    Ok(())
}

/// Relies on rand::random: a uniformly distributed random byte; nothing is
/// promised of the value.
#[verifier::external_body]
fn random_byte() -> u8 {
    rand::random::<u8>()
}

/// Load a register with a random byte masked by the immediate.
pub fn op_rnd_reg_byte(system: &mut SystemState, reg: u8, byte: u8) -> (r: Result<(), Error>)
    requires
        old(system)@.wf(),
        reg < 16,
    ensures
        final(system)@.wf(),
        r is Ok,
        exists|b: u8| final(system)@ == rnd_spec(old(system)@, reg, byte, b),
{
    let b = random_byte();
    system.registers[reg as usize] = b & byte;
    proof {
        assert(system@ == rnd_spec(old(system)@, reg, byte, b));
    }
    Ok(())
}

/// Draw an `n`-byte sprite from I at the coordinates in two registers,
/// XOR-wise with per-axis wraparound, reporting a collision in VF.
pub fn op_drw(system: &mut SystemState, x: u8, y: u8, n: u8) -> (r: Result<(), Error>)
    requires
        old(system)@.wf(),
        x < 16,
        y < 16,
        n < 16,
    ensures
        final(system)@.wf(),
        r is Ok <==> drw_ok(old(system)@, n),
        r is Ok ==> final(system)@ == drw_spec(old(system)@, x, y, n),
        r is Err ==> final(system)@ == old(system)@,
{
    let vx = system.registers[x as usize];
    let vy = system.registers[y as usize];
    let i = system.address_register as usize;
    if i + (n as usize) > MEMORY_LEN {
        return err("invalid address");
    }
    let ghost sprite = drw_sprite(old(system)@, n);
    let mut collide = false;
    let mut idx: usize = 0;
    while idx < n as usize
        invariant
            old(system)@.wf(),
            x < 16,
            y < 16,
            n < 16,
            vx == old(system)@.registers[x as int],
            vy == old(system)@.registers[y as int],
            i == old(system)@.address_register,
            i + n <= MEMORY_LEN,
            sprite == drw_sprite(old(system)@, n),
            sprite.len() == n as int,
            idx <= n as usize,
            system@.display.len() == DISPLAY_CELLS,
            forall|p: int|
                0 <= p < DISPLAY_CELLS ==> system@.display[p] == (old(system)@.display[p]
                    != sprite_hits_upto(sprite, vx, vy, p, idx * 8)),
            collide == draw_collides_upto(old(system)@.display, sprite, vx, vy, idx * 8),
            *system == (SystemState { display: system.display, ..*old(system) }),
        decreases n as int - idx,
    {
        let byte = system.memory[i + idx];
        assert(byte == sprite[idx as int]);
        let mut bit: usize = 0;
        while bit < 8
            invariant
                old(system)@.wf(),
                x < 16,
                y < 16,
                n < 16,
                vx == old(system)@.registers[x as int],
                vy == old(system)@.registers[y as int],
                i == old(system)@.address_register,
                i + n <= MEMORY_LEN,
                sprite == drw_sprite(old(system)@, n),
                sprite.len() == n as int,
                idx < n as usize,
                byte == sprite[idx as int],
                bit <= 8,
                system@.display.len() == DISPLAY_CELLS,
                forall|p: int|
                    0 <= p < DISPLAY_CELLS ==> system@.display[p] == (old(system)@.display[p]
                        != sprite_hits_upto(sprite, vx, vy, p, idx * 8 + bit)),
                collide == draw_collides_upto(
                    old(system)@.display,
                    sprite,
                    vx,
                    vy,
                    idx * 8 + bit,
                ),
                *system == (SystemState { display: system.display, ..*old(system) }),
            decreases 8 - bit,
        {
            let iy = ((vy as usize) + idx) % 32;
            let ix = ((vx as usize) + bit) % 64;
            let on = (byte & (1u8 << ((7 - bit) as u8))) != 0;
            let p = iy * 64 + ix;
            proof {
                assert(iy == wrap_row(vy, idx as int));
                assert(ix == wrap_col(vx, bit as int));
                assert(p == target_cell(vx, vy, idx as int, bit as int));
                assert(on == sprite_bit(sprite[idx as int], bit as int));
                lemma_hits_upto_step(sprite, vx, vy, idx as int, bit as int);
                lemma_collides_upto_step(
                    old(system)@.display,
                    sprite,
                    vx,
                    vy,
                    idx as int,
                    bit as int,
                );
                assert(system@.display[p as int] == old(system)@.display[p as int]);
            }
            collide = collide || (on && system.display[p]);
            let cur = system.display[p];
            system.display[p] = cur != on;
            bit = bit + 1;
        }
        idx = idx + 1;
    }
    system.registers[15] = if collide { 1 } else { 0 };
    proof {
        lemma_upto_complete(old(system)@.display, sprite, vx, vy);
        assert(system@.display =~= drw_spec(old(system)@, x, y, n).display);
        assert(system@.registers =~= drw_spec(old(system)@, x, y, n).registers);
    }
    Ok(())
}

/// Skip when the key named by the register is down.
pub fn op_skp(system: &mut SystemState, x: u8) -> (r: Result<(), Error>)
    requires
        old(system)@.wf(),
        x < 16,
        old(system)@.program_counter + 2 <= 0xFFFF,
    ensures
        final(system)@.wf(),
        r is Ok <==> key_ok(old(system)@, x),
        r is Ok ==> final(system)@ == skp_spec(old(system)@, x),
        r is Err ==> final(system)@ == old(system)@,
{
    let vx = system.registers[x as usize];
    if vx > 0xF {
        return err("invalid key value");
    }
    if system.keys[vx as usize] {
        system.program_counter = system.program_counter + 2;
    }
    Ok(())
}

/// Skip when the key named by the register is up.
pub fn op_sknp(system: &mut SystemState, x: u8) -> (r: Result<(), Error>)
    requires
        old(system)@.wf(),
        x < 16,
        old(system)@.program_counter + 2 <= 0xFFFF,
    ensures
        final(system)@.wf(),
        r is Ok <==> key_ok(old(system)@, x),
        r is Ok ==> final(system)@ == sknp_spec(old(system)@, x),
        r is Err ==> final(system)@ == old(system)@,
{
    let vx = system.registers[x as usize];
    if vx > 0xF {
        return err("invalid key value");
    }
    if !system.keys[vx as usize] {
        system.program_counter = system.program_counter + 2;
    }
    Ok(())
}

/// Load register from the delay timer.
pub fn op_ld_reg_dt(system: &mut SystemState, x: u8) -> (r: Result<(), Error>)
    requires
        old(system)@.wf(),
        x < 16,
    ensures
        final(system)@.wf(),
        r is Ok,
        final(system)@ == ld_reg_dt_spec(old(system)@, x),
{
    system.registers[x as usize] = system.delay_timer;
    Ok(())
}

/// Wait for key: consume a pending capture, or rewind and mark waiting.
pub fn op_ld_k(system: &mut SystemState, x: u8) -> (r: Result<(), Error>)
    requires
        old(system)@.wf(),
        x < 16,
        old(system)@.program_counter >= 2,
    ensures
        final(system)@.wf(),
        r is Ok,
        final(system)@ == ld_k_spec(old(system)@, x),
{
    match system.pending_keypress {
        Some(key) => {
            system.pending_keypress = None;
            system.waiting_for_key = false;
            system.registers[x as usize] = key;
        },
        None => {
            // Rewind so this instruction is fetched again once a key event
            // clears the waiting flag.
            system.waiting_for_key = true;
            system.program_counter = system.program_counter - 2;
        },
    }
    Ok(())
}

/// Load the delay timer from a register.
pub fn op_ld_dt_reg(system: &mut SystemState, x: u8) -> (r: Result<(), Error>)
    requires
        old(system)@.wf(),
        x < 16,
    ensures
        final(system)@.wf(),
        r is Ok,
        final(system)@ == ld_dt_spec(old(system)@, x),
{
    system.delay_timer = system.registers[x as usize];
    Ok(())
}

/// Load the sound timer from a register.
pub fn op_ld_st(system: &mut SystemState, x: u8) -> (r: Result<(), Error>)
    requires
        old(system)@.wf(),
        x < 16,
    ensures
        final(system)@.wf(),
        r is Ok,
        final(system)@ == ld_st_spec(old(system)@, x),
{
    system.sound_timer = system.registers[x as usize];
    Ok(())
}

/// Add a register into I, wrapping silently.
pub fn op_add_i(system: &mut SystemState, x: u8) -> (r: Result<(), Error>)
    requires
        old(system)@.wf(),
        x < 16,
    ensures
        final(system)@.wf(),
        r is Ok,
        final(system)@ == add_i_spec(old(system)@, x),
{
    let sum = (system.address_register as u32) + (system.registers[x as usize] as u32);
    system.address_register = (sum % 0x10000) as u16;
    Ok(())
}

/// Load I with the font glyph address for the digit in the register.
pub fn op_ld_f(system: &mut SystemState, x: u8) -> (r: Result<(), Error>)
    requires
        old(system)@.wf(),
        x < 16,
    ensures
        final(system)@.wf(),
        r is Ok <==> ld_f_ok(old(system)@, x),
        r is Ok ==> final(system)@ == ld_f_spec(old(system)@, x),
        r is Err ==> final(system)@ == old(system)@,
{
    let vx = system.registers[x as usize];
    let loc = match system.get_sprite_location(vx) {
        Ok(loc) => loc,
        Err(e) => {
            return Err(e);
        },
    };
    system.address_register = loc;
    Ok(())
}

/// Store the three decimal digits of the register at I.
pub fn op_ld_b(system: &mut SystemState, x: u8) -> (r: Result<(), Error>)
    requires
        old(system)@.wf(),
        x < 16,
    ensures
        final(system)@.wf(),
        r is Ok <==> ld_b_ok(old(system)@),
        r is Ok ==> final(system)@ == ld_b_spec(old(system)@, x),
        r is Err ==> final(system)@ == old(system)@,
{
    let vx = system.registers[x as usize];
    let i = match sanitize_addr(system, system.address_register, 3) {
        Ok(i) => i,
        Err(e) => {
            return Err(e);
        },
    };
    let (hundreds, tens, ones) = bcd(vx);
    system.memory[i] = hundreds;
    system.memory[i + 1] = tens;
    system.memory[i + 2] = ones;
    Ok(())
}

/// Store registers 0..=x at I, then advance I past them.
pub fn op_store_regs(system: &mut SystemState, x: u8) -> (r: Result<(), Error>)
    requires
        old(system)@.wf(),
        x < 16,
    ensures
        final(system)@.wf(),
        r is Ok <==> store_regs_ok(old(system)@, x),
        r is Ok ==> final(system)@ == store_regs_spec(old(system)@, x),
        r is Err ==> final(system)@ == old(system)@,
{
    let x = x as usize;
    let i = match sanitize_addr(system, system.address_register, x + 1) {
        Ok(i) => i,
        Err(e) => {
            return Err(e);
        },
    };
    let mut j: usize = 0;
    while j <= x
        invariant
            old(system)@.wf(),
            x < 16,
            j <= x + 1,
            i == old(system)@.address_register,
            addr_ok(i as int, x + 1),
            self_memory_partial(old(system)@, system@, i as int, x as int, j as int),
            *system == (SystemState { memory: system.memory, ..*old(system) }),
        decreases x + 1 - j,
    {
        system.memory[i + j] = system.registers[j];
        j = j + 1;
    }
    system.address_register = (i + x + 1) as u16;
    proof {
        assert(system@.memory =~= store_regs_spec(old(system)@, x as u8).memory);
    }
    Ok(())
}

/// The memory during a register-block store: bytes before `i + j` already
/// written, the rest untouched.
pub open spec fn self_memory_partial(
    v0: StateView,
    v: StateView,
    i: int,
    x: int,
    j: int,
) -> bool {
    &&& v.memory.len() == v0.memory.len()
    &&& forall|k: int| i <= k < i + j ==> v.memory[k] == v0.registers[k - i]
    &&& forall|k: int| 0 <= k < v0.memory.len() && !(i <= k < i + j) ==> v.memory[k] == v0.memory[k]
}

/// Load registers 0..=x from I, then advance I past them.
pub fn op_load_regs(system: &mut SystemState, x: u8) -> (r: Result<(), Error>)
    requires
        old(system)@.wf(),
        x < 16,
    ensures
        final(system)@.wf(),
        r is Ok <==> load_regs_ok(old(system)@, x),
        r is Ok ==> final(system)@ == load_regs_spec(old(system)@, x),
        r is Err ==> final(system)@ == old(system)@,
{
    let x = x as usize;
    let i = match sanitize_addr(system, system.address_register, x) {
        Ok(i) => i,
        Err(e) => {
            return Err(e);
        },
    };
    let mut j: usize = 0;
    while j <= x
        invariant
            old(system)@.wf(),
            x < 16,
            j <= x + 1,
            i == old(system)@.address_register,
            addr_ok(i as int, x as int),
            system@.registers.len() == 16,
            forall|k: int| 0 <= k < j ==> system@.registers[k] == old(system)@.memory[i + k],
            forall|k: int| j <= k < 16 ==> system@.registers[k] == old(system)@.registers[k],
            *system == (SystemState { registers: system.registers, ..*old(system) }),
        decreases x + 1 - j,
    {
        system.registers[j] = system.memory[i + j];
        j = j + 1;
    }
    system.address_register = (i + x + 1) as u16;
    proof {
        assert(system@.registers =~= load_regs_spec(old(system)@, x as u8).registers);
    }
    Ok(())
}

// ---------------------------------------------------------------------------
// Dispatch

/// How a deterministic instruction relates the state after a run (`v2`) to
/// the state before (`v`): it succeeds exactly when `can` holds, moving to
/// `next`; on failure the state is untouched.
pub open spec fn det_step(v: StateView, v2: StateView, ok: bool, can: bool, next: StateView) -> bool {
    &&& ok == can
    &&& v2 == (if can { next } else { v })
}

/// What one dispatched instruction does: relates the state after a run
/// (`v2`) and its success (`ok`) to the state before (`v`), by the nibble
/// pattern of the instruction word. Unmatched patterns fail and leave the
/// state untouched; the legacy machine-call family succeeds as a no-op.
pub open spec fn step_result(v: StateView, opcode: u16, v2: StateView, ok: bool) -> bool {
    let a = nib1(opcode);
    let b = nib2(opcode);
    let c = nib3(opcode);
    let addr = nnn_spec(a, b, c);
    let byte = nn_spec(b, c);
    match (nib0(opcode), a, b, c) {
        (0x0, 0x0, 0xE, 0x0) => det_step(v, v2, ok, true, cls_spec(v)),
        (0x0, 0x0, 0xE, 0xE) => det_step(v, v2, ok, ret_ok(v), ret_spec(v)),
        (0x0, _, _, _) => det_step(v, v2, ok, true, v),
        (0x1, _, _, _) => det_step(v, v2, ok, true, jp_spec(v, addr)),
        (0x2, _, _, _) => det_step(v, v2, ok, call_ok(v, addr), call_spec(v, addr)),
        (0x3, _, _, _) => det_step(v, v2, ok, true, skip_if(v, v.registers[a as int] == byte)),
        (0x4, _, _, _) => det_step(v, v2, ok, true, skip_if(v, v.registers[a as int] != byte)),
        (0x5, _, _, 0x0) => det_step(
            v,
            v2,
            ok,
            true,
            skip_if(v, v.registers[a as int] == v.registers[b as int]),
        ),
        (0x6, _, _, _) => det_step(v, v2, ok, true, ld_reg_byte_spec(v, a, byte)),
        (0x7, _, _, _) => det_step(v, v2, ok, true, add_reg_byte_spec(v, a, byte)),
        (0x8, _, _, 0x0) => det_step(v, v2, ok, true, ld_reg_reg_spec(v, a, b)),
        (0x8, _, _, 0x1) => det_step(v, v2, ok, true, or_spec(v, a, b)),
        (0x8, _, _, 0x2) => det_step(v, v2, ok, true, and_spec(v, a, b)),
        (0x8, _, _, 0x3) => det_step(v, v2, ok, true, xor_spec(v, a, b)),
        (0x8, _, _, 0x4) => det_step(v, v2, ok, true, add_reg_reg_spec(v, a, b)),
        (0x8, _, _, 0x5) => det_step(v, v2, ok, true, sub_reg_reg_spec(v, a, b)),
        (0x8, _, _, 0x6) => det_step(v, v2, ok, true, shr_spec(v, a, b)),
        (0x8, _, _, 0x7) => det_step(v, v2, ok, true, subn_spec(v, a, b)),
        (0x8, _, _, 0xE) => det_step(v, v2, ok, true, shl_spec(v, a, b)),
        (0x9, _, _, 0x0) => det_step(
            v,
            v2,
            ok,
            true,
            skip_if(v, v.registers[a as int] != v.registers[b as int]),
        ),
        (0xA, _, _, _) => det_step(v, v2, ok, true, ld_i_spec(v, addr)),
        (0xB, _, _, _) => det_step(v, v2, ok, jp_v0_ok(v, addr), jp_v0_spec(v, addr)),
        (0xC, _, _, _) => ok && exists|rb: u8| v2 == rnd_spec(v, a, byte, rb),
        (0xD, _, _, _) => det_step(v, v2, ok, drw_ok(v, c), drw_spec(v, a, b, c)),
        (0xE, _, 0x9, 0xE) => det_step(v, v2, ok, key_ok(v, a), skp_spec(v, a)),
        (0xE, _, 0xA, 0x1) => det_step(v, v2, ok, key_ok(v, a), sknp_spec(v, a)),
        (0xF, _, 0x0, 0x7) => det_step(v, v2, ok, true, ld_reg_dt_spec(v, a)),
        (0xF, _, 0x0, 0xA) => det_step(v, v2, ok, true, ld_k_spec(v, a)),
        (0xF, _, 0x1, 0x5) => det_step(v, v2, ok, true, ld_dt_spec(v, a)),
        (0xF, _, 0x1, 0x8) => det_step(v, v2, ok, true, ld_st_spec(v, a)),
        (0xF, _, 0x1, 0xE) => det_step(v, v2, ok, true, add_i_spec(v, a)),
        (0xF, _, 0x2, 0x9) => det_step(v, v2, ok, ld_f_ok(v, a), ld_f_spec(v, a)),
        (0xF, _, 0x3, 0x3) => det_step(v, v2, ok, ld_b_ok(v), ld_b_spec(v, a)),
        (0xF, _, 0x5, 0x5) => det_step(v, v2, ok, store_regs_ok(v, a), store_regs_spec(v, a)),
        (0xF, _, 0x6, 0x5) => det_step(v, v2, ok, load_regs_ok(v, a), load_regs_spec(v, a)),
        _ => det_step(v, v2, ok, false, v),
    }
}

/// Relies on std's formatting to render the diagnostic for an unknown
/// instruction word: the offending opcode, the program counter, and the
/// register snapshot.
#[verifier::external_body]
fn format_unknown_opcode(opcode: u16, pc: u16, registers: &Vec<u8>) -> String {
    format!("unknown opcode: 0x{:X}; pc=0x{:04X}, registers={:?}", opcode, pc, registers)
}

/// Something that decodes and executes one instruction word against the
/// machine state.
pub trait IOpcodeRunner {
    /// Decodes `opcode`, runs the matching handler, and relates the new
    /// state to the old one as `step_result` states.
    fn run(&self, system: &mut SystemState, opcode: u16) -> (r: Result<(), Error>)
        requires
            old(system)@.wf(),
            2 <= old(system)@.program_counter,
            old(system)@.program_counter + 2 <= 0xFFFF,
        ensures
            final(system)@.wf(),
            step_result(old(system)@, opcode, final(system)@, r is Ok),
    ;
}

/// The instruction decoder and dispatcher.
pub struct OpcodeRunner;

impl IOpcodeRunner for OpcodeRunner {
    fn run(&self, system: &mut SystemState, opcode: u16) -> (r: Result<(), Error>) {
        match nibbles(opcode) {
            (0x0, 0x0, 0xE, 0x0) => op_cls(system),
            (0x0, 0x0, 0xE, 0xE) => op_ret(system),
            (0x0, _, _, _) => noop(),  // machine call disabled
            (0x1, a, b, c) => op_jp(system, nnn(a, b, c)),
            (0x2, a, b, c) => op_call(system, nnn(a, b, c)),
            (0x3, a, b, c) => op_se_reg_byte(system, a, nn(b, c)),
            (0x4, a, b, c) => op_sne_reg_byte(system, a, nn(b, c)),
            (0x5, a, b, 0x0) => op_se_reg_reg(system, a, b),
            (0x6, a, b, c) => op_ld_reg_byte(system, a, nn(b, c)),
            (0x7, a, b, c) => op_add_reg_byte(system, a, nn(b, c)),
            (0x8, a, b, 0x0) => op_ld_reg_reg(system, a, b),
            (0x8, a, b, 0x1) => op_or(system, a, b),
            (0x8, a, b, 0x2) => op_and(system, a, b),
            (0x8, a, b, 0x3) => op_xor(system, a, b),
            (0x8, a, b, 0x4) => op_add_reg_reg(system, a, b),
            (0x8, a, b, 0x5) => op_sub_reg_reg(system, a, b),
            (0x8, a, b, 0x6) => op_shr(system, a, b),
            (0x8, a, b, 0x7) => op_subn(system, a, b),
            (0x8, a, b, 0xE) => op_shl(system, a, b),
            (0x9, a, b, 0x0) => op_sne_reg_reg(system, a, b),
            (0xA, a, b, c) => op_ld_i(system, nnn(a, b, c)),
            (0xB, a, b, c) => op_jp_v0_addr(system, nnn(a, b, c)),
            (0xC, a, b, c) => op_rnd_reg_byte(system, a, nn(b, c)),
            (0xD, a, b, c) => op_drw(system, a, b, c),
            (0xE, a, 0x9, 0xE) => op_skp(system, a),
            (0xE, a, 0xA, 0x1) => op_sknp(system, a),
            (0xF, a, 0x0, 0x7) => op_ld_reg_dt(system, a),
            (0xF, a, 0x0, 0xA) => op_ld_k(system, a),
            (0xF, a, 0x1, 0x5) => op_ld_dt_reg(system, a),
            (0xF, a, 0x1, 0x8) => op_ld_st(system, a),
            (0xF, a, 0x1, 0xE) => op_add_i(system, a),
            (0xF, a, 0x2, 0x9) => op_ld_f(system, a),
            (0xF, a, 0x3, 0x3) => op_ld_b(system, a),
            (0xF, a, 0x5, 0x5) => op_store_regs(system, a),
            (0xF, a, 0x6, 0x5) => op_load_regs(system, a),
            _ => Err(
                Error(format_unknown_opcode(opcode, system.program_counter, &system.registers)),
            ),
        }
    }
}

} // verus!
