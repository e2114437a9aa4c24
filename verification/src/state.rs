//! The mathematical model of the machine: its state and what one
//! instruction cycle does to it.

use vstd::prelude::*;
use crate::instruction::{decoded, Instruction};
use crate::keyboard::{key_held, Scancode};
use crate::sprite::{drawn_rows, sprite_collides};

verus! {

/// Number of addressable bytes.
pub const MEMORY_SIZE: usize = 4096;

/// Number of general-purpose registers.
pub const REGISTER_COUNT: usize = 16;

/// Greatest number of return addresses on the call stack.
pub const STACK_LIMIT: usize = 16;

/// Address at which programs conventionally start.
pub const PROGRAM_START: u16 = 0x200;

/// Number of bytes that the built-in digit sprites take at the start of
/// memory.
pub const FONT_SIZE: usize = 80;

/// Why an instruction cycle did not complete.
#[derive(Clone, Copy, Debug, PartialEq, Eq, Structural)]
pub enum Fault {
    /// The program counter leaves no room for an instruction word in memory.
    PcOutOfBounds,
    /// The word at `address` encodes no instruction.
    UnknownOpcode { opcode: u16, address: u16 },
    /// A call with sixteen return addresses already on the stack.
    StackOverflow,
    /// A return with no return address on the stack.
    StackUnderflow,
}

/// The state of a machine as plain mathematical values.
#[verifier::ext_equal]
pub struct MachineState {
    /// Program counter.
    pub pc: u16,
    /// The 4096 bytes of memory.
    pub memory: Seq<u8>,
    /// The registers `V0` to `VF`.
    pub registers: Seq<u8>,
    /// The address register `I`.
    pub index: u16,
    /// Return addresses, the most recent last.
    pub stack: Seq<u16>,
    pub delay_timer: u8,
    pub sound_timer: u8,
    /// The 32 display rows, top to bottom; the most significant bit of a row
    /// is its leftmost pixel.
    pub display: Seq<u64>,
    /// Keypad keys pressed and not yet consumed, the oldest first.
    pub pending_keys: Seq<u8>,
}

impl MachineState {
    /// The invariant of the machine: fixed sizes of memory, register file and
    /// display, a bounded call stack, and only keypad values in the key queue.
    pub open spec fn wf(self) -> bool {
        &&& self.memory.len() == MEMORY_SIZE
        &&& self.registers.len() == REGISTER_COUNT
        &&& self.display.len() == 32
        &&& self.stack.len() <= STACK_LIMIT
        &&& forall|i: int| 0 <= i < self.pending_keys.len() ==> self.pending_keys[i] <= 0xF
    }
}

/// The sixteen built-in digit sprites, five bytes each, for the digits 0 to F
/// in order.
pub open spec fn digit_sprites() -> Seq<u8> {
    seq![
        0xF0u8, 0x90, 0x90, 0x90, 0xF0,
        0x20, 0x60, 0x20, 0x20, 0x70,
        0xF0, 0x10, 0xF0, 0x80, 0xF0,
        0xF0, 0x10, 0xF0, 0x10, 0xF0,
        0x90, 0x90, 0xF0, 0x10, 0x10,
        0xF0, 0x80, 0xF0, 0x10, 0xF0,
        0xF0, 0x80, 0xF0, 0x90, 0xF0,
        0xF0, 0x10, 0x20, 0x40, 0x40,
        0xF0, 0x90, 0xF0, 0x90, 0xF0,
        0xF0, 0x90, 0xF0, 0x10, 0xF0,
        0xF0, 0x90, 0xF0, 0x90, 0x90,
        0xE0, 0x90, 0xE0, 0x90, 0xE0,
        0xF0, 0x80, 0x80, 0x80, 0xF0,
        0xE0, 0x90, 0x90, 0x90, 0xE0,
        0xF0, 0x80, 0xF0, 0x80, 0xF0,
        0xF0, 0x80, 0xF0, 0x80, 0x80,
    ]
}

/// The state of a machine that was just built: the digit sprites at the
/// start of memory, the program counter at the program start, all else zero
/// or empty.
pub open spec fn initial_state() -> MachineState {
    MachineState {
        pc: PROGRAM_START,
        memory: Seq::new(
            MEMORY_SIZE as nat,
            |a: int| if a < FONT_SIZE { digit_sprites()[a] } else { 0u8 },
        ),
        registers: Seq::new(REGISTER_COUNT as nat, |i: int| 0u8),
        index: 0,
        stack: Seq::empty(),
        delay_timer: 0,
        sound_timer: 0,
        display: Seq::new(32, |r: int| 0u64),
        pending_keys: Seq::empty(),
    }
}

/// The memory after `program` was copied to the addresses from `start` on.
pub open spec fn loaded(memory: Seq<u8>, program: Seq<u8>, start: int) -> Seq<u8> {
    Seq::new(
        memory.len(),
        |a: int| if start <= a < start + program.len() { program[a - start] } else { memory[a] },
    )
}

/// 1 for `true`, 0 for `false`: the value of a flag in `VF`.
pub open spec fn flag(b: bool) -> u8 {
    if b {
        1
    } else {
        0
    }
}

/// Whether memory holds a whole instruction word at the program counter.
pub open spec fn pc_in_bounds(s: MachineState) -> bool {
    s.pc as int + 1 < MEMORY_SIZE
}

/// The big-endian instruction word at the program counter.
pub open spec fn fetched(s: MachineState) -> u16 {
    (s.memory[s.pc as int] as int * 0x100 + s.memory[s.pc as int + 1] as int) as u16
}

/// `s` with the program counter moved past one instruction word.
pub open spec fn advanced(s: MachineState) -> MachineState {
    MachineState { pc: (s.pc + 2) as u16, ..s }
}

/// `s` with the program counter moved past one more instruction word if
/// `condition` holds.
pub open spec fn skipped_if(s: MachineState, condition: bool) -> MachineState {
    if condition {
        advanced(s)
    } else {
        s
    }
}

/// `s` with register `x` set to `value`.
pub open spec fn with_register(s: MachineState, x: u8, value: u8) -> MachineState {
    MachineState { registers: s.registers.update(x as int, value), ..s }
}

/// `s` with register `x` set to `value` and then `VF` set to `vf`: where `x`
/// is `VF` itself, the flag is what remains.
pub open spec fn with_result_and_flag(s: MachineState, x: u8, value: u8, vf: bool) -> MachineState {
    MachineState { registers: s.registers.update(x as int, value).update(0xF, flag(vf)), ..s }
}

/// `s` with every pixel of the display off.
pub open spec fn cleared(s: MachineState) -> MachineState {
    MachineState { display: Seq::new(s.display.len(), |r: int| 0u64), ..s }
}

/// `s` after a return: the program counter is the address that was on top
/// of the stack. With an empty stack the result is `s`.
pub open spec fn returned(s: MachineState) -> MachineState {
    if s.stack.len() == 0 {
        s
    } else {
        MachineState { pc: s.stack.last(), stack: s.stack.drop_last(), ..s }
    }
}

/// `s` after a call of `addr`: the program counter is on top of the stack
/// and then `addr`. With a full stack the result is `s`.
pub open spec fn called(s: MachineState, addr: u16) -> MachineState {
    if s.stack.len() >= STACK_LIMIT {
        s
    } else {
        MachineState { pc: addr, stack: s.stack.push(s.pc), ..s }
    }
}

/// `s` after a wait for a key into `Vx`: with no press waiting the program
/// counter is back on the instruction; else `Vx` holds the oldest press and
/// no press is waiting any more.
pub open spec fn key_awaited(s: MachineState, x: u8) -> MachineState {
    if s.pending_keys.len() == 0 {
        MachineState { pc: (s.pc - 2) as u16, ..s }
    } else {
        MachineState { pending_keys: Seq::empty(), ..with_register(s, x, s.pending_keys[0]) }
    }
}

/// The `n` bytes of memory from the address register on.
pub open spec fn sprite_at_index(s: MachineState, n: u8) -> Seq<u8> {
    s.memory.subrange(s.index as int, s.index as int + n as int)
}

/// `s` after the `n`-byte sprite at the address register was drawn at
/// column `Vx`, row `Vy`: the display is XORed with the sprite, and `VF`
/// tells whether the sprite met a lit pixel.
pub open spec fn drawn(s: MachineState, x: u8, y: u8, n: u8) -> MachineState {
    let sprite = sprite_at_index(s, n);
    let vx = s.registers[x as int];
    let vy = s.registers[y as int];
    MachineState {
        display: drawn_rows(s.display, sprite, vx, vy),
        registers: s.registers.update(0xF, flag(sprite_collides(s.display, sprite, vx, vy))),
        ..s
    }
}

/// Memory after `V0..=Vx` were stored from the address register on.
pub open spec fn registers_stored(s: MachineState, x: u8) -> Seq<u8> {
    Seq::new(
        s.memory.len(),
        |a: int|
            if s.index <= a <= s.index + x {
                s.registers[a - s.index]
            } else {
                s.memory[a]
            },
    )
}

/// The registers after `V0..=Vx` were loaded from the address register on.
pub open spec fn registers_loaded(s: MachineState, x: u8) -> Seq<u8> {
    Seq::new(
        s.registers.len(),
        |i: int|
            if i <= x {
                s.memory[s.index + i]
            } else {
                s.registers[i]
            },
    )
}

/// Memory after the hundreds, tens and units digits of `value` were stored
/// at the address register and the two addresses after it.
pub open spec fn bcd_stored(s: MachineState, value: u8) -> Seq<u8> {
    Seq::new(
        s.memory.len(),
        |a: int|
            if a == s.index {
                value / 100
            } else if a == s.index + 1 {
                (value / 10) % 10
            } else if a == s.index + 2 {
                value % 10
            } else {
                s.memory[a]
            },
    )
}

/// What an instruction does to a machine whose program counter already
/// points past it. `pressed` are the physical keys held down during the
/// cycle and `random` is the byte drawn for it. For a return on an empty
/// stack and a call on a full one the result is `s`.
pub open spec fn executed(
    s: MachineState,
    instruction: Instruction,
    pressed: Seq<Scancode>,
    random: u8,
) -> MachineState {
    let v = s.registers;
    match instruction {
        Instruction::ClearScreen => cleared(s),
        Instruction::Return => returned(s),
        Instruction::Jump { addr } => MachineState { pc: addr, ..s },
        Instruction::Call { addr } => called(s, addr),
        Instruction::SkipEqualByte { x, kk } => skipped_if(s, v[x as int] == kk),
        Instruction::SkipNotEqualByte { x, kk } => skipped_if(s, v[x as int] != kk),
        Instruction::SkipEqual { x, y } => skipped_if(s, v[x as int] == v[y as int]),
        Instruction::LoadByte { x, kk } => with_register(s, x, kk),
        Instruction::AddByte { x, kk } => with_register(s, x, ((v[x as int] + kk) % 0x100) as u8),
        Instruction::Load { x, y } => with_register(s, x, v[y as int]),
        Instruction::Or { x, y } => with_register(s, x, v[x as int] | v[y as int]),
        Instruction::And { x, y } => with_register(s, x, v[x as int] & v[y as int]),
        Instruction::Xor { x, y } => with_register(s, x, v[x as int] ^ v[y as int]),
        Instruction::Add { x, y } => with_result_and_flag(
            s,
            x,
            ((v[x as int] + v[y as int]) % 0x100) as u8,
            v[x as int] + v[y as int] > 0xFF,
        ),
        Instruction::Sub { x, y } => with_result_and_flag(
            s,
            x,
            ((v[x as int] - v[y as int]) % 0x100) as u8,
            v[x as int] >= v[y as int],
        ),
        Instruction::ShiftRight { x } => with_result_and_flag(
            s,
            x,
            v[x as int] / 2,
            v[x as int] % 2 == 1,
        ),
        Instruction::SubFrom { x, y } => with_result_and_flag(
            s,
            x,
            ((v[y as int] - v[x as int]) % 0x100) as u8,
            v[y as int] >= v[x as int],
        ),
        Instruction::ShiftLeft { x } => with_result_and_flag(
            s,
            x,
            ((v[x as int] * 2) % 0x100) as u8,
            v[x as int] >= 0x80,
        ),
        Instruction::SkipNotEqual { x, y } => skipped_if(s, v[x as int] != v[y as int]),
        Instruction::LoadIndex { addr } => MachineState { index: addr, ..s },
        Instruction::JumpOffset { addr } => MachineState { pc: (v[0] + addr) as u16, ..s },
        Instruction::Random { x, kk } => with_register(s, x, random & kk),
        Instruction::Draw { x, y, n } => drawn(s, x, y, n),
        Instruction::SkipKeyPressed { x } => skipped_if(s, key_held(pressed, v[x as int])),
        Instruction::SkipKeyNotPressed { x } => skipped_if(s, !key_held(pressed, v[x as int])),
        Instruction::LoadDelay { x } => with_register(s, x, s.delay_timer),
        Instruction::WaitKey { x } => key_awaited(s, x),
        Instruction::SetDelay { x } => MachineState { delay_timer: v[x as int], ..s },
        Instruction::SetSound { x } => MachineState { sound_timer: v[x as int], ..s },
        Instruction::AddIndex { x } => MachineState {
            index: ((s.index + v[x as int]) % 0x10000) as u16,
            ..s
        },
        Instruction::LoadDigit { x } => MachineState { index: (5 * v[x as int]) as u16, ..s },
        Instruction::StoreBcd { x } => MachineState { memory: bcd_stored(s, v[x as int]), ..s },
        Instruction::StoreRegisters { x } => MachineState { memory: registers_stored(s, x), ..s },
        Instruction::LoadRegisters { x } => MachineState { registers: registers_loaded(s, x), ..s },
    }
}

/// The fault that `instruction` ends in on `s`, if it ends in one: a return
/// on an empty stack, a call on a full one.
pub open spec fn execution_fault(s: MachineState, instruction: Instruction) -> Option<Fault> {
    match instruction {
        Instruction::Return => if s.stack.len() == 0 {
            Some(Fault::StackUnderflow)
        } else {
            None
        },
        Instruction::Call { addr } => if s.stack.len() >= STACK_LIMIT {
            Some(Fault::StackOverflow)
        } else {
            None
        },
        _ => None,
    }
}

/// The fault that the next cycle of `s` ends in, if it ends in one.
pub open spec fn fault_of(s: MachineState) -> Option<Fault> {
    if !pc_in_bounds(s) {
        Some(Fault::PcOutOfBounds)
    } else {
        match decoded(fetched(s)) {
            None => Some(Fault::UnknownOpcode { opcode: fetched(s), address: s.pc }),
            Some(instruction) => execution_fault(s, instruction),
        }
    }
}

/// What a cycle reports: the fault, or success where there is none.
pub open spec fn cycle_result(fault: Option<Fault>) -> Result<(), Fault> {
    match fault {
        Some(f) => Err(f),
        None => Ok(()),
    }
}

/// Whether the memory operands of `instruction` on `s` lie within memory:
/// the sprite of a draw, the three digits of a BCD store, the registers of a
/// register store or load.
pub open spec fn instruction_in_memory(s: MachineState, instruction: Instruction) -> bool {
    match instruction {
        Instruction::Draw { x, y, n } => s.index + n <= MEMORY_SIZE,
        Instruction::StoreBcd { x } => s.index + 2 < MEMORY_SIZE,
        Instruction::StoreRegisters { x } => s.index + x < MEMORY_SIZE,
        Instruction::LoadRegisters { x } => s.index + x < MEMORY_SIZE,
        _ => true,
    }
}

/// The state after one cycle of `s`. A cycle that finds the program counter
/// out of bounds changes nothing; any other fault leaves the program counter
/// past the faulting instruction and changes nothing else.
pub open spec fn successor(s: MachineState, pressed: Seq<Scancode>, random: u8) -> MachineState {
    if !pc_in_bounds(s) {
        s
    } else {
        match decoded(fetched(s)) {
            None => advanced(s),
            Some(instruction) => executed(advanced(s), instruction, pressed, random),
        }
    }
}

/// Whether the memory operands of the next instruction of `s` lie within
/// memory. It holds where the cycle ends in a fault before it executes
/// anything.
pub open spec fn operands_in_memory(s: MachineState) -> bool {
    pc_in_bounds(s) ==> match decoded(fetched(s)) {
        Some(instruction) => instruction_in_memory(s, instruction),
        None => true,
    }
}

/// The state after one tick of the 60 Hz clock: each timer that is not yet
/// zero is one less.
pub open spec fn ticked(s: MachineState) -> MachineState {
    MachineState {
        delay_timer: if s.delay_timer > 0 { (s.delay_timer - 1) as u8 } else { 0 },
        sound_timer: if s.sound_timer > 0 { (s.sound_timer - 1) as u8 } else { 0 },
        ..s
    }
}

/// A machine that was just built satisfies the invariant.
pub proof fn lemma_initial_state_wf()
    ensures
        initial_state().wf(),
{
}

/// Loading a program keeps the invariant.
pub proof fn lemma_loaded_preserves_wf(s: MachineState, program: Seq<u8>, start: int)
    requires
        s.wf(),
    ensures
        (MachineState { memory: loaded(s.memory, program, start), ..s }).wf(),
{
}

/// Recording the press of a keypad key keeps the invariant.
pub proof fn lemma_key_press_preserves_wf(s: MachineState, key: u8)
    requires
        s.wf(),
        key <= 0xF,
    ensures
        (MachineState { pending_keys: s.pending_keys.push(key), ..s }).wf(),
{
}

/// A tick of the timers keeps the invariant.
pub proof fn lemma_ticked_preserves_wf(s: MachineState)
    requires
        s.wf(),
    ensures
        ticked(s).wf(),
{
}

/// Drawing a sprite keeps the invariant.
pub proof fn lemma_drawn_preserves_wf(s: MachineState, x: u8, y: u8, n: u8)
    requires
        s.wf(),
    ensures
        drawn(s, x, y, n).wf(),
{
}

/// Carrying out an instruction keeps the invariant: in particular the call
/// stack never grows beyond its sixteen entries.
pub proof fn lemma_executed_preserves_wf(
    s: MachineState,
    instruction: Instruction,
    pressed: Seq<Scancode>,
    random: u8,
)
    requires
        s.wf(),
        instruction.wf(),
    ensures
        executed(s, instruction, pressed, random).wf(),
{
    match instruction {
        Instruction::Draw { x, y, n } => {
            lemma_drawn_preserves_wf(s, x, y, n);
        },
        _ => {},
    }
}

/// Every instruction cycle keeps the invariant, whether it ends in a fault
/// or not.
pub proof fn lemma_successor_preserves_wf(s: MachineState, pressed: Seq<Scancode>, random: u8)
    requires
        s.wf(),
    ensures
        successor(s, pressed, random).wf(),
{
    if pc_in_bounds(s) {
        match decoded(fetched(s)) {
            None => {},
            Some(instruction) => {
                lemma_executed_preserves_wf(advanced(s), instruction, pressed, random);
            },
        }
    }
}

} // verus!
