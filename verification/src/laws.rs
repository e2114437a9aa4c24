//! What holds of every machine: laws of the instruction cycle, proved from
//! the model.

use vstd::prelude::*;
use crate::instruction::{decoded, Instruction};
use crate::keyboard::{keypad_layout, Scancode};
use crate::sprite::{lemma_draw_twice_restores, lemma_second_draw_collides, turned_on};
use crate::state::{
    bcd_stored, drawn, executed, execution_fault, fault_of, fetched, flag, pc_in_bounds,
    sprite_at_index, successor, Fault, MachineState, MEMORY_SIZE, STACK_LIMIT,
};

verus! {

/// After an addition `VF` tells whether the sum of the two registers, taken
/// as integers, is beyond a byte, and `Vx`, where it is not `VF` itself,
/// holds the sum reduced to a byte.
pub proof fn lemma_add_sets_carry(
    s: MachineState,
    x: u8,
    y: u8,
    pressed: Seq<Scancode>,
    random: u8,
)
    requires
        s.wf(),
        x < 16,
        y < 16,
    ensures
        executed(s, Instruction::Add { x, y }, pressed, random).registers[0xF] == flag(
            s.registers[x as int] + s.registers[y as int] > 0xFF,
        ),
        x != 0xF ==> executed(s, Instruction::Add { x, y }, pressed, random).registers[x as int]
            == (s.registers[x as int] + s.registers[y as int]) % 0x100,
{
}

/// After a subtraction `VF` tells whether the difference of the two
/// registers, taken as integers, is not below zero, and `Vx`, where it is not
/// `VF` itself, holds the difference reduced to a byte.
pub proof fn lemma_sub_sets_no_borrow(
    s: MachineState,
    x: u8,
    y: u8,
    pressed: Seq<Scancode>,
    random: u8,
)
    requires
        s.wf(),
        x < 16,
        y < 16,
    ensures
        executed(s, Instruction::Sub { x, y }, pressed, random).registers[0xF] == flag(
            s.registers[x as int] - s.registers[y as int] >= 0,
        ),
        x != 0xF ==> executed(s, Instruction::Sub { x, y }, pressed, random).registers[x as int]
            == (s.registers[x as int] - s.registers[y as int]) % 0x100,
{
}

/// An addition followed by the subtraction of the same register gives `Vx`
/// back where the two registers differ and neither is `VF`. `VF` is not
/// given back: it holds the flag of the subtraction.
pub proof fn lemma_add_then_sub(s: MachineState, x: u8, y: u8, pressed: Seq<Scancode>, random: u8)
    requires
        s.wf(),
        x < 15,
        y < 15,
        x != y,
    ensures
        ({
            let added = executed(s, Instruction::Add { x, y }, pressed, random);
            let back = executed(added, Instruction::Sub { x, y }, pressed, random);
            &&& back.registers[x as int] == s.registers[x as int]
            &&& back.registers[0xF] == flag(
                (s.registers[x as int] + s.registers[y as int]) % 0x100 >= s.registers[y as int],
            )
        }),
{
}

/// Drawing the same sprite twice at the same place gives the display back,
/// and the second draw sets `VF` exactly if the first one turned a pixel on.
/// The coordinate registers are not `VF`, which the first draw overwrites.
pub proof fn lemma_draw_twice(s: MachineState, x: u8, y: u8, n: u8)
    requires
        s.wf(),
        x < 15,
        y < 15,
        n <= 15,
        s.index + n <= MEMORY_SIZE,
    ensures
        ({
            let once = drawn(s, x, y, n);
            let twice = drawn(once, x, y, n);
            &&& twice.display == s.display
            &&& twice.registers[0xF] == flag(
                exists|r: int, col: u64|
                    0 <= r < 32 && col < 64 && #[trigger] turned_on(s.display, once.display, r, col),
            )
            &&& forall|i: int| 0 <= i < 15 ==> twice.registers[i] == s.registers[i]
            &&& twice.memory == s.memory
            &&& twice.index == s.index
            &&& twice.pc == s.pc
            &&& twice.stack == s.stack
        }),
{
    let sprite = sprite_at_index(s, n);
    let vx = s.registers[x as int];
    let vy = s.registers[y as int];
    let once = drawn(s, x, y, n);
    assert(sprite_at_index(once, n) == sprite);
    assert(once.registers[x as int] == vx);
    assert(once.registers[y as int] == vy);
    lemma_draw_twice_restores(s.display, sprite, vx, vy);
    lemma_second_draw_collides(s.display, sprite, vx, vy);
}

/// A call followed by a return resumes behind the call, with the stack as
/// it was.
pub proof fn lemma_call_then_return(
    s: MachineState,
    addr: u16,
    pressed: Seq<Scancode>,
    random: u8,
)
    requires
        s.wf(),
        s.stack.len() < STACK_LIMIT,
    ensures
        ({
            let called = executed(s, Instruction::Call { addr }, pressed, random);
            let back = executed(called, Instruction::Return, pressed, random);
            &&& execution_fault(s, Instruction::Call { addr }) is None
            &&& called.pc == addr
            &&& called.stack.len() == s.stack.len() + 1
            &&& execution_fault(called, Instruction::Return) is None
            &&& back == s
        }),
{
    let called = executed(s, Instruction::Call { addr }, pressed, random);
    let back = executed(called, Instruction::Return, pressed, random);
    assert(back.stack =~= s.stack);
    assert(back =~= s);
}

/// A call succeeds exactly while the stack holds fewer than sixteen return
/// addresses, and a return exactly while it holds one.
pub proof fn lemma_stack_discipline(s: MachineState, addr: u16)
    requires
        s.wf(),
    ensures
        execution_fault(s, Instruction::Call { addr }) == (if s.stack.len() == STACK_LIMIT {
            Some(Fault::StackOverflow)
        } else {
            None
        }),
        execution_fault(s, Instruction::Return) == (if s.stack.len() == 0 {
            Some(Fault::StackUnderflow)
        } else {
            None
        }),
{
}

/// While no key press is waiting, a cycle on a wait-for-key instruction
/// changes nothing: the machine stays on the instruction, cycle after cycle.
pub proof fn lemma_wait_key_blocks(s: MachineState, x: u8, pressed: Seq<Scancode>, random: u8)
    requires
        s.wf(),
        pc_in_bounds(s),
        decoded(fetched(s)) == Some(Instruction::WaitKey { x }),
        s.pending_keys.len() == 0,
    ensures
        fault_of(s) is None,
        successor(s, pressed, random) == s,
{
    assert(successor(s, pressed, random) =~= s);
}

/// Once a key press is waiting, a cycle on a wait-for-key instruction moves
/// on: `Vx` holds the oldest press and the queue is empty.
pub proof fn lemma_wait_key_resumes(s: MachineState, x: u8, pressed: Seq<Scancode>, random: u8)
    requires
        s.wf(),
        pc_in_bounds(s),
        decoded(fetched(s)) == Some(Instruction::WaitKey { x }),
        s.pending_keys.len() > 0,
    ensures
        fault_of(s) is None,
        successor(s, pressed, random) == (MachineState {
            pc: (s.pc + 2) as u16,
            registers: s.registers.update(x as int, s.pending_keys[0]),
            pending_keys: Seq::empty(),
            ..s
        }),
{
    assert(successor(s, pressed, random) =~= (MachineState {
        pc: (s.pc + 2) as u16,
        registers: s.registers.update(x as int, s.pending_keys[0]),
        pending_keys: Seq::empty(),
        ..s
    }));
}

/// The three bytes of a BCD store are decimal digits, and they spell the
/// value.
pub proof fn lemma_bcd_digits(s: MachineState, value: u8)
    requires
        s.wf(),
        s.index + 2 < MEMORY_SIZE,
    ensures
        ({
            let memory = bcd_stored(s, value);
            &&& memory[s.index as int] <= 9
            &&& memory[s.index + 1] <= 9
            &&& memory[s.index + 2] <= 9
            &&& memory[s.index as int] * 100 + memory[s.index + 1] * 10 + memory[s.index + 2]
                == value
        }),
{
}

/// The byte drawn for a cycle matters to a random instruction alone.
pub proof fn lemma_random_byte_matters_to_random_only(
    s: MachineState,
    pressed: Seq<Scancode>,
    first: u8,
    second: u8,
)
    requires
        !(pc_in_bounds(s) && decoded(fetched(s)) matches Some(Instruction::Random { x, kk })),
    ensures
        successor(s, pressed, first) == successor(s, pressed, second),
{
}

/// The keys held down matter to the two key-skip instructions alone.
pub proof fn lemma_keys_matter_to_key_skips_only(
    s: MachineState,
    first: Seq<Scancode>,
    second: Seq<Scancode>,
    random: u8,
)
    requires
        !(pc_in_bounds(s) && decoded(fetched(s)) matches Some(
            Instruction::SkipKeyPressed { x },
        )),
        !(pc_in_bounds(s) && decoded(fetched(s)) matches Some(
            Instruction::SkipKeyNotPressed { x },
        )),
    ensures
        successor(s, first, random) == successor(s, second, random),
{
}

/// No two keypad keys share a physical key.
pub proof fn lemma_keypad_layout_distinct(a: int, b: int)
    requires
        0 <= a < 16,
        0 <= b < 16,
        keypad_layout()[a] == keypad_layout()[b],
    ensures
        a == b,
{
}

} // verus!
