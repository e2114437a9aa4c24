//! The machine: its state in executable form and its instruction cycle.

use vstd::prelude::*;
use crate::instruction::{decode, Instruction};
use crate::keyboard::{is_hex_key_pressed, Scancode};
use crate::random::random_byte;
use crate::sprite::{drawn_rows, place_sprite_row, row_collides, sprite_collides, sprite_line};
use crate::state::{
    advanced, bcd_stored, called, cleared, digit_sprites, drawn, executed, execution_fault,
    fault_of, initial_state, instruction_in_memory, key_awaited, lemma_executed_preserves_wf,
    lemma_ticked_preserves_wf, loaded, operands_in_memory, registers_loaded, registers_stored,
    cycle_result, returned, skipped_if, sprite_at_index, successor, ticked, with_register,
    with_result_and_flag, Fault, MachineState, MEMORY_SIZE,
};

verus! {

/// Why a program was not loaded.
#[derive(Clone, Copy, Debug, PartialEq, Eq, Structural)]
pub enum LoadError {
    /// The program does not fit between its start address and the end of
    /// memory.
    OutOfMemory,
}

/// A CHIP-8 machine. Its view is the [`MachineState`] that it stands for;
/// the random generator is no part of it.
pub struct Chip8 {
    pc: u16,
    memory: [u8; 4096],
    registers: [u8; 16],
    /// The register `I`.
    addr_register: u16,
    /// Return addresses, at most sixteen, the most recent last.
    addr_stack: Vec<u16>,
    delay_timer: u8,
    sound_timer: u8,
    /// The rows of the framebuffer, top to bottom.
    display: [u64; 32],
    /// Where the bytes of random instructions come from.
    rand_thread: rand::rngs::ThreadRng,
    /// Keypad keys pressed and not yet consumed, the oldest first.
    pressed_keys: Vec<u8>,
}

impl View for Chip8 {
    type V = MachineState;

    closed spec fn view(&self) -> MachineState {
        MachineState {
            pc: self.pc,
            memory: self.memory@,
            registers: self.registers@,
            index: self.addr_register,
            stack: self.addr_stack@,
            delay_timer: self.delay_timer,
            sound_timer: self.sound_timer,
            display: self.display@,
            pending_keys: self.pressed_keys@,
        }
    }
}

/// The low bit, the high bit and the right shift of a byte, stated by
/// arithmetic.
proof fn lemma_shift_right(a: u8)
    by (bit_vector)
    ensures
        a & 1 == a % 2,
        a >> 1 == a / 2,
        a >> 7 == a / 0x80,
{
}

/// The left shift of a byte, stated by arithmetic.
proof fn lemma_shift_left(a: u8)
    by (bit_vector)
    ensures
        a << 1 == (a * 2) % 0x100,
{
}

/// Two bytes joined into a big-endian word, stated by arithmetic.
proof fn lemma_word_of_bytes(high: u8, low: u8)
    by (bit_vector)
    ensures
        (((high as u16) << 8) | (low as u16)) == high * 0x100 + low,
{
}

/// The table of the built-in digit sprites.
fn digit_sprite_table() -> (table: [u8; 80])
    ensures
        table@ == digit_sprites(),
{
    let table: [u8; 80] = [
        0xF0, 0x90, 0x90, 0x90, 0xF0,
        0x20, 0x60, 0x20, 0x20, 0x70,
        0xF0, 0x10, 0xF0, 0x80, 0xF0,
        0xF0, 0x10, 0xF0, 0x10, 0xF0,
        0x90, 0x90, 0xF0, 0x10, 0x10,
        0xF0, 0x80, 0xF0, 0x10, 0xF0,
        0xF0, 0x80, 0xF0, 0x90, 0xF0,
        0xF0, 0x10, 0x20, 0x40, 0x40,
        0xF0, 0x90, 0xF0, 0x90, 0xF0,
        0xF0, 0x90, 0xF0, 0x10, 0xF0,
        0xF0, 0x90, 0xF0, 0x90, 0x90,
        0xE0, 0x90, 0xE0, 0x90, 0xE0,
        0xF0, 0x80, 0x80, 0x80, 0xF0,
        0xE0, 0x90, 0x90, 0x90, 0xE0,
        0xF0, 0x80, 0xF0, 0x80, 0xF0,
        0xF0, 0x80, 0xF0, 0x80, 0x80,
    ];
    assert(table@ =~= digit_sprites());
    table
}

impl Chip8 {
    /// A machine in its initial state, with a handle to the thread's random
    /// generator.
    pub fn new() -> (machine: Chip8)
        ensures
            machine@ == initial_state(),
            machine@.wf(),
    {
        let mut memory = [0u8; 4096];
        let sprites = digit_sprite_table();
        let mut i: usize = 0;
        while i < 80
            invariant
                i <= 80,
                sprites@ == digit_sprites(),
                forall|a: int| 0 <= a < i ==> memory@[a] == digit_sprites()[a],
                forall|a: int| i <= a < 4096 ==> memory@[a] == 0u8,
            decreases 80 - i,
        {
            memory[i] = sprites[i];
            i += 1;
        }
        let machine = Chip8 {
            pc: 0x200,
            memory,
            registers: [0; 16],
            addr_register: 0,
            addr_stack: Vec::with_capacity(16),
            delay_timer: 0,
            sound_timer: 0,
            display: [0; 32],
            rand_thread: rand::thread_rng(),
            pressed_keys: Vec::new(),
        };
        assert(machine@ =~= initial_state());
        machine
    }

    /// Records the press of keypad key `key`, behind the presses already
    /// waiting.
    pub fn register_key_press(&mut self, key: u8)
        requires
            key <= 0xF,
        ensures
            final(self)@ == (MachineState {
                pending_keys: old(self)@.pending_keys.push(key),
                ..old(self)@
            }),
            old(self)@.wf() ==> final(self)@.wf(),
    {
        self.pressed_keys.push(key);
    }

    /// One tick of the 60 Hz clock: each timer that is not yet zero goes
    /// down by one.
    pub fn tick_timers(&mut self)
        ensures
            final(self)@ == ticked(old(self)@),
            old(self)@.wf() ==> final(self)@.wf(),
    {
        if self.delay_timer > 0 {
            self.delay_timer -= 1;
        }
        if self.sound_timer > 0 {
            self.sound_timer -= 1;
        }
        proof {
            if old(self)@.wf() {
                lemma_ticked_preserves_wf(old(self)@);
            }
        }
    }

    /// Copies `program` into memory from `start_address` on, or leaves the
    /// machine as it is where the program would run past the end of memory.
    pub fn load_program(&mut self, program: Vec<u8>, start_address: usize) -> (result: Result<
        (),
        LoadError,
    >)
        ensures
            result is Ok <==> start_address + program@.len() <= MEMORY_SIZE,
            result is Ok ==> final(self)@ == (MachineState {
                memory: loaded(old(self)@.memory, program@, start_address as int),
                ..old(self)@
            }),
            result is Err ==> result == Err::<(), LoadError>(LoadError::OutOfMemory),
            result is Err ==> final(self)@ == old(self)@,
            old(self)@.wf() ==> final(self)@.wf(),
    {
        if start_address > 4096 || program.len() > 4096 - start_address {
            return Err(LoadError::OutOfMemory);
        }
        let mut i: usize = 0;
        while i < program.len()
            invariant
                i <= program@.len(),
                start_address + program@.len() <= 4096,
                forall|a: int|
                    start_address <= a < start_address + i ==> self.memory@[a] == program@[a
                        - start_address],
                forall|a: int|
                    0 <= a < 4096 && !(start_address <= a < start_address + i) ==> self.memory@[a]
                        == old(self).memory@[a],
                self.pc == old(self).pc,
                self.registers == old(self).registers,
                self.addr_register == old(self).addr_register,
                self.addr_stack == old(self).addr_stack,
                self.delay_timer == old(self).delay_timer,
                self.sound_timer == old(self).sound_timer,
                self.display == old(self).display,
                self.pressed_keys == old(self).pressed_keys,
            decreases program@.len() - i,
        {
            self.memory[start_address + i] = program[i];
            i += 1;
        }
        assert(self@ =~= (MachineState {
            memory: loaded(old(self)@.memory, program@, start_address as int),
            ..old(self)@
        }));
        Ok(())
    }

    /// Draws the `n`-byte sprite at the address register at column `Vx`, row
    /// `Vy`, wrapping around the right and bottom edges, and sets `VF` to 1
    /// if the sprite met a lit pixel, else to 0.
    pub fn xor_sprite(&mut self, x: u8, y: u8, n: u8)
        requires
            x < 16,
            y < 16,
            n <= 15,
            old(self)@.index + n <= MEMORY_SIZE,
        ensures
            final(self)@ == drawn(old(self)@, x, y, n),
            old(self)@.wf() ==> final(self)@.wf(),
    {
        let vx = self.registers[x as usize];
        let vy = self.registers[y as usize];
        let base = self.addr_register as usize;
        let ghost before = old(self)@.display;
        let ghost sprite = sprite_at_index(old(self)@, n);
        let mut collision = false;
        let mut i: usize = 0;
        while i < n as usize
            invariant
                i <= n <= 15,
                base + n <= 4096,
                base == old(self).addr_register,
                before == old(self).display@,
                sprite == old(self).memory@.subrange(base as int, base + n),
                self.display@ == drawn_rows(before, sprite.take(i as int), vx, vy),
                collision == sprite_collides(before, sprite.take(i as int), vx, vy),
                self.pc == old(self).pc,
                self.memory == old(self).memory,
                self.registers == old(self).registers,
                self.addr_register == old(self).addr_register,
                self.addr_stack == old(self).addr_stack,
                self.delay_timer == old(self).delay_timer,
                self.sound_timer == old(self).sound_timer,
                self.pressed_keys == old(self).pressed_keys,
            decreases n - i,
        {
            let bits = place_sprite_row(self.memory[base + i], vx);
            let r = (vy as usize + i) % 32;
            let ghost shown = self.display@;
            proof {
                assert(sprite[i as int] == self.memory@[base + i]);
                assert(sprite_line(r as int, vy) == i);
                assert(shown[r as int] == before[r as int]);
                assert(row_collides(before, sprite.take(i + 1), vx, vy, i as int) == (before[r as int]
                    & bits != 0));
                let shorter = sprite.take(i as int);
                let longer = sprite.take(i + 1);
                if sprite_collides(before, shorter, vx, vy) {
                    let j = choose|j: int|
                        0 <= j < shorter.len() && row_collides(before, shorter, vx, vy, j);
                    assert(row_collides(before, longer, vx, vy, j));
                }
                if sprite_collides(before, longer, vx, vy) {
                    let j = choose|j: int|
                        0 <= j < longer.len() && row_collides(before, longer, vx, vy, j);
                    if j < i {
                        assert(row_collides(before, shorter, vx, vy, j));
                    }
                }
            }
            if self.display[r] & bits != 0 {
                collision = true;
            }
            self.display[r] = self.display[r] ^ bits;
            proof {
                assert(self.display@ =~= drawn_rows(before, sprite.take(i + 1), vx, vy));
            }
            i += 1;
        }
        proof {
            assert(sprite.take(n as int) =~= sprite);
        }
        self.registers[0xF] = if collision {
            1
        } else {
            0
        };
        assert(self@ =~= drawn(old(self)@, x, y, n));
    }

    /// Stores the hundreds, tens and units digits of `Vx` at the address
    /// register and the two addresses after it.
    fn store_bcd(&mut self, x: u8)
        requires
            x < 16,
            old(self)@.index + 2 < MEMORY_SIZE,
        ensures
            final(self)@ == (MachineState {
                memory: bcd_stored(old(self)@, old(self)@.registers[x as int]),
                ..old(self)@
            }),
    {
        let value = self.registers[x as usize];
        let at = self.addr_register as usize;
        self.memory[at] = value / 100;
        self.memory[at + 1] = (value / 10) % 10;
        self.memory[at + 2] = value % 10;
        assert(self@ =~= (MachineState {
            memory: bcd_stored(old(self)@, old(self)@.registers[x as int]),
            ..old(self)@
        }));
    }

    /// Stores `V0..=Vx` in memory from the address register on.
    fn store_registers(&mut self, x: u8)
        requires
            x < 16,
            old(self)@.index + x < MEMORY_SIZE,
        ensures
            final(self)@ == (MachineState {
                memory: registers_stored(old(self)@, x),
                ..old(self)@
            }),
    {
        let at = self.addr_register as usize;
        let mut i: usize = 0;
        while i <= x as usize
            invariant
                i <= x + 1,
                x < 16,
                at + x < 4096,
                at == old(self).addr_register,
                forall|a: int| at <= a < at + i ==> self.memory@[a] == old(self).registers@[a - at],
                forall|a: int|
                    0 <= a < 4096 && !(at <= a < at + i) ==> self.memory@[a] == old(
                        self,
                    ).memory@[a],
                self.pc == old(self).pc,
                self.registers == old(self).registers,
                self.addr_register == old(self).addr_register,
                self.addr_stack == old(self).addr_stack,
                self.delay_timer == old(self).delay_timer,
                self.sound_timer == old(self).sound_timer,
                self.display == old(self).display,
                self.pressed_keys == old(self).pressed_keys,
            decreases x + 1 - i,
        {
            self.memory[at + i] = self.registers[i];
            i += 1;
        }
        assert(self@ =~= (MachineState {
            memory: registers_stored(old(self)@, x),
            ..old(self)@
        }));
    }

    /// Loads `V0..=Vx` from memory from the address register on.
    fn load_registers(&mut self, x: u8)
        requires
            x < 16,
            old(self)@.index + x < MEMORY_SIZE,
        ensures
            final(self)@ == (MachineState {
                registers: registers_loaded(old(self)@, x),
                ..old(self)@
            }),
    {
        let at = self.addr_register as usize;
        let mut i: usize = 0;
        while i <= x as usize
            invariant
                i <= x + 1,
                x < 16,
                at + x < 4096,
                at == old(self).addr_register,
                forall|j: int| 0 <= j < i ==> self.registers@[j] == old(self).memory@[at + j],
                forall|j: int| i <= j < 16 ==> self.registers@[j] == old(self).registers@[j],
                self.pc == old(self).pc,
                self.memory == old(self).memory,
                self.addr_register == old(self).addr_register,
                self.addr_stack == old(self).addr_stack,
                self.delay_timer == old(self).delay_timer,
                self.sound_timer == old(self).sound_timer,
                self.display == old(self).display,
                self.pressed_keys == old(self).pressed_keys,
            decreases x + 1 - i,
        {
            self.registers[i] = self.memory[at + i];
            i += 1;
        }
        assert(self@ =~= (MachineState {
            registers: registers_loaded(old(self)@, x),
            ..old(self)@
        }));
    }

    /// Sets `Vx` to `value`.
    fn set_register(&mut self, x: u8, value: u8)
        requires
            x < 16,
        ensures
            final(self)@ == with_register(old(self)@, x, value),
    {
        self.registers[x as usize] = value;
        assert(self@ =~= with_register(old(self)@, x, value));
    }

    /// Turns every pixel of the display off.
    fn clear_screen(&mut self)
        ensures
            final(self)@ == cleared(old(self)@),
    {
        self.display = [0; 32];
        assert(self@ =~= cleared(old(self)@));
    }

    /// Returns from a subroutine: the program counter goes back to the
    /// address on top of the stack.
    fn return_from_subroutine(&mut self) -> (result: Result<(), Fault>)
        ensures
            result == cycle_result(execution_fault(old(self)@, Instruction::Return)),
            final(self)@ == returned(old(self)@),
    {
        match self.addr_stack.pop() {
            Some(addr) => {
                self.pc = addr;
                assert(self@ =~= returned(old(self)@));
                Ok(())
            },
            None => {
                assert(self@ =~= old(self)@);
                Err(Fault::StackUnderflow)
            },
        }
    }

    /// Calls the subroutine at `addr`: the program counter goes on the stack
    /// and then to `addr`.
    fn call_subroutine(&mut self, addr: u16) -> (result: Result<(), Fault>)
        ensures
            result == cycle_result(execution_fault(old(self)@, Instruction::Call { addr })),
            final(self)@ == called(old(self)@, addr),
    {
        if self.addr_stack.len() >= 16 {
            return Err(Fault::StackOverflow);
        }
        self.addr_stack.push(self.pc);
        self.pc = addr;
        assert(self@ =~= called(old(self)@, addr));
        Ok(())
    }

    /// Waits for a key: with no press waiting the program counter goes back
    /// to the instruction; else the oldest press goes to `Vx` and the queue
    /// is emptied.
    fn wait_key(&mut self, x: u8)
        requires
            x < 16,
            old(self)@.pc >= 2,
        ensures
            final(self)@ == key_awaited(old(self)@, x),
    {
        if self.pressed_keys.len() == 0 {
            self.pc = self.pc - 2;
        } else {
            self.registers[x as usize] = self.pressed_keys[0];
            self.pressed_keys.clear();
        }
        assert(self@ =~= key_awaited(old(self)@, x));
    }

    /// Sets `Vx` to `value` and then `VF` to 1 if `vf` holds, else to 0.
    fn set_result_and_flag(&mut self, x: u8, value: u8, vf: bool)
        requires
            x < 16,
        ensures
            final(self)@ == with_result_and_flag(old(self)@, x, value, vf),
    {
        self.registers[x as usize] = value;
        self.registers[0xF] = if vf {
            1
        } else {
            0
        };
        assert(self@ =~= with_result_and_flag(old(self)@, x, value, vf));
    }

    /// Moves the program counter past one more instruction if `condition`
    /// holds.
    fn skip_if(&mut self, condition: bool)
        requires
            old(self)@.pc <= MEMORY_SIZE,
        ensures
            final(self)@ == skipped_if(old(self)@, condition),
    {
        if condition {
            self.pc = self.pc + 2;
        }
        assert(self@ =~= skipped_if(old(self)@, condition));
    }

    /// Carries out `instruction` on a machine whose program counter already
    /// points past it.
    fn execute(&mut self, instruction: Instruction, pressed: &Vec<Scancode>, random: u8) -> (result:
        Result<(), Fault>)
        requires
            instruction.wf(),
            2 <= old(self)@.pc <= MEMORY_SIZE,
            instruction_in_memory(old(self)@, instruction),
        ensures
            result == cycle_result(execution_fault(old(self)@, instruction)),
            final(self)@ == executed(old(self)@, instruction, pressed@, random),
            old(self)@.wf() ==> final(self)@.wf(),
    {
        proof {
            if old(self)@.wf() {
                lemma_executed_preserves_wf(old(self)@, instruction, pressed@, random);
            }
        }
        match instruction {
            Instruction::ClearScreen => {
                self.clear_screen();
                Ok(())
            },
            Instruction::Return => self.return_from_subroutine(),
            Instruction::Jump { addr } => {
                self.pc = addr;
                Ok(())
            },
            Instruction::Call { addr } => self.call_subroutine(addr),
            Instruction::SkipEqualByte { x, kk } => {
                let skip = self.registers[x as usize] == kk;
                self.skip_if(skip);
                Ok(())
            },
            Instruction::SkipNotEqualByte { x, kk } => {
                let skip = self.registers[x as usize] != kk;
                self.skip_if(skip);
                Ok(())
            },
            Instruction::SkipEqual { x, y } => {
                let skip = self.registers[x as usize] == self.registers[y as usize];
                self.skip_if(skip);
                Ok(())
            },
            Instruction::LoadByte { x, kk } => {
                self.set_register(x, kk);
                Ok(())
            },
            Instruction::AddByte { x, kk } => {
                let sum = self.registers[x as usize].wrapping_add(kk);
                self.set_register(x, sum);
                Ok(())
            },
            Instruction::Load { x, y } => {
                let value = self.registers[y as usize];
                self.set_register(x, value);
                Ok(())
            },
            Instruction::Or { x, y } => {
                let value = self.registers[x as usize] | self.registers[y as usize];
                self.set_register(x, value);
                Ok(())
            },
            Instruction::And { x, y } => {
                let value = self.registers[x as usize] & self.registers[y as usize];
                self.set_register(x, value);
                Ok(())
            },
            Instruction::Xor { x, y } => {
                let value = self.registers[x as usize] ^ self.registers[y as usize];
                self.set_register(x, value);
                Ok(())
            },
            Instruction::Add { x, y } => {
                let vx = self.registers[x as usize];
                let vy = self.registers[y as usize];
                let carry = vx as u16 + vy as u16 > 0xFF;
                self.set_result_and_flag(x, vx.wrapping_add(vy), carry);
                Ok(())
            },
            Instruction::Sub { x, y } => {
                let vx = self.registers[x as usize];
                let vy = self.registers[y as usize];
                self.set_result_and_flag(x, vx.wrapping_sub(vy), vx >= vy);
                Ok(())
            },
            Instruction::ShiftRight { x } => {
                let vx = self.registers[x as usize];
                proof {
                    lemma_shift_right(vx);
                }
                self.set_result_and_flag(x, vx >> 1, vx & 1 == 1);
                Ok(())
            },
            Instruction::SubFrom { x, y } => {
                let vx = self.registers[x as usize];
                let vy = self.registers[y as usize];
                self.set_result_and_flag(x, vy.wrapping_sub(vx), vy >= vx);
                Ok(())
            },
            Instruction::ShiftLeft { x } => {
                let vx = self.registers[x as usize];
                proof {
                    lemma_shift_right(vx);
                    lemma_shift_left(vx);
                }
                self.set_result_and_flag(x, vx << 1, vx >> 7 == 1);
                Ok(())
            },
            Instruction::SkipNotEqual { x, y } => {
                let skip = self.registers[x as usize] != self.registers[y as usize];
                self.skip_if(skip);
                Ok(())
            },
            Instruction::LoadIndex { addr } => {
                self.addr_register = addr;
                Ok(())
            },
            Instruction::JumpOffset { addr } => {
                self.pc = self.registers[0] as u16 + addr;
                Ok(())
            },
            Instruction::Random { x, kk } => {
                self.set_register(x, random & kk);
                Ok(())
            },
            Instruction::Draw { x, y, n } => {
                self.xor_sprite(x, y, n);
                Ok(())
            },
            Instruction::SkipKeyPressed { x } => {
                let held = is_hex_key_pressed(pressed, self.registers[x as usize]);
                self.skip_if(held);
                Ok(())
            },
            Instruction::SkipKeyNotPressed { x } => {
                let held = is_hex_key_pressed(pressed, self.registers[x as usize]);
                self.skip_if(!held);
                Ok(())
            },
            Instruction::LoadDelay { x } => {
                let value = self.delay_timer;
                self.set_register(x, value);
                Ok(())
            },
            Instruction::WaitKey { x } => {
                self.wait_key(x);
                Ok(())
            },
            Instruction::SetDelay { x } => {
                self.delay_timer = self.registers[x as usize];
                Ok(())
            },
            Instruction::SetSound { x } => {
                self.sound_timer = self.registers[x as usize];
                Ok(())
            },
            Instruction::AddIndex { x } => {
                self.addr_register = self.addr_register.wrapping_add(
                    self.registers[x as usize] as u16,
                );
                Ok(())
            },
            Instruction::LoadDigit { x } => {
                self.addr_register = 5 * (self.registers[x as usize] as u16);
                Ok(())
            },
            Instruction::StoreBcd { x } => {
                self.store_bcd(x);
                Ok(())
            },
            Instruction::StoreRegisters { x } => {
                self.store_registers(x);
                Ok(())
            },
            Instruction::LoadRegisters { x } => {
                self.load_registers(x);
                Ok(())
            },
        }
    }

    /// Whether the memory operands of the next instruction lie within
    /// memory, so that the next cycle can be run.
    pub fn operands_in_memory(&self) -> (fits: bool)
        ensures
            fits == operands_in_memory(self@),
    {
        if self.pc > 4094 {
            return true;
        }
        let at = self.pc as usize;
        proof {
            lemma_word_of_bytes(self.memory@[at as int], self.memory@[at + 1]);
        }
        let word: u16 = (self.memory[at] as u16) << 8 | (self.memory[at + 1] as u16);
        let index = self.addr_register as usize;
        match decode(word) {
            Some(Instruction::Draw { x, y, n }) => index + n as usize <= 4096,
            Some(Instruction::StoreBcd { x }) => index + 2 < 4096,
            Some(Instruction::StoreRegisters { x }) => index + (x as usize) < 4096,
            Some(Instruction::LoadRegisters { x }) => index + (x as usize) < 4096,
            _ => true,
        }
    }

    /// Runs one instruction cycle with `random` as the byte that a random
    /// instruction draws and `pressed` as the physical keys held down.
    ///
    /// The cycle fetches the word at the program counter, moves the program
    /// counter past it, decodes the word and carries the instruction out.
    pub fn step(&mut self, pressed: &Vec<Scancode>, random: u8) -> (result: Result<(), Fault>)
        requires
            operands_in_memory(old(self)@),
        ensures
            result == cycle_result(fault_of(old(self)@)),
            final(self)@ == successor(old(self)@, pressed@, random),
            old(self)@.wf() ==> final(self)@.wf(),
    {
        if self.pc > 4094 {
            return Err(Fault::PcOutOfBounds);
        }
        let at = self.pc;
        proof {
            lemma_word_of_bytes(self.memory@[at as int], self.memory@[at + 1]);
        }
        let word: u16 = (self.memory[at as usize] as u16) << 8 | (self.memory[at as usize
            + 1] as u16);
        self.pc = at + 2;
        assert(self@ =~= advanced(old(self)@));
        match decode(word) {
            None => Err(Fault::UnknownOpcode { opcode: word, address: at }),
            Some(instruction) => self.execute(instruction, pressed, random),
        }
    }

    /// Runs one instruction cycle, drawing the byte for a random instruction
    /// from the machine's generator.
    pub fn next_state(&mut self, pressed: &Vec<Scancode>) -> (result: Result<(), Fault>)
        requires
            operands_in_memory(old(self)@),
        ensures
            result == cycle_result(fault_of(old(self)@)),
            exists|random: u8| final(self)@ == #[trigger] successor(old(self)@, pressed@, random),
            old(self)@.wf() ==> final(self)@.wf(),
    {
        let random = random_byte(&mut self.rand_thread);
        self.step(pressed, random)
    }

    /// Runs one instruction cycle with no key held down.
    pub fn clock(&mut self) -> (result: Result<(), Fault>)
        requires
            operands_in_memory(old(self)@),
        ensures
            result == cycle_result(fault_of(old(self)@)),
            exists|random: u8|
                final(self)@ == #[trigger] successor(old(self)@, Seq::empty(), random),
            old(self)@.wf() ==> final(self)@.wf(),
    {
        let pressed: Vec<Scancode> = Vec::new();
        self.next_state(&pressed)
    }

    /// The program counter.
    pub fn pc(&self) -> (pc: u16)
        ensures
            pc == self@.pc,
    {
        self.pc
    }

    /// The address register `I`.
    pub fn addr_register(&self) -> (index: u16)
        ensures
            index == self@.index,
    {
        self.addr_register
    }

    /// The registers `V0` to `VF`.
    pub fn registers(&self) -> (registers: &[u8; 16])
        ensures
            registers@ == self@.registers,
    {
        &self.registers
    }

    /// The 4096 bytes of memory.
    pub fn memory(&self) -> (memory: &[u8; 4096])
        ensures
            memory@ == self@.memory,
    {
        &self.memory
    }

    /// The 32 rows of the framebuffer, top to bottom.
    pub fn display(&self) -> (display: &[u64; 32])
        ensures
            display@ == self@.display,
    {
        &self.display
    }

    /// The number of return addresses on the call stack.
    pub fn stack_depth(&self) -> (depth: usize)
        ensures
            depth == self@.stack.len(),
    {
        self.addr_stack.len()
    }

    /// The delay timer.
    pub fn delay_timer(&self) -> (timer: u8)
        ensures
            timer == self@.delay_timer,
    {
        self.delay_timer
    }

    /// The sound timer.
    pub fn sound_timer(&self) -> (timer: u8)
        ensures
            timer == self@.sound_timer,
    {
        self.sound_timer
    }
}

} // verus!
