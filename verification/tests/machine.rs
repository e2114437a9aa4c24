use chip8::chip8::{Chip8, LoadError};
use chip8::keyboard::{Scancode, CODE_NUM1, CODE_Q, CODE_V, CODE_X};
use chip8::state::Fault;

fn machine_with(program: &[u8]) -> Chip8 {
    let mut machine = Chip8::new();
    assert_eq!(machine.load_program(program.to_vec(), 0x200), Ok(()));
    machine
}

fn run(machine: &mut Chip8, cycles: usize) {
    let pressed: Vec<Scancode> = Vec::new();
    for _ in 0..cycles {
        assert!(machine.operands_in_memory());
        assert_eq!(machine.step(&pressed, 0), Ok(()));
    }
}

#[test]
fn new_machine_is_in_its_initial_state() {
    let machine = Chip8::new();
    assert_eq!(machine.pc(), 0x200);
    assert_eq!(machine.addr_register(), 0);
    assert_eq!(machine.registers(), &[0u8; 16]);
    assert_eq!(machine.display(), &[0u64; 32]);
    assert_eq!(machine.stack_depth(), 0);
    assert_eq!(machine.delay_timer(), 0);
    assert_eq!(machine.sound_timer(), 0);
    let memory = machine.memory();
    assert_eq!(&memory[0..5], &[0xF0, 0x90, 0x90, 0x90, 0xF0]);
    assert_eq!(&memory[5..10], &[0x20, 0x60, 0x20, 0x20, 0x70]);
    assert_eq!(&memory[35..40], &[0xF0, 0x10, 0x20, 0x40, 0x40]);
    assert_eq!(&memory[75..80], &[0xF0, 0x80, 0xF0, 0x80, 0x80]);
    assert!(memory[80..].iter().all(|&byte| byte == 0));
}

#[test]
fn load_program_copies_to_the_start_address() {
    let mut machine = Chip8::new();
    assert_eq!(machine.load_program(vec![1, 2, 3], 0x300), Ok(()));
    let memory = machine.memory();
    assert_eq!(&memory[0x2FF..0x304], &[0, 1, 2, 3, 0]);
    assert_eq!(memory[0], 0xF0);
    assert_eq!(machine.pc(), 0x200);
}

#[test]
fn load_program_fills_memory_to_its_last_byte() {
    let mut machine = Chip8::new();
    assert_eq!(machine.load_program(vec![7; 0x1000 - 0x200], 0x200), Ok(()));
    assert_eq!(machine.memory()[0xFFF], 7);
    assert_eq!(machine.load_program(Vec::new(), 0x1000), Ok(()));
}

#[test]
fn load_program_rejects_an_overrun() {
    let mut machine = Chip8::new();
    assert_eq!(
        machine.load_program(vec![7; 0x1000 - 0x200 + 1], 0x200),
        Err(LoadError::OutOfMemory)
    );
    assert!(machine.memory()[0x200..].iter().all(|&byte| byte == 0));
    assert_eq!(machine.load_program(vec![1], 0x1000), Err(LoadError::OutOfMemory));
    assert_eq!(machine.load_program(Vec::new(), 0x1001), Err(LoadError::OutOfMemory));
    assert_eq!(machine.load_program(vec![1], usize::MAX), Err(LoadError::OutOfMemory));
}

#[test]
fn clear_screen_program_leaves_display_dark_and_pc_behind_it() {
    let mut machine = machine_with(&[0x00, 0xE0]);
    let pressed: Vec<Scancode> = Vec::new();
    assert!(machine.operands_in_memory());
    assert_eq!(machine.next_state(&pressed), Ok(()));
    assert_eq!(machine.display(), &[0u64; 32]);
    assert_eq!(machine.pc(), 0x202);
}

#[test]
fn clear_screen_turns_drawn_pixels_off() {
    // D005 draws the digit 0, 00E0 clears.
    let mut machine = machine_with(&[0xD0, 0x05, 0x00, 0xE0]);
    run(&mut machine, 1);
    assert_ne!(machine.display(), &[0u64; 32]);
    run(&mut machine, 1);
    assert_eq!(machine.display(), &[0u64; 32]);
}

#[test]
fn add_sets_vf_to_the_carry() {
    // V1 := 200, V2 := 100, V1 += V2
    let mut machine = machine_with(&[0x61, 200, 0x62, 100, 0x81, 0x24]);
    run(&mut machine, 3);
    assert_eq!(machine.registers()[1], 44);
    assert_eq!(machine.registers()[0xF], 1);
    // V1 := 100, V2 := 155, V1 += V2
    let mut machine = machine_with(&[0x61, 100, 0x62, 155, 0x81, 0x24]);
    run(&mut machine, 3);
    assert_eq!(machine.registers()[1], 255);
    assert_eq!(machine.registers()[0xF], 0);
}

#[test]
fn sub_sets_vf_to_no_borrow() {
    // V1 := 44, V2 := 100, V1 -= V2
    let mut machine = machine_with(&[0x61, 44, 0x62, 100, 0x81, 0x25]);
    run(&mut machine, 3);
    assert_eq!(machine.registers()[1], 200);
    assert_eq!(machine.registers()[0xF], 0);
    // V1 := 100, V2 := 100, V1 -= V2
    let mut machine = machine_with(&[0x61, 100, 0x62, 100, 0x81, 0x25]);
    run(&mut machine, 3);
    assert_eq!(machine.registers()[1], 0);
    assert_eq!(machine.registers()[0xF], 1);
}

#[test]
fn add_then_sub_gives_vx_back_but_not_the_registers() {
    // V1 := 200, V2 := 100, V1 += V2, V1 -= V2
    let mut machine = machine_with(&[0x61, 200, 0x62, 100, 0x81, 0x24, 0x81, 0x25]);
    run(&mut machine, 2);
    let before = *machine.registers();
    run(&mut machine, 1);
    assert_eq!(machine.registers()[0xF], 1);
    run(&mut machine, 1);
    assert_eq!(machine.registers()[1], 200);
    assert_eq!(machine.registers()[0xF], 0);
    // With the flag register as an operand the sum is lost.
    // VF := 200, V2 := 100, VF += V2, VF -= V2
    let mut machine = machine_with(&[0x6F, 200, 0x62, 100, 0x8F, 0x24, 0x8F, 0x25]);
    run(&mut machine, 3);
    assert_eq!(machine.registers()[0xF], 1);
    run(&mut machine, 1);
    assert_eq!(machine.registers()[0xF], 0);
    assert_ne!(*machine.registers(), before);
    // With both operands the same register the result is zero.
    // V1 := 7, V1 += V1, V1 -= V1
    let mut machine = machine_with(&[0x61, 7, 0x81, 0x14, 0x81, 0x15]);
    run(&mut machine, 3);
    assert_eq!(machine.registers()[1], 0);
    assert_eq!(machine.registers()[0xF], 1);
}

#[test]
fn flag_is_written_after_the_result() {
    // VF := 0xFF, VF += VF: the flag replaces the sum.
    let mut machine = machine_with(&[0x6F, 0xFF, 0x8F, 0xF4]);
    run(&mut machine, 2);
    assert_eq!(machine.registers()[0xF], 1);
    // VF := 3, VF >>= 1: the flag is the bit shifted out.
    let mut machine = machine_with(&[0x6F, 3, 0x8F, 0x06]);
    run(&mut machine, 2);
    assert_eq!(machine.registers()[0xF], 1);
    // V1 := 5, VF := 9, V1 -= VF: the operand is read before the flag is set.
    let mut machine = machine_with(&[0x61, 5, 0x6F, 9, 0x81, 0xF5]);
    run(&mut machine, 3);
    assert_eq!(machine.registers()[1], 252);
    assert_eq!(machine.registers()[0xF], 0);
}

#[test]
fn add_byte_wraps_and_leaves_vf() {
    // VF := 9, V3 := 250, V3 += 10
    let mut machine = machine_with(&[0x6F, 9, 0x63, 250, 0x73, 10]);
    run(&mut machine, 3);
    assert_eq!(machine.registers()[3], 4);
    assert_eq!(machine.registers()[0xF], 9);
}

#[test]
fn logic_and_move_instructions() {
    // V1 := 0b1100, V2 := 0b1010, V3 := V1, V3 |= V2, V4 := V1, V4 &= V2, V5 := V1, V5 ^= V2
    let mut machine = machine_with(&[
        0x61, 0b1100, 0x62, 0b1010, 0x83, 0x10, 0x83, 0x21, 0x84, 0x10, 0x84, 0x22, 0x85, 0x10,
        0x85, 0x23,
    ]);
    run(&mut machine, 8);
    assert_eq!(machine.registers()[3], 0b1110);
    assert_eq!(machine.registers()[4], 0b1000);
    assert_eq!(machine.registers()[5], 0b0110);
    assert_eq!(machine.registers()[0xF], 0);
}

#[test]
fn shifts_work_on_vx_alone() {
    // V1 := 0x81, V2 := 0x40, V1 >>= 1 (y = 2 is not read)
    let mut machine = machine_with(&[0x61, 0x81, 0x62, 0x40, 0x81, 0x26]);
    run(&mut machine, 3);
    assert_eq!(machine.registers()[1], 0x40);
    assert_eq!(machine.registers()[2], 0x40);
    assert_eq!(machine.registers()[0xF], 1);
    // V1 := 0x81, V2 := 0x40, V1 <<= 1
    let mut machine = machine_with(&[0x61, 0x81, 0x62, 0x40, 0x81, 0x2E]);
    run(&mut machine, 3);
    assert_eq!(machine.registers()[1], 0x02);
    assert_eq!(machine.registers()[2], 0x40);
    assert_eq!(machine.registers()[0xF], 1);
    // V1 := 0x42, V1 >>= 1, then V1 <<= 1
    let mut machine = machine_with(&[0x61, 0x42, 0x81, 0x06, 0x81, 0x0E]);
    run(&mut machine, 2);
    assert_eq!(machine.registers()[1], 0x21);
    assert_eq!(machine.registers()[0xF], 0);
    run(&mut machine, 1);
    assert_eq!(machine.registers()[1], 0x42);
    assert_eq!(machine.registers()[0xF], 0);
}

#[test]
fn reverse_subtraction() {
    // V1 := 10, V2 := 30, V1 := V2 - V1
    let mut machine = machine_with(&[0x61, 10, 0x62, 30, 0x81, 0x27]);
    run(&mut machine, 3);
    assert_eq!(machine.registers()[1], 20);
    assert_eq!(machine.registers()[0xF], 1);
    // V1 := 30, V2 := 10, V1 := V2 - V1
    let mut machine = machine_with(&[0x61, 30, 0x62, 10, 0x81, 0x27]);
    run(&mut machine, 3);
    assert_eq!(machine.registers()[1], 236);
    assert_eq!(machine.registers()[0xF], 0);
}

#[test]
fn skips_compare_registers_and_bytes() {
    // V1 := 5; skip if V1 == 5
    let mut machine = machine_with(&[0x61, 5, 0x31, 5]);
    run(&mut machine, 2);
    assert_eq!(machine.pc(), 0x206);
    // V1 := 5; skip if V1 == 6
    let mut machine = machine_with(&[0x61, 5, 0x31, 6]);
    run(&mut machine, 2);
    assert_eq!(machine.pc(), 0x204);
    // V1 := 5; skip if V1 != 6
    let mut machine = machine_with(&[0x61, 5, 0x41, 6]);
    run(&mut machine, 2);
    assert_eq!(machine.pc(), 0x206);
    // V1 := 5; skip if V1 != 5
    let mut machine = machine_with(&[0x61, 5, 0x41, 5]);
    run(&mut machine, 2);
    assert_eq!(machine.pc(), 0x204);
    // V1 := 5; V2 := 5; skip if V1 == V2
    let mut machine = machine_with(&[0x61, 5, 0x62, 5, 0x51, 0x20]);
    run(&mut machine, 3);
    assert_eq!(machine.pc(), 0x208);
    // V1 := 5; V2 := 5; skip if V1 != V2
    let mut machine = machine_with(&[0x61, 5, 0x62, 5, 0x91, 0x20]);
    run(&mut machine, 3);
    assert_eq!(machine.pc(), 0x206);
    // V1 := 5; V2 := 6; skip if V1 != V2
    let mut machine = machine_with(&[0x61, 5, 0x62, 6, 0x91, 0x20]);
    run(&mut machine, 3);
    assert_eq!(machine.pc(), 0x208);
}

#[test]
fn jumps() {
    let mut machine = machine_with(&[0x1A, 0xBC]);
    run(&mut machine, 1);
    assert_eq!(machine.pc(), 0xABC);
    // V0 := 0xFF; jump to V0 + 0xFFF
    let mut machine = machine_with(&[0x60, 0xFF, 0xBF, 0xFF]);
    run(&mut machine, 2);
    assert_eq!(machine.pc(), 0x10FE);
}

#[test]
fn sixteen_calls_succeed_and_the_seventeenth_overflows() {
    // 2200 calls itself.
    let mut machine = machine_with(&[0x22, 0x00]);
    let pressed: Vec<Scancode> = Vec::new();
    for depth in 0..16 {
        assert_eq!(machine.stack_depth(), depth);
        assert!(machine.operands_in_memory());
        assert_eq!(machine.step(&pressed, 0), Ok(()));
        assert_eq!(machine.pc(), 0x200);
    }
    assert_eq!(machine.stack_depth(), 16);
    assert!(machine.operands_in_memory());
    assert_eq!(machine.step(&pressed, 0), Err(Fault::StackOverflow));
    assert_eq!(machine.stack_depth(), 16);
    assert_eq!(machine.pc(), 0x202);
}

#[test]
fn return_without_a_call_underflows() {
    let mut machine = machine_with(&[0x00, 0xEE]);
    let pressed: Vec<Scancode> = Vec::new();
    assert!(machine.operands_in_memory());
    assert_eq!(machine.step(&pressed, 0), Err(Fault::StackUnderflow));
    assert_eq!(machine.stack_depth(), 0);
    assert_eq!(machine.pc(), 0x202);
}

#[test]
fn call_and_return_resume_behind_the_call() {
    // 0x200: call 0x206; 0x206: return
    let mut machine = machine_with(&[0x22, 0x06, 0x00, 0x00, 0x00, 0x00, 0x00, 0xEE]);
    run(&mut machine, 1);
    assert_eq!(machine.pc(), 0x206);
    assert_eq!(machine.stack_depth(), 1);
    run(&mut machine, 1);
    assert_eq!(machine.pc(), 0x202);
    assert_eq!(machine.stack_depth(), 0);
}

#[test]
fn unknown_opcode_reports_word_and_address() {
    let mut machine = machine_with(&[0x60, 0x01, 0x51, 0x21]);
    let pressed: Vec<Scancode> = Vec::new();
    run(&mut machine, 1);
    assert!(machine.operands_in_memory());
    assert_eq!(
        machine.step(&pressed, 0),
        Err(Fault::UnknownOpcode { opcode: 0x5121, address: 0x202 })
    );
    assert_eq!(machine.pc(), 0x204);
    assert_eq!(machine.registers()[0], 1);
    // Behind the program memory is zero, which encodes nothing.
    assert_eq!(
        machine.step(&pressed, 0),
        Err(Fault::UnknownOpcode { opcode: 0x0000, address: 0x204 })
    );
}

#[test]
fn pc_out_of_bounds_is_a_fault_and_changes_nothing() {
    // jump to 0xFFF: no room for a word
    let mut machine = machine_with(&[0x1F, 0xFF]);
    let pressed: Vec<Scancode> = Vec::new();
    run(&mut machine, 1);
    assert_eq!(machine.pc(), 0xFFF);
    assert!(machine.operands_in_memory());
    assert_eq!(machine.step(&pressed, 0), Err(Fault::PcOutOfBounds));
    assert_eq!(machine.pc(), 0xFFF);
    assert_eq!(machine.next_state(&pressed), Err(Fault::PcOutOfBounds));
    assert_eq!(machine.clock(), Err(Fault::PcOutOfBounds));
}

#[test]
fn last_word_of_memory_is_executed() {
    let mut machine = Chip8::new();
    assert_eq!(machine.load_program(vec![0x1F, 0xFE], 0x200), Ok(()));
    assert_eq!(machine.load_program(vec![0x6A, 0x55], 0xFFE), Ok(()));
    run(&mut machine, 2);
    assert_eq!(machine.registers()[0xA], 0x55);
    assert_eq!(machine.pc(), 0x1000);
}

#[test]
fn random_instruction_masks_the_byte() {
    let mut machine = machine_with(&[0xC1, 0x0F, 0xC2, 0xF0]);
    let pressed: Vec<Scancode> = Vec::new();
    assert_eq!(machine.step(&pressed, 0xAB), Ok(()));
    assert_eq!(machine.registers()[1], 0x0B);
    assert_eq!(machine.step(&pressed, 0xAB), Ok(()));
    assert_eq!(machine.registers()[2], 0xA0);
}

#[test]
fn next_state_draws_a_byte_under_the_mask() {
    for _ in 0..64 {
        // V1 := 0xFF; V1 := random & 0x0F; V2 := 0xFF; V2 := random & 0
        let mut machine = machine_with(&[0x61, 0xFF, 0xC1, 0x0F, 0x62, 0xFF, 0xC2, 0x00]);
        let pressed: Vec<Scancode> = Vec::new();
        for _ in 0..4 {
            assert!(machine.operands_in_memory());
            assert_eq!(machine.next_state(&pressed), Ok(()));
        }
        assert!(machine.registers()[1] <= 0x0F);
        assert_eq!(machine.registers()[2], 0);
        assert_eq!(machine.pc(), 0x208);
    }
}

#[test]
fn clock_runs_a_cycle_with_no_key_held() {
    // V1 := 1; skip if key V1 not pressed
    let mut machine = machine_with(&[0x61, 0x01, 0xE1, 0xA1]);
    assert_eq!(machine.clock(), Ok(()));
    assert_eq!(machine.registers()[1], 1);
    assert_eq!(machine.clock(), Ok(()));
    assert_eq!(machine.pc(), 0x206);
}

#[test]
fn key_skips_consult_the_keys_held() {
    let q_and_v = vec![Scancode { code: CODE_Q }, Scancode { code: CODE_V }];
    let none: Vec<Scancode> = Vec::new();
    // V1 := 4 (on Q); skip if key V1 pressed
    let mut machine = machine_with(&[0x61, 0x04, 0xE1, 0x9E]);
    run(&mut machine, 1);
    assert_eq!(machine.step(&q_and_v, 0), Ok(()));
    assert_eq!(machine.pc(), 0x206);
    let mut machine = machine_with(&[0x61, 0x04, 0xE1, 0x9E]);
    run(&mut machine, 1);
    assert_eq!(machine.step(&none, 0), Ok(()));
    assert_eq!(machine.pc(), 0x204);
    // V1 := 0xF (on V); skip if key V1 not pressed
    let mut machine = machine_with(&[0x61, 0x0F, 0xE1, 0xA1]);
    run(&mut machine, 1);
    assert_eq!(machine.step(&q_and_v, 0), Ok(()));
    assert_eq!(machine.pc(), 0x204);
    // V1 := 1 (on 1); skip if key V1 not pressed
    let mut machine = machine_with(&[0x61, 0x01, 0xE1, 0xA1]);
    run(&mut machine, 1);
    assert_eq!(machine.step(&q_and_v, 0), Ok(()));
    assert_eq!(machine.pc(), 0x206);
    // V1 := 0x14: no such key, so it is never held
    let mut machine = machine_with(&[0x61, 0x14, 0xE1, 0x9E]);
    run(&mut machine, 1);
    assert_eq!(machine.step(&q_and_v, 0), Ok(()));
    assert_eq!(machine.pc(), 0x204);
    // The word E193 of some early interpreters is no instruction.
    let mut machine = machine_with(&[0xE1, 0x93]);
    assert_eq!(
        machine.step(&q_and_v, 0),
        Err(Fault::UnknownOpcode { opcode: 0xE193, address: 0x200 })
    );
}

#[test]
fn wait_key_blocks_until_a_key_is_recorded() {
    // wait for a key into V3
    let mut machine = machine_with(&[0xF3, 0x0A]);
    let held = vec![Scancode { code: CODE_X }, Scancode { code: CODE_NUM1 }];
    for _ in 0..5 {
        assert!(machine.operands_in_memory());
        assert_eq!(machine.step(&held, 0), Ok(()));
        assert_eq!(machine.pc(), 0x200);
        assert_eq!(machine.registers()[3], 0);
    }
    machine.register_key_press(0xC);
    machine.register_key_press(0x1);
    machine.register_key_press(0xC);
    assert_eq!(machine.pc(), 0x200);
    run(&mut machine, 1);
    assert_eq!(machine.pc(), 0x202);
    assert_eq!(machine.registers()[3], 0xC);
}

#[test]
fn wait_key_empties_the_queue() {
    // wait into V3; wait into V4
    let mut machine = machine_with(&[0xF3, 0x0A, 0xF4, 0x0A]);
    machine.register_key_press(0x7);
    machine.register_key_press(0x8);
    run(&mut machine, 1);
    assert_eq!(machine.registers()[3], 0x7);
    run(&mut machine, 3);
    assert_eq!(machine.pc(), 0x202);
    assert_eq!(machine.registers()[4], 0);
    machine.register_key_press(0x0);
    run(&mut machine, 1);
    assert_eq!(machine.pc(), 0x204);
    assert_eq!(machine.registers()[4], 0x0);
}

#[test]
fn bcd_of_157() {
    // V1 := 157; I := 0x300; store BCD of V1
    let mut machine = machine_with(&[0x61, 157, 0xA3, 0x00, 0xF1, 0x33]);
    run(&mut machine, 3);
    assert_eq!(&machine.memory()[0x300..0x304], &[1, 5, 7, 0]);
    assert_eq!(machine.addr_register(), 0x300);
}

#[test]
fn bcd_of_small_and_large_values() {
    let mut machine = machine_with(&[0x61, 7, 0xA3, 0x00, 0xF1, 0x33]);
    run(&mut machine, 3);
    assert_eq!(&machine.memory()[0x300..0x303], &[0, 0, 7]);
    let mut machine = machine_with(&[0x61, 255, 0xAF, 0xFD, 0xF1, 0x33]);
    run(&mut machine, 3);
    assert_eq!(&machine.memory()[0xFFD..0x1000], &[2, 5, 5]);
}

#[test]
fn operands_beyond_memory_are_told_before_the_cycle() {
    // I := 0xFFE; BCD of V1 would write to 0x1000
    let mut machine = machine_with(&[0xAF, 0xFE, 0xF1, 0x33]);
    run(&mut machine, 1);
    assert!(!machine.operands_in_memory());
    // I := 0xFFF; store V0..=V1 would write to 0x1000
    let mut machine = machine_with(&[0xAF, 0xFF, 0xF1, 0x55]);
    run(&mut machine, 1);
    assert!(!machine.operands_in_memory());
    // I := 0xFFF; store V0 alone fits
    let mut machine = machine_with(&[0xAF, 0xFF, 0xF0, 0x55]);
    run(&mut machine, 2);
    // I := 0xFFF; load V0..=V1 would read 0x1000
    let mut machine = machine_with(&[0xAF, 0xFF, 0xF1, 0x65]);
    run(&mut machine, 1);
    assert!(!machine.operands_in_memory());
    // I := 0xFFF; a sprite of two rows would read 0x1000
    let mut machine = machine_with(&[0xAF, 0xFF, 0xD0, 0x02]);
    run(&mut machine, 1);
    assert!(!machine.operands_in_memory());
    // I := 0xFFF; a sprite of one row fits
    let mut machine = machine_with(&[0xAF, 0xFF, 0xD0, 0x01]);
    run(&mut machine, 2);
}

#[test]
fn store_and_load_registers() {
    // V0 := 1; V1 := 2; V2 := 3; I := 0x300; store V0..=V1
    let mut machine = machine_with(&[0x60, 1, 0x61, 2, 0x62, 3, 0xA3, 0x00, 0xF1, 0x55]);
    run(&mut machine, 5);
    assert_eq!(&machine.memory()[0x300..0x303], &[1, 2, 0]);
    assert_eq!(machine.addr_register(), 0x300);
    // I := 0x000 (the digit 0); V5 := 9; load V0..=V3
    let mut machine = machine_with(&[0xA0, 0x00, 0x65, 9, 0xF3, 0x65]);
    run(&mut machine, 3);
    assert_eq!(&machine.registers()[0..6], &[0xF0, 0x90, 0x90, 0x90, 0, 9]);
    assert_eq!(machine.addr_register(), 0);
}

#[test]
fn index_register_instructions() {
    // I := 0xFFF; V1 := 0xFF; I += V1
    let mut machine = machine_with(&[0xAF, 0xFF, 0x61, 0xFF, 0xF1, 0x1E]);
    run(&mut machine, 3);
    assert_eq!(machine.addr_register(), 0x10FE);
    assert_eq!(machine.registers()[0xF], 0);
    // V1 := 0xA; I := digit sprite of V1
    let mut machine = machine_with(&[0x61, 0x0A, 0xF1, 0x29]);
    run(&mut machine, 2);
    assert_eq!(machine.addr_register(), 50);
    // V1 := 0xFF; I := 5 * V1
    let mut machine = machine_with(&[0x61, 0xFF, 0xF1, 0x29]);
    run(&mut machine, 2);
    assert_eq!(machine.addr_register(), 1275);
}

#[test]
fn index_register_addition_wraps_at_sixteen_bits() {
    // V1 := 0xFF; then I += V1 again and again: 258 times is 65790 = 65536 + 254
    let mut program = vec![0x61, 0xFF];
    for _ in 0..258 {
        program.extend_from_slice(&[0xF1, 0x1E]);
    }
    let mut machine = machine_with(&program);
    run(&mut machine, 1 + 257);
    assert_eq!(machine.addr_register(), 65535);
    run(&mut machine, 1);
    assert_eq!(machine.addr_register(), 254);
}

#[test]
fn timers_are_set_read_and_ticked() {
    // V1 := 2; delay := V1; V2 := 1; sound := V2; V3 := delay
    let mut machine = machine_with(&[0x61, 2, 0xF1, 0x15, 0x62, 1, 0xF2, 0x18, 0xF3, 0x07]);
    run(&mut machine, 4);
    assert_eq!(machine.delay_timer(), 2);
    assert_eq!(machine.sound_timer(), 1);
    machine.tick_timers();
    assert_eq!(machine.delay_timer(), 1);
    assert_eq!(machine.sound_timer(), 0);
    run(&mut machine, 1);
    assert_eq!(machine.registers()[3], 1);
    machine.tick_timers();
    machine.tick_timers();
    assert_eq!(machine.delay_timer(), 0);
    assert_eq!(machine.sound_timer(), 0);
    assert_eq!(machine.pc(), 0x20A);
}

#[test]
fn cycles_do_not_tick_the_timers() {
    // V1 := 9; delay := V1; then three jumps in place
    let mut machine = machine_with(&[0x61, 9, 0xF1, 0x15, 0x12, 0x04]);
    run(&mut machine, 5);
    assert_eq!(machine.delay_timer(), 9);
}

#[test]
fn random_byte_and_keys_matter_to_their_instructions_only() {
    // V1 := 200; V2 := 100; V1 += V2; I := 0x300; BCD of V1; draw digit at (V1, V2)
    let program = [0x61, 200, 0x62, 100, 0x81, 0x24, 0xA3, 0x00, 0xF1, 0x33, 0xD1, 0x25];
    let mut first = machine_with(&program);
    let mut second = machine_with(&program);
    let none: Vec<Scancode> = Vec::new();
    let some = vec![Scancode { code: CODE_X }, Scancode { code: CODE_Q }];
    for cycle in 0..6u8 {
        assert!(first.operands_in_memory());
        assert!(second.operands_in_memory());
        assert_eq!(first.step(&none, 0), Ok(()));
        assert_eq!(second.step(&some, 0x5A ^ cycle), Ok(()));
        assert_eq!(first.pc(), second.pc());
        assert_eq!(first.registers(), second.registers());
        assert_eq!(first.addr_register(), second.addr_register());
        assert_eq!(first.display(), second.display());
        assert_eq!(first.memory()[..], second.memory()[..]);
    }
}
