use chipper::cpu::Cpu;
use chipper::defs::{Chip8, MAX_ROM_SIZE, PROGRAM_START};
use chipper::error::Chip8Error;
use chipper::instruction::{decode, Instruction};

fn cpu_with(rom: &[u8]) -> Cpu {
    let mut cpu = Cpu::new();
    cpu.load_game(rom).unwrap();
    cpu
}

#[test]
fn add_immediate_wraps_without_touching_vf() {
    let mut cpu = cpu_with(&[0x7A, 0x02]);
    cpu.state.v[0xA] = 0xFF;
    cpu.state.v[0xF] = 0x5A;
    assert_eq!(cpu.step_with(0), Ok(()));
    assert_eq!(cpu.state.v[0xA], 0x01);
    assert_eq!(cpu.state.v[0xF], 0x5A);
    assert_eq!(cpu.state.pc, 0x202);
}

#[test]
fn add_registers_sets_carry() {
    let mut cpu = cpu_with(&[0x81, 0x24, 0x83, 0x44]);
    cpu.state.v[1] = 0xFF;
    cpu.state.v[2] = 0x01;
    cpu.state.v[3] = 0x10;
    cpu.state.v[4] = 0x20;
    cpu.step_with(0).unwrap();
    assert_eq!(cpu.state.v[1], 0x00);
    assert_eq!(cpu.state.v[0xF], 1);
    cpu.step_with(0).unwrap();
    assert_eq!(cpu.state.v[3], 0x30);
    assert_eq!(cpu.state.v[0xF], 0);
}

#[test]
fn sub_sets_vf_when_no_borrow() {
    let mut cpu = cpu_with(&[0x81, 0x25, 0x83, 0x45, 0x85, 0x65]);
    cpu.state.v[1] = 5;
    cpu.state.v[2] = 3;
    cpu.state.v[3] = 3;
    cpu.state.v[4] = 5;
    cpu.state.v[5] = 7;
    cpu.state.v[6] = 7;
    cpu.step_with(0).unwrap();
    assert_eq!((cpu.state.v[1], cpu.state.v[0xF]), (2, 1));
    cpu.step_with(0).unwrap();
    assert_eq!((cpu.state.v[3], cpu.state.v[0xF]), (254, 0));
    cpu.step_with(0).unwrap();
    assert_eq!((cpu.state.v[5], cpu.state.v[0xF]), (0, 1));
}

#[test]
fn sub_reversed_and_shifts() {
    let mut cpu = cpu_with(&[0x81, 0x27, 0x83, 0x06, 0x84, 0x0E]);
    cpu.state.v[1] = 3;
    cpu.state.v[2] = 5;
    cpu.state.v[3] = 0x05;
    cpu.state.v[4] = 0x81;
    cpu.step_with(0).unwrap();
    assert_eq!((cpu.state.v[1], cpu.state.v[0xF]), (2, 1));
    cpu.step_with(0).unwrap();
    assert_eq!((cpu.state.v[3], cpu.state.v[0xF]), (0x02, 1));
    cpu.step_with(0).unwrap();
    assert_eq!((cpu.state.v[4], cpu.state.v[0xF]), (0x02, 1));
}

#[test]
fn logic_and_moves() {
    let mut cpu = cpu_with(&[0x60, 0xCC, 0x61, 0xAA, 0x82, 0x00, 0x82, 0x11, 0x83, 0x12, 0x84, 0x13]);
    for _ in 0..6 {
        cpu.step_with(0).unwrap();
    }
    assert_eq!(cpu.state.v[0], 0xCC);
    assert_eq!(cpu.state.v[1], 0xAA);
    assert_eq!(cpu.state.v[2], 0xEE);
    assert_eq!(cpu.state.v[3], 0x00);
    assert_eq!(cpu.state.v[4], 0x00 ^ 0xAA);
}

#[test]
fn random_masks_the_drawn_byte() {
    let mut cpu = cpu_with(&[0xC3, 0x0F, 0xC4, 0x00]);
    cpu.step_with(0xAB).unwrap();
    assert_eq!(cpu.state.v[3], 0x0B);
    cpu.state.v[4] = 0x77;
    cpu.step().unwrap();
    assert_eq!(cpu.state.v[4], 0x00);
    assert_eq!(cpu.state.pc, 0x204);
}

#[test]
fn draw_twice_reports_collision_then_erases() {
    // I := 0 (glyph of "0"); draw it at (V0, V1) twice.
    let mut cpu = cpu_with(&[0xA0, 0x00, 0xD0, 0x15, 0xD0, 0x15]);
    cpu.state.v[0] = 10;
    cpu.state.v[1] = 20;
    cpu.step_with(0).unwrap();
    cpu.step_with(0).unwrap();
    assert_eq!(cpu.state.v[0xF], 0);
    assert!(cpu.display.pixel(10, 20));
    assert!(cpu.display.take_dirty());
    cpu.step_with(0).unwrap();
    assert_eq!(cpu.state.v[0xF], 1);
    for y in 0..32 {
        for x in 0..64 {
            assert!(!cpu.display.pixel(x, y));
        }
    }
}

#[test]
fn draw_past_end_of_memory_fails() {
    let mut cpu = cpu_with(&[0xAF, 0xFE, 0xD0, 0x13]);
    cpu.step_with(0).unwrap();
    assert_eq!(
        cpu.step_with(0),
        Err(Chip8Error::AddressOutOfRange { address: 4096, pc: 0x202 })
    );
    assert_eq!(cpu.state.pc, 0x202);
}

#[test]
fn clear_screen() {
    let mut cpu = cpu_with(&[0xD0, 0x05, 0x00, 0xE0]);
    cpu.step_with(0).unwrap();
    assert!(cpu.display.pixel(0, 0));
    cpu.step_with(0).unwrap();
    assert!(!cpu.display.pixel(0, 0));
    assert_eq!(cpu.state.pc, 0x204);
}

#[test]
fn call_then_return_resumes_after_call() {
    let mut cpu = cpu_with(&[0x22, 0x06, 0x00, 0x00, 0x00, 0x00, 0x00, 0xEE]);
    cpu.step_with(0).unwrap();
    assert_eq!(cpu.state.pc, 0x206);
    assert_eq!(cpu.state.sp, 1);
    cpu.step_with(0).unwrap();
    assert_eq!(cpu.state.pc, 0x202);
    assert_eq!(cpu.state.sp, 0);
}

#[test]
fn return_on_empty_stack_fails() {
    let mut cpu = cpu_with(&[0x00, 0xEE]);
    assert_eq!(cpu.step_with(0), Err(Chip8Error::StackUnderflow { sp: 0, pc: 0x200 }));
    assert_eq!(cpu.state.pc, 0x200);
}

#[test]
fn seventeenth_nested_call_fails() {
    // A subroutine that calls itself.
    let mut cpu = cpu_with(&[0x22, 0x00]);
    for _ in 0..16 {
        cpu.step_with(0).unwrap();
    }
    assert_eq!(cpu.state.sp, 16);
    assert_eq!(cpu.step_with(0), Err(Chip8Error::StackOverflow { sp: 16, pc: 0x200 }));
    assert_eq!(cpu.state.sp, 16);
}

#[test]
fn jumps() {
    let mut cpu = cpu_with(&[0x13, 0x00]);
    cpu.step_with(0).unwrap();
    assert_eq!(cpu.state.pc, 0x300);
    cpu.state.memory[0x300] = 0xB1;
    cpu.state.memory[0x301] = 0x00;
    cpu.state.v[0] = 0x22;
    cpu.step_with(0).unwrap();
    assert_eq!(cpu.state.pc, 0x122);
}

#[test]
fn skips_on_immediates_and_registers() {
    let mut cpu = cpu_with(&[0x30, 0x05]);
    cpu.state.v[0] = 5;
    cpu.step_with(0).unwrap();
    assert_eq!(cpu.state.pc, 0x204);

    let cases: [(u8, u8, u8, u16); 6] = [
        (0x30, 0x06, 5, 0x202),
        (0x40, 0x06, 5, 0x204),
        (0x40, 0x05, 5, 0x202),
        (0x50, 0x10, 7, 0x204),
        (0x90, 0x10, 7, 0x202),
        (0x90, 0x20, 7, 0x204),
    ];
    for (hi, lo, v0, pc) in cases {
        let mut cpu = cpu_with(&[hi, lo]);
        cpu.state.v[0] = v0;
        cpu.state.v[1] = 7;
        cpu.state.v[2] = 8;
        cpu.step_with(0).unwrap();
        assert_eq!(cpu.state.pc, pc);
    }
}

#[test]
fn key_skips_for_every_key() {
    for key in 0..16usize {
        for down in [false, true] {
            let mut cpu = cpu_with(&[0xE5, 0x9E]);
            cpu.state.v[5] = key as u8;
            cpu.keypad.set_key(key, down);
            cpu.step_with(0).unwrap();
            assert_eq!(cpu.state.pc, if down { 0x204 } else { 0x202 });

            let mut cpu = cpu_with(&[0xE5, 0xA1]);
            cpu.state.v[5] = key as u8;
            cpu.keypad.set_key(key, down);
            cpu.step_with(0).unwrap();
            assert_eq!(cpu.state.pc, if down { 0x202 } else { 0x204 });
        }
    }
}

#[test]
fn key_past_the_keypad_is_never_down() {
    let mut cpu = cpu_with(&[0xE5, 0x9E]);
    cpu.state.v[5] = 0x20;
    cpu.step_with(0).unwrap();
    assert_eq!(cpu.state.pc, 0x202);
}

#[test]
fn wait_for_key_holds_pc_until_pressed() {
    let mut cpu = cpu_with(&[0xF3, 0x0A]);
    cpu.step_with(0).unwrap();
    cpu.step_with(0).unwrap();
    assert_eq!(cpu.state.pc, 0x200);
    cpu.keypad.set_key(0xB, true);
    cpu.keypad.set_key(0x7, true);
    cpu.step_with(0).unwrap();
    assert_eq!(cpu.state.v[3], 0x7);
    assert_eq!(cpu.state.pc, 0x202);
}

#[test]
fn bcd_of_234() {
    let mut cpu = cpu_with(&[0xA3, 0x00, 0xF2, 0x33]);
    cpu.state.v[2] = 234;
    cpu.step_with(0).unwrap();
    cpu.step_with(0).unwrap();
    assert_eq!(cpu.state.memory[0x300], 2);
    assert_eq!(cpu.state.memory[0x301], 3);
    assert_eq!(cpu.state.memory[0x302], 4);
    assert_eq!(cpu.state.i, 0x300);
}

#[test]
fn bcd_at_end_of_memory_fails() {
    let mut cpu = cpu_with(&[0xAF, 0xFE, 0xF2, 0x33]);
    cpu.step_with(0).unwrap();
    assert_eq!(
        cpu.step_with(0),
        Err(Chip8Error::AddressOutOfRange { address: 4096, pc: 0x202 })
    );
}

#[test]
fn store_and_load_registers_round_trip() {
    // I := 0x300; store V0..=V3; I := 0x300; clear V0..=V3; load them back.
    let mut cpu = cpu_with(&[0xA3, 0x00, 0xF3, 0x55, 0xA3, 0x00, 0xF3, 0x65]);
    let values = [9u8, 8, 7, 6, 5];
    for (k, val) in values.iter().enumerate() {
        cpu.state.v[k] = *val;
    }
    cpu.step_with(0).unwrap();
    cpu.step_with(0).unwrap();
    assert_eq!(cpu.state.i, 0x304);
    assert_eq!(&cpu.state.memory[0x300..0x305], &[9, 8, 7, 6, 0]);
    cpu.step_with(0).unwrap();
    for k in 0..4 {
        cpu.state.v[k] = 0;
    }
    cpu.step_with(0).unwrap();
    assert_eq!(&cpu.state.v[0..5], &values);
    assert_eq!(cpu.state.i, 0x304);
}

#[test]
fn index_register_instructions() {
    let mut cpu = cpu_with(&[0xA1, 0x23, 0xF0, 0x1E, 0xF1, 0x29]);
    cpu.state.v[0] = 0x10;
    cpu.state.v[1] = 0xA;
    cpu.step_with(0).unwrap();
    assert_eq!(cpu.state.i, 0x123);
    cpu.step_with(0).unwrap();
    assert_eq!(cpu.state.i, 0x133);
    cpu.step_with(0).unwrap();
    assert_eq!(cpu.state.i, 50);
    assert_eq!(cpu.state.memory[50], 0xF0);
}

#[test]
fn add_to_index_wraps_at_sixteen_bits() {
    let mut cpu = cpu_with(&[0xF0, 0x1E]);
    cpu.state.i = 0xFFFF;
    cpu.state.v[0] = 2;
    cpu.step_with(0).unwrap();
    assert_eq!(cpu.state.i, 1);
}

#[test]
fn timers_count_down_to_zero() {
    let mut cpu = cpu_with(&[0x60, 0x02, 0xF0, 0x15, 0xF0, 0x18, 0xF1, 0x07]);
    for _ in 0..3 {
        cpu.step_with(0).unwrap();
    }
    assert_eq!((cpu.state.delay_timer, cpu.state.sound_timer), (2, 2));
    assert!(!cpu.tick_timers());
    assert!(cpu.tick_timers());
    assert!(!cpu.tick_timers());
    assert_eq!((cpu.state.delay_timer, cpu.state.sound_timer), (0, 0));
    cpu.state.delay_timer = 9;
    cpu.step_with(0).unwrap();
    assert_eq!(cpu.state.v[1], 9);
}

#[test]
fn emulate_cycle_runs_and_ticks() {
    let mut cpu = cpu_with(&[0x60, 0x01, 0xF0, 0x18, 0x00, 0x00]);
    assert_eq!(cpu.emulate_cycle(), Ok(false));
    // The sound timer is set to 1 and runs out on the same cycle.
    assert_eq!(cpu.emulate_cycle(), Ok(true));
    assert_eq!(cpu.state.sound_timer, 0);
    cpu.state.sound_timer = 1;
    cpu.state.delay_timer = 4;
    assert_eq!(cpu.emulate_cycle(), Err(Chip8Error::UnknownOpcode { opcode: 0x0000, pc: 0x204 }));
    assert_eq!(cpu.state.sound_timer, 1);
    cpu.state.memory[0x204] = 0x12;
    cpu.state.memory[0x205] = 0x04;
    assert_eq!(cpu.emulate_cycle(), Ok(true));
    assert_eq!(cpu.state.sound_timer, 0);
    assert_eq!(cpu.state.delay_timer, 3);
}

#[test]
fn unknown_opcodes_are_reported() {
    for op in [0x0123u16, 0x5121, 0x800F, 0x9AB1, 0xE0FF, 0xF0FF] {
        let mut cpu = cpu_with(&[(op >> 8) as u8, op as u8]);
        assert_eq!(cpu.step_with(0), Err(Chip8Error::UnknownOpcode { opcode: op, pc: 0x200 }));
        assert_eq!(cpu.state.pc, 0x200);
    }
}

#[test]
fn fetch_past_end_of_memory_fails() {
    let mut cpu = cpu_with(&[0x1F, 0xFF]);
    cpu.step_with(0).unwrap();
    assert_eq!(
        cpu.step_with(0),
        Err(Chip8Error::AddressOutOfRange { address: 4096, pc: 0xFFF })
    );
}

#[test]
fn rom_of_exactly_max_size_loads() {
    let mut cpu = Cpu::new();
    let rom = vec![0xAB; 3584];
    assert_eq!(MAX_ROM_SIZE, 3584);
    assert_eq!(cpu.load_game(&rom), Ok(()));
    assert_eq!(cpu.state.memory[0x200], 0xAB);
    assert_eq!(cpu.state.memory[0xFFF], 0xAB);
    assert_eq!(cpu.state.pc, 0x200);
}

#[test]
fn rom_one_byte_too_large_is_refused() {
    let mut cpu = Cpu::new();
    let rom = vec![0xAB; 3585];
    assert_eq!(cpu.load_game(&rom), Err(Chip8Error::RomTooLarge { size: 3585 }));
    assert_eq!(cpu.state.memory[0x200], 0);
}

#[test]
fn chip8_new_holds_font_and_starts_at_program() {
    let chip = Chip8::new();
    assert_eq!(chip.pc as usize, PROGRAM_START);
    assert_eq!(&chip.memory[0..5], &[0xF0, 0x90, 0x90, 0x90, 0xF0]);
    assert_eq!(&chip.memory[75..80], &[0xF0, 0x80, 0xF0, 0x80, 0x80]);
    assert!(chip.memory[80..].iter().all(|b| *b == 0));
    assert!(chip.v.iter().all(|b| *b == 0));
    assert_eq!((chip.i, chip.sp, chip.delay_timer, chip.sound_timer), (0, 0, 0, 0));
}

#[test]
fn chip8_initialize_resets_and_loads() {
    let mut chip = Chip8::new();
    chip.v[3] = 7;
    chip.pc = 0x400;
    chip.memory[0x900] = 1;
    assert_eq!(chip.initialize(&[1, 2, 3]), Ok(()));
    assert_eq!(chip.v[3], 0);
    assert_eq!(chip.pc, 0x200);
    assert_eq!(chip.memory[0x900], 0);
    assert_eq!(&chip.memory[0x200..0x204], &[1, 2, 3, 0]);
    assert_eq!(chip.memory[0], 0xF0);
    assert_eq!(chip.initialize(&vec![0; 4000]), Err(Chip8Error::RomTooLarge { size: 4000 }));
    assert_eq!(&chip.memory[0x200..0x203], &[1, 2, 3]);
}

#[test]
fn load_rom_keeps_registers() {
    let mut chip = Chip8::new();
    chip.v[0] = 42;
    assert_eq!(chip.load_rom(&[0x12, 0x34]), Ok(()));
    assert_eq!(chip.v[0], 42);
    assert_eq!(&chip.memory[0x200..0x202], &[0x12, 0x34]);
    chip.reset();
    assert_eq!(chip.v[0], 0);
    assert_eq!(chip.memory[0x200], 0);
}

#[test]
fn decode_table() {
    assert_eq!(decode(0x00E0), Some(Instruction::ClearScreen));
    assert_eq!(decode(0x00EE), Some(Instruction::Return));
    assert_eq!(decode(0x1ABC), Some(Instruction::Jump { nnn: 0xABC }));
    assert_eq!(decode(0x8AB4), Some(Instruction::Add { x: 0xA, y: 0xB }));
    assert_eq!(decode(0x8ABE), Some(Instruction::ShiftLeft { x: 0xA, y: 0xB }));
    assert_eq!(decode(0xD12F), Some(Instruction::Draw { x: 1, y: 2, n: 0xF }));
    assert_eq!(decode(0xF965), Some(Instruction::LoadRegisters { x: 9 }));
    assert_eq!(decode(0x5AB1), None);
    assert_eq!(decode(0x8AB8), None);
    assert_eq!(decode(0x0000), None);
}

#[test]
fn execute_runs_a_decoded_instruction() {
    let mut cpu = Cpu::new();
    cpu.execute(Instruction::LoadImmediate { x: 2, nn: 0x42 }, 0).unwrap();
    assert_eq!(cpu.state.v[2], 0x42);
    assert_eq!(cpu.state.pc, 0x202);
}
