use chip8::cpu::Cpu;
use chip8::emulator::{Chip8Emulator, PROGRAM_CAPACITY};
use chip8::ram::{FONTS, FONTS_SIZE};
use chip8::semantics::ExecutionFault;
use chip8::system_bus::SystemBus;

fn machine_running(program: &[u8]) -> Chip8Emulator {
    let mut emulator = Chip8Emulator::new();
    emulator.load_rom(program);
    emulator
}

fn registers_in(emulator: &Chip8Emulator) -> Vec<u8> {
    (0..16).map(|x| emulator.cpu.register(x)).collect()
}

#[test]
fn new_machine_is_at_power_on() {
    let emulator = Chip8Emulator::new();
    assert_eq!(emulator.cpu.pc(), 0x200);
    assert_eq!(emulator.cpu.index(), 0);
    assert_eq!(emulator.cpu.stack(), Vec::<u16>::new());
    assert_eq!(registers_in(&emulator), vec![0u8; 16]);
    assert_eq!(emulator.system_bus.ram.memory[..FONTS_SIZE], FONTS);
    assert_eq!(emulator.system_bus.delay_timer.cycles, 0);
    assert_eq!(emulator.system_bus.sound_timer.cycles, 0);
}

#[test]
fn load_rom_writes_at_the_start_of_program_space() {
    let mut emulator = Chip8Emulator::new();
    let before = emulator.system_bus.ram.memory;
    emulator.load_rom(&[0x6A, 0x0F, 0x6B, 0x10]);
    let memory = emulator.system_bus.ram.memory;
    assert_eq!(memory[0x200..0x204], [0x6A, 0x0F, 0x6B, 0x10]);
    assert_eq!(memory[..0x200], before[..0x200]);
    assert_eq!(memory[0x204..], before[0x204..]);
    assert_eq!(emulator.cpu.pc(), 0x200);
}

#[test]
fn load_rom_takes_a_full_size_image() {
    assert_eq!(PROGRAM_CAPACITY, 4096 - 512);
    let mut emulator = Chip8Emulator::new();
    let image = vec![0xAB; PROGRAM_CAPACITY];
    emulator.load_rom(&image);
    let memory = emulator.system_bus.ram.memory;
    assert!(memory[0x200..].iter().all(|&byte| byte == 0xAB));
    assert_eq!(memory[0x1FF], 0);
    assert_eq!(memory[..FONTS_SIZE], FONTS);
}

#[test]
fn load_then_add_scenario() {
    let mut emulator = machine_running(&[0x6A, 0x0F, 0x6B, 0x10, 0x8A, 0xB4]);
    emulator.run_cycle();
    emulator.run_cycle();
    emulator.run_cycle();
    assert_eq!(emulator.cpu.register(0xA), 0x1F);
    assert_eq!(emulator.cpu.register(0xB), 0x10);
    assert_eq!(emulator.cpu.register(0xF), 0);
    assert_eq!(emulator.cpu.pc(), 0x206);
}

#[test]
fn add_with_carry_scenario() {
    let mut cpu = Cpu::new();
    cpu.op_6xkk(0xA, 0xFF);
    cpu.op_6xkk(0xB, 0x01);
    let mut system_bus = SystemBus::new();
    system_bus.ram.write_bulk(&[0x8A, 0xB4], 0x200);
    cpu.execute_operation(&mut system_bus);
    assert_eq!(cpu.register(0xA), 0x00);
    assert_eq!(cpu.register(0xF), 1);
    assert_eq!(cpu.pc(), 0x202);
}

#[test]
fn call_then_ret_round_trip() {
    let mut emulator = Chip8Emulator::new();
    emulator.system_bus.ram.write_bulk(&[0x23, 0x00], 0x200);
    emulator.system_bus.ram.write_bulk(&[0x00, 0xEE], 0x300);
    emulator.run_cycle();
    assert_eq!(emulator.cpu.stack(), vec![0x202]);
    assert_eq!(emulator.cpu.pc(), 0x300);
    emulator.run_cycle();
    assert_eq!(emulator.cpu.pc(), 0x202);
    assert_eq!(emulator.cpu.stack(), Vec::<u16>::new());
    assert_eq!(registers_in(&emulator), vec![0u8; 16]);
}

#[test]
fn fetch_reads_the_high_byte_first() {
    let emulator = machine_running(&[0x12, 0x34]);
    assert_eq!(emulator.cpu.fetch(&emulator.system_bus), 0x1234);
}

#[test]
fn jp_replaces_the_program_counter() {
    let mut emulator = machine_running(&[0x1A, 0xBC]);
    emulator.run_cycle();
    assert_eq!(emulator.cpu.pc(), 0xABC);
    assert_eq!(emulator.cpu.stack(), Vec::<u16>::new());
}

#[test]
fn jp_v0_replaces_the_program_counter() {
    let mut emulator = machine_running(&[0x60, 0x12, 0xB3, 0x00]);
    emulator.run_cycle();
    emulator.run_cycle();
    assert_eq!(emulator.cpu.pc(), 0x312);
}

#[test]
fn skip_on_equal_byte_advances_by_four_or_two() {
    let mut emulator = machine_running(&[0x6A, 0x42, 0x3A, 0x42]);
    emulator.run_cycle();
    emulator.run_cycle();
    assert_eq!(emulator.cpu.pc(), 0x202 + 4);

    let mut emulator = machine_running(&[0x6A, 0x42, 0x3A, 0x43]);
    emulator.run_cycle();
    emulator.run_cycle();
    assert_eq!(emulator.cpu.pc(), 0x202 + 2);
}

#[test]
fn skip_on_different_byte_advances_by_four_or_two() {
    let mut emulator = machine_running(&[0x6A, 0x42, 0x4A, 0x43]);
    emulator.run_cycle();
    emulator.run_cycle();
    assert_eq!(emulator.cpu.pc(), 0x202 + 4);

    let mut emulator = machine_running(&[0x6A, 0x42, 0x4A, 0x42]);
    emulator.run_cycle();
    emulator.run_cycle();
    assert_eq!(emulator.cpu.pc(), 0x202 + 2);
}

#[test]
fn skip_on_equal_registers_advances_by_four_or_two() {
    let mut emulator = machine_running(&[0x61, 0x07, 0x62, 0x07, 0x51, 0x20]);
    for _ in 0..3 {
        emulator.run_cycle();
    }
    assert_eq!(emulator.cpu.pc(), 0x204 + 4);

    let mut emulator = machine_running(&[0x61, 0x07, 0x62, 0x08, 0x51, 0x20]);
    for _ in 0..3 {
        emulator.run_cycle();
    }
    assert_eq!(emulator.cpu.pc(), 0x204 + 2);
}

#[test]
fn skip_on_different_registers_advances_by_four_or_two() {
    let mut emulator = machine_running(&[0x61, 0x07, 0x62, 0x08, 0x91, 0x20]);
    for _ in 0..3 {
        emulator.run_cycle();
    }
    assert_eq!(emulator.cpu.pc(), 0x204 + 4);

    let mut emulator = machine_running(&[0x61, 0x07, 0x62, 0x07, 0x91, 0x20]);
    for _ in 0..3 {
        emulator.run_cycle();
    }
    assert_eq!(emulator.cpu.pc(), 0x204 + 2);
}

#[test]
fn every_plain_instruction_advances_by_two() {
    for word in [
        0x00E0u16, 0x6A0F, 0x7A01, 0x8AB0, 0x8AB1, 0x8AB2, 0x8AB3, 0x8AB4, 0x8AB5, 0x8A06, 0x8AB7,
        0x8A0E, 0xA123,
    ] {
        let mut emulator = machine_running(&word.to_be_bytes());
        emulator.run_cycle();
        assert_eq!(emulator.cpu.pc(), 0x202, "word {word:#06x}");
    }
}

#[test]
fn unknown_words_are_no_ops_that_advance_by_two() {
    for word in [
        0x0000u16, 0x00E1, 0x0123, 0x5AB1, 0x8AB8, 0x8A16, 0x8A1E, 0x9AB1, 0xC0FF, 0xD123, 0xE09E,
        0xF007, 0xF015, 0xF033, 0xF065, 0xFFFF,
    ] {
        let mut emulator = Chip8Emulator::new();
        emulator.cpu.op_6xkk(0xA, 0x81);
        emulator.cpu.op_6xkk(0xB, 0x03);
        emulator.cpu.op_6xkk(0xF, 0x55);
        emulator.system_bus.gpu.vram[3] = true;
        emulator.system_bus.delay_timer.cycles = 9;
        emulator.load_rom(&word.to_be_bytes());
        let registers = registers_in(&emulator);
        let memory = emulator.system_bus.ram.memory;

        emulator.run_cycle();

        assert_eq!(emulator.cpu.pc(), 0x202, "word {word:#06x}");
        assert_eq!(registers_in(&emulator), registers, "word {word:#06x}");
        assert_eq!(emulator.cpu.index(), 0);
        assert_eq!(emulator.cpu.stack(), Vec::<u16>::new());
        assert_eq!(emulator.system_bus.ram.memory, memory);
        assert!(emulator.system_bus.gpu.vram[3]);
        assert_eq!(emulator.system_bus.delay_timer.cycles, 9);
    }
}

#[test]
fn cls_through_a_cycle_blanks_the_display() {
    let mut emulator = machine_running(&[0x00, 0xE0]);
    emulator.system_bus.gpu.vram[100] = true;
    emulator.run_cycle();
    assert!(emulator.system_bus.gpu.vram.iter().all(|&cell| !cell));
    assert_eq!(emulator.cpu.pc(), 0x202);
}

#[test]
fn instructions_never_move_the_timers() {
    let mut emulator = machine_running(&[0x6A, 0x0F, 0x7A, 0x01, 0x00, 0xE0, 0x12, 0x00]);
    emulator.system_bus.delay_timer.cycles = 7;
    emulator.system_bus.sound_timer.cycles = 8;
    for _ in 0..40 {
        emulator.run_cycle();
    }
    assert_eq!(emulator.system_bus.delay_timer.cycles, 7);
    assert_eq!(emulator.system_bus.sound_timer.cycles, 8);
}

#[test]
fn no_fault_on_a_fresh_machine() {
    let emulator = Chip8Emulator::new();
    assert_eq!(emulator.fault(), None);
}

#[test]
fn ret_on_an_empty_stack_is_a_stack_underflow() {
    let mut emulator = machine_running(&[0x00, 0xEE]);
    assert_eq!(emulator.fault(), Some(ExecutionFault::StackUnderflow));
    assert_eq!(emulator.try_run_cycle(), Err(ExecutionFault::StackUnderflow));
    assert_eq!(emulator.cpu.pc(), 0x200);
    assert_eq!(emulator.cpu.stack(), Vec::<u16>::new());
}

#[test]
fn seventeenth_nested_call_is_a_stack_overflow() {
    // CALL 0x200 calls itself for ever.
    let mut emulator = machine_running(&[0x22, 0x00]);
    for depth in 1..=16 {
        assert_eq!(emulator.try_run_cycle(), Ok(()));
        assert_eq!(emulator.cpu.stack().len(), depth);
    }
    assert_eq!(emulator.fault(), Some(ExecutionFault::StackOverflow));
    assert_eq!(emulator.try_run_cycle(), Err(ExecutionFault::StackOverflow));
    assert_eq!(emulator.cpu.stack(), vec![0x202; 16]);
    assert_eq!(emulator.cpu.pc(), 0x200);
}

#[test]
fn fetch_past_the_end_of_memory_is_out_of_bounds() {
    // JP 0xFFF: the word at 0xFFF would need the byte at 0x1000.
    let mut emulator = machine_running(&[0x1F, 0xFF]);
    assert_eq!(emulator.try_run_cycle(), Ok(()));
    assert_eq!(emulator.cpu.pc(), 0xFFF);
    assert_eq!(emulator.fault(), Some(ExecutionFault::AddressOutOfBounds));
    assert_eq!(emulator.try_run_cycle(), Err(ExecutionFault::AddressOutOfBounds));
    assert_eq!(emulator.cpu.pc(), 0xFFF);
}

#[test]
fn last_word_of_memory_can_be_run() {
    let mut emulator = machine_running(&[0x1F, 0xFE]);
    emulator.system_bus.ram.write_bulk(&[0x6A, 0x77], 0xFFE);
    assert_eq!(emulator.try_run_cycle(), Ok(()));
    assert_eq!(emulator.try_run_cycle(), Ok(()));
    assert_eq!(emulator.cpu.register(0xA), 0x77);
    assert_eq!(emulator.cpu.pc(), 0x1000);
    assert_eq!(emulator.fault(), Some(ExecutionFault::AddressOutOfBounds));
}

#[test]
fn running_off_a_jump_beyond_memory_is_out_of_bounds() {
    // LD V0, 0xFF; JP V0, 0xFFF lands at 0x10FE.
    let mut emulator = machine_running(&[0x60, 0xFF, 0xBF, 0xFF]);
    assert_eq!(emulator.try_run_cycle(), Ok(()));
    assert_eq!(emulator.try_run_cycle(), Ok(()));
    assert_eq!(emulator.cpu.pc(), 0x10FE);
    assert_eq!(emulator.try_run_cycle(), Err(ExecutionFault::AddressOutOfBounds));
}

#[test]
fn try_run_cycle_steps_like_run_cycle() {
    let mut checked = machine_running(&[0x6A, 0x0F, 0x6B, 0x10, 0x8A, 0xB4]);
    let mut plain = machine_running(&[0x6A, 0x0F, 0x6B, 0x10, 0x8A, 0xB4]);
    for _ in 0..3 {
        assert_eq!(checked.try_run_cycle(), Ok(()));
        plain.run_cycle();
        assert_eq!(checked.cpu.pc(), plain.cpu.pc());
        assert_eq!(registers_in(&checked), registers_in(&plain));
    }
}
