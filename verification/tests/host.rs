//! What the host does to the machine between steps: loading, keys, timers,
//! reading the state back.

use chip_8_emu::keypad::{first_key_down, is_key_down};
use chip_8_emu::timer::{decay, periods_between, reference_between};
use chip_8_emu::{UnknownOpcodePolicy, CPU};

#[test]
fn power_on_state() {
    let cpu = CPU::new();
    assert_eq!(cpu.get_pc(), 0x200);
    assert_eq!(cpu.get_i(), 0);
    assert_eq!(cpu.get_sp(), 0);
    assert_eq!(cpu.get_dt(), 0);
    assert_eq!(cpu.get_st(), 0);
    assert_eq!(cpu.get_memory(), [0u8; 4096]);
    assert_eq!(cpu.get_registers(), [0u8; 16]);
    assert_eq!(cpu.get_stack(), [0u16; 16]);
    assert_eq!(cpu.get_display(), [100u8; 6144]);
    assert_eq!(cpu.get_unknown_opcode_policy(), UnknownOpcodePolicy::Reset);
    let other = CPU::default();
    assert_eq!(other.get_pc(), 0x200);
    assert_eq!(other.get_display(), [100u8; 6144]);
}

#[test]
fn reset_zeroes_the_hardware() {
    let mut cpu = CPU::new();
    cpu.set_unknown_opcode_policy(UnknownOpcodePolicy::Halt);
    cpu.set_memory(&[0x12, 0x34]);
    cpu.set_registers(&[1, 2, 3]);
    cpu.set_stack(&[0x300]);
    cpu.set_i(7);
    cpu.set_dt(8);
    cpu.set_keyboard(9);
    cpu.tick(0).unwrap();
    assert_eq!(cpu.get_pc(), 0x234);
    cpu.tick_timers(20);
    cpu.reset();
    assert_eq!(cpu.get_pc(), 0x200);
    assert_eq!(cpu.get_i(), 0);
    assert_eq!(cpu.get_sp(), 0);
    assert_eq!(cpu.get_dt(), 0);
    assert_eq!(cpu.get_st(), 0);
    assert_eq!(cpu.get_memory(), [0u8; 4096]);
    assert_eq!(cpu.get_registers(), [0u8; 16]);
    assert_eq!(cpu.get_stack(), [0u16; 16]);
    assert_eq!(cpu.get_display(), [0u8; 6144]);
    assert_eq!(cpu.get_unknown_opcode_policy(), UnknownOpcodePolicy::Halt);
    // The keyboard is clear: a key wait blocks.
    cpu.set_memory(&[0xF0, 0x0A]);
    cpu.tick(0).unwrap();
    assert_eq!(cpu.get_pc(), 0x200);
    // The timer reference is not hardware state: 17 ms after the reference
    // of 17 that the earlier update left, one period has passed.
    cpu.set_dt(5);
    cpu.tick_timers(34);
    assert_eq!(cpu.get_dt(), 4);
}

#[test]
fn program_is_loaded_at_the_program_start() {
    let mut cpu = CPU::new();
    cpu.init_hex_sprites();
    cpu.load_program_memory(vec![0xAA, 0xBB, 0xCC]);
    let memory = cpu.get_memory();
    assert_eq!(memory[0x200..0x204], [0xAA, 0xBB, 0xCC, 0x00]);
    assert_eq!(memory[0x1FF], 0);
    // Loading leaves the rest of memory alone.
    assert_eq!(memory[0..5], [0xF0, 0x90, 0x90, 0x90, 0xF0]);
    assert_eq!(memory[75..80], [0xF0, 0x80, 0xF0, 0x80, 0x80]);
    assert_eq!(memory[80], 0);
    cpu.load_program_memory(vec![0x11]);
    assert_eq!(cpu.get_memory()[0x200..0x204], [0x11, 0xBB, 0xCC, 0x00]);
}

#[test]
fn program_is_loaded_at_the_program_start_wherever_the_pc_is() {
    let mut cpu = CPU::new();
    cpu.load_program_memory(vec![0x13, 0x00]);
    cpu.tick(0).unwrap();
    assert_eq!(cpu.get_pc(), 0x300);
    cpu.load_program_memory(vec![0x60, 0x01]);
    assert_eq!(cpu.get_memory()[0x200..0x202], [0x60, 0x01]);
    assert_eq!(cpu.get_memory()[0x300..0x302], [0x00, 0x00]);
}

#[test]
fn largest_program_fills_memory_to_the_end() {
    let mut cpu = CPU::new();
    cpu.load_program_memory(vec![0x5A; 3584]);
    let memory = cpu.get_memory();
    assert_eq!(memory[0x1FF], 0);
    assert_eq!(memory[0x200], 0x5A);
    assert_eq!(memory[4095], 0x5A);
    cpu.set_memory(&[0xA5; 3584]);
    assert_eq!(cpu.get_memory()[4095], 0xA5);
    cpu.set_memory(&[]);
    assert_eq!(cpu.get_memory(), [0u8; 4096]);
}

#[test]
fn set_memory_zeroes_what_it_does_not_write() {
    let mut cpu = CPU::new();
    cpu.init_hex_sprites();
    cpu.set_memory(&[1, 2, 3, 4]);
    cpu.set_memory(&[9]);
    let memory = cpu.get_memory();
    assert_eq!(memory[0..5], [0, 0, 0, 0, 0]);
    assert_eq!(memory[0x200..0x204], [9, 0, 0, 0]);
}

#[test]
fn setters_pad_with_zeroes() {
    let mut cpu = CPU::new();
    cpu.set_registers(&[0xFF; 16]);
    cpu.set_registers(&[1, 2]);
    assert_eq!(cpu.get_registers(), [1, 2, 0, 0, 0, 0, 0, 0, 0, 0, 0, 0, 0, 0, 0, 0]);
    cpu.set_stack(&[7; 16]);
    assert_eq!(cpu.get_sp(), 16);
    cpu.set_stack(&[0x400, 0x500]);
    assert_eq!(cpu.get_sp(), 2);
    assert_eq!(cpu.get_stack(), [0x400, 0x500, 0, 0, 0, 0, 0, 0, 0, 0, 0, 0, 0, 0, 0, 0]);
    cpu.set_stack(&[]);
    assert_eq!(cpu.get_sp(), 0);
    cpu.set_display(&[1, 2, 3]);
    let display = cpu.get_display();
    assert_eq!(display[0..5], [1, 2, 3, 100, 100]);
}

#[test]
fn views_in_place_agree_with_copies() {
    let mut cpu = CPU::new();
    cpu.set_memory(&[1, 2, 3]);
    cpu.set_registers(&[4, 5]);
    cpu.set_stack(&[6]);
    assert_eq!(*cpu.memory_ref(), cpu.get_memory());
    assert_eq!(*cpu.registers_ref(), cpu.get_registers());
    assert_eq!(*cpu.stack_ref(), cpu.get_stack());
    assert_eq!(*cpu.display_ref(), cpu.get_display());
}

#[test]
fn keys_go_down_and_up() {
    let mut cpu = CPU::new();
    cpu.reset();
    cpu.set_memory(&[0xE0, 0x9E, 0xE0, 0x9E, 0xE1, 0x9E, 0xE1, 0xA1]);
    cpu.set_registers(&[0x0F, 0x00]);
    cpu.set_key_down(15);
    cpu.set_key_down(0);
    cpu.set_key_down(15);
    cpu.tick(0).unwrap();
    assert_eq!(cpu.get_pc(), 0x204);
    cpu.set_key_up(0);
    cpu.tick(0).unwrap();
    assert_eq!(cpu.get_pc(), 0x206);
    cpu.tick(0).unwrap();
    assert_eq!(cpu.get_pc(), 0x20A);
}

#[test]
fn key_up_leaves_the_other_keys() {
    let mut cpu = CPU::new();
    cpu.reset();
    cpu.set_memory(&[0xF0, 0x0A, 0xF1, 0x0A, 0xF2, 0x0A]);
    cpu.set_key_down(3);
    cpu.set_key_down(9);
    cpu.set_key_down(12);
    cpu.tick(0).unwrap();
    assert_eq!(cpu.get_registers()[0], 3);
    cpu.set_key_up(3);
    cpu.set_key_up(3);
    cpu.tick(0).unwrap();
    assert_eq!(cpu.get_registers()[1], 9);
    cpu.set_key_up(9);
    cpu.tick(0).unwrap();
    assert_eq!(cpu.get_registers()[2], 12);
}

#[test]
fn keypad_functions() {
    assert!(is_key_down(0b1000, 3));
    assert!(!is_key_down(0b1000, 2));
    assert!(is_key_down(0x8000, 15));
    assert!(!is_key_down(0xFFFF, 16));
    assert!(!is_key_down(0xFFFF, 255));
    assert_eq!(first_key_down(0), None);
    assert_eq!(first_key_down(0x8000), Some(15));
    assert_eq!(first_key_down(0xFFFF), Some(0));
    assert_eq!(first_key_down(0b0110_0000), Some(5));
}

#[test]
fn timers_decay_by_whole_periods() {
    let mut cpu = CPU::new();
    cpu.set_memory(&[0x60, 0x14, 0xF0, 0x18]);
    cpu.tick(0).unwrap();
    cpu.tick(0).unwrap();
    assert_eq!(cpu.get_st(), 20);
    cpu.set_dt(10);
    cpu.tick_timers(16);
    assert_eq!(cpu.get_dt(), 10);
    assert_eq!(cpu.get_st(), 20);
    cpu.tick_timers(17);
    assert_eq!(cpu.get_dt(), 9);
    assert_eq!(cpu.get_st(), 19);
    // 17 + 16: the next period is not yet over.
    cpu.tick_timers(33);
    assert_eq!(cpu.get_dt(), 9);
    // 100 - 17 = 83 ms = 4 periods and 15 ms.
    cpu.tick_timers(100);
    assert_eq!(cpu.get_dt(), 5);
    assert_eq!(cpu.get_st(), 15);
    // The 15 ms count towards the next period: 2 ms later it is over.
    cpu.tick_timers(102);
    assert_eq!(cpu.get_dt(), 4);
    assert_eq!(cpu.get_st(), 14);
}

#[test]
fn timers_stop_at_zero() {
    let mut cpu = CPU::new();
    cpu.set_dt(3);
    cpu.tick_timers(17 * 5);
    assert_eq!(cpu.get_dt(), 0);
    assert_eq!(cpu.get_st(), 0);
    cpu.set_dt(255);
    cpu.tick_timers(u64::MAX);
    assert_eq!(cpu.get_dt(), 0);
}

#[test]
fn steps_do_not_move_the_timers() {
    let mut cpu = CPU::new();
    cpu.set_memory(&[0x60, 0x01, 0x61, 0x02, 0x12, 0x00]);
    cpu.set_dt(42);
    for _ in 0..100 {
        cpu.tick(0).unwrap();
    }
    assert_eq!(cpu.get_dt(), 42);
}

#[test]
fn an_earlier_timestamp_passes_no_time() {
    let mut cpu = CPU::new();
    cpu.set_dt(10);
    cpu.tick_timers(1000);
    assert_eq!(cpu.get_dt(), 0);
    cpu.set_dt(10);
    cpu.tick_timers(50);
    assert_eq!(cpu.get_dt(), 10);
    // 50 is the reference now.
    cpu.tick_timers(66);
    assert_eq!(cpu.get_dt(), 10);
    cpu.tick_timers(67);
    assert_eq!(cpu.get_dt(), 9);
}

#[test]
fn timer_functions() {
    assert_eq!(periods_between(0, 16), 0);
    assert_eq!(periods_between(0, 17), 1);
    assert_eq!(periods_between(10, 61), 3);
    assert_eq!(periods_between(61, 10), 0);
    assert_eq!(reference_between(0, 16), 0);
    assert_eq!(reference_between(0, 40), 34);
    assert_eq!(reference_between(10, 61), 61);
    assert_eq!(reference_between(61, 10), 10);
    assert_eq!(decay(10, 3), 7);
    assert_eq!(decay(10, 10), 0);
    assert_eq!(decay(10, 11), 0);
    assert_eq!(decay(0, 0), 0);
    assert_eq!(decay(255, u64::MAX), 0);
}
