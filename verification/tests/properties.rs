//! What holds of the instruction set, on chosen machines.

use chip_8_emu::decode::{decode, nibbles, Instruction, Nibbles};
use chip_8_emu::{Fault, UnknownOpcodePolicy, CPU};

// A machine with a dark screen and `program` at the program start.
fn machine(program: &[u8]) -> CPU {
    let mut cpu = CPU::new();
    cpu.reset();
    cpu.set_memory(program);
    cpu
}

fn pixel(cpu: &CPU, x: usize, y: usize) -> [u8; 3] {
    let display = cpu.get_display();
    let at = (y * 64 + x) * 3;
    [display[at], display[at + 1], display[at + 2]]
}

#[test]
fn add_byte_wraps_and_leaves_vf() {
    let mut cpu = machine(&[0x73, 0x02]);
    let mut registers = [0u8; 16];
    registers[3] = 0xFF;
    registers[15] = 0x5A;
    cpu.set_registers(&registers);
    cpu.tick(0).unwrap();
    assert_eq!(cpu.get_registers()[3], 0x01);
    assert_eq!(cpu.get_registers()[15], 0x5A);
}

#[test]
fn add_byte_on_vf_adds_to_vf() {
    let mut cpu = machine(&[0x7F, 0x02]);
    let mut registers = [0u8; 16];
    registers[15] = 0xFF;
    cpu.set_registers(&registers);
    cpu.tick(0).unwrap();
    assert_eq!(cpu.get_registers()[15], 0x01);
}

#[test]
fn add_reg_carry_is_the_true_overflow() {
    let mut cpu = machine(&[0x80, 0x14, 0x82, 0x34]);
    cpu.set_registers(&[0xFF, 0x01, 0x80, 0x7F]);
    cpu.tick(0).unwrap();
    assert_eq!(cpu.get_registers()[0], 0x00);
    assert_eq!(cpu.get_registers()[15], 1);
    cpu.tick(0).unwrap();
    assert_eq!(cpu.get_registers()[2], 0xFF);
    assert_eq!(cpu.get_registers()[15], 0);
}

#[test]
fn flag_is_written_last() {
    // ADD VF, V0: the sum would be 0x30, but VF ends up holding the carry.
    let mut cpu = machine(&[0x8F, 0x04, 0x8F, 0x06, 0x8F, 0x0E]);
    let mut registers = [0u8; 16];
    registers[0] = 0x10;
    registers[15] = 0x20;
    cpu.set_registers(&registers);
    cpu.tick(0).unwrap();
    assert_eq!(cpu.get_registers()[15], 0);
    // SHR VF: VF ends up holding the bit shifted out.
    registers[15] = 0x03;
    cpu.set_registers(&registers);
    cpu.tick(0).unwrap();
    assert_eq!(cpu.get_registers()[15], 1);
    // SHL VF: likewise.
    registers[15] = 0x81;
    cpu.set_registers(&registers);
    cpu.tick(0).unwrap();
    assert_eq!(cpu.get_registers()[15], 1);
}

#[test]
fn sub_reg_flag_is_no_borrow() {
    let mut cpu = machine(&[0x80, 0x15, 0x82, 0x35, 0x84, 0x55]);
    cpu.set_registers(&[0x05, 0x06, 0x07, 0x07, 0x09, 0x01]);
    cpu.tick(0).unwrap();
    assert_eq!(cpu.get_registers()[0], 0xFF);
    assert_eq!(cpu.get_registers()[15], 0);
    cpu.tick(0).unwrap();
    assert_eq!(cpu.get_registers()[2], 0x00);
    assert_eq!(cpu.get_registers()[15], 1);
    cpu.tick(0).unwrap();
    assert_eq!(cpu.get_registers()[4], 0x08);
    assert_eq!(cpu.get_registers()[15], 1);
}

#[test]
fn shr_moves_the_low_bit_to_vf() {
    let mut cpu = machine(&[0x80, 0x06, 0x81, 0x06]);
    cpu.set_registers(&[0x05, 0x04]);
    cpu.tick(0).unwrap();
    assert_eq!(cpu.get_registers()[0], 0x02);
    assert_eq!(cpu.get_registers()[15], 1);
    cpu.tick(0).unwrap();
    assert_eq!(cpu.get_registers()[1], 0x02);
    assert_eq!(cpu.get_registers()[15], 0);
}

#[test]
fn call_then_ret_comes_back() {
    let mut program = [0u8; 0x20];
    program[0x02] = 0x22; // CALL 0x210 at 0x202
    program[0x03] = 0x10;
    program[0x10] = 0x00; // RET at 0x210
    program[0x11] = 0xEE;
    program[0x00] = 0x12; // JP 0x202
    program[0x01] = 0x02;
    let mut cpu = machine(&program);
    cpu.set_stack(&[0x111, 0x222]);
    cpu.tick(0).unwrap();
    assert_eq!(cpu.get_pc(), 0x202);
    cpu.tick(0).unwrap();
    assert_eq!(cpu.get_pc(), 0x210);
    assert_eq!(cpu.get_sp(), 3);
    assert_eq!(cpu.get_stack()[2], 0x204);
    cpu.tick(0).unwrap();
    assert_eq!(cpu.get_pc(), 0x204);
    assert_eq!(cpu.get_sp(), 2);
    assert_eq!(cpu.get_stack()[0..2], [0x111, 0x222]);
}

#[test]
fn end_to_end_call_and_return() {
    let mut program = [0u8; 0x12];
    program[0x00] = 0x22;
    program[0x01] = 0x10;
    program[0x10] = 0x00;
    program[0x11] = 0xEE;
    let mut cpu = CPU::new();
    cpu.load_program_memory(program.to_vec());
    cpu.tick(0).unwrap();
    cpu.tick(0).unwrap();
    assert_eq!(cpu.get_pc(), 0x202);
    assert_eq!(cpu.get_sp(), 0);
}

#[test]
fn end_to_end_add() {
    let mut cpu = CPU::new();
    cpu.load_program_memory(vec![0x60, 0x05, 0x61, 0x03, 0x80, 0x14]);
    cpu.tick(0).unwrap();
    cpu.tick(0).unwrap();
    cpu.tick(0).unwrap();
    assert_eq!(cpu.get_registers()[0], 8);
    assert_eq!(cpu.get_registers()[15], 0);
}

#[test]
fn cls_turns_every_pixel_off() {
    let mut cpu = CPU::new();
    cpu.set_memory(&[0x00, 0xE0]);
    cpu.set_display(&[0xFF; 6144]);
    cpu.tick(0).unwrap();
    for y in 0..32 {
        for x in 0..64 {
            assert_eq!(pixel(&cpu, x, y), [0, 0, 0]);
        }
    }
}

#[test]
fn drawing_the_same_row_twice_erases_it() {
    let mut cpu = machine(&[0xD0, 0x11, 0xD0, 0x11, 0xFF]);
    cpu.set_registers(&[10, 5]);
    cpu.set_i(0x204);
    cpu.tick(0).unwrap();
    for x in 10..18 {
        assert_eq!(pixel(&cpu, x, 5), [102, 255, 102]);
    }
    assert_eq!(cpu.get_registers()[15], 0);
    cpu.tick(0).unwrap();
    assert_eq!(cpu.get_display(), [0u8; 6144]);
    assert_eq!(cpu.get_registers()[15], 1);
}

#[test]
fn sprite_wraps_at_the_right_edge() {
    let mut cpu = machine(&[0xD0, 0x11, 0xFF]);
    cpu.set_registers(&[60, 0]);
    cpu.set_i(0x202);
    cpu.tick(0).unwrap();
    for y in 0..32 {
        for x in 0..64 {
            let touched = y == 0 && (x >= 60 || x <= 3);
            let wanted = if touched { [102, 255, 102] } else { [0, 0, 0] };
            assert_eq!(pixel(&cpu, x, y), wanted);
        }
    }
}

#[test]
fn sprite_wraps_at_the_bottom_edge_and_origin_wraps() {
    // The origin (64 + 5, 32 + 31) is the pixel (5, 31); the second row
    // lands in row 0.
    let mut cpu = machine(&[0xD0, 0x12, 0x80, 0x40]);
    cpu.set_registers(&[69, 63]);
    cpu.set_i(0x202);
    cpu.tick(0).unwrap();
    for y in 0..32 {
        for x in 0..64 {
            let touched = (y == 31 && x == 5) || (y == 0 && x == 6);
            let wanted = if touched { [102, 255, 102] } else { [0, 0, 0] };
            assert_eq!(pixel(&cpu, x, y), wanted);
        }
    }
}

#[test]
fn draw_reads_its_origin_before_it_resets_vf() {
    let mut cpu = machine(&[0xDF, 0x01, 0x80]);
    let mut registers = [0u8; 16];
    registers[15] = 7;
    cpu.set_registers(&registers);
    cpu.set_i(0x202);
    cpu.tick(0).unwrap();
    assert_eq!(pixel(&cpu, 7, 0), [102, 255, 102]);
    assert_eq!(pixel(&cpu, 0, 0), [0, 0, 0]);
    assert_eq!(cpu.get_registers()[15], 0);
}

#[test]
fn draw_with_no_rows_only_clears_vf() {
    let mut cpu = machine(&[0xD0, 0x10]);
    let mut registers = [0u8; 16];
    registers[15] = 1;
    cpu.set_registers(&registers);
    cpu.set_i(4096);
    assert_eq!(cpu.tick(0), Ok(()));
    assert_eq!(cpu.get_display(), [0u8; 6144]);
    assert_eq!(cpu.get_registers()[15], 0);
}

#[test]
fn key_wait_blocks_until_a_key_is_down() {
    let mut cpu = machine(&[0xF3, 0x0A]);
    for _ in 0..5 {
        cpu.tick(0).unwrap();
        assert_eq!(cpu.get_pc(), 0x200);
    }
    cpu.set_keyboard(0b0000_0100_0011_0000);
    cpu.tick(0).unwrap();
    assert_eq!(cpu.get_pc(), 0x202);
    assert_eq!(cpu.get_registers()[3], 4);
}

#[test]
fn key_wait_sees_key_zero_and_key_fifteen() {
    let mut cpu = machine(&[0xF0, 0x0A, 0xF1, 0x0A]);
    cpu.set_keyboard(0x8001);
    cpu.tick(0).unwrap();
    assert_eq!(cpu.get_registers()[0], 0);
    cpu.set_keyboard(0x8000);
    cpu.tick(0).unwrap();
    assert_eq!(cpu.get_registers()[1], 15);
}

#[test]
fn skip_on_a_key_that_does_not_exist() {
    // V0 holds 0x1A, which is no key: SKP never skips, SKNP always does.
    let mut cpu = machine(&[0xE0, 0x9E, 0xE0, 0xA1]);
    cpu.set_registers(&[0x1A]);
    cpu.set_keyboard(0xFFFF);
    cpu.tick(0).unwrap();
    assert_eq!(cpu.get_pc(), 0x202);
    cpu.tick(0).unwrap();
    assert_eq!(cpu.get_pc(), 0x206);
}

#[test]
fn jump_with_offset_uses_v0_not_the_index_register() {
    let mut cpu = machine(&[0xB3, 0x00]);
    cpu.set_registers(&[0x12]);
    cpu.set_i(0x120);
    cpu.tick(0).unwrap();
    assert_eq!(cpu.get_pc(), 0x312);
}

#[test]
fn store_writes_each_register_in_turn() {
    let mut cpu = machine(&[0xF3, 0x55]);
    cpu.set_registers(&[0x11, 0x22, 0x33, 0x44, 0x55]);
    cpu.set_i(0x300);
    cpu.tick(0).unwrap();
    assert_eq!(cpu.get_memory()[0x300..0x305], [0x11, 0x22, 0x33, 0x44, 0x00]);
    assert_eq!(cpu.get_i(), 0x300);
}

#[test]
fn bcd_digits() {
    let mut cpu = machine(&[0xF0, 0x33, 0xF1, 0x33, 0xF2, 0x33]);
    cpu.set_registers(&[123, 255, 7]);
    cpu.set_i(0x300);
    cpu.tick(0).unwrap();
    assert_eq!(cpu.get_memory()[0x300..0x303], [1, 2, 3]);
    cpu.tick(0).unwrap();
    assert_eq!(cpu.get_memory()[0x300..0x303], [2, 5, 5]);
    cpu.tick(0).unwrap();
    assert_eq!(cpu.get_memory()[0x300..0x303], [0, 0, 7]);
}

#[test]
fn font_address_is_five_times_the_digit() {
    let mut cpu = machine(&[0xF0, 0x29, 0xF1, 0x29]);
    cpu.set_registers(&[0x0F, 0xFF]);
    cpu.tick(0).unwrap();
    assert_eq!(cpu.get_i(), 75);
    cpu.tick(0).unwrap();
    assert_eq!(cpu.get_i(), 1275);
}

#[test]
fn ret_on_an_empty_stack_is_a_fault() {
    let mut cpu = machine(&[0x00, 0xEE]);
    assert_eq!(cpu.tick(0), Err(Fault::StackUnderflow));
    assert_eq!(cpu.get_pc(), 0x200);
    assert_eq!(cpu.get_sp(), 0);
}

#[test]
fn call_on_a_full_stack_is_a_fault() {
    let mut cpu = machine(&[0x2A, 0xBC]);
    let full: [u16; 16] = [1, 2, 3, 4, 5, 6, 7, 8, 9, 10, 11, 12, 13, 14, 15, 16];
    cpu.set_stack(&full);
    assert_eq!(cpu.tick(0), Err(Fault::StackOverflow));
    assert_eq!(cpu.get_pc(), 0x200);
    assert_eq!(cpu.get_sp(), 16);
    assert_eq!(cpu.get_stack(), full);
}

#[test]
fn call_fills_the_last_slot() {
    let mut cpu = machine(&[0x2A, 0xBC]);
    cpu.set_stack(&[0u16; 15]);
    assert_eq!(cpu.tick(0), Ok(()));
    assert_eq!(cpu.get_sp(), 16);
    assert_eq!(cpu.get_stack()[15], 0x202);
}

#[test]
fn unknown_opcode_resets_by_default() {
    let mut cpu = CPU::new();
    assert_eq!(cpu.get_unknown_opcode_policy(), UnknownOpcodePolicy::Reset);
    cpu.set_memory(&[0x6A, 0x07, 0x51, 0x21]);
    cpu.set_i(0x123);
    cpu.set_dt(9);
    cpu.set_keyboard(3);
    cpu.tick(0).unwrap();
    assert_eq!(cpu.tick(0), Err(Fault::UnimplementedInstruction(0x5121)));
    assert_eq!(cpu.get_pc(), 0x200);
    assert_eq!(cpu.get_i(), 0);
    assert_eq!(cpu.get_dt(), 0);
    assert_eq!(cpu.get_registers(), [0u8; 16]);
    assert_eq!(cpu.get_memory(), [0u8; 4096]);
    assert_eq!(cpu.get_display(), [0u8; 6144]);
    // The policy outlives the reset.
    assert_eq!(cpu.get_unknown_opcode_policy(), UnknownOpcodePolicy::Reset);
}

#[test]
fn unknown_opcode_can_leave_the_machine_alone() {
    let mut cpu = CPU::new();
    cpu.set_unknown_opcode_policy(UnknownOpcodePolicy::Halt);
    cpu.set_memory(&[0x6A, 0x07, 0x80, 0x18]);
    cpu.tick(0).unwrap();
    let memory = cpu.get_memory();
    let display = cpu.get_display();
    assert_eq!(cpu.tick(0), Err(Fault::UnimplementedInstruction(0x8018)));
    assert_eq!(cpu.get_pc(), 0x202);
    assert_eq!(cpu.get_registers()[10], 7);
    assert_eq!(cpu.get_memory(), memory);
    assert_eq!(cpu.get_display(), display);
    // Asking again gives the same answer.
    assert_eq!(cpu.tick(0), Err(Fault::UnimplementedInstruction(0x8018)));
}

#[test]
fn opcodes_outside_the_table() {
    for (hi, lo) in [
        (0x00u8, 0x00u8),
        (0x00, 0xE1),
        (0x01, 0xE0),
        (0x50, 0x01),
        (0x80, 0x08),
        (0x80, 0x0F),
        (0x90, 0x01),
        (0xE0, 0x9F),
        (0xE0, 0xA0),
        (0xF0, 0x00),
        (0xF0, 0x56),
        (0xF0, 0x75),
    ] {
        assert_eq!(decode(hi, lo), None);
        let mut cpu = machine(&[hi, lo]);
        let opcode = (hi as u16) << 8 | lo as u16;
        assert_eq!(cpu.tick(0), Err(Fault::UnimplementedInstruction(opcode)));
    }
}

#[test]
fn decoder_splits_any_two_bytes() {
    assert_eq!(nibbles(0xAB, 0xCD), Nibbles { n0: 0xA, n1: 0xB, n2: 0xC, n3: 0xD });
    assert_eq!(nibbles(0x00, 0x00), Nibbles { n0: 0, n1: 0, n2: 0, n3: 0 });
    assert_eq!(nibbles(0xFF, 0xFF), Nibbles { n0: 15, n1: 15, n2: 15, n3: 15 });
    assert_eq!(decode(0xD1, 0x2F), Some(Instruction::Drw { x: 1, y: 2, n: 15 }));
    assert_eq!(decode(0x1F, 0xED), Some(Instruction::Jp { addr: 0xFED }));
    assert_eq!(decode(0x3C, 0x9A), Some(Instruction::SeByte { x: 12, kk: 0x9A }));
    assert_eq!(decode(0x8A, 0xB6), Some(Instruction::Shr { x: 10 }));
    assert_eq!(decode(0xFE, 0x65), Some(Instruction::LoadRegs { x: 14 }));
}

#[test]
fn fetch_outside_memory_is_a_fault() {
    let mut cpu = machine(&[0x1F, 0xFF]);
    cpu.tick(0).unwrap();
    assert_eq!(cpu.get_pc(), 0xFFF);
    assert_eq!(cpu.tick(0), Err(Fault::MemoryRange));
    assert_eq!(cpu.get_pc(), 0xFFF);
}

#[test]
fn jump_with_offset_outside_memory_is_a_fault() {
    let mut cpu = machine(&[0xBF, 0xFF, 0xBF, 0x00]);
    cpu.set_registers(&[0x01]);
    assert_eq!(cpu.tick(0), Err(Fault::MemoryRange));
    assert_eq!(cpu.get_pc(), 0x200);
    cpu.set_registers(&[0x00]);
    assert_eq!(cpu.tick(0), Ok(()));
    assert_eq!(cpu.get_pc(), 0xFFF);
}

#[test]
fn index_outside_memory_is_a_fault() {
    let mut cpu = machine(&[0xF0, 0x1E, 0xF1, 0x1E]);
    cpu.set_registers(&[0x01, 0x02]);
    cpu.set_i(0xFFE);
    assert_eq!(cpu.tick(0), Ok(()));
    assert_eq!(cpu.get_i(), 0xFFF);
    assert_eq!(cpu.tick(0), Err(Fault::MemoryRange));
    assert_eq!(cpu.get_i(), 0xFFF);
    assert_eq!(cpu.get_pc(), 0x202);
}

#[test]
fn ranges_outside_memory_are_faults() {
    // BCD needs three bytes.
    let mut cpu = machine(&[0xF0, 0x33]);
    cpu.set_i(4094);
    assert_eq!(cpu.tick(0), Err(Fault::MemoryRange));
    cpu.set_i(4093);
    cpu.set_registers(&[0xFF]);
    assert_eq!(cpu.tick(0), Ok(()));
    assert_eq!(cpu.get_memory()[4093..4096], [2, 5, 5]);
    // Storing V0..V3 needs four bytes.
    let mut cpu = machine(&[0xF3, 0x55]);
    cpu.set_registers(&[1, 2, 3, 4]);
    cpu.set_i(4093);
    let memory = cpu.get_memory();
    assert_eq!(cpu.tick(0), Err(Fault::MemoryRange));
    assert_eq!(cpu.get_memory(), memory);
    cpu.set_i(4092);
    assert_eq!(cpu.tick(0), Ok(()));
    assert_eq!(cpu.get_memory()[4092..4096], [1, 2, 3, 4]);
    // Loading V0..V1 needs two bytes.
    let mut cpu = machine(&[0xF1, 0x65]);
    cpu.set_registers(&[9, 9]);
    cpu.set_i(4095);
    assert_eq!(cpu.tick(0), Err(Fault::MemoryRange));
    assert_eq!(cpu.get_registers()[0..2], [9, 9]);
    // A sprite of fifteen rows needs fifteen bytes.
    let mut cpu = machine(&[0xD0, 0x0F]);
    cpu.set_i(4082);
    let display = cpu.get_display();
    assert_eq!(cpu.tick(0), Err(Fault::MemoryRange));
    assert_eq!(cpu.get_display(), display);
    assert_eq!(cpu.get_pc(), 0x200);
    cpu.set_i(4081);
    assert_eq!(cpu.tick(0), Ok(()));
}

#[test]
fn fault_messages() {
    assert_eq!(Fault::StackUnderflow.message(), "Stack underflow!");
    assert_eq!(Fault::StackOverflow.message(), "Stack overflow!");
    assert_eq!(Fault::UnimplementedInstruction(0).message(), "Unimplemented instruction!");
    assert_eq!(Fault::MemoryRange.message(), "Memory access out of range!");
}
