//! What each instruction does to the machine, and what one
//! fetch-decode-execute step does, as functions on the model.

use vstd::prelude::*;
use crate::decode::{instruction_of, nibbles_of, opcode_of, Instruction};
use crate::display::{blit, collides, PIXEL_OFF};
use crate::fault::{Fault, UnknownOpcodePolicy};
use crate::keypad::{key_down, lowest_key};
use crate::machine::{filled, overlay, Machine, DISPLAY_BYTES, FLAG_REGISTER, MEMORY_SIZE};

verus! {

/// 1 for true, 0 for false: the value a flag takes in VF.
pub open spec fn flag(on: bool) -> u8 {
    if on {
        1
    } else {
        0
    }
}

/// The machine with the program counter two further on if `skip` holds.
pub open spec fn skip_if(m: Machine, skip: bool) -> Machine {
    if skip {
        m.with_pc((m.pc + 2) as u16)
    } else {
        m
    }
}

/// The machine with `value` in register `x` and then `flag` in VF: the flag
/// is written last, so it is what VF holds even where `x` names VF.
pub open spec fn with_result_and_flag(m: Machine, x: int, value: u8, flag: u8) -> Machine {
    m.with_v(x, value).with_v(FLAG_REGISTER as int, flag)
}

/// The three decimal digits of a byte, hundreds first.
pub open spec fn bcd_digits(value: u8) -> Seq<u8> {
    seq![value / 100, (value / 10) % 10, value % 10]
}

/// Whether the `len` bytes from `start` on all lie in memory.
pub open spec fn in_memory(start: int, len: int) -> bool {
    start + len <= MEMORY_SIZE
}

/// The effect of instruction `ins` on machine `m`, whose program counter has
/// already moved past the instruction; `random` is the byte that `Rnd` draws.
/// Gives the machine after the instruction, or the fault that kept the
/// instruction from being carried out.
pub open spec fn execute(m: Machine, ins: Instruction, random: u8) -> Result<Machine, Fault> {
    match ins {
        Instruction::Cls => Ok(Machine { display: filled(DISPLAY_BYTES as nat, PIXEL_OFF), ..m }),
        Instruction::Ret => if m.sp == 0 {
            Err(Fault::StackUnderflow)
        } else {
            Ok(Machine { sp: (m.sp - 1) as u8, pc: m.stack[m.sp - 1], ..m })
        },
        Instruction::Jp { addr } => Ok(m.with_pc(addr)),
        Instruction::Call { addr } => if m.sp >= 16 {
            Err(Fault::StackOverflow)
        } else {
            Ok(
                Machine {
                    stack: m.stack.update(m.sp as int, m.pc),
                    sp: (m.sp + 1) as u8,
                    pc: addr,
                    ..m
                },
            )
        },
        Instruction::SeByte { x, kk } => Ok(skip_if(m, m.v(x as int) == kk)),
        Instruction::SneByte { x, kk } => Ok(skip_if(m, m.v(x as int) != kk)),
        Instruction::SeReg { x, y } => Ok(skip_if(m, m.v(x as int) == m.v(y as int))),
        Instruction::LdByte { x, kk } => Ok(m.with_v(x as int, kk)),
        Instruction::AddByte { x, kk } => Ok(
            m.with_v(x as int, ((m.v(x as int) + kk) % 256) as u8),
        ),
        Instruction::LdReg { x, y } => Ok(m.with_v(x as int, m.v(y as int))),
        Instruction::Or { x, y } => Ok(m.with_v(x as int, m.v(x as int) | m.v(y as int))),
        Instruction::And { x, y } => Ok(m.with_v(x as int, m.v(x as int) & m.v(y as int))),
        Instruction::Xor { x, y } => Ok(m.with_v(x as int, m.v(x as int) ^ m.v(y as int))),
        Instruction::AddReg { x, y } => Ok(
            with_result_and_flag(
                m,
                x as int,
                ((m.v(x as int) + m.v(y as int)) % 256) as u8,
                flag(m.v(x as int) + m.v(y as int) > 255),
            ),
        ),
        Instruction::SubReg { x, y } => Ok(
            with_result_and_flag(
                m,
                x as int,
                ((m.v(x as int) - m.v(y as int)) % 256) as u8,
                flag(m.v(x as int) >= m.v(y as int)),
            ),
        ),
        Instruction::Shr { x } => Ok(
            with_result_and_flag(m, x as int, m.v(x as int) >> 1u8, m.v(x as int) & 1),
        ),
        Instruction::SubnReg { x, y } => Ok(
            with_result_and_flag(
                m,
                x as int,
                ((m.v(y as int) - m.v(x as int)) % 256) as u8,
                flag(m.v(y as int) >= m.v(x as int)),
            ),
        ),
        Instruction::Shl { x } => Ok(
            with_result_and_flag(m, x as int, m.v(x as int) << 1u8, (m.v(x as int) >> 7u8) & 1),
        ),
        Instruction::SneReg { x, y } => Ok(skip_if(m, m.v(x as int) != m.v(y as int))),
        Instruction::LdI { addr } => Ok(Machine { i: addr, ..m }),
        Instruction::JpV0 { addr } => if m.v(0) + addr >= MEMORY_SIZE {
            Err(Fault::MemoryRange)
        } else {
            Ok(m.with_pc((m.v(0) + addr) as u16))
        },
        Instruction::Rnd { x, kk } => Ok(m.with_v(x as int, random & kk)),
        Instruction::Drw { x, y, n } => if !in_memory(m.i as int, n as int) {
            Err(Fault::MemoryRange)
        } else {
            let sprite = m.memory.subrange(m.i as int, m.i + n);
            let x0 = m.v(x as int) as int;
            let y0 = m.v(y as int) as int;
            Ok(
                Machine {
                    display: blit(m.display, sprite, x0, y0),
                    registers: m.registers.update(
                        FLAG_REGISTER as int,
                        flag(collides(m.display, sprite, x0, y0)),
                    ),
                    ..m
                },
            )
        },
        Instruction::Skp { x } => Ok(skip_if(m, key_down(m.keyboard, m.v(x as int) as int))),
        Instruction::Sknp { x } => Ok(skip_if(m, !key_down(m.keyboard, m.v(x as int) as int))),
        Instruction::LdVxDt { x } => Ok(m.with_v(x as int, m.dt)),
        Instruction::LdKey { x } => if m.keyboard == 0 {
            Ok(m.with_pc((m.pc - 2) as u16))
        } else {
            Ok(m.with_v(x as int, lowest_key(m.keyboard) as u8))
        },
        Instruction::LdDtVx { x } => Ok(Machine { dt: m.v(x as int), ..m }),
        Instruction::LdStVx { x } => Ok(Machine { st: m.v(x as int), ..m }),
        Instruction::AddI { x } => if m.i + m.v(x as int) >= MEMORY_SIZE {
            Err(Fault::MemoryRange)
        } else {
            Ok(Machine { i: (m.i + m.v(x as int)) as u16, ..m })
        },
        Instruction::LdFont { x } => Ok(Machine { i: (m.v(x as int) * 5) as u16, ..m }),
        Instruction::Bcd { x } => if !in_memory(m.i as int, 3) {
            Err(Fault::MemoryRange)
        } else {
            Ok(Machine { memory: overlay(m.memory, m.i as int, bcd_digits(m.v(x as int))), ..m })
        },
        Instruction::StoreRegs { x } => if !in_memory(m.i as int, x + 1) {
            Err(Fault::MemoryRange)
        } else {
            Ok(
                Machine {
                    memory: overlay(m.memory, m.i as int, m.registers.subrange(0, x + 1)),
                    ..m
                },
            )
        },
        Instruction::LoadRegs { x } => if !in_memory(m.i as int, x + 1) {
            Err(Fault::MemoryRange)
        } else {
            Ok(
                Machine {
                    registers: overlay(m.registers, 0, m.memory.subrange(m.i as int, m.i + x + 1)),
                    ..m
                },
            )
        },
    }
}

/// Whether both bytes of the opcode at the program counter lie in memory.
pub open spec fn can_fetch(m: Machine) -> bool {
    m.pc + 1 < MEMORY_SIZE
}

/// The instruction at the program counter, if the two bytes there spell one.
pub open spec fn fetched(m: Machine) -> Option<Instruction> {
    instruction_of(nibbles_of(m.memory[m.pc as int], m.memory[m.pc + 1]))
}

/// One step: fetch the opcode at the program counter, move the program
/// counter past it, decode, execute. Gives the machine after the step, or
/// the fault that stopped it.
pub open spec fn step(m: Machine, random: u8) -> Result<Machine, Fault> {
    if !can_fetch(m) {
        Err(Fault::MemoryRange)
    } else {
        match fetched(m) {
            None => Err(
                Fault::UnimplementedInstruction(
                    opcode_of(m.memory[m.pc as int], m.memory[m.pc + 1]),
                ),
            ),
            Some(ins) => execute(m.with_pc((m.pc + 2) as u16), ins, random),
        }
    }
}

/// The machine that a step leaves behind. A step that succeeds leaves its
/// result. A step that fails leaves the machine untouched, with one
/// exception: an unknown opcode under the `Reset` policy leaves the machine
/// reset.
pub open spec fn after_step(m: Machine, random: u8) -> Machine {
    match step(m, random) {
        Ok(next) => next,
        Err(Fault::UnimplementedInstruction(_)) => if m.policy == UnknownOpcodePolicy::Reset {
            m.reset()
        } else {
            m
        },
        Err(_) => m,
    }
}

/// What a step reports: success, or the fault.
pub open spec fn step_outcome(m: Machine, random: u8) -> Result<(), Fault> {
    match step(m, random) {
        Ok(_) => Ok(()),
        Err(fault) => Err(fault),
    }
}

} // verus!
