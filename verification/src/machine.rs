//! The mathematical model of the virtual hardware: what every contract in
//! this crate speaks about.

use vstd::prelude::*;
use crate::fault::UnknownOpcodePolicy;

verus! {

/// Bytes of addressable memory.
pub const MEMORY_SIZE: usize = 4096;

/// Address at which programs are loaded and execution starts.
pub const PROGRAM_START: u16 = 0x200;

/// Number of general registers, V0 to VF.
pub const REGISTER_COUNT: usize = 16;

/// Index of VF, the register that receives carry, borrow and collision flags.
pub const FLAG_REGISTER: usize = 15;

/// Number of call-stack slots.
pub const STACK_DEPTH: usize = 16;

/// Pixels per display row.
pub const DISPLAY_WIDTH: usize = 64;

/// Display rows.
pub const DISPLAY_HEIGHT: usize = 32;

/// Bytes of the framebuffer: three colour bytes per pixel, row by row.
pub const DISPLAY_BYTES: usize = 6144;

/// Milliseconds per timer period: the 60 Hz clock in whole milliseconds.
pub const TIMER_PERIOD_MS: u64 = 17;

/// Every byte of the framebuffer of a machine that has just been created.
pub const POWER_ON_DISPLAY_BYTE: u8 = 100;

/// The whole state of the machine as plain mathematical values.
#[verifier::ext_equal]
pub struct Machine {
    /// The 4096 bytes of memory.
    pub memory: Seq<u8>,
    /// The sixteen general registers V0..VF.
    pub registers: Seq<u8>,
    /// The sixteen call-stack slots; those below `sp` are in use.
    pub stack: Seq<u16>,
    /// The index register I.
    pub i: u16,
    /// The program counter.
    pub pc: u16,
    /// The number of stack slots in use.
    pub sp: u8,
    /// The delay timer.
    pub dt: u8,
    /// The sound timer.
    pub st: u8,
    /// The framebuffer, three bytes per pixel.
    pub display: Seq<u8>,
    /// One bit per key, bit `k` set while key `k` is held down.
    pub keyboard: u16,
    /// The timestamp up to which the timers have been decayed.
    pub last_tick_time: u64,
    /// What a step does on an unknown opcode.
    pub policy: UnknownOpcodePolicy,
}

/// A sequence of `len` copies of `value`.
pub open spec fn filled<T>(len: nat, value: T) -> Seq<T> {
    Seq::new(len, |k: int| value)
}

/// `base` with `src` written over it from index `at` on.
pub open spec fn overlay<T>(base: Seq<T>, at: int, src: Seq<T>) -> Seq<T> {
    Seq::new(
        base.len(),
        |k: int|
            if at <= k < at + src.len() {
                src[k - at]
            } else {
                base[k]
            },
    )
}

impl Machine {
    /// The shape every machine has: fixed sizes, and a stack depth between 0
    /// and 16.
    pub open spec fn wf(self) -> bool {
        &&& self.memory.len() == MEMORY_SIZE
        &&& self.registers.len() == REGISTER_COUNT
        &&& self.stack.len() == STACK_DEPTH
        &&& self.display.len() == DISPLAY_BYTES
        &&& self.sp <= STACK_DEPTH
    }

    /// The state right after creation: everything zero but the program
    /// counter, which is at the program start, and the framebuffer, whose
    /// bytes all hold `POWER_ON_DISPLAY_BYTE`. Unknown opcodes reset.
    pub open spec fn power_on() -> Machine {
        Machine {
            memory: filled(MEMORY_SIZE as nat, 0u8),
            registers: filled(REGISTER_COUNT as nat, 0u8),
            stack: filled(STACK_DEPTH as nat, 0u16),
            i: 0,
            pc: PROGRAM_START,
            sp: 0,
            dt: 0,
            st: 0,
            display: filled(DISPLAY_BYTES as nat, POWER_ON_DISPLAY_BYTE),
            keyboard: 0,
            last_tick_time: 0,
            policy: UnknownOpcodePolicy::Reset,
        }
    }

    /// The state after a reset: all hardware state zero, the program counter
    /// at the program start. The timer reference and the unknown-opcode
    /// policy are not hardware state and stay as they are.
    pub open spec fn reset(self) -> Machine {
        Machine {
            memory: filled(MEMORY_SIZE as nat, 0u8),
            registers: filled(REGISTER_COUNT as nat, 0u8),
            stack: filled(STACK_DEPTH as nat, 0u16),
            i: 0,
            pc: PROGRAM_START,
            sp: 0,
            dt: 0,
            st: 0,
            display: filled(DISPLAY_BYTES as nat, 0u8),
            keyboard: 0,
            last_tick_time: self.last_tick_time,
            policy: self.policy,
        }
    }

    /// Register `x`.
    pub open spec fn v(self, x: int) -> u8 {
        self.registers[x]
    }

    /// VF.
    pub open spec fn vf(self) -> u8 {
        self.registers[FLAG_REGISTER as int]
    }

    /// The same machine with register `x` holding `value`.
    pub open spec fn with_v(self, x: int, value: u8) -> Machine {
        Machine { registers: self.registers.update(x, value), ..self }
    }

    /// The same machine with the program counter at `pc`.
    pub open spec fn with_pc(self, pc: u16) -> Machine {
        Machine { pc, ..self }
    }
}

} // verus!
