//! The machine itself: its state, and what the host can do to it between
//! steps.

use vstd::prelude::*;
use crate::fault::UnknownOpcodePolicy;
use crate::keypad::{pressed, released};
use crate::machine::{
    filled, overlay, Machine, DISPLAY_BYTES, MEMORY_SIZE, POWER_ON_DISPLAY_BYTE, PROGRAM_START,
    REGISTER_COUNT, STACK_DEPTH,
};
use crate::timer::{decay, periods_between, reference_between, timers_after};

pub mod exec;

verus! {

/// Most bytes a program can have: what fits between the program start and
/// the end of memory.
pub const MAX_PROGRAM_BYTES: usize = 3584;

/// Bytes of the font table: sixteen glyphs of five rows each.
pub const FONT_BYTES: usize = 80;

/// The virtual hardware.
pub struct CPU {
    memory: [u8; 4096],
    gpr: [u8; 16],
    stack: [u16; 16],
    i: u16,
    pc: u16,
    sp: u8,
    dt: u8,
    st: u8,
    display: [u8; 6144],
    keyboard: u16,
    last_tick_time: u64,
    policy: UnknownOpcodePolicy,
}

impl View for CPU {
    type V = Machine;

    closed spec fn view(&self) -> Machine {
        Machine {
            memory: self.memory@,
            registers: self.gpr@,
            stack: self.stack@,
            i: self.i,
            pc: self.pc,
            sp: self.sp,
            dt: self.dt,
            st: self.st,
            display: self.display@,
            keyboard: self.keyboard,
            last_tick_time: self.last_tick_time,
            policy: self.policy,
        }
    }
}

/// The hexadecimal font: for each digit 0 to F five bytes, each the row of a
/// glyph four pixels wide in its high bits.
pub open spec fn font_table() -> Seq<u8> {
    seq![
        0xF0u8, 0x90u8, 0x90u8, 0x90u8, 0xF0u8,
        0x20u8, 0x60u8, 0x20u8, 0x20u8, 0x70u8,
        0xF0u8, 0x10u8, 0xF0u8, 0x80u8, 0xF0u8,
        0xF0u8, 0x10u8, 0xF0u8, 0x10u8, 0xF0u8,
        0x90u8, 0x90u8, 0xF0u8, 0x10u8, 0x10u8,
        0xF0u8, 0x80u8, 0xF0u8, 0x10u8, 0xF0u8,
        0xF0u8, 0x80u8, 0xF0u8, 0x90u8, 0xF0u8,
        0xF0u8, 0x10u8, 0x20u8, 0x40u8, 0x40u8,
        0xF0u8, 0x90u8, 0xF0u8, 0x90u8, 0xF0u8,
        0xF0u8, 0x90u8, 0xF0u8, 0x10u8, 0xF0u8,
        0xF0u8, 0x90u8, 0xF0u8, 0x90u8, 0x90u8,
        0xE0u8, 0x90u8, 0xE0u8, 0x90u8, 0xE0u8,
        0xF0u8, 0x80u8, 0x80u8, 0x80u8, 0xF0u8,
        0xE0u8, 0x90u8, 0x90u8, 0x90u8, 0xE0u8,
        0xF0u8, 0x80u8, 0xF0u8, 0x80u8, 0xF0u8,
        0xF0u8, 0x80u8, 0xF0u8, 0x80u8, 0x80u8,
    ]
}

/// The font table as bytes.
pub fn hex_sprites() -> (font: [u8; 80])
    ensures
        font@ == font_table(),
{
    let font: [u8; 80] = [
        0xF0, 0x90, 0x90, 0x90, 0xF0,
        0x20, 0x60, 0x20, 0x20, 0x70,
        0xF0, 0x10, 0xF0, 0x80, 0xF0,
        0xF0, 0x10, 0xF0, 0x10, 0xF0,
        0x90, 0x90, 0xF0, 0x10, 0x10,
        0xF0, 0x80, 0xF0, 0x10, 0xF0,
        0xF0, 0x80, 0xF0, 0x90, 0xF0,
        0xF0, 0x10, 0x20, 0x40, 0x40,
        0xF0, 0x90, 0xF0, 0x90, 0xF0,
        0xF0, 0x90, 0xF0, 0x10, 0xF0,
        0xF0, 0x90, 0xF0, 0x90, 0x90,
        0xE0, 0x90, 0xE0, 0x90, 0xE0,
        0xF0, 0x80, 0x80, 0x80, 0xF0,
        0xE0, 0x90, 0x90, 0x90, 0xE0,
        0xF0, 0x80, 0xF0, 0x80, 0xF0,
        0xF0, 0x80, 0xF0, 0x80, 0x80,
    ];
    assert(font@ =~= font_table());
    font
}

/// Writes `src` over `dst` from index `at` on.
pub fn copy_into<T: Copy>(dst: &mut [T], at: usize, src: &[T])
    requires
        at + src.len() <= old(dst).len(),
    ensures
        final(dst)@ == overlay(old(dst)@, at as int, src@),
{
    let mut j: usize = 0;
    while j < src.len()
        invariant
            j <= src.len(),
            at + src.len() <= dst.len(),
            dst@.len() == old(dst)@.len(),
            dst@ == overlay(old(dst)@, at as int, src@.subrange(0, j as int)),
        decreases src.len() - j,
    {
        dst[at + j] = src[j];
        j = j + 1;
        assert(dst@ =~= overlay(old(dst)@, at as int, src@.subrange(0, j as int)));
    }
    assert(src@.subrange(0, j as int) =~= src@);
}

impl CPU {
    #[verifier::type_invariant]
    spec fn stack_depth_in_range(self) -> bool {
        self.sp <= 16
    }

    /// A machine in its power-on state.
    pub fn new() -> (cpu: CPU)
        ensures
            cpu@ == Machine::power_on(),
            cpu@.wf(),
    {
        let cpu = CPU {
            memory: [0u8; 4096],
            gpr: [0u8; 16],
            stack: [0u16; 16],
            i: 0u16,
            pc: PROGRAM_START,
            sp: 0u8,
            dt: 0u8,
            st: 0u8,
            display: [POWER_ON_DISPLAY_BYTE; 6144],
            keyboard: 0u16,
            last_tick_time: 0u64,
            policy: UnknownOpcodePolicy::Reset,
        };
        assert(cpu@ =~= Machine::power_on());
        cpu
    }

    /// Chooses what a step does on an unknown opcode.
    pub fn set_unknown_opcode_policy(&mut self, policy: UnknownOpcodePolicy)
        ensures
            final(self)@ == (Machine { policy, ..old(self)@ }),
    {
        proof {
            use_type_invariant(&*self);
        }
        self.policy = policy;
    }

    /// What a step does on an unknown opcode.
    pub fn get_unknown_opcode_policy(&self) -> (policy: UnknownOpcodePolicy)
        ensures
            policy == self@.policy,
    {
        self.policy
    }

    /// Writes the hexadecimal font to the start of memory.
    pub fn init_hex_sprites(&mut self)
        ensures
            final(self)@ == (Machine {
                memory: overlay(old(self)@.memory, 0, font_table()),
                ..old(self)@
            }),
    {
        proof {
            use_type_invariant(&*self);
        }
        let font = hex_sprites();
        copy_into(&mut self.memory, 0, &font);
        assert(self@ =~= (Machine {
            memory: overlay(old(self)@.memory, 0, font_table()),
            ..old(self)@
        }));
    }

    /// Writes a program to memory from the program start on.
    pub fn load_program_memory(&mut self, memory: Vec<u8>)
        requires
            memory.len() <= MAX_PROGRAM_BYTES,
        ensures
            final(self)@ == (Machine {
                memory: overlay(old(self)@.memory, PROGRAM_START as int, memory@),
                ..old(self)@
            }),
    {
        proof {
            use_type_invariant(&*self);
        }
        copy_into(&mut self.memory, PROGRAM_START as usize, memory.as_slice());
        assert(self@ =~= (Machine {
            memory: overlay(old(self)@.memory, PROGRAM_START as int, memory@),
            ..old(self)@
        }));
    }

    /// The program counter.
    pub fn get_pc(&self) -> (pc: u16)
        ensures
            pc == self@.pc,
    {
        self.pc
    }

    /// The delay timer.
    pub fn get_dt(&self) -> (dt: u8)
        ensures
            dt == self@.dt,
    {
        self.dt
    }

    /// The sound timer.
    pub fn get_st(&self) -> (st: u8)
        ensures
            st == self@.st,
    {
        self.st
    }

    /// The index register.
    pub fn get_i(&self) -> (i: u16)
        ensures
            i == self@.i,
    {
        self.i
    }

    /// The number of call-stack slots in use, 0 to 16.
    pub fn get_sp(&self) -> (sp: u8)
        ensures
            sp == self@.sp,
            sp <= STACK_DEPTH,
    {
        proof {
            use_type_invariant(self);
        }
        self.sp
    }

    /// Records that key `key_code` went down.
    pub fn set_key_down(&mut self, key_code: u32)
        requires
            key_code < 16,
        ensures
            final(self)@ == (Machine {
                keyboard: pressed(old(self)@.keyboard, key_code as u16),
                ..old(self)@
            }),
    {
        proof {
            use_type_invariant(&*self);
        }
        self.keyboard = self.keyboard | (1u16 << (key_code as u16));
    }

    /// Records that key `key_code` went up.
    pub fn set_key_up(&mut self, key_code: u32)
        requires
            key_code < 16,
        ensures
            final(self)@ == (Machine {
                keyboard: released(old(self)@.keyboard, key_code as u16),
                ..old(self)@
            }),
    {
        proof {
            use_type_invariant(&*self);
        }
        self.keyboard = self.keyboard & !(1u16 << (key_code as u16));
    }

    /// Zeroes all hardware state and puts the program counter at the program
    /// start.
    pub fn reset(&mut self)
        ensures
            final(self)@ == old(self)@.reset(),
            final(self)@.wf(),
    {
        proof {
            use_type_invariant(&*self);
        }
        self.memory = [0u8; 4096];
        self.gpr = [0u8; 16];
        self.stack = [0u16; 16];
        self.i = 0;
        self.pc = PROGRAM_START;
        self.sp = 0;
        self.dt = 0;
        self.st = 0;
        self.display = [0u8; 6144];
        self.keyboard = 0;
        assert(self@ =~= old(self)@.reset());
    }

    /// Decays both timers by the whole 60 Hz periods that have passed up to
    /// `time`, a timestamp in milliseconds. A timestamp before the last one
    /// taken in counts as no time passed and becomes the new reference.
    pub fn tick_timers(&mut self, time: u64)
        ensures
            final(self)@ == timers_after(old(self)@, time),
            final(self)@.dt <= old(self)@.dt,
            final(self)@.st <= old(self)@.st,
    {
        proof {
            use_type_invariant(&*self);
        }
        let periods = periods_between(self.last_tick_time, time);
        self.last_tick_time = reference_between(self.last_tick_time, time);
        self.dt = decay(self.dt, periods);
        self.st = decay(self.st, periods);
    }

    /// Zeroes memory, then writes `new_memory` from the program start on.
    pub fn set_memory(&mut self, new_memory: &[u8])
        requires
            new_memory.len() <= MAX_PROGRAM_BYTES,
        ensures
            final(self)@ == (Machine {
                memory: overlay(
                    filled(MEMORY_SIZE as nat, 0u8),
                    PROGRAM_START as int,
                    new_memory@,
                ),
                ..old(self)@
            }),
    {
        proof {
            use_type_invariant(&*self);
        }
        self.memory = [0u8; 4096];
        assert(self.memory@ =~= filled(MEMORY_SIZE as nat, 0u8));
        copy_into(&mut self.memory, PROGRAM_START as usize, new_memory);
        assert(self@ =~= (Machine {
            memory: overlay(filled(MEMORY_SIZE as nat, 0u8), PROGRAM_START as int, new_memory@),
            ..old(self)@
        }));
    }

    /// Writes `new_display` over the start of the framebuffer.
    pub fn set_display(&mut self, new_display: &[u8])
        requires
            new_display.len() <= DISPLAY_BYTES,
        ensures
            final(self)@ == (Machine {
                display: overlay(old(self)@.display, 0, new_display@),
                ..old(self)@
            }),
    {
        proof {
            use_type_invariant(&*self);
        }
        copy_into(&mut self.display, 0, new_display);
        assert(self@ =~= (Machine {
            display: overlay(old(self)@.display, 0, new_display@),
            ..old(self)@
        }));
    }

    /// Makes `new_stack` the call stack: its entries fill the first slots,
    /// the other slots are zero, and the depth is its length.
    pub fn set_stack(&mut self, new_stack: &[u16])
        requires
            new_stack.len() <= STACK_DEPTH,
        ensures
            final(self)@ == (Machine {
                stack: overlay(filled(STACK_DEPTH as nat, 0u16), 0, new_stack@),
                sp: new_stack.len() as u8,
                ..old(self)@
            }),
            final(self)@.wf(),
    {
        proof {
            use_type_invariant(&*self);
        }
        self.stack = [0u16; 16];
        assert(self.stack@ =~= filled(STACK_DEPTH as nat, 0u16));
        copy_into(&mut self.stack, 0, new_stack);
        self.sp = new_stack.len() as u8;
        assert(self@ =~= (Machine {
            stack: overlay(filled(STACK_DEPTH as nat, 0u16), 0, new_stack@),
            sp: new_stack.len() as u8,
            ..old(self)@
        }));
    }

    /// Makes `new_registers` the first registers and zeroes the others.
    pub fn set_registers(&mut self, new_registers: &[u8])
        requires
            new_registers.len() <= REGISTER_COUNT,
        ensures
            final(self)@ == (Machine {
                registers: overlay(filled(REGISTER_COUNT as nat, 0u8), 0, new_registers@),
                ..old(self)@
            }),
    {
        proof {
            use_type_invariant(&*self);
        }
        self.gpr = [0u8; 16];
        assert(self.gpr@ =~= filled(REGISTER_COUNT as nat, 0u8));
        copy_into(&mut self.gpr, 0, new_registers);
        assert(self@ =~= (Machine {
            registers: overlay(filled(REGISTER_COUNT as nat, 0u8), 0, new_registers@),
            ..old(self)@
        }));
    }

    /// Sets the index register.
    pub fn set_i(&mut self, i: u16)
        ensures
            final(self)@ == (Machine { i, ..old(self)@ }),
    {
        proof {
            use_type_invariant(&*self);
        }
        self.i = i;
    }

    /// Sets the whole keyboard bitmask.
    pub fn set_keyboard(&mut self, keyboard: u16)
        ensures
            final(self)@ == (Machine { keyboard, ..old(self)@ }),
    {
        proof {
            use_type_invariant(&*self);
        }
        self.keyboard = keyboard;
    }

    /// Sets the delay timer.
    pub fn set_dt(&mut self, dt: u8)
        ensures
            final(self)@ == (Machine { dt, ..old(self)@ }),
    {
        proof {
            use_type_invariant(&*self);
        }
        self.dt = dt;
    }

    /// A copy of the call stack, all sixteen slots.
    pub fn get_stack(&self) -> (stack: [u16; 16])
        ensures
            stack@ == self@.stack,
    {
        self.stack
    }

    /// A copy of the registers V0 to VF.
    pub fn get_registers(&self) -> (registers: [u8; 16])
        ensures
            registers@ == self@.registers,
    {
        self.gpr
    }

    /// A copy of the framebuffer.
    pub fn get_display(&self) -> (display: [u8; 6144])
        ensures
            display@ == self@.display,
    {
        self.display
    }

    /// A copy of memory.
    pub fn get_memory(&self) -> (memory: [u8; 4096])
        ensures
            memory@ == self@.memory,
    {
        self.memory
    }

    /// The framebuffer in place.
    pub fn display_ref(&self) -> (display: &[u8; 6144])
        ensures
            display@ == self@.display,
    {
        &self.display
    }

    /// Memory in place.
    pub fn memory_ref(&self) -> (memory: &[u8; 4096])
        ensures
            memory@ == self@.memory,
    {
        &self.memory
    }

    /// The call stack in place.
    pub fn stack_ref(&self) -> (stack: &[u16; 16])
        ensures
            stack@ == self@.stack,
    {
        &self.stack
    }

    /// The registers in place.
    pub fn registers_ref(&self) -> (registers: &[u8; 16])
        ensures
            registers@ == self@.registers,
    {
        &self.gpr
    }
}

impl Default for CPU {
    fn default() -> (cpu: CPU)
        ensures
            cpu@ == Machine::power_on(),
    {
        CPU::new()
    }
}

} // verus!
