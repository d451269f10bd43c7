//! The executor: one method per instruction, the dispatch over them, and the
//! fetch-decode-execute step.

use vstd::prelude::*;
use crate::cpu::CPU;
use crate::decode::{decode, Instruction};
use crate::display::{blit, clear, collides, draw_sprite, PIXEL_OFF};
use crate::fault::{Fault, UnknownOpcodePolicy};
use crate::keypad::{first_key_down, is_key_down, key_down, lowest_key};
use crate::machine::{filled, overlay, Machine, DISPLAY_BYTES, FLAG_REGISTER, MEMORY_SIZE};
use crate::semantics::{
    after_step, bcd_digits, execute, flag, in_memory, skip_if, step_outcome, with_result_and_flag,
};

verus! {

/// The highest value the program counter can have once a fetch has moved it
/// past an opcode.
pub const MAX_ADVANCED_PC: u16 = 4096;

impl CPU {
    /// Moves the program counter past the next instruction if `skip` holds.
    fn skip_next_if(&mut self, skip: bool)
        requires
            old(self)@.pc <= MAX_ADVANCED_PC,
        ensures
            final(self)@ == skip_if(old(self)@, skip),
    {
        proof {
            use_type_invariant(&*self);
        }
        if skip {
            self.pc = self.pc + 2;
        }
    }

    /// Puts `value` into register `x`.
    fn put(&mut self, x: u8, value: u8)
        requires
            x < 16,
        ensures
            final(self)@ == old(self)@.with_v(x as int, value),
    {
        proof {
            use_type_invariant(&*self);
        }
        self.gpr[x as usize] = value;
        assert(self@ =~= old(self)@.with_v(x as int, value));
    }

    /// Puts `value` into register `x`, then `flag` into VF.
    fn put_with_flag(&mut self, x: u8, value: u8, flag: u8)
        requires
            x < 16,
        ensures
            final(self)@ == with_result_and_flag(old(self)@, x as int, value, flag),
    {
        proof {
            use_type_invariant(&*self);
        }
        self.gpr[x as usize] = value;
        self.gpr[FLAG_REGISTER] = flag;
        assert(self@ =~= with_result_and_flag(old(self)@, x as int, value, flag));
    }

    /// `00E0`: switches every pixel off.
    fn instruction_cls(&mut self)
        ensures
            final(self)@ == (Machine {
                display: filled(DISPLAY_BYTES as nat, PIXEL_OFF),
                ..old(self)@
            }),
    {
        proof {
            use_type_invariant(&*self);
        }
        clear(&mut self.display);
        assert(self@ =~= (Machine {
            display: filled(DISPLAY_BYTES as nat, PIXEL_OFF),
            ..old(self)@
        }));
    }

    /// `00EE`: pops the program counter off the call stack. Fails, changing
    /// nothing, if the stack is empty.
    fn instruction_ret(&mut self) -> (r: Result<(), Fault>)
        ensures
            old(self)@.sp == 0 ==> r == Err::<(), Fault>(Fault::StackUnderflow) && final(self)@
                == old(self)@,
            old(self)@.sp > 0 ==> r is Ok && final(self)@ == (Machine {
                sp: (old(self)@.sp - 1) as u8,
                pc: old(self)@.stack[old(self)@.sp - 1],
                ..old(self)@
            }),
    {
        proof {
            use_type_invariant(&*self);
        }
        if self.sp == 0 {
            return Err(Fault::StackUnderflow);
        }
        self.sp = self.sp - 1;
        self.pc = self.stack[self.sp as usize];
        Ok(())
    }

    /// `1nnn`: continues at `addr`.
    fn instruction_jp(&mut self, addr: u16)
        ensures
            final(self)@ == old(self)@.with_pc(addr),
    {
        proof {
            use_type_invariant(&*self);
        }
        self.pc = addr;
    }

    /// `2nnn`: pushes the program counter and continues at `addr`. Fails,
    /// changing nothing, if the stack is full.
    fn instruction_call(&mut self, addr: u16) -> (r: Result<(), Fault>)
        ensures
            old(self)@.sp >= 16 ==> r == Err::<(), Fault>(Fault::StackOverflow) && final(self)@
                == old(self)@,
            old(self)@.sp < 16 ==> r is Ok && final(self)@ == (Machine {
                stack: old(self)@.stack.update(old(self)@.sp as int, old(self)@.pc),
                sp: (old(self)@.sp + 1) as u8,
                pc: addr,
                ..old(self)@
            }),
    {
        proof {
            use_type_invariant(&*self);
        }
        if self.sp >= 16 {
            return Err(Fault::StackOverflow);
        }
        self.stack[self.sp as usize] = self.pc;
        self.sp = self.sp + 1;
        self.pc = addr;
        assert(self@ =~= (Machine {
            stack: old(self)@.stack.update(old(self)@.sp as int, old(self)@.pc),
            sp: (old(self)@.sp + 1) as u8,
            pc: addr,
            ..old(self)@
        }));
        Ok(())
    }

    /// `3xkk`: skips the next instruction if Vx equals `kk`.
    fn instruction_se_byte(&mut self, x: u8, kk: u8)
        requires
            x < 16,
            old(self)@.pc <= MAX_ADVANCED_PC,
        ensures
            final(self)@ == skip_if(old(self)@, old(self)@.v(x as int) == kk),
    {
        let skip = self.gpr[x as usize] == kk;
        self.skip_next_if(skip);
    }

    /// `4xkk`: skips the next instruction if Vx differs from `kk`.
    fn instruction_sne_byte(&mut self, x: u8, kk: u8)
        requires
            x < 16,
            old(self)@.pc <= MAX_ADVANCED_PC,
        ensures
            final(self)@ == skip_if(old(self)@, old(self)@.v(x as int) != kk),
    {
        let skip = self.gpr[x as usize] != kk;
        self.skip_next_if(skip);
    }

    /// `5xy0`: skips the next instruction if Vx equals Vy.
    fn instruction_se_gpr(&mut self, x: u8, y: u8)
        requires
            x < 16,
            y < 16,
            old(self)@.pc <= MAX_ADVANCED_PC,
        ensures
            final(self)@ == skip_if(old(self)@, old(self)@.v(x as int) == old(self)@.v(y as int)),
    {
        let skip = self.gpr[x as usize] == self.gpr[y as usize];
        self.skip_next_if(skip);
    }

    /// `6xkk`: Vx = `kk`.
    fn instruction_ld_byte(&mut self, x: u8, kk: u8)
        requires
            x < 16,
        ensures
            final(self)@ == old(self)@.with_v(x as int, kk),
    {
        self.put(x, kk);
    }

    /// `7xkk`: Vx = (Vx + `kk`) mod 256. No flag is written.
    fn instruction_add_byte(&mut self, x: u8, kk: u8)
        requires
            x < 16,
        ensures
            final(self)@ == old(self)@.with_v(
                x as int,
                ((old(self)@.v(x as int) + kk) % 256) as u8,
            ),
    {
        let sum: u16 = self.gpr[x as usize] as u16 + kk as u16;
        self.put(x, (sum % 256) as u8);
    }

    /// `8xy0`: Vx = Vy.
    fn instruction_ld_gpr(&mut self, x: u8, y: u8)
        requires
            x < 16,
            y < 16,
        ensures
            final(self)@ == old(self)@.with_v(x as int, old(self)@.v(y as int)),
    {
        let value = self.gpr[y as usize];
        self.put(x, value);
    }

    /// `8xy1`: Vx = Vx OR Vy.
    fn instruction_or_gpr(&mut self, x: u8, y: u8)
        requires
            x < 16,
            y < 16,
        ensures
            final(self)@ == old(self)@.with_v(
                x as int,
                old(self)@.v(x as int) | old(self)@.v(y as int),
            ),
    {
        let value = self.gpr[x as usize] | self.gpr[y as usize];
        self.put(x, value);
    }

    /// `8xy2`: Vx = Vx AND Vy.
    fn instruction_and_gpr(&mut self, x: u8, y: u8)
        requires
            x < 16,
            y < 16,
        ensures
            final(self)@ == old(self)@.with_v(
                x as int,
                old(self)@.v(x as int) & old(self)@.v(y as int),
            ),
    {
        let value = self.gpr[x as usize] & self.gpr[y as usize];
        self.put(x, value);
    }

    /// `8xy3`: Vx = Vx XOR Vy.
    fn instruction_xor_gpr(&mut self, x: u8, y: u8)
        requires
            x < 16,
            y < 16,
        ensures
            final(self)@ == old(self)@.with_v(
                x as int,
                old(self)@.v(x as int) ^ old(self)@.v(y as int),
            ),
    {
        let value = self.gpr[x as usize] ^ self.gpr[y as usize];
        self.put(x, value);
    }

    /// `8xy4`: Vx = (Vx + Vy) mod 256, then VF = 1 if the sum is over 255,
    /// else 0.
    fn instruction_add_gpr(&mut self, x: u8, y: u8)
        requires
            x < 16,
            y < 16,
        ensures
            final(self)@ == with_result_and_flag(
                old(self)@,
                x as int,
                ((old(self)@.v(x as int) + old(self)@.v(y as int)) % 256) as u8,
                flag(old(self)@.v(x as int) + old(self)@.v(y as int) > 255),
            ),
    {
        let sum: u16 = self.gpr[x as usize] as u16 + self.gpr[y as usize] as u16;
        let carry: u8 = if sum > 255 {
            1
        } else {
            0
        };
        self.put_with_flag(x, (sum % 256) as u8, carry);
    }

    /// `8xy5`: Vx = (Vx - Vy) mod 256, then VF = 1 if Vx was at least Vy,
    /// else 0.
    fn instruction_sub_gpr(&mut self, x: u8, y: u8)
        requires
            x < 16,
            y < 16,
        ensures
            final(self)@ == with_result_and_flag(
                old(self)@,
                x as int,
                ((old(self)@.v(x as int) - old(self)@.v(y as int)) % 256) as u8,
                flag(old(self)@.v(x as int) >= old(self)@.v(y as int)),
            ),
    {
        let vx: u8 = self.gpr[x as usize];
        let vy: u8 = self.gpr[y as usize];
        let difference: u16 = (256u16 + vx as u16 - vy as u16) % 256;
        let no_borrow: u8 = if vx >= vy {
            1
        } else {
            0
        };
        self.put_with_flag(x, difference as u8, no_borrow);
    }

    /// `8xy6`: Vx = Vx shifted right by one, then VF = the bit shifted out.
    fn instruction_shr_gpr(&mut self, x: u8)
        requires
            x < 16,
        ensures
            final(self)@ == with_result_and_flag(
                old(self)@,
                x as int,
                old(self)@.v(x as int) >> 1u8,
                old(self)@.v(x as int) & 1,
            ),
    {
        let vx: u8 = self.gpr[x as usize];
        self.put_with_flag(x, vx >> 1u8, vx & 1);
    }

    /// `8xy7`: Vx = (Vy - Vx) mod 256, then VF = 1 if Vy was at least Vx,
    /// else 0.
    fn instruction_subn_gpr(&mut self, x: u8, y: u8)
        requires
            x < 16,
            y < 16,
        ensures
            final(self)@ == with_result_and_flag(
                old(self)@,
                x as int,
                ((old(self)@.v(y as int) - old(self)@.v(x as int)) % 256) as u8,
                flag(old(self)@.v(y as int) >= old(self)@.v(x as int)),
            ),
    {
        let vx: u8 = self.gpr[x as usize];
        let vy: u8 = self.gpr[y as usize];
        let difference: u16 = (256u16 + vy as u16 - vx as u16) % 256;
        let no_borrow: u8 = if vy >= vx {
            1
        } else {
            0
        };
        self.put_with_flag(x, difference as u8, no_borrow);
    }

    /// `8xyE`: Vx = Vx shifted left by one, then VF = the bit shifted out.
    fn instruction_shl_gpr(&mut self, x: u8)
        requires
            x < 16,
        ensures
            final(self)@ == with_result_and_flag(
                old(self)@,
                x as int,
                old(self)@.v(x as int) << 1u8,
                (old(self)@.v(x as int) >> 7u8) & 1,
            ),
    {
        let vx: u8 = self.gpr[x as usize];
        self.put_with_flag(x, vx << 1u8, (vx >> 7u8) & 1);
    }

    /// `9xy0`: skips the next instruction if Vx differs from Vy.
    fn instruction_sne_gpr(&mut self, x: u8, y: u8)
        requires
            x < 16,
            y < 16,
            old(self)@.pc <= MAX_ADVANCED_PC,
        ensures
            final(self)@ == skip_if(old(self)@, old(self)@.v(x as int) != old(self)@.v(y as int)),
    {
        let skip = self.gpr[x as usize] != self.gpr[y as usize];
        self.skip_next_if(skip);
    }

    /// `Annn`: I = `addr`.
    fn instruction_ldi(&mut self, addr: u16)
        ensures
            final(self)@ == (Machine { i: addr, ..old(self)@ }),
    {
        proof {
            use_type_invariant(&*self);
        }
        self.i = addr;
    }

    /// `Bnnn`: continues at V0 + `addr`. Fails, changing nothing, if that
    /// address is outside memory.
    fn instruction_jpv0(&mut self, addr: u16) -> (r: Result<(), Fault>)
        requires
            addr < 4096,
        ensures
            old(self)@.v(0) + addr >= MEMORY_SIZE ==> r == Err::<(), Fault>(Fault::MemoryRange)
                && final(self)@ == old(self)@,
            old(self)@.v(0) + addr < MEMORY_SIZE ==> r is Ok && final(self)@ == old(
                self,
            )@.with_pc((old(self)@.v(0) + addr) as u16),
    {
        proof {
            use_type_invariant(&*self);
        }
        let target: u16 = self.gpr[0] as u16 + addr;
        if target as usize >= MEMORY_SIZE {
            return Err(Fault::MemoryRange);
        }
        self.pc = target;
        Ok(())
    }

    /// `Cxkk`: Vx = `random` AND `kk`.
    fn instruction_rnd(&mut self, x: u8, kk: u8, random: u8)
        requires
            x < 16,
        ensures
            final(self)@ == old(self)@.with_v(x as int, random & kk),
    {
        self.put(x, random & kk);
    }

    /// `Dxyn`: draws the `n`-row sprite found at I with its origin at
    /// (Vx, Vy), then VF = 1 if a pixel went off, else 0. Fails, changing
    /// nothing, if the sprite does not lie in memory.
    fn instruction_drw(&mut self, x: u8, y: u8, n: u8) -> (r: Result<(), Fault>)
        requires
            x < 16,
            y < 16,
            n < 16,
        ensures
            !in_memory(old(self)@.i as int, n as int) ==> r == Err::<(), Fault>(
                Fault::MemoryRange,
            ) && final(self)@ == old(self)@,
            in_memory(old(self)@.i as int, n as int) ==> r is Ok && final(self)@ == ({
                let m = old(self)@;
                let sprite = m.memory.subrange(m.i as int, m.i + n);
                let x0 = m.v(x as int) as int;
                let y0 = m.v(y as int) as int;
                Machine {
                    display: blit(m.display, sprite, x0, y0),
                    registers: m.registers.update(
                        FLAG_REGISTER as int,
                        flag(collides(m.display, sprite, x0, y0)),
                    ),
                    ..m
                }
            }),
    {
        proof {
            use_type_invariant(&*self);
        }
        let x_origin: u8 = self.gpr[x as usize];
        let y_origin: u8 = self.gpr[y as usize];
        let sprite_start: usize = self.i as usize;
        if sprite_start + n as usize > MEMORY_SIZE {
            return Err(Fault::MemoryRange);
        }
        let collision = draw_sprite(
            &mut self.display,
            &self.memory,
            sprite_start,
            n as usize,
            x_origin,
            y_origin,
        );
        self.gpr[FLAG_REGISTER] = if collision {
            1
        } else {
            0
        };
        assert(self@ =~= ({
            let m = old(self)@;
            let sprite = m.memory.subrange(m.i as int, m.i + n);
            let x0 = m.v(x as int) as int;
            let y0 = m.v(y as int) as int;
            Machine {
                display: blit(m.display, sprite, x0, y0),
                registers: m.registers.update(
                    FLAG_REGISTER as int,
                    flag(collides(m.display, sprite, x0, y0)),
                ),
                ..m
            }
        }));
        Ok(())
    }

    /// `Ex9E`: skips the next instruction if key Vx is down.
    fn instruction_skp(&mut self, x: u8)
        requires
            x < 16,
            old(self)@.pc <= MAX_ADVANCED_PC,
        ensures
            final(self)@ == skip_if(
                old(self)@,
                key_down(old(self)@.keyboard, old(self)@.v(x as int) as int),
            ),
    {
        let skip = is_key_down(self.keyboard, self.gpr[x as usize]);
        self.skip_next_if(skip);
    }

    /// `ExA1`: skips the next instruction if key Vx is up.
    fn instruction_sknp(&mut self, x: u8)
        requires
            x < 16,
            old(self)@.pc <= MAX_ADVANCED_PC,
        ensures
            final(self)@ == skip_if(
                old(self)@,
                !key_down(old(self)@.keyboard, old(self)@.v(x as int) as int),
            ),
    {
        let skip = !is_key_down(self.keyboard, self.gpr[x as usize]);
        self.skip_next_if(skip);
    }

    /// `Fx07`: Vx = delay timer.
    fn instruction_ld_gpr_dt(&mut self, x: u8)
        requires
            x < 16,
        ensures
            final(self)@ == old(self)@.with_v(x as int, old(self)@.dt),
    {
        let value = self.dt;
        self.put(x, value);
    }

    /// `Fx0A`: with no key down, moves the program counter back onto this
    /// instruction, so that the next step meets it again; with a key down,
    /// Vx = the lowest key that is down.
    fn instruction_ld_kp(&mut self, x: u8)
        requires
            x < 16,
            old(self)@.pc >= 2,
        ensures
            old(self)@.keyboard == 0 ==> final(self)@ == old(self)@.with_pc(
                (old(self)@.pc - 2) as u16,
            ),
            old(self)@.keyboard != 0 ==> final(self)@ == old(self)@.with_v(
                x as int,
                lowest_key(old(self)@.keyboard) as u8,
            ),
    {
        proof {
            use_type_invariant(&*self);
        }
        match first_key_down(self.keyboard) {
            None => {
                self.pc = self.pc - 2;
            },
            Some(key) => {
                self.put(x, key);
            },
        }
    }

    /// `Fx15`: delay timer = Vx.
    fn instruction_ld_dt_gpr(&mut self, x: u8)
        requires
            x < 16,
        ensures
            final(self)@ == (Machine { dt: old(self)@.v(x as int), ..old(self)@ }),
    {
        proof {
            use_type_invariant(&*self);
        }
        self.dt = self.gpr[x as usize];
    }

    /// `Fx18`: sound timer = Vx.
    fn instruction_ld_st_gpr(&mut self, x: u8)
        requires
            x < 16,
        ensures
            final(self)@ == (Machine { st: old(self)@.v(x as int), ..old(self)@ }),
    {
        proof {
            use_type_invariant(&*self);
        }
        self.st = self.gpr[x as usize];
    }

    /// `Fx1E`: I = I + Vx. Fails, changing nothing, if that address is
    /// outside memory.
    fn instruction_add_i_gpr(&mut self, x: u8) -> (r: Result<(), Fault>)
        requires
            x < 16,
        ensures
            old(self)@.i + old(self)@.v(x as int) >= MEMORY_SIZE ==> r == Err::<(), Fault>(
                Fault::MemoryRange,
            ) && final(self)@ == old(self)@,
            old(self)@.i + old(self)@.v(x as int) < MEMORY_SIZE ==> r is Ok && final(self)@ == (
            Machine { i: (old(self)@.i + old(self)@.v(x as int)) as u16, ..old(self)@ }),
    {
        proof {
            use_type_invariant(&*self);
        }
        let sum: u32 = self.i as u32 + self.gpr[x as usize] as u32;
        if sum >= 4096 {
            return Err(Fault::MemoryRange);
        }
        self.i = sum as u16;
        Ok(())
    }

    /// `Fx29`: I = Vx times 5, where the glyph for digit Vx starts when the
    /// font table sits at address 0.
    fn instruction_ld_i_font(&mut self, x: u8)
        requires
            x < 16,
        ensures
            final(self)@ == (Machine { i: (old(self)@.v(x as int) * 5) as u16, ..old(self)@ }),
    {
        proof {
            use_type_invariant(&*self);
        }
        self.i = self.gpr[x as usize] as u16 * 5;
    }

    /// `Fx33`: writes the hundreds, tens and ones digit of Vx to I, I+1 and
    /// I+2. Fails, changing nothing, if those do not all lie in memory.
    fn instruction_bcd(&mut self, x: u8) -> (r: Result<(), Fault>)
        requires
            x < 16,
        ensures
            !in_memory(old(self)@.i as int, 3) ==> r == Err::<(), Fault>(Fault::MemoryRange)
                && final(self)@ == old(self)@,
            in_memory(old(self)@.i as int, 3) ==> r is Ok && final(self)@ == (Machine {
                memory: overlay(
                    old(self)@.memory,
                    old(self)@.i as int,
                    bcd_digits(old(self)@.v(x as int)),
                ),
                ..old(self)@
            }),
    {
        proof {
            use_type_invariant(&*self);
        }
        let value: u8 = self.gpr[x as usize];
        let output_address: usize = self.i as usize;
        if output_address + 3 > MEMORY_SIZE {
            return Err(Fault::MemoryRange);
        }
        self.memory[output_address] = value / 100;
        self.memory[output_address + 1] = (value / 10) % 10;
        self.memory[output_address + 2] = value % 10;
        assert(self@ =~= (Machine {
            memory: overlay(
                old(self)@.memory,
                old(self)@.i as int,
                bcd_digits(old(self)@.v(x as int)),
            ),
            ..old(self)@
        }));
        Ok(())
    }

    /// `Fx55`: writes V0 to Vx, each register in turn, to memory from I on.
    /// Fails, changing nothing, if those bytes do not all lie in memory.
    fn instruction_ld_i_vx(&mut self, x: u8) -> (r: Result<(), Fault>)
        requires
            x < 16,
        ensures
            !in_memory(old(self)@.i as int, x + 1) ==> r == Err::<(), Fault>(Fault::MemoryRange)
                && final(self)@ == old(self)@,
            in_memory(old(self)@.i as int, x + 1) ==> r is Ok && final(self)@ == (Machine {
                memory: overlay(
                    old(self)@.memory,
                    old(self)@.i as int,
                    old(self)@.registers.subrange(0, x + 1),
                ),
                ..old(self)@
            }),
    {
        proof {
            use_type_invariant(&*self);
        }
        let start: usize = self.i as usize;
        let count: usize = x as usize + 1;
        if start + count > MEMORY_SIZE {
            return Err(Fault::MemoryRange);
        }
        let mut register_index: usize = 0;
        while register_index < count
            invariant
                register_index <= count <= 16,
                start + count <= MEMORY_SIZE,
                start == old(self)@.i,
                self.sp <= 16,
                self@ == (Machine {
                    memory: overlay(
                        old(self)@.memory,
                        start as int,
                        old(self)@.registers.subrange(0, register_index as int),
                    ),
                    ..old(self)@
                }),
            decreases count - register_index,
        {
            self.memory[start + register_index] = self.gpr[register_index];
            register_index = register_index + 1;
            assert(self@ =~= (Machine {
                memory: overlay(
                    old(self)@.memory,
                    start as int,
                    old(self)@.registers.subrange(0, register_index as int),
                ),
                ..old(self)@
            }));
        }
        Ok(())
    }

    /// `Fx65`: reads V0 to Vx, each register in turn, from memory from I on.
    /// Fails, changing nothing, if those bytes do not all lie in memory.
    fn instruction_ld_vx_i(&mut self, x: u8) -> (r: Result<(), Fault>)
        requires
            x < 16,
        ensures
            !in_memory(old(self)@.i as int, x + 1) ==> r == Err::<(), Fault>(Fault::MemoryRange)
                && final(self)@ == old(self)@,
            in_memory(old(self)@.i as int, x + 1) ==> r is Ok && final(self)@ == (Machine {
                registers: overlay(
                    old(self)@.registers,
                    0,
                    old(self)@.memory.subrange(old(self)@.i as int, old(self)@.i + x + 1),
                ),
                ..old(self)@
            }),
    {
        proof {
            use_type_invariant(&*self);
        }
        let start: usize = self.i as usize;
        let count: usize = x as usize + 1;
        if start + count > MEMORY_SIZE {
            return Err(Fault::MemoryRange);
        }
        let mut register_index: usize = 0;
        while register_index < count
            invariant
                register_index <= count <= 16,
                start + count <= MEMORY_SIZE,
                start == old(self)@.i,
                self.sp <= 16,
                self@ == (Machine {
                    registers: overlay(
                        old(self)@.registers,
                        0,
                        old(self)@.memory.subrange(start as int, start + register_index),
                    ),
                    ..old(self)@
                }),
            decreases count - register_index,
        {
            self.gpr[register_index] = self.memory[start + register_index];
            register_index = register_index + 1;
            assert(self@ =~= (Machine {
                registers: overlay(
                    old(self)@.registers,
                    0,
                    old(self)@.memory.subrange(start as int, start + register_index),
                ),
                ..old(self)@
            }));
        }
        Ok(())
    }

    /// Carries out one instruction on a machine whose program counter has
    /// already moved past it. On a fault nothing has changed.
    pub fn execute(&mut self, ins: Instruction, random: u8) -> (r: Result<(), Fault>)
        requires
            ins.operands_in_range(),
            2 <= old(self)@.pc <= MAX_ADVANCED_PC,
        ensures
            match execute(old(self)@, ins, random) {
                Ok(next) => r is Ok && final(self)@ == next,
                Err(fault) => r == Err::<(), Fault>(fault) && final(self)@ == old(self)@,
            },
            final(self)@.wf(),
    {
        proof {
            use_type_invariant(&*self);
        }
        let r = match ins {
            Instruction::Cls => {
                self.instruction_cls();
                Ok(())
            },
            Instruction::Ret => self.instruction_ret(),
            Instruction::Jp { addr } => {
                self.instruction_jp(addr);
                Ok(())
            },
            Instruction::Call { addr } => self.instruction_call(addr),
            Instruction::SeByte { x, kk } => {
                self.instruction_se_byte(x, kk);
                Ok(())
            },
            Instruction::SneByte { x, kk } => {
                self.instruction_sne_byte(x, kk);
                Ok(())
            },
            Instruction::SeReg { x, y } => {
                self.instruction_se_gpr(x, y);
                Ok(())
            },
            Instruction::LdByte { x, kk } => {
                self.instruction_ld_byte(x, kk);
                Ok(())
            },
            Instruction::AddByte { x, kk } => {
                self.instruction_add_byte(x, kk);
                Ok(())
            },
            Instruction::LdReg { x, y } => {
                self.instruction_ld_gpr(x, y);
                Ok(())
            },
            Instruction::Or { x, y } => {
                self.instruction_or_gpr(x, y);
                Ok(())
            },
            Instruction::And { x, y } => {
                self.instruction_and_gpr(x, y);
                Ok(())
            },
            Instruction::Xor { x, y } => {
                self.instruction_xor_gpr(x, y);
                Ok(())
            },
            Instruction::AddReg { x, y } => {
                self.instruction_add_gpr(x, y);
                Ok(())
            },
            Instruction::SubReg { x, y } => {
                self.instruction_sub_gpr(x, y);
                Ok(())
            },
            Instruction::Shr { x } => {
                self.instruction_shr_gpr(x);
                Ok(())
            },
            Instruction::SubnReg { x, y } => {
                self.instruction_subn_gpr(x, y);
                Ok(())
            },
            Instruction::Shl { x } => {
                self.instruction_shl_gpr(x);
                Ok(())
            },
            Instruction::SneReg { x, y } => {
                self.instruction_sne_gpr(x, y);
                Ok(())
            },
            Instruction::LdI { addr } => {
                self.instruction_ldi(addr);
                Ok(())
            },
            Instruction::JpV0 { addr } => self.instruction_jpv0(addr),
            Instruction::Rnd { x, kk } => {
                self.instruction_rnd(x, kk, random);
                Ok(())
            },
            Instruction::Drw { x, y, n } => self.instruction_drw(x, y, n),
            Instruction::Skp { x } => {
                self.instruction_skp(x);
                Ok(())
            },
            Instruction::Sknp { x } => {
                self.instruction_sknp(x);
                Ok(())
            },
            Instruction::LdVxDt { x } => {
                self.instruction_ld_gpr_dt(x);
                Ok(())
            },
            Instruction::LdKey { x } => {
                self.instruction_ld_kp(x);
                Ok(())
            },
            Instruction::LdDtVx { x } => {
                self.instruction_ld_dt_gpr(x);
                Ok(())
            },
            Instruction::LdStVx { x } => {
                self.instruction_ld_st_gpr(x);
                Ok(())
            },
            Instruction::AddI { x } => self.instruction_add_i_gpr(x),
            Instruction::LdFont { x } => {
                self.instruction_ld_i_font(x);
                Ok(())
            },
            Instruction::Bcd { x } => self.instruction_bcd(x),
            Instruction::StoreRegs { x } => self.instruction_ld_i_vx(x),
            Instruction::LoadRegs { x } => self.instruction_ld_vx_i(x),
        };
        proof {
            use_type_invariant(&*self);
        }
        r
    }

    /// One step: fetches the opcode at the program counter, moves the
    /// program counter past it, and carries the instruction out; `random` is
    /// the byte that a `Cxkk` instruction draws. On a fault the machine is as
    /// it was before the step, except that an unknown opcode resets the
    /// machine where the policy says so.
    pub fn tick(&mut self, random: u8) -> (r: Result<(), Fault>)
        ensures
            r == step_outcome(old(self)@, random),
            final(self)@ == after_step(old(self)@, random),
            final(self)@.wf(),
    {
        proof {
            use_type_invariant(&*self);
        }
        let pc: u16 = self.pc;
        if pc as usize + 1 >= MEMORY_SIZE {
            return Err(Fault::MemoryRange);
        }
        let hi: u8 = self.memory[pc as usize];
        let lo: u8 = self.memory[pc as usize + 1];
        match decode(hi, lo) {
            None => {
                match self.policy {
                    UnknownOpcodePolicy::Reset => {
                        self.reset();
                    },
                    UnknownOpcodePolicy::Halt => {},
                }
                let opcode: u16 = hi as u16 * 256 + lo as u16;
                Err(Fault::UnimplementedInstruction(opcode))
            },
            Some(ins) => {
                self.pc = pc + 2;
                assert(self@ == old(self)@.with_pc((old(self)@.pc + 2) as u16));
                match self.execute(ins, random) {
                    Ok(_) => Ok(()),
                    Err(fault) => {
                        proof {
                            use_type_invariant(&*self);
                        }
                        self.pc = pc;
                        assert(self@ =~= old(self)@);
                        Err(fault)
                    },
                }
            },
        }
    }
}

} // verus!
