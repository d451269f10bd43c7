//! Laws of the instruction set: what holds of every machine, stated over the
//! model and proved from the definitions of `execute` and `step`.

use vstd::prelude::*;
use crate::decode::{instruction_of, nibbles_of, Instruction};
use crate::display::{
    blit, collides, is_lit, pixel_index, sprite_bit, sprite_col, sprite_row, toggles, PIXEL_OFF,
};
use crate::fault::{Fault, UnknownOpcodePolicy};
use crate::keypad::{key_down, lemma_lowest_key_from, lemma_no_key_down};
use crate::machine::{Machine, FLAG_REGISTER};
use crate::semantics::{after_step, can_fetch, execute, fetched, flag, step};

verus! {

/// Whatever two bytes are decoded, the register indices of the instruction
/// are below 16, its address below 4096 and its sprite height below 16.
pub proof fn lemma_decoded_operands_in_range(hi: u8, lo: u8)
    ensures
        instruction_of(nibbles_of(hi, lo)) matches Some(ins) ==> ins.operands_in_range(),
{
}

/// A step keeps a well-formed machine well-formed, whether it succeeds or
/// fails.
pub proof fn lemma_step_keeps_wf(m: Machine, random: u8)
    requires
        m.wf(),
    ensures
        after_step(m, random).wf(),
{
    if can_fetch(m) {
        lemma_decoded_operands_in_range(m.memory[m.pc as int], m.memory[m.pc + 1]);
    }
}

/// A step that fails changes nothing, unless it fails on an unknown opcode
/// under the `Reset` policy, which resets the machine.
pub proof fn lemma_failed_step_is_atomic(m: Machine, random: u8)
    requires
        step(m, random) is Err,
    ensures
        after_step(m, random) == m || (step(m, random)->Err_0 is UnimplementedInstruction
            && m.policy == UnknownOpcodePolicy::Reset && after_step(m, random) == m.reset()),
{
}

/// `7xkk` leaves Vx = (Vx + kk) mod 256 and, unless Vx is VF itself, leaves
/// VF as it was.
pub proof fn lemma_add_byte(m: Machine, random: u8, x: u8, kk: u8)
    requires
        m.wf(),
        can_fetch(m),
        fetched(m) == Some(Instruction::AddByte { x, kk }),
    ensures
        step(m, random) matches Ok(next) && next.v(x as int) == (m.v(x as int) + kk) % 256 && (x
            != FLAG_REGISTER ==> next.vf() == m.vf()),
{
    lemma_decoded_operands_in_range(m.memory[m.pc as int], m.memory[m.pc + 1]);
}

/// `8xy4` leaves VF = 1 exactly when the sum Vx + Vy is over 255, else 0,
/// and, unless Vx is VF itself, leaves Vx = the sum mod 256.
pub proof fn lemma_add_reg(m: Machine, random: u8, x: u8, y: u8)
    requires
        m.wf(),
        can_fetch(m),
        fetched(m) == Some(Instruction::AddReg { x, y }),
    ensures
        step(m, random) matches Ok(next) && (next.vf() == 1 <==> m.v(x as int) + m.v(y as int)
            > 255) && (next.vf() == 0 || next.vf() == 1) && (x != FLAG_REGISTER ==> next.v(
            x as int,
        ) == (m.v(x as int) + m.v(y as int)) % 256),
{
    lemma_decoded_operands_in_range(m.memory[m.pc as int], m.memory[m.pc + 1]);
}

/// `8xy5` leaves VF = 1 exactly when Vx is at least Vy, else 0, and, unless
/// Vx is VF itself, leaves Vx = (Vx - Vy) mod 256.
pub proof fn lemma_sub_reg(m: Machine, random: u8, x: u8, y: u8)
    requires
        m.wf(),
        can_fetch(m),
        fetched(m) == Some(Instruction::SubReg { x, y }),
    ensures
        step(m, random) matches Ok(next) && (next.vf() == 1 <==> m.v(x as int) >= m.v(y as int))
            && (next.vf() == 0 || next.vf() == 1) && (x != FLAG_REGISTER ==> next.v(x as int) == (
        m.v(x as int) - m.v(y as int)) % 256),
{
    lemma_decoded_operands_in_range(m.memory[m.pc as int], m.memory[m.pc + 1]);
}

/// `8xy6` leaves VF = the old Vx AND 1 and, unless Vx is VF itself, leaves
/// Vx = the old Vx shifted right by one, which is the old Vx halved.
pub proof fn lemma_shr(m: Machine, random: u8, x: u8)
    requires
        m.wf(),
        can_fetch(m),
        fetched(m) == Some(Instruction::Shr { x }),
    ensures
        step(m, random) matches Ok(next) && next.vf() == m.v(x as int) & 1 && next.vf() == m.v(
            x as int,
        ) % 2 && (x != FLAG_REGISTER ==> next.v(x as int) == m.v(x as int) >> 1u8 && next.v(
            x as int,
        ) == m.v(x as int) / 2),
{
    lemma_decoded_operands_in_range(m.memory[m.pc as int], m.memory[m.pc + 1]);
    let vx = m.v(x as int);
    assert(vx & 1 == vx % 2) by (bit_vector);
    assert(vx >> 1u8 == vx / 2) by (bit_vector);
}

/// `8xy7` leaves VF = 1 exactly when Vy is at least Vx, else 0, and, unless
/// Vx is VF itself, leaves Vx = (Vy - Vx) mod 256.
pub proof fn lemma_subn_reg(m: Machine, random: u8, x: u8, y: u8)
    requires
        m.wf(),
        can_fetch(m),
        fetched(m) == Some(Instruction::SubnReg { x, y }),
    ensures
        step(m, random) matches Ok(next) && (next.vf() == 1 <==> m.v(y as int) >= m.v(x as int))
            && (next.vf() == 0 || next.vf() == 1) && (x != FLAG_REGISTER ==> next.v(x as int) == (
        m.v(y as int) - m.v(x as int)) % 256),
{
    lemma_decoded_operands_in_range(m.memory[m.pc as int], m.memory[m.pc + 1]);
}

/// `8xyE` leaves VF = the highest bit of the old Vx and, unless Vx is VF
/// itself, leaves Vx = the old Vx doubled, mod 256.
pub proof fn lemma_shl(m: Machine, random: u8, x: u8)
    requires
        m.wf(),
        can_fetch(m),
        fetched(m) == Some(Instruction::Shl { x }),
    ensures
        step(m, random) matches Ok(next) && next.vf() == (m.v(x as int) >> 7u8) & 1 && next.vf()
            == m.v(x as int) / 128 && (x != FLAG_REGISTER ==> next.v(x as int) == (m.v(x as int)
            * 2) % 256),
{
    lemma_decoded_operands_in_range(m.memory[m.pc as int], m.memory[m.pc + 1]);
    let vx = m.v(x as int);
    assert((vx >> 7u8) & 1 == vx / 128) by (bit_vector);
    assert(vx << 1u8 == (vx * 2) % 256) by (bit_vector);
}

/// A `CALL` that succeeds, with a `RET` as the next instruction executed,
/// brings the program counter to the address after the `CALL` and the stack
/// depth back to what it was.
pub proof fn lemma_call_then_ret(m: Machine, random1: u8, random2: u8, addr: u16)
    requires
        m.wf(),
        can_fetch(m),
        fetched(m) == Some(Instruction::Call { addr }),
        step(m, random1) matches Ok(called) && can_fetch(called) && fetched(called) == Some(
            Instruction::Ret,
        ),
    ensures
        step(m, random1) matches Ok(called) && step(called, random2) matches Ok(back) && back.pc
            == m.pc + 2 && back.sp == m.sp && back == (Machine {
            stack: m.stack.update(m.sp as int, back.pc),
            pc: back.pc,
            ..m
        }),
{
    let called = step(m, random1)->Ok_0;
    let back = step(called, random2)->Ok_0;
    assert(back =~= (Machine { stack: m.stack.update(m.sp as int, back.pc), pc: back.pc, ..m }));
}

/// After `00E0` every byte of the framebuffer holds the off colour, so no
/// pixel is lit.
pub proof fn lemma_cls(m: Machine, random: u8)
    requires
        m.wf(),
        can_fetch(m),
        fetched(m) == Some(Instruction::Cls),
    ensures
        step(m, random) matches Ok(next) && next.display.len() == m.display.len() && (forall|
            k: int,
        |
            0 <= k < next.display.len() ==> next.display[k] == PIXEL_OFF) && (forall|
            x: int,
            y: int,
        |
            0 <= x < 64 && 0 <= y < 32 ==> !is_lit(next.display, x, y)),
{
}

/// Where a sprite lands: a pixel is toggled exactly when some set bit, in
/// column `c` of row `r` of the sprite, has that pixel at
/// ((x0 + c) mod 64, (y0 + r) mod 32). Each axis wraps by itself.
pub proof fn lemma_toggles_where_bits_land(
    sprite: Seq<u8>,
    x0: int,
    y0: int,
    px: int,
    py: int,
)
    requires
        sprite.len() <= 32,
        0 <= px < 64,
        0 <= py < 32,
    ensures
        toggles(sprite, x0, y0, px, py) <==> (exists|r: int, c: int|
            0 <= r < sprite.len() && 0 <= c < 8 && #[trigger] sprite_bit(sprite[r], c) && px == (x0
                + c) % 64 && py == (y0 + r) % 32),
{
    let col = sprite_col(x0, px);
    let row = sprite_row(y0, py);
    if toggles(sprite, x0, y0, px, py) {
        assert(sprite_bit(sprite[row], col) && px == (x0 + col) % 64 && py == (y0 + row) % 32);
    }
    if exists|r: int, c: int|
        0 <= r < sprite.len() && 0 <= c < 8 && #[trigger] sprite_bit(sprite[r], c) && px == (x0
            + c) % 64 && py == (y0 + r) % 32 {
        let (r, c) = choose|r: int, c: int|
            0 <= r < sprite.len() && 0 <= c < 8 && #[trigger] sprite_bit(sprite[r], c) && px == (x0
                + c) % 64 && py == (y0 + r) % 32;
        assert(col == c && row == r);
    }
}

/// A row with all eight bits set toggles the eight columns from the origin
/// on, wrapping at the right edge, in the one row it lands on.
pub proof fn lemma_full_row_columns(x0: int, y0: int, px: int, py: int)
    requires
        0 <= px < 64,
        0 <= py < 32,
    ensures
        toggles(seq![0xFFu8], x0, y0, px, py) <==> (py == y0 % 32 && exists|c: int|
            0 <= c < 8 && px == #[trigger] ((x0 + c) % 64)),
{
    let col = sprite_col(x0, px);
    let c8 = col as u8;
    assert(c8 < 8 ==> 0xFFu8 & (0x80u8 >> c8) != 0) by (bit_vector);
    if py == y0 % 32 && exists|c: int| 0 <= c < 8 && px == #[trigger] ((x0 + c) % 64) {
        let c = choose|c: int| 0 <= c < 8 && px == #[trigger] ((x0 + c) % 64);
        assert(col == c);
    }
    if toggles(seq![0xFFu8], x0, y0, px, py) {
        assert(px == (x0 + col) % 64);
    }
}

/// Drawing is its own inverse on what is lit: after the same sprite has been
/// drawn twice at the same origin, exactly the pixels that were lit are lit.
#[verifier::rlimit(40)]
pub proof fn lemma_draw_twice_restores(display: Seq<u8>, sprite: Seq<u8>, x0: int, y0: int)
    requires
        display.len() == 6144,
    ensures
        forall|px: int, py: int|
            0 <= px < 64 && 0 <= py < 32 ==> #[trigger] is_lit(
                blit(blit(display, sprite, x0, y0), sprite, x0, y0),
                px,
                py,
            ) == is_lit(display, px, py),
{
    let once = blit(display, sprite, x0, y0);
    let twice = blit(once, sprite, x0, y0);
    assert forall|px: int, py: int| 0 <= px < 64 && 0 <= py < 32 implies #[trigger] is_lit(
        twice,
        px,
        py,
    ) == is_lit(display, px, py) by {
        let at = pixel_index(px, py);
        assert((at / 3) % 64 == px && at / 192 == py && at % 3 == 0);
    }
}

/// The second of two draws of the same sprite at the same origin collides
/// exactly when the sprite toggles a pixel that was off before the first.
#[verifier::rlimit(40)]
pub proof fn lemma_second_draw_collides(display: Seq<u8>, sprite: Seq<u8>, x0: int, y0: int)
    requires
        display.len() == 6144,
    ensures
        collides(blit(display, sprite, x0, y0), sprite, x0, y0) <==> (exists|px: int, py: int|
            0 <= px < 64 && 0 <= py < 32 && #[trigger] toggles(sprite, x0, y0, px, py) && !is_lit(
                display,
                px,
                py,
            )),
{
    let once = blit(display, sprite, x0, y0);
    assert forall|px: int, py: int|
        0 <= px < 64 && 0 <= py < 32 && #[trigger] toggles(
            sprite,
            x0,
            y0,
            px,
            py,
        ) implies is_lit(once, px, py) == !is_lit(display, px, py) by {
        let at = pixel_index(px, py);
        assert((at / 3) % 64 == px && at / 192 == py && at % 3 == 0);
    }
    if collides(once, sprite, x0, y0) {
        let (px, py) = choose|px: int, py: int|
            0 <= px < 64 && 0 <= py < 32 && #[trigger] toggles(sprite, x0, y0, px, py) && is_lit(
                once,
                px,
                py,
            );
        assert(toggles(sprite, x0, y0, px, py) && !is_lit(display, px, py));
    }
    if exists|px: int, py: int|
        0 <= px < 64 && 0 <= py < 32 && #[trigger] toggles(sprite, x0, y0, px, py) && !is_lit(
            display,
            px,
            py,
        ) {
        let (px, py) = choose|px: int, py: int|
            0 <= px < 64 && 0 <= py < 32 && #[trigger] toggles(sprite, x0, y0, px, py) && !is_lit(
                display,
                px,
                py,
            );
        assert(toggles(sprite, x0, y0, px, py) && is_lit(once, px, py));
    }
}

/// On the framebuffer alone: a one-row sprite with all bits set, drawn twice
/// at the same origin onto pixels that were off, collides the second time
/// and leaves every pixel it touches off.
#[verifier::rlimit(40)]
pub proof fn lemma_full_row_twice(display: Seq<u8>, x0: int, y0: int)
    requires
        display.len() == 6144,
        forall|px: int, py: int|
            0 <= px < 64 && 0 <= py < 32 && #[trigger] toggles(seq![0xFFu8], x0, y0, px, py)
                ==> !is_lit(display, px, py),
    ensures
        collides(blit(display, seq![0xFFu8], x0, y0), seq![0xFFu8], x0, y0),
        forall|px: int, py: int|
            0 <= px < 64 && 0 <= py < 32 && #[trigger] toggles(seq![0xFFu8], x0, y0, px, py)
                ==> !is_lit(blit(blit(display, seq![0xFFu8], x0, y0), seq![0xFFu8], x0, y0), px, py),
{
    let sprite = seq![0xFFu8];
    let once = blit(display, sprite, x0, y0);
    assert(collides(once, sprite, x0, y0)) by {
        let px = x0 % 64;
        let py = y0 % 32;
        assert(toggles(sprite, x0, y0, px, py)) by {
            assert(0xFFu8 & (0x80u8 >> 0u8) != 0) by (bit_vector);
            assert(sprite_col(x0, px) == 0 && sprite_row(y0, py) == 0);
        }
        assert(!is_lit(display, px, py));
        lemma_second_draw_collides(display, sprite, x0, y0);
    }
    assert forall|px: int, py: int|
        0 <= px < 64 && 0 <= py < 32 && #[trigger] toggles(sprite, x0, y0, px, py) implies !is_lit(
        blit(once, sprite, x0, y0),
        px,
        py,
    ) by {
        lemma_draw_twice_restores(display, sprite, x0, y0);
    }
}

/// Drawing a one-row sprite with all bits set twice in a row at an origin
/// held in registers other than VF, onto pixels that were off, leaves every
/// pixel it touches off again and leaves VF = 1.
#[verifier::rlimit(40)]
pub proof fn lemma_draw_full_row_twice(m: Machine, random1: u8, random2: u8, x: u8, y: u8)
    requires
        m.wf(),
        x < FLAG_REGISTER,
        y < FLAG_REGISTER,
        m.i < 4096,
        m.memory[m.i as int] == 0xFF,
        forall|px: int, py: int|
            0 <= px < 64 && 0 <= py < 32 && #[trigger] toggles(
                seq![0xFFu8],
                m.v(x as int) as int,
                m.v(y as int) as int,
                px,
                py,
            ) ==> !is_lit(m.display, px, py),
    ensures
        execute(m, Instruction::Drw { x, y, n: 1 }, random1) matches Ok(once) && execute(
            once,
            Instruction::Drw { x, y, n: 1 },
            random2,
        ) matches Ok(twice) && twice.vf() == 1 && (forall|px: int, py: int|
            0 <= px < 64 && 0 <= py < 32 && #[trigger] toggles(
                seq![0xFFu8],
                m.v(x as int) as int,
                m.v(y as int) as int,
                px,
                py,
            ) ==> !is_lit(twice.display, px, py)),
{
    let ins = Instruction::Drw { x, y, n: 1 };
    let sprite = seq![0xFFu8];
    let x0 = m.v(x as int) as int;
    let y0 = m.v(y as int) as int;
    assert(m.memory.subrange(m.i as int, m.i + 1) =~= sprite);
    let d1 = blit(m.display, sprite, x0, y0);
    let d2 = blit(d1, sprite, x0, y0);
    let once = Machine {
        display: d1,
        registers: m.registers.update(
            FLAG_REGISTER as int,
            flag(collides(m.display, sprite, x0, y0)),
        ),
        ..m
    };
    assert(execute(m, ins, random1) == Ok::<Machine, Fault>(once));
    assert(once.v(x as int) == m.v(x as int) && once.v(y as int) == m.v(y as int));
    assert(once.memory.subrange(once.i as int, once.i + 1) == sprite);
    let twice = Machine {
        display: d2,
        registers: once.registers.update(
            FLAG_REGISTER as int,
            flag(collides(d1, sprite, x0, y0)),
        ),
        ..once
    };
    assert(execute(once, ins, random2) == Ok::<Machine, Fault>(twice));
    lemma_full_row_twice(m.display, x0, y0);
    assert(twice.vf() == 1);
}

/// `Fx0A` with no key down is a step that changes nothing at all, the
/// program counter included, so any number of such steps leaves the machine
/// waiting on the same instruction.
pub proof fn lemma_key_wait_blocks(m: Machine, random: u8, x: u8)
    requires
        m.wf(),
        can_fetch(m),
        fetched(m) == Some(Instruction::LdKey { x }),
        m.keyboard == 0,
    ensures
        step(m, random) == Ok::<Machine, Fault>(m),
{
    let next = step(m, random)->Ok_0;
    assert(next =~= m);
}

/// The machine after as many steps as `randoms` has bytes, each step drawing
/// the next byte; the first fault ends the run.
pub open spec fn run(m: Machine, randoms: Seq<u8>) -> Result<Machine, Fault>
    decreases randoms.len(),
{
    if randoms.len() == 0 {
        Ok(m)
    } else {
        match run(m, randoms.drop_last()) {
            Ok(reached) => step(reached, randoms.last()),
            Err(fault) => Err(fault),
        }
    }
}

/// However many steps are taken while no key is down, a machine that waits
/// on `Fx0A` stays exactly as it is.
pub proof fn lemma_key_wait_blocks_for_good(m: Machine, randoms: Seq<u8>, x: u8)
    requires
        m.wf(),
        can_fetch(m),
        fetched(m) == Some(Instruction::LdKey { x }),
        m.keyboard == 0,
    ensures
        run(m, randoms) == Ok::<Machine, Fault>(m),
    decreases randoms.len(),
{
    if randoms.len() > 0 {
        lemma_key_wait_blocks_for_good(m, randoms.drop_last(), x);
        lemma_key_wait_blocks(m, randoms.last(), x);
    }
}

/// `Fx0A` with a key down moves the program counter on by 2 and leaves in Vx
/// the code of the lowest key that is down.
pub proof fn lemma_key_wait_releases(m: Machine, random: u8, x: u8)
    requires
        m.wf(),
        can_fetch(m),
        fetched(m) == Some(Instruction::LdKey { x }),
        m.keyboard != 0,
    ensures
        step(m, random) matches Ok(next) && next.pc == m.pc + 2 && next.v(x as int) < 16
            && key_down(m.keyboard, next.v(x as int) as int) && (forall|k: int|
            0 <= k < next.v(x as int) ==> !key_down(m.keyboard, k)),
{
    lemma_decoded_operands_in_range(m.memory[m.pc as int], m.memory[m.pc + 1]);
    lemma_no_key_down(m.keyboard);
    lemma_lowest_key_from(m.keyboard, 0);
}

/// Steps do not drive the timers: a step never moves the timer reference,
/// leaves the delay timer alone unless it executes `Fx15`, and leaves the
/// sound timer alone unless it executes `Fx18`.
pub proof fn lemma_step_leaves_timers(m: Machine, random: u8)
    requires
        step(m, random) is Ok,
    ensures
        step(m, random)->Ok_0.last_tick_time == m.last_tick_time,
        !(fetched(m) matches Some(Instruction::LdDtVx { .. })) ==> step(m, random)->Ok_0.dt
            == m.dt,
        !(fetched(m) matches Some(Instruction::LdStVx { .. })) ==> step(m, random)->Ok_0.st
            == m.st,
{
}

/// Only `00E0` and `Dxyn` write the framebuffer.
pub proof fn lemma_step_leaves_display(m: Machine, random: u8)
    requires
        step(m, random) is Ok,
        fetched(m) != Some(Instruction::Cls),
        !(fetched(m) matches Some(Instruction::Drw { .. })),
    ensures
        step(m, random)->Ok_0.display == m.display,
{
}

/// No step writes the keyboard.
pub proof fn lemma_step_leaves_keyboard(m: Machine, random: u8)
    ensures
        after_step(m, random).keyboard == m.keyboard || after_step(m, random) == m.reset(),
{
}

} // verus!
