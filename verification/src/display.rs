//! The framebuffer: 64 by 32 monochrome pixels kept as one colour triplet per
//! pixel, cleared as a whole and drawn on by toggling the pixels under the
//! set bits of a sprite.

use vstd::prelude::*;
use crate::machine::filled;

verus! {

/// First and third colour byte of a pixel that is on.
pub const PIXEL_ON_OUTER: u8 = 102;

/// Second colour byte of a pixel that is on.
pub const PIXEL_ON_MIDDLE: u8 = 255;

/// Every colour byte of a pixel that is off.
pub const PIXEL_OFF: u8 = 0;

/// Most rows a sprite can have: the largest 4-bit operand.
pub const MAX_SPRITE_ROWS: usize = 15;

/// Where the triplet of the pixel in column `x` of row `y` starts.
pub open spec fn pixel_index(x: int, y: int) -> int {
    (y * 64 + x) * 3
}

/// Whether the pixel at (`x`, `y`) counts as on: its first byte is not zero.
pub open spec fn is_lit(display: Seq<u8>, x: int, y: int) -> bool {
    display[pixel_index(x, y)] != 0
}

/// Byte `channel` (0, 1 or 2) of the triplet that a pixel gets when it is
/// switched on or off.
pub open spec fn colour_byte(on: bool, channel: int) -> u8 {
    if !on {
        PIXEL_OFF
    } else if channel == 1 {
        PIXEL_ON_MIDDLE
    } else {
        PIXEL_ON_OUTER
    }
}

/// Whether bit `col` of a sprite row is set, counting from the most
/// significant bit.
pub open spec fn sprite_bit(row: u8, col: int) -> bool {
    0 <= col < 8 && row & (0x80u8 >> (col as u8)) != 0
}

/// The sprite column that lands on display column `px` when the sprite's
/// origin is in column `x0`, wrapping at the right edge.
pub open spec fn sprite_col(x0: int, px: int) -> int {
    (px - x0) % 64
}

/// The sprite row that lands on display row `py` when the sprite's origin is
/// in row `y0`, wrapping at the bottom edge.
pub open spec fn sprite_row(y0: int, py: int) -> int {
    (py - y0) % 32
}

/// Whether drawing `sprite` with its origin at (`x0`, `y0`) toggles the pixel
/// at (`px`, `py`): a set sprite bit lands on it.
pub open spec fn toggles(sprite: Seq<u8>, x0: int, y0: int, px: int, py: int) -> bool {
    let col = sprite_col(x0, px);
    let row = sprite_row(y0, py);
    row < sprite.len() && sprite_bit(sprite[row], col)
}

/// The framebuffer after drawing `sprite` at (`x0`, `y0`): every toggled
/// pixel that was off gets the on colour, every toggled pixel that was on
/// gets the off colour, and all other bytes stay.
pub open spec fn blit(display: Seq<u8>, sprite: Seq<u8>, x0: int, y0: int) -> Seq<u8> {
    Seq::new(
        display.len(),
        |k: int|
            if toggles(sprite, x0, y0, (k / 3) % 64, k / 192) {
                colour_byte(display[k - k % 3] == 0, k % 3)
            } else {
                display[k]
            },
    )
}

/// Whether drawing `sprite` at (`x0`, `y0`) switches off a pixel that was on.
pub open spec fn collides(display: Seq<u8>, sprite: Seq<u8>, x0: int, y0: int) -> bool {
    exists|px: int, py: int|
        0 <= px < 64 && 0 <= py < 32 && #[trigger] toggles(sprite, x0, y0, px, py) && is_lit(
            display,
            px,
            py,
        )
}

/// `toggles`, restricted to the sprite bits that come before bit `c` of row
/// `r` in drawing order.
spec fn toggles_before(sprite: Seq<u8>, x0: int, y0: int, px: int, py: int, r: int, c: int) -> bool {
    let col = sprite_col(x0, px);
    let row = sprite_row(y0, py);
    toggles(sprite, x0, y0, px, py) && (row < r || (row == r && col < c))
}

/// `blit`, restricted in the same way.
spec fn blit_before(display: Seq<u8>, sprite: Seq<u8>, x0: int, y0: int, r: int, c: int) -> Seq<u8> {
    Seq::new(
        display.len(),
        |k: int|
            if toggles_before(sprite, x0, y0, (k / 3) % 64, k / 192, r, c) {
                colour_byte(display[k - k % 3] == 0, k % 3)
            } else {
                display[k]
            },
    )
}

/// `collides`, restricted in the same way.
spec fn collides_before(display: Seq<u8>, sprite: Seq<u8>, x0: int, y0: int, r: int, c: int) -> bool {
    exists|px: int, py: int|
        0 <= px < 64 && 0 <= py < 32 && #[trigger] toggles_before(sprite, x0, y0, px, py, r, c)
            && is_lit(display, px, py)
}

/// Bit `c` of sprite row `r` lands on exactly one pixel.
proof fn lemma_landing(x0: int, y0: int, r: int, c: int, px: int, py: int)
    requires
        0 <= x0 < 256,
        0 <= y0 < 256,
        0 <= r < 32,
        0 <= c < 8,
        0 <= px < 64,
        0 <= py < 32,
    ensures
        (sprite_col(x0, px) == c && sprite_row(y0, py) == r) <==> (px == (x0 + c) % 64 && py == (y0
            + r) % 32),
{
}

/// Two cut-off points before which the same sprite bits lie give the same
/// collision.
proof fn lemma_collides_same(
    display: Seq<u8>,
    sprite: Seq<u8>,
    x0: int,
    y0: int,
    r1: int,
    c1: int,
    r2: int,
    c2: int,
)
    requires
        forall|px: int, py: int| #[trigger]
            toggles_before(sprite, x0, y0, px, py, r1, c1) == toggles_before(
                sprite,
                x0,
                y0,
                px,
                py,
                r2,
                c2,
            ),
    ensures
        collides_before(display, sprite, x0, y0, r1, c1) == collides_before(
            display,
            sprite,
            x0,
            y0,
            r2,
            c2,
        ),
{
    if collides_before(display, sprite, x0, y0, r1, c1) {
        let (px, py) = choose|px: int, py: int|
            0 <= px < 64 && 0 <= py < 32 && #[trigger] toggles_before(
                sprite,
                x0,
                y0,
                px,
                py,
                r1,
                c1,
            ) && is_lit(display, px, py);
        assert(toggles_before(sprite, x0, y0, px, py, r2, c2));
    }
    if collides_before(display, sprite, x0, y0, r2, c2) {
        let (px, py) = choose|px: int, py: int|
            0 <= px < 64 && 0 <= py < 32 && #[trigger] toggles_before(
                sprite,
                x0,
                y0,
                px,
                py,
                r2,
                c2,
            ) && is_lit(display, px, py);
        assert(toggles_before(sprite, x0, y0, px, py, r1, c1));
    }
}

/// Once every row lies before the cut-off point, the restricted collision is
/// the collision of the whole sprite.
proof fn lemma_collides_whole(display: Seq<u8>, sprite: Seq<u8>, x0: int, y0: int, r: int)
    requires
        sprite.len() <= r,
    ensures
        collides_before(display, sprite, x0, y0, r, 0) == collides(display, sprite, x0, y0),
{
    if collides_before(display, sprite, x0, y0, r, 0) {
        let (px, py) = choose|px: int, py: int|
            0 <= px < 64 && 0 <= py < 32 && #[trigger] toggles_before(
                sprite,
                x0,
                y0,
                px,
                py,
                r,
                0,
            ) && is_lit(display, px, py);
        assert(toggles(sprite, x0, y0, px, py));
    }
    if collides(display, sprite, x0, y0) {
        let (px, py) = choose|px: int, py: int|
            0 <= px < 64 && 0 <= py < 32 && #[trigger] toggles(sprite, x0, y0, px, py) && is_lit(
                display,
                px,
                py,
            );
        assert(toggles_before(sprite, x0, y0, px, py, r, 0));
    }
}

/// The three bytes of a pixel's triplet belong to that pixel.
proof fn lemma_pixel_bytes(px: int, py: int)
    requires
        0 <= px < 64,
        0 <= py < 32,
    ensures
        0 <= pixel_index(px, py) <= 6141,
        forall|j: int|
            0 <= j < 3 ==> {
                let k = #[trigger] (pixel_index(px, py) + j);
                (k / 3) % 64 == px && k / 192 == py && k % 3 == j
            },
{
}

/// Every byte of the framebuffer belongs to the triplet of one pixel.
proof fn lemma_byte_pixel(k: int)
    requires
        0 <= k < 6144,
    ensures
        0 <= (k / 3) % 64 < 64,
        0 <= k / 192 < 32,
        pixel_index((k / 3) % 64, k / 192) == k - k % 3,
{
}

/// What bit `c` of row `r` adds to the pixels toggled so far: the one pixel
/// it lands on, if the bit is set.
proof fn lemma_toggles_step(sprite: Seq<u8>, x0: int, y0: int, r: int, c: int, px: int, py: int)
    requires
        0 <= x0 < 256,
        0 <= y0 < 256,
        0 <= r < sprite.len() <= 15,
        0 <= c < 8,
        0 <= px < 64,
        0 <= py < 32,
    ensures
        toggles_before(sprite, x0, y0, px, py, r, c + 1) <==> (toggles_before(
            sprite,
            x0,
            y0,
            px,
            py,
            r,
            c,
        ) || (sprite_bit(sprite[r], c) && px == (x0 + c) % 64 && py == (y0 + r) % 32)),
        (px == (x0 + c) % 64 && py == (y0 + r) % 32) ==> !toggles_before(
            sprite,
            x0,
            y0,
            px,
            py,
            r,
            c,
        ),
{
    lemma_landing(x0, y0, r, c, px, py);
}

/// Toggling the pixel under bit `c` of row `r`, if that bit is set, takes the
/// framebuffer from one cut-off point to the next.
#[verifier::rlimit(40)]
proof fn lemma_blit_step(
    before: Seq<u8>,
    shown: Seq<u8>,
    after: Seq<u8>,
    sprite: Seq<u8>,
    x0: int,
    y0: int,
    r: int,
    c: int,
)
    requires
        0 <= x0 < 256,
        0 <= y0 < 256,
        0 <= r < sprite.len() <= 15,
        0 <= c < 8,
        before.len() == 6144,
        shown == blit_before(before, sprite, x0, y0, r, c),
        after.len() == 6144,
        forall|k: int|
            0 <= k < 6144 ==> #[trigger] after[k] == {
                let at = pixel_index((x0 + c) % 64, (y0 + r) % 32);
                if sprite_bit(sprite[r], c) && at <= k < at + 3 {
                    colour_byte(shown[at] == 0, k - at)
                } else {
                    shown[k]
                }
            },
    ensures
        after == blit_before(before, sprite, x0, y0, r, c + 1),
        sprite_bit(sprite[r], c) ==> {
            let at = pixel_index((x0 + c) % 64, (y0 + r) % 32);
            shown[at] == before[at]
        },
{
    let xp = (x0 + c) % 64;
    let yp = (y0 + r) % 32;
    let at = pixel_index(xp, yp);
    let set = sprite_bit(sprite[r], c);
    lemma_pixel_bytes(xp, yp);
    lemma_toggles_step(sprite, x0, y0, r, c, xp, yp);
    assert(at == at + 0);
    assert(shown[at] == before[at]);
    assert forall|k: int| 0 <= k < 6144 implies after[k] == blit_before(
        before,
        sprite,
        x0,
        y0,
        r,
        c + 1,
    )[k] by {
        let px = (k / 3) % 64;
        let py = k / 192;
        lemma_byte_pixel(k);
        lemma_toggles_step(sprite, x0, y0, r, c, px, py);
        if px == xp && py == yp {
            assert(at <= k < at + 3);
            assert(k - k % 3 == at);
        } else {
            if at <= k < at + 3 {
                assert(k == at + (k - at));
            }
            assert(!(at <= k < at + 3));
        }
    }
    assert(after =~= blit_before(before, sprite, x0, y0, r, c + 1));
}

/// What bit `c` of row `r` adds to the collision so far: whether it lands on
/// a pixel that was on.
proof fn lemma_collides_step(before: Seq<u8>, sprite: Seq<u8>, x0: int, y0: int, r: int, c: int)
    requires
        0 <= x0 < 256,
        0 <= y0 < 256,
        0 <= r < sprite.len() <= 15,
        0 <= c < 8,
    ensures
        collides_before(before, sprite, x0, y0, r, c + 1) == (collides_before(
            before,
            sprite,
            x0,
            y0,
            r,
            c,
        ) || (sprite_bit(sprite[r], c) && is_lit(before, (x0 + c) % 64, (y0 + r) % 32))),
{
    let xp = (x0 + c) % 64;
    let yp = (y0 + r) % 32;
    if collides_before(before, sprite, x0, y0, r, c + 1) {
        let (px, py) = choose|px: int, py: int|
            0 <= px < 64 && 0 <= py < 32 && #[trigger] toggles_before(
                sprite,
                x0,
                y0,
                px,
                py,
                r,
                c + 1,
            ) && is_lit(before, px, py);
        lemma_toggles_step(sprite, x0, y0, r, c, px, py);
        if toggles_before(sprite, x0, y0, px, py, r, c) {
            assert(collides_before(before, sprite, x0, y0, r, c));
        }
    }
    if collides_before(before, sprite, x0, y0, r, c) {
        let (px, py) = choose|px: int, py: int|
            0 <= px < 64 && 0 <= py < 32 && #[trigger] toggles_before(
                sprite,
                x0,
                y0,
                px,
                py,
                r,
                c,
            ) && is_lit(before, px, py);
        lemma_toggles_step(sprite, x0, y0, r, c, px, py);
        assert(toggles_before(sprite, x0, y0, px, py, r, c + 1));
    }
    if sprite_bit(sprite[r], c) && is_lit(before, xp, yp) {
        lemma_toggles_step(sprite, x0, y0, r, c, xp, yp);
        assert(toggles_before(sprite, x0, y0, xp, yp, r, c + 1));
    }
}

/// Sets every byte of the framebuffer to the off colour.
pub fn clear(display: &mut [u8; 6144])
    ensures
        final(display)@ == filled(6144, PIXEL_OFF),
    no_unwind
{
    let mut k: usize = 0;
    while k < 6144
        invariant
            k <= 6144,
            forall|j: int| 0 <= j < k ==> display@[j] == PIXEL_OFF,
        decreases 6144 - k,
    {
        display[k] = PIXEL_OFF;
        k = k + 1;
    }
    assert(display@ =~= filled(6144, PIXEL_OFF));
}

/// Draws the sprite held in `rows` bytes of `memory` from `start` on with its
/// origin at (`x0`, `y0`), toggling the pixel under each set bit, and says
/// whether a pixel that was on went off.
#[verifier::rlimit(40)]
pub fn draw_sprite(
    display: &mut [u8; 6144],
    memory: &[u8; 4096],
    start: usize,
    rows: usize,
    x0: u8,
    y0: u8,
) -> (collision: bool)
    requires
        start + rows <= 4096,
        rows <= MAX_SPRITE_ROWS,
    ensures
        final(display)@ == blit(
            old(display)@,
            memory@.subrange(start as int, start + rows),
            x0 as int,
            y0 as int,
        ),
        collision == collides(
            old(display)@,
            memory@.subrange(start as int, start + rows),
            x0 as int,
            y0 as int,
        ),
    no_unwind
{
    let ghost before = display@;
    let ghost sprite = memory@.subrange(start as int, start + rows);
    let mut collision = false;
    let mut r: usize = 0;
    assert(display@ =~= blit_before(before, sprite, x0 as int, y0 as int, 0, 0));
    while r < rows
        invariant
            r <= rows,
            rows <= MAX_SPRITE_ROWS,
            start + rows <= 4096,
            before.len() == 6144,
            sprite == memory@.subrange(start as int, start + rows),
            display@ == blit_before(before, sprite, x0 as int, y0 as int, r as int, 0),
            collision == collides_before(before, sprite, x0 as int, y0 as int, r as int, 0),
        decreases rows - r,
    {
        let value: u8 = memory[start + r];
        let y_pos: usize = (y0 as usize + r) % 32;
        let mut c: usize = 0;
        while c < 8
            invariant
                c <= 8,
                r < rows,
                rows <= MAX_SPRITE_ROWS,
                before.len() == 6144,
                sprite.len() == rows,
                value == sprite[r as int],
                y_pos == (y0 + r) % 32,
                display@ == blit_before(before, sprite, x0 as int, y0 as int, r as int, c as int),
                collision == collides_before(
                    before,
                    sprite,
                    x0 as int,
                    y0 as int,
                    r as int,
                    c as int,
                ),
            decreases 8 - c,
        {
            let ghost shown = display@;
            let mask: u8 = 0x80u8 >> (c as u8);
            let x_pos: usize = (x0 as usize + c) % 64;
            let set: bool = value & mask != 0;
            assert(set == sprite_bit(value, c as int));
            if set {
                let at: usize = (y_pos * 64 + x_pos) * 3;
                assert(at == pixel_index(x_pos as int, y_pos as int));
                if display[at] == 0 {
                    display[at] = PIXEL_ON_OUTER;
                    display[at + 1] = PIXEL_ON_MIDDLE;
                    display[at + 2] = PIXEL_ON_OUTER;
                } else {
                    collision = true;
                    display[at] = PIXEL_OFF;
                    display[at + 1] = PIXEL_OFF;
                    display[at + 2] = PIXEL_OFF;
                }
            }
            proof {
                lemma_blit_step(
                    before,
                    shown,
                    display@,
                    sprite,
                    x0 as int,
                    y0 as int,
                    r as int,
                    c as int,
                );
                lemma_collides_step(before, sprite, x0 as int, y0 as int, r as int, c as int);
            }
            c = c + 1;
        }
        proof {
            let x = x0 as int;
            let y = y0 as int;
            assert forall|px: int, py: int| #[trigger]
                toggles_before(sprite, x, y, px, py, r as int, 8) == toggles_before(
                    sprite,
                    x,
                    y,
                    px,
                    py,
                    r + 1,
                    0,
                ) by {}
            assert(blit_before(before, sprite, x, y, r as int, 8) =~= blit_before(
                before,
                sprite,
                x,
                y,
                r + 1,
                0,
            ));
            lemma_collides_same(before, sprite, x, y, r as int, 8, r + 1, 0);
        }
        r = r + 1;
    }
    proof {
        let x = x0 as int;
        let y = y0 as int;
        assert forall|px: int, py: int| #[trigger]
            toggles_before(sprite, x, y, px, py, rows as int, 0) == toggles(sprite, x, y, px, py) by {}
        assert(blit_before(before, sprite, x, y, rows as int, 0) =~= blit(before, sprite, x, y));
        lemma_collides_whole(before, sprite, x, y, rows as int);
    }
    collision
}

} // verus!
