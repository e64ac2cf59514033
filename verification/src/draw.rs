//! The sprite-draw operation, specified pixel by pixel.
//!
//! A draw XORs an `n`-row, 8-column sprite held at memory address `i` onto
//! the display at `(VX, VY)`; coordinates wrap modulo the screen size. Every
//! set sprite bit lands on its own cell (rows are distinct modulo 32,
//! columns modulo 64), so the result is characterised cell-wise: a cell is
//! toggled exactly when some set sprite bit targets it, and the collision
//! flag reports whether any toggled cell was lit before.

use vstd::prelude::*;

verus! {

use vstd::arithmetic::div_mod::{
    lemma_fundamental_div_mod,
    lemma_fundamental_div_mod_converse,
    lemma_mod_division_less_than_divisor,
    lemma_mod_multiples_vanish,
    lemma_small_mod,
};

/// The sprite row byte for `row`, read at `i + row`, wrapping inside the
/// 4 KB address space.
pub open spec fn sprite_row(mem: Seq<u8>, i: u16, row: int) -> u8 {
    mem[(i + row) % 4096]
}

/// Whether bit `col` (0 = leftmost) of sprite row `row` is set.
pub open spec fn sprite_bit(mem: Seq<u8>, i: u16, row: int, col: int) -> bool
    recommends
        0 <= col < 8,
{
    (sprite_row(mem, i, row) >> ((7 - col) as u8)) & 1 == 1
}

/// Whether the draw of the `n`-row sprite at `i` to `(vx, vy)` targets
/// display cell `p` (row-major, 64 cells per row) with a set bit.
///
/// Cell `p` sits at screen row `p / 64` and column `p % 64`; because rows
/// wrap modulo 32 and columns modulo 64, the only sprite bit that can reach
/// it is at sprite row `(p / 64 - vy) mod 32` and column `(p % 64 - vx) mod
/// 64`, provided those fall inside the sprite.
pub open spec fn draw_hits(mem: Seq<u8>, i: u16, vx: u8, vy: u8, n: u8, p: int) -> bool {
    let row = (p / 64 - vy) % 32;
    let col = (p % 64 - vx) % 64;
    &&& row < n
    &&& col < 8
    &&& sprite_bit(mem, i, row, col)
}

/// The display after the draw: every targeted cell is toggled, every other
/// cell keeps its value.
pub open spec fn spec_draw_disp(d: Seq<bool>, mem: Seq<u8>, i: u16, vx: u8, vy: u8, n: u8) -> Seq<
    bool,
> {
    Seq::new(d.len(), |p: int| if draw_hits(mem, i, vx, vy, n, p) { !d[p] } else { d[p] })
}

/// The collision flag of the draw: whether some targeted cell was lit.
pub open spec fn spec_draw_vf(d: Seq<bool>, mem: Seq<u8>, i: u16, vx: u8, vy: u8, n: u8) -> bool {
    exists|p: int| 0 <= p < d.len() && draw_hits(mem, i, vx, vy, n, p) && d[p]
}

/// Whether some sprite bit strictly before row `rows_done`, or in row
/// `rows_done` before column `cols_done`, targets display cell `p` with a
/// set bit: the part of [`draw_hits`] already applied after that many loop
/// steps of a row-major blit.
pub open spec fn draw_hits_before(
    mem: Seq<u8>,
    i: u16,
    vx: u8,
    vy: u8,
    rows_done: int,
    cols_done: int,
    p: int,
) -> bool {
    let row = (p / 64 - vy) % 32;
    let col = (p % 64 - vx) % 64;
    &&& col < 8
    &&& (row < rows_done || (row == rows_done && col < cols_done))
    &&& sprite_bit(mem, i, row, col)
}

/// The display cell targeted by sprite position `(row, col)`, and its
/// coordinates reduced back: the blit's target map is injective.
proof fn lemma_target_coords(vx: u8, vy: u8, row: int, col: int)
    requires
        0 <= row < 32,
        0 <= col < 64,
    ensures
        ({
            let p0 = ((vy + row) % 32) * 64 + ((vx + col) % 64);
            &&& 0 <= p0 < 2048
            &&& p0 / 64 == (vy + row) % 32
            &&& p0 % 64 == (vx + col) % 64
            &&& (p0 / 64 - vy) % 32 == row
            &&& (p0 % 64 - vx) % 64 == col
        }),
{
    let r0 = (vy + row) % 32;
    let c0 = (vx + col) % 64;
    let p0 = r0 * 64 + c0;
    lemma_mod_division_less_than_divisor(vy + row, 32);
    lemma_mod_division_less_than_divisor(vx + col, 64);
    lemma_fundamental_div_mod_converse(p0, 64, r0, c0);
    lemma_fundamental_div_mod(vy + row, 32);
    let qr = (vy + row) / 32;
    assert(r0 - vy == row - 32 * qr);
    lemma_mod_multiples_vanish(-qr, row, 32);
    assert((32 * (-qr) + row) % 32 == row % 32);
    assert(r0 - vy == 32 * (-qr) + row);
    lemma_small_mod(row as nat, 32);
    lemma_fundamental_div_mod(vx + col, 64);
    let qc = (vx + col) / 64;
    assert(c0 - vx == col - 64 * qc);
    lemma_mod_multiples_vanish(-qc, col, 64);
    assert(c0 - vx == 64 * (-qc) + col);
    lemma_small_mod(col as nat, 64);
}

/// A cell whose reduced coordinates are `(row, col)` is the blit target of
/// `(row, col)`: no two sprite positions share a cell.
proof fn lemma_coords_unique(vx: u8, vy: u8, row: int, col: int, p: int)
    requires
        0 <= row < 32,
        0 <= col < 64,
        0 <= p < 2048,
        (p / 64 - vy) % 32 == row,
        (p % 64 - vx) % 64 == col,
    ensures
        p == ((vy + row) % 32) * 64 + ((vx + col) % 64),
{
    let r = p / 64;
    let c = p % 64;
    lemma_fundamental_div_mod(p, 64);
    lemma_mod_division_less_than_divisor(p, 64);
    assert(0 <= r < 32);
    // r == vy + row (mod 32), and both r and (vy + row) % 32 lie in [0, 32).
    lemma_fundamental_div_mod(r - vy, 32);
    let q = (r - vy) / 32;
    assert(r - vy == 32 * q + row);
    assert(r == 32 * q + (vy + row));
    lemma_mod_multiples_vanish(q, vy + row, 32);
    assert(r % 32 == (vy + row) % 32);
    lemma_small_mod(r as nat, 32);
    // c == vx + col (mod 64), same reasoning.
    lemma_fundamental_div_mod(c - vx, 64);
    let qq = (c - vx) / 64;
    assert(c - vx == 64 * qq + col);
    assert(c == 64 * qq + (vx + col));
    lemma_mod_multiples_vanish(qq, vx + col, 64);
    assert(c % 64 == (vx + col) % 64);
    lemma_small_mod(c as nat, 64);
}

/// One blit step: applying sprite position `(row, col)` extends the
/// already-applied part by exactly the target cell `p0` (when the bit is
/// set) and touches nothing else.
pub(crate) proof fn lemma_hits_step(mem: Seq<u8>, i: u16, vx: u8, vy: u8, row: int, col: int)
    requires
        0 <= row < 16,
        0 <= col < 8,
    ensures
        ({
            let p0 = ((vy + row) % 32) * 64 + ((vx + col) % 64);
            &&& 0 <= p0 < 2048
            &&& (p0 / 64 - vy) % 32 == row
            &&& (p0 % 64 - vx) % 64 == col
            &&& (forall|p: int|
                0 <= p < 2048 ==> draw_hits_before(mem, i, vx, vy, row, col + 1, p) == (
                draw_hits_before(mem, i, vx, vy, row, col, p) || (p == p0 && sprite_bit(
                    mem,
                    i,
                    row,
                    col,
                ))))
        }),
{
    lemma_target_coords(vx, vy, row, col);
    let p0 = ((vy + row) % 32) * 64 + ((vx + col) % 64);
    assert forall|p: int| 0 <= p < 2048 implies draw_hits_before(mem, i, vx, vy, row, col + 1, p)
        == (draw_hits_before(mem, i, vx, vy, row, col, p) || (p == p0 && sprite_bit(
        mem,
        i,
        row,
        col,
    ))) by {
        let rowp = (p / 64 - vy) % 32;
        let colp = (p % 64 - vx) % 64;
        lemma_mod_division_less_than_divisor(p / 64 - vy, 32);
        lemma_mod_division_less_than_divisor(p % 64 - vx, 64);
        if rowp == row && colp == col {
            lemma_coords_unique(vx, vy, row, col, p);
        }
    }
}

/// Finishing a row: having applied all eight columns of row `row` is the
/// same as standing at the start of row `row + 1`.
pub(crate) proof fn lemma_hits_row_roll(mem: Seq<u8>, i: u16, vx: u8, vy: u8, row: int)
    ensures
        forall|p: int|
            draw_hits_before(mem, i, vx, vy, row, 8, p) == draw_hits_before(
                mem,
                i,
                vx,
                vy,
                row + 1,
                0,
                p,
            ),
{
}

/// Having applied all `n` rows is the whole draw.
pub(crate) proof fn lemma_hits_full(mem: Seq<u8>, i: u16, vx: u8, vy: u8, n: u8)
    ensures
        forall|p: int|
            draw_hits_before(mem, i, vx, vy, n as int, 0, p) == draw_hits(mem, i, vx, vy, n, p),
{
}

/// Before the first step nothing is applied.
pub(crate) proof fn lemma_hits_none(mem: Seq<u8>, i: u16, vx: u8, vy: u8)
    ensures
        forall|p: int| 0 <= p < 2048 ==> !draw_hits_before(mem, i, vx, vy, 0, 0, p),
{
    assert forall|p: int| 0 <= p < 2048 implies !draw_hits_before(mem, i, vx, vy, 0, 0, p) by {
        lemma_mod_division_less_than_divisor(p / 64 - vy, 32);
        lemma_mod_division_less_than_divisor(p % 64 - vx, 64);
    }
}

/// Whether some cell targeted by the already-applied part of the blit was
/// lit in the pre-draw display `d`: the collision flag after that many
/// loop steps.
pub open spec fn vf_upto(
    d: Seq<bool>,
    mem: Seq<u8>,
    i: u16,
    vx: u8,
    vy: u8,
    rows_done: int,
    cols_done: int,
) -> bool {
    exists|p: int|
        0 <= p < 2048 && draw_hits_before(mem, i, vx, vy, rows_done, cols_done, p) && d[p]
}

/// Before the first step there is no collision.
pub(crate) proof fn lemma_vf_none(d: Seq<bool>, mem: Seq<u8>, i: u16, vx: u8, vy: u8)
    ensures
        !vf_upto(d, mem, i, vx, vy, 0, 0),
{
    lemma_hits_none(mem, i, vx, vy);
}

/// One blit step changes the collision flag exactly when the bit at
/// `(row, col)` is set and its target cell was lit.
pub(crate) proof fn lemma_vf_step(
    d: Seq<bool>,
    mem: Seq<u8>,
    i: u16,
    vx: u8,
    vy: u8,
    row: int,
    col: int,
)
    requires
        0 <= row < 16,
        0 <= col < 8,
    ensures
        ({
            let p0 = ((vy + row) % 32) * 64 + ((vx + col) % 64);
            vf_upto(d, mem, i, vx, vy, row, col + 1) == (vf_upto(d, mem, i, vx, vy, row, col) || (
            sprite_bit(mem, i, row, col) && d[p0]))
        }),
{
    lemma_hits_step(mem, i, vx, vy, row, col);
    let p0 = ((vy + row) % 32) * 64 + ((vx + col) % 64);
    if vf_upto(d, mem, i, vx, vy, row, col + 1) {
        let p = choose|p: int|
            0 <= p < 2048 && draw_hits_before(mem, i, vx, vy, row, col + 1, p) && d[p];
        assert(draw_hits_before(mem, i, vx, vy, row, col, p) || (p == p0 && sprite_bit(
            mem,
            i,
            row,
            col,
        )));
    }
    if vf_upto(d, mem, i, vx, vy, row, col) {
        let p = choose|p: int|
            0 <= p < 2048 && draw_hits_before(mem, i, vx, vy, row, col, p) && d[p];
        assert(draw_hits_before(mem, i, vx, vy, row, col + 1, p));
    }
    if sprite_bit(mem, i, row, col) && d[p0] {
        assert(draw_hits_before(mem, i, vx, vy, row, col + 1, p0));
    }
}

/// Finishing a row keeps the collision flag.
pub(crate) proof fn lemma_vf_row_roll(d: Seq<bool>, mem: Seq<u8>, i: u16, vx: u8, vy: u8, row: int)
    ensures
        vf_upto(d, mem, i, vx, vy, row, 8) == vf_upto(d, mem, i, vx, vy, row + 1, 0),
{
    lemma_hits_row_roll(mem, i, vx, vy, row);
    if vf_upto(d, mem, i, vx, vy, row, 8) {
        let p = choose|p: int|
            0 <= p < 2048 && draw_hits_before(mem, i, vx, vy, row, 8, p) && d[p];
        assert(draw_hits_before(mem, i, vx, vy, row + 1, 0, p));
    }
    if vf_upto(d, mem, i, vx, vy, row + 1, 0) {
        let p = choose|p: int|
            0 <= p < 2048 && draw_hits_before(mem, i, vx, vy, row + 1, 0, p) && d[p];
        assert(draw_hits_before(mem, i, vx, vy, row, 8, p));
    }
}

/// After all `n` rows the flag is exactly the draw's collision flag.
pub(crate) proof fn lemma_vf_full(d: Seq<bool>, mem: Seq<u8>, i: u16, vx: u8, vy: u8, n: u8)
    requires
        d.len() == 2048,
    ensures
        vf_upto(d, mem, i, vx, vy, n as int, 0) == spec_draw_vf(d, mem, i, vx, vy, n),
{
    lemma_hits_full(mem, i, vx, vy, n);
    if vf_upto(d, mem, i, vx, vy, n as int, 0) {
        let p = choose|p: int|
            0 <= p < 2048 && draw_hits_before(mem, i, vx, vy, n as int, 0, p) && d[p];
        assert(draw_hits(mem, i, vx, vy, n, p));
    }
    if spec_draw_vf(d, mem, i, vx, vy, n) {
        let p = choose|p: int| 0 <= p < d.len() && draw_hits(mem, i, vx, vy, n, p) && d[p];
        assert(draw_hits_before(mem, i, vx, vy, n as int, 0, p));
    }
}

/// Drawing the same sprite twice at the same coordinates restores every
/// cell, whatever the display held before; and on a display that started
/// dark, the second draw reports a collision exactly when the sprite
/// targets at least one cell.
pub proof fn lemma_draw_twice(d: Seq<bool>, mem: Seq<u8>, i: u16, vx: u8, vy: u8, n: u8)
    ensures
        spec_draw_disp(spec_draw_disp(d, mem, i, vx, vy, n), mem, i, vx, vy, n) =~= d,
        (forall|p: int| 0 <= p < d.len() ==> !d[p]) ==> spec_draw_vf(
            spec_draw_disp(d, mem, i, vx, vy, n),
            mem,
            i,
            vx,
            vy,
            n,
        ) == (exists|p: int| 0 <= p < d.len() && draw_hits(mem, i, vx, vy, n, p)),
{
    let d1 = spec_draw_disp(d, mem, i, vx, vy, n);
    assert forall|p: int| 0 <= p < d.len() implies spec_draw_disp(d1, mem, i, vx, vy, n)[p] == d[p] by {
        if draw_hits(mem, i, vx, vy, n, p) {
            assert(d1[p] == !d[p]);
        } else {
            assert(d1[p] == d[p]);
        }
    }
    if forall|p: int| 0 <= p < d.len() ==> !d[p] {
        if exists|p: int| 0 <= p < d.len() && draw_hits(mem, i, vx, vy, n, p) {
            let p = choose|p: int| 0 <= p < d.len() && draw_hits(mem, i, vx, vy, n, p);
            assert(d1[p]);
            assert(spec_draw_vf(d1, mem, i, vx, vy, n));
        } else {
            assert forall|p: int| 0 <= p < d1.len() implies !(draw_hits(mem, i, vx, vy, n, p)
                && d1[p]) by {
                if draw_hits(mem, i, vx, vy, n, p) {
                    assert(0 <= p < d.len() && draw_hits(mem, i, vx, vy, n, p));
                }
            }
            assert(!spec_draw_vf(d1, mem, i, vx, vy, n));
        }
    }
}

} // verus!
