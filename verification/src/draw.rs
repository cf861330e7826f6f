//! The XOR sprite-drawing model: where each sprite bit lands on the wrapped
//! display, what the display looks like after a draw, and when a draw
//! collides with a pixel that was already lit.

use vstd::prelude::*;

use crate::system::{DISPLAY_COLS, DISPLAY_ROWS};
use vstd::arithmetic::div_mod::lemma_fundamental_div_mod;

verus! {

/// Whether bit `bit` of sprite byte `b` is on; bit 0 is the most significant
/// bit, drawn leftmost.
pub open spec fn sprite_bit(b: u8, bit: int) -> bool {
    b & (1u8 << ((7 - bit) as u8)) != 0
}

/// The display row that sprite row `idx` lands on when drawn at row `vy`:
/// rows wrap modulo the display height.
pub open spec fn wrap_row(vy: u8, idx: int) -> int {
    (vy + idx) % (DISPLAY_ROWS as int)
}

/// The display column that sprite bit `bit` lands on when drawn at column
/// `vx`: columns wrap modulo the display width.
pub open spec fn wrap_col(vx: u8, bit: int) -> int {
    (vx + bit) % (DISPLAY_COLS as int)
}

/// The row-major display cell that sprite position (`idx`, `bit`) lands on
/// when drawn at (`vx`, `vy`).
pub open spec fn target_cell(vx: u8, vy: u8, idx: int, bit: int) -> int {
    wrap_row(vy, idx) * (DISPLAY_COLS as int) + wrap_col(vx, bit)
}

/// Whether the sprite, drawn at (`vx`, `vy`), toggles display cell `p`.
pub open spec fn sprite_hits(sprite: Seq<u8>, vx: u8, vy: u8, p: int) -> bool {
    exists|idx: int, bit: int|
        #![trigger target_cell(vx, vy, idx, bit)]
        0 <= idx < sprite.len() && 0 <= bit < 8 && target_cell(vx, vy, idx, bit) == p
            && sprite_bit(sprite[idx], bit)
}

/// Whether the first `k` sprite positions, in row-major sprite order
/// (position (`idx`, `bit`) is number `idx * 8 + bit`), toggle cell `p`.
pub open spec fn sprite_hits_upto(sprite: Seq<u8>, vx: u8, vy: u8, p: int, k: int) -> bool {
    exists|idx: int, bit: int|
        #![trigger target_cell(vx, vy, idx, bit)]
        0 <= idx < sprite.len() && 0 <= bit < 8 && idx * 8 + bit < k
            && target_cell(vx, vy, idx, bit) == p && sprite_bit(sprite[idx], bit)
}

/// The display after XOR-drawing the sprite at (`vx`, `vy`).
pub open spec fn draw_display(d: Seq<bool>, sprite: Seq<u8>, vx: u8, vy: u8) -> Seq<bool> {
    Seq::new(d.len(), |p: int| d[p] != sprite_hits(sprite, vx, vy, p))
}

/// Whether drawing the sprite at (`vx`, `vy`) turns some lit cell of `d`
/// off.
pub open spec fn draw_collides(d: Seq<bool>, sprite: Seq<u8>, vx: u8, vy: u8) -> bool {
    exists|idx: int, bit: int|
        #![trigger target_cell(vx, vy, idx, bit)]
        0 <= idx < sprite.len() && 0 <= bit < 8 && sprite_bit(sprite[idx], bit)
            && d[target_cell(vx, vy, idx, bit)]
}

/// Whether the first `k` sprite positions turn some lit cell of `d` off.
pub open spec fn draw_collides_upto(
    d: Seq<bool>,
    sprite: Seq<u8>,
    vx: u8,
    vy: u8,
    k: int,
) -> bool {
    exists|idx: int, bit: int|
        #![trigger target_cell(vx, vy, idx, bit)]
        0 <= idx < sprite.len() && 0 <= bit < 8 && idx * 8 + bit < k
            && sprite_bit(sprite[idx], bit) && d[target_cell(vx, vy, idx, bit)]
}

/// Whether drawing the sprite at (`vx`, `vy`) turns some unlit cell of `d`
/// on.
pub open spec fn draw_sets_any_cell(d: Seq<bool>, sprite: Seq<u8>, vx: u8, vy: u8) -> bool {
    exists|idx: int, bit: int|
        #![trigger target_cell(vx, vy, idx, bit)]
        0 <= idx < sprite.len() && 0 <= bit < 8 && sprite_bit(sprite[idx], bit)
            && !d[target_cell(vx, vy, idx, bit)]
}

/// Distinct sprite positions land on distinct display cells, as long as the
/// sprite is no taller than the display and no wider than a byte.
pub proof fn lemma_target_cell_injective(
    vx: u8,
    vy: u8,
    idx1: int,
    bit1: int,
    idx2: int,
    bit2: int,
)
    requires
        0 <= idx1 < DISPLAY_ROWS,
        0 <= idx2 < DISPLAY_ROWS,
        0 <= bit1 < 8,
        0 <= bit2 < 8,
        target_cell(vx, vy, idx1, bit1) == target_cell(vx, vy, idx2, bit2),
    ensures
        idx1 == idx2,
        bit1 == bit2,
{
    let rows = DISPLAY_ROWS as int;
    let cols = DISPLAY_COLS as int;
    let r1 = wrap_row(vy, idx1);
    let c1 = wrap_col(vx, bit1);
    let r2 = wrap_row(vy, idx2);
    let c2 = wrap_col(vx, bit2);
    assert(0 <= r1 < rows && 0 <= r2 < rows && 0 <= c1 < cols && 0 <= c2 < cols);
    assert(r1 == r2 && c1 == c2);
    lemma_fundamental_div_mod(vy + idx1, rows);
    lemma_fundamental_div_mod(vy + idx2, rows);
    assert(idx1 - idx2 == rows * ((vy + idx1) / rows - (vy + idx2) / rows));
    lemma_fundamental_div_mod(vx + bit1, cols);
    lemma_fundamental_div_mod(vx + bit2, cols);
    assert(bit1 - bit2 == cols * ((vx + bit1) / cols - (vx + bit2) / cols));
}

/// A cell at some sprite position's target is toggled exactly when that
/// position's bit is on.
pub proof fn lemma_hits_at_target(sprite: Seq<u8>, vx: u8, vy: u8, idx: int, bit: int)
    requires
        sprite.len() <= DISPLAY_ROWS,
        0 <= idx < sprite.len(),
        0 <= bit < 8,
    ensures
        sprite_hits(sprite, vx, vy, target_cell(vx, vy, idx, bit)) == sprite_bit(
            sprite[idx],
            bit,
        ),
{
    let p = target_cell(vx, vy, idx, bit);
    if sprite_hits(sprite, vx, vy, p) {
        let (idx2, bit2): (int, int) = choose|idx2: int, bit2: int|
            #![trigger target_cell(vx, vy, idx2, bit2)]
            0 <= idx2 < sprite.len() && 0 <= bit2 < 8 && target_cell(vx, vy, idx2, bit2) == p
                && sprite_bit(sprite[idx2], bit2);
        lemma_target_cell_injective(vx, vy, idx, bit, idx2, bit2);
        assert(sprite_bit(sprite[idx], bit));
    }
}

/// Adding sprite position number `k = idx * 8 + bit` to the processed set
/// changes the toggle state of its own target cell alone, and that cell is
/// untouched by the earlier positions.
pub proof fn lemma_hits_upto_step(sprite: Seq<u8>, vx: u8, vy: u8, idx: int, bit: int)
    requires
        sprite.len() <= DISPLAY_ROWS,
        0 <= idx < sprite.len(),
        0 <= bit < 8,
    ensures
        forall|q: int|
            q != target_cell(vx, vy, idx, bit) ==> #[trigger] sprite_hits_upto(
                sprite,
                vx,
                vy,
                q,
                idx * 8 + bit + 1,
            ) == sprite_hits_upto(sprite, vx, vy, q, idx * 8 + bit),
        !sprite_hits_upto(sprite, vx, vy, target_cell(vx, vy, idx, bit), idx * 8 + bit),
        sprite_hits_upto(sprite, vx, vy, target_cell(vx, vy, idx, bit), idx * 8 + bit + 1)
            == sprite_bit(sprite[idx], bit),
{
    let k = idx * 8 + bit;
    let p = target_cell(vx, vy, idx, bit);

    // No earlier position lands on this position's cell.
    if sprite_hits_upto(sprite, vx, vy, p, k) {
        let (idx2, bit2): (int, int) = choose|idx2: int, bit2: int|
            #![trigger target_cell(vx, vy, idx2, bit2)]
            0 <= idx2 < sprite.len() && 0 <= bit2 < 8 && idx2 * 8 + bit2 < k
                && target_cell(vx, vy, idx2, bit2) == p && sprite_bit(sprite[idx2], bit2);
        lemma_target_cell_injective(vx, vy, idx, bit, idx2, bit2);
        assert(false);
    }

    // Extending the processed set to include position k only changes cell p.
    assert forall|q: int| q != p implies sprite_hits_upto(sprite, vx, vy, q, k + 1)
        == sprite_hits_upto(sprite, vx, vy, q, k) by {
        if sprite_hits_upto(sprite, vx, vy, q, k + 1) {
            let (idx2, bit2): (int, int) = choose|idx2: int, bit2: int|
                #![trigger target_cell(vx, vy, idx2, bit2)]
                0 <= idx2 < sprite.len() && 0 <= bit2 < 8 && idx2 * 8 + bit2 < k + 1
                    && target_cell(vx, vy, idx2, bit2) == q && sprite_bit(sprite[idx2], bit2);
            if idx2 * 8 + bit2 == k {
                assert(idx2 == idx && bit2 == bit);
                assert(false);
            }
            assert(sprite_hits_upto(sprite, vx, vy, q, k));
        }
    }

    // Position k itself toggles its target cell exactly when its bit is on.
    if sprite_bit(sprite[idx], bit) {
        assert(sprite_hits_upto(sprite, vx, vy, p, k + 1));
    }
    if sprite_hits_upto(sprite, vx, vy, p, k + 1) {
        let (idx2, bit2): (int, int) = choose|idx2: int, bit2: int|
            #![trigger target_cell(vx, vy, idx2, bit2)]
            0 <= idx2 < sprite.len() && 0 <= bit2 < 8 && idx2 * 8 + bit2 < k + 1
                && target_cell(vx, vy, idx2, bit2) == p && sprite_bit(sprite[idx2], bit2);
        lemma_target_cell_injective(vx, vy, idx, bit, idx2, bit2);
        assert(sprite_bit(sprite[idx], bit));
    }
}

/// Extending the processed positions from `k = idx * 8 + bit` by one adds
/// a collision exactly when position `k`'s bit is on over a lit cell.
pub proof fn lemma_collides_upto_step(
    d: Seq<bool>,
    sprite: Seq<u8>,
    vx: u8,
    vy: u8,
    idx: int,
    bit: int,
)
    requires
        sprite.len() <= DISPLAY_ROWS,
        0 <= idx < sprite.len(),
        0 <= bit < 8,
    ensures
        draw_collides_upto(d, sprite, vx, vy, idx * 8 + bit + 1) == (draw_collides_upto(
            d,
            sprite,
            vx,
            vy,
            idx * 8 + bit,
        ) || (sprite_bit(sprite[idx], bit) && d[target_cell(vx, vy, idx, bit)])),
{
    let k = idx * 8 + bit;
    if sprite_bit(sprite[idx], bit) && d[target_cell(vx, vy, idx, bit)] {
        assert(draw_collides_upto(d, sprite, vx, vy, k + 1));
    }
    if draw_collides_upto(d, sprite, vx, vy, k + 1) {
        let (idx2, bit2): (int, int) = choose|idx2: int, bit2: int|
            #![trigger target_cell(vx, vy, idx2, bit2)]
            0 <= idx2 < sprite.len() && 0 <= bit2 < 8 && idx2 * 8 + bit2 < k + 1
                && sprite_bit(sprite[idx2], bit2) && d[target_cell(vx, vy, idx2, bit2)];
        if idx2 * 8 + bit2 == k {
            assert(idx2 == idx && bit2 == bit);
        } else {
            assert(draw_collides_upto(d, sprite, vx, vy, k));
        }
    }
}

/// With every position processed, the partial notions agree with the full
/// ones.
pub proof fn lemma_upto_complete(d: Seq<bool>, sprite: Seq<u8>, vx: u8, vy: u8)
    ensures
        forall|p: int| #![all_triggers] sprite_hits_upto(sprite, vx, vy, p, sprite.len() as int * 8)
            == sprite_hits(sprite, vx, vy, p),
        draw_collides_upto(d, sprite, vx, vy, sprite.len() as int * 8) == draw_collides(
            d,
            sprite,
            vx,
            vy,
        ),
{
    assert forall|p: int| sprite_hits_upto(sprite, vx, vy, p, sprite.len() as int * 8)
        == sprite_hits(sprite, vx, vy, p) by {
        if sprite_hits(sprite, vx, vy, p) {
            let (idx2, bit2): (int, int) = choose|idx2: int, bit2: int|
                #![trigger target_cell(vx, vy, idx2, bit2)]
                0 <= idx2 < sprite.len() && 0 <= bit2 < 8 && target_cell(vx, vy, idx2, bit2) == p
                    && sprite_bit(sprite[idx2], bit2);
            assert(idx2 * 8 + bit2 < sprite.len() as int * 8);
            assert(sprite_hits_upto(sprite, vx, vy, p, sprite.len() as int * 8));
        }
    }
    if draw_collides(d, sprite, vx, vy) {
        let (idx2, bit2): (int, int) = choose|idx2: int, bit2: int|
            #![trigger target_cell(vx, vy, idx2, bit2)]
            0 <= idx2 < sprite.len() && 0 <= bit2 < 8 && sprite_bit(sprite[idx2], bit2)
                && d[target_cell(vx, vy, idx2, bit2)];
        assert(idx2 * 8 + bit2 < sprite.len() as int * 8);
        assert(draw_collides_upto(d, sprite, vx, vy, sprite.len() as int * 8));
    }
}

/// Drawing the same sprite at the same location twice returns the display
/// to its prior state: the XOR toggles cancel cell by cell.
pub proof fn lemma_draw_involution(d: Seq<bool>, sprite: Seq<u8>, vx: u8, vy: u8)
    ensures
        draw_display(draw_display(d, sprite, vx, vy), sprite, vx, vy) == d,
{
    assert(draw_display(draw_display(d, sprite, vx, vy), sprite, vx, vy) =~= d);
}

/// The second of two identical draws reports a collision exactly when the
/// first draw turned some cell on: the first draw lit it, the second finds
/// it lit.
pub proof fn lemma_second_draw_collision(d: Seq<bool>, sprite: Seq<u8>, vx: u8, vy: u8)
    requires
        sprite.len() <= DISPLAY_ROWS,
        d.len() == DISPLAY_ROWS * DISPLAY_COLS,
    ensures
        draw_collides(draw_display(d, sprite, vx, vy), sprite, vx, vy) == draw_sets_any_cell(
            d,
            sprite,
            vx,
            vy,
        ),
{
    let d2 = draw_display(d, sprite, vx, vy);
    assert forall|idx: int, bit: int|
        0 <= idx < sprite.len() && 0 <= bit < 8 implies {
        let p = #[trigger] target_cell(vx, vy, idx, bit);
        0 <= p < d.len() && (sprite_bit(sprite[idx], bit) ==> d2[p] == !d[p])
    } by {
        let p = target_cell(vx, vy, idx, bit);
        assert(0 <= wrap_row(vy, idx) < DISPLAY_ROWS as int);
        assert(0 <= wrap_col(vx, bit) < DISPLAY_COLS as int);
        assert(0 <= p < d.len());
        lemma_hits_at_target(sprite, vx, vy, idx, bit);
    }
}

} // verus!
