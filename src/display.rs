use vstd::prelude::*;

verus! {

/// Pixels in a display row.
pub const DISPLAY_WIDTH: usize = 64;

/// Rows of the display.
pub const DISPLAY_HEIGHT: usize = 32;

/// Pixels of the display, stored row by row.
pub const DISPLAY_SIZE: usize = 2048;

/// Pixels in a sprite row: one byte, most significant bit leftmost.
pub const SPRITE_WIDTH: usize = 8;

/// Bit `col` of the sprite row `row`, counting from the most significant bit.
pub open spec fn sprite_bit(row: u8, col: int) -> bool {
    (row >> ((7 - col) as u8)) & 1u8 == 1u8
}

/// Whether drawing `sprite` with its top-left corner at `(x, y)` flips pixel `p`.
///
/// Sprite pixels that land right of the last column or below the last row
/// fall on no pixel at all: they are dropped, not wrapped.
pub open spec fn flips(sprite: Seq<u8>, x: int, y: int, p: int) -> bool {
    let r = p / DISPLAY_WIDTH as int;
    let c = p % DISPLAY_WIDTH as int;
    &&& y <= r < y + sprite.len()
    &&& x <= c < x + SPRITE_WIDTH
    &&& sprite_bit(sprite[r - y], c - x)
}

/// The display after `sprite` is XORed onto it at `(x, y)`.
pub open spec fn drawn(display: Seq<bool>, sprite: Seq<u8>, x: int, y: int) -> Seq<bool> {
    Seq::new(display.len(), |p: int| display[p] != flips(sprite, x, y, p))
}

/// Whether drawing `sprite` at `(x, y)` turns some set pixel off.
pub open spec fn collides(display: Seq<bool>, sprite: Seq<u8>, x: int, y: int) -> bool {
    exists|p: int| 0 <= p < display.len() && flips(sprite, x, y, p) && #[trigger] display[p]
}

/// The pixel index of column `c` in row `r`, and back.
pub proof fn lemma_pixel_index(r: int, c: int)
    requires
        0 <= r < DISPLAY_HEIGHT,
        0 <= c < DISPLAY_WIDTH,
    ensures
        0 <= r * DISPLAY_WIDTH + c < DISPLAY_SIZE,
        (r * DISPLAY_WIDTH + c) / DISPLAY_WIDTH as int == r,
        (r * DISPLAY_WIDTH + c) % DISPLAY_WIDTH as int == c,
{
    assert(0 <= r * 64 + c < 2048) by (nonlinear_arith)
        requires
            0 <= r < 32,
            0 <= c < 64,
    ;
    vstd::arithmetic::div_mod::lemma_fundamental_div_mod_converse(r * 64 + c, 64, r, c);
}

/// Drawing the same sprite twice at the same place gives back the display
/// it started from. On a cleared display the first draw collides with
/// nothing, and the second collides exactly when the sprite shows a set
/// pixel on the display at all.
pub proof fn lemma_draw_twice(display: Seq<bool>, sprite: Seq<u8>, x: int, y: int)
    ensures
        drawn(drawn(display, sprite, x, y), sprite, x, y) == display,
        (forall|p: int| 0 <= p < display.len() ==> !#[trigger] display[p]) ==> {
            &&& !collides(display, sprite, x, y)
            &&& collides(drawn(display, sprite, x, y), sprite, x, y) == exists|p: int|
                0 <= p < display.len() && #[trigger] flips(sprite, x, y, p)
        },
{
    assert(drawn(drawn(display, sprite, x, y), sprite, x, y) =~= display);
    if forall|p: int| 0 <= p < display.len() ==> !#[trigger] display[p] {
        let once = drawn(display, sprite, x, y);
        if exists|p: int| 0 <= p < display.len() && #[trigger] flips(sprite, x, y, p) {
            let p = choose|p: int| 0 <= p < display.len() && #[trigger] flips(sprite, x, y, p);
            assert(once[p]);
        }
    }
}

} // verus!
