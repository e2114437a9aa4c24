//! Placement of sprites on the display of 32 rows of 64 pixels.
//!
//! A display row is a `u64` whose most significant bit is the leftmost
//! pixel. A sprite is a sequence of bytes, one for each of its rows, whose
//! most significant bit is the leftmost of its eight pixels. A sprite that
//! reaches past the right or the bottom edge continues at the opposite one.

use vstd::prelude::*;

verus! {

/// Whether the pixel in column `col` (0 is the leftmost) of a display row is
/// lit. The most significant bit of a row is its leftmost pixel.
pub open spec fn pixel_lit(row: u64, col: u64) -> bool {
    row & (0x8000_0000_0000_0000u64 >> col) != 0
}

/// Whether bit `j` (0 is the leftmost) of a sprite byte is set.
pub open spec fn sprite_bit(byte: u8, j: u64) -> bool {
    byte & (0x80u8 >> j) != 0
}

/// `row` rotated to the right by `k % 64` positions: what leaves on the
/// right comes back on the left.
pub open spec fn rotated_right(row: u64, k: u64) -> u64 {
    if k % 64 == 0 {
        row
    } else {
        (row >> (k % 64)) | (row << ((64 - k % 64) as u64))
    }
}

/// The 64-pixel row that holds the eight pixels of `byte` starting at
/// column `vx % 64`, wrapping around the right edge.
pub open spec fn sprite_row(byte: u8, vx: u8) -> u64 {
    rotated_right((byte as u64) << 56, vx as u64)
}

/// The column in which bit `j` of a sprite row shows when the sprite is
/// drawn at column `vx`: columns past the right edge continue at the left.
pub open spec fn landing_column(vx: u8, j: int) -> int {
    (vx + j) % 64
}

/// The display row on which row `i` of a sprite lands when the sprite is
/// drawn at row `vy`: rows past the bottom edge continue at the top.
pub open spec fn landing_row(vy: u8, i: int) -> int {
    (vy + i) % 32
}

/// The index of the sprite row that lands on display row `r` when the
/// sprite's first row lands on row `vy % 32`: rows past the bottom edge
/// continue at the top.
pub open spec fn sprite_line(r: int, vy: u8) -> int {
    (r - vy as int) % 32
}

/// The display after a sprite of at most 32 rows has been XORed onto it with
/// its top left corner at column `vx % 64`, row `vy % 32`.
pub open spec fn drawn_rows(display: Seq<u64>, sprite: Seq<u8>, vx: u8, vy: u8) -> Seq<u64> {
    Seq::new(
        display.len(),
        |r: int|
            if sprite_line(r, vy) < sprite.len() {
                display[r] ^ sprite_row(sprite[sprite_line(r, vy)], vx)
            } else {
                display[r]
            },
    )
}

/// Whether row `i` of a sprite meets a lit pixel of the display.
pub open spec fn row_collides(display: Seq<u64>, sprite: Seq<u8>, vx: u8, vy: u8, i: int) -> bool {
    display[landing_row(vy, i)] & sprite_row(sprite[i], vx) != 0
}

/// Whether any row of a sprite meets a lit pixel of the display.
pub open spec fn sprite_collides(display: Seq<u64>, sprite: Seq<u8>, vx: u8, vy: u8) -> bool {
    exists|i: int| 0 <= i < sprite.len() && #[trigger] row_collides(display, sprite, vx, vy, i)
}

/// Whether a pixel is off in `before` and on in `after`.
pub open spec fn turned_on(before: Seq<u64>, after: Seq<u64>, r: int, col: u64) -> bool {
    !pixel_lit(before[r], col) && pixel_lit(after[r], col)
}

/// Where a column of a placed sprite row comes from: column `col` shows bit
/// `(col - vx) mod 64` of the byte if that is one of its eight bits, and
/// is dark otherwise.
proof fn lemma_pixel_of_sprite_row(byte: u8, vx: u8, col: u64)
    by (bit_vector)
    requires
        col < 64,
    ensures
        pixel_lit(sprite_row(byte, vx), col) == ({
            let j = (col + 64 - (vx as u64) % 64) % 64;
            j < 8 && sprite_bit(byte, j as u64)
        }),
{
}

/// Pixels of rows combined by XOR and by AND.
proof fn lemma_pixel_of_combination(a: u64, b: u64, col: u64)
    by (bit_vector)
    requires
        col < 64,
    ensures
        pixel_lit(a ^ b, col) == (pixel_lit(a, col) != pixel_lit(b, col)),
        pixel_lit(a & b, col) == (pixel_lit(a, col) && pixel_lit(b, col)),
        (a ^ b) ^ b == a,
{
}

/// A row with a lit pixel from column `col` on has one there or further on.
proof fn lemma_lit_pixel_step(row: u64, col: u64)
    by (bit_vector)
    requires
        col < 64,
        row & (0xFFFF_FFFF_FFFF_FFFFu64 >> col) != 0,
    ensures
        pixel_lit(row, col) || (col < 63 && row & (0xFFFF_FFFF_FFFF_FFFFu64 >> ((col + 1) as u64))
            != 0),
{
}

/// Masking a row with all ones changes nothing, and the zero row is dark.
proof fn lemma_mask_all(row: u64, col: u64)
    by (bit_vector)
    ensures
        row & (0xFFFF_FFFF_FFFF_FFFFu64 >> 0) == row,
        !pixel_lit(0, col),
{
}

/// A row with a lit pixel from column `from` on has a lit pixel in some
/// column from `from` on.
proof fn lemma_lit_pixel_from(row: u64, from: u64)
    requires
        from < 64,
        row & (0xFFFF_FFFF_FFFF_FFFFu64 >> from) != 0,
    ensures
        exists|col: u64| from <= col < 64 && pixel_lit(row, col),
    decreases 64 - from,
{
    lemma_lit_pixel_step(row, from);
    if !pixel_lit(row, from) {
        lemma_lit_pixel_from(row, (from + 1) as u64);
    }
}

/// A row other than zero has a lit pixel.
pub proof fn lemma_nonzero_row_has_lit_pixel(row: u64)
    requires
        row != 0,
    ensures
        exists|col: u64| col < 64 && pixel_lit(row, col),
{
    lemma_mask_all(row, 0);
    lemma_lit_pixel_from(row, 0);
}

/// Horizontal placement with wraparound: bit `j` of a sprite byte drawn
/// at column `vx` shows in column `(vx + j) mod 64`.
pub proof fn lemma_sprite_bit_lands(byte: u8, vx: u8, j: u64)
    requires
        j < 8,
    ensures
        pixel_lit(sprite_row(byte, vx), landing_column(vx, j as int) as u64) == sprite_bit(byte, j),
{
    let col = landing_column(vx, j as int) as u64;
    lemma_pixel_of_sprite_row(byte, vx, col);
    assert((col + 64 - (vx as u64) % 64) % 64 == j);
}

/// A placed sprite row is dark in every column that none of the eight bits
/// lands on.
pub proof fn lemma_sprite_row_dark_elsewhere(byte: u8, vx: u8, col: u64)
    requires
        col < 64,
        forall|j: int| 0 <= j < 8 ==> #[trigger] landing_column(vx, j) != col,
    ensures
        !pixel_lit(sprite_row(byte, vx), col),
{
    lemma_pixel_of_sprite_row(byte, vx, col);
    let j = (col + 64 - (vx as u64) % 64) % 64;
    if j < 8 {
        assert(landing_column(vx, j as int) == col);
    }
}

/// Vertical placement with wraparound: row `i` of a sprite drawn at row
/// `vy` is XORed onto display row `(vy + i) mod 32`.
pub proof fn lemma_sprite_line_lands(display: Seq<u64>, sprite: Seq<u8>, vx: u8, vy: u8, i: int)
    requires
        display.len() == 32,
        sprite.len() <= 32,
        0 <= i < sprite.len(),
    ensures
        drawn_rows(display, sprite, vx, vy)[landing_row(vy, i)] == display[landing_row(vy, i)]
            ^ sprite_row(sprite[i], vx),
{
    assert(sprite_line(landing_row(vy, i), vy) == i);
}

/// A draw leaves every display row alone that no row of the sprite lands
/// on.
pub proof fn lemma_other_rows_untouched(
    display: Seq<u64>,
    sprite: Seq<u8>,
    vx: u8,
    vy: u8,
    r: int,
)
    requires
        display.len() == 32,
        0 <= r < 32,
        forall|i: int| 0 <= i < sprite.len() ==> #[trigger] landing_row(vy, i) != r,
    ensures
        drawn_rows(display, sprite, vx, vy)[r] == display[r],
{
    let i = sprite_line(r, vy);
    if i < sprite.len() {
        assert(landing_row(vy, i) == r);
    }
}

/// Drawing is its own inverse: the same sprite drawn twice at the same
/// place leaves the display as it was.
pub proof fn lemma_draw_twice_restores(display: Seq<u64>, sprite: Seq<u8>, vx: u8, vy: u8)
    requires
        display.len() == 32,
    ensures
        drawn_rows(drawn_rows(display, sprite, vx, vy), sprite, vx, vy) == display,
{
    let once = drawn_rows(display, sprite, vx, vy);
    let twice = drawn_rows(once, sprite, vx, vy);
    assert forall|r: int| 0 <= r < 32 implies twice[r] == display[r] by {
        if sprite_line(r, vy) < sprite.len() {
            lemma_pixel_of_combination(
                display[r],
                sprite_row(sprite[sprite_line(r, vy)], vx),
                0,
            );
        }
    }
    assert(twice =~= display);
}

/// The second of two equal draws reports a collision exactly if the first
/// one turned a pixel on.
pub proof fn lemma_second_draw_collides(display: Seq<u64>, sprite: Seq<u8>, vx: u8, vy: u8)
    requires
        display.len() == 32,
        sprite.len() <= 32,
    ensures
        sprite_collides(drawn_rows(display, sprite, vx, vy), sprite, vx, vy) <==> exists|
            r: int,
            col: u64,
        |
            0 <= r < 32 && col < 64 && #[trigger] turned_on(
                display,
                drawn_rows(display, sprite, vx, vy),
                r,
                col,
            ),
{
    let once = drawn_rows(display, sprite, vx, vy);
    if sprite_collides(once, sprite, vx, vy) {
        let i = choose|i: int| 0 <= i < sprite.len() && row_collides(once, sprite, vx, vy, i);
        let r = (vy + i) % 32;
        let bits = sprite_row(sprite[i], vx);
        lemma_sprite_line_lands(display, sprite, vx, vy, i);
        lemma_nonzero_row_has_lit_pixel(once[r] & bits);
        let col = choose|col: u64| col < 64 && pixel_lit(once[r] & bits, col);
        lemma_pixel_of_combination(once[r], bits, col);
        lemma_pixel_of_combination(display[r], bits, col);
        assert(turned_on(display, once, r, col));
    }
    if exists|r: int, col: u64|
        0 <= r < 32 && col < 64 && #[trigger] turned_on(display, once, r, col) {
        let (r, col) = choose|r: int, col: u64|
            0 <= r < 32 && col < 64 && #[trigger] turned_on(display, once, r, col);
        let i = sprite_line(r, vy);
        assert(i < sprite.len());
        assert((vy + i) % 32 == r);
        let bits = sprite_row(sprite[i], vx);
        lemma_pixel_of_combination(display[r], bits, col);
        lemma_pixel_of_combination(once[r], bits, col);
        assert(pixel_lit(once[r] & bits, col));
        assert(once[r] & bits != 0) by {
            lemma_mask_all(0, col);
        }
        assert(row_collides(once, sprite, vx, vy, i));
    }
}

/// Rotates a display row to the right by `k % 64` positions.
pub fn rotate_right(row: u64, k: u64) -> (rotated: u64)
    ensures
        rotated == rotated_right(row, k),
{
    let shift: u64 = k % 64;
    if shift == 0 {
        row
    } else {
        (row >> shift) | (row << (64 - shift))
    }
}

/// Lays the eight pixels of a sprite byte on a display row, starting at
/// column `vx % 64`.
pub fn place_sprite_row(byte: u8, vx: u8) -> (row: u64)
    ensures
        row == sprite_row(byte, vx),
{
    rotate_right((byte as u64) << 56, vx as u64)
}

} // verus!
