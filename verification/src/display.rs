//! From the framebuffer to what a window shows: one filled square for each
//! lit pixel.

use vstd::prelude::*;
use crate::config::Config;
use crate::sprite::pixel_lit;

verus! {

/// A rectangle on the screen, in screen pixels: its top left corner and its
/// size.
#[derive(Clone, Copy, Debug, PartialEq, Eq, Structural)]
pub struct Rect {
    pub x: i32,
    pub y: i32,
    pub width: u32,
    pub height: u32,
}

/// The square that shows the framebuffer pixel in column `col`, row `row`
/// when one framebuffer pixel covers `magnifier` screen pixels each way.
pub open spec fn cell_rect(col: int, row: int, magnifier: u32) -> Rect {
    Rect {
        x: (col * magnifier) as i32,
        y: (row * magnifier) as i32,
        width: magnifier,
        height: magnifier,
    }
}

/// Whether pixel number `cell` of the framebuffer is lit, the pixels counted
/// row by row from the top left.
pub open spec fn cell_lit(pixels: Seq<u64>, cell: int) -> bool {
    pixel_lit(pixels[cell / 64], (cell % 64) as u64)
}

/// The squares of the lit pixels among the first `cells` pixels of the
/// framebuffer, counted row by row from the top left, in that order.
pub open spec fn lit_rects(pixels: Seq<u64>, magnifier: u32, cells: int) -> Seq<Rect>
    decreases cells,
{
    if cells <= 0 {
        Seq::empty()
    } else {
        let cell = cells - 1;
        let before = lit_rects(pixels, magnifier, cell);
        if cell_lit(pixels, cell) {
            before.push(cell_rect(cell % 64, cell / 64, magnifier))
        } else {
            before
        }
    }
}

/// Every lit pixel among the first `cells` has its square in the list.
pub proof fn lemma_lit_cell_has_rect(pixels: Seq<u64>, magnifier: u32, cells: int, cell: int)
    requires
        0 <= cell < cells,
        cell_lit(pixels, cell),
    ensures
        lit_rects(pixels, magnifier, cells).contains(cell_rect(cell % 64, cell / 64, magnifier)),
    decreases cells,
{
    let rect = cell_rect(cell % 64, cell / 64, magnifier);
    let before = lit_rects(pixels, magnifier, cells - 1);
    let all = lit_rects(pixels, magnifier, cells);
    if cell == cells - 1 {
        assert(all[before.len() as int] == rect);
    } else {
        lemma_lit_cell_has_rect(pixels, magnifier, cells - 1, cell);
        let i = choose|i: int| 0 <= i < before.len() && before[i] == rect;
        assert(all[i] == rect);
    }
}

/// Every square in the list is the square of a lit pixel among the first
/// `cells`, and there are no more squares than pixels.
pub proof fn lemma_rect_is_of_lit_cell(pixels: Seq<u64>, magnifier: u32, cells: int, i: int)
    requires
        0 <= i < lit_rects(pixels, magnifier, cells).len(),
    ensures
        lit_rects(pixels, magnifier, cells).len() <= cells,
        exists|cell: int|
            0 <= cell < cells && #[trigger] cell_lit(pixels, cell) && lit_rects(
                pixels,
                magnifier,
                cells,
            )[i] == cell_rect(cell % 64, cell / 64, magnifier),
    decreases cells,
{
    let before = lit_rects(pixels, magnifier, cells - 1);
    if i < before.len() {
        lemma_rect_is_of_lit_cell(pixels, magnifier, cells - 1, i);
        let cell = choose|cell: int|
            0 <= cell < cells - 1 && #[trigger] cell_lit(pixels, cell) && before[i] == cell_rect(
                cell % 64,
                cell / 64,
                magnifier,
            );
        assert(cell_lit(pixels, cell));
    } else {
        assert(cell_lit(pixels, cells - 1));
        if before.len() > 0 {
            lemma_rect_is_of_lit_cell(pixels, magnifier, cells - 1, 0);
        }
    }
}

/// Testing a pixel by shifting it to the lowest bit is testing it under a
/// mask.
proof fn lemma_pixel_by_shift(row: u64, col: u64)
    by (bit_vector)
    requires
        col < 64,
    ensures
        ((row >> (63 - col) as u64) & 1 != 0) == (row & (0x8000_0000_0000_0000u64 >> col) != 0),
{
}

/// Whether the pixel in column `col` of a framebuffer row is lit.
pub fn is_pixel_lit(row: u64, col: u64) -> (lit: bool)
    requires
        col < 64,
    ensures
        lit == pixel_lit(row, col),
{
    proof {
        lemma_pixel_by_shift(row, col);
    }
    (row >> (63 - col)) & 1 != 0
}

/// The squares to fill on a cleared screen to show the framebuffer: one for
/// each lit pixel, row by row from the top left.
pub fn draw_pixels(pixels: &[u64; 32], config: Config) -> (rects: Vec<Rect>)
    requires
        63 * config.screen_magnifier <= i32::MAX,
    ensures
        rects@ == lit_rects(pixels@, config.screen_magnifier, 2048),
{
    let m = config.screen_magnifier;
    let mut rects: Vec<Rect> = Vec::new();
    let mut y: usize = 0;
    while y < 32
        invariant
            y <= 32,
            63 * m <= i32::MAX,
            rects@ == lit_rects(pixels@, m, y * 64),
        decreases 32 - y,
    {
        let mut x: usize = 0;
        while x < 64
            invariant
                y < 32,
                x <= 64,
                63 * m <= i32::MAX,
                rects@ == lit_rects(pixels@, m, y * 64 + x),
            decreases 64 - x,
        {
            let ghost cell = y * 64 + x;
            assert(cell / 64 == y && cell % 64 == x);
            if is_pixel_lit(pixels[y], x as u64) {
                assert(0 <= x * m <= 63 * m && 0 <= y * m <= 63 * m) by (nonlinear_arith)
                    requires
                        x <= 63,
                        y <= 63,
                ;
                let left = (x as u32 * m) as i32;
                let top = (y as u32 * m) as i32;
                rects.push(Rect { x: left, y: top, width: m, height: m });
            }
            x += 1;
        }
        y += 1;
    }
    rects
}

} // verus!
