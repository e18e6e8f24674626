//! The 16×16 LED matrix: colours, the serpentine wiring of the strip, and the
//! tiling of a 3×3 arrangement of 3×3 blocks onto the matrix.

use vstd::prelude::*;
use vstd::arithmetic::div_mod::lemma_fundamental_div_mod_converse;

verus! {

/// Width of the matrix in pixels.
pub const MATRIX_WIDTH: usize = 16;

/// Height of the matrix in pixels, which is also the length of one column of the strip.
pub const MATRIX_HEIGHT: usize = 16;

/// Number of pixels on the strip.
pub const MATRIX_LENGTH: usize = 256;

/// A colour with 8 bits for each of red, green and blue.
#[derive(Clone, Copy, PartialEq, Eq, Debug, Structural)]
pub struct Rgb {
    pub r: u8,
    pub g: u8,
    pub b: u8,
}

pub open spec fn rgb(r: u8, g: u8, b: u8) -> Rgb {
    Rgb { r, g, b }
}

pub open spec fn sat_add_channel(a: u8, b: u8) -> u8 {
    if a + b > 255 { 255u8 } else { (a + b) as u8 }
}

/// Channel-wise sum, clamped at full intensity.
pub open spec fn sat_add_spec(a: Rgb, b: Rgb) -> Rgb {
    rgb(sat_add_channel(a.r, b.r), sat_add_channel(a.g, b.g), sat_add_channel(a.b, b.b))
}

/// `a` scaled by `level / 255`, rounded down.
pub open spec fn scale_channel(a: u8, level: u8) -> u8 {
    (a * level / 255) as u8
}

pub open spec fn scale_spec(c: Rgb, level: u8) -> Rgb {
    rgb(scale_channel(c.r, level), scale_channel(c.g, level), scale_channel(c.b, level))
}

/// Cross-fade from `b` (at level 0) to `a` (at level 255), rounded down.
pub open spec fn blend_channel(a: u8, b: u8, level: u8) -> u8 {
    ((a * level + b * (255 - level)) / 255) as u8
}

pub open spec fn blend_spec(a: Rgb, b: Rgb, level: u8) -> Rgb {
    rgb(
        blend_channel(a.r, b.r, level),
        blend_channel(a.g, b.g, level),
        blend_channel(a.b, b.b, level),
    )
}

impl Rgb {
    pub fn new(r: u8, g: u8, b: u8) -> (c: Rgb)
        ensures
            c == rgb(r, g, b),
    {
        Rgb { r, g, b }
    }

    /// The unlit colour.
    pub fn black() -> (c: Rgb)
        ensures
            c == rgb(0, 0, 0),
    {
        Rgb { r: 0, g: 0, b: 0 }
    }

    pub fn saturating_add(self, other: Rgb) -> (c: Rgb)
        ensures
            c == sat_add_spec(self, other),
    {
        Rgb {
            r: self.r.saturating_add(other.r),
            g: self.g.saturating_add(other.g),
            b: self.b.saturating_add(other.b),
        }
    }

    /// This colour dimmed to `level / 255` of its intensity.
    pub fn scale(self, level: u8) -> (c: Rgb)
        ensures
            c == scale_spec(self, level),
    {
        Rgb {
            r: scale_u8(self.r, level),
            g: scale_u8(self.g, level),
            b: scale_u8(self.b, level),
        }
    }

    /// Cross-fade between `self` (weight `level / 255`) and `other`.
    pub fn blend(self, other: Rgb, level: u8) -> (c: Rgb)
        ensures
            c == blend_spec(self, other, level),
    {
        Rgb {
            r: blend_u8(self.r, other.r, level),
            g: blend_u8(self.g, other.g, level),
            b: blend_u8(self.b, other.b, level),
        }
    }
}

fn scale_u8(a: u8, level: u8) -> (r: u8)
    ensures
        r == scale_channel(a, level),
{
    assert(a * level <= 255 * 255) by (nonlinear_arith)
        requires
            a <= 255,
            level <= 255,
    ;
    let p: u32 = a as u32 * level as u32;
    (p / 255) as u8
}

fn blend_u8(a: u8, b: u8, level: u8) -> (r: u8)
    ensures
        r == blend_channel(a, b, level),
{
    let inv: u32 = 255 - level as u32;
    assert(a * level <= 255 * level && b * inv <= 255 * inv) by (nonlinear_arith)
        requires
            a <= 255,
            b <= 255,
            level >= 0,
            inv >= 0,
    ;
    let p: u32 = a as u32 * level as u32;
    let q: u32 = b as u32 * inv;
    let s: u32 = p + q;
    (s / 255) as u8
}

/// Position on the strip of pixel `(x, y)` when the strip runs down the even
/// columns and up the odd ones, each column `h` pixels long.
pub open spec fn serpentine_index(x: int, y: int, h: int) -> int {
    if x % 2 == 0 {
        x * h + y
    } else {
        x * h + (h - 1 - y)
    }
}

/// The pixel `(x, y)` at position `i` of such a strip.
pub open spec fn serpentine_position(i: int, h: int) -> (int, int) {
    let x = i / h;
    let r = i % h;
    if x % 2 == 0 {
        (x, r)
    } else {
        (x, h - 1 - r)
    }
}

/// On a `w`×`h` matrix the serpentine wiring puts each pixel at a position of
/// the strip, and the pixel found at that position is the pixel itself.
pub proof fn lemma_serpentine_index_inverse(x: int, y: int, w: int, h: int)
    requires
        0 <= x < w,
        0 <= y < h,
    ensures
        0 <= serpentine_index(x, y, h) < w * h,
        serpentine_position(serpentine_index(x, y, h), h) == (x, y),
{
    let i = serpentine_index(x, y, h);
    let r = if x % 2 == 0 { y } else { h - 1 - y };
    assert(i == x * h + r);
    lemma_fundamental_div_mod_converse(i, h, x, r);
    assert(x * h + r < w * h) by (nonlinear_arith)
        requires
            0 <= r < h,
            x + 1 <= w,
            0 <= x,
    ;
    assert(0 <= x * h) by (nonlinear_arith)
        requires
            0 <= x,
            0 < h,
    ;
}

/// Every position of the strip of a `w`×`h` matrix holds a pixel of the
/// matrix, and the serpentine wiring puts that pixel back at that position.
pub proof fn lemma_serpentine_position_inverse(i: int, w: int, h: int)
    requires
        0 < h,
        0 <= i < w * h,
    ensures
        0 <= serpentine_position(i, h).0 < w,
        0 <= serpentine_position(i, h).1 < h,
        serpentine_index(serpentine_position(i, h).0, serpentine_position(i, h).1, h) == i,
{
    let x = i / h;
    let r = i % h;
    vstd::arithmetic::div_mod::lemma_fundamental_div_mod(i, h);
    assert(0 <= r < h);
    assert(0 <= x < w) by (nonlinear_arith)
        requires
            i == h * x + r,
            0 <= r < h,
            0 <= i < w * h,
    ;
    assert(x * h == h * x) by (nonlinear_arith);
}

/// Index on the strip of the pixel at column `x` and row `y`, counted from the
/// top-left corner: the strip starts at the top left, runs down the first
/// column, up the second, and so on.
pub fn xy(x: usize, y: usize) -> (index: usize)
    requires
        x < MATRIX_WIDTH,
        y < MATRIX_HEIGHT,
    ensures
        index == serpentine_index(x as int, y as int, MATRIX_HEIGHT as int),
        index < MATRIX_LENGTH,
{
    proof {
        lemma_serpentine_index_inverse(x as int, y as int, 16, 16);
    }
    if x % 2 == 0 {
        x * MATRIX_HEIGHT + y
    } else {
        x * MATRIX_HEIGHT + (MATRIX_HEIGHT - 1 - y)
    }
}

/// Column and row of the pixel at index `index` of the strip: the inverse of [`xy`].
pub fn pixel_position(index: usize) -> (pos: (usize, usize))
    requires
        index < MATRIX_LENGTH,
    ensures
        (pos.0 as int, pos.1 as int) == serpentine_position(index as int, MATRIX_HEIGHT as int),
        pos.0 < MATRIX_WIDTH,
        pos.1 < MATRIX_HEIGHT,
{
    proof {
        lemma_serpentine_position_inverse(index as int, 16, 16);
    }
    let x = index / MATRIX_HEIGHT;
    let r = index % MATRIX_HEIGHT;
    if x % 2 == 0 {
        (x, r)
    } else {
        (x, MATRIX_HEIGHT - 1 - r)
    }
}

/// Distance in pixels from one block of 3×3 cells to the next: three cell
/// pixels and a two-pixel gap. The first block starts one pixel in from the
/// top-left corner.
pub const BLOCK_STRIDE: usize = 5;

/// The pixel of cell `c` (0 to 8, row by row) of block `b` (0 to 8, row by row).
pub open spec fn cell_offset(b: int, c: int) -> (int, int) {
    (1 + (b % 3) * 5 + c % 3, 1 + (b / 3) * 5 + c / 3)
}

/// The block and the cell in it that pixel `(x, y)` shows, if it shows one.
pub open spec fn block_cell_at(x: int, y: int) -> Option<(int, int)> {
    if 1 <= x < 16 && 1 <= y < 16 && (x - 1) % 5 < 3 && (y - 1) % 5 < 3 {
        Some((((y - 1) / 5) * 3 + (x - 1) / 5, ((y - 1) % 5) * 3 + (x - 1) % 5))
    } else {
        None
    }
}

/// The block whose one-pixel frame passes through pixel `(x, y)`, if any:
/// the frame of block `b` is the edge of the 5×5 square around its cells.
pub open spec fn frame_block_at(x: int, y: int) -> Option<int> {
    if 0 <= x < 15 && 0 <= y < 15 && (x % 5 == 0 || x % 5 == 4 || y % 5 == 0 || y % 5 == 4) {
        Some((y / 5) * 3 + x / 5)
    } else {
        None
    }
}

/// Pixel `(x, y)` lies on the outer edge of the matrix.
pub open spec fn on_edge(x: int, y: int) -> bool {
    x == 0 || x == 15 || y == 0 || y == 15
}

/// Each cell of each block has its own pixel, and that pixel shows it.
pub proof fn lemma_cell_offset_shows_cell(b: int, c: int)
    requires
        0 <= b < 9,
        0 <= c < 9,
    ensures
        0 <= cell_offset(b, c).0 < 16,
        0 <= cell_offset(b, c).1 < 16,
        block_cell_at(cell_offset(b, c).0, cell_offset(b, c).1) == Some((b, c)),
{
    assert(0 <= b % 3 < 3 && 0 <= b / 3 < 3 && b == (b / 3) * 3 + b % 3);
    assert(0 <= c % 3 < 3 && 0 <= c / 3 < 3 && c == (c / 3) * 3 + c % 3);
    let (x, y) = cell_offset(b, c);
    lemma_fundamental_div_mod_converse(x - 1, 5, b % 3, c % 3);
    lemma_fundamental_div_mod_converse(y - 1, 5, b / 3, c / 3);
}

/// A pixel that shows a cell is that cell's pixel.
pub proof fn lemma_block_cell_at_offset(x: int, y: int, b: int, c: int)
    requires
        block_cell_at(x, y) == Some((b, c)),
    ensures
        cell_offset(b, c) == (x, y),
{
    let bx = (x - 1) / 5;
    let by = (y - 1) / 5;
    let cx = (x - 1) % 5;
    let cy = (y - 1) % 5;
    assert(0 <= bx < 3 && 0 <= by < 3);
    assert(b == by * 3 + bx && c == cy * 3 + cx);
    lemma_fundamental_div_mod_converse(b, 3, by, bx);
    lemma_fundamental_div_mod_converse(c, 3, cy, cx);
}

/// The block and the cell shown at `(x, y)`, as in [`block_cell_at`].
pub fn block_cell(x: usize, y: usize) -> (r: Option<(usize, usize)>)
    requires
        x < MATRIX_WIDTH,
        y < MATRIX_HEIGHT,
    ensures
        match r {
            Some((b, c)) => block_cell_at(x as int, y as int) == Some((b as int, c as int)) && b < 9
                && c < 9,
            None => block_cell_at(x as int, y as int) is None,
        },
{
    if 1 <= x && 1 <= y && (x - 1) % BLOCK_STRIDE < 3 && (y - 1) % BLOCK_STRIDE < 3 {
        let block = ((y - 1) / BLOCK_STRIDE) * 3 + (x - 1) / BLOCK_STRIDE;
        let cell = ((y - 1) % BLOCK_STRIDE) * 3 + (x - 1) % BLOCK_STRIDE;
        Some((block, cell))
    } else {
        None
    }
}

/// The block whose frame passes through `(x, y)`, as in [`frame_block_at`].
pub fn frame_block(x: usize, y: usize) -> (r: Option<usize>)
    requires
        x < MATRIX_WIDTH,
        y < MATRIX_HEIGHT,
    ensures
        match r {
            Some(b) => frame_block_at(x as int, y as int) == Some(b as int) && b < 9,
            None => frame_block_at(x as int, y as int) is None,
        },
{
    if x < 15 && y < 15 && (x % BLOCK_STRIDE == 0 || x % BLOCK_STRIDE == 4 || y % BLOCK_STRIDE == 0
        || y % BLOCK_STRIDE == 4) {
        Some((y / BLOCK_STRIDE) * 3 + x / BLOCK_STRIDE)
    } else {
        None
    }
}

pub fn is_on_edge(x: usize, y: usize) -> (r: bool)
    ensures
        r == on_edge(x as int, y as int),
{
    x == 0 || x == 15 || y == 0 || y == 15
}

} // verus!
