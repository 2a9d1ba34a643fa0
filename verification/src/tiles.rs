//! Laying a frame of palette indices onto a grid of 128 by 128 tiles.
//!
//! The grid is the smallest one that covers the frame, and the frame sits
//! centred in it. Cells that the frame does not cover are black.

use vstd::arithmetic::div_mod::{lemma_fundamental_div_mod, lemma_fundamental_div_mod_converse};
use vstd::arithmetic::mul::{lemma_mul_inequality, lemma_mul_is_commutative};
use vstd::prelude::*;

verus! {

/// Side length of a tile, in pixels.
pub const TILE_SIDE: u32 = 128;

/// Number of bytes in a tile.
pub const TILE_AREA: usize = 16384;

/// Palette index of the cells that no source pixel covers.
pub const BLACK_ID: u8 = 119;

/// The quotient `x / y` rounded up.
pub open spec fn ceil_div(x: int, y: int) -> int {
    x / y + if x % y == 0 {
        0int
    } else {
        1int
    }
}

/// Number of tiles needed to cover `extent` pixels along one axis.
pub open spec fn tiles_across(extent: int) -> int {
    ceil_div(extent, 128)
}

/// Number of padding pixels in front of the frame along one axis.
pub open spec fn centering_offset(extent: int) -> int {
    (tiles_across(extent) * 128 - extent) / 2
}

/// Number of tiles in the grid of a `width` by `height` frame.
pub open spec fn tile_count(width: int, height: int) -> int {
    tiles_across(width) * tiles_across(height)
}

/// Linear id of the tile that holds source pixel `(x, y)`.
pub open spec fn tile_of(width: int, height: int, x: int, y: int) -> int {
    (y + centering_offset(height)) / 128 * tiles_across(width) + (x + centering_offset(width)) / 128
}

/// Index, within its tile, of the cell that holds source pixel `(x, y)`.
pub open spec fn cell_of(width: int, height: int, x: int, y: int) -> int {
    (y + centering_offset(height)) % 128 * 128 + (x + centering_offset(width)) % 128
}

/// Source column that cell `cell` of tile `tile` shows; outside
/// `0..width` for padding.
pub open spec fn source_x(width: int, tile: int, cell: int) -> int {
    tile % tiles_across(width) * 128 + cell % 128 - centering_offset(width)
}

/// Source row that cell `cell` of tile `tile` shows; outside `0..height`
/// for padding.
pub open spec fn source_y(width: int, height: int, tile: int, cell: int) -> int {
    tile / tiles_across(width) * 128 + cell / 128 - centering_offset(height)
}

/// The byte in cell `cell` of tile `tile`: the source pixel that the cell
/// shows, or black where there is none.
pub open spec fn packed_cell(pixels: Seq<u8>, width: int, height: int, tile: int, cell: int) -> u8 {
    let x = source_x(width, tile, cell);
    let y = source_y(width, height, tile, cell);
    if 0 <= x < width && 0 <= y < height && y * width + x < pixels.len() {
        pixels[y * width + x]
    } else {
        BLACK_ID
    }
}

/// The tiles of a frame, in row-major order of the grid.
pub open spec fn packed(pixels: Seq<u8>, width: int, height: int) -> Seq<Seq<u8>> {
    Seq::new(
        tile_count(width, height) as nat,
        |tile: int|
            Seq::new(TILE_AREA as nat, |cell: int| packed_cell(pixels, width, height, tile, cell)),
    )
}

/// What `pixel_at` finds for source pixel `(x, y)` in `tiles`.
pub open spec fn sampled(tiles: Seq<Seq<u8>>, width: int, height: int, x: int, y: int) -> Option<u8> {
    let tile = tile_of(width, height, x, y);
    let cell = cell_of(width, height, x, y);
    if 0 <= x < width && 0 <= y < height && tile < tiles.len() && cell < tiles[tile].len() {
        Some(tiles[tile][cell])
    } else {
        None
    }
}

/// The padded span of an axis holds the frame, offset included.
pub proof fn lemma_axis_bounds(extent: int)
    requires
        0 <= extent,
    ensures
        0 <= tiles_across(extent),
        extent > 0 ==> tiles_across(extent) > 0,
        0 <= centering_offset(extent),
        centering_offset(extent) + extent <= tiles_across(extent) * 128,
        tiles_across(extent) * 128 < extent + 128,
{
}

/// In a grid of `cols` by `rows` tiles, the tile in column `column` of row
/// `row` has a linear id below the number of tiles, and the id gives the
/// column and the row back.
pub proof fn lemma_grid_index(cols: int, rows: int, column: int, row: int)
    requires
        0 <= column < cols,
        0 <= row < rows,
    ensures
        0 <= row * cols,
        0 <= row * cols + column < cols * rows,
        (row * cols + column) / cols == row,
        (row * cols + column) % cols == column,
{
    lemma_fundamental_div_mod_converse(row * cols + column, cols, row, column);
    assert(row * cols <= (rows - 1) * cols) by {
        lemma_mul_inequality(row, rows - 1, cols);
    }
    assert((rows - 1) * cols == rows * cols - cols) by (nonlinear_arith);
    assert(cols * rows == rows * cols) by {
        lemma_mul_is_commutative(cols, rows);
    }
    assert(0 <= row * cols) by (nonlinear_arith)
        requires
            0 <= row,
            0 <= cols,
    ;
}

/// The product of two tile counts along an axis, each at most 2^25, fits
/// 64 bits with room to spare.
pub proof fn lemma_tile_product_fits(a: int, b: int)
    requires
        0 <= a <= 0x200_0000,
        0 <= b <= 0x200_0000,
    ensures
        0 <= a * b <= 0x200_0000 * 0x200_0000,
{
    assert(0 <= a * b <= 0x200_0000 * 0x200_0000) by (nonlinear_arith)
        requires
            0 <= a <= 0x200_0000,
            0 <= b <= 0x200_0000,
    ;
}

/// A source pixel lands in a cell of the grid, and that cell shows it.
pub proof fn lemma_locate(width: int, height: int, x: int, y: int)
    requires
        0 <= x < width,
        0 <= y < height,
    ensures
        0 <= tile_of(width, height, x, y) < tile_count(width, height),
        0 <= cell_of(width, height, x, y) < TILE_AREA,
        source_x(width, tile_of(width, height, x, y), cell_of(width, height, x, y)) == x,
        source_y(width, height, tile_of(width, height, x, y), cell_of(width, height, x, y)) == y,
{
    lemma_axis_bounds(width);
    lemma_axis_bounds(height);
    lemma_grid_index(
        tiles_across(width),
        tiles_across(height),
        (x + centering_offset(width)) / 128,
        (y + centering_offset(height)) / 128,
    );
}

/// A cell that shows a source pixel is the cell where that pixel lands.
pub proof fn lemma_cell_of_source(width: int, height: int, tile: int, cell: int)
    requires
        0 <= width,
        0 <= height,
        0 <= tile < tile_count(width, height),
        0 <= cell < TILE_AREA,
        0 <= source_x(width, tile, cell) < width,
        0 <= source_y(width, height, tile, cell) < height,
    ensures
        tile_of(width, height, source_x(width, tile, cell), source_y(width, height, tile, cell))
            == tile,
        cell_of(width, height, source_x(width, tile, cell), source_y(width, height, tile, cell))
            == cell,
{
    let cols = tiles_across(width);
    lemma_axis_bounds(width);
    lemma_axis_bounds(height);
    lemma_fundamental_div_mod(tile, cols);
    lemma_mul_is_commutative(cols, tile / cols);
}

/// A frame that fills its resolution is read back from its tiles pixel by
/// pixel: the cell where source pixel `(x, y)` lands holds that pixel.
pub proof fn lemma_pack_round_trip(pixels: Seq<u8>, width: int, height: int, x: int, y: int)
    requires
        0 <= x < width,
        0 <= y < height,
        y * width + x < pixels.len(),
    ensures
        sampled(packed(pixels, width, height), width, height, x, y) == Some(pixels[y * width + x]),
{
    lemma_locate(width, height, x, y);
}

/// `num_integer::div_ceil` on `u32`. Trusted: for a non-zero divisor it
/// returns the quotient plus one if the remainder is non-zero, and it does
/// not overflow.
#[verifier::external_body]
fn div_ceil_u32(x: u32, y: u32) -> (q: u32)
    requires
        y != 0,
    ensures
        q == ceil_div(x as int, y as int),
{
    num_integer::div_ceil(x, y)
}

/// Number of tiles that cover `extent` pixels along one axis.
pub fn tiles_for(extent: u32) -> (n: u32)
    ensures
        n == tiles_across(extent as int),
        n <= 0x200_0000,
{
    div_ceil_u32(extent, TILE_SIDE)
}

/// Padding in front of the frame along an axis of `extent` pixels.
pub fn centering(extent: u32) -> (offset: u32)
    ensures
        offset == centering_offset(extent as int),
        offset < 64,
{
    let span: u64 = tiles_for(extent) as u64 * 128;
    ((span - extent as u64) / 2) as u32
}

/// Linear id of the tile in column `column` and row `row` of the grid of
/// a `width` by `height` frame: rows of tiles follow one another.
pub fn tile_id(width: u32, height: u32, column: u32, row: u32) -> (id: u64)
    requires
        column < tiles_across(width as int),
        row < tiles_across(height as int),
    ensures
        id == row * tiles_across(width as int) + column,
        id < tile_count(width as int, height as int),
{
    let cols: u64 = tiles_for(width) as u64;
    proof {
        let rows = tiles_across(height as int);
        lemma_axis_bounds(height as int);
        lemma_grid_index(cols as int, rows, column as int, row as int);
        lemma_tile_product_fits(cols as int, rows);
    }
    row as u64 * cols + column as u64
}

/// Number of 16-block chunks that a row of `tiles` tiles spans, at one
/// block per tile.
pub fn chunks_for(tiles: u32) -> (chunks: u32)
    ensures
        chunks == ceil_div(tiles as int, 16),
{
    div_ceil_u32(tiles, 16)
}

/// A tile with every cell black.
fn blank_tile() -> (tile: Vec<u8>)
    ensures
        tile@.len() == TILE_AREA,
        forall|c: int| 0 <= c < TILE_AREA ==> #[trigger] tile@[c] == BLACK_ID,
{
    let mut tile: Vec<u8> = Vec::with_capacity(TILE_AREA);
    let mut c: usize = 0;
    while c < TILE_AREA
        invariant
            c <= TILE_AREA,
            tile@.len() == c,
            forall|k: int| 0 <= k < c ==> #[trigger] tile@[k] == BLACK_ID,
        decreases TILE_AREA - c,
    {
        tile.push(BLACK_ID);
        c += 1;
    }
    tile
}

/// Where source pixel `(x, y)` goes: the linear id of its tile and the
/// index of its cell within that tile.
pub fn locate(width: u32, height: u32, x: u32, y: u32) -> (place: (u64, usize))
    requires
        x < width,
        y < height,
    ensures
        place.0 == tile_of(width as int, height as int, x as int, y as int),
        place.1 == cell_of(width as int, height as int, x as int, y as int),
        place.0 < tile_count(width as int, height as int),
        place.1 < TILE_AREA,
{
    proof {
        lemma_locate(width as int, height as int, x as int, y as int);
        lemma_axis_bounds(width as int);
        lemma_axis_bounds(height as int);
    }
    let cols: u64 = tiles_for(width) as u64;
    let px: u64 = x as u64 + centering(width) as u64;
    let py: u64 = y as u64 + centering(height) as u64;
    let ty: u64 = py / 128;
    proof {
        lemma_tile_product_fits(ty as int, cols as int);
    }
    let tile: u64 = ty * cols + px / 128;
    let cell: usize = ((py % 128) * 128 + px % 128) as usize;
    (tile, cell)
}

/// Lays `pixels`, the palette indices of a frame in row-major order, onto
/// the frame's tile grid. Pixels beyond `width * height` are not part of
/// the frame and are left out.
pub fn pack(pixels: &Vec<u8>, width: u32, height: u32) -> (tiles: Vec<Vec<u8>>)
    ensures
        tiles.deep_view() == packed(pixels@, width as int, height as int),
{
    let cols: u64 = tiles_for(width) as u64;
    let rows: u64 = tiles_for(height) as u64;
    proof {
        lemma_tile_product_fits(cols as int, rows as int);
    }
    let count: u64 = cols * rows;
    let mut tiles: Vec<Vec<u8>> = Vec::new();
    let mut t: u64 = 0;
    while t < count
        invariant
            t <= count,
            tiles@.len() == t,
            forall|k: int| 0 <= k < t ==> (#[trigger] tiles@[k])@.len() == TILE_AREA,
            forall|k: int, c: int|
                0 <= k < t && 0 <= c < TILE_AREA ==> #[trigger] tiles@[k]@[c] == BLACK_ID,
        decreases count - t,
    {
        tiles.push(blank_tile());
        t += 1;
    }
    assert(count <= usize::MAX) by {
        assert(tiles.len() == count);
    }
    assert(width as u64 * height as u64 <= u64::MAX) by (nonlinear_arith)
        requires
            width <= u32::MAX,
            height <= u32::MAX,
    ;
    let area: u64 = width as u64 * height as u64;
    let ghost w = width as int;
    let ghost h = height as int;
    let mut i: usize = 0;
    while i < pixels.len() && (i as u64) < area
        invariant
            i <= pixels@.len(),
            i <= area,
            area == w * h,
            w == width,
            h == height,
            count == tile_count(w, h),
            count <= usize::MAX,
            tiles@.len() == count,
            forall|k: int| 0 <= k < count ==> (#[trigger] tiles@[k])@.len() == TILE_AREA,
            forall|k: int, c: int|
                0 <= k < count && 0 <= c < TILE_AREA ==> #[trigger] tiles@[k]@[c] == packed_cell(
                    pixels@.take(i as int),
                    w,
                    h,
                    k,
                    c,
                ),
        decreases pixels@.len() - i,
    {
        proof {
            lemma_fundamental_div_mod(i as int, w);
            lemma_mul_is_commutative(w, i as int / w);
            assert(i as int / w < h) by (nonlinear_arith)
                requires
                    i < w * h,
                    i == (i as int / w) * w + i as int % w,
                    0 <= i as int % w,
                    0 < w,
            ;
        }
        let x: u32 = (i as u64 % width as u64) as u32;
        let y: u32 = (i as u64 / width as u64) as u32;
        let (tile, cell) = locate(width, height, x, y);
        tiles[tile as usize][cell] = pixels[i];
        proof {
            let next = pixels@.take(i + 1);
            lemma_locate(w, h, x as int, y as int);
            assert forall|k: int, c: int| 0 <= k < count && 0 <= c < TILE_AREA implies #[trigger] tiles@[k]@[c]
                == packed_cell(next, w, h, k, c) by {
                let sx = source_x(w, k, c);
                let sy = source_y(w, h, k, c);
                if (k != tile || c != cell) && 0 <= sx < w && 0 <= sy < h {
                    // Any other cell shows a pixel other than pixel `i`.
                    lemma_cell_of_source(w, h, k, c);
                    if sy * w + sx == i {
                        lemma_fundamental_div_mod_converse(i as int, w, sy, sx);
                    }
                    assert(sy * w >= 0) by (nonlinear_arith)
                        requires
                            sy >= 0,
                            w >= 0,
                    ;
                }
            }
        }
        i += 1;
    }
    proof {
        let all = packed(pixels@, w, h);
        assert forall|k: int, c: int| 0 <= k < count && 0 <= c < TILE_AREA implies #[trigger] tiles@[k]@[c]
            == packed_cell(pixels@, w, h, k, c) by {
            let sx = source_x(w, k, c);
            let sy = source_y(w, h, k, c);
            if 0 <= sx < w && 0 <= sy < h {
                assert(sy * w + sx < w * h) by (nonlinear_arith)
                    requires
                        0 <= sx < w,
                        0 <= sy < h,
                ;
            }
        }
        assert(tiles.deep_view() =~~= all);
    }
    tiles
}

/// Reads source pixel `(x, y)` back from a frame's tiles, through the
/// linear id of its tile. `None` when the pixel is outside the frame or
/// `tiles` has no such cell.
pub fn pixel_at(tiles: &Vec<Vec<u8>>, width: u32, height: u32, x: u32, y: u32) -> (value: Option<u8>)
    ensures
        value == sampled(tiles.deep_view(), width as int, height as int, x as int, y as int),
{
    if x >= width || y >= height {
        return None;
    }
    let (tile, cell) = locate(width, height, x, y);
    if tile >= tiles.len() as u64 {
        return None;
    }
    let bytes = &tiles[tile as usize];
    if cell >= bytes.len() {
        return None;
    }
    Some(bytes[cell])
}

} // verus!
