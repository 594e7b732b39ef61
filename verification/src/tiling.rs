//! Seamless tiling: a small tile repeated over a raster of any size,
//! mirrored from left to right so that no seam shows between two copies, and
//! plainly repeated from top to bottom.

use vstd::prelude::*;
use crate::color::Rgba8;
use crate::raster::{
    buffer_limit, raster_dimensions, raster_from_fn, raster_get_pixel, raster_pixels, Raster,
    RasterView,
};

verus! {

/// The length after which the columns repeat: the tile read forwards and
/// then backwards, `2 * width - 1` columns in all.
pub open spec fn period(width: int) -> int {
    2 * width - 1
}

/// The tile column that is shown at column `x`. Within a period the first
/// `width` columns are the tile's own and the rest count back from its last.
pub open spec fn mirrored(x: int, width: int) -> int {
    let folded = x % period(width);
    if folded < width {
        folded
    } else {
        period(width) - folded
    }
}

/// The tile pixel that is shown at `(x, y)`.
pub open spec fn tiled_pixel(tile: RasterView, x: int, y: int) -> Rgba8 {
    tile.at(mirrored(x, tile.width as int), y % (tile.height as int))
}

/// Whether every pixel of `out` is the tile pixel that tiling puts there.
pub open spec fn is_tiling(out: RasterView, tile: RasterView) -> bool {
    forall|x: int, y: int| out.contains(x, y) ==> #[trigger] out.at(x, y) == tiled_pixel(tile, x, y)
}

/// Columns repeat after one period.
pub proof fn tiling_repeats(x: int, width: int)
    requires
        width >= 1,
        x >= 0,
    ensures
        mirrored(x + period(width), width) == mirrored(x, width),
{
    vstd::arithmetic::div_mod::lemma_mod_add_multiples_vanish(x, period(width));
}

/// Rows repeat after the height of the tile.
pub proof fn tiling_repeats_down(tile: RasterView, x: int, y: int)
    requires
        tile.height >= 1,
        y >= 0,
    ensures
        tiled_pixel(tile, x, y + tile.height) == tiled_pixel(tile, x, y),
{
    vstd::arithmetic::div_mod::lemma_mod_add_multiples_vanish(y, tile.height as int);
}

/// The reflection: a period reads the tile forwards and then backwards, so
/// column `x` and column `2 * width - 1 - x` show the same tile column.
pub proof fn tiling_mirrors(x: int, width: int)
    requires
        width >= 1,
        1 <= x <= 2 * width - 2,
    ensures
        mirrored(x, width) == mirrored(2 * width - 1 - x, width),
{
    let p = period(width);
    vstd::arithmetic::div_mod::lemma_small_mod(x as nat, p as nat);
    vstd::arithmetic::div_mod::lemma_small_mod((p - x) as nat, p as nat);
}

/// Columns `x` and `2 * width - 2 - x` of the first period show two
/// neighbouring tile columns, `k` and `k + 1` with `k` the smaller of `x`
/// and `2 * width - 2 - x`, or the same column when `x` is the tile's last.
/// They show the same pixel wherever the tile has the same pixel in both.
pub proof fn tiling_mirrors_around_last_column(tile: RasterView, x: int, y: int)
    requires
        tile.width >= 1,
        tile.height >= 1,
        0 <= x <= 2 * tile.width - 2,
        y >= 0,
        ({
            let k = if x <= 2 * tile.width - 2 - x {
                x
            } else {
                2 * tile.width - 2 - x
            };
            x == tile.width - 1 || tile.at(k, y % (tile.height as int)) == tile.at(
                k + 1,
                y % (tile.height as int),
            )
        }),
    ensures
        tiled_pixel(tile, x, y) == tiled_pixel(tile, 2 * tile.width - 2 - x, y),
{
    let w = tile.width as int;
    let p = period(w);
    vstd::arithmetic::div_mod::lemma_small_mod(x as nat, p as nat);
    vstd::arithmetic::div_mod::lemma_small_mod((2 * w - 2 - x) as nat, p as nat);
}

/// The tile pixel that belongs at `(x, y)` of a tiling.
pub fn tile_sample(image: &Raster, x: u32, y: u32) -> (pixel: Rgba8)
    requires
        image@.width >= 1,
        image@.height >= 1,
    ensures
        pixel == tiled_pixel(image@, x as int, y as int),
{
    let (tile_width, tile_height): (u32, u32) = raster_dimensions(image);
    let repeat_width: u64 = tile_width as u64 * 2 - 1;
    let folded: u64 = x as u64 % repeat_width;
    let column: u64 = if folded < tile_width as u64 {
        folded
    } else {
        repeat_width - folded
    };
    let row: u32 = y % tile_height;
    raster_get_pixel(image, column as u32, row)
}

/// Fills a `width` by `height` raster with the tile `image`: the pixel at
/// `(x, y)` is the tile's pixel at column `mirrored(x)` and row
/// `y mod tile height`.
pub fn new_image_tiled(image: &Raster, width: u32, height: u32) -> (out: Raster)
    requires
        image@.width >= 1,
        image@.height >= 1,
        4 * width * height <= buffer_limit(),
    ensures
        out@.width == width,
        out@.height == height,
        is_tiling(out@, image@),
{
    let out = raster_from_fn(
        width,
        height,
        |x: u32, y: u32| -> (pixel: Rgba8)
            ensures
                pixel == tiled_pixel(image@, x as int, y as int),
            { tile_sample(image, x, y) }
    );
    assert forall|x: int, y: int| out@.contains(x, y) implies #[trigger] out@.at(x, y)
        == tiled_pixel(image@, x, y) by {
        let column = x as u32;
        let row = y as u32;
        assert(out@.at(x, y) == raster_pixels(out)[(column as int, row as int)]);
    }
    out
}

} // verus!
