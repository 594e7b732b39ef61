//! The picture frame: a border tile laid along the four edges of a raster,
//! with diagonal seams where two edges meet.

use vstd::prelude::*;
use crate::color::Rgba8;
use crate::raster::{
    buffer_limit, raster_dimensions, raster_from_fn, raster_get_pixel, raster_pixels, Raster,
    RasterView,
};

verus! {

/// The part of the framed canvas that a pixel belongs to.
#[derive(Clone, Copy, Debug, PartialEq, Eq, Structural)]
pub enum Region {
    Left,
    Top,
    Right,
    Bottom,
    Interior,
}

/// The measures of a framed canvas: the inner raster and the thickness of
/// the border on each side.
pub struct Frame {
    pub inner_width: nat,
    pub inner_height: nat,
    pub thickness: nat,
}

impl Frame {
    /// The column where the inner raster begins.
    pub open spec fn left(self) -> int {
        self.thickness as int
    }

    /// The row where the inner raster begins.
    pub open spec fn top(self) -> int {
        self.thickness as int
    }

    /// The first column right of the inner raster.
    pub open spec fn right(self) -> int {
        (self.thickness + self.inner_width) as int
    }

    /// The first row below the inner raster.
    pub open spec fn bottom(self) -> int {
        (self.thickness + self.inner_height) as int
    }

    /// The width of the framed canvas.
    pub open spec fn width(self) -> int {
        (self.thickness * 2 + self.inner_width) as int
    }

    /// The height of the framed canvas.
    pub open spec fn height(self) -> int {
        (self.thickness * 2 + self.inner_height) as int
    }

    /// Whether `(x, y)` is a pixel of the framed canvas.
    pub open spec fn contains(self, x: int, y: int) -> bool {
        0 <= x < self.width() && 0 <= y < self.height()
    }

    /// Whether `(x, y)` of the canvas lies on the inner raster.
    pub open spec fn on_inner(self, x: int, y: int) -> bool {
        self.left() <= x < self.right() && self.top() <= y < self.bottom()
    }

    /// The test of the left band: left of the inner raster, and under both
    /// diagonals that start in the two left corners.
    pub open spec fn in_left(self, x: int, y: int) -> bool {
        x < self.left() && x < y && x < self.height() - y
    }

    /// The test of the top band.
    pub open spec fn in_top(self, x: int, y: int) -> bool {
        y < self.left() && y <= x && y < self.width() - x
    }

    /// The test of the right band.
    pub open spec fn in_right(self, x: int, y: int) -> bool {
        x >= self.right() && x > y
    }

    /// The test of the bottom band.
    pub open spec fn in_bottom(self, x: int, y: int) -> bool {
        y >= self.top() + self.inner_height && y >= x
    }

    /// Whether `region` claims `(x, y)`: its own test holds and no test
    /// before it in the order left, top, right, bottom does. The interior
    /// claims what no band does.
    pub open spec fn claims(self, region: Region, x: int, y: int) -> bool {
        match region {
            Region::Left => self.in_left(x, y),
            Region::Top => !self.in_left(x, y) && self.in_top(x, y),
            Region::Right => !self.in_left(x, y) && !self.in_top(x, y) && self.in_right(x, y),
            Region::Bottom => !self.in_left(x, y) && !self.in_top(x, y) && !self.in_right(x, y)
                && self.in_bottom(x, y),
            Region::Interior => !self.in_left(x, y) && !self.in_top(x, y) && !self.in_right(x, y)
                && !self.in_bottom(x, y),
        }
    }

    /// The region of `(x, y)`: the first band whose test holds, else the
    /// interior.
    pub open spec fn region(self, x: int, y: int) -> Region {
        if self.in_left(x, y) {
            Region::Left
        } else if self.in_top(x, y) {
            Region::Top
        } else if self.in_right(x, y) {
            Region::Right
        } else if self.in_bottom(x, y) {
            Region::Bottom
        } else {
            Region::Interior
        }
    }

    /// Whether the four bands close around the inner raster: every pixel of
    /// the canvas that no band claims lies on the inner raster.
    pub open spec fn closes(self) -> bool {
        forall|x: int, y: int|
            self.contains(x, y) && #[trigger] self.region(x, y) == Region::Interior
                ==> self.on_inner(x, y)
    }

    /// The shapes for which the bands close: no border at all, or an inner
    /// raster that is square or one pixel wider than high.
    pub open spec fn is_squarish(self) -> bool {
        self.thickness == 0 || self.inner_height <= self.inner_width <= self.inner_height + 1
    }
}

/// The measures of `inner` framed by `border`: the border is as thick as the
/// border tile is wide.
pub open spec fn frame_of(inner: RasterView, border: RasterView) -> Frame {
    Frame { inner_width: inner.width, inner_height: inner.height, thickness: border.width }
}

/// The pixel of the framed canvas at `(x, y)`. On the left and right bands
/// the border tile is read upright and repeats downwards; on the top and
/// bottom bands it is read turned, its columns becoming rows. The interior
/// shows the inner raster.
pub open spec fn framed_pixel(inner: RasterView, border: RasterView, x: int, y: int) -> Rgba8 {
    let frame = frame_of(inner, border);
    let tile_height = border.height as int;
    match frame.region(x, y) {
        Region::Left => border.at(x, y % tile_height),
        Region::Top => border.at(y, tile_height - (x % tile_height) - 1),
        Region::Right => border.at(x - frame.right(), y % tile_height),
        Region::Bottom => border.at(y - frame.bottom(), tile_height - (x % tile_height) - 1),
        Region::Interior => inner.at(x - frame.top(), y - frame.left()),
    }
}

/// Whether `border` can frame `inner`: the border tile has pixels to read,
/// the bands close around the inner raster, and the framed canvas is a
/// raster that fits in memory.
pub open spec fn frame_fits(inner: RasterView, border: RasterView) -> bool {
    let frame = frame_of(inner, border);
    &&& border.width == 0 || border.height > 0
    &&& frame.closes()
    &&& frame.width() <= u32::MAX
    &&& frame.height() <= u32::MAX
    &&& 4 * frame.width() * frame.height() <= buffer_limit()
}

/// Whether `out` is `inner` framed by `border`.
pub open spec fn is_framing(out: RasterView, inner: RasterView, border: RasterView) -> bool {
    &&& out.width == frame_of(inner, border).width()
    &&& out.height == frame_of(inner, border).height()
    &&& forall|x: int, y: int|
        out.contains(x, y) ==> #[trigger] out.at(x, y) == framed_pixel(inner, border, x, y)
}

/// Every pixel belongs to exactly one region: a region claims the pixel if
/// and only if it is the pixel's region.
pub proof fn regions_partition(frame: Frame, x: int, y: int, region: Region)
    ensures
        frame.claims(region, x, y) <==> frame.region(x, y) == region,
{
}

/// The inner raster is shown whole: each of its pixels lies in the interior
/// of the framed canvas, moved right and down by the thickness of the
/// border.
pub proof fn interior_shows_inner(inner: RasterView, border: RasterView, i: int, j: int)
    requires
        inner.contains(i, j),
    ensures
        frame_of(inner, border).region(border.width + i, border.width + j) == Region::Interior,
        framed_pixel(inner, border, border.width + i, border.width + j) == inner.at(i, j),
{
}

/// The bands close exactly for the shapes of `is_squarish`. For any other
/// shape some pixel beside the inner raster is claimed by no band.
pub proof fn closes_iff_squarish(frame: Frame)
    ensures
        frame.closes() <==> frame.is_squarish(),
{
    let b = frame.thickness as int;
    let w = frame.inner_width as int;
    let h = frame.inner_height as int;
    if frame.is_squarish() {
        assert forall|x: int, y: int|
            frame.contains(x, y) && #[trigger] frame.region(x, y)
                == Region::Interior implies frame.on_inner(x, y) by {}
    } else if w < h {
        let x = b + w;
        let y = b + h - 1;
        assert(frame.contains(x, y) && frame.region(x, y) == Region::Interior && !frame.on_inner(
            x,
            y,
        ));
    } else {
        let x = b + w - 1;
        let y = b + h;
        assert(frame.contains(x, y) && frame.region(x, y) == Region::Interior && !frame.on_inner(
            x,
            y,
        ));
    }
}

/// Decides whether `border` can frame `inner`.
pub fn can_frame(inner: &Raster, border: &Raster) -> (fits: bool)
    ensures
        fits == frame_fits(inner@, border@),
{
    let (inner_width, inner_height): (u32, u32) = raster_dimensions(inner);
    let (border_width, border_height): (u32, u32) = raster_dimensions(border);
    proof {
        closes_iff_squarish(frame_of(inner@, border@));
    }
    let readable: bool = border_width == 0 || border_height > 0;
    let squarish: bool = border_width == 0 || (inner_height <= inner_width && inner_width as u64
        <= inner_height as u64 + 1);
    let width: u64 = border_width as u64 * 2 + inner_width as u64;
    let height: u64 = border_width as u64 * 2 + inner_height as u64;
    if !readable || !squarish || width > u32::MAX as u64 || height > u32::MAX as u64 {
        return false;
    }
    assert(width * height <= 0xffff_ffff * 0xffff_ffff) by (nonlinear_arith)
        requires
            0 <= width <= 0xffff_ffff,
            0 <= height <= 0xffff_ffff,
    ;
    let bytes: u128 = 4 * (width as u128 * height as u128);
    assert(bytes == 4 * width * height) by (nonlinear_arith)
        requires
            bytes == 4 * (width * height),
    ;
    bytes <= isize::MAX as u128
}

/// The pixel of `image` framed by `border` at `(x, y)`.
pub fn frame_sample(image: &Raster, border: &Raster, x: u32, y: u32) -> (pixel: Rgba8)
    requires
        frame_fits(image@, border@),
        frame_of(image@, border@).contains(x as int, y as int),
    ensures
        pixel == framed_pixel(image@, border@, x as int, y as int),
{
    let (background_width, background_height): (u32, u32) = raster_dimensions(image);
    let (border_width, border_height): (u32, u32) = raster_dimensions(border);
    let left_side: u32 = border_width;
    let top_side: u32 = border_width;
    let right_side: u32 = left_side + background_width;
    let bottom_side: u32 = top_side + background_height;
    let width: u32 = right_side + border_width;
    let height: u32 = bottom_side + border_width;
    let ghost frame = frame_of(image@, border@);
    assert(frame.region(x as int, y as int) == Region::Interior ==> frame.on_inner(
        x as int,
        y as int,
    ));
    if x < left_side && x < y && x < height - y {
        raster_get_pixel(border, x, y % border_height)
    } else if y < left_side && y <= x && y < width - x {
        raster_get_pixel(border, y, border_height - (x % border_height) - 1)
    } else if x >= right_side && x > y {
        raster_get_pixel(border, x - right_side, y % border_height)
    } else if y >= border_width + background_height && y >= x {
        raster_get_pixel(border, y - bottom_side, border_height - (x % border_height) - 1)
    } else {
        raster_get_pixel(image, x - top_side, y - left_side)
    }
}

/// Frames `image` with the tile `border`: the canvas grows by the width of
/// the tile on every side, the four bands show the tile, and the interior
/// shows `image`.
pub fn composite_borders(image: &Raster, border: &Raster) -> (out: Raster)
    requires
        frame_fits(image@, border@),
    ensures
        is_framing(out@, image@, border@),
{
    let (background_width, background_height): (u32, u32) = raster_dimensions(image);
    let (border_width, _border_height): (u32, u32) = raster_dimensions(border);
    let width: u32 = border_width + background_width + border_width;
    let height: u32 = border_width + background_height + border_width;
    let out = raster_from_fn(
        width,
        height,
        |x: u32, y: u32| -> (pixel: Rgba8)
            requires
                x < width,
                y < height,
            ensures
                pixel == framed_pixel(image@, border@, x as int, y as int),
            { frame_sample(image, border, x, y) }
    );
    assert forall|x: int, y: int| out@.contains(x, y) implies #[trigger] out@.at(x, y)
        == framed_pixel(image@, border@, x, y) by {
        let column = x as u32;
        let row = y as u32;
        assert(out@.at(x, y) == raster_pixels(out)[(column as int, row as int)]);
    }
    out
}

} // verus!
