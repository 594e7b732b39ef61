//! The pixel grid every stage works on: an RGBA image buffer of the `image`
//! crate, known to the proofs by its width, its height and the pixel at each
//! coordinate.

use vstd::prelude::*;
use crate::color::Rgba8;

verus! {

/// An RGBA raster. The buffer is an `image::RgbaImage`; the proofs do not
/// look inside it and know it only by [`raster_width`], [`raster_height`] and
/// [`raster_pixels`].
#[verifier::external_body]
pub struct Raster {
    image: image::RgbaImage,
}

/// The number of pixel columns of a raster.
pub uninterp spec fn raster_width(raster: Raster) -> nat;

/// The number of pixel rows of a raster.
pub uninterp spec fn raster_height(raster: Raster) -> nat;

/// The pixels of a raster by coordinate `(x, y)`, `x` counting columns from
/// the left and `y` rows from the top.
pub uninterp spec fn raster_pixels(raster: Raster) -> Map<(int, int), Rgba8>;

/// What a raster is to the contracts of this crate.
pub struct RasterView {
    pub width: nat,
    pub height: nat,
    pub pixels: Map<(int, int), Rgba8>,
}

impl RasterView {
    /// Whether `(x, y)` is a pixel of the raster.
    pub open spec fn contains(self, x: int, y: int) -> bool {
        0 <= x < self.width && 0 <= y < self.height
    }

    /// The pixel at `(x, y)`.
    pub open spec fn at(self, x: int, y: int) -> Rgba8 {
        self.pixels[(x, y)]
    }
}

impl View for Raster {
    type V = RasterView;

    open spec fn view(&self) -> RasterView {
        RasterView {
            width: raster_width(*self),
            height: raster_height(*self),
            pixels: raster_pixels(*self),
        }
    }
}

/// The largest number of bytes a pixel buffer can take.
pub open spec fn buffer_limit() -> int {
    isize::MAX as int
}

/// The pixel that the bytes of a row-major RGBA buffer hold at `(x, y)`.
pub open spec fn pixel_in_bytes(data: Seq<u8>, width: int, x: int, y: int) -> Rgba8 {
    let at = 4 * (y * width + x);
    Rgba8 { red: data[at], green: data[at + 1], blue: data[at + 2], alpha: data[at + 3] }
}

/// `ImageBuffer::from_raw`: the buffer is taken as a `width` by `height`
/// image exactly when it holds at least four bytes for each pixel; pixel
/// `(x, y)` is then made of the four bytes from `4 * (y * width + x)` on.
#[verifier::external_body]
fn raster_from_raw(width: u32, height: u32, data: Vec<u8>) -> (made: Option<Raster>)
    ensures
        made is Some <==> 4 * width * height <= data@.len(),
        made matches Some(r) ==> {
            &&& raster_width(r) == width
            &&& raster_height(r) == height
            &&& forall|x: int, y: int|
                0 <= x < width && 0 <= y < height ==> #[trigger] raster_pixels(r)[(x, y)]
                    == pixel_in_bytes(data@, width as int, x, y)
        },
{
    match image::RgbaImage::from_raw(width, height, data) {
        Some(image) => Some(Raster { image }),
        None => None,
    }
}

/// `ImageBuffer::into_raw`: hands out the buffer, which holds the pixels row
/// by row, four bytes each.
#[verifier::external_body]
fn raster_into_raw(raster: Raster) -> (data: Vec<u8>)
    ensures
        4 * raster_width(raster) * raster_height(raster) <= data@.len(),
        forall|x: int, y: int|
            0 <= x < raster_width(raster) && 0 <= y < raster_height(raster) ==> #[trigger] pixel_in_bytes(
                data@,
                raster_width(raster) as int,
                x,
                y,
            ) == raster_pixels(raster)[(x, y)],
{
    raster.image.into_raw()
}

/// `ImageBuffer::dimensions`: width and height. A buffer always fits in
/// memory, so four bytes per pixel never exceed `isize::MAX`.
#[verifier::external_body]
pub(crate) fn raster_dimensions(raster: &Raster) -> (size: (u32, u32))
    ensures
        size.0 == raster_width(*raster),
        size.1 == raster_height(*raster),
        4 * size.0 * size.1 <= buffer_limit(),
{
    raster.image.dimensions()
}

/// `ImageBuffer::get_pixel`, which panics outside the image.
#[verifier::external_body]
pub(crate) fn raster_get_pixel(raster: &Raster, x: u32, y: u32) -> (pixel: Rgba8)
    requires
        x < raster_width(*raster),
        y < raster_height(*raster),
    ensures
        pixel == raster_pixels(*raster)[(x as int, y as int)],
{
    let p = raster.image.get_pixel(x, y);
    Rgba8 { red: p.0[0], green: p.0[1], blue: p.0[2], alpha: p.0[3] }
}

/// `ImageBuffer::put_pixel`, which panics outside the image: one pixel is
/// replaced, every other pixel and the size stay.
#[verifier::external_body]
pub(crate) fn raster_put_pixel(raster: &mut Raster, x: u32, y: u32, pixel: Rgba8)
    requires
        x < raster_width(*old(raster)),
        y < raster_height(*old(raster)),
    ensures
        raster_width(*final(raster)) == raster_width(*old(raster)),
        raster_height(*final(raster)) == raster_height(*old(raster)),
        raster_pixels(*final(raster)) == raster_pixels(*old(raster)).insert(
            (x as int, y as int),
            pixel,
        ),
{
    raster.image.put_pixel(x, y, image::Rgba([pixel.red, pixel.green, pixel.blue, pixel.alpha]));
}

/// `ImageBuffer::from_fn`: a new image whose pixel at `(x, y)` is what `f`
/// returned for `(x, y)`. It panics when the buffer would not fit in memory.
#[verifier::external_body]
pub(crate) fn raster_from_fn<F: Fn(u32, u32) -> Rgba8>(width: u32, height: u32, f: F) -> (out: Raster)
    requires
        4 * width * height <= buffer_limit(),
        forall|x: u32, y: u32| x < width && y < height ==> call_requires(f, (x, y)),
    ensures
        raster_width(out) == width,
        raster_height(out) == height,
        forall|x: u32, y: u32|
            x < width && y < height ==> call_ensures(
                f,
                (x, y),
                #[trigger] raster_pixels(out)[(x as int, y as int)],
            ),
{
    Raster {
        image: image::RgbaImage::from_fn(width, height, |x, y| {
            let p = f(x, y);
            image::Rgba([p.red, p.green, p.blue, p.alpha])
        }),
    }
}

/// `Clone::clone` of the image buffer: same size, same pixels.
#[verifier::external_body]
pub(crate) fn raster_clone(raster: &Raster) -> (copy: Raster)
    ensures
        raster_width(copy) == raster_width(*raster),
        raster_height(copy) == raster_height(*raster),
        raster_pixels(copy) == raster_pixels(*raster),
{
    Raster { image: raster.image.clone() }
}

/// `image::imageops::resize` with the Lanczos3 filter, for making an image
/// smaller. The filter works in floating point, so of the new pixels nothing
/// is stated; only the size is. Neither the source nor the result may be
/// empty, and both the intermediate image (source width by new height) and
/// the result must fit in memory.
#[verifier::external_body]
pub(crate) fn raster_resize(raster: &Raster, width: u32, height: u32) -> (out: Raster)
    requires
        0 < width <= raster_width(*raster),
        0 < height <= raster_height(*raster),
        4 * raster_width(*raster) * height <= buffer_limit(),
        4 * width * height <= buffer_limit(),
    ensures
        raster_width(out) == width,
        raster_height(out) == height,
{
    Raster {
        image: image::imageops::resize(&raster.image, width, height, image::FilterType::Lanczos3),
    }
}

impl Raster {
    /// Takes a row-major RGBA buffer as a `width` by `height` raster. The
    /// buffer is refused when it is too short for that size.
    pub fn from_raw(width: u32, height: u32, data: Vec<u8>) -> (made: Option<Raster>)
        ensures
            made is Some <==> 4 * width * height <= data@.len(),
            made matches Some(r) ==> {
                &&& r@.width == width
                &&& r@.height == height
                &&& forall|x: int, y: int|
                    r@.contains(x, y) ==> #[trigger] r@.at(x, y) == pixel_in_bytes(
                        data@,
                        width as int,
                        x,
                        y,
                    )
            },
    {
        raster_from_raw(width, height, data)
    }

    /// Gives up the raster for its row-major RGBA buffer.
    pub fn into_raw(self) -> (data: Vec<u8>)
        ensures
            4 * self@.width * self@.height <= data@.len(),
            forall|x: int, y: int|
                self@.contains(x, y) ==> #[trigger] pixel_in_bytes(data@, self@.width as int, x, y)
                    == self@.at(x, y),
    {
        raster_into_raw(self)
    }

    /// The number of pixel columns.
    pub fn width(&self) -> (w: u32)
        ensures
            w == self@.width,
    {
        raster_dimensions(self).0
    }

    /// The number of pixel rows.
    pub fn height(&self) -> (h: u32)
        ensures
            h == self@.height,
    {
        raster_dimensions(self).1
    }

    /// The pixel at `(x, y)`, or `None` outside the raster.
    pub fn get_pixel(&self, x: u32, y: u32) -> (pixel: Option<Rgba8>)
        ensures
            pixel == if self@.contains(x as int, y as int) {
                Some(self@.at(x as int, y as int))
            } else {
                None
            },
    {
        let (width, height): (u32, u32) = raster_dimensions(self);
        if x < width && y < height {
            Some(raster_get_pixel(self, x, y))
        } else {
            None
        }
    }
}

} // verus!
