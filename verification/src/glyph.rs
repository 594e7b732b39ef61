//! Glyphs as the layout and the renderer see them: a pixel bounding box and
//! one coverage byte for each pixel in it.

use vstd::prelude::*;

verus! {

/// A position in subpixel units. The unit is the font's: the layout only
/// adds advances to positions and hands positions back to the font.
#[derive(Clone, Copy, Debug, PartialEq, Eq, Structural)]
pub struct Point {
    pub x: i64,
    pub y: i64,
}

/// A rectangle of pixels: `min` is its top left pixel, `max` lies one past
/// its bottom right pixel.
#[derive(Clone, Copy, Debug, PartialEq, Eq, Structural)]
pub struct Rect {
    pub min_x: i32,
    pub min_y: i32,
    pub max_x: i32,
    pub max_y: i32,
}

impl Rect {
    /// The number of pixel columns.
    pub open spec fn width(self) -> int {
        self.max_x - self.min_x
    }

    /// The number of pixel rows.
    pub open spec fn height(self) -> int {
        self.max_y - self.min_y
    }
}

/// One pixel of a glyph: where it lies, in the pixel coordinates of the
/// glyph's line, and how much of it the glyph covers (0 = nothing, 255 = all).
#[derive(Clone, Copy, Debug, PartialEq, Eq, Structural)]
pub struct Sample {
    pub x: i32,
    pub y: i32,
    pub coverage: u8,
}

/// What a glyph is to the contracts of this crate.
pub struct GlyphView {
    /// The pixel bounding box, or `None` for a glyph without ink.
    pub bounds: Option<Rect>,
    /// The coverage of each pixel of the bounding box, row by row.
    pub coverage: Seq<u8>,
}

impl GlyphView {
    /// A glyph without ink has no coverage; a glyph with ink has one
    /// coverage byte for each pixel of its bounding box.
    pub open spec fn wf(self) -> bool {
        match self.bounds {
            Some(rect) => {
                &&& rect.min_x <= rect.max_x
                &&& rect.min_y <= rect.max_y
                &&& self.coverage.len() == rect.width() * rect.height()
            },
            None => self.coverage.len() == 0,
        }
    }

    /// The sample that the `k`-th coverage byte stands for.
    pub open spec fn sample(self, k: int) -> Sample {
        let rect = self.bounds->0;
        Sample {
            x: (rect.min_x + k % rect.width()) as i32,
            y: (rect.min_y + k / rect.width()) as i32,
            coverage: self.coverage[k],
        }
    }

    /// The samples of the glyph in the order in which they are drawn: row
    /// by row from the top, each row from the left.
    pub open spec fn samples(self) -> Seq<Sample> {
        Seq::new(self.coverage.len(), |k: int| self.sample(k))
    }
}

/// A glyph placed at a pen position and rasterised.
pub struct Glyph {
    bounds: Option<Rect>,
    coverage: Vec<u8>,
}

impl View for Glyph {
    type V = GlyphView;

    closed spec fn view(&self) -> GlyphView {
        GlyphView { bounds: self.bounds, coverage: self.coverage@ }
    }
}

impl Glyph {
    #[verifier::type_invariant]
    spec fn well_formed(self) -> bool {
        self@.wf()
    }

    /// A glyph without ink, such as a space.
    pub fn blank() -> (glyph: Glyph)
        ensures
            glyph@ == (GlyphView { bounds: None, coverage: Seq::empty() }),
    {
        Glyph { bounds: None, coverage: Vec::new() }
    }

    /// A glyph with ink in `bounds`. `coverage` holds one byte for each
    /// pixel of `bounds`, row by row; with any other length, or with bounds
    /// whose `max` lies before their `min`, there is no such glyph.
    pub fn new(bounds: Rect, coverage: Vec<u8>) -> (glyph: Option<Glyph>)
        ensures
            glyph is Some <==> (GlyphView { bounds: Some(bounds), coverage: coverage@ }).wf(),
            glyph matches Some(g) ==> g@ == (GlyphView {
                bounds: Some(bounds),
                coverage: coverage@,
            }),
    {
        if bounds.min_x > bounds.max_x || bounds.min_y > bounds.max_y {
            return None;
        }
        let width: u64 = (bounds.max_x as i64 - bounds.min_x as i64) as u64;
        let height: u64 = (bounds.max_y as i64 - bounds.min_y as i64) as u64;
        assert(width * height <= 0xffff_ffff * 0xffff_ffff) by (nonlinear_arith)
            requires
                0 <= width <= 0xffff_ffff,
                0 <= height <= 0xffff_ffff,
        ;
        if coverage.len() as u64 != width * height {
            return None;
        }
        Some(Glyph { bounds: Some(bounds), coverage })
    }

    /// The pixel bounding box, or `None` for a glyph without ink.
    pub fn pixel_bounding_box(&self) -> (bounds: Option<Rect>)
        ensures
            bounds == self@.bounds,
            self@.wf(),
    {
        proof {
            use_type_invariant(self);
        }
        self.bounds
    }
}

/// A glyph of a line, borrowed for drawing.
#[derive(Clone, Copy)]
pub struct Letter<'a> {
    glyph: &'a Glyph,
}

impl<'a> View for Letter<'a> {
    type V = GlyphView;

    closed spec fn view(&self) -> GlyphView {
        self.glyph@
    }
}

impl<'a> Letter<'a> {
    pub(crate) fn new(glyph: &'a Glyph) -> (letter: Self)
        ensures
            letter@ == glyph@,
    {
        Self { glyph }
    }

    /// The samples of the glyph, in drawing order. A glyph without ink has
    /// none.
    pub fn draw(&self) -> (samples: Vec<Sample>)
        ensures
            samples@ == self@.samples(),
    {
        proof {
            use_type_invariant(self.glyph);
        }
        let mut samples: Vec<Sample> = Vec::new();
        if let Some(bounding_box) = self.glyph.bounds {
            let width: i64 = bounding_box.max_x as i64 - bounding_box.min_x as i64;
            let total: usize = self.glyph.coverage.len();
            let mut k: usize = 0;
            let mut x: i64 = 0;
            let mut y: i64 = 0;
            assert(total > 0 ==> width > 0) by (nonlinear_arith)
                requires
                    total == width * bounding_box.height(),
                    width >= 0,
            ;
            while k < total
                invariant
                    self@.wf(),
                    self@.bounds == Some(bounding_box),
                    self@.coverage == self.glyph.coverage@,
                    width == bounding_box.width(),
                    total == self@.coverage.len(),
                    0 <= k <= total,
                    k < total ==> 0 <= x < width,
                    0 <= y,
                    k == y * width + x,
                    samples@ == Seq::new(k as nat, |i: int| self@.sample(i)),
                decreases total - k,
            {
                proof {
                    vstd::arithmetic::div_mod::lemma_fundamental_div_mod_converse(
                        k as int,
                        width as int,
                        y as int,
                        x as int,
                    );
                    assert(y < bounding_box.height()) by (nonlinear_arith)
                        requires
                            k == y * width + x,
                            k < width * bounding_box.height(),
                            0 <= x,
                            0 < width,
                            0 <= y,
                    ;
                }
                let sample = Sample {
                    x: (bounding_box.min_x as i64 + x) as i32,
                    y: (bounding_box.min_y as i64 + y) as i32,
                    coverage: self.glyph.coverage[k],
                };
                assert(sample == self@.sample(k as int));
                samples.push(sample);
                assert(samples@ =~= Seq::new((k + 1) as nat, |i: int| self@.sample(i)));
                k = k + 1;
                x = x + 1;
                if x == width {
                    x = 0;
                    y = y + 1;
                }
                proof {
                    assert(k == y * width + x) by (nonlinear_arith)
                        requires
                            (k - 1 == y * width + (x - 1) && x < width) || (k - 1 == (y - 1) * width
                                + (width - 1) && x == 0),
                    ;
                }
            }
            assert(samples@ =~= self@.samples());
        } else {
            assert(samples@ =~= self@.samples());
        }
        samples
    }
}

} // verus!
