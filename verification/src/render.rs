//! Where the lines go on the canvas, and how their glyphs are painted onto
//! it: sample by sample, glyph by glyph, line by line, each sample blended
//! over whatever the canvas holds by then.

use vstd::prelude::*;
use crate::color::{apply_overlay, overlay, Color, Rgba8};
use crate::glyph::{GlyphView, Letter, Sample};
use crate::lettering::{LineView, Ratio, RowHeight};
use crate::raster::{raster_dimensions, raster_get_pixel, raster_put_pixel, Raster, RasterView};

verus! {

/// A line of lettering is this many rows high.
pub const ROWS_PER_LINE: u32 = 4;

/// The quotient `a / b` rounded toward zero, for a positive `b`.
pub open spec fn toward_zero(a: int, b: int) -> int {
    if a >= 0 {
        a / b
    } else {
        -((-a) / b)
    }
}

/// The canvas column of a line's own column 0: the line is centred, so this
/// is half the canvas width less half the line width, rounded toward zero.
pub open spec fn line_left(canvas_width: int, line_width: int) -> int {
    toward_zero(canvas_width - line_width, 2)
}

/// The canvas row of the baseline of line `row`, counted from 0, among
/// `total_lines` lines. The block of all lines is `total_lines` times
/// `ROWS_PER_LINE` rows high and centred on the canvas, and each line ends
/// `ROWS_PER_LINE` rows below the one before it:
///
/// `canvas_height / 2 - block / 2 + (row + 1) * ROWS_PER_LINE * row_height`
///
/// rounded toward zero. With the row height `numer / denom` this is one
/// quotient over `2 * denom`.
pub open spec fn line_top(canvas_height: int, row_height: Ratio, total_lines: int, row: int) -> int {
    toward_zero(
        canvas_height * row_height.denom - ROWS_PER_LINE * row_height.numer * total_lines + 2
            * ROWS_PER_LINE * row_height.numer * (row + 1),
        2 * row_height.denom,
    )
}

/// A line is centred: the margins left and right of it differ by at most
/// one pixel.
pub proof fn line_is_centred(canvas_width: int, line_width: int)
    ensures
        ({
            let left = line_left(canvas_width, line_width);
            let right = canvas_width - line_width - left;
            -1 <= left - right <= 1
        }),
{
}

/// The canvas with `fg` blended over its pixel at `(x, y)`. Outside the
/// canvas nothing is painted.
pub open spec fn stamped(canvas: RasterView, x: int, y: int, fg: Rgba8) -> RasterView {
    if canvas.contains(x, y) {
        RasterView {
            width: canvas.width,
            height: canvas.height,
            pixels: canvas.pixels.insert((x, y), overlay(canvas.at(x, y), fg)),
        }
    } else {
        canvas
    }
}

/// The canvas with `samples` painted in `color`, one after the other, the
/// samples' own origin lying at `(left, top)` of the canvas.
pub open spec fn painted(
    canvas: RasterView,
    left: int,
    top: int,
    samples: Seq<Sample>,
    color: Color,
) -> RasterView
    decreases samples.len(),
{
    if samples.len() == 0 {
        canvas
    } else {
        let sample = samples.last();
        stamped(
            painted(canvas, left, top, samples.drop_last(), color),
            left + sample.x,
            top + sample.y,
            color.ink(sample.coverage),
        )
    }
}

/// The canvas with `glyphs` painted, one after the other.
pub open spec fn painted_glyphs(
    canvas: RasterView,
    left: int,
    top: int,
    glyphs: Seq<(GlyphView, Color)>,
) -> RasterView
    decreases glyphs.len(),
{
    if glyphs.len() == 0 {
        canvas
    } else {
        painted(
            painted_glyphs(canvas, left, top, glyphs.drop_last()),
            left,
            top,
            glyphs.last().0.samples(),
            glyphs.last().1,
        )
    }
}

/// The canvas with the first `upto` of `lines` painted, one after the
/// other, each centred and at the height of its row.
pub open spec fn painted_lines(
    canvas: RasterView,
    row_height: Ratio,
    lines: Seq<LineView>,
    upto: int,
) -> RasterView
    decreases upto,
{
    if upto <= 0 {
        canvas
    } else {
        let line = lines[upto - 1];
        painted_glyphs(
            painted_lines(canvas, row_height, lines, upto - 1),
            line_left(canvas.width as int, line.width()),
            line_top(canvas.height as int, row_height, lines.len() as int, upto - 1),
            line.glyphs,
        )
    }
}

/// The canvas with all of `lines` painted.
pub open spec fn lettered(canvas: RasterView, row_height: Ratio, lines: Seq<LineView>) -> RasterView {
    painted_lines(canvas, row_height, lines, lines.len() as int)
}

/// Painting never changes the size of the canvas.
pub proof fn painting_keeps_size(
    canvas: RasterView,
    left: int,
    top: int,
    samples: Seq<Sample>,
    color: Color,
)
    ensures
        painted(canvas, left, top, samples, color).width == canvas.width,
        painted(canvas, left, top, samples, color).height == canvas.height,
    decreases samples.len(),
{
    if samples.len() > 0 {
        painting_keeps_size(canvas, left, top, samples.drop_last(), color);
    }
}

/// Painting glyphs never changes the size of the canvas.
pub proof fn painting_glyphs_keeps_size(
    canvas: RasterView,
    left: int,
    top: int,
    glyphs: Seq<(GlyphView, Color)>,
)
    ensures
        painted_glyphs(canvas, left, top, glyphs).width == canvas.width,
        painted_glyphs(canvas, left, top, glyphs).height == canvas.height,
    decreases glyphs.len(),
{
    if glyphs.len() > 0 {
        painting_glyphs_keeps_size(canvas, left, top, glyphs.drop_last());
        painting_keeps_size(
            painted_glyphs(canvas, left, top, glyphs.drop_last()),
            left,
            top,
            glyphs.last().0.samples(),
            glyphs.last().1,
        );
    }
}

/// Painting lines never changes the size of the canvas.
pub proof fn painting_lines_keeps_size(
    canvas: RasterView,
    row_height: Ratio,
    lines: Seq<LineView>,
    upto: int,
)
    ensures
        painted_lines(canvas, row_height, lines, upto).width == canvas.width,
        painted_lines(canvas, row_height, lines, upto).height == canvas.height,
    decreases upto,
{
    if upto > 0 {
        painting_lines_keeps_size(canvas, row_height, lines, upto - 1);
        let line = lines[upto - 1];
        painting_glyphs_keeps_size(
            painted_lines(canvas, row_height, lines, upto - 1),
            line_left(canvas.width as int, line.width()),
            line_top(canvas.height as int, row_height, lines.len() as int, upto - 1),
            line.glyphs,
        );
    }
}

/// A glyph without ink paints nothing.
pub proof fn glyph_without_ink_paints_nothing(
    canvas: RasterView,
    left: int,
    top: int,
    glyph: GlyphView,
    color: Color,
)
    requires
        glyph.wf(),
        glyph.bounds is None,
    ensures
        painted(canvas, left, top, glyph.samples(), color) == canvas,
{
}

/// Lines without glyphs leave the canvas as it is.
pub proof fn lines_without_glyphs_paint_nothing(
    canvas: RasterView,
    row_height: Ratio,
    lines: Seq<LineView>,
    upto: int,
)
    requires
        0 <= upto <= lines.len(),
        forall|n: int| 0 <= n < lines.len() ==> (#[trigger] lines[n]).glyphs.len() == 0,
    ensures
        painted_lines(canvas, row_height, lines, upto) == canvas,
    decreases upto,
{
    if upto > 0 {
        lines_without_glyphs_paint_nothing(canvas, row_height, lines, upto - 1);
        assert(lines[upto - 1].glyphs.len() == 0);
    }
}

/// Rounding toward zero never moves a quotient away from zero.
pub proof fn toward_zero_is_no_larger(a: int, b: int)
    requires
        b > 0,
    ensures
        a >= 0 ==> 0 <= toward_zero(a, b) <= a,
        a <= 0 ==> a <= toward_zero(a, b) <= 0,
{
    if a >= 0 {
        vstd::arithmetic::div_mod::lemma_div_pos_is_pos(a, b);
        vstd::arithmetic::div_mod::lemma_div_nonincreasing(a, b);
    } else {
        vstd::arithmetic::div_mod::lemma_div_pos_is_pos(-a, b);
        vstd::arithmetic::div_mod::lemma_div_nonincreasing(-a, b);
    }
}

/// The column of the canvas where a line of `line_width` pixels begins.
pub fn left_of_line(canvas_width: u32, line_width: u32) -> (left: i64)
    ensures
        left == line_left(canvas_width as int, line_width as int),
        -0x1_0000_0000 < left < 0x1_0000_0000,
{
    proof {
        toward_zero_is_no_larger(canvas_width - line_width, 2);
    }
    (canvas_width as i64 - line_width as i64) / 2
}

/// The row of the canvas where line `row` of `total_lines` has its baseline.
pub fn top_of_line(canvas_height: u32, row_height: RowHeight, total_lines: u32, row: u32) -> (top:
    i128)
    ensures
        top == line_top(canvas_height as int, row_height@, total_lines as int, row as int),
        -0x40_0000_0000_0000_0000 < top < 0x40_0000_0000_0000_0000,
{
    let numer: i128 = row_height.numer() as i128;
    let denom: i128 = row_height.denom() as i128;
    let rows: i128 = ROWS_PER_LINE as i128;
    assert(0 <= canvas_height * denom <= 0xffff_ffff * 0xffff_ffff) by (nonlinear_arith)
        requires
            0 <= canvas_height <= 0xffff_ffff,
            0 <= denom <= 0xffff_ffff,
    ;
    let centre: i128 = canvas_height as i128 * denom;
    assert(0 <= numer * total_lines <= 0xffff_ffff * 0xffff_ffff) by (nonlinear_arith)
        requires
            0 <= numer <= 0xffff_ffff,
            0 <= total_lines <= 0xffff_ffff,
    ;
    assert(0 <= numer * (row + 1) <= 0xffff_ffff * 0x1_0000_0000) by (nonlinear_arith)
        requires
            0 <= numer <= 0xffff_ffff,
            0 <= row <= 0xffff_ffff,
    ;
    let block: i128 = rows * (numer * total_lines as i128);
    let offset: i128 = 2 * rows * (numer * (row as i128 + 1));
    assert(block == ROWS_PER_LINE * row_height@.numer * total_lines) by (nonlinear_arith)
        requires
            block == rows * (numer * total_lines),
            rows == ROWS_PER_LINE,
            numer == row_height@.numer,
    ;
    assert(offset == 2 * ROWS_PER_LINE * row_height@.numer * (row + 1)) by (nonlinear_arith)
        requires
            offset == 2 * rows * (numer * (row + 1)),
            rows == ROWS_PER_LINE,
            numer == row_height@.numer,
    ;
    proof {
        toward_zero_is_no_larger(centre - block + offset, 2 * denom);
    }
    (centre - block + offset) / (2 * denom)
}

/// Paints one glyph of line `row` onto the canvas. `width` is the width of
/// the glyph's line and places the line's left edge; the sample at the
/// line's `(x, y)` goes to the canvas pixel `(left + x, top + y)` and is
/// blended over it in `color`. Samples that fall outside the canvas are
/// dropped.
pub fn render_glyph(
    image: &mut Raster,
    row_height: RowHeight,
    total_lines: u32,
    row: u32,
    width: u32,
    letter: Letter,
    color: Color,
)
    ensures
        final(image)@ == painted(
            old(image)@,
            line_left(old(image)@.width as int, width as int),
            line_top(old(image)@.height as int, row_height@, total_lines as int, row as int),
            letter@.samples(),
            color,
        ),
{
    let (canvas_width, canvas_height): (u32, u32) = raster_dimensions(image);
    let left: i64 = left_of_line(canvas_width, width);
    let top: i128 = top_of_line(canvas_height, row_height, total_lines, row);
    let samples: Vec<Sample> = letter.draw();
    let mut k: usize = 0;
    while k < samples.len()
        invariant
            0 <= k <= samples@.len(),
            canvas_width == old(image)@.width,
            canvas_height == old(image)@.height,
            -0x1_0000_0000 < left < 0x1_0000_0000,
            -0x40_0000_0000_0000_0000 < top < 0x40_0000_0000_0000_0000,
            image@ == painted(old(image)@, left as int, top as int, samples@.take(k as int), color),
        decreases samples@.len() - k,
    {
        let sample: Sample = samples[k];
        proof {
            assert(samples@.take(k + 1).drop_last() =~= samples@.take(k as int));
            painting_keeps_size(
                old(image)@,
                left as int,
                top as int,
                samples@.take(k as int),
                color,
            );
        }
        let x: i64 = left + sample.x as i64;
        let y: i128 = top + sample.y as i128;
        if x >= 0 && y >= 0 && x < canvas_width as i64 && y < canvas_height as i128 {
            let mut pixel: Rgba8 = raster_get_pixel(image, x as u32, y as u32);
            apply_overlay(&mut pixel, &color.rgba(sample.coverage));
            raster_put_pixel(image, x as u32, y as u32, pixel);
        }
        k = k + 1;
    }
    assert(samples@.take(k as int) =~= samples@);
}

} // verus!
