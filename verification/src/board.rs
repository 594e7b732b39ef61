//! The board: a tiled background, an optional border and two fonts. A
//! phrase written on it becomes a lettered board, which renders to a raster.

use vstd::prelude::*;
use crate::border::{can_frame, composite_borders, frame_fits, is_framing};
use crate::glyph::Letter;
use crate::color::Color;
use crate::lettering::{newlines, traced, written, Font, Lettering, Line, LineView, Ratio, RowHeight};
use crate::raster::{raster_clone, raster_dimensions, raster_resize, Raster, RasterView};
use crate::render::{
    lettered, painted_glyphs, painted_lines, painting_lines_keeps_size, render_glyph, line_left,
    line_top,
};
use crate::tiling::{is_tiling, new_image_tiled};

verus! {

/// Why a texture cannot be a background.
#[derive(Clone, Copy, Debug, PartialEq, Eq, Structural)]
pub enum TextureError {
    /// The board would have no rows.
    NoRows,
    /// The texture is less than two pixels wide or high, so that half its
    /// size is no tile.
    TooSmall,
}

/// The background of a board: a raster, and the height of one of its rows.
pub struct Background {
    image: Raster,
    row_height: RowHeight,
}

/// What a background is to the contracts of this crate.
pub struct BackgroundView {
    pub raster: RasterView,
    pub row_height: Ratio,
}

impl View for Background {
    type V = BackgroundView;

    closed spec fn view(&self) -> BackgroundView {
        BackgroundView { raster: self.image@, row_height: self.row_height@ }
    }
}

/// Whether `background` is what `texture` with `rows` rows opens to. The
/// tile is the texture at half its width and height; the raster is twice as
/// wide and high as the tile and is a tiling of it; and the tile holds
/// `rows` rows, so a row is the tile's height divided by `rows`.
pub open spec fn opened(texture: RasterView, rows: u32, background: BackgroundView) -> bool {
    &&& background.row_height == (Ratio { numer: texture.height as int / 2, denom: rows as int })
    &&& background.raster.width == 2 * (texture.width / 2)
    &&& background.raster.height == 2 * (texture.height / 2)
    &&& exists|tile: RasterView|
        {
            &&& tile.width == texture.width / 2
            &&& tile.height == texture.height / 2
            &&& #[trigger] is_tiling(background.raster, tile)
        }
}

impl Background {
    /// Makes a background of a texture. The texture is resized to half its
    /// width and height with the Lanczos filter, and the result is tiled
    /// over twice its own width and height. The board counts `rows` rows
    /// to the tile.
    pub fn open(image: Raster, rows: u32) -> (res: Result<Background, TextureError>)
        ensures
            rows == 0 ==> res matches Err(TextureError::NoRows),
            rows > 0 && (image@.width < 2 || image@.height < 2) ==> res matches Err(
                TextureError::TooSmall,
            ),
            rows > 0 && image@.width >= 2 && image@.height >= 2 ==> (res matches Ok(background)
                && opened(image@, rows, background@)),
    {
        let (full_width, full_height): (u32, u32) = raster_dimensions(&image);
        let (width, height): (u32, u32) = (full_width / 2, full_height / 2);
        let row_height = match RowHeight::new(height, rows) {
            Some(row_height) => row_height,
            None => { return Err(TextureError::NoRows); },
        };
        if width == 0 || height == 0 {
            return Err(TextureError::TooSmall);
        }
        assert(4 * full_width * height <= 4 * full_width * full_height && 4 * width * height <= 4
            * full_width * full_height && 4 * (2 * width) * (2 * height) <= 4 * full_width
            * full_height) by (nonlinear_arith)
            requires
                0 <= 2 * width <= full_width,
                0 <= 2 * height <= full_height,
        ;
        let tile = raster_resize(&image, width, height);
        let image = new_image_tiled(&tile, 2 * width, 2 * height);
        let background = Background { image, row_height };
        assert(is_tiling(background@.raster, tile@));
        Ok(background)
    }

    /// The raster.
    pub fn image(&self) -> (image: &Raster)
        ensures
            image@ == self@.raster,
    {
        &self.image
    }

    /// The height of a row.
    pub fn row_height(&self) -> (row_height: RowHeight)
        ensures
            row_height@ == self@.row_height,
    {
        self.row_height
    }
}

/// The border of a board: the tile that its frame is made of.
pub struct Border {
    image: Raster,
}

impl View for Border {
    type V = RasterView;

    closed spec fn view(&self) -> RasterView {
        self.image@
    }
}

impl Border {
    /// Makes a border of a tile.
    pub fn open(image: Raster) -> (border: Border)
        ensures
            border@ == image@,
    {
        Border { image }
    }

    /// The tile.
    pub fn image(&self) -> (image: &Raster)
        ensures
            image@ == self@,
    {
        &self.image
    }

    /// Whether this border can frame `background`.
    pub fn frames(&self, background: &Background) -> (fits: bool)
        ensures
            fits == frame_fits(background@.raster, self@),
    {
        can_frame(&background.image, &self.image)
    }
}

/// What it takes to make a board: a background, a border if there is to be
/// a frame, and the fonts for the letters and their shadows.
pub struct Board<F: Font> {
    background: Background,
    border: Option<Border>,
    font: F,
    shade: F,
}

/// What a board is to the contracts of this crate, apart from its fonts.
pub struct BoardView {
    pub background: BackgroundView,
    /// The border tile, if the board has a border.
    pub border: Option<RasterView>,
}

impl<F: Font> View for Board<F> {
    type V = BoardView;

    closed spec fn view(&self) -> BoardView {
        BoardView {
            background: self.background@,
            border: match self.border {
                Some(border) => Some(border@),
                None => None,
            },
        }
    }
}

impl<F: Font> Board<F> {
    /// The border, where there is one, can frame the background.
    #[verifier::type_invariant]
    spec fn well_formed(self) -> bool {
        self.border matches Some(border) ==> frame_fits(self.background@.raster, border@)
    }

    /// The font of the letters.
    pub closed spec fn font(&self) -> &F {
        &self.font
    }

    /// The font of the shadows.
    pub closed spec fn shade(&self) -> &F {
        &self.shade
    }

    /// A board. A border must be able to frame the background; see
    /// [`Border::frames`].
    pub fn new(background: Background, border: Option<Border>, font: F, shade: F) -> (board: Self)
        requires
            border matches Some(b) ==> frame_fits(background@.raster, b@),
        ensures
            board@.background == background@,
            board@.border == (match border {
                Some(b) => Some(b@),
                None => None,
            }),
            board.font() == font,
            board.shade() == shade,
    {
        Board { background, border, font, shade }
    }

    /// The background.
    pub fn background(&self) -> (background: &Background)
        ensures
            background@ == self@.background,
    {
        &self.background
    }

    /// The border, if the board has one. It can frame the background.
    pub fn border(&self) -> (border: Option<&Border>)
        ensures
            self@.border == (match border {
                Some(b) => Some(b@),
                None => None,
            }),
            border matches Some(b) ==> frame_fits(self@.background.raster, b@),
    {
        proof {
            use_type_invariant(self);
        }
        match &self.border {
            Some(border) => Some(border),
            None => None,
        }
    }

    /// Writes `phrase` on the board: every character is put, in order, on a
    /// lettering that starts as one empty line.
    pub fn write_phrase<'a>(&'a self, phrase: &str) -> (out: LetteredBoard<'a, F>)
        requires
            phrase@.len() < 0x7fff_ffff,
        ensures
            out.board() == self,
            written(
                self.font(),
                self.shade(),
                self@.background.row_height.scale(),
                phrase@,
                out@,
            ),
            out@.len() == 1 + newlines(phrase@),
    {
        let mut lettering = Lettering::new(self.background.row_height, &self.font, &self.shade);
        let ghost scale = self@.background.row_height.scale();
        let ghost mut trace: Seq<Seq<LineView>> = seq![lettering@];
        for letter in it: phrase.chars()
            invariant
                it.seq() == phrase@,
                phrase@.len() < 0x7fff_ffff,
                lettering.font() == self.font(),
                lettering.shade() == self.shade(),
                lettering.scale() == scale,
                traced(self.font(), self.shade(), scale, phrase@.take(it.index() as int), trace),
                trace.last() == lettering@,
                1 <= lettering@.len() <= 1 + it.index(),
                lettering@.last().glyphs.len() <= 2 * it.index(),
        {
            let ghost before = trace;
            let ghost sofar = phrase@.take(it.index() as int);
            lettering.put_character(letter);
            proof {
                trace = trace.push(lettering@);
                let next = phrase@.take(it.index() + 1);
                assert(next.len() == sofar.len() + 1);
                assert forall|i: int| 0 <= i < next.len() implies crate::lettering::stepped(
                    self.font(),
                    self.shade(),
                    scale,
                    #[trigger] trace[i],
                    next[i],
                    trace[i + 1],
                ) by {
                    if i < sofar.len() {
                        assert(trace[i] == before[i]);
                        assert(trace[i + 1] == before[i + 1]);
                        assert(next[i] == sofar[i]);
                    }
                }
            }
        }
        proof {
            assert(phrase@.take(phrase@.len() as int) =~= phrase@);
            crate::lettering::height_counts_newlines(
                self.font(),
                self.shade(),
                scale,
                phrase@,
                lettering@,
            );
        }
        LetteredBoard { board: self, lettering }
    }
}

/// A board with a phrase written on it, ready to render.
pub struct LetteredBoard<'a, F: Font> {
    board: &'a Board<F>,
    lettering: Lettering<'a, F>,
}

/// Whether `out` is the rendering of `lines` on `background`: the lines
/// painted on the background, and that framed where there is a border.
pub open spec fn rendering(
    background: BackgroundView,
    border: Option<RasterView>,
    lines: Seq<LineView>,
    out: RasterView,
) -> bool {
    let page = lettered(background.raster, background.row_height, lines);
    match border {
        Some(tile) => is_framing(out, page, tile),
        None => out == page,
    }
}

/// Lines without glyphs render to the plain background, framed where there
/// is a border: the glyph pass touches no pixel.
pub proof fn blank_lines_render_the_background(
    background: BackgroundView,
    border: Option<RasterView>,
    lines: Seq<LineView>,
    out: RasterView,
)
    requires
        forall|n: int| 0 <= n < lines.len() ==> (#[trigger] lines[n]).glyphs.len() == 0,
        rendering(background, border, lines, out),
    ensures
        match border {
            Some(tile) => is_framing(out, background.raster, tile),
            None => out == background.raster,
        },
{
    crate::render::lines_without_glyphs_paint_nothing(
        background.raster,
        background.row_height,
        lines,
        lines.len() as int,
    );
}

/// The empty phrase renders to the plain background, framed where there is
/// a border, whatever the fonts are.
pub proof fn empty_phrase_renders_the_background<F: Font>(
    font: &F,
    shade: &F,
    background: BackgroundView,
    border: Option<RasterView>,
    phrase: Seq<char>,
    lines: Seq<LineView>,
    out: RasterView,
)
    requires
        phrase.len() == 0,
        written(font, shade, background.row_height.scale(), phrase, lines),
        rendering(background, border, lines, out),
    ensures
        match border {
            Some(tile) => is_framing(out, background.raster, tile),
            None => out == background.raster,
        },
{
    crate::lettering::empty_phrase_is_one_fresh_line(
        font,
        shade,
        background.row_height.scale(),
        phrase,
        lines,
    );
    blank_lines_render_the_background(background, border, lines, out);
}

impl<'a, F: Font> View for LetteredBoard<'a, F> {
    type V = Seq<LineView>;

    /// The lines of the phrase.
    closed spec fn view(&self) -> Seq<LineView> {
        self.lettering@
    }
}

impl<'a, F: Font> LetteredBoard<'a, F> {
    /// The board.
    pub closed spec fn board(&self) -> &'a Board<F> {
        self.board
    }

    /// The lettering of the phrase.
    pub fn lettering(&self) -> (lettering: &Lettering<'a, F>)
        ensures
            lettering@ == self@,
    {
        &self.lettering
    }

    /// Renders the lettered board: the lines are painted onto a copy of the
    /// background, line after line and glyph after glyph, and the result
    /// is framed if the board has a border.
    pub fn render(&self) -> (out: Raster)
        ensures
            rendering(self.board()@.background, self.board()@.border, self@, out@),
    {
        let board: &Board<F> = self.board;
        proof {
            use_type_invariant(board);
        }
        let mut image: Raster = raster_clone(&board.background.image);
        let row_height: RowHeight = board.background.row_height;
        let lines: Vec<&Line> = self.lettering.lines();
        let total: u32 = self.lettering.height();
        let ghost canvas = board.background@.raster;
        let ghost ratio = row_height@;
        let mut n: usize = 0;
        while n < lines.len()
            invariant
                0 <= n <= lines@.len(),
                lines@.len() == self.lettering@.len(),
                total == lines@.len(),
                forall|i: int| 0 <= i < lines@.len() ==> (#[trigger] lines@[i])@ == self.lettering@[i],
                image@ == painted_lines(canvas, ratio, self.lettering@, n as int),
                row_height@ == ratio,
            decreases lines@.len() - n,
        {
            let line: &Line = lines[n];
            let width: u32 = line.width();
            let letters: Vec<(Letter<'_>, Color)> = line.letters();
            let ghost before = image@;
            let ghost left = line_left(canvas.width as int, width as int);
            let ghost top = line_top(canvas.height as int, ratio, total as int, n as int);
            proof {
                painting_lines_keeps_size(canvas, ratio, self.lettering@, n as int);
            }
            let mut i: usize = 0;
            while i < letters.len()
                invariant
                    0 <= i <= letters@.len(),
                    letters@.len() == line@.glyphs.len(),
                    forall|j: int|
                        0 <= j < letters@.len() ==> (#[trigger] letters@[j]).0@ == line@.glyphs[j].0
                            && letters@[j].1 == line@.glyphs[j].1,
                    n < total,
                    before.width == canvas.width,
                    before.height == canvas.height,
                    left == line_left(canvas.width as int, width as int),
                    top == line_top(canvas.height as int, ratio, total as int, n as int),
                    row_height@ == ratio,
                    image@ == painted_glyphs(before, left, top, line@.glyphs.take(i as int)),
                decreases letters@.len() - i,
            {
                let (letter, color): (Letter<'_>, Color) = letters[i];
                proof {
                    assert(line@.glyphs.take(i + 1).drop_last() =~= line@.glyphs.take(i as int));
                    crate::render::painting_glyphs_keeps_size(
                        before,
                        left,
                        top,
                        line@.glyphs.take(i as int),
                    );
                }
                render_glyph(&mut image, row_height, total, n as u32, width, letter, color);
                i = i + 1;
            }
            assert(line@.glyphs.take(i as int) =~= line@.glyphs);
            n = n + 1;
        }
        proof {
            painting_lines_keeps_size(canvas, ratio, self.lettering@, n as int);
        }
        if let Some(ref border) = board.border {
            composite_borders(&image, &border.image)
        } else {
            image
        }
    }
}

} // verus!
