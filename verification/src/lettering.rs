//! The layout: a phrase becomes lines of glyphs. Each letter puts two glyphs
//! at the pen, the letter in white from the main font and its shadow in light
//! grey from the shadow font, and then moves the pen by the main font's
//! advance and kerning.

use vstd::prelude::*;
use crate::color::Color;
use crate::glyph::{Glyph, GlyphView, Letter, Point};

verus! {

/// The height of one row of the board in pixels, as the exact ratio
/// `numer / denom`.
#[derive(Clone, Copy, Debug)]
pub struct RowHeight {
    numer: u32,
    denom: u32,
}

/// A ratio of two whole numbers.
pub struct Ratio {
    pub numer: int,
    pub denom: int,
}

impl View for RowHeight {
    type V = Ratio;

    closed spec fn view(&self) -> Ratio {
        Ratio { numer: self.numer as int, denom: self.denom as int }
    }
}

/// The size at which letters are set, in pixels, as the exact ratio
/// `numer / denom`.
#[derive(Clone, Copy, Debug, PartialEq, Eq, Structural)]
pub struct Scale {
    pub numer: u64,
    pub denom: u64,
}

/// Letters are set 5.8 rows high: 29 fifths of the row height.
pub const SCALE_NUMER: u64 = 29;

/// See [`SCALE_NUMER`].
pub const SCALE_DENOM: u64 = 5;

impl Ratio {
    /// The size of the letters that go with this row height: 5.8 times the
    /// row height.
    pub open spec fn scale(self) -> Scale {
        Scale { numer: (SCALE_NUMER * self.numer) as u64, denom: (SCALE_DENOM * self.denom) as u64 }
    }
}

impl RowHeight {
    #[verifier::type_invariant]
    spec fn well_formed(self) -> bool {
        self.denom > 0
    }

    /// The row height `numer / denom`; there is none with `denom` zero.
    pub fn new(numer: u32, denom: u32) -> (made: Option<RowHeight>)
        ensures
            denom == 0 ==> made is None,
            denom > 0 ==> made is Some && made->0@ == (Ratio {
                numer: numer as int,
                denom: denom as int,
            }),
    {
        if denom == 0 {
            None
        } else {
            Some(RowHeight { numer, denom })
        }
    }

    /// The numerator.
    pub fn numer(&self) -> (n: u32)
        ensures
            n == self@.numer,
    {
        self.numer
    }

    /// The denominator, which is never zero.
    pub fn denom(&self) -> (d: u32)
        ensures
            d == self@.denom,
            d > 0,
    {
        proof {
            use_type_invariant(self);
        }
        self.denom
    }

    /// The size of the letters that go with this row height: the row height
    /// times 5.8.
    pub fn scale(&self) -> (scale: Scale)
        ensures
            scale == self@.scale(),
            scale.numer == SCALE_NUMER * self@.numer,
            scale.denom == SCALE_DENOM * self@.denom,
            scale.denom > 0,
    {
        proof {
            use_type_invariant(self);
        }
        Scale { numer: SCALE_NUMER * self.numer as u64, denom: SCALE_DENOM * self.denom as u64 }
    }
}

/// A font resource. It answers for a letter at a scale: which glyph it is,
/// how the glyph looks when placed at a pen position, how far the pen moves
/// past it, and how much closer or further two glyphs stand as a pair.
///
/// Positions, advances and kerning are whole subpixel units. What the
/// answers are is the font's business; the layout states what it asks and
/// what it does with each answer.
pub trait Font {
    /// The identity of the glyph that the font has for `letter`.
    fn glyph_id(&self, letter: char) -> u32;

    /// The glyph of `letter` at `scale`, placed with its origin at
    /// `position` and rasterised.
    fn positioned(&self, letter: char, scale: Scale, position: Point) -> Glyph;

    /// How far the pen moves past the glyph `id` at `scale`.
    fn advance_width(&self, id: u32, scale: Scale) -> i32;

    /// The adjustment between the glyphs `first` and `second` when the one
    /// follows the other at `scale`.
    fn pair_kerning(&self, scale: Scale, first: u32, second: u32) -> i32;
}

/// The pen of a line: where the next glyph goes and which glyph came last.
#[derive(Clone, Copy, Debug, PartialEq, Eq, Structural)]
pub struct Cursor {
    pub position: Point,
    pub last: Option<u32>,
}

impl Cursor {
    /// The pen at the start of a line: at the origin, with no glyph before it.
    pub open spec fn start() -> Cursor {
        Cursor { position: Point { x: 0, y: 0 }, last: None }
    }

    /// The pen after the glyph `id`: moved right by `width + padding`.
    pub open spec fn moved(self, id: u32, width: int, padding: int) -> Cursor {
        Cursor {
            position: Point { x: (self.position.x + width + padding) as i64, y: self.position.y },
            last: Some(id),
        }
    }

    /// The pen at the start of a line.
    pub fn new() -> (cursor: Cursor)
        ensures
            cursor == Cursor::start(),
    {
        Cursor { position: Point { x: 0, y: 0 }, last: None }
    }

    /// The pen after the glyph `id` with advance `width` and kerning
    /// `padding`.
    pub fn advance(self, id: u32, width: i32, padding: i32) -> (cursor: Cursor)
        requires
            i64::MIN <= self.position.x + width + padding <= i64::MAX,
        ensures
            cursor == self.moved(id, width as int, padding as int),
            cursor.position.x == self.position.x + width + padding,
    {
        Cursor {
            position: Point {
                x: self.position.x + (width as i64 + padding as i64),
                y: self.position.y,
            },
            last: Some(id),
        }
    }
}

/// How far from the origin the pen of a line with `glyphs` glyphs can be:
/// an advance and a kerning are 32 bits each, and each letter is two glyphs.
pub open spec fn pen_limit(glyphs: nat) -> int {
    0x8000_0000 * (glyphs as int)
}

/// What a line is to the contracts of this crate: its glyphs in the order
/// in which they are drawn, and its pen.
pub struct LineView {
    pub glyphs: Seq<(GlyphView, Color)>,
    pub cursor: Cursor,
}

/// The largest right edge among the bounding boxes of `glyphs`, and 0 where
/// none reaches further right than that. A glyph without ink has no
/// bounding box and does not count.
pub open spec fn widest(glyphs: Seq<(GlyphView, Color)>) -> int
    decreases glyphs.len(),
{
    if glyphs.len() == 0 {
        0
    } else {
        let before = widest(glyphs.drop_last());
        match glyphs.last().0.bounds {
            Some(rect) => if rect.max_x > before {
                rect.max_x as int
            } else {
                before
            },
            None => before,
        }
    }
}

impl LineView {
    /// The empty line.
    pub open spec fn fresh() -> LineView {
        LineView { glyphs: Seq::empty(), cursor: Cursor::start() }
    }

    /// The line with one more glyph at its end.
    pub open spec fn with_glyph(self, glyph: GlyphView, color: Color) -> LineView {
        LineView { glyphs: self.glyphs.push((glyph, color)), cursor: self.cursor }
    }

    /// The line with its pen moved past the glyph `id`.
    pub open spec fn with_pen_past(self, id: u32, width: int, padding: int) -> LineView {
        LineView { glyphs: self.glyphs, cursor: self.cursor.moved(id, width, padding) }
    }

    /// The line after one letter: the letter in white, then its shadow in
    /// light grey, and the pen moved past the letter.
    pub open spec fn with_letter(self, inked: Inked) -> LineView {
        self.with_glyph(inked.main@, Color::White).with_glyph(
            inked.shadow@,
            Color::LightGrey,
        ).with_pen_past(inked.id, inked.advance as int, inked.kerning as int)
    }

    /// The width of the line.
    pub open spec fn width(self) -> int {
        widest(self.glyphs)
    }

    /// Whether the line can take one more letter: its glyphs are counted in
    /// 32 bits.
    pub open spec fn has_room(self) -> bool {
        self.glyphs.len() + 2 <= u32::MAX
    }
}

/// The answers of the two fonts for one letter.
pub struct Inked {
    /// The main font's glyph identity.
    pub id: u32,
    /// The main font's glyph at the pen.
    pub main: Glyph,
    /// The shadow font's glyph at the pen.
    pub shadow: Glyph,
    /// The main font's advance.
    pub advance: i32,
    /// The main font's kerning against the glyph before, and 0 for the
    /// first glyph of a line.
    pub kerning: i32,
}

/// Whether `inked` is what the fonts answer for `letter` at `cursor`. Both
/// glyphs are placed at the pen itself; identity, advance and kerning are the
/// main font's, and the kerning is asked only where a glyph came before.
pub open spec fn answers<F: Font>(
    font: &F,
    shade: &F,
    scale: Scale,
    cursor: Cursor,
    letter: char,
    inked: Inked,
) -> bool {
    &&& call_ensures(F::glyph_id, (font, letter), inked.id)
    &&& call_ensures(F::positioned, (font, letter, scale, cursor.position), inked.main)
    &&& call_ensures(F::positioned, (shade, letter, scale, cursor.position), inked.shadow)
    &&& spaced(font, scale, cursor, inked.id, inked.advance, inked.kerning)
}

/// Whether `width` and `padding` are what `font` answers for the glyph `id`
/// after `cursor`: its advance, and its kerning against the glyph before it,
/// which is 0 where no glyph came before.
pub open spec fn spaced<F: Font>(
    font: &F,
    scale: Scale,
    cursor: Cursor,
    id: u32,
    width: i32,
    padding: i32,
) -> bool {
    &&& call_ensures(F::advance_width, (font, id, scale), width)
    &&& match cursor.last {
        Some(last) => call_ensures(F::pair_kerning, (font, scale, last, id), padding),
        None => padding == 0,
    }
}

/// A width never is negative.
pub proof fn width_is_not_negative(glyphs: Seq<(GlyphView, Color)>)
    ensures
        widest(glyphs) >= 0,
    decreases glyphs.len(),
{
    if glyphs.len() > 0 {
        width_is_not_negative(glyphs.drop_last());
    }
}

/// One more glyph never makes a line narrower.
pub proof fn width_grows_with_glyph(line: LineView, glyph: GlyphView, color: Color)
    ensures
        line.with_glyph(glyph, color).width() >= line.width(),
        glyph.bounds is None ==> line.with_glyph(glyph, color).width() == line.width(),
{
    assert(line.glyphs.push((glyph, color)).drop_last() =~= line.glyphs);
}

/// One more letter never makes a line narrower.
pub proof fn width_grows_with_letter(line: LineView, inked: Inked)
    ensures
        line.with_letter(inked).width() >= line.width(),
{
    let white = line.with_glyph(inked.main@, Color::White);
    width_grows_with_glyph(line, inked.main@, Color::White);
    width_grows_with_glyph(white, inked.shadow@, Color::LightGrey);
}

/// A line of lettering.
pub struct Line {
    glyphs: Vec<(Glyph, Color)>,
    cursor: Cursor,
}

impl View for Line {
    type V = LineView;

    closed spec fn view(&self) -> LineView {
        LineView {
            glyphs: self.glyphs@.map_values(|g: (Glyph, Color)| (g.0@, g.1)),
            cursor: self.cursor,
        }
    }
}

impl Line {
    /// The glyphs are counted in 32 bits, and the pen is within the limit
    /// for their number.
    #[verifier::type_invariant]
    spec fn well_formed(self) -> bool {
        &&& self.glyphs@.len() <= u32::MAX
        &&& -pen_limit(self.glyphs@.len()) <= self.cursor.position.x <= pen_limit(
            self.glyphs@.len(),
        )
    }

    /// An empty line with the pen at its start.
    pub fn new() -> (line: Line)
        ensures
            line@ == LineView::fresh(),
    {
        let line = Line { glyphs: Vec::new(), cursor: Cursor::new() };
        assert(line@.glyphs =~= Seq::empty());
        line
    }

    /// The pen: where the next glyph goes, and which glyph came last.
    pub fn cursor(&self) -> (cursor: Cursor)
        ensures
            cursor == self@.cursor,
    {
        self.cursor
    }

    /// The width of the line: the largest right edge among the pixel
    /// bounding boxes of its glyphs, 0 for a line without ink.
    pub fn width(&self) -> (width: u32)
        ensures
            width == self@.width(),
    {
        let mut width: u32 = 0;
        let mut i: usize = 0;
        while i < self.glyphs.len()
            invariant
                0 <= i <= self.glyphs@.len(),
                width <= i32::MAX,
                width == widest(self@.glyphs.take(i as int)),
            decreases self.glyphs@.len() - i,
        {
            assert(self@.glyphs.take(i + 1).drop_last() =~= self@.glyphs.take(i as int));
            if let Some(rect) = self.glyphs[i].0.pixel_bounding_box() {
                let max: i32 = rect.max_x;
                if max > 0 && max as u32 > width {
                    width = max as u32;
                }
            }
            i = i + 1;
        }
        assert(self@.glyphs.take(i as int) =~= self@.glyphs);
        width
    }

    /// Moves the pen past the glyph `id` of `font`: by its advance, and by
    /// its kerning against the glyph before it if there is one.
    fn advance_cursor<F: Font>(&mut self, font: &F, scale: Scale, id: u32)
        requires
            old(self)@.glyphs.len() >= 2,
            -pen_limit((old(self)@.glyphs.len() - 2) as nat) <= old(self)@.cursor.position.x
                <= pen_limit((old(self)@.glyphs.len() - 2) as nat),
        ensures
            exists|width: i32, padding: i32|
                {
                    &&& #[trigger] spaced(font, scale, old(self)@.cursor, id, width, padding)
                    &&& final(self)@ == old(self)@.with_pen_past(id, width as int, padding as int)
                },
    {
        proof {
            use_type_invariant(&*self);
        }
        let width: i32 = font.advance_width(id, scale);
        let padding: i32 = match self.cursor.last {
            Some(last) => font.pair_kerning(scale, last, id),
            None => 0,
        };
        self.cursor = self.cursor.advance(id, width, padding);
        assert(spaced(font, scale, old(self)@.cursor, id, width, padding));
    }

    /// Puts `glyph` at the end of the line, in `color`. The pen stays.
    pub fn push_glyph(&mut self, glyph: Glyph, color: Color)
        requires
            old(self)@.glyphs.len() < u32::MAX,
        ensures
            final(self)@ == old(self)@.with_glyph(glyph@, color),
    {
        proof {
            use_type_invariant(&*self);
        }
        // The line is taken out whole: while its glyphs are borrowed on their
        // own, nothing holds the pen to the limit for their number.
        let mut line = Line::new();
        core::mem::swap(self, &mut line);
        let Line { mut glyphs, cursor } = line;
        glyphs.push((glyph, color));
        *self = Line { glyphs, cursor };
        assert(self@.glyphs =~= old(self)@.glyphs.push((glyph@, color)));
    }

    /// Puts the glyph that `font` has for `letter` at the pen, in `color`.
    fn put_glyph<F: Font>(&mut self, font: &F, scale: Scale, letter: char, color: Color)
        requires
            old(self)@.glyphs.len() < u32::MAX,
        ensures
            exists|glyph: Glyph|
                {
                    &&& call_ensures(
                        F::positioned,
                        (font, letter, scale, old(self)@.cursor.position),
                        glyph,
                    )
                    &&& final(self)@ == old(self)@.with_glyph(glyph@, color)
                },
    {
        let positioned: Glyph = font.positioned(letter, scale, self.cursor.position);
        let ghost glyph = positioned;
        self.push_glyph(positioned, color);
        assert(call_ensures(F::positioned, (font, letter, scale, old(self)@.cursor.position), glyph));
        assert(self@ == old(self)@.with_glyph(glyph@, color));
    }

    /// Puts one letter on the line: its glyph from `font` in white, its
    /// glyph from `shade` in light grey at the same place, and the pen moved
    /// past it by the metrics of `font`.
    pub fn put_letter<F: Font>(&mut self, font: &F, shade: &F, scale: Scale, letter: char)
        requires
            old(self)@.has_room(),
        ensures
            exists|inked: Inked|
                {
                    &&& answers(font, shade, scale, old(self)@.cursor, letter, inked)
                    &&& final(self)@ == old(self)@.with_letter(inked)
                },
    {
        proof {
            use_type_invariant(&*self);
        }
        let id: u32 = font.glyph_id(letter);
        self.put_glyph(font, scale, letter, Color::White);
        let ghost white = self@;
        self.put_glyph(shade, scale, letter, Color::LightGrey);
        let ghost grey = self@;
        self.advance_cursor(font, scale, id);
        proof {
            let main = choose|glyph: Glyph|
                {
                    &&& call_ensures(
                        F::positioned,
                        (font, letter, scale, old(self)@.cursor.position),
                        glyph,
                    )
                    &&& white == old(self)@.with_glyph(glyph@, Color::White)
                };
            let shadow = choose|glyph: Glyph|
                {
                    &&& call_ensures(
                        F::positioned,
                        (shade, letter, scale, white.cursor.position),
                        glyph,
                    )
                    &&& grey == white.with_glyph(glyph@, Color::LightGrey)
                };
            let (advance, kerning) = choose|width: i32, padding: i32|
                {
                    &&& #[trigger] spaced(font, scale, grey.cursor, id, width, padding)
                    &&& self@ == grey.with_pen_past(id, width as int, padding as int)
                };
            let inked = Inked { id, main, shadow, advance, kerning };
            assert(answers(font, shade, scale, old(self)@.cursor, letter, inked));
            assert(self@ == old(self)@.with_letter(inked));
        }
    }

    /// The glyphs of the line with their colours, in drawing order.
    pub fn letters<'b>(&'b self) -> (letters: Vec<(Letter<'b>, Color)>)
        ensures
            letters@.len() == self@.glyphs.len(),
            forall|i: int|
                0 <= i < letters@.len() ==> (#[trigger] letters@[i]).0@ == self@.glyphs[i].0
                    && letters@[i].1 == self@.glyphs[i].1,
    {
        let mut letters: Vec<(Letter<'b>, Color)> = Vec::new();
        let mut i: usize = 0;
        while i < self.glyphs.len()
            invariant
                0 <= i <= self.glyphs@.len(),
                letters@.len() == i,
                forall|j: int|
                    0 <= j < i ==> (#[trigger] letters@[j]).0@ == self@.glyphs[j].0 && letters@[j].1
                        == self@.glyphs[j].1,
            decreases self.glyphs@.len() - i,
        {
            letters.push((Letter::new(&self.glyphs[i].0), self.glyphs[i].1));
            i = i + 1;
        }
        letters
    }
}

/// Whether `after` are the lines that one more character makes of
/// `before`. A newline starts a fresh line after the others; any other
/// character is a letter put on the last line.
pub open spec fn stepped<F: Font>(
    font: &F,
    shade: &F,
    scale: Scale,
    before: Seq<LineView>,
    c: char,
    after: Seq<LineView>,
) -> bool {
    if c == '\n' {
        after == before.push(LineView::fresh())
    } else {
        &&& before.len() > 0
        &&& after.len() == before.len()
        &&& after.drop_last() == before.drop_last()
        &&& exists|inked: Inked|
            {
                &&& #[trigger] answers(font, shade, scale, before.last().cursor, c, inked)
                &&& after.last() == before.last().with_letter(inked)
            }
    }
}

/// Whether `trace` holds the lines after each character of `phrase`: a
/// single fresh line before the first, and after each character what that
/// character makes of the lines before it.
pub open spec fn traced<F: Font>(
    font: &F,
    shade: &F,
    scale: Scale,
    phrase: Seq<char>,
    trace: Seq<Seq<LineView>>,
) -> bool {
    &&& trace.len() == phrase.len() + 1
    &&& trace[0] == seq![LineView::fresh()]
    &&& forall|i: int|
        0 <= i < phrase.len() ==> stepped(
            font,
            shade,
            scale,
            #[trigger] trace[i],
            phrase[i],
            trace[i + 1],
        )
}

/// Whether `lines` are lines that the characters of `phrase` make, one
/// after the other, starting from a single fresh line.
pub open spec fn written<F: Font>(
    font: &F,
    shade: &F,
    scale: Scale,
    phrase: Seq<char>,
    lines: Seq<LineView>,
) -> bool {
    exists|trace: Seq<Seq<LineView>>|
        #[trigger] traced(font, shade, scale, phrase, trace) && trace.last() == lines
}

/// The number of newline characters in `phrase`.
pub open spec fn newlines(phrase: Seq<char>) -> nat
    decreases phrase.len(),
{
    if phrase.len() == 0 {
        0
    } else if phrase.last() == '\n' {
        newlines(phrase.drop_last()) + 1
    } else {
        newlines(phrase.drop_last())
    }
}

/// After `upto` characters there is one line, and one more for each newline
/// among those characters.
proof fn trace_counts_newlines<F: Font>(
    font: &F,
    shade: &F,
    scale: Scale,
    phrase: Seq<char>,
    trace: Seq<Seq<LineView>>,
    upto: int,
)
    requires
        traced(font, shade, scale, phrase, trace),
        0 <= upto <= phrase.len(),
    ensures
        trace[upto].len() == 1 + newlines(phrase.take(upto)),
    decreases upto,
{
    if upto > 0 {
        trace_counts_newlines(font, shade, scale, phrase, trace, upto - 1);
        let before = trace[upto - 1];
        assert(stepped(font, shade, scale, before, phrase[upto - 1], trace[upto - 1 + 1]));
        assert(phrase.take(upto).drop_last() =~= phrase.take(upto - 1));
        assert(phrase.take(upto).last() == phrase[upto - 1]);
    }
}

/// A phrase makes one line and one more for each newline in it, whatever
/// the fonts answer.
pub proof fn height_counts_newlines<F: Font>(
    font: &F,
    shade: &F,
    scale: Scale,
    phrase: Seq<char>,
    lines: Seq<LineView>,
)
    requires
        written(font, shade, scale, phrase, lines),
    ensures
        lines.len() == 1 + newlines(phrase),
{
    let trace = choose|trace: Seq<Seq<LineView>>|
        #[trigger] traced(font, shade, scale, phrase, trace) && trace.last() == lines;
    trace_counts_newlines(font, shade, scale, phrase, trace, phrase.len() as int);
    assert(phrase.take(phrase.len() as int) =~= phrase);
}

/// The empty phrase makes a single line without glyphs.
pub proof fn empty_phrase_is_one_fresh_line<F: Font>(
    font: &F,
    shade: &F,
    scale: Scale,
    phrase: Seq<char>,
    lines: Seq<LineView>,
)
    requires
        phrase.len() == 0,
        written(font, shade, scale, phrase, lines),
    ensures
        lines == seq![LineView::fresh()],
{
}

/// The lettering of a phrase: its lines, and the fonts and the scale that
/// every letter is set with.
pub struct Lettering<'a, F: Font> {
    font: &'a F,
    shade: &'a F,
    scale: Scale,
    finished: Vec<Line>,
    current: Line,
}

impl<'a, F: Font> View for Lettering<'a, F> {
    type V = Seq<LineView>;

    closed spec fn view(&self) -> Seq<LineView> {
        self.finished@.map_values(|line: Line| line@).push(self.current@)
    }
}

impl<'a, F: Font> Lettering<'a, F> {
    /// The lines are counted in 32 bits.
    #[verifier::type_invariant]
    spec fn well_formed(self) -> bool {
        self.finished@.len() < u32::MAX
    }

    /// The main font.
    pub closed spec fn font(&self) -> &'a F {
        self.font
    }

    /// The shadow font.
    pub closed spec fn shade(&self) -> &'a F {
        self.shade
    }

    /// The scale of the letters.
    pub closed spec fn scale(&self) -> Scale {
        self.scale
    }

    /// A lettering of one empty line, for letters 5.8 rows high.
    pub fn new(row_height: RowHeight, font: &'a F, shade: &'a F) -> (lettering: Self)
        ensures
            lettering@ == seq![LineView::fresh()],
            lettering.font() == font,
            lettering.shade() == shade,
            lettering.scale() == row_height@.scale(),
    {
        let lettering = Lettering {
            font,
            shade,
            scale: row_height.scale(),
            finished: Vec::new(),
            current: Line::new(),
        };
        assert(lettering@ =~= seq![LineView::fresh()]);
        lettering
    }

    /// The height of this lettering in number of lines. There is always at
    /// least one.
    pub fn height(&self) -> (height: u32)
        ensures
            height == self@.len(),
            height >= 1,
    {
        proof {
            use_type_invariant(self);
        }
        self.finished.len() as u32 + 1
    }

    fn put_letter(&mut self, letter: char)
        requires
            old(self)@.last().has_room(),
        ensures
            final(self).font() == old(self).font(),
            final(self).shade() == old(self).shade(),
            final(self).scale() == old(self).scale(),
            letter != '\n' ==> stepped(
                old(self).font(),
                old(self).shade(),
                old(self).scale(),
                old(self)@,
                letter,
                final(self)@,
            ),
    {
        proof {
            use_type_invariant(&*self);
        }
        // The last line is taken out for the letter and put back after it.
        let mut line = Line::new();
        core::mem::swap(&mut self.current, &mut line);
        line.put_letter(self.font, self.shade, self.scale, letter);
        core::mem::swap(&mut self.current, &mut line);
        proof {
            let before = old(self)@;
            let after = self@;
            assert(after.drop_last() =~= before.drop_last());
        }
    }

    fn put_new_line(&mut self)
        requires
            old(self)@.len() < u32::MAX,
        ensures
            final(self).font() == old(self).font(),
            final(self).shade() == old(self).shade(),
            final(self).scale() == old(self).scale(),
            final(self)@ == old(self)@.push(LineView::fresh()),
    {
        proof {
            use_type_invariant(&*self);
        }
        // The last line moves to the finished ones, and a fresh line takes
        // its place.
        let mut line = Line::new();
        core::mem::swap(&mut self.current, &mut line);
        let mut finished: Vec<Line> = Vec::new();
        core::mem::swap(&mut self.finished, &mut finished);
        finished.push(line);
        core::mem::swap(&mut self.finished, &mut finished);
        assert(self@ =~= old(self)@.push(LineView::fresh()));
    }

    /// Puts one character: a newline starts a new empty line with the pen
    /// at its start, any other character is a letter on the last line.
    pub fn put_character(&mut self, c: char)
        requires
            c == '\n' ==> old(self)@.len() < u32::MAX,
            c != '\n' ==> old(self)@.last().has_room(),
        ensures
            final(self).font() == old(self).font(),
            final(self).shade() == old(self).shade(),
            final(self).scale() == old(self).scale(),
            stepped(
                old(self).font(),
                old(self).shade(),
                old(self).scale(),
                old(self)@,
                c,
                final(self)@,
            ),
    {
        match c {
            '\n' => self.put_new_line(),
            letter => self.put_letter(letter),
        }
    }

    /// The lines, first to last.
    pub fn lines(&self) -> (lines: Vec<&Line>)
        ensures
            lines@.len() == self@.len(),
            forall|n: int| 0 <= n < lines@.len() ==> (#[trigger] lines@[n])@ == self@[n],
    {
        let mut lines: Vec<&Line> = Vec::new();
        let mut n: usize = 0;
        while n < self.finished.len()
            invariant
                0 <= n <= self.finished@.len(),
                lines@.len() == n,
                forall|i: int| 0 <= i < n ==> (#[trigger] lines@[i])@ == self@[i],
            decreases self.finished@.len() - n,
        {
            lines.push(&self.finished[n]);
            n = n + 1;
        }
        lines.push(&self.current);
        lines
    }
}

} // verus!
