//! The two inks and the alpha blend that lays them onto an opaque canvas.

use vstd::prelude::*;

verus! {

/// One 8-bit RGBA pixel.
#[derive(Clone, Copy, Debug, PartialEq, Eq, Structural)]
pub struct Rgba8 {
    pub red: u8,
    pub green: u8,
    pub blue: u8,
    pub alpha: u8,
}

/// The inks a letter is drawn in: the letter itself is white, its shadow
/// light grey.
#[derive(Clone, Copy, Debug, PartialEq, Eq, Structural)]
pub enum Color {
    White,
    LightGrey,
}

/// Grey level of the white ink.
pub const WHITE_LEVEL: u8 = 245;

/// Grey level of the light grey ink.
pub const LIGHT_GREY_LEVEL: u8 = 180;

impl Color {
    /// The grey level shared by the three colour channels of this ink.
    pub open spec fn level(self) -> u8 {
        match self {
            Color::White => WHITE_LEVEL,
            Color::LightGrey => LIGHT_GREY_LEVEL,
        }
    }

    /// The ink as a translucent pixel: its grey level in every colour channel
    /// and the coverage as alpha.
    pub open spec fn ink(self, coverage: u8) -> Rgba8 {
        monochrome(self.level(), coverage)
    }

    /// Turns a coverage byte (0 = untouched, 255 = fully covered) into a
    /// translucent pixel of this ink. The hue never changes; only alpha
    /// follows the coverage.
    pub fn rgba(self, coverage: u8) -> (pixel: Rgba8)
        ensures
            pixel == self.ink(coverage),
    {
        match self {
            Color::White => monochrome_pixel(WHITE_LEVEL, coverage),
            Color::LightGrey => monochrome_pixel(LIGHT_GREY_LEVEL, coverage),
        }
    }
}

/// A grey pixel of level `v` with the given alpha.
pub open spec fn monochrome(v: u8, alpha: u8) -> Rgba8 {
    Rgba8 { red: v, green: v, blue: v, alpha }
}

fn monochrome_pixel(v: u8, alpha: u8) -> (pixel: Rgba8)
    ensures
        pixel == monochrome(v, alpha),
{
    Rgba8 { red: v, green: v, blue: v, alpha }
}

/// One channel of the blend: `bg * (1 - alpha/255) + fg * (alpha/255)`,
/// rounded toward zero.
pub open spec fn blended(bg: u8, fg: u8, alpha: u8) -> int {
    (bg * (255 - alpha) + fg * alpha) / 255
}

/// `fg` laid over the opaque `bg`: each colour channel is blended by the
/// alpha of `fg`, and the alpha of `bg` stays as it is.
pub open spec fn overlay(bg: Rgba8, fg: Rgba8) -> Rgba8 {
    Rgba8 {
        red: blended(bg.red, fg.red, fg.alpha) as u8,
        green: blended(bg.green, fg.green, fg.alpha) as u8,
        blue: blended(bg.blue, fg.blue, fg.alpha) as u8,
        alpha: bg.alpha,
    }
}

/// A blended channel lies between the two channels it mixes, so it is a byte.
pub proof fn blended_is_between(bg: u8, fg: u8, alpha: u8)
    ensures
        bg <= fg ==> bg <= blended(bg, fg, alpha) <= fg,
        fg <= bg ==> fg <= blended(bg, fg, alpha) <= bg,
        0 <= blended(bg, fg, alpha) <= 255,
{
    let keep: int = 255 - alpha;
    let a: int = alpha as int;
    let total: int = bg * keep + fg * a;
    if bg <= fg {
        assert(bg * keep + bg * a <= total <= fg * keep + fg * a) by (nonlinear_arith)
            requires
                0 <= bg <= fg,
                0 <= keep,
                0 <= a,
                total == bg * keep + fg * a,
        ;
        assert(bg * keep + bg * a == 255 * bg && fg * keep + fg * a == 255 * fg)
            by (nonlinear_arith)
            requires
                keep + a == 255,
        ;
    } else {
        assert(fg * keep + fg * a <= total <= bg * keep + bg * a) by (nonlinear_arith)
            requires
                0 <= fg <= bg,
                0 <= keep,
                0 <= a,
                total == bg * keep + fg * a,
        ;
        assert(bg * keep + bg * a == 255 * bg && fg * keep + fg * a == 255 * fg)
            by (nonlinear_arith)
            requires
                keep + a == 255,
        ;
    }
}

/// A fully transparent foreground leaves the background as it is.
pub proof fn overlay_transparent_is_identity(bg: Rgba8, fg: Rgba8)
    requires
        fg.alpha == 0,
    ensures
        overlay(bg, fg) == bg,
{
}

/// A fully opaque foreground replaces the colour of the background and
/// leaves its alpha.
pub proof fn overlay_opaque_replaces(bg: Rgba8, fg: Rgba8)
    requires
        fg.alpha == 255,
    ensures
        overlay(bg, fg) == (Rgba8 { red: fg.red, green: fg.green, blue: fg.blue, alpha: bg.alpha }),
{
}

/// Blends one channel.
pub fn blend(bg: u8, fg: u8, alpha: u8) -> (out: u8)
    ensures
        out == blended(bg, fg, alpha),
{
    proof {
        blended_is_between(bg, fg, alpha);
    }
    let keep: u32 = 255 - alpha as u32;
    assert(bg * keep <= 255 * 255 && fg * alpha <= 255 * 255) by (nonlinear_arith)
        requires
            0 <= bg <= 255,
            0 <= fg <= 255,
            0 <= alpha <= 255,
            0 <= keep <= 255,
    ;
    let total: u32 = bg as u32 * keep + fg as u32 * alpha as u32;
    (total / 255) as u8
}

/// Replaces each colour channel of `bg` by `f(bg channel, fg channel, fg alpha)`.
/// The alpha of `bg` is not touched.
pub fn apply2_alpha<F: Fn(u8, u8, u8) -> u8>(bg: &mut Rgba8, fg: &Rgba8, f: F)
    requires
        forall|b: u8, c: u8, a: u8| call_requires(f, (b, c, a)),
    ensures
        call_ensures(f, (old(bg).red, fg.red, fg.alpha), final(bg).red),
        call_ensures(f, (old(bg).green, fg.green, fg.alpha), final(bg).green),
        call_ensures(f, (old(bg).blue, fg.blue, fg.alpha), final(bg).blue),
        final(bg).alpha == old(bg).alpha,
{
    let fg_a: u8 = fg.alpha;
    bg.red = f(bg.red, fg.red, fg_a);
    bg.green = f(bg.green, fg.green, fg_a);
    bg.blue = f(bg.blue, fg.blue, fg_a);
}

/// Lays the translucent `fg` over the opaque `bg`, in place.
pub fn apply_overlay(bg: &mut Rgba8, fg: &Rgba8)
    ensures
        *final(bg) == overlay(*old(bg), *fg),
{
    apply2_alpha(bg, fg, |b: u8, c: u8, a: u8| -> (out: u8)
        ensures
            out == blended(b, c, a),
        { blend(b, c, a) });
}

} // verus!
