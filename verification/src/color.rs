//! The color model: four-channel pixels, luminance, the pure per-pixel
//! transforms, and the squared color distance used as a similarity metric.

use vstd::prelude::*;

verus! {

/// One image sample: four 8-bit channels, red, green, blue, alpha.
/// Alpha 0 means fully transparent; any other alpha is opaque.
#[derive(Clone, Copy, PartialEq, Eq, Structural, Debug)]
pub struct Pixel {
    pub r: u8,
    pub g: u8,
    pub b: u8,
    pub a: u8,
}

/// An opaque terminal color: red, green and blue only.
#[derive(Clone, Copy, PartialEq, Eq, Structural, Debug)]
pub struct Rgb {
    pub r: u8,
    pub g: u8,
    pub b: u8,
}

/// Perceptual luminance of a pixel: round(0.2126*R + 0.7152*G + 0.0722*B),
/// computed exactly over the integers with the weights scaled by 10000 and
/// ties rounded up.
pub open spec fn luminance_spec(p: Pixel) -> int {
    (2126 * p.r + 7152 * p.g + 722 * p.b + 5000) / 10000
}

/// The luminance is always a channel value: it lies in 0..=255.
pub proof fn lemma_luminance_bounded(p: Pixel)
    ensures
        0 <= luminance_spec(p) <= 255,
{
}

/// Every red, green and blue channel replaced by its complement; alpha kept.
pub open spec fn invert_spec(p: Pixel) -> Pixel {
    Pixel { r: (255 - p.r) as u8, g: (255 - p.g) as u8, b: (255 - p.b) as u8, a: p.a }
}

/// Red, green and blue all set to the pixel's luminance; alpha kept.
pub open spec fn grayscale_spec(p: Pixel) -> Pixel {
    Pixel {
        r: luminance_spec(p) as u8,
        g: luminance_spec(p) as u8,
        b: luminance_spec(p) as u8,
        a: p.a,
    }
}

/// Each color channel scaled by alpha/255 and truncated: the premultiplied
/// color that rendering uses, so transparent pixels read as black.
pub open spec fn premul_spec(p: Pixel) -> Rgb {
    Rgb {
        r: ((p.r * p.a) / 255) as u8,
        g: ((p.g * p.a) / 255) as u8,
        b: ((p.b * p.a) / 255) as u8,
    }
}

/// Squared Euclidean distance between two colors in RGB space.
pub open spec fn dist_sq_spec(a: Rgb, b: Rgb) -> int {
    (a.r - b.r) * (a.r - b.r) + (a.g - b.g) * (a.g - b.g) + (a.b - b.b) * (a.b - b.b)
}

/// The luminance of a pixel, used wherever brightness selects a glyph.
pub fn grayscale_value(pixel: Pixel) -> (gray: u8)
    ensures
        gray == luminance_spec(pixel),
{
    let num: u32 = 2126 * (pixel.r as u32) + 7152 * (pixel.g as u32) + 722 * (pixel.b as u32)
        + 5000;
    (num / 10000) as u8
}

/// Complement each color channel; alpha is unchanged.
pub fn invert(pixel: Pixel) -> (q: Pixel)
    ensures
        q == invert_spec(pixel),
{
    Pixel { r: 255 - pixel.r, g: 255 - pixel.g, b: 255 - pixel.b, a: pixel.a }
}

/// Applying invert twice gives the original pixel back.
pub proof fn lemma_invert_involution(p: Pixel)
    ensures
        invert_spec(invert_spec(p)) == p,
{
}

/// Replace red, green and blue by the pixel's luminance; alpha is unchanged.
pub fn grayscale(pixel: Pixel) -> (q: Pixel)
    ensures
        q == grayscale_spec(pixel),
{
    let gray = grayscale_value(pixel);
    Pixel { r: gray, g: gray, b: gray, a: pixel.a }
}

/// A pixel that is already gray keeps its gray level: graying twice is the
/// same as graying once.
pub proof fn lemma_grayscale_idempotent(p: Pixel)
    ensures
        grayscale_spec(grayscale_spec(p)) == grayscale_spec(p),
{
    let g = luminance_spec(p);
    assert((2126 * g + 7152 * g + 722 * g + 5000) / 10000 == g) by (nonlinear_arith)
        requires
            0 <= g <= 255,
    ;
}

/// The premultiplied color of a pixel: each channel scaled by alpha/255.
pub fn rgba_to_rgb(p: Pixel) -> (c: Rgb)
    ensures
        c == premul_spec(p),
{
    let a = p.a as u32;
    assert((p.r as int) * (p.a as int) <= 255 * 255) by (nonlinear_arith)
        requires
            p.r <= 255 && p.a <= 255,
    ;
    assert((p.g as int) * (p.a as int) <= 255 * 255) by (nonlinear_arith)
        requires
            p.g <= 255 && p.a <= 255,
    ;
    assert((p.b as int) * (p.a as int) <= 255 * 255) by (nonlinear_arith)
        requires
            p.b <= 255 && p.a <= 255,
    ;
    Rgb {
        r: ((p.r as u32 * a) / 255) as u8,
        g: ((p.g as u32 * a) / 255) as u8,
        b: ((p.b as u32 * a) / 255) as u8,
    }
}

/// True exactly when the pixel is fully transparent (alpha 0).
pub fn is_transparent(pixel: Pixel) -> (t: bool)
    ensures
        t == (pixel.a == 0),
{
    pixel.a == 0
}

/// The squared Euclidean color distance. Thresholds compare against a
/// squared tolerance, which orders distances exactly as the true distance
/// does.
pub fn color_distance_sq(a: Rgb, b: Rgb) -> (d: u32)
    ensures
        d == dist_sq_spec(a, b),
{
    let dr = channel_diff(a.r, b.r) as u32;
    let dg = channel_diff(a.g, b.g) as u32;
    let db = channel_diff(a.b, b.b) as u32;
    assert(dr * dr <= 255 * 255 && dg * dg <= 255 * 255 && db * db <= 255 * 255)
        by (nonlinear_arith)
        requires
            dr <= 255 && dg <= 255 && db <= 255,
    ;
    assert((dr as int) * (dr as int) == (a.r - b.r) * (a.r - b.r)) by (nonlinear_arith)
        requires
            dr == if a.r >= b.r { a.r - b.r } else { b.r - a.r },
    ;
    assert((dg as int) * (dg as int) == (a.g - b.g) * (a.g - b.g)) by (nonlinear_arith)
        requires
            dg == if a.g >= b.g { a.g - b.g } else { b.g - a.g },
    ;
    assert((db as int) * (db as int) == (a.b - b.b) * (a.b - b.b)) by (nonlinear_arith)
        requires
            db == if a.b >= b.b { a.b - b.b } else { b.b - a.b },
    ;
    dr * dr + dg * dg + db * db
}

/// Absolute difference of two channel values.
fn channel_diff(x: u8, y: u8) -> (d: u8)
    ensures
        d == if x >= y { x - y } else { y - x },
{
    if x >= y {
        x - y
    } else {
        y - x
    }
}

} // verus!
