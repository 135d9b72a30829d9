//! The image grid: a row-major buffer of pixels with its dimensions, the
//! whole-image transforms, and the delegated brightness and hue-rotation
//! passes of the image-processing crate.

use vstd::prelude::*;

use crate::color::Pixel;
use crate::color::Rgb;
use crate::color::dist_sq_spec;
use crate::color::invert;
use crate::color::invert_spec;
use crate::color::grayscale;
use crate::color::grayscale_spec;
use crate::color::premul_spec;
use crate::color::rgba_to_rgb;
use crate::color::color_distance_sq;

verus! {

/// A decoded image: a width x height grid of pixels, row-major, origin at
/// the top left.
pub struct Image {
    pub width: usize,
    pub height: usize,
    pub pixels: Vec<Pixel>,
}

impl Image {
    /// The buffer holds exactly one pixel per grid position.
    pub open spec fn wf(self) -> bool {
        self.pixels@.len() == self.width * self.height
    }

    /// The pixel in column `x` of row `y`.
    pub open spec fn pixel_at(self, x: int, y: int) -> Pixel {
        self.pixels@[y * self.width + x]
    }

    /// Builds an image from a pixel buffer; rejects a buffer whose length
    /// does not match the dimensions.
    pub fn new(width: usize, height: usize, pixels: Vec<Pixel>) -> (r: Option<Image>)
        ensures
            r is Some <==> pixels@.len() == width * height,
            r matches Some(img) ==> img.wf() && img.width == width && img.height == height
                && img.pixels@ == pixels@,
    {
        let len = pixels.len();
        match width.checked_mul(height) {
            Some(n) => {
                if len == n {
                    Some(Image { width, height, pixels })
                } else {
                    None
                }
            },
            None => None,
        }
    }

    /// Reads one pixel of the grid.
    pub fn get_pixel(&self, x: usize, y: usize) -> (p: Pixel)
        requires
            self.wf(),
            x < self.width,
            y < self.height,
        ensures
            p == self.pixel_at(x as int, y as int),
    {
        let len = self.pixels.len();
        proof {
            lemma_row_major_index_in_range(self.width as int, self.height as int, x as int, y as int);
        }
        assert(y * self.width + x < len);
        self.pixels[y * self.width + x]
    }
}

/// A row-major index stays inside the buffer.
#[verifier::nonlinear]
pub proof fn lemma_row_major_index_in_range(width: int, height: int, x: int, y: int)
    requires
        0 <= x < width,
        0 <= y < height,
    ensures
        0 <= y * width + x < width * height,
{
}

/// The pixel that background removal leaves at a position: fully
/// transparent when the premultiplied color lies strictly within the
/// tolerance of the key color, unchanged otherwise.
pub open spec fn removed_pixel(p: Pixel, key: Rgb, tolerance: int) -> Pixel {
    if dist_sq_spec(premul_spec(p), key) < tolerance * tolerance {
        Pixel { r: 0, g: 0, b: 0, a: 0 }
    } else {
        p
    }
}

/// Inverts every pixel of the image in place.
pub fn invert_img(img: &mut Image)
    requires
        old(img).wf(),
    ensures
        final(img).wf(),
        final(img).width == old(img).width,
        final(img).height == old(img).height,
        final(img).pixels@.len() == old(img).pixels@.len(),
        forall|i: int|
            0 <= i < old(img).pixels@.len() ==> final(img).pixels@[i] == invert_spec(
                old(img).pixels@[i],
            ),
{
    let n = img.pixels.len();
    let mut i: usize = 0;
    while i < n
        invariant
            n == img.pixels@.len(),
            n == old(img).pixels@.len(),
            i <= n,
            img.width == old(img).width,
            img.height == old(img).height,
            forall|j: int| 0 <= j < i ==> img.pixels@[j] == invert_spec(old(img).pixels@[j]),
            forall|j: int| i <= j < n ==> img.pixels@[j] == old(img).pixels@[j],
        decreases n - i,
    {
        let p = img.pixels[i];
        img.pixels.set(i, invert(p));
        i += 1;
    }
}

/// Grays every pixel of the image in place.
pub fn grayscale_img(img: &mut Image)
    requires
        old(img).wf(),
    ensures
        final(img).wf(),
        final(img).width == old(img).width,
        final(img).height == old(img).height,
        final(img).pixels@.len() == old(img).pixels@.len(),
        forall|i: int|
            0 <= i < old(img).pixels@.len() ==> final(img).pixels@[i] == grayscale_spec(
                old(img).pixels@[i],
            ),
{
    let n = img.pixels.len();
    let mut i: usize = 0;
    while i < n
        invariant
            n == img.pixels@.len(),
            n == old(img).pixels@.len(),
            i <= n,
            img.width == old(img).width,
            img.height == old(img).height,
            forall|j: int| 0 <= j < i ==> img.pixels@[j] == grayscale_spec(old(img).pixels@[j]),
            forall|j: int| i <= j < n ==> img.pixels@[j] == old(img).pixels@[j],
        decreases n - i,
    {
        let p = img.pixels[i];
        img.pixels.set(i, grayscale(p));
        i += 1;
    }
}

/// Makes every pixel whose premultiplied color lies strictly within
/// `rm_tolerance` of `rm_bg_color` fully transparent; each pixel is decided
/// independently.
pub fn remove_bg_color(img: &mut Image, rm_bg_color: Rgb, rm_tolerance: u32)
    requires
        old(img).wf(),
    ensures
        final(img).wf(),
        final(img).width == old(img).width,
        final(img).height == old(img).height,
        final(img).pixels@.len() == old(img).pixels@.len(),
        forall|i: int|
            0 <= i < old(img).pixels@.len() ==> final(img).pixels@[i] == removed_pixel(
                old(img).pixels@[i],
                rm_bg_color,
                rm_tolerance as int,
            ),
{
    let tol = rm_tolerance as u64;
    assert(tol * tol <= 0xffff_ffff * 0xffff_ffff) by (nonlinear_arith)
        requires
            tol <= 0xffff_ffff,
    ;
    let tol_sq: u64 = tol * tol;
    let n = img.pixels.len();
    let mut i: usize = 0;
    while i < n
        invariant
            n == img.pixels@.len(),
            n == old(img).pixels@.len(),
            i <= n,
            img.width == old(img).width,
            img.height == old(img).height,
            tol_sq == (rm_tolerance as int) * (rm_tolerance as int),
            forall|j: int|
                0 <= j < i ==> img.pixels@[j] == removed_pixel(
                    old(img).pixels@[j],
                    rm_bg_color,
                    rm_tolerance as int,
                ),
            forall|j: int| i <= j < n ==> img.pixels@[j] == old(img).pixels@[j],
        decreases n - i,
    {
        let p = img.pixels[i];
        let d = color_distance_sq(rgba_to_rgb(p), rm_bg_color);
        if (d as u64) < tol_sq {
            img.pixels.set(i, Pixel { r: 0, g: 0, b: 0, a: 0 });
        }
        i += 1;
    }
}

/// The channel value that the brightness pass leaves: the offset added with
/// saturation at the ends of the channel range.
pub open spec fn clamp_channel(v: int) -> u8 {
    if v < 0 {
        0
    } else if v > 255 {
        255
    } else {
        v as u8
    }
}

/// The pixel that the brightness pass leaves: every color channel moved by
/// `value` with saturation, alpha kept.
pub open spec fn brightened_pixel(p: Pixel, value: int) -> Pixel {
    Pixel {
        r: clamp_channel(p.r + value),
        g: clamp_channel(p.g + value),
        b: clamp_channel(p.b + value),
        a: p.a,
    }
}

/// Relies on image::imageops::brighten: it adds `value` to each red, green
/// and blue channel, saturating at 0 and 255, leaves alpha unchanged, and
/// keeps the dimensions. The crate forms `channel + value` in 32-bit
/// arithmetic before clamping, so `value` must leave room for a channel of
/// 255 or that addition overflows.
#[verifier::external_body]
fn brighten_call(img: &Image, value: i32) -> (out: Image)
    requires
        img.wf(),
        img.width <= 0xffff_ffff,
        img.height <= 0xffff_ffff,
        value <= i32::MAX - 255,
    ensures
        out.width == img.width,
        out.height == img.height,
        out.pixels@.len() == img.pixels@.len(),
        forall|i: int|
            0 <= i < img.pixels@.len() ==> out.pixels@[i] == brightened_pixel(
                img.pixels@[i],
                value as int,
            ),
{
    let buf = image::RgbaImage::from_fn(img.width as u32, img.height as u32, |x, y| {
        let p = img.pixels[(y as usize) * img.width + (x as usize)];
        image::Rgba([p.r, p.g, p.b, p.a])
    });
    let out = image::imageops::brighten(&buf, value);
    let pixels = out.pixels().map(|q| Pixel { r: q.0[0], g: q.0[1], b: q.0[2], a: q.0[3] }).collect();
    Image { width: img.width, height: img.height, pixels }
}

/// Relies on image::imageops::huerotate: it rotates each pixel's hue by the
/// given number of degrees, keeps the dimensions and leaves every alpha
/// value unchanged.
#[verifier::external_body]
fn huerotate_call(img: &Image, value: i32) -> (out: Image)
    requires
        img.wf(),
        img.width <= 0xffff_ffff,
        img.height <= 0xffff_ffff,
    ensures
        out.width == img.width,
        out.height == img.height,
        out.pixels@.len() == img.pixels@.len(),
        forall|i: int| 0 <= i < img.pixels@.len() ==> out.pixels@[i].a == img.pixels@[i].a,
{
    let buf = image::RgbaImage::from_fn(img.width as u32, img.height as u32, |x, y| {
        let p = img.pixels[(y as usize) * img.width + (x as usize)];
        image::Rgba([p.r, p.g, p.b, p.a])
    });
    let out = image::imageops::huerotate(&buf, value);
    let pixels = out.pixels().map(|q| Pixel { r: q.0[0], g: q.0[1], b: q.0[2], a: q.0[3] }).collect();
    Image { width: img.width, height: img.height, pixels }
}

/// Moves every color channel of the image by `value` with saturation,
/// delegated to the image-processing crate; alpha and dimensions are kept.
/// `value` must leave room for a channel of 255 in 32-bit arithmetic; a
/// larger offset saturates every channel anyway, so callers can clamp it
/// to the bound without changing the result.
pub fn brightness_img(img: &mut Image, value: i32)
    requires
        old(img).wf(),
        old(img).width <= 0xffff_ffff,
        old(img).height <= 0xffff_ffff,
        value <= i32::MAX - 255,
    ensures
        final(img).wf(),
        final(img).width == old(img).width,
        final(img).height == old(img).height,
        forall|i: int|
            0 <= i < old(img).pixels@.len() ==> final(img).pixels@[i] == brightened_pixel(
                old(img).pixels@[i],
                value as int,
            ),
{
    *img = brighten_call(img, value);
}

/// Rotates the hue of every pixel by `value` degrees, delegated to the
/// image-processing crate; alpha and dimensions are kept.
pub fn hue_rotate_img(img: &mut Image, value: i32)
    requires
        old(img).wf(),
        old(img).width <= 0xffff_ffff,
        old(img).height <= 0xffff_ffff,
    ensures
        final(img).wf(),
        final(img).width == old(img).width,
        final(img).height == old(img).height,
        forall|i: int|
            0 <= i < old(img).pixels@.len() ==> final(img).pixels@[i].a == old(img).pixels@[i].a,
{
    *img = huerotate_call(img, value);
}

} // verus!
