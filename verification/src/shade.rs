//! The shade mapper: shading methods, their glyph ramps, and the mapping
//! from a pixel's luminance to a ramp character.

use vstd::prelude::*;

use crate::color::Pixel;
use crate::color::grayscale_value;
use crate::color::luminance_spec;

verus! {

/// How pixels are turned into glyphs: a fixed ramp by name, the cell-level
/// half-block strategy, or a caller-supplied ramp.
#[derive(Clone, Debug)]
pub enum ShadeMethod {
    Ascii,
    Blocks,
    Half,
    Custom(Option<String>),
}

impl ShadeMethod {
    /// How many source rows one output row consumes: two for the half-block
    /// strategy, one otherwise.
    pub fn height_multiplier(&self) -> (m: u32)
        ensures
            m == if self is Half {
                2int
            } else {
                1int
            },
    {
        match self {
            ShadeMethod::Half => 2,
            _ => 1,
        }
    }
}

/// The fixed ascii ramp, darkest to lightest: " .-:=+*#%@".
pub open spec fn ascii_ramp() -> Seq<char> {
    seq![' ', '.', '-', ':', '=', '+', '*', '#', '%', '@']
}

/// The fixed block-element ramp, darkest to lightest: space, light, medium
/// and dark shade, full block.
pub open spec fn blocks_ramp() -> Seq<char> {
    seq![' ', '\u{2591}', '\u{2592}', '\u{2593}', '\u{2588}']
}

/// The glyph vocabulary of the half-block strategy: space, lower half,
/// upper half, full block. It is a cell-level glyph set, not a shading
/// ramp.
pub open spec fn half_ramp() -> Seq<char> {
    seq![' ', '\u{2584}', '\u{2580}', '\u{2588}']
}

/// The ramp a shading method draws glyphs from.
pub open spec fn ramp_of(m: ShadeMethod) -> Seq<char> {
    match m {
        ShadeMethod::Ascii => ascii_ramp(),
        ShadeMethod::Blocks => blocks_ramp(),
        ShadeMethod::Half => half_ramp(),
        ShadeMethod::Custom(o) => match o {
            Some(s) => s@,
            None => Seq::empty(),
        },
    }
}

/// A method may render when its ramp has at least one glyph; only a custom
/// ramp can be empty.
pub open spec fn valid_shading(m: ShadeMethod) -> bool {
    ramp_of(m).len() > 0
}

/// The ramp index a luminance value selects: floor(gray * len / 255),
/// clamped to the last glyph where the quotient would run off the end
/// (which happens only at luminance 255).
pub open spec fn shade_index(gray: int, len: int) -> int {
    if gray * len / 255 >= len {
        len - 1
    } else {
        gray * len / 255
    }
}

/// The glyph a pixel selects under a shading method.
pub open spec fn shade_spec(p: Pixel, m: ShadeMethod) -> char {
    ramp_of(m)[shade_index(luminance_spec(p), ramp_of(m).len() as int)]
}

/// The glyphs of a method's ramp as a vector, darkest to lightest: the
/// explicit ramp lookup behind the shade mapper.
pub fn ramp_vec(m: &ShadeMethod) -> (v: Vec<char>)
    ensures
        v@ == ramp_of(*m),
{
    match m {
        ShadeMethod::Ascii => {
            let mut v: Vec<char> = Vec::new();
            v.push(' ');
            v.push('.');
            v.push('-');
            v.push(':');
            v.push('=');
            v.push('+');
            v.push('*');
            v.push('#');
            v.push('%');
            v.push('@');
            proof {
                assert(v@ =~= ascii_ramp());
            }
            v
        },
        ShadeMethod::Blocks => {
            let mut v: Vec<char> = Vec::new();
            v.push(' ');
            v.push('\u{2591}');
            v.push('\u{2592}');
            v.push('\u{2593}');
            v.push('\u{2588}');
            proof {
                assert(v@ =~= blocks_ramp());
            }
            v
        },
        ShadeMethod::Half => {
            let mut v: Vec<char> = Vec::new();
            v.push(' ');
            v.push('\u{2584}');
            v.push('\u{2580}');
            v.push('\u{2588}');
            proof {
                assert(v@ =~= half_ramp());
            }
            v
        },
        ShadeMethod::Custom(o) => {
            match o {
                Some(s) => {
                    let n = s.as_str().unicode_len();
                    let mut v: Vec<char> = Vec::new();
                    let mut i: usize = 0;
                    while i < n
                        invariant
                            n == s@.len(),
                            i <= n,
                            v@ =~= s@.take(i as int),
                        decreases n - i,
                    {
                        v.push(s.as_str().get_char(i));
                        proof {
                            assert(v@ =~= s@.take(i + 1));
                        }
                        i += 1;
                    }
                    proof {
                        assert(s@.take(n as int) =~= s@);
                    }
                    v
                },
                None => Vec::new(),
            }
        },
    }
}

/// Maps one pixel to a glyph of the method's ramp by its luminance. The
/// half-block strategy is cell-level and must not reach this function, and
/// the ramp must be non-empty.
pub fn shade(pixel: Pixel, shade_method: &ShadeMethod) -> (glyph: char)
    requires
        !(shade_method is Half),
        valid_shading(*shade_method),
    ensures
        glyph == shade_spec(pixel, *shade_method),
{
    let ramp = ramp_vec(shade_method);
    let gray = grayscale_value(pixel);
    let len = ramp.len();
    assert((gray as u128) * (len as u128) <= 255 * 0xffff_ffff_ffff_ffff) by (nonlinear_arith)
        requires
            gray <= 255 && len <= 0xffff_ffff_ffff_ffffu128,
    ;
    let unclamped: u128 = (gray as u128) * (len as u128) / 255;
    let idx: usize = if unclamped >= len as u128 {
        len - 1
    } else {
        unclamped as usize
    };
    assert(idx == shade_index(luminance_spec(pixel), ramp_of(*shade_method).len() as int));
    ramp[idx]
}

/// Shade monotonicity: a brighter luminance never selects an earlier
/// (darker) ramp index than a dimmer one.
pub proof fn lemma_shade_monotonic(g1: int, g2: int, len: int)
    requires
        0 <= g1 <= g2 <= 255,
        1 <= len,
    ensures
        shade_index(g1, len) <= shade_index(g2, len),
{
    assert(g1 * len <= g2 * len) by (nonlinear_arith)
        requires
            g1 <= g2 && len >= 0,
    ;
    assert(g1 * len / 255 <= g2 * len / 255) by (nonlinear_arith)
        requires
            g1 * len <= g2 * len,
    ;
    assert(g1 * len / 255 <= len) by (nonlinear_arith)
        requires
            0 <= g1 <= 255 && len >= 1,
    ;
}

/// Ramp boundaries: luminance 0 selects the first glyph, luminance 255 the
/// last, and every luminance selects an index inside the ramp.
pub proof fn lemma_shade_boundary(gray: int, len: int)
    requires
        0 <= gray <= 255,
        1 <= len,
    ensures
        0 <= shade_index(gray, len) < len,
        shade_index(0, len) == 0,
        shade_index(255, len) == len - 1,
{
    assert(0 * len / 255 == 0) by (nonlinear_arith)
        requires
            len >= 1,
    ;
    assert(255 * len / 255 == len) by (nonlinear_arith)
        requires
            len >= 1,
    ;
    assert(0 <= gray * len / 255) by (nonlinear_arith)
        requires
            0 <= gray && 0 <= len,
    ;
}

} // verus!
