//! The cell renderer and display driver: per-cell decisions for the simple
//! and half-block strategies, and the row-by-row rendering of a whole
//! image into styled lines.

use vstd::prelude::*;

use crate::color::Pixel;
use crate::color::dist_sq_spec;
use crate::color::premul_spec;
use crate::color::color_distance_sq;
use crate::color::is_transparent;
use crate::color::rgba_to_rgb;
use crate::emitter::Cell;
use crate::emitter::LineRenderer;
use crate::emitter::emit_cells;
use crate::emitter::row_output;
use crate::emitter::step;
use crate::raster::Image;
use crate::shade::ShadeMethod;
use crate::shade::shade;
use crate::shade::shade_spec;
use crate::shade::valid_shading;

verus! {

/// A rendering pass can fail only on a configuration whose ramp holds no
/// glyph at all.
#[derive(Clone, Copy, PartialEq, Eq, Structural, Debug)]
pub enum RenderError {
    EmptyRamp,
}

/// A pixel whose color channels are premultiplied by its alpha: what the
/// simple strategy shades, so a transparent pixel reads as black.
pub open spec fn premul_pixel_spec(p: Pixel) -> Pixel {
    Pixel { r: premul_spec(p).r, g: premul_spec(p).g, b: premul_spec(p).b, a: p.a }
}

/// The cell of the simple strategy: one pixel, shaded by the luminance of
/// its premultiplied color, colored with that premultiplied color, no
/// background.
pub open spec fn simple_cell_spec(p: Pixel, m: ShadeMethod) -> Cell {
    Cell { glyph: shade_spec(premul_pixel_spec(p), m), fg: premul_spec(p), bg: None }
}

/// The cell of the half-block strategy for a pair of vertically stacked
/// pixels, decided in priority order: both transparent gives a plain
/// space; near-identical premultiplied colors (squared distance under 100,
/// that is distance under 10) give a full block in the upper color; a
/// transparent partner gives the half block of the opaque one; otherwise
/// an upper half block over the lower color as background.
pub open spec fn half_cell_spec(upper: Pixel, lower: Pixel) -> Cell {
    let up = premul_spec(upper);
    let low = premul_spec(lower);
    if upper.a == 0 && lower.a == 0 {
        Cell { glyph: ' ', fg: up, bg: None }
    } else if dist_sq_spec(up, low) < 100 {
        Cell { glyph: '\u{2588}', fg: up, bg: None }
    } else if lower.a == 0 {
        Cell { glyph: '\u{2580}', fg: up, bg: None }
    } else if upper.a == 0 {
        Cell { glyph: '\u{2584}', fg: low, bg: None }
    } else {
        Cell { glyph: '\u{2580}', fg: up, bg: Some(low) }
    }
}

/// The cells of one output row under the simple strategy.
pub open spec fn simple_row(img: Image, y: int, m: ShadeMethod) -> Seq<Cell> {
    Seq::new(img.width as nat, |x: int| simple_cell_spec(img.pixel_at(x, y), m))
}

/// The cells of output row `y` under the half-block strategy: source rows
/// `2y` and `2y+1` packed together.
pub open spec fn half_row(img: Image, y: int) -> Seq<Cell> {
    Seq::new(
        img.width as nat,
        |x: int| half_cell_spec(img.pixel_at(x, 2 * y), img.pixel_at(x, 2 * y + 1)),
    )
}

/// Decides the glyph and colors of one half-block cell.
pub fn half_cell(upper: Pixel, lower: Pixel) -> (c: Cell)
    ensures
        c == half_cell_spec(upper, lower),
{
    let upper_is_transparent = is_transparent(upper);
    let lower_is_transparent = is_transparent(lower);
    let up = rgba_to_rgb(upper);
    let low = rgba_to_rgb(lower);
    if upper_is_transparent && lower_is_transparent {
        Cell { glyph: ' ', fg: up, bg: None }
    } else if color_distance_sq(up, low) < 100 {
        Cell { glyph: '\u{2588}', fg: up, bg: None }
    } else if lower_is_transparent {
        Cell { glyph: '\u{2580}', fg: up, bg: None }
    } else if upper_is_transparent {
        Cell { glyph: '\u{2584}', fg: low, bg: None }
    } else {
        Cell { glyph: '\u{2580}', fg: up, bg: Some(low) }
    }
}

/// Half-block symmetry: a pair with identical (premultiplied) colors, not
/// both transparent, always renders as a single full block in that one
/// color, never with a background. A pair that is identical but fully
/// transparent renders as a space instead.
pub proof fn lemma_half_block_symmetry(upper: Pixel, lower: Pixel)
    requires
        !(upper.a == 0 && lower.a == 0),
        dist_sq_spec(premul_spec(upper), premul_spec(lower)) == 0,
    ensures
        half_cell_spec(upper, lower).glyph == '\u{2588}',
        half_cell_spec(upper, lower).fg == premul_spec(upper),
        half_cell_spec(upper, lower).bg is None,
{
}

/// Half-block transparency: a fully transparent pair renders as a space
/// with no background color, whatever the color channels hold.
pub proof fn lemma_half_block_transparency(upper: Pixel, lower: Pixel)
    requires
        upper.a == 0,
        lower.a == 0,
    ensures
        half_cell_spec(upper, lower).glyph == ' ',
        half_cell_spec(upper, lower).bg is None,
{
}

/// Renders every image row as one output line under the simple strategy.
pub fn display_stream_simple(img: &Image, shading: &ShadeMethod) -> (lines: Vec<String>)
    requires
        img.wf(),
        !(shading is Half),
        valid_shading(*shading),
    ensures
        lines@.len() == img.height,
        forall|y: int|
            0 <= y < img.height ==> lines@[y]@ == row_output(simple_row(*img, y, *shading)),
{
    let mut lines: Vec<String> = Vec::new();
    let mut renderer = LineRenderer::new();
    let mut y: usize = 0;
    while y < img.height
        invariant
            img.wf(),
            !(shading is Half),
            valid_shading(*shading),
            y <= img.height,
            lines@.len() == y,
            forall|yy: int|
                0 <= yy < y ==> lines@[yy]@ == row_output(simple_row(*img, yy, *shading)),
            renderer.buffer@ == Seq::<char>::empty(),
            renderer.current_color is None,
            renderer.current_bg_color is None,
        decreases img.height - y,
    {
        let ghost row = simple_row(*img, y as int, *shading);
        let mut x: usize = 0;
        while x < img.width
            invariant
                img.wf(),
                !(shading is Half),
                valid_shading(*shading),
                y < img.height,
                x <= img.width,
                row == simple_row(*img, y as int, *shading),
                renderer.buffer@ == emit_cells(row.take(x as int)).buf,
                renderer.current_color == emit_cells(row.take(x as int)).fg,
                renderer.current_bg_color == emit_cells(row.take(x as int)).bg,
            decreases img.width - x,
        {
            let pixel = img.get_pixel(x, y);
            let fg = rgba_to_rgb(pixel);
            let chr = shade(Pixel { r: fg.r, g: fg.g, b: fg.b, a: pixel.a }, shading);
            renderer.add(chr, Some(fg), None);
            proof {
                let prefix = row.take(x as int);
                let prefix1 = row.take(x as int + 1);
                assert(prefix1.drop_last() =~= prefix);
                assert(prefix1.last() == row[x as int]);
                assert(emit_cells(prefix1) == step(emit_cells(prefix), row[x as int]));
            }
            x += 1;
        }
        proof {
            assert(row.take(img.width as int) =~= row);
        }
        let line = renderer.build();
        renderer.clear();
        lines.push(line);
        y += 1;
    }
    lines
}

/// Renders each pair of image rows as one output line under the
/// half-block strategy; a trailing unpaired row of an odd-height image is
/// dropped.
pub fn display_stream_half(img: &Image) -> (lines: Vec<String>)
    requires
        img.wf(),
    ensures
        lines@.len() == img.height / 2,
        forall|y: int| 0 <= y < img.height / 2 ==> lines@[y]@ == row_output(half_row(*img, y)),
{
    let rows = img.height / 2;
    let mut lines: Vec<String> = Vec::new();
    let mut renderer = LineRenderer::new();
    let mut y: usize = 0;
    while y < rows
        invariant
            img.wf(),
            rows == img.height / 2,
            y <= rows,
            lines@.len() == y,
            forall|yy: int| 0 <= yy < y ==> lines@[yy]@ == row_output(half_row(*img, yy)),
            renderer.buffer@ == Seq::<char>::empty(),
            renderer.current_color is None,
            renderer.current_bg_color is None,
        decreases rows - y,
    {
        let ghost row = half_row(*img, y as int);
        let mut x: usize = 0;
        while x < img.width
            invariant
                img.wf(),
                rows == img.height / 2,
                y < rows,
                x <= img.width,
                row == half_row(*img, y as int),
                renderer.buffer@ == emit_cells(row.take(x as int)).buf,
                renderer.current_color == emit_cells(row.take(x as int)).fg,
                renderer.current_bg_color == emit_cells(row.take(x as int)).bg,
            decreases img.width - x,
        {
            let upper = img.get_pixel(x, 2 * y);
            let lower = img.get_pixel(x, 2 * y + 1);
            let cell = half_cell(upper, lower);
            renderer.add(cell.glyph, Some(cell.fg), cell.bg);
            proof {
                let prefix = row.take(x as int);
                let prefix1 = row.take(x as int + 1);
                assert(prefix1.drop_last() =~= prefix);
                assert(prefix1.last() == row[x as int]);
                assert(emit_cells(prefix1) == step(emit_cells(prefix), row[x as int]));
            }
            x += 1;
        }
        proof {
            assert(row.take(img.width as int) =~= row);
        }
        let line = renderer.build();
        renderer.clear();
        lines.push(line);
        y += 1;
    }
    lines
}

/// Renders the whole image: one line per source row under the simple
/// strategies, one line per source row pair under the half-block
/// strategy. Fails exactly on a configuration whose ramp is empty, which
/// only a custom ramp can be.
pub fn display(img: &Image, shading: &ShadeMethod) -> (r: Result<Vec<String>, RenderError>)
    requires
        img.wf(),
    ensures
        r is Ok <==> valid_shading(*shading),
        r matches Err(e) ==> e == RenderError::EmptyRamp,
        r matches Ok(lines) ==> (if shading is Half {
            lines@.len() == img.height / 2 && (forall|y: int|
                0 <= y < img.height / 2 ==> lines@[y]@ == row_output(half_row(*img, y)))
        } else {
            lines@.len() == img.height && (forall|y: int|
                0 <= y < img.height ==> lines@[y]@ == row_output(simple_row(*img, y, *shading)))
        }),
{
    match shading {
        ShadeMethod::Half => Ok(display_stream_half(img)),
        _ => {
            let ramp = crate::shade::ramp_vec(shading);
            if ramp.len() == 0 {
                Err(RenderError::EmptyRamp)
            } else {
                Ok(display_stream_simple(img, shading))
            }
        },
    }
}

} // verus!
