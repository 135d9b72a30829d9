use termpic::emitter::bg_escape;
use termpic::emitter::fg_escape;
use termpic::emitter::LineRenderer;
use termpic::render::display;
use termpic::render::half_cell;
use termpic::render::RenderError;
use termpic::Image;
use termpic::Pixel;
use termpic::Rgb;
use termpic::ShadeMethod;

fn px(r: u8, g: u8, b: u8, a: u8) -> Pixel {
    Pixel { r, g, b, a }
}

#[test]
fn foreground_escape_sequence_bytes() {
    assert_eq!(fg_escape(Rgb { r: 1, g: 22, b: 255 }), "\u{1b}[38;2;1;22;255m");
    assert_eq!(fg_escape(Rgb { r: 0, g: 0, b: 0 }), "\u{1b}[38;2;0;0;0m");
}

#[test]
fn background_escape_sequence_bytes() {
    assert_eq!(bg_escape(Rgb { r: 200, g: 0, b: 7 }), "\u{1b}[48;2;200;0;7m");
}

#[test]
fn half_cell_identical_pair_is_full_block() {
    let c = half_cell(px(100, 100, 100, 255), px(100, 100, 100, 255));
    assert_eq!(c.glyph, '\u{2588}');
    assert_eq!(c.fg, Rgb { r: 100, g: 100, b: 100 });
    assert_eq!(c.bg, None);
}

#[test]
fn half_cell_near_colors_coalesce_to_full_block() {
    // squared distance 75, under the threshold of 100
    let c = half_cell(px(100, 100, 100, 255), px(105, 105, 105, 255));
    assert_eq!(c.glyph, '\u{2588}');
    assert_eq!(c.fg, Rgb { r: 100, g: 100, b: 100 });
    assert_eq!(c.bg, None);
}

#[test]
fn half_cell_threshold_is_strict() {
    // squared distance exactly 100 (distance 10): two colors are kept
    let c = half_cell(px(0, 0, 0, 255), px(6, 8, 0, 255));
    assert_eq!(c.glyph, '\u{2580}');
    assert_eq!(c.fg, Rgb { r: 0, g: 0, b: 0 });
    assert_eq!(c.bg, Some(Rgb { r: 6, g: 8, b: 0 }));
}

#[test]
fn half_cell_both_transparent_is_space_without_background() {
    let c = half_cell(px(200, 10, 30, 0), px(7, 7, 7, 0));
    assert_eq!(c.glyph, ' ');
    assert_eq!(c.bg, None);
}

#[test]
fn half_cell_transparent_lower_is_upper_half_block() {
    let c = half_cell(px(200, 0, 0, 255), px(9, 9, 9, 0));
    assert_eq!(c.glyph, '\u{2580}');
    assert_eq!(c.fg, Rgb { r: 200, g: 0, b: 0 });
    assert_eq!(c.bg, None);
}

#[test]
fn half_cell_transparent_upper_is_lower_half_block() {
    let c = half_cell(px(9, 9, 9, 0), px(0, 200, 0, 255));
    assert_eq!(c.glyph, '\u{2584}');
    assert_eq!(c.fg, Rgb { r: 0, g: 200, b: 0 });
    assert_eq!(c.bg, None);
}

#[test]
fn half_cell_distinct_opaque_pair_uses_background() {
    let c = half_cell(px(255, 255, 255, 255), px(0, 0, 0, 255));
    assert_eq!(c.glyph, '\u{2580}');
    assert_eq!(c.fg, Rgb { r: 255, g: 255, b: 255 });
    assert_eq!(c.bg, Some(Rgb { r: 0, g: 0, b: 0 }));
}

#[test]
fn half_render_of_white_over_black_rows() {
    // 2x2 image: white row over black row; one output line of two upper
    // half blocks, white foreground over black background, one style span
    let img = Image::new(
        2,
        2,
        vec![
            px(255, 255, 255, 255),
            px(255, 255, 255, 255),
            px(0, 0, 0, 255),
            px(0, 0, 0, 255),
        ],
    )
    .unwrap();
    let lines = display(&img, &ShadeMethod::Half).unwrap();
    assert_eq!(lines.len(), 1);
    assert_eq!(
        lines[0],
        "\u{1b}[38;2;255;255;255m\u{1b}[48;2;0;0;0m\u{2580}\u{2580}\u{1b}[0m"
    );
}

#[test]
fn simple_render_of_transparent_pixel_is_darkest_glyph() {
    // premultiplied black, luminance 0: darkest ramp glyph, black foreground
    let img = Image::new(1, 1, vec![px(123, 45, 67, 0)]).unwrap();
    let lines = display(&img, &ShadeMethod::Ascii).unwrap();
    assert_eq!(lines, vec![String::from("\u{1b}[38;2;0;0;0m \u{1b}[0m")]);
    let img2 = Image::new(1, 1, vec![px(123, 45, 67, 0)]).unwrap();
    let lines2 = display(&img2, &ShadeMethod::Blocks).unwrap();
    assert_eq!(lines2, vec![String::from("\u{1b}[38;2;0;0;0m \u{1b}[0m")]);
}

#[test]
fn uniform_row_emits_one_style_span() {
    // three white pixels: one foreground escape, three glyphs, one reset
    let img = Image::new(3, 1, vec![px(255, 255, 255, 255); 3]).unwrap();
    let lines = display(&img, &ShadeMethod::Ascii).unwrap();
    assert_eq!(lines, vec![String::from("\u{1b}[38;2;255;255;255m@@@\u{1b}[0m")]);
}

#[test]
fn two_runs_emit_two_style_spans() {
    // white then black: a reset closes the first span, then a new foreground
    let img = Image::new(2, 1, vec![px(255, 255, 255, 255), px(0, 0, 0, 255)]).unwrap();
    let lines = display(&img, &ShadeMethod::Ascii).unwrap();
    assert_eq!(
        lines,
        vec![String::from(
            "\u{1b}[38;2;255;255;255m@\u{1b}[0m\u{1b}[38;2;0;0;0m \u{1b}[0m"
        )]
    );
}

#[test]
fn rows_render_independently() {
    // two rows of one pixel each: two lines, each reset-terminated
    let img = Image::new(1, 2, vec![px(255, 255, 255, 255), px(255, 255, 255, 255)]).unwrap();
    let lines = display(&img, &ShadeMethod::Ascii).unwrap();
    assert_eq!(lines.len(), 2);
    assert_eq!(lines[0], "\u{1b}[38;2;255;255;255m@\u{1b}[0m");
    assert_eq!(lines[1], "\u{1b}[38;2;255;255;255m@\u{1b}[0m");
}

#[test]
fn empty_custom_ramp_is_rejected() {
    let img = Image::new(1, 1, vec![px(0, 0, 0, 255)]).unwrap();
    assert_eq!(
        display(&img, &ShadeMethod::Custom(None)),
        Err(RenderError::EmptyRamp)
    );
    let img2 = Image::new(1, 1, vec![px(0, 0, 0, 255)]).unwrap();
    assert_eq!(
        display(&img2, &ShadeMethod::Custom(Some(String::new()))),
        Err(RenderError::EmptyRamp)
    );
}

#[test]
fn custom_ramp_renders() {
    let img = Image::new(2, 1, vec![px(0, 0, 0, 255), px(255, 255, 255, 255)]).unwrap();
    let lines = display(&img, &ShadeMethod::Custom(Some(String::from(".#")))).unwrap();
    assert_eq!(
        lines,
        vec![String::from(
            "\u{1b}[38;2;0;0;0m.\u{1b}[0m\u{1b}[38;2;255;255;255m#\u{1b}[0m"
        )]
    );
}

#[test]
fn half_render_drops_trailing_unpaired_row() {
    let img = Image::new(
        1,
        3,
        vec![px(10, 10, 10, 255), px(10, 10, 10, 255), px(99, 99, 99, 255)],
    )
    .unwrap();
    let lines = display(&img, &ShadeMethod::Half).unwrap();
    assert_eq!(lines.len(), 1);
    assert_eq!(lines[0], "\u{1b}[38;2;10;10;10m\u{2588}\u{1b}[0m");
}

#[test]
fn half_render_of_single_row_is_empty() {
    let img = Image::new(2, 1, vec![px(1, 2, 3, 255), px(4, 5, 6, 255)]).unwrap();
    let lines = display(&img, &ShadeMethod::Half).unwrap();
    assert!(lines.is_empty());
}

#[test]
fn emitter_coalesces_and_resets_by_hand() {
    let mut renderer = LineRenderer::new();
    let white = Rgb { r: 255, g: 255, b: 255 };
    renderer.add('a', Some(white), None);
    renderer.add('b', Some(white), None);
    let line = renderer.build();
    assert_eq!(line, "\u{1b}[38;2;255;255;255mab\u{1b}[0m");
    renderer.clear();
    renderer.add('c', Some(white), Some(Rgb { r: 1, g: 2, b: 3 }));
    let line2 = renderer.build();
    assert_eq!(line2, "\u{1b}[38;2;255;255;255m\u{1b}[48;2;1;2;3mc\u{1b}[0m");
}
