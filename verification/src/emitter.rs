//! The line emitter: ANSI truecolor escape sequences and the per-row
//! accumulator that coalesces consecutive cells sharing a style into one
//! pair of escape sequences.

use vstd::prelude::*;

use crate::color::Rgb;

verus! {

/// One unit of output: a glyph, its mandatory foreground color, and an
/// optional background color.
#[derive(Clone, Copy, PartialEq, Eq, Structural, Debug)]
pub struct Cell {
    pub glyph: char,
    pub fg: Rgb,
    pub bg: Option<Rgb>,
}

/// The escape character that introduces every ANSI sequence.
pub open spec fn esc() -> char {
    '\u{1b}'
}

/// The full style reset sequence, ESC[0m.
pub open spec fn reset_seq() -> Seq<char> {
    seq![esc(), '[', '0', 'm']
}

/// The decimal digit character for one digit value.
pub open spec fn digit_char(d: int) -> char {
    if d == 0 {
        '0'
    } else if d == 1 {
        '1'
    } else if d == 2 {
        '2'
    } else if d == 3 {
        '3'
    } else if d == 4 {
        '4'
    } else if d == 5 {
        '5'
    } else if d == 6 {
        '6'
    } else if d == 7 {
        '7'
    } else if d == 8 {
        '8'
    } else {
        '9'
    }
}

/// The decimal digits of a non-negative number, most significant first.
pub open spec fn dec_seq(n: int) -> Seq<char>
    decreases n,
{
    if n < 10 {
        seq![digit_char(n)]
    } else {
        dec_seq(n / 10).push(digit_char(n % 10))
    }
}

/// The truecolor set-foreground sequence, ESC[38;2;R;G;Bm.
pub open spec fn fg_seq(c: Rgb) -> Seq<char> {
    seq![esc(), '[', '3', '8', ';', '2', ';'] + dec_seq(c.r as int) + seq![';'] + dec_seq(
        c.g as int,
    ) + seq![';'] + dec_seq(c.b as int) + seq!['m']
}

/// The truecolor set-background sequence, ESC[48;2;R;G;Bm.
pub open spec fn bg_seq(c: Rgb) -> Seq<char> {
    seq![esc(), '[', '4', '8', ';', '2', ';'] + dec_seq(c.r as int) + seq![';'] + dec_seq(
        c.g as int,
    ) + seq![';'] + dec_seq(c.b as int) + seq!['m']
}

/// What one `add` call appends for a cell, given the last-emitted colors
/// and whether anything was emitted yet: a reset when the style pair
/// changes mid-row, then the escape for each color that differs from the
/// last-emitted one, then the glyph.
pub open spec fn add_emits(
    fg0: Option<Rgb>,
    bg0: Option<Rgb>,
    nonempty: bool,
    chr: char,
    color: Option<Rgb>,
    bg_color: Option<Rgb>,
) -> Seq<char> {
    (if (fg0 != color || bg0 != bg_color) && nonempty {
        reset_seq()
    } else {
        Seq::empty()
    }) + (if color is Some && fg0 != color {
        fg_seq(color->0)
    } else {
        Seq::empty()
    }) + (if bg_color is Some && bg0 != bg_color {
        bg_seq(bg_color->0)
    } else {
        Seq::empty()
    }) + seq![chr]
}

/// The last-emitted foreground after an `add` call.
pub open spec fn next_fg(fg0: Option<Rgb>, color: Option<Rgb>) -> Option<Rgb> {
    if color is Some && fg0 != color {
        color
    } else {
        fg0
    }
}

/// The last-emitted background after an `add` call.
pub open spec fn next_bg(bg0: Option<Rgb>, bg_color: Option<Rgb>) -> Option<Rgb> {
    if bg_color is Some && bg0 != bg_color {
        bg_color
    } else {
        bg0
    }
}

/// The emitter's abstract state: what was emitted so far and the
/// last-emitted color pair.
pub struct EmitState {
    pub buf: Seq<char>,
    pub fg: Option<Rgb>,
    pub bg: Option<Rgb>,
}

/// The state at the start of a row: nothing emitted, no colors set.
pub open spec fn init_state() -> EmitState {
    EmitState { buf: Seq::empty(), fg: None, bg: None }
}

/// One cell fed to the emitter.
pub open spec fn step(st: EmitState, cell: Cell) -> EmitState {
    EmitState {
        buf: st.buf + add_emits(st.fg, st.bg, st.buf.len() > 0, cell.glyph, Some(cell.fg), cell.bg),
        fg: next_fg(st.fg, Some(cell.fg)),
        bg: next_bg(st.bg, cell.bg),
    }
}

/// The emitter's state after a whole row of cells, fed left to right.
pub open spec fn emit_cells(cells: Seq<Cell>) -> EmitState
    decreases cells.len(),
{
    if cells.len() == 0 {
        init_state()
    } else {
        step(emit_cells(cells.drop_last()), cells.last())
    }
}

/// The finished text of a row: everything the cells emitted, closed by a
/// trailing style reset.
pub open spec fn row_output(cells: Seq<Cell>) -> Seq<char> {
    emit_cells(cells).buf + reset_seq()
}

/// The glyphs of a row of cells, in order.
pub open spec fn glyphs(cells: Seq<Cell>) -> Seq<char> {
    cells.map_values(|c: Cell| c.glyph)
}

/// What the emitter appends for cell `i` of a row fed left to right.
pub open spec fn cell_emission(cells: Seq<Cell>, i: int) -> Seq<char> {
    let st = emit_cells(cells.take(i));
    add_emits(st.fg, st.bg, st.buf.len() > 0, cells[i].glyph, Some(cells[i].fg), cells[i].bg)
}

/// A style-change point: a cell at which the emitter writes one or more
/// escape sequences before the glyph, rather than the bare glyph.
pub open spec fn is_style_point(cells: Seq<Cell>, i: int) -> bool {
    cell_emission(cells, i).len() > 1
}

/// Either every cell of the row carries a background color or none does.
/// Rows of the simple strategy have no backgrounds at all; rows that mix
/// cells with and without a background can make the emitter repeat a
/// reset, because a background, once emitted, is only ever cleared by the
/// reset of a later style change.
pub open spec fn uniform_bg(cells: Seq<Cell>) -> bool {
    (forall|i: int| 0 <= i < cells.len() ==> cells[i].bg is Some) || (forall|i: int|
        0 <= i < cells.len() ==> cells[i].bg is None)
}

/// After a non-empty uniform row the emitter's last-emitted pair is
/// exactly the pair of the last cell, and something stands in the buffer.
pub proof fn lemma_emitter_state(cells: Seq<Cell>)
    requires
        cells.len() >= 1,
        uniform_bg(cells),
    ensures
        emit_cells(cells).fg == Some(cells.last().fg),
        emit_cells(cells).bg == cells.last().bg,
        emit_cells(cells).buf.len() >= 1,
    decreases cells.len(),
{
    if cells.len() > 1 {
        let prefix = cells.drop_last();
        assert(uniform_bg(prefix)) by {
            assert(forall|i: int| 0 <= i < prefix.len() ==> prefix[i] == cells[i]);
        }
        lemma_emitter_state(prefix);
        let last = cells.last();
        let penult = cells[cells.len() - 2];
        assert(prefix.last() == penult);
        if last.bg is None {
            assert(!(cells[cells.len() - 1].bg is Some));
            assert(penult.bg is None);
        }
    } else {
        assert(cells.drop_last().len() == 0);
        assert(emit_cells(cells.drop_last()) == init_state());
    }
}

/// Emitter span count: in a uniform row, the cells at which escape
/// sequences are written are exactly the first cell and the cells whose
/// (foreground, background) pair differs from their left neighbour's; that
/// is, the starts of the row's maximal constant-style runs. Every other
/// cell contributes its bare glyph, and the row's only other styling is
/// the single trailing reset that `row_output` appends.
pub proof fn lemma_emitter_span_points(cells: Seq<Cell>, i: int)
    requires
        uniform_bg(cells),
        0 <= i < cells.len(),
    ensures
        is_style_point(cells, i) <==> (i == 0 || cells[i].fg != cells[i - 1].fg || cells[i].bg
            != cells[i - 1].bg),
        !is_style_point(cells, i) ==> cell_emission(cells, i) == seq![cells[i].glyph],
{
    let prefix = cells.take(i);
    if i == 0 {
        assert(prefix.len() == 0);
        assert(emit_cells(prefix) == init_state());
    } else {
        assert(uniform_bg(prefix)) by {
            assert(forall|j: int| 0 <= j < prefix.len() ==> prefix[j] == cells[j]);
        }
        lemma_emitter_state(prefix);
        assert(prefix.last() == cells[i - 1]);
        let st = emit_cells(prefix);
        if cells[i].fg == cells[i - 1].fg && cells[i].bg == cells[i - 1].bg {
            assert(cell_emission(cells, i) =~= seq![cells[i].glyph]);
        }
    }
}

/// The number of style-change points among the first `k` cells of a row.
pub open spec fn style_point_count(cells: Seq<Cell>, k: int) -> int
    decreases k,
{
    if k <= 0 {
        0
    } else {
        style_point_count(cells, k - 1) + if is_style_point(cells, k - 1) {
            1int
        } else {
            0int
        }
    }
}

/// The number of maximal runs of constant (foreground, background) among
/// the first `k` cells of a row: one for the first cell and one for every
/// cell whose pair differs from its left neighbour's.
pub open spec fn run_count(cells: Seq<Cell>, k: int) -> int
    decreases k,
{
    if k <= 0 {
        0
    } else {
        run_count(cells, k - 1) + if k - 1 == 0 || cells[k - 1].fg != cells[k - 2].fg || cells[k
            - 1].bg != cells[k - 2].bg {
            1int
        } else {
            0int
        }
    }
}

proof fn lemma_span_count_prefix(cells: Seq<Cell>, k: int)
    requires
        uniform_bg(cells),
        0 <= k <= cells.len(),
    ensures
        style_point_count(cells, k) == run_count(cells, k),
    decreases k,
{
    if k > 0 {
        lemma_span_count_prefix(cells, k - 1);
        lemma_emitter_span_points(cells, k - 1);
    }
}

/// Emitter span count, counted: in a uniform row with K maximal runs of
/// constant (foreground, background), the emitter writes escape sequences
/// at exactly K cells; the only styling besides those is the one trailing
/// reset that `row_output` appends.
pub proof fn lemma_emitter_span_count(cells: Seq<Cell>)
    requires
        uniform_bg(cells),
    ensures
        style_point_count(cells, cells.len() as int) == run_count(cells, cells.len() as int),
{
    lemma_span_count_prefix(cells, cells.len() as int);
}

/// The emitted text for a uniform row, without the trailing reset: one
/// set-foreground sequence, one set-background sequence when the row has a
/// background, then the bare glyphs.
proof fn lemma_coalesce_buf(cells: Seq<Cell>, f: Rgb, b: Option<Rgb>)
    requires
        cells.len() >= 1,
        forall|i: int| 0 <= i < cells.len() ==> cells[i].fg == f && cells[i].bg == b,
    ensures
        emit_cells(cells).buf == fg_seq(f) + (if b is Some {
            bg_seq(b->0)
        } else {
            Seq::<char>::empty()
        }) + glyphs(cells),
        emit_cells(cells).fg == Some(f),
        emit_cells(cells).bg == b,
    decreases cells.len(),
{
    let bgpart: Seq<char> = if b is Some {
        bg_seq(b->0)
    } else {
        Seq::<char>::empty()
    };
    if cells.len() == 1 {
        assert(glyphs(cells) =~= seq![cells[0].glyph]);
        assert(emit_cells(cells).buf =~= fg_seq(f) + bgpart + glyphs(cells));
    } else {
        let prefix = cells.drop_last();
        assert(forall|i: int|
            0 <= i < prefix.len() ==> prefix[i] == cells[i] && cells[i].fg == f && cells[i].bg
                == b);
        lemma_coalesce_buf(prefix, f, b);
        assert(glyphs(cells) =~= glyphs(prefix).push(cells.last().glyph));
        assert(emit_cells(prefix).buf.len() >= glyphs(prefix).len());
        assert(glyphs(prefix).len() == prefix.len());
        assert(emit_cells(cells).buf =~= fg_seq(f) + bgpart + glyphs(cells));
    }
}

/// Emitter coalescing: a row of cells that all share one (foreground,
/// background) pair renders as exactly one set-foreground sequence, one
/// set-background sequence when that pair has a background, the row's
/// glyphs with no styling between them, and one trailing reset.
pub proof fn lemma_emitter_coalescing(cells: Seq<Cell>, f: Rgb, b: Option<Rgb>)
    requires
        cells.len() >= 1,
        forall|i: int| 0 <= i < cells.len() ==> cells[i].fg == f && cells[i].bg == b,
    ensures
        row_output(cells) == fg_seq(f) + (if b is Some {
            bg_seq(b->0)
        } else {
            Seq::<char>::empty()
        }) + glyphs(cells) + reset_seq(),
{
    lemma_coalesce_buf(cells, f, b);
    assert(row_output(cells) =~= fg_seq(f) + (if b is Some {
        bg_seq(b->0)
    } else {
        Seq::<char>::empty()
    }) + glyphs(cells) + reset_seq());
}

/// Relies on std's String::push: it appends one character at the end.
#[verifier::external_body]
fn push_char(s: &mut String, c: char)
    ensures
        final(s)@ == old(s)@ + seq![c],
{
    s.push(c);
}

/// The decimal digit character of one digit value.
fn digit_char_exec(d: u8) -> (c: char)
    requires
        d < 10,
    ensures
        c == digit_char(d as int),
{
    match d {
        0 => '0',
        1 => '1',
        2 => '2',
        3 => '3',
        4 => '4',
        5 => '5',
        6 => '6',
        7 => '7',
        8 => '8',
        _ => '9',
    }
}

/// Appends the decimal digits of a channel value.
fn push_dec(s: &mut String, n: u8)
    ensures
        final(s)@ == old(s)@ + dec_seq(n as int),
{
    if n >= 100 {
        push_char(s, digit_char_exec(n / 100));
        push_char(s, digit_char_exec((n / 10) % 10));
        push_char(s, digit_char_exec(n % 10));
        proof {
            reveal_with_fuel(dec_seq, 3);
            assert((n as int / 10) / 10 == n as int / 100) by (nonlinear_arith);
            assert(old(s)@ + seq![digit_char(n as int / 100)] + seq![
                digit_char((n as int / 10) % 10),
            ] + seq![digit_char(n as int % 10)] =~= old(s)@ + dec_seq(n as int));
        }
    } else if n >= 10 {
        push_char(s, digit_char_exec(n / 10));
        push_char(s, digit_char_exec(n % 10));
        proof {
            reveal_with_fuel(dec_seq, 2);
            assert(old(s)@ + seq![digit_char(n as int / 10)] + seq![digit_char(n as int % 10)]
                =~= old(s)@ + dec_seq(n as int));
        }
    } else {
        push_char(s, digit_char_exec(n));
        proof {
            assert(old(s)@ + seq![digit_char(n as int)] =~= old(s)@ + dec_seq(n as int));
        }
    }
}

/// Builds the truecolor set-foreground escape sequence for a color.
pub fn fg_escape(c: Rgb) -> (s: String)
    ensures
        s@ == fg_seq(c),
{
    let mut s = String::new();
    push_char(&mut s, '\u{1b}');
    push_char(&mut s, '[');
    push_char(&mut s, '3');
    push_char(&mut s, '8');
    push_char(&mut s, ';');
    push_char(&mut s, '2');
    push_char(&mut s, ';');
    push_dec(&mut s, c.r);
    push_char(&mut s, ';');
    push_dec(&mut s, c.g);
    push_char(&mut s, ';');
    push_dec(&mut s, c.b);
    push_char(&mut s, 'm');
    proof {
        assert(s@ =~= fg_seq(c));
    }
    s
}

/// Builds the truecolor set-background escape sequence for a color.
pub fn bg_escape(c: Rgb) -> (s: String)
    ensures
        s@ == bg_seq(c),
{
    let mut s = String::new();
    push_char(&mut s, '\u{1b}');
    push_char(&mut s, '[');
    push_char(&mut s, '4');
    push_char(&mut s, '8');
    push_char(&mut s, ';');
    push_char(&mut s, '2');
    push_char(&mut s, ';');
    push_dec(&mut s, c.r);
    push_char(&mut s, ';');
    push_dec(&mut s, c.g);
    push_char(&mut s, ';');
    push_dec(&mut s, c.b);
    push_char(&mut s, 'm');
    proof {
        assert(s@ =~= bg_seq(c));
    }
    s
}

/// Appends the style reset sequence.
fn push_reset(s: &mut String)
    ensures
        final(s)@ == old(s)@ + reset_seq(),
{
    push_char(s, '\u{1b}');
    push_char(s, '[');
    push_char(s, '0');
    push_char(s, 'm');
    proof {
        assert(old(s)@ + seq![esc()] + seq!['['] + seq!['0'] + seq!['m'] =~= old(s)@
            + reset_seq());
    }
}

/// Compares two optional colors.
fn opt_rgb_eq(a: &Option<Rgb>, b: &Option<Rgb>) -> (r: bool)
    ensures
        r == (*a == *b),
{
    match (*a, *b) {
        (Option::None, Option::None) => true,
        (Option::Some(x), Option::Some(y)) => x.r == y.r && x.g == y.g && x.b == y.b,
        _ => false,
    }
}

/// Per-row output accumulator: the characters emitted so far and the
/// last-emitted foreground and background colors.
pub struct LineRenderer {
    pub buffer: String,
    pub current_color: Option<Rgb>,
    pub current_bg_color: Option<Rgb>,
}

impl LineRenderer {
    /// A fresh emitter with an empty buffer and no emitted colors.
    pub fn new() -> (r: LineRenderer)
        ensures
            r.buffer@ == Seq::<char>::empty(),
            r.current_color is None,
            r.current_bg_color is None,
    {
        LineRenderer { buffer: String::new(), current_color: None, current_bg_color: None }
    }

    /// Resets the emitter for the next row.
    pub fn clear(&mut self)
        ensures
            final(self).buffer@ == Seq::<char>::empty(),
            final(self).current_color is None,
            final(self).current_bg_color is None,
    {
        self.buffer = String::new();
        self.current_color = None;
        self.current_bg_color = None;
    }

    /// Feeds one cell to the emitter. When the style pair changes mid-row
    /// the previous span is closed with a reset; each color that differs
    /// from the last-emitted one gets its escape sequence; then the glyph
    /// is appended.
    pub fn add(&mut self, chr: char, color: Option<Rgb>, bg_color: Option<Rgb>)
        ensures
            final(self).buffer@ == old(self).buffer@ + add_emits(
                old(self).current_color,
                old(self).current_bg_color,
                old(self).buffer@.len() > 0,
                chr,
                color,
                bg_color,
            ),
            final(self).current_color == next_fg(old(self).current_color, color),
            final(self).current_bg_color == next_bg(old(self).current_bg_color, bg_color),
    {
        let fg_differs = !opt_rgb_eq(&self.current_color, &color);
        let bg_differs = !opt_rgb_eq(&self.current_bg_color, &bg_color);
        if (fg_differs || bg_differs) && !self.buffer.as_str().is_empty() {
            push_reset(&mut self.buffer);
        }
        if fg_differs {
            match color {
                Option::Some(c) => {
                    let es = fg_escape(c);
                    self.buffer.append(es.as_str());
                    self.current_color = color;
                },
                Option::None => {},
            }
        }
        if bg_differs {
            match bg_color {
                Option::Some(c) => {
                    let es = bg_escape(c);
                    self.buffer.append(es.as_str());
                    self.current_bg_color = bg_color;
                },
                Option::None => {},
            }
        }
        push_char(&mut self.buffer, chr);
        proof {
            assert(self.buffer@ =~= old(self).buffer@ + add_emits(
                old(self).current_color,
                old(self).current_bg_color,
                old(self).buffer@.len() > 0,
                chr,
                color,
                bg_color,
            ));
        }
    }

    /// Closes the row: appends the trailing style reset and hands the
    /// finished line back.
    pub fn build(&mut self) -> (line: String)
        ensures
            line@ == old(self).buffer@ + reset_seq(),
            final(self).buffer@ == old(self).buffer@ + reset_seq(),
            final(self).current_color == old(self).current_color,
            final(self).current_bg_color == old(self).current_bg_color,
    {
        push_reset(&mut self.buffer);
        self.buffer.clone()
    }
}

} // verus!
