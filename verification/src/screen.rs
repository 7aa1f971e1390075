//! The character grid that a frame is drawn into.
//!
//! The grid is ratatui's [`Buffer`]. Its contents are named by [`buffer_cells`], its
//! place on the screen by [`buffer_area`]; the functions here that call into ratatui
//! are trusted to change them as their contracts say.

use crate::style::Style;
use crate::text::digits;
use ratatui::buffer::Buffer;
use ratatui::layout::Rect;
use ratatui::style::{Color, Modifier, Style as CellStyle};
use vstd::prelude::*;

verus! {

/// A rectangle of cells: ratatui's own, whose four fields are public integers.
#[verifier::external_type_specification]
pub struct ExRect(Rect);

/// ratatui's grid of cells.
#[verifier::external_type_specification]
#[verifier::external_body]
pub struct ExBuffer(Buffer);

/// What a cell shows. Modifiers other than bold and the colour of underlines are
/// left aside: nothing here sets them.
pub struct CellView {
    pub symbol: Seq<char>,
    pub fg: Color,
    pub bg: Color,
    pub bold: bool,
}

/// The cells of a grid by column and row.
pub uninterp spec fn buffer_cells(b: Buffer) -> Map<(u16, u16), CellView>;

/// The rectangle that a grid covers.
pub uninterp spec fn buffer_area(b: Buffer) -> Rect;

/// The number of cells that a grid holds.
pub uninterp spec fn buffer_len(b: Buffer) -> nat;

/// The first column to the right of a rectangle.
pub open spec fn right(r: Rect) -> int {
    if r.x + r.width > u16::MAX {
        u16::MAX as int
    } else {
        r.x + r.width
    }
}

/// The first row below a rectangle.
pub open spec fn bottom(r: Rect) -> int {
    if r.y + r.height > u16::MAX {
        u16::MAX as int
    } else {
        r.y + r.height
    }
}

/// A position lies in a rectangle.
pub open spec fn within(r: Rect, x: int, y: int) -> bool {
    r.x <= x < right(r) && r.y <= y < bottom(r)
}

/// The edges of a rectangle can be written down.
pub open spec fn fits(r: Rect) -> bool {
    r.x + r.width <= u16::MAX && r.y + r.height <= u16::MAX
}

/// A rectangle lies in another one.
pub open spec fn inside(r: Rect, outer: Rect) -> bool {
    &&& outer.x <= r.x
    &&& outer.y <= r.y
    &&& r.x + r.width <= right(outer)
    &&& r.y + r.height <= bottom(outer)
}

/// A grid has a cell at every position of its rectangle.
pub open spec fn complete(b: Buffer) -> bool {
    forall|x: u16, y: u16|
        within(buffer_area(b), x as int, y as int) ==> #[trigger] buffer_cells(b).contains_key(
            (x, y),
        )
}

/// A cell after a style has been set on it.
pub open spec fn styled(c: CellView, s: Style) -> CellView {
    CellView {
        symbol: c.symbol,
        fg: match s.fg {
            Some(color) => color,
            None => c.fg,
        },
        bg: match s.bg {
            Some(color) => color,
            None => c.bg,
        },
        bold: c.bold || s.bold,
    }
}

/// A cell after a character and a style have been set on it.
pub open spec fn inked(c: CellView, ch: char, s: Style) -> CellView {
    styled(CellView { symbol: seq![ch], ..c }, s)
}

/// A cell in its initial state.
pub open spec fn blank_cell() -> CellView {
    CellView { symbol: seq![' '], fg: Color::Reset, bg: Color::Reset, bold: false }
}

/// A character that takes up one cell by itself.
pub open spec fn narrow(c: char) -> bool {
    ||| ' ' <= c <= '~'
    ||| c == '·'
    ||| c == '–'
    ||| c == '—'
    ||| c == '…'
    ||| c == '✦'
    ||| c == '●'
    ||| c == '■'
    ||| c == '□'
    ||| c == '◀'
    ||| c == '▶'
    ||| c == '▲'
    ||| c == '▼'
}

/// All characters of a text take up one cell each.
pub open spec fn all_narrow(s: Seq<char>) -> bool {
    forall|i: int| 0 <= i < s.len() ==> narrow(#[trigger] s[i])
}

/// The cells after a text of narrow characters was written from (`x`, `y`) on to the
/// right, up to the edge of the grid.
pub open spec fn spelled(
    cells: Map<(u16, u16), CellView>,
    area: Rect,
    x: u16,
    y: u16,
    s: Seq<char>,
    style: Style,
) -> Map<(u16, u16), CellView> {
    Map::new(
        |p: (u16, u16)| cells.contains_key(p),
        |p: (u16, u16)|
            if p.1 == y && x <= p.0 < x + s.len() && p.0 < right(area) {
                inked(cells[p], s[p.0 - x], style)
            } else {
                cells[p]
            },
    )
}

/// The cells after any text was written: how a text is divided into cells follows
/// the Unicode tables.
pub uninterp spec fn string_cells(
    cells: Map<(u16, u16), CellView>,
    area: Rect,
    x: u16,
    y: u16,
    s: Seq<char>,
    style: Style,
) -> Map<(u16, u16), CellView>;

/// The cells after a text was written.
pub open spec fn written(
    cells: Map<(u16, u16), CellView>,
    area: Rect,
    x: u16,
    y: u16,
    s: Seq<char>,
    style: Style,
) -> Map<(u16, u16), CellView> {
    if all_narrow(s) {
        spelled(cells, area, x, y, s, style)
    } else {
        string_cells(cells, area, x, y, s, style)
    }
}

/// `Buffer::area`: the rectangle that the grid covers. No cell lies outside it.
#[verifier::external_body]
pub(crate) fn area_of(buf: &Buffer) -> (r: Rect)
    ensures
        r == buffer_area(*buf),
        forall|x: u16, y: u16| #[trigger]
            buffer_cells(*buf).contains_key((x, y)) ==> within(r, x as int, y as int),
{
    *buf.area()
}

/// `Buffer::content`: the number of cells that the grid holds. With as many as its
/// rectangle has positions there is one at each of them.
#[verifier::external_body]
pub(crate) fn cell_count(buf: &Buffer) -> (n: usize)
    ensures
        n == buffer_len(*buf),
        n == buffer_area(*buf).width * buffer_area(*buf).height ==> complete(*buf),
{
    buf.content().len()
}

/// `Buffer::cell_mut`, `Cell::set_char` and `Cell::set_style`: sets the character and
/// the style of the cell at (`x`, `y`), if there is one; nothing else changes.
#[verifier::external_body]
pub(crate) fn set_cell(buf: &mut Buffer, x: u16, y: u16, ch: char, style: Style)
    ensures
        buffer_area(*final(buf)) == buffer_area(*old(buf)),
        buffer_cells(*final(buf)) == (if buffer_cells(*old(buf)).contains_key((x, y)) {
            buffer_cells(*old(buf)).insert(
                (x, y),
                inked(buffer_cells(*old(buf))[(x, y)], ch, style),
            )
        } else {
            buffer_cells(*old(buf))
        }),
{
    if let Some(cell) = buf.cell_mut((x, y)) {
        let modifier = if style.bold {
            Modifier::BOLD
        } else {
            Modifier::empty()
        };
        cell.set_char(ch);
        cell.set_style(CellStyle {
            fg: style.fg,
            bg: style.bg,
            add_modifier: modifier,
            ..Default::default()
        });
    }
}

/// `Buffer::set_string`: writes a text from (`x`, `y`) on to the right, up to the edge
/// of the grid. It needs a cell at every position that it may write to. Each of the
/// narrow characters sets one cell; of other texts only the row, from `x` on, changes.
#[verifier::external_body]
pub(crate) fn set_string(buf: &mut Buffer, x: u16, y: u16, text: &str, style: Style)
    requires
        forall|c: u16|
            x <= c < right(buffer_area(*old(buf))) ==> #[trigger] buffer_cells(
                *old(buf),
            ).contains_key((c, y)),
    ensures
        buffer_area(*final(buf)) == buffer_area(*old(buf)),
        buffer_cells(*final(buf)).dom() == buffer_cells(*old(buf)).dom(),
        buffer_cells(*final(buf)) == (if all_narrow(text@) {
            spelled(buffer_cells(*old(buf)), buffer_area(*old(buf)), x, y, text@, style)
        } else {
            string_cells(buffer_cells(*old(buf)), buffer_area(*old(buf)), x, y, text@, style)
        }),
        forall|p: (u16, u16)|
            buffer_cells(*old(buf)).contains_key(p) && (p.1 != y || p.0 < x)
                ==> #[trigger] buffer_cells(*final(buf))[p] == buffer_cells(*old(buf))[p],
{
    let modifier = if style.bold {
        Modifier::BOLD
    } else {
        Modifier::empty()
    };
    let native = CellStyle {
        fg: style.fg,
        bg: style.bg,
        add_modifier: modifier,
        ..Default::default()
    };
    buf.set_string(x, y, text, native);
}

/// Whether the grid holds as many cells as its rectangle has positions, and so one at
/// each of them.
pub fn is_complete(buf: &Buffer) -> (r: bool)
    ensures
        r == (buffer_len(*buf) == buffer_area(*buf).width * buffer_area(*buf).height),
        r ==> complete(*buf),
{
    let area = area_of(buf);
    let n: usize = cell_count(buf);
    assert(area.width * area.height <= 0xffff * 0xffff) by (nonlinear_arith)
        requires
            area.width <= 0xffff,
            area.height <= 0xffff,
    ;
    n as u64 == area.width as u64 * area.height as u64
}

/// A character to draw: where, if it is in front of the viewer, and how.
#[derive(Clone, Copy)]
pub struct Dot {
    pub at: Option<(i64, i64)>,
    pub ch: char,
    pub style: Style,
}

/// The cells after a dot was drawn: one that lies in the grid sets its cell.
pub open spec fn plotted(cells: Map<(u16, u16), CellView>, area: Rect, d: Dot) -> Map<
    (u16, u16),
    CellView,
> {
    match d.at {
        Some((x, y)) => {
            let p = (x as u16, y as u16);
            if area.x <= x < area.x + area.width && area.y <= y < area.y + area.height && 0 <= x
                <= u16::MAX && 0 <= y <= u16::MAX && cells.contains_key(p) {
                cells.insert(p, inked(cells[p], d.ch, d.style))
            } else {
                cells
            }
        },
        None => cells,
    }
}

/// The cells after dots were drawn, one over the other.
pub open spec fn all_plotted(
    cells: Map<(u16, u16), CellView>,
    area: Rect,
    dots: Seq<Dot>,
) -> Map<(u16, u16), CellView>
    decreases dots.len(),
{
    if dots.len() == 0 {
        cells
    } else {
        plotted(all_plotted(cells, area, dots.drop_last()), area, dots.last())
    }
}

/// Draws a dot.
pub fn plot(buf: &mut Buffer, d: &Dot)
    ensures
        buffer_area(*final(buf)) == buffer_area(*old(buf)),
        buffer_cells(*final(buf)) == plotted(
            buffer_cells(*old(buf)),
            buffer_area(*old(buf)),
            *d,
        ),
{
    if let Some((x, y)) = d.at {
        let r = area_of(buf);
        if x >= r.x as i64 && x < r.x as i64 + r.width as i64 && y >= r.y as i64 && y < r.y as i64
            + r.height as i64 && x <= 65535 && y <= 65535 {
            set_cell(buf, x as u16, y as u16, d.ch, d.style);
        }
    }
}

/// Draws dots in order.
pub fn plot_all(buf: &mut Buffer, dots: &Vec<Dot>)
    ensures
        buffer_area(*final(buf)) == buffer_area(*old(buf)),
        buffer_cells(*final(buf)) == all_plotted(
            buffer_cells(*old(buf)),
            buffer_area(*old(buf)),
            dots@,
        ),
{
    let mut i: usize = 0;
    while i < dots.len()
        invariant
            i <= dots.len(),
            buffer_area(*buf) == buffer_area(*old(buf)),
            buffer_cells(*buf) == all_plotted(
                buffer_cells(*old(buf)),
                buffer_area(*old(buf)),
                dots@.take(i as int),
            ),
        decreases dots.len() - i,
    {
        plot(buf, &dots[i]);
        i = i + 1;
        assert(dots@.take(i as int).drop_last() =~= dots@.take(i - 1));
    }
    assert(dots@.take(i as int) =~= dots@);
}

/// Two texts of narrow characters make one.
pub proof fn lemma_narrow_sum(a: Seq<char>, b: Seq<char>)
    requires
        all_narrow(a),
        all_narrow(b),
    ensures
        all_narrow(a + b),
{
}

/// Numerals are narrow.
pub proof fn lemma_narrow_digits(n: nat)
    ensures
        all_narrow(digits(n)),
{
    crate::text::law_numeral_reads_back(n);
    assert forall|i: int| 0 <= i < digits(n).len() implies narrow(#[trigger] digits(n)[i]) by {
        assert('0' <= digits(n)[i] <= '9');
    }
}

/// Drawing dots neither adds nor removes cells, and changes none but those at which a
/// dot lies.
pub proof fn law_plots_touch_only_their_cells(
    cells: Map<(u16, u16), CellView>,
    area: Rect,
    dots: Seq<Dot>,
    p: (u16, u16),
)
    ensures
        all_plotted(cells, area, dots).dom() == cells.dom(),
        (forall|i: int|
            0 <= i < dots.len() ==> (#[trigger] dots[i]).at != Some((p.0 as i64, p.1 as i64)))
            ==> all_plotted(cells, area, dots)[p] == cells[p],
    decreases dots.len(),
{
    if dots.len() > 0 {
        let init = dots.drop_last();
        law_plots_touch_only_their_cells(cells, area, init, p);
        assert(all_plotted(cells, area, dots).dom() =~= cells.dom());
        if forall|i: int|
            0 <= i < dots.len() ==> (#[trigger] dots[i]).at != Some((p.0 as i64, p.1 as i64)) {
            assert forall|i: int| 0 <= i < init.len() implies (#[trigger] init[i]).at != Some(
                (p.0 as i64, p.1 as i64),
            ) by {
                assert(init[i] == dots[i]);
            }
            assert(dots[dots.len() - 1].at != Some((p.0 as i64, p.1 as i64)));
        }
    }
}

/// Of the dots that lie in one cell, the last one is seen.
pub proof fn law_last_dot_is_seen(
    cells: Map<(u16, u16), CellView>,
    area: Rect,
    dots: Seq<Dot>,
    d: Dot,
    x: u16,
    y: u16,
)
    requires
        d.at == Some((x as i64, y as i64)),
        within(area, x as int, y as int),
        cells.contains_key((x, y)),
    ensures
        all_plotted(cells, area, dots.push(d))[(x, y)] == inked(
            all_plotted(cells, area, dots)[(x, y)],
            d.ch,
            d.style,
        ),
        all_plotted(cells, area, dots.push(d))[(x, y)].symbol == seq![d.ch],
{
    law_plots_touch_only_their_cells(cells, area, dots, (x, y));
    assert(dots.push(d).drop_last() =~= dots);
}

/// Drawing dots in two goes is drawing them in one.
pub proof fn law_plots_compose(
    cells: Map<(u16, u16), CellView>,
    area: Rect,
    first: Seq<Dot>,
    second: Seq<Dot>,
)
    ensures
        all_plotted(cells, area, first + second) == all_plotted(
            all_plotted(cells, area, first),
            area,
            second,
        ),
    decreases second.len(),
{
    if second.len() == 0 {
        assert(first + second =~= first);
    } else {
        law_plots_compose(cells, area, first, second.drop_last());
        assert((first + second).drop_last() =~= first + second.drop_last());
    }
}

} // verus!
