//! Blocks of styled text.

use crate::screen::{
    all_narrow, blank_cell, buffer_area, buffer_cells, complete, inked, inside, styled, within,
    CellView,
};
use crate::style::Style;
use ratatui::buffer::Buffer;
use ratatui::layout::Rect;
use ratatui::style::{Color, Modifier, Style as CellStyle};
use ratatui::text::{Line as TextLine, Span as TextSpan};
use ratatui::widgets::{Block, Clear, Paragraph, Widget};
use vstd::prelude::*;

verus! {

/// A text in one style.
pub struct Span {
    pub content: String,
    pub style: Style,
}

/// A line of text.
pub struct Line {
    pub spans: Vec<Span>,
}

/// A text in one style, as it reads.
pub struct SpanView {
    pub content: Seq<char>,
    pub style: Style,
}

impl View for Span {
    type V = SpanView;

    open spec fn view(&self) -> SpanView {
        SpanView { content: self.content@, style: self.style }
    }
}

impl View for Line {
    type V = Seq<SpanView>;

    open spec fn view(&self) -> Seq<SpanView> {
        self.spans@.map_values(|s: Span| s@)
    }
}

/// Lines as they read.
pub open spec fn lines_view(lines: Seq<Line>) -> Seq<Seq<SpanView>> {
    lines.map_values(|l: Line| l@)
}

/// A span with the given text and style.
pub open spec fn span_view(content: Seq<char>, style: Style) -> SpanView {
    SpanView { content, style }
}

/// The characters of a line, each with its style.
pub open spec fn characters(line: Seq<SpanView>) -> Seq<(char, Style)>
    decreases line.len(),
{
    if line.len() == 0 {
        Seq::empty()
    } else {
        let span = line.last();
        characters(line.drop_last()) + Seq::new(
            span.content.len(),
            |i: int| (span.content[i], span.style),
        )
    }
}

/// All characters of some lines take up one cell each.
pub open spec fn narrow_lines(lines: Seq<Seq<SpanView>>) -> bool {
    forall|i: int, j: int|
        0 <= i < lines.len() && 0 <= j < lines[i].len() ==> all_narrow(
            (#[trigger] lines[i][j]).content,
        )
}

/// The cells after lines of narrow characters were set in a rectangle of one style:
/// from its left edge on, as far as they go and it reaches.
pub open spec fn typeset(
    cells: Map<(u16, u16), CellView>,
    r: Rect,
    lines: Seq<Seq<SpanView>>,
    style: Style,
) -> Map<(u16, u16), CellView> {
    Map::new(
        |p: (u16, u16)| cells.contains_key(p),
        |p: (u16, u16)|
            if !within(r, p.0 as int, p.1 as int) {
                cells[p]
            } else {
                let base = styled(cells[p], style);
                let row = p.1 - r.y;
                let column = p.0 - r.x;
                if row < lines.len() && column < characters(lines[row]).len() {
                    let (ch, s) = characters(lines[row])[column];
                    inked(base, ch, s)
                } else {
                    base
                }
            },
    )
}

/// The character in a border, at a column and a row of a box of the given size.
pub open spec fn border_char(width: int, height: int, column: int, row: int) -> char {
    if row == 0 && column == 0 {
        '┌'
    } else if row == 0 && column == width - 1 {
        '┐'
    } else if row == height - 1 && column == 0 {
        '└'
    } else if row == height - 1 && column == width - 1 {
        '┘'
    } else if row == 0 || row == height - 1 {
        '─'
    } else {
        '│'
    }
}

/// How many of `n` characters are shown in a line of `width` columns.
pub open spec fn shown(width: int, n: int) -> int {
    if n < width {
        n
    } else {
        width
    }
}

/// The column in a line of `width` columns at which `n` centred characters begin.
pub open spec fn indent(width: int, n: int) -> int {
    width / 2 - shown(width, n) / 2
}

/// A cell of a box, by its column and row in the box: the border, with the title in it
/// from the upper left corner on, or else a character of the centred lines.
pub open spec fn box_cell(
    base: CellView,
    r: Rect,
    column: int,
    row: int,
    title: Seq<char>,
    color: Color,
    lines: Seq<Seq<SpanView>>,
) -> CellView {
    let edge = Style::plain().fg(color);
    if row == 0 && 1 <= column <= title.len() && column < r.width - 1 {
        inked(base, title[column - 1], edge)
    } else if row == 0 || row == r.height - 1 || column == 0 || column == r.width - 1 {
        inked(base, border_char(r.width as int, r.height as int, column, row), edge)
    } else if row - 1 < lines.len() {
        let line = characters(lines[row - 1]);
        let i = column - 1 - indent(r.width - 2, line.len() as int);
        if 0 <= i < shown(r.width - 2, line.len() as int) {
            inked(base, line[i].0, line[i].1)
        } else {
            base
        }
    } else {
        base
    }
}

/// The cells after a framed box was drawn: `style` all over, a border in `color` with
/// `title` at its top, and centred lines in it, all of narrow characters.
pub open spec fn boxed(
    cells: Map<(u16, u16), CellView>,
    r: Rect,
    title: Seq<char>,
    color: Color,
    lines: Seq<Seq<SpanView>>,
    style: Style,
) -> Map<(u16, u16), CellView> {
    Map::new(
        |p: (u16, u16)| cells.contains_key(p),
        |p: (u16, u16)|
            if within(r, p.0 as int, p.1 as int) {
                box_cell(styled(cells[p], style), r, p.0 - r.x, p.1 - r.y, title, color, lines)
            } else {
                cells[p]
            },
    )
}

/// The cells after a framed box with any text was drawn: how a text is divided into
/// cells follows the Unicode tables.
pub uninterp spec fn box_cells(
    cells: Map<(u16, u16), CellView>,
    area: Rect,
    r: Rect,
    title: Seq<char>,
    color: Color,
    lines: Seq<Seq<SpanView>>,
    style: Style,
) -> Map<(u16, u16), CellView>;

/// The cells after a framed box was drawn.
pub open spec fn framed(
    cells: Map<(u16, u16), CellView>,
    area: Rect,
    r: Rect,
    title: Seq<char>,
    color: Color,
    lines: Seq<Seq<SpanView>>,
    style: Style,
) -> Map<(u16, u16), CellView> {
    if all_narrow(title) && narrow_lines(lines) {
        boxed(cells, r, title, color, lines, style)
    } else {
        box_cells(cells, area, r, title, color, lines, style)
    }
}

/// The cells after a rectangle was cleared.
pub open spec fn cleared(cells: Map<(u16, u16), CellView>, r: Rect) -> Map<
    (u16, u16),
    CellView,
> {
    Map::new(
        |p: (u16, u16)| cells.contains_key(p),
        |p: (u16, u16)|
            if within(r, p.0 as int, p.1 as int) {
                blank_cell()
            } else {
                cells[p]
            },
    )
}

/// `Paragraph::render` without a block: sets lines of narrow characters in a rectangle of
/// the grid, in one style on which each span sets its own. A line is cut at the edge of
/// the rectangle; ratatui counts its columns in a `u16`.
#[verifier::external_body]
pub(crate) fn render_lines(buf: &mut Buffer, r: Rect, lines: &Vec<Line>, style: Style)
    requires
        complete(*old(buf)),
        inside(r, buffer_area(*old(buf))),
        narrow_lines(lines_view(lines@)),
        r.width < u16::MAX,
    ensures
        buffer_area(*final(buf)) == buffer_area(*old(buf)),
        buffer_cells(*final(buf)) == typeset(
            buffer_cells(*old(buf)),
            r,
            lines_view(lines@),
            style,
        ),
{
    let native = |s: Style| CellStyle {
        fg: s.fg,
        bg: s.bg,
        add_modifier: if s.bold { Modifier::BOLD } else { Modifier::empty() },
        ..Default::default()
    };
    let span = |s: &Span| TextSpan::styled(s.content.clone(), native(s.style));
    let line = |l: &Line| TextLine::from(l.spans.iter().map(span).collect::<Vec<_>>());
    let text = lines.iter().map(line).collect::<Vec<_>>();
    Paragraph::new(text).style(native(style)).render(r, buf);
}

/// `Paragraph::render` with a block that has all four borders and a title, and with
/// centred lines. Of narrow characters each sets one cell; of other texts only the
/// rectangle changes.
#[verifier::external_body]
pub(crate) fn render_box(
    buf: &mut Buffer,
    r: Rect,
    title: &str,
    color: Color,
    lines: &Vec<Line>,
    style: Style,
)
    requires
        complete(*old(buf)),
        inside(r, buffer_area(*old(buf))),
        2 <= r.width <= i16::MAX,
        2 <= r.height,
    ensures
        buffer_area(*final(buf)) == buffer_area(*old(buf)),
        buffer_cells(*final(buf)).dom() == buffer_cells(*old(buf)).dom(),
        buffer_cells(*final(buf)) == (if all_narrow(title@) && narrow_lines(lines_view(lines@)) {
            boxed(buffer_cells(*old(buf)), r, title@, color, lines_view(lines@), style)
        } else {
            box_cells(
                buffer_cells(*old(buf)),
                buffer_area(*old(buf)),
                r,
                title@,
                color,
                lines_view(lines@),
                style,
            )
        }),
        forall|p: (u16, u16)|
            buffer_cells(*old(buf)).contains_key(p) && !within(r, p.0 as int, p.1 as int)
                ==> #[trigger] buffer_cells(*final(buf))[p] == buffer_cells(*old(buf))[p],
{
    let native = |s: Style| CellStyle {
        fg: s.fg,
        bg: s.bg,
        add_modifier: if s.bold { Modifier::BOLD } else { Modifier::empty() },
        ..Default::default()
    };
    let span = |s: &Span| TextSpan::styled(s.content.clone(), native(s.style));
    let line = |l: &Line| TextLine::from(l.spans.iter().map(span).collect::<Vec<_>>());
    let text = lines.iter().map(line).collect::<Vec<_>>();
    let frame = Block::bordered().border_style(CellStyle::default().fg(color)).title(title);
    Paragraph::new(text).block(frame).style(native(style)).centered().render(r, buf);
}

/// `Clear::render`: resets the cells of a rectangle.
#[verifier::external_body]
pub(crate) fn render_clear(buf: &mut Buffer, r: Rect)
    requires
        complete(*old(buf)),
    ensures
        buffer_area(*final(buf)) == buffer_area(*old(buf)),
        buffer_cells(*final(buf)) == cleared(buffer_cells(*old(buf)), r),
{
    Clear.render(r, buf);
}

} // verus!
