//! What is behind the play: sky and stands, ground and wall.
//!
//! Which spot of ground is seen through a cell, and how far up the wall reaches, is
//! computed elsewhere; it reaches this module as a [`Backdrop`].

use crate::noise::{hash, hash2};
use crate::screen::{
    bottom, buffer_area, buffer_cells, complete, fits, inked, inside, set_cell, set_string, written,
    CellView,
};
use crate::style::{ground_color, rgb, wall_color, Style};
use ratatui::buffer::Buffer;
use ratatui::layout::Rect;
use ratatui::style::Color;
use vstd::prelude::*;

verus! {

// ── painting cell by cell ────────────────────────────────────────────────────────

/// The cells after each was given the look that `f` has for it, if any.
pub open spec fn repainted(
    cells: Map<(u16, u16), CellView>,
    f: spec_fn((u16, u16)) -> Option<(char, Style)>,
) -> Map<(u16, u16), CellView> {
    Map::new(
        |p: (u16, u16)| cells.contains_key(p),
        |p: (u16, u16)|
            match f(p) {
                Some((ch, style)) => inked(cells[p], ch, style),
                None => cells[p],
            },
    )
}

/// `f`, only for what comes before (`col`, `row`) in reading order.
spec fn so_far(
    f: spec_fn((u16, u16)) -> Option<(char, Style)>,
    row: int,
    col: int,
) -> spec_fn((u16, u16)) -> Option<(char, Style)> {
    |p: (u16, u16)|
        if p.1 < row || (p.1 == row && p.0 < col) {
            f(p)
        } else {
            None
        }
}

/// `f` has a look only for what lies between the given columns and rows.
spec fn bounded(
    f: spec_fn((u16, u16)) -> Option<(char, Style)>,
    left: int,
    top: int,
    right: int,
    bottom: int,
) -> bool {
    forall|p: (u16, u16)| #[trigger]
        f(p) is Some ==> left <= p.0 < right && top <= p.1 < bottom
}

proof fn lemma_paint_one(
    cells: Map<(u16, u16), CellView>,
    f: spec_fn((u16, u16)) -> Option<(char, Style)>,
    row: u16,
    col: u16,
)
    ensures
        ({
            let before = repainted(cells, so_far(f, row as int, col as int));
            let after = repainted(cells, so_far(f, row as int, col + 1));
            match f((col, row)) {
                Some((ch, style)) => after == (if before.contains_key((col, row)) {
                    before.insert((col, row), inked(before[(col, row)], ch, style))
                } else {
                    before
                }),
                None => after == before,
            }
        }),
{
    let before = repainted(cells, so_far(f, row as int, col as int));
    let after = repainted(cells, so_far(f, row as int, col + 1));
    match f((col, row)) {
        Some((ch, style)) => {
            if before.contains_key((col, row)) {
                assert(after =~= before.insert(
                    (col, row),
                    inked(before[(col, row)], ch, style),
                ));
            } else {
                assert(after =~= before);
            }
        },
        None => {
            assert(after =~= before);
        },
    }
}

proof fn lemma_paint_row(
    cells: Map<(u16, u16), CellView>,
    f: spec_fn((u16, u16)) -> Option<(char, Style)>,
    left: int,
    top: int,
    right: int,
    bottom: int,
    row: int,
)
    requires
        bounded(f, left, top, right, bottom),
    ensures
        repainted(cells, so_far(f, row, right)) == repainted(cells, so_far(f, row + 1, left)),
{
    assert(repainted(cells, so_far(f, row, right)) =~= repainted(cells, so_far(f, row + 1, left)));
}

proof fn lemma_paint_ends(
    cells: Map<(u16, u16), CellView>,
    f: spec_fn((u16, u16)) -> Option<(char, Style)>,
    left: int,
    top: int,
    right: int,
    bottom: int,
)
    requires
        bounded(f, left, top, right, bottom),
    ensures
        repainted(cells, so_far(f, top, left)) == cells,
        top <= bottom ==> repainted(cells, so_far(f, bottom, left)) == repainted(cells, f),
{
    assert(repainted(cells, so_far(f, top, left)) =~= cells);
    if top <= bottom {
        assert(repainted(cells, so_far(f, bottom, left)) =~= repainted(cells, f));
    }
}

// ── background ───────────────────────────────────────────────────────────────────

/// A spot of ground as it is seen through a cell.
#[derive(Clone, Copy)]
pub struct Patch {
    /// Beyond the apron.
    pub outside: bool,
    /// Inside the singles court.
    pub inside: bool,
    /// The number of the stripe, counted from the near baseline.
    pub band: i64,
}

/// What is behind the play: the ground below the horizon, row by row from the first
/// row of ground on, and for each column the rows that the wall reaches from and to,
/// if the wall reaches this column.
pub struct Backdrop {
    pub ground: Vec<Vec<Patch>>,
    pub wall: Vec<Option<(i64, i64)>>,
}

/// The row of the horizon: three tenths down, but at least four rows.
pub open spec fn horizon_row(area: Rect) -> int {
    area.y + (if area.height >= 14 {
        3 * area.height
    } else {
        40
    } + 5) / 10
}

/// The first row of ground.
pub fn horizon(area: Rect) -> (r: i64)
    ensures
        r == horizon_row(area),
{
    let tenths: i64 = if area.height >= 14 {
        3 * (area.height as i64)
    } else {
        40
    };
    area.y as i64 + (tenths + 5) / 10
}

impl Backdrop {
    /// The backdrop has all that a picture of this size needs.
    pub open spec fn covers(&self, area: Rect) -> bool {
        &&& self.ground@.len() >= area.y + area.height - horizon_row(area)
        &&& forall|i: int|
            0 <= i < area.y + area.height - horizon_row(area) ==> (
            #[trigger] self.ground@[i])@.len() >= area.width
        &&& self.wall@.len() >= area.width
        &&& forall|i: int|
            0 <= i < area.width ==> (#[trigger] self.wall@[i] matches Some((top, base))
                ==> i64::MIN <= top + base <= i64::MAX)
    }

    /// Whether the backdrop has all that a picture of this size needs.
    pub fn is_enough_for(&self, area: Rect) -> (r: bool)
        ensures
            r == self.covers(area),
    {
        let first: i64 = horizon(area);
        let end: i64 = area.y as i64 + area.height as i64;
        let rows: usize = if end > first {
            (end - first) as usize
        } else {
            0
        };
        if self.ground.len() < rows {
            return false;
        }
        let mut i: usize = 0;
        while i < rows
            invariant
                i <= rows <= self.ground@.len(),
                rows > 0 ==> rows == area.y + area.height - horizon_row(area),
                forall|k: int|
                    0 <= k < i ==> (#[trigger] self.ground@[k])@.len() >= area.width,
            decreases rows - i,
        {
            if self.ground[i].len() < area.width as usize {
                assert(self.ground@[i as int]@.len() < area.width);
                return false;
            }
            i = i + 1;
        }
        if self.wall.len() < area.width as usize {
            return false;
        }
        let mut i: usize = 0;
        while i < area.width as usize
            invariant
                i <= area.width,
                self.wall@.len() >= area.width,
                forall|k: int|
                    0 <= k < i ==> (#[trigger] self.wall@[k] matches Some((top, base))
                        ==> i64::MIN <= top + base <= i64::MAX),
            decreases area.width - i,
        {
            if let Some((top, base)) = self.wall[i] {
                if top.checked_add(base).is_none() {
                    assert(self.wall@[i as int] == Some((top, base)));
                    return false;
                }
            }
            i = i + 1;
        }
        true
    }
}

/// The look of the ground: striped, blue inside the singles court, green around it.
pub open spec fn ground_look(p: Patch) -> (char, Style) {
    (
        ' ',
        Style::plain().bg(
            if p.outside {
                ground_color()
            } else if p.inside {
                if p.band % 2 == 0 {
                    rgb(36, 88, 154)
                } else {
                    rgb(43, 99, 170)
                }
            } else {
                if p.band % 2 == 0 {
                    rgb(28, 110, 88)
                } else {
                    rgb(34, 122, 99)
                }
            },
        ),
    )
}

/// The character and the style of a spot of ground.
pub fn ground_cell(p: &Patch) -> (r: (char, Style))
    ensures
        r == ground_look(*p),
{
    if p.outside {
        return (' ', Style::plain().bg(ground_color()));
    }
    let even = p.band % 2 == 0;
    let bg = if p.inside {
        if even {
            rgb(36, 88, 154)
        } else {
            rgb(43, 99, 170)
        }
    } else {
        if even {
            rgb(28, 110, 88)
        } else {
            rgb(34, 122, 99)
        }
    };
    (' ', Style::plain().bg(bg))
}

/// A shade of the sky between `from` at the top and `to` at the horizon.
pub open spec fn shade(from: int, to: int, down: int, span: int) -> u8 {
    (from + (to - from) * down / span) as u8
}

/// The colour of the sky `down` rows below the top, of `span` rows in all.
pub open spec fn sky_at(down: int, span: int) -> Color {
    Color::Rgb(shade(7, 24, down, span), shade(10, 32, down, span), shade(22, 58, down, span))
}

/// The colour of the sky in a row above the horizon.
pub fn sky_color(down: i64, span: i64) -> (c: Color)
    requires
        0 <= down < span <= 0x1_0000,
    ensures
        c == sky_at(down as int, span as int),
{
    proof {
        lemma_shade(7, 24, down as int, span as int);
        lemma_shade(10, 32, down as int, span as int);
        lemma_shade(22, 58, down as int, span as int);
    }
    Color::Rgb(
        (7 + 17 * down / span) as u8,
        (10 + 22 * down / span) as u8,
        (22 + 36 * down / span) as u8,
    )
}

/// A shade lies between the two colours that it blends.
proof fn lemma_shade(from: int, to: int, down: int, span: int)
    requires
        0 <= from <= to < 256,
        0 <= down <= span,
        0 < span,
    ensures
        from <= from + (to - from) * down / span <= to,
{
    let k = to - from;
    assert(0 <= k * down <= k * span) by (nonlinear_arith)
        requires
            0 <= k,
            0 <= down <= span,
    ;
    assert(0 <= k * down / span <= k) by (nonlinear_arith)
        requires
            0 <= k * down <= k * span,
            0 < span,
    ;
}

/// The colours of the spectators.
pub open spec fn crowd_at(i: int) -> Color {
    if i == 0 {
        rgb(214, 90, 90)
    } else if i == 1 {
        rgb(230, 190, 90)
    } else if i == 2 {
        rgb(120, 170, 230)
    } else if i == 3 {
        rgb(220, 220, 230)
    } else {
        rgb(140, 200, 140)
    }
}

/// The colour of a spectator.
pub fn crowd_color(i: u64) -> (c: Color)
    ensures
        c == crowd_at(i as int),
{
    match i {
        0 => rgb(214, 90, 90),
        1 => rgb(230, 190, 90),
        2 => rgb(120, 170, 230),
        3 => rgb(220, 220, 230),
        _ => rgb(140, 200, 140),
    }
}

/// The look of the stands: one seat in eleven is taken, and who sits there changes
/// every fourteen frames.
pub open spec fn stands_look(col: u16, row: u16, frame: u64) -> (char, Style) {
    let h = hash(col as u64, row as u64, frame / 14);
    if h % 11 == 0 {
        (' ', Style::plain().bg(crowd_at((h / 11) as int % 5)))
    } else {
        ('·', Style::plain().fg(rgb(44, 50, 68)).bg(rgb(15, 19, 29)))
    }
}

/// The look of the sky: one cell in ninety-seven holds a star.
pub open spec fn sky_look(area: Rect, col: u16, row: u16) -> (char, Style) {
    let bg = sky_at(row - area.y, horizon_row(area) - area.y);
    if hash(col as u64, row as u64, 7) % 97 == 0 {
        ('·', Style::plain().fg(rgb(190, 200, 245)).bg(bg))
    } else {
        (' ', Style::plain().bg(bg))
    }
}

/// The look of a cell of the picture before anything stands in it: sky, three rows of
/// stands above the horizon, ground.
pub open spec fn scenery_look(area: Rect, back: Backdrop, frame: u64, col: u16, row: u16) -> (
    char,
    Style,
) {
    let h = horizon_row(area);
    if row >= h {
        ground_look(back.ground@[row - h]@[col - area.x])
    } else if row >= h - 3 {
        stands_look(col, row, frame)
    } else {
        sky_look(area, col, row)
    }
}

/// The looks that the scenery gives to the cells of the picture.
pub open spec fn scenery(area: Rect, back: Backdrop, frame: u64) -> spec_fn((u16, u16)) -> Option<
    (char, Style),
> {
    |p: (u16, u16)|
        if area.x <= p.0 < area.x + area.width && area.y <= p.1 < area.y + area.height {
            Some(scenery_look(area, back, frame, p.0, p.1))
        } else {
            None
        }
}

/// The character and the style of a cell of the scenery.
fn scenery_cell(area: Rect, back: &Backdrop, frame: u64, col: u16, row: u16) -> (r: (char, Style))
    requires
        back.covers(area),
        area.x <= col < area.x + area.width,
        area.y <= row < area.y + area.height,
        fits(area),
    ensures
        r == scenery_look(area, *back, frame, col, row),
{
    let first: i64 = horizon(area);
    if row as i64 >= first {
        let i: usize = (row as i64 - first) as usize;
        let j: usize = (col - area.x) as usize;
        assert(back.ground@[i as int]@.len() >= area.width);
        ground_cell(&back.ground[i][j])
    } else if row as i64 >= first - 3 {
        let h: u64 = hash2(col as u64, row as u64, frame / 14);
        if h % 11 == 0 {
            (' ', Style::plain().bg(crowd_color((h / 11) % 5)))
        } else {
            ('·', Style::plain().fg(rgb(44, 50, 68)).bg(rgb(15, 19, 29)))
        }
    } else {
        let bg = sky_color((row - area.y) as i64, first - area.y as i64);
        if hash2(col as u64, row as u64, 7) % 97 == 0 {
            ('·', Style::plain().fg(rgb(190, 200, 245)).bg(bg))
        } else {
            (' ', Style::plain().bg(bg))
        }
    }
}

/// Paints sky, stands and ground.
fn paint_scenery(buf: &mut Buffer, area: Rect, back: &Backdrop, frame: u64)
    requires
        fits(area),
        back.covers(area),
    ensures
        buffer_area(*final(buf)) == buffer_area(*old(buf)),
        buffer_cells(*final(buf)) == repainted(
            buffer_cells(*old(buf)),
            scenery(area, *back, frame),
        ),
{
    let ghost cells = buffer_cells(*buf);
    let ghost f = scenery(area, *back, frame);
    let end: u16 = area.x + area.width;
    let last: u16 = area.y + area.height;
    let mut row: u16 = area.y;
    proof {
        lemma_paint_ends(cells, f, area.x as int, area.y as int, end as int, last as int);
    }
    while row < last
        invariant
            fits(area),
            back.covers(area),
            end == area.x + area.width,
            last == area.y + area.height,
            area.y <= row <= last,
            f == scenery(area, *back, frame),
            bounded(f, area.x as int, area.y as int, end as int, last as int),
            buffer_area(*buf) == buffer_area(*old(buf)),
            buffer_cells(*buf) == repainted(cells, so_far(f, row as int, area.x as int)),
        decreases last - row,
    {
        let mut col: u16 = area.x;
        while col < end
            invariant
                fits(area),
                back.covers(area),
                end == area.x + area.width,
                last == area.y + area.height,
                area.y <= row < last,
                area.x <= col <= end,
                f == scenery(area, *back, frame),
                buffer_area(*buf) == buffer_area(*old(buf)),
                buffer_cells(*buf) == repainted(cells, so_far(f, row as int, col as int)),
            decreases end - col,
        {
            let (ch, style) = scenery_cell(area, back, frame, col, row);
            proof {
                lemma_paint_one(cells, f, row, col);
            }
            set_cell(buf, col, row, ch, style);
            col = col + 1;
        }
        proof {
            lemma_paint_row(
                cells,
                f,
                area.x as int,
                area.y as int,
                end as int,
                last as int,
                row as int,
            );
        }
        row = row + 1;
    }
    proof {
        lemma_paint_ends(cells, f, area.x as int, area.y as int, end as int, last as int);
    }
}

/// What is written on the wall.
pub open spec fn banner_text() -> Seq<char> {
    "  RATATUI OPEN * TERMINAL TENNIS *"@
}

/// The middle of two rows, rounded towards row 0.
pub open spec fn middle_row(top: int, base: int) -> int {
    if top + base >= 0 {
        (top + base) / 2
    } else {
        -((-(top + base)) / 2)
    }
}

/// The look of the wall: a light edge on top, the banner in the middle.
pub open spec fn wall_look(col: u16, row: int, top: int, base: int) -> (char, Style) {
    if row == top {
        (' ', Style::plain().bg(rgb(64, 84, 138)))
    } else if row == middle_row(top, base) {
        (
            banner_text()[col as int % banner_text().len() as int],
            Style::plain().fg(rgb(165, 190, 245)).bg(wall_color()).bold(),
        )
    } else {
        (' ', Style::plain().bg(wall_color()))
    }
}

/// The looks that the wall gives to the cells of the picture.
pub open spec fn wall(area: Rect, back: Backdrop) -> spec_fn((u16, u16)) -> Option<(char, Style)> {
    |p: (u16, u16)|
        if area.x <= p.0 < area.x + area.width && area.y <= p.1 < area.y + area.height {
            match back.wall@[p.0 - area.x] {
                Some((top, base)) => if top <= p.1 <= base {
                    Some(wall_look(p.0, p.1 as int, top as int, base as int))
                } else {
                    None
                },
                None => None,
            }
        } else {
            None
        }
}

/// The character and the style of a cell of the wall.
fn wall_cell(col: u16, row: i64, top: i64, base: i64) -> (r: (char, Style))
    requires
        i64::MIN <= top + base <= i64::MAX,
    ensures
        r == wall_look(col, row as int, top as int, base as int),
{
    if row == top {
        return (' ', Style::plain().bg(rgb(64, 84, 138)));
    }
    let mid: i64 = (base + top) / 2;
    if row == mid {
        let banner = "  RATATUI OPEN * TERMINAL TENNIS *";
        proof {
            reveal_strlit("  RATATUI OPEN * TERMINAL TENNIS *");
        }
        let n: usize = banner.unicode_len();
        (
            banner.get_char(col as usize % n),
            Style::plain().fg(rgb(165, 190, 245)).bg(wall_color()).bold(),
        )
    } else {
        (' ', Style::plain().bg(wall_color()))
    }
}

/// Paints the wall behind the far baseline.
fn paint_wall(buf: &mut Buffer, area: Rect, back: &Backdrop)
    requires
        fits(area),
        back.covers(area),
    ensures
        buffer_area(*final(buf)) == buffer_area(*old(buf)),
        buffer_cells(*final(buf)) == repainted(buffer_cells(*old(buf)), wall(area, *back)),
{
    let ghost cells = buffer_cells(*buf);
    let ghost f = wall(area, *back);
    let end: u16 = area.x + area.width;
    let last: u16 = area.y + area.height;
    let mut row: u16 = area.y;
    proof {
        lemma_paint_ends(cells, f, area.x as int, area.y as int, end as int, last as int);
    }
    while row < last
        invariant
            fits(area),
            back.covers(area),
            end == area.x + area.width,
            last == area.y + area.height,
            area.y <= row <= last,
            f == wall(area, *back),
            bounded(f, area.x as int, area.y as int, end as int, last as int),
            buffer_area(*buf) == buffer_area(*old(buf)),
            buffer_cells(*buf) == repainted(cells, so_far(f, row as int, area.x as int)),
        decreases last - row,
    {
        let mut col: u16 = area.x;
        while col < end
            invariant
                fits(area),
                back.covers(area),
                end == area.x + area.width,
                last == area.y + area.height,
                area.y <= row < last,
                area.x <= col <= end,
                f == wall(area, *back),
                buffer_area(*buf) == buffer_area(*old(buf)),
                buffer_cells(*buf) == repainted(cells, so_far(f, row as int, col as int)),
            decreases end - col,
        {
            proof {
                lemma_paint_one(cells, f, row, col);
            }
            if let Some((top, base)) = back.wall[(col - area.x) as usize] {
                assert(back.wall@[col - area.x] == Some((top, base)));
                if top <= row as i64 && row as i64 <= base {
                    let (ch, style) = wall_cell(col, row as i64, top, base);
                    set_cell(buf, col, row, ch, style);
                }
            }
            col = col + 1;
        }
        proof {
            lemma_paint_row(
                cells,
                f,
                area.x as int,
                area.y as int,
                end as int,
                last as int,
                row as int,
            );
        }
        row = row + 1;
    }
    proof {
        lemma_paint_ends(cells, f, area.x as int, area.y as int, end as int, last as int);
    }
}

/// The style of the floodlights.
pub open spec fn lamp_style() -> Style {
    Style::plain().fg(rgb(255, 248, 214)).bold()
}

/// The cells after the floodlights were hung in the two upper corners.
pub open spec fn lit(
    cells: Map<(u16, u16), CellView>,
    buffer: Rect,
    area: Rect,
) -> Map<(u16, u16), CellView> {
    if area.width > 14 {
        let y = (area.y + 1) as u16;
        written(
            written(cells, buffer, (area.x + 3) as u16, y, "✦"@, lamp_style()),
            buffer,
            (area.x + area.width - 4) as u16,
            y,
            "✦"@,
            lamp_style(),
        )
    } else {
        cells
    }
}

/// The cells after everything behind the play was painted.
pub open spec fn background(
    cells: Map<(u16, u16), CellView>,
    buffer: Rect,
    area: Rect,
    back: Backdrop,
    frame: u64,
) -> Map<(u16, u16), CellView> {
    repainted(
        lit(repainted(cells, scenery(area, back, frame)), buffer, area),
        wall(area, back),
    )
}

/// Paints everything behind the play: sky, stands and ground, then the floodlights,
/// then the wall.
pub fn paint_background(buf: &mut Buffer, area: Rect, back: &Backdrop, frame: u64)
    requires
        complete(*old(buf)),
        inside(area, buffer_area(*old(buf))),
        area.width > 14 ==> area.y + 1 < bottom(buffer_area(*old(buf))),
        back.covers(area),
    ensures
        buffer_area(*final(buf)) == buffer_area(*old(buf)),
        buffer_cells(*final(buf)).dom() == buffer_cells(*old(buf)).dom(),
        buffer_cells(*final(buf)) == background(
            buffer_cells(*old(buf)),
            buffer_area(*old(buf)),
            area,
            *back,
            frame,
        ),
{
    paint_scenery(buf, area, back, frame);
    assert(buffer_cells(*buf).dom() =~= buffer_cells(*old(buf)).dom());
    if area.width > 14 {
        let lamp = Style::plain().fg(rgb(255, 248, 214)).bold();
        set_string(buf, area.x + 3, area.y + 1, "✦", lamp);
        set_string(buf, area.x + area.width - 4, area.y + 1, "✦", lamp);
    }
    paint_wall(buf, area, back);
    assert(buffer_cells(*buf).dom() =~= buffer_cells(*old(buf)).dom());
}

/// Only the crowd twinkles, and only every fourteen frames: in whatever frames the
/// background is painted, it looks the same outside the three rows of stands, and within
/// the same fourteen frames it looks the same everywhere.
pub proof fn law_only_the_crowd_twinkles(
    cells: Map<(u16, u16), CellView>,
    buffer: Rect,
    area: Rect,
    back: Backdrop,
    f1: u64,
    f2: u64,
    p: (u16, u16),
)
    requires
        cells.contains_key(p),
    ensures
        f1 / 14 == f2 / 14 ==> background(cells, buffer, area, back, f1) == background(
            cells,
            buffer,
            area,
            back,
            f2,
        ),
        !(horizon_row(area) - 3 <= p.1 < horizon_row(area)) ==> background(
            cells,
            buffer,
            area,
            back,
            f1,
        )[p] == background(cells, buffer, area, back, f2)[p],
{
    reveal_strlit("✦");
    let a1 = repainted(cells, scenery(area, back, f1));
    let a2 = repainted(cells, scenery(area, back, f2));
    if f1 / 14 == f2 / 14 {
        assert(a1 =~= a2);
    }
    if !(horizon_row(area) - 3 <= p.1 < horizon_row(area)) {
        assert(a1[p] == a2[p]);
        assert(crate::screen::all_narrow("✦"@));
        assert(lit(a1, buffer, area)[p] == lit(a2, buffer, area)[p]);
    }
}

} // verus!
