//! The scoreboard above the picture, the bar below it and the boxes over it.

use crate::game::{Game, GameView, Phase};
use crate::hud::{is_tiny, pictured, render, tiny, Scene};
use crate::panel::{
    characters, cleared, framed, indent, lines_view, narrow_lines, render_box, render_clear,
    render_lines, span_view, typeset, Line, Span, SpanView,
};
use crate::score::{
    advantage_text, ahead, label_text, name_text, of, past_forty_all, pips, pips_text, player_name,
    pt_label, situation, situation_color, situation_text, stake_text, ScoreView, GAMES_TO_WIN,
};
use crate::screen::{
    all_narrow, area_of, bottom, buffer_area, buffer_cells, buffer_len, complete, fits, inside,
    is_complete, lemma_narrow_digits, lemma_narrow_sum, within, CellView,
};
use crate::style::{bad_color, ball_color, cpu_color, good_color, rgb, you_color, Style};
use crate::text::{blanks, decimal, digits, pad_left, right_aligned, spaces};
use ratatui::buffer::Buffer;
use ratatui::layout::{Constraint, Layout, Rect};
use ratatui::style::Color;
use vstd::prelude::*;

verus! {

/// A span with the given text and style.
pub fn span(content: &str, style: Style) -> (s: Span)
    ensures
        s@ == span_view(content@, style),
{
    Span { content: content.to_owned(), style }
}

/// The colour of a player.
pub open spec fn player_color(i: int) -> Color {
    if i == 0 {
        you_color()
    } else {
        cpu_color()
    }
}

/// The line of a player: a blinking ball for the server, the name, the points, the
/// games.
pub open spec fn row_view(g: GameView, i: int) -> Seq<SpanView> {
    let color = player_color(i);
    seq![
        span_view(
            if g.score.server == i && g.frame % 64 < 40 {
                " ● "@
            } else {
                "   "@
            },
            Style::plain().fg(ball_color()),
        ),
        span_view(name_text(i) + " "@, Style::plain().fg(color).bold()),
        span_view(
            right_aligned(label_text(of(g.score.pts, i), of(g.score.pts, 1 - i)), 3),
            Style::plain().fg(Color::White).bold(),
        ),
        span_view("    "@, Style::plain()),
        span_view(pips_text(of(g.score.games, i)), Style::plain().fg(color).bold()),
        span_view("  "@, Style::plain()),
        span_view(
            "GAMES "@ + digits(of(g.score.games, i)),
            Style::plain().fg(rgb(104, 116, 144)),
        ),
    ]
}

/// The line of a player.
pub fn score_row(g: &Game, i: usize) -> (l: Line)
    requires
        i <= 1,
    ensures
        l@ == row_view(g@, i as int),
{
    let s = &g.score;
    let serving = s.server as usize == i;
    let color = if i == 0 {
        you_color()
    } else {
        cpu_color()
    };
    let mut name = player_name(i).to_owned();
    name.append(" ");
    let mut games = "GAMES ".to_owned();
    games.append(decimal(s.games[i] as u64).as_str());
    let label = pt_label(s.pts[i], s.pts[1 - i]);
    let spans = vec![
        span(if serving && g.frame % 64 < 40 { " ● " } else { "   " }, Style::plain().fg(ball_color())),
        span(name.as_str(), Style::plain().fg(color).bold()),
        span(pad_left(label.as_str(), 3).as_str(), Style::plain().fg(Color::White).bold()),
        span("    ", Style::plain()),
        span(pips(s.games[i]).as_str(), Style::plain().fg(color).bold()),
        span("  ", Style::plain()),
        span(games.as_str(), Style::plain().fg(rgb(104, 116, 144))),
    ];
    let l = Line { spans };
    assert(l@ =~= row_view(g@, i as int));
    l
}

/// The remark at the right end of the header. `speed` is that of the ball in km/h, if
/// it is fast enough to be shown.
pub open spec fn remark_text(g: GameView, speed: Option<u64>) -> Seq<char> {
    match g.phase {
        Phase::Serve { server, wait } => "SERVICE — "@ + name_text(server as int) + " "@,
        Phase::Over => "MATCH OVER "@,
        _ => match speed {
            Some(kmh) => if g.ball_live {
                "RALLY "@ + right_aligned(
                    digits(
                        if g.rally > 1 {
                            g.rally
                        } else {
                            1
                        },
                    ),
                    2,
                ) + " · "@ + right_aligned(digits(kmh as nat), 3) + " KM/H "@
            } else {
                "FIRST TO 3 GAMES "@
            },
            None => "FIRST TO 3 GAMES "@,
        },
    }
}

/// The remark at the right end of the header.
pub fn remark(g: &Game, speed: Option<u64>) -> (s: String)
    ensures
        s@ == remark_text(g@, speed),
{
    match g.phase {
        Phase::Serve { server, wait } => {
            let mut s = "SERVICE — ".to_owned();
            s.append(player_name(server as usize));
            s.append(" ");
            s
        },
        Phase::Over => "MATCH OVER ".to_owned(),
        _ => {
            if let Some(kmh) = speed {
                if g.ball_live {
                    let strokes: u64 = if g.rally > 1 {
                        g.rally as u64
                    } else {
                        1
                    };
                    let mut s = "RALLY ".to_owned();
                    s.append(pad_left(decimal(strokes).as_str(), 2).as_str());
                    s.append(" · ");
                    s.append(pad_left(decimal(kmh).as_str(), 3).as_str());
                    s.append(" KM/H ");
                    return s;
                }
            }
            "FIRST TO 3 GAMES ".to_owned()
        },
    }
}

/// The header: the title at the left edge, the remark at the right edge.
pub open spec fn header_view(g: GameView, width: nat, speed: Option<u64>) -> Seq<SpanView> {
    let title = " RATATUI OPEN"@;
    let place = " · CENTRE COURT"@;
    let remark = remark_text(g, speed);
    let used = title.len() + place.len() + remark.len();
    seq![
        span_view(title, Style::plain().fg(rgb(150, 182, 255)).bold()),
        span_view(place, Style::plain().fg(rgb(88, 100, 130))),
        span_view(
            blanks(
                if width > used {
                    (width - used) as nat
                } else {
                    0
                },
            ),
            Style::plain(),
        ),
        span_view(remark, Style::plain().fg(rgb(255, 214, 120)).bold()),
    ]
}

/// The scoreboard: header, the two players, where the game stands.
pub open spec fn scoreboard_view(g: GameView, width: nat, speed: Option<u64>) -> Seq<
    Seq<SpanView>,
> {
    seq![
        header_view(g, width, speed),
        row_view(g, 0),
        row_view(g, 1),
        seq![
            span_view("   "@, Style::plain()),
            span_view(
                situation_text(g.score),
                Style::plain().fg(situation_color(g.score)).bold(),
            ),
        ],
    ]
}

/// The header of the scoreboard.
fn header(g: &Game, width: u16, speed: Option<u64>) -> (l: Line)
    ensures
        l@ == header_view(g@, width as nat, speed),
{
    let title = " RATATUI OPEN";
    let place = " · CENTRE COURT";
    proof {
        reveal_strlit(" RATATUI OPEN");
        reveal_strlit(" · CENTRE COURT");
    }
    let right = remark(g, speed);
    let left_len: usize = title.unicode_len() + place.unicode_len();
    let right_len: usize = right.as_str().unicode_len();
    let room: usize = (width as usize).saturating_sub(left_len);
    let pad: usize = room.saturating_sub(right_len);
    let spans = vec![
        span(title, Style::plain().fg(rgb(150, 182, 255)).bold()),
        span(place, Style::plain().fg(rgb(88, 100, 130))),
        span(spaces(pad).as_str(), Style::plain()),
        span(right.as_str(), Style::plain().fg(rgb(255, 214, 120)).bold()),
    ];
    let l = Line { spans };
    assert(l@ =~= header_view(g@, width as nat, speed));
    l
}

/// The lines of the scoreboard.
pub fn scoreboard(g: &Game, width: u16, speed: Option<u64>) -> (lines: Vec<Line>)
    requires
        g@.score.games.0 + g@.score.games.1 < 255,
    ensures
        lines_view(lines@) == scoreboard_view(g@, width as nat, speed),
{
    let (text, color) = situation(&g.score);
    let status = Line {
        spans: vec![
            span("   ", Style::plain()),
            span(text.as_str(), Style::plain().fg(color).bold()),
        ],
    };
    assert(status@ =~= scoreboard_view(g@, width as nat, speed)[3]);
    let lines = vec![header(g, width, speed), score_row(g, 0), score_row(g, 1), status];
    assert(lines_view(lines@) =~= scoreboard_view(g@, width as nat, speed));
    lines
}

/// The style of the scoreboard.
#[verifier::allow_in_spec]
pub fn scoreboard_style() -> (s: Style)
    returns
        (Style::plain().bg(rgb(9, 13, 25))),
{
    Style::plain().bg(rgb(9, 13, 25))
}

/// The style of the bottom bar.
#[verifier::allow_in_spec]
pub fn bar_style() -> (s: Style)
    returns
        (Style::plain().bg(rgb(10, 14, 26))),
{
    Style::plain().bg(rgb(10, 14, 26))
}

/// A key in the bottom bar.
pub open spec fn key_view(k: Seq<char>) -> SpanView {
    span_view(" "@ + k + " "@, Style::plain().fg(rgb(230, 236, 250)).bold())
}

/// What a key does.
pub open spec fn hint_view(l: Seq<char>) -> SpanView {
    span_view(l, Style::plain().fg(rgb(96, 106, 130)))
}

/// The bottom bar: the keys and what they do.
pub open spec fn bar_view() -> Seq<SpanView> {
    seq![
        key_view("◀ ▶"@),
        hint_view(" move "@),
        key_view("▲ ▼"@),
        hint_view(" depth "@),
        key_view("SPACE"@),
        hint_view(" serve "@),
        key_view("P"@),
        hint_view(" pause "@),
        key_view("R"@),
        hint_view(" rematch "@),
        key_view("Q"@),
        hint_view(" quit "@),
        span_view("      "@, Style::plain()),
        span_view(
            "centre court · 60 fps · ratatui"@,
            Style::plain().fg(rgb(70, 80, 105)),
        ),
    ]
}

/// A key in the bottom bar.
fn key_span(k: &str) -> (s: Span)
    ensures
        s@ == key_view(k@),
{
    let mut text = " ".to_owned();
    text.append(k);
    text.append(" ");
    span(text.as_str(), Style::plain().fg(rgb(230, 236, 250)).bold())
}

/// What a key does.
fn hint_span(l: &str) -> (s: Span)
    ensures
        s@ == hint_view(l@),
{
    span(l, Style::plain().fg(rgb(96, 106, 130)))
}

/// The lines of the bottom bar.
pub fn bottom_bar() -> (lines: Vec<Line>)
    ensures
        lines_view(lines@) == seq![bar_view()],
{
    let l = Line {
        spans: vec![
            key_span("◀ ▶"),
            hint_span(" move "),
            key_span("▲ ▼"),
            hint_span(" depth "),
            key_span("SPACE"),
            hint_span(" serve "),
            key_span("P"),
            hint_span(" pause "),
            key_span("R"),
            hint_span(" rematch "),
            key_span("Q"),
            hint_span(" quit "),
            span("      ", Style::plain()),
            span("centre court · 60 fps · ratatui", Style::plain().fg(rgb(70, 80, 105))),
        ],
    };
    assert(l@ =~= bar_view());
    let lines = vec![l];
    assert(lines_view(lines@) =~= seq![bar_view()]);
    lines
}

// ── boxes over the picture ───────────────────────────────────────────────────────

/// The smaller of two numbers.
pub open spec fn least(a: int, b: int) -> int {
    if a < b {
        a
    } else {
        b
    }
}

/// The place of a box with `n` lines in the middle of a rectangle: at most 46 columns
/// wide, a margin of two in all, and none if it would be too small.
pub open spec fn box_place(area: Rect, n: int) -> Option<Rect> {
    let w = least(46, area.width - 2);
    let h = least(n + 2, area.height - 2);
    if w < 12 || h < 3 {
        None
    } else {
        Some(
            Rect {
                x: (area.x + (area.width - w) / 2) as u16,
                y: (area.y + (area.height - h) / 2) as u16,
                width: w as u16,
                height: h as u16,
            },
        )
    }
}

/// The place of a box with `n` lines.
pub fn overlay_rect(area: Rect, n: usize) -> (r: Option<Rect>)
    requires
        fits(area),
        n <= u16::MAX - 2,
    ensures
        r == box_place(area, n as int),
        r matches Some(b) ==> inside(b, area),
{
    let wide: u16 = area.width.saturating_sub(2);
    let w: u16 = if 46 < wide {
        46
    } else {
        wide
    };
    let high: u16 = area.height.saturating_sub(2);
    let lines: u16 = n as u16 + 2;
    let h: u16 = if lines < high {
        lines
    } else {
        high
    };
    if w < 12 || h < 3 {
        return None;
    }
    Some(
        Rect {
            x: area.x + (area.width - w) / 2,
            y: area.y + (area.height - h) / 2,
            width: w,
            height: h,
        },
    )
}

/// The style inside a box.
#[verifier::allow_in_spec]
pub fn box_style() -> (s: Style)
    returns
        (Style::plain().bg(rgb(11, 15, 27))),
{
    Style::plain().bg(rgb(11, 15, 27))
}

/// The cells after a box was drawn over what was there.
pub open spec fn overlaid(
    cells: Map<(u16, u16), CellView>,
    buffer: Rect,
    area: Rect,
    title: Seq<char>,
    lines: Seq<Seq<SpanView>>,
    color: Color,
) -> Map<(u16, u16), CellView> {
    match box_place(area, lines.len() as int) {
        Some(r) => framed(
            cleared(cells, r),
            buffer,
            r,
            " "@ + title + " "@,
            color,
            lines,
            box_style(),
        ),
        None => cells,
    }
}

/// Draws a box with a title in the middle of a rectangle.
pub fn overlay(buf: &mut Buffer, area: Rect, title: &str, lines: &Vec<Line>, color: Color)
    requires
        complete(*old(buf)),
        inside(area, buffer_area(*old(buf))),
        lines@.len() <= u16::MAX - 2,
    ensures
        buffer_area(*final(buf)) == buffer_area(*old(buf)),
        buffer_cells(*final(buf)).dom() == buffer_cells(*old(buf)).dom(),
        buffer_cells(*final(buf)) == overlaid(
            buffer_cells(*old(buf)),
            buffer_area(*old(buf)),
            area,
            title@,
            lines_view(lines@),
            color,
        ),
        forall|p: (u16, u16)|
            buffer_cells(*old(buf)).contains_key(p) && (box_place(
                area,
                lines@.len() as int,
            ) matches Some(r) ==> !within(r, p.0 as int, p.1 as int)) ==> #[trigger] buffer_cells(
                *final(buf),
            )[p] == buffer_cells(*old(buf))[p],
{
    if let Some(r) = overlay_rect(area, lines.len()) {
        let mut heading = " ".to_owned();
        heading.append(title);
        heading.append(" ");
        render_clear(buf, r);
        assert(buffer_cells(*buf).dom() =~= buffer_cells(*old(buf)).dom());
        render_box(buf, r, heading.as_str(), color, lines, box_style());
    }
}

/// The box of a match that is paused.
pub open spec fn paused_view() -> Seq<Seq<SpanView>> {
    seq![
        Seq::empty(),
        seq![span_view("press P to resume"@, Style::plain().fg(rgb(200, 210, 235)))],
    ]
}

/// The colour of a match that was won or lost by the player.
pub open spec fn result_color(score: ScoreView) -> Color {
    if score.games.0 > score.games.1 {
        good_color()
    } else {
        bad_color()
    }
}

/// The box of a match that is over.
pub open spec fn result_view(score: ScoreView) -> Seq<Seq<SpanView>> {
    seq![
        Seq::empty(),
        seq![
            span_view(
                if score.games.0 > score.games.1 {
                    ">> YOU WIN THE MATCH <<"@
                } else {
                    "CPU TAKES THE MATCH"@
                },
                Style::plain().fg(result_color(score)).bold(),
            ),
        ],
        seq![
            span_view(
                "games "@ + digits(score.games.0) + "–"@ + digits(score.games.1),
                Style::plain(),
            ),
        ],
        seq![
            span_view("R — rematch · Q — quit"@, Style::plain().fg(rgb(150, 160, 185))),
        ],
    ]
}

/// A line of one span.
fn line_of(s: Span) -> (l: Line)
    ensures
        l@ == seq![s@],
{
    let l = Line { spans: vec![s] };
    assert(l@ =~= seq![s@]);
    l
}

/// The lines of the box of a match that is paused.
pub fn paused_lines() -> (lines: Vec<Line>)
    ensures
        lines_view(lines@) == paused_view(),
{
    let empty = Line { spans: Vec::new() };
    assert(empty@ =~= Seq::empty());
    let lines = vec![
        empty,
        line_of(span("press P to resume", Style::plain().fg(rgb(200, 210, 235)))),
    ];
    assert(lines_view(lines@) =~= paused_view());
    lines
}

/// The lines of the box of a match that is over.
pub fn result_lines(g: &Game) -> (lines: Vec<Line>)
    ensures
        lines_view(lines@) == result_view(g@.score),
{
    let you_win = g.score.games[0] > g.score.games[1];
    let color = if you_win {
        good_color()
    } else {
        bad_color()
    };
    let mut games = "games ".to_owned();
    games.append(decimal(g.score.games[0] as u64).as_str());
    games.append("–");
    games.append(decimal(g.score.games[1] as u64).as_str());
    let verdict = if you_win {
        ">> YOU WIN THE MATCH <<"
    } else {
        "CPU TAKES THE MATCH"
    };
    let empty = Line { spans: Vec::new() };
    assert(empty@ =~= Seq::empty());
    let lines = vec![
        empty,
        line_of(span(verdict, Style::plain().fg(color).bold())),
        line_of(span(games.as_str(), Style::plain())),
        line_of(span("R — rematch · Q — quit", Style::plain().fg(rgb(150, 160, 185)))),
    ];
    assert(lines_view(lines@) =~= result_view(g@.score));
    lines
}

// ── the whole screen ─────────────────────────────────────────────────────────────

/// The rows that a rectangle has.
pub open spec fn row_count(r: Rect) -> int {
    bottom(r) - r.y
}

/// The parts of a rectangle are as wide as it is, touch one another in order and fill it.
/// If there is room for all that they ask for, the outer two are as high as they ask to be
/// and the middle one takes the rest; if not, the middle one comes first and the outer two
/// share what it leaves.
pub open spec fn divided(area: Rect, top: int, middle: int, base: int, rows: Seq<Rect>) -> bool {
    &&& rows.len() == 3
    &&& forall|i: int|
        0 <= i < 3 ==> (#[trigger] rows[i]).x == area.x && rows[i].width == area.width
    &&& rows[0].y == area.y
    &&& rows[1].y == rows[0].y + rows[0].height
    &&& rows[2].y == rows[1].y + rows[1].height
    &&& rows[2].y + rows[2].height == bottom(area)
    &&& rows[0].height <= top
    &&& rows[2].height <= base
    &&& rows[1].height == (if top + middle + base <= row_count(area) {
        row_count(area) - top - base
    } else {
        least(middle, row_count(area))
    })
}

/// `Layout::split` with three vertical constraints: a fixed height, a least height and a
/// fixed height, of which the least height has priority. The parts leave no gap and do not
/// overlap: that is stronger than any of the heights. The fixed heights are stronger than
/// the wish of the middle part to grow. How the outer two share what is left when there is
/// not enough for both is not stated: every share weighs the same, and the solver picks its
/// steps by walking hash maps that are seeded anew each time.
#[verifier::external_body]
pub(crate) fn split_rows(area: Rect, top: u8, middle: u8, base: u8) -> (rows: Vec<Rect>)
    ensures
        divided(area, top as int, middle as int, base as int, rows@),
{
    let rows = [
        Constraint::Length(top as u16),
        Constraint::Min(middle as u16),
        Constraint::Length(base as u16),
    ];
    Layout::vertical(rows).split(area).to_vec()
}

/// Divides the screen: scoreboard, picture, bottom bar.
pub fn screen_rows(area: Rect) -> (rows: Vec<Rect>)
    ensures
        divided(area, 4, 6, 2, rows@),
{
    split_rows(area, 4, 6, 2)
}

/// The cells after the whole screen was drawn: scoreboard, picture, bottom bar, and a
/// box over the picture while the match is paused or over.
pub open spec fn drawn(
    cells: Map<(u16, u16), CellView>,
    buffer: Rect,
    top: Rect,
    middle: Rect,
    base: Rect,
    g: GameView,
    s: Scene,
    speed: Option<u64>,
) -> Map<(u16, u16), CellView> {
    let a = typeset(
        cells,
        top,
        scoreboard_view(g, top.width as nat, speed),
        scoreboard_style(),
    );
    let b = pictured(a, buffer, middle, g, s);
    let c = typeset(b, base, seq![bar_view()], bar_style());
    let d = if g.paused {
        overlaid(c, buffer, middle, "PAUSED"@, paused_view(), rgb(120, 140, 190))
    } else {
        c
    };
    if g.phase is Over {
        overlaid(
            d,
            buffer,
            middle,
            "MATCH OVER"@,
            result_view(g.score),
            result_color(g.score),
        )
    } else {
        d
    }
}

/// Draws the whole screen, given how it is divided.
pub fn draw(
    buf: &mut Buffer,
    top: Rect,
    middle: Rect,
    base: Rect,
    g: &Game,
    s: &Scene,
    speed: Option<u64>,
)
    requires
        complete(*old(buf)),
        inside(top, buffer_area(*old(buf))),
        inside(middle, buffer_area(*old(buf))),
        inside(base, buffer_area(*old(buf))),
        top.width < u16::MAX && base.width < u16::MAX,
        g@.score.games.0 + g@.score.games.1 < 255,
        !tiny(middle) ==> s.covers(middle),
    ensures
        buffer_area(*final(buf)) == buffer_area(*old(buf)),
        buffer_cells(*final(buf)).dom() == buffer_cells(*old(buf)).dom(),
        buffer_cells(*final(buf)) == drawn(
            buffer_cells(*old(buf)),
            buffer_area(*old(buf)),
            top,
            middle,
            base,
            g@,
            *s,
            speed,
        ),
{
    proof {
        law_board_is_set_cell_by_cell(g@, top.width as nat, speed);
    }
    let lines = scoreboard(g, top.width, speed);
    render_lines(buf, top, &lines, scoreboard_style());
    assert(buffer_cells(*buf).dom() =~= buffer_cells(*old(buf)).dom());
    render(buf, middle, g, s);
    let bar = bottom_bar();
    render_lines(buf, base, &bar, bar_style());
    assert(buffer_cells(*buf).dom() =~= buffer_cells(*old(buf)).dom());
    if g.paused {
        let lines = paused_lines();
        assert(lines@.len() == paused_view().len());
        overlay(buf, middle, "PAUSED", &lines, rgb(120, 140, 190));
    }
    if let Phase::Over = g.phase {
        let lines = result_lines(g);
        assert(lines@.len() == result_view(g@.score).len());
        let color = if g.score.games[0] > g.score.games[1] {
            good_color()
        } else {
            bad_color()
        };
        overlay(buf, middle, "MATCH OVER", &lines, color);
    }
}

/// Whether a rectangle lies in another one.
fn is_inside(r: Rect, outer: Rect) -> (b: bool)
    ensures
        b == inside(r, outer),
{
    let right: u32 = outer.x.saturating_add(outer.width) as u32;
    let bottom: u32 = outer.y.saturating_add(outer.height) as u32;
    outer.x <= r.x && outer.y <= r.y && r.x as u32 + r.width as u32 <= right && r.y as u32
        + r.height as u32 <= bottom
}

/// All that drawing the whole screen asks for.
pub open spec fn drawable(
    b: Buffer,
    top: Rect,
    middle: Rect,
    base: Rect,
    g: GameView,
    s: Scene,
) -> bool {
    &&& buffer_len(b) == buffer_area(b).width * buffer_area(b).height
    &&& inside(top, buffer_area(b))
    &&& inside(middle, buffer_area(b))
    &&& inside(base, buffer_area(b))
    &&& top.width < u16::MAX && base.width < u16::MAX
    &&& g.score.games.0 + g.score.games.1 < 255
    &&& !tiny(middle) ==> s.covers(middle)
}

/// Draws the whole screen if grid, rectangles and scene belong together, and tells
/// whether they do.
pub fn try_draw(
    buf: &mut Buffer,
    top: Rect,
    middle: Rect,
    base: Rect,
    g: &Game,
    s: &Scene,
    speed: Option<u64>,
) -> (done: bool)
    ensures
        done == drawable(*old(buf), top, middle, base, g@, *s),
        done ==> buffer_area(*final(buf)) == buffer_area(*old(buf)) && buffer_cells(*final(buf))
            == drawn(
            buffer_cells(*old(buf)),
            buffer_area(*old(buf)),
            top,
            middle,
            base,
            g@,
            *s,
            speed,
        ),
        !done ==> *final(buf) == *old(buf),
{
    let area = area_of(buf);
    if !is_complete(buf) || !is_inside(top, area) || !is_inside(middle, area) || !is_inside(
        base,
        area,
    ) {
        return false;
    }
    if top.width == u16::MAX || base.width == u16::MAX {
        return false;
    }
    if g.score.games[0] as u32 + g.score.games[1] as u32 >= 255 {
        return false;
    }
    if !is_tiny(middle) && !s.is_enough_for(middle) {
        return false;
    }
    draw(buf, top, middle, base, g, s, speed);
    true
}

// ── what holds of the screen ─────────────────────────────────────────────────────

/// A box lies in the middle: in the rectangle, with a margin, and the margins at
/// opposite sides differ by at most one.
pub proof fn law_box_is_in_the_middle(area: Rect, n: int)
    requires
        fits(area),
        0 <= n <= u16::MAX - 2,
    ensures
        box_place(area, n) matches Some(r) ==> {
            let left = r.x - area.x;
            let right = area.x + area.width - (r.x + r.width);
            let above = r.y - area.y;
            let below = area.y + area.height - (r.y + r.height);
            &&& 1 <= left <= right <= left + 1
            &&& 1 <= above <= below <= above + 1
            &&& 12 <= r.width <= 46
            &&& 3 <= r.height <= n + 2
        },
{
}

/// A box is drawn exactly if it has a line and there are at least fourteen columns and five
/// rows for it.
pub proof fn law_box_needs_room(area: Rect, n: int)
    requires
        0 <= n,
    ensures
        box_place(area, n) is None <==> area.width < 14 || area.height < 5 || n == 0,
{
}

/// However few rows there are, the parts of the screen lie in it, cover it, and no two of
/// them overlap.
pub proof fn law_parts_do_not_overlap(
    area: Rect,
    top: int,
    middle: int,
    base: int,
    rows: Seq<Rect>,
    i: int,
    j: int,
    x: int,
    y: int,
)
    requires
        divided(area, top, middle, base, rows),
        0 <= i < j < 3,
    ensures
        !(within(rows[i], x, y) && within(rows[j], x, y)),
        fits(area) ==> inside(rows[i], area) && inside(rows[j], area),
        within(area, x, y) ==> within(rows[0], x, y) || within(rows[1], x, y) || within(
            rows[2],
            x,
            y,
        ),
{
}

/// The header is exactly as wide as the screen if title and remark fit into it, and the
/// remark then ends at the right edge.
pub proof fn law_header_fills_the_width(g: GameView, width: nat, speed: Option<u64>)
    ensures
        ({
            let line = characters(header_view(g, width, speed));
            let remark = remark_text(g, speed);
            let used = " RATATUI OPEN"@.len() + " · CENTRE COURT"@.len() + remark.len();
            &&& width >= used ==> line.len() == width
            &&& width < used ==> line.len() == used
            &&& forall|i: int|
                0 <= i < remark.len() ==> (#[trigger] line[line.len() - remark.len() + i]).0
                    == remark[i]
        }),
{
    reveal_with_fuel(characters, 5);
    let h = header_view(g, width, speed);
    let h3 = h.drop_last();
    let h2 = h3.drop_last();
    let h1 = h2.drop_last();
    assert(h.len() == 4 && h3.len() == 3 && h2.len() == 2 && h1.len() == 1);
    assert(h1.drop_last().len() == 0);
    assert(characters(h1).len() == h[0].content.len());
    assert(characters(h2).len() == h[0].content.len() + h[1].content.len());
    assert(characters(h3).len() == h[0].content.len() + h[1].content.len() + h[2].content.len());
    assert(characters(h) == characters(h3) + Seq::new(
        h[3].content.len(),
        |i: int| (h[3].content[i], h[3].style),
    ));
}

proof fn lemma_narrow_name(i: int)
    ensures
        all_narrow(name_text(i)),
        all_narrow(" "@),
        all_narrow(" — "@),
        all_narrow(" · "@),
{
    reveal_strlit("YOU");
    reveal_strlit("CPU");
    reveal_strlit(" ");
    reveal_strlit(" — ");
    reveal_strlit(" · ");
}

proof fn lemma_narrow_row(g: GameView, i: int)
    ensures
        forall|k: int| 0 <= k < row_view(g, i).len() ==> all_narrow((#[trigger] row_view(g, i)[k]).content),
{
    reveal_strlit(" ● ");
    reveal_strlit("   ");
    reveal_strlit("    ");
    reveal_strlit("  ");
    reveal_strlit("GAMES ");
    reveal_strlit("AD");
    reveal_strlit("0");
    reveal_strlit("15");
    reveal_strlit("30");
    reveal_strlit("40");
    lemma_narrow_name(i);
    lemma_narrow_digits(of(g.score.games, i));
    lemma_narrow_sum(name_text(i), " "@);
    lemma_narrow_sum("GAMES "@, digits(of(g.score.games, i)));
    let label = label_text(of(g.score.pts, i), of(g.score.pts, 1 - i));
    assert(all_narrow(label));
    assert(all_narrow(right_aligned(label, 3)));
    assert(all_narrow(pips_text(of(g.score.games, i))));
}

proof fn lemma_narrow_remark(g: GameView, speed: Option<u64>)
    ensures
        all_narrow(remark_text(g, speed)),
{
    reveal_strlit("SERVICE — ");
    reveal_strlit("MATCH OVER ");
    reveal_strlit("RALLY ");
    reveal_strlit(" KM/H ");
    reveal_strlit("FIRST TO 3 GAMES ");
    match g.phase {
        Phase::Serve { server, wait } => {
            lemma_narrow_name(server as int);
            lemma_narrow_sum("SERVICE — "@, name_text(server as int));
            lemma_narrow_sum("SERVICE — "@ + name_text(server as int), " "@);
        },
        Phase::Over => {},
        _ => {
            if let Some(kmh) = speed {
                let n = if g.rally > 1 {
                    g.rally
                } else {
                    1
                };
                lemma_narrow_digits(n);
                lemma_narrow_digits(kmh as nat);
                lemma_narrow_name(0);
                let a = right_aligned(digits(n), 2);
                let b = right_aligned(digits(kmh as nat), 3);
                assert(all_narrow(a));
                assert(all_narrow(b));
                lemma_narrow_sum("RALLY "@, a);
                lemma_narrow_sum("RALLY "@ + a, " · "@);
                lemma_narrow_sum("RALLY "@ + a + " · "@, b);
                lemma_narrow_sum("RALLY "@ + a + " · "@ + b, " KM/H "@);
            }
        },
    }
}

proof fn lemma_narrow_situation(s: ScoreView)
    ensures
        all_narrow(situation_text(s)),
{
    reveal_strlit("MATCH POINT");
    reveal_strlit("BREAK POINT");
    reveal_strlit("GAME POINT");
    reveal_strlit("ADVANTAGE · MATCH POINT");
    reveal_strlit("ADVANTAGE · BREAK POINT");
    reveal_strlit("ADVANTAGE");
    reveal_strlit("DEUCE");
    reveal_strlit("GAME ");
    reveal_strlit(" OF ");
    reveal_strlit(" SERVING");
    match ahead(s) {
        Some(i) => {
            lemma_narrow_name(i);
            let label = if past_forty_all(s) {
                advantage_text(s, i)
            } else {
                stake_text(s, i)
            };
            lemma_narrow_sum(label, " — "@);
            lemma_narrow_sum(label + " — "@, name_text(i));
        },
        None => {
            let a = digits(s.games.0 + s.games.1 + 1);
            let b = digits((2 * GAMES_TO_WIN - 1) as nat);
            lemma_narrow_digits(s.games.0 + s.games.1 + 1);
            lemma_narrow_digits((2 * GAMES_TO_WIN - 1) as nat);
            lemma_narrow_name(s.server as int);
            lemma_narrow_sum("GAME "@, a);
            lemma_narrow_sum("GAME "@ + a, " OF "@);
            lemma_narrow_sum("GAME "@ + a + " OF "@, b);
            lemma_narrow_sum("GAME "@ + a + " OF "@ + b, " · "@);
            lemma_narrow_sum("GAME "@ + a + " OF "@ + b + " · "@, name_text(s.server as int));
            lemma_narrow_sum(
                "GAME "@ + a + " OF "@ + b + " · "@ + name_text(s.server as int),
                " SERVING"@,
            );
        },
    }
}

/// Every character of the scoreboard and of the bottom bar takes up one cell, so that
/// both are set character by character.
pub proof fn law_board_is_set_cell_by_cell(g: GameView, width: nat, speed: Option<u64>)
    ensures
        narrow_lines(scoreboard_view(g, width, speed)),
        narrow_lines(seq![bar_view()]),
{
    let v = scoreboard_view(g, width, speed);
    reveal_strlit(" RATATUI OPEN");
    reveal_strlit(" · CENTRE COURT");
    reveal_strlit("   ");
    lemma_narrow_remark(g, speed);
    lemma_narrow_row(g, 0);
    lemma_narrow_row(g, 1);
    lemma_narrow_situation(g.score);
    assert forall|i: int, j: int| 0 <= i < v.len() && 0 <= j < v[i].len() implies all_narrow(
        (#[trigger] v[i][j]).content,
    ) by {
        if i == 1 {
            assert(v[i][j] == row_view(g, 0)[j]);
        } else if i == 2 {
            assert(v[i][j] == row_view(g, 1)[j]);
        }
    }
    reveal_strlit("◀ ▶");
    reveal_strlit(" move ");
    reveal_strlit("▲ ▼");
    reveal_strlit(" depth ");
    reveal_strlit("SPACE");
    reveal_strlit(" serve ");
    reveal_strlit("P");
    reveal_strlit(" pause ");
    reveal_strlit("R");
    reveal_strlit(" rematch ");
    reveal_strlit("Q");
    reveal_strlit(" quit ");
    reveal_strlit("      ");
    reveal_strlit("centre court · 60 fps · ratatui");
    reveal_strlit(" ");
    let b = seq![bar_view()];
    assert forall|i: int, j: int| 0 <= i < b.len() && 0 <= j < b[i].len() implies all_narrow(
        (#[trigger] b[i][j]).content,
    ) by {
    }
}

/// Every character of the boxes takes up one cell.
pub proof fn law_boxes_are_set_cell_by_cell(score: ScoreView)
    ensures
        narrow_lines(paused_view()),
        narrow_lines(result_view(score)),
{
    reveal_strlit("press P to resume");
    reveal_strlit(">> YOU WIN THE MATCH <<");
    reveal_strlit("CPU TAKES THE MATCH");
    reveal_strlit("games ");
    reveal_strlit("–");
    reveal_strlit("R — rematch · Q — quit");
    lemma_narrow_digits(score.games.0);
    lemma_narrow_digits(score.games.1);
    lemma_narrow_sum("games "@, digits(score.games.0));
    lemma_narrow_sum("games "@ + digits(score.games.0), "–"@);
    lemma_narrow_sum("games "@ + digits(score.games.0) + "–"@, digits(score.games.1));
}

/// A box can be read: the characters of a line that fits into it stand side by side in the
/// middle of their row, and the margins at its two sides differ by at most one.
pub proof fn law_box_is_readable(
    cells: Map<(u16, u16), CellView>,
    buffer: Rect,
    area: Rect,
    title: Seq<char>,
    lines: Seq<Seq<SpanView>>,
    color: Color,
    r: Rect,
    k: int,
    i: int,
)
    requires
        forall|x: u16, y: u16|
            within(buffer, x as int, y as int) ==> #[trigger] cells.contains_key((x, y)),
        inside(area, buffer),
        all_narrow(title),
        narrow_lines(lines),
        lines.len() <= u16::MAX - 2,
        box_place(area, lines.len() as int) == Some(r),
        0 <= k < lines.len(),
        k < r.height - 2,
        0 <= i < characters(lines[k]).len() <= r.width - 2,
    ensures
        ({
            let n = characters(lines[k]).len() as int;
            let left = indent(r.width - 2, n);
            let right = r.width - 2 - (left + n);
            let p = ((r.x + 1 + left + i) as u16, (r.y + 1 + k) as u16);
            &&& 0 <= left && 0 <= right && -1 <= left - right <= 1
            &&& overlaid(cells, buffer, area, title, lines, color)[p].symbol
                == seq![characters(lines[k])[i].0]
        }),
{
    reveal_strlit(" ");
    lemma_narrow_sum(" "@, title);
    lemma_narrow_sum(" "@ + title, " "@);
    let n = characters(lines[k]).len() as int;
    let p = ((r.x + 1 + indent(r.width - 2, n) + i) as u16, (r.y + 1 + k) as u16);
    assert(within(buffer, p.0 as int, p.1 as int));
    assert(cells.contains_key(p));
}

} // verus!
