//! What is written over the picture, and the picture as a whole.

use crate::backdrop::{background, paint_background, Backdrop};
use crate::court::{
    actor_dots, add_alike, alike, court_dots, court_lines, lines_of_court, net_dots, paint_actors,
    paint_court_lines, paint_net, Actors, NetMarks, Trace,
};
use crate::effects::TRAIL_LEN;
use crate::game::{Game, GameView, Phase};
use crate::laws::narrow_news;
use crate::screen::{
    all_narrow, all_plotted, bottom, buffer_area, buffer_cells, complete, inside,
    law_plots_touch_only_their_cells, lemma_narrow_digits, lemma_narrow_sum, plot_all, set_string,
    within, written, CellView, Dot,
};
use crate::style::{ball_color, info_color, rgb, Style};
use crate::text::{decimal, digits};
use ratatui::buffer::Buffer;
use ratatui::layout::Rect;
use vstd::prelude::*;

verus! {

/// The column from which on a text of `w` characters is written to be centred.
pub open spec fn text_column(area: Rect, w: int) -> int {
    area.x + (area.width - w) / 2
}

/// The cells after a text was centred in a row of a rectangle; a text that does not
/// fit, or a row that is not in the rectangle, changes nothing.
pub open spec fn centered(
    cells: Map<(u16, u16), CellView>,
    buffer: Rect,
    area: Rect,
    row: int,
    text: Seq<char>,
    style: Style,
) -> Map<(u16, u16), CellView> {
    let w = text.len() as int % 0x1_0000;
    if w >= area.width || row < area.y || row >= area.y + area.height {
        cells
    } else {
        written(cells, buffer, text_column(area, w) as u16, row as u16, text, style)
    }
}

/// Centres a text in a row of a rectangle.
pub fn center_text(buf: &mut Buffer, area: Rect, row: u16, text: &str, style: Style)
    requires
        complete(*old(buf)),
        inside(area, buffer_area(*old(buf))),
    ensures
        buffer_area(*final(buf)) == buffer_area(*old(buf)),
        buffer_cells(*final(buf)).dom() == buffer_cells(*old(buf)).dom(),
        buffer_cells(*final(buf)) == centered(
            buffer_cells(*old(buf)),
            buffer_area(*old(buf)),
            area,
            row as int,
            text@,
            style,
        ),
        forall|p: (u16, u16)|
            buffer_cells(*old(buf)).contains_key(p) && p.1 != row ==> #[trigger] buffer_cells(
                *final(buf),
            )[p] == buffer_cells(*old(buf))[p],
{
    let w: u16 = (text.unicode_len() % 0x1_0000) as u16;
    if w >= area.width || row < area.y || row >= area.y + area.height {
        return;
    }
    set_string(buf, area.x + (area.width - w) / 2, row, text, style);
}

/// Where the player's serve is aimed at, as it is seen.
pub struct ServeMarks {
    pub target: Option<(i64, i64)>,
    pub around: Vec<Option<(i64, i64)>>,
    /// The target is in the bright half of its pulse.
    pub bright: bool,
}

/// The dots of the target of a serve.
pub open spec fn target_dots(m: ServeMarks) -> Seq<Dot> {
    seq![
        Dot {
            at: m.target,
            ch: '×',
            style: Style::plain().fg(
                if m.bright {
                    ball_color()
                } else {
                    rgb(110, 130, 60)
                },
            ).bold(),
        },
    ] + alike(m.around@, '·', Style::plain().fg(rgb(150, 165, 90)))
}

/// What the player is told before a serve.
pub open spec fn prompt_text(server: int) -> Seq<char> {
    if server == 0 {
        "SPACE · SERVE"@
    } else {
        "CPU SERVING…"@
    }
}

/// The cells after the hints for a serve were drawn.
pub open spec fn serve_hints(
    cells: Map<(u16, u16), CellView>,
    buffer: Rect,
    area: Rect,
    server: int,
    m: ServeMarks,
) -> Map<(u16, u16), CellView> {
    centered(
        if server == 0 {
            all_plotted(cells, buffer, target_dots(m))
        } else {
            cells
        },
        buffer,
        area,
        area.y + area.height - 2,
        prompt_text(server),
        Style::plain().fg(info_color()).bold(),
    )
}

/// The cells after the length of a rally was written: from the fourth stroke on, at
/// the upper right.
pub open spec fn rally_count(
    cells: Map<(u16, u16), CellView>,
    buffer: Rect,
    area: Rect,
    rally: nat,
) -> Map<(u16, u16), CellView> {
    let text = "RALLY "@ + digits(rally);
    let indent = if area.width > text.len() + 2 {
        area.width - (text.len() + 2)
    } else {
        0
    };
    written(
        cells,
        buffer,
        (area.x + indent) as u16,
        (area.y + 1) as u16,
        text,
        Style::plain().fg(rgb(255, 205, 100)).bold(),
    )
}

/// The row of the headline: about a third down.
pub open spec fn headline_row(area: Rect) -> int {
    area.y + area.height * 34 / 100
}

/// The cells after everything was written over the picture: hints for a serve, the
/// length of a rally, headline and subtitle.
pub open spec fn overwritten(
    cells: Map<(u16, u16), CellView>,
    buffer: Rect,
    area: Rect,
    g: GameView,
    m: ServeMarks,
) -> Map<(u16, u16), CellView> {
    let hinted = match g.phase {
        Phase::Serve { server, wait } => serve_hints(cells, buffer, area, server as int, m),
        _ => cells,
    };
    let counted = if g.rally >= 4 && g.phase == Phase::Rally {
        rally_count(hinted, buffer, area, g.rally)
    } else {
        hinted
    };
    let headed = match g.msg {
        Some(news) => centered(
            counted,
            buffer,
            area,
            headline_row(area),
            news.text,
            Style::plain().fg(news.color).bold(),
        ),
        None => counted,
    };
    match g.sub {
        Some(news) => centered(
            headed,
            buffer,
            area,
            headline_row(area) + 2,
            news.text,
            Style::plain().fg(rgb(224, 230, 246)).bold(),
        ),
        None => headed,
    }
}

proof fn lemma_rally_text(n: nat)
    requires
        n <= u32::MAX,
    ensures
        1 <= digits(n).len() <= 10,
    decreases n,
{
    reveal_with_fuel(digits, 11);
}

/// Writes everything that is written over the picture.
pub fn paint_hud(buf: &mut Buffer, area: Rect, g: &Game, m: &ServeMarks)
    requires
        complete(*old(buf)),
        inside(area, buffer_area(*old(buf))),
        g@.phase is Serve ==> area.y + area.height >= 2,
        g@.rally >= 4 && g@.phase is Rally ==> area.y + 1 < bottom(buffer_area(*old(buf))),
        g@.sub is Some ==> headline_row(area) + 2 <= u16::MAX,
    ensures
        buffer_area(*final(buf)) == buffer_area(*old(buf)),
        buffer_cells(*final(buf)).dom() == buffer_cells(*old(buf)).dom(),
        buffer_cells(*final(buf)) == overwritten(
            buffer_cells(*old(buf)),
            buffer_area(*old(buf)),
            area,
            g@,
            *m,
        ),
{
    if let Phase::Serve { server, wait } = g.phase {
        if server == 0 {
            let color = if m.bright {
                ball_color()
            } else {
                rgb(110, 130, 60)
            };
            let mut dots: Vec<Dot> = Vec::new();
            dots.push(Dot { at: m.target, ch: '×', style: Style::plain().fg(color).bold() });
            add_alike(&mut dots, &m.around, '·', Style::plain().fg(rgb(150, 165, 90)));
            assert(dots@ =~= target_dots(*m));
            proof {
                law_plots_touch_only_their_cells(buffer_cells(*buf), buffer_area(*buf), dots@, (0, 0));
            }
            plot_all(buf, &dots);
        }
        let prompt = if server == 0 {
            "SPACE · SERVE"
        } else {
            "CPU SERVING…"
        };
        center_text(
            buf,
            area,
            area.y + area.height - 2,
            prompt,
            Style::plain().fg(info_color()).bold(),
        );
    }
    if g.rally >= 4 && g.phase == Phase::Rally {
        proof {
            reveal_strlit("RALLY ");
            lemma_rally_text(g.rally as nat);
        }
        let mut text = "RALLY ".to_owned();
        text.append(decimal(g.rally as u64).as_str());
        let n: u16 = text.as_str().unicode_len() as u16;
        set_string(
            buf,
            area.x + area.width.saturating_sub(n + 2),
            area.y + 1,
            text.as_str(),
            Style::plain().fg(rgb(255, 205, 100)).bold(),
        );
    }
    let row: u16 = area.y + (area.height as u32 * 34 / 100) as u16;
    if let Some(news) = &g.msg {
        center_text(buf, area, row, news.text.as_str(), Style::plain().fg(news.color).bold());
    }
    if let Some(news) = &g.sub {
        center_text(
            buf,
            area,
            row + 2,
            news.text.as_str(),
            Style::plain().fg(rgb(224, 230, 246)).bold(),
        );
    }
}

/// Everything in the picture, as it is seen.
pub struct Scene {
    pub back: Backdrop,
    /// The lines of the court.
    pub lines: Vec<Option<Trace>>,
    pub net: NetMarks,
    pub actors: Actors,
    pub serve: ServeMarks,
}

impl Scene {
    /// The scene has all that a picture of this size needs.
    pub open spec fn covers(&self, area: Rect) -> bool {
        &&& self.back.covers(area)
        &&& self.lines@.len() == lines_of_court().len()
        &&& self.actors.ball.trail@.len() <= TRAIL_LEN
    }

    /// Whether the scene has all that a picture of this size needs.
    pub fn is_enough_for(&self, area: Rect) -> (r: bool)
        ensures
            r == self.covers(area),
    {
        self.back.is_enough_for(area) && self.lines.len() == court_lines().len()
            && self.actors.ball.trail.len() <= TRAIL_LEN
    }
}

/// The picture is too small to be drawn.
pub open spec fn tiny(area: Rect) -> bool {
    area.width < 20 || area.height < 8
}

/// Whether the picture is too small to be drawn.
pub fn is_tiny(area: Rect) -> (r: bool)
    ensures
        r == tiny(area),
{
    area.width < 20 || area.height < 8
}

/// The cells after the picture was drawn: background, lines, the far side, the net, the
/// near side, and what is written over it.
pub open spec fn pictured(
    cells: Map<(u16, u16), CellView>,
    buffer: Rect,
    area: Rect,
    g: GameView,
    s: Scene,
) -> Map<(u16, u16), CellView> {
    if tiny(area) {
        cells
    } else {
        let a = background(cells, buffer, area, s.back, g.frame as u64);
        let b = all_plotted(a, buffer, court_dots(s.lines@, lines_of_court().len()));
        let c = all_plotted(b, buffer, actor_dots(s.actors, g.ball_live, false));
        let d = all_plotted(c, buffer, net_dots(s.net, buffer));
        let e = all_plotted(d, buffer, actor_dots(s.actors, g.ball_live, true));
        overwritten(e, buffer, area, g, s.serve)
    }
}

/// Draws the picture.
pub fn render(buf: &mut Buffer, area: Rect, g: &Game, s: &Scene)
    requires
        complete(*old(buf)),
        inside(area, buffer_area(*old(buf))),
        !tiny(area) ==> s.covers(area),
    ensures
        buffer_area(*final(buf)) == buffer_area(*old(buf)),
        buffer_cells(*final(buf)).dom() == buffer_cells(*old(buf)).dom(),
        buffer_cells(*final(buf)) == pictured(
            buffer_cells(*old(buf)),
            buffer_area(*old(buf)),
            area,
            g@,
            *s,
        ),
{
    if area.width < 20 || area.height < 8 {
        return;
    }
    paint_background(buf, area, &s.back, g.frame);
    proof {
        let r = buffer_area(*buf);
        let a = buffer_cells(*buf);
        let b = all_plotted(a, r, court_dots(s.lines@, lines_of_court().len()));
        let c = all_plotted(b, r, actor_dots(s.actors, g.ball_live, false));
        let d = all_plotted(c, r, net_dots(s.net, r));
        law_plots_touch_only_their_cells(a, r, court_dots(s.lines@, lines_of_court().len()), (0, 0));
        law_plots_touch_only_their_cells(b, r, actor_dots(s.actors, g.ball_live, false), (0, 0));
        law_plots_touch_only_their_cells(c, r, net_dots(s.net, r), (0, 0));
        law_plots_touch_only_their_cells(d, r, actor_dots(s.actors, g.ball_live, true), (0, 0));
    }
    paint_court_lines(buf, &s.lines);
    paint_actors(buf, &s.actors, g.ball_live, false);
    paint_net(buf, &s.net);
    paint_actors(buf, &s.actors, g.ball_live, true);
    paint_hud(buf, area, g, &s.serve);
}

/// A text that fits is centred: it lies in the rectangle, and the margins at its two
/// sides differ by at most one.
pub proof fn law_text_is_in_the_middle(area: Rect, w: int)
    requires
        0 <= w < area.width,
    ensures
        ({
            let left = text_column(area, w) - area.x;
            let right = area.x + area.width - (text_column(area, w) + w);
            0 <= left <= right <= left + 1
        }),
{
}

/// The headline can be read: its characters stand side by side in the middle of its
/// row, whatever else is in the picture.
pub proof fn law_headline_is_shown(
    cells: Map<(u16, u16), CellView>,
    buffer: Rect,
    area: Rect,
    g: GameView,
    m: ServeMarks,
    i: int,
)
    requires
        forall|x: u16, y: u16|
            within(buffer, x as int, y as int) ==> #[trigger] cells.contains_key((x, y)),
        inside(area, buffer),
        !tiny(area),
        narrow_news(g),
        g.msg is Some,
        0 <= i < g.msg->0.text.len() < area.width,
    ensures
        ({
            let p = (
                (text_column(area, g.msg->0.text.len() as int) + i) as u16,
                headline_row(area) as u16,
            );
            overwritten(cells, buffer, area, g, m)[p].symbol == seq![g.msg->0.text[i]]
        }),
{
    let text = g.msg->0.text;
    let w = text.len() as int;
    let hinted = match g.phase {
        Phase::Serve { server, wait } => serve_hints(cells, buffer, area, server as int, m),
        _ => cells,
    };
    if let Phase::Serve { server, wait } = g.phase {
        law_plots_touch_only_their_cells(cells, buffer, target_dots(m), (0, 0));
        reveal_strlit("SPACE · SERVE");
        reveal_strlit("CPU SERVING…");
        assert(all_narrow(prompt_text(server as int)));
        assert(hinted.dom() =~= cells.dom());
    }
    let counted = if g.rally >= 4 && g.phase == Phase::Rally {
        rally_count(hinted, buffer, area, g.rally)
    } else {
        hinted
    };
    reveal_strlit("RALLY ");
    lemma_narrow_digits(g.rally);
    lemma_narrow_sum("RALLY "@, digits(g.rally));
    assert(counted.dom() =~= cells.dom());
    let x = (text_column(area, w) + i) as u16;
    let y = headline_row(area) as u16;
    assert(w % 0x1_0000 == w);
    assert(headline_row(area) + 2 <= u16::MAX);
    assert(within(buffer, x as int, y as int));
    assert(cells.contains_key((x, y)));
    assert(counted.contains_key((x, y)));
}

} // verus!
