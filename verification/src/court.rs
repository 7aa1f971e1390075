//! The court and what moves on it: lines, net, players, ball and dust.
//!
//! Where a point of the court lies on the screen is computed elsewhere; it reaches
//! this module as a column and a row, or as nothing if the point is behind the viewer.

use crate::effects::TRAIL_LEN;
use crate::screen::{all_plotted, area_of, buffer_area, buffer_cells, plot_all, Dot};
use crate::style::{ball_color, cpu_color, line_color, rgb, you_color, Style};
use ratatui::buffer::Buffer;
use ratatui::layout::Rect;
use ratatui::style::Color;
use vstd::prelude::*;

verus! {

/// A place across the court.
#[derive(Clone, Copy, Debug, PartialEq, Eq, Structural)]
pub enum Across {
    DoublesLeft,
    SinglesLeft,
    Centre,
    SinglesRight,
    DoublesRight,
}

/// A place along the court.
#[derive(Clone, Copy, Debug, PartialEq, Eq, Structural)]
pub enum Along {
    NearBaseline,
    NearMark,
    NearService,
    FarService,
    FarMark,
    FarBaseline,
}

/// A line on the court: from where to where, in how many steps it is drawn, and
/// whether it belongs to the doubles court only.
#[derive(Clone, Copy)]
pub struct CourtLine {
    pub from: (Across, Along),
    pub to: (Across, Along),
    pub steps: usize,
    pub dim: bool,
}

/// A line of the court.
#[verifier::allow_in_spec]
pub fn court_line(
    from_x: Across,
    from_z: Along,
    to_x: Across,
    to_z: Along,
    steps: usize,
    dim: bool,
) -> (l: CourtLine)
    returns
        (CourtLine { from: (from_x, from_z), to: (to_x, to_z), steps, dim }),
{
    CourtLine { from: (from_x, from_z), to: (to_x, to_z), steps, dim }
}

/// The lines of the court, in the order in which they are drawn: baselines, sidelines,
/// doubles sidelines, service lines, centre line and centre marks.
pub open spec fn lines_of_court() -> Seq<CourtLine> {
    seq![
        court_line(Across::SinglesLeft, Along::NearBaseline, Across::SinglesRight, Along::NearBaseline, 48, false),
        court_line(Across::SinglesLeft, Along::FarBaseline, Across::SinglesRight, Along::FarBaseline, 48, false),
        court_line(Across::SinglesLeft, Along::NearBaseline, Across::SinglesLeft, Along::FarBaseline, 72, false),
        court_line(Across::SinglesRight, Along::NearBaseline, Across::SinglesRight, Along::FarBaseline, 72, false),
        court_line(Across::DoublesLeft, Along::NearBaseline, Across::DoublesLeft, Along::FarBaseline, 72, true),
        court_line(Across::DoublesRight, Along::NearBaseline, Across::DoublesRight, Along::FarBaseline, 72, true),
        court_line(Across::SinglesLeft, Along::NearService, Across::SinglesRight, Along::NearService, 40, false),
        court_line(Across::SinglesLeft, Along::FarService, Across::SinglesRight, Along::FarService, 40, false),
        court_line(Across::Centre, Along::NearService, Across::Centre, Along::FarService, 40, false),
        court_line(Across::Centre, Along::NearBaseline, Across::Centre, Along::NearMark, 4, false),
        court_line(Across::Centre, Along::FarBaseline, Across::Centre, Along::FarMark, 4, false),
    ]
}

/// The lines of the court, in the order in which they are drawn.
pub fn court_lines() -> (v: Vec<CourtLine>)
    ensures
        v@ == lines_of_court(),
{
    vec![
        court_line(Across::SinglesLeft, Along::NearBaseline, Across::SinglesRight, Along::NearBaseline, 48, false),
        court_line(Across::SinglesLeft, Along::FarBaseline, Across::SinglesRight, Along::FarBaseline, 48, false),
        court_line(Across::SinglesLeft, Along::NearBaseline, Across::SinglesLeft, Along::FarBaseline, 72, false),
        court_line(Across::SinglesRight, Along::NearBaseline, Across::SinglesRight, Along::FarBaseline, 72, false),
        court_line(Across::DoublesLeft, Along::NearBaseline, Across::DoublesLeft, Along::FarBaseline, 72, true),
        court_line(Across::DoublesRight, Along::NearBaseline, Across::DoublesRight, Along::FarBaseline, 72, true),
        court_line(Across::SinglesLeft, Along::NearService, Across::SinglesRight, Along::NearService, 40, false),
        court_line(Across::SinglesLeft, Along::FarService, Across::SinglesRight, Along::FarService, 40, false),
        court_line(Across::Centre, Along::NearService, Across::Centre, Along::FarService, 40, false),
        court_line(Across::Centre, Along::NearBaseline, Across::Centre, Along::NearMark, 4, false),
        court_line(Across::Centre, Along::FarBaseline, Across::Centre, Along::FarMark, 4, false),
    ]
}

/// A straight line on the screen: how it slopes and the cells that it runs through.
pub struct Trace {
    /// It is close to level.
    pub flat: bool,
    /// It is close to upright.
    pub steep: bool,
    /// It goes up to the right.
    pub rising: bool,
    pub cells: Vec<Option<(i64, i64)>>,
}

/// The character that a line is drawn with.
pub open spec fn slope_char(flat: bool, steep: bool, rising: bool) -> char {
    if flat {
        '─'
    } else if steep {
        '│'
    } else if rising {
        '╱'
    } else {
        '╲'
    }
}

/// The dots of a line; a line whose ends are not both in front of the viewer has none.
pub open spec fn trace_dots(t: Option<Trace>, style: Style) -> Seq<Dot> {
    match t {
        Some(t) => Seq::new(
            t.cells@.len(),
            |i: int|
                Dot { at: t.cells@[i], ch: slope_char(t.flat, t.steep, t.rising), style },
        ),
        None => Seq::empty(),
    }
}

/// Adds the dots of a line.
pub fn line3(dots: &mut Vec<Dot>, t: &Option<Trace>, style: Style)
    ensures
        final(dots)@ == old(dots)@ + trace_dots(*t, style),
{
    if let Some(t) = t {
        let ch = if t.flat {
            '─'
        } else if t.steep {
            '│'
        } else if t.rising {
            '╱'
        } else {
            '╲'
        };
        let ghost all = trace_dots(Some(*t), style);
        let mut i: usize = 0;
        while i < t.cells.len()
            invariant
                i <= t.cells@.len(),
                ch == slope_char(t.flat, t.steep, t.rising),
                all == trace_dots(Some(*t), style),
                dots@ == old(dots)@ + all.take(i as int),
            decreases t.cells.len() - i,
        {
            dots.push(Dot { at: t.cells[i], ch, style });
            i = i + 1;
            assert(dots@ =~= old(dots)@ + all.take(i as int));
        }
        assert(all.take(i as int) =~= all);
    }
    assert(dots@ =~= old(dots)@ + trace_dots(*t, style));
}

/// The style of a line of the court.
pub open spec fn line_style(l: CourtLine) -> Style {
    if l.dim {
        Style::plain().fg(rgb(190, 205, 228))
    } else {
        Style::plain().fg(line_color()).bold()
    }
}

/// The dots of the first `n` lines of the court.
pub open spec fn court_dots(traces: Seq<Option<Trace>>, n: nat) -> Seq<Dot>
    decreases n,
{
    if n == 0 {
        Seq::empty()
    } else {
        court_dots(traces, (n - 1) as nat) + trace_dots(
            traces[n - 1],
            line_style(lines_of_court()[n - 1]),
        )
    }
}

/// Paints the lines of the court, given how each of them runs on the screen.
pub fn paint_court_lines(buf: &mut Buffer, traces: &Vec<Option<Trace>>)
    requires
        traces@.len() == lines_of_court().len(),
    ensures
        buffer_area(*final(buf)) == buffer_area(*old(buf)),
        buffer_cells(*final(buf)) == all_plotted(
            buffer_cells(*old(buf)),
            buffer_area(*old(buf)),
            court_dots(traces@, lines_of_court().len()),
        ),
{
    let lines = court_lines();
    let mut dots: Vec<Dot> = Vec::new();
    let mut i: usize = 0;
    while i < lines.len()
        invariant
            i <= lines@.len(),
            lines@ == lines_of_court(),
            traces@.len() == lines@.len(),
            dots@ == court_dots(traces@, i as nat),
        decreases lines.len() - i,
    {
        let style = if lines[i].dim {
            Style::plain().fg(rgb(190, 205, 228))
        } else {
            Style::plain().fg(line_color()).bold()
        };
        line3(&mut dots, &traces[i], style);
        i = i + 1;
    }
    plot_all(buf, &dots);
}

// ── net ──────────────────────────────────────────────────────────────────────────

/// A strand of the net: its column and the rows that it reaches from and to.
#[derive(Clone, Copy)]
pub struct Strand {
    pub column: i64,
    pub top: i64,
    pub base: i64,
}

/// The net as it is seen.
pub struct NetMarks {
    pub mesh: Vec<Strand>,
    pub tape: Option<Trace>,
    pub left_post: Option<Trace>,
    pub right_post: Option<Trace>,
}

/// The dots of a strand in the rows of a rectangle.
pub open spec fn strand_dots(s: Strand, area: Rect) -> Seq<Dot> {
    let first = if s.top > area.y {
        s.top as int
    } else {
        area.y as int
    };
    let end = if s.base + 1 < area.y + area.height {
        s.base + 1
    } else {
        area.y + area.height
    };
    Seq::new(
        (if first < end {
            end - first
        } else {
            0
        }) as nat,
        |i: int|
            Dot {
                at: Some((s.column, (first + i) as i64)),
                ch: '╽',
                style: Style::plain().fg(rgb(150, 160, 185)),
            },
    )
}

/// The dots of some strands.
pub open spec fn mesh_dots(mesh: Seq<Strand>, area: Rect) -> Seq<Dot>
    decreases mesh.len(),
{
    if mesh.len() == 0 {
        Seq::empty()
    } else {
        mesh_dots(mesh.drop_last(), area) + strand_dots(mesh.last(), area)
    }
}

/// The dots of the net: the mesh, the tape over it, the posts.
pub open spec fn net_dots(n: NetMarks, area: Rect) -> Seq<Dot> {
    mesh_dots(n.mesh@, area) + trace_dots(n.tape, Style::plain().fg(Color::White).bold())
        + trace_dots(n.left_post, Style::plain().fg(rgb(170, 180, 200)).bold()) + trace_dots(
        n.right_post,
        Style::plain().fg(rgb(170, 180, 200)).bold(),
    )
}

/// Adds the dots of a strand.
fn add_strand(dots: &mut Vec<Dot>, s: &Strand, area: Rect)
    ensures
        final(dots)@ == old(dots)@ + strand_dots(*s, area),
{
    let ghost all = strand_dots(*s, area);
    let first: i64 = if s.top > area.y as i64 {
        s.top
    } else {
        area.y as i64
    };
    let limit: i64 = area.y as i64 + area.height as i64;
    let mut row: i64 = first;
    assert(dots@ =~= old(dots)@ + all.take(0));
    while row < limit && row <= s.base
        invariant
            first <= row,
            row - first <= all.len(),
            first == (if s.top > area.y {
                s.top as int
            } else {
                area.y as int
            }),
            limit == area.y + area.height,
            all == strand_dots(*s, area),
            dots@ == old(dots)@ + all.take(row - first),
        decreases limit - row,
    {
        dots.push(
            Dot {
                at: Some((s.column, row)),
                ch: '╽',
                style: Style::plain().fg(rgb(150, 160, 185)),
            },
        );
        row = row + 1;
        assert(dots@ =~= old(dots)@ + all.take(row - first));
    }
    assert(all.take(row - first) =~= all);
}

/// Paints the net.
pub fn paint_net(buf: &mut Buffer, net: &NetMarks)
    ensures
        buffer_area(*final(buf)) == buffer_area(*old(buf)),
        buffer_cells(*final(buf)) == all_plotted(
            buffer_cells(*old(buf)),
            buffer_area(*old(buf)),
            net_dots(*net, buffer_area(*old(buf))),
        ),
{
    let area = area_of(buf);
    let mut dots: Vec<Dot> = Vec::new();
    let mut i: usize = 0;
    assert(net.mesh@.take(0) =~= Seq::empty());
    while i < net.mesh.len()
        invariant
            i <= net.mesh@.len(),
            dots@ == mesh_dots(net.mesh@.take(i as int), area),
        decreases net.mesh.len() - i,
    {
        add_strand(&mut dots, &net.mesh[i], area);
        i = i + 1;
        assert(net.mesh@.take(i as int).drop_last() =~= net.mesh@.take(i - 1));
    }
    assert(net.mesh@.take(i as int) =~= net.mesh@);
    line3(&mut dots, &net.tape, Style::plain().fg(Color::White).bold());
    line3(&mut dots, &net.left_post, Style::plain().fg(rgb(170, 180, 200)).bold());
    line3(&mut dots, &net.right_post, Style::plain().fg(rgb(170, 180, 200)).bold());
    plot_all(buf, &dots);
}

// ── players, ball and dust ───────────────────────────────────────────────────────

/// The points that the rim of a racket is drawn with.
pub const RIM_POINTS: usize = 20;

/// A player as it is seen.
pub struct FigureMarks {
    pub shadow: Option<(i64, i64)>,
    pub body: Option<(i64, i64)>,
    pub head: Option<(i64, i64)>,
    pub rim: Vec<Option<(i64, i64)>>,
    pub strings: Option<(i64, i64)>,
    pub grip: Option<(i64, i64)>,
}

/// The dots of some places that look alike.
pub open spec fn alike(at: Seq<Option<(i64, i64)>>, ch: char, style: Style) -> Seq<Dot> {
    Seq::new(at.len(), |i: int| Dot { at: at[i], ch, style })
}

/// The dots of a player.
pub open spec fn figure_dots(f: FigureMarks, color: Color) -> Seq<Dot> {
    seq![
        Dot { at: f.shadow, ch: '●', style: Style::plain().fg(rgb(8, 12, 22)) },
        Dot { at: f.body, ch: '▲', style: Style::plain().fg(color).bold() },
        Dot { at: f.head, ch: 'o', style: Style::plain().fg(rgb(238, 206, 172)) },
    ] + alike(f.rim@, 'O', Style::plain().fg(color)) + seq![
        Dot { at: f.strings, ch: '·', style: Style::plain().fg(rgb(220, 226, 240)) },
        Dot { at: f.grip, ch: '│', style: Style::plain().fg(rgb(126, 88, 54)) },
    ]
}

/// Adds dots that look alike.
pub(crate) fn add_alike(dots: &mut Vec<Dot>, at: &Vec<Option<(i64, i64)>>, ch: char, style: Style)
    ensures
        final(dots)@ == old(dots)@ + alike(at@, ch, style),
{
    let ghost all = alike(at@, ch, style);
    let mut i: usize = 0;
    assert(dots@ =~= old(dots)@ + all.take(0));
    while i < at.len()
        invariant
            i <= at@.len(),
            all == alike(at@, ch, style),
            dots@ == old(dots)@ + all.take(i as int),
        decreases at.len() - i,
    {
        dots.push(Dot { at: at[i], ch, style });
        i = i + 1;
        assert(dots@ =~= old(dots)@ + all.take(i as int));
    }
    assert(all.take(i as int) =~= all);
}

/// Adds the dots of a player.
pub fn paint_figure(dots: &mut Vec<Dot>, f: &FigureMarks, color: Color)
    ensures
        final(dots)@ == old(dots)@ + figure_dots(*f, color),
{
    dots.push(Dot { at: f.shadow, ch: '●', style: Style::plain().fg(rgb(8, 12, 22)) });
    dots.push(Dot { at: f.body, ch: '▲', style: Style::plain().fg(color).bold() });
    dots.push(Dot { at: f.head, ch: 'o', style: Style::plain().fg(rgb(238, 206, 172)) });
    add_alike(dots, &f.rim, 'O', Style::plain().fg(color));
    dots.push(Dot { at: f.strings, ch: '·', style: Style::plain().fg(rgb(220, 226, 240)) });
    dots.push(Dot { at: f.grip, ch: '│', style: Style::plain().fg(rgb(126, 88, 54)) });
    assert(dots@ =~= old(dots)@ + figure_dots(*f, color));
}

/// The ball as it is seen.
pub struct BallMarks {
    /// On the player's side of the net.
    pub near: bool,
    /// Where it was, the latest first.
    pub trail: Vec<Option<(i64, i64)>>,
    pub shadow: Option<(i64, i64)>,
    pub at: Option<(i64, i64)>,
}

/// The dot for the `i`th of `n` positions of the trail: the older, the darker.
pub open spec fn trail_dot(at: Option<(i64, i64)>, i: int, n: int) -> Dot {
    Dot {
        at,
        ch: if i % 2 == 0 {
            '·'
        } else {
            '∙'
        },
        style: Style::plain().fg(
            Color::Rgb(((200 * n - 150 * i) / n) as u8, ((245 * n - 165 * i) / n) as u8, 40),
        ),
    }
}

/// The dots of the trail, the oldest first.
pub open spec fn trail_dots(trail: Seq<Option<(i64, i64)>>) -> Seq<Dot> {
    let n = trail.len() as int;
    Seq::new(trail.len(), |k: int| trail_dot(trail[n - 1 - k], n - 1 - k, n))
}

/// The dots of the ball: its trail while it is on its way, its shadow, itself.
pub open spec fn ball_dots(b: BallMarks, live: bool) -> Seq<Dot> {
    (if live {
        trail_dots(b.trail@)
    } else {
        Seq::empty()
    }) + seq![
        Dot { at: b.shadow, ch: '●', style: Style::plain().fg(rgb(10, 15, 28)) },
        Dot { at: b.at, ch: '●', style: Style::plain().fg(ball_color()).bold() },
    ]
}

/// Adds the dots of the ball.
pub fn paint_ball(dots: &mut Vec<Dot>, b: &BallMarks, live: bool)
    requires
        b.trail@.len() <= TRAIL_LEN,
    ensures
        final(dots)@ == old(dots)@ + ball_dots(*b, live),
{
    if live {
        let ghost all = trail_dots(b.trail@);
        let n: usize = b.trail.len();
        let mut i: usize = n;
        assert(dots@ =~= old(dots)@ + all.take(0));
        while i > 0
            invariant
                i <= n,
                n == b.trail@.len(),
                n <= TRAIL_LEN,
                all == trail_dots(b.trail@),
                dots@ == old(dots)@ + all.take(n - i),
            decreases i,
        {
            i = i - 1;
            let (k, m): (u64, u64) = (i as u64, n as u64);
            assert(200 * m - 150 * k <= 200 * m && 245 * m - 165 * k <= 245 * m);
            assert((200 * m - 150 * k) / (m as int) <= 200) by (nonlinear_arith)
                requires
                    0 < m,
                    0 <= 200 * m - 150 * k <= 200 * m,
            ;
            assert((245 * m - 165 * k) / (m as int) <= 245) by (nonlinear_arith)
                requires
                    0 < m,
                    0 <= 245 * m - 165 * k <= 245 * m,
            ;
            let color = Color::Rgb(
                ((200 * m - 150 * k) / m) as u8,
                ((245 * m - 165 * k) / m) as u8,
                40,
            );
            let ch = if i % 2 == 0 {
                '·'
            } else {
                '∙'
            };
            dots.push(Dot { at: b.trail[i], ch, style: Style::plain().fg(color) });
            assert(dots@ =~= old(dots)@ + all.take(n - i));
        }
        assert(all.take(n as int) =~= all);
    }
    dots.push(Dot { at: b.shadow, ch: '●', style: Style::plain().fg(rgb(10, 15, 28)) });
    dots.push(Dot { at: b.at, ch: '●', style: Style::plain().fg(ball_color()).bold() });
    assert(dots@ =~= old(dots)@ + ball_dots(*b, live));
}

/// A speck of dust as it is seen.
#[derive(Clone, Copy)]
pub struct DustMark {
    pub at: Option<(i64, i64)>,
    /// On the player's side of the net.
    pub near: bool,
    /// It was raised a moment ago.
    pub fresh: bool,
}

/// The dot of a speck of dust.
pub open spec fn dust_dot(d: DustMark) -> Dot {
    Dot {
        at: d.at,
        ch: if d.fresh {
            '*'
        } else {
            '·'
        },
        style: Style::plain().fg(rgb(165, 195, 230)),
    }
}

/// The dots of the dust on one side of the net.
pub open spec fn dust_dots(dust: Seq<DustMark>, near: bool) -> Seq<Dot> {
    dust.filter(|d: DustMark| d.near == near).map_values(|d: DustMark| dust_dot(d))
}

/// All that moves on the court.
pub struct Actors {
    pub you: FigureMarks,
    pub cpu: FigureMarks,
    pub ball: BallMarks,
    pub dust: Vec<DustMark>,
}

/// The dots of what is on one side of the net: on the far side first the computer, on
/// the near side last the player.
pub open spec fn actor_dots(a: Actors, live: bool, near: bool) -> Seq<Dot> {
    (if near {
        Seq::empty()
    } else {
        figure_dots(a.cpu, cpu_color())
    }) + (if a.ball.near == near {
        ball_dots(a.ball, live)
    } else {
        Seq::empty()
    }) + dust_dots(a.dust@, near) + (if near {
        figure_dots(a.you, you_color())
    } else {
        Seq::empty()
    })
}

/// Adds the dots of the dust on one side of the net.
fn add_dust(dots: &mut Vec<Dot>, dust: &Vec<DustMark>, near: bool)
    ensures
        final(dots)@ == old(dots)@ + dust_dots(dust@, near),
{
    let ghost keep = |d: DustMark| d.near == near;
    let mut i: usize = 0;
    proof {
        reveal(Seq::filter);
    }
    assert(dots@ =~= old(dots)@ + dust_dots(dust@.take(0), near));
    while i < dust.len()
        invariant
            i <= dust@.len(),
            keep == (|d: DustMark| d.near == near),
            dots@ == old(dots)@ + dust_dots(dust@.take(i as int), near),
        decreases dust.len() - i,
    {
        let d = dust[i];
        let ghost before = dust@.take(i as int);
        proof {
            reveal(Seq::filter);
            assert(dust@.take(i + 1).drop_last() =~= before);
        }
        if d.near == near {
            let ch = if d.fresh {
                '*'
            } else {
                '·'
            };
            dots.push(Dot { at: d.at, ch, style: Style::plain().fg(rgb(165, 195, 230)) });
            assert(dust@.take(i + 1).filter(keep) == before.filter(keep).push(d));
        } else {
            assert(dust@.take(i + 1).filter(keep) == before.filter(keep));
        }
        i = i + 1;
        assert(dots@ =~= old(dots)@ + dust_dots(dust@.take(i as int), near));
    }
    assert(dust@.take(i as int) =~= dust@);
}

/// Paints what is on one side of the net.
pub fn paint_actors(buf: &mut Buffer, a: &Actors, live: bool, near: bool)
    requires
        a.ball.trail@.len() <= TRAIL_LEN,
    ensures
        buffer_area(*final(buf)) == buffer_area(*old(buf)),
        buffer_cells(*final(buf)) == all_plotted(
            buffer_cells(*old(buf)),
            buffer_area(*old(buf)),
            actor_dots(*a, live, near),
        ),
{
    let mut dots: Vec<Dot> = Vec::new();
    if !near {
        paint_figure(&mut dots, &a.cpu, cpu_color());
    }
    if a.ball.near == near {
        paint_ball(&mut dots, &a.ball, live);
    }
    add_dust(&mut dots, &a.dust, near);
    if near {
        paint_figure(&mut dots, &a.you, you_color());
    }
    assert(dots@ =~= actor_dots(*a, live, near));
    plot_all(buf, &dots);
}

} // verus!
