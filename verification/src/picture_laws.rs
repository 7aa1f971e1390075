//! What is seen in the picture, told by what there is to see.

use crate::backdrop::{
    background, banner_text, ground_look, horizon_row, lit, middle_row, scenery, sky_at, stands_look,
    wall, Backdrop, Patch,
};
use crate::court::{
    actor_dots, ball_dots, court_dots, dust_dots, figure_dots, line_style, lines_of_court, mesh_dots,
    net_dots, strand_dots, trace_dots, trail_dots, Across, Actors, Along, BallMarks, CourtLine,
    DustMark, FigureMarks, NetMarks, Strand, Trace, RIM_POINTS,
};
use crate::effects::TRAIL_LEN;
use crate::game::{GameView, Phase};
use crate::hud::{
    centered, headline_row, overwritten, pictured, rally_count, serve_hints, target_dots,
    text_column, tiny, Scene, ServeMarks,
};
use crate::laws::narrow_news;
use crate::noise::hash;
use crate::screen::{
    all_narrow, all_plotted, inked, inside, law_plots_compose, law_plots_touch_only_their_cells,
    lemma_narrow_digits, lemma_narrow_sum, plotted, right, within, written, CellView, Dot,
};
use crate::style::Style;
use crate::text::digits;
use ratatui::layout::Rect;
use ratatui::style::Color;
use vstd::prelude::*;

verus! {

/// The style that sets a foreground colour only.
pub open spec fn ink(c: Color) -> Style {
    Style { fg: Some(c), bg: None, bold: false }
}

/// The style that sets a foreground colour, bold.
pub open spec fn strong_ink(c: Color) -> Style {
    Style { fg: Some(c), bg: None, bold: true }
}

/// The style that sets a background colour only.
pub open spec fn paper(c: Color) -> Style {
    Style { fg: None, bg: Some(c), bold: false }
}

/// A dot in the grid sets its cell and no other one; a dot outside, or behind the viewer,
/// sets none.
pub proof fn law_dot_sets_its_cell(
    cells: Map<(u16, u16), CellView>,
    area: Rect,
    d: Dot,
    p: (u16, u16),
)
    requires
        cells.contains_key(p),
        within(area, p.0 as int, p.1 as int),
    ensures
        d.at == Some((p.0 as i64, p.1 as i64)) ==> plotted(cells, area, d)[p] == inked(
            cells[p],
            d.ch,
            d.style,
        ),
        d.at != Some((p.0 as i64, p.1 as i64)) ==> plotted(cells, area, d)[p] == cells[p],
        plotted(cells, area, d).dom() == cells.dom(),
        d.at is None ==> plotted(cells, area, d) == cells,
{
    assert(plotted(cells, area, d).dom() =~= cells.dom());
}

// ── background ───────────────────────────────────────────────────────────────────

/// The horizon lies three tenths down, rounded to the nearest row, but at least four rows.
pub proof fn law_horizon(area: Rect)
    ensures
        ({
            let down = horizon_row(area) - area.y;
            &&& area.height <= 13 ==> down == 4
            &&& area.height >= 14 ==> 10 * down - 5 <= 3 * area.height < 10 * down + 5
        }),
{
}

/// The ground: one colour beyond the apron; stripes that alternate with every band, in one
/// pair of colours inside the singles court and in another one around it.
pub proof fn law_ground(p: Patch)
    ensures
        ({
            let (ch, style) = ground_look(p);
            let even = p.band % 2 == 0;
            &&& ch == ' '
            &&& p.outside ==> style == paper(Color::Rgb(13, 17, 26))
            &&& !p.outside && p.inside && even ==> style == paper(Color::Rgb(36, 88, 154))
            &&& !p.outside && p.inside && !even ==> style == paper(Color::Rgb(43, 99, 170))
            &&& !p.outside && !p.inside && even ==> style == paper(Color::Rgb(28, 110, 88))
            &&& !p.outside && !p.inside && !even ==> style == paper(Color::Rgb(34, 122, 99))
        }),
{
}

/// The sky is darkest at the top and blends evenly into its colour at the horizon.
pub proof fn law_sky(down: int, span: int)
    requires
        0 <= down < span,
    ensures
        sky_at(down, span) == Color::Rgb(
            (7 + 17 * down / span) as u8,
            (10 + 22 * down / span) as u8,
            (22 + 36 * down / span) as u8,
        ),
        sky_at(0, span) == Color::Rgb(7, 10, 22),
{
    assert(0int / span == 0) by (nonlinear_arith)
        requires
            span > 0,
    ;
}

/// In the stands a seat is taken, in one of five colours, or empty, as the hash of its place
/// and of the time says.
pub proof fn law_stands(col: u16, row: u16, frame: u64)
    ensures
        ({
            let h = hash(col as u64, row as u64, frame / 14);
            let i = (h / 11) as int % 5;
            let (ch, style) = stands_look(col, row, frame);
            &&& h % 11 != 0 ==> ch == '·' && style == (Style {
                fg: Some(Color::Rgb(44, 50, 68)),
                bg: Some(Color::Rgb(15, 19, 29)),
                bold: false,
            })
            &&& h % 11 == 0 ==> {
                &&& ch == ' '
                &&& i == 0 ==> style == paper(Color::Rgb(214, 90, 90))
                &&& i == 1 ==> style == paper(Color::Rgb(230, 190, 90))
                &&& i == 2 ==> style == paper(Color::Rgb(120, 170, 230))
                &&& i == 3 ==> style == paper(Color::Rgb(220, 220, 230))
                &&& i == 4 ==> style == paper(Color::Rgb(140, 200, 140))
            }
        }),
{
}

/// The scenery fills the picture: from the horizon down the ground that is seen there, in
/// the three rows above it the stands, above them the sky with its stars.
pub proof fn law_scenery(area: Rect, back: Backdrop, frame: u64, p: (u16, u16))
    ensures
        ({
            let look = scenery(area, back, frame)(p);
            let h = horizon_row(area);
            let seen = area.x <= p.0 < area.x + area.width && area.y <= p.1 < area.y + area.height;
            let sky = sky_at(p.1 - area.y, h - area.y);
            let star = hash(p.0 as u64, p.1 as u64, 7) % 97 == 0;
            &&& !seen ==> look is None
            &&& seen && p.1 >= h ==> look == Some(
                ground_look(back.ground@[p.1 - h]@[p.0 - area.x]),
            )
            &&& seen && h - 3 <= p.1 < h ==> look == Some(stands_look(p.0, p.1, frame))
            &&& seen && p.1 < h - 3 && star ==> look == Some(
                (
                    '·',
                    Style { fg: Some(Color::Rgb(190, 200, 245)), bg: Some(sky), bold: false },
                ),
            )
            &&& seen && p.1 < h - 3 && !star ==> look == Some((' ', paper(sky)))
        }),
{
}

/// The middle of the wall lies halfway between its ends, to within half a row.
pub proof fn law_middle_of_wall(top: int, base: int)
    ensures
        -1 <= top + base - 2 * middle_row(top, base) <= 1,
        top + base >= 0 ==> top + base - 2 * middle_row(top, base) >= 0,
        top + base <= 0 ==> top + base - 2 * middle_row(top, base) <= 0,
{
}

/// The wall is seen in the columns and rows that it reaches, and nowhere else: a light edge
/// at its top, the banner in the middle, repeated from column to column, and plain wall.
pub proof fn law_wall(area: Rect, back: Backdrop, p: (u16, u16))
    ensures
        ({
            let look = wall(area, back)(p);
            let seen = area.x <= p.0 < area.x + area.width && area.y <= p.1 < area.y + area.height;
            match back.wall@[p.0 - area.x] {
                None => look is None,
                Some((top, base)) => {
                    let there = seen && top <= p.1 <= base;
                    let middle = p.1 == middle_row(top as int, base as int);
                    &&& !there ==> look is None
                    &&& there && p.1 == top ==> look == Some((' ', paper(Color::Rgb(64, 84, 138))))
                    &&& there && p.1 != top && middle ==> look == Some(
                        (
                            banner_text()[p.0 as int % banner_text().len() as int],
                            Style {
                                fg: Some(Color::Rgb(165, 190, 245)),
                                bg: Some(Color::Rgb(24, 34, 64)),
                                bold: true,
                            },
                        ),
                    )
                    &&& there && p.1 != top && !middle ==> look == Some(
                        (' ', paper(Color::Rgb(24, 34, 64))),
                    )
                },
            }
        }),
{
}

/// What the background shows in a cell of the picture: the wall where it stands; else a
/// floodlight in the second row, the fourth column from either side, if the picture is
/// wider than fourteen columns; else the scenery.
pub proof fn law_background(
    cells: Map<(u16, u16), CellView>,
    buffer: Rect,
    area: Rect,
    back: Backdrop,
    frame: u64,
    p: (u16, u16),
)
    requires
        cells.contains_key(p),
        inside(area, buffer),
        area.x <= p.0 < area.x + area.width,
        area.y <= p.1 < area.y + area.height,
    ensures
        ({
            let after = background(cells, buffer, area, back, frame)[p];
            let scene = scenery(area, back, frame)(p);
            let lamp = area.width > 14 && p.1 == area.y + 1 && (p.0 == area.x + 3 || p.0 == area.x
                + area.width - 4);
            let (first_char, first_style) = scene->0;
            let below = inked(cells[p], first_char, first_style);
            let light = strong_ink(Color::Rgb(255, 248, 214));
            &&& scene is Some
            &&& wall(area, back)(p) is None && !lamp ==> after == below
            &&& wall(area, back)(p) is None && lamp ==> after == inked(below, '✦', light)
            &&& wall(area, back)(p) matches Some((ch, style)) ==> after == inked(
                if lamp {
                    inked(below, '✦', light)
                } else {
                    below
                },
                ch,
                style,
            )
        }),
{
    reveal_strlit("✦");
    let a = crate::backdrop::repainted(cells, scenery(area, back, frame));
    let b = lit(a, buffer, area);
    assert(all_narrow("✦"@));
    assert(a.contains_key(p));
    assert(b.contains_key(p));
    if area.width > 14 {
        let y = (area.y + 1) as u16;
        let one = written(a, buffer, (area.x + 3) as u16, y, "✦"@, crate::backdrop::lamp_style());
        assert(one.contains_key(p));
        assert(p.0 < right(buffer));
    }
}

/// A backdrop that has exactly one spot of ground for each cell below the horizon, and a
/// wall that is nowhere or in rows that can be added up for each column, is enough.
pub proof fn law_ordinary_backdrop_is_enough(area: Rect, back: Backdrop)
    requires
        back.ground@.len() == (if area.y + area.height > horizon_row(area) {
            area.y + area.height - horizon_row(area)
        } else {
            0
        }),
        forall|i: int|
            0 <= i < back.ground@.len() ==> (#[trigger] back.ground@[i])@.len() == area.width,
        back.wall@.len() == area.width,
        forall|i: int|
            0 <= i < area.width ==> (#[trigger] back.wall@[i] matches Some((top, base))
                ==> -0x4000_0000_0000_0000 <= top <= 0x3fff_ffff_ffff_ffff
                && -0x4000_0000_0000_0000 <= base <= 0x3fff_ffff_ffff_ffff),
    ensures
        back.covers(area),
{
}

/// A scene with such a backdrop, with all eleven lines and with a trail of no more than its
/// length is enough.
pub proof fn law_ordinary_scene_is_enough(area: Rect, s: Scene)
    requires
        s.back.covers(area),
        s.lines@.len() == 11,
        s.actors.ball.trail@.len() <= TRAIL_LEN,
    ensures
        s.covers(area),
{
}

// ── court ────────────────────────────────────────────────────────────────────────

/// The place across the court that lies opposite.
pub open spec fn opposite(a: Across) -> Across {
    match a {
        Across::DoublesLeft => Across::DoublesRight,
        Across::SinglesLeft => Across::SinglesRight,
        Across::Centre => Across::Centre,
        Across::SinglesRight => Across::SinglesLeft,
        Across::DoublesRight => Across::DoublesLeft,
    }
}

/// The place along the court that lies on the other side of the net.
pub open spec fn beyond_net(a: Along) -> Along {
    match a {
        Along::NearBaseline => Along::FarBaseline,
        Along::NearMark => Along::FarMark,
        Along::NearService => Along::FarService,
        Along::FarService => Along::NearService,
        Along::FarMark => Along::NearMark,
        Along::FarBaseline => Along::NearBaseline,
    }
}

/// There is a line between two places of the court, drawn like `l`.
pub open spec fn line_between(a: (Across, Along), b: (Across, Along), l: CourtLine) -> bool {
    exists|k: int|
        #![trigger lines_of_court()[k]]
        0 <= k < lines_of_court().len() && lines_of_court()[k].steps == l.steps
            && lines_of_court()[k].dim == l.dim && ((lines_of_court()[k].from == a
            && lines_of_court()[k].to == b) || (lines_of_court()[k].from == b
            && lines_of_court()[k].to == a))
}

/// The court is the same from both sides and from both ends: with every line there is the
/// one that lies opposite and the one beyond the net. All lines run across or along, and
/// only the doubles sidelines are dim.
pub proof fn law_court_is_symmetric(k: int)
    requires
        0 <= k < lines_of_court().len(),
    ensures
        ({
            let l = lines_of_court()[k];
            &&& line_between((opposite(l.from.0), l.from.1), (opposite(l.to.0), l.to.1), l)
            &&& line_between((l.from.0, beyond_net(l.from.1)), (l.to.0, beyond_net(l.to.1)), l)
            &&& l.from.0 == l.to.0 || l.from.1 == l.to.1
            &&& l.from != l.to
            &&& l.dim <==> l.from.0 == Across::DoublesLeft || l.from.0 == Across::DoublesRight
            &&& l.from.0 != l.to.0 ==> l.from.0 == Across::SinglesLeft && l.to.0
                == Across::SinglesRight
        }),
{
    let s = lines_of_court();
    assert(s[0].steps == 48 && s[1].steps == 48 && s[2].steps == 72 && s[3].steps == 72);
    assert(s[4].steps == 72 && s[5].steps == 72 && s[6].steps == 40 && s[7].steps == 40);
    assert(s[8].steps == 40 && s[9].steps == 4 && s[10].steps == 4);
    assert(s.len() == 11);
}

/// The court has its lines: both baselines, both sidelines, both doubles sidelines, both
/// service lines, the centre line and both centre marks, each drawn in its number of steps.
pub proof fn law_court_has_its_lines()
    ensures
        ({
            let s = lines_of_court();
            let l = |a: (Across, Along), b: (Across, Along), steps: usize, dim: bool| {
                line_between(a, b, CourtLine { from: a, to: b, steps, dim })
            };
            &&& s.len() == 11
            &&& l(
                (Across::SinglesLeft, Along::NearBaseline),
                (Across::SinglesRight, Along::NearBaseline),
                48,
                false,
            )
            &&& l(
                (Across::SinglesLeft, Along::FarBaseline),
                (Across::SinglesRight, Along::FarBaseline),
                48,
                false,
            )
            &&& l(
                (Across::SinglesLeft, Along::NearBaseline),
                (Across::SinglesLeft, Along::FarBaseline),
                72,
                false,
            )
            &&& l(
                (Across::SinglesRight, Along::NearBaseline),
                (Across::SinglesRight, Along::FarBaseline),
                72,
                false,
            )
            &&& l(
                (Across::DoublesLeft, Along::NearBaseline),
                (Across::DoublesLeft, Along::FarBaseline),
                72,
                true,
            )
            &&& l(
                (Across::DoublesRight, Along::NearBaseline),
                (Across::DoublesRight, Along::FarBaseline),
                72,
                true,
            )
            &&& l(
                (Across::SinglesLeft, Along::NearService),
                (Across::SinglesRight, Along::NearService),
                40,
                false,
            )
            &&& l(
                (Across::SinglesLeft, Along::FarService),
                (Across::SinglesRight, Along::FarService),
                40,
                false,
            )
            &&& l(
                (Across::Centre, Along::NearService),
                (Across::Centre, Along::FarService),
                40,
                false,
            )
            &&& l((Across::Centre, Along::NearBaseline), (Across::Centre, Along::NearMark), 4, false)
            &&& l((Across::Centre, Along::FarBaseline), (Across::Centre, Along::FarMark), 4, false)
        }),
{
    let s = lines_of_court();
    assert(s[0].steps == 48 && s[1].steps == 48 && s[2].steps == 72 && s[3].steps == 72);
    assert(s[4].steps == 72 && s[5].steps == 72 && s[6].steps == 40 && s[7].steps == 40);
    assert(s[8].steps == 40 && s[9].steps == 4 && s[10].steps == 4);
}

/// A line has a dot in each of its cells, all alike: level, upright, rising or falling as
/// the line is. A line that is not in front of the viewer has none.
pub proof fn law_line_is_drawn(t: Option<Trace>, style: Style, i: int)
    ensures
        t is None ==> trace_dots(t, style).len() == 0,
        t matches Some(t) ==> {
            let dots = trace_dots(Some(t), style);
            &&& dots.len() == t.cells@.len()
            &&& 0 <= i < dots.len() ==> {
                &&& dots[i].at == t.cells@[i]
                &&& dots[i].style == style
                &&& t.flat ==> dots[i].ch == '─'
                &&& !t.flat && t.steep ==> dots[i].ch == '│'
                &&& !t.flat && !t.steep && t.rising ==> dots[i].ch == '╱'
                &&& !t.flat && !t.steep && !t.rising ==> dots[i].ch == '╲'
            }
        },
{
}

/// Every cell of every line of the court is drawn, dim for the doubles sidelines and bright
/// and bold for the others; nothing else is.
pub proof fn law_court_is_drawn(traces: Seq<Option<Trace>>, n: nat, k: int, i: int)
    requires
        n <= lines_of_court().len(),
        0 <= k < n,
    ensures
        0 <= i < trace_dots(traces[k], line_style(lines_of_court()[k])).len() ==> court_dots(
            traces,
            n,
        ).contains(trace_dots(traces[k], line_style(lines_of_court()[k]))[i]),
        line_style(lines_of_court()[k]) == (if lines_of_court()[k].dim {
            ink(Color::Rgb(190, 205, 228))
        } else {
            strong_ink(Color::Rgb(240, 246, 255))
        }),
    decreases n,
{
    let last = trace_dots(traces[n - 1], line_style(lines_of_court()[n - 1]));
    let before = court_dots(traces, (n - 1) as nat);
    let all = court_dots(traces, n);
    let mine = trace_dots(traces[k], line_style(lines_of_court()[k]));
    if 0 <= i < mine.len() {
        if k == n - 1 {
            assert(all[before.len() + i] == mine[i]);
        } else {
            law_court_is_drawn(traces, (n - 1) as nat, k, i);
            let j = choose|j: int| 0 <= j < before.len() && before[j] == mine[i];
            assert(all[j] == mine[i]);
        }
    } else if k < n - 1 {
        law_court_is_drawn(traces, (n - 1) as nat, k, i);
    }
}

/// Whatever is drawn for the court belongs to one of its lines.
pub proof fn law_only_the_court_is_drawn(traces: Seq<Option<Trace>>, n: nat, j: int)
    requires
        n <= lines_of_court().len(),
        0 <= j < court_dots(traces, n).len(),
    ensures
        exists|k: int|
            0 <= k < n && (#[trigger] trace_dots(
                traces[k],
                line_style(lines_of_court()[k]),
            )).contains(court_dots(traces, n)[j]),
    decreases n,
{
    let last = trace_dots(traces[n - 1], line_style(lines_of_court()[n - 1]));
    let before = court_dots(traces, (n - 1) as nat);
    if j < before.len() {
        law_only_the_court_is_drawn(traces, (n - 1) as nat, j);
        let k = choose|k: int|
            0 <= k < n - 1 && (#[trigger] trace_dots(
                traces[k],
                line_style(lines_of_court()[k]),
            )).contains(before[j]);
        assert(trace_dots(traces[k], line_style(lines_of_court()[k])).contains(
            court_dots(traces, n)[j],
        ));
    } else {
        assert(last[j - before.len()] == court_dots(traces, n)[j]);
        assert(last.contains(court_dots(traces, n)[j]));
    }
}

// ── net ──────────────────────────────────────────────────────────────────────────

/// A strand of the net is drawn in its column, in each row between its ends that the
/// rectangle has, once and from the top down.
pub proof fn law_strand_is_drawn(s: Strand, area: Rect, row: int)
    ensures
        ({
            let dots = strand_dots(s, area);
            let there = s.top <= row <= s.base && area.y <= row < area.y + area.height;
            let first = if s.top > area.y {
                s.top as int
            } else {
                area.y as int
            };
            &&& there ==> 0 <= row - first < dots.len() && dots[row - first] == Dot {
                at: Some((s.column, row as i64)),
                ch: '╽',
                style: ink(Color::Rgb(150, 160, 185)),
            }
            &&& 0 <= row < dots.len() ==> (dots[row].at matches Some((x, y)) && x == s.column && s.top
                <= y <= s.base && area.y <= y < area.y + area.height)
        }),
{
}

/// Every strand of the mesh is drawn.
pub proof fn law_mesh_is_drawn(mesh: Seq<Strand>, area: Rect, k: int, i: int)
    requires
        0 <= k < mesh.len(),
        0 <= i < strand_dots(mesh[k], area).len(),
    ensures
        mesh_dots(mesh, area).contains(strand_dots(mesh[k], area)[i]),
    decreases mesh.len(),
{
    let before = mesh_dots(mesh.drop_last(), area);
    let all = mesh_dots(mesh, area);
    let mine = strand_dots(mesh[k], area);
    if k == mesh.len() - 1 {
        assert(all[before.len() + i] == mine[i]);
    } else {
        assert(mesh.drop_last()[k] == mesh[k]);
        law_mesh_is_drawn(mesh.drop_last(), area, k, i);
        let j = choose|j: int| 0 <= j < before.len() && before[j] == mine[i];
        assert(all[j] == mine[i]);
    }
}

/// The net: first its mesh, over it the tape in white, then the left and the right post.
pub proof fn law_net_is_drawn(n: NetMarks, area: Rect, i: int)
    ensures
        ({
            let mesh = mesh_dots(n.mesh@, area);
            let tape = trace_dots(n.tape, strong_ink(Color::White));
            let left = trace_dots(n.left_post, strong_ink(Color::Rgb(170, 180, 200)));
            let right = trace_dots(n.right_post, strong_ink(Color::Rgb(170, 180, 200)));
            let all = net_dots(n, area);
            let a = mesh.len() as int;
            let b = a + tape.len();
            let c = b + left.len();
            &&& all.len() == c + right.len()
            &&& 0 <= i < a ==> all[i] == mesh[i]
            &&& a <= i < b ==> all[i] == tape[i - a]
            &&& b <= i < c ==> all[i] == left[i - b]
            &&& c <= i < all.len() ==> all[i] == right[i - c]
        }),
{
}

// ── players, ball and dust ───────────────────────────────────────────────────────

/// A player: shadow, body and head, the racket's rim, of twenty points, in the player's
/// colour, and over it the strings and the grip.
pub proof fn law_figure_is_drawn(f: FigureMarks, color: Color, i: int)
    ensures
        RIM_POINTS == 20,
        ({
            let d = figure_dots(f, color);
            let n = f.rim@.len() as int;
            &&& d.len() == n + 5
            &&& d[0] == Dot { at: f.shadow, ch: '●', style: ink(Color::Rgb(8, 12, 22)) }
            &&& d[1] == Dot { at: f.body, ch: '▲', style: strong_ink(color) }
            &&& d[2] == Dot { at: f.head, ch: 'o', style: ink(Color::Rgb(238, 206, 172)) }
            &&& 0 <= i < n ==> d[3 + i] == Dot { at: f.rim@[i], ch: 'O', style: ink(color) }
            &&& d[n + 3] == Dot { at: f.strings, ch: '·', style: ink(Color::Rgb(220, 226, 240)) }
            &&& d[n + 4] == Dot { at: f.grip, ch: '│', style: ink(Color::Rgb(126, 88, 54)) }
        }),
{
}

/// The trail is drawn from its oldest place to its newest, the older the darker.
pub proof fn law_trail_is_drawn(trail: Seq<Option<(i64, i64)>>, i: int)
    requires
        0 <= i < trail.len() <= TRAIL_LEN,
    ensures
        ({
            let d = trail_dots(trail);
            let n = trail.len() as int;
            let mine = d[n - 1 - i];
            &&& d.len() == n
            &&& mine.at == trail[i]
            &&& mine.ch == (if i % 2 == 0 {
                '·'
            } else {
                '∙'
            })
            &&& mine.style == ink(
                Color::Rgb(((200 * n - 150 * i) / n) as u8, ((245 * n - 165 * i) / n) as u8, 40),
            )
            &&& i == 0 ==> mine.style == ink(Color::Rgb(200, 245, 40))
        }),
{
    let n = trail.len() as int;
    assert((200 * n) / n == 200) by (nonlinear_arith)
        requires
            n > 0,
    ;
    assert((245 * n) / n == 245) by (nonlinear_arith)
        requires
            n > 0,
    ;
}

/// The dot of the ball itself.
pub open spec fn ball_dot(b: BallMarks) -> Dot {
    Dot { at: b.at, ch: '●', style: strong_ink(Color::Rgb(228, 255, 64)) }
}

/// The ball is drawn last, over its shadow and over its trail, which it has while it is on
/// its way.
pub proof fn law_ball_is_drawn(b: BallMarks, live: bool, i: int)
    ensures
        ({
            let d = ball_dots(b, live);
            let n = if live {
                b.trail@.len() as int
            } else {
                0
            };
            &&& d.len() == n + 2
            &&& d[n + 1] == ball_dot(b)
            &&& d[n] == Dot { at: b.shadow, ch: '●', style: ink(Color::Rgb(10, 15, 28)) }
            &&& 0 <= i < n ==> d[i] == trail_dots(b.trail@)[i]
        }),
{
}

/// The dot of a speck of dust.
pub open spec fn speck(d: DustMark) -> Dot {
    Dot {
        at: d.at,
        ch: if d.fresh {
            '*'
        } else {
            '·'
        },
        style: ink(Color::Rgb(165, 195, 230)),
    }
}

/// Every speck of dust is drawn on its side of the net; whatever is drawn as dust is a speck
/// of that side.
pub proof fn law_dust_is_drawn(dust: Seq<DustMark>, near: bool, i: int)
    ensures
        0 <= i < dust.len() && dust[i].near == near ==> dust_dots(dust, near).contains(
            speck(dust[i]),
        ),
        0 <= i < dust_dots(dust, near).len() ==> exists|k: int|
            0 <= k < dust.len() && (#[trigger] dust[k]).near == near && dust_dots(dust, near)[i]
                == speck(dust[k]),
    decreases dust.len(),
{
    reveal(Seq::filter);
    let keep = |d: DustMark| d.near == near;
    let dots = dust_dots(dust, near);
    if dust.len() > 0 {
        let init = dust.drop_last();
        let before = dust_dots(init, near);
        let last = dust.last();
        assert(dots =~= if last.near == near {
            before.push(speck(last))
        } else {
            before
        });
        if 0 <= i < dust.len() && dust[i].near == near {
            if i == dust.len() - 1 {
                assert(dots[before.len() as int] == speck(dust[i]));
            } else {
                law_dust_is_drawn(init, near, i);
                let j = choose|j: int| 0 <= j < before.len() && before[j] == speck(init[i]);
                assert(dots[j] == speck(dust[i]));
            }
        }
        if 0 <= i < dots.len() {
            if i < before.len() {
                law_dust_is_drawn(init, near, i);
                let k = choose|k: int|
                    0 <= k < init.len() && (#[trigger] init[k]).near == near && before[i] == speck(
                        init[k],
                    );
                assert(dust[k].near == near && dots[i] == speck(dust[k]));
            } else {
                assert(dust[dust.len() - 1].near == near && dots[i] == speck(
                    dust[dust.len() - 1],
                ));
            }
        }
    }
}

/// One side of the net: on the far side the computer first, then the ball if it is there,
/// then the dust; on the near side the ball if it is there, the dust, and the player last.
pub proof fn law_side_is_drawn(a: Actors, live: bool, near: bool, i: int)
    ensures
        ({
            let all = actor_dots(a, live, near);
            let cpu = figure_dots(a.cpu, Color::Rgb(96, 200, 255));
            let you = figure_dots(a.you, Color::Rgb(255, 122, 92));
            let ball = ball_dots(a.ball, live);
            let dust = dust_dots(a.dust@, near);
            let c = if near {
                0
            } else {
                cpu.len() as int
            };
            let b = if a.ball.near == near {
                c + ball.len()
            } else {
                c
            };
            let d = b + dust.len();
            &&& all.len() == d + if near {
                you.len() as int
            } else {
                0
            }
            &&& 0 <= i < c ==> all[i] == cpu[i]
            &&& c <= i < b ==> all[i] == ball[i - c]
            &&& b <= i < d ==> all[i] == dust[i - b]
            &&& d <= i < all.len() ==> all[i] == you[i - d]
        }),
{
}

/// The ball is drawn on its own side of the net, be it the near one or the far one, and not
/// on the other: there it plays no part in what is drawn.
pub proof fn law_ball_is_on_its_side(a: Actors, other: Actors, live: bool, near: bool)
    ensures
        actor_dots(a, live, near).contains(ball_dot(a.ball)) <==> near == a.ball.near,
        actor_dots(a, live, a.ball.near).contains(
            Dot { at: a.ball.shadow, ch: '●', style: ink(Color::Rgb(10, 15, 28)) },
        ),
        near != a.ball.near && near != other.ball.near && a.you == other.you && a.cpu == other.cpu
            && a.dust == other.dust ==> actor_dots(a, live, near) == actor_dots(other, live, near),
{
    let all = actor_dots(a, live, near);
    let n = ball_dots(a.ball, live).len() as int;
    let c = if near {
        0
    } else {
        figure_dots(a.cpu, Color::Rgb(96, 200, 255)).len() as int
    };
    law_ball_is_drawn(a.ball, live, 0);
    if near == a.ball.near {
        law_side_is_drawn(a, live, near, c + n - 1);
        assert(all[c + n - 1] == ball_dot(a.ball));
    } else {
        assert forall|i: int| 0 <= i < all.len() implies all[i] != ball_dot(a.ball) by {
            law_side_is_drawn(a, live, near, i);
            law_figure_is_drawn(a.cpu, Color::Rgb(96, 200, 255), i - 3);
            let d = dust_dots(a.dust@, near).len();
            law_dust_is_drawn(a.dust@, near, i - c);
            law_figure_is_drawn(a.you, Color::Rgb(255, 122, 92), i - d - 3);
        }
    }
    let own = actor_dots(a, live, a.ball.near);
    let o = if a.ball.near {
        0
    } else {
        figure_dots(a.cpu, Color::Rgb(96, 200, 255)).len() as int
    };
    law_side_is_drawn(a, live, a.ball.near, o + n - 2);
    assert(own[o + n - 2] == Dot { at: a.ball.shadow, ch: '●', style: ink(Color::Rgb(10, 15, 28)) });
}

// ── what is written over the picture ─────────────────────────────────────────────

/// A text that fits is written in the middle of its row, character by character; the other
/// rows stay. A text that does not fit, or has no row, is not written.
pub proof fn law_centered_text_is_read(
    cells: Map<(u16, u16), CellView>,
    buffer: Rect,
    area: Rect,
    row: int,
    text: Seq<char>,
    style: Style,
    p: (u16, u16),
)
    requires
        cells.contains_key(p),
        inside(area, buffer),
        all_narrow(text),
        text.len() <= u16::MAX,
    ensures
        ({
            let next = centered(cells, buffer, area, row, text, style);
            let fits = text.len() < area.width && area.y <= row < area.y + area.height;
            let i = p.0 - text_column(area, text.len() as int);
            &&& !fits ==> next == cells
            &&& fits && p.1 == row && 0 <= i < text.len() ==> next[p] == inked(
                cells[p],
                text[i],
                style,
            )
            &&& p.1 != row || i < 0 || i >= text.len() ==> next[p] == cells[p]
            &&& next.dom() == cells.dom()
        }),
{
    let next = centered(cells, buffer, area, row, text, style);
    assert(text.len() as int % 0x1_0000 == text.len());
    assert(next.dom() =~= cells.dom());
}

/// The headline stands 34 hundredths down.
pub proof fn law_headline_row(area: Rect)
    ensures
        ({
            let down = headline_row(area) - area.y;
            100 * down <= 34 * area.height < 100 * down + 100
        }),
{
}

/// The target of the player's serve: a cross that is bright in one half of its pulse and dim
/// in the other, and a dot for each place around it.
pub proof fn law_target_is_drawn(m: ServeMarks, i: int)
    ensures
        ({
            let d = target_dots(m);
            &&& d.len() == 1 + m.around@.len()
            &&& d[0] == Dot {
                at: m.target,
                ch: '×',
                style: strong_ink(
                    if m.bright {
                        Color::Rgb(228, 255, 64)
                    } else {
                        Color::Rgb(110, 130, 60)
                    },
                ),
            }
            &&& 0 <= i < m.around@.len() ==> d[1 + i] == Dot {
                at: m.around@[i],
                ch: '·',
                style: ink(Color::Rgb(150, 165, 90)),
            }
        }),
{
}

/// Before a serve the target is shown for the player's serve alone, and the last row but one
/// says who is to serve.
pub proof fn law_serve_hints(
    cells: Map<(u16, u16), CellView>,
    buffer: Rect,
    area: Rect,
    server: int,
    m: ServeMarks,
)
    ensures
        serve_hints(cells, buffer, area, server, m) == centered(
            if server == 0 {
                all_plotted(cells, buffer, target_dots(m))
            } else {
                cells
            },
            buffer,
            area,
            area.y + area.height - 2,
            if server == 0 {
                "SPACE · SERVE"@
            } else {
                "CPU SERVING…"@
            },
            strong_ink(Color::Rgb(255, 230, 120)),
        ),
{
}

/// The length of a rally is written in the second row and ends two columns from the right
/// edge, if there is room.
pub proof fn law_rally_count(
    cells: Map<(u16, u16), CellView>,
    buffer: Rect,
    area: Rect,
    rally: nat,
    p: (u16, u16),
)
    requires
        cells.contains_key(p),
        inside(area, buffer),
        area.height >= 2,
    ensures
        ({
            let next = rally_count(cells, buffer, area, rally);
            let text = "RALLY "@ + digits(rally);
            let i = p.0 - (area.x + area.width - 2 - text.len());
            &&& text.len() + 2 <= area.width && p.1 == area.y + 1 && 0 <= i < text.len() ==> next[p]
                == inked(cells[p], text[i], strong_ink(Color::Rgb(255, 205, 100)))
            &&& p.1 != area.y + 1 ==> next[p] == cells[p]
            &&& next.dom() == cells.dom()
        }),
{
    reveal_strlit("RALLY ");
    lemma_narrow_digits(rally);
    lemma_narrow_sum("RALLY "@, digits(rally));
    assert(rally_count(cells, buffer, area, rally).dom() =~= cells.dom());
}

/// What is written over the picture, one over the other: the hints while a serve is awaited,
/// the length of a rally from four strokes on, the headline in its colour, and two rows below
/// it the subtitle. Where there is nothing to say, the picture stays.
pub proof fn law_writing_over_the_picture(
    cells: Map<(u16, u16), CellView>,
    buffer: Rect,
    area: Rect,
    g: GameView,
    m: ServeMarks,
)
    ensures
        ({
            let next = overwritten(cells, buffer, area, g, m);
            let silent = GameView { msg: None, sub: None, ..g };
            let below = overwritten(cells, buffer, area, silent, m);
            let headed = match g.msg {
                None => below,
                Some(news) => centered(
                    below,
                    buffer,
                    area,
                    headline_row(area),
                    news.text,
                    strong_ink(news.color),
                ),
            };
            &&& g.sub is None ==> next == headed
            &&& g.sub matches Some(news) ==> next == centered(
                headed,
                buffer,
                area,
                headline_row(area) + 2,
                news.text,
                strong_ink(Color::Rgb(224, 230, 246)),
            )
            &&& g.phase matches Phase::Serve { server, wait } ==> below == serve_hints(
                cells,
                buffer,
                area,
                server as int,
                m,
            )
            &&& g.phase is Rally && g.rally >= 4 ==> below == rally_count(
                cells,
                buffer,
                area,
                g.rally,
            )
            &&& g.phase is Rally && g.rally < 4 || g.phase is Point || g.phase is Over ==> below
                == cells
        }),
{
}

/// The subtitle can be read, whatever else is in the picture.
pub proof fn law_subtitle_is_shown(
    cells: Map<(u16, u16), CellView>,
    buffer: Rect,
    area: Rect,
    g: GameView,
    m: ServeMarks,
    i: int,
)
    requires
        forall|x: u16, y: u16|
            within(buffer, x as int, y as int) ==> #[trigger] cells.contains_key((x, y)),
        inside(area, buffer),
        !tiny(area),
        narrow_news(g),
        g.sub is Some,
        0 <= i < g.sub->0.text.len() < area.width,
    ensures
        ({
            let p = (
                (text_column(area, g.sub->0.text.len() as int) + i) as u16,
                (headline_row(area) + 2) as u16,
            );
            overwritten(cells, buffer, area, g, m)[p].symbol == seq![g.sub->0.text[i]]
        }),
{
    let text = g.sub->0.text;
    let p = (
        (text_column(area, text.len() as int) + i) as u16,
        (headline_row(area) + 2) as u16,
    );
    let silent = GameView { sub: None, ..g };
    let headed = overwritten(cells, buffer, area, silent, m);
    lemma_writing_keeps_cells(cells, buffer, area, silent, m);
    assert(within(buffer, p.0 as int, p.1 as int));
    assert(cells.contains_key(p));
    assert(headed.contains_key(p));
    law_centered_text_is_read(
        headed,
        buffer,
        area,
        headline_row(area) + 2,
        text,
        strong_ink(Color::Rgb(224, 230, 246)),
        p,
    );
}

proof fn lemma_writing_keeps_cells(
    cells: Map<(u16, u16), CellView>,
    buffer: Rect,
    area: Rect,
    g: GameView,
    m: ServeMarks,
)
    requires
        narrow_news(g),
    ensures
        overwritten(cells, buffer, area, g, m).dom() == cells.dom(),
{
    law_plots_touch_only_their_cells(cells, buffer, target_dots(m), (0, 0));
    reveal_strlit("SPACE · SERVE");
    reveal_strlit("CPU SERVING…");
    reveal_strlit("RALLY ");
    lemma_narrow_digits(g.rally);
    lemma_narrow_sum("RALLY "@, digits(g.rally));
    assert(overwritten(cells, buffer, area, g, m).dom() =~= cells.dom());
}

/// A picture of less than twenty columns or eight rows is not drawn. Any other one has its
/// layers in order: background, lines, what is on the far side, the net, what is on the near
/// side, and what is written over it.
pub proof fn law_layers_of_the_picture(
    cells: Map<(u16, u16), CellView>,
    buffer: Rect,
    area: Rect,
    g: GameView,
    s: Scene,
)
    requires
        g.frame <= u64::MAX,
    ensures
        area.width < 20 || area.height < 8 ==> pictured(cells, buffer, area, g, s) == cells,
        area.width >= 20 && area.height >= 8 ==> pictured(cells, buffer, area, g, s) == overwritten(
            all_plotted(
                background(cells, buffer, area, s.back, g.frame as u64),
                buffer,
                court_dots(s.lines@, 11) + actor_dots(s.actors, g.ball_live, false) + net_dots(
                    s.net,
                    buffer,
                ) + actor_dots(s.actors, g.ball_live, true),
            ),
            buffer,
            area,
            g,
            s.serve,
        ),
{
    let bg = background(cells, buffer, area, s.back, g.frame as u64);
    let a = court_dots(s.lines@, 11);
    let b = actor_dots(s.actors, g.ball_live, false);
    let c = net_dots(s.net, buffer);
    let d = actor_dots(s.actors, g.ball_live, true);
    assert(lines_of_court().len() == 11);
    law_plots_compose(bg, buffer, a, b);
    law_plots_compose(bg, buffer, a + b, c);
    law_plots_compose(bg, buffer, a + b + c, d);
}

} // verus!
