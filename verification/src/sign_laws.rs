//! What is written around and over the picture, told by what it is written for.

use crate::board::{
    bar_view, box_place, divided, drawable, drawn, header_view, overlaid, paused_view, remark_text,
    result_color, result_view, row_view, scoreboard_view,
};
use crate::game::{GameView, Phase};
use crate::hud::{tiny, Scene};
use crate::panel::{narrow_lines, SpanView};
use crate::play_laws::{game_is_near, games_of, match_is_near, points_of};
use crate::score::{
    label_text, name_text, pips_text, points_text, situation_color, situation_text, ScoreView,
    GAMES_TO_WIN,
};
use crate::screen::{
    all_narrow, buffer_area, buffer_len, fits, inside, lemma_narrow_sum, within, CellView,
};
use crate::style::Style;
use crate::text::{blanks, digits, right_aligned};
use ratatui::buffer::Buffer;
use ratatui::layout::Rect;
use ratatui::style::Color;
use vstd::prelude::*;

verus! {

// ── numbers and names ────────────────────────────────────────────────────────────

/// A numeral of one figure is that figure; a longer one is a shorter one with a figure
/// behind it, and does not begin with zero.
pub proof fn law_numeral_grows(n: nat, d: nat)
    requires
        d < 10,
    ensures
        digits(d).len() == 1 && digits(d)[0] as int == '0' as int + d,
        n > 0 ==> digits(10 * n + d).drop_last() == digits(n) && digits(10 * n + d).last() as int
            == '0' as int + d,
        n > 0 ==> digits(n)[0] != '0',
    decreases n,
{
    reveal_strlit("0123456789");
    if n > 0 {
        assert((10 * n + d) / 10 == n && (10 * n + d) % 10 == d);
        assert(digits(10 * n + d).drop_last() =~= digits(n));
        if n >= 10 {
            law_numeral_grows(n / 10, n % 10);
        }
    }
}

/// Padding puts blanks in front of a text until it is as wide as it has to be.
pub proof fn law_padding(s: Seq<char>, width: nat, i: int)
    ensures
        ({
            let t = right_aligned(s, width);
            &&& s.len() >= width ==> t == s
            &&& s.len() < width ==> t.len() == width
            &&& t.skip(t.len() - s.len()) == s
            &&& 0 <= i < t.len() - s.len() ==> t[i] == ' '
            &&& blanks(width).len() == width
            &&& 0 <= i < width ==> blanks(width)[i] == ' '
        }),
{
    let t = right_aligned(s, width);
    assert(t.skip(t.len() - s.len()) =~= s);
}

/// Points are called zero, fifteen, thirty and, from the third on, forty. From three all on
/// whoever is ahead has the advantage.
pub proof fn law_points_are_called(me: nat, other: nat)
    ensures
        me == 0 ==> points_text(me) == "0"@,
        me == 1 ==> points_text(me) == "15"@,
        me == 2 ==> points_text(me) == "30"@,
        me >= 3 ==> points_text(me) == "40"@,
        me >= 3 && other >= 3 && me > other ==> label_text(me, other) == "AD"@,
        me < 3 || other < 3 || me <= other ==> label_text(me, other) == points_text(me),
{
}

/// The players have their names.
pub proof fn law_names(i: int)
    ensures
        i == 0 ==> name_text(i) == "YOU"@,
        i != 0 ==> name_text(i) == "CPU"@,
{
}

// ── where the game stands ────────────────────────────────────────────────────────

/// What is at stake for player `i`, who wins the game by the next point.
pub open spec fn stake(s: ScoreView, i: int) -> Seq<char> {
    let label = if match_is_near(s, i) {
        "MATCH POINT"@
    } else if s.server == i {
        "GAME POINT"@
    } else {
        "BREAK POINT"@
    };
    let advantage = if match_is_near(s, i) {
        "ADVANTAGE · MATCH POINT"@
    } else if s.server == i {
        "ADVANTAGE"@
    } else {
        "ADVANTAGE · BREAK POINT"@
    };
    if points_of(s, 1 - i) >= 3 {
        advantage
    } else {
        label
    }
}

/// Where the game stands is told for every score. If a player wins the game by the next
/// point, it says what that point is and names that player, in the colour of good news for
/// the player and of bad news for the computer. If not, it says deuce from three all on, and
/// before that which game is played and who serves.
pub proof fn law_situation_is_told(s: ScoreView)
    ensures
        game_is_near(s, 0) ==> situation_text(s) == stake(s, 0) + " — "@ + "YOU"@
            && situation_color(s) == Color::Rgb(140, 255, 170),
        game_is_near(s, 1) ==> situation_text(s) == stake(s, 1) + " — "@ + "CPU"@
            && situation_color(s) == Color::Rgb(255, 110, 110),
        !game_is_near(s, 0) && !game_is_near(s, 1) && s.pts.0 >= 3 && s.pts.1 >= 3
            ==> situation_text(s) == "DEUCE"@ && situation_color(s) == Color::Rgb(255, 230, 120),
        !game_is_near(s, 0) && !game_is_near(s, 1) && (s.pts.0 < 3 || s.pts.1 < 3) ==> {
            &&& situation_text(s) == "GAME "@ + digits(s.games.0 + s.games.1 + 1) + " OF "@
                + digits((2 * GAMES_TO_WIN - 1) as nat) + " · "@ + (if s.server == 0 {
                "YOU"@
            } else {
                "CPU"@
            }) + " SERVING"@
            &&& situation_color(s) == Color::Rgb(120, 132, 160)
        },
{
}

// ── scoreboard ───────────────────────────────────────────────────────────────────

/// The line of a player: the ball blinks for whoever serves and for nobody else; then come
/// the name, the points against those of the other player, a box for each game to win and
/// the number of games, in the colour of the player.
pub proof fn law_score_row(g: GameView, i: int)
    requires
        i == 0 || i == 1,
    ensures
        ({
            let row = row_view(g, i);
            let color = if i == 0 {
                Color::Rgb(255, 122, 92)
            } else {
                Color::Rgb(96, 200, 255)
            };
            let strong = Style { fg: Some(color), bg: None, bold: true };
            &&& row.len() == 7
            &&& g.score.server == i && g.frame % 64 < 40 ==> row[0].content == " ● "@
            &&& g.score.server != i || g.frame % 64 >= 40 ==> row[0].content == "   "@
            &&& row[0].style == (Style { fg: Some(Color::Rgb(228, 255, 64)), bg: None, bold: false })
            &&& row[1].content == (if i == 0 {
                "YOU"@
            } else {
                "CPU"@
            }) + " "@ && row[1].style == strong
            &&& row[2].content == right_aligned(
                label_text(points_of(g.score, i), points_of(g.score, 1 - i)),
                3,
            ) && row[2].style == (Style { fg: Some(Color::White), bg: None, bold: true })
            &&& row[3].content == "    "@ && row[5].content == "  "@
            &&& row[3].style == row[5].style && row[3].style == (Style {
                fg: None,
                bg: None,
                bold: false,
            })
            &&& row[4].content == pips_text(games_of(g.score, i)) && row[4].style == strong
            &&& row[6].content == "GAMES "@ + digits(games_of(g.score, i))
            &&& row[6].style == (Style {
                fg: Some(Color::Rgb(104, 116, 144)),
                bg: None,
                bold: false,
            })
        }),
{
}

/// The remark says who serves while a serve is awaited and that a finished match is over;
/// while a fast ball is on its way it gives the strokes, at least one, and the speed; else it
/// says how the match is won.
pub proof fn law_remark(g: GameView, speed: Option<u64>)
    ensures
        ({
            let text = remark_text(g, speed);
            let strokes: nat = if g.rally == 0 {
                1
            } else {
                g.rally
            };
            let playing = g.phase is Rally || g.phase is Point;
            &&& g.phase matches Phase::Serve { server, wait } ==> text == "SERVICE — "@ + (if server
                == 0 {
                "YOU"@
            } else {
                "CPU"@
            }) + " "@
            &&& g.phase is Over ==> text == "MATCH OVER "@
            &&& playing && g.ball_live && speed is Some ==> text == "RALLY "@ + right_aligned(
                digits(strokes),
                2,
            ) + " · "@ + right_aligned(digits(speed->0 as nat), 3) + " KM/H "@
            &&& playing && !(g.ball_live && speed is Some) ==> text == "FIRST TO 3 GAMES "@
        }),
{
}

/// The scoreboard has four lines: the header with title, place and remark, the player, the
/// computer, and where the game stands.
pub proof fn law_scoreboard(g: GameView, width: nat, speed: Option<u64>)
    ensures
        ({
            let board = scoreboard_view(g, width, speed);
            let head = header_view(g, width, speed);
            &&& board.len() == 4
            &&& board[0] == head
            &&& head.len() == 4
            &&& head[0].content == " RATATUI OPEN"@ && head[1].content == " · CENTRE COURT"@
            &&& head[2].style == (Style { fg: None, bg: None, bold: false })
            &&& head[3].content == remark_text(g, speed)
            &&& head[0].style == (Style { fg: Some(Color::Rgb(150, 182, 255)), bg: None, bold: true })
            &&& head[1].style == (Style { fg: Some(Color::Rgb(88, 100, 130)), bg: None, bold: false })
            &&& head[3].style == (Style { fg: Some(Color::Rgb(255, 214, 120)), bg: None, bold: true })
            &&& board[1] == row_view(g, 0)
            &&& board[2] == row_view(g, 1)
            &&& board[3].len() == 2
            &&& board[3][0].content == "   "@
            &&& board[3][1].content == situation_text(g.score)
            &&& board[3][1].style == (Style {
                fg: Some(situation_color(g.score)),
                bg: None,
                bold: true,
            })
        }),
{
}

/// In the bottom bar each key, bold between blanks, stands in front of what it does.
pub proof fn law_bar()
    ensures
        bar_view().len() == 14,
        forall|i: int|
            0 <= i < 6 ==> (#[trigger] bar_view()[2 * i]).style == (Style {
                fg: Some(Color::Rgb(230, 236, 250)),
                bg: None,
                bold: true,
            }),
        forall|i: int|
            0 <= i < 6 ==> (#[trigger] bar_view()[2 * i + 1]).style == (Style {
                fg: Some(Color::Rgb(96, 106, 130)),
                bg: None,
                bold: false,
            }),
        bar_view()[0].content == " "@ + "◀ ▶"@ + " "@ && bar_view()[1].content == " move "@,
        bar_view()[2].content == " "@ + "▲ ▼"@ + " "@ && bar_view()[3].content == " depth "@,
        bar_view()[4].content == " "@ + "SPACE"@ + " "@ && bar_view()[5].content == " serve "@,
        bar_view()[6].content == " "@ + "P"@ + " "@ && bar_view()[7].content == " pause "@,
        bar_view()[8].content == " "@ + "R"@ + " "@ && bar_view()[9].content == " rematch "@,
        bar_view()[10].content == " "@ + "Q"@ + " "@ && bar_view()[11].content == " quit "@,
        bar_view()[12].content == "      "@,
        bar_view()[13].content == "centre court · 60 fps · ratatui"@,
        bar_view()[13].style.fg == Some(Color::Rgb(70, 80, 105)) && !bar_view()[13].style.bold,
{
}

// ── boxes ────────────────────────────────────────────────────────────────────────

/// A box is as wide as 46 columns or as the margin allows, and as high as its lines with
/// their frame or as the margin allows.
pub proof fn law_size_of_box(area: Rect, n: int)
    requires
        fits(area),
        0 <= n <= u16::MAX - 2,
    ensures
        box_place(area, n) matches Some(r) ==> {
            &&& r.width == (if area.width >= 48 {
                46
            } else {
                area.width - 2
            })
            &&& r.height == (if n + 4 <= area.height {
                n + 2
            } else {
                area.height - 2
            })
            &&& r.x == area.x + (area.width - r.width) / 2
            &&& r.y == area.y + (area.height - r.height) / 2
        },
{
}

/// A box has a frame in its colour around it, with its title between blanks from the upper
/// left corner on, on a ground of its own. What is not in the box stays as it was.
pub proof fn law_box_has_frame(
    cells: Map<(u16, u16), CellView>,
    buffer: Rect,
    area: Rect,
    title: Seq<char>,
    lines: Seq<Seq<SpanView>>,
    color: Color,
    p: (u16, u16),
)
    requires
        cells.contains_key(p),
        inside(area, buffer),
        all_narrow(title),
        narrow_lines(lines),
        lines.len() <= u16::MAX - 2,
    ensures
        ({
            let next = overlaid(cells, buffer, area, title, lines, color);
            match box_place(area, lines.len() as int) {
                None => next == cells,
                Some(r) => {
                    let column = p.0 - r.x;
                    let row = p.1 - r.y;
                    let edge = row == 0 || row == r.height - 1 || column == 0 || column == r.width
                        - 1;
                    &&& !within(r, p.0 as int, p.1 as int) ==> next[p] == cells[p]
                    &&& within(r, p.0 as int, p.1 as int) && edge ==> {
                        &&& next[p].fg == color && next[p].bg == Color::Rgb(11, 15, 27)
                        &&& !next[p].bold
                    }
                    &&& within(r, p.0 as int, p.1 as int) && row == 0 && 2 <= column < r.width - 1
                        && column - 2 < title.len() ==> next[p].symbol == seq![title[column - 2]]
                },
            }
        }),
{
    reveal_strlit(" ");
    lemma_narrow_sum(" "@, title);
    lemma_narrow_sum(" "@ + title, " "@);
}

/// The box of a finished match names the winner of the match: the player who has all the
/// games that it takes, by whatever margin.
pub proof fn law_verdict_names_winner(s: ScoreView)
    requires
        s.wf(),
        s.decided(),
    ensures
        ({
            let line = result_view(s)[1];
            &&& line.len() == 1
            &&& line[0].content == ">> YOU WIN THE MATCH <<"@ <==> s.games.0 >= GAMES_TO_WIN
            &&& line[0].content == "CPU TAKES THE MATCH"@ <==> s.games.1 >= GAMES_TO_WIN
            &&& result_color(s) == Color::Rgb(140, 255, 170) <==> s.games.0 >= GAMES_TO_WIN
            &&& result_color(s) == Color::Rgb(255, 110, 110) <==> s.games.1 >= GAMES_TO_WIN
            &&& line[0].style == (Style { fg: Some(result_color(s)), bg: None, bold: true })
        }),
{
    reveal_strlit(">> YOU WIN THE MATCH <<");
    reveal_strlit("CPU TAKES THE MATCH");
    assert(">> YOU WIN THE MATCH <<"@[0] == '>');
    assert("CPU TAKES THE MATCH"@[0] == 'C');
}

/// The point that ends the match decides what the box says: its winner is named.
pub proof fn law_last_point_decides_verdict(g: GameView, w: int, what: Seq<char>)
    requires
        g.score.wf(),
        !g.score.decided(),
        w == 0 || w == 1,
        g.awarded(w, what).phase is Over,
    ensures
        ({
            let s = g.awarded(w, what).score;
            &&& w == 0 ==> result_view(s)[1][0].content == ">> YOU WIN THE MATCH <<"@
            &&& w == 1 ==> result_view(s)[1][0].content == "CPU TAKES THE MATCH"@
            &&& result_color(s) == g.awarded(w, what).msg->0.color
        }),
{
    let s = g.awarded(w, what).score;
    assert(s.wf() && s.decided());
    law_verdict_names_winner(s);
}

/// The box of a finished match: an empty line, the verdict, the games of the player and of
/// the computer, and the keys that are left.
pub proof fn law_result_box(s: ScoreView)
    ensures
        ({
            let v = result_view(s);
            &&& v.len() == 4
            &&& v[0].len() == 0
            &&& v[1].len() == 1 && v[2].len() == 1 && v[3].len() == 1
            &&& s.games.0 > s.games.1 ==> v[1][0].content == ">> YOU WIN THE MATCH <<"@
                && result_color(s) == Color::Rgb(140, 255, 170)
            &&& s.games.0 <= s.games.1 ==> v[1][0].content == "CPU TAKES THE MATCH"@
                && result_color(s) == Color::Rgb(255, 110, 110)
            &&& v[2][0].content == "games "@ + digits(s.games.0) + "–"@ + digits(s.games.1)
            &&& v[3][0].content == "R — rematch · Q — quit"@
            &&& v[2][0].style == (Style { fg: None, bg: None, bold: false })
            &&& v[3][0].style == (Style {
                fg: Some(Color::Rgb(150, 160, 185)),
                bg: None,
                bold: false,
            })
        }),
{
}

/// The box of a pause: an empty line and how to resume.
pub proof fn law_pause_box()
    ensures
        paused_view().len() == 2,
        paused_view()[0].len() == 0,
        paused_view()[1].len() == 1,
        paused_view()[1][0].content == "press P to resume"@,
        paused_view()[1][0].style == (Style {
            fg: Some(Color::Rgb(200, 210, 235)),
            bg: None,
            bold: false,
        }),
{
}

/// A pause changes nothing on the screen but for its box over the picture, which is drawn
/// exactly while the match is paused; so is the box of the result exactly once the match is
/// over, and over that of a pause.
pub proof fn law_boxes_over_the_picture(
    cells: Map<(u16, u16), CellView>,
    buffer: Rect,
    top: Rect,
    middle: Rect,
    base: Rect,
    g: GameView,
    s: Scene,
    speed: Option<u64>,
)
    requires
        !g.paused,
    ensures
        ({
            let paused = GameView { paused: true, ..g };
            let plain = drawn(cells, buffer, top, middle, base, g, s, speed);
            let frozen = drawn(cells, buffer, top, middle, base, paused, s, speed);
            !(g.phase is Over) ==> frozen == overlaid(
                plain,
                buffer,
                middle,
                "PAUSED"@,
                paused_view(),
                Color::Rgb(120, 140, 190),
            )
        }),
        g.phase is Over ==> ({
            let below = crate::panel::typeset(
                crate::hud::pictured(
                    crate::panel::typeset(
                        cells,
                        top,
                        scoreboard_view(g, top.width as nat, speed),
                        Style { fg: None, bg: Some(Color::Rgb(9, 13, 25)), bold: false },
                    ),
                    buffer,
                    middle,
                    g,
                    s,
                ),
                base,
                seq![bar_view()],
                Style { fg: None, bg: Some(Color::Rgb(10, 14, 26)), bold: false },
            );
            let paused = GameView { paused: true, ..g };
            let held = overlaid(
                below,
                buffer,
                middle,
                "PAUSED"@,
                paused_view(),
                Color::Rgb(120, 140, 190),
            );
            &&& drawn(cells, buffer, top, middle, base, g, s, speed) == overlaid(
                below,
                buffer,
                middle,
                "MATCH OVER"@,
                result_view(g.score),
                result_color(g.score),
            )
            &&& drawn(cells, buffer, top, middle, base, paused, s, speed) == overlaid(
                held,
                buffer,
                middle,
                "MATCH OVER"@,
                result_view(g.score),
                result_color(g.score),
            )
        }),
        !(g.phase is Over) ==> drawn(cells, buffer, top, middle, base, g, s, speed)
            == crate::panel::typeset(
            crate::hud::pictured(
                crate::panel::typeset(
                    cells,
                    top,
                    scoreboard_view(g, top.width as nat, speed),
                    Style { fg: None, bg: Some(Color::Rgb(9, 13, 25)), bold: false },
                ),
                buffer,
                middle,
                g,
                s,
            ),
            base,
            seq![bar_view()],
            Style { fg: None, bg: Some(Color::Rgb(10, 14, 26)), bold: false },
        ),
{
    lemma_pause_is_not_pictured(cells, buffer, top, middle, base, g, s, speed);
}

proof fn lemma_pause_is_not_pictured(
    cells: Map<(u16, u16), CellView>,
    buffer: Rect,
    top: Rect,
    middle: Rect,
    base: Rect,
    g: GameView,
    s: Scene,
    speed: Option<u64>,
)
    ensures
        ({
            let paused = GameView { paused: true, ..g };
            &&& scoreboard_view(paused, top.width as nat, speed) == scoreboard_view(
                g,
                top.width as nat,
                speed,
            )
            &&& forall|c: Map<(u16, u16), CellView>| #[trigger]
                crate::hud::pictured(c, buffer, middle, paused, s) == crate::hud::pictured(
                    c,
                    buffer,
                    middle,
                    g,
                    s,
                )
        }),
{
    let paused = GameView { paused: true, ..g };
    assert(header_view(paused, top.width as nat, speed) =~= header_view(
        g,
        top.width as nat,
        speed,
    ));
    assert(row_view(paused, 0) =~= row_view(g, 0));
    assert(row_view(paused, 1) =~= row_view(g, 1));
    assert(scoreboard_view(paused, top.width as nat, speed) =~= scoreboard_view(
        g,
        top.width as nat,
        speed,
    ));
}

/// An ordinary screen is drawn: a grid that is whole, divided into its parts, with a match
/// in progress and a scene that has all the picture needs.
pub proof fn law_ordinary_screen_is_drawn(b: Buffer, rows: Seq<Rect>, g: GameView, s: Scene)
    requires
        buffer_len(b) == buffer_area(b).width * buffer_area(b).height,
        fits(buffer_area(b)),
        buffer_area(b).width < u16::MAX,
        divided(buffer_area(b), 4, 6, 2, rows),
        g.wf(),
        !tiny(rows[1]) ==> s.covers(rows[1]),
    ensures
        drawable(b, rows[0], rows[1], rows[2], g, s),
{
}

} // verus!
