//! What each step of play does, told by what went in and what came out.

use crate::effects::{extended, settled, DUST_DROPPED, DUST_LIMIT, TRAIL_LEN};
use crate::game::{
    new_game, Call, Deed, Flight, GameView, Landing, MessageView, Motion, NetContact, Phase, Stage,
    SubtitleView, FAULT_NEWS, FAULT_PAUSE, KEY_HOLD_FRAMES, MATCH_NEWS, NET_CORD_NEWS, POINT_NEWS, POINT_PAUSE,
    SCORE_NEWS, SERVE_WAIT,
};
use crate::keys::{across, along, command, keyed, Command, Key, KeyKind};
use crate::laws::{after_frames, law_award_is_symmetric, law_points_only_in_rallies};
use crate::noise::xorshift;
use crate::score::{points_text, ScoreView, GAMES_TO_WIN};
use crate::text::digits;
use ratatui::style::Color;
use vstd::prelude::*;

verus! {

// ── points and games ─────────────────────────────────────────────────────────────

/// The points of player `i`.
pub open spec fn points_of(s: ScoreView, i: int) -> nat {
    if i == 0 {
        s.pts.0
    } else {
        s.pts.1
    }
}

/// The games of player `i`.
pub open spec fn games_of(s: ScoreView, i: int) -> nat {
    if i == 0 {
        s.games.0
    } else {
        s.games.1
    }
}

/// One point more wins player `i` the game: there are three already, and more than the
/// other player has.
pub open spec fn game_is_near(s: ScoreView, i: int) -> bool {
    points_of(s, i) >= 3 && points_of(s, i) > points_of(s, 1 - i)
}

/// One point more wins player `i` the match.
pub open spec fn match_is_near(s: ScoreView, i: int) -> bool {
    game_is_near(s, i) && games_of(s, i) + 1 >= GAMES_TO_WIN
}

/// A point goes to the player who won it and to nobody else. It wins the game if it is
/// the fourth or a later one and gives a lead of two; the points then start anew and the
/// other player serves. Every point starts with two serves.
pub proof fn law_point_is_counted(s: ScoreView, w: int)
    requires
        s.server <= 1,
        w == 0 || w == 1,
    ensures
        ({
            let next = s.after_point(w);
            &&& next.serves == 2
            &&& game_is_near(s, w) ==> {
                &&& next.pts.0 == 0 && next.pts.1 == 0
                &&& games_of(next, w) == games_of(s, w) + 1
                &&& games_of(next, 1 - w) == games_of(s, 1 - w)
                &&& next.server + s.server == 1
            }
            &&& !game_is_near(s, w) ==> {
                &&& points_of(next, w) == points_of(s, w) + 1
                &&& points_of(next, 1 - w) == points_of(s, 1 - w)
                &&& next.games == s.games
                &&& next.server == s.server
            }
        }),
        s.game_point(w) == game_is_near(s, w),
        s.decided() == (games_of(s, 0) >= GAMES_TO_WIN || games_of(s, 1) >= GAMES_TO_WIN),
{
}

/// A point can be counted exactly if the winner's points, and twice more than the other's,
/// fit into a byte, and so do the winner's games if the point wins one.
pub proof fn law_room_for_a_point(s: ScoreView, w: int)
    requires
        w == 0 || w == 1,
        s.server <= 1,
    ensures
        s.has_room(w) <==> points_of(s, w) + 1 <= 255 && (points_of(s, w) >= 3 ==> points_of(
            s,
            1 - w,
        ) + 2 <= 255) && (game_is_near(s, w) ==> games_of(s, w) + 1 <= 255),
{
}

/// The announcement of a score: advantage and deuce from three all on, else the points of
/// the player, then those of the computer.
pub open spec fn announced(pts: (nat, nat), text: Seq<char>) -> bool {
    &&& pts.0 >= 3 && pts.1 >= 3 && pts.0 == pts.1 ==> text == "DEUCE"@
    &&& pts.0 >= 3 && pts.1 >= 3 && pts.0 > pts.1 ==> text == "ADVANTAGE "@ + "YOU"@
    &&& pts.0 >= 3 && pts.1 >= 3 && pts.0 < pts.1 ==> text == "ADVANTAGE "@ + "CPU"@
    &&& pts.0 < 3 || pts.1 < 3 ==> text == points_text(pts.0) + " – "@ + points_text(pts.1)
}

/// An award counts the point and announces it. The match is over exactly if the winner has
/// the third game by it; the headline then names the winner of the match. Nothing but
/// score, phase and news changes.
pub proof fn law_award_is_announced(g: GameView, w: int, what: Seq<char>)
    requires
        g.score.server <= 1,
        w == 0 || w == 1,
    ensures
        ({
            let next = g.awarded(w, what);
            let ends = match_is_near(g.score, w);
            let color = if w == 0 {
                Color::Rgb(140, 255, 170)
            } else {
                Color::Rgb(255, 110, 110)
            };
            &&& next == GameView {
                score: g.score.after_point(w),
                phase: next.phase,
                msg: next.msg,
                sub: next.sub,
                ..g
            }
            &&& ends ==> {
                &&& next.phase == Phase::Over
                &&& next.msg == Some(
                    MessageView {
                        text: if w == 0 {
                            "GAME, SET & MATCH — YOU!"@
                        } else {
                            "GAME, SET & MATCH — CPU"@
                        },
                        color,
                        left: MATCH_NEWS as nat,
                    },
                )
                &&& next.sub == Some(SubtitleView { text: Seq::empty(), left: SCORE_NEWS as nat })
            }
            &&& !ends ==> {
                &&& next.phase == Phase::Point(POINT_PAUSE)
                &&& next.msg == Some(MessageView { text: what, color, left: POINT_NEWS as nat })
                &&& next.sub is Some && next.sub->0.left == SCORE_NEWS
            }
            &&& !ends && game_is_near(g.score, w) ==> next.sub->0.text == "GAME  ·  "@ + digits(
                games_of(g.score.after_point(w), 0),
            ) + "–"@ + digits(games_of(g.score.after_point(w), 1))
            &&& !game_is_near(g.score, w) ==> announced(
                g.score.after_point(w).pts,
                next.sub->0.text,
            )
        }),
{
}

// ── bounces ──────────────────────────────────────────────────────────────────────

/// The bounce is where a ball of the last hitter has to come down: in the court, on the
/// side of the other player.
pub open spec fn good_place(g: GameView, l: Landing) -> bool {
    l.in_bounds && (l.near_side <==> g.last_hitter == 1)
}

/// A first bounce where it has to be keeps the ball in play: only the bounce is counted.
pub proof fn law_good_bounce_is_in_play(g: GameView, l: Landing)
    requires
        g.phase is Rally,
        g.last_hitter <= 1,
        g.bounces == 0,
        good_place(g, l),
    ensures
        g.landed(l) == (GameView { bounces: 1, ..g }),
{
}

/// A second bounce wins the point for the player who hit last, whoever that is and
/// wherever it is: an ace after a serve, a winner after a stroke.
pub proof fn law_second_bounce_wins_point(g: GameView, l: Landing)
    requires
        g.phase is Rally,
        g.last_hitter <= 1,
        g.bounces >= 1,
        g.score.server <= 1,
    ensures
        ({
            let next = g.landed(l);
            let h = g.last_hitter as int;
            &&& next.score == g.score.after_point(h)
            &&& game_is_near(g.score, h) || points_of(next.score, h) == points_of(g.score, h) + 1
            &&& game_is_near(g.score, h) ==> games_of(next.score, h) == games_of(g.score, h) + 1
            &&& next == (GameView { bounces: g.bounces + 1, ..g }).awarded(
                h,
                if g.is_serve {
                    "ACE!"@
                } else {
                    "WINNER!"@
                },
            )
        }),
{
}

/// A player who lets the other one's ball bounce twice loses the point, after a stroke of
/// either player as after a serve of either.
pub proof fn law_missed_ball_loses_point(g: GameView, who: nat, first: Landing, second: Landing)
    requires
        g.phase is Rally || g.phase is Serve,
        who <= 1,
    ensures
        g.phase is Rally && g.stroked(who).landed(first).phase is Rally ==> g.stroked(who).landed(
            first,
        ).landed(second).score == g.score.after_point(who as int),
        g.served(who).landed(first).phase is Rally ==> g.served(who).landed(first).landed(
            second,
        ).score == g.score.after_point(who as int),
{
}

/// A first bounce where it must not be loses the point to the other player, unless it was
/// the first of two serves: then only that serve is gone.
pub proof fn law_bad_bounce_is_punished(g: GameView, l: Landing)
    requires
        g.phase is Rally,
        g.last_hitter <= 1,
        g.bounces == 0,
        !good_place(g, l),
    ensures
        ({
            let next = g.landed(l);
            let bounced = GameView { bounces: 1, ..g };
            let other = 1 - g.last_hitter;
            let home = l.near_side <==> g.last_hitter == 0;
            &&& g.is_serve && g.score.serves >= 2 ==> next == GameView {
                score: ScoreView { serves: (g.score.serves - 1) as nat, ..g.score },
                msg: Some(
                    MessageView {
                        text: "FAULT"@,
                        color: Color::Rgb(255, 230, 120),
                        left: FAULT_NEWS as nat,
                    },
                ),
                phase: Phase::Point(FAULT_PAUSE),
                ..bounced
            }
            &&& g.is_serve && g.score.serves < 2 ==> next == bounced.awarded(other, "DOUBLE FAULT"@)
            &&& !g.is_serve && home ==> next == bounced.awarded(other, "NET!"@)
            &&& !g.is_serve && !home ==> next == bounced.awarded(other, "OUT!"@)
        }),
{
}

/// Outside a rally a bounce counts for nothing.
pub proof fn law_bounce_counts_only_in_rallies(g: GameView, l: Landing)
    requires
        !(g.phase is Rally),
    ensures
        g.landed(l) == g,
{
}

/// The two players exchanged: score, last hitter and server.
pub open spec fn exchanged(g: GameView) -> GameView {
    GameView {
        score: ScoreView {
            pts: (g.score.pts.1, g.score.pts.0),
            games: (g.score.games.1, g.score.games.0),
            server: (1 - g.score.server) as nat,
            serves: g.score.serves,
        },
        last_hitter: if g.last_hitter <= 1 {
            (1 - g.last_hitter) as nat
        } else {
            g.last_hitter
        },
        ..g
    }
}

/// The flight with the two sides of the net exchanged.
pub open spec fn turned(f: Flight) -> Flight {
    Flight {
        landing: match f.landing {
            Some(l) => Some(Landing { near_side: !l.near_side, in_bounds: l.in_bounds }),
            None => None,
        },
        ..f
    }
}

/// The rules treat the two players and the two sides of the net alike: with both exchanged,
/// a frame of flight leads to the score with the players exchanged and to the same phase.
pub proof fn law_flight_is_symmetric(g: GameView, f: Flight)
    requires
        g.score.server <= 1,
        g.phase is Rally ==> g.last_hitter <= 1,
    ensures
        exchanged(g).flown(turned(f)).score == exchanged(g.flown(f)).score,
        exchanged(g).flown(turned(f)).phase == g.flown(f).phase,
        exchanged(g).flown(turned(f)).bounces == g.flown(f).bounces,
        exchanged(g).flown(turned(f)).last_hitter == exchanged(g.flown(f)).last_hitter,
{
    if g.ball_live {
        let e = exchanged(g);
        let a = g.netted(f.net);
        let b = e.netted(f.net);
        assert(alike_but_exchanged(a, b));
        match f.landing {
            Some(l) => {
                lemma_landing_is_symmetric(a, b, l);
                lemma_stray_is_symmetric(
                    a.landed(l),
                    b.landed(Landing { near_side: !l.near_side, in_bounds: l.in_bounds }),
                );
            },
            None => {
                lemma_stray_is_symmetric(a, b);
            },
        }
    }
}

/// Two matches that are each other's mirror image as far as the rules go.
spec fn alike_but_exchanged(a: GameView, b: GameView) -> bool {
    &&& a.score.server <= 1
    &&& b.score == exchanged(a).score
    &&& b.last_hitter == exchanged(a).last_hitter
    &&& b.phase == a.phase
    &&& b.bounces == a.bounces
    &&& b.is_serve == a.is_serve
    &&& a.phase is Rally ==> a.last_hitter <= 1
}

proof fn lemma_award_is_mirrored(a: GameView, b: GameView, w: int, what: Seq<char>)
    requires
        alike_but_exchanged(a, b),
        w == 0 || w == 1,
    ensures
        alike_but_exchanged(a.awarded(w, what), b.awarded(1 - w, what)),
{
    law_award_is_symmetric(a, b, w, what);
    law_point_is_counted(a.score, w);
}

#[verifier::spinoff_prover]
proof fn lemma_landing_is_symmetric(a: GameView, b: GameView, l: Landing)
    requires
        alike_but_exchanged(a, b),
    ensures
        alike_but_exchanged(
            a.landed(l),
            b.landed(Landing { near_side: !l.near_side, in_bounds: l.in_bounds }),
        ),
{
    let t = Landing { near_side: !l.near_side, in_bounds: l.in_bounds };
    if a.phase is Rally {
        let c = GameView { bounces: a.bounces + 1, ..a };
        let d = GameView { bounces: b.bounces + 1, ..b };
        assert(alike_but_exchanged(c, d));
        match a.ruling(l) {
            Call::Point { winner, what } => {
                assert(b.ruling(t) == Call::Point { winner: 1 - winner, what });
                lemma_award_is_mirrored(c, d, winner, what);
            },
            Call::Fault => {
                assert(b.ruling(t) is Fault);
            },
            Call::InPlay => {
                assert(b.ruling(t) is InPlay);
            },
        }
    }
}

proof fn lemma_stray_is_symmetric(a: GameView, b: GameView)
    requires
        alike_but_exchanged(a, b),
    ensures
        alike_but_exchanged(a.strayed(), b.strayed()),
{
    if a.phase is Rally {
        lemma_award_is_mirrored(a, b, a.other_side(), "OUT!"@);
    }
}

// ── flight ───────────────────────────────────────────────────────────────────────

/// A ball that meets the net has touched it. A net cord is announced in a rally; nothing
/// else changes.
pub proof fn law_net_is_noted(g: GameView, net: NetContact)
    ensures
        net == NetContact::Clear ==> g.netted(net) == g,
        net != NetContact::Clear ==> g.netted(net).net_touched,
        g.netted(net) == (GameView {
            net_touched: g.netted(net).net_touched,
            msg: g.netted(net).msg,
            ..g
        }),
        net == NetContact::Tape && g.phase is Rally ==> g.netted(net).msg == Some(
            MessageView {
                text: "NET CORD!"@,
                color: Color::Rgb(255, 230, 120),
                left: NET_CORD_NEWS as nat,
            },
        ),
        net != NetContact::Tape || !(g.phase is Rally) ==> g.netted(net).msg == g.msg,
{
}

/// A crossing touches the net exactly if it is below the top and between the posts; it
/// touches the tape exactly if it is also close to the top.
pub proof fn law_crossing(low: bool, between_posts: bool, near_top: bool)
    ensures
        ({
            let c = NetContact::from_crossing(low, between_posts, near_top);
            &&& c != NetContact::Clear <==> low && between_posts
            &&& c == NetContact::Tape <==> low && between_posts && near_top
        }),
{
}

/// A ball that leaves the surroundings in a rally loses the point for whoever hit it last,
/// a ball that is at rest or flies on undisturbed changes nothing.
pub proof fn law_stray_ball_loses_point(g: GameView, f: Flight)
    requires
        f.net == NetContact::Clear,
        f.landing is None,
        g.last_hitter <= 1,
    ensures
        g.ball_live && f.away && g.phase is Rally ==> g.flown(f) == g.awarded(
            1 - g.last_hitter,
            "OUT!"@,
        ),
        !g.ball_live || !f.away || !(g.phase is Rally) ==> g.flown(f) == g,
{
}

/// A flight is its parts, one after the other: the net, the bounce, the surroundings.
pub proof fn law_flight_is_its_parts(g: GameView, f: Flight)
    requires
        g.ball_live,
    ensures
        ({
            let net = Flight { landing: None, away: false, ..f };
            let bounce = Flight { net: NetContact::Clear, away: false, ..f };
            let end = Flight { net: NetContact::Clear, landing: None, ..f };
            &&& g.flown(f) == g.flown(net).flown(bounce).flown(end)
            &&& g.flown(net) == g.netted(f.net)
            &&& f.landing matches Some(l) ==> g.flown(bounce) == g.landed(l)
            &&& f.landing is None ==> g.flown(bounce) == g
            &&& !f.away || !(g.phase is Rally) ==> g.flown(end) == g
        }),
{
}

/// Who wins a point by a frame of flight: after a second bounce the last hitter; after a
/// first one that is bad, unless it is a first fault, the other player; after one that is
/// good, or none, the other player if the ball is lost.
pub proof fn law_flight_winner(g: GameView, f: Flight)
    requires
        g.last_hitter <= 1,
    ensures
        ({
            let rules = g.ball_live && g.phase is Rally;
            let h = g.last_hitter as int;
            let first_fault = g.is_serve && g.score.serves >= 2;
            &&& !rules ==> g.flight_winner(f) is None
            &&& rules && f.landing is Some && g.bounces >= 1 ==> g.flight_winner(f) == Some(h)
            &&& rules && f.landing is Some && g.bounces == 0 && !good_place(g, f.landing->0) ==> (
            if first_fault {
                g.flight_winner(f) is None
            } else {
                g.flight_winner(f) == Some(1 - h)
            })
            &&& rules && (f.landing is None || g.bounces == 0 && good_place(g, f.landing->0)) ==> (
            if f.away {
                g.flight_winner(f) == Some(1 - h)
            } else {
                g.flight_winner(f) is None
            })
        }),
{
}

/// Every flight of an ordinary match can be ruled on: one with no more than 253 points.
pub proof fn law_ordinary_flight_is_accepted(g: GameView, f: Flight)
    requires
        g.wf(),
        g.score.pts.0 <= 253,
        g.score.pts.1 <= 253,
    ensures
        g.flyable(f),
{
}

// ── serves and strokes ───────────────────────────────────────────────────────────

/// A match begins at love all with the player's serve, with nothing announced.
pub proof fn law_match_begins()
    ensures
        ({
            let g = new_game();
            &&& g.phase == Phase::Serve { server: 0, wait: SERVE_WAIT }
            &&& g.score.pts == (0nat, 0nat) && g.score.games == (0nat, 0nat)
            &&& g.score.server == 0 && g.score.serves == 2
            &&& g.msg is None && g.sub is None
            &&& !g.ball_live && !g.paused && !g.is_serve && !g.net_touched
            &&& g.dir == 0 && g.vdir == 0 && g.dir_ttl == 0 && g.vdir_ttl == 0
            &&& g.last_hitter == 2 && g.bounces == 0 && g.rally == 0 && g.frame == 0
        }),
{
}

/// Before a serve the ball is at rest, nobody has hit it, and whoever has the serve by the
/// score is about to serve; score, news and keys stay.
pub proof fn law_serve_is_prepared(g: GameView)
    requires
        g.score.server <= 1,
    ensures
        ({
            let next = g.before_serve();
            &&& next.phase matches Phase::Serve { server, wait } && server == g.score.server && wait
                == SERVE_WAIT
            &&& !next.ball_live && !next.is_serve && !next.net_touched
            &&& next.last_hitter == 2 && next.bounces == 0 && next.rally == 0
            &&& next.score == g.score && next.msg == g.msg && next.sub == g.sub
            &&& next.dir == g.dir && next.dir_ttl == g.dir_ttl
            &&& next.vdir == g.vdir && next.vdir_ttl == g.vdir_ttl
            &&& next.frame == g.frame && next.rng == g.rng && next.paused == g.paused
        }),
{
}

/// A serve of either player, a first or a second one, starts a rally: the ball is on its
/// way, the server hit it, and it has not bounced. Nothing else changes.
pub proof fn law_serve_starts_rally(g: GameView, server: nat)
    ensures
        ({
            let next = g.served(server);
            &&& next.phase is Rally
            &&& next.ball_live && next.is_serve && !next.net_touched
            &&& next.last_hitter == server && next.bounces == 0
            &&& next == GameView {
                phase: next.phase,
                ball_live: true,
                is_serve: true,
                net_touched: false,
                last_hitter: server,
                bounces: 0,
                ..g
            }
        }),
{
}

/// A stroke is counted and belongs to whoever made it; it is no serve. Nothing else
/// changes.
pub proof fn law_stroke_is_counted(g: GameView, who: nat)
    ensures
        ({
            let next = g.stroked(who);
            &&& next.rally == g.rally + 1
            &&& next.last_hitter == who && next.bounces == 0
            &&& !next.is_serve && !next.net_touched
            &&& next == GameView {
                rally: g.rally + 1,
                last_hitter: who,
                bounces: 0,
                is_serve: false,
                net_touched: false,
                ..g
            }
        }),
{
}

/// `who` finds a ball to play: it is on its way, the other player or nobody hit it last,
/// and it has bounced.
pub open spec fn has_ball(g: GameView, who: nat) -> bool {
    g.ball_live && g.last_hitter != who && g.bounces >= 1
}

/// Whoever finds a ball to play and reaches it does hit it, be it a serve or a stroke;
/// nobody else does.
pub proof fn law_reached_ball_is_hit(g: GameView, you_reach: bool, cpu_reach: bool)
    ensures
        g.may_hit(0) == has_ball(g, 0),
        g.may_hit(1) == has_ball(g, 1),
        you_reach && has_ball(g, 0) ==> g.hitter(you_reach, cpu_reach) == Some(0u8),
        cpu_reach && has_ball(g, 1) && !(you_reach && has_ball(g, 0)) ==> g.hitter(
            you_reach,
            cpu_reach,
        ) == Some(1u8),
        g.hitter(you_reach, cpu_reach) is None <==> !(you_reach && has_ball(g, 0)) && !(cpu_reach
            && has_ball(g, 1)),
{
}

/// A serve that came in is returned by a receiver who reaches it, whoever serves.
pub proof fn law_serve_can_be_returned(g: GameView, server: nat, l: Landing)
    requires
        server <= 1,
        g.served(server).landed(l).phase is Rally,
    ensures
        g.served(server).landed(l).hitter(true, true) == Some((1 - server) as u8),
        g.served(server).landed(l).hitter(server != 0, server != 1) == Some((1 - server) as u8),
        g.served(server).landed(l).hitter(server == 0, server == 1) is None,
{
}

/// The computer serves away from where the player stands, and either way by chance, with
/// even odds, if that is the middle.
pub proof fn law_computer_serves_away(g: GameView, stands_right: bool, stands_left: bool)
    ensures
        ({
            let corner = g.corner(stands_right, stands_left);
            &&& corner == -1 || corner == 1
            &&& stands_right ==> corner == -1
            &&& stands_left && !stands_right ==> corner == 1
            &&& !stands_left && !stands_right ==> (corner == -1 <==> xorshift(g.rng) >> 11
                < 0x10_0000_0000_0000)
        }),
{
}

// ── frames ───────────────────────────────────────────────────────────────────────

/// The counters of a frame leave the match alone: only the frame number, the directions
/// and the news change.
pub proof fn law_counters_leave_the_match(g: GameView)
    ensures
        ({
            let next = g.stepped();
            &&& next.frame == g.frame + 1
            &&& next == GameView {
                frame: g.frame + 1,
                dir: next.dir,
                dir_ttl: next.dir_ttl,
                vdir: next.vdir,
                vdir_ttl: next.vdir_ttl,
                msg: next.msg,
                sub: next.sub,
                ..g
            }
            &&& next.stage() == g.stage()
        }),
{
}

/// A subtitle is shown until as many frames have passed as it was given.
pub proof fn law_subtitle_lives(g: GameView, n: nat)
    requires
        !g.paused,
        g.sub is Some,
    ensures
        n == 0 || n < g.sub->0.left ==> after_frames(g, n).sub == Some(
            SubtitleView { left: (g.sub->0.left - n) as nat, ..g.sub->0 },
        ),
        n > 0 && n >= g.sub->0.left ==> after_frames(g, n).sub is None,
        !after_frames(g, n).paused,
    decreases n,
{
    if n > 0 {
        law_subtitle_lives(g, (n - 1) as nat);
    }
}

/// What was not announced does not appear.
pub proof fn law_no_news_of_itself(g: GameView)
    ensures
        g.msg is None ==> g.stepped().msg is None,
        g.sub is None ==> g.stepped().sub is None,
{
}

/// The wait for a serve runs down and stops at zero; the computer's serve is due in the
/// frame in which it has run down, the player's never.
pub proof fn law_wait_runs_down(g: GameView, server: u8, wait: u16)
    requires
        g.phase == (Phase::Serve { server, wait }),
    ensures
        g.serve_due() <==> server == 1 && wait <= 1,
        g.serve_ticked() == (GameView {
            phase: Phase::Serve {
                server,
                wait: if wait == 0 {
                    0
                } else {
                    (wait - 1) as u16
                },
            },
            ..g
        }),
{
}

/// The pause after a point runs down, and the next serve begins in the frame in which it
/// has.
pub proof fn law_pause_runs_down(g: GameView, left: u16)
    requires
        g.phase == Phase::Point(left),
    ensures
        left >= 2 ==> g.point_ticked() == (GameView { phase: Phase::Point((left - 1) as u16), ..g }),
        left <= 1 ==> g.point_ticked() == g.before_serve(),
{
}

/// What a frame asks for follows the phase, unless the match is paused.
pub proof fn law_stage_follows_phase(g: GameView)
    ensures
        g.stage() is Paused <==> g.paused,
        !g.paused ==> {
            &&& g.phase is Rally <==> g.stage() is Rally
            &&& g.phase is Point <==> g.stage() is Point
            &&& g.phase is Over <==> g.stage() is Over
            &&& g.phase matches Phase::Serve { server, wait } ==> g.stage() == Stage::Serve {
                server,
            }
        },
{
}

/// The motion of a frame. In a rally the flight is ruled on, then the ball is hit by whoever
/// finds it and reaches it. After a point the flight goes on and the pause runs down. While
/// a serve is awaited only the wait runs down, and the computer serves when it has. A
/// finished match only sees the ball roll, a paused one not even that.
pub proof fn law_motion_follows_phase(g: GameView, m: Motion)
    ensures
        ({
            let flown = g.flown(m.flight);
            let you = m.you_reach && has_ball(flown, 0);
            let cpu = m.cpu_reach && has_ball(flown, 1);
            let next = g.moved(m);
            &&& g.paused ==> next == g && g.deed(m) is Nothing
            &&& !g.paused && g.phase is Rally ==> {
                &&& you ==> next == flown.stroked(0) && g.deed(m) == Deed::Stroke { who: 0 }
                &&& !you && cpu ==> next == flown.stroked(1) && g.deed(m) == Deed::Stroke { who: 1 }
                &&& !you && !cpu ==> next == flown && g.deed(m) is Nothing
            }
            &&& !g.paused && g.phase is Over ==> next == flown && g.deed(m) is Nothing
            &&& !g.paused ==> (g.phase matches Phase::Point(left) ==> {
                &&& left <= 1 ==> next == flown.before_serve() && g.deed(m) is Rest
                &&& left >= 2 ==> next == (GameView { phase: Phase::Point((left - 1) as u16), ..flown })
                    && g.deed(m) is Nothing
            })
            &&& !g.paused ==> (g.phase matches Phase::Serve { server, wait } ==> {
                let due = server == 1 && wait <= 1;
                &&& due ==> next == g.serve_ticked().served(1) && g.deed(m) is Serve
                &&& !due ==> next == g.serve_ticked() && g.deed(m) is Nothing
            })
        }),
{
    if !(g.phase is Rally) {
        law_points_only_in_rallies(g, m.flight);
    }
    law_reached_ball_is_hit(g.flown(m.flight), m.you_reach, m.cpu_reach);
}

/// A whole frame is its counters and then its motion, and is counted once.
pub proof fn law_frame_is_counted(g: GameView, m: Motion)
    ensures
        g.after_frame(m) == g.stepped().moved(m),
        g.after_frame(m).frame == g.frame + 1,
{
    let s = g.stepped();
    assert(s.frame == g.frame + 1);
    lemma_flight_leaves(s, m.flight);
    law_motion_follows_phase(s, m);
}

proof fn lemma_flight_leaves(g: GameView, f: Flight)
    ensures
        g.flown(f).frame == g.frame,
        g.flown(f).paused == g.paused,
{
    let a = g.netted(f.net);
    assert(a.frame == g.frame && a.paused == g.paused);
    if let Some(l) = f.landing {
        assert(a.landed(l).frame == g.frame && a.landed(l).paused == g.paused);
    }
}

/// The trail of a frame: it follows the ball while that flies, stays as it is while the match
/// is paused or a serve is awaited, and is empty once the ball comes to rest.
pub proof fn law_trail_of_a_frame<T>(g: GameView, m: Motion, trail: Seq<T>, at: T)
    ensures
        ({
            let next = g.trail_moved(m, trail, at);
            let ends = g.phase matches Phase::Point(left) && left <= 1;
            &&& g.paused || g.phase is Serve ==> next == trail
            &&& !g.paused && ends ==> next.len() == 0
            &&& !g.paused && !(g.phase is Serve) && !ends && g.ball_live && g.frame % 2 == 0
                ==> next.len() >= 1 && next[0] == at
            &&& !g.paused && !(g.phase is Serve) && !ends && !(g.ball_live && g.frame % 2 == 0)
                ==> next == trail
        }),
{
}

/// A trail with a new place: that place first, then the others in their order, as many as
/// the length of the trail allows.
pub proof fn law_trail_is_extended<T>(trail: Seq<T>, p: T, i: int)
    ensures
        extended(trail, p).len() == (if trail.len() + 1 <= TRAIL_LEN {
            (trail.len() + 1) as int
        } else {
            TRAIL_LEN as int
        }),
        extended(trail, p)[0] == p,
        1 <= i < extended(trail, p).len() ==> extended(trail, p)[i] == trail[i - 1],
{
}

/// Dust goes only when there is too much of it, then the oldest, and the rest stays in its
/// order.
pub proof fn law_oldest_dust_goes<T>(dust: Seq<T>, i: int)
    ensures
        dust.len() <= DUST_LIMIT ==> settled(dust) == dust,
        dust.len() > DUST_LIMIT ==> settled(dust).len() == dust.len() - DUST_DROPPED,
        dust.len() > DUST_LIMIT && 0 <= i < settled(dust).len() ==> settled(dust)[i] == dust[i
            + DUST_DROPPED],
{
}

// ── keys ─────────────────────────────────────────────────────────────────────────

/// The space key serves exactly while the player's serve is awaited, the first or the
/// second one; what else is pressed and what else the match is like plays no part.
pub proof fn law_space_serves(g: GameView, kind: KeyKind, control: bool)
    requires
        kind != KeyKind::Release,
    ensures
        command(g, Key::Char(' '), kind, control) == Command::Serve <==> (g.phase matches Phase::Serve {
            server,
            wait,
        } && server == 0),
        keyed(g, Key::Char(' '), kind) == g,
{
}

/// After a first fault of the player the space key hits the second serve.
pub proof fn law_space_serves_after_fault(g: GameView, l: Landing, kind: KeyKind, control: bool)
    requires
        g.phase is Serve,
        g.score.server == 0,
        g.score.serves == 2,
        l.near_side || !l.in_bounds,
        kind != KeyKind::Release,
    ensures
        ({
            let again = g.served(0).landed(l).before_serve();
            &&& again.score.serves == 1
            &&& command(again, Key::Char(' '), kind, control) == Command::Serve
        }),
{
}

/// Q, Escape and Control-C quit, R starts a rematch; only the space key serves; a key that
/// is released commands nothing.
pub proof fn law_commands(g: GameView, key: Key, kind: KeyKind, control: bool)
    ensures
        ({
            let c = command(g, key, kind, control);
            let down = kind != KeyKind::Release;
            &&& c == Command::Quit <==> down && (key == Key::Esc || key == Key::Char('q') || control
                && key == Key::Char('c'))
            &&& c == Command::Rematch <==> down && key == Key::Char('r')
            &&& c == Command::Serve ==> down && key == Key::Char(' ')
        }),
{
}

/// What a pressed key does: arrows and letters set their direction for as long as a key is
/// held, P turns the pause on and off, R starts anew. No key does anything else.
pub proof fn law_pressed_key(g: GameView, key: Key, kind: KeyKind)
    requires
        kind != KeyKind::Release,
    ensures
        ({
            let next = keyed(g, key, kind);
            let left = key == Key::Left || key == Key::Char('a');
            let right = key == Key::Right || key == Key::Char('d');
            let up = key == Key::Up || key == Key::Char('w');
            let down = key == Key::Down || key == Key::Char('s');
            let hold = KEY_HOLD_FRAMES as nat;
            &&& left ==> next == GameView { dir: -1, dir_ttl: hold, ..g }
            &&& right ==> next == GameView { dir: 1, dir_ttl: hold, ..g }
            &&& up ==> next == GameView { vdir: 1, vdir_ttl: hold, ..g }
            &&& down ==> next == GameView { vdir: -1, vdir_ttl: hold, ..g }
            &&& key == Key::Char('p') ==> next == GameView { paused: !g.paused, ..g }
            &&& key == Key::Char('r') ==> next == new_game()
            &&& !left && !right && !up && !down && key != Key::Char('p') && key != Key::Char('r')
                ==> next == g
            &&& across(key) is Some <==> left || right
            &&& along(key) is Some <==> up || down
        }),
{
}

/// What a released key does: it ends its own direction, if that is the one that is live, and
/// nothing else.
pub proof fn law_released_key(g: GameView, key: Key)
    ensures
        ({
            let next = keyed(g, key, KeyKind::Release);
            let left = key == Key::Left || key == Key::Char('a');
            let right = key == Key::Right || key == Key::Char('d');
            let up = key == Key::Up || key == Key::Char('w');
            let down = key == Key::Down || key == Key::Char('s');
            let across_ends = left && g.dir == -1 || right && g.dir == 1;
            let along_ends = up && g.vdir == 1 || down && g.vdir == -1;
            &&& across_ends ==> next == GameView { dir: 0, dir_ttl: 0, ..g }
            &&& along_ends ==> next == GameView { vdir: 0, vdir_ttl: 0, ..g }
            &&& !across_ends && !along_ends ==> next == g
        }),
{
}

} // verus!
