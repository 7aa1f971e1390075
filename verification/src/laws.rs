//! What holds of a match as a whole.

use crate::effects::TRAIL_LEN;
use crate::game::{
    new_game, Call, Deed, Flight, GameView, Landing, MessageView, Motion, Phase, Stage, FAULT_PAUSE,
    KEY_HOLD_FRAMES, SERVE_WAIT,
};
use crate::keys::{across, along, command, keyed, pressed, released, Command, Key, KeyKind};
use crate::score::{
    ahead, bumped, label_text, name_text, of, past_forty_all, pips_text, situation_text,
    ScoreView, GAMES_TO_WIN,
};
use crate::screen::{all_narrow, lemma_narrow_digits};
use vstd::prelude::*;

verus! {

// ── scoring ──────────────────────────────────────────────────────────────────────

/// A point leads from a score that a match can show to another one.
pub proof fn law_point_keeps_score_valid(s: ScoreView, w: int)
    requires
        s.wf(),
        !s.decided(),
        w == 0 || w == 1,
    ensures
        s.after_point(w).wf(),
        s.after_point(w).serves == 2,
{
}

/// A point wins a game exactly if it is the fourth or a later one and gives a lead of
/// two. It then counts for the winner alone, the points start anew and the other
/// player serves; otherwise only the winner's points change.
pub proof fn law_game_is_won_by_two(s: ScoreView, w: int)
    requires
        s.wf(),
        w == 0 || w == 1,
    ensures
        s.game_point(w) <==> of(s.pts, w) >= 3 && of(s.pts, w) > of(s.pts, 1 - w),
        s.game_point(w) ==> {
            &&& s.after_point(w).games == bumped(s.games, w)
            &&& s.after_point(w).pts == (0nat, 0nat)
            &&& s.after_point(w).server == 1 - s.server
        },
        !s.game_point(w) ==> {
            &&& s.after_point(w).games == s.games
            &&& s.after_point(w).pts == bumped(s.pts, w)
            &&& s.after_point(w).server == s.server
        },
{
}

/// Scoring treats the two players alike: with the players exchanged, a point for the other
/// one leads to the score with the players exchanged.
pub proof fn law_scoring_is_symmetric(s: ScoreView, w: int)
    requires
        s.server <= 1,
        w == 0 || w == 1,
    ensures
        s.mirrored().after_point(1 - w) == s.after_point(w).mirrored(),
        s.mirrored().mirrored() == s,
        s.wf() ==> s.mirrored().wf(),
{
}

/// An award treats the two players alike: in two matches with mirrored scores, awards to
/// opposite players lead to mirrored scores, to the same phase and to two serves.
pub proof fn law_award_is_symmetric(g: GameView, h: GameView, w: int, what: Seq<char>)
    requires
        g.score.server <= 1,
        h.score.pts == g.score.mirrored().pts,
        h.score.games == g.score.mirrored().games,
        h.score.server == g.score.mirrored().server,
        w == 0 || w == 1,
    ensures
        h.awarded(1 - w, what).score == g.awarded(w, what).score.mirrored(),
        h.awarded(1 - w, what).phase == g.awarded(w, what).phase,
        g.awarded(w, what).score.serves == 2,
        h.awarded(1 - w, what).score.serves == 2,
{
}

/// The player serves the first game, and the server changes with every game.
pub proof fn law_server_alternates(s: ScoreView, w: int)
    requires
        s.in_turn(),
        w == 0 || w == 1,
    ensures
        new_game().score.in_turn(),
        s.after_point(w).in_turn(),
        s.after_point(w).server != s.server <==> s.after_point(w).games != s.games,
{
}

/// Never do both players have a game point at once.
pub proof fn law_one_game_point(s: ScoreView)
    ensures
        !(s.game_point(0) && s.game_point(1)),
        s.game_point(0) <==> ahead(s) == Some(0int),
        s.game_point(1) <==> ahead(s) == Some(1int),
{
}

/// A match point is what it is called: the next point of that player ends the match.
/// No other point does.
pub proof fn law_match_point_ends_match(s: ScoreView, w: int)
    requires
        s.wf(),
        !s.decided(),
        w == 0 || w == 1,
    ensures
        s.after_point(w).decided() <==> ahead(s) == Some(w) && of(s.games, w) + 1
            >= GAMES_TO_WIN,
        s.after_point(w).decided() ==> of(s.after_point(w).games, w) == GAMES_TO_WIN
            && of(s.after_point(w).games, 1 - w) < GAMES_TO_WIN,
{
}

/// The scoreboard announces a match point for a player exactly if the next point of
/// that player ends the match.
pub proof fn law_match_point_is_announced(s: ScoreView, w: int)
    requires
        s.wf(),
        !s.decided(),
        w == 0 || w == 1,
    ensures
        s.after_point(w).decided() <==> (situation_text(s) == "MATCH POINT"@ + " — "@ + name_text(w)
            || situation_text(s) == "ADVANTAGE · MATCH POINT"@ + " — "@ + name_text(w)),
{
    reveal_strlit("MATCH POINT");
    reveal_strlit("BREAK POINT");
    reveal_strlit("GAME POINT");
    reveal_strlit("ADVANTAGE · MATCH POINT");
    reveal_strlit("ADVANTAGE · BREAK POINT");
    reveal_strlit("ADVANTAGE");
    reveal_strlit(" — ");
    reveal_strlit("YOU");
    reveal_strlit("CPU");
    reveal_strlit("DEUCE");
    reveal_strlit("GAME ");
    let t = situation_text(s);
    let a = "MATCH POINT"@ + " — "@ + name_text(w);
    let b = "ADVANTAGE · MATCH POINT"@ + " — "@ + name_text(w);
    assert(a[0] == 'M' && a[14] == name_text(w)[0] && a.len() == 17);
    assert(b[0] == 'A' && b[26] == name_text(w)[0] && b.len() == 29 && b[12] == 'M');
    match ahead(s) {
        Some(i) => {
            let label = if past_forty_all(s) {
                crate::score::advantage_text(s, i)
            } else {
                crate::score::stake_text(s, i)
            };
            assert(t == label + " — "@ + name_text(i));
            assert(forall|k: int| 0 <= k < label.len() ==> t[k] == label[k]);
            assert(t[label.len() as int + 3] == name_text(i)[0]);
            assert(t.len() == label.len() + 6);
        },
        None => {
            assert(t[0] == 'D' || t[0] == 'G');
        },
    }
}

/// From deuce on a game takes two points in a row; one each leads back to deuce.
pub proof fn law_deuce_takes_two_in_a_row(s: ScoreView, w: int)
    requires
        s.wf(),
        !s.decided(),
        past_forty_all(s),
        s.pts.0 == s.pts.1,
        w == 0 || w == 1,
    ensures
        s.after_point(w).games == s.games,
        s.after_point(w).after_point(w).games == bumped(s.games, w),
        s.after_point(w).after_point(1 - w).games == s.games,
        s.after_point(w).after_point(1 - w).pts == (s.pts.0 + 1, s.pts.1 + 1),
{
}

/// A match is decided in at most five games.
pub proof fn law_best_of_five(s: ScoreView)
    requires
        s.wf(),
    ensures
        s.games.0 + s.games.1 <= 2 * GAMES_TO_WIN - 1,
        !s.decided() ==> s.games.0 + s.games.1 + 1 <= 2 * GAMES_TO_WIN - 1,
{
}

/// Advantage is shown for exactly the player who needs one more point after three all;
/// at deuce both players read the same.
pub proof fn law_advantage_label(s: ScoreView, w: int)
    requires
        w == 0 || w == 1,
    ensures
        label_text(of(s.pts, w), of(s.pts, 1 - w)) == "AD"@ <==> past_forty_all(s)
            && s.game_point(w),
        past_forty_all(s) && s.pts.0 == s.pts.1 ==> label_text(s.pts.0, s.pts.1) == "40"@
            && label_text(s.pts.1, s.pts.0) == "40"@,
{
    reveal_strlit("AD");
    reveal_strlit("0");
    reveal_strlit("15");
    reveal_strlit("30");
    reveal_strlit("40");
    assert("AD"@[0] == 'A');
    assert("0"@[0] == '0' && "15"@[0] == '1' && "30"@[0] == '3' && "40"@[0] == '4');
}

/// There is one box for each game to win, the filled ones first.
pub proof fn law_pips(won: nat, i: int)
    requires
        0 <= i < GAMES_TO_WIN,
    ensures
        pips_text(won).len() == GAMES_TO_WIN,
        pips_text(won)[i] == '■' <==> i < won,
        pips_text(won)[i] == '□' <==> i >= won,
{
}

// ── rallies ──────────────────────────────────────────────────────────────────────

/// A match that begins is one.
pub proof fn law_new_game_valid()
    ensures
        new_game().wf(),
{
}

/// One frame of flight brings at most one point, and brings it to the player whom the
/// rules name. Without one, points, games and server stay.
pub proof fn law_flight_brings_one_point(g: GameView, f: Flight)
    requires
        g.phase is Rally ==> g.last_hitter <= 1,
    ensures
        match g.flight_winner(f) {
            Some(w) => (w == 0 || w == 1) && g.flown(f).score == g.score.after_point(w),
            None => g.flown(f).score.pts == g.score.pts && g.flown(f).score.games
                == g.score.games && g.flown(f).score.server == g.score.server,
        },
{
}

/// The trail follows the ball: a ball at rest changes nothing and adds nothing to it; on its
/// way it adds its place in front of the trail in every other frame. The trail stays within
/// its length, the newest place first.
pub proof fn law_trail_follows_the_ball<T>(g: GameView, f: Flight, trail: Seq<T>, at: T)
    requires
        trail.len() <= TRAIL_LEN,
    ensures
        !g.ball_live ==> g.flown(f) == g && g.trailed(trail, at) == trail,
        g.ball_live && g.frame % 2 == 1 ==> g.trailed(trail, at) == trail,
        g.ball_live && g.frame % 2 == 0 ==> {
            let next = g.trailed(trail, at);
            &&& next[0] == at
            &&& next.len() == (if trail.len() < TRAIL_LEN {
                trail.len() + 1
            } else {
                TRAIL_LEN as nat
            })
            &&& forall|i: int| 1 <= i < next.len() ==> #[trigger] next[i] == trail[i - 1]
        },
        g.trailed(trail, at).len() <= TRAIL_LEN,
{
}

/// Points are only won in a rally.
pub proof fn law_points_only_in_rallies(g: GameView, f: Flight)
    requires
        !(g.phase is Rally),
    ensures
        g.flown(f).score == g.score,
        g.flown(f).phase == g.phase,
{
}

/// The first fault costs nothing but the serve; after the pause the same player serves
/// again.
pub proof fn law_first_fault_is_free(g: GameView, l: Landing)
    requires
        g.wf(),
        g.phase is Serve,
        g.score.serves == 2,
        g.served(g.score.server).own_side(l) || !l.in_bounds,
    ensures
        ({
            let after = g.served(g.score.server).landed(l);
            &&& after.phase == Phase::Point(FAULT_PAUSE)
            &&& after.score == ScoreView { serves: 1, ..g.score }
            &&& after.before_serve().phase == Phase::Serve {
                server: g.score.server as u8,
                wait: SERVE_WAIT,
            }
            &&& after.before_serve().score.serves == 1
        }),
{
}

/// The second fault in a row loses the point, and the next point starts with two
/// serves again.
pub proof fn law_double_fault_loses_point(g: GameView, first: Landing, second: Landing)
    requires
        g.wf(),
        g.phase is Serve,
        g.score.serves == 2,
        g.served(g.score.server).own_side(first) || !first.in_bounds,
        g.served(g.score.server).own_side(second) || !second.in_bounds,
    ensures
        ({
            let again = g.served(g.score.server).landed(first).before_serve();
            let after = again.served(again.score.server).landed(second);
            &&& after.score == g.score.after_point(1 - g.score.server)
            &&& after.score.serves == 2
        }),
{
    let again = g.served(g.score.server).landed(first).before_serve();
    assert(again.score == ScoreView { serves: 1, ..g.score });
}

/// A serve that lands in and bounces a second time wins the point for the server.
pub proof fn law_ace(g: GameView, first: Landing, second: Landing)
    requires
        g.wf(),
        g.phase is Serve,
        !g.served(g.score.server).own_side(first),
        first.in_bounds,
    ensures
        ({
            let once = g.served(g.score.server).landed(first);
            &&& once.phase is Rally
            &&& once.landed(second).score == g.score.after_point(g.score.server as int)
        }),
{
}

/// Nobody plays the ball twice in a row or before it has bounced: after a serve or a
/// stroke nobody may hit until the next bounce, and after it only the other player.
pub proof fn law_players_alternate(g: GameView, who: nat, l: Landing)
    requires
        g.wf(),
        g.phase is Rally,
        who <= 1,
    ensures
        !g.stroked(who).may_hit(0) && !g.stroked(who).may_hit(1),
        !g.served(who).may_hit(0) && !g.served(who).may_hit(1),
        g.stroked(who).landed(l).phase is Rally ==> !g.stroked(who).landed(l).may_hit(who)
            && g.stroked(who).landed(l).may_hit((1 - who) as nat),
{
}

/// At most one of the two may play the ball in a rally.
pub proof fn law_one_may_hit(g: GameView)
    requires
        g.wf(),
        g.phase is Rally,
    ensures
        !(g.may_hit(0) && g.may_hit(1)),
{
}

/// A stroke that lands out, or on the hitter's own side, loses the point.
pub proof fn law_bad_stroke_loses_point(g: GameView, who: nat, l: Landing)
    requires
        g.wf(),
        g.phase is Rally,
        who <= 1,
        g.stroked(who).own_side(l) || !l.in_bounds,
    ensures
        g.stroked(who).landed(l).score == g.score.after_point(1 - who),
{
}

/// A match that is over stays over, with the score that it has, whatever the ball does
/// and however long it takes.
pub proof fn law_over_is_final(g: GameView, f: Flight)
    requires
        g.wf(),
        g.phase is Over,
    ensures
        g.flown(f).phase is Over && g.flown(f).score == g.score,
        g.stepped().phase is Over && g.stepped().score == g.score,
        g.serve_ticked() == g,
        g.point_ticked() == g,
        !g.serve_due(),
{
}

/// The state after whole frames, one for each of the motions.
pub open spec fn after_all(g: GameView, motions: Seq<Motion>) -> GameView
    decreases motions.len(),
{
    if motions.len() == 0 {
        g
    } else {
        after_all(g, motions.drop_last()).after_frame(motions.last())
    }
}

/// No number of frames leads out of a match that is over: it keeps its score, the length
/// of its last rally and who hit last, and no frame asks the players to move or to hit.
pub proof fn law_frames_keep_over(g: GameView, motions: Seq<Motion>)
    requires
        g.phase is Over,
    ensures
        after_all(g, motions).phase is Over,
        after_all(g, motions).score == g.score,
        after_all(g, motions).rally == g.rally,
        after_all(g, motions).last_hitter == g.last_hitter,
        after_all(g, motions).stage() == if g.paused {
            Stage::Paused
        } else {
            Stage::Over
        },
        forall|m: Motion| after_all(g, motions).deed(m) == Deed::Nothing,
        after_all(g, motions).paused == g.paused,
    decreases motions.len(),
{
    if motions.len() > 0 {
        law_frames_keep_over(g, motions.drop_last());
    }
}

/// A whole frame changes the score in one way at most. Outside a rally it leaves the score
/// as it is; in a rally it does so too, or takes away the first serve by a fault, or awards
/// one point to one player. A rally that goes on has left the score as it was.
pub proof fn law_frame_scores_once(g: GameView, m: Motion)
    requires
        g.phase is Rally ==> g.last_hitter <= 1,
        1 <= g.score.serves <= 2,
    ensures
        ({
            let next = g.after_frame(m);
            let fault = ScoreView { serves: 1, ..g.score };
            &&& !(g.phase is Rally) ==> next.score == g.score
            &&& next.phase is Rally ==> next.score == g.score
            &&& {
                ||| next.score == g.score
                ||| g.score.serves == 2 && next.score == fault
                ||| next.score == g.score.after_point(0)
                ||| next.score == g.score.after_point(1)
            }
        }),
{
    law_flight_brings_one_point(g.stepped(), m.flight);
}

/// A whole frame keeps the turn of the servers.
pub proof fn law_frame_keeps_turn(g: GameView, m: Motion)
    requires
        g.phase is Rally ==> g.last_hitter <= 1,
        g.score.in_turn(),
    ensures
        g.after_frame(m).score.in_turn(),
{
    law_flight_brings_one_point(g.stepped(), m.flight);
}

/// The ways in which a frame can change the score differ from one another.
pub proof fn law_changes_of_score_differ(s: ScoreView)
    ensures
        s.after_point(0) != s && s.after_point(1) != s,
        s.after_point(0) != s.after_point(1),
        ({
            let fault = ScoreView { serves: 1, ..s };
            &&& s.serves == 2 ==> fault != s
            &&& fault != s.after_point(0)
            &&& fault != s.after_point(1)
        }),
{
}

/// Only the key for a rematch leads out of a match that is over, and it leads to a new
/// match.
pub proof fn law_only_rematch_leaves_over(g: GameView, key: Key, kind: KeyKind, control: bool)
    requires
        g.wf(),
        g.phase is Over,
    ensures
        command(g, key, kind, control) == Command::Rematch ==> keyed(g, key, kind) == new_game(),
        command(g, key, kind, control) != Command::Rematch ==> keyed(g, key, kind).phase is Over
            && keyed(g, key, kind).score == g.score,
        command(g, key, kind, control) != Command::Serve,
{
}

/// Everything that is announced is written in characters of one cell each.
pub open spec fn narrow_news(g: GameView) -> bool {
    &&& g.msg matches Some(m) ==> all_narrow(m.text)
    &&& g.sub matches Some(m) ==> all_narrow(m.text)
}

/// The rules announce nothing but what is written in characters of one cell each.
pub proof fn law_news_is_narrow(g: GameView, f: Flight)
    requires
        narrow_news(g),
    ensures
        narrow_news(new_game()),
        narrow_news(g.flown(f)),
        narrow_news(g.stepped()),
{
    let a = g.netted(f.net);
    reveal_strlit("NET CORD!");
    assert(narrow_news(a));
    let b = match f.landing {
        Some(l) => a.landed(l),
        None => a,
    };
    reveal_strlit("FAULT");
    reveal_strlit("ACE!");
    reveal_strlit("WINNER!");
    reveal_strlit("DOUBLE FAULT");
    reveal_strlit("NET!");
    reveal_strlit("OUT!");
    if let Some(l) = f.landing {
        if let Call::Point { winner, what } = a.ruling(l) {
            lemma_awarded_narrow(
                GameView { bounces: a.bounces + 1, ..a },
                winner,
                what,
            );
        }
    }
    assert(narrow_news(b));
    lemma_awarded_narrow(
        b,
        if b.last_hitter == 0 {
            1
        } else {
            0
        },
        "OUT!"@,
    );
}

proof fn lemma_awarded_narrow(g: GameView, w: int, what: Seq<char>)
    requires
        all_narrow(what),
    ensures
        narrow_news(g.awarded(w, what)),
{
    let s = g.score.after_point(w);
    reveal_strlit("GAME, SET & MATCH — YOU!");
    reveal_strlit("GAME, SET & MATCH — CPU");
    reveal_strlit("GAME  ·  ");
    reveal_strlit("–");
    reveal_strlit(" – ");
    reveal_strlit("DEUCE");
    reveal_strlit("ADVANTAGE ");
    reveal_strlit("YOU");
    reveal_strlit("CPU");
    reveal_strlit("0");
    reveal_strlit("15");
    reveal_strlit("30");
    reveal_strlit("40");
    lemma_narrow_digits(s.games.0);
    lemma_narrow_digits(s.games.1);
    assert(all_narrow(crate::game::games_text(s.games)));
    assert(all_narrow(crate::game::standing_text(s.pts)));
}

// ── time ─────────────────────────────────────────────────────────────────────────

/// The state after `n` frames in which nothing but the counters ran.
pub open spec fn after_frames(g: GameView, n: nat) -> GameView
    decreases n,
{
    if n == 0 {
        g
    } else {
        after_frames(g, (n - 1) as nat).stepped()
    }
}

/// While the match is paused, a frame only counts itself.
pub proof fn law_pause_freezes(g: GameView)
    requires
        g.paused,
    ensures
        g.stepped() == (GameView { frame: g.frame + 1, ..g }),
        g.stage() == Stage::Paused,
{
}

/// Pausing twice changes nothing.
pub proof fn law_pause_toggles(g: GameView)
    ensures
        pressed(pressed(g, Key::Char('p')), Key::Char('p')) == g,
        pressed(g, Key::Char('p')).paused == !g.paused,
{
}

/// A direction lives exactly as many frames as it has left, and is gone after that.
pub proof fn law_direction_lives(g: GameView, n: nat)
    requires
        !g.paused,
    ensures
        !after_frames(g, n).paused,
        n <= g.dir_ttl ==> after_frames(g, n).dir == g.dir && after_frames(g, n).dir_ttl
            == g.dir_ttl - n,
        n > g.dir_ttl ==> after_frames(g, n).dir == 0 && after_frames(g, n).dir_ttl == 0,
        n <= g.vdir_ttl ==> after_frames(g, n).vdir == g.vdir && after_frames(g, n).vdir_ttl
            == g.vdir_ttl - n,
        n > g.vdir_ttl ==> after_frames(g, n).vdir == 0 && after_frames(g, n).vdir_ttl == 0,
    decreases n,
{
    if n > 0 {
        law_direction_lives(g, (n - 1) as nat);
    }
}

/// A pressed direction key moves the player for `KEY_HOLD_FRAMES` frames even if its
/// release is never reported, and no longer.
pub proof fn law_key_is_held(g: GameView, key: Key, n: nat)
    requires
        !g.paused,
    ensures
        across(key) matches Some(d) ==> after_frames(pressed(g, key), n).dir == (if n
            <= KEY_HOLD_FRAMES {
            d
        } else {
            0
        }),
        along(key) matches Some(d) ==> after_frames(pressed(g, key), n).vdir == (if n
            <= KEY_HOLD_FRAMES {
            d
        } else {
            0
        }),
{
    if across(key) is Some || along(key) is Some {
        law_direction_lives(pressed(g, key), n);
    }
}

/// Releasing the key of a direction ends it at once; releasing the opposite key does
/// not.
pub proof fn law_release_ends_direction(g: GameView, key: Key, other: Key)
    ensures
        across(key) is Some ==> released(pressed(g, key), key).dir == 0 && released(
            pressed(g, key),
            key,
        ).dir_ttl == 0,
        along(key) is Some ==> released(pressed(g, key), key).vdir == 0 && released(
            pressed(g, key),
            key,
        ).vdir_ttl == 0,
        across(key) is Some && across(other) != across(key) ==> released(
            pressed(g, key),
            other,
        ).dir == pressed(g, key).dir,
        along(key) is Some && along(other) != along(key) ==> released(
            pressed(g, key),
            other,
        ).vdir == pressed(g, key).vdir,
{
}

/// A headline is shown until as many frames have passed as it was given.
pub proof fn law_headline_lives(g: GameView, n: nat)
    requires
        !g.paused,
        g.msg is Some,
    ensures
        n == 0 || n < g.msg->0.left ==> after_frames(g, n).msg == Some(
            MessageView { left: (g.msg->0.left - n) as nat, ..g.msg->0 },
        ),
        n > 0 && n >= g.msg->0.left ==> after_frames(g, n).msg is None,
        !after_frames(g, n).paused,
    decreases n,
{
    if n > 0 {
        law_headline_lives(g, (n - 1) as nat);
    }
}

/// The state after `n` frames of the pause after a point.
pub open spec fn after_pause(g: GameView, n: nat) -> GameView
    decreases n,
{
    if n == 0 {
        g
    } else {
        after_pause(g, (n - 1) as nat).point_ticked()
    }
}

/// The pause after a point lasts as many frames as it has left; then the next serve
/// begins.
pub proof fn law_pause_ends_in_serve(g: GameView, left: u16, n: nat)
    requires
        g.wf(),
        g.phase == Phase::Point(left),
        n <= left,
    ensures
        n < left ==> after_pause(g, n) == (GameView { phase: Phase::Point((left - n) as u16), ..g }),
        n == left ==> after_pause(g, n) == g.before_serve(),
    decreases n,
{
    if n > 0 {
        law_pause_ends_in_serve(g, left, (n - 1) as nat);
    }
}

/// The state after `n` frames of waiting for a serve.
pub open spec fn after_waiting(g: GameView, n: nat) -> GameView
    decreases n,
{
    if n == 0 {
        g
    } else {
        after_waiting(g, (n - 1) as nat).serve_ticked()
    }
}

/// The computer serves in frame `SERVE_WAIT` after it got ready, and in none before.
/// The player is waited for.
pub proof fn law_serve_is_due(g: GameView, n: nat)
    requires
        g.wf(),
        n < SERVE_WAIT,
    ensures
        ({
            let ready = g.before_serve();
            &&& after_waiting(ready, n).phase == Phase::Serve {
                server: g.score.server as u8,
                wait: (SERVE_WAIT - n) as u16,
            }
            &&& after_waiting(ready, n).serve_due() <==> g.score.server == 1 && n + 1
                == SERVE_WAIT
        }),
    decreases n,
{
    if n > 0 {
        law_serve_is_due(g, (n - 1) as nat);
    }
}

/// The player is waited for: without a key the player's serve never comes.
pub proof fn law_player_is_waited_for(g: GameView, n: nat)
    requires
        g.phase matches Phase::Serve { server, wait } && server == 0,
    ensures
        after_waiting(g, n).phase matches Phase::Serve { server, wait } && server == 0,
        !after_waiting(g, n).serve_due(),
    decreases n,
{
    if n > 0 {
        law_player_is_waited_for(g, (n - 1) as nat);
    }
}

} // verus!
