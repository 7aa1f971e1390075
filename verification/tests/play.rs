use ratatui::style::Color;
use terminal_tennis::game::{
    Deed, Flight, Game, Landing, Motion, NetContact, Phase, Stage, FAULT_PAUSE, POINT_PAUSE,
    SERVE_WAIT,
};

const GOOD: Color = Color::Rgb(140, 255, 170);
const BAD: Color = Color::Rgb(255, 110, 110);
const INFO: Color = Color::Rgb(255, 230, 120);

const FLYING: Flight = Flight {
    net: NetContact::Clear,
    landing: None,
    away: false,
};

fn bounce(near_side: bool, in_bounds: bool) -> Flight {
    Flight {
        landing: Some(Landing {
            near_side,
            in_bounds,
        }),
        ..FLYING
    }
}

fn headline(g: &Game) -> &str {
    g.msg.as_ref().map_or("", |m| m.text.as_str())
}

fn subtitle(g: &Game) -> &str {
    g.sub.as_ref().map_or("-", |m| m.text.as_str())
}

/// A serve of the player that is never touched.
fn ace(g: &mut Game) {
    g.do_serve(0);
    g.physics(&bounce(false, true), &mut Vec::new(), ());
    g.physics(&bounce(false, true), &mut Vec::new(), ());
    finish(g);
}

/// Ends the pause after a point.
fn finish(g: &mut Game) {
    while let Phase::Point(_) = g.phase {
        g.tick_point::<()>(&mut Vec::new());
    }
}

/// A point for one of the two by a ball that leaves the surroundings.
fn point(g: &mut Game, winner: u8) {
    g.do_serve(1 - winner);
    g.physics(&Flight { away: true, ..FLYING }, &mut Vec::new(), ());
    finish(g);
}

#[test]
fn match_begins_with_the_players_serve() {
    let g = Game::new();
    assert_eq!(g.phase, Phase::Serve { server: 0, wait: SERVE_WAIT });
    assert_eq!(g.score.pts, [0, 0]);
    assert_eq!(g.score.games, [0, 0]);
    assert_eq!(g.score.serves, 2);
    assert_eq!(g.last_hitter, 2);
    assert!(!g.ball_live);
    assert_eq!(g.rng, 0x9E3779B97F4A7C15);
}

#[test]
fn serve_puts_the_ball_into_play() {
    let mut g = Game::new();
    g.do_serve(0);
    assert_eq!(g.phase, Phase::Rally);
    assert!(g.ball_live && g.is_serve);
    assert_eq!(g.last_hitter, 0);
    assert_eq!(g.bounces, 0);
}

#[test]
fn untouched_serve_is_an_ace() {
    let mut g = Game::new();
    g.do_serve(0);
    g.physics(&bounce(false, true), &mut Vec::new(), ());
    assert_eq!(g.phase, Phase::Rally);
    assert_eq!(g.bounces, 1);
    g.physics(&bounce(false, false), &mut Vec::new(), ());
    assert_eq!(g.score.pts, [1, 0]);
    assert_eq!(headline(&g), "ACE!");
    assert_eq!(subtitle(&g), "15 – 0");
    assert_eq!(g.msg.as_ref().unwrap().color, GOOD);
    assert_eq!(g.phase, Phase::Point(POINT_PAUSE));
}

#[test]
fn first_fault_gives_a_second_serve() {
    let mut g = Game::new();
    g.do_serve(0);
    g.physics(&bounce(true, true), &mut Vec::new(), ());
    assert_eq!(headline(&g), "FAULT");
    assert_eq!(g.msg.as_ref().unwrap().color, INFO);
    assert_eq!(g.score.serves, 1);
    assert_eq!(g.score.pts, [0, 0]);
    assert_eq!(g.phase, Phase::Point(FAULT_PAUSE));
    assert!(g.sub.is_none());
    finish(&mut g);
    assert_eq!(g.phase, Phase::Serve { server: 0, wait: SERVE_WAIT });
    assert_eq!(g.score.serves, 1);
}

#[test]
fn second_fault_loses_the_point() {
    let mut g = Game::new();
    g.do_serve(0);
    g.physics(&bounce(false, false), &mut Vec::new(), ());
    finish(&mut g);
    g.do_serve(0);
    g.physics(&bounce(true, false), &mut Vec::new(), ());
    assert_eq!(headline(&g), "DOUBLE FAULT");
    assert_eq!(g.msg.as_ref().unwrap().color, BAD);
    assert_eq!(subtitle(&g), "0 – 15");
    assert_eq!(g.score.pts, [0, 1]);
    assert_eq!(g.score.serves, 2);
}

#[test]
fn good_second_serve_keeps_the_rally_going() {
    let mut g = Game::new();
    g.do_serve(0);
    g.physics(&bounce(false, false), &mut Vec::new(), ());
    finish(&mut g);
    g.do_serve(0);
    g.physics(&bounce(false, true), &mut Vec::new(), ());
    assert_eq!(g.phase, Phase::Rally);
    assert_eq!(g.score.serves, 1);
}

#[test]
fn strokes_are_ruled() {
    let mut g = Game::new();
    g.do_serve(0);
    g.physics(&bounce(false, true), &mut Vec::new(), ());
    g.stroke(1);
    assert_eq!((g.rally, g.last_hitter, g.bounces, g.is_serve), (1, 1, 0, false));
    g.physics(&bounce(true, false), &mut Vec::new(), ());
    assert_eq!(headline(&g), "OUT!");
    assert_eq!(g.score.pts, [1, 0]);
    finish(&mut g);

    g.do_serve(0);
    g.physics(&bounce(false, true), &mut Vec::new(), ());
    g.stroke(1);
    g.physics(&bounce(false, true), &mut Vec::new(), ());
    assert_eq!(headline(&g), "NET!");
    assert_eq!(g.score.pts, [2, 0]);
    finish(&mut g);

    g.do_serve(0);
    g.physics(&bounce(false, true), &mut Vec::new(), ());
    g.stroke(1);
    g.physics(&bounce(true, true), &mut Vec::new(), ());
    g.stroke(0);
    g.physics(&bounce(false, true), &mut Vec::new(), ());
    g.physics(&bounce(false, true), &mut Vec::new(), ());
    assert_eq!(headline(&g), "WINNER!");
    assert_eq!(g.score.pts, [3, 0]);
    assert_eq!(subtitle(&g), "40 – 0");
}

#[test]
fn net_cord_is_announced() {
    let mut g = Game::new();
    g.do_serve(0);
    g.physics(&Flight { net: NetContact::Tape, ..FLYING }, &mut Vec::new(), ());
    assert_eq!(headline(&g), "NET CORD!");
    assert!(g.net_touched);
    assert_eq!(g.phase, Phase::Rally);
}

#[test]
fn mesh_is_not_announced() {
    let mut g = Game::new();
    g.do_serve(0);
    g.physics(&Flight { net: NetContact::Mesh, ..FLYING }, &mut Vec::new(), ());
    assert_eq!(headline(&g), "");
    assert!(g.net_touched);
}

#[test]
fn net_contact_depends_on_the_crossing() {
    assert_eq!(NetContact::of_crossing(false, true, false), NetContact::Clear);
    assert_eq!(NetContact::of_crossing(true, false, true), NetContact::Clear);
    assert_eq!(NetContact::of_crossing(true, true, true), NetContact::Tape);
    assert_eq!(NetContact::of_crossing(true, true, false), NetContact::Mesh);
}

#[test]
fn lost_ball_loses_the_point_once() {
    let mut g = Game::new();
    g.do_serve(1);
    let lost = Flight { away: true, ..bounce(true, false) };
    g.score.serves = 1;
    g.physics(&lost, &mut Vec::new(), ());
    assert_eq!(headline(&g), "DOUBLE FAULT");
    assert_eq!(g.score.pts, [1, 0]);
    g.physics(&lost, &mut Vec::new(), ());
    assert_eq!(g.score.pts, [1, 0]);
}

#[test]
fn ball_at_rest_changes_nothing() {
    let mut g = Game::new();
    g.physics(&Flight { net: NetContact::Tape, away: true, ..bounce(true, true) }, &mut Vec::new(), ());
    assert!(!g.net_touched);
    assert!(g.msg.is_none());
    assert_eq!(g.score.pts, [0, 0]);
}

#[test]
fn game_takes_four_points() {
    let mut g = Game::new();
    for _ in 0..3 {
        ace(&mut g);
    }
    assert_eq!(g.score.pts, [3, 0]);
    ace(&mut g);
    assert_eq!(g.score.pts, [0, 0]);
    assert_eq!(g.score.games, [1, 0]);
    assert_eq!(g.score.server, 1);
    assert_eq!(subtitle(&g), "GAME  ·  1–0");
    assert_eq!(g.phase, Phase::Serve { server: 1, wait: SERVE_WAIT });
}

#[test]
fn deuce_takes_two_points_in_a_row() {
    let mut g = Game::new();
    for _ in 0..3 {
        point(&mut g, 0);
        point(&mut g, 1);
    }
    assert_eq!(subtitle(&g), "DEUCE");
    point(&mut g, 1);
    assert_eq!(subtitle(&g), "ADVANTAGE CPU");
    point(&mut g, 0);
    assert_eq!(subtitle(&g), "DEUCE");
    point(&mut g, 0);
    assert_eq!(subtitle(&g), "ADVANTAGE YOU");
    point(&mut g, 0);
    assert_eq!(g.score.games, [1, 0]);
}

#[test]
fn three_games_win_the_match() {
    let mut g = Game::new();
    for _ in 0..12 {
        point(&mut g, 0);
    }
    assert_eq!(g.phase, Phase::Over);
    assert_eq!(g.score.games, [3, 0]);
    assert_eq!(headline(&g), "GAME, SET & MATCH — YOU!");
    assert_eq!(g.msg.as_ref().unwrap().left, 5940);
    assert_eq!(subtitle(&g), "");
}

#[test]
fn computer_can_win_the_match() {
    let mut g = Game::new();
    for _ in 0..4 {
        point(&mut g, 0);
    }
    for _ in 0..12 {
        point(&mut g, 1);
    }
    assert_eq!(g.phase, Phase::Over);
    assert_eq!(g.score.games, [1, 3]);
    assert_eq!(headline(&g), "GAME, SET & MATCH — CPU");
    assert_eq!(g.msg.as_ref().unwrap().color, BAD);
}

#[test]
fn match_that_is_over_stays_over() {
    let mut g = Game::new();
    for _ in 0..12 {
        point(&mut g, 0);
    }
    g.physics(&Flight { away: true, ..bounce(true, false) }, &mut Vec::new(), ());
    assert!(!g.tick_serve() && !g.tick_point::<()>(&mut Vec::new()));
    assert_eq!(g.step(), Stage::Over);
    assert_eq!(g.phase, Phase::Over);
    assert_eq!(g.score.games, [3, 0]);
    assert_eq!(g.score.pts, [0, 0]);
}

#[test]
fn players_alternate() {
    let mut g = Game::new();
    g.do_serve(0);
    assert_eq!(g.try_hits(true, true), None);
    g.physics(&bounce(false, true), &mut Vec::new(), ());
    assert_eq!(g.try_hits(true, false), None);
    assert_eq!(g.try_hits(true, true), Some(1));
    assert_eq!(g.try_hits(false, false), None);
    g.stroke(1);
    assert_eq!(g.try_hits(true, true), None);
    g.physics(&bounce(true, true), &mut Vec::new(), ());
    assert_eq!(g.try_hits(true, true), Some(0));
}

#[test]
fn computer_runs_for_the_players_balls() {
    let mut g = Game::new();
    assert!(!g.incoming(true));
    g.do_serve(0);
    assert!(g.incoming(true));
    assert!(!g.incoming(false));
    g.do_serve(1);
    assert!(!g.incoming(true));
}

#[test]
fn computer_serves_after_its_wait() {
    let mut g = Game::new();
    for _ in 0..4 {
        point(&mut g, 1);
    }
    assert_eq!(g.phase, Phase::Serve { server: 1, wait: SERVE_WAIT });
    for _ in 1..SERVE_WAIT {
        assert!(!g.tick_serve());
    }
    assert!(g.tick_serve());
}

#[test]
fn player_is_waited_for() {
    let mut g = Game::new();
    for _ in 0..1000 {
        assert!(!g.tick_serve());
    }
    assert_eq!(g.phase, Phase::Serve { server: 0, wait: 0 });
}

#[test]
fn pause_after_a_point_has_its_length() {
    let mut g = Game::new();
    g.do_serve(0);
    g.physics(&bounce(false, true), &mut Vec::new(), ());
    g.physics(&bounce(false, true), &mut Vec::new(), ());
    for _ in 1..POINT_PAUSE {
        assert!(!g.tick_point::<()>(&mut Vec::new()));
    }
    assert!(g.tick_point::<()>(&mut Vec::new()));
    assert!(!g.ball_live);
    assert_eq!(g.rally, 0);
    assert_eq!(g.last_hitter, 2);
}

#[test]
fn headline_is_shown_for_its_frames() {
    let mut g = Game::new();
    g.flash("HELLO", Color::White, 3);
    g.step();
    g.step();
    assert_eq!(headline(&g), "HELLO");
    g.step();
    assert!(g.msg.is_none());
}

#[test]
fn frames_tell_what_they_ask_for() {
    let mut g = Game::new();
    assert_eq!(g.step(), Stage::Serve { server: 0 });
    g.do_serve(0);
    assert_eq!(g.step(), Stage::Rally);
    g.physics(&bounce(true, true), &mut Vec::new(), ());
    assert_eq!(g.step(), Stage::Point);
    g.paused = true;
    assert_eq!(g.step(), Stage::Paused);
    assert_eq!(g.frame, 4);
}

#[test]
fn pause_freezes_everything_but_the_frame() {
    let mut g = Game::new();
    g.flash("HELLO", Color::White, 3);
    g.dir = 1;
    g.dir_ttl = 1;
    g.paused = true;
    for _ in 0..10 {
        g.step();
    }
    assert_eq!(headline(&g), "HELLO");
    assert_eq!(g.msg.as_ref().unwrap().left, 3);
    assert_eq!((g.dir, g.dir_ttl, g.frame), (1, 1, 10));
}

#[test]
fn endless_deuce_is_refused_before_it_overflows() {
    let mut g = Game::new();
    g.score.pts = [253, 253];
    g.do_serve(0);
    let lost = Flight { away: true, ..FLYING };
    assert!(g.accepts(&lost));
    g.score.pts = [254, 254];
    assert!(!g.accepts(&lost));
    assert!(g.accepts(&FLYING));
    g.score.pts = [254, 255];
    assert!(!g.accepts(&lost));
}

#[test]
fn award_counts_a_point() {
    let mut g = Game::new();
    g.award(1, "GIFT");
    assert_eq!(g.score.pts, [0, 1]);
    assert_eq!(headline(&g), "GIFT");
    assert_eq!(g.phase, Phase::Point(POINT_PAUSE));
}

/// One whole frame.
fn frame(g: &mut Game, flight: Flight, reach: bool) -> Deed {
    g.step();
    let motion = Motion { flight, you_reach: reach, cpu_reach: reach };
    g.advance(&motion, &mut Vec::new(), ())
}

#[test]
fn frames_carry_a_rally() {
    let mut g = Game::new();
    for _ in 0..100 {
        assert_eq!(frame(&mut g, FLYING, true), Deed::Nothing);
    }
    g.do_serve(0);
    assert_eq!(frame(&mut g, FLYING, true), Deed::Nothing);
    assert_eq!(frame(&mut g, bounce(false, true), true), Deed::Stroke { who: 1 });
    assert_eq!((g.rally, g.last_hitter, g.bounces), (1, 1, 0));
    assert_eq!(frame(&mut g, bounce(true, true), false), Deed::Nothing);
    assert_eq!(frame(&mut g, FLYING, true), Deed::Stroke { who: 0 });
    assert_eq!(frame(&mut g, bounce(false, false), false), Deed::Nothing);
    assert_eq!(g.score.pts, [0, 1]);
    assert_eq!(g.phase, Phase::Point(POINT_PAUSE));
    for _ in 1..POINT_PAUSE {
        assert_eq!(frame(&mut g, FLYING, false), Deed::Nothing);
    }
    assert_eq!(frame(&mut g, FLYING, false), Deed::Rest);
    assert_eq!(g.phase, Phase::Serve { server: 0, wait: SERVE_WAIT });
}

#[test]
fn frames_bring_the_serve_of_the_computer() {
    let mut g = Game::new();
    for _ in 0..4 {
        point(&mut g, 0);
    }
    for _ in 1..SERVE_WAIT {
        assert_eq!(frame(&mut g, FLYING, false), Deed::Nothing);
    }
    assert_eq!(frame(&mut g, FLYING, false), Deed::Serve);
    assert_eq!(g.phase, Phase::Rally);
    assert_eq!((g.last_hitter, g.is_serve), (1, true));
}

#[test]
fn frames_do_nothing_in_a_pause() {
    let mut g = Game::new();
    g.do_serve(0);
    g.paused = true;
    let lost = Flight { away: true, ..bounce(true, false) };
    for _ in 0..300 {
        assert_eq!(frame(&mut g, lost, true), Deed::Nothing);
    }
    assert_eq!((g.phase, g.bounces, g.frame), (Phase::Rally, 0, 300));
}

#[test]
fn frames_do_not_reopen_a_match() {
    let mut g = Game::new();
    for _ in 0..12 {
        point(&mut g, 1);
    }
    let (rally, hitter) = (g.rally, g.last_hitter);
    let lost = Flight { net: NetContact::Tape, away: true, ..bounce(true, false) };
    for _ in 0..7000 {
        assert_eq!(frame(&mut g, lost, false), Deed::Nothing);
    }
    assert_eq!(g.phase, Phase::Over);
    assert_eq!((g.score.pts, g.score.games), ([0, 0], [0, 3]));
    assert_eq!((g.rally, g.last_hitter), (rally, hitter));
}

#[test]
fn players_are_treated_alike() {
    for (a, b) in [(0, 0), (2, 3), (3, 1), (3, 3), (4, 3), (5, 6)] {
        for (m, n) in [(0, 0), (2, 1), (2, 2)] {
            for winner in 0..2 {
                let mut g = Game::new();
                g.score.pts = [a, b];
                g.score.games = [m, n];
                g.begin_serve::<()>(&mut Vec::new());
                let mut h = Game::new();
                h.score.pts = [b, a];
                h.score.games = [n, m];
                h.score.server = 1;
                h.begin_serve::<()>(&mut Vec::new());
                g.award(winner, "GIFT");
                h.award(1 - winner, "GIFT");
                assert_eq!(h.score.pts, [g.score.pts[1], g.score.pts[0]]);
                assert_eq!(h.score.games, [g.score.games[1], g.score.games[0]]);
                assert_eq!(h.score.server, 1 - g.score.server);
                assert_eq!((g.score.serves, h.score.serves), (2, 2));
                assert_eq!(g.phase, h.phase);
            }
        }
    }
}

#[test]
fn server_changes_with_every_game() {
    let mut g = Game::new();
    for played in 0..4u8 {
        assert_eq!(g.score.server, played % 2);
        for _ in 0..4 {
            point(&mut g, played % 2);
        }
    }
}

#[test]
fn trail_follows_the_ball() {
    let mut g = Game::new();
    let mut trail: Vec<u32> = vec![7];
    g.physics(&FLYING, &mut trail, 1);
    assert_eq!(trail, vec![7]);
    g.do_serve(0);
    for at in 0..40 {
        g.step();
        g.advance(&Motion { flight: FLYING, you_reach: false, cpu_reach: false }, &mut trail, at);
        if g.frame == 3 {
            assert_eq!(trail, vec![1, 7]);
        }
    }
    assert_eq!(trail, vec![39, 37, 35, 33, 31, 29, 27, 25, 23]);
    let out = bounce(true, true);
    g.physics(&out, &mut trail, 40);
    assert_eq!((trail[0], trail.len()), (40, 9));
    while let Phase::Point(_) = g.phase {
        assert_eq!(trail.len(), 9);
        g.step();
        g.advance(&Motion { flight: FLYING, you_reach: false, cpu_reach: false }, &mut trail, 41);
    }
    assert!(trail.is_empty());
}

#[test]
fn flights_that_cannot_be_ruled_on_are_refused() {
    let mut g = Game::new();
    g.do_serve(0);
    g.last_hitter = 2;
    assert!(g.accepts(&bounce(true, true)));
    assert!(g.accepts(&bounce(true, false)));
    g.is_serve = false;
    assert!(!g.accepts(&bounce(true, false)));
    g.last_hitter = 0;
    assert!(g.accepts(&bounce(true, false)));
    g.bounces = 255;
    assert!(!g.accepts(&bounce(true, false)));
    g.bounces = 0;
    g.is_serve = true;
    g.score.serves = 0;
    assert!(!g.accepts(&bounce(true, false)));
    g.score.serves = 1;
    g.score.pts = [0, 3];
    g.score.games = [0, 255];
    assert!(!g.accepts(&bounce(true, false)));
    g.score.games = [0, 2];
    assert!(g.accepts(&bounce(true, false)));
}
