use ratatui::buffer::Buffer;
use ratatui::layout::Rect;
use ratatui::style::{Color, Modifier};
use terminal_tennis::backdrop::{ground_cell, paint_background, Backdrop, Patch};
use terminal_tennis::board::{
    bottom_bar, draw, overlay, overlay_rect, paused_lines, remark, result_lines, score_row,
    scoreboard, screen_rows, try_draw,
};
use terminal_tennis::court::{
    court_lines, paint_actors, paint_court_lines, paint_figure, paint_net, Across, Actors, Along,
    BallMarks, DustMark, FigureMarks, NetMarks, Strand, Trace,
};
use terminal_tennis::game::{Game, Phase};
use terminal_tennis::hud::{center_text, is_tiny, paint_hud, render, Scene, ServeMarks};
use terminal_tennis::panel::Line;
use terminal_tennis::screen::{is_complete, plot, plot_all, Dot};
use terminal_tennis::style::{rgb, Style};

const PATCH: Patch = Patch {
    outside: false,
    inside: true,
    band: 0,
};

fn area(width: u16, height: u16) -> Rect {
    Rect {
        x: 0,
        y: 0,
        width,
        height,
    }
}

fn row_text(buf: &Buffer, y: u16) -> String {
    let r = *buf.area();
    (r.x..r.x + r.width)
        .map(|x| buf[(x, y)].symbol().to_string())
        .collect()
}

fn line_text(l: &Line) -> String {
    l.spans.iter().map(|s| s.content.as_str()).collect()
}

fn trace(cells: Vec<Option<(i64, i64)>>) -> Option<Trace> {
    Some(Trace {
        flat: true,
        steep: false,
        rising: false,
        cells,
    })
}

fn figure(x: i64, y: i64) -> FigureMarks {
    FigureMarks {
        shadow: Some((x, y)),
        body: Some((x, y + 1)),
        head: Some((x, y + 2)),
        rim: vec![Some((x + 1, y)), None],
        strings: Some((x + 1, y + 1)),
        grip: Some((x + 1, y + 2)),
    }
}

fn scene(r: Rect) -> Scene {
    Scene {
        back: Backdrop {
            ground: (0..r.height).map(|_| vec![PATCH; r.width as usize]).collect(),
            wall: vec![None; r.width as usize],
        },
        lines: (0..11).map(|_| None).collect(),
        net: NetMarks {
            mesh: Vec::new(),
            tape: None,
            left_post: None,
            right_post: None,
        },
        actors: Actors {
            you: figure(1, r.y as i64),
            cpu: figure(5, r.y as i64),
            ball: BallMarks {
                near: true,
                trail: Vec::new(),
                shadow: None,
                at: None,
            },
            dust: Vec::new(),
        },
        serve: ServeMarks {
            target: None,
            around: Vec::new(),
            bright: true,
        },
    }
}

fn dot(at: Option<(i64, i64)>, ch: char) -> Dot {
    Dot {
        at,
        ch,
        style: Style::plain(),
    }
}

#[test]
fn dot_sets_its_cell() {
    let mut buf = Buffer::empty(Rect { x: 10, y: 5, width: 4, height: 3 });
    let style = Style::plain().fg(rgb(1, 2, 3)).bg(Color::White).bold();
    plot(&mut buf, &Dot { at: Some((12, 6)), ch: '╱', style });
    let c = &buf[(12, 6)];
    assert_eq!(c.symbol(), "╱");
    assert_eq!((c.fg, c.bg), (Color::Rgb(1, 2, 3), Color::White));
    assert_eq!(c.modifier, Modifier::BOLD);
    assert_eq!(row_text(&buf, 5), "    ");
}

#[test]
fn style_leaves_what_it_does_not_name() {
    let mut buf = Buffer::empty(area(2, 1));
    plot(&mut buf, &Dot { at: Some((0, 0)), ch: 'a', style: Style::plain().bg(rgb(9, 9, 9)).bold() });
    plot(&mut buf, &Dot { at: Some((0, 0)), ch: 'b', style: Style::plain().fg(rgb(7, 7, 7)) });
    let c = &buf[(0, 0)];
    assert_eq!(c.symbol(), "b");
    assert_eq!((c.fg, c.bg), (Color::Rgb(7, 7, 7), Color::Rgb(9, 9, 9)));
    assert_eq!(c.modifier, Modifier::BOLD);
}

#[test]
fn dots_outside_the_grid_are_dropped() {
    let r = Rect { x: 10, y: 5, width: 4, height: 3 };
    let mut buf = Buffer::empty(r);
    for at in [
        None,
        Some((9, 5)),
        Some((14, 5)),
        Some((10, 4)),
        Some((10, 8)),
        Some((-1, -1)),
        Some((65546, 5)),
        Some((i64::MAX, i64::MIN)),
    ] {
        plot(&mut buf, &dot(at, '#'));
    }
    assert_eq!(buf, Buffer::empty(r));
}

#[test]
fn last_dot_is_seen() {
    let mut buf = Buffer::empty(area(3, 1));
    plot_all(
        &mut buf,
        &vec![dot(Some((1, 0)), 'a'), dot(Some((2, 0)), 'b'), dot(Some((1, 0)), 'c')],
    );
    assert_eq!(row_text(&buf, 0), " cb");
}

#[test]
fn broken_grid_is_noticed() {
    let mut buf = Buffer::empty(area(3, 2));
    assert!(is_complete(&buf));
    buf.content.pop();
    assert!(!is_complete(&buf));
}

#[test]
fn text_is_centered() {
    let r = Rect { x: 2, y: 1, width: 9, height: 2 };
    let mut buf = Buffer::empty(area(12, 4));
    center_text(&mut buf, r, 1, "HEY", Style::plain().fg(rgb(5, 6, 7)));
    center_text(&mut buf, r, 2, "FOUR", Style::plain());
    assert_eq!(row_text(&buf, 1), "     HEY    ");
    assert_eq!(row_text(&buf, 2), "    FOUR    ");
    assert_eq!(buf[(5, 1)].fg, Color::Rgb(5, 6, 7));
}

#[test]
fn text_that_does_not_fit_is_left_out() {
    let r = Rect { x: 2, y: 1, width: 3, height: 2 };
    let blank = Buffer::empty(area(12, 4));
    let mut buf = blank.clone();
    center_text(&mut buf, r, 1, "HEY", Style::plain());
    center_text(&mut buf, r, 0, "A", Style::plain());
    center_text(&mut buf, r, 3, "A", Style::plain());
    assert_eq!(buf, blank);
}

#[test]
fn narrow_characters_take_one_cell_each() {
    let text = "a·–—…✦●■□◀▶▲▼~ z";
    let mut buf = Buffer::empty(area(40, 1));
    center_text(&mut buf, area(40, 1), 0, text, Style::plain());
    let mut x = 12;
    for c in text.chars() {
        assert_eq!(buf[(x, 0)].symbol(), c.to_string());
        x += 1;
    }
    for c in ' '..='~' {
        let mut buf = Buffer::empty(area(5, 1));
        center_text(&mut buf, area(5, 1), 0, &format!("{c}|"), Style::plain());
        assert_eq!(buf[(1, 0)].symbol(), c.to_string());
        assert_eq!(buf[(2, 0)].symbol(), "|");
    }
}

#[test]
fn wide_characters_take_two_cells() {
    let mut buf = Buffer::empty(area(9, 1));
    center_text(&mut buf, area(9, 1), 0, "網球", Style::plain());
    assert_eq!(buf[(3, 0)].symbol(), "網");
    assert_eq!(buf[(5, 0)].symbol(), "球");
    let mut buf = Buffer::empty(area(9, 3));
    center_text(&mut buf, area(9, 3), 1, "網球", Style::plain());
    assert_eq!(row_text(&buf, 0), "         ");
    assert_eq!(buf[(3, 1)].symbol(), "網");
    assert_eq!(row_text(&buf, 2), "         ");
}

#[test]
fn ground_is_striped() {
    let look = |outside, inside, band| {
        let (ch, style) = ground_cell(&Patch { outside, inside, band });
        assert_eq!(ch, ' ');
        style.bg.unwrap()
    };
    assert_eq!(look(true, true, 0), Color::Rgb(13, 17, 26));
    assert_eq!(look(false, true, 0), Color::Rgb(36, 88, 154));
    assert_eq!(look(false, true, 1), Color::Rgb(43, 99, 170));
    assert_eq!(look(false, true, -1), Color::Rgb(43, 99, 170));
    assert_eq!(look(false, false, -2), Color::Rgb(28, 110, 88));
    assert_eq!(look(false, false, 7), Color::Rgb(34, 122, 99));
}

#[test]
fn background_has_sky_stands_and_ground() {
    let r = area(60, 30);
    let mut buf = Buffer::empty(r);
    let back = scene(r).back;
    paint_background(&mut buf, r, &back, 0);
    // the horizon is row 9, the stands are the three rows above it
    assert_eq!(buf[(0, 0)].bg, Color::Rgb(7, 10, 22));
    assert_eq!(buf[(20, 3)].bg, Color::Rgb(12, 17, 34));
    assert_eq!(buf[(34, 3)].symbol(), "·");
    assert_eq!(buf[(34, 3)].fg, Color::Rgb(190, 200, 245));
    assert_eq!(buf[(33, 3)].symbol(), " ");
    assert_eq!(buf[(0, 9)].bg, Color::Rgb(36, 88, 154));
    assert_eq!(buf[(59, 29)].bg, Color::Rgb(36, 88, 154));
    let crowd = [
        Color::Rgb(214, 90, 90),
        Color::Rgb(230, 190, 90),
        Color::Rgb(120, 170, 230),
        Color::Rgb(220, 220, 230),
        Color::Rgb(140, 200, 140),
    ];
    let mut taken = 0;
    for y in 6..9 {
        for x in 0..60 {
            let c = &buf[(x, y)];
            if c.symbol() == " " {
                assert!(crowd.contains(&c.bg));
                taken += 1;
            } else {
                assert_eq!(c.symbol(), "·");
                assert_eq!((c.fg, c.bg), (Color::Rgb(44, 50, 68), Color::Rgb(15, 19, 29)));
            }
        }
    }
    assert!(taken > 5 && taken < 40);
    // floodlights
    assert_eq!(buf[(3, 1)].symbol(), "✦");
    assert_eq!(buf[(56, 1)].symbol(), "✦");
    assert_eq!(buf[(3, 1)].fg, Color::Rgb(255, 248, 214));
}

#[test]
fn only_the_crowd_twinkles() {
    let r = area(60, 30);
    let back = scene(r).back;
    let paint = |frame: u64| {
        let mut buf = Buffer::empty(r);
        paint_background(&mut buf, r, &back, frame);
        buf
    };
    assert_eq!(paint(0), paint(13));
    assert_eq!(paint(28), paint(41));
    let (now, then) = (paint(0), paint(14));
    for y in 0..30 {
        if y < 6 || y > 8 {
            for x in 0..60 {
                assert_eq!(now[(x, y)], then[(x, y)]);
            }
        }
    }
    assert_ne!(now, then);
}

#[test]
fn narrow_background_has_no_floodlights() {
    let r = area(14, 10);
    let mut buf = Buffer::empty(r);
    paint_background(&mut buf, r, &scene(r).back, 0);
    assert!(!row_text(&buf, 1).contains('✦'));
}

#[test]
fn wall_carries_the_banner() {
    let r = area(40, 20);
    let mut buf = Buffer::empty(r);
    let mut back = scene(r).back;
    for x in 0..36 {
        back.wall[x] = Some((8, 12));
    }
    paint_background(&mut buf, r, &back, 0);
    assert_eq!(buf[(0, 8)].bg, Color::Rgb(64, 84, 138));
    assert_eq!(buf[(0, 9)].bg, Color::Rgb(24, 34, 64));
    assert_eq!(buf[(0, 12)].bg, Color::Rgb(24, 34, 64));
    assert_eq!(buf[(36, 9)].bg, Color::Rgb(36, 88, 154));
    let banner: String = row_text(&buf, 10).chars().take(36).collect();
    assert_eq!(banner, "  RATATUI OPEN * TERMINAL TENNIS *  ");
    assert_eq!(buf[(2, 10)].fg, Color::Rgb(165, 190, 245));
    assert_eq!(buf[(2, 10)].modifier, Modifier::BOLD);
}

#[test]
fn court_has_eleven_lines() {
    let lines = court_lines();
    assert_eq!(lines.len(), 11);
    assert_eq!(lines[0].from, (Across::SinglesLeft, Along::NearBaseline));
    assert_eq!(lines[0].to, (Across::SinglesRight, Along::NearBaseline));
    assert_eq!(lines[0].steps, 48);
    assert_eq!(lines[8].from, (Across::Centre, Along::NearService));
    assert_eq!(lines[8].to, (Across::Centre, Along::FarService));
    assert_eq!(lines.iter().filter(|l| l.dim).count(), 2);
    assert_eq!(lines.iter().map(|l| l.steps).sum::<usize>(), 512);
}

#[test]
fn lines_are_drawn_by_their_slope() {
    let mut buf = Buffer::empty(area(6, 1));
    let mut traces: Vec<Option<Trace>> = (0..11).map(|_| None).collect();
    let slope = |flat, steep, rising, x| {
        Some(Trace { flat, steep, rising, cells: vec![Some((x, 0))] })
    };
    traces[0] = slope(true, true, true, 0);
    traces[1] = slope(false, true, true, 1);
    traces[2] = slope(false, false, true, 2);
    traces[4] = slope(false, false, false, 3);
    paint_court_lines(&mut buf, &traces);
    assert_eq!(row_text(&buf, 0), "─│╱╲  ");
    assert_eq!(buf[(0, 0)].fg, Color::Rgb(240, 246, 255));
    assert_eq!(buf[(0, 0)].modifier, Modifier::BOLD);
    assert_eq!(buf[(3, 0)].fg, Color::Rgb(190, 205, 228));
    assert_eq!(buf[(3, 0)].modifier, Modifier::empty());
}

#[test]
fn net_has_mesh_tape_and_posts() {
    let mut buf = Buffer::empty(area(4, 4));
    let net = NetMarks {
        mesh: vec![
            Strand { column: 1, top: -5, base: 1 },
            Strand { column: 2, top: 2, base: 90 },
            Strand { column: 3, top: 2, base: 1 },
            Strand { column: 7, top: 0, base: 3 },
        ],
        tape: trace(vec![Some((1, 0)), Some((2, 0))]),
        left_post: trace(vec![Some((0, 0))]),
        right_post: trace(vec![Some((3, 3))]),
    };
    paint_net(&mut buf, &net);
    assert_eq!(row_text(&buf, 0), "─── ");
    assert_eq!(row_text(&buf, 1), " ╽  ");
    assert_eq!(row_text(&buf, 2), "  ╽ ");
    assert_eq!(row_text(&buf, 3), "  ╽─");
    assert_eq!(buf[(1, 0)].fg, Color::White);
    assert_eq!(buf[(1, 1)].fg, Color::Rgb(150, 160, 185));
    assert_eq!(buf[(0, 0)].fg, Color::Rgb(170, 180, 200));
}

#[test]
fn figure_has_its_parts() {
    let mut dots = Vec::new();
    paint_figure(&mut dots, &figure(4, 0), rgb(255, 122, 92));
    let drawn: String = dots.iter().map(|d| d.ch).collect();
    assert_eq!(drawn, "●▲oOO·│");
    assert_eq!(dots[1].style.fg, Some(Color::Rgb(255, 122, 92)));
    assert!(dots[1].style.bold && !dots[3].style.bold);
    assert_eq!(dots[4].at, None);
}

#[test]
fn actors_are_drawn_on_their_side() {
    let mut actors = scene(area(20, 4)).actors;
    actors.ball.at = Some((10, 3));
    actors.dust = vec![
        DustMark { at: Some((11, 3)), near: true, fresh: true },
        DustMark { at: Some((12, 3)), near: false, fresh: true },
        DustMark { at: Some((13, 3)), near: true, fresh: false },
    ];
    let mut far = Buffer::empty(area(20, 4));
    paint_actors(&mut far, &actors, true, false);
    assert_eq!(row_text(&far, 1), "     ▲·             ");
    assert_eq!(row_text(&far, 3), "            *       ");
    assert_eq!(far[(5, 1)].fg, Color::Rgb(96, 200, 255));
    let mut near = Buffer::empty(area(20, 4));
    paint_actors(&mut near, &actors, true, true);
    assert_eq!(row_text(&near, 1), " ▲·                 ");
    assert_eq!(row_text(&near, 3), "          ●* ·      ");
    assert_eq!(near[(1, 1)].fg, Color::Rgb(255, 122, 92));
    assert_eq!(near[(10, 3)].fg, Color::Rgb(228, 255, 64));
}

#[test]
fn hints_for_a_serve_are_given() {
    let r = area(30, 10);
    let mut g = Game::new();
    let marks = ServeMarks {
        target: Some((4, 4)),
        around: vec![Some((3, 4)), Some((5, 4))],
        bright: true,
    };
    let mut buf = Buffer::empty(r);
    paint_hud(&mut buf, r, &g, &marks);
    assert_eq!(row_text(&buf, 4).trim_end(), "   ·×·");
    assert_eq!(row_text(&buf, 8).trim(), "SPACE · SERVE");
    assert_eq!(buf[(4, 4)].fg, Color::Rgb(228, 255, 64));
    let dark = ServeMarks { bright: false, ..marks };
    let mut buf = Buffer::empty(r);
    paint_hud(&mut buf, r, &g, &dark);
    assert_eq!(buf[(4, 4)].fg, Color::Rgb(110, 130, 60));
    g.phase = Phase::Serve { server: 1, wait: 3 };
    let mut buf = Buffer::empty(r);
    paint_hud(&mut buf, r, &g, &dark);
    assert_eq!(row_text(&buf, 4).trim(), "");
    assert_eq!(row_text(&buf, 8).trim(), "CPU SERVING…");
}

#[test]
fn rally_is_counted_from_four_on() {
    let r = area(30, 10);
    let marks = scene(r).serve;
    let mut g = Game::new();
    g.do_serve(0);
    g.rally = 3;
    let mut buf = Buffer::empty(r);
    paint_hud(&mut buf, r, &g, &marks);
    assert_eq!(row_text(&buf, 1).trim(), "");
    g.rally = 12;
    paint_hud(&mut buf, r, &g, &marks);
    assert_eq!(row_text(&buf, 1), "                    RALLY 12  ");
}

#[test]
fn headline_and_subtitle_are_shown() {
    let r = area(40, 20);
    let mut g = Game::new();
    g.do_serve(0);
    g.award(0, "ACE!");
    let mut buf = Buffer::empty(r);
    paint_hud(&mut buf, r, &g, &scene(r).serve);
    assert_eq!(row_text(&buf, 6).trim(), "ACE!");
    assert_eq!(row_text(&buf, 8).trim(), "15 – 0");
    assert_eq!(buf[(18, 6)].fg, Color::Rgb(140, 255, 170));
}

#[test]
fn small_pictures_are_not_drawn() {
    assert!(is_tiny(area(19, 8)));
    assert!(is_tiny(area(20, 7)));
    assert!(!is_tiny(area(20, 8)));
    let r = area(19, 8);
    let mut buf = Buffer::empty(r);
    render(&mut buf, r, &Game::new(), &scene(r));
    assert_eq!(buf, Buffer::empty(r));
}

#[test]
fn near_side_is_drawn_over_the_net() {
    let r = area(30, 12);
    let mut s = scene(r);
    s.net.tape = trace(vec![Some((1, 1)), Some((5, 1))]);
    let mut buf = Buffer::empty(r);
    render(&mut buf, r, &Game::new(), &s);
    assert_eq!(buf[(1, 1)].symbol(), "▲");
    assert_eq!(buf[(5, 1)].symbol(), "─");
}

#[test]
fn score_rows_read_from_left_to_right() {
    let mut g = Game::new();
    g.score.pts = [4, 3];
    g.score.games = [1, 2];
    g.score.server = 1;
    assert_eq!(line_text(&score_row(&g, 0)), "   YOU  AD    ■□□  GAMES 1");
    assert_eq!(line_text(&score_row(&g, 1)), " ● CPU  40    ■■□  GAMES 2");
    g.frame = 40;
    assert_eq!(line_text(&score_row(&g, 1)), "   CPU  40    ■■□  GAMES 2");
    g.frame = 64;
    assert_eq!(line_text(&score_row(&g, 1)), " ● CPU  40    ■■□  GAMES 2");
}

#[test]
fn remark_follows_the_phase() {
    let mut g = Game::new();
    assert_eq!(remark(&g, Some(99)), "SERVICE — YOU ");
    g.phase = Phase::Serve { server: 1, wait: 0 };
    assert_eq!(remark(&g, None), "SERVICE — CPU ");
    g.do_serve(0);
    assert_eq!(remark(&g, Some(87)), "RALLY  1 ·  87 KM/H ");
    g.rally = 14;
    assert_eq!(remark(&g, Some(112)), "RALLY 14 · 112 KM/H ");
    assert_eq!(remark(&g, None), "FIRST TO 3 GAMES ");
    g.phase = Phase::Point(9);
    g.ball_live = false;
    assert_eq!(remark(&g, Some(87)), "FIRST TO 3 GAMES ");
    g.phase = Phase::Over;
    assert_eq!(remark(&g, Some(87)), "MATCH OVER ");
}

#[test]
fn header_fills_the_width() {
    let g = Game::new();
    let lines = scoreboard(&g, 60, None);
    assert_eq!(lines.len(), 4);
    assert_eq!(
        line_text(&lines[0]),
        " RATATUI OPEN · CENTRE COURT                  SERVICE — YOU "
    );
    assert_eq!(line_text(&lines[0]).chars().count(), 60);
    assert_eq!(line_text(&lines[3]), "   GAME 1 OF 5 · YOU SERVING");
    let narrow = scoreboard(&g, 10, None);
    assert_eq!(
        line_text(&narrow[0]),
        " RATATUI OPEN · CENTRE COURTSERVICE — YOU "
    );
}

#[test]
fn bottom_bar_names_the_keys() {
    let bar = bottom_bar();
    assert_eq!(bar.len(), 1);
    assert_eq!(
        line_text(&bar[0]),
        " ◀ ▶  move  ▲ ▼  depth  SPACE  serve  P  pause  R  rematch  Q  quit       centre court · 60 fps · ratatui"
    );
}

#[test]
fn box_is_in_the_middle() {
    let r = Rect { x: 10, y: 5, width: 61, height: 21 };
    assert_eq!(
        overlay_rect(r, 4),
        Some(Rect { x: 17, y: 12, width: 46, height: 6 })
    );
    assert_eq!(
        overlay_rect(area(20, 6), 9),
        Some(Rect { x: 1, y: 1, width: 18, height: 4 })
    );
    assert_eq!(overlay_rect(area(13, 20), 4), None);
    assert_eq!(overlay_rect(area(80, 4), 4), None);
    assert_eq!(overlay_rect(area(0, 0), 4), None);
}

#[test]
fn box_covers_what_is_below() {
    let r = area(30, 9);
    let mut buf = Buffer::empty(r);
    for y in 0..9 {
        for x in 0..30 {
            plot(&mut buf, &Dot { at: Some((x, y)), ch: '#', style: Style::plain().bold() });
        }
    }
    overlay(&mut buf, r, "PAUSED", &paused_lines(), rgb(120, 140, 190));
    assert_eq!(row_text(&buf, 1), "##############################");
    assert_eq!(row_text(&buf, 2), "#┌ PAUSED ──────────────────┐#");
    assert_eq!(row_text(&buf, 3), "#│                          │#");
    assert_eq!(row_text(&buf, 4), "#│     press P to resume    │#");
    assert_eq!(row_text(&buf, 5), "#└──────────────────────────┘#");
    assert_eq!(row_text(&buf, 6), "##############################");
    assert_eq!(buf[(1, 3)].fg, Color::Rgb(120, 140, 190));
    assert_eq!(buf[(3, 3)].bg, Color::Rgb(11, 15, 27));
    assert_eq!(buf[(3, 3)].modifier, Modifier::empty());
}

#[test]
fn small_box_cuts_its_text() {
    let r = area(14, 5);
    let mut buf = Buffer::empty(r);
    overlay(&mut buf, r, "A LONG TITLE", &paused_lines(), rgb(1, 2, 3));
    assert_eq!(row_text(&buf, 0), "              ");
    assert_eq!(row_text(&buf, 1), " ┌ A LONG TI┐ ");
    assert_eq!(row_text(&buf, 2), " │          │ ");
    assert_eq!(row_text(&buf, 3), " └──────────┘ ");
    let r = area(15, 20);
    let mut buf = Buffer::empty(r);
    overlay(&mut buf, r, "A", &paused_lines(), rgb(1, 2, 3));
    assert_eq!(row_text(&buf, 8), " ┌ A ────────┐ ");
    assert_eq!(row_text(&buf, 9), " │           │ ");
    assert_eq!(row_text(&buf, 10), " │press P to │ ");
    assert_eq!(row_text(&buf, 11), " └───────────┘ ");
    assert_eq!(buf[(3, 8)].fg, Color::Rgb(1, 2, 3));
    assert_eq!(buf[(3, 10)].fg, Color::Rgb(200, 210, 235));
}

#[test]
fn box_takes_any_text() {
    let r = area(30, 9);
    let mut buf = Buffer::empty(r);
    overlay(&mut buf, r, "休止", &paused_lines(), rgb(1, 2, 3));
    assert_eq!(buf[(3, 2)].symbol(), "休");
    assert_eq!(buf[(5, 2)].symbol(), "止");
    for (x, y) in [(0, 2), (29, 2), (0, 3), (1, 1), (3, 1), (28, 6)] {
        assert_eq!(buf[(x, y)], Buffer::empty(r)[(x, y)]);
    }
}

#[test]
fn result_names_the_winner() {
    let mut g = Game::new();
    g.score.games = [3, 1];
    let lines: Vec<String> = result_lines(&g).iter().map(line_text).collect();
    assert_eq!(
        lines,
        vec!["", ">> YOU WIN THE MATCH <<", "games 3–1", "R — rematch · Q — quit"]
    );
    g.score.games = [0, 3];
    let lines: Vec<String> = result_lines(&g).iter().map(line_text).collect();
    assert_eq!(lines[1], "CPU TAKES THE MATCH");
    assert_eq!(lines[2], "games 0–3");
}

#[test]
fn screen_is_divided_into_three_rows() {
    let rows = screen_rows(area(100, 30));
    assert_eq!(
        rows,
        vec![
            Rect { x: 0, y: 0, width: 100, height: 4 },
            Rect { x: 0, y: 4, width: 100, height: 24 },
            Rect { x: 0, y: 28, width: 100, height: 2 },
        ]
    );
}

#[test]
fn parts_of_the_screen_fill_it() {
    for (x, y) in [(0, 0), (3, 7), (9, 65000)] {
        for height in 0..500 {
            let rows = screen_rows(Rect { x, y, width: 5, height });
            assert_eq!(rows.len(), 3);
            for r in &rows {
                assert_eq!((r.x, r.width), (x, 5));
                assert!(r.y >= y && r.y + r.height <= y + height);
            }
            assert_eq!(rows[0].y, y);
            assert_eq!(rows[1].y, rows[0].y + rows[0].height);
            assert_eq!(rows[2].y, rows[1].y + rows[1].height);
            assert_eq!(rows[2].y + rows[2].height, y + height);
            assert!(rows[0].height <= 4 && rows[2].height <= 2);
            if height < 12 {
                assert_eq!(rows[1].height, height.min(6));
            } else {
                assert_eq!((rows[0].y, rows[0].height), (y, 4));
                assert_eq!((rows[1].y, rows[1].height), (y + 4, height - 6));
                assert_eq!((rows[2].y, rows[2].height), (y + height - 2, 2));
            }
        }
    }
    let rows = screen_rows(Rect { x: 0, y: 10, width: 1, height: u16::MAX });
    assert_eq!((rows[1].y, rows[1].height), (14, u16::MAX - 16));
    assert_eq!((rows[2].y, rows[2].height), (u16::MAX - 2, 2));
}

#[test]
fn whole_screen_is_drawn() {
    let r = area(60, 24);
    let rows = screen_rows(r);
    let mut buf = Buffer::empty(r);
    let g = Game::new();
    let s = scene(rows[1]);
    draw(&mut buf, rows[0], rows[1], rows[2], &g, &s, None);
    assert_eq!(
        row_text(&buf, 0),
        " RATATUI OPEN · CENTRE COURT                  SERVICE — YOU "
    );
    assert_eq!(buf[(0, 0)].bg, Color::Rgb(9, 13, 25));
    assert_eq!(buf[(59, 3)].bg, Color::Rgb(9, 13, 25));
    assert_eq!(buf[(1, 0)].fg, Color::Rgb(150, 182, 255));
    assert_eq!(row_text(&buf, 1).trim_end(), " ● YOU   0    □□□  GAMES 0");
    assert_eq!(row_text(&buf, 2).trim_end(), "   CPU   0    □□□  GAMES 0");
    assert_eq!(row_text(&buf, 3).trim_end(), "   GAME 1 OF 5 · YOU SERVING");
    assert!(row_text(&buf, 20).contains("SPACE · SERVE"));
    assert!(row_text(&buf, 22).starts_with(" ◀ ▶  move  ▲ ▼  depth "));
    assert_eq!(buf[(0, 23)].bg, Color::Rgb(10, 14, 26));
}

#[test]
fn box_is_drawn_over_a_pause_and_at_the_end() {
    let r = area(60, 24);
    let rows = screen_rows(r);
    let s = scene(rows[1]);
    let mut g = Game::new();
    g.paused = true;
    let mut buf = Buffer::empty(r);
    draw(&mut buf, rows[0], rows[1], rows[2], &g, &s, None);
    assert!((4..22).any(|y| row_text(&buf, y).contains("press P to resume")));
    g.paused = false;
    g.phase = Phase::Over;
    g.score.games = [2, 3];
    let mut buf = Buffer::empty(r);
    draw(&mut buf, rows[0], rows[1], rows[2], &g, &s, None);
    assert!((4..22).any(|y| row_text(&buf, y).contains("┌ MATCH OVER ──")));
    assert!((4..22).any(|y| row_text(&buf, y).contains("CPU TAKES THE MATCH")));
    assert!((4..22).any(|y| row_text(&buf, y).contains("games 2–3")));
}

#[test]
fn what_does_not_belong_together_is_not_drawn() {
    let r = area(60, 24);
    let rows = screen_rows(r);
    let g = Game::new();
    let s = scene(rows[1]);
    let mut buf = Buffer::empty(r);
    assert!(try_draw(&mut buf, rows[0], rows[1], rows[2], &g, &s, None));
    let mut small = Buffer::empty(area(59, 24));
    assert!(!try_draw(&mut small, rows[0], rows[1], rows[2], &g, &s, None));
    assert_eq!(small, Buffer::empty(area(59, 24)));
    let mut broken = Buffer::empty(r);
    broken.content.pop();
    assert!(!try_draw(&mut broken, rows[0], rows[1], rows[2], &g, &s, None));
    let bare = scene(area(30, 18));
    let mut buf = Buffer::empty(r);
    assert!(!try_draw(&mut buf, rows[0], rows[1], rows[2], &g, &bare, None));
    assert_eq!(buf, Buffer::empty(r));
}
