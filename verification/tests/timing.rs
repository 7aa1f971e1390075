//! The frame counts and the integer formulas against the seconds and the fractions
//! that they stand for.

use ratatui::buffer::Buffer;
use ratatui::layout::Rect;
use ratatui::style::Color;
use terminal_tennis::backdrop::{horizon, sky_color};
use terminal_tennis::court::{paint_ball, BallMarks};
use terminal_tennis::game::{
    Game, FAULT_NEWS, FAULT_PAUSE, MATCH_NEWS, NET_CORD_NEWS, POINT_NEWS, POINT_PAUSE, SCORE_NEWS,
    SERVE_WAIT,
};
use terminal_tennis::hud::{paint_hud, ServeMarks};
use terminal_tennis::screen::Dot;

/// The frames after which a countdown from `seconds` has run out.
fn frames(seconds: f32) -> u16 {
    let dt: f64 = 1.0 / 60.0;
    let mut t = seconds;
    let mut n = 0;
    while t > 0.0 {
        t -= dt as f32;
        n += 1;
    }
    n
}

#[test]
fn frame_counts_are_countdowns_in_seconds() {
    assert_eq!(SERVE_WAIT, frames(0.9));
    assert_eq!(FAULT_PAUSE, frames(0.9));
    assert_eq!(POINT_PAUSE, frames(1.7));
    assert_eq!(NET_CORD_NEWS, frames(0.7));
    assert_eq!(FAULT_NEWS, frames(1.0));
    assert_eq!(POINT_NEWS, frames(1.6));
    assert_eq!(SCORE_NEWS, frames(2.0));
    assert_eq!(MATCH_NEWS, frames(99.0));
}

#[test]
fn horizon_is_three_tenths_down() {
    for y in [0u16, 1, 4, 17, 300] {
        for height in 0..2000u16 {
            let area = Rect { x: 0, y, width: 80, height };
            let h = y as f64 + (height as f64 * 0.30).max(4.0);
            assert_eq!(horizon(area), h.round() as i64);
        }
    }
}

#[test]
fn sky_is_blended_between_two_colors() {
    let lerp = |a: f64, b: f64, t: f64| a + (b - a) * t;
    for span in 1..300i64 {
        for down in 0..span {
            let t = down as f64 / span as f64;
            assert_eq!(
                sky_color(down, span),
                Color::Rgb(
                    lerp(7.0, 24.0, t) as u8,
                    lerp(10.0, 32.0, t) as u8,
                    lerp(22.0, 58.0, t) as u8,
                )
            );
        }
    }
    assert_eq!(sky_color(0, 9), Color::Rgb(7, 10, 22));
    assert_eq!(sky_color(8, 9), Color::Rgb(22, 29, 54));
}

#[test]
fn trail_fades_with_age() {
    for n in 1..=9usize {
        let ball = BallMarks {
            near: true,
            trail: (0..n).map(|i| Some((i as i64, 0))).collect(),
            shadow: None,
            at: None,
        };
        let mut dots: Vec<Dot> = Vec::new();
        paint_ball(&mut dots, &ball, true);
        assert_eq!(dots.len(), n + 2);
        for (k, i) in (0..n).rev().enumerate() {
            let fade = 1.0 - i as f64 / n as f64;
            let color = Color::Rgb((50.0 + 150.0 * fade) as u8, (80.0 + 165.0 * fade) as u8, 40);
            assert_eq!(dots[k].at, Some((i as i64, 0)));
            assert_eq!(dots[k].ch, if i % 2 == 0 { '·' } else { '∙' });
            assert_eq!(dots[k].style.fg, Some(color));
        }
    }
}

#[test]
fn headline_is_a_third_down() {
    for height in 8..400u16 {
        let area = Rect { x: 0, y: 0, width: 30, height };
        let mut buf = Buffer::empty(area);
        let mut g = Game::new();
        g.do_serve(0);
        g.flash("HELLO", Color::White, 9);
        let marks = ServeMarks { target: None, around: Vec::new(), bright: false };
        paint_hud(&mut buf, area, &g, &marks);
        let row = (height as f64 * 0.34) as u16;
        assert_eq!(buf[(12, row)].symbol(), "H");
        assert_eq!(buf[(16, row)].symbol(), "O");
    }
}
