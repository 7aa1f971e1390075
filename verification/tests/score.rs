use ratatui::style::Color;
use terminal_tennis::score::{pips, pt_label, pt_str, situation, Score};
use terminal_tennis::text::{decimal, pad_left, spaces};

fn score(pts: [u8; 2], games: [u8; 2], server: u8) -> Score {
    Score {
        pts,
        games,
        server,
        serves: 2,
    }
}

const GOOD: Color = Color::Rgb(140, 255, 170);
const BAD: Color = Color::Rgb(255, 110, 110);
const INFO: Color = Color::Rgb(255, 230, 120);
const GREY: Color = Color::Rgb(120, 132, 160);

fn reads(s: Score, text: &str, color: Color) {
    let (t, c) = situation(&s);
    assert_eq!(t, text);
    assert_eq!(c, color);
}

#[test]
fn points_are_called_as_in_tennis() {
    assert_eq!(pt_str(0), "0");
    assert_eq!(pt_str(1), "15");
    assert_eq!(pt_str(2), "30");
    assert_eq!(pt_str(3), "40");
    assert_eq!(pt_str(4), "40");
    assert_eq!(pt_str(255), "40");
}

#[test]
fn labels_know_advantage() {
    assert_eq!(pt_label(0, 3), "0");
    assert_eq!(pt_label(1, 0), "15");
    assert_eq!(pt_label(3, 2), "40");
    assert_eq!(pt_label(3, 3), "40");
    assert_eq!(pt_label(4, 3), "AD");
    assert_eq!(pt_label(3, 4), "40");
    assert_eq!(pt_label(9, 9), "40");
    assert_eq!(pt_label(10, 9), "AD");
}

#[test]
fn pips_fill_from_the_left() {
    assert_eq!(pips(0), "□□□");
    assert_eq!(pips(1), "■□□");
    assert_eq!(pips(2), "■■□");
    assert_eq!(pips(3), "■■■");
    assert_eq!(pips(200), "■■■");
}

#[test]
fn situation_tells_the_game() {
    reads(score([0, 0], [0, 0], 0), "GAME 1 OF 5 · YOU SERVING", GREY);
    reads(score([2, 1], [1, 0], 1), "GAME 2 OF 5 · CPU SERVING", GREY);
    reads(score([2, 2], [2, 2], 0), "GAME 5 OF 5 · YOU SERVING", GREY);
}

#[test]
fn situation_tells_game_points() {
    reads(score([3, 0], [0, 0], 0), "GAME POINT — YOU", GOOD);
    reads(score([3, 0], [1, 0], 1), "BREAK POINT — YOU", GOOD);
    reads(score([2, 3], [0, 0], 0), "BREAK POINT — CPU", BAD);
    reads(score([2, 3], [0, 1], 1), "GAME POINT — CPU", BAD);
    reads(score([3, 1], [2, 0], 0), "MATCH POINT — YOU", GOOD);
    reads(score([0, 3], [1, 2], 1), "MATCH POINT — CPU", BAD);
}

#[test]
fn situation_tells_deuce_and_advantage() {
    reads(score([3, 3], [0, 0], 0), "DEUCE", INFO);
    reads(score([7, 7], [2, 2], 0), "DEUCE", INFO);
    reads(score([4, 3], [0, 0], 0), "ADVANTAGE — YOU", GOOD);
    reads(
        score([4, 3], [1, 0], 1),
        "ADVANTAGE · BREAK POINT — YOU",
        GOOD,
    );
    reads(
        score([5, 6], [0, 2], 0),
        "ADVANTAGE · MATCH POINT — CPU",
        BAD,
    );
    reads(score([3, 4], [0, 1], 1), "ADVANTAGE — CPU", BAD);
}

#[test]
fn numbers_are_written_in_decimal() {
    assert_eq!(decimal(0), "0");
    assert_eq!(decimal(7), "7");
    assert_eq!(decimal(10), "10");
    assert_eq!(decimal(90210), "90210");
    assert_eq!(decimal(u64::MAX), "18446744073709551615");
}

#[test]
fn texts_are_padded() {
    assert_eq!(spaces(0), "");
    assert_eq!(spaces(4), "    ");
    assert_eq!(pad_left("7", 3), "  7");
    assert_eq!(pad_left("117", 3), "117");
    assert_eq!(pad_left("2048", 3), "2048");
    assert_eq!(pad_left("■", 2), " ■");
}
