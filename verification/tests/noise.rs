use terminal_tennis::effects::{extend_trail, settle_dust, trail_due};
use terminal_tennis::game::Game;
use terminal_tennis::noise::{hash2, next_random};

#[test]
fn generator_follows_xorshift() {
    assert_eq!(next_random(0x9E3779B97F4A7C15), 0xdc1b77ae0bf34dad);
    assert_eq!(next_random(0xdc1b77ae0bf34dad), 0x64f0eeb9026e6076);
    assert_eq!(next_random(0), 0);
}

#[test]
fn draws_are_the_upper_bits() {
    let mut g = Game::new();
    assert_eq!(g.rnd(), 7744336963927657);
    assert_eq!(g.rnd(), 3551550720986572);
    assert_eq!(g.rnd(), 4328750740976140);
    assert_eq!(g.rng, 0x7b07ce91e5906136);
}

#[test]
fn draws_lie_between_zero_and_one() {
    let mut g = Game::new();
    for _ in 0..10_000 {
        let r = g.rnd() as f64 / (1u64 << 53) as f64;
        assert!((0.0..1.0).contains(&r));
        assert_ne!(g.rng, 0);
    }
}

#[test]
fn hash_scatters_positions() {
    assert_eq!(hash2(0, 0, 0), 0);
    assert_eq!(hash2(1, 2, 3), 11098117631027251444);
    assert_eq!(hash2(17, 4, 7), 2622386950605569122);
    assert_eq!(hash2(65535, 65535, u64::MAX), 10565637855907224314);
}

#[test]
fn corner_is_away_from_the_player() {
    let mut g = Game::new();
    let seed = g.rng;
    assert_eq!(g.serve_corner(true, false), -1);
    assert_eq!(g.serve_corner(false, true), 1);
    assert_eq!(g.rng, seed);
}

#[test]
fn corner_is_drawn_for_a_player_in_the_middle() {
    let mut g = Game::new();
    assert_eq!(g.serve_corner(false, false), 1);
    assert_eq!(g.serve_corner(false, false), -1);
    assert_eq!(g.serve_corner(false, false), -1);
    assert_eq!(g.rng, 0x7b07ce91e5906136);
}

#[test]
fn trail_keeps_the_latest_nine() {
    let mut trail: Vec<u32> = Vec::new();
    for i in 0..20 {
        extend_trail(&mut trail, i);
    }
    assert_eq!(trail, vec![19, 18, 17, 16, 15, 14, 13, 12, 11]);
    let mut short = vec![1];
    extend_trail(&mut short, 2);
    assert_eq!(short, vec![2, 1]);
}

#[test]
fn trail_grows_in_every_other_frame() {
    assert!(trail_due(0));
    assert!(!trail_due(1));
    assert!(trail_due(2));
}

#[test]
fn dust_drops_the_oldest_twenty() {
    let mut dust: Vec<u32> = (0..80).collect();
    settle_dust(&mut dust);
    assert_eq!(dust.len(), 80);
    dust.push(80);
    settle_dust(&mut dust);
    assert_eq!(dust, (20..81).collect::<Vec<u32>>());
}
