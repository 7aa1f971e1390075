use terminal_tennis::game::{Game, Phase, KEY_HOLD_FRAMES};
use terminal_tennis::keys::{Command, Key, KeyKind};

fn press(g: &mut Game, key: Key) -> Command {
    g.on_key(key, KeyKind::Press, false)
}

fn release(g: &mut Game, key: Key) -> Command {
    g.on_key(key, KeyKind::Release, false)
}

#[test]
fn direction_keys_set_directions() {
    let mut g = Game::new();
    for (key, dir) in [
        (Key::Left, -1),
        (Key::Char('a'), -1),
        (Key::Right, 1),
        (Key::Char('d'), 1),
    ] {
        assert_eq!(press(&mut g, key), Command::Continue);
        assert_eq!((g.dir, g.dir_ttl), (dir, KEY_HOLD_FRAMES));
    }
    for (key, vdir) in [
        (Key::Up, 1),
        (Key::Char('w'), 1),
        (Key::Down, -1),
        (Key::Char('s'), -1),
    ] {
        assert_eq!(press(&mut g, key), Command::Continue);
        assert_eq!((g.vdir, g.vdir_ttl), (vdir, KEY_HOLD_FRAMES));
    }
}

#[test]
fn direction_is_held_for_half_a_second() {
    let mut g = Game::new();
    press(&mut g, Key::Left);
    press(&mut g, Key::Up);
    for _ in 0..30 {
        g.step();
        assert_eq!((g.dir, g.vdir), (-1, 1));
    }
    g.step();
    assert_eq!((g.dir, g.vdir), (0, 0));
}

#[test]
fn repeats_keep_a_direction_alive() {
    let mut g = Game::new();
    press(&mut g, Key::Right);
    for _ in 0..100 {
        g.step();
        g.on_key(Key::Right, KeyKind::Repeat, false);
        assert_eq!(g.dir, 1);
    }
}

#[test]
fn release_ends_its_own_direction_only() {
    let mut g = Game::new();
    press(&mut g, Key::Left);
    release(&mut g, Key::Right);
    assert_eq!(g.dir, -1);
    release(&mut g, Key::Char('a'));
    assert_eq!((g.dir, g.dir_ttl), (0, 0));
    press(&mut g, Key::Up);
    release(&mut g, Key::Down);
    assert_eq!(g.vdir, 1);
    release(&mut g, Key::Char('w'));
    assert_eq!((g.vdir, g.vdir_ttl), (0, 0));
}

#[test]
fn space_serves_only_for_the_player() {
    let mut g = Game::new();
    assert_eq!(press(&mut g, Key::Char(' ')), Command::Serve);
    g.do_serve(0);
    assert_eq!(press(&mut g, Key::Char(' ')), Command::Continue);
    for _ in 0..4 {
        g.award(0, "GIFT");
        while let Phase::Point(_) = g.phase {
            g.tick_point::<()>(&mut Vec::new());
        }
    }
    assert_eq!(g.phase, Phase::Serve { server: 1, wait: 55 });
    assert_eq!(press(&mut g, Key::Char(' ')), Command::Continue);
}

#[test]
fn p_pauses_and_resumes() {
    let mut g = Game::new();
    press(&mut g, Key::Char('p'));
    assert!(g.paused);
    press(&mut g, Key::Char('p'));
    assert!(!g.paused);
}

#[test]
fn r_starts_a_new_match() {
    let mut g = Game::new();
    g.do_serve(0);
    g.award(0, "GIFT");
    g.step();
    assert_eq!(press(&mut g, Key::Char('r')), Command::Rematch);
    assert_eq!(g.score.pts, [0, 0]);
    assert_eq!(g.frame, 0);
    assert!(g.msg.is_none() && g.sub.is_none());
    assert!(matches!(g.phase, Phase::Serve { server: 0, wait: 55 }));
}

#[test]
fn quitting_takes_q_escape_or_control_c() {
    let mut g = Game::new();
    assert_eq!(press(&mut g, Key::Char('q')), Command::Quit);
    assert_eq!(press(&mut g, Key::Esc), Command::Quit);
    assert_eq!(press(&mut g, Key::Char('c')), Command::Continue);
    assert_eq!(g.on_key(Key::Char('c'), KeyKind::Press, true), Command::Quit);
    assert_eq!(g.on_key(Key::Char('c'), KeyKind::Release, true), Command::Continue);
    assert_eq!(release(&mut g, Key::Char('q')), Command::Continue);
    assert_eq!(press(&mut g, Key::Other), Command::Continue);
}
