//! What the keys do.

use crate::game::{new_game, Game, GameView, Phase, KEY_HOLD_FRAMES};
use vstd::prelude::*;

verus! {

/// A key.
#[derive(Clone, Copy, Debug, PartialEq, Eq, Structural)]
pub enum Key {
    Left,
    Right,
    Up,
    Down,
    Esc,
    Char(char),
    Other,
}

/// What happened to a key.
#[derive(Clone, Copy, Debug, PartialEq, Eq, Structural)]
pub enum KeyKind {
    Press,
    Repeat,
    Release,
}

/// What is left to do after a key.
#[derive(Clone, Copy, Debug, PartialEq, Eq, Structural)]
pub enum Command {
    /// Nothing.
    Continue,
    /// The player serves.
    Serve,
    /// A new match has begun.
    Rematch,
    /// The program ends.
    Quit,
}

/// The direction along the baseline that a key stands for.
pub open spec fn across(key: Key) -> Option<int> {
    if key == Key::Left || key == Key::Char('a') {
        Some(-1int)
    } else if key == Key::Right || key == Key::Char('d') {
        Some(1int)
    } else {
        None
    }
}

/// The direction towards the net that a key stands for.
pub open spec fn along(key: Key) -> Option<int> {
    if key == Key::Up || key == Key::Char('w') {
        Some(1int)
    } else if key == Key::Down || key == Key::Char('s') {
        Some(-1int)
    } else {
        None
    }
}

/// What is left to do after a key.
pub open spec fn command(g: GameView, key: Key, kind: KeyKind, control: bool) -> Command {
    if kind == KeyKind::Release {
        Command::Continue
    } else if control && key == Key::Char('c') {
        Command::Quit
    } else if key == Key::Char('q') || key == Key::Esc {
        Command::Quit
    } else if key == Key::Char('r') {
        Command::Rematch
    } else if key == Key::Char(' ') && (g.phase matches Phase::Serve { server, wait } && server
        == 0) {
        Command::Serve
    } else {
        Command::Continue
    }
}

/// The state after a key was pressed or repeated.
pub open spec fn pressed(g: GameView, key: Key) -> GameView {
    match across(key) {
        Some(d) => GameView { dir: d, dir_ttl: KEY_HOLD_FRAMES as nat, ..g },
        None => match along(key) {
            Some(d) => GameView { vdir: d, vdir_ttl: KEY_HOLD_FRAMES as nat, ..g },
            None => if key == Key::Char('p') {
                GameView { paused: !g.paused, ..g }
            } else if key == Key::Char('r') {
                new_game()
            } else {
                g
            },
        },
    }
}

/// The state after a key was released: a direction ends if it is the one that the
/// key stands for.
pub open spec fn released(g: GameView, key: Key) -> GameView {
    if across(key) == Some(g.dir) {
        GameView { dir: 0, dir_ttl: 0, ..g }
    } else if along(key) == Some(g.vdir) {
        GameView { vdir: 0, vdir_ttl: 0, ..g }
    } else {
        g
    }
}

/// The state after a key.
pub open spec fn keyed(g: GameView, key: Key, kind: KeyKind) -> GameView {
    if kind == KeyKind::Release {
        released(g, key)
    } else {
        pressed(g, key)
    }
}

impl Game {
    /// Handles a key.
    pub fn on_key(&mut self, key: Key, kind: KeyKind, control: bool) -> (c: Command)
        ensures
            c == command(old(self)@, key, kind, control),
            final(self)@ == keyed(old(self)@, key, kind),
            old(self)@.wf() ==> final(self)@.wf(),
    {
        match kind {
            KeyKind::Press | KeyKind::Repeat => {
                if control && key == Key::Char('c') {
                    return Command::Quit;
                }
                match key {
                    Key::Left | Key::Char('a') => {
                        self.dir = -1;
                        self.dir_ttl = KEY_HOLD_FRAMES;
                    },
                    Key::Right | Key::Char('d') => {
                        self.dir = 1;
                        self.dir_ttl = KEY_HOLD_FRAMES;
                    },
                    Key::Up | Key::Char('w') => {
                        self.vdir = 1;
                        self.vdir_ttl = KEY_HOLD_FRAMES;
                    },
                    Key::Down | Key::Char('s') => {
                        self.vdir = -1;
                        self.vdir_ttl = KEY_HOLD_FRAMES;
                    },
                    Key::Char(' ') => {
                        if let Phase::Serve { server, wait } = self.phase {
                            if server == 0 {
                                return Command::Serve;
                            }
                        }
                    },
                    Key::Char('p') => {
                        self.paused = !self.paused;
                    },
                    Key::Char('r') => {
                        *self = Game::new();
                        return Command::Rematch;
                    },
                    Key::Char('q') | Key::Esc => {
                        return Command::Quit;
                    },
                    _ => {},
                }
            },
            KeyKind::Release => match key {
                Key::Left | Key::Char('a') => {
                    if self.dir == -1 {
                        self.dir = 0;
                        self.dir_ttl = 0;
                    }
                },
                Key::Right | Key::Char('d') => {
                    if self.dir == 1 {
                        self.dir = 0;
                        self.dir_ttl = 0;
                    }
                },
                Key::Up | Key::Char('w') => {
                    if self.vdir == 1 {
                        self.vdir = 0;
                        self.vdir_ttl = 0;
                    }
                },
                Key::Down | Key::Char('s') => {
                    if self.vdir == -1 {
                        self.vdir = 0;
                        self.vdir_ttl = 0;
                    }
                },
                _ => {},
            },
        }
        Command::Continue
    }
}

} // verus!
