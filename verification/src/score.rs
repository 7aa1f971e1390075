//! The score of a match and how it reads on the scoreboard.

use crate::style::{bad_color, good_color, info_color, rgb};
use crate::text::decimal;
use ratatui::style::Color;
use vstd::prelude::*;

verus! {

/// The number of games that wins the match.
pub const GAMES_TO_WIN: u8 = 3;

/// The score. Index 0 is the player, index 1 the computer.
pub struct Score {
    /// Points in the current game.
    pub pts: [u8; 2],
    /// Games won.
    pub games: [u8; 2],
    /// Who serves the current game.
    pub server: u8,
    /// Serves left for the current point.
    pub serves: u8,
}

/// A score as numbers without a bound.
pub struct ScoreView {
    pub pts: (nat, nat),
    pub games: (nat, nat),
    pub server: nat,
    pub serves: nat,
}

impl View for Score {
    type V = ScoreView;

    open spec fn view(&self) -> ScoreView {
        ScoreView {
            pts: (self.pts@[0] as nat, self.pts@[1] as nat),
            games: (self.games@[0] as nat, self.games@[1] as nat),
            server: self.server as nat,
            serves: self.serves as nat,
        }
    }
}

/// The entry of player `i`.
pub open spec fn of(p: (nat, nat), i: int) -> nat {
    if i == 0 {
        p.0
    } else {
        p.1
    }
}

/// One more for player `i`.
pub open spec fn bumped(p: (nat, nat), i: int) -> (nat, nat) {
    if i == 0 {
        (p.0 + 1, p.1)
    } else {
        (p.0, p.1 + 1)
    }
}

/// `mine` points against `theirs` win a game: at least four, and two ahead.
pub open spec fn wins_game(mine: nat, theirs: nat) -> bool {
    mine >= 4 && mine >= theirs + 2
}

impl ScoreView {
    /// A score that a match can show: the game is not decided, the match not won
    /// twice.
    pub open spec fn wf(self) -> bool {
        &&& self.server <= 1
        &&& 1 <= self.serves <= 2
        &&& self.games.0 <= GAMES_TO_WIN
        &&& self.games.1 <= GAMES_TO_WIN
        &&& !(self.games.0 == GAMES_TO_WIN && self.games.1 == GAMES_TO_WIN)
        &&& !wins_game(self.pts.0, self.pts.1)
        &&& !wins_game(self.pts.1, self.pts.0)
        &&& self.decided() ==> self.pts == (0nat, 0nat)
    }

    /// The player serves the first game, and the server changes with every game.
    pub open spec fn in_turn(self) -> bool {
        self.server == (self.games.0 + self.games.1) % 2
    }

    /// The score with the two players exchanged.
    pub open spec fn mirrored(self) -> ScoreView {
        ScoreView {
            pts: (self.pts.1, self.pts.0),
            games: (self.games.1, self.games.0),
            server: (1 - self.server) as nat,
            serves: self.serves,
        }
    }

    /// One of the two has won the match.
    pub open spec fn decided(self) -> bool {
        self.games.0 >= GAMES_TO_WIN || self.games.1 >= GAMES_TO_WIN
    }

    /// The next point would win player `i` the game.
    pub open spec fn game_point(self, i: int) -> bool {
        wins_game(of(self.pts, i) + 1, of(self.pts, 1 - i))
    }

    /// The score after a point for player `w`.
    pub open spec fn after_point(self, w: int) -> ScoreView {
        let pts = bumped(self.pts, w);
        if wins_game(of(pts, w), of(pts, 1 - w)) {
            ScoreView {
                pts: (0nat, 0nat),
                games: bumped(self.games, w),
                server: (1 - self.server) as nat,
                serves: 2,
            }
        } else {
            ScoreView { pts, serves: 2, ..self }
        }
    }

    /// A point for player `w` can still be counted in bytes.
    pub open spec fn has_room(self, w: int) -> bool {
        &&& of(self.pts, w) < 255
        &&& of(self.pts, w) >= 3 ==> of(self.pts, 1 - w) <= 253
        &&& self.game_point(w) ==> of(self.games, w) < 255 && self.server <= 1
    }
}

/// The name of a player.
pub open spec fn name_text(i: int) -> Seq<char> {
    if i == 0 {
        "YOU"@
    } else {
        "CPU"@
    }
}

/// The name of player `i`.
pub fn player_name(i: usize) -> (s: &'static str)
    ensures
        s@ == name_text(i as int),
{
    if i == 0 {
        "YOU"
    } else {
        "CPU"
    }
}

/// How `p` points are called.
pub open spec fn points_text(p: nat) -> Seq<char> {
    if p == 0 {
        "0"@
    } else if p == 1 {
        "15"@
    } else if p == 2 {
        "30"@
    } else {
        "40"@
    }
}

/// How one's own points are called against the other's: from three all on, only
/// who is ahead counts.
pub open spec fn label_text(me: nat, other: nat) -> Seq<char> {
    if me >= 3 && other >= 3 && me > other {
        "AD"@
    } else {
        points_text(me)
    }
}

/// How a number of points is called.
pub fn pt_str(p: u8) -> (s: &'static str)
    ensures
        s@ == points_text(p as nat),
{
    match p {
        0 => "0",
        1 => "15",
        2 => "30",
        _ => "40",
    }
}

/// How the points of one player are called against those of the other.
pub fn pt_label(me: u8, other: u8) -> (s: String)
    ensures
        s@ == label_text(me as nat, other as nat),
{
    if me >= 3 && other >= 3 {
        if me > other {
            "AD".to_owned()
        } else {
            "40".to_owned()
        }
    } else {
        pt_str(me).to_owned()
    }
}

/// One box for each game that wins the match, filled for those that are won.
pub open spec fn pips_text(won: nat) -> Seq<char> {
    Seq::new(
        GAMES_TO_WIN as nat,
        |i: int|
            if i < won {
                '■'
            } else {
                '□'
            },
    )
}

/// Draws the games won as boxes.
pub fn pips(won: u8) -> (s: String)
    ensures
        s@ == pips_text(won as nat),
{
    let mut s = String::new();
    let mut i: u8 = 0;
    while i < GAMES_TO_WIN
        invariant
            i <= GAMES_TO_WIN,
            s@ == pips_text(won as nat).take(i as int),
        decreases GAMES_TO_WIN - i,
    {
        proof {
            reveal_strlit("■");
            reveal_strlit("□");
        }
        if i < won {
            s.append("■");
        } else {
            s.append("□");
        }
        i = i + 1;
        assert(s@ =~= pips_text(won as nat).take(i as int));
    }
    assert(s@ =~= pips_text(won as nat));
    s
}

/// What is at stake for player `i` on a game point.
pub open spec fn stake_text(s: ScoreView, i: int) -> Seq<char> {
    if of(s.games, i) + 1 >= GAMES_TO_WIN {
        "MATCH POINT"@
    } else if s.server != i {
        "BREAK POINT"@
    } else {
        "GAME POINT"@
    }
}

/// What is at stake for player `i`, who has the advantage.
pub open spec fn advantage_text(s: ScoreView, i: int) -> Seq<char> {
    if of(s.games, i) + 1 >= GAMES_TO_WIN {
        "ADVANTAGE · MATCH POINT"@
    } else if s.server != i {
        "ADVANTAGE · BREAK POINT"@
    } else {
        "ADVANTAGE"@
    }
}

/// Both players have three points or more.
pub open spec fn past_forty_all(s: ScoreView) -> bool {
    s.pts.0 >= 3 && s.pts.1 >= 3
}

/// The player who has a game point, if one has.
pub open spec fn ahead(s: ScoreView) -> Option<int> {
    if s.game_point(0) {
        Some(0int)
    } else if s.game_point(1) {
        Some(1int)
    } else {
        None
    }
}

/// The line that tells where the game stands.
pub open spec fn situation_text(s: ScoreView) -> Seq<char> {
    match ahead(s) {
        Some(i) => (if past_forty_all(s) {
            advantage_text(s, i)
        } else {
            stake_text(s, i)
        }) + " — "@ + name_text(i),
        None => if past_forty_all(s) {
            "DEUCE"@
        } else {
            "GAME "@ + crate::text::digits(s.games.0 + s.games.1 + 1) + " OF "@
                + crate::text::digits((2 * GAMES_TO_WIN - 1) as nat) + " · "@ + name_text(
                s.server as int,
            ) + " SERVING"@
        },
    }
}

/// The colour of that line.
pub open spec fn situation_color(s: ScoreView) -> Color {
    match ahead(s) {
        Some(i) => if i == 0 {
            good_color()
        } else {
            bad_color()
        },
        None => if past_forty_all(s) {
            info_color()
        } else {
            rgb(120, 132, 160)
        },
    }
}

/// Tells where the game stands: a point that decides something and for whom, deuce,
/// or else which game is played and who serves.
pub fn situation(s: &Score) -> (r: (String, Color))
    requires
        s@.games.0 + s@.games.1 < 255,
    ensures
        r.0@ == situation_text(s@),
        r.1 == situation_color(s@),
{
    let a: u8 = s.pts[0];
    let b: u8 = s.pts[1];
    if a >= 3 && b >= 3 {
        if a == b {
            return ("DEUCE".to_owned(), info_color());
        }
        let i: usize = if a > b {
            0
        } else {
            1
        };
        let label = if s.games[i] + 1 >= GAMES_TO_WIN {
            "ADVANTAGE · MATCH POINT"
        } else if s.server as usize != i {
            "ADVANTAGE · BREAK POINT"
        } else {
            "ADVANTAGE"
        };
        let mut line = label.to_owned();
        line.append(" — ");
        line.append(player_name(i));
        let c = if i == 0 {
            good_color()
        } else {
            bad_color()
        };
        return (line, c);
    }
    let mut i: usize = 0;
    while i < 2
        invariant
            s@.games.0 + s@.games.1 < 255,
            i <= 2,
            !past_forty_all(s@),
            forall|k: int| 0 <= k < i ==> !s@.game_point(k),
        decreases 2 - i,
    {
        let j: usize = 1 - i;
        if s.pts[i] >= 3 && s.pts[i] > s.pts[j] {
            let label = if s.games[i] + 1 >= GAMES_TO_WIN {
                "MATCH POINT"
            } else if s.server as usize != i {
                "BREAK POINT"
            } else {
                "GAME POINT"
            };
            let mut line = label.to_owned();
            line.append(" — ");
            line.append(player_name(i));
            let c = if i == 0 {
                good_color()
            } else {
                bad_color()
            };
            assert(ahead(s@) == Some(i as int));
            return (line, c);
        }
        i = i + 1;
    }
    assert(!s@.game_point(0) && !s@.game_point(1));
    let mut line = "GAME ".to_owned();
    line.append(decimal((s.games[0] + s.games[1] + 1) as u64).as_str());
    line.append(" OF ");
    line.append(decimal((2 * GAMES_TO_WIN - 1) as u64).as_str());
    line.append(" · ");
    line.append(player_name(s.server as usize));
    line.append(" SERVING");
    (line, rgb(120, 132, 160))
}

} // verus!
