//! The rules of play: serves, bounces, points and games.
//!
//! The flight of the ball is computed elsewhere; what the rules need to know of it
//! reaches a [`Game`] as plain facts ([`Flight`], [`Landing`]). Time is counted in
//! frames of a sixtieth of a second: a time in seconds is given as the frames that a
//! countdown in single precision takes to reach zero, which may be one more than the
//! exact quotient.

use crate::effects::{extend_trail, extended, trail_due};
use crate::noise::{next_random, xorshift};
use crate::score::{of, player_name, pt_str, Score, ScoreView, GAMES_TO_WIN};
use crate::style::{bad_color, good_color, info_color};
use crate::text::decimal;
use ratatui::style::Color;
use vstd::prelude::*;

verus! {

/// Frames for which a direction stays live after the last press or repeat of its
/// key. Some terminals never report that a key was released; half a second bridges
/// the delay before a held key repeats.
pub const KEY_HOLD_FRAMES: u8 = 30;

/// Frames before the computer serves: 0.9 s.
pub const SERVE_WAIT: u16 = 55;

/// Frames between a point and the next serve: 1.7 s.
pub const POINT_PAUSE: u16 = 103;

/// Frames between a fault and the second serve: 0.9 s.
pub const FAULT_PAUSE: u16 = 55;

/// Frames for which a net cord is announced: 0.7 s.
pub const NET_CORD_NEWS: u16 = 42;

/// Frames for which a fault is announced: 1.0 s.
pub const FAULT_NEWS: u16 = 61;

/// Frames for which the end of a point is announced: 1.6 s.
pub const POINT_NEWS: u16 = 97;

/// Frames for which the new score is announced: 2.0 s.
pub const SCORE_NEWS: u16 = 121;

/// Frames for which the end of the match is announced: 99 s.
pub const MATCH_NEWS: u16 = 5940;

/// What the match is doing.
#[derive(Clone, Copy, Debug, PartialEq, Eq, Structural)]
pub enum Phase {
    /// `server` is about to serve; the computer does so after `wait` frames.
    Serve { server: u8, wait: u16 },
    /// The ball is in play.
    Rally,
    /// The point is over; the next serve is this many frames away.
    Point(u16),
    /// The match is over.
    Over,
}

/// A headline and the frames that are left of it.
pub struct Message {
    pub text: String,
    pub color: Color,
    pub left: u16,
}

/// The line below the headline and the frames that are left of it.
pub struct Subtitle {
    pub text: String,
    pub left: u16,
}

/// A headline as it reads.
pub struct MessageView {
    pub text: Seq<char>,
    pub color: Color,
    pub left: nat,
}

/// The line below a headline as it reads.
pub struct SubtitleView {
    pub text: Seq<char>,
    pub left: nat,
}

impl View for Message {
    type V = MessageView;

    open spec fn view(&self) -> MessageView {
        MessageView { text: self.text@, color: self.color, left: self.left as nat }
    }
}

impl View for Subtitle {
    type V = SubtitleView;

    open spec fn view(&self) -> SubtitleView {
        SubtitleView { text: self.text@, left: self.left as nat }
    }
}

/// A match. Index 0 is the player, index 1 the computer.
pub struct Game {
    /// The direction along the baseline: -1, 0 or 1.
    pub dir: i8,
    /// The direction towards the net: -1, 0 or 1.
    pub vdir: i8,
    pub phase: Phase,
    pub score: Score,
    /// The ball is on its way.
    pub ball_live: bool,
    /// Who hit last; 2 is nobody.
    pub last_hitter: u8,
    /// Bounces since the last hit.
    pub bounces: u8,
    /// The last hit was a serve.
    pub is_serve: bool,
    /// The ball has touched the net since the last hit.
    pub net_touched: bool,
    /// Strokes since the serve.
    pub rally: u32,
    pub msg: Option<Message>,
    pub sub: Option<Subtitle>,
    pub frame: u64,
    pub rng: u64,
    pub paused: bool,
    /// Frames that `dir` has left.
    pub dir_ttl: u8,
    /// Frames that `vdir` has left.
    pub vdir_ttl: u8,
}

/// A match as a mathematical value.
pub struct GameView {
    pub dir: int,
    pub vdir: int,
    pub phase: Phase,
    pub score: ScoreView,
    pub ball_live: bool,
    pub last_hitter: nat,
    pub bounces: nat,
    pub is_serve: bool,
    pub net_touched: bool,
    pub rally: nat,
    pub msg: Option<MessageView>,
    pub sub: Option<SubtitleView>,
    pub frame: nat,
    pub rng: u64,
    pub paused: bool,
    pub dir_ttl: nat,
    pub vdir_ttl: nat,
}

impl View for Game {
    type V = GameView;

    open spec fn view(&self) -> GameView {
        GameView {
            dir: self.dir as int,
            vdir: self.vdir as int,
            phase: self.phase,
            score: self.score@,
            ball_live: self.ball_live,
            last_hitter: self.last_hitter as nat,
            bounces: self.bounces as nat,
            is_serve: self.is_serve,
            net_touched: self.net_touched,
            rally: self.rally as nat,
            msg: match self.msg {
                Some(m) => Some(m@),
                None => None,
            },
            sub: match self.sub {
                Some(m) => Some(m@),
                None => None,
            },
            frame: self.frame as nat,
            rng: self.rng,
            paused: self.paused,
            dir_ttl: self.dir_ttl as nat,
            vdir_ttl: self.vdir_ttl as nat,
        }
    }
}

/// How the ball met the net.
#[derive(Clone, Copy, Debug, PartialEq, Eq, Structural)]
pub enum NetContact {
    /// Not at all.
    Clear,
    /// It clipped the tape.
    Tape,
    /// It flew into the mesh.
    Mesh,
}

impl NetContact {
    /// How the ball meets the net that it crosses: below the top of it and between the
    /// posts, close to the top or not.
    pub open spec fn from_crossing(low: bool, between_posts: bool, near_top: bool) -> NetContact {
        if low && between_posts {
            if near_top {
                NetContact::Tape
            } else {
                NetContact::Mesh
            }
        } else {
            NetContact::Clear
        }
    }

    /// How the ball meets the net that it crosses.
    pub fn of_crossing(low: bool, between_posts: bool, near_top: bool) -> (c: NetContact)
        ensures
            c == NetContact::from_crossing(low, between_posts, near_top),
    {
        if low && between_posts {
            if near_top {
                NetContact::Tape
            } else {
                NetContact::Mesh
            }
        } else {
            NetContact::Clear
        }
    }
}

/// Where the ball bounced.
#[derive(Clone, Copy)]
pub struct Landing {
    /// On the player's side of the net.
    pub near_side: bool,
    /// Inside the singles court.
    pub in_bounds: bool,
}

/// What happened to the ball during one frame.
#[derive(Clone, Copy)]
pub struct Flight {
    pub net: NetContact,
    /// The bounce, if the ball came down.
    pub landing: Option<Landing>,
    /// The ball has left the surroundings of the court.
    pub away: bool,
}

/// The ruling on a bounce.
pub enum Call {
    InPlay,
    Fault,
    Point { winner: int, what: Seq<char> },
}

/// What the motion of one frame has brought.
#[derive(Clone, Copy)]
pub struct Motion {
    pub flight: Flight,
    /// The player can reach the ball.
    pub you_reach: bool,
    /// The computer can reach the ball.
    pub cpu_reach: bool,
}

/// What the ball does next, by the rules.
#[derive(Clone, Copy, Debug, PartialEq, Eq, Structural)]
pub enum Deed {
    /// It goes on as before.
    Nothing,
    /// The computer has served it.
    Serve,
    /// One of the two has hit it.
    Stroke { who: u8 },
    /// It comes to rest for the next serve.
    Rest,
}

/// The work that a frame asks of whoever moves the ball and the players.
#[derive(Clone, Copy, Debug, PartialEq, Eq, Structural)]
pub enum Stage {
    /// Nothing moves.
    Paused,
    /// The players take position and the server holds the ball.
    Serve { server: u8 },
    /// Everything moves.
    Rally,
    /// Only the ball moves.
    Point,
    /// Only the ball moves.
    Over,
}

impl GameView {
    /// The states that a match can be in.
    pub open spec fn wf(self) -> bool {
        &&& self.score.wf()
        &&& self.phase is Over <==> self.score.decided()
        &&& self.phase matches Phase::Serve { server, wait } ==> server == self.score.server
            && wait <= SERVE_WAIT && !self.ball_live
        &&& self.phase matches Phase::Point(left) ==> 1 <= left <= POINT_PAUSE
        &&& self.phase is Rally ==> self.ball_live && self.last_hitter <= 1 && self.bounces <= 1
        &&& self.last_hitter <= 2
        &&& -1 <= self.dir <= 1
        &&& -1 <= self.vdir <= 1
        &&& self.dir_ttl <= KEY_HOLD_FRAMES
        &&& self.vdir_ttl <= KEY_HOLD_FRAMES
        &&& self.rng != 0
    }

    /// The state before the next serve.
    pub open spec fn before_serve(self) -> GameView {
        GameView {
            phase: Phase::Serve { server: self.score.server as u8, wait: SERVE_WAIT },
            ball_live: false,
            bounces: 0,
            net_touched: false,
            is_serve: false,
            last_hitter: 2,
            rally: 0,
            ..self
        }
    }

    /// The corner that the computer serves to.
    pub open spec fn corner(self, stands_right: bool, stands_left: bool) -> int {
        if stands_right {
            -1
        } else if stands_left {
            1
        } else if xorshift(self.rng) >> 11 < 0x10_0000_0000_0000 {
            -1
        } else {
            1
        }
    }

    /// The state after `server` has served.
    pub open spec fn served(self, server: nat) -> GameView {
        GameView {
            ball_live: true,
            is_serve: true,
            last_hitter: server,
            bounces: 0,
            net_touched: false,
            phase: Phase::Rally,
            ..self
        }
    }

    /// The state after a stroke of `who`.
    pub open spec fn stroked(self, who: nat) -> GameView {
        GameView {
            last_hitter: who,
            bounces: 0,
            net_touched: false,
            is_serve: false,
            rally: self.rally + 1,
            ..self
        }
    }

    /// `who` is allowed to play the ball: it comes from the other side and has
    /// bounced.
    pub open spec fn may_hit(self, who: nat) -> bool {
        self.ball_live && self.last_hitter != who && self.bounces >= 1
    }

    /// The state after a point for `w`, won by `what`.
    pub open spec fn awarded(self, w: int, what: Seq<char>) -> GameView {
        let score = self.score.after_point(w);
        let color = if w == 0 {
            good_color()
        } else {
            bad_color()
        };
        if self.score.game_point(w) && of(score.games, w) >= GAMES_TO_WIN {
            GameView {
                score,
                msg: Some(MessageView { text: match_text(w), color, left: MATCH_NEWS as nat }),
                sub: Some(SubtitleView { text: Seq::empty(), left: SCORE_NEWS as nat }),
                phase: Phase::Over,
                ..self
            }
        } else {
            GameView {
                score,
                msg: Some(MessageView { text: what, color, left: POINT_NEWS as nat }),
                sub: Some(
                    SubtitleView {
                        text: if self.score.game_point(w) {
                            games_text(score.games)
                        } else {
                            standing_text(score.pts)
                        },
                        left: SCORE_NEWS as nat,
                    },
                ),
                phase: Phase::Point(POINT_PAUSE),
                ..self
            }
        }
    }

    /// The bounce is on the side of whoever hit last.
    pub open spec fn own_side(self, l: Landing) -> bool {
        (self.last_hitter == 0 && l.near_side) || (self.last_hitter == 1 && !l.near_side)
    }

    /// The ruling on a bounce during a rally. A second bounce wins the point for the
    /// last hitter; a first one that is out or on the hitter's own side loses it,
    /// unless it was the first of two serves.
    pub open spec fn ruling(self, l: Landing) -> Call {
        let hitter = self.last_hitter as int;
        if self.bounces >= 1 {
            Call::Point {
                winner: hitter,
                what: if self.is_serve {
                    "ACE!"@
                } else {
                    "WINNER!"@
                },
            }
        } else if !self.own_side(l) && l.in_bounds {
            Call::InPlay
        } else if self.is_serve && self.score.serves >= 2 {
            Call::Fault
        } else {
            Call::Point {
                winner: 1 - hitter,
                what: if self.is_serve {
                    "DOUBLE FAULT"@
                } else if self.own_side(l) {
                    "NET!"@
                } else {
                    "OUT!"@
                },
            }
        }
    }

    /// A bounce can be ruled on: the counters have room for what it brings, and if it
    /// brings a point, one of the two has hit the ball.
    pub open spec fn rulable(self, l: Landing) -> bool {
        &&& self.bounces < 255
        &&& self.ruling(l) matches Call::Point { winner, what } ==> {
            &&& self.last_hitter <= 1
            &&& self.score.has_room(winner)
            &&& self.bounces == 0 && self.is_serve ==> self.score.serves >= 1
        }
    }

    /// The state after a bounce.
    pub open spec fn landed(self, l: Landing) -> GameView {
        if self.phase != Phase::Rally {
            self
        } else {
            let bounced = GameView { bounces: self.bounces + 1, ..self };
            match self.ruling(l) {
                Call::InPlay => bounced,
                Call::Fault => GameView {
                    score: ScoreView { serves: (self.score.serves - 1) as nat, ..self.score },
                    msg: Some(
                        MessageView {
                            text: "FAULT"@,
                            color: info_color(),
                            left: FAULT_NEWS as nat,
                        },
                    ),
                    phase: Phase::Point(FAULT_PAUSE),
                    ..bounced
                },
                Call::Point { winner, what } => bounced.awarded(winner, what),
            }
        }
    }

    /// The state after the ball met the net, or not.
    pub open spec fn netted(self, net: NetContact) -> GameView {
        match net {
            NetContact::Clear => self,
            NetContact::Mesh => GameView { net_touched: true, ..self },
            NetContact::Tape => GameView {
                net_touched: true,
                msg: if self.phase == Phase::Rally {
                    Some(
                        MessageView {
                            text: "NET CORD!"@,
                            color: info_color(),
                            left: NET_CORD_NEWS as nat,
                        },
                    )
                } else {
                    self.msg
                },
                ..self
            },
        }
    }

    /// Who wins a point that whoever hit last has lost.
    pub open spec fn other_side(self) -> int {
        if self.last_hitter == 0 {
            1
        } else {
            0
        }
    }

    /// The state after the ball left the surroundings of the court: whoever hit last
    /// loses the point.
    pub open spec fn strayed(self) -> GameView {
        if self.phase == Phase::Rally {
            self.awarded(self.other_side(), "OUT!"@)
        } else {
            self
        }
    }

    /// The state after one frame of flight: net, bounce and surroundings, in this
    /// order.
    pub open spec fn flown(self, f: Flight) -> GameView {
        if !self.ball_live {
            self
        } else {
            let a = self.netted(f.net);
            let b = match f.landing {
                Some(l) => a.landed(l),
                None => a,
            };
            if f.away {
                b.strayed()
            } else {
                b
            }
        }
    }

    /// Who wins a point by this frame of flight.
    pub open spec fn flight_winner(self, f: Flight) -> Option<int> {
        if !self.ball_live || self.phase != Phase::Rally {
            None
        } else {
            let call = match f.landing {
                Some(l) => self.ruling(l),
                None => Call::InPlay,
            };
            match call {
                Call::Point { winner, what } => Some(winner),
                Call::Fault => None,
                Call::InPlay => if f.away {
                    Some(self.other_side())
                } else {
                    None
                },
            }
        }
    }

    /// One frame of flight can be ruled on.
    pub open spec fn flyable(self, f: Flight) -> bool {
        self.ball_live && self.phase == Phase::Rally ==> {
            &&& f.landing matches Some(l) ==> self.rulable(l)
            &&& self.flight_winner(f) matches Some(w) ==> self.score.has_room(w)
        }
    }

    /// The trail of the ball after one frame of flight to `at`: it is extended in every
    /// other frame.
    pub open spec fn trailed<T>(self, trail: Seq<T>, at: T) -> Seq<T> {
        if self.ball_live && self.frame % 2 == 0 {
            extended(trail, at)
        } else {
            trail
        }
    }

    /// A direction and the frames that it has left, one frame later.
    pub open spec fn held(dir: int, ttl: nat) -> (int, nat) {
        if ttl > 0 {
            (dir, (ttl - 1) as nat)
        } else {
            (0, 0)
        }
    }

    /// The state after the counters of a frame have run.
    pub open spec fn stepped(self) -> GameView {
        let next = GameView { frame: self.frame + 1, ..self };
        if self.paused {
            next
        } else {
            let (dir, dir_ttl) = Self::held(self.dir, self.dir_ttl);
            let (vdir, vdir_ttl) = Self::held(self.vdir, self.vdir_ttl);
            GameView {
                dir,
                dir_ttl,
                vdir,
                vdir_ttl,
                msg: match self.msg {
                    Some(m) => if m.left > 1 {
                        Some(MessageView { left: (m.left - 1) as nat, ..m })
                    } else {
                        None
                    },
                    None => None,
                },
                sub: match self.sub {
                    Some(m) => if m.left > 1 {
                        Some(SubtitleView { left: (m.left - 1) as nat, ..m })
                    } else {
                        None
                    },
                    None => None,
                },
                ..next
            }
        }
    }

    /// The state one frame closer to the computer's serve.
    pub open spec fn serve_ticked(self) -> GameView {
        match self.phase {
            Phase::Serve { server, wait } => GameView {
                phase: Phase::Serve {
                    server,
                    wait: if wait > 0 {
                        (wait - 1) as u16
                    } else {
                        0
                    },
                },
                ..self
            },
            _ => self,
        }
    }

    /// The computer serves in this frame.
    pub open spec fn serve_due(self) -> bool {
        self.phase matches Phase::Serve { server, wait } && server == 1 && wait <= 1
    }

    /// The state one frame closer to the next serve.
    pub open spec fn point_ticked(self) -> GameView {
        match self.phase {
            Phase::Point(left) => if left > 1 {
                GameView { phase: Phase::Point((left - 1) as u16), ..self }
            } else {
                self.before_serve()
            },
            _ => self,
        }
    }

    /// Who plays the ball, given who can reach it.
    pub open spec fn hitter(self, you_reach: bool, cpu_reach: bool) -> Option<u8> {
        if you_reach && self.may_hit(0) {
            Some(0u8)
        } else if cpu_reach && self.may_hit(1) {
            Some(1u8)
        } else {
            None
        }
    }

    /// What the ball does next after the motion of a frame.
    pub open spec fn deed(self, m: Motion) -> Deed {
        match self.stage() {
            Stage::Serve { server } => if self.serve_due() {
                Deed::Serve
            } else {
                Deed::Nothing
            },
            Stage::Rally => match self.flown(m.flight).hitter(m.you_reach, m.cpu_reach) {
                Some(who) => Deed::Stroke { who },
                None => Deed::Nothing,
            },
            Stage::Point => if self.phase matches Phase::Point(left) && left <= 1 {
                Deed::Rest
            } else {
                Deed::Nothing
            },
            _ => Deed::Nothing,
        }
    }

    /// The state after the motion of a frame: the wait for a serve goes on or ends in it,
    /// the ball is ruled on and may then be hit, the pause after a point goes on or ends.
    pub open spec fn moved(self, m: Motion) -> GameView {
        match self.stage() {
            Stage::Paused => self,
            Stage::Serve { server } => if self.serve_due() {
                self.serve_ticked().served(1)
            } else {
                self.serve_ticked()
            },
            Stage::Rally => {
                let flown = self.flown(m.flight);
                match flown.hitter(m.you_reach, m.cpu_reach) {
                    Some(who) => flown.stroked(who as nat),
                    None => flown,
                }
            },
            Stage::Point => self.flown(m.flight).point_ticked(),
            Stage::Over => self.flown(m.flight),
        }
    }

    /// The trail of the ball after the motion of a frame to `at`. It is empty when the ball
    /// comes to rest.
    pub open spec fn trail_moved<T>(self, m: Motion, trail: Seq<T>, at: T) -> Seq<T> {
        match self.stage() {
            Stage::Paused => trail,
            Stage::Serve { server } => trail,
            _ => if self.deed(m) is Rest {
                Seq::empty()
            } else {
                self.trailed(trail, at)
            },
        }
    }

    /// The state after a whole frame: the counters, then the motion.
    pub open spec fn after_frame(self, m: Motion) -> GameView {
        self.stepped().moved(m)
    }

    /// The work that the frame asks for.
    pub open spec fn stage(self) -> Stage {
        if self.paused {
            Stage::Paused
        } else {
            match self.phase {
                Phase::Serve { server, wait } => Stage::Serve { server },
                Phase::Rally => Stage::Rally,
                Phase::Point(left) => Stage::Point,
                Phase::Over => Stage::Over,
            }
        }
    }
}

/// A match that begins.
pub open spec fn new_game() -> GameView {
    GameView {
        dir: 0,
        vdir: 0,
        phase: Phase::Serve { server: 0, wait: SERVE_WAIT },
        score: ScoreView { pts: (0nat, 0nat), games: (0nat, 0nat), server: 0, serves: 2 },
        ball_live: false,
        last_hitter: 2,
        bounces: 0,
        is_serve: false,
        net_touched: false,
        rally: 0,
        msg: None,
        sub: None,
        frame: 0,
        rng: 0x9E3779B97F4A7C15,
        paused: false,
        dir_ttl: 0,
        vdir_ttl: 0,
    }
}

/// The headline at the end of the match.
pub open spec fn match_text(w: int) -> Seq<char> {
    if w == 0 {
        "GAME, SET & MATCH — YOU!"@
    } else {
        "GAME, SET & MATCH — CPU"@
    }
}

/// The announcement of a game won.
pub open spec fn games_text(games: (nat, nat)) -> Seq<char> {
    "GAME  ·  "@ + crate::text::digits(games.0) + "–"@ + crate::text::digits(games.1)
}

/// The announcement of the points.
pub open spec fn standing_text(pts: (nat, nat)) -> Seq<char> {
    if pts.0 >= 3 && pts.1 >= 3 {
        if pts.0 == pts.1 {
            "DEUCE"@
        } else {
            "ADVANTAGE "@ + crate::score::name_text(
                if pts.0 > pts.1 {
                    0
                } else {
                    1
                },
            )
        }
    } else {
        crate::score::points_text(pts.0) + " – "@ + crate::score::points_text(pts.1)
    }
}

impl Game {
    /// A match that begins: the player serves.
    pub fn new() -> (g: Game)
        ensures
            g@ == new_game(),
            g@.wf(),
    {
        let mut g = Game {
            dir: 0,
            vdir: 0,
            phase: Phase::Serve { server: 0, wait: SERVE_WAIT },
            score: Score { pts: [0, 0], games: [0, 0], server: 0, serves: 2 },
            ball_live: false,
            last_hitter: 2,
            bounces: 0,
            is_serve: false,
            net_touched: false,
            rally: 0,
            msg: None,
            sub: None,
            frame: 0,
            rng: 0x9E3779B97F4A7C15,
            paused: false,
            dir_ttl: 0,
            vdir_ttl: 0,
        };
        let mut trail: Vec<()> = Vec::new();
        g.begin_serve(&mut trail);
        g
    }

    /// Draws a random number of 53 bits.
    pub fn rnd(&mut self) -> (r: u64)
        ensures
            r == xorshift(old(self)@.rng) >> 11,
            r < 0x20_0000_0000_0000,
            final(self)@ == (GameView { rng: xorshift(old(self)@.rng), ..old(self)@ }),
            old(self)@.wf() ==> final(self)@.wf(),
    {
        let x: u64 = next_random(self.rng);
        proof {
            if self.rng != 0 {
                crate::noise::law_random_never_zero(self.rng);
            }
            crate::noise::law_draw_below_one(x);
        }
        self.rng = x;
        x >> 11
    }

    /// The corner that the computer serves to: away from where the player stands, and
    /// either one, by chance, if that is the middle.
    pub fn serve_corner(&mut self, stands_right: bool, stands_left: bool) -> (corner: i8)
        ensures
            corner == old(self)@.corner(stands_right, stands_left),
            final(self)@ == (if stands_right || stands_left {
                old(self)@
            } else {
                GameView { rng: xorshift(old(self)@.rng), ..old(self)@ }
            }),
            old(self)@.wf() ==> final(self)@.wf(),
    {
        if stands_right {
            -1
        } else if stands_left {
            1
        } else if self.rnd() < 0x10_0000_0000_0000 {
            -1
        } else {
            1
        }
    }

    /// Whether the computer runs for the ball, which flies towards the far side or not.
    pub fn incoming(&self, flies_away: bool) -> (r: bool)
        ensures
            r == (self@.ball_live && flies_away && self@.last_hitter != 1),
    {
        self.ball_live && flies_away && self.last_hitter != 1
    }

    /// Shows a headline for `frames` frames.
    pub fn flash(&mut self, text: &str, color: Color, frames: u16)
        ensures
            final(self)@ == (GameView {
                msg: Some(MessageView { text: text@, color, left: frames as nat }),
                ..old(self)@
            }),
            old(self)@.wf() ==> final(self)@.wf(),
    {
        self.msg = Some(Message { text: text.to_owned(), color, left: frames });
    }

    /// Gets ready for the next serve; the ball leaves no trail.
    pub fn begin_serve<T>(&mut self, trail: &mut Vec<T>)
        ensures
            final(self)@ == old(self)@.before_serve(),
            final(trail)@ == Seq::<T>::empty(),
            old(self)@.wf() && !(old(self)@.phase is Over) ==> final(self)@.wf(),
    {
        self.phase = Phase::Serve { server: self.score.server, wait: SERVE_WAIT };
        self.ball_live = false;
        trail.clear();
        self.bounces = 0;
        self.net_touched = false;
        self.is_serve = false;
        self.last_hitter = 2;
        self.rally = 0;
    }

    /// Puts the ball into play by a serve.
    pub fn do_serve(&mut self, server: u8)
        ensures
            final(self)@ == old(self)@.served(server as nat),
            old(self)@.wf() && !(old(self)@.phase is Over) && server <= 1 ==> final(self)@.wf(),
    {
        self.ball_live = true;
        self.is_serve = true;
        self.last_hitter = server;
        self.bounces = 0;
        self.net_touched = false;
        self.phase = Phase::Rally;
    }

    /// Counts a stroke.
    pub fn stroke(&mut self, who: u8)
        requires
            old(self).rally < u32::MAX,
        ensures
            final(self)@ == old(self)@.stroked(who as nat),
            old(self)@.wf() && who <= 1 ==> final(self)@.wf(),
    {
        self.last_hitter = who;
        self.bounces = 0;
        self.net_touched = false;
        self.is_serve = false;
        self.rally = self.rally + 1;
    }

    /// Who plays the ball, given who can reach it: at most one of the two may.
    pub fn try_hits(&self, you_reach: bool, cpu_reach: bool) -> (who: Option<u8>)
        ensures
            who == self@.hitter(you_reach, cpu_reach),
    {
        if self.ball_live && self.last_hitter != 0 && self.bounces >= 1 && you_reach {
            return Some(0);
        }
        if self.ball_live && self.last_hitter != 1 && self.bounces >= 1 && cpu_reach {
            return Some(1);
        }
        None
    }

    /// Gives a point to `winner`.
    pub fn award(&mut self, winner: usize, what: &str)
        requires
            winner <= 1,
            old(self)@.score.has_room(winner as int),
        ensures
            final(self)@ == old(self)@.awarded(winner as int, what@),
            old(self)@.wf() && !(old(self)@.phase is Over) ==> final(self)@.wf(),
    {
        let loser: usize = 1 - winner;
        self.score.pts[winner] = self.score.pts[winner] + 1;
        self.score.serves = 2;
        let pw: u8 = self.score.pts[winner];
        let pl: u8 = self.score.pts[loser];
        let mut over = false;
        let mut sub = String::new();
        if pw >= 4 && pw >= pl + 2 {
            self.score.pts = [0, 0];
            self.score.games[winner] = self.score.games[winner] + 1;
            self.score.server = 1 - self.score.server;
            if self.score.games[winner] >= GAMES_TO_WIN {
                over = true;
            } else {
                sub = "GAME  ·  ".to_owned();
                sub.append(decimal(self.score.games[0] as u64).as_str());
                sub.append("–");
                sub.append(decimal(self.score.games[1] as u64).as_str());
            }
        } else {
            let a: u8 = self.score.pts[0];
            let b: u8 = self.score.pts[1];
            if a >= 3 && b >= 3 {
                if a == b {
                    sub = "DEUCE".to_owned();
                } else {
                    sub = "ADVANTAGE ".to_owned();
                    sub.append(player_name(if a > b { 0 } else { 1 }));
                }
            } else {
                sub = pt_str(a).to_owned();
                sub.append(" – ");
                sub.append(pt_str(b));
            }
        }
        let color = if winner == 0 {
            good_color()
        } else {
            bad_color()
        };
        self.sub = Some(Subtitle { text: sub, left: SCORE_NEWS });
        if over {
            let text = if winner == 0 {
                "GAME, SET & MATCH — YOU!"
            } else {
                "GAME, SET & MATCH — CPU"
            };
            self.msg = Some(Message { text: text.to_owned(), color, left: MATCH_NEWS });
            self.phase = Phase::Over;
        } else {
            self.msg = Some(Message { text: what.to_owned(), color, left: POINT_NEWS });
            self.phase = Phase::Point(POINT_PAUSE);
        }
    }

    /// Rules on a bounce.
    pub fn on_bounce(&mut self, l: Landing)
        requires
            old(self)@.phase is Rally ==> old(self)@.rulable(l),
        ensures
            final(self)@ == old(self)@.landed(l),
            old(self)@.wf() ==> final(self)@.wf(),
    {
        if self.phase != Phase::Rally {
            return;
        }
        let first = self.bounces == 0;
        let hitter: usize = self.last_hitter as usize;
        let own_side = (hitter == 0 && l.near_side) || (hitter == 1 && !l.near_side);
        if first {
            if own_side || !l.in_bounds {
                if self.is_serve {
                    if self.score.serves <= 1 {
                        self.count_bounce_and_award(1 - hitter, "DOUBLE FAULT");
                    } else {
                        self.bounces = self.bounces + 1;
                        self.score.serves = self.score.serves - 1;
                        self.flash("FAULT", info_color(), FAULT_NEWS);
                        self.phase = Phase::Point(FAULT_PAUSE);
                    }
                } else {
                    let what = if own_side {
                        "NET!"
                    } else {
                        "OUT!"
                    };
                    self.count_bounce_and_award(1 - hitter, what);
                }
            } else {
                self.bounces = self.bounces + 1;
            }
        } else {
            let what = if self.is_serve {
                "ACE!"
            } else {
                "WINNER!"
            };
            self.count_bounce_and_award(hitter, what);
        }
    }

    /// Counts the bounce that ends the rally and gives the point to `winner`.
    fn count_bounce_and_award(&mut self, winner: usize, what: &str)
        requires
            winner <= 1,
            old(self)@.score.has_room(winner as int),
            old(self).bounces < 255,
        ensures
            final(self)@ == (GameView {
                bounces: old(self)@.bounces + 1,
                ..old(self)@
            }).awarded(winner as int, what@),
            old(self)@.wf() && old(self)@.phase is Rally ==> final(self)@.wf(),
    {
        self.award(winner, what);
        self.bounces = self.bounces + 1;
    }

    /// Whether this frame of flight can be ruled on.
    pub fn accepts(&self, f: &Flight) -> (r: bool)
        ensures
            r == self@.flyable(*f),
    {
        if !self.ball_live || self.phase != Phase::Rally {
            return true;
        }
        let stray: Option<usize> = if f.away {
            Some(if self.last_hitter == 0 { 1 } else { 0 })
        } else {
            None
        };
        let winner: Option<usize> = match f.landing {
            None => stray,
            Some(l) => {
                if self.bounces == 255 {
                    return false;
                }
                let hitter: u8 = self.last_hitter;
                let own_side = (hitter == 0 && l.near_side) || (hitter == 1 && !l.near_side);
                if self.bounces == 0 && !own_side && l.in_bounds {
                    stray
                } else if self.bounces == 0 && self.is_serve && self.score.serves >= 2 {
                    None
                } else if hitter > 1 || (self.bounces == 0 && self.is_serve && self.score.serves
                    == 0) {
                    return false;
                } else if self.bounces == 0 {
                    Some(1 - hitter as usize)
                } else {
                    Some(hitter as usize)
                }
            },
        };
        match winner {
            None => true,
            Some(w) => self.can_count(w),
        }
    }

    /// Whether a point for `w` can still be counted in bytes.
    fn can_count(&self, w: usize) -> (r: bool)
        requires
            w <= 1,
        ensures
            r == self@.score.has_room(w as int),
    {
        let pw: u8 = self.score.pts[w];
        let pl: u8 = self.score.pts[1 - w];
        if pw == 255 || (pw >= 3 && pl > 253) {
            return false;
        }
        pw < 3 || pw < pl + 1 || (self.score.games[w] < 255 && self.score.server <= 1)
    }

    /// Notes how the ball met the net.
    fn meet_net(&mut self, net: NetContact)
        ensures
            final(self)@ == old(self)@.netted(net),
            old(self)@.wf() ==> final(self)@.wf(),
    {
        match net {
            NetContact::Clear => {},
            NetContact::Tape => {
                self.net_touched = true;
                if self.phase == Phase::Rally {
                    self.flash("NET CORD!", info_color(), NET_CORD_NEWS);
                }
            },
            NetContact::Mesh => {
                self.net_touched = true;
            },
        }
    }

    /// Applies the rules to one frame of flight to `at`, and extends the trail of the ball.
    pub fn physics<T>(&mut self, f: &Flight, trail: &mut Vec<T>, at: T)
        requires
            old(self)@.flyable(*f),
        ensures
            final(self)@ == old(self)@.flown(*f),
            final(trail)@ == old(self)@.trailed(old(trail)@, at),
            old(self)@.wf() ==> final(self)@.wf(),
    {
        if !self.ball_live {
            return;
        }
        self.meet_net(f.net);
        if let Some(l) = f.landing {
            assert(self@.ruling(l) == old(self)@.ruling(l));
            self.on_bounce(l);
        }
        if trail_due(self.frame) {
            extend_trail(trail, at);
        }
        if f.away {
            if self.phase == Phase::Rally {
                let loser: usize = if self.last_hitter == 0 {
                    0
                } else {
                    1
                };
                self.award(1 - loser, "OUT!");
            }
        }
    }

    /// Runs the counters of a frame and tells what the frame asks for.
    pub fn step(&mut self) -> (stage: Stage)
        requires
            old(self).frame < u64::MAX,
        ensures
            final(self)@ == old(self)@.stepped(),
            stage == old(self)@.stage(),
            old(self)@.wf() ==> final(self)@.wf(),
    {
        self.frame = self.frame + 1;
        if self.paused {
            return Stage::Paused;
        }
        if self.dir_ttl > 0 {
            self.dir_ttl = self.dir_ttl - 1;
        } else {
            self.dir = 0;
        }
        if self.vdir_ttl > 0 {
            self.vdir_ttl = self.vdir_ttl - 1;
        } else {
            self.vdir = 0;
        }
        let msg = self.msg.take();
        if let Some(mut m) = msg {
            if m.left > 1 {
                m.left = m.left - 1;
                self.msg = Some(m);
            }
        }
        let sub = self.sub.take();
        if let Some(mut m) = sub {
            if m.left > 1 {
                m.left = m.left - 1;
                self.sub = Some(m);
            }
        }
        match self.phase {
            Phase::Serve { server, wait } => Stage::Serve { server },
            Phase::Rally => Stage::Rally,
            Phase::Point(left) => Stage::Point,
            Phase::Over => Stage::Over,
        }
    }

    /// Counts down to the computer's serve; true when it is due.
    pub fn tick_serve(&mut self) -> (due: bool)
        ensures
            final(self)@ == old(self)@.serve_ticked(),
            due == old(self)@.serve_due(),
            old(self)@.wf() ==> final(self)@.wf(),
    {
        if let Phase::Serve { server, wait } = self.phase {
            let left: u16 = if wait > 0 {
                wait - 1
            } else {
                0
            };
            self.phase = Phase::Serve { server, wait: left };
            server == 1 && left == 0
        } else {
            false
        }
    }

    /// Counts down to the end of the pause after a point; true when the next serve
    /// has begun.
    pub fn tick_point<T>(&mut self, trail: &mut Vec<T>) -> (next: bool)
        ensures
            final(self)@ == old(self)@.point_ticked(),
            next == (old(self)@.phase matches Phase::Point(left) && left <= 1),
            final(trail)@ == (if next {
                Seq::<T>::empty()
            } else {
                old(trail)@
            }),
            old(self)@.wf() ==> final(self)@.wf(),
    {
        if let Phase::Point(left) = self.phase {
            if left > 1 {
                self.phase = Phase::Point(left - 1);
                false
            } else {
                self.begin_serve(trail);
                true
            }
        } else {
            false
        }
    }

    /// Applies the rules to the motion of a frame, which has brought the ball to `at`, after
    /// the counters of the frame have run. Tells what the ball does next.
    pub fn advance<T>(&mut self, m: &Motion, trail: &mut Vec<T>, at: T) -> (deed: Deed)
        requires
            !old(self)@.paused ==> old(self)@.flyable(m.flight),
            old(self)@.deed(*m) is Stroke ==> old(self).rally < u32::MAX,
        ensures
            final(self)@ == old(self)@.moved(*m),
            deed == old(self)@.deed(*m),
            final(trail)@ == old(self)@.trail_moved(*m, old(trail)@, at),
            old(self)@.wf() ==> final(self)@.wf(),
    {
        if self.paused {
            return Deed::Nothing;
        }
        match self.phase {
            Phase::Serve { server, wait } => {
                if self.tick_serve() {
                    self.do_serve(1);
                    Deed::Serve
                } else {
                    Deed::Nothing
                }
            },
            Phase::Rally => {
                self.physics(&m.flight, trail, at);
                match self.try_hits(m.you_reach, m.cpu_reach) {
                    Some(who) => {
                        self.stroke(who);
                        Deed::Stroke { who }
                    },
                    None => Deed::Nothing,
                }
            },
            Phase::Point(left) => {
                self.physics(&m.flight, trail, at);
                if self.tick_point(trail) {
                    Deed::Rest
                } else {
                    Deed::Nothing
                }
            },
            Phase::Over => {
                self.physics(&m.flight, trail, at);
                Deed::Nothing
            },
        }
    }
}

} // verus!
