//! The simulation state: paddles, the optional ball, scores, and the
//! game-state machine, together with the rules' fixed constants.
//!
//! All lengths are in milli-pixels and all times in milliseconds.

use vstd::prelude::*;

use crate::geometry::Vec2;
use crate::geometry::is_unit;

verus! {

/// Paddle travel speed, in milli-pixels per second.
pub const PADDLE_SPEED: i64 = 400_000;

/// Paddle width, in milli-pixels.
pub const PADDLE_WIDTH: i64 = 30_000;

/// Paddle height, in milli-pixels.
pub const PADDLE_HEIGHT: i64 = 180_000;

/// Ball edge length, in milli-pixels.
pub const BALL_SIZE: i64 = 10_000;

/// Half the paddle width.
pub const HALF_PADDLE_WIDTH: i64 = 15_000;

/// Half the paddle height.
pub const HALF_PADDLE_HEIGHT: i64 = 90_000;

/// Half the ball edge length.
pub const HALF_BALL_SIZE: i64 = 5_000;

/// Speed of a freshly spawned ball, in milli-pixels per second.
pub const BASE_BALL_SPEED: i64 = 200_000;

/// After a goal, the gap before play resumes, in milliseconds.
pub const COUNTDOWN_MS: i64 = 100;

/// Longest tick the simulation accepts, in milliseconds.
pub const DT_MAX: i64 = 10_000;

/// Largest ball speed the simulation accepts at the start of a tick.
pub const SPEED_LIMIT: i64 = 10_000_000_000;

/// Largest coordinate magnitude the simulation accepts at the start of a tick.
pub const POS_LIMIT: i64 = 1_000_000_000_000_000;

/// Largest window dimension, in milli-pixels.
pub const DIM_MAX: i64 = 100_000_000;

/// How far a coordinate can travel in one tick, in milli-pixels.
pub const DISP_MAX: i64 = 200_000_000_000;

/// Largest direction component magnitude the motion step accepts.
pub const DIR_LIMIT: i64 = 2_000;

/// The play states. `Paused` and `Menu` are present as values but no
/// transition of the machine reaches them; while active they freeze every
/// motion system.
#[derive(Clone, Copy, PartialEq, Eq, Structural, Debug)]
pub enum GameState {
    Running,
    Scored,
    Paused,
    Menu,
}

/// The moving ball: position, direction at unit scale, and speed in
/// milli-pixels per second.
#[derive(Clone, Copy, PartialEq, Eq, Structural, Debug)]
pub struct Ball {
    pub position: Vec2,
    pub direction: Vec2,
    pub speed: i64,
}

/// Points taken by each player.
#[derive(Clone, Copy, PartialEq, Eq, Structural, Debug)]
pub struct Scores {
    pub player1: u32,
    pub player2: u32,
}

/// The sign of the horizontal bias given to the next spawned ball: `1` after
/// player 1 conceded, `-1` after player 2 conceded.
#[derive(Clone, Copy, PartialEq, Eq, Structural, Debug)]
pub struct LastScored {
    pub player: i64,
}

/// The whole simulation context threaded through each system call.
#[derive(Clone, Copy, PartialEq, Eq, Structural, Debug)]
pub struct World {
    /// Window width, in milli-pixels.
    pub width: i64,
    /// Window height, in milli-pixels.
    pub height: i64,
    /// Left paddle centre; its `x` never changes.
    pub paddle1: Vec2,
    /// Right paddle centre; its `x` never changes.
    pub paddle2: Vec2,
    /// The at-most-one ball.
    pub ball: Option<Ball>,
    /// Set between a goal and the cleanup pass of the same tick.
    pub ball_scheduled: bool,
    pub scores: Scores,
    pub last_scored: LastScored,
    /// The state the machine is in.
    pub state: GameState,
    /// A transition requested this tick, applied at one fixed point.
    pub pending: Option<GameState>,
    /// Time accumulated in the `Scored` gap, in milliseconds.
    pub countdown_elapsed: i64,
}

impl World {
    /// Fixed horizontal centre of the left paddle for this window width.
    pub open spec fn spec_paddle1_x(width: int) -> int {
        width / 20
    }

    /// Fixed horizontal centre of the right paddle for this window width.
    pub open spec fn spec_paddle2_x(width: int) -> int {
        width * 20 / 21
    }

    /// Whether a ball is present.
    pub open spec fn has_ball(self) -> bool {
        self.ball is Some
    }

    /// The present ball.
    pub open spec fn the_ball(self) -> Ball
        recommends
            self.has_ball(),
    {
        self.ball->Some_0
    }

    /// The invariant every tick preserves: window dimensions large enough to
    /// hold the pieces, paddles confined and pinned to their columns, a valid
    /// bias sign, a unit direction and at least base speed on the ball, the
    /// ball absent only during the `Scored` gap, no leftover removal mark or
    /// unapplied transition, and a countdown still short of its threshold.
    pub open spec fn wf(self) -> bool {
        &&& BALL_SIZE <= self.width <= DIM_MAX
        &&& PADDLE_HEIGHT <= self.height <= DIM_MAX
        &&& self.paddle1.x == Self::spec_paddle1_x(self.width as int)
        &&& self.paddle2.x == Self::spec_paddle2_x(self.width as int)
        &&& HALF_PADDLE_HEIGHT <= self.paddle1.y <= self.height - HALF_PADDLE_HEIGHT
        &&& HALF_PADDLE_HEIGHT <= self.paddle2.y <= self.height - HALF_PADDLE_HEIGHT
        &&& (self.last_scored.player == 1 || self.last_scored.player == -1)
        &&& match self.ball {
            Some(b) => is_unit(b.direction) && b.speed >= BASE_BALL_SPEED,
            None => self.state == GameState::Scored,
        }
        &&& !self.ball_scheduled
        &&& self.pending is None
        &&& 0 <= self.countdown_elapsed
        &&& (self.state == GameState::Scored ==> self.countdown_elapsed < COUNTDOWN_MS)
    }

    /// Arithmetic room the per-tick systems need beyond `wf`: the ball's
    /// coordinates and speed within the ranges one tick keeps inside `i64`.
    pub open spec fn in_bounds(self) -> bool {
        match self.ball {
            Some(b) => {
                &&& -POS_LIMIT <= b.position.x <= POS_LIMIT
                &&& -POS_LIMIT <= b.position.y <= POS_LIMIT
                &&& 0 <= b.speed <= SPEED_LIMIT
            },
            None => true,
        }
    }

    /// Decides `in_bounds` at run time, for a caller about to start a tick.
    pub fn check_in_bounds(&self) -> (ok: bool)
        ensures
            ok == self.in_bounds(),
    {
        match self.ball {
            Some(b) => -POS_LIMIT <= b.position.x && b.position.x <= POS_LIMIT && -POS_LIMIT
                <= b.position.y && b.position.y <= POS_LIMIT && b.speed >= 0 && b.speed
                <= SPEED_LIMIT,
            None => true,
        }
    }

    /// Builds the startup world: paddles centred on their fixed columns, no
    /// points yet, the bias set as if player 1 had conceded, state `Running`,
    /// and a fresh ball spawned for the opening rally.
    pub fn new(width: i64, height: i64) -> (w: World)
        requires
            BALL_SIZE <= width <= DIM_MAX,
            PADDLE_HEIGHT <= height <= DIM_MAX,
        ensures
            w.wf(),
            w.in_bounds(),
            w.width == width && w.height == height,
            w.paddle1.y == height / 2 && w.paddle2.y == height / 2,
            w.state == GameState::Running,
            w.scores.player1 == 0 && w.scores.player2 == 0,
            w.last_scored.player == 1,
            w.has_ball(),
            w.the_ball().speed == BASE_BALL_SPEED,
            w.the_ball().position.x == width / 2 && w.the_ball().position.y == height / 2,
    {
        let mut w = World {
            width,
            height,
            paddle1: Vec2 { x: ((width as u64) / 20) as i64, y: ((height as u64) / 2) as i64 },
            paddle2: Vec2 {
                x: ((width as u64) * 20 / 21) as i64,
                y: ((height as u64) / 2) as i64,
            },
            ball: None,
            ball_scheduled: false,
            scores: Scores { player1: 0, player2: 0 },
            last_scored: LastScored { player: 1 },
            state: GameState::Running,
            pending: None,
            countdown_elapsed: 0,
        };
        crate::lifecycle::spawn_ball(&mut w);
        w
    }
}

/// At most one ball ever exists, by the shape of `World::ball`; this law
/// adds the other half: the ball is absent only during the `Scored` gap, so
/// a well-formed world in any other state holds exactly one ball.
pub proof fn lemma_ball_absent_only_during_scored_gap(w: World)
    requires
        w.wf(),
        w.state != GameState::Scored,
    ensures
        w.has_ball(),
{
}

} // verus!
