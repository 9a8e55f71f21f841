//! The game-state machine and the fixed per-tick schedule: motion, then
//! collision and scoring, then the pending transition, then ball cleanup and
//! respawn — always in this order, once per frame.

use vstd::prelude::*;

use crate::collision::ball_bouncing;
use crate::collision::crossed_left;
use crate::collision::crossed_right;
use crate::collision::grown;
use crate::collision::hits_y_wall;
use crate::collision::overlaps_paddle1;
use crate::collision::overlaps_paddle2;
use crate::lifecycle::execute_that_silly_little_ball;
use crate::lifecycle::spawn_ball;
use crate::motion::axis_disp;
use crate::motion::confine_paddle_movement;
use crate::motion::confined_y;
use crate::motion::lemma_unit_dir_in_range;
use crate::motion::move_ball;
use crate::motion::move_paddles;
use crate::motion::moved_paddle_y;
use crate::world::GameState;
use crate::world::World;
use crate::world::BASE_BALL_SPEED;
use crate::world::COUNTDOWN_MS;
use crate::world::DT_MAX;

verus! {

/// Where the ball's horizontal coordinate lands after this tick's motion.
pub open spec fn moved_ball_x(w: World, dt: int) -> int
    recommends
        w.has_ball(),
{
    let b = w.the_ball();
    b.position.x + axis_disp(b.direction.x as int, b.speed as int, dt)
}

/// Where the ball's vertical coordinate lands after this tick's motion.
pub open spec fn moved_ball_y(w: World, dt: int) -> int
    recommends
        w.has_ball(),
{
    let b = w.the_ball();
    b.position.y + axis_disp(b.direction.y as int, b.speed as int, dt)
}

/// Where a paddle centre stands when collisions are judged: moved by its
/// keys, then confined.
pub open spec fn settled_paddle_y(y: int, up: bool, down: bool, dt: int, height: int) -> int {
    confined_y(moved_paddle_y(y, up, down, dt), height)
}

/// This tick ends the rally with a point for player 2: the ball, moved, has
/// crossed the left boundary while play was running.
pub open spec fn goal_for_player2(w: World, dt: int) -> bool {
    &&& w.state == GameState::Running
    &&& w.has_ball()
    &&& !w.ball_scheduled
    &&& crossed_left(moved_ball_x(w, dt))
}

/// This tick ends the rally with a point for player 1: the ball, moved, has
/// crossed the right boundary while play was running. The left boundary is
/// evaluated first and takes precedence.
pub open spec fn goal_for_player1(w: World, dt: int) -> bool {
    &&& w.state == GameState::Running
    &&& w.has_ball()
    &&& !w.ball_scheduled
    &&& crossed_right(moved_ball_x(w, dt), w.width as int)
    &&& !crossed_left(moved_ball_x(w, dt))
}

/// Accumulates the `Scored` gap and, once the fixed threshold has elapsed,
/// requests the transition back to `Running`. Outside `Scored` it is a
/// no-op.
pub fn countdown(w: &mut World, dt: i64)
    requires
        0 <= dt <= DT_MAX,
        0 <= old(w).countdown_elapsed <= COUNTDOWN_MS + DT_MAX,
    ensures
        *final(w) == (World {
            pending: final(w).pending,
            countdown_elapsed: final(w).countdown_elapsed,
            ..*old(w)
        }),
        old(w).state != GameState::Scored ==> *final(w) == *old(w),
        old(w).state == GameState::Scored ==> {
            &&& final(w).countdown_elapsed == old(w).countdown_elapsed + dt
            &&& (old(w).countdown_elapsed + dt >= COUNTDOWN_MS ==> final(w).pending == Some(
                GameState::Running,
            ))
            &&& (old(w).countdown_elapsed + dt < COUNTDOWN_MS ==> final(w).pending == old(w).pending)
        },
{
    if w.state == GameState::Scored {
        w.countdown_elapsed = w.countdown_elapsed + dt;
        if w.countdown_elapsed >= COUNTDOWN_MS {
            w.pending = Some(GameState::Running);
        }
    }
}

/// Applies a requested state transition at this single well-defined point;
/// entering `Scored` arms the countdown.
pub fn apply_pending(w: &mut World)
    ensures
        final(w).pending is None,
        *final(w) == (World {
            state: final(w).state,
            pending: final(w).pending,
            countdown_elapsed: final(w).countdown_elapsed,
            ..*old(w)
        }),
        old(w).pending is None ==> *final(w) == *old(w),
        old(w).pending == Some(GameState::Scored) ==> final(w).state == GameState::Scored && final(w).countdown_elapsed == 0,
        old(w).pending is Some && old(w).pending != Some(GameState::Scored) ==> final(w).state
            == old(w).pending->Some_0 && final(w).countdown_elapsed == old(w).countdown_elapsed,
{
    match w.pending {
        Some(s) => {
            w.state = s;
            w.pending = None;
            if s == GameState::Scored {
                w.countdown_elapsed = 0;
            }
        },
        None => {},
    }
}

/// Runs one frame of the simulation in the fixed order: entity motion and
/// paddle confinement, collision resolution and scoring, the countdown, the
/// pending transition, then ball cleanup and respawn. Returns the scoring
/// player's number if this tick ended the rally.
///
/// While `Running`, both paddles integrate their keys and end up confined;
/// the ball integrates its direction and speed. A goal flips the machine to
/// `Scored`, awards exactly one point, records the conceding side, and
/// removes the ball for the gap. Once the gap has lasted `COUNTDOWN_MS`, the
/// machine returns to `Running` and a fresh ball spawns at base speed, its
/// horizontal direction biased by the recorded side. `Paused` and `Menu`
/// freeze everything.
pub fn tick(w: &mut World, dt: i64, up1: bool, down1: bool, up2: bool, down2: bool) -> (scorer:
    Option<u8>)
    requires
        old(w).wf(),
        old(w).in_bounds(),
        0 <= dt <= DT_MAX,
        old(w).scores.player1 < 0xffff_ffffu32,
        old(w).scores.player2 < 0xffff_ffffu32,
    ensures
        final(w).wf(),
        final(w).width == old(w).width && final(w).height == old(w).height,
        (scorer == Some(2u8) <==> goal_for_player2(*old(w), dt as int)),
        (scorer == Some(1u8) <==> goal_for_player1(*old(w), dt as int)),
        (scorer is None <==> !goal_for_player2(*old(w), dt as int) && !goal_for_player1(
            *old(w),
            dt as int,
        )),
        final(w).scores.player1 >= old(w).scores.player1,
        final(w).scores.player2 >= old(w).scores.player2,
        scorer == Some(2u8) ==> final(w).scores.player2 == old(w).scores.player2 + 1 && final(w).scores.player1 == old(w).scores.player1 && final(w).last_scored.player == 1,
        scorer == Some(1u8) ==> final(w).scores.player1 == old(w).scores.player1 + 1 && final(w).scores.player2 == old(w).scores.player2 && final(w).last_scored.player == -1,
        scorer is None ==> final(w).scores == old(w).scores && final(w).last_scored == old(w).last_scored,
        scorer is Some ==> final(w).state == GameState::Scored && final(w).ball is None && final(w).countdown_elapsed == 0,
        old(w).state == GameState::Running && scorer is None ==> final(w).state
            == GameState::Running && final(w).has_ball() && final(w).the_ball().speed >= old(w).the_ball().speed,
        old(w).state == GameState::Running && scorer is None ==> {
            let b = old(w).the_ball();
            let mx = moved_ball_x(*old(w), dt as int);
            let my = moved_ball_y(*old(w), dt as int);
            let p1y = settled_paddle_y(
                old(w).paddle1.y as int,
                up1,
                down1,
                dt as int,
                old(w).height as int,
            );
            let p2y = settled_paddle_y(
                old(w).paddle2.y as int,
                up2,
                down2,
                dt as int,
                old(w).height as int,
            );
            let h1 = overlaps_paddle1(mx, my, old(w).paddle1.x as int, p1y);
            let h2 = overlaps_paddle2(mx, my, old(w).paddle2.x as int, p2y);
            let wall = hits_y_wall(my, old(w).height as int);
            let nb = final(w).the_ball();
            &&& nb.position.x == mx && nb.position.y == my
            &&& (wall ==> nb.direction.y == -b.direction.y)
            &&& (!wall ==> nb.direction.y == b.direction.y)
            &&& (h1 != h2 ==> nb.direction.x == -b.direction.x)
            &&& (h1 == h2 ==> nb.direction.x == b.direction.x)
            &&& (!h1 && !h2 ==> nb.speed == b.speed)
            &&& (h1 != h2 ==> nb.speed == grown(b.speed as int))
            &&& (h1 && h2 ==> nb.speed == grown(grown(b.speed as int)))
        },
        old(w).state == GameState::Running ==> final(w).paddle1.y == confined_y(
            moved_paddle_y(old(w).paddle1.y as int, up1, down1, dt as int),
            old(w).height as int,
        ) && final(w).paddle2.y == confined_y(
            moved_paddle_y(old(w).paddle2.y as int, up2, down2, dt as int),
            old(w).height as int,
        ),
        old(w).state != GameState::Running ==> final(w).paddle1 == old(w).paddle1 && final(w).paddle2 == old(w).paddle2,
        old(w).state == GameState::Scored && old(w).countdown_elapsed + dt < COUNTDOWN_MS ==> final(w).state == GameState::Scored && final(w).countdown_elapsed == old(w).countdown_elapsed + dt
            && final(w).ball == old(w).ball,
        old(w).state == GameState::Scored && old(w).countdown_elapsed + dt >= COUNTDOWN_MS ==> {
            &&& final(w).state == GameState::Running
            &&& final(w).has_ball()
            &&& final(w).the_ball().speed == BASE_BALL_SPEED
            &&& final(w).the_ball().position.x == old(w).width / 2
            &&& final(w).the_ball().position.y == old(w).height / 2
            &&& (old(w).last_scored.player == 1 ==> final(w).the_ball().direction.x >= 0)
            &&& (old(w).last_scored.player == -1 ==> final(w).the_ball().direction.x <= 0)
        },
        old(w).state == GameState::Paused || old(w).state == GameState::Menu ==> *final(w) == *old(w),
{
    let entry_state = w.state;
    let mut scorer: Option<u8> = None;
    match entry_state {
        GameState::Running => {
            proof {
                if old(w).has_ball() {
                    lemma_unit_dir_in_range(old(w).the_ball().direction);
                }
            }
            move_ball(w, dt);
            move_paddles(w, up1, down1, up2, down2, dt);
            confine_paddle_movement(w);
            scorer = ball_bouncing(w);
        },
        GameState::Scored => {
            countdown(w, dt);
        },
        _ => {},
    }
    apply_pending(w);
    execute_that_silly_little_ball(w);
    if w.state == GameState::Running && entry_state != GameState::Running {
        spawn_ball(w);
    }
    scorer
}

} // verus!
