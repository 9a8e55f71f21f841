//! Entity motion: integrates the ball and the paddles each tick, and
//! confines the paddles to the window.

use vstd::prelude::*;

use crate::geometry::Vec2;
use crate::geometry::is_unit;
use crate::world::Ball;
use crate::world::World;
use crate::world::DIM_MAX;
use crate::world::DIR_LIMIT;
use crate::world::DISP_MAX;
use crate::world::DT_MAX;
use crate::world::HALF_PADDLE_HEIGHT;
use crate::world::PADDLE_HEIGHT;
use crate::world::PADDLE_SPEED;
use crate::world::POS_LIMIT;
use crate::world::SPEED_LIMIT;

verus! {

/// How far a coordinate moves along one axis in one tick: the direction
/// component times the speed, per second, over a tick of `dt` milliseconds,
/// rounded toward zero.
pub open spec fn axis_disp(d: int, speed: int, dt: int) -> int {
    if d >= 0 {
        (d * speed * dt) / 1_000_000
    } else {
        -(((-d) * speed * dt) / 1_000_000)
    }
}

/// Where a paddle centre ends up after reading its two keys: one key held
/// moves it by the paddle speed over the tick; none or both hold it still.
pub open spec fn moved_paddle_y(y: int, up: bool, down: bool, dt: int) -> int {
    let shift = PADDLE_SPEED * dt / 1000;
    if up && !down {
        y + shift
    } else if down && !up {
        y - shift
    } else {
        y
    }
}

/// A paddle centre clamped hard into the window, lower bound first.
pub open spec fn confined_y(y: int, height: int) -> int {
    let lifted = if y < HALF_PADDLE_HEIGHT {
        HALF_PADDLE_HEIGHT as int
    } else {
        y
    };
    if lifted > height - HALF_PADDLE_HEIGHT {
        height - HALF_PADDLE_HEIGHT
    } else {
        lifted
    }
}

/// One axis of the ball's integration step.
fn axis_step(d: i64, speed: i64, dt: i64) -> (delta: i64)
    requires
        -DIR_LIMIT <= d <= DIR_LIMIT,
        0 <= speed <= SPEED_LIMIT,
        0 <= dt <= DT_MAX,
    ensures
        delta == axis_disp(d as int, speed as int, dt as int),
        -DISP_MAX <= delta <= DISP_MAX,
{
    let mag: u64 = if d >= 0 {
        d as u64
    } else {
        (-d) as u64
    };
    let sp: u64 = speed as u64;
    let ticks: u64 = dt as u64;
    proof {
        assert(mag * sp <= 20_000_000_000_000) by (nonlinear_arith)
            requires
                mag <= 2000 && sp <= 10_000_000_000,
        ;
        assert((mag * sp) * ticks <= 200_000_000_000_000_000) by (nonlinear_arith)
            requires
                mag * sp <= 20_000_000_000_000 && ticks <= 10_000,
        ;
    }
    let scaled: u64 = mag * sp * ticks / 1_000_000;
    if d >= 0 {
        scaled as i64
    } else {
        -(scaled as i64)
    }
}

/// Moves the ball, if one exists, along its direction by its speed over this
/// tick; direction and speed stay as they are.
pub fn move_ball(w: &mut World, dt: i64)
    requires
        0 <= dt <= DT_MAX,
        old(w).in_bounds(),
        old(w).has_ball() ==> -DIR_LIMIT <= old(w).the_ball().direction.x <= DIR_LIMIT
            && -DIR_LIMIT <= old(w).the_ball().direction.y <= DIR_LIMIT,
    ensures
        *final(w) == (World { ball: final(w).ball, ..*old(w) }),
        final(w).has_ball() == old(w).has_ball(),
        old(w).has_ball() ==> {
            let b = old(w).the_ball();
            let nb = final(w).the_ball();
            &&& nb.position.x == b.position.x + axis_disp(
                b.direction.x as int,
                b.speed as int,
                dt as int,
            )
            &&& nb.position.y == b.position.y + axis_disp(
                b.direction.y as int,
                b.speed as int,
                dt as int,
            )
            &&& nb.direction == b.direction
            &&& nb.speed == b.speed
            &&& -POS_LIMIT - DISP_MAX <= nb.position.x <= POS_LIMIT + DISP_MAX
            &&& -POS_LIMIT - DISP_MAX <= nb.position.y <= POS_LIMIT + DISP_MAX
        },
{
    match w.ball {
        Some(b) => {
            let dx = axis_step(b.direction.x, b.speed, dt);
            let dy = axis_step(b.direction.y, b.speed, dt);
            w.ball = Some(
                Ball {
                    position: Vec2 { x: b.position.x + dx, y: b.position.y + dy },
                    direction: b.direction,
                    speed: b.speed,
                },
            );
        },
        None => {},
    }
}

/// Moves both paddles from their key states: each integrates its own pair of
/// keys independently, with no coupling between the two.
pub fn move_paddles(w: &mut World, up1: bool, down1: bool, up2: bool, down2: bool, dt: i64)
    requires
        0 <= dt <= DT_MAX,
        -POS_LIMIT <= old(w).paddle1.y <= POS_LIMIT,
        -POS_LIMIT <= old(w).paddle2.y <= POS_LIMIT,
    ensures
        *final(w) == (World { paddle1: final(w).paddle1, paddle2: final(w).paddle2, ..*old(w) }),
        final(w).paddle1.x == old(w).paddle1.x,
        final(w).paddle2.x == old(w).paddle2.x,
        final(w).paddle1.y == moved_paddle_y(old(w).paddle1.y as int, up1, down1, dt as int),
        final(w).paddle2.y == moved_paddle_y(old(w).paddle2.y as int, up2, down2, dt as int),
{
    let shift: i64 = ((PADDLE_SPEED as u64) * (dt as u64) / 1000) as i64;
    if up1 && !down1 {
        w.paddle1.y = w.paddle1.y + shift;
    } else if down1 && !up1 {
        w.paddle1.y = w.paddle1.y - shift;
    }
    if up2 && !down2 {
        w.paddle2.y = w.paddle2.y + shift;
    } else if down2 && !up2 {
        w.paddle2.y = w.paddle2.y - shift;
    }
}

/// Clamps both paddles into the window: a clamp, not a bounce, with no
/// residual velocity effect. Afterwards each paddle centre lies in
/// `[HALF_PADDLE_HEIGHT, height - HALF_PADDLE_HEIGHT]`.
pub fn confine_paddle_movement(w: &mut World)
    requires
        PADDLE_HEIGHT <= old(w).height <= DIM_MAX,
    ensures
        *final(w) == (World { paddle1: final(w).paddle1, paddle2: final(w).paddle2, ..*old(w) }),
        final(w).paddle1.x == old(w).paddle1.x,
        final(w).paddle2.x == old(w).paddle2.x,
        final(w).paddle1.y == confined_y(old(w).paddle1.y as int, old(w).height as int),
        final(w).paddle2.y == confined_y(old(w).paddle2.y as int, old(w).height as int),
        HALF_PADDLE_HEIGHT <= final(w).paddle1.y <= final(w).height - HALF_PADDLE_HEIGHT,
        HALF_PADDLE_HEIGHT <= final(w).paddle2.y <= final(w).height - HALF_PADDLE_HEIGHT,
{
    let y_min: i64 = HALF_PADDLE_HEIGHT;
    let y_max: i64 = w.height - HALF_PADDLE_HEIGHT;
    if w.paddle1.y < y_min {
        w.paddle1.y = y_min;
    }
    if w.paddle1.y > y_max {
        w.paddle1.y = y_max;
    }
    if w.paddle2.y < y_min {
        w.paddle2.y = y_min;
    }
    if w.paddle2.y > y_max {
        w.paddle2.y = y_max;
    }
}

/// A unit direction's components stay well inside the motion bound.
pub proof fn lemma_unit_dir_in_range(v: Vec2)
    by (nonlinear_arith)
    requires
        is_unit(v),
    ensures
        -1005 <= v.x <= 1005,
        -1005 <= v.y <= 1005,
{
}

} // verus!
