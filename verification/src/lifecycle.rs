//! Ball lifecycle: spawning a fresh ball with a biased random direction, and
//! the dedicated cleanup pass that removes a ball flagged by the scoring
//! step.

use vstd::prelude::*;

use crate::geometry::Vec2;
use crate::geometry::direction_from_raw;
use crate::geometry::is_unit;
use crate::world::Ball;
use crate::world::World;
use crate::world::BALL_SIZE;
use crate::world::BASE_BALL_SPEED;
use crate::world::DIM_MAX;
use crate::world::PADDLE_HEIGHT;

verus! {

/// Relies on rand::random: draws a value from the thread-local generator.
/// Nothing is promised of it.
#[verifier::external_body]
fn random_u32() -> u32 {
    rand::random::<u32>()
}

/// Spawns a fresh ball at the window centre, at base speed, with a unit
/// direction drawn at random: the horizontal component's sign follows the
/// recorded bias, the vertical component is free. A drawn pair too short to
/// normalize is straightened to point fully along the vertical axis first.
pub fn spawn_ball(w: &mut World)
    requires
        BALL_SIZE <= old(w).width <= DIM_MAX,
        PADDLE_HEIGHT <= old(w).height <= DIM_MAX,
        old(w).last_scored.player == 1 || old(w).last_scored.player == -1,
    ensures
        *final(w) == (World { ball: final(w).ball, ..*old(w) }),
        final(w).has_ball(),
        ({
            let nb = final(w).the_ball();
            &&& nb.position.x == old(w).width / 2
            &&& nb.position.y == old(w).height / 2
            &&& nb.speed == BASE_BALL_SPEED
            &&& is_unit(nb.direction)
            &&& -1000 <= nb.direction.x <= 1000
            &&& -1000 <= nb.direction.y <= 1000
            &&& old(w).last_scored.player == 1 ==> nb.direction.x >= 0
            &&& old(w).last_scored.player == -1 ==> nb.direction.x <= 0
        }),
{
    let mag: i64 = (random_u32() % 1000) as i64;
    let mut ry: i64 = ((random_u32() % 2001) as i64) - 1000;
    let rx: i64 = if w.last_scored.player == 1 {
        mag
    } else {
        -mag
    };
    proof {
        assert(0 <= mag * mag <= 1_000_000 && 0 <= ry * ry <= 1_000_000) by (nonlinear_arith)
            requires
                0 <= mag <= 999 && -1000 <= ry <= 1000,
        ;
    }
    if mag * mag + ry * ry < 10_000 {
        ry = 1000;
    }
    proof {
        assert(rx * rx == mag * mag && mag * mag >= 0 && ry * ry >= 0) by (nonlinear_arith)
            requires
                rx == mag || rx == -mag,
        ;
        assert(ry == 1000 ==> ry * ry == 1_000_000);
    }
    let d = direction_from_raw(rx, ry);
    w.ball = Some(
        Ball {
            position: Vec2 { x: ((w.width as u64) / 2) as i64, y: ((w.height as u64) / 2) as i64 },
            direction: d,
            speed: BASE_BALL_SPEED,
        },
    );
}

/// The dedicated cleanup pass: deletes a ball that the scoring step flagged
/// for removal, and nothing else.
pub fn execute_that_silly_little_ball(w: &mut World)
    ensures
        *final(w) == (World {
            ball: final(w).ball,
            ball_scheduled: final(w).ball_scheduled,
            ..*old(w)
        }),
        old(w).ball_scheduled && old(w).has_ball() ==> final(w).ball is None
            && !final(w).ball_scheduled,
        !(old(w).ball_scheduled && old(w).has_ball()) ==> *final(w) == *old(w),
{
    if w.ball_scheduled && w.ball.is_some() {
        w.ball = None;
        w.ball_scheduled = false;
    }
}

} // verus!
