//! Collision resolution and scoring: wall bounces, paddle bounces, and the
//! goal protocol, all evaluated against the position the ball reached this
//! tick.

use vstd::prelude::*;

use crate::geometry::Vec2;
use crate::geometry::is_unit;
use crate::geometry::norm_sq;
use crate::world::Ball;
use crate::world::GameState;
use crate::world::World;
use crate::world::BALL_SIZE;
use crate::world::DIM_MAX;
use crate::world::DIR_LIMIT;
use crate::world::DISP_MAX;
use crate::world::HALF_BALL_SIZE;
use crate::world::HALF_PADDLE_HEIGHT;
use crate::world::HALF_PADDLE_WIDTH;
use crate::world::POS_LIMIT;
use crate::world::SPEED_LIMIT;

verus! {

/// The ball has left the window on the left: player 1 conceded.
pub open spec fn crossed_left(x: int) -> bool {
    x < HALF_BALL_SIZE
}

/// The ball has left the window on the right: player 2 conceded.
pub open spec fn crossed_right(x: int, width: int) -> bool {
    x > width - HALF_BALL_SIZE
}

/// The ball pokes past the top or bottom of the window.
pub open spec fn hits_y_wall(y: int, height: int) -> bool {
    y > height - HALF_BALL_SIZE || y < HALF_BALL_SIZE
}

/// Axis-aligned overlap between the ball and the left paddle: the ball's
/// leading (left) edge lies within the paddle's horizontal span while the
/// vertical extents overlap.
pub open spec fn overlaps_paddle1(bx: int, by: int, px: int, py: int) -> bool {
    &&& bx - HALF_BALL_SIZE <= px + HALF_PADDLE_WIDTH
    &&& bx - HALF_BALL_SIZE >= px - HALF_PADDLE_WIDTH
    &&& by + HALF_BALL_SIZE >= py - HALF_PADDLE_HEIGHT
    &&& by - HALF_BALL_SIZE <= py + HALF_PADDLE_HEIGHT
}

/// Axis-aligned overlap between the ball and the right paddle: the ball's
/// leading (right) edge lies within the paddle's horizontal span while the
/// vertical extents overlap.
pub open spec fn overlaps_paddle2(bx: int, by: int, px: int, py: int) -> bool {
    &&& bx + HALF_BALL_SIZE >= px - HALF_PADDLE_WIDTH
    &&& bx + HALF_BALL_SIZE <= px + HALF_PADDLE_WIDTH
    &&& by + HALF_BALL_SIZE >= py - HALF_PADDLE_HEIGHT
    &&& by - HALF_BALL_SIZE <= py + HALF_PADDLE_HEIGHT
}

/// The speed after one paddle bounce: a quarter faster, rounded down.
pub open spec fn grown(speed: int) -> int {
    speed * 5 / 4
}

/// Whether the resolver touches the ball at all this call: one must exist
/// and must not already be flagged for removal.
pub open spec fn resolves(w: World) -> bool {
    w.has_ball() && !w.ball_scheduled
}

/// Resolves one tick of collisions and scoring for the ball, if one exists
/// and is not already flagged for removal. All checks read the position the
/// ball holds on entry.
///
/// A crossing of the left boundary scores for player 2, of the right for
/// player 1; the scorer's number is returned, the conceding side is
/// recorded, the ball is repositioned to the centre (irrelevant, it is about
/// to be removed), flagged for removal, and a transition to `Scored` is
/// requested. A wall contact flips the vertical direction only; a paddle
/// overlap flips the horizontal direction and grows the speed, each paddle
/// judged independently. No positional correction is applied anywhere.
pub fn ball_bouncing(w: &mut World) -> (scorer: Option<u8>)
    requires
        BALL_SIZE <= old(w).width <= DIM_MAX,
        0 <= old(w).height <= DIM_MAX,
        old(w).scores.player1 < 0xffff_ffffu32,
        old(w).scores.player2 < 0xffff_ffffu32,
        -POS_LIMIT <= old(w).paddle1.x <= POS_LIMIT,
        -POS_LIMIT <= old(w).paddle1.y <= POS_LIMIT,
        -POS_LIMIT <= old(w).paddle2.x <= POS_LIMIT,
        -POS_LIMIT <= old(w).paddle2.y <= POS_LIMIT,
        old(w).has_ball() ==> {
            let b = old(w).the_ball();
            &&& -POS_LIMIT - DISP_MAX <= b.position.x <= POS_LIMIT + DISP_MAX
            &&& -POS_LIMIT - DISP_MAX <= b.position.y <= POS_LIMIT + DISP_MAX
            &&& -DIR_LIMIT <= b.direction.x <= DIR_LIMIT
            &&& -DIR_LIMIT <= b.direction.y <= DIR_LIMIT
            &&& 0 <= b.speed <= SPEED_LIMIT
        },
    ensures
        *final(w) == (World {
            ball: final(w).ball,
            ball_scheduled: final(w).ball_scheduled,
            scores: final(w).scores,
            last_scored: final(w).last_scored,
            pending: final(w).pending,
            ..*old(w)
        }),
        !resolves(*old(w)) ==> *final(w) == *old(w) && scorer is None,
        resolves(*old(w)) ==> {
            let b = old(w).the_ball();
            let gl = crossed_left(b.position.x as int);
            let gr = crossed_right(b.position.x as int, old(w).width as int);
            let h1 = overlaps_paddle1(
                b.position.x as int,
                b.position.y as int,
                old(w).paddle1.x as int,
                old(w).paddle1.y as int,
            );
            let h2 = overlaps_paddle2(
                b.position.x as int,
                b.position.y as int,
                old(w).paddle2.x as int,
                old(w).paddle2.y as int,
            );
            let nb = final(w).the_ball();
            &&& (scorer == Some(2u8) <==> gl)
            &&& (scorer == Some(1u8) <==> gr && !gl)
            &&& (scorer is None <==> !gl && !gr)
            &&& gl ==> final(w).scores.player2 == old(w).scores.player2 + 1
                && final(w).scores.player1 == old(w).scores.player1
                && final(w).last_scored.player == 1
            &&& gr && !gl ==> final(w).scores.player1 == old(w).scores.player1 + 1
                && final(w).scores.player2 == old(w).scores.player2
                && final(w).last_scored.player == -1
            &&& !gl && !gr ==> final(w).scores == old(w).scores
                && final(w).last_scored == old(w).last_scored
            &&& (gl || gr) ==> final(w).ball_scheduled
                && final(w).pending == Some(GameState::Scored)
                && nb.position.x == old(w).width / 2 && nb.position.y == old(w).height / 2
            &&& (!gl && !gr) ==> final(w).ball_scheduled == old(w).ball_scheduled
                && final(w).pending == old(w).pending && nb.position == b.position
            &&& final(w).has_ball()
            &&& hits_y_wall(b.position.y as int, old(w).height as int) ==> nb.direction.y == -b
                .direction.y
            &&& !hits_y_wall(b.position.y as int, old(w).height as int) ==> nb.direction.y == b
                .direction.y
            &&& (h1 != h2) ==> nb.direction.x == -b.direction.x
            &&& (h1 == h2) ==> nb.direction.x == b.direction.x
            &&& (!h1 && !h2) ==> nb.speed == b.speed
            &&& (h1 != h2) ==> nb.speed == grown(b.speed as int)
            &&& (h1 && h2) ==> nb.speed == grown(grown(b.speed as int))
            &&& nb.speed >= b.speed
            &&& norm_sq(nb.direction) == norm_sq(b.direction)
            &&& is_unit(b.direction) ==> is_unit(nb.direction)
        },
{
    let x_min: i64 = HALF_BALL_SIZE;
    let x_max: i64 = w.width - HALF_BALL_SIZE;
    let y_min: i64 = HALF_BALL_SIZE;
    let y_max: i64 = w.height - HALF_BALL_SIZE;
    if w.ball.is_none() || w.ball_scheduled {
        return None;
    }
    let b = w.ball.unwrap();
    let pos = b.position;
    let mut ball = b;
    let mut scorer: Option<u8> = None;
    if pos.x < x_min {
        ball.position = Vec2 { x: ((w.width as u64) / 2) as i64, y: ((w.height as u64) / 2) as i64 };
        w.scores.player2 = w.scores.player2 + 1;
        w.last_scored.player = 1;
        w.ball_scheduled = true;
        w.pending = Some(GameState::Scored);
        scorer = Some(2u8);
    }
    if pos.x > x_max {
        ball.position = Vec2 { x: ((w.width as u64) / 2) as i64, y: ((w.height as u64) / 2) as i64 };
        w.scores.player1 = w.scores.player1 + 1;
        w.last_scored.player = -1;
        w.ball_scheduled = true;
        w.pending = Some(GameState::Scored);
        scorer = Some(1u8);
    }
    if pos.y > y_max || pos.y < y_min {
        ball.direction.y = -ball.direction.y;
    }
    let p1 = w.paddle1;
    if pos.x - HALF_BALL_SIZE <= p1.x + HALF_PADDLE_WIDTH && pos.x - HALF_BALL_SIZE >= p1.x
        - HALF_PADDLE_WIDTH && pos.y + HALF_BALL_SIZE >= p1.y - HALF_PADDLE_HEIGHT && pos.y
        - HALF_BALL_SIZE <= p1.y + HALF_PADDLE_HEIGHT {
        ball.direction.x = -ball.direction.x;
        ball.speed = ((ball.speed as u64) * 5 / 4) as i64;
    }
    let p2 = w.paddle2;
    if pos.x + HALF_BALL_SIZE >= p2.x - HALF_PADDLE_WIDTH && pos.x + HALF_BALL_SIZE <= p2.x
        + HALF_PADDLE_WIDTH && pos.y + HALF_BALL_SIZE >= p2.y - HALF_PADDLE_HEIGHT && pos.y
        - HALF_BALL_SIZE <= p2.y + HALF_PADDLE_HEIGHT {
        ball.direction.x = -ball.direction.x;
        ball.speed = ((ball.speed as u64) * 5 / 4) as i64;
    }
    w.ball = Some(ball);
    proof {
        let bd = old(w).the_ball().direction;
        let nd = ball.direction;
        assert(norm_sq(nd) == norm_sq(bd) && (is_unit(bd) ==> is_unit(nd))) by (nonlinear_arith)
            requires
                (nd.x == bd.x || nd.x == -bd.x) && (nd.y == bd.y || nd.y == -bd.y),
        ;
    }
    scorer
}

} // verus!
