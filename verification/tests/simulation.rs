use pong::collision::ball_bouncing;
use pong::geometry::Vec2;
use pong::lifecycle::execute_that_silly_little_ball;
use pong::lifecycle::spawn_ball;
use pong::motion::confine_paddle_movement;
use pong::motion::move_ball;
use pong::motion::move_paddles;
use pong::tick::apply_pending;
use pong::tick::countdown;
use pong::tick::tick;
use pong::world::Ball;
use pong::world::GameState;
use pong::world::LastScored;
use pong::world::Scores;
use pong::world::World;

fn arena() -> World {
    World {
        width: 800_000,
        height: 600_000,
        paddle1: Vec2 { x: 40_000, y: 300_000 },
        paddle2: Vec2 { x: 761_904, y: 300_000 },
        ball: None,
        ball_scheduled: false,
        scores: Scores { player1: 0, player2: 0 },
        last_scored: LastScored { player: 1 },
        state: GameState::Running,
        pending: None,
        countdown_elapsed: 0,
    }
}

fn arena_with_ball(position: Vec2, direction: Vec2, speed: i64) -> World {
    let mut w = arena();
    w.ball = Some(Ball { position, direction, speed });
    w
}

#[test]
fn left_paddle_bounce_flips_x_and_grows_speed() {
    // Ball box overlaps the left paddle box on both axes; direction
    // (-0.6, 0.2) at speed 200 becomes (0.6, 0.2) at speed 250.
    let mut w = arena_with_ball(
        Vec2 { x: 45_000, y: 300_000 },
        Vec2 { x: -600, y: 200 },
        200_000,
    );
    let scorer = ball_bouncing(&mut w);
    assert_eq!(scorer, None);
    let b = w.ball.unwrap();
    assert_eq!(b.direction, Vec2 { x: 600, y: 200 });
    assert_eq!(b.speed, 250_000);
    assert_eq!(w.scores, Scores { player1: 0, player2: 0 });
    assert!(!w.ball_scheduled);
}

#[test]
fn right_paddle_bounce_flips_x_and_grows_speed() {
    let mut w = arena_with_ball(
        Vec2 { x: 755_000, y: 300_000 },
        Vec2 { x: 600, y: -200 },
        200_000,
    );
    let scorer = ball_bouncing(&mut w);
    assert_eq!(scorer, None);
    let b = w.ball.unwrap();
    assert_eq!(b.direction, Vec2 { x: -600, y: -200 });
    assert_eq!(b.speed, 250_000);
}

#[test]
fn top_wall_bounce_flips_y_only() {
    // Ball y beyond height - half ball size with direction (0.4, 0.9):
    // the bounce yields (0.4, -0.9) and leaves the speed alone.
    let mut w = arena_with_ball(
        Vec2 { x: 400_000, y: 596_000 },
        Vec2 { x: 400, y: 900 },
        200_000,
    );
    let scorer = ball_bouncing(&mut w);
    assert_eq!(scorer, None);
    let b = w.ball.unwrap();
    assert_eq!(b.direction, Vec2 { x: 400, y: -900 });
    assert_eq!(b.speed, 200_000);
}

#[test]
fn bottom_wall_bounce_flips_y_only() {
    let mut w = arena_with_ball(
        Vec2 { x: 400_000, y: 4_000 },
        Vec2 { x: 400, y: -900 },
        320_000,
    );
    let scorer = ball_bouncing(&mut w);
    assert_eq!(scorer, None);
    let b = w.ball.unwrap();
    assert_eq!(b.direction, Vec2 { x: 400, y: 900 });
    assert_eq!(b.speed, 320_000);
}

#[test]
fn left_crossing_scores_for_player_two() {
    let mut w = arena_with_ball(
        Vec2 { x: 3_000, y: 300_000 },
        Vec2 { x: -1000, y: 0 },
        200_000,
    );
    let scorer = ball_bouncing(&mut w);
    assert_eq!(scorer, Some(2));
    assert_eq!(w.scores, Scores { player1: 0, player2: 1 });
    assert_eq!(w.last_scored.player, 1);
    assert!(w.ball_scheduled);
    assert_eq!(w.pending, Some(GameState::Scored));
    // The doomed ball was parked at the window centre.
    assert_eq!(w.ball.unwrap().position, Vec2 { x: 400_000, y: 300_000 });
}

#[test]
fn right_crossing_scores_for_player_one() {
    let mut w = arena_with_ball(
        Vec2 { x: 797_500, y: 300_000 },
        Vec2 { x: 1000, y: 0 },
        200_000,
    );
    let scorer = ball_bouncing(&mut w);
    assert_eq!(scorer, Some(1));
    assert_eq!(w.scores, Scores { player1: 1, player2: 0 });
    assert_eq!(w.last_scored.player, -1);
    assert!(w.ball_scheduled);
    assert_eq!(w.pending, Some(GameState::Scored));
}

#[test]
fn flagged_ball_is_left_alone_by_the_resolver() {
    let mut w = arena_with_ball(
        Vec2 { x: 3_000, y: 300_000 },
        Vec2 { x: -1000, y: 0 },
        200_000,
    );
    w.ball_scheduled = true;
    let before = w;
    let scorer = ball_bouncing(&mut w);
    assert_eq!(scorer, None);
    assert_eq!(w, before);
}

#[test]
fn goal_tick_sequence_matches_the_protocol() {
    // Window width 800 px, ball at x = 3 px (boundary at 5 px) moving left:
    // player 2's score goes 0 -> 1, the ball is removed, the bias points at
    // player 1's side, and the state runs Running -> Scored -> Running once
    // the countdown elapses.
    let mut w = arena_with_ball(
        Vec2 { x: 3_000, y: 300_000 },
        Vec2 { x: -1000, y: 0 },
        200_000,
    );
    let scorer = tick(&mut w, 1, false, false, false, false);
    assert_eq!(scorer, Some(2));
    assert_eq!(w.scores, Scores { player1: 0, player2: 1 });
    assert_eq!(w.last_scored.player, 1);
    assert!(w.ball.is_none());
    assert_eq!(w.state, GameState::Scored);

    let scorer = tick(&mut w, 50, false, false, false, false);
    assert_eq!(scorer, None);
    assert_eq!(w.state, GameState::Scored);
    assert!(w.ball.is_none());

    let scorer = tick(&mut w, 50, false, false, false, false);
    assert_eq!(scorer, None);
    assert_eq!(w.state, GameState::Running);
    let b = w.ball.unwrap();
    assert_eq!(b.speed, 200_000);
    assert_eq!(b.position, Vec2 { x: 400_000, y: 300_000 });
    // Bias toward the side that just won the point: x-component not negative.
    assert!(b.direction.x >= 0);
    assert_eq!(w.scores, Scores { player1: 0, player2: 1 });
}

#[test]
fn speed_grows_across_consecutive_bounces() {
    let mut w = arena_with_ball(
        Vec2 { x: 45_000, y: 300_000 },
        Vec2 { x: -600, y: 200 },
        200_000,
    );
    ball_bouncing(&mut w);
    assert_eq!(w.ball.unwrap().speed, 250_000);
    // Still overlapping next tick: no re-trigger guard exists, so it grows
    // again.
    let scorer = ball_bouncing(&mut w);
    assert_eq!(scorer, None);
    assert_eq!(w.ball.unwrap().speed, 312_500);
}

#[test]
fn move_ball_integrates_direction_speed_and_dt() {
    let mut w = arena_with_ball(
        Vec2 { x: 400_000, y: 300_000 },
        Vec2 { x: 1000, y: -500 },
        200_000,
    );
    move_ball(&mut w, 16);
    let b = w.ball.unwrap();
    // 1000 * 200_000 * 16 / 1_000_000 = 3_200 milli-pixels.
    assert_eq!(b.position, Vec2 { x: 403_200, y: 298_400 });
    assert_eq!(b.direction, Vec2 { x: 1000, y: -500 });
    assert_eq!(b.speed, 200_000);
}

#[test]
fn move_paddles_reads_each_pair_of_keys_independently() {
    let mut w = arena();
    move_paddles(&mut w, true, false, false, true, 16);
    // 400 px/s for 16 ms is 6.4 px = 6_400 milli-pixels.
    assert_eq!(w.paddle1.y, 306_400);
    assert_eq!(w.paddle2.y, 293_600);
    // Both keys held cancel out; no key means no motion.
    let mut w2 = arena();
    move_paddles(&mut w2, true, true, false, false, 16);
    assert_eq!(w2.paddle1.y, 300_000);
    assert_eq!(w2.paddle2.y, 300_000);
}

#[test]
fn confinement_clamps_both_paddles_hard() {
    let mut w = arena();
    w.paddle1.y = 10_000;
    w.paddle2.y = 595_000;
    confine_paddle_movement(&mut w);
    assert_eq!(w.paddle1.y, 90_000);
    assert_eq!(w.paddle2.y, 510_000);
    // In-range paddles stay put.
    confine_paddle_movement(&mut w);
    assert_eq!(w.paddle1.y, 90_000);
    assert_eq!(w.paddle2.y, 510_000);
}

#[test]
fn paddles_stay_confined_over_many_ticks() {
    let mut w = World::new(800_000, 600_000);
    for i in 0..200 {
        if !w.check_in_bounds() {
            break;
        }
        tick(&mut w, 16, true, false, false, i % 2 == 0);
        assert!(w.paddle1.y >= 90_000 && w.paddle1.y <= 510_000);
        assert!(w.paddle2.y >= 90_000 && w.paddle2.y <= 510_000);
    }
}

#[test]
fn countdown_accumulates_and_requests_running() {
    let mut w = arena();
    w.ball = None;
    w.state = GameState::Scored;
    countdown(&mut w, 40);
    assert_eq!(w.countdown_elapsed, 40);
    assert_eq!(w.pending, None);
    countdown(&mut w, 60);
    assert_eq!(w.countdown_elapsed, 100);
    assert_eq!(w.pending, Some(GameState::Running));
}

#[test]
fn countdown_is_a_no_op_outside_scored() {
    let mut w = arena_with_ball(
        Vec2 { x: 400_000, y: 300_000 },
        Vec2 { x: 1000, y: 0 },
        200_000,
    );
    let before = w;
    countdown(&mut w, 40);
    assert_eq!(w, before);
}

#[test]
fn apply_pending_fires_once_and_arms_the_countdown() {
    let mut w = arena();
    w.pending = Some(GameState::Scored);
    w.countdown_elapsed = 73;
    apply_pending(&mut w);
    assert_eq!(w.state, GameState::Scored);
    assert_eq!(w.pending, None);
    assert_eq!(w.countdown_elapsed, 0);
    // A second application changes nothing.
    let before = w;
    apply_pending(&mut w);
    assert_eq!(w, before);
}

#[test]
fn cleanup_removes_only_a_flagged_ball() {
    let mut w = arena_with_ball(
        Vec2 { x: 400_000, y: 300_000 },
        Vec2 { x: 1000, y: 0 },
        200_000,
    );
    let before = w;
    execute_that_silly_little_ball(&mut w);
    assert_eq!(w, before);
    w.ball_scheduled = true;
    execute_that_silly_little_ball(&mut w);
    assert!(w.ball.is_none());
    assert!(!w.ball_scheduled);
}

#[test]
fn spawned_ball_is_unit_centred_and_biased() {
    let mut w = arena();
    w.state = GameState::Scored;
    spawn_ball(&mut w);
    let b = w.ball.unwrap();
    assert_eq!(b.position, Vec2 { x: 400_000, y: 300_000 });
    assert_eq!(b.speed, 200_000);
    let m = b.direction.x * b.direction.x + b.direction.y * b.direction.y;
    assert!(m >= 990_000 && m <= 1_010_000);
    assert!(b.direction.x >= 0);
}

#[test]
fn spawned_ball_bias_follows_the_conceding_side() {
    let mut w = arena();
    w.state = GameState::Scored;
    w.last_scored.player = -1;
    spawn_ball(&mut w);
    assert!(w.ball.unwrap().direction.x <= 0);
}

#[test]
fn new_world_starts_a_running_rally() {
    let w = World::new(800_000, 600_000);
    assert_eq!(w.state, GameState::Running);
    assert_eq!(w.scores, Scores { player1: 0, player2: 0 });
    assert_eq!(w.paddle1.x, 40_000);
    assert_eq!(w.paddle2.x, 761_904);
    assert_eq!(w.paddle1.y, 300_000);
    assert_eq!(w.paddle2.y, 300_000);
    let b = w.ball.unwrap();
    assert_eq!(b.speed, 200_000);
    let m = b.direction.x * b.direction.x + b.direction.y * b.direction.y;
    assert!(m >= 990_000 && m <= 1_010_000);
}

#[test]
fn paused_and_menu_freeze_all_motion() {
    for state in [GameState::Paused, GameState::Menu] {
        let mut w = arena_with_ball(
            Vec2 { x: 400_000, y: 300_000 },
            Vec2 { x: 1000, y: 0 },
            200_000,
        );
        w.state = state;
        let before = w;
        let scorer = tick(&mut w, 16, true, false, true, false);
        assert_eq!(scorer, None);
        assert_eq!(w, before);
    }
}

#[test]
fn scored_gap_holds_scores_and_paddles_still() {
    let mut w = arena();
    w.state = GameState::Scored;
    w.scores = Scores { player1: 3, player2: 7 };
    let scorer = tick(&mut w, 40, true, false, true, false);
    assert_eq!(scorer, None);
    assert_eq!(w.state, GameState::Scored);
    assert_eq!(w.scores, Scores { player1: 3, player2: 7 });
    assert_eq!(w.paddle1.y, 300_000);
    assert_eq!(w.paddle2.y, 300_000);
    assert_eq!(w.countdown_elapsed, 40);
}

#[test]
fn scores_never_decrease_over_a_long_run() {
    let mut w = World::new(800_000, 600_000);
    let mut last = w.scores;
    for _ in 0..500 {
        if !w.check_in_bounds() {
            break;
        }
        let scorer = tick(&mut w, 30, false, false, true, false);
        assert!(w.scores.player1 >= last.player1);
        assert!(w.scores.player2 >= last.player2);
        let gained =
            (w.scores.player1 - last.player1) + (w.scores.player2 - last.player2);
        match scorer {
            Some(_) => assert_eq!(gained, 1),
            None => assert_eq!(gained, 0),
        }
        // The ball is only ever absent during the Scored gap.
        if w.ball.is_none() {
            assert_eq!(w.state, GameState::Scored);
        }
        last = w.scores;
    }
}
