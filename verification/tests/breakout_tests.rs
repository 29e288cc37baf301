use breaker::app_state::{AppState, AppStateTransition};
use breaker::blink::Blinking;
use breaker::breakout::BreakoutGame;
use breaker::bricks::{Brick, BrickTracker};
use breaker::game::{CurrentState, GameState, GameStateTransition, Level};
use breaker::geometry::{Side, Vector2};
use breaker::health::{Health, PlayerMessage};
use breaker::physics::{ControlStyle, PaddleContact, PaddleMomentum, FIXED_TIME_PERIOD};
use breaker::scoreboard::Scoreboard;
use breaker::world::{Ball, Collider, Paddle, Velocity, World};

const FRAME: u64 = 16_000;

// A game of level 1 that is being played: two frames after its making.
fn started() -> (BreakoutGame, Vec<AppStateTransition>) {
    let mut game = BreakoutGame::new();
    let mut app = Vec::new();
    game.update(&mut app, AppState::InGame, false, false, FRAME);
    game.update(&mut app, AppState::InGame, false, false, FRAME);
    (game, app)
}

fn tick(game: &mut BreakoutGame) -> Option<PaddleContact> {
    let contact = game.begin_fixed_update(false, false, FIXED_TIME_PERIOD);
    game.end_fixed_update(None);
    contact
}

fn place_ball(game: &mut BreakoutGame, x: i64, y: i64, vx: i32, vy: i32) {
    let mut ball = game.world.ball.unwrap();
    ball.position = Vector2::new(x, y);
    ball.velocity = Velocity::new(vx, vy);
    game.world.ball = Some(ball);
}

#[test]
fn new_game_has_not_begun() {
    let game = BreakoutGame::new();
    assert_eq!(game.scoreboard, Scoreboard { score: 0 });
    assert_eq!(game.current_state, CurrentState(GameState::Uninitialized));
    assert_eq!(game.brick_tracker, BrickTracker(0));
    assert_eq!(game.level, Level(1));
    assert_eq!(game.health, Health(3));
    assert_eq!(game.paddle_momentum, PaddleMomentum(0));
    assert_eq!(game.control_style, ControlStyle::Edges);
    assert_eq!(game.world, World::new());
    assert!(game.game_msgs.is_empty());
    assert!(game.player_msgs.is_empty());
    assert!(!game.collided);
    assert_eq!(game.sound_delay, 0);
}

#[test]
fn game_waits_outside_the_game_state() {
    let mut game = BreakoutGame::new();
    let mut app = Vec::new();
    for state in [AppState::MainMenu, AppState::GameOver, AppState::Exit] {
        assert!(!game.update(&mut app, state, true, true, FRAME));
        assert_eq!(game, BreakoutGame::new());
    }
    assert_eq!(tick(&mut game), None);
    assert_eq!(game, BreakoutGame::new());
    assert!(app.is_empty());
}

#[test]
fn first_frames_set_up_and_start_the_round() {
    let mut game = BreakoutGame::new();
    let mut app = Vec::new();
    game.update(&mut app, AppState::InGame, false, false, FRAME);
    assert_eq!(game.current_state, CurrentState(GameState::Uninitialized));
    assert_eq!(game.game_msgs, vec![GameStateTransition::ToPlayGame]);
    assert_eq!(game.brick_tracker, BrickTracker(35));
    assert_eq!(game.world.bricks.len(), 35);
    assert_eq!(game.world.walls.len(), 4);
    assert_eq!(game.world.ball, Some(Ball::new()));
    assert_eq!(game.world.paddle, Some(Paddle::new()));
    // nothing moves before the round is played
    assert_eq!(tick(&mut game), None);
    assert_eq!(game.world.ball, Some(Ball::new()));

    game.update(&mut app, AppState::InGame, false, false, FRAME);
    assert_eq!(game.current_state, CurrentState(GameState::Playing));
    assert!(game.game_msgs.is_empty());
    assert_eq!(game.world.bricks.len(), 35);
    assert_eq!(game.world.walls.len(), 4);
    assert!(app.is_empty());
}

#[test]
fn tick_runs_its_steps_in_order() {
    let (mut game, _) = started();
    let contact = game.begin_fixed_update(false, true, FIXED_TIME_PERIOD);
    assert_eq!(contact, None);
    game.end_fixed_update(None);
    assert_eq!(game.paddle_momentum, PaddleMomentum(833));
    // the paddle moves by the momentum of this very tick
    assert_eq!(game.world.paddle.unwrap().collider.position, Vector2::new(833, -240_000));
    assert_eq!(game.world.ball.unwrap().position, Vector2::new(-146_465, -53_535));
    assert_eq!(game.world.ball.unwrap().velocity, Velocity::new(707, -707));
    assert!(!game.collided);
    assert_eq!(game.scoreboard.score, 0);
}

#[test]
fn ball_through_the_bottom_costs_health_and_no_score() {
    let (mut game, mut app) = started();
    place_ball(&mut game, 0, -290_000, 0, -1000);
    tick(&mut game);
    assert_eq!(game.player_msgs, vec![PlayerMessage::JustLostHealth]);
    assert_eq!(game.scoreboard.score, 0);
    assert_eq!(game.brick_tracker, BrickTracker(35));
    // the ball is not turned round: it goes on falling
    assert_eq!(game.world.ball.unwrap().velocity, Velocity::new(0, -1000));
    assert_eq!(game.world.ball.unwrap().position, Vector2::new(0, -295_000));
    assert!(!game.collided);

    game.update(&mut app, AppState::InGame, false, false, FRAME);
    assert_eq!(game.health, Health(2));
    assert!(game.player_msgs.is_empty());
    let window = Some(Blinking { elapsed: FRAME, duration: 1_000_000 });
    assert_eq!(game.world.paddle.unwrap().blinking, window);
    assert_eq!(game.world.ball.unwrap().blinking, window);
    assert!(!game.world.paddle.unwrap().visible);

    // the ball still overlaps the bottom wall: the next loss is dropped
    tick(&mut game);
    assert_eq!(game.player_msgs, vec![PlayerMessage::JustLostHealth]);
    game.update(&mut app, AppState::InGame, false, false, FRAME);
    assert_eq!(game.health, Health(2));
    assert!(game.player_msgs.is_empty());
    assert!(app.is_empty());
    assert!(game.game_msgs.is_empty());
}

#[test]
fn ball_on_a_weak_brick_scores_and_breaks_it() {
    let (mut game, _) = started();
    // just below the middle of the first brick of the second row, going up
    place_ball(&mut game, -315_000, 195_000, 0, 1000);
    let weak = game.world.bricks[7];
    assert_eq!(weak.strength, 1);
    assert_eq!(weak.collider.position, Vector2::new(-315_000, 210_000));
    tick(&mut game);
    assert_eq!(game.scoreboard.score, 10);
    assert_eq!(game.brick_tracker, BrickTracker(34));
    assert_eq!(game.world.bricks.len(), 34);
    assert!(!game.world.bricks.contains(&weak));
    assert!(game.collided);
    assert!(game.player_msgs.is_empty());
}

#[test]
fn cleared_level_asks_for_the_next_level_once() {
    let (mut game, mut app) = started();
    let brick = |x: i64| {
        Brick::new(
            Collider { position: Vector2::new(x, 0), size: Vector2::new(100_000, 50_000) },
            1,
        )
    };
    // two bricks are left, and the ball breaks both in one tick
    game.world.bricks = vec![brick(-52_500), brick(52_500)];
    game.brick_tracker = BrickTracker(2);
    place_ball(&mut game, 0, -44_000, 0, 1000);
    tick(&mut game);
    assert_eq!(game.brick_tracker, BrickTracker(0));
    assert!(game.world.bricks.is_empty());
    assert_eq!(game.scoreboard.score, 20);

    game.update(&mut app, AppState::InGame, false, false, FRAME);
    assert_eq!(game.game_msgs, vec![GameStateTransition::NextLevel]);
    assert_eq!(game.level, Level(1));

    game.update(&mut app, AppState::InGame, false, false, FRAME);
    assert_eq!(game.level, Level(2));
    assert_eq!(game.brick_tracker, BrickTracker(35));
    assert_eq!(game.world.bricks.len(), 35);
    assert!(game.game_msgs.is_empty());
    assert_eq!(game.world.ball.unwrap().position, Vector2::new(-150_000, -50_000));
    // score and health go on into the next level
    assert_eq!(game.scoreboard.score, 20);
    assert_eq!(game.health, Health(3));

    game.update(&mut app, AppState::InGame, false, false, FRAME);
    assert_eq!(game.level, Level(2));
    assert!(game.game_msgs.is_empty());
    assert!(app.is_empty());
}

#[test]
fn lost_ball_without_health_asks_for_the_main_menu() {
    let (mut game, mut app) = started();
    game.health = Health(0);
    place_ball(&mut game, 0, -290_000, 0, -1000);
    tick(&mut game);
    game.update(&mut app, AppState::InGame, false, false, FRAME);
    assert_eq!(game.health, Health(0));
    assert_eq!(app, vec![AppStateTransition::ToMainMenu]);
    assert_eq!(game.world.paddle.unwrap().blinking, None);
    // and the round asks for game over, which the next frame turns into the same request
    assert_eq!(game.game_msgs, vec![GameStateTransition::ToGameOver]);
    game.update(&mut app, AppState::MainMenu, false, false, FRAME);
    assert_eq!(game.game_msgs, vec![GameStateTransition::ToGameOver]);
    game.update(&mut app, AppState::InGame, false, false, FRAME);
    assert_eq!(app[1], AppStateTransition::ToMainMenu);
}

#[test]
fn keys_halt_and_resume_the_round() {
    let (mut game, mut app) = started();
    game.update(&mut app, AppState::InGame, false, true, FRAME);
    assert_eq!(game.current_state, CurrentState(GameState::Playing));
    game.update(&mut app, AppState::InGame, false, false, FRAME);
    assert_eq!(game.current_state, CurrentState(GameState::Paused));
    // a halted round is frozen
    let frozen = game.clone();
    assert_eq!(tick(&mut game), None);
    assert!(!game.update(&mut app, AppState::InGame, false, false, FRAME));
    assert_eq!(game, frozen);
    game.update(&mut app, AppState::InGame, true, false, FRAME);
    game.update(&mut app, AppState::InGame, false, false, FRAME);
    assert_eq!(game.current_state, CurrentState(GameState::Playing));
}

#[test]
fn paddle_hit_is_reported_and_the_deflection_taken() {
    let (mut game, _) = started();
    // the move of the tick takes the ball 4 units down, one unit into the paddle's top
    place_ball(&mut game, 0, -212_000, 600, -800);
    let contact = game.begin_fixed_update(false, false, FIXED_TIME_PERIOD);
    assert_eq!(contact, Some(PaddleContact { side: Side::Top, deflect: true }));
    assert_eq!(game.world.ball.unwrap().velocity, Velocity::new(600, 800));
    assert!(game.collided);
    game.end_fixed_update(Some(Velocity::new(-280, 960)));
    assert_eq!(game.world.ball.unwrap().velocity, Velocity::new(-280, 960));
}

#[test]
fn deflected_ball_still_meets_the_wall() {
    let (mut game, _) = started();
    // the move of the tick takes the ball 3 units to the right, and leaves it in the left wall
    place_ball(&mut game, -436_000, 0, 600, 800);
    game.begin_fixed_update(false, false, FIXED_TIME_PERIOD);
    assert_eq!(game.world.ball.unwrap().position, Vector2::new(-433_000, 4_000));
    // a velocity handed in that points into the left wall is turned by the wall pass
    game.end_fixed_update(Some(Velocity::new(-960, 280)));
    assert_eq!(game.world.ball.unwrap().velocity, Velocity::new(960, 280));
    assert!(game.collided);
}

#[test]
fn sound_follows_a_collision() {
    let (mut game, mut app) = started();
    place_ball(&mut game, -432_000, 0, -600, 800);
    tick(&mut game);
    assert!(game.collided);
    assert_eq!(game.world.ball.unwrap().velocity, Velocity::new(600, 800));
    // 32 000 microseconds have gone by: too early
    assert!(!game.update(&mut app, AppState::InGame, false, false, FRAME));
    assert!(!game.collided);
    place_ball(&mut game, -432_000, 0, -600, 800);
    tick(&mut game);
    assert!(game.update(&mut app, AppState::InGame, false, false, 100_000));
    assert_eq!(game.sound_delay, 0);
}

#[test]
fn game_that_runs_stays_well_formed() {
    let (mut game, mut app) = started();
    assert!(game.well_formed());
    assert!(game.is_playable());
    assert!(game.ready_for_update(&app, AppState::InGame));
    assert!(game.ready_for_fixed_update());
    place_ball(&mut game, -315_000, 195_000, 600, 800);
    for _ in 0..200 {
        tick(&mut game);
        game.update(&mut app, AppState::InGame, false, false, FRAME);
        assert!(game.well_formed());
        assert_eq!(game.brick_tracker, BrickTracker(game.world.bricks.len()));
        let x = game.world.paddle.unwrap().collider.position.x;
        assert!(-370_000 <= x && x <= 370_000);
        let v = game.world.ball.unwrap().velocity;
        assert_eq!(v.x * v.x + v.y * v.y, 1_000_000);
    }
    assert!(game.scoreboard.score > 0);
}

#[test]
fn game_put_together_wrongly_is_not_well_formed() {
    assert!(BreakoutGame::new().well_formed());

    let (mut game, _) = started();
    game.brick_tracker = BrickTracker(34);
    assert!(!game.well_formed());

    let (mut game, _) = started();
    game.world.bricks[3].strength = 0;
    assert!(!game.well_formed());

    let (mut game, _) = started();
    game.world.bricks[3].strength = 4;
    assert!(!game.well_formed());

    let (mut game, _) = started();
    game.world.bricks[3].tint = 2;
    assert!(!game.well_formed());

    let (mut game, _) = started();
    let mut ball = game.world.ball.unwrap();
    ball.velocity.y = i64::MIN;
    game.world.ball = Some(ball);
    assert!(!game.well_formed());

    let (mut game, _) = started();
    game.game_msgs.push(GameStateTransition::ToUninitialized);
    assert!(!game.well_formed());

    let (mut game, _) = started();
    game.world.paddle = None;
    assert!(!game.well_formed());

    let mut game = BreakoutGame::new();
    game.game_msgs.push(GameStateTransition::ToPlayGame);
    assert!(!game.well_formed());
}

#[test]
fn game_without_room_is_not_ready() {
    let (mut game, app) = started();
    game.level = Level(usize::MAX);
    assert!(game.ready_for_update(&app, AppState::InGame));
    game.game_msgs.push(GameStateTransition::ToPlayGame);
    assert!(game.ready_for_update(&app, AppState::InGame));
    // the level number has no room for another level
    game.game_msgs.push(GameStateTransition::NextLevel);
    assert!(game.well_formed());
    assert!(!game.ready_for_update(&app, AppState::InGame));
    // outside the game the queue is not handled
    assert!(game.ready_for_update(&app, AppState::MainMenu));
    game.level = Level(usize::MAX - 1);
    assert!(game.ready_for_update(&app, AppState::InGame));
    game.game_msgs.push(GameStateTransition::NextLevel);
    assert!(!game.ready_for_update(&app, AppState::InGame));

    let (mut game, _) = started();
    game.scoreboard = Scoreboard { score: usize::MAX - 350 };
    assert!(game.ready_for_fixed_update());
    game.scoreboard = Scoreboard { score: usize::MAX - 349 };
    assert!(game.well_formed());
    assert!(!game.ready_for_fixed_update());
}

#[test]
fn game_goes_back_to_uninitialized_and_begins_again() {
    let (mut game, mut app) = started();
    game.scoreboard = Scoreboard { score: 70 };
    game.health = Health(1);
    game.level = Level(3);
    game.game_msgs.push(GameStateTransition::ToUninitialized);
    assert!(!game.well_formed());
    assert!(game.is_playable());
    assert!(game.ready_for_update(&app, AppState::InGame));
    game.update(&mut app, AppState::InGame, false, false, FRAME);
    // the world was emptied and, in the same frame, set up anew
    assert_eq!(game.current_state, CurrentState(GameState::Uninitialized));
    assert_eq!(game.game_msgs, vec![GameStateTransition::ToPlayGame]);
    assert_eq!(game.world.ball, Some(Ball::new()));
    assert_eq!(game.world.paddle, Some(Paddle::new()));
    assert_eq!(game.world.walls.len(), 4);
    assert_eq!(game.world.bricks.len(), 35);
    assert_eq!(game.brick_tracker, BrickTracker(35));
    assert_eq!(game.level, Level(3));
    assert_eq!(game.scoreboard.score, 70);
    assert!(game.well_formed());
    game.update(&mut app, AppState::InGame, false, false, FRAME);
    assert_eq!(game.current_state, CurrentState(GameState::Playing));
    assert!(app.is_empty());
}

#[test]
fn queue_that_the_round_cannot_take_is_not_ready() {
    let app = Vec::new();
    // a level change needs a ball and a paddle
    let (mut game, _) = started();
    game.game_msgs = vec![GameStateTransition::ToUninitialized, GameStateTransition::NextLevel];
    assert!(!game.ready_for_update(&app, AppState::InGame));
    assert!(game.ready_for_update(&app, AppState::GameOver));

    let mut game = BreakoutGame::new();
    game.game_msgs = vec![GameStateTransition::NextLevel];
    assert!(!game.ready_for_update(&app, AppState::InGame));

    // a round cannot come out of the queue being played without ball and paddle
    let (mut game, _) = started();
    game.game_msgs =
        vec![GameStateTransition::ToUninitialized, GameStateTransition::ToPlayGame];
    assert!(!game.ready_for_update(&app, AppState::InGame));
    let mut game = BreakoutGame::new();
    game.game_msgs = vec![GameStateTransition::ToPlayGame];
    assert!(!game.ready_for_update(&app, AppState::InGame));

    // halted without them it can
    let (mut game, _) = started();
    game.game_msgs =
        vec![GameStateTransition::ToUninitialized, GameStateTransition::ToHaltGame];
    assert!(game.ready_for_update(&app, AppState::InGame));
    let (mut game, _) = started();
    game.game_msgs = vec![
        GameStateTransition::NextLevel,
        GameStateTransition::ToGameOver,
        GameStateTransition::ToHaltGame,
        GameStateTransition::ToPlayGame,
    ];
    assert!(game.ready_for_update(&app, AppState::InGame));
}

#[test]
fn game_that_is_not_playable_is_not_ready() {
    let app = Vec::new();
    let (mut game, _) = started();
    game.brick_tracker = BrickTracker(3);
    assert!(!game.is_playable());
    assert!(!game.ready_for_update(&app, AppState::MainMenu));
    assert!(!game.ready_for_fixed_update());

    let (mut game, _) = started();
    game.world.ball = None;
    assert!(!game.is_playable());
    game.current_state = CurrentState(GameState::Paused);
    assert!(game.is_playable());
    assert!(game.ready_for_fixed_update());
}

#[test]
fn deflection_must_keep_the_speed_of_the_ball() {
    let (mut game, _) = started();
    place_ball(&mut game, 0, -212_000, 600, -800);
    let contact = game.begin_fixed_update(false, false, FIXED_TIME_PERIOD);
    assert_eq!(contact, Some(PaddleContact { side: Side::Top, deflect: true }));
    assert!(game.ready_for_deflection(&None));
    assert!(game.ready_for_deflection(&Some(Velocity::new(-280, 960))));
    assert!(game.ready_for_deflection(&Some(Velocity::new(1000, 0))));
    assert!(game.ready_for_deflection(&Some(Velocity::new(0, 1001))));
    assert!(game.ready_for_deflection(&Some(Velocity::new(707, 707))));
    // five times as fast, twice as slow, at rest
    assert!(!game.ready_for_deflection(&Some(Velocity::new(3000, 4000))));
    assert!(!game.ready_for_deflection(&Some(Velocity::new(300, 400))));
    assert!(!game.ready_for_deflection(&Some(Velocity::new(0, 0))));
    assert!(!game.ready_for_deflection(&Some(Velocity::new(0, 1002))));
    assert!(!game.ready_for_deflection(&Some(Velocity::new(0, 998))));
    let mut stuck = Velocity::new(600, 800);
    stuck.x = i64::MIN;
    assert!(!game.ready_for_deflection(&Some(stuck)));
    // a round that is not played takes no velocity and asks nothing of it
    game.current_state = CurrentState(GameState::Paused);
    assert!(game.ready_for_deflection(&Some(Velocity::new(3000, 4000))));
}
