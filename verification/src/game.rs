use vstd::prelude::*;
use crate::app_state::AppStateTransition;
use crate::bricks::{all_live, brick_grid, lemma_brick_grid, spawn_bricks, BrickTracker};
use crate::geometry::Vector2;
use crate::health::Health;
use crate::walls::arena_walls;
use crate::world::{
    Ball, Paddle, World, WorldView, BALL_STARTING_POSITION_X, BALL_STARTING_POSITION_Y,
    PADDLE_STARTING_POSITION_X, PADDLE_STARTING_POSITION_Y,
};

verus! {

/// What a round of the game is doing. While the program is in the
/// game it starts out uninitialized.
#[derive(Clone, Copy, Debug, PartialEq, Eq, Hash, Structural)]
pub enum GameState {
    Uninitialized,
    Playing,
    Paused,
}

impl Default for GameState {
    fn default() -> (state: GameState)
        ensures
            state == GameState::Uninitialized,
    {
        GameState::Uninitialized
    }
}

/// The state that the round is in now.
#[derive(Clone, Copy, Debug, PartialEq, Eq, Structural)]
pub struct CurrentState(pub GameState);

/// A request to start, halt or go on with the round, or to change level.
#[derive(Clone, Copy, Debug, PartialEq, Eq, Structural)]
pub enum GameStateTransition {
    ToUninitialized,
    ToPlayGame,
    ToHaltGame,
    NextLevel,
    ToGameOver,
}

/// The number of the level that is played. The first level is level 1.
#[derive(Clone, Copy, Debug, PartialEq, Eq, Structural)]
pub struct Level(pub usize);

/// The part of a game that the requests for a transition act on.
pub struct Round {
    pub state: GameState,
    pub level: usize,
    /// What the brick tracker counts.
    pub bricks_alive: usize,
    pub world: WorldView,
    /// The requests made of the program so far.
    pub app_requests: Seq<AppStateTransition>,
}

/// The ball put back where a level starts it; it keeps its velocity.
pub open spec fn ball_at_start(ball: Ball) -> Ball {
    Ball {
        position: Vector2 { x: BALL_STARTING_POSITION_X, y: BALL_STARTING_POSITION_Y },
        ..ball
    }
}

/// The paddle put back where a level starts it.
pub open spec fn paddle_at_start(paddle: Paddle) -> Paddle {
    Paddle {
        collider: crate::world::Collider {
            position: Vector2 { x: PADDLE_STARTING_POSITION_X, y: PADDLE_STARTING_POSITION_Y },
            size: paddle.collider.size,
        },
        ..paddle
    }
}

/// The round can take the request: going to the next level needs a
/// ball and a paddle to put back, and a level number that is not the
/// last that there is.
pub open spec fn can_transition(round: Round, request: GameStateTransition) -> bool {
    request == GameStateTransition::NextLevel ==> {
        &&& round.world.ball is Some
        &&& round.world.paddle is Some
        &&& round.level < usize::MAX
    }
}

/// The round after one request.
///
/// Going back to uninitialized empties the world. Play and halt only
/// change the state. The next level raises the level number, puts the
/// bricks of the new level in place of those that are left, and puts
/// ball and paddle back to where they start; score and health are not
/// touched. Game over is no failure: it asks the program for the main
/// menu.
pub open spec fn transitioned(round: Round, request: GameStateTransition) -> Round {
    match request {
        GameStateTransition::ToUninitialized => Round {
            state: GameState::Uninitialized,
            bricks_alive: 0,
            world: WorldView::empty(),
            ..round
        },
        GameStateTransition::ToPlayGame => Round { state: GameState::Playing, ..round },
        GameStateTransition::ToHaltGame => Round { state: GameState::Paused, ..round },
        GameStateTransition::NextLevel => {
            let level = (round.level + 1) as usize;
            Round {
                level,
                bricks_alive: brick_grid(level).len() as usize,
                world: WorldView {
                    ball: match round.world.ball {
                        Some(ball) => Some(ball_at_start(ball)),
                        None => None,
                    },
                    paddle: match round.world.paddle {
                        Some(paddle) => Some(paddle_at_start(paddle)),
                        None => None,
                    },
                    bricks: brick_grid(level),
                    walls: round.world.walls,
                },
                ..round
            }
        },
        GameStateTransition::ToGameOver => Round {
            app_requests: round.app_requests.push(AppStateTransition::ToMainMenu),
            ..round
        },
    }
}

/// The round after a queue of requests, taken in the order in which
/// they came.
pub open spec fn transitions(round: Round, requests: Seq<GameStateTransition>) -> Round
    decreases requests.len(),
{
    if requests.len() == 0 {
        round
    } else {
        transitioned(transitions(round, requests.drop_last()), requests.last())
    }
}

/// The round can take every request of the queue when its turn comes.
pub open spec fn can_transition_all(round: Round, requests: Seq<GameStateTransition>) -> bool
    decreases requests.len(),
{
    requests.len() == 0 || {
        &&& can_transition_all(round, requests.drop_last())
        &&& can_transition(transitions(round, requests.drop_last()), requests.last())
    }
}

/// The tracker counts the bricks of the world, and all of them are live.
pub open spec fn bricks_counted(round: Round) -> bool {
    round.bricks_alive == round.world.bricks.len() && all_live(round.world.bricks)
}

/// A request leaves the tracker's count equal to the number of bricks.
pub proof fn lemma_transition_keeps_count(round: Round, request: GameStateTransition)
    requires
        bricks_counted(round),
        can_transition(round, request),
    ensures
        bricks_counted(transitioned(round, request)),
{
    if request == GameStateTransition::NextLevel {
        lemma_brick_grid((round.level + 1) as usize);
    }
}

/// A round with ball and paddle, whose queue does not ask to go back
/// to uninitialized and whose level number has room for the queue's
/// length, can take the whole queue; it then still has ball and
/// paddle, and its tracker still counts its bricks if it did before.
pub proof fn lemma_can_transition_all(round: Round, requests: Seq<GameStateTransition>)
    requires
        round.world.ball is Some,
        round.world.paddle is Some,
        round.level + requests.len() <= usize::MAX,
        forall|i: int|
            0 <= i < requests.len() ==> #[trigger] requests[i]
                != GameStateTransition::ToUninitialized,
    ensures
        can_transition_all(round, requests),
        transitions(round, requests).world.ball is Some,
        transitions(round, requests).world.paddle is Some,
        transitions(round, requests).level <= round.level + requests.len(),
        transitions(round, requests).world.ball->0.velocity == round.world.ball->0.velocity,
        bricks_counted(round) ==> bricks_counted(transitions(round, requests)),
    decreases requests.len(),
{
    if requests.len() > 0 {
        lemma_can_transition_all(round, requests.drop_last());
        if bricks_counted(round) {
            lemma_transition_keeps_count(
                transitions(round, requests.drop_last()),
                requests.last(),
            );
        }
    }
}

/// The ball, if there is one, has a velocity that can be turned round.
pub open spec fn ball_can_turn(round: Round) -> bool {
    round.world.ball matches Some(ball) ==> ball.velocity.wf()
}

/// A queue that the round can take leaves the tracker's count equal
/// to the number of bricks, and the ball with a velocity that can be
/// turned round.
pub proof fn lemma_transitions_keep(round: Round, requests: Seq<GameStateTransition>)
    requires
        can_transition_all(round, requests),
        bricks_counted(round),
        ball_can_turn(round),
    ensures
        bricks_counted(transitions(round, requests)),
        ball_can_turn(transitions(round, requests)),
    decreases requests.len(),
{
    if requests.len() > 0 {
        lemma_transitions_keep(round, requests.drop_last());
        lemma_transition_keeps_count(transitions(round, requests.drop_last()), requests.last());
    }
}

/// A queue that does not ask to go back to uninitialized leaves ball
/// and paddle where there were any, whether or not the round can take
/// it.
pub proof fn lemma_transitions_keep_players(round: Round, requests: Seq<GameStateTransition>)
    requires
        round.world.ball is Some,
        round.world.paddle is Some,
        forall|i: int|
            0 <= i < requests.len() ==> #[trigger] requests[i]
                != GameStateTransition::ToUninitialized,
    ensures
        transitions(round, requests).world.ball is Some,
        transitions(round, requests).world.paddle is Some,
    decreases requests.len(),
{
    if requests.len() > 0 {
        lemma_transitions_keep_players(round, requests.drop_last());
    }
}

/// The round that the given pieces make up.
pub open spec fn round_of(
    game_state: CurrentState,
    level: Level,
    brick_tracker: BrickTracker,
    world: World,
    app_requests: Seq<AppStateTransition>,
) -> Round {
    Round {
        state: game_state.0,
        level: level.0,
        bricks_alive: brick_tracker.0,
        world: world@,
        app_requests,
    }
}

/// Handles the queued requests for a transition of the round, in the
/// order in which they came. Nothing else changes the round's state.
pub fn transition_game(
    game_state: &mut CurrentState,
    game_transition_reqs: &Vec<GameStateTransition>,
    world: &mut World,
    level: &mut Level,
    brick_tracker: &mut BrickTracker,
    app_state_msgs: &mut Vec<AppStateTransition>,
)
    requires
        can_transition_all(
            round_of(
                *old(game_state),
                *old(level),
                *old(brick_tracker),
                *old(world),
                old(app_state_msgs)@,
            ),
            game_transition_reqs@,
        ),
    ensures
        round_of(
            *final(game_state),
            *final(level),
            *final(brick_tracker),
            *final(world),
            final(app_state_msgs)@,
        ) == transitions(
            round_of(
                *old(game_state),
                *old(level),
                *old(brick_tracker),
                *old(world),
                old(app_state_msgs)@,
            ),
            game_transition_reqs@,
        ),
{
    let ghost start = round_of(*game_state, *level, *brick_tracker, *world, app_state_msgs@);
    let ghost requests = game_transition_reqs@;
    let n: usize = game_transition_reqs.len();
    let mut i: usize = 0;
    while i < n
        invariant
            i <= n,
            n == requests.len(),
            requests == game_transition_reqs@,
            can_transition_all(start, requests),
            round_of(*game_state, *level, *brick_tracker, *world, app_state_msgs@) == transitions(
                start,
                requests.take(i as int),
            ),
        decreases n - i,
    {
        proof {
            assert(requests.take(i as int + 1).drop_last() == requests.take(i as int));
            assert(requests.take(i as int + 1).last() == requests[i as int]);
            lemma_can_take_prefix(start, requests, i as int + 1);
        }
        match game_transition_reqs[i] {
            GameStateTransition::ToUninitialized => {
                world.despawn_all();
                brick_tracker.0 = 0;
                game_state.0 = GameState::Uninitialized;
            },
            GameStateTransition::ToPlayGame => {
                game_state.0 = GameState::Playing;
            },
            GameStateTransition::ToHaltGame => {
                game_state.0 = GameState::Paused;
            },
            GameStateTransition::NextLevel => {
                level.0 = level.0 + 1;
                world.bricks = Vec::new();
                brick_tracker.0 = spawn_bricks(&mut world.bricks, level.0);
                assert(world.bricks@ == brick_grid(level.0));
                let mut ball: Ball = world.ball.unwrap();
                ball.position = Vector2::new(BALL_STARTING_POSITION_X, BALL_STARTING_POSITION_Y);
                world.ball = Some(ball);
                let mut paddle: Paddle = world.paddle.unwrap();
                paddle.collider.position = Vector2::new(
                    PADDLE_STARTING_POSITION_X,
                    PADDLE_STARTING_POSITION_Y,
                );
                world.paddle = Some(paddle);
            },
            GameStateTransition::ToGameOver => {
                app_state_msgs.push(AppStateTransition::ToMainMenu);
            },
        }
        i = i + 1;
    }
    assert(requests.take(n as int) == requests);
}

/// A queue that the round can take as a whole, it can take up to any
/// point.
pub proof fn lemma_can_take_prefix(round: Round, requests: Seq<GameStateTransition>, upto: int)
    requires
        can_transition_all(round, requests),
        0 <= upto <= requests.len(),
    ensures
        can_transition_all(round, requests.take(upto)),
    decreases requests.len(),
{
    if upto == requests.len() {
        assert(requests.take(upto) == requests);
    } else {
        assert(requests.drop_last().take(upto) == requests.take(upto));
        lemma_can_take_prefix(round, requests.drop_last(), upto);
    }
}

/// The world as a round begins with it: ball and paddle where they
/// start, the four walls, and the bricks of the level.
pub open spec fn fresh_world(level: usize) -> WorldView {
    WorldView {
        ball: Some(Ball::spec_new()),
        paddle: Some(Paddle::spec_new()),
        bricks: brick_grid(level),
        walls: arena_walls(),
    }
}

/// Spawns paddle, ball and walls. A ball or a paddle that is there is
/// replaced; the walls come behind those that are there.
pub fn setup(world: &mut World)
    ensures
        final(world)@ == (WorldView {
            ball: Some(Ball::spec_new()),
            paddle: Some(Paddle::spec_new()),
            bricks: old(world)@.bricks,
            walls: old(world)@.walls + arena_walls(),
        }),
{
    world.paddle = Some(Paddle::new());
    world.ball = Some(Ball::new());
    crate::walls::setup(&mut world.walls);
}

/// What a round that is being played asks for: the next level when no
/// brick is left, and then game over when no health is.
pub open spec fn play_requests(bricks_alive: usize, health: Health) -> Seq<GameStateTransition> {
    (if bricks_alive == 0 {
        seq![GameStateTransition::NextLevel]
    } else {
        Seq::empty()
    }) + (if health.0 == 0 {
        seq![GameStateTransition::ToGameOver]
    } else {
        Seq::empty()
    })
}

/// Looks after the round, once per frame.
///
/// An uninitialized round is set up: the world is emptied and gets
/// ball, paddle, walls and the bricks of the level, the tracker counts
/// those bricks, and the round asks to be played. A round that is
/// being played asks for what `play_requests` says. A halted round is
/// left alone. The requests come behind those that are queued.
pub fn manage_game(
    game_state: &CurrentState,
    world: &mut World,
    game_state_msgs: &mut Vec<GameStateTransition>,
    brick_tracker: &mut BrickTracker,
    health: &Health,
    level: &Level,
)
    ensures
        game_state.0 == GameState::Uninitialized ==> {
            &&& final(world)@ == fresh_world(level.0)
            &&& final(brick_tracker).0 == brick_grid(level.0).len()
            &&& final(game_state_msgs)@ == old(game_state_msgs)@.push(
                GameStateTransition::ToPlayGame,
            )
        },
        game_state.0 == GameState::Playing ==> {
            &&& final(world)@ == old(world)@
            &&& *final(brick_tracker) == *old(brick_tracker)
            &&& final(game_state_msgs)@ == old(game_state_msgs)@ + play_requests(
                old(brick_tracker).0,
                *health,
            )
        },
        game_state.0 == GameState::Paused ==> {
            &&& final(world)@ == old(world)@
            &&& *final(brick_tracker) == *old(brick_tracker)
            &&& final(game_state_msgs)@ == old(game_state_msgs)@
        },
{
    match game_state.0 {
        GameState::Uninitialized => {
            world.despawn_all();
            setup(world);
            brick_tracker.0 = spawn_bricks(&mut world.bricks, level.0);
            game_state_msgs.push(GameStateTransition::ToPlayGame);
            assert(world.bricks@ == brick_grid(level.0));
            assert(world.walls@ == arena_walls());
        },
        GameState::Playing => {
            if brick_tracker.0 == 0 {
                game_state_msgs.push(GameStateTransition::NextLevel);
            }
            if health.0 == 0 {
                game_state_msgs.push(GameStateTransition::ToGameOver);
            }
        },
        GameState::Paused => {},
    }
}

/// Turns the keys that are not part of the play itself into requests:
/// the confirm key asks to play, the cancel key to halt. Each counts
/// in the frame in which it has gone down.
pub fn game_aux_keys_handler(
    game_msgs: &mut Vec<GameStateTransition>,
    confirm_pressed: bool,
    cancel_pressed: bool,
)
    ensures
        final(game_msgs)@ == old(game_msgs)@ + (if confirm_pressed {
            seq![GameStateTransition::ToPlayGame]
        } else {
            Seq::empty()
        }) + (if cancel_pressed {
            seq![GameStateTransition::ToHaltGame]
        } else {
            Seq::empty()
        }),
{
    if confirm_pressed {
        game_msgs.push(GameStateTransition::ToPlayGame);
    }
    if cancel_pressed {
        game_msgs.push(GameStateTransition::ToHaltGame);
    }
}

/// Clearing a level asks for the next level once. A round that is
/// being played with no brick left asks for the next level exactly
/// once, however many bricks fell in the tick before; and when that
/// request has been handled there are bricks again, so that the round
/// does not ask a second time.
pub proof fn lemma_level_clear_asks_once(round: Round, health: Health)
    requires
        round.state == GameState::Playing,
        round.bricks_alive == 0,
        round.world.ball is Some,
        round.world.paddle is Some,
        round.level < usize::MAX,
    ensures
        play_requests(round.bricks_alive, health)[0] == GameStateTransition::NextLevel,
        forall|i: int|
            1 <= i < play_requests(round.bricks_alive, health).len() ==> play_requests(
                round.bricks_alive,
                health,
            )[i] != GameStateTransition::NextLevel,
        can_transition_all(round, play_requests(round.bricks_alive, health)),
        ({
            let next = transitions(round, play_requests(round.bricks_alive, health));
            &&& next.state == GameState::Playing
            &&& next.level == round.level + 1
            &&& next.bricks_alive == 35
            &&& next.world.bricks == brick_grid(next.level)
            &&& forall|i: int|
                0 <= i < play_requests(next.bricks_alive, health).len() ==> play_requests(
                    next.bricks_alive,
                    health,
                )[i] != GameStateTransition::NextLevel
        }),
{
    let requests = play_requests(round.bricks_alive, health);
    lemma_brick_grid((round.level + 1) as usize);
    let first = seq![GameStateTransition::NextLevel];
    assert(first.drop_last() == Seq::<GameStateTransition>::empty());
    assert(transitions(round, first) == transitioned(round, GameStateTransition::NextLevel)) by {
        assert(transitions(round, first.drop_last()) == round);
    }
    assert(can_transition_all(round, first)) by {
        assert(can_transition_all(round, first.drop_last()));
    }
    if health.0 == 0 {
        assert(requests == first.push(GameStateTransition::ToGameOver));
        assert(requests.drop_last() == first);
    } else {
        assert(requests == first);
    }
}

} // verus!
