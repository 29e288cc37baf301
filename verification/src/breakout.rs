use vstd::prelude::*;
use crate::app_state::{AppState, AppStateTransition};
use crate::blink::{blink, blinked};
use crate::bricks::{
    all_live, brick_grid, lemma_brick_grid, Brick, BrickTracker, MAX_BRICK_STRENGTH,
};
use crate::game::{
    can_transition, can_transition_all, fresh_world, game_aux_keys_handler,
    lemma_can_take_prefix, lemma_can_transition_all, lemma_transitions_keep,
    lemma_transitions_keep_players, manage_game, play_requests, transition_game, transitions,
    CurrentState, GameState, GameStateTransition, Level, Round,
};
use crate::health::{
    asks_for_menu, fresh_blink, health_handler, loses_health, menu_requests, Health,
    PlayerMessage, PLAYER_STARTING_HEALTH,
};
use crate::physics::{
    bounced, brick_pass, check_brick_collisions, check_paddle_collision, check_wall_collision,
    contact_of, first_wall_hit, lemma_bounce_keeps_speed, lemma_brick_pass_bounds, move_ball,
    keeps_speed, moved_ball, moved_paddle, next_momentum, paddle_hit, speed_kept, update_paddle,
    update_paddle_momentum, ControlStyle, PaddleContact, PaddleMomentum,
};
use crate::scoreboard::{Scoreboard, BRICK_SCORE};
use crate::sound::{play_collision_sound, waited, COLLISION_SOUND_DELAY};
use crate::walls::{check_bottom_wall_collision, touches_bottom};
use crate::world::{
    Ball, Paddle, Velocity, World, WorldView, PADDLE_LEFT_BOUND, PADDLE_RIGHT_BOUND,
};

verus! {

/// A whole game: the world, what is counted of it, and what waits to
/// be handled. `update` runs once per frame and the two halves of the
/// physics tick at a fixed rate.
#[derive(Clone, Debug, PartialEq, Eq)]
pub struct BreakoutGame {
    pub scoreboard: Scoreboard,
    pub current_state: CurrentState,
    pub brick_tracker: BrickTracker,
    pub level: Level,
    pub health: Health,
    pub paddle_momentum: PaddleMomentum,
    pub control_style: ControlStyle,
    pub world: World,
    /// The requests for a transition that the next frame handles.
    pub game_msgs: Vec<GameStateTransition>,
    /// The lives lost that the next frame handles.
    pub player_msgs: Vec<PlayerMessage>,
    /// The ball has bounced since the sound was last decided on.
    pub collided: bool,
    /// Microseconds since the collision sound was last played.
    pub sound_delay: u64,
}

/// A `BreakoutGame` with its collections as sequences.
pub struct BreakoutView {
    pub scoreboard: Scoreboard,
    pub current_state: CurrentState,
    pub brick_tracker: BrickTracker,
    pub level: Level,
    pub health: Health,
    pub paddle_momentum: PaddleMomentum,
    pub control_style: ControlStyle,
    pub world: WorldView,
    pub game_msgs: Seq<GameStateTransition>,
    pub player_msgs: Seq<PlayerMessage>,
    pub collided: bool,
    pub sound_delay: u64,
}

impl View for BreakoutGame {
    type V = BreakoutView;

    open spec fn view(&self) -> BreakoutView {
        BreakoutView {
            scoreboard: self.scoreboard,
            current_state: self.current_state,
            brick_tracker: self.brick_tracker,
            level: self.level,
            health: self.health,
            paddle_momentum: self.paddle_momentum,
            control_style: self.control_style,
            world: self.world@,
            game_msgs: self.game_msgs@,
            player_msgs: self.player_msgs@,
            collided: self.collided,
            sound_delay: self.sound_delay,
        }
    }
}

/// What a frame leaves behind.
pub struct Frame {
    pub game: BreakoutView,
    /// The requests made of the program, those of this frame last.
    pub app_requests: Seq<AppStateTransition>,
    /// The collision sound is to be played.
    pub play_sound: bool,
}

impl BreakoutView {
    /// A game that has not begun: level 1, full health, no score, an
    /// empty world, and the paddle steering the ball by its edges.
    pub open spec fn initial() -> BreakoutView {
        BreakoutView {
            scoreboard: Scoreboard { score: 0 },
            current_state: CurrentState(GameState::Uninitialized),
            brick_tracker: BrickTracker(0),
            level: Level(1),
            health: Health(PLAYER_STARTING_HEALTH),
            paddle_momentum: PaddleMomentum(0),
            control_style: ControlStyle::Edges,
            world: WorldView::empty(),
            game_msgs: Seq::empty(),
            player_msgs: Seq::empty(),
            collided: false,
            sound_delay: 0,
        }
    }

    /// The part of the game that transitions act on.
    pub open spec fn round(self, app_requests: Seq<AppStateTransition>) -> Round {
        Round {
            state: self.current_state.0,
            level: self.level.0,
            bricks_alive: self.brick_tracker.0,
            world: self.world,
            app_requests,
        }
    }

    /// Ball and paddle are there.
    pub open spec fn has_players(self) -> bool {
        self.world.ball is Some && self.world.paddle is Some
    }

    /// What the physics needs of a game. The tracker counts the
    /// bricks, which are live; the ball's velocity can be turned
    /// round; and a round that is being played has its ball and its
    /// paddle.
    pub open spec fn playable(self) -> bool {
        &&& self.brick_tracker.0 == self.world.bricks.len()
        &&& all_live(self.world.bricks)
        &&& (self.world.ball matches Some(ball) ==> ball.velocity.wf())
        &&& (self.current_state.0 == GameState::Playing ==> self.has_players())
    }

    /// A frame can be run in the given state of the program. The game
    /// is playable. And if the frame handles the queued requests, the
    /// round can take each of them when its turn comes, and does not
    /// come out of them being played without a ball or a paddle.
    pub open spec fn can_update(
        self,
        app_requests: Seq<AppStateTransition>,
        app_state: AppState,
    ) -> bool {
        &&& self.playable()
        &&& app_state == AppState::InGame ==> {
            let after = transitions(self.round(app_requests), self.game_msgs);
            &&& can_transition_all(self.round(app_requests), self.game_msgs)
            &&& (after.state == GameState::Playing ==> after.world.ball is Some
                && after.world.paddle is Some)
        }
    }

    /// The second half of a tick can take the velocity handed in:
    /// where the round is being played, a velocity that is handed in
    /// can be turned round and has the speed of the ball, to within
    /// one thousandth.
    pub open spec fn accepts_deflection(self, deflected: Option<Velocity>) -> bool {
        deflected matches Some(velocity) ==> (self.current_state.0 == GameState::Playing ==> {
            &&& velocity.wf()
            &&& self.world.ball matches Some(ball)
            &&& speed_kept(ball.velocity, velocity)
        })
    }

    /// What a game that is run by `update` and the two halves of the
    /// tick alone keeps from call to call, and what `new` begins
    /// with. The tracker counts the bricks, which are live, and the
    /// ball's velocity can be turned round. No request asks to go
    /// back to uninitialized. And ball and paddle are there, unless
    /// the game has not begun and nothing is queued.
    pub open spec fn wf(self) -> bool {
        &&& self.brick_tracker.0 == self.world.bricks.len()
        &&& all_live(self.world.bricks)
        &&& (self.world.ball matches Some(ball) ==> ball.velocity.wf())
        &&& forall|i: int|
            0 <= i < self.game_msgs.len() ==> #[trigger] self.game_msgs[i]
                != GameStateTransition::ToUninitialized
        &&& (self.has_players() || (self.current_state.0 == GameState::Uninitialized
            && self.game_msgs.len() == 0))
    }

    /// The game after the queued requests have been handled; the
    /// queue is then empty.
    pub open spec fn after_requests(self, app_requests: Seq<AppStateTransition>) -> BreakoutView {
        let round = transitions(self.round(app_requests), self.game_msgs);
        BreakoutView {
            current_state: CurrentState(round.state),
            level: Level(round.level),
            brick_tracker: BrickTracker(round.bricks_alive),
            world: round.world,
            game_msgs: Seq::empty(),
            ..self
        }
    }

    /// The game after the round has been looked after.
    pub open spec fn managed(self) -> BreakoutView {
        match self.current_state.0 {
            GameState::Uninitialized => BreakoutView {
                world: fresh_world(self.level.0),
                brick_tracker: BrickTracker(brick_grid(self.level.0).len() as usize),
                game_msgs: self.game_msgs.push(GameStateTransition::ToPlayGame),
                ..self
            },
            GameState::Playing => BreakoutView {
                game_msgs: self.game_msgs + play_requests(self.brick_tracker.0, self.health),
                ..self
            },
            GameState::Paused => self,
        }
    }

    /// The game after the keys of the frame have made their requests.
    pub open spec fn keyed(self, confirm_pressed: bool, cancel_pressed: bool) -> BreakoutView {
        BreakoutView {
            game_msgs: self.game_msgs + (if confirm_pressed {
                seq![GameStateTransition::ToPlayGame]
            } else {
                Seq::empty()
            }) + (if cancel_pressed {
                seq![GameStateTransition::ToHaltGame]
            } else {
                Seq::empty()
            }),
            ..self
        }
    }

    /// The part of a frame that runs while the program is in the
    /// game: the queued requests are handled, then the round is looked
    /// after, then the keys are read.
    pub open spec fn in_game(
        self,
        app_requests: Seq<AppStateTransition>,
        confirm_pressed: bool,
        cancel_pressed: bool,
    ) -> Frame {
        Frame {
            game: self.after_requests(app_requests).managed().keyed(
                confirm_pressed,
                cancel_pressed,
            ),
            app_requests: transitions(self.round(app_requests), self.game_msgs).app_requests,
            play_sound: false,
        }
    }

    /// The part of a frame that runs while the round is played: the
    /// lives lost are handled, the blink windows run for the length of
    /// the frame, and the sound is decided on.
    pub open spec fn played(self, app_requests: Seq<AppStateTransition>, delta: u64) -> Frame {
        let paddle = self.world.paddle->0;
        let ball = self.world.ball->0;
        let hurt = loses_health(self.player_msgs.len(), self.health, paddle);
        let paddle_blink = blinked(
            if hurt {
                Some(fresh_blink())
            } else {
                paddle.blinking
            },
            paddle.visible,
            delta,
        );
        let ball_blink = blinked(
            if hurt {
                Some(fresh_blink())
            } else {
                ball.blinking
            },
            ball.visible,
            delta,
        );
        let play = self.collided && waited(self.sound_delay, delta) >= COLLISION_SOUND_DELAY;
        Frame {
            game: BreakoutView {
                health: if hurt {
                    Health((self.health.0 - 1) as usize)
                } else {
                    self.health
                },
                world: WorldView {
                    paddle: Some(
                        Paddle { blinking: paddle_blink.0, visible: paddle_blink.1, ..paddle },
                    ),
                    ball: Some(Ball { blinking: ball_blink.0, visible: ball_blink.1, ..ball }),
                    ..self.world
                },
                player_msgs: Seq::empty(),
                collided: false,
                sound_delay: if play {
                    0
                } else {
                    waited(self.sound_delay, delta)
                },
                ..self
            },
            app_requests: app_requests + menu_requests(
                asks_for_menu(self.player_msgs.len(), self.health, paddle),
            ),
            play_sound: play,
        }
    }

    /// A whole frame. What belongs to the game runs only while the
    /// program is in the game, and what belongs to play only while the
    /// round, after that, is being played. A request made in a frame
    /// is handled in the next.
    pub open spec fn after_frame(
        self,
        app_requests: Seq<AppStateTransition>,
        app_state: AppState,
        confirm_pressed: bool,
        cancel_pressed: bool,
        delta: u64,
    ) -> Frame {
        let first = if app_state == AppState::InGame {
            self.in_game(app_requests, confirm_pressed, cancel_pressed)
        } else {
            Frame { game: self, app_requests, play_sound: false }
        };
        if first.game.current_state.0 == GameState::Playing {
            first.game.played(first.app_requests, delta)
        } else {
            first
        }
    }

    /// The ball after it has moved and gone through the brick pass.
    pub open spec fn ball_past_bricks(self, period: u32) -> Ball {
        let ball = moved_ball(self.world.ball->0, period);
        Ball {
            velocity: brick_pass(
                ball.position,
                ball.size,
                ball.velocity,
                self.world.bricks,
            ).velocity,
            ..ball
        }
    }

    /// The paddle after its move of the tick.
    pub open spec fn paddle_after(self, left: bool, right: bool, period: u32) -> Paddle {
        moved_paddle(
            self.world.paddle->0,
            next_momentum(self.paddle_momentum.0, left, right, period) as i64,
        )
    }

    /// What the paddle pass of the tick reports.
    pub open spec fn tick_contact(self, left: bool, right: bool, period: u32) -> Option<
        PaddleContact,
    > {
        if self.current_state.0 == GameState::Playing {
            contact_of(
                paddle_hit(self.ball_past_bricks(period), self.paddle_after(left, right, period)),
                self.control_style,
            )
        } else {
            None
        }
    }

    /// The first half of a physics tick, in its fixed order: the
    /// paddle's momentum, the paddle's move, the ball's move, then the
    /// brick pass, the bottom-wall pass and the paddle pass, each on
    /// what the steps before it have left. Nothing moves unless the
    /// round is being played.
    pub open spec fn tick_begun(self, left: bool, right: bool, period: u32) -> BreakoutView {
        if self.current_state.0 != GameState::Playing {
            self
        } else {
            let paddle = self.paddle_after(left, right, period);
            let moved = moved_ball(self.world.ball->0, period);
            let pass = brick_pass(moved.position, moved.size, moved.velocity, self.world.bricks);
            let ball = self.ball_past_bricks(period);
            let lost = touches_bottom(ball.position, ball.size, self.world.walls);
            let hit = paddle_hit(ball, paddle);
            BreakoutView {
                paddle_momentum: PaddleMomentum(
                    next_momentum(self.paddle_momentum.0, left, right, period) as i64,
                ),
                scoreboard: Scoreboard {
                    score: (self.scoreboard.score + BRICK_SCORE * pass.hits) as usize,
                },
                brick_tracker: BrickTracker(pass.bricks.len() as usize),
                world: WorldView {
                    ball: Some(bounced(ball, hit)),
                    paddle: Some(paddle),
                    bricks: pass.bricks,
                    walls: self.world.walls,
                },
                player_msgs: if lost {
                    self.player_msgs.push(PlayerMessage::JustLostHealth)
                } else {
                    self.player_msgs
                },
                collided: self.collided || pass.hits > 0 || hit is Some,
                ..self
            }
        }
    }

    /// The second half of a physics tick: the ball takes the velocity
    /// that the deflection off the paddle has given it, if there was
    /// one, and goes through the wall pass.
    pub open spec fn tick_ended(self, deflected: Option<Velocity>) -> BreakoutView {
        if self.current_state.0 != GameState::Playing {
            self
        } else {
            let ball = match deflected {
                Some(velocity) => Ball { velocity, ..self.world.ball->0 },
                None => self.world.ball->0,
            };
            let hit = first_wall_hit(ball.position, ball.size, self.world.walls);
            BreakoutView {
                world: WorldView { ball: Some(bounced(ball, hit)), ..self.world },
                collided: self.collided || hit is Some,
                ..self
            }
        }
    }
}

/// A well-formed game is playable, and a frame can be run on it in
/// any state of the program if its level number has room for the
/// queued requests.
pub proof fn lemma_wf_can_update(
    game: BreakoutView,
    app_requests: Seq<AppStateTransition>,
    app_state: AppState,
)
    requires
        game.wf(),
    ensures
        game.playable(),
        game.level.0 + game.game_msgs.len() <= usize::MAX ==> game.can_update(
            app_requests,
            app_state,
        ),
{
    if game.has_players() && game.level.0 + game.game_msgs.len() <= usize::MAX {
        lemma_can_transition_all(game.round(app_requests), game.game_msgs);
    }
}

/// What a physics tick keeps, whatever the keys and however long the
/// tick: the score does not fall and health and level stay; the
/// tracker counts the bricks; the paddle ends between its bounds; and
/// the ball, which has only bounced, has the speed it had. This is the
/// whole tick where the paddle pass has asked for no deflection.
pub proof fn lemma_tick_keeps(game: BreakoutView, left: bool, right: bool, period: u32)
    requires
        game.playable(),
        game.current_state.0 == GameState::Playing,
        game.scoreboard.score + BRICK_SCORE * game.world.bricks.len() <= usize::MAX,
    ensures
        ({
            let after = game.tick_begun(left, right, period).tick_ended(None);
            &&& after.playable()
            &&& after.scoreboard.score >= game.scoreboard.score
            &&& after.health == game.health
            &&& after.level == game.level
            &&& after.current_state == game.current_state
            &&& after.brick_tracker.0 == after.world.bricks.len()
            &&& after.world.bricks.len() <= game.world.bricks.len()
            &&& PADDLE_LEFT_BOUND <= after.world.paddle->0.collider.position.x
                <= PADDLE_RIGHT_BOUND
            &&& after.world.ball->0.velocity.norm2() == game.world.ball->0.velocity.norm2()
            &&& after.world.walls == game.world.walls
        }),
{
    let begun = game.tick_begun(left, right, period);
    let moved = moved_ball(game.world.ball->0, period);
    let pass = brick_pass(moved.position, moved.size, moved.velocity, game.world.bricks);
    lemma_brick_pass_bounds(moved.position, moved.size, moved.velocity, game.world.bricks);
    let ball = game.ball_past_bricks(period);
    let paddle = game.paddle_after(left, right, period);
    lemma_bounce_keeps_speed(ball, paddle_hit(ball, paddle));
    let met = bounced(ball, paddle_hit(ball, paddle));
    lemma_bounce_keeps_speed(met, first_wall_hit(met.position, met.size, game.world.walls));
    assert(BRICK_SCORE * pass.hits >= 0 && BRICK_SCORE * pass.hits <= BRICK_SCORE
        * game.world.bricks.len()) by (nonlinear_arith)
        requires
            BRICK_SCORE == 10,
            0 <= pass.hits <= game.world.bricks.len(),
    ;
}

/// A physics tick keeps the ball's speed, to within one thousandth,
/// whatever the paddle's control style and momentum: the bounces of
/// its passes keep the speed exactly, and the velocity that a
/// deflection hands in is taken only if it has the speed of the ball.
pub proof fn lemma_tick_keeps_speed(
    game: BreakoutView,
    left: bool,
    right: bool,
    period: u32,
    deflected: Option<Velocity>,
)
    requires
        game.playable(),
        game.current_state.0 == GameState::Playing,
        game.scoreboard.score + BRICK_SCORE * game.world.bricks.len() <= usize::MAX,
        game.tick_begun(left, right, period).accepts_deflection(deflected),
    ensures
        speed_kept(
            game.world.ball->0.velocity,
            game.tick_begun(left, right, period).tick_ended(deflected).world.ball->0.velocity,
        ),
        game.tick_begun(left, right, period).world.ball->0.velocity.norm2()
            == game.world.ball->0.velocity.norm2(),
{
    let moved = moved_ball(game.world.ball->0, period);
    lemma_brick_pass_bounds(moved.position, moved.size, moved.velocity, game.world.bricks);
    let ball = game.ball_past_bricks(period);
    let paddle = game.paddle_after(left, right, period);
    lemma_bounce_keeps_speed(ball, paddle_hit(ball, paddle));
    let met = bounced(ball, paddle_hit(ball, paddle));
    let turned = match deflected {
        Some(velocity) => Ball { velocity, ..met },
        None => met,
    };
    lemma_bounce_keeps_speed(turned, first_wall_hit(turned.position, turned.size, game.world.walls));
}

/// A round that is not being played is frozen: a physics tick
/// changes nothing of it.
pub proof fn lemma_tick_outside_play(
    game: BreakoutView,
    left: bool,
    right: bool,
    period: u32,
    deflected: Option<Velocity>,
)
    requires
        game.current_state.0 != GameState::Playing,
    ensures
        game.tick_begun(left, right, period) == game,
        game.tick_contact(left, right, period) is None,
        game.tick_ended(deflected) == game,
{
}

/// What a frame keeps: the score stays, and the health falls by one
/// point at most and never rises.
pub proof fn lemma_frame_keeps(
    game: BreakoutView,
    app_requests: Seq<AppStateTransition>,
    app_state: AppState,
    confirm_pressed: bool,
    cancel_pressed: bool,
    delta: u64,
)
    ensures
        ({
            let frame = game.after_frame(
                app_requests,
                app_state,
                confirm_pressed,
                cancel_pressed,
                delta,
            );
            &&& frame.game.scoreboard == game.scoreboard
            &&& game.health.0 - 1 <= frame.game.health.0 <= game.health.0
            &&& frame.game.control_style == game.control_style
            &&& frame.game.paddle_momentum == game.paddle_momentum
        }),
{
}

impl BreakoutGame {
    /// A game that has not begun.
    pub fn new() -> (game: BreakoutGame)
        ensures
            game@ == BreakoutView::initial(),
            game@.wf(),
    {
        BreakoutGame {
            scoreboard: Scoreboard { score: 0 },
            current_state: CurrentState(GameState::Uninitialized),
            brick_tracker: BrickTracker(0),
            level: Level(1),
            health: Health(PLAYER_STARTING_HEALTH),
            paddle_momentum: PaddleMomentum(0),
            control_style: ControlStyle::Edges,
            world: World::new(),
            game_msgs: Vec::new(),
            player_msgs: Vec::new(),
            collided: false,
            sound_delay: 0,
        }
    }

    /// Tests whether the tracker counts the bricks, the bricks are
    /// live, and the ball's velocity can be turned round.
    fn sound(&self) -> (ok: bool)
        ensures
            ok == {
                &&& self.brick_tracker.0 == self.world.bricks@.len()
                &&& all_live(self.world.bricks@)
                &&& (self.world.ball matches Some(ball) ==> ball.velocity.wf())
            },
    {
        if self.brick_tracker.0 != self.world.bricks.len() {
            return false;
        }
        let bricks: usize = self.world.bricks.len();
        let mut i: usize = 0;
        while i < bricks
            invariant
                i <= bricks,
                bricks == self.world.bricks@.len(),
                all_live(self.world.bricks@.take(i as int)),
            decreases bricks - i,
        {
            let brick: Brick = self.world.bricks[i];
            let live: bool = 1 <= brick.strength && brick.strength <= MAX_BRICK_STRENGTH
                && brick.tint == (brick.strength - 1) as usize;
            if !live {
                assert(!self.world.bricks@[i as int].wf());
                return false;
            }
            assert forall|j: int| 0 <= j < i + 1 implies (#[trigger] self.world.bricks@.take(
                i as int + 1,
            )[j]).wf() by {
                if j < i {
                    assert(self.world.bricks@.take(i as int)[j].wf());
                }
            }
            i = i + 1;
        }
        assert(self.world.bricks@.take(bricks as int) == self.world.bricks@);
        match self.world.ball {
            Some(ball) => ball.velocity.x != i64::MIN && ball.velocity.y != i64::MIN,
            None => true,
        }
    }

    /// Tests whether the game is playable.
    pub fn is_playable(&self) -> (ok: bool)
        ensures
            ok == self@.playable(),
    {
        if !self.sound() {
            return false;
        }
        match self.current_state.0 {
            GameState::Playing => self.world.ball.is_some() && self.world.paddle.is_some(),
            _ => true,
        }
    }

    /// Tests whether the game is as `wf` asks, for a caller that has
    /// put its pieces together by hand.
    pub fn well_formed(&self) -> (ok: bool)
        ensures
            ok == self@.wf(),
    {
        if !self.sound() {
            return false;
        }
        let queued: usize = self.game_msgs.len();
        let mut k: usize = 0;
        while k < queued
            invariant
                k <= queued,
                queued == self.game_msgs@.len(),
                forall|j: int|
                    0 <= j < k ==> #[trigger] self.game_msgs@[j]
                        != GameStateTransition::ToUninitialized,
            decreases queued - k,
        {
            match self.game_msgs[k] {
                GameStateTransition::ToUninitialized => {
                    return false;
                },
                _ => {},
            }
            k = k + 1;
        }
        let players: bool = self.world.ball.is_some() && self.world.paddle.is_some();
        let pristine: bool = match self.current_state.0 {
            GameState::Uninitialized => queued == 0,
            _ => false,
        };
        players || pristine
    }

    /// Tests whether `update` can be called with these arguments.
    pub fn ready_for_update(
        &self,
        app_state_msgs: &Vec<AppStateTransition>,
        app_state: AppState,
    ) -> (ok: bool)
        ensures
            ok == self@.can_update(app_state_msgs@, app_state),
    {
        if !self.is_playable() {
            return false;
        }
        match app_state {
            AppState::InGame => {},
            _ => {
                return true;
            },
        }
        let ghost round = self@.round(app_state_msgs@);
        let ghost requests = self.game_msgs@;
        let mut state: GameState = self.current_state.0;
        let mut level: usize = self.level.0;
        let mut has_ball: bool = self.world.ball.is_some();
        let mut has_paddle: bool = self.world.paddle.is_some();
        let queued: usize = self.game_msgs.len();
        let mut i: usize = 0;
        while i < queued
            invariant
                i <= queued,
                queued == requests.len(),
                requests == self.game_msgs@,
                round == self@.round(app_state_msgs@),
                app_state == AppState::InGame,
                self@.playable(),
                can_transition_all(round, requests.take(i as int)),
                state == transitions(round, requests.take(i as int)).state,
                level == transitions(round, requests.take(i as int)).level,
                has_ball == transitions(round, requests.take(i as int)).world.ball is Some,
                has_paddle == transitions(round, requests.take(i as int)).world.paddle is Some,
            decreases queued - i,
        {
            proof {
                assert(requests.take(i as int + 1).drop_last() == requests.take(i as int));
                assert(requests.take(i as int + 1).last() == requests[i as int]);
            }
            match self.game_msgs[i] {
                GameStateTransition::ToUninitialized => {
                    state = GameState::Uninitialized;
                    has_ball = false;
                    has_paddle = false;
                },
                GameStateTransition::ToPlayGame => {
                    state = GameState::Playing;
                },
                GameStateTransition::ToHaltGame => {
                    state = GameState::Paused;
                },
                GameStateTransition::NextLevel => {
                    if !has_ball || !has_paddle || level == usize::MAX {
                        proof {
                            assert(!can_transition(
                                transitions(round, requests.take(i as int)),
                                requests[i as int],
                            ));
                            if can_transition_all(round, requests) {
                                let upto = requests.take(i as int + 1);
                                lemma_can_take_prefix(round, requests, i as int + 1);
                                assert(can_transition(
                                    transitions(round, upto.drop_last()),
                                    upto.last(),
                                ));
                            }
                        }
                        return false;
                    }
                    level = level + 1;
                },
                GameStateTransition::ToGameOver => {},
            }
            i = i + 1;
        }
        assert(requests.take(queued as int) == requests);
        match state {
            GameState::Playing => has_ball && has_paddle,
            _ => true,
        }
    }

    /// Tests whether `begin_fixed_update` can be called: the game is
    /// playable, and the score has room for a hit on every brick.
    pub fn ready_for_fixed_update(&self) -> (ok: bool)
        ensures
            ok == (self@.playable() && self.scoreboard.score + BRICK_SCORE
                * self.world.bricks@.len() <= usize::MAX),
    {
        if !self.is_playable() {
            return false;
        }
        let room: usize = (usize::MAX - self.scoreboard.score) / BRICK_SCORE;
        let bricks: usize = self.world.bricks.len();
        assert(self.scoreboard.score + BRICK_SCORE * bricks <= usize::MAX <==> bricks <= room)
            by (nonlinear_arith)
            requires
                BRICK_SCORE == 10,
                room == (usize::MAX - self.scoreboard.score) / 10,
                self.scoreboard.score <= usize::MAX,
        ;
        bricks <= room
    }

    /// Tests whether `end_fixed_update` can be called with this
    /// velocity, on a playable game.
    pub fn ready_for_deflection(&self, deflected: &Option<Velocity>) -> (ok: bool)
        ensures
            ok == self@.accepts_deflection(*deflected),
    {
        let playing: bool = match self.current_state.0 {
            GameState::Playing => true,
            _ => false,
        };
        match deflected {
            None => true,
            Some(velocity) => {
                if !playing {
                    return true;
                }
                if velocity.x == i64::MIN || velocity.y == i64::MIN {
                    return false;
                }
                match self.world.ball {
                    Some(ball) => keeps_speed(&ball.velocity, velocity),
                    None => false,
                }
            },
        }
    }

    /// The part of a frame that runs while the program is in the game.
    fn update_in_game(
        &mut self,
        app_state_msgs: &mut Vec<AppStateTransition>,
        confirm_pressed: bool,
        cancel_pressed: bool,
    )
        requires
            old(self)@.can_update(old(app_state_msgs)@, AppState::InGame),
        ensures
            final(self)@.playable(),
            old(self)@.wf() ==> final(self)@.wf(),
            final(self)@ == old(self)@.in_game(
                old(app_state_msgs)@,
                confirm_pressed,
                cancel_pressed,
            ).game,
            final(app_state_msgs)@ == old(self)@.in_game(
                old(app_state_msgs)@,
                confirm_pressed,
                cancel_pressed,
            ).app_requests,
    {
        proof {
            let round = self@.round(app_state_msgs@);
            lemma_transitions_keep(round, self.game_msgs@);
            if self@.wf() && self@.has_players() {
                lemma_transitions_keep_players(round, self.game_msgs@);
            }
            lemma_brick_grid(transitions(round, self.game_msgs@).level);
        }
        transition_game(
            &mut self.current_state,
            &self.game_msgs,
            &mut self.world,
            &mut self.level,
            &mut self.brick_tracker,
            app_state_msgs,
        );
        self.game_msgs.clear();
        manage_game(
            &self.current_state,
            &mut self.world,
            &mut self.game_msgs,
            &mut self.brick_tracker,
            &self.health,
            &self.level,
        );
        game_aux_keys_handler(&mut self.game_msgs, confirm_pressed, cancel_pressed);
    }

    /// The part of a frame that runs while the round is played.
    fn update_played(&mut self, app_state_msgs: &mut Vec<AppStateTransition>, delta: u64) -> (play_sound:
        bool)
        requires
            old(self)@.playable(),
            old(self)@.has_players(),
        ensures
            final(self)@.playable(),
            old(self)@.wf() ==> final(self)@.wf(),
            final(self)@ == old(self)@.played(old(app_state_msgs)@, delta).game,
            final(app_state_msgs)@ == old(self)@.played(old(app_state_msgs)@, delta).app_requests,
            play_sound == old(self)@.played(old(app_state_msgs)@, delta).play_sound,
    {
        let mut paddle: Paddle = self.world.paddle.unwrap();
        let mut ball: Ball = self.world.ball.unwrap();
        health_handler(app_state_msgs, &self.player_msgs, &mut self.health, &mut paddle, &mut ball);
        self.player_msgs.clear();
        blink(&mut paddle.blinking, &mut paddle.visible, delta);
        blink(&mut ball.blinking, &mut ball.visible, delta);
        self.world.paddle = Some(paddle);
        self.world.ball = Some(ball);
        let play: bool = play_collision_sound(&mut self.sound_delay, self.collided, delta);
        self.collided = false;
        play
    }

    /// Runs one frame of `delta` microseconds. `app_state` is the
    /// state of the program, `confirm_pressed` and `cancel_pressed`
    /// tell whether those keys have gone down in this frame, and the
    /// requests that the game makes of the program come behind those
    /// in `app_state_msgs`. The result tells whether the collision
    /// sound is to be played.
    ///
    /// The game must be ready for the frame, as `can_update` says and
    /// `ready_for_update` tests. A game that is well formed before the
    /// frame is so after it.
    pub fn update(
        &mut self,
        app_state_msgs: &mut Vec<AppStateTransition>,
        app_state: AppState,
        confirm_pressed: bool,
        cancel_pressed: bool,
        delta: u64,
    ) -> (play_sound: bool)
        requires
            old(self)@.can_update(old(app_state_msgs)@, app_state),
        ensures
            final(self)@.playable(),
            old(self)@.wf() ==> final(self)@.wf(),
            final(self)@ == old(self)@.after_frame(
                old(app_state_msgs)@,
                app_state,
                confirm_pressed,
                cancel_pressed,
                delta,
            ).game,
            final(app_state_msgs)@ == old(self)@.after_frame(
                old(app_state_msgs)@,
                app_state,
                confirm_pressed,
                cancel_pressed,
                delta,
            ).app_requests,
            play_sound == old(self)@.after_frame(
                old(app_state_msgs)@,
                app_state,
                confirm_pressed,
                cancel_pressed,
                delta,
            ).play_sound,
    {
        let in_game: bool = match app_state {
            AppState::InGame => true,
            _ => false,
        };
        if in_game {
            self.update_in_game(app_state_msgs, confirm_pressed, cancel_pressed);
        }
        let playing: bool = match self.current_state.0 {
            GameState::Playing => true,
            _ => false,
        };
        if playing {
            self.update_played(app_state_msgs, delta)
        } else {
            false
        }
    }

    /// Runs the first half of a physics tick of `period` microseconds,
    /// with the keys for left and right held or not. The result is
    /// what the paddle pass has found. Where it says `deflect`, the
    /// caller works out the turned velocity and hands it to
    /// `end_fixed_update`; that function is to be called in every
    /// case.
    ///
    /// The score must have room for a hit on every brick.
    pub fn begin_fixed_update(&mut self, left: bool, right: bool, period: u32) -> (contact: Option<
        PaddleContact,
    >)
        requires
            old(self)@.playable(),
            old(self).scoreboard.score + BRICK_SCORE * old(self).world.bricks@.len() <= usize::MAX,
        ensures
            final(self)@.playable(),
            old(self)@.wf() ==> final(self)@.wf(),
            final(self)@ == old(self)@.tick_begun(left, right, period),
            contact == old(self)@.tick_contact(left, right, period),
    {
        let playing: bool = match self.current_state.0 {
            GameState::Playing => true,
            _ => false,
        };
        if !playing {
            return None;
        }
        let mut paddle: Paddle = self.world.paddle.unwrap();
        let mut ball: Ball = self.world.ball.unwrap();
        update_paddle_momentum(&mut self.paddle_momentum, left, right, period);
        update_paddle(&mut paddle, &self.paddle_momentum);
        move_ball(&mut ball, period);
        let hit_brick = check_brick_collisions(
            &mut self.scoreboard,
            &mut ball,
            &mut self.world.bricks,
            &mut self.brick_tracker,
        );
        match check_bottom_wall_collision(&ball, &self.world.walls) {
            Some(message) => {
                self.player_msgs.push(message);
            },
            None => {},
        }
        let contact = check_paddle_collision(&mut ball, &paddle, self.control_style);
        if hit_brick.is_some() || contact.is_some() {
            self.collided = true;
        }
        self.world.paddle = Some(paddle);
        self.world.ball = Some(ball);
        contact
    }

    /// Runs the second half of a physics tick. `deflected` is the
    /// velocity that the ball leaves the paddle with, where the first
    /// half has asked for a deflection, and `None` where it has not.
    /// A velocity that is handed in must have the speed of the ball,
    /// as `accepts_deflection` says and `ready_for_deflection` tests:
    /// the paddle turns the ball and does not speed it up or slow it
    /// down.
    pub fn end_fixed_update(&mut self, deflected: Option<Velocity>)
        requires
            old(self)@.playable(),
            old(self)@.accepts_deflection(deflected),
        ensures
            final(self)@.playable(),
            old(self)@.wf() ==> final(self)@.wf(),
            final(self)@ == old(self)@.tick_ended(deflected),
            old(self).current_state.0 == GameState::Playing ==> speed_kept(
                old(self).world.ball->0.velocity,
                final(self).world.ball->0.velocity,
            ),
    {
        let playing: bool = match self.current_state.0 {
            GameState::Playing => true,
            _ => false,
        };
        if !playing {
            return ;
        }
        let mut ball: Ball = self.world.ball.unwrap();
        match deflected {
            Some(velocity) => {
                ball.velocity = velocity;
            },
            None => {},
        }
        proof {
            lemma_bounce_keeps_speed(
                ball,
                first_wall_hit(ball.position, ball.size, self.world.walls@),
            );
        }
        let hit_wall = check_wall_collision(&mut ball, &self.world.walls);
        if hit_wall.is_some() {
            self.collided = true;
        }
        self.world.ball = Some(ball);
    }
}

} // verus!
