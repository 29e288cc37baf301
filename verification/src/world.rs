use vstd::prelude::*;
use crate::blink::Blinking;
use crate::bricks::Brick;
use crate::geometry::Vector2;
use crate::walls::Wall;

verus! {

/// Distance from the bottom wall's centre line to the paddle's.
pub const PADDLE_DIST_FROM_BOTTOM_WALL: i64 = 60_000;

pub const PADDLE_WIDTH: i64 = 120_000;

pub const PADDLE_HEIGHT: i64 = 20_000;

/// Gap kept between the paddle and a side wall.
pub const PADDLE_PADDING: i64 = 10_000;

/// Leftmost x the paddle's centre may take: the left wall's centre
/// line moved inward by the wall's thickness, half a paddle and the
/// padding.
pub const PADDLE_LEFT_BOUND: i64 = -370_000;

/// Rightmost x the paddle's centre may take.
pub const PADDLE_RIGHT_BOUND: i64 = 370_000;

pub const PADDLE_STARTING_POSITION_X: i64 = 0;

pub const PADDLE_STARTING_POSITION_Y: i64 = -240_000;

pub const BALL_STARTING_POSITION_X: i64 = -150_000;

pub const BALL_STARTING_POSITION_Y: i64 = -50_000;

pub const BALL_WIDTH: i64 = 30_000;

pub const BALL_HEIGHT: i64 = 30_000;

/// x component of the ball's first direction: down and to the right
/// at 45 degrees, of length one, in thousandths.
pub const INITIAL_BALL_DIRECTION_X: i64 = 707;

/// y component of the ball's first direction.
pub const INITIAL_BALL_DIRECTION_Y: i64 = -707;

/// The bounds and the starting height of the paddle are the arena's
/// walls moved inward, as their descriptions say.
pub proof fn lemma_paddle_constants()
    ensures
        PADDLE_LEFT_BOUND == crate::walls::LEFT_WALL + crate::walls::WALL_THICKNESS
            + PADDLE_WIDTH / 2 + PADDLE_PADDING,
        PADDLE_RIGHT_BOUND == crate::walls::RIGHT_WALL - crate::walls::WALL_THICKNESS
            - PADDLE_WIDTH / 2 - PADDLE_PADDING,
        PADDLE_STARTING_POSITION_Y == crate::walls::BOTTOM_WALL + PADDLE_DIST_FROM_BOTTOM_WALL,
        PADDLE_LEFT_BOUND <= PADDLE_STARTING_POSITION_X <= PADDLE_RIGHT_BOUND,
{
}

/// The direction in which an entity moves. For the ball a length of
/// 1000 stands for one; its speed is a constant of the physics.
#[derive(Clone, Copy, Debug, PartialEq, Eq, Structural)]
pub struct Velocity {
    pub x: i64,
    pub y: i64,
}

impl Velocity {
    /// Both components can change sign: neither is the one `i64`
    /// that has no negative.
    pub open spec fn wf(self) -> bool {
        self.x > i64::MIN && self.y > i64::MIN
    }

    /// The square of the length.
    pub open spec fn norm2(self) -> int {
        self.x * self.x + self.y * self.y
    }

    pub fn new(x: i32, y: i32) -> (v: Velocity)
        ensures
            v.x == x,
            v.y == y,
            v.wf(),
    {
        Velocity { x: x as i64, y: y as i64 }
    }
}

/// The box that an entity offers to the overlap test: its centre and
/// its extent.
#[derive(Clone, Copy, Debug, PartialEq, Eq, Structural)]
pub struct Collider {
    pub position: Vector2,
    pub size: Vector2,
}

/// The ball. It probes the colliders and is none itself.
#[derive(Clone, Copy, Debug, PartialEq, Eq)]
pub struct Ball {
    pub position: Vector2,
    pub size: Vector2,
    pub velocity: Velocity,
    pub blinking: Option<Blinking>,
    pub visible: bool,
}

/// The paddle.
#[derive(Clone, Copy, Debug, PartialEq, Eq)]
pub struct Paddle {
    pub collider: Collider,
    pub blinking: Option<Blinking>,
    pub visible: bool,
}

impl Ball {
    /// The ball as a level starts with it.
    pub open spec fn spec_new() -> Ball {
        Ball {
            position: Vector2 { x: BALL_STARTING_POSITION_X, y: BALL_STARTING_POSITION_Y },
            size: Vector2 { x: BALL_WIDTH, y: BALL_HEIGHT },
            velocity: Velocity { x: INITIAL_BALL_DIRECTION_X, y: INITIAL_BALL_DIRECTION_Y },
            blinking: None,
            visible: true,
        }
    }

    pub fn new() -> (ball: Ball)
        ensures
            ball == Ball::spec_new(),
            ball.velocity.wf(),
    {
        Ball {
            position: Vector2::new(BALL_STARTING_POSITION_X, BALL_STARTING_POSITION_Y),
            size: Vector2::new(BALL_WIDTH, BALL_HEIGHT),
            velocity: Velocity { x: INITIAL_BALL_DIRECTION_X, y: INITIAL_BALL_DIRECTION_Y },
            blinking: None,
            visible: true,
        }
    }
}

impl Paddle {
    /// The paddle as a level starts with it.
    pub open spec fn spec_new() -> Paddle {
        Paddle {
            collider: Collider {
                position: Vector2 { x: PADDLE_STARTING_POSITION_X, y: PADDLE_STARTING_POSITION_Y },
                size: Vector2 { x: PADDLE_WIDTH, y: PADDLE_HEIGHT },
            },
            blinking: None,
            visible: true,
        }
    }

    pub fn new() -> (paddle: Paddle)
        ensures
            paddle == Paddle::spec_new(),
    {
        Paddle {
            collider: Collider {
                position: Vector2::new(PADDLE_STARTING_POSITION_X, PADDLE_STARTING_POSITION_Y),
                size: Vector2::new(PADDLE_WIDTH, PADDLE_HEIGHT),
            },
            blinking: None,
            visible: true,
        }
    }
}

/// Everything that lives in the arena. There is at most one ball and
/// one paddle; the bricks and walls are kept in the order in which
/// they were spawned.
#[derive(Clone, Debug, PartialEq, Eq)]
pub struct World {
    pub ball: Option<Ball>,
    pub paddle: Option<Paddle>,
    pub bricks: Vec<Brick>,
    pub walls: Vec<Wall>,
}

/// A `World` with its collections as sequences.
pub struct WorldView {
    pub ball: Option<Ball>,
    pub paddle: Option<Paddle>,
    pub bricks: Seq<Brick>,
    pub walls: Seq<Wall>,
}

impl View for World {
    type V = WorldView;

    open spec fn view(&self) -> WorldView {
        WorldView {
            ball: self.ball,
            paddle: self.paddle,
            bricks: self.bricks@,
            walls: self.walls@,
        }
    }
}

impl WorldView {
    /// The world with nothing in it.
    pub open spec fn empty() -> WorldView {
        WorldView { ball: None, paddle: None, bricks: Seq::empty(), walls: Seq::empty() }
    }
}

impl World {
    /// A world with nothing in it.
    pub fn new() -> (world: World)
        ensures
            world@ == WorldView::empty(),
    {
        World { ball: None, paddle: None, bricks: Vec::new(), walls: Vec::new() }
    }

    /// Removes every entity.
    pub fn despawn_all(&mut self)
        ensures
            final(self)@ == WorldView::empty(),
    {
        self.ball = None;
        self.paddle = None;
        self.bricks = Vec::new();
        self.walls = Vec::new();
    }
}

} // verus!
