use vstd::prelude::*;
use crate::fixed::{clamp, clamp_to, lerp, trunc_div, MICROS_PER_SECOND, PER_MILLE};
use crate::geometry::{overlap_side, test_overlap, Side, Vector2};
use crate::bricks::{all_live, brick_collision, Brick, BrickTracker};
use crate::scoreboard::{Scoreboard, BRICK_SCORE};
use crate::walls::Wall;
use crate::world::{Ball, Collider, Paddle, Velocity, PADDLE_LEFT_BOUND, PADDLE_RIGHT_BOUND};

verus! {

/// Length of one physics tick at sixty ticks a second, in microseconds.
pub const FIXED_TIME_PERIOD: u32 = 16_667;

/// The most the paddle moves in one tick, in steps.
pub const PADDLE_MAX_MOMENTUM: i64 = 7_000;

/// The fraction of the way, in thousandths, that the paddle's momentum
/// goes toward its target in one tick.
pub const PADDLE_LERP: i64 = 100;

/// The speed that held keys ask of the paddle, in steps per second.
pub const PADDLE_SPEED: i64 = 500_000;

/// The most that the paddle's momentum turns the ball: a right angle,
/// in millidegrees.
pub const PADDLE_MAX_INFLUENCE: i64 = 90_000;

/// The ball's speed, in world units per second, for a direction of
/// length one.
pub const BALL_SPEED: i64 = 300;

/// How far the paddle has lately been moving per tick, in steps;
/// negative to the left.
#[derive(Clone, Copy, Debug, PartialEq, Eq, Structural)]
pub struct PaddleMomentum(pub i64);

/// How the paddle shapes the ball's bounce.
#[derive(Clone, Copy, Debug, PartialEq, Eq, Structural)]
pub enum ControlStyle {
    Edges,
    Momentum,
    Unaltered,
}

/// The signal that the ball has bounced off something in a pass.
#[derive(Clone, Copy, Debug, PartialEq, Eq, Structural)]
pub struct CollisionEvent;

/// The velocity after a bounce on the given side: a component is
/// turned round where it points into that side, and kept where it
/// already points away. `Inside` turns nothing.
pub open spec fn reflect(side: Side, v: Velocity) -> Velocity {
    match side {
        Side::Left => if v.x > 0 {
            Velocity { x: (0 - v.x) as i64, y: v.y }
        } else {
            v
        },
        Side::Right => if v.x < 0 {
            Velocity { x: (0 - v.x) as i64, y: v.y }
        } else {
            v
        },
        Side::Top => if v.y < 0 {
            Velocity { x: v.x, y: (0 - v.y) as i64 }
        } else {
            v
        },
        Side::Bottom => if v.y > 0 {
            Velocity { x: v.x, y: (0 - v.y) as i64 }
        } else {
            v
        },
        Side::Inside => v,
    }
}

/// The velocity points into the collider on whose `side` the ball lies.
pub open spec fn heads_into(side: Side, v: Velocity) -> bool {
    match side {
        Side::Left => v.x > 0,
        Side::Right => v.x < 0,
        Side::Top => v.y < 0,
        Side::Bottom => v.y > 0,
        Side::Inside => false,
    }
}

/// Turns the ball's velocity round as a bounce on `collision` asks.
pub fn ball_ricochet(collision: Side, ball_v: &mut Velocity)
    requires
        old(ball_v).wf(),
    ensures
        *final(ball_v) == reflect(collision, *old(ball_v)),
        final(ball_v).wf(),
{
    let mut reflect_x: bool = false;
    let mut reflect_y: bool = false;
    match collision {
        Side::Left => {
            reflect_x = ball_v.x > 0;
        },
        Side::Right => {
            reflect_x = ball_v.x < 0;
        },
        Side::Top => {
            reflect_y = ball_v.y < 0;
        },
        Side::Bottom => {
            reflect_y = ball_v.y > 0;
        },
        Side::Inside => {},
    }
    if reflect_x {
        ball_v.x = -ball_v.x;
    }
    if reflect_y {
        ball_v.y = -ball_v.y;
    }
}

/// A second bounce on the same side changes nothing: the first has
/// already turned the ball away.
pub proof fn lemma_reflect_idempotent(side: Side, v: Velocity)
    requires
        v.wf(),
    ensures
        reflect(side, reflect(side, v)) == reflect(side, v),
        !heads_into(side, reflect(side, v)),
{
}

/// Bouncing twice on the same side gives back the velocity one began
/// with, provided it did not point into that side.
pub proof fn lemma_reflect_twice_restores(side: Side, v: Velocity)
    requires
        v.wf(),
        !heads_into(side, v),
    ensures
        reflect(side, reflect(side, v)) == v,
{
}

/// A bounce changes at most the sign of a component, and so keeps the
/// ball's speed.
pub proof fn lemma_reflect_keeps_speed(side: Side, v: Velocity)
    requires
        v.wf(),
    ensures
        reflect(side, v).norm2() == v.norm2(),
        reflect(side, v).x == v.x || reflect(side, v).x == -v.x,
        reflect(side, v).y == v.y || reflect(side, v).y == -v.y,
{
    assert((-v.x) * (-v.x) == v.x * v.x) by (nonlinear_arith);
    assert((-v.y) * (-v.y) == v.y * v.y) by (nonlinear_arith);
}

/// The two squared lengths are those of lengths that differ by at
/// most one step: the root of the larger is at most the root of the
/// smaller and one, written without roots.
pub open spec fn norms_close(n: int, m: int) -> bool {
    let low = if n <= m {
        n
    } else {
        m
    };
    let gap = if n <= m {
        m - n
    } else {
        n - m
    };
    gap <= 1 || (gap - 1) * (gap - 1) <= 4 * low
}

/// The second velocity has the speed of the first, to within one
/// thousandth of a direction of length one: what rounding the
/// components of a turned velocity to whole thousandths can cost.
pub open spec fn speed_kept(before: Velocity, after: Velocity) -> bool {
    norms_close(before.norm2(), after.norm2())
}

/// Of two whole lengths, the squares are close exactly when the
/// lengths differ by at most one.
pub proof fn lemma_norms_close_of_lengths(r: int, s: int)
    requires
        0 <= r <= s,
    ensures
        norms_close(r * r, s * s) <==> s <= r + 1,
        norms_close(s * s, r * r) <==> s <= r + 1,
{
    let gap = s * s - r * r;
    assert(0 <= r * r <= s * s) by (nonlinear_arith)
        requires
            0 <= r <= s,
    ;
    if s <= r + 1 {
        assert(gap <= 2 * r + 1) by (nonlinear_arith)
            requires
                0 <= r <= s,
                s <= r + 1,
                gap == s * s - r * r,
        ;
        if gap > 1 {
            assert((gap - 1) * (gap - 1) <= 4 * (r * r)) by (nonlinear_arith)
                requires
                    1 <= gap <= 2 * r + 1,
            ;
        }
    } else {
        assert(gap >= 4 * r + 4) by (nonlinear_arith)
            requires
                0 <= r,
                s >= r + 2,
                gap == s * s - r * r,
        ;
        assert((gap - 1) * (gap - 1) > 4 * (r * r)) by (nonlinear_arith)
            requires
                0 <= r,
                gap >= 4 * r + 4,
        ;
    }
}

/// Every velocity keeps its own speed, and the order of the two
/// velocities does not matter.
pub proof fn lemma_speed_kept_basics(v: Velocity, w: Velocity)
    ensures
        speed_kept(v, v),
        speed_kept(v, w) == speed_kept(w, v),
        v.norm2() == w.norm2() ==> speed_kept(v, w),
{
}

fn squared(component: i64) -> (s: u128)
    ensures
        s == component * component,
        s <= 0x4000_0000_0000_0000_0000_0000_0000_0000,
{
    let wide: i128 = component as i128;
    let size: i128 = if wide < 0 {
        -wide
    } else {
        wide
    };
    assert(0 <= size * size <= 0x4000_0000_0000_0000_0000_0000_0000_0000 && size * size
        == component * component) by (nonlinear_arith)
        requires
            0 <= size <= 0x8000_0000_0000_0000,
            size == component || size == -component,
    ;
    (size * size) as u128
}

/// Tests whether `after` has the speed of `before`, to within one
/// thousandth.
pub fn keeps_speed(before: &Velocity, after: &Velocity) -> (kept: bool)
    ensures
        kept == speed_kept(*before, *after),
{
    let n: u128 = squared(before.x) + squared(before.y);
    let m: u128 = squared(after.x) + squared(after.y);
    let low: u128 = if n <= m {
        n
    } else {
        m
    };
    let gap: u128 = if n <= m {
        m - n
    } else {
        n - m
    };
    if gap <= 1 {
        return true;
    }
    let over: u128 = gap - 1;
    let half: u128 = over / 2;
    if half >= 0x1_0000_0000_0000_0000 {
        assert(over * over > 4 * low) by (nonlinear_arith)
            requires
                over >= 2 * half,
                half >= 0x1_0000_0000_0000_0000,
                low <= 0x8000_0000_0000_0000_0000_0000_0000_0000,
        ;
        return false;
    }
    assert(half * half + half <= 0xffff_ffff_ffff_ffff_0000_0000_0000_0000) by (nonlinear_arith)
        requires
            half <= 0xffff_ffff_ffff_ffff,
    ;
    if over % 2 == 0 {
        assert(over * over == 4 * (half * half)) by (nonlinear_arith)
            requires
                over == 2 * half,
        ;
        half * half <= low
    } else {
        assert(over * over == 4 * (half * half + half) + 1) by (nonlinear_arith)
            requires
                over == 2 * half + 1,
        ;
        half * half + half < low
    }
}

/// The momentum that the held keys ask for: what the paddle's speed
/// covers in one tick, to the right if right is held, to the left if
/// left is held and right is not, and none if neither is. With both
/// keys held, right wins.
pub open spec fn momentum_target(left: bool, right: bool, period: u32) -> int {
    let reach = trunc_div(PADDLE_SPEED * period, MICROS_PER_SECOND as int);
    if right {
        reach
    } else if left {
        -reach
    } else {
        0
    }
}

/// The momentum after one tick: a tenth of the way from the old one
/// to the target, kept within what the paddle may move per tick.
pub open spec fn next_momentum(momentum: i64, left: bool, right: bool, period: u32) -> int {
    clamp(
        lerp(momentum as int, momentum_target(left, right, period), PADDLE_LERP as int),
        -PADDLE_MAX_MOMENTUM,
        PADDLE_MAX_MOMENTUM as int,
    )
}

/// Moves the paddle's momentum toward what the held keys ask for.
/// `period` is the length of the tick in microseconds.
pub fn update_paddle_momentum(
    paddle_momentum: &mut PaddleMomentum,
    left: bool,
    right: bool,
    period: u32,
)
    ensures
        final(paddle_momentum).0 == next_momentum(old(paddle_momentum).0, left, right, period),
        -PADDLE_MAX_MOMENTUM <= final(paddle_momentum).0 <= PADDLE_MAX_MOMENTUM,
{
    let reach: i64 = (PADDLE_SPEED * period as i64) / MICROS_PER_SECOND;
    let target: i64 = if right {
        reach
    } else if left {
        -reach
    } else {
        0
    };
    let current: i128 = paddle_momentum.0 as i128;
    let gap: i128 = target as i128 - current;
    assert(-0x2_0000_0000_0000_0000 * 100 <= gap * PADDLE_LERP <= 0x2_0000_0000_0000_0000 * 100)
        by (nonlinear_arith)
        requires
            -0x2_0000_0000_0000_0000 <= gap <= 0x2_0000_0000_0000_0000,
            PADDLE_LERP == 100,
    ;
    let moved: i128 = current + (gap * PADDLE_LERP as i128) / PER_MILLE as i128;
    paddle_momentum.0 = clamp_to(moved, -PADDLE_MAX_MOMENTUM, PADDLE_MAX_MOMENTUM);
}

/// Where the paddle's centre stands after a tick: moved by the
/// momentum and kept between the paddle's bounds.
pub open spec fn next_paddle_x(x: i64, momentum: i64) -> int {
    clamp(x + momentum, PADDLE_LEFT_BOUND as int, PADDLE_RIGHT_BOUND as int)
}

/// The paddle after a tick: only the x of its centre changes.
pub open spec fn moved_paddle(paddle: Paddle, momentum: i64) -> Paddle {
    Paddle {
        collider: Collider {
            position: Vector2 {
                x: next_paddle_x(paddle.collider.position.x, momentum) as i64,
                y: paddle.collider.position.y,
            },
            size: paddle.collider.size,
        },
        ..paddle
    }
}

/// Moves the paddle by its momentum, as far as its bounds allow.
/// Whatever the momentum and wherever the paddle stood, it ends
/// between `PADDLE_LEFT_BOUND` and `PADDLE_RIGHT_BOUND`.
pub fn update_paddle(paddle: &mut Paddle, paddle_momentum: &PaddleMomentum)
    ensures
        *final(paddle) == moved_paddle(*old(paddle), paddle_momentum.0),
        PADDLE_LEFT_BOUND <= final(paddle).collider.position.x <= PADDLE_RIGHT_BOUND,
{
    let start: i128 = paddle.collider.position.x as i128;
    let x: i128 = start + paddle_momentum.0 as i128;
    paddle.collider.position.x = clamp_to(x, PADDLE_LEFT_BOUND, PADDLE_RIGHT_BOUND);
}

/// The way covered in `period` microseconds along one axis, in steps,
/// by something whose velocity along that axis is `velocity` and
/// which goes `speed` steps a second per unit of velocity.
pub open spec fn travel(velocity: i64, speed: int, period: u32) -> int {
    trunc_div(velocity * speed * period, MICROS_PER_SECOND as int)
}

/// A coordinate after such a move. The plane ends where `i64` does,
/// and nothing moves past its edge.
pub open spec fn advanced(coordinate: i64, velocity: i64, speed: int, period: u32) -> int {
    clamp(coordinate + travel(velocity, speed, period), i64::MIN as int, i64::MAX as int)
}

fn advance(coordinate: i64, velocity: i64, speed: i64, period: u32) -> (r: i64)
    requires
        0 <= speed <= 1_000_000,
    ensures
        r == advanced(coordinate, velocity, speed as int, period),
{
    let v: i128 = velocity as i128;
    let s: i128 = speed as i128;
    let p: i128 = period as i128;
    assert(-0x8000_0000_0000_0000 * 1_000_000 <= v * s <= 0x8000_0000_0000_0000 * 1_000_000)
        by (nonlinear_arith)
        requires
            -0x8000_0000_0000_0000 <= v <= 0x8000_0000_0000_0000,
            0 <= s <= 1_000_000,
    ;
    let vs: i128 = v * s;
    assert(-0x8000_0000_0000_0000 * 1_000_000 * 0x1_0000_0000 <= vs * p
        <= 0x8000_0000_0000_0000 * 1_000_000 * 0x1_0000_0000) by (nonlinear_arith)
        requires
            -0x8000_0000_0000_0000 * 1_000_000 <= vs <= 0x8000_0000_0000_0000 * 1_000_000,
            0 <= p <= 0x1_0000_0000,
    ;
    let way: i128 = (vs * p) / MICROS_PER_SECOND as i128;
    proof {
        crate::fixed::lemma_trunc_div_bounds(vs * p, MICROS_PER_SECOND as int);
    }
    clamp_to(coordinate as i128 + way, i64::MIN, i64::MAX)
}

/// Moves an entity other than the ball for one tick: its velocity is
/// in steps per second.
pub fn apply_velocity(position: &mut Vector2, velocity: &Velocity, period: u32)
    ensures
        final(position).x == advanced(old(position).x, velocity.x, 1, period),
        final(position).y == advanced(old(position).y, velocity.y, 1, period),
{
    position.x = advance(position.x, velocity.x, 1, period);
    position.y = advance(position.y, velocity.y, 1, period);
}

/// The ball after the move of one tick. Its velocity is a direction,
/// in thousandths, and it covers `BALL_SPEED` units a second for a
/// direction of length one.
pub open spec fn moved_ball(ball: Ball, period: u32) -> Ball {
    Ball {
        position: Vector2 {
            x: advanced(ball.position.x, ball.velocity.x, BALL_SPEED as int, period) as i64,
            y: advanced(ball.position.y, ball.velocity.y, BALL_SPEED as int, period) as i64,
        },
        ..ball
    }
}

/// Moves the ball for one tick of `period` microseconds.
pub fn move_ball(ball: &mut Ball, period: u32)
    ensures
        *final(ball) == moved_ball(*old(ball), period),
{
    ball.position.x = advance(ball.position.x, ball.velocity.x, BALL_SPEED, period);
    ball.position.y = advance(ball.position.y, ball.velocity.y, BALL_SPEED, period);
}

/// What the brick pass leaves behind.
pub struct BrickPass {
    /// The ball's velocity after every bounce of the pass.
    pub velocity: Velocity,
    /// The bricks that are still alive, in their old order.
    pub bricks: Seq<Brick>,
    /// The number of bricks that the ball has hit.
    pub hits: nat,
}

/// The brick pass over `bricks`, taken one after the other, for a
/// ball with the given box that comes in with velocity `velocity`.
/// Every brick that the ball overlaps is hit: the ball bounces on the
/// side on which it lies, and the brick is weakened, or taken away if
/// it had one strength left. The others stay as they are.
pub open spec fn brick_pass(
    position: Vector2,
    size: Vector2,
    velocity: Velocity,
    bricks: Seq<Brick>,
) -> BrickPass
    decreases bricks.len(),
{
    if bricks.len() == 0 {
        BrickPass { velocity, bricks: Seq::empty(), hits: 0 }
    } else {
        let before = brick_pass(position, size, velocity, bricks.drop_last());
        let brick = bricks.last();
        match overlap_side(position, size, brick.collider.position, brick.collider.size) {
            None => BrickPass {
                velocity: before.velocity,
                bricks: before.bricks.push(brick),
                hits: before.hits,
            },
            Some(side) => BrickPass {
                velocity: reflect(side, before.velocity),
                bricks: if brick.strength <= 1 {
                    before.bricks
                } else {
                    before.bricks.push(brick.weakened())
                },
                hits: before.hits + 1,
            },
        }
    }
}

/// The brick pass hits each brick at most once, destroys no more
/// bricks than it hits, leaves live bricks, and leaves the ball with
/// a velocity that can bounce again.
pub proof fn lemma_brick_pass_bounds(
    position: Vector2,
    size: Vector2,
    velocity: Velocity,
    bricks: Seq<Brick>,
)
    requires
        velocity.wf(),
        all_live(bricks),
    ensures
        brick_pass(position, size, velocity, bricks).hits <= bricks.len(),
        brick_pass(position, size, velocity, bricks).bricks.len() <= bricks.len(),
        bricks.len() - brick_pass(position, size, velocity, bricks).bricks.len() <= brick_pass(
            position,
            size,
            velocity,
            bricks,
        ).hits,
        all_live(brick_pass(position, size, velocity, bricks).bricks),
        brick_pass(position, size, velocity, bricks).velocity.wf(),
        brick_pass(position, size, velocity, bricks).velocity.norm2() == velocity.norm2(),
    decreases bricks.len(),
{
    if bricks.len() > 0 {
        let front = bricks.drop_last();
        lemma_brick_pass_bounds(position, size, velocity, front);
        let before = brick_pass(position, size, velocity, front);
        let brick = bricks.last();
        assert(brick.wf());
        match overlap_side(position, size, brick.collider.position, brick.collider.size) {
            None => {},
            Some(side) => {
                lemma_reflect_keeps_speed(side, before.velocity);
            },
        }
    }
}

/// The brick pass of one tick. The ball is tested against every brick
/// in turn, and each brick that it overlaps is hit: the score rises by
/// `BRICK_SCORE`, the brick loses one strength and either changes its
/// tint or leaves the world and the tracker's count, and the ball
/// bounces off it. The result tells whether anything was hit.
pub fn check_brick_collisions(
    scoreboard: &mut Scoreboard,
    ball: &mut Ball,
    bricks: &mut Vec<Brick>,
    brick_tracker: &mut BrickTracker,
) -> (collision: Option<CollisionEvent>)
    requires
        old(ball).velocity.wf(),
        all_live(old(bricks)@),
        old(brick_tracker).0 == old(bricks)@.len(),
        old(scoreboard).score + BRICK_SCORE * old(bricks)@.len() <= usize::MAX,
    ensures
        ({
            let pass = brick_pass(
                old(ball).position,
                old(ball).size,
                old(ball).velocity,
                old(bricks)@,
            );
            &&& *final(ball) == (Ball { velocity: pass.velocity, ..*old(ball) })
            &&& final(bricks)@ == pass.bricks
            &&& final(scoreboard).score == old(scoreboard).score + BRICK_SCORE * pass.hits
            &&& collision is Some <==> pass.hits > 0
        }),
        final(brick_tracker).0 == final(bricks)@.len(),
        all_live(final(bricks)@),
        final(ball).velocity.wf(),
{
    let ghost start = *ball;
    let ghost all = bricks@;
    let ghost score = scoreboard.score;
    let n: usize = bricks.len();
    let mut kept: Vec<Brick> = Vec::new();
    let mut collision: Option<CollisionEvent> = None;
    let mut i: usize = 0;
    while i < n
        invariant
            i <= n,
            n == all.len(),
            bricks@ == all,
            all_live(all),
            start.velocity.wf(),
            score + BRICK_SCORE * all.len() <= usize::MAX,
            ball.position == start.position,
            ball.size == start.size,
            ball.blinking == start.blinking,
            ball.visible == start.visible,
            ball.velocity == brick_pass(
                start.position,
                start.size,
                start.velocity,
                all.take(i as int),
            ).velocity,
            kept@ == brick_pass(
                start.position,
                start.size,
                start.velocity,
                all.take(i as int),
            ).bricks,
            scoreboard.score == score + BRICK_SCORE * brick_pass(
                start.position,
                start.size,
                start.velocity,
                all.take(i as int),
            ).hits,
            collision is Some <==> brick_pass(
                start.position,
                start.size,
                start.velocity,
                all.take(i as int),
            ).hits > 0,
            brick_tracker.0 == kept@.len() + (n - i),
        decreases n - i,
    {
        let ghost front = all.take(i as int);
        let ghost upto = all.take(i as int + 1);
        proof {
            assert(upto.drop_last() == front);
            assert(upto.last() == all[i as int]);
            assert(all_live(front));
            assert(all_live(upto));
            lemma_brick_pass_bounds(start.position, start.size, start.velocity, front);
            lemma_brick_pass_bounds(start.position, start.size, start.velocity, upto);
        }
        let mut brick: Brick = bricks[i];
        assert(brick.wf());
        match test_overlap(ball.position, ball.size, brick.collider.position, brick.collider.size) {
            None => {
                kept.push(brick);
            },
            Some(side) => {
                collision = Some(CollisionEvent);
                assert(scoreboard.score + BRICK_SCORE <= usize::MAX) by (nonlinear_arith)
                    requires
                        scoreboard.score == score + BRICK_SCORE * brick_pass(
                            start.position,
                            start.size,
                            start.velocity,
                            front,
                        ).hits,
                        brick_pass(start.position, start.size, start.velocity, front).hits <= i,
                        i < all.len(),
                        score + BRICK_SCORE * all.len() <= usize::MAX,
                        BRICK_SCORE == 10,
                ;
                let destroyed: bool = brick_collision(scoreboard, brick_tracker, &mut brick);
                if !destroyed {
                    kept.push(brick);
                }
                ball_ricochet(side, &mut ball.velocity);
                assert(scoreboard.score == score + BRICK_SCORE * brick_pass(
                    start.position,
                    start.size,
                    start.velocity,
                    upto,
                ).hits) by (nonlinear_arith)
                    requires
                        scoreboard.score == score + BRICK_SCORE * brick_pass(
                            start.position,
                            start.size,
                            start.velocity,
                            front,
                        ).hits + BRICK_SCORE,
                        brick_pass(start.position, start.size, start.velocity, upto).hits
                            == brick_pass(start.position, start.size, start.velocity, front).hits
                            + 1,
                ;
            },
        }
        i = i + 1;
    }
    proof {
        assert(all.take(n as int) == all);
        lemma_brick_pass_bounds(start.position, start.size, start.velocity, all);
    }
    *bricks = kept;
    collision
}

/// What the paddle pass has found: the side of the paddle on which
/// the ball lay when it bounced, and whether the paddle's control
/// style now asks for the bounce to be turned.
#[derive(Clone, Copy, Debug, PartialEq, Eq, Structural)]
pub struct PaddleContact {
    pub side: Side,
    pub deflect: bool,
}

/// The contact that a bounce on `side` makes under `control_style`:
/// the bounce is turned where the ball has met the paddle's face, its
/// top or bottom, and the style is not `Unaltered`.
pub open spec fn paddle_contact(side: Side, control_style: ControlStyle) -> PaddleContact {
    PaddleContact {
        side,
        deflect: (side == Side::Top || side == Side::Bottom) && control_style
            != ControlStyle::Unaltered,
    }
}

/// The ball after a pass against one collider: it bounces on the
/// side on which it lies, if it overlaps the collider at all.
pub open spec fn bounced(ball: Ball, hit: Option<Side>) -> Ball {
    match hit {
        None => ball,
        Some(side) => Ball { velocity: reflect(side, ball.velocity), ..ball },
    }
}

/// A pass against a collider keeps the ball's speed and leaves its
/// velocity able to turn again.
pub proof fn lemma_bounce_keeps_speed(ball: Ball, hit: Option<Side>)
    requires
        ball.velocity.wf(),
    ensures
        bounced(ball, hit).velocity.norm2() == ball.velocity.norm2(),
        bounced(ball, hit).velocity.wf(),
        bounced(ball, hit).position == ball.position,
{
    if let Some(side) = hit {
        lemma_reflect_keeps_speed(side, ball.velocity);
    }
}

/// The side of the paddle on which the ball lies, if they overlap.
pub open spec fn paddle_hit(ball: Ball, paddle: Paddle) -> Option<Side> {
    overlap_side(ball.position, ball.size, paddle.collider.position, paddle.collider.size)
}

/// What the paddle pass reports of a hit.
pub open spec fn contact_of(hit: Option<Side>, control_style: ControlStyle) -> Option<
    PaddleContact,
> {
    match hit {
        None => None,
        Some(side) => Some(paddle_contact(side, control_style)),
    }
}

/// The paddle pass of one tick. A ball that overlaps the paddle
/// bounces on the side on which it lies, and the contact is reported.
/// Where the contact says `deflect`, the caller turns the bounce: it
/// measures the angle of the new velocity, asks `ball_influence` for
/// the angle to leave at, and gives the ball that direction at its old
/// speed.
pub fn check_paddle_collision(ball: &mut Ball, paddle: &Paddle, control_style: ControlStyle) -> (contact:
    Option<PaddleContact>)
    requires
        old(ball).velocity.wf(),
    ensures
        contact == contact_of(paddle_hit(*old(ball), *paddle), control_style),
        *final(ball) == bounced(*old(ball), paddle_hit(*old(ball), *paddle)),
        final(ball).velocity.wf(),
{
    match test_overlap(ball.position, ball.size, paddle.collider.position, paddle.collider.size) {
        None => None,
        Some(side) => {
            ball_ricochet(side, &mut ball.velocity);
            let face: bool = match side {
                Side::Top | Side::Bottom => true,
                _ => false,
            };
            let shaped: bool = match control_style {
                ControlStyle::Unaltered => false,
                _ => true,
            };
            Some(PaddleContact { side, deflect: face && shaped })
        },
    }
}

/// By how much the paddle turns the bounce, in millidegrees: its
/// momentum, as a fraction of the most it can have, of a right angle.
pub open spec fn paddle_influence(momentum: i64) -> int {
    trunc_div(PADDLE_MAX_INFLUENCE * momentum, PADDLE_MAX_MOMENTUM as int)
}

/// The angle at which the ball leaves the paddle, in millidegrees
/// from straight up: the angle of the plain bounce, turned by the
/// paddle's influence and kept within a right angle of straight up.
pub open spec fn influenced_angle(reflected_angle: i32, momentum: i64) -> int {
    clamp(
        reflected_angle + paddle_influence(momentum),
        -PADDLE_MAX_INFLUENCE,
        PADDLE_MAX_INFLUENCE as int,
    )
}

/// Turns the angle of a bounce off the paddle's face by the paddle's
/// momentum. Angles are in millidegrees from straight up.
pub fn ball_influence(reflected_angle: i32, paddle_momentum: &PaddleMomentum) -> (desired_angle: i32)
    ensures
        desired_angle == influenced_angle(reflected_angle, paddle_momentum.0),
        -PADDLE_MAX_INFLUENCE <= desired_angle <= PADDLE_MAX_INFLUENCE,
{
    let m: i128 = paddle_momentum.0 as i128;
    assert(-0x8000_0000_0000_0000 * 90_000 <= PADDLE_MAX_INFLUENCE * m <= 0x8000_0000_0000_0000
        * 90_000) by (nonlinear_arith)
        requires
            -0x8000_0000_0000_0000 <= m <= 0x8000_0000_0000_0000,
            PADDLE_MAX_INFLUENCE == 90_000,
    ;
    let influence: i128 = (PADDLE_MAX_INFLUENCE as i128 * m) / PADDLE_MAX_MOMENTUM as i128;
    let desired: i64 = clamp_to(
        reflected_angle as i128 + influence,
        -PADDLE_MAX_INFLUENCE,
        PADDLE_MAX_INFLUENCE,
    );
    desired as i32
}

/// The side on which the ball bounces in the wall pass: that of the
/// first wall, other than the bottom one, that the ball overlaps.
pub open spec fn first_wall_hit(position: Vector2, size: Vector2, walls: Seq<Wall>) -> Option<Side>
    decreases walls.len(),
{
    if walls.len() == 0 {
        None
    } else {
        let wall = walls.first();
        let hit = overlap_side(position, size, wall.collider.position, wall.collider.size);
        if !wall.is_bottom() && hit is Some {
            hit
        } else {
            first_wall_hit(position, size, walls.drop_first())
        }
    }
}

/// The wall pass of one tick. The ball bounces off the first of the
/// left, right and top walls that it overlaps, and off no other in
/// the same tick; the bottom wall is not part of this pass.
pub fn check_wall_collision(ball: &mut Ball, walls: &Vec<Wall>) -> (collision: Option<CollisionEvent>)
    requires
        old(ball).velocity.wf(),
    ensures
        collision is Some <==> first_wall_hit(old(ball).position, old(ball).size, walls@) is Some,
        *final(ball) == bounced(
            *old(ball),
            first_wall_hit(old(ball).position, old(ball).size, walls@),
        ),
        final(ball).velocity.wf(),
{
    let n: usize = walls.len();
    let mut i: usize = 0;
    assert(walls@.skip(0) == walls@);
    while i < n
        invariant
            i <= n,
            n == walls@.len(),
            *ball == *old(ball),
            ball.velocity.wf(),
            first_wall_hit(ball.position, ball.size, walls@) == first_wall_hit(
                ball.position,
                ball.size,
                walls@.skip(i as int),
            ),
        decreases n - i,
    {
        let wall: Wall = walls[i];
        proof {
            assert(walls@.skip(i as int).first() == walls@[i as int]);
            assert(walls@.skip(i as int).drop_first() == walls@.skip(i as int + 1));
        }
        if !wall.bottom() {
            match test_overlap(ball.position, ball.size, wall.collider.position, wall.collider.size) {
                None => {},
                Some(side) => {
                    ball_ricochet(side, &mut ball.velocity);
                    return Some(CollisionEvent);
                },
            }
        }
        i = i + 1;
    }
    None
}

} // verus!
