use breaker::bricks::{
    brick_collision, level_layout, spawn_brick_row, spawn_bricks, Brick, BrickLayout,
    BrickTracker,
};
use breaker::geometry::Vector2;
use breaker::physics::{check_brick_collisions, CollisionEvent};
use breaker::scoreboard::Scoreboard;
use breaker::world::{Ball, Collider, Velocity};

fn brick_at(x: i64, y: i64, strength: u8) -> Brick {
    Brick::new(
        Collider { position: Vector2::new(x, y), size: Vector2::new(100_000, 50_000) },
        strength,
    )
}

#[test]
fn brick_takes_three_hits() {
    let mut scoreboard = Scoreboard { score: 0 };
    let mut tracker = BrickTracker(7);
    let mut brick = brick_at(0, 0, 3);
    assert_eq!(brick.tint, 2);

    assert!(!brick_collision(&mut scoreboard, &mut tracker, &mut brick));
    assert_eq!(brick.strength, 2);
    assert_eq!(brick.tint, 1);
    assert_eq!(tracker, BrickTracker(7));
    assert_eq!(scoreboard.score, 10);

    assert!(!brick_collision(&mut scoreboard, &mut tracker, &mut brick));
    assert_eq!(brick.strength, 1);
    assert_eq!(brick.tint, 0);
    assert_eq!(tracker, BrickTracker(7));
    assert_eq!(scoreboard.score, 20);

    assert!(brick_collision(&mut scoreboard, &mut tracker, &mut brick));
    assert_eq!(brick.strength, 0);
    assert_eq!(tracker, BrickTracker(6));
    assert_eq!(scoreboard.score, 30);
}

#[test]
fn brick_hit_in_the_world_three_times() {
    let mut scoreboard = Scoreboard { score: 0 };
    let mut ball = Ball::new();
    ball.position = Vector2::new(0, -39_000);
    ball.velocity = Velocity::new(0, 1000);
    let mut bricks = vec![brick_at(0, 0, 3), brick_at(300_000, 0, 1)];
    let mut tracker = BrickTracker(2);

    let hit = check_brick_collisions(&mut scoreboard, &mut ball, &mut bricks, &mut tracker);
    assert_eq!(hit, Some(CollisionEvent));
    assert_eq!(bricks.len(), 2);
    assert_eq!(bricks[0].strength, 2);
    assert_eq!(bricks[0].tint, 1);
    assert_eq!(tracker, BrickTracker(2));
    assert_eq!(ball.velocity, Velocity::new(0, -1000));

    check_brick_collisions(&mut scoreboard, &mut ball, &mut bricks, &mut tracker);
    assert_eq!(bricks[0].strength, 1);
    let hit = check_brick_collisions(&mut scoreboard, &mut ball, &mut bricks, &mut tracker);
    assert_eq!(hit, Some(CollisionEvent));
    assert_eq!(bricks, vec![brick_at(300_000, 0, 1)]);
    assert_eq!(tracker, BrickTracker(1));
    assert_eq!(scoreboard.score, 30);

    let hit = check_brick_collisions(&mut scoreboard, &mut ball, &mut bricks, &mut tracker);
    assert_eq!(hit, None);
    assert_eq!(scoreboard.score, 30);
    assert_eq!(tracker, BrickTracker(1));
}

#[test]
fn brick_pass_hits_every_overlapping_brick() {
    let mut scoreboard = Scoreboard { score: 5 };
    let mut ball = Ball::new();
    // between two bricks that stand side by side, coming from below
    ball.position = Vector2::new(0, -39_000);
    ball.velocity = Velocity::new(600, 800);
    let mut bricks = vec![
        brick_at(-52_500, 0, 1),
        brick_at(500_000, 0, 2),
        brick_at(52_500, 0, 2),
    ];
    let mut tracker = BrickTracker(3);
    let hit = check_brick_collisions(&mut scoreboard, &mut ball, &mut bricks, &mut tracker);
    assert_eq!(hit, Some(CollisionEvent));
    assert_eq!(scoreboard.score, 25);
    assert_eq!(bricks, vec![brick_at(500_000, 0, 2), brick_at(52_500, 0, 1)]);
    assert_eq!(tracker, BrickTracker(2));
    // both bricks are met from below: the first bounce turns the ball, the second finds it turned
    assert_eq!(ball.velocity, Velocity::new(600, -800));
    assert_eq!(ball.position, Vector2::new(0, -39_000));
}

#[test]
fn brick_pass_over_no_bricks() {
    let mut scoreboard = Scoreboard { score: 40 };
    let mut ball = Ball::new();
    let before = ball;
    let mut bricks: Vec<Brick> = Vec::new();
    let mut tracker = BrickTracker(0);
    assert_eq!(check_brick_collisions(&mut scoreboard, &mut ball, &mut bricks, &mut tracker), None);
    assert_eq!(ball, before);
    assert_eq!(scoreboard.score, 40);
    assert_eq!(tracker, BrickTracker(0));
}

#[test]
fn layouts_of_the_levels() {
    assert_eq!(level_layout(0), BrickLayout([1, 1, 1, 1, 1]));
    assert_eq!(level_layout(1), BrickLayout([2, 1, 1, 1, 2]));
    assert_eq!(level_layout(2), BrickLayout([1, 1, 2, 2, 3]));
    assert_eq!(level_layout(3), BrickLayout([1, 3, 1, 3, 1]));
    assert_eq!(level_layout(4), BrickLayout([3, 3, 1, 3, 3]));
}

#[test]
fn layouts_start_over_past_the_last() {
    assert_eq!(level_layout(5), level_layout(0));
    assert_eq!(level_layout(6), level_layout(1));
    assert_eq!(level_layout(14), level_layout(4));
    assert_eq!(level_layout(usize::MAX), level_layout(usize::MAX % 5));
}

#[test]
fn row_of_bricks() {
    let mut bricks = vec![brick_at(1, 2, 3)];
    let spawned = spawn_brick_row(&mut bricks, 2, 210_000, -365_000, 3);
    assert_eq!(spawned, 3);
    assert_eq!(
        bricks,
        vec![
            brick_at(1, 2, 3),
            brick_at(-315_000, 210_000, 2),
            brick_at(-210_000, 210_000, 2),
            brick_at(-105_000, 210_000, 2),
        ]
    );
    assert_eq!(spawn_brick_row(&mut bricks, 1, 0, 0, 0), 0);
    assert_eq!(bricks.len(), 4);
}

#[test]
fn bricks_of_the_first_level() {
    let mut bricks = Vec::new();
    let count = spawn_bricks(&mut bricks, 1);
    assert_eq!(count, 35);
    assert_eq!(bricks.len(), 35);
    for (i, brick) in bricks.iter().enumerate() {
        let row = (i / 7) as i64;
        let col = (i % 7) as i64;
        let strength = [2, 1, 1, 1, 2][i / 7];
        assert_eq!(*brick, brick_at(-315_000 + col * 105_000, 265_000 - row * 55_000, strength));
        assert_eq!(brick.tint, (strength - 1) as usize);
    }
    assert_eq!(bricks[0].collider.position, Vector2::new(-315_000, 265_000));
    assert_eq!(bricks[34].collider.position, Vector2::new(315_000, 45_000));
}

#[test]
fn bricks_come_behind_those_that_are_there() {
    let mut bricks = vec![brick_at(0, 0, 1)];
    assert_eq!(spawn_bricks(&mut bricks, 4), 35);
    assert_eq!(bricks.len(), 36);
    assert_eq!(bricks[0], brick_at(0, 0, 1));
    assert_eq!(bricks[1].strength, 3);
    assert_eq!(bricks[15].strength, 1);
}
