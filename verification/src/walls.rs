use vstd::prelude::*;
use crate::geometry::{overlap_side, test_overlap, Vector2};
use crate::health::PlayerMessage;
use crate::world::{Ball, Collider};

verus! {

/// Thickness of each wall, in steps.
pub const WALL_THICKNESS: i64 = 10_000;

/// x coordinate of the left wall's centre line.
pub const LEFT_WALL: i64 = -450_000;

/// x coordinate of the right wall's centre line.
pub const RIGHT_WALL: i64 = 450_000;

/// y coordinate of the bottom wall's centre line.
pub const BOTTOM_WALL: i64 = -300_000;

/// y coordinate of the top wall's centre line.
pub const TOP_WALL: i64 = 300_000;

/// Which of the four arena walls a wall is.
#[derive(Clone, Copy, Debug, PartialEq, Eq, Structural)]
pub enum WallLocation {
    Left,
    Right,
    Bottom,
    Top,
}

impl WallLocation {
    /// Centre of the wall at this location.
    pub open spec fn spec_position(self) -> Vector2 {
        match self {
            WallLocation::Left => Vector2 { x: LEFT_WALL, y: 0 },
            WallLocation::Right => Vector2 { x: RIGHT_WALL, y: 0 },
            WallLocation::Bottom => Vector2 { x: 0, y: BOTTOM_WALL },
            WallLocation::Top => Vector2 { x: 0, y: TOP_WALL },
        }
    }

    /// Extent of the wall at this location: the side walls span the
    /// arena's height and the others its width, each lengthened by one
    /// thickness so that the corners close.
    pub open spec fn spec_size(self) -> Vector2 {
        match self {
            WallLocation::Left | WallLocation::Right => Vector2 {
                x: WALL_THICKNESS,
                y: (TOP_WALL - BOTTOM_WALL + WALL_THICKNESS) as i64,
            },
            WallLocation::Bottom | WallLocation::Top => Vector2 {
                x: (RIGHT_WALL - LEFT_WALL + WALL_THICKNESS) as i64,
                y: WALL_THICKNESS,
            },
        }
    }

    pub fn position(&self) -> (p: Vector2)
        ensures
            p == self.spec_position(),
    {
        match self {
            WallLocation::Left => Vector2::new(LEFT_WALL, 0),
            WallLocation::Right => Vector2::new(RIGHT_WALL, 0),
            WallLocation::Bottom => Vector2::new(0, BOTTOM_WALL),
            WallLocation::Top => Vector2::new(0, TOP_WALL),
        }
    }

    pub fn size(&self) -> (s: Vector2)
        ensures
            s == self.spec_size(),
            s.x > 0,
            s.y > 0,
    {
        let arena_height: i64 = TOP_WALL - BOTTOM_WALL;
        let arena_width: i64 = RIGHT_WALL - LEFT_WALL;
        match self {
            WallLocation::Left | WallLocation::Right => Vector2::new(
                WALL_THICKNESS,
                arena_height + WALL_THICKNESS,
            ),
            WallLocation::Bottom | WallLocation::Top => Vector2::new(
                arena_width + WALL_THICKNESS,
                WALL_THICKNESS,
            ),
        }
    }
}

/// One of the arena's walls. The wall at the bottom is the one behind
/// which the ball is lost.
#[derive(Clone, Copy, Debug, PartialEq, Eq, Structural)]
pub struct Wall {
    pub collider: Collider,
    pub location: WallLocation,
}

impl Wall {
    /// The wall that stands at `location`.
    pub open spec fn spec_new(location: WallLocation) -> Wall {
        Wall {
            collider: Collider { position: location.spec_position(), size: location.spec_size() },
            location,
        }
    }

    /// This is the wall behind which the ball is lost.
    pub open spec fn is_bottom(self) -> bool {
        self.location == WallLocation::Bottom
    }

    pub fn new(location: WallLocation) -> (wall: Wall)
        ensures
            wall == Wall::spec_new(location),
    {
        Wall { collider: Collider { position: location.position(), size: location.size() }, location }
    }

    pub fn bottom(&self) -> (r: bool)
        ensures
            r == self.is_bottom(),
    {
        match self.location {
            WallLocation::Bottom => true,
            _ => false,
        }
    }
}

/// The four walls of the arena, in the order in which `setup` spawns them.
pub open spec fn arena_walls() -> Seq<Wall> {
    seq![
        Wall::spec_new(WallLocation::Left),
        Wall::spec_new(WallLocation::Right),
        Wall::spec_new(WallLocation::Top),
        Wall::spec_new(WallLocation::Bottom),
    ]
}

/// Spawns the four walls of the arena behind those that `walls` holds.
pub fn setup(walls: &mut Vec<Wall>)
    ensures
        final(walls)@ == old(walls)@ + arena_walls(),
{
    walls.push(Wall::new(WallLocation::Left));
    walls.push(Wall::new(WallLocation::Right));
    walls.push(Wall::new(WallLocation::Top));
    walls.push(Wall::new(WallLocation::Bottom));
}

/// The ball overlaps a bottom wall among `walls`.
pub open spec fn touches_bottom(position: Vector2, size: Vector2, walls: Seq<Wall>) -> bool {
    exists|i: int|
        0 <= i < walls.len() && (#[trigger] walls[i]).is_bottom() && overlap_side(
            position,
            size,
            walls[i].collider.position,
            walls[i].collider.size,
        ) is Some
}

/// The bottom-wall pass of one tick. A ball that overlaps the bottom
/// wall costs the player health: the pass reports it, once, and
/// leaves the ball as it is.
pub fn check_bottom_wall_collision(ball: &Ball, walls: &Vec<Wall>) -> (message: Option<PlayerMessage>)
    ensures
        message == (if touches_bottom(ball.position, ball.size, walls@) {
            Some(PlayerMessage::JustLostHealth)
        } else {
            None
        }),
{
    let n: usize = walls.len();
    let mut i: usize = 0;
    while i < n
        invariant
            i <= n,
            n == walls@.len(),
            forall|j: int|
                0 <= j < i ==> !((#[trigger] walls@[j]).is_bottom() && overlap_side(
                    ball.position,
                    ball.size,
                    walls@[j].collider.position,
                    walls@[j].collider.size,
                ) is Some),
        decreases n - i,
    {
        let wall: Wall = walls[i];
        if wall.bottom() {
            if test_overlap(
                ball.position,
                ball.size,
                wall.collider.position,
                wall.collider.size,
            ).is_some() {
                assert(walls@[i as int].is_bottom());
                return Some(PlayerMessage::JustLostHealth);
            }
        }
        i = i + 1;
    }
    None
}

} // verus!
