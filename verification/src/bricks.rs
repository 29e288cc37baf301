use vstd::prelude::*;
use crate::geometry::Vector2;
use crate::scoreboard::{Scoreboard, BRICK_SCORE};
use crate::world::Collider;

verus! {

/// A brick: its box, how many hits it still takes, and the index of
/// the tint it is drawn in.
#[derive(Clone, Copy, Debug, PartialEq, Eq, Structural)]
pub struct Brick {
    pub collider: Collider,
    pub strength: u8,
    pub tint: usize,
}

pub const BRICK_WIDTH: i64 = 100_000;

pub const BRICK_HEIGHT: i64 = 50_000;

/// Gap between two bricks that stand side by side or one above the other.
pub const BRICK_MARGIN: i64 = 5_000;

/// Room left free between each side wall and the bricks.
pub const BRICK_DIST_FROM_SIDE_WALL: i64 = 60_000;

/// Room left free between the ceiling and the bricks.
pub const BRICK_DIST_FROM_CEILING: i64 = 60_000;

/// Room left free between the paddle and the bricks.
pub const BRICK_DIST_FROM_PADDLE: i64 = 270_000;

/// Rows of bricks in every level.
pub const BRICK_ROWS: usize = 5;

/// Bricks in every row: as many as fit, with their margins, between
/// the side walls and the room left free beside them.
pub const BRICK_COLS: u32 = 7;

/// Left edge of the leftmost brick: the row stands in the middle of
/// the arena.
pub const BRICKS_LEFT_EDGE: i64 = -365_000;

/// Height of the top row's centre line.
pub const BRICKS_TOP_ROW: i64 = 265_000;

/// The number of layouts; the levels go through them in a circle.
pub const LEVEL_COUNT: usize = 5;

/// The grid's constants are what the arena's measures give, and the
/// room for the bricks is wider and higher than a brick.
pub proof fn lemma_grid_constants()
    ensures
        BRICK_COLS == (crate::walls::RIGHT_WALL - crate::walls::LEFT_WALL - 2
            * BRICK_DIST_FROM_SIDE_WALL) / (BRICK_WIDTH + BRICK_MARGIN),
        BRICKS_LEFT_EDGE == (crate::walls::LEFT_WALL + crate::walls::RIGHT_WALL) / 2 - (BRICK_COLS
            * BRICK_WIDTH) / 2 - ((BRICK_COLS - 1) * BRICK_MARGIN) / 2,
        BRICKS_TOP_ROW == crate::walls::TOP_WALL - BRICK_DIST_FROM_CEILING + BRICK_HEIGHT / 2,
        crate::walls::RIGHT_WALL - crate::walls::LEFT_WALL - 2 * BRICK_DIST_FROM_SIDE_WALL
            > BRICK_WIDTH,
        crate::walls::TOP_WALL - (crate::walls::BOTTOM_WALL
            + crate::world::PADDLE_DIST_FROM_BOTTOM_WALL + BRICK_DIST_FROM_PADDLE)
            - BRICK_DIST_FROM_CEILING > BRICK_HEIGHT,
{
}

/// The strengths of a level's rows of bricks, from the top row down.
#[derive(Clone, Copy, Debug, PartialEq, Eq)]
pub struct BrickLayout(pub [u8; 5]);

/// The layout of a level. There are `LEVEL_COUNT` layouts; a level
/// whose number is past the last one starts over with the first.
pub open spec fn spec_level_layout(level: usize) -> Seq<u8> {
    let index = level as int % (LEVEL_COUNT as int);
    if index == 0 {
        seq![1u8, 1u8, 1u8, 1u8, 1u8]
    } else if index == 1 {
        seq![2u8, 1u8, 1u8, 1u8, 2u8]
    } else if index == 2 {
        seq![1u8, 1u8, 2u8, 2u8, 3u8]
    } else if index == 3 {
        seq![1u8, 3u8, 1u8, 3u8, 1u8]
    } else {
        seq![3u8, 3u8, 1u8, 3u8, 3u8]
    }
}

/// Looks up the layout of a level.
pub fn level_layout(level: usize) -> (layout: BrickLayout)
    ensures
        layout.0@ == spec_level_layout(level),
        forall|row: int| 0 <= row < 5 ==> 1 <= #[trigger] layout.0@[row] <= MAX_BRICK_STRENGTH,
{
    let layout: BrickLayout = match level % LEVEL_COUNT {
        0 => BrickLayout([1, 1, 1, 1, 1]),
        1 => BrickLayout([2, 1, 1, 1, 2]),
        2 => BrickLayout([1, 1, 2, 2, 3]),
        3 => BrickLayout([1, 3, 1, 3, 1]),
        _ => BrickLayout([3, 3, 1, 3, 3]),
    };
    assert(layout.0@ =~= spec_level_layout(level));
    layout
}

/// The strongest brick there is; it breaks at the third hit.
pub const MAX_BRICK_STRENGTH: u8 = 3;

/// The number of bricks that are alive in the current level.
#[derive(Clone, Copy, Debug, PartialEq, Eq, Structural)]
pub struct BrickTracker(pub usize);

impl Brick {
    /// A live brick: it takes one to three more hits, and its tint is
    /// the one that belongs to its strength.
    pub open spec fn wf(self) -> bool {
        1 <= self.strength <= MAX_BRICK_STRENGTH && self.tint == self.strength - 1
    }

    /// The tint in which a brick of the given strength is drawn.
    pub open spec fn tint_of(strength: u8) -> usize {
        (strength - 1) as usize
    }

    /// The brick after one hit: one weaker, and in the tint of its new
    /// strength unless the hit has destroyed it.
    pub open spec fn weakened(self) -> Brick {
        Brick {
            collider: self.collider,
            strength: (self.strength - 1) as u8,
            tint: if self.strength == 1 {
                self.tint
            } else {
                Brick::tint_of((self.strength - 1) as u8)
            },
        }
    }

    /// A brick of the given strength in the given place.
    pub fn new(collider: Collider, strength: u8) -> (brick: Brick)
        requires
            1 <= strength <= MAX_BRICK_STRENGTH,
        ensures
            brick == (Brick { collider, strength, tint: Brick::tint_of(strength) }),
            brick.wf(),
    {
        Brick { collider, strength, tint: (strength - 1) as usize }
    }
}

/// Every brick of the sequence is a live brick.
pub open spec fn all_live(bricks: Seq<Brick>) -> bool {
    forall|i: int| 0 <= i < bricks.len() ==> (#[trigger] bricks[i]).wf()
}

/// What one hit leaves behind.
pub struct Hit {
    pub score: int,
    /// What the tracker counts.
    pub bricks_alive: int,
    pub brick: Brick,
    /// The hit has destroyed the brick.
    pub destroyed: bool,
}

/// One hit of the ball on `brick`: the score rises by `BRICK_SCORE`
/// and the brick loses one strength. A brick that has none left is
/// destroyed, and the tracker counts one brick less. One that lives
/// on changes its tint.
pub open spec fn hit(score: int, bricks_alive: int, brick: Brick) -> Hit {
    Hit {
        score: score + BRICK_SCORE,
        bricks_alive: if brick.strength == 1 {
            bricks_alive - 1
        } else {
            bricks_alive
        },
        brick: brick.weakened(),
        destroyed: brick.strength == 1,
    }
}

/// A brick of full strength takes three hits. The first two leave it
/// in the world, with strength 2 and tint 1 and then with strength 1
/// and tint 0, and do not touch the tracker. The third destroys it
/// and takes one off the tracker's count. The three hits score
/// thirty points.
pub proof fn lemma_three_hits(score: int, bricks_alive: int, brick: Brick)
    requires
        brick.wf(),
        brick.strength == MAX_BRICK_STRENGTH,
    ensures
        ({
            let first = hit(score, bricks_alive, brick);
            let second = hit(first.score, first.bricks_alive, first.brick);
            let third = hit(second.score, second.bricks_alive, second.brick);
            &&& !first.destroyed && first.brick.wf()
            &&& first.brick.strength == 2 && first.brick.tint == 1
            &&& first.bricks_alive == bricks_alive
            &&& !second.destroyed && second.brick.wf()
            &&& second.brick.strength == 1 && second.brick.tint == 0
            &&& second.bricks_alive == bricks_alive
            &&& third.destroyed && third.brick.strength == 0
            &&& third.bricks_alive == bricks_alive - 1
            &&& third.score == score + 30
            &&& third.brick.collider == brick.collider
        }),
{
}

/// Settles one hit of the ball on `brick`, as `hit` says. Where the
/// result says that the brick is destroyed, the caller takes it out of
/// the world.
pub fn brick_collision(
    scoreboard: &mut Scoreboard,
    brick_tracker: &mut BrickTracker,
    brick: &mut Brick,
) -> (destroyed: bool)
    requires
        old(brick).wf(),
        old(brick_tracker).0 >= 1,
        old(scoreboard).score + BRICK_SCORE <= usize::MAX,
    ensures
        hit(old(scoreboard).score as int, old(brick_tracker).0 as int, *old(brick)) == (Hit {
            score: final(scoreboard).score as int,
            bricks_alive: final(brick_tracker).0 as int,
            brick: *final(brick),
            destroyed,
        }),
        !destroyed ==> final(brick).wf(),
{
    scoreboard.score = scoreboard.score + BRICK_SCORE;
    brick.strength = brick.strength - 1;
    if brick.strength == 0 {
        brick_tracker.0 = brick_tracker.0 - 1;
        return true;
    }
    brick.tint = (brick.strength - 1) as usize;
    false
}

/// The brick that stands in column `col` of a row whose leftmost
/// brick begins at `left_edge` and whose centre line is at height `y`.
pub open spec fn brick_in_row(strength: u8, y: i64, left_edge: i64, col: int) -> Brick {
    Brick {
        collider: Collider {
            position: Vector2 {
                x: (left_edge + BRICK_WIDTH / 2 + col * (BRICK_WIDTH + BRICK_MARGIN)) as i64,
                y,
            },
            size: Vector2 { x: BRICK_WIDTH, y: BRICK_HEIGHT },
        },
        strength,
        tint: Brick::tint_of(strength),
    }
}

/// A row of `cols` bricks, from left to right.
pub open spec fn brick_row(strength: u8, y: i64, left_edge: i64, cols: nat) -> Seq<Brick> {
    Seq::new(cols, |col: int| brick_in_row(strength, y, left_edge, col))
}

/// Height of the centre line of row `row`, the top row being row 0.
pub open spec fn row_height(row: int) -> int {
    BRICKS_TOP_ROW - row * (BRICK_HEIGHT + BRICK_MARGIN)
}

/// The topmost `rows` rows of a level's bricks, row after row.
pub open spec fn brick_rows(level: usize, rows: nat) -> Seq<Brick>
    decreases rows,
{
    if rows == 0 {
        Seq::empty()
    } else {
        brick_rows(level, (rows - 1) as nat) + brick_row(
            spec_level_layout(level)[rows - 1],
            row_height(rows - 1) as i64,
            BRICKS_LEFT_EDGE,
            BRICK_COLS as nat,
        )
    }
}

/// All the bricks of a level, in the order in which they are spawned.
pub open spec fn brick_grid(level: usize) -> Seq<Brick> {
    brick_rows(level, BRICK_ROWS as nat)
}

/// A level's rows hold `BRICK_COLS` bricks each, all of them live.
pub proof fn lemma_brick_rows(level: usize, rows: nat)
    requires
        rows <= BRICK_ROWS,
    ensures
        brick_rows(level, rows).len() == rows * BRICK_COLS,
        forall|i: int|
            0 <= i < brick_rows(level, rows).len() ==> (#[trigger] brick_rows(level, rows)[i]).wf(),
    decreases rows,
{
    if rows > 0 {
        lemma_brick_rows(level, (rows - 1) as nat);
        let strength = spec_level_layout(level)[rows - 1];
        assert(1 <= strength <= MAX_BRICK_STRENGTH);
    }
}

/// Every level has thirty-five bricks, all of them live.
pub proof fn lemma_brick_grid(level: usize)
    ensures
        brick_grid(level).len() == BRICK_ROWS * BRICK_COLS,
        brick_grid(level).len() == 35,
        all_live(brick_grid(level)),
{
    lemma_brick_rows(level, BRICK_ROWS as nat);
}

/// Spawns a row of `cols` bricks of one strength behind the bricks
/// that are there, and returns how many it has spawned.
pub fn spawn_brick_row(
    bricks: &mut Vec<Brick>,
    brick_strength: u8,
    y_position: i64,
    left_edge: i64,
    cols: u32,
) -> (spawned: usize)
    requires
        1 <= brick_strength <= MAX_BRICK_STRENGTH,
        left_edge + BRICK_WIDTH / 2 + cols * (BRICK_WIDTH + BRICK_MARGIN) <= i64::MAX,
    ensures
        spawned == cols,
        final(bricks)@ == old(bricks)@ + brick_row(
            brick_strength,
            y_position,
            left_edge,
            cols as nat,
        ),
{
    let offset_x: i64 = left_edge + BRICK_WIDTH / 2;
    let mut spawned: usize = 0;
    let mut col: u32 = 0;
    while col < cols
        invariant
            col <= cols,
            spawned == col,
            1 <= brick_strength <= MAX_BRICK_STRENGTH,
            offset_x == left_edge + BRICK_WIDTH / 2,
            left_edge + BRICK_WIDTH / 2 + cols * (BRICK_WIDTH + BRICK_MARGIN) <= i64::MAX,
            bricks@ == old(bricks)@ + brick_row(brick_strength, y_position, left_edge, col as nat),
        decreases cols - col,
    {
        let pitch: i64 = BRICK_WIDTH + BRICK_MARGIN;
        assert(0 <= col * pitch <= cols * (BRICK_WIDTH + BRICK_MARGIN)) by (nonlinear_arith)
            requires
                0 <= col <= cols,
                pitch == BRICK_WIDTH + BRICK_MARGIN,
                pitch == 105_000,
        ;
        let brick_pos: Vector2 = Vector2::new(offset_x + col as i64 * pitch, y_position);
        let brick: Brick = Brick::new(
            Collider { position: brick_pos, size: Vector2::new(BRICK_WIDTH, BRICK_HEIGHT) },
            brick_strength,
        );
        bricks.push(brick);
        assert(brick == brick_in_row(brick_strength, y_position, left_edge, col as int));
        assert(brick_row(brick_strength, y_position, left_edge, col as nat).push(brick)
            == brick_row(brick_strength, y_position, left_edge, (col + 1) as nat));
        spawned = spawned + 1;
        col = col + 1;
    }
    spawned
}

/// Spawns the bricks of a level behind the bricks that are there, and
/// returns how many it has spawned: the number that the tracker is to
/// count from.
pub fn spawn_bricks(bricks: &mut Vec<Brick>, level: usize) -> (num_bricks: usize)
    ensures
        final(bricks)@ == old(bricks)@ + brick_grid(level),
        num_bricks == brick_grid(level).len(),
        num_bricks == 35,
{
    let brick_layout: BrickLayout = level_layout(level);
    let mut num_bricks: usize = 0;
    let mut row: usize = 0;
    while row < BRICK_ROWS
        invariant
            row <= BRICK_ROWS,
            brick_layout.0@ == spec_level_layout(level),
            forall|r: int|
                0 <= r < 5 ==> 1 <= #[trigger] brick_layout.0@[r] <= MAX_BRICK_STRENGTH,
            num_bricks == row * BRICK_COLS,
            bricks@ == old(bricks)@ + brick_rows(level, row as nat),
        decreases BRICK_ROWS - row,
    {
        let row_strength: u8 = brick_layout.0[row];
        let row_y: i64 = BRICKS_TOP_ROW - row as i64 * (BRICK_HEIGHT + BRICK_MARGIN);
        let spawned: usize = spawn_brick_row(
            bricks,
            row_strength,
            row_y,
            BRICKS_LEFT_EDGE,
            BRICK_COLS,
        );
        assert(bricks@ == old(bricks)@ + brick_rows(level, (row + 1) as nat));
        num_bricks = num_bricks + spawned;
        row = row + 1;
    }
    proof {
        lemma_brick_grid(level);
    }
    num_bricks
}

} // verus!
