use vstd::prelude::*;

verus! {

/// A point or an extent of the plane, in steps.
#[derive(Clone, Copy, Debug, PartialEq, Eq, Structural)]
pub struct Vector2 {
    pub x: i64,
    pub y: i64,
}

impl Vector2 {
    pub fn new(x: i64, y: i64) -> (v: Vector2)
        ensures
            v.x == x,
            v.y == y,
    {
        Vector2 { x, y }
    }
}

/// Where the first box of an overlapping pair lies relative to the
/// second: on its left, right, top or bottom, or on no side at all.
#[derive(Clone, Copy, Debug, PartialEq, Eq, Structural)]
pub enum Side {
    Left,
    Right,
    Top,
    Bottom,
    Inside,
}

/// Twice the lower end of the interval of length `size` centred on `center`.
pub open spec fn low2(center: int, size: int) -> int {
    2 * center - size
}

/// Twice the upper end of the interval of length `size` centred on `center`.
pub open spec fn high2(center: int, size: int) -> int {
    2 * center + size
}

/// The open intervals of `a` and `b` share a point.
pub open spec fn intervals_overlap(ca: int, sa: int, cb: int, sb: int) -> bool {
    low2(ca, sa) < high2(cb, sb) && high2(ca, sa) > low2(cb, sb)
}

/// Interval `a` reaches into `b` across `b`'s lower end and stops inside it.
pub open spec fn enters_from_low(ca: int, sa: int, cb: int, sb: int) -> bool {
    low2(ca, sa) < low2(cb, sb) && low2(cb, sb) < high2(ca, sa) && high2(ca, sa) < high2(cb, sb)
}

/// Interval `a` reaches into `b` across `b`'s upper end and stops inside it.
pub open spec fn enters_from_high(ca: int, sa: int, cb: int, sb: int) -> bool {
    low2(cb, sb) < low2(ca, sa) && low2(ca, sa) < high2(cb, sb) && high2(cb, sb) < high2(ca, sa)
}

/// Twice the length by which `a` has entered `b`; meaningful where one
/// of `enters_from_low` and `enters_from_high` holds.
pub open spec fn penetration2(ca: int, sa: int, cb: int, sb: int) -> int {
    if enters_from_low(ca, sa, cb, sb) {
        high2(ca, sa) - low2(cb, sb)
    } else {
        high2(cb, sb) - low2(ca, sa)
    }
}

/// The two boxes overlap: their intervals do on both axes.
pub open spec fn boxes_overlap(
    center_a: Vector2,
    size_a: Vector2,
    center_b: Vector2,
    size_b: Vector2,
) -> bool {
    &&& intervals_overlap(center_a.x as int, size_a.x as int, center_b.x as int, size_b.x as int)
    &&& intervals_overlap(center_a.y as int, size_a.y as int, center_b.y as int, size_b.y as int)
}

/// The side of `b` that `a` touches, as seen along the x axis alone.
pub open spec fn x_side(center_a: Vector2, size_a: Vector2, center_b: Vector2, size_b: Vector2)
    -> Option<Side> {
    if enters_from_low(center_a.x as int, size_a.x as int, center_b.x as int, size_b.x as int) {
        Some(Side::Left)
    } else if enters_from_high(
        center_a.x as int,
        size_a.x as int,
        center_b.x as int,
        size_b.x as int,
    ) {
        Some(Side::Right)
    } else {
        None
    }
}

/// The side of `b` that `a` touches, as seen along the y axis alone.
pub open spec fn y_side(center_a: Vector2, size_a: Vector2, center_b: Vector2, size_b: Vector2)
    -> Option<Side> {
    if enters_from_low(center_a.y as int, size_a.y as int, center_b.y as int, size_b.y as int) {
        Some(Side::Bottom)
    } else if enters_from_high(
        center_a.y as int,
        size_a.y as int,
        center_b.y as int,
        size_b.y as int,
    ) {
        Some(Side::Top)
    } else {
        None
    }
}

/// What `test_overlap` reports. Boxes that do not overlap give `None`.
/// Of boxes that do, the axis on which `a` has entered `b` less deeply
/// names the side; an axis on which neither box ends inside the other
/// counts as infinitely deep, a tie goes to the x axis, and where no
/// axis names a side the answer is `Inside`.
pub open spec fn overlap_side(
    center_a: Vector2,
    size_a: Vector2,
    center_b: Vector2,
    size_b: Vector2,
) -> Option<Side> {
    if !boxes_overlap(center_a, size_a, center_b, size_b) {
        None
    } else {
        match (
            x_side(center_a, size_a, center_b, size_b),
            y_side(center_a, size_a, center_b, size_b),
        ) {
            (None, None) => Some(Side::Inside),
            (Some(sx), None) => Some(sx),
            (None, Some(sy)) => Some(sy),
            (Some(sx), Some(sy)) => if penetration2(
                center_a.y as int,
                size_a.y as int,
                center_b.y as int,
                size_b.y as int,
            ) < penetration2(
                center_a.x as int,
                size_a.x as int,
                center_b.x as int,
                size_b.x as int,
            ) {
                Some(sy)
            } else {
                Some(sx)
            },
        }
    }
}

fn edge_low2(center: i64, size: i64) -> (r: i128)
    ensures
        r == low2(center as int, size as int),
{
    let c: i128 = center as i128;
    let s: i128 = size as i128;
    c + c - s
}

fn edge_high2(center: i64, size: i64) -> (r: i128)
    ensures
        r == high2(center as int, size as int),
{
    let c: i128 = center as i128;
    let s: i128 = size as i128;
    c + c + s
}

/// Tests box `a` against box `b`, each given by its centre and its
/// extent, and names the side of `b` on which `a` lies.
pub fn test_overlap(center_a: Vector2, size_a: Vector2, center_b: Vector2, size_b: Vector2) -> (side:
    Option<Side>)
    ensures
        side == overlap_side(center_a, size_a, center_b, size_b),
{
    let a_min_x: i128 = edge_low2(center_a.x, size_a.x);
    let a_max_x: i128 = edge_high2(center_a.x, size_a.x);
    let b_min_x: i128 = edge_low2(center_b.x, size_b.x);
    let b_max_x: i128 = edge_high2(center_b.x, size_b.x);
    let a_min_y: i128 = edge_low2(center_a.y, size_a.y);
    let a_max_y: i128 = edge_high2(center_a.y, size_a.y);
    let b_min_y: i128 = edge_low2(center_b.y, size_b.y);
    let b_max_y: i128 = edge_high2(center_b.y, size_b.y);

    if !(a_min_x < b_max_x && a_max_x > b_min_x && a_min_y < b_max_y && a_max_y > b_min_y) {
        return None;
    }
    let mut along_x: Option<Side> = None;
    let mut depth_x: i128 = 0;
    if a_min_x < b_min_x && a_max_x < b_max_x {
        along_x = Some(Side::Left);
        depth_x = a_max_x - b_min_x;
    } else if a_min_x > b_min_x && a_max_x > b_max_x {
        along_x = Some(Side::Right);
        depth_x = b_max_x - a_min_x;
    }
    let mut along_y: Option<Side> = None;
    let mut depth_y: i128 = 0;
    if a_min_y < b_min_y && a_max_y < b_max_y {
        along_y = Some(Side::Bottom);
        depth_y = a_max_y - b_min_y;
    } else if a_min_y > b_min_y && a_max_y > b_max_y {
        along_y = Some(Side::Top);
        depth_y = b_max_y - a_min_y;
    }
    match (along_x, along_y) {
        (None, None) => Some(Side::Inside),
        (Some(sx), None) => Some(sx),
        (None, Some(sy)) => Some(sy),
        (Some(sx), Some(sy)) => if depth_y < depth_x {
            Some(sy)
        } else {
            Some(sx)
        },
    }
}

/// Boxes whose intervals are apart on some axis, or only touch there,
/// do not overlap.
pub proof fn lemma_separated_is_none(
    center_a: Vector2,
    size_a: Vector2,
    center_b: Vector2,
    size_b: Vector2,
)
    requires
        high2(center_a.x as int, size_a.x as int) <= low2(center_b.x as int, size_b.x as int)
            || high2(center_b.x as int, size_b.x as int) <= low2(center_a.x as int, size_a.x as int)
            || high2(center_a.y as int, size_a.y as int) <= low2(center_b.y as int, size_b.y as int)
            || high2(center_b.y as int, size_b.y as int) <= low2(center_a.y as int, size_a.y as int),
    ensures
        overlap_side(center_a, size_a, center_b, size_b) is None,
{
}

/// Interval `a` lies strictly within interval `b`.
pub open spec fn strictly_within(ca: int, sa: int, cb: int, sb: int) -> bool {
    low2(cb, sb) < low2(ca, sa) && low2(ca, sa) < high2(ca, sa) && high2(ca, sa) < high2(cb, sb)
}

/// Where on each axis one box's interval lies strictly within the
/// other's, the answer is `Inside`.
pub proof fn lemma_nested_is_inside(
    center_a: Vector2,
    size_a: Vector2,
    center_b: Vector2,
    size_b: Vector2,
)
    requires
        strictly_within(center_a.x as int, size_a.x as int, center_b.x as int, size_b.x as int)
            || strictly_within(
            center_b.x as int,
            size_b.x as int,
            center_a.x as int,
            size_a.x as int,
        ),
        strictly_within(center_a.y as int, size_a.y as int, center_b.y as int, size_b.y as int)
            || strictly_within(
            center_b.y as int,
            size_b.y as int,
            center_a.y as int,
            size_a.y as int,
        ),
    ensures
        overlap_side(center_a, size_a, center_b, size_b) == Some(Side::Inside),
{
}

/// A reported side other than `Inside` is a side on which `a`'s centre
/// lies beyond `b`'s.
pub proof fn lemma_side_faces_center(
    center_a: Vector2,
    size_a: Vector2,
    center_b: Vector2,
    size_b: Vector2,
)
    ensures
        overlap_side(center_a, size_a, center_b, size_b) == Some(Side::Left) ==> center_a.x
            < center_b.x,
        overlap_side(center_a, size_a, center_b, size_b) == Some(Side::Right) ==> center_a.x
            > center_b.x,
        overlap_side(center_a, size_a, center_b, size_b) == Some(Side::Bottom) ==> center_a.y
            < center_b.y,
        overlap_side(center_a, size_a, center_b, size_b) == Some(Side::Top) ==> center_a.y
            > center_b.y,
{
}

} // verus!
