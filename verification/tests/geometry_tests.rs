use breaker::geometry::{test_overlap, Side, Vector2};

fn units(x: i64, y: i64) -> Vector2 {
    Vector2::new(x * 1000, y * 1000)
}

// The collider of every case: centred on the origin, 12 wide and 30 high,
// so that it reaches from -6 to 6 and from -15 to 15.
fn target() -> (Vector2, Vector2) {
    (units(0, 0), units(12, 30))
}

#[test]
fn overlap_reports_left() {
    let (center, size) = target();
    assert_eq!(test_overlap(units(-9, 0), units(10, 10), center, size), Some(Side::Left));
}

#[test]
fn overlap_reports_right() {
    let (center, size) = target();
    assert_eq!(test_overlap(units(9, 0), units(10, 10), center, size), Some(Side::Right));
}

#[test]
fn overlap_reports_top() {
    let (center, size) = target();
    assert_eq!(test_overlap(units(0, 19), units(10, 10), center, size), Some(Side::Top));
}

#[test]
fn overlap_reports_bottom() {
    let (center, size) = target();
    assert_eq!(test_overlap(units(0, -19), units(10, 10), center, size), Some(Side::Bottom));
}

#[test]
fn overlap_reports_none_for_separated_boxes() {
    let (center, size) = target();
    assert_eq!(test_overlap(units(-20, 0), units(10, 10), center, size), None);
    assert_eq!(test_overlap(units(0, 40), units(10, 10), center, size), None);
    assert_eq!(test_overlap(units(100, 100), units(10, 10), center, size), None);
}

#[test]
fn overlap_reports_none_for_boxes_that_only_touch() {
    let (center, size) = target();
    // the right edge of a is at -6, where b begins
    assert_eq!(test_overlap(units(-11, 0), units(10, 10), center, size), None);
    assert_eq!(test_overlap(units(0, 20), units(10, 10), center, size), None);
}

#[test]
fn overlap_reports_inside_for_nested_boxes() {
    let (center, size) = target();
    assert_eq!(test_overlap(units(0, 0), units(2, 2), center, size), Some(Side::Inside));
    assert_eq!(test_overlap(units(1, -3), units(4, 6), center, size), Some(Side::Inside));
    // the other way round: b lies within a
    assert_eq!(test_overlap(units(0, 0), units(100, 100), center, size), Some(Side::Inside));
}

#[test]
fn overlap_prefers_the_shallower_axis() {
    let (center, size) = target();
    // in by 2 from the left and by 1 from the top
    assert_eq!(test_overlap(units(-9, 19), units(10, 10), center, size), Some(Side::Top));
    // in by 1 from the right and by 3 from below
    assert_eq!(test_overlap(units(10, -17), units(10, 10), center, size), Some(Side::Right));
}

#[test]
fn overlap_gives_a_tie_to_the_x_axis() {
    let (center, size) = target();
    // in by 2 on both axes
    assert_eq!(test_overlap(units(-9, 18), units(10, 10), center, size), Some(Side::Left));
    assert_eq!(test_overlap(units(9, -18), units(10, 10), center, size), Some(Side::Right));
}

#[test]
fn overlap_with_one_axis_spanning() {
    let (center, size) = target();
    // a is wider than b and comes from above: only the y axis names a side
    assert_eq!(test_overlap(units(0, 19), units(40, 10), center, size), Some(Side::Top));
    // a is higher than b and comes from the left
    assert_eq!(test_overlap(units(-9, 0), units(10, 80), center, size), Some(Side::Left));
}

#[test]
fn overlap_handles_odd_sizes_exactly() {
    // sizes of one step: the half is not a whole number of steps
    let a = Vector2::new(0, 0);
    let b = Vector2::new(1, 0);
    let one = Vector2::new(1, 1);
    // a covers -0.5..0.5 and b covers 0.5..1.5: they only touch
    assert_eq!(test_overlap(a, one, b, one), None);
    let three = Vector2::new(3, 3);
    // b now covers -0.5..2.5 in x and -1.5..1.5 in y
    assert_eq!(test_overlap(a, one, b, three), Some(Side::Inside));
    assert_eq!(test_overlap(a, three, Vector2::new(2, 0), three), Some(Side::Left));
}

#[test]
fn overlap_at_the_ends_of_the_plane() {
    let far = Vector2::new(i64::MAX, i64::MIN);
    let big = Vector2::new(i64::MAX, i64::MAX);
    assert_eq!(test_overlap(far, big, far, big), Some(Side::Inside));
    assert_eq!(test_overlap(far, big, Vector2::new(i64::MIN, i64::MAX), big), None);
}
