use road_intersection::geometry::{scale, Direction, Field, Point, Rect};
use road_intersection::units::{COORD_LIMIT, ONE};

#[test]
fn squared_distance_is_exact() {
    let a = Point { x: 3_000, y: -4_000 };
    let b = Point { x: 0, y: 0 };
    assert_eq!(a.distance_squared(&b), 25_000_000);
    assert_eq!(b.distance_squared(&a), 25_000_000);
    assert_eq!(a.distance_squared(&a), 0);
}

#[test]
fn squared_distance_at_the_limit_of_reach() {
    let a = Point { x: COORD_LIMIT, y: COORD_LIMIT };
    let b = Point { x: -COORD_LIMIT, y: -COORD_LIMIT };
    let side = 2 * (COORD_LIMIT as i128);
    assert_eq!(a.distance_squared(&b), 2 * side * side);
}

#[test]
fn rectangles_that_touch_overlap() {
    let a = Rect { left: 0, top: 0, right: 10, bottom: 10 };
    let touching = Rect { left: 10, top: 10, right: 20, bottom: 20 };
    let apart = Rect { left: 11, top: 0, right: 20, bottom: 10 };
    let inside = Rect { left: 2, top: 2, right: 3, bottom: 3 };
    assert!(a.overlaps(&touching));
    assert!(touching.overlaps(&a));
    assert!(!a.overlaps(&apart));
    assert!(!apart.overlaps(&a));
    assert!(a.overlaps(&inside));
    assert!(a.overlaps(&a));
}

#[test]
fn rectangles_apart_on_one_axis_do_not_overlap() {
    let a = Rect { left: 0, top: 0, right: 10, bottom: 10 };
    let below = Rect { left: 0, top: 11, right: 10, bottom: 20 };
    let above = Rect { left: 0, top: -20, right: 10, bottom: -1 };
    assert!(!a.overlaps(&below));
    assert!(!a.overlaps(&above));
}

#[test]
fn directions_must_have_length_one() {
    assert_eq!(Direction::new(ONE, 0), Some(Direction { x: ONE, y: 0 }));
    assert_eq!(Direction::new(0, -ONE), Some(Direction { x: 0, y: -ONE }));
    assert_eq!(Direction::new(707_107, 707_107), Some(Direction { x: 707_107, y: 707_107 }));
    assert_eq!(Direction::new(600_000, -800_000), Some(Direction { x: 600_000, y: -800_000 }));
    assert_eq!(Direction::new(0, 0), None);
    assert_eq!(Direction::new(ONE, ONE), None);
    assert_eq!(Direction::new(ONE + 3, 0), None);
    assert_eq!(Direction::new(i64::MAX, i64::MIN), None);
    assert_eq!(Direction::new(700_000, 700_000), None);
}

#[test]
fn directions_at_the_edge_of_the_slack() {
    // 1_000_002^2 = 1_000_004_000_004 is four past the slack.
    assert_eq!(Direction::new(ONE + 2, 0), None);
    // 1_000_001^2 = 1_000_002_000_001 is inside it.
    assert_eq!(Direction::new(ONE + 1, 0), Some(Direction { x: ONE + 1, y: 0 }));
    // 999_998^2 = 999_996_000_004 is inside it, 999_997^2 + 0 too.
    assert_eq!(Direction::new(0, 999_998), Some(Direction { x: 0, y: 999_998 }));
    // 999_997^2 = 999_994_000_009 is below it.
    assert_eq!(Direction::new(0, 999_997), None);
}

#[test]
fn the_four_axis_directions() {
    assert_eq!(Direction::east(), Direction { x: ONE, y: 0 });
    assert_eq!(Direction::south(), Direction { x: 0, y: ONE });
    assert_eq!(Direction::west(), Direction { x: -ONE, y: 0 });
    assert_eq!(Direction::north(), Direction { x: 0, y: -ONE });
}

#[test]
fn scaling_rounds_towards_zero() {
    assert_eq!(scale(2_000, ONE), 2_000);
    assert_eq!(scale(2_000, -ONE), -2_000);
    assert_eq!(scale(2_000, 0), 0);
    assert_eq!(scale(15_000, 707_107), 10_606);
    assert_eq!(scale(15_000, -707_107), -10_606);
    assert_eq!(scale(1, 999_999), 0);
    assert_eq!(scale(1, -999_999), 0);
    assert_eq!(scale(0, ONE), 0);
    assert_eq!(scale(COORD_LIMIT, ONE + 2), COORD_LIMIT + 200_000);
}

#[test]
fn fields_must_hold_the_junction_box() {
    assert_eq!(Field::new(1_100_000, 800_000), Some(Field { width: 1_100_000, height: 800_000 }));
    assert_eq!(Field::new(180_000, 180_000), Some(Field { width: 180_000, height: 180_000 }));
    assert_eq!(Field::new(179_999, 800_000), None);
    assert_eq!(Field::new(800_000, 179_999), None);
    assert_eq!(Field::new(0, 0), None);
    assert_eq!(Field::new(-1, 800_000), None);
    assert_eq!(
        Field::new(1_000_000_000, 1_000_000_000),
        Some(Field { width: 1_000_000_000, height: 1_000_000_000 })
    );
    assert_eq!(Field::new(1_000_000_001, 800_000), None);
}

#[test]
fn the_junction_box_is_open() {
    let field = Field::new(1_100_000, 800_000).unwrap();
    assert_eq!(field.center(), Point { x: 550_000, y: 400_000 });
    assert!(field.inside_box(&Point { x: 550_000, y: 400_000 }));
    assert!(field.inside_box(&Point { x: 460_001, y: 310_001 }));
    assert!(field.inside_box(&Point { x: 639_999, y: 489_999 }));
    assert!(!field.inside_box(&Point { x: 460_000, y: 400_000 }));
    assert!(!field.inside_box(&Point { x: 640_000, y: 400_000 }));
    assert!(!field.inside_box(&Point { x: 550_000, y: 310_000 }));
    assert!(!field.inside_box(&Point { x: 550_000, y: 490_000 }));
}

#[test]
fn the_field_ends_at_its_margin() {
    let field = Field::new(1_100_000, 800_000).unwrap();
    assert!(field.contains(&Point { x: 0, y: 0 }));
    assert!(field.contains(&Point { x: -59_999, y: -59_999 }));
    assert!(field.contains(&Point { x: 1_159_999, y: 859_999 }));
    assert!(!field.contains(&Point { x: -60_000, y: 0 }));
    assert!(!field.contains(&Point { x: 0, y: -60_000 }));
    assert!(!field.contains(&Point { x: 1_160_000, y: 0 }));
    assert!(!field.contains(&Point { x: 0, y: 860_000 }));
}

#[test]
fn the_centre_of_an_odd_field_rounds_down() {
    let field = Field::new(1_100_001, 800_001).unwrap();
    assert_eq!(field.center(), Point { x: 550_000, y: 400_000 });
}
