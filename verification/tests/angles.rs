use physics::angle::{normalize_milli, FULL_TURN_MILLI, QUARTER_TURN_MILLI};
use physics::point::Point;

#[test]
fn user_angle0() {
    let x = Point { x: 0, y: 0 };
    assert_eq!(x.user_angle(0), 0);
}

#[test]
fn user_angle1() {
    // The zero vector is north whatever game angle the caller hands in.
    let x = Point { x: 0, y: 0 };
    assert_eq!(x.user_angle(45_000), 0);
}

#[test]
fn user_angle2() {
    // (1, 0) points east: game angle 0, user angle 90°.
    let x = Point { x: 1, y: 0 };
    assert_eq!(x.user_angle(0), 90_000);
}

#[test]
fn user_angle3() {
    // (-1, 0) points west: game angle 180°, user angle 270°.
    let x = Point { x: -1, y: 0 };
    assert_eq!(x.user_angle(180_000), 270_000);
}

#[test]
fn user_angle4() {
    // (0, 1) points north: game angle 90°, user angle 0°.
    let x = Point { x: 0, y: 1 };
    assert_eq!(x.user_angle(90_000), 0);
}

#[test]
fn user_angle5() {
    // (0, -1) points south: game angle -90°, user angle 180°.
    let x = Point { x: 0, y: -1 };
    assert_eq!(x.user_angle(-90_000), 180_000);
}

#[test]
fn angle_to0() {
    let x = Point { x: 0, y: 0 };
    let y = Point { x: 0, y: 0 };
    assert_eq!(x.angle_to(&y), Some(0));
}

#[test]
fn angle_to1() {
    let x = Point { x: 0, y: 0 };
    let y = Point { x: 1, y: 0 };
    assert_eq!(x.angle_to(&y), Some(0));
}

#[test]
fn angle_to2() {
    let x = Point { x: 0, y: 1 };
    let y = Point { x: 1, y: 1 };
    assert_eq!(x.angle_to(&y), Some(0));
}

#[test]
fn angle_to3() {
    // Straight down: a quarter turn below the x-axis.
    let x = Point { x: -1, y: 1 };
    let y = Point { x: -1, y: -1 };
    assert_eq!(x.angle_to(&y), Some(-90_000));
}

#[test]
fn angle_to4() {
    // North-east diagonal: half a quarter turn.
    let x = Point { x: -1, y: -1 };
    let y = Point { x: 1, y: 1 };
    assert_eq!(x.angle_to(&y), Some(45_000));
}

#[test]
fn angle_to_off_axis() {
    // A knight's-move displacement is on no axis or diagonal: its angle is
    // irrational in degrees.
    let x = Point { x: 0, y: 0 };
    let y = Point { x: 2, y: 1 };
    assert_eq!(x.angle_to(&y), None);
}

#[test]
fn angle_principal_directions() {
    assert_eq!(Point { x: 5, y: 0 }.angle(), Some(0));
    assert_eq!(Point { x: 0, y: 5 }.angle(), Some(90_000));
    assert_eq!(Point { x: -5, y: 0 }.angle(), Some(180_000));
    assert_eq!(Point { x: 0, y: -5 }.angle(), Some(-90_000));
    assert_eq!(Point { x: 5, y: 5 }.angle(), Some(45_000));
    assert_eq!(Point { x: -5, y: 5 }.angle(), Some(135_000));
    assert_eq!(Point { x: -5, y: -5 }.angle(), Some(-135_000));
    assert_eq!(Point { x: 5, y: -5 }.angle(), Some(-45_000));
    assert_eq!(Point { x: 0, y: 0 }.angle(), Some(0));
    assert_eq!(Point { x: 3, y: 4 }.angle(), None);
}

#[test]
fn compass_from_own_angle() {
    // Chaining the vector's own game angle into the compass conversion
    // walks the compass: east 90°, north 0°, west 270°, south 180°.
    let east = Point { x: 7, y: 0 };
    assert_eq!(east.user_angle(east.angle().unwrap()), 90_000);
    let north = Point { x: 0, y: 7 };
    assert_eq!(north.user_angle(north.angle().unwrap()), 0);
    let west = Point { x: -7, y: 0 };
    assert_eq!(west.user_angle(west.angle().unwrap()), 270_000);
    let south = Point { x: 0, y: -7 };
    assert_eq!(south.user_angle(south.angle().unwrap()), 180_000);
    let north_east = Point { x: 7, y: 7 };
    assert_eq!(north_east.user_angle(north_east.angle().unwrap()), 45_000);
}

#[test]
fn user_angle_diagonal() {
    // (1, 1) points north-east: game angle 45°, user angle 45°.
    let x = Point { x: 1, y: 1 };
    assert_eq!(x.user_angle(45_000), 45_000);
}

#[test]
fn turn_constants() {
    assert_eq!(FULL_TURN_MILLI, 360_000);
    assert_eq!(QUARTER_TURN_MILLI, 90_000);
}

#[test]
fn normalize_in_range_unchanged() {
    assert_eq!(normalize_milli(0), 0);
    assert_eq!(normalize_milli(5_000), 5_000);
    assert_eq!(normalize_milli(359_999), 359_999);
}

#[test]
fn normalize_full_turns_vanish() {
    assert_eq!(normalize_milli(360_000), 0);
    assert_eq!(normalize_milli(720_000), 0);
    assert_eq!(normalize_milli(-360_000), 0);
}

#[test]
fn normalize_wraps_above() {
    assert_eq!(normalize_milli(450_000), 90_000);
    assert_eq!(normalize_milli(725_000), 5_000);
}

#[test]
fn normalize_wraps_below() {
    assert_eq!(normalize_milli(-90_000), 270_000);
    assert_eq!(normalize_milli(-725_000), 355_000);
}
