use rlr::angle::{Angle, Direction};
use std::f64::consts::{FRAC_PI_2, PI};

/// The angle of a direction, with the trigonometry that the library leaves to
/// its caller.
fn angle_of(direction: Direction) -> f64 {
    match direction.on_axis() {
        Some(on_axis) => f64::from(on_axis.quarter_turns) * FRAC_PI_2,
        None => {
            let (x, y) = (direction.dx as f64, direction.dy as f64);
            2. * f64::atan(y / (x + (x * x + y * y).sqrt()))
        }
    }
}

#[test]
fn angle_along_the_axis() {
    for dx in [0_i64, 1, 7, 1_000_000, i64::MAX] {
        assert_eq!(Direction { dx, dy: 0 }.on_axis(), Some(Angle::of_quarters(0)));
        assert_eq!(angle_of(Direction { dx, dy: 0 }), 0.0);
    }
    for dx in [-1_i64, -7, -1_000_000, i64::MIN] {
        assert_eq!(Direction { dx, dy: 0 }.on_axis(), Some(Angle::of_quarters(2)));
        assert_eq!(angle_of(Direction { dx, dy: 0 }), PI);
    }
}

#[test]
fn angle_off_the_axis_is_left_to_the_caller() {
    assert_eq!(Direction { dx: 5, dy: 1 }.on_axis(), None);
    assert_eq!(Direction { dx: 0, dy: -1 }.on_axis(), None);
    assert_eq!(Direction { dx: -5, dy: i64::MIN }.on_axis(), None);
}

#[test]
fn angle_agrees_with_atan2() {
    for dx in -6_i64..=6 {
        for dy in -6_i64..=6 {
            let expected = (dy as f64).atan2(dx as f64);
            let got = angle_of(Direction { dx: dx * 500, dy: dy * 500 });
            assert!((got - expected).abs() < 1e-12, "({}, {}): {} vs {}", dx, dy, got, expected);
        }
    }
}

#[test]
fn quarters_hold_nothing_else() {
    assert_eq!(
        Angle::of_quarters(3),
        Angle { quarter_turns: 3, hundredths: 0, pointer: 0, snapped: false, base: 0 }
    );
}
