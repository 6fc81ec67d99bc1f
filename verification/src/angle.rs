//! Directions from the centre of the protractor, and angles written as sums
//! of the few terms that the protractor draws with.

use vstd::prelude::*;

verus! {

/// A direction from the centre of the protractor, as the offset of a point on
/// it: `dx` to the right and `dy` upward. Only the direction counts, so any
/// unit will do; an offset of nothing at all points along the positive x axis.
#[derive(Clone, Copy, Debug, PartialEq, Eq, Structural)]
pub struct Direction {
    pub dx: i64,
    pub dy: i64,
}

/// An angle in radians, written as a sum:
///
/// `quarter_turns` times a quarter turn, plus `hundredths` hundredths of a
/// radian, plus `pointer` times the angle of the pointer's direction, plus
/// `base` times the angle of the base line's direction.
///
/// The angle of a direction is counted counterclockwise from the positive x
/// axis and lies above minus a half turn, up to and including a half turn.
/// Where `snapped` is set, the pointer's angle is rounded to whole radians
/// before it is used.
#[derive(Clone, Copy, Debug, PartialEq, Eq, Structural)]
pub struct Angle {
    pub quarter_turns: i32,
    pub hundredths: i32,
    pub pointer: i32,
    pub snapped: bool,
    pub base: i32,
}

impl Angle {
    /// The angle with the given terms and the pointer's angle taken as it is.
    pub open spec fn sum(quarter_turns: int, hundredths: int, pointer: int, base: int) -> Angle {
        Angle {
            quarter_turns: quarter_turns as i32,
            hundredths: hundredths as i32,
            pointer: pointer as i32,
            snapped: false,
            base: base as i32,
        }
    }

    /// This angle with the pointer's angle rounded to whole radians where
    /// `snapped` is set.
    pub open spec fn snapped_if(self, snapped: bool) -> Angle {
        Angle { snapped, ..self }
    }

    /// `quarter_turns` quarter turns and nothing else.
    pub open spec fn quarters(quarter_turns: int) -> Angle {
        Angle::sum(quarter_turns, 0, 0, 0)
    }

    /// No angle at all.
    pub open spec fn zero() -> Angle {
        Angle::quarters(0)
    }

    /// A half turn.
    pub open spec fn half_turn() -> Angle {
        Angle::quarters(2)
    }

    /// A full turn.
    pub open spec fn full_turn() -> Angle {
        Angle::quarters(4)
    }

    /// `quarter_turns` quarter turns and nothing else.
    pub fn of_quarters(quarter_turns: i32) -> (angle: Angle)
        ensures
            angle == Angle::quarters(quarter_turns as int),
    {
        Angle { quarter_turns, hundredths: 0, pointer: 0, snapped: false, base: 0 }
    }
}

impl Direction {
    /// The angle of a direction along the x axis: nothing where it points
    /// forward or nowhere, a half turn where it points backward. Off the axis
    /// the angle is no whole number of quarter turns and is left to the
    /// caller's trigonometry.
    pub open spec fn axis_angle(self) -> Option<Angle> {
        if self.dy != 0 {
            None
        } else if self.dx >= 0 {
            Some(Angle::zero())
        } else {
            Some(Angle::half_turn())
        }
    }

    /// Whether the direction points below the x axis, where its angle is
    /// negative.
    pub open spec fn below_axis(self) -> bool {
        self.dy < 0
    }

    /// The angle of this direction where it lies along the x axis, see
    /// [`Direction::axis_angle`].
    pub fn on_axis(&self) -> (angle: Option<Angle>)
        ensures
            angle == self.axis_angle(),
    {
        if self.dy != 0 {
            None
        } else if self.dx >= 0 {
            Some(Angle::of_quarters(0))
        } else {
            Some(Angle::of_quarters(2))
        }
    }
}

} // verus!
