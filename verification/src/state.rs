//! What the ruler knows between two events.

use vstd::prelude::*;
use crate::angle::Direction;
use crate::interval::Interval;
use crate::px::Px;
use crate::rotation::Rotation;

verus! {

/// The state of the measuring window.
///
/// Exactly one of the two instruments is shown: the protractor where
/// `protractor` is set, else the ruler.
#[derive(Clone, Copy, Debug, PartialEq, Eq)]
pub struct Rlr {
    /// The pointer, relative to the window's top-left corner.
    pub position: (Px, Px),
    /// The pointer as last polled, in whole pixels relative to the window.
    pub root_position: (i32, i32),
    pub width: i32,
    pub height: i32,
    /// The size that the other instrument had when it was last shown.
    pub p_dimens: Option<(i32, i32)>,
    /// While set, polling and pointer motion leave the measurement alone.
    pub freeze: bool,
    pub rotate: Rotation,
    pub protractor: bool,
    /// While unset, measurements are shown in coarse steps.
    pub precision: bool,
    /// While set, pointer motion turns the protractor's base line.
    pub edit_angle_offset: bool,
    /// The direction of the protractor's base line; the angle it makes with
    /// the positive x axis is taken off every measured angle.
    pub angle_base: Direction,
    pub interval: Interval,
    /// Device pixels per logical pixel.
    pub scale_factor: i32,
}

impl Rlr {
    /// The state that the window starts in: a 500 by 35 ruler pointing east,
    /// precise, nothing marked.
    pub open spec fn initial() -> Rlr {
        Rlr {
            position: (Px::at(0), Px::at(0)),
            root_position: (0, 0),
            width: 500,
            height: 35,
            p_dimens: None,
            freeze: false,
            rotate: Rotation::E,
            protractor: false,
            precision: true,
            edit_angle_offset: false,
            angle_base: Direction { dx: 0, dy: 0 },
            interval: Interval::Unmarked,
            scale_factor: 1,
        }
    }

    /// The extent of the window along the ruler's scale.
    pub open spec fn axis_length(self) -> int {
        if self.rotate.rotated() {
            self.height as int
        } else {
            self.width as int
        }
    }

    /// The extent of the window across the ruler's scale.
    pub open spec fn breadth(self) -> int {
        if self.rotate.rotated() {
            self.width as int
        } else {
            self.height as int
        }
    }

    /// The size the window is asked to take: the state's own for the ruler, a
    /// square over the longer side for the protractor.
    pub open spec fn target_size(self) -> (i32, i32) {
        if self.protractor {
            if self.width >= self.height {
                (self.width, self.width)
            } else {
                (self.height, self.height)
            }
        } else {
            (self.width, self.height)
        }
    }

    /// The size the window is asked to take, see [`Rlr::target_size`].
    pub fn window_size(&self) -> (size: (i32, i32))
        ensures
            size == self.target_size(),
    {
        if self.protractor {
            let side: i32 = if self.width >= self.height {
                self.width
            } else {
                self.height
            };
            (side, side)
        } else {
            (self.width, self.height)
        }
    }
}

impl Default for Rlr {
    fn default() -> (rlr: Rlr)
        ensures
            rlr == Rlr::initial(),
    {
        Rlr {
            position: (Px::from_pixels(0), Px::from_pixels(0)),
            root_position: (0, 0),
            width: 500,
            height: 35,
            p_dimens: None,
            freeze: false,
            rotate: Rotation::E,
            protractor: false,
            precision: true,
            edit_angle_offset: false,
            angle_base: Direction { dx: 0, dy: 0 },
            interval: Interval::Unmarked,
            scale_factor: 1,
        }
    }
}

} // verus!
