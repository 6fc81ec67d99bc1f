//! What each command of the user does to the state, and where it puts the
//! window.

use vstd::prelude::*;
use crate::state::Rlr;

verus! {

/// The step by which the window grows and shrinks, and the least length of
/// the side that shrinks.
pub const SIZE_STEP: i32 = 50;

/// The nearest that a window's anchor is brought to the screen's top-left
/// corner when a quarter turn moves it backward.
pub const ANCHOR_MARGIN: i32 = 10;

/// What the window has to do after a quarter turn.
#[derive(Clone, Copy, Debug, PartialEq, Eq)]
pub struct Turn {
    /// The size to take.
    pub size: (i32, i32),
    /// How the anchor has to move once the size is taken, as (horizontal,
    /// vertical) with `true` for forward, or `None` where it stays.
    pub shift: Option<(Option<bool>, Option<bool>)>,
}

/// One of the four ways the window is nudged by the arrow keys.
#[derive(Clone, Copy, Debug, PartialEq, Eq, Structural)]
pub enum Nudge {
    Right,
    Left,
    Up,
    Down,
}

/// The larger of `floor` and `value`.
pub open spec fn at_least(floor: int, value: int) -> int {
    if value < floor {
        floor
    } else {
        value
    }
}

/// A coordinate of the anchor after it moved along one axis: forward by
/// `forward`, or backward by `backward` but no nearer to the origin than
/// [`ANCHOR_MARGIN`] and no further than an `i32` reaches.
pub open spec fn shifted_coordinate(shift: Option<bool>, at: int, forward: int, backward: int) -> int {
    match shift {
        Some(true) => at + forward,
        Some(false) => if at - backward > i32::MAX {
            i32::MAX as int
        } else {
            at_least(ANCHOR_MARGIN as int, at - backward)
        },
        None => at,
    }
}

/// The anchor after a nudge by `step` pixels.
pub open spec fn nudged_anchor(nudge: Nudge, origin: (i32, i32), step: int) -> (int, int) {
    match nudge {
        Nudge::Right => (origin.0 + step, origin.1 as int),
        Nudge::Left => (origin.0 - step, origin.1 as int),
        Nudge::Up => (origin.0 as int, origin.1 - step),
        Nudge::Down => (origin.0 as int, origin.1 + step),
    }
}

impl Rlr {
    /// The state with freezing switched over.
    pub open spec fn freeze_toggled(self) -> Rlr {
        Rlr { freeze: !self.freeze, ..self }
    }

    /// Freezes the measurement, or lets it follow the pointer again.
    pub fn toggle_freeze(&mut self)
        ensures
            *final(self) == old(self).freeze_toggled(),
    {
        self.freeze = !self.freeze;
    }

    /// The state after the ruler's scale was mirrored. The protractor has no
    /// scale to mirror.
    pub open spec fn flipped(self) -> Rlr {
        if self.protractor {
            self
        } else {
            Rlr { rotate: self.rotate.mirrored(), ..self }
        }
    }

    /// Mirrors the ruler's scale without turning it.
    pub fn flip(&mut self)
        ensures
            *final(self) == old(self).flipped(),
    {
        if !self.protractor {
            self.rotate.flip();
        }
    }

    /// The state after the ruler was turned a quarter clockwise: the sides
    /// change places. The protractor does not turn.
    pub open spec fn turned(self) -> Rlr {
        if self.protractor {
            self
        } else {
            Rlr {
                width: self.height,
                height: self.width,
                rotate: self.rotate.successor(),
                ..self
            }
        }
    }

    /// What a quarter turn asks of the window: the turned size, and the shift
    /// that belongs to the orientation left behind.
    pub open spec fn turn_request(self) -> Option<Turn> {
        if self.protractor {
            None
        } else {
            Some((Turn { size: (self.height, self.width), shift: self.rotate.anchor_shift() }))
        }
    }

    /// Turns the ruler a quarter clockwise, see [`Rlr::turned`] and
    /// [`Rlr::turn_request`].
    pub fn rotate(&mut self) -> (turn: Option<Turn>)
        ensures
            *final(self) == old(self).turned(),
            turn == old(self).turn_request(),
    {
        if self.protractor {
            return None;
        }
        let width = self.width;
        self.width = self.height;
        self.height = width;
        let size = self.window_size();
        let shift = self.rotate.next();
        Some(Turn { size, shift })
    }

    /// Where the anchor goes after a quarter turn that asked for `shift`,
    /// given where it is. Moving forward takes the other side's length, moving
    /// backward this side's.
    pub open spec fn anchor_after_turn(self, shift: (Option<bool>, Option<bool>), origin: (i32, i32)) -> (int, int) {
        (
            shifted_coordinate(shift.0, origin.0 as int, self.height as int, self.width as int),
            shifted_coordinate(shift.1, origin.1 as int, self.width as int, self.height as int),
        )
    }

    /// Whether the anchor that `shift` asks for can be written in `i32`
    /// coordinates: moving backward always can, moving forward may pass the
    /// end.
    pub open spec fn shift_fits(self, shift: (Option<bool>, Option<bool>), origin: (i32, i32)) -> bool {
        &&& shift.0 == Some(true) ==> i32::MIN <= origin.0 + self.height <= i32::MAX
        &&& shift.1 == Some(true) ==> i32::MIN <= origin.1 + self.width <= i32::MAX
    }

    /// Whether [`Rlr::shifted_anchor`] can be asked, see [`Rlr::shift_fits`].
    pub fn can_shift(&self, shift: (Option<bool>, Option<bool>), origin: (i32, i32)) -> (r: bool)
        ensures
            r == self.shift_fits(shift, origin),
    {
        let x_fits = match shift.0 {
            Some(true) => fits_i32(origin.0 as i64 + self.height as i64),
            _ => true,
        };
        let y_fits = match shift.1 {
            Some(true) => fits_i32(origin.1 as i64 + self.width as i64),
            _ => true,
        };
        x_fits && y_fits
    }

    /// Where to move the window's anchor from `origin` after a quarter turn
    /// that asked for `shift`. The state is the one after the turn.
    pub fn shifted_anchor(&self, shift: (Option<bool>, Option<bool>), origin: (i32, i32)) -> (anchor: (i32, i32))
        requires
            self.shift_fits(shift, origin),
        ensures
            (anchor.0 as int, anchor.1 as int) == self.anchor_after_turn(shift, origin),
    {
        let x: i32 = match shift.0 {
            Some(true) => origin.0 + self.height,
            Some(false) => backward(origin.0, self.width),
            None => origin.0,
        };
        let y: i32 = match shift.1 {
            Some(true) => origin.1 + self.width,
            Some(false) => backward(origin.1, self.height),
            None => origin.1,
        };
        (x, y)
    }

    /// The state after the instrument was changed. The size that the other
    /// instrument was last shown in comes back, and the present size is kept
    /// for the next change.
    pub open spec fn protractor_toggled(self) -> Rlr {
        match self.p_dimens {
            Some((w, h)) => Rlr {
                protractor: !self.protractor,
                p_dimens: Some((self.width, self.height)),
                width: w,
                height: h,
                ..self
            },
            None => Rlr {
                protractor: !self.protractor,
                p_dimens: Some((self.width, self.height)),
                ..self
            },
        }
    }

    /// The size the window is asked to take after the instrument was changed:
    /// the size that came back, or, the first time, what the instrument now
    /// shown asks for.
    pub open spec fn protractor_toggled_size(self) -> (i32, i32) {
        match self.p_dimens {
            Some(kept) => kept,
            None => self.protractor_toggled().target_size(),
        }
    }

    /// Changes between ruler and protractor; the result is the size to give
    /// the window.
    pub fn toggle_protractor(&mut self) -> (size: (i32, i32))
        ensures
            *final(self) == old(self).protractor_toggled(),
            size == old(self).protractor_toggled_size(),
    {
        self.protractor = !self.protractor;
        let present = (self.width, self.height);
        match self.p_dimens {
            Some((w, h)) => {
                self.p_dimens = Some(present);
                self.width = w;
                self.height = h;
                (w, h)
            },
            None => {
                self.p_dimens = Some(present);
                self.window_size()
            },
        }
    }

    /// The state after the window grew by one step: the ruler along its
    /// scale, the protractor to a square over its grown width.
    pub open spec fn increased(self) -> Rlr {
        if self.protractor {
            Rlr {
                width: (self.width + SIZE_STEP) as i32,
                height: (self.width + SIZE_STEP) as i32,
                ..self
            }
        } else if self.rotate.rotated() {
            Rlr { height: (self.height + SIZE_STEP) as i32, ..self }
        } else {
            Rlr { width: (self.width + SIZE_STEP) as i32, ..self }
        }
    }

    /// The side that grows and shrinks: the ruler's side along its scale, the
    /// protractor's width.
    pub open spec fn sized_side(self) -> i32 {
        if !self.protractor && self.rotate.rotated() {
            self.height
        } else {
            self.width
        }
    }

    /// Whether the side that grows can grow by one step within an `i32`.
    pub open spec fn increase_fits(self) -> bool {
        self.sized_side() + SIZE_STEP <= i32::MAX
    }

    /// Whether [`Rlr::increase`] can be asked, see [`Rlr::increase_fits`].
    pub fn can_increase(&self) -> (r: bool)
        ensures
            r == self.increase_fits(),
    {
        let side: i32 = if !self.protractor && self.rotate.is_rotated() {
            self.height
        } else {
            self.width
        };
        side <= i32::MAX - SIZE_STEP
    }

    /// Grows the window by one step; the result is the size to give it.
    pub fn increase(&mut self) -> (size: (i32, i32))
        requires
            old(self).increase_fits(),
        ensures
            *final(self) == old(self).increased(),
            size == final(self).target_size(),
    {
        if !self.protractor {
            if self.rotate.is_rotated() {
                self.height = self.height + SIZE_STEP;
            } else {
                self.width = self.width + SIZE_STEP;
            }
        } else {
            self.width = self.width + SIZE_STEP;
            self.height = self.width;
        }
        self.window_size()
    }

    /// The state after the window shrank by one step, the shrinking side
    /// never falling under one step.
    pub open spec fn decreased(self) -> Rlr {
        if self.protractor {
            Rlr {
                width: at_least(SIZE_STEP as int, self.width - SIZE_STEP) as i32,
                height: at_least(SIZE_STEP as int, self.width - SIZE_STEP) as i32,
                ..self
            }
        } else if self.rotate.rotated() {
            Rlr { height: at_least(SIZE_STEP as int, self.height - SIZE_STEP) as i32, ..self }
        } else {
            Rlr { width: at_least(SIZE_STEP as int, self.width - SIZE_STEP) as i32, ..self }
        }
    }

    /// Shrinks the window by one step; the result is the size to give it.
    pub fn decrease(&mut self) -> (size: (i32, i32))
        ensures
            *final(self) == old(self).decreased(),
            size == final(self).target_size(),
    {
        if !self.protractor {
            if self.rotate.is_rotated() {
                self.height = shrunk(self.height);
            } else {
                self.width = shrunk(self.width);
            }
        } else {
            self.width = shrunk(self.width);
            self.height = self.width;
        }
        self.window_size()
    }

    /// The number of pixels that one nudge moves the window: ten, or one
    /// while measurements are coarse.
    pub open spec fn nudge_step(self) -> int {
        if self.precision {
            10
        } else {
            1
        }
    }

    /// Whether the anchor after one nudge can be written in `i32`
    /// coordinates.
    pub open spec fn nudge_fits(self, nudge: Nudge, origin: (i32, i32)) -> bool {
        &&& i32::MIN <= nudged_anchor(nudge, origin, self.nudge_step()).0 <= i32::MAX
        &&& i32::MIN <= nudged_anchor(nudge, origin, self.nudge_step()).1 <= i32::MAX
    }

    /// Whether [`Rlr::nudged`] can be asked, see [`Rlr::nudge_fits`].
    pub fn can_nudge(&self, nudge: Nudge, origin: (i32, i32)) -> (r: bool)
        ensures
            r == self.nudge_fits(nudge, origin),
    {
        let step: i64 = if self.precision {
            10
        } else {
            1
        };
        match nudge {
            Nudge::Right => fits_i32(origin.0 as i64 + step),
            Nudge::Left => fits_i32(origin.0 as i64 - step),
            Nudge::Up => fits_i32(origin.1 as i64 - step),
            Nudge::Down => fits_i32(origin.1 as i64 + step),
        }
    }

    /// Where to move the window's anchor from `origin` for one nudge.
    pub fn nudged(&self, nudge: Nudge, origin: (i32, i32)) -> (anchor: (i32, i32))
        requires
            self.nudge_fits(nudge, origin),
        ensures
            (anchor.0 as int, anchor.1 as int) == nudged_anchor(nudge, origin, self.nudge_step()),
    {
        let step: i32 = if self.precision {
            10
        } else {
            1
        };
        match nudge {
            Nudge::Right => (origin.0 + step, origin.1),
            Nudge::Left => (origin.0 - step, origin.1),
            Nudge::Up => (origin.0, origin.1 - step),
            Nudge::Down => (origin.0, origin.1 + step),
        }
    }
}

/// Whether `value` can be written as an `i32`.
fn fits_i32(value: i64) -> (r: bool)
    ensures
        r == (i32::MIN <= value <= i32::MAX),
{
    i32::MIN as i64 <= value && value <= i32::MAX as i64
}

/// A coordinate moved backward by `by`, see [`shifted_coordinate`].
fn backward(at: i32, by: i32) -> (moved: i32)
    ensures
        moved == shifted_coordinate(Some(false), at as int, 0, by as int),
{
    let wide: i64 = at as i64 - by as i64;
    if wide > i32::MAX as i64 {
        i32::MAX
    } else if wide < ANCHOR_MARGIN as i64 {
        ANCHOR_MARGIN
    } else {
        wide as i32
    }
}

/// A side shrunk by one step, but not under one step.
fn shrunk(side: i32) -> (less: i32)
    ensures
        less == at_least(SIZE_STEP as int, side - SIZE_STEP),
{
    if side >= 2 * SIZE_STEP {
        side - SIZE_STEP
    } else {
        SIZE_STEP
    }
}

/// Four quarter turns bring the ruler back to the state it started in.
pub proof fn lemma_four_turns_restore(state: Rlr)
    ensures
        state.turned().turned().turned().turned() == state,
{
}

/// Flipping keeps the window's sides and the ruler's long axis, and flipping
/// twice changes nothing.
pub proof fn lemma_flip_twice(state: Rlr)
    ensures
        state.flipped().width == state.width,
        state.flipped().height == state.height,
        state.flipped().rotate.rotated() == state.rotate.rotated(),
        !state.protractor ==> state.flipped().rotate.reversed() == !state.rotate.reversed(),
        state.flipped().flipped() == state,
{
}

/// A quarter turn changes the ruler's long axis and, with it, which side of
/// the window the scale runs along: the scale keeps its length.
pub proof fn lemma_turn_keeps_the_scale(state: Rlr)
    requires
        !state.protractor,
    ensures
        state.turned().rotate.rotated() == !state.rotate.rotated(),
        state.turned().axis_length() == state.axis_length(),
        state.turned().breadth() == state.breadth(),
{
}

} // verus!
