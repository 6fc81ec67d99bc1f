//! What each input event does to the state, and what it asks of the window.

use vstd::prelude::*;
use vstd::string::*;
use crate::angle::Direction;
use crate::interval::Interval;
use crate::px::{Px, HALF_PIXEL, PER_PIXEL};
use crate::state::Rlr;

verus! {

/// How a button press was counted by the windowing system.
#[derive(Clone, Copy, Debug, PartialEq, Eq, Structural)]
pub enum Click {
    /// An ordinary press.
    Single,
    /// The second press of a double click.
    Double,
    /// Any further press of a fast series.
    Other,
}

/// A button press inside the window.
#[derive(Clone, Copy, Debug, PartialEq, Eq)]
pub struct ButtonEvent {
    pub click: Click,
    /// The button's number: 1 is the primary button, 3 the secondary.
    pub button: u32,
    /// Where the pointer was, relative to the window's top-left corner.
    pub at: (Px, Px),
}

/// What the window has to do after a button press.
#[derive(Clone, Copy, Debug, PartialEq, Eq, Structural)]
pub enum PressAction {
    Nothing,
    /// Start dragging the window with the pointer.
    BeginMoveDrag,
    /// Open the context menu at the pointer.
    PopupMenu,
}

/// The name of a key that, while held, makes measurements coarse.
pub open spec fn precision_key(name: Seq<char>) -> bool {
    name == "Control_L"@ || name == "Meta_L"@
}

/// Whether `name` is the name of a key that, while held, makes measurements
/// coarse.
pub fn is_precision_key(name: &str) -> (r: bool)
    ensures
        r == precision_key(name@),
{
    let given: String = name.to_owned();
    let control: String = "Control_L".to_owned();
    let meta: String = "Meta_L".to_owned();
    given == control || given == meta
}

/// A dimension as reported by the windowing system, held to what an `i32`
/// can take.
pub open spec fn held_dimension(reported: u32) -> i32 {
    if reported > i32::MAX {
        i32::MAX
    } else {
        reported as i32
    }
}

/// Half of `n`, rounded toward zero.
pub open spec fn half_toward_zero(n: int) -> int {
    if n >= 0 {
        n / 2
    } else {
        -((-n) / 2)
    }
}

impl Rlr {
    /// The coordinate of `at` along the ruler's scale.
    pub open spec fn along(self, at: (Px, Px)) -> Px {
        if self.rotate.rotated() {
            at.1
        } else {
            at.0
        }
    }

    /// The state after a button press.
    ///
    /// A single press while the second end of a span is awaited marks that
    /// end. Otherwise a double click marks a first end, dropping what was
    /// marked before. Otherwise the primary button, while measurements are
    /// coarse, starts turning the protractor's base line. Every other press
    /// leaves the state alone.
    pub open spec fn pressed(self, ev: ButtonEvent) -> Rlr {
        if ev.click == Click::Single && self.interval is Start {
            Rlr { interval: self.interval.completed(self.along(ev.at)), ..self }
        } else if ev.click == Click::Double {
            Rlr { interval: self.interval.restarted(self.along(ev.at)), ..self }
        } else if ev.button == 1 && !self.precision {
            Rlr { edit_angle_offset: true, ..self }
        } else {
            self
        }
    }

    /// What a button press asks of the window: a press that changes the state
    /// asks nothing; of the others the primary button drags the window and a
    /// single press of the secondary button opens the menu.
    pub open spec fn press_action(self, ev: ButtonEvent) -> PressAction {
        if (ev.click == Click::Single && self.interval is Start) || ev.click == Click::Double
            || (ev.button == 1 && !self.precision) {
            PressAction::Nothing
        } else if ev.button == 1 {
            PressAction::BeginMoveDrag
        } else if ev.button == 3 && ev.click == Click::Single {
            PressAction::PopupMenu
        } else {
            PressAction::Nothing
        }
    }

    /// Takes a button press, see [`Rlr::pressed`] and [`Rlr::press_action`].
    pub fn button_press(&mut self, ev: ButtonEvent) -> (action: PressAction)
        ensures
            *final(self) == old(self).pressed(ev),
            action == old(self).press_action(ev),
    {
        let rotated = self.rotate.is_rotated();
        let single = match ev.click {
            Click::Single => true,
            _ => false,
        };
        let double = match ev.click {
            Click::Double => true,
            _ => false,
        };
        let along = if rotated {
            ev.at.1
        } else {
            ev.at.0
        };
        if single && self.interval.is_start() {
            if let Interval::Start(start) = self.interval {
                self.interval = Interval::Full(start, along);
            }
            PressAction::Nothing
        } else if double {
            self.interval = Interval::Start(along);
            PressAction::Nothing
        } else if ev.button == 1 && !self.precision {
            self.edit_angle_offset = true;
            PressAction::Nothing
        } else if ev.button == 1 {
            PressAction::BeginMoveDrag
        } else if ev.button == 3 && single {
            PressAction::PopupMenu
        } else {
            PressAction::Nothing
        }
    }

    /// The state after a button was let go: the primary button ends the
    /// turning of the base line.
    pub open spec fn released(self, button: u32) -> Rlr {
        if button == 1 {
            Rlr { edit_angle_offset: false, ..self }
        } else {
            self
        }
    }

    /// Takes the release of a button, see [`Rlr::released`].
    pub fn button_release(&mut self, button: u32)
        ensures
            *final(self) == old(self).released(button),
    {
        if button == 1 {
            self.edit_angle_offset = false;
        }
    }

    /// The state after the key called `name` went down or, with `down` unset,
    /// came up: a precision key makes measurements coarse for as long as it is
    /// held.
    pub open spec fn keyed(self, name: Seq<char>, down: bool) -> Rlr {
        if precision_key(name) {
            Rlr { precision: !down, ..self }
        } else {
            self
        }
    }

    /// Takes a key press; the result says whether to draw again.
    pub fn key_press(&mut self, name: &str) -> (redraw: bool)
        ensures
            *final(self) == old(self).keyed(name@, true),
            redraw == precision_key(name@),
    {
        if is_precision_key(name) {
            self.precision = false;
            true
        } else {
            false
        }
    }

    /// Takes a key release; the result says whether to draw again.
    pub fn key_release(&mut self, name: &str) -> (redraw: bool)
        ensures
            *final(self) == old(self).keyed(name@, false),
            redraw == precision_key(name@),
    {
        if is_precision_key(name) {
            self.precision = true;
            true
        } else {
            false
        }
    }

    /// The direction from the middle of the window's first `width` by `width`
    /// pixels to `at`.
    pub open spec fn direction_to(self, at: (Px, Px)) -> Direction {
        Direction {
            dx: (at.0@ - self.width * HALF_PIXEL) as i64,
            dy: (self.width * HALF_PIXEL - at.1@) as i64,
        }
    }

    /// The state after the pointer moved to `at` inside the window. A frozen
    /// state stays as it is. Otherwise the pointer is taken over, and while the
    /// base line is being turned it is made to point at the pointer.
    pub open spec fn moved(self, at: (Px, Px)) -> Rlr {
        if self.freeze {
            self
        } else if self.edit_angle_offset {
            Rlr { position: at, angle_base: self.direction_to(at), ..self }
        } else {
            Rlr { position: at, ..self }
        }
    }

    /// Takes a pointer motion; the result says whether to draw again.
    pub fn pointer_moved(&mut self, at: (Px, Px)) -> (redraw: bool)
        ensures
            *final(self) == old(self).moved(at),
            redraw == !old(self).freeze,
    {
        if self.freeze {
            return false;
        }
        self.position = at;
        if self.edit_angle_offset {
            let centre: i64 = (self.width as i64) * HALF_PIXEL;
            self.angle_base = Direction { dx: at.0.milli() - centre, dy: centre - at.1.milli() };
        }
        true
    }

    /// The state after the pointer was polled at `at`, in whole pixels
    /// relative to the window's top-left corner.
    ///
    /// Nothing changes while the state is frozen or the base line is being
    /// turned, nor where the pointer has not moved since the last poll. The
    /// protractor follows the pointer anywhere. The ruler follows it along its
    /// scale only, and only strictly inside the window's extent that way.
    pub open spec fn polled(self, at: (i32, i32)) -> Rlr {
        if self.edit_angle_offset || self.freeze || at == self.root_position {
            self
        } else if self.protractor {
            Rlr {
                root_position: at,
                position: (Px::at(at.0 * PER_PIXEL), Px::at(at.1 * PER_PIXEL)),
                ..self
            }
        } else if self.rotate.rotated() {
            if 0 < at.1 < self.height {
                Rlr {
                    root_position: at,
                    position: (self.position.0, Px::at(at.1 * PER_PIXEL)),
                    ..self
                }
            } else {
                self
            }
        } else {
            if 0 < at.0 < self.width {
                Rlr {
                    root_position: at,
                    position: (Px::at(at.0 * PER_PIXEL), self.position.1),
                    ..self
                }
            } else {
                self
            }
        }
    }

    /// Takes a poll of the pointer; the result says whether to draw again,
    /// which is whenever the poll changed the state.
    pub fn pointer_polled(&mut self, at: (i32, i32)) -> (redraw: bool)
        ensures
            *final(self) == old(self).polled(at),
            redraw == (old(self).polled(at) != *old(self)),
    {
        if self.edit_angle_offset || self.freeze {
            return false;
        }
        if at.0 == self.root_position.0 && at.1 == self.root_position.1 {
            return false;
        }
        if self.protractor {
            self.root_position = at;
            self.position = (Px::from_pixels(at.0), Px::from_pixels(at.1));
            true
        } else if self.rotate.is_rotated() {
            if at.1 < self.height && at.1 > 0 {
                self.root_position = at;
                self.position = (self.position.0, Px::from_pixels(at.1));
                true
            } else {
                false
            }
        } else {
            if at.0 < self.width && at.0 > 0 {
                self.root_position = at;
                self.position = (Px::from_pixels(at.0), self.position.1);
                true
            } else {
                false
            }
        }
    }

    /// The state after the window took a new size.
    pub open spec fn resized(self, width: u32, height: u32) -> Rlr {
        Rlr { width: held_dimension(width), height: held_dimension(height), ..self }
    }

    /// Takes the size that the windowing system reports for the window.
    pub fn configure(&mut self, width: u32, height: u32)
        ensures
            *final(self) == old(self).resized(width, height),
    {
        self.width = if width > i32::MAX as u32 {
            i32::MAX
        } else {
            width as i32
        };
        self.height = if height > i32::MAX as u32 {
            i32::MAX
        } else {
            height as i32
        };
    }

    /// The state once the display is known. On a dense display each side
    /// grows by half of itself for each device pixel per logical pixel.
    pub open spec fn displayed(self, dense: bool, scale_factor: i32) -> Rlr {
        if dense {
            Rlr {
                scale_factor,
                width: (self.width + half_toward_zero(scale_factor * self.width)) as i32,
                height: (self.height + half_toward_zero(scale_factor * self.height)) as i32,
                ..self
            }
        } else {
            Rlr { scale_factor, ..self }
        }
    }

    /// Whether the sides that a dense display gives fit an `i32`.
    pub open spec fn display_fits(self, scale_factor: i32) -> bool {
        &&& i32::MIN <= scale_factor * self.width <= i32::MAX
        &&& i32::MIN <= scale_factor * self.height <= i32::MAX
        &&& i32::MIN <= self.width + half_toward_zero(scale_factor * self.width) <= i32::MAX
        &&& i32::MIN <= self.height + half_toward_zero(scale_factor * self.height) <= i32::MAX
    }

    /// Whether [`Rlr::display_found`] can be asked on a dense display, see
    /// [`Rlr::display_fits`].
    pub fn can_display(&self, scale_factor: i32) -> (r: bool)
        ensures
            r == self.display_fits(scale_factor),
    {
        grown_fits(self.width, scale_factor) && grown_fits(self.height, scale_factor)
    }

    /// Takes the display's scale factor and whether the display is dense (more
    /// than 72 pixels per inch). The result is the size to give the window, if
    /// it has to change.
    pub fn display_found(&mut self, dense: bool, scale_factor: i32) -> (size: Option<(i32, i32)>)
        requires
            dense ==> old(self).display_fits(scale_factor),
        ensures
            *final(self) == old(self).displayed(dense, scale_factor),
            size == (if dense {
                Some((final(self).width, final(self).height))
            } else {
                None
            }),
    {
        self.scale_factor = scale_factor;
        if dense {
            self.width = self.width + (scale_factor * self.width) / 2;
            self.height = self.height + (scale_factor * self.height) / 2;
            Some((self.width, self.height))
        } else {
            None
        }
    }
}

/// Whether a side grown for a dense display, and the product on the way to
/// it, fit an `i32`.
fn grown_fits(side: i32, scale_factor: i32) -> (r: bool)
    ensures
        r == (i32::MIN <= scale_factor * side <= i32::MAX && i32::MIN <= side + half_toward_zero(
            scale_factor * side,
        ) <= i32::MAX),
{
    assert(-0x4000_0000_0000_0000 <= scale_factor * side <= 0x4000_0000_0000_0000)
        by (nonlinear_arith)
        requires
            -0x8000_0000 <= scale_factor < 0x8000_0000,
            -0x8000_0000 <= side < 0x8000_0000,
    ;
    let product: i64 = (scale_factor as i64) * (side as i64);
    if product < i32::MIN as i64 || product > i32::MAX as i64 {
        return false;
    }
    let grown: i64 = side as i64 + product / 2;
    i32::MIN as i64 <= grown && grown <= i32::MAX as i64
}

/// A double click marks the first end of a span where it fell, whatever was
/// marked before, and the single click that follows marks the second end
/// where it fell: neither end is moved and the two are not put in order.
pub proof fn lemma_double_click_then_click(state: Rlr, double: ButtonEvent, single: ButtonEvent)
    requires
        double.click == Click::Double,
        single.click == Click::Single,
    ensures
        state.pressed(double).interval == Interval::Start(state.along(double.at)),
        state.pressed(double).pressed(single).interval == Interval::Full(
            state.along(double.at),
            state.along(single.at),
        ),
        state.press_action(double) == PressAction::Nothing,
        state.pressed(double).press_action(single) == PressAction::Nothing,
{
}

/// A press changes nothing but the marked span and whether the base line is
/// being turned, and it never ends the turning.
pub proof fn lemma_press_keeps_the_rest(state: Rlr, ev: ButtonEvent)
    ensures
        state.pressed(ev) == (Rlr {
            interval: state.pressed(ev).interval,
            edit_angle_offset: state.pressed(ev).edit_angle_offset,
            ..state
        }),
        state.edit_angle_offset ==> state.pressed(ev).edit_angle_offset,
{
}

/// While the state is frozen, neither pointer motion nor polling changes it.
pub proof fn lemma_frozen_ignores_pointer(state: Rlr, at: (Px, Px), polled: (i32, i32))
    requires
        state.freeze,
    ensures
        state.moved(at) == state,
        state.polled(polled) == state,
{
}

} // verus!
