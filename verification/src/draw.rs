//! The drawing operations that the two instruments are made of.
//!
//! Lengths and coordinates are whole numbers of thousandths of a pixel, with
//! x to the right and y downward. An operation changes the state of a drawing
//! surface as the operation of the same name does on any vector surface: a
//! path is laid down piece by piece and then stroked or filled with the source
//! that is set.

use vstd::prelude::*;
use crate::angle::Angle;
use crate::px::Px;

verus! {

/// What a path is stroked or filled with.
#[derive(Clone, Copy, Debug, PartialEq, Eq, Structural)]
pub enum Ink {
    /// The user's colour for marks and text.
    Primary,
    /// The user's colour for the background.
    Secondary,
    /// A grey: `level` thousandths of white, `alpha` thousandths opaque.
    Grey { level: u16, alpha: u16 },
}

/// How a label is placed once the size of its text is known.
#[derive(Clone, Copy, Debug, PartialEq, Eq, Structural)]
pub enum LabelKind {
    /// The number at a long mark: centred on `x`, its base line at `y`.
    Tick,
    /// The pointer's coordinate on a level ruler: in a box that starts at `x`
    /// and stands around the base line `y`.
    Cursor,
    /// The pointer's coordinate on an upright ruler: in a box centred on `x`
    /// that stands on the base line `y`.
    CursorUpright,
}

/// A number to print where its place depends on how large the text comes out.
#[derive(Clone, Copy, Debug, PartialEq, Eq, Structural)]
pub struct Label {
    pub kind: LabelKind,
    pub value: i64,
    /// Whether `px` follows the number.
    pub unit: bool,
    pub x: i64,
    pub y: i64,
}

/// One step of drawing.
#[derive(Clone, Copy, Debug, PartialEq, Eq, Structural)]
pub enum DrawOp {
    SetSource(Ink),
    /// Covers the whole surface with the source.
    Paint,
    SetLineWidth(i64),
    /// Selects the user's font, upright and of normal weight.
    SelectFont,
    Save,
    Restore,
    Rectangle { x: i64, y: i64, width: i64, height: i64 },
    Fill,
    Stroke,
    MoveTo { x: i64, y: i64 },
    LineTo { x: i64, y: i64 },
    /// Prints the number at the current point, followed by `px` where `unit`
    /// is set.
    ShowText { value: i64, unit: bool },
    /// Measures the label's text and goes on with what [`Label::placed`]
    /// gives for its size.
    Measure(Label),
    /// A circular arc around (`x`, `y`), clockwise on the screen from the
    /// angle `from` to the angle `to`.
    Arc { x: i64, y: i64, radius: i64, from: Angle, to: Angle },
    /// Turns the axes by the angle, clockwise on the screen.
    Rotate(Angle),
    /// Remembers the current point, in the coordinates as they are turned
    /// now, as the mark.
    Mark,
    /// Moves to the point that lies (`dx`, `dy`) from the mark.
    MoveFromMark { dx: i64, dy: i64 },
    /// Draws a line to the point that lies (`dx`, `dy`) from the mark.
    LineFromMark { dx: i64, dy: i64 },
    /// A full circle around the mark.
    CircleAtMark { radius: i64 },
    /// Prints the angle at the current point, in radians and in degrees with
    /// two decimals each; where `rounded` is set, the angle is rounded to
    /// whole radians first.
    ShowAngle { angle: Angle, rounded: bool },
}

/// The furthest from the origin, in thousandths of a pixel, that a label may
/// be asked for: text of any size a [`Px`] can hold is then placed without
/// leaving the range of the coordinates.
pub const LABEL_REACH: i64 = 4_000_000_000_000_000_000;

/// The room left around a label's text inside its box, in thousandths of a
/// pixel.
pub const LABEL_PAD: i64 = 2000;

/// Whether every label that `ops` asks to measure is within reach, see
/// [`Label::in_reach`].
pub open spec fn labels_in_reach(ops: Seq<DrawOp>) -> bool {
    forall|k: int| 0 <= k < ops.len() ==> (#[trigger] ops[k] matches DrawOp::Measure(label) ==> label.in_reach())
}

impl Label {
    /// Whether the label is asked for no further than [`LABEL_REACH`] from
    /// the origin.
    pub open spec fn in_reach(self) -> bool {
        &&& -LABEL_REACH <= self.x <= LABEL_REACH
        &&& -LABEL_REACH <= self.y <= LABEL_REACH
    }

    /// What the label is drawn with once its text is known to be `width` wide
    /// and `height` high.
    ///
    /// The number at a mark is centred on `x`. The pointer's coordinate
    /// stands in a box filled with the background colour, inside a box that is
    /// only outlined: on the level ruler both start at `x`, on the upright one
    /// the text is centred on `x`.
    pub open spec fn placed_ops(self, width: int, height: int) -> Seq<DrawOp> {
        let text = DrawOp::ShowText { value: self.value, unit: self.unit };
        match self.kind {
            LabelKind::Tick => seq![
                DrawOp::MoveTo { x: (self.x - width / 2) as i64, y: self.y },
                text,
            ],
            LabelKind::Cursor => seq![
                DrawOp::Rectangle {
                    x: (self.x - LABEL_PAD) as i64,
                    y: (self.y - height - LABEL_PAD) as i64,
                    width: (width + 6500) as i64,
                    height: (height + 10500) as i64,
                },
                DrawOp::Stroke,
                DrawOp::Rectangle {
                    x: self.x,
                    y: (self.y - height) as i64,
                    width: (width + 4500) as i64,
                    height: (height + 8500) as i64,
                },
                DrawOp::SetSource(Ink::Secondary),
                DrawOp::Fill,
                DrawOp::SetSource(Ink::Primary),
                DrawOp::MoveTo { x: self.x, y: (self.y + 2500) as i64 },
                text,
            ],
            LabelKind::CursorUpright => seq![
                DrawOp::Rectangle {
                    x: (self.x - width / 2 - LABEL_PAD) as i64,
                    y: (self.y - height - LABEL_PAD) as i64,
                    width: (width + 6500) as i64,
                    height: (height + 6500) as i64,
                },
                DrawOp::Stroke,
                DrawOp::Rectangle {
                    x: (self.x - width / 2) as i64,
                    y: (self.y - height) as i64,
                    width: (width + 4500) as i64,
                    height: (height + 4500) as i64,
                },
                DrawOp::SetSource(Ink::Secondary),
                DrawOp::Fill,
                DrawOp::SetSource(Ink::Primary),
                DrawOp::MoveTo { x: (self.x - width / 2) as i64, y: self.y },
                text,
            ],
        }
    }

    /// Whether the label is within reach, see [`Label::in_reach`].
    pub fn is_in_reach(&self) -> (r: bool)
        ensures
            r == self.in_reach(),
    {
        -LABEL_REACH <= self.x && self.x <= LABEL_REACH && -LABEL_REACH <= self.y && self.y
            <= LABEL_REACH
    }

    /// Lists what the label is drawn with, given the size of its text, see
    /// [`Label::placed_ops`].
    pub fn placed(&self, width: Px, height: Px) -> (ops: Vec<DrawOp>)
        requires
            self.in_reach(),
        ensures
            ops@ == self.placed_ops(width@, height@),
    {
        let w: i64 = width.milli();
        let h: i64 = height.milli();
        let half: i64 = if w % 2 < 0 {
            w / 2 - 1
        } else {
            w / 2
        };
        let text = DrawOp::ShowText { value: self.value, unit: self.unit };
        let mut ops: Vec<DrawOp> = Vec::new();
        match self.kind {
            LabelKind::Tick => {
                ops.push(DrawOp::MoveTo { x: self.x - half, y: self.y });
                ops.push(text);
            },
            LabelKind::Cursor => {
                ops.push(
                    DrawOp::Rectangle {
                        x: self.x - LABEL_PAD,
                        y: self.y - h - LABEL_PAD,
                        width: w + 6500,
                        height: h + 10500,
                    },
                );
                ops.push(DrawOp::Stroke);
                ops.push(
                    DrawOp::Rectangle { x: self.x, y: self.y - h, width: w + 4500, height: h + 8500 },
                );
                ops.push(DrawOp::SetSource(Ink::Secondary));
                ops.push(DrawOp::Fill);
                ops.push(DrawOp::SetSource(Ink::Primary));
                ops.push(DrawOp::MoveTo { x: self.x, y: self.y + 2500 });
                ops.push(text);
            },
            LabelKind::CursorUpright => {
                ops.push(
                    DrawOp::Rectangle {
                        x: self.x - half - LABEL_PAD,
                        y: self.y - h - LABEL_PAD,
                        width: w + 6500,
                        height: h + 6500,
                    },
                );
                ops.push(DrawOp::Stroke);
                ops.push(
                    DrawOp::Rectangle {
                        x: self.x - half,
                        y: self.y - h,
                        width: w + 4500,
                        height: h + 4500,
                    },
                );
                ops.push(DrawOp::SetSource(Ink::Secondary));
                ops.push(DrawOp::Fill);
                ops.push(DrawOp::SetSource(Ink::Primary));
                ops.push(DrawOp::MoveTo { x: self.x - half, y: self.y });
                ops.push(text);
            },
        }
        assert(ops@ =~= self.placed_ops(width@, height@));
        ops
    }
}

} // verus!
