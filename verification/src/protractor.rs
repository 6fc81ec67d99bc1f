//! The protractor: a disk with rings at fixed radii, a dial of marks every
//! hundredth of a radian, a base line, and a line that follows the pointer.

use vstd::prelude::*;
use crate::angle::{Angle, Direction};
use crate::draw::{labels_in_reach, DrawOp, Ink};
use crate::px::{HALF_PIXEL, PER_PIXEL};
use crate::ruler::TICK;
use crate::state::Rlr;

verus! {

/// The distance from one ring to the next, in thousandths of a pixel.
pub const RING_SPACING: i64 = 50_000;

/// The last mark of a quadrant, in hundredths of a radian: the last one before
/// a quarter turn is complete.
pub const QUADRANT_END: i64 = 157;

/// The radius of the arc that shows the measured angle, in thousandths of a
/// pixel.
pub const ARC_RADIUS: i64 = 17_000;

/// The radius of the dot at the centre, in thousandths of a pixel.
pub const CENTRE_DOT: i64 = 2000;

/// How far `a` hundredths of a radian are from the start of their quadrant, in
/// billionths of a degree, a radian taken as 57.2957795 degrees.
pub open spec fn dial_degrees(a: int) -> int {
    a * 572_957_795
}

/// The length of the dial's mark at `a` hundredths of a radian: five times
/// the ordinary length for the first mark after each multiple of thirty
/// degrees, one and a half times for the first after each other multiple of
/// five degrees. A mark counts as the first when it is no more than 0.55
/// degrees past a multiple of thirty, or 0.5 past a multiple of five.
pub open spec fn dial_tick_length(a: int) -> int {
    if dial_degrees(a) % 30_000_000_000 <= 550_000_000 {
        5 * TICK
    } else if dial_degrees(a) % 5_000_000_000 <= 500_000_000 {
        TICK + TICK / 2
    } else {
        TICK as int
    }
}

/// The number of rings on a disk `side` pixels across: one every fifty pixels
/// of radius, as far as they stay inside the disk.
pub open spec fn ring_count(side: int) -> nat {
    if side <= 100 {
        0
    } else {
        ((side - 1) / 100) as nat
    }
}

/// A full circle of radius `radius` around (`centre`, `centre`).
pub open spec fn circle(centre: int, radius: int) -> DrawOp {
    DrawOp::Arc {
        x: centre as i64,
        y: centre as i64,
        radius: radius as i64,
        from: Angle::zero(),
        to: Angle::full_turn(),
    }
}

/// The first `count` rings around (`centre`, `centre`), from the inside out.
pub open spec fn ring_ops(centre: int, count: nat) -> Seq<DrawOp>
    decreases count,
{
    if count == 0 {
        seq![]
    } else {
        ring_ops(centre, (count - 1) as nat) + seq![
            circle(centre, count * RING_SPACING),
            DrawOp::Stroke,
        ]
    }
}

/// The dial's mark at `a` hundredths of a radian in quadrant `quadrant`, on a
/// dial that reaches `reach` from its hub at (`reach`, `reach`): the axes are
/// turned to the mark, and the mark is drawn inward from the rim.
pub open spec fn dial_tick_ops(reach: int, quadrant: int, a: int) -> Seq<DrawOp> {
    seq![
        DrawOp::Save,
        DrawOp::MoveTo { x: reach as i64, y: reach as i64 },
        DrawOp::Rotate(Angle::quarters(quadrant)),
        DrawOp::Rotate(Angle::sum(0, -a, 0, 0)),
        DrawOp::Mark,
        DrawOp::MoveFromMark {
            dx: (reach - dial_tick_length(a)) as i64,
            dy: (-HALF_PIXEL) as i64,
        },
        DrawOp::LineFromMark { dx: reach as i64, dy: (-HALF_PIXEL) as i64 },
        DrawOp::Stroke,
        DrawOp::Restore,
    ]
}

/// The first `count` marks of quadrant `quadrant`.
pub open spec fn quadrant_ops(reach: int, quadrant: int, count: nat) -> Seq<DrawOp>
    decreases count,
{
    if count == 0 {
        seq![]
    } else {
        quadrant_ops(reach, quadrant, (count - 1) as nat) + dial_tick_ops(
            reach,
            quadrant,
            count - 1,
        )
    }
}

/// The marks of the first `quadrants` quadrants, each from its start to
/// [`QUADRANT_END`].
pub open spec fn dial_ops(reach: int, quadrants: nat) -> Seq<DrawOp>
    decreases quadrants,
{
    if quadrants == 0 {
        seq![]
    } else {
        dial_ops(reach, (quadrants - 1) as nat) + quadrant_ops(
            reach,
            quadrants - 1,
            (QUADRANT_END + 1) as nat,
        )
    }
}

impl Rlr {
    /// The side of the square that the protractor is drawn in: the window's
    /// shorter side.
    pub open spec fn disk_side(self) -> int {
        if self.width <= self.height {
            self.width as int
        } else {
            self.height as int
        }
    }

    /// The direction from the centre of the disk to the pointer as last
    /// polled, in half pixels.
    pub open spec fn pointer_direction(self) -> Direction {
        Direction {
            dx: (2 * self.root_position.0 - self.disk_side()) as i64,
            dy: (self.disk_side() - 2 * self.root_position.1) as i64,
        }
    }

    /// The angle that the line to the pointer is turned by: the pointer's own
    /// angle, in whole radians while measurements are coarse, turned into the
    /// sense and the zero of the drawing surface.
    pub open spec fn pointer_turn(self) -> Angle {
        Angle::sum(3, 0, -1, 0).snapped_if(!self.precision)
    }

    /// The angle that the base line is turned by.
    pub open spec fn base_turn(self) -> Angle {
        Angle::sum(3, 0, 0, -1)
    }

    /// The measured angle: from the base line counterclockwise to the
    /// pointer, the pointer's own angle counted from nothing up to a full turn.
    pub open spec fn measured_angle(self) -> Angle {
        if self.pointer_direction().below_axis() {
            Angle::sum(4, 0, 1, -1)
        } else {
            Angle::sum(0, 0, 1, -1)
        }
    }

    /// The base line, from the centre to the rim.
    pub open spec fn base_line_ops(self) -> Seq<DrawOp> {
        let reach = (self.disk_side() * HALF_PIXEL - HALF_PIXEL) as i64;
        seq![
            DrawOp::Save,
            DrawOp::SetLineWidth((2 * PER_PIXEL) as i64),
            DrawOp::MoveTo { x: reach, y: reach },
            DrawOp::Rotate(self.base_turn()),
            DrawOp::Mark,
            DrawOp::LineFromMark { dx: 0, dy: reach },
            DrawOp::Stroke,
            DrawOp::Restore,
        ]
    }

    /// The line that follows the pointer, from a dot at the centre to the rim.
    pub open spec fn pointer_line_ops(self) -> Seq<DrawOp> {
        let reach = (self.disk_side() * HALF_PIXEL - HALF_PIXEL) as i64;
        seq![
            DrawOp::Save,
            DrawOp::MoveTo { x: reach, y: reach },
            DrawOp::Rotate(self.pointer_turn()),
            DrawOp::Mark,
            DrawOp::CircleAtMark { radius: CENTRE_DOT },
            DrawOp::Stroke,
            DrawOp::MoveFromMark { dx: 0, dy: 0 },
            DrawOp::LineFromMark { dx: 0, dy: reach },
            DrawOp::Stroke,
            DrawOp::Restore,
        ]
    }

    /// The arc between the line to the pointer and the base line, and the
    /// measured angle in writing.
    pub open spec fn reading_ops(self) -> Seq<DrawOp> {
        let centre = (self.disk_side() * HALF_PIXEL) as i64;
        let reach = (centre - HALF_PIXEL) as i64;
        seq![
            DrawOp::SelectFont,
            DrawOp::MoveTo { x: reach, y: reach },
            DrawOp::Arc {
                x: centre,
                y: centre,
                radius: ARC_RADIUS,
                from: Angle::sum(4, 0, -1, 0).snapped_if(!self.precision),
                to: Angle::sum(4, 0, 0, -1),
            },
            DrawOp::Stroke,
            DrawOp::MoveTo { x: (centre - 5500) as i64, y: (centre - 15500) as i64 },
            DrawOp::ShowAngle { angle: self.measured_angle(), rounded: !self.precision },
        ]
    }

    /// The disk in the background colour, on a surface that is otherwise left
    /// clear, and the faint source that the rings are drawn with.
    pub open spec fn disk_ops(self) -> Seq<DrawOp> {
        let centre = self.disk_side() * HALF_PIXEL;
        seq![
            circle(centre, centre),
            DrawOp::SetSource(Ink::Grey { level: 0, alpha: 0 }),
            DrawOp::Fill,
            DrawOp::SetSource(Ink::Secondary),
            circle(centre, centre),
            DrawOp::Fill,
            DrawOp::SetSource(Ink::Primary),
            DrawOp::SetLineWidth(PER_PIXEL),
            DrawOp::Save,
            DrawOp::SetSource(Ink::Grey { level: 100, alpha: 100 }),
        ]
    }

    /// Everything the protractor is drawn with, in order: the disk, the
    /// rings, the dial, the base line, the line to the pointer, and the
    /// reading.
    pub open spec fn protractor_ops(self) -> Seq<DrawOp> {
        let centre = self.disk_side() * HALF_PIXEL;
        let reach = centre - HALF_PIXEL;
        self.disk_ops() + ring_ops(centre, ring_count(self.disk_side())) + seq![DrawOp::Restore]
            + dial_ops(reach, 4) + self.base_line_ops() + self.pointer_line_ops()
            + self.reading_ops()
    }
}

/// The length of the dial's mark at `a` hundredths of a radian, see
/// [`dial_tick_length`].
pub fn dial_tick(a: u8) -> (length: i64)
    ensures
        length == dial_tick_length(a as int),
{
    let degrees: i64 = (a as i64) * 572_957_795;
    if degrees % 30_000_000_000 <= 550_000_000 {
        5 * TICK
    } else if degrees % 5_000_000_000 <= 500_000_000 {
        TICK + TICK / 2
    } else {
        TICK
    }
}

fn push_dial_tick(ops: &mut Vec<DrawOp>, reach: i64, quadrant: i32, a: i64)
    requires
        0 <= a <= QUADRANT_END,
        -0x1000_0000_0000 <= reach <= 0x1000_0000_0000,
    ensures
        final(ops)@ == old(ops)@ + dial_tick_ops(reach as int, quadrant as int, a as int),
        labels_in_reach(old(ops)@) ==> labels_in_reach(final(ops)@),
{
    ops.push(DrawOp::Save);
    ops.push(DrawOp::MoveTo { x: reach, y: reach });
    ops.push(
        DrawOp::Rotate(
            Angle { quarter_turns: quadrant, hundredths: 0, pointer: 0, snapped: false, base: 0 },
        ),
    );
    ops.push(
        DrawOp::Rotate(
            Angle {
                quarter_turns: 0,
                hundredths: -(a as i32),
                pointer: 0,
                snapped: false,
                base: 0,
            },
        ),
    );
    ops.push(DrawOp::Mark);
    ops.push(DrawOp::MoveFromMark { dx: reach - dial_tick(a as u8), dy: -HALF_PIXEL });
    ops.push(DrawOp::LineFromMark { dx: reach, dy: -HALF_PIXEL });
    ops.push(DrawOp::Stroke);
    ops.push(DrawOp::Restore);
    assert(ops@ =~= old(ops)@ + dial_tick_ops(reach as int, quadrant as int, a as int));
}

impl Rlr {
    /// The side of the square that the protractor is drawn in.
    pub fn disk(&self) -> (side: i32)
        ensures
            side == self.disk_side(),
    {
        if self.width <= self.height {
            self.width
        } else {
            self.height
        }
    }

    /// The direction from the centre of the disk to the pointer, see
    /// [`Rlr::pointer_direction`].
    pub fn pointer_heading(&self) -> (direction: Direction)
        ensures
            direction == self.pointer_direction(),
    {
        let side: i64 = self.disk() as i64;
        Direction {
            dx: 2 * (self.root_position.0 as i64) - side,
            dy: side - 2 * (self.root_position.1 as i64),
        }
    }

    fn push_rings(&self, ops: &mut Vec<DrawOp>)
        ensures
            final(ops)@ == old(ops)@ + ring_ops(
                self.disk_side() * HALF_PIXEL,
                ring_count(self.disk_side()),
            ),
            labels_in_reach(old(ops)@) ==> labels_in_reach(final(ops)@),
    {
        let side: i64 = self.disk() as i64;
        let centre: i64 = side * HALF_PIXEL;
        let mut count: i64 = 0;
        assert(ops@ =~= old(ops)@ + ring_ops(centre as int, 0));
        while 100 * (count + 1) < side
            invariant
                side == self.disk_side(),
                centre == side * HALF_PIXEL,
                0 <= count <= ring_count(side as int),
                ops@ == old(ops)@ + ring_ops(centre as int, count as nat),
                labels_in_reach(old(ops)@) ==> labels_in_reach(ops@),
            decreases side - 100 * count,
        {
            count = count + 1;
            ops.push(
                DrawOp::Arc {
                    x: centre,
                    y: centre,
                    radius: count * RING_SPACING,
                    from: Angle::of_quarters(0),
                    to: Angle::of_quarters(4),
                },
            );
            ops.push(DrawOp::Stroke);
            assert(ops@ =~= old(ops)@ + ring_ops(centre as int, count as nat));
        }
    }

    fn push_dial(&self, ops: &mut Vec<DrawOp>)
        ensures
            final(ops)@ == old(ops)@ + dial_ops(self.disk_side() * HALF_PIXEL - HALF_PIXEL, 4),
            labels_in_reach(old(ops)@) ==> labels_in_reach(final(ops)@),
    {
        let reach: i64 = (self.disk() as i64) * HALF_PIXEL - HALF_PIXEL;
        let mut quadrant: i32 = 0;
        assert(ops@ =~= old(ops)@ + dial_ops(reach as int, 0));
        while quadrant < 4
            invariant
                reach == self.disk_side() * HALF_PIXEL - HALF_PIXEL,
                0 <= quadrant <= 4,
                ops@ == old(ops)@ + dial_ops(reach as int, quadrant as nat),
                labels_in_reach(old(ops)@) ==> labels_in_reach(ops@),
            decreases 4 - quadrant,
        {
            let ghost done = ops@;
            let mut a: i64 = 0;
            assert(ops@ =~= done + quadrant_ops(reach as int, quadrant as int, 0));
            while a <= QUADRANT_END
                invariant
                    reach == self.disk_side() * HALF_PIXEL - HALF_PIXEL,
                    0 <= a <= QUADRANT_END + 1,
                    ops@ == done + quadrant_ops(reach as int, quadrant as int, a as nat),
                    labels_in_reach(done) ==> labels_in_reach(ops@),
                decreases QUADRANT_END + 1 - a,
            {
                push_dial_tick(ops, reach, quadrant, a);
                a = a + 1;
                assert(ops@ =~= done + quadrant_ops(reach as int, quadrant as int, a as nat));
            }
            quadrant = quadrant + 1;
            assert(ops@ =~= old(ops)@ + dial_ops(reach as int, quadrant as nat));
        }
    }

    fn push_disk(&self, ops: &mut Vec<DrawOp>)
        ensures
            final(ops)@ == old(ops)@ + self.disk_ops(),
            labels_in_reach(old(ops)@) ==> labels_in_reach(final(ops)@),
    {
        let centre: i64 = (self.disk() as i64) * HALF_PIXEL;
        let disk = DrawOp::Arc {
            x: centre,
            y: centre,
            radius: centre,
            from: Angle::of_quarters(0),
            to: Angle::of_quarters(4),
        };
        ops.push(disk);
        ops.push(DrawOp::SetSource(Ink::Grey { level: 0, alpha: 0 }));
        ops.push(DrawOp::Fill);
        ops.push(DrawOp::SetSource(Ink::Secondary));
        ops.push(disk);
        ops.push(DrawOp::Fill);
        ops.push(DrawOp::SetSource(Ink::Primary));
        ops.push(DrawOp::SetLineWidth(PER_PIXEL));
        ops.push(DrawOp::Save);
        ops.push(DrawOp::SetSource(Ink::Grey { level: 100, alpha: 100 }));
        assert(ops@ =~= old(ops)@ + self.disk_ops());
    }

    fn push_base_line(&self, ops: &mut Vec<DrawOp>)
        ensures
            final(ops)@ == old(ops)@ + self.base_line_ops(),
            labels_in_reach(old(ops)@) ==> labels_in_reach(final(ops)@),
    {
        let reach: i64 = (self.disk() as i64) * HALF_PIXEL - HALF_PIXEL;
        ops.push(DrawOp::Save);
        ops.push(DrawOp::SetLineWidth(2 * PER_PIXEL));
        ops.push(DrawOp::MoveTo { x: reach, y: reach });
        ops.push(
            DrawOp::Rotate(
                Angle { quarter_turns: 3, hundredths: 0, pointer: 0, snapped: false, base: -1 },
            ),
        );
        ops.push(DrawOp::Mark);
        ops.push(DrawOp::LineFromMark { dx: 0, dy: reach });
        ops.push(DrawOp::Stroke);
        ops.push(DrawOp::Restore);
        assert(ops@ =~= old(ops)@ + self.base_line_ops());
    }

    fn push_pointer_line(&self, ops: &mut Vec<DrawOp>)
        ensures
            final(ops)@ == old(ops)@ + self.pointer_line_ops(),
            labels_in_reach(old(ops)@) ==> labels_in_reach(final(ops)@),
    {
        let reach: i64 = (self.disk() as i64) * HALF_PIXEL - HALF_PIXEL;
        let snapped = !self.precision;
        ops.push(DrawOp::Save);
        ops.push(DrawOp::MoveTo { x: reach, y: reach });
        ops.push(
            DrawOp::Rotate(Angle { quarter_turns: 3, hundredths: 0, pointer: -1, snapped, base: 0 }),
        );
        ops.push(DrawOp::Mark);
        ops.push(DrawOp::CircleAtMark { radius: CENTRE_DOT });
        ops.push(DrawOp::Stroke);
        ops.push(DrawOp::MoveFromMark { dx: 0, dy: 0 });
        ops.push(DrawOp::LineFromMark { dx: 0, dy: reach });
        ops.push(DrawOp::Stroke);
        ops.push(DrawOp::Restore);
        assert(ops@ =~= old(ops)@ + self.pointer_line_ops());
    }

    /// The measured angle, see [`Rlr::measured_angle`].
    pub fn measured(&self) -> (angle: Angle)
        ensures
            angle == self.measured_angle(),
    {
        let turns: i32 = if self.pointer_heading().dy < 0 {
            4
        } else {
            0
        };
        Angle { quarter_turns: turns, hundredths: 0, pointer: 1, snapped: false, base: -1 }
    }

    fn push_reading(&self, ops: &mut Vec<DrawOp>)
        ensures
            final(ops)@ == old(ops)@ + self.reading_ops(),
            labels_in_reach(old(ops)@) ==> labels_in_reach(final(ops)@),
    {
        let centre: i64 = (self.disk() as i64) * HALF_PIXEL;
        let reach: i64 = centre - HALF_PIXEL;
        let snapped = !self.precision;
        ops.push(DrawOp::SelectFont);
        ops.push(DrawOp::MoveTo { x: reach, y: reach });
        ops.push(
            DrawOp::Arc {
                x: centre,
                y: centre,
                radius: ARC_RADIUS,
                from: Angle { quarter_turns: 4, hundredths: 0, pointer: -1, snapped, base: 0 },
                to: Angle { quarter_turns: 4, hundredths: 0, pointer: 0, snapped: false, base: -1 },
            },
        );
        ops.push(DrawOp::Stroke);
        ops.push(DrawOp::MoveTo { x: centre - 5500, y: centre - 15500 });
        ops.push(DrawOp::ShowAngle { angle: self.measured(), rounded: snapped });
        assert(ops@ =~= old(ops)@ + self.reading_ops());
    }

    /// Lists what the protractor is drawn with, see [`Rlr::protractor_ops`].
    /// The list asks for no text to be measured.
    pub fn draw_douglas(&self) -> (ops: Vec<DrawOp>)
        ensures
            ops@ == self.protractor_ops(),
            labels_in_reach(ops@),
    {
        let mut ops: Vec<DrawOp> = Vec::new();
        self.push_disk(&mut ops);
        self.push_rings(&mut ops);
        ops.push(DrawOp::Restore);
        self.push_dial(&mut ops);
        self.push_base_line(&mut ops);
        self.push_pointer_line(&mut ops);
        self.push_reading(&mut ops);
        assert(ops@ =~= self.protractor_ops());
        ops
    }

    /// Lists what the window is drawn with: the protractor where it is
    /// shown, else the ruler.
    pub fn draw(&self) -> (ops: Vec<DrawOp>)
        ensures
            ops@ == (if self.protractor {
                self.protractor_ops()
            } else {
                self.ruler_ops()
            }),
            labels_in_reach(ops@),
    {
        if self.protractor {
            self.draw_douglas()
        } else {
            self.draw_rlr()
        }
    }
}

} // verus!
