//! The ruler: a scale of marks along the window's long side, a crosshair
//! under the pointer, and the span between two clicks.

use vstd::prelude::*;
use crate::draw::{labels_in_reach, DrawOp, Ink, Label, LabelKind};
use crate::interval::Interval;
use crate::px::{snapped_pixel, Px, HALF_PIXEL, PER_PIXEL};
use crate::state::Rlr;

verus! {

/// The length of an ordinary mark, in thousandths of a pixel.
pub const TICK: i64 = 5000;

/// The length of the mark at pixel `i`: every fiftieth pixel has a long
/// mark, every tenth an ordinary one, the others a short one.
pub open spec fn tick_length(i: int) -> int {
    if i % 50 == 0 {
        TICK + TICK / 2
    } else if i % 10 == 0 {
        TICK as int
    } else {
        TICK / 2
    }
}

/// The grey that the span is filled with: lighter while its second end is
/// still awaited.
pub open spec fn span_fill(pending: bool) -> Ink {
    if pending {
        Ink::Grey { level: 900, alpha: 1000 }
    } else {
        Ink::Grey { level: 800, alpha: 1000 }
    }
}

/// The grey of the span's outline.
pub open spec fn span_edge() -> Ink {
    Ink::Grey { level: 100, alpha: 1000 }
}

/// A filled and outlined band from `from` to `to` along x, over the whole
/// breadth.
pub open spec fn span_ops(from: int, to: int, breadth: int, pending: bool) -> Seq<DrawOp> {
    let band = DrawOp::Rectangle {
        x: (from - HALF_PIXEL) as i64,
        y: HALF_PIXEL,
        width: (to - from - HALF_PIXEL) as i64,
        height: (breadth * PER_PIXEL - HALF_PIXEL) as i64,
    };
    seq![
        DrawOp::SetSource(span_fill(pending)),
        band,
        DrawOp::Fill,
        DrawOp::SetSource(span_edge()),
        band,
        DrawOp::Stroke,
    ]
}

impl Rlr {
    /// The pointer's coordinate along the scale, in thousandths of a pixel.
    pub open spec fn pointer_along(self) -> int {
        if self.rotate.rotated() {
            self.position.1@
        } else {
            self.position.0@
        }
    }

    /// The pixel that the crosshair is drawn at.
    pub open spec fn cursor_pixel(self) -> int {
        snapped_pixel(self.pointer_along(), self.precision)
    }

    /// The number that the crosshair's label shows: its pixel in device
    /// pixels.
    pub open spec fn cursor_value(self) -> int {
        self.cursor_pixel() * self.scale_factor
    }

    /// Where the mark for pixel `i` lies along the scale, in thousandths of a
    /// pixel: in the middle of its pixel, counted from the far end where the
    /// scale is reversed.
    pub open spec fn tick_position(self, i: int) -> int {
        if self.rotate.reversed() {
            self.axis_length() * PER_PIXEL - (i * PER_PIXEL + HALF_PIXEL)
        } else {
            i * PER_PIXEL + HALF_PIXEL
        }
    }

    /// The number of marks: one for every second pixel of the scale, starting
    /// with the first.
    pub open spec fn tick_count(self) -> nat {
        if self.axis_length() <= 0 {
            0
        } else {
            ((self.axis_length() + 1) / 2) as nat
        }
    }

    /// The span between the clicks, as far as it is marked. A span that awaits
    /// its second end reaches to the pointer.
    pub open spec fn interval_ops(self) -> Seq<DrawOp> {
        match self.interval {
            Interval::Unmarked => seq![],
            Interval::Start(start) => span_ops(
                start@,
                self.position.0@,
                self.breadth(),
                true,
            ),
            Interval::Full(start, end) => span_ops(start@, end@, self.breadth(), false),
        }
    }

    /// The mark for pixel `i`: one stroke from each edge, and at every
    /// fiftieth pixel the pixel's number in device pixels between them.
    pub open spec fn tick_ops(self, i: int) -> Seq<DrawOp> {
        let at = self.tick_position(i) as i64;
        let length = tick_length(i) as i64;
        let far = (self.breadth() * PER_PIXEL) as i64;
        let middle = (self.breadth() * HALF_PIXEL) as i64;
        let value = (i * self.scale_factor) as i64;
        let strokes = if self.rotate.rotated() {
            seq![
                DrawOp::MoveTo { x: PER_PIXEL, y: at },
                DrawOp::LineTo { x: length, y: at },
                DrawOp::Stroke,
                DrawOp::MoveTo { x: (far - length) as i64, y: at },
                DrawOp::LineTo { x: (far - PER_PIXEL) as i64, y: at },
                DrawOp::Stroke,
            ]
        } else {
            seq![
                DrawOp::MoveTo { x: at, y: PER_PIXEL },
                DrawOp::LineTo { x: at, y: length },
                DrawOp::Stroke,
                DrawOp::MoveTo { x: at, y: (far - length) as i64 },
                DrawOp::LineTo { x: at, y: (far - PER_PIXEL) as i64 },
                DrawOp::Stroke,
            ]
        };
        if i % 50 != 0 {
            strokes
        } else if self.rotate.rotated() {
            strokes.push(
                DrawOp::Measure(
                    Label {
                        kind: LabelKind::Tick,
                        value,
                        unit: false,
                        x: (middle - TICK / 2) as i64,
                        y: at,
                    },
                ),
            )
        } else {
            strokes.push(
                DrawOp::Measure(
                    Label {
                        kind: LabelKind::Tick,
                        value,
                        unit: false,
                        x: at,
                        y: (middle + TICK / 2) as i64,
                    },
                ),
            )
        }
    }

    /// The first `count` marks, in the order of their pixels: one for every
    /// second pixel.
    pub open spec fn ticks_ops(self, count: nat) -> Seq<DrawOp>
        decreases count,
    {
        if count == 0 {
            seq![]
        } else {
            self.ticks_ops((count - 1) as nat) + self.tick_ops(2 * (count - 1))
        }
    }

    /// The crosshair across the ruler at the pointer's pixel, with the
    /// pixel's number in device pixels beside it.
    pub open spec fn cursor_ops(self) -> Seq<DrawOp> {
        let far = (self.breadth() * PER_PIXEL) as i64;
        let middle = (self.breadth() * HALF_PIXEL) as i64;
        let at = (self.cursor_pixel() * PER_PIXEL + HALF_PIXEL) as i64;
        let value = self.cursor_value() as i64;
        if self.rotate.rotated() {
            seq![
                DrawOp::MoveTo { x: PER_PIXEL, y: at },
                DrawOp::LineTo { x: far, y: at },
                DrawOp::Stroke,
                DrawOp::Measure(
                    Label { kind: LabelKind::CursorUpright, value, unit: true, x: middle, y: at },
                ),
            ]
        } else {
            seq![
                DrawOp::MoveTo { x: at, y: PER_PIXEL },
                DrawOp::LineTo { x: at, y: far },
                DrawOp::Stroke,
                DrawOp::Measure(
                    Label {
                        kind: LabelKind::Cursor,
                        value,
                        unit: true,
                        x: (at + 2 * PER_PIXEL) as i64,
                        y: middle,
                    },
                ),
            ]
        }
    }

    /// The outline of the window, half a pixel inside its edge.
    pub open spec fn border_ops(self) -> Seq<DrawOp> {
        seq![
            DrawOp::Rectangle {
                x: HALF_PIXEL,
                y: HALF_PIXEL,
                width: (self.width * PER_PIXEL - PER_PIXEL) as i64,
                height: (self.height * PER_PIXEL - PER_PIXEL) as i64,
            },
            DrawOp::Stroke,
        ]
    }

    /// Everything the ruler is drawn with, in order: the background, the
    /// marked span, the marks, the crosshair and the border.
    pub open spec fn ruler_ops(self) -> Seq<DrawOp> {
        seq![
            DrawOp::SetSource(Ink::Secondary),
            DrawOp::Paint,
            DrawOp::SetLineWidth(HALF_PIXEL),
            DrawOp::SelectFont,
            DrawOp::SetSource(Ink::Primary),
            DrawOp::Save,
        ] + self.interval_ops() + seq![
            DrawOp::Restore,
            DrawOp::SetLineWidth(PER_PIXEL),
            DrawOp::SelectFont,
        ] + self.ticks_ops(self.tick_count()) + self.cursor_ops() + self.border_ops()
    }
}

/// Appends the band of a span, see [`span_ops`].
fn push_span(ops: &mut Vec<DrawOp>, from: Px, to: Px, breadth: i32, pending: bool)
    ensures
        final(ops)@ == old(ops)@ + span_ops(from@, to@, breadth as int, pending),
        labels_in_reach(old(ops)@) ==> labels_in_reach(final(ops)@),
{
    let fill = if pending {
        Ink::Grey { level: 900, alpha: 1000 }
    } else {
        Ink::Grey { level: 800, alpha: 1000 }
    };
    let band = DrawOp::Rectangle {
        x: from.milli() - HALF_PIXEL,
        y: HALF_PIXEL,
        width: to.milli() - from.milli() - HALF_PIXEL,
        height: (breadth as i64) * PER_PIXEL - HALF_PIXEL,
    };
    ops.push(DrawOp::SetSource(fill));
    ops.push(band);
    ops.push(DrawOp::Fill);
    ops.push(DrawOp::SetSource(Ink::Grey { level: 100, alpha: 1000 }));
    ops.push(band);
    ops.push(DrawOp::Stroke);
    assert(ops@ =~= old(ops)@ + span_ops(from@, to@, breadth as int, pending));
}

impl Rlr {
    /// The window's extent along the scale.
    pub fn axis(&self) -> (length: i32)
        ensures
            length == self.axis_length(),
    {
        if self.rotate.is_rotated() {
            self.height
        } else {
            self.width
        }
    }

    /// The window's extent across the scale.
    pub fn across(&self) -> (breadth: i32)
        ensures
            breadth == self.breadth(),
    {
        if self.rotate.is_rotated() {
            self.width
        } else {
            self.height
        }
    }

    /// The pixel that the crosshair is drawn at, see [`Rlr::cursor_pixel`].
    pub fn snapped_position(&self) -> (pixel: i64)
        ensures
            pixel == self.cursor_pixel(),
            i32::MIN - 9 <= pixel <= i32::MAX,
    {
        if self.rotate.is_rotated() {
            self.position.1.snap(self.precision)
        } else {
            self.position.0.snap(self.precision)
        }
    }

    fn push_interval(&self, ops: &mut Vec<DrawOp>)
        ensures
            final(ops)@ == old(ops)@ + self.interval_ops(),
            labels_in_reach(old(ops)@) ==> labels_in_reach(final(ops)@),
    {
        match self.interval {
            Interval::Unmarked => {
                assert(ops@ =~= old(ops)@ + self.interval_ops());
            },
            Interval::Start(start) => {
                push_span(ops, start, self.position.0, self.across(), true);
            },
            Interval::Full(start, end) => {
                push_span(ops, start, end, self.across(), false);
            },
        }
    }

    fn push_tick(&self, ops: &mut Vec<DrawOp>, i: i64)
        requires
            0 <= i < self.axis_length(),
        ensures
            final(ops)@ == old(ops)@ + self.tick_ops(i as int),
            labels_in_reach(old(ops)@) ==> labels_in_reach(final(ops)@),
    {
        let rotated = self.rotate.is_rotated();
        let plain: i64 = i * PER_PIXEL + HALF_PIXEL;
        let at: i64 = if self.rotate.is_reversed() {
            (self.axis() as i64) * PER_PIXEL - plain
        } else {
            plain
        };
        let length: i64 = if i % 50 == 0 {
            TICK + TICK / 2
        } else if i % 10 == 0 {
            TICK
        } else {
            TICK / 2
        };
        let far: i64 = (self.across() as i64) * PER_PIXEL;
        let middle: i64 = (self.across() as i64) * HALF_PIXEL;
        if rotated {
            ops.push(DrawOp::MoveTo { x: PER_PIXEL, y: at });
            ops.push(DrawOp::LineTo { x: length, y: at });
            ops.push(DrawOp::Stroke);
            ops.push(DrawOp::MoveTo { x: far - length, y: at });
            ops.push(DrawOp::LineTo { x: far - PER_PIXEL, y: at });
            ops.push(DrawOp::Stroke);
        } else {
            ops.push(DrawOp::MoveTo { x: at, y: PER_PIXEL });
            ops.push(DrawOp::LineTo { x: at, y: length });
            ops.push(DrawOp::Stroke);
            ops.push(DrawOp::MoveTo { x: at, y: far - length });
            ops.push(DrawOp::LineTo { x: at, y: far - PER_PIXEL });
            ops.push(DrawOp::Stroke);
        }
        if i % 50 == 0 {
            assert(i64::MIN <= i * self.scale_factor <= i64::MAX) by (nonlinear_arith)
                requires
                    0 <= i < 0x8000_0000,
                    -0x8000_0000 <= self.scale_factor < 0x8000_0000,
            ;
            let value: i64 = i * (self.scale_factor as i64);
            let label = if rotated {
                Label { kind: LabelKind::Tick, value, unit: false, x: middle - TICK / 2, y: at }
            } else {
                Label { kind: LabelKind::Tick, value, unit: false, x: at, y: middle + TICK / 2 }
            };
            ops.push(DrawOp::Measure(label));
        }
        assert(ops@ =~= old(ops)@ + self.tick_ops(i as int));
    }

    fn push_cursor(&self, ops: &mut Vec<DrawOp>)
        ensures
            final(ops)@ == old(ops)@ + self.cursor_ops(),
            labels_in_reach(old(ops)@) ==> labels_in_reach(final(ops)@),
    {
        let pixel: i64 = self.snapped_position();
        let far: i64 = (self.across() as i64) * PER_PIXEL;
        let middle: i64 = (self.across() as i64) * HALF_PIXEL;
        let at: i64 = pixel * PER_PIXEL + HALF_PIXEL;
        assert(i64::MIN <= pixel * self.scale_factor <= i64::MAX) by (nonlinear_arith)
            requires
                -0x8000_0009 <= pixel < 0x8000_0000,
                -0x8000_0000 <= self.scale_factor < 0x8000_0000,
        ;
        let value: i64 = pixel * (self.scale_factor as i64);
        if self.rotate.is_rotated() {
            ops.push(DrawOp::MoveTo { x: PER_PIXEL, y: at });
            ops.push(DrawOp::LineTo { x: far, y: at });
            ops.push(DrawOp::Stroke);
            ops.push(
                DrawOp::Measure(
                    Label { kind: LabelKind::CursorUpright, value, unit: true, x: middle, y: at },
                ),
            );
        } else {
            ops.push(DrawOp::MoveTo { x: at, y: PER_PIXEL });
            ops.push(DrawOp::LineTo { x: at, y: far });
            ops.push(DrawOp::Stroke);
            ops.push(
                DrawOp::Measure(
                    Label {
                        kind: LabelKind::Cursor,
                        value,
                        unit: true,
                        x: at + 2 * PER_PIXEL,
                        y: middle,
                    },
                ),
            );
        }
        assert(ops@ =~= old(ops)@ + self.cursor_ops());
    }

    /// Lists what the ruler is drawn with, see [`Rlr::ruler_ops`]. Every
    /// label in the list can be placed.
    pub fn draw_rlr(&self) -> (ops: Vec<DrawOp>)
        ensures
            ops@ == self.ruler_ops(),
            labels_in_reach(ops@),
    {
        let mut ops: Vec<DrawOp> = Vec::new();
        ops.push(DrawOp::SetSource(Ink::Secondary));
        ops.push(DrawOp::Paint);
        ops.push(DrawOp::SetLineWidth(HALF_PIXEL));
        ops.push(DrawOp::SelectFont);
        ops.push(DrawOp::SetSource(Ink::Primary));
        ops.push(DrawOp::Save);
        self.push_interval(&mut ops);
        ops.push(DrawOp::Restore);
        ops.push(DrawOp::SetLineWidth(PER_PIXEL));
        ops.push(DrawOp::SelectFont);
        let ghost head = ops@;
        assert(head =~= seq![
            DrawOp::SetSource(Ink::Secondary),
            DrawOp::Paint,
            DrawOp::SetLineWidth(HALF_PIXEL),
            DrawOp::SelectFont,
            DrawOp::SetSource(Ink::Primary),
            DrawOp::Save,
        ] + self.interval_ops() + seq![
            DrawOp::Restore,
            DrawOp::SetLineWidth(PER_PIXEL),
            DrawOp::SelectFont,
        ]);
        let length: i64 = self.axis() as i64;
        let mut i: i64 = 0;
        let mut count: u64 = 0;
        while i < length
            invariant
                length == self.axis_length(),
                i == 2 * count,
                length > 0 ==> i <= length + 1,
                count <= self.tick_count(),
                i >= length ==> count == self.tick_count(),
                ops@ == head + self.ticks_ops(count as nat),
                labels_in_reach(ops@),
            decreases length + 1 - i,
        {
            self.push_tick(&mut ops, i);
            i = i + 2;
            count = count + 1;
            assert(ops@ =~= head + self.ticks_ops(count as nat));
        }
        let ghost marked = ops@;
        self.push_cursor(&mut ops);
        ops.push(
            DrawOp::Rectangle {
                x: HALF_PIXEL,
                y: HALF_PIXEL,
                width: (self.width as i64) * PER_PIXEL - PER_PIXEL,
                height: (self.height as i64) * PER_PIXEL - PER_PIXEL,
            },
        );
        ops.push(DrawOp::Stroke);
        assert(ops@ =~= marked + self.cursor_ops() + self.border_ops());
        ops
    }
}

} // verus!
