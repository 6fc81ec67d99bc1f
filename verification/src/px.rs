//! Positions and lengths finer than a pixel, held as whole numbers.

use vstd::prelude::*;

verus! {

/// The number of steps that one pixel is divided into.
pub const PER_PIXEL: i64 = 1000;

/// Half a pixel, in thousandths.
pub const HALF_PIXEL: i64 = 500;

/// The smallest value a [`Px`] holds, in thousandths: the first thousandth of
/// the lowest pixel that an `i32` numbers.
pub const PX_MIN: i64 = -2_147_483_648_000;

/// The largest value a [`Px`] holds, in thousandths: the last thousandth of
/// the highest pixel that an `i32` numbers.
pub const PX_MAX: i64 = 2_147_483_647_999;

/// A coordinate or a length in thousandths of a pixel.
///
/// Pointer events and text measurements arrive with a fractional part. A `Px`
/// keeps three decimal places of it, so that the half-pixel offsets which make
/// one-pixel lines sharp are exact. The pixel it lies in always has a number
/// that fits an `i32`.
#[derive(Clone, Copy, Debug, PartialEq, Eq)]
pub struct Px {
    milli: i64,
}

impl View for Px {
    type V = int;

    /// The value in thousandths of a pixel.
    closed spec fn view(&self) -> int {
        self.milli as int
    }
}

/// The pixel that a position given in thousandths lies in.
pub open spec fn whole_pixel(milli: int) -> int {
    milli / (PER_PIXEL as int)
}

/// The pixel a position is shown at: its own pixel where `precision` is set,
/// else the last multiple of ten at or below it.
pub open spec fn snapped_pixel(milli: int, precision: bool) -> int {
    if precision {
        whole_pixel(milli)
    } else {
        (whole_pixel(milli) / 10) * 10
    }
}

impl Px {
    #[verifier::type_invariant]
    spec fn in_range(self) -> bool {
        PX_MIN <= self.milli <= PX_MAX
    }

    /// The position `milli` thousandths of a pixel from the origin. It is
    /// meant for `milli` from [`PX_MIN`] to [`PX_MAX`], see [`Px::lemma_at`].
    pub closed spec fn at(milli: int) -> Px {
        Px { milli: milli as i64 }
    }

    /// Within the range of a `Px`, `at` gives the position asked for.
    pub proof fn lemma_at(milli: int)
        requires
            PX_MIN <= milli <= PX_MAX,
        ensures
            Px::at(milli)@ == milli,
    {
    }

    /// Two positions with the same number of thousandths are the same.
    pub proof fn lemma_same_view(a: Px, b: Px)
        requires
            a@ == b@,
        ensures
            a == b,
    {
    }

    /// The start of pixel `pixels`.
    pub fn from_pixels(pixels: i32) -> (px: Px)
        ensures
            px == Px::at(pixels * PER_PIXEL),
            px@ == pixels * PER_PIXEL,
    {
        let wide: i64 = pixels as i64;
        Px { milli: wide * PER_PIXEL }
    }

    /// The position `milli` thousandths of a pixel from the origin, if its
    /// pixel has a number that fits an `i32`.
    pub fn from_milli(milli: i64) -> (px: Option<Px>)
        ensures
            px == (if PX_MIN <= milli <= PX_MAX {
                Some(Px::at(milli as int))
            } else {
                None
            }),
            px matches Some(p) ==> p@ == milli,
    {
        if PX_MIN <= milli && milli <= PX_MAX {
            Some(Px { milli })
        } else {
            None
        }
    }

    /// The value in thousandths of a pixel.
    pub fn milli(self) -> (m: i64)
        ensures
            m == self@,
            PX_MIN <= m <= PX_MAX,
    {
        proof {
            use_type_invariant(self);
        }
        self.milli
    }

    /// The number of the pixel this position lies in.
    pub fn floor(self) -> (pixel: i32)
        ensures
            pixel == whole_pixel(self@),
    {
        proof {
            use_type_invariant(self);
        }
        let quotient: i64 = self.milli / PER_PIXEL;
        let pixel: i64 = if self.milli % PER_PIXEL < 0 {
            quotient - 1
        } else {
            quotient
        };
        pixel as i32
    }

    /// The pixel this position is shown at, see [`snapped_pixel`].
    pub fn snap(self, precision: bool) -> (pixel: i64)
        ensures
            pixel == snapped_pixel(self@, precision),
            i32::MIN - 9 <= pixel <= i32::MAX,
    {
        let whole: i64 = self.floor() as i64;
        if precision {
            whole
        } else {
            let tens: i64 = if whole % 10 < 0 {
                whole / 10 - 1
            } else {
                whole / 10
            };
            tens * 10
        }
    }
}

/// The pixel shown for a position holds it where measurements are precise.
/// Where they are coarse it is the last multiple of ten that is not past the
/// position's own pixel.
pub proof fn lemma_snapped_pixel(milli: int, precision: bool)
    ensures
        precision ==> snapped_pixel(milli, precision) * PER_PIXEL <= milli < (snapped_pixel(
            milli,
            precision,
        ) + 1) * PER_PIXEL,
        !precision ==> snapped_pixel(milli, precision) % 10 == 0,
        !precision ==> snapped_pixel(milli, precision) <= whole_pixel(milli) < snapped_pixel(
            milli,
            precision,
        ) + 10,
{
}

} // verus!
