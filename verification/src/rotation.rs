//! The four orientations of the ruler and the steps between them.

use vstd::prelude::*;

verus! {

/// Where the ruler's scale runs to, seen from its origin.
///
/// `E` is the resting orientation: the scale runs left to right along a wide
/// window. Each quarter turn clockwise gives the next one: `S` runs top to
/// bottom, `W` right to left, `N` bottom to top.
#[derive(Clone, Copy, Debug, PartialEq, Eq, Structural)]
pub enum Rotation {
    E,
    S,
    W,
    N,
}

impl Rotation {
    /// The orientation a quarter turn clockwise from this one.
    pub open spec fn successor(self) -> Rotation {
        match self {
            Rotation::E => Rotation::S,
            Rotation::S => Rotation::W,
            Rotation::W => Rotation::N,
            Rotation::N => Rotation::E,
        }
    }

    /// What a quarter turn away from this orientation asks of the window's
    /// anchor, as (horizontal, vertical), or `None` where the anchor stays.
    pub open spec fn anchor_shift(self) -> Option<(Option<bool>, Option<bool>)> {
        match self {
            Rotation::E => None,
            Rotation::S => Some((Some(false), None)),
            Rotation::W => Some((Some(true), Some(false))),
            Rotation::N => Some((None, Some(true))),
        }
    }

    /// Whether the long axis is vertical.
    pub open spec fn rotated(self) -> bool {
        self == Rotation::S || self == Rotation::N
    }

    /// Whether the scale runs against the direction of the coordinates.
    pub open spec fn reversed(self) -> bool {
        self == Rotation::W || self == Rotation::N
    }

    /// The orientation with the same long axis and the opposite direction.
    pub open spec fn mirrored(self) -> Rotation {
        self.successor().successor()
    }

    pub fn is_rotated(self) -> (r: bool)
        ensures
            r == self.rotated(),
    {
        match self {
            Rotation::E | Rotation::W => false,
            Rotation::S | Rotation::N => true,
        }
    }

    pub fn is_reversed(self) -> (r: bool)
        ensures
            r == self.reversed(),
    {
        match self {
            Rotation::E | Rotation::S => false,
            Rotation::W | Rotation::N => true,
        }
    }

    /// Turns a quarter clockwise and reports how the window's anchor has to
    /// move so that the same physical corner stays in place.
    pub fn next(&mut self) -> (shift: Option<(Option<bool>, Option<bool>)>)
        ensures
            *final(self) == old(self).successor(),
            shift == old(self).anchor_shift(),
    {
        let (turned, shift) = match *self {
            Rotation::E => (Rotation::S, None),
            Rotation::S => (Rotation::W, Some((Some(false), None))),
            Rotation::W => (Rotation::N, Some((Some(true), Some(false)))),
            Rotation::N => (Rotation::E, Some((None, Some(true)))),
        };
        *self = turned;
        shift
    }

    /// Mirrors the scale: two quarter turns, the anchor left alone.
    pub fn flip(&mut self)
        ensures
            *final(self) == old(self).mirrored(),
    {
        let _ = self.next();
        let _ = self.next();
    }
}

/// Four quarter turns bring every orientation back to itself.
pub proof fn lemma_four_turns_identity(r: Rotation)
    ensures
        r.successor().successor().successor().successor() == r,
{
}

/// Mirroring keeps the long axis and reverses the direction, and mirroring
/// twice changes nothing.
pub proof fn lemma_mirror(r: Rotation)
    ensures
        r.mirrored().rotated() == r.rotated(),
        r.mirrored().reversed() == !r.reversed(),
        r.mirrored().mirrored() == r,
{
}

/// The two predicates are independent: each of the four combinations of
/// "rotated" and "reversed" belongs to exactly one orientation.
pub proof fn lemma_orientation_by_predicates(a: Rotation, b: Rotation)
    ensures
        (a.rotated() == b.rotated() && a.reversed() == b.reversed()) <==> a == b,
        Rotation::E.rotated() == false && Rotation::E.reversed() == false,
        Rotation::S.rotated() == true && Rotation::S.reversed() == false,
        Rotation::W.rotated() == false && Rotation::W.reversed() == true,
        Rotation::N.rotated() == true && Rotation::N.reversed() == true,
{
}

} // verus!
