//! The span that the user marks on the ruler with two clicks.

use vstd::prelude::*;
use crate::px::Px;

verus! {

/// A span along the ruler's long axis, as far as it has been marked.
///
/// The two ends are kept as they were clicked: `Full(a, b)` may have `b` before
/// `a`.
#[derive(Clone, Copy, Debug, PartialEq, Eq)]
pub enum Interval {
    /// Nothing is marked.
    Unmarked,
    /// The first end is marked and the second is awaited.
    Start(Px),
    /// Both ends are marked, in the order in which they were clicked.
    Full(Px, Px),
}

impl Interval {
    /// Whether the first end is marked and the second is awaited.
    pub fn is_start(&self) -> (r: bool)
        ensures
            r == (*self is Start),
    {
        match self {
            Interval::Start(_) => true,
            _ => false,
        }
    }

    /// The span after a double click at `at`: whatever was marked is dropped
    /// and `at` becomes the first end.
    pub open spec fn restarted(self, at: Px) -> Interval {
        Interval::Start(at)
    }

    /// The span after a single click at `at` while the second end is awaited.
    pub open spec fn completed(self, at: Px) -> Interval
        recommends
            self is Start,
    {
        Interval::Full(self->Start_0, at)
    }
}

} // verus!
