//! The four ways one output can sit relative to another.

use vstd::prelude::*;

verus! {

/// Where an output sits relative to the output it is placed against.
#[derive(Copy, Clone, PartialEq, Eq, Structural, Debug)]
pub enum Orientation {
    Above,
    Below,
    Left,
    Right,
}

impl Orientation {
    /// The orientation seen from the other output: if `a` is above `b`, then `b`
    /// is below `a`.
    pub open spec fn opposite(self) -> Orientation {
        match self {
            Orientation::Above => Orientation::Below,
            Orientation::Below => Orientation::Above,
            Orientation::Left => Orientation::Right,
            Orientation::Right => Orientation::Left,
        }
    }

    /// Whether the two outputs are stacked vertically, so that the cross axis
    /// is the horizontal one.
    pub open spec fn is_vertical(self) -> bool {
        self == Orientation::Above || self == Orientation::Below
    }
}

} // verus!
