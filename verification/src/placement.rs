//! The mathematical model of a placement.
//!
//! A display is modelled by its name, the position of its top-left corner and
//! its size, all as unbounded integers. [`placed`] says where two displays go
//! for a given orientation; the laws further down state what that layout
//! guarantees.

use vstd::prelude::*;
use crate::orientation::Orientation;

verus! {

/// The model of a display: its name and its rectangle in the compositor's
/// global coordinate space.
pub struct DisplayView {
    pub name: Seq<char>,
    pub x: int,
    pub y: int,
    pub width: int,
    pub height: int,
}

impl DisplayView {
    /// The same display with its top-left corner at `(x, y)`.
    pub open spec fn at(self, x: int, y: int) -> DisplayView {
        DisplayView { x, y, ..self }
    }

    /// A display is well formed when it covers at least one pixel.
    pub open spec fn wf(self) -> bool {
        self.width > 0 && self.height > 0
    }
}

/// How far an extent of `own` pixels is shifted along the cross axis to be
/// centered against an extent of `against` pixels: half the difference where
/// `own` is the smaller one, nothing otherwise.
pub open spec fn centering_offset(own: int, against: int) -> int {
    if own < against {
        (against - own) / 2
    } else {
        0
    }
}

/// Where `a` and `b` go when `a` is placed `orientation` of `b`.
///
/// The pair holds `a` first and `b` second. Only the positions change; the
/// positions the two displays had before play no part.
pub open spec fn placed(a: DisplayView, orientation: Orientation, b: DisplayView) -> (
    DisplayView,
    DisplayView,
) {
    let a_x = centering_offset(a.width, b.width);
    let b_x = centering_offset(b.width, a.width);
    let a_y = centering_offset(a.height, b.height);
    let b_y = centering_offset(b.height, a.height);
    match orientation {
        Orientation::Above => (a.at(a_x, 0), b.at(b_x, a.height)),
        Orientation::Below => (a.at(a_x, b.height), b.at(b_x, 0)),
        Orientation::Left => (a.at(0, a_y), b.at(a.width, b_y)),
        Orientation::Right => (a.at(b.width, a_y), b.at(0, b_y)),
    }
}

/// The coordinate of `d` along the cross axis of `orientation`: the axis on
/// which the two displays are centered against each other.
pub open spec fn cross_position(d: DisplayView, orientation: Orientation) -> int {
    if orientation.is_vertical() {
        d.x
    } else {
        d.y
    }
}

/// The extent of `d` along the cross axis of `orientation`.
pub open spec fn cross_extent(d: DisplayView, orientation: Orientation) -> int {
    if orientation.is_vertical() {
        d.width
    } else {
        d.height
    }
}

/// Whether the rectangles of `a` and `b` share a pixel.
pub open spec fn overlap(a: DisplayView, b: DisplayView) -> bool {
    &&& a.x < b.x + b.width
    &&& b.x < a.x + a.width
    &&& a.y < b.y + b.height
    &&& b.y < a.y + a.height
}

/// A placement changes positions only: each display keeps its name and its
/// size, so a well-formed display stays well formed.
pub proof fn lemma_placed_keeps_name_and_size(
    a: DisplayView,
    orientation: Orientation,
    b: DisplayView,
)
    ensures
        placed(a, orientation, b).0 == a.at(
            placed(a, orientation, b).0.x,
            placed(a, orientation, b).0.y,
        ),
        placed(a, orientation, b).1 == b.at(
            placed(a, orientation, b).1.x,
            placed(a, orientation, b).1.y,
        ),
        a.wf() ==> placed(a, orientation, b).0.wf(),
        b.wf() ==> placed(a, orientation, b).1.wf(),
{
}

/// Two displays of the same width and height need no centering: whatever the
/// orientation, both end up at cross-axis coordinate 0.
pub proof fn lemma_equal_sizes_have_no_cross_offset(
    a: DisplayView,
    orientation: Orientation,
    b: DisplayView,
)
    requires
        a.width == b.width,
        a.height == b.height,
    ensures
        cross_position(placed(a, orientation, b).0, orientation) == 0,
        cross_position(placed(a, orientation, b).1, orientation) == 0,
{
}

/// Placing `a` `orientation` of `b` gives the same layout as placing `b` on the
/// opposite side of `a`: each display gets the same position either way, and so
/// the offset of one from the other is the same too.
pub proof fn lemma_placed_mirror(a: DisplayView, orientation: Orientation, b: DisplayView)
    ensures
        placed(a, orientation, b).0 == placed(b, orientation.opposite(), a).1,
        placed(a, orientation, b).1 == placed(b, orientation.opposite(), a).0,
        placed(a, orientation, b).0.x - placed(a, orientation, b).1.x == placed(
            b,
            orientation.opposite(),
            a,
        ).1.x - placed(b, orientation.opposite(), a).0.x,
        placed(a, orientation, b).0.y - placed(a, orientation, b).1.y == placed(
            b,
            orientation.opposite(),
            a,
        ).1.y - placed(b, orientation.opposite(), a).0.y,
{
}

/// The two displays touch on the main axis. The one that comes first starts at
/// coordinate 0 and the other starts exactly where the first ends, so there is
/// no gap between them; and whatever their sizes, they share no pixel.
pub proof fn lemma_placed_no_gap(a: DisplayView, orientation: Orientation, b: DisplayView)
    ensures
        ({
            let (pa, pb) = placed(a, orientation, b);
            match orientation {
                Orientation::Above => pa.y == 0 && pb.y - pa.height == 0,
                Orientation::Below => pb.y == 0 && pa.y - pb.height == 0,
                Orientation::Left => pa.x == 0 && pb.x - pa.width == 0,
                Orientation::Right => pb.x == 0 && pa.x - pb.width == 0,
            }
        }),
        !overlap(placed(a, orientation, b).0, placed(a, orientation, b).1),
{
}

/// On the cross axis the smaller display lies within the span of the larger
/// one, which starts at coordinate 0. The margin before the smaller display and
/// the margin after it differ by at most one pixel, and where they differ the
/// margin towards the origin is the smaller one.
pub proof fn lemma_placed_centered(a: DisplayView, orientation: Orientation, b: DisplayView)
    ensures
        ({
            let (pa, pb) = placed(a, orientation, b);
            let (small, large) = if cross_extent(a, orientation) <= cross_extent(b, orientation) {
                (pa, pb)
            } else {
                (pb, pa)
            };
            let before = cross_position(small, orientation) - cross_position(large, orientation);
            let after = (cross_position(large, orientation) + cross_extent(large, orientation))
                - (cross_position(small, orientation) + cross_extent(small, orientation));
            &&& cross_position(large, orientation) == 0
            &&& 0 <= before <= after <= before + 1
        }),
{
}

/// A placement does not depend on where the two displays were before, so
/// placing again what has just been placed changes nothing.
pub proof fn lemma_placed_idempotent(a: DisplayView, orientation: Orientation, b: DisplayView)
    ensures
        forall|ax: int, ay: int, bx: int, by: int|
            placed(#[trigger] a.at(ax, ay), orientation, #[trigger] b.at(bx, by)) == placed(
                a,
                orientation,
                b,
            ),
        placed(placed(a, orientation, b).0, orientation, placed(a, orientation, b).1) == placed(
            a,
            orientation,
            b,
        ),
{
}

} // verus!
