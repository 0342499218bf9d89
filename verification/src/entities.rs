//! Shared entity capabilities and the axis-aligned collision query.
//!
//! Every entity exposes a position, an axis-aligned bounding box derived on
//! demand from its center and extents, and a display color. The collision
//! query reports which face of the other box the subject penetrates and by
//! how much — the minimum-translation heuristic: of the four penetration
//! depths the shallowest axis wins, ties broken in the fixed order
//! left, right, top, bottom.

use vstd::prelude::*;
use crate::vector::Vector2d;

verus! {

/// Period, in milliseconds, at which entity ages wrap; a common multiple of
/// every pulse period in use, so wrapping never changes a sampled wave.
pub const PULSE_WRAP: i64 = 12_000;

/// Largest edge coordinate magnitude the collision query accepts; twice this
/// still fits comfortably in an `i64`.
pub const EDGE_LIMIT: i64 = 2_000_000_000_000;

/// Largest penetration depth the query can report.
pub const AMOUNT_LIMIT: i64 = 4_000_000_000_000;

/// Display color; channels are milli-scaled, 1000 for full intensity.
#[derive(Clone, Copy, Debug, PartialEq, Eq, Structural)]
pub struct Color {
    pub r: i64,
    pub g: i64,
    pub b: i64,
    pub a: i64,
}

/// Axis-aligned bounding box in milli-unit coordinates; `top` is the larger
/// `y` edge.
#[derive(Clone, Copy, Debug, PartialEq, Eq, Structural)]
pub struct BoundingBox {
    pub left: i64,
    pub right: i64,
    pub top: i64,
    pub bottom: i64,
}

/// The face of the *other* box that the subject penetrates.
#[derive(Clone, Copy, Debug, PartialEq, Eq, Structural)]
pub enum Side {
    Left,
    Right,
    Top,
    Bottom,
}

/// A reported overlap: the resolution side and the positive penetration
/// depth along it.
#[derive(Clone, Copy, Debug, PartialEq, Eq, Structural)]
pub struct Intersection {
    pub hit_side: Side,
    pub amount: i64,
}

/// The box around a center position with the given full extents.
pub open spec fn bb_from(pos: Vector2d, width: int, height: int) -> BoundingBox {
    BoundingBox {
        left: (pos.x - width / 2) as i64,
        right: (pos.x + width / 2) as i64,
        top: (pos.y + height / 2) as i64,
        bottom: (pos.y - height / 2) as i64,
    }
}

/// All edges of the box are within the query's accepted range.
pub open spec fn bb_in_range(bb: BoundingBox) -> bool {
    &&& -EDGE_LIMIT <= bb.left <= EDGE_LIMIT
    &&& -EDGE_LIMIT <= bb.right <= EDGE_LIMIT
    &&& -EDGE_LIMIT <= bb.top <= EDGE_LIMIT
    &&& -EDGE_LIMIT <= bb.bottom <= EDGE_LIMIT
}

/// The intersection query: the four penetration candidates must all be
/// strictly negative for an overlap; the greatest (least negative) one names
/// the resolution side, ties broken left, right, top, bottom; the reported
/// amount is the candidate negated.
pub open spec fn intersect(subject: BoundingBox, other: BoundingBox) -> Option<Intersection> {
    let left_c = subject.left - other.right;
    let right_c = other.left - subject.right;
    let top_c = other.bottom - subject.top;
    let bottom_c = subject.bottom - other.top;
    if left_c < 0 && right_c < 0 && top_c < 0 && bottom_c < 0 {
        if left_c >= right_c && left_c >= top_c && left_c >= bottom_c {
            Some(Intersection { hit_side: Side::Left, amount: (-left_c) as i64 })
        } else if right_c >= left_c && right_c >= top_c && right_c >= bottom_c {
            Some(Intersection { hit_side: Side::Right, amount: (-right_c) as i64 })
        } else if top_c >= left_c && top_c >= right_c && top_c >= bottom_c {
            Some(Intersection { hit_side: Side::Top, amount: (-top_c) as i64 })
        } else if bottom_c >= left_c && bottom_c >= top_c && bottom_c >= right_c {
            Some(Intersection { hit_side: Side::Bottom, amount: (-bottom_c) as i64 })
        } else {
            None
        }
    } else {
        None
    }
}

/// Computes the intersection query on machine integers.
pub fn check_intersection(subject: &BoundingBox, other: &BoundingBox) -> (r: Option<Intersection>)
    requires
        bb_in_range(*subject),
        bb_in_range(*other),
    ensures
        r == intersect(*subject, *other),
{
    let left_c = subject.left - other.right;
    let right_c = other.left - subject.right;
    let top_c = other.bottom - subject.top;
    let bottom_c = subject.bottom - other.top;
    if left_c < 0 && right_c < 0 && top_c < 0 && bottom_c < 0 {
        if left_c >= right_c && left_c >= top_c && left_c >= bottom_c {
            return Some(Intersection { hit_side: Side::Left, amount: -left_c });
        }
        if right_c >= left_c && right_c >= top_c && right_c >= bottom_c {
            return Some(Intersection { hit_side: Side::Right, amount: -right_c });
        }
        if top_c >= left_c && top_c >= right_c && top_c >= bottom_c {
            return Some(Intersection { hit_side: Side::Top, amount: -top_c });
        }
        if bottom_c >= left_c && bottom_c >= top_c && bottom_c >= right_c {
            return Some(Intersection { hit_side: Side::Bottom, amount: -bottom_c });
        }
    }
    None
}

/// Boxes separated on some axis never intersect.
pub proof fn lemma_separated_boxes_no_intersection(subject: BoundingBox, other: BoundingBox)
    requires
        subject.left >= other.right || other.left >= subject.right || other.bottom
            >= subject.top || subject.bottom >= other.top,
    ensures
        intersect(subject, other) is None,
{
}

/// Boxes whose four penetration candidates are all strictly negative always
/// get a reported intersection.
pub proof fn lemma_overlapping_boxes_intersect(subject: BoundingBox, other: BoundingBox)
    requires
        subject.left < other.right,
        other.left < subject.right,
        other.bottom < subject.top,
        subject.bottom < other.top,
    ensures
        intersect(subject, other) is Some,
{
}

/// The query is a function of the two boxes alone: asking twice about the
/// same non-moving boxes yields identical results.
pub proof fn lemma_intersection_query_stable(
    subject1: BoundingBox,
    other1: BoundingBox,
    subject2: BoundingBox,
    other2: BoundingBox,
)
    requires
        subject1 == subject2,
        other1 == other2,
    ensures
        intersect(subject1, other1) == intersect(subject2, other2),
{
}

/// A reported intersection has a positive amount, bounded by the edge range.
pub proof fn lemma_intersection_amount_bounds(subject: BoundingBox, other: BoundingBox)
    requires
        bb_in_range(subject),
        bb_in_range(other),
        intersect(subject, other) is Some,
    ensures
        0 < intersect(subject, other)->Some_0.amount <= AMOUNT_LIMIT,
{
}

/// An entity with a readable, writable position.
pub trait Position {
    /// Validity bounds the entity's fields so that its box derivation and
    /// motion arithmetic stay in machine range.
    spec fn inv(&self) -> bool;

    spec fn pos(&self) -> Vector2d;

    fn get_position(&self) -> (r: Vector2d)
        ensures
            r == self.pos(),
    ;

    fn set_x(&mut self, x: i64)
        ensures
            final(self).pos() == (Vector2d { x, y: old(self).pos().y }),
    ;

    fn set_y(&mut self, y: i64)
        ensures
            final(self).pos() == (Vector2d { x: old(self).pos().x, y }),
    ;
}

/// An entity that takes part in collision tests.
pub trait Collider: Position {
    spec fn bounding_box(&self) -> BoundingBox;

    fn get_bounding_box(&self) -> (r: BoundingBox)
        requires
            self.inv(),
        ensures
            r == self.bounding_box(),
            bb_in_range(r),
    ;
}

/// An entity the renderer can draw.
pub trait Drawable: Collider {
    spec fn color(&self) -> Color;

    fn get_color(&self) -> (r: Color)
        ensures
            r == self.color(),
    ;
}

} // verus!
