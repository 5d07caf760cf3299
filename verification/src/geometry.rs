//! Points, rectangles and the glyph vertex that a text layout hands over.

use vstd::prelude::*;
use crate::scalar::Scalar;

verus! {

/// A point in pixel space or in texture space.
#[derive(Clone, Copy, Debug, PartialEq, Eq, Structural)]
pub struct Point {
    pub x: Scalar,
    pub y: Scalar,
}

/// The stretch of one axis that a rectangle covers, from `lo` up to `hi`.
#[derive(Clone, Copy, Debug, PartialEq, Eq, Structural)]
pub struct Span {
    pub lo: Scalar,
    pub hi: Scalar,
}

/// An axis-aligned rectangle between its corners `min` and `max`.
#[derive(Clone, Copy, Debug, PartialEq, Eq, Structural)]
pub struct Rect {
    pub min: Point,
    pub max: Point,
}

/// A scissor rectangle, in whole pixels of the target.
#[derive(Clone, Copy, Debug, PartialEq, Eq, Structural)]
pub struct Region {
    pub x: u32,
    pub y: u32,
    pub width: u32,
    pub height: u32,
}

/// One of the four sides of a rectangle, in the order in which a glyph is
/// clipped.
#[derive(Clone, Copy, Debug, PartialEq, Eq, Structural)]
pub enum Side {
    MaxX,
    MinX,
    MaxY,
    MinY,
}

/// What a glyph carries besides its geometry.
#[derive(Clone, Copy, Debug)]
pub struct Extra {
    pub depth: Scalar,
    pub color: [Scalar; 4],
}

/// One laid-out glyph: where its bitmap lies in the atlas, where it goes on
/// the target, and the rectangle that it must not leave.
#[derive(Clone, Copy, Debug)]
pub struct GlyphVertex {
    pub tex_coords: Rect,
    pub pixel_coords: Rect,
    pub bounds: Rect,
    pub extra: Extra,
}

impl Span {
    /// Whether `inner` lies within this span, ends included.
    pub open spec fn contains(self, inner: Span) -> bool {
        self.lo.spec_le(inner.lo) && inner.hi.spec_le(self.hi)
    }
}

impl Side {
    /// The side across the rectangle.
    pub open spec fn opposite(self) -> Side {
        match self {
            Side::MaxX => Side::MinX,
            Side::MinX => Side::MaxX,
            Side::MaxY => Side::MinY,
            Side::MinY => Side::MaxY,
        }
    }

    /// Whether the side is the upper end of its axis.
    pub open spec fn is_upper(self) -> bool {
        self == Side::MaxX || self == Side::MaxY
    }
}

impl Rect {
    /// The coordinate at which a side lies.
    pub open spec fn edge(self, side: Side) -> Scalar {
        match side {
            Side::MaxX => self.max.x,
            Side::MinX => self.min.x,
            Side::MaxY => self.max.y,
            Side::MinY => self.min.y,
        }
    }

    /// The rectangle's extent along the axis that a side belongs to.
    pub open spec fn along(self, side: Side) -> Span {
        match side {
            Side::MaxX | Side::MinX => self.spec_horizontal(),
            Side::MaxY | Side::MinY => self.spec_vertical(),
        }
    }

    /// Whether a side of this rectangle lies beyond the same side of
    /// `bounds`.
    pub open spec fn exceeds(self, bounds: Rect, side: Side) -> bool {
        if side.is_upper() {
            self.edge(side).spec_gt(bounds.edge(side))
        } else {
            self.edge(side).spec_lt(bounds.edge(side))
        }
    }

    /// Whether `side` is the one side of this rectangle that lies beyond
    /// `bounds`.
    pub open spec fn exceeds_only(self, bounds: Rect, side: Side) -> bool {
        forall|other: Side| #[trigger] self.exceeds(bounds, other) <==> other == side
    }

    /// The rectangle's extent along x.
    pub open spec fn spec_horizontal(self) -> Span {
        Span { lo: self.min.x, hi: self.max.x }
    }

    /// The rectangle's extent along y.
    pub open spec fn spec_vertical(self) -> Span {
        Span { lo: self.min.y, hi: self.max.y }
    }

    /// Whether `inner` lies within this rectangle, edges included.
    pub open spec fn contains(self, inner: Rect) -> bool {
        self.spec_horizontal().contains(inner.spec_horizontal()) && self.spec_vertical().contains(
            inner.spec_vertical(),
        )
    }

    /// The rectangle's extent along x.
    #[verifier::when_used_as_spec(spec_horizontal)]
    pub fn horizontal(self) -> (span: Span)
        ensures
            span == self.spec_horizontal(),
    {
        Span { lo: self.min.x, hi: self.max.x }
    }

    /// The rectangle's extent along y.
    #[verifier::when_used_as_spec(spec_vertical)]
    pub fn vertical(self) -> (span: Span)
        ensures
            span == self.spec_vertical(),
    {
        Span { lo: self.min.y, hi: self.max.y }
    }
}

} // verus!
