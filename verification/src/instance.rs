//! The instance record of one glyph quad, and how a glyph vertex becomes one.

use vstd::prelude::*;
use crate::geometry::{GlyphVertex, Point, Rect, Side, Span};
use crate::scalar::{deterministic, gives, total, Operation, Scalar};

verus! {

/// One glyph quad as the vertex shader reads it.
///
/// The corners are named for a target whose y axis points up: `left_top`
/// holds the least x and the greatest y, `right_bottom` the greatest x and the
/// least y, and the texture corners follow them. `left_top` carries the depth
/// as its third component.
#[derive(Clone, Copy, Debug)]
pub struct Instance {
    pub left_top: [Scalar; 3],
    pub right_bottom: [Scalar; 2],
    pub tex_left_top: [Scalar; 2],
    pub tex_right_bottom: [Scalar; 2],
    pub color: [Scalar; 4],
}

/// Whether `result` can come of `anchor op (extent(tex) * extent(clamped) /
/// extent(unclamped))`, the extent of a span being `hi - lo`, with every
/// operation done by `arithmetic`.
pub open spec fn rescales<A: Fn(Operation, Scalar, Scalar) -> Scalar>(
    arithmetic: A,
    op: Operation,
    anchor: Scalar,
    tex: Span,
    clamped: Span,
    unclamped: Span,
    result: Scalar,
) -> bool {
    exists|
        tex_extent: Scalar,
        new_extent: Scalar,
        old_extent: Scalar,
        product: Scalar,
        quotient: Scalar,
    |
        {
            &&& #[trigger] gives(arithmetic, Operation::Sub, tex.hi, tex.lo, tex_extent)
            &&& #[trigger] gives(arithmetic, Operation::Sub, clamped.hi, clamped.lo, new_extent)
            &&& #[trigger] gives(arithmetic, Operation::Sub, unclamped.hi, unclamped.lo, old_extent)
            &&& #[trigger] gives(arithmetic, Operation::Mul, tex_extent, new_extent, product)
            &&& #[trigger] gives(arithmetic, Operation::Div, product, old_extent, quotient)
            &&& gives(arithmetic, op, anchor, quotient, result)
        }
}

/// Whether clipping `rect` to `bounds` along one axis, and shrinking `tex` by
/// the same share, can give `out` and `out_tex`.
///
/// The upper end is clamped first. Where it was beyond the bound, the upper
/// end of `tex` is placed anew, counted from the lower end of `tex`. Then the
/// lower end is clamped, against the rectangle as the first step left it, and
/// the lower end of `tex` is counted from its upper end. An end that was
/// within the bound keeps its coordinate and its texture coordinate.
pub open spec fn clips<A: Fn(Operation, Scalar, Scalar) -> Scalar>(
    arithmetic: A,
    rect: Span,
    bounds: Span,
    tex: Span,
    out: Span,
    out_tex: Span,
) -> bool {
    &&& out.hi == if rect.hi.spec_gt(bounds.hi) {
        bounds.hi
    } else {
        rect.hi
    }
    &&& out.lo == if rect.lo.spec_lt(bounds.lo) {
        bounds.lo
    } else {
        rect.lo
    }
    &&& if rect.hi.spec_gt(bounds.hi) {
        rescales(
            arithmetic,
            Operation::Add,
            tex.lo,
            tex,
            Span { lo: rect.lo, hi: out.hi },
            rect,
            out_tex.hi,
        )
    } else {
        out_tex.hi == tex.hi
    }
    &&& if rect.lo.spec_lt(bounds.lo) {
        rescales(
            arithmetic,
            Operation::Sub,
            out_tex.hi,
            Span { lo: tex.lo, hi: out_tex.hi },
            out,
            Span { lo: rect.lo, hi: out.hi },
            out_tex.lo,
        )
    } else {
        out_tex.lo == tex.lo
    }
}

/// Whether `instance` can be what `vertex` is encoded as, with `arithmetic`
/// doing the operations: the pixel rectangle clipped to the bounds along x and
/// then along y, the texture rectangle shrunk with it, depth and colour taken
/// over.
pub open spec fn encodes<A: Fn(Operation, Scalar, Scalar) -> Scalar>(
    arithmetic: A,
    vertex: GlyphVertex,
    instance: Instance,
) -> bool {
    &&& clips(
        arithmetic,
        vertex.pixel_coords.spec_horizontal(),
        vertex.bounds.spec_horizontal(),
        vertex.tex_coords.spec_horizontal(),
        instance.screen_x(),
        instance.tex_x(),
    )
    &&& clips(
        arithmetic,
        vertex.pixel_coords.spec_vertical(),
        vertex.bounds.spec_vertical(),
        vertex.tex_coords.spec_vertical(),
        instance.screen_y(),
        instance.tex_y(),
    )
    &&& instance.left_top[2] == vertex.extra.depth
    &&& instance.color == vertex.extra.color
}

/// Does one operation.
fn apply<A: Fn(Operation, Scalar, Scalar) -> Scalar>(
    arithmetic: &A,
    op: Operation,
    a: Scalar,
    b: Scalar,
) -> (result: Scalar)
    requires
        total(*arithmetic),
    ensures
        gives(*arithmetic, op, a, b, result),
{
    arithmetic(op, a, b)
}

/// Places one end of the texture span anew after its side was clamped.
fn rescale<A: Fn(Operation, Scalar, Scalar) -> Scalar>(
    arithmetic: &A,
    op: Operation,
    anchor: Scalar,
    tex: Span,
    clamped: Span,
    unclamped: Span,
) -> (result: Scalar)
    requires
        total(*arithmetic),
    ensures
        rescales(*arithmetic, op, anchor, tex, clamped, unclamped, result),
{
    let old_extent = apply(arithmetic, Operation::Sub, unclamped.hi, unclamped.lo);
    let tex_extent = apply(arithmetic, Operation::Sub, tex.hi, tex.lo);
    let new_extent = apply(arithmetic, Operation::Sub, clamped.hi, clamped.lo);
    let product = apply(arithmetic, Operation::Mul, tex_extent, new_extent);
    let quotient = apply(arithmetic, Operation::Div, product, old_extent);
    apply(arithmetic, op, anchor, quotient)
}

/// Clips one axis of a glyph: first the upper end, then the lower.
fn clip_axis<A: Fn(Operation, Scalar, Scalar) -> Scalar>(
    arithmetic: &A,
    rect: Span,
    bounds: Span,
    tex: Span,
) -> (clipped: (Span, Span))
    requires
        total(*arithmetic),
    ensures
        clips(*arithmetic, rect, bounds, tex, clipped.0, clipped.1),
{
    let mut out = rect;
    let mut out_tex = tex;
    if out.hi.gt(bounds.hi) {
        let unclamped = out;
        out.hi = bounds.hi;
        out_tex.hi = rescale(arithmetic, Operation::Add, out_tex.lo, out_tex, out, unclamped);
    }
    if out.lo.lt(bounds.lo) {
        let unclamped = out;
        out.lo = bounds.lo;
        out_tex.lo = rescale(arithmetic, Operation::Sub, out_tex.hi, out_tex, out, unclamped);
    }
    (out, out_tex)
}

impl Instance {
    /// How many instances a new pipeline has room for.
    pub const INITIAL_AMOUNT: usize = 50_000;

    /// The quad's extent on the target along x.
    pub open spec fn screen_x(self) -> Span {
        Span { lo: self.left_top[0], hi: self.right_bottom[0] }
    }

    /// The quad's extent on the target along y.
    pub open spec fn screen_y(self) -> Span {
        Span { lo: self.right_bottom[1], hi: self.left_top[1] }
    }

    /// The quad's extent in the atlas along x.
    pub open spec fn tex_x(self) -> Span {
        Span { lo: self.tex_left_top[0], hi: self.tex_right_bottom[0] }
    }

    /// The quad's extent in the atlas along y.
    pub open spec fn tex_y(self) -> Span {
        Span { lo: self.tex_right_bottom[1], hi: self.tex_left_top[1] }
    }

    /// The quad's rectangle on the target.
    pub open spec fn screen(self) -> Rect {
        Rect {
            min: Point { x: self.left_top[0], y: self.right_bottom[1] },
            max: Point { x: self.right_bottom[0], y: self.left_top[1] },
        }
    }

    /// The quad's rectangle in the atlas.
    pub open spec fn tex(self) -> Rect {
        Rect {
            min: Point { x: self.tex_left_top[0], y: self.tex_right_bottom[1] },
            max: Point { x: self.tex_right_bottom[0], y: self.tex_left_top[1] },
        }
    }

    /// The instance that shows all of a glyph: its pixel and texture
    /// rectangles as they are, its depth and its colour.
    pub open spec fn verbatim(vertex: GlyphVertex) -> Instance {
        Instance {
            left_top: [vertex.pixel_coords.min.x, vertex.pixel_coords.max.y, vertex.extra.depth],
            right_bottom: [vertex.pixel_coords.max.x, vertex.pixel_coords.min.y],
            tex_left_top: [vertex.tex_coords.min.x, vertex.tex_coords.max.y],
            tex_right_bottom: [vertex.tex_coords.max.x, vertex.tex_coords.min.y],
            color: vertex.extra.color,
        }
    }

    /// Encodes one glyph as an instance, clipped to the glyph's bounds.
    ///
    /// The sides are clamped in the order max x, min x, max y, min y. A side
    /// that lay beyond the bounds ends on the bound, and the texture
    /// coordinate of that side is placed where the same share of the glyph's
    /// bitmap ends, counted from the opposite texture edge. `arithmetic` does
    /// the additions, subtractions, the multiplication and the division that
    /// this takes; it is not called for a glyph within its bounds.
    ///
    /// Only the side that lay beyond a bound moves. A glyph that lies wholly
    /// beyond one bound therefore keeps its far side: the quad ends on the
    /// bound and begins beyond it, with an extent below zero.
    pub fn from_vertex<A: Fn(Operation, Scalar, Scalar) -> Scalar>(
        vertex: GlyphVertex,
        arithmetic: A,
    ) -> (instance: Instance)
        requires
            total(arithmetic),
        ensures
            encodes(arithmetic, vertex, instance),
            vertex.bounds.contains(vertex.pixel_coords) ==> instance == Instance::verbatim(vertex),
            forall|side: Side| !#[trigger] instance.screen().exceeds(vertex.bounds, side),
    {
        let (x, u) = clip_axis(
            &arithmetic,
            vertex.pixel_coords.horizontal(),
            vertex.bounds.horizontal(),
            vertex.tex_coords.horizontal(),
        );
        let (y, v) = clip_axis(
            &arithmetic,
            vertex.pixel_coords.vertical(),
            vertex.bounds.vertical(),
            vertex.tex_coords.vertical(),
        );
        Instance {
            left_top: [x.lo, y.hi, vertex.extra.depth],
            right_bottom: [x.hi, y.lo],
            tex_left_top: [u.lo, v.hi],
            tex_right_bottom: [u.hi, v.lo],
            color: vertex.extra.color,
        }
    }
}

/// A glyph that lies within its bounds is shown whole: no side is clamped, no
/// texture coordinate moves, and `arithmetic` has no part in the result.
pub proof fn contained_glyph_is_verbatim<A: Fn(Operation, Scalar, Scalar) -> Scalar>(
    arithmetic: A,
    vertex: GlyphVertex,
    instance: Instance,
)
    requires
        vertex.bounds.contains(vertex.pixel_coords),
        encodes(arithmetic, vertex, instance),
    ensures
        instance.screen() == vertex.pixel_coords,
        instance.tex() == vertex.tex_coords,
        instance == Instance::verbatim(vertex),
{
    assert(instance.left_top =~= Instance::verbatim(vertex).left_top);
    assert(instance.right_bottom =~= Instance::verbatim(vertex).right_bottom);
    assert(instance.tex_left_top =~= Instance::verbatim(vertex).tex_left_top);
    assert(instance.tex_right_bottom =~= Instance::verbatim(vertex).tex_right_bottom);
}

/// No side of an encoded quad lies beyond the glyph's bounds.
pub proof fn encoded_quad_is_within_bounds<A: Fn(Operation, Scalar, Scalar) -> Scalar>(
    arithmetic: A,
    vertex: GlyphVertex,
    instance: Instance,
)
    requires
        encodes(arithmetic, vertex, instance),
    ensures
        forall|side: Side| !#[trigger] instance.screen().exceeds(vertex.bounds, side),
{
}

/// Along an axis on which a glyph lies wholly beyond the upper bound, the
/// quad ends on the bound and keeps the glyph's lower end, which lies beyond
/// it. Wholly beyond the lower bound, the quad begins on the bound and keeps
/// the glyph's upper end, which lies before it.
pub proof fn glyph_beyond_a_bound_keeps_its_far_end<A: Fn(Operation, Scalar, Scalar) -> Scalar>(
    arithmetic: A,
    rect: Span,
    bounds: Span,
    tex: Span,
    out: Span,
    out_tex: Span,
)
    requires
        clips(arithmetic, rect, bounds, tex, out, out_tex),
        bounds.lo.spec_le(bounds.hi),
        rect.lo.spec_le(rect.hi),
    ensures
        rect.lo.spec_gt(bounds.hi) ==> out.hi == bounds.hi && out.lo == rect.lo && out.lo.spec_gt(
            out.hi,
        ),
        rect.hi.spec_lt(bounds.lo) ==> out.lo == bounds.lo && out.hi == rect.hi && out.lo.spec_gt(
            out.hi,
        ),
{
}

/// A glyph that leaves its bounds on one side only is clamped on that side
/// and nowhere else. The texture coordinate of the opposite side, and both of
/// the other axis, stay as they were. The texture coordinate of the clamped
/// side is the opposite one plus (for an upper side) or minus (for a lower
/// side) the texture extent times the clamped pixel extent over the pixel
/// extent before clamping.
pub proof fn one_side_clipped<A: Fn(Operation, Scalar, Scalar) -> Scalar>(
    arithmetic: A,
    vertex: GlyphVertex,
    instance: Instance,
    side: Side,
)
    requires
        vertex.pixel_coords.exceeds_only(vertex.bounds, side),
        encodes(arithmetic, vertex, instance),
    ensures
        instance.screen().edge(side) == vertex.bounds.edge(side),
        forall|other: Side|
            other != side ==> #[trigger] instance.screen().edge(other)
                == vertex.pixel_coords.edge(other),
        forall|other: Side|
            other != side ==> #[trigger] instance.tex().edge(other) == vertex.tex_coords.edge(
                other,
            ),
        rescales(
            arithmetic,
            if side.is_upper() {
                Operation::Add
            } else {
                Operation::Sub
            },
            vertex.tex_coords.edge(side.opposite()),
            vertex.tex_coords.along(side),
            instance.screen().along(side),
            vertex.pixel_coords.along(side),
            instance.tex().edge(side),
        ),
{
    let pixel = vertex.pixel_coords;
    assert(pixel.exceeds(vertex.bounds, Side::MaxX) <==> Side::MaxX == side);
    assert(pixel.exceeds(vertex.bounds, Side::MinX) <==> Side::MinX == side);
    assert(pixel.exceeds(vertex.bounds, Side::MaxY) <==> Side::MaxY == side);
    assert(pixel.exceeds(vertex.bounds, Side::MinY) <==> Side::MinY == side);
}

/// Encoding is a function of the glyph wherever the arithmetic is one: two
/// encodings of one glyph are the same instance.
pub proof fn encoding_is_repeatable<A: Fn(Operation, Scalar, Scalar) -> Scalar>(
    arithmetic: A,
    vertex: GlyphVertex,
    first: Instance,
    second: Instance,
)
    requires
        deterministic(arithmetic),
        encodes(arithmetic, vertex, first),
        encodes(arithmetic, vertex, second),
    ensures
        first == second,
{
    assert(first.left_top =~= second.left_top);
    assert(first.right_bottom =~= second.right_bottom);
    assert(first.tex_left_top =~= second.tex_left_top);
    assert(first.tex_right_bottom =~= second.tex_right_bottom);
}

} // verus!
