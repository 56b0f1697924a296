//! Plain geometry values: points, sizes, rectangles and affine transforms.
//!
//! Coordinates are modelled as 64-bit integer units. The transform of a
//! point is stated exactly over mathematical integers; the executable
//! function is proved to compute it whenever the result fits the machine
//! representation.

use vstd::prelude::*;

verus! {

/// A point in the plane.
#[derive(Clone, Copy, PartialEq, Eq, Structural, Debug)]
pub struct CGPoint {
    pub x: i64,
    pub y: i64,
}

impl CGPoint {
    pub fn new(x: i64, y: i64) -> (p: CGPoint)
        ensures
            p.x == x,
            p.y == y,
    {
        CGPoint { x, y }
    }
}

/// Extent of a rectangle.
#[derive(Clone, Copy, PartialEq, Eq, Structural, Debug)]
pub struct CGSize {
    pub width: i64,
    pub height: i64,
}

/// An axis-aligned rectangle, given by one corner and its extent.
#[derive(Clone, Copy, PartialEq, Eq, Structural, Debug)]
pub struct CGRect {
    pub origin: CGPoint,
    pub size: CGSize,
}

/// A 2D affine transform: `(x, y)` maps to
/// `(a*x + c*y + tx, b*x + d*y + ty)`.
#[derive(Clone, Copy, PartialEq, Eq, Structural, Debug)]
pub struct CGAffineTransform {
    pub a: i64,
    pub b: i64,
    pub c: i64,
    pub d: i64,
    pub tx: i64,
    pub ty: i64,
}

/// The x coordinate of the image of `(x, y)` under `t`, over mathematical
/// integers.
pub open spec fn transformed_x(t: CGAffineTransform, x: int, y: int) -> int {
    t.a * x + t.c * y + t.tx
}

/// The y coordinate of the image of `(x, y)` under `t`, over mathematical
/// integers.
pub open spec fn transformed_y(t: CGAffineTransform, x: int, y: int) -> int {
    t.b * x + t.d * y + t.ty
}

/// Whether a mathematical integer fits the machine coordinate type.
pub open spec fn in_i64(v: int) -> bool {
    i64::MIN <= v <= i64::MAX
}

proof fn lemma_i64_product_bounded(a: int, x: int)
    requires
        i64::MIN <= a <= i64::MAX,
        i64::MIN <= x <= i64::MAX,
    ensures
        -(0x40000000000000000000000000000000) <= a * x
            <= 0x40000000000000000000000000000000,
{
    assert(-(0x40000000000000000000000000000000) <= a * x
        <= 0x40000000000000000000000000000000) by (nonlinear_arith)
        requires
            -(0x8000000000000000) <= a <= 0x7fffffffffffffff,
            -(0x8000000000000000) <= x <= 0x7fffffffffffffff,
    ;
}

impl CGAffineTransform {
    /// The identity transform, which maps every point to itself.
    pub fn identity() -> (t: CGAffineTransform)
        ensures
            forall|x: int, y: int| transformed_x(t, x, y) == x,
            forall|x: int, y: int| transformed_y(t, x, y) == y,
    {
        let t = CGAffineTransform { a: 1, b: 0, c: 0, d: 1, tx: 0, ty: 0 };
        assert forall|x: int, y: int| transformed_x(t, x, y) == x by {
            assert(1 * x + 0 * y + 0 == x) by (nonlinear_arith);
        }
        assert forall|x: int, y: int| transformed_y(t, x, y) == y by {
            assert(0 * x + 1 * y + 0 == y) by (nonlinear_arith);
        }
        t
    }

    /// Applies the transform to a point. The result must fit the machine
    /// coordinate range.
    pub fn apply_to_point(&self, p: CGPoint) -> (q: CGPoint)
        requires
            in_i64(transformed_x(*self, p.x as int, p.y as int)),
            in_i64(transformed_y(*self, p.x as int, p.y as int)),
        ensures
            q.x as int == transformed_x(*self, p.x as int, p.y as int),
            q.y as int == transformed_y(*self, p.x as int, p.y as int),
    {
        proof {
            lemma_i64_product_bounded(self.a as int, p.x as int);
            lemma_i64_product_bounded(self.c as int, p.y as int);
            lemma_i64_product_bounded(self.b as int, p.x as int);
            lemma_i64_product_bounded(self.d as int, p.y as int);
        }
        let qx: i128 = (self.a as i128) * (p.x as i128) + (self.c as i128) * (p.y as i128)
            + (self.tx as i128);
        let qy: i128 = (self.b as i128) * (p.x as i128) + (self.d as i128) * (p.y as i128)
            + (self.ty as i128);
        CGPoint { x: qx as i64, y: qy as i64 }
    }
}

} // verus!
