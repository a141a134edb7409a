//! Draw primitives: the shapes, paint styles and affine transform
//! stacks that describe one rendered frame.
//!
//! All lengths and coordinates are fixed-point milli-pixels (one
//! thousandth of a pixel), so that sub-pixel geometry such as star
//! sizes is carried exactly. Rotations are kept as exact fractions of
//! a full turn. A rasterizer outside the library converts both to its
//! own floating-point units.

use vstd::prelude::*;

verus! {

/// An RGBA colour. The alpha channel is in thousandths:
/// 0 is fully transparent, 1000 fully opaque.
#[derive(Clone, Copy, Debug, PartialEq, Eq, Structural)]
pub struct Color {
    pub red: u8,
    pub green: u8,
    pub blue: u8,
    pub alpha_milli: u16,
}

/// A shape in its local coordinate frame, in milli-pixels.
#[derive(Clone, Copy, Debug, PartialEq, Eq, Structural)]
pub enum Shape {
    /// An axis-aligned rectangle with top-left corner `(x, y)`.
    Rect { x_milli: i64, y_milli: i64, width_milli: i64, height_milli: i64 },
    /// A circle centred on `(x, y)`.
    Circle { center_x_milli: i64, center_y_milli: i64, radius_milli: i64 },
}

/// How a shape is painted.
#[derive(Clone, Copy, Debug, PartialEq, Eq, Structural)]
pub enum Style {
    /// Fill the interior with a colour.
    Fill { color: Color },
    /// Stroke the outline with a colour and a line width in milli-pixels.
    Stroke { color: Color, width_milli: i64 },
}

/// One step of an affine transform stack.
#[derive(Clone, Copy, Debug, PartialEq, Eq, Structural)]
pub enum TransformOp {
    /// Translate the local frame by `(dx, dy)` milli-pixels.
    Translate { dx_milli: i64, dy_milli: i64 },
    /// Rotate the local frame by the angle `2*pi * num / denom` radians.
    Rotate { num: u64, denom: u64 },
}

/// One draw primitive: a shape, the paint style for it, and the
/// transform stack from world space down to the shape's local frame,
/// applied from the first element to the last. A child frame extends
/// its parent's stack and never alters a sibling's.
#[derive(Clone, Debug, PartialEq)]
pub struct Primitive {
    pub transform: Vec<TransformOp>,
    pub shape: Shape,
    pub style: Style,
}

/// The mathematical value of a [`Primitive`].
#[verifier::ext_equal]
pub struct PrimitiveView {
    pub transform: Seq<TransformOp>,
    pub shape: Shape,
    pub style: Style,
}

impl View for Primitive {
    type V = PrimitiveView;

    open spec fn view(&self) -> PrimitiveView {
        PrimitiveView {
            transform: self.transform@,
            shape: self.shape,
            style: self.style,
        }
    }
}

/// The sequence of mathematical values of a sequence of primitives.
pub open spec fn prims_view(ps: Seq<Primitive>) -> Seq<PrimitiveView> {
    ps.map(|i: int, p: Primitive| p@)
}

impl Primitive {
    /// An exact copy: same transform stack, shape and style.
    pub fn duplicate(&self) -> (r: Primitive)
        ensures
            r@ == self@,
    {
        let mut ops: Vec<TransformOp> = Vec::new();
        let mut i: usize = 0;
        while i < self.transform.len()
            invariant
                i <= self.transform.len(),
                ops@ == self.transform@.take(i as int),
            decreases self.transform.len() - i,
        {
            ops.push(self.transform[i]);
            proof {
                assert(self.transform@.take(i as int).push(self.transform@[i as int])
                    =~= self.transform@.take(i + 1 as int));
            }
            i = i + 1;
        }
        proof {
            assert(self.transform@.take(self.transform@.len() as int) =~= self.transform@);
        }
        Primitive { transform: ops, shape: self.shape, style: self.style }
    }
}

/// An exact copy of a primitive sequence, element for element.
pub fn duplicate_prims(ps: &Vec<Primitive>) -> (r: Vec<Primitive>)
    ensures
        prims_view(r@) == prims_view(ps@),
{
    let mut r: Vec<Primitive> = Vec::new();
    let mut i: usize = 0;
    while i < ps.len()
        invariant
            i <= ps.len(),
            r@.len() == i,
            forall|j: int| 0 <= j < i ==> r@[j]@ == ps@[j]@,
        decreases ps.len() - i,
    {
        r.push(ps[i].duplicate());
        i = i + 1;
    }
    proof {
        assert(prims_view(r@) =~= prims_view(ps@));
    }
    r
}

} // verus!
