//! The render adapter: a pure mapping from a curve's fixed-point
//! coordinates into a target screen rectangle, and the drawable frame for
//! the curve under a bank's cursor.
//!
//! A node `(x, y)` lands at `px = rect.x + rect.w * x / SCALE` and
//! `py = rect.y + rect.h * (SCALE - y) / SCALE` pixels: the y axis is
//! inverted, curve-space "up" being screen-space "up". To keep the mapping
//! exact and invertible, screen points carry sub-pixel coordinates in units
//! of `1/SCALE` pixel, so no division happens on the way in; the way back
//! divides and is exact. The adapter holds no state and, for the widest
//! machine-representable inputs, cannot fail.

use vstd::arithmetic::div_mod::{lemma_div_multiples_vanish, lemma_fundamental_div_mod};
use vstd::prelude::*;

use crate::bank::{BankError, PresetBank};
use crate::curve::{Node, SCALE};

verus! {

/// A target rectangle in whole-pixel screen space.
#[derive(Clone, Copy, PartialEq, Eq, Structural, Debug)]
pub struct Rect {
    pub x: i64,
    pub y: i64,
    pub w: i64,
    pub h: i64,
}

/// A screen position in sub-pixel units of `1/SCALE` pixel.
#[derive(Clone, Copy, PartialEq, Eq, Structural, Debug)]
pub struct ScreenPoint {
    pub px: i128,
    pub py: i128,
}

/// Where curve-space `x` lands horizontally, in sub-pixel units.
pub open spec fn map_x(rect: Rect, x: int) -> int {
    rect.x * SCALE + rect.w * x
}

/// Where curve-space `y` lands vertically, in sub-pixel units; the axis is
/// inverted.
pub open spec fn map_y(rect: Rect, y: int) -> int {
    rect.y * SCALE + rect.h * (SCALE - y)
}

/// The curve-space `x` that lands at sub-pixel `px`.
pub open spec fn unmap_x(rect: Rect, px: int) -> int {
    (px - rect.x * SCALE) / (rect.w as int)
}

/// The curve-space `y` that lands at sub-pixel `py`.
pub open spec fn unmap_y(rect: Rect, py: int) -> int {
    SCALE - (py - rect.y * SCALE) / (rect.h as int)
}

/// Bound on `v * SCALE`, used to rule sub-pixel overflow out.
proof fn lemma_scale_product_bounds(v: i64)
    ensures
        -(0x8000000000000000 * 1000) <= (v as int) * SCALE <= 0x8000000000000000 * 1000,
{
    assert(-(0x8000000000000000 * 1000) <= (v as int) * 1000 <= 0x8000000000000000 * 1000)
        by (nonlinear_arith)
        requires
            -0x8000000000000000 <= v as int <= 0x8000000000000000,
    ;
}

/// Bound on a product of two pixel-range factors.
proof fn lemma_pixel_product_bounds(a: int, b: int)
    requires
        -0x8000000000000000 <= a <= 0x8000000000000000,
        -(0x8000000000000000 + 1000) <= b <= 0x8000000000000000 + 1000,
    ensures
        -(0x8000000000000000 * (0x8000000000000000 + 1000)) <= a * b <= 0x8000000000000000 * (
        0x8000000000000000 + 1000),
{
    assert(-(0x8000000000000000 * (0x8000000000000000 + 1000)) <= a * b <= 0x8000000000000000 * (
        0x8000000000000000 + 1000)) by (nonlinear_arith)
        requires
            -0x8000000000000000 <= a <= 0x8000000000000000,
            -(0x8000000000000000 + 1000) <= b <= 0x8000000000000000 + 1000,
    ;
}

/// Maps one node into the rectangle. Pure, stateless, and total: every
/// result of the widest node and rectangle coordinates fits a sub-pixel
/// coordinate.
pub fn map_node(rect: Rect, node: Node) -> (p: ScreenPoint)
    ensures
        p.px == map_x(rect, node.x as int),
        p.py == map_y(rect, node.y as int),
{
    proof {
        lemma_scale_product_bounds(rect.x);
        lemma_scale_product_bounds(rect.y);
        lemma_pixel_product_bounds(rect.w as int, node.x as int);
        lemma_pixel_product_bounds(rect.h as int, SCALE - node.y);
    }
    let px: i128 = (rect.x as i128) * (SCALE as i128) + (rect.w as i128) * (node.x as i128);
    let py: i128 = (rect.y as i128) * (SCALE as i128) + (rect.h as i128) * ((SCALE as i128)
        - (node.y as i128));
    ScreenPoint { px, py }
}

/// For a positive divisor, an exact multiple divides with no remainder
/// however the quotient is rounded: the Euclidean quotient is the exact one,
/// and negating the dividend negates it.
proof fn lemma_exact_div(a: int, w: int)
    requires
        w > 0,
        a % w == 0,
    ensures
        w * (a / w) == a,
        (-a) / w == -(a / w),
        a == 0 ==> a / w == 0,
{
    lemma_fundamental_div_mod(a, w);
    let q = a / w;
    assert(w * (-q) == -a && (a == 0 ==> q == 0)) by (nonlinear_arith)
        requires
            w * q == a,
            w > 0,
    ;
    lemma_div_multiples_vanish(-q, w);
}

/// When a screen point can be pulled back into curve space: the rectangle is
/// invertible (positive extent), the point lies on the sub-pixel grid the
/// rectangle induces, and the recovered coordinates fit the machine.
pub open spec fn unmappable(rect: Rect, p: ScreenPoint) -> bool {
    &&& rect.w > 0
    &&& rect.h > 0
    &&& i128::MIN <= p.px - rect.x * SCALE <= i128::MAX
    &&& i128::MIN <= p.py - rect.y * SCALE <= i128::MAX
    &&& (p.px - rect.x * SCALE) % (rect.w as int) == 0
    &&& (p.py - rect.y * SCALE) % (rect.h as int) == 0
    &&& i64::MIN <= unmap_x(rect, p.px as int) <= i64::MAX
    &&& i64::MIN <= unmap_y(rect, p.py as int) <= i64::MAX
}

/// Pulls a screen position back to the curve-space node that maps there.
pub fn unmap_node(rect: Rect, p: ScreenPoint) -> (n: Node)
    requires
        unmappable(rect, p),
    ensures
        n.x == unmap_x(rect, p.px as int),
        n.y == unmap_y(rect, p.py as int),
{
    proof {
        lemma_scale_product_bounds(rect.x);
        lemma_scale_product_bounds(rect.y);
    }
    let dx: i128 = p.px - (rect.x as i128) * (SCALE as i128);
    let dy: i128 = p.py - (rect.y as i128) * (SCALE as i128);
    proof {
        lemma_exact_div(dx as int, rect.w as int);
        lemma_exact_div(dy as int, rect.h as int);
    }
    let qx: i128 = dx.checked_div(rect.w as i128).unwrap();
    let qy: i128 = dy.checked_div(rect.h as i128).unwrap();
    Node { x: qx as i64, y: ((SCALE as i128) - qy) as i64 }
}

/// Mapping a node into an invertible rectangle and pulling the result back
/// recovers the node's coordinates exactly; and every mapped point meets the
/// conditions the way back asks for.
pub proof fn map_then_unmap(rect: Rect, n: Node)
    requires
        rect.w > 0,
        rect.h > 0,
    ensures
        unmap_x(rect, map_x(rect, n.x as int)) == n.x,
        unmap_y(rect, map_y(rect, n.y as int)) == n.y,
        (map_x(rect, n.x as int) - rect.x * SCALE) % (rect.w as int) == 0,
        (map_y(rect, n.y as int) - rect.y * SCALE) % (rect.h as int) == 0,
{
    lemma_div_multiples_vanish(n.x as int, rect.w as int);
    lemma_div_multiples_vanish(SCALE - n.y, rect.h as int);
    lemma_fundamental_div_mod(rect.w * (n.x as int), rect.w as int);
    lemma_fundamental_div_mod(rect.h * (SCALE - n.y), rect.h as int);
}

/// The drawable output for one frame: the mapped control points of the
/// selected curve, and the rectangle whose border is drawn as a fixed
/// decoration independent of the node data.
pub struct RenderFrame {
    /// Sub-pixel positions of the selected curve's nodes, in curve order.
    pub points: Vec<ScreenPoint>,
    /// The outline to stroke around the view.
    pub border: Rect,
}

impl PresetBank {
    /// The drawable frame for the curve under the cursor, or `OutOfRange`
    /// when the cursor addresses no existing slot: a missing curve is
    /// signalled, never quietly rendered as a default.
    pub fn render_selected(&self, rect: Rect) -> (r: Result<RenderFrame, BankError>)
        ensures
            match r {
                Ok(frame) => {
                    &&& self@.cursor_in_bounds()
                    &&& frame.border == rect
                    &&& {
                        let c = self@.collection(self@.mode)[self@.index].curve;
                        &&& frame.points@.len() == c.len()
                        &&& forall|i: int|
                            0 <= i < c.len() ==> {
                                &&& (#[trigger] frame.points@[i]).px == map_x(rect, c[i].x as int)
                                &&& frame.points@[i].py == map_y(rect, c[i].y as int)
                            }
                    }
                },
                Err(e) => !self@.cursor_in_bounds() && e == BankError::OutOfRange,
            },
    {
        let curve = match self.selected_curve() {
            Ok(c) => c,
            Err(e) => {
                return Err(e);
            },
        };
        let ghost cv = self@.collection(self@.mode)[self@.index].curve;
        let mut points: Vec<ScreenPoint> = Vec::new();
        let mut i: usize = 0;
        while i < curve.nodes.len()
            invariant
                curve@ == cv,
                i <= cv.len(),
                points@.len() == i,
                forall|j: int|
                    0 <= j < i ==> {
                        &&& (#[trigger] points@[j]).px == map_x(rect, cv[j].x as int)
                        &&& points@[j].py == map_y(rect, cv[j].y as int)
                    },
            decreases cv.len() - i,
        {
            points.push(map_node(rect, curve.nodes[i]));
            i = i + 1;
        }
        Ok(RenderFrame { points, border: rect })
    }
}

} // verus!
