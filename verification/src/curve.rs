//! The value types of the preset model: a control point (`Node`), an ordered
//! curve of control points (`Curve`), the two-valued collection tag (`Mode`),
//! and a named curve (`Preset`).
//!
//! Coordinates are fixed-point: `SCALE` units stand for the whole nominal
//! width or height of the curve's display box, so a node at
//! `(0, 0)` sits in the lower-left corner and one at `(SCALE, SCALE)` in the
//! upper-right. Values outside that range are legal; they merely render
//! outside the nominal bounds. No invariant clamps them.

use vstd::prelude::*;

verus! {

/// Number of coordinate units that span the nominal display box.
pub const SCALE: i64 = 1000;

/// A control point of a curve, in fixed-point units of `1/SCALE` of the
/// display box along each axis.
#[derive(Clone, Copy, PartialEq, Eq, Structural, Debug)]
pub struct Node {
    pub x: i64,
    pub y: i64,
}

/// An ordered sequence of control points. The order is meaningful: it is the
/// left-to-right path of the curve. An empty curve is legal and renders no
/// nodes.
#[derive(Debug)]
pub struct Curve {
    pub nodes: Vec<Node>,
}

impl View for Curve {
    type V = Seq<Node>;

    open spec fn view(&self) -> Seq<Node> {
        self.nodes@
    }
}

impl Clone for Curve {
    /// A clone carries exactly the same control points.
    fn clone(&self) -> (r: Self)
        ensures
            r@ == self@,
    {
        let mut nodes: Vec<Node> = Vec::new();
        let mut i: usize = 0;
        while i < self.nodes.len()
            invariant
                i <= self.nodes@.len(),
                nodes@ == self.nodes@.subrange(0, i as int),
            decreases self.nodes@.len() - i,
        {
            nodes.push(self.nodes[i]);
            assert(nodes@ =~= self.nodes@.subrange(0, i + 1));
            i = i + 1;
        }
        assert(nodes@ =~= self.nodes@);
        Curve { nodes }
    }
}

impl Curve {
    /// Number of control points.
    pub fn len(&self) -> (n: usize)
        ensures
            n == self@.len(),
    {
        self.nodes.len()
    }

    /// The control point at position `i` of the left-to-right path.
    pub fn node_at(&self, i: usize) -> (n: Node)
        requires
            i < self@.len(),
        ensures
            n == self@[i as int],
    {
        self.nodes[i]
    }
}

/// Whether a preset is meant for a beat (timestretch) or a volume (gating)
/// envelope. Closed: no other collection exists.
#[derive(Clone, Copy, PartialEq, Eq, Structural, Debug)]
pub enum Mode {
    /// A beat or timestretching preset.
    Beat,
    /// A volume or gating preset.
    Vol,
}

/// A named curve. The name is a display label; it may be empty and need not
/// be unique.
#[derive(Debug)]
pub struct Preset {
    /// The display label of the preset.
    pub name: String,
    /// The curve the beat or volume follows.
    pub curve: Curve,
}

/// The mathematical value of a `Preset`: its label as a character sequence
/// and its curve as a node sequence.
#[verifier::ext_equal]
pub struct PresetView {
    pub name: Seq<char>,
    pub curve: Seq<Node>,
}

impl View for Preset {
    type V = PresetView;

    open spec fn view(&self) -> PresetView {
        PresetView { name: self.name@, curve: self.curve@ }
    }
}

impl Clone for Preset {
    /// A clone carries the same label and the same control points.
    fn clone(&self) -> (r: Self)
        ensures
            r@ == self@,
    {
        Preset { name: self.name.clone(), curve: self.curve.clone() }
    }
}

} // verus!
