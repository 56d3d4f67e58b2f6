//! A rectangle and the two questions one can ask of it.

use vstd::prelude::*;

verus! {

/// A rectangle with whole-number sides.
#[derive(Clone, Copy, Debug, PartialEq, Eq, Structural)]
pub struct Rectangle {
    pub width: u32,
    pub height: u32,
}

impl Rectangle {
    /// The surface of the rectangle as a mathematical integer.
    pub open spec fn surface(self) -> int {
        self.width * self.height
    }

    /// `self` is strictly wider and strictly taller than `other`.
    pub open spec fn holds(self, other: Rectangle) -> bool {
        self.width > other.width && self.height > other.height
    }

    /// The surface of the rectangle, where it fits in a `u32`.
    pub fn area(&self) -> (area: u32)
        requires
            self.surface() <= u32::MAX,
        ensures
            area == self.surface(),
    {
        self.width * self.height
    }

    /// Whether `other` fits inside `self` with room to spare on both sides.
    pub fn can_hold(&self, other: &Rectangle) -> (fits: bool)
        ensures
            fits == self.holds(*other),
    {
        self.width > other.width && self.height > other.height
    }
}

/// Holding is a strict order: no rectangle holds itself, two rectangles never
/// hold each other, and holding carries over a rectangle in between.
pub proof fn lemma_holds_is_strict_order(a: Rectangle, b: Rectangle, c: Rectangle)
    ensures
        !a.holds(a),
        a.holds(b) ==> !b.holds(a),
        a.holds(b) && b.holds(c) ==> a.holds(c),
{
}

/// A rectangle that holds another has the strictly larger surface.
pub proof fn lemma_holds_means_larger(a: Rectangle, b: Rectangle)
    requires
        a.holds(b),
    ensures
        a.surface() > b.surface(),
{
    assert(a.width * a.height > b.width * b.height) by (nonlinear_arith)
        requires
            a.width > b.width >= 0,
            a.height > b.height >= 0,
    ;
}

} // verus!
