use vstd::prelude::*;

use crate::shape::{Area, Circle, Shape, Square};

verus! {

/// The closed set of shapes, as a tagged union: the form of dynamic dispatch
/// to use when every variant is known where the union is declared. Values of
/// differing concrete shape types become one uniform type, so a single
/// sequence can hold them side by side.
#[derive(Clone, Copy, Debug, PartialEq, Eq, Structural)]
pub enum ShapeKind {
    Circle(Circle),
    Square(Square),
}

impl Shape for ShapeKind {
    open spec fn area_spec(&self) -> Area {
        match self {
            ShapeKind::Circle(c) => c.area_spec(),
            ShapeKind::Square(s) => s.area_spec(),
        }
    }

    /// Dispatches on the tag and delegates to the variant's own computation.
    fn area(&self) -> (a: Area) {
        match self {
            ShapeKind::Circle(c) => c.area(),
            ShapeKind::Square(s) => s.area(),
        }
    }
}

} // verus!
