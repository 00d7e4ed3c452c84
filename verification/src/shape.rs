use vstd::prelude::*;

verus! {

/// A planar area, kept symbolically: which of the two formulas applies, and
/// the dimension it applies to.
///
/// A dimension is carried as the bit pattern of an IEEE 754 double. The
/// library never interprets the bits; a caller that evaluates an `Area`
/// numerically therefore applies the formula to exactly the operand the
/// shape was built with.
#[derive(Clone, Copy, Debug, PartialEq, Eq, Structural)]
pub enum Area {
    /// Pi times the square of the radius these bits encode.
    OfCircle { radius_bits: u64 },
    /// The square of the side these bits encode.
    OfSquare { side_bits: u64 },
}

/// The area capability: a shape exposes a single derived value, its area,
/// computed purely from its attribute.
pub trait Shape {
    /// The area that `area` is specified to return.
    spec fn area_spec(&self) -> Area;

    /// Returns the shape's area.
    fn area(&self) -> (a: Area)
        ensures
            a == self.area_spec(),
    ;
}

/// A circle, described by its radius.
#[derive(Clone, Copy, Debug, PartialEq, Eq, Structural)]
pub struct Circle {
    /// The radius, as the bit pattern of an IEEE 754 double.
    pub radius_bits: u64,
}

impl Shape for Circle {
    open spec fn area_spec(&self) -> Area {
        Area::OfCircle { radius_bits: self.radius_bits }
    }

    fn area(&self) -> (a: Area) {
        Area::OfCircle { radius_bits: self.radius_bits }
    }
}

/// A square, described by its side.
#[derive(Clone, Copy, Debug, PartialEq, Eq, Structural)]
pub struct Square {
    /// The side, as the bit pattern of an IEEE 754 double.
    pub side_bits: u64,
}

impl Shape for Square {
    open spec fn area_spec(&self) -> Area {
        Area::OfSquare { side_bits: self.side_bits }
    }

    fn area(&self) -> (a: Area) {
        Area::OfSquare { side_bits: self.side_bits }
    }
}

/// Visits each shape of `shapes` exactly once, in insertion order, through
/// the common capability alone, and collects the results: the returned
/// sequence holds, at every position, the area of the shape at that same
/// position, with nothing reordered, filtered or added.
pub fn areas<T: Shape>(shapes: &Vec<T>) -> (v: Vec<Area>)
    ensures
        v@.len() == shapes@.len(),
        forall|i: int| 0 <= i < shapes@.len() ==> v@[i] == shapes@[i].area_spec(),
{
    let mut v: Vec<Area> = Vec::new();
    let mut idx: usize = 0;
    while idx < shapes.len()
        invariant
            idx <= shapes@.len(),
            v@.len() == idx,
            forall|i: int| 0 <= i < idx ==> v@[i] == shapes@[i].area_spec(),
        decreases shapes@.len() - idx,
    {
        let a = shapes[idx].area();
        v.push(a);
        idx = idx + 1;
    }
    v
}

} // verus!
