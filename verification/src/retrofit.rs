use vstd::prelude::*;

use crate::shape::{Area, Circle, Shape};

verus! {

/// A circle as a third party might define it: the type declares its one
/// attribute and nothing else. In particular it does not mention the area
/// capability, which is attached to it below, after and apart from this
/// definition.
#[derive(Clone, Copy, Debug, PartialEq, Eq, Structural)]
pub struct ThirdPartyCircle {
    /// The radius, as the bit pattern of an IEEE 754 double.
    pub radius_bits: u64,
}

/// The retrofitted capability: declared for `ThirdPartyCircle` without
/// touching the type's own definition.
impl Shape for ThirdPartyCircle {
    open spec fn area_spec(&self) -> Area {
        Area::OfCircle { radius_bits: self.radius_bits }
    }

    fn area(&self) -> (a: Area) {
        Area::OfCircle { radius_bits: self.radius_bits }
    }
}

/// A capability declared after a type's definition yields identical results
/// to one declared intrinsically, given identical attribute values: a
/// retrofitted circle's area equals the intrinsic [`Circle`]'s area whenever
/// the two radii agree.
pub proof fn lemma_retrofit_equivalence(t: ThirdPartyCircle, c: Circle)
    requires
        t.radius_bits == c.radius_bits,
    ensures
        t.area_spec() == c.area_spec(),
{
}

} // verus!
