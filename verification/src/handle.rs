use vstd::prelude::*;

use crate::kind::ShapeKind;
use crate::shape::{Area, Shape};

verus! {

/// An owning, type-erasing handle: it stores one shape in an owned,
/// heap-resident slot, chosen at construction time and held for the handle's
/// whole lifetime, and exposes exactly one forwarding operation, `area`.
/// Handles built from different concrete shapes are mutually interchangeable,
/// so one uniform sequence can hold them all.
#[derive(Debug)]
pub struct ShapeHandle {
    inner: Box<ShapeKind>,
}

impl View for ShapeHandle {
    type V = ShapeKind;

    /// A handle is, mathematically, the shape it owns.
    closed spec fn view(&self) -> ShapeKind {
        *self.inner
    }
}

impl ShapeHandle {
    /// Wraps `shape` in a new handle that owns it. Construction never fails.
    pub fn new(shape: ShapeKind) -> (h: ShapeHandle)
        ensures
            h@ == shape,
    {
        ShapeHandle { inner: Box::new(shape) }
    }
}

/// The handle supports the capability it erases: its area is the owned
/// shape's area.
impl Shape for ShapeHandle {
    open spec fn area_spec(&self) -> Area {
        self@.area_spec()
    }

    /// Forwards to the stored shape's own implementation and returns its
    /// result unchanged.
    fn area(&self) -> (a: Area) {
        self.inner.area()
    }
}

/// Forwarding is the identity of delegation: a handle's area is exactly the
/// area that the shape it was constructed from computes for itself.
pub proof fn lemma_handle_forwards(h: ShapeHandle)
    ensures
        h.area_spec() == h@.area_spec(),
{
}

} // verus!
