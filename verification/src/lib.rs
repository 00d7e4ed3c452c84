//! Runtime polymorphism over planar shapes, three ways.
//!
//! The library demonstrates one capability — computing a shape's area — made
//! uniform over unrelated value types by three mechanisms:
//!
//! * direct dispatch through the [`shape::Shape`] trait over a sequence of
//!   shapes ([`shape::areas`]);
//! * attaching the capability to a type after its definition
//!   ([`retrofit::ThirdPartyCircle`]);
//! * an owning handle that erases the concrete type behind one uniform
//!   value ([`handle::ShapeHandle`]).
//!
//! Dimensions travel as the bit patterns of IEEE 754 doubles and areas are
//! kept symbolically (which formula, on which operand): the library decides
//! dispatch, forwarding and order, and its callers evaluate the
//! floating-point formulas on the operands it hands back.

pub mod handle;
pub mod kind;
pub mod retrofit;
pub mod shape;
