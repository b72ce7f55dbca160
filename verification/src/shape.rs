//! The shape of an emission: what a traversal hands to a serializer,
//! independent of how the serializer encodes it.
use crate::scalar::Scalar;
use vstd::prelude::*;

verus! {

/// What one traversal emits, as a tree.
///
/// Each node stands for one call of a `Serializer` method, or for one
/// builder that was started, fed and ended. The children of a node are
/// emitted before the node itself is framed.
pub enum Shape {
    /// One scalar, emitted by the method of its kind.
    Scalar(Scalar),
    /// A byte array, emitted in bulk.
    Bytes(Seq<u8>),
    /// An array of the given elements, in order.
    Array(Seq<Shape>),
    /// A map of the given entries, key before value, in order.
    Mapping(Seq<(Shape, Shape)>),
    /// A product whose elements carry no names.
    SeqProduct(Seq<Shape>),
    /// A product whose elements carry the names their type declares.
    NamedProduct(Seq<(Option<Seq<char>>, Shape)>),
    /// One variant of a sum.
    Variant { tag: u8, name: Option<Seq<char>>, payload: Box<Shape> },
}

impl Shape {
    /// The empty product, which stands for the unit value.
    pub open spec fn unit() -> Shape {
        Shape::SeqProduct(Seq::empty())
    }
}

} // verus!
