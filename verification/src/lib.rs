//! A schema-directed, format-agnostic serialization engine for a structural
//! algebraic type system.
//!
//! Values are sums, products, scalars, arrays and maps. A value can be emitted
//! on its own, without names, or paired with a type from a [`Typespace`], in
//! which case field and variant names are recovered from the type. Either way
//! the traversal drives a [`Serializer`], which alone decides how the output is
//! encoded.
//!
//! What a traversal hands to the serializer is described by a [`Shape`]; the
//! relation [`emits`] ties an outcome of the serializer to a shape, and every
//! traversal in this crate is specified through it.
//!
//! - [`scalar`], [`algebraic_value`], [`map_value`]: the values.
//! - [`order`], [`compare`]: the structural order that sorts the keys of a map.
//! - [`algebraic_type`], [`typespace`]: the types and the references between
//!   them.
//! - [`value_with_type`]: which values a type admits, and checked pairings.
//! - [`shape`], [`ser`]: the protocol, the relation `emits`, and the
//!   traversals without and with a type.
//! - [`ser::recorder`]: a serializer whose outcome is the shape itself.
//! - [`laws`]: what holds of every emission.
//!
//! Floating-point numbers are held as their bit patterns, in [`F32`] and
//! [`F64`].
pub mod algebraic_type;
pub mod algebraic_value;
pub mod compare;
pub mod laws;
pub mod map_value;
pub mod order;
pub mod scalar;
pub mod ser;
pub mod shape;
pub mod typespace;
pub mod value_with_type;

pub use crate::algebraic_type::{
    AlgebraicType, AlgebraicTypeRef, ArrayType, BuiltinType, MapType, ProductType,
    ProductTypeElement, SumType, SumTypeVariant, TypeView,
};
pub use crate::algebraic_value::{
    AlgebraicValue, ArrayValue, BuiltinValue, ProductValue, SumValue, ValueView,
};
pub use crate::compare::{compare_scalars, compare_strs, ScalarItem};
pub use crate::map_value::MapValue;
pub use crate::order::Order;
pub use crate::scalar::{Kind, Scalar, ScalarKind, F32, F64};
pub use crate::ser::recorder::{
    record, ArrayRecorder, MapRecorder, NamedProductRecorder, RecordError, SeqProductRecorder,
    ShapeRecorder, ShapeTree,
};
pub use crate::ser::typed::typed_shape;
pub use crate::ser::{
    elements_shape, emits, serialize_elements, Serialize, SerializeArray, SerializeElement,
    SerializeMap, SerializeNamedProduct, SerializeSeqProduct, Serializer,
};
pub use crate::shape::Shape;
pub use crate::typespace::Typespace;
pub use crate::value_with_type::{conforms, PairingView, SchemaMismatch, Value, ValueWithType};
