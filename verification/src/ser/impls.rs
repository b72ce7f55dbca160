//! How the values of the standard library are emitted.
use crate::scalar::{Scalar, F32, F64};
use crate::ser::{
    elements_shape, seq_product_emits, serialize_elements, Serialize, SerializeElement,
    SerializeSeqProduct, Serializer,
};
use crate::shape::Shape;
use vstd::prelude::*;

verus! {

/// The unit value is the empty product.
impl Serialize for () {
    open spec fn shape(&self) -> Shape {
        Shape::unit()
    }

    fn serialize<S: Serializer>(&self, ser: &S) -> (r: Result<S::Ok, S::Error>) {
        let start = ser.serialize_seq_product(0);
        assert(Seq::<Shape>::empty().len() == 0);
        match start {
            Err(e) => Err(e),
            Ok(b) => {
                let r = b.end();
                assert(seq_product_emits(ser, Seq::<Shape>::empty(), b, 0, r));
                r
            },
        }
    }
}

impl SerializeElement for () {
    open spec fn array_shape(items: Seq<Self>) -> Shape {
        elements_shape(items)
    }

    fn __serialize_array<S: Serializer>(this: &[Self], ser: &S) -> (r: Result<S::Ok, S::Error>) {
        serialize_elements(this, ser)
    }
}

impl Serialize for bool {
    open spec fn shape(&self) -> Shape {
        Shape::Scalar(Scalar::Bool(*self))
    }

    fn serialize<S: Serializer>(&self, ser: &S) -> (r: Result<S::Ok, S::Error>) {
        ser.serialize_bool(*self)
    }
}

impl SerializeElement for bool {
    open spec fn array_shape(items: Seq<Self>) -> Shape {
        elements_shape(items)
    }

    fn __serialize_array<S: Serializer>(this: &[Self], ser: &S) -> (r: Result<S::Ok, S::Error>) {
        serialize_elements(this, ser)
    }
}

impl Serialize for u8 {
    open spec fn shape(&self) -> Shape {
        Shape::Scalar(Scalar::U8(*self))
    }

    fn serialize<S: Serializer>(&self, ser: &S) -> (r: Result<S::Ok, S::Error>) {
        ser.serialize_u8(*self)
    }
}

/// A run of bytes is emitted in bulk.
impl SerializeElement for u8 {
    open spec fn array_shape(items: Seq<Self>) -> Shape {
        Shape::Bytes(items)
    }

    fn __serialize_array<S: Serializer>(this: &[Self], ser: &S) -> (r: Result<S::Ok, S::Error>) {
        ser.serialize_bytes(this)
    }
}

impl Serialize for i8 {
    open spec fn shape(&self) -> Shape {
        Shape::Scalar(Scalar::I8(*self))
    }

    fn serialize<S: Serializer>(&self, ser: &S) -> (r: Result<S::Ok, S::Error>) {
        ser.serialize_i8(*self)
    }
}

impl SerializeElement for i8 {
    open spec fn array_shape(items: Seq<Self>) -> Shape {
        elements_shape(items)
    }

    fn __serialize_array<S: Serializer>(this: &[Self], ser: &S) -> (r: Result<S::Ok, S::Error>) {
        serialize_elements(this, ser)
    }
}

impl Serialize for i16 {
    open spec fn shape(&self) -> Shape {
        Shape::Scalar(Scalar::I16(*self))
    }

    fn serialize<S: Serializer>(&self, ser: &S) -> (r: Result<S::Ok, S::Error>) {
        ser.serialize_i16(*self)
    }
}

impl SerializeElement for i16 {
    open spec fn array_shape(items: Seq<Self>) -> Shape {
        elements_shape(items)
    }

    fn __serialize_array<S: Serializer>(this: &[Self], ser: &S) -> (r: Result<S::Ok, S::Error>) {
        serialize_elements(this, ser)
    }
}

impl Serialize for u16 {
    open spec fn shape(&self) -> Shape {
        Shape::Scalar(Scalar::U16(*self))
    }

    fn serialize<S: Serializer>(&self, ser: &S) -> (r: Result<S::Ok, S::Error>) {
        ser.serialize_u16(*self)
    }
}

impl SerializeElement for u16 {
    open spec fn array_shape(items: Seq<Self>) -> Shape {
        elements_shape(items)
    }

    fn __serialize_array<S: Serializer>(this: &[Self], ser: &S) -> (r: Result<S::Ok, S::Error>) {
        serialize_elements(this, ser)
    }
}

impl Serialize for i32 {
    open spec fn shape(&self) -> Shape {
        Shape::Scalar(Scalar::I32(*self))
    }

    fn serialize<S: Serializer>(&self, ser: &S) -> (r: Result<S::Ok, S::Error>) {
        ser.serialize_i32(*self)
    }
}

impl SerializeElement for i32 {
    open spec fn array_shape(items: Seq<Self>) -> Shape {
        elements_shape(items)
    }

    fn __serialize_array<S: Serializer>(this: &[Self], ser: &S) -> (r: Result<S::Ok, S::Error>) {
        serialize_elements(this, ser)
    }
}

impl Serialize for u32 {
    open spec fn shape(&self) -> Shape {
        Shape::Scalar(Scalar::U32(*self))
    }

    fn serialize<S: Serializer>(&self, ser: &S) -> (r: Result<S::Ok, S::Error>) {
        ser.serialize_u32(*self)
    }
}

impl SerializeElement for u32 {
    open spec fn array_shape(items: Seq<Self>) -> Shape {
        elements_shape(items)
    }

    fn __serialize_array<S: Serializer>(this: &[Self], ser: &S) -> (r: Result<S::Ok, S::Error>) {
        serialize_elements(this, ser)
    }
}

impl Serialize for i64 {
    open spec fn shape(&self) -> Shape {
        Shape::Scalar(Scalar::I64(*self))
    }

    fn serialize<S: Serializer>(&self, ser: &S) -> (r: Result<S::Ok, S::Error>) {
        ser.serialize_i64(*self)
    }
}

impl SerializeElement for i64 {
    open spec fn array_shape(items: Seq<Self>) -> Shape {
        elements_shape(items)
    }

    fn __serialize_array<S: Serializer>(this: &[Self], ser: &S) -> (r: Result<S::Ok, S::Error>) {
        serialize_elements(this, ser)
    }
}

impl Serialize for u64 {
    open spec fn shape(&self) -> Shape {
        Shape::Scalar(Scalar::U64(*self))
    }

    fn serialize<S: Serializer>(&self, ser: &S) -> (r: Result<S::Ok, S::Error>) {
        ser.serialize_u64(*self)
    }
}

impl SerializeElement for u64 {
    open spec fn array_shape(items: Seq<Self>) -> Shape {
        elements_shape(items)
    }

    fn __serialize_array<S: Serializer>(this: &[Self], ser: &S) -> (r: Result<S::Ok, S::Error>) {
        serialize_elements(this, ser)
    }
}

impl Serialize for i128 {
    open spec fn shape(&self) -> Shape {
        Shape::Scalar(Scalar::I128(*self))
    }

    fn serialize<S: Serializer>(&self, ser: &S) -> (r: Result<S::Ok, S::Error>) {
        ser.serialize_i128(*self)
    }
}

impl SerializeElement for i128 {
    open spec fn array_shape(items: Seq<Self>) -> Shape {
        elements_shape(items)
    }

    fn __serialize_array<S: Serializer>(this: &[Self], ser: &S) -> (r: Result<S::Ok, S::Error>) {
        serialize_elements(this, ser)
    }
}

impl Serialize for u128 {
    open spec fn shape(&self) -> Shape {
        Shape::Scalar(Scalar::U128(*self))
    }

    fn serialize<S: Serializer>(&self, ser: &S) -> (r: Result<S::Ok, S::Error>) {
        ser.serialize_u128(*self)
    }
}

impl SerializeElement for u128 {
    open spec fn array_shape(items: Seq<Self>) -> Shape {
        elements_shape(items)
    }

    fn __serialize_array<S: Serializer>(this: &[Self], ser: &S) -> (r: Result<S::Ok, S::Error>) {
        serialize_elements(this, ser)
    }
}

/// A floating-point wrapper is emitted as the number it stands for.
impl Serialize for F32 {
    open spec fn shape(&self) -> Shape {
        Shape::Scalar(Scalar::F32(*self))
    }

    fn serialize<S: Serializer>(&self, ser: &S) -> (r: Result<S::Ok, S::Error>) {
        ser.serialize_f32(*self)
    }
}

impl SerializeElement for F32 {
    open spec fn array_shape(items: Seq<Self>) -> Shape {
        elements_shape(items)
    }

    fn __serialize_array<S: Serializer>(this: &[Self], ser: &S) -> (r: Result<S::Ok, S::Error>) {
        serialize_elements(this, ser)
    }
}

/// A floating-point wrapper is emitted as the number it stands for.
impl Serialize for F64 {
    open spec fn shape(&self) -> Shape {
        Shape::Scalar(Scalar::F64(*self))
    }

    fn serialize<S: Serializer>(&self, ser: &S) -> (r: Result<S::Ok, S::Error>) {
        ser.serialize_f64(*self)
    }
}

impl SerializeElement for F64 {
    open spec fn array_shape(items: Seq<Self>) -> Shape {
        elements_shape(items)
    }

    fn __serialize_array<S: Serializer>(this: &[Self], ser: &S) -> (r: Result<S::Ok, S::Error>) {
        serialize_elements(this, ser)
    }
}

impl Serialize for str {
    open spec fn shape(&self) -> Shape {
        Shape::Scalar(Scalar::String(self@))
    }

    fn serialize<S: Serializer>(&self, ser: &S) -> (r: Result<S::Ok, S::Error>) {
        ser.serialize_str(self)
    }
}

impl Serialize for String {
    open spec fn shape(&self) -> Shape {
        Shape::Scalar(Scalar::String(self@))
    }

    fn serialize<S: Serializer>(&self, ser: &S) -> (r: Result<S::Ok, S::Error>) {
        ser.serialize_str(self.as_str())
    }
}

impl SerializeElement for String {
    open spec fn array_shape(items: Seq<Self>) -> Shape {
        elements_shape(items)
    }

    fn __serialize_array<S: Serializer>(this: &[Self], ser: &S) -> (r: Result<S::Ok, S::Error>) {
        serialize_elements(this, ser)
    }
}

/// A vector is emitted as its element type emits a run of values.
impl<T: SerializeElement> Serialize for Vec<T> {
    open spec fn shape(&self) -> Shape {
        T::array_shape(self@)
    }

    fn serialize<S: Serializer>(&self, ser: &S) -> (r: Result<S::Ok, S::Error>) {
        T::__serialize_array(self.as_slice(), ser)
    }
}

impl<T: SerializeElement> SerializeElement for Vec<T> {
    open spec fn array_shape(items: Seq<Self>) -> Shape {
        elements_shape(items)
    }

    fn __serialize_array<S: Serializer>(this: &[Self], ser: &S) -> (r: Result<S::Ok, S::Error>) {
        serialize_elements(this, ser)
    }
}

/// A slice is emitted as its element type emits a run of values.
impl<T: SerializeElement> Serialize for [T] {
    open spec fn shape(&self) -> Shape {
        T::array_shape(self@)
    }

    fn serialize<S: Serializer>(&self, ser: &S) -> (r: Result<S::Ok, S::Error>) {
        T::__serialize_array(self, ser)
    }
}

/// A fixed-size array is emitted as its element type emits a run of values.
impl<T: SerializeElement, const N: usize> Serialize for [T; N] {
    open spec fn shape(&self) -> Shape {
        T::array_shape(self@)
    }

    fn serialize<S: Serializer>(&self, ser: &S) -> (r: Result<S::Ok, S::Error>) {
        T::__serialize_array(self.as_slice(), ser)
    }
}

/// A box adds nothing to what it holds.
impl<T: Serialize + ?Sized> Serialize for Box<T> {
    open spec fn shape(&self) -> Shape {
        (**self).shape()
    }

    fn serialize<S: Serializer>(&self, ser: &S) -> (r: Result<S::Ok, S::Error>) {
        (**self).serialize(ser)
    }
}

impl<T: Serialize> SerializeElement for Box<T> {
    open spec fn array_shape(items: Seq<Self>) -> Shape {
        elements_shape(items)
    }

    fn __serialize_array<S: Serializer>(this: &[Self], ser: &S) -> (r: Result<S::Ok, S::Error>) {
        serialize_elements(this, ser)
    }
}

/// A reference adds nothing to what it points to.
impl<T: Serialize + ?Sized> Serialize for &T {
    open spec fn shape(&self) -> Shape {
        (**self).shape()
    }

    fn serialize<S: Serializer>(&self, ser: &S) -> (r: Result<S::Ok, S::Error>) {
        (**self).serialize(ser)
    }
}

/// An optional value is a sum of two variants: `some`, with tag 0, around the
/// value, and `none`, with tag 1, around the unit value.
impl<T: Serialize> Serialize for Option<T> {
    open spec fn shape(&self) -> Shape {
        match self {
            Some(v) => Shape::Variant { tag: 0, name: Some("some"@), payload: Box::new(v.shape()) },
            None => Shape::Variant {
                tag: 1,
                name: Some("none"@),
                payload: Box::new(Shape::unit()),
            },
        }
    }

    fn serialize<S: Serializer>(&self, ser: &S) -> (r: Result<S::Ok, S::Error>) {
        match self {
            Some(v) => match v.serialize(ser) {
                Err(e) => Err(e),
                Ok(p) => ser.serialize_variant(0, Some("some"), p),
            },
            None => match ().serialize(ser) {
                Err(e) => Err(e),
                Ok(p) => ser.serialize_variant(1, Some("none"), p),
            },
        }
    }
}

impl<T: Serialize> SerializeElement for Option<T> {
    open spec fn array_shape(items: Seq<Self>) -> Shape {
        elements_shape(items)
    }

    fn __serialize_array<S: Serializer>(this: &[Self], ser: &S) -> (r: Result<S::Ok, S::Error>) {
        serialize_elements(this, ser)
    }
}

/// A success or an error is a sum of two variants: `ok`, with tag 0, around
/// the success, and `err`, with tag 1, around the error.
impl<T: Serialize, E: Serialize> Serialize for Result<T, E> {
    open spec fn shape(&self) -> Shape {
        match self {
            Ok(v) => Shape::Variant { tag: 0, name: Some("ok"@), payload: Box::new(v.shape()) },
            Err(e) => Shape::Variant { tag: 1, name: Some("err"@), payload: Box::new(e.shape()) },
        }
    }

    fn serialize<S: Serializer>(&self, ser: &S) -> (r: Result<S::Ok, S::Error>) {
        match self {
            Ok(v) => match v.serialize(ser) {
                Err(e) => Err(e),
                Ok(p) => ser.serialize_variant(0, Some("ok"), p),
            },
            Err(v) => match v.serialize(ser) {
                Err(e) => Err(e),
                Ok(p) => ser.serialize_variant(1, Some("err"), p),
            },
        }
    }
}

impl<T: Serialize, E: Serialize> SerializeElement for Result<T, E> {
    open spec fn array_shape(items: Seq<Self>) -> Shape {
        elements_shape(items)
    }

    fn __serialize_array<S: Serializer>(this: &[Self], ser: &S) -> (r: Result<S::Ok, S::Error>) {
        serialize_elements(this, ser)
    }
}

} // verus!
