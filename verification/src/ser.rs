//! The protocol between a traversal and an encoder.
//!
//! A [`Serializer`] is an encoder seen from the traversal: one method for each
//! kind of scalar, one for a byte array, one that frames a variant of a sum,
//! and four that start a builder for an array, a map or a product. The
//! traversal emits bottom-up: the payload of a variant, and each element of a
//! collection, is emitted first, through the same serializer, and its outcome
//! is handed to the method that frames it. A serializer never calls back into
//! the traversal.
//!
//! The traits promise nothing about what an encoder returns. What a traversal
//! did with an encoder is stated by [`emits`]: which methods it called, in
//! which order, with which arguments, and which of the encoder's answers it
//! returned.
use crate::scalar::{Scalar, F32, F64};
use crate::shape::Shape;
use vstd::pervasive::trigger;
use vstd::prelude::*;

pub mod impls;
pub mod recorder;
pub mod typed;
pub mod values;

verus! {

/// The builder of an array. It takes the outcome of each element in turn and
/// is then ended.
pub trait SerializeArray: Sized {
    type Ok;

    type Error;

    /// Adds the next element.
    fn serialize_element(self, elem: Self::Ok) -> Result<Self, Self::Error>;

    /// Ends the array.
    fn end(self) -> Result<Self::Ok, Self::Error>;
}

/// The builder of a map. It takes the outcomes of the key and of the value of
/// each entry in turn and is then ended.
pub trait SerializeMap: Sized {
    type Ok;

    type Error;

    /// Adds the next entry.
    fn serialize_entry(self, key: Self::Ok, value: Self::Ok) -> Result<Self, Self::Error>;

    /// Ends the map.
    fn end(self) -> Result<Self::Ok, Self::Error>;
}

/// The builder of a product whose elements have no names.
pub trait SerializeSeqProduct: Sized {
    type Ok;

    type Error;

    /// Adds the next element.
    fn serialize_element(self, elem: Self::Ok) -> Result<Self, Self::Error>;

    /// Ends the product.
    fn end(self) -> Result<Self::Ok, Self::Error>;
}

/// The builder of a product whose elements may have names.
pub trait SerializeNamedProduct: Sized {
    type Ok;

    type Error;

    /// Adds the next element under its name, if it has one.
    fn serialize_element(self, name: Option<&str>, elem: Self::Ok) -> Result<Self, Self::Error>;

    /// Ends the product.
    fn end(self) -> Result<Self::Ok, Self::Error>;
}

/// An encoder. `Ok` is what it makes of a value, `Error` why it could not.
pub trait Serializer: Sized {
    type Ok;

    type Error;

    type SerializeArray: SerializeArray<Ok = Self::Ok, Error = Self::Error>;

    type SerializeMap: SerializeMap<Ok = Self::Ok, Error = Self::Error>;

    type SerializeSeqProduct: SerializeSeqProduct<Ok = Self::Ok, Error = Self::Error>;

    type SerializeNamedProduct: SerializeNamedProduct<Ok = Self::Ok, Error = Self::Error>;

    fn serialize_bool(&self, v: bool) -> Result<Self::Ok, Self::Error>;

    fn serialize_i8(&self, v: i8) -> Result<Self::Ok, Self::Error>;

    fn serialize_u8(&self, v: u8) -> Result<Self::Ok, Self::Error>;

    fn serialize_i16(&self, v: i16) -> Result<Self::Ok, Self::Error>;

    fn serialize_u16(&self, v: u16) -> Result<Self::Ok, Self::Error>;

    fn serialize_i32(&self, v: i32) -> Result<Self::Ok, Self::Error>;

    fn serialize_u32(&self, v: u32) -> Result<Self::Ok, Self::Error>;

    fn serialize_i64(&self, v: i64) -> Result<Self::Ok, Self::Error>;

    fn serialize_u64(&self, v: u64) -> Result<Self::Ok, Self::Error>;

    fn serialize_i128(&self, v: i128) -> Result<Self::Ok, Self::Error>;

    fn serialize_u128(&self, v: u128) -> Result<Self::Ok, Self::Error>;

    fn serialize_f32(&self, v: F32) -> Result<Self::Ok, Self::Error>;

    fn serialize_f64(&self, v: F64) -> Result<Self::Ok, Self::Error>;

    fn serialize_str(&self, v: &str) -> Result<Self::Ok, Self::Error>;

    /// Emits a whole byte array at once.
    fn serialize_bytes(&self, v: &[u8]) -> Result<Self::Ok, Self::Error>;

    /// Starts an array of `len` elements.
    fn serialize_array(&self, len: usize) -> Result<Self::SerializeArray, Self::Error>;

    /// Starts a map of `len` entries.
    fn serialize_map(&self, len: usize) -> Result<Self::SerializeMap, Self::Error>;

    /// Starts a product of `len` unnamed elements.
    fn serialize_seq_product(&self, len: usize) -> Result<Self::SerializeSeqProduct, Self::Error>;

    /// Starts a product of `len` elements that may be named.
    fn serialize_named_product(&self, len: usize) -> Result<
        Self::SerializeNamedProduct,
        Self::Error,
    >;

    /// Frames the variant `tag` of a sum around the outcome of its payload.
    fn serialize_variant(&self, tag: u8, name: Option<&str>, value: Self::Ok) -> Result<
        Self::Ok,
        Self::Error,
    >;
}

/// The characters of a name, where there is one.
pub open spec fn name_view(name: Option<&str>) -> Option<Seq<char>> {
    match name {
        Some(s) => Some(s@),
        None => None,
    }
}

/// `r` is an answer of `ser` to the scalar `s`, handed to the method of its
/// kind.
pub open spec fn scalar_emits<S: Serializer>(
    ser: &S,
    s: Scalar,
    r: Result<S::Ok, S::Error>,
) -> bool {
    match s {
        Scalar::Bool(v) => call_ensures(S::serialize_bool, (ser, v), r),
        Scalar::I8(v) => call_ensures(S::serialize_i8, (ser, v), r),
        Scalar::U8(v) => call_ensures(S::serialize_u8, (ser, v), r),
        Scalar::I16(v) => call_ensures(S::serialize_i16, (ser, v), r),
        Scalar::U16(v) => call_ensures(S::serialize_u16, (ser, v), r),
        Scalar::I32(v) => call_ensures(S::serialize_i32, (ser, v), r),
        Scalar::U32(v) => call_ensures(S::serialize_u32, (ser, v), r),
        Scalar::I64(v) => call_ensures(S::serialize_i64, (ser, v), r),
        Scalar::U64(v) => call_ensures(S::serialize_u64, (ser, v), r),
        Scalar::I128(v) => call_ensures(S::serialize_i128, (ser, v), r),
        Scalar::U128(v) => call_ensures(S::serialize_u128, (ser, v), r),
        Scalar::F32(v) => call_ensures(S::serialize_f32, (ser, v), r),
        Scalar::F64(v) => call_ensures(S::serialize_f64, (ser, v), r),
        Scalar::String(v) => exists|s: &str| #[trigger]
            call_ensures(S::serialize_str, (ser, s), r) && s@ == v,
    }
}

/// `r` is an outcome of emitting `shape` to `ser`.
///
/// Emitting a shape calls the methods of `ser` that the shape stands for, in
/// order, children before the node that frames them, each child through `ser`
/// itself. The first error that `ser` or one of its builders answers ends the
/// emission and is the outcome; otherwise the outcome is the answer to the
/// last call. A builder started for `n` items is fed exactly `n` times before
/// it is ended.
pub open spec fn emits<S: Serializer>(ser: &S, shape: Shape, r: Result<S::Ok, S::Error>) -> bool
    decreases shape,
{
    match shape {
        Shape::Scalar(s) => scalar_emits(ser, s, r),
        Shape::Bytes(bytes) => exists|v: &[u8]| #[trigger]
            call_ensures(S::serialize_bytes, (ser, v), r) && v@ == bytes,
        Shape::Array(elems) => exists|
            n: usize,
            start: Result<S::SerializeArray, S::Error>,
        | #[trigger]
            call_ensures(S::serialize_array, (ser, n), start) && n == elems.len() && match start {
                Err(e) => r == Err::<S::Ok, S::Error>(e),
                Ok(b) => array_emits(ser, elems, b, 0, r),
            },
        Shape::Mapping(entries) => exists|
            n: usize,
            start: Result<S::SerializeMap, S::Error>,
        | #[trigger]
            call_ensures(S::serialize_map, (ser, n), start) && n == entries.len() && match start {
                Err(e) => r == Err::<S::Ok, S::Error>(e),
                Ok(b) => map_emits(ser, entries, b, 0, r),
            },
        Shape::SeqProduct(elems) => exists|
            n: usize,
            start: Result<S::SerializeSeqProduct, S::Error>,
        | #[trigger]
            call_ensures(S::serialize_seq_product, (ser, n), start) && n == elems.len()
                && match start {
                Err(e) => r == Err::<S::Ok, S::Error>(e),
                Ok(b) => seq_product_emits(ser, elems, b, 0, r),
            },
        Shape::NamedProduct(fields) => exists|
            n: usize,
            start: Result<S::SerializeNamedProduct, S::Error>,
        | #[trigger]
            call_ensures(S::serialize_named_product, (ser, n), start) && n == fields.len()
                && match start {
                Err(e) => r == Err::<S::Ok, S::Error>(e),
                Ok(b) => named_product_emits(ser, fields, b, 0, r),
            },
        Shape::Variant { tag, name, payload } => {
            ||| r matches Err(e) && emits(ser, *payload, Err(e))
            ||| exists|n: Option<&str>, p: S::Ok| #[trigger]
                call_ensures(S::serialize_variant, (ser, tag, n, p), r) && name_view(n) == name
                    && emits(ser, *payload, Ok(p))
        },
    }
}

/// `r` is an outcome of emitting the elements of an array from the `i`-th on
/// to `ser`, feeding each to the builder that `b` has become, and ending it.
pub open spec fn array_emits<S: Serializer>(
    ser: &S,
    elems: Seq<Shape>,
    b: S::SerializeArray,
    i: int,
    r: Result<S::Ok, S::Error>,
) -> bool
    decreases elems, elems.len() - i,
{
    if 0 <= i < elems.len() {
        ||| r matches Err(e) && emits(ser, elems[i], Err(e))
        ||| exists|x: S::Ok, step: Result<S::SerializeArray, S::Error>| #[trigger]
            call_ensures(<S::SerializeArray as SerializeArray>::serialize_element, (b, x), step)
                && emits(ser, elems[i], Ok(x)) && match step {
                Err(e) => r == Err::<S::Ok, S::Error>(e),
                Ok(next) => array_emits(ser, elems, next, i + 1, r),
            }
    } else {
        call_ensures(<S::SerializeArray as SerializeArray>::end, (b,), r)
    }
}

/// `r` is an outcome of emitting the entries of a map from the `i`-th on to
/// `ser`, key before value, feeding each pair to the builder that `b` has
/// become, and ending it.
pub open spec fn map_emits<S: Serializer>(
    ser: &S,
    entries: Seq<(Shape, Shape)>,
    b: S::SerializeMap,
    i: int,
    r: Result<S::Ok, S::Error>,
) -> bool
    decreases entries, entries.len() - i,
{
    if 0 <= i < entries.len() {
        ||| r matches Err(e) && emits(ser, entries[i].0, Err(e))
        ||| r matches Err(e) && emits(ser, entries[i].1, Err(e)) && exists|k: S::Ok| #[trigger]
            trigger(k) && emits(ser, entries[i].0, Ok(k))
        ||| exists|k: S::Ok, v: S::Ok, step: Result<S::SerializeMap, S::Error>| #[trigger]
            call_ensures(<S::SerializeMap as SerializeMap>::serialize_entry, (b, k, v), step)
                && emits(ser, entries[i].0, Ok(k)) && emits(ser, entries[i].1, Ok(v))
                && match step {
                Err(e) => r == Err::<S::Ok, S::Error>(e),
                Ok(next) => map_emits(ser, entries, next, i + 1, r),
            }
    } else {
        call_ensures(<S::SerializeMap as SerializeMap>::end, (b,), r)
    }
}

/// `r` is an outcome of emitting the elements of an unnamed product from the
/// `i`-th on to `ser`, feeding each to the builder that `b` has become, and
/// ending it.
pub open spec fn seq_product_emits<S: Serializer>(
    ser: &S,
    elems: Seq<Shape>,
    b: S::SerializeSeqProduct,
    i: int,
    r: Result<S::Ok, S::Error>,
) -> bool
    decreases elems, elems.len() - i,
{
    if 0 <= i < elems.len() {
        ||| r matches Err(e) && emits(ser, elems[i], Err(e))
        ||| exists|x: S::Ok, step: Result<S::SerializeSeqProduct, S::Error>| #[trigger]
            call_ensures(
                <S::SerializeSeqProduct as SerializeSeqProduct>::serialize_element,
                (b, x),
                step,
            ) && emits(ser, elems[i], Ok(x)) && match step {
                Err(e) => r == Err::<S::Ok, S::Error>(e),
                Ok(next) => seq_product_emits(ser, elems, next, i + 1, r),
            }
    } else {
        call_ensures(<S::SerializeSeqProduct as SerializeSeqProduct>::end, (b,), r)
    }
}

/// `r` is an outcome of emitting the elements of a named product from the
/// `i`-th on to `ser`, feeding each under its name to the builder that `b` has
/// become, and ending it.
pub open spec fn named_product_emits<S: Serializer>(
    ser: &S,
    fields: Seq<(Option<Seq<char>>, Shape)>,
    b: S::SerializeNamedProduct,
    i: int,
    r: Result<S::Ok, S::Error>,
) -> bool
    decreases fields, fields.len() - i,
{
    if 0 <= i < fields.len() {
        ||| r matches Err(e) && emits(ser, fields[i].1, Err(e))
        ||| exists|
            n: Option<&str>,
            x: S::Ok,
            step: Result<S::SerializeNamedProduct, S::Error>,
        | #[trigger]
            call_ensures(
                <S::SerializeNamedProduct as SerializeNamedProduct>::serialize_element,
                (b, n, x),
                step,
            ) && name_view(n) == fields[i].0 && emits(ser, fields[i].1, Ok(x)) && match step {
                Err(e) => r == Err::<S::Ok, S::Error>(e),
                Ok(next) => named_product_emits(ser, fields, next, i + 1, r),
            }
    } else {
        call_ensures(<S::SerializeNamedProduct as SerializeNamedProduct>::end, (b,), r)
    }
}

/// A value that can be emitted without a schema.
pub trait Serialize {
    /// What emitting the value hands to a serializer.
    spec fn shape(&self) -> Shape;

    /// Emits the value to `ser`.
    fn serialize<S: Serializer>(&self, ser: &S) -> (r: Result<S::Ok, S::Error>)
        ensures
            emits(ser, self.shape(), r),
    ;
}

/// A value that can be the element of a slice, a vector or a fixed-size
/// array. The type decides how a run of its values is emitted: one by one into
/// an array builder, as [`serialize_elements`] does, or in bulk.
pub trait SerializeElement: Serialize + Sized {
    /// What emitting a run of values hands to a serializer.
    spec fn array_shape(items: Seq<Self>) -> Shape;

    /// Emits a run of values to `ser`.
    fn __serialize_array<S: Serializer>(this: &[Self], ser: &S) -> (r: Result<S::Ok, S::Error>)
        ensures
            emits(ser, Self::array_shape(this@), r),
    ;
}

/// The array whose elements are the shapes of `items`, in order.
pub open spec fn elements_shape<T: Serialize>(items: Seq<T>) -> Shape {
    Shape::Array(Seq::new(items.len(), |i: int| items[i].shape()))
}

/// Emits `items` as an array, element by element.
pub fn serialize_elements<T: Serialize, S: Serializer>(items: &[T], ser: &S) -> (r: Result<
    S::Ok,
    S::Error,
>)
    ensures
        emits(ser, elements_shape(items@), r),
{
    let ghost elems = Seq::new(items@.len(), |i: int| items@[i].shape());
    let start = ser.serialize_array(items.len());
    let mut b = match start {
        Err(e) => {
            return Err(e);
        },
        Ok(b) => b,
    };
    let ghost first = b;
    let mut i: usize = 0;
    while i < items.len()
        invariant
            0 <= i <= items.len(),
            elems == Seq::new(items@.len(), |i: int| items@[i].shape()),
            call_ensures(
                S::serialize_array,
                (ser, items.len()),
                Ok::<S::SerializeArray, S::Error>(first),
            ),
            forall|r: Result<S::Ok, S::Error>| #[trigger]
                array_emits(ser, elems, b, i as int, r) ==> array_emits(ser, elems, first, 0, r),
        decreases items.len() - i,
    {
        let ghost cur = b;
        let x = match items[i].serialize(ser) {
            Err(e) => {
                assert(array_emits(ser, elems, cur, i as int, Err::<S::Ok, S::Error>(e)));
                return Err(e);
            },
            Ok(x) => x,
        };
        let next = match b.serialize_element(x) {
            Err(e) => {
                assert(array_emits(ser, elems, cur, i as int, Err::<S::Ok, S::Error>(e)));
                return Err(e);
            },
            Ok(next) => next,
        };
        assert forall|r: Result<S::Ok, S::Error>| #[trigger]
            array_emits(ser, elems, next, i as int + 1, r) implies array_emits(
            ser,
            elems,
            first,
            0,
            r,
        ) by {
            assert(array_emits(ser, elems, cur, i as int, r));
        }
        b = next;
        i = i + 1;
    }
    let ghost last = b;
    let r = b.end();
    assert(array_emits(ser, elems, last, i as int, r));
    r
}

} // verus!
