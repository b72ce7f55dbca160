//! How the values of the model are emitted without a schema.
//!
//! Nothing is emitted for the wrappers of the model: a value of any kind, a
//! builtin value and an array are emitted as the sum, product, scalar, array or
//! map that they hold. Which wrapper held it cannot be told from the emission.
use crate::algebraic_value::{
    AlgebraicValue, ArrayValue, BuiltinValue, ProductValue, SumValue, ValueView,
};
use crate::map_value::MapValue;
use crate::scalar::{Kind, Scalar, ScalarKind};
use crate::ser::{
    array_emits, elements_shape, map_emits, seq_product_emits, serialize_elements,
    Serialize, SerializeArray, SerializeElement, SerializeMap, SerializeSeqProduct, Serializer,
};
use crate::shape::Shape;
use vstd::pervasive::{arbitrary, trigger, unreached};
use vstd::prelude::*;

verus! {

impl ValueView {
    /// What emitting the value without a schema hands to a serializer: a sum
    /// as a variant without a name, a product as a product without names, a
    /// scalar as itself, an array of bytes in bulk, any other array element by
    /// element, and a map entry by entry in ascending order of the keys.
    pub open spec fn shape(self) -> Shape
        decreases self,
    {
        match self {
            ValueView::Sum { tag, payload } => Shape::Variant {
                tag,
                name: None,
                payload: Box::new(payload.shape()),
            },
            ValueView::Product(elems) => Shape::SeqProduct(
                Seq::new(
                    elems.len(),
                    |i: int|
                        if 0 <= i < elems.len() {
                            elems[i].shape()
                        } else {
                            arbitrary()
                        },
                ),
            ),
            ValueView::Scalar(s) => Shape::Scalar(s),
            ValueView::Array { kind, elems } => if kind == Kind::Scalar(ScalarKind::U8) {
                Shape::Bytes(Seq::new(elems.len(), |i: int| elems[i].byte()))
            } else {
                Shape::Array(
                    Seq::new(
                        elems.len(),
                        |i: int|
                            if 0 <= i < elems.len() {
                                elems[i].shape()
                            } else {
                                arbitrary()
                            },
                    ),
                )
            },
            ValueView::Mapping(entries) => Shape::Mapping(
                Seq::new(
                    entries.len(),
                    |i: int|
                        if 0 <= i < entries.len() {
                            (entries[i].0.shape(), entries[i].1.shape())
                        } else {
                            arbitrary()
                        },
                ),
            ),
        }
    }

    /// The byte that the value is, where it is one.
    pub open spec fn byte(self) -> u8 {
        match self {
            ValueView::Scalar(Scalar::U8(b)) => b,
            _ => 0,
        }
    }
}

impl Serialize for AlgebraicValue {
    open spec fn shape(&self) -> Shape {
        self@.shape()
    }

    fn serialize<S: Serializer>(&self, ser: &S) -> (r: Result<S::Ok, S::Error>)
        decreases self,
    {
        match self {
            AlgebraicValue::Sum(sum) => sum.serialize(ser),
            AlgebraicValue::Product(prod) => prod.serialize(ser),
            AlgebraicValue::Builtin(b) => b.serialize(ser),
        }
    }
}

/// A variant of a sum is emitted under its tag and without a name: the value
/// knows none.
impl Serialize for SumValue {
    open spec fn shape(&self) -> Shape {
        self@.shape()
    }

    fn serialize<S: Serializer>(&self, ser: &S) -> (r: Result<S::Ok, S::Error>)
        decreases self,
    {
        match (*self.value).serialize(ser) {
            Err(e) => Err(e),
            Ok(p) => ser.serialize_variant(self.tag, None, p),
        }
    }
}

/// A product is emitted as its elements in order, without names.
impl Serialize for ProductValue {
    open spec fn shape(&self) -> Shape {
        self@.shape()
    }

    fn serialize<S: Serializer>(&self, ser: &S) -> (r: Result<S::Ok, S::Error>)
        decreases self,
    {
        let ghost shapes = self@.shape()->SeqProduct_0;
        let n = self.elements.len();
        let start = ser.serialize_seq_product(n);
        let mut b = match start {
            Err(e) => {
                return Err(e);
            },
            Ok(b) => b,
        };
        let ghost first = b;
        let mut i: usize = 0;
        while i < n
            invariant
                0 <= i <= n,
                n == self.elements.len(),
                shapes == self@.shape()->SeqProduct_0,
                shapes.len() == n,
                call_ensures(
                    S::serialize_seq_product,
                    (ser, n),
                    Ok::<S::SerializeSeqProduct, S::Error>(first),
                ),
                forall|r: Result<S::Ok, S::Error>| #[trigger]
                    seq_product_emits(ser, shapes, b, i as int, r) ==> seq_product_emits(
                        ser,
                        shapes,
                        first,
                        0,
                        r,
                    ),
            decreases n - i,
        {
            let ghost cur = b;
            assert(shapes[i as int] == self.elements[i as int]@.shape());
            let x = match self.elements[i].serialize(ser) {
                Err(e) => {
                    assert(seq_product_emits(
                        ser,
                        shapes,
                        cur,
                        i as int,
                        Err::<S::Ok, S::Error>(e),
                    ));
                    return Err(e);
                },
                Ok(x) => x,
            };
            let next = match b.serialize_element(x) {
                Err(e) => {
                    assert(seq_product_emits(
                        ser,
                        shapes,
                        cur,
                        i as int,
                        Err::<S::Ok, S::Error>(e),
                    ));
                    return Err(e);
                },
                Ok(next) => next,
            };
            assert forall|r: Result<S::Ok, S::Error>| #[trigger]
                seq_product_emits(ser, shapes, next, i as int + 1, r) implies seq_product_emits(
                ser,
                shapes,
                first,
                0,
                r,
            ) by {
                assert(seq_product_emits(ser, shapes, cur, i as int, r));
            }
            b = next;
            i = i + 1;
        }
        let ghost last = b;
        let r = b.end();
        assert(seq_product_emits(ser, shapes, last, i as int, r));
        r
    }
}

/// A builtin value is emitted as the scalar, the array or the map that it
/// holds.
impl Serialize for BuiltinValue {
    open spec fn shape(&self) -> Shape {
        self@.shape()
    }

    fn serialize<S: Serializer>(&self, ser: &S) -> (r: Result<S::Ok, S::Error>)
        decreases self,
    {
        match self {
            BuiltinValue::Bool(v) => ser.serialize_bool(*v),
            BuiltinValue::I8(v) => ser.serialize_i8(*v),
            BuiltinValue::U8(v) => ser.serialize_u8(*v),
            BuiltinValue::I16(v) => ser.serialize_i16(*v),
            BuiltinValue::U16(v) => ser.serialize_u16(*v),
            BuiltinValue::I32(v) => ser.serialize_i32(*v),
            BuiltinValue::U32(v) => ser.serialize_u32(*v),
            BuiltinValue::I64(v) => ser.serialize_i64(*v),
            BuiltinValue::U64(v) => ser.serialize_u64(*v),
            BuiltinValue::I128(v) => ser.serialize_i128(*v),
            BuiltinValue::U128(v) => ser.serialize_u128(*v),
            BuiltinValue::F32(v) => ser.serialize_f32(*v),
            BuiltinValue::F64(v) => ser.serialize_f64(*v),
            BuiltinValue::String(v) => ser.serialize_str(v.as_str()),
            BuiltinValue::Array { val } => val.serialize(ser),
            BuiltinValue::Mapping { val } => val.serialize(ser),
        }
    }
}

/// An array of scalars is emitted as a vector of them is: bytes in bulk, the
/// others one by one. An array of sums, products, arrays or maps is emitted
/// element by element.
impl Serialize for ArrayValue {
    open spec fn shape(&self) -> Shape {
        self@.shape()
    }

    fn serialize<S: Serializer>(&self, ser: &S) -> (r: Result<S::Ok, S::Error>)
        decreases self,
    {
        match self {
            ArrayValue::Bool(v) => {
                assert(self@.shape() == elements_shape(v@)) by {
                    reveal_with_fuel(ValueView::shape, 2);
                    assert(self@.shape()->Array_0 =~= elements_shape(v@)->Array_0);
                }
                v.serialize(ser)
            },
            ArrayValue::I8(v) => {
                assert(self@.shape() == elements_shape(v@)) by {
                    reveal_with_fuel(ValueView::shape, 2);
                    assert(self@.shape()->Array_0 =~= elements_shape(v@)->Array_0);
                }
                v.serialize(ser)
            },
            ArrayValue::U8(v) => {
                assert(self@.shape() == Shape::Bytes(v@)) by {
                    assert(self@.shape()->Bytes_0 =~= v@);
                }
                v.serialize(ser)
            },
            ArrayValue::I16(v) => {
                assert(self@.shape() == elements_shape(v@)) by {
                    reveal_with_fuel(ValueView::shape, 2);
                    assert(self@.shape()->Array_0 =~= elements_shape(v@)->Array_0);
                }
                v.serialize(ser)
            },
            ArrayValue::U16(v) => {
                assert(self@.shape() == elements_shape(v@)) by {
                    reveal_with_fuel(ValueView::shape, 2);
                    assert(self@.shape()->Array_0 =~= elements_shape(v@)->Array_0);
                }
                v.serialize(ser)
            },
            ArrayValue::I32(v) => {
                assert(self@.shape() == elements_shape(v@)) by {
                    reveal_with_fuel(ValueView::shape, 2);
                    assert(self@.shape()->Array_0 =~= elements_shape(v@)->Array_0);
                }
                v.serialize(ser)
            },
            ArrayValue::U32(v) => {
                assert(self@.shape() == elements_shape(v@)) by {
                    reveal_with_fuel(ValueView::shape, 2);
                    assert(self@.shape()->Array_0 =~= elements_shape(v@)->Array_0);
                }
                v.serialize(ser)
            },
            ArrayValue::I64(v) => {
                assert(self@.shape() == elements_shape(v@)) by {
                    reveal_with_fuel(ValueView::shape, 2);
                    assert(self@.shape()->Array_0 =~= elements_shape(v@)->Array_0);
                }
                v.serialize(ser)
            },
            ArrayValue::U64(v) => {
                assert(self@.shape() == elements_shape(v@)) by {
                    reveal_with_fuel(ValueView::shape, 2);
                    assert(self@.shape()->Array_0 =~= elements_shape(v@)->Array_0);
                }
                v.serialize(ser)
            },
            ArrayValue::I128(v) => {
                assert(self@.shape() == elements_shape(v@)) by {
                    reveal_with_fuel(ValueView::shape, 2);
                    assert(self@.shape()->Array_0 =~= elements_shape(v@)->Array_0);
                }
                v.serialize(ser)
            },
            ArrayValue::U128(v) => {
                assert(self@.shape() == elements_shape(v@)) by {
                    reveal_with_fuel(ValueView::shape, 2);
                    assert(self@.shape()->Array_0 =~= elements_shape(v@)->Array_0);
                }
                v.serialize(ser)
            },
            ArrayValue::F32(v) => {
                assert(self@.shape() == elements_shape(v@)) by {
                    reveal_with_fuel(ValueView::shape, 2);
                    assert(self@.shape()->Array_0 =~= elements_shape(v@)->Array_0);
                }
                v.serialize(ser)
            },
            ArrayValue::F64(v) => {
                assert(self@.shape() == elements_shape(v@)) by {
                    reveal_with_fuel(ValueView::shape, 2);
                    assert(self@.shape()->Array_0 =~= elements_shape(v@)->Array_0);
                }
                v.serialize(ser)
            },
            ArrayValue::String(v) => {
                assert(self@.shape() == elements_shape(v@)) by {
                    reveal_with_fuel(ValueView::shape, 2);
                    assert(self@.shape()->Array_0 =~= elements_shape(v@)->Array_0);
                }
                v.serialize(ser)
            },
            _ => {
                let ghost shapes = self@.shape()->Array_0;
                let n = self.len();
                let start = ser.serialize_array(n);
                let mut b = match start {
                    Err(e) => {
                        return Err(e);
                    },
                    Ok(b) => b,
                };
                let ghost first = b;
                let mut i: usize = 0;
                while i < n
                    invariant
                        0 <= i <= n,
                        n == self.elems().len(),
                        self is Sum || self is Product || self is Array || self is Mapping,
                        shapes == self@.shape()->Array_0,
                        self@.shape() is Array,
                        shapes.len() == n,
                        call_ensures(
                            S::serialize_array,
                            (ser, n),
                            Ok::<S::SerializeArray, S::Error>(first),
                        ),
                        forall|r: Result<S::Ok, S::Error>| #[trigger]
                            array_emits(ser, shapes, b, i as int, r) ==> array_emits(
                                ser,
                                shapes,
                                first,
                                0,
                                r,
                            ),
                    decreases n - i,
                {
                    let ghost cur = b;
                    assert(shapes[i as int] == self.elems()[i as int].shape());
                    let sub = match self {
                        ArrayValue::Sum(v) => v[i].serialize(ser),
                        ArrayValue::Product(v) => v[i].serialize(ser),
                        ArrayValue::Array(v) => v[i].serialize(ser),
                        ArrayValue::Mapping(v) => v[i].serialize(ser),
                        _ => unreached(),
                    };
                    let x = match sub {
                        Err(e) => {
                            assert(array_emits(
                                ser,
                                shapes,
                                cur,
                                i as int,
                                Err::<S::Ok, S::Error>(e),
                            ));
                            return Err(e);
                        },
                        Ok(x) => x,
                    };
                    let next = match b.serialize_element(x) {
                        Err(e) => {
                            assert(array_emits(
                                ser,
                                shapes,
                                cur,
                                i as int,
                                Err::<S::Ok, S::Error>(e),
                            ));
                            return Err(e);
                        },
                        Ok(next) => next,
                    };
                    assert forall|r: Result<S::Ok, S::Error>| #[trigger]
                        array_emits(ser, shapes, next, i as int + 1, r) implies array_emits(
                        ser,
                        shapes,
                        first,
                        0,
                        r,
                    ) by {
                        assert(array_emits(ser, shapes, cur, i as int, r));
                    }
                    b = next;
                    i = i + 1;
                }
                let ghost last = b;
                let r = b.end();
                assert(array_emits(ser, shapes, last, i as int, r));
                r
            },
        }
    }
}

/// A map is emitted entry by entry, in ascending order of the keys, the key
/// of each entry before its value.
impl Serialize for MapValue {
    open spec fn shape(&self) -> Shape {
        self@.shape()
    }

    fn serialize<S: Serializer>(&self, ser: &S) -> (r: Result<S::Ok, S::Error>)
        decreases self,
    {
        let ghost shapes = self@.shape()->Mapping_0;
        let n = self.len();
        let start = ser.serialize_map(n);
        let mut b = match start {
            Err(e) => {
                return Err(e);
            },
            Ok(b) => b,
        };
        let ghost first = b;
        let mut i: usize = 0;
        while i < n
            invariant
                0 <= i <= n,
                n == self.entries_view().len(),
                shapes == self@.shape()->Mapping_0,
                shapes.len() == n,
                call_ensures(S::serialize_map, (ser, n), Ok::<S::SerializeMap, S::Error>(first)),
                forall|r: Result<S::Ok, S::Error>| #[trigger]
                    map_emits(ser, shapes, b, i as int, r) ==> map_emits(ser, shapes, first, 0, r),
            decreases n - i,
        {
            let ghost cur = b;
            assert(shapes[i as int] == (
                self.entries_view()[i as int].0.shape(),
                self.entries_view()[i as int].1.shape(),
            ));
            let k = match self.key(i).serialize(ser) {
                Err(e) => {
                    assert(map_emits(ser, shapes, cur, i as int, Err::<S::Ok, S::Error>(e)));
                    return Err(e);
                },
                Ok(k) => k,
            };
            let v = match self.value(i).serialize(ser) {
                Err(e) => {
                    assert(trigger(k));
                    assert(map_emits(ser, shapes, cur, i as int, Err::<S::Ok, S::Error>(e)));
                    return Err(e);
                },
                Ok(v) => v,
            };
            let next = match b.serialize_entry(k, v) {
                Err(e) => {
                    assert(map_emits(ser, shapes, cur, i as int, Err::<S::Ok, S::Error>(e)));
                    return Err(e);
                },
                Ok(next) => next,
            };
            assert forall|r: Result<S::Ok, S::Error>| #[trigger]
                map_emits(ser, shapes, next, i as int + 1, r) implies map_emits(
                ser,
                shapes,
                first,
                0,
                r,
            ) by {
                assert(map_emits(ser, shapes, cur, i as int, r));
            }
            b = next;
            i = i + 1;
        }
        let ghost last = b;
        let r = b.end();
        assert(map_emits(ser, shapes, last, i as int, r));
        r
    }
}

impl SerializeElement for AlgebraicValue {
    open spec fn array_shape(items: Seq<Self>) -> Shape {
        elements_shape(items)
    }

    fn __serialize_array<S: Serializer>(this: &[Self], ser: &S) -> (r: Result<S::Ok, S::Error>) {
        serialize_elements(this, ser)
    }
}

impl SerializeElement for SumValue {
    open spec fn array_shape(items: Seq<Self>) -> Shape {
        elements_shape(items)
    }

    fn __serialize_array<S: Serializer>(this: &[Self], ser: &S) -> (r: Result<S::Ok, S::Error>) {
        serialize_elements(this, ser)
    }
}

impl SerializeElement for ProductValue {
    open spec fn array_shape(items: Seq<Self>) -> Shape {
        elements_shape(items)
    }

    fn __serialize_array<S: Serializer>(this: &[Self], ser: &S) -> (r: Result<S::Ok, S::Error>) {
        serialize_elements(this, ser)
    }
}

impl SerializeElement for BuiltinValue {
    open spec fn array_shape(items: Seq<Self>) -> Shape {
        elements_shape(items)
    }

    fn __serialize_array<S: Serializer>(this: &[Self], ser: &S) -> (r: Result<S::Ok, S::Error>) {
        serialize_elements(this, ser)
    }
}

impl SerializeElement for ArrayValue {
    open spec fn array_shape(items: Seq<Self>) -> Shape {
        elements_shape(items)
    }

    fn __serialize_array<S: Serializer>(this: &[Self], ser: &S) -> (r: Result<S::Ok, S::Error>) {
        serialize_elements(this, ser)
    }
}

impl SerializeElement for MapValue {
    open spec fn array_shape(items: Seq<Self>) -> Shape {
        elements_shape(items)
    }

    fn __serialize_array<S: Serializer>(this: &[Self], ser: &S) -> (r: Result<S::Ok, S::Error>) {
        serialize_elements(this, ser)
    }
}

} // verus!
