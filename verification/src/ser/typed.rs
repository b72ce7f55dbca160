//! How a value is emitted together with its type.
//!
//! The type gives what the value lacks: the names of the variants of a sum
//! and of the elements of a product. Value and type are walked together, and
//! a reference in the type is replaced by the type it stands for whenever the
//! walk comes upon one. The walk follows the value, which is finite, so a type
//! that refers to itself makes no endless walk.
use crate::algebraic_type::{type_view, AlgebraicType, BuiltinType, TypeView};
use crate::algebraic_value::{
    array_view, AlgebraicValue, ArrayValue, BuiltinValue, ProductValue, SumValue, ValueView,
};
use crate::map_value::MapValue;
use crate::scalar::{Kind, ScalarKind};
use crate::ser::{
    array_emits, elements_shape, map_emits, named_product_emits, Serialize, SerializeArray,
    SerializeMap, SerializeNamedProduct, Serializer,
};
use crate::shape::Shape;
use crate::typespace::{lemma_view_kind, resolve};
use crate::value_with_type::{
    conforms, lemma_conforms_array, lemma_conforms_kind, lemma_conforms_mapping,
    lemma_conforms_product, lemma_conforms_resolved, ValueWithType,
};
use vstd::pervasive::{arbitrary, trigger, unreached};
use vstd::prelude::*;

verus! {

/// What emitting the value `v` together with the type `ty` of the typespace
/// `ts` hands to a serializer, where `ty` admits `v`.
///
/// A sum is a variant under the name that the type gives to its tag. A product
/// is a product of named elements, each under the name that the type gives to
/// its place. A scalar is itself. An array of bytes whose declared element
/// type is that of bytes goes out in bulk; any other array goes out element by
/// element, each element together with the declared element type. A map goes
/// out entry by entry in ascending order of the keys, each key together with
/// the declared type of keys and each value with that of values.
pub open spec fn typed_shape(ts: Seq<TypeView>, ty: TypeView, v: ValueView) -> Shape
    decreases v,
{
    match resolve(ts, ty) {
        None => arbitrary(),
        Some(t) => match v {
            ValueView::Sum { tag, payload } => Shape::Variant {
                tag,
                name: t->Sum_0[tag as int].0,
                payload: Box::new(typed_shape(ts, t->Sum_0[tag as int].1, *payload)),
            },
            ValueView::Product(elems) => Shape::NamedProduct(
                Seq::new(
                    elems.len(),
                    |i: int|
                        if 0 <= i < elems.len() {
                            (t->Product_0[i].0, typed_shape(ts, t->Product_0[i].1, elems[i]))
                        } else {
                            arbitrary()
                        },
                ),
            ),
            ValueView::Scalar(s) => Shape::Scalar(s),
            ValueView::Array { kind, elems } => if kind == Kind::Scalar(ScalarKind::U8)
                && resolve(ts, *t->Array_0) == Some(TypeView::Scalar(ScalarKind::U8)) {
                Shape::Bytes(Seq::new(elems.len(), |i: int| elems[i].byte()))
            } else {
                Shape::Array(
                    Seq::new(
                        elems.len(),
                        |i: int|
                            if 0 <= i < elems.len() {
                                typed_shape(ts, *t->Array_0, elems[i])
                            } else {
                                arbitrary()
                            },
                    ),
                )
            },
            ValueView::Mapping(entries) => Shape::Mapping(
                Seq::new(
                    entries.len(),
                    |i: int|
                        if 0 <= i < entries.len() {
                            (
                                typed_shape(ts, *t->Mapping_key, entries[i].0),
                                typed_shape(ts, *t->Mapping_value, entries[i].1),
                            )
                        } else {
                            arbitrary()
                        },
                ),
            ),
        },
    }
}

/// A value is emitted with a type as it is with the type that the type stands
/// for.
pub proof fn lemma_typed_shape_resolved(ts: Seq<TypeView>, ty: TypeView, v: ValueView)
    requires
        resolve(ts, ty) is Some,
    ensures
        typed_shape(ts, ty, v) == typed_shape(ts, resolve(ts, ty)->Some_0, v),
{
    lemma_conforms_resolved(ts, ty, v);
}

impl<'a> Serialize for ValueWithType<'a, AlgebraicValue> {
    open spec fn shape(&self) -> Shape {
        typed_shape(self@.typespace, self@.ty, self@.value)
    }

    fn serialize<S: Serializer>(&self, ser: &S) -> (r: Result<S::Ok, S::Error>)
        decreases self.value_ref(),
    {
        let val = self.value();
        let ts = self.typespace();
        proof {
            lemma_conforms_kind(ts@, self@.ty, val@);
            lemma_conforms_resolved(ts@, self@.ty, val@);
            lemma_typed_shape_resolved(ts@, self@.ty, val@);
            val.lemma_view_kind();
        }
        let t = match ts.resolve(self.ty()) {
            Some(t) => t,
            None => unreached(),
        };
        proof {
            lemma_view_kind(*t);
        }
        match (val, t) {
            (AlgebraicValue::Sum(v), AlgebraicType::Sum(t)) => self.with(t, v).serialize(ser),
            (AlgebraicValue::Product(v), AlgebraicType::Product(t)) => self.with(t, v).serialize(
                ser,
            ),
            (AlgebraicValue::Builtin(v), AlgebraicType::Builtin(t)) => self.with(t, v).serialize(
                ser,
            ),
            _ => unreached(),
        }
    }
}

/// A variant of a sum is emitted under its tag and under the name that the
/// sum type gives to the tag, around its payload together with the type that
/// the sum type declares for it.
impl<'a> Serialize for ValueWithType<'a, SumValue> {
    open spec fn shape(&self) -> Shape {
        typed_shape(self@.typespace, self@.ty, self@.value)
    }

    fn serialize<S: Serializer>(&self, ser: &S) -> (r: Result<S::Ok, S::Error>)
        decreases self.value_ref(),
    {
        let val = self.value();
        let ty = self.ty();
        let tag = val.tag;
        let var_ty = &ty.variants[tag as usize];
        let p = match self.with(&var_ty.algebraic_type, &*val.value).serialize(ser) {
            Err(e) => {
                return Err(e);
            },
            Ok(p) => p,
        };
        ser.serialize_variant(tag, var_ty.name(), p)
    }
}

/// A product is emitted as a product of named elements: each element under
/// the name that the product type declares in its place, together with the
/// type declared there.
impl<'a> Serialize for ValueWithType<'a, ProductValue> {
    open spec fn shape(&self) -> Shape {
        typed_shape(self@.typespace, self@.ty, self@.value)
    }

    fn serialize<S: Serializer>(&self, ser: &S) -> (r: Result<S::Ok, S::Error>)
        decreases self.value_ref(),
    {
        let val = self.value();
        let ty = self.ty();
        let ghost ts = self@.typespace;
        let ghost elems = val@->Product_0;
        let ghost fields = ty@->Product_0;
        let ghost shapes = self.shape()->NamedProduct_0;
        proof {
            lemma_conforms_product(ts, fields, elems);
        }
        let n = val.elements.len();
        let start = ser.serialize_named_product(n);
        let mut b = match start {
            Err(e) => {
                return Err(e);
            },
            Ok(b) => b,
        };
        let ghost first = b;
        let mut i: usize = 0;
        while i < n
            invariant
                0 <= i <= n,
                n == val.elements.len(),
                n == ty.elements.len(),
                val == self.value_ref(),
                val@ == self@.value,
                ty@ == self@.ty,
                ts == self@.typespace,
                elems == val@->Product_0,
                fields == ty@->Product_0,
                forall|j: int| 0 <= j < n ==> conforms(ts, fields[j].1, #[trigger] elems[j]),
                shapes == self.shape()->NamedProduct_0,
                self.shape() is NamedProduct,
                shapes.len() == n,
                call_ensures(
                    S::serialize_named_product,
                    (ser, n),
                    Ok::<S::SerializeNamedProduct, S::Error>(first),
                ),
                forall|r: Result<S::Ok, S::Error>| #[trigger]
                    named_product_emits(ser, shapes, b, i as int, r) ==> named_product_emits(
                        ser,
                        shapes,
                        first,
                        0,
                        r,
                    ),
            decreases n - i,
        {
            let ghost cur = b;
            let el_ty = &ty.elements[i];
            assert(shapes[i as int] == (
                fields[i as int].0,
                typed_shape(ts, fields[i as int].1, elems[i as int]),
            ));
            assert(conforms(ts, fields[i as int].1, elems[i as int]));
            let x = match self.with(&el_ty.algebraic_type, &val.elements[i]).serialize(ser) {
                Err(e) => {
                    assert(named_product_emits(
                        ser,
                        shapes,
                        cur,
                        i as int,
                        Err::<S::Ok, S::Error>(e),
                    ));
                    return Err(e);
                },
                Ok(x) => x,
            };
            let next = match b.serialize_element(el_ty.name(), x) {
                Err(e) => {
                    assert(named_product_emits(
                        ser,
                        shapes,
                        cur,
                        i as int,
                        Err::<S::Ok, S::Error>(e),
                    ));
                    return Err(e);
                },
                Ok(next) => next,
            };
            assert forall|r: Result<S::Ok, S::Error>| #[trigger]
                named_product_emits(ser, shapes, next, i as int + 1, r) implies named_product_emits(
                ser,
                shapes,
                first,
                0,
                r,
            ) by {
                assert(named_product_emits(ser, shapes, cur, i as int, r));
            }
            b = next;
            i = i + 1;
        }
        let ghost last = b;
        let r = b.end();
        assert(named_product_emits(ser, shapes, last, i as int, r));
        r
    }
}

/// A builtin value is emitted as the scalar that it holds, or as the array or
/// the map that it holds together with the array type or the map type.
impl<'a> Serialize for ValueWithType<'a, BuiltinValue> {
    open spec fn shape(&self) -> Shape {
        typed_shape(self@.typespace, self@.ty, self@.value)
    }

    fn serialize<S: Serializer>(&self, ser: &S) -> (r: Result<S::Ok, S::Error>)
        decreases self.value_ref(),
    {
        let val = self.value();
        let ty = self.ty();
        proof {
            val.lemma_view_kind();
            lemma_conforms_kind(self@.typespace, self@.ty, val@);
        }
        match val {
            BuiltinValue::Bool(v) => ser.serialize_bool(*v),
            BuiltinValue::I8(v) => ser.serialize_i8(*v),
            BuiltinValue::U8(v) => ser.serialize_u8(*v),
            BuiltinValue::I16(v) => ser.serialize_i16(*v),
            BuiltinValue::U16(v) => ser.serialize_u16(*v),
            BuiltinValue::I32(v) => ser.serialize_i32(*v),
            BuiltinValue::U32(v) => ser.serialize_u32(*v),
            BuiltinValue::I64(v) => ser.serialize_i64(*v),
            BuiltinValue::U64(v) => ser.serialize_u64(*v),
            BuiltinValue::I128(v) => ser.serialize_i128(*v),
            BuiltinValue::U128(v) => ser.serialize_u128(*v),
            BuiltinValue::F32(v) => ser.serialize_f32(*v),
            BuiltinValue::F64(v) => ser.serialize_f64(*v),
            BuiltinValue::String(v) => ser.serialize_str(v.as_str()),
            BuiltinValue::Array { val: a } => match ty {
                BuiltinType::Array(t) => self.with(t, a).serialize(ser),
                _ => unreached(),
            },
            BuiltinValue::Mapping { val: m } => match ty {
                BuiltinType::Mapping(t) => self.with(t, m).serialize(ser),
                _ => unreached(),
            },
        }
    }
}

/// An array is emitted by the kind of its elements. Where the declared
/// element type stands for a type of that kind, an array of scalars goes out
/// as a vector of them does, bytes in bulk, and an array of sums, products,
/// arrays or maps goes out element by element, each together with that type.
/// Where it does not, the array has no elements, and an array without
/// elements goes out.
impl<'a> Serialize for ValueWithType<'a, ArrayValue> {
    open spec fn shape(&self) -> Shape {
        typed_shape(self@.typespace, self@.ty, self@.value)
    }

    fn serialize<S: Serializer>(&self, ser: &S) -> (r: Result<S::Ok, S::Error>)
        decreases self.value_ref(),
    {
        let val = self.value();
        let ty = self.ty();
        let ts = self.typespace();
        let ghost elems = val.elems();
        let ghost elem_ty = *ty@->Array_0;
        proof {
            lemma_conforms_array(ts@, elem_ty, val.elem_kind(), elems);
        }
        let n = val.len();
        let kind = val.kind();
        let resolved = ts.resolve(&*ty.elem_ty);
        let of_kind = match resolved {
            Some(t) => match t.kind() {
                Some(k) => k == kind,
                None => false,
            },
            None => false,
        };
        if !of_kind {
            proof {
                if n > 0 {
                    val.lemma_elems_kind(0);
                    lemma_conforms_kind(ts@, elem_ty, elems[0]);
                }
                assert(self.shape()->Array_0 =~= Seq::<Shape>::empty());
            }
            let start = ser.serialize_array(0);
            return match start {
                Err(e) => Err(e),
                Ok(b) => {
                    let r = b.end();
                    assert(array_emits(ser, Seq::<Shape>::empty(), b, 0, r));
                    r
                },
            };
        }
        let t = match resolved {
            Some(t) => t,
            None => unreached(),
        };
        proof {
            lemma_view_kind(*t);
        }
        match val {
            ArrayValue::Bool(v) => {
                assert(self.shape() == elements_shape(v@)) by {
                    reveal_with_fuel(array_view, 2);
                    reveal_with_fuel(typed_shape, 2);
                    assert(self.shape()->Array_0 =~= elements_shape(v@)->Array_0);
                }
                v.serialize(ser)
            },
            ArrayValue::I8(v) => {
                assert(self.shape() == elements_shape(v@)) by {
                    reveal_with_fuel(array_view, 2);
                    reveal_with_fuel(typed_shape, 2);
                    assert(self.shape()->Array_0 =~= elements_shape(v@)->Array_0);
                }
                v.serialize(ser)
            },
            ArrayValue::U8(v) => {
                assert(self.shape() == Shape::Bytes(v@)) by {
                    reveal_with_fuel(array_view, 2);
                    assert(self.shape()->Bytes_0 =~= v@);
                }
                v.serialize(ser)
            },
            ArrayValue::I16(v) => {
                assert(self.shape() == elements_shape(v@)) by {
                    reveal_with_fuel(array_view, 2);
                    reveal_with_fuel(typed_shape, 2);
                    assert(self.shape()->Array_0 =~= elements_shape(v@)->Array_0);
                }
                v.serialize(ser)
            },
            ArrayValue::U16(v) => {
                assert(self.shape() == elements_shape(v@)) by {
                    reveal_with_fuel(array_view, 2);
                    reveal_with_fuel(typed_shape, 2);
                    assert(self.shape()->Array_0 =~= elements_shape(v@)->Array_0);
                }
                v.serialize(ser)
            },
            ArrayValue::I32(v) => {
                assert(self.shape() == elements_shape(v@)) by {
                    reveal_with_fuel(array_view, 2);
                    reveal_with_fuel(typed_shape, 2);
                    assert(self.shape()->Array_0 =~= elements_shape(v@)->Array_0);
                }
                v.serialize(ser)
            },
            ArrayValue::U32(v) => {
                assert(self.shape() == elements_shape(v@)) by {
                    reveal_with_fuel(array_view, 2);
                    reveal_with_fuel(typed_shape, 2);
                    assert(self.shape()->Array_0 =~= elements_shape(v@)->Array_0);
                }
                v.serialize(ser)
            },
            ArrayValue::I64(v) => {
                assert(self.shape() == elements_shape(v@)) by {
                    reveal_with_fuel(array_view, 2);
                    reveal_with_fuel(typed_shape, 2);
                    assert(self.shape()->Array_0 =~= elements_shape(v@)->Array_0);
                }
                v.serialize(ser)
            },
            ArrayValue::U64(v) => {
                assert(self.shape() == elements_shape(v@)) by {
                    reveal_with_fuel(array_view, 2);
                    reveal_with_fuel(typed_shape, 2);
                    assert(self.shape()->Array_0 =~= elements_shape(v@)->Array_0);
                }
                v.serialize(ser)
            },
            ArrayValue::I128(v) => {
                assert(self.shape() == elements_shape(v@)) by {
                    reveal_with_fuel(array_view, 2);
                    reveal_with_fuel(typed_shape, 2);
                    assert(self.shape()->Array_0 =~= elements_shape(v@)->Array_0);
                }
                v.serialize(ser)
            },
            ArrayValue::U128(v) => {
                assert(self.shape() == elements_shape(v@)) by {
                    reveal_with_fuel(array_view, 2);
                    reveal_with_fuel(typed_shape, 2);
                    assert(self.shape()->Array_0 =~= elements_shape(v@)->Array_0);
                }
                v.serialize(ser)
            },
            ArrayValue::F32(v) => {
                assert(self.shape() == elements_shape(v@)) by {
                    reveal_with_fuel(array_view, 2);
                    reveal_with_fuel(typed_shape, 2);
                    assert(self.shape()->Array_0 =~= elements_shape(v@)->Array_0);
                }
                v.serialize(ser)
            },
            ArrayValue::F64(v) => {
                assert(self.shape() == elements_shape(v@)) by {
                    reveal_with_fuel(array_view, 2);
                    reveal_with_fuel(typed_shape, 2);
                    assert(self.shape()->Array_0 =~= elements_shape(v@)->Array_0);
                }
                v.serialize(ser)
            },
            ArrayValue::String(v) => {
                assert(self.shape() == elements_shape(v@)) by {
                    reveal_with_fuel(array_view, 2);
                    reveal_with_fuel(typed_shape, 2);
                    assert(self.shape()->Array_0 =~= elements_shape(v@)->Array_0);
                }
                v.serialize(ser)
            },
            _ => {
                let ghost shapes = self.shape()->Array_0;
                let start = ser.serialize_array(n);
                let mut b = match start {
                    Err(e) => {
                        return Err(e);
                    },
                    Ok(b) => b,
                };
                let ghost first = b;
                let mut i: usize = 0;
                while i < n
                    invariant
                        0 <= i <= n,
                        n == val.elems().len(),
                        val == self.value_ref(),
                        val@ == self@.value,
                        ty@ == self@.ty,
                        ts@ == self@.typespace,
                        elems == val.elems(),
                        elem_ty == *ty@->Array_0,
                        resolve(ts@, elem_ty) == Some(t@),
                        !(t is Ref),
                        kind == val.elem_kind(),
                        val is Sum || val is Product || val is Array || val is Mapping,
                        t@.kind() == Some(kind),
                        forall|j: int| 0 <= j < n ==> conforms(ts@, elem_ty, #[trigger] elems[j]),
                        shapes == self.shape()->Array_0,
                        self.shape() is Array,
                        shapes.len() == n,
                        call_ensures(
                            S::serialize_array,
                            (ser, n),
                            Ok::<S::SerializeArray, S::Error>(first),
                        ),
                        forall|r: Result<S::Ok, S::Error>| #[trigger]
                            array_emits(ser, shapes, b, i as int, r) ==> array_emits(
                                ser,
                                shapes,
                                first,
                                0,
                                r,
                            ),
                    decreases n - i,
                {
                    let ghost cur = b;
                    proof {
                        assert(shapes[i as int] == typed_shape(ts@, elem_ty, elems[i as int]));
                        assert(conforms(ts@, elem_ty, elems[i as int]));
                        lemma_conforms_resolved(ts@, elem_ty, elems[i as int]);
                        lemma_typed_shape_resolved(ts@, elem_ty, elems[i as int]);
                        lemma_view_kind(*t);
                        reveal_with_fuel(array_view, 2);
                        reveal_with_fuel(type_view, 2);
                    }
                    let sub = match (val, t) {
                        (ArrayValue::Sum(v), AlgebraicType::Sum(t)) => self.with(
                            t,
                            &v[i],
                        ).serialize(ser),
                        (ArrayValue::Product(v), AlgebraicType::Product(t)) => self.with(
                            t,
                            &v[i],
                        ).serialize(ser),
                        (
                            ArrayValue::Array(v),
                            AlgebraicType::Builtin(BuiltinType::Array(t)),
                        ) => self.with(t, &v[i]).serialize(ser),
                        (
                            ArrayValue::Mapping(v),
                            AlgebraicType::Builtin(BuiltinType::Mapping(t)),
                        ) => self.with(t, &v[i]).serialize(ser),
                        _ => unreached(),
                    };
                    let x = match sub {
                        Err(e) => {
                            assert(array_emits(
                                ser,
                                shapes,
                                cur,
                                i as int,
                                Err::<S::Ok, S::Error>(e),
                            ));
                            return Err(e);
                        },
                        Ok(x) => x,
                    };
                    let next = match b.serialize_element(x) {
                        Err(e) => {
                            assert(array_emits(
                                ser,
                                shapes,
                                cur,
                                i as int,
                                Err::<S::Ok, S::Error>(e),
                            ));
                            return Err(e);
                        },
                        Ok(next) => next,
                    };
                    assert forall|r: Result<S::Ok, S::Error>| #[trigger]
                        array_emits(ser, shapes, next, i as int + 1, r) implies array_emits(
                        ser,
                        shapes,
                        first,
                        0,
                        r,
                    ) by {
                        assert(array_emits(ser, shapes, cur, i as int, r));
                    }
                    b = next;
                    i = i + 1;
                }
                let ghost last = b;
                let r = b.end();
                assert(array_emits(ser, shapes, last, i as int, r));
                r
            },
        }
    }
}

/// A map is emitted entry by entry, in ascending order of the keys: each key
/// together with the declared type of keys, then its value together with the
/// declared type of values.
impl<'a> Serialize for ValueWithType<'a, MapValue> {
    open spec fn shape(&self) -> Shape {
        typed_shape(self@.typespace, self@.ty, self@.value)
    }

    fn serialize<S: Serializer>(&self, ser: &S) -> (r: Result<S::Ok, S::Error>)
        decreases self.value_ref(),
    {
        let val = self.value();
        let ty = self.ty();
        let ghost ts = self@.typespace;
        let ghost entries = val.entries_view();
        let ghost key_ty = *ty@->Mapping_key;
        let ghost value_ty = *ty@->Mapping_value;
        let ghost shapes = self.shape()->Mapping_0;
        proof {
            lemma_conforms_mapping(ts, key_ty, value_ty, entries);
        }
        let n = val.len();
        let start = ser.serialize_map(n);
        let mut b = match start {
            Err(e) => {
                return Err(e);
            },
            Ok(b) => b,
        };
        let ghost first = b;
        let mut i: usize = 0;
        while i < n
            invariant
                0 <= i <= n,
                n == val.entries_view().len(),
                val == self.value_ref(),
                val@ == self@.value,
                ty@ == self@.ty,
                ts == self@.typespace,
                entries == val.entries_view(),
                key_ty == *ty@->Mapping_key,
                value_ty == *ty@->Mapping_value,
                forall|j: int| 0 <= j < n ==> conforms(ts, key_ty, #[trigger] entries[j].0),
                forall|j: int| 0 <= j < n ==> conforms(ts, value_ty, #[trigger] entries[j].1),
                shapes == self.shape()->Mapping_0,
                self.shape() is Mapping,
                shapes.len() == n,
                call_ensures(S::serialize_map, (ser, n), Ok::<S::SerializeMap, S::Error>(first)),
                forall|r: Result<S::Ok, S::Error>| #[trigger]
                    map_emits(ser, shapes, b, i as int, r) ==> map_emits(ser, shapes, first, 0, r),
            decreases n - i,
        {
            let ghost cur = b;
            assert(shapes[i as int] == (
                typed_shape(ts, key_ty, entries[i as int].0),
                typed_shape(ts, value_ty, entries[i as int].1),
            ));
            assert(conforms(ts, key_ty, entries[i as int].0));
            assert(conforms(ts, value_ty, entries[i as int].1));
            let k = match self.with(&*ty.key_ty, val.key(i)).serialize(ser) {
                Err(e) => {
                    assert(map_emits(ser, shapes, cur, i as int, Err::<S::Ok, S::Error>(e)));
                    return Err(e);
                },
                Ok(k) => k,
            };
            let v = match self.with(&*ty.ty, val.value(i)).serialize(ser) {
                Err(e) => {
                    assert(trigger(k));
                    assert(map_emits(ser, shapes, cur, i as int, Err::<S::Ok, S::Error>(e)));
                    return Err(e);
                },
                Ok(v) => v,
            };
            let next = match b.serialize_entry(k, v) {
                Err(e) => {
                    assert(map_emits(ser, shapes, cur, i as int, Err::<S::Ok, S::Error>(e)));
                    return Err(e);
                },
                Ok(next) => next,
            };
            assert forall|r: Result<S::Ok, S::Error>| #[trigger]
                map_emits(ser, shapes, next, i as int + 1, r) implies map_emits(
                ser,
                shapes,
                first,
                0,
                r,
            ) by {
                assert(map_emits(ser, shapes, cur, i as int, r));
            }
            b = next;
            i = i + 1;
        }
        let ghost last = b;
        let r = b.end();
        assert(map_emits(ser, shapes, last, i as int, r));
        r
    }
}

} // verus!
