//! Values paired with a type: which values a type admits, and the pairing of
//! a value with a type that admits it.
//!
//! A value carries no names; its type does. To emit a value with names the
//! two are walked together, which makes sense only where the type admits the
//! value. [`conforms`] says when it does, [`Value::conforms_to`] decides it, and
//! a [`ValueWithType`] holds a value and a type of which it is known.
use crate::algebraic_type::{
    AlgebraicType, ArrayType, BuiltinType, MapType, ProductType, SumType, TypeView,
};
use crate::algebraic_value::{
    AlgebraicValue, ArrayValue, BuiltinValue, ProductValue, SumValue, ValueView,
};
use crate::map_value::MapValue;
use crate::scalar::Kind;
use crate::typespace::{lemma_view_kind, resolve, Typespace};
use vstd::pervasive::unreached;
use vstd::prelude::*;

verus! {

/// The type `ty` of the typespace `ts` admits the value `v`.
///
/// What `ty` stands for in `ts` must be of the kind of `v`, and:
/// the tag of a sum must select a variant whose type admits the payload; a
/// product must have as many elements as the type declares, each admitted by
/// the type declared in its place; a scalar must be of the declared kind;
/// each element of an array must be admitted by the declared element type, so
/// an array without elements is admitted whatever that type is; each key and
/// each value of a map must be admitted by the declared type of keys and of
/// values.
pub open spec fn conforms(ts: Seq<TypeView>, ty: TypeView, v: ValueView) -> bool
    decreases v,
{
    match resolve(ts, ty) {
        None => false,
        Some(t) => match v {
            ValueView::Sum { tag, payload } => {
                &&& t matches TypeView::Sum(variants)
                &&& tag < variants.len()
                &&& conforms(ts, variants[tag as int].1, *payload)
            },
            ValueView::Product(elems) => {
                &&& t matches TypeView::Product(fields)
                &&& elems.len() == fields.len()
                &&& forall|i: int|
                    0 <= i < elems.len() ==> conforms(ts, fields[i].1, #[trigger] elems[i])
            },
            ValueView::Scalar(s) => t == TypeView::Scalar(s.kind()),
            ValueView::Array { kind, elems } => {
                &&& t matches TypeView::Array(elem_ty)
                &&& forall|i: int|
                    0 <= i < elems.len() ==> conforms(ts, *elem_ty, #[trigger] elems[i])
            },
            ValueView::Mapping(entries) => {
                &&& t matches TypeView::Mapping { key, value }
                &&& forall|i: int|
                    0 <= i < entries.len() ==> conforms(ts, *key, #[trigger] entries[i].0)
                &&& forall|i: int|
                    0 <= i < entries.len() ==> conforms(ts, *value, #[trigger] entries[i].1)
            },
        },
    }
}

/// A type admits only values of the kind of what it stands for.
pub proof fn lemma_conforms_kind(ts: Seq<TypeView>, ty: TypeView, v: ValueView)
    requires
        conforms(ts, ty, v),
    ensures
        resolve(ts, ty) is Some,
        resolve(ts, ty)->Some_0.kind() == Some(v.kind()),
{
}

/// A type admits what the type it stands for admits.
pub proof fn lemma_conforms_resolved(ts: Seq<TypeView>, ty: TypeView, v: ValueView)
    requires
        resolve(ts, ty) is Some,
    ensures
        !(resolve(ts, ty)->Some_0 is Ref),
        conforms(ts, ty, v) == conforms(ts, resolve(ts, ty)->Some_0, v),
{
    lemma_resolved_is_no_ref(ts, ty, ts.len());
}

/// What a type stands for is no reference.
pub proof fn lemma_resolved_is_no_ref(ts: Seq<TypeView>, ty: TypeView, hops: nat)
    requires
        crate::typespace::resolve_within(ts, ty, hops) is Some,
    ensures
        !(crate::typespace::resolve_within(ts, ty, hops)->Some_0 is Ref),
    decreases hops,
{
    if ty is Ref && hops > 0 && ty->Ref_0 < ts.len() {
        lemma_resolved_is_no_ref(ts, ts[ty->Ref_0 as int], (hops - 1) as nat);
    }
}

/// A product type admits a product of as many elements as it declares, each
/// admitted by the type declared in its place.
pub proof fn lemma_conforms_product(
    ts: Seq<TypeView>,
    fields: Seq<(Option<Seq<char>>, TypeView)>,
    elems: Seq<ValueView>,
)
    ensures
        conforms(ts, TypeView::Product(fields), ValueView::Product(elems)) <==> {
            &&& elems.len() == fields.len()
            &&& forall|i: int|
                0 <= i < elems.len() ==> conforms(ts, fields[i].1, #[trigger] elems[i])
        },
{
    let v = ValueView::Product(elems);
    assert forall|i: int| 0 <= i < elems.len() implies decreases_to!(v => #[trigger] elems[i]) by {
        assert(decreases_to!(v => v->Product_0));
    }
}

/// An array type admits an array each of whose elements the element type
/// admits.
pub proof fn lemma_conforms_array(
    ts: Seq<TypeView>,
    elem_ty: TypeView,
    kind: Kind,
    elems: Seq<ValueView>,
)
    ensures
        conforms(ts, TypeView::Array(Box::new(elem_ty)), ValueView::Array { kind, elems })
            <==> forall|i: int|
            0 <= i < elems.len() ==> conforms(ts, elem_ty, #[trigger] elems[i]),
{
    let v = ValueView::Array { kind, elems };
    let ty = TypeView::Array(Box::new(elem_ty));
    assert(resolve(ts, ty) == Some(ty));
    if conforms(ts, ty, v) {
        assert forall|i: int| 0 <= i < elems.len() implies conforms(
            ts,
            elem_ty,
            #[trigger] elems[i],
        ) by {
            assert(decreases_to!(v => v->Array_elems));
            assert(decreases_to!(elems => elems[i]));
        }
    }
    if forall|i: int| 0 <= i < elems.len() ==> conforms(ts, elem_ty, #[trigger] elems[i]) {
        assert forall|i: int|
            0 <= i < elems.len() implies decreases_to!(v => #[trigger] elems[i]) by {
            assert(decreases_to!(v => v->Array_elems));
        }
        assert(conforms(ts, ty, v));
    }
}

/// A map type admits a map each of whose keys the type of keys admits and
/// each of whose values the type of values admits.
pub proof fn lemma_conforms_mapping(
    ts: Seq<TypeView>,
    key: TypeView,
    value: TypeView,
    entries: Seq<(ValueView, ValueView)>,
)
    ensures
        conforms(
            ts,
            TypeView::Mapping { key: Box::new(key), value: Box::new(value) },
            ValueView::Mapping(entries),
        ) <==> {
            &&& forall|i: int| 0 <= i < entries.len() ==> conforms(ts, key, #[trigger] entries[i].0)
            &&& forall|i: int|
                0 <= i < entries.len() ==> conforms(ts, value, #[trigger] entries[i].1)
        },
{
    let v = ValueView::Mapping(entries);
    let ty = TypeView::Mapping { key: Box::new(key), value: Box::new(value) };
    assert(resolve(ts, ty) == Some(ty));
    assert forall|i: int| 0 <= i < entries.len() implies decreases_to!(v => #[trigger] entries[i].0)
        && decreases_to!(v => #[trigger] entries[i].1) by {
        assert(decreases_to!(v => v->Mapping_0));
        assert(decreases_to!(entries => entries[i]));
        assert(decreases_to!(entries[i] => entries[i].0));
        assert(decreases_to!(entries[i] => entries[i].1));
    }
    if conforms(ts, ty, v) {
        assert forall|i: int| 0 <= i < entries.len() implies conforms(
            ts,
            key,
            #[trigger] entries[i].0,
        ) by {
            assert(decreases_to!(v => v->Mapping_0));
            assert(decreases_to!(entries => entries[i]));
            assert(decreases_to!(entries[i] => entries[i].0));
            assert(decreases_to!(v => entries[i].0));
        }
        assert forall|i: int| 0 <= i < entries.len() implies conforms(
            ts,
            value,
            #[trigger] entries[i].1,
        ) by {
            assert(decreases_to!(v => v->Mapping_0));
            assert(decreases_to!(entries => entries[i]));
            assert(decreases_to!(entries[i] => entries[i].1));
            assert(decreases_to!(v => entries[i].1));
        }
    }
    if (forall|i: int| 0 <= i < entries.len() ==> conforms(ts, key, #[trigger] entries[i].0))
        && (forall|i: int|
        0 <= i < entries.len() ==> conforms(ts, value, #[trigger] entries[i].1)) {
        assert(conforms(ts, ty, v));
    }
}

/// A value of the model, with the type of its types.
pub trait Value: View<V = ValueView> + Sized {
    /// The type of the types that describe such values.
    type Type: View<V = TypeView>;

    /// Whether the type `ty` of the typespace `ts` admits the value.
    fn conforms_to(&self, ts: &Typespace, ty: &Self::Type) -> (b: bool)
        ensures
            b == conforms(ts@, ty@, self@),
    ;
}

impl Value for AlgebraicValue {
    type Type = AlgebraicType;

    fn conforms_to(&self, ts: &Typespace, ty: &AlgebraicType) -> (b: bool)
        decreases self,
    {
        match ts.resolve(ty) {
            None => false,
            Some(t) => {
                proof {
                    lemma_conforms_resolved(ts@, ty@, self@);
                    lemma_view_kind(*t);
                }
                match (self, t) {
                    (AlgebraicValue::Sum(v), AlgebraicType::Sum(t)) => v.conforms_to(ts, t),
                    (AlgebraicValue::Product(v), AlgebraicType::Product(t)) => v.conforms_to(ts, t),
                    (AlgebraicValue::Builtin(v), AlgebraicType::Builtin(t)) => v.conforms_to(ts, t),
                    _ => {
                        proof {
                            self.lemma_view_kind();
                            if conforms(ts@, t@, self@) {
                                lemma_conforms_kind(ts@, t@, self@);
                            }
                        }
                        false
                    },
                }
            },
        }
    }
}

impl Value for SumValue {
    type Type = SumType;

    fn conforms_to(&self, ts: &Typespace, ty: &SumType) -> (b: bool)
        decreases self,
    {
        let tag = self.tag as usize;
        if tag >= ty.variants.len() {
            return false;
        }
        assert(ty@->Sum_0[tag as int].1 == ty.variants[tag as int].algebraic_type@);
        (*self.value).conforms_to(ts, &ty.variants[tag].algebraic_type)
    }
}

impl Value for ProductValue {
    type Type = ProductType;

    fn conforms_to(&self, ts: &Typespace, ty: &ProductType) -> (b: bool)
        decreases self,
    {
        let n = self.elements.len();
        if n != ty.elements.len() {
            return false;
        }
        let ghost elems = self@->Product_0;
        let ghost fields = ty@->Product_0;
        proof {
            lemma_conforms_product(ts@, fields, elems);
        }
        let mut i: usize = 0;
        while i < n
            invariant
                0 <= i <= n,
                n == self.elements.len(),
                n == ty.elements.len(),
                elems == self@->Product_0,
                fields == ty@->Product_0,
                forall|j: int| 0 <= j < i ==> conforms(ts@, fields[j].1, #[trigger] elems[j]),
            decreases n - i,
        {
            if !self.elements[i].conforms_to(ts, &ty.elements[i].algebraic_type) {
                assert(!conforms(ts@, fields[i as int].1, elems[i as int]));
                return false;
            }
            i = i + 1;
        }
        true
    }
}

impl Value for BuiltinValue {
    type Type = BuiltinType;

    fn conforms_to(&self, ts: &Typespace, ty: &BuiltinType) -> (b: bool)
        decreases self,
    {
        match (self, ty) {
            (BuiltinValue::Array { val }, BuiltinType::Array(t)) => val.conforms_to(ts, t),
            (BuiltinValue::Mapping { val }, BuiltinType::Mapping(t)) => val.conforms_to(ts, t),
            _ => {
                let k = self.kind();
                k == ty.kind() && k != Kind::Array && k != Kind::Mapping
            },
        }
    }
}

impl Value for ArrayValue {
    type Type = ArrayType;

    fn conforms_to(&self, ts: &Typespace, ty: &ArrayType) -> (b: bool)
        decreases self,
    {
        let n = self.len();
        if n == 0 {
            return true;
        }
        let ghost elems = self.elems();
        let ghost elem_ty = *ty@->Array_0;
        proof {
            lemma_conforms_array(ts@, elem_ty, self.elem_kind(), elems);
            self.lemma_elems_kind(0);
            if conforms(ts@, elem_ty, elems[0]) {
                lemma_conforms_kind(ts@, elem_ty, elems[0]);
            }
        }
        let t = match ts.resolve(&*ty.elem_ty) {
            None => {
                return false;
            },
            Some(t) => t,
        };
        let kind = self.kind();
        if t.kind() != Some(kind) {
            return false;
        }
        match kind {
            Kind::Scalar(_) => {
                assert forall|i: int| 0 <= i < elems.len() implies conforms(
                    ts@,
                    elem_ty,
                    #[trigger] elems[i],
                ) by {
                    self.lemma_elems_kind(i);
                }
                true
            },
            _ => {
                let mut i: usize = 0;
                while i < n
                    invariant
                        0 <= i <= n,
                        n == self.elems().len(),
                        elems == self.elems(),
                        elem_ty == *ty@->Array_0,
                        resolve(ts@, elem_ty) == Some(t@),
                        !(t is Ref),
                        kind == self.elem_kind(),
                        !(kind is Scalar),
                        t@.kind() == Some(kind),
                        forall|j: int| 0 <= j < i ==> conforms(ts@, elem_ty, #[trigger] elems[j]),
                    decreases n - i,
                {
                    proof {
                        lemma_conforms_resolved(ts@, elem_ty, elems[i as int]);
                        lemma_view_kind(*t);
                    }
                    proof {
                        self.lemma_elems_kind(i as int);
                        reveal_with_fuel(crate::algebraic_value::array_view, 2);
                        reveal_with_fuel(crate::algebraic_type::type_view, 2);
                    }
                    let ok = match (self, t) {
                        (ArrayValue::Sum(v), AlgebraicType::Sum(t)) => v[i].conforms_to(ts, t),
                        (ArrayValue::Product(v), AlgebraicType::Product(t)) => v[i].conforms_to(
                            ts,
                            t,
                        ),
                        (
                            ArrayValue::Array(v),
                            AlgebraicType::Builtin(BuiltinType::Array(t)),
                        ) => v[i].conforms_to(ts, t),
                        (
                            ArrayValue::Mapping(v),
                            AlgebraicType::Builtin(BuiltinType::Mapping(t)),
                        ) => v[i].conforms_to(ts, t),
                        _ => unreached(),
                    };
                    if !ok {
                        return false;
                    }
                    i = i + 1;
                }
                true
            },
        }
    }
}

impl Value for MapValue {
    type Type = MapType;

    fn conforms_to(&self, ts: &Typespace, ty: &MapType) -> (b: bool)
        decreases self,
    {
        let n = self.len();
        let ghost entries = self.entries_view();
        proof {
            lemma_conforms_mapping(ts@, *ty@->Mapping_key, *ty@->Mapping_value, entries);
        }
        let mut i: usize = 0;
        while i < n
            invariant
                0 <= i <= n,
                n == self.entries_view().len(),
                entries == self.entries_view(),
                forall|j: int|
                    0 <= j < i ==> conforms(ts@, *ty@->Mapping_key, #[trigger] entries[j].0),
                forall|j: int|
                    0 <= j < i ==> conforms(ts@, *ty@->Mapping_value, #[trigger] entries[j].1),
            decreases n - i,
        {
            proof {
                lemma_conforms_mapping(ts@, *ty@->Mapping_key, *ty@->Mapping_value, entries);
            }
            if !self.key(i).conforms_to(ts, &*ty.key_ty) {
                assert(!conforms(ts@, *ty@->Mapping_key, entries[i as int].0));
                return false;
            }
            if !self.value(i).conforms_to(ts, &*ty.ty) {
                assert(!conforms(ts@, *ty@->Mapping_value, entries[i as int].1));
                return false;
            }
            i = i + 1;
        }
        true
    }
}

/// Why a value and a type could not be paired: the type does not admit the
/// value.
#[derive(Clone, Copy, Debug, PartialEq, Eq)]
pub struct SchemaMismatch;

/// A pairing as a mathematical object.
pub struct PairingView {
    pub typespace: Seq<TypeView>,
    pub ty: TypeView,
    pub value: ValueView,
}

/// A value together with a type that admits it and the typespace that the
/// type belongs to. It borrows all three.
pub struct ValueWithType<'a, T: Value> {
    typespace: &'a Typespace,
    ty: &'a T::Type,
    val: &'a T,
}

impl<'a, T: Value> View for ValueWithType<'a, T> {
    type V = PairingView;

    closed spec fn view(&self) -> PairingView {
        PairingView { typespace: self.typespace@, ty: self.ty@, value: self.val@ }
    }
}

impl<'a, T: Value> ValueWithType<'a, T> {
    #[verifier::type_invariant]
    spec fn admitted(self) -> bool {
        conforms(self.typespace@, self.ty@, self.val@)
    }

    /// Pairs `val` with `ty`, where `ty` admits it.
    pub fn new(typespace: &'a Typespace, ty: &'a T::Type, val: &'a T) -> (r: Result<
        Self,
        SchemaMismatch,
    >)
        ensures
            r is Ok <==> conforms(typespace@, ty@, val@),
            r matches Ok(p) ==> p@ == (PairingView {
                typespace: typespace@,
                ty: ty@,
                value: val@,
            }),
    {
        if val.conforms_to(typespace, ty) {
            Ok(ValueWithType { typespace, ty, val })
        } else {
            Err(SchemaMismatch)
        }
    }

    /// The value. Its type admits it.
    pub fn value(&self) -> (val: &'a T)
        ensures
            val@ == self@.value,
            val == self.value_ref(),
            conforms(self@.typespace, self@.ty, self@.value),
    {
        proof {
            use_type_invariant(self);
        }
        self.val
    }

    /// The type.
    pub fn ty(&self) -> (ty: &'a T::Type)
        ensures
            ty@ == self@.ty,
    {
        self.ty
    }

    /// The typespace that the type belongs to.
    pub fn typespace(&self) -> (typespace: &'a Typespace)
        ensures
            typespace@ == self@.typespace,
    {
        self.typespace
    }

    /// Pairs another value with another type of the same typespace.
    pub(crate) fn with<U: Value>(&self, ty: &'a U::Type, val: &'a U) -> (p: ValueWithType<'a, U>)
        requires
            conforms(self@.typespace, ty@, val@),
        ensures
            p@ == (PairingView { typespace: self@.typespace, ty: ty@, value: val@ }),
            p.value_ref() == val,
    {
        ValueWithType { typespace: self.typespace, ty, val }
    }

    /// The value that is borrowed.
    pub closed spec fn value_ref(&self) -> &'a T {
        self.val
    }
}

} // verus!
