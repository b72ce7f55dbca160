//! The value model: sums, products, scalars, arrays and maps, without names.
use crate::map_value::MapValue;
use crate::scalar::{Kind, Scalar, ScalarKind, F32, F64};
use vstd::pervasive::arbitrary;
use vstd::prelude::*;

verus! {

/// A value as a mathematical object. Every value of the model has one, its
/// view; contracts speak of views.
pub enum ValueView {
    /// The variant `tag` of a sum, with its payload.
    Sum { tag: u8, payload: Box<ValueView> },
    /// A product of the given elements.
    Product(Seq<ValueView>),
    /// A scalar.
    Scalar(Scalar),
    /// An array whose elements are all of the given kind.
    Array { kind: Kind, elems: Seq<ValueView> },
    /// A map, as its entries in ascending order of their keys.
    Mapping(Seq<(ValueView, ValueView)>),
}

impl ValueView {
    /// The kind of the value.
    pub open spec fn kind(self) -> Kind {
        match self {
            ValueView::Sum { .. } => Kind::Sum,
            ValueView::Product(_) => Kind::Product,
            ValueView::Scalar(s) => Kind::Scalar(s.kind()),
            ValueView::Array { .. } => Kind::Array,
            ValueView::Mapping(_) => Kind::Mapping,
        }
    }

    /// The array of the given scalars.
    pub open spec fn scalars(kind: ScalarKind, items: Seq<Scalar>) -> ValueView {
        ValueView::Array {
            kind: Kind::Scalar(kind),
            elems: Seq::new(items.len(), |i: int| ValueView::Scalar(items[i])),
        }
    }
}

/// A value of any kind.
#[derive(Debug, PartialEq, Eq)]
pub enum AlgebraicValue {
    Sum(SumValue),
    Product(ProductValue),
    Builtin(BuiltinValue),
}

/// One variant of a sum: the tag that selects it and its payload. The name of
/// the variant is known to the type alone.
#[derive(Debug, PartialEq, Eq)]
pub struct SumValue {
    pub tag: u8,
    pub value: Box<AlgebraicValue>,
}

/// A product: its elements in order. Their names are known to the type alone.
#[derive(Debug, PartialEq, Eq)]
pub struct ProductValue {
    pub elements: Vec<AlgebraicValue>,
}

/// A scalar, an array or a map.
#[allow(inconsistent_fields)]
#[derive(Debug, PartialEq, Eq)]
pub enum BuiltinValue {
    Bool(bool),
    I8(i8),
    U8(u8),
    I16(i16),
    U16(u16),
    I32(i32),
    U32(u32),
    I64(i64),
    U64(u64),
    I128(i128),
    U128(u128),
    F32(F32),
    F64(F64),
    String(String),
    Array { val: ArrayValue },
    Mapping { val: MapValue },
}

/// An array. Its elements are all of one kind and are held without a wrapper
/// around each.
#[derive(Debug, PartialEq, Eq)]
pub enum ArrayValue {
    Sum(Vec<SumValue>),
    Product(Vec<ProductValue>),
    Bool(Vec<bool>),
    I8(Vec<i8>),
    U8(Vec<u8>),
    I16(Vec<i16>),
    U16(Vec<u16>),
    I32(Vec<i32>),
    U32(Vec<u32>),
    I64(Vec<i64>),
    U64(Vec<u64>),
    I128(Vec<i128>),
    U128(Vec<u128>),
    F32(Vec<F32>),
    F64(Vec<F64>),
    String(Vec<String>),
    Array(Vec<ArrayValue>),
    Mapping(Vec<MapValue>),
}

/// The view of a value of any kind.
pub open spec fn value_view(v: AlgebraicValue) -> ValueView
    decreases v,
{
    match v {
        AlgebraicValue::Sum(s) => sum_view(s),
        AlgebraicValue::Product(p) => product_view(p),
        AlgebraicValue::Builtin(b) => builtin_view(b),
    }
}

/// The view of a variant of a sum.
pub open spec fn sum_view(s: SumValue) -> ValueView
    decreases s,
{
    ValueView::Sum { tag: s.tag, payload: Box::new(value_view(*s.value)) }
}

/// The view of a product.
pub open spec fn product_view(p: ProductValue) -> ValueView
    decreases p,
{
    ValueView::Product(
        Seq::new(
            p.elements@.len(),
            |i: int|
                if 0 <= i < p.elements@.len() {
                    value_view(p.elements@[i])
                } else {
                    arbitrary()
                },
        ),
    )
}

/// The view of a scalar, an array or a map.
pub open spec fn builtin_view(b: BuiltinValue) -> ValueView
    decreases b,
{
    match b {
        BuiltinValue::Bool(v) => ValueView::Scalar(Scalar::Bool(v)),
        BuiltinValue::I8(v) => ValueView::Scalar(Scalar::I8(v)),
        BuiltinValue::U8(v) => ValueView::Scalar(Scalar::U8(v)),
        BuiltinValue::I16(v) => ValueView::Scalar(Scalar::I16(v)),
        BuiltinValue::U16(v) => ValueView::Scalar(Scalar::U16(v)),
        BuiltinValue::I32(v) => ValueView::Scalar(Scalar::I32(v)),
        BuiltinValue::U32(v) => ValueView::Scalar(Scalar::U32(v)),
        BuiltinValue::I64(v) => ValueView::Scalar(Scalar::I64(v)),
        BuiltinValue::U64(v) => ValueView::Scalar(Scalar::U64(v)),
        BuiltinValue::I128(v) => ValueView::Scalar(Scalar::I128(v)),
        BuiltinValue::U128(v) => ValueView::Scalar(Scalar::U128(v)),
        BuiltinValue::F32(v) => ValueView::Scalar(Scalar::F32(v)),
        BuiltinValue::F64(v) => ValueView::Scalar(Scalar::F64(v)),
        BuiltinValue::String(v) => ValueView::Scalar(Scalar::String(v@)),
        BuiltinValue::Array { val } => array_view(val),
        BuiltinValue::Mapping { val } => ValueView::Mapping(val.entries_view()),
    }
}

/// The view of an array.
pub open spec fn array_view(a: ArrayValue) -> ValueView
    decreases a,
{
    match a {
        ArrayValue::Sum(v) => ValueView::Array {
            kind: Kind::Sum,
            elems: Seq::new(
                v@.len(),
                |i: int|
                    if 0 <= i < v@.len() {
                        sum_view(v@[i])
                    } else {
                        arbitrary()
                    },
            ),
        },
        ArrayValue::Product(v) => ValueView::Array {
            kind: Kind::Product,
            elems: Seq::new(
                v@.len(),
                |i: int|
                    if 0 <= i < v@.len() {
                        product_view(v@[i])
                    } else {
                        arbitrary()
                    },
            ),
        },
        ArrayValue::Bool(v) => ValueView::scalars(
            ScalarKind::Bool,
            Seq::new(v@.len(), |i: int| Scalar::Bool(v@[i])),
        ),
        ArrayValue::I8(v) => ValueView::scalars(
            ScalarKind::I8,
            Seq::new(v@.len(), |i: int| Scalar::I8(v@[i])),
        ),
        ArrayValue::U8(v) => ValueView::scalars(
            ScalarKind::U8,
            Seq::new(v@.len(), |i: int| Scalar::U8(v@[i])),
        ),
        ArrayValue::I16(v) => ValueView::scalars(
            ScalarKind::I16,
            Seq::new(v@.len(), |i: int| Scalar::I16(v@[i])),
        ),
        ArrayValue::U16(v) => ValueView::scalars(
            ScalarKind::U16,
            Seq::new(v@.len(), |i: int| Scalar::U16(v@[i])),
        ),
        ArrayValue::I32(v) => ValueView::scalars(
            ScalarKind::I32,
            Seq::new(v@.len(), |i: int| Scalar::I32(v@[i])),
        ),
        ArrayValue::U32(v) => ValueView::scalars(
            ScalarKind::U32,
            Seq::new(v@.len(), |i: int| Scalar::U32(v@[i])),
        ),
        ArrayValue::I64(v) => ValueView::scalars(
            ScalarKind::I64,
            Seq::new(v@.len(), |i: int| Scalar::I64(v@[i])),
        ),
        ArrayValue::U64(v) => ValueView::scalars(
            ScalarKind::U64,
            Seq::new(v@.len(), |i: int| Scalar::U64(v@[i])),
        ),
        ArrayValue::I128(v) => ValueView::scalars(
            ScalarKind::I128,
            Seq::new(v@.len(), |i: int| Scalar::I128(v@[i])),
        ),
        ArrayValue::U128(v) => ValueView::scalars(
            ScalarKind::U128,
            Seq::new(v@.len(), |i: int| Scalar::U128(v@[i])),
        ),
        ArrayValue::F32(v) => ValueView::scalars(
            ScalarKind::F32,
            Seq::new(v@.len(), |i: int| Scalar::F32(v@[i])),
        ),
        ArrayValue::F64(v) => ValueView::scalars(
            ScalarKind::F64,
            Seq::new(v@.len(), |i: int| Scalar::F64(v@[i])),
        ),
        ArrayValue::String(v) => ValueView::scalars(
            ScalarKind::String,
            Seq::new(v@.len(), |i: int| Scalar::String(v@[i]@)),
        ),
        ArrayValue::Array(v) => ValueView::Array {
            kind: Kind::Array,
            elems: Seq::new(
                v@.len(),
                |i: int|
                    if 0 <= i < v@.len() {
                        array_view(v@[i])
                    } else {
                        arbitrary()
                    },
            ),
        },
        ArrayValue::Mapping(v) => ValueView::Array {
            kind: Kind::Mapping,
            elems: Seq::new(
                v@.len(),
                |i: int|
                    if 0 <= i < v@.len() {
                        ValueView::Mapping(v@[i].entries_view())
                    } else {
                        arbitrary()
                    },
            ),
        },
    }
}

impl View for AlgebraicValue {
    type V = ValueView;

    open spec fn view(&self) -> ValueView {
        value_view(*self)
    }
}

impl View for SumValue {
    type V = ValueView;

    open spec fn view(&self) -> ValueView {
        sum_view(*self)
    }
}

impl View for ProductValue {
    type V = ValueView;

    open spec fn view(&self) -> ValueView {
        product_view(*self)
    }
}

impl View for BuiltinValue {
    type V = ValueView;

    open spec fn view(&self) -> ValueView {
        builtin_view(*self)
    }
}

impl View for ArrayValue {
    type V = ValueView;

    open spec fn view(&self) -> ValueView {
        array_view(*self)
    }
}

impl ArrayValue {
    /// The elements of the array, each as a value of its own.
    pub open spec fn elems(self) -> Seq<ValueView> {
        array_view(self)->Array_elems
    }

    /// The kind of the elements.
    pub open spec fn elem_kind(self) -> Kind {
        array_view(self)->Array_kind
    }

    /// The number of elements.
    pub fn len(&self) -> (n: usize)
        ensures
            n == self.elems().len(),
    {
        match self {
            ArrayValue::Sum(v) => v.len(),
            ArrayValue::Product(v) => v.len(),
            ArrayValue::Bool(v) => v.len(),
            ArrayValue::I8(v) => v.len(),
            ArrayValue::U8(v) => v.len(),
            ArrayValue::I16(v) => v.len(),
            ArrayValue::U16(v) => v.len(),
            ArrayValue::I32(v) => v.len(),
            ArrayValue::U32(v) => v.len(),
            ArrayValue::I64(v) => v.len(),
            ArrayValue::U64(v) => v.len(),
            ArrayValue::I128(v) => v.len(),
            ArrayValue::U128(v) => v.len(),
            ArrayValue::F32(v) => v.len(),
            ArrayValue::F64(v) => v.len(),
            ArrayValue::String(v) => v.len(),
            ArrayValue::Array(v) => v.len(),
            ArrayValue::Mapping(v) => v.len(),
        }
    }

    /// Whether the array has no elements.
    pub fn is_empty(&self) -> (b: bool)
        ensures
            b == (self.elems().len() == 0),
    {
        self.len() == 0
    }
}

impl AlgebraicValue {
    /// The view of a value is a sum, a product or neither as the value is.
    pub proof fn lemma_view_kind(self)
        ensures
            self@ is Sum <==> self is Sum,
            self@ is Product <==> self is Product,
    {
        reveal_with_fuel(value_view, 2);
        match self {
            AlgebraicValue::Builtin(b) => {
                b.lemma_view_kind();
            },
            _ => {},
        }
    }

    /// The kind of the value.
    pub fn kind(&self) -> (k: Kind)
        ensures
            k == self@.kind(),
    {
        match self {
            AlgebraicValue::Sum(_) => Kind::Sum,
            AlgebraicValue::Product(_) => Kind::Product,
            AlgebraicValue::Builtin(b) => b.kind(),
        }
    }
}

impl BuiltinValue {
    /// The view of a builtin value is a scalar, an array or a map as the
    /// value is.
    pub proof fn lemma_view_kind(self)
        ensures
            self@ is Array <==> self is Array,
            self@ is Mapping <==> self is Mapping,
            self@ is Scalar <==> !(self is Array) && !(self is Mapping),
    {
        reveal_with_fuel(builtin_view, 2);
    }

    /// The kind of the value.
    pub fn kind(&self) -> (k: Kind)
        ensures
            k == self@.kind(),
    {
        match self {
            BuiltinValue::Bool(_) => Kind::Scalar(ScalarKind::Bool),
            BuiltinValue::I8(_) => Kind::Scalar(ScalarKind::I8),
            BuiltinValue::U8(_) => Kind::Scalar(ScalarKind::U8),
            BuiltinValue::I16(_) => Kind::Scalar(ScalarKind::I16),
            BuiltinValue::U16(_) => Kind::Scalar(ScalarKind::U16),
            BuiltinValue::I32(_) => Kind::Scalar(ScalarKind::I32),
            BuiltinValue::U32(_) => Kind::Scalar(ScalarKind::U32),
            BuiltinValue::I64(_) => Kind::Scalar(ScalarKind::I64),
            BuiltinValue::U64(_) => Kind::Scalar(ScalarKind::U64),
            BuiltinValue::I128(_) => Kind::Scalar(ScalarKind::I128),
            BuiltinValue::U128(_) => Kind::Scalar(ScalarKind::U128),
            BuiltinValue::F32(_) => Kind::Scalar(ScalarKind::F32),
            BuiltinValue::F64(_) => Kind::Scalar(ScalarKind::F64),
            BuiltinValue::String(_) => Kind::Scalar(ScalarKind::String),
            BuiltinValue::Array { .. } => Kind::Array,
            BuiltinValue::Mapping { .. } => Kind::Mapping,
        }
    }
}

impl ArrayValue {
    /// The kind of the elements.
    pub fn kind(&self) -> (k: Kind)
        ensures
            k == self.elem_kind(),
    {
        match self {
            ArrayValue::Sum(_) => Kind::Sum,
            ArrayValue::Product(_) => Kind::Product,
            ArrayValue::Bool(_) => Kind::Scalar(ScalarKind::Bool),
            ArrayValue::I8(_) => Kind::Scalar(ScalarKind::I8),
            ArrayValue::U8(_) => Kind::Scalar(ScalarKind::U8),
            ArrayValue::I16(_) => Kind::Scalar(ScalarKind::I16),
            ArrayValue::U16(_) => Kind::Scalar(ScalarKind::U16),
            ArrayValue::I32(_) => Kind::Scalar(ScalarKind::I32),
            ArrayValue::U32(_) => Kind::Scalar(ScalarKind::U32),
            ArrayValue::I64(_) => Kind::Scalar(ScalarKind::I64),
            ArrayValue::U64(_) => Kind::Scalar(ScalarKind::U64),
            ArrayValue::I128(_) => Kind::Scalar(ScalarKind::I128),
            ArrayValue::U128(_) => Kind::Scalar(ScalarKind::U128),
            ArrayValue::F32(_) => Kind::Scalar(ScalarKind::F32),
            ArrayValue::F64(_) => Kind::Scalar(ScalarKind::F64),
            ArrayValue::String(_) => Kind::Scalar(ScalarKind::String),
            ArrayValue::Array(_) => Kind::Array,
            ArrayValue::Mapping(_) => Kind::Mapping,
        }
    }

    /// Every element of an array is of the kind of its elements.
    pub proof fn lemma_elems_kind(self, i: int)
        requires
            0 <= i < self.elems().len(),
        ensures
            self.elems()[i].kind() == self.elem_kind(),
    {
        reveal_with_fuel(array_view, 2);
    }
}

} // verus!
