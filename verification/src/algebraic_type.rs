//! The type model: sums, products, scalars, arrays and maps, with names, and
//! references into a typespace in place of recursion.
use crate::scalar::{Kind, ScalarKind};
use vstd::pervasive::arbitrary;
use vstd::prelude::*;

verus! {

/// A type as a mathematical object. Every type of the model has one, its
/// view; contracts speak of views.
pub enum TypeView {
    /// A sum of the given variants, each with its name, if it has one.
    Sum(Seq<(Option<Seq<char>>, TypeView)>),
    /// A product of the given elements, each with its name, if it has one.
    Product(Seq<(Option<Seq<char>>, TypeView)>),
    /// The scalars of one kind.
    Scalar(ScalarKind),
    /// The arrays of elements of the given type.
    Array(Box<TypeView>),
    /// The maps from keys of one type to values of another.
    Mapping { key: Box<TypeView>, value: Box<TypeView> },
    /// The type at the given index of the typespace.
    Ref(u32),
}

/// The index of a type in a typespace.
#[derive(Clone, Copy, Debug, PartialEq, Eq, Hash)]
pub struct AlgebraicTypeRef(pub u32);

/// A type of any kind, or a reference to one.
#[derive(Debug, PartialEq, Eq)]
pub enum AlgebraicType {
    Sum(SumType),
    Product(ProductType),
    Builtin(BuiltinType),
    Ref(AlgebraicTypeRef),
}

/// One variant of a sum type.
#[derive(Debug, PartialEq, Eq)]
pub struct SumTypeVariant {
    pub name: Option<String>,
    pub algebraic_type: AlgebraicType,
}

/// A sum type: its variants in the order of their tags.
#[derive(Debug, PartialEq, Eq)]
pub struct SumType {
    pub variants: Vec<SumTypeVariant>,
}

/// One element of a product type.
#[derive(Debug, PartialEq, Eq)]
pub struct ProductTypeElement {
    pub name: Option<String>,
    pub algebraic_type: AlgebraicType,
}

/// A product type: its elements in order.
#[derive(Debug, PartialEq, Eq)]
pub struct ProductType {
    pub elements: Vec<ProductTypeElement>,
}

/// The type of the arrays with elements of one type.
#[derive(Debug, PartialEq, Eq)]
pub struct ArrayType {
    pub elem_ty: Box<AlgebraicType>,
}

/// The type of the maps from keys of one type to values of another.
#[derive(Debug, PartialEq, Eq)]
pub struct MapType {
    pub key_ty: Box<AlgebraicType>,
    pub ty: Box<AlgebraicType>,
}

/// The type of a scalar, of an array or of a map.
#[derive(Debug, PartialEq, Eq)]
pub enum BuiltinType {
    Bool,
    I8,
    U8,
    I16,
    U16,
    I32,
    U32,
    I64,
    U64,
    I128,
    U128,
    F32,
    F64,
    String,
    Array(ArrayType),
    Mapping(MapType),
}

/// The characters of an owned name, where there is one.
pub open spec fn owned_name_view(name: Option<String>) -> Option<Seq<char>> {
    match name {
        Some(s) => Some(s@),
        None => None,
    }
}

/// The view of a type of any kind.
pub open spec fn type_view(t: AlgebraicType) -> TypeView
    decreases t,
{
    match t {
        AlgebraicType::Sum(s) => sum_type_view(s),
        AlgebraicType::Product(p) => product_type_view(p),
        AlgebraicType::Builtin(b) => builtin_type_view(b),
        AlgebraicType::Ref(r) => TypeView::Ref(r.0),
    }
}

/// The view of a sum type.
pub open spec fn sum_type_view(s: SumType) -> TypeView
    decreases s,
{
    TypeView::Sum(
        Seq::new(
            s.variants@.len(),
            |i: int|
                if 0 <= i < s.variants@.len() {
                    (
                        owned_name_view(s.variants@[i].name),
                        type_view(s.variants@[i].algebraic_type),
                    )
                } else {
                    arbitrary()
                },
        ),
    )
}

/// The view of a product type.
pub open spec fn product_type_view(p: ProductType) -> TypeView
    decreases p,
{
    TypeView::Product(
        Seq::new(
            p.elements@.len(),
            |i: int|
                if 0 <= i < p.elements@.len() {
                    (
                        owned_name_view(p.elements@[i].name),
                        type_view(p.elements@[i].algebraic_type),
                    )
                } else {
                    arbitrary()
                },
        ),
    )
}

/// The view of an array type.
pub open spec fn array_type_view(a: ArrayType) -> TypeView
    decreases a,
{
    TypeView::Array(Box::new(type_view(*a.elem_ty)))
}

/// The view of a map type.
pub open spec fn map_type_view(m: MapType) -> TypeView
    decreases m,
{
    TypeView::Mapping { key: Box::new(type_view(*m.key_ty)), value: Box::new(type_view(*m.ty)) }
}

/// The view of the type of a scalar, of an array or of a map.
pub open spec fn builtin_type_view(b: BuiltinType) -> TypeView
    decreases b,
{
    match b {
        BuiltinType::Bool => TypeView::Scalar(ScalarKind::Bool),
        BuiltinType::I8 => TypeView::Scalar(ScalarKind::I8),
        BuiltinType::U8 => TypeView::Scalar(ScalarKind::U8),
        BuiltinType::I16 => TypeView::Scalar(ScalarKind::I16),
        BuiltinType::U16 => TypeView::Scalar(ScalarKind::U16),
        BuiltinType::I32 => TypeView::Scalar(ScalarKind::I32),
        BuiltinType::U32 => TypeView::Scalar(ScalarKind::U32),
        BuiltinType::I64 => TypeView::Scalar(ScalarKind::I64),
        BuiltinType::U64 => TypeView::Scalar(ScalarKind::U64),
        BuiltinType::I128 => TypeView::Scalar(ScalarKind::I128),
        BuiltinType::U128 => TypeView::Scalar(ScalarKind::U128),
        BuiltinType::F32 => TypeView::Scalar(ScalarKind::F32),
        BuiltinType::F64 => TypeView::Scalar(ScalarKind::F64),
        BuiltinType::String => TypeView::Scalar(ScalarKind::String),
        BuiltinType::Array(a) => array_type_view(a),
        BuiltinType::Mapping(m) => map_type_view(m),
    }
}

impl View for AlgebraicType {
    type V = TypeView;

    open spec fn view(&self) -> TypeView {
        type_view(*self)
    }
}

impl View for SumType {
    type V = TypeView;

    open spec fn view(&self) -> TypeView {
        sum_type_view(*self)
    }
}

impl View for ProductType {
    type V = TypeView;

    open spec fn view(&self) -> TypeView {
        product_type_view(*self)
    }
}

impl View for BuiltinType {
    type V = TypeView;

    open spec fn view(&self) -> TypeView {
        builtin_type_view(*self)
    }
}

impl View for ArrayType {
    type V = TypeView;

    open spec fn view(&self) -> TypeView {
        array_type_view(*self)
    }
}

impl View for MapType {
    type V = TypeView;

    open spec fn view(&self) -> TypeView {
        map_type_view(*self)
    }
}

impl SumTypeVariant {
    /// The name of the variant, if it has one.
    pub fn name(&self) -> (n: Option<&str>)
        ensures
            crate::ser::name_view(n) == owned_name_view(self.name),
    {
        match &self.name {
            Some(s) => Some(s.as_str()),
            None => None,
        }
    }
}

impl ProductTypeElement {
    /// The name of the element, if it has one.
    pub fn name(&self) -> (n: Option<&str>)
        ensures
            crate::ser::name_view(n) == owned_name_view(self.name),
    {
        match &self.name {
            Some(s) => Some(s.as_str()),
            None => None,
        }
    }
}

impl TypeView {
    /// The kind of the values of the type. A reference has none of its own.
    pub open spec fn kind(self) -> Option<Kind> {
        match self {
            TypeView::Sum(_) => Some(Kind::Sum),
            TypeView::Product(_) => Some(Kind::Product),
            TypeView::Scalar(k) => Some(Kind::Scalar(k)),
            TypeView::Array(_) => Some(Kind::Array),
            TypeView::Mapping { .. } => Some(Kind::Mapping),
            TypeView::Ref(_) => None,
        }
    }
}

impl AlgebraicType {
    /// The kind of the values of the type. A reference has none of its own.
    pub fn kind(&self) -> (k: Option<Kind>)
        ensures
            k == self@.kind(),
    {
        match self {
            AlgebraicType::Sum(_) => Some(Kind::Sum),
            AlgebraicType::Product(_) => Some(Kind::Product),
            AlgebraicType::Builtin(b) => Some(b.kind()),
            AlgebraicType::Ref(_) => None,
        }
    }
}

impl BuiltinType {
    /// The kind of the values of the type.
    pub fn kind(&self) -> (k: Kind)
        ensures
            Some(k) == self@.kind(),
    {
        match self {
            BuiltinType::Bool => Kind::Scalar(ScalarKind::Bool),
            BuiltinType::I8 => Kind::Scalar(ScalarKind::I8),
            BuiltinType::U8 => Kind::Scalar(ScalarKind::U8),
            BuiltinType::I16 => Kind::Scalar(ScalarKind::I16),
            BuiltinType::U16 => Kind::Scalar(ScalarKind::U16),
            BuiltinType::I32 => Kind::Scalar(ScalarKind::I32),
            BuiltinType::U32 => Kind::Scalar(ScalarKind::U32),
            BuiltinType::I64 => Kind::Scalar(ScalarKind::I64),
            BuiltinType::U64 => Kind::Scalar(ScalarKind::U64),
            BuiltinType::I128 => Kind::Scalar(ScalarKind::I128),
            BuiltinType::U128 => Kind::Scalar(ScalarKind::U128),
            BuiltinType::F32 => Kind::Scalar(ScalarKind::F32),
            BuiltinType::F64 => Kind::Scalar(ScalarKind::F64),
            BuiltinType::String => Kind::Scalar(ScalarKind::String),
            BuiltinType::Array(_) => Kind::Array,
            BuiltinType::Mapping(_) => Kind::Mapping,
        }
    }
}

} // verus!
