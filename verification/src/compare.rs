//! Deciding the structural order.
use crate::algebraic_value::{
    array_view, AlgebraicValue, ArrayValue, BuiltinValue, ProductValue, SumValue, ValueView,
};
use crate::map_value::MapValue;
use crate::order::{
    entries_order, int_order, scalar_order, seq_order, str_order, value_order, Order,
};
use crate::scalar::{Kind, Scalar, ScalarKind, F32, F64};
use vstd::pervasive::unreached;
use vstd::prelude::*;
use vstd::std_specs::iter::IteratorSpec;

verus! {

impl ScalarKind {
    /// The place of the kind among the scalar kinds.
    pub fn place(&self) -> (r: u8)
        ensures
            r == self.rank(),
    {
        match self {
            ScalarKind::Bool => 0,
            ScalarKind::I8 => 1,
            ScalarKind::U8 => 2,
            ScalarKind::I16 => 3,
            ScalarKind::U16 => 4,
            ScalarKind::I32 => 5,
            ScalarKind::U32 => 6,
            ScalarKind::I64 => 7,
            ScalarKind::U64 => 8,
            ScalarKind::I128 => 9,
            ScalarKind::U128 => 10,
            ScalarKind::F32 => 11,
            ScalarKind::F64 => 12,
            ScalarKind::String => 13,
        }
    }
}

impl Kind {
    /// The place of the kind among all kinds.
    pub fn place(&self) -> (r: u8)
        ensures
            r == self.rank(),
    {
        match self {
            Kind::Sum => 0,
            Kind::Product => 1,
            Kind::Scalar(k) => 2 + k.place(),
            Kind::Array => 16,
            Kind::Mapping => 17,
        }
    }

    /// The order of two kinds by their places.
    pub fn compare(&self, other: &Kind) -> (o: Order)
        ensures
            o == int_order(self.rank(), other.rank()),
            o == Order::Equal <==> *self == *other,
    {
        self.place().compare(&other.place())
    }
}

impl F32 {
    /// An integer that grows with the number.
    pub fn key(self) -> (k: u32)
        ensures
            k == self.order_key(),
    {
        let bits = self.to_bits();
        if bits & 0x8000_0000u32 != 0 {
            !bits
        } else {
            bits | 0x8000_0000u32
        }
    }
}

impl F64 {
    /// An integer that grows with the number.
    pub fn key(self) -> (k: u64)
        ensures
            k == self.order_key(),
    {
        let bits = self.to_bits();
        if bits & 0x8000_0000_0000_0000u64 != 0 {
            !bits
        } else {
            bits | 0x8000_0000_0000_0000u64
        }
    }
}

/// The order of two strings: that of the first character in which they
/// differ, and where there is none, the shorter string first.
pub fn compare_strs(a: &str, b: &str) -> (o: Order)
    ensures
        o == str_order(a@, b@, 0),
{
    broadcast use vstd::string::next_postcondition, vstd::string::axiom_spec_iter;

    let mut rest_a = a.chars();
    let mut rest_b = b.chars();
    let ghost mut i: int = 0;
    loop
        invariant
            0 <= i <= a@.len(),
            i <= b@.len(),
            rest_a.remaining() == a@.subrange(i, a@.len() as int),
            rest_b.remaining() == b@.subrange(i, b@.len() as int),
            str_order(a@, b@, i) == str_order(a@, b@, 0),
        decreases a@.len() - i,
    {
        let next_a = rest_a.next();
        let next_b = rest_b.next();
        match (next_a, next_b) {
            (None, None) => {
                return Order::Equal;
            },
            (None, Some(_)) => {
                return Order::Less;
            },
            (Some(_), None) => {
                return Order::Greater;
            },
            (Some(x), Some(y)) => {
                assert(x == a@[i] && y == b@[i]);
                if x != y {
                    return if x < y {
                        Order::Less
                    } else {
                        Order::Greater
                    };
                }
                assert(rest_a.remaining() =~= a@.subrange(i + 1, a@.len() as int));
                assert(rest_b.remaining() =~= b@.subrange(i + 1, b@.len() as int));
                proof {
                    i = i + 1;
                }
            },
        }
    }
}

/// A scalar of the value model held as a value of Rust.
pub trait ScalarItem: Sized {
    /// The scalar that the value is.
    spec fn scalar(&self) -> Scalar;

    /// The order of two scalars of one kind.
    fn compare(&self, other: &Self) -> (o: Order)
        ensures
            o == scalar_order(self.scalar(), other.scalar()),
    ;
}

impl ScalarItem for bool {
    open spec fn scalar(&self) -> Scalar {
        Scalar::Bool(*self)
    }

    fn compare(&self, other: &Self) -> (o: Order) {
        if *self == *other {
            Order::Equal
        } else if *other {
            Order::Less
        } else {
            Order::Greater
        }
    }
}

impl ScalarItem for i8 {
    open spec fn scalar(&self) -> Scalar {
        Scalar::I8(*self)
    }

    fn compare(&self, other: &Self) -> (o: Order) {
        if *self < *other {
            Order::Less
        } else if *self == *other {
            Order::Equal
        } else {
            Order::Greater
        }
    }
}

impl ScalarItem for u8 {
    open spec fn scalar(&self) -> Scalar {
        Scalar::U8(*self)
    }

    fn compare(&self, other: &Self) -> (o: Order) {
        if *self < *other {
            Order::Less
        } else if *self == *other {
            Order::Equal
        } else {
            Order::Greater
        }
    }
}

impl ScalarItem for i16 {
    open spec fn scalar(&self) -> Scalar {
        Scalar::I16(*self)
    }

    fn compare(&self, other: &Self) -> (o: Order) {
        if *self < *other {
            Order::Less
        } else if *self == *other {
            Order::Equal
        } else {
            Order::Greater
        }
    }
}

impl ScalarItem for u16 {
    open spec fn scalar(&self) -> Scalar {
        Scalar::U16(*self)
    }

    fn compare(&self, other: &Self) -> (o: Order) {
        if *self < *other {
            Order::Less
        } else if *self == *other {
            Order::Equal
        } else {
            Order::Greater
        }
    }
}

impl ScalarItem for i32 {
    open spec fn scalar(&self) -> Scalar {
        Scalar::I32(*self)
    }

    fn compare(&self, other: &Self) -> (o: Order) {
        if *self < *other {
            Order::Less
        } else if *self == *other {
            Order::Equal
        } else {
            Order::Greater
        }
    }
}

impl ScalarItem for u32 {
    open spec fn scalar(&self) -> Scalar {
        Scalar::U32(*self)
    }

    fn compare(&self, other: &Self) -> (o: Order) {
        if *self < *other {
            Order::Less
        } else if *self == *other {
            Order::Equal
        } else {
            Order::Greater
        }
    }
}

impl ScalarItem for i64 {
    open spec fn scalar(&self) -> Scalar {
        Scalar::I64(*self)
    }

    fn compare(&self, other: &Self) -> (o: Order) {
        if *self < *other {
            Order::Less
        } else if *self == *other {
            Order::Equal
        } else {
            Order::Greater
        }
    }
}

impl ScalarItem for u64 {
    open spec fn scalar(&self) -> Scalar {
        Scalar::U64(*self)
    }

    fn compare(&self, other: &Self) -> (o: Order) {
        if *self < *other {
            Order::Less
        } else if *self == *other {
            Order::Equal
        } else {
            Order::Greater
        }
    }
}

impl ScalarItem for i128 {
    open spec fn scalar(&self) -> Scalar {
        Scalar::I128(*self)
    }

    fn compare(&self, other: &Self) -> (o: Order) {
        if *self < *other {
            Order::Less
        } else if *self == *other {
            Order::Equal
        } else {
            Order::Greater
        }
    }
}

impl ScalarItem for u128 {
    open spec fn scalar(&self) -> Scalar {
        Scalar::U128(*self)
    }

    fn compare(&self, other: &Self) -> (o: Order) {
        if *self < *other {
            Order::Less
        } else if *self == *other {
            Order::Equal
        } else {
            Order::Greater
        }
    }
}

impl ScalarItem for F32 {
    open spec fn scalar(&self) -> Scalar {
        Scalar::F32(*self)
    }

    fn compare(&self, other: &Self) -> (o: Order) {
        let a = self.key();
        let b = other.key();
        if a < b {
            Order::Less
        } else if a == b {
            Order::Equal
        } else {
            Order::Greater
        }
    }
}

impl ScalarItem for F64 {
    open spec fn scalar(&self) -> Scalar {
        Scalar::F64(*self)
    }

    fn compare(&self, other: &Self) -> (o: Order) {
        let a = self.key();
        let b = other.key();
        if a < b {
            Order::Less
        } else if a == b {
            Order::Equal
        } else {
            Order::Greater
        }
    }
}

impl ScalarItem for String {
    open spec fn scalar(&self) -> Scalar {
        Scalar::String(self@)
    }

    fn compare(&self, other: &Self) -> (o: Order) {
        compare_strs(self.as_str(), other.as_str())
    }
}

/// The scalars of a sequence, each as a value.
pub open spec fn scalar_values<T: ScalarItem>(items: Seq<T>) -> Seq<ValueView> {
    Seq::new(items.len(), |i: int| ValueView::Scalar(items[i].scalar()))
}

/// The lexicographic order of two vectors of scalars of one kind.
pub fn compare_scalars<T: ScalarItem>(a: &Vec<T>, b: &Vec<T>) -> (o: Order)
    ensures
        o == seq_order(scalar_values(a@), scalar_values(b@), 0),
{
    let ghost va = scalar_values(a@);
    let ghost vb = scalar_values(b@);
    let mut i: usize = 0;
    while i < a.len() && i < b.len()
        invariant
            0 <= i <= a.len(),
            i <= b.len(),
            va == scalar_values(a@),
            vb == scalar_values(b@),
            seq_order(va, vb, i as int) == seq_order(va, vb, 0),
        decreases a.len() - i,
    {
        let o = a[i].compare(&b[i]);
        assert(value_order(va[i as int], vb[i as int]) == o);
        match o {
            Order::Equal => {},
            _ => {
                return o;
            },
        }
        i = i + 1;
    }
    if i < b.len() {
        Order::Less
    } else if i < a.len() {
        Order::Greater
    } else {
        Order::Equal
    }
}

impl AlgebraicValue {
    /// The structural order of two values.
    pub fn compare(&self, other: &AlgebraicValue) -> (o: Order)
        ensures
            o == value_order(self@, other@),
        decreases self,
    {
        proof {
            self.lemma_view_kind();
            other.lemma_view_kind();
        }
        match (self, other) {
            (AlgebraicValue::Sum(x), AlgebraicValue::Sum(y)) => x.compare(y),
            (AlgebraicValue::Product(x), AlgebraicValue::Product(y)) => x.compare(y),
            (AlgebraicValue::Builtin(x), AlgebraicValue::Builtin(y)) => x.compare(y),
            _ => self.kind().compare(&other.kind()),
        }
    }
}

impl SumValue {
    /// The structural order of two variants: by tag, then by payload.
    pub fn compare(&self, other: &SumValue) -> (o: Order)
        ensures
            o == value_order(self@, other@),
        decreases self,
    {
        if self.tag != other.tag {
            return self.tag.compare(&other.tag);
        }
        (*self.value).compare(&*other.value)
    }
}

impl ProductValue {
    /// The structural order of two products: that of the first element in
    /// which they differ, and where there is none, the shorter product first.
    pub fn compare(&self, other: &ProductValue) -> (o: Order)
        ensures
            o == value_order(self@, other@),
        decreases self,
    {
        let ghost va = self@->Product_0;
        let ghost vb = other@->Product_0;
        let n = self.elements.len();
        let m = other.elements.len();
        let mut i: usize = 0;
        while i < n && i < m
            invariant
                0 <= i <= n,
                i <= m,
                n == self.elements.len(),
                m == other.elements.len(),
                va == self@->Product_0,
                vb == other@->Product_0,
                seq_order(va, vb, i as int) == seq_order(va, vb, 0),
            decreases n - i,
        {
            let o = self.elements[i].compare(&other.elements[i]);
            assert(value_order(va[i as int], vb[i as int]) == o);
            match o {
                Order::Equal => {},
                _ => {
                    return o;
                },
            }
            i = i + 1;
        }
        if i < m {
            Order::Less
        } else if i < n {
            Order::Greater
        } else {
            Order::Equal
        }
    }
}

impl BuiltinValue {
    /// The structural order of two builtin values.
    pub fn compare(&self, other: &BuiltinValue) -> (o: Order)
        ensures
            o == value_order(self@, other@),
        decreases self,
    {
        proof {
            self.lemma_view_kind();
            other.lemma_view_kind();
        }
        match (self, other) {
            (BuiltinValue::Bool(x), BuiltinValue::Bool(y)) => x.compare(y),
            (BuiltinValue::I8(x), BuiltinValue::I8(y)) => x.compare(y),
            (BuiltinValue::U8(x), BuiltinValue::U8(y)) => x.compare(y),
            (BuiltinValue::I16(x), BuiltinValue::I16(y)) => x.compare(y),
            (BuiltinValue::U16(x), BuiltinValue::U16(y)) => x.compare(y),
            (BuiltinValue::I32(x), BuiltinValue::I32(y)) => x.compare(y),
            (BuiltinValue::U32(x), BuiltinValue::U32(y)) => x.compare(y),
            (BuiltinValue::I64(x), BuiltinValue::I64(y)) => x.compare(y),
            (BuiltinValue::U64(x), BuiltinValue::U64(y)) => x.compare(y),
            (BuiltinValue::I128(x), BuiltinValue::I128(y)) => x.compare(y),
            (BuiltinValue::U128(x), BuiltinValue::U128(y)) => x.compare(y),
            (BuiltinValue::F32(x), BuiltinValue::F32(y)) => x.compare(y),
            (BuiltinValue::F64(x), BuiltinValue::F64(y)) => x.compare(y),
            (BuiltinValue::String(x), BuiltinValue::String(y)) => x.compare(y),
            (BuiltinValue::Array { val: x }, BuiltinValue::Array { val: y }) => x.compare(y),
            (BuiltinValue::Mapping { val: x }, BuiltinValue::Mapping { val: y }) => x.compare(y),
            _ => self.kind().compare(&other.kind()),
        }
    }
}

impl ArrayValue {
    /// The structural order of two arrays: by the kind of their elements,
    /// then that of the first element in which they differ, and where there
    /// is none, the shorter array first.
    pub fn compare(&self, other: &ArrayValue) -> (o: Order)
        ensures
            o == value_order(self@, other@),
        decreases self,
    {
        let kind = self.kind();
        match kind.compare(&other.kind()) {
            Order::Equal => {},
            o => {
                return o;
            },
        }
        match (self, other) {
            (ArrayValue::Bool(x), ArrayValue::Bool(y)) => {
                proof {
                    reveal_with_fuel(array_view, 2);
                    assert(self.elems() =~= scalar_values(x@));
                    assert(other.elems() =~= scalar_values(y@));
                }
                compare_scalars(x, y)
            },
            (ArrayValue::I8(x), ArrayValue::I8(y)) => {
                proof {
                    reveal_with_fuel(array_view, 2);
                    assert(self.elems() =~= scalar_values(x@));
                    assert(other.elems() =~= scalar_values(y@));
                }
                compare_scalars(x, y)
            },
            (ArrayValue::U8(x), ArrayValue::U8(y)) => {
                proof {
                    reveal_with_fuel(array_view, 2);
                    assert(self.elems() =~= scalar_values(x@));
                    assert(other.elems() =~= scalar_values(y@));
                }
                compare_scalars(x, y)
            },
            (ArrayValue::I16(x), ArrayValue::I16(y)) => {
                proof {
                    reveal_with_fuel(array_view, 2);
                    assert(self.elems() =~= scalar_values(x@));
                    assert(other.elems() =~= scalar_values(y@));
                }
                compare_scalars(x, y)
            },
            (ArrayValue::U16(x), ArrayValue::U16(y)) => {
                proof {
                    reveal_with_fuel(array_view, 2);
                    assert(self.elems() =~= scalar_values(x@));
                    assert(other.elems() =~= scalar_values(y@));
                }
                compare_scalars(x, y)
            },
            (ArrayValue::I32(x), ArrayValue::I32(y)) => {
                proof {
                    reveal_with_fuel(array_view, 2);
                    assert(self.elems() =~= scalar_values(x@));
                    assert(other.elems() =~= scalar_values(y@));
                }
                compare_scalars(x, y)
            },
            (ArrayValue::U32(x), ArrayValue::U32(y)) => {
                proof {
                    reveal_with_fuel(array_view, 2);
                    assert(self.elems() =~= scalar_values(x@));
                    assert(other.elems() =~= scalar_values(y@));
                }
                compare_scalars(x, y)
            },
            (ArrayValue::I64(x), ArrayValue::I64(y)) => {
                proof {
                    reveal_with_fuel(array_view, 2);
                    assert(self.elems() =~= scalar_values(x@));
                    assert(other.elems() =~= scalar_values(y@));
                }
                compare_scalars(x, y)
            },
            (ArrayValue::U64(x), ArrayValue::U64(y)) => {
                proof {
                    reveal_with_fuel(array_view, 2);
                    assert(self.elems() =~= scalar_values(x@));
                    assert(other.elems() =~= scalar_values(y@));
                }
                compare_scalars(x, y)
            },
            (ArrayValue::I128(x), ArrayValue::I128(y)) => {
                proof {
                    reveal_with_fuel(array_view, 2);
                    assert(self.elems() =~= scalar_values(x@));
                    assert(other.elems() =~= scalar_values(y@));
                }
                compare_scalars(x, y)
            },
            (ArrayValue::U128(x), ArrayValue::U128(y)) => {
                proof {
                    reveal_with_fuel(array_view, 2);
                    assert(self.elems() =~= scalar_values(x@));
                    assert(other.elems() =~= scalar_values(y@));
                }
                compare_scalars(x, y)
            },
            (ArrayValue::F32(x), ArrayValue::F32(y)) => {
                proof {
                    reveal_with_fuel(array_view, 2);
                    assert(self.elems() =~= scalar_values(x@));
                    assert(other.elems() =~= scalar_values(y@));
                }
                compare_scalars(x, y)
            },
            (ArrayValue::F64(x), ArrayValue::F64(y)) => {
                proof {
                    reveal_with_fuel(array_view, 2);
                    assert(self.elems() =~= scalar_values(x@));
                    assert(other.elems() =~= scalar_values(y@));
                }
                compare_scalars(x, y)
            },
            (ArrayValue::String(x), ArrayValue::String(y)) => {
                proof {
                    reveal_with_fuel(array_view, 2);
                    assert(self.elems() =~= scalar_values(x@));
                    assert(other.elems() =~= scalar_values(y@));
                }
                compare_scalars(x, y)
            },
            _ => {
                let ghost va = self.elems();
                let ghost vb = other.elems();
                let n = self.len();
                let m = other.len();
                let mut i: usize = 0;
                while i < n && i < m
                    invariant
                        0 <= i <= n,
                        i <= m,
                        n == self.elems().len(),
                        m == other.elems().len(),
                        va == self.elems(),
                        vb == other.elems(),
                        self.elem_kind() == other.elem_kind(),
                        !(self.elem_kind() is Scalar),
                        seq_order(va, vb, i as int) == seq_order(va, vb, 0),
                    decreases n - i,
                {
                    proof {
                        reveal_with_fuel(array_view, 2);
                    }
                    let o = match (self, other) {
                        (ArrayValue::Sum(x), ArrayValue::Sum(y)) => x[i].compare(&y[i]),
                        (ArrayValue::Product(x), ArrayValue::Product(y)) => x[i].compare(&y[i]),
                        (ArrayValue::Array(x), ArrayValue::Array(y)) => x[i].compare(&y[i]),
                        (ArrayValue::Mapping(x), ArrayValue::Mapping(y)) => x[i].compare(&y[i]),
                        _ => unreached(),
                    };
                    assert(value_order(va[i as int], vb[i as int]) == o);
                    match o {
                        Order::Equal => {},
                        _ => {
                            return o;
                        },
                    }
                    i = i + 1;
                }
                if i < m {
                    Order::Less
                } else if i < n {
                    Order::Greater
                } else {
                    Order::Equal
                }
            },
        }
    }
}

impl MapValue {
    /// The structural order of two maps: that of the first entry in which
    /// they differ, key before value, and where there is none, the shorter
    /// map first.
    pub fn compare(&self, other: &MapValue) -> (o: Order)
        ensures
            o == value_order(self@, other@),
        decreases self,
    {
        let ghost va = self.entries_view();
        let ghost vb = other.entries_view();
        let n = self.len();
        let m = other.len();
        let mut i: usize = 0;
        while i < n && i < m
            invariant
                0 <= i <= n,
                i <= m,
                n == self.entries_view().len(),
                m == other.entries_view().len(),
                va == self.entries_view(),
                vb == other.entries_view(),
                entries_order(va, vb, i as int) == entries_order(va, vb, 0),
            decreases n - i,
        {
            let o = self.key(i).compare(other.key(i));
            assert(value_order(va[i as int].0, vb[i as int].0) == o);
            match o {
                Order::Equal => {},
                _ => {
                    return o;
                },
            }
            let o = self.value(i).compare(other.value(i));
            assert(value_order(va[i as int].1, vb[i as int].1) == o);
            match o {
                Order::Equal => {},
                _ => {
                    return o;
                },
            }
            i = i + 1;
        }
        if i < m {
            Order::Less
        } else if i < n {
            Order::Greater
        } else {
            Order::Equal
        }
    }
}

} // verus!
