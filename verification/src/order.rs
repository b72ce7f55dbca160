//! The structural order on values, by which the keys of a map are sorted.
//!
//! Values of different kinds are ordered by kind: sums, products, the scalars
//! from booleans over the integers and the floating-point numbers to strings,
//! arrays, maps. Values of one kind are ordered by their contents, sequences
//! lexicographically.
use crate::algebraic_value::ValueView;
use crate::scalar::{Kind, Scalar, ScalarKind, F32, F64};
use vstd::prelude::*;

verus! {

/// How one value stands to another.
#[derive(Clone, Copy, Debug, PartialEq, Eq, Structural)]
pub enum Order {
    Less,
    Equal,
    Greater,
}

/// The order of two integers.
pub open spec fn int_order(a: int, b: int) -> Order {
    if a < b {
        Order::Less
    } else if a == b {
        Order::Equal
    } else {
        Order::Greater
    }
}

impl F32 {
    /// An integer that grows with the number: negative numbers have their bits
    /// flipped, the others have the sign bit set. Negative zero comes before
    /// positive zero, and the not-a-number patterns lie at both ends.
    pub open spec fn order_key(self) -> u32 {
        if self.bits() & 0x8000_0000u32 != 0 {
            !self.bits()
        } else {
            self.bits() | 0x8000_0000u32
        }
    }
}

impl F64 {
    /// An integer that grows with the number: negative numbers have their bits
    /// flipped, the others have the sign bit set. Negative zero comes before
    /// positive zero, and the not-a-number patterns lie at both ends.
    pub open spec fn order_key(self) -> u64 {
        if self.bits() & 0x8000_0000_0000_0000u64 != 0 {
            !self.bits()
        } else {
            self.bits() | 0x8000_0000_0000_0000u64
        }
    }
}

impl ScalarKind {
    /// The place of the kind among the scalar kinds.
    pub open spec fn rank(self) -> int {
        match self {
            ScalarKind::Bool => 0,
            ScalarKind::I8 => 1,
            ScalarKind::U8 => 2,
            ScalarKind::I16 => 3,
            ScalarKind::U16 => 4,
            ScalarKind::I32 => 5,
            ScalarKind::U32 => 6,
            ScalarKind::I64 => 7,
            ScalarKind::U64 => 8,
            ScalarKind::I128 => 9,
            ScalarKind::U128 => 10,
            ScalarKind::F32 => 11,
            ScalarKind::F64 => 12,
            ScalarKind::String => 13,
        }
    }
}

impl Kind {
    /// The place of the kind among all kinds.
    pub open spec fn rank(self) -> int {
        match self {
            Kind::Sum => 0,
            Kind::Product => 1,
            Kind::Scalar(k) => 2 + k.rank(),
            Kind::Array => 16,
            Kind::Mapping => 17,
        }
    }
}

impl Scalar {
    /// The integer by which a scalar other than a string is ordered among the
    /// scalars of its kind.
    pub open spec fn order_key(self) -> int {
        match self {
            Scalar::Bool(v) => if v { 1 } else { 0 },
            Scalar::I8(v) => v as int,
            Scalar::U8(v) => v as int,
            Scalar::I16(v) => v as int,
            Scalar::U16(v) => v as int,
            Scalar::I32(v) => v as int,
            Scalar::U32(v) => v as int,
            Scalar::I64(v) => v as int,
            Scalar::U64(v) => v as int,
            Scalar::I128(v) => v as int,
            Scalar::U128(v) => v as int,
            Scalar::F32(v) => v.order_key() as int,
            Scalar::F64(v) => v.order_key() as int,
            Scalar::String(_) => 0,
        }
    }
}

/// The lexicographic order of two strings from the `i`-th character on, given
/// that they agree before it.
pub open spec fn str_order(a: Seq<char>, b: Seq<char>, i: int) -> Order
    decreases a.len() - i,
{
    if i < 0 {
        Order::Equal
    } else if i >= a.len() {
        if i >= b.len() {
            Order::Equal
        } else {
            Order::Less
        }
    } else if i >= b.len() {
        Order::Greater
    } else if a[i] != b[i] {
        int_order(a[i] as int, b[i] as int)
    } else {
        str_order(a, b, i + 1)
    }
}

/// The order of two scalars.
pub open spec fn scalar_order(a: Scalar, b: Scalar) -> Order {
    if a.kind() != b.kind() {
        int_order(a.kind().rank(), b.kind().rank())
    } else if a is String {
        str_order(a->String_0, b->String_0, 0)
    } else {
        int_order(a.order_key(), b.order_key())
    }
}

/// The structural order of two values.
pub open spec fn value_order(a: ValueView, b: ValueView) -> Order
    decreases a,
{
    if a.kind() != b.kind() {
        int_order(a.kind().rank(), b.kind().rank())
    } else {
        match a {
            ValueView::Sum { tag, payload } => {
                if tag != b->Sum_tag {
                    int_order(tag as int, b->Sum_tag as int)
                } else {
                    value_order(*payload, *b->Sum_payload)
                }
            },
            ValueView::Product(elems) => seq_order(elems, b->Product_0, 0),
            ValueView::Scalar(s) => scalar_order(s, b->Scalar_0),
            ValueView::Array { kind, elems } => {
                if kind != b->Array_kind {
                    int_order(kind.rank(), b->Array_kind.rank())
                } else {
                    seq_order(elems, b->Array_elems, 0)
                }
            },
            ValueView::Mapping(entries) => entries_order(entries, b->Mapping_0, 0),
        }
    }
}

/// The lexicographic order of two sequences of values from the `i`-th element
/// on, given that they agree before it.
pub open spec fn seq_order(a: Seq<ValueView>, b: Seq<ValueView>, i: int) -> Order
    decreases a, a.len() - i,
{
    if i < 0 {
        Order::Equal
    } else if i >= a.len() {
        if i >= b.len() {
            Order::Equal
        } else {
            Order::Less
        }
    } else if i >= b.len() {
        Order::Greater
    } else {
        match value_order(a[i], b[i]) {
            Order::Equal => seq_order(a, b, i + 1),
            o => o,
        }
    }
}

/// The lexicographic order of two sequences of entries from the `i`-th entry
/// on, given that they agree before it. Within an entry the key comes first.
pub open spec fn entries_order(
    a: Seq<(ValueView, ValueView)>,
    b: Seq<(ValueView, ValueView)>,
    i: int,
) -> Order
    decreases a, a.len() - i,
{
    if i < 0 {
        Order::Equal
    } else if i >= a.len() {
        if i >= b.len() {
            Order::Equal
        } else {
            Order::Less
        }
    } else if i >= b.len() {
        Order::Greater
    } else {
        match value_order(a[i].0, b[i].0) {
            Order::Equal => match value_order(a[i].1, b[i].1) {
                Order::Equal => entries_order(a, b, i + 1),
                o => o,
            },
            o => o,
        }
    }
}

/// The keys of `entries` ascend strictly, so no key occurs twice.
pub open spec fn keys_ascend(entries: Seq<(ValueView, ValueView)>) -> bool {
    forall|i: int, j: int|
        0 <= i < j < entries.len() ==> value_order(#[trigger] entries[i].0, #[trigger] entries[j].0)
            == Order::Less
}

impl Order {
    /// The order seen from the other side.
    pub open spec fn flip(self) -> Order {
        match self {
            Order::Less => Order::Greater,
            Order::Equal => Order::Equal,
            Order::Greater => Order::Less,
        }
    }
}

/// Two floating-point numbers with the same key have the same bits.
pub proof fn lemma_order_key_32(a: u32, b: u32)
    requires
        (if a & 0x8000_0000u32 != 0 {
            !a
        } else {
            a | 0x8000_0000u32
        }) == (if b & 0x8000_0000u32 != 0 {
            !b
        } else {
            b | 0x8000_0000u32
        }),
    ensures
        a == b,
{
    assert((if a & 0x8000_0000u32 != 0 {
        !a
    } else {
        a | 0x8000_0000u32
    }) == (if b & 0x8000_0000u32 != 0 {
        !b
    } else {
        b | 0x8000_0000u32
    }) ==> a == b) by (bit_vector);
}

/// Two floating-point numbers with the same key have the same bits.
pub proof fn lemma_order_key_64(a: u64, b: u64)
    requires
        (if a & 0x8000_0000_0000_0000u64 != 0 {
            !a
        } else {
            a | 0x8000_0000_0000_0000u64
        }) == (if b & 0x8000_0000_0000_0000u64 != 0 {
            !b
        } else {
            b | 0x8000_0000_0000_0000u64
        }),
    ensures
        a == b,
{
    assert((if a & 0x8000_0000_0000_0000u64 != 0 {
        !a
    } else {
        a | 0x8000_0000_0000_0000u64
    }) == (if b & 0x8000_0000_0000_0000u64 != 0 {
        !b
    } else {
        b | 0x8000_0000_0000_0000u64
    }) ==> a == b) by (bit_vector);
}

/// Two strings that agree before the `i`-th character are equal from there
/// on in the order exactly if they are the same string.
pub proof fn lemma_str_order_equal(a: Seq<char>, b: Seq<char>, i: int)
    requires
        0 <= i <= a.len(),
        i <= b.len(),
        forall|j: int| 0 <= j < i ==> a[j] == b[j],
    ensures
        str_order(a, b, i) == Order::Equal <==> a == b,
    decreases a.len() - i,
{
    if i >= a.len() {
        if i >= b.len() {
            assert(a =~= b);
        }
    } else if i >= b.len() {
    } else if a[i] != b[i] {
    } else {
        lemma_str_order_equal(a, b, i + 1);
    }
}

/// The order of two strings from the `i`-th character on, seen from the other
/// side.
pub proof fn lemma_str_order_flip(a: Seq<char>, b: Seq<char>, i: int)
    requires
        0 <= i,
    ensures
        str_order(b, a, i) == str_order(a, b, i).flip(),
    decreases a.len() - i,
{
    if i < a.len() && i < b.len() && a[i] == b[i] {
        lemma_str_order_flip(a, b, i + 1);
    }
}

/// The order of strings from the `i`-th character on is transitive.
pub proof fn lemma_str_order_transitive(a: Seq<char>, b: Seq<char>, c: Seq<char>, i: int)
    requires
        0 <= i,
        str_order(a, b, i) == Order::Less,
        str_order(b, c, i) == Order::Less,
    ensures
        str_order(a, c, i) == Order::Less,
    decreases a.len() - i,
{
    if i < a.len() && i < b.len() && i < c.len() && a[i] == b[i] && b[i] == c[i] {
        lemma_str_order_transitive(a, b, c, i + 1);
    }
}

/// Two scalars are equal in the order exactly if they are the same scalar.
pub proof fn lemma_scalar_order_equal(a: Scalar, b: Scalar)
    ensures
        scalar_order(a, b) == Order::Equal <==> a == b,
{
    if a.kind() == b.kind() {
        match a {
            Scalar::String(x) => {
                lemma_str_order_equal(x, b->String_0, 0);
            },
            Scalar::F32(x) => {
                if x.order_key() == b->F32_0.order_key() {
                    lemma_order_key_32(x.bits(), b->F32_0.bits());
                    F32::bits_injective(x, b->F32_0);
                }
            },
            Scalar::F64(x) => {
                if x.order_key() == b->F64_0.order_key() {
                    lemma_order_key_64(x.bits(), b->F64_0.bits());
                    F64::bits_injective(x, b->F64_0);
                }
            },
            _ => {},
        }
    }
}

/// The order of two scalars, seen from the other side.
pub proof fn lemma_scalar_order_flip(a: Scalar, b: Scalar)
    ensures
        scalar_order(b, a) == scalar_order(a, b).flip(),
{
    if a.kind() == b.kind() && a is String {
        lemma_str_order_flip(a->String_0, b->String_0, 0);
    }
}

/// The order of scalars is transitive.
pub proof fn lemma_scalar_order_transitive(a: Scalar, b: Scalar, c: Scalar)
    requires
        scalar_order(a, b) == Order::Less,
        scalar_order(b, c) == Order::Less,
    ensures
        scalar_order(a, c) == Order::Less,
{
    if a.kind() == b.kind() && b.kind() == c.kind() && a is String {
        lemma_str_order_transitive(a->String_0, b->String_0, c->String_0, 0);
    }
}

/// Two values are equal in the order exactly if they are the same value.
pub proof fn lemma_value_order_equal(a: ValueView, b: ValueView)
    ensures
        value_order(a, b) == Order::Equal <==> a == b,
    decreases a,
{
    if a.kind() == b.kind() {
        match a {
            ValueView::Sum { tag, payload } => {
                lemma_value_order_equal(*payload, *b->Sum_payload);
            },
            ValueView::Product(elems) => {
                lemma_seq_order_equal(elems, b->Product_0, 0);
            },
            ValueView::Scalar(s) => {
                lemma_scalar_order_equal(s, b->Scalar_0);
            },
            ValueView::Array { kind, elems } => {
                lemma_seq_order_equal(elems, b->Array_elems, 0);
            },
            ValueView::Mapping(entries) => {
                lemma_entries_order_equal(entries, b->Mapping_0, 0);
            },
        }
    }
}

/// Two sequences of values that agree before the `i`-th element are equal
/// from there on in the order exactly if they are the same sequence.
pub proof fn lemma_seq_order_equal(a: Seq<ValueView>, b: Seq<ValueView>, i: int)
    requires
        0 <= i <= a.len(),
        i <= b.len(),
        forall|j: int| 0 <= j < i ==> a[j] == b[j],
    ensures
        seq_order(a, b, i) == Order::Equal <==> a == b,
    decreases a, a.len() - i,
{
    if i >= a.len() {
        if i >= b.len() {
            assert(a =~= b);
        }
    } else if i >= b.len() {
    } else {
        lemma_value_order_equal(a[i], b[i]);
        if a[i] == b[i] {
            lemma_seq_order_equal(a, b, i + 1);
        }
    }
}

/// Two sequences of entries that agree before the `i`-th entry are equal from
/// there on in the order exactly if they are the same sequence.
pub proof fn lemma_entries_order_equal(
    a: Seq<(ValueView, ValueView)>,
    b: Seq<(ValueView, ValueView)>,
    i: int,
)
    requires
        0 <= i <= a.len(),
        i <= b.len(),
        forall|j: int| 0 <= j < i ==> a[j] == b[j],
    ensures
        entries_order(a, b, i) == Order::Equal <==> a == b,
    decreases a, a.len() - i,
{
    if i >= a.len() {
        if i >= b.len() {
            assert(a =~= b);
        }
    } else if i >= b.len() {
    } else {
        assert(decreases_to!(a => a[i]));
        assert(decreases_to!(a[i] => a[i].0));
        assert(decreases_to!(a[i] => a[i].1));
        lemma_value_order_equal(a[i].0, b[i].0);
        lemma_value_order_equal(a[i].1, b[i].1);
        if a[i] == b[i] {
            lemma_entries_order_equal(a, b, i + 1);
        }
    }
}

/// The order of two values, seen from the other side.
pub proof fn lemma_value_order_flip(a: ValueView, b: ValueView)
    ensures
        value_order(b, a) == value_order(a, b).flip(),
    decreases a,
{
    if a.kind() == b.kind() {
        match a {
            ValueView::Sum { tag, payload } => {
                lemma_value_order_flip(*payload, *b->Sum_payload);
            },
            ValueView::Product(elems) => {
                lemma_seq_order_flip(elems, b->Product_0, 0);
            },
            ValueView::Scalar(s) => {
                lemma_scalar_order_flip(s, b->Scalar_0);
            },
            ValueView::Array { kind, elems } => {
                lemma_seq_order_flip(elems, b->Array_elems, 0);
            },
            ValueView::Mapping(entries) => {
                lemma_entries_order_flip(entries, b->Mapping_0, 0);
            },
        }
    }
}

/// The order of two sequences of values from the `i`-th element on, seen from
/// the other side.
pub proof fn lemma_seq_order_flip(a: Seq<ValueView>, b: Seq<ValueView>, i: int)
    requires
        0 <= i,
    ensures
        seq_order(b, a, i) == seq_order(a, b, i).flip(),
    decreases a, a.len() - i,
{
    if i < a.len() && i < b.len() {
        lemma_value_order_flip(a[i], b[i]);
        if value_order(a[i], b[i]) == Order::Equal {
            lemma_seq_order_flip(a, b, i + 1);
        }
    }
}

/// The order of two sequences of entries from the `i`-th entry on, seen from
/// the other side.
pub proof fn lemma_entries_order_flip(
    a: Seq<(ValueView, ValueView)>,
    b: Seq<(ValueView, ValueView)>,
    i: int,
)
    requires
        0 <= i,
    ensures
        entries_order(b, a, i) == entries_order(a, b, i).flip(),
    decreases a, a.len() - i,
{
    if i < a.len() && i < b.len() {
        assert(decreases_to!(a => a[i]));
        assert(decreases_to!(a[i] => a[i].0));
        assert(decreases_to!(a[i] => a[i].1));
        lemma_value_order_flip(a[i].0, b[i].0);
        lemma_value_order_flip(a[i].1, b[i].1);
        if value_order(a[i].0, b[i].0) == Order::Equal && value_order(a[i].1, b[i].1)
            == Order::Equal {
            lemma_entries_order_flip(a, b, i + 1);
        }
    }
}

/// The order of values is transitive.
pub proof fn lemma_value_order_transitive(a: ValueView, b: ValueView, c: ValueView)
    requires
        value_order(a, b) == Order::Less,
        value_order(b, c) == Order::Less,
    ensures
        value_order(a, c) == Order::Less,
    decreases a,
{
    if a.kind() == b.kind() && b.kind() == c.kind() {
        match a {
            ValueView::Sum { tag, payload } => {
                if tag == b->Sum_tag && b->Sum_tag == c->Sum_tag {
                    lemma_value_order_transitive(*payload, *b->Sum_payload, *c->Sum_payload);
                }
            },
            ValueView::Product(elems) => {
                lemma_seq_order_transitive(elems, b->Product_0, c->Product_0, 0);
            },
            ValueView::Scalar(s) => {
                lemma_scalar_order_transitive(s, b->Scalar_0, c->Scalar_0);
            },
            ValueView::Array { kind, elems } => {
                if kind == b->Array_kind && b->Array_kind == c->Array_kind {
                    lemma_seq_order_transitive(elems, b->Array_elems, c->Array_elems, 0);
                }
            },
            ValueView::Mapping(entries) => {
                lemma_entries_order_transitive(entries, b->Mapping_0, c->Mapping_0, 0);
            },
        }
    }
}

/// The order of sequences of values from the `i`-th element on is transitive.
pub proof fn lemma_seq_order_transitive(
    a: Seq<ValueView>,
    b: Seq<ValueView>,
    c: Seq<ValueView>,
    i: int,
)
    requires
        0 <= i,
        seq_order(a, b, i) == Order::Less,
        seq_order(b, c, i) == Order::Less,
    ensures
        seq_order(a, c, i) == Order::Less,
    decreases a, a.len() - i,
{
    if i < a.len() && i < b.len() && i < c.len() {
        let ab = value_order(a[i], b[i]);
        let bc = value_order(b[i], c[i]);
        lemma_value_order_equal(a[i], b[i]);
        lemma_value_order_equal(b[i], c[i]);
        lemma_value_order_equal(a[i], c[i]);
        if ab == Order::Less && bc == Order::Less {
            lemma_value_order_transitive(a[i], b[i], c[i]);
        } else if ab == Order::Equal && bc == Order::Equal {
            lemma_seq_order_transitive(a, b, c, i + 1);
        }
    }
}

/// The order of sequences of entries from the `i`-th entry on is transitive.
pub proof fn lemma_entries_order_transitive(
    a: Seq<(ValueView, ValueView)>,
    b: Seq<(ValueView, ValueView)>,
    c: Seq<(ValueView, ValueView)>,
    i: int,
)
    requires
        0 <= i,
        entries_order(a, b, i) == Order::Less,
        entries_order(b, c, i) == Order::Less,
    ensures
        entries_order(a, c, i) == Order::Less,
    decreases a, a.len() - i,
{
    if i < a.len() && i < b.len() && i < c.len() {
        assert(decreases_to!(a => a[i]));
        assert(decreases_to!(a[i] => a[i].0));
        assert(decreases_to!(a[i] => a[i].1));
        let kab = value_order(a[i].0, b[i].0);
        let kbc = value_order(b[i].0, c[i].0);
        let vab = value_order(a[i].1, b[i].1);
        let vbc = value_order(b[i].1, c[i].1);
        lemma_value_order_equal(a[i].0, b[i].0);
        lemma_value_order_equal(b[i].0, c[i].0);
        lemma_value_order_equal(a[i].0, c[i].0);
        lemma_value_order_equal(a[i].1, b[i].1);
        lemma_value_order_equal(b[i].1, c[i].1);
        lemma_value_order_equal(a[i].1, c[i].1);
        if kab == Order::Less && kbc == Order::Less {
            lemma_value_order_transitive(a[i].0, b[i].0, c[i].0);
        } else if kab == Order::Equal && kbc == Order::Equal {
            if vab == Order::Less && vbc == Order::Less {
                lemma_value_order_transitive(a[i].1, b[i].1, c[i].1);
            } else if vab == Order::Equal && vbc == Order::Equal {
                lemma_entries_order_transitive(a, b, c, i + 1);
            }
        }
    }
}

} // verus!
