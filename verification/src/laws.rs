//! What holds of every emission: laws that relate the shapes of values, of
//! types and of maps.
use crate::algebraic_type::TypeView;
use crate::algebraic_value::ValueView;
use crate::map_value::{lemma_one_listing, MapValue};
use crate::order::{keys_ascend, value_order, Order};
use crate::scalar::{Kind, Scalar, ScalarKind};
use crate::ser::typed::typed_shape;
use crate::ser::Serialize;
use crate::shape::Shape;
use crate::typespace::resolve;
use crate::value_with_type::{
    conforms, lemma_conforms_array, lemma_conforms_kind, lemma_conforms_product,
    lemma_conforms_resolved,
};
use vstd::prelude::*;

verus! {

/// An optional value that holds `x` is emitted as the variant named `some`,
/// with tag 0, around what `x` alone is emitted as. The optional value that
/// holds nothing is emitted as the variant named `none`, with tag 1, around
/// the product without elements.
pub proof fn law_optional_value<T: Serialize>(x: T)
    ensures
        Some(x).shape() == (Shape::Variant {
            tag: 0,
            name: Some(seq!['s', 'o', 'm', 'e']),
            payload: Box::new(x.shape()),
        }),
        None::<T>.shape() == (Shape::Variant {
            tag: 1,
            name: Some(seq!['n', 'o', 'n', 'e']),
            payload: Box::new(Shape::SeqProduct(Seq::empty())),
        }),
{
    reveal_strlit("some");
    reveal_strlit("none");
    assert("some"@ =~= seq!['s', 'o', 'm', 'e']);
    assert("none"@ =~= seq!['n', 'o', 'n', 'e']);
}

/// A success that holds `x` is emitted as the variant named `ok`, with tag 0,
/// around what `x` alone is emitted as; an error that holds `e` as the variant
/// named `err`, with tag 1, around what `e` alone is emitted as.
pub proof fn law_fallible_value<T: Serialize, E: Serialize>(x: T, e: E)
    ensures
        Ok::<T, E>(x).shape() == (Shape::Variant {
            tag: 0,
            name: Some(seq!['o', 'k']),
            payload: Box::new(x.shape()),
        }),
        Err::<T, E>(e).shape() == (Shape::Variant {
            tag: 1,
            name: Some(seq!['e', 'r', 'r']),
            payload: Box::new(e.shape()),
        }),
{
    reveal_strlit("ok");
    reveal_strlit("err");
    assert("ok"@ =~= seq!['o', 'k']);
    assert("err"@ =~= seq!['e', 'r', 'r']);
}

/// A product of `n` elements, paired with a type that stands for a product
/// type of `n` elements, is emitted as a product of exactly `n` named
/// elements, in the order of the value: the `i`-th under the name that the
/// type declares in the `i`-th place, or under none where it declares none,
/// and as what the `i`-th element is emitted as with the type declared there.
pub proof fn law_named_product(
    ts: Seq<TypeView>,
    ty: TypeView,
    fields: Seq<(Option<Seq<char>>, TypeView)>,
    elems: Seq<ValueView>,
)
    requires
        resolve(ts, ty) == Some(TypeView::Product(fields)),
        fields.len() == elems.len(),
        forall|i: int| 0 <= i < elems.len() ==> conforms(ts, fields[i].1, #[trigger] elems[i]),
    ensures
        conforms(ts, ty, ValueView::Product(elems)),
        typed_shape(ts, ty, ValueView::Product(elems)) is NamedProduct,
        typed_shape(ts, ty, ValueView::Product(elems))->NamedProduct_0.len() == elems.len(),
        forall|i: int|
            0 <= i < elems.len() ==> (#[trigger] typed_shape(
                ts,
                ty,
                ValueView::Product(elems),
            )->NamedProduct_0[i]) == (fields[i].0, typed_shape(ts, fields[i].1, elems[i])),
{
    lemma_conforms_product(ts, fields, elems);
    lemma_conforms_resolved(ts, ty, ValueView::Product(elems));
}

/// The entries of a map are emitted in strictly ascending order of their
/// keys, and two maps with the same keys and the same value under each key
/// are emitted alike, without a schema and with any type, whatever the order
/// in which their entries went in.
pub proof fn law_map_order(a: MapValue, b: MapValue, ts: Seq<TypeView>, ty: TypeView)
    requires
        keys_ascend(a.entries_view()),
        keys_ascend(b.entries_view()),
        a.as_map() == b.as_map(),
    ensures
        a@.shape() is Mapping,
        a@.shape()->Mapping_0.len() == a.entries_view().len(),
        forall|i: int|
            0 <= i < a.entries_view().len() ==> (#[trigger] a@.shape()->Mapping_0[i]) == (
                a.entries_view()[i].0.shape(),
                a.entries_view()[i].1.shape(),
            ),
        forall|i: int, j: int|
            0 <= i < j < a.entries_view().len() ==> value_order(
                #[trigger] a.entries_view()[i].0,
                #[trigger] a.entries_view()[j].0,
            ) == Order::Less,
        a@ == b@,
        a@.shape() == b@.shape(),
        typed_shape(ts, ty, a@) == typed_shape(ts, ty, b@),
{
    lemma_one_listing(a.entries_view(), b.entries_view());
}

/// An array without elements is admitted by every array type, whatever the
/// declared element type, and is emitted with it as an array, or as a run of
/// bytes, without elements.
pub proof fn law_empty_array(ts: Seq<TypeView>, ty: TypeView, kind: Kind)
    requires
        resolve(ts, ty) is Some,
        resolve(ts, ty)->Some_0 is Array,
    ensures
        conforms(ts, ty, ValueView::Array { kind, elems: Seq::empty() }),
        typed_shape(ts, ty, ValueView::Array { kind, elems: Seq::empty() }) == Shape::Array(
            Seq::empty(),
        ) || typed_shape(ts, ty, ValueView::Array { kind, elems: Seq::empty() }) == Shape::Bytes(
            Seq::empty(),
        ),
{
    let v = ValueView::Array { kind, elems: Seq::empty() };
    let elem_ty = *resolve(ts, ty)->Some_0->Array_0;
    lemma_conforms_array(ts, elem_ty, kind, Seq::empty());
    lemma_conforms_resolved(ts, ty, v);
    let s = typed_shape(ts, ty, v);
    if s is Bytes {
        assert(s->Bytes_0 =~= Seq::empty());
    } else {
        assert(s->Array_0 =~= Seq::empty());
    }
}

/// An array with elements is admitted by no array type whose declared
/// element type stands for a type of another kind than that of the elements,
/// or for no type.
pub proof fn law_array_kind_mismatch(
    ts: Seq<TypeView>,
    ty: TypeView,
    elem_ty: TypeView,
    kind: Kind,
    elems: Seq<ValueView>,
)
    requires
        resolve(ts, ty) == Some(TypeView::Array(Box::new(elem_ty))),
        elems.len() > 0,
        forall|i: int| 0 <= i < elems.len() ==> (#[trigger] elems[i]).kind() == kind,
        resolve(ts, elem_ty) is None || resolve(ts, elem_ty)->Some_0.kind() != Some(kind),
    ensures
        !conforms(ts, ty, ValueView::Array { kind, elems }),
{
    let v = ValueView::Array { kind, elems };
    lemma_conforms_array(ts, elem_ty, kind, elems);
    lemma_conforms_resolved(ts, ty, v);
    if conforms(ts, ty, v) {
        assert(conforms(ts, elem_ty, elems[0]));
        lemma_conforms_kind(ts, elem_ty, elems[0]);
    }
}

/// The typespace of one record type that refers to itself: a product of a
/// byte named `value` and of a sum named `next`, whose variant `some` is a
/// reference to the record type and whose variant `none` is the product
/// without elements.
pub open spec fn linked_records() -> Seq<TypeView> {
    seq![
        TypeView::Product(
            seq![
                (Some(seq!['v', 'a', 'l', 'u', 'e']), TypeView::Scalar(ScalarKind::U8)),
                (Some(seq!['n', 'e', 'x', 't']), link_type()),
            ],
        ),
    ]
}

/// The type of the link from one record to the next.
pub open spec fn link_type() -> TypeView {
    TypeView::Sum(
        seq![
            (Some(seq!['s', 'o', 'm', 'e']), TypeView::Ref(0)),
            (Some(seq!['n', 'o', 'n', 'e']), TypeView::Product(Seq::empty())),
        ],
    )
}

/// The chain of records that hold the given bytes, each linked to the next
/// and the last to none.
pub open spec fn chain_of(bytes: Seq<u8>) -> ValueView
    decreases bytes.len(),
{
    ValueView::Product(
        seq![
            ValueView::Scalar(Scalar::U8(bytes[0])),
            if bytes.len() <= 1 {
                ValueView::Sum { tag: 1, payload: Box::new(ValueView::Product(Seq::empty())) }
            } else {
                ValueView::Sum { tag: 0, payload: Box::new(chain_of(bytes.drop_first())) }
            },
        ],
    )
}

/// One frame of named elements around each byte, each frame but the last
/// with the next in its variant `some`.
pub open spec fn frames_of(bytes: Seq<u8>) -> Shape
    decreases bytes.len(),
{
    Shape::NamedProduct(
        seq![
            (Some(seq!['v', 'a', 'l', 'u', 'e']), Shape::Scalar(Scalar::U8(bytes[0]))),
            (
                Some(seq!['n', 'e', 'x', 't']),
                if bytes.len() <= 1 {
                    Shape::Variant {
                        tag: 1,
                        name: Some(seq!['n', 'o', 'n', 'e']),
                        payload: Box::new(Shape::NamedProduct(Seq::empty())),
                    }
                } else {
                    Shape::Variant {
                        tag: 0,
                        name: Some(seq!['s', 'o', 'm', 'e']),
                        payload: Box::new(frames_of(bytes.drop_first())),
                    }
                },
            ),
        ],
    )
}

/// A record type that refers to itself admits a chain of records of any
/// length, and the chain is emitted with it as one frame of named elements
/// for each record, one within the other: the walk is as deep as the value,
/// however the type turns back on itself.
pub proof fn law_linked_records(bytes: Seq<u8>)
    requires
        bytes.len() >= 1,
    ensures
        conforms(linked_records(), TypeView::Ref(0), chain_of(bytes)),
        typed_shape(linked_records(), TypeView::Ref(0), chain_of(bytes)) == frames_of(bytes),
    decreases bytes.len(),
{
    let ts = linked_records();
    let record = ts[0];
    let fields = record->Product_0;
    let variants = link_type()->Sum_0;
    let elems = chain_of(bytes)->Product_0;
    let link = elems[1];
    reveal_with_fuel(crate::typespace::resolve_within, 3);
    assert(resolve(ts, TypeView::Ref(0)) == Some(record));
    assert(resolve(ts, link_type()) == Some(link_type()));
    assert(resolve(ts, record) == Some(record));
    assert(resolve(ts, fields[0].1) == Some(fields[0].1));
    assert(resolve(ts, variants[1].1) == Some(variants[1].1));
    assert(conforms(ts, fields[0].1, elems[0]));
    assert(typed_shape(ts, fields[0].1, elems[0]) == Shape::Scalar(Scalar::U8(bytes[0])));
    if bytes.len() <= 1 {
        let unit = ValueView::Product(Seq::empty());
        lemma_conforms_product(ts, Seq::empty(), Seq::empty());
        assert(conforms(ts, variants[1].1, unit));
        assert(typed_shape(ts, variants[1].1, unit)->NamedProduct_0 =~= Seq::empty());
        assert(typed_shape(ts, variants[1].1, unit) == Shape::NamedProduct(Seq::empty()));
        assert(conforms(ts, link_type(), link));
        assert(typed_shape(ts, link_type(), link) == (Shape::Variant {
            tag: 1,
            name: Some(seq!['n', 'o', 'n', 'e']),
            payload: Box::new(Shape::NamedProduct(Seq::empty())),
        }));
    } else {
        law_linked_records(bytes.drop_first());
        assert(conforms(ts, link_type(), link));
        assert(typed_shape(ts, link_type(), link) == (Shape::Variant {
            tag: 0,
            name: Some(seq!['s', 'o', 'm', 'e']),
            payload: Box::new(frames_of(bytes.drop_first())),
        }));
    }
    assert forall|i: int| 0 <= i < elems.len() implies conforms(
        ts,
        fields[i].1,
        #[trigger] elems[i],
    ) by {
        if i == 0 {
        } else {
            assert(i == 1);
        }
    }
    law_named_product(ts, TypeView::Ref(0), fields, elems);
    let s = typed_shape(ts, TypeView::Ref(0), chain_of(bytes));
    assert(s->NamedProduct_0[0] == (fields[0].0, typed_shape(ts, fields[0].1, elems[0])));
    assert(s->NamedProduct_0[1] == (fields[1].0, typed_shape(ts, fields[1].1, elems[1])));
    assert(s->NamedProduct_0 =~= frames_of(bytes)->NamedProduct_0);
}

} // verus!
