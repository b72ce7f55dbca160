//! A serializer that keeps what it is handed.
//!
//! [`ShapeRecorder`] encodes nothing: its outcome is the shape of the
//! emission, as data that can be compared and inspected. Its builders count
//! what they take and refuse to take more, or to end with less, than they
//! were started for. A traversal of this crate never makes them refuse:
//! [`record`] cannot fail.
use crate::algebraic_type::owned_name_view;
use crate::scalar::{Scalar, F32, F64};
use crate::ser::{
    array_emits, emits, map_emits, name_view, named_product_emits, seq_product_emits, Serialize,
    SerializeArray, SerializeMap, SerializeNamedProduct, SerializeSeqProduct, Serializer,
};
use crate::shape::Shape;
use vstd::pervasive::{arbitrary, unreached};
use vstd::prelude::*;
use vstd::slice::slice_to_vec;

verus! {

/// The shape of an emission, as data.
#[derive(Debug, PartialEq, Eq)]
pub enum ShapeTree {
    Bool(bool),
    I8(i8),
    U8(u8),
    I16(i16),
    U16(u16),
    I32(i32),
    U32(u32),
    I64(i64),
    U64(u64),
    I128(i128),
    U128(u128),
    F32(F32),
    F64(F64),
    Str(String),
    Bytes(Vec<u8>),
    Array(Vec<ShapeTree>),
    Mapping(Vec<(ShapeTree, ShapeTree)>),
    SeqProduct(Vec<ShapeTree>),
    NamedProduct(Vec<(Option<String>, ShapeTree)>),
    Variant { tag: u8, name: Option<String>, payload: Box<ShapeTree> },
}

/// The shape that a tree holds.
pub open spec fn tree_view(t: ShapeTree) -> Shape
    decreases t,
{
    match t {
        ShapeTree::Bool(v) => Shape::Scalar(Scalar::Bool(v)),
        ShapeTree::I8(v) => Shape::Scalar(Scalar::I8(v)),
        ShapeTree::U8(v) => Shape::Scalar(Scalar::U8(v)),
        ShapeTree::I16(v) => Shape::Scalar(Scalar::I16(v)),
        ShapeTree::U16(v) => Shape::Scalar(Scalar::U16(v)),
        ShapeTree::I32(v) => Shape::Scalar(Scalar::I32(v)),
        ShapeTree::U32(v) => Shape::Scalar(Scalar::U32(v)),
        ShapeTree::I64(v) => Shape::Scalar(Scalar::I64(v)),
        ShapeTree::U64(v) => Shape::Scalar(Scalar::U64(v)),
        ShapeTree::I128(v) => Shape::Scalar(Scalar::I128(v)),
        ShapeTree::U128(v) => Shape::Scalar(Scalar::U128(v)),
        ShapeTree::F32(v) => Shape::Scalar(Scalar::F32(v)),
        ShapeTree::F64(v) => Shape::Scalar(Scalar::F64(v)),
        ShapeTree::Str(v) => Shape::Scalar(Scalar::String(v@)),
        ShapeTree::Bytes(v) => Shape::Bytes(v@),
        ShapeTree::Array(v) => Shape::Array(trees_view(v@)),
        ShapeTree::Mapping(v) => Shape::Mapping(
            Seq::new(
                v@.len(),
                |i: int|
                    if 0 <= i < v@.len() {
                        (tree_view(v@[i].0), tree_view(v@[i].1))
                    } else {
                        arbitrary()
                    },
            ),
        ),
        ShapeTree::SeqProduct(v) => Shape::SeqProduct(trees_view(v@)),
        ShapeTree::NamedProduct(v) => Shape::NamedProduct(
            Seq::new(
                v@.len(),
                |i: int|
                    if 0 <= i < v@.len() {
                        (owned_name_view(v@[i].0), tree_view(v@[i].1))
                    } else {
                        arbitrary()
                    },
            ),
        ),
        ShapeTree::Variant { tag, name, payload } => Shape::Variant {
            tag,
            name: owned_name_view(name),
            payload: Box::new(tree_view(*payload)),
        },
    }
}

/// The shapes that a sequence of trees holds.
pub open spec fn trees_view(ts: Seq<ShapeTree>) -> Seq<Shape>
    decreases ts,
{
    Seq::new(
        ts.len(),
        |i: int|
            if 0 <= i < ts.len() {
                tree_view(ts[i])
            } else {
                arbitrary()
            },
    )
}

impl View for ShapeTree {
    type V = Shape;

    open spec fn view(&self) -> Shape {
        tree_view(*self)
    }
}

/// Why a builder of the recorder refused.
#[derive(Clone, Copy, Debug, PartialEq, Eq)]
pub enum RecordError {
    /// It was handed more than it was started for.
    TooManyItems,
    /// It was ended before it had what it was started for.
    MissingItems,
}

/// The serializer that keeps what it is handed.
#[derive(Clone, Copy, Debug)]
pub struct ShapeRecorder;

/// The builder of an array: the length it was started with and the elements it
/// has taken.
pub struct ArrayRecorder {
    len: usize,
    items: Vec<ShapeTree>,
}

impl ArrayRecorder {
    /// The length that the builder was started with.
    pub closed spec fn declared(self) -> nat {
        self.len as nat
    }

    /// What the builder has taken so far.
    pub closed spec fn taken(self) -> Seq<Shape> {
        trees_view(self.items@)
    }
}

impl SerializeArray for ArrayRecorder {
    type Ok = ShapeTree;

    type Error = RecordError;

    fn serialize_element(self, elem: ShapeTree) -> (r: Result<Self, RecordError>)
        ensures
            self.taken().len() < self.declared() ==> r is Ok && r->Ok_0.declared()
                == self.declared() && r->Ok_0.taken() == self.taken().push(elem@),
            self.taken().len() >= self.declared() ==> r == Err::<Self, RecordError>(
                RecordError::TooManyItems,
            ),
    {
        let mut items = self.items;
        if items.len() >= self.len {
            return Err(RecordError::TooManyItems);
        }
        let ghost before = items@;
        items.push(elem);
        assert(trees_view(items@) =~= trees_view(before).push(elem@));
        Ok(ArrayRecorder { len: self.len, items })
    }

    fn end(self) -> (r: Result<ShapeTree, RecordError>)
        ensures
            self.taken().len() == self.declared() ==> r is Ok && r->Ok_0@ == Shape::Array(
                self.taken(),
            ),
            self.taken().len() != self.declared() ==> r == Err::<ShapeTree, RecordError>(
                RecordError::MissingItems,
            ),
    {
        if self.items.len() != self.len {
            return Err(RecordError::MissingItems);
        }
        Ok(ShapeTree::Array(self.items))
    }
}

/// The builder of a product without names: the length it was started with and the elements it
/// has taken.
pub struct SeqProductRecorder {
    len: usize,
    items: Vec<ShapeTree>,
}

impl SeqProductRecorder {
    /// The length that the builder was started with.
    pub closed spec fn declared(self) -> nat {
        self.len as nat
    }

    /// What the builder has taken so far.
    pub closed spec fn taken(self) -> Seq<Shape> {
        trees_view(self.items@)
    }
}

impl SerializeSeqProduct for SeqProductRecorder {
    type Ok = ShapeTree;

    type Error = RecordError;

    fn serialize_element(self, elem: ShapeTree) -> (r: Result<Self, RecordError>)
        ensures
            self.taken().len() < self.declared() ==> r is Ok && r->Ok_0.declared()
                == self.declared() && r->Ok_0.taken() == self.taken().push(elem@),
            self.taken().len() >= self.declared() ==> r == Err::<Self, RecordError>(
                RecordError::TooManyItems,
            ),
    {
        let mut items = self.items;
        if items.len() >= self.len {
            return Err(RecordError::TooManyItems);
        }
        let ghost before = items@;
        items.push(elem);
        assert(trees_view(items@) =~= trees_view(before).push(elem@));
        Ok(SeqProductRecorder { len: self.len, items })
    }

    fn end(self) -> (r: Result<ShapeTree, RecordError>)
        ensures
            self.taken().len() == self.declared() ==> r is Ok && r->Ok_0@ == Shape::SeqProduct(
                self.taken(),
            ),
            self.taken().len() != self.declared() ==> r == Err::<ShapeTree, RecordError>(
                RecordError::MissingItems,
            ),
    {
        if self.items.len() != self.len {
            return Err(RecordError::MissingItems);
        }
        Ok(ShapeTree::SeqProduct(self.items))
    }
}

/// The builder of a map: the length it was started with and the entries it
/// has taken.
pub struct MapRecorder {
    len: usize,
    entries: Vec<(ShapeTree, ShapeTree)>,
}

impl MapRecorder {
    /// The length that the builder was started with.
    pub closed spec fn declared(self) -> nat {
        self.len as nat
    }

    /// What the builder has taken so far.
    pub closed spec fn taken(self) -> Seq<(Shape, Shape)> {
        Seq::new(
            self.entries@.len(),
            |i: int| (tree_view(self.entries@[i].0), tree_view(self.entries@[i].1)),
        )
    }
}

impl SerializeMap for MapRecorder {
    type Ok = ShapeTree;

    type Error = RecordError;

    fn serialize_entry(self, key: ShapeTree, value: ShapeTree) -> (r: Result<Self, RecordError>)
        ensures
            self.taken().len() < self.declared() ==> r is Ok && r->Ok_0.declared()
                == self.declared() && r->Ok_0.taken() == self.taken().push((key@, value@)),
            self.taken().len() >= self.declared() ==> r == Err::<Self, RecordError>(
                RecordError::TooManyItems,
            ),
    {
        let mut entries = self.entries;
        if entries.len() >= self.len {
            return Err(RecordError::TooManyItems);
        }
        let ghost before = MapRecorder { len: self.len, entries }.taken();
        let ghost pair = (key@, value@);
        entries.push((key, value));
        let b = MapRecorder { len: self.len, entries };
        assert(b.taken() =~= before.push(pair));
        Ok(b)
    }

    fn end(self) -> (r: Result<ShapeTree, RecordError>)
        ensures
            self.taken().len() == self.declared() ==> r is Ok && r->Ok_0@ == Shape::Mapping(
                self.taken(),
            ),
            self.taken().len() != self.declared() ==> r == Err::<ShapeTree, RecordError>(
                RecordError::MissingItems,
            ),
    {
        if self.entries.len() != self.len {
            return Err(RecordError::MissingItems);
        }
        let ghost taken = self.taken();
        let t = ShapeTree::Mapping(self.entries);
        assert(t@->Mapping_0 =~= taken);
        Ok(t)
    }
}

/// The builder of a product with names: the length it was started with and
/// the elements it has taken, each with its name.
pub struct NamedProductRecorder {
    len: usize,
    fields: Vec<(Option<String>, ShapeTree)>,
}

impl NamedProductRecorder {
    /// The length that the builder was started with.
    pub closed spec fn declared(self) -> nat {
        self.len as nat
    }

    /// What the builder has taken so far.
    pub closed spec fn taken(self) -> Seq<(Option<Seq<char>>, Shape)> {
        Seq::new(
            self.fields@.len(),
            |i: int| (owned_name_view(self.fields@[i].0), tree_view(self.fields@[i].1)),
        )
    }
}

/// An owned copy of a name, where there is one.
fn own_name(name: Option<&str>) -> (owned: Option<String>)
    ensures
        owned_name_view(owned) == name_view(name),
{
    match name {
        Some(s) => Some(s.to_owned()),
        None => None,
    }
}

impl SerializeNamedProduct for NamedProductRecorder {
    type Ok = ShapeTree;

    type Error = RecordError;

    fn serialize_element(self, name: Option<&str>, elem: ShapeTree) -> (r: Result<
        Self,
        RecordError,
    >)
        ensures
            self.taken().len() < self.declared() ==> r is Ok && r->Ok_0.declared()
                == self.declared() && r->Ok_0.taken() == self.taken().push((name_view(name), elem@)),
            self.taken().len() >= self.declared() ==> r == Err::<Self, RecordError>(
                RecordError::TooManyItems,
            ),
    {
        let mut fields = self.fields;
        if fields.len() >= self.len {
            return Err(RecordError::TooManyItems);
        }
        let ghost before = NamedProductRecorder { len: self.len, fields }.taken();
        let ghost pair = (name_view(name), elem@);
        fields.push((own_name(name), elem));
        let b = NamedProductRecorder { len: self.len, fields };
        assert(b.taken() =~= before.push(pair));
        Ok(b)
    }

    fn end(self) -> (r: Result<ShapeTree, RecordError>)
        ensures
            self.taken().len() == self.declared() ==> r is Ok && r->Ok_0@ == Shape::NamedProduct(
                self.taken(),
            ),
            self.taken().len() != self.declared() ==> r == Err::<ShapeTree, RecordError>(
                RecordError::MissingItems,
            ),
    {
        if self.fields.len() != self.len {
            return Err(RecordError::MissingItems);
        }
        let ghost taken = self.taken();
        let t = ShapeTree::NamedProduct(self.fields);
        assert(t@->NamedProduct_0 =~= taken);
        Ok(t)
    }
}

impl Serializer for ShapeRecorder {
    type Ok = ShapeTree;

    type Error = RecordError;

    type SerializeArray = ArrayRecorder;

    type SerializeMap = MapRecorder;

    type SerializeSeqProduct = SeqProductRecorder;

    type SerializeNamedProduct = NamedProductRecorder;

    fn serialize_bool(&self, v: bool) -> (r: Result<ShapeTree, RecordError>)
        ensures
            r matches Ok(t) && t@ == Shape::Scalar(Scalar::Bool(v)),
    {
        Ok(ShapeTree::Bool(v))
    }

    fn serialize_i8(&self, v: i8) -> (r: Result<ShapeTree, RecordError>)
        ensures
            r matches Ok(t) && t@ == Shape::Scalar(Scalar::I8(v)),
    {
        Ok(ShapeTree::I8(v))
    }

    fn serialize_u8(&self, v: u8) -> (r: Result<ShapeTree, RecordError>)
        ensures
            r matches Ok(t) && t@ == Shape::Scalar(Scalar::U8(v)),
    {
        Ok(ShapeTree::U8(v))
    }

    fn serialize_i16(&self, v: i16) -> (r: Result<ShapeTree, RecordError>)
        ensures
            r matches Ok(t) && t@ == Shape::Scalar(Scalar::I16(v)),
    {
        Ok(ShapeTree::I16(v))
    }

    fn serialize_u16(&self, v: u16) -> (r: Result<ShapeTree, RecordError>)
        ensures
            r matches Ok(t) && t@ == Shape::Scalar(Scalar::U16(v)),
    {
        Ok(ShapeTree::U16(v))
    }

    fn serialize_i32(&self, v: i32) -> (r: Result<ShapeTree, RecordError>)
        ensures
            r matches Ok(t) && t@ == Shape::Scalar(Scalar::I32(v)),
    {
        Ok(ShapeTree::I32(v))
    }

    fn serialize_u32(&self, v: u32) -> (r: Result<ShapeTree, RecordError>)
        ensures
            r matches Ok(t) && t@ == Shape::Scalar(Scalar::U32(v)),
    {
        Ok(ShapeTree::U32(v))
    }

    fn serialize_i64(&self, v: i64) -> (r: Result<ShapeTree, RecordError>)
        ensures
            r matches Ok(t) && t@ == Shape::Scalar(Scalar::I64(v)),
    {
        Ok(ShapeTree::I64(v))
    }

    fn serialize_u64(&self, v: u64) -> (r: Result<ShapeTree, RecordError>)
        ensures
            r matches Ok(t) && t@ == Shape::Scalar(Scalar::U64(v)),
    {
        Ok(ShapeTree::U64(v))
    }

    fn serialize_i128(&self, v: i128) -> (r: Result<ShapeTree, RecordError>)
        ensures
            r matches Ok(t) && t@ == Shape::Scalar(Scalar::I128(v)),
    {
        Ok(ShapeTree::I128(v))
    }

    fn serialize_u128(&self, v: u128) -> (r: Result<ShapeTree, RecordError>)
        ensures
            r matches Ok(t) && t@ == Shape::Scalar(Scalar::U128(v)),
    {
        Ok(ShapeTree::U128(v))
    }

    fn serialize_f32(&self, v: F32) -> (r: Result<ShapeTree, RecordError>)
        ensures
            r matches Ok(t) && t@ == Shape::Scalar(Scalar::F32(v)),
    {
        Ok(ShapeTree::F32(v))
    }

    fn serialize_f64(&self, v: F64) -> (r: Result<ShapeTree, RecordError>)
        ensures
            r matches Ok(t) && t@ == Shape::Scalar(Scalar::F64(v)),
    {
        Ok(ShapeTree::F64(v))
    }

    fn serialize_str(&self, v: &str) -> (r: Result<ShapeTree, RecordError>)
        ensures
            r matches Ok(t) && t@ == Shape::Scalar(Scalar::String(v@)),
    {
        Ok(ShapeTree::Str(v.to_owned()))
    }

    fn serialize_bytes(&self, v: &[u8]) -> (r: Result<ShapeTree, RecordError>)
        ensures
            r matches Ok(t) && t@ == Shape::Bytes(v@),
    {
        Ok(ShapeTree::Bytes(slice_to_vec(v)))
    }

    fn serialize_array(&self, len: usize) -> (r: Result<ArrayRecorder, RecordError>)
        ensures
            r matches Ok(b) && b.declared() == len && b.taken() == Seq::<Shape>::empty(),
    {
        let b = ArrayRecorder { len, items: Vec::new() };
        assert(b.taken() =~= Seq::<Shape>::empty());
        Ok(b)
    }

    fn serialize_map(&self, len: usize) -> (r: Result<MapRecorder, RecordError>)
        ensures
            r matches Ok(b) && b.declared() == len && b.taken() == Seq::<(Shape, Shape)>::empty(),
    {
        let b = MapRecorder { len, entries: Vec::new() };
        assert(b.taken() =~= Seq::<(Shape, Shape)>::empty());
        Ok(b)
    }

    fn serialize_seq_product(&self, len: usize) -> (r: Result<SeqProductRecorder, RecordError>)
        ensures
            r matches Ok(b) && b.declared() == len && b.taken() == Seq::<Shape>::empty(),
    {
        let b = SeqProductRecorder { len, items: Vec::new() };
        assert(b.taken() =~= Seq::<Shape>::empty());
        Ok(b)
    }

    fn serialize_named_product(&self, len: usize) -> (r: Result<NamedProductRecorder, RecordError>)
        ensures
            r matches Ok(b) && b.declared() == len && b.taken() == Seq::<
                (Option<Seq<char>>, Shape),
            >::empty(),
    {
        let b = NamedProductRecorder { len, fields: Vec::new() };
        assert(b.taken() =~= Seq::<(Option<Seq<char>>, Shape)>::empty());
        Ok(b)
    }

    fn serialize_variant(&self, tag: u8, name: Option<&str>, value: ShapeTree) -> (r: Result<
        ShapeTree,
        RecordError,
    >)
        ensures
            r matches Ok(t) && t@ == (Shape::Variant {
                tag,
                name: name_view(name),
                payload: Box::new(value@),
            }),
    {
        Ok(ShapeTree::Variant { tag, name: own_name(name), payload: Box::new(value) })
    }
}

/// Whatever is emitted to the recorder comes back from it, and comes back as
/// it was emitted: the recorder never fails on an emission, and the tree that
/// it answers holds the shape that was emitted.
pub proof fn lemma_records(rec: &ShapeRecorder, shape: Shape, r: Result<ShapeTree, RecordError>)
    requires
        emits(rec, shape, r),
    ensures
        r is Ok,
        r->Ok_0@ == shape,
    decreases shape,
{
    match shape {
        Shape::Scalar(s) => {},
        Shape::Bytes(bytes) => {},
        Shape::Array(elems) => {
            let (n, start) = choose|n: usize, start: Result<ArrayRecorder, RecordError>| #[trigger]
                call_ensures(ShapeRecorder::serialize_array, (rec, n), start) && n == elems.len()
                    && match start {
                    Err(e) => r == Err::<ShapeTree, RecordError>(e),
                    Ok(b) => array_emits(rec, elems, b, 0, r),
                };
            assert(start->Ok_0.taken() =~= elems.subrange(0, 0));
            lemma_records_array(rec, elems, start->Ok_0, 0, r);
        },
        Shape::Mapping(entries) => {
            let (n, start) = choose|n: usize, start: Result<MapRecorder, RecordError>| #[trigger]
                call_ensures(ShapeRecorder::serialize_map, (rec, n), start) && n == entries.len()
                    && match start {
                    Err(e) => r == Err::<ShapeTree, RecordError>(e),
                    Ok(b) => map_emits(rec, entries, b, 0, r),
                };
            assert(start->Ok_0.taken() =~= entries.subrange(0, 0));
            lemma_records_map(rec, entries, start->Ok_0, 0, r);
        },
        Shape::SeqProduct(elems) => {
            let (n, start) = choose|
                n: usize,
                start: Result<SeqProductRecorder, RecordError>,
            | #[trigger]
                call_ensures(ShapeRecorder::serialize_seq_product, (rec, n), start) && n
                    == elems.len() && match start {
                    Err(e) => r == Err::<ShapeTree, RecordError>(e),
                    Ok(b) => seq_product_emits(rec, elems, b, 0, r),
                };
            assert(start->Ok_0.taken() =~= elems.subrange(0, 0));
            lemma_records_seq_product(rec, elems, start->Ok_0, 0, r);
        },
        Shape::NamedProduct(fields) => {
            let (n, start) = choose|
                n: usize,
                start: Result<NamedProductRecorder, RecordError>,
            | #[trigger]
                call_ensures(ShapeRecorder::serialize_named_product, (rec, n), start) && n
                    == fields.len() && match start {
                    Err(e) => r == Err::<ShapeTree, RecordError>(e),
                    Ok(b) => named_product_emits(rec, fields, b, 0, r),
                };
            assert(start->Ok_0.taken() =~= fields.subrange(0, 0));
            lemma_records_named_product(rec, fields, start->Ok_0, 0, r);
        },
        Shape::Variant { tag, name, payload } => {
            if r is Err && emits(rec, *payload, Err(r->Err_0)) {
                lemma_records(rec, *payload, Err(r->Err_0));
            } else {
                let (n, p) = choose|n: Option<&str>, p: ShapeTree| #[trigger]
                    call_ensures(ShapeRecorder::serialize_variant, (rec, tag, n, p), r)
                        && name_view(n) == name && emits(rec, *payload, Ok(p));
                lemma_records(rec, *payload, Ok(p));
            }
        },
    }
}

/// Feeding the rest of an array to a builder of the recorder that holds its
/// beginning gives an array back.
proof fn lemma_records_array(
    rec: &ShapeRecorder,
    elems: Seq<Shape>,
    b: ArrayRecorder,
    i: int,
    r: Result<ShapeTree, RecordError>,
)
    requires
        array_emits(rec, elems, b, i, r),
        0 <= i <= elems.len(),
        b.declared() == elems.len(),
        b.taken() == elems.subrange(0, i),
    ensures
        r is Ok,
        r->Ok_0@ == Shape::Array(elems),
    decreases elems, elems.len() - i,
{
    if i < elems.len() {
        if r is Err && emits(rec, elems[i], Err(r->Err_0)) {
            lemma_records(rec, elems[i], Err(r->Err_0));
        } else {
            let (x, step) = choose|x: ShapeTree, step: Result<ArrayRecorder, RecordError>|
                #[trigger] call_ensures(
                    <ArrayRecorder as SerializeArray>::serialize_element,
                    (b, x),
                    step,
                ) && emits(rec, elems[i], Ok(x)) && match step {
                    Err(e) => r == Err::<ShapeTree, RecordError>(e),
                    Ok(next) => array_emits(rec, elems, next, i + 1, r),
                };
            lemma_records(rec, elems[i], Ok(x));
            assert(step->Ok_0.taken() =~= elems.subrange(0, i + 1));
            lemma_records_array(rec, elems, step->Ok_0, i + 1, r);
        }
    } else {
        assert(b.taken() =~= elems);
    }
}

/// Feeding the rest of a product to a builder of the recorder that holds its
/// beginning gives a product back.
proof fn lemma_records_seq_product(
    rec: &ShapeRecorder,
    elems: Seq<Shape>,
    b: SeqProductRecorder,
    i: int,
    r: Result<ShapeTree, RecordError>,
)
    requires
        seq_product_emits(rec, elems, b, i, r),
        0 <= i <= elems.len(),
        b.declared() == elems.len(),
        b.taken() == elems.subrange(0, i),
    ensures
        r is Ok,
        r->Ok_0@ == Shape::SeqProduct(elems),
    decreases elems, elems.len() - i,
{
    if i < elems.len() {
        if r is Err && emits(rec, elems[i], Err(r->Err_0)) {
            lemma_records(rec, elems[i], Err(r->Err_0));
        } else {
            let (x, step) = choose|x: ShapeTree, step: Result<SeqProductRecorder, RecordError>|
                #[trigger] call_ensures(
                    <SeqProductRecorder as SerializeSeqProduct>::serialize_element,
                    (b, x),
                    step,
                ) && emits(rec, elems[i], Ok(x)) && match step {
                    Err(e) => r == Err::<ShapeTree, RecordError>(e),
                    Ok(next) => seq_product_emits(rec, elems, next, i + 1, r),
                };
            lemma_records(rec, elems[i], Ok(x));
            assert(step->Ok_0.taken() =~= elems.subrange(0, i + 1));
            lemma_records_seq_product(rec, elems, step->Ok_0, i + 1, r);
        }
    } else {
        assert(b.taken() =~= elems);
    }
}

/// Feeding the rest of a map to a builder of the recorder that holds its
/// beginning gives the map back.
proof fn lemma_records_map(
    rec: &ShapeRecorder,
    entries: Seq<(Shape, Shape)>,
    b: MapRecorder,
    i: int,
    r: Result<ShapeTree, RecordError>,
)
    requires
        map_emits(rec, entries, b, i, r),
        0 <= i <= entries.len(),
        b.declared() == entries.len(),
        b.taken() == entries.subrange(0, i),
    ensures
        r is Ok,
        r->Ok_0@ == Shape::Mapping(entries),
    decreases entries, entries.len() - i,
{
    if i < entries.len() {
        if r is Err && emits(rec, entries[i].0, Err(r->Err_0)) {
            lemma_records(rec, entries[i].0, Err(r->Err_0));
        } else if r is Err && emits(rec, entries[i].1, Err(r->Err_0)) {
            lemma_records(rec, entries[i].1, Err(r->Err_0));
        } else {
            let (k, v, step) = choose|
                k: ShapeTree,
                v: ShapeTree,
                step: Result<MapRecorder, RecordError>,
            | #[trigger]
                call_ensures(<MapRecorder as SerializeMap>::serialize_entry, (b, k, v), step)
                    && emits(rec, entries[i].0, Ok(k)) && emits(rec, entries[i].1, Ok(v))
                    && match step {
                    Err(e) => r == Err::<ShapeTree, RecordError>(e),
                    Ok(next) => map_emits(rec, entries, next, i + 1, r),
                };
            lemma_records(rec, entries[i].0, Ok(k));
            lemma_records(rec, entries[i].1, Ok(v));
            assert(step->Ok_0.taken() =~= entries.subrange(0, i + 1));
            lemma_records_map(rec, entries, step->Ok_0, i + 1, r);
        }
    } else {
        assert(b.taken() =~= entries);
    }
}

/// Feeding the rest of a product with names to a builder of the recorder that
/// holds its beginning gives the product back.
proof fn lemma_records_named_product(
    rec: &ShapeRecorder,
    fields: Seq<(Option<Seq<char>>, Shape)>,
    b: NamedProductRecorder,
    i: int,
    r: Result<ShapeTree, RecordError>,
)
    requires
        named_product_emits(rec, fields, b, i, r),
        0 <= i <= fields.len(),
        b.declared() == fields.len(),
        b.taken() == fields.subrange(0, i),
    ensures
        r is Ok,
        r->Ok_0@ == Shape::NamedProduct(fields),
    decreases fields, fields.len() - i,
{
    if i < fields.len() {
        if r is Err && emits(rec, fields[i].1, Err(r->Err_0)) {
            lemma_records(rec, fields[i].1, Err(r->Err_0));
        } else {
            let (n, x, step) = choose|
                n: Option<&str>,
                x: ShapeTree,
                step: Result<NamedProductRecorder, RecordError>,
            | #[trigger]
                call_ensures(
                    <NamedProductRecorder as SerializeNamedProduct>::serialize_element,
                    (b, n, x),
                    step,
                ) && name_view(n) == fields[i].0 && emits(rec, fields[i].1, Ok(x)) && match step {
                    Err(e) => r == Err::<ShapeTree, RecordError>(e),
                    Ok(next) => named_product_emits(rec, fields, next, i + 1, r),
                };
            lemma_records(rec, fields[i].1, Ok(x));
            assert(step->Ok_0.taken() =~= fields.subrange(0, i + 1));
            lemma_records_named_product(rec, fields, step->Ok_0, i + 1, r);
        }
    } else {
        assert(b.taken() =~= fields);
    }
}

/// The shape of a value, as data: what emitting it hands to a serializer.
pub fn record<T: Serialize + ?Sized>(value: &T) -> (t: ShapeTree)
    ensures
        t@ == value.shape(),
{
    let rec = ShapeRecorder;
    let r = value.serialize(&rec);
    proof {
        lemma_records(&rec, value.shape(), r);
    }
    match r {
        Ok(t) => t,
        Err(_) => unreached(),
    }
}

} // verus!
