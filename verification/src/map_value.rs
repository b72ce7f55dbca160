//! Maps from values to values, kept in ascending order of their keys.
use crate::algebraic_value::{value_view, AlgebraicValue, ValueView};
use crate::order::{
    keys_ascend, lemma_value_order_equal, lemma_value_order_flip, lemma_value_order_transitive,
    value_order, Order,
};
use vstd::pervasive::arbitrary;
use vstd::prelude::*;

verus! {

/// A map from values to values. Its entries are held in strictly ascending
/// order of their keys, so no key occurs twice and the order in which entries
/// went in leaves no trace.
#[derive(Debug, PartialEq, Eq)]
pub struct MapValue {
    entries: Vec<(AlgebraicValue, AlgebraicValue)>,
}

impl MapValue {
    /// The entries of the map in ascending order of their keys.
    pub closed spec fn entries_view(self) -> Seq<(ValueView, ValueView)>
        decreases self,
    {
        Seq::new(
            self.entries@.len(),
            |i: int|
                if 0 <= i < self.entries@.len() {
                    (value_view(self.entries@[i].0), value_view(self.entries@[i].1))
                } else {
                    arbitrary()
                },
        )
    }

    #[verifier::type_invariant]
    spec fn ascending(self) -> bool {
        keys_ascend(self.entries_view())
    }

    /// The map without entries.
    pub fn new() -> (m: MapValue)
        ensures
            m@ == ValueView::Mapping(Seq::empty()),
    {
        let m = MapValue { entries: Vec::new() };
        assert(m.entries_view() =~= Seq::empty());
        m
    }

    /// The number of entries. Their keys ascend strictly.
    pub fn len(&self) -> (n: usize)
        ensures
            n == self.entries_view().len(),
            keys_ascend(self.entries_view()),
    {
        proof {
            use_type_invariant(self);
        }
        self.entries.len()
    }

    /// Whether the map has no entries.
    pub fn is_empty(&self) -> (b: bool)
        ensures
            b == (self.entries_view().len() == 0),
    {
        self.entries.len() == 0
    }

    /// The key of the `i`-th entry in ascending order.
    pub fn key(&self, i: usize) -> (k: &AlgebraicValue)
        requires
            i < self.entries_view().len(),
        ensures
            k@ == self.entries_view()[i as int].0,
            decreases_to!(self => k),
    {
        &self.entries[i].0
    }

    /// The value of the `i`-th entry in ascending order of the keys.
    pub fn value(&self, i: usize) -> (v: &AlgebraicValue)
        requires
            i < self.entries_view().len(),
        ensures
            v@ == self.entries_view()[i as int].1,
            decreases_to!(self => v),
    {
        &self.entries[i].1
    }

}

impl View for MapValue {
    type V = ValueView;

    open spec fn view(&self) -> ValueView {
        ValueView::Mapping(self.entries_view())
    }
}

/// The sequence of entries has an entry with the key `k`.
pub open spec fn has_key(entries: Seq<(ValueView, ValueView)>, k: ValueView) -> bool {
    exists|i: int| 0 <= i < entries.len() && #[trigger] entries[i].0 == k
}

/// The place of an entry with the key `k`, where there is one.
pub open spec fn key_index(entries: Seq<(ValueView, ValueView)>, k: ValueView) -> int {
    choose|i: int| 0 <= i < entries.len() && #[trigger] entries[i].0 == k
}

/// The map that a sequence of entries lists: it has the keys of the entries,
/// each with the value of an entry that holds it.
pub open spec fn entries_map(entries: Seq<(ValueView, ValueView)>) -> Map<ValueView, ValueView> {
    Map::new(
        |k: ValueView| has_key(entries, k),
        |k: ValueView| entries[key_index(entries, k)].1,
    )
}

/// Entries whose keys ascend hold different keys at different places.
pub proof fn lemma_keys_differ(entries: Seq<(ValueView, ValueView)>, i: int, j: int)
    requires
        keys_ascend(entries),
        0 <= i < entries.len(),
        0 <= j < entries.len(),
        entries[i].0 == entries[j].0,
    ensures
        i == j,
{
    lemma_value_order_equal(entries[i].0, entries[j].0);
    lemma_value_order_equal(entries[j].0, entries[i].0);
    if i < j {
        assert(value_order(entries[i].0, entries[j].0) == Order::Less);
    } else if j < i {
        assert(value_order(entries[j].0, entries[i].0) == Order::Less);
    }
}

/// The map that ascending entries list holds each entry.
pub proof fn lemma_entry_in_map(entries: Seq<(ValueView, ValueView)>, i: int)
    requires
        keys_ascend(entries),
        0 <= i < entries.len(),
    ensures
        has_key(entries, entries[i].0),
        key_index(entries, entries[i].0) == i,
        entries_map(entries).contains_key(entries[i].0),
        entries_map(entries)[entries[i].0] == entries[i].1,
{
    let k = entries[i].0;
    assert(has_key(entries, k));
    lemma_keys_differ(entries, i, key_index(entries, k));
}

/// Two ascending sequences of entries that list the same map are the same
/// sequence from the first entry to the last: a map has one ascending
/// listing.
pub proof fn lemma_one_listing(a: Seq<(ValueView, ValueView)>, b: Seq<(ValueView, ValueView)>)
    requires
        keys_ascend(a),
        keys_ascend(b),
        entries_map(a) == entries_map(b),
    ensures
        a == b,
{
    lemma_same_prefix(a, b, a.len() as int);
    lemma_same_prefix(b, a, b.len() as int);
    assert(a =~= b);
}

/// Two ascending sequences of entries that list the same map agree on the
/// first `n` entries of the first, and the second has as many.
proof fn lemma_same_prefix(
    a: Seq<(ValueView, ValueView)>,
    b: Seq<(ValueView, ValueView)>,
    n: int,
)
    requires
        keys_ascend(a),
        keys_ascend(b),
        entries_map(a) == entries_map(b),
        0 <= n <= a.len(),
    ensures
        n <= b.len(),
        forall|j: int| 0 <= j < n ==> a[j] == b[j],
    decreases n,
{
    if n > 0 {
        lemma_same_prefix(a, b, n - 1);
        let i = n - 1;
        let ka = a[i].0;
        lemma_entry_in_map(a, i);
        assert(entries_map(b).contains_key(ka));
        assert(has_key(b, ka));
        let j = key_index(b, ka);
        assert(0 <= j < b.len() && b[j].0 == ka);
        if j < i {
            assert(a[j] == b[j]);
            lemma_keys_differ(a, i, j);
        }
        assert(i <= j);
        let kb = b[i].0;
        lemma_entry_in_map(b, i);
        assert(entries_map(a).contains_key(kb));
        assert(has_key(a, kb));
        let h = key_index(a, kb);
        assert(0 <= h < a.len() && a[h].0 == kb);
        if h < i {
            assert(a[h] == b[h]);
            lemma_keys_differ(b, i, h);
        }
        assert(i <= h);
        if j > i {
            assert(value_order(b[i].0, b[j].0) == Order::Less);
            lemma_value_order_equal(kb, ka);
            if h > i {
                assert(value_order(a[i].0, a[h].0) == Order::Less);
                lemma_value_order_flip(ka, kb);
            }
        }
        assert(j == i);
        assert(entries_map(a)[ka] == a[i].1);
        assert(entries_map(b)[ka] == b[i].1);
        assert(a[i].0 == b[i].0);
        assert(a[i].1 == b[i].1);
    }
}

/// Putting an entry between the entries with smaller keys and those with
/// greater keys keeps the keys ascending. The key was not there before.
pub proof fn lemma_insert_ascends(
    entries: Seq<(ValueView, ValueView)>,
    i: int,
    k: ValueView,
    v: ValueView,
)
    requires
        keys_ascend(entries),
        0 <= i <= entries.len(),
        forall|j: int| 0 <= j < i ==> value_order(#[trigger] entries[j].0, k) == Order::Less,
        i < entries.len() ==> value_order(entries[i].0, k) == Order::Greater,
    ensures
        keys_ascend(entries.insert(i, (k, v))),
        !has_key(entries, k),
{
    let after = entries.insert(i, (k, v));
    assert forall|j: int| i <= j < entries.len() implies value_order(k, #[trigger] entries[j].0)
        == Order::Less by {
        lemma_value_order_flip(entries[i].0, k);
        if j > i {
            assert(value_order(entries[i].0, entries[j].0) == Order::Less);
            lemma_value_order_transitive(k, entries[i].0, entries[j].0);
        }
    }
    assert forall|x: int, y: int| 0 <= x < y < after.len() implies value_order(
        #[trigger] after[x].0,
        #[trigger] after[y].0,
    ) == Order::Less by {
        if x < i {
            assert(after[x] == entries[x]);
        } else if x > i {
            assert(after[x] == entries[x - 1]);
        }
        if y < i {
            assert(after[y] == entries[y]);
        } else if y > i {
            assert(after[y] == entries[y - 1]);
        }
    }
    if has_key(entries, k) {
        let c = key_index(entries, k);
        lemma_value_order_equal(entries[c].0, k);
        lemma_value_order_equal(k, entries[c].0);
        if c >= i {
            assert(value_order(k, entries[c].0) == Order::Less);
        }
    }
}

/// What the map of a sequence with one entry more says of a key is what the
/// map of the sequence with that entry put in says of it.
proof fn lemma_insert_key(
    entries: Seq<(ValueView, ValueView)>,
    i: int,
    k: ValueView,
    v: ValueView,
    key: ValueView,
)
    requires
        keys_ascend(entries),
        keys_ascend(entries.insert(i, (k, v))),
        0 <= i <= entries.len(),
    ensures
        has_key(entries.insert(i, (k, v)), key) <==> key == k || has_key(entries, key),
        has_key(entries.insert(i, (k, v)), key) ==> entries_map(entries.insert(i, (k, v)))[key]
            == (if key == k {
            v
        } else {
            entries_map(entries)[key]
        }),
{
    let after = entries.insert(i, (k, v));
    if has_key(after, key) {
        let c = key_index(after, key);
        lemma_entry_in_map(after, c);
        if c < i {
            assert(after[c] == entries[c]);
            lemma_entry_in_map(entries, c);
            if key == k {
                assert(after[i].0 == k);
                lemma_keys_differ(after, c, i);
            }
        } else if c > i {
            assert(after[c] == entries[c - 1]);
            lemma_entry_in_map(entries, c - 1);
            if key == k {
                assert(after[i].0 == k);
                lemma_keys_differ(after, c, i);
            }
        } else {
            assert(after[i] == (k, v));
        }
    }
    if key == k {
        assert(after[i].0 == key);
    } else if has_key(entries, key) {
        let c = key_index(entries, key);
        if c < i {
            assert(after[c].0 == key);
        } else {
            assert(after[c + 1] == entries[c]);
            assert(after[c + 1].0 == key);
        }
    }
}

/// Putting an entry between the entries with smaller keys and those with
/// greater keys puts its key and value into the map.
pub proof fn lemma_insert_entry(
    entries: Seq<(ValueView, ValueView)>,
    i: int,
    k: ValueView,
    v: ValueView,
)
    requires
        keys_ascend(entries),
        0 <= i <= entries.len(),
        forall|j: int| 0 <= j < i ==> value_order(#[trigger] entries[j].0, k) == Order::Less,
        i < entries.len() ==> value_order(entries[i].0, k) == Order::Greater,
    ensures
        keys_ascend(entries.insert(i, (k, v))),
        !entries_map(entries).contains_key(k),
        entries_map(entries.insert(i, (k, v))) == entries_map(entries).insert(k, v),
{
    lemma_insert_ascends(entries, i, k, v);
    let after = entries.insert(i, (k, v));
    let m1 = entries_map(after);
    let m2 = entries_map(entries).insert(k, v);
    assert forall|key: ValueView| #[trigger] m1.contains_key(key) == m2.contains_key(key) by {
        lemma_insert_key(entries, i, k, v, key);
    }
    assert forall|key: ValueView| #[trigger] m1.contains_key(key) implies m1[key] == m2[key] by {
        lemma_insert_key(entries, i, k, v, key);
    }
    assert(m1 =~= m2);
}

/// What the map of a sequence with another value at one place says of a key.
proof fn lemma_update_key(
    entries: Seq<(ValueView, ValueView)>,
    i: int,
    v: ValueView,
    key: ValueView,
)
    requires
        keys_ascend(entries),
        keys_ascend(entries.update(i, (entries[i].0, v))),
        0 <= i < entries.len(),
    ensures
        has_key(entries.update(i, (entries[i].0, v)), key) <==> has_key(entries, key),
        has_key(entries, key) ==> entries_map(entries.update(i, (entries[i].0, v)))[key] == (if key
            == entries[i].0 {
            v
        } else {
            entries_map(entries)[key]
        }),
{
    let k = entries[i].0;
    let after = entries.update(i, (k, v));
    if has_key(after, key) {
        let c = key_index(after, key);
        assert(entries[c].0 == key);
    }
    if has_key(entries, key) {
        let c = key_index(entries, key);
        assert(after[c].0 == key);
        lemma_entry_in_map(after, c);
        lemma_entry_in_map(entries, c);
        if c != i {
            assert(after[c] == entries[c]);
            if key == k {
                lemma_keys_differ(entries, c, i);
            }
        }
    }
}

/// Giving the entry at a place another value keeps the keys ascending and
/// gives the key that value in the map.
pub proof fn lemma_update_entry(entries: Seq<(ValueView, ValueView)>, i: int, v: ValueView)
    requires
        keys_ascend(entries),
        0 <= i < entries.len(),
    ensures
        keys_ascend(entries.update(i, (entries[i].0, v))),
        entries_map(entries.update(i, (entries[i].0, v))) == entries_map(entries).insert(
            entries[i].0,
            v,
        ),
{
    let k = entries[i].0;
    let after = entries.update(i, (k, v));
    assert forall|x: int, y: int| 0 <= x < y < after.len() implies value_order(
        #[trigger] after[x].0,
        #[trigger] after[y].0,
    ) == Order::Less by {
        assert(after[x].0 == entries[x].0);
        assert(after[y].0 == entries[y].0);
    }
    let m1 = entries_map(after);
    let m2 = entries_map(entries).insert(k, v);
    lemma_entry_in_map(entries, i);
    assert forall|key: ValueView| #[trigger] m1.contains_key(key) == m2.contains_key(key) by {
        lemma_update_key(entries, i, v, key);
    }
    assert forall|key: ValueView| #[trigger] m1.contains_key(key) implies m1[key] == m2[key] by {
        lemma_update_key(entries, i, v, key);
    }
    assert(m1 =~= m2);
}

/// The keys before a place come before whatever the key at that place comes
/// before or equals.
proof fn lemma_before(entries: Seq<(ValueView, ValueView)>, i: int, k: ValueView)
    requires
        keys_ascend(entries),
        0 <= i < entries.len(),
        value_order(entries[i].0, k) != Order::Greater,
    ensures
        forall|j: int| 0 <= j < i ==> value_order(#[trigger] entries[j].0, k) == Order::Less,
{
    assert forall|j: int| 0 <= j < i implies value_order(#[trigger] entries[j].0, k)
        == Order::Less by {
        assert(value_order(entries[j].0, entries[i].0) == Order::Less);
        lemma_value_order_equal(entries[i].0, k);
        if entries[i].0 != k {
            lemma_value_order_transitive(entries[j].0, entries[i].0, k);
        }
    }
}

/// The keys from a place on come after whatever the key at that place comes
/// after.
proof fn lemma_after(entries: Seq<(ValueView, ValueView)>, i: int, k: ValueView)
    requires
        keys_ascend(entries),
        0 <= i < entries.len(),
        value_order(entries[i].0, k) == Order::Greater,
    ensures
        forall|j: int|
            i <= j < entries.len() ==> value_order(#[trigger] entries[j].0, k) == Order::Greater,
{
    assert forall|j: int| i <= j < entries.len() implies value_order(#[trigger] entries[j].0, k)
        == Order::Greater by {
        lemma_value_order_flip(entries[i].0, k);
        if i < j {
            assert(value_order(entries[i].0, entries[j].0) == Order::Less);
            lemma_value_order_transitive(k, entries[i].0, entries[j].0);
            lemma_value_order_flip(k, entries[j].0);
        }
    }
}

impl MapValue {
    /// The map as a mathematical map from keys to values.
    pub open spec fn as_map(self) -> Map<ValueView, ValueView> {
        entries_map(self.entries_view())
    }

    /// The place of `key` among the entries, or the place where an entry
    /// with that key would go, found by halving.
    fn find(&self, key: &AlgebraicValue) -> (r: (usize, bool))
        ensures
            r.0 <= self.entries_view().len(),
            keys_ascend(self.entries_view()),
            forall|j: int|
                0 <= j < r.0 ==> value_order(#[trigger] self.entries_view()[j].0, key@)
                    == Order::Less,
            r.1 ==> r.0 < self.entries_view().len() && self.entries_view()[r.0 as int].0 == key@,
            !r.1 && r.0 < self.entries_view().len() ==> value_order(
                self.entries_view()[r.0 as int].0,
                key@,
            ) == Order::Greater,
    {
        proof {
            use_type_invariant(self);
        }
        let ghost entries = self.entries_view();
        let mut lo: usize = 0;
        let mut hi: usize = self.entries.len();
        while lo < hi
            invariant
                0 <= lo <= hi <= self.entries.len(),
                entries == self.entries_view(),
                entries.len() == self.entries.len(),
                keys_ascend(entries),
                forall|j: int|
                    0 <= j < lo ==> value_order(#[trigger] entries[j].0, key@) == Order::Less,
                forall|j: int|
                    hi <= j < entries.len() ==> value_order(#[trigger] entries[j].0, key@)
                        == Order::Greater,
            decreases hi - lo,
        {
            let mid = lo + (hi - lo) / 2;
            match self.entries[mid].0.compare(key) {
                Order::Less => {
                    proof {
                        lemma_before(entries, mid as int, key@);
                    }
                    lo = mid + 1;
                },
                Order::Equal => {
                    proof {
                        lemma_value_order_equal(entries[mid as int].0, key@);
                        lemma_before(entries, mid as int, key@);
                    }
                    return (mid, true);
                },
                Order::Greater => {
                    proof {
                        lemma_after(entries, mid as int, key@);
                    }
                    hi = mid;
                },
            }
        }
        (lo, false)
    }

    /// The value under `key`, if the map has the key.
    pub fn get(&self, key: &AlgebraicValue) -> (r: Option<&AlgebraicValue>)
        ensures
            r is Some <==> self.as_map().contains_key(key@),
            r is Some ==> r->Some_0@ == self.as_map()[key@],
    {
        let (i, found) = self.find(key);
        proof {
            let entries = self.entries_view();
            if found {
                lemma_entry_in_map(entries, i as int);
            } else if entries_map(entries).contains_key(key@) {
                lemma_insert_entry(entries, i as int, key@, key@);
            }
        }
        if found {
            Some(&self.entries[i].1)
        } else {
            None
        }
    }

    /// Whether the map has `key`.
    pub fn contains_key(&self, key: &AlgebraicValue) -> (b: bool)
        ensures
            b == self.as_map().contains_key(key@),
    {
        self.get(key).is_some()
    }

    /// Puts `value` under `key`. Answers the value that was under the key
    /// before, if there was one.
    pub fn insert(&mut self, key: AlgebraicValue, value: AlgebraicValue) -> (before: Option<
        AlgebraicValue,
    >)
        ensures
            final(self).as_map() == old(self).as_map().insert(key@, value@),
            before is Some <==> old(self).as_map().contains_key(key@),
            before is Some ==> before->Some_0@ == old(self).as_map()[key@],
    {
        let (i, found) = self.find(&key);
        let ghost entries = self.entries_view();
        let ghost before_map = self.as_map();
        let mut held: Vec<(AlgebraicValue, AlgebraicValue)> = Vec::new();
        assert(MapValue { entries: held }.entries_view() =~= Seq::empty());
        core::mem::swap(&mut held, &mut self.entries);
        assert(MapValue { entries: held }.entries_view() == entries);
        if found {
            proof {
                lemma_entry_in_map(entries, i as int);
                lemma_update_entry(entries, i as int, value@);
            }
            let was = held.remove(i);
            held.insert(i, (was.0, value));
            assert(MapValue { entries: held }.entries_view() =~= entries.update(
                i as int,
                (key@, value@),
            ));
            self.entries = held;
            Some(was.1)
        } else {
            proof {
                lemma_insert_entry(entries, i as int, key@, value@);
            }
            held.insert(i, (key, value));
            assert(MapValue { entries: held }.entries_view() =~= entries.insert(
                i as int,
                (key@, value@),
            ));
            self.entries = held;
            None
        }
    }
}

} // verus!
