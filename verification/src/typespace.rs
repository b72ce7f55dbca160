//! The typespace: the indexed collection of types that references point into.
use crate::algebraic_type::{builtin_type_view, type_view, AlgebraicType, TypeView};
use vstd::pervasive::arbitrary;
use vstd::prelude::*;

verus! {

/// An indexed collection of types. A reference in a type is an index into the
/// typespace that the type belongs to, so a type can refer to itself or to a
/// type that refers back to it.
#[derive(Debug, PartialEq, Eq)]
pub struct Typespace {
    pub types: Vec<AlgebraicType>,
}

impl View for Typespace {
    type V = Seq<TypeView>;

    open spec fn view(&self) -> Seq<TypeView> {
        Seq::new(
            self.types@.len(),
            |i: int|
                if 0 <= i < self.types@.len() {
                    self.types@[i]@
                } else {
                    arbitrary()
                },
        )
    }
}

/// The type that `ty` stands for in `ts`, found by following at most `hops`
/// references: `ty` itself unless it is a reference, else what the type at its
/// index stands for. There is none where a reference points outside `ts` or
/// where `hops` references do not lead to a type that is not one.
pub open spec fn resolve_within(ts: Seq<TypeView>, ty: TypeView, hops: nat) -> Option<TypeView>
    decreases hops,
{
    match ty {
        TypeView::Ref(r) => if hops == 0 || r >= ts.len() {
            None
        } else {
            resolve_within(ts, ts[r as int], (hops - 1) as nat)
        },
        _ => Some(ty),
    }
}

/// The type that `ty` stands for in `ts`. As many hops are allowed as `ts` has
/// types: a chain of references that is longer runs in a circle.
pub open spec fn resolve(ts: Seq<TypeView>, ty: TypeView) -> Option<TypeView> {
    resolve_within(ts, ty, ts.len())
}

/// The view of a type is a reference only where the type is one.
pub proof fn lemma_view_kind(t: AlgebraicType)
    ensures
        t@ is Ref <==> t is Ref,
        t@ is Sum <==> t is Sum,
        t@ is Product <==> t is Product,
        t@ is Array <==> t is Builtin && t->Builtin_0 is Array,
        t@ is Mapping <==> t is Builtin && t->Builtin_0 is Mapping,
        t@ is Scalar <==> t is Builtin && !(t->Builtin_0 is Array) && !(t->Builtin_0 is Mapping),
{
    reveal_with_fuel(type_view, 2);
    match t {
        AlgebraicType::Builtin(b) => {
            reveal_with_fuel(builtin_type_view, 2);
            assert(!(builtin_type_view(b) is Ref));
            assert(builtin_type_view(b) is Array <==> b is Array);
            assert(builtin_type_view(b) is Mapping <==> b is Mapping);
        },
        _ => {},
    }
}

impl Typespace {
    /// The typespace without types.
    pub fn new() -> (ts: Typespace)
        ensures
            ts@ == Seq::<TypeView>::empty(),
    {
        let ts = Typespace { types: Vec::new() };
        assert(ts@ =~= Seq::<TypeView>::empty());
        ts
    }

    /// The type that `ty` stands for: `ty` itself unless it is a reference,
    /// else what the type at its index stands for.
    pub fn resolve<'a>(&'a self, ty: &'a AlgebraicType) -> (r: Option<&'a AlgebraicType>)
        ensures
            match r {
                Some(t) => resolve(self@, ty@) == Some(t@) && !(t is Ref),
                None => resolve(self@, ty@) is None,
            },
    {
        let mut cur = ty;
        let mut hops = self.types.len();
        loop
            invariant
                hops <= self.types.len(),
                resolve_within(self@, cur@, hops as nat) == resolve(self@, ty@),
            decreases hops,
        {
            match cur {
                AlgebraicType::Ref(r) => {
                    let index = r.0 as usize;
                    if hops == 0 || index >= self.types.len() {
                        return None;
                    }
                    cur = &self.types[index];
                    hops = hops - 1;
                },
                _ => {
                    proof {
                        lemma_view_kind(*cur);
                    }
                    return Some(cur);
                },
            }
        }
    }
}

/// The number of references that are followed from `ty` until a type is
/// reached that is none, where at most `hops` are followed.
pub open spec fn hops_from(ts: Seq<TypeView>, ty: TypeView, hops: nat) -> nat
    decreases hops,
{
    match ty {
        TypeView::Ref(r) => if hops == 0 || r >= ts.len() {
            0
        } else {
            1 + hops_from(ts, ts[r as int], (hops - 1) as nat)
        },
        _ => 0,
    }
}

/// The indices of the references that are followed from `ty`, where at most
/// `hops` are followed.
pub open spec fn indices_from(ts: Seq<TypeView>, ty: TypeView, hops: nat) -> Set<int>
    decreases hops,
{
    match ty {
        TypeView::Ref(r) => if hops == 0 || r >= ts.len() {
            Set::empty()
        } else {
            indices_from(ts, ts[r as int], (hops - 1) as nat).insert(r as int)
        },
        _ => Set::empty(),
    }
}

/// Where some number of hops leads to a type, any greater number leads to the
/// same type, and so does the number of references that lie on the way.
pub proof fn lemma_resolve_hops(ts: Seq<TypeView>, ty: TypeView, hops: nat, more: nat)
    requires
        resolve_within(ts, ty, hops) is Some,
        hops <= more,
    ensures
        resolve_within(ts, ty, more) == resolve_within(ts, ty, hops),
        hops_from(ts, ty, more) == hops_from(ts, ty, hops),
        hops_from(ts, ty, hops) <= hops,
        resolve_within(ts, ty, hops_from(ts, ty, hops)) == resolve_within(ts, ty, hops),
    decreases hops,
{
    if ty is Ref && hops > 0 && ty->Ref_0 < ts.len() {
        lemma_resolve_hops(ts, ts[ty->Ref_0 as int], (hops - 1) as nat, (more - 1) as nat);
    }
}

/// The references on the way from `ty` to a type have different indices, all
/// within the typespace, and each leads to the type in fewer hops than `ty`.
proof fn lemma_indices_differ(ts: Seq<TypeView>, ty: TypeView, hops: nat)
    requires
        resolve_within(ts, ty, hops) is Some,
    ensures
        indices_from(ts, ty, hops).finite(),
        indices_from(ts, ty, hops).len() == hops_from(ts, ty, hops),
        forall|x: int| #[trigger]
            indices_from(ts, ty, hops).contains(x) ==> 0 <= x < ts.len() && resolve_within(
                ts,
                ts[x],
                hops,
            ) is Some && hops_from(ts, ts[x], hops) < hops_from(ts, ty, hops),
    decreases hops,
{
    if ty is Ref && hops > 0 && ty->Ref_0 < ts.len() {
        let r = ty->Ref_0 as int;
        let rest = (hops - 1) as nat;
        lemma_indices_differ(ts, ts[r], rest);
        lemma_resolve_hops(ts, ts[r], rest, hops);
        assert forall|x: int| #[trigger]
            indices_from(ts, ty, hops).contains(x) implies 0 <= x < ts.len() && resolve_within(
            ts,
            ts[x],
            hops,
        ) is Some && hops_from(ts, ts[x], hops) < hops_from(ts, ty, hops) by {
            if indices_from(ts, ts[r], rest).contains(x) {
                lemma_resolve_hops(ts, ts[x], rest, hops);
            }
        }
        if indices_from(ts, ts[r], rest).contains(r) {
            assert(hops_from(ts, ts[r], rest) < hops_from(ts, ts[r], rest));
        }
    }
}

/// Where any number of hops leads from `ty` to a type, as many hops as the
/// typespace has types lead to it: to bound the hops by the size of the
/// typespace gives up no type that following references would reach.
pub proof fn law_resolve_bound(ts: Seq<TypeView>, ty: TypeView, hops: nat)
    requires
        resolve_within(ts, ty, hops) is Some,
    ensures
        resolve(ts, ty) == resolve_within(ts, ty, hops),
{
    let needed = hops_from(ts, ty, hops);
    lemma_resolve_hops(ts, ty, hops, hops);
    lemma_indices_differ(ts, ty, hops);
    let met = indices_from(ts, ty, hops);
    let all = vstd::set_lib::set_int_range(0, ts.len() as int);
    vstd::set_lib::lemma_int_range(0, ts.len() as int);
    assert(met.subset_of(all));
    vstd::set_lib::lemma_len_subset(met, all);
    assert(needed <= ts.len());
    lemma_resolve_hops(ts, ty, needed, ts.len());
}

} // verus!
