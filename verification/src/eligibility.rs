//! The budget policy: which variants of a sum schema a generation call may
//! select at a given remaining budget, and how a variant selection reduces
//! the budget seen by its own fields' recursive calls.

use vstd::prelude::*;

use crate::schema::{Variant, VariantView};

verus! {

/// The budget left for the fields of a variant of the given arity, when the
/// variant is selected at budget `b`: the reduction saturates at zero and is
/// applied once per variant selection, not once per field.
pub open spec fn spec_reduced_budget(b: int, arity: int) -> int {
    if b >= arity {
        b - arity
    } else {
        0
    }
}

/// Compute the reduced budget `max(0, b - arity)`.
pub fn reduced_budget(b: usize, arity: usize) -> (r: usize)
    ensures
        r == spec_reduced_budget(b as int, arity as int),
{
    if b >= arity {
        b - arity
    } else {
        0
    }
}

/// The eligible-variant set at budget `b`: the indices of the variants
/// whose arity is at most `b`.
pub open spec fn eligible_set(vs: Seq<VariantView>, b: int) -> Set<int> {
    Set::new(|i: int| 0 <= i < vs.len() && vs[i].arity() <= b)
}

/// Eligibility is monotonic in the budget: raising the budget never makes
/// an eligible variant ineligible.
pub proof fn lemma_eligibility_monotonic(vs: Seq<VariantView>, b1: int, b2: int)
    requires
        b1 <= b2,
    ensures
        eligible_set(vs, b1).subset_of(eligible_set(vs, b2)),
{
    assert forall|i: int| eligible_set(vs, b1).contains(i) implies eligible_set(
        vs,
        b2,
    ).contains(i) by {}
}

/// At budget zero exactly the zero-arity variants are eligible.
pub proof fn lemma_eligible_at_zero(vs: Seq<VariantView>, i: int)
    ensures
        eligible_set(vs, 0).contains(i) <==> 0 <= i < vs.len() && vs[i].arity() == 0,
{
}

/// The greatest arity among the variants; zero when there are none.
pub open spec fn spec_max_arity(vs: Seq<VariantView>) -> nat
    decreases vs.len(),
{
    if vs.len() == 0 {
        0
    } else {
        let rest = spec_max_arity(vs.drop_last());
        if vs.last().arity() > rest {
            vs.last().arity()
        } else {
            rest
        }
    }
}

/// No variant's arity exceeds the greatest arity.
pub proof fn lemma_arity_le_max(vs: Seq<VariantView>, i: int)
    requires
        0 <= i < vs.len(),
    ensures
        vs[i].arity() <= spec_max_arity(vs),
    decreases vs.len(),
{
    if i < vs.len() - 1 {
        lemma_arity_le_max(vs.drop_last(), i);
    }
}

/// At any budget at or above the greatest arity, every variant is eligible:
/// the dispatch's final tier is a catch-all.
pub proof fn lemma_catch_all_eligible(vs: Seq<VariantView>, b: int)
    requires
        b >= spec_max_arity(vs),
    ensures
        eligible_set(vs, b) =~= Set::new(|i: int| 0 <= i < vs.len()),
{
    assert forall|i: int| 0 <= i < vs.len() implies eligible_set(vs, b).contains(i) by {
        lemma_arity_le_max(vs, i);
    }
}

/// Compute the greatest arity among the variants.
pub fn max_arity(vs: &Vec<Variant>) -> (m: usize)
    ensures
        m == spec_max_arity(vs.deep_view()),
{
    let mut m: usize = 0;
    let n = vs.len();
    for i in 0..n
        invariant
            n == vs.len(),
            m == spec_max_arity(vs.deep_view().take(i as int)),
            i <= vs.len(),
    {
        let a = vs[i].fields.arity();
        if a > m {
            m = a;
        }
        proof {
            let pre = vs.deep_view().take(i as int);
            let cur = vs.deep_view().take(i + 1);
            assert(cur.drop_last() =~= pre);
            assert(cur.last() == vs.deep_view()[i as int]);
        }
    }
    proof {
        assert(vs.deep_view().take(vs.deep_view().len() as int) =~= vs.deep_view());
    }
    m
}

/// The indices of the variants eligible at budget `b`, in ascending order.
pub open spec fn spec_eligible_idxs(vs: Seq<VariantView>, b: int) -> Seq<int>
    decreases vs.len(),
{
    if vs.len() == 0 {
        Seq::empty()
    } else {
        let rest = spec_eligible_idxs(vs.drop_last(), b);
        if vs.last().arity() <= b {
            rest.push(vs.len() - 1)
        } else {
            rest
        }
    }
}

/// Every index listed as eligible lies in range and denotes a variant whose
/// arity is within the budget, and the listing is strictly ascending.
pub proof fn lemma_eligible_idxs_sound(vs: Seq<VariantView>, b: int)
    ensures
        forall|k: int|
            0 <= k < spec_eligible_idxs(vs, b).len() ==> eligible_set(vs, b).contains(
                #[trigger] spec_eligible_idxs(vs, b)[k],
            ),
        forall|k1: int, k2: int|
            0 <= k1 < k2 < spec_eligible_idxs(vs, b).len() ==> #[trigger] spec_eligible_idxs(
                vs,
                b,
            )[k1] < #[trigger] spec_eligible_idxs(vs, b)[k2],
    decreases vs.len(),
{
    if vs.len() > 0 {
        lemma_eligible_idxs_sound(vs.drop_last(), b);
        let rest = spec_eligible_idxs(vs.drop_last(), b);
        assert forall|k: int| 0 <= k < rest.len() implies eligible_set(vs, b).contains(
            rest[k],
        ) by {
            assert(eligible_set(vs.drop_last(), b).contains(rest[k]));
            assert(vs.drop_last()[rest[k]] == vs[rest[k]]);
        }
    }
}

/// Every eligible variant is listed.
pub proof fn lemma_eligible_idxs_complete(vs: Seq<VariantView>, b: int, i: int)
    requires
        eligible_set(vs, b).contains(i),
    ensures
        spec_eligible_idxs(vs, b).contains(i),
    decreases vs.len(),
{
    if i == vs.len() - 1 {
        assert(spec_eligible_idxs(vs, b).last() == i);
    } else {
        assert(vs.drop_last()[i] == vs[i]);
        lemma_eligible_idxs_complete(vs.drop_last(), b, i);
        let rest = spec_eligible_idxs(vs.drop_last(), b);
        let k = choose|k: int| 0 <= k < rest.len() && rest[k] == i;
        assert(spec_eligible_idxs(vs, b)[k] == i);
    }
}

/// Some variant is eligible at budget `b` if and only if the listing of
/// eligible indices is not empty.
pub proof fn lemma_eligible_idxs_empty(vs: Seq<VariantView>, b: int)
    ensures
        spec_eligible_idxs(vs, b).len() == 0 <==> eligible_set(vs, b).is_empty(),
{
    if spec_eligible_idxs(vs, b).len() == 0 {
        assert forall|i: int| !eligible_set(vs, b).contains(i) by {
            if eligible_set(vs, b).contains(i) {
                lemma_eligible_idxs_complete(vs, b, i);
            }
        }
    } else {
        lemma_eligible_idxs_sound(vs, b);
        assert(eligible_set(vs, b).contains(spec_eligible_idxs(vs, b)[0]));
    }
}

/// Compute the indices of the variants eligible at budget `b`.
pub fn eligible_indices(vs: &Vec<Variant>, b: usize) -> (idxs: Vec<usize>)
    ensures
        idxs@.map_values(|u: usize| u as int) == spec_eligible_idxs(vs.deep_view(), b as int),
{
    let mut idxs: Vec<usize> = Vec::new();
    let n = vs.len();
    for i in 0..n
        invariant
            n == vs.len(),
            idxs@.map_values(|u: usize| u as int) =~= spec_eligible_idxs(
                vs.deep_view().take(i as int),
                b as int,
            ),
    {
        let a = vs[i].fields.arity();
        if a <= b {
            idxs.push(i);
        }
        proof {
            let pre = vs.deep_view().take(i as int);
            let cur = vs.deep_view().take(i + 1);
            assert(cur.drop_last() =~= pre);
            assert(cur.last() == vs.deep_view()[i as int]);
            assert(idxs@.map_values(|u: usize| u as int) =~= spec_eligible_idxs(cur, b as int));
        }
    }
    proof {
        assert(vs.deep_view().take(vs.deep_view().len() as int) =~= vs.deep_view());
    }
    idxs
}

} // verus!
