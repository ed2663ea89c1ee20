//! A reference model of the generated generator's runtime behavior: a
//! budget-and-randomness source, and a generation procedure over a schema
//! that selects variants by the budget policy, reduces the budget once per
//! variant selection, and recurses through self-referential fields. The
//! budget is threaded by value and strictly decreases along every recursive
//! call chain, which is what makes termination provable.

use vstd::prelude::*;
use vstd::string::StringExecFns;

use crate::eligibility::{
    eligible_indices, eligible_set, lemma_eligible_idxs_empty, lemma_eligible_idxs_sound,
    reduced_budget, spec_eligible_idxs, spec_reduced_budget,
};
use crate::schema::{FieldsView, TypeSchema, TypeSchemaView, VariantView};

verus! {

/// What a choice draw yields: the stream entry at the current position,
/// wrapped around the stream's length, reduced into `[0, n)`; a source
/// with an empty stream always yields zero.
pub open spec fn spec_choice(cs: Seq<usize>, pos: int, n: int) -> int
    recommends
        n >= 1,
{
    if cs.len() == 0 {
        0
    } else {
        (cs[pos % (cs.len() as int)] as int) % n
    }
}

/// Where the stream stands after one draw: one step forward, wrapped
/// around the stream's length; an empty stream does not move.
pub open spec fn spec_next_pos(cs: Seq<usize>, pos: int) -> int {
    if cs.len() == 0 {
        pos
    } else {
        let idx = pos % (cs.len() as int);
        if idx + 1 == cs.len() {
            0
        } else {
            idx + 1
        }
    }
}

/// The budget and randomness source handed to one top-level generation
/// call: the remaining budget, and a stream of raw choices standing for
/// the caller's randomness.
pub struct BudgetSource {
    pub budget: usize,
    pub choices: Vec<usize>,
    pub pos: usize,
}

impl BudgetSource {
    /// A fresh source with the given budget, reading the given stream from
    /// its start.
    pub fn new(budget: usize, choices: Vec<usize>) -> (r: BudgetSource)
        ensures
            r.budget == budget,
            r.choices == choices,
            r.pos == 0,
    {
        BudgetSource { budget, choices, pos: 0 }
    }

    /// The budget this source reports.
    pub fn remaining_budget(&self) -> (b: usize)
        ensures
            b == self.budget,
    {
        self.budget
    }

    /// Draw one choice in `[0, n)`, advancing the stream and leaving the
    /// budget untouched.
    pub fn choose_uniformly(&mut self, n: usize) -> (k: usize)
        requires
            n >= 1,
        ensures
            k < n,
            k as int == spec_choice(old(self).choices@, old(self).pos as int, n as int),
            final(self).budget == old(self).budget,
            final(self).choices == old(self).choices,
            final(self).pos as int == spec_next_pos(old(self).choices@, old(self).pos as int),
    {
        let len = self.choices.len();
        if len == 0 {
            0
        } else {
            let idx = self.pos % len;
            let c = self.choices[idx];
            self.pos = if idx + 1 == len {
                0
            } else {
                idx + 1
            };
            c % n
        }
    }

    /// A fresh source sharing this source's remaining randomness stream
    /// but reporting the given budget.
    pub fn scoped(self, new_budget: usize) -> (r: BudgetSource)
        ensures
            r.budget == new_budget,
            r.choices == self.choices,
            r.pos == self.pos,
    {
        BudgetSource { budget: new_budget, choices: self.choices, pos: self.pos }
    }
}

/// One node of a generated value's structural trace: which variant the
/// dispatch selected, the reduced budget its fields were scoped to, and
/// one child per self-referential field, in field order. Fields of other
/// types are leaves here: their values come from their own types'
/// generators.
#[derive(Debug)]
pub struct GenNode {
    pub variant: usize,
    pub scoped_budget: usize,
    pub children: Vec<GenNode>,
}

/// A generation-time failure: the budget dispatch found no eligible
/// variant to select, which can only happen to a sum type that has no
/// zero-arity base case.
#[derive(Clone, Copy, PartialEq, Eq, Structural, Debug)]
pub enum GenError {
    NoEligibleVariant,
}

/// Whether a field's declared type refers to the schema's own type.
pub open spec fn is_self_ref(ty: Seq<char>, name: Seq<char>) -> bool {
    ty == name || ty == "Self"@
}

/// How many of the given field types refer to the schema's own type.
pub open spec fn self_ref_count(tys: Seq<Seq<char>>, name: Seq<char>) -> nat
    decreases tys.len(),
{
    if tys.len() == 0 {
        0
    } else {
        self_ref_count(tys.drop_last(), name) + if is_self_ref(tys.last(), name) {
            1nat
        } else {
            0nat
        }
    }
}

/// Whether a variant has at least one self-referential field.
pub open spec fn has_self_ref(v: VariantView, name: Seq<char>) -> bool {
    self_ref_count(v.fields.field_tys(), name) > 0
}

/// Whether some variant has no fields at all: the base case that makes
/// the budget policy's termination guarantee apply.
pub open spec fn spec_has_zero_arity(vs: Seq<VariantView>) -> bool {
    exists|i: int| 0 <= i < vs.len() && vs[i].arity() == 0
}

/// A field list declares as many types as its arity.
pub proof fn lemma_field_tys_len(f: FieldsView)
    ensures
        f.field_tys().len() == f.arity(),
{
}

/// If any listed type is self-referential, the count of self-referential
/// types is positive.
pub proof fn lemma_self_ref_present(tys: Seq<Seq<char>>, name: Seq<char>, i: int)
    requires
        0 <= i < tys.len(),
        is_self_ref(tys[i], name),
    ensures
        self_ref_count(tys, name) > 0,
    decreases tys.len(),
{
    if i < tys.len() - 1 {
        lemma_self_ref_present(tys.drop_last(), name, i);
    }
}

/// The structural correctness of one generated node against its schema:
/// the selected variant exists and — for a sum type — was eligible at the
/// node's budget; the fields were scoped to the once-reduced budget; and
/// there is one structurally correct child per self-referential field.
pub open spec fn gen_node_ok(s: TypeSchemaView, b: int, node: GenNode) -> bool
    decreases node,
{
    let v = s.variants[node.variant as int];
    let reduced = spec_reduced_budget(b, v.arity() as int);
    &&& 0 <= (node.variant as int) < s.variants.len()
    &&& (s.kind is Sum ==> v.arity() <= b)
    &&& (s.kind is Product ==> node.variant == 0)
    &&& node.scoped_budget == reduced
    &&& node.children@.len() == self_ref_count(v.fields.field_tys(), s.name)
    &&& forall|i: int|
        0 <= i < node.children@.len() ==> gen_node_ok(s, reduced, #[trigger] node.children[i])
}

/// The call-depth bound of a generated value: this node counts as one
/// call, and every child stays within one less.
pub open spec fn depth_le(node: GenNode, d: int) -> bool
    decreases node,
{
    &&& d >= 1
    &&& forall|i: int| 0 <= i < node.children@.len() ==> depth_le(#[trigger] node.children[i], d - 1)
}

/// A depth bound stays a bound when loosened.
pub proof fn lemma_depth_le_mono(node: GenNode, d1: int, d2: int)
    requires
        depth_le(node, d1),
        d1 <= d2,
    ensures
        depth_le(node, d2),
    decreases node,
{
    assert forall|i: int| 0 <= i < node.children@.len() implies depth_le(
        #[trigger] node.children[i],
        d2 - 1,
    ) by {
        lemma_depth_le_mono(node.children[i], d1 - 1, d2 - 1);
    }
}

/// Termination of generation, as a call-depth bound: whenever the schema
/// guarantees a base case wherever it recurses — a product type with no
/// self-referential field, or a sum type whose every self-referential
/// recursion passes through a variant selection while a zero-arity variant
/// keeps budget zero selectable — a structurally correct value generated
/// at budget `b` stays within call depth `b + 1`.
pub proof fn lemma_generation_depth_bounded(s: TypeSchemaView, b: int, node: GenNode)
    requires
        b >= 0,
        s.wf(),
        gen_node_ok(s, b, node),
        s.kind is Sum || (s.kind is Product && !has_self_ref(s.variants[0], s.name)),
    ensures
        depth_le(node, b + 1),
    decreases node,
{
    let v = s.variants[node.variant as int];
    let reduced = spec_reduced_budget(b, v.arity() as int);
    if node.children@.len() > 0 {
        lemma_field_tys_len(v.fields);
        if s.kind is Product {
            assert(node.variant == 0);
            assert(self_ref_count(v.fields.field_tys(), s.name) == 0);
            assert(false);
        }
        assert(v.fields.field_tys().len() > 0);
        assert(v.arity() >= 1);
        assert(v.arity() <= b);
        assert(reduced <= b - 1);
        assert forall|i: int| 0 <= i < node.children@.len() implies depth_le(
            #[trigger] node.children[i],
            b,
        ) by {
            lemma_generation_depth_bounded(s, reduced, node.children[i]);
            lemma_depth_le_mono(node.children[i], reduced + 1, b);
        }
    }
}

/// The zero-arity fallback: at budget zero, a sum type's generation
/// selects a variant with no fields and terminates in one step.
pub proof fn lemma_zero_budget_selects_base(s: TypeSchemaView, node: GenNode)
    requires
        s.kind is Sum,
        gen_node_ok(s, 0, node),
    ensures
        s.variants[node.variant as int].arity() == 0,
        node.children@.len() == 0,
        depth_le(node, 1),
{
    let v = s.variants[node.variant as int];
    lemma_field_tys_len(v.fields);
}

/// If some variant has no fields, some variant is eligible at every
/// non-negative budget.
pub proof fn lemma_zero_arity_always_eligible(vs: Seq<VariantView>, b: int)
    requires
        b >= 0,
        spec_has_zero_arity(vs),
    ensures
        !eligible_set(vs, b).is_empty(),
{
    let i = choose|i: int| 0 <= i < vs.len() && vs[i].arity() == 0;
    assert(eligible_set(vs, b).contains(i));
}

/// Generate the structural trace of one value of the schema at the given
/// budget, drawing variant choices from the source's stream. The selected
/// variant is always one the budget policy makes eligible; the budget each
/// child sees is reduced once by the selected variant's arity and thus
/// strictly shrinks across every level of recursion actually taken — this
/// function's own termination argument is the design's termination
/// guarantee. Generation cannot fail for a product type, nor for a sum
/// type with a zero-arity variant; a sum type with no zero-arity variant
/// fails whenever the remaining budget makes no variant eligible.
#[verifier::loop_isolation(false)]
pub fn generate_node(s: &TypeSchema, budget: usize, src: &mut BudgetSource) -> (r: Result<
    GenNode,
    GenError,
>)
    requires
        s@.wf(),
        !(s@.kind is Unsupported),
        s@.kind is Product ==> !has_self_ref(s@.variants[0], s@.name),
    ensures
        final(src).budget == old(src).budget,
        final(src).choices == old(src).choices,
        s@.kind is Product ==> (r is Ok && final(src).pos == old(src).pos),
        s@.kind is Sum && spec_has_zero_arity(s@.variants) ==> r is Ok,
        s@.kind is Sum && eligible_set(s@.variants, budget as int).is_empty() ==> r is Err,
        r is Err ==> s@.kind is Sum && !spec_has_zero_arity(s@.variants),
        r matches Ok(node) ==> gen_node_ok(s@, budget as int, node),
    decreases budget,
{
    let idx: usize;
    match s.kind {
        crate::schema::SchemaKind::Unsupported => {
            proof {
                assert(false);
            }
            idx = 0;
        },
        crate::schema::SchemaKind::Product => {
            idx = 0;
        },
        crate::schema::SchemaKind::Sum => {
            let elig = eligible_indices(&s.variants, budget);
            proof {
                lemma_eligible_idxs_empty(s@.variants, budget as int);
                assert(elig@.len() == spec_eligible_idxs(s@.variants, budget as int).len());
            }
            if elig.len() == 0 {
                proof {
                    if spec_has_zero_arity(s@.variants) {
                        lemma_zero_arity_always_eligible(s@.variants, budget as int);
                    }
                }
                return Err(GenError::NoEligibleVariant);
            }
            let k = src.choose_uniformly(elig.len());
            idx = elig[k];
            proof {
                lemma_eligible_idxs_sound(s@.variants, budget as int);
                assert(elig@.map_values(|u: usize| u as int)[k as int] == idx as int);
                assert(eligible_set(s@.variants, budget as int).contains(idx as int));
            }
        },
    }
    let v = &s.variants[idx];
    let ghost vv = s@.variants[idx as int];
    let arity = v.fields.arity();
    let reduced = reduced_budget(budget, arity);
    let tys = v.fields.tys();
    proof {
        lemma_field_tys_len(vv.fields);
    }
    let self_kw = String::from_str("Self");
    let nf = tys.len();
    let mut children: Vec<GenNode> = Vec::new();
    for i in 0..nf
        invariant
            nf == tys@.len(),
            src.budget == old(src).budget,
            src.choices == old(src).choices,
            s@.kind is Product ==> src.pos == old(src).pos,
            children@.len() == self_ref_count(tys.deep_view().take(i as int), s@.name),
            forall|j: int|
                0 <= j < children@.len() ==> gen_node_ok(
                    s@,
                    reduced as int,
                    #[trigger] children@[j],
                ),
    {
        let ghost pre = tys.deep_view().take(i as int);
        let ghost cur = tys.deep_view().take(i + 1);
        proof {
            assert(cur.drop_last() =~= pre);
            assert(cur.last() == tys.deep_view()[i as int]);
        }
        let self_referential = tys[i] == s.name || tys[i] == self_kw;
        proof {
            assert(self_referential == is_self_ref(tys.deep_view()[i as int], s@.name));
        }
        if self_referential {
            proof {
                lemma_self_ref_present(tys.deep_view(), s@.name, i as int);
                if s@.kind is Product {
                    assert(vv == s@.variants[0]);
                    assert(false);
                }
                assert(arity >= 1);
                assert(vv.arity() <= budget);
                assert(reduced < budget);
            }
            match generate_node(s, reduced, src) {
                Ok(child) => {
                    children.push(child);
                },
                Err(e) => {
                    return Err(e);
                },
            }
        }
    }
    proof {
        assert(tys.deep_view().take(nf as int) =~= tys.deep_view());
    }
    Ok(GenNode { variant: idx, scoped_budget: reduced, children })
}

/// Generate the structural trace of one value of the schema, taking the
/// budget and the randomness from the given source: the one operation the
/// generation contract exposes.
pub fn generate(s: &TypeSchema, src: BudgetSource) -> (r: Result<GenNode, GenError>)
    requires
        s@.wf(),
        !(s@.kind is Unsupported),
        s@.kind is Product ==> !has_self_ref(s@.variants[0], s@.name),
    ensures
        s@.kind is Product ==> r is Ok,
        s@.kind is Sum && spec_has_zero_arity(s@.variants) ==> r is Ok,
        s@.kind is Sum && eligible_set(s@.variants, src.budget as int).is_empty() ==> r is Err,
        r is Err ==> s@.kind is Sum && !spec_has_zero_arity(s@.variants),
        r matches Ok(node) ==> gen_node_ok(s@, src.budget as int, node),
        r matches Ok(node) ==> depth_le(node, src.budget + 1),
{
    let budget = src.remaining_budget();
    let mut inner = src;
    let r = generate_node(s, budget, &mut inner);
    proof {
        if r is Ok {
            let node = r->Ok_0;
            lemma_generation_depth_bounded(s@, budget as int, node);
        }
    }
    r
}

} // verus!
