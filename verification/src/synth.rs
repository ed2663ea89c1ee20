//! The synthesis pipeline: the field-generator synthesizer, the variant
//! budget allocator, the smoke-test synthesizer, and the top-level
//! assembler that turns one extracted schema into one output unit or a
//! synthesis diagnostic.

use vstd::prelude::*;
use vstd::string::StringExecFns;

use crate::eligibility::{max_arity, spec_max_arity};
use crate::extract::{extract, spec_extract};
use crate::generics::{
    constrain_generics, self_args, spec_constrain_generics, spec_self_args, spec_test_args,
    test_args,
};
use crate::ir::{
    CtorPath, CtorPathView, GenBody, GenBodyView, GeneratorImpl, GeneratorImplView, OutputUnit,
    OutputUnitView, SmokeTest, SmokeTestView, SynthesisError, SynthesisErrorView, VariantExpr,
    VariantExprView,
};
use crate::names::{module_name, spec_module_name};
use crate::schema::{
    clone_named_fields, clone_strings, Decl, DeclView, FieldList, FieldsView, Loc, SchemaKind,
    TypeSchema, TypeSchemaView, Variant, VariantView,
};

verus! {

/// The constructor path of a product type's implicit variant: the type
/// itself.
pub open spec fn spec_self_ctor(ty: Seq<char>) -> CtorPathView {
    CtorPathView { ty_name: ty, variant: None }
}

/// The constructor path of one case of a sum type.
pub open spec fn spec_variant_ctor(ty: Seq<char>, v: Seq<char>) -> CtorPathView {
    CtorPathView { ty_name: ty, variant: Some(v) }
}

/// Build the constructor path of a product type's implicit variant.
pub fn self_ctor(ty: &String) -> (c: CtorPath)
    ensures
        c@ == spec_self_ctor(ty@),
{
    CtorPath { ty_name: ty.clone(), variant: None }
}

/// Build the constructor path of one case of a sum type.
pub fn variant_ctor(ty: &String, v: &String) -> (c: CtorPath)
    ensures
        c@ == spec_variant_ctor(ty@, v@),
{
    CtorPath { ty_name: ty.clone(), variant: Some(v.clone()) }
}

/// What the field-generator synthesizer emits for one variant: a bare
/// constructor reference for a unit variant (no recursive calls, no budget
/// consumption); otherwise a budget decrement equal to the variant's arity
/// followed by one recursive generation call per field, in declaration
/// order.
pub open spec fn spec_variant_expr(ctor: CtorPathView, fields: FieldsView) -> VariantExprView {
    match fields {
        FieldsView::Unit => VariantExprView::Unit { ctor },
        FieldsView::Unnamed(tys) => VariantExprView::Unnamed {
            ctor,
            decrement: tys.len(),
            field_tys: tys,
        },
        FieldsView::Named(fs) => VariantExprView::Named { ctor, decrement: fs.len(), fields: fs },
    }
}

/// Synthesize the expression that builds one variant's value from
/// per-field recursive generation calls, with the budget-decrement step.
/// All fields of the variant share one reduced budget: the decrement is
/// the variant's arity, applied once per variant selection.
pub fn synth_variant_expr(ctor: CtorPath, fields: &FieldList) -> (e: VariantExpr)
    ensures
        e@ == spec_variant_expr(ctor@, fields@),
{
    match fields {
        FieldList::Unit => VariantExpr::Unit { ctor },
        FieldList::Unnamed(tys) => VariantExpr::Unnamed {
            ctor,
            decrement: tys.len(),
            field_tys: clone_strings(tys),
        },
        FieldList::Named(fs) => VariantExpr::Named {
            ctor,
            decrement: fs.len(),
            fields: clone_named_fields(fs),
        },
    }
}

/// One tier of the budget dispatch: the expressions of the variants
/// eligible at budget `b`, in declaration order.
pub open spec fn spec_tier(name: Seq<char>, vs: Seq<VariantView>, b: int) -> Seq<VariantExprView>
    decreases vs.len(),
{
    if vs.len() == 0 {
        Seq::empty()
    } else {
        let rest = spec_tier(name, vs.drop_last(), b);
        if vs.last().arity() <= b {
            rest.push(spec_variant_expr(spec_variant_ctor(name, vs.last().name), vs.last().fields))
        } else {
            rest
        }
    }
}

/// Synthesize one tier of the budget dispatch.
#[verifier::loop_isolation(false)]
pub fn synth_tier(name: &String, vs: &Vec<Variant>, b: usize) -> (tier: Vec<VariantExpr>)
    ensures
        tier.deep_view() == spec_tier(name@, vs.deep_view(), b as int),
{
    let mut tier: Vec<VariantExpr> = Vec::new();
    let n = vs.len();
    for i in 0..n
        invariant
            n == vs.len(),
            tier.deep_view() =~= spec_tier(name@, vs.deep_view().take(i as int), b as int),
    {
        let ghost prev_raw = tier@;
        let ghost pre = vs.deep_view().take(i as int);
        let ghost cur = vs.deep_view().take(i + 1);
        proof {
            assert(cur.drop_last() =~= pre);
            assert(cur.last() == vs.deep_view()[i as int]);
        }
        let a = vs[i].fields.arity();
        if a <= b {
            let e = synth_variant_expr(variant_ctor(name, &vs[i].name), &vs[i].fields);
            tier.push(e);
            proof {
                assert forall|j: int| 0 <= j < tier@.len() implies tier.deep_view()[j]
                    == spec_tier(name@, cur, b as int)[j] by {
                    assert(tier.deep_view()[j] == tier@[j].deep_view());
                    if j < prev_raw.len() {
                        assert(tier@[j] == prev_raw[j]);
                        assert(prev_raw[j].deep_view() == spec_tier(name@, pre, b as int)[j]);
                    } else {
                        assert(tier@[j] == e);
                    }
                }
                assert(tier.deep_view() =~= spec_tier(name@, cur, b as int));
            }
        } else {
            proof {
                assert(tier.deep_view() =~= spec_tier(name@, cur, b as int));
            }
        }
    }
    proof {
        assert(vs.deep_view().take(vs.deep_view().len() as int) =~= vs.deep_view());
    }
    tier
}

/// The expressions of all the variants, in declaration order: the
/// catch-all tier of the budget dispatch.
pub open spec fn spec_all_exprs(name: Seq<char>, vs: Seq<VariantView>) -> Seq<VariantExprView> {
    vs.map_values(
        |v: VariantView| spec_variant_expr(spec_variant_ctor(name, v.name), v.fields),
    )
}

/// Synthesize the catch-all tier, offering every variant.
#[verifier::loop_isolation(false)]
pub fn synth_all_exprs(name: &String, vs: &Vec<Variant>) -> (out: Vec<VariantExpr>)
    ensures
        out.deep_view() == spec_all_exprs(name@, vs.deep_view()),
{
    let mut out: Vec<VariantExpr> = Vec::new();
    let n = vs.len();
    for i in 0..n
        invariant
            n == vs.len(),
            out.deep_view() =~= spec_all_exprs(name@, vs.deep_view().take(i as int)),
    {
        let ghost prev_raw = out@;
        let e = synth_variant_expr(variant_ctor(name, &vs[i].name), &vs[i].fields);
        out.push(e);
        proof {
            assert forall|j: int| 0 <= j < i + 1 implies out.deep_view()[j] == spec_all_exprs(
                name@,
                vs.deep_view().take(i + 1),
            )[j] by {
                assert(out.deep_view()[j] == out@[j].deep_view());
                assert(vs.deep_view().take(i + 1)[j] == vs.deep_view()[j]);
                if j < i {
                    assert(out@[j] == prev_raw[j]);
                    assert(prev_raw[j].deep_view() == spec_all_exprs(
                        name@,
                        vs.deep_view().take(i as int),
                    )[j]);
                } else {
                    assert(out@[j] == e);
                }
            }
            assert(out.deep_view() =~= spec_all_exprs(name@, vs.deep_view().take(i + 1)));
        }
    }
    proof {
        assert(vs.deep_view().take(vs.deep_view().len() as int) =~= vs.deep_view());
    }
    out
}

/// The diagnostic for a sum schema with no variants: such a type has no
/// instantiable case.
pub open spec fn empty_variants_message() -> Seq<char> {
    "Need at least one variant to instantiate the value"@
}

/// The diagnostic for a declaration kind that synthesis does not support;
/// a permanent design boundary, not a transient gap.
pub open spec fn unsupported_message() -> Seq<char> {
    "this kind of type declaration is not yet supported"@
}

/// The error of the variant budget allocator on an empty variant list.
pub open spec fn spec_empty_variants_error(loc: Loc) -> SynthesisErrorView {
    SynthesisErrorView { message: empty_variants_message(), loc }
}

/// The error of the assembler on an unsupported declaration kind.
pub open spec fn spec_unsupported_error(loc: Loc) -> SynthesisErrorView {
    SynthesisErrorView { message: unsupported_message(), loc }
}

/// The budget-tiered dispatch of a sum schema: tier `t`, for a current
/// budget of exactly `t`, offers the variants of arity at most `t`; the
/// final catch-all tier, for any budget at or above the greatest arity,
/// offers every variant.
pub open spec fn spec_dispatch(name: Seq<char>, vs: Seq<VariantView>) -> GenBodyView {
    GenBodyView::Dispatch {
        tiers: Seq::new(spec_max_arity(vs), |t: int| spec_tier(name, vs, t)),
        catch_all: spec_all_exprs(name, vs),
    }
}

/// Synthesize the budget-tiered dispatch for a sum schema's variant list,
/// or fail when the list is empty.
#[verifier::loop_isolation(false)]
pub fn synth_dispatch(name: &String, vs: &Vec<Variant>, loc: Loc) -> (r: Result<
    GenBody,
    SynthesisError,
>)
    ensures
        vs@.len() == 0 ==> (r matches Err(e) && e@ == spec_empty_variants_error(loc)),
        vs@.len() > 0 ==> (r matches Ok(b) && b@ == spec_dispatch(name@, vs.deep_view())),
{
    if vs.len() == 0 {
        return Err(
            SynthesisError {
                message: String::from_str("Need at least one variant to instantiate the value"),
                loc,
            },
        );
    }
    let m = max_arity(vs);
    let mut tiers: Vec<Vec<VariantExpr>> = Vec::new();
    for t in 0..m
        invariant
            m == spec_max_arity(vs.deep_view()),
            tiers.deep_view() =~= Seq::new(
                t as nat,
                |x: int| spec_tier(name@, vs.deep_view(), x),
            ),
    {
        let ghost prev_raw = tiers@;
        let tier = synth_tier(name, vs, t);
        tiers.push(tier);
        proof {
            assert forall|j: int| 0 <= j < t + 1 implies tiers.deep_view()[j] == Seq::new(
                (t + 1) as nat,
                |x: int| spec_tier(name@, vs.deep_view(), x),
            )[j] by {
                assert(tiers.deep_view()[j] == tiers@[j].deep_view());
                if j < t {
                    assert(tiers@[j] == prev_raw[j]);
                    assert(prev_raw[j].deep_view() == Seq::new(
                        t as nat,
                        |x: int| spec_tier(name@, vs.deep_view(), x),
                    )[j]);
                } else {
                    assert(tiers@[j] == tier);
                }
            }
            assert(tiers.deep_view() =~= Seq::new(
                (t + 1) as nat,
                |x: int| spec_tier(name@, vs.deep_view(), x),
            ));
        }
    }
    let catch_all = synth_all_exprs(name, vs);
    Ok(GenBody::Dispatch { tiers, catch_all })
}

/// The expressions of the variants at the given indices, in that order.
pub open spec fn spec_exprs_of(name: Seq<char>, vs: Seq<VariantView>, idxs: Seq<int>) -> Seq<
    VariantExprView,
> {
    idxs.map_values(
        |i: int| spec_variant_expr(spec_variant_ctor(name, vs[i].name), vs[i].fields),
    )
}

/// A dispatch tier offers exactly the eligible variants: the tier for
/// budget `b` holds the expressions of the variants whose arity is at most
/// `b`, in declaration order and nothing else.
pub proof fn lemma_tier_offers_eligible(name: Seq<char>, vs: Seq<VariantView>, b: int)
    ensures
        spec_tier(name, vs, b) == spec_exprs_of(
            name,
            vs,
            crate::eligibility::spec_eligible_idxs(vs, b),
        ),
    decreases vs.len(),
{
    let idxs = crate::eligibility::spec_eligible_idxs(vs, b);
    if vs.len() == 0 {
        assert(spec_tier(name, vs, b) =~= spec_exprs_of(name, vs, idxs));
    } else {
        let rest = vs.drop_last();
        lemma_tier_offers_eligible(name, rest, b);
        let rest_idxs = crate::eligibility::spec_eligible_idxs(rest, b);
        crate::eligibility::lemma_eligible_idxs_sound(rest, b);
        assert forall|k: int| 0 <= k < rest_idxs.len() implies spec_exprs_of(
            name,
            rest,
            rest_idxs,
        )[k] == spec_exprs_of(name, vs, rest_idxs)[k] by {
            assert(crate::eligibility::eligible_set(rest, b).contains(rest_idxs[k]));
            assert(rest[rest_idxs[k]] == vs[rest_idxs[k]]);
        }
        assert(spec_exprs_of(name, rest, rest_idxs) =~= spec_exprs_of(name, vs, rest_idxs));
        if vs.last().arity() <= b {
            assert(idxs == rest_idxs.push(vs.len() - 1));
            assert forall|k: int| 0 <= k < idxs.len() implies spec_exprs_of(name, vs, idxs)[k]
                == spec_tier(name, vs, b)[k] by {
                if k < rest_idxs.len() {
                    assert(idxs[k] == rest_idxs[k]);
                    assert(spec_tier(name, vs, b)[k] == spec_tier(name, rest, b)[k]);
                } else {
                    assert(idxs[k] == vs.len() - 1);
                }
            }
            assert(spec_tier(name, vs, b) =~= spec_exprs_of(name, vs, idxs));
        } else {
            assert(idxs == rest_idxs);
            assert(spec_tier(name, vs, b) =~= spec_exprs_of(name, vs, idxs));
        }
    }
}

/// The greatest arity never shrinks when a variant is appended.
proof fn lemma_max_arity_drop_last(vs: Seq<VariantView>)
    requires
        vs.len() > 0,
    ensures
        spec_max_arity(vs.drop_last()) <= spec_max_arity(vs),
{
}

/// At any budget at or above the greatest arity, the tier offers every
/// variant: it equals the catch-all tier.
pub proof fn lemma_tier_catch_all(name: Seq<char>, vs: Seq<VariantView>, b: int)
    requires
        b >= spec_max_arity(vs),
    ensures
        spec_tier(name, vs, b) == spec_all_exprs(name, vs),
    decreases vs.len(),
{
    if vs.len() == 0 {
        assert(spec_tier(name, vs, b) =~= spec_all_exprs(name, vs));
    } else {
        let rest = vs.drop_last();
        lemma_max_arity_drop_last(vs);
        lemma_tier_catch_all(name, rest, b);
        crate::eligibility::lemma_arity_le_max(vs, vs.len() - 1);
        assert(vs.last().arity() <= b);
        assert forall|k: int| 0 <= k < vs.len() implies spec_tier(name, vs, b)[k]
            == spec_all_exprs(name, vs)[k] by {
            if k < vs.len() - 1 {
                assert(rest[k] == vs[k]);
                assert(spec_tier(name, vs, b)[k] == spec_tier(name, rest, b)[k]);
                assert(spec_all_exprs(name, rest)[k] == spec_all_exprs(name, vs)[k]);
            }
        }
        assert(spec_tier(name, vs, b).len() == spec_all_exprs(name, vs).len());
        assert(spec_tier(name, vs, b) =~= spec_all_exprs(name, vs));
    }
}

/// The fixed name of the smoke test inside the emitted scope; the scope's
/// own name is what keeps several annotated types apart.
pub open spec fn smoke_fn_name() -> Seq<char> {
    "prop_doesnt_panic"@
}

/// The smoke test for one type: it takes one instance of the type (forcing
/// one generation call) and unconditionally succeeds, with every generic
/// parameter instantiated by its kind's placeholder argument.
pub open spec fn spec_smoke_test(
    name: Seq<char>,
    ps: Seq<crate::schema::GenericParamView>,
) -> SmokeTestView {
    SmokeTestView { fn_name: smoke_fn_name(), ty_name: name, type_args: spec_test_args(ps) }
}

/// Synthesize the smoke test for one type.
pub fn synth_smoke_test(name: &String, ps: &Vec<crate::schema::GenericParam>) -> (t: SmokeTest)
    ensures
        t@ == spec_smoke_test(name@, ps.deep_view()),
{
    SmokeTest {
        fn_name: String::from_str("prop_doesnt_panic"),
        ty_name: name.clone(),
        type_args: test_args(ps),
    }
}

/// The generator implementation of a supported schema: the constrained
/// generic parameter list, the matching self-type argument list, and the
/// body picked by the schema's kind — the single implicit variant for a
/// product type, the budget-tiered dispatch for a sum type.
pub open spec fn spec_generator_impl(s: TypeSchemaView) -> GeneratorImplView
    recommends
        !(s.kind is Unsupported),
        s.wf(),
{
    GeneratorImplView {
        ty_name: s.name,
        generics: spec_constrain_generics(s.generics),
        self_args: spec_self_args(s.generics),
        body: if s.kind is Product {
            GenBodyView::Single(spec_variant_expr(spec_self_ctor(s.name), s.variants[0].fields))
        } else {
            spec_dispatch(s.name, s.variants)
        },
    }
}

/// The whole output unit of a successful synthesis.
pub open spec fn spec_output_unit(s: TypeSchemaView) -> OutputUnitView {
    OutputUnitView {
        module_name: spec_module_name(s.name),
        smoke: spec_smoke_test(s.name, s.generics),
        imp: spec_generator_impl(s),
    }
}

/// What assembly yields for a schema: the output unit for a product or
/// non-empty sum schema, and a location-anchored diagnostic for an
/// unsupported kind or an empty variant list.
pub open spec fn spec_assemble(s: TypeSchemaView) -> Result<OutputUnitView, SynthesisErrorView> {
    if s.kind is Unsupported {
        Err(spec_unsupported_error(s.loc))
    } else if s.kind is Sum && s.variants.len() == 0 {
        Err(spec_empty_variants_error(s.loc))
    } else {
        Ok(spec_output_unit(s))
    }
}

/// What synthesis yields for a raw declaration: extraction followed by
/// assembly.
pub open spec fn spec_synthesize(d: DeclView) -> Result<OutputUnitView, SynthesisErrorView> {
    spec_assemble(spec_extract(d))
}

/// Assemble one schema into one output unit, or fail with the first
/// diagnostic encountered; no partial output is emitted.
pub fn assemble(s: TypeSchema) -> (r: Result<OutputUnit, SynthesisError>)
    requires
        s@.wf(),
    ensures
        r is Ok <==> spec_assemble(s@) is Ok,
        r matches Ok(u) ==> (spec_assemble(s@) matches Ok(su) && u@ == su),
        r matches Err(e) ==> (spec_assemble(s@) matches Err(se) && e@ == se),
{
    match s.kind {
        SchemaKind::Unsupported => Err(
            SynthesisError {
                message: String::from_str("this kind of type declaration is not yet supported"),
                loc: s.loc,
            },
        ),
        SchemaKind::Product => {
            let body = GenBody::Single(
                synth_variant_expr(self_ctor(&s.name), &s.variants[0].fields),
            );
            Ok(
                OutputUnit {
                    module_name: module_name(&s.name),
                    smoke: synth_smoke_test(&s.name, &s.generics),
                    imp: GeneratorImpl {
                        ty_name: s.name.clone(),
                        generics: constrain_generics(&s.generics),
                        self_args: self_args(&s.generics),
                        body,
                    },
                },
            )
        },
        SchemaKind::Sum => {
            match synth_dispatch(&s.name, &s.variants, s.loc) {
                Err(e) => Err(e),
                Ok(body) => Ok(
                    OutputUnit {
                        module_name: module_name(&s.name),
                        smoke: synth_smoke_test(&s.name, &s.generics),
                        imp: GeneratorImpl {
                            ty_name: s.name.clone(),
                            generics: constrain_generics(&s.generics),
                            self_args: self_args(&s.generics),
                            body,
                        },
                    },
                ),
            }
        },
    }
}

/// Synthesize the generation-capability implementation and its smoke test
/// for one raw type declaration, or fail with a diagnostic anchored at the
/// declaration. Synthesis is a pure, total function of the declaration:
/// it succeeds exactly on product declarations and sum declarations with
/// at least one case.
pub fn synthesize(d: Decl) -> (r: Result<OutputUnit, SynthesisError>)
    ensures
        r is Ok <==> spec_synthesize(d@) is Ok,
        r matches Ok(u) ==> (spec_synthesize(d@) matches Ok(su) && u@ == su),
        r matches Err(e) ==> (spec_synthesize(d@) matches Err(se) && e@ == se),
{
    let s = extract(d);
    assemble(s)
}

/// Synthesis succeeds on every supported schema: every product schema and
/// every sum schema with at least one variant assembles into an output
/// unit.
pub proof fn lemma_synthesis_total_on_supported(s: TypeSchemaView)
    requires
        s.kind is Product || (s.kind is Sum && s.variants.len() >= 1),
    ensures
        spec_assemble(s) is Ok,
{
}

/// Synthesis fails on every unsupported schema: an unsupported declaration
/// kind or an empty variant list always yields a diagnostic anchored at
/// the declaration's own location.
pub proof fn lemma_synthesis_fails_on_unsupported(s: TypeSchemaView)
    requires
        s.kind is Unsupported || (s.kind is Sum && s.variants.len() == 0),
    ensures
        spec_assemble(s) matches Err(e) && e.loc == s.loc,
{
}

} // verus!
