//! The generic constraint propagator: every type parameter of the
//! declaration gets the generation-capability bound appended to its
//! existing bounds, while lifetime and const parameters pass through
//! unchanged; and the matching self-type argument list is derived from the
//! same parameters, positionally and in kind.

use vstd::prelude::*;
use vstd::string::StringExecFns;

use crate::ir::{GenericArg, GenericArgView, TestArg};
use crate::schema::{clone_strings, GenericParam, GenericParamView};

verus! {

/// The generation-capability bound appended to every type parameter.
pub open spec fn arbitrary_bound() -> Seq<char> {
    "::quickcheck::Arbitrary"@
}

/// Build the generation-capability bound's text.
pub fn arbitrary_bound_text() -> (s: String)
    ensures
        s@ == arbitrary_bound(),
{
    String::from_str("::quickcheck::Arbitrary")
}

/// What constraint propagation does to one parameter: a type parameter
/// keeps its existing bounds, in order, and gains the
/// generation-capability bound after them; any other parameter is copied
/// unchanged.
pub open spec fn spec_constrain_param(p: GenericParamView) -> GenericParamView {
    match p {
        GenericParamView::TypeParam { name, bounds } => GenericParamView::TypeParam {
            name,
            bounds: bounds.push(arbitrary_bound()),
        },
        GenericParamView::LifetimeParam { name } => GenericParamView::LifetimeParam { name },
        GenericParamView::ConstParam { name, ty } => GenericParamView::ConstParam { name, ty },
    }
}

/// Constraint propagation over a whole parameter list, preserving order.
pub open spec fn spec_constrain_generics(ps: Seq<GenericParamView>) -> Seq<GenericParamView> {
    ps.map_values(|p: GenericParamView| spec_constrain_param(p))
}

/// Append the generation-capability bound to every type parameter,
/// preserving existing bounds and parameter order.
#[verifier::loop_isolation(false)]
pub fn constrain_generics(ps: &Vec<GenericParam>) -> (out: Vec<GenericParam>)
    ensures
        out.deep_view() == spec_constrain_generics(ps.deep_view()),
{
    let mut out: Vec<GenericParam> = Vec::new();
    let n = ps.len();
    for i in 0..n
        invariant
            n == ps.len(),
            out.deep_view() =~= spec_constrain_generics(ps.deep_view().take(i as int)),
    {
        let ghost prev_raw = out@;
        let constrained = match &ps[i] {
            GenericParam::TypeParam { name, bounds } => {
                let mut new_bounds = clone_strings(bounds);
                new_bounds.push(arbitrary_bound_text());
                proof {
                    assert(new_bounds.deep_view() =~= bounds.deep_view().push(arbitrary_bound()));
                }
                GenericParam::TypeParam { name: name.clone(), bounds: new_bounds }
            },
            GenericParam::LifetimeParam { name } => GenericParam::LifetimeParam {
                name: name.clone(),
            },
            GenericParam::ConstParam { name, ty } => GenericParam::ConstParam {
                name: name.clone(),
                ty: ty.clone(),
            },
        };
        assert(constrained@ == spec_constrain_param(ps.deep_view()[i as int]));
        out.push(constrained);
        proof {
            assert forall|j: int| 0 <= j < i + 1 implies out.deep_view()[j]
                == spec_constrain_generics(ps.deep_view().take(i + 1))[j] by {
                assert(out.deep_view()[j] == out@[j].deep_view());
                assert(ps.deep_view().take(i + 1)[j] == ps.deep_view()[j]);
                if j < i {
                    assert(out@[j] == prev_raw[j]);
                    assert(prev_raw[j].deep_view() == spec_constrain_generics(
                        ps.deep_view().take(i as int),
                    )[j]);
                }
            }
            assert(out.deep_view() =~= spec_constrain_generics(ps.deep_view().take(i + 1)));
        }
    }
    proof {
        assert(ps.deep_view().take(ps.deep_view().len() as int) =~= ps.deep_view());
    }
    out
}

/// The self-type argument a parameter turns into: its bare name, in the
/// parameter's kind.
pub open spec fn spec_param_to_arg(p: GenericParamView) -> GenericArgView {
    match p {
        GenericParamView::TypeParam { name, .. } => GenericArgView::TypeArg(name),
        GenericParamView::LifetimeParam { name } => GenericArgView::LifetimeArg(name),
        GenericParamView::ConstParam { name, .. } => GenericArgView::ConstArg(name),
    }
}

/// The whole self-type argument list: one argument per parameter, in
/// declaration order.
pub open spec fn spec_self_args(ps: Seq<GenericParamView>) -> Seq<GenericArgView> {
    ps.map_values(|p: GenericParamView| spec_param_to_arg(p))
}

/// Turn one generic parameter into the matching self-type argument.
pub fn param_to_arg(p: &GenericParam) -> (a: GenericArg)
    ensures
        a@ == spec_param_to_arg(p@),
{
    match p {
        GenericParam::TypeParam { name, .. } => GenericArg::TypeArg(name.clone()),
        GenericParam::LifetimeParam { name } => GenericArg::LifetimeArg(name.clone()),
        GenericParam::ConstParam { name, .. } => GenericArg::ConstArg(name.clone()),
    }
}

/// Derive the self-type argument list from the declaration's parameters.
#[verifier::loop_isolation(false)]
pub fn self_args(ps: &Vec<GenericParam>) -> (out: Vec<GenericArg>)
    ensures
        out.deep_view() == spec_self_args(ps.deep_view()),
{
    let mut out: Vec<GenericArg> = Vec::new();
    let n = ps.len();
    for i in 0..n
        invariant
            n == ps.len(),
            out.deep_view() =~= spec_self_args(ps.deep_view().take(i as int)),
    {
        let ghost prev_raw = out@;
        let a = param_to_arg(&ps[i]);
        out.push(a);
        proof {
            assert forall|j: int| 0 <= j < i + 1 implies out.deep_view()[j] == spec_self_args(
                ps.deep_view().take(i + 1),
            )[j] by {
                assert(out.deep_view()[j] == out@[j].deep_view());
                assert(ps.deep_view().take(i + 1)[j] == ps.deep_view()[j]);
                if j < i {
                    assert(out@[j] == prev_raw[j]);
                    assert(prev_raw[j].deep_view() == spec_self_args(
                        ps.deep_view().take(i as int),
                    )[j]);
                }
            }
            assert(out.deep_view() =~= spec_self_args(ps.deep_view().take(i + 1)));
        }
    }
    proof {
        assert(ps.deep_view().take(ps.deep_view().len() as int) =~= ps.deep_view());
    }
    out
}

/// The argument the smoke test uses for one parameter, by the parameter's
/// kind alone.
pub open spec fn spec_test_arg(p: GenericParamView) -> TestArg {
    match p {
        GenericParamView::TypeParam { .. } => TestArg::UnitType,
        GenericParamView::LifetimeParam { .. } => TestArg::StaticLifetime,
        GenericParamView::ConstParam { .. } => TestArg::ZeroConst,
    }
}

/// The smoke test's whole argument list: one argument per parameter, in
/// declaration order.
pub open spec fn spec_test_args(ps: Seq<GenericParamView>) -> Seq<TestArg> {
    ps.map_values(|p: GenericParamView| spec_test_arg(p))
}

/// Derive the smoke test's argument list from the declaration's parameters.
#[verifier::loop_isolation(false)]
pub fn test_args(ps: &Vec<GenericParam>) -> (out: Vec<TestArg>)
    ensures
        out.deep_view() == spec_test_args(ps.deep_view()),
{
    let mut out: Vec<TestArg> = Vec::new();
    let n = ps.len();
    for i in 0..n
        invariant
            n == ps.len(),
            out.deep_view() =~= spec_test_args(ps.deep_view().take(i as int)),
    {
        let ghost prev_raw = out@;
        let a = match &ps[i] {
            GenericParam::TypeParam { .. } => TestArg::UnitType,
            GenericParam::LifetimeParam { .. } => TestArg::StaticLifetime,
            GenericParam::ConstParam { .. } => TestArg::ZeroConst,
        };
        out.push(a);
        proof {
            assert forall|j: int| 0 <= j < i + 1 implies out.deep_view()[j] == spec_test_args(
                ps.deep_view().take(i + 1),
            )[j] by {
                assert(out.deep_view()[j] == out@[j].deep_view());
                assert(ps.deep_view().take(i + 1)[j] == ps.deep_view()[j]);
                if j < i {
                    assert(out@[j] == prev_raw[j]);
                    assert(prev_raw[j].deep_view() == spec_test_args(
                        ps.deep_view().take(i as int),
                    )[j]);
                }
            }
            assert(out.deep_view() =~= spec_test_args(ps.deep_view().take(i + 1)));
        }
    }
    proof {
        assert(ps.deep_view().take(ps.deep_view().len() as int) =~= ps.deep_view());
    }
    out
}

} // verus!
