//! The intermediate representation of a synthesized generator: an abstract
//! "call one generator per field, combine the results" tree, kept separate
//! from any concrete output syntax so that the synthesis logic stands on
//! its own. An external emission library lowers this representation to
//! host source text.

use vstd::prelude::*;

use crate::schema::{GenericParam, GenericParamView, Loc, NamedField, NamedFieldView};

verus! {

/// The constructor a variant expression applies: the type itself for the
/// implicit variant of a product type, or a named case of a sum type.
#[derive(Debug)]
pub struct CtorPath {
    pub ty_name: String,
    pub variant: Option<String>,
}

/// Mathematical counterpart of [`CtorPath`].
pub struct CtorPathView {
    pub ty_name: Seq<char>,
    pub variant: Option<Seq<char>>,
}

impl View for CtorPath {
    type V = CtorPathView;

    open spec fn view(&self) -> CtorPathView {
        CtorPathView {
            ty_name: self.ty_name@,
            variant: match self.variant {
                Option::Some(ref v) => Option::Some(v@),
                Option::None => Option::None,
            },
        }
    }
}

impl DeepView for CtorPath {
    type V = CtorPathView;

    open spec fn deep_view(&self) -> CtorPathView {
        self@
    }
}

/// The expression that builds one variant's value: for a unit variant a
/// bare reference to the constructor; otherwise a block that first scopes
/// the randomness source to the reduced budget `max(0, b - decrement)` and
/// then invokes one recursive generation call per field, in declaration
/// order, assembling the results positionally or by field name.
#[derive(Debug)]
pub enum VariantExpr {
    Unit { ctor: CtorPath },
    Unnamed { ctor: CtorPath, decrement: usize, field_tys: Vec<String> },
    Named { ctor: CtorPath, decrement: usize, fields: Vec<NamedField> },
}

/// Mathematical counterpart of [`VariantExpr`].
pub enum VariantExprView {
    Unit { ctor: CtorPathView },
    Unnamed { ctor: CtorPathView, decrement: nat, field_tys: Seq<Seq<char>> },
    Named { ctor: CtorPathView, decrement: nat, fields: Seq<NamedFieldView> },
}

impl View for VariantExpr {
    type V = VariantExprView;

    open spec fn view(&self) -> VariantExprView {
        match self {
            VariantExpr::Unit { ctor } => VariantExprView::Unit { ctor: ctor@ },
            VariantExpr::Unnamed { ctor, decrement, field_tys } => VariantExprView::Unnamed {
                ctor: ctor@,
                decrement: *decrement as nat,
                field_tys: field_tys.deep_view(),
            },
            VariantExpr::Named { ctor, decrement, fields } => VariantExprView::Named {
                ctor: ctor@,
                decrement: *decrement as nat,
                fields: fields.deep_view(),
            },
        }
    }
}

impl DeepView for VariantExpr {
    type V = VariantExprView;

    open spec fn deep_view(&self) -> VariantExprView {
        self@
    }
}

/// The body of a synthesized generator. A product type builds its single
/// implicit variant with no choice. A sum type branches on the current
/// budget `b`: tier `t` (for `b == t`) offers the variants eligible at
/// budget `t`, and the final catch-all tier (for `b >= tiers.len()`) offers
/// every variant; the generated code picks uniformly at random within the
/// offered tier.
#[derive(Debug)]
pub enum GenBody {
    Single(VariantExpr),
    Dispatch { tiers: Vec<Vec<VariantExpr>>, catch_all: Vec<VariantExpr> },
}

/// Mathematical counterpart of [`GenBody`].
pub enum GenBodyView {
    Single(VariantExprView),
    Dispatch { tiers: Seq<Seq<VariantExprView>>, catch_all: Seq<VariantExprView> },
}

impl View for GenBody {
    type V = GenBodyView;

    open spec fn view(&self) -> GenBodyView {
        match self {
            GenBody::Single(e) => GenBodyView::Single(e@),
            GenBody::Dispatch { tiers, catch_all } => GenBodyView::Dispatch {
                tiers: tiers.deep_view(),
                catch_all: catch_all.deep_view(),
            },
        }
    }
}

/// One argument of the self type's generic argument list, matching the
/// declaration's parameters positionally and in kind.
#[derive(Debug)]
pub enum GenericArg {
    TypeArg(String),
    LifetimeArg(String),
    ConstArg(String),
}

/// Mathematical counterpart of [`GenericArg`].
pub enum GenericArgView {
    TypeArg(Seq<char>),
    LifetimeArg(Seq<char>),
    ConstArg(Seq<char>),
}

impl View for GenericArg {
    type V = GenericArgView;

    open spec fn view(&self) -> GenericArgView {
        match self {
            GenericArg::TypeArg(name) => GenericArgView::TypeArg(name@),
            GenericArg::LifetimeArg(name) => GenericArgView::LifetimeArg(name@),
            GenericArg::ConstArg(name) => GenericArgView::ConstArg(name@),
        }
    }
}

impl DeepView for GenericArg {
    type V = GenericArgView;

    open spec fn deep_view(&self) -> GenericArgView {
        self@
    }
}

/// One argument the smoke test instantiates a generic parameter with: the
/// unit type for a type parameter, the static lifetime for a lifetime
/// parameter, and a placeholder zero value for a const parameter.
#[derive(Clone, Copy, PartialEq, Eq, Structural, Debug)]
pub enum TestArg {
    UnitType,
    StaticLifetime,
    ZeroConst,
}

impl DeepView for TestArg {
    type V = TestArg;

    open spec fn deep_view(&self) -> TestArg {
        *self
    }
}

/// The synthesized generator: the generation-capability implementation for
/// one type, with its constrained generic parameter list and the matching
/// self-type argument list.
#[derive(Debug)]
pub struct GeneratorImpl {
    pub ty_name: String,
    pub generics: Vec<GenericParam>,
    pub self_args: Vec<GenericArg>,
    pub body: GenBody,
}

/// Mathematical counterpart of [`GeneratorImpl`].
pub struct GeneratorImplView {
    pub ty_name: Seq<char>,
    pub generics: Seq<GenericParamView>,
    pub self_args: Seq<GenericArgView>,
    pub body: GenBodyView,
}

impl View for GeneratorImpl {
    type V = GeneratorImplView;

    open spec fn view(&self) -> GeneratorImplView {
        GeneratorImplView {
            ty_name: self.ty_name@,
            generics: self.generics.deep_view(),
            self_args: self.self_args.deep_view(),
            body: self.body@,
        }
    }
}

/// The auxiliary smoke test emitted beside the generator: one test function
/// that takes an instance of the annotated type (forcing one generation
/// call) and unconditionally succeeds, so that a generation-time failure
/// surfaces as a test failure.
#[derive(Debug)]
pub struct SmokeTest {
    pub fn_name: String,
    pub ty_name: String,
    pub type_args: Vec<TestArg>,
}

/// Mathematical counterpart of [`SmokeTest`].
pub struct SmokeTestView {
    pub fn_name: Seq<char>,
    pub ty_name: Seq<char>,
    pub type_args: Seq<TestArg>,
}

impl View for SmokeTest {
    type V = SmokeTestView;

    open spec fn view(&self) -> SmokeTestView {
        SmokeTestView {
            fn_name: self.fn_name@,
            ty_name: self.ty_name@,
            type_args: self.type_args.deep_view(),
        }
    }
}

/// The one output unit of a successful synthesis: a scope named after the
/// annotated type, holding the smoke test and the generator implementation.
#[derive(Debug)]
pub struct OutputUnit {
    pub module_name: String,
    pub smoke: SmokeTest,
    pub imp: GeneratorImpl,
}

/// Mathematical counterpart of [`OutputUnit`].
pub struct OutputUnitView {
    pub module_name: Seq<char>,
    pub smoke: SmokeTestView,
    pub imp: GeneratorImplView,
}

impl View for OutputUnit {
    type V = OutputUnitView;

    open spec fn view(&self) -> OutputUnitView {
        OutputUnitView {
            module_name: self.module_name@,
            smoke: self.smoke@,
            imp: self.imp@,
        }
    }
}

/// A synthesis diagnostic: a human-readable message anchored at the source
/// location of the offending construct, surfaced by the host compiler as a
/// compilation error confined to that declaration.
#[derive(Debug)]
pub struct SynthesisError {
    pub message: String,
    pub loc: Loc,
}

/// Mathematical counterpart of [`SynthesisError`].
pub struct SynthesisErrorView {
    pub message: Seq<char>,
    pub loc: Loc,
}

impl View for SynthesisError {
    type V = SynthesisErrorView;

    open spec fn view(&self) -> SynthesisErrorView {
        SynthesisErrorView { message: self.message@, loc: self.loc }
    }
}

} // verus!
