//! The structural description of a type declaration: its kind (product,
//! sum, or unsupported), its generic parameters, and its fields or variants.

use vstd::prelude::*;

verus! {

/// Position of a declaration in the host source text, used to anchor
/// synthesis diagnostics at the offending construct.
#[derive(Clone, Copy, PartialEq, Eq, Structural, Debug)]
pub struct Loc {
    pub line: usize,
    pub col: usize,
}

/// The kind of a type declaration, as a closed tagged variant: every
/// dispatch over it is an exhaustive match.
#[derive(Clone, Copy, PartialEq, Eq, Structural, Debug)]
pub enum SchemaKind {
    /// A type with exactly one implicit variant carrying its own fields.
    Product,
    /// A type with zero or more explicitly tagged variants.
    Sum,
    /// Any other declaration kind; synthesis fails for it by design.
    Unsupported,
}

/// One named field of a variant: the field's name and the source text of
/// its declared type.
#[derive(Debug)]
pub struct NamedField {
    pub name: String,
    pub ty: String,
}

/// Mathematical counterpart of [`NamedField`].
pub struct NamedFieldView {
    pub name: Seq<char>,
    pub ty: Seq<char>,
}

impl View for NamedField {
    type V = NamedFieldView;

    open spec fn view(&self) -> NamedFieldView {
        NamedFieldView { name: self.name@, ty: self.ty@ }
    }
}

impl DeepView for NamedField {
    type V = NamedFieldView;

    open spec fn deep_view(&self) -> NamedFieldView {
        self@
    }
}

/// The field list of one variant: no fields, positional fields given by
/// their types, or named fields.
#[derive(Debug)]
pub enum FieldList {
    Unit,
    Unnamed(Vec<String>),
    Named(Vec<NamedField>),
}

/// Mathematical counterpart of [`FieldList`].
pub enum FieldsView {
    Unit,
    Unnamed(Seq<Seq<char>>),
    Named(Seq<NamedFieldView>),
}

impl View for FieldList {
    type V = FieldsView;

    open spec fn view(&self) -> FieldsView {
        match self {
            FieldList::Unit => FieldsView::Unit,
            FieldList::Unnamed(tys) => FieldsView::Unnamed(tys.deep_view()),
            FieldList::Named(fs) => FieldsView::Named(fs.deep_view()),
        }
    }
}

impl DeepView for FieldList {
    type V = FieldsView;

    open spec fn deep_view(&self) -> FieldsView {
        self@
    }
}

impl FieldsView {
    /// The arity of a field list: how many fields it declares.
    pub open spec fn arity(self) -> nat {
        match self {
            FieldsView::Unit => 0,
            FieldsView::Unnamed(tys) => tys.len(),
            FieldsView::Named(fs) => fs.len(),
        }
    }

    /// The declared types of the fields, in declaration order.
    pub open spec fn field_tys(self) -> Seq<Seq<char>> {
        match self {
            FieldsView::Unit => Seq::empty(),
            FieldsView::Unnamed(tys) => tys,
            FieldsView::Named(fs) => Seq::new(fs.len(), |i: int| fs[i].ty),
        }
    }
}

impl FieldList {
    /// The arity of this field list.
    pub fn arity(&self) -> (n: usize)
        ensures
            n == self@.arity(),
    {
        match self {
            FieldList::Unit => 0,
            FieldList::Unnamed(tys) => tys.len(),
            FieldList::Named(fs) => fs.len(),
        }
    }

    /// The declared types of the fields, in declaration order.
    #[verifier::loop_isolation(false)]
    pub fn tys(&self) -> (r: Vec<String>)
        ensures
            r.deep_view() == self@.field_tys(),
    {
        match self {
            FieldList::Unit => Vec::new(),
            FieldList::Unnamed(tys) => clone_strings(tys),
            FieldList::Named(fs) => {
                let mut r: Vec<String> = Vec::new();
                let n = fs.len();
                for i in 0..n
                    invariant
                        n == fs.len(),
                        r.deep_view() =~= self@.field_tys().take(i as int),
                {
                    let ghost prev_raw = r@;
                    r.push(fs[i].ty.clone());
                    proof {
                        assert forall|j: int| 0 <= j < i + 1 implies r.deep_view()[j]
                            == self@.field_tys().take(i + 1)[j] by {
                            assert(r.deep_view()[j] == r@[j]@);
                            if j < i {
                                assert(r@[j] == prev_raw[j]);
                                assert(prev_raw[j]@ == self@.field_tys().take(i as int)[j]);
                            }
                        }
                        assert(r.deep_view() =~= self@.field_tys().take(i + 1));
                    }
                }
                proof {
                    assert(self@.field_tys().take(self@.field_tys().len() as int)
                        =~= self@.field_tys());
                }
                r
            },
        }
    }
}

/// One labeled case of a sum-typed schema, with an arity equal to its
/// field count.
#[derive(Debug)]
pub struct Variant {
    pub name: String,
    pub fields: FieldList,
}

/// Mathematical counterpart of [`Variant`].
pub struct VariantView {
    pub name: Seq<char>,
    pub fields: FieldsView,
}

impl View for Variant {
    type V = VariantView;

    open spec fn view(&self) -> VariantView {
        VariantView { name: self.name@, fields: self.fields@ }
    }
}

impl DeepView for Variant {
    type V = VariantView;

    open spec fn deep_view(&self) -> VariantView {
        self@
    }
}

impl VariantView {
    /// The variant's arity, used by the budget allocator.
    pub open spec fn arity(self) -> nat {
        self.fields.arity()
    }
}

/// One generic parameter of a declaration. Only type parameters receive the
/// generation-capability bound; the others pass through synthesis unchanged.
#[derive(Debug)]
pub enum GenericParam {
    TypeParam { name: String, bounds: Vec<String> },
    LifetimeParam { name: String },
    ConstParam { name: String, ty: String },
}

/// Mathematical counterpart of [`GenericParam`].
pub enum GenericParamView {
    TypeParam { name: Seq<char>, bounds: Seq<Seq<char>> },
    LifetimeParam { name: Seq<char> },
    ConstParam { name: Seq<char>, ty: Seq<char> },
}

impl View for GenericParam {
    type V = GenericParamView;

    open spec fn view(&self) -> GenericParamView {
        match self {
            GenericParam::TypeParam { name, bounds } => GenericParamView::TypeParam {
                name: name@,
                bounds: bounds.deep_view(),
            },
            GenericParam::LifetimeParam { name } => GenericParamView::LifetimeParam {
                name: name@,
            },
            GenericParam::ConstParam { name, ty } => GenericParamView::ConstParam {
                name: name@,
                ty: ty@,
            },
        }
    }
}

impl DeepView for GenericParam {
    type V = GenericParamView;

    open spec fn deep_view(&self) -> GenericParamView {
        self@
    }
}

/// The structural description extracted from one type declaration,
/// constructed once per declaration and consumed within one synthesis pass.
#[derive(Debug)]
pub struct TypeSchema {
    pub name: String,
    pub kind: SchemaKind,
    pub generics: Vec<GenericParam>,
    pub variants: Vec<Variant>,
    pub loc: Loc,
}

/// Mathematical counterpart of [`TypeSchema`].
pub struct TypeSchemaView {
    pub name: Seq<char>,
    pub kind: SchemaKind,
    pub generics: Seq<GenericParamView>,
    pub variants: Seq<VariantView>,
    pub loc: Loc,
}

impl View for TypeSchema {
    type V = TypeSchemaView;

    open spec fn view(&self) -> TypeSchemaView {
        TypeSchemaView {
            name: self.name@,
            kind: self.kind,
            generics: self.generics.deep_view(),
            variants: self.variants.deep_view(),
            loc: self.loc,
        }
    }
}

impl TypeSchemaView {
    /// A product schema has exactly one implicit variant carrying the
    /// type's own fields.
    pub open spec fn wf(self) -> bool {
        self.kind is Product ==> self.variants.len() == 1
    }
}

/// The body of a raw type declaration in the host syntax: the declared
/// fields of a product declaration, the cases of a sum declaration, or a
/// declaration kind that synthesis does not support.
#[derive(Debug)]
pub enum DeclBody {
    Struct(FieldList),
    Enum(Vec<Variant>),
    Union(Vec<NamedField>),
}

/// Mathematical counterpart of [`DeclBody`].
pub enum DeclBodyView {
    Struct(FieldsView),
    Enum(Seq<VariantView>),
    Union(Seq<NamedFieldView>),
}

impl View for DeclBody {
    type V = DeclBodyView;

    open spec fn view(&self) -> DeclBodyView {
        match self {
            DeclBody::Struct(fields) => DeclBodyView::Struct(fields@),
            DeclBody::Enum(vs) => DeclBodyView::Enum(vs.deep_view()),
            DeclBody::Union(fs) => DeclBodyView::Union(fs.deep_view()),
        }
    }
}

/// One raw type declaration: its name, its generic parameter list, its
/// body, and the source location of its distinguishing keyword.
#[derive(Debug)]
pub struct Decl {
    pub name: String,
    pub generics: Vec<GenericParam>,
    pub body: DeclBody,
    pub loc: Loc,
}

/// Mathematical counterpart of [`Decl`].
pub struct DeclView {
    pub name: Seq<char>,
    pub generics: Seq<GenericParamView>,
    pub body: DeclBodyView,
    pub loc: Loc,
}

impl View for Decl {
    type V = DeclView;

    open spec fn view(&self) -> DeclView {
        DeclView {
            name: self.name@,
            generics: self.generics.deep_view(),
            body: self.body@,
            loc: self.loc,
        }
    }
}

/// Copy a list of strings; the copy holds equal strings in the same order.
pub fn clone_strings(v: &Vec<String>) -> (r: Vec<String>)
    ensures
        r@ == v@,
        r.deep_view() == v.deep_view(),
{
    let mut r: Vec<String> = Vec::new();
    let n = v.len();
    for i in 0..n
        invariant
            n == v.len(),
            r@ =~= v@.take(i as int),
    {
        r.push(v[i].clone());
        proof {
            assert(r@ =~= v@.take(i + 1));
        }
    }
    proof {
        assert(r@ =~= v@);
    }
    r
}

/// Copy a list of named fields; the copy denotes the same fields.
pub fn clone_named_fields(v: &Vec<NamedField>) -> (r: Vec<NamedField>)
    ensures
        r@ == v@,
        r.deep_view() == v.deep_view(),
{
    let mut r: Vec<NamedField> = Vec::new();
    let n = v.len();
    for i in 0..n
        invariant
            n == v.len(),
            r@ =~= v@.take(i as int),
    {
        r.push(NamedField { name: v[i].name.clone(), ty: v[i].ty.clone() });
        proof {
            assert(r@ =~= v@.take(i + 1));
        }
    }
    proof {
        assert(r@ =~= v@);
    }
    r
}

} // verus!
