//! The schema extractor: converts a raw type declaration into the internal
//! schema representation, dispatching on the declaration kind.

use vstd::prelude::*;

use crate::schema::{
    Decl, DeclBody, DeclBodyView, DeclView, SchemaKind, TypeSchema, TypeSchemaView, Variant,
    VariantView,
};

verus! {

/// What extraction yields for a declaration: a product declaration gets one
/// implicit variant carrying its own fields, a sum declaration one variant
/// per declared case, and any other declaration kind an unsupported schema
/// with no variants.
pub open spec fn spec_extract(d: DeclView) -> TypeSchemaView {
    match d.body {
        DeclBodyView::Struct(fields) => TypeSchemaView {
            name: d.name,
            kind: SchemaKind::Product,
            generics: d.generics,
            variants: seq![VariantView { name: d.name, fields }],
            loc: d.loc,
        },
        DeclBodyView::Enum(vs) => TypeSchemaView {
            name: d.name,
            kind: SchemaKind::Sum,
            generics: d.generics,
            variants: vs,
            loc: d.loc,
        },
        DeclBodyView::Union(_) => TypeSchemaView {
            name: d.name,
            kind: SchemaKind::Unsupported,
            generics: d.generics,
            variants: Seq::empty(),
            loc: d.loc,
        },
    }
}

/// Convert a raw type declaration into its schema. The declaration is
/// consumed: a schema is built once per declaration and discarded after one
/// synthesis pass.
pub fn extract(d: Decl) -> (s: TypeSchema)
    ensures
        s@ == spec_extract(d@),
        s@.wf(),
{
    let Decl { name, generics, body, loc } = d;
    match body {
        DeclBody::Struct(fields) => {
            let variant_name = name.clone();
            let s = TypeSchema {
                name,
                kind: SchemaKind::Product,
                generics,
                variants: vec![Variant { name: variant_name, fields }],
                loc,
            };
            proof {
                assert(s@.variants =~= spec_extract(d@).variants);
                assert(s@.generics =~= spec_extract(d@).generics);
            }
            s
        },
        DeclBody::Enum(vs) => {
            let s = TypeSchema {
                name,
                kind: SchemaKind::Sum,
                generics,
                variants: vs,
                loc,
            };
            proof {
                assert(s@.variants =~= spec_extract(d@).variants);
                assert(s@.generics =~= spec_extract(d@).generics);
            }
            s
        },
        DeclBody::Union(_) => {
            let s = TypeSchema {
                name,
                kind: SchemaKind::Unsupported,
                generics,
                variants: Vec::new(),
                loc,
            };
            proof {
                assert(s@.variants =~= spec_extract(d@).variants);
                assert(s@.generics =~= spec_extract(d@).generics);
            }
            s
        },
    }
}

} // verus!
