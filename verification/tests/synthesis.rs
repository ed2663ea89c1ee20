use derive_quickcheck::ir::{GenBody, GenericArg, OutputUnit, TestArg, VariantExpr};
use derive_quickcheck::schema::{
    Decl, DeclBody, FieldList, GenericParam, Loc, NamedField, Variant,
};
use derive_quickcheck::synth::synthesize;

fn loc() -> Loc {
    Loc { line: 3, col: 7 }
}

fn named(name: &str, ty: &str) -> NamedField {
    NamedField { name: name.to_string(), ty: ty.to_string() }
}

fn variant(name: &str, fields: FieldList) -> Variant {
    Variant { name: name.to_string(), fields }
}

fn unnamed_tys(tys: &[&str]) -> FieldList {
    FieldList::Unnamed(tys.iter().map(|t| t.to_string()).collect())
}

fn struct_decl(name: &str, generics: Vec<GenericParam>, fields: FieldList) -> Decl {
    Decl { name: name.to_string(), generics, body: DeclBody::Struct(fields), loc: loc() }
}

fn enum_decl(name: &str, variants: Vec<Variant>) -> Decl {
    Decl { name: name.to_string(), generics: Vec::new(), body: DeclBody::Enum(variants), loc: loc() }
}

fn tier_names(tier: &[VariantExpr]) -> Vec<String> {
    tier.iter()
        .map(|e| match e {
            VariantExpr::Unit { ctor } => ctor.variant.clone().unwrap(),
            VariantExpr::Unnamed { ctor, .. } => ctor.variant.clone().unwrap(),
            VariantExpr::Named { ctor, .. } => ctor.variant.clone().unwrap(),
        })
        .collect()
}

fn synthesize_ok(d: Decl) -> OutputUnit {
    match synthesize(d) {
        Ok(u) => u,
        Err(e) => panic!("synthesis failed: {}", e.message),
    }
}

#[test]
fn product_named_fields_builds_single_variant() {
    let fields = FieldList::Named(vec![named("a", "A"), named("b", "B"), named("c", "C")]);
    let unit = synthesize_ok(struct_decl("MyPoint", Vec::new(), fields));
    assert_eq!(unit.module_name, "my_point_derive_quickcheck");
    assert_eq!(unit.imp.ty_name, "MyPoint");
    assert_eq!(unit.smoke.fn_name, "prop_doesnt_panic");
    assert_eq!(unit.smoke.ty_name, "MyPoint");
    match unit.imp.body {
        GenBody::Single(VariantExpr::Named { ctor, decrement, fields }) => {
            assert_eq!(ctor.ty_name, "MyPoint");
            assert!(ctor.variant.is_none());
            assert_eq!(decrement, 3);
            let names: Vec<&str> = fields.iter().map(|f| f.name.as_str()).collect();
            assert_eq!(names, ["a", "b", "c"]);
            let tys: Vec<&str> = fields.iter().map(|f| f.ty.as_str()).collect();
            assert_eq!(tys, ["A", "B", "C"]);
        },
        _ => panic!("expected a single named-variant body"),
    }
}

#[test]
fn unit_struct_builds_bare_constructor() {
    let unit = synthesize_ok(struct_decl("Nothing", Vec::new(), FieldList::Unit));
    assert_eq!(unit.module_name, "nothing_derive_quickcheck");
    match unit.imp.body {
        GenBody::Single(VariantExpr::Unit { ctor }) => {
            assert_eq!(ctor.ty_name, "Nothing");
            assert!(ctor.variant.is_none());
        },
        _ => panic!("expected a bare constructor body"),
    }
}

#[test]
fn tuple_struct_keeps_field_order() {
    let unit = synthesize_ok(struct_decl("Trio", Vec::new(), unnamed_tys(&["A", "B", "C"])));
    match unit.imp.body {
        GenBody::Single(VariantExpr::Unnamed { decrement, field_tys, .. }) => {
            assert_eq!(decrement, 3);
            assert_eq!(field_tys, ["A", "B", "C"]);
        },
        _ => panic!("expected a positional body"),
    }
}

#[test]
fn empty_enum_fails_with_location() {
    let e = synthesize(enum_decl("Never", Vec::new())).unwrap_err();
    assert_eq!(e.message, "Need at least one variant to instantiate the value");
    assert_eq!(e.loc, loc());
}

#[test]
fn union_fails_with_location() {
    let d = Decl {
        name: "Raw".to_string(),
        generics: Vec::new(),
        body: DeclBody::Union(vec![named("bits", "u32")]),
        loc: loc(),
    };
    let e = synthesize(d).unwrap_err();
    assert_eq!(e.message, "this kind of type declaration is not yet supported");
    assert_eq!(e.loc, loc());
}

#[test]
fn enum_tiers_follow_arity() {
    let d = enum_decl(
        "Mixed",
        vec![
            variant("A", FieldList::Unit),
            variant("B", unnamed_tys(&["u8"])),
            variant("C", unnamed_tys(&["u8", "u8", "u8"])),
        ],
    );
    let unit = synthesize_ok(d);
    match unit.imp.body {
        GenBody::Dispatch { tiers, catch_all } => {
            assert_eq!(tiers.len(), 3);
            assert_eq!(tier_names(&tiers[0]), ["A"]);
            assert_eq!(tier_names(&tiers[1]), ["A", "B"]);
            assert_eq!(tier_names(&tiers[2]), ["A", "B"]);
            assert_eq!(tier_names(&catch_all), ["A", "B", "C"]);
        },
        _ => panic!("expected a budget dispatch"),
    }
}

#[test]
fn all_zero_arity_enum_has_only_catch_all() {
    let d = enum_decl(
        "Plain",
        vec![
            variant("First", FieldList::Unit),
            variant("Second", FieldList::Unit),
            variant("Third", FieldList::Unit),
        ],
    );
    let unit = synthesize_ok(d);
    match unit.imp.body {
        GenBody::Dispatch { tiers, catch_all } => {
            assert_eq!(tiers.len(), 0);
            assert_eq!(tier_names(&catch_all), ["First", "Second", "Third"]);
        },
        _ => panic!("expected a budget dispatch"),
    }
}

#[test]
fn linked_list_enum_offers_base_case_at_zero() {
    let d = enum_decl(
        "LinkedList",
        vec![variant("End", FieldList::Unit), variant("More", unnamed_tys(&["Self"]))],
    );
    let unit = synthesize_ok(d);
    assert_eq!(unit.module_name, "linked_list_derive_quickcheck");
    match unit.imp.body {
        GenBody::Dispatch { tiers, catch_all } => {
            assert_eq!(tiers.len(), 1);
            assert_eq!(tier_names(&tiers[0]), ["End"]);
            assert_eq!(tier_names(&catch_all), ["End", "More"]);
        },
        _ => panic!("expected a budget dispatch"),
    }
}

#[test]
fn generics_gain_generation_bound() {
    let generics = vec![
        GenericParam::TypeParam {
            name: "T".to_string(),
            bounds: vec!["Clone".to_string()],
        },
        GenericParam::LifetimeParam { name: "'a".to_string() },
        GenericParam::ConstParam { name: "N".to_string(), ty: "usize".to_string() },
    ];
    let unit = synthesize_ok(struct_decl("Holder", generics, unnamed_tys(&["T"])));
    assert_eq!(unit.imp.generics.len(), 3);
    match &unit.imp.generics[0] {
        GenericParam::TypeParam { name, bounds } => {
            assert_eq!(name, "T");
            assert_eq!(bounds, &["Clone", "::quickcheck::Arbitrary"]);
        },
        _ => panic!("expected a type parameter first"),
    }
    match &unit.imp.generics[1] {
        GenericParam::LifetimeParam { name } => assert_eq!(name, "'a"),
        _ => panic!("expected a lifetime parameter second"),
    }
    match &unit.imp.generics[2] {
        GenericParam::ConstParam { name, ty } => {
            assert_eq!(name, "N");
            assert_eq!(ty, "usize");
        },
        _ => panic!("expected a const parameter third"),
    }
    match &unit.imp.self_args[..] {
        [GenericArg::TypeArg(t), GenericArg::LifetimeArg(l), GenericArg::ConstArg(c)] => {
            assert_eq!(t, "T");
            assert_eq!(l, "'a");
            assert_eq!(c, "N");
        },
        _ => panic!("self arguments must match the parameters positionally and in kind"),
    }
    assert_eq!(
        unit.smoke.type_args,
        vec![TestArg::UnitType, TestArg::StaticLifetime, TestArg::ZeroConst]
    );
}

#[test]
fn module_name_is_snake_cased() {
    assert_eq!(
        derive_quickcheck::names::module_name(&"HTTPServer".to_string()),
        "http_server_derive_quickcheck"
    );
}
