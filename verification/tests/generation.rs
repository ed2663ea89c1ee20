use derive_quickcheck::eligibility::{eligible_indices, max_arity, reduced_budget};
use derive_quickcheck::runtime::{generate, generate_node, BudgetSource, GenError, GenNode};
use derive_quickcheck::schema::{FieldList, SchemaKind, TypeSchema, Loc, Variant};

fn loc() -> Loc {
    Loc { line: 1, col: 1 }
}

fn variant(name: &str, tys: &[&str]) -> Variant {
    let fields = if tys.is_empty() {
        FieldList::Unit
    } else {
        FieldList::Unnamed(tys.iter().map(|t| t.to_string()).collect())
    };
    Variant { name: name.to_string(), fields }
}

fn product(name: &str, tys: &[&str]) -> TypeSchema {
    TypeSchema {
        name: name.to_string(),
        kind: SchemaKind::Product,
        generics: Vec::new(),
        variants: vec![variant(name, tys)],
        loc: loc(),
    }
}

fn sum(name: &str, variants: Vec<Variant>) -> TypeSchema {
    TypeSchema {
        name: name.to_string(),
        kind: SchemaKind::Sum,
        generics: Vec::new(),
        variants,
        loc: loc(),
    }
}

fn linked_list() -> TypeSchema {
    sum("LinkedList", vec![variant("End", &[]), variant("More", &["Self"])])
}

fn source(budget: usize, choices: &[usize]) -> BudgetSource {
    BudgetSource::new(budget, choices.to_vec())
}

fn generate_ok(s: &TypeSchema, src: BudgetSource) -> GenNode {
    generate(s, src).expect("generation must succeed")
}

#[test]
fn empty_product_consumes_no_randomness() {
    let s = product("Nothing", &[]);
    for budget in [0usize, 1, 7] {
        let mut src = source(budget, &[4, 2]);
        let node = generate_node(&s, budget, &mut src).expect("generation must succeed");
        assert_eq!(node.variant, 0);
        assert!(node.children.is_empty());
        assert_eq!(node.scoped_budget, budget);
        assert_eq!(src.pos, 0);
    }
}

#[test]
fn product_fields_share_one_reduced_budget() {
    let s = product("Trio", &["A", "B", "C"]);
    let node = generate_ok(&s, source(5, &[]));
    assert_eq!(node.variant, 0);
    assert_eq!(node.scoped_budget, 2);
    assert!(node.children.is_empty());
    let drained = generate_ok(&s, source(1, &[]));
    assert_eq!(drained.scoped_budget, 0);
}

#[test]
fn linked_list_at_zero_always_ends() {
    let s = linked_list();
    for choices in [&[0usize][..], &[1][..], &[9, 4][..]] {
        let node = generate_ok(&s, BudgetSource::new(0, choices.to_vec()));
        assert_eq!(node.variant, 0);
        assert!(node.children.is_empty());
    }
}

#[test]
fn linked_list_recursion_reduces_budget() {
    let s = linked_list();
    // At budget 3 both cases are eligible; the draws pick `More`, then
    // `More` again at budget 2, then `End` at budget 1.
    let node = generate_ok(&s, source(3, &[1, 1, 0]));
    assert_eq!(node.variant, 1);
    assert_eq!(node.scoped_budget, 2);
    assert_eq!(node.children.len(), 1);
    let child = &node.children[0];
    assert_eq!(child.variant, 1);
    assert_eq!(child.scoped_budget, 1);
    assert_eq!(child.children.len(), 1);
    let grandchild = &child.children[0];
    assert_eq!(grandchild.variant, 0);
    assert!(grandchild.children.is_empty());
}

#[test]
fn linked_list_depth_stays_within_budget_plus_one() {
    let s = linked_list();
    // A stream that always asks for `More` where eligible: the structure
    // still bottoms out within budget + 1 levels.
    let budget = 4;
    let mut node = generate_ok(&s, source(budget, &[1]));
    let mut depth = 1;
    while let Some(child) = node.children.into_iter().next() {
        node = child;
        depth += 1;
    }
    assert!(depth <= budget + 1);
}

#[test]
fn zero_budget_selects_uniformly_among_all_base_cases() {
    let s = sum(
        "Plain",
        vec![variant("First", &[]), variant("Second", &[]), variant("Third", &[])],
    );
    for pick in 0..3usize {
        let node = generate_ok(&s, source(0, &[pick]));
        assert_eq!(node.variant, pick);
    }
    // The draw is reduced into the eligible range.
    let node = generate_ok(&s, source(0, &[7]));
    assert_eq!(node.variant, 1);
}

#[test]
fn oversized_variant_is_never_selected() {
    let s = sum(
        "Mixed",
        vec![
            variant("A", &[]),
            variant("B", &["u8"]),
            variant("C", &["u8", "u8", "u8"]),
        ],
    );
    for c in 0..8usize {
        let node = generate_ok(&s, source(2, &[c]));
        assert!(node.variant == 0 || node.variant == 1);
    }
}

#[test]
fn no_base_case_fails_at_zero_budget() {
    let s = sum("Endless", vec![variant("More", &["Self"])]);
    let r = generate(&s, source(0, &[0]));
    assert_eq!(r.unwrap_err(), GenError::NoEligibleVariant);
    // With budget left, the one case is taken and the recursion fails
    // only when the budget runs out.
    let r = generate(&s, source(1, &[0, 0]));
    assert!(r.is_err());
}

#[test]
fn eligible_indices_follow_the_budget() {
    let vs = vec![
        variant("A", &[]),
        variant("B", &["u8"]),
        variant("C", &["u8", "u8", "u8"]),
    ];
    assert_eq!(eligible_indices(&vs, 0), [0]);
    assert_eq!(eligible_indices(&vs, 2), [0, 1]);
    assert_eq!(eligible_indices(&vs, 3), [0, 1, 2]);
    assert_eq!(max_arity(&vs), 3);
}

#[test]
fn reduced_budget_saturates_at_zero() {
    assert_eq!(reduced_budget(5, 3), 2);
    assert_eq!(reduced_budget(3, 3), 0);
    assert_eq!(reduced_budget(1, 3), 0);
    assert_eq!(reduced_budget(0, 0), 0);
}

#[test]
fn choices_wrap_around_the_stream() {
    let mut src = source(9, &[5, 7]);
    assert_eq!(src.remaining_budget(), 9);
    assert_eq!(src.choose_uniformly(3), 2);  // 5 % 3
    assert_eq!(src.choose_uniformly(3), 1);  // 7 % 3
    assert_eq!(src.choose_uniformly(3), 2);  // wrapped around to 5
    assert_eq!(src.budget, 9);
    let scoped = src.scoped(4);
    assert_eq!(scoped.budget, 4);
    assert_eq!(scoped.choices, vec![5, 7]);
}

#[test]
fn empty_stream_always_picks_the_first_choice() {
    let mut src = source(2, &[]);
    assert_eq!(src.choose_uniformly(5), 0);
    let s = linked_list();
    let node = generate_ok(&s, source(2, &[]));
    assert_eq!(node.variant, 0);
}

#[test]
fn enormous_budget_is_safe() {
    let s = linked_list();
    let node = generate_ok(&s, source(usize::MAX, &[0]));
    assert_eq!(node.variant, 0);
    assert_eq!(node.scoped_budget, usize::MAX);
    let node = generate_ok(&s, source(usize::MAX, &[1, 0]));
    assert_eq!(node.variant, 1);
    assert_eq!(node.scoped_budget, usize::MAX - 1);
    assert_eq!(node.children[0].variant, 0);
}
