//! Deterministic naming of the emitted scope, derived from the annotated
//! type's name so that several annotated types in one scope cannot collide.

use vstd::prelude::*;
use vstd::string::StringExecFns;

verus! {

/// The snake-case rendering of a name, as the case-conversion library
/// computes it.
pub uninterp spec fn snake_of(s: Seq<char>) -> Seq<char>;

/// Relies on heck's `ToSnakeCase::to_snake_case` for `str`: it walks the
/// input's characters and lowercases them with underscores at word
/// boundaries, so its result depends on those characters alone.
#[verifier::external_body]
fn to_snake_case(s: &String) -> (r: String)
    ensures
        r@ == snake_of(s@),
{
    heck::ToSnakeCase::to_snake_case(s.as_str())
}

/// The fixed suffix of the emitted scope's name.
pub open spec fn module_suffix() -> Seq<char> {
    "_derive_quickcheck"@
}

/// The name of the scope emitted for a type: the type's name in snake
/// case, followed by the fixed suffix.
pub open spec fn spec_module_name(name: Seq<char>) -> Seq<char> {
    snake_of(name) + module_suffix()
}

/// Derive the emitted scope's name from the annotated type's name.
pub fn module_name(name: &String) -> (m: String)
    ensures
        m@ == spec_module_name(name@),
{
    let snake = to_snake_case(name);
    snake.concat("_derive_quickcheck")
}

} // verus!
