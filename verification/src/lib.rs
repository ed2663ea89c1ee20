//! Synthesis of random-instance generators for algebraic type declarations.
//!
//! Given the description of a type declaration (a product type with fields,
//! or a sum type with variants), the library synthesizes an abstract
//! implementation of a generation contract: a procedure that, driven by a
//! caller-supplied budget and randomness source, builds a structurally valid
//! value of the type and terminates even when the type refers to itself.
//! The synthesized implementation is an intermediate representation; turning
//! it into host source text is left to an external emission library.

pub mod eligibility;
pub mod extract;
pub mod generics;
pub mod ir;
pub mod names;
pub mod runtime;
pub mod schema;
pub mod synth;
