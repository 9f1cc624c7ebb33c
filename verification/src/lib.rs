//! Piperize: turns a free function into a method.
//!
//! Given a parsed function-like declaration, the library synthesizes a
//! capability descriptor (a trait-like signature grouped under a type-level
//! name derived from the function's name) and a single binding of that
//! descriptor to the type of the function's first parameter.  The first
//! parameter becomes the receiver; the remaining parameters are passed
//! through unchanged, and the original body runs with the first parameter's
//! binding pattern rebound to the receiver value.
//!
//! The library works on structured declaration values; turning source text
//! into a [`model::Declaration`] and splicing the generated artifacts back
//! into a token stream is left to the surrounding toolchain.

pub mod casing;
pub mod model;
pub mod transform;

use vstd::prelude::*;

verus! {

} // verus!
