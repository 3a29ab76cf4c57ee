//! Accessor, predicate and constructor generation for the variants of an enum.
//!
//! The library reads the `enum_impl` directives attached to each variant of an
//! enum and produces the Rust source text of the requested operations:
//! `is_<variant>`, `as_<variant>`, `as_<variant>_mut`, `into_<variant>`,
//! `from_<variant>`, and `From` impls for variants marked `impl from`.
//!
//! - [`directive`]: the directive model and its parser.
//! - [`shape`]: the bindings and payload types derived from a variant's fields.
//! - [`components`]: one generator per operation.
//! - [`expand`]: the expansion of a whole enum.
//! - [`laws`]: properties proved of the above.

pub mod components;
pub mod directive;
pub mod expand;
pub mod laws;
pub mod shape;
pub mod text;
