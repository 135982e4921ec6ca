//! Source-to-source currying: rewrite a function of N typed parameters into a
//! chain of N nested single-argument closures, together with the chain of
//! named intermediate function-type aliases that the rewritten signature
//! needs.
//!
//! The library works on a plain-value model of the declaration being
//! rewritten ([`syntax::ItemFn`]): every piece of syntax it must read (name,
//! visibility, parameter patterns and types, generic parameters, return type,
//! body) is carried as token text. Producing that model from a real syntax
//! tree, and turning the emitted token text back into one, is the caller's
//! concern.

pub mod generate;
pub mod syntax;
pub mod tokens;

pub use crate::generate::curry;
