//! Expression-evaluation core of a small data-transformation language.
//!
//! A parsed program is a closed tree of expression nodes. This crate defines
//! that closed set of node kinds, the uniform capability each kind offers
//! (runtime resolution, static evaluation, static type derivation, static
//! state updates, canonical rendering), the dispatch over the enabled kinds,
//! and the diagnostics and error taxonomy that every failure path feeds.

pub mod context;
pub mod diagnostic;
pub mod error;
pub mod expr;
pub mod laws;
pub mod semantics;
pub mod span;
pub mod state;
pub mod type_def;
pub mod value;
