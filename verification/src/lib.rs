//! A schema-to-bindings core: given records and tagged unions described as
//! pure data, it resolves every declared field type to a binding descriptor
//! (foreign-side parameter types, conversion rules, and a shape), emits the
//! fixed operation set each shape calls for under deterministic,
//! collision-checked names, and gives the generated operations their
//! runtime meaning — null-validated handles, a uniform status convention,
//! and entity-annotated diagnostics.

pub mod boundary;
pub mod emit;
pub mod laws;
pub mod names;
pub mod resolve;
pub mod schema;
pub mod traits;
pub mod utils;
