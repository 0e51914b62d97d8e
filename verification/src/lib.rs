//! A compile-time builder-pattern generator, verified.
//!
//! Given the description of one annotated record declaration, the library
//! scans each field's annotations for the generator's reserved `builder`
//! namespace, resolves the recognized keywords into per-field settings,
//! collects an inventory of the fields, and emits the source text of one
//! augmentation block holding a fluent `set_<field>` mutator for every field
//! not marked `ignore`.  Failures become a single diagnostic value and an
//! empty augmentation, never a panic.

pub mod ast;
pub mod settings;
pub mod collect;
pub mod emit;
pub mod driver;
pub mod laws;
