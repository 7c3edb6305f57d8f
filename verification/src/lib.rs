//! Answers to the questions of a trait solver about a Rust program.
//!
//! The solver asks for traits, impls, associated types, functions, opaque types and the like by
//! its own identifiers; [`context::ChalkContext`] answers from what is known of the program,
//! which [`db::HirDatabase`] holds.

pub mod answer_laws;
pub mod bound_var;
pub mod context;
pub mod datums;
pub mod db;
pub mod free_vars;
pub mod hir;
pub mod ids;
pub mod impls;
pub mod ir;
pub mod laws;
pub mod mapping;
pub mod names;
pub mod opaque;
pub mod rust_ir;
pub mod search_laws;
pub mod shift;
pub mod shift_laws;
pub mod table_laws;
pub mod view_laws;
pub mod well_known;
