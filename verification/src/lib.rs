//! A static type-checking pass for a dynamically typed, Python-like language.
//!
//! The checker consumes an already-parsed syntax tree together with a
//! resolved symbol table for one translation unit and produces an ordered
//! sequence of type-mismatch diagnostics. Type inference is gradual: the
//! `Unknown` type is a top element that is compatible with everything, so
//! unresolved names and not-yet-modeled expression shapes never produce
//! diagnostics of their own.

pub mod checker;
pub mod diagnostics;
pub mod laws;
pub mod settings;
pub mod state;
pub mod symbol_table;
pub mod syntax;
pub mod traversal;
pub mod type_inference;
pub mod types;
