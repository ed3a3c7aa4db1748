//! Per-translation-unit state: the parsed tree and its finished symbol table.
//!
//! A `State` is constructed once, before the checker runs, and is read-only
//! for the duration of a pass; the checker borrows it and never mutates it.

use vstd::prelude::*;

use crate::symbol_table::SymbolTable;
use crate::syntax::Module;

verus! {

/// One translation unit, ready to be checked: its syntax tree and the symbol
/// table built for it by the resolution collaborator.
pub struct State {
    pub file: Module,
    pub symbol_table: SymbolTable,
}

} // verus!
