//! The declaration/symbol model the checker queries.
//!
//! Symbol tables are built by an external resolution collaborator before the
//! checker runs; the checker only looks names up, it never records anything.
//! A symbol owns the ordered sequence of binding occurrences of its name, in
//! order of syntactic appearance; "last declaration" is a deliberately
//! flow-insensitive proxy for "the binding in effect here".

use vstd::prelude::*;

use crate::syntax::Expression;

verus! {

/// One binding occurrence of a name. Only `Variable` carries information the
/// checker interprets; every other kind types as `Unknown`.
pub enum Declaration {
    Variable(VariableDeclaration),
    Function,
    Class,
    Import,
    Parameter,
}

/// A variable binding: an optional annotation expression and an optional
/// initializer expression, both as parsed.
pub struct VariableDeclaration {
    pub type_annotation: Option<Expression>,
    pub value: Option<Expression>,
}

/// A name within a scope, with its ordered binding history.
pub struct Symbol {
    pub name: String,
    pub declarations: Vec<Declaration>,
}

/// The most recently appended declaration of a symbol, if any. A symbol
/// produced by the resolution collaborator always has at least one, but the
/// checker does not depend on that.
pub open spec fn spec_last_declaration(s: Symbol) -> Option<Declaration> {
    if s.declarations@.len() == 0 {
        Option::None
    } else {
        Option::Some(s.declarations@.last())
    }
}

impl Symbol {
    /// The most recently appended declaration of this symbol.
    pub fn last_declaration(&self) -> (r: Option<&Declaration>)
        ensures
            match r {
                Option::Some(d) => spec_last_declaration(*self) == Option::Some(*d),
                Option::None => spec_last_declaration(*self) is None,
            },
    {
        let n = self.declarations.len();
        if n == 0 {
            Option::None
        } else {
            Option::Some(&self.declarations[n - 1])
        }
    }
}

/// The finished symbol table for one scope: the symbols in it, in the order
/// the resolution collaborator recorded them. Lookup returns the first
/// symbol carrying the requested name.
pub struct SymbolTable {
    pub symbols: Vec<Symbol>,
}

/// First-match lookup of a name among a sequence of symbols.
pub open spec fn spec_lookup(symbols: Seq<Symbol>, name: Seq<char>) -> Option<Symbol>
    decreases symbols.len(),
{
    if symbols.len() == 0 {
        Option::None
    } else if symbols.first().name@ == name {
        Option::Some(symbols.first())
    } else {
        spec_lookup(symbols.drop_first(), name)
    }
}

impl SymbolTable {
    /// What `lookup_in_scope` returns for a given name.
    pub open spec fn spec_lookup_in_scope(self, name: Seq<char>) -> Option<Symbol> {
        spec_lookup(self.symbols@, name)
    }

    /// Resolve a name in this scope: the first symbol with that name, or
    /// nothing if the name is unbound here.
    pub fn lookup_in_scope(&self, name: &String) -> (r: Option<&Symbol>)
        ensures
            match r {
                Option::Some(s) => self.spec_lookup_in_scope(name@) == Option::Some(*s),
                Option::None => self.spec_lookup_in_scope(name@) is None,
            },
    {
        let n = self.symbols.len();
        let mut i: usize = 0;
        proof {
            assert(self.symbols@.skip(0) =~= self.symbols@);
        }
        while i < n
            invariant
                n == self.symbols@.len(),
                i <= n,
                spec_lookup(self.symbols@.skip(i as int), name@)
                    == spec_lookup(self.symbols@, name@),
            decreases n - i,
        {
            proof {
                assert(self.symbols@.skip(i as int).first() == self.symbols@[i as int]);
                assert(self.symbols@.skip(i as int).drop_first()
                    =~= self.symbols@.skip(i as int + 1));
            }
            if self.symbols[i].name == *name {
                return Option::Some(&self.symbols[i]);
            }
            i = i + 1;
        }
        proof {
            assert(self.symbols@.skip(n as int) =~= Seq::<Symbol>::empty());
        }
        Option::None
    }
}

} // verus!
