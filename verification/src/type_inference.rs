//! Type inference and the operator compatibility rules.
//!
//! Inference is pure and never fails: every shape without a dedicated rule
//! degrades to `Unknown`, the gradual-typing top element. The operator rule
//! table accepts any operation with an `Unknown` operand unconditionally;
//! between concrete types it accepts exactly the arithmetic operators on
//! numeric operands (with `Int`/`Float` promotion) and `+` between two
//! strings, and rejects every other pairing.

use vstd::prelude::*;

use crate::symbol_table::{
    spec_last_declaration, spec_lookup, Declaration, Symbol, SymbolTable,
};
use crate::syntax::{BinaryOperator, Expression};
use crate::types::{spec_type_of_constant, type_of_constant, Type};
use vstd::string::StringExecFns;

verus! {

/// The type an annotation expression denotes: one of the recognized type
/// identifiers, or `Unknown` for every other annotation shape (generics,
/// unions, class names, ...) at this snapshot.
pub open spec fn spec_annotation_type(annotation: Expression) -> Type {
    match annotation {
        Expression::Name(n) => {
            if n.id@ == "int"@ {
                Type::Int
            } else if n.id@ == "float"@ {
                Type::Float
            } else if n.id@ == "str"@ {
                Type::Str
            } else if n.id@ == "bool"@ {
                Type::Bool
            } else if n.id@ == "None"@ {
                Type::NoneType
            } else {
                Type::Unknown
            }
        },
        _ => Type::Unknown,
    }
}

/// The type a declaration gives to its name: the decoded annotation of a
/// variable binding, `Unknown` for an unannotated variable and for every
/// other binding kind.
pub open spec fn spec_declaration_type(declaration: Declaration) -> Type {
    match declaration {
        Declaration::Variable(v) => match v.type_annotation {
            Option::Some(annotation) => spec_annotation_type(annotation),
            Option::None => Type::Unknown,
        },
        _ => Type::Unknown,
    }
}

/// The inferred type of an expression: a constant types by its literal tag; a
/// name types by the last declaration of the symbol it resolves to, and by
/// `Unknown` when unresolved; every other expression shape has no inference
/// rule yet and types as `Unknown` by design.
pub open spec fn spec_expr_type(table: SymbolTable, expr: Expression) -> Type {
    match expr {
        Expression::Constant(c) => spec_type_of_constant(c.value),
        Expression::Name(n) => match spec_lookup(table.symbols@, n.id@) {
            Option::Some(symbol) => match spec_last_declaration(symbol) {
                Option::Some(declaration) => spec_declaration_type(declaration),
                Option::None => Type::Unknown,
            },
            Option::None => Type::Unknown,
        },
        _ => Type::Unknown,
    }
}

/// Whether an operator belongs to the arithmetic category of the rule table.
pub open spec fn spec_is_arithmetic_op(op: BinaryOperator) -> bool {
    match op {
        BinaryOperator::Add => true,
        BinaryOperator::Sub => true,
        BinaryOperator::Mult => true,
        BinaryOperator::Div => true,
        BinaryOperator::FloorDiv => true,
        BinaryOperator::Mod => true,
        BinaryOperator::Pow => true,
        _ => false,
    }
}

/// Whether a type is numeric, for the `Int`/`Float` promotion rule.
pub open spec fn spec_is_numeric(t: Type) -> bool {
    t is Int || t is Float
}

/// The operator compatibility relation. An operation is accepted when at
/// least one operand is `Unknown` (the gradual-typing escape), when an
/// arithmetic operator joins two numeric operands (any `Int`/`Float` mix), or
/// when `+` joins two strings; every other concrete pairing is rejected.
pub open spec fn spec_bin_op_accepted(l: Type, r: Type, op: BinaryOperator) -> bool {
    ||| l is Unknown
    ||| r is Unknown
    ||| (spec_is_arithmetic_op(op) && spec_is_numeric(l) && spec_is_numeric(r))
    ||| (op is Add && l is Str && r is Str)
}

/// Decode an annotation expression into the type it denotes.
pub fn get_type_from_annotation(annotation: &Expression) -> (t: Type)
    ensures
        t == spec_annotation_type(*annotation),
{
    match annotation {
        Expression::Name(n) => {
            if n.id == String::from_str("int") {
                Type::Int
            } else if n.id == String::from_str("float") {
                Type::Float
            } else if n.id == String::from_str("str") {
                Type::Str
            } else if n.id == String::from_str("bool") {
                Type::Bool
            } else if n.id == String::from_str("None") {
                Type::NoneType
            } else {
                Type::Unknown
            }
        },
        _ => Type::Unknown,
    }
}

/// Apply the operator compatibility relation to two inferred operand types.
pub fn type_check_bin_op(l_type: &Type, r_type: &Type, op: &BinaryOperator) -> (r: bool)
    ensures
        r == spec_bin_op_accepted(*l_type, *r_type, *op),
{
    if matches!(l_type, Type::Unknown) || matches!(r_type, Type::Unknown) {
        return true;
    }
    let arithmetic = matches!(
        op,
        BinaryOperator::Add
            | BinaryOperator::Sub
            | BinaryOperator::Mult
            | BinaryOperator::Div
            | BinaryOperator::FloorDiv
            | BinaryOperator::Mod
            | BinaryOperator::Pow
    );
    let l_numeric = matches!(l_type, Type::Int | Type::Float);
    let r_numeric = matches!(r_type, Type::Int | Type::Float);
    if arithmetic && l_numeric && r_numeric {
        return true;
    }
    matches!(op, BinaryOperator::Add)
        && matches!(l_type, Type::Str)
        && matches!(r_type, Type::Str)
}

} // verus!
