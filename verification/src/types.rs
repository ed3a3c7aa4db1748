//! The type lattice: the set of type values the checker reasons about.
//!
//! `Unknown` is the top element of the lattice ("no information", gradual
//! typing). It is absorbing for every compatibility check: an operation with
//! at least one `Unknown` operand is never the cause of a diagnostic.
//! Equality between concrete types is structural identity; there is no
//! subtyping between concrete variants.

use vstd::prelude::*;

use crate::syntax::ConstantValue;

verus! {

/// A type value. `Unknown` means "no information" and is compatible with
/// everything in both directions; the remaining variants are the concrete
/// scalar types this snapshot of the checker models.
#[derive(Clone, Copy, PartialEq, Eq, Structural, Debug)]
pub enum Type {
    Unknown,
    Int,
    Float,
    Str,
    Bool,
    NoneType,
}

/// Whether a type is the top element of the lattice.
pub open spec fn spec_is_unknown(t: Type) -> bool {
    t is Unknown
}

/// The type of a literal constant, by its tag. Literal tags not yet modeled
/// (bytes, ellipsis) degrade to `Unknown`.
pub open spec fn spec_type_of_constant(c: ConstantValue) -> Type {
    match c {
        ConstantValue::Int(_) => Type::Int,
        ConstantValue::Float(_) => Type::Float,
        ConstantValue::Str(_) => Type::Str,
        ConstantValue::Bool(_) => Type::Bool,
        ConstantValue::NoneValue => Type::NoneType,
        _ => Type::Unknown,
    }
}

/// Executable check for the top element.
pub fn is_unknown(t: &Type) -> (r: bool)
    ensures
        r == spec_is_unknown(*t),
{
    matches!(t, Type::Unknown)
}

/// Structural equality of two type values. `Unknown` is equal only to
/// `Unknown` under this strict relation; compatibility of operands is a
/// separate, more permissive relation owned by the operator rules.
pub fn type_equal(a: &Type, b: &Type) -> (r: bool)
    ensures
        r == (a == b),
{
    *a == *b
}

/// The type of a literal constant, by its tag.
pub fn type_of_constant(c: &ConstantValue) -> (t: Type)
    ensures
        t == spec_type_of_constant(*c),
{
    match c {
        ConstantValue::Int(_) => Type::Int,
        ConstantValue::Float(_) => Type::Float,
        ConstantValue::Str(_) => Type::Str,
        ConstantValue::Bool(_) => Type::Bool,
        ConstantValue::NoneValue => Type::NoneType,
        _ => Type::Unknown,
    }
}

} // verus!
