//! Rendering of type-mismatch diagnostics.
//!
//! A diagnostic is a rendered message naming the operator and both concrete
//! operand types, in the fixed format
//! `Operator '{op}' not supported for types '{left}' and '{right}'`.

use vstd::prelude::*;

use crate::syntax::BinaryOperator;
use crate::types::Type;
use vstd::string::StringExecFns;

verus! {

/// The surface spelling of a binary operator.
pub open spec fn op_text(op: BinaryOperator) -> Seq<char> {
    match op {
        BinaryOperator::Add => "+"@,
        BinaryOperator::Sub => "-"@,
        BinaryOperator::Mult => "*"@,
        BinaryOperator::MatMult => "@"@,
        BinaryOperator::Div => "/"@,
        BinaryOperator::Mod => "%"@,
        BinaryOperator::Pow => "**"@,
        BinaryOperator::FloorDiv => "//"@,
        BinaryOperator::LShift => "<<"@,
        BinaryOperator::RShift => ">>"@,
        BinaryOperator::BitOr => "|"@,
        BinaryOperator::BitXor => "^"@,
        BinaryOperator::BitAnd => "&"@,
    }
}

/// The display name of a type value.
pub open spec fn type_text(t: Type) -> Seq<char> {
    match t {
        Type::Unknown => "Unknown"@,
        Type::Int => "Int"@,
        Type::Float => "Float"@,
        Type::Str => "Str"@,
        Type::Bool => "Bool"@,
        Type::NoneType => "None"@,
    }
}

/// The rendered message of one diagnostic: it names the operator, then the
/// left operand's type, then the right operand's type, in that order.
pub open spec fn diagnostic_message(op: BinaryOperator, l: Type, r: Type) -> Seq<char> {
    "Operator '"@ + op_text(op) + "' not supported for types '"@ + type_text(l) + "' and '"@
        + type_text(r) + "'"@
}

/// The surface spelling of a binary operator.
pub fn op_str(op: &BinaryOperator) -> (r: &'static str)
    ensures
        r@ == op_text(*op),
{
    match op {
        BinaryOperator::Add => "+",
        BinaryOperator::Sub => "-",
        BinaryOperator::Mult => "*",
        BinaryOperator::MatMult => "@",
        BinaryOperator::Div => "/",
        BinaryOperator::Mod => "%",
        BinaryOperator::Pow => "**",
        BinaryOperator::FloorDiv => "//",
        BinaryOperator::LShift => "<<",
        BinaryOperator::RShift => ">>",
        BinaryOperator::BitOr => "|",
        BinaryOperator::BitXor => "^",
        BinaryOperator::BitAnd => "&",
    }
}

/// The display name of a type value.
pub fn type_str(t: &Type) -> (r: &'static str)
    ensures
        r@ == type_text(*t),
{
    match t {
        Type::Unknown => "Unknown",
        Type::Int => "Int",
        Type::Float => "Float",
        Type::Str => "Str",
        Type::Bool => "Bool",
        Type::NoneType => "None",
    }
}

/// Render one diagnostic message for a rejected operation.
pub fn render_diagnostic(op: &BinaryOperator, l: &Type, r: &Type) -> (m: String)
    ensures
        m@ == diagnostic_message(*op, *l, *r),
{
    let m = String::from_str("Operator '")
        .concat(op_str(op))
        .concat("' not supported for types '")
        .concat(type_str(l))
        .concat("' and '")
        .concat(type_str(r))
        .concat("'");
    proof {
        assert(m@ =~= diagnostic_message(*op, *l, *r));
    }
    m
}

} // verus!
