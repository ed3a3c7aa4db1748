//! The laws of the checking pass, stated and proved once for all inputs.
//!
//! Each proof function here records a guarantee of the rule table or of the
//! traversal as a whole, over the same specification functions the checker's
//! contracts use.

use vstd::prelude::*;

use crate::diagnostics::diagnostic_message;
use crate::symbol_table::SymbolTable;
use crate::syntax::{BinOp, BinaryOperator, If, Statement};
use crate::traversal::{bin_op_diags, expr_diags, stmt_diags, stmts_diags};
use crate::type_inference::{
    spec_bin_op_accepted, spec_expr_type, spec_is_arithmetic_op, spec_is_numeric,
};
use crate::types::{spec_is_unknown, Type};

verus! {

/// Every arithmetic operator accepts two `Int` operands.
pub proof fn lemma_int_arithmetic_accepted(op: BinaryOperator)
    requires
        spec_is_arithmetic_op(op),
    ensures
        spec_bin_op_accepted(Type::Int, Type::Int, op),
{
}

/// The numeric promotion rule: every arithmetic operator accepts any mix of
/// `Int` and `Float` operands.
pub proof fn lemma_numeric_promotion_accepted(l: Type, r: Type, op: BinaryOperator)
    requires
        spec_is_arithmetic_op(op),
        spec_is_numeric(l),
        spec_is_numeric(r),
    ensures
        spec_bin_op_accepted(l, r, op),
{
}

/// `+` accepts two `Str` operands.
pub proof fn lemma_str_concatenation_accepted()
    ensures
        spec_bin_op_accepted(Type::Str, Type::Str, BinaryOperator::Add),
{
}

/// The gradual-typing escape: an operation with at least one `Unknown`
/// operand is accepted, whatever the operator and the other operand.
pub proof fn lemma_unknown_always_accepted(l: Type, r: Type, op: BinaryOperator)
    requires
        spec_is_unknown(l) || spec_is_unknown(r),
    ensures
        spec_bin_op_accepted(l, r, op),
{
}

/// An accepted binary operation appends no diagnostic of its own: the node
/// reports exactly what its two operands report, left first.
pub proof fn lemma_accepted_bin_op_adds_nothing(st: SymbolTable, b: BinOp)
    requires
        spec_bin_op_accepted(spec_expr_type(st, *b.left), spec_expr_type(st, *b.right), b.op),
    ensures
        bin_op_diags(st, b) == expr_diags(st, *b.left) + expr_diags(st, *b.right),
{
    assert(bin_op_diags(st, b) =~= expr_diags(st, *b.left) + expr_diags(st, *b.right));
}

/// An operation with an `Unknown` operand appends no diagnostic of its own,
/// whatever the operator and the other operand's type: unresolved names and
/// shapes without an inference rule never cause a report.
pub proof fn lemma_unknown_operand_adds_nothing(st: SymbolTable, b: BinOp)
    requires
        spec_is_unknown(spec_expr_type(st, *b.left)) || spec_is_unknown(
            spec_expr_type(st, *b.right),
        ),
    ensures
        bin_op_diags(st, b) == expr_diags(st, *b.left) + expr_diags(st, *b.right),
{
    lemma_unknown_always_accepted(
        spec_expr_type(st, *b.left),
        spec_expr_type(st, *b.right),
        b.op,
    );
    lemma_accepted_bin_op_adds_nothing(st, b);
}

/// A rejected binary operation appends exactly one diagnostic, after the
/// reports of its operands, naming the operator, the left type and the right
/// type in that order.
pub proof fn lemma_rejected_bin_op_reports_once(st: SymbolTable, b: BinOp)
    requires
        !spec_bin_op_accepted(spec_expr_type(st, *b.left), spec_expr_type(st, *b.right), b.op),
    ensures
        bin_op_diags(st, b) == expr_diags(st, *b.left) + expr_diags(st, *b.right) + seq![
            diagnostic_message(
                b.op,
                spec_expr_type(st, *b.left),
                spec_expr_type(st, *b.right),
            ),
        ],
{
}

/// Concatenating `Str` and `Int` is rejected with a single diagnostic naming
/// `+`, `Str` and `Int`, in that order.
pub proof fn lemma_str_int_concat_rejected(st: SymbolTable, b: BinOp)
    requires
        b.op is Add,
        spec_expr_type(st, *b.left) is Str,
        spec_expr_type(st, *b.right) is Int,
    ensures
        bin_op_diags(st, b) == expr_diags(st, *b.left) + expr_diags(st, *b.right) + seq![
            diagnostic_message(BinaryOperator::Add, Type::Str, Type::Int),
        ],
{
    lemma_rejected_bin_op_reports_once(st, b);
}

/// A binary operation has no inference rule of its own, so a nested
/// operation's inferred type is `Unknown` and the enclosing operator check
/// accepts it unconditionally: an inner mismatch is reported exactly once,
/// where it occurs, and never cascades into a second report outside.
pub proof fn lemma_nested_bin_op_never_cascades(st: SymbolTable, b: BinOp)
    requires
        (*b.left) is BinOp || (*b.right) is BinOp,
    ensures
        bin_op_diags(st, b) == expr_diags(st, *b.left) + expr_diags(st, *b.right),
{
    assert(spec_is_unknown(spec_expr_type(st, *b.left)) || spec_is_unknown(
        spec_expr_type(st, *b.right),
    ));
    lemma_unknown_operand_adds_nothing(st, b);
}

/// Diagnostic order follows document order: the report of a run of
/// statements is the concatenation of each statement's report, in order, so
/// earlier statements never trade places with later ones.
pub proof fn lemma_stmts_diags_concat(st: SymbolTable, a: Seq<Statement>, b: Seq<Statement>)
    ensures
        stmts_diags(st, a + b) == stmts_diags(st, a) + stmts_diags(st, b),
    decreases b.len(),
{
    if b.len() == 0 {
        assert(a + b =~= a);
        assert(stmts_diags(st, b) =~= Seq::<Seq<char>>::empty());
        assert(stmts_diags(st, a + b) =~= stmts_diags(st, a) + stmts_diags(st, b));
    } else {
        lemma_stmts_diags_concat(st, a, b.drop_last());
        assert((a + b).drop_last() =~= a + b.drop_last());
        assert((a + b).last() == b.last());
        assert(stmts_diags(st, a + b) =~= stmts_diags(st, a) + stmts_diags(st, b));
    }
}

/// Branch independence: an `if` reports its test's diagnostics, then its
/// `then` branch's, then its `else` branch's — each branch checked in
/// isolation, with no influence of one branch on the other.
pub proof fn lemma_branch_independence(st: SymbolTable, i: If)
    ensures
        stmt_diags(st, Statement::IfStatement(i)) == expr_diags(st, i.test) + stmts_diags(
            st,
            i.body@,
        ) + stmts_diags(st, i.orelse@),
{
}

} // verus!
