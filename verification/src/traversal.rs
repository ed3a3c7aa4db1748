//! What one checking pass reports: the diagnostic sequence of a tree.
//!
//! These specification functions define, node by node, the ordered sequence
//! of diagnostics a pass produces. The walk is a single pre-order descent
//! that visits every statement and expression exactly once, left to right,
//! and recurses into every nested body unconditionally and independently —
//! a deliberately flow-insensitive design: no branch is privileged over
//! another, and no types are merged or narrowed across branches. Binary
//! operations are the one expression kind with a rule at this snapshot; a
//! rejected operation contributes exactly one rendered message, after the
//! diagnostics of its two operands.

use vstd::prelude::*;

use crate::diagnostics::diagnostic_message;
use crate::state::State;
use crate::symbol_table::SymbolTable;
use crate::syntax::{
    BinOp, Comprehension, ExceptHandler, Expression, MatchCase, Statement, WithItem,
};
use crate::type_inference::{spec_bin_op_accepted, spec_expr_type};

verus! {

/// The diagnostics of one expression, in traversal order.
pub open spec fn expr_diags(st: SymbolTable, e: Expression) -> Seq<Seq<char>>
    decreases e,
{
    match e {
        Expression::Constant(_) => Seq::empty(),
        Expression::List(l) => exprs_diags(st, l.elements@),
        Expression::Tuple(t) => exprs_diags(st, t.elements@),
        Expression::Dict(d) => exprs_diags(st, d.keys@) + exprs_diags(st, d.values@),
        Expression::SetExpr(s) => exprs_diags(st, s.elements@),
        Expression::Name(_) => Seq::empty(),
        Expression::BoolOp(b) => exprs_diags(st, b.values@),
        Expression::UnaryOp(u) => expr_diags(st, *u.operand),
        Expression::BinOp(b) => bin_op_diags(st, b),
        Expression::NamedExpr(n) => expr_diags(st, *n.target) + expr_diags(st, *n.value),
        Expression::Yield(y) => opt_box_expr_diags(st, y.value),
        Expression::YieldFrom(y) => expr_diags(st, *y.value),
        Expression::Starred(s) => expr_diags(st, *s.value),
        Expression::Generator(g) => expr_diags(st, *g.element) + comprehensions_diags(
            st,
            g.generators@,
        ),
        Expression::ListComp(l) => expr_diags(st, *l.element) + comprehensions_diags(
            st,
            l.generators@,
        ),
        Expression::SetComp(s) => expr_diags(st, *s.element) + comprehensions_diags(
            st,
            s.generators@,
        ),
        Expression::DictComp(d) => expr_diags(st, *d.key) + expr_diags(st, *d.value)
            + comprehensions_diags(st, d.generators@),
        Expression::Attribute(a) => expr_diags(st, *a.value),
        Expression::Subscript(s) => expr_diags(st, *s.value) + expr_diags(st, *s.slice),
        Expression::Slice(s) => opt_box_expr_diags(st, s.lower) + opt_box_expr_diags(st, s.upper)
            + opt_box_expr_diags(st, s.step),
        Expression::Call(c) => expr_diags(st, *c.func) + exprs_diags(st, c.args@),
        Expression::Await(a) => expr_diags(st, *a.value),
        Expression::Compare(c) => expr_diags(st, *c.left) + exprs_diags(st, c.comparators@),
        Expression::Lambda(l) => expr_diags(st, *l.body),
        Expression::IfExp(i) => expr_diags(st, *i.test) + expr_diags(st, *i.body) + expr_diags(
            st,
            *i.orelse,
        ),
        Expression::JoinedStr(j) => exprs_diags(st, j.values@),
        Expression::FormattedValue(f) => expr_diags(st, *f.value),
    }
}

/// The diagnostics of a binary operation: both operands are visited first
/// (left, then right, so nested operations are diagnosed bottom-up), then the
/// operator rule is applied to the operands' inferred types; a rejection
/// appends exactly one message naming the operator and both types.
pub open spec fn bin_op_diags(st: SymbolTable, b: BinOp) -> Seq<Seq<char>>
    decreases b,
{
    expr_diags(st, *b.left) + expr_diags(st, *b.right) + (
    if spec_bin_op_accepted(spec_expr_type(st, *b.left), spec_expr_type(st, *b.right), b.op) {
        Seq::empty()
    } else {
        seq![diagnostic_message(b.op, spec_expr_type(st, *b.left), spec_expr_type(st, *b.right))]
    })
}

/// The diagnostics of a sequence of expressions, concatenated in order.
pub open spec fn exprs_diags(st: SymbolTable, es: Seq<Expression>) -> Seq<Seq<char>>
    decreases es,
{
    if es.len() == 0 {
        Seq::empty()
    } else {
        exprs_diags(st, es.drop_last()) + expr_diags(st, es.last())
    }
}

/// The diagnostics of an optional boxed expression.
pub open spec fn opt_box_expr_diags(st: SymbolTable, oe: Option<Box<Expression>>) -> Seq<Seq<char>>
    decreases oe,
{
    match oe {
        Option::Some(e) => expr_diags(st, *e),
        Option::None => Seq::empty(),
    }
}

/// The diagnostics of one comprehension clause: target, iterated expression,
/// then each filter, in order.
pub open spec fn comprehension_diags(st: SymbolTable, c: Comprehension) -> Seq<Seq<char>>
    decreases c,
{
    expr_diags(st, *c.target) + expr_diags(st, *c.iter) + exprs_diags(st, c.ifs@)
}

/// The diagnostics of a sequence of comprehension clauses, in order.
pub open spec fn comprehensions_diags(st: SymbolTable, cs: Seq<Comprehension>) -> Seq<Seq<char>>
    decreases cs,
{
    if cs.len() == 0 {
        Seq::empty()
    } else {
        comprehensions_diags(st, cs.drop_last()) + comprehension_diags(st, cs.last())
    }
}

/// The diagnostics of an optional expression.
pub open spec fn opt_expr_diags(st: SymbolTable, oe: Option<Expression>) -> Seq<Seq<char>> {
    match oe {
        Option::Some(e) => expr_diags(st, e),
        Option::None => Seq::empty(),
    }
}

/// The diagnostics of one `with`-item: the context expression, then the
/// bound target, if any.
pub open spec fn with_item_diags(st: SymbolTable, w: WithItem) -> Seq<Seq<char>> {
    expr_diags(st, w.context_expr) + opt_expr_diags(st, w.optional_vars)
}

/// The diagnostics of a sequence of `with`-items, in order.
pub open spec fn with_items_diags(st: SymbolTable, ws: Seq<WithItem>) -> Seq<Seq<char>>
    decreases ws,
{
    if ws.len() == 0 {
        Seq::empty()
    } else {
        with_items_diags(st, ws.drop_last()) + with_item_diags(st, ws.last())
    }
}

/// The diagnostics of one statement, in traversal order. Statement kinds
/// with no rule of their own (imports, assignments, `pass`, jumps, scope
/// declarations) contribute only what their nested expressions and bodies
/// produce; compound statements recurse into every nested body
/// unconditionally, each checked in isolation under the same ambient scope.
pub open spec fn stmt_diags(st: SymbolTable, s: Statement) -> Seq<Seq<char>>
    decreases s,
{
    match s {
        Statement::ExpressionStatement(e) => expr_diags(st, e),
        Statement::Import(_) => Seq::empty(),
        Statement::ImportFrom(_) => Seq::empty(),
        Statement::AssignStatement(a) => exprs_diags(st, a.targets@) + expr_diags(st, a.value),
        Statement::AnnAssignStatement(a) => expr_diags(st, a.target) + expr_diags(st, a.annotation)
            + opt_expr_diags(st, a.value),
        Statement::AugAssignStatement(a) => expr_diags(st, a.target) + expr_diags(st, a.value),
        Statement::Assert(a) => expr_diags(st, a.test) + opt_expr_diags(st, a.msg),
        Statement::Pass(_) => Seq::empty(),
        Statement::Delete(d) => exprs_diags(st, d.targets@),
        Statement::Return(r) => opt_expr_diags(st, r.value),
        Statement::Raise(r) => opt_expr_diags(st, r.exc) + opt_expr_diags(st, r.cause),
        Statement::Break(_) => Seq::empty(),
        Statement::Continue(_) => Seq::empty(),
        Statement::Global(_) => Seq::empty(),
        Statement::Nonlocal(_) => Seq::empty(),
        Statement::IfStatement(i) => expr_diags(st, i.test) + stmts_diags(st, i.body@)
            + stmts_diags(st, i.orelse@),
        Statement::WhileStatement(w) => expr_diags(st, w.test) + stmts_diags(st, w.body@)
            + stmts_diags(st, w.orelse@),
        Statement::ForStatement(f) => expr_diags(st, f.target) + expr_diags(st, f.iter)
            + stmts_diags(st, f.body@) + stmts_diags(st, f.orelse@),
        Statement::WithStatement(w) => with_items_diags(st, w.items@) + stmts_diags(st, w.body@),
        Statement::TryStatement(t) => stmts_diags(st, t.body@) + handlers_diags(st, t.handlers@)
            + stmts_diags(st, t.orelse@) + stmts_diags(st, t.finalbody@),
        Statement::TryStarStatement(t) => stmts_diags(st, t.body@) + handlers_diags(
            st,
            t.handlers@,
        ) + stmts_diags(st, t.orelse@) + stmts_diags(st, t.finalbody@),
        Statement::FunctionDef(f) => stmts_diags(st, f.body@),
        Statement::ClassDef(c) => stmts_diags(st, c.body@),
        Statement::Match(m) => expr_diags(st, m.subject) + match_cases_diags(st, m.cases@),
    }
}

/// The diagnostics of a sequence of statements, concatenated in order: the
/// sink ordering follows document order.
pub open spec fn stmts_diags(st: SymbolTable, ss: Seq<Statement>) -> Seq<Seq<char>>
    decreases ss,
{
    if ss.len() == 0 {
        Seq::empty()
    } else {
        stmts_diags(st, ss.drop_last()) + stmt_diags(st, ss.last())
    }
}

/// The diagnostics of one `except` clause: its exception type expression,
/// then its body.
pub open spec fn handler_diags(st: SymbolTable, h: ExceptHandler) -> Seq<Seq<char>>
    decreases h,
{
    opt_expr_diags(st, h.exception_type) + stmts_diags(st, h.body@)
}

/// The diagnostics of a sequence of `except` clauses, in order.
pub open spec fn handlers_diags(st: SymbolTable, hs: Seq<ExceptHandler>) -> Seq<Seq<char>>
    decreases hs,
{
    if hs.len() == 0 {
        Seq::empty()
    } else {
        handlers_diags(st, hs.drop_last()) + handler_diags(st, hs.last())
    }
}

/// The diagnostics of one `match` arm: its guard, then its body.
pub open spec fn match_case_diags(st: SymbolTable, c: MatchCase) -> Seq<Seq<char>>
    decreases c,
{
    opt_expr_diags(st, c.guard) + stmts_diags(st, c.body@)
}

/// The diagnostics of a sequence of `match` arms, in order.
pub open spec fn match_cases_diags(st: SymbolTable, cs: Seq<MatchCase>) -> Seq<Seq<char>>
    decreases cs,
{
    if cs.len() == 0 {
        Seq::empty()
    } else {
        match_cases_diags(st, cs.drop_last()) + match_case_diags(st, cs.last())
    }
}

/// Everything one pass over a translation unit reports, in order.
pub open spec fn module_diags(s: State) -> Seq<Seq<char>> {
    stmts_diags(s.symbol_table, s.file.body@)
}

} // verus!
