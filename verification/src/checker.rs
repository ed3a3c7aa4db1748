//! The checking pass: a whole-tree walk that applies the operator rules.
//!
//! A `TypeChecker` is created once per pass over one translation unit. It
//! borrows the module's state read-only, owns a fresh, append-only error
//! sink, and is discarded after the caller consumes its diagnostics. Every
//! `visit_` method promises exactly what it appends to the sink: the
//! diagnostic sequence the traversal specification assigns to the node it
//! visits. A type error never aborts the pass.

use vstd::prelude::*;

use crate::diagnostics::render_diagnostic;
use crate::settings::Settings;
use crate::state::State;
use crate::symbol_table::Declaration;
use crate::syntax::{
    AnnAssign, Assert, Assign, Attribute, AugAssign, Await, BinOp, BoolOperation, Break, Call,
    ClassDef, Compare, Comprehension, Constant, Continue, Delete, Dict, DictComp, ExceptHandler,
    Expression, For, FormattedValue, FunctionDef, Generator, Global, If, IfExp, Import,
    ImportFrom, JoinedStr, Lambda, List, ListComp, Match, MatchCase, Name, NamedExpression,
    Nonlocal, Pass, Raise, Return, SetComp, SetLiteral, Slice, Starred, Statement, Subscript, Try,
    TryStar, Tuple, UnaryOperation, While, With, WithItem, Yield, YieldFrom,
};
use crate::traversal::{
    bin_op_diags, comprehension_diags, comprehensions_diags, expr_diags, exprs_diags,
    handler_diags, handlers_diags, match_case_diags, match_cases_diags, module_diags,
    opt_box_expr_diags, opt_expr_diags, stmt_diags, stmts_diags, with_item_diags,
    with_items_diags,
};
use crate::type_inference::{
    get_type_from_annotation, spec_declaration_type, spec_expr_type, type_check_bin_op,
};
use crate::types::{type_of_constant, Type};

verus! {

/// One checking pass over one translation unit: the borrowed module state,
/// the caller's options, and the ordered, append-only diagnostic sink.
pub struct TypeChecker<'a> {
    pub errors: Vec<String>,
    pub module: &'a State,
    pub options: &'a Settings,
}

impl<'a> TypeChecker<'a> {
    /// A fresh checker for one pass: the sink starts empty and holds no
    /// state from any earlier pass.
    pub fn new(module: &'a State, options: &'a Settings) -> (checker: TypeChecker<'a>)
        ensures
            checker.errors.deep_view() == Seq::<Seq<char>>::empty(),
            checker.module == module,
            checker.options == options,
    {
        let checker = TypeChecker { errors: Vec::new(), module, options };
        proof {
            assert(checker.errors.deep_view() =~= Seq::<Seq<char>>::empty());
        }
        checker
    }

    /// Run the pass: walk every top-level statement in document order. The
    /// sink afterwards holds exactly the module's diagnostic sequence; the
    /// result depends on the module state alone, so re-running a fresh
    /// checker on an unmodified module reproduces it identically.
    pub fn type_check(&mut self)
        ensures
            final(self).module == old(self).module,
            final(self).options == old(self).options,
            final(self).errors.deep_view() == old(self).errors.deep_view() + module_diags(
                *old(self).module,
            ),
    {
        let module: &'a State = self.module;
        let n = module.file.body.len();
        let mut i: usize = 0;
        proof {
            assert(module.file.body@.take(0) =~= Seq::<Statement>::empty());
        }
        while i < n
            invariant
                n == module.file.body@.len(),
                i <= n,
                self.module == old(self).module,
                self.options == old(self).options,
                module == old(self).module,
                self.errors.deep_view() == old(self).errors.deep_view() + stmts_diags(
                    module.symbol_table,
                    module.file.body@.take(i as int),
                ),
            decreases n - i,
        {
            self.visit_stmt(&module.file.body[i]);
            proof {
                assert(module.file.body@.take(i as int + 1).drop_last() =~= module.file.body@.take(
                    i as int,
                ));
                assert(module.file.body@.take(i as int + 1).last() == module.file.body@[i as int]);
                assert(self.errors.deep_view() =~= old(self).errors.deep_view() + stmts_diags(
                    module.symbol_table,
                    module.file.body@.take(i as int + 1),
                ));
            }
            i = i + 1;
        }
        proof {
            assert(module.file.body@.take(n as int) =~= module.file.body@);
        }
    }

    /// The type a declaration gives to its name: inference never fails, it
    /// degrades to `Unknown`.
    fn infer_declaration_type(&self, declaration: &Declaration) -> (t: Type)
        ensures
            t == spec_declaration_type(*declaration),
    {
        match declaration {
            Declaration::Variable(v) => {
                match &v.type_annotation {
                    Option::Some(type_annotation) => get_type_from_annotation(type_annotation),
                    Option::None => Type::Unknown,
                }
            },
            _ => Type::Unknown,
        }
    }

    /// The inferred type of an expression: constants by tag, names through
    /// the symbol table's last declaration, everything else `Unknown`. An
    /// unresolved name is untyped, never a checker failure.
    fn infer_expr_type(&self, expr: &Expression) -> (t: Type)
        ensures
            t == spec_expr_type(self.module.symbol_table, *expr),
    {
        match expr {
            Expression::Constant(c) => type_of_constant(&c.value),
            Expression::Name(n) => match self.module.symbol_table.lookup_in_scope(&n.id) {
                Option::Some(symbol) => match symbol.last_declaration() {
                    Option::Some(declaration) => self.infer_declaration_type(declaration),
                    Option::None => Type::Unknown,
                },
                Option::None => Type::Unknown,
            },
            _ => Type::Unknown,
        }
    }

    /// Dispatch one statement to its visitor.
    fn visit_stmt(&mut self, s: &Statement)
        ensures
            final(self).module == old(self).module,
            final(self).options == old(self).options,
            final(self).errors.deep_view() == old(self).errors.deep_view() + stmt_diags(
                old(self).module.symbol_table,
                *s,
            ),
        decreases *s,
    {
        match s {
            Statement::ExpressionStatement(e) => self.visit_expr(e),
            Statement::Import(i) => self.visit_import(i),
            Statement::ImportFrom(i) => self.visit_import_from(i),
            Statement::AssignStatement(a) => self.visit_assign(a),
            Statement::AnnAssignStatement(a) => self.visit_ann_assign(a),
            Statement::AugAssignStatement(a) => self.visit_aug_assign(a),
            Statement::Assert(a) => self.visit_assert(a),
            Statement::Pass(p) => self.visit_pass(p),
            Statement::Delete(d) => self.visit_delete(d),
            Statement::Return(r) => self.visit_return(r),
            Statement::Raise(r) => self.visit_raise(r),
            Statement::Break(b) => self.visit_break(b),
            Statement::Continue(c) => self.visit_continue(c),
            Statement::Global(g) => self.visit_global(g),
            Statement::Nonlocal(n) => self.visit_nonlocal(n),
            Statement::IfStatement(i) => self.visit_if(i),
            Statement::WhileStatement(w) => self.visit_while(w),
            Statement::ForStatement(f) => self.visit_for(f),
            Statement::WithStatement(w) => self.visit_with(w),
            Statement::TryStatement(t) => self.visit_try(t),
            Statement::TryStarStatement(t) => self.visit_try_star(t),
            Statement::FunctionDef(f) => self.visit_function_def(f),
            Statement::ClassDef(c) => self.visit_class_def(c),
            Statement::Match(m) => self.visit_match(m),
        }
    }

    /// Dispatch one expression to its visitor.
    fn visit_expr(&mut self, e: &Expression)
        ensures
            final(self).module == old(self).module,
            final(self).options == old(self).options,
            final(self).errors.deep_view() == old(self).errors.deep_view() + expr_diags(
                old(self).module.symbol_table,
                *e,
            ),
        decreases *e,
    {
        match e {
            Expression::Constant(c) => self.visit_constant(c),
            Expression::List(l) => self.visit_list(l),
            Expression::Tuple(t) => self.visit_tuple(t),
            Expression::Dict(d) => self.visit_dict(d),
            Expression::SetExpr(s) => self.visit_set(s),
            Expression::Name(n) => self.visit_name(n),
            Expression::BoolOp(b) => self.visit_bool_op(b),
            Expression::UnaryOp(u) => self.visit_unary_op(u),
            Expression::BinOp(b) => self.visit_bin_op(b),
            Expression::NamedExpr(n) => self.visit_named_expr(n),
            Expression::Yield(y) => self.visit_yield(y),
            Expression::YieldFrom(y) => self.visit_yield_from(y),
            Expression::Starred(s) => self.visit_starred(s),
            Expression::Generator(g) => self.visit_generator(g),
            Expression::ListComp(l) => self.visit_list_comp(l),
            Expression::SetComp(s) => self.visit_set_comp(s),
            Expression::DictComp(d) => self.visit_dict_comp(d),
            Expression::Attribute(a) => self.visit_attribute(a),
            Expression::Subscript(s) => self.visit_subscript(s),
            Expression::Slice(s) => self.visit_slice(s),
            Expression::Call(c) => self.visit_call(c),
            Expression::Await(a) => self.visit_await(a),
            Expression::Compare(c) => self.visit_compare(c),
            Expression::Lambda(l) => self.visit_lambda(l),
            Expression::IfExp(i) => self.visit_if_exp(i),
            Expression::JoinedStr(j) => self.visit_joined_str(j),
            Expression::FormattedValue(f) => self.visit_formatted_value(f),
        }
    }

    /// Visit each expression of a sequence, left to right.
    fn visit_expr_vec(&mut self, es: &Vec<Expression>)
        ensures
            final(self).module == old(self).module,
            final(self).options == old(self).options,
            final(self).errors.deep_view() == old(self).errors.deep_view() + exprs_diags(
                old(self).module.symbol_table,
                es@,
            ),
        decreases *es,
    {
        let n = es.len();
        let mut i: usize = 0;
        proof {
            assert(es@.take(0) =~= Seq::<Expression>::empty());
        }
        while i < n
            invariant
                n == es@.len(),
                i <= n,
                self.module == old(self).module,
                self.options == old(self).options,
                self.errors.deep_view() == old(self).errors.deep_view() + exprs_diags(
                    old(self).module.symbol_table,
                    es@.take(i as int),
                ),
            decreases n - i,
        {
            self.visit_expr(&es[i]);
            proof {
                assert(es@.take(i as int + 1).drop_last() =~= es@.take(i as int));
                assert(es@.take(i as int + 1).last() == es@[i as int]);
                assert(self.errors.deep_view() =~= old(self).errors.deep_view() + exprs_diags(
                    old(self).module.symbol_table,
                    es@.take(i as int + 1),
                ));
            }
            i = i + 1;
        }
        proof {
            assert(es@.take(n as int) =~= es@);
        }
    }

    /// Visit an optional expression.
    fn visit_opt_expr(&mut self, oe: &Option<Expression>)
        ensures
            final(self).module == old(self).module,
            final(self).options == old(self).options,
            final(self).errors.deep_view() == old(self).errors.deep_view() + opt_expr_diags(
                old(self).module.symbol_table,
                *oe,
            ),
        decreases *oe,
    {
        match oe {
            Option::Some(e) => self.visit_expr(e),
            Option::None => {
                proof {
                    assert(self.errors.deep_view() =~= old(self).errors.deep_view()
                        + opt_expr_diags(old(self).module.symbol_table, *oe));
                }
            },
        }
    }

    /// Visit an optional boxed expression.
    fn visit_opt_box_expr(&mut self, oe: &Option<Box<Expression>>)
        ensures
            final(self).module == old(self).module,
            final(self).options == old(self).options,
            final(self).errors.deep_view() == old(self).errors.deep_view() + opt_box_expr_diags(
                old(self).module.symbol_table,
                *oe,
            ),
        decreases *oe,
    {
        match oe {
            Option::Some(e) => self.visit_expr(e),
            Option::None => {
                proof {
                    assert(self.errors.deep_view() =~= old(self).errors.deep_view()
                        + opt_box_expr_diags(old(self).module.symbol_table, *oe));
                }
            },
        }
    }

    /// A constant produces no diagnostic of its own.
    fn visit_constant(&mut self, c: &Constant)
        ensures
            final(self).module == old(self).module,
            final(self).options == old(self).options,
            final(self).errors.deep_view() == old(self).errors.deep_view() + expr_diags(
                old(self).module.symbol_table,
                Expression::Constant(*c),
            ),
    {
        proof {
            assert(self.errors.deep_view() =~= old(self).errors.deep_view() + expr_diags(
                old(self).module.symbol_table,
                Expression::Constant(*c),
            ));
        }
    }

    /// A name use produces no diagnostic of its own.
    fn visit_name(&mut self, n: &Name)
        ensures
            final(self).module == old(self).module,
            final(self).options == old(self).options,
            final(self).errors.deep_view() == old(self).errors.deep_view() + expr_diags(
                old(self).module.symbol_table,
                Expression::Name(*n),
            ),
    {
        proof {
            assert(self.errors.deep_view() =~= old(self).errors.deep_view() + expr_diags(
                old(self).module.symbol_table,
                Expression::Name(*n),
            ));
        }
    }

    /// Visit a list display's elements.
    fn visit_list(&mut self, l: &List)
        ensures
            final(self).module == old(self).module,
            final(self).options == old(self).options,
            final(self).errors.deep_view() == old(self).errors.deep_view() + expr_diags(
                old(self).module.symbol_table,
                Expression::List(*l),
            ),
        decreases *l,
    {
        self.visit_expr_vec(&l.elements);
    }

    /// Visit a tuple display's elements.
    fn visit_tuple(&mut self, t: &Tuple)
        ensures
            final(self).module == old(self).module,
            final(self).options == old(self).options,
            final(self).errors.deep_view() == old(self).errors.deep_view() + expr_diags(
                old(self).module.symbol_table,
                Expression::Tuple(*t),
            ),
        decreases *t,
    {
        self.visit_expr_vec(&t.elements);
    }

    /// Visit a dict display's keys, then its values.
    fn visit_dict(&mut self, d: &Dict)
        ensures
            final(self).module == old(self).module,
            final(self).options == old(self).options,
            final(self).errors.deep_view() == old(self).errors.deep_view() + expr_diags(
                old(self).module.symbol_table,
                Expression::Dict(*d),
            ),
        decreases *d,
    {
        self.visit_expr_vec(&d.keys);
        self.visit_expr_vec(&d.values);
        proof {
            assert(self.errors.deep_view() =~= old(self).errors.deep_view() + expr_diags(
                old(self).module.symbol_table,
                Expression::Dict(*d),
            ));
        }
    }

    /// Visit a set display's elements.
    fn visit_set(&mut self, s: &SetLiteral)
        ensures
            final(self).module == old(self).module,
            final(self).options == old(self).options,
            final(self).errors.deep_view() == old(self).errors.deep_view() + expr_diags(
                old(self).module.symbol_table,
                Expression::SetExpr(*s),
            ),
        decreases *s,
    {
        self.visit_expr_vec(&s.elements);
    }

    /// Visit the operands of a boolean operation; no rule fires here yet.
    fn visit_bool_op(&mut self, b: &BoolOperation)
        ensures
            final(self).module == old(self).module,
            final(self).options == old(self).options,
            final(self).errors.deep_view() == old(self).errors.deep_view() + expr_diags(
                old(self).module.symbol_table,
                Expression::BoolOp(*b),
            ),
        decreases *b,
    {
        self.visit_expr_vec(&b.values);
    }

    /// Visit a unary operation's operand; no rule fires here yet.
    fn visit_unary_op(&mut self, u: &UnaryOperation)
        ensures
            final(self).module == old(self).module,
            final(self).options == old(self).options,
            final(self).errors.deep_view() == old(self).errors.deep_view() + expr_diags(
                old(self).module.symbol_table,
                Expression::UnaryOp(*u),
            ),
        decreases *u,
    {
        self.visit_expr(&u.operand);
    }

    /// The one fully specified check: visit both operands (so nested
    /// operations are diagnosed bottom-up), infer their types, and apply the
    /// operator rule; on rejection append one message naming the operator
    /// and both types. The pass continues regardless.
    fn visit_bin_op(&mut self, b: &BinOp)
        ensures
            final(self).module == old(self).module,
            final(self).options == old(self).options,
            final(self).errors.deep_view() == old(self).errors.deep_view() + bin_op_diags(
                old(self).module.symbol_table,
                *b,
            ),
        decreases *b,
    {
        self.visit_expr(&b.left);
        self.visit_expr(&b.right);
        let l_type = self.infer_expr_type(&b.left);
        let r_type = self.infer_expr_type(&b.right);

        if !type_check_bin_op(&l_type, &r_type, &b.op) {
            let message = render_diagnostic(&b.op, &l_type, &r_type);
            self.errors.push(message);
        }
        proof {
            assert(self.errors.deep_view() =~= old(self).errors.deep_view() + bin_op_diags(
                old(self).module.symbol_table,
                *b,
            ));
        }
    }

    /// Visit a named expression's target, then its value.
    fn visit_named_expr(&mut self, n: &NamedExpression)
        ensures
            final(self).module == old(self).module,
            final(self).options == old(self).options,
            final(self).errors.deep_view() == old(self).errors.deep_view() + expr_diags(
                old(self).module.symbol_table,
                Expression::NamedExpr(*n),
            ),
        decreases *n,
    {
        self.visit_expr(&n.target);
        self.visit_expr(&n.value);
        proof {
            assert(self.errors.deep_view() =~= old(self).errors.deep_view() + expr_diags(
                old(self).module.symbol_table,
                Expression::NamedExpr(*n),
            ));
        }
    }

    /// Visit a `yield` expression's value, if any.
    fn visit_yield(&mut self, y: &Yield)
        ensures
            final(self).module == old(self).module,
            final(self).options == old(self).options,
            final(self).errors.deep_view() == old(self).errors.deep_view() + expr_diags(
                old(self).module.symbol_table,
                Expression::Yield(*y),
            ),
        decreases *y,
    {
        self.visit_opt_box_expr(&y.value);
    }

    /// Visit a `yield from` expression's value.
    fn visit_yield_from(&mut self, y: &YieldFrom)
        ensures
            final(self).module == old(self).module,
            final(self).options == old(self).options,
            final(self).errors.deep_view() == old(self).errors.deep_view() + expr_diags(
                old(self).module.symbol_table,
                Expression::YieldFrom(*y),
            ),
        decreases *y,
    {
        self.visit_expr(&y.value);
    }

    /// Visit a starred expression's value.
    fn visit_starred(&mut self, s: &Starred)
        ensures
            final(self).module == old(self).module,
            final(self).options == old(self).options,
            final(self).errors.deep_view() == old(self).errors.deep_view() + expr_diags(
                old(self).module.symbol_table,
                Expression::Starred(*s),
            ),
        decreases *s,
    {
        self.visit_expr(&s.value);
    }

    /// Visit one comprehension clause: target, iterated expression, filters.
    fn visit_comprehension(&mut self, c: &Comprehension)
        ensures
            final(self).module == old(self).module,
            final(self).options == old(self).options,
            final(self).errors.deep_view() == old(self).errors.deep_view() + comprehension_diags(
                old(self).module.symbol_table,
                *c,
            ),
        decreases *c,
    {
        self.visit_expr(&c.target);
        self.visit_expr(&c.iter);
        self.visit_expr_vec(&c.ifs);
        proof {
            assert(self.errors.deep_view() =~= old(self).errors.deep_view() + comprehension_diags(
                old(self).module.symbol_table,
                *c,
            ));
        }
    }

    /// Visit each comprehension clause of a sequence, left to right.
    fn visit_comprehension_vec(&mut self, cs: &Vec<Comprehension>)
        ensures
            final(self).module == old(self).module,
            final(self).options == old(self).options,
            final(self).errors.deep_view() == old(self).errors.deep_view() + comprehensions_diags(
                old(self).module.symbol_table,
                cs@,
            ),
        decreases *cs,
    {
        let n = cs.len();
        let mut i: usize = 0;
        proof {
            assert(cs@.take(0) =~= Seq::<Comprehension>::empty());
        }
        while i < n
            invariant
                n == cs@.len(),
                i <= n,
                self.module == old(self).module,
                self.options == old(self).options,
                self.errors.deep_view() == old(self).errors.deep_view() + comprehensions_diags(
                    old(self).module.symbol_table,
                    cs@.take(i as int),
                ),
            decreases n - i,
        {
            self.visit_comprehension(&cs[i]);
            proof {
                assert(cs@.take(i as int + 1).drop_last() =~= cs@.take(i as int));
                assert(cs@.take(i as int + 1).last() == cs@[i as int]);
                assert(self.errors.deep_view() =~= old(self).errors.deep_view()
                    + comprehensions_diags(
                    old(self).module.symbol_table,
                    cs@.take(i as int + 1),
                ));
            }
            i = i + 1;
        }
        proof {
            assert(cs@.take(n as int) =~= cs@);
        }
    }

    /// Visit a generator expression: its element, then its clauses.
    fn visit_generator(&mut self, g: &Generator)
        ensures
            final(self).module == old(self).module,
            final(self).options == old(self).options,
            final(self).errors.deep_view() == old(self).errors.deep_view() + expr_diags(
                old(self).module.symbol_table,
                Expression::Generator(*g),
            ),
        decreases *g,
    {
        self.visit_expr(&g.element);
        self.visit_comprehension_vec(&g.generators);
        proof {
            assert(self.errors.deep_view() =~= old(self).errors.deep_view() + expr_diags(
                old(self).module.symbol_table,
                Expression::Generator(*g),
            ));
        }
    }

    /// Visit a list comprehension: its element, then its clauses.
    fn visit_list_comp(&mut self, l: &ListComp)
        ensures
            final(self).module == old(self).module,
            final(self).options == old(self).options,
            final(self).errors.deep_view() == old(self).errors.deep_view() + expr_diags(
                old(self).module.symbol_table,
                Expression::ListComp(*l),
            ),
        decreases *l,
    {
        self.visit_expr(&l.element);
        self.visit_comprehension_vec(&l.generators);
        proof {
            assert(self.errors.deep_view() =~= old(self).errors.deep_view() + expr_diags(
                old(self).module.symbol_table,
                Expression::ListComp(*l),
            ));
        }
    }

    /// Visit a set comprehension: its element, then its clauses.
    fn visit_set_comp(&mut self, s: &SetComp)
        ensures
            final(self).module == old(self).module,
            final(self).options == old(self).options,
            final(self).errors.deep_view() == old(self).errors.deep_view() + expr_diags(
                old(self).module.symbol_table,
                Expression::SetComp(*s),
            ),
        decreases *s,
    {
        self.visit_expr(&s.element);
        self.visit_comprehension_vec(&s.generators);
        proof {
            assert(self.errors.deep_view() =~= old(self).errors.deep_view() + expr_diags(
                old(self).module.symbol_table,
                Expression::SetComp(*s),
            ));
        }
    }

    /// Visit a dict comprehension: key, value, then its clauses.
    fn visit_dict_comp(&mut self, d: &DictComp)
        ensures
            final(self).module == old(self).module,
            final(self).options == old(self).options,
            final(self).errors.deep_view() == old(self).errors.deep_view() + expr_diags(
                old(self).module.symbol_table,
                Expression::DictComp(*d),
            ),
        decreases *d,
    {
        self.visit_expr(&d.key);
        self.visit_expr(&d.value);
        self.visit_comprehension_vec(&d.generators);
        proof {
            assert(self.errors.deep_view() =~= old(self).errors.deep_view() + expr_diags(
                old(self).module.symbol_table,
                Expression::DictComp(*d),
            ));
        }
    }

    /// Visit an attribute access's value.
    fn visit_attribute(&mut self, a: &Attribute)
        ensures
            final(self).module == old(self).module,
            final(self).options == old(self).options,
            final(self).errors.deep_view() == old(self).errors.deep_view() + expr_diags(
                old(self).module.symbol_table,
                Expression::Attribute(*a),
            ),
        decreases *a,
    {
        self.visit_expr(&a.value);
    }

    /// Visit a subscript's value, then its index expression.
    fn visit_subscript(&mut self, s: &Subscript)
        ensures
            final(self).module == old(self).module,
            final(self).options == old(self).options,
            final(self).errors.deep_view() == old(self).errors.deep_view() + expr_diags(
                old(self).module.symbol_table,
                Expression::Subscript(*s),
            ),
        decreases *s,
    {
        self.visit_expr(&s.value);
        self.visit_expr(&s.slice);
        proof {
            assert(self.errors.deep_view() =~= old(self).errors.deep_view() + expr_diags(
                old(self).module.symbol_table,
                Expression::Subscript(*s),
            ));
        }
    }

    /// Visit a slice's bounds and step, in order.
    fn visit_slice(&mut self, s: &Slice)
        ensures
            final(self).module == old(self).module,
            final(self).options == old(self).options,
            final(self).errors.deep_view() == old(self).errors.deep_view() + expr_diags(
                old(self).module.symbol_table,
                Expression::Slice(*s),
            ),
        decreases *s,
    {
        self.visit_opt_box_expr(&s.lower);
        self.visit_opt_box_expr(&s.upper);
        self.visit_opt_box_expr(&s.step);
        proof {
            assert(self.errors.deep_view() =~= old(self).errors.deep_view() + expr_diags(
                old(self).module.symbol_table,
                Expression::Slice(*s),
            ));
        }
    }

    /// Visit a call's callee, then its arguments.
    fn visit_call(&mut self, c: &Call)
        ensures
            final(self).module == old(self).module,
            final(self).options == old(self).options,
            final(self).errors.deep_view() == old(self).errors.deep_view() + expr_diags(
                old(self).module.symbol_table,
                Expression::Call(*c),
            ),
        decreases *c,
    {
        self.visit_expr(&c.func);
        self.visit_expr_vec(&c.args);
        proof {
            assert(self.errors.deep_view() =~= old(self).errors.deep_view() + expr_diags(
                old(self).module.symbol_table,
                Expression::Call(*c),
            ));
        }
    }

    /// Visit an `await` expression's value.
    fn visit_await(&mut self, a: &Await)
        ensures
            final(self).module == old(self).module,
            final(self).options == old(self).options,
            final(self).errors.deep_view() == old(self).errors.deep_view() + expr_diags(
                old(self).module.symbol_table,
                Expression::Await(*a),
            ),
        decreases *a,
    {
        self.visit_expr(&a.value);
    }

    /// Visit a comparison chain's first operand, then the others; no rule
    /// fires here yet.
    fn visit_compare(&mut self, c: &Compare)
        ensures
            final(self).module == old(self).module,
            final(self).options == old(self).options,
            final(self).errors.deep_view() == old(self).errors.deep_view() + expr_diags(
                old(self).module.symbol_table,
                Expression::Compare(*c),
            ),
        decreases *c,
    {
        self.visit_expr(&c.left);
        self.visit_expr_vec(&c.comparators);
        proof {
            assert(self.errors.deep_view() =~= old(self).errors.deep_view() + expr_diags(
                old(self).module.symbol_table,
                Expression::Compare(*c),
            ));
        }
    }

    /// Visit a lambda's body expression.
    fn visit_lambda(&mut self, l: &Lambda)
        ensures
            final(self).module == old(self).module,
            final(self).options == old(self).options,
            final(self).errors.deep_view() == old(self).errors.deep_view() + expr_diags(
                old(self).module.symbol_table,
                Expression::Lambda(*l),
            ),
        decreases *l,
    {
        self.visit_expr(&l.body);
    }

    /// Visit a conditional expression: test, then both alternatives.
    fn visit_if_exp(&mut self, i: &IfExp)
        ensures
            final(self).module == old(self).module,
            final(self).options == old(self).options,
            final(self).errors.deep_view() == old(self).errors.deep_view() + expr_diags(
                old(self).module.symbol_table,
                Expression::IfExp(*i),
            ),
        decreases *i,
    {
        self.visit_expr(&i.test);
        self.visit_expr(&i.body);
        self.visit_expr(&i.orelse);
        proof {
            assert(self.errors.deep_view() =~= old(self).errors.deep_view() + expr_diags(
                old(self).module.symbol_table,
                Expression::IfExp(*i),
            ));
        }
    }

    /// Visit a formatted string's parts.
    fn visit_joined_str(&mut self, j: &JoinedStr)
        ensures
            final(self).module == old(self).module,
            final(self).options == old(self).options,
            final(self).errors.deep_view() == old(self).errors.deep_view() + expr_diags(
                old(self).module.symbol_table,
                Expression::JoinedStr(*j),
            ),
        decreases *j,
    {
        self.visit_expr_vec(&j.values);
    }

    /// Visit one interpolated part of a formatted string.
    fn visit_formatted_value(&mut self, f: &FormattedValue)
        ensures
            final(self).module == old(self).module,
            final(self).options == old(self).options,
            final(self).errors.deep_view() == old(self).errors.deep_view() + expr_diags(
                old(self).module.symbol_table,
                Expression::FormattedValue(*f),
            ),
        decreases *f,
    {
        self.visit_expr(&f.value);
    }

    /// Visit each statement of a sequence, in document order.
    fn visit_stmt_vec(&mut self, ss: &Vec<Statement>)
        ensures
            final(self).module == old(self).module,
            final(self).options == old(self).options,
            final(self).errors.deep_view() == old(self).errors.deep_view() + stmts_diags(
                old(self).module.symbol_table,
                ss@,
            ),
        decreases *ss,
    {
        let n = ss.len();
        let mut i: usize = 0;
        proof {
            assert(ss@.take(0) =~= Seq::<Statement>::empty());
        }
        while i < n
            invariant
                n == ss@.len(),
                i <= n,
                self.module == old(self).module,
                self.options == old(self).options,
                self.errors.deep_view() == old(self).errors.deep_view() + stmts_diags(
                    old(self).module.symbol_table,
                    ss@.take(i as int),
                ),
            decreases n - i,
        {
            self.visit_stmt(&ss[i]);
            proof {
                assert(ss@.take(i as int + 1).drop_last() =~= ss@.take(i as int));
                assert(ss@.take(i as int + 1).last() == ss@[i as int]);
                assert(self.errors.deep_view() =~= old(self).errors.deep_view() + stmts_diags(
                    old(self).module.symbol_table,
                    ss@.take(i as int + 1),
                ));
            }
            i = i + 1;
        }
        proof {
            assert(ss@.take(n as int) =~= ss@);
        }
    }

    /// An import introduces no expression to check.
    fn visit_import(&mut self, i: &Import)
        ensures
            final(self).module == old(self).module,
            final(self).options == old(self).options,
            final(self).errors.deep_view() == old(self).errors.deep_view() + stmt_diags(
                old(self).module.symbol_table,
                Statement::Import(*i),
            ),
    {
        proof {
            assert(self.errors.deep_view() =~= old(self).errors.deep_view() + stmt_diags(
                old(self).module.symbol_table,
                Statement::Import(*i),
            ));
        }
    }

    /// A from-import introduces no expression to check.
    fn visit_import_from(&mut self, i: &ImportFrom)
        ensures
            final(self).module == old(self).module,
            final(self).options == old(self).options,
            final(self).errors.deep_view() == old(self).errors.deep_view() + stmt_diags(
                old(self).module.symbol_table,
                Statement::ImportFrom(*i),
            ),
    {
        proof {
            assert(self.errors.deep_view() =~= old(self).errors.deep_view() + stmt_diags(
                old(self).module.symbol_table,
                Statement::ImportFrom(*i),
            ));
        }
    }

    /// Visit an assignment's targets, then its value; the statement itself
    /// has no rule at this snapshot.
    fn visit_assign(&mut self, a: &Assign)
        ensures
            final(self).module == old(self).module,
            final(self).options == old(self).options,
            final(self).errors.deep_view() == old(self).errors.deep_view() + stmt_diags(
                old(self).module.symbol_table,
                Statement::AssignStatement(*a),
            ),
        decreases *a,
    {
        self.visit_expr_vec(&a.targets);
        self.visit_expr(&a.value);
        proof {
            assert(self.errors.deep_view() =~= old(self).errors.deep_view() + stmt_diags(
                old(self).module.symbol_table,
                Statement::AssignStatement(*a),
            ));
        }
    }

    /// Visit an annotated assignment's target, annotation, and initializer;
    /// checking the initializer against the annotation is a future rule.
    fn visit_ann_assign(&mut self, a: &AnnAssign)
        ensures
            final(self).module == old(self).module,
            final(self).options == old(self).options,
            final(self).errors.deep_view() == old(self).errors.deep_view() + stmt_diags(
                old(self).module.symbol_table,
                Statement::AnnAssignStatement(*a),
            ),
        decreases *a,
    {
        self.visit_expr(&a.target);
        self.visit_expr(&a.annotation);
        self.visit_opt_expr(&a.value);
        proof {
            assert(self.errors.deep_view() =~= old(self).errors.deep_view() + stmt_diags(
                old(self).module.symbol_table,
                Statement::AnnAssignStatement(*a),
            ));
        }
    }

    /// Visit an augmented assignment's target and value; its operator has no
    /// rule at this snapshot.
    fn visit_aug_assign(&mut self, a: &AugAssign)
        ensures
            final(self).module == old(self).module,
            final(self).options == old(self).options,
            final(self).errors.deep_view() == old(self).errors.deep_view() + stmt_diags(
                old(self).module.symbol_table,
                Statement::AugAssignStatement(*a),
            ),
        decreases *a,
    {
        self.visit_expr(&a.target);
        self.visit_expr(&a.value);
        proof {
            assert(self.errors.deep_view() =~= old(self).errors.deep_view() + stmt_diags(
                old(self).module.symbol_table,
                Statement::AugAssignStatement(*a),
            ));
        }
    }

    /// Visit an assertion's test, then its message, if any.
    fn visit_assert(&mut self, a: &Assert)
        ensures
            final(self).module == old(self).module,
            final(self).options == old(self).options,
            final(self).errors.deep_view() == old(self).errors.deep_view() + stmt_diags(
                old(self).module.symbol_table,
                Statement::Assert(*a),
            ),
        decreases *a,
    {
        self.visit_expr(&a.test);
        self.visit_opt_expr(&a.msg);
        proof {
            assert(self.errors.deep_view() =~= old(self).errors.deep_view() + stmt_diags(
                old(self).module.symbol_table,
                Statement::Assert(*a),
            ));
        }
    }

    /// `pass` checks nothing.
    fn visit_pass(&mut self, p: &Pass)
        ensures
            final(self).module == old(self).module,
            final(self).options == old(self).options,
            final(self).errors.deep_view() == old(self).errors.deep_view() + stmt_diags(
                old(self).module.symbol_table,
                Statement::Pass(*p),
            ),
    {
        proof {
            assert(self.errors.deep_view() =~= old(self).errors.deep_view() + stmt_diags(
                old(self).module.symbol_table,
                Statement::Pass(*p),
            ));
        }
    }

    /// Visit a deletion's targets.
    fn visit_delete(&mut self, d: &Delete)
        ensures
            final(self).module == old(self).module,
            final(self).options == old(self).options,
            final(self).errors.deep_view() == old(self).errors.deep_view() + stmt_diags(
                old(self).module.symbol_table,
                Statement::Delete(*d),
            ),
        decreases *d,
    {
        self.visit_expr_vec(&d.targets);
    }

    /// Visit a return's value, if any.
    fn visit_return(&mut self, r: &Return)
        ensures
            final(self).module == old(self).module,
            final(self).options == old(self).options,
            final(self).errors.deep_view() == old(self).errors.deep_view() + stmt_diags(
                old(self).module.symbol_table,
                Statement::Return(*r),
            ),
        decreases *r,
    {
        self.visit_opt_expr(&r.value);
    }

    /// Visit a raise's exception and cause, if present.
    fn visit_raise(&mut self, r: &Raise)
        ensures
            final(self).module == old(self).module,
            final(self).options == old(self).options,
            final(self).errors.deep_view() == old(self).errors.deep_view() + stmt_diags(
                old(self).module.symbol_table,
                Statement::Raise(*r),
            ),
        decreases *r,
    {
        self.visit_opt_expr(&r.exc);
        self.visit_opt_expr(&r.cause);
        proof {
            assert(self.errors.deep_view() =~= old(self).errors.deep_view() + stmt_diags(
                old(self).module.symbol_table,
                Statement::Raise(*r),
            ));
        }
    }

    /// `break` checks nothing.
    fn visit_break(&mut self, b: &Break)
        ensures
            final(self).module == old(self).module,
            final(self).options == old(self).options,
            final(self).errors.deep_view() == old(self).errors.deep_view() + stmt_diags(
                old(self).module.symbol_table,
                Statement::Break(*b),
            ),
    {
        proof {
            assert(self.errors.deep_view() =~= old(self).errors.deep_view() + stmt_diags(
                old(self).module.symbol_table,
                Statement::Break(*b),
            ));
        }
    }

    /// `continue` checks nothing.
    fn visit_continue(&mut self, c: &Continue)
        ensures
            final(self).module == old(self).module,
            final(self).options == old(self).options,
            final(self).errors.deep_view() == old(self).errors.deep_view() + stmt_diags(
                old(self).module.symbol_table,
                Statement::Continue(*c),
            ),
    {
        proof {
            assert(self.errors.deep_view() =~= old(self).errors.deep_view() + stmt_diags(
                old(self).module.symbol_table,
                Statement::Continue(*c),
            ));
        }
    }

    /// A `global` declaration checks nothing.
    fn visit_global(&mut self, g: &Global)
        ensures
            final(self).module == old(self).module,
            final(self).options == old(self).options,
            final(self).errors.deep_view() == old(self).errors.deep_view() + stmt_diags(
                old(self).module.symbol_table,
                Statement::Global(*g),
            ),
    {
        proof {
            assert(self.errors.deep_view() =~= old(self).errors.deep_view() + stmt_diags(
                old(self).module.symbol_table,
                Statement::Global(*g),
            ));
        }
    }

    /// A `nonlocal` declaration checks nothing.
    fn visit_nonlocal(&mut self, n: &Nonlocal)
        ensures
            final(self).module == old(self).module,
            final(self).options == old(self).options,
            final(self).errors.deep_view() == old(self).errors.deep_view() + stmt_diags(
                old(self).module.symbol_table,
                Statement::Nonlocal(*n),
            ),
    {
        proof {
            assert(self.errors.deep_view() =~= old(self).errors.deep_view() + stmt_diags(
                old(self).module.symbol_table,
                Statement::Nonlocal(*n),
            ));
        }
    }

    /// Visit an `if`: its test, then each branch independently, under the
    /// same ambient scope — flow-insensitive by design.
    fn visit_if(&mut self, i: &If)
        ensures
            final(self).module == old(self).module,
            final(self).options == old(self).options,
            final(self).errors.deep_view() == old(self).errors.deep_view() + stmt_diags(
                old(self).module.symbol_table,
                Statement::IfStatement(*i),
            ),
        decreases *i,
    {
        self.visit_expr(&i.test);
        self.visit_stmt_vec(&i.body);
        self.visit_stmt_vec(&i.orelse);
        proof {
            assert(self.errors.deep_view() =~= old(self).errors.deep_view() + stmt_diags(
                old(self).module.symbol_table,
                Statement::IfStatement(*i),
            ));
        }
    }

    /// Visit a `while`: its test, body, and `else` body.
    fn visit_while(&mut self, w: &While)
        ensures
            final(self).module == old(self).module,
            final(self).options == old(self).options,
            final(self).errors.deep_view() == old(self).errors.deep_view() + stmt_diags(
                old(self).module.symbol_table,
                Statement::WhileStatement(*w),
            ),
        decreases *w,
    {
        self.visit_expr(&w.test);
        self.visit_stmt_vec(&w.body);
        self.visit_stmt_vec(&w.orelse);
        proof {
            assert(self.errors.deep_view() =~= old(self).errors.deep_view() + stmt_diags(
                old(self).module.symbol_table,
                Statement::WhileStatement(*w),
            ));
        }
    }

    /// Visit a `for`: its target, iterated expression, body, and `else`
    /// body.
    fn visit_for(&mut self, f: &For)
        ensures
            final(self).module == old(self).module,
            final(self).options == old(self).options,
            final(self).errors.deep_view() == old(self).errors.deep_view() + stmt_diags(
                old(self).module.symbol_table,
                Statement::ForStatement(*f),
            ),
        decreases *f,
    {
        self.visit_expr(&f.target);
        self.visit_expr(&f.iter);
        self.visit_stmt_vec(&f.body);
        self.visit_stmt_vec(&f.orelse);
        proof {
            assert(self.errors.deep_view() =~= old(self).errors.deep_view() + stmt_diags(
                old(self).module.symbol_table,
                Statement::ForStatement(*f),
            ));
        }
    }

    /// Visit one `with`-item: its context expression, then its target.
    fn visit_with_item(&mut self, w: &WithItem)
        ensures
            final(self).module == old(self).module,
            final(self).options == old(self).options,
            final(self).errors.deep_view() == old(self).errors.deep_view() + with_item_diags(
                old(self).module.symbol_table,
                *w,
            ),
        decreases *w,
    {
        self.visit_expr(&w.context_expr);
        self.visit_opt_expr(&w.optional_vars);
        proof {
            assert(self.errors.deep_view() =~= old(self).errors.deep_view() + with_item_diags(
                old(self).module.symbol_table,
                *w,
            ));
        }
    }

    /// Visit each `with`-item of a sequence, left to right.
    fn visit_with_item_vec(&mut self, ws: &Vec<WithItem>)
        ensures
            final(self).module == old(self).module,
            final(self).options == old(self).options,
            final(self).errors.deep_view() == old(self).errors.deep_view() + with_items_diags(
                old(self).module.symbol_table,
                ws@,
            ),
        decreases *ws,
    {
        let n = ws.len();
        let mut i: usize = 0;
        proof {
            assert(ws@.take(0) =~= Seq::<WithItem>::empty());
        }
        while i < n
            invariant
                n == ws@.len(),
                i <= n,
                self.module == old(self).module,
                self.options == old(self).options,
                self.errors.deep_view() == old(self).errors.deep_view() + with_items_diags(
                    old(self).module.symbol_table,
                    ws@.take(i as int),
                ),
            decreases n - i,
        {
            self.visit_with_item(&ws[i]);
            proof {
                assert(ws@.take(i as int + 1).drop_last() =~= ws@.take(i as int));
                assert(ws@.take(i as int + 1).last() == ws@[i as int]);
                assert(self.errors.deep_view() =~= old(self).errors.deep_view() + with_items_diags(
                    old(self).module.symbol_table,
                    ws@.take(i as int + 1),
                ));
            }
            i = i + 1;
        }
        proof {
            assert(ws@.take(n as int) =~= ws@);
        }
    }

    /// Visit a `with`: its items in order, then its body.
    fn visit_with(&mut self, w: &With)
        ensures
            final(self).module == old(self).module,
            final(self).options == old(self).options,
            final(self).errors.deep_view() == old(self).errors.deep_view() + stmt_diags(
                old(self).module.symbol_table,
                Statement::WithStatement(*w),
            ),
        decreases *w,
    {
        self.visit_with_item_vec(&w.items);
        self.visit_stmt_vec(&w.body);
        proof {
            assert(self.errors.deep_view() =~= old(self).errors.deep_view() + stmt_diags(
                old(self).module.symbol_table,
                Statement::WithStatement(*w),
            ));
        }
    }

    /// Visit one `except` clause: its exception type, then its body.
    fn visit_handler(&mut self, h: &ExceptHandler)
        ensures
            final(self).module == old(self).module,
            final(self).options == old(self).options,
            final(self).errors.deep_view() == old(self).errors.deep_view() + handler_diags(
                old(self).module.symbol_table,
                *h,
            ),
        decreases *h,
    {
        self.visit_opt_expr(&h.exception_type);
        self.visit_stmt_vec(&h.body);
        proof {
            assert(self.errors.deep_view() =~= old(self).errors.deep_view() + handler_diags(
                old(self).module.symbol_table,
                *h,
            ));
        }
    }

    /// Visit each `except` clause of a sequence, in order.
    fn visit_handler_vec(&mut self, hs: &Vec<ExceptHandler>)
        ensures
            final(self).module == old(self).module,
            final(self).options == old(self).options,
            final(self).errors.deep_view() == old(self).errors.deep_view() + handlers_diags(
                old(self).module.symbol_table,
                hs@,
            ),
        decreases *hs,
    {
        let n = hs.len();
        let mut i: usize = 0;
        proof {
            assert(hs@.take(0) =~= Seq::<ExceptHandler>::empty());
        }
        while i < n
            invariant
                n == hs@.len(),
                i <= n,
                self.module == old(self).module,
                self.options == old(self).options,
                self.errors.deep_view() == old(self).errors.deep_view() + handlers_diags(
                    old(self).module.symbol_table,
                    hs@.take(i as int),
                ),
            decreases n - i,
        {
            self.visit_handler(&hs[i]);
            proof {
                assert(hs@.take(i as int + 1).drop_last() =~= hs@.take(i as int));
                assert(hs@.take(i as int + 1).last() == hs@[i as int]);
                assert(self.errors.deep_view() =~= old(self).errors.deep_view() + handlers_diags(
                    old(self).module.symbol_table,
                    hs@.take(i as int + 1),
                ));
            }
            i = i + 1;
        }
        proof {
            assert(hs@.take(n as int) =~= hs@);
        }
    }

    /// Visit a `try`: body, handlers, `else` body, `finally` body, each
    /// recursed into unconditionally.
    fn visit_try(&mut self, t: &Try)
        ensures
            final(self).module == old(self).module,
            final(self).options == old(self).options,
            final(self).errors.deep_view() == old(self).errors.deep_view() + stmt_diags(
                old(self).module.symbol_table,
                Statement::TryStatement(*t),
            ),
        decreases *t,
    {
        self.visit_stmt_vec(&t.body);
        self.visit_handler_vec(&t.handlers);
        self.visit_stmt_vec(&t.orelse);
        self.visit_stmt_vec(&t.finalbody);
        proof {
            assert(self.errors.deep_view() =~= old(self).errors.deep_view() + stmt_diags(
                old(self).module.symbol_table,
                Statement::TryStatement(*t),
            ));
        }
    }

    /// Visit a `try*` exactly as a `try`.
    fn visit_try_star(&mut self, t: &TryStar)
        ensures
            final(self).module == old(self).module,
            final(self).options == old(self).options,
            final(self).errors.deep_view() == old(self).errors.deep_view() + stmt_diags(
                old(self).module.symbol_table,
                Statement::TryStarStatement(*t),
            ),
        decreases *t,
    {
        self.visit_stmt_vec(&t.body);
        self.visit_handler_vec(&t.handlers);
        self.visit_stmt_vec(&t.orelse);
        self.visit_stmt_vec(&t.finalbody);
        proof {
            assert(self.errors.deep_view() =~= old(self).errors.deep_view() + stmt_diags(
                old(self).module.symbol_table,
                Statement::TryStarStatement(*t),
            ));
        }
    }

    /// Recurse into a function definition's body.
    fn visit_function_def(&mut self, f: &FunctionDef)
        ensures
            final(self).module == old(self).module,
            final(self).options == old(self).options,
            final(self).errors.deep_view() == old(self).errors.deep_view() + stmt_diags(
                old(self).module.symbol_table,
                Statement::FunctionDef(*f),
            ),
        decreases *f,
    {
        self.visit_stmt_vec(&f.body);
    }

    /// Recurse into a class definition's body.
    fn visit_class_def(&mut self, c: &ClassDef)
        ensures
            final(self).module == old(self).module,
            final(self).options == old(self).options,
            final(self).errors.deep_view() == old(self).errors.deep_view() + stmt_diags(
                old(self).module.symbol_table,
                Statement::ClassDef(*c),
            ),
        decreases *c,
    {
        self.visit_stmt_vec(&c.body);
    }

    /// Visit one `match` arm: its guard, then its body.
    fn visit_match_case(&mut self, c: &MatchCase)
        ensures
            final(self).module == old(self).module,
            final(self).options == old(self).options,
            final(self).errors.deep_view() == old(self).errors.deep_view() + match_case_diags(
                old(self).module.symbol_table,
                *c,
            ),
        decreases *c,
    {
        self.visit_opt_expr(&c.guard);
        self.visit_stmt_vec(&c.body);
        proof {
            assert(self.errors.deep_view() =~= old(self).errors.deep_view() + match_case_diags(
                old(self).module.symbol_table,
                *c,
            ));
        }
    }

    /// Visit each `match` arm of a sequence, in order.
    fn visit_match_case_vec(&mut self, cs: &Vec<MatchCase>)
        ensures
            final(self).module == old(self).module,
            final(self).options == old(self).options,
            final(self).errors.deep_view() == old(self).errors.deep_view() + match_cases_diags(
                old(self).module.symbol_table,
                cs@,
            ),
        decreases *cs,
    {
        let n = cs.len();
        let mut i: usize = 0;
        proof {
            assert(cs@.take(0) =~= Seq::<MatchCase>::empty());
        }
        while i < n
            invariant
                n == cs@.len(),
                i <= n,
                self.module == old(self).module,
                self.options == old(self).options,
                self.errors.deep_view() == old(self).errors.deep_view() + match_cases_diags(
                    old(self).module.symbol_table,
                    cs@.take(i as int),
                ),
            decreases n - i,
        {
            self.visit_match_case(&cs[i]);
            proof {
                assert(cs@.take(i as int + 1).drop_last() =~= cs@.take(i as int));
                assert(cs@.take(i as int + 1).last() == cs@[i as int]);
                assert(self.errors.deep_view() =~= old(self).errors.deep_view()
                    + match_cases_diags(
                    old(self).module.symbol_table,
                    cs@.take(i as int + 1),
                ));
            }
            i = i + 1;
        }
        proof {
            assert(cs@.take(n as int) =~= cs@);
        }
    }

    /// Visit a `match`: its subject, then each arm independently.
    fn visit_match(&mut self, m: &Match)
        ensures
            final(self).module == old(self).module,
            final(self).options == old(self).options,
            final(self).errors.deep_view() == old(self).errors.deep_view() + stmt_diags(
                old(self).module.symbol_table,
                Statement::Match(*m),
            ),
        decreases *m,
    {
        self.visit_expr(&m.subject);
        self.visit_match_case_vec(&m.cases);
        proof {
            assert(self.errors.deep_view() =~= old(self).errors.deep_view() + stmt_diags(
                old(self).module.symbol_table,
                Statement::Match(*m),
            ));
        }
    }
}

} // verus!
