use typechecker::checker::TypeChecker;
use typechecker::settings::Settings;
use typechecker::state::State;
use typechecker::symbol_table::SymbolTable;
use typechecker::syntax::{
    Assert, BinOp, BinaryOperator, Call, ClassDef, Comprehension, Constant, ConstantValue, Dict,
    ExceptHandler, Expression, For, FormattedValue, FunctionDef, IfExp, JoinedStr, Lambda, List,
    ListComp, Match, MatchCase, Module, Name, Return, Statement, Subscript, Try, UnaryOperation,
    While, With, WithItem,
};

fn int_lit(n: i64) -> Expression {
    Expression::Constant(Constant { value: ConstantValue::Int(n) })
}

fn string(s: &str) -> Expression {
    Expression::Constant(Constant { value: ConstantValue::Str(s.to_string()) })
}

fn name(id: &str) -> Expression {
    Expression::Name(Name { id: id.to_string() })
}

fn bin(left: Expression, op: BinaryOperator, right: Expression) -> Expression {
    Expression::BinOp(BinOp { op, left: Box::new(left), right: Box::new(right) })
}

fn mismatch() -> Expression {
    bin(string("a"), BinaryOperator::Add, int_lit(1))
}

fn expr_stmt(e: Expression) -> Statement {
    Statement::ExpressionStatement(e)
}

fn run(body: Vec<Statement>) -> Vec<String> {
    let state = State {
        file: Module { body },
        symbol_table: SymbolTable { symbols: vec![] },
    };
    let options = Settings { debug: false };
    let mut checker = TypeChecker::new(&state, &options);
    checker.type_check();
    checker.errors
}

const STR_INT_MESSAGE: &str = "Operator '+' not supported for types 'Str' and 'Int'";

#[test]
fn test_while_body_is_checked() {
    let errors = run(vec![Statement::WhileStatement(While {
        test: name("cond"),
        body: vec![expr_stmt(mismatch())],
        orelse: vec![],
    })]);
    assert_eq!(errors, vec![STR_INT_MESSAGE.to_string()]);
}

#[test]
fn test_for_body_and_orelse_are_checked() {
    let errors = run(vec![Statement::ForStatement(For {
        target: name("x"),
        iter: name("items"),
        body: vec![expr_stmt(mismatch())],
        orelse: vec![expr_stmt(mismatch())],
    })]);
    assert_eq!(errors.len(), 2);
}

#[test]
fn test_with_items_and_body_are_checked() {
    let errors = run(vec![Statement::WithStatement(With {
        items: vec![WithItem {
            context_expr: mismatch(),
            optional_vars: Some(name("h")),
        }],
        body: vec![expr_stmt(mismatch())],
    })]);
    assert_eq!(errors.len(), 2);
}

#[test]
fn test_try_checks_every_section() {
    let errors = run(vec![Statement::TryStatement(Try {
        body: vec![expr_stmt(mismatch())],
        handlers: vec![ExceptHandler {
            exception_type: Some(name("ValueError")),
            name: Some("e".to_string()),
            body: vec![expr_stmt(mismatch())],
        }],
        orelse: vec![expr_stmt(mismatch())],
        finalbody: vec![expr_stmt(mismatch())],
    })]);
    assert_eq!(errors.len(), 4);
}

#[test]
fn test_function_and_class_bodies_are_checked() {
    let errors = run(vec![
        Statement::FunctionDef(FunctionDef {
            name: "f".to_string(),
            body: vec![Statement::Return(Return { value: Some(mismatch()) })],
        }),
        Statement::ClassDef(ClassDef {
            name: "C".to_string(),
            body: vec![expr_stmt(mismatch())],
        }),
    ]);
    assert_eq!(errors.len(), 2);
}

#[test]
fn test_match_guard_and_case_bodies_are_checked() {
    let errors = run(vec![Statement::Match(Match {
        subject: name("x"),
        cases: vec![
            MatchCase {
                guard: Some(mismatch()),
                body: vec![expr_stmt(mismatch())],
            },
            MatchCase { guard: None, body: vec![Statement::Pass(typechecker::syntax::Pass {})] },
        ],
    })]);
    assert_eq!(errors.len(), 2);
}

#[test]
fn test_assert_test_and_message_are_checked() {
    let errors = run(vec![Statement::Assert(Assert {
        test: mismatch(),
        msg: Some(mismatch()),
    })]);
    assert_eq!(errors.len(), 2);
}

#[test]
fn test_mismatches_inside_expression_shells_are_found() {
    // Containers, calls, conditionals, lambdas, f-strings and comprehensions
    // have no rule of their own, but the walk still descends into them.
    let errors = run(vec![
        expr_stmt(Expression::List(List { elements: vec![mismatch()] })),
        expr_stmt(Expression::Dict(Dict {
            keys: vec![name("k")],
            values: vec![mismatch()],
        })),
        expr_stmt(Expression::Call(Call {
            func: Box::new(name("f")),
            args: vec![mismatch()],
        })),
        expr_stmt(Expression::UnaryOp(UnaryOperation { operand: Box::new(mismatch()) })),
        expr_stmt(Expression::IfExp(IfExp {
            test: Box::new(name("c")),
            body: Box::new(mismatch()),
            orelse: Box::new(name("d")),
        })),
        expr_stmt(Expression::Lambda(Lambda { body: Box::new(mismatch()) })),
        expr_stmt(Expression::JoinedStr(JoinedStr {
            values: vec![Expression::FormattedValue(FormattedValue {
                value: Box::new(mismatch()),
            })],
        })),
        expr_stmt(Expression::ListComp(ListComp {
            element: Box::new(mismatch()),
            generators: vec![Comprehension {
                target: Box::new(name("x")),
                iter: Box::new(name("xs")),
                ifs: vec![mismatch()],
            }],
        })),
        expr_stmt(Expression::Subscript(Subscript {
            value: Box::new(name("xs")),
            slice: Box::new(mismatch()),
        })),
    ]);
    assert_eq!(errors.len(), 10);
    for error in &errors {
        assert_eq!(error, STR_INT_MESSAGE);
    }
}

#[test]
fn test_statements_without_expressions_report_nothing() {
    let errors = run(vec![
        Statement::Import(typechecker::syntax::Import { names: vec!["os".to_string()] }),
        Statement::ImportFrom(typechecker::syntax::ImportFrom {
            module: "os".to_string(),
            names: vec!["path".to_string()],
        }),
        Statement::Pass(typechecker::syntax::Pass {}),
        Statement::Break(typechecker::syntax::Break {}),
        Statement::Continue(typechecker::syntax::Continue {}),
        Statement::Global(typechecker::syntax::Global { names: vec!["x".to_string()] }),
        Statement::Nonlocal(typechecker::syntax::Nonlocal { names: vec!["x".to_string()] }),
    ]);
    assert!(errors.is_empty(), "unexpected diagnostics: {:?}", errors);
}
