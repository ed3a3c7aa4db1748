use typechecker::checker::TypeChecker;
use typechecker::settings::Settings;
use typechecker::state::State;
use typechecker::symbol_table::{Declaration, Symbol, SymbolTable, VariableDeclaration};
use typechecker::syntax::{
    Assign, BinOp, BinaryOperator, Call, Constant, ConstantValue, Expression, If, Module, Name,
    Statement,
};

fn int_lit(n: i64) -> Expression {
    Expression::Constant(Constant { value: ConstantValue::Int(n) })
}

fn float(lexeme: &str) -> Expression {
    Expression::Constant(Constant { value: ConstantValue::Float(lexeme.to_string()) })
}

fn string(s: &str) -> Expression {
    Expression::Constant(Constant { value: ConstantValue::Str(s.to_string()) })
}

fn boolean(b: bool) -> Expression {
    Expression::Constant(Constant { value: ConstantValue::Bool(b) })
}

fn none_literal() -> Expression {
    Expression::Constant(Constant { value: ConstantValue::NoneValue })
}

fn name(id: &str) -> Expression {
    Expression::Name(Name { id: id.to_string() })
}

fn bin(left: Expression, op: BinaryOperator, right: Expression) -> Expression {
    Expression::BinOp(BinOp { op, left: Box::new(left), right: Box::new(right) })
}

fn expr_stmt(e: Expression) -> Statement {
    Statement::ExpressionStatement(e)
}

fn assign(target: &str, value: Expression) -> Statement {
    Statement::AssignStatement(Assign { targets: vec![name(target)], value })
}

fn annotated_symbol(symbol_name: &str, annotation: &str) -> Symbol {
    Symbol {
        name: symbol_name.to_string(),
        declarations: vec![Declaration::Variable(VariableDeclaration {
            type_annotation: Some(name(annotation)),
            value: None,
        })],
    }
}

fn run(body: Vec<Statement>, symbols: Vec<Symbol>) -> Vec<String> {
    let state = State { file: Module { body }, symbol_table: SymbolTable { symbols } };
    let options = Settings { debug: false };
    let mut checker = TypeChecker::new(&state, &options);
    checker.type_check();
    checker.errors
}

const ARITHMETIC_OPS: [BinaryOperator; 7] = [
    BinaryOperator::Add,
    BinaryOperator::Sub,
    BinaryOperator::Mult,
    BinaryOperator::Div,
    BinaryOperator::FloorDiv,
    BinaryOperator::Mod,
    BinaryOperator::Pow,
];

#[test]
fn test_int_arithmetic_passes() {
    for op in ARITHMETIC_OPS {
        let errors = run(vec![expr_stmt(bin(int_lit(1), op, int_lit(2)))], vec![]);
        assert!(errors.is_empty(), "unexpected diagnostics: {:?}", errors);
    }
}

#[test]
fn test_int_float_mix_passes() {
    for op in ARITHMETIC_OPS {
        let errors = run(
            vec![
                expr_stmt(bin(int_lit(1), op, float("2.5"))),
                expr_stmt(bin(float("2.5"), op, int_lit(1))),
                expr_stmt(bin(float("2.5"), op, float("0.5"))),
            ],
            vec![],
        );
        assert!(errors.is_empty(), "unexpected diagnostics: {:?}", errors);
    }
}

#[test]
fn test_str_concat_passes() {
    let errors = run(
        vec![expr_stmt(bin(string("a"), BinaryOperator::Add, string("b")))],
        vec![],
    );
    assert!(errors.is_empty(), "unexpected diagnostics: {:?}", errors);
}

#[test]
fn test_str_int_concat_fails() {
    let errors = run(
        vec![expr_stmt(bin(string("a"), BinaryOperator::Add, int_lit(1)))],
        vec![],
    );
    assert_eq!(errors.len(), 1);
    assert_eq!(
        errors[0],
        "Operator '+' not supported for types 'Str' and 'Int'"
    );
}

#[test]
fn test_unknown_operand_always_passes() {
    // An unresolved name has no type information, and a call has no
    // inference rule yet: both are `Unknown`, which every operator accepts.
    let call = Expression::Call(Call { func: Box::new(name("f")), args: vec![] });
    let errors = run(
        vec![
            expr_stmt(bin(name("missing"), BinaryOperator::Add, string("a"))),
            expr_stmt(bin(int_lit(1), BinaryOperator::LShift, name("missing"))),
            expr_stmt(bin(call, BinaryOperator::Sub, string("a"))),
        ],
        vec![],
    );
    assert!(errors.is_empty(), "unexpected diagnostics: {:?}", errors);
}

#[test]
fn test_rerun_is_identical() {
    let body = vec![
        assign("a", bin(string("x"), BinaryOperator::Add, int_lit(1))),
        assign("b", bin(int_lit(1), BinaryOperator::Add, string("x"))),
    ];
    let state = State {
        file: Module { body },
        symbol_table: SymbolTable { symbols: vec![] },
    };
    let options = Settings { debug: false };
    let mut first = TypeChecker::new(&state, &options);
    first.type_check();
    let mut second = TypeChecker::new(&state, &options);
    second.type_check();
    assert_eq!(first.errors, second.errors);
    assert_eq!(first.errors.len(), 2);
}

#[test]
fn test_diagnostics_follow_statement_order() {
    let errors = run(
        vec![
            assign("a", bin(string("x"), BinaryOperator::Add, int_lit(1))),
            assign("b", bin(int_lit(1), BinaryOperator::Add, string("x"))),
        ],
        vec![],
    );
    assert_eq!(errors.len(), 2);
    assert_eq!(
        errors[0],
        "Operator '+' not supported for types 'Str' and 'Int'"
    );
    assert_eq!(
        errors[1],
        "Operator '+' not supported for types 'Int' and 'Str'"
    );
}

#[test]
fn test_branches_checked_in_isolation() {
    // if cond: x = "a" + 1 else: x = 2 -- only the if-branch reports.
    let errors = run(
        vec![Statement::IfStatement(If {
            test: name("cond"),
            body: vec![assign("x", bin(string("a"), BinaryOperator::Add, int_lit(1)))],
            orelse: vec![assign("x", int_lit(2))],
        })],
        vec![],
    );
    assert_eq!(errors.len(), 1);
    assert_eq!(
        errors[0],
        "Operator '+' not supported for types 'Str' and 'Int'"
    );
}

#[test]
fn test_nested_mismatch_reported_once() {
    // (1 + "a") + 2 -- the inner mismatch fires; the outer operation sees
    // the inner expression as Unknown and is accepted.
    let inner = bin(int_lit(1), BinaryOperator::Add, string("a"));
    let errors = run(
        vec![expr_stmt(bin(inner, BinaryOperator::Add, int_lit(2)))],
        vec![],
    );
    assert_eq!(errors.len(), 1);
    assert_eq!(
        errors[0],
        "Operator '+' not supported for types 'Int' and 'Str'"
    );
}

#[test]
fn test_annotated_name_takes_its_type() {
    let errors = run(
        vec![
            expr_stmt(bin(name("x"), BinaryOperator::Add, int_lit(1))),
            expr_stmt(bin(name("s"), BinaryOperator::Add, int_lit(1))),
        ],
        vec![annotated_symbol("x", "int"), annotated_symbol("s", "str")],
    );
    assert_eq!(errors.len(), 1);
    assert_eq!(
        errors[0],
        "Operator '+' not supported for types 'Str' and 'Int'"
    );
}

#[test]
fn test_all_annotation_identifiers() {
    let errors = run(
        vec![
            expr_stmt(bin(name("i"), BinaryOperator::Add, int_lit(1))),
            expr_stmt(bin(name("f"), BinaryOperator::Mult, int_lit(2))),
            expr_stmt(bin(name("b"), BinaryOperator::Add, int_lit(1))),
            expr_stmt(bin(name("n"), BinaryOperator::Add, int_lit(1))),
            expr_stmt(bin(name("u"), BinaryOperator::Add, int_lit(1))),
        ],
        vec![
            annotated_symbol("i", "int"),
            annotated_symbol("f", "float"),
            annotated_symbol("b", "bool"),
            annotated_symbol("n", "None"),
            annotated_symbol("u", "Widget"),
        ],
    );
    assert_eq!(errors.len(), 2);
    assert_eq!(
        errors[0],
        "Operator '+' not supported for types 'Bool' and 'Int'"
    );
    assert_eq!(
        errors[1],
        "Operator '+' not supported for types 'None' and 'Int'"
    );
}

#[test]
fn test_last_declaration_wins() {
    let symbol = Symbol {
        name: "x".to_string(),
        declarations: vec![
            Declaration::Variable(VariableDeclaration {
                type_annotation: Some(name("int")),
                value: None,
            }),
            Declaration::Variable(VariableDeclaration {
                type_annotation: Some(name("str")),
                value: None,
            }),
        ],
    };
    let errors = run(
        vec![expr_stmt(bin(name("x"), BinaryOperator::Add, int_lit(1)))],
        vec![symbol],
    );
    assert_eq!(errors.len(), 1);
    assert_eq!(
        errors[0],
        "Operator '+' not supported for types 'Str' and 'Int'"
    );
}

#[test]
fn test_unannotated_variable_is_unknown() {
    let symbol = Symbol {
        name: "x".to_string(),
        declarations: vec![Declaration::Variable(VariableDeclaration {
            type_annotation: None,
            value: Some(int_lit(3)),
        })],
    };
    let errors = run(
        vec![expr_stmt(bin(name("x"), BinaryOperator::Add, string("a")))],
        vec![symbol],
    );
    assert!(errors.is_empty(), "unexpected diagnostics: {:?}", errors);
}

#[test]
fn test_non_variable_declaration_is_unknown() {
    let symbol = Symbol {
        name: "f".to_string(),
        declarations: vec![Declaration::Function],
    };
    let errors = run(
        vec![expr_stmt(bin(name("f"), BinaryOperator::Add, string("a")))],
        vec![symbol],
    );
    assert!(errors.is_empty(), "unexpected diagnostics: {:?}", errors);
}

#[test]
fn test_unmodeled_literals_are_unknown() {
    let bytes = Expression::Constant(Constant { value: ConstantValue::Bytes(vec![1, 2]) });
    let ellipsis = Expression::Constant(Constant { value: ConstantValue::Ellipsis });
    let errors = run(
        vec![
            expr_stmt(bin(bytes, BinaryOperator::Add, int_lit(1))),
            expr_stmt(bin(ellipsis, BinaryOperator::Mult, string("a"))),
        ],
        vec![],
    );
    assert!(errors.is_empty(), "unexpected diagnostics: {:?}", errors);
}

#[test]
fn test_concrete_pairs_without_rule_are_rejected() {
    let errors = run(
        vec![
            expr_stmt(bin(boolean(true), BinaryOperator::Add, int_lit(1))),
            expr_stmt(bin(none_literal(), BinaryOperator::Add, int_lit(1))),
            expr_stmt(bin(int_lit(1), BinaryOperator::LShift, int_lit(2))),
            expr_stmt(bin(float("1.5"), BinaryOperator::Mult, string("a"))),
            expr_stmt(bin(string("a"), BinaryOperator::Sub, string("b"))),
        ],
        vec![],
    );
    assert_eq!(errors.len(), 5);
    assert_eq!(
        errors[0],
        "Operator '+' not supported for types 'Bool' and 'Int'"
    );
    assert_eq!(
        errors[1],
        "Operator '+' not supported for types 'None' and 'Int'"
    );
    assert_eq!(
        errors[2],
        "Operator '<<' not supported for types 'Int' and 'Int'"
    );
    assert_eq!(
        errors[3],
        "Operator '*' not supported for types 'Float' and 'Str'"
    );
    assert_eq!(
        errors[4],
        "Operator '-' not supported for types 'Str' and 'Str'"
    );
}

#[test]
fn test_operator_spellings_in_messages() {
    let errors = run(
        vec![
            expr_stmt(bin(string("a"), BinaryOperator::Pow, string("b"))),
            expr_stmt(bin(string("a"), BinaryOperator::FloorDiv, string("b"))),
            expr_stmt(bin(string("a"), BinaryOperator::MatMult, string("b"))),
            expr_stmt(bin(string("a"), BinaryOperator::BitAnd, string("b"))),
        ],
        vec![],
    );
    assert_eq!(errors.len(), 4);
    assert_eq!(
        errors[0],
        "Operator '**' not supported for types 'Str' and 'Str'"
    );
    assert_eq!(
        errors[1],
        "Operator '//' not supported for types 'Str' and 'Str'"
    );
    assert_eq!(
        errors[2],
        "Operator '@' not supported for types 'Str' and 'Str'"
    );
    assert_eq!(
        errors[3],
        "Operator '&' not supported for types 'Str' and 'Str'"
    );
}

#[test]
fn test_empty_module_reports_nothing() {
    let errors = run(vec![], vec![]);
    assert!(errors.is_empty());
}
