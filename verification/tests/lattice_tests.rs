use typechecker::symbol_table::{Declaration, Symbol, SymbolTable, VariableDeclaration};
use typechecker::syntax::{Constant, ConstantValue, Expression, Name};
use typechecker::type_inference::{get_type_from_annotation, type_check_bin_op};
use typechecker::syntax::BinaryOperator;
use typechecker::types::{is_unknown, type_equal, type_of_constant, Type};

fn name(id: &str) -> Expression {
    Expression::Name(Name { id: id.to_string() })
}

#[test]
fn test_type_of_constant_tags() {
    assert_eq!(type_of_constant(&ConstantValue::Int(7)), Type::Int);
    assert_eq!(type_of_constant(&ConstantValue::Float("1.5".to_string())), Type::Float);
    assert_eq!(type_of_constant(&ConstantValue::Str("s".to_string())), Type::Str);
    assert_eq!(type_of_constant(&ConstantValue::Bool(false)), Type::Bool);
    assert_eq!(type_of_constant(&ConstantValue::NoneValue), Type::NoneType);
    assert_eq!(type_of_constant(&ConstantValue::Bytes(vec![0])), Type::Unknown);
    assert_eq!(type_of_constant(&ConstantValue::Ellipsis), Type::Unknown);
}

#[test]
fn test_type_equal_is_strict_identity() {
    assert!(type_equal(&Type::Int, &Type::Int));
    assert!(type_equal(&Type::Unknown, &Type::Unknown));
    assert!(!type_equal(&Type::Int, &Type::Float));
    assert!(!type_equal(&Type::Unknown, &Type::Int));
}

#[test]
fn test_is_unknown() {
    assert!(is_unknown(&Type::Unknown));
    assert!(!is_unknown(&Type::NoneType));
}

#[test]
fn test_annotation_decoding() {
    assert_eq!(get_type_from_annotation(&name("int")), Type::Int);
    assert_eq!(get_type_from_annotation(&name("float")), Type::Float);
    assert_eq!(get_type_from_annotation(&name("str")), Type::Str);
    assert_eq!(get_type_from_annotation(&name("bool")), Type::Bool);
    assert_eq!(get_type_from_annotation(&name("None")), Type::NoneType);
    assert_eq!(get_type_from_annotation(&name("list")), Type::Unknown);
    let constant = Expression::Constant(Constant { value: ConstantValue::Int(0) });
    assert_eq!(get_type_from_annotation(&constant), Type::Unknown);
}

#[test]
fn test_bin_op_rule_table() {
    assert!(type_check_bin_op(&Type::Int, &Type::Int, &BinaryOperator::Pow));
    assert!(type_check_bin_op(&Type::Int, &Type::Float, &BinaryOperator::Div));
    assert!(type_check_bin_op(&Type::Str, &Type::Str, &BinaryOperator::Add));
    assert!(type_check_bin_op(&Type::Unknown, &Type::Str, &BinaryOperator::Sub));
    assert!(type_check_bin_op(&Type::Bool, &Type::Unknown, &BinaryOperator::MatMult));
    assert!(!type_check_bin_op(&Type::Str, &Type::Int, &BinaryOperator::Add));
    assert!(!type_check_bin_op(&Type::Str, &Type::Str, &BinaryOperator::Mult));
    assert!(!type_check_bin_op(&Type::Int, &Type::Int, &BinaryOperator::BitOr));
    assert!(!type_check_bin_op(&Type::Bool, &Type::Bool, &BinaryOperator::Add));
    assert!(!type_check_bin_op(&Type::NoneType, &Type::NoneType, &BinaryOperator::Add));
}

#[test]
fn test_lookup_in_scope_finds_first_match() {
    let table = SymbolTable {
        symbols: vec![
            Symbol { name: "a".to_string(), declarations: vec![Declaration::Function] },
            Symbol { name: "b".to_string(), declarations: vec![Declaration::Class] },
        ],
    };
    assert!(table.lookup_in_scope(&"a".to_string()).is_some());
    assert!(table.lookup_in_scope(&"b".to_string()).is_some());
    assert!(table.lookup_in_scope(&"c".to_string()).is_none());
}

#[test]
fn test_last_declaration_is_the_most_recent() {
    let symbol = Symbol {
        name: "x".to_string(),
        declarations: vec![
            Declaration::Import,
            Declaration::Variable(VariableDeclaration { type_annotation: None, value: None }),
        ],
    };
    match symbol.last_declaration() {
        Some(Declaration::Variable(_)) => {},
        other => panic!("expected the variable declaration, got {:?}", is_some_kind(other)),
    }
    let empty = Symbol { name: "y".to_string(), declarations: vec![] };
    assert!(empty.last_declaration().is_none());
}

fn is_some_kind(d: Option<&Declaration>) -> &'static str {
    match d {
        None => "nothing",
        Some(Declaration::Variable(_)) => "a variable",
        Some(Declaration::Function) => "a function",
        Some(Declaration::Class) => "a class",
        Some(Declaration::Import) => "an import",
        Some(Declaration::Parameter) => "a parameter",
    }
}
