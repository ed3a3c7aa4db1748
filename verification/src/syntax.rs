//! The syntax tree the checker walks.
//!
//! The tree is produced by an external parsing collaborator and handed to the
//! checker fully built; the checker only reads it. Every statement and
//! expression kind of the source language is a variant of a closed enum, so
//! an exhaustive match is forced at compile time and a newly added node kind
//! cannot silently skip traversal.
//!
//! A float literal carries its lexeme as text: the checker only ever reads
//! the tag of a constant, never its numeric value.

use vstd::prelude::*;

verus! {

/// A literal constant's value, tagged by kind.
pub enum ConstantValue {
    Int(i64),
    /// The lexeme of a floating-point literal; only the tag matters here.
    Float(String),
    Str(String),
    Bool(bool),
    NoneValue,
    Bytes(Vec<u8>),
    Ellipsis,
}

/// A binary operator between two expressions.
#[derive(Clone, Copy, PartialEq, Eq, Structural, Debug)]
pub enum BinaryOperator {
    Add,
    Sub,
    Mult,
    MatMult,
    Div,
    Mod,
    Pow,
    FloorDiv,
    LShift,
    RShift,
    BitOr,
    BitXor,
    BitAnd,
}

/// A literal constant expression.
pub struct Constant {
    pub value: ConstantValue,
}

/// A use of a name.
pub struct Name {
    pub id: String,
}

/// A list display.
pub struct List {
    pub elements: Vec<Expression>,
}

/// A tuple display.
pub struct Tuple {
    pub elements: Vec<Expression>,
}

/// A dict display; keys and values are parallel sequences.
pub struct Dict {
    pub keys: Vec<Expression>,
    pub values: Vec<Expression>,
}

/// A set display.
pub struct SetLiteral {
    pub elements: Vec<Expression>,
}

/// A boolean operation (`and` / `or`) over two or more values.
pub struct BoolOperation {
    pub values: Vec<Expression>,
}

/// A unary operation.
pub struct UnaryOperation {
    pub operand: Box<Expression>,
}

/// A binary operation: the one expression kind with a fully specified
/// type-checking rule at this snapshot.
pub struct BinOp {
    pub op: BinaryOperator,
    pub left: Box<Expression>,
    pub right: Box<Expression>,
}

/// A named expression (`target := value`).
pub struct NamedExpression {
    pub target: Box<Expression>,
    pub value: Box<Expression>,
}

/// A `yield` expression.
pub struct Yield {
    pub value: Option<Box<Expression>>,
}

/// A `yield from` expression.
pub struct YieldFrom {
    pub value: Box<Expression>,
}

/// A starred expression.
pub struct Starred {
    pub value: Box<Expression>,
}

/// One `for ... in ... if ...` clause of a comprehension.
pub struct Comprehension {
    pub target: Box<Expression>,
    pub iter: Box<Expression>,
    pub ifs: Vec<Expression>,
}

/// A generator expression.
pub struct Generator {
    pub element: Box<Expression>,
    pub generators: Vec<Comprehension>,
}

/// A list comprehension.
pub struct ListComp {
    pub element: Box<Expression>,
    pub generators: Vec<Comprehension>,
}

/// A set comprehension.
pub struct SetComp {
    pub element: Box<Expression>,
    pub generators: Vec<Comprehension>,
}

/// A dict comprehension.
pub struct DictComp {
    pub key: Box<Expression>,
    pub value: Box<Expression>,
    pub generators: Vec<Comprehension>,
}

/// An attribute access (`value.attr`).
pub struct Attribute {
    pub value: Box<Expression>,
    pub attr: String,
}

/// A subscript (`value[slice]`).
pub struct Subscript {
    pub value: Box<Expression>,
    pub slice: Box<Expression>,
}

/// A slice (`lower:upper:step`).
pub struct Slice {
    pub lower: Option<Box<Expression>>,
    pub upper: Option<Box<Expression>>,
    pub step: Option<Box<Expression>>,
}

/// A call.
pub struct Call {
    pub func: Box<Expression>,
    pub args: Vec<Expression>,
}

/// An `await` expression.
pub struct Await {
    pub value: Box<Expression>,
}

/// A comparison chain (`left < a <= b ...`).
pub struct Compare {
    pub left: Box<Expression>,
    pub comparators: Vec<Expression>,
}

/// A lambda; only its body expression matters to this pass.
pub struct Lambda {
    pub body: Box<Expression>,
}

/// A conditional expression (`body if test else orelse`).
pub struct IfExp {
    pub test: Box<Expression>,
    pub body: Box<Expression>,
    pub orelse: Box<Expression>,
}

/// A formatted string literal, a sequence of parts.
pub struct JoinedStr {
    pub values: Vec<Expression>,
}

/// One interpolated part of a formatted string.
pub struct FormattedValue {
    pub value: Box<Expression>,
}

/// An expression, tagged by syntactic kind. The set is closed: the traversal
/// matches every variant explicitly.
pub enum Expression {
    Constant(Constant),
    List(List),
    Tuple(Tuple),
    Dict(Dict),
    SetExpr(SetLiteral),
    Name(Name),
    BoolOp(BoolOperation),
    UnaryOp(UnaryOperation),
    BinOp(BinOp),
    NamedExpr(NamedExpression),
    Yield(Yield),
    YieldFrom(YieldFrom),
    Starred(Starred),
    Generator(Generator),
    ListComp(ListComp),
    SetComp(SetComp),
    DictComp(DictComp),
    Attribute(Attribute),
    Subscript(Subscript),
    Slice(Slice),
    Call(Call),
    Await(Await),
    Compare(Compare),
    Lambda(Lambda),
    IfExp(IfExp),
    JoinedStr(JoinedStr),
    FormattedValue(FormattedValue),
}

/// An `import` statement.
pub struct Import {
    pub names: Vec<String>,
}

/// A `from ... import ...` statement.
pub struct ImportFrom {
    pub module: String,
    pub names: Vec<String>,
}

/// A plain assignment (`targets = value`).
pub struct Assign {
    pub targets: Vec<Expression>,
    pub value: Expression,
}

/// An annotated assignment (`target: annotation = value`).
pub struct AnnAssign {
    pub target: Expression,
    pub annotation: Expression,
    pub value: Option<Expression>,
}

/// An augmented assignment (`target op= value`).
pub struct AugAssign {
    pub target: Expression,
    pub op: BinaryOperator,
    pub value: Expression,
}

/// An `assert` statement.
pub struct Assert {
    pub test: Expression,
    pub msg: Option<Expression>,
}

/// A `pass` statement.
pub struct Pass {
}

/// A `del` statement.
pub struct Delete {
    pub targets: Vec<Expression>,
}

/// A `return` statement.
pub struct Return {
    pub value: Option<Expression>,
}

/// A `raise` statement.
pub struct Raise {
    pub exc: Option<Expression>,
    pub cause: Option<Expression>,
}

/// A `break` statement.
pub struct Break {
}

/// A `continue` statement.
pub struct Continue {
}

/// A `global` statement.
pub struct Global {
    pub names: Vec<String>,
}

/// A `nonlocal` statement.
pub struct Nonlocal {
    pub names: Vec<String>,
}

/// An `if` statement with its two branches.
pub struct If {
    pub test: Expression,
    pub body: Vec<Statement>,
    pub orelse: Vec<Statement>,
}

/// A `while` loop.
pub struct While {
    pub test: Expression,
    pub body: Vec<Statement>,
    pub orelse: Vec<Statement>,
}

/// A `for` loop.
pub struct For {
    pub target: Expression,
    pub iter: Expression,
    pub body: Vec<Statement>,
    pub orelse: Vec<Statement>,
}

/// One `as`-item of a `with` statement.
pub struct WithItem {
    pub context_expr: Expression,
    pub optional_vars: Option<Expression>,
}

/// A `with` statement.
pub struct With {
    pub items: Vec<WithItem>,
    pub body: Vec<Statement>,
}

/// One `except` clause of a `try` statement.
pub struct ExceptHandler {
    pub exception_type: Option<Expression>,
    pub name: Option<String>,
    pub body: Vec<Statement>,
}

/// A `try` statement.
pub struct Try {
    pub body: Vec<Statement>,
    pub handlers: Vec<ExceptHandler>,
    pub orelse: Vec<Statement>,
    pub finalbody: Vec<Statement>,
}

/// A `try*` statement (exception groups); traversed like `try`.
pub struct TryStar {
    pub body: Vec<Statement>,
    pub handlers: Vec<ExceptHandler>,
    pub orelse: Vec<Statement>,
    pub finalbody: Vec<Statement>,
}

/// A function definition; only its body matters to this pass.
pub struct FunctionDef {
    pub name: String,
    pub body: Vec<Statement>,
}

/// A class definition; only its body matters to this pass.
pub struct ClassDef {
    pub name: String,
    pub body: Vec<Statement>,
}

/// One arm of a `match` statement; the pattern itself carries no expression
/// this pass inspects, so only the guard and the body are modeled.
pub struct MatchCase {
    pub guard: Option<Expression>,
    pub body: Vec<Statement>,
}

/// A `match` statement.
pub struct Match {
    pub subject: Expression,
    pub cases: Vec<MatchCase>,
}

/// A statement, tagged by syntactic kind. The set is closed: the traversal
/// matches every variant explicitly.
pub enum Statement {
    ExpressionStatement(Expression),
    Import(Import),
    ImportFrom(ImportFrom),
    AssignStatement(Assign),
    AnnAssignStatement(AnnAssign),
    AugAssignStatement(AugAssign),
    Assert(Assert),
    Pass(Pass),
    Delete(Delete),
    Return(Return),
    Raise(Raise),
    Break(Break),
    Continue(Continue),
    Global(Global),
    Nonlocal(Nonlocal),
    IfStatement(If),
    WhileStatement(While),
    ForStatement(For),
    WithStatement(With),
    TryStatement(Try),
    TryStarStatement(TryStar),
    FunctionDef(FunctionDef),
    ClassDef(ClassDef),
    Match(Match),
}

/// A parsed translation unit: its top-level statements in document order.
pub struct Module {
    pub body: Vec<Statement>,
}

} // verus!
