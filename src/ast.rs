//! The syntax tree that the printer renders. The tree is owned by the caller
//! and only borrowed while it is printed.
use vstd::prelude::*;

verus! {

/// A whole script or module: an ordered list of top-level items.
#[derive(Debug)]
pub enum Program {
    Script(Vec<ProgramPart>),
    Mod(Vec<ProgramPart>),
}

/// One item of a program or of a block.
#[derive(Debug)]
pub enum ProgramPart {
    Decl(Decl),
    Dir(Dir),
    Stmt(Stmt),
}

/// A directive such as `'use strict';`.
#[derive(Debug)]
pub struct Dir {
    pub expr: Literal,
    pub dir: String,
}

#[derive(Debug)]
pub enum Decl {
    Variable(VariableKind, Vec<VariableDecl>),
    Class(Class),
    Function(Function),
    Export(Box<ModExport>),
    Import(Box<ModImport>),
}

#[derive(Debug)]
pub enum VariableKind {
    Var,
    Let,
    Const,
}

/// One binding of a variable group: a pattern and an optional initializer.
#[derive(Debug)]
pub struct VariableDecl {
    pub id: Pat,
    pub init: Option<Expr>,
}

#[derive(Debug)]
pub struct Class {
    pub id: Option<String>,
    pub super_class: Option<Box<Expr>>,
    pub body: Vec<Property>,
}

#[derive(Debug)]
pub enum ModExport {
    Default(DefaultExportDecl),
    Named(NamedExportDecl),
    All(Literal),
}

#[derive(Debug)]
pub enum DefaultExportDecl {
    Decl(Decl),
    Expr(Expr),
}

#[derive(Debug)]
pub enum NamedExportDecl {
    Decl(Decl),
    Specifier(Vec<ExportSpecifier>, Option<Literal>),
}

#[derive(Debug)]
pub struct ExportSpecifier {
    pub local: String,
    pub exported: Option<String>,
}

#[derive(Debug)]
pub struct ModImport {
    pub specifiers: Vec<ImportSpecifier>,
    pub source: Literal,
}

#[derive(Debug)]
pub enum ImportSpecifier {
    Normal(String, Option<String>),
    Default(String),
    Namespace(String),
}

#[derive(Debug)]
pub enum Stmt {
    Expr(Expr),
    Block(Vec<ProgramPart>),
    Empty,
    Debugger,
    With(WithStmt),
    Return(Option<Expr>),
    Labeled(LabeledStmt),
    Break(Option<String>),
    Continue(Option<String>),
    If(IfStmt),
    Switch(SwitchStmt),
    Throw(Expr),
    Try(TryStmt),
    While(WhileStmt),
    DoWhile(DoWhileStmt),
    For(ForStmt),
    ForIn(ForInStmt),
    ForOf(ForOfStmt),
    Var(Vec<VariableDecl>),
}

#[derive(Debug)]
pub struct WithStmt {
    pub object: Expr,
    pub body: Box<Stmt>,
}

#[derive(Debug)]
pub struct LabeledStmt {
    pub label: String,
    pub body: Box<Stmt>,
}

#[derive(Debug)]
pub struct IfStmt {
    pub test: Expr,
    pub consequent: Box<Stmt>,
    pub alternate: Option<Box<Stmt>>,
}

#[derive(Debug)]
pub struct SwitchStmt {
    pub discriminant: Expr,
    pub cases: Vec<SwitchCase>,
}

/// A `case` (with a test) or `default` (without) clause.
#[derive(Debug)]
pub struct SwitchCase {
    pub test: Option<Expr>,
    pub consequent: Vec<ProgramPart>,
}

#[derive(Debug)]
pub struct TryStmt {
    pub block: Vec<ProgramPart>,
    pub handler: Option<CatchClause>,
    pub finalizer: Option<Vec<ProgramPart>>,
}

#[derive(Debug)]
pub struct CatchClause {
    pub param: Option<Pat>,
    pub body: Vec<ProgramPart>,
}

#[derive(Debug)]
pub struct WhileStmt {
    pub test: Expr,
    pub body: Box<Stmt>,
}

#[derive(Debug)]
pub struct DoWhileStmt {
    pub test: Expr,
    pub body: Box<Stmt>,
}

/// The classic counted loop `for (init; test; update) body`.
#[derive(Debug)]
pub struct ForStmt {
    pub init: Option<LoopInit>,
    pub test: Option<Expr>,
    pub update: Option<Expr>,
    pub body: Box<Stmt>,
}

#[derive(Debug)]
pub enum LoopInit {
    Variable(VariableKind, Vec<VariableDecl>),
    Expr(Expr),
}

#[derive(Debug)]
pub struct ForInStmt {
    pub left: LoopLeft,
    pub right: Expr,
    pub body: Box<Stmt>,
}

#[derive(Debug)]
pub struct ForOfStmt {
    pub left: LoopLeft,
    pub right: Expr,
    pub body: Box<Stmt>,
}

/// The left side of a `for .. in` or `for .. of` head.
#[derive(Debug)]
pub enum LoopLeft {
    Expr(Expr),
    Variable(VariableKind, VariableDecl),
    Pat(Pat),
}

/// A destructuring target.
#[derive(Debug)]
pub enum Pat {
    Identifier(String),
    Object(Vec<ObjectPatPart>),
    Array(Vec<Option<ArrayPatPart>>),
    RestElement(Box<Pat>),
    Assignment(AssignmentPat),
}

#[derive(Debug)]
pub enum ArrayPatPart {
    Pat(Pat),
    Expr(Expr),
}

#[derive(Debug)]
pub enum ObjectPatPart {
    Assignment(Property),
    Rest(Box<Pat>),
}

/// A pattern with a default value, `left = right`.
#[derive(Debug)]
pub struct AssignmentPat {
    pub left: Box<Pat>,
    pub right: Box<Expr>,
}

/// A property of an object literal, an object pattern or a class body.
#[derive(Debug)]
pub struct Property {
    pub key: PropertyKey,
    pub value: PropertyValue,
    pub kind: PropertyKind,
    pub computed: bool,
    pub short_hand: bool,
}

#[derive(Debug)]
pub enum PropertyKey {
    Literal(Literal),
    Expr(Expr),
    Pat(Pat),
}

#[derive(Debug)]
pub enum PropertyValue {
    Expr(Expr),
    Pat(Pat),
    /// A shorthand property with nothing after its key.
    Missing,
}

#[derive(Debug)]
pub enum PropertyKind {
    Init,
    Getter,
    Setter,
    Ctor,
    Method,
}

#[derive(Debug)]
pub enum FunctionArg {
    Expr(Expr),
    Pat(Pat),
}

/// A function declaration or expression.
#[derive(Debug)]
pub struct Function {
    pub id: Option<String>,
    pub params: Vec<FunctionArg>,
    pub body: Vec<ProgramPart>,
    pub generator: bool,
    pub is_async: bool,
}

#[derive(Debug)]
pub enum Expr {
    Array(Vec<Option<Expr>>),
    ArrowFunction(ArrowFunctionExpr),
    Assignment(AssignmentExpr),
    Await(Box<Expr>),
    Binary(BinaryExpr),
    Class(Class),
    Call(CallExpr),
    Conditional(ConditionalExpr),
    Function(Function),
    Ident(String),
    Literal(Literal),
    Logical(LogicalExpr),
    Member(MemberExpr),
    MetaProperty(MetaProperty),
    New(NewExpr),
    Object(Vec<ObjectProperty>),
    Sequence(Vec<Expr>),
    Spread(Box<Expr>),
    Super,
    TaggedTemplate(TaggedTemplateExpr),
    This,
    Unary(UnaryExpr),
    Update(UpdateExpr),
    Yield(YieldExpr),
}

#[derive(Debug)]
pub enum ObjectProperty {
    Property(Property),
    Spread(Box<Expr>),
}

#[derive(Debug)]
pub struct UnaryExpr {
    pub operator: UnaryOperator,
    pub prefix: bool,
    pub argument: Box<Expr>,
}

#[derive(Debug)]
pub enum UnaryOperator {
    Minus,
    Plus,
    Not,
    Tilde,
    TypeOf,
    Void,
    Delete,
}

#[derive(Debug)]
pub struct UpdateExpr {
    pub operator: UpdateOperator,
    pub argument: Box<Expr>,
    pub prefix: bool,
}

#[derive(Debug)]
pub enum UpdateOperator {
    Increment,
    Decrement,
}

#[derive(Debug)]
pub struct BinaryExpr {
    pub operator: BinaryOperator,
    pub left: Box<Expr>,
    pub right: Box<Expr>,
}

#[derive(Debug)]
pub enum BinaryOperator {
    Equal,
    NotEqual,
    StrictEqual,
    StrictNotEqual,
    LessThan,
    GreaterThan,
    LessThanEqual,
    GreaterThanEqual,
    LeftShift,
    RightShift,
    UnsignedRightShift,
    Plus,
    Minus,
    Times,
    Over,
    Mod,
    Or,
    XOr,
    And,
    In,
    InstanceOf,
    PowerOf,
}

#[derive(Debug)]
pub struct AssignmentExpr {
    pub operator: AssignmentOperator,
    pub left: AssignmentLeft,
    pub right: Box<Expr>,
}

#[derive(Debug)]
pub enum AssignmentLeft {
    Pat(Pat),
    Expr(Box<Expr>),
}

#[derive(Debug)]
pub enum AssignmentOperator {
    Equal,
    PlusEqual,
    MinusEqual,
    TimesEqual,
    DivEqual,
    ModEqual,
    LeftShiftEqual,
    RightShiftEqual,
    UnsignedRightShiftEqual,
    OrEqual,
    XOrEqual,
    AndEqual,
    PowerOfEqual,
}

#[derive(Debug)]
pub struct LogicalExpr {
    pub operator: LogicalOperator,
    pub left: Box<Expr>,
    pub right: Box<Expr>,
}

#[derive(Debug)]
pub enum LogicalOperator {
    Or,
    And,
}

#[derive(Debug)]
pub struct MemberExpr {
    pub object: Box<Expr>,
    pub property: Box<Expr>,
    pub computed: bool,
}

#[derive(Debug)]
pub struct ConditionalExpr {
    pub test: Box<Expr>,
    pub alternate: Box<Expr>,
    pub consequent: Box<Expr>,
}

#[derive(Debug)]
pub struct CallExpr {
    pub callee: Box<Expr>,
    pub arguments: Vec<Expr>,
}

#[derive(Debug)]
pub struct NewExpr {
    pub callee: Box<Expr>,
    pub arguments: Vec<Expr>,
}

#[derive(Debug)]
pub struct ArrowFunctionExpr {
    pub params: Vec<FunctionArg>,
    pub body: ArrowFunctionBody,
    pub is_async: bool,
}

#[derive(Debug)]
pub enum ArrowFunctionBody {
    FunctionBody(Vec<ProgramPart>),
    Expr(Box<Expr>),
}

#[derive(Debug)]
pub struct YieldExpr {
    pub argument: Option<Box<Expr>>,
    pub delegate: bool,
}

/// `meta.property`, as in `new.target`.
#[derive(Debug)]
pub struct MetaProperty {
    pub meta: String,
    pub property: String,
}

#[derive(Debug)]
pub struct TaggedTemplateExpr {
    pub tag: Box<Expr>,
    pub quasi: TemplateLiteral,
}

/// A template: literal chunks interleaved with embedded expressions.
#[derive(Debug)]
pub struct TemplateLiteral {
    pub quasis: Vec<TemplateElement>,
    pub expressions: Vec<Expr>,
}

/// One literal chunk of a template, as written in the source (`raw`) and
/// with its escapes resolved (`cooked`).
#[derive(Debug)]
pub struct TemplateElement {
    pub tail: bool,
    pub cooked: String,
    pub raw: String,
}

#[derive(Debug)]
pub enum Literal {
    Null,
    /// The raw text of the literal, quotes included.
    String(String),
    /// The number as written in the source.
    Number(String),
    Boolean(bool),
    RegEx(RegEx),
    Template(TemplateLiteral),
}

#[derive(Debug)]
pub struct RegEx {
    pub pattern: String,
    pub flags: String,
}

} // verus!
