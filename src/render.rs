//! The text that each node of the tree renders to, as spec functions, and the
//! well-formedness of a tree.
use vstd::prelude::*;
use crate::ast::{
    Program, ProgramPart, Dir, Decl, VariableKind, VariableDecl, Class, ModExport, DefaultExportDecl, NamedExportDecl, ExportSpecifier, ModImport, ImportSpecifier, Stmt, IfStmt, SwitchStmt, SwitchCase, TryStmt, ForStmt, LoopInit, LoopLeft, Pat, ArrayPatPart, ObjectPatPart, Property, PropertyKey, PropertyValue, PropertyKind, FunctionArg, Function, Expr, ObjectProperty, UnaryExpr, UnaryOperator, UpdateExpr, UpdateOperator, BinaryExpr, BinaryOperator, AssignmentExpr, AssignmentLeft, AssignmentOperator, LogicalExpr, LogicalOperator, MemberExpr, ConditionalExpr, ArrowFunctionExpr, ArrowFunctionBody, YieldExpr, MetaProperty, TemplateLiteral, TemplateElement, Literal, RegEx,
};
use crate::quote::requoted;

verus! {

/// What the text of a node depends on besides the node: the configured line
/// break, indent unit and forced quote, the current block depth, and whether
/// the node stands in the initializer of a counted `for` loop.
pub struct Layout {
    pub nl: Seq<char>,
    pub unit: Seq<char>,
    pub quote: Option<char>,
    pub depth: nat,
    pub for_init: bool,
}

impl Layout {
    /// One block deeper; the depth stops growing at the largest `usize`.
    pub open spec fn deeper(self) -> Layout {
        Layout {
            depth: if self.depth < usize::MAX { self.depth + 1 } else { self.depth },
            ..self
        }
    }

    pub open spec fn with_init(self, b: bool) -> Layout {
        Layout { for_init: b, ..self }
    }

    /// The leading whitespace of a line at this depth.
    pub open spec fn margin(self) -> Seq<char> {
        repeat(self.unit, self.depth)
    }
}

pub open spec fn repeat(unit: Seq<char>, n: nat) -> Seq<char>
    decreases n,
{
    if n == 0 {
        Seq::empty()
    } else {
        repeat(unit, (n - 1) as nat) + unit
    }
}

pub open spec fn wrap(t: Seq<char>) -> Seq<char> {
    "("@ + t + ")"@
}

pub open spec fn opt_str(o: Option<String>) -> Seq<char> {
    match o {
        Some(s) => s@,
        None => Seq::empty(),
    }
}

pub open spec fn bool_text(b: bool) -> Seq<char> {
    if b {
        "true"@
    } else {
        "false"@
    }
}

/// A string literal as printed: re-quoted when a quote is forced and the
/// raw text can be re-quoted, else as written.
pub open spec fn string_text(quote: Option<char>, raw: Seq<char>) -> Seq<char> {
    match quote {
        Some(q) => match requoted(raw, q) {
            Some(r) => r,
            None => raw,
        },
        None => raw,
    }
}

pub open spec fn kind_text(k: VariableKind) -> Seq<char> {
    match k {
        VariableKind::Const => "const "@,
        VariableKind::Let => "let "@,
        VariableKind::Var => "var "@,
    }
}

pub open spec fn unary_op_text(op: UnaryOperator) -> Seq<char> {
    match op {
        UnaryOperator::Delete => "delete "@,
        UnaryOperator::Minus => "-"@,
        UnaryOperator::Not => "!"@,
        UnaryOperator::Plus => "+"@,
        UnaryOperator::Tilde => "~"@,
        UnaryOperator::TypeOf => "typeof "@,
        UnaryOperator::Void => "void "@,
    }
}

pub open spec fn update_op_text(op: UpdateOperator) -> Seq<char> {
    match op {
        UpdateOperator::Decrement => "--"@,
        UpdateOperator::Increment => "++"@,
    }
}

pub open spec fn binary_op_text(op: BinaryOperator) -> Seq<char> {
    match op {
        BinaryOperator::And => "&"@,
        BinaryOperator::Equal => "=="@,
        BinaryOperator::GreaterThan => ">"@,
        BinaryOperator::GreaterThanEqual => ">="@,
        BinaryOperator::In => "in"@,
        BinaryOperator::InstanceOf => "instanceof"@,
        BinaryOperator::LeftShift => "<<"@,
        BinaryOperator::LessThan => "<"@,
        BinaryOperator::LessThanEqual => "<="@,
        BinaryOperator::Minus => "-"@,
        BinaryOperator::Mod => "%"@,
        BinaryOperator::NotEqual => "!="@,
        BinaryOperator::Or => "|"@,
        BinaryOperator::Over => "/"@,
        BinaryOperator::Plus => "+"@,
        BinaryOperator::PowerOf => "**"@,
        BinaryOperator::RightShift => ">>"@,
        BinaryOperator::StrictEqual => "==="@,
        BinaryOperator::StrictNotEqual => "!=="@,
        BinaryOperator::Times => "*"@,
        BinaryOperator::UnsignedRightShift => ">>>"@,
        BinaryOperator::XOr => "^"@,
    }
}

pub open spec fn assign_op_text(op: AssignmentOperator) -> Seq<char> {
    match op {
        AssignmentOperator::AndEqual => "&="@,
        AssignmentOperator::DivEqual => "/="@,
        AssignmentOperator::Equal => "="@,
        AssignmentOperator::LeftShiftEqual => "<<="@,
        AssignmentOperator::MinusEqual => "-="@,
        AssignmentOperator::ModEqual => "%="@,
        AssignmentOperator::OrEqual => "|="@,
        AssignmentOperator::PlusEqual => "+="@,
        AssignmentOperator::PowerOfEqual => "**="@,
        AssignmentOperator::RightShiftEqual => ">>="@,
        AssignmentOperator::TimesEqual => "*="@,
        AssignmentOperator::UnsignedRightShiftEqual => ">>>="@,
        AssignmentOperator::XOrEqual => "^="@,
    }
}

pub open spec fn logical_op_text(op: LogicalOperator) -> Seq<char> {
    match op {
        LogicalOperator::And => "&&"@,
        LogicalOperator::Or => "||"@,
    }
}

// The parenthesization table: where an expression of a given kind stands in a
// given position, is it wrapped in parentheses?

/// As a whole expression statement (else `{` or `function` would open a block
/// or a declaration).
pub open spec fn wraps_as_statement(e: Expr) -> bool {
    e is Literal || e is Object || e is Function || e is Binary
}

/// As the argument of a unary operator.
pub open spec fn wraps_as_unary_argument(e: Expr) -> bool {
    e is Assignment || e is Binary || e is Logical || e is Conditional || e is ArrowFunction
        || e is Function
}

/// As the argument of a unary operator, set off by a space instead.
pub open spec fn spaced_as_unary_argument(e: Expr) -> bool {
    e is Unary || e is Update
}

/// As either operand of a binary operator.
pub open spec fn wraps_as_binary_operand(e: Expr) -> bool {
    e is Assignment || e is Conditional || e is Logical || e is Function || e is ArrowFunction
        || e is Binary
}

/// As the left operand of a logical operator.
pub open spec fn wraps_as_logical_left(e: Expr) -> bool {
    match e {
        Expr::Logical(l) => l.operator is Or,
        _ => e is Assignment || e is Conditional,
    }
}

/// As the right operand of a logical operator.
pub open spec fn wraps_as_logical_right(e: Expr) -> bool {
    e is Logical || e is Assignment || e is Conditional
}

/// As the object of a member access.
pub open spec fn wraps_as_member_object(e: Expr) -> bool {
    match e {
        Expr::Literal(l) => l is Number,
        _ => e is Assignment || e is Conditional || e is Logical || e is Function
            || e is ArrowFunction || e is Object || e is Binary || e is Unary || e is Update,
    }
}

/// As the callee of a call.
pub open spec fn wraps_as_callee(e: Expr) -> bool {
    e is Function || e is ArrowFunction
}

/// As the callee of `new`.
pub open spec fn wraps_as_new_callee(e: Expr) -> bool {
    e is Assignment || e is Call
}

/// As the consequent of a conditional.
pub open spec fn wraps_as_consequent(e: Expr) -> bool {
    e is Logical
}

/// As the expression body of an arrow function.
pub open spec fn wraps_as_arrow_body(e: Expr) -> bool {
    e is Object || e is Binary
}

/// An assignment whose target is an array or object literal or pattern is
/// wrapped as a whole.
pub open spec fn wraps_assignment(left: AssignmentLeft) -> bool {
    match left {
        AssignmentLeft::Expr(e) => *e is Object || *e is Array,
        AssignmentLeft::Pat(p) => p is Array || p is Object,
    }
}

/// An arrow function's parameters go without parentheses when there is one
/// and it is a bare identifier.
pub open spec fn bare_arrow_param(params: Seq<FunctionArg>) -> bool {
    params.len() == 1 && match params[0] {
        FunctionArg::Expr(e) => e is Ident,
        FunctionArg::Pat(p) => p is Identifier,
    }
}

pub open spec fn parens_if(b: bool, t: Seq<char>) -> Seq<char> {
    if b {
        wrap(t)
    } else {
        t
    }
}

/// The empty block `{`, a line holding only the inner margin, `}`.
pub open spec fn empty_block_text(c: Layout) -> Seq<char> {
    "{"@ + c.nl + c.deeper().margin() + c.nl + c.margin() + "}"@
}

pub open spec fn is_block(s: Stmt) -> bool {
    s is Block
}

pub open spec fn is_break_part(p: ProgramPart) -> bool {
    p matches ProgramPart::Stmt(Stmt::Break(_))
}

/// Whether some part of `s` is a `break` statement.
pub open spec fn has_break(s: Seq<ProgramPart>) -> bool {
    exists|j: int| 0 <= j < s.len() && is_break_part(s[j])
}

/// The raw chunks of a template, one after the other.
pub open spec fn raws_text(qs: Seq<TemplateElement>) -> Seq<char>
    decreases qs.len(),
{
    if qs.len() == 0 {
        Seq::empty()
    } else {
        qs[0].raw@ + raws_text(qs.subrange(1, qs.len() as int))
    }
}

pub open spec fn export_specs_text(s: Seq<ExportSpecifier>) -> Seq<char>
    decreases s.len(),
{
    if s.len() == 0 {
        Seq::empty()
    } else {
        let last = s[s.len() - 1];
        let item = last.local@ + match last.exported {
            Some(x) => " as "@ + x@,
            None => Seq::empty(),
        };
        if s.len() == 1 {
            item
        } else {
            export_specs_text(s.subrange(0, s.len() - 1)) + ", "@ + item
        }
    }
}

pub open spec fn import_spec_text(s: ImportSpecifier) -> Seq<char> {
    match s {
        ImportSpecifier::Default(i) => i@,
        ImportSpecifier::Namespace(n) => "* as "@ + n@,
        ImportSpecifier::Normal(n, l) => n@ + match l {
            Some(x) => " as "@ + x@,
            None => Seq::empty(),
        },
    }
}

/// Each specifier preceded by `, `.
pub open spec fn import_tail_text(s: Seq<ImportSpecifier>) -> Seq<char>
    decreases s.len(),
{
    if s.len() == 0 {
        Seq::empty()
    } else {
        import_tail_text(s.subrange(0, s.len() - 1)) + ", "@ + import_spec_text(s[s.len() - 1])
    }
}

/// The specifier list of an import: a default or namespace binding first goes
/// bare, the named ones go in one pair of braces.
pub open spec fn import_specs_text(s: Seq<ImportSpecifier>) -> Seq<char> {
    if s.len() == 0 {
        "{}"@
    } else if s[0] is Normal {
        "{ "@ + import_spec_text(s[0]) + import_tail_text(s.subrange(1, s.len() as int)) + " }"@
    } else if s.len() == 1 {
        import_spec_text(s[0])
    } else if s[1] is Namespace {
        import_spec_text(s[0]) + ", "@ + import_spec_text(s[1]) + import_tail_text(
            s.subrange(2, s.len() as int),
        )
    } else {
        import_spec_text(s[0]) + ", { "@ + import_spec_text(s[1]) + import_tail_text(
            s.subrange(2, s.len() as int),
        ) + " }"@
    }
}

pub open spec fn import_text(c: Layout, i: ModImport) -> Seq<char>
    decreases i, 0nat,
{
    "import "@ + import_specs_text(i.specifiers@) + " from "@ + literal_text(c, i.source) + ";"@
}

pub open spec fn literal_text(c: Layout, l: Literal) -> Seq<char>
    decreases l, 0nat,
{
    match l {
        Literal::Boolean(b) => bool_text(b),
        Literal::Null => "null"@,
        Literal::Number(n) => n@,
        Literal::String(s) => string_text(c.quote, s@),
        Literal::RegEx(r) => "/"@ + r.pattern@ + "/"@ + r.flags@,
        Literal::Template(t) => template_text(c, t),
    }
}

pub open spec fn template_text(c: Layout, t: TemplateLiteral) -> Seq<char>
    decreases t, 0nat,
{
    chunks_text(c, t.quasis@, t.expressions@)
}

/// Each raw chunk followed by the expression of the same index, if any.
pub open spec fn chunks_text(c: Layout, qs: Seq<TemplateElement>, es: Seq<Expr>) -> Seq<char>
    decreases es, 0nat,
{
    if qs.len() == 0 || es.len() == 0 {
        raws_text(qs)
    } else {
        qs[0].raw@ + expr_text(c, es[0]) + chunks_text(
            c,
            qs.subrange(1, qs.len() as int),
            es.subrange(1, es.len() as int),
        )
    }
}

/// A top-level item: margin, the item, a line break.
#[verifier::opaque]
pub open spec fn top_part_text(c: Layout, p: ProgramPart) -> Seq<char> {
    part_text(c, p) + c.nl
}

pub open spec fn program_parts_text(c: Layout, s: Seq<ProgramPart>) -> Seq<char>
    decreases s.len(),
{
    if s.len() == 0 {
        Seq::empty()
    } else {
        program_parts_text(c, s.subrange(0, s.len() - 1)) + top_part_text(c, s[s.len() - 1])
    }
}

pub open spec fn program_body(p: Program) -> Seq<ProgramPart> {
    match p {
        Program::Script(s) => s@,
        Program::Mod(s) => s@,
    }
}

/// An item with the margin of its line before it.
pub open spec fn part_text(c: Layout, p: ProgramPart) -> Seq<char>
    decreases p, 0nat,
{
    c.margin() + match p {
        ProgramPart::Decl(d) => decl_text(c, d),
        ProgramPart::Dir(d) => literal_text(c, d.expr) + ";"@ + c.nl,
        ProgramPart::Stmt(s) => stmt_text(c, s),
    }
}

/// The items of a function body, one after the other.
pub open spec fn parts_text(c: Layout, s: Seq<ProgramPart>) -> Seq<char>
    decreases s, 0nat,
{
    if s.len() == 0 {
        Seq::empty()
    } else {
        parts_text(c, s.subrange(0, s.len() - 1)) + part_text(c, s[s.len() - 1])
    }
}

/// The items of a block, each on a line of its own.
pub open spec fn lines_text(c: Layout, s: Seq<ProgramPart>) -> Seq<char>
    decreases s, 0nat,
{
    if s.len() == 0 {
        Seq::empty()
    } else {
        lines_text(c, s.subrange(0, s.len() - 1)) + c.nl + part_text(c, s[s.len() - 1])
    }
}

pub open spec fn block_text(c: Layout, s: Seq<ProgramPart>) -> Seq<char>
    decreases s, 1nat,
{
    if s.len() == 0 {
        empty_block_text(c)
    } else {
        "{"@ + lines_text(c.deeper(), s) + c.margin() + "}"@
    }
}

pub open spec fn function_body_text(c: Layout, s: Seq<ProgramPart>) -> Seq<char>
    decreases s, 1nat,
{
    if s.len() == 0 {
        "{ "@ + "}"@
    } else {
        "{"@ + c.nl + parts_text(c.deeper(), s) + c.margin() + "}"@
    }
}

pub open spec fn decl_text(c: Layout, d: Decl) -> Seq<char>
    decreases d, 0nat,
{
    match d {
        Decl::Variable(k, ds) => variable_decls_text(c, k, ds@),
        Decl::Class(cl) => class_text(c, cl) + c.nl,
        Decl::Function(f) => function_text(c, f) + c.nl,
        Decl::Export(e) => "export "@ + export_text(c, *e),
        Decl::Import(i) => import_text(c, *i),
    }
}

pub open spec fn variable_decls_text(c: Layout, k: VariableKind, ds: Seq<VariableDecl>) -> Seq<
    char,
>
    decreases ds, 1nat,
{
    kind_text(k) + decl_list_text(c, ds) + ";"@ + c.nl
}

pub open spec fn export_text(c: Layout, e: ModExport) -> Seq<char>
    decreases e, 0nat,
{
    match e {
        ModExport::All(l) => "* from "@ + literal_text(c, l),
        ModExport::Default(d) => "default "@ + match d {
            DefaultExportDecl::Decl(x) => decl_text(c, x),
            DefaultExportDecl::Expr(x) => expr_text(c, x),
        },
        ModExport::Named(n) => match n {
            NamedExportDecl::Decl(x) => decl_text(c, x),
            NamedExportDecl::Specifier(s, from) => "{"@ + export_specs_text(s@) + "}"@
                + match from {
                Some(l) => " from "@ + literal_text(c, l),
                None => Seq::empty(),
            },
        },
    }
}

pub open spec fn class_text(c: Layout, cl: Class) -> Seq<char>
    decreases cl, 0nat,
{
    "class "@ + match cl.id {
        Some(i) => i@ + " "@,
        None => Seq::empty(),
    } + match cl.super_class {
        Some(x) => "extends "@ + expr_text(c, *x) + " "@,
        None => Seq::empty(),
    } + "{"@ + c.nl + members_text(c.deeper(), cl.body@) + c.margin() + "}"@
}

/// Class members, each on a line of its own after an empty line.
pub open spec fn members_text(c: Layout, s: Seq<Property>) -> Seq<char>
    decreases s, 0nat,
{
    if s.len() == 0 {
        Seq::empty()
    } else {
        members_text(c, s.subrange(0, s.len() - 1)) + c.nl + c.margin() + property_text(
            c,
            s[s.len() - 1],
        ) + c.nl
    }
}

pub open spec fn variable_decl_text(c: Layout, d: VariableDecl) -> Seq<char>
    decreases d, 0nat,
{
    pat_text(c, d.id) + match d.init {
        Some(e) => " = "@ + expr_text(c, e),
        None => Seq::empty(),
    }
}

/// Declarations separated by `, `.
pub open spec fn decl_list_text(c: Layout, s: Seq<VariableDecl>) -> Seq<char>
    decreases s, 0nat,
{
    if s.len() == 0 {
        Seq::empty()
    } else if s.len() == 1 {
        variable_decl_text(c, s[0])
    } else {
        decl_list_text(c, s.subrange(0, s.len() - 1)) + ", "@ + variable_decl_text(
            c,
            s[s.len() - 1],
        )
    }
}

/// The statement, with its terminator and line break where it takes them.
pub open spec fn stmt_text(c: Layout, s: Stmt) -> Seq<char>
    decreases s, 0nat,
{
    match s {
        Stmt::Empty => ";"@,
        Stmt::Debugger => "debugger"@ + ";"@ + c.nl,
        Stmt::Expr(e) => parens_if(wraps_as_statement(e), expr_text(c, e)) + ";"@ + c.nl,
        Stmt::Block(b) => block_text(c, b@),
        Stmt::With(w) => "with ("@ + expr_text(c, w.object) + ") "@ + stmt_text(c, *w.body)
            + c.nl,
        Stmt::Return(o) => "return"@ + match o {
            Some(e) => " "@ + expr_text(c, e),
            None => Seq::empty(),
        } + ";"@ + c.nl,
        Stmt::Labeled(l) => l.label@ + ": "@ + stmt_text(c, *l.body) + c.nl,
        Stmt::Break(o) => "break"@ + match o {
            Some(i) => " "@ + i@,
            None => Seq::empty(),
        } + ";"@ + c.nl,
        Stmt::Continue(o) => "continue"@ + match o {
            Some(i) => " "@ + i@,
            None => Seq::empty(),
        } + ";"@ + c.nl,
        Stmt::If(i) => if_text(c, i) + c.nl,
        Stmt::Switch(sw) => switch_text(c, sw) + c.nl,
        Stmt::Throw(e) => "throw "@ + expr_text(c, e) + ";"@ + c.nl,
        Stmt::Try(t) => try_text(c, t) + c.nl,
        Stmt::While(w) => "while ("@ + expr_text(c, w.test) + ") "@ + stmt_text(c, *w.body)
            + if is_block(*w.body) {
            c.nl
        } else {
            Seq::empty()
        },
        Stmt::DoWhile(d) => "do"@ + (if *d.body is Empty {
            "; "@
        } else {
            " "@ + stmt_text(c, *d.body) + " "@
        }) + "while ("@ + expr_text(c, d.test) + ")"@ + ";"@ + c.nl,
        Stmt::For(f) => for_text(c, f) + if is_block(*f.body) {
            c.nl
        } else {
            Seq::empty()
        },
        Stmt::ForIn(f) => "for ("@ + loop_left_text(c, f.left) + " in "@ + expr_text(c, f.right)
            + ") "@ + stmt_text(c, *f.body) + if is_block(*f.body) {
            c.nl
        } else {
            Seq::empty()
        },
        Stmt::ForOf(f) => "for ("@ + loop_left_text(c, f.left) + " of "@ + expr_text(c, f.right)
            + ") "@ + stmt_text(c, *f.body) + if is_block(*f.body) {
            c.nl
        } else {
            Seq::empty()
        },
        Stmt::Var(ds) => "var "@ + decl_list_text(c, ds@) + ";"@ + c.nl,
    }
}

/// A branch of an `if`: an empty statement becomes an empty block.
pub open spec fn branch_text(c: Layout, s: Stmt) -> Seq<char>
    decreases s, 1nat,
{
    if s is Empty {
        empty_block_text(c)
    } else {
        stmt_text(c, s)
    }
}

pub open spec fn if_text(c: Layout, i: IfStmt) -> Seq<char>
    decreases i, 0nat,
{
    "if ("@ + expr_text(c, i.test) + ") "@ + branch_text(c, *i.consequent) + match i.alternate {
        Some(a) => " else "@ + branch_text(c, *a),
        None => Seq::empty(),
    }
}

pub open spec fn switch_text(c: Layout, sw: SwitchStmt) -> Seq<char>
    decreases sw, 0nat,
{
    "switch ("@ + expr_text(c, sw.discriminant) + ") "@ + if sw.cases@.len() == 0 {
        "{ }"@
    } else {
        "{"@ + c.nl + cases_text(c.deeper(), sw.cases@) + c.margin() + "}"@
    }
}

pub open spec fn cases_text(c: Layout, s: Seq<SwitchCase>) -> Seq<char>
    decreases s, 0nat,
{
    if s.len() == 0 {
        Seq::empty()
    } else {
        cases_text(c, s.subrange(0, s.len() - 1)) + case_text(c, s[s.len() - 1])
    }
}

pub open spec fn case_text(c: Layout, k: SwitchCase) -> Seq<char>
    decreases k, 0nat,
{
    c.margin() + match k.test {
        Some(t) => "case "@ + expr_text(c, t),
        None => "default"@,
    } + ":"@ + c.nl + case_body_text(c, k.consequent@)
}

/// The statements of a case, one level deeper than its label until the first
/// `break`, at the label's level from there on.
pub open spec fn case_body_text(c: Layout, s: Seq<ProgramPart>) -> Seq<char>
    decreases s, 0nat,
{
    if s.len() == 0 {
        Seq::empty()
    } else {
        let at = if has_break(s) {
            c
        } else {
            c.deeper()
        };
        case_body_text(c, s.subrange(0, s.len() - 1)) + part_text(at, s[s.len() - 1]) + c.nl
    }
}

pub open spec fn try_text(c: Layout, t: TryStmt) -> Seq<char>
    decreases t, 0nat,
{
    "try "@ + block_text(c, t.block@) + match t.handler {
        Some(h) => " catch"@ + match h.param {
            Some(p) => " ("@ + pat_text(c, p) + ") "@,
            None => Seq::empty(),
        } + block_text(c, h.body@),
        None => Seq::empty(),
    } + match t.finalizer {
        Some(f) => " finally "@ + block_text(c, f@),
        None => Seq::empty(),
    }
}

pub open spec fn for_text(c: Layout, f: ForStmt) -> Seq<char>
    decreases f, 1nat,
{
    for_head_text(c, f) + stmt_text(c, *f.body)
}

/// A counted `for` up to its body.
pub open spec fn for_head_text(c: Layout, f: ForStmt) -> Seq<char>
    decreases f, 0nat,
{
    "for ("@ + match f.init {
        Some(i) => loop_init_text(c.with_init(true), i),
        None => Seq::empty(),
    } + ";"@ + match f.test {
        Some(e) => expr_text(c, e),
        None => Seq::empty(),
    } + ";"@ + match f.update {
        Some(e) => expr_text(c, e),
        None => Seq::empty(),
    } + ") "@
}

pub open spec fn loop_init_text(c: Layout, i: LoopInit) -> Seq<char>
    decreases i, 0nat,
{
    match i {
        LoopInit::Expr(e) => expr_text(c, e),
        LoopInit::Variable(k, ds) => kind_text(k) + decl_list_text(c, ds@),
    }
}

pub open spec fn loop_left_text(c: Layout, l: LoopLeft) -> Seq<char>
    decreases l, 0nat,
{
    match l {
        LoopLeft::Pat(p) => pat_text(c, p),
        LoopLeft::Variable(k, d) => kind_text(k) + variable_decl_text(c, d),
        LoopLeft::Expr(e) => expr_text(c, e),
    }
}

pub open spec fn pat_text(c: Layout, p: Pat) -> Seq<char>
    decreases p, 0nat,
{
    match p {
        Pat::Identifier(i) => i@,
        Pat::Object(o) => if o@.len() == 0 {
            "{}"@
        } else {
            "{"@ + obj_pat_parts_text(c.deeper(), o@) + c.margin() + "}"@
        },
        Pat::Array(a) => if a@.len() == 0 {
            "[]"@
        } else {
            "["@ + array_pat_text(c, a@) + "]"@
        },
        Pat::RestElement(r) => "..."@ + pat_text(c, *r),
        Pat::Assignment(a) => pat_text(c, *a.left) + " = "@ + expr_text(c, *a.right),
    }
}

pub open spec fn obj_pat_part_text(c: Layout, p: ObjectPatPart) -> Seq<char>
    decreases p, 0nat,
{
    match p {
        ObjectPatPart::Assignment(prop) => property_text(c, prop),
        ObjectPatPart::Rest(r) => "..."@ + pat_text(c, *r),
    }
}

pub open spec fn obj_pat_parts_text(c: Layout, s: Seq<ObjectPatPart>) -> Seq<char>
    decreases s, 0nat,
{
    if s.len() == 0 {
        Seq::empty()
    } else if s.len() == 1 {
        obj_pat_part_text(c, s[0])
    } else {
        obj_pat_parts_text(c, s.subrange(0, s.len() - 1)) + ", "@ + obj_pat_part_text(
            c,
            s[s.len() - 1],
        )
    }
}

pub open spec fn array_pat_elem_text(c: Layout, o: Option<ArrayPatPart>) -> Seq<char>
    decreases o, 0nat,
{
    match o {
        Some(ArrayPatPart::Expr(e)) => expr_text(c, e),
        Some(ArrayPatPart::Pat(p)) => pat_text(c, p),
        None => Seq::empty(),
    }
}

/// The elements of an array pattern separated by `, `; a hole is empty.
pub open spec fn array_pat_text(c: Layout, s: Seq<Option<ArrayPatPart>>) -> Seq<char>
    decreases s, 0nat,
{
    if s.len() == 0 {
        Seq::empty()
    } else if s.len() == 1 {
        array_pat_elem_text(c, s[0])
    } else {
        array_pat_text(c, s.subrange(0, s.len() - 1)) + ", "@ + array_pat_elem_text(
            c,
            s[s.len() - 1],
        )
    }
}

pub open spec fn property_key_text(c: Layout, k: PropertyKey, computed: bool) -> Seq<char>
    decreases k, 0nat,
{
    let t = match k {
        PropertyKey::Expr(e) => expr_text(c, e),
        PropertyKey::Literal(l) => literal_text(c, l),
        PropertyKey::Pat(p) => pat_text(c, p),
    };
    if computed {
        "["@ + t + "]"@
    } else {
        t
    }
}

pub open spec fn property_value_text(c: Layout, v: PropertyValue) -> Seq<char>
    decreases v, 0nat,
{
    match v {
        PropertyValue::Expr(e) => expr_text(c, e),
        PropertyValue::Pat(p) => pat_text(c, p),
        PropertyValue::Missing => Seq::empty(),
    }
}

/// A method: modifiers, key, parameters and body.
pub open spec fn method_text(c: Layout, p: Property) -> Seq<char>
    decreases p, 0nat,
{
    match p.value {
        PropertyValue::Expr(Expr::Function(f)) => (if f.is_async {
            "async "@
        } else {
            Seq::empty()
        }) + (if f.generator {
            "*"@
        } else {
            Seq::empty()
        }) + property_key_text(c, p.key, p.computed) + args_text(c, f.params@)
            + function_body_text(c, f.body@),
        _ => Seq::empty(),
    }
}

/// The function that a method, accessor or constructor property holds.
pub open spec fn method_value(p: Property) -> Option<Function> {
    match p.value {
        PropertyValue::Expr(Expr::Function(f)) => Some(f),
        _ => None,
    }
}

pub open spec fn property_text(c: Layout, p: Property) -> Seq<char>
    decreases p, 1nat,
{
    match p.value {
        PropertyValue::Expr(Expr::Function(f)) => match p.kind {
            PropertyKind::Getter => "get "@ + method_text(c, p),
            PropertyKind::Setter => "set "@ + method_text(c, p),
            PropertyKind::Ctor => "constructor"@ + args_text(c, f.params@) + function_body_text(
                c,
                f.body@,
            ),
            _ => method_text(c, p),
        },
        _ => property_key_text(c, p.key, p.computed) + if !p.short_hand {
            ": "@ + property_value_text(c, p.value)
        } else if p.value is Missing {
            Seq::empty()
        } else {
            " = "@ + property_value_text(c, p.value)
        },
    }
}

pub open spec fn arg_text(c: Layout, a: FunctionArg) -> Seq<char>
    decreases a, 0nat,
{
    match a {
        FunctionArg::Expr(e) => expr_text(c, e),
        FunctionArg::Pat(p) => pat_text(c, p),
    }
}

pub open spec fn arg_list_text(c: Layout, s: Seq<FunctionArg>) -> Seq<char>
    decreases s, 0nat,
{
    if s.len() == 0 {
        Seq::empty()
    } else if s.len() == 1 {
        arg_text(c, s[0])
    } else {
        arg_list_text(c, s.subrange(0, s.len() - 1)) + ", "@ + arg_text(c, s[s.len() - 1])
    }
}

pub open spec fn args_text(c: Layout, s: Seq<FunctionArg>) -> Seq<char>
    decreases s, 1nat,
{
    "("@ + arg_list_text(c, s) + ")"@
}

pub open spec fn function_text(c: Layout, f: Function) -> Seq<char>
    decreases f, 0nat,
{
    (if f.is_async {
        "async "@
    } else {
        Seq::empty()
    }) + "function"@ + match f.id {
        Some(i) => " "@ + (if f.generator {
            "*"@
        } else {
            Seq::empty()
        }) + i@,
        None => if f.generator {
            "*"@
        } else {
            Seq::empty()
        },
    } + args_text(c, f.params@) + " "@ + function_body_text(c, f.body@)
}

pub open spec fn expr_list_text(c: Layout, s: Seq<Expr>) -> Seq<char>
    decreases s, 0nat,
{
    if s.len() == 0 {
        Seq::empty()
    } else if s.len() == 1 {
        expr_text(c, s[0])
    } else {
        expr_list_text(c, s.subrange(0, s.len() - 1)) + ", "@ + expr_text(c, s[s.len() - 1])
    }
}

/// A parenthesized, comma-separated list, as for call arguments.
pub open spec fn sequence_text(c: Layout, s: Seq<Expr>) -> Seq<char>
    decreases s, 1nat,
{
    "("@ + expr_list_text(c, s) + ")"@
}

/// Array elements but the last: an element is followed by `, `, a hole is a
/// bare `,`.
pub open spec fn array_front_text(c: Layout, s: Seq<Option<Expr>>) -> Seq<char>
    decreases s, 0nat,
{
    if s.len() == 0 {
        Seq::empty()
    } else {
        array_front_text(c, s.subrange(0, s.len() - 1)) + match s[s.len() - 1] {
            Some(e) => expr_text(c, e) + ", "@,
            None => ","@,
        }
    }
}

pub open spec fn array_text(c: Layout, s: Seq<Option<Expr>>) -> Seq<char>
    decreases s, 0nat,
{
    if s.len() == 0 {
        "[]"@
    } else {
        "["@ + array_front_text(c, s.subrange(0, s.len() - 1)) + match s[s.len() - 1] {
            Some(e) => expr_text(c, e),
            None => ","@,
        } + "]"@
    }
}

pub open spec fn object_prop_text(c: Layout, p: ObjectProperty) -> Seq<char>
    decreases p, 0nat,
{
    match p {
        ObjectProperty::Property(x) => property_text(c, x),
        ObjectProperty::Spread(e) => expr_text(c, *e),
    }
}

pub open spec fn object_props_text(c: Layout, s: Seq<ObjectProperty>) -> Seq<char>
    decreases s, 0nat,
{
    if s.len() == 0 {
        Seq::empty()
    } else if s.len() == 1 {
        object_prop_text(c, s[0])
    } else {
        object_props_text(c, s.subrange(0, s.len() - 1)) + ", "@ + object_prop_text(
            c,
            s[s.len() - 1],
        )
    }
}

pub open spec fn object_text(c: Layout, s: Seq<ObjectProperty>) -> Seq<char>
    decreases s, 1nat,
{
    if s.len() == 0 {
        "{}"@
    } else {
        "{"@ + object_props_text(c, s) + "}"@
    }
}

pub open spec fn unary_text(c: Layout, u: UnaryExpr) -> Seq<char>
    decreases u, 0nat,
{
    let a = *u.argument;
    (if u.prefix {
        unary_op_text(u.operator)
    } else {
        Seq::empty()
    }) + (if wraps_as_unary_argument(a) {
        wrap(expr_text(c, a))
    } else if spaced_as_unary_argument(a) {
        " "@ + expr_text(c, a)
    } else {
        expr_text(c, a)
    }) + (if !u.prefix {
        unary_op_text(u.operator)
    } else {
        Seq::empty()
    })
}

pub open spec fn update_text(c: Layout, u: UpdateExpr) -> Seq<char>
    decreases u, 0nat,
{
    (if u.prefix {
        update_op_text(u.operator)
    } else {
        Seq::empty()
    }) + expr_text(c, *u.argument) + (if !u.prefix {
        update_op_text(u.operator)
    } else {
        Seq::empty()
    })
}

pub open spec fn binary_side_text(c: Layout, e: Expr) -> Seq<char>
    decreases e, 1nat,
{
    parens_if(wraps_as_binary_operand(e), expr_text(c, e))
}

/// A binary expression; an `in` inside a loop initializer is wrapped whole.
pub open spec fn binary_text(c: Layout, b: BinaryExpr) -> Seq<char>
    decreases b, 0nat,
{
    parens_if(
        c.for_init && b.operator is In,
        binary_side_text(c, *b.left) + " "@ + binary_op_text(b.operator) + " "@ + binary_side_text(
            c,
            *b.right,
        ),
    )
}

pub open spec fn assignment_text(c: Layout, a: AssignmentExpr) -> Seq<char>
    decreases a, 0nat,
{
    parens_if(
        wraps_assignment(a.left),
        match a.left {
            AssignmentLeft::Expr(e) => expr_text(c, *e),
            AssignmentLeft::Pat(p) => pat_text(c, p),
        } + " "@ + assign_op_text(a.operator) + " "@ + expr_text(c, *a.right),
    )
}

pub open spec fn logical_text(c: Layout, l: LogicalExpr) -> Seq<char>
    decreases l, 0nat,
{
    parens_if(wraps_as_logical_left(*l.left), expr_text(c, *l.left)) + " "@ + logical_op_text(
        l.operator,
    ) + " "@ + parens_if(wraps_as_logical_right(*l.right), expr_text(c, *l.right))
}

pub open spec fn member_text(c: Layout, m: MemberExpr) -> Seq<char>
    decreases m, 0nat,
{
    parens_if(wraps_as_member_object(*m.object), expr_text(c, *m.object)) + if m.computed {
        "["@ + expr_text(c, *m.property) + "]"@
    } else {
        "."@ + expr_text(c, *m.property)
    }
}

pub open spec fn conditional_text(c: Layout, x: ConditionalExpr) -> Seq<char>
    decreases x, 0nat,
{
    expr_text(c, *x.test) + " ? "@ + parens_if(
        wraps_as_consequent(*x.consequent),
        expr_text(c, *x.consequent),
    ) + " : "@ + expr_text(c, *x.alternate)
}

pub open spec fn arrow_text(c: Layout, f: ArrowFunctionExpr) -> Seq<char>
    decreases f, 0nat,
{
    (if f.is_async {
        "async "@
    } else {
        Seq::empty()
    }) + (if bare_arrow_param(f.params@) {
        arg_text(c, f.params@[0])
    } else {
        args_text(c, f.params@)
    }) + " => "@ + match f.body {
        ArrowFunctionBody::FunctionBody(b) => function_body_text(c, b@),
        ArrowFunctionBody::Expr(e) => parens_if(wraps_as_arrow_body(*e), expr_text(c, *e)),
    }
}

pub open spec fn yield_text(c: Layout, y: YieldExpr) -> Seq<char>
    decreases y, 0nat,
{
    "yield"@ + (if y.argument is Some {
        " "@
    } else {
        Seq::empty()
    }) + (if y.delegate {
        "*"@
    } else {
        Seq::empty()
    }) + match y.argument {
        Some(a) => expr_text(c, *a),
        None => Seq::empty(),
    }
}

pub open spec fn expr_text(c: Layout, e: Expr) -> Seq<char>
    decreases e, 0nat,
{
    match e {
        Expr::Literal(l) => literal_text(c, l),
        Expr::This => "this"@,
        Expr::Super => "super"@,
        Expr::Array(a) => array_text(c, a@),
        Expr::Object(o) => object_text(c, o@),
        Expr::Function(f) => function_text(c, f),
        Expr::Unary(u) => unary_text(c, u),
        Expr::Update(u) => update_text(c, u),
        Expr::Binary(b) => binary_text(c, b),
        Expr::Assignment(a) => assignment_text(c, a),
        Expr::Logical(l) => logical_text(c, l),
        Expr::Member(m) => member_text(c, m),
        Expr::Conditional(x) => conditional_text(c, x),
        Expr::Call(x) => parens_if(wraps_as_callee(*x.callee), expr_text(c, *x.callee))
            + sequence_text(c, x.arguments@),
        Expr::New(x) => "new "@ + parens_if(
            wraps_as_new_callee(*x.callee),
            expr_text(c, *x.callee),
        ) + sequence_text(c, x.arguments@),
        Expr::Sequence(s) => sequence_text(c, s@),
        Expr::Spread(x) => "..."@ + expr_text(c, *x),
        Expr::ArrowFunction(f) => arrow_text(c, f),
        Expr::Yield(y) => yield_text(c, y),
        Expr::Class(cl) => class_text(c, cl),
        Expr::MetaProperty(m) => m.meta@ + "."@ + m.property@,
        Expr::Await(x) => "await "@ + expr_text(c, *x),
        Expr::Ident(i) => i@,
        Expr::TaggedTemplate(t) => expr_text(c, *t.tag) + template_text(c, t.quasi),
    }
}

} // verus!
