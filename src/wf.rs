//! Well-formedness of a tree: every method, accessor or constructor property
//! holds a function expression. The printer reports any other tree as
//! malformed.
use vstd::prelude::*;
use crate::ast::{
    ArrowFunctionBody, AssignmentLeft, Class, Decl, DefaultExportDecl, Expr, ForStmt, Function, FunctionArg, LoopInit, LoopLeft, Literal, ModExport, NamedExportDecl, ObjectPatPart, ObjectProperty, Pat, ArrayPatPart, ProgramPart, Property, PropertyKey, PropertyValue, Stmt, SwitchCase, TemplateLiteral, TryStmt, VariableDecl,
};

verus! {

pub open spec fn literal_wf(l: Literal) -> bool
    decreases l, 0nat,
{
    match l {
        Literal::Template(t) => template_wf(t),
        _ => true,
    }
}

/// The expressions of a template that are printed: those with a raw chunk of
/// the same index.
pub open spec fn template_wf(t: TemplateLiteral) -> bool
    decreases t, 0nat,
{
    forall|i: int|
        0 <= i < t.expressions@.len() && i < t.quasis@.len() ==> expr_wf(
            #[trigger] t.expressions@[i],
        )
}

pub open spec fn part_wf(p: ProgramPart) -> bool
    decreases p, 0nat,
{
    match p {
        ProgramPart::Decl(d) => decl_wf(d),
        ProgramPart::Dir(d) => literal_wf(d.expr),
        ProgramPart::Stmt(s) => stmt_wf(s),
    }
}

pub open spec fn parts_wf(s: Seq<ProgramPart>) -> bool
    decreases s, 0nat,
{
    forall|i: int| 0 <= i < s.len() ==> part_wf(#[trigger] s[i])
}

pub open spec fn decl_wf(d: Decl) -> bool
    decreases d, 0nat,
{
    match d {
        Decl::Variable(_, ds) => decls_wf(ds@),
        Decl::Class(cl) => class_wf(cl),
        Decl::Function(f) => function_wf(f),
        Decl::Export(e) => export_wf(*e),
        Decl::Import(i) => literal_wf(i.source),
    }
}

pub open spec fn export_wf(e: ModExport) -> bool
    decreases e, 0nat,
{
    match e {
        ModExport::All(l) => literal_wf(l),
        ModExport::Default(DefaultExportDecl::Decl(d)) => decl_wf(d),
        ModExport::Default(DefaultExportDecl::Expr(x)) => expr_wf(x),
        ModExport::Named(NamedExportDecl::Decl(d)) => decl_wf(d),
        ModExport::Named(NamedExportDecl::Specifier(_, from)) => match from {
            Some(l) => literal_wf(l),
            None => true,
        },
    }
}

pub open spec fn class_wf(cl: Class) -> bool
    decreases cl, 0nat,
{
    &&& match cl.super_class {
        Some(x) => expr_wf(*x),
        None => true,
    }
    &&& properties_wf(cl.body@)
}

pub open spec fn properties_wf(s: Seq<Property>) -> bool
    decreases s, 0nat,
{
    forall|i: int| 0 <= i < s.len() ==> property_wf(#[trigger] s[i])
}

pub open spec fn function_wf(f: Function) -> bool
    decreases f, 0nat,
{
    args_wf(f.params@) && parts_wf(f.body@)
}

pub open spec fn decl_wf_one(d: VariableDecl) -> bool
    decreases d, 0nat,
{
    pat_wf(d.id) && match d.init {
        Some(e) => expr_wf(e),
        None => true,
    }
}

pub open spec fn decls_wf(s: Seq<VariableDecl>) -> bool
    decreases s, 0nat,
{
    forall|i: int| 0 <= i < s.len() ==> decl_wf_one(#[trigger] s[i])
}

pub open spec fn opt_expr_wf(o: Option<Expr>) -> bool
    decreases o, 0nat,
{
    match o {
        Some(e) => expr_wf(e),
        None => true,
    }
}

pub open spec fn stmt_wf(s: Stmt) -> bool
    decreases s, 0nat,
{
    match s {
        Stmt::Expr(e) => expr_wf(e),
        Stmt::Block(b) => parts_wf(b@),
        Stmt::With(w) => expr_wf(w.object) && stmt_wf(*w.body),
        Stmt::Return(o) => opt_expr_wf(o),
        Stmt::Labeled(l) => stmt_wf(*l.body),
        Stmt::If(i) => expr_wf(i.test) && stmt_wf(*i.consequent) && match i.alternate {
            Some(a) => stmt_wf(*a),
            None => true,
        },
        Stmt::Switch(sw) => expr_wf(sw.discriminant) && cases_wf(sw.cases@),
        Stmt::Throw(e) => expr_wf(e),
        Stmt::Try(t) => try_wf(t),
        Stmt::While(w) => expr_wf(w.test) && stmt_wf(*w.body),
        Stmt::DoWhile(d) => expr_wf(d.test) && stmt_wf(*d.body),
        Stmt::For(f) => for_wf(f),
        Stmt::ForIn(f) => loop_left_wf(f.left) && expr_wf(f.right) && stmt_wf(*f.body),
        Stmt::ForOf(f) => loop_left_wf(f.left) && expr_wf(f.right) && stmt_wf(*f.body),
        Stmt::Var(ds) => decls_wf(ds@),
        _ => true,
    }
}

pub open spec fn case_wf(k: SwitchCase) -> bool
    decreases k, 0nat,
{
    opt_expr_wf(k.test) && parts_wf(k.consequent@)
}

pub open spec fn cases_wf(s: Seq<SwitchCase>) -> bool
    decreases s, 0nat,
{
    forall|i: int| 0 <= i < s.len() ==> case_wf(#[trigger] s[i])
}

pub open spec fn try_wf(t: TryStmt) -> bool
    decreases t, 0nat,
{
    &&& parts_wf(t.block@)
    &&& match t.handler {
        Some(h) => parts_wf(h.body@) && match h.param {
            Some(p) => pat_wf(p),
            None => true,
        },
        None => true,
    }
    &&& match t.finalizer {
        Some(f) => parts_wf(f@),
        None => true,
    }
}

pub open spec fn for_wf(f: ForStmt) -> bool
    decreases f, 1nat,
{
    for_head_wf(f) && stmt_wf(*f.body)
}

pub open spec fn for_head_wf(f: ForStmt) -> bool
    decreases f, 0nat,
{
    &&& match f.init {
        Some(LoopInit::Expr(e)) => expr_wf(e),
        Some(LoopInit::Variable(_, ds)) => decls_wf(ds@),
        None => true,
    }
    &&& opt_expr_wf(f.test)
    &&& opt_expr_wf(f.update)
}

pub open spec fn loop_left_wf(l: LoopLeft) -> bool
    decreases l, 0nat,
{
    match l {
        LoopLeft::Pat(p) => pat_wf(p),
        LoopLeft::Variable(_, d) => decl_wf_one(d),
        LoopLeft::Expr(e) => expr_wf(e),
    }
}

pub open spec fn pat_wf(p: Pat) -> bool
    decreases p, 0nat,
{
    match p {
        Pat::Identifier(_) => true,
        Pat::Object(o) => forall|i: int|
            0 <= i < o@.len() ==> obj_pat_part_wf(#[trigger] o@[i]),
        Pat::Array(a) => forall|i: int|
            0 <= i < a@.len() ==> array_pat_elem_wf(#[trigger] a@[i]),
        Pat::RestElement(r) => pat_wf(*r),
        Pat::Assignment(a) => pat_wf(*a.left) && expr_wf(*a.right),
    }
}

pub open spec fn obj_pat_part_wf(p: ObjectPatPart) -> bool
    decreases p, 0nat,
{
    match p {
        ObjectPatPart::Assignment(prop) => property_wf(prop),
        ObjectPatPart::Rest(r) => pat_wf(*r),
    }
}

pub open spec fn array_pat_elem_wf(o: Option<ArrayPatPart>) -> bool
    decreases o, 0nat,
{
    match o {
        Some(ArrayPatPart::Expr(e)) => expr_wf(e),
        Some(ArrayPatPart::Pat(p)) => pat_wf(p),
        None => true,
    }
}

pub open spec fn property_key_wf(k: PropertyKey) -> bool
    decreases k, 0nat,
{
    match k {
        PropertyKey::Expr(e) => expr_wf(e),
        PropertyKey::Literal(l) => literal_wf(l),
        PropertyKey::Pat(p) => pat_wf(p),
    }
}

/// A property is well formed when its parts are and, unless it is a plain
/// (init) property, its value is a function expression.
pub open spec fn property_wf(p: Property) -> bool
    decreases p, 0nat,
{
    match p.value {
        PropertyValue::Expr(Expr::Function(f)) => (p.kind is Ctor || property_key_wf(p.key))
            && function_wf(f),
        PropertyValue::Expr(e) => p.kind is Init && property_key_wf(p.key) && expr_wf(e),
        PropertyValue::Pat(x) => p.kind is Init && property_key_wf(p.key) && pat_wf(x),
        PropertyValue::Missing => p.kind is Init && property_key_wf(p.key),
    }
}

pub open spec fn arg_wf(a: FunctionArg) -> bool
    decreases a, 0nat,
{
    match a {
        FunctionArg::Expr(e) => expr_wf(e),
        FunctionArg::Pat(p) => pat_wf(p),
    }
}

pub open spec fn args_wf(s: Seq<FunctionArg>) -> bool
    decreases s, 0nat,
{
    forall|i: int| 0 <= i < s.len() ==> arg_wf(#[trigger] s[i])
}

pub open spec fn exprs_wf(s: Seq<Expr>) -> bool
    decreases s, 0nat,
{
    forall|i: int| 0 <= i < s.len() ==> expr_wf(#[trigger] s[i])
}

pub open spec fn object_prop_wf(p: ObjectProperty) -> bool
    decreases p, 0nat,
{
    match p {
        ObjectProperty::Property(x) => property_wf(x),
        ObjectProperty::Spread(e) => expr_wf(*e),
    }
}

pub open spec fn expr_wf(e: Expr) -> bool
    decreases e, 0nat,
{
    match e {
        Expr::Literal(l) => literal_wf(l),
        Expr::Array(a) => forall|i: int| 0 <= i < a@.len() ==> opt_expr_wf(#[trigger] a@[i]),
        Expr::Object(o) => forall|i: int|
            0 <= i < o@.len() ==> object_prop_wf(#[trigger] o@[i]),
        Expr::Function(f) => function_wf(f),
        Expr::Unary(u) => expr_wf(*u.argument),
        Expr::Update(u) => expr_wf(*u.argument),
        Expr::Binary(b) => expr_wf(*b.left) && expr_wf(*b.right),
        Expr::Assignment(a) => expr_wf(*a.right) && match a.left {
            AssignmentLeft::Expr(x) => expr_wf(*x),
            AssignmentLeft::Pat(p) => pat_wf(p),
        },
        Expr::Logical(l) => expr_wf(*l.left) && expr_wf(*l.right),
        Expr::Member(m) => expr_wf(*m.object) && expr_wf(*m.property),
        Expr::Conditional(x) => expr_wf(*x.test) && expr_wf(*x.consequent) && expr_wf(
            *x.alternate,
        ),
        Expr::Call(x) => expr_wf(*x.callee) && exprs_wf(x.arguments@),
        Expr::New(x) => expr_wf(*x.callee) && exprs_wf(x.arguments@),
        Expr::Sequence(s) => exprs_wf(s@),
        Expr::Spread(x) => expr_wf(*x),
        Expr::ArrowFunction(f) => args_wf(f.params@) && match f.body {
            ArrowFunctionBody::FunctionBody(b) => parts_wf(b@),
            ArrowFunctionBody::Expr(x) => expr_wf(*x),
        },
        Expr::Yield(y) => match y.argument {
            Some(a) => expr_wf(*a),
            None => true,
        },
        Expr::Class(cl) => class_wf(cl),
        Expr::Await(x) => expr_wf(*x),
        Expr::TaggedTemplate(t) => expr_wf(*t.tag) && template_wf(t.quasi),
        _ => true,
    }
}

} // verus!
