use resw::ast::{
    ArrowFunctionBody, ArrowFunctionExpr, BinaryExpr, BinaryOperator, Expr, ForStmt, FunctionArg,
    Literal, LoopInit, ObjectProperty, Pat, Property, PropertyKey, PropertyKind, PropertyValue,
    Stmt, SwitchStmt, UpdateExpr, UpdateOperator, VariableDecl, VariableKind,
};
use resw::ast::{ImportSpecifier, ModImport, Program, ProgramPart, TemplateElement, TemplateLiteral};
use resw::comment::{render_comment, Comment, CommentKind};
use resw::quote::requote;
use resw::writer::{WriteError, Writer};

fn ident(s: &str) -> Expr {
    Expr::Ident(s.to_string())
}

fn number(s: &str) -> Expr {
    Expr::Literal(Literal::Number(s.to_string()))
}

fn binary(op: BinaryOperator, l: Expr, r: Expr) -> Expr {
    Expr::Binary(BinaryExpr { operator: op, left: Box::new(l), right: Box::new(r) })
}

fn with_value(name: &str, e: Expr) -> VariableDecl {
    VariableDecl { id: Pat::Identifier(name.to_string()), init: Some(e) }
}

fn uninitialized(name: &str) -> VariableDecl {
    VariableDecl { id: Pat::Identifier(name.to_string()), init: None }
}

#[test]
fn write_empty_expression() {
    let mut w = Writer::new();
    w.write_empty_stmt().unwrap();
    assert_eq!(w.output(), ";".to_string());
}

#[test]
fn write_debugger_stmt() {
    let mut w = Writer::new();
    w.write_debugger_stmt().unwrap();
    assert_eq!(w.output(), "debugger");
}

#[test]
fn write_variable_decls() {
    let mut w = Writer::new();
    w.write_variable_decls(
        &VariableKind::Var,
        &vec![with_value("thing", Expr::Literal(Literal::Boolean(false)))],
    )
    .unwrap();
    assert_eq!(w.output(), "var thing = false;\n".to_string());
    let mut w = Writer::new();
    w.write_variable_decls(
        &VariableKind::Let,
        &vec![
            uninitialized("stuff"),
            uninitialized("places"),
            with_value("thing", Expr::Literal(Literal::Boolean(false))),
        ],
    )
    .unwrap();
    assert_eq!(w.output(), "let stuff, places, thing = false;\n");
}

#[test]
fn two_declarations_one_initialized() {
    let mut w = Writer::new();
    w.write_variable_decls(
        &VariableKind::Var,
        &vec![uninitialized("x"), with_value("y", Expr::Literal(Literal::Boolean(false)))],
    )
    .unwrap();
    assert_eq!(w.output(), "var x, y = false;\n");
}

#[test]
fn object_literal_statement_is_wrapped() {
    let obj = Expr::Object(vec![ObjectProperty::Property(Property {
        key: PropertyKey::Expr(ident("a")),
        value: PropertyValue::Expr(number("1")),
        kind: PropertyKind::Init,
        computed: false,
        short_hand: false,
    })]);
    let mut w = Writer::new();
    w.write_stmt(&Stmt::Expr(obj)).unwrap();
    assert_eq!(w.output(), "({a: 1});\n");
}

#[test]
fn in_operator_wrapped_only_in_loop_initializer() {
    let stmt = Stmt::For(ForStmt {
        init: Some(LoopInit::Expr(binary(BinaryOperator::In, ident("x"), ident("y")))),
        test: None,
        update: None,
        body: Box::new(Stmt::Empty),
    });
    let mut w = Writer::new();
    w.write_stmt(&stmt).unwrap();
    assert_eq!(w.output(), "for ((x in y);;) ;");

    let stmt = Stmt::For(ForStmt {
        init: Some(LoopInit::Variable(VariableKind::Var, vec![with_value("i", number("0"))])),
        test: Some(binary(BinaryOperator::In, ident("i"), ident("obj"))),
        update: Some(Expr::Update(UpdateExpr {
            operator: UpdateOperator::Increment,
            argument: Box::new(ident("i")),
            prefix: false,
        })),
        body: Box::new(Stmt::Block(vec![])),
    });
    let mut w = Writer::new();
    w.write_stmt(&stmt).unwrap();
    assert_eq!(w.output(), "for (var i = 0;i in obj;i++) {\n    \n}\n");
}

#[test]
fn empty_switch() {
    let mut w = Writer::new();
    w.write_stmt(&Stmt::Switch(SwitchStmt { discriminant: ident("x"), cases: vec![] })).unwrap();
    assert_eq!(w.output(), "switch (x) { }\n");
}

#[test]
fn single_identifier_arrow_has_no_parameter_parens() {
    let arrow = Expr::ArrowFunction(ArrowFunctionExpr {
        params: vec![FunctionArg::Pat(Pat::Identifier("x".to_string()))],
        body: ArrowFunctionBody::Expr(Box::new(binary(BinaryOperator::Plus, ident("x"), number("1")))),
        is_async: false,
    });
    let mut w = Writer::new();
    w.write_expr(&arrow).unwrap();
    assert_eq!(w.output(), "x => (x + 1)");
}

#[test]
fn nested_binary_operand_is_wrapped() {
    let e = binary(BinaryOperator::Times, binary(BinaryOperator::Plus, ident("a"), ident("b")), ident("c"));
    let mut w = Writer::new();
    w.write_expr(&e).unwrap();
    assert_eq!(w.output(), "(a + b) * c");
}

#[test]
fn method_without_function_is_malformed() {
    let prop = Property {
        key: PropertyKey::Expr(ident("m")),
        value: PropertyValue::Expr(number("1")),
        kind: PropertyKind::Method,
        computed: false,
        short_hand: false,
    };
    let mut w = Writer::new();
    assert!(matches!(w.write_property(&prop), Err(WriteError::MalformedTree)));
}

#[test]
fn block_contents_are_indented() {
    let block = Stmt::Block(vec![resw::ast::ProgramPart::Stmt(Stmt::Debugger)]);
    let mut w = Writer::builder().indent("  ").new_line("\r\n").build();
    w.write_stmt(&block).unwrap();
    assert_eq!(w.output(), "{\r\n  debugger;\r\n}");
}

#[test]
fn forced_quote_rewrites_strings() {
    let mut w = Writer::builder().quote('"').build();
    w.write_literal(&Literal::String("'it\\'s \"x\"'".to_string())).unwrap();
    assert_eq!(w.output(), "\"it's \\\"x\\\"\"");
    assert_eq!(requote("'a'", '"'), Some("\"a\"".to_string()));
    assert_eq!(requote("abc", '"'), None);
    assert_eq!(requote("'a\\'", '"'), None);
}

#[test]
fn comments_get_their_delimiters() {
    let c = Comment { kind: CommentKind::Single, content: " hi".to_string(), tail_content: None };
    assert_eq!(render_comment(&c), "// hi");
    let c = Comment { kind: CommentKind::Multi, content: "x".to_string(), tail_content: None };
    assert_eq!(render_comment(&c), "/*x*/");
    let c = Comment {
        kind: CommentKind::Html,
        content: "x".to_string(),
        tail_content: Some("y".to_string()),
    };
    assert_eq!(render_comment(&c), "<!--x-->y");
}

#[test]
fn import_with_default_and_named_bindings() {
    let imp = ModImport {
        specifiers: vec![
            ImportSpecifier::Default("a".to_string()),
            ImportSpecifier::Normal("b".to_string(), Some("c".to_string())),
            ImportSpecifier::Normal("d".to_string(), None),
        ],
        source: Literal::String("'m'".to_string()),
    };
    let mut w = Writer::new();
    w.write_import_decl(&imp).unwrap();
    assert_eq!(w.output(), "import a, { b as c, d } from 'm';");
}

#[test]
fn template_interleaves_chunks_and_expressions() {
    let chunk = |raw: &str| TemplateElement { tail: false, cooked: String::new(), raw: raw.to_string() };
    let t = TemplateLiteral { quasis: vec![chunk("`a${"), chunk("}b`")], expressions: vec![ident("x")] };
    let mut w = Writer::new();
    w.write_template(&t).unwrap();
    assert_eq!(w.output(), "`a${x}b`");
}

#[test]
fn program_items_end_with_line_breaks() {
    let p = Program::Script(vec![ProgramPart::Stmt(Stmt::Debugger), ProgramPart::Stmt(Stmt::Empty)]);
    let mut w = Writer::new();
    w.write_program(&p).unwrap();
    assert_eq!(w.output(), "debugger;\n\n;\n");
    assert_eq!(w.take_output(), "debugger;\n\n;\n");
    assert_eq!(w.output(), "");
}
