//! Printing of programs, declarations and statements.
use vstd::prelude::*;
use crate::ast::{
    CatchClause, DefaultExportDecl, Decl, Dir, DoWhileStmt, ExportSpecifier, ForInStmt, ForOfStmt, ForStmt, IfStmt, ImportSpecifier, LabeledStmt, Literal, LoopInit, LoopLeft, ModExport, ModImport, NamedExportDecl, Program, ProgramPart, Stmt, SwitchCase, SwitchStmt, TryStmt, VariableDecl, VariableKind, WhileStmt, WithStmt, Expr,
};
use crate::render::{
    block_text, case_body_text, case_text, cases_text, decl_list_text, decl_text, empty_block_text, export_specs_text, export_text, expr_text, for_text, has_break, if_text, import_spec_text, import_tail_text, import_text, is_block, is_break_part, kind_text, lines_text, literal_text, loop_init_text, loop_left_text, part_text, pat_text, program_body, program_parts_text, stmt_text, switch_text, top_part_text, try_text, variable_decl_text, variable_decls_text,
};
use crate::seqs::group_cat;
use crate::wf::{
    case_wf, cases_wf, decl_wf, decl_wf_one, decls_wf, export_wf, expr_wf, for_wf, literal_wf, loop_left_wf, opt_expr_wf, part_wf, parts_wf, pat_wf, stmt_wf, try_wf,
};
use crate::writer::{
    Res, WriteError, Writer,
};

verus! {

broadcast use group_cat;

proof fn lemma_has_break_step(s: Seq<ProgramPart>, i: int)
    requires
        0 <= i < s.len(),
    ensures
        has_break(s.subrange(0, i + 1)) == (has_break(s.subrange(0, i)) || is_break_part(s[i])),
{
    let a = s.subrange(0, i);
    let b = s.subrange(0, i + 1);
    if has_break(a) {
        let j = choose|j: int| 0 <= j < a.len() && is_break_part(a[j]);
        assert(b[j] == a[j]);
    }
    if is_break_part(s[i]) {
        assert(b[i] == s[i]);
    }
    if has_break(b) {
        let j = choose|j: int| 0 <= j < b.len() && is_break_part(b[j]);
        if j < i {
            assert(a[j] == b[j]);
        }
    }
}

impl Writer {
    /// Writes every item of the program, each followed by a line break.
    #[verifier::rlimit(100)]
    #[verifier::spinoff_prover]
    pub fn write_program(&mut self, program: &Program) -> (r: Res)
        ensures
            final(self).rendered(
                *old(self),
                r,
                parts_wf(program_body(*program)),
                program_parts_text(old(self).layout(), program_body(*program)),
            ),
    {
        let parts = match program {
            Program::Script(parts) => parts,
            Program::Mod(parts) => parts,
        };
        let ghost c = self.layout();
        let ghost s = program_body(*program);
        let n = parts.len();
        let mut i: usize = 0;
        while i < n
            invariant
                n == s.len(),
                s == parts@,
                s == program_body(*program),
                i <= n,
                c == old(self).layout(),
                self.appended(*old(self), program_parts_text(c, s.subrange(0, i as int))),
                forall|j: int| 0 <= j < i ==> part_wf(#[trigger] s[j]),
            decreases n - i,
        {
            let step = self.write_part(&parts[i]);
            if step.is_err() {
                proof {
                    assert(!part_wf(s[i as int]));
                    assert(!parts_wf(s));
                    assert(!parts_wf(program_body(*program)));
                    assert(step->Err_0 is MalformedTree);
                }
                return step;
            }
            proof {
                assert(s.subrange(0, i + 1).subrange(0, i as int) =~= s.subrange(0, i as int));
            }
            i = i + 1;
        }
        proof {
            assert(s.subrange(0, n as int) =~= s);
        }
        Ok(())
    }

    /// Writes one top-level item at the current margin, followed by a line
    /// break.
    #[verifier::rlimit(100)]
    pub fn write_part(&mut self, part: &ProgramPart) -> (r: Res)
        ensures
            final(self).rendered(
                *old(self),
                r,
                part_wf(*part),
                top_part_text(old(self).layout(), *part),
            ),
    {
        proof {
            reveal(top_part_text);
        }
        self._write_part(part)?;
        self.write_new_line()?;
        Ok(())
    }

    /// Writes an item after the margin of its line.
    #[verifier::rlimit(100)]
    pub(crate) fn _write_part(&mut self, part: &ProgramPart) -> (r: Res)
        ensures
            final(self).rendered(
                *old(self),
                r,
                part_wf(*part),
                part_text(old(self).layout(), *part),
            ),
        decreases part, 0nat,
    {
        self.write_leading_whitespace()?;
        match part {
            ProgramPart::Decl(decl) => self.write_decl(decl)?,
            ProgramPart::Dir(dir) => self.write_directive(dir)?,
            ProgramPart::Stmt(stmt) => self.write_stmt(stmt)?,
        }
        Ok(())
    }

    #[verifier::rlimit(100)]
    pub fn write_decl(&mut self, decl: &Decl) -> (r: Res)
        ensures
            final(self).rendered(
                *old(self),
                r,
                decl_wf(*decl),
                decl_text(old(self).layout(), *decl),
            ),
        decreases decl, 0nat,
    {
        match decl {
            Decl::Variable(kind, decls) => self.write_variable_decls(kind, decls)?,
            Decl::Class(class) => {
                self.write_class(class)?;
                self.write_new_line()?;
            },
            Decl::Function(func) => {
                self.write_function(func)?;
                self.write_new_line()?;
            },
            Decl::Export(exp) => self.write_export_decl(exp)?,
            Decl::Import(imp) => self.write_import_decl(imp)?,
        }
        Ok(())
    }

    /// Writes a variable group: keyword, declarations separated by `, `,
    /// `;` and a line break.
    #[verifier::rlimit(100)]
    pub fn write_variable_decls(&mut self, kind: &VariableKind, decls: &Vec<VariableDecl>) -> (r:
        Res)
        ensures
            final(self).rendered(
                *old(self),
                r,
                decls_wf(decls@),
                variable_decls_text(old(self).layout(), *kind, decls@),
            ),
        decreases decls, 1nat,
    {
        self.write_variable_kind(kind)?;
        self.write_decl_list(decls)?;
        self.write_empty_stmt()?;
        self.write_new_line()
    }

    /// Writes declarations separated by `, `.
    #[verifier::rlimit(100)]
    #[verifier::spinoff_prover]
    fn write_decl_list(&mut self, decls: &Vec<VariableDecl>) -> (r: Res)
        ensures
            final(self).rendered(
                *old(self),
                r,
                decls_wf(decls@),
                decl_list_text(old(self).layout(), decls@),
            ),
        decreases decls, 0nat,
    {
        let ghost c = self.layout();
        let n = decls.len();
        let mut i: usize = 0;
        while i < n
            invariant
                n == decls@.len(),
                i <= n,
                c == old(self).layout(),
                self.appended(*old(self), decl_list_text(c, decls@.subrange(0, i as int))),
                forall|j: int| 0 <= j < i ==> decl_wf_one(#[trigger] decls@[j]),
            decreases n - i,
        {
            if i > 0 {
                self.write(", ");
            }
            self.write_variable_decl(&decls[i])?;
            proof {
                assert(decls@.subrange(0, i + 1).subrange(0, i as int) =~= decls@.subrange(
                    0,
                    i as int,
                ));
            }
            i = i + 1;
        }
        proof {
            assert(decls@.subrange(0, n as int) =~= decls@);
        }
        Ok(())
    }

    /// Writes `export ` and what is exported.
    #[verifier::rlimit(100)]
    pub fn write_export_decl(&mut self, exp: &ModExport) -> (r: Res)
        ensures
            final(self).rendered(
                *old(self),
                r,
                export_wf(*exp),
                "export "@ + export_text(old(self).layout(), *exp),
            ),
        decreases exp, 1nat,
    {
        self.write("export ");
        match exp {
            ModExport::All(a) => self.write_all_export(a)?,
            ModExport::Default(d) => self.write_default_export(d)?,
            ModExport::Named(n) => self.write_named_export(n)?,
        }
        Ok(())
    }

    /// Writes `* from` and the module.
    #[verifier::rlimit(100)]
    pub fn write_all_export(&mut self, exp: &Literal) -> (r: Res)
        ensures
            final(self).rendered(
                *old(self),
                r,
                literal_wf(*exp),
                "* from "@ + literal_text(old(self).layout(), *exp),
            ),
        decreases exp, 1nat,
    {
        self.write("* from ");
        self.write_literal(exp)?;
        Ok(())
    }

    #[verifier::rlimit(100)]
    pub fn write_default_export(&mut self, exp: &DefaultExportDecl) -> (r: Res)
        ensures
            final(self).rendered(
                *old(self),
                r,
                export_wf(ModExport::Default(*exp)),
                export_text(old(self).layout(), ModExport::Default(*exp)),
            ),
        decreases exp, 0nat,
    {
        self.write("default ");
        match exp {
            DefaultExportDecl::Decl(d) => self.write_decl(d)?,
            DefaultExportDecl::Expr(e) => self.write_expr(e)?,
        }
        Ok(())
    }

    #[verifier::rlimit(100)]
    pub fn write_named_export(&mut self, exp: &NamedExportDecl) -> (r: Res)
        ensures
            final(self).rendered(
                *old(self),
                r,
                export_wf(ModExport::Named(*exp)),
                export_text(old(self).layout(), ModExport::Named(*exp)),
            ),
        decreases exp, 0nat,
    {
        match exp {
            NamedExportDecl::Decl(d) => self.write_decl(d)?,
            NamedExportDecl::Specifier(s, from) => self.write_export_specifiers(s, from)?,
        }
        Ok(())
    }

    /// Writes `{a, b as c}` and, when given, ` from` and the module.
    #[verifier::rlimit(100)]
    pub fn write_export_specifiers(
        &mut self,
        specifiers: &Vec<ExportSpecifier>,
        from: &Option<Literal>,
    ) -> (r: Res)
        ensures
            final(self).rendered(
                *old(self),
                r,
                match *from {
                    Some(l) => literal_wf(l),
                    None => true,
                },
                "{"@ + export_specs_text(specifiers@) + "}"@ + match *from {
                    Some(l) => " from "@ + literal_text(old(self).layout(), l),
                    None => Seq::empty(),
                },
            ),
        decreases from, 0nat,
    {
        let ghost c = self.layout();
        self.write("{");
        let n = specifiers.len();
        let mut i: usize = 0;
        while i < n
            invariant
                n == specifiers@.len(),
                i <= n,
                c == old(self).layout(),
                self.appended(*old(self), "{"@ + export_specs_text(specifiers@.subrange(0, i as int))),
            decreases n - i,
        {
            if i > 0 {
                self.write(", ");
            }
            let s = &specifiers[i];
            self.write_ident(s.local.as_str())?;
            if let Some(name) = &s.exported {
                self.write(" as ");
                self.write(name.as_str());
            }
            proof {
                assert(specifiers@.subrange(0, i + 1).subrange(0, i as int)
                    =~= specifiers@.subrange(0, i as int));
            }
            i = i + 1;
        }
        self.write("}");
        proof {
            assert(specifiers@.subrange(0, n as int) =~= specifiers@);
        }
        if let Some(from) = from {
            self.write(" from ");
            self.write_literal(from)?;
        }
        Ok(())
    }

    /// Writes an import: a default or namespace binding first, the named ones
    /// in one pair of braces, then the module.
    #[verifier::rlimit(100)]
    pub fn write_import_decl(&mut self, imp: &ModImport) -> (r: Res)
        ensures
            final(self).rendered(
                *old(self),
                r,
                literal_wf(imp.source),
                import_text(old(self).layout(), *imp),
            ),
        decreases imp, 0nat,
    {
        let ghost c = self.layout();
        let ghost s = imp.specifiers@;
        self.write("import ");
        let n = imp.specifiers.len();
        if n == 0 {
            self.write("{}");
        }
        let mut opened_brace = false;
        let mut idx: usize = 0;
        if n > 0 {
            match &imp.specifiers[0] {
                ImportSpecifier::Default(ident) => self.write_ident(ident.as_str())?,
                ImportSpecifier::Namespace(name) => self.write_namespace_import(name.as_str())?,
                ImportSpecifier::Normal(_, _) => {
                    self.write("{ ");
                    opened_brace = true;
                    self.write_import_specificer(&imp.specifiers[0])?;
                },
            }
            idx = 1;
        }
        if !opened_brace && idx < n {
            match &imp.specifiers[1] {
                ImportSpecifier::Namespace(name) => {
                    self.write(", ");
                    self.write_namespace_import(name.as_str())?;
                },
                _ => {
                    self.write(", { ");
                    self.write_import_specificer(&imp.specifiers[1])?;
                    opened_brace = true;
                },
            }
            idx = 2;
        }
        let ghost start = idx;
        let ghost head = self.written();
        while idx < n
            invariant
                n == s.len(),
                s == imp.specifiers@,
                start <= idx <= n,
                c == old(self).layout(),
                self.layout() == c,
                self.written() == head + import_tail_text(s.subrange(start as int, idx as int)),
            decreases n - idx,
        {
            self.write(", ");
            self.write_import_specificer(&imp.specifiers[idx])?;
            proof {
                assert(s.subrange(start as int, idx + 1).subrange(0, idx - start)
                    =~= s.subrange(start as int, idx as int));
            }
            idx = idx + 1;
        }
        if opened_brace {
            self.write(" }");
        }
        proof {
            assert(s.subrange(start as int, n as int) =~= s.subrange(start as int, s.len() as int));
        }
        self.write(" from ");
        self.write_literal(&imp.source)?;
        self.write_empty_stmt()?;
        Ok(())
    }

    #[verifier::rlimit(100)]
    pub fn write_import_specificer(&mut self, spec: &ImportSpecifier) -> (r: Res)
        ensures
            r is Ok,
            final(self).appended(*old(self), import_spec_text(*spec)),
    {
        match spec {
            ImportSpecifier::Default(i) => self.write_ident(i.as_str())?,
            ImportSpecifier::Namespace(n) => self.write_namespace_import(n.as_str())?,
            ImportSpecifier::Normal(n, l) => self.write_normal_import(n.as_str(), l)?,
        }
        Ok(())
    }

    /// Writes `* as name`.
    #[verifier::rlimit(100)]
    pub fn write_namespace_import(&mut self, name: &str) -> (r: Res)
        ensures
            r is Ok,
            final(self).appended(*old(self), "* as "@ + name@),
    {
        self.write("* as ");
        self.write_ident(name)?;
        Ok(())
    }

    /// Writes `name` or `name as local`.
    #[verifier::rlimit(100)]
    pub fn write_normal_import(&mut self, name: &str, local: &Option<String>) -> (r: Res)
        ensures
            r is Ok,
            final(self).appended(
                *old(self),
                name@ + match *local {
                    Some(x) => " as "@ + x@,
                    None => Seq::empty(),
                },
            ),
    {
        self.write_ident(name)?;
        if let Some(ident) = local {
            self.write(" as ");
            self.write(ident.as_str());
        }
        Ok(())
    }

    /// Writes a directive such as `'use strict';` and a line break.
    #[verifier::rlimit(100)]
    pub fn write_directive(&mut self, dir: &Dir) -> (r: Res)
        ensures
            final(self).rendered(
                *old(self),
                r,
                literal_wf(dir.expr),
                literal_text(old(self).layout(), dir.expr) + ";"@ + old(self).layout().nl,
            ),
        decreases dir, 0nat,
    {
        self.write_literal(&dir.expr)?;
        self.write_empty_stmt()?;
        self.write_new_line()?;
        Ok(())
    }

    /// Writes the pattern and, when there is one, ` = ` and the initializer.
    #[verifier::rlimit(100)]
    pub fn write_variable_decl(&mut self, decl: &VariableDecl) -> (r: Res)
        ensures
            final(self).rendered(
                *old(self),
                r,
                decl_wf_one(*decl),
                variable_decl_text(old(self).layout(), *decl),
            ),
        decreases decl, 0nat,
    {
        self.write_pattern(&decl.id)?;
        if let Some(init) = &decl.init {
            self.write(" = ");
            self.write_expr(init)?;
        }
        Ok(())
    }

    /// Writes `var `, `let ` or `const `.
    #[verifier::rlimit(100)]
    pub fn write_variable_kind(&mut self, kind: &VariableKind) -> (r: Res)
        ensures
            r is Ok,
            final(self).appended(*old(self), kind_text(*kind)),
    {
        let s = match kind {
            VariableKind::Const => "const ",
            VariableKind::Let => "let ",
            VariableKind::Var => "var ",
        };
        self.write(s);
        Ok(())
    }
}

impl Writer {
    /// Writes a statement with its terminator and line break where it takes
    /// them.
    #[verifier::rlimit(100)]
    pub fn write_stmt(&mut self, stmt: &Stmt) -> (r: Res)
        ensures
            final(self).rendered(
                *old(self),
                r,
                stmt_wf(*stmt),
                stmt_text(old(self).layout(), *stmt),
            ),
        decreases stmt, 0nat,
    {
        let mut semi = true;
        let mut new_line = true;
        match stmt {
            Stmt::Empty => {
                new_line = false;
            },
            Stmt::Debugger => self.write_debugger_stmt()?,
            Stmt::Expr(e) => {
                let wrap = match e {
                    Expr::Literal(_) | Expr::Object(_) | Expr::Function(_) | Expr::Binary(_) => true,
                    _ => false,
                };
                if wrap {
                    self.write_wrapped_expr(e)?
                } else {
                    self.write_expr(e)?
                }
            },
            Stmt::Block(b) => {
                self.write_block_stmt(b)?;
                semi = false;
                new_line = false;
            },
            Stmt::With(w) => {
                self.write_with_stmt(w)?;
                semi = false;
            },
            Stmt::Return(e) => self.write_return_stmt(e)?,
            Stmt::Labeled(l) => {
                self.write_labeled_stmt(l)?;
                semi = false;
            },
            Stmt::Break(l) => self.write_break_stmt(l)?,
            Stmt::Continue(l) => self.write_continue_stmt(l)?,
            Stmt::If(i) => {
                self.write_if_stmt(i)?;
                semi = false;
            },
            Stmt::Switch(sw) => {
                self.write_switch_stmt(sw)?;
                semi = false;
            },
            Stmt::Throw(e) => self.write_throw_stmt(e)?,
            Stmt::Try(t) => {
                self.write_try_stmt(t)?;
                semi = false;
            },
            Stmt::While(w) => {
                new_line = self.write_while_stmt(w)?;
                semi = false;
            },
            Stmt::DoWhile(d) => self.write_do_while_stmt(d)?,
            Stmt::For(f) => {
                new_line = self.write_for_stmt(f)?;
                semi = false;
            },
            Stmt::ForIn(f) => {
                new_line = self.write_for_in_stmt(f)?;
                semi = false;
            },
            Stmt::ForOf(f) => {
                new_line = self.write_for_of_stmt(f)?;
                semi = false;
            },
            Stmt::Var(v) => self.write_var_stmt(v)?,
        }
        if semi {
            self.write_empty_stmt()?;
        }
        if new_line {
            self.write_new_line()?;
        }
        Ok(())
    }

    #[verifier::rlimit(100)]
    pub fn write_debugger_stmt(&mut self) -> (r: Res)
        ensures
            r is Ok,
            final(self).appended(*old(self), "debugger"@),
    {
        self.write("debugger");
        Ok(())
    }

    /// Writes `{`, a line holding only the inner margin, and `}` at the
    /// current margin.
    #[verifier::rlimit(100)]
    fn write_empty_block(&mut self)
        ensures
            final(self).appended(*old(self), empty_block_text(old(self).layout())),
    {
        let d = self.depth();
        let _ = self.write_open_brace();
        let _ = self.write_new_line();
        let _ = self.write_leading_whitespace();
        let _ = self.write_new_line();
        self.close_at(d);
    }

    /// Writes a block: its items one block deeper, each on a line of its own.
    #[verifier::rlimit(100)]
    pub fn write_block_stmt(&mut self, block: &Vec<ProgramPart>) -> (r: Res)
        ensures
            final(self).rendered(
                *old(self),
                r,
                parts_wf(block@),
                block_text(old(self).layout(), block@),
            ),
        decreases block, 1nat,
    {
        let ghost c = self.layout();
        let n = block.len();
        if n == 0 {
            self.write_empty_block();
            return Ok(());
        }
        let d = self.depth();
        self.write_open_brace()?;
        let mut i: usize = 0;
        while i < n
            invariant
                n == block@.len(),
                i <= n,
                c == old(self).layout(),
                d as nat == c.depth,
                self.layout() == c.deeper(),
                self.written() == old(self).written() + "{"@ + lines_text(
                    c.deeper(),
                    block@.subrange(0, i as int),
                ),
                forall|j: int| 0 <= j < i ==> part_wf(#[trigger] block@[j]),
            decreases n - i,
        {
            self.write_new_line()?;
            self._write_part(&block[i])?;
            proof {
                assert(block@.subrange(0, i + 1).subrange(0, i as int) =~= block@.subrange(
                    0,
                    i as int,
                ));
            }
            i = i + 1;
        }
        self.close_at(d);
        proof {
            assert(block@.subrange(0, n as int) =~= block@);
        }
        Ok(())
    }

    #[verifier::rlimit(100)]
    pub fn write_with_stmt(&mut self, expr: &WithStmt) -> (r: Res)
        ensures
            final(self).rendered(
                *old(self),
                r,
                expr_wf(expr.object) && stmt_wf(*expr.body),
                "with ("@ + expr_text(old(self).layout(), expr.object) + ") "@ + stmt_text(
                    old(self).layout(),
                    *expr.body,
                ),
            ),
        decreases expr, 0nat,
    {
        self.write("with (");
        self.write_expr(&expr.object)?;
        self.write(") ");
        self.write_stmt(&expr.body)?;
        Ok(())
    }

    #[verifier::rlimit(100)]
    pub fn write_return_stmt(&mut self, expr: &Option<Expr>) -> (r: Res)
        ensures
            final(self).rendered(
                *old(self),
                r,
                opt_expr_wf(*expr),
                "return"@ + match *expr {
                    Some(e) => " "@ + expr_text(old(self).layout(), e),
                    None => Seq::empty(),
                },
            ),
        decreases expr, 0nat,
    {
        self.write("return");
        if let Some(e) = expr {
            self.write(" ");
            self.write_expr(e)?;
        }
        Ok(())
    }

    #[verifier::rlimit(100)]
    pub fn write_labeled_stmt(&mut self, expr: &LabeledStmt) -> (r: Res)
        ensures
            final(self).rendered(
                *old(self),
                r,
                stmt_wf(*expr.body),
                expr.label@ + ": "@ + stmt_text(old(self).layout(), *expr.body),
            ),
        decreases expr, 0nat,
    {
        self.write_ident(expr.label.as_str())?;
        self.write(": ");
        self.write_stmt(&expr.body)?;
        Ok(())
    }

    #[verifier::rlimit(100)]
    pub fn write_break_stmt(&mut self, expr: &Option<String>) -> (r: Res)
        ensures
            r is Ok,
            final(self).appended(
                *old(self),
                "break"@ + match *expr {
                    Some(i) => " "@ + i@,
                    None => Seq::empty(),
                },
            ),
    {
        self.write("break");
        if let Some(i) = expr {
            self.write(" ");
            self.write_ident(i.as_str())?;
        }
        Ok(())
    }

    #[verifier::rlimit(100)]
    pub fn write_continue_stmt(&mut self, expr: &Option<String>) -> (r: Res)
        ensures
            r is Ok,
            final(self).appended(
                *old(self),
                "continue"@ + match *expr {
                    Some(i) => " "@ + i@,
                    None => Seq::empty(),
                },
            ),
    {
        self.write("continue");
        if let Some(i) = expr {
            self.write(" ");
            self.write_ident(i.as_str())?;
        }
        Ok(())
    }

    /// Writes an `if`; an empty branch becomes an empty block.
    #[verifier::rlimit(100)]
    pub fn write_if_stmt(&mut self, expr: &IfStmt) -> (r: Res)
        ensures
            final(self).rendered(
                *old(self),
                r,
                stmt_wf(Stmt::If(*expr)),
                if_text(old(self).layout(), *expr),
            ),
        decreases expr, 0nat,
    {
        self.write("if (");
        self.write_expr(&expr.test)?;
        self.write(") ");
        if let Stmt::Empty = &*expr.consequent {
            self.write_empty_block();
            proof {
                assert(stmt_wf(*expr.consequent));
            }
        } else {
            self.write_stmt(&expr.consequent)?;
        }
        if let Some(alt) = &expr.alternate {
            self.write(" else ");
            if let Stmt::Empty = &**alt {
                self.write_empty_block();
                proof {
                    assert(stmt_wf(**alt));
                }
            } else {
                self.write_stmt(alt)?;
            }
        }
        Ok(())
    }

    /// Writes a `switch`: `{ }` without cases, else each case one block
    /// deeper.
    #[verifier::rlimit(100)]
    #[verifier::spinoff_prover]
    pub fn write_switch_stmt(&mut self, switch: &SwitchStmt) -> (r: Res)
        ensures
            final(self).rendered(
                *old(self),
                r,
                expr_wf(switch.discriminant) && cases_wf(switch.cases@),
                switch_text(old(self).layout(), *switch),
            ),
        decreases switch, 0nat,
    {
        let ghost c = self.layout();
        self.write("switch (");
        self.write_expr(&switch.discriminant)?;
        self.write(") ");
        let n = switch.cases.len();
        if n == 0 {
            self.write("{ }");
            return Ok(());
        }
        let ghost head = self.written();
        let d = self.depth();
        self.write_open_brace()?;
        self.write_new_line()?;
        let mut i: usize = 0;
        while i < n
            invariant
                n == switch.cases@.len(),
                i <= n,
                c == old(self).layout(),
                d as nat == c.depth,
                self.layout() == c.deeper(),
                self.written() == head + "{"@ + c.nl + cases_text(
                    c.deeper(),
                    switch.cases@.subrange(0, i as int),
                ),
                forall|j: int| 0 <= j < i ==> case_wf(#[trigger] switch.cases@[j]),
            decreases n - i,
        {
            self.write_switch_case(&switch.cases[i])?;
            proof {
                assert(switch.cases@.subrange(0, i + 1).subrange(0, i as int)
                    =~= switch.cases@.subrange(0, i as int));
            }
            i = i + 1;
        }
        self.close_at(d);
        proof {
            assert(switch.cases@.subrange(0, n as int) =~= switch.cases@);
        }
        Ok(())
    }

    /// Writes a case label and its statements one level deeper; from the
    /// first `break` on, the statements go at the label's level.
    #[verifier::rlimit(100)]
    pub fn write_switch_case(&mut self, case: &SwitchCase) -> (r: Res)
        ensures
            final(self).rendered(
                *old(self),
                r,
                case_wf(*case),
                case_text(old(self).layout(), *case),
            ),
        decreases case, 0nat,
    {
        let ghost c = self.layout();
        let ghost s = case.consequent@;
        self.write_leading_whitespace()?;
        if let Some(t) = &case.test {
            self.write("case ");
            self.write_expr(t)?;
        } else {
            self.write("default");
        }
        self.write(":");
        self.write_new_line()?;
        let ghost head = self.written();
        let d = self.depth();
        self.enter();
        let mut broke = false;
        let n = case.consequent.len();
        let mut i: usize = 0;
        while i < n
            invariant
                n == s.len(),
                s == case.consequent@,
                i <= n,
                c == old(self).layout(),
                d as nat == c.depth,
                broke == has_break(s.subrange(0, i as int)),
                self.layout() == if broke {
                    c
                } else {
                    c.deeper()
                },
                self.written() == head + case_body_text(c, s.subrange(0, i as int)),
                forall|j: int| 0 <= j < i ==> part_wf(#[trigger] s[j]),
            decreases n - i,
        {
            let part = &case.consequent[i];
            let is_break = match part {
                ProgramPart::Stmt(Stmt::Break(_)) => true,
                _ => false,
            };
            proof {
                lemma_has_break_step(s, i as int);
                assert(s.subrange(0, i + 1).subrange(0, i as int) =~= s.subrange(0, i as int));
            }
            if is_break && !broke {
                self.restore_depth(d);
                broke = true;
            }
            self._write_part(part)?;
            self.write_new_line()?;
            i = i + 1;
        }
        self.restore_depth(d);
        proof {
            assert(s.subrange(0, n as int) =~= s);
        }
        Ok(())
    }

    #[verifier::rlimit(100)]
    pub fn write_throw_stmt(&mut self, expr: &Expr) -> (r: Res)
        ensures
            final(self).rendered(
                *old(self),
                r,
                expr_wf(*expr),
                "throw "@ + expr_text(old(self).layout(), *expr),
            ),
        decreases expr, 1nat,
    {
        self.write("throw ");
        self.write_expr(expr)?;
        Ok(())
    }

    /// Writes a `try` with its `catch` (the binding, when present, between
    /// parentheses) and its `finally`.
    #[verifier::rlimit(100)]
    #[verifier::spinoff_prover]
    pub fn write_try_stmt(&mut self, stmt: &TryStmt) -> (r: Res)
        ensures
            final(self).rendered(
                *old(self),
                r,
                try_wf(*stmt),
                try_text(old(self).layout(), *stmt),
            ),
        decreases stmt, 0nat,
    {
        self.write("try ");
        self.write_block_stmt(&stmt.block)?;
        if let Some(c) = &stmt.handler {
            self.write_catch_clause(c)?;
        }
        self.write_finalizer(&stmt.finalizer)?;
        Ok(())
    }

    /// Writes ` finally` and the block, if there is one.
    #[verifier::rlimit(100)]
    fn write_finalizer(&mut self, finalizer: &Option<Vec<ProgramPart>>) -> (r: Res)
        ensures
            final(self).rendered(
                *old(self),
                r,
                match *finalizer {
                    Some(f) => parts_wf(f@),
                    None => true,
                },
                match *finalizer {
                    Some(f) => " finally "@ + block_text(old(self).layout(), f@),
                    None => Seq::empty(),
                },
            ),
        decreases finalizer, 0nat,
    {
        if let Some(f) = finalizer {
            self.write(" finally ");
            self.write_block_stmt(f)?;
        }
        Ok(())
    }

    /// Writes ` catch`, the binding between parentheses when there is one,
    /// and the block.
    #[verifier::rlimit(100)]
    fn write_catch_clause(&mut self, c: &CatchClause) -> (r: Res)
        ensures
            final(self).rendered(
                *old(self),
                r,
                parts_wf(c.body@) && match c.param {
                    Some(p) => pat_wf(p),
                    None => true,
                },
                " catch"@ + match c.param {
                    Some(p) => " ("@ + pat_text(old(self).layout(), p) + ") "@,
                    None => Seq::empty(),
                } + block_text(old(self).layout(), c.body@),
            ),
        decreases c, 0nat,
    {
        self.write(" catch");
        if let Some(param) = &c.param {
            self.write(" (");
            self.write_pattern(param)?;
            self.write(") ");
        }
        self.write_block_stmt(&c.body)?;
        Ok(())
    }

    /// Writes a `while`; reports whether its body is a block.
    #[verifier::rlimit(100)]
    pub fn write_while_stmt(&mut self, stmt: &WhileStmt) -> (r: Result<bool, WriteError>)
        ensures
            final(self).rendered_loop(
                *old(self),
                r,
                expr_wf(stmt.test) && stmt_wf(*stmt.body),
                "while ("@ + expr_text(old(self).layout(), stmt.test) + ") "@ + stmt_text(
                    old(self).layout(),
                    *stmt.body,
                ),
                is_block(*stmt.body),
            ),
        decreases stmt, 0nat,
    {
        let mut ret = false;
        self.write("while (");
        self.write_expr(&stmt.test)?;
        self.write(") ");
        if let Stmt::Block(_) = &*stmt.body {
            ret = true;
        }
        self.write_stmt(&stmt.body)?;
        Ok(ret)
    }

    /// Writes a `do .. while`; an empty body is a bare `;`.
    #[verifier::rlimit(100)]
    pub fn write_do_while_stmt(&mut self, stmt: &DoWhileStmt) -> (r: Res)
        ensures
            final(self).rendered(
                *old(self),
                r,
                expr_wf(stmt.test) && stmt_wf(*stmt.body),
                "do"@ + (if *stmt.body is Empty {
                    "; "@
                } else {
                    " "@ + stmt_text(old(self).layout(), *stmt.body) + " "@
                }) + "while ("@ + expr_text(old(self).layout(), stmt.test) + ")"@,
            ),
        decreases stmt, 0nat,
    {
        self.write("do");
        if let Stmt::Empty = &*stmt.body {
            self.write("; ");
        } else {
            self.write(" ");
            self.write_stmt(&stmt.body)?;
            self.write(" ");
        }
        self.write("while (");
        self.write_expr(&stmt.test)?;
        self.write(")");
        Ok(())
    }

    /// Writes a counted `for`; reports whether its body is a block.
    #[verifier::rlimit(100)]
    #[verifier::spinoff_prover]
    pub fn write_for_stmt(&mut self, stmt: &ForStmt) -> (r: Result<bool, WriteError>)
        ensures
            final(self).rendered_loop(
                *old(self),
                r,
                for_wf(*stmt),
                for_text(old(self).layout(), *stmt),
                is_block(*stmt.body),
            ),
        decreases stmt, 2nat,
    {
        self.write_for_head(stmt)?;
        let ret = if let Stmt::Block(_) = &*stmt.body {
            true
        } else {
            false
        };
        self.write_stmt(&stmt.body)?;
        Ok(ret)
    }

    /// Writes a counted `for` up to its body.
    #[verifier::rlimit(100)]
    fn write_for_head(&mut self, stmt: &ForStmt) -> (r: Res)
        ensures
            final(self).rendered(
                *old(self),
                r,
                crate::wf::for_head_wf(*stmt),
                crate::render::for_head_text(old(self).layout(), *stmt),
            ),
        decreases stmt, 1nat,
    {
        self.write("for (");
        self.write_opt_loop_init(&stmt.init)?;
        self.write_empty_stmt()?;
        self.write_opt_expr(&stmt.test)?;
        self.write_empty_stmt()?;
        self.write_opt_expr(&stmt.update)?;
        self.write(") ");
        Ok(())
    }

    /// Writes the loop initializer, if there is one.
    #[verifier::rlimit(100)]
    fn write_opt_loop_init(&mut self, init: &Option<LoopInit>) -> (r: Res)
        ensures
            final(self).rendered(
                *old(self),
                r,
                match *init {
                    Some(LoopInit::Expr(e)) => expr_wf(e),
                    Some(LoopInit::Variable(_, ds)) => decls_wf(ds@),
                    None => true,
                },
                match *init {
                    Some(i) => loop_init_text(old(self).layout().with_init(true), i),
                    None => Seq::empty(),
                },
            ),
        decreases init, 0nat,
    {
        if let Some(i) = init {
            self.write_loop_init(i)?;
        }
        Ok(())
    }

    /// Writes the expression, if there is one.
    #[verifier::rlimit(100)]
    fn write_opt_expr(&mut self, expr: &Option<Expr>) -> (r: Res)
        ensures
            final(self).rendered(
                *old(self),
                r,
                opt_expr_wf(*expr),
                match *expr {
                    Some(e) => expr_text(old(self).layout(), e),
                    None => Seq::empty(),
                },
            ),
        decreases expr, 0nat,
    {
        if let Some(e) = expr {
            self.write_expr(e)?;
        }
        Ok(())
    }

    /// Writes the initializer of a counted `for`, inside which an `in`
    /// operator is wrapped.
    #[verifier::rlimit(100)]
    pub fn write_loop_init(&mut self, init: &LoopInit) -> (r: Res)
        ensures
            final(self).rendered(
                *old(self),
                r,
                match *init {
                    LoopInit::Expr(e) => expr_wf(e),
                    LoopInit::Variable(_, ds) => decls_wf(ds@),
                },
                loop_init_text(old(self).layout().with_init(true), *init),
            ),
        decreases init, 0nat,
    {
        let saved = self.for_init();
        self.set_for_init(true);
        match init {
            LoopInit::Expr(e) => self.write_expr(e)?,
            LoopInit::Variable(kind, v) => {
                self.write_variable_kind(kind)?;
                self.write_decl_list(v)?;
            },
        }
        self.set_for_init(saved);
        Ok(())
    }

    /// Writes a `for .. in`; reports whether its body is a block.
    #[verifier::rlimit(100)]
    #[verifier::spinoff_prover]
    pub fn write_for_in_stmt(&mut self, stmt: &ForInStmt) -> (r: Result<bool, WriteError>)
        ensures
            final(self).rendered_loop(
                *old(self),
                r,
                loop_left_wf(stmt.left) && expr_wf(stmt.right) && stmt_wf(*stmt.body),
                "for ("@ + loop_left_text(old(self).layout(), stmt.left) + " in "@ + expr_text(
                    old(self).layout(),
                    stmt.right,
                ) + ") "@ + stmt_text(old(self).layout(), *stmt.body),
                is_block(*stmt.body),
            ),
        decreases stmt, 0nat,
    {
        self.write("for (");
        self.write_loop_left(&stmt.left)?;
        self.write(" in ");
        self.write_expr(&stmt.right)?;
        self.write(") ");
        self.write_stmt(&stmt.body)?;
        let ret = if let Stmt::Block(_) = &*stmt.body {
            true
        } else {
            false
        };
        Ok(ret)
    }

    /// Writes a `for .. of`; reports whether its body is a block.
    #[verifier::rlimit(100)]
    #[verifier::spinoff_prover]
    pub fn write_for_of_stmt(&mut self, stmt: &ForOfStmt) -> (r: Result<bool, WriteError>)
        ensures
            final(self).rendered_loop(
                *old(self),
                r,
                loop_left_wf(stmt.left) && expr_wf(stmt.right) && stmt_wf(*stmt.body),
                "for ("@ + loop_left_text(old(self).layout(), stmt.left) + " of "@ + expr_text(
                    old(self).layout(),
                    stmt.right,
                ) + ") "@ + stmt_text(old(self).layout(), *stmt.body),
                is_block(*stmt.body),
            ),
        decreases stmt, 0nat,
    {
        self.write("for (");
        self.write_loop_left(&stmt.left)?;
        self.write(" of ");
        self.write_expr(&stmt.right)?;
        self.write(") ");
        self.write_stmt(&stmt.body)?;
        let ret = if let Stmt::Block(_) = &*stmt.body {
            true
        } else {
            false
        };
        Ok(ret)
    }

    /// Writes the left side of a `for .. in` or `for .. of` head.
    #[verifier::rlimit(100)]
    pub fn write_loop_left(&mut self, left: &LoopLeft) -> (r: Res)
        ensures
            final(self).rendered(
                *old(self),
                r,
                loop_left_wf(*left),
                loop_left_text(old(self).layout(), *left),
            ),
        decreases left, 0nat,
    {
        match left {
            LoopLeft::Pat(pat) => self.write_pattern(pat)?,
            LoopLeft::Variable(kind, var) => {
                self.write_variable_kind(kind)?;
                self.write_variable_decl(var)?;
            },
            LoopLeft::Expr(expr) => self.write_expr(expr)?,
        }
        Ok(())
    }

    /// Writes `var ` and the declarations separated by `, `.
    #[verifier::rlimit(100)]
    pub fn write_var_stmt(&mut self, expr: &Vec<VariableDecl>) -> (r: Res)
        ensures
            final(self).rendered(
                *old(self),
                r,
                decls_wf(expr@),
                "var "@ + decl_list_text(old(self).layout(), expr@),
            ),
        decreases expr, 1nat,
    {
        self.write("var ");
        self.write_decl_list(expr)?;
        Ok(())
    }
}

} // verus!
