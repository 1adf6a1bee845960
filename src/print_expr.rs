//! Printing of expressions and literals.
use vstd::prelude::*;
use crate::ast::{
    ArrowFunctionBody, ArrowFunctionExpr, AssignmentExpr, AssignmentLeft, AssignmentOperator, BinaryExpr, BinaryOperator, CallExpr, ConditionalExpr, Expr, FunctionArg, Literal, LogicalExpr, LogicalOperator, MemberExpr, MetaProperty, NewExpr, ObjectProperty, Pat, RegEx, TaggedTemplateExpr, TemplateLiteral, UnaryExpr, UnaryOperator, UpdateExpr, UpdateOperator, YieldExpr,
};
use crate::quote::requote;
use crate::render::{
    array_front_text, array_text, arrow_text, assign_op_text, assignment_text, binary_op_text, binary_side_text, binary_text, bool_text, chunks_text, conditional_text, expr_list_text, expr_text, literal_text, logical_op_text, logical_text, member_text, object_props_text, object_text, raws_text, sequence_text, string_text, template_text, unary_op_text, unary_text, update_op_text, update_text, wrap, yield_text,
};
use crate::seqs::group_cat;
use crate::wf::{
    expr_wf, exprs_wf, literal_wf, object_prop_wf, opt_expr_wf, template_wf,
};
use crate::writer::{
    Res, Writer,
};

verus! {

broadcast use group_cat;

impl Writer {
    /// Writes the expression between parentheses.
    #[verifier::rlimit(100)]
    pub fn write_wrapped_expr(&mut self, expr: &Expr) -> (r: Res)
        ensures
            final(self).rendered(
                *old(self),
                r,
                expr_wf(*expr),
                wrap(expr_text(old(self).layout(), *expr)),
            ),
        decreases expr, 1nat,
    {
        self.write("(");
        self.write_expr(expr)?;
        self.write(")");
        Ok(())
    }

    #[verifier::rlimit(100)]
    pub fn write_expr(&mut self, expr: &Expr) -> (r: Res)
        ensures
            final(self).rendered(
                *old(self),
                r,
                expr_wf(*expr),
                expr_text(old(self).layout(), *expr),
            ),
        decreases expr, 0nat,
    {
        match expr {
            Expr::Literal(e) => self.write_literal(e)?,
            Expr::This => self.write_this_expr()?,
            Expr::Super => self.write_super_expr()?,
            Expr::Array(e) => self.write_array_expr(e)?,
            Expr::Object(e) => self.write_object_expr(e)?,
            Expr::Function(e) => self.write_function(e)?,
            Expr::Unary(e) => self.write_unary_expr(e)?,
            Expr::Update(e) => self.write_update_expr(e)?,
            Expr::Binary(e) => self.write_binary_expr(e)?,
            Expr::Assignment(e) => self.write_assignment_expr(e)?,
            Expr::Logical(e) => self.write_logical_expr(e)?,
            Expr::Member(e) => self.write_member_expr(e)?,
            Expr::Conditional(e) => self.write_conditional_expr(e)?,
            Expr::Call(e) => self.write_call_expr(e)?,
            Expr::New(e) => self.write_new_expr(e)?,
            Expr::Sequence(e) => self.write_sequence_expr(e)?,
            Expr::Spread(e) => self.write_spread_expr(e)?,
            Expr::ArrowFunction(e) => self.write_arrow_function_expr(e)?,
            Expr::Yield(e) => self.write_yield_expr(e)?,
            Expr::Class(e) => self.write_class(e)?,
            Expr::MetaProperty(e) => self.write_meta_property(e)?,
            Expr::Await(e) => self.write_await_expr(e)?,
            Expr::Ident(e) => self.write_ident(e.as_str())?,
            Expr::TaggedTemplate(e) => self.write_tagged_template(e)?,
        }
        Ok(())
    }

    #[verifier::rlimit(100)]
    pub fn write_this_expr(&mut self) -> (r: Res)
        ensures
            r is Ok,
            final(self).appended(*old(self), "this"@),
    {
        self.write("this");
        Ok(())
    }

    #[verifier::rlimit(100)]
    pub fn write_super_expr(&mut self) -> (r: Res)
        ensures
            r is Ok,
            final(self).appended(*old(self), "super"@),
    {
        self.write("super");
        Ok(())
    }

    /// Writes an array literal; a hole prints as a bare comma.
    #[verifier::rlimit(100)]
    pub fn write_array_expr(&mut self, arr: &Vec<Option<Expr>>) -> (r: Res)
        ensures
            final(self).rendered(
                *old(self),
                r,
                forall|i: int| 0 <= i < arr@.len() ==> opt_expr_wf(#[trigger] arr@[i]),
                array_text(old(self).layout(), arr@),
            ),
        decreases arr, 0nat,
    {
        let ghost c = self.layout();
        let n = arr.len();
        if n == 0 {
            self.write("[]");
            return Ok(());
        }
        self.write("[");
        let last_idx = n - 1;
        let mut i: usize = 0;
        while i < last_idx
            invariant
                n == arr@.len(),
                last_idx == n - 1,
                i <= last_idx,
                c == old(self).layout(),
                self.appended(*old(self), "["@ + array_front_text(c, arr@.subrange(0, i as int))),
                forall|j: int| 0 <= j < i ==> opt_expr_wf(#[trigger] arr@[j]),
            decreases last_idx - i,
        {
            match &arr[i] {
                Some(e) => {
                    self.write_expr(e)?;
                    self.write(", ");
                },
                None => {
                    self.write(",");
                },
            }
            proof {
                assert(arr@.subrange(0, i + 1).subrange(0, i as int) =~= arr@.subrange(0, i as int));
            }
            i = i + 1;
        }
        match &arr[last_idx] {
            Some(e) => self.write_expr(e)?,
            None => {
                self.write(",");
            },
        }
        self.write("]");
        proof {
            assert forall|j: int| 0 <= j < arr@.len() implies opt_expr_wf(#[trigger] arr@[j]) by {
                if j < last_idx {
                } else {
                    assert(j == last_idx);
                }
            }
        }
        Ok(())
    }

    /// Writes an object literal, its properties separated by `, `.
    #[verifier::rlimit(100)]
    pub fn write_object_expr(&mut self, obj: &Vec<ObjectProperty>) -> (r: Res)
        ensures
            final(self).rendered(
                *old(self),
                r,
                forall|i: int| 0 <= i < obj@.len() ==> object_prop_wf(#[trigger] obj@[i]),
                object_text(old(self).layout(), obj@),
            ),
        decreases obj, 1nat,
    {
        let ghost c = self.layout();
        let n = obj.len();
        if n == 0 {
            self.write("{}");
            return Ok(());
        }
        self.write("{");
        let mut i: usize = 0;
        while i < n
            invariant
                n == obj@.len(),
                i <= n,
                c == old(self).layout(),
                self.appended(*old(self), "{"@ + object_props_text(c, obj@.subrange(0, i as int))),
                forall|j: int| 0 <= j < i ==> object_prop_wf(#[trigger] obj@[j]),
            decreases n - i,
        {
            if i > 0 {
                self.write(", ");
            }
            proof {
                assert(object_prop_wf(obj@[i as int]) == match obj@[i as int] {
                    ObjectProperty::Property(x) => crate::wf::property_wf(x),
                    ObjectProperty::Spread(e) => expr_wf(*e),
                });
                assert(crate::render::object_prop_text(c, obj@[i as int]) == match obj@[i as int] {
                    ObjectProperty::Property(x) => crate::render::property_text(c, x),
                    ObjectProperty::Spread(e) => expr_text(c, *e),
                });
            }
            match &obj[i] {
                ObjectProperty::Property(p) => self.write_property(p)?,
                ObjectProperty::Spread(e) => self.write_expr(e)?,
            }
            proof {
                assert(obj@.subrange(0, i + 1).subrange(0, i as int) =~= obj@.subrange(0, i as int));
            }
            i = i + 1;
        }
        self.write("}");
        proof {
            assert(obj@.subrange(0, n as int) =~= obj@);
        }
        Ok(())
    }

    #[verifier::rlimit(100)]
    pub fn write_unary_expr(&mut self, unary: &UnaryExpr) -> (r: Res)
        ensures
            final(self).rendered(
                *old(self),
                r,
                expr_wf(*unary.argument),
                unary_text(old(self).layout(), *unary),
            ),
        decreases unary, 0nat,
    {
        if unary.prefix {
            self.write_unary_operator(&unary.operator)?;
        }
        match &*unary.argument {
            Expr::Assignment(_)
            | Expr::Binary(_)
            | Expr::Logical(_)
            | Expr::Conditional(_)
            | Expr::ArrowFunction(_)
            | Expr::Function(_) => self.write_wrapped_expr(&unary.argument)?,
            Expr::Unary(_) | Expr::Update(_) => {
                self.write(" ");
                self.write_expr(&unary.argument)?;
            },
            _ => self.write_expr(&unary.argument)?,
        }
        if !unary.prefix {
            self.write_unary_operator(&unary.operator)?;
        }
        Ok(())
    }

    #[verifier::rlimit(100)]
    pub fn write_unary_operator(&mut self, op: &UnaryOperator) -> (r: Res)
        ensures
            r is Ok,
            final(self).appended(*old(self), unary_op_text(*op)),
    {
        match op {
            UnaryOperator::Delete => self.write("delete "),
            UnaryOperator::Minus => self.write("-"),
            UnaryOperator::Not => self.write("!"),
            UnaryOperator::Plus => self.write("+"),
            UnaryOperator::Tilde => self.write("~"),
            UnaryOperator::TypeOf => self.write("typeof "),
            UnaryOperator::Void => self.write("void "),
        }
        Ok(())
    }

    #[verifier::rlimit(100)]
    pub fn write_update_expr(&mut self, update: &UpdateExpr) -> (r: Res)
        ensures
            final(self).rendered(
                *old(self),
                r,
                expr_wf(*update.argument),
                update_text(old(self).layout(), *update),
            ),
        decreases update, 0nat,
    {
        if update.prefix {
            self.write_update_operator(&update.operator)?;
        }
        self.write_expr(&update.argument)?;
        if !update.prefix {
            self.write_update_operator(&update.operator)?;
        }
        Ok(())
    }

    #[verifier::rlimit(100)]
    pub fn write_update_operator(&mut self, op: &UpdateOperator) -> (r: Res)
        ensures
            r is Ok,
            final(self).appended(*old(self), update_op_text(*op)),
    {
        let s = match op {
            UpdateOperator::Decrement => "--",
            UpdateOperator::Increment => "++",
        };
        self.write(s);
        Ok(())
    }

    /// Writes a binary expression; inside a loop initializer an `in` is
    /// wrapped whole.
    #[verifier::rlimit(100)]
    pub fn write_binary_expr(&mut self, binary: &BinaryExpr) -> (r: Res)
        ensures
            final(self).rendered(
                *old(self),
                r,
                expr_wf(*binary.left) && expr_wf(*binary.right),
                binary_text(old(self).layout(), *binary),
            ),
        decreases binary, 0nat,
    {
        let is_in = match binary.operator {
            BinaryOperator::In => true,
            _ => false,
        };
        let wrap = self.for_init() && is_in;
        if wrap {
            self.write("(");
        }
        self.write_binary_side(&binary.left)?;
        self.write(" ");
        self.write_binary_operator(&binary.operator)?;
        self.write(" ");
        self.write_binary_side(&binary.right)?;
        if wrap {
            self.write(")");
        }
        Ok(())
    }

    /// Writes an operand of a binary operator, wrapped where its kind could
    /// bind differently there.
    #[verifier::rlimit(100)]
    pub fn write_binary_side(&mut self, side: &Expr) -> (r: Res)
        ensures
            final(self).rendered(
                *old(self),
                r,
                expr_wf(*side),
                binary_side_text(old(self).layout(), *side),
            ),
        decreases side, 2nat,
    {
        match side {
            Expr::Assignment(_)
            | Expr::Conditional(_)
            | Expr::Logical(_)
            | Expr::Function(_)
            | Expr::ArrowFunction(_)
            | Expr::Binary(_) => self.write_wrapped_expr(side),
            _ => self.write_expr(side),
        }
    }

    #[verifier::rlimit(100)]
    pub fn write_binary_operator(&mut self, op: &BinaryOperator) -> (r: Res)
        ensures
            r is Ok,
            final(self).appended(*old(self), binary_op_text(*op)),
    {
        let s = match op {
            BinaryOperator::And => "&",
            BinaryOperator::Equal => "==",
            BinaryOperator::GreaterThan => ">",
            BinaryOperator::GreaterThanEqual => ">=",
            BinaryOperator::In => "in",
            BinaryOperator::InstanceOf => "instanceof",
            BinaryOperator::LeftShift => "<<",
            BinaryOperator::LessThan => "<",
            BinaryOperator::LessThanEqual => "<=",
            BinaryOperator::Minus => "-",
            BinaryOperator::Mod => "%",
            BinaryOperator::NotEqual => "!=",
            BinaryOperator::Or => "|",
            BinaryOperator::Over => "/",
            BinaryOperator::Plus => "+",
            BinaryOperator::PowerOf => "**",
            BinaryOperator::RightShift => ">>",
            BinaryOperator::StrictEqual => "===",
            BinaryOperator::StrictNotEqual => "!==",
            BinaryOperator::Times => "*",
            BinaryOperator::UnsignedRightShift => ">>>",
            BinaryOperator::XOr => "^",
        };
        self.write(s);
        Ok(())
    }

    /// Writes an assignment; one to an array or object target is wrapped
    /// whole.
    #[verifier::rlimit(100)]
    pub fn write_assignment_expr(&mut self, assignment: &AssignmentExpr) -> (r: Res)
        ensures
            final(self).rendered(
                *old(self),
                r,
                expr_wf(*assignment.right) && match assignment.left {
                    AssignmentLeft::Expr(x) => expr_wf(*x),
                    AssignmentLeft::Pat(p) => crate::wf::pat_wf(p),
                },
                assignment_text(old(self).layout(), *assignment),
            ),
        decreases assignment, 0nat,
    {
        let wrap_self = match &assignment.left {
            AssignmentLeft::Expr(e) => match &**e {
                Expr::Object(_) | Expr::Array(_) => true,
                _ => false,
            },
            AssignmentLeft::Pat(p) => match p {
                Pat::Array(_) => true,
                Pat::Object(_) => true,
                _ => false,
            },
        };
        if wrap_self {
            self.write("(");
        }
        match &assignment.left {
            AssignmentLeft::Expr(e) => self.write_expr(e)?,
            AssignmentLeft::Pat(p) => self.write_pattern(p)?,
        }
        self.write(" ");
        self.write_assignment_operator(&assignment.operator)?;
        self.write(" ");
        self.write_expr(&assignment.right)?;
        if wrap_self {
            self.write(")");
        }
        Ok(())
    }

    #[verifier::rlimit(100)]
    pub fn write_assignment_operator(&mut self, op: &AssignmentOperator) -> (r: Res)
        ensures
            r is Ok,
            final(self).appended(*old(self), assign_op_text(*op)),
    {
        let s = match op {
            AssignmentOperator::AndEqual => "&=",
            AssignmentOperator::DivEqual => "/=",
            AssignmentOperator::Equal => "=",
            AssignmentOperator::LeftShiftEqual => "<<=",
            AssignmentOperator::MinusEqual => "-=",
            AssignmentOperator::ModEqual => "%=",
            AssignmentOperator::OrEqual => "|=",
            AssignmentOperator::PlusEqual => "+=",
            AssignmentOperator::PowerOfEqual => "**=",
            AssignmentOperator::RightShiftEqual => ">>=",
            AssignmentOperator::TimesEqual => "*=",
            AssignmentOperator::UnsignedRightShiftEqual => ">>>=",
            AssignmentOperator::XOrEqual => "^=",
        };
        self.write(s);
        Ok(())
    }

    #[verifier::rlimit(100)]
    pub fn write_logical_expr(&mut self, logical: &LogicalExpr) -> (r: Res)
        ensures
            final(self).rendered(
                *old(self),
                r,
                expr_wf(*logical.left) && expr_wf(*logical.right),
                logical_text(old(self).layout(), *logical),
            ),
        decreases logical, 0nat,
    {
        let wrap_left = match &*logical.left {
            Expr::Logical(l) => match l.operator {
                LogicalOperator::Or => true,
                LogicalOperator::And => false,
            },
            Expr::Assignment(_) | Expr::Conditional(_) => true,
            _ => false,
        };
        if wrap_left {
            self.write_wrapped_expr(&logical.left)?;
        } else {
            self.write_expr(&logical.left)?;
        }
        self.write(" ");
        self.write_logical_operator(&logical.operator)?;
        let wrap_right = match &*logical.right {
            Expr::Logical(_) | Expr::Assignment(_) | Expr::Conditional(_) => true,
            _ => false,
        };
        self.write(" ");
        if wrap_right {
            self.write_wrapped_expr(&logical.right)?;
        } else {
            self.write_expr(&logical.right)?;
        }
        Ok(())
    }

    #[verifier::rlimit(100)]
    pub fn write_logical_operator(&mut self, op: &LogicalOperator) -> (r: Res)
        ensures
            r is Ok,
            final(self).appended(*old(self), logical_op_text(*op)),
    {
        let s = match op {
            LogicalOperator::And => "&&",
            LogicalOperator::Or => "||",
        };
        self.write(s);
        Ok(())
    }

    #[verifier::rlimit(100)]
    pub fn write_member_expr(&mut self, member: &MemberExpr) -> (r: Res)
        ensures
            final(self).rendered(
                *old(self),
                r,
                expr_wf(*member.object) && expr_wf(*member.property),
                member_text(old(self).layout(), *member),
            ),
        decreases member, 0nat,
    {
        match &*member.object {
            Expr::Assignment(_)
            | Expr::Literal(Literal::Number(_))
            | Expr::Conditional(_)
            | Expr::Logical(_)
            | Expr::Function(_)
            | Expr::ArrowFunction(_)
            | Expr::Object(_)
            | Expr::Binary(_)
            | Expr::Unary(_)
            | Expr::Update(_) => self.write_wrapped_expr(&member.object)?,
            _ => self.write_expr(&member.object)?,
        }
        if member.computed {
            self.write("[");
        } else {
            self.write(".");
        }
        self.write_expr(&member.property)?;
        if member.computed {
            self.write("]");
        }
        Ok(())
    }

    #[verifier::rlimit(100)]
    pub fn write_conditional_expr(&mut self, conditional: &ConditionalExpr) -> (r: Res)
        ensures
            final(self).rendered(
                *old(self),
                r,
                expr_wf(*conditional.test) && expr_wf(*conditional.consequent) && expr_wf(
                    *conditional.alternate,
                ),
                conditional_text(old(self).layout(), *conditional),
            ),
        decreases conditional, 0nat,
    {
        self.write_expr(&conditional.test)?;
        self.write(" ? ");
        match &*conditional.consequent {
            Expr::Logical(_) => self.write_wrapped_expr(&conditional.consequent)?,
            _ => self.write_expr(&conditional.consequent)?,
        }
        self.write(" : ");
        self.write_expr(&conditional.alternate)?;
        Ok(())
    }

    #[verifier::rlimit(100)]
    pub fn write_call_expr(&mut self, call: &CallExpr) -> (r: Res)
        ensures
            final(self).rendered(
                *old(self),
                r,
                expr_wf(Expr::Call(*call)),
                expr_text(old(self).layout(), Expr::Call(*call)),
            ),
        decreases call, 0nat,
    {
        match &*call.callee {
            Expr::Function(_) | Expr::ArrowFunction(_) => self.write_wrapped_expr(&call.callee)?,
            _ => self.write_expr(&call.callee)?,
        }
        self.write_sequence_expr(&call.arguments)?;
        Ok(())
    }

    #[verifier::rlimit(100)]
    pub fn write_new_expr(&mut self, new: &NewExpr) -> (r: Res)
        ensures
            final(self).rendered(
                *old(self),
                r,
                expr_wf(Expr::New(*new)),
                expr_text(old(self).layout(), Expr::New(*new)),
            ),
        decreases new, 0nat,
    {
        self.write("new ");
        match &*new.callee {
            Expr::Assignment(_) | Expr::Call(_) => self.write_wrapped_expr(&new.callee)?,
            _ => self.write_expr(&new.callee)?,
        }
        self.write_sequence_expr(&new.arguments)?;
        Ok(())
    }

    /// Writes the expressions between parentheses, separated by `, `.
    #[verifier::rlimit(100)]
    pub fn write_sequence_expr(&mut self, sequence: &Vec<Expr>) -> (r: Res)
        ensures
            final(self).rendered(
                *old(self),
                r,
                exprs_wf(sequence@),
                sequence_text(old(self).layout(), sequence@),
            ),
        decreases sequence, 1nat,
    {
        let ghost c = self.layout();
        self.write("(");
        let n = sequence.len();
        let mut i: usize = 0;
        while i < n
            invariant
                n == sequence@.len(),
                i <= n,
                c == old(self).layout(),
                self.appended(
                    *old(self),
                    "("@ + expr_list_text(c, sequence@.subrange(0, i as int)),
                ),
                forall|j: int| 0 <= j < i ==> expr_wf(#[trigger] sequence@[j]),
            decreases n - i,
        {
            if i > 0 {
                self.write(", ");
            }
            self.write_expr(&sequence[i])?;
            proof {
                assert(sequence@.subrange(0, i + 1).subrange(0, i as int) =~= sequence@.subrange(
                    0,
                    i as int,
                ));
            }
            i = i + 1;
        }
        self.write(")");
        proof {
            assert(sequence@.subrange(0, n as int) =~= sequence@);
        }
        Ok(())
    }

    #[verifier::rlimit(100)]
    pub fn write_spread_expr(&mut self, spread: &Expr) -> (r: Res)
        ensures
            final(self).rendered(
                *old(self),
                r,
                expr_wf(*spread),
                "..."@ + expr_text(old(self).layout(), *spread),
            ),
        decreases spread, 1nat,
    {
        self.write("...");
        self.write_expr(spread)?;
        Ok(())
    }

    /// Writes an arrow function; a single bare identifier parameter goes
    /// without parentheses.
    #[verifier::rlimit(100)]
    #[verifier::spinoff_prover]
    pub fn write_arrow_function_expr(&mut self, func: &ArrowFunctionExpr) -> (r: Res)
        ensures
            final(self).rendered(
                *old(self),
                r,
                expr_wf(Expr::ArrowFunction(*func)),
                arrow_text(old(self).layout(), *func),
            ),
        decreases func, 0nat,
    {
        if func.is_async {
            self.write("async ");
        }
        if func.params.len() == 1 {
            let bare = match &func.params[0] {
                FunctionArg::Expr(Expr::Ident(_)) => true,
                FunctionArg::Pat(Pat::Identifier(_)) => true,
                _ => false,
            };
            if bare {
                self.write_function_arg(&func.params[0])?;
                proof {
                    assert forall|k: int| 0 <= k < func.params@.len() implies crate::wf::arg_wf(
                        #[trigger] func.params@[k],
                    ) by {
                        assert(k == 0);
                    }
                    assert(crate::wf::args_wf(func.params@));
                }
            } else {
                self.write_function_args(&func.params)?;
            }
        } else {
            self.write_function_args(&func.params)?;
        }
        self.write(" => ");
        match &func.body {
            ArrowFunctionBody::FunctionBody(b) => self.write_function_body(b)?,
            ArrowFunctionBody::Expr(e) => match &**e {
                Expr::Object(_) | Expr::Binary(_) => self.write_wrapped_expr(e)?,
                _ => self.write_expr(e)?,
            },
        }
        Ok(())
    }

    #[verifier::rlimit(100)]
    pub fn write_yield_expr(&mut self, expr: &YieldExpr) -> (r: Res)
        ensures
            final(self).rendered(
                *old(self),
                r,
                expr_wf(Expr::Yield(*expr)),
                yield_text(old(self).layout(), *expr),
            ),
        decreases expr, 0nat,
    {
        self.write("yield");
        if expr.argument.is_some() {
            self.write(" ");
        }
        if expr.delegate {
            self.write("*");
        }
        if let Some(arg) = &expr.argument {
            self.write_expr(arg)?;
        }
        Ok(())
    }

    #[verifier::rlimit(100)]
    pub fn write_meta_property(&mut self, meta: &MetaProperty) -> (r: Res)
        ensures
            r is Ok,
            final(self).appended(*old(self), meta.meta@ + "."@ + meta.property@),
    {
        self.write_ident(meta.meta.as_str())?;
        self.write(".");
        self.write_ident(meta.property.as_str())?;
        Ok(())
    }

    #[verifier::rlimit(100)]
    pub fn write_await_expr(&mut self, expr: &Expr) -> (r: Res)
        ensures
            final(self).rendered(
                *old(self),
                r,
                expr_wf(*expr),
                "await "@ + expr_text(old(self).layout(), *expr),
            ),
        decreases expr, 1nat,
    {
        self.write("await ");
        self.write_expr(expr)?;
        Ok(())
    }

    #[verifier::rlimit(100)]
    pub fn write_ident(&mut self, ident: &str) -> (r: Res)
        ensures
            r is Ok,
            final(self).appended(*old(self), ident@),
    {
        self.write(ident);
        Ok(())
    }

    /// Writes the tag directly followed by the template.
    #[verifier::rlimit(100)]
    pub fn write_tagged_template(&mut self, template: &TaggedTemplateExpr) -> (r: Res)
        ensures
            final(self).rendered(
                *old(self),
                r,
                expr_wf(*template.tag) && template_wf(template.quasi),
                expr_text(old(self).layout(), *template.tag) + template_text(
                    old(self).layout(),
                    template.quasi,
                ),
            ),
        decreases template, 0nat,
    {
        self.write_expr(&template.tag)?;
        self.write_template(&template.quasi)?;
        Ok(())
    }

    #[verifier::rlimit(100)]
    pub fn write_literal(&mut self, lit: &Literal) -> (r: Res)
        ensures
            final(self).rendered(
                *old(self),
                r,
                literal_wf(*lit),
                literal_text(old(self).layout(), *lit),
            ),
        decreases lit, 0nat,
    {
        match lit {
            Literal::Boolean(b) => self.write_bool(*b),
            Literal::Null => {
                self.write("null");
                Ok(())
            },
            Literal::Number(n) => {
                self.write(n.as_str());
                Ok(())
            },
            Literal::String(s) => self.write_string(s.as_str()),
            Literal::RegEx(r) => self.write_regex(r),
            Literal::Template(t) => self.write_template(t),
        }
    }

    #[verifier::rlimit(100)]
    pub fn write_bool(&mut self, boolean: bool) -> (r: Res)
        ensures
            r is Ok,
            final(self).appended(*old(self), bool_text(boolean)),
    {
        if boolean {
            self.write("true");
        } else {
            self.write("false");
        }
        Ok(())
    }

    /// Writes the raw text of a string literal, re-quoted when a quote is
    /// forced.
    #[verifier::rlimit(100)]
    pub fn write_string(&mut self, s: &str) -> (r: Res)
        ensures
            r is Ok,
            final(self).appended(*old(self), string_text(old(self).layout().quote, s@)),
    {
        if let Some(c) = self.forced_quote() {
            self.re_write_string(s, c)
        } else {
            self.write(s);
            Ok(())
        }
    }

    /// Writes `s` re-quoted with `c`, or as it is where that cannot be done.
    #[verifier::rlimit(100)]
    fn re_write_string(&mut self, s: &str, c: char) -> (r: Res)
        requires
            old(self).layout().quote == Some(c),
        ensures
            r is Ok,
            final(self).appended(*old(self), string_text(old(self).layout().quote, s@)),
    {
        match requote(s, c) {
            Some(t) => self.write(t.as_str()),
            None => self.write(s),
        }
        Ok(())
    }

    #[verifier::rlimit(100)]
    pub fn write_regex(&mut self, regex: &RegEx) -> (r: Res)
        ensures
            r is Ok,
            final(self).appended(
                *old(self),
                "/"@ + regex.pattern@ + "/"@ + regex.flags@,
            ),
    {
        self.write("/");
        self.write(regex.pattern.as_str());
        self.write("/");
        self.write(regex.flags.as_str());
        Ok(())
    }

    /// Writes each raw chunk followed by the expression of the same index.
    #[verifier::rlimit(100)]
    pub fn write_template(&mut self, template: &TemplateLiteral) -> (r: Res)
        ensures
            final(self).rendered(
                *old(self),
                r,
                template_wf(*template),
                template_text(old(self).layout(), *template),
            ),
        decreases template, 0nat,
    {
        let ghost c = self.layout();
        let ghost qs = template.quasis@;
        let ghost es = template.expressions@;
        let qn = template.quasis.len();
        let en = template.expressions.len();
        proof {
            assert(qs.subrange(0, qn as int) =~= qs);
            assert(es.subrange(0, en as int) =~= es);
        }
        let mut i: usize = 0;
        while i < qn && i < en
            invariant
                qn == qs.len(),
                en == es.len(),
                qs == template.quasis@,
                es == template.expressions@,
                i <= qn,
                i <= en,
                c == old(self).layout(),
                self.layout() == c,
                self.written() + chunks_text(
                    c,
                    qs.subrange(i as int, qn as int),
                    es.subrange(i as int, en as int),
                ) == old(self).written() + chunks_text(c, qs, es),
                forall|j: int| 0 <= j < i ==> expr_wf(#[trigger] es[j]),
            decreases qn - i,
        {
            self.write(template.quasis[i].raw.as_str());
            self.write_expr(&template.expressions[i])?;
            proof {
                assert(qs.subrange(i as int, qn as int).subrange(1, qn - i) =~= qs.subrange(
                    i + 1,
                    qn as int,
                ));
                assert(es.subrange(i as int, en as int).subrange(1, en - i) =~= es.subrange(
                    i + 1,
                    en as int,
                ));
            }
            i = i + 1;
        }
        let mut j: usize = i;
        while j < qn
            invariant
                qn == qs.len(),
                qs == template.quasis@,
                i <= j <= qn,
                c == old(self).layout(),
                self.layout() == c,
                self.written() + raws_text(qs.subrange(j as int, qn as int)) == old(
                    self,
                ).written() + chunks_text(c, qs, es),
            decreases qn - j,
        {
            self.write(template.quasis[j].raw.as_str());
            proof {
                assert(qs.subrange(j as int, qn as int).subrange(1, qn - j) =~= qs.subrange(
                    j + 1,
                    qn as int,
                ));
            }
            j = j + 1;
        }
        proof {
            assert(qs.subrange(qn as int, qn as int) =~= Seq::<crate::ast::TemplateElement>::empty());
            assert(template_wf(*template));
        }
        Ok(())
    }
}

} // verus!
