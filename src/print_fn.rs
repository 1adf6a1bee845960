//! Printing of functions, classes, properties and patterns.
use vstd::prelude::*;
use crate::ast::{
    ArrayPatPart, AssignmentPat, Class, Expr, Function, FunctionArg, ObjectPatPart, Pat, ProgramPart, Property, PropertyKey, PropertyKind, PropertyValue,
};
use crate::render::{
    arg_list_text, arg_text, args_text, array_pat_elem_text, array_pat_text, class_text, function_body_text, function_text, members_text, method_text, obj_pat_part_text, obj_pat_parts_text, parts_text, pat_text, property_key_text, property_text, property_value_text,
};
use crate::seqs::group_cat;
use crate::wf::{
    arg_wf, args_wf, array_pat_elem_wf, class_wf, expr_wf, function_wf, obj_pat_part_wf, part_wf, parts_wf, pat_wf, property_key_wf, property_wf,
};
use crate::writer::{
    Res, WriteError, Writer,
};

verus! {

broadcast use group_cat;

impl Writer {
    /// Writes a function declaration or expression.
    #[verifier::rlimit(100)]
    pub fn write_function(&mut self, func: &Function) -> (r: Res)
        ensures
            final(self).rendered(
                *old(self),
                r,
                function_wf(*func),
                function_text(old(self).layout(), *func),
            ),
        decreases func, 0nat,
    {
        if func.is_async {
            self.write("async ");
        }
        self.write("function");
        if let Some(id) = &func.id {
            self.write(" ");
            if func.generator {
                self.write("*");
            }
            self.write(id.as_str());
        } else if func.generator {
            self.write("*");
        }
        self.write_function_args(&func.params)?;
        self.write(" ");
        self.write_function_body(&func.body)
    }

    /// Writes parameters between parentheses, separated by `, `.
    #[verifier::rlimit(100)]
    pub fn write_function_args(&mut self, args: &Vec<FunctionArg>) -> (r: Res)
        ensures
            final(self).rendered(
                *old(self),
                r,
                args_wf(args@),
                args_text(old(self).layout(), args@),
            ),
        decreases args, 1nat,
    {
        let ghost c = self.layout();
        self.write("(");
        let n = args.len();
        let mut i: usize = 0;
        while i < n
            invariant
                n == args@.len(),
                i <= n,
                c == old(self).layout(),
                self.appended(*old(self), "("@ + arg_list_text(c, args@.subrange(0, i as int))),
                forall|j: int| 0 <= j < i ==> arg_wf(#[trigger] args@[j]),
            decreases n - i,
        {
            if i > 0 {
                self.write(", ");
            }
            self.write_function_arg(&args[i])?;
            proof {
                assert(args@.subrange(0, i + 1).subrange(0, i as int) =~= args@.subrange(
                    0,
                    i as int,
                ));
            }
            i = i + 1;
        }
        self.write(")");
        proof {
            assert(args@.subrange(0, n as int) =~= args@);
        }
        Ok(())
    }

    #[verifier::rlimit(100)]
    pub fn write_function_arg(&mut self, arg: &FunctionArg) -> (r: Res)
        ensures
            final(self).rendered(
                *old(self),
                r,
                arg_wf(*arg),
                arg_text(old(self).layout(), *arg),
            ),
        decreases arg, 0nat,
    {
        match arg {
            FunctionArg::Expr(ex) => self.write_expr(ex),
            FunctionArg::Pat(pa) => self.write_pattern(pa),
        }
    }

    /// Writes a function body: `{ }` when empty, else its items one block
    /// deeper between braces.
    #[verifier::rlimit(100)]
    pub fn write_function_body(&mut self, body: &Vec<ProgramPart>) -> (r: Res)
        ensures
            final(self).rendered(
                *old(self),
                r,
                parts_wf(body@),
                function_body_text(old(self).layout(), body@),
            ),
        decreases body, 1nat,
    {
        let ghost c = self.layout();
        let n = body.len();
        if n == 0 {
            self.write("{ ");
            self.write("}");
            return Ok(());
        }
        let d = self.depth();
        self.write_open_brace()?;
        self.write_new_line()?;
        let mut i: usize = 0;
        while i < n
            invariant
                n == body@.len(),
                i <= n,
                c == old(self).layout(),
                d as nat == c.depth,
                self.layout() == c.deeper(),
                self.written() == old(self).written() + "{"@ + c.nl + parts_text(
                    c.deeper(),
                    body@.subrange(0, i as int),
                ),
                forall|j: int| 0 <= j < i ==> part_wf(#[trigger] body@[j]),
            decreases n - i,
        {
            self._write_part(&body[i])?;
            proof {
                assert(body@.subrange(0, i + 1).subrange(0, i as int) =~= body@.subrange(
                    0,
                    i as int,
                ));
            }
            i = i + 1;
        }
        self.close_at(d);
        proof {
            assert(body@.subrange(0, n as int) =~= body@);
        }
        Ok(())
    }

    /// Writes a class: name, parent and members, each member on a line of
    /// its own after an empty line.
    #[verifier::rlimit(100)]
    pub fn write_class(&mut self, class: &Class) -> (r: Res)
        ensures
            final(self).rendered(
                *old(self),
                r,
                class_wf(*class),
                class_text(old(self).layout(), *class),
            ),
        decreases class, 0nat,
    {
        let ghost c = self.layout();
        self.write("class ");
        if let Some(id) = &class.id {
            self.write_ident(id.as_str())?;
            self.write(" ");
        }
        if let Some(ex) = &class.super_class {
            self.write("extends ");
            self.write_expr(ex)?;
            self.write(" ");
        }
        let ghost head = self.written();
        let d = self.depth();
        self.write_open_brace()?;
        self.write_new_line()?;
        let n = class.body.len();
        let mut i: usize = 0;
        while i < n
            invariant
                n == class.body@.len(),
                i <= n,
                c == old(self).layout(),
                d as nat == c.depth,
                self.layout() == c.deeper(),
                self.written() == head + "{"@ + c.nl + members_text(
                    c.deeper(),
                    class.body@.subrange(0, i as int),
                ),
                forall|j: int| 0 <= j < i ==> property_wf(#[trigger] class.body@[j]),
            decreases n - i,
        {
            self.write_new_line()?;
            self.write_leading_whitespace()?;
            self.write_property(&class.body[i])?;
            self.write_new_line()?;
            proof {
                assert(class.body@.subrange(0, i + 1).subrange(0, i as int)
                    =~= class.body@.subrange(0, i as int));
            }
            i = i + 1;
        }
        self.close_at(d);
        proof {
            assert(class.body@.subrange(0, n as int) =~= class.body@);
        }
        Ok(())
    }

    /// Writes a property of an object literal, an object pattern or a class
    /// body.
    #[verifier::rlimit(100)]
    pub fn write_property(&mut self, prop: &Property) -> (r: Res)
        ensures
            final(self).rendered(
                *old(self),
                r,
                property_wf(*prop),
                property_text(old(self).layout(), *prop),
            ),
        decreases prop, 3nat,
    {
        match &prop.kind {
            PropertyKind::Init => self.write_init_property(prop),
            PropertyKind::Getter => self.write_get_property(prop),
            PropertyKind::Setter => self.write_set_property(prop),
            PropertyKind::Method => self.write_property_method(prop),
            PropertyKind::Ctor => self.write_ctor_property(prop),
        }
    }

    /// Writes a property as a plain one (`key: value`); one whose value is a
    /// function expression is written as a method.
    #[verifier::rlimit(100)]
    pub fn write_init_property(&mut self, prop: &Property) -> (r: Res)
        ensures
            final(self).rendered(
                *old(self),
                r,
                property_wf(Property { kind: PropertyKind::Init, ..*prop }),
                property_text(old(self).layout(), Property { kind: PropertyKind::Init, ..*prop }),
            ),
        decreases prop, 2nat,
    {
        if let PropertyValue::Expr(Expr::Function(_)) = &prop.value {
            return self.write_property_method(prop);
        }
        self.write_property_key(&prop.key, prop.computed)?;
        if !prop.short_hand {
            self.write(": ");
            self.write_property_value(&prop.value)?;
        } else {
            match &prop.value {
                PropertyValue::Missing => {},
                PropertyValue::Expr(_) | PropertyValue::Pat(_) => {
                    self.write(" = ");
                    self.write_property_value(&prop.value)?;
                },
            }
        }
        Ok(())
    }

    /// Writes a property as a getter.
    #[verifier::rlimit(100)]
    pub fn write_get_property(&mut self, prop: &Property) -> (r: Res)
        ensures
            final(self).rendered(
                *old(self),
                r,
                property_wf(Property { kind: PropertyKind::Getter, ..*prop }),
                property_text(old(self).layout(), Property { kind: PropertyKind::Getter, ..*prop }),
            ),
        decreases prop, 2nat,
    {
        self.write("get ");
        self.write_property_method(prop)
    }

    /// Writes a property as a setter.
    #[verifier::rlimit(100)]
    pub fn write_set_property(&mut self, prop: &Property) -> (r: Res)
        ensures
            final(self).rendered(
                *old(self),
                r,
                property_wf(Property { kind: PropertyKind::Setter, ..*prop }),
                property_text(old(self).layout(), Property { kind: PropertyKind::Setter, ..*prop }),
            ),
        decreases prop, 2nat,
    {
        self.write("set ");
        self.write_property_method(prop)
    }

    /// Writes a property as a method; its value must be a function
    /// expression, else the tree is malformed.
    #[verifier::rlimit(100)]
    pub fn write_property_method(&mut self, prop: &Property) -> (r: Res)
        ensures
            final(self).rendered(
                *old(self),
                r,
                property_wf(Property { kind: PropertyKind::Method, ..*prop }),
                method_text(old(self).layout(), *prop),
            ),
        decreases prop, 1nat,
    {
        if let PropertyValue::Expr(Expr::Function(func)) = &prop.value {
            if func.is_async {
                self.write("async ");
            }
            if func.generator {
                self.write("*");
            }
            self.write_property_key(&prop.key, prop.computed)?;
            self.write_function_args(&func.params)?;
            self.write_function_body(&func.body)?;
            Ok(())
        } else {
            Err(WriteError::MalformedTree)
        }
    }

    /// Writes a property as a class constructor; its value must be a
    /// function expression, else the tree is malformed.
    #[verifier::rlimit(100)]
    pub fn write_ctor_property(&mut self, prop: &Property) -> (r: Res)
        ensures
            final(self).rendered(
                *old(self),
                r,
                property_wf(Property { kind: PropertyKind::Ctor, ..*prop }),
                property_text(old(self).layout(), Property { kind: PropertyKind::Ctor, ..*prop }),
            ),
        decreases prop, 1nat,
    {
        self.write("constructor");
        if let PropertyValue::Expr(Expr::Function(func)) = &prop.value {
            self.write_function_args(&func.params)?;
            self.write_function_body(&func.body)?;
            Ok(())
        } else {
            Err(WriteError::MalformedTree)
        }
    }

    /// Writes a property key, between brackets when it is computed.
    #[verifier::rlimit(100)]
    pub fn write_property_key(&mut self, key: &PropertyKey, computed: bool) -> (r: Res)
        ensures
            final(self).rendered(
                *old(self),
                r,
                property_key_wf(*key),
                property_key_text(old(self).layout(), *key, computed),
            ),
        decreases key, 0nat,
    {
        if computed {
            self.write("[");
        }
        match key {
            PropertyKey::Expr(e) => self.write_expr(e)?,
            PropertyKey::Literal(l) => self.write_literal(l)?,
            PropertyKey::Pat(p) => self.write_pattern(p)?,
        }
        if computed {
            self.write("]");
        }
        Ok(())
    }

    #[verifier::rlimit(100)]
    pub fn write_property_value(&mut self, value: &PropertyValue) -> (r: Res)
        ensures
            final(self).rendered(
                *old(self),
                r,
                match *value {
                    PropertyValue::Expr(e) => expr_wf(e),
                    PropertyValue::Pat(p) => pat_wf(p),
                    PropertyValue::Missing => true,
                },
                property_value_text(old(self).layout(), *value),
            ),
        decreases value, 0nat,
    {
        match value {
            PropertyValue::Expr(e) => self.write_expr(e)?,
            PropertyValue::Pat(p) => self.write_pattern(p)?,
            PropertyValue::Missing => {},
        }
        Ok(())
    }

    #[verifier::rlimit(100)]
    pub fn write_pattern(&mut self, pattern: &Pat) -> (r: Res)
        ensures
            final(self).rendered(
                *old(self),
                r,
                pat_wf(*pattern),
                pat_text(old(self).layout(), *pattern),
            ),
        decreases pattern, 0nat,
    {
        match pattern {
            Pat::Identifier(i) => {
                self.write(i.as_str());
                Ok(())
            },
            Pat::Object(o) => self.write_object_pattern(o),
            Pat::Array(a) => self.write_array_pattern(a),
            Pat::RestElement(r) => self.write_rest_element(r),
            Pat::Assignment(a) => self.write_assignment_pattern(a),
        }
    }

    /// Writes an object pattern: `{}` when empty, else its parts separated by
    /// `, ` between braces, the parts one block deeper.
    #[verifier::rlimit(100)]
    #[verifier::spinoff_prover]
    pub fn write_object_pattern(&mut self, obj: &Vec<ObjectPatPart>) -> (r: Res)
        ensures
            final(self).rendered(
                *old(self),
                r,
                forall|i: int| 0 <= i < obj@.len() ==> obj_pat_part_wf(#[trigger] obj@[i]),
                pat_text(old(self).layout(), Pat::Object(*obj)),
            ),
        decreases obj, 0nat,
    {
        let ghost c = self.layout();
        let n = obj.len();
        if n == 0 {
            self.write("{}");
            return Ok(());
        }
        let d = self.depth();
        self.write_open_brace()?;
        let mut i: usize = 0;
        while i < n
            invariant
                n == obj@.len(),
                i <= n,
                c == old(self).layout(),
                d as nat == c.depth,
                self.layout() == c.deeper(),
                self.written() == old(self).written() + "{"@ + obj_pat_parts_text(
                    c.deeper(),
                    obj@.subrange(0, i as int),
                ),
                forall|j: int| 0 <= j < i ==> obj_pat_part_wf(#[trigger] obj@[j]),
            decreases n - i,
        {
            if i > 0 {
                self.write(", ");
            }
            proof {
                assert(obj_pat_part_wf(obj@[i as int]) == match obj@[i as int] {
                    ObjectPatPart::Assignment(x) => property_wf(x),
                    ObjectPatPart::Rest(x) => pat_wf(*x),
                });
                assert(obj_pat_part_text(c.deeper(), obj@[i as int]) == match obj@[i as int] {
                    ObjectPatPart::Assignment(x) => property_text(c.deeper(), x),
                    ObjectPatPart::Rest(x) => "..."@ + pat_text(c.deeper(), *x),
                });
            }
            match &obj[i] {
                ObjectPatPart::Assignment(prop) => self.write_property(prop)?,
                ObjectPatPart::Rest(pat) => self.write_rest_pattern_part(pat)?,
            }
            proof {
                assert(obj@.subrange(0, i + 1).subrange(0, i as int) =~= obj@.subrange(
                    0,
                    i as int,
                ));
            }
            i = i + 1;
        }
        self.close_at(d);
        proof {
            assert(obj@.subrange(0, n as int) =~= obj@);
        }
        Ok(())
    }

    /// Writes the rest part of an object pattern, `...` and its target.
    #[verifier::rlimit(100)]
    pub fn write_rest_pattern_part(&mut self, pat: &Pat) -> (r: Res)
        ensures
            final(self).rendered(
                *old(self),
                r,
                pat_wf(*pat),
                "..."@ + pat_text(old(self).layout(), *pat),
            ),
        decreases pat, 2nat,
    {
        self.write_rest_element(pat)
    }

    /// Writes an array pattern: `[]` when empty, else its elements separated
    /// by `, `, a hole left empty.
    #[verifier::rlimit(100)]
    #[verifier::spinoff_prover]
    pub fn write_array_pattern(&mut self, arr: &Vec<Option<ArrayPatPart>>) -> (r: Res)
        ensures
            final(self).rendered(
                *old(self),
                r,
                forall|i: int| 0 <= i < arr@.len() ==> array_pat_elem_wf(#[trigger] arr@[i]),
                pat_text(old(self).layout(), Pat::Array(*arr)),
            ),
        decreases arr, 0nat,
    {
        let ghost c = self.layout();
        let n = arr.len();
        if n == 0 {
            self.write("[]");
            return Ok(());
        }
        self.write("[");
        let last_idx = n - 1;
        let mut i: usize = 0;
        while i < n
            invariant
                n == arr@.len(),
                last_idx == n - 1,
                i <= n,
                c == old(self).layout(),
                self.appended(
                    *old(self),
                    "["@ + array_pat_text(c, arr@.subrange(0, i as int)) + if 0 < i <= last_idx {
                        ", "@
                    } else {
                        Seq::empty()
                    },
                ),
                forall|j: int| 0 <= j < i ==> array_pat_elem_wf(#[trigger] arr@[j]),
            decreases n - i,
        {
            if let Some(part) = &arr[i] {
                match part {
                    ArrayPatPart::Expr(e) => {
                        self.write_expr(e)?;
                        proof {
                            assert(array_pat_elem_text(c, arr@[i as int]) == crate::render::expr_text(
                                c,
                                *e,
                            ));
                        }
                    },
                    ArrayPatPart::Pat(p) => {
                        self.write_pattern(p)?;
                        proof {
                            assert(array_pat_elem_text(c, arr@[i as int]) == pat_text(c, *p));
                        }
                    },
                }
            } else {
                proof {
                    assert(array_pat_elem_text(c, arr@[i as int]) == Seq::<char>::empty());
                }
            }
            proof {
                assert(arr@.subrange(0, i + 1).subrange(0, i as int) =~= arr@.subrange(
                    0,
                    i as int,
                ));
                assert(array_pat_elem_wf(arr@[i as int]));
            }
            if i < last_idx {
                self.write(", ");
            }
            i = i + 1;
        }
        self.write("]");
        proof {
            assert(arr@.subrange(0, n as int) =~= arr@);
        }
        Ok(())
    }

    /// Writes `...` and the pattern.
    #[verifier::rlimit(100)]
    pub fn write_rest_element(&mut self, pat: &Pat) -> (r: Res)
        ensures
            final(self).rendered(
                *old(self),
                r,
                pat_wf(*pat),
                "..."@ + pat_text(old(self).layout(), *pat),
            ),
        decreases pat, 1nat,
    {
        self.write("...");
        self.write_pattern(pat)?;
        Ok(())
    }

    /// Writes `left = right`.
    #[verifier::rlimit(100)]
    pub fn write_assignment_pattern(&mut self, assignment: &AssignmentPat) -> (r: Res)
        ensures
            final(self).rendered(
                *old(self),
                r,
                pat_wf(*assignment.left) && expr_wf(*assignment.right),
                pat_text(old(self).layout(), *assignment.left) + " = "@ + crate::render::expr_text(
                    old(self).layout(),
                    *assignment.right,
                ),
            ),
        decreases assignment, 0nat,
    {
        self.write_pattern(&assignment.left)?;
        self.write(" = ");
        self.write_expr(&assignment.right)?;
        Ok(())
    }
}

} // verus!
