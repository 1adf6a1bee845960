//! Properties of the rendered text that hold for every tree.
use vstd::prelude::*;
use crate::ast::{
    BinaryExpr, BinaryOperator, CallExpr, ConditionalExpr, Expr, LogicalExpr, LogicalOperator,
    MemberExpr, NewExpr, ProgramPart, Stmt, UnaryExpr, UnaryOperator,
};
use crate::render::{
    binary_op_text, block_text, expr_text, lines_text, logical_op_text, parens_if, part_text,
    repeat, sequence_text, stmt_text, unary_op_text, wrap, Layout,
};

verus! {

/// Parentheses go around an expression exactly where its kind could be read
/// differently in its position: as a binary operand, as the object of a
/// member access, as the callee of a call or of `new`, as a conditional's
/// consequent, as the argument of a prefix unary operator (where a nested
/// unary or update is set off by a space instead), as either operand of a
/// logical operator, and at the head of an expression statement.
pub proof fn lemma_parenthesization(
    c: Layout,
    e: Expr,
    other: Expr,
    args: Vec<Expr>,
    bop: BinaryOperator,
    lop: LogicalOperator,
    uop: UnaryOperator,
)
    ensures
        expr_text(
            c,
            Expr::Binary(BinaryExpr { operator: bop, left: Box::new(e), right: Box::new(other) }),
        ) == parens_if(
            c.for_init && bop is In,
            parens_if(
                e is Assignment || e is Conditional || e is Logical || e is Function
                    || e is ArrowFunction || e is Binary,
                expr_text(c, e),
            ) + " "@ + binary_op_text(bop) + " "@ + parens_if(
                other is Assignment || other is Conditional || other is Logical
                    || other is Function || other is ArrowFunction || other is Binary,
                expr_text(c, other),
            ),
        ),
        expr_text(
            c,
            Expr::Member(MemberExpr { object: Box::new(e), property: Box::new(other), computed: false }),
        ) == parens_if(
            (e matches Expr::Literal(l) && l is Number) || e is Assignment || e is Conditional
                || e is Logical || e is Function || e is ArrowFunction || e is Object || e is Binary
                || e is Unary || e is Update,
            expr_text(c, e),
        ) + "."@ + expr_text(c, other),
        expr_text(c, Expr::Call(CallExpr { callee: Box::new(e), arguments: args })) == parens_if(
            e is Function || e is ArrowFunction,
            expr_text(c, e),
        ) + sequence_text(c, args@),
        expr_text(c, Expr::New(NewExpr { callee: Box::new(e), arguments: args })) == "new "@
            + parens_if(e is Assignment || e is Call, expr_text(c, e)) + sequence_text(c, args@),
        expr_text(
            c,
            Expr::Conditional(
                ConditionalExpr {
                    test: Box::new(other),
                    consequent: Box::new(e),
                    alternate: Box::new(other),
                },
            ),
        ) == expr_text(c, other) + " ? "@ + parens_if(e is Logical, expr_text(c, e)) + " : "@
            + expr_text(c, other),
        expr_text(
            c,
            Expr::Unary(UnaryExpr { operator: uop, prefix: true, argument: Box::new(e) }),
        ) == unary_op_text(uop) + if e is Assignment || e is Binary || e is Logical
            || e is Conditional || e is ArrowFunction || e is Function {
            wrap(expr_text(c, e))
        } else if e is Unary || e is Update {
            " "@ + expr_text(c, e)
        } else {
            expr_text(c, e)
        },
        expr_text(
            c,
            Expr::Logical(LogicalExpr { operator: lop, left: Box::new(e), right: Box::new(other) }),
        ) == parens_if(
            (e matches Expr::Logical(l) && l.operator is Or) || e is Assignment || e is Conditional,
            expr_text(c, e),
        ) + " "@ + logical_op_text(lop) + " "@ + parens_if(
            other is Logical || other is Assignment || other is Conditional,
            expr_text(c, other),
        ),
        stmt_text(c, Stmt::Expr(e)) == parens_if(
            e is Literal || e is Object || e is Function || e is Binary,
            expr_text(c, e),
        ) + ";"@ + c.nl,
{
    let b = BinaryExpr { operator: bop, left: Box::new(e), right: Box::new(other) };
    assert(expr_text(c, Expr::Binary(b)) == crate::render::binary_text(c, b));
    assert(crate::render::binary_side_text(c, e) == parens_if(
        crate::render::wraps_as_binary_operand(e),
        expr_text(c, e),
    ));
    assert(crate::render::binary_side_text(c, other) == parens_if(
        crate::render::wraps_as_binary_operand(other),
        expr_text(c, other),
    ));
    let m = MemberExpr { object: Box::new(e), property: Box::new(other), computed: false };
    assert(expr_text(c, Expr::Member(m)) == crate::render::member_text(c, m));
    assert(crate::render::wraps_as_member_object(e) == ((e matches Expr::Literal(l) && l is Number)
        || e is Assignment || e is Conditional || e is Logical || e is Function
        || e is ArrowFunction || e is Object || e is Binary || e is Unary || e is Update));
    let k = ConditionalExpr { test: Box::new(other), consequent: Box::new(e), alternate: Box::new(other) };
    assert(expr_text(c, Expr::Conditional(k)) == crate::render::conditional_text(c, k));
    let u = UnaryExpr { operator: uop, prefix: true, argument: Box::new(e) };
    assert(expr_text(c, Expr::Unary(u)) == crate::render::unary_text(c, u));
    let g = LogicalExpr { operator: lop, left: Box::new(e), right: Box::new(other) };
    assert(expr_text(c, Expr::Logical(g)) == crate::render::logical_text(c, g));
    assert(crate::render::wraps_as_logical_left(e) == ((e matches Expr::Logical(l) && l.operator is Or)
        || e is Assignment || e is Conditional));
    assert(Seq::<char>::empty() + expr_text(c, e) =~= expr_text(c, e));
    assert(unary_op_text(uop) + (if e is Assignment || e is Binary || e is Logical
        || e is Conditional || e is ArrowFunction || e is Function {
        wrap(expr_text(c, e))
    } else if e is Unary || e is Update {
        " "@ + expr_text(c, e)
    } else {
        expr_text(c, e)
    }) + Seq::<char>::empty() =~= unary_op_text(uop) + if e is Assignment || e is Binary
        || e is Logical || e is Conditional || e is ArrowFunction || e is Function {
        wrap(expr_text(c, e))
    } else if e is Unary || e is Update {
        " "@ + expr_text(c, e)
    } else {
        expr_text(c, e)
    });
}

/// Inside a non-empty block at depth `k` (below the largest depth), every
/// item is written, in order, right after a line break and the margin of
/// depth `k + 1`, and the closing brace follows the margin of depth `k`.
pub proof fn lemma_block_items(c: Layout, s: Seq<ProgramPart>, i: int)
    requires
        s.len() > 0,
        c.depth < usize::MAX,
        0 <= i < s.len(),
    ensures
        block_text(c, s) == "{"@ + lines_text(c.deeper(), s) + repeat(c.unit, c.depth) + "}"@,
        c.deeper().depth == c.depth + 1,
        lines_text(c.deeper(), s.subrange(0, i + 1)) == lines_text(c.deeper(), s.subrange(0, i))
            + c.nl + part_text(c.deeper(), s[i]),
        repeat(c.unit, c.depth + 1).len() <= part_text(c.deeper(), s[i]).len(),
        part_text(c.deeper(), s[i]).subrange(0, repeat(c.unit, c.depth + 1).len() as int) == repeat(
            c.unit,
            c.depth + 1,
        ),
{
    let d = c.deeper();
    let sub = s.subrange(0, i + 1);
    assert(sub.subrange(0, i) =~= s.subrange(0, i));
    assert(sub[i] == s[i]);
    let m = repeat(c.unit, c.depth + 1);
    assert(d.margin() == m);
    let p = part_text(d, s[i]);
    assert(p.subrange(0, m.len() as int) =~= m);
}

} // verus!
