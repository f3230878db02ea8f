//! The grammar of expressions, and that formatted expressions read back by it as
//! what they were written from.

use vstd::prelude::*;
use crate::ast::{BinaryOp, ExprKindView, ExprView, UnaryOp};

verus! {

broadcast use {
    crate::text::group_text_views,
    crate::ast::group_ast_views,
    crate::diagnostic::group_diagnostic_views,
    crate::ir::group_ir_views,
    crate::state::group_state_views,
};

/// How a binary operator is spelled.
pub open spec fn operator_token(op: BinaryOp) -> Seq<char> {
    match op {
        BinaryOp::Add => "+"@,
        BinaryOp::Sub => "-"@,
        BinaryOp::Mul => "*"@,
        BinaryOp::Div => "/"@,
        BinaryOp::Rem => "%"@,
        BinaryOp::Shl => "<<"@,
        BinaryOp::Shr => ">>"@,
        BinaryOp::BitAnd => "&"@,
        BinaryOp::BitOr => "|"@,
        BinaryOp::BitXor => "^"@,
        BinaryOp::Lt => "<"@,
        BinaryOp::Le => "<="@,
        BinaryOp::Gt => ">"@,
        BinaryOp::Ge => ">="@,
        BinaryOp::Eq => "=="@,
        BinaryOp::Ne => "!="@,
        BinaryOp::And => "&&"@,
        BinaryOp::Or => "||"@,
    }
}

/// How a prefix operator is spelled.
pub open spec fn prefix_token(op: UnaryOp) -> Seq<char> {
    match op {
        UnaryOp::Neg => "-"@,
        UnaryOp::Not => "!"@,
    }
}

/// A text made of another one with something on both sides.
pub open spec fn encloses(s: Seq<char>, before: Seq<char>, t: Seq<char>, after: Seq<char>) -> bool {
    s == before + t + after
}

/// A text made of two, with something between them and behind them.
pub open spec fn joins_both(
    s: Seq<char>,
    a: Seq<char>,
    between: Seq<char>,
    b: Seq<char>,
    after: Seq<char>,
) -> bool {
    s == a + between + b + after
}

/// A text that chooses between two others.
pub open spec fn chooses(s: Seq<char>, c: Seq<char>, a: Seq<char>, b: Seq<char>) -> bool {
    s == "if "@ + c + " { "@ + a + " } else { "@ + b + " }"@
}

/// A numeral of an integer.
pub open spec fn is_numeral(s: Seq<char>, v: int) -> bool {
    if v < 0 {
        exists|t: Seq<char>| #[trigger] encloses(
            s,
            "-"@,
            t,
            ""@,
        ) && crate::text::numeral_value(t) == -v
    } else {
        crate::text::numeral_value(s) == v
    }
}

/// How tightly the operators bind: each has a strength below `top`.
pub open spec fn are_strengths(strength: spec_fn(BinaryOp) -> int, top: int) -> bool {
    forall|op: BinaryOp| 0 <= #[trigger] strength(op) < top
}

/// Whether a text reads as an expression where only operators of at least some
/// strength are taken in: as it is, or in parentheses.
pub open spec fn reads_as(
    s: Seq<char>,
    e: ExprView,
    least: int,
    strength: spec_fn(BinaryOp) -> int,
    top: int,
) -> bool
    decreases e, 1int,
{
    reads_bare(s, e, least, strength, top) || exists|t: Seq<char>|
        #[trigger] encloses(s, "("@, t, ")"@) && reads_bare(t, e, 0, strength, top)
}

/// Whether a text reads as an expression without parentheses around it. The
/// left operand of an operator binds at least as tightly as the operator, the
/// right one more tightly; what a prefix or a postfix applies to binds more
/// tightly than every operator.
pub open spec fn reads_bare(
    s: Seq<char>,
    e: ExprView,
    least: int,
    strength: spec_fn(BinaryOp) -> int,
    top: int,
) -> bool
    decreases e, 0int,
{
    match e.kind {
        ExprKindView::Int(v) => is_numeral(s, v as int),
        ExprKindView::Float(v) => s == v.exact,
        ExprKindView::Bool(v) => s == (if v { "true"@ } else { "false"@ }),
        ExprKindView::Str(v) => exists|t: Seq<char>|
            #[trigger] encloses(s, "\""@, t, "\""@) && crate::format::unescaped(t) == v && crate::format::no_open_quote(t),
        ExprKindView::Var(name) => s == name,
        ExprKindView::Unary { op, expr } => exists|t: Seq<char>|
            #[trigger] encloses(s, prefix_token(op), t, ""@) && reads_as(t, *expr, top, strength, top),
        ExprKindView::Binary {
            op,
            left,
            right,
        } => strength(op) >= least && exists|a: Seq<char>, b: Seq<char>|
            #[trigger] joins_both(s, a, " "@ + operator_token(op) + " "@, b, ""@) && reads_as(
                a,
                *left,
                strength(op),
                strength,
                top,
            ) && reads_as(b, *right, strength(op) + 1, strength, top),
        ExprKindView::Cast { expr, ty } => exists|t: Seq<char>|
            #[trigger] encloses(s, "("@, t, " as "@ + crate::ast::type_text_spec(ty) + ")"@) && reads_as(t, *expr, top, strength, top),
        ExprKindView::Call { name, args, .. } => exists|t: Seq<char>|
            #[trigger] encloses(s, name + "("@, t, ")"@) && reads_as_list(t, args, 0, strength, top),
        ExprKindView::MethodCall {
            receiver,
            method,
            args,
            ..
        } => exists|a: Seq<char>, b: Seq<char>|
            #[trigger] joins_both(s, a, "."@ + method + "("@, b, ")"@) && reads_as(a, *receiver, top, strength, top)
                && reads_as_list(b, args, 0, strength, top),
        ExprKindView::Index { array, index } => exists|a: Seq<char>, b: Seq<char>|
            #[trigger] joins_both(s, a, "["@, b, "]"@) && reads_as(a, *array, top, strength, top) && reads_as(
                b,
                *index,
                0,
                strength,
                top,
            ),
        ExprKindView::Len { array } => exists|t: Seq<char>|
            #[trigger] encloses(s, "len("@, t, ")"@) && reads_as(t, *array, 0, strength, top),
        ExprKindView::ArrayLit { elements } => exists|t: Seq<char>|
            #[trigger] encloses(s, "["@, t, "]"@) && reads_as_list(t, elements, 0, strength, top),
        ExprKindView::Ref { inner } => exists|t: Seq<char>|
            #[trigger] encloses(s, "ref "@, t, ""@) && reads_as(t, *inner, top, strength, top),
        ExprKindView::RefMut { inner } => exists|t: Seq<char>|
            #[trigger] encloses(s, "mut ref "@, t, ""@) && reads_as(t, *inner, top, strength, top),
        ExprKindView::Tuple(elements) => exists|t: Seq<char>|
            #[trigger] encloses(s, "("@, t, ")"@) && reads_as_list(t, elements, 0, strength, top),
        ExprKindView::TupleAccess { tuple, index } => exists|a: Seq<char>, b: Seq<char>|
            #[trigger] joins_both(s, a, "."@, b, ""@) && reads_as(a, *tuple, top, strength, top) && is_numeral(
                b,
                index as int,
            ),
        ExprKindView::FieldAccess { object, field } => exists|t: Seq<char>|
            #[trigger] encloses(s, ""@, t, "."@ + field) && reads_as(t, *object, top, strength, top),
        ExprKindView::IfExpr {
            cond,
            then_value,
            else_value,
        } => exists|c: Seq<char>, a: Seq<char>, b: Seq<char>|
            #[trigger] chooses(s, c, a, b) && reads_as(c, *cond, 0, strength, top) && reads_as(
                a,
                *then_value,
                0,
                strength,
                top,
            ) && reads_as(b, *else_value, 0, strength, top),
        ExprKindView::Try { inner } => exists|t: Seq<char>|
            #[trigger] encloses(s, "try "@, t, ""@) && reads_as(t, *inner, top, strength, top),
        _ => false,
    }
}

/// Whether a text reads as expressions from one on, with commas between them.
pub open spec fn reads_as_list(
    s: Seq<char>,
    es: Seq<ExprView>,
    i: int,
    strength: spec_fn(BinaryOp) -> int,
    top: int,
) -> bool
    decreases es, es.len() - i,
{
    if i < 0 || i >= es.len() {
        s.len() == 0
    } else if i == es.len() - 1 {
        reads_as(s, es[i], 0, strength, top)
    } else {
        exists|a: Seq<char>, b: Seq<char>|
            #[trigger] joins_both(s, a, ", "@, b, ""@) && reads_as(a, es[i], 0, strength, top) && reads_as_list(
                b,
                es,
                i + 1,
                strength,
                top,
            )
    }
}

proof fn nothing_is_empty()
    ensures
        ""@ == Seq::<char>::empty(),
{
    reveal_strlit("");
    assert(""@ =~= Seq::<char>::empty());
}

proof fn numeral_is_read(v: i128)
    ensures
        is_numeral(crate::text::decimal(v as int), v as int),
{
    nothing_is_empty();
    if v < 0 {
        let t = crate::text::nat_text_spec(-(v as int));
        crate::text::written_number_reads_back(-(v as int));
        assert(crate::text::decimal(v as int) =~= "-"@ + t + ""@);
        assert(encloses(crate::text::decimal(v as int), "-"@, t, ""@));
    } else {
        crate::text::written_number_reads_back(v as int);
    }
}

/// The texts of expressions from one on, with commas between them.
spec fn listed(es: Seq<ExprView>, i: int) -> Seq<char>
    decreases es.len() - i,
{
    if i < 0 || i >= es.len() {
        Seq::empty()
    } else if i == es.len() - 1 {
        crate::format::format_expr_spec(es[i], false)
    } else {
        crate::format::format_expr_spec(es[i], false) + ", "@ + listed(es, i + 1)
    }
}

proof fn list_is_listed(es: Seq<ExprView>, out: Seq<char>, i: int)
    requires
        0 <= i <= es.len(),
    ensures
        crate::format::format_exprs_spec(es, out, i) == if i < es.len() {
            out + (if i > 0 { ", "@ } else { Seq::empty() }) + listed(es, i)
        } else {
            out
        },
    decreases es.len() - i,
{
    if i < es.len() {
        let next = (if i > 0 { out + ", "@ } else { out }) + crate::format::format_expr_spec(
            es[i],
            false,
        );
        list_is_listed(es, next, i + 1);
        reveal_with_fuel(crate::format::format_exprs_spec, 2);
        assert(
            crate::format::format_exprs_spec(es, out, i) == crate::format::format_exprs_spec(
                es,
                next,
                i + 1,
            )
        );
        assert(
            crate::format::format_exprs_spec(
                es,
                out,
                i,
            ) =~= out + (if i > 0 { ", "@ } else { Seq::empty() }) + listed(es, i)
        );
    }
}

proof fn list_reads_back(es: Seq<ExprView>, i: int, strength: spec_fn(BinaryOp) -> int, top: int)
    requires
        0 <= i <= es.len(),
        forall|j: int| 0 <= j < es.len() ==> crate::meaning::is_open(#[trigger] es[j]),
        are_strengths(strength, top),
    ensures
        reads_as_list(listed(es, i), es, i, strength, top),
    decreases es, es.len() - i,
{
    nothing_is_empty();
    if i < es.len() {
        assert(crate::meaning::is_open(es[i]));
        formatted_reads_back(es[i], strength, top);
        if i < es.len() - 1 {
            list_reads_back(es, i + 1, strength, top);
            let a = crate::format::format_expr_spec(es[i], false);
            let b = listed(es, i + 1);
            assert(listed(es, i) =~= a + ", "@ + b + ""@);
            assert(joins_both(listed(es, i), a, ", "@, b, ""@));
        }
    }
}

proof fn arguments_read_back(es: Seq<ExprView>, strength: spec_fn(BinaryOp) -> int, top: int)
    requires
        forall|j: int| 0 <= j < es.len() ==> crate::meaning::is_open(#[trigger] es[j]),
        are_strengths(strength, top),
    ensures
        reads_as_list(crate::format::format_exprs_spec(es, ""@, 0), es, 0, strength, top),
    decreases es, es.len() + 1,
{
    nothing_is_empty();
    list_is_listed(es, ""@, 0);
    list_reads_back(es, 0, strength, top);
    if es.len() > 0 {
        assert(crate::format::format_exprs_spec(es, ""@, 0) =~= listed(es, 0));
    }
}

/// The text of an expression reads back as that expression, whatever strengths
/// the operators have; and the text of an operand reads back as the operand,
/// next to any operator and on either side of it.
pub proof fn formatted_reads_back(e: ExprView, strength: spec_fn(BinaryOp) -> int, top: int)
    requires
        crate::meaning::is_open(e),
        are_strengths(strength, top),
    ensures
        reads_as(crate::format::format_expr_spec(e, false), e, 0, strength, top),
        forall|least: int| least <= top ==> #[trigger] reads_as(
            crate::format::format_expr_spec(e, true),
            e,
            least,
            strength,
            top,
        ),
    decreases e, 1int,
{
    bare_reads_back(e, strength, top);
    let s = crate::format::format_expr_spec(e, true);
    if let ExprKindView::Binary { op, .. } = e.kind {
        let t = crate::format::format_expr_spec(e, false);
        assert(s =~= "("@ + t + ")"@);
        assert(encloses(s, "("@, t, ")"@));
    } else {
        assert(s == crate::format::format_expr_spec(e, false));
        assert forall|least: int| least <= top implies #[trigger] reads_as(
            s,
            e,
            least,
            strength,
            top,
        ) by {
            bare_does_not_depend(s, e, 0, least, strength, top);
        }
    }
}

proof fn bare_does_not_depend(
    s: Seq<char>,
    e: ExprView,
    a: int,
    b: int,
    strength: spec_fn(BinaryOp) -> int,
    top: int,
)
    requires
        !(e.kind is Binary),
        reads_bare(s, e, a, strength, top),
    ensures
        reads_bare(s, e, b, strength, top),
{
}

proof fn bare_reads_back(e: ExprView, strength: spec_fn(BinaryOp) -> int, top: int)
    requires
        crate::meaning::is_open(e),
        are_strengths(strength, top),
    ensures
        reads_bare(crate::format::format_expr_spec(e, false), e, 0, strength, top),
    decreases e, 0int,
{
    nothing_is_empty();
    let s = crate::format::format_expr_spec(e, false);
    let none = ""@;
    match e.kind {
        ExprKindView::Int(v) => {
            numeral_is_read(v);
        },
        ExprKindView::Str(v) => {
            crate::format::written_string_reads_back(v);
            assert(encloses(s, "\""@, crate::format::escape_string_spec(v), "\""@));
        },
        ExprKindView::Unary { op, expr } => {
            formatted_reads_back(*expr, strength, top);
            let t = crate::format::format_expr_spec(*expr, true);
            assert(reads_as(t, *expr, top, strength, top));
            assert(s =~= prefix_token(op) + t + none);
            assert(encloses(s, prefix_token(op), t, none));
        },
        ExprKindView::Binary { op, left, right } => {
            formatted_reads_back(*left, strength, top);
            formatted_reads_back(*right, strength, top);
            let a = crate::format::format_expr_spec(*left, true);
            let b = crate::format::format_expr_spec(*right, true);
            assert(0 <= strength(op) < top);
            assert(reads_as(a, *left, strength(op), strength, top));
            assert(reads_as(b, *right, strength(op) + 1, strength, top));
            assert(s =~= a + (" "@ + operator_token(op) + " "@) + b + none);
            assert(joins_both(s, a, " "@ + operator_token(op) + " "@, b, none));
        },
        ExprKindView::Cast { expr, ty } => {
            formatted_reads_back(*expr, strength, top);
            let t = crate::format::format_expr_spec(*expr, true);
            assert(reads_as(t, *expr, top, strength, top));
            assert(s =~= "("@ + t + (" as "@ + crate::ast::type_text_spec(ty) + ")"@));
            assert(encloses(s, "("@, t, " as "@ + crate::ast::type_text_spec(ty) + ")"@));
        },
        ExprKindView::Call { name, args, .. } => {
            arguments_read_back(args, strength, top);
            let t = crate::format::format_exprs_spec(args, ""@, 0);
            assert(s =~= (name + "("@) + t + ")"@);
            assert(encloses(s, name + "("@, t, ")"@));
        },
        ExprKindView::MethodCall { receiver, method, args, .. } => {
            formatted_reads_back(*receiver, strength, top);
            arguments_read_back(args, strength, top);
            let a = crate::format::format_expr_spec(*receiver, true);
            let b = crate::format::format_exprs_spec(args, ""@, 0);
            assert(reads_as(a, *receiver, top, strength, top));
            assert(s =~= a + ("."@ + method + "("@) + b + ")"@);
            assert(joins_both(s, a, "."@ + method + "("@, b, ")"@));
        },
        ExprKindView::Index { array, index } => {
            formatted_reads_back(*array, strength, top);
            formatted_reads_back(*index, strength, top);
            let a = crate::format::format_expr_spec(*array, true);
            let b = crate::format::format_expr_spec(*index, false);
            assert(reads_as(a, *array, top, strength, top));
            assert(joins_both(s, a, "["@, b, "]"@));
        },
        ExprKindView::Len { array } => {
            formatted_reads_back(*array, strength, top);
            assert(encloses(s, "len("@, crate::format::format_expr_spec(*array, false), ")"@));
        },
        ExprKindView::ArrayLit { elements } => {
            arguments_read_back(elements, strength, top);
            assert(encloses(s, "["@, crate::format::format_exprs_spec(elements, ""@, 0), "]"@));
        },
        ExprKindView::Ref { inner } => {
            formatted_reads_back(*inner, strength, top);
            let t = crate::format::format_expr_spec(*inner, true);
            assert(reads_as(t, *inner, top, strength, top));
            assert(s =~= "ref "@ + t + none);
            assert(encloses(s, "ref "@, t, none));
        },
        ExprKindView::RefMut { inner } => {
            formatted_reads_back(*inner, strength, top);
            let t = crate::format::format_expr_spec(*inner, true);
            assert(reads_as(t, *inner, top, strength, top));
            assert(s =~= "mut ref "@ + t + none);
            assert(encloses(s, "mut ref "@, t, none));
        },
        ExprKindView::Tuple(elements) => {
            arguments_read_back(elements, strength, top);
            assert(encloses(s, "("@, crate::format::format_exprs_spec(elements, ""@, 0), ")"@));
        },
        ExprKindView::TupleAccess { tuple, index } => {
            formatted_reads_back(*tuple, strength, top);
            let a = crate::format::format_expr_spec(*tuple, true);
            let b = crate::text::decimal((index as i128) as int);
            numeral_is_read(index as i128);
            assert(reads_as(a, *tuple, top, strength, top));
            assert(s =~= a + "."@ + b + none);
            assert(joins_both(s, a, "."@, b, none));
        },
        ExprKindView::FieldAccess { object, field } => {
            formatted_reads_back(*object, strength, top);
            let t = crate::format::format_expr_spec(*object, true);
            assert(reads_as(t, *object, top, strength, top));
            assert(s =~= none + t + ("."@ + field));
            assert(encloses(s, none, t, "."@ + field));
        },
        ExprKindView::IfExpr { cond, then_value, else_value } => {
            formatted_reads_back(*cond, strength, top);
            formatted_reads_back(*then_value, strength, top);
            formatted_reads_back(*else_value, strength, top);
            let c = crate::format::format_expr_spec(*cond, false);
            let a = crate::format::format_expr_spec(*then_value, false);
            let b = crate::format::format_expr_spec(*else_value, false);
            assert(chooses(s, c, a, b));
        },
        ExprKindView::Try { inner } => {
            formatted_reads_back(*inner, strength, top);
            let t = crate::format::format_expr_spec(*inner, true);
            assert(reads_as(t, *inner, top, strength, top));
            assert(s =~= "try "@ + t + none);
            assert(encloses(s, "try "@, t, none));
        },
        _ => {},
    }
}

} // verus!
