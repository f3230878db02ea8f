//! Checking operators and borrows once their operands are checked.

use vstd::prelude::*;
use crate::ast::{
    BinaryOp, Expr, ExprKind, ExprKindView, ExprView, FloatLit, FloatLitView, Span, Type, TypeView,
    UnaryOp, dup_types, type_text,
};
use crate::effects::{is_text_type};
use crate::ir::{
    TypedConst, TypedConstView, TypedExpr, TypedExprKind, TypedExprKindView, TypedExprView,
};
use crate::numeric::{
    coerce_numeric_operand, eval_float_binary, eval_integer_binary, eval_shift, finite_float_value,
    float_neg, is_known_zero, neg_checked, promoted_integer_type, promoted_numeric_type,
    require_type, value_fits_type,
};
use crate::scope::{
    checked, fallback_integer, find_field, lookup, lookup_struct, report, set_var, signature_get,
    typed, with_decl,
};
use crate::state::{
    CheckedExpr, CheckedExprView, Context, ContextView, Env, EnvView, State, StateView, VarInfo,
    VarInfoView,
};
use crate::text::{cat2, cat3, cat4, cat5, cat7, int_text, push, str_eq, text, usize_text};
use crate::types::{
    deref, is_bool, is_float, is_integer, is_numeric, is_owned_str, is_ref, is_signed_integer,
    is_unsigned_integer, nominal_name, type_bits, types_eq,
};
use crate::typing::{Declared};

verus! {

broadcast use {
    crate::text::group_text_views,
    crate::ast::group_ast_views,
    crate::diagnostic::group_diagnostic_views,
    crate::ir::group_ir_views,
    crate::state::group_state_views,
    crate::state::group_extends,
    crate::typing::leaves_are_typed,
    crate::typing::found_field_is_declared,
    crate::typing::found_name_is_listed,
};

/// A double without a fraction of a bit lost, as an integer that orders the
/// same way.
pub open spec fn float_key(v: FloatLitView) -> int {
    if v.bits >= 0x8000_0000_0000_0000 {
        -crate::numeric::magnitude(v.bits)
    } else {
        crate::numeric::magnitude(v.bits)
    }
}

/// Whether one finite double is less than another.
pub open spec fn float_less_spec(a: FloatLitView, b: FloatLitView) -> bool {
    float_key(a) < float_key(b)
}

pub fn float_less(a: &FloatLit, b: &FloatLit) -> (r: bool)
    ensures
        r == float_less_spec(a@, b@),
{
    let top: u64 = 0x8000_0000_0000_0000;
    let x: i128 = if a.bits >= top {
        -((a.bits - top) as i128)
    } else {
        a.bits as i128
    };
    let y: i128 = if b.bits >= top {
        -((b.bits - top) as i128)
    } else {
        b.bits as i128
    };
    x < y
}

/// What [`atomic_of`] computes.
pub open spec fn atomic_of_spec(t: TypeView) -> TypeView
{
    TypeView::Atomic(Box::new(t))
}

pub fn atomic_of(t: Type) -> (r: Type)
    ensures
        r@ == atomic_of_spec(t@),
{
    Type::Atomic(Box::new(t))
}

/// What [`mutex_of`] computes.
pub open spec fn mutex_of_spec(t: TypeView) -> TypeView
{
    TypeView::Mutex(Box::new(t))
}

pub fn mutex_of(t: Type) -> (r: Type)
    ensures
        r@ == mutex_of_spec(t@),
{
    Type::Mutex(Box::new(t))
}

/// What [`guard_of`] computes.
pub open spec fn guard_of_spec(t: TypeView) -> TypeView
{
    TypeView::Guard(Box::new(t))
}

pub fn guard_of(t: Type) -> (r: Type)
    ensures
        r@ == guard_of_spec(t@),
{
    Type::Guard(Box::new(t))
}

/// What [`ref_of`] computes.
pub open spec fn ref_of_spec(t: TypeView) -> TypeView
{
    TypeView::Ref(Box::new(t))
}

pub fn ref_of(t: Type) -> (r: Type)
    ensures
        r@ == ref_of_spec(t@),
{
    Type::Ref(Box::new(t))
}

/// What [`ref_mut_of`] computes.
pub open spec fn ref_mut_of_spec(t: TypeView) -> TypeView
{
    TypeView::RefMut(Box::new(t))
}

pub fn ref_mut_of(t: Type) -> (r: Type)
    ensures
        r@ == ref_mut_of_spec(t@),
{
    Type::RefMut(Box::new(t))
}

/// What [`array_of`] computes.
pub open spec fn array_of_spec(t: TypeView, length: u64) -> TypeView
{
    TypeView::Array { element: Box::new(t), length }
}

pub fn array_of(t: Type, length: u64) -> (r: Type)
    ensures
        r@ == array_of_spec(t@, length),
{
    Type::Array { element: Box::new(t), length }
}

/// What [`channel_of`] computes.
pub open spec fn channel_of_spec(t: TypeView, capacity: u64) -> TypeView
{
    TypeView::Channel(Box::new(t), capacity)
}

pub fn channel_of(t: Type, capacity: u64) -> (r: Type)
    ensures
        r@ == channel_of_spec(t@, capacity),
{
    Type::Channel(Box::new(t), capacity)
}

/// What [`fn_ptr_of`] computes.
pub open spec fn fn_ptr_of_spec(params: Seq<TypeView>, ret: TypeView) -> TypeView
{
    TypeView::FnPtr(params, Box::new(ret))
}

pub fn fn_ptr_of(params: Vec<Type>, ret: Type) -> (r: Type)
    ensures
        r@ == fn_ptr_of_spec(crate::ast::types_view(params@), ret@),
{
    Type::FnPtr(params, Box::new(ret))
}

/// What [`merge_spans`] computes.
pub open spec fn merge_spans_spec(a: Span, b: Span) -> Span
{
    Span {
        start: if a.start <= b.start { a.start } else { b.start },
        end: if a.end >= b.end { a.end } else { b.end },
    }
}

/// The range from the start of the first place to the end of the last.
pub fn merge_spans(a: Span, b: Span) -> (r: Span)
    ensures
        r == merge_spans_spec(a, b),
{
    Span {
        start: if a.start <= b.start { a.start } else { b.start },
        end: if a.end >= b.end { a.end } else { b.end },
    }
}

/// What [`binary_kind`] computes.
pub open spec fn binary_kind_spec(
    op: BinaryOp,
    left: TypedExprView,
    right: TypedExprView,
    runtime_check: bool,
) -> TypedExprKindView
{
    TypedExprKindView::Binary {
        op,
        left: Box::new(left),
        right: Box::new(right),
        checked: runtime_check,
    }
}

pub fn binary_kind(
    op: BinaryOp,
    left: TypedExpr,
    right: TypedExpr,
    runtime_check: bool,
) -> (r: TypedExprKind)
    ensures
        r@ == binary_kind_spec(op, left@, right@, runtime_check),
{
    TypedExprKind::Binary {
        op,
        left: Box::new(left),
        right: Box::new(right),
        checked: runtime_check,
    }
}

/// What [`checked_binary`] computes.
pub open spec fn checked_binary_spec(
    op: BinaryOp,
    l: CheckedExprView,
    r: CheckedExprView,
    t: TypeView,
    constant: Option<TypedConstView>,
    span: Span,
) -> CheckedExprView
{
    crate::scope::checked_spec(binary_kind_spec(op, l.expr, r.expr, true), t, constant, span)
}

pub fn checked_binary(
    op: BinaryOp,
    l: CheckedExpr,
    r: CheckedExpr,
    t: Type,
    constant: Option<TypedConst>,
    span: Span,
) -> (res: CheckedExpr)
    ensures
        res@ == checked_binary_spec(
            op,
            l@,
            r@,
            t@,
            (match &constant { Some(v0) => Some(v0@), None => None }),
            span,
        ),
{
    checked(binary_kind(op, l.expr, r.expr, true), t, constant, span)
}

/// What [`false_at`] computes.
pub open spec fn false_at_spec(span: Span) -> CheckedExprView
{
    crate::scope::checked_spec(TypedExprKindView::Bool(false), TypeView::Bool, None, span)
}

pub fn false_at(span: Span) -> (r: CheckedExpr)
    ensures
        r@ == false_at_spec(span),
{
    checked(TypedExprKind::Bool(false), Type::Bool, None, span)
}

/// What [`negated_constant`] computes.
pub open spec fn negated_constant_spec(
    c: Option<TypedConstView>,
    t: TypeView,
    span: Span,
    st: StateView,
) -> (Option<TypedConstView>, StateView)
{
    match c {
        Some(TypedConstView::Int(v)) => match crate::numeric::neg_checked_spec(v) {
            Some(n) => if crate::numeric::value_fits_type_spec(n, TypeView::I64) {
                (Some(TypedConstView::Int(n)), st)
            } else {
                (
                    None,
                    crate::scope::report_spec(
                        st,
                        span,
                        "negative integer literal does not fit in i64"@,
                    ),
                )
            },
            None => (
                None,
                crate::scope::report_spec(
                    st,
                    span,
                    "integer negation overflows in constant expression"@,
                ),
            ),
        },
        Some(TypedConstView::Float(v)) => {
            let n = crate::numeric::float_neg_spec(v);
            if crate::numeric::finite_float_value_spec(n, t) {
                (Some(TypedConstView::Float(n)), st)
            } else {
                (
                    None,
                    crate::scope::report_spec(
                        st,
                        span,
                        "float negation is not finite in "@ + crate::ast::type_text_spec(t),
                    ),
                )
            }
        },
        _ => (None, st),
    }
}

/// The value of a known operand negated.
pub fn negated_constant(
    c: &Option<TypedConst>,
    t: &Type,
    span: Span,
    st: State,
) -> (r: (Option<TypedConst>, State))
    ensures
        ((match &r.0 { Some(v0) => Some(v0@), None => None }), r.1@) == negated_constant_spec(
            (match &c { Some(v0) => Some(v0@), None => None }),
            t@,
            span,
            st@,
        ),
        crate::state::follows(st@, r.1@),
        crate::state::balanced(st@, r.1@),
        crate::state::same_facts(st@, r.1@),
{
    match c {
        Some(TypedConst::Int(v)) => match neg_checked(*v) {
            Some(n) => if value_fits_type(n, &Type::I64) {
                (Some(TypedConst::Int(n)), st)
            } else {
                (None, report(st, span, text("negative integer literal does not fit in i64")))
            },
            None => (
                None,
                report(st, span, text("integer negation overflows in constant expression")),
            ),
        },
        Some(TypedConst::Float(v)) => {
            let n = float_neg(v);
            if finite_float_value(&n, t) {
                (Some(TypedConst::Float(n)), st)
            } else {
                (None, report(st, span, cat2("float negation is not finite in ", &type_text(t))))
            }
        },
        _ => (None, st),
    }
}

/// What [`check_unary`] computes.
pub open spec fn check_unary_spec(
    op: UnaryOp,
    c: CheckedExprView,
    span: Span,
    st: StateView,
) -> (CheckedExprView, StateView)
{
    match op {
        UnaryOp::Neg => if !crate::types::is_numeric_spec(c.expr.ty) {
            let message = "unary '-' requires a numeric operand, got "@
                + crate::ast::type_text_spec(c.expr.ty);
            (
                crate::scope::fallback_integer_spec(span),
                crate::scope::report_spec(st, span, message),
            )
        } else if crate::types::is_unsigned_integer_spec(c.expr.ty) && !c.flexible_integer {
            let message = "unary '-' cannot be applied to unsigned type "@
                + crate::ast::type_text_spec(c.expr.ty);
            (
                crate::scope::fallback_integer_spec(span),
                crate::scope::report_spec(st, span, message),
            )
        } else {
            let (constant, st) = negated_constant_spec(c.expr.constant, c.expr.ty, span, st);
            let t = if c.flexible_integer { TypeView::I64 } else { c.expr.ty };
            (
                crate::scope::checked_spec(
                    TypedExprKindView::Unary { op, expr: Box::new(c.expr) },
                    t,
                    constant,
                    span,
                ),
                st,
            )
        },
        UnaryOp::Not => {
            let st = crate::numeric::require_type_spec(
                c.expr.ty,
                TypeView::Bool,
                c.expr.span,
                "unary '!'"@,
                st,
            );
            let constant = match c.expr.constant {
                Some(TypedConstView::Bool(v)) => Some(TypedConstView::Bool(!v)),
                _ => None,
            };
            (
                crate::scope::checked_spec(
                    TypedExprKindView::Unary { op, expr: Box::new(c.expr) },
                    TypeView::Bool,
                    constant,
                    span,
                ),
                st,
            )
        },
    }
}

/// A unary operation on its checked operand.
pub fn check_unary(op: UnaryOp, c: CheckedExpr, span: Span, st: State) -> (r: (CheckedExpr, State))
    ensures
        (r.0@, r.1@) == check_unary_spec(op, c@, span, st@),
        crate::state::follows(st@, r.1@),
        crate::state::balanced(st@, r.1@),
        crate::state::same_facts(st@, r.1@),
        forall|d: Declared|
            #![trigger crate::typing::fits(c@, d)]
            #![trigger crate::typing::fits(r.0@, d)]
            crate::typing::fits(c@, d) && crate::typing::beside(d, st@.env)
                && crate::typing::quiet(st@, r.1@)
                ==> crate::typing::fits(r.0@, d),
{
    proof {
        reveal(crate::typing::well_typed);
    }
    match op {
        UnaryOp::Neg => if !is_numeric(&c.expr.ty) {
            let message = cat2(
                "unary '-' requires a numeric operand, got ",
                &type_text(&c.expr.ty),
            );
            (fallback_integer(span), report(st, span, message))
        } else if is_unsigned_integer(&c.expr.ty) && !c.flexible_integer {
            let message = cat2(
                "unary '-' cannot be applied to unsigned type ",
                &type_text(&c.expr.ty),
            );
            (fallback_integer(span), report(st, span, message))
        } else {
            let (constant, st) = negated_constant(&c.expr.constant, &c.expr.ty, span, st);
            let t = if c.flexible_integer { Type::I64 } else { c.expr.ty.dup() };
            (checked(TypedExprKind::Unary { op, expr: Box::new(c.expr) }, t, constant, span), st)
        },
        UnaryOp::Not => {
            let st = require_type(&c.expr.ty, &Type::Bool, c.expr.span, "unary '!'", st);
            let constant = match &c.expr.constant {
                Some(TypedConst::Bool(v)) => Some(TypedConst::Bool(!*v)),
                _ => None,
            };
            (
                checked(
                    TypedExprKind::Unary { op, expr: Box::new(c.expr) },
                    Type::Bool,
                    constant,
                    span,
                ),
                st,
            )
        },
    }
}

/// What [`fold_numeric`] computes.
pub open spec fn fold_numeric_spec(
    op: BinaryOp,
    l: Option<TypedConstView>,
    r: Option<TypedConstView>,
    t: TypeView,
    span: Span,
    at: Span,
    st: StateView,
) -> (Option<TypedConstView>, StateView)
{
    match (l, r) {
        (Some(a), Some(b)) => if crate::types::is_float_spec(t) {
            crate::numeric::eval_float_binary_spec(op, a, b, t, span, st)
        } else {
            match (a, b) {
                (
                    TypedConstView::Int(x),
                    TypedConstView::Int(y),
                ) => crate::numeric::eval_integer_binary_spec(op, x, y, t, at, st),
                _ => (None, st),
            }
        },
        _ => (None, st),
    }
}

/// The value of an arithmetic operation on two known operands.
pub fn fold_numeric(
    op: BinaryOp,
    l: &Option<TypedConst>,
    r: &Option<TypedConst>,
    t: &Type,
    span: Span,
    at: Span,
    st: State,
) -> (res: (Option<TypedConst>, State))
    ensures
        ((match &res.0 { Some(v0) => Some(v0@), None => None }), res.1@) == fold_numeric_spec(
            op,
            (match &l { Some(v0) => Some(v0@), None => None }),
            (match &r { Some(v0) => Some(v0@), None => None }),
            t@,
            span,
            at,
            st@,
        ),
        crate::state::follows(st@, res.1@),
        crate::state::balanced(st@, res.1@),
        crate::state::same_facts(st@, res.1@),
{
    match (l, r) {
        (Some(a), Some(b)) => if is_float(t) {
            eval_float_binary(op, a, b, t, span, st)
        } else {
            match (a, b) {
                (
                    TypedConst::Int(x),
                    TypedConst::Int(y),
                ) => eval_integer_binary(op, *x, *y, t, at, st),
                _ => (None, st),
            }
        },
        _ => (None, st),
    }
}

/// What [`check_numeric_binary`] computes.
pub open spec fn check_numeric_binary_spec(
    op: BinaryOp,
    l: CheckedExprView,
    r: CheckedExprView,
    span: Span,
    st: StateView,
) -> (CheckedExprView, StateView)
{
    match crate::numeric::promoted_numeric_type_spec(l, r, st) {
        (None, st) => (crate::scope::fallback_integer_spec(span), st),
        (Some(t), st) => {
            let (l, st) = crate::numeric::coerce_numeric_operand_spec(l, t, st);
            let (r, st) = crate::numeric::coerce_numeric_operand_spec(r, t, st);
            let (constant, st) = if crate::numeric::is_known_zero_spec(r) && op == BinaryOp::Div {
                let message = if crate::types::is_float_spec(t) {
                        "floating-point division by zero in constant expression"@
                    } else {
                        "division by zero in constant expression"@
                    };
                (None, crate::scope::report_spec(st, r.expr.span, message))
            } else {
                fold_numeric_spec(op, l.expr.constant, r.expr.constant, t, span, r.expr.span, st)
            };
            (checked_binary_spec(op, l, r, t, constant, span), st)
        },
    }
}

/// Arithmetic on numbers.
pub fn check_numeric_binary(
    op: BinaryOp,
    l: CheckedExpr,
    r: CheckedExpr,
    span: Span,
    st: State,
) -> (res: (CheckedExpr, State))
    ensures
        (res.0@, res.1@) == check_numeric_binary_spec(op, l@, r@, span, st@),
        crate::state::follows(st@, res.1@),
        crate::state::balanced(st@, res.1@),
        crate::state::same_facts(st@, res.1@),
        forall|d: Declared|
            #![trigger crate::typing::fits(l@, d)]
            #![trigger crate::typing::fits(res.0@, d)]
            (op is Add || op is Sub || op is Mul || op is Div) && crate::typing::fits(l@, d)
                && crate::typing::fits(r@, d) && crate::typing::beside(d, st@.env)
                && crate::typing::quiet(st@, res.1@)
                ==> crate::typing::fits(res.0@, d),
{
    proof {
        reveal(crate::typing::well_typed);
    }
    match promoted_numeric_type(&l, &r, st) {
        (None, st) => (fallback_integer(span), st),
        (Some(t), st) => {
            let (l, st) = coerce_numeric_operand(l, &t, st);
            let (r, st) = coerce_numeric_operand(r, &t, st);
            let (constant, st) = if is_known_zero(&r) && op == BinaryOp::Div {
                let message = text(
                    if is_float(&t) {
                        "floating-point division by zero in constant expression"
                    } else {
                        "division by zero in constant expression"
                    },
                );
                (None, report(st, r.expr.span, message))
            } else {
                fold_numeric(op, &l.expr.constant, &r.expr.constant, &t, span, r.expr.span, st)
            };
            (checked_binary(op, l, r, t, constant, span), st)
        },
    }
}

/// What [`fold_integer`] computes.
pub open spec fn fold_integer_spec(
    op: BinaryOp,
    l: Option<TypedConstView>,
    r: Option<TypedConstView>,
    t: TypeView,
    at: Span,
    st: StateView,
) -> (Option<TypedConstView>, StateView)
{
    match (l, r) {
        (
            Some(TypedConstView::Int(x)),
            Some(TypedConstView::Int(y)),
        ) => crate::numeric::eval_integer_binary_spec(op, x, y, t, at, st),
        _ => (None, st),
    }
}

/// The value of an operation on two known integers.
pub fn fold_integer(
    op: BinaryOp,
    l: &Option<TypedConst>,
    r: &Option<TypedConst>,
    t: &Type,
    at: Span,
    st: State,
) -> (res: (Option<TypedConst>, State))
    ensures
        ((match &res.0 { Some(v0) => Some(v0@), None => None }), res.1@) == fold_integer_spec(
            op,
            (match &l { Some(v0) => Some(v0@), None => None }),
            (match &r { Some(v0) => Some(v0@), None => None }),
            t@,
            at,
            st@,
        ),
        crate::state::follows(st@, res.1@),
        crate::state::balanced(st@, res.1@),
        crate::state::same_facts(st@, res.1@),
{
    match (l, r) {
        (
            Some(TypedConst::Int(x)),
            Some(TypedConst::Int(y)),
        ) => eval_integer_binary(op, *x, *y, t, at, st),
        _ => (None, st),
    }
}

/// What [`check_integer_remainder`] computes.
pub open spec fn check_integer_remainder_spec(
    l: CheckedExprView,
    r: CheckedExprView,
    span: Span,
    st: StateView,
) -> (CheckedExprView, StateView)
{
    match crate::numeric::promoted_integer_type_spec(l, r, st) {
        (None, st) => (crate::scope::fallback_integer_spec(span), st),
        (Some(t), st) => {
            let (l, st) = crate::numeric::coerce_numeric_operand_spec(l, t, st);
            let (r, st) = crate::numeric::coerce_numeric_operand_spec(r, t, st);
            let (constant, st) = if crate::numeric::is_known_zero_spec(r) {
                (
                    None,
                    crate::scope::report_spec(
                        st,
                        r.expr.span,
                        "remainder by zero in constant expression"@,
                    ),
                )
            } else {
                fold_integer_spec(
                    BinaryOp::Rem,
                    l.expr.constant,
                    r.expr.constant,
                    t,
                    r.expr.span,
                    st,
                )
            };
            (checked_binary_spec(BinaryOp::Rem, l, r, t, constant, span), st)
        },
    }
}

/// A remainder.
pub fn check_integer_remainder(
    l: CheckedExpr,
    r: CheckedExpr,
    span: Span,
    st: State,
) -> (res: (CheckedExpr, State))
    ensures
        (res.0@, res.1@) == check_integer_remainder_spec(l@, r@, span, st@),
        crate::state::follows(st@, res.1@),
        crate::state::balanced(st@, res.1@),
        crate::state::same_facts(st@, res.1@),
        forall|d: Declared|
            #![trigger crate::typing::fits(l@, d)]
            #![trigger crate::typing::fits(res.0@, d)]
            crate::typing::fits(l@, d) && crate::typing::fits(r@, d)
                && crate::typing::beside(d, st@.env) && crate::typing::quiet(st@, res.1@)
                ==> crate::typing::fits(res.0@, d),
{
    proof {
        reveal(crate::typing::well_typed);
    }
    match promoted_integer_type(&l, &r, st) {
        (None, st) => (fallback_integer(span), st),
        (Some(t), st) => {
            let (l, st) = coerce_numeric_operand(l, &t, st);
            let (r, st) = coerce_numeric_operand(r, &t, st);
            let (constant, st) = if is_known_zero(&r) {
                (
                    None,
                    report(st, r.expr.span, text("remainder by zero in constant expression")),
                )
            } else {
                fold_integer(BinaryOp::Rem, &l.expr.constant, &r.expr.constant, &t, r.expr.span, st)
            };
            (checked_binary(BinaryOp::Rem, l, r, t, constant, span), st)
        },
    }
}

/// What [`check_integer_bitwise`] computes.
pub open spec fn check_integer_bitwise_spec(
    op: BinaryOp,
    l: CheckedExprView,
    r: CheckedExprView,
    span: Span,
    st: StateView,
) -> (CheckedExprView, StateView)
{
    match crate::numeric::promoted_integer_type_spec(l, r, st) {
        (None, st) => (crate::scope::fallback_integer_spec(span), st),
        (Some(t), st) => {
            let (l, st) = crate::numeric::coerce_numeric_operand_spec(l, t, st);
            let (r, st) = crate::numeric::coerce_numeric_operand_spec(r, t, st);
            let (constant, st) = fold_integer_spec(
                op,
                l.expr.constant,
                r.expr.constant,
                t,
                span,
                st,
            );
            (checked_binary_spec(op, l, r, t, constant, span), st)
        },
    }
}

/// A bitwise operation.
pub fn check_integer_bitwise(
    op: BinaryOp,
    l: CheckedExpr,
    r: CheckedExpr,
    span: Span,
    st: State,
) -> (res: (CheckedExpr, State))
    ensures
        (res.0@, res.1@) == check_integer_bitwise_spec(op, l@, r@, span, st@),
        crate::state::follows(st@, res.1@),
        crate::state::balanced(st@, res.1@),
        crate::state::same_facts(st@, res.1@),
        forall|d: Declared|
            #![trigger crate::typing::fits(l@, d)]
            #![trigger crate::typing::fits(res.0@, d)]
            (op is BitAnd || op is BitOr || op is BitXor) && crate::typing::fits(l@, d)
                && crate::typing::fits(r@, d) && crate::typing::beside(d, st@.env)
                && crate::typing::quiet(st@, res.1@)
                ==> crate::typing::fits(res.0@, d),
{
    proof {
        reveal(crate::typing::well_typed);
    }
    match promoted_integer_type(&l, &r, st) {
        (None, st) => (fallback_integer(span), st),
        (Some(t), st) => {
            let (l, st) = coerce_numeric_operand(l, &t, st);
            let (r, st) = coerce_numeric_operand(r, &t, st);
            let (constant, st) = fold_integer(op, &l.expr.constant, &r.expr.constant, &t, span, st);
            (checked_binary(op, l, r, t, constant, span), st)
        },
    }
}

/// What [`int_constant`] computes.
pub open spec fn int_constant_spec(c: Option<TypedConstView>) -> Option<i128>
{
    match c {
        Some(TypedConstView::Int(v)) => Some(v),
        _ => None,
    }
}

pub fn int_constant(c: &Option<TypedConst>) -> (r: Option<i128>)
    ensures
        r == int_constant_spec((match &c { Some(v0) => Some(v0@), None => None })),
{
    match c {
        Some(TypedConst::Int(v)) => Some(*v),
        _ => None,
    }
}

/// What [`check_shift_count`] computes.
pub open spec fn check_shift_count_spec(
    count: i128,
    bits: i128,
    t: TypeView,
    span: Span,
    st: StateView,
) -> StateView
{
    let st = if count < 0 {
        crate::scope::report_spec(st, span, "shift count cannot be negative"@)
    } else {
        st
    };
    if count >= bits {
        let message = "shift count must be less than "@ + crate::text::decimal(bits as int)
            + " for "@ + crate::ast::type_text_spec(t);
        crate::scope::report_spec(st, span, message)
    } else {
        st
    }
}

/// Reports a shift count that is negative or not below the width.
pub fn check_shift_count(count: i128, bits: i128, t: &Type, span: Span, st: State) -> (r: State)
    ensures
        r@ == check_shift_count_spec(count, bits, t@, span, st@),
        crate::state::follows(st@, r@),
        crate::state::balanced(st@, r@),
        crate::state::same_facts(st@, r@),
{
    let st = if count < 0 {
        report(st, span, text("shift count cannot be negative"))
    } else {
        st
    };
    if count >= bits {
        let message = cat4(
            "shift count must be less than ",
            &int_text(bits),
            " for ",
            &type_text(t),
        );
        report(st, span, message)
    } else {
        st
    }
}

/// What [`check_shift`] computes.
pub open spec fn check_shift_spec(
    op: BinaryOp,
    l: CheckedExprView,
    r: CheckedExprView,
    span: Span,
    st: StateView,
) -> (CheckedExprView, StateView)
{
    if !crate::types::is_integer_spec(l.expr.ty) {
        let message = "shift left operand must be an integer, got "@
            + crate::ast::type_text_spec(l.expr.ty);
        (
            crate::scope::fallback_integer_spec(span),
            crate::scope::report_spec(st, l.expr.span, message),
        )
    } else if !crate::types::is_integer_spec(r.expr.ty) {
        let message = "shift count must be an integer, got "@
            + crate::ast::type_text_spec(r.expr.ty);
        (
            crate::scope::fallback_integer_spec(span),
            crate::scope::report_spec(st, r.expr.span, message),
        )
    } else {
        let t = l.expr.ty;
        let bits: i128 = match crate::types::type_bits_spec(t) {
            Some(b) => b as i128,
            None => 0 as i128,
        };
        let st = match int_constant_spec(r.expr.constant) {
            Some(count) => check_shift_count_spec(count, bits, t, r.expr.span, st),
            None => st,
        };
        let st = match int_constant_spec(l.expr.constant) {
            Some(v) => if op == BinaryOp::Shl && crate::types::is_signed_integer_spec(t) && v < 0 {
                crate::scope::report_spec(
                    st,
                    l.expr.span,
                    "left shift of a negative signed value is not allowed"@,
                )
            } else {
                st
            },
            None => st,
        };
        let (constant, st) = match (
            int_constant_spec(l.expr.constant),
            int_constant_spec(r.expr.constant),
        ) {
            (Some(v), Some(count)) => if 0 <= count && count < bits {
                crate::numeric::eval_shift_spec(op, v, count as u32, t, span, st)
            } else {
                (None, st)
            },
            _ => (None, st),
        };
        (checked_binary_spec(op, l, r, t, constant, span), st)
    }
}

/// A shift, whose result has the type of its left operand.
pub fn check_shift(
    op: BinaryOp,
    l: CheckedExpr,
    r: CheckedExpr,
    span: Span,
    st: State,
) -> (res: (CheckedExpr, State))
    ensures
        (res.0@, res.1@) == check_shift_spec(op, l@, r@, span, st@),
        crate::state::follows(st@, res.1@),
        crate::state::balanced(st@, res.1@),
        crate::state::same_facts(st@, res.1@),
        forall|d: Declared|
            #![trigger crate::typing::fits(l@, d)]
            #![trigger crate::typing::fits(res.0@, d)]
            (op is Shl || op is Shr) && crate::typing::fits(l@, d) && crate::typing::fits(r@, d)
                && crate::typing::beside(d, st@.env) && crate::typing::quiet(st@, res.1@)
                ==> crate::typing::fits(res.0@, d),
{
    proof {
        reveal(crate::typing::well_typed);
    }
    if !is_integer(&l.expr.ty) {
        let message = cat2("shift left operand must be an integer, got ", &type_text(&l.expr.ty));
        (fallback_integer(span), report(st, l.expr.span, message))
    } else if !is_integer(&r.expr.ty) {
        let message = cat2("shift count must be an integer, got ", &type_text(&r.expr.ty));
        (fallback_integer(span), report(st, r.expr.span, message))
    } else {
        let t = l.expr.ty.dup();
        let bits: i128 = match type_bits(&t) {
            Some(b) => b as i128,
            None => 0 as i128,
        };
        let st = match int_constant(&r.expr.constant) {
            Some(count) => check_shift_count(count, bits, &t, r.expr.span, st),
            None => st,
        };
        let st = match int_constant(&l.expr.constant) {
            Some(v) => if op == BinaryOp::Shl && is_signed_integer(&t) && v < 0 {
                report(
                    st,
                    l.expr.span,
                    text("left shift of a negative signed value is not allowed"),
                )
            } else {
                st
            },
            None => st,
        };
        let (constant, st) = match (
            int_constant(&l.expr.constant),
            int_constant(&r.expr.constant),
        ) {
            (Some(v), Some(count)) => if 0 <= count && count < bits {
                eval_shift(op, v, count as u32, &t, span, st)
            } else {
                (None, st)
            },
            _ => (None, st),
        };
        (checked_binary(op, l, r, t, constant, span), st)
    }
}

/// What [`move_owned_str`] computes.
pub open spec fn move_owned_str_spec(c: CheckedExprView, source: ExprView, env: EnvView) -> EnvView
{
    if crate::types::is_owned_str_spec(c.expr.ty) {
        match source.kind {
            ExprKindView::Var(name) => match crate::scope::lookup_spec(env, name) {
                Some(info) => crate::scope::set_var_spec(
                    env,
                    name,
                    VarInfoView { moved: Some(source.span), ..info },
                ),
                None => env,
            },
            _ => env,
        }
    } else {
        env
    }
}

/// Marks the variable of an owned string as moved here.
pub fn move_owned_str(c: &CheckedExpr, source: &Expr, env: Env) -> (r: Env)
    ensures
        r@ == move_owned_str_spec(c@, source@, env@),
        crate::state::same_scopes(env@, r@),
{
    if is_owned_str(&c.expr.ty) {
        match &source.kind {
            ExprKind::Var(name) => match lookup(&env, name) {
                Some(info) => set_var(env, name, &VarInfo { moved: Some(source.span), ..info }),
                None => env,
            },
            _ => env,
        }
    } else {
        env
    }
}

/// What [`check_str_concat`] computes.
pub open spec fn check_str_concat_spec(
    l: CheckedExprView,
    r: CheckedExprView,
    span: Span,
    left: ExprView,
    right: ExprView,
    st: StateView,
) -> (CheckedExprView, StateView)
{
    let env = move_owned_str_spec(l, left, st.env);
    let env = move_owned_str_spec(r, right, env);
    (
        crate::scope::checked_spec(
            binary_kind_spec(BinaryOp::Add, l.expr, r.expr, false),
            TypeView::OwnedStr,
            None,
            span,
        ),
        StateView { env, ..st },
    )
}

/// Concatenation, which takes over owned operands and yields an owned string.
pub fn check_str_concat(
    l: CheckedExpr,
    r: CheckedExpr,
    span: Span,
    left: &Expr,
    right: &Expr,
    st: State,
) -> (res: (CheckedExpr, State))
    ensures
        (res.0@, res.1@) == check_str_concat_spec(l@, r@, span, left@, right@, st@),
        crate::state::follows(st@, res.1@),
        crate::state::balanced(st@, res.1@),
        crate::state::same_facts(st@, res.1@),
        forall|d: Declared|
            #![trigger crate::typing::fits(l@, d)]
            #![trigger crate::typing::fits(res.0@, d)]
            crate::effects::is_text_type_spec(l@.expr.ty)
                && crate::effects::is_text_type_spec(r@.expr.ty) && crate::typing::fits(l@, d)
                && crate::typing::fits(r@, d) && crate::typing::beside(d, st@.env)
                && crate::typing::quiet(st@, res.1@)
                ==> crate::typing::fits(res.0@, d),
{
    proof {
        reveal(crate::typing::well_typed);
    }
    let env = move_owned_str(&l, left, st.env);
    let env = move_owned_str(&r, right, env);
    (
        checked(binary_kind(BinaryOp::Add, l.expr, r.expr, false), Type::OwnedStr, None, span),
        State { env, ..st },
    )
}

/// What [`compares`] computes.
pub open spec fn compares_spec(op: BinaryOp, less: bool, greater: bool) -> bool
{
    match op {
        BinaryOp::Lt => less,
        BinaryOp::Le => !greater,
        BinaryOp::Gt => greater,
        BinaryOp::Ge => !less,
        BinaryOp::Eq => !less && !greater,
        BinaryOp::Ne => less || greater,
        _ => false,
    }
}

/// The outcome of a comparison, given whether the first is less and whether it
/// is greater.
pub fn compares(op: BinaryOp, less: bool, greater: bool) -> (r: bool)
    ensures
        r == compares_spec(op, less, greater),
{
    match op {
        BinaryOp::Lt => less,
        BinaryOp::Le => !greater,
        BinaryOp::Gt => greater,
        BinaryOp::Ge => !less,
        BinaryOp::Eq => !less && !greater,
        BinaryOp::Ne => less || greater,
        _ => false,
    }
}

/// What [`fold_comparison`] computes.
pub open spec fn fold_comparison_spec(
    op: BinaryOp,
    l: Option<TypedConstView>,
    r: Option<TypedConstView>,
) -> Option<TypedConstView>
{
    match (l, r) {
        (
            Some(TypedConstView::Float(a)),
            Some(TypedConstView::Float(b)),
        ) => Some(TypedConstView::Bool(
            compares_spec(op, float_less_spec(a, b), float_less_spec(b, a)),
        )),
        (Some(TypedConstView::Int(a)), Some(TypedConstView::Int(b))) => Some(TypedConstView::Bool(
            compares_spec(op, a < b, b < a),
        )),
        _ => None,
    }
}

/// Compares two known operands.
pub fn fold_comparison(
    op: BinaryOp,
    l: &Option<TypedConst>,
    r: &Option<TypedConst>,
) -> (res: Option<TypedConst>)
    ensures
        (match &res { Some(v0) => Some(v0@), None => None }) == fold_comparison_spec(
            op,
            (match &l { Some(v0) => Some(v0@), None => None }),
            (match &r { Some(v0) => Some(v0@), None => None }),
        ),
{
    match (l, r) {
        (Some(TypedConst::Float(a)), Some(TypedConst::Float(b))) => Some(TypedConst::Bool(
            compares(op, float_less(a, b), float_less(b, a)),
        )),
        (Some(TypedConst::Int(a)), Some(TypedConst::Int(b))) => Some(TypedConst::Bool(
            compares(op, *a < *b, *b < *a),
        )),
        _ => None,
    }
}

/// What [`check_numeric_comparison`] computes.
pub open spec fn check_numeric_comparison_spec(
    op: BinaryOp,
    l: CheckedExprView,
    r: CheckedExprView,
    span: Span,
    st: StateView,
) -> (CheckedExprView, StateView)
{
    match crate::numeric::promoted_numeric_type_spec(l, r, st) {
        (None, st) => (false_at_spec(span), st),
        (Some(t), st) => {
            let (l, st) = crate::numeric::coerce_numeric_operand_spec(l, t, st);
            let (r, st) = crate::numeric::coerce_numeric_operand_spec(r, t, st);
            let constant = fold_comparison_spec(op, l.expr.constant, r.expr.constant);
            (checked_binary_spec(op, l, r, TypeView::Bool, constant, span), st)
        },
    }
}

/// A comparison of numbers, equality included.
pub fn check_numeric_comparison(
    op: BinaryOp,
    l: CheckedExpr,
    r: CheckedExpr,
    span: Span,
    st: State,
) -> (res: (CheckedExpr, State))
    ensures
        (res.0@, res.1@) == check_numeric_comparison_spec(op, l@, r@, span, st@),
        crate::state::follows(st@, res.1@),
        crate::state::balanced(st@, res.1@),
        crate::state::same_facts(st@, res.1@),
        forall|d: Declared|
            #![trigger crate::typing::fits(l@, d)]
            #![trigger crate::typing::fits(res.0@, d)]
            (op is Lt || op is Le || op is Gt || op is Ge || op is Eq || op is Ne)
                && crate::typing::fits(l@, d) && crate::typing::fits(r@, d)
                && crate::typing::beside(d, st@.env) && crate::typing::quiet(st@, res.1@)
                ==> crate::typing::fits(res.0@, d),
{
    proof {
        reveal(crate::typing::well_typed);
    }
    match promoted_numeric_type(&l, &r, st) {
        (None, st) => (false_at(span), st),
        (Some(t), st) => {
            let (l, st) = coerce_numeric_operand(l, &t, st);
            let (r, st) = coerce_numeric_operand(r, &t, st);
            let constant = fold_comparison(op, &l.expr.constant, &r.expr.constant);
            (checked_binary(op, l, r, Type::Bool, constant, span), st)
        },
    }
}

/// What [`check_boolean_binary`] computes.
pub open spec fn check_boolean_binary_spec(
    op: BinaryOp,
    l: CheckedExprView,
    r: CheckedExprView,
    span: Span,
    st: StateView,
) -> (CheckedExprView, StateView)
{
    let st = crate::numeric::require_type_spec(
        l.expr.ty,
        TypeView::Bool,
        l.expr.span,
        "boolean left operand"@,
        st,
    );
    let st = crate::numeric::require_type_spec(
        r.expr.ty,
        TypeView::Bool,
        r.expr.span,
        "boolean right operand"@,
        st,
    );
    let constant = match (l.expr.constant, r.expr.constant) {
        (Some(TypedConstView::Bool(a)), Some(TypedConstView::Bool(b))) => Some(TypedConstView::Bool(
            if op == BinaryOp::And { a && b } else { a || b },
        )),
        _ => None,
    };
    (checked_binary_spec(op, l, r, TypeView::Bool, constant, span), st)
}

/// `&&` and `||` on checked operands.
pub fn check_boolean_binary(
    op: BinaryOp,
    l: CheckedExpr,
    r: CheckedExpr,
    span: Span,
    st: State,
) -> (res: (CheckedExpr, State))
    ensures
        (res.0@, res.1@) == check_boolean_binary_spec(op, l@, r@, span, st@),
        crate::state::follows(st@, res.1@),
        crate::state::balanced(st@, res.1@),
        crate::state::same_facts(st@, res.1@),
        forall|d: Declared|
            #![trigger crate::typing::fits(l@, d)]
            #![trigger crate::typing::fits(res.0@, d)]
            (op is And || op is Or) && crate::typing::fits(l@, d) && crate::typing::fits(r@, d)
                && crate::typing::beside(d, st@.env) && crate::typing::quiet(st@, res.1@)
                ==> crate::typing::fits(res.0@, d),
{
    proof {
        reveal(crate::typing::well_typed);
    }
    let st = require_type(&l.expr.ty, &Type::Bool, l.expr.span, "boolean left operand", st);
    let st = require_type(&r.expr.ty, &Type::Bool, r.expr.span, "boolean right operand", st);
    let constant = match (&l.expr.constant, &r.expr.constant) {
        (Some(TypedConst::Bool(a)), Some(TypedConst::Bool(b))) => Some(TypedConst::Bool(
            if op == BinaryOp::And { *a && *b } else { *a || *b },
        )),
        _ => None,
    };
    (checked_binary(op, l, r, Type::Bool, constant, span), st)
}

/// What [`is_aggregate`] computes.
pub open spec fn is_aggregate_spec(t: TypeView) -> bool
{
    t is Struct || t is Tuple || t is Enum
}

pub fn is_aggregate(t: &Type) -> (r: bool)
    ensures
        r == is_aggregate_spec(t@),
{
    match t {
        Type::Struct(_) | Type::Tuple(_) | Type::Enum(_) => true,
        _ => false,
    }
}

/// What [`has_eq`] computes.
pub open spec fn has_eq_spec(name: Seq<char>, cx: ContextView) -> bool
{
    match crate::scope::signature_get_spec(cx.signatures, name + "_eq"@) {
        Some(sig) => crate::types::is_bool_spec(sig.return_type) && sig.params.len() == 2,
        None => false,
    }
}

/// Whether a type has an equality function of the right shape.
pub fn has_eq(name: &str, cx: &Context) -> (r: bool)
    ensures
        r == has_eq_spec(name@, cx@),
{
    match signature_get(&cx.signatures, &cat2(name, "_eq")) {
        Some(sig) => is_bool(&sig.return_type) && sig.params.len() == 2,
        None => false,
    }
}

/// What [`two_exprs`] computes.
pub open spec fn two_exprs_spec(a: TypedExprView, b: TypedExprView) -> Seq<TypedExprView>
{
    Seq::empty().push(a).push(b)
}

pub fn two_exprs(a: TypedExpr, b: TypedExpr) -> (r: Vec<TypedExpr>)
    ensures
        crate::ir::typed_exprs_view(r@) == two_exprs_spec(a@, b@),
{
    push(push(Vec::new(), a), b)
}

/// What [`eq_call`] computes.
pub open spec fn eq_call_spec(
    name: Seq<char>,
    left: TypedExprView,
    right: TypedExprView,
    span: Span,
) -> TypedExprKindView
{
    TypedExprKindView::Call {
        name: name + "_eq"@,
        name_span: span,
        args: two_exprs_spec(left, right),
    }
}

pub fn eq_call(name: &str, left: TypedExpr, right: TypedExpr, span: Span) -> (r: TypedExprKind)
    ensures
        r@ == eq_call_spec(name@, left@, right@, span),
{
    TypedExprKind::Call {
        name: cat2(name, "_eq"),
        name_span: span,
        args: two_exprs(left, right),
    }
}

/// What [`not_kind`] computes.
pub open spec fn not_kind_spec(e: TypedExprView) -> TypedExprKindView
{
    TypedExprKindView::Unary { op: UnaryOp::Not, expr: Box::new(e) }
}

pub fn not_kind(e: TypedExpr) -> (r: TypedExprKind)
    ensures
        r@ == not_kind_spec(e@),
{
    TypedExprKind::Unary { op: UnaryOp::Not, expr: Box::new(e) }
}

/// What [`tuple_element`] computes.
pub open spec fn tuple_element_spec(
    tuple: TypedExprView,
    index: u32,
    t: TypeView,
    span: Span,
) -> TypedExprView
{
    crate::scope::typed_spec(
        TypedExprKindView::TupleAccess { tuple: Box::new(tuple), index },
        t,
        None,
        span,
    )
}

pub fn tuple_element(tuple: &TypedExpr, index: u32, t: &Type, span: Span) -> (r: TypedExpr)
    ensures
        r@ == tuple_element_spec(tuple@, index, t@, span),
{
    typed(TypedExprKind::TupleAccess { tuple: Box::new(tuple.dup()), index }, t.dup(), None, span)
}

/// What [`element_equality`] computes.
pub open spec fn element_equality_spec(
    l: TypedExprView,
    r: TypedExprView,
    index: u32,
    t: TypeView,
    span: Span,
    cx: ContextView,
) -> Option<TypedExprView>
{
    let x = tuple_element_spec(l, index, t, span);
    let y = tuple_element_spec(r, index, t, span);
    match crate::types::nominal_name_spec(t) {
        Some(name) => if has_eq_spec(name, cx) {
            Some(
                crate::scope::typed_spec(
                    eq_call_spec(name, x, y, span),
                    TypeView::Bool,
                    None,
                    span,
                ),
            )
        } else {
            None
        },
        None => Some(
            crate::scope::typed_spec(
                binary_kind_spec(BinaryOp::Eq, x, y, true),
                TypeView::Bool,
                None,
                span,
            ),
        ),
    }
}

/// Equality of one element of two tuples; none where its type has none.
pub fn element_equality(
    l: &TypedExpr,
    r: &TypedExpr,
    index: u32,
    t: &Type,
    span: Span,
    cx: &Context,
) -> (res: Option<TypedExpr>)
    ensures
        (match &res { Some(v0) => Some(v0@), None => None }) == element_equality_spec(
            l@,
            r@,
            index,
            t@,
            span,
            cx@,
        ),
{
    let x = tuple_element(l, index, t, span);
    let y = tuple_element(r, index, t, span);
    match nominal_name(t) {
        Some(name) => if has_eq(&name, cx) {
            Some(typed(eq_call(&name, x, y, span), Type::Bool, None, span))
        } else {
            None
        },
        None => Some(typed(binary_kind(BinaryOp::Eq, x, y, true), Type::Bool, None, span)),
    }
}

/// What [`tuple_equality`] computes from position `i` on.
pub open spec fn tuple_equality_spec(
    ts: Seq<TypeView>,
    l: TypedExprView,
    r: TypedExprView,
    span: Span,
    cx: ContextView,
    chain: Option<TypedExprView>,
    missing: Option<int>,
    i: int,
) -> (Option<TypedExprView>, Option<int>)
    decreases ts.len() - i,
{
    if 0 <= i < ts.len() && !missing.is_some() {
        let t = ts[i];
        let (chain, missing) = match element_equality_spec(l, r, i as u32, t, span, cx) {
            None => (chain, Some(i)),
            Some(e) => match chain {
                None => (Some(e), None),
                Some(before) => (
                    Some(
                        crate::scope::typed_spec(
                            binary_kind_spec(BinaryOp::And, before, e, true),
                            TypeView::Bool,
                            None,
                            span,
                        ),
                    ),
                    None,
                ),
            },
        };
        tuple_equality_spec(ts, l, r, span, cx, chain, missing, i + 1)
    } else {
        (chain, missing)
    }
}

/// The conjunction of the equalities of all elements, or the index of the
/// first that has none.
pub fn tuple_equality(
    ts: &Vec<Type>,
    l: &TypedExpr,
    r: &TypedExpr,
    span: Span,
    cx: &Context,
    chain: Option<TypedExpr>,
    missing: Option<usize>,
) -> (res: (Option<TypedExpr>, Option<usize>))
    ensures
        ((match &res.0 { Some(v0) => Some(v0@), None => None }), (match &res.1 { Some(v0) => Some(*v0 as int), None => None })) == tuple_equality_spec(
            crate::ast::types_view(ts@),
            l@,
            r@,
            span,
            cx@,
            (match &chain { Some(v0) => Some(v0@), None => None }),
            (match &missing { Some(v0) => Some(*v0 as int), None => None }),
            0,
        ),
{
    let ghost whole_run = tuple_equality_spec(
        crate::ast::types_view(ts@),
        l@,
        r@,
        span,
        cx@,
        (match &chain { Some(v0) => Some(v0@), None => None }),
        (match &missing { Some(v0) => Some(*v0 as int), None => None }),
        0,
    );
    let mut chain = chain;
    let mut missing = missing;
    let mut i: usize = 0;
    while i < ts.len() && !missing.is_some()
        invariant
            i <= ts.len(),
            tuple_equality_spec(
                crate::ast::types_view(ts@),
                l@,
                r@,
                span,
                cx@,
                (match &chain { Some(v0) => Some(v0@), None => None }),
                (match &missing { Some(v0) => Some(*v0 as int), None => None }),
                i as int,
            ) == whole_run,
        decreases ts.len() - i,
    {
        let t = &ts[i];
        let next = match element_equality(l, r, i as u32, t, span, cx) {
            None => (chain, Some(i)),
            Some(e) => match chain {
                None => (Some(e), None),
                Some(before) => (
                    Some(
                        typed(binary_kind(BinaryOp::And, before, e, true), Type::Bool, None, span),
                    ),
                    None,
                ),
            },
        };
        chain = next.0;
        missing = next.1;
        i += 1;
    }
    (chain, missing)
}

/// What [`check_tuple_equality`] computes.
pub open spec fn check_tuple_equality_spec(
    op: BinaryOp,
    l: CheckedExprView,
    r: CheckedExprView,
    elements: Seq<TypeView>,
    span: Span,
    cx: ContextView,
    st: StateView,
) -> (CheckedExprView, StateView)
{
    match tuple_equality_spec(elements, l.expr, r.expr, span, cx, None, None, 0) {
        (_, Some(at)) => {
            let t = if at < elements.len() { elements[at] } else { TypeView::Bool };
            let name = match crate::types::nominal_name_spec(t) {
                Some(name) => name,
                None => ""@,
            };
            let message = "tuple `==` element at index "@ + crate::text::decimal(at) + " has type "@
                + crate::ast::type_text_spec(t) + ", but no `implement Eq for "@ + name
                + "` is in scope"@;
            (false_at_spec(span), crate::scope::report_spec(st, span, message))
        },
        (chain, None) => {
            let all = match chain {
                Some(e) => e,
                None => crate::scope::typed_spec(
                    TypedExprKindView::Bool(true),
                    TypeView::Bool,
                    Some(TypedConstView::Bool(true)),
                    span,
                ),
            };
            if op == BinaryOp::Eq {
                (crate::scope::checked_spec(all.kind, TypeView::Bool, None, span), st)
            } else {
                (crate::scope::checked_spec(not_kind_spec(all), TypeView::Bool, None, span), st)
            }
        },
    }
}

/// `==` and `!=` on tuples of the same type.
pub fn check_tuple_equality(
    op: BinaryOp,
    l: &CheckedExpr,
    r: &CheckedExpr,
    elements: &Vec<Type>,
    span: Span,
    cx: &Context,
    st: State,
) -> (res: (CheckedExpr, State))
    ensures
        (res.0@, res.1@) == check_tuple_equality_spec(
            op,
            l@,
            r@,
            crate::ast::types_view(elements@),
            span,
            cx@,
            st@,
        ),
        crate::state::follows(st@, res.1@),
        crate::state::balanced(st@, res.1@),
        crate::state::same_facts(st@, res.1@),
        l@.expr.ty == TypeView::Tuple(crate::ast::types_view(elements@)) && r@.expr.ty == l@.expr.ty
            && crate::typing::fits(l@, crate::typing::declared_in(cx@, st@.env))
            && crate::typing::fits(r@, crate::typing::declared_in(cx@, st@.env))
            && st@.env.scopes.len() > 0
            && crate::typing::quiet(st@, res.1@)
            ==> crate::typing::fits(res.0@, crate::typing::declared_in(cx@, st@.env)),
{
    proof {
        if crate::typing::fits(l@, crate::typing::declared_in(cx@, st@.env))
            && crate::typing::fits(r@, crate::typing::declared_in(cx@, st@.env))
            && l@.expr.ty == TypeView::Tuple(crate::ast::types_view(elements@))
            && r@.expr.ty == l@.expr.ty {
            compared_tuples_fit(
                op,
                l@,
                r@,
                crate::ast::types_view(elements@),
                span,
                cx@,
                crate::typing::declared_in(cx@, st@.env),
                st@,
            );
        }
    }
    match tuple_equality(elements, &l.expr, &r.expr, span, cx, None, None) {
        (_, Some(at)) => {
            let t = if at < elements.len() { elements[at].dup() } else { Type::Bool };
            let name = match nominal_name(&t) {
                Some(name) => name,
                None => text(""),
            };
            let message = cat7(
                "tuple `==` element at index ",
                &usize_text(at),
                " has type ",
                &type_text(&t),
                ", but no `implement Eq for ",
                &name,
                "` is in scope",
            );
            (false_at(span), report(st, span, message))
        },
        (chain, None) => {
            let all = match chain {
                Some(e) => e,
                None => typed(
                    TypedExprKind::Bool(true),
                    Type::Bool,
                    Some(TypedConst::Bool(true)),
                    span,
                ),
            };
            if op == BinaryOp::Eq {
                (checked(all.kind, Type::Bool, None, span), st)
            } else {
                (checked(not_kind(all), Type::Bool, None, span), st)
            }
        },
    }
}

/// What [`same_nominal`] computes.
pub open spec fn same_nominal_spec(a: TypeView, b: TypeView) -> Option<Seq<char>>
{
    match (a, b) {
        (TypeView::Struct(x), TypeView::Struct(y)) => if x == y { Some(x) } else { None },
        (TypeView::Enum(x), TypeView::Enum(y)) => if x == y { Some(x) } else { None },
        _ => None,
    }
}

/// The name of a struct or enum that both types are.
pub fn same_nominal(a: &Type, b: &Type) -> (r: Option<String>)
    ensures
        (match &r { Some(v0) => Some(v0@), None => None }) == same_nominal_spec(a@, b@),
{
    match (a, b) {
        (Type::Struct(x), Type::Struct(y)) => if str_eq(x, y) { Some(x.clone()) } else { None },
        (Type::Enum(x), Type::Enum(y)) => if str_eq(x, y) { Some(x.clone()) } else { None },
        _ => None,
    }
}

/// What [`eq_hint`] computes.
pub open spec fn eq_hint_spec(kind: Seq<char>, name: Seq<char>, advice: Seq<char>) -> Seq<char>
{
    let head = kind + " '"@ + name + "' has no built-in `==` — declare `implement Eq for "@ + name
        + " { fn eq(self: "@ + name;
    head + ", other: "@ + name + ") -> bool { … } }` to define equality, or "@ + advice
}

pub fn eq_hint(kind: &str, name: &str, advice: &str) -> (r: String)
    ensures
        r@ == eq_hint_spec(kind@, name@, advice@),
{
    let head = cat7(
        kind,
        " '",
        name,
        "' has no built-in `==` — declare `implement Eq for ",
        name,
        " { fn eq(self: ",
        name,
    );
    cat5(&head, ", other: ", name, ") -> bool { … } }` to define equality, or ", advice)
}

/// What [`struct_name_of`] computes.
pub open spec fn struct_name_of_spec(t: TypeView) -> Option<Seq<char>>
{
    match t {
        TypeView::Struct(name) => Some(name),
        _ => None,
    }
}

pub fn struct_name_of(t: &Type) -> (r: Option<String>)
    ensures
        (match &r { Some(v0) => Some(v0@), None => None }) == struct_name_of_spec(t@),
{
    match t {
        Type::Struct(name) => Some(name.clone()),
        _ => None,
    }
}

/// What [`enum_name_of`] computes.
pub open spec fn enum_name_of_spec(t: TypeView) -> Option<Seq<char>>
{
    match t {
        TypeView::Enum(name) => Some(name),
        _ => None,
    }
}

pub fn enum_name_of(t: &Type) -> (r: Option<String>)
    ensures
        (match &r { Some(v0) => Some(v0@), None => None }) == enum_name_of_spec(t@),
{
    match t {
        Type::Enum(name) => Some(name.clone()),
        _ => None,
    }
}

/// What [`is_tuple`] computes.
pub open spec fn is_tuple_spec(t: TypeView) -> bool
{
    t is Tuple
}

pub fn is_tuple(t: &Type) -> (r: bool)
    ensures
        r == is_tuple_spec(t@),
{
    match t {
        Type::Tuple(_) => true,
        _ => false,
    }
}

/// What [`either_name`] computes.
pub open spec fn either_name_spec(a: Option<Seq<char>>, b: Option<Seq<char>>) -> Option<Seq<char>>
{
    match a {
        Some(name) => Some(name),
        None => b,
    }
}

pub fn either_name(a: Option<String>, b: Option<String>) -> (r: Option<String>)
    ensures
        (match &r { Some(v0) => Some(v0@), None => None }) == either_name_spec(
            (match &a { Some(v0) => Some(v0@), None => None }),
            (match &b { Some(v0) => Some(v0@), None => None }),
        ),
{
    match a {
        Some(name) => Some(name),
        None => b,
    }
}

/// What [`aggregate_equality_hint`] computes.
pub open spec fn aggregate_equality_hint_spec(a: TypeView, b: TypeView) -> Seq<char>
{
    match either_name_spec(struct_name_of_spec(a), struct_name_of_spec(b)) {
        Some(name) => eq_hint_spec("struct"@, name, "compare field-by-field"@),
        None => if is_tuple_spec(a) || is_tuple_spec(b) {
            "tuple `==` requires both operands to be tuples of the same shape — use matching arities and element types"@
        } else {
            match either_name_spec(enum_name_of_spec(a), enum_name_of_spec(b)) {
                Some(name) => eq_hint_spec("enum"@, name, "use `match` to discriminate"@),
                None => ""@,
            }
        },
    }
}

/// Why two operands, one of them an aggregate, cannot be compared.
pub fn aggregate_equality_hint(a: &Type, b: &Type) -> (r: String)
    ensures
        r@ == aggregate_equality_hint_spec(a@, b@),
{
    match either_name(struct_name_of(a), struct_name_of(b)) {
        Some(name) => eq_hint("struct", &name, "compare field-by-field"),
        None => if is_tuple(a) || is_tuple(b) {
            text(
                "tuple `==` requires both operands to be tuples of the same shape — use matching arities and element types",
            )
        } else {
            match either_name(enum_name_of(a), enum_name_of(b)) {
                Some(name) => eq_hint("enum", &name, "use `match` to discriminate"),
                None => text(""),
            }
        },
    }
}

/// What [`check_aggregate_equality`] computes.
pub open spec fn check_aggregate_equality_spec(
    op: BinaryOp,
    l: CheckedExprView,
    r: CheckedExprView,
    span: Span,
    cx: ContextView,
    st: StateView,
) -> (CheckedExprView, StateView)
{
    match same_nominal_spec(l.expr.ty, r.expr.ty) {
        Some(name) => if has_eq_spec(name, cx) {
            let call = eq_call_spec(name, l.expr, r.expr, span);
            if op == BinaryOp::Eq {
                (crate::scope::checked_spec(call, TypeView::Bool, None, span), st)
            } else {
                (
                    crate::scope::checked_spec(
                        not_kind_spec(crate::scope::typed_spec(call, TypeView::Bool, None, span)),
                        TypeView::Bool,
                        None,
                        span,
                    ),
                    st,
                )
            }
        } else {
            let message = aggregate_equality_hint_spec(l.expr.ty, r.expr.ty);
            (false_at_spec(span), crate::scope::report_spec(st, span, message))
        },
        None => {
            let message = aggregate_equality_hint_spec(l.expr.ty, r.expr.ty);
            (false_at_spec(span), crate::scope::report_spec(st, span, message))
        },
    }
}

/// `==` and `!=` on structs and enums.
pub fn check_aggregate_equality(
    op: BinaryOp,
    l: CheckedExpr,
    r: CheckedExpr,
    span: Span,
    cx: &Context,
    st: State,
) -> (res: (CheckedExpr, State))
    ensures
        (res.0@, res.1@) == check_aggregate_equality_spec(op, l@, r@, span, cx@, st@),
        crate::state::follows(st@, res.1@),
        crate::state::balanced(st@, res.1@),
        crate::state::same_facts(st@, res.1@),
        crate::typing::fits(l@, crate::typing::declared_in(cx@, st@.env))
            && crate::typing::fits(r@, crate::typing::declared_in(cx@, st@.env))
            && st@.env.scopes.len() > 0
            && crate::typing::quiet(st@, res.1@)
            ==> crate::typing::fits(res.0@, crate::typing::declared_in(cx@, st@.env)),
{
    proof {
        reveal(crate::typing::well_typed); reveal_with_fuel(crate::typing::well_typed, 2);
    }
    match same_nominal(&l.expr.ty, &r.expr.ty) {
        Some(name) => if has_eq(&name, cx) {
            let call = eq_call(&name, l.expr, r.expr, span);
            if op == BinaryOp::Eq {
                (checked(call, Type::Bool, None, span), st)
            } else {
                (checked(not_kind(typed(call, Type::Bool, None, span)), Type::Bool, None, span), st)
            }
        } else {
            let message = aggregate_equality_hint(&l.expr.ty, &r.expr.ty);
            (false_at(span), report(st, span, message))
        },
        None => {
            let message = aggregate_equality_hint(&l.expr.ty, &r.expr.ty);
            (false_at(span), report(st, span, message))
        },
    }
}

/// What [`check_bool_equality`] computes.
pub open spec fn check_bool_equality_spec(
    op: BinaryOp,
    l: CheckedExprView,
    r: CheckedExprView,
    span: Span,
    st: StateView,
) -> (CheckedExprView, StateView)
{
    let st = if !crate::types::is_bool_spec(l.expr.ty) || !crate::types::is_bool_spec(r.expr.ty) {
        let message = "equality operands must both be bool or both be numeric, got "@
            + crate::ast::type_text_spec(l.expr.ty) + " and "@
            + crate::ast::type_text_spec(r.expr.ty);
        crate::scope::report_spec(st, r.expr.span, message)
    } else {
        st
    };
    let constant = match (l.expr.constant, r.expr.constant) {
        (Some(TypedConstView::Bool(a)), Some(TypedConstView::Bool(b))) => Some(TypedConstView::Bool(
            if op == BinaryOp::Eq { a == b } else { a != b },
        )),
        _ => None,
    };
    (checked_binary_spec(op, l, r, TypeView::Bool, constant, span), st)
}

/// `==` and `!=` where an operand is a truth value.
pub fn check_bool_equality(
    op: BinaryOp,
    l: CheckedExpr,
    r: CheckedExpr,
    span: Span,
    st: State,
) -> (res: (CheckedExpr, State))
    ensures
        (res.0@, res.1@) == check_bool_equality_spec(op, l@, r@, span, st@),
        crate::state::follows(st@, res.1@),
        crate::state::balanced(st@, res.1@),
        crate::state::same_facts(st@, res.1@),
        forall|d: Declared|
            #![trigger crate::typing::fits(l@, d)]
            #![trigger crate::typing::fits(res.0@, d)]
            (op is Eq || op is Ne) && crate::typing::fits(l@, d) && crate::typing::fits(r@, d)
                && crate::typing::beside(d, st@.env) && crate::typing::quiet(st@, res.1@)
                ==> crate::typing::fits(res.0@, d),
{
    proof {
        reveal(crate::typing::well_typed);
    }
    let st = if !is_bool(&l.expr.ty) || !is_bool(&r.expr.ty) {
        let message = cat4(
            "equality operands must both be bool or both be numeric, got ",
            &type_text(&l.expr.ty),
            " and ",
            &type_text(&r.expr.ty),
        );
        report(st, r.expr.span, message)
    } else {
        st
    };
    let constant = match (&l.expr.constant, &r.expr.constant) {
        (Some(TypedConst::Bool(a)), Some(TypedConst::Bool(b))) => Some(TypedConst::Bool(
            if op == BinaryOp::Eq { *a == *b } else { *a != *b },
        )),
        _ => None,
    };
    (checked_binary(op, l, r, Type::Bool, constant, span), st)
}

/// What [`check_text_equality`] computes.
pub open spec fn check_text_equality_spec(
    op: BinaryOp,
    l: CheckedExprView,
    r: CheckedExprView,
    span: Span,
    st: StateView,
) -> (CheckedExprView, StateView)
{
    let st = if !crate::effects::is_text_type_spec(l.expr.ty)
        || !crate::effects::is_text_type_spec(r.expr.ty) {
        let message = "equality operands must both be Str or OwnedStr, got "@
            + crate::ast::type_text_spec(l.expr.ty) + " and "@
            + crate::ast::type_text_spec(r.expr.ty);
        crate::scope::report_spec(st, r.expr.span, message)
    } else {
        st
    };
    (checked_binary_spec(op, l, r, TypeView::Bool, None, span), st)
}

/// `==` and `!=` where an operand is a string.
pub fn check_text_equality(
    op: BinaryOp,
    l: CheckedExpr,
    r: CheckedExpr,
    span: Span,
    st: State,
) -> (res: (CheckedExpr, State))
    ensures
        (res.0@, res.1@) == check_text_equality_spec(op, l@, r@, span, st@),
        crate::state::follows(st@, res.1@),
        crate::state::balanced(st@, res.1@),
        crate::state::same_facts(st@, res.1@),
        forall|d: Declared|
            #![trigger crate::typing::fits(l@, d)]
            #![trigger crate::typing::fits(res.0@, d)]
            (op is Eq || op is Ne) && crate::typing::fits(l@, d) && crate::typing::fits(r@, d)
                && crate::typing::beside(d, st@.env) && crate::typing::quiet(st@, res.1@)
                ==> crate::typing::fits(res.0@, d),
{
    proof {
        reveal(crate::typing::well_typed);
    }
    let st = if !is_text_type(&l.expr.ty) || !is_text_type(&r.expr.ty) {
        let message = cat4(
            "equality operands must both be Str or OwnedStr, got ",
            &type_text(&l.expr.ty),
            " and ",
            &type_text(&r.expr.ty),
        );
        report(st, r.expr.span, message)
    } else {
        st
    };
    (checked_binary(op, l, r, Type::Bool, None, span), st)
}

/// What [`same_tuple`] computes.
pub open spec fn same_tuple_spec(a: TypeView, b: TypeView) -> Option<Seq<TypeView>>
{
    match (a, b) {
        (TypeView::Tuple(xs), TypeView::Tuple(ys)) => if xs == ys { Some((xs)) } else { None },
        _ => None,
    }
}

/// The element types of two tuples of the same type.
pub fn same_tuple(a: &Type, b: &Type) -> (r: Option<Vec<Type>>)
    ensures
        (match &r { Some(v0) => Some(crate::ast::types_view(v0@)), None => None }) == same_tuple_spec(
            a@,
            b@,
        ),
{
    match (a, b) {
        (
            Type::Tuple(xs),
            Type::Tuple(ys),
        ) => if types_eq(xs, ys) { Some(dup_types(xs)) } else { None },
        _ => None,
    }
}

/// What [`check_equality`] computes.
pub open spec fn check_equality_spec(
    op: BinaryOp,
    l: CheckedExprView,
    r: CheckedExprView,
    span: Span,
    cx: ContextView,
    st: StateView,
) -> (CheckedExprView, StateView)
{
    if crate::types::is_bool_spec(l.expr.ty) || crate::types::is_bool_spec(r.expr.ty) {
        check_bool_equality_spec(op, l, r, span, st)
    } else if crate::effects::is_text_type_spec(l.expr.ty) || crate::effects::is_text_type_spec(r.expr.ty) {
        check_text_equality_spec(op, l, r, span, st)
    } else if is_aggregate_spec(l.expr.ty) || is_aggregate_spec(r.expr.ty) {
        match same_tuple_spec(l.expr.ty, r.expr.ty) {
            Some(elements) => check_tuple_equality_spec(op, l, r, elements, span, cx, st),
            None => check_aggregate_equality_spec(op, l, r, span, cx, st),
        }
    } else {
        check_numeric_comparison_spec(op, l, r, span, st)
    }
}

/// `==` and `!=`: on booleans, on strings, element by element on tuples,
/// through a declared function on structs and enums, and on numbers.
pub fn check_equality(
    op: BinaryOp,
    l: CheckedExpr,
    r: CheckedExpr,
    span: Span,
    cx: &Context,
    st: State,
) -> (res: (CheckedExpr, State))
    ensures
        (res.0@, res.1@) == check_equality_spec(op, l@, r@, span, cx@, st@),
        crate::state::follows(st@, res.1@),
        crate::state::balanced(st@, res.1@),
        crate::state::same_facts(st@, res.1@),
        (op is Eq || op is Ne) && crate::typing::fits(l@, crate::typing::declared_in(cx@, st@.env))
            && crate::typing::fits(r@, crate::typing::declared_in(cx@, st@.env))
            && st@.env.scopes.len() > 0
            && crate::typing::quiet(st@, res.1@)
            ==> crate::typing::fits(res.0@, crate::typing::declared_in(cx@, st@.env)),
{
    proof {
        reveal(crate::typing::well_typed);
    }
    if is_bool(&l.expr.ty) || is_bool(&r.expr.ty) {
        check_bool_equality(op, l, r, span, st)
    } else if is_text_type(&l.expr.ty) || is_text_type(&r.expr.ty) {
        check_text_equality(op, l, r, span, st)
    } else if is_aggregate(&l.expr.ty) || is_aggregate(&r.expr.ty) {
        match same_tuple(&l.expr.ty, &r.expr.ty) {
            Some(elements) => check_tuple_equality(op, &l, &r, &elements, span, cx, st),
            None => check_aggregate_equality(op, l, r, span, cx, st),
        }
    } else {
        check_numeric_comparison(op, l, r, span, st)
    }
}

/// What [`check_operands`] computes.
pub open spec fn check_operands_spec(
    op: BinaryOp,
    l: CheckedExprView,
    r: CheckedExprView,
    left: ExprView,
    right: ExprView,
    cx: ContextView,
    st: StateView,
) -> (CheckedExprView, StateView)
{
    let span = merge_spans_spec(left.span, right.span);
    let texts = crate::effects::is_text_type_spec(l.expr.ty)
        && crate::effects::is_text_type_spec(r.expr.ty);
    match op {
        BinaryOp::Add => if texts {
            check_str_concat_spec(l, r, span, left, right, st)
        } else {
            check_numeric_binary_spec(op, l, r, span, st)
        },
        BinaryOp::Sub | BinaryOp::Mul | BinaryOp::Div => check_numeric_binary_spec(
            op,
            l,
            r,
            span,
            st,
        ),
        BinaryOp::Rem => check_integer_remainder_spec(l, r, span, st),
        BinaryOp::Shl | BinaryOp::Shr => check_shift_spec(op, l, r, span, st),
        BinaryOp::BitAnd | BinaryOp::BitOr | BinaryOp::BitXor => check_integer_bitwise_spec(
            op,
            l,
            r,
            span,
            st,
        ),
        BinaryOp::Lt | BinaryOp::Le | BinaryOp::Gt | BinaryOp::Ge => if texts {
            (checked_binary_spec(op, l, r, TypeView::Bool, None, span), st)
        } else {
            check_numeric_comparison_spec(op, l, r, span, st)
        },
        BinaryOp::Eq | BinaryOp::Ne => check_equality_spec(op, l, r, span, cx, st),
        BinaryOp::And | BinaryOp::Or => check_boolean_binary_spec(op, l, r, span, st),
    }
}

/// A binary operation on two checked operands.
pub fn check_operands(
    op: BinaryOp,
    l: CheckedExpr,
    r: CheckedExpr,
    left: &Expr,
    right: &Expr,
    cx: &Context,
    st: State,
) -> (res: (CheckedExpr, State))
    ensures
        (res.0@, res.1@) == check_operands_spec(op, l@, r@, left@, right@, cx@, st@),
        crate::state::follows(st@, res.1@),
        crate::state::balanced(st@, res.1@),
        crate::state::same_facts(st@, res.1@),
        crate::typing::fits(l@, crate::typing::declared_in(cx@, st@.env))
            && crate::typing::fits(r@, crate::typing::declared_in(cx@, st@.env))
            && st@.env.scopes.len() > 0
            && crate::typing::quiet(st@, res.1@)
            ==> crate::typing::fits(res.0@, crate::typing::declared_in(cx@, st@.env)),
{
    proof {
        reveal(crate::typing::well_typed);
    }
    let span = merge_spans(left.span, right.span);
    let texts = is_text_type(&l.expr.ty) && is_text_type(&r.expr.ty);
    match op {
        BinaryOp::Add => if texts {
            check_str_concat(l, r, span, left, right, st)
        } else {
            check_numeric_binary(op, l, r, span, st)
        },
        BinaryOp::Sub | BinaryOp::Mul | BinaryOp::Div => check_numeric_binary(op, l, r, span, st),
        BinaryOp::Rem => check_integer_remainder(l, r, span, st),
        BinaryOp::Shl | BinaryOp::Shr => check_shift(op, l, r, span, st),
        BinaryOp::BitAnd | BinaryOp::BitOr | BinaryOp::BitXor => check_integer_bitwise(
            op,
            l,
            r,
            span,
            st,
        ),
        BinaryOp::Lt | BinaryOp::Le | BinaryOp::Gt | BinaryOp::Ge => if texts {
            (checked_binary(op, l, r, Type::Bool, None, span), st)
        } else {
            check_numeric_comparison(op, l, r, span, st)
        },
        BinaryOp::Eq | BinaryOp::Ne => check_equality(op, l, r, span, cx, st),
        BinaryOp::And | BinaryOp::Or => check_boolean_binary(op, l, r, span, st),
    }
}

/// What [`borrowed_field`] computes.
pub open spec fn borrowed_field_spec(
    base: Seq<char>,
    base_span: Span,
    field: Seq<char>,
    inner_span: Span,
    env: EnvView,
) -> Result<(VarInfoView, u32, TypeView), (Span, Seq<char>)>
{
    match crate::scope::lookup_spec(env, base) {
        None => Err((base_span, "unknown variable '"@ + base + "'"@)),
        Some(info) => match struct_name_of_spec(crate::types::deref_spec(info.ty)) {
            None => Err((
                base_span,
                "field-borrow base '"@ + base + "' must be a struct binding (got "@
                    + crate::ast::type_text_spec(info.ty) + ")"@,
            )),
            Some(struct_name) => match crate::scope::lookup_struct_spec(env, struct_name) {
                None => Err((base_span, "unknown struct type '"@ + struct_name + "'"@)),
                Some(decl) => match crate::scope::find_field_spec(decl.fields, field, None, 0) {
                    None => Err((
                        inner_span,
                        "struct '"@ + struct_name + "' has no field named '"@ + field + "'"@,
                    )),
                    Some((k, t)) => Ok((info, k, t)),
                },
            },
        },
    }
}

/// What a borrow of a field stands for: the binding, the field's position and
/// its type; or why there is none.
pub fn borrowed_field(
    base: &str,
    base_span: Span,
    field: &str,
    inner_span: Span,
    env: &Env,
) -> (r: Result<(VarInfo, u32, Type), (Span, String)>)
    ensures
        (match &r { Ok(v0) => Ok((v0.0@, v0.1, v0.2@)), Err(v0) => Err((v0.0, v0.1@)) }) == borrowed_field_spec(
            base@,
            base_span,
            field@,
            inner_span,
            env@,
        ),
{
    match lookup(env, base) {
        None => Err((base_span, cat3("unknown variable '", base, "'"))),
        Some(info) => match struct_name_of(&deref(&info.ty)) {
            None => Err((
                base_span,
                cat5(
                    "field-borrow base '",
                    base,
                    "' must be a struct binding (got ",
                    &type_text(&info.ty),
                    ")",
                ),
            )),
            Some(struct_name) => match lookup_struct(env, &struct_name) {
                None => Err((base_span, cat3("unknown struct type '", &struct_name, "'"))),
                Some(decl) => match find_field(&decl.fields, field, None) {
                    None => Err((
                        inner_span,
                        cat5("struct '", &struct_name, "' has no field named '", field, "'"),
                    )),
                    Some((k, t)) => Ok((info, k, t)),
                },
            },
        },
    }
}

/// What [`check_ref_mut_field`] computes.
pub open spec fn check_ref_mut_field_spec(
    base: Seq<char>,
    base_span: Span,
    field: Seq<char>,
    inner_span: Span,
    span: Span,
    st: StateView,
) -> (CheckedExprView, StateView)
{
    match borrowed_field_spec(base, base_span, field, inner_span, st.env) {
        Err((at, message)) => (
            crate::scope::fallback_integer_spec(span),
            crate::scope::report_spec(st, at, message),
        ),
        Ok((info, k, t)) => {
            let st = if info.moved.is_some() {
                crate::scope::report_spec(
                    st,
                    inner_span,
                    "cannot mutably borrow field of '"@ + base + "' after it was moved"@,
                )
            } else {
                st
            };
            let st = if crate::types::is_ref_spec(info.ty) {
                let message = "cannot take 'mut ref' on a field of '"@ + base
                    + "' because the base is borrowed immutably (&T)"@;
                crate::scope::report_spec(st, inner_span, message)
            } else {
                st
            };
            let kind = TypedExprKindView::RefMutField {
                object: base,
                field: field,
                field_index: k,
                object_ty: info.ty,
            };
            (crate::scope::checked_spec(kind, ref_mut_of_spec(t), None, span), st)
        },
    }
}

/// `mut ref x.f`.
pub fn check_ref_mut_field(
    base: &str,
    base_span: Span,
    field: &str,
    inner_span: Span,
    span: Span,
    st: State,
) -> (r: (CheckedExpr, State))
    ensures
        (r.0@, r.1@) == check_ref_mut_field_spec(base@, base_span, field@, inner_span, span, st@),
        crate::state::follows(st@, r.1@),
        crate::state::balanced(st@, r.1@),
        crate::state::same_facts(st@, r.1@),
        forall|d: Declared|
            #![trigger crate::typing::fits(r.0@, d)]
            crate::typing::beside(d, st@.env) && crate::typing::quiet(st@, r.1@)
                ==> crate::typing::fits(r.0@, d),
{
    proof {
        reveal(crate::typing::well_typed);
    }
    match borrowed_field(base, base_span, field, inner_span, &st.env) {
        Err((at, message)) => (fallback_integer(span), report(st, at, message)),
        Ok((info, k, t)) => {
            let st = if info.moved.is_some() {
                report(
                    st,
                    inner_span,
                    cat3("cannot mutably borrow field of '", base, "' after it was moved"),
                )
            } else {
                st
            };
            let st = if is_ref(&info.ty) {
                let message = cat3(
                    "cannot take 'mut ref' on a field of '",
                    base,
                    "' because the base is borrowed immutably (&T)",
                );
                report(st, inner_span, message)
            } else {
                st
            };
            let kind = TypedExprKind::RefMutField {
                object: text(base),
                field: text(field),
                field_index: k,
                object_ty: info.ty,
            };
            (checked(kind, ref_mut_of(t), None, span), st)
        },
    }
}

/// What [`check_ref_field`] computes.
pub open spec fn check_ref_field_spec(
    base: Seq<char>,
    base_span: Span,
    field: Seq<char>,
    inner_span: Span,
    span: Span,
    st: StateView,
) -> (CheckedExprView, StateView)
{
    match borrowed_field_spec(base, base_span, field, inner_span, st.env) {
        Err((at, message)) => (
            crate::scope::fallback_integer_spec(span),
            crate::scope::report_spec(st, at, message),
        ),
        Ok((info, k, t)) => {
            let st = if info.moved.is_some() {
                crate::scope::report_spec(
                    st,
                    inner_span,
                    "cannot borrow field of '"@ + base + "' after it was moved"@,
                )
            } else {
                st
            };
            let kind = TypedExprKindView::RefField {
                object: base,
                field: field,
                field_index: k,
                object_ty: info.ty,
            };
            (crate::scope::checked_spec(kind, ref_of_spec(t), None, span), st)
        },
    }
}

/// `ref x.f`.
pub fn check_ref_field(
    base: &str,
    base_span: Span,
    field: &str,
    inner_span: Span,
    span: Span,
    st: State,
) -> (r: (CheckedExpr, State))
    ensures
        (r.0@, r.1@) == check_ref_field_spec(base@, base_span, field@, inner_span, span, st@),
        crate::state::follows(st@, r.1@),
        crate::state::balanced(st@, r.1@),
        crate::state::same_facts(st@, r.1@),
        forall|d: Declared|
            #![trigger crate::typing::fits(r.0@, d)]
            crate::typing::beside(d, st@.env) && crate::typing::quiet(st@, r.1@)
                ==> crate::typing::fits(r.0@, d),
{
    proof {
        reveal(crate::typing::well_typed);
    }
    match borrowed_field(base, base_span, field, inner_span, &st.env) {
        Err((at, message)) => (fallback_integer(span), report(st, at, message)),
        Ok((info, k, t)) => {
            let st = if info.moved.is_some() {
                report(
                    st,
                    inner_span,
                    cat3("cannot borrow field of '", base, "' after it was moved"),
                )
            } else {
                st
            };
            let kind = TypedExprKind::RefField {
                object: text(base),
                field: text(field),
                field_index: k,
                object_ty: info.ty,
            };
            (checked(kind, ref_of(t), None, span), st)
        },
    }
}

/// What [`field_of_var`] computes.
pub open spec fn field_of_var_spec(e: ExprView) -> Option<(Seq<char>, Span, Seq<char>)>
{
    match e.kind {
        ExprKindView::FieldAccess { object, field } => match object.kind {
            ExprKindView::Var(name) => Some((name, object.span, field)),
            _ => None,
        },
        _ => None,
    }
}

/// A field of a variable, as the operand of a borrow.
pub fn field_of_var(e: &Expr) -> (r: Option<(String, Span, String)>)
    ensures
        (match &r { Some(v0) => Some((v0.0@, v0.1, v0.2@)), None => None }) == field_of_var_spec(e@),
{
    proof {
        reveal_with_fuel(crate::ast::expr_view, 4);
        reveal_with_fuel(crate::ast::expr_kind_view, 4);
        reveal_with_fuel(crate::ast::stmt_view, 3);
        reveal_with_fuel(crate::ast::exprs_view, 3);
        reveal_with_fuel(crate::ast::stmts_view, 3);
        reveal_with_fuel(crate::ast::arms_view, 3);
        reveal_with_fuel(crate::ast::match_arm_view, 3);
    }
    match &e.kind {
        ExprKind::FieldAccess { object, field } => match &object.kind {
            ExprKind::Var(name) => Some((name.clone(), object.span, field.clone())),
            _ => None,
        },
        _ => None,
    }
}

/// What [`check_ref_mut`] computes.
pub open spec fn check_ref_mut_spec(
    inner: ExprView,
    span: Span,
    st: StateView,
) -> (CheckedExprView, StateView)
{
    match field_of_var_spec(inner) {
        Some((base, base_span, field)) => check_ref_mut_field_spec(
            base,
            base_span,
            field,
            inner.span,
            span,
            st,
        ),
        None => match inner.kind {
            ExprKindView::Var(name) => match crate::scope::lookup_spec(st.env, name) {
                None => (
                    crate::scope::fallback_integer_spec(span),
                    crate::scope::report_spec(st, inner.span, "unknown variable '"@ + name + "'"@),
                ),
                Some(info) => {
                    let st = if info.moved.is_some() {
                        crate::scope::report_spec(
                            st,
                            inner.span,
                            "cannot mutably borrow '"@ + name + "' after it was moved"@,
                        )
                    } else {
                        st
                    };
                    let st = if crate::types::is_ref_spec(info.ty) {
                        let message = "cannot take '&mut' on '"@ + name
                            + "' because it is borrowed immutably (&T); only owned bindings or '&mut T' parameters can be mutably borrowed"@;
                        crate::scope::report_spec(st, inner.span, message)
                    } else {
                        st
                    };
                    let borrow = crate::scope::checked_spec(
                        TypedExprKindView::RefMut { name: name },
                        ref_mut_of_spec(info.ty),
                        None,
                        span,
                    );
                    (crate::scope::with_decl_spec(borrow, info.decl_span), st)
                },
            },
            _ => {
                let message = "'mut ref' can only borrow a named variable or a struct field; e.g. `mut ref xs` or `mut ref t.field`"@;
                (
                    crate::scope::fallback_integer_spec(span),
                    crate::scope::report_spec(st, inner.span, message),
                )
            },
        },
    }
}

/// `mut ref e`.
pub fn check_ref_mut(inner: &Expr, span: Span, st: State) -> (r: (CheckedExpr, State))
    ensures
        (r.0@, r.1@) == check_ref_mut_spec(inner@, span, st@),
        crate::state::follows(st@, r.1@),
        crate::state::balanced(st@, r.1@),
        crate::state::same_facts(st@, r.1@),
        forall|d: Declared|
            #![trigger crate::typing::fits(r.0@, d)]
            crate::typing::beside(d, st@.env) && crate::typing::quiet(st@, r.1@)
                ==> crate::typing::fits(r.0@, d),
{
    proof {
        reveal(crate::typing::well_typed);
    }
    match field_of_var(inner) {
        Some((base, base_span, field)) => check_ref_mut_field(
            &base,
            base_span,
            &field,
            inner.span,
            span,
            st,
        ),
        None => match &inner.kind {
            ExprKind::Var(name) => match lookup(&st.env, name) {
                None => (
                    fallback_integer(span),
                    report(st, inner.span, cat3("unknown variable '", name, "'")),
                ),
                Some(info) => {
                    let st = if info.moved.is_some() {
                        report(
                            st,
                            inner.span,
                            cat3("cannot mutably borrow '", name, "' after it was moved"),
                        )
                    } else {
                        st
                    };
                    let st = if is_ref(&info.ty) {
                        let message = cat3(
                            "cannot take '&mut' on '",
                            name,
                            "' because it is borrowed immutably (&T); only owned bindings or '&mut T' parameters can be mutably borrowed",
                        );
                        report(st, inner.span, message)
                    } else {
                        st
                    };
                    let borrow = checked(
                        TypedExprKind::RefMut { name: name.clone() },
                        ref_mut_of(info.ty),
                        None,
                        span,
                    );
                    (with_decl(borrow, info.decl_span), st)
                },
            },
            _ => {
                let message = text(
                    "'mut ref' can only borrow a named variable or a struct field; e.g. `mut ref xs` or `mut ref t.field`",
                );
                (fallback_integer(span), report(st, inner.span, message))
            },
        },
    }
}

/// What [`check_ref`] computes.
pub open spec fn check_ref_spec(
    inner: ExprView,
    span: Span,
    st: StateView,
) -> (CheckedExprView, StateView)
{
    match field_of_var_spec(inner) {
        Some((base, base_span, field)) => check_ref_field_spec(
            base,
            base_span,
            field,
            inner.span,
            span,
            st,
        ),
        None => match inner.kind {
            ExprKindView::Var(name) => match crate::scope::lookup_spec(st.env, name) {
                None => (
                    crate::scope::fallback_integer_spec(span),
                    crate::scope::report_spec(st, inner.span, "unknown variable '"@ + name + "'"@),
                ),
                Some(info) => {
                    let st = if info.moved.is_some() {
                        crate::scope::report_spec(
                            st,
                            inner.span,
                            "cannot borrow '"@ + name + "' after it was moved"@,
                        )
                    } else {
                        st
                    };
                    let st = if crate::types::is_ref_spec(info.ty) {
                        crate::scope::report_spec(
                            st,
                            inner.span,
                            "cannot create a reference to a reference"@,
                        )
                    } else {
                        st
                    };
                    let borrow = crate::scope::checked_spec(
                        TypedExprKindView::Ref { name: name },
                        ref_of_spec(info.ty),
                        None,
                        span,
                    );
                    (crate::scope::with_decl_spec(borrow, info.decl_span), st)
                },
            },
            _ => {
                let message = "'ref' can only borrow a named variable or a struct field; e.g. `ref xs` or `ref t.field`"@;
                (
                    crate::scope::fallback_integer_spec(span),
                    crate::scope::report_spec(st, inner.span, message),
                )
            },
        },
    }
}

/// `ref e`.
pub fn check_ref(inner: &Expr, span: Span, st: State) -> (r: (CheckedExpr, State))
    ensures
        (r.0@, r.1@) == check_ref_spec(inner@, span, st@),
        crate::state::follows(st@, r.1@),
        crate::state::balanced(st@, r.1@),
        crate::state::same_facts(st@, r.1@),
        forall|d: Declared|
            #![trigger crate::typing::fits(r.0@, d)]
            crate::typing::beside(d, st@.env) && crate::typing::quiet(st@, r.1@)
                ==> crate::typing::fits(r.0@, d),
{
    proof {
        reveal(crate::typing::well_typed);
    }
    match field_of_var(inner) {
        Some((base, base_span, field)) => check_ref_field(
            &base,
            base_span,
            &field,
            inner.span,
            span,
            st,
        ),
        None => match &inner.kind {
            ExprKind::Var(name) => match lookup(&st.env, name) {
                None => (
                    fallback_integer(span),
                    report(st, inner.span, cat3("unknown variable '", name, "'")),
                ),
                Some(info) => {
                    let st = if info.moved.is_some() {
                        report(
                            st,
                            inner.span,
                            cat3("cannot borrow '", name, "' after it was moved"),
                        )
                    } else {
                        st
                    };
                    let st = if is_ref(&info.ty) {
                        report(st, inner.span, text("cannot create a reference to a reference"))
                    } else {
                        st
                    };
                    let borrow = checked(
                        TypedExprKind::Ref { name: name.clone() },
                        ref_of(info.ty),
                        None,
                        span,
                    );
                    (with_decl(borrow, info.decl_span), st)
                },
            },
            _ => {
                let message = text(
                    "'ref' can only borrow a named variable or a struct field; e.g. `ref xs` or `ref t.field`",
                );
                (fallback_integer(span), report(st, inner.span, message))
            },
        },
    }
}

/// The equality of two tuples compares well-typed elements.
proof fn tuple_equality_fits(
    ts: Seq<TypeView>,
    l: TypedExprView,
    r: TypedExprView,
    span: Span,
    cx: ContextView,
    d: Declared,
    chain: Option<TypedExprView>,
    missing: Option<int>,
    i: int,
)
    requires
        0 <= i <= ts.len(),
        crate::typing::well_typed(l, d),
        crate::typing::well_typed(r, d),
        l.ty == TypeView::Tuple(ts),
        r.ty == TypeView::Tuple(ts),
        chain matches Some(e) ==> crate::typing::well_typed(e, d) && e.ty == TypeView::Bool,
    ensures
        tuple_equality_spec(ts, l, r, span, cx, chain, missing, i).0 matches Some(e)
            ==> crate::typing::well_typed(e, d)
            && e.ty == TypeView::Bool,
    decreases ts.len() - i,
{
    if i < ts.len() && missing is None {
        reveal(crate::typing::well_typed);
        let x = tuple_element_spec(l, i as u32, ts[i], span);
        let y = tuple_element_spec(r, i as u32, ts[i], span);
        assert(crate::typing::well_typed(x, d) && crate::typing::well_typed(y, d));
        match element_equality_spec(l, r, i as u32, ts[i], span, cx) {
            None => tuple_equality_fits(ts, l, r, span, cx, d, chain, Some(i), i + 1),
            Some(e) => {
                assert(crate::typing::well_typed(e, d));
                let next = match chain {
                    None => e,
                    Some(before) => crate::scope::typed_spec(
                        binary_kind_spec(BinaryOp::And, before, e, true),
                        TypeView::Bool,
                        None,
                        span,
                    ),
                };
                assert(crate::typing::well_typed(next, d));
                tuple_equality_fits(ts, l, r, span, cx, d, Some(next), None, i + 1);
            },
        }
    }
}

/// So is the comparison as a whole.
proof fn compared_tuples_fit(
    op: BinaryOp,
    l: CheckedExprView,
    r: CheckedExprView,
    ts: Seq<TypeView>,
    span: Span,
    cx: ContextView,
    d: Declared,
    st: StateView,
)
    requires
        crate::typing::fits(l, d),
        crate::typing::fits(r, d),
        l.expr.ty == TypeView::Tuple(ts),
        r.expr.ty == TypeView::Tuple(ts),
    ensures
        crate::typing::fits(check_tuple_equality_spec(op, l, r, ts, span, cx, st).0, d),
{
    tuple_equality_fits(ts, l.expr, r.expr, span, cx, d, None, None, 0);
    let (chain, missing) = tuple_equality_spec(ts, l.expr, r.expr, span, cx, None, None, 0);
    reveal(crate::typing::well_typed);
    if missing is None {
        let all = match chain {
            Some(e) => e,
            None => crate::scope::typed_spec(
                TypedExprKindView::Bool(true),
                TypeView::Bool,
                Some(TypedConstView::Bool(true)),
                span,
            ),
        };
        assert(crate::typing::well_typed(all, d));
    }
}

/// What a comparison means on numbers.
pub open spec fn is_so(op: BinaryOp, a: int, b: int) -> bool {
    match op {
        BinaryOp::Lt => a < b,
        BinaryOp::Le => a <= b,
        BinaryOp::Gt => a > b,
        BinaryOp::Ge => a >= b,
        BinaryOp::Eq => a == b,
        BinaryOp::Ne => a != b,
        _ => false,
    }
}

pub open spec fn is_comparison(op: BinaryOp) -> bool {
    op is Lt || op is Le || op is Gt || op is Ge || op is Eq || op is Ne
}

/// What an operation means on truth values.
pub open spec fn is_true_of(op: BinaryOp, a: bool, b: bool) -> bool {
    match op {
        BinaryOp::And => a && b,
        BinaryOp::Or => a || b,
        BinaryOp::Eq => a == b,
        BinaryOp::Ne => a != b,
        _ => false,
    }
}

/// Whether a folded constant is what the operation makes of its operands.
pub open spec fn folds_to(
    op: BinaryOp,
    l: Option<TypedConstView>,
    r: Option<TypedConstView>,
    c: Option<TypedConstView>,
) -> bool {
    match (l, r) {
        (Some(TypedConstView::Int(a)), Some(TypedConstView::Int(b))) => if is_comparison(op) {
            c == Some(TypedConstView::Bool(is_so(op, a as int, b as int)))
        } else {
            c matches Some(k) ==> (k matches TypedConstView::Int(v) ==> crate::numeric::is_result(op, a, b, v))
                && !(k is Bool)
        },
        (Some(TypedConstView::Float(a)), Some(TypedConstView::Float(b))) => is_comparison(op)
            ==> c == Some(
            TypedConstView::Bool(is_so(op, float_key(a), float_key(b))),
        ),
        (Some(TypedConstView::Bool(a)), Some(TypedConstView::Bool(b))) => c == Some(
            TypedConstView::Bool(is_true_of(op, a, b)),
        ) || !(op is And || op is Or || op is Eq || op is Ne),
        (Some(_), Some(_)) => true,
        _ => c is None,
    }
}

/// An operand, or its conversion to the type of the operation.
pub open spec fn stands_for(e: TypedExprView, operand: TypedExprView) -> bool {
    e == operand
        || (e.kind matches TypedExprKindView::Cast { expr, ty } && *expr == operand && e.ty == ty)
}

/// Whether an operation is lowered to itself on its operands, with the constant
/// that it makes of theirs, or something was reported.
pub open spec fn lowered_as_written(
    op: BinaryOp,
    l: CheckedExprView,
    r: CheckedExprView,
    st: StateView,
    result: (CheckedExprView, StateView),
) -> bool {
    result.1.diagnostics.len() > st.diagnostics.len()
        || (result.0.expr.kind matches TypedExprKindView::Binary {
        op: o,
        left,
        right,
        ..
    } && o == op && stands_for(*left, l.expr) && stands_for(*right, r.expr) && folds_to(
        op,
        left.constant,
        right.constant,
        result.0.expr.constant,
    ))
}

proof fn operand_is_kept(c: CheckedExprView, t: TypeView, st: StateView)
    ensures
        stands_for(crate::numeric::coerce_numeric_operand_spec(c, t, st).0.expr, c.expr),
{
    reveal(crate::numeric::coerce_numeric_operand_spec);
}

proof fn numbers_are_folded(
    op: BinaryOp,
    l: Option<TypedConstView>,
    r: Option<TypedConstView>,
    t: TypeView,
    span: Span,
    at: Span,
    st: StateView,
)
    requires
        !is_comparison(op),
        !(op is And || op is Or),
        op is Add || op is Sub || op is Mul || op is Div || op is Rem || op is BitAnd || op is BitOr
            || op is BitXor,
    ensures
        folds_to(op, l, r, fold_integer_spec(op, l, r, t, at, st).0),
        folds_to(op, l, r, fold_numeric_spec(op, l, r, t, span, at, st).0),
{
    if let Some(TypedConstView::Int(a)) = l {
        if let Some(TypedConstView::Int(b)) = r {
            crate::numeric::folded_operation_means_its_operator(op, a, b);
        }
    }
}

proof fn nothing_is_folded(op: BinaryOp, l: Option<TypedConstView>, r: Option<TypedConstView>)
    requires
        !is_comparison(op),
        !(op is And || op is Or),
    ensures
        folds_to(op, l, r, None),
{
}

proof fn arithmetic_is_lowered(
    op: BinaryOp,
    l: CheckedExprView,
    r: CheckedExprView,
    span: Span,
    st: StateView,
)
    ensures
        op is Add || op is Sub || op is Mul || op is Div ==> lowered_as_written(
            op,
            l,
            r,
            st,
            check_numeric_binary_spec(op, l, r, span, st),
        ),
        op is Rem
            ==> lowered_as_written(op, l, r, st, check_integer_remainder_spec(l, r, span, st)),
        op is BitAnd || op is BitOr || op is BitXor ==> lowered_as_written(
            op,
            l,
            r,
            st,
            check_integer_bitwise_spec(op, l, r, span, st),
        ),
{
    let (p, s) = crate::numeric::promoted_numeric_type_spec(l, r, st);
    let (q, u) = crate::numeric::promoted_integer_type_spec(l, r, st);
    assert(p is None ==> s.diagnostics.len() > st.diagnostics.len()) by {
        reveal(crate::numeric::promoted_numeric_type_spec);
        reveal(crate::numeric::promoted_integer_type_spec);
    }
    assert(q is None ==> u.diagnostics.len() > st.diagnostics.len()) by {
        reveal(crate::numeric::promoted_integer_type_spec);
    }
    if op is Add || op is Sub || op is Mul || op is Div {
        if let Some(t) = p {
            let (a, s1) = crate::numeric::coerce_numeric_operand_spec(l, t, s);
            let (b, s2) = crate::numeric::coerce_numeric_operand_spec(r, t, s1);
            operand_is_kept(l, t, s);
            operand_is_kept(r, t, s1);
            numbers_are_folded(op, a.expr.constant, b.expr.constant, t, span, b.expr.span, s2);
            nothing_is_folded(op, a.expr.constant, b.expr.constant);
        }
    }
    if op is Rem || op is BitAnd || op is BitOr || op is BitXor {
        if let Some(t) = q {
            let (a, s1) = crate::numeric::coerce_numeric_operand_spec(l, t, u);
            let (b, s2) = crate::numeric::coerce_numeric_operand_spec(r, t, s1);
            operand_is_kept(l, t, u);
            operand_is_kept(r, t, s1);
            numbers_are_folded(op, a.expr.constant, b.expr.constant, t, span, b.expr.span, s2);
            numbers_are_folded(op, a.expr.constant, b.expr.constant, t, span, span, s2);
            nothing_is_folded(op, a.expr.constant, b.expr.constant);
        }
    }
}

proof fn shift_is_lowered(
    op: BinaryOp,
    l: CheckedExprView,
    r: CheckedExprView,
    span: Span,
    st: StateView,
)
    requires
        op is Shl || op is Shr,
    ensures
        lowered_as_written(op, l, r, st, check_shift_spec(op, l, r, span, st)),
{
    nothing_is_folded(op, l.expr.constant, r.expr.constant);
    assert forall|a: i128, n: u32, t: TypeView, s: StateView|
        (#[trigger] crate::numeric::eval_shift_spec(op, a, n, t, span, s)).0 matches Some(c)
            implies (crate::numeric::eval_shift_spec(
        op,
        a,
        n,
        t,
        span,
        s,
    ).0->0 matches TypedConstView::Int(v) && crate::numeric::is_result(op, a, n as i128, v)) by {
        crate::numeric::folded_shift_moves_bits(op, a, n, t, span, s);
    }
}

proof fn comparison_is_lowered(
    op: BinaryOp,
    l: CheckedExprView,
    r: CheckedExprView,
    span: Span,
    st: StateView,
)
    requires
        is_comparison(op),
    ensures
        lowered_as_written(op, l, r, st, check_numeric_comparison_spec(op, l, r, span, st))
            || (l.expr.constant matches Some(c) && c is Bool)
            || (r.expr.constant matches Some(c) && c is Bool),
{
    let (p, s) = crate::numeric::promoted_numeric_type_spec(l, r, st);
    assert(p is None ==> s.diagnostics.len() > st.diagnostics.len()) by {
        reveal(crate::numeric::promoted_numeric_type_spec);
        reveal(crate::numeric::promoted_integer_type_spec);
    }
    if let Some(t) = p {
        let (a, s1) = crate::numeric::coerce_numeric_operand_spec(l, t, s);
        operand_is_kept(l, t, s);
        operand_is_kept(r, t, s1);
        reveal(crate::numeric::coerce_numeric_operand_spec);
    }
}

/// An operation on truth values, numbers or strings is lowered to the same
/// operation on the same operands in the same order, and its constant is what
/// the operation means on theirs; otherwise it is reported. Only truth values
/// have a truth value as their constant, and text has none.
pub proof fn operations_are_lowered_as_written(
    op: BinaryOp,
    l: CheckedExprView,
    r: CheckedExprView,
    left: ExprView,
    right: ExprView,
    cx: ContextView,
    st: StateView,
)
    requires
        !(op is Eq || op is Ne) || !(is_aggregate_spec(l.expr.ty) || is_aggregate_spec(r.expr.ty)),
        l.expr.constant matches Some(c) ==> !crate::effects::is_text_type_spec(l.expr.ty)
            && (c is Bool <==> l.expr.ty is Bool),
        r.expr.constant matches Some(c) ==> !crate::effects::is_text_type_spec(r.expr.ty)
            && (c is Bool <==> r.expr.ty is Bool),
    ensures
        lowered_as_written(op, l, r, st, check_operands_spec(op, l, r, left, right, cx, st)),
{
    let span = merge_spans_spec(left.span, right.span);
    arithmetic_is_lowered(op, l, r, span, st);
    if op is Shl || op is Shr {
        shift_is_lowered(op, l, r, span, st);
    }
    if is_comparison(op) {
        comparison_is_lowered(op, l, r, span, st);
        reveal(crate::numeric::promoted_numeric_type_spec);
    }
}

/// A negated or inverted operand is lowered as it is written, with the constant
/// that the operator makes of its operand's.
pub proof fn unary_operations_are_lowered_as_written(
    op: UnaryOp,
    c: CheckedExprView,
    span: Span,
    st: StateView,
)
    ensures
        ({
            let (r, after) = check_unary_spec(op, c, span, st);
            after.diagnostics.len() > st.diagnostics.len()
                || (r.expr.kind matches TypedExprKindView::Unary {
                op: o,
                expr,
            } && o == op && *expr == c.expr && match (op, c.expr.constant) {
                (UnaryOp::Neg, Some(TypedConstView::Int(v))) => r.expr.constant matches Some(
                    TypedConstView::Int(n),
                ) && n == -v,
                (UnaryOp::Neg, Some(TypedConstView::Float(v))) => r.expr.constant matches Some(
                    TypedConstView::Float(n),
                ) && float_key(n) == -float_key(v),
                (
                    UnaryOp::Not,
                    Some(TypedConstView::Bool(v)),
                ) => r.expr.constant == Some(TypedConstView::Bool(!v)),
                _ => r.expr.constant is None,
            })
        }),
{
}

} // verus!
