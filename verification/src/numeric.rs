//! Numeric types and constants: promotion, casts, coercion and folding.
//!
//! Floating-point arithmetic itself is asked for; what can be read off a bit
//! pattern is decided here.

use vstd::prelude::*;
use crate::ast::{BinaryOp, FloatLit, FloatLitView, Span, Type, TypeView, type_text};
use crate::ir::{
    TypedConst, TypedConstView, TypedExpr, TypedExprKind, TypedExprKindView, TypedExprView,
};
use crate::scope::{ask, checked, fallback, float_zero, report, typed};
use crate::state::{
    Answer, AnswerView, CheckedExpr, CheckedExprView, FloatOp, FloatOpView, Query, QueryView,
    State, StateView,
};
use crate::text::{cat2, cat4, cat5, chars_of, int_text, slice_chars, str_eq, text, text_of};
use crate::types::{
    is_bool, is_float, is_integer, is_numeric, is_owned_str, is_signed_integer, is_str, max_value,
    min_value, type_bits, type_eq,
};
use crate::typing::{Declared};

verus! {

broadcast use {
    crate::text::group_text_views,
    crate::ast::group_ast_views,
    crate::diagnostic::group_diagnostic_views,
    crate::ir::group_ir_views,
    crate::state::group_state_views,
    crate::state::group_extends,
    crate::typing::leaves_are_typed,
};

pub open spec fn neg_checked_spec(v: i128) -> Option<i128> {
    if v == i128::MIN {
        None
    } else {
        Some((-v) as i128)
    }
}

/// The negated integer, where there is one.
pub fn neg_checked(v: i128) -> (r: Option<i128>)
    ensures
        r == neg_checked_spec(v),
{
    if v == i128::MIN {
        None
    } else {
        Some(-v)
    }
}

/// The bit pattern of the same magnitude without a sign.
pub open spec fn magnitude(bits: u64) -> int {
    if bits >= 0x8000_0000_0000_0000 {
        bits - 0x8000_0000_0000_0000
    } else {
        bits as int
    }
}

/// Whether a double, rounded to single precision where `single` holds, is
/// neither infinite nor not-a-number.
pub open spec fn float_finite_spec(v: FloatLitView, single: bool) -> bool {
    if single {
        magnitude(v.bits) < 0x47ef_ffff_f000_0000
    } else {
        magnitude(v.bits) < 0x7ff0_0000_0000_0000
    }
}

pub fn float_finite(v: &FloatLit, single: bool) -> (r: bool)
    ensures
        r == float_finite_spec(v@, single),
{
    let m: u64 = if v.bits >= 0x8000_0000_0000_0000 {
        v.bits - 0x8000_0000_0000_0000
    } else {
        v.bits
    };
    if single {
        m < 0x47ef_ffff_f000_0000
    } else {
        m < 0x7ff0_0000_0000_0000
    }
}

/// Whether a double is zero, of either sign.
pub open spec fn float_is_zero_spec(v: FloatLitView) -> bool {
    magnitude(v.bits) == 0
}

pub fn float_is_zero(v: &FloatLit) -> (r: bool)
    ensures
        r == float_is_zero_spec(v@),
{
    v.bits == 0 || v.bits == 0x8000_0000_0000_0000
}

/// A rendering with its sign changed.
pub open spec fn negated_text(s: Seq<char>) -> Seq<char> {
    if s.len() > 0 && s[0] == '-' {
        s.subrange(1, s.len() as int)
    } else if s == "NaN"@ {
        s
    } else {
        "-"@ + s
    }
}

fn negate_text(s: &str) -> (r: String)
    ensures
        r@ == negated_text(s@),
{
    let cs = chars_of(s);
    if cs.len() > 0 && cs[0] == '-' {
        text_of(&slice_chars(&cs, 1, cs.len()))
    } else if str_eq(s, "NaN") {
        text(s)
    } else {
        cat2("-", s)
    }
}

pub open spec fn float_neg_spec(v: FloatLitView) -> FloatLitView {
    FloatLitView {
        bits: if v.bits >= 0x8000_0000_0000_0000 {
            (v.bits - 0x8000_0000_0000_0000) as u64
        } else {
            (v.bits + 0x8000_0000_0000_0000) as u64
        },
        exact: negated_text(v.exact),
        plain: negated_text(v.plain),
    }
}

/// A double with its sign changed.
pub fn float_neg(v: &FloatLit) -> (r: FloatLit)
    ensures
        r@ == float_neg_spec(v@),
{
    FloatLit {
        bits: if v.bits >= 0x8000_0000_0000_0000 {
            v.bits - 0x8000_0000_0000_0000
        } else {
            v.bits + 0x8000_0000_0000_0000
        },
        exact: negate_text(&v.exact),
        plain: negate_text(&v.plain),
    }
}

pub open spec fn int_and_spec(a: i128, b: i128) -> i128 {
    a & b
}

pub fn int_and(a: i128, b: i128) -> (r: i128)
    ensures
        r == int_and_spec(a, b),
{
    a & b
}

pub open spec fn int_or_spec(a: i128, b: i128) -> i128 {
    a | b
}

pub fn int_or(a: i128, b: i128) -> (r: i128)
    ensures
        r == int_or_spec(a, b),
{
    a | b
}

pub open spec fn int_xor_spec(a: i128, b: i128) -> i128 {
    a ^ b
}

pub fn int_xor(a: i128, b: i128) -> (r: i128)
    ensures
        r == int_xor_spec(a, b),
{
    a ^ b
}

/// The value shifted left; none where the count reaches the width of 128.
pub open spec fn int_shl_spec(v: i128, count: u32) -> Option<i128> {
    if count < 128 {
        Some(v << count)
    } else {
        None
    }
}

pub fn int_shl(v: i128, count: u32) -> (r: Option<i128>)
    ensures
        r == int_shl_spec(v, count),
{
    if count < 128 {
        Some(v << count)
    } else {
        None
    }
}

/// The value shifted right, keeping its sign.
pub open spec fn int_shr_spec(v: i128, count: u32) -> Option<i128> {
    if count < 128 {
        Some(v >> count)
    } else {
        None
    }
}

pub fn int_shr(v: i128, count: u32) -> (r: Option<i128>)
    ensures
        r == int_shr_spec(v, count),
{
    if count < 128 {
        Some(v >> count)
    } else {
        None
    }
}

/// Whether a number is a power of two.
pub open spec fn channel_capacity_is_pow2_spec(n: u64) -> bool {
    n > 0 && n & ((n - 1) as u64) == 0
}

pub fn channel_capacity_is_pow2(n: u64) -> (r: bool)
    ensures
        r == channel_capacity_is_pow2_spec(n),
{
    n > 0 && n & (n - 1) == 0
}

/// What [`float_ask`] computes.
pub open spec fn float_ask_spec(
    op: FloatOpView,
    left: FloatLitView,
    right: FloatLitView,
    st: StateView,
) -> (Option<FloatLitView>, StateView)
{
    match crate::scope::ask_spec(QueryView::Float { op, left: left, right: right }, st) {
        (Some(AnswerView::Float(v)), st) => (Some(v), st),
        (_, st) => (None, st),
    }
}

/// Asks for a floating-point operation.
pub fn float_ask(
    op: FloatOp,
    left: &FloatLit,
    right: &FloatLit,
    st: State,
) -> (r: (Option<FloatLit>, State))
    ensures
        (
            (match &r.0 { Some(v0) => Some(v0@), None => None }),
            r.1@,
        ) == float_ask_spec(op@, left@, right@, st@),
        crate::state::follows(st@, r.1@),
        crate::state::balanced(st@, r.1@),
        crate::state::same_facts(st@, r.1@),
{
    match ask(Query::Float { op, left: left.dup(), right: right.dup() }, st) {
        (Some(Answer::Float(v)), st) => (Some(v), st),
        (_, st) => (None, st),
    }
}

/// What [`float_to_int`] computes.
pub open spec fn float_to_int_spec(v: FloatLitView, st: StateView) -> (Option<i128>, StateView)
{
    match crate::scope::ask_spec(
        QueryView::Float {
            op: FloatOpView::ToInt,
            left: v,
            right: crate::scope::float_zero_spec(),
        },
        st,
    ) {
        (Some(AnswerView::Int(n)), st) => (n, st),
        (_, st) => (None, st),
    }
}

/// Asks for the integer part of a double.
pub fn float_to_int(v: &FloatLit, st: State) -> (r: (Option<i128>, State))
    ensures
        (r.0, r.1@) == float_to_int_spec(v@, st@),
        crate::state::follows(st@, r.1@),
        crate::state::balanced(st@, r.1@),
        crate::state::same_facts(st@, r.1@),
{
    match ask(Query::Float { op: FloatOp::ToInt, left: v.dup(), right: float_zero() }, st) {
        (Some(Answer::Int(n)), st) => (n, st),
        (_, st) => (None, st),
    }
}

/// What [`is_f32`] computes.
pub open spec fn is_f32_spec(t: TypeView) -> bool
{
    t is F32
}

pub fn is_f32(t: &Type) -> (r: bool)
    ensures
        r == is_f32_spec(t@),
{
    match t {
        Type::F32 => true,
        _ => false,
    }
}

/// What [`is_f64`] computes.
pub open spec fn is_f64_spec(t: TypeView) -> bool
{
    t is F64
}

pub fn is_f64(t: &Type) -> (r: bool)
    ensures
        r == is_f64_spec(t@),
{
    match t {
        Type::F64 => true,
        _ => false,
    }
}

/// What [`finite_float_value`] computes.
pub open spec fn finite_float_value_spec(v: FloatLitView, t: TypeView) -> bool
{
    match t {
        TypeView::F32 => float_finite_spec(v, true),
        TypeView::F64 => float_finite_spec(v, false),
        _ => false,
    }
}

/// Whether a value is finite in its type.
pub fn finite_float_value(v: &FloatLit, t: &Type) -> (r: bool)
    ensures
        r == finite_float_value_spec(v@, t@),
{
    match t {
        Type::F32 => float_finite(v, true),
        Type::F64 => float_finite(v, false),
        _ => false,
    }
}

/// What [`narrow_float_value`] computes.
pub open spec fn narrow_float_value_spec(
    v: FloatLitView,
    t: TypeView,
    st: StateView,
) -> (Option<FloatLitView>, StateView)
{
    if is_f32_spec(t) {
        float_ask_spec(FloatOpView::Narrow, v, crate::scope::float_zero_spec(), st)
    } else {
        (Some(v), st)
    }
}

/// A double as a value of the given floating-point type.
pub fn narrow_float_value(v: FloatLit, t: &Type, st: State) -> (r: (Option<FloatLit>, State))
    ensures
        (
            (match &r.0 { Some(v0) => Some(v0@), None => None }),
            r.1@,
        ) == narrow_float_value_spec(v@, t@, st@),
        crate::state::follows(st@, r.1@),
        crate::state::balanced(st@, r.1@),
        crate::state::same_facts(st@, r.1@),
{
    if is_f32(t) {
        float_ask(FloatOp::Narrow, &v, &float_zero(), st)
    } else {
        (Some(v), st)
    }
}

/// What [`const_to_float`] computes.
pub open spec fn const_to_float_spec(
    c: TypedConstView,
    st: StateView,
) -> (Option<FloatLitView>, StateView)
{
    match c {
        TypedConstView::Int(v) => float_ask_spec(
            FloatOpView::FromInt(v),
            crate::scope::float_zero_spec(),
            crate::scope::float_zero_spec(),
            st,
        ),
        TypedConstView::Float(v) => (Some(v), st),
        TypedConstView::Bool(_) => (None, st),
    }
}

/// A numeric constant as a double.
pub fn const_to_float(c: &TypedConst, st: State) -> (r: (Option<FloatLit>, State))
    ensures
        (
            (match &r.0 { Some(v0) => Some(v0@), None => None }),
            r.1@,
        ) == const_to_float_spec(c@, st@),
        crate::state::follows(st@, r.1@),
        crate::state::balanced(st@, r.1@),
        crate::state::same_facts(st@, r.1@),
{
    match c {
        TypedConst::Int(v) => float_ask(FloatOp::FromInt(*v), &float_zero(), &float_zero(), st),
        TypedConst::Float(v) => (Some(v.dup()), st),
        TypedConst::Bool(_) => (None, st),
    }
}

/// What [`value_fits_type`] computes.
pub open spec fn value_fits_type_spec(v: i128, t: TypeView) -> bool
{
    match (crate::types::min_value_spec(t), crate::types::max_value_spec(t)) {
        (Some(min), Some(max)) => min <= v && v <= max,
        _ => false,
    }
}

/// Whether an integer lies in the range of a type.
pub fn value_fits_type(v: i128, t: &Type) -> (r: bool)
    ensures
        r == value_fits_type_spec(v, t@),
{
    match (min_value(t), max_value(t)) {
        (Some(min), Some(max)) => min <= v && v <= max,
        _ => false,
    }
}

/// What [`can_represent_all`] computes.
pub open spec fn can_represent_all_spec(destination: TypeView, source: TypeView) -> bool
{
    match (crate::types::min_value_spec(destination), crate::types::max_value_spec(destination)) {
        (Some(dmin), Some(dmax)) => match (
            crate::types::min_value_spec(source),
            crate::types::max_value_spec(source),
        ) {
            (Some(smin), Some(smax)) => dmin <= smin && dmax >= smax,
            _ => false,
        },
        _ => false,
    }
}

/// Whether an integer type holds every value of another one.
pub fn can_represent_all(destination: &Type, source: &Type) -> (r: bool)
    ensures
        r == can_represent_all_spec(destination@, source@),
{
    match (min_value(destination), max_value(destination)) {
        (Some(dmin), Some(dmax)) => match (min_value(source), max_value(source)) {
            (Some(smin), Some(smax)) => dmin <= smin && dmax >= smax,
            _ => false,
        },
        _ => false,
    }
}

/// What [`bool_text`] computes.
pub open spec fn bool_text_spec(b: bool) -> Seq<char>
{
    if b { "true"@ } else { "false"@ }
}

pub fn bool_text(b: bool) -> (r: String)
    ensures
        r@ == bool_text_spec(b),
{
    text(if b { "true" } else { "false" })
}

/// What [`const_display`] computes.
pub open spec fn const_display_spec(c: TypedConstView) -> Seq<char>
{
    match c {
        TypedConstView::Int(v) => crate::text::decimal(v as int),
        TypedConstView::Float(v) => v.plain,
        TypedConstView::Bool(v) => bool_text_spec(v),
    }
}

/// A constant as it is written.
pub fn const_display(c: &TypedConst) -> (r: String)
    ensures
        r@ == const_display_spec(c@),
{
    match c {
        TypedConst::Int(v) => int_text(*v),
        TypedConst::Float(v) => v.plain.clone(),
        TypedConst::Bool(v) => bool_text(*v),
    }
}

/// What [`is_known_zero`] computes.
pub open spec fn is_known_zero_spec(c: CheckedExprView) -> bool
{
    match c.expr.constant {
        Some(TypedConstView::Int(v)) => v == 0,
        Some(TypedConstView::Float(v)) => float_is_zero_spec(v),
        _ => false,
    }
}

/// Whether an operand is known to be zero.
pub fn is_known_zero(c: &CheckedExpr) -> (r: bool)
    ensures
        r == is_known_zero_spec(c@),
{
    match &c.expr.constant {
        Some(TypedConst::Int(v)) => *v == 0,
        Some(TypedConst::Float(v)) => float_is_zero(v),
        _ => false,
    }
}

/// What [`max_as_double`] computes.
pub open spec fn max_as_double_spec(t: TypeView) -> Option<i128>
{
    match t {
        TypeView::I64 => Some(9223372036854775808),
        TypeView::U64 => Some(18446744073709551616),
        _ => crate::types::max_value_spec(t),
    }
}

/// The greatest integer that the greatest value of a type, as a double, stands
/// for.
pub fn max_as_double(t: &Type) -> (r: Option<i128>)
    ensures
        r == max_as_double_spec(t@),
{
    match t {
        Type::I64 => Some(9223372036854775808),
        Type::U64 => Some(18446744073709551616),
        _ => max_value(t),
    }
}

/// What [`cast_float`] computes.
pub open spec fn cast_float_spec(
    v: FloatLitView,
    t: TypeView,
    st: StateView,
) -> (Option<TypedConstView>, StateView)
{
    if finite_float_value_spec(v, t) {
        match narrow_float_value_spec(v, t, st) {
            (Some(v), st) => (Some(TypedConstView::Float(v)), st),
            (None, st) => (None, st),
        }
    } else {
        (None, st)
    }
}

/// A finite double as a value of a floating-point type, where it has one.
pub fn cast_float(v: FloatLit, t: &Type, st: State) -> (r: (Option<TypedConst>, State))
    ensures
        (
            (match &r.0 { Some(v0) => Some(v0@), None => None }),
            r.1@,
        ) == cast_float_spec(v@, t@, st@),
        crate::state::follows(st@, r.1@),
        crate::state::balanced(st@, r.1@),
        crate::state::same_facts(st@, r.1@),
{
    if finite_float_value(&v, t) {
        match narrow_float_value(v, t, st) {
            (Some(v), st) => (Some(TypedConst::Float(v)), st),
            (None, st) => (None, st),
        }
    } else {
        (None, st)
    }
}

/// What [`eval_cast_constant_no_diagnostic`] computes.
pub open spec fn eval_cast_constant_no_diagnostic_spec(
    c: TypedConstView,
    t: TypeView,
    st: StateView,
) -> (Option<TypedConstView>, StateView)
{
    match c {
        TypedConstView::Int(v) => if crate::types::is_integer_spec(t) {
            (if value_fits_type_spec(v, t) { Some(TypedConstView::Int(v)) } else { None }, st)
        } else if crate::types::is_float_spec(t) {
            match const_to_float_spec(c, st) {
                (Some(f), st) => cast_float_spec(f, t, st),
                (None, st) => (None, st),
            }
        } else {
            (None, st)
        },
        TypedConstView::Float(v) => if crate::types::is_float_spec(t) {
            cast_float_spec(v, t, st)
        } else if crate::types::is_integer_spec(t) && float_finite_spec(v, false) {
            match float_to_int_spec(v, st) {
                (Some(n), st) => match (crate::types::min_value_spec(t), max_as_double_spec(t)) {
                    (Some(min), Some(max)) => if n < min || n > max {
                        (None, st)
                    } else {
                        (Some(TypedConstView::Int(n)), st)
                    },
                    _ => (None, st),
                },
                (None, st) => (None, st),
            }
        } else {
            (None, st)
        },
        TypedConstView::Bool(v) => if crate::types::is_bool_spec(t) {
            (Some(TypedConstView::Bool(v)), st)
        } else {
            (None, st)
        },
    }
}

/// A constant as a value of another type, where it has one.
pub fn eval_cast_constant_no_diagnostic(
    c: &TypedConst,
    t: &Type,
    st: State,
) -> (r: (Option<TypedConst>, State))
    ensures
        (
            (match &r.0 { Some(v0) => Some(v0@), None => None }),
            r.1@,
        ) == eval_cast_constant_no_diagnostic_spec(c@, t@, st@),
        crate::state::follows(st@, r.1@),
        crate::state::balanced(st@, r.1@),
        crate::state::same_facts(st@, r.1@),
{
    match c {
        TypedConst::Int(v) => if is_integer(t) {
            (if value_fits_type(*v, t) { Some(TypedConst::Int(*v)) } else { None }, st)
        } else if is_float(t) {
            match const_to_float(c, st) {
                (Some(f), st) => cast_float(f, t, st),
                (None, st) => (None, st),
            }
        } else {
            (None, st)
        },
        TypedConst::Float(v) => if is_float(t) {
            cast_float(v.dup(), t, st)
        } else if is_integer(t) && float_finite(v, false) {
            match float_to_int(v, st) {
                (Some(n), st) => match (min_value(t), max_as_double(t)) {
                    (Some(min), Some(max)) => if n < min || n > max {
                        (None, st)
                    } else {
                        (Some(TypedConst::Int(n)), st)
                    },
                    _ => (None, st),
                },
                (None, st) => (None, st),
            }
        } else {
            (None, st)
        },
        TypedConst::Bool(v) => if is_bool(t) {
            (Some(TypedConst::Bool(*v)), st)
        } else {
            (None, st)
        },
    }
}

/// What [`eval_cast_constant`] computes.
pub open spec fn eval_cast_constant_spec(
    c: TypedConstView,
    t: TypeView,
    span: Span,
    st: StateView,
) -> (Option<TypedConstView>, StateView)
{
    match eval_cast_constant_no_diagnostic_spec(c, t, st) {
        (Some(v), st) => (Some(v), st),
        (None, st) => {
            let message = "constant value "@ + const_display_spec(c) + " cannot be represented as "@
                + crate::ast::type_text_spec(t);
            (None, crate::scope::report_spec(st, span, message))
        },
    }
}

/// The value of a known operand after a conversion; one that cannot be
/// represented is reported.
pub fn eval_cast_constant(
    c: &TypedConst,
    t: &Type,
    span: Span,
    st: State,
) -> (r: (Option<TypedConst>, State))
    ensures
        (
            (match &r.0 { Some(v0) => Some(v0@), None => None }),
            r.1@,
        ) == eval_cast_constant_spec(c@, t@, span, st@),
        crate::state::follows(st@, r.1@),
        crate::state::balanced(st@, r.1@),
        crate::state::same_facts(st@, r.1@),
{
    match eval_cast_constant_no_diagnostic(c, t, st) {
        (Some(v), st) => (Some(v), st),
        (None, st) => {
            let message = cat4(
                "constant value ",
                &const_display(c),
                " cannot be represented as ",
                &type_text(t),
            );
            (None, report(st, span, message))
        },
    }
}

/// What [`opt_eval_cast`] computes.
pub open spec fn opt_eval_cast_spec(
    c: Option<TypedConstView>,
    t: TypeView,
    span: Span,
    st: StateView,
) -> (Option<TypedConstView>, StateView)
{
    match c {
        Some(c) => eval_cast_constant_spec(c, t, span, st),
        None => (None, st),
    }
}

/// [`eval_cast_constant`], where the operand is known.
pub fn opt_eval_cast(
    c: &Option<TypedConst>,
    t: &Type,
    span: Span,
    st: State,
) -> (r: (Option<TypedConst>, State))
    ensures
        ((match &r.0 { Some(v0) => Some(v0@), None => None }), r.1@) == opt_eval_cast_spec(
            (match &c { Some(v0) => Some(v0@), None => None }),
            t@,
            span,
            st@,
        ),
        crate::state::follows(st@, r.1@),
        crate::state::balanced(st@, r.1@),
        crate::state::same_facts(st@, r.1@),
{
    match c {
        Some(c) => eval_cast_constant(c, t, span, st),
        None => (None, st),
    }
}

/// What [`cast_expr`] computes.
pub open spec fn cast_expr_spec(
    c: CheckedExprView,
    t: TypeView,
    constant: Option<TypedConstView>,
    span: Span,
) -> CheckedExprView
{
    crate::scope::checked_spec(
        TypedExprKindView::Cast { expr: Box::new(c.expr), ty: t },
        t,
        constant,
        span,
    )
}

/// A conversion to another type.
pub fn cast_expr(
    c: CheckedExpr,
    t: &Type,
    constant: Option<TypedConst>,
    span: Span,
) -> (r: CheckedExpr)
    ensures
        r@ == cast_expr_spec(
            c@,
            t@,
            (match &constant { Some(v0) => Some(v0@), None => None }),
            span,
        ),
{
    checked(TypedExprKind::Cast { expr: Box::new(c.expr), ty: t.dup() }, t.dup(), constant, span)
}

/// What [`dup_constant`] computes.
pub open spec fn dup_constant_spec(c: Option<TypedConstView>) -> Option<TypedConstView>
{
    match c {
        Some(v) => Some(v),
        None => None,
    }
}

pub fn dup_constant(c: &Option<TypedConst>) -> (r: Option<TypedConst>)
    ensures
        (match &r { Some(v0) => Some(v0@), None => None }) == dup_constant_spec(
            (match &c { Some(v0) => Some(v0@), None => None }),
        ),
{
    match c {
        Some(v) => Some(v.dup()),
        None => None,
    }
}

/// What [`can_assign`] computes.
pub open spec fn can_assign_spec(
    actual: CheckedExprView,
    expected: TypeView,
    st: StateView,
) -> (bool, StateView)
{
    let t = actual.expr.ty;
    if t == expected {
        (true, st)
    } else if crate::types::is_owned_str_spec(t) && crate::types::is_str_spec(expected) {
        (true, st)
    } else if !crate::types::is_numeric_spec(t) || !crate::types::is_numeric_spec(expected) {
        (false, st)
    } else {
        match actual.expr.constant {
            Some(c) => {
                let (value, st) = eval_cast_constant_no_diagnostic_spec(c, expected, st);
                (
                    value.is_some()
                        && !(crate::types::is_float_spec(t) && crate::types::is_integer_spec(expected)),
                    st,
                )
            },
            None => if crate::types::is_integer_spec(t) && crate::types::is_integer_spec(expected) {
                (can_represent_all_spec(expected, t), st)
            } else if crate::types::is_integer_spec(t) && crate::types::is_float_spec(expected) {
                (true, st)
            } else {
                (is_f32_spec(t) && is_f64_spec(expected), st)
            },
        }
    }
}

/// Whether an expression may stand where a type is expected.
pub fn can_assign(actual: &CheckedExpr, expected: &Type, st: State) -> (r: (bool, State))
    ensures
        (r.0, r.1@) == can_assign_spec(actual@, expected@, st@),
        crate::state::follows(st@, r.1@),
        crate::state::balanced(st@, r.1@),
        crate::state::same_facts(st@, r.1@),
{
    let t = &actual.expr.ty;
    if type_eq(t, expected) {
        (true, st)
    } else if is_owned_str(t) && is_str(expected) {
        (true, st)
    } else if !is_numeric(t) || !is_numeric(expected) {
        (false, st)
    } else {
        match &actual.expr.constant {
            Some(c) => {
                let (value, st) = eval_cast_constant_no_diagnostic(c, expected, st);
                (value.is_some() && !(is_float(t) && is_integer(expected)), st)
            },
            None => if is_integer(t) && is_integer(expected) {
                (can_represent_all(expected, t), st)
            } else if is_integer(t) && is_float(expected) {
                (true, st)
            } else {
                (is_f32(t) && is_f64(expected), st)
            },
        }
    }
}

/// What [`is_enum_type`] computes.
pub open spec fn is_enum_type_spec(t: TypeView) -> bool
{
    t is Enum
}

pub fn is_enum_type(t: &Type) -> (r: bool)
    ensures
        r == is_enum_type_spec(t@),
{
    match t {
        Type::Enum(_) => true,
        _ => false,
    }
}

/// What [`explicit_cast`] computes.
#[verifier::opaque]
pub open spec fn explicit_cast_spec(
    c: CheckedExprView,
    t: TypeView,
    span: Span,
    st: StateView,
) -> (CheckedExprView, StateView)
{
    if c.expr.ty == t {
        let constant = (c.expr.constant);
        (cast_expr_spec(c, t, constant, span), st)
    } else if is_enum_type_spec(c.expr.ty) && crate::types::is_integer_spec(t) {
        (cast_expr_spec(c, t, None, span), st)
    } else if !crate::types::is_numeric_spec(c.expr.ty) || !crate::types::is_numeric_spec(t) {
        let message = "cannot cast "@ + crate::ast::type_text_spec(c.expr.ty) + " to "@
            + crate::ast::type_text_spec(t);
        (crate::scope::fallback_spec(t, span), crate::scope::report_spec(st, span, message))
    } else {
        let (constant, st) = opt_eval_cast_spec(c.expr.constant, t, span, st);
        (cast_expr_spec(c, t, constant, span), st)
    }
}

/// `e as T`.
pub fn explicit_cast(c: CheckedExpr, t: &Type, span: Span, st: State) -> (r: (CheckedExpr, State))
    ensures
        (r.0@, r.1@) == explicit_cast_spec(c@, t@, span, st@),
        r.0@.expr.ty == t@,
        crate::state::follows(st@, r.1@),
        crate::state::balanced(st@, r.1@),
        crate::state::same_facts(st@, r.1@),
        forall|d: Declared|
            #![trigger crate::typing::fits(c@, d)]
            #![trigger crate::typing::fits(r.0@, d)]
            crate::typing::fits(c@, d) && crate::typing::beside(d, st@.env)
                && crate::typing::quiet(st@, r.1@)
                ==> crate::typing::fits(r.0@, d),
{
    proof {
        reveal(explicit_cast_spec); reveal(crate::typing::well_typed);
    }
    if type_eq(&c.expr.ty, t) {
        let constant = dup_constant(&c.expr.constant);
        (cast_expr(c, t, constant, span), st)
    } else if is_enum_type(&c.expr.ty) && is_integer(t) {
        (cast_expr(c, t, None, span), st)
    } else if !is_numeric(&c.expr.ty) || !is_numeric(t) {
        let message = cat4("cannot cast ", &type_text(&c.expr.ty), " to ", &type_text(t));
        (fallback(t.dup(), span), report(st, span, message))
    } else {
        let (constant, st) = opt_eval_cast(&c.expr.constant, t, span, st);
        (cast_expr(c, t, constant, span), st)
    }
}

/// What [`all_numeric`] computes from position `i` on.
pub open spec fn all_numeric_spec(es: Seq<TypedExprView>, all: bool, i: int) -> bool
    decreases es.len() - i,
{
    if 0 <= i < es.len() {
        let e = es[i];
        let all = all && crate::types::is_numeric_spec(e.ty);
        all_numeric_spec(es, all, i + 1)
    } else {
        all
    }
}

/// Whether all elements are numbers.
pub fn all_numeric(es: &Vec<TypedExpr>, all: bool) -> (r: bool)
    ensures
        r == all_numeric_spec(crate::ir::typed_exprs_view(es@), all, 0),
{
    let ghost whole_run = all_numeric_spec(crate::ir::typed_exprs_view(es@), all, 0);
    let mut all = all;
    let mut i: usize = 0;
    while i < es.len()
        invariant
            i <= es.len(),
            all_numeric_spec(crate::ir::typed_exprs_view(es@), all, i as int) == whole_run,
        decreases es.len() - i,
    {
        let e = &es[i];
        all = all && is_numeric(&e.ty);
        i += 1;
    }
    all
}

/// What [`cast_elements`] computes.
pub open spec fn cast_elements_spec(es: Seq<TypedExprView>, t: TypeView) -> Seq<TypedExprView>
{
    es.map_values(|e: TypedExprView| if e.ty == t {
        e
    } else {
        crate::scope::typed_spec(
            TypedExprKindView::Cast { expr: Box::new(e), ty: t },
            t,
            None,
            e.span,
        )
    })
}

/// The elements, each converted to a type.
pub fn cast_elements(es: &Vec<TypedExpr>, t: &Type) -> (r: Vec<TypedExpr>)
    ensures
        crate::ir::typed_exprs_view(r@) == cast_elements_spec(crate::ir::typed_exprs_view(es@), t@),
{
    let ghost whole = cast_elements_spec(crate::ir::typed_exprs_view(es@), t@);
    let ghost all = crate::ir::typed_exprs_view(es@);
    let mut r: Vec<TypedExpr> = Vec::new();
    let mut i: usize = 0;
    while i < es.len()
        invariant
            i <= es.len(),
            all == crate::ir::typed_exprs_view(es@),
            whole == cast_elements_spec(crate::ir::typed_exprs_view(es@), t@),
            crate::ir::typed_exprs_view(r@) == whole.take(i as int),
        decreases es.len() - i,
    {
        let e = &es[i];
        assert(all[i as int] == e@);
        r.push(if type_eq(&e.ty, t) {
            e.dup()
        } else {
            typed(
                TypedExprKind::Cast { expr: Box::new(e.dup()), ty: t.dup() },
                t.dup(),
                None,
                e.span,
            )
        });
        assert(whole.take(i + 1) =~= whole.take(i as int).push(whole[i as int]));
        i += 1;
    }
    assert(whole.take(i as int) =~= whole);
    r
}

/// What [`coerce_array`] computes.
pub open spec fn coerce_array_spec(
    c: CheckedExprView,
    t: TypeView,
    span: Span,
) -> Option<CheckedExprView>
{
    match (c.expr.ty, t) {
        (
            TypeView::Array { length: source, .. },
            TypeView::Array { element, length },
        ) => match c.expr.kind {
            TypedExprKindView::ArrayLit { elements } => if source == length && all_numeric_spec(
                elements,
                true,
                0,
            ) && crate::types::is_numeric_spec(*element) {
                let elements = cast_elements_spec(elements, *element);
                Some(
                    crate::scope::checked_spec(
                        TypedExprKindView::ArrayLit { elements },
                        t,
                        None,
                        span,
                    ),
                )
            } else {
                None
            },
            _ => None,
        },
        _ => None,
    }
}

/// An array literal of numbers as an array of the same length and another
/// numeric element type, by casting each element.
pub fn coerce_array(c: &CheckedExpr, t: &Type, span: Span) -> (r: Option<CheckedExpr>)
    ensures
        (match &r { Some(v0) => Some(v0@), None => None }) == coerce_array_spec(c@, t@, span),
{
    match (&c.expr.ty, t) {
        (
            Type::Array { length: source, .. },
            Type::Array { element, length },
        ) => match &c.expr.kind {
            TypedExprKind::ArrayLit { elements } => if *source == *length && all_numeric(
                elements,
                true,
            ) && is_numeric(&**element) {
                let elements = cast_elements(elements, &**element);
                Some(checked(TypedExprKind::ArrayLit { elements }, t.dup(), None, span))
            } else {
                None
            },
            _ => None,
        },
        _ => None,
    }
}

/// What [`is_supported_atomic_element`] computes.
pub open spec fn is_supported_atomic_element_spec(t: TypeView) -> bool
{
    crate::types::is_integer_spec(t) || crate::types::is_bool_spec(t)
}

/// Whether an atomic cell may hold the type.
pub fn is_supported_atomic_element(t: &Type) -> (r: bool)
    ensures
        r == is_supported_atomic_element_spec(t@),
{
    is_integer(t) || is_bool(t)
}

/// What [`coerce_channel`] computes.
pub open spec fn coerce_channel_spec(
    c: CheckedExprView,
    t: TypeView,
    span: Span,
    st: StateView,
) -> (Option<CheckedExprView>, StateView)
{
    match (c.expr.ty, t) {
        (TypeView::Channel(_, _), TypeView::Channel(element, capacity)) => match c.expr.kind {
            TypedExprKindView::Call { name, .. } => if !(name == "channel_new"@) {
                (None, st)
            } else if !is_supported_atomic_element_spec(*element) {
                let message = "Channel element type must be an integer width or bool, got "@
                    + crate::ast::type_text_spec(*element);
                (
                    Some(crate::scope::fallback_spec(t, span)),
                    crate::scope::report_spec(st, span, message),
                )
            } else if !channel_capacity_is_pow2_spec(capacity) {
                let message = "Channel capacity must be a power of 2 ≥ 1, got "@
                    + crate::text::decimal((capacity as i128) as int);
                (
                    Some(crate::scope::fallback_spec(t, span)),
                    crate::scope::report_spec(st, span, message),
                )
            } else {
                (Some(crate::scope::checked_spec(c.expr.kind, t, None, c.expr.span)), st)
            },
            _ => (None, st),
        },
        _ => (None, st),
    }
}

/// `channel_new()` takes its element type and capacity from its annotation.
pub fn coerce_channel(
    c: &CheckedExpr,
    t: &Type,
    span: Span,
    st: State,
) -> (r: (Option<CheckedExpr>, State))
    ensures
        (
            (match &r.0 { Some(v0) => Some(v0@), None => None }),
            r.1@,
        ) == coerce_channel_spec(c@, t@, span, st@),
        crate::state::follows(st@, r.1@),
        crate::state::balanced(st@, r.1@),
        crate::state::same_facts(st@, r.1@),
{
    match (&c.expr.ty, t) {
        (Type::Channel(_, _), Type::Channel(element, capacity)) => match &c.expr.kind {
            TypedExprKind::Call { name, .. } => if !str_eq(name, "channel_new") {
                (None, st)
            } else if !is_supported_atomic_element(&**element) {
                let message = cat2(
                    "Channel element type must be an integer width or bool, got ",
                    &type_text(&**element),
                );
                (Some(fallback(t.dup(), span)), report(st, span, message))
            } else if !channel_capacity_is_pow2(*capacity) {
                let message = cat2(
                    "Channel capacity must be a power of 2 ≥ 1, got ",
                    &int_text(*capacity as i128),
                );
                (Some(fallback(t.dup(), span)), report(st, span, message))
            } else {
                (Some(checked(c.expr.kind.dup(), t.dup(), None, c.expr.span)), st)
            },
            _ => (None, st),
        },
        _ => (None, st),
    }
}

/// What [`cannot_assign`] computes.
pub open spec fn cannot_assign_spec(
    c: CheckedExprView,
    t: TypeView,
    context: Seq<char>,
) -> Seq<char>
{
    let other = context + " must be assignable to "@ + crate::ast::type_text_spec(t) + ", got "@
        + crate::ast::type_text_spec(c.expr.ty);
    if crate::types::is_numeric_spec(t) {
        match c.expr.constant {
            Some(v) => context + " value "@ + const_display_spec(v) + " cannot be represented as "@ + crate::ast::type_text_spec(t),
            None => other,
        }
    } else {
        other
    }
}

/// The report for an expression that may not stand where `t` is expected.
pub fn cannot_assign(c: &CheckedExpr, t: &Type, context: &str) -> (r: String)
    ensures
        r@ == cannot_assign_spec(c@, t@, context@),
{
    let other = cat5(
        context,
        " must be assignable to ",
        &type_text(t),
        ", got ",
        &type_text(&c.expr.ty),
    );
    if is_numeric(t) {
        match &c.expr.constant {
            Some(v) => cat5(
                context,
                " value ",
                &const_display(v),
                " cannot be represented as ",
                &type_text(t),
            ),
            None => other,
        }
    } else {
        other
    }
}

/// What [`coerce_checked`] computes.
#[verifier::opaque]
pub open spec fn coerce_checked_spec(
    c: CheckedExprView,
    t: TypeView,
    span: Span,
    context: Seq<char>,
    st: StateView,
) -> (CheckedExprView, StateView)
{
    if c.expr.ty == t {
        (c, st)
    } else {
        match coerce_array_spec(c, t, span) {
            Some(done) => (done, st),
            None => match coerce_channel_spec(c, t, span, st) {
                (Some(done), st) => (done, st),
                (None, st) => match can_assign_spec(c, t, st) {
                    (false, st) => {
                        let message = cannot_assign_spec(c, t, context);
                        (
                            crate::scope::fallback_spec(t, span),
                            crate::scope::report_spec(st, span, message),
                        )
                    },
                    (true, st) => {
                        let (constant, st) = opt_eval_cast_spec(c.expr.constant, t, span, st);
                        (cast_expr_spec(c, t, constant, span), st)
                    },
                },
            },
        }
    }
}

/// An expression where `t` is expected, cast to it as far as that loses
/// nothing.
pub fn coerce_checked(
    c: CheckedExpr,
    t: &Type,
    span: Span,
    context: &str,
    st: State,
) -> (r: (CheckedExpr, State))
    ensures
        (r.0@, r.1@) == coerce_checked_spec(c@, t@, span, context@, st@),
        r.0@.expr.ty == t@,
        r.1@.env == st@.env,
        crate::state::follows(st@, r.1@),
        crate::state::balanced(st@, r.1@),
        crate::state::same_facts(st@, r.1@),
        forall|d: Declared|
            #![trigger crate::typing::fits(c@, d)]
            #![trigger crate::typing::fits(r.0@, d)]
            crate::typing::fits(c@, d) && crate::typing::beside(d, st@.env)
                && crate::typing::quiet(st@, r.1@)
                ==> crate::typing::fits(r.0@, d),
{
    proof {
        reveal(coerce_checked_spec);
        reveal(crate::typing::well_typed);
        assert forall|d: Declared| #[trigger] crate::typing::fits(c@, d) implies crate::typing::may_fit(
            coerce_array_spec(c@, t@, span),
            d,
        )
            && crate::typing::may_fit(coerce_channel_spec(c@, t@, span, st@).0, d) by {
            coerced_literals_fit(c@, t@, span, st@, d);
        }
    }
    if type_eq(&c.expr.ty, t) {
        (c, st)
    } else {
        match coerce_array(&c, t, span) {
            Some(done) => (done, st),
            None => match coerce_channel(&c, t, span, st) {
                (Some(done), st) => (done, st),
                (None, st) => match can_assign(&c, t, st) {
                    (false, st) => {
                        let message = cannot_assign(&c, t, context);
                        (fallback(t.dup(), span), report(st, span, message))
                    },
                    (true, st) => {
                        let (constant, st) = opt_eval_cast(&c.expr.constant, t, span, st);
                        (cast_expr(c, t, constant, span), st)
                    },
                },
            },
        }
    }
}

/// What [`coerce_numeric_operand`] computes.
#[verifier::opaque]
pub open spec fn coerce_numeric_operand_spec(
    c: CheckedExprView,
    t: TypeView,
    st: StateView,
) -> (CheckedExprView, StateView)
{
    if c.expr.ty == t {
        (c, st)
    } else {
        let (constant, st) = match c.expr.constant {
            Some(v) => eval_cast_constant_no_diagnostic_spec(v, t, st),
            None => (None, st),
        };
        let span = c.expr.span;
        (cast_expr_spec(c, t, constant, span), st)
    }
}

/// An operand at the promoted type of its operation.
pub fn coerce_numeric_operand(c: CheckedExpr, t: &Type, st: State) -> (r: (CheckedExpr, State))
    ensures
        (r.0@, r.1@) == coerce_numeric_operand_spec(c@, t@, st@),
        r.0@.expr.ty == t@,
        crate::state::follows(st@, r.1@),
        crate::state::balanced(st@, r.1@),
        crate::state::same_facts(st@, r.1@),
        forall|d: Declared|
            #![trigger crate::typing::fits(c@, d)]
            #![trigger crate::typing::fits(r.0@, d)]
            crate::typing::fits(c@, d) && crate::typing::beside(d, st@.env)
                && crate::typing::quiet(st@, r.1@)
                ==> crate::typing::fits(r.0@, d),
{
    proof {
        reveal(coerce_numeric_operand_spec); reveal(crate::typing::well_typed);
    }
    if type_eq(&c.expr.ty, t) {
        (c, st)
    } else {
        let (constant, st) = match &c.expr.constant {
            Some(v) => eval_cast_constant_no_diagnostic(v, t, st),
            None => (None, st),
        };
        let span = c.expr.span;
        (cast_expr(c, t, constant, span), st)
    }
}

/// What [`adapted_float_literal_type`] computes.
pub open spec fn adapted_float_literal_type_spec(c: CheckedExprView, t: TypeView) -> TypeView
{
    if c.flexible_float && is_f32_spec(t) {
        match c.expr.constant {
            Some(TypedConstView::Float(v)) => if float_finite_spec(
                v,
                true,
            ) { TypeView::F32 } else { c.expr.ty },
            _ => c.expr.ty,
        }
    } else {
        c.expr.ty
    }
}

/// The type a literal takes beside an operand of type `t`.
pub fn adapted_float_literal_type(c: &CheckedExpr, t: &Type) -> (r: Type)
    ensures
        r@ == adapted_float_literal_type_spec(c@, t@),
{
    if c.flexible_float && is_f32(t) {
        match &c.expr.constant {
            Some(TypedConst::Float(v)) => if float_finite(
                v,
                true,
            ) { Type::F32 } else { c.expr.ty.dup() },
            _ => c.expr.ty.dup(),
        }
    } else {
        c.expr.ty.dup()
    }
}

/// What [`adapted_integer_literal_type`] computes.
pub open spec fn adapted_integer_literal_type_spec(c: CheckedExprView, t: TypeView) -> TypeView
{
    if c.flexible_integer && crate::types::is_integer_spec(t) {
        match c.expr.constant {
            Some(TypedConstView::Int(v)) => if value_fits_type_spec(v, t) { t } else { c.expr.ty },
            _ => c.expr.ty,
        }
    } else {
        c.expr.ty
    }
}

/// The type of an operand next to one of type `t`: an integer literal takes `t`
/// where it fits.
pub fn adapted_integer_literal_type(c: &CheckedExpr, t: &Type) -> (r: Type)
    ensures
        r@ == adapted_integer_literal_type_spec(c@, t@),
{
    if c.flexible_integer && is_integer(t) {
        match &c.expr.constant {
            Some(TypedConst::Int(v)) => if value_fits_type(
                *v,
                t,
            ) { t.dup() } else { c.expr.ty.dup() },
            _ => c.expr.ty.dup(),
        }
    } else {
        c.expr.ty.dup()
    }
}

/// What [`promoted_float_type`] computes.
pub open spec fn promoted_float_type_spec(lhs: CheckedExprView, rhs: CheckedExprView) -> TypeView
{
    let left = adapted_float_literal_type_spec(lhs, rhs.expr.ty);
    let right = adapted_float_literal_type_spec(rhs, left);
    if is_f64_spec(left) || is_f64_spec(right) {
        TypeView::F64
    } else if is_f32_spec(left) || is_f32_spec(right) {
        TypeView::F32
    } else {
        TypeView::F64
    }
}

/// The type that two operands of floating-point types have in common.
pub fn promoted_float_type(lhs: &CheckedExpr, rhs: &CheckedExpr) -> (r: Type)
    ensures
        r@ == promoted_float_type_spec(lhs@, rhs@),
{
    let left = adapted_float_literal_type(lhs, &rhs.expr.ty);
    let right = adapted_float_literal_type(rhs, &left);
    if is_f64(&left) || is_f64(&right) {
        Type::F64
    } else if is_f32(&left) || is_f32(&right) {
        Type::F32
    } else {
        Type::F64
    }
}

/// What [`signed_type`] computes.
pub open spec fn signed_type_spec(bits: u16) -> Option<TypeView>
{
    if bits == 8 {
        Some(TypeView::I8)
    } else if bits == 16 {
        Some(TypeView::I16)
    } else if bits == 32 {
        Some(TypeView::I32)
    } else if bits == 64 {
        Some(TypeView::I64)
    } else {
        None
    }
}

/// The signed integer type of a width.
pub fn signed_type(bits: u16) -> (r: Option<Type>)
    ensures
        (match &r { Some(v0) => Some(v0@), None => None }) == signed_type_spec(bits),
{
    if bits == 8 {
        Some(Type::I8)
    } else if bits == 16 {
        Some(Type::I16)
    } else if bits == 32 {
        Some(Type::I32)
    } else if bits == 64 {
        Some(Type::I64)
    } else {
        None
    }
}

/// What [`unsigned_type`] computes.
pub open spec fn unsigned_type_spec(bits: u16) -> Option<TypeView>
{
    if bits == 8 {
        Some(TypeView::U8)
    } else if bits == 16 {
        Some(TypeView::U16)
    } else if bits == 32 {
        Some(TypeView::U32)
    } else if bits == 64 {
        Some(TypeView::U64)
    } else {
        None
    }
}

/// The unsigned integer type of a width.
pub fn unsigned_type(bits: u16) -> (r: Option<Type>)
    ensures
        (match &r { Some(v0) => Some(v0@), None => None }) == unsigned_type_spec(bits),
{
    if bits == 8 {
        Some(Type::U8)
    } else if bits == 16 {
        Some(Type::U16)
    } else if bits == 32 {
        Some(Type::U32)
    } else if bits == 64 {
        Some(Type::U64)
    } else {
        None
    }
}

/// What [`common_integer_type`] computes.
pub open spec fn common_integer_type_spec(left: TypeView, right: TypeView) -> Option<TypeView>
{
    if !crate::types::is_integer_spec(left) || !crate::types::is_integer_spec(right) {
        None
    } else {
        match (crate::types::type_bits_spec(left), crate::types::type_bits_spec(right)) {
            (Some(l), Some(r)) => {
                let wider: u16 = if l > r { l } else { r };
                if crate::types::is_signed_integer_spec(left)
                    && crate::types::is_signed_integer_spec(right) {
                    signed_type_spec(wider)
                } else if !crate::types::is_signed_integer_spec(left) && !crate::types::is_signed_integer_spec(right) {
                    unsigned_type_spec(wider)
                } else if crate::types::is_signed_integer_spec(left) && l > r {
                    Some(left)
                } else if crate::types::is_signed_integer_spec(right) && r > l {
                    Some(right)
                } else {
                    None
                }
            },
            _ => None,
        }
    }
}

/// The one of two integer types that holds all values of the other.
pub fn common_integer_type(left: &Type, right: &Type) -> (r: Option<Type>)
    ensures
        (match &r { Some(v0) => Some(v0@), None => None }) == common_integer_type_spec(
            left@,
            right@,
        ),
{
    if !is_integer(left) || !is_integer(right) {
        None
    } else {
        match (type_bits(left), type_bits(right)) {
            (Some(l), Some(r)) => {
                let wider: u16 = if l > r { l } else { r };
                if is_signed_integer(left) && is_signed_integer(right) {
                    signed_type(wider)
                } else if !is_signed_integer(left) && !is_signed_integer(right) {
                    unsigned_type(wider)
                } else if is_signed_integer(left) && l > r {
                    Some(left.dup())
                } else if is_signed_integer(right) && r > l {
                    Some(right.dup())
                } else {
                    None
                }
            },
            _ => None,
        }
    }
}

/// What [`promoted_integer_type`] computes.
#[verifier::opaque]
pub open spec fn promoted_integer_type_spec(
    lhs: CheckedExprView,
    rhs: CheckedExprView,
    st: StateView,
) -> (Option<TypeView>, StateView)
{
    if !crate::types::is_integer_spec(lhs.expr.ty) {
        let message = "left operand must be an integer, got "@
            + crate::ast::type_text_spec(lhs.expr.ty);
        (None, crate::scope::report_spec(st, lhs.expr.span, message))
    } else if !crate::types::is_integer_spec(rhs.expr.ty) {
        let message = "right operand must be an integer, got "@
            + crate::ast::type_text_spec(rhs.expr.ty);
        (None, crate::scope::report_spec(st, rhs.expr.span, message))
    } else {
        let left = adapted_integer_literal_type_spec(lhs, rhs.expr.ty);
        let right = adapted_integer_literal_type_spec(rhs, left);
        match common_integer_type_spec(left, right) {
            Some(t) => (Some(t), st),
            None => {
                let message = "no safe implicit integer promotion for "@
                    + crate::ast::type_text_spec(left) + " and "@
                    + crate::ast::type_text_spec(right) + "; use an explicit cast"@;
                (None, crate::scope::report_spec(st, rhs.expr.span, message))
            },
        }
    }
}

/// The type that two integer operands have in common.
pub fn promoted_integer_type(
    lhs: &CheckedExpr,
    rhs: &CheckedExpr,
    st: State,
) -> (r: (Option<Type>, State))
    ensures
        (
            (match &r.0 { Some(v0) => Some(v0@), None => None }),
            r.1@,
        ) == promoted_integer_type_spec(lhs@, rhs@, st@),
        (match r.0 { Some(t) => crate::types::is_integer_spec(t@), None => r.1@.diagnostics.len() > st@.diagnostics.len() }),
        crate::state::follows(st@, r.1@),
        crate::state::balanced(st@, r.1@),
        crate::state::same_facts(st@, r.1@),
{
    proof {
        reveal(promoted_integer_type_spec);
    }
    if !is_integer(&lhs.expr.ty) {
        let message = cat2("left operand must be an integer, got ", &type_text(&lhs.expr.ty));
        (None, report(st, lhs.expr.span, message))
    } else if !is_integer(&rhs.expr.ty) {
        let message = cat2("right operand must be an integer, got ", &type_text(&rhs.expr.ty));
        (None, report(st, rhs.expr.span, message))
    } else {
        let left = adapted_integer_literal_type(lhs, &rhs.expr.ty);
        let right = adapted_integer_literal_type(rhs, &left);
        match common_integer_type(&left, &right) {
            Some(t) => (Some(t), st),
            None => {
                let message = cat5(
                    "no safe implicit integer promotion for ",
                    &type_text(&left),
                    " and ",
                    &type_text(&right),
                    "; use an explicit cast",
                );
                (None, report(st, rhs.expr.span, message))
            },
        }
    }
}

/// What [`promoted_numeric_type`] computes.
#[verifier::opaque]
pub open spec fn promoted_numeric_type_spec(
    lhs: CheckedExprView,
    rhs: CheckedExprView,
    st: StateView,
) -> (Option<TypeView>, StateView)
{
    if !crate::types::is_numeric_spec(lhs.expr.ty) {
        let message = "left operand must be numeric, got "@
            + crate::ast::type_text_spec(lhs.expr.ty);
        (None, crate::scope::report_spec(st, lhs.expr.span, message))
    } else if !crate::types::is_numeric_spec(rhs.expr.ty) {
        let message = "right operand must be numeric, got "@
            + crate::ast::type_text_spec(rhs.expr.ty);
        (None, crate::scope::report_spec(st, rhs.expr.span, message))
    } else if crate::types::is_float_spec(lhs.expr.ty) || crate::types::is_float_spec(rhs.expr.ty) || lhs.flexible_float || rhs.flexible_float {
        (Some(promoted_float_type_spec(lhs, rhs)), st)
    } else {
        promoted_integer_type_spec(lhs, rhs, st)
    }
}

/// The type that two numeric operands are brought to.
pub fn promoted_numeric_type(
    lhs: &CheckedExpr,
    rhs: &CheckedExpr,
    st: State,
) -> (r: (Option<Type>, State))
    ensures
        (
            (match &r.0 { Some(v0) => Some(v0@), None => None }),
            r.1@,
        ) == promoted_numeric_type_spec(lhs@, rhs@, st@),
        (match r.0 { Some(t) => crate::types::is_numeric_spec(t@), None => r.1@.diagnostics.len() > st@.diagnostics.len() }),
        crate::state::follows(st@, r.1@),
        crate::state::balanced(st@, r.1@),
        crate::state::same_facts(st@, r.1@),
{
    proof {
        reveal(promoted_numeric_type_spec);
    }
    if !is_numeric(&lhs.expr.ty) {
        let message = cat2("left operand must be numeric, got ", &type_text(&lhs.expr.ty));
        (None, report(st, lhs.expr.span, message))
    } else if !is_numeric(&rhs.expr.ty) {
        let message = cat2("right operand must be numeric, got ", &type_text(&rhs.expr.ty));
        (None, report(st, rhs.expr.span, message))
    } else if is_float(&lhs.expr.ty) || is_float(&rhs.expr.ty) || lhs.flexible_float || rhs.flexible_float {
        (Some(promoted_float_type(lhs, rhs)), st)
    } else {
        promoted_integer_type(lhs, rhs, st)
    }
}

/// What [`integer_value`] computes.
pub open spec fn integer_value_spec(op: BinaryOp, a: i128, b: i128) -> Option<i128>
{
    match op {
        BinaryOp::Add => a.checked_add(b),
        BinaryOp::Sub => a.checked_sub(b),
        BinaryOp::Mul => a.checked_mul(b),
        BinaryOp::Div => a.checked_div(b),
        BinaryOp::Rem => a.checked_rem(b),
        BinaryOp::BitAnd => Some(int_and_spec(a, b)),
        BinaryOp::BitOr => Some(int_or_spec(a, b)),
        BinaryOp::BitXor => Some(int_xor_spec(a, b)),
        _ => None,
    }
}

/// The value of an integer operation, where it has one.
pub fn integer_value(op: BinaryOp, a: i128, b: i128) -> (r: Option<i128>)
    ensures
        r == integer_value_spec(op, a, b),
{
    match op {
        BinaryOp::Add => a.checked_add(b),
        BinaryOp::Sub => a.checked_sub(b),
        BinaryOp::Mul => a.checked_mul(b),
        BinaryOp::Div => a.checked_div(b),
        BinaryOp::Rem => a.checked_rem(b),
        BinaryOp::BitAnd => Some(int_and(a, b)),
        BinaryOp::BitOr => Some(int_or(a, b)),
        BinaryOp::BitXor => Some(int_xor(a, b)),
        _ => None,
    }
}

/// What [`eval_integer_binary`] computes.
pub open spec fn eval_integer_binary_spec(
    op: BinaryOp,
    a: i128,
    b: i128,
    t: TypeView,
    span: Span,
    st: StateView,
) -> (Option<TypedConstView>, StateView)
{
    let st = if op == BinaryOp::Div && b == 0 {
        crate::scope::report_spec(st, span, "division by zero in constant expression"@)
    } else if op == BinaryOp::Rem && b == 0 {
        crate::scope::report_spec(st, span, "remainder by zero in constant expression"@)
    } else {
        st
    };
    match integer_value_spec(op, a, b) {
        None => (
            None,
            crate::scope::report_spec(
                st,
                span,
                "constant expression overflows "@ + crate::ast::type_text_spec(t),
            ),
        ),
        Some(v) => if value_fits_type_spec(v, t) {
            (Some(TypedConstView::Int(v)), st)
        } else {
            let message = "constant expression value "@ + crate::text::decimal(v as int)
                + " does not fit in "@ + crate::ast::type_text_spec(t);
            (None, crate::scope::report_spec(st, span, message))
        },
    }
}

/// Folds an integer operation.
pub fn eval_integer_binary(
    op: BinaryOp,
    a: i128,
    b: i128,
    t: &Type,
    span: Span,
    st: State,
) -> (r: (Option<TypedConst>, State))
    ensures
        (
            (match &r.0 { Some(v0) => Some(v0@), None => None }),
            r.1@,
        ) == eval_integer_binary_spec(op, a, b, t@, span, st@),
        crate::state::follows(st@, r.1@),
        crate::state::balanced(st@, r.1@),
        crate::state::same_facts(st@, r.1@),
{
    let st = if op == BinaryOp::Div && b == 0 {
        report(st, span, text("division by zero in constant expression"))
    } else if op == BinaryOp::Rem && b == 0 {
        report(st, span, text("remainder by zero in constant expression"))
    } else {
        st
    };
    match integer_value(op, a, b) {
        None => (
            None,
            report(st, span, cat2("constant expression overflows ", &type_text(t))),
        ),
        Some(v) => if value_fits_type(v, t) {
            (Some(TypedConst::Int(v)), st)
        } else {
            let message = cat4(
                "constant expression value ",
                &int_text(v),
                " does not fit in ",
                &type_text(t),
            );
            (None, report(st, span, message))
        },
    }
}

/// What [`float_op_of`] computes.
pub open spec fn float_op_of_spec(op: BinaryOp) -> Option<FloatOpView>
{
    match op {
        BinaryOp::Add => Some(FloatOpView::Add),
        BinaryOp::Sub => Some(FloatOpView::Sub),
        BinaryOp::Mul => Some(FloatOpView::Mul),
        BinaryOp::Div => Some(FloatOpView::Div),
        _ => None,
    }
}

pub fn float_op_of(op: BinaryOp) -> (r: Option<FloatOp>)
    ensures
        (match &r { Some(v0) => Some(v0@), None => None }) == float_op_of_spec(op),
{
    match op {
        BinaryOp::Add => Some(FloatOp::Add),
        BinaryOp::Sub => Some(FloatOp::Sub),
        BinaryOp::Mul => Some(FloatOp::Mul),
        BinaryOp::Div => Some(FloatOp::Div),
        _ => None,
    }
}

/// What [`eval_float_binary`] computes.
pub open spec fn eval_float_binary_spec(
    op: BinaryOp,
    left: TypedConstView,
    right: TypedConstView,
    t: TypeView,
    span: Span,
    st: StateView,
) -> (Option<TypedConstView>, StateView)
{
    match const_to_float_spec(left, st) {
        (None, st) => (None, st),
        (Some(a), st) => match const_to_float_spec(right, st) {
            (None, st) => (None, st),
            (Some(b), st) => if op == BinaryOp::Div && float_is_zero_spec(b) {
                (
                    None,
                    crate::scope::report_spec(
                        st,
                        span,
                        "floating-point division by zero in constant expression"@,
                    ),
                )
            } else {
                match float_op_of_spec(op) {
                    None => (None, st),
                    Some(float_op) => match float_ask_spec(float_op, a, b, st) {
                        (None, st) => (None, st),
                        (Some(v), st) => if !finite_float_value_spec(v, t) {
                            let message = "floating-point constant expression is not finite in "@
                                + crate::ast::type_text_spec(t);
                            (None, crate::scope::report_spec(st, span, message))
                        } else {
                            match narrow_float_value_spec(v, t, st) {
                                (Some(v), st) => (Some(TypedConstView::Float(v)), st),
                                (None, st) => (None, st),
                            }
                        },
                    },
                }
            },
        },
    }
}

/// Folds a floating-point operation.
pub fn eval_float_binary(
    op: BinaryOp,
    left: &TypedConst,
    right: &TypedConst,
    t: &Type,
    span: Span,
    st: State,
) -> (r: (Option<TypedConst>, State))
    ensures
        (
            (match &r.0 { Some(v0) => Some(v0@), None => None }),
            r.1@,
        ) == eval_float_binary_spec(op, left@, right@, t@, span, st@),
        crate::state::follows(st@, r.1@),
        crate::state::balanced(st@, r.1@),
        crate::state::same_facts(st@, r.1@),
{
    match const_to_float(left, st) {
        (None, st) => (None, st),
        (Some(a), st) => match const_to_float(right, st) {
            (None, st) => (None, st),
            (Some(b), st) => if op == BinaryOp::Div && float_is_zero(&b) {
                (
                    None,
                    report(
                        st,
                        span,
                        text("floating-point division by zero in constant expression"),
                    ),
                )
            } else {
                match float_op_of(op) {
                    None => (None, st),
                    Some(float_op) => match float_ask(float_op, &a, &b, st) {
                        (None, st) => (None, st),
                        (Some(v), st) => if !finite_float_value(&v, t) {
                            let message = cat2(
                                "floating-point constant expression is not finite in ",
                                &type_text(t),
                            );
                            (None, report(st, span, message))
                        } else {
                            match narrow_float_value(v, t, st) {
                                (Some(v), st) => (Some(TypedConst::Float(v)), st),
                                (None, st) => (None, st),
                            }
                        },
                    },
                }
            },
        },
    }
}

/// What [`eval_shift`] computes.
pub open spec fn eval_shift_spec(
    op: BinaryOp,
    value: i128,
    count: u32,
    t: TypeView,
    span: Span,
    st: StateView,
) -> (Option<TypedConstView>, StateView)
{
    let shifted = match op {
        BinaryOp::Shl => int_shl_spec(value, count),
        BinaryOp::Shr => int_shr_spec(value, count),
        _ => None,
    };
    match shifted {
        None => (
            None,
            crate::scope::report_spec(st, span, "shift overflows in constant expression"@),
        ),
        Some(v) => if value_fits_type_spec(v, t) {
            (Some(TypedConstView::Int(v)), st)
        } else {
            let message = "shift result value "@ + crate::text::decimal(v as int)
                + " does not fit in "@ + crate::ast::type_text_spec(t);
            (None, crate::scope::report_spec(st, span, message))
        },
    }
}

/// Folds a shift.
pub fn eval_shift(
    op: BinaryOp,
    value: i128,
    count: u32,
    t: &Type,
    span: Span,
    st: State,
) -> (r: (Option<TypedConst>, State))
    ensures
        (
            (match &r.0 { Some(v0) => Some(v0@), None => None }),
            r.1@,
        ) == eval_shift_spec(op, value, count, t@, span, st@),
        crate::state::follows(st@, r.1@),
        crate::state::balanced(st@, r.1@),
        crate::state::same_facts(st@, r.1@),
{
    let shifted = match op {
        BinaryOp::Shl => int_shl(value, count),
        BinaryOp::Shr => int_shr(value, count),
        _ => None,
    };
    match shifted {
        None => (None, report(st, span, text("shift overflows in constant expression"))),
        Some(v) => if value_fits_type(v, t) {
            (Some(TypedConst::Int(v)), st)
        } else {
            let message = cat4(
                "shift result value ",
                &int_text(v),
                " does not fit in ",
                &type_text(t),
            );
            (None, report(st, span, message))
        },
    }
}

/// What [`require_type`] computes.
pub open spec fn require_type_spec(
    actual: TypeView,
    expected: TypeView,
    span: Span,
    context: Seq<char>,
    st: StateView,
) -> StateView
{
    if actual == expected {
        st
    } else {
        let message = context + " must be "@ + crate::ast::type_text_spec(expected) + ", got "@
            + crate::ast::type_text_spec(actual);
        crate::scope::report_spec(st, span, message)
    }
}

/// Reports a type other than the expected one.
pub fn require_type(
    actual: &Type,
    expected: &Type,
    span: Span,
    context: &str,
    st: State,
) -> (r: State)
    ensures
        r@ == require_type_spec(actual@, expected@, span, context@, st@),
        crate::state::follows(st@, r@),
        crate::state::balanced(st@, r@),
        crate::state::same_facts(st@, r@),
{
    if type_eq(actual, expected) {
        st
    } else {
        let message = cat5(
            context,
            " must be ",
            &type_text(expected),
            ", got ",
            &type_text(actual),
        );
        report(st, span, message)
    }
}

/// An array literal whose elements are converted is well typed, and so is a
/// new channel of another type.
proof fn coerced_literals_fit(
    c: CheckedExprView,
    t: TypeView,
    span: Span,
    st: StateView,
    d: Declared,
)
    requires
        crate::typing::fits(c, d),
    ensures
        crate::typing::may_fit(coerce_array_spec(c, t, span), d),
        crate::typing::may_fit(coerce_channel_spec(c, t, span, st).0, d),
{
    reveal(crate::typing::well_typed);
    if let TypedExprKindView::ArrayLit { elements } = c.expr.kind {
        if let TypeView::Array { element, .. } = t {
            let out = cast_elements_spec(elements, *element);
            assert forall|i: int| 0 <= i < out.len() implies crate::typing::well_typed(
                #[trigger] out[i],
                d,
            ) by {
                assert(crate::typing::well_typed(elements[i], d));
            }
        }
    }
}

/// A type holds all values of another one exactly where both are integer types
/// and each value of the other one is one of its own.
pub proof fn representing_is_inclusion(destination: TypeView, source: TypeView)
    ensures
        can_represent_all_spec(destination, source) <==> crate::types::is_integer_spec(destination)
            && crate::types::is_integer_spec(source) && forall|v: i128|
            value_fits_type_spec(v, source) ==> #[trigger] value_fits_type_spec(v, destination),
{
    if crate::types::is_integer_spec(destination) && crate::types::is_integer_spec(source)
        && !can_represent_all_spec(
        destination,
        source,
    ) {
        let low = crate::types::min_value_spec(source)->0;
        let high = crate::types::max_value_spec(source)->0;
        assert(value_fits_type_spec(low, source));
        assert(value_fits_type_spec(high, source));
        assert(!value_fits_type_spec(low, destination) || !value_fits_type_spec(high, destination));
    }
}

/// Two integer types are promoted to the one that holds all values of the
/// other, and are refused where neither does.
pub proof fn promotion_loses_nothing(left: TypeView, right: TypeView)
    ensures
        common_integer_type_spec(left, right) matches Some(t) ==> can_represent_all_spec(t, left)
            && can_represent_all_spec(t, right) && (t == left || t == right),
        common_integer_type_spec(left, right) is None <==> !can_represent_all_spec(left, right)
            && !can_represent_all_spec(right, left),
{
}

/// Promotion does not depend on the order of the operands.
pub proof fn promotion_is_symmetric(left: TypeView, right: TypeView)
    ensures
        common_integer_type_spec(left, right) == common_integer_type_spec(right, left),
{
}

/// A folded integer operation has a value of its type, or it is reported.
pub proof fn folded_value_fits_or_is_reported(
    op: BinaryOp,
    a: i128,
    b: i128,
    t: TypeView,
    span: Span,
    st: StateView,
)
    ensures
        ({
            let r = eval_integer_binary_spec(op, a, b, t, span, st);
            match r.0 {
                Some(c) => r.1 == st && (c matches TypedConstView::Int(v) && value_fits_type_spec(v, t)
                    && integer_value_spec(op, a, b) == Some(v)),
                None => r.1.diagnostics.len() > st.diagnostics.len(),
            }
        }),
{
}

/// So has a folded shift.
pub proof fn folded_shift_fits_or_is_reported(
    op: BinaryOp,
    value: i128,
    count: u32,
    t: TypeView,
    span: Span,
    st: StateView,
)
    ensures
        ({
            let r = eval_shift_spec(op, value, count, t, span, st);
            match r.0 {
                Some(c) => r.1 == st && (c matches TypedConstView::Int(v) && value_fits_type_spec(v, t)),
                None => r.1.diagnostics.len() > st.diagnostics.len(),
            }
        }),
{
}

/// An integer constant is cast to an integer type exactly where its value is
/// one of the type, and keeps its value.
pub proof fn integer_cast_keeps_the_value(v: i128, t: TypeView, st: StateView)
    requires
        crate::types::is_integer_spec(t),
    ensures
        eval_cast_constant_no_diagnostic_spec(TypedConstView::Int(v), t, st) == (
            if value_fits_type_spec(v, t) {
                Some(TypedConstView::Int(v))
            } else {
                None
            },
            st,
        ),
{
}

/// A capacity is accepted exactly where it is a power of two.
pub proof fn accepted_capacity_is_a_power_of_two(n: u64)
    ensures
        channel_capacity_is_pow2_spec(n) <==> exists|k: u64| k < 64 && n == #[trigger] (1u64 << k),
{
    if channel_capacity_is_pow2_spec(n) {
        let m = (n - 1) as u64;
        assert(n == 1u64 << 0u64 || n == 1u64 << 1u64 || n == 1u64 << 2u64 || n == 1u64 << 3u64
            || n == 1u64 << 4u64 || n == 1u64 << 5u64 || n == 1u64 << 6u64 || n == 1u64 << 7u64
            || n == 1u64 << 8u64 || n == 1u64 << 9u64 || n == 1u64 << 10u64 || n == 1u64 << 11u64
            || n == 1u64 << 12u64 || n == 1u64 << 13u64 || n == 1u64 << 14u64 || n == 1u64 << 15u64
            || n == 1u64 << 16u64 || n == 1u64 << 17u64 || n == 1u64 << 18u64 || n == 1u64 << 19u64
            || n == 1u64 << 20u64 || n == 1u64 << 21u64 || n == 1u64 << 22u64 || n == 1u64 << 23u64
            || n == 1u64 << 24u64 || n == 1u64 << 25u64 || n == 1u64 << 26u64 || n == 1u64 << 27u64
            || n == 1u64 << 28u64 || n == 1u64 << 29u64 || n == 1u64 << 30u64 || n == 1u64 << 31u64
            || n == 1u64 << 32u64 || n == 1u64 << 33u64 || n == 1u64 << 34u64 || n == 1u64 << 35u64
            || n == 1u64 << 36u64 || n == 1u64 << 37u64 || n == 1u64 << 38u64 || n == 1u64 << 39u64
            || n == 1u64 << 40u64 || n == 1u64 << 41u64 || n == 1u64 << 42u64 || n == 1u64 << 43u64
            || n == 1u64 << 44u64 || n == 1u64 << 45u64 || n == 1u64 << 46u64 || n == 1u64 << 47u64
            || n == 1u64 << 48u64 || n == 1u64 << 49u64 || n == 1u64 << 50u64 || n == 1u64 << 51u64
            || n == 1u64 << 52u64 || n == 1u64 << 53u64 || n == 1u64 << 54u64 || n == 1u64 << 55u64
            || n == 1u64 << 56u64 || n == 1u64 << 57u64 || n == 1u64 << 58u64 || n == 1u64 << 59u64
            || n == 1u64 << 60u64 || n == 1u64 << 61u64 || n == 1u64 << 62u64
                || n == 1u64 << 63u64) by (bit_vector)
            requires
                n > 0,
                m == n - 1,
                n & m == 0,
        ;
    }
    assert forall|k: u64| k < 64
        && n == #[trigger] (1u64 << k) implies channel_capacity_is_pow2_spec(n) by {
        assert(n > 0) by (bit_vector)
            requires
                k < 64,
                n == 1u64 << k,
        ;
        let m = (n - 1) as u64;
        assert(n & m == 0) by (bit_vector)
            requires
                k < 64,
                n == 1u64 << k,
                m == n - 1,
        ;
    }
}

/// `q` is the quotient of two integers rounded towards zero, and `r` what
/// remains: it is smaller than the divisor and has the sign of the dividend.
pub open spec fn divides(a: int, b: int, q: int, r: int) -> bool {
    &&& a == q * b + r
    &&& -(if b < 0 { -b } else { b }) < r < (if b < 0 { -b } else { b })
    &&& r > 0 ==> a > 0
    &&& r < 0 ==> a < 0
}

/// A bit of an integer in two's complement.
pub open spec fn bit(v: i128, k: u32) -> bool {
    (v >> k) & 1 == 1
}

/// What an integer operation means, whatever way it is computed.
pub open spec fn is_result(op: BinaryOp, a: i128, b: i128, v: i128) -> bool {
    match op {
        BinaryOp::Add => v == a + b,
        BinaryOp::Sub => v == a - b,
        BinaryOp::Mul => v == a * b,
        BinaryOp::Div => divides(a as int, b as int, v as int, a - v * b),
        BinaryOp::Rem => exists|q: int| #[trigger] divides(a as int, b as int, q, v as int),
        BinaryOp::BitAnd => forall|k: u32| k < 128
            ==> #[trigger] bit(v, k) == (bit(a, k) && bit(b, k)),
        BinaryOp::BitOr => forall|k: u32| k < 128
            ==> #[trigger] bit(v, k) == (bit(a, k) || bit(b, k)),
        BinaryOp::BitXor => forall|k: u32| k < 128
            ==> #[trigger] bit(v, k) == (bit(a, k) != bit(b, k)),
        BinaryOp::Shl => forall|k: u32|
            k < 128 ==> #[trigger] bit(v, k) == (k >= b && bit(a, (k - b) as u32)),
        BinaryOp::Shr => forall|k: u32|
            k < 128
                ==> #[trigger] bit(v, k) == bit(a, if k + b < 128 { (k + b) as u32 } else { 127 }),
        _ => false,
    }
}

/// Division rounds towards zero.
proof fn quotient_rounds(x: int, d: int) -> (r: (int, int))
    requires
        d != 0,
    ensures
        divides(x, d, r.0, r.1),
        r.0 == (if x == 0 {
            0
        } else if x > 0 && d > 0 {
            x / d
        } else if x < 0 && d < 0 {
            (-x) / (-d)
        } else if x < 0 {
            -((-x) / d)
        } else {
            -(x / (-d))
        }),
        r.1 == (if x == 0 {
            0
        } else if x > 0 && d > 0 {
            x % d
        } else if x < 0 && d < 0 {
            -((-x) % (-d))
        } else if x < 0 {
            -((-x) % d)
        } else {
            x % (-d)
        }),
{
    let y = if x < 0 { -x } else { x };
    let e = if d < 0 { -d } else { d };
    let q = y / e;
    let m = y % e;
    vstd::arithmetic::div_mod::lemma_fundamental_div_mod(y, e);
    vstd::arithmetic::div_mod::lemma_mod_bound(y, e);
    let quotient = if (x < 0) == (d < 0) { q } else { -q };
    let rest = if x < 0 { -m } else { m };
    assert(x == quotient * d + rest) by (nonlinear_arith)
        requires
            y == e * q + m,
            y == (if x < 0 { -x } else { x }),
            e == (if d < 0 { -d } else { d }),
            quotient == (if (x < 0) == (d < 0) { q } else { -q }),
            rest == (if x < 0 { -m } else { m }),
    ;
    if x == 0 {
        assert(q == 0) by (nonlinear_arith)
            requires
                0 == e * q + m,
                0 <= m < e,
        ;
        return (0, 0);
    }
    (quotient, rest)
}

/// There is one such quotient, and one such rest.
proof fn quotient_is_unique(a: int, b: int, q: int, r: int, p: int, s: int)
    requires
        b != 0,
        divides(a, b, q, r),
        divides(a, b, p, s),
    ensures
        q == p,
        r == s,
{
    assert((q - p) * b == s - r) by (nonlinear_arith)
        requires
            a == q * b + r,
            a == p * b + s,
    ;
    if q != p {
        assert(
            (q - p) * b >= (if b < 0 { -b } else { b })
                || (q - p) * b <= -(if b < 0 { -b } else { b })
        ) by (nonlinear_arith)
            requires
                q != p,
                b != 0,
        ;
    }
}

/// A folded integer operation has the mathematical value of its operator; and
/// where sum, difference, product, quotient or rest has a value, that value is
/// found.
pub proof fn folded_operation_means_its_operator(op: BinaryOp, a: i128, b: i128)
    ensures
        integer_value_spec(op, a, b) matches Some(v) ==> is_result(op, a, b, v),
        (op is Add || op is Sub || op is Mul || (op is Div && b != 0))
            ==> forall|v: i128| #[trigger]
            is_result(op, a, b, v) ==> integer_value_spec(op, a, b) == Some(v),
        op is Rem && b != 0
            && !(a == i128::MIN && b == -1) ==> integer_value_spec(op, a, b) is Some,
        (op is BitAnd || op is BitOr || op is BitXor) ==> integer_value_spec(op, a, b) is Some,
{
    match op {
        BinaryOp::Div => {
            if b != 0 {
                let (q, r) = quotient_rounds(a as int, b as int);
                assert(r == a - q * b);
                assert forall|v: i128| #[trigger] is_result(
                    op,
                    a,
                    b,
                    v,
                ) implies integer_value_spec(op, a, b) == Some(v) by {
                    quotient_is_unique(a as int, b as int, q, r, v as int, a - v * b);
                }
            }
        },
        BinaryOp::Rem => {
            if b != 0 {
                let (q, r) = quotient_rounds(a as int, b as int);
                assert(divides(a as int, b as int, q, r));
            }
        },
        BinaryOp::BitAnd => {
            assert forall|k: u32| k < 128 implies #[trigger] bit(
                a & b,
                k,
            ) == (bit(a, k) && bit(b, k)) by {
                assert(
                    ((a & b) >> k) & 1 == 1 <==> ((a >> k) & 1 == 1 && (b >> k) & 1 == 1)
                ) by (bit_vector)
                    requires
                        k < 128,
                ;
            }
        },
        BinaryOp::BitOr => {
            assert forall|k: u32| k < 128 implies #[trigger] bit(a | b, k) == (bit(a, k) || bit(b, k)) by {
                assert(((a | b) >> k) & 1 == 1 <==> ((a >> k) & 1 == 1 || (b >> k) & 1 == 1)) by (bit_vector)
                    requires
                        k < 128,
                ;
            }
        },
        BinaryOp::BitXor => {
            assert forall|k: u32| k < 128 implies #[trigger] bit(
                a ^ b,
                k,
            ) == (bit(a, k) != bit(b, k)) by {
                assert(
                    (((a ^ b) >> k) & 1 == 1) == (((a >> k) & 1 == 1) != ((b >> k) & 1 == 1))
                ) by (bit_vector)
                    requires
                        k < 128,
                ;
            }
        },
        _ => {},
    }
}

/// So has a folded shift: the bits move, zeros come in from below and the sign
/// from above.
pub proof fn folded_shift_moves_bits(
    op: BinaryOp,
    value: i128,
    count: u32,
    t: TypeView,
    span: Span,
    st: StateView,
)
    ensures
        eval_shift_spec(op, value, count, t, span, st).0 matches Some(c)
            ==> (op is Shl || op is Shr)
            && (
        c matches TypedConstView::Int(v) && is_result(op, value, count as i128, v)),
{
    if count < 128 {
        assert forall|k: u32| k < 128 implies #[trigger] bit(
            value << count, k,
        ) == (k >= count && bit(
            value,
            (k - count) as u32,
        )) by {
            if k >= count {
                let j = (k - count) as u32;
                assert(
                    (((value << count) >> k) & 1 == 1) == ((value >> j) & 1 == 1)
                ) by (bit_vector)
                    requires
                        k < 128,
                        count <= k,
                        j == k - count,
                ;
            } else {
                assert(((value << count) >> k) & 1 == 0) by (bit_vector)
                    requires
                        k < count,
                        count < 128,
                ;
            }
        }
        assert forall|k: u32| k < 128 implies #[trigger] bit(value >> count, k) == bit(
            value,
            if k + count < 128 { (k + count) as u32 } else { 127 },
        ) by {
            if k + count < 128 {
                let j = (k + count) as u32;
                assert(
                    (((value >> count) >> k) & 1 == 1) == ((value >> j) & 1 == 1)
                ) by (bit_vector)
                    requires
                        k < 128,
                        count < 128,
                        j == k + count,
                        j < 128,
                ;
            } else {
                assert(
                    (((value >> count) >> k) & 1 == 1) == ((value >> 127u32) & 1 == 1)
                ) by (bit_vector)
                    requires
                        k < 128,
                        count < 128,
                        k + count >= 128,
                ;
            }
        }
    }
}

} // verus!
