//! Constructors of syntax trees.

use vstd::prelude::*;
use crate::ast::{
    BinaryOp, Expr, ExprKind, ExprKindView, ExprView, FloatLit, FloatLitView, MatchArm,
    MatchArmView, Pattern, PatternView, Span, Stmt, StmtView, Type, TypeView, UnaryOp,
};
use crate::text::{text};

verus! {

broadcast use {crate::ast::group_ast_views};

/// What [`mk_int`] computes.
pub open spec fn mk_int_spec(v: i128, span: Span) -> ExprView
{
    ExprView { kind: ExprKindView::Int(v), span }
}

pub fn mk_int(v: i128, span: Span) -> (r: Expr)
    ensures
        r@ == mk_int_spec(v, span),
{
    Expr { kind: ExprKind::Int(v), span }
}

/// What [`mk_float`] computes.
pub open spec fn mk_float_spec(v: FloatLitView, span: Span) -> ExprView
{
    ExprView { kind: ExprKindView::Float(v), span }
}

pub fn mk_float(v: FloatLit, span: Span) -> (r: Expr)
    ensures
        r@ == mk_float_spec(v@, span),
{
    Expr { kind: ExprKind::Float(v), span }
}

/// What [`mk_bool`] computes.
pub open spec fn mk_bool_spec(v: bool, span: Span) -> ExprView
{
    ExprView { kind: ExprKindView::Bool(v), span }
}

pub fn mk_bool(v: bool, span: Span) -> (r: Expr)
    ensures
        r@ == mk_bool_spec(v, span),
{
    Expr { kind: ExprKind::Bool(v), span }
}

/// What [`mk_str`] computes.
pub open spec fn mk_str_spec(v: Seq<char>, span: Span) -> ExprView
{
    ExprView { kind: ExprKindView::Str(v), span }
}

pub fn mk_str(v: String, span: Span) -> (r: Expr)
    ensures
        r@ == mk_str_spec(v@, span),
{
    Expr { kind: ExprKind::Str(v), span }
}

/// What [`mk_var`] computes.
pub open spec fn mk_var_spec(name: Seq<char>, span: Span) -> ExprView
{
    ExprView { kind: ExprKindView::Var(name), span }
}

pub fn mk_var(name: &str, span: Span) -> (r: Expr)
    ensures
        r@ == mk_var_spec(name@, span),
{
    Expr { kind: ExprKind::Var(text(name)), span }
}

/// What [`mk_unary`] computes.
pub open spec fn mk_unary_spec(op: UnaryOp, expr: ExprView, span: Span) -> ExprView
{
    ExprView { kind: ExprKindView::Unary { op, expr: Box::new(expr) }, span }
}

pub fn mk_unary(op: UnaryOp, expr: Expr, span: Span) -> (r: Expr)
    ensures
        r@ == mk_unary_spec(op, expr@, span),
{
    Expr { kind: ExprKind::Unary { op, expr: Box::new(expr) }, span }
}

/// What [`mk_binary`] computes.
pub open spec fn mk_binary_spec(
    op: BinaryOp,
    left: ExprView,
    right: ExprView,
    span: Span,
) -> ExprView
{
    ExprView {
        kind: ExprKindView::Binary { op, left: Box::new(left), right: Box::new(right) },
        span,
    }
}

pub fn mk_binary(op: BinaryOp, left: Expr, right: Expr, span: Span) -> (r: Expr)
    ensures
        r@ == mk_binary_spec(op, left@, right@, span),
{
    Expr { kind: ExprKind::Binary { op, left: Box::new(left), right: Box::new(right) }, span }
}

/// What [`mk_call`] computes.
pub open spec fn mk_call_spec(
    name: Seq<char>,
    name_span: Span,
    args: Seq<ExprView>,
    span: Span,
) -> ExprView
{
    ExprView { kind: ExprKindView::Call { name: name, name_span, args }, span }
}

pub fn mk_call(name: &str, name_span: Span, args: Vec<Expr>, span: Span) -> (r: Expr)
    ensures
        r@ == mk_call_spec(name@, name_span, crate::ast::exprs_view(args@), span),
{
    Expr { kind: ExprKind::Call { name: text(name), name_span, args }, span }
}

/// What [`mk_method_call`] computes.
pub open spec fn mk_method_call_spec(
    receiver: ExprView,
    method: Seq<char>,
    method_span: Span,
    args: Seq<ExprView>,
    span: Span,
) -> ExprView
{
    ExprView {
        kind: ExprKindView::MethodCall {
            receiver: Box::new(receiver),
            method: method,
            method_span,
            args,
        },
        span,
    }
}

pub fn mk_method_call(
    receiver: Expr,
    method: &str,
    method_span: Span,
    args: Vec<Expr>,
    span: Span,
) -> (r: Expr)
    ensures
        r@ == mk_method_call_spec(
            receiver@,
            method@,
            method_span,
            crate::ast::exprs_view(args@),
            span,
        ),
{
    Expr {
        kind: ExprKind::MethodCall {
            receiver: Box::new(receiver),
            method: text(method),
            method_span,
            args,
        },
        span,
    }
}

/// What [`mk_cast`] computes.
pub open spec fn mk_cast_spec(expr: ExprView, ty: TypeView, span: Span) -> ExprView
{
    ExprView { kind: ExprKindView::Cast { expr: Box::new(expr), ty }, span }
}

pub fn mk_cast(expr: Expr, ty: Type, span: Span) -> (r: Expr)
    ensures
        r@ == mk_cast_spec(expr@, ty@, span),
{
    Expr { kind: ExprKind::Cast { expr: Box::new(expr), ty }, span }
}

/// What [`mk_array`] computes.
pub open spec fn mk_array_spec(elements: Seq<ExprView>, span: Span) -> ExprView
{
    ExprView { kind: ExprKindView::ArrayLit { elements }, span }
}

pub fn mk_array(elements: Vec<Expr>, span: Span) -> (r: Expr)
    ensures
        r@ == mk_array_spec(crate::ast::exprs_view(elements@), span),
{
    Expr { kind: ExprKind::ArrayLit { elements }, span }
}

/// What [`mk_index`] computes.
pub open spec fn mk_index_spec(array: ExprView, index: ExprView, span: Span) -> ExprView
{
    ExprView { kind: ExprKindView::Index { array: Box::new(array), index: Box::new(index) }, span }
}

pub fn mk_index(array: Expr, index: Expr, span: Span) -> (r: Expr)
    ensures
        r@ == mk_index_spec(array@, index@, span),
{
    Expr { kind: ExprKind::Index { array: Box::new(array), index: Box::new(index) }, span }
}

/// What [`mk_len`] computes.
pub open spec fn mk_len_spec(array: ExprView, span: Span) -> ExprView
{
    ExprView { kind: ExprKindView::Len { array: Box::new(array) }, span }
}

pub fn mk_len(array: Expr, span: Span) -> (r: Expr)
    ensures
        r@ == mk_len_spec(array@, span),
{
    Expr { kind: ExprKind::Len { array: Box::new(array) }, span }
}

/// What [`mk_ref`] computes.
pub open spec fn mk_ref_spec(inner: ExprView, span: Span) -> ExprView
{
    ExprView { kind: ExprKindView::Ref { inner: Box::new(inner) }, span }
}

pub fn mk_ref(inner: Expr, span: Span) -> (r: Expr)
    ensures
        r@ == mk_ref_spec(inner@, span),
{
    Expr { kind: ExprKind::Ref { inner: Box::new(inner) }, span }
}

/// What [`mk_ref_mut`] computes.
pub open spec fn mk_ref_mut_spec(inner: ExprView, span: Span) -> ExprView
{
    ExprView { kind: ExprKindView::RefMut { inner: Box::new(inner) }, span }
}

pub fn mk_ref_mut(inner: Expr, span: Span) -> (r: Expr)
    ensures
        r@ == mk_ref_mut_spec(inner@, span),
{
    Expr { kind: ExprKind::RefMut { inner: Box::new(inner) }, span }
}

/// What [`mk_tuple`] computes.
pub open spec fn mk_tuple_spec(elements: Seq<ExprView>, span: Span) -> ExprView
{
    ExprView { kind: ExprKindView::Tuple(elements), span }
}

pub fn mk_tuple(elements: Vec<Expr>, span: Span) -> (r: Expr)
    ensures
        r@ == mk_tuple_spec(crate::ast::exprs_view(elements@), span),
{
    Expr { kind: ExprKind::Tuple(elements), span }
}

/// What [`mk_tuple_access`] computes.
pub open spec fn mk_tuple_access_spec(tuple: ExprView, index: u32, span: Span) -> ExprView
{
    ExprView { kind: ExprKindView::TupleAccess { tuple: Box::new(tuple), index }, span }
}

pub fn mk_tuple_access(tuple: Expr, index: u32, span: Span) -> (r: Expr)
    ensures
        r@ == mk_tuple_access_spec(tuple@, index, span),
{
    Expr { kind: ExprKind::TupleAccess { tuple: Box::new(tuple), index }, span }
}

/// What [`mk_struct_lit`] computes.
pub open spec fn mk_struct_lit_spec(
    struct_name: Seq<char>,
    struct_name_span: Span,
    fields: Seq<(Seq<char>, ExprView)>,
    span: Span,
) -> ExprView
{
    ExprView {
        kind: ExprKindView::StructLit { struct_name: struct_name, struct_name_span, fields },
        span,
    }
}

pub fn mk_struct_lit(
    struct_name: &str,
    struct_name_span: Span,
    fields: Vec<(String, Expr)>,
    span: Span,
) -> (r: Expr)
    ensures
        r@ == mk_struct_lit_spec(
            struct_name@,
            struct_name_span,
            crate::ast::named_exprs_view(fields@),
            span,
        ),
{
    Expr {
        kind: ExprKind::StructLit { struct_name: text(struct_name), struct_name_span, fields },
        span,
    }
}

/// What [`mk_field`] computes.
pub open spec fn mk_field_spec(object: ExprView, field: Seq<char>, span: Span) -> ExprView
{
    ExprView { kind: ExprKindView::FieldAccess { object: Box::new(object), field: field }, span }
}

pub fn mk_field(object: Expr, field: &str, span: Span) -> (r: Expr)
    ensures
        r@ == mk_field_spec(object@, field@, span),
{
    Expr { kind: ExprKind::FieldAccess { object: Box::new(object), field: text(field) }, span }
}

/// What [`mk_match`] computes.
pub open spec fn mk_match_spec(scrutinee: ExprView, arms: Seq<MatchArmView>, span: Span) -> ExprView
{
    ExprView { kind: ExprKindView::Match { scrutinee: Box::new(scrutinee), arms }, span }
}

pub fn mk_match(scrutinee: Expr, arms: Vec<MatchArm>, span: Span) -> (r: Expr)
    ensures
        r@ == mk_match_spec(scrutinee@, crate::ast::arms_view(arms@), span),
{
    Expr { kind: ExprKind::Match { scrutinee: Box::new(scrutinee), arms }, span }
}

/// What [`mk_if`] computes.
pub open spec fn mk_if_spec(
    cond: ExprView,
    then_value: ExprView,
    else_value: ExprView,
    span: Span,
) -> ExprView
{
    ExprView {
        kind: ExprKindView::IfExpr {
            cond: Box::new(cond),
            then_value: Box::new(then_value),
            else_value: Box::new(else_value),
        },
        span,
    }
}

pub fn mk_if(cond: Expr, then_value: Expr, else_value: Expr, span: Span) -> (r: Expr)
    ensures
        r@ == mk_if_spec(cond@, then_value@, else_value@, span),
{
    Expr {
        kind: ExprKind::IfExpr {
            cond: Box::new(cond),
            then_value: Box::new(then_value),
            else_value: Box::new(else_value),
        },
        span,
    }
}

/// What [`mk_block`] computes.
pub open spec fn mk_block_spec(stmts: Seq<StmtView>, tail: ExprView, span: Span) -> ExprView
{
    ExprView { kind: ExprKindView::Block { stmts, tail: Box::new(tail) }, span }
}

pub fn mk_block(stmts: Vec<Stmt>, tail: Expr, span: Span) -> (r: Expr)
    ensures
        r@ == mk_block_spec(crate::ast::stmts_view(stmts@), tail@, span),
{
    Expr { kind: ExprKind::Block { stmts, tail: Box::new(tail) }, span }
}

/// What [`mk_try`] computes.
pub open spec fn mk_try_spec(inner: ExprView, span: Span) -> ExprView
{
    ExprView { kind: ExprKindView::Try { inner: Box::new(inner) }, span }
}

pub fn mk_try(inner: Expr, span: Span) -> (r: Expr)
    ensures
        r@ == mk_try_spec(inner@, span),
{
    Expr { kind: ExprKind::Try { inner: Box::new(inner) }, span }
}

/// What [`mk_arm`] computes.
pub open spec fn mk_arm_spec(
    pattern: PatternView,
    pattern_span: Span,
    body: ExprView,
) -> MatchArmView
{
    MatchArmView { pattern, pattern_span, body }
}

pub fn mk_arm(pattern: Pattern, pattern_span: Span, body: Expr) -> (r: MatchArm)
    ensures
        r@ == mk_arm_spec(pattern@, pattern_span, body@),
{
    MatchArm { pattern, pattern_span, body }
}

/// What [`mk_let`] computes.
pub open spec fn mk_let_spec(
    name: Seq<char>,
    annotation: Option<TypeView>,
    expr: ExprView,
    span: Span,
) -> StmtView
{
    StmtView::Let { name: name, annotation, expr, span }
}

pub fn mk_let(name: &str, annotation: Option<Type>, expr: Expr, span: Span) -> (r: Stmt)
    ensures
        r@ == mk_let_spec(
            name@,
            (match &annotation { Some(v0) => Some(v0@), None => None }),
            expr@,
            span,
        ),
{
    Stmt::Let { name: text(name), annotation, expr, span }
}

/// What [`mk_return`] computes.
pub open spec fn mk_return_spec(expr: ExprView, span: Span) -> StmtView
{
    StmtView::Return { expr, span }
}

pub fn mk_return(expr: Expr, span: Span) -> (r: Stmt)
    ensures
        r@ == mk_return_spec(expr@, span),
{
    Stmt::Return { expr, span }
}

} // verus!
