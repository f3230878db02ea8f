//! Checking expressions.

use vstd::prelude::*;
use crate::ast::{
    Expr, ExprKind, ExprKindView, ExprView, MatchArm, MatchArmView, PrintItem, PrintItemView, Span,
    Stmt, StmtView, Type, TypeView, stmt_span, type_text,
};
use crate::calls::{
    ArmScan, ArmScanView, Receiver, TextScan, TextScanView, arg_span, arm_binding, arm_key,
    associated_count, atomic_cell_element, bind_let, block_expr, builtin_call, call_args,
    call_kind, channel_ref_element, check_arg_aliasing, check_array_literal, check_float,
    check_held_mutexes, check_index, check_int, check_len, check_match_str, check_var,
    enum_variant, finish_arg, finish_arm, finish_associated_arg, finish_field_access, finish_if,
    finish_indirect_arg, finish_literal_field, finish_match, finish_push, finish_set,
    finish_text_arm, finish_tuple, finish_tuple_access, finish_variant, finish_vec, indirect_call,
    is_atomic_builtin, is_channel_builtin, is_mutex_builtin, literal_field, lock_mutex,
    match_target, method_target, missing_field, named_enum, named_fn_value, named_function,
    named_variant, new_atomic, no_arms, no_exprs, no_payload, no_such_field, no_texts, one_expr,
    payload_count, push_target, report_count, require_copy_binding, require_guard_ref,
    require_if_condition, require_index, short_circuit, smaller_or_larger, struct_literal,
    text_arm_error, three_exprs, undeclared_field, unreachable_arm, vec_element, vec_of_i64,
};
use crate::diagnostic::{dup_diagnostics};
use crate::effects::{is_text_type};
use crate::ir::{
    TypedConst, TypedConstView, TypedExpr, TypedExprKind, TypedExprKindView, TypedExprView,
    TypedPrintItem, TypedPrintItemView, TypedStmt, TypedStmtView,
};
use crate::numeric::{coerce_checked, explicit_cast};
use crate::operators::{
    atomic_of, channel_of, check_operands, check_ref, check_ref_mut, check_unary, checked_binary,
    guard_of, merge_spans, mutex_of, two_exprs,
};
use crate::scope::{
    checked, fallback, fallback_integer, fresh_var, insert_current, lookup_enum_variant_payload,
    lookup_struct, pop_scope, push_scope, report, signature_get,
};
use crate::state::{
    CheckedExpr, CheckedExprView, Context, ContextView, EnumInfo, EnumInfoView, Signature,
    SignatureView, State, StateView,
};
use crate::text::{cat2, cat3, cat6, push, str_eq, text, usize_text};
use crate::types::{deref, is_bool, is_vec};

verus! {

broadcast use {
    crate::text::group_text_views,
    crate::ast::group_ast_views,
    crate::diagnostic::group_diagnostic_views,
    crate::ir::group_ir_views,
    crate::state::group_state_views,
    crate::state::group_extends,
    crate::state::group_grows,
    crate::typing::leaves_are_typed,
};

/// What [`check_expr`] computes.
pub open spec fn check_expr_spec(
    e: ExprView,
    cx: ContextView,
    st: StateView,
) -> (CheckedExprView, StateView)
    decreases e, 9int, 0int,
{
    match e.kind {
        ExprKindView::Int(v) => crate::calls::check_int_spec(v, e.span, st),
        ExprKindView::Float(v) => (crate::calls::check_float_spec(v, e.span), st),
        ExprKindView::Bool(v) => (
            crate::scope::checked_spec(
                TypedExprKindView::Bool(v),
                TypeView::Bool,
                Some(TypedConstView::Bool(v)),
                e.span,
            ),
            st,
        ),
        ExprKindView::Str(s) => (
            crate::scope::checked_spec(TypedExprKindView::Str(s), TypeView::Str, None, e.span),
            st,
        ),
        ExprKindView::Var(name) => crate::calls::check_var_spec(name, e.span, cx, st),
        ExprKindView::Unary { .. } => check_single_spec(e, cx, st),
        ExprKindView::Cast { .. } => check_single_spec(e, cx, st),
        ExprKindView::Len { .. } => check_single_spec(e, cx, st),
        ExprKindView::TupleAccess { .. } => check_single_spec(e, cx, st),
        ExprKindView::Try { .. } => check_single_spec(e, cx, st),
        ExprKindView::Binary { .. } => check_binary_spec(e, cx, st),
        ExprKindView::Call { name, name_span, .. } => check_call_spec(
            e,
            Receiver::Absent,
            name,
            name_span,
            cx,
            st,
        ),
        ExprKindView::MethodCall { .. } => check_method_call_spec(e, cx, st),
        ExprKindView::ArrayLit { .. } => check_compound_spec(e, cx, st),
        ExprKindView::Index { .. } => check_compound_spec(e, cx, st),
        ExprKindView::IfExpr { .. } => check_compound_spec(e, cx, st),
        ExprKindView::Ref { inner } => crate::operators::check_ref_spec(*inner, e.span, st),
        ExprKindView::RefMut { inner } => crate::operators::check_ref_mut_spec(*inner, e.span, st),
        ExprKindView::Tuple(elements) => check_tuple_spec(elements, e.span, cx, st),
        ExprKindView::StructLit { .. } => check_struct_literal_spec(e, cx, st),
        ExprKindView::FieldAccess { .. } => check_field_access_spec(e, cx, st),
        ExprKindView::Match { .. } => check_match_spec(e, cx, st),
        ExprKindView::Block { .. } => check_block_spec(e, cx, st),
    }
}

/// Checks an expression: what it becomes, and what it reports, moves and asks.
pub fn check_expr(e: &Expr, cx: &Context, st: State) -> (r: (CheckedExpr, State))
    ensures
        (r.0@, r.1@) == check_expr_spec(e@, cx@, st@),
        crate::state::follows(st@, r.1@),
        crate::state::balanced(st@, r.1@),
        crate::state::same_facts(st@, r.1@),
        st@.env.scopes.len() > 0
            && crate::typing::quiet(st@, r.1@)
            ==> crate::typing::fits(r.0@, crate::typing::declared_in(cx@, st@.env)),
    decreases e, 9int, 0int,
{
    match &e.kind {
        ExprKind::Int(v) => check_int(*v, e.span, st),
        ExprKind::Float(v) => (check_float(v, e.span), st),
        ExprKind::Bool(v) => (
            checked(TypedExprKind::Bool(*v), Type::Bool, Some(TypedConst::Bool(*v)), e.span),
            st,
        ),
        ExprKind::Str(s) => (checked(TypedExprKind::Str(s.clone()), Type::Str, None, e.span), st),
        ExprKind::Var(name) => check_var(name, e.span, cx, st),
        ExprKind::Unary { .. } => check_single(e, cx, st),
        ExprKind::Cast { .. } => check_single(e, cx, st),
        ExprKind::Len { .. } => check_single(e, cx, st),
        ExprKind::TupleAccess { .. } => check_single(e, cx, st),
        ExprKind::Try { .. } => check_single(e, cx, st),
        ExprKind::Binary { .. } => check_binary(e, cx, st),
        ExprKind::Call { name, name_span, .. } => check_call(
            e,
            Receiver::Absent,
            name,
            *name_span,
            cx,
            st,
        ),
        ExprKind::MethodCall { .. } => check_method_call(e, cx, st),
        ExprKind::ArrayLit { .. } => check_compound(e, cx, st),
        ExprKind::Index { .. } => check_compound(e, cx, st),
        ExprKind::IfExpr { .. } => check_compound(e, cx, st),
        ExprKind::Ref { inner } => check_ref(&**inner, e.span, st),
        ExprKind::RefMut { inner } => check_ref_mut(&**inner, e.span, st),
        ExprKind::Tuple(elements) => check_tuple(elements, e.span, cx, st),
        ExprKind::StructLit { .. } => check_struct_literal(e, cx, st),
        ExprKind::FieldAccess { .. } => check_field_access(e, cx, st),
        ExprKind::Match { .. } => check_match(e, cx, st),
        ExprKind::Block { .. } => check_block(e, cx, st),
    }
}

/// What [`check_single`] computes.
pub open spec fn check_single_spec(
    e: ExprView,
    cx: ContextView,
    st: StateView,
) -> (CheckedExprView, StateView)
    decreases e, 8int, 0int,
{
    match e.kind {
        ExprKindView::Unary { op, expr } => {
            let (c, st) = check_expr_spec(*expr, cx, st);
            crate::operators::check_unary_spec(op, c, e.span, st)
        },
        ExprKindView::Cast { expr, ty } => {
            let (c, st) = check_expr_spec(*expr, cx, st);
            crate::numeric::explicit_cast_spec(c, ty, e.span, st)
        },
        ExprKindView::Len { array } => {
            let (a, st) = check_expr_spec(*array, cx, st);
            crate::calls::check_len_spec(a, array.span, e.span, st)
        },
        ExprKindView::TupleAccess { tuple, index } => {
            let (c, st) = check_expr_spec(*tuple, cx, st);
            crate::calls::finish_tuple_access_spec(c, index, tuple.span, e.span, st)
        },
        ExprKindView::Try { inner } => {
            let (_, st) = check_expr_spec(*inner, cx, st);
            let message = "`try EXPR` is reserved as a keyword but the desugar to match-with-early-return is still in progress (T2.6 Phase 2). Write the pattern manually: `match opt { Opt.Some(v) then v, Opt.None then return Opt.None };`"@;
            (
                crate::scope::fallback_integer_spec(e.span),
                crate::scope::report_spec(st, e.span, message),
            )
        },
        _ => (crate::scope::fallback_integer_spec(e.span), st),
    }
}

/// An expression on a single operand.
pub fn check_single(e: &Expr, cx: &Context, st: State) -> (r: (CheckedExpr, State))
    ensures
        (r.0@, r.1@) == check_single_spec(e@, cx@, st@),
        crate::state::follows(st@, r.1@),
        crate::state::balanced(st@, r.1@),
        crate::state::same_facts(st@, r.1@),
        st@.env.scopes.len() > 0
            && crate::typing::quiet(st@, r.1@)
            ==> crate::typing::fits(r.0@, crate::typing::declared_in(cx@, st@.env)),
    decreases e, 8int, 0int,
{
    match &e.kind {
        ExprKind::Unary { op, expr } => {
            let (c, st) = check_expr(&**expr, cx, st);
            check_unary(*op, c, e.span, st)
        },
        ExprKind::Cast { expr, ty } => {
            let (c, st) = check_expr(&**expr, cx, st);
            explicit_cast(c, ty, e.span, st)
        },
        ExprKind::Len { array } => {
            let (a, st) = check_expr(&**array, cx, st);
            check_len(a, array.span, e.span, st)
        },
        ExprKind::TupleAccess { tuple, index } => {
            let (c, st) = check_expr(&**tuple, cx, st);
            finish_tuple_access(c, *index, tuple.span, e.span, st)
        },
        ExprKind::Try { inner } => {
            let (_, st) = check_expr(&**inner, cx, st);
            let message = text(
                "`try EXPR` is reserved as a keyword but the desugar to match-with-early-return is still in progress (T2.6 Phase 2). Write the pattern manually: `match opt { Opt.Some(v) then v, Opt.None then return Opt.None };`",
            );
            (fallback_integer(e.span), report(st, e.span, message))
        },
        _ => (fallback_integer(e.span), st),
    }
}

/// What [`check_compound`] computes.
pub open spec fn check_compound_spec(
    e: ExprView,
    cx: ContextView,
    st: StateView,
) -> (CheckedExprView, StateView)
    decreases e, 8int, 0int,
{
    match e.kind {
        ExprKindView::ArrayLit { elements } => {
            let (cs, st) = check_each_spec(elements, cx, Seq::empty(), st, 0);
            crate::calls::check_array_literal_spec(cs, e.span, cx, st)
        },
        ExprKindView::Index { array, index } => {
            let (a, st) = check_expr_spec(*array, cx, st);
            let (k, st) = check_expr_spec(*index, cx, st);
            crate::calls::check_index_spec(a, k, array.span, index.span, e.span, cx, st)
        },
        ExprKindView::IfExpr { cond, then_value, else_value } => {
            let (c, st) = check_expr_spec(*cond, cx, st);
            let st = crate::calls::require_if_condition_spec(c, cond.span, st);
            let (a, st) = check_expr_spec(*then_value, cx, st);
            let (b, st) = check_expr_spec(*else_value, cx, st);
            crate::calls::finish_if_spec(c, a, b, e.span, st)
        },
        _ => (crate::scope::fallback_integer_spec(e.span), st),
    }
}

/// An array literal, an index expression or a conditional expression.
pub fn check_compound(e: &Expr, cx: &Context, st: State) -> (r: (CheckedExpr, State))
    ensures
        (r.0@, r.1@) == check_compound_spec(e@, cx@, st@),
        crate::state::follows(st@, r.1@),
        crate::state::balanced(st@, r.1@),
        crate::state::same_facts(st@, r.1@),
        st@.env.scopes.len() > 0
            && crate::typing::quiet(st@, r.1@)
            ==> crate::typing::fits(r.0@, crate::typing::declared_in(cx@, st@.env)),
    decreases e, 8int, 0int,
{
    match &e.kind {
        ExprKind::ArrayLit { elements } => {
            let (cs, st) = check_each(elements, cx, Vec::new(), st);
            check_array_literal(&cs, e.span, cx, st)
        },
        ExprKind::Index { array, index } => {
            let (a, st) = check_expr(&**array, cx, st);
            let (k, st) = check_expr(&**index, cx, st);
            check_index(a, k, array.span, index.span, e.span, cx, st)
        },
        ExprKind::IfExpr { cond, then_value, else_value } => {
            let (c, st) = check_expr(&**cond, cx, st);
            let st = require_if_condition(&c, cond.span, st);
            let (a, st) = check_expr(&**then_value, cx, st);
            let (b, st) = check_expr(&**else_value, cx, st);
            finish_if(c, a, b, e.span, st)
        },
        _ => (fallback_integer(e.span), st),
    }
}

/// What [`check_each`] computes from position `i` on.
pub open spec fn check_each_spec(
    es: Seq<ExprView>,
    cx: ContextView,
    out: Seq<CheckedExprView>,
    st: StateView,
    i: int,
) -> (Seq<CheckedExprView>, StateView)
    decreases es, 0int, es.len() - i,
{
    if 0 <= i < es.len() {
        let e = es[i];
        let (out, st) = {
            let (c, st) = check_expr_spec(e, cx, st);
            (out.push(c), st)
        };
        check_each_spec(es, cx, out, st, i + 1)
    } else {
        (out, st)
    }
}

/// Checks the expressions of a list in order.
pub fn check_each(
    es: &Vec<Expr>,
    cx: &Context,
    out: Vec<CheckedExpr>,
    st: State,
) -> (r: (Vec<CheckedExpr>, State))
    ensures
        (crate::state::checked_exprs_view(r.0@), r.1@) == check_each_spec(
            crate::ast::exprs_view(es@),
            cx@,
            crate::state::checked_exprs_view(out@),
            st@,
            0,
        ),
        crate::state::follows(st@, r.1@),
        crate::state::balanced(st@, r.1@),
        crate::state::same_facts(st@, r.1@),
        crate::typing::all_fit(
            crate::state::checked_exprs_view(out@),
            crate::typing::declared_in(cx@, st@.env),
        )
            && st@.env.scopes.len() > 0
            && crate::typing::quiet(st@, r.1@)
            ==> crate::typing::all_fit(
                crate::state::checked_exprs_view(r.0@),
                crate::typing::declared_in(cx@, st@.env),
            ),
    decreases es, 0int, es.len(),
{
    let ghost whole_run = check_each_spec(
        crate::ast::exprs_view(es@),
        cx@,
        crate::state::checked_exprs_view(out@),
        st@,
        0,
    );
    let ghost start_st = st@;
    let ghost start_out = crate::state::checked_exprs_view(out@);
    proof {
        reveal(crate::typing::well_typed);
    }
    let mut out = out;
    let mut st = st;
    let mut i: usize = 0;
    while i < es.len()
        invariant
            i <= es.len(),
            check_each_spec(
                crate::ast::exprs_view(es@),
                cx@,
                crate::state::checked_exprs_view(out@),
                st@,
                i as int,
            ) == whole_run,
            crate::state::follows(start_st, st@),
            crate::state::balanced(start_st, st@),
            crate::state::same_facts(start_st, st@),
            crate::typing::all_fit(start_out, crate::typing::declared_in(cx@, start_st.env))
                && start_st.env.scopes.len() > 0
                && crate::typing::quiet(start_st, st@)
                ==> crate::typing::all_fit(
                    crate::state::checked_exprs_view(out@),
                    crate::typing::declared_in(cx@, start_st.env),
                ),
        decreases es.len() - i,
    {
        let e = &es[i];
        let next = {
            let (c, st) = check_expr(e, cx, st);
            (push(out, c), st)
        };
        out = next.0;
        st = next.1;
        i += 1;
    }
    (out, st)
}

/// What [`check_binary`] computes.
pub open spec fn check_binary_spec(
    e: ExprView,
    cx: ContextView,
    st: StateView,
) -> (CheckedExprView, StateView)
    decreases e, 8int, 0int,
{
    match e.kind {
        ExprKindView::Binary { op, left, right } => {
            let (l, st) = check_expr_spec(*left, cx, st);
            match crate::calls::short_circuit_spec(op, l.expr.constant) {
                Some(value) => {
                    let before = (st.diagnostics);
                    let (r, st) = check_expr_spec(*right, cx, st);
                    let span = crate::operators::merge_spans_spec(left.span, right.span);
                    let c = crate::operators::checked_binary_spec(
                        op,
                        l,
                        r,
                        TypeView::Bool,
                        Some(TypedConstView::Bool(value)),
                        span,
                    );
                    (c, StateView { diagnostics: before, ..st })
                },
                None => {
                    let (r, st) = check_expr_spec(*right, cx, st);
                    crate::operators::check_operands_spec(op, l, r, *left, *right, cx, st)
                },
            }
        },
        _ => (crate::scope::fallback_integer_spec(e.span), st),
    }
}

/// A binary operation. Where the left side of `&&` or `||` is known and
/// decides the result, the right side reports nothing.
pub fn check_binary(e: &Expr, cx: &Context, st: State) -> (r: (CheckedExpr, State))
    ensures
        (r.0@, r.1@) == check_binary_spec(e@, cx@, st@),
        crate::state::follows(st@, r.1@),
        crate::state::balanced(st@, r.1@),
        crate::state::same_facts(st@, r.1@),
        st@.env.scopes.len() > 0
            && crate::typing::quiet(st@, r.1@)
            ==> crate::typing::fits(r.0@, crate::typing::declared_in(cx@, st@.env)),
    decreases e, 8int, 0int,
{
    proof {
        reveal(crate::typing::well_typed);
    }
    match &e.kind {
        ExprKind::Binary { op, left, right } => {
            let (l, st) = check_expr(&**left, cx, st);
            match short_circuit(*op, &l.expr.constant) {
                Some(value) => {
                    let before = dup_diagnostics(&st.diagnostics);
                    let (r, st) = check_expr(&**right, cx, st);
                    let span = merge_spans(left.span, right.span);
                    let c = checked_binary(
                        *op,
                        l,
                        r,
                        Type::Bool,
                        Some(TypedConst::Bool(value)),
                        span,
                    );
                    (c, State { diagnostics: before, ..st })
                },
                None => {
                    let (r, st) = check_expr(&**right, cx, st);
                    check_operands(*op, l, r, &**left, &**right, cx, st)
                },
            }
        },
        _ => (fallback_integer(e.span), st),
    }
}

/// What [`check_tuple`] computes.
pub open spec fn check_tuple_spec(
    elements: Seq<ExprView>,
    span: Span,
    cx: ContextView,
    st: StateView,
) -> (CheckedExprView, StateView)
    decreases elements, 1int, 0int,
{
    if elements.len() < 2 || elements.len() > 4 {
        let message = "tuple must have 2..=4 elements; got "@
            + crate::text::decimal((elements.len() as int));
        (crate::scope::fallback_integer_spec(span), crate::scope::report_spec(st, span, message))
    } else {
        let (cs, st) = check_each_spec(elements, cx, Seq::empty(), st, 0);
        crate::calls::finish_tuple_spec(cs, elements, span, cx, st)
    }
}

/// A tuple of two to four elements.
pub fn check_tuple(
    elements: &Vec<Expr>,
    span: Span,
    cx: &Context,
    st: State,
) -> (r: (CheckedExpr, State))
    ensures
        (r.0@, r.1@) == check_tuple_spec(crate::ast::exprs_view(elements@), span, cx@, st@),
        crate::state::follows(st@, r.1@),
        crate::state::balanced(st@, r.1@),
        crate::state::same_facts(st@, r.1@),
        st@.env.scopes.len() > 0
            && crate::typing::quiet(st@, r.1@)
            ==> crate::typing::fits(r.0@, crate::typing::declared_in(cx@, st@.env)),
    decreases elements, 1int, 0int,
{
    proof {
        reveal(crate::typing::well_typed);
    }
    if elements.len() < 2 || elements.len() > 4 {
        let message = cat2("tuple must have 2..=4 elements; got ", &usize_text(elements.len()));
        (fallback_integer(span), report(st, span, message))
    } else {
        let (cs, st) = check_each(elements, cx, Vec::new(), st);
        finish_tuple(&cs, elements, span, cx, st)
    }
}

/// What [`check_literal_fields`] computes from position `i` on.
pub open spec fn check_literal_fields_spec(
    ds: Seq<(Seq<char>, TypeView)>,
    fields: Seq<(Seq<char>, ExprView)>,
    cx: ContextView,
    out: Seq<(Seq<char>, TypedExprView)>,
    missing: Option<Seq<char>>,
    st: StateView,
    i: int,
) -> (Seq<(Seq<char>, TypedExprView)>, Option<Seq<char>>, StateView)
    decreases fields, 0int, ds.len() - i,
{
    if 0 <= i < ds.len() && !missing.is_some() {
        let d = ds[i];
        let (out, missing, st) = match crate::calls::literal_field_spec(fields, d.0, None, 0) {
            None => (out, Some(d.0), st),
            Some(k) => if (0 <= k && k < fields.len()) {
                let (c, st) = check_expr_spec(fields[k].1, cx, st);
                let (value, st) = crate::calls::finish_literal_field_spec(
                    c,
                    d.1,
                    d.0,
                    fields[k].1,
                    cx,
                    st,
                );
                (out.push((d.0, value)), None, st)
            } else {
                (out, Some(d.0), st)
            },
        };
        check_literal_fields_spec(ds, fields, cx, out, missing, st, i + 1)
    } else {
        (out, missing, st)
    }
}

/// The fields of a literal in the order in which the struct declares them, up
/// to the first that the literal lacks.
pub fn check_literal_fields(
    ds: &Vec<(String, Type)>,
    fields: &Vec<(String, Expr)>,
    cx: &Context,
    out: Vec<(String, TypedExpr)>,
    missing: Option<String>,
    st: State,
) -> (r: (Vec<(String, TypedExpr)>, Option<String>, State))
    ensures
        (crate::ir::named_typed_exprs_view(r.0@), (match &r.1 { Some(v0) => Some(v0@), None => None }), r.2@) == check_literal_fields_spec(
            crate::ir::named_types_view(ds@),
            crate::ast::named_exprs_view(fields@),
            cx@,
            crate::ir::named_typed_exprs_view(out@),
            (match &missing { Some(v0) => Some(v0@), None => None }),
            st@,
            0,
        ),
        out@.len() == 0 && r.1 is None
            && missing is None
            ==> crate::typing::fields_fit(
                crate::ir::named_typed_exprs_view(r.0@),
                crate::ir::named_types_view(ds@),
            ),
        crate::state::follows(st@, r.2@),
        crate::state::balanced(st@, r.2@),
        crate::state::same_facts(st@, r.2@),
        crate::typing::fields_typed(
            crate::ir::named_typed_exprs_view(out@),
            crate::typing::declared_in(cx@, st@.env),
        )
            && st@.env.scopes.len() > 0
            && crate::typing::quiet(st@, r.2@)
            ==> crate::typing::fields_typed(
                crate::ir::named_typed_exprs_view(r.0@),
                crate::typing::declared_in(cx@, st@.env),
            ),
    decreases fields, 0int, ds.len(),
{
    let ghost whole_run = check_literal_fields_spec(
        crate::ir::named_types_view(ds@),
        crate::ast::named_exprs_view(fields@),
        cx@,
        crate::ir::named_typed_exprs_view(out@),
        (match &missing { Some(v0) => Some(v0@), None => None }),
        st@,
        0,
    );
    let ghost start_st = st@;
    let ghost start_out = crate::ir::named_typed_exprs_view(out@);
    proof {
        reveal(crate::typing::well_typed);
    }
    let mut out = out;
    let mut missing = missing;
    let mut st = st;
    let mut i: usize = 0;
    while i < ds.len() && !missing.is_some()
        invariant
            i <= ds.len(),
            check_literal_fields_spec(
                crate::ir::named_types_view(ds@),
                crate::ast::named_exprs_view(fields@),
                cx@,
                crate::ir::named_typed_exprs_view(out@),
                (match &missing { Some(v0) => Some(v0@), None => None }),
                st@,
                i as int,
            ) == whole_run,
            crate::state::follows(start_st, st@),
            crate::state::balanced(start_st, st@),
            crate::state::same_facts(start_st, st@),
            start_out.len() == 0
                && missing is None ==> crate::ir::named_typed_exprs_view(out@).len() == i
                && forall|j: int| 0 <= j < i
                ==> (#[trigger] crate::ir::named_typed_exprs_view(out@)[j]).0 == crate::ir::named_types_view(ds@)[j].0
                && crate::ir::named_typed_exprs_view(out@)[j].1.ty == crate::ir::named_types_view(ds@)[j].1,
            crate::typing::fields_typed(start_out, crate::typing::declared_in(cx@, start_st.env))
                && start_st.env.scopes.len() > 0
                && crate::typing::quiet(start_st, st@)
                ==> crate::typing::fields_typed(
                    crate::ir::named_typed_exprs_view(out@),
                    crate::typing::declared_in(cx@, start_st.env),
                ),
        decreases ds.len() - i,
    {
        let d = &ds[i];
        let next = match literal_field(fields, &d.0, None) {
            None => (out, Some(d.0.clone()), st),
            Some(k) => if k < fields.len() {
                let (c, st) = check_expr(&fields[k].1, cx, st);
                let (value, st) = finish_literal_field(c, &d.1, &d.0, &fields[k].1, cx, st);
                (push(out, (d.0.clone(), value)), None, st)
            } else {
                (out, Some(d.0.clone()), st)
            },
        };
        out = next.0;
        missing = next.1;
        st = next.2;
        i += 1;
    }
    (out, missing, st)
}

/// What [`check_struct_fields`] computes.
pub open spec fn check_struct_fields_spec(
    fields: Seq<(Seq<char>, ExprView)>,
    struct_name: Seq<char>,
    declared: Seq<(Seq<char>, TypeView)>,
    span: Span,
    cx: ContextView,
    st: StateView,
) -> (CheckedExprView, StateView)
    decreases fields, 1int, 0int,
{
    if fields.len() != declared.len() {
        let message = "struct '"@ + struct_name + "' has "@
            + crate::text::decimal((declared.len() as int)) + " fields, literal provides "@
            + crate::text::decimal((fields.len() as int));
        (crate::scope::fallback_integer_spec(span), crate::scope::report_spec(st, span, message))
    } else {
        match check_literal_fields_spec(declared, fields, cx, Seq::empty(), None, st, 0) {
            (_, Some(name), st) => (
                crate::scope::fallback_integer_spec(span),
                crate::scope::report_spec(
                    st,
                    span,
                    crate::calls::missing_field_spec(struct_name, name),
                ),
            ),
            (values, None, st) => match crate::calls::undeclared_field_spec(
                fields,
                declared,
                None,
                0,
            ) {
                Some(name) => (
                    crate::scope::fallback_integer_spec(span),
                    crate::scope::report_spec(
                        st,
                        span,
                        crate::calls::no_such_field_spec(struct_name, name),
                    ),
                ),
                None => (crate::calls::struct_literal_spec(struct_name, values, span), st),
            },
        }
    }
}

/// A struct literal of a declared struct.
pub fn check_struct_fields(
    fields: &Vec<(String, Expr)>,
    struct_name: &str,
    declared: &Vec<(String, Type)>,
    span: Span,
    cx: &Context,
    st: State,
) -> (r: (CheckedExpr, State))
    ensures
        (r.0@, r.1@) == check_struct_fields_spec(
            crate::ast::named_exprs_view(fields@),
            struct_name@,
            crate::ir::named_types_view(declared@),
            span,
            cx@,
            st@,
        ),
        crate::state::follows(st@, r.1@),
        crate::state::balanced(st@, r.1@),
        crate::state::same_facts(st@, r.1@),
        (crate::scope::struct_info_get_spec(st@.env.structs, struct_name@) matches Some(info) && info.fields == crate::ir::named_types_view(declared@))
            && st@.env.scopes.len() > 0
            && crate::typing::quiet(st@, r.1@)
            ==> crate::typing::fits(r.0@, crate::typing::declared_in(cx@, st@.env)),
    decreases fields, 1int, 0int,
{
    proof {
        reveal(crate::typing::well_typed);
    }
    if fields.len() != declared.len() {
        let message = cat6(
            "struct '",
            struct_name,
            "' has ",
            &usize_text(declared.len()),
            " fields, literal provides ",
            &usize_text(fields.len()),
        );
        (fallback_integer(span), report(st, span, message))
    } else {
        match check_literal_fields(declared, fields, cx, Vec::new(), None, st) {
            (_, Some(name), st) => (
                fallback_integer(span),
                report(st, span, missing_field(struct_name, &name)),
            ),
            (values, None, st) => match undeclared_field(fields, declared, None) {
                Some(name) => (
                    fallback_integer(span),
                    report(st, span, no_such_field(struct_name, &name)),
                ),
                None => (struct_literal(struct_name, values, span), st),
            },
        }
    }
}

/// What [`check_struct_literal`] computes.
pub open spec fn check_struct_literal_spec(
    e: ExprView,
    cx: ContextView,
    st: StateView,
) -> (CheckedExprView, StateView)
    decreases e, 8int, 0int,
{
    match e.kind {
        ExprKindView::StructLit {
            struct_name,
            struct_name_span,
            fields,
        } => match crate::scope::lookup_struct_spec(st.env, struct_name) {
            None => (
                crate::scope::fallback_integer_spec(e.span),
                crate::scope::report_spec(
                    st,
                    struct_name_span,
                    "unknown struct type '"@ + struct_name + "'"@,
                ),
            ),
            Some(decl) => check_struct_fields_spec(
                fields,
                struct_name,
                decl.fields,
                e.span,
                cx,
                st,
            ),
        },
        _ => (crate::scope::fallback_integer_spec(e.span), st),
    }
}

/// A struct literal.
pub fn check_struct_literal(e: &Expr, cx: &Context, st: State) -> (r: (CheckedExpr, State))
    ensures
        (r.0@, r.1@) == check_struct_literal_spec(e@, cx@, st@),
        crate::state::follows(st@, r.1@),
        crate::state::balanced(st@, r.1@),
        crate::state::same_facts(st@, r.1@),
        st@.env.scopes.len() > 0
            && crate::typing::quiet(st@, r.1@)
            ==> crate::typing::fits(r.0@, crate::typing::declared_in(cx@, st@.env)),
    decreases e, 8int, 0int,
{
    proof {
        reveal(crate::typing::well_typed);
    }
    match &e.kind {
        ExprKind::StructLit {
            struct_name,
            struct_name_span,
            fields,
        } => match lookup_struct(&st.env, struct_name) {
            None => (
                fallback_integer(e.span),
                report(st, *struct_name_span, cat3("unknown struct type '", struct_name, "'")),
            ),
            Some(decl) => check_struct_fields(fields, struct_name, &decl.fields, e.span, cx, st),
        },
        _ => (fallback_integer(e.span), st),
    }
}

/// What [`check_field_access`] computes.
pub open spec fn check_field_access_spec(
    e: ExprView,
    cx: ContextView,
    st: StateView,
) -> (CheckedExprView, StateView)
    decreases e, 8int, 0int,
{
    match e.kind {
        ExprKindView::FieldAccess {
            object,
            field,
        } => match crate::calls::named_enum_spec(*object, st.env) {
            Some((name, info)) => crate::calls::enum_variant_spec(info, name, field, e.span, st),
            None => {
                let (c, st) = check_expr_spec(*object, cx, st);
                crate::calls::finish_field_access_spec(c, *object, field, e.span, st)
            },
        },
        _ => (crate::scope::fallback_integer_spec(e.span), st),
    }
}

/// A field access, or a variant of an enum.
pub fn check_field_access(e: &Expr, cx: &Context, st: State) -> (r: (CheckedExpr, State))
    ensures
        (r.0@, r.1@) == check_field_access_spec(e@, cx@, st@),
        crate::state::follows(st@, r.1@),
        crate::state::balanced(st@, r.1@),
        crate::state::same_facts(st@, r.1@),
        st@.env.scopes.len() > 0
            && crate::typing::quiet(st@, r.1@)
            ==> crate::typing::fits(r.0@, crate::typing::declared_in(cx@, st@.env)),
    decreases e, 8int, 0int,
{
    proof {
        reveal(crate::typing::well_typed);
    }
    match &e.kind {
        ExprKind::FieldAccess { object, field } => match named_enum(&**object, &st.env) {
            Some((name, info)) => enum_variant(&info, &name, field, e.span, st),
            None => {
                let (c, st) = check_expr(&**object, cx, st);
                finish_field_access(c, &**object, field, e.span, st)
            },
        },
        _ => (fallback_integer(e.span), st),
    }
}

/// What [`check_arm_body`] computes.
pub open spec fn check_arm_body_spec(
    body: ExprView,
    binding: Option<(Seq<char>, TypeView)>,
    at: Span,
    cx: ContextView,
    st: StateView,
) -> (CheckedExprView, StateView)
    decreases body, 10int, 0int,
{
    match binding {
        Some((name, t)) => {
            let env = crate::scope::push_scope_spec(st.env);
            let info = crate::scope::fresh_var_spec(t, None, at);
            let env = crate::scope::insert_current_spec(env, name, info);
            let (c, st) = check_expr_spec(body, cx, StateView { env, ..st });
            (c, StateView { env: crate::scope::pop_scope_spec(st.env), ..st })
        },
        None => check_expr_spec(body, cx, st),
    }
}

/// The body of an arm, with what its pattern binds.
pub fn check_arm_body(
    body: &Expr,
    binding: &Option<(String, Type)>,
    at: Span,
    cx: &Context,
    st: State,
) -> (r: (CheckedExpr, State))
    ensures
        (r.0@, r.1@) == check_arm_body_spec(
            body@,
            (match &binding { Some(v0) => Some((v0.0@, v0.1@)), None => None }),
            at,
            cx@,
            st@,
        ),
        crate::state::follows(st@, r.1@),
        crate::state::balanced(st@, r.1@),
        crate::state::same_facts(st@, r.1@),
        st@.env.scopes.len() > 0
            && crate::typing::quiet(st@, r.1@)
            ==> crate::typing::fits(r.0@, crate::typing::declared_in(cx@, st@.env)),
    decreases body, 10int, 0int,
{
    proof {
        reveal(crate::typing::well_typed);
    }
    match binding {
        Some((name, t)) => {
            let env = push_scope(st.env);
            let info = fresh_var(t.dup(), None, at);
            let env = insert_current(env, name, &info);
            let (c, st) = check_expr(body, cx, State { env, ..st });
            (c, State { env: pop_scope(st.env), ..st })
        },
        None => check_expr(body, cx, st),
    }
}

/// What [`check_arms`] computes from position `i` on.
pub open spec fn check_arms_spec(
    arms: Seq<MatchArmView>,
    scrut: TypeView,
    decl: Option<EnumInfoView>,
    cx: ContextView,
    scan: ArmScanView,
    st: StateView,
    i: int,
) -> (ArmScanView, StateView)
    decreases arms, 0int, arms.len() - i,
{
    if 0 <= i < arms.len() {
        let arm = arms[i];
        let (scan, st) = if scan.wildcard {
            (
                scan,
                crate::scope::report_spec(
                    st,
                    arm.pattern_span,
                    crate::calls::unreachable_arm_spec(),
                ),
            )
        } else {
            match crate::calls::arm_key_spec(arm.pattern, scrut, decl, scan) {
                Err(message) => (scan, crate::scope::report_spec(st, arm.pattern_span, message)),
                Ok(key) => {
                    let binding = crate::calls::arm_binding_spec(arm.pattern, st.env);
                    let st = crate::calls::require_copy_binding_spec(
                        binding,
                        arm.pattern_span,
                        cx,
                        st,
                    );
                    let (body, st) = check_arm_body_spec(
                        arm.body,
                        binding,
                        arm.pattern_span,
                        cx,
                        st,
                    );
                    crate::calls::finish_arm_spec(scan, arm, key, binding, body, st)
                },
            }
        };
        check_arms_spec(arms, scrut, decl, cx, scan, st, i + 1)
    } else {
        (scan, st)
    }
}

/// Checks the arms of a match in order.
pub fn check_arms(
    arms: &Vec<MatchArm>,
    scrut: &Type,
    decl: &Option<EnumInfo>,
    cx: &Context,
    scan: ArmScan,
    st: State,
) -> (r: (ArmScan, State))
    ensures
        (r.0@, r.1@) == check_arms_spec(
            crate::ast::arms_view(arms@),
            scrut@,
            (match &decl { Some(v0) => Some(v0@), None => None }),
            cx@,
            scan@,
            st@,
            0,
        ),
        crate::state::follows(st@, r.1@),
        crate::state::balanced(st@, r.1@),
        crate::state::same_facts(st@, r.1@),
        crate::typing::arms_fit(scan@, crate::typing::declared_in(cx@, st@.env))
            && st@.env.scopes.len() > 0
            && crate::typing::quiet(st@, r.1@)
            ==> crate::typing::arms_fit(r.0@, crate::typing::declared_in(cx@, st@.env)),
    decreases arms, 0int, arms.len(),
{
    let ghost whole_run = check_arms_spec(
        crate::ast::arms_view(arms@),
        scrut@,
        (match &decl { Some(v0) => Some(v0@), None => None }),
        cx@,
        scan@,
        st@,
        0,
    );
    let ghost start_st = st@;
    let ghost start_scan = scan@;
    proof {
        reveal(crate::typing::well_typed);
    }
    let mut scan = scan;
    let mut st = st;
    let mut i: usize = 0;
    while i < arms.len()
        invariant
            i <= arms.len(),
            check_arms_spec(
                crate::ast::arms_view(arms@),
                scrut@,
                (match &decl { Some(v0) => Some(v0@), None => None }),
                cx@,
                scan@,
                st@,
                i as int,
            ) == whole_run,
            crate::state::follows(start_st, st@),
            crate::state::balanced(start_st, st@),
            crate::state::same_facts(start_st, st@),
            crate::typing::arms_fit(start_scan, crate::typing::declared_in(cx@, start_st.env))
                && start_st.env.scopes.len() > 0
                && crate::typing::quiet(start_st, st@)
                ==> crate::typing::arms_fit(scan@, crate::typing::declared_in(cx@, start_st.env)),
        decreases arms.len() - i,
    {
        let arm = &arms[i];
        let next = if scan.wildcard {
            (scan, report(st, arm.pattern_span, unreachable_arm()))
        } else {
            match arm_key(&arm.pattern, scrut, decl, &scan) {
                Err(message) => (scan, report(st, arm.pattern_span, message)),
                Ok(key) => {
                    let binding = arm_binding(&arm.pattern, &st.env);
                    let st = require_copy_binding(&binding, arm.pattern_span, cx, st);
                    let (body, st) = check_arm_body(&arm.body, &binding, arm.pattern_span, cx, st);
                    finish_arm(scan, arm, key, binding, body, st)
                },
            }
        };
        scan = next.0;
        st = next.1;
        i += 1;
    }
    (scan, st)
}

/// What [`check_text_arms`] computes from position `i` on.
pub open spec fn check_text_arms_spec(
    arms: Seq<MatchArmView>,
    scrut: TypeView,
    cx: ContextView,
    scan: TextScanView,
    st: StateView,
    i: int,
) -> (TextScanView, StateView)
    decreases arms, 0int, arms.len() - i,
{
    if 0 <= i < arms.len() {
        let arm = arms[i];
        let (scan, st) = match crate::calls::text_arm_error_spec(arm, scrut, scan) {
            Some(message) => (scan, crate::scope::report_spec(st, arm.pattern_span, message)),
            None => {
                let (body, st) = check_expr_spec(arm.body, cx, st);
                crate::calls::finish_text_arm_spec(scan, arm, body, st)
            },
        };
        check_text_arms_spec(arms, scrut, cx, scan, st, i + 1)
    } else {
        (scan, st)
    }
}

/// Checks the arms of a match on a string in order.
pub fn check_text_arms(
    arms: &Vec<MatchArm>,
    scrut: &Type,
    cx: &Context,
    scan: TextScan,
    st: State,
) -> (r: (TextScan, State))
    ensures
        (r.0@, r.1@) == check_text_arms_spec(
            crate::ast::arms_view(arms@),
            scrut@,
            cx@,
            scan@,
            st@,
            0,
        ),
        crate::state::follows(st@, r.1@),
        crate::state::balanced(st@, r.1@),
        crate::state::same_facts(st@, r.1@),
        crate::typing::texts_fit(scan@, crate::typing::declared_in(cx@, st@.env))
            && st@.env.scopes.len() > 0
            && crate::typing::quiet(st@, r.1@)
            ==> crate::typing::texts_fit(r.0@, crate::typing::declared_in(cx@, st@.env)),
    decreases arms, 0int, arms.len(),
{
    let ghost whole_run = check_text_arms_spec(
        crate::ast::arms_view(arms@),
        scrut@,
        cx@,
        scan@,
        st@,
        0,
    );
    let ghost start_st = st@;
    let ghost start_scan = scan@;
    proof {
        reveal(crate::typing::well_typed);
    }
    let mut scan = scan;
    let mut st = st;
    let mut i: usize = 0;
    while i < arms.len()
        invariant
            i <= arms.len(),
            check_text_arms_spec(
                crate::ast::arms_view(arms@),
                scrut@,
                cx@,
                scan@,
                st@,
                i as int,
            ) == whole_run,
            crate::state::follows(start_st, st@),
            crate::state::balanced(start_st, st@),
            crate::state::same_facts(start_st, st@),
            crate::typing::texts_fit(start_scan, crate::typing::declared_in(cx@, start_st.env))
                && start_st.env.scopes.len() > 0
                && crate::typing::quiet(start_st, st@)
                ==> crate::typing::texts_fit(scan@, crate::typing::declared_in(cx@, start_st.env)),
        decreases arms.len() - i,
    {
        let arm = &arms[i];
        let next = match text_arm_error(arm, scrut, &scan) {
            Some(message) => (scan, report(st, arm.pattern_span, message)),
            None => {
                let (body, st) = check_expr(&arm.body, cx, st);
                finish_text_arm(scan, arm, body, st)
            },
        };
        scan = next.0;
        st = next.1;
        i += 1;
    }
    (scan, st)
}

/// What [`check_match`] computes.
pub open spec fn check_match_spec(
    e: ExprView,
    cx: ContextView,
    st: StateView,
) -> (CheckedExprView, StateView)
    decreases e, 8int, 0int,
{
    match e.kind {
        ExprKindView::Match { scrutinee, arms } => {
            let (c, st) = check_expr_spec(*scrutinee, cx, st);
            if crate::effects::is_text_type_spec(c.expr.ty) {
                let (scan, st) = check_text_arms_spec(
                    arms,
                    c.expr.ty,
                    cx,
                    crate::calls::no_texts_spec(),
                    st,
                    0,
                );
                crate::calls::check_match_str_spec(c, scan, e.span, st)
            } else {
                match crate::calls::match_target_spec(c.expr.ty, st.env) {
                    Err(message) => (
                        crate::scope::fallback_integer_spec(e.span),
                        crate::scope::report_spec(st, scrutinee.span, message),
                    ),
                    Ok(decl) => {
                        let (scan, st) = check_arms_spec(
                            arms,
                            c.expr.ty,
                            decl,
                            cx,
                            crate::calls::no_arms_spec(),
                            st,
                            0,
                        );
                        crate::calls::finish_match_spec(c, scan, decl, e.span, st)
                    },
                }
            }
        },
        _ => (crate::scope::fallback_integer_spec(e.span), st),
    }
}

/// A match on a string, a number, a truth value or an enum.
pub fn check_match(e: &Expr, cx: &Context, st: State) -> (r: (CheckedExpr, State))
    ensures
        (r.0@, r.1@) == check_match_spec(e@, cx@, st@),
        crate::state::follows(st@, r.1@),
        crate::state::balanced(st@, r.1@),
        crate::state::same_facts(st@, r.1@),
        st@.env.scopes.len() > 0
            && crate::typing::quiet(st@, r.1@)
            ==> crate::typing::fits(r.0@, crate::typing::declared_in(cx@, st@.env)),
    decreases e, 8int, 0int,
{
    proof {
        reveal(crate::typing::well_typed);
    }
    match &e.kind {
        ExprKind::Match { scrutinee, arms } => {
            let (c, st) = check_expr(&**scrutinee, cx, st);
            if is_text_type(&c.expr.ty) {
                let (scan, st) = check_text_arms(arms, &c.expr.ty, cx, no_texts(), st);
                check_match_str(&c, scan, e.span, st)
            } else {
                match match_target(&c.expr.ty, &st.env) {
                    Err(message) => (fallback_integer(e.span), report(st, scrutinee.span, message)),
                    Ok(decl) => {
                        let (scan, st) = check_arms(arms, &c.expr.ty, &decl, cx, no_arms(), st);
                        finish_match(c, scan, &decl, e.span, st)
                    },
                }
            }
        },
        _ => (fallback_integer(e.span), st),
    }
}

/// What [`check_block_items`] computes from position `i` on.
pub open spec fn check_block_items_spec(
    items: Seq<PrintItemView>,
    cx: ContextView,
    out: Seq<TypedPrintItemView>,
    st: StateView,
    i: int,
) -> (Seq<TypedPrintItemView>, StateView)
    decreases items, 0int, items.len() - i,
{
    if 0 <= i < items.len() {
        let item = items[i];
        let (out, st) = match item {
            PrintItemView::Str(s) => (out.push(TypedPrintItemView::Str(s)), st),
            PrintItemView::Expr(e) => {
                let (c, st) = check_expr_spec(e, cx, st);
                (out.push(TypedPrintItemView::Expr(c.expr)), st)
            },
        };
        check_block_items_spec(items, cx, out, st, i + 1)
    } else {
        (out, st)
    }
}

/// Checks the items of a `print` in a block expression.
pub fn check_block_items(
    items: &Vec<PrintItem>,
    cx: &Context,
    out: Vec<TypedPrintItem>,
    st: State,
) -> (r: (Vec<TypedPrintItem>, State))
    ensures
        (crate::ir::typed_print_items_view(r.0@), r.1@) == check_block_items_spec(
            crate::ast::print_items_view(items@),
            cx@,
            crate::ir::typed_print_items_view(out@),
            st@,
            0,
        ),
        crate::state::follows(st@, r.1@),
        crate::state::balanced(st@, r.1@),
        crate::state::same_facts(st@, r.1@),
        crate::typing::items_typed(
            crate::ir::typed_print_items_view(out@),
            crate::typing::declared_in(cx@, st@.env),
        )
            && st@.env.scopes.len() > 0
            && crate::typing::quiet(st@, r.1@)
            ==> crate::typing::items_typed(
                crate::ir::typed_print_items_view(r.0@),
                crate::typing::declared_in(cx@, st@.env),
            ),
    decreases items, 0int, items.len(),
{
    let ghost whole_run = check_block_items_spec(
        crate::ast::print_items_view(items@),
        cx@,
        crate::ir::typed_print_items_view(out@),
        st@,
        0,
    );
    let ghost start_st = st@;
    let ghost start_out = crate::ir::typed_print_items_view(out@);
    proof {
        reveal(crate::typing::well_typed);
    }
    let mut out = out;
    let mut st = st;
    let mut i: usize = 0;
    while i < items.len()
        invariant
            i <= items.len(),
            check_block_items_spec(
                crate::ast::print_items_view(items@),
                cx@,
                crate::ir::typed_print_items_view(out@),
                st@,
                i as int,
            ) == whole_run,
            crate::state::follows(start_st, st@),
            crate::state::balanced(start_st, st@),
            crate::state::same_facts(start_st, st@),
            crate::typing::items_typed(start_out, crate::typing::declared_in(cx@, start_st.env))
                && start_st.env.scopes.len() > 0
                && crate::typing::quiet(start_st, st@)
                ==> crate::typing::items_typed(
                    crate::ir::typed_print_items_view(out@),
                    crate::typing::declared_in(cx@, start_st.env),
                ),
        decreases items.len() - i,
    {
        let item = &items[i];
        let next = match item {
            PrintItem::Str(s) => (push(out, TypedPrintItem::Str(s.clone())), st),
            PrintItem::Expr(e) => {
                let (c, st) = check_expr(e, cx, st);
                (push(out, TypedPrintItem::Expr(c.expr)), st)
            },
        };
        out = next.0;
        st = next.1;
        i += 1;
    }
    (out, st)
}

/// What [`check_block_stmts`] computes from position `i` on.
pub open spec fn check_block_stmts_spec(
    ss: Seq<StmtView>,
    cx: ContextView,
    out: Seq<TypedStmtView>,
    st: StateView,
    i: int,
) -> (Seq<TypedStmtView>, StateView)
    decreases ss, 0int, ss.len() - i,
{
    if 0 <= i < ss.len() {
        let s = ss[i];
        let (out, st) = match s {
            StmtView::Let { name, annotation, expr, span } => {
                let (c, st) = check_expr_spec(expr, cx, st);
                let (c, st) = match annotation {
                    Some(t) => crate::numeric::coerce_checked_spec(
                        c,
                        t,
                        expr.span,
                        "let initializer"@,
                        st,
                    ),
                    None => (c, st),
                };
                let st = crate::calls::bind_let_spec(name, c, span, st);
                let ty = c.expr.ty;
                (out.push(TypedStmtView::Let { name: name, ty, expr: c.expr }), st)
            },
            StmtView::Print { items, .. } => {
                let (typed_items, st) = check_block_items_spec(items, cx, Seq::empty(), st, 0);
                (out.push(TypedStmtView::Print { items: typed_items }), st)
            },
            _ => {
                let message = "block expressions in v1 only allow `let` bindings and `print` statements before the tail expression — hoist control flow or assignments outside the block"@;
                (out, crate::scope::report_spec(st, crate::ast::stmt_span_spec(s), message))
            },
        };
        check_block_stmts_spec(ss, cx, out, st, i + 1)
    } else {
        (out, st)
    }
}

/// The statements of a block expression: `let` and `print` only.
pub fn check_block_stmts(
    ss: &Vec<Stmt>,
    cx: &Context,
    out: Vec<TypedStmt>,
    st: State,
) -> (r: (Vec<TypedStmt>, State))
    ensures
        (crate::ir::typed_stmts_view(r.0@), r.1@) == check_block_stmts_spec(
            crate::ast::stmts_view(ss@),
            cx@,
            crate::ir::typed_stmts_view(out@),
            st@,
            0,
        ),
        crate::state::grows(crate::ir::typed_stmts_view(out@), crate::ir::typed_stmts_view(r.0@)),
        crate::state::follows(st@, r.1@),
        crate::state::balanced(st@, r.1@),
        crate::state::same_facts(st@, r.1@),
        crate::typing::all_lets_typed(
            crate::ir::typed_stmts_view(out@),
            crate::typing::declared_in(cx@, st@.env),
        )
            && st@.env.scopes.len() > 0
            && crate::typing::quiet(st@, r.1@)
            ==> crate::typing::all_lets_typed(
                crate::ir::typed_stmts_view(r.0@),
                crate::typing::declared_in(cx@, st@.env),
            ),
    decreases ss, 0int, ss.len(),
{
    let ghost whole_run = check_block_stmts_spec(
        crate::ast::stmts_view(ss@),
        cx@,
        crate::ir::typed_stmts_view(out@),
        st@,
        0,
    );
    let ghost start_out = crate::ir::typed_stmts_view(out@);
    let ghost start_st = st@;
    proof {
        reveal(crate::typing::well_typed);
    }
    let mut out = out;
    let mut st = st;
    let mut i: usize = 0;
    while i < ss.len()
        invariant
            i <= ss.len(),
            check_block_stmts_spec(
                crate::ast::stmts_view(ss@),
                cx@,
                crate::ir::typed_stmts_view(out@),
                st@,
                i as int,
            ) == whole_run,
            crate::state::grows(start_out, crate::ir::typed_stmts_view(out@)),
            crate::state::follows(start_st, st@),
            crate::state::balanced(start_st, st@),
            crate::state::same_facts(start_st, st@),
            crate::typing::all_lets_typed(start_out, crate::typing::declared_in(cx@, start_st.env))
                && start_st.env.scopes.len() > 0
                && crate::typing::quiet(start_st, st@)
                ==> crate::typing::all_lets_typed(
                    crate::ir::typed_stmts_view(out@),
                    crate::typing::declared_in(cx@, start_st.env),
                ),
        decreases ss.len() - i,
    {
        let s = &ss[i];
        let next = match s {
            Stmt::Let { name, annotation, expr, span } => {
                let (c, st) = check_expr(expr, cx, st);
                let (c, st) = match annotation {
                    Some(t) => coerce_checked(c, t, expr.span, "let initializer", st),
                    None => (c, st),
                };
                let st = bind_let(name, &c, *span, st);
                let ty = c.expr.ty.dup();
                (push(out, TypedStmt::Let { name: name.clone(), ty, expr: c.expr }), st)
            },
            Stmt::Print { items, .. } => {
                let (typed_items, st) = check_block_items(items, cx, Vec::new(), st);
                (push(out, TypedStmt::Print { items: typed_items }), st)
            },
            _ => {
                let message = text(
                    "block expressions in v1 only allow `let` bindings and `print` statements before the tail expression — hoist control flow or assignments outside the block",
                );
                (out, report(st, stmt_span(s), message))
            },
        };
        out = next.0;
        st = next.1;
        i += 1;
    }
    (out, st)
}

/// What [`check_block`] computes.
pub open spec fn check_block_spec(
    e: ExprView,
    cx: ContextView,
    st: StateView,
) -> (CheckedExprView, StateView)
    decreases e, 8int, 0int,
{
    match e.kind {
        ExprKindView::Block { stmts, tail } => {
            let env = crate::scope::push_scope_spec(st.env);
            let (out, st) = check_block_stmts_spec(
                stmts,
                cx,
                Seq::empty(),
                StateView { env, ..st },
                0,
            );
            let (c, st) = check_expr_spec(*tail, cx, st);
            let env = crate::scope::pop_scope_spec(st.env);
            let t = c.expr.ty;
            (crate::calls::block_expr_spec(out, c.expr, t, e.span), StateView { env, ..st })
        },
        _ => (crate::scope::fallback_integer_spec(e.span), st),
    }
}

/// A block expression, in a scope of its own.
pub fn check_block(e: &Expr, cx: &Context, st: State) -> (r: (CheckedExpr, State))
    ensures
        (r.0@, r.1@) == check_block_spec(e@, cx@, st@),
        crate::state::follows(st@, r.1@),
        crate::state::balanced(st@, r.1@),
        crate::state::same_facts(st@, r.1@),
        st@.env.scopes.len() > 0
            && crate::typing::quiet(st@, r.1@)
            ==> crate::typing::fits(r.0@, crate::typing::declared_in(cx@, st@.env)),
    decreases e, 8int, 0int,
{
    proof {
        reveal(crate::typing::well_typed);
    }
    match &e.kind {
        ExprKind::Block { stmts, tail } => {
            let env = push_scope(st.env);
            let (out, st) = check_block_stmts(stmts, cx, Vec::new(), State { env, ..st });
            let (c, st) = check_expr(&**tail, cx, st);
            let env = pop_scope(st.env);
            let t = c.expr.ty.dup();
            (block_expr(out, c.expr, t, e.span), State { env, ..st })
        },
        _ => (fallback_integer(e.span), st),
    }
}

/// What [`check_associated_args`] computes from position `i` on.
pub open spec fn check_associated_args_spec(
    args: Seq<ExprView>,
    params: Seq<TypeView>,
    label: Seq<char>,
    method: Seq<char>,
    cx: ContextView,
    out: Seq<TypedExprView>,
    st: StateView,
    i: int,
) -> (Seq<TypedExprView>, StateView)
    decreases args, 0int, args.len() - i,
{
    if 0 <= i < args.len() {
        let arg = args[i];
        let (out, st) = {
            let (c, st) = check_expr_spec(arg, cx, st);
            let (value, st) = crate::calls::finish_associated_arg_spec(
                c,
                arg,
                i,
                params,
                label,
                method,
                cx,
                st,
            );
            (out.push(value), st)
        };
        check_associated_args_spec(args, params, label, method, cx, out, st, i + 1)
    } else {
        (out, st)
    }
}

/// Checks the arguments of a function attached to a type.
pub fn check_associated_args(
    args: &Vec<Expr>,
    params: &Vec<Type>,
    label: &str,
    method: &str,
    cx: &Context,
    out: Vec<TypedExpr>,
    st: State,
) -> (r: (Vec<TypedExpr>, State))
    ensures
        (crate::ir::typed_exprs_view(r.0@), r.1@) == check_associated_args_spec(
            crate::ast::exprs_view(args@),
            crate::ast::types_view(params@),
            label@,
            method@,
            cx@,
            crate::ir::typed_exprs_view(out@),
            st@,
            0,
        ),
        out@.len() == 0 ==> crate::ir::typed_exprs_view(r.0@).len() == args@.len()
            && forall|j: int| 0 <= j < crate::ir::typed_exprs_view(r.0@).len()
            && j < params@.len()
            ==> (#[trigger] crate::ir::typed_exprs_view(r.0@)[j]).ty == crate::ast::types_view(params@)[j],
        crate::state::follows(st@, r.1@),
        crate::state::balanced(st@, r.1@),
        crate::state::same_facts(st@, r.1@),
        crate::typing::all_typed(
            crate::ir::typed_exprs_view(out@),
            crate::typing::declared_in(cx@, st@.env),
        )
            && st@.env.scopes.len() > 0
            && crate::typing::quiet(st@, r.1@)
            ==> crate::typing::all_typed(
                crate::ir::typed_exprs_view(r.0@),
                crate::typing::declared_in(cx@, st@.env),
            ),
    decreases args, 0int, args.len(),
{
    let ghost whole_run = check_associated_args_spec(
        crate::ast::exprs_view(args@),
        crate::ast::types_view(params@),
        label@,
        method@,
        cx@,
        crate::ir::typed_exprs_view(out@),
        st@,
        0,
    );
    let ghost start_st = st@;
    let ghost start_out = crate::ir::typed_exprs_view(out@);
    proof {
        reveal(crate::typing::well_typed);
    }
    let mut out = out;
    let mut st = st;
    let mut i: usize = 0;
    while i < args.len()
        invariant
            i <= args.len(),
            check_associated_args_spec(
                crate::ast::exprs_view(args@),
                crate::ast::types_view(params@),
                label@,
                method@,
                cx@,
                crate::ir::typed_exprs_view(out@),
                st@,
                i as int,
            ) == whole_run,
            crate::state::follows(start_st, st@),
            crate::state::balanced(start_st, st@),
            crate::state::same_facts(start_st, st@),
            start_out.len() == 0 ==> crate::ir::typed_exprs_view(out@).len() == i
                && forall|j: int| 0 <= j < crate::ir::typed_exprs_view(out@).len()
                && j < params@.len()
                ==> (#[trigger] crate::ir::typed_exprs_view(out@)[j]).ty == crate::ast::types_view(params@)[j],
            crate::typing::all_typed(start_out, crate::typing::declared_in(cx@, start_st.env))
                && start_st.env.scopes.len() > 0
                && crate::typing::quiet(start_st, st@)
                ==> crate::typing::all_typed(
                    crate::ir::typed_exprs_view(out@),
                    crate::typing::declared_in(cx@, start_st.env),
                ),
        decreases args.len() - i,
    {
        let arg = &args[i];
        let next = {
            let (c, st) = check_expr(arg, cx, st);
            let (value, st) = finish_associated_arg(c, arg, i, params, label, method, cx, st);
            (push(out, value), st)
        };
        out = next.0;
        st = next.1;
        i += 1;
    }
    (out, st)
}

/// What [`check_variant_call`] computes.
pub open spec fn check_variant_call_spec(
    args: Seq<ExprView>,
    name: Seq<char>,
    variant: Seq<char>,
    tag: u32,
    span: Span,
    cx: ContextView,
    st: StateView,
) -> (CheckedExprView, StateView)
    decreases args, 1int, 0int,
{
    match crate::scope::lookup_enum_variant_payload_spec(st.env, name, variant) {
        Some(t) => if args.len() == 1 {
            let (c, st) = check_expr_spec(args[0], cx, st);
            crate::calls::finish_variant_spec(c, args[0], name, variant, tag, t, span, cx, st)
        } else {
            let message = crate::calls::payload_count_spec(name, variant, (args.len() as int));
            (
                crate::scope::fallback_integer_spec(span),
                crate::scope::report_spec(st, span, message),
            )
        },
        None => (
            crate::scope::fallback_integer_spec(span),
            crate::scope::report_spec(st, span, crate::calls::no_payload_spec(name, variant)),
        ),
    }
}

/// A variant with its payload.
pub fn check_variant_call(
    args: &Vec<Expr>,
    name: &str,
    variant: &str,
    tag: u32,
    span: Span,
    cx: &Context,
    st: State,
) -> (r: (CheckedExpr, State))
    ensures
        (r.0@, r.1@) == check_variant_call_spec(
            crate::ast::exprs_view(args@),
            name@,
            variant@,
            tag,
            span,
            cx@,
            st@,
        ),
        crate::state::follows(st@, r.1@),
        crate::state::balanced(st@, r.1@),
        crate::state::same_facts(st@, r.1@),
        st@.env.scopes.len() > 0
            && crate::typing::quiet(st@, r.1@)
            ==> crate::typing::fits(r.0@, crate::typing::declared_in(cx@, st@.env)),
    decreases args, 1int, 0int,
{
    proof {
        reveal(crate::typing::well_typed);
    }
    match lookup_enum_variant_payload(&st.env, name, variant) {
        Some(t) => if args.len() == 1 {
            let (c, st) = check_expr(&args[0], cx, st);
            finish_variant(c, &args[0], name, variant, tag, t, span, cx, st)
        } else {
            let message = payload_count(name, variant, args.len());
            (fallback_integer(span), report(st, span, message))
        },
        None => (fallback_integer(span), report(st, span, no_payload(name, variant))),
    }
}

/// What [`check_associated_call`] computes.
pub open spec fn check_associated_call_spec(
    args: Seq<ExprView>,
    name: Seq<char>,
    method: Seq<char>,
    method_span: Span,
    sig: SignatureView,
    span: Span,
    cx: ContextView,
    st: StateView,
) -> (CheckedExprView, StateView)
    decreases args, 1int, 0int,
{
    if sig.params.len() == args.len() {
        let (typed_args, st) = check_associated_args_spec(
            args,
            sig.params,
            name,
            method,
            cx,
            Seq::empty(),
            st,
            0,
        );
        let kind = crate::calls::call_kind_spec(name + "_"@ + method, method_span, typed_args);
        (crate::scope::checked_spec(kind, sig.return_type, None, span), st)
    } else {
        let message = crate::calls::associated_count_spec(
            name,
            method,
            (sig.params.len() as int),
            (args.len() as int),
        );
        (crate::scope::fallback_integer_spec(span), crate::scope::report_spec(st, span, message))
    }
}

/// A call of a function attached to a type.
pub fn check_associated_call(
    args: &Vec<Expr>,
    name: &str,
    method: &str,
    method_span: Span,
    sig: Signature,
    span: Span,
    cx: &Context,
    st: State,
) -> (r: (CheckedExpr, State))
    ensures
        (r.0@, r.1@) == check_associated_call_spec(
            crate::ast::exprs_view(args@),
            name@,
            method@,
            method_span,
            sig@,
            span,
            cx@,
            st@,
        ),
        crate::state::follows(st@, r.1@),
        crate::state::balanced(st@, r.1@),
        crate::state::same_facts(st@, r.1@),
        crate::scope::signature_get_spec(
            crate::state::signatures_view(cx.signatures@),
            name@ + "_"@ + method@,
        ) == Some(sig@)
            && st@.env.scopes.len() > 0
            && crate::typing::quiet(st@, r.1@)
            ==> crate::typing::fits(r.0@, crate::typing::declared_in(cx@, st@.env)),
    decreases args, 1int, 0int,
{
    proof {
        reveal(crate::typing::well_typed);
    }
    if sig.params.len() == args.len() {
        let (typed_args, st) = check_associated_args(
            args,
            &sig.params,
            name,
            method,
            cx,
            Vec::new(),
            st,
        );
        let kind = call_kind(&cat3(name, "_", method), method_span, typed_args);
        (checked(kind, sig.return_type, None, span), st)
    } else {
        let message = associated_count(name, method, sig.params.len(), args.len());
        (fallback_integer(span), report(st, span, message))
    }
}

/// What [`check_method_call`] computes.
pub open spec fn check_method_call_spec(
    e: ExprView,
    cx: ContextView,
    st: StateView,
) -> (CheckedExprView, StateView)
    decreases e, 8int, 0int,
{
    match e.kind {
        ExprKindView::MethodCall {
            receiver,
            method,
            method_span,
            args,
        } => match crate::calls::named_variant_spec(*receiver, method, st.env) {
            Some((name, tag)) => check_variant_call_spec(args, name, method, tag, e.span, cx, st),
            None => match crate::calls::named_function_spec(*receiver, method, cx, st.env) {
                Some((name, sig)) => check_associated_call_spec(
                    args,
                    name,
                    method,
                    method_span,
                    sig,
                    e.span,
                    cx,
                    st,
                ),
                None => {
                    let (c, st) = check_expr_spec(*receiver, cx, st);
                    match crate::calls::method_target_spec(c.expr.ty, method, cx) {
                        Err(message) => (
                            crate::scope::fallback_integer_spec(e.span),
                            crate::scope::report_spec(st, method_span, message),
                        ),
                        Ok((name, mode)) => check_call_spec(e, mode, name, method_span, cx, st),
                    }
                },
            },
        },
        _ => (crate::scope::fallback_integer_spec(e.span), st),
    }
}

/// A call with a receiver: a variant with a payload, a function attached to a
/// type, or a method.
pub fn check_method_call(e: &Expr, cx: &Context, st: State) -> (r: (CheckedExpr, State))
    ensures
        (r.0@, r.1@) == check_method_call_spec(e@, cx@, st@),
        crate::state::follows(st@, r.1@),
        crate::state::balanced(st@, r.1@),
        crate::state::same_facts(st@, r.1@),
        st@.env.scopes.len() > 0
            && crate::typing::quiet(st@, r.1@)
            ==> crate::typing::fits(r.0@, crate::typing::declared_in(cx@, st@.env)),
    decreases e, 8int, 0int,
{
    proof {
        reveal(crate::typing::well_typed);
    }
    match &e.kind {
        ExprKind::MethodCall {
            receiver,
            method,
            method_span,
            args,
        } => match named_variant(&**receiver, method, &st.env) {
            Some((name, tag)) => check_variant_call(args, &name, method, tag, e.span, cx, st),
            None => match named_function(&**receiver, method, cx, &st.env) {
                Some((name, sig)) => check_associated_call(
                    args,
                    &name,
                    method,
                    *method_span,
                    sig,
                    e.span,
                    cx,
                    st,
                ),
                None => {
                    let (c, st) = check_expr(&**receiver, cx, st);
                    match method_target(&c.expr.ty, method, cx) {
                        Err(message) => (
                            fallback_integer(e.span),
                            report(st, *method_span, message),
                        ),
                        Ok((name, mode)) => check_call(e, mode, &name, *method_span, cx, st),
                    }
                },
            },
        },
        _ => (fallback_integer(e.span), st),
    }
}

/// What [`check_at`] computes.
pub open spec fn check_at_spec(
    es: Seq<ExprView>,
    k: int,
    span: Span,
    cx: ContextView,
    st: StateView,
) -> (CheckedExprView, StateView)
    decreases es, 0int, 0int,
{
    if (0 <= k && k < es.len()) {
        check_expr_spec(es[k], cx, st)
    } else {
        (crate::scope::fallback_integer_spec(span), st)
    }
}

/// Checks the expression at a position of a list.
pub fn check_at(
    es: &Vec<Expr>,
    k: usize,
    span: Span,
    cx: &Context,
    st: State,
) -> (r: (CheckedExpr, State))
    ensures
        (r.0@, r.1@) == check_at_spec(crate::ast::exprs_view(es@), k as int, span, cx@, st@),
        crate::state::follows(st@, r.1@),
        crate::state::balanced(st@, r.1@),
        crate::state::same_facts(st@, r.1@),
        st@.env.scopes.len() > 0
            && crate::typing::quiet(st@, r.1@)
            ==> crate::typing::fits(r.0@, crate::typing::declared_in(cx@, st@.env)),
    decreases es, 0int, 0int,
{
    proof {
        reveal(crate::typing::well_typed);
    }
    if k < es.len() {
        check_expr(&es[k], cx, st)
    } else {
        (fallback_integer(span), st)
    }
}

/// What [`check_receiver`] computes.
pub open spec fn check_receiver_spec(
    receiver: ExprView,
    mode: Receiver,
    cx: ContextView,
    st: StateView,
) -> (CheckedExprView, StateView)
    decreases receiver, 10int, 0int,
{
    match mode {
        Receiver::Ref => crate::operators::check_ref_spec(receiver, receiver.span, st),
        Receiver::RefMut => crate::operators::check_ref_mut_spec(receiver, receiver.span, st),
        _ => check_expr_spec(receiver, cx, st),
    }
}

/// Checks a receiver as the first argument.
pub fn check_receiver(
    receiver: &Expr,
    mode: Receiver,
    cx: &Context,
    st: State,
) -> (r: (CheckedExpr, State))
    ensures
        (r.0@, r.1@) == check_receiver_spec(receiver@, mode, cx@, st@),
        crate::state::follows(st@, r.1@),
        crate::state::balanced(st@, r.1@),
        crate::state::same_facts(st@, r.1@),
        st@.env.scopes.len() > 0
            && crate::typing::quiet(st@, r.1@)
            ==> crate::typing::fits(r.0@, crate::typing::declared_in(cx@, st@.env)),
    decreases receiver, 10int, 0int,
{
    proof {
        reveal(crate::typing::well_typed);
    }
    match mode {
        Receiver::Ref => check_ref(receiver, receiver.span, st),
        Receiver::RefMut => check_ref_mut(receiver, receiver.span, st),
        _ => check_expr(receiver, cx, st),
    }
}

/// What [`check_nth`] computes.
pub open spec fn check_nth_spec(
    e: ExprView,
    mode: Receiver,
    k: int,
    cx: ContextView,
    st: StateView,
) -> (CheckedExprView, StateView)
    decreases e, 0int, 0int,
{
    match e.kind {
        ExprKindView::Call { args, .. } => check_at_spec(args, k, e.span, cx, st),
        ExprKindView::MethodCall { receiver, args, .. } => if k < 1 {
            check_receiver_spec(*receiver, mode, cx, st)
        } else {
            check_at_spec(args, k - 1, e.span, cx, st)
        },
        _ => (crate::scope::fallback_integer_spec(e.span), st),
    }
}

/// Checks the argument at a position, the receiver of a method call being the
/// first.
pub fn check_nth(
    e: &Expr,
    mode: Receiver,
    k: usize,
    cx: &Context,
    st: State,
) -> (r: (CheckedExpr, State))
    ensures
        (r.0@, r.1@) == check_nth_spec(e@, mode, k as int, cx@, st@),
        crate::state::follows(st@, r.1@),
        crate::state::balanced(st@, r.1@),
        crate::state::same_facts(st@, r.1@),
        st@.env.scopes.len() > 0
            && crate::typing::quiet(st@, r.1@)
            ==> crate::typing::fits(r.0@, crate::typing::declared_in(cx@, st@.env)),
    decreases e, 0int, 0int,
{
    proof {
        reveal(crate::typing::well_typed);
    }
    match &e.kind {
        ExprKind::Call { args, .. } => check_at(args, k, e.span, cx, st),
        ExprKind::MethodCall { receiver, args, .. } => if k < 1 {
            check_receiver(&**receiver, mode, cx, st)
        } else {
            check_at(args, k - 1, e.span, cx, st)
        },
        _ => (fallback_integer(e.span), st),
    }
}

/// What [`check_all_args`] computes from position `i` on.
pub open spec fn check_all_args_spec(
    args: Seq<ExprView>,
    e: ExprView,
    mode: Receiver,
    cx: ContextView,
    out: Seq<CheckedExprView>,
    st: StateView,
    i: int,
) -> (Seq<CheckedExprView>, StateView)
    decreases e, 1int, args.len() - i,
{
    if 0 <= i < args.len() {
        let arg = args[i];
        let (out, st) = {
            let (c, st) = check_nth_spec(e, mode, i, cx, st);
            (out.push(c), st)
        };
        check_all_args_spec(args, e, mode, cx, out, st, i + 1)
    } else {
        (out, st)
    }
}

/// Checks every argument of a call.
pub fn check_all_args(
    args: &Vec<Expr>,
    e: &Expr,
    mode: Receiver,
    cx: &Context,
    out: Vec<CheckedExpr>,
    st: State,
) -> (r: (Vec<CheckedExpr>, State))
    ensures
        (crate::state::checked_exprs_view(r.0@), r.1@) == check_all_args_spec(
            crate::ast::exprs_view(args@),
            e@,
            mode,
            cx@,
            crate::state::checked_exprs_view(out@),
            st@,
            0,
        ),
        crate::state::follows(st@, r.1@),
        crate::state::balanced(st@, r.1@),
        crate::state::same_facts(st@, r.1@),
        crate::typing::all_fit(
            crate::state::checked_exprs_view(out@),
            crate::typing::declared_in(cx@, st@.env),
        )
            && st@.env.scopes.len() > 0
            && crate::typing::quiet(st@, r.1@)
            ==> crate::typing::all_fit(
                crate::state::checked_exprs_view(r.0@),
                crate::typing::declared_in(cx@, st@.env),
            ),
    decreases e, 1int, args.len(),
{
    let ghost whole_run = check_all_args_spec(
        crate::ast::exprs_view(args@),
        e@,
        mode,
        cx@,
        crate::state::checked_exprs_view(out@),
        st@,
        0,
    );
    let ghost start_st = st@;
    let ghost start_out = crate::state::checked_exprs_view(out@);
    proof {
        reveal(crate::typing::well_typed);
    }
    let mut out = out;
    let mut st = st;
    let mut i: usize = 0;
    while i < args.len()
        invariant
            i <= args.len(),
            check_all_args_spec(
                crate::ast::exprs_view(args@),
                e@,
                mode,
                cx@,
                crate::state::checked_exprs_view(out@),
                st@,
                i as int,
            ) == whole_run,
            crate::state::follows(start_st, st@),
            crate::state::balanced(start_st, st@),
            crate::state::same_facts(start_st, st@),
            crate::typing::all_fit(start_out, crate::typing::declared_in(cx@, start_st.env))
                && start_st.env.scopes.len() > 0
                && crate::typing::quiet(start_st, st@)
                ==> crate::typing::all_fit(
                    crate::state::checked_exprs_view(out@),
                    crate::typing::declared_in(cx@, start_st.env),
                ),
        decreases args.len() - i,
    {
        let arg = &args[i];
        let next = {
            let (c, st) = check_nth(e, mode, i, cx, st);
            (push(out, c), st)
        };
        out = next.0;
        st = next.1;
        i += 1;
    }
    (out, st)
}

/// What [`check_declared_args`] computes from position `i` on.
pub open spec fn check_declared_args_spec(
    args: Seq<ExprView>,
    e: ExprView,
    mode: Receiver,
    name: Seq<char>,
    params: Seq<TypeView>,
    cx: ContextView,
    out: Seq<TypedExprView>,
    st: StateView,
    i: int,
) -> (Seq<TypedExprView>, StateView)
    decreases e, 1int, args.len() - i,
{
    if 0 <= i < args.len() {
        let arg = args[i];
        let (out, st) = {
            let (c, st) = check_nth_spec(e, mode, i, cx, st);
            let (value, st) = crate::calls::finish_arg_spec(c, arg, i, params, name, cx, st);
            (out.push(value), st)
        };
        check_declared_args_spec(args, e, mode, name, params, cx, out, st, i + 1)
    } else {
        (out, st)
    }
}

/// Checks the arguments of a declared function.
pub fn check_declared_args(
    args: &Vec<Expr>,
    e: &Expr,
    mode: Receiver,
    name: &str,
    params: &Vec<Type>,
    cx: &Context,
    out: Vec<TypedExpr>,
    st: State,
) -> (r: (Vec<TypedExpr>, State))
    ensures
        (crate::ir::typed_exprs_view(r.0@), r.1@) == check_declared_args_spec(
            crate::ast::exprs_view(args@),
            e@,
            mode,
            name@,
            crate::ast::types_view(params@),
            cx@,
            crate::ir::typed_exprs_view(out@),
            st@,
            0,
        ),
        out@.len() == 0 ==> crate::ir::typed_exprs_view(r.0@).len() == args@.len()
            && forall|j: int| 0 <= j < crate::ir::typed_exprs_view(r.0@).len()
            && j < params@.len()
            ==> (#[trigger] crate::ir::typed_exprs_view(r.0@)[j]).ty == crate::ast::types_view(params@)[j],
        crate::state::follows(st@, r.1@),
        crate::state::balanced(st@, r.1@),
        crate::state::same_facts(st@, r.1@),
        crate::typing::all_typed(
            crate::ir::typed_exprs_view(out@),
            crate::typing::declared_in(cx@, st@.env),
        )
            && st@.env.scopes.len() > 0
            && crate::typing::quiet(st@, r.1@)
            ==> crate::typing::all_typed(
                crate::ir::typed_exprs_view(r.0@),
                crate::typing::declared_in(cx@, st@.env),
            ),
    decreases e, 1int, args.len(),
{
    let ghost whole_run = check_declared_args_spec(
        crate::ast::exprs_view(args@),
        e@,
        mode,
        name@,
        crate::ast::types_view(params@),
        cx@,
        crate::ir::typed_exprs_view(out@),
        st@,
        0,
    );
    let ghost start_st = st@;
    let ghost start_out = crate::ir::typed_exprs_view(out@);
    proof {
        reveal(crate::typing::well_typed);
    }
    let mut out = out;
    let mut st = st;
    let mut i: usize = 0;
    while i < args.len()
        invariant
            i <= args.len(),
            check_declared_args_spec(
                crate::ast::exprs_view(args@),
                e@,
                mode,
                name@,
                crate::ast::types_view(params@),
                cx@,
                crate::ir::typed_exprs_view(out@),
                st@,
                i as int,
            ) == whole_run,
            crate::state::follows(start_st, st@),
            crate::state::balanced(start_st, st@),
            crate::state::same_facts(start_st, st@),
            start_out.len() == 0 ==> crate::ir::typed_exprs_view(out@).len() == i
                && forall|j: int| 0 <= j < crate::ir::typed_exprs_view(out@).len()
                && j < params@.len()
                ==> (#[trigger] crate::ir::typed_exprs_view(out@)[j]).ty == crate::ast::types_view(params@)[j],
            crate::typing::all_typed(start_out, crate::typing::declared_in(cx@, start_st.env))
                && start_st.env.scopes.len() > 0
                && crate::typing::quiet(start_st, st@)
                ==> crate::typing::all_typed(
                    crate::ir::typed_exprs_view(out@),
                    crate::typing::declared_in(cx@, start_st.env),
                ),
        decreases args.len() - i,
    {
        let arg = &args[i];
        let next = {
            let (c, st) = check_nth(e, mode, i, cx, st);
            let (value, st) = finish_arg(c, arg, i, params, name, cx, st);
            (push(out, value), st)
        };
        out = next.0;
        st = next.1;
        i += 1;
    }
    (out, st)
}

/// What [`check_indirect_args`] computes from position `i` on.
pub open spec fn check_indirect_args_spec(
    args: Seq<ExprView>,
    e: ExprView,
    mode: Receiver,
    params: Seq<TypeView>,
    cx: ContextView,
    out: Seq<TypedExprView>,
    st: StateView,
    i: int,
) -> (Seq<TypedExprView>, StateView)
    decreases e, 1int, args.len() - i,
{
    if 0 <= i < args.len() {
        let arg = args[i];
        let (out, st) = {
            let (c, st) = check_nth_spec(e, mode, i, cx, st);
            let (value, st) = crate::calls::finish_indirect_arg_spec(c, arg.span, i, params, st);
            (out.push(value), st)
        };
        check_indirect_args_spec(args, e, mode, params, cx, out, st, i + 1)
    } else {
        (out, st)
    }
}

/// Checks the arguments of a call through a function value.
pub fn check_indirect_args(
    args: &Vec<Expr>,
    e: &Expr,
    mode: Receiver,
    params: &Vec<Type>,
    cx: &Context,
    out: Vec<TypedExpr>,
    st: State,
) -> (r: (Vec<TypedExpr>, State))
    ensures
        (crate::ir::typed_exprs_view(r.0@), r.1@) == check_indirect_args_spec(
            crate::ast::exprs_view(args@),
            e@,
            mode,
            crate::ast::types_view(params@),
            cx@,
            crate::ir::typed_exprs_view(out@),
            st@,
            0,
        ),
        out@.len() == 0 ==> crate::ir::typed_exprs_view(r.0@).len() == args@.len()
            && forall|j: int| 0 <= j < crate::ir::typed_exprs_view(r.0@).len()
            && j < params@.len()
            ==> (#[trigger] crate::ir::typed_exprs_view(r.0@)[j]).ty == crate::ast::types_view(params@)[j],
        crate::state::follows(st@, r.1@),
        crate::state::balanced(st@, r.1@),
        crate::state::same_facts(st@, r.1@),
        crate::typing::all_typed(
            crate::ir::typed_exprs_view(out@),
            crate::typing::declared_in(cx@, st@.env),
        )
            && st@.env.scopes.len() > 0
            && crate::typing::quiet(st@, r.1@)
            ==> crate::typing::all_typed(
                crate::ir::typed_exprs_view(r.0@),
                crate::typing::declared_in(cx@, st@.env),
            ),
    decreases e, 1int, args.len(),
{
    let ghost whole_run = check_indirect_args_spec(
        crate::ast::exprs_view(args@),
        e@,
        mode,
        crate::ast::types_view(params@),
        cx@,
        crate::ir::typed_exprs_view(out@),
        st@,
        0,
    );
    let ghost start_st = st@;
    let ghost start_out = crate::ir::typed_exprs_view(out@);
    proof {
        reveal(crate::typing::well_typed);
    }
    let mut out = out;
    let mut st = st;
    let mut i: usize = 0;
    while i < args.len()
        invariant
            i <= args.len(),
            check_indirect_args_spec(
                crate::ast::exprs_view(args@),
                e@,
                mode,
                crate::ast::types_view(params@),
                cx@,
                crate::ir::typed_exprs_view(out@),
                st@,
                i as int,
            ) == whole_run,
            crate::state::follows(start_st, st@),
            crate::state::balanced(start_st, st@),
            crate::state::same_facts(start_st, st@),
            start_out.len() == 0 ==> crate::ir::typed_exprs_view(out@).len() == i
                && forall|j: int| 0 <= j < crate::ir::typed_exprs_view(out@).len()
                && j < params@.len()
                ==> (#[trigger] crate::ir::typed_exprs_view(out@)[j]).ty == crate::ast::types_view(params@)[j],
            crate::typing::all_typed(start_out, crate::typing::declared_in(cx@, start_st.env))
                && start_st.env.scopes.len() > 0
                && crate::typing::quiet(start_st, st@)
                ==> crate::typing::all_typed(
                    crate::ir::typed_exprs_view(out@),
                    crate::typing::declared_in(cx@, start_st.env),
                ),
        decreases args.len() - i,
    {
        let arg = &args[i];
        let next = {
            let (c, st) = check_nth(e, mode, i, cx, st);
            let (value, st) = finish_indirect_arg(c, arg.span, i, params, st);
            (push(out, value), st)
        };
        out = next.0;
        st = next.1;
        i += 1;
    }
    (out, st)
}

/// What [`check_indirect_call`] computes.
pub open spec fn check_indirect_call_spec(
    e: ExprView,
    mode: Receiver,
    args: Seq<ExprView>,
    name: Seq<char>,
    name_span: Span,
    at: Span,
    params: Seq<TypeView>,
    ret: TypeView,
    cx: ContextView,
    st: StateView,
) -> (CheckedExprView, StateView)
    decreases e, 3int, 0int,
{
    let st = if args.len() == params.len() {
        st
    } else {
        let message = "fn-ptr '"@ + name + "' expects "@
            + crate::text::decimal((params.len() as int)) + " argument(s), got "@
            + crate::text::decimal((args.len() as int));
        crate::scope::report_spec(st, e.span, message)
    };
    let (typed_args, st) = check_indirect_args_spec(args, e, mode, params, cx, Seq::empty(), st, 0);
    (crate::calls::indirect_call_spec(name, name_span, at, params, ret, typed_args, e.span), st)
}

/// A call through a function value.
pub fn check_indirect_call(
    e: &Expr,
    mode: Receiver,
    args: &Vec<Expr>,
    name: &str,
    name_span: Span,
    at: Span,
    params: Vec<Type>,
    ret: &Type,
    cx: &Context,
    st: State,
) -> (r: (CheckedExpr, State))
    ensures
        (r.0@, r.1@) == check_indirect_call_spec(
            e@,
            mode,
            crate::ast::exprs_view(args@),
            name@,
            name_span,
            at,
            crate::ast::types_view(params@),
            ret@,
            cx@,
            st@,
        ),
        crate::state::follows(st@, r.1@),
        crate::state::balanced(st@, r.1@),
        crate::state::same_facts(st@, r.1@),
        st@.env.scopes.len() > 0
            && crate::typing::quiet(st@, r.1@)
            ==> crate::typing::fits(r.0@, crate::typing::declared_in(cx@, st@.env)),
    decreases e, 3int, 0int,
{
    proof {
        reveal(crate::typing::well_typed); reveal_with_fuel(crate::typing::well_typed, 2);
    }
    let st = if args.len() == params.len() {
        st
    } else {
        let message = cat6(
            "fn-ptr '",
            name,
            "' expects ",
            &usize_text(params.len()),
            " argument(s), got ",
            &usize_text(args.len()),
        );
        report(st, e.span, message)
    };
    let (typed_args, st) = check_indirect_args(args, e, mode, &params, cx, Vec::new(), st);
    (indirect_call(name, name_span, at, params, ret, typed_args, e.span), st)
}

/// What [`check_declared_call`] computes.
pub open spec fn check_declared_call_spec(
    e: ExprView,
    mode: Receiver,
    args: Seq<ExprView>,
    name: Seq<char>,
    name_span: Span,
    sig: SignatureView,
    cx: ContextView,
    st: StateView,
) -> (CheckedExprView, StateView)
    decreases e, 3int, 0int,
{
    let st = if args.len() == sig.params.len() {
        st
    } else {
        let message = "function '"@ + name + "' expects "@
            + crate::text::decimal((sig.params.len() as int)) + " argument(s), got "@
            + crate::text::decimal((args.len() as int));
        crate::scope::report_spec(st, e.span, message)
    };
    let st = crate::calls::check_arg_aliasing_spec(args, e.span, cx, st);
    let st = crate::calls::check_held_mutexes_spec(args, name, sig.locks_params, st, 0);
    let (typed_args, st) = check_declared_args_spec(
        args,
        e,
        mode,
        name,
        sig.params,
        cx,
        Seq::empty(),
        st,
        0,
    );
    (
        crate::scope::checked_spec(
            crate::calls::call_kind_spec(name, name_span, typed_args),
            sig.return_type,
            None,
            e.span,
        ),
        st,
    )
}

/// A call of a declared function.
pub fn check_declared_call(
    e: &Expr,
    mode: Receiver,
    args: &Vec<Expr>,
    name: &str,
    name_span: Span,
    sig: Signature,
    cx: &Context,
    st: State,
) -> (r: (CheckedExpr, State))
    ensures
        (r.0@, r.1@) == check_declared_call_spec(
            e@,
            mode,
            crate::ast::exprs_view(args@),
            name@,
            name_span,
            sig@,
            cx@,
            st@,
        ),
        crate::state::follows(st@, r.1@),
        crate::state::balanced(st@, r.1@),
        crate::state::same_facts(st@, r.1@),
        crate::scope::signature_get_spec(
            crate::state::signatures_view(cx.signatures@),
            name@,
        ) == Some(sig@)
            && st@.env.scopes.len() > 0
            && crate::typing::quiet(st@, r.1@)
            ==> crate::typing::fits(r.0@, crate::typing::declared_in(cx@, st@.env)),
    decreases e, 3int, 0int,
{
    proof {
        reveal(crate::typing::well_typed);
    }
    let st = if args.len() == sig.params.len() {
        st
    } else {
        let message = cat6(
            "function '",
            name,
            "' expects ",
            &usize_text(sig.params.len()),
            " argument(s), got ",
            &usize_text(args.len()),
        );
        report(st, e.span, message)
    };
    let st = check_arg_aliasing(args, e.span, cx, st);
    let st = check_held_mutexes(args, name, &sig.locks_params, st);
    let (typed_args, st) = check_declared_args(
        args,
        e,
        mode,
        name,
        &sig.params,
        cx,
        Vec::new(),
        st,
    );
    (checked(call_kind(name, name_span, typed_args), sig.return_type, None, e.span), st)
}

/// What [`check_call`] computes.
pub open spec fn check_call_spec(
    e: ExprView,
    mode: Receiver,
    name: Seq<char>,
    name_span: Span,
    cx: ContextView,
    st: StateView,
) -> (CheckedExprView, StateView)
    decreases e, 7int, 0int,
{
    let args = crate::calls::call_args_spec(e, mode);
    if name == "vec"@ {
        let (cs, st) = check_all_args_spec(args, e, mode, cx, Seq::empty(), st, 0);
        crate::calls::finish_vec_spec(cs, args, e.span, cx, st)
    } else if name == "push"@ {
        check_push_builtin_spec(e, mode, args, cx, st)
    } else if name == "set"@ {
        check_set_builtin_spec(e, mode, args, cx, st)
    } else if name == "clone"@ {
        check_clone_builtin_spec(e, mode, args, cx, st)
    } else if name == "clone_at"@ {
        check_clone_at_builtin_spec(e, mode, args, cx, st)
    } else if name == "min"@ || name == "max"@ {
        check_min_max_builtin_spec(e, mode, args, name, cx, st)
    } else if crate::calls::is_atomic_builtin_spec(name) {
        check_atomic_builtin_spec(e, mode, args, name, cx, st)
    } else if crate::calls::is_channel_builtin_spec(name) {
        check_channel_builtin_spec(e, mode, args, name, cx, st)
    } else if crate::calls::is_mutex_builtin_spec(name) {
        check_mutex_builtin_spec(e, mode, args, name, cx, st)
    } else {
        match crate::scope::signature_get_spec(cx.signatures, name) {
            Some(sig) => check_declared_call_spec(e, mode, args, name, name_span, sig, cx, st),
            None => match crate::calls::named_fn_value_spec(name, st.env) {
                Some((at, params, ret)) => check_indirect_call_spec(
                    e,
                    mode,
                    args,
                    name,
                    name_span,
                    at,
                    params,
                    ret,
                    cx,
                    st,
                ),
                None => (
                    crate::scope::fallback_integer_spec(e.span),
                    crate::scope::report_spec(st, e.span, "unknown function '"@ + name + "'"@),
                ),
            },
        }
    }
}

/// A call of a name: a built-in, a declared function or a function value.
pub fn check_call(
    e: &Expr,
    mode: Receiver,
    name: &str,
    name_span: Span,
    cx: &Context,
    st: State,
) -> (r: (CheckedExpr, State))
    ensures
        (r.0@, r.1@) == check_call_spec(e@, mode, name@, name_span, cx@, st@),
        crate::state::follows(st@, r.1@),
        crate::state::balanced(st@, r.1@),
        crate::state::same_facts(st@, r.1@),
        st@.env.scopes.len() > 0
            && crate::typing::quiet(st@, r.1@)
            ==> crate::typing::fits(r.0@, crate::typing::declared_in(cx@, st@.env)),
    decreases e, 7int, 0int,
{
    let args = call_args(e, mode);
    if str_eq(name, "vec") {
        let (cs, st) = check_all_args(&args, e, mode, cx, Vec::new(), st);
        finish_vec(&cs, &args, e.span, cx, st)
    } else if str_eq(name, "push") {
        check_push_builtin(e, mode, &args, cx, st)
    } else if str_eq(name, "set") {
        check_set_builtin(e, mode, &args, cx, st)
    } else if str_eq(name, "clone") {
        check_clone_builtin(e, mode, &args, cx, st)
    } else if str_eq(name, "clone_at") {
        check_clone_at_builtin(e, mode, &args, cx, st)
    } else if str_eq(name, "min") || str_eq(name, "max") {
        check_min_max_builtin(e, mode, &args, name, cx, st)
    } else if is_atomic_builtin(name) {
        check_atomic_builtin(e, mode, &args, name, cx, st)
    } else if is_channel_builtin(name) {
        check_channel_builtin(e, mode, &args, name, cx, st)
    } else if is_mutex_builtin(name) {
        check_mutex_builtin(e, mode, &args, name, cx, st)
    } else {
        match signature_get(&cx.signatures, name) {
            Some(sig) => check_declared_call(e, mode, &args, name, name_span, sig, cx, st),
            None => match named_fn_value(name, &st.env) {
                Some((at, params, ret)) => check_indirect_call(
                    e,
                    mode,
                    &args,
                    name,
                    name_span,
                    at,
                    params,
                    &ret,
                    cx,
                    st,
                ),
                None => (
                    fallback_integer(e.span),
                    report(st, e.span, cat3("unknown function '", name, "'")),
                ),
            },
        }
    }
}

/// What [`check_push_builtin`] computes.
pub open spec fn check_push_builtin_spec(
    e: ExprView,
    mode: Receiver,
    args: Seq<ExprView>,
    cx: ContextView,
    st: StateView,
) -> (CheckedExprView, StateView)
    decreases e, 3int, 0int,
{
    if args.len() != 2 {
        (
            crate::scope::fallback_spec(crate::calls::vec_of_i64_spec(), e.span),
            crate::calls::report_count_spec(
                "push(xs, v) expects 2 arguments"@,
                ", got "@,
                (args.len() as int),
                e.span,
                st,
            ),
        )
    } else {
        let (xs, st) = check_nth_spec(e, mode, 0, cx, st);
        match crate::calls::push_target_spec(xs.expr.ty) {
            None => {
                let message = "push() requires a Vec or mut ref Vec argument, got "@
                    + crate::ast::type_text_spec(xs.expr.ty);
                (
                    crate::scope::fallback_spec(crate::calls::vec_of_i64_spec(), e.span),
                    crate::scope::report_spec(st, crate::calls::arg_span_spec(args, 0), message),
                )
            },
            Some((element, in_place)) => {
                let (value, st) = check_nth_spec(e, mode, 1, cx, st);
                crate::calls::finish_push_spec(xs, value, element, in_place, args, e.span, cx, st)
            },
        }
    }
}

/// `push(xs, v)`: a longer vector, or a vector made longer in place.
pub fn check_push_builtin(
    e: &Expr,
    mode: Receiver,
    args: &Vec<Expr>,
    cx: &Context,
    st: State,
) -> (r: (CheckedExpr, State))
    ensures
        (r.0@, r.1@) == check_push_builtin_spec(e@, mode, crate::ast::exprs_view(args@), cx@, st@),
        crate::state::follows(st@, r.1@),
        crate::state::balanced(st@, r.1@),
        crate::state::same_facts(st@, r.1@),
        st@.env.scopes.len() > 0
            && crate::typing::quiet(st@, r.1@)
            ==> crate::typing::fits(r.0@, crate::typing::declared_in(cx@, st@.env)),
    decreases e, 3int, 0int,
{
    proof {
        reveal(crate::typing::well_typed);
    }
    if args.len() != 2 {
        (
            fallback(vec_of_i64(), e.span),
            report_count("push(xs, v) expects 2 arguments", ", got ", args.len(), e.span, st),
        )
    } else {
        let (xs, st) = check_nth(e, mode, 0, cx, st);
        match push_target(&xs.expr.ty) {
            None => {
                let message = cat2(
                    "push() requires a Vec or mut ref Vec argument, got ",
                    &type_text(&xs.expr.ty),
                );
                (fallback(vec_of_i64(), e.span), report(st, arg_span(args, 0), message))
            },
            Some((element, in_place)) => {
                let (value, st) = check_nth(e, mode, 1, cx, st);
                finish_push(xs, value, element, in_place, args, e.span, cx, st)
            },
        }
    }
}

/// What [`check_set_builtin`] computes.
pub open spec fn check_set_builtin_spec(
    e: ExprView,
    mode: Receiver,
    args: Seq<ExprView>,
    cx: ContextView,
    st: StateView,
) -> (CheckedExprView, StateView)
    decreases e, 3int, 0int,
{
    if args.len() != 3 {
        (
            crate::scope::fallback_spec(crate::calls::vec_of_i64_spec(), e.span),
            crate::calls::report_count_spec(
                "set(xs, i, v) expects 3 arguments"@,
                ", got "@,
                (args.len() as int),
                e.span,
                st,
            ),
        )
    } else {
        let (xs, st) = check_nth_spec(e, mode, 0, cx, st);
        match crate::calls::vec_element_spec(xs.expr.ty) {
            None => {
                let message = "set() requires a Vec argument, got "@
                    + crate::ast::type_text_spec(xs.expr.ty);
                (
                    crate::scope::fallback_spec(crate::calls::vec_of_i64_spec(), e.span),
                    crate::scope::report_spec(st, crate::calls::arg_span_spec(args, 0), message),
                )
            },
            Some(element) => {
                let (index, st) = check_nth_spec(e, mode, 1, cx, st);
                let st = crate::calls::require_index_spec(
                    "set"@,
                    index,
                    crate::calls::arg_span_spec(args, 1),
                    st,
                );
                let (value, st) = check_nth_spec(e, mode, 2, cx, st);
                crate::calls::finish_set_spec(xs, index, value, element, args, e.span, cx, st)
            },
        }
    }
}

/// `set(xs, i, v)`: the vector with one element replaced.
pub fn check_set_builtin(
    e: &Expr,
    mode: Receiver,
    args: &Vec<Expr>,
    cx: &Context,
    st: State,
) -> (r: (CheckedExpr, State))
    ensures
        (r.0@, r.1@) == check_set_builtin_spec(e@, mode, crate::ast::exprs_view(args@), cx@, st@),
        crate::state::follows(st@, r.1@),
        crate::state::balanced(st@, r.1@),
        crate::state::same_facts(st@, r.1@),
        st@.env.scopes.len() > 0
            && crate::typing::quiet(st@, r.1@)
            ==> crate::typing::fits(r.0@, crate::typing::declared_in(cx@, st@.env)),
    decreases e, 3int, 0int,
{
    proof {
        reveal(crate::typing::well_typed);
    }
    if args.len() != 3 {
        (
            fallback(vec_of_i64(), e.span),
            report_count("set(xs, i, v) expects 3 arguments", ", got ", args.len(), e.span, st),
        )
    } else {
        let (xs, st) = check_nth(e, mode, 0, cx, st);
        match vec_element(&xs.expr.ty) {
            None => {
                let message = cat2("set() requires a Vec argument, got ", &type_text(&xs.expr.ty));
                (fallback(vec_of_i64(), e.span), report(st, arg_span(args, 0), message))
            },
            Some(element) => {
                let (index, st) = check_nth(e, mode, 1, cx, st);
                let st = require_index("set", &index, arg_span(args, 1), st);
                let (value, st) = check_nth(e, mode, 2, cx, st);
                finish_set(xs, index, value, element, args, e.span, cx, st)
            },
        }
    }
}

/// What [`check_clone_builtin`] computes.
pub open spec fn check_clone_builtin_spec(
    e: ExprView,
    mode: Receiver,
    args: Seq<ExprView>,
    cx: ContextView,
    st: StateView,
) -> (CheckedExprView, StateView)
    decreases e, 3int, 0int,
{
    if args.len() != 1 {
        (
            crate::scope::fallback_spec(crate::calls::vec_of_i64_spec(), e.span),
            crate::calls::report_count_spec(
                "clone(xs) expects 1 argument"@,
                ", got "@,
                (args.len() as int),
                e.span,
                st,
            ),
        )
    } else {
        let (xs, st) = check_nth_spec(e, mode, 0, cx, st);
        if crate::types::is_vec_spec(xs.expr.ty) {
            let t = xs.expr.ty;
            (
                crate::calls::builtin_call_spec(
                    "clone"@,
                    crate::calls::one_expr_spec(xs.expr),
                    t,
                    e.span,
                ),
                st,
            )
        } else {
            let message = "clone() requires a Vec argument, got "@
                + crate::ast::type_text_spec(xs.expr.ty);
            (
                crate::scope::fallback_spec(crate::calls::vec_of_i64_spec(), e.span),
                crate::scope::report_spec(st, crate::calls::arg_span_spec(args, 0), message),
            )
        }
    }
}

/// `clone(xs)`: a copy of a vector.
pub fn check_clone_builtin(
    e: &Expr,
    mode: Receiver,
    args: &Vec<Expr>,
    cx: &Context,
    st: State,
) -> (r: (CheckedExpr, State))
    ensures
        (r.0@, r.1@) == check_clone_builtin_spec(e@, mode, crate::ast::exprs_view(args@), cx@, st@),
        crate::state::follows(st@, r.1@),
        crate::state::balanced(st@, r.1@),
        crate::state::same_facts(st@, r.1@),
        st@.env.scopes.len() > 0
            && crate::typing::quiet(st@, r.1@)
            ==> crate::typing::fits(r.0@, crate::typing::declared_in(cx@, st@.env)),
    decreases e, 3int, 0int,
{
    proof {
        reveal(crate::typing::well_typed);
    }
    if args.len() != 1 {
        (
            fallback(vec_of_i64(), e.span),
            report_count("clone(xs) expects 1 argument", ", got ", args.len(), e.span, st),
        )
    } else {
        let (xs, st) = check_nth(e, mode, 0, cx, st);
        if is_vec(&xs.expr.ty) {
            let t = xs.expr.ty.dup();
            (builtin_call("clone", one_expr(xs.expr), t, e.span), st)
        } else {
            let message = cat2("clone() requires a Vec argument, got ", &type_text(&xs.expr.ty));
            (fallback(vec_of_i64(), e.span), report(st, arg_span(args, 0), message))
        }
    }
}

/// What [`check_clone_at_builtin`] computes.
pub open spec fn check_clone_at_builtin_spec(
    e: ExprView,
    mode: Receiver,
    args: Seq<ExprView>,
    cx: ContextView,
    st: StateView,
) -> (CheckedExprView, StateView)
    decreases e, 3int, 0int,
{
    if args.len() != 2 {
        (
            crate::scope::fallback_integer_spec(e.span),
            crate::calls::report_count_spec(
                "clone_at(xs, i) expects 2 arguments"@,
                ", got "@,
                (args.len() as int),
                e.span,
                st,
            ),
        )
    } else {
        let (xs, st) = check_nth_spec(e, mode, 0, cx, st);
        match crate::calls::vec_element_spec(crate::types::deref_spec(xs.expr.ty)) {
            None => {
                let message = "clone_at() requires a Vec or &Vec argument, got "@
                    + crate::ast::type_text_spec(crate::types::deref_spec(xs.expr.ty));
                (
                    crate::scope::fallback_integer_spec(e.span),
                    crate::scope::report_spec(st, crate::calls::arg_span_spec(args, 0), message),
                )
            },
            Some(element) => {
                let (index, st) = check_nth_spec(e, mode, 1, cx, st);
                let st = crate::calls::require_index_spec(
                    "clone_at"@,
                    index,
                    crate::calls::arg_span_spec(args, 1),
                    st,
                );
                (
                    crate::calls::builtin_call_spec(
                        "clone_at"@,
                        crate::operators::two_exprs_spec(xs.expr, index.expr),
                        element,
                        e.span,
                    ),
                    st,
                )
            },
        }
    }
}

/// `clone_at(xs, i)`: a copy of one element.
pub fn check_clone_at_builtin(
    e: &Expr,
    mode: Receiver,
    args: &Vec<Expr>,
    cx: &Context,
    st: State,
) -> (r: (CheckedExpr, State))
    ensures
        (r.0@, r.1@) == check_clone_at_builtin_spec(
            e@,
            mode,
            crate::ast::exprs_view(args@),
            cx@,
            st@,
        ),
        crate::state::follows(st@, r.1@),
        crate::state::balanced(st@, r.1@),
        crate::state::same_facts(st@, r.1@),
        st@.env.scopes.len() > 0
            && crate::typing::quiet(st@, r.1@)
            ==> crate::typing::fits(r.0@, crate::typing::declared_in(cx@, st@.env)),
    decreases e, 3int, 0int,
{
    proof {
        reveal(crate::typing::well_typed);
    }
    if args.len() != 2 {
        (
            fallback_integer(e.span),
            report_count("clone_at(xs, i) expects 2 arguments", ", got ", args.len(), e.span, st),
        )
    } else {
        let (xs, st) = check_nth(e, mode, 0, cx, st);
        match vec_element(&deref(&xs.expr.ty)) {
            None => {
                let message = cat2(
                    "clone_at() requires a Vec or &Vec argument, got ",
                    &type_text(&deref(&xs.expr.ty)),
                );
                (fallback_integer(e.span), report(st, arg_span(args, 0), message))
            },
            Some(element) => {
                let (index, st) = check_nth(e, mode, 1, cx, st);
                let st = require_index("clone_at", &index, arg_span(args, 1), st);
                (builtin_call("clone_at", two_exprs(xs.expr, index.expr), element, e.span), st)
            },
        }
    }
}

/// What [`check_min_max_builtin`] computes.
pub open spec fn check_min_max_builtin_spec(
    e: ExprView,
    mode: Receiver,
    args: Seq<ExprView>,
    name: Seq<char>,
    cx: ContextView,
    st: StateView,
) -> (CheckedExprView, StateView)
    decreases e, 3int, 0int,
{
    if args.len() != 2 {
        (
            crate::scope::fallback_integer_spec(e.span),
            crate::calls::report_count_spec(
                "'"@ + name + "' takes exactly 2 arguments"@,
                ", got "@,
                (args.len() as int),
                e.span,
                st,
            ),
        )
    } else {
        let (a, st) = check_nth_spec(e, mode, 0, cx, st);
        let (b, st) = check_nth_spec(e, mode, 1, cx, st);
        crate::calls::smaller_or_larger_spec(name, a, b, e.span, st)
    }
}

/// `min(a, b)` and `max(a, b)`.
pub fn check_min_max_builtin(
    e: &Expr,
    mode: Receiver,
    args: &Vec<Expr>,
    name: &str,
    cx: &Context,
    st: State,
) -> (r: (CheckedExpr, State))
    ensures
        (r.0@, r.1@) == check_min_max_builtin_spec(
            e@,
            mode,
            crate::ast::exprs_view(args@),
            name@,
            cx@,
            st@,
        ),
        crate::state::follows(st@, r.1@),
        crate::state::balanced(st@, r.1@),
        crate::state::same_facts(st@, r.1@),
        (name@ == "min"@ || name@ == "max"@) && st@.env.scopes.len() > 0
            && crate::typing::quiet(st@, r.1@)
            ==> crate::typing::fits(r.0@, crate::typing::declared_in(cx@, st@.env)),
    decreases e, 3int, 0int,
{
    proof {
        reveal(crate::typing::well_typed);
    }
    if args.len() != 2 {
        (
            fallback_integer(e.span),
            report_count(
                &cat3("'", name, "' takes exactly 2 arguments"),
                ", got ",
                args.len(),
                e.span,
                st,
            ),
        )
    } else {
        let (a, st) = check_nth(e, mode, 0, cx, st);
        let (b, st) = check_nth(e, mode, 1, cx, st);
        smaller_or_larger(name, a, b, e.span, st)
    }
}

/// What [`check_atomic_builtin`] computes.
pub open spec fn check_atomic_builtin_spec(
    e: ExprView,
    mode: Receiver,
    args: Seq<ExprView>,
    name: Seq<char>,
    cx: ContextView,
    st: StateView,
) -> (CheckedExprView, StateView)
    decreases e, 4int, 0int,
{
    if name == "atomic_new"@ {
        if args.len() != 1 {
            (
                crate::scope::fallback_spec(
                    crate::operators::atomic_of_spec(TypeView::I64),
                    e.span,
                ),
                crate::calls::report_count_spec(
                    "'atomic_new' takes exactly 1 argument (initial value)"@,
                    ", got "@,
                    (args.len() as int),
                    e.span,
                    st,
                ),
            )
        } else {
            let (c, st) = check_nth_spec(e, mode, 0, cx, st);
            crate::calls::new_atomic_spec(c, crate::calls::arg_span_spec(args, 0), e.span, st)
        }
    } else if name == "atomic_load"@ {
        if args.len() != 1 {
            (
                crate::scope::fallback_spec(TypeView::I64, e.span),
                crate::calls::report_count_spec(
                    "'atomic_load' takes exactly 1 argument"@,
                    ", got "@,
                    (args.len() as int),
                    e.span,
                    st,
                ),
            )
        } else {
            let (c, st) = check_nth_spec(e, mode, 0, cx, st);
            let (element, st) = crate::calls::atomic_cell_element_spec(
                name,
                c,
                crate::calls::arg_span_spec(args, 0),
                st,
            );
            (
                crate::calls::builtin_call_spec(
                    name,
                    crate::calls::one_expr_spec(c.expr),
                    element,
                    e.span,
                ),
                st,
            )
        }
    } else if name == "atomic_compare_exchange"@ {
        check_atomic_cas_spec(e, mode, args, name, cx, st)
    } else {
        check_atomic_binary_ref_spec(e, mode, args, name, cx, st)
    }
}

/// The operations on atomic cells.
pub fn check_atomic_builtin(
    e: &Expr,
    mode: Receiver,
    args: &Vec<Expr>,
    name: &str,
    cx: &Context,
    st: State,
) -> (r: (CheckedExpr, State))
    ensures
        (r.0@, r.1@) == check_atomic_builtin_spec(
            e@,
            mode,
            crate::ast::exprs_view(args@),
            name@,
            cx@,
            st@,
        ),
        crate::state::follows(st@, r.1@),
        crate::state::balanced(st@, r.1@),
        crate::state::same_facts(st@, r.1@),
        crate::calls::is_atomic_builtin_spec(name@) && st@.env.scopes.len() > 0
            && crate::typing::quiet(st@, r.1@)
            ==> crate::typing::fits(r.0@, crate::typing::declared_in(cx@, st@.env)),
    decreases e, 4int, 0int,
{
    proof {
        reveal(crate::typing::well_typed);
    }
    if str_eq(name, "atomic_new") {
        if args.len() != 1 {
            (
                fallback(atomic_of(Type::I64), e.span),
                report_count(
                    "'atomic_new' takes exactly 1 argument (initial value)",
                    ", got ",
                    args.len(),
                    e.span,
                    st,
                ),
            )
        } else {
            let (c, st) = check_nth(e, mode, 0, cx, st);
            new_atomic(c, arg_span(args, 0), e.span, st)
        }
    } else if str_eq(name, "atomic_load") {
        if args.len() != 1 {
            (
                fallback(Type::I64, e.span),
                report_count(
                    "'atomic_load' takes exactly 1 argument",
                    ", got ",
                    args.len(),
                    e.span,
                    st,
                ),
            )
        } else {
            let (c, st) = check_nth(e, mode, 0, cx, st);
            let (element, st) = atomic_cell_element(name, &c, arg_span(args, 0), st);
            (builtin_call(name, one_expr(c.expr), element, e.span), st)
        }
    } else if str_eq(name, "atomic_compare_exchange") {
        check_atomic_cas(e, mode, args, name, cx, st)
    } else {
        check_atomic_binary_ref(e, mode, args, name, cx, st)
    }
}

/// What [`check_atomic_cas`] computes.
pub open spec fn check_atomic_cas_spec(
    e: ExprView,
    mode: Receiver,
    args: Seq<ExprView>,
    name: Seq<char>,
    cx: ContextView,
    st: StateView,
) -> (CheckedExprView, StateView)
    decreases e, 3int, 0int,
{
    if args.len() != 3 {
        (
            crate::scope::fallback_spec(TypeView::Bool, e.span),
            crate::calls::report_count_spec(
                "'atomic_compare_exchange' takes exactly 3 arguments (&cell, expected, new)"@,
                ", got "@,
                (args.len() as int),
                e.span,
                st,
            ),
        )
    } else {
        let (c, st) = check_nth_spec(e, mode, 0, cx, st);
        let (element, st) = crate::calls::atomic_cell_element_spec(
            name,
            c,
            crate::calls::arg_span_spec(args, 0),
            st,
        );
        let (expected, st) = check_nth_spec(e, mode, 1, cx, st);
        let (expected, st) = crate::numeric::coerce_checked_spec(
            expected,
            element,
            crate::calls::arg_span_spec(args, 1),
            "atomic_compare_exchange expected value"@,
            st,
        );
        let (new, st) = check_nth_spec(e, mode, 2, cx, st);
        let (new, st) = crate::numeric::coerce_checked_spec(
            new,
            element,
            crate::calls::arg_span_spec(args, 2),
            "atomic_compare_exchange new value"@,
            st,
        );
        (
            crate::calls::builtin_call_spec(
                name,
                crate::calls::three_exprs_spec(c.expr, expected.expr, new.expr),
                TypeView::Bool,
                e.span,
            ),
            st,
        )
    }
}

/// `atomic_compare_exchange(cell, expected, new)`.
pub fn check_atomic_cas(
    e: &Expr,
    mode: Receiver,
    args: &Vec<Expr>,
    name: &str,
    cx: &Context,
    st: State,
) -> (r: (CheckedExpr, State))
    ensures
        (r.0@, r.1@) == check_atomic_cas_spec(
            e@,
            mode,
            crate::ast::exprs_view(args@),
            name@,
            cx@,
            st@,
        ),
        crate::state::follows(st@, r.1@),
        crate::state::balanced(st@, r.1@),
        crate::state::same_facts(st@, r.1@),
        name@ == "atomic_compare_exchange"@ && st@.env.scopes.len() > 0
            && crate::typing::quiet(st@, r.1@)
            ==> crate::typing::fits(r.0@, crate::typing::declared_in(cx@, st@.env)),
    decreases e, 3int, 0int,
{
    proof {
        reveal(crate::typing::well_typed);
    }
    if args.len() != 3 {
        (
            fallback(Type::Bool, e.span),
            report_count(
                "'atomic_compare_exchange' takes exactly 3 arguments (&cell, expected, new)",
                ", got ",
                args.len(),
                e.span,
                st,
            ),
        )
    } else {
        let (c, st) = check_nth(e, mode, 0, cx, st);
        let (element, st) = atomic_cell_element(name, &c, arg_span(args, 0), st);
        let (expected, st) = check_nth(e, mode, 1, cx, st);
        let (expected, st) = coerce_checked(
            expected,
            &element,
            arg_span(args, 1),
            "atomic_compare_exchange expected value",
            st,
        );
        let (new, st) = check_nth(e, mode, 2, cx, st);
        let (new, st) = coerce_checked(
            new,
            &element,
            arg_span(args, 2),
            "atomic_compare_exchange new value",
            st,
        );
        (builtin_call(name, three_exprs(c.expr, expected.expr, new.expr), Type::Bool, e.span), st)
    }
}

/// What [`check_atomic_binary_ref`] computes.
pub open spec fn check_atomic_binary_ref_spec(
    e: ExprView,
    mode: Receiver,
    args: Seq<ExprView>,
    name: Seq<char>,
    cx: ContextView,
    st: StateView,
) -> (CheckedExprView, StateView)
    decreases e, 3int, 0int,
{
    if args.len() != 2 {
        (
            crate::scope::fallback_spec(TypeView::I64, e.span),
            crate::calls::report_count_spec(
                "'"@ + name + "' takes exactly 2 arguments"@,
                ", got "@,
                (args.len() as int),
                e.span,
                st,
            ),
        )
    } else {
        let (c, st) = check_nth_spec(e, mode, 0, cx, st);
        let (element, st) = crate::calls::atomic_cell_element_spec(
            name,
            c,
            crate::calls::arg_span_spec(args, 0),
            st,
        );
        let st = if name == "atomic_fetch_add"@ && crate::types::is_bool_spec(element) {
            crate::scope::report_spec(
                st,
                crate::calls::arg_span_spec(args, 0),
                "'atomic_fetch_add' requires an integer element; bool atomics have no addition"@,
            )
        } else {
            st
        };
        let (value, st) = check_nth_spec(e, mode, 1, cx, st);
        let what = "'"@ + name + "' value argument"@;
        let (value, st) = crate::numeric::coerce_checked_spec(
            value,
            element,
            crate::calls::arg_span_spec(args, 1),
            what,
            st,
        );
        (
            crate::calls::builtin_call_spec(
                name,
                crate::operators::two_exprs_spec(c.expr, value.expr),
                element,
                e.span,
            ),
            st,
        )
    }
}

/// `atomic_store(cell, v)` and `atomic_fetch_add(cell, v)`.
pub fn check_atomic_binary_ref(
    e: &Expr,
    mode: Receiver,
    args: &Vec<Expr>,
    name: &str,
    cx: &Context,
    st: State,
) -> (r: (CheckedExpr, State))
    ensures
        (r.0@, r.1@) == check_atomic_binary_ref_spec(
            e@,
            mode,
            crate::ast::exprs_view(args@),
            name@,
            cx@,
            st@,
        ),
        crate::state::follows(st@, r.1@),
        crate::state::balanced(st@, r.1@),
        crate::state::same_facts(st@, r.1@),
        (name@ == "atomic_store"@ || name@ == "atomic_fetch_add"@) && st@.env.scopes.len() > 0
            && crate::typing::quiet(st@, r.1@)
            ==> crate::typing::fits(r.0@, crate::typing::declared_in(cx@, st@.env)),
    decreases e, 3int, 0int,
{
    proof {
        reveal(crate::typing::well_typed);
    }
    if args.len() != 2 {
        (
            fallback(Type::I64, e.span),
            report_count(
                &cat3("'", name, "' takes exactly 2 arguments"),
                ", got ",
                args.len(),
                e.span,
                st,
            ),
        )
    } else {
        let (c, st) = check_nth(e, mode, 0, cx, st);
        let (element, st) = atomic_cell_element(name, &c, arg_span(args, 0), st);
        let st = if str_eq(name, "atomic_fetch_add") && is_bool(&element) {
            report(
                st,
                arg_span(args, 0),
                text(
                    "'atomic_fetch_add' requires an integer element; bool atomics have no addition",
                ),
            )
        } else {
            st
        };
        let (value, st) = check_nth(e, mode, 1, cx, st);
        let what = cat3("'", name, "' value argument");
        let (value, st) = coerce_checked(value, &element, arg_span(args, 1), &what, st);
        (builtin_call(name, two_exprs(c.expr, value.expr), element, e.span), st)
    }
}

/// What [`check_channel_builtin`] computes.
pub open spec fn check_channel_builtin_spec(
    e: ExprView,
    mode: Receiver,
    args: Seq<ExprView>,
    name: Seq<char>,
    cx: ContextView,
    st: StateView,
) -> (CheckedExprView, StateView)
    decreases e, 3int, 0int,
{
    if name == "channel_new"@ {
        let st = if args.len() == 0 {
            st
        } else {
            crate::calls::report_count_spec(
                "'channel_new' takes 0 arguments"@,
                ", got "@,
                (args.len() as int),
                e.span,
                st,
            )
        };
        (
            crate::calls::builtin_call_spec(
                name,
                crate::calls::no_exprs_spec(),
                crate::operators::channel_of_spec(TypeView::I64, 16),
                e.span,
            ),
            st,
        )
    } else if name == "channel_send"@ {
        if args.len() != 2 {
            (
                crate::scope::fallback_spec(TypeView::I64, e.span),
                crate::calls::report_count_spec(
                    "'channel_send' takes 2 arguments"@,
                    ", got "@,
                    (args.len() as int),
                    e.span,
                    st,
                ),
            )
        } else {
            let (c, st) = check_nth_spec(e, mode, 0, cx, st);
            let (element, st) = crate::calls::channel_ref_element_spec(
                name,
                c,
                crate::calls::arg_span_spec(args, 0),
                st,
            );
            let (value, st) = check_nth_spec(e, mode, 1, cx, st);
            let (value, st) = crate::numeric::coerce_checked_spec(
                value,
                element,
                crate::calls::arg_span_spec(args, 1),
                "channel_send value argument"@,
                st,
            );
            (
                crate::calls::builtin_call_spec(
                    name,
                    crate::operators::two_exprs_spec(c.expr, value.expr),
                    element,
                    e.span,
                ),
                st,
            )
        }
    } else if args.len() != 1 {
        (
            crate::scope::fallback_spec(TypeView::I64, e.span),
            crate::calls::report_count_spec(
                "'channel_recv' takes 1 argument"@,
                ", got "@,
                (args.len() as int),
                e.span,
                st,
            ),
        )
    } else {
        let (c, st) = check_nth_spec(e, mode, 0, cx, st);
        let (element, st) = crate::calls::channel_ref_element_spec(
            name,
            c,
            crate::calls::arg_span_spec(args, 0),
            st,
        );
        (
            crate::calls::builtin_call_spec(
                name,
                crate::calls::one_expr_spec(c.expr),
                element,
                e.span,
            ),
            st,
        )
    }
}

/// The operations on channels.
pub fn check_channel_builtin(
    e: &Expr,
    mode: Receiver,
    args: &Vec<Expr>,
    name: &str,
    cx: &Context,
    st: State,
) -> (r: (CheckedExpr, State))
    ensures
        (r.0@, r.1@) == check_channel_builtin_spec(
            e@,
            mode,
            crate::ast::exprs_view(args@),
            name@,
            cx@,
            st@,
        ),
        crate::state::follows(st@, r.1@),
        crate::state::balanced(st@, r.1@),
        crate::state::same_facts(st@, r.1@),
        crate::calls::is_channel_builtin_spec(name@) && st@.env.scopes.len() > 0
            && crate::typing::quiet(st@, r.1@)
            ==> crate::typing::fits(r.0@, crate::typing::declared_in(cx@, st@.env)),
    decreases e, 3int, 0int,
{
    proof {
        reveal(crate::typing::well_typed);
    }
    if str_eq(name, "channel_new") {
        let st = if args.len() == 0 {
            st
        } else {
            report_count("'channel_new' takes 0 arguments", ", got ", args.len(), e.span, st)
        };
        (builtin_call(name, no_exprs(), channel_of(Type::I64, 16), e.span), st)
    } else if str_eq(name, "channel_send") {
        if args.len() != 2 {
            (
                fallback(Type::I64, e.span),
                report_count("'channel_send' takes 2 arguments", ", got ", args.len(), e.span, st),
            )
        } else {
            let (c, st) = check_nth(e, mode, 0, cx, st);
            let (element, st) = channel_ref_element(name, &c, arg_span(args, 0), st);
            let (value, st) = check_nth(e, mode, 1, cx, st);
            let (value, st) = coerce_checked(
                value,
                &element,
                arg_span(args, 1),
                "channel_send value argument",
                st,
            );
            (builtin_call(name, two_exprs(c.expr, value.expr), element, e.span), st)
        }
    } else if args.len() != 1 {
        (
            fallback(Type::I64, e.span),
            report_count("'channel_recv' takes 1 argument", ", got ", args.len(), e.span, st),
        )
    } else {
        let (c, st) = check_nth(e, mode, 0, cx, st);
        let (element, st) = channel_ref_element(name, &c, arg_span(args, 0), st);
        (builtin_call(name, one_expr(c.expr), element, e.span), st)
    }
}

/// What [`check_mutex_builtin`] computes.
pub open spec fn check_mutex_builtin_spec(
    e: ExprView,
    mode: Receiver,
    args: Seq<ExprView>,
    name: Seq<char>,
    cx: ContextView,
    st: StateView,
) -> (CheckedExprView, StateView)
    decreases e, 3int, 0int,
{
    if name == "mutex_new"@ {
        if args.len() != 1 {
            (
                crate::scope::fallback_spec(crate::operators::mutex_of_spec(TypeView::I64), e.span),
                crate::calls::report_count_spec(
                    "'mutex_new' takes exactly 1 argument (initial value)"@,
                    ", got "@,
                    (args.len() as int),
                    e.span,
                    st,
                ),
            )
        } else {
            let (c, st) = check_nth_spec(e, mode, 0, cx, st);
            let (c, st) = crate::numeric::coerce_checked_spec(
                c,
                TypeView::I64,
                crate::calls::arg_span_spec(args, 0),
                "mutex_new initial value"@,
                st,
            );
            (
                crate::calls::builtin_call_spec(
                    name,
                    crate::calls::one_expr_spec(c.expr),
                    crate::operators::mutex_of_spec(TypeView::I64),
                    e.span,
                ),
                st,
            )
        }
    } else if name == "mutex_lock"@ {
        if args.len() != 1 {
            (
                crate::scope::fallback_spec(crate::operators::guard_of_spec(TypeView::I64), e.span),
                crate::calls::report_count_spec(
                    "'mutex_lock' takes 1 argument"@,
                    ", got "@,
                    (args.len() as int),
                    e.span,
                    st,
                ),
            )
        } else {
            let (c, st) = check_nth_spec(e, mode, 0, cx, st);
            crate::calls::lock_mutex_spec(c, args[0], e.span, st)
        }
    } else if name == "guard_get"@ {
        if args.len() != 1 {
            (
                crate::scope::fallback_spec(TypeView::I64, e.span),
                crate::calls::report_count_spec(
                    "'guard_get' takes 1 argument"@,
                    ", got "@,
                    (args.len() as int),
                    e.span,
                    st,
                ),
            )
        } else {
            let (c, st) = check_nth_spec(e, mode, 0, cx, st);
            let st = crate::calls::require_guard_ref_spec(
                name,
                c,
                crate::calls::arg_span_spec(args, 0),
                st,
            );
            (
                crate::calls::builtin_call_spec(
                    name,
                    crate::calls::one_expr_spec(c.expr),
                    TypeView::I64,
                    e.span,
                ),
                st,
            )
        }
    } else if args.len() != 2 {
        (
            crate::scope::fallback_spec(TypeView::I64, e.span),
            crate::calls::report_count_spec(
                "'guard_set' takes 2 arguments"@,
                ", got "@,
                (args.len() as int),
                e.span,
                st,
            ),
        )
    } else {
        let (c, st) = check_nth_spec(e, mode, 0, cx, st);
        let st = crate::calls::require_guard_ref_spec(
            name,
            c,
            crate::calls::arg_span_spec(args, 0),
            st,
        );
        let (value, st) = check_nth_spec(e, mode, 1, cx, st);
        let (value, st) = crate::numeric::coerce_checked_spec(
            value,
            TypeView::I64,
            crate::calls::arg_span_spec(args, 1),
            "guard_set value argument"@,
            st,
        );
        (
            crate::calls::builtin_call_spec(
                name,
                crate::operators::two_exprs_spec(c.expr, value.expr),
                TypeView::I64,
                e.span,
            ),
            st,
        )
    }
}

/// The operations on mutexes and their guards.
pub fn check_mutex_builtin(
    e: &Expr,
    mode: Receiver,
    args: &Vec<Expr>,
    name: &str,
    cx: &Context,
    st: State,
) -> (r: (CheckedExpr, State))
    ensures
        (r.0@, r.1@) == check_mutex_builtin_spec(
            e@,
            mode,
            crate::ast::exprs_view(args@),
            name@,
            cx@,
            st@,
        ),
        crate::state::follows(st@, r.1@),
        crate::state::balanced(st@, r.1@),
        crate::state::same_facts(st@, r.1@),
        crate::calls::is_mutex_builtin_spec(name@) && st@.env.scopes.len() > 0
            && crate::typing::quiet(st@, r.1@)
            ==> crate::typing::fits(r.0@, crate::typing::declared_in(cx@, st@.env)),
    decreases e, 3int, 0int,
{
    proof {
        reveal(crate::typing::well_typed);
    }
    if str_eq(name, "mutex_new") {
        if args.len() != 1 {
            (
                fallback(mutex_of(Type::I64), e.span),
                report_count(
                    "'mutex_new' takes exactly 1 argument (initial value)",
                    ", got ",
                    args.len(),
                    e.span,
                    st,
                ),
            )
        } else {
            let (c, st) = check_nth(e, mode, 0, cx, st);
            let (c, st) = coerce_checked(
                c,
                &Type::I64,
                arg_span(args, 0),
                "mutex_new initial value",
                st,
            );
            (builtin_call(name, one_expr(c.expr), mutex_of(Type::I64), e.span), st)
        }
    } else if str_eq(name, "mutex_lock") {
        if args.len() != 1 {
            (
                fallback(guard_of(Type::I64), e.span),
                report_count("'mutex_lock' takes 1 argument", ", got ", args.len(), e.span, st),
            )
        } else {
            let (c, st) = check_nth(e, mode, 0, cx, st);
            lock_mutex(c, &args[0], e.span, st)
        }
    } else if str_eq(name, "guard_get") {
        if args.len() != 1 {
            (
                fallback(Type::I64, e.span),
                report_count("'guard_get' takes 1 argument", ", got ", args.len(), e.span, st),
            )
        } else {
            let (c, st) = check_nth(e, mode, 0, cx, st);
            let st = require_guard_ref(name, &c, arg_span(args, 0), st);
            (builtin_call(name, one_expr(c.expr), Type::I64, e.span), st)
        }
    } else if args.len() != 2 {
        (
            fallback(Type::I64, e.span),
            report_count("'guard_set' takes 2 arguments", ", got ", args.len(), e.span, st),
        )
    } else {
        let (c, st) = check_nth(e, mode, 0, cx, st);
        let st = require_guard_ref(name, &c, arg_span(args, 0), st);
        let (value, st) = check_nth(e, mode, 1, cx, st);
        let (value, st) = coerce_checked(
            value,
            &Type::I64,
            arg_span(args, 1),
            "guard_set value argument",
            st,
        );
        (builtin_call(name, two_exprs(c.expr, value.expr), Type::I64, e.span), st)
    }
}

} // verus!
