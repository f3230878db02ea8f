//! Proof obligations: putting together what a prover is asked, and reporting
//! what it answered.

use vstd::prelude::*;
use crate::ast::{
    BinaryOp, Expr, ExprKind, ExprKindView, ExprView, Function, FunctionView, Span, Stmt, StmtView,
    Type, TypeView, dup_exprs,
};
use crate::checker::{lower};
use crate::construct::{
    mk_array, mk_binary, mk_bool, mk_call, mk_cast, mk_field, mk_float, mk_if, mk_index, mk_int,
    mk_len, mk_method_call, mk_ref, mk_ref_mut, mk_unary, mk_var,
};
use crate::effects::{collect_branch_mutations, is_vec_builtin};
use crate::ir::{
    TypedConst, TypedConstView, TypedExpr, TypedExprKind, TypedExprKindView, TypedExprView,
    dup_named_types,
};
use crate::rewrite::{
    bind_args, mk_eq, named_expr_put, no_span, pretty_expr, record_ensures_facts,
    record_vec_builtin_facts, replace_all, substitute_expr, typed_to_expr,
};
use crate::scope::{
    all_bindings, array_versions, ask, checked, float_zero, lookup, lookup_struct, report,
    report_note, signature_get, signature_has,
};
use crate::state::{
    Answer, AnswerView, CallRewrite, CallRewriteView, Context, ContextView, Env, EnvView, Query,
    QueryView, State, StateView, VarInfo, VarInfoView, Verdict, VerdictView,
};
use crate::text::{add_capped, cat2, cat3, cat5, join, push, str_eq, str_starts, text, usize_text};
use crate::types::{
    deref, is_bool, is_float, is_integer, is_signed_integer, is_u64, nominal_name, type_bits,
};
use crate::typing::{Declared};

verus! {

broadcast use {
    crate::text::group_text_views,
    crate::ast::group_ast_views,
    crate::diagnostic::group_diagnostic_views,
    crate::ir::group_ir_views,
    crate::state::group_state_views,
    crate::state::group_extends,
    crate::typing::leaves_are_typed,
};

/// What [`constant_facts`] computes from position `i` on.
pub open spec fn constant_facts_spec(
    bs: Seq<(Seq<char>, VarInfoView)>,
    facts: Seq<ExprView>,
    i: int,
) -> Seq<ExprView>
    decreases bs.len() - i,
{
    if 0 <= i < bs.len() {
        let b = bs[i];
        let facts = match b.1.constant {
            Some(TypedConstView::Int(v)) => facts.push(
                crate::rewrite::mk_eq_spec(
                    crate::construct::mk_var_spec(b.0, crate::rewrite::no_span_spec()),
                    crate::construct::mk_int_spec(v, crate::rewrite::no_span_spec()),
                ),
            ),
            Some(TypedConstView::Bool(v)) => facts.push(
                crate::rewrite::mk_eq_spec(
                    crate::construct::mk_var_spec(b.0, crate::rewrite::no_span_spec()),
                    crate::construct::mk_bool_spec(v, crate::rewrite::no_span_spec()),
                ),
            ),
            _ => facts,
        };
        constant_facts_spec(bs, facts, i + 1)
    } else {
        facts
    }
}

/// The known values of the bindings in scope, as equations.
pub fn constant_facts(bs: &Vec<(String, VarInfo)>, facts: Vec<Expr>) -> (r: Vec<Expr>)
    ensures
        crate::ast::exprs_view(r@) == constant_facts_spec(
            crate::state::scope_view(bs@),
            crate::ast::exprs_view(facts@),
            0,
        ),
{
    let ghost whole_run = constant_facts_spec(
        crate::state::scope_view(bs@),
        crate::ast::exprs_view(facts@),
        0,
    );
    let mut facts = facts;
    let mut i: usize = 0;
    while i < bs.len()
        invariant
            i <= bs.len(),
            constant_facts_spec(
                crate::state::scope_view(bs@),
                crate::ast::exprs_view(facts@),
                i as int,
            ) == whole_run,
        decreases bs.len() - i,
    {
        let b = &bs[i];
        facts = match &b.1.constant {
            Some(TypedConst::Int(v)) => push(
                facts,
                mk_eq(mk_var(&b.0, no_span()), mk_int(*v, no_span())),
            ),
            Some(TypedConst::Bool(v)) => push(
                facts,
                mk_eq(mk_var(&b.0, no_span()), mk_bool(*v, no_span())),
            ),
            _ => facts,
        };
        i += 1;
    }
    facts
}

/// What [`current_smt_facts`] computes.
pub open spec fn current_smt_facts_spec(facts: Seq<ExprView>, env: EnvView) -> Seq<ExprView>
{
    constant_facts_spec(crate::scope::all_bindings_spec(env), (facts), 0)
}

/// The facts, with the known values of all bindings.
pub fn current_smt_facts(facts: &Vec<Expr>, env: &Env) -> (r: Vec<Expr>)
    ensures
        crate::ast::exprs_view(r@) == current_smt_facts_spec(crate::ast::exprs_view(facts@), env@),
{
    constant_facts(&all_bindings(env), dup_exprs(facts))
}

/// What [`literal_element`] computes.
pub open spec fn literal_element_spec(
    array: ExprView,
    index: ExprView,
    env: EnvView,
) -> Option<ExprView>
{
    match (array.kind, index.kind) {
        (
            ExprKindView::Var(name),
            ExprKindView::Int(k),
        ) => match crate::scope::lookup_spec(env, name) {
            Some(info) => match info.vec_literal_elements {
                Some(elements) => if 0 <= k && k < (elements.len() as int) as i128 {
                    let at: int = k as int;
                    Some(elements[at])
                } else {
                    None
                },
                None => None,
            },
            None => None,
        },
        _ => None,
    }
}

/// An element read at a literal index of a vector made from a literal is that
/// element.
pub fn literal_element(array: &Expr, index: &Expr, env: &Env) -> (r: Option<Expr>)
    ensures
        (match &r { Some(v0) => Some(v0@), None => None }) == literal_element_spec(
            array@,
            index@,
            env@,
        ),
{
    match (&array.kind, &index.kind) {
        (ExprKind::Var(name), ExprKind::Int(k)) => match lookup(env, name) {
            Some(info) => match &info.vec_literal_elements {
                Some(elements) => if 0 <= *k && *k < elements.len() as i128 {
                    let at: usize = *k as usize;
                    Some(elements[at].dup())
                } else {
                    None
                },
                None => None,
            },
            None => None,
        },
        _ => None,
    }
}

/// What [`substitute_literal_vec_indices`] computes.
pub open spec fn substitute_literal_vec_indices_spec(e: ExprView, env: EnvView) -> ExprView
    decreases e, 0int,
{
    match e.kind {
        ExprKindView::Index { array, index } => match literal_element_spec(*array, *index, env) {
            Some(element) => element,
            None => crate::construct::mk_index_spec(
                substitute_literal_vec_indices_spec(*array, env),
                substitute_literal_vec_indices_spec(*index, env),
                e.span,
            ),
        },
        ExprKindView::Unary { op, expr } => crate::construct::mk_unary_spec(
            op,
            substitute_literal_vec_indices_spec(*expr, env),
            e.span,
        ),
        ExprKindView::Binary { op, left, right } => crate::construct::mk_binary_spec(
            op,
            substitute_literal_vec_indices_spec(*left, env),
            substitute_literal_vec_indices_spec(*right, env),
            e.span,
        ),
        ExprKindView::Cast { expr, ty } => crate::construct::mk_cast_spec(
            substitute_literal_vec_indices_spec(*expr, env),
            ty,
            e.span,
        ),
        ExprKindView::Call { name, name_span, args } => crate::construct::mk_call_spec(
            name,
            name_span,
            substitute_literal_vec_index_list_spec(args, env, Seq::empty(), 0),
            e.span,
        ),
        ExprKindView::Len { array } => crate::construct::mk_len_spec(
            substitute_literal_vec_indices_spec(*array, env),
            e.span,
        ),
        ExprKindView::ArrayLit { elements } => crate::construct::mk_array_spec(
            substitute_literal_vec_index_list_spec(elements, env, Seq::empty(), 0),
            e.span,
        ),
        ExprKindView::Ref { inner } => crate::construct::mk_ref_spec(
            substitute_literal_vec_indices_spec(*inner, env),
            e.span,
        ),
        ExprKindView::RefMut { inner } => crate::construct::mk_ref_mut_spec(
            substitute_literal_vec_indices_spec(*inner, env),
            e.span,
        ),
        _ => e,
    }
}

/// An expression with its reads of literal elements replaced.
pub fn substitute_literal_vec_indices(e: &Expr, env: &Env) -> (r: Expr)
    ensures
        r@ == substitute_literal_vec_indices_spec(e@, env@),
    decreases e, 0int,
{
    match &e.kind {
        ExprKind::Index { array, index } => match literal_element(&**array, &**index, env) {
            Some(element) => element,
            None => mk_index(
                substitute_literal_vec_indices(&**array, env),
                substitute_literal_vec_indices(&**index, env),
                e.span,
            ),
        },
        ExprKind::Unary { op, expr } => mk_unary(
            *op,
            substitute_literal_vec_indices(&**expr, env),
            e.span,
        ),
        ExprKind::Binary { op, left, right } => mk_binary(
            *op,
            substitute_literal_vec_indices(&**left, env),
            substitute_literal_vec_indices(&**right, env),
            e.span,
        ),
        ExprKind::Cast { expr, ty } => mk_cast(
            substitute_literal_vec_indices(&**expr, env),
            ty.dup(),
            e.span,
        ),
        ExprKind::Call { name, name_span, args } => mk_call(
            name,
            *name_span,
            substitute_literal_vec_index_list(args, env, Vec::new()),
            e.span,
        ),
        ExprKind::Len { array } => mk_len(substitute_literal_vec_indices(&**array, env), e.span),
        ExprKind::ArrayLit { elements } => mk_array(
            substitute_literal_vec_index_list(elements, env, Vec::new()),
            e.span,
        ),
        ExprKind::Ref { inner } => mk_ref(substitute_literal_vec_indices(&**inner, env), e.span),
        ExprKind::RefMut { inner } => mk_ref_mut(
            substitute_literal_vec_indices(&**inner, env),
            e.span,
        ),
        _ => e.dup(),
    }
}

/// What [`substitute_literal_vec_index_list`] computes from position `i` on.
pub open spec fn substitute_literal_vec_index_list_spec(
    es: Seq<ExprView>,
    env: EnvView,
    out: Seq<ExprView>,
    i: int,
) -> Seq<ExprView>
    decreases es, es.len() - i,
{
    if 0 <= i < es.len() {
        let e = es[i];
        let out = out.push(substitute_literal_vec_indices_spec(e, env));
        substitute_literal_vec_index_list_spec(es, env, out, i + 1)
    } else {
        out
    }
}

/// Adds expressions with their reads of literal elements replaced.
pub fn substitute_literal_vec_index_list(
    es: &Vec<Expr>,
    env: &Env,
    out: Vec<Expr>,
) -> (r: Vec<Expr>)
    ensures
        crate::ast::exprs_view(r@) == substitute_literal_vec_index_list_spec(
            crate::ast::exprs_view(es@),
            env@,
            crate::ast::exprs_view(out@),
            0,
        ),
    decreases es, es.len(),
{
    let ghost whole_run = substitute_literal_vec_index_list_spec(
        crate::ast::exprs_view(es@),
        env@,
        crate::ast::exprs_view(out@),
        0,
    );
    let mut out = out;
    let mut i: usize = 0;
    while i < es.len()
        invariant
            i <= es.len(),
            substitute_literal_vec_index_list_spec(
                crate::ast::exprs_view(es@),
                env@,
                crate::ast::exprs_view(out@),
                i as int,
            ) == whole_run,
        decreases es.len() - i,
    {
        let e = &es[i];
        out = push(out, substitute_literal_vec_indices(e, env));
        i += 1;
    }
    out
}

/// What [`method_function`] computes.
pub open spec fn method_function_spec(
    receiver: ExprView,
    method: Seq<char>,
    env: EnvView,
    cx: ContextView,
) -> Option<Seq<char>>
{
    match receiver.kind {
        ExprKindView::Var(name) => match crate::scope::lookup_spec(env, name) {
            Some(info) => match crate::types::nominal_name_spec(crate::types::deref_spec(info.ty)) {
                Some(owner) => {
                    let mangled = owner + "_"@ + method;
                    if crate::scope::signature_has_spec(
                        cx.signatures,
                        mangled,
                    ) { Some(mangled) } else { None }
                },
                None => None,
            },
            None => None,
        },
        _ => None,
    }
}

/// The function that a method call on a variable means, where its type is
/// known and the function exists.
pub fn method_function(
    receiver: &Expr,
    method: &str,
    env: &Env,
    cx: &Context,
) -> (r: Option<String>)
    ensures
        (match &r { Some(v0) => Some(v0@), None => None }) == method_function_spec(
            receiver@,
            method@,
            env@,
            cx@,
        ),
{
    match &receiver.kind {
        ExprKind::Var(name) => match lookup(env, name) {
            Some(info) => match nominal_name(&deref(&info.ty)) {
                Some(owner) => {
                    let mangled = cat3(&owner, "_", method);
                    if signature_has(&cx.signatures, &mangled) { Some(mangled) } else { None }
                },
                None => None,
            },
            None => None,
        },
        _ => None,
    }
}

/// What [`rewrite_method_calls_to_calls`] computes.
pub open spec fn rewrite_method_calls_to_calls_spec(
    e: ExprView,
    env: EnvView,
    cx: ContextView,
) -> ExprView
    decreases e, 0int,
{
    match e.kind {
        ExprKindView::MethodCall {
            receiver,
            method,
            method_span,
            args,
        } => match method_function_spec(*receiver, method, env, cx) {
            Some(callee) => crate::construct::mk_call_spec(
                callee,
                method_span,
                rewrite_method_call_list_spec(args, env, cx, Seq::empty().push((*receiver)), 0),
                e.span,
            ),
            None => crate::construct::mk_method_call_spec(
                rewrite_method_calls_to_calls_spec(*receiver, env, cx),
                method,
                method_span,
                rewrite_method_call_list_spec(args, env, cx, Seq::empty(), 0),
                e.span,
            ),
        },
        ExprKindView::Unary { op, expr } => crate::construct::mk_unary_spec(
            op,
            rewrite_method_calls_to_calls_spec(*expr, env, cx),
            e.span,
        ),
        ExprKindView::Binary { op, left, right } => crate::construct::mk_binary_spec(
            op,
            rewrite_method_calls_to_calls_spec(*left, env, cx),
            rewrite_method_calls_to_calls_spec(*right, env, cx),
            e.span,
        ),
        ExprKindView::Cast { expr, ty } => crate::construct::mk_cast_spec(
            rewrite_method_calls_to_calls_spec(*expr, env, cx),
            ty,
            e.span,
        ),
        ExprKindView::Call { name, name_span, args } => crate::construct::mk_call_spec(
            name,
            name_span,
            rewrite_method_call_list_spec(args, env, cx, Seq::empty(), 0),
            e.span,
        ),
        ExprKindView::IfExpr { cond, then_value, else_value } => crate::construct::mk_if_spec(
            rewrite_method_calls_to_calls_spec(*cond, env, cx),
            rewrite_method_calls_to_calls_spec(*then_value, env, cx),
            rewrite_method_calls_to_calls_spec(*else_value, env, cx),
            e.span,
        ),
        _ => e,
    }
}

/// An expression with its method calls as calls of functions.
pub fn rewrite_method_calls_to_calls(e: &Expr, env: &Env, cx: &Context) -> (r: Expr)
    ensures
        r@ == rewrite_method_calls_to_calls_spec(e@, env@, cx@),
    decreases e, 0int,
{
    match &e.kind {
        ExprKind::MethodCall {
            receiver,
            method,
            method_span,
            args,
        } => match method_function(&**receiver, method, env, cx) {
            Some(callee) => mk_call(
                &callee,
                *method_span,
                rewrite_method_call_list(args, env, cx, push(Vec::new(), (**receiver).dup())),
                e.span,
            ),
            None => mk_method_call(
                rewrite_method_calls_to_calls(&**receiver, env, cx),
                method,
                *method_span,
                rewrite_method_call_list(args, env, cx, Vec::new()),
                e.span,
            ),
        },
        ExprKind::Unary { op, expr } => mk_unary(
            *op,
            rewrite_method_calls_to_calls(&**expr, env, cx),
            e.span,
        ),
        ExprKind::Binary { op, left, right } => mk_binary(
            *op,
            rewrite_method_calls_to_calls(&**left, env, cx),
            rewrite_method_calls_to_calls(&**right, env, cx),
            e.span,
        ),
        ExprKind::Cast { expr, ty } => mk_cast(
            rewrite_method_calls_to_calls(&**expr, env, cx),
            ty.dup(),
            e.span,
        ),
        ExprKind::Call { name, name_span, args } => mk_call(
            name,
            *name_span,
            rewrite_method_call_list(args, env, cx, Vec::new()),
            e.span,
        ),
        ExprKind::IfExpr { cond, then_value, else_value } => mk_if(
            rewrite_method_calls_to_calls(&**cond, env, cx),
            rewrite_method_calls_to_calls(&**then_value, env, cx),
            rewrite_method_calls_to_calls(&**else_value, env, cx),
            e.span,
        ),
        _ => e.dup(),
    }
}

/// What [`rewrite_method_call_list`] computes from position `i` on.
pub open spec fn rewrite_method_call_list_spec(
    es: Seq<ExprView>,
    env: EnvView,
    cx: ContextView,
    out: Seq<ExprView>,
    i: int,
) -> Seq<ExprView>
    decreases es, es.len() - i,
{
    if 0 <= i < es.len() {
        let e = es[i];
        let out = out.push(rewrite_method_calls_to_calls_spec(e, env, cx));
        rewrite_method_call_list_spec(es, env, cx, out, i + 1)
    } else {
        out
    }
}

/// Adds expressions with their method calls as calls of functions.
pub fn rewrite_method_call_list(
    es: &Vec<Expr>,
    env: &Env,
    cx: &Context,
    out: Vec<Expr>,
) -> (r: Vec<Expr>)
    ensures
        crate::ast::exprs_view(r@) == rewrite_method_call_list_spec(
            crate::ast::exprs_view(es@),
            env@,
            cx@,
            crate::ast::exprs_view(out@),
            0,
        ),
    decreases es, es.len(),
{
    let ghost whole_run = rewrite_method_call_list_spec(
        crate::ast::exprs_view(es@),
        env@,
        cx@,
        crate::ast::exprs_view(out@),
        0,
    );
    let mut out = out;
    let mut i: usize = 0;
    while i < es.len()
        invariant
            i <= es.len(),
            rewrite_method_call_list_spec(
                crate::ast::exprs_view(es@),
                env@,
                cx@,
                crate::ast::exprs_view(out@),
                i as int,
            ) == whole_run,
        decreases es.len() - i,
    {
        let e = &es[i];
        out = push(out, rewrite_method_calls_to_calls(e, env, cx));
        i += 1;
    }
    out
}

/// What [`literal_struct_var`] computes.
pub open spec fn literal_struct_var_spec(object: ExprView, env: EnvView) -> Option<Seq<char>>
{
    match object.kind {
        ExprKindView::Var(name) => match crate::scope::lookup_spec(env, name) {
            Some(info) => if info.struct_literal_fields.is_some() { Some(name) } else { None },
            None => None,
        },
        _ => None,
    }
}

/// The name of the variable of a struct made from a literal.
pub fn literal_struct_var(object: &Expr, env: &Env) -> (r: Option<String>)
    ensures
        (match &r { Some(v0) => Some(v0@), None => None }) == literal_struct_var_spec(
            object@,
            env@,
        ),
{
    match &object.kind {
        ExprKind::Var(name) => match lookup(env, name) {
            Some(info) => if info.struct_literal_fields.is_some() { Some(name.clone()) } else { None },
            None => None,
        },
        _ => None,
    }
}

/// What [`rewrite_struct_field_accesses`] computes.
pub open spec fn rewrite_struct_field_accesses_spec(e: ExprView, env: EnvView) -> ExprView
    decreases e, 0int,
{
    match e.kind {
        ExprKindView::FieldAccess { object, field } => match literal_struct_var_spec(*object, env) {
            Some(name) => crate::construct::mk_var_spec(name + "__"@ + field, e.span),
            None => crate::construct::mk_field_spec(
                rewrite_struct_field_accesses_spec(*object, env),
                field,
                e.span,
            ),
        },
        ExprKindView::Unary { op, expr } => crate::construct::mk_unary_spec(
            op,
            rewrite_struct_field_accesses_spec(*expr, env),
            e.span,
        ),
        ExprKindView::Binary { op, left, right } => crate::construct::mk_binary_spec(
            op,
            rewrite_struct_field_accesses_spec(*left, env),
            rewrite_struct_field_accesses_spec(*right, env),
            e.span,
        ),
        ExprKindView::Cast { expr, ty } => crate::construct::mk_cast_spec(
            rewrite_struct_field_accesses_spec(*expr, env),
            ty,
            e.span,
        ),
        ExprKindView::Call { name, name_span, args } => crate::construct::mk_call_spec(
            name,
            name_span,
            rewrite_struct_field_list_spec(args, env, Seq::empty(), 0),
            e.span,
        ),
        ExprKindView::Index { array, index } => crate::construct::mk_index_spec(
            rewrite_struct_field_accesses_spec(*array, env),
            rewrite_struct_field_accesses_spec(*index, env),
            e.span,
        ),
        ExprKindView::IfExpr { cond, then_value, else_value } => crate::construct::mk_if_spec(
            rewrite_struct_field_accesses_spec(*cond, env),
            rewrite_struct_field_accesses_spec(*then_value, env),
            rewrite_struct_field_accesses_spec(*else_value, env),
            e.span,
        ),
        _ => e,
    }
}

/// Reads of the fields of such a struct, as variables of their own.
pub fn rewrite_struct_field_accesses(e: &Expr, env: &Env) -> (r: Expr)
    ensures
        r@ == rewrite_struct_field_accesses_spec(e@, env@),
    decreases e, 0int,
{
    match &e.kind {
        ExprKind::FieldAccess { object, field } => match literal_struct_var(&**object, env) {
            Some(name) => mk_var(&cat3(&name, "__", field), e.span),
            None => mk_field(rewrite_struct_field_accesses(&**object, env), field, e.span),
        },
        ExprKind::Unary { op, expr } => mk_unary(
            *op,
            rewrite_struct_field_accesses(&**expr, env),
            e.span,
        ),
        ExprKind::Binary { op, left, right } => mk_binary(
            *op,
            rewrite_struct_field_accesses(&**left, env),
            rewrite_struct_field_accesses(&**right, env),
            e.span,
        ),
        ExprKind::Cast { expr, ty } => mk_cast(
            rewrite_struct_field_accesses(&**expr, env),
            ty.dup(),
            e.span,
        ),
        ExprKind::Call { name, name_span, args } => mk_call(
            name,
            *name_span,
            rewrite_struct_field_list(args, env, Vec::new()),
            e.span,
        ),
        ExprKind::Index { array, index } => mk_index(
            rewrite_struct_field_accesses(&**array, env),
            rewrite_struct_field_accesses(&**index, env),
            e.span,
        ),
        ExprKind::IfExpr { cond, then_value, else_value } => mk_if(
            rewrite_struct_field_accesses(&**cond, env),
            rewrite_struct_field_accesses(&**then_value, env),
            rewrite_struct_field_accesses(&**else_value, env),
            e.span,
        ),
        _ => e.dup(),
    }
}

/// What [`rewrite_struct_field_list`] computes from position `i` on.
pub open spec fn rewrite_struct_field_list_spec(
    es: Seq<ExprView>,
    env: EnvView,
    out: Seq<ExprView>,
    i: int,
) -> Seq<ExprView>
    decreases es, es.len() - i,
{
    if 0 <= i < es.len() {
        let e = es[i];
        let out = out.push(rewrite_struct_field_accesses_spec(e, env));
        rewrite_struct_field_list_spec(es, env, out, i + 1)
    } else {
        out
    }
}

/// Adds expressions with their field reads as variables.
pub fn rewrite_struct_field_list(es: &Vec<Expr>, env: &Env, out: Vec<Expr>) -> (r: Vec<Expr>)
    ensures
        crate::ast::exprs_view(r@) == rewrite_struct_field_list_spec(
            crate::ast::exprs_view(es@),
            env@,
            crate::ast::exprs_view(out@),
            0,
        ),
    decreases es, es.len(),
{
    let ghost whole_run = rewrite_struct_field_list_spec(
        crate::ast::exprs_view(es@),
        env@,
        crate::ast::exprs_view(out@),
        0,
    );
    let mut out = out;
    let mut i: usize = 0;
    while i < es.len()
        invariant
            i <= es.len(),
            rewrite_struct_field_list_spec(
                crate::ast::exprs_view(es@),
                env@,
                crate::ast::exprs_view(out@),
                i as int,
            ) == whole_run,
        decreases es.len() - i,
    {
        let e = &es[i];
        out = push(out, rewrite_struct_field_accesses(e, env));
        i += 1;
    }
    out
}

/// What [`fresh_call`] computes.
pub open spec fn fresh_call_spec(
    e: ExprView,
    t: TypeView,
    rw: CallRewriteView,
) -> (Seq<char>, CallRewriteView)
{
    let name = "__call_"@ + crate::text::decimal((rw.vars.len() as int));
    let labels = rw.labels.push((name, crate::rewrite::pretty_expr_spec(e)));
    (name, CallRewriteView { vars: rw.vars.push((name, t)), labels, ..rw })
}

/// A fresh variable for a call.
pub fn fresh_call(e: &Expr, t: Type, rw: CallRewrite) -> (r: (String, CallRewrite))
    ensures
        (r.0@, r.1@) == fresh_call_spec(e@, t@, rw@),
{
    let name = cat2("__call_", &usize_text(rw.vars.len()));
    let labels = push(rw.labels, (name.clone(), pretty_expr(e)));
    (name.clone(), CallRewrite { vars: push(rw.vars, (name, t)), labels, ..rw })
}

/// What [`vec_of`] computes.
pub open spec fn vec_of_spec(t: TypeView) -> TypeView
{
    TypeView::Vec(Box::new(t))
}

pub fn vec_of(t: Type) -> (r: Type)
    ensures
        r@ == vec_of_spec(t@),
{
    Type::Vec(Box::new(t))
}

/// What [`ensured_type`] computes.
pub open spec fn ensured_type_spec(
    name: Seq<char>,
    args: Seq<ExprView>,
    cx: ContextView,
) -> Option<TypeView>
{
    match crate::scope::signature_get_spec(cx.signatures, name) {
        Some(sig) => if sig.ensures.len() > 0 && args.len() == sig.params.len() {
            Some(sig.return_type)
        } else {
            None
        },
        None => None,
    }
}

/// Whether a call has an `ensures` to speak for its result.
pub fn ensured_type(name: &str, args: &Vec<Expr>, cx: &Context) -> (r: Option<Type>)
    ensures
        (match &r { Some(v0) => Some(v0@), None => None }) == ensured_type_spec(
            name@,
            crate::ast::exprs_view(args@),
            cx@,
        ),
{
    match signature_get(&cx.signatures, name) {
        Some(sig) => if sig.ensures.len() > 0 && args.len() == sig.params.len() {
            Some(sig.return_type)
        } else {
            None
        },
        None => None,
    }
}

/// What [`rewrite_calls_to_fresh_vars`] computes.
pub open spec fn rewrite_calls_to_fresh_vars_spec(
    e: ExprView,
    cx: ContextView,
    rw: CallRewriteView,
) -> (ExprView, CallRewriteView)
    decreases e, 0int,
{
    match e.kind {
        ExprKindView::Call { name, args, .. } => {
            let (new_args, rw) = rewrite_call_list_spec(args, cx, Seq::empty(), rw, 0);
            match ensured_type_spec(name, args, cx) {
                Some(t) => {
                    let (var, rw) = fresh_call_spec(e, t, rw);
                    let fresh = crate::construct::mk_var_spec(var, e.span);
                    let facts = crate::rewrite::record_ensures_facts_spec(
                        name,
                        new_args,
                        fresh,
                        cx.signatures,
                        rw.facts,
                    );
                    (fresh, CallRewriteView { facts, ..rw })
                },
                None => if crate::effects::is_vec_builtin_spec(name) {
                    let (var, rw) = fresh_call_spec(e, vec_of_spec(TypeView::I64), rw);
                    let facts = crate::rewrite::record_vec_builtin_facts_spec(
                        name,
                        new_args,
                        var,
                        rw.facts,
                    );
                    (crate::construct::mk_var_spec(var, e.span), CallRewriteView { facts, ..rw })
                } else {
                    (crate::construct::mk_call_spec(name, e.span, new_args, e.span), rw)
                },
            }
        },
        ExprKindView::Unary { op, expr } => {
            let (x, rw) = rewrite_calls_to_fresh_vars_spec(*expr, cx, rw);
            (crate::construct::mk_unary_spec(op, x, e.span), rw)
        },
        ExprKindView::Binary { op, left, right } => {
            let (l, rw) = rewrite_calls_to_fresh_vars_spec(*left, cx, rw);
            let (r, rw) = rewrite_calls_to_fresh_vars_spec(*right, cx, rw);
            (crate::construct::mk_binary_spec(op, l, r, e.span), rw)
        },
        ExprKindView::Cast { expr, ty } => {
            let (x, rw) = rewrite_calls_to_fresh_vars_spec(*expr, cx, rw);
            (crate::construct::mk_cast_spec(x, ty, e.span), rw)
        },
        ExprKindView::Index { array, index } => {
            let (a, rw) = rewrite_calls_to_fresh_vars_spec(*array, cx, rw);
            let (k, rw) = rewrite_calls_to_fresh_vars_spec(*index, cx, rw);
            (crate::construct::mk_index_spec(a, k, e.span), rw)
        },
        ExprKindView::Len { array } => {
            let (a, rw) = rewrite_calls_to_fresh_vars_spec(*array, cx, rw);
            (crate::construct::mk_len_spec(a, e.span), rw)
        },
        ExprKindView::ArrayLit { elements } => {
            let (xs, rw) = rewrite_call_list_spec(elements, cx, Seq::empty(), rw, 0);
            (crate::construct::mk_array_spec(xs, e.span), rw)
        },
        ExprKindView::Ref { inner } => {
            let (x, rw) = rewrite_calls_to_fresh_vars_spec(*inner, cx, rw);
            (crate::construct::mk_ref_spec(x, e.span), rw)
        },
        ExprKindView::RefMut { inner } => {
            let (x, rw) = rewrite_calls_to_fresh_vars_spec(*inner, cx, rw);
            (crate::construct::mk_ref_mut_spec(x, e.span), rw)
        },
        _ => (e, rw),
    }
}

/// An expression with every call that something is known of replaced by a
/// fresh variable, about which that is recorded.
pub fn rewrite_calls_to_fresh_vars(
    e: &Expr,
    cx: &Context,
    rw: CallRewrite,
) -> (r: (Expr, CallRewrite))
    ensures
        (r.0@, r.1@) == rewrite_calls_to_fresh_vars_spec(e@, cx@, rw@),
    decreases e, 0int,
{
    match &e.kind {
        ExprKind::Call { name, args, .. } => {
            let (new_args, rw) = rewrite_call_list(args, cx, Vec::new(), rw);
            match ensured_type(name, args, cx) {
                Some(t) => {
                    let (var, rw) = fresh_call(e, t, rw);
                    let fresh = mk_var(&var, e.span);
                    let facts = record_ensures_facts(
                        name,
                        &new_args,
                        &fresh,
                        &cx.signatures,
                        rw.facts,
                    );
                    (fresh, CallRewrite { facts, ..rw })
                },
                None => if is_vec_builtin(name) {
                    let (var, rw) = fresh_call(e, vec_of(Type::I64), rw);
                    let facts = record_vec_builtin_facts(name, &new_args, &var, rw.facts);
                    (mk_var(&var, e.span), CallRewrite { facts, ..rw })
                } else {
                    (mk_call(name, e.span, new_args, e.span), rw)
                },
            }
        },
        ExprKind::Unary { op, expr } => {
            let (x, rw) = rewrite_calls_to_fresh_vars(&**expr, cx, rw);
            (mk_unary(*op, x, e.span), rw)
        },
        ExprKind::Binary { op, left, right } => {
            let (l, rw) = rewrite_calls_to_fresh_vars(&**left, cx, rw);
            let (r, rw) = rewrite_calls_to_fresh_vars(&**right, cx, rw);
            (mk_binary(*op, l, r, e.span), rw)
        },
        ExprKind::Cast { expr, ty } => {
            let (x, rw) = rewrite_calls_to_fresh_vars(&**expr, cx, rw);
            (mk_cast(x, ty.dup(), e.span), rw)
        },
        ExprKind::Index { array, index } => {
            let (a, rw) = rewrite_calls_to_fresh_vars(&**array, cx, rw);
            let (k, rw) = rewrite_calls_to_fresh_vars(&**index, cx, rw);
            (mk_index(a, k, e.span), rw)
        },
        ExprKind::Len { array } => {
            let (a, rw) = rewrite_calls_to_fresh_vars(&**array, cx, rw);
            (mk_len(a, e.span), rw)
        },
        ExprKind::ArrayLit { elements } => {
            let (xs, rw) = rewrite_call_list(elements, cx, Vec::new(), rw);
            (mk_array(xs, e.span), rw)
        },
        ExprKind::Ref { inner } => {
            let (x, rw) = rewrite_calls_to_fresh_vars(&**inner, cx, rw);
            (mk_ref(x, e.span), rw)
        },
        ExprKind::RefMut { inner } => {
            let (x, rw) = rewrite_calls_to_fresh_vars(&**inner, cx, rw);
            (mk_ref_mut(x, e.span), rw)
        },
        _ => (e.dup(), rw),
    }
}

/// What [`rewrite_call_list`] computes from position `i` on.
pub open spec fn rewrite_call_list_spec(
    es: Seq<ExprView>,
    cx: ContextView,
    out: Seq<ExprView>,
    rw: CallRewriteView,
    i: int,
) -> (Seq<ExprView>, CallRewriteView)
    decreases es, es.len() - i,
{
    if 0 <= i < es.len() {
        let e = es[i];
        let (out, rw) = {
            let (x, rw) = rewrite_calls_to_fresh_vars_spec(e, cx, rw);
            (out.push(x), rw)
        };
        rewrite_call_list_spec(es, cx, out, rw, i + 1)
    } else {
        (out, rw)
    }
}

/// Adds expressions with their calls replaced.
pub fn rewrite_call_list(
    es: &Vec<Expr>,
    cx: &Context,
    out: Vec<Expr>,
    rw: CallRewrite,
) -> (r: (Vec<Expr>, CallRewrite))
    ensures
        (crate::ast::exprs_view(r.0@), r.1@) == rewrite_call_list_spec(
            crate::ast::exprs_view(es@),
            cx@,
            crate::ast::exprs_view(out@),
            rw@,
            0,
        ),
    decreases es, es.len(),
{
    let ghost whole_run = rewrite_call_list_spec(
        crate::ast::exprs_view(es@),
        cx@,
        crate::ast::exprs_view(out@),
        rw@,
        0,
    );
    let mut out = out;
    let mut rw = rw;
    let mut i: usize = 0;
    while i < es.len()
        invariant
            i <= es.len(),
            rewrite_call_list_spec(
                crate::ast::exprs_view(es@),
                cx@,
                crate::ast::exprs_view(out@),
                rw@,
                i as int,
            ) == whole_run,
        decreases es.len() - i,
    {
        let e = &es[i];
        let next = {
            let (x, rw) = rewrite_calls_to_fresh_vars(e, cx, rw);
            (push(out, x), rw)
        };
        out = next.0;
        rw = next.1;
        i += 1;
    }
    (out, rw)
}

/// What [`relabel_call_vars`] computes from position `i` on.
pub open spec fn relabel_call_vars_spec(
    labels: Seq<(Seq<char>, Seq<char>)>,
    out: Seq<char>,
    i: int,
) -> Seq<char>
    decreases labels.len() - i,
{
    if 0 <= i < labels.len() {
        let label = labels[i];
        let out = crate::rewrite::replace_all_spec(out, label.0 + " = "@, label.1 + " = "@);
        relabel_call_vars_spec(labels, out, i + 1)
    } else {
        out
    }
}

/// A counterexample with the fresh variables named as the calls they stand
/// for.
pub fn relabel_call_vars(labels: &Vec<(String, String)>, out: String) -> (r: String)
    ensures
        r@ == relabel_call_vars_spec(crate::state::labels_view(labels@), out@, 0),
{
    let ghost whole_run = relabel_call_vars_spec(crate::state::labels_view(labels@), out@, 0);
    let mut out = out;
    let mut i: usize = 0;
    while i < labels.len()
        invariant
            i <= labels.len(),
            relabel_call_vars_spec(crate::state::labels_view(labels@), out@, i as int) == whole_run,
        decreases labels.len() - i,
    {
        let label = &labels[i];
        out = replace_all(&out, &cat2(&label.0, " = "), &cat2(&label.1, " = "));
        i += 1;
    }
    out
}

/// What [`binding_types`] computes.
pub open spec fn binding_types_spec(bs: Seq<(Seq<char>, VarInfoView)>) -> Seq<(Seq<char>, TypeView)>
{
    bs.map_values(|b: (Seq<char>, VarInfoView)| (b.0, b.1.ty))
}

/// The types of bindings by name.
pub fn binding_types(bs: &Vec<(String, VarInfo)>) -> (r: Vec<(String, Type)>)
    ensures
        crate::ir::named_types_view(r@) == binding_types_spec(crate::state::scope_view(bs@)),
{
    let ghost whole = binding_types_spec(crate::state::scope_view(bs@));
    let ghost all = crate::state::scope_view(bs@);
    let mut r: Vec<(String, Type)> = Vec::new();
    let mut i: usize = 0;
    while i < bs.len()
        invariant
            i <= bs.len(),
            all == crate::state::scope_view(bs@),
            whole == binding_types_spec(crate::state::scope_view(bs@)),
            crate::ir::named_types_view(r@) == whole.take(i as int),
        decreases bs.len() - i,
    {
        let b = &bs[i];
        assert(all[i as int] == (b.0@, b.1@));
        r.push((b.0.clone(), b.1.ty.dup()));
        assert(whole.take(i + 1) =~= whole.take(i as int).push(whole[i as int]));
        i += 1;
    }
    assert(whole.take(i as int) =~= whole);
    r
}

/// What [`literal_field_vars`] computes from position `i` on.
pub open spec fn literal_field_vars_spec(
    fields: Seq<(Seq<char>, ExprView)>,
    name: Seq<char>,
    declared: Seq<(Seq<char>, TypeView)>,
    vars: Seq<(Seq<char>, TypeView)>,
    facts: Seq<ExprView>,
    i: int,
) -> (Seq<(Seq<char>, TypeView)>, Seq<ExprView>)
    decreases fields.len() - i,
{
    if 0 <= i < fields.len() {
        let f = fields[i];
        let (vars, facts) = match named_type_last_spec(declared, f.0, None, 0) {
            Some(t) => if crate::types::is_integer_spec(t) || crate::types::is_bool_spec(t) {
                let synth = name + "__"@ + f.0;
                let fact = crate::construct::mk_binary_spec(
                    BinaryOp::Eq,
                    crate::construct::mk_var_spec(synth, f.1.span),
                    f.1,
                    f.1.span,
                );
                (vars.push((synth, t)), facts.push(fact))
            } else {
                (vars, facts)
            },
            None => (vars, facts),
        };
        literal_field_vars_spec(fields, name, declared, vars, facts, i + 1)
    } else {
        (vars, facts)
    }
}

/// Adds a variable for each field of a literal, and its value as a fact.
pub fn literal_field_vars(
    fields: &Vec<(String, Expr)>,
    name: &str,
    declared: &Vec<(String, Type)>,
    vars: Vec<(String, Type)>,
    facts: Vec<Expr>,
) -> (r: (Vec<(String, Type)>, Vec<Expr>))
    ensures
        (crate::ir::named_types_view(r.0@), crate::ast::exprs_view(r.1@)) == literal_field_vars_spec(
            crate::ast::named_exprs_view(fields@),
            name@,
            crate::ir::named_types_view(declared@),
            crate::ir::named_types_view(vars@),
            crate::ast::exprs_view(facts@),
            0,
        ),
{
    let ghost whole_run = literal_field_vars_spec(
        crate::ast::named_exprs_view(fields@),
        name@,
        crate::ir::named_types_view(declared@),
        crate::ir::named_types_view(vars@),
        crate::ast::exprs_view(facts@),
        0,
    );
    let mut vars = vars;
    let mut facts = facts;
    let mut i: usize = 0;
    while i < fields.len()
        invariant
            i <= fields.len(),
            literal_field_vars_spec(
                crate::ast::named_exprs_view(fields@),
                name@,
                crate::ir::named_types_view(declared@),
                crate::ir::named_types_view(vars@),
                crate::ast::exprs_view(facts@),
                i as int,
            ) == whole_run,
        decreases fields.len() - i,
    {
        let f = &fields[i];
        let next = match named_type_last(declared, &f.0, None) {
            Some(t) => if is_integer(&t) || is_bool(&t) {
                let synth = cat3(name, "__", &f.0);
                let fact = mk_binary(BinaryOp::Eq, mk_var(&synth, f.1.span), f.1.dup(), f.1.span);
                (push(vars, (synth, t)), push(facts, fact))
            } else {
                (vars, facts)
            },
            None => (vars, facts),
        };
        vars = next.0;
        facts = next.1;
        i += 1;
    }
    (vars, facts)
}

/// What [`named_type_last`] computes from position `i` on.
pub open spec fn named_type_last_spec(
    ds: Seq<(Seq<char>, TypeView)>,
    name: Seq<char>,
    found: Option<TypeView>,
    i: int,
) -> Option<TypeView>
    decreases ds.len() - i,
{
    if 0 <= i < ds.len() {
        let d = ds[i];
        let found = if d.0 == name { Some(d.1) } else { found };
        named_type_last_spec(ds, name, found, i + 1)
    } else {
        found
    }
}

/// The last type listed for a name.
pub fn named_type_last(
    ds: &Vec<(String, Type)>,
    name: &str,
    found: Option<Type>,
) -> (r: Option<Type>)
    ensures
        (match &r { Some(v0) => Some(v0@), None => None }) == named_type_last_spec(
            crate::ir::named_types_view(ds@),
            name@,
            (match &found { Some(v0) => Some(v0@), None => None }),
            0,
        ),
{
    let ghost whole_run = named_type_last_spec(
        crate::ir::named_types_view(ds@),
        name@,
        (match &found { Some(v0) => Some(v0@), None => None }),
        0,
    );
    let mut found = found;
    let mut i: usize = 0;
    while i < ds.len()
        invariant
            i <= ds.len(),
            named_type_last_spec(
                crate::ir::named_types_view(ds@),
                name@,
                (match &found { Some(v0) => Some(v0@), None => None }),
                i as int,
            ) == whole_run,
        decreases ds.len() - i,
    {
        let d = &ds[i];
        found = if str_eq(&d.0, name) { Some(d.1.dup()) } else { found };
        i += 1;
    }
    found
}

/// What [`struct_field_vars`] computes from position `i` on.
pub open spec fn struct_field_vars_spec(
    bs: Seq<(Seq<char>, VarInfoView)>,
    env: EnvView,
    vars: Seq<(Seq<char>, TypeView)>,
    facts: Seq<ExprView>,
    i: int,
) -> (Seq<(Seq<char>, TypeView)>, Seq<ExprView>)
    decreases bs.len() - i,
{
    if 0 <= i < bs.len() {
        let b = bs[i];
        let (vars, facts) = match (b.1.struct_literal_fields, b.1.ty) {
            (
                Some(fields),
                TypeView::Struct(struct_name),
            ) => match crate::scope::lookup_struct_spec(env, struct_name) {
                Some(info) => literal_field_vars_spec(fields, b.0, info.fields, vars, facts, 0),
                None => (vars, facts),
            },
            _ => (vars, facts),
        };
        struct_field_vars_spec(bs, env, vars, facts, i + 1)
    } else {
        (vars, facts)
    }
}

/// Variables for the integer and boolean fields of the structs in scope that
/// were made from literals, with their values.
pub fn struct_field_vars(
    bs: &Vec<(String, VarInfo)>,
    env: &Env,
    vars: Vec<(String, Type)>,
    facts: Vec<Expr>,
) -> (r: (Vec<(String, Type)>, Vec<Expr>))
    ensures
        (crate::ir::named_types_view(r.0@), crate::ast::exprs_view(r.1@)) == struct_field_vars_spec(
            crate::state::scope_view(bs@),
            env@,
            crate::ir::named_types_view(vars@),
            crate::ast::exprs_view(facts@),
            0,
        ),
{
    let ghost whole_run = struct_field_vars_spec(
        crate::state::scope_view(bs@),
        env@,
        crate::ir::named_types_view(vars@),
        crate::ast::exprs_view(facts@),
        0,
    );
    let mut vars = vars;
    let mut facts = facts;
    let mut i: usize = 0;
    while i < bs.len()
        invariant
            i <= bs.len(),
            struct_field_vars_spec(
                crate::state::scope_view(bs@),
                env@,
                crate::ir::named_types_view(vars@),
                crate::ast::exprs_view(facts@),
                i as int,
            ) == whole_run,
        decreases bs.len() - i,
    {
        let b = &bs[i];
        let next = match (&b.1.struct_literal_fields, &b.1.ty) {
            (Some(fields), Type::Struct(struct_name)) => match lookup_struct(env, struct_name) {
                Some(info) => literal_field_vars(fields, &b.0, &info.fields, vars, facts),
                None => (vars, facts),
            },
            _ => (vars, facts),
        };
        vars = next.0;
        facts = next.1;
        i += 1;
    }
    (vars, facts)
}

/// What [`rewrite_facts`] computes from position `i` on.
pub open spec fn rewrite_facts_spec(
    facts: Seq<ExprView>,
    env: EnvView,
    cx: ContextView,
    out: Seq<ExprView>,
    i: int,
) -> Seq<ExprView>
    decreases facts.len() - i,
{
    if 0 <= i < facts.len() {
        let f = facts[i];
        let out = {
            let f = rewrite_method_calls_to_calls_spec(f, env, cx);
            out.push(rewrite_struct_field_accesses_spec(f, env))
        };
        rewrite_facts_spec(facts, env, cx, out, i + 1)
    } else {
        out
    }
}

/// Adds facts with their method calls as calls and their field reads as
/// variables.
pub fn rewrite_facts(facts: &Vec<Expr>, env: &Env, cx: &Context, out: Vec<Expr>) -> (r: Vec<Expr>)
    ensures
        crate::ast::exprs_view(r@) == rewrite_facts_spec(
            crate::ast::exprs_view(facts@),
            env@,
            cx@,
            crate::ast::exprs_view(out@),
            0,
        ),
{
    let ghost whole_run = rewrite_facts_spec(
        crate::ast::exprs_view(facts@),
        env@,
        cx@,
        crate::ast::exprs_view(out@),
        0,
    );
    let mut out = out;
    let mut i: usize = 0;
    while i < facts.len()
        invariant
            i <= facts.len(),
            rewrite_facts_spec(
                crate::ast::exprs_view(facts@),
                env@,
                cx@,
                crate::ast::exprs_view(out@),
                i as int,
            ) == whole_run,
        decreases facts.len() - i,
    {
        let f = &facts[i];
        out = {
            let f = rewrite_method_calls_to_calls(f, env, cx);
            push(out, rewrite_struct_field_accesses(&f, env))
        };
        i += 1;
    }
    out
}

/// What [`prove_query`] computes.
pub open spec fn prove_query_spec(
    goal: ExprView,
    facts: Seq<ExprView>,
    env: EnvView,
    cx: ContextView,
    extra: Seq<(Seq<char>, TypeView)>,
) -> (QueryView, Seq<(Seq<char>, Seq<char>)>)
{
    let bindings = crate::scope::all_bindings_spec(env);
    let vars = binding_types_spec(bindings) + (extra);
    let facts = current_smt_facts_spec(facts, env);
    let (field_vars, field_facts) = struct_field_vars_spec(
        bindings,
        env,
        Seq::empty(),
        Seq::empty(),
        0,
    );
    let vars = vars + field_vars;
    let facts = facts + field_facts;
    let goal = substitute_literal_vec_indices_spec(goal, env);
    let goal = rewrite_method_calls_to_calls_spec(goal, env, cx);
    let goal = rewrite_struct_field_accesses_spec(goal, env);
    let facts = rewrite_facts_spec(facts, env, cx, Seq::empty(), 0);
    let rw = CallRewriteView { vars: Seq::empty(), facts: Seq::empty(), labels: Seq::empty() };
    let (goal, rw) = rewrite_calls_to_fresh_vars_spec(goal, cx, rw);
    let (facts, rw) = rewrite_call_list_spec(facts, cx, Seq::empty(), rw, 0);
    let facts = facts + rewrite_struct_field_list_spec(rw.facts, env, Seq::empty(), 0);
    let vars = vars + rw.vars;
    (
        QueryView::Prove { goal, facts, vars, versions: crate::scope::array_versions_spec(env) },
        rw.labels,
    )
}

/// The question whether `goal` follows from the facts and what is known in
/// scope, and the calls that its fresh variables stand for.
pub fn prove_query(
    goal: &Expr,
    facts: &Vec<Expr>,
    env: &Env,
    cx: &Context,
    extra: &Vec<(String, Type)>,
) -> (r: (Query, Vec<(String, String)>))
    ensures
        (r.0@, crate::state::labels_view(r.1@)) == prove_query_spec(
            goal@,
            crate::ast::exprs_view(facts@),
            env@,
            cx@,
            crate::ir::named_types_view(extra@),
        ),
{
    let bindings = all_bindings(env);
    let vars = join(binding_types(&bindings), dup_named_types(extra));
    let facts = current_smt_facts(facts, env);
    let (field_vars, field_facts) = struct_field_vars(&bindings, env, Vec::new(), Vec::new());
    let vars = join(vars, field_vars);
    let facts = join(facts, field_facts);
    let goal = substitute_literal_vec_indices(goal, env);
    let goal = rewrite_method_calls_to_calls(&goal, env, cx);
    let goal = rewrite_struct_field_accesses(&goal, env);
    let facts = rewrite_facts(&facts, env, cx, Vec::new());
    let rw = CallRewrite { vars: Vec::new(), facts: Vec::new(), labels: Vec::new() };
    let (goal, rw) = rewrite_calls_to_fresh_vars(&goal, cx, rw);
    let (facts, rw) = rewrite_call_list(&facts, cx, Vec::new(), rw);
    let facts = join(facts, rewrite_struct_field_list(&rw.facts, env, Vec::new()));
    let vars = join(vars, rw.vars);
    (Query::Prove { goal, facts, vars, versions: array_versions(env) }, rw.labels)
}

/// What [`relabeled`] computes.
pub open spec fn relabeled_spec(v: VerdictView, labels: Seq<(Seq<char>, Seq<char>)>) -> VerdictView
{
    match v {
        VerdictView::Disproven { counterexample } => match counterexample {
            Some(text) => VerdictView::Disproven { counterexample: Some(relabel_call_vars_spec(labels, text, 0)) },
            None => VerdictView::Disproven { counterexample: None },
        },
        _ => v,
    }
}

/// A verdict with the calls named in its counterexample.
pub fn relabeled(v: Verdict, labels: &Vec<(String, String)>) -> (r: Verdict)
    ensures
        r@ == relabeled_spec(v@, crate::state::labels_view(labels@)),
{
    match v {
        Verdict::Disproven { counterexample } => match counterexample {
            Some(text) => Verdict::Disproven { counterexample: Some(relabel_call_vars(labels, text)) },
            None => Verdict::Disproven { counterexample: None },
        },
        _ => v,
    }
}

/// What [`prove_with_calls_extra`] computes.
pub open spec fn prove_with_calls_extra_spec(
    goal: ExprView,
    facts: Seq<ExprView>,
    env: EnvView,
    cx: ContextView,
    extra: Seq<(Seq<char>, TypeView)>,
    st: StateView,
) -> (VerdictView, StateView)
{
    let (query, labels) = prove_query_spec(goal, facts, env, cx, extra);
    match crate::scope::ask_spec(query, st) {
        (Some(AnswerView::Verdict(v)), st) => (relabeled_spec(v, labels), st),
        (_, st) => (VerdictView::Unavailable, st),
    }
}

/// What the prover says of a goal; without an answer, that there is none.
pub fn prove_with_calls_extra(
    goal: &Expr,
    facts: &Vec<Expr>,
    env: &Env,
    cx: &Context,
    extra: &Vec<(String, Type)>,
    st: State,
) -> (r: (Verdict, State))
    ensures
        (r.0@, r.1@) == prove_with_calls_extra_spec(
            goal@,
            crate::ast::exprs_view(facts@),
            env@,
            cx@,
            crate::ir::named_types_view(extra@),
            st@,
        ),
        crate::state::follows(st@, r.1@),
        crate::state::balanced(st@, r.1@),
        crate::state::same_facts(st@, r.1@),
{
    let (query, labels) = prove_query(goal, facts, env, cx, extra);
    match ask(query, st) {
        (Some(Answer::Verdict(v)), st) => (relabeled(v, &labels), st),
        (_, st) => (Verdict::Unavailable, st),
    }
}

/// What [`prove_with_calls`] computes.
pub open spec fn prove_with_calls_spec(
    goal: ExprView,
    facts: Seq<ExprView>,
    env: EnvView,
    cx: ContextView,
    st: StateView,
) -> (VerdictView, StateView)
{
    let none: Seq<(Seq<char>, TypeView)> = Seq::empty();
    prove_with_calls_extra_spec(goal, facts, env, cx, none, st)
}

/// [`prove_with_calls_extra`] without further variables.
pub fn prove_with_calls(
    goal: &Expr,
    facts: &Vec<Expr>,
    env: &Env,
    cx: &Context,
    st: State,
) -> (r: (Verdict, State))
    ensures
        (r.0@, r.1@) == prove_with_calls_spec(
            goal@,
            crate::ast::exprs_view(facts@),
            env@,
            cx@,
            st@,
        ),
        crate::state::follows(st@, r.1@),
        crate::state::balanced(st@, r.1@),
        crate::state::same_facts(st@, r.1@),
{
    let none: Vec<(String, Type)> = Vec::new();
    prove_with_calls_extra(goal, facts, env, cx, &none, st)
}

/// What [`is_proven`] computes.
pub open spec fn is_proven_spec(v: VerdictView) -> bool
{
    v is Proven
}

pub fn is_proven(v: &Verdict) -> (r: bool)
    ensures
        r == is_proven_spec(v@),
{
    match v {
        Verdict::Proven => true,
        _ => false,
    }
}

/// What [`prove_failure`] computes.
pub open spec fn prove_failure_spec(v: VerdictView) -> Option<Seq<char>>
{
    match v {
        VerdictView::Proven => None,
        VerdictView::Disproven { counterexample } => match counterexample {
            Some(c) => Some("proof failed: SMT counterexample ["@ + c + "]"@),
            None => Some(
                "proof failed: SMT solver found a counterexample (the expression is not universally true under the function's preconditions)"@,
            ),
        },
        VerdictView::Unknown => Some(
            "cannot prove expression: SMT solver returned 'unknown' (try strengthening the preconditions or simplifying the claim)"@,
        ),
        VerdictView::Unsupported(reason) => {
            let advice = if crate::text::str_starts_spec(reason, "function call"@) {
                " (add an 'ensures' clause to the callee so the verifier can use its return value)"@
            } else {
                ""@
            };
            Some(
                "cannot prove expression: SMT encoder skipped this query ("@ + reason + ")"@
                    + advice + ". v1 supports integer/bool arithmetic and comparison only."@,
            )
        },
        VerdictView::Unavailable => Some(
            "cannot prove expression: no SMT solver available (install z3 in $PATH or set $Z3 to its path)"@,
        ),
    }
}

/// The report on a `prove` that was not proven.
pub fn prove_failure(v: &Verdict) -> (r: Option<String>)
    ensures
        (match &r { Some(v0) => Some(v0@), None => None }) == prove_failure_spec(v@),
{
    match v {
        Verdict::Proven => None,
        Verdict::Disproven { counterexample } => match counterexample {
            Some(c) => Some(cat3("proof failed: SMT counterexample [", c, "]")),
            None => Some(text(
                "proof failed: SMT solver found a counterexample (the expression is not universally true under the function's preconditions)",
            )),
        },
        Verdict::Unknown => Some(text(
            "cannot prove expression: SMT solver returned 'unknown' (try strengthening the preconditions or simplifying the claim)",
        )),
        Verdict::Unsupported(reason) => {
            let advice = if str_starts(reason, "function call") {
                " (add an 'ensures' clause to the callee so the verifier can use its return value)"
            } else {
                ""
            };
            Some(cat5(
                "cannot prove expression: SMT encoder skipped this query (",
                reason,
                ")",
                advice,
                ". v1 supports integer/bool arithmetic and comparison only.",
            ))
        },
        Verdict::Unavailable => Some(text(
            "cannot prove expression: no SMT solver available (install z3 in $PATH or set $Z3 to its path)",
        )),
    }
}

/// What [`try_smt_prove`] computes.
#[verifier::opaque]
pub open spec fn try_smt_prove_spec(goal: ExprView, cx: ContextView, st: StateView) -> StateView
{
    if !cx.verify {
        st
    } else {
        let facts = (st.facts);
        let env = st.env;
        let (v, st) = prove_with_calls_spec(goal, facts, env, cx, st);
        match prove_failure_spec(v) {
            Some(message) => crate::scope::report_spec(st, goal.span, message),
            None => st,
        }
    }
}

/// Checks a `prove` that is not true by its form.
pub fn try_smt_prove(goal: &Expr, cx: &Context, st: State) -> (r: State)
    ensures
        r@ == try_smt_prove_spec(goal@, cx@, st@),
        crate::state::follows(st@, r@),
        crate::state::balanced(st@, r@),
        crate::state::same_facts(st@, r@),
{
    proof {
        reveal(try_smt_prove_spec);
    }
    if !cx.verify {
        st
    } else {
        let facts = dup_exprs(&st.facts);
        let env = st.env.dup();
        let (v, st) = prove_with_calls(goal, &facts, &env, cx, st);
        match prove_failure(&v) {
            Some(message) => report(st, goal.span, message),
            None => st,
        }
    }
}

/// What [`verify_each_ensures`] computes from position `i` on.
pub open spec fn verify_each_ensures_spec(
    enss: Seq<ExprView>,
    name: Seq<char>,
    returned: ExprView,
    cx: ContextView,
    st: StateView,
    i: int,
) -> StateView
    decreases enss.len() - i,
{
    if 0 <= i < enss.len() {
        let ens = enss[i];
        let st = {
            let none: Seq<(Seq<char>, ExprView)> = Seq::empty();
            let goal = crate::rewrite::substitute_expr_spec(
                ens,
                crate::rewrite::named_expr_put_spec(none, "_return"@, returned),
            );
            let facts = (st.facts);
            let env = st.env;
            match prove_with_calls_spec(goal, facts, env, cx, st) {
                (VerdictView::Disproven { counterexample }, st) => {
                    let message = match counterexample {
                        Some(c) => "function '"@ + name + "' ensures clause does not hold at this return [counterexample: "@ + c + "]"@,
                        None => "function '"@ + name + "' ensures clause does not hold at this return (SMT counterexample)"@,
                    };
                    crate::scope::report_note_spec(
                        st,
                        ens.span,
                        message,
                        returned.span,
                        "return is here"@,
                    )
                },
                (_, st) => st,
            }
        };
        verify_each_ensures_spec(enss, name, returned, cx, st, i + 1)
    } else {
        st
    }
}

/// Checks the promises of a function at a `return`.
pub fn verify_each_ensures(
    enss: &Vec<Expr>,
    name: &str,
    returned: &Expr,
    cx: &Context,
    st: State,
) -> (r: State)
    ensures
        r@ == verify_each_ensures_spec(
            crate::ast::exprs_view(enss@),
            name@,
            returned@,
            cx@,
            st@,
            0,
        ),
        crate::state::follows(st@, r@),
        crate::state::balanced(st@, r@),
        crate::state::same_facts(st@, r@),
{
    let ghost whole_run = verify_each_ensures_spec(
        crate::ast::exprs_view(enss@),
        name@,
        returned@,
        cx@,
        st@,
        0,
    );
    let ghost start_st = st@;
    let mut st = st;
    let mut i: usize = 0;
    while i < enss.len()
        invariant
            i <= enss.len(),
            verify_each_ensures_spec(
                crate::ast::exprs_view(enss@),
                name@,
                returned@,
                cx@,
                st@,
                i as int,
            ) == whole_run,
            crate::state::follows(start_st, st@),
            crate::state::balanced(start_st, st@),
            crate::state::same_facts(start_st, st@),
        decreases enss.len() - i,
    {
        let ens = &enss[i];
        st = {
            let none: Vec<(String, Expr)> = Vec::new();
            let goal = substitute_expr(ens, &named_expr_put(&none, "_return", returned));
            let facts = dup_exprs(&st.facts);
            let env = st.env.dup();
            match prove_with_calls(&goal, &facts, &env, cx, st) {
                (Verdict::Disproven { counterexample }, st) => {
                    let message = match counterexample {
                        Some(c) => cat5(
                            "function '",
                            name,
                            "' ensures clause does not hold at this return [counterexample: ",
                            &c,
                            "]",
                        ),
                        None => cat3(
                            "function '",
                            name,
                            "' ensures clause does not hold at this return (SMT counterexample)",
                        ),
                    };
                    report_note(st, ens.span, message, returned.span, text("return is here"))
                },
                (_, st) => st,
            }
        };
        i += 1;
    }
    st
}

/// What [`verify_ensures_at_return`] computes.
#[verifier::opaque]
pub open spec fn verify_ensures_at_return_spec(
    f: FunctionView,
    returned: ExprView,
    cx: ContextView,
    st: StateView,
) -> StateView
{
    if !cx.verify { st } else { verify_each_ensures_spec(f.ensures, f.name, returned, cx, st, 0) }
}

/// Checks what a function ensures against a value that it returns.
pub fn verify_ensures_at_return(
    f: &Function,
    returned: &Expr,
    cx: &Context,
    st: State,
) -> (r: State)
    ensures
        r@ == verify_ensures_at_return_spec(f@, returned@, cx@, st@),
        crate::state::follows(st@, r@),
        crate::state::balanced(st@, r@),
        crate::state::same_facts(st@, r@),
{
    proof {
        reveal(verify_ensures_at_return_spec);
    }
    if !cx.verify { st } else { verify_each_ensures(&f.ensures, &f.name, returned, cx, st) }
}

/// What [`invariant_failure`] computes.
pub open spec fn invariant_failure_spec(v: VerdictView, phrase: Seq<char>) -> Option<Seq<char>>
{
    match v {
        VerdictView::Proven => None,
        VerdictView::Disproven { counterexample } => match counterexample {
            Some(c) => Some("loop invariant "@ + phrase + " [counterexample: "@ + c + "]"@),
            None => Some("loop invariant "@ + phrase + " (SMT counterexample)"@),
        },
        VerdictView::Unknown => Some(
            "cannot verify loop invariant: SMT returned 'unknown' ("@ + phrase + ")"@,
        ),
        VerdictView::Unsupported(reason) => {
            let advice = if crate::text::str_starts_spec(reason, "function call"@) {
                " — add an 'ensures' clause to the callee"@
            } else {
                ""@
            };
            Some(
                "cannot verify loop invariant: "@ + reason
                    + " (uses features outside the SMT v1 encoder"@ + advice + ")"@,
            )
        },
        VerdictView::Unavailable => Some(
            "cannot verify loop invariant: no SMT solver available (install z3)"@,
        ),
    }
}

pub fn invariant_failure(v: &Verdict, phrase: &str) -> (r: Option<String>)
    ensures
        (match &r { Some(v0) => Some(v0@), None => None }) == invariant_failure_spec(v@, phrase@),
{
    match v {
        Verdict::Proven => None,
        Verdict::Disproven { counterexample } => match counterexample {
            Some(c) => Some(cat5("loop invariant ", phrase, " [counterexample: ", c, "]")),
            None => Some(cat3("loop invariant ", phrase, " (SMT counterexample)")),
        },
        Verdict::Unknown => Some(cat3(
            "cannot verify loop invariant: SMT returned 'unknown' (",
            phrase,
            ")",
        )),
        Verdict::Unsupported(reason) => {
            let advice = if str_starts(reason, "function call") {
                " — add an 'ensures' clause to the callee"
            } else {
                ""
            };
            Some(cat5(
                "cannot verify loop invariant: ",
                reason,
                " (uses features outside the SMT v1 encoder",
                advice,
                ")",
            ))
        },
        Verdict::Unavailable => Some(text(
            "cannot verify loop invariant: no SMT solver available (install z3)",
        )),
    }
}

/// What [`verify_each_invariant`] computes from position `i` on.
pub open spec fn verify_each_invariant_spec(
    invs: Seq<ExprView>,
    facts: Seq<ExprView>,
    env: EnvView,
    cx: ContextView,
    phrase: Seq<char>,
    subs: Seq<(Seq<char>, ExprView)>,
    extra: Seq<(Seq<char>, TypeView)>,
    st: StateView,
    i: int,
) -> StateView
    decreases invs.len() - i,
{
    if 0 <= i < invs.len() {
        let inv = invs[i];
        let st = {
            let goal = crate::rewrite::substitute_expr_spec(inv, subs);
            let (v, st) = prove_with_calls_extra_spec(goal, facts, env, cx, extra, st);
            match invariant_failure_spec(v, phrase) {
                Some(message) => crate::scope::report_spec(st, inv.span, message),
                None => st,
            }
        };
        verify_each_invariant_spec(invs, facts, env, cx, phrase, subs, extra, st, i + 1)
    } else {
        st
    }
}

/// Checks that invariants hold.
pub fn verify_each_invariant(
    invs: &Vec<Expr>,
    facts: &Vec<Expr>,
    env: &Env,
    cx: &Context,
    phrase: &str,
    subs: &Vec<(String, Expr)>,
    extra: &Vec<(String, Type)>,
    st: State,
) -> (r: State)
    ensures
        r@ == verify_each_invariant_spec(
            crate::ast::exprs_view(invs@),
            crate::ast::exprs_view(facts@),
            env@,
            cx@,
            phrase@,
            crate::ast::named_exprs_view(subs@),
            crate::ir::named_types_view(extra@),
            st@,
            0,
        ),
        crate::state::follows(st@, r@),
        crate::state::balanced(st@, r@),
        crate::state::same_facts(st@, r@),
{
    let ghost whole_run = verify_each_invariant_spec(
        crate::ast::exprs_view(invs@),
        crate::ast::exprs_view(facts@),
        env@,
        cx@,
        phrase@,
        crate::ast::named_exprs_view(subs@),
        crate::ir::named_types_view(extra@),
        st@,
        0,
    );
    let ghost start_st = st@;
    let mut st = st;
    let mut i: usize = 0;
    while i < invs.len()
        invariant
            i <= invs.len(),
            verify_each_invariant_spec(
                crate::ast::exprs_view(invs@),
                crate::ast::exprs_view(facts@),
                env@,
                cx@,
                phrase@,
                crate::ast::named_exprs_view(subs@),
                crate::ir::named_types_view(extra@),
                st@,
                i as int,
            ) == whole_run,
            crate::state::follows(start_st, st@),
            crate::state::balanced(start_st, st@),
            crate::state::same_facts(start_st, st@),
        decreases invs.len() - i,
    {
        let inv = &invs[i];
        st = {
            let goal = substitute_expr(inv, subs);
            let (v, st) = prove_with_calls_extra(&goal, facts, env, cx, extra, st);
            match invariant_failure(&v, phrase) {
                Some(message) => report(st, inv.span, message),
                None => st,
            }
        };
        i += 1;
    }
    st
}

/// What [`verify_loop_invariants_with_havoc`] computes.
#[verifier::opaque]
pub open spec fn verify_loop_invariants_with_havoc_spec(
    invs: Seq<ExprView>,
    facts: Seq<ExprView>,
    env: EnvView,
    cx: ContextView,
    phrase: Seq<char>,
    subs: Seq<(Seq<char>, ExprView)>,
    extra: Seq<(Seq<char>, TypeView)>,
    st: StateView,
) -> StateView
{
    if cx.verify { verify_each_invariant_spec(invs, facts, env, cx, phrase, subs, extra, st, 0) } else { st }
}

/// Checks loop invariants, with variables replaced by their new values and
/// the given further variables.
pub fn verify_loop_invariants_with_havoc(
    invs: &Vec<Expr>,
    facts: &Vec<Expr>,
    env: &Env,
    cx: &Context,
    phrase: &str,
    subs: &Vec<(String, Expr)>,
    extra: &Vec<(String, Type)>,
    st: State,
) -> (r: State)
    ensures
        r@ == verify_loop_invariants_with_havoc_spec(
            crate::ast::exprs_view(invs@),
            crate::ast::exprs_view(facts@),
            env@,
            cx@,
            phrase@,
            crate::ast::named_exprs_view(subs@),
            crate::ir::named_types_view(extra@),
            st@,
        ),
        crate::state::follows(st@, r@),
        crate::state::balanced(st@, r@),
        crate::state::same_facts(st@, r@),
{
    proof {
        reveal(verify_loop_invariants_with_havoc_spec);
    }
    if cx.verify { verify_each_invariant(invs, facts, env, cx, phrase, subs, extra, st) } else { st }
}

/// What [`verify_loop_invariants`] computes.
#[verifier::opaque]
pub open spec fn verify_loop_invariants_spec(
    invs: Seq<ExprView>,
    facts: Seq<ExprView>,
    env: EnvView,
    cx: ContextView,
    phrase: Seq<char>,
    st: StateView,
) -> StateView
{
    let no_subs: Seq<(Seq<char>, ExprView)> = Seq::empty();
    let no_vars: Seq<(Seq<char>, TypeView)> = Seq::empty();
    verify_loop_invariants_with_havoc_spec(invs, facts, env, cx, phrase, no_subs, no_vars, st)
}

/// [`verify_loop_invariants_with_havoc`] where nothing was reassigned.
pub fn verify_loop_invariants(
    invs: &Vec<Expr>,
    facts: &Vec<Expr>,
    env: &Env,
    cx: &Context,
    phrase: &str,
    st: State,
) -> (r: State)
    ensures
        r@ == verify_loop_invariants_spec(
            crate::ast::exprs_view(invs@),
            crate::ast::exprs_view(facts@),
            env@,
            cx@,
            phrase@,
            st@,
        ),
        crate::state::follows(st@, r@),
        crate::state::balanced(st@, r@),
        crate::state::same_facts(st@, r@),
{
    proof {
        reveal(verify_loop_invariants_spec);
    }
    let no_subs: Vec<(String, Expr)> = Vec::new();
    let no_vars: Vec<(String, Type)> = Vec::new();
    verify_loop_invariants_with_havoc(invs, facts, env, cx, phrase, &no_subs, &no_vars, st)
}

/// What [`havoc_names`] computes from position `i` on.
pub open spec fn havoc_names_spec(
    names: Seq<Seq<char>>,
    env: EnvView,
    span: Span,
    subs: Seq<(Seq<char>, ExprView)>,
    vars: Seq<(Seq<char>, TypeView)>,
    i: int,
) -> (Seq<(Seq<char>, ExprView)>, Seq<(Seq<char>, TypeView)>)
    decreases names.len() - i,
{
    if 0 <= i < names.len() {
        let name = names[i];
        let (subs, vars) = match crate::scope::lookup_spec(env, name) {
            Some(info) => {
                let fresh = name + "__havoc_"@
                    + crate::text::decimal(crate::text::add_capped_spec((vars.len() as int), 1));
                let subs = crate::rewrite::named_expr_put_spec(
                    subs,
                    name,
                    crate::construct::mk_var_spec(fresh, span),
                );
                (subs, vars.push((fresh, info.ty)))
            },
            None => (subs, vars),
        };
        havoc_names_spec(names, env, span, subs, vars, i + 1)
    } else {
        (subs, vars)
    }
}

/// Adds a fresh variable for each name of which nothing is known.
pub fn havoc_names(
    names: &Vec<String>,
    env: &Env,
    span: Span,
    subs: Vec<(String, Expr)>,
    vars: Vec<(String, Type)>,
) -> (r: (Vec<(String, Expr)>, Vec<(String, Type)>))
    ensures
        (crate::ast::named_exprs_view(r.0@), crate::ir::named_types_view(r.1@)) == havoc_names_spec(
            crate::text::strs_view(names@),
            env@,
            span,
            crate::ast::named_exprs_view(subs@),
            crate::ir::named_types_view(vars@),
            0,
        ),
{
    let ghost whole_run = havoc_names_spec(
        crate::text::strs_view(names@),
        env@,
        span,
        crate::ast::named_exprs_view(subs@),
        crate::ir::named_types_view(vars@),
        0,
    );
    let mut subs = subs;
    let mut vars = vars;
    let mut i: usize = 0;
    while i < names.len()
        invariant
            i <= names.len(),
            havoc_names_spec(
                crate::text::strs_view(names@),
                env@,
                span,
                crate::ast::named_exprs_view(subs@),
                crate::ir::named_types_view(vars@),
                i as int,
            ) == whole_run,
        decreases names.len() - i,
    {
        let name = &names[i];
        let next = match lookup(env, name) {
            Some(info) => {
                let fresh = cat3(name, "__havoc_", &usize_text(add_capped(vars.len(), 1)));
                let subs = named_expr_put(&subs, name, &mk_var(&fresh, span));
                (subs, push(vars, (fresh, info.ty)))
            },
            None => (subs, vars),
        };
        subs = next.0;
        vars = next.1;
        i += 1;
    }
    (subs, vars)
}

/// What [`reassigns_in_stmt`] computes.
pub open spec fn reassigns_in_stmt_spec(
    s: StmtView,
    env: EnvView,
    subs: Seq<(Seq<char>, ExprView)>,
    vars: Seq<(Seq<char>, TypeView)>,
) -> (Seq<(Seq<char>, ExprView)>, Seq<(Seq<char>, TypeView)>)
    decreases s, 0int,
{
    match s {
        StmtView::Assign { name, expr, .. } => (
            crate::rewrite::named_expr_put_spec(
                subs,
                name,
                crate::rewrite::substitute_expr_spec(expr, subs),
            ),
            vars,
        ),
        StmtView::Let { name, expr, .. } => (
            crate::rewrite::named_expr_put_spec(
                subs,
                name,
                crate::rewrite::substitute_expr_spec(expr, subs),
            ),
            vars,
        ),
        StmtView::If { then_body, else_body, .. } => {
            let (subs, vars) = walk_for_reassigns_spec(then_body, env, subs, vars, 0);
            walk_for_reassigns_spec(else_body, env, subs, vars, 0)
        },
        StmtView::While { body, span, .. } => havoc_names_spec(
            crate::effects::collect_branch_mutations_spec(body),
            env,
            span,
            subs,
            vars,
            0,
        ),
        StmtView::For { body, span, .. } => havoc_names_spec(
            crate::effects::collect_branch_mutations_spec(body),
            env,
            span,
            subs,
            vars,
            0,
        ),
        StmtView::ForIter { body, span, .. } => havoc_names_spec(
            crate::effects::collect_branch_mutations_spec(body),
            env,
            span,
            subs,
            vars,
            0,
        ),
        _ => (subs, vars),
    }
}

/// Adds the value that a statement gives a variable, or a fresh variable where
/// nothing is known of it.
pub fn reassigns_in_stmt(
    s: &Stmt,
    env: &Env,
    subs: Vec<(String, Expr)>,
    vars: Vec<(String, Type)>,
) -> (r: (Vec<(String, Expr)>, Vec<(String, Type)>))
    ensures
        (crate::ast::named_exprs_view(r.0@), crate::ir::named_types_view(r.1@)) == reassigns_in_stmt_spec(
            s@,
            env@,
            crate::ast::named_exprs_view(subs@),
            crate::ir::named_types_view(vars@),
        ),
    decreases s, 0int,
{
    match s {
        Stmt::Assign { name, expr, .. } => (
            named_expr_put(&subs, name, &substitute_expr(expr, &subs)),
            vars,
        ),
        Stmt::Let { name, expr, .. } => (
            named_expr_put(&subs, name, &substitute_expr(expr, &subs)),
            vars,
        ),
        Stmt::If { then_body, else_body, .. } => {
            let (subs, vars) = walk_for_reassigns(then_body, env, subs, vars);
            walk_for_reassigns(else_body, env, subs, vars)
        },
        Stmt::While { body, span, .. } => havoc_names(
            &collect_branch_mutations(body),
            env,
            *span,
            subs,
            vars,
        ),
        Stmt::For { body, span, .. } => havoc_names(
            &collect_branch_mutations(body),
            env,
            *span,
            subs,
            vars,
        ),
        Stmt::ForIter { body, span, .. } => havoc_names(
            &collect_branch_mutations(body),
            env,
            *span,
            subs,
            vars,
        ),
        _ => (subs, vars),
    }
}

/// What [`walk_for_reassigns`] computes from position `i` on.
pub open spec fn walk_for_reassigns_spec(
    ss: Seq<StmtView>,
    env: EnvView,
    subs: Seq<(Seq<char>, ExprView)>,
    vars: Seq<(Seq<char>, TypeView)>,
    i: int,
) -> (Seq<(Seq<char>, ExprView)>, Seq<(Seq<char>, TypeView)>)
    decreases ss, ss.len() - i,
{
    if 0 <= i < ss.len() {
        let s = ss[i];
        let (subs, vars) = reassigns_in_stmt_spec(s, env, subs, vars);
        walk_for_reassigns_spec(ss, env, subs, vars, i + 1)
    } else {
        (subs, vars)
    }
}

/// The value of each variable that a body assigns, in terms of the values
/// before it; a variable that a nested loop may change gets a fresh name.
pub fn walk_for_reassigns(
    ss: &Vec<Stmt>,
    env: &Env,
    subs: Vec<(String, Expr)>,
    vars: Vec<(String, Type)>,
) -> (r: (Vec<(String, Expr)>, Vec<(String, Type)>))
    ensures
        (crate::ast::named_exprs_view(r.0@), crate::ir::named_types_view(r.1@)) == walk_for_reassigns_spec(
            crate::ast::stmts_view(ss@),
            env@,
            crate::ast::named_exprs_view(subs@),
            crate::ir::named_types_view(vars@),
            0,
        ),
    decreases ss, ss.len(),
{
    let ghost whole_run = walk_for_reassigns_spec(
        crate::ast::stmts_view(ss@),
        env@,
        crate::ast::named_exprs_view(subs@),
        crate::ir::named_types_view(vars@),
        0,
    );
    let mut subs = subs;
    let mut vars = vars;
    let mut i: usize = 0;
    while i < ss.len()
        invariant
            i <= ss.len(),
            walk_for_reassigns_spec(
                crate::ast::stmts_view(ss@),
                env@,
                crate::ast::named_exprs_view(subs@),
                crate::ir::named_types_view(vars@),
                i as int,
            ) == whole_run,
        decreases ss.len() - i,
    {
        let s = &ss[i];
        let next = reassigns_in_stmt(s, env, subs, vars);
        subs = next.0;
        vars = next.1;
        i += 1;
    }
    (subs, vars)
}

/// What [`verify_each_requires`] computes from position `i` on.
pub open spec fn verify_each_requires_spec(
    reqs: Seq<ExprView>,
    name: Seq<char>,
    span: Span,
    subs: Seq<(Seq<char>, ExprView)>,
    facts: Seq<ExprView>,
    env: EnvView,
    cx: ContextView,
    st: StateView,
    i: int,
) -> StateView
    decreases reqs.len() - i,
{
    if 0 <= i < reqs.len() {
        let req = reqs[i];
        let st = {
            let goal = crate::rewrite::substitute_expr_spec(req, subs);
            match prove_with_calls_spec(goal, facts, env, cx, st) {
                (VerdictView::Disproven { counterexample }, st) => {
                    let message = match counterexample {
                        Some(c) => "argument to '"@ + name + "' violates its 'requires' clause [counterexample: "@ + c + "]"@,
                        None => "argument to '"@ + name + "' violates its 'requires' clause (SMT counterexample)"@,
                    };
                    crate::scope::report_note_spec(
                        st,
                        span,
                        message,
                        req.span,
                        "callee precondition"@,
                    )
                },
                (_, st) => st,
            }
        };
        verify_each_requires_spec(reqs, name, span, subs, facts, env, cx, st, i + 1)
    } else {
        st
    }
}

/// Checks the demands of a called function.
pub fn verify_each_requires(
    reqs: &Vec<Expr>,
    name: &str,
    span: Span,
    subs: &Vec<(String, Expr)>,
    facts: &Vec<Expr>,
    env: &Env,
    cx: &Context,
    st: State,
) -> (r: State)
    ensures
        r@ == verify_each_requires_spec(
            crate::ast::exprs_view(reqs@),
            name@,
            span,
            crate::ast::named_exprs_view(subs@),
            crate::ast::exprs_view(facts@),
            env@,
            cx@,
            st@,
            0,
        ),
        crate::state::follows(st@, r@),
        crate::state::balanced(st@, r@),
        crate::state::same_facts(st@, r@),
{
    let ghost whole_run = verify_each_requires_spec(
        crate::ast::exprs_view(reqs@),
        name@,
        span,
        crate::ast::named_exprs_view(subs@),
        crate::ast::exprs_view(facts@),
        env@,
        cx@,
        st@,
        0,
    );
    let ghost start_st = st@;
    let mut st = st;
    let mut i: usize = 0;
    while i < reqs.len()
        invariant
            i <= reqs.len(),
            verify_each_requires_spec(
                crate::ast::exprs_view(reqs@),
                name@,
                span,
                crate::ast::named_exprs_view(subs@),
                crate::ast::exprs_view(facts@),
                env@,
                cx@,
                st@,
                i as int,
            ) == whole_run,
            crate::state::follows(start_st, st@),
            crate::state::balanced(start_st, st@),
            crate::state::same_facts(start_st, st@),
        decreases reqs.len() - i,
    {
        let req = &reqs[i];
        st = {
            let goal = substitute_expr(req, subs);
            match prove_with_calls(&goal, facts, env, cx, st) {
                (Verdict::Disproven { counterexample }, st) => {
                    let message = match counterexample {
                        Some(c) => cat5(
                            "argument to '",
                            name,
                            "' violates its 'requires' clause [counterexample: ",
                            &c,
                            "]",
                        ),
                        None => cat3(
                            "argument to '",
                            name,
                            "' violates its 'requires' clause (SMT counterexample)",
                        ),
                    };
                    report_note(st, span, message, req.span, text("callee precondition"))
                },
                (_, st) => st,
            }
        };
        i += 1;
    }
    st
}

/// What [`verify_call_args_in_expr`] computes.
pub open spec fn verify_call_args_in_expr_spec(
    e: ExprView,
    facts: Seq<ExprView>,
    env: EnvView,
    cx: ContextView,
    st: StateView,
) -> StateView
    decreases e, 0int,
{
    match e.kind {
        ExprKindView::Call { name, args, .. } => {
            let st = verify_call_args_in_exprs_spec(args, facts, env, cx, st, 0);
            match crate::scope::signature_get_spec(cx.signatures, name) {
                Some(sig) => if args.len() != sig.params.len() {
                    st
                } else {
                    let subs = crate::rewrite::bind_args_spec(
                        sig.param_names,
                        args,
                        Seq::empty(),
                        0,
                    );
                    verify_each_requires_spec(
                        sig.requires,
                        name,
                        e.span,
                        subs,
                        facts,
                        env,
                        cx,
                        st,
                        0,
                    )
                },
                None => st,
            }
        },
        ExprKindView::Unary { expr, .. } => verify_call_args_in_expr_spec(
            *expr,
            facts,
            env,
            cx,
            st,
        ),
        ExprKindView::Binary { left, right, .. } => {
            let st = verify_call_args_in_expr_spec(*left, facts, env, cx, st);
            verify_call_args_in_expr_spec(*right, facts, env, cx, st)
        },
        ExprKindView::Cast { expr, .. } => verify_call_args_in_expr_spec(*expr, facts, env, cx, st),
        ExprKindView::Index { array, index } => {
            let st = verify_call_args_in_expr_spec(*array, facts, env, cx, st);
            verify_call_args_in_expr_spec(*index, facts, env, cx, st)
        },
        ExprKindView::Len { array } => verify_call_args_in_expr_spec(*array, facts, env, cx, st),
        ExprKindView::ArrayLit { elements } => verify_call_args_in_exprs_spec(
            elements,
            facts,
            env,
            cx,
            st,
            0,
        ),
        ExprKindView::Ref { inner } => verify_call_args_in_expr_spec(*inner, facts, env, cx, st),
        ExprKindView::RefMut { inner } => verify_call_args_in_expr_spec(*inner, facts, env, cx, st),
        _ => st,
    }
}

/// Checks what the functions called in an expression require.
pub fn verify_call_args_in_expr(
    e: &Expr,
    facts: &Vec<Expr>,
    env: &Env,
    cx: &Context,
    st: State,
) -> (r: State)
    ensures
        r@ == verify_call_args_in_expr_spec(e@, crate::ast::exprs_view(facts@), env@, cx@, st@),
        crate::state::follows(st@, r@),
        crate::state::balanced(st@, r@),
        crate::state::same_facts(st@, r@),
    decreases e, 0int,
{
    match &e.kind {
        ExprKind::Call { name, args, .. } => {
            let st = verify_call_args_in_exprs(args, facts, env, cx, st);
            match signature_get(&cx.signatures, name) {
                Some(sig) => if args.len() != sig.params.len() {
                    st
                } else {
                    let subs = bind_args(&sig.param_names, args, Vec::new());
                    verify_each_requires(&sig.requires, name, e.span, &subs, facts, env, cx, st)
                },
                None => st,
            }
        },
        ExprKind::Unary { expr, .. } => verify_call_args_in_expr(&**expr, facts, env, cx, st),
        ExprKind::Binary { left, right, .. } => {
            let st = verify_call_args_in_expr(&**left, facts, env, cx, st);
            verify_call_args_in_expr(&**right, facts, env, cx, st)
        },
        ExprKind::Cast { expr, .. } => verify_call_args_in_expr(&**expr, facts, env, cx, st),
        ExprKind::Index { array, index } => {
            let st = verify_call_args_in_expr(&**array, facts, env, cx, st);
            verify_call_args_in_expr(&**index, facts, env, cx, st)
        },
        ExprKind::Len { array } => verify_call_args_in_expr(&**array, facts, env, cx, st),
        ExprKind::ArrayLit { elements } => verify_call_args_in_exprs(elements, facts, env, cx, st),
        ExprKind::Ref { inner } => verify_call_args_in_expr(&**inner, facts, env, cx, st),
        ExprKind::RefMut { inner } => verify_call_args_in_expr(&**inner, facts, env, cx, st),
        _ => st,
    }
}

/// What [`verify_call_args_in_exprs`] computes from position `i` on.
pub open spec fn verify_call_args_in_exprs_spec(
    es: Seq<ExprView>,
    facts: Seq<ExprView>,
    env: EnvView,
    cx: ContextView,
    st: StateView,
    i: int,
) -> StateView
    decreases es, es.len() - i,
{
    if 0 <= i < es.len() {
        let e = es[i];
        let st = verify_call_args_in_expr_spec(e, facts, env, cx, st);
        verify_call_args_in_exprs_spec(es, facts, env, cx, st, i + 1)
    } else {
        st
    }
}

/// Checks the demands of the calls in expressions.
pub fn verify_call_args_in_exprs(
    es: &Vec<Expr>,
    facts: &Vec<Expr>,
    env: &Env,
    cx: &Context,
    st: State,
) -> (r: State)
    ensures
        r@ == verify_call_args_in_exprs_spec(
            crate::ast::exprs_view(es@),
            crate::ast::exprs_view(facts@),
            env@,
            cx@,
            st@,
            0,
        ),
        crate::state::follows(st@, r@),
        crate::state::balanced(st@, r@),
        crate::state::same_facts(st@, r@),
    decreases es, es.len(),
{
    let ghost whole_run = verify_call_args_in_exprs_spec(
        crate::ast::exprs_view(es@),
        crate::ast::exprs_view(facts@),
        env@,
        cx@,
        st@,
        0,
    );
    let ghost start_st = st@;
    let mut st = st;
    let mut i: usize = 0;
    while i < es.len()
        invariant
            i <= es.len(),
            verify_call_args_in_exprs_spec(
                crate::ast::exprs_view(es@),
                crate::ast::exprs_view(facts@),
                env@,
                cx@,
                st@,
                i as int,
            ) == whole_run,
            crate::state::follows(start_st, st@),
            crate::state::balanced(start_st, st@),
            crate::state::same_facts(start_st, st@),
        decreases es.len() - i,
    {
        let e = &es[i];
        st = verify_call_args_in_expr(e, facts, env, cx, st);
        i += 1;
    }
    st
}

/// What [`verify_call_args`] computes.
#[verifier::opaque]
pub open spec fn verify_call_args_spec(e: ExprView, cx: ContextView, st: StateView) -> StateView
{
    if cx.verify {
        let facts = (st.facts);
        let env = st.env;
        verify_call_args_in_expr_spec(e, facts, env, cx, st)
    } else {
        st
    }
}

/// [`verify_call_args_in_expr`] under the present facts.
pub fn verify_call_args(e: &Expr, cx: &Context, st: State) -> (r: State)
    ensures
        r@ == verify_call_args_spec(e@, cx@, st@),
        crate::state::follows(st@, r@),
        crate::state::balanced(st@, r@),
        crate::state::same_facts(st@, r@),
{
    proof {
        reveal(verify_call_args_spec);
    }
    if cx.verify {
        let facts = dup_exprs(&st.facts);
        let env = st.env.dup();
        verify_call_args_in_expr(e, &facts, &env, cx, st)
    } else {
        st
    }
}

/// What [`shows`] computes.
pub open spec fn shows_spec(
    op: BinaryOp,
    left: ExprView,
    right: ExprView,
    span: Span,
    facts: Seq<ExprView>,
    env: EnvView,
    cx: ContextView,
    st: StateView,
) -> (bool, StateView)
{
    let goal = crate::construct::mk_binary_spec(op, left, right, span);
    let (v, st) = prove_with_calls_spec(goal, facts, env, cx, st);
    (is_proven_spec(v), st)
}

/// Whether the prover shows a comparison.
pub fn shows(
    op: BinaryOp,
    left: Expr,
    right: Expr,
    span: Span,
    facts: &Vec<Expr>,
    env: &Env,
    cx: &Context,
    st: State,
) -> (r: (bool, State))
    ensures
        (r.0, r.1@) == shows_spec(
            op,
            left@,
            right@,
            span,
            crate::ast::exprs_view(facts@),
            env@,
            cx@,
            st@,
        ),
        crate::state::follows(st@, r.1@),
        crate::state::balanced(st@, r.1@),
        crate::state::same_facts(st@, r.1@),
{
    let goal = mk_binary(op, left, right, span);
    let (v, st) = prove_with_calls(&goal, facts, env, cx, st);
    (is_proven(&v), st)
}

/// What [`index_in_bounds`] computes.
pub open spec fn index_in_bounds_spec(
    array: TypedExprView,
    index: TypedExprView,
    span: Span,
    facts: Seq<ExprView>,
    env: EnvView,
    cx: ContextView,
    st: StateView,
) -> (bool, StateView)
{
    let at = crate::rewrite::typed_to_expr_spec(index);
    let length = crate::construct::mk_len_spec(crate::rewrite::typed_to_expr_spec(array), span);
    let unsigned = if crate::types::is_u64_spec(index.ty) { at } else { crate::construct::mk_cast_spec(at, TypeView::U64, span) };
    let (upper, st) = shows_spec(BinaryOp::Lt, unsigned, length, span, facts, env, cx, st);
    if crate::types::is_signed_integer_spec(index.ty) {
        let (lower, st) = shows_spec(
            BinaryOp::Ge,
            at,
            crate::construct::mk_int_spec(0, span),
            span,
            facts,
            env,
            cx,
            st,
        );
        (upper && lower, st)
    } else {
        (upper, st)
    }
}

/// Whether an index is shown to lie within its array.
pub fn index_in_bounds(
    array: &TypedExpr,
    index: &TypedExpr,
    span: Span,
    facts: &Vec<Expr>,
    env: &Env,
    cx: &Context,
    st: State,
) -> (r: (bool, State))
    ensures
        (r.0, r.1@) == index_in_bounds_spec(
            array@,
            index@,
            span,
            crate::ast::exprs_view(facts@),
            env@,
            cx@,
            st@,
        ),
        crate::state::follows(st@, r.1@),
        crate::state::balanced(st@, r.1@),
        crate::state::same_facts(st@, r.1@),
{
    let at = typed_to_expr(index);
    let length = mk_len(typed_to_expr(array), span);
    let unsigned = if is_u64(&index.ty) { at.dup() } else { mk_cast(at.dup(), Type::U64, span) };
    let (upper, st) = shows(BinaryOp::Lt, unsigned, length, span, facts, env, cx, st);
    if is_signed_integer(&index.ty) {
        let (lower, st) = shows(BinaryOp::Ge, at, mk_int(0, span), span, facts, env, cx, st);
        (upper && lower, st)
    } else {
        (upper, st)
    }
}

/// What [`operation_is_safe`] computes.
pub open spec fn operation_is_safe_spec(
    op: BinaryOp,
    left: TypedExprView,
    right: TypedExprView,
    span: Span,
    facts: Seq<ExprView>,
    env: EnvView,
    cx: ContextView,
    st: StateView,
) -> (bool, StateView)
{
    match op {
        BinaryOp::Div | BinaryOp::Rem => {
            let zero = if crate::types::is_float_spec(right.ty) { crate::construct::mk_float_spec(crate::scope::float_zero_spec(), span) } else { crate::construct::mk_int_spec(0, span) };
            shows_spec(
                BinaryOp::Ne,
                crate::rewrite::typed_to_expr_spec(right),
                zero,
                span,
                facts,
                env,
                cx,
                st,
            )
        },
        BinaryOp::Shl | BinaryOp::Shr => match crate::types::type_bits_spec(left.ty) {
            None => (false, st),
            Some(bits) => {
                let count = crate::rewrite::typed_to_expr_spec(right);
                let (upper, st) = shows_spec(
                    BinaryOp::Lt,
                    count,
                    crate::construct::mk_int_spec(bits as i128, span),
                    span,
                    facts,
                    env,
                    cx,
                    st,
                );
                if crate::types::is_signed_integer_spec(right.ty) {
                    let (lower, st) = shows_spec(
                        BinaryOp::Ge,
                        count,
                        crate::construct::mk_int_spec(0, span),
                        span,
                        facts,
                        env,
                        cx,
                        st,
                    );
                    (upper && lower, st)
                } else {
                    (upper, st)
                }
            },
        },
        _ => (false, st),
    }
}

/// Whether a division or shift is shown to need no check.
pub fn operation_is_safe(
    op: BinaryOp,
    left: &TypedExpr,
    right: &TypedExpr,
    span: Span,
    facts: &Vec<Expr>,
    env: &Env,
    cx: &Context,
    st: State,
) -> (r: (bool, State))
    ensures
        (r.0, r.1@) == operation_is_safe_spec(
            op,
            left@,
            right@,
            span,
            crate::ast::exprs_view(facts@),
            env@,
            cx@,
            st@,
        ),
        crate::state::follows(st@, r.1@),
        crate::state::balanced(st@, r.1@),
        crate::state::same_facts(st@, r.1@),
{
    match op {
        BinaryOp::Div | BinaryOp::Rem => {
            let zero = if is_float(&right.ty) { mk_float(float_zero(), span) } else { mk_int(0, span) };
            shows(BinaryOp::Ne, typed_to_expr(right), zero, span, facts, env, cx, st)
        },
        BinaryOp::Shl | BinaryOp::Shr => match type_bits(&left.ty) {
            None => (false, st),
            Some(bits) => {
                let count = typed_to_expr(right);
                let (upper, st) = shows(
                    BinaryOp::Lt,
                    count.dup(),
                    mk_int(bits as i128, span),
                    span,
                    facts,
                    env,
                    cx,
                    st,
                );
                if is_signed_integer(&right.ty) {
                    let (lower, st) = shows(
                        BinaryOp::Ge,
                        count,
                        mk_int(0, span),
                        span,
                        facts,
                        env,
                        cx,
                        st,
                    );
                    (upper && lower, st)
                } else {
                    (upper, st)
                }
            },
        },
        _ => (false, st),
    }
}

/// What [`elide_bounds`] computes.
pub open spec fn elide_bounds_spec(
    e: TypedExprView,
    facts: Seq<ExprView>,
    env: EnvView,
    cx: ContextView,
    st: StateView,
) -> (TypedExprView, StateView)
    decreases e, 0int,
{
    match e.kind {
        TypedExprKindView::Index { array, index, checked } => {
            let (array, st) = elide_bounds_spec(*array, facts, env, cx, st);
            let (index, st) = elide_bounds_spec(*index, facts, env, cx, st);
            let (safe, st) = if checked {
                index_in_bounds_spec(array, index, e.span, facts, env, cx, st)
            } else {
                (true, st)
            };
            let kind = TypedExprKindView::Index {
                array: Box::new(array),
                index: Box::new(index),
                checked: checked && !safe,
            };
            (TypedExprView { kind, ..e }, st)
        },
        TypedExprKindView::Unary { op, expr } => {
            let (x, st) = elide_bounds_spec(*expr, facts, env, cx, st);
            let kind = TypedExprKindView::Unary { op: op, expr: Box::new(x) };
            (TypedExprView { kind, ..e }, st)
        },
        TypedExprKindView::Binary { op, left, right, checked } => {
            let (l, st) = elide_bounds_spec(*left, facts, env, cx, st);
            let (r, st) = elide_bounds_spec(*right, facts, env, cx, st);
            let (safe, st) = if checked {
                operation_is_safe_spec(op, l, r, e.span, facts, env, cx, st)
            } else {
                (true, st)
            };
            let kind = TypedExprKindView::Binary {
                op: op,
                left: Box::new(l),
                right: Box::new(r),
                checked: checked && !safe,
            };
            (TypedExprView { kind, ..e }, st)
        },
        TypedExprKindView::Call { name, name_span, args } => {
            let (kept, st) = elide_bounds_list_spec(args, facts, env, cx, Seq::empty(), st, 0);
            let kind = TypedExprKindView::Call { name: name, name_span: name_span, args: kept };
            (TypedExprView { kind, ..e }, st)
        },
        TypedExprKindView::Cast { expr, ty } => {
            let (x, st) = elide_bounds_spec(*expr, facts, env, cx, st);
            let kind = TypedExprKindView::Cast { expr: Box::new(x), ty: ty };
            (TypedExprView { kind, ..e }, st)
        },
        TypedExprKindView::Len { array, length } => {
            let (x, st) = elide_bounds_spec(*array, facts, env, cx, st);
            let kind = TypedExprKindView::Len { array: Box::new(x), length: length };
            (TypedExprView { kind, ..e }, st)
        },
        TypedExprKindView::ArrayLit { elements } => {
            let (elements, st) = elide_bounds_list_spec(
                elements,
                facts,
                env,
                cx,
                Seq::empty(),
                st,
                0,
            );
            (TypedExprView { kind: TypedExprKindView::ArrayLit { elements }, ..e }, st)
        },
        _ => (e, st),
    }
}

/// The expression with the run-time checks removed that the prover shows to be
/// unneeded.
pub fn elide_bounds(
    e: &TypedExpr,
    facts: &Vec<Expr>,
    env: &Env,
    cx: &Context,
    st: State,
) -> (r: (TypedExpr, State))
    ensures
        (r.0@, r.1@) == elide_bounds_spec(e@, crate::ast::exprs_view(facts@), env@, cx@, st@),
        r.0@.ty == e@.ty,
        r.0@.constant == e@.constant,
        crate::state::follows(st@, r.1@),
        crate::state::balanced(st@, r.1@),
        crate::state::same_facts(st@, r.1@),
        crate::typing::well_typed(e@, crate::typing::declared_in(cx@, st@.env))
            && st@.env.scopes.len() > 0
            && crate::typing::quiet(st@, r.1@)
            ==> crate::typing::well_typed(r.0@, crate::typing::declared_in(cx@, st@.env)),
    decreases e, 0int,
{
    proof {
        reveal(crate::typing::well_typed);
    }
    match &e.kind {
        TypedExprKind::Index { array, index, checked } => {
            let (array, st) = elide_bounds(&**array, facts, env, cx, st);
            let (index, st) = elide_bounds(&**index, facts, env, cx, st);
            let (safe, st) = if *checked {
                index_in_bounds(&array, &index, e.span, facts, env, cx, st)
            } else {
                (true, st)
            };
            let kind = TypedExprKind::Index {
                array: Box::new(array),
                index: Box::new(index),
                checked: *checked && !safe,
            };
            (TypedExpr { kind, ..e.dup() }, st)
        },
        TypedExprKind::Unary { op, expr } => {
            let (x, st) = elide_bounds(&**expr, facts, env, cx, st);
            let kind = TypedExprKind::Unary { op: *op, expr: Box::new(x) };
            (TypedExpr { kind, ..e.dup() }, st)
        },
        TypedExprKind::Binary { op, left, right, checked } => {
            let (l, st) = elide_bounds(&**left, facts, env, cx, st);
            let (r, st) = elide_bounds(&**right, facts, env, cx, st);
            let (safe, st) = if *checked {
                operation_is_safe(*op, &l, &r, e.span, facts, env, cx, st)
            } else {
                (true, st)
            };
            let kind = TypedExprKind::Binary {
                op: *op,
                left: Box::new(l),
                right: Box::new(r),
                checked: *checked && !safe,
            };
            (TypedExpr { kind, ..e.dup() }, st)
        },
        TypedExprKind::Call { name, name_span, args } => {
            let (kept, st) = elide_bounds_list(args, facts, env, cx, Vec::new(), st);
            proof {
                assert forall|d: Declared| #[trigger] crate::typing::well_typed(
                    e@,
                    d,
                ) implies crate::typing::call_fits(
                    name@,
                    crate::ir::typed_exprs_view(kept@),
                    e@.ty,
                    d,
                ) by {
                    crate::typing::same_types_fit(
                        name@,
                        crate::ir::typed_exprs_view(args@),
                        crate::ir::typed_exprs_view(kept@),
                        e@.ty,
                        d,
                    );
                }
            }
            let kind = TypedExprKind::Call {
                name: name.clone(),
                name_span: *name_span,
                args: kept,
            };
            (TypedExpr { kind, ..e.dup() }, st)
        },
        TypedExprKind::Cast { expr, ty } => {
            let (x, st) = elide_bounds(&**expr, facts, env, cx, st);
            let kind = TypedExprKind::Cast { expr: Box::new(x), ty: ty.dup() };
            (TypedExpr { kind, ..e.dup() }, st)
        },
        TypedExprKind::Len { array, length } => {
            let (x, st) = elide_bounds(&**array, facts, env, cx, st);
            let kind = TypedExprKind::Len { array: Box::new(x), length: *length };
            (TypedExpr { kind, ..e.dup() }, st)
        },
        TypedExprKind::ArrayLit { elements } => {
            let (elements, st) = elide_bounds_list(elements, facts, env, cx, Vec::new(), st);
            (TypedExpr { kind: TypedExprKind::ArrayLit { elements }, ..e.dup() }, st)
        },
        _ => (e.dup(), st),
    }
}

/// What [`elide_bounds_list`] computes from position `i` on.
pub open spec fn elide_bounds_list_spec(
    es: Seq<TypedExprView>,
    facts: Seq<ExprView>,
    env: EnvView,
    cx: ContextView,
    out: Seq<TypedExprView>,
    st: StateView,
    i: int,
) -> (Seq<TypedExprView>, StateView)
    decreases es, es.len() - i,
{
    if 0 <= i < es.len() {
        let e = es[i];
        let (out, st) = {
            let (x, st) = elide_bounds_spec(e, facts, env, cx, st);
            (out.push(x), st)
        };
        elide_bounds_list_spec(es, facts, env, cx, out, st, i + 1)
    } else {
        (out, st)
    }
}

/// Adds expressions without the checks that are proved to hold.
pub fn elide_bounds_list(
    es: &Vec<TypedExpr>,
    facts: &Vec<Expr>,
    env: &Env,
    cx: &Context,
    out: Vec<TypedExpr>,
    st: State,
) -> (r: (Vec<TypedExpr>, State))
    ensures
        (crate::ir::typed_exprs_view(r.0@), r.1@) == elide_bounds_list_spec(
            crate::ir::typed_exprs_view(es@),
            crate::ast::exprs_view(facts@),
            env@,
            cx@,
            crate::ir::typed_exprs_view(out@),
            st@,
            0,
        ),
        out@.len() == 0 ==> crate::ir::typed_exprs_view(r.0@).len() == es@.len()
            && forall|j: int| 0 <= j < es@.len()
            ==> (#[trigger] crate::ir::typed_exprs_view(r.0@)[j]).ty == crate::ir::typed_exprs_view(es@)[j].ty,
        crate::state::follows(st@, r.1@),
        crate::state::balanced(st@, r.1@),
        crate::state::same_facts(st@, r.1@),
        crate::typing::all_typed(
            crate::ir::typed_exprs_view(es@),
            crate::typing::declared_in(cx@, st@.env),
        )
            && crate::typing::all_typed(
                crate::ir::typed_exprs_view(out@),
                crate::typing::declared_in(cx@, st@.env),
            )
            && st@.env.scopes.len() > 0
            && crate::typing::quiet(st@, r.1@)
            ==> crate::typing::all_typed(
                crate::ir::typed_exprs_view(r.0@),
                crate::typing::declared_in(cx@, st@.env),
            ),
    decreases es, es.len(),
{
    let ghost whole_run = elide_bounds_list_spec(
        crate::ir::typed_exprs_view(es@),
        crate::ast::exprs_view(facts@),
        env@,
        cx@,
        crate::ir::typed_exprs_view(out@),
        st@,
        0,
    );
    let ghost start_st = st@;
    let ghost start_out = crate::ir::typed_exprs_view(out@);
    proof {
        reveal(crate::typing::well_typed);
    }
    let mut out = out;
    let mut st = st;
    let mut i: usize = 0;
    while i < es.len()
        invariant
            i <= es.len(),
            elide_bounds_list_spec(
                crate::ir::typed_exprs_view(es@),
                crate::ast::exprs_view(facts@),
                env@,
                cx@,
                crate::ir::typed_exprs_view(out@),
                st@,
                i as int,
            ) == whole_run,
            crate::state::follows(start_st, st@),
            crate::state::balanced(start_st, st@),
            crate::state::same_facts(start_st, st@),
            start_out.len() == 0 ==> crate::ir::typed_exprs_view(out@).len() == i
                && forall|j: int| 0 <= j < i
                ==> (#[trigger] crate::ir::typed_exprs_view(out@)[j]).ty == crate::ir::typed_exprs_view(es@)[j].ty,
            crate::typing::all_typed(
                crate::ir::typed_exprs_view(es@),
                crate::typing::declared_in(cx@, start_st.env),
            )
                && crate::typing::all_typed(
                    start_out,
                    crate::typing::declared_in(cx@, start_st.env),
                )
                && start_st.env.scopes.len() > 0
                && crate::typing::quiet(start_st, st@)
                ==> crate::typing::all_typed(
                    crate::ir::typed_exprs_view(out@),
                    crate::typing::declared_in(cx@, start_st.env),
                ),
        decreases es.len() - i,
    {
        let e = &es[i];
        let next = {
            let (x, st) = elide_bounds(e, facts, env, cx, st);
            (push(out, x), st)
        };
        out = next.0;
        st = next.1;
        i += 1;
    }
    (out, st)
}

/// What [`try_elide_bounds_in_typed_expr`] computes.
#[verifier::opaque]
pub open spec fn try_elide_bounds_in_typed_expr_spec(
    e: TypedExprView,
    cx: ContextView,
    st: StateView,
) -> (TypedExprView, StateView)
{
    if cx.verify {
        let facts = (st.facts);
        let env = st.env;
        elide_bounds_spec(e, facts, env, cx, st)
    } else {
        (e, st)
    }
}

/// [`elide_bounds`] under the present facts, where obligations are checked.
pub fn try_elide_bounds_in_typed_expr(
    e: TypedExpr,
    cx: &Context,
    st: State,
) -> (r: (TypedExpr, State))
    ensures
        (r.0@, r.1@) == try_elide_bounds_in_typed_expr_spec(e@, cx@, st@),
        r.0@.ty == e@.ty,
        crate::state::follows(st@, r.1@),
        crate::state::balanced(st@, r.1@),
        crate::state::same_facts(st@, r.1@),
        crate::typing::well_typed(e@, crate::typing::declared_in(cx@, st@.env))
            && st@.env.scopes.len() > 0
            && crate::typing::quiet(st@, r.1@)
            ==> crate::typing::well_typed(r.0@, crate::typing::declared_in(cx@, st@.env)),
{
    proof {
        reveal(try_elide_bounds_in_typed_expr_spec); reveal(crate::typing::well_typed);
    }
    if cx.verify {
        let facts = dup_exprs(&st.facts);
        let env = st.env.dup();
        elide_bounds(&e, &facts, &env, cx, st)
    } else {
        (e, st)
    }
}

/// Answers of which none says that anything was proven.
pub open spec fn nothing_proven(answers: Seq<AnswerView>) -> bool {
    forall|k: int|
        0 <= k < answers.len() ==> !((#[trigger] answers[k]) matches AnswerView::Verdict(
            VerdictView::Proven,
        ))
}

/// A state without an answer that says that anything was proven.
pub open spec fn without_proof(st: StateView) -> bool {
    0 <= st.used && nothing_proven(st.answers)
}

proof fn shows_nothing(
    op: BinaryOp,
    left: ExprView,
    right: ExprView,
    span: Span,
    facts: Seq<ExprView>,
    env: EnvView,
    cx: ContextView,
    st: StateView,
)
    requires
        without_proof(st),
    ensures
        !shows_spec(op, left, right, span, facts, env, cx, st).0,
        without_proof(shows_spec(op, left, right, span, facts, env, cx, st).1),
{
    let goal = crate::construct::mk_binary_spec(op, left, right, span);
    let query = prove_query_spec(goal, facts, env, cx, Seq::empty()).0;
    if st.used < st.answers.len() {
        assert(crate::scope::ask_spec(query, st).0 == Some(st.answers[st.used as int]));
    }
}

proof fn index_not_shown(
    array: TypedExprView,
    index: TypedExprView,
    span: Span,
    facts: Seq<ExprView>,
    env: EnvView,
    cx: ContextView,
    st: StateView,
)
    requires
        without_proof(st),
    ensures
        !index_in_bounds_spec(array, index, span, facts, env, cx, st).0,
        without_proof(index_in_bounds_spec(array, index, span, facts, env, cx, st).1),
{
    let at = crate::rewrite::typed_to_expr_spec(index);
    let length = crate::construct::mk_len_spec(crate::rewrite::typed_to_expr_spec(array), span);
    let unsigned = if crate::types::is_u64_spec(index.ty) {
        at
    } else {
        crate::construct::mk_cast_spec(at, TypeView::U64, span)
    };
    shows_nothing(BinaryOp::Lt, unsigned, length, span, facts, env, cx, st);
    let next = shows_spec(BinaryOp::Lt, unsigned, length, span, facts, env, cx, st).1;
    shows_nothing(
        BinaryOp::Ge,
        at,
        crate::construct::mk_int_spec(0, span),
        span,
        facts,
        env,
        cx,
        next,
    );
}

proof fn operation_not_shown(
    op: BinaryOp,
    left: TypedExprView,
    right: TypedExprView,
    span: Span,
    facts: Seq<ExprView>,
    env: EnvView,
    cx: ContextView,
    st: StateView,
)
    requires
        without_proof(st),
    ensures
        !operation_is_safe_spec(op, left, right, span, facts, env, cx, st).0,
        without_proof(operation_is_safe_spec(op, left, right, span, facts, env, cx, st).1),
{
    match op {
        BinaryOp::Div | BinaryOp::Rem => {
            let zero = if crate::types::is_float_spec(right.ty) {
                crate::construct::mk_float_spec(crate::scope::float_zero_spec(), span)
            } else {
                crate::construct::mk_int_spec(0, span)
            };
            shows_nothing(
                BinaryOp::Ne,
                crate::rewrite::typed_to_expr_spec(right),
                zero,
                span,
                facts,
                env,
                cx,
                st,
            );
        },
        BinaryOp::Shl | BinaryOp::Shr => match crate::types::type_bits_spec(left.ty) {
            None => {},
            Some(bits) => {
                let count = crate::rewrite::typed_to_expr_spec(right);
                let most = crate::construct::mk_int_spec(bits as i128, span);
                shows_nothing(BinaryOp::Lt, count, most, span, facts, env, cx, st);
                let next = shows_spec(BinaryOp::Lt, count, most, span, facts, env, cx, st).1;
                shows_nothing(
                    BinaryOp::Ge,
                    count,
                    crate::construct::mk_int_spec(0, span),
                    span,
                    facts,
                    env,
                    cx,
                    next,
                );
            },
        },
        _ => {},
    }
}

proof fn checks_kept(
    e: TypedExprView,
    facts: Seq<ExprView>,
    env: EnvView,
    cx: ContextView,
    st: StateView,
)
    requires
        without_proof(st),
    ensures
        elide_bounds_spec(e, facts, env, cx, st).0 == e,
        without_proof(elide_bounds_spec(e, facts, env, cx, st).1),
    decreases e, 0int,
{
    match e.kind {
        TypedExprKindView::Index { array, index, checked } => {
            checks_kept(*array, facts, env, cx, st);
            let st = elide_bounds_spec(*array, facts, env, cx, st).1;
            checks_kept(*index, facts, env, cx, st);
            let st = elide_bounds_spec(*index, facts, env, cx, st).1;
            index_not_shown(*array, *index, e.span, facts, env, cx, st);
        },
        TypedExprKindView::Unary { expr, .. } => {
            checks_kept(*expr, facts, env, cx, st);
        },
        TypedExprKindView::Binary { op, left, right, checked } => {
            checks_kept(*left, facts, env, cx, st);
            let st = elide_bounds_spec(*left, facts, env, cx, st).1;
            checks_kept(*right, facts, env, cx, st);
            let st = elide_bounds_spec(*right, facts, env, cx, st).1;
            operation_not_shown(op, *left, *right, e.span, facts, env, cx, st);
        },
        TypedExprKindView::Call { args, .. } => {
            checks_kept_in_list(args, facts, env, cx, Seq::empty(), st, 0);
            assert(Seq::empty() + args.subrange(0, args.len() as int) =~= args);
        },
        TypedExprKindView::Cast { expr, .. } => {
            checks_kept(*expr, facts, env, cx, st);
        },
        TypedExprKindView::Len { array, .. } => {
            checks_kept(*array, facts, env, cx, st);
        },
        TypedExprKindView::ArrayLit { elements } => {
            checks_kept_in_list(elements, facts, env, cx, Seq::empty(), st, 0);
            assert(Seq::empty() + elements.subrange(0, elements.len() as int) =~= elements);
        },
        _ => {},
    }
}

proof fn checks_kept_in_list(
    es: Seq<TypedExprView>,
    facts: Seq<ExprView>,
    env: EnvView,
    cx: ContextView,
    out: Seq<TypedExprView>,
    st: StateView,
    i: int,
)
    requires
        0 <= i <= es.len(),
        without_proof(st),
    ensures
        elide_bounds_list_spec(es, facts, env, cx, out, st, i).0 == out + es.subrange(
            i,
            es.len() as int,
        ),
        without_proof(elide_bounds_list_spec(es, facts, env, cx, out, st, i).1),
    decreases es, es.len() - i,
{
    if i < es.len() {
        checks_kept(es[i], facts, env, cx, st);
        let next = elide_bounds_spec(es[i], facts, env, cx, st).1;
        checks_kept_in_list(es, facts, env, cx, out.push(es[i]), next, i + 1);
        assert(out.push(es[i]) + es.subrange(i + 1, es.len() as int) =~= out + es.subrange(
            i,
            es.len() as int,
        ));
    } else {
        assert(out + es.subrange(i, es.len() as int) =~= out);
    }
}

/// A run-time check is removed only on a proof: where no answer says that
/// anything was proven, or obligations are not asked about, every check stays.
pub proof fn checks_stay_without_proof(e: TypedExprView, cx: ContextView, st: StateView)
    requires
        without_proof(st) || !cx.verify,
    ensures
        try_elide_bounds_in_typed_expr_spec(e, cx, st).0 == e,
{
    reveal(try_elide_bounds_in_typed_expr_spec);
    if cx.verify {
        checks_kept(e, st.facts, st.env, cx, st);
    }
}

/// A claim that needs a prover is reported unless an answer says that it was
/// proven.
pub proof fn unproven_claim_is_reported(goal: ExprView, cx: ContextView, st: StateView)
    requires
        without_proof(st),
        cx.verify,
    ensures
        try_smt_prove_spec(goal, cx, st).diagnostics.len() == st.diagnostics.len() + 1,
{
    reveal(try_smt_prove_spec);
    let query = prove_query_spec(goal, st.facts, st.env, cx, Seq::empty()).0;
    if st.used < st.answers.len() {
        assert(crate::scope::ask_spec(query, st).0 == Some(st.answers[st.used as int]));
    }
}

} // verus!
