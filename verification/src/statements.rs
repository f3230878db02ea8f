//! Checking statements that hold no other statements, and the parts of the
//! others that come before and after their bodies.

use vstd::prelude::*;
use crate::ast::{
    BinaryOp, Expr, ExprKind, ExprKindView, ExprView, Function, FunctionView, PrintItem,
    PrintItemView, Reduction, ReductionOp, ReductionView, Span, Stmt, StmtView, Type, TypeView,
    dup_exprs, dup_named_exprs, dup_types, reduction_symbol, type_text,
};
use crate::calls::{
    count_name, index_error, no_such_field, try_elaborate_empty_vec, tuple_elements, var_name,
};
use crate::checker::{start_env};
use crate::construct::{mk_binary, mk_index, mk_int, mk_var};
use crate::effects::{
    add_name, branch_mutations, clear_constants_for, collect_branch_mutations,
    emit_current_scope_drops, field_names, forget_literals, validate_loop_balance,
    verify_pure_body,
};
use crate::exprs::{check_expr};
use crate::ir::{
    TypedConst, TypedConstView, TypedExpr, TypedExprKind, TypedExprKindView, TypedExprView,
    TypedMatchArm, TypedMatchArmView, TypedPrintItem, TypedPrintItemView, TypedReduction,
    TypedReductionView, TypedStmt, TypedStmtView,
};
use crate::moves::{
    consume_if_moved_var, diagnose_partial_then_whole_move, emit_drops_through_loop,
    inject_branch_drops, is_nested_field_access, take_value, validate_array_element_type,
};
use crate::numeric::{coerce_checked, dup_constant, require_type};
use crate::operators::{int_constant, struct_name_of, tuple_element};
use crate::prove::{
    index_in_bounds, try_elide_bounds_in_typed_expr, try_smt_prove, verify_call_args,
    verify_ensures_at_return, verify_loop_invariants, verify_loop_invariants_with_havoc,
    walk_for_reassigns,
};
use crate::rewrite::{
    any_mentions, copy_fact, forget, is_structurally_true, negate, no_span, pin_var_to_version,
    record_array_element_facts, record_ensures_facts, record_vec_builtin_facts, store_fact,
    typed_to_expr,
};
use crate::scope::{
    all_bindings, checked, copies, current_get, current_has, find_field, fresh_var, insert_current,
    lookup, lookup_struct, pop_scope, report, report_note, set_var, typed,
};
use crate::signatures::{extract_locked_mutex_name, validate_no_ref};
use crate::state::{
    CheckedExpr, CheckedExprView, Context, ContextView, Env, EnvView, LoopFrame, LoopFrameView,
    State, StateView, VarInfo, VarInfoView,
};
use crate::text::{
    cat2, cat3, cat4, cat5, cat6, cat7, contains_str, dup_strs, int_text, join, push, str_eq, text,
    usize_text,
};
use crate::types::{
    deref, is_array, is_bool, is_integer, is_owned_str, is_ref, is_task, is_vec, type_eq,
};
use crate::typing::{Declared};

verus! {

broadcast use {
    crate::text::group_text_views,
    crate::ast::group_ast_views,
    crate::diagnostic::group_diagnostic_views,
    crate::ir::group_ir_views,
    crate::state::group_state_views,
    crate::state::group_extends,
    crate::state::group_grows,
    crate::typing::leaves_are_typed,
    crate::typing::found_field_is_declared,
    crate::typing::found_name_is_listed,
};

/// Whether control never runs past the statements: they end with a `return`, a
/// `break` or a `continue`, or with an `if` whose branches both do.
pub open spec fn always_leaves(ss: Seq<TypedStmtView>) -> bool
    decreases ss,
{
    ss.len() > 0 && match ss[ss.len() - 1] {
        TypedStmtView::Return { .. } => true,
        TypedStmtView::Break => true,
        TypedStmtView::Continue => true,
        TypedStmtView::If { then_body, else_body, .. } => always_leaves(then_body) && always_leaves(
            else_body,
        ),
        _ => false,
    }
}

/// A branch that control never runs past gets no drop added.
pub proof fn left_branches_stay(
    bs: Seq<(Seq<char>, VarInfoView)>,
    then_env: EnvView,
    else_env: EnvView,
    then_terminated: bool,
    else_terminated: bool,
    cx: ContextView,
    then_stmts: Seq<TypedStmtView>,
    else_stmts: Seq<TypedStmtView>,
    env: EnvView,
    i: int,
)
    requires
        then_terminated || else_terminated,
        0 <= i <= bs.len(),
    ensures
        ({
            let r = merge_branches_spec(
                bs,
                then_env,
                else_env,
                then_terminated,
                else_terminated,
                cx,
                then_stmts,
                else_stmts,
                env,
                i,
            );
            r.0 == then_stmts && r.1 == else_stmts
        }),
    decreases bs.len() - i,
{
    reveal(merge_branches_spec);
    if i < bs.len() {
        let b = bs[i];
        let then_moved = moved_in_branch_spec(then_terminated, then_env, b.0, b.1.moved);
        let else_moved = moved_in_branch_spec(else_terminated, else_env, b.0, b.1.moved);
        let moved = if then_terminated && else_terminated {
            b.1.moved
        } else if then_terminated {
            else_moved
        } else {
            then_moved
        };
        let next = if crate::scope::copies_spec(b.1.ty, cx) {
            env
        } else {
            match crate::scope::lookup_spec(env, b.0) {
                Some(info) => crate::scope::set_var_spec(env, b.0, VarInfoView { moved, ..info }),
                None => env,
            }
        };
        left_branches_stay(
            bs,
            then_env,
            else_env,
            then_terminated,
            else_terminated,
            cx,
            then_stmts,
            else_stmts,
            next,
            i + 1,
        );
    }
}

/// What [`check_value`] computes.
#[verifier::opaque]
pub open spec fn check_value_spec(
    e: ExprView,
    cx: ContextView,
    st: StateView,
) -> (CheckedExprView, StateView)
{
    crate::exprs::check_expr_spec(e, cx, st)
}

/// [`check_expr`], for an expression that a statement holds.
pub fn check_value(e: &Expr, cx: &Context, st: State) -> (r: (CheckedExpr, State))
    ensures
        (r.0@, r.1@) == check_value_spec(e@, cx@, st@),
        crate::state::follows(st@, r.1@),
        crate::state::balanced(st@, r.1@),
        crate::state::same_facts(st@, r.1@),
        st@.env.scopes.len() > 0
            && crate::typing::quiet(st@, r.1@)
            ==> crate::typing::fits(r.0@, crate::typing::declared_in(cx@, st@.env)),
{
    proof {
        reveal(check_value_spec); reveal(crate::typing::stmt_typed);
    }
    check_expr(e, cx, st)
}

/// What [`captured_names`] computes.
#[verifier::opaque]
pub open spec fn captured_names_spec(ss: Seq<TypedStmtView>) -> Seq<Seq<char>>
{
    let (_, names) = captures_in_stmts_spec(ss, Seq::empty(), Seq::empty(), 0);
    names
}

/// The variables that a task's body takes from outside, in the order in which
/// they occur.
pub fn captured_names(ss: &Vec<TypedStmt>) -> (r: Vec<String>)
    ensures
        crate::text::strs_view(r@) == captured_names_spec(crate::ir::typed_stmts_view(ss@)),
{
    proof {
        reveal(captured_names_spec);
    }
    let (_, names) = captures_in_stmts(ss, Vec::new(), Vec::new());
    names
}

/// What [`verify_task_body`] computes.
#[verifier::opaque]
pub open spec fn verify_task_body_spec(
    ss: Seq<TypedStmtView>,
    cx: ContextView,
    st: StateView,
) -> StateView
{
    crate::effects::verify_pure_body_spec(ss, cx, "task body"@, st, 0)
}

/// [`verify_pure_body`] on a task's body.
pub fn verify_task_body(ss: &Vec<TypedStmt>, cx: &Context, st: State) -> (r: State)
    ensures
        r@ == verify_task_body_spec(crate::ir::typed_stmts_view(ss@), cx@, st@),
        crate::state::follows(st@, r@),
        crate::state::balanced(st@, r@),
{
    proof {
        reveal(verify_task_body_spec);
    }
    verify_pure_body(ss, cx, "task body", st)
}

/// What [`reassigned`] computes.
#[verifier::opaque]
pub open spec fn reassigned_spec(ss: Seq<StmtView>, env: EnvView) -> (
    Seq<(Seq<char>, ExprView)>,
    Seq<(Seq<char>, TypeView)>,
)
{
    crate::prove::walk_for_reassigns_spec(ss, env, Seq::empty(), Seq::empty(), 0)
}

/// The last values that a loop's body gives to variables, and the variables
/// of which nothing is known.
pub fn reassigned(ss: &Vec<Stmt>, env: &Env) -> (r: (Vec<(String, Expr)>, Vec<(String, Type)>))
    ensures
        (
            crate::ast::named_exprs_view(r.0@),
            crate::ir::named_types_view(r.1@),
        ) == reassigned_spec(crate::ast::stmts_view(ss@), env@),
{
    proof {
        reveal(reassigned_spec);
    }
    walk_for_reassigns(ss, env, Vec::new(), Vec::new())
}

/// What [`changed_in_branches`] computes.
#[verifier::opaque]
pub open spec fn changed_in_branches_spec(a: Seq<StmtView>, b: Seq<StmtView>) -> Seq<Seq<char>>
{
    crate::effects::branch_mutations_spec(b, crate::effects::collect_branch_mutations_spec(a), 0)
}

/// The variables that either branch may change.
pub fn changed_in_branches(a: &Vec<Stmt>, b: &Vec<Stmt>) -> (r: Vec<String>)
    ensures
        crate::text::strs_view(r@) == changed_in_branches_spec(
            crate::ast::stmts_view(a@),
            crate::ast::stmts_view(b@),
        ),
{
    proof {
        reveal(changed_in_branches_spec);
    }
    branch_mutations(b, collect_branch_mutations(a))
}

/// What [`use_name`] computes.
pub open spec fn use_name_spec(
    name: Seq<char>,
    declared: Seq<Seq<char>>,
    out: Seq<Seq<char>>,
) -> Seq<Seq<char>>
{
    if declared.contains(name) { out } else { crate::effects::add_name_spec(out, name) }
}

/// Adds a name that is used and was not declared inside.
pub fn use_name(name: &str, declared: &Vec<String>, out: Vec<String>) -> (r: Vec<String>)
    ensures
        crate::text::strs_view(r@) == use_name_spec(
            name@,
            crate::text::strs_view(declared@),
            crate::text::strs_view(out@),
        ),
{
    if contains_str(declared, name) { out } else { add_name(out, name) }
}

/// What [`captures_in_expr`] computes.
pub open spec fn captures_in_expr_spec(
    e: TypedExprView,
    declared: Seq<Seq<char>>,
    out: Seq<Seq<char>>,
) -> Seq<Seq<char>>
    decreases e, 0int,
{
    match e.kind {
        TypedExprKindView::Var(name) => use_name_spec(name, declared, out),
        TypedExprKindView::Ref { name } => use_name_spec(name, declared, out),
        TypedExprKindView::RefMut { name } => use_name_spec(name, declared, out),
        TypedExprKindView::RefField { object, .. } => use_name_spec(object, declared, out),
        TypedExprKindView::RefMutField { object, .. } => use_name_spec(object, declared, out),
        TypedExprKindView::Unary { expr, .. } => captures_in_expr_spec(*expr, declared, out),
        TypedExprKindView::Binary { left, right, .. } => {
            let out = captures_in_expr_spec(*left, declared, out);
            captures_in_expr_spec(*right, declared, out)
        },
        TypedExprKindView::Call { args, .. } => captures_in_exprs_spec(args, declared, out, 0),
        TypedExprKindView::Cast { expr, .. } => captures_in_expr_spec(*expr, declared, out),
        TypedExprKindView::ArrayLit { elements } => captures_in_exprs_spec(
            elements,
            declared,
            out,
            0,
        ),
        TypedExprKindView::Index { array, index, .. } => {
            let out = captures_in_expr_spec(*array, declared, out);
            captures_in_expr_spec(*index, declared, out)
        },
        TypedExprKindView::Len { array, .. } => captures_in_expr_spec(*array, declared, out),
        TypedExprKindView::CallIndirect { callee, args } => {
            let out = captures_in_expr_spec(*callee, declared, out);
            captures_in_exprs_spec(args, declared, out, 0)
        },
        TypedExprKindView::Tuple { elements } => captures_in_exprs_spec(elements, declared, out, 0),
        TypedExprKindView::TupleAccess { tuple, .. } => captures_in_expr_spec(
            *tuple,
            declared,
            out,
        ),
        TypedExprKindView::StructLit { fields, .. } => captures_in_fields_spec(
            fields,
            declared,
            out,
            0,
        ),
        TypedExprKindView::FieldAccess { object, .. } => captures_in_expr_spec(
            *object,
            declared,
            out,
        ),
        TypedExprKindView::EnumVariantWithPayload { payload, .. } => captures_in_expr_spec(
            *payload,
            declared,
            out,
        ),
        TypedExprKindView::Match { scrutinee, arms } => {
            let out = captures_in_expr_spec(*scrutinee, declared, out);
            captures_in_arms_spec(arms, declared, out, 0)
        },
        TypedExprKindView::IfExpr { cond, then_value, else_value } => {
            let out = captures_in_expr_spec(*cond, declared, out);
            let out = captures_in_expr_spec(*then_value, declared, out);
            captures_in_expr_spec(*else_value, declared, out)
        },
        TypedExprKindView::Block { stmts, tail } => {
            let (inner, out) = captures_in_stmts_spec(stmts, (declared), out, 0);
            captures_in_expr_spec(*tail, inner, out)
        },
        _ => out,
    }
}

/// Adds the variables that an expression takes from outside, in the order in
/// which they occur.
pub fn captures_in_expr(e: &TypedExpr, declared: &Vec<String>, out: Vec<String>) -> (r: Vec<String>)
    ensures
        crate::text::strs_view(r@) == captures_in_expr_spec(
            e@,
            crate::text::strs_view(declared@),
            crate::text::strs_view(out@),
        ),
    decreases e, 0int,
{
    match &e.kind {
        TypedExprKind::Var(name) => use_name(name, declared, out),
        TypedExprKind::Ref { name } => use_name(name, declared, out),
        TypedExprKind::RefMut { name } => use_name(name, declared, out),
        TypedExprKind::RefField { object, .. } => use_name(object, declared, out),
        TypedExprKind::RefMutField { object, .. } => use_name(object, declared, out),
        TypedExprKind::Unary { expr, .. } => captures_in_expr(&**expr, declared, out),
        TypedExprKind::Binary { left, right, .. } => {
            let out = captures_in_expr(&**left, declared, out);
            captures_in_expr(&**right, declared, out)
        },
        TypedExprKind::Call { args, .. } => captures_in_exprs(args, declared, out),
        TypedExprKind::Cast { expr, .. } => captures_in_expr(&**expr, declared, out),
        TypedExprKind::ArrayLit { elements } => captures_in_exprs(elements, declared, out),
        TypedExprKind::Index { array, index, .. } => {
            let out = captures_in_expr(&**array, declared, out);
            captures_in_expr(&**index, declared, out)
        },
        TypedExprKind::Len { array, .. } => captures_in_expr(&**array, declared, out),
        TypedExprKind::CallIndirect { callee, args } => {
            let out = captures_in_expr(&**callee, declared, out);
            captures_in_exprs(args, declared, out)
        },
        TypedExprKind::Tuple { elements } => captures_in_exprs(elements, declared, out),
        TypedExprKind::TupleAccess { tuple, .. } => captures_in_expr(&**tuple, declared, out),
        TypedExprKind::StructLit { fields, .. } => captures_in_fields(fields, declared, out),
        TypedExprKind::FieldAccess { object, .. } => captures_in_expr(&**object, declared, out),
        TypedExprKind::EnumVariantWithPayload { payload, .. } => captures_in_expr(
            &**payload,
            declared,
            out,
        ),
        TypedExprKind::Match { scrutinee, arms } => {
            let out = captures_in_expr(&**scrutinee, declared, out);
            captures_in_arms(arms, declared, out)
        },
        TypedExprKind::IfExpr { cond, then_value, else_value } => {
            let out = captures_in_expr(&**cond, declared, out);
            let out = captures_in_expr(&**then_value, declared, out);
            captures_in_expr(&**else_value, declared, out)
        },
        TypedExprKind::Block { stmts, tail } => {
            let (inner, out) = captures_in_stmts(stmts, dup_strs(declared), out);
            captures_in_expr(&**tail, &inner, out)
        },
        _ => out,
    }
}

/// What [`captures_in_exprs`] computes from position `i` on.
pub open spec fn captures_in_exprs_spec(
    es: Seq<TypedExprView>,
    declared: Seq<Seq<char>>,
    out: Seq<Seq<char>>,
    i: int,
) -> Seq<Seq<char>>
    decreases es, es.len() - i,
{
    if 0 <= i < es.len() {
        let e = es[i];
        let out = captures_in_expr_spec(e, declared, out);
        captures_in_exprs_spec(es, declared, out, i + 1)
    } else {
        out
    }
}

/// Adds the variables that expressions take from outside.
pub fn captures_in_exprs(
    es: &Vec<TypedExpr>,
    declared: &Vec<String>,
    out: Vec<String>,
) -> (r: Vec<String>)
    ensures
        crate::text::strs_view(r@) == captures_in_exprs_spec(
            crate::ir::typed_exprs_view(es@),
            crate::text::strs_view(declared@),
            crate::text::strs_view(out@),
            0,
        ),
    decreases es, es.len(),
{
    let ghost whole_run = captures_in_exprs_spec(
        crate::ir::typed_exprs_view(es@),
        crate::text::strs_view(declared@),
        crate::text::strs_view(out@),
        0,
    );
    let mut out = out;
    let mut i: usize = 0;
    while i < es.len()
        invariant
            i <= es.len(),
            captures_in_exprs_spec(
                crate::ir::typed_exprs_view(es@),
                crate::text::strs_view(declared@),
                crate::text::strs_view(out@),
                i as int,
            ) == whole_run,
        decreases es.len() - i,
    {
        let e = &es[i];
        out = captures_in_expr(e, declared, out);
        i += 1;
    }
    out
}

/// What [`captures_in_fields`] computes from position `i` on.
pub open spec fn captures_in_fields_spec(
    fs: Seq<(Seq<char>, TypedExprView)>,
    declared: Seq<Seq<char>>,
    out: Seq<Seq<char>>,
    i: int,
) -> Seq<Seq<char>>
    decreases fs, fs.len() - i,
{
    if 0 <= i < fs.len() {
        let f = fs[i];
        let out = captures_in_expr_spec(f.1, declared, out);
        captures_in_fields_spec(fs, declared, out, i + 1)
    } else {
        out
    }
}

/// Adds the variables that the fields of a literal take from outside.
pub fn captures_in_fields(
    fs: &Vec<(String, TypedExpr)>,
    declared: &Vec<String>,
    out: Vec<String>,
) -> (r: Vec<String>)
    ensures
        crate::text::strs_view(r@) == captures_in_fields_spec(
            crate::ir::named_typed_exprs_view(fs@),
            crate::text::strs_view(declared@),
            crate::text::strs_view(out@),
            0,
        ),
    decreases fs, fs.len(),
{
    let ghost whole_run = captures_in_fields_spec(
        crate::ir::named_typed_exprs_view(fs@),
        crate::text::strs_view(declared@),
        crate::text::strs_view(out@),
        0,
    );
    let mut out = out;
    let mut i: usize = 0;
    while i < fs.len()
        invariant
            i <= fs.len(),
            captures_in_fields_spec(
                crate::ir::named_typed_exprs_view(fs@),
                crate::text::strs_view(declared@),
                crate::text::strs_view(out@),
                i as int,
            ) == whole_run,
        decreases fs.len() - i,
    {
        let f = &fs[i];
        out = captures_in_expr(&f.1, declared, out);
        i += 1;
    }
    out
}

/// What [`captures_in_arms`] computes from position `i` on.
pub open spec fn captures_in_arms_spec(
    arms: Seq<TypedMatchArmView>,
    declared: Seq<Seq<char>>,
    out: Seq<Seq<char>>,
    i: int,
) -> Seq<Seq<char>>
    decreases arms, arms.len() - i,
{
    if 0 <= i < arms.len() {
        let a = arms[i];
        let out = {
            let inner = match a.binding {
                Some((name, _)) => crate::effects::add_name_spec((declared), name),
                None => (declared),
            };
            captures_in_expr_spec(a.body, inner, out)
        };
        captures_in_arms_spec(arms, declared, out, i + 1)
    } else {
        out
    }
}

/// Adds the variables that the arms of a match take from outside.
pub fn captures_in_arms(
    arms: &Vec<TypedMatchArm>,
    declared: &Vec<String>,
    out: Vec<String>,
) -> (r: Vec<String>)
    ensures
        crate::text::strs_view(r@) == captures_in_arms_spec(
            crate::ir::typed_arms_view(arms@),
            crate::text::strs_view(declared@),
            crate::text::strs_view(out@),
            0,
        ),
    decreases arms, arms.len(),
{
    let ghost whole_run = captures_in_arms_spec(
        crate::ir::typed_arms_view(arms@),
        crate::text::strs_view(declared@),
        crate::text::strs_view(out@),
        0,
    );
    let mut out = out;
    let mut i: usize = 0;
    while i < arms.len()
        invariant
            i <= arms.len(),
            captures_in_arms_spec(
                crate::ir::typed_arms_view(arms@),
                crate::text::strs_view(declared@),
                crate::text::strs_view(out@),
                i as int,
            ) == whole_run,
        decreases arms.len() - i,
    {
        let a = &arms[i];
        out = {
            let inner = match &a.binding {
                Some((name, _)) => add_name(dup_strs(declared), name),
                None => dup_strs(declared),
            };
            captures_in_expr(&a.body, &inner, out)
        };
        i += 1;
    }
    out
}

/// What [`captures_in_items`] computes from position `i` on.
pub open spec fn captures_in_items_spec(
    items: Seq<TypedPrintItemView>,
    declared: Seq<Seq<char>>,
    out: Seq<Seq<char>>,
    i: int,
) -> Seq<Seq<char>>
    decreases items, items.len() - i,
{
    if 0 <= i < items.len() {
        let item = items[i];
        let out = match item {
            TypedPrintItemView::Expr(e) => captures_in_expr_spec(e, declared, out),
            TypedPrintItemView::Str(_) => out,
        };
        captures_in_items_spec(items, declared, out, i + 1)
    } else {
        out
    }
}

/// Adds the variables that a `print` takes from outside.
pub fn captures_in_items(
    items: &Vec<TypedPrintItem>,
    declared: &Vec<String>,
    out: Vec<String>,
) -> (r: Vec<String>)
    ensures
        crate::text::strs_view(r@) == captures_in_items_spec(
            crate::ir::typed_print_items_view(items@),
            crate::text::strs_view(declared@),
            crate::text::strs_view(out@),
            0,
        ),
    decreases items, items.len(),
{
    let ghost whole_run = captures_in_items_spec(
        crate::ir::typed_print_items_view(items@),
        crate::text::strs_view(declared@),
        crate::text::strs_view(out@),
        0,
    );
    let mut out = out;
    let mut i: usize = 0;
    while i < items.len()
        invariant
            i <= items.len(),
            captures_in_items_spec(
                crate::ir::typed_print_items_view(items@),
                crate::text::strs_view(declared@),
                crate::text::strs_view(out@),
                i as int,
            ) == whole_run,
        decreases items.len() - i,
    {
        let item = &items[i];
        out = match item {
            TypedPrintItem::Expr(e) => captures_in_expr(e, declared, out),
            TypedPrintItem::Str(_) => out,
        };
        i += 1;
    }
    out
}

/// What [`captures_in_stmt`] computes.
pub open spec fn captures_in_stmt_spec(
    s: TypedStmtView,
    declared: Seq<Seq<char>>,
    out: Seq<Seq<char>>,
) -> (Seq<Seq<char>>, Seq<Seq<char>>)
    decreases s, 0int,
{
    match s {
        TypedStmtView::Let { name, expr, .. } => {
            let out = captures_in_expr_spec(expr, declared, out);
            (crate::effects::add_name_spec(declared, name), out)
        },
        TypedStmtView::Reassign { name, expr, .. } => {
            let out = captures_in_expr_spec(expr, declared, out);
            let out = use_name_spec(name, declared, out);
            (declared, out)
        },
        TypedStmtView::Return { expr } => {
            let out = captures_in_expr_spec(expr, declared, out);
            (declared, out)
        },
        TypedStmtView::Assert { expr, .. } => {
            let out = captures_in_expr_spec(expr, declared, out);
            (declared, out)
        },
        TypedStmtView::Prove { expr } => {
            let out = captures_in_expr_spec(expr, declared, out);
            (declared, out)
        },
        TypedStmtView::Discard { expr } => {
            let out = captures_in_expr_spec(expr, declared, out);
            (declared, out)
        },
        TypedStmtView::Print { items } => {
            let out = captures_in_items_spec(items, declared, out, 0);
            (declared, out)
        },
        TypedStmtView::Drop { name, .. } => {
            let out = use_name_spec(name, declared, out);
            (declared, out)
        },
        TypedStmtView::If { cond, then_body, else_body } => {
            let out = captures_in_expr_spec(cond, declared, out);
            let (declared, out) = captures_in_stmts_spec(then_body, declared, out, 0);
            captures_in_stmts_spec(else_body, declared, out, 0)
        },
        TypedStmtView::While { cond, body } => {
            let out = captures_in_expr_spec(cond, declared, out);
            captures_in_stmts_spec(body, declared, out, 0)
        },
        TypedStmtView::For { var, start, end, body, .. } => {
            let out = captures_in_expr_spec(start, declared, out);
            let out = captures_in_expr_spec(end, declared, out);
            captures_in_stmts_spec(body, crate::effects::add_name_spec(declared, var), out, 0)
        },
        TypedStmtView::ForIter { var, collection, body, .. } => {
            let out = use_name_spec(collection, declared, out);
            captures_in_stmts_spec(body, crate::effects::add_name_spec(declared, var), out, 0)
        },
        TypedStmtView::IndexAssign { name, index, value, .. } => {
            let out = use_name_spec(name, declared, out);
            let out = captures_in_expr_spec(index, declared, out);
            let out = captures_in_expr_spec(value, declared, out);
            (declared, out)
        },
        TypedStmtView::FieldAssign { object, value, .. } => {
            let out = captures_in_expr_spec(object, declared, out);
            let out = captures_in_expr_spec(value, declared, out);
            (declared, out)
        },
        TypedStmtView::TaskSpawn { name, body, .. } => {
            let (declared, out) = captures_in_stmts_spec(body, declared, out, 0);
            (crate::effects::add_name_spec(declared, name), out)
        },
        TypedStmtView::TaskJoin { name } => {
            let out = use_name_spec(name, declared, out);
            (declared, out)
        },
        TypedStmtView::Break | TypedStmtView::Continue => (declared, out),
    }
}

/// The names declared after a statement and those it takes from outside.
pub fn captures_in_stmt(
    s: &TypedStmt,
    declared: Vec<String>,
    out: Vec<String>,
) -> (r: (Vec<String>, Vec<String>))
    ensures
        (crate::text::strs_view(r.0@), crate::text::strs_view(r.1@)) == captures_in_stmt_spec(
            s@,
            crate::text::strs_view(declared@),
            crate::text::strs_view(out@),
        ),
    decreases s, 0int,
{
    match s {
        TypedStmt::Let { name, expr, .. } => {
            let out = captures_in_expr(expr, &declared, out);
            (add_name(declared, name), out)
        },
        TypedStmt::Reassign { name, expr, .. } => {
            let out = captures_in_expr(expr, &declared, out);
            let out = use_name(name, &declared, out);
            (declared, out)
        },
        TypedStmt::Return { expr } => {
            let out = captures_in_expr(expr, &declared, out);
            (declared, out)
        },
        TypedStmt::Assert { expr, .. } => {
            let out = captures_in_expr(expr, &declared, out);
            (declared, out)
        },
        TypedStmt::Prove { expr } => {
            let out = captures_in_expr(expr, &declared, out);
            (declared, out)
        },
        TypedStmt::Discard { expr } => {
            let out = captures_in_expr(expr, &declared, out);
            (declared, out)
        },
        TypedStmt::Print { items } => {
            let out = captures_in_items(items, &declared, out);
            (declared, out)
        },
        TypedStmt::Drop { name, .. } => {
            let out = use_name(name, &declared, out);
            (declared, out)
        },
        TypedStmt::If { cond, then_body, else_body } => {
            let out = captures_in_expr(cond, &declared, out);
            let (declared, out) = captures_in_stmts(then_body, declared, out);
            captures_in_stmts(else_body, declared, out)
        },
        TypedStmt::While { cond, body } => {
            let out = captures_in_expr(cond, &declared, out);
            captures_in_stmts(body, declared, out)
        },
        TypedStmt::For { var, start, end, body, .. } => {
            let out = captures_in_expr(start, &declared, out);
            let out = captures_in_expr(end, &declared, out);
            captures_in_stmts(body, add_name(declared, var), out)
        },
        TypedStmt::ForIter { var, collection, body, .. } => {
            let out = use_name(collection, &declared, out);
            captures_in_stmts(body, add_name(declared, var), out)
        },
        TypedStmt::IndexAssign { name, index, value, .. } => {
            let out = use_name(name, &declared, out);
            let out = captures_in_expr(index, &declared, out);
            let out = captures_in_expr(value, &declared, out);
            (declared, out)
        },
        TypedStmt::FieldAssign { object, value, .. } => {
            let out = captures_in_expr(object, &declared, out);
            let out = captures_in_expr(value, &declared, out);
            (declared, out)
        },
        TypedStmt::TaskSpawn { name, body, .. } => {
            let (declared, out) = captures_in_stmts(body, declared, out);
            (add_name(declared, name), out)
        },
        TypedStmt::TaskJoin { name } => {
            let out = use_name(name, &declared, out);
            (declared, out)
        },
        TypedStmt::Break | TypedStmt::Continue => (declared, out),
    }
}

/// What [`captures_in_stmts`] computes from position `i` on.
pub open spec fn captures_in_stmts_spec(
    ss: Seq<TypedStmtView>,
    declared: Seq<Seq<char>>,
    out: Seq<Seq<char>>,
    i: int,
) -> (Seq<Seq<char>>, Seq<Seq<char>>)
    decreases ss, ss.len() - i,
{
    if 0 <= i < ss.len() {
        let s = ss[i];
        let (declared, out) = captures_in_stmt_spec(s, declared, out);
        captures_in_stmts_spec(ss, declared, out, i + 1)
    } else {
        (declared, out)
    }
}

/// The names declared after statements and those that they take from outside.
pub fn captures_in_stmts(
    ss: &Vec<TypedStmt>,
    declared: Vec<String>,
    out: Vec<String>,
) -> (r: (Vec<String>, Vec<String>))
    ensures
        (crate::text::strs_view(r.0@), crate::text::strs_view(r.1@)) == captures_in_stmts_spec(
            crate::ir::typed_stmts_view(ss@),
            crate::text::strs_view(declared@),
            crate::text::strs_view(out@),
            0,
        ),
    decreases ss, ss.len(),
{
    let ghost whole_run = captures_in_stmts_spec(
        crate::ir::typed_stmts_view(ss@),
        crate::text::strs_view(declared@),
        crate::text::strs_view(out@),
        0,
    );
    let mut declared = declared;
    let mut out = out;
    let mut i: usize = 0;
    while i < ss.len()
        invariant
            i <= ss.len(),
            captures_in_stmts_spec(
                crate::ir::typed_stmts_view(ss@),
                crate::text::strs_view(declared@),
                crate::text::strs_view(out@),
                i as int,
            ) == whole_run,
        decreases ss.len() - i,
    {
        let s = &ss[i];
        let next = captures_in_stmt(s, declared, out);
        declared = next.0;
        out = next.1;
        i += 1;
    }
    (declared, out)
}

/// What [`capture_types`] computes from position `i` on.
#[verifier::opaque]
pub open spec fn capture_types_spec(
    names: Seq<Seq<char>>,
    span: Span,
    cx: ContextView,
    out: Seq<(Seq<char>, TypeView)>,
    st: StateView,
    i: int,
) -> (Seq<(Seq<char>, TypeView)>, StateView)
    decreases names.len() - i,
{
    if 0 <= i < names.len() {
        let name = names[i];
        let (out, st) = match crate::scope::lookup_spec(st.env, name) {
            None => (out, st),
            Some(info) => {
                let st = if crate::scope::copies_spec(info.ty, cx) {
                    st
                } else {
                    let message = "task body captures non-Copy binding '"@ + name + "' (type "@
                        + crate::ast::type_text_spec(info.ty)
                        + "). Captures must be Copy types — pre-extract scalar values from `"@
                        + name + "` before the spawn site."@;
                    crate::scope::report_spec(st, span, message)
                };
                (out.push((name, info.ty)), st)
            },
        };
        capture_types_spec(names, span, cx, out, st, i + 1)
    } else {
        (out, st)
    }
}

/// The outer bindings that a task's body uses, with their types; those that
/// own something are reported.
pub fn capture_types(
    names: &Vec<String>,
    span: Span,
    cx: &Context,
    out: Vec<(String, Type)>,
    st: State,
) -> (r: (Vec<(String, Type)>, State))
    ensures
        (crate::ir::named_types_view(r.0@), r.1@) == capture_types_spec(
            crate::text::strs_view(names@),
            span,
            cx@,
            crate::ir::named_types_view(out@),
            st@,
            0,
        ),
        crate::state::follows(st@, r.1@),
        crate::state::balanced(st@, r.1@),
{
    let ghost whole_run = capture_types_spec(
        crate::text::strs_view(names@),
        span,
        cx@,
        crate::ir::named_types_view(out@),
        st@,
        0,
    );
    let ghost start_st = st@;
    proof {
        reveal(capture_types_spec);
    }
    let mut out = out;
    let mut st = st;
    let mut i: usize = 0;
    while i < names.len()
        invariant
            i <= names.len(),
            capture_types_spec(
                crate::text::strs_view(names@),
                span,
                cx@,
                crate::ir::named_types_view(out@),
                st@,
                i as int,
            ) == whole_run,
            crate::state::follows(start_st, st@),
            crate::state::balanced(start_st, st@),
        decreases names.len() - i,
    {
        proof {
            reveal(capture_types_spec);
        }
        let name = &names[i];
        let next = match lookup(&st.env, name) {
            None => (out, st),
            Some(info) => {
                let st = if copies(&info.ty, cx) {
                    st
                } else {
                    let message = cat7(
                        "task body captures non-Copy binding '",
                        name,
                        "' (type ",
                        &type_text(&info.ty),
                        "). Captures must be Copy types — pre-extract scalar values from `",
                        name,
                        "` before the spawn site.",
                    );
                    report(st, span, message)
                };
                (push(out, (name.clone(), info.ty)), st)
            },
        };
        out = next.0;
        st = next.1;
        i += 1;
    }
    (out, st)
}

/// What [`args_of`] computes.
pub open spec fn args_of_spec(e: ExprView, callee: Seq<char>) -> Option<Seq<ExprView>>
{
    match e.kind {
        ExprKindView::Call { name, args, .. } => if name == callee { Some((args)) } else { None },
        _ => None,
    }
}

/// The arguments of a call of the given name.
pub fn args_of(e: &Expr, callee: &str) -> (r: Option<Vec<Expr>>)
    ensures
        (match &r { Some(v0) => Some(crate::ast::exprs_view(v0@)), None => None }) == args_of_spec(
            e@,
            callee@,
        ),
{
    match &e.kind {
        ExprKind::Call {
            name,
            args,
            ..
        } => if str_eq(name, callee) { Some(dup_exprs(args)) } else { None },
        _ => None,
    }
}

/// What [`no_ref`] computes.
pub open spec fn no_ref_spec(
    t: TypeView,
    span: Span,
    context: Seq<char>,
    st: StateView,
) -> StateView
{
    StateView {
        diagnostics: crate::signatures::validate_no_ref_spec(t, span, context, st.diagnostics),
        ..st
    }
}

pub fn no_ref(t: &Type, span: Span, context: &str, st: State) -> (r: State)
    ensures
        r@ == no_ref_spec(t@, span, context@, st@),
        crate::state::follows(st@, r@),
        crate::state::balanced(st@, r@),
{
    State { diagnostics: validate_no_ref(t, span, context, st.diagnostics), ..st }
}

/// What [`check_initializer`] computes.
pub open spec fn check_initializer_spec(
    e: ExprView,
    annotation: Option<TypeView>,
    span: Span,
    cx: ContextView,
    st: StateView,
) -> (CheckedExprView, StateView)
{
    match annotation {
        Some(t) => {
            let st = crate::moves::validate_array_element_type_spec(t, span, cx, st);
            let st = no_ref_spec(t, span, "let annotation"@, st);
            match crate::calls::try_elaborate_empty_vec_spec(e, t, st) {
                (Some(c), st) => (c, st),
                (None, st) => {
                    let (c, st) = check_value_spec(e, cx, st);
                    crate::numeric::coerce_checked_spec(c, t, e.span, "let initializer"@, st)
                },
            }
        },
        None => check_value_spec(e, cx, st),
    }
}

/// The initial value of a `let`.
pub fn check_initializer(
    e: &Expr,
    annotation: &Option<Type>,
    span: Span,
    cx: &Context,
    st: State,
) -> (r: (CheckedExpr, State))
    ensures
        (r.0@, r.1@) == check_initializer_spec(
            e@,
            (match &annotation { Some(v0) => Some(v0@), None => None }),
            span,
            cx@,
            st@,
        ),
        crate::state::follows(st@, r.1@),
        crate::state::balanced(st@, r.1@),
        st@.env.scopes.len() > 0
            && crate::typing::quiet(st@, r.1@)
            ==> crate::typing::fits(r.0@, crate::typing::declared_in(cx@, st@.env)),
{
    proof {
        reveal(crate::typing::well_typed); reveal(crate::typing::stmt_typed);
    }
    match annotation {
        Some(t) => {
            let st = validate_array_element_type(t, span, cx, st);
            let st = no_ref(t, span, "let annotation", st);
            match try_elaborate_empty_vec(e, t, st) {
                (Some(c), st) => (c, st),
                (None, st) => {
                    let (c, st) = check_value(e, cx, st);
                    coerce_checked(c, t, e.span, "let initializer", st)
                },
            }
        },
        None => check_value(e, cx, st),
    }
}

/// What [`literal_elements`] computes.
pub open spec fn literal_elements_spec(e: ExprView, name: Seq<char>) -> Option<Seq<ExprView>>
{
    match args_of_spec(e, "vec"@) {
        Some(args) => if crate::rewrite::any_mentions_spec(args, name) { None } else { Some(args) },
        None => None,
    }
}

/// The elements of a `vec(..)` literal that do not read the new binding.
pub fn literal_elements(e: &Expr, name: &str) -> (r: Option<Vec<Expr>>)
    ensures
        (match &r { Some(v0) => Some(crate::ast::exprs_view(v0@)), None => None }) == literal_elements_spec(
            e@,
            name@,
        ),
{
    match args_of(e, "vec") {
        Some(args) => if any_mentions(&args, name) { None } else { Some(args) },
        None => None,
    }
}

/// What [`locked_mutex`] computes.
pub open spec fn locked_mutex_spec(e: ExprView) -> Option<Seq<char>>
{
    match args_of_spec(e, "mutex_lock"@) {
        Some(args) => if args.len() == 1 { crate::signatures::extract_locked_mutex_name_spec(args[0]) } else { None },
        None => None,
    }
}

/// The mutex that a `mutex_lock` call locks.
pub fn locked_mutex(e: &Expr) -> (r: Option<String>)
    ensures
        (match &r { Some(v0) => Some(v0@), None => None }) == locked_mutex_spec(e@),
{
    match args_of(e, "mutex_lock") {
        Some(args) => if args.len() == 1 { extract_locked_mutex_name(&args[0]) } else { None },
        None => None,
    }
}

/// What [`literal_fields`] computes.
pub open spec fn literal_fields_spec(e: ExprView) -> Option<Seq<(Seq<char>, ExprView)>>
{
    match e.kind {
        ExprKindView::StructLit { fields, .. } => Some((fields)),
        _ => None,
    }
}

pub fn literal_fields(e: &Expr) -> (r: Option<Vec<(String, Expr)>>)
    ensures
        (match &r { Some(v0) => Some(crate::ast::named_exprs_view(v0@)), None => None }) == literal_fields_spec(e@),
{
    match &e.kind {
        ExprKind::StructLit { fields, .. } => Some(dup_named_exprs(fields)),
        _ => None,
    }
}

/// What [`call_parts`] computes.
pub open spec fn call_parts_spec(e: ExprView) -> Option<(Seq<char>, Seq<ExprView>)>
{
    match e.kind {
        ExprKindView::Call { name, args, .. } => Some((name, (args))),
        _ => None,
    }
}

pub fn call_parts(e: &Expr) -> (r: Option<(String, Vec<Expr>)>)
    ensures
        (match &r { Some(v0) => Some((v0.0@, crate::ast::exprs_view(v0.1@))), None => None }) == call_parts_spec(e@),
{
    match &e.kind {
        ExprKind::Call { name, args, .. } => Some((name.clone(), dup_exprs(args))),
        _ => None,
    }
}

/// What [`array_elements`] computes.
pub open spec fn array_elements_spec(e: ExprView) -> Option<Seq<ExprView>>
{
    match e.kind {
        ExprKindView::ArrayLit { elements } => Some((elements)),
        _ => None,
    }
}

pub fn array_elements(e: &Expr) -> (r: Option<Vec<Expr>>)
    ensures
        (match &r { Some(v0) => Some(crate::ast::exprs_view(v0@)), None => None }) == array_elements_spec(e@),
{
    match &e.kind {
        ExprKind::ArrayLit { elements } => Some(dup_exprs(elements)),
        _ => None,
    }
}

/// What [`is_sequence`] computes.
pub open spec fn is_sequence_spec(t: TypeView) -> bool
{
    crate::types::is_vec_spec(t) || crate::types::is_array_spec(t)
}

pub fn is_sequence(t: &Type) -> (r: bool)
    ensures
        r == is_sequence_spec(t@),
{
    is_vec(t) || is_array(t)
}

/// What [`facts_of_call`] computes.
pub open spec fn facts_of_call_spec(
    name: Seq<char>,
    e: ExprView,
    fresh: bool,
    cx: ContextView,
    facts: Seq<ExprView>,
) -> Seq<ExprView>
{
    match call_parts_spec(e) {
        Some((callee, args)) => {
            let facts = crate::rewrite::record_ensures_facts_spec(
                callee,
                args,
                crate::construct::mk_var_spec(name, crate::rewrite::no_span_spec()),
                cx.signatures,
                facts,
            );
            if fresh && !crate::rewrite::any_mentions_spec(args, name) {
                crate::rewrite::record_vec_builtin_facts_spec(callee, args, name, facts)
            } else {
                facts
            }
        },
        None => facts,
    }
}

/// What a `let` of a call says of its binding.
pub fn facts_of_call(
    name: &str,
    e: &Expr,
    fresh: bool,
    cx: &Context,
    facts: Vec<Expr>,
) -> (r: Vec<Expr>)
    ensures
        crate::ast::exprs_view(r@) == facts_of_call_spec(
            name@,
            e@,
            fresh,
            cx@,
            crate::ast::exprs_view(facts@),
        ),
{
    match call_parts(e) {
        Some((callee, args)) => {
            let facts = record_ensures_facts(
                &callee,
                &args,
                &mk_var(name, no_span()),
                &cx.signatures,
                facts,
            );
            if fresh && !any_mentions(&args, name) {
                record_vec_builtin_facts(&callee, &args, name, facts)
            } else {
                facts
            }
        },
        None => facts,
    }
}

/// What [`facts_of_array`] computes.
pub open spec fn facts_of_array_spec(
    name: Seq<char>,
    e: ExprView,
    fresh: bool,
    facts: Seq<ExprView>,
) -> Seq<ExprView>
{
    match array_elements_spec(e) {
        Some(elements) => if fresh && !crate::rewrite::any_mentions_spec(elements, name) {
            crate::rewrite::record_array_element_facts_spec(elements, name, facts, 0)
        } else {
            facts
        },
        None => facts,
    }
}

/// What a `let` of an array literal says of its binding.
pub fn facts_of_array(name: &str, e: &Expr, fresh: bool, facts: Vec<Expr>) -> (r: Vec<Expr>)
    ensures
        crate::ast::exprs_view(r@) == facts_of_array_spec(
            name@,
            e@,
            fresh,
            crate::ast::exprs_view(facts@),
        ),
{
    match array_elements(e) {
        Some(elements) => if fresh && !any_mentions(&elements, name) {
            record_array_element_facts(&elements, name, facts)
        } else {
            facts
        },
        None => facts,
    }
}

/// What [`facts_of_copy`] computes.
pub open spec fn facts_of_copy_spec(
    name: Seq<char>,
    e: ExprView,
    fresh: bool,
    env: EnvView,
    facts: Seq<ExprView>,
) -> Seq<ExprView>
{
    match crate::calls::var_name_spec(e) {
        Some(base) => if fresh && !(base == name) {
            match crate::scope::lookup_spec(env, base) {
                Some(info) => if is_sequence_spec(crate::types::deref_spec(info.ty)) {
                    facts.push(crate::rewrite::copy_fact_spec(name, base))
                } else {
                    facts
                },
                None => facts,
            }
        } else {
            facts
        },
        None => facts,
    }
}

/// What a `let` of another array or vector says of its binding.
pub fn facts_of_copy(
    name: &str,
    e: &Expr,
    fresh: bool,
    env: &Env,
    facts: Vec<Expr>,
) -> (r: Vec<Expr>)
    ensures
        crate::ast::exprs_view(r@) == facts_of_copy_spec(
            name@,
            e@,
            fresh,
            env@,
            crate::ast::exprs_view(facts@),
        ),
{
    match var_name(e) {
        Some(base) => if fresh && !str_eq(&base, name) {
            match lookup(env, &base) {
                Some(info) => if is_sequence(&deref(&info.ty)) {
                    push(facts, copy_fact(name, &base))
                } else {
                    facts
                },
                None => facts,
            }
        } else {
            facts
        },
        None => facts,
    }
}

/// What [`report_retyped`] computes.
pub open spec fn report_retyped_spec(
    name: Seq<char>,
    old: VarInfoView,
    t: TypeView,
    span: Span,
    st: StateView,
) -> StateView
{
    if old.ty == t {
        st
    } else {
        let message = "shadowing 'let "@ + name + "' must preserve its type; previous type was "@
            + crate::ast::type_text_spec(old.ty) + ", new type is "@
            + crate::ast::type_text_spec(t);
        let note = "'"@ + name + "' was previously declared here as "@
            + crate::ast::type_text_spec(old.ty);
        crate::scope::report_note_spec(st, span, message, old.decl_span, note)
    }
}

/// Reports a `let` that gives a name of the same scope another type.
pub fn report_retyped(name: &str, old: &VarInfo, t: &Type, span: Span, st: State) -> (r: State)
    ensures
        r@ == report_retyped_spec(name@, old@, t@, span, st@),
        crate::state::follows(st@, r@),
        crate::state::balanced(st@, r@),
{
    if type_eq(&old.ty, t) {
        st
    } else {
        let message = cat6(
            "shadowing 'let ",
            name,
            "' must preserve its type; previous type was ",
            &type_text(&old.ty),
            ", new type is ",
            &type_text(t),
        );
        let note = cat4("'", name, "' was previously declared here as ", &type_text(&old.ty));
        report_note(st, span, message, old.decl_span, note)
    }
}

/// What [`let_stmt`] computes.
pub open spec fn let_stmt_spec(
    name: Seq<char>,
    existing: Option<VarInfoView>,
    value: TypedExprView,
    cx: ContextView,
) -> TypedStmtView
{
    let ty = value.ty;
    match existing {
        Some(old) => TypedStmtView::Reassign {
            name: name,
            ty,
            expr: value,
            drop_old: !crate::scope::copies_spec(old.ty, cx) && old.moved.is_none(),
        },
        None => TypedStmtView::Let { name: name, ty, expr: value },
    }
}

/// The statement of a `let`: a declaration, or a reassignment where the scope
/// has the name.
pub fn let_stmt(
    name: &str,
    existing: &Option<VarInfo>,
    value: TypedExpr,
    cx: &Context,
) -> (r: TypedStmt)
    ensures
        r@ == let_stmt_spec(
            name@,
            (match &existing { Some(v0) => Some(v0@), None => None }),
            value@,
            cx@,
        ),
{
    let ty = value.ty.dup();
    match existing {
        Some(old) => TypedStmt::Reassign {
            name: text(name),
            ty,
            expr: value,
            drop_old: !copies(&old.ty, cx) && old.moved.is_none(),
        },
        None => TypedStmt::Let { name: text(name), ty, expr: value },
    }
}

/// What [`let_info`] computes.
pub open spec fn let_info_spec(
    name: Seq<char>,
    e: ExprView,
    ty: TypeView,
    constant: Option<TypedConstView>,
    fresh: bool,
    span: Span,
) -> VarInfoView
{
    VarInfoView {
        ty,
        constant,
        moved: None,
        decl_span: span,
        vec_literal_elements: if fresh { literal_elements_spec(e, name) } else { None },
        array_version: 0,
        guarded_mutex: locked_mutex_spec(e),
        no_drop: false,
        is_const: false,
        struct_literal_fields: if fresh { literal_fields_spec(e) } else { None },
        moved_fields: Seq::empty(),
    }
}

/// What is known of a binding made by `let`.
pub fn let_info(
    name: &str,
    e: &Expr,
    ty: Type,
    constant: Option<TypedConst>,
    fresh: bool,
    span: Span,
) -> (r: VarInfo)
    ensures
        r@ == let_info_spec(
            name@,
            e@,
            ty@,
            (match &constant { Some(v0) => Some(v0@), None => None }),
            fresh,
            span,
        ),
{
    VarInfo {
        ty,
        constant,
        moved: None,
        decl_span: span,
        vec_literal_elements: if fresh { literal_elements(e, name) } else { None },
        array_version: 0,
        guarded_mutex: locked_mutex(e),
        no_drop: false,
        is_const: false,
        struct_literal_fields: if fresh { literal_fields(e) } else { None },
        moved_fields: Vec::new(),
    }
}

/// What [`shadowed_let`] computes.
pub open spec fn shadowed_let_spec(env: EnvView, name: Seq<char>) -> Option<VarInfoView>
{
    match crate::scope::current_get_spec(env, name) {
        Some(info) => if info.is_const { None } else { Some(info) },
        None => None,
    }
}

/// The binding that a `let` of a name assigns to: one of the same scope that
/// is no constant of the program.
pub fn shadowed_let(env: &Env, name: &str) -> (r: Option<VarInfo>)
    ensures
        (match &r { Some(v0) => Some(v0@), None => None }) == shadowed_let_spec(env@, name@),
{
    match current_get(env, name) {
        Some(info) => if info.is_const { None } else { Some(info) },
        None => None,
    }
}

/// What [`declare_let`] computes.
pub open spec fn declare_let_spec(
    name: Seq<char>,
    e: ExprView,
    value: TypedExprView,
    span: Span,
    in_loop: bool,
    cx: ContextView,
    body: Seq<TypedStmtView>,
    st: StateView,
) -> (Seq<TypedStmtView>, StateView)
{
    let st = if crate::types::is_ref_spec(value.ty) {
        let message = "references cannot be stored in 'let' bindings; pass '&"@ + name
            + "' directly to a function parameter instead"@;
        crate::scope::report_spec(st, span, message)
    } else {
        st
    };
    let existing = shadowed_let_spec(st.env, name);
    let fresh = existing.is_none();
    let st = if crate::scope::current_has_spec(st.env, name)
        && !in_loop { crate::rewrite::forget_spec(st, name) } else { st };
    let st = match existing {
        Some(old) => report_retyped_spec(name, old, value.ty, span, st),
        None => st,
    };
    let ty = value.ty;
    let constant = (value.constant);
    let (value, st) = crate::prove::try_elide_bounds_in_typed_expr_spec(value, cx, st);
    let stmt = let_stmt_spec(name, existing, value, cx);
    let info = let_info_spec(name, e, ty, constant, fresh, span);
    let env = crate::scope::insert_current_spec(st.env, name, info);
    let facts = facts_of_call_spec(name, e, fresh, cx, st.facts);
    let facts = facts_of_array_spec(name, e, fresh, facts);
    let facts = facts_of_copy_spec(name, e, fresh, env, facts);
    (body.push(stmt), StateView { env, facts, ..st })
}

/// Binds the value of a `let`.
pub fn declare_let(
    name: &str,
    e: &Expr,
    value: TypedExpr,
    span: Span,
    in_loop: bool,
    cx: &Context,
    body: Vec<TypedStmt>,
    st: State,
) -> (r: (Vec<TypedStmt>, State))
    ensures
        (crate::ir::typed_stmts_view(r.0@), r.1@) == declare_let_spec(
            name@,
            e@,
            value@,
            span,
            in_loop,
            cx@,
            crate::ir::typed_stmts_view(body@),
            st@,
        ),
        crate::state::grows(crate::ir::typed_stmts_view(body@), crate::ir::typed_stmts_view(r.0@)),
        crate::state::follows(st@, r.1@),
        crate::state::balanced(st@, r.1@),
        forall|ret: TypeView|
            #![trigger crate::typing::body_typed(crate::ir::typed_stmts_view(body@), ret, crate::typing::declared_in(cx@, st@.env))]
            #![trigger crate::typing::body_typed(crate::ir::typed_stmts_view(r.0@), ret, crate::typing::declared_in(cx@, st@.env))]
            crate::typing::well_typed(value@, crate::typing::declared_in(cx@, st@.env))
                && crate::typing::body_typed(
                    crate::ir::typed_stmts_view(body@),
                    ret,
                    crate::typing::declared_in(cx@, st@.env),
                )
                && st@.env.scopes.len() > 0 && crate::typing::quiet(st@, r.1@)
                ==> crate::typing::body_typed(
                    crate::ir::typed_stmts_view(r.0@),
                    ret,
                    crate::typing::declared_in(cx@, st@.env),
                ),
{
    proof {
        reveal(crate::typing::stmt_typed);
    }
    let st = if is_ref(&value.ty) {
        let message = cat3(
            "references cannot be stored in 'let' bindings; pass '&",
            name,
            "' directly to a function parameter instead",
        );
        report(st, span, message)
    } else {
        st
    };
    let existing = shadowed_let(&st.env, name);
    let fresh = existing.is_none();
    let st = if current_has(&st.env, name) && !in_loop { forget(st, name) } else { st };
    let st = match &existing {
        Some(old) => report_retyped(name, old, &value.ty, span, st),
        None => st,
    };
    let ty = value.ty.dup();
    let constant = dup_constant(&value.constant);
    let (value, st) = try_elide_bounds_in_typed_expr(value, cx, st);
    let stmt = let_stmt(name, &existing, value, cx);
    let info = let_info(name, e, ty, constant, fresh, span);
    let env = insert_current(st.env, name, &info);
    let facts = facts_of_call(name, e, fresh, cx, st.facts);
    let facts = facts_of_array(name, e, fresh, facts);
    let facts = facts_of_copy(name, e, fresh, &env, facts);
    (push(body, stmt), State { env, facts, ..st })
}

/// What [`check_let`] computes.
#[verifier::opaque]
pub open spec fn check_let_spec(
    name: Seq<char>,
    annotation: Option<TypeView>,
    e: ExprView,
    span: Span,
    in_loop: bool,
    cx: ContextView,
    body: Seq<TypedStmtView>,
    st: StateView,
) -> (Seq<TypedStmtView>, StateView)
{
    let st = crate::prove::verify_call_args_spec(e, cx, st);
    let (c, st) = check_initializer_spec(e, annotation, span, cx, st);
    let st = crate::moves::diagnose_partial_then_whole_move_spec(e, c, cx, st);
    let st = if !crate::scope::copies_spec(c.expr.ty, cx)
        && crate::moves::is_nested_field_access_spec(e) {
        let message = "nested field move (`o.inner.s`) on a non-Copy field is not supported yet — move the inner struct out first (`let inner = o.inner;` then `let s = inner.s;`)"@;
        crate::scope::report_spec(st, e.span, message)
    } else {
        st
    };
    let (value, st) = crate::moves::take_value_spec(e, c.expr, cx, st);
    if name == "_"@ {
        let st = if crate::types::is_ref_spec(value.ty) {
            let message = "references cannot appear in a 'let _' discard; the value would dangle immediately"@;
            crate::scope::report_spec(st, span, message)
        } else {
            st
        };
        (body.push(TypedStmtView::Discard { expr: value }), st)
    } else {
        declare_let_spec(name, e, value, span, in_loop, cx, body, st)
    }
}

/// `let name = e;` and `let _ = e;`.
pub fn check_let(
    name: &str,
    annotation: &Option<Type>,
    e: &Expr,
    span: Span,
    in_loop: bool,
    cx: &Context,
    body: Vec<TypedStmt>,
    st: State,
) -> (r: (Vec<TypedStmt>, State))
    ensures
        (crate::ir::typed_stmts_view(r.0@), r.1@) == check_let_spec(
            name@,
            (match &annotation { Some(v0) => Some(v0@), None => None }),
            e@,
            span,
            in_loop,
            cx@,
            crate::ir::typed_stmts_view(body@),
            st@,
        ),
        crate::state::grows(crate::ir::typed_stmts_view(body@), crate::ir::typed_stmts_view(r.0@)),
        crate::state::follows(st@, r.1@),
        crate::state::balanced(st@, r.1@),
        forall|ret: TypeView|
            #![trigger crate::typing::body_typed(crate::ir::typed_stmts_view(body@), ret, crate::typing::declared_in(cx@, st@.env))]
            #![trigger crate::typing::body_typed(crate::ir::typed_stmts_view(r.0@), ret, crate::typing::declared_in(cx@, st@.env))]
            crate::typing::body_typed(
                crate::ir::typed_stmts_view(body@),
                ret,
                crate::typing::declared_in(cx@, st@.env),
            )
                && st@.env.scopes.len() > 0 && crate::typing::quiet(st@, r.1@)
                ==> crate::typing::body_typed(
                    crate::ir::typed_stmts_view(r.0@),
                    ret,
                    crate::typing::declared_in(cx@, st@.env),
                ),
{
    let ghost before = st@;
    proof {
        reveal(check_let_spec); reveal(crate::typing::stmt_typed);
    }
    let st = verify_call_args(e, cx, st);
    let (c, st) = check_initializer(e, annotation, span, cx, st);
    let st = diagnose_partial_then_whole_move(e, &c, cx, st);
    let st = if !copies(&c.expr.ty, cx) && is_nested_field_access(e) {
        let message = text(
            "nested field move (`o.inner.s`) on a non-Copy field is not supported yet — move the inner struct out first (`let inner = o.inner;` then `let s = inner.s;`)",
        );
        report(st, e.span, message)
    } else {
        st
    };
    let (value, st) = take_value(e, c.expr, cx, st);
    proof {
        assert(
            before.env.scopes.len() > 0
                ==> crate::typing::declared_in(cx@, st@.env) == crate::typing::declared_in(
                    cx@,
                    before.env,
                )
        );
    }
    if str_eq(name, "_") {
        let st = if is_ref(&value.ty) {
            let message = text(
                "references cannot appear in a 'let _' discard; the value would dangle immediately",
            );
            report(st, span, message)
        } else {
            st
        };
        (push(body, TypedStmt::Discard { expr: value }), st)
    } else {
        declare_let(name, e, value, span, in_loop, cx, body, st)
    }
}

/// What [`repeated_name`] computes from position `i` on.
pub open spec fn repeated_name_spec(
    names: Seq<Seq<char>>,
    found: Option<Seq<char>>,
    i: int,
) -> Option<Seq<char>>
    decreases names.len() - i,
{
    if 0 <= i < names.len() && !found.is_some() {
        let n = names[i];
        let found = if crate::calls::count_name_spec(names, n, 0, 0) > 1 { Some(n) } else { found };
        repeated_name_spec(names, found, i + 1)
    } else {
        found
    }
}

/// The first name of a list that occurs again.
pub fn repeated_name(names: &Vec<String>, found: Option<String>) -> (r: Option<String>)
    ensures
        (match &r { Some(v0) => Some(v0@), None => None }) == repeated_name_spec(
            crate::text::strs_view(names@),
            (match &found { Some(v0) => Some(v0@), None => None }),
            0,
        ),
{
    let ghost whole_run = repeated_name_spec(
        crate::text::strs_view(names@),
        (match &found { Some(v0) => Some(v0@), None => None }),
        0,
    );
    let mut found = found;
    let mut i: usize = 0;
    while i < names.len() && !found.is_some()
        invariant
            i <= names.len(),
            repeated_name_spec(
                crate::text::strs_view(names@),
                (match &found { Some(v0) => Some(v0@), None => None }),
                i as int,
            ) == whole_run,
        decreases names.len() - i,
    {
        let n = &names[i];
        found = if count_name(names, n, 0) > 1 { Some(n.clone()) } else { found };
        i += 1;
    }
    found
}

/// What [`bind_elements`] computes from position `i` on.
pub open spec fn bind_elements_spec(
    names: Seq<Seq<char>>,
    temp: Seq<char>,
    types: Seq<TypeView>,
    span: Span,
    body: Seq<TypedStmtView>,
    env: EnvView,
    i: int,
) -> (Seq<TypedStmtView>, EnvView)
    decreases names.len() - i,
{
    if 0 <= i < names.len() {
        let n = names[i];
        let (body, env) = if i < types.len() {
            let t = types[i];
            let whole = crate::scope::typed_spec(
                TypedExprKindView::Var(temp),
                TypeView::Tuple((types)),
                None,
                span,
            );
            let element = crate::operators::tuple_element_spec(whole, i as u32, t, span);
            let info = crate::scope::fresh_var_spec(t, None, span);
            (
                body.push(TypedStmtView::Let { name: n, ty: t, expr: element }),
                crate::scope::insert_current_spec(env, n, info),
            )
        } else {
            (body, env)
        };
        bind_elements_spec(names, temp, types, span, body, env, i + 1)
    } else {
        (body, env)
    }
}

/// One name of a destructured tuple.
pub fn bind_elements(
    names: &Vec<String>,
    temp: &str,
    types: &Vec<Type>,
    span: Span,
    body: Vec<TypedStmt>,
    env: Env,
) -> (r: (Vec<TypedStmt>, Env))
    ensures
        (crate::ir::typed_stmts_view(r.0@), r.1@) == bind_elements_spec(
            crate::text::strs_view(names@),
            temp@,
            crate::ast::types_view(types@),
            span,
            crate::ir::typed_stmts_view(body@),
            env@,
            0,
        ),
        crate::state::grows(crate::ir::typed_stmts_view(body@), crate::ir::typed_stmts_view(r.0@)),
        crate::state::same_scopes(env@, r.1@),
        forall|ret: TypeView, d: Declared|
            #![trigger crate::typing::body_typed(crate::ir::typed_stmts_view(body@), ret, d)]
            #![trigger crate::typing::body_typed(crate::ir::typed_stmts_view(r.0@), ret, d)]
            crate::typing::body_typed(crate::ir::typed_stmts_view(body@), ret, d)
                ==> crate::typing::body_typed(crate::ir::typed_stmts_view(r.0@), ret, d),
{
    let ghost whole_run = bind_elements_spec(
        crate::text::strs_view(names@),
        temp@,
        crate::ast::types_view(types@),
        span,
        crate::ir::typed_stmts_view(body@),
        env@,
        0,
    );
    let ghost start_body = crate::ir::typed_stmts_view(body@);
    let ghost start_env = env@;
    proof {
        reveal(crate::typing::well_typed); reveal(crate::typing::stmt_typed);
    }
    let mut body = body;
    let mut env = env;
    let mut i: usize = 0;
    while i < names.len()
        invariant
            i <= names.len(),
            bind_elements_spec(
                crate::text::strs_view(names@),
                temp@,
                crate::ast::types_view(types@),
                span,
                crate::ir::typed_stmts_view(body@),
                env@,
                i as int,
            ) == whole_run,
            crate::state::grows(start_body, crate::ir::typed_stmts_view(body@)),
            crate::state::same_scopes(start_env, env@),
            forall|ret: TypeView, d: Declared|
                #![trigger crate::typing::body_typed(start_body, ret, d)]
                #![trigger crate::typing::body_typed(crate::ir::typed_stmts_view(body@), ret, d)]
                crate::typing::body_typed(start_body, ret, d)
                    ==> crate::typing::body_typed(crate::ir::typed_stmts_view(body@), ret, d),
        decreases names.len() - i,
    {
        proof {
            reveal(crate::typing::well_typed); reveal(crate::typing::stmt_typed);
        }
        let n = &names[i];
        let next = if i < types.len() {
            let t = types[i].dup();
            let whole = typed(
                TypedExprKind::Var(text(temp)),
                Type::Tuple(dup_types(types)),
                None,
                span,
            );
            let element = tuple_element(&whole, i as u32, &t, span);
            proof {
                assert forall|d: Declared| #[trigger] crate::typing::well_typed(element@, d) by {
                    assert(crate::typing::well_typed(whole@, d));
                }
            }
            let info = fresh_var(t.dup(), None, span);
            (
                push(body, TypedStmt::Let { name: n.clone(), ty: t, expr: element }),
                insert_current(env, n, &info),
            )
        } else {
            (body, env)
        };
        body = next.0;
        env = next.1;
        i += 1;
    }
    (body, env)
}

/// What [`destructured_types`] computes.
pub open spec fn destructured_types_spec(
    annotation: Option<TypeView>,
    t: TypeView,
    span: Span,
    st: StateView,
) -> (Option<Seq<TypeView>>, StateView)
{
    match annotation {
        Some(ann) => {
            let st = no_ref_spec(ann, span, "destructure-let annotation"@, st);
            match (crate::calls::tuple_elements_spec(ann), crate::calls::tuple_elements_spec(t)) {
                (Some(types), Some(_)) => (Some(types), st),
                (Some(_), None) => (
                    None,
                    crate::scope::report_spec(
                        st,
                        span,
                        "destructure-let RHS must be a tuple, got "@
                            + crate::ast::type_text_spec(t),
                    ),
                ),
                (None, _) => {
                    let message = "destructure-let annotation must be a tuple type, got "@
                        + crate::ast::type_text_spec(ann);
                    (None, crate::scope::report_spec(st, span, message))
                },
            }
        },
        None => match crate::calls::tuple_elements_spec(t) {
            Some(types) => (Some(types), st),
            None => (
                None,
                crate::scope::report_spec(
                    st,
                    span,
                    "destructure-let RHS must be a tuple, got "@ + crate::ast::type_text_spec(t),
                ),
            ),
        },
    }
}

/// The element types that a destructuring `let` goes by: those of its
/// annotation, taken as they are written, or else those of its value. The
/// value must be a tuple either way.
pub fn destructured_types(
    annotation: &Option<Type>,
    t: &Type,
    span: Span,
    st: State,
) -> (r: (Option<Vec<Type>>, State))
    ensures
        (
            (match &r.0 { Some(v0) => Some(crate::ast::types_view(v0@)), None => None }),
            r.1@,
        ) == destructured_types_spec((match &annotation { Some(v0) => Some(v0@), None => None }), t@, span, st@),
        r.0 matches Some(types) ==> t@ is Tuple
            && (annotation is None ==> t@ == TypeView::Tuple(crate::ast::types_view(types@))),
        crate::state::follows(st@, r.1@),
        crate::state::balanced(st@, r.1@),
{
    match annotation {
        Some(ann) => {
            let st = no_ref(ann, span, "destructure-let annotation", st);
            match (tuple_elements(ann), tuple_elements(t)) {
                (Some(types), Some(_)) => (Some(types), st),
                (Some(_), None) => (
                    None,
                    report(
                        st,
                        span,
                        cat2("destructure-let RHS must be a tuple, got ", &type_text(t)),
                    ),
                ),
                (None, _) => {
                    let message = cat2(
                        "destructure-let annotation must be a tuple type, got ",
                        &type_text(ann),
                    );
                    (None, report(st, span, message))
                },
            }
        },
        None => match tuple_elements(t) {
            Some(types) => (Some(types), st),
            None => (
                None,
                report(st, span, cat2("destructure-let RHS must be a tuple, got ", &type_text(t))),
            ),
        },
    }
}

/// What [`check_let_tuple`] computes.
#[verifier::opaque]
pub open spec fn check_let_tuple_spec(
    names: Seq<Seq<char>>,
    annotation: Option<TypeView>,
    e: ExprView,
    span: Span,
    cx: ContextView,
    body: Seq<TypedStmtView>,
    st: StateView,
) -> (Seq<TypedStmtView>, StateView)
{
    let st = crate::prove::verify_call_args_spec(e, cx, st);
    let (c, st) = check_value_spec(e, cx, st);
    match destructured_types_spec(annotation, c.expr.ty, span, st) {
        (None, st) => (body, st),
        (Some(types), st) => if types.len() != names.len() {
            let message = "destructure-let: tuple has "@
                + crate::text::decimal((types.len() as int)) + " elements but "@
                + crate::text::decimal((names.len() as int)) + " names given"@;
            (body, crate::scope::report_spec(st, span, message))
        } else {
            match repeated_name_spec(names, None, 0) {
                Some(n) => {
                    let message = "destructure-let names must be distinct; '"@ + n
                        + "' used twice"@;
                    (body, crate::scope::report_spec(st, span, message))
                },
                None => {
                    let temp = "__intent_tup_"@ + crate::text::decimal((span.start as int));
                    let t = TypeView::Tuple((types));
                    let body = body.push(TypedStmtView::Let { name: temp, ty: t, expr: c.expr });
                    let info = VarInfoView {
                        no_drop: true,
                        ..crate::scope::fresh_var_spec(t, None, span)
                    };
                    let env = crate::scope::insert_current_spec(st.env, temp, info);
                    let (body, env) = bind_elements_spec(names, temp, types, span, body, env, 0);
                    (body, StateView { env, ..st })
                },
            }
        },
    }
}

/// `let (a, b) = e;`.
pub fn check_let_tuple(
    names: &Vec<String>,
    annotation: &Option<Type>,
    e: &Expr,
    span: Span,
    cx: &Context,
    body: Vec<TypedStmt>,
    st: State,
) -> (r: (Vec<TypedStmt>, State))
    ensures
        (crate::ir::typed_stmts_view(r.0@), r.1@) == check_let_tuple_spec(
            crate::text::strs_view(names@),
            (match &annotation { Some(v0) => Some(v0@), None => None }),
            e@,
            span,
            cx@,
            crate::ir::typed_stmts_view(body@),
            st@,
        ),
        annotation is None
            && r.0@.len() > body@.len()
            ==> (crate::ir::typed_stmts_view(r.0@)[body@.len() as int] matches TypedStmtView::Let { ty, expr, .. } && expr.ty == ty),
        crate::state::grows(crate::ir::typed_stmts_view(body@), crate::ir::typed_stmts_view(r.0@)),
        crate::state::follows(st@, r.1@),
        crate::state::balanced(st@, r.1@),
        forall|ret: TypeView|
            #![trigger crate::typing::body_typed(crate::ir::typed_stmts_view(body@), ret, crate::typing::declared_in(cx@, st@.env))]
            #![trigger crate::typing::body_typed(crate::ir::typed_stmts_view(r.0@), ret, crate::typing::declared_in(cx@, st@.env))]
            crate::typing::body_typed(
                crate::ir::typed_stmts_view(body@),
                ret,
                crate::typing::declared_in(cx@, st@.env),
            )
                && st@.env.scopes.len() > 0 && crate::typing::quiet(st@, r.1@)
                ==> crate::typing::body_typed(
                    crate::ir::typed_stmts_view(r.0@),
                    ret,
                    crate::typing::declared_in(cx@, st@.env),
                ),
{
    proof {
        reveal(check_let_tuple_spec);
        reveal(crate::typing::stmt_typed);
        assert(
            forall|s: TypedStmtView| crate::state::grows(
                crate::ir::typed_stmts_view(body@),
                #[trigger] crate::ir::typed_stmts_view(body@).push(s),
            )
        );
    }
    let st = verify_call_args(e, cx, st);
    let (c, st) = check_value(e, cx, st);
    match destructured_types(annotation, &c.expr.ty, span, st) {
        (None, st) => (body, st),
        (Some(types), st) => if types.len() != names.len() {
            let message = cat5(
                "destructure-let: tuple has ",
                &usize_text(types.len()),
                " elements but ",
                &usize_text(names.len()),
                " names given",
            );
            (body, report(st, span, message))
        } else {
            match repeated_name(names, None) {
                Some(n) => {
                    let message = cat3(
                        "destructure-let names must be distinct; '",
                        &n,
                        "' used twice",
                    );
                    (body, report(st, span, message))
                },
                None => {
                    let temp = cat2("__intent_tup_", &usize_text(span.start));
                    let t = Type::Tuple(dup_types(&types));
                    let body = push(
                        body,
                        TypedStmt::Let { name: temp.clone(), ty: t.dup(), expr: c.expr },
                    );
                    let info = VarInfo { no_drop: true, ..fresh_var(t, None, span) };
                    let env = insert_current(st.env, &temp, &info);
                    let (body, env) = bind_elements(names, &temp, &types, span, body, env);
                    proof {
                        assert(crate::typing::is_taken_apart(temp@));
                        assert forall|a: Seq<TypedStmtView>, b: Seq<TypedStmtView>| #[trigger]
                            crate::state::grows(a, b)
                                && a.len() > 0 implies b[a.len() - 1] == a.last() by {
                            reveal(crate::state::grows);
                            assert(b.subrange(0, a.len() as int)[a.len() - 1] == b[a.len() - 1]);
                        }
                    }
                    (body, State { env, ..st })
                },
            }
        },
    }
}

/// What [`check_assigned`] computes.
pub open spec fn check_assigned_spec(
    name: Seq<char>,
    e: ExprView,
    cx: ContextView,
    st: StateView,
) -> (Option<CheckedExprView>, StateView)
{
    let before = crate::scope::lookup_spec(st.env, name);
    let (elaborated, st) = match before {
        Some(info) => crate::calls::try_elaborate_empty_vec_spec(e, info.ty, st),
        None => (None, st),
    };
    let (c, st) = match elaborated {
        Some(c) => (c, st),
        None => check_value_spec(e, cx, st),
    };
    match crate::scope::lookup_spec(st.env, name) {
        None => (None, st),
        Some(info) => {
            let (c, st) = crate::numeric::coerce_checked_spec(
                c,
                info.ty,
                e.span,
                "assignment value"@,
                st,
            );
            (Some(c), st)
        },
    }
}

/// The value of an assignment, converted to the type of its target; none
/// where there is no such variable.
pub fn check_assigned(
    name: &str,
    e: &Expr,
    cx: &Context,
    st: State,
) -> (r: (Option<CheckedExpr>, State))
    ensures
        (
            (match &r.0 { Some(v0) => Some(v0@), None => None }),
            r.1@,
        ) == check_assigned_spec(name@, e@, cx@, st@),
        (match r.0 { Some(c) => crate::scope::lookup_spec(r.1@.env, name@) matches Some(info) && c@.expr.ty == info.ty, None => true }),
        crate::state::follows(st@, r.1@),
        crate::state::balanced(st@, r.1@),
        st@.env.scopes.len() > 0
            && crate::typing::quiet(st@, r.1@)
            ==> crate::typing::may_fit(
                (match &r.0 { Some(v0) => Some(v0@), None => None }),
                crate::typing::declared_in(cx@, st@.env),
            ),
{
    proof {
        reveal(crate::typing::well_typed); reveal(crate::typing::stmt_typed);
    }
    let before = lookup(&st.env, name);
    let (elaborated, st) = match &before {
        Some(info) => try_elaborate_empty_vec(e, &info.ty, st),
        None => (None, st),
    };
    let (c, st) = match elaborated {
        Some(c) => (c, st),
        None => check_value(e, cx, st),
    };
    match lookup(&st.env, name) {
        None => (None, st),
        Some(info) => {
            let (c, st) = coerce_checked(c, &info.ty, e.span, "assignment value", st);
            (Some(c), st)
        },
    }
}

/// What [`reassigned_info`] computes.
pub open spec fn reassigned_info_spec(info: VarInfoView) -> VarInfoView
{
    VarInfoView {
        constant: None,
        moved: None,
        vec_literal_elements: None,
        struct_literal_fields: None,
        ..info
    }
}

/// What is known of a binding once another value was assigned to it.
pub fn reassigned_info(info: VarInfo) -> (r: VarInfo)
    ensures
        r@ == reassigned_info_spec(info@),
{
    VarInfo {
        constant: None,
        moved: None,
        vec_literal_elements: None,
        struct_literal_fields: None,
        ..info
    }
}

/// What [`check_assign`] computes.
#[verifier::opaque]
pub open spec fn check_assign_spec(
    name: Seq<char>,
    e: ExprView,
    span: Span,
    in_loop: bool,
    cx: ContextView,
    body: Seq<TypedStmtView>,
    st: StateView,
) -> (Seq<TypedStmtView>, StateView)
{
    let st = crate::prove::verify_call_args_spec(e, cx, st);
    match check_assigned_spec(name, e, cx, st) {
        (None, st) => (
            body,
            crate::scope::report_spec(
                st,
                span,
                "cannot assign to unknown variable '"@ + name + "'"@,
            ),
        ),
        (Some(c), st) => match crate::scope::lookup_spec(st.env, name) {
            None => (body, st),
            Some(existing) => {
                let st = crate::moves::diagnose_partial_then_whole_move_spec(e, c, cx, st);
                let (value, st) = crate::moves::take_value_spec(e, c.expr, cx, st);
                let (value, st) = crate::prove::try_elide_bounds_in_typed_expr_spec(value, cx, st);
                let stmt = TypedStmtView::Reassign {
                    name: name,
                    ty: existing.ty,
                    expr: value,
                    drop_old: !crate::scope::copies_spec(existing.ty, cx)
                        && existing.moved.is_none(),
                };
                let env = match crate::scope::lookup_spec(st.env, name) {
                    Some(info) => crate::scope::set_var_spec(
                        st.env,
                        name,
                        reassigned_info_spec(info),
                    ),
                    None => st.env,
                };
                let st = StateView { env, ..st };
                let st = if in_loop { st } else { crate::rewrite::forget_spec(st, name) };
                (body.push(stmt), st)
            },
        },
    }
}

/// `name = e;`.
pub fn check_assign(
    name: &str,
    e: &Expr,
    span: Span,
    in_loop: bool,
    cx: &Context,
    body: Vec<TypedStmt>,
    st: State,
) -> (r: (Vec<TypedStmt>, State))
    ensures
        (crate::ir::typed_stmts_view(r.0@), r.1@) == check_assign_spec(
            name@,
            e@,
            span,
            in_loop,
            cx@,
            crate::ir::typed_stmts_view(body@),
            st@,
        ),
        crate::state::grows(crate::ir::typed_stmts_view(body@), crate::ir::typed_stmts_view(r.0@)),
        crate::state::follows(st@, r.1@),
        crate::state::balanced(st@, r.1@),
        forall|ret: TypeView|
            #![trigger crate::typing::body_typed(crate::ir::typed_stmts_view(body@), ret, crate::typing::declared_in(cx@, st@.env))]
            #![trigger crate::typing::body_typed(crate::ir::typed_stmts_view(r.0@), ret, crate::typing::declared_in(cx@, st@.env))]
            crate::typing::body_typed(
                crate::ir::typed_stmts_view(body@),
                ret,
                crate::typing::declared_in(cx@, st@.env),
            )
                && st@.env.scopes.len() > 0 && crate::typing::quiet(st@, r.1@)
                ==> crate::typing::body_typed(
                    crate::ir::typed_stmts_view(r.0@),
                    ret,
                    crate::typing::declared_in(cx@, st@.env),
                ),
{
    proof {
        reveal(check_assign_spec); reveal(crate::typing::stmt_typed);
    }
    let st = verify_call_args(e, cx, st);
    match check_assigned(name, e, cx, st) {
        (None, st) => (
            body,
            report(st, span, cat3("cannot assign to unknown variable '", name, "'")),
        ),
        (Some(c), st) => match lookup(&st.env, name) {
            None => (body, st),
            Some(existing) => {
                let st = diagnose_partial_then_whole_move(e, &c, cx, st);
                let (value, st) = take_value(e, c.expr, cx, st);
                let (value, st) = try_elide_bounds_in_typed_expr(value, cx, st);
                let stmt = TypedStmt::Reassign {
                    name: text(name),
                    ty: existing.ty.dup(),
                    expr: value,
                    drop_old: !copies(&existing.ty, cx) && existing.moved.is_none(),
                };
                let env = match lookup(&st.env, name) {
                    Some(info) => set_var(st.env, name, &reassigned_info(info)),
                    None => st.env,
                };
                let st = State { env, ..st };
                let st = if in_loop { st } else { forget(st, name) };
                (push(body, stmt), st)
            },
        },
    }
}

/// What [`assign_target`] computes.
pub open spec fn assign_target_spec(
    name: Seq<char>,
    t: TypeView,
) -> Result<(TypeView, Option<u64>, bool), Seq<char>>
{
    match t {
        TypeView::Array { element, length } => Ok(((*element), Some(length), false)),
        TypeView::Vec(element) => Ok(((*element), None, false)),
        TypeView::RefMut(inner) => match *inner {
            TypeView::Array { element, length } => Ok(((*element), Some(length), true)),
            TypeView::Vec(element) => Ok(((*element), None, true)),
            _ => Err(
                "cannot index-assign through reference to "@ + crate::ast::type_text_spec(*inner),
            ),
        },
        TypeView::Ref(_) => Err(
            "cannot index-assign to '"@ + name
                + "': it is borrowed immutably (&T); use '&mut T' in the parameter to allow writes"@,
        ),
        _ => Err(
            "'"@ + name + "' has type "@ + crate::ast::type_text_spec(t)
                + " which is not indexable for assignment"@,
        ),
    }
}

/// The element type, the length where it is known, and whether the target of
/// an element assignment is reached through a reference; or why it cannot be
/// assigned to.
pub fn assign_target(name: &str, t: &Type) -> (r: Result<(Type, Option<u64>, bool), String>)
    ensures
        (match &r { Ok(v0) => Ok((v0.0@, v0.1, v0.2)), Err(v0) => Err(v0@) }) == assign_target_spec(
            name@,
            t@,
        ),
{
    proof {
        reveal_with_fuel(crate::ast::type_view, 4);
    }
    match t {
        Type::Array { element, length } => Ok(((**element).dup(), Some(*length), false)),
        Type::Vec(element) => Ok(((**element).dup(), None, false)),
        Type::RefMut(inner) => match &**inner {
            Type::Array { element, length } => Ok(((**element).dup(), Some(*length), true)),
            Type::Vec(element) => Ok(((**element).dup(), None, true)),
            _ => Err(cat2("cannot index-assign through reference to ", &type_text(&**inner))),
        },
        Type::Ref(_) => Err(
            cat3(
                "cannot index-assign to '",
                name,
                "': it is borrowed immutably (&T); use '&mut T' in the parameter to allow writes",
            ),
        ),
        _ => Err(
            cat5("'", name, "' has type ", &type_text(t), " which is not indexable for assignment"),
        ),
    }
}

/// What [`path_step`] computes.
pub open spec fn path_step_spec(
    segment: Seq<char>,
    t: TypeView,
    last: bool,
    cx: ContextView,
    env: EnvView,
) -> Result<(u32, TypeView), Seq<char>>
{
    match crate::operators::struct_name_of_spec(t) {
        None => Err(
            "cannot apply field path '."@ + segment + "' to non-struct element type "@
                + crate::ast::type_text_spec(t),
        ),
        Some(name) => match crate::scope::lookup_struct_spec(env, name) {
            None => Err("struct '"@ + name + "' is not declared"@),
            Some(decl) => match crate::scope::find_field_spec(decl.fields, segment, None, 0) {
                None => Err(crate::calls::no_such_field_spec(name, segment)),
                Some((k, field)) => if crate::scope::copies_spec(
                    field,
                    cx,
                ) || last && (crate::types::is_owned_str_spec(field) || crate::types::is_vec_spec(field)) {
                    Ok((k, field))
                } else {
                    Err(
                        "field '"@ + name + "."@ + segment + "' has non-Copy type "@
                            + crate::ast::type_text_spec(field)
                            + " — mixed index+field assignment requires Copy types on intermediate path segments; only the leaf may be OwnedStr or Vec<T>"@,
                    )
                },
            },
        },
    }
}

/// One step of a field path: its position and type, or why it cannot be taken.
pub fn path_step(
    segment: &str,
    t: &Type,
    last: bool,
    cx: &Context,
    env: &Env,
) -> (r: Result<(u32, Type), String>)
    ensures
        (match &r { Ok(v0) => Ok((v0.0, v0.1@)), Err(v0) => Err(v0@) }) == path_step_spec(
            segment@,
            t@,
            last,
            cx@,
            env@,
        ),
{
    match struct_name_of(t) {
        None => Err(
            cat4(
                "cannot apply field path '.",
                segment,
                "' to non-struct element type ",
                &type_text(t),
            ),
        ),
        Some(name) => match lookup_struct(env, &name) {
            None => Err(cat3("struct '", &name, "' is not declared")),
            Some(decl) => match find_field(&decl.fields, segment, None) {
                None => Err(no_such_field(&name, segment)),
                Some((k, field)) => if copies(
                    &field,
                    cx,
                ) || last && (is_owned_str(&field) || is_vec(&field)) {
                    Ok((k, field))
                } else {
                    Err(
                        cat7(
                            "field '",
                            &name,
                            ".",
                            segment,
                            "' has non-Copy type ",
                            &type_text(&field),
                            " — mixed index+field assignment requires Copy types on intermediate path segments; only the leaf may be OwnedStr or Vec<T>",
                        ),
                    )
                },
            },
        },
    }
}

/// What [`resolve_path`] computes from position `i` on.
pub open spec fn resolve_path_spec(
    segments: Seq<Seq<char>>,
    cx: ContextView,
    env: EnvView,
    path: Seq<(Seq<char>, u32)>,
    t: TypeView,
    error: Option<Seq<char>>,
    i: int,
) -> (Seq<(Seq<char>, u32)>, TypeView, Option<Seq<char>>)
    decreases segments.len() - i,
{
    if 0 <= i < segments.len() && !error.is_some() {
        let segment = segments[i];
        let (path, t, error) = match path_step_spec(segment, t, i + 1 == segments.len(), cx, env) {
            Err(message) => (path, t, Some(message)),
            Ok((k, field)) => (path.push((segment, k)), field, None),
        };
        resolve_path_spec(segments, cx, env, path, t, error, i + 1)
    } else {
        (path, t, error)
    }
}

/// A field path with the position of each field, and the type at its end.
pub fn resolve_path(
    segments: &Vec<String>,
    cx: &Context,
    env: &Env,
    path: Vec<(String, u32)>,
    t: Type,
    error: Option<String>,
) -> (r: (Vec<(String, u32)>, Type, Option<String>))
    ensures
        (crate::ir::numbered_names_view(r.0@), r.1@, (match &r.2 { Some(v0) => Some(v0@), None => None })) == resolve_path_spec(
            crate::text::strs_view(segments@),
            cx@,
            env@,
            crate::ir::numbered_names_view(path@),
            t@,
            (match &error { Some(v0) => Some(v0@), None => None }),
            0,
        ),
        error is None && r.2 is None ==> r.0@.len() == path@.len() + segments@.len(),
{
    let ghost whole_run = resolve_path_spec(
        crate::text::strs_view(segments@),
        cx@,
        env@,
        crate::ir::numbered_names_view(path@),
        t@,
        (match &error { Some(v0) => Some(v0@), None => None }),
        0,
    );
    let ghost start_path = crate::ir::numbered_names_view(path@);
    let ghost start_error = (match &error { Some(v0) => Some(v0@), None => None });
    let mut path = path;
    let mut t = t;
    let mut error = error;
    let mut i: usize = 0;
    while i < segments.len() && !error.is_some()
        invariant
            i <= segments.len(),
            resolve_path_spec(
                crate::text::strs_view(segments@),
                cx@,
                env@,
                crate::ir::numbered_names_view(path@),
                t@,
                (match &error { Some(v0) => Some(v0@), None => None }),
                i as int,
            ) == whole_run,
            start_error is None && error is None ==> path@.len() == start_path.len() + i,
        decreases segments.len() - i,
    {
        let segment = &segments[i];
        let next = match path_step(segment, &t, i + 1 == segments.len(), cx, env) {
            Err(message) => (path, t, Some(message)),
            Ok((k, field)) => (push(path, (segment.clone(), k)), field, None),
        };
        path = next.0;
        t = next.1;
        error = next.2;
        i += 1;
    }
    (path, t, error)
}

/// What [`next_version`] computes.
pub open spec fn next_version_spec(v: u32) -> u32
{
    if v < 0xffff_ffff { (v + 1) as u32 } else { v }
}

/// The version after another one; the last one stays.
pub fn next_version(v: u32) -> (r: u32)
    ensures
        r == next_version_spec(v),
{
    if v < 0xffff_ffff { (v + 1) as u32 } else { v }
}

/// What [`version_name`] computes.
pub open spec fn version_name_spec(name: Seq<char>, v: u32) -> Seq<char>
{
    name + "#"@ + crate::text::decimal((v as i128) as int)
}

/// How a version of an array is named in facts.
pub fn version_name(name: &str, v: u32) -> (r: String)
    ensures
        r@ == version_name_spec(name@, v),
{
    cat3(name, "#", &int_text(v as i128))
}

/// What [`pin_facts`] computes.
pub open spec fn pin_facts_spec(
    facts: Seq<ExprView>,
    name: Seq<char>,
    version: u32,
) -> Seq<ExprView>
{
    facts.map_values(|f: ExprView| crate::rewrite::pin_var_to_version_spec(f, name, version))
}

/// The facts, speaking of an earlier version.
pub fn pin_facts(facts: &Vec<Expr>, name: &str, version: u32) -> (r: Vec<Expr>)
    ensures
        crate::ast::exprs_view(r@) == pin_facts_spec(
            crate::ast::exprs_view(facts@),
            name@,
            version,
        ),
{
    let ghost whole = pin_facts_spec(crate::ast::exprs_view(facts@), name@, version);
    let ghost all = crate::ast::exprs_view(facts@);
    let mut r: Vec<Expr> = Vec::new();
    let mut i: usize = 0;
    while i < facts.len()
        invariant
            i <= facts.len(),
            all == crate::ast::exprs_view(facts@),
            whole == pin_facts_spec(crate::ast::exprs_view(facts@), name@, version),
            crate::ast::exprs_view(r@) == whole.take(i as int),
        decreases facts.len() - i,
    {
        let f = &facts[i];
        assert(all[i as int] == f@);
        r.push(pin_var_to_version(f, name, version));
        assert(whole.take(i + 1) =~= whole.take(i as int).push(whole[i as int]));
        i += 1;
    }
    assert(whole.take(i as int) =~= whole);
    r
}

/// What [`record_store`] computes.
pub open spec fn record_store_spec(
    name: Seq<char>,
    version: u32,
    index: ExprView,
    value: ExprView,
    span: Span,
    st: StateView,
) -> StateView
{
    let facts = pin_facts_spec(st.facts, name, version);
    let next: u32 = next_version_spec(version);
    let env = match crate::scope::lookup_spec(st.env, name) {
        Some(info) => crate::scope::set_var_spec(
            st.env,
            name,
            VarInfoView { vec_literal_elements: None, array_version: next, ..info },
        ),
        None => st.env,
    };
    let stored = crate::rewrite::store_fact_spec(
        version_name_spec(name, next),
        version_name_spec(name, version),
        index,
        value,
    );
    let element = crate::construct::mk_index_spec(
        crate::construct::mk_var_spec(name, span),
        index,
        span,
    );
    let read = crate::construct::mk_binary_spec(BinaryOp::Eq, element, value, span);
    StateView { env, facts: facts.push(stored).push(read), ..st }
}

/// What is known after an element was assigned: the earlier facts speak of
/// the earlier version, and the new version differs in the one element.
pub fn record_store(
    name: &str,
    version: u32,
    index: &Expr,
    value: &Expr,
    span: Span,
    st: State,
) -> (r: State)
    ensures
        r@ == record_store_spec(name@, version, index@, value@, span, st@),
        crate::state::follows(st@, r@),
        crate::state::balanced(st@, r@),
{
    let facts = pin_facts(&st.facts, name, version);
    let next: u32 = next_version(version);
    let env = match lookup(&st.env, name) {
        Some(info) => set_var(
            st.env,
            name,
            &VarInfo { vec_literal_elements: None, array_version: next, ..info },
        ),
        None => st.env,
    };
    let stored = store_fact(&version_name(name, next), &version_name(name, version), index, value);
    let element = mk_index(mk_var(name, span), index.dup(), span);
    let read = mk_binary(BinaryOp::Eq, element, value.dup(), span);
    State { env, facts: push(push(facts, stored), read), ..st }
}

/// What [`constant_index_error`] computes.
pub open spec fn constant_index_error_spec(
    length: Option<u64>,
    through_ref: bool,
    index: CheckedExprView,
) -> Option<Seq<char>>
{
    match (length, crate::operators::int_constant_spec(index.expr.constant)) {
        (Some(n), Some(k)) => if through_ref { None } else { crate::calls::index_error_spec(k, n) },
        _ => None,
    }
}

/// Why a known index does not lie in an array that is assigned directly.
pub fn constant_index_error(
    length: Option<u64>,
    through_ref: bool,
    index: &CheckedExpr,
) -> (r: Option<String>)
    ensures
        (match &r { Some(v0) => Some(v0@), None => None }) == constant_index_error_spec(
            length,
            through_ref,
            index@,
        ),
{
    match (length, int_constant(&index.expr.constant)) {
        (Some(n), Some(k)) => if through_ref { None } else { index_error(k, n) },
        _ => None,
    }
}

/// What [`constant_index_fits`] computes.
pub open spec fn constant_index_fits_spec(
    length: Option<u64>,
    through_ref: bool,
    index: CheckedExprView,
) -> bool
{
    length.is_some() && crate::operators::int_constant_spec(index.expr.constant).is_some()
        && !through_ref
}

/// Whether an index needs no check as it is a constant.
pub fn constant_index_fits(length: Option<u64>, through_ref: bool, index: &CheckedExpr) -> (r: bool)
    ensures
        r == constant_index_fits_spec(length, through_ref, index@),
{
    length.is_some() && int_constant(&index.expr.constant).is_some() && !through_ref
}

/// What [`finish_index_assign`] computes.
pub open spec fn finish_index_assign_spec(
    name: Seq<char>,
    info: VarInfoView,
    index: TypedExprView,
    path: Seq<(Seq<char>, u32)>,
    value: TypedExprView,
    unchecked: bool,
    span: Span,
    cx: ContextView,
    body: Seq<TypedStmtView>,
    st: StateView,
) -> (Seq<TypedStmtView>, StateView)
{
    let value = crate::moves::inject_branch_drops_spec(value, cx);
    let (index, st) = crate::prove::try_elide_bounds_in_typed_expr_spec(index, cx, st);
    let (value, st) = crate::prove::try_elide_bounds_in_typed_expr_spec(value, cx, st);
    let (safe, st) = if unchecked {
        (true, st)
    } else if cx.verify {
        let facts = (st.facts);
        let env = st.env;
        let array = crate::scope::typed_spec(TypedExprKindView::Var(name), info.ty, None, span);
        crate::prove::index_in_bounds_spec(array, index, span, facts, env, cx, st)
    } else {
        (false, st)
    };
    let at = crate::rewrite::typed_to_expr_spec(index);
    let new = crate::rewrite::typed_to_expr_spec(value);
    let stmt = TypedStmtView::IndexAssign {
        name: name,
        base_ty: info.ty,
        index,
        field_path: path,
        value,
        checked: !safe,
    };
    (body.push(stmt), record_store_spec(name, info.array_version, at, new, span, st))
}

/// An element assignment on its checked operands.
pub fn finish_index_assign(
    name: &str,
    info: &VarInfo,
    index: TypedExpr,
    path: Vec<(String, u32)>,
    value: TypedExpr,
    unchecked: bool,
    span: Span,
    cx: &Context,
    body: Vec<TypedStmt>,
    st: State,
) -> (r: (Vec<TypedStmt>, State))
    ensures
        (crate::ir::typed_stmts_view(r.0@), r.1@) == finish_index_assign_spec(
            name@,
            info@,
            index@,
            crate::ir::numbered_names_view(path@),
            value@,
            unchecked,
            span,
            cx@,
            crate::ir::typed_stmts_view(body@),
            st@,
        ),
        crate::state::grows(crate::ir::typed_stmts_view(body@), crate::ir::typed_stmts_view(r.0@)),
        crate::state::follows(st@, r.1@),
        crate::state::balanced(st@, r.1@),
        forall|ret: TypeView|
            #![trigger crate::typing::body_typed(crate::ir::typed_stmts_view(body@), ret, crate::typing::declared_in(cx@, st@.env))]
            #![trigger crate::typing::body_typed(crate::ir::typed_stmts_view(r.0@), ret, crate::typing::declared_in(cx@, st@.env))]
            crate::types::is_integer_spec(index@.ty)
                && crate::typing::place_fits(
                    info@.ty,
                    crate::ir::numbered_names_view(path@),
                    value@.ty,
                    crate::typing::declared_in(cx@, st@.env),
                )
                && crate::typing::well_typed(index@, crate::typing::declared_in(cx@, st@.env))
                && crate::typing::well_typed(value@, crate::typing::declared_in(cx@, st@.env))
                && crate::typing::body_typed(
                    crate::ir::typed_stmts_view(body@),
                    ret,
                    crate::typing::declared_in(cx@, st@.env),
                )
                && st@.env.scopes.len() > 0 && crate::typing::quiet(st@, r.1@)
                ==> crate::typing::body_typed(
                    crate::ir::typed_stmts_view(r.0@),
                    ret,
                    crate::typing::declared_in(cx@, st@.env),
                ),
{
    proof {
        reveal(crate::typing::stmt_typed);
        if crate::typing::well_typed(value@, crate::typing::declared_in(cx@, st@.env)) {
            crate::moves::injected_drops_fit(value@, cx@, crate::typing::declared_in(cx@, st@.env));
        }
    }
    let value = inject_branch_drops(&value, cx);
    let (index, st) = try_elide_bounds_in_typed_expr(index, cx, st);
    let (value, st) = try_elide_bounds_in_typed_expr(value, cx, st);
    let (safe, st) = if unchecked {
        (true, st)
    } else if cx.verify {
        let facts = dup_exprs(&st.facts);
        let env = st.env.dup();
        let array = typed(TypedExprKind::Var(text(name)), info.ty.dup(), None, span);
        index_in_bounds(&array, &index, span, &facts, &env, cx, st)
    } else {
        (false, st)
    };
    let at = typed_to_expr(&index);
    let new = typed_to_expr(&value);
    let stmt = TypedStmt::IndexAssign {
        name: text(name),
        base_ty: info.ty.dup(),
        index,
        field_path: path,
        value,
        checked: !safe,
    };
    (push(body, stmt), record_store(name, info.array_version, &at, &new, span, st))
}

/// What [`check_element_assign`] computes.
pub open spec fn check_element_assign_spec(
    name: Seq<char>,
    info: VarInfoView,
    element: TypeView,
    length: Option<u64>,
    through_ref: bool,
    index: ExprView,
    path: Seq<Seq<char>>,
    value: ExprView,
    span: Span,
    cx: ContextView,
    body: Seq<TypedStmtView>,
    st: StateView,
) -> (Seq<TypedStmtView>, StateView)
{
    let st = crate::prove::verify_call_args_spec(index, cx, st);
    let st = crate::prove::verify_call_args_spec(value, cx, st);
    let (k, st) = check_value_spec(index, cx, st);
    let st = if crate::types::is_integer_spec(k.expr.ty) {
        st
    } else {
        crate::scope::report_spec(
            st,
            index.span,
            "index must be an integer, got "@ + crate::ast::type_text_spec(k.expr.ty),
        )
    };
    match resolve_path_spec(path, cx, st.env, Seq::empty(), element, None, 0) {
        (_, _, Some(message)) => (body, crate::scope::report_spec(st, span, message)),
        (resolved, t, None) => {
            let (c, st) = check_value_spec(value, cx, st);
            let (c, st) = crate::numeric::coerce_checked_spec(
                c,
                t,
                value.span,
                "index-assign value"@,
                st,
            );
            let st = crate::moves::diagnose_partial_then_whole_move_spec(value, c, cx, st);
            let env = crate::moves::consume_if_moved_var_spec(value, c.expr.ty, cx, st.env);
            let st = StateView { env, ..st };
            match constant_index_error_spec(length, through_ref, k) {
                Some(message) => (body, crate::scope::report_spec(st, index.span, message)),
                None => {
                    let unchecked = constant_index_fits_spec(length, through_ref, k);
                    finish_index_assign_spec(
                        name,
                        info,
                        k.expr,
                        resolved,
                        c.expr,
                        unchecked,
                        span,
                        cx,
                        body,
                        st,
                    )
                },
            }
        },
    }
}

/// `name[index].path = value;` on a target that can be assigned to.
#[verifier::rlimit(40)]
pub fn check_element_assign(
    name: &str,
    info: &VarInfo,
    element: Type,
    length: Option<u64>,
    through_ref: bool,
    index: &Expr,
    path: &Vec<String>,
    value: &Expr,
    span: Span,
    cx: &Context,
    body: Vec<TypedStmt>,
    st: State,
) -> (r: (Vec<TypedStmt>, State))
    ensures
        (crate::ir::typed_stmts_view(r.0@), r.1@) == check_element_assign_spec(
            name@,
            info@,
            element@,
            length,
            through_ref,
            index@,
            crate::text::strs_view(path@),
            value@,
            span,
            cx@,
            crate::ir::typed_stmts_view(body@),
            st@,
        ),
        crate::state::grows(crate::ir::typed_stmts_view(body@), crate::ir::typed_stmts_view(r.0@)),
        crate::state::follows(st@, r.1@),
        crate::state::balanced(st@, r.1@),
        forall|ret: TypeView|
            #![trigger crate::typing::body_typed(crate::ir::typed_stmts_view(body@), ret, crate::typing::declared_in(cx@, st@.env))]
            #![trigger crate::typing::body_typed(crate::ir::typed_stmts_view(r.0@), ret, crate::typing::declared_in(cx@, st@.env))]
            crate::typing::holds_elements(crate::types::deref_spec(info@.ty), element@)
                && crate::typing::body_typed(
                    crate::ir::typed_stmts_view(body@),
                    ret,
                    crate::typing::declared_in(cx@, st@.env),
                )
                && st@.env.scopes.len() > 0 && crate::typing::quiet(st@, r.1@)
                ==> crate::typing::body_typed(
                    crate::ir::typed_stmts_view(r.0@),
                    ret,
                    crate::typing::declared_in(cx@, st@.env),
                ),
{
    let ghost before = st@;
    let ghost of = element@;
    proof {
        reveal(crate::typing::stmt_typed);
    }
    let st = verify_call_args(index, cx, st);
    let st = verify_call_args(value, cx, st);
    let (k, st) = check_value(index, cx, st);
    proof {
        assert(
            before.env.scopes.len() > 0
                && crate::typing::quiet(before, st@)
                ==> crate::typing::fits(k@, crate::typing::declared_in(cx@, before.env))
        );
    }
    let st = if is_integer(&k.expr.ty) {
        st
    } else {
        report(st, index.span, cat2("index must be an integer, got ", &type_text(&k.expr.ty)))
    };
    match resolve_path(path, cx, &st.env, Vec::new(), element, None) {
        (_, _, Some(message)) => (body, report(st, span, message)),
        (resolved, t, None) => {
            proof {
                let d = crate::typing::declared_in(cx@, st@.env);
                crate::typing::path_grows(of, Seq::empty(), of, (Seq::empty(), 0), of, d);
                resolved_path_is_declared(
                    crate::text::strs_view(path@),
                    cx@,
                    st@.env,
                    Seq::empty(),
                    of,
                    None,
                    0,
                    of,
                    d,
                );
            }
            let (c, st) = check_value(value, cx, st);
            let (c, st) = coerce_checked(c, &t, value.span, "index-assign value", st);
            proof {
                assert(
                    before.env.scopes.len() > 0
                        ==> crate::typing::declared_in(cx@, st@.env) == crate::typing::declared_in(
                            cx@,
                            before.env,
                        )
                );
            }
            let st = diagnose_partial_then_whole_move(value, &c, cx, st);
            let env = consume_if_moved_var(value, &c.expr.ty, cx, st.env);
            let st = State { env, ..st };
            match constant_index_error(length, through_ref, &k) {
                Some(message) => (body, report(st, index.span, message)),
                None => {
                    let unchecked = constant_index_fits(length, through_ref, &k);
                    proof {
                        assert(
                            before.env.scopes.len() > 0
                                ==> crate::typing::declared_in(cx@, st@.env) == crate::typing::declared_in(
                                    cx@,
                                    before.env,
                                )
                        );
                        assert(
                            before.env.scopes.len() > 0
                                && crate::typing::quiet(before, st@)
                                ==> crate::typing::fits(
                                    c@,
                                    crate::typing::declared_in(cx@, before.env),
                                )
                        );
                    }
                    finish_index_assign(
                        name,
                        info,
                        k.expr,
                        resolved,
                        c.expr,
                        unchecked,
                        span,
                        cx,
                        body,
                        st,
                    )
                },
            }
        },
    }
}

/// What [`check_index_assign`] computes.
#[verifier::opaque]
pub open spec fn check_index_assign_spec(
    name: Seq<char>,
    index: ExprView,
    path: Seq<Seq<char>>,
    value: ExprView,
    span: Span,
    cx: ContextView,
    body: Seq<TypedStmtView>,
    st: StateView,
) -> (Seq<TypedStmtView>, StateView)
{
    match crate::scope::lookup_spec(st.env, name) {
        None => (
            body,
            crate::scope::report_spec(
                st,
                span,
                "cannot index-assign to unknown variable '"@ + name + "'"@,
            ),
        ),
        Some(info) => {
            let st = if info.moved.is_some() {
                crate::scope::report_spec(
                    st,
                    span,
                    "cannot index-assign to '"@ + name + "' after it was moved"@,
                )
            } else {
                st
            };
            match assign_target_spec(name, info.ty) {
                Err(message) => (body, crate::scope::report_spec(st, span, message)),
                Ok((element, length, through_ref)) => check_element_assign_spec(
                    name,
                    info,
                    element,
                    length,
                    through_ref,
                    index,
                    path,
                    value,
                    span,
                    cx,
                    body,
                    st,
                ),
            }
        },
    }
}

/// `name[index].path = value;`.
pub fn check_index_assign(
    name: &str,
    index: &Expr,
    path: &Vec<String>,
    value: &Expr,
    span: Span,
    cx: &Context,
    body: Vec<TypedStmt>,
    st: State,
) -> (r: (Vec<TypedStmt>, State))
    ensures
        (crate::ir::typed_stmts_view(r.0@), r.1@) == check_index_assign_spec(
            name@,
            index@,
            crate::text::strs_view(path@),
            value@,
            span,
            cx@,
            crate::ir::typed_stmts_view(body@),
            st@,
        ),
        crate::state::grows(crate::ir::typed_stmts_view(body@), crate::ir::typed_stmts_view(r.0@)),
        crate::state::follows(st@, r.1@),
        crate::state::balanced(st@, r.1@),
        forall|ret: TypeView|
            #![trigger crate::typing::body_typed(crate::ir::typed_stmts_view(body@), ret, crate::typing::declared_in(cx@, st@.env))]
            #![trigger crate::typing::body_typed(crate::ir::typed_stmts_view(r.0@), ret, crate::typing::declared_in(cx@, st@.env))]
            crate::typing::body_typed(
                crate::ir::typed_stmts_view(body@),
                ret,
                crate::typing::declared_in(cx@, st@.env),
            )
                && st@.env.scopes.len() > 0 && crate::typing::quiet(st@, r.1@)
                ==> crate::typing::body_typed(
                    crate::ir::typed_stmts_view(r.0@),
                    ret,
                    crate::typing::declared_in(cx@, st@.env),
                ),
{
    proof {
        reveal(check_index_assign_spec); reveal(crate::typing::stmt_typed);
    }
    match lookup(&st.env, name) {
        None => (
            body,
            report(st, span, cat3("cannot index-assign to unknown variable '", name, "'")),
        ),
        Some(info) => {
            let st = if info.moved.is_some() {
                report(st, span, cat3("cannot index-assign to '", name, "' after it was moved"))
            } else {
                st
            };
            match assign_target(name, &info.ty) {
                Err(message) => (body, report(st, span, message)),
                Ok((element, length, through_ref)) => check_element_assign(
                    name,
                    &info,
                    element,
                    length,
                    through_ref,
                    index,
                    path,
                    value,
                    span,
                    cx,
                    body,
                    st,
                ),
            }
        },
    }
}

/// What [`field_target`] computes.
pub open spec fn field_target_spec(t: TypeView) -> Result<(Seq<char>, bool), Seq<char>>
{
    match t {
        TypeView::Struct(name) => Ok((name, false)),
        TypeView::RefMut(inner) => match *inner {
            TypeView::Struct(name) => Ok((name, true)),
            _ => Err(
                "cannot assign through `mut ref "@ + crate::ast::type_text_spec(*inner)
                    + "` — only structs support field assignment in v1"@,
            ),
        },
        TypeView::Ref(_) => Err(
            "cannot field-assign through an immutable `ref` — use `mut ref T` on the binding"@,
        ),
        _ => Err(
            "cannot field-assign onto "@ + crate::ast::type_text_spec(t)
                + " — only structs support field assignment in v1"@,
        ),
    }
}

/// The struct that a field is assigned in and whether it is reached through
/// an exclusive reference; or why there is none.
pub fn field_target(t: &Type) -> (r: Result<(String, bool), String>)
    ensures
        (match &r { Ok(v0) => Ok((v0.0@, v0.1)), Err(v0) => Err(v0@) }) == field_target_spec(t@),
{
    proof {
        reveal_with_fuel(crate::ast::type_view, 4);
    }
    match t {
        Type::Struct(name) => Ok((name.clone(), false)),
        Type::RefMut(inner) => match &**inner {
            Type::Struct(name) => Ok((name.clone(), true)),
            _ => Err(
                cat3(
                    "cannot assign through `mut ref ",
                    &type_text(&**inner),
                    "` — only structs support field assignment in v1",
                ),
            ),
        },
        Type::Ref(_) => Err(
            text("cannot field-assign through an immutable `ref` — use `mut ref T` on the binding"),
        ),
        _ => Err(
            cat3(
                "cannot field-assign onto ",
                &type_text(t),
                " — only structs support field assignment in v1",
            ),
        ),
    }
}

/// What [`place_root`] computes.
pub open spec fn place_root_spec(e: ExprView) -> Option<Seq<char>>
    decreases e,
{
    match e.kind {
        ExprKindView::Var(name) => Some(name),
        ExprKindView::FieldAccess { object, .. } => place_root_spec(*object),
        _ => None,
    }
}

/// The variable that a place is part of.
pub fn place_root(e: &Expr) -> (r: Option<String>)
    ensures
        (match &r { Some(v0) => Some(v0@), None => None }) == place_root_spec(e@),
    decreases e,
{
    match &e.kind {
        ExprKind::Var(name) => Some(name.clone()),
        ExprKind::FieldAccess { object, .. } => place_root(&**object),
        _ => None,
    }
}

/// What [`forget_literal_of`] computes.
pub open spec fn forget_literal_of_spec(object: ExprView, st: StateView) -> StateView
{
    match place_root_spec(object) {
        Some(name) => match crate::scope::lookup_spec(st.env, name) {
            Some(info) => StateView {
                env: crate::scope::set_var_spec(
                    st.env,
                    name,
                    VarInfoView { struct_literal_fields: None, ..info },
                ),
                ..st
            },
            None => st,
        },
        None => st,
    }
}

/// Forgets the literal that a place was made from.
pub fn forget_literal_of(object: &Expr, st: State) -> (r: State)
    ensures
        r@ == forget_literal_of_spec(object@, st@),
        crate::state::follows(st@, r@),
        crate::state::balanced(st@, r@),
{
    match place_root(object) {
        Some(name) => match lookup(&st.env, &name) {
            Some(info) => State {
                env: set_var(st.env, &name, &VarInfo { struct_literal_fields: None, ..info }),
                ..st
            },
            None => st,
        },
        None => st,
    }
}

/// What [`check_field_assign`] computes.
#[verifier::opaque]
pub open spec fn check_field_assign_spec(
    object: ExprView,
    field: Seq<char>,
    field_span: Span,
    value: ExprView,
    span: Span,
    cx: ContextView,
    body: Seq<TypedStmtView>,
    st: StateView,
) -> (Seq<TypedStmtView>, StateView)
{
    let st = crate::prove::verify_call_args_spec(object, cx, st);
    let st = crate::prove::verify_call_args_spec(value, cx, st);
    let (o, st) = check_value_spec(object, cx, st);
    match field_target_spec(o.expr.ty) {
        Err(message) => (body, crate::scope::report_spec(st, span, message)),
        Ok((name, through_mut_ref)) => match crate::scope::lookup_struct_spec(st.env, name) {
            None => (
                body,
                crate::scope::report_spec(st, span, "struct '"@ + name + "' is not declared"@),
            ),
            Some(decl) => match crate::scope::find_field_spec(decl.fields, field, None, 0) {
                None => (
                    body,
                    crate::scope::report_spec(
                        st,
                        field_span,
                        crate::calls::no_such_field_spec(name, field),
                    ),
                ),
                Some((k, t)) => {
                    let (c, st) = check_value_spec(value, cx, st);
                    let (c, st) = crate::numeric::coerce_checked_spec(
                        c,
                        t,
                        value.span,
                        "field assignment value"@,
                        st,
                    );
                    let (new, st) = crate::moves::take_value_spec(value, c.expr, cx, st);
                    let st = forget_literal_of_spec(object, st);
                    let stmt = TypedStmtView::FieldAssign {
                        object: o.expr,
                        field: field,
                        field_index: k,
                        through_mut_ref,
                        value: new,
                    };
                    (body.push(stmt), st)
                },
            },
        },
    }
}

/// `object.field = value;`.
pub fn check_field_assign(
    object: &Expr,
    field: &str,
    field_span: Span,
    value: &Expr,
    span: Span,
    cx: &Context,
    body: Vec<TypedStmt>,
    st: State,
) -> (r: (Vec<TypedStmt>, State))
    ensures
        (crate::ir::typed_stmts_view(r.0@), r.1@) == check_field_assign_spec(
            object@,
            field@,
            field_span,
            value@,
            span,
            cx@,
            crate::ir::typed_stmts_view(body@),
            st@,
        ),
        crate::state::grows(crate::ir::typed_stmts_view(body@), crate::ir::typed_stmts_view(r.0@)),
        crate::state::follows(st@, r.1@),
        crate::state::balanced(st@, r.1@),
        forall|ret: TypeView|
            #![trigger crate::typing::body_typed(crate::ir::typed_stmts_view(body@), ret, crate::typing::declared_in(cx@, st@.env))]
            #![trigger crate::typing::body_typed(crate::ir::typed_stmts_view(r.0@), ret, crate::typing::declared_in(cx@, st@.env))]
            crate::typing::body_typed(
                crate::ir::typed_stmts_view(body@),
                ret,
                crate::typing::declared_in(cx@, st@.env),
            )
                && st@.env.scopes.len() > 0 && crate::typing::quiet(st@, r.1@)
                ==> crate::typing::body_typed(
                    crate::ir::typed_stmts_view(r.0@),
                    ret,
                    crate::typing::declared_in(cx@, st@.env),
                ),
{
    proof {
        reveal(check_field_assign_spec); reveal(crate::typing::stmt_typed);
    }
    let st = verify_call_args(object, cx, st);
    let st = verify_call_args(value, cx, st);
    let (o, st) = check_value(object, cx, st);
    match field_target(&o.expr.ty) {
        Err(message) => (body, report(st, span, message)),
        Ok((name, through_mut_ref)) => match lookup_struct(&st.env, &name) {
            None => (body, report(st, span, cat3("struct '", &name, "' is not declared"))),
            Some(decl) => match find_field(&decl.fields, field, None) {
                None => (body, report(st, field_span, no_such_field(&name, field))),
                Some((k, t)) => {
                    let (c, st) = check_value(value, cx, st);
                    let (c, st) = coerce_checked(c, &t, value.span, "field assignment value", st);
                    let (new, st) = take_value(value, c.expr, cx, st);
                    let st = forget_literal_of(object, st);
                    let stmt = TypedStmt::FieldAssign {
                        object: o.expr,
                        field: text(field),
                        field_index: k,
                        through_mut_ref,
                        value: new,
                    };
                    (push(body, stmt), st)
                },
            },
        },
    }
}

/// What [`return_drops`] computes.
pub open spec fn return_drops_spec(
    bs: Seq<(Seq<char>, VarInfoView)>,
    cx: ContextView,
) -> Seq<TypedStmtView>
{
    bs.filter(
        |b: (Seq<char>, VarInfoView)| !crate::scope::copies_spec(b.1.ty, cx) && b.1.moved.is_none()
            && !b.1.no_drop,
    ).map_values(|b: (Seq<char>, VarInfoView)| TypedStmtView::Drop {
        name: b.0,
        ty: b.1.ty,
        moved_fields: crate::effects::field_names_spec(b.1.moved_fields),
    })
}

/// The drops of the bindings that own a value at a `return`.
pub fn return_drops(bs: &Vec<(String, VarInfo)>, cx: &Context) -> (r: Vec<TypedStmt>)
    ensures
        crate::ir::typed_stmts_view(r@) == return_drops_spec(crate::state::scope_view(bs@), cx@),
{
    let ghost all = crate::state::scope_view(bs@);
    let mut r: Vec<TypedStmt> = Vec::new();
    let mut i: usize = 0;
    proof {
        reveal(Seq::filter);
        assert(all.take(0) =~= Seq::empty());
    }
    while i < bs.len()
        invariant
            i <= bs.len(),
            all == crate::state::scope_view(bs@),
            crate::ir::typed_stmts_view(r@) == return_drops_spec(all.take(i as int), cx@),
        decreases bs.len() - i,
    {
        let b = &bs[i];
        proof {
            reveal(Seq::filter);
            assert(all[i as int] == (b.0@, b.1@));
            assert(all.take(i + 1).drop_last() =~= all.take(i as int));
            assert(all.take(i + 1).last() == all[i as int]);
        }
        if !copies(&b.1.ty, cx) && b.1.moved.is_none() && !b.1.no_drop {
            r.push(TypedStmt::Drop {
            name: b.0.clone(),
            ty: b.1.ty.dup(),
            moved_fields: field_names(&b.1.moved_fields),
        });
        }
        i += 1;
    }
    assert(all.take(i as int) =~= all);
    r
}

/// What [`check_returned`] computes.
pub open spec fn check_returned_spec(
    e: ExprView,
    t: TypeView,
    cx: ContextView,
    st: StateView,
) -> (CheckedExprView, StateView)
{
    match crate::calls::try_elaborate_empty_vec_spec(e, t, st) {
        (Some(c), st) => (c, st),
        (None, st) => {
            let (c, st) = check_value_spec(e, cx, st);
            crate::numeric::coerce_checked_spec(c, t, e.span, "return expression"@, st)
        },
    }
}

/// The value that a `return` gives back.
pub fn check_returned(e: &Expr, t: &Type, cx: &Context, st: State) -> (r: (CheckedExpr, State))
    ensures
        (r.0@, r.1@) == check_returned_spec(e@, t@, cx@, st@),
        r.0@.expr.ty == t@,
        crate::state::follows(st@, r.1@),
        crate::state::balanced(st@, r.1@),
        st@.env.scopes.len() > 0
            && crate::typing::quiet(st@, r.1@)
            ==> crate::typing::fits(r.0@, crate::typing::declared_in(cx@, st@.env)),
{
    proof {
        reveal(crate::typing::well_typed); reveal(crate::typing::stmt_typed);
    }
    match try_elaborate_empty_vec(e, t, st) {
        (Some(c), st) => (c, st),
        (None, st) => {
            let (c, st) = check_value(e, cx, st);
            coerce_checked(c, t, e.span, "return expression", st)
        },
    }
}

/// What [`check_return`] computes.
#[verifier::opaque]
pub open spec fn check_return_spec(
    e: ExprView,
    f: FunctionView,
    cx: ContextView,
    body: Seq<TypedStmtView>,
    st: StateView,
) -> (Seq<TypedStmtView>, StateView)
{
    let st = crate::prove::verify_call_args_spec(e, cx, st);
    let (c, st) = check_returned_spec(e, f.return_type, cx, st);
    let st = crate::moves::diagnose_partial_then_whole_move_spec(e, c, cx, st);
    let (value, st) = crate::moves::take_value_spec(e, c.expr, cx, st);
    let st = crate::prove::verify_ensures_at_return_spec(f, e, cx, st);
    let (value, st) = crate::prove::try_elide_bounds_in_typed_expr_spec(value, cx, st);
    let temp = "__intent_ret_"@ + crate::text::decimal((e.span.start as int));
    let t = f.return_type;
    let body = body.push(TypedStmtView::Let { name: temp, ty: t, expr: value });
    let body = body + return_drops_spec(crate::scope::all_bindings_spec(st.env), cx);
    let kept = crate::scope::typed_spec(TypedExprKindView::Var(temp), t, None, e.span);
    (body.push(TypedStmtView::Return { expr: kept }), st)
}

/// `return e;`: the value is kept, everything that is still owned is dropped,
/// and the kept value is returned.
pub fn check_return(
    e: &Expr,
    f: &Function,
    cx: &Context,
    body: Vec<TypedStmt>,
    st: State,
) -> (r: (Vec<TypedStmt>, State))
    ensures
        (crate::ir::typed_stmts_view(r.0@), r.1@) == check_return_spec(
            e@,
            f@,
            cx@,
            crate::ir::typed_stmts_view(body@),
            st@,
        ),
        always_leaves(crate::ir::typed_stmts_view(r.0@)),
        crate::state::grows(crate::ir::typed_stmts_view(body@), crate::ir::typed_stmts_view(r.0@)),
        crate::state::follows(st@, r.1@),
        crate::state::balanced(st@, r.1@),
        crate::typing::body_typed(
            crate::ir::typed_stmts_view(body@),
            f@.return_type,
            crate::typing::declared_in(cx@, st@.env),
        )
            && st@.env.scopes.len() > 0
            && crate::typing::quiet(st@, r.1@)
            ==> crate::typing::body_typed(
                crate::ir::typed_stmts_view(r.0@),
                f@.return_type,
                crate::typing::declared_in(cx@, st@.env),
            ),
{
    proof {
        reveal(check_return_spec); reveal(crate::typing::stmt_typed);
    }
    let st = verify_call_args(e, cx, st);
    let (c, st) = check_returned(e, &f.return_type, cx, st);
    let st = diagnose_partial_then_whole_move(e, &c, cx, st);
    let (value, st) = take_value(e, c.expr, cx, st);
    let st = verify_ensures_at_return(f, e, cx, st);
    let (value, st) = try_elide_bounds_in_typed_expr(value, cx, st);
    let temp = cat2("__intent_ret_", &usize_text(e.span.start));
    let t = f.return_type.dup();
    let body = push(body, TypedStmt::Let { name: temp.clone(), ty: t.dup(), expr: value });
    let body = join(body, return_drops(&all_bindings(&st.env), cx));
    let kept = typed(TypedExprKind::Var(temp), t, None, e.span);
    (push(body, TypedStmt::Return { expr: kept }), st)
}

/// What [`check_condition`] computes.
#[verifier::opaque]
pub open spec fn check_condition_spec(
    e: ExprView,
    context: Seq<char>,
    cx: ContextView,
    st: StateView,
) -> (CheckedExprView, StateView)
{
    let st = crate::prove::verify_call_args_spec(e, cx, st);
    let (c, st) = check_value_spec(e, cx, st);
    let st = crate::numeric::require_type_spec(c.expr.ty, TypeView::Bool, e.span, context, st);
    (c, st)
}

/// A condition, which has to be a truth value.
pub fn check_condition(
    e: &Expr,
    context: &str,
    cx: &Context,
    st: State,
) -> (r: (CheckedExpr, State))
    ensures
        (r.0@, r.1@) == check_condition_spec(e@, context@, cx@, st@),
        crate::typing::quiet(st@, r.1@) ==> r.0@.expr.ty == TypeView::Bool,
        crate::state::follows(st@, r.1@),
        crate::state::balanced(st@, r.1@),
        crate::state::same_facts(st@, r.1@),
        st@.env.scopes.len() > 0
            && crate::typing::quiet(st@, r.1@)
            ==> crate::typing::fits(r.0@, crate::typing::declared_in(cx@, st@.env)),
{
    proof {
        reveal(check_condition_spec); reveal(crate::typing::stmt_typed);
    }
    let st = verify_call_args(e, cx, st);
    let (c, st) = check_value(e, cx, st);
    let st = require_type(&c.expr.ty, &Type::Bool, e.span, context, st);
    (c, st)
}

/// What [`check_assert`] computes.
#[verifier::opaque]
pub open spec fn check_assert_spec(
    e: ExprView,
    message: Option<Seq<char>>,
    cx: ContextView,
    body: Seq<TypedStmtView>,
    st: StateView,
) -> (Seq<TypedStmtView>, StateView)
{
    let (c, st) = check_condition_spec(e, "assert condition"@, cx, st);
    let (value, st) = crate::prove::try_elide_bounds_in_typed_expr_spec(c.expr, cx, st);
    let message = match message {
        Some(m) => Some(m),
        None => None,
    };
    (body.push(TypedStmtView::Assert { expr: value, message }), st)
}

/// `assert e, message;`.
pub fn check_assert(
    e: &Expr,
    message: &Option<String>,
    cx: &Context,
    body: Vec<TypedStmt>,
    st: State,
) -> (r: (Vec<TypedStmt>, State))
    ensures
        (crate::ir::typed_stmts_view(r.0@), r.1@) == check_assert_spec(
            e@,
            (match &message { Some(v0) => Some(v0@), None => None }),
            cx@,
            crate::ir::typed_stmts_view(body@),
            st@,
        ),
        crate::state::grows(crate::ir::typed_stmts_view(body@), crate::ir::typed_stmts_view(r.0@)),
        crate::state::follows(st@, r.1@),
        crate::state::balanced(st@, r.1@),
        forall|ret: TypeView|
            #![trigger crate::typing::body_typed(crate::ir::typed_stmts_view(body@), ret, crate::typing::declared_in(cx@, st@.env))]
            #![trigger crate::typing::body_typed(crate::ir::typed_stmts_view(r.0@), ret, crate::typing::declared_in(cx@, st@.env))]
            crate::typing::body_typed(
                crate::ir::typed_stmts_view(body@),
                ret,
                crate::typing::declared_in(cx@, st@.env),
            )
                && st@.env.scopes.len() > 0 && crate::typing::quiet(st@, r.1@)
                ==> crate::typing::body_typed(
                    crate::ir::typed_stmts_view(r.0@),
                    ret,
                    crate::typing::declared_in(cx@, st@.env),
                ),
{
    proof {
        reveal(check_assert_spec); reveal(crate::typing::stmt_typed);
    }
    let (c, st) = check_condition(e, "assert condition", cx, st);
    let (value, st) = try_elide_bounds_in_typed_expr(c.expr, cx, st);
    let message = match message {
        Some(m) => Some(m.clone()),
        None => None,
    };
    (push(body, TypedStmt::Assert { expr: value, message }), st)
}

/// What [`check_prove`] computes.
#[verifier::opaque]
pub open spec fn check_prove_spec(
    e: ExprView,
    cx: ContextView,
    body: Seq<TypedStmtView>,
    st: StateView,
) -> (Seq<TypedStmtView>, StateView)
{
    let (c, st) = check_condition_spec(e, "prove condition"@, cx, st);
    let st = match c.expr.constant {
        Some(TypedConstView::Bool(v)) => if v {
            st
        } else {
            crate::scope::report_spec(st, e.span, "proof failed: expression is always false"@)
        },
        _ => if crate::rewrite::is_structurally_true_spec(e) { st } else { crate::prove::try_smt_prove_spec(e, cx, st) },
    };
    let (value, st) = crate::prove::try_elide_bounds_in_typed_expr_spec(c.expr, cx, st);
    (body.push(TypedStmtView::Prove { expr: value }), st)
}

/// `prove e;`: known, true by its shape, or shown by the prover.
pub fn check_prove(
    e: &Expr,
    cx: &Context,
    body: Vec<TypedStmt>,
    st: State,
) -> (r: (Vec<TypedStmt>, State))
    ensures
        (crate::ir::typed_stmts_view(r.0@), r.1@) == check_prove_spec(
            e@,
            cx@,
            crate::ir::typed_stmts_view(body@),
            st@,
        ),
        crate::state::grows(crate::ir::typed_stmts_view(body@), crate::ir::typed_stmts_view(r.0@)),
        crate::state::follows(st@, r.1@),
        crate::state::balanced(st@, r.1@),
        forall|ret: TypeView|
            #![trigger crate::typing::body_typed(crate::ir::typed_stmts_view(body@), ret, crate::typing::declared_in(cx@, st@.env))]
            #![trigger crate::typing::body_typed(crate::ir::typed_stmts_view(r.0@), ret, crate::typing::declared_in(cx@, st@.env))]
            crate::typing::body_typed(
                crate::ir::typed_stmts_view(body@),
                ret,
                crate::typing::declared_in(cx@, st@.env),
            )
                && st@.env.scopes.len() > 0 && crate::typing::quiet(st@, r.1@)
                ==> crate::typing::body_typed(
                    crate::ir::typed_stmts_view(r.0@),
                    ret,
                    crate::typing::declared_in(cx@, st@.env),
                ),
{
    proof {
        reveal(check_prove_spec); reveal(crate::typing::stmt_typed);
    }
    let (c, st) = check_condition(e, "prove condition", cx, st);
    let st = match &c.expr.constant {
        Some(TypedConst::Bool(v)) => if *v {
            st
        } else {
            report(st, e.span, text("proof failed: expression is always false"))
        },
        _ => if is_structurally_true(e) { st } else { try_smt_prove(e, cx, st) },
    };
    let (value, st) = try_elide_bounds_in_typed_expr(c.expr, cx, st);
    (push(body, TypedStmt::Prove { expr: value }), st)
}

/// What [`print_error`] computes.
pub open spec fn print_error_spec(t: TypeView) -> Option<Seq<char>>
{
    match t {
        TypeView::Array { .. } | TypeView::Vec(_) => Some(
            "cannot print an array or Vec directly; index it first"@,
        ),
        TypeView::Struct(_) => Some(
            "cannot print a struct directly; print individual fields instead"@,
        ),
        TypeView::Tuple(_) => Some(
            "cannot print a tuple directly; print individual elements via `.0` / `.1`"@,
        ),
        TypeView::Enum(_) => Some(
            "cannot print an enum directly; use `match` to convert to an integer or string"@,
        ),
        _ => None,
    }
}

/// Why a value of the type cannot be printed.
pub fn print_error(t: &Type) -> (r: Option<String>)
    ensures
        (match &r { Some(v0) => Some(v0@), None => None }) == print_error_spec(t@),
{
    match t {
        Type::Array { .. } | Type::Vec(_) => Some(
            text("cannot print an array or Vec directly; index it first"),
        ),
        Type::Struct(_) => Some(
            text("cannot print a struct directly; print individual fields instead"),
        ),
        Type::Tuple(_) => Some(
            text("cannot print a tuple directly; print individual elements via `.0` / `.1`"),
        ),
        Type::Enum(_) => Some(
            text("cannot print an enum directly; use `match` to convert to an integer or string"),
        ),
        _ => None,
    }
}

/// What [`check_print_items`] computes from position `i` on.
pub open spec fn check_print_items_spec(
    items: Seq<PrintItemView>,
    cx: ContextView,
    out: Seq<TypedPrintItemView>,
    st: StateView,
    i: int,
) -> (Seq<TypedPrintItemView>, StateView)
    decreases items.len() - i,
{
    if 0 <= i < items.len() {
        let item = items[i];
        let (out, st) = match item {
            PrintItemView::Str(s) => (out.push(TypedPrintItemView::Str(s)), st),
            PrintItemView::Expr(e) => {
                let st = crate::prove::verify_call_args_spec(e, cx, st);
                let (c, st) = check_value_spec(e, cx, st);
                let st = match print_error_spec(c.expr.ty) {
                    Some(message) => crate::scope::report_spec(st, e.span, message),
                    None => st,
                };
                let (value, st) = crate::prove::try_elide_bounds_in_typed_expr_spec(c.expr, cx, st);
                (out.push(TypedPrintItemView::Expr(value)), st)
            },
        };
        check_print_items_spec(items, cx, out, st, i + 1)
    } else {
        (out, st)
    }
}

/// Adds the items of a `print`, reporting those that cannot be printed.
pub fn check_print_items(
    items: &Vec<PrintItem>,
    cx: &Context,
    out: Vec<TypedPrintItem>,
    st: State,
) -> (r: (Vec<TypedPrintItem>, State))
    ensures
        (crate::ir::typed_print_items_view(r.0@), r.1@) == check_print_items_spec(
            crate::ast::print_items_view(items@),
            cx@,
            crate::ir::typed_print_items_view(out@),
            st@,
            0,
        ),
        crate::state::follows(st@, r.1@),
        crate::state::balanced(st@, r.1@),
        crate::typing::items_typed(
            crate::ir::typed_print_items_view(out@),
            crate::typing::declared_in(cx@, st@.env),
        )
            && st@.env.scopes.len() > 0
            && crate::typing::quiet(st@, r.1@)
            ==> crate::typing::items_typed(
                crate::ir::typed_print_items_view(r.0@),
                crate::typing::declared_in(cx@, st@.env),
            ),
{
    let ghost whole_run = check_print_items_spec(
        crate::ast::print_items_view(items@),
        cx@,
        crate::ir::typed_print_items_view(out@),
        st@,
        0,
    );
    let ghost start_st = st@;
    let ghost start_out = crate::ir::typed_print_items_view(out@);
    proof {
        reveal(crate::typing::stmt_typed);
    }
    let mut out = out;
    let mut st = st;
    let mut i: usize = 0;
    while i < items.len()
        invariant
            i <= items.len(),
            check_print_items_spec(
                crate::ast::print_items_view(items@),
                cx@,
                crate::ir::typed_print_items_view(out@),
                st@,
                i as int,
            ) == whole_run,
            crate::state::follows(start_st, st@),
            crate::state::balanced(start_st, st@),
            crate::typing::items_typed(start_out, crate::typing::declared_in(cx@, start_st.env))
                && start_st.env.scopes.len() > 0
                && crate::typing::quiet(start_st, st@)
                ==> crate::typing::items_typed(
                    crate::ir::typed_print_items_view(out@),
                    crate::typing::declared_in(cx@, start_st.env),
                ),
        decreases items.len() - i,
    {
        let item = &items[i];
        let next = match item {
            PrintItem::Str(s) => (push(out, TypedPrintItem::Str(s.clone())), st),
            PrintItem::Expr(e) => {
                let st = verify_call_args(e, cx, st);
                let (c, st) = check_value(e, cx, st);
                let st = match print_error(&c.expr.ty) {
                    Some(message) => report(st, e.span, message),
                    None => st,
                };
                let (value, st) = try_elide_bounds_in_typed_expr(c.expr, cx, st);
                (push(out, TypedPrintItem::Expr(value)), st)
            },
        };
        out = next.0;
        st = next.1;
        i += 1;
    }
    (out, st)
}

/// What [`check_print`] computes.
#[verifier::opaque]
pub open spec fn check_print_spec(
    items: Seq<PrintItemView>,
    cx: ContextView,
    body: Seq<TypedStmtView>,
    st: StateView,
) -> (Seq<TypedStmtView>, StateView)
{
    let (items, st) = check_print_items_spec(items, cx, Seq::empty(), st, 0);
    (body.push(TypedStmtView::Print { items }), st)
}

/// `print items;`.
pub fn check_print(
    items: &Vec<PrintItem>,
    cx: &Context,
    body: Vec<TypedStmt>,
    st: State,
) -> (r: (Vec<TypedStmt>, State))
    ensures
        (crate::ir::typed_stmts_view(r.0@), r.1@) == check_print_spec(
            crate::ast::print_items_view(items@),
            cx@,
            crate::ir::typed_stmts_view(body@),
            st@,
        ),
        crate::state::grows(crate::ir::typed_stmts_view(body@), crate::ir::typed_stmts_view(r.0@)),
        crate::state::follows(st@, r.1@),
        crate::state::balanced(st@, r.1@),
        forall|ret: TypeView|
            #![trigger crate::typing::body_typed(crate::ir::typed_stmts_view(body@), ret, crate::typing::declared_in(cx@, st@.env))]
            #![trigger crate::typing::body_typed(crate::ir::typed_stmts_view(r.0@), ret, crate::typing::declared_in(cx@, st@.env))]
            crate::typing::body_typed(
                crate::ir::typed_stmts_view(body@),
                ret,
                crate::typing::declared_in(cx@, st@.env),
            )
                && st@.env.scopes.len() > 0 && crate::typing::quiet(st@, r.1@)
                ==> crate::typing::body_typed(
                    crate::ir::typed_stmts_view(r.0@),
                    ret,
                    crate::typing::declared_in(cx@, st@.env),
                ),
{
    proof {
        reveal(check_print_spec); reveal(crate::typing::stmt_typed);
    }
    let (items, st) = check_print_items(items, cx, Vec::new(), st);
    (push(body, TypedStmt::Print { items }), st)
}

/// What [`check_jump`] computes.
#[verifier::opaque]
pub open spec fn check_jump_spec(
    is_break: bool,
    span: Span,
    loops: Seq<LoopFrameView>,
    cx: ContextView,
    body: Seq<TypedStmtView>,
    st: StateView,
) -> (bool, Seq<TypedStmtView>, StateView)
{
    if loops.len() > 0 {
        let body = crate::moves::emit_drops_through_loop_spec(
            st.env,
            loops[loops.len() - 1].body_scope_depth,
            cx,
            body,
        );
        let env = st.env;
        let what = if is_break { "break with inconsistent move state"@ } else { "continue with inconsistent move state"@ };
        let st = crate::effects::validate_loop_balance_spec(
            loops[loops.len() - 1].pre_env,
            env,
            cx,
            span,
            what,
            st,
        );
        let stmt = if is_break { TypedStmtView::Break } else { TypedStmtView::Continue };
        (true, body.push(stmt), st)
    } else {
        let message = if is_break {
                "'break' is only valid inside a 'while' loop"@
            } else {
                "'continue' is only valid inside a 'while' loop"@
            };
        (false, body, crate::scope::report_spec(st, span, message))
    }
}

/// `break` and `continue`: whether they stand in a loop.
pub fn check_jump(
    is_break: bool,
    span: Span,
    loops: &Vec<LoopFrame>,
    cx: &Context,
    body: Vec<TypedStmt>,
    st: State,
) -> (r: (bool, Vec<TypedStmt>, State))
    ensures
        (r.0, crate::ir::typed_stmts_view(r.1@), r.2@) == check_jump_spec(
            is_break,
            span,
            crate::state::loop_frames_view(loops@),
            cx@,
            crate::ir::typed_stmts_view(body@),
            st@,
        ),
        r.0 ==> always_leaves(crate::ir::typed_stmts_view(r.1@)),
        crate::state::grows(crate::ir::typed_stmts_view(body@), crate::ir::typed_stmts_view(r.1@)),
        crate::state::follows(st@, r.2@),
        crate::state::balanced(st@, r.2@),
        forall|ret: TypeView|
            #![trigger crate::typing::body_typed(crate::ir::typed_stmts_view(body@), ret, crate::typing::declared_in(cx@, st@.env))]
            #![trigger crate::typing::body_typed(crate::ir::typed_stmts_view(r.1@), ret, crate::typing::declared_in(cx@, st@.env))]
            crate::typing::body_typed(
                crate::ir::typed_stmts_view(body@),
                ret,
                crate::typing::declared_in(cx@, st@.env),
            )
                && st@.env.scopes.len() > 0 && crate::typing::quiet(st@, r.2@)
                ==> crate::typing::body_typed(
                    crate::ir::typed_stmts_view(r.1@),
                    ret,
                    crate::typing::declared_in(cx@, st@.env),
                ),
{
    proof {
        reveal(check_jump_spec); reveal(crate::typing::stmt_typed);
    }
    if loops.len() > 0 {
        let body = emit_drops_through_loop(
            &st.env,
            loops[loops.len() - 1].body_scope_depth,
            cx,
            body,
        );
        let env = st.env.dup();
        let what = if is_break { "break with inconsistent move state" } else { "continue with inconsistent move state" };
        let st = validate_loop_balance(&loops[loops.len() - 1].pre_env, &env, cx, span, what, st);
        let stmt = if is_break { TypedStmt::Break } else { TypedStmt::Continue };
        (true, push(body, stmt), st)
    } else {
        let message = text(
            if is_break {
                "'break' is only valid inside a 'while' loop"
            } else {
                "'continue' is only valid inside a 'while' loop"
            },
        );
        (false, body, report(st, span, message))
    }
}

/// What [`check_task_join`] computes.
#[verifier::opaque]
pub open spec fn check_task_join_spec(
    name: Seq<char>,
    span: Span,
    body: Seq<TypedStmtView>,
    st: StateView,
) -> (Seq<TypedStmtView>, StateView)
{
    match crate::scope::lookup_spec(st.env, name) {
        None => (
            body,
            crate::scope::report_spec(st, span, "join: no task named '"@ + name + "' in scope"@),
        ),
        Some(info) => if !crate::types::is_task_spec(info.ty) {
            let message = "join: '"@ + name + "' has type "@ + crate::ast::type_text_spec(info.ty)
                + ", expected Task"@;
            (body, crate::scope::report_spec(st, span, message))
        } else {
            match info.moved {
                Some(at) => {
                    let message = "join: task '"@ + name + "' was already joined at byte "@
                        + crate::text::decimal((at.start as int)) + ".."@
                        + crate::text::decimal((at.end as int));
                    (body, crate::scope::report_spec(st, span, message))
                },
                None => {
                    let env = crate::scope::set_var_spec(
                        st.env,
                        name,
                        VarInfoView { moved: Some(span), ..info },
                    );
                    (body.push(TypedStmtView::TaskJoin { name: name }), StateView { env, ..st })
                },
            }
        },
    }
}

/// `join name;`.
pub fn check_task_join(
    name: &str,
    span: Span,
    body: Vec<TypedStmt>,
    st: State,
) -> (r: (Vec<TypedStmt>, State))
    ensures
        (crate::ir::typed_stmts_view(r.0@), r.1@) == check_task_join_spec(
            name@,
            span,
            crate::ir::typed_stmts_view(body@),
            st@,
        ),
        crate::state::grows(crate::ir::typed_stmts_view(body@), crate::ir::typed_stmts_view(r.0@)),
        crate::state::follows(st@, r.1@),
        crate::state::balanced(st@, r.1@),
        forall|ret: TypeView, d: Declared|
            #![trigger crate::typing::body_typed(crate::ir::typed_stmts_view(body@), ret, d)]
            #![trigger crate::typing::body_typed(crate::ir::typed_stmts_view(r.0@), ret, d)]
            crate::typing::body_typed(crate::ir::typed_stmts_view(body@), ret, d)
                && crate::typing::beside(d, st@.env) && crate::typing::quiet(st@, r.1@)
                ==> crate::typing::body_typed(crate::ir::typed_stmts_view(r.0@), ret, d),
{
    proof {
        reveal(check_task_join_spec); reveal(crate::typing::stmt_typed);
    }
    match lookup(&st.env, name) {
        None => (body, report(st, span, cat3("join: no task named '", name, "' in scope"))),
        Some(info) => if !is_task(&info.ty) {
            let message = cat5(
                "join: '",
                name,
                "' has type ",
                &type_text(&info.ty),
                ", expected Task",
            );
            (body, report(st, span, message))
        } else {
            match info.moved {
                Some(at) => {
                    let message = cat6(
                        "join: task '",
                        name,
                        "' was already joined at byte ",
                        &usize_text(at.start),
                        "..",
                        &usize_text(at.end),
                    );
                    (body, report(st, span, message))
                },
                None => {
                    let env = set_var(st.env, name, &VarInfo { moved: Some(span), ..info });
                    (push(body, TypedStmt::TaskJoin { name: text(name) }), State { env, ..st })
                },
            }
        },
    }
}

/// What [`bool_literal`] computes.
pub open spec fn bool_literal_spec(e: ExprView) -> Option<bool>
{
    match e.kind {
        ExprKindView::Bool(v) => Some(v),
        _ => None,
    }
}

pub fn bool_literal(e: &Expr) -> (r: Option<bool>)
    ensures
        r == bool_literal_spec(e@),
{
    match &e.kind {
        ExprKind::Bool(v) => Some(*v),
        _ => None,
    }
}

/// What [`report_dead_branch`] computes.
#[verifier::opaque]
pub open spec fn report_dead_branch_spec(
    cond: ExprView,
    then_empty: bool,
    else_empty: bool,
    st: StateView,
) -> StateView
{
    match bool_literal_spec(cond) {
        Some(v) => if !v && !then_empty {
            crate::scope::report_spec(
                st,
                cond.span,
                "condition is always false; the 'if' body is unreachable"@,
            )
        } else if v && !else_empty {
            crate::scope::report_spec(
                st,
                cond.span,
                "condition is always true; the 'else' body is unreachable"@,
            )
        } else {
            st
        },
        None => st,
    }
}

/// Reports a branch that a literal condition never takes.
pub fn report_dead_branch(cond: &Expr, then_empty: bool, else_empty: bool, st: State) -> (r: State)
    ensures
        r@ == report_dead_branch_spec(cond@, then_empty, else_empty, st@),
        crate::state::follows(st@, r@),
        crate::state::balanced(st@, r@),
        crate::state::same_facts(st@, r@),
{
    proof {
        reveal(report_dead_branch_spec);
    }
    match bool_literal(cond) {
        Some(v) => if !v && !then_empty {
            report(st, cond.span, text("condition is always false; the 'if' body is unreachable"))
        } else if v && !else_empty {
            report(st, cond.span, text("condition is always true; the 'else' body is unreachable"))
        } else {
            st
        },
        None => st,
    }
}

/// What [`moved_in_branch`] computes.
pub open spec fn moved_in_branch_spec(
    terminated: bool,
    env: EnvView,
    name: Seq<char>,
    before: Option<Span>,
) -> Option<Span>
{
    if terminated {
        None
    } else {
        match crate::scope::lookup_spec(env, name) {
            Some(info) => info.moved,
            None => before,
        }
    }
}

/// Where a branch moved a binding, if it did and runs on.
pub fn moved_in_branch(
    terminated: bool,
    env: &Env,
    name: &str,
    before: Option<Span>,
) -> (r: Option<Span>)
    ensures
        r == moved_in_branch_spec(terminated, env@, name@, before),
{
    if terminated {
        None
    } else {
        match lookup(env, name) {
            Some(info) => info.moved,
            None => before,
        }
    }
}

/// What [`branch_drop`] computes.
pub open spec fn branch_drop_spec(env: EnvView, name: Seq<char>, t: TypeView) -> TypedStmtView
{
    let moved_fields = match crate::scope::lookup_spec(env, name) {
        Some(info) => crate::effects::field_names_spec(info.moved_fields),
        None => Seq::empty(),
    };
    TypedStmtView::Drop { name: name, ty: t, moved_fields }
}

/// The drop of a binding where a branch ends, without the fields that were
/// moved out of it.
pub fn branch_drop(env: &Env, name: &str, t: &Type) -> (r: TypedStmt)
    ensures
        r@ == branch_drop_spec(env@, name@, t@),
{
    let moved_fields = match lookup(env, name) {
        Some(info) => field_names(&info.moved_fields),
        None => Vec::new(),
    };
    TypedStmt::Drop { name: text(name), ty: t.dup(), moved_fields }
}

/// What [`merge_branches`] computes from position `i` on.
#[verifier::opaque]
pub open spec fn merge_branches_spec(
    bs: Seq<(Seq<char>, VarInfoView)>,
    then_env: EnvView,
    else_env: EnvView,
    then_terminated: bool,
    else_terminated: bool,
    cx: ContextView,
    then_stmts: Seq<TypedStmtView>,
    else_stmts: Seq<TypedStmtView>,
    env: EnvView,
    i: int,
) -> (Seq<TypedStmtView>, Seq<TypedStmtView>, EnvView)
    decreases bs.len() - i,
{
    if 0 <= i < bs.len() {
        let b = bs[i];
        let (then_stmts, else_stmts, env) = if crate::scope::copies_spec(b.1.ty, cx) {
            (then_stmts, else_stmts, env)
        } else {
            let then_moved = moved_in_branch_spec(then_terminated, then_env, b.0, b.1.moved);
            let else_moved = moved_in_branch_spec(else_terminated, else_env, b.0, b.1.moved);
            let moved = if then_terminated && else_terminated {
                b.1.moved
            } else if then_terminated || !else_terminated && then_moved.is_none() {
                else_moved
            } else {
                then_moved
            };
            let both_run = !then_terminated && !else_terminated;
            let then_stmts = if both_run && then_moved.is_none() && else_moved.is_some() {
                then_stmts.push(branch_drop_spec(then_env, b.0, b.1.ty))
            } else {
                then_stmts
            };
            let else_stmts = if both_run && then_moved.is_some() && else_moved.is_none() {
                else_stmts.push(branch_drop_spec(else_env, b.0, b.1.ty))
            } else {
                else_stmts
            };
            let env = match crate::scope::lookup_spec(env, b.0) {
                Some(info) => crate::scope::set_var_spec(env, b.0, VarInfoView { moved, ..info }),
                None => env,
            };
            (then_stmts, else_stmts, env)
        };
        merge_branches_spec(
            bs,
            then_env,
            else_env,
            then_terminated,
            else_terminated,
            cx,
            then_stmts,
            else_stmts,
            env,
            i + 1,
        )
    } else {
        (then_stmts, else_stmts, env)
    }
}

/// Brings the branches together on the bindings from before them: where one
/// branch moved a value and the other did not, the other drops it.
pub fn merge_branches(
    bs: &Vec<(String, VarInfo)>,
    then_env: &Env,
    else_env: &Env,
    then_terminated: bool,
    else_terminated: bool,
    cx: &Context,
    then_stmts: Vec<TypedStmt>,
    else_stmts: Vec<TypedStmt>,
    env: Env,
) -> (r: (Vec<TypedStmt>, Vec<TypedStmt>, Env))
    ensures
        (crate::ir::typed_stmts_view(r.0@), crate::ir::typed_stmts_view(r.1@), r.2@) == merge_branches_spec(
            crate::state::scope_view(bs@),
            then_env@,
            else_env@,
            then_terminated,
            else_terminated,
            cx@,
            crate::ir::typed_stmts_view(then_stmts@),
            crate::ir::typed_stmts_view(else_stmts@),
            env@,
            0,
        ),
        crate::state::grows(
            crate::ir::typed_stmts_view(then_stmts@),
            crate::ir::typed_stmts_view(r.0@),
        ),
        crate::state::grows(
            crate::ir::typed_stmts_view(else_stmts@),
            crate::ir::typed_stmts_view(r.1@),
        ),
        crate::state::same_scopes(env@, r.2@),
        forall|ret: TypeView, d: Declared|
            #![trigger crate::typing::body_typed(crate::ir::typed_stmts_view(then_stmts@), ret, d)]
            #![trigger crate::typing::body_typed(crate::ir::typed_stmts_view(r.0@), ret, d)]
            crate::typing::body_typed(crate::ir::typed_stmts_view(then_stmts@), ret, d)
                && crate::typing::body_typed(crate::ir::typed_stmts_view(else_stmts@), ret, d)
                ==> crate::typing::body_typed(crate::ir::typed_stmts_view(r.0@), ret, d)
                    && crate::typing::body_typed(crate::ir::typed_stmts_view(r.1@), ret, d),
{
    let ghost whole_run = merge_branches_spec(
        crate::state::scope_view(bs@),
        then_env@,
        else_env@,
        then_terminated,
        else_terminated,
        cx@,
        crate::ir::typed_stmts_view(then_stmts@),
        crate::ir::typed_stmts_view(else_stmts@),
        env@,
        0,
    );
    let ghost start_env = env@;
    let ghost start_then_stmts = crate::ir::typed_stmts_view(then_stmts@);
    let ghost start_else_stmts = crate::ir::typed_stmts_view(else_stmts@);
    proof {
        reveal(merge_branches_spec); reveal(crate::typing::stmt_typed);
    }
    let mut then_stmts = then_stmts;
    let mut else_stmts = else_stmts;
    let mut env = env;
    let mut i: usize = 0;
    while i < bs.len()
        invariant
            i <= bs.len(),
            merge_branches_spec(
                crate::state::scope_view(bs@),
                then_env@,
                else_env@,
                then_terminated,
                else_terminated,
                cx@,
                crate::ir::typed_stmts_view(then_stmts@),
                crate::ir::typed_stmts_view(else_stmts@),
                env@,
                i as int,
            ) == whole_run,
            crate::state::same_scopes(start_env, env@),
            crate::state::grows(
                start_then_stmts,
                crate::ir::typed_stmts_view(then_stmts@),
            ), crate::state::grows(start_else_stmts, crate::ir::typed_stmts_view(else_stmts@)),
            forall|ret: TypeView, d: Declared|
                #![trigger crate::typing::body_typed(start_then_stmts, ret, d)]
                #![trigger crate::typing::body_typed(crate::ir::typed_stmts_view(then_stmts@), ret, d)]
                crate::typing::body_typed(start_then_stmts, ret, d)
                    && crate::typing::body_typed(start_else_stmts, ret, d)
                    ==> crate::typing::body_typed(crate::ir::typed_stmts_view(then_stmts@), ret, d)
                        && crate::typing::body_typed(
                            crate::ir::typed_stmts_view(else_stmts@),
                            ret,
                            d,
                        ),
        decreases bs.len() - i,
    {
        proof {
            reveal(merge_branches_spec); reveal(crate::typing::stmt_typed);
        }
        let b = &bs[i];
        let next = if copies(&b.1.ty, cx) {
            (then_stmts, else_stmts, env)
        } else {
            let then_moved = moved_in_branch(then_terminated, then_env, &b.0, b.1.moved);
            let else_moved = moved_in_branch(else_terminated, else_env, &b.0, b.1.moved);
            let moved = if then_terminated && else_terminated {
                b.1.moved
            } else if then_terminated || !else_terminated && then_moved.is_none() {
                else_moved
            } else {
                then_moved
            };
            let both_run = !then_terminated && !else_terminated;
            let then_stmts = if both_run && then_moved.is_none() && else_moved.is_some() {
                push(then_stmts, branch_drop(then_env, &b.0, &b.1.ty))
            } else {
                then_stmts
            };
            let else_stmts = if both_run && then_moved.is_some() && else_moved.is_none() {
                push(else_stmts, branch_drop(else_env, &b.0, &b.1.ty))
            } else {
                else_stmts
            };
            let env = match lookup(&env, &b.0) {
                Some(info) => set_var(env, &b.0, &VarInfo { moved, ..info }),
                None => env,
            };
            (then_stmts, else_stmts, env)
        };
        then_stmts = next.0;
        else_stmts = next.1;
        env = next.2;
        i += 1;
    }
    (then_stmts, else_stmts, env)
}

/// What [`facts_after_branches`] computes.
pub open spec fn facts_after_branches_spec(
    facts: Seq<ExprView>,
    cond: ExprView,
    then_terminated: bool,
    else_terminated: bool,
) -> Seq<ExprView>
{
    if then_terminated && !else_terminated {
        facts.push(crate::rewrite::negate_spec(cond))
    } else if !then_terminated && else_terminated {
        facts.push(cond)
    } else {
        facts
    }
}

/// What is known after the branches: where one of them does not run on, the
/// condition of the other.
pub fn facts_after_branches(
    facts: Vec<Expr>,
    cond: &Expr,
    then_terminated: bool,
    else_terminated: bool,
) -> (r: Vec<Expr>)
    ensures
        crate::ast::exprs_view(r@) == facts_after_branches_spec(
            crate::ast::exprs_view(facts@),
            cond@,
            then_terminated,
            else_terminated,
        ),
        then_terminated
            && !else_terminated
            ==> crate::meaning::knows_more(
                crate::ast::exprs_view(facts@),
                crate::ast::exprs_view(r@),
                Seq::empty(),
                seq![cond@],
            ),
        !then_terminated
            && else_terminated
            ==> crate::meaning::knows_more(
                crate::ast::exprs_view(facts@),
                crate::ast::exprs_view(r@),
                seq![cond@],
                Seq::empty(),
            ),
        then_terminated == else_terminated
            ==> crate::ast::exprs_view(r@) == crate::ast::exprs_view(facts@),
{
    proof {
        crate::meaning::knows_a_condition(crate::ast::exprs_view(facts@), cond@);
    }
    if then_terminated && !else_terminated {
        push(facts, negate(cond))
    } else if !then_terminated && else_terminated {
        push(facts, cond.dup())
    } else {
        facts
    }
}

/// What [`check_invariants`] computes from position `i` on.
#[verifier::opaque]
pub open spec fn check_invariants_spec(
    invs: Seq<ExprView>,
    context: Seq<char>,
    cx: ContextView,
    st: StateView,
    i: int,
) -> StateView
    decreases invs.len() - i,
{
    if 0 <= i < invs.len() {
        let inv = invs[i];
        let st = {
            let (_, st) = check_condition_spec(inv, context, cx, st);
            st
        };
        check_invariants_spec(invs, context, cx, st, i + 1)
    } else {
        st
    }
}

/// The invariants of a loop, which have to be truth values.
pub fn check_invariants(invs: &Vec<Expr>, context: &str, cx: &Context, st: State) -> (r: State)
    ensures
        r@ == check_invariants_spec(crate::ast::exprs_view(invs@), context@, cx@, st@, 0),
        crate::state::follows(st@, r@),
        crate::state::balanced(st@, r@),
        crate::state::same_facts(st@, r@),
{
    let ghost whole_run = check_invariants_spec(
        crate::ast::exprs_view(invs@),
        context@,
        cx@,
        st@,
        0,
    );
    let ghost start_st = st@;
    proof {
        reveal(check_invariants_spec);
    }
    let mut st = st;
    let mut i: usize = 0;
    while i < invs.len()
        invariant
            i <= invs.len(),
            check_invariants_spec(
                crate::ast::exprs_view(invs@),
                context@,
                cx@,
                st@,
                i as int,
            ) == whole_run,
            crate::state::follows(start_st, st@),
            crate::state::balanced(start_st, st@),
            crate::state::same_facts(start_st, st@),
        decreases invs.len() - i,
    {
        proof {
            reveal(check_invariants_spec);
        }
        let inv = &invs[i];
        st = {
            let (_, st) = check_condition(inv, context, cx, st);
            st
        };
        i += 1;
    }
    st
}

/// What [`with_invariants`] computes.
pub open spec fn with_invariants_spec(facts: Seq<ExprView>, invs: Seq<ExprView>) -> Seq<ExprView>
{
    facts + (invs)
}

/// The facts, with the invariants of a loop.
pub fn with_invariants(facts: Vec<Expr>, invs: &Vec<Expr>) -> (r: Vec<Expr>)
    ensures
        crate::ast::exprs_view(r@) == with_invariants_spec(
            crate::ast::exprs_view(facts@),
            crate::ast::exprs_view(invs@),
        ),
{
    join(facts, dup_exprs(invs))
}

/// What [`var_fact`] computes.
pub open spec fn var_fact_spec(
    op: BinaryOp,
    var: Seq<char>,
    bound: ExprView,
    span: Span,
) -> ExprView
{
    crate::construct::mk_binary_spec(op, crate::construct::mk_var_spec(var, span), bound, span)
}

/// A comparison of the loop's variable.
pub fn var_fact(op: BinaryOp, var: &str, bound: &Expr, span: Span) -> (r: Expr)
    ensures
        r@ == var_fact_spec(op, var@, bound@, span),
{
    mk_binary(op, mk_var(var, span), bound.dup(), span)
}

/// What [`leave_loop`] computes.
#[verifier::opaque]
pub open spec fn leave_loop_spec(
    pre_env: EnvView,
    body: Seq<StmtView>,
    terminated: bool,
    inner: Seq<TypedStmtView>,
    facts: Seq<ExprView>,
    span: Span,
    context: Seq<char>,
    cx: ContextView,
    st: StateView,
) -> (Seq<TypedStmtView>, StateView)
{
    let inner = if terminated { inner } else { crate::effects::emit_current_scope_drops_spec(st.env, cx, inner) };
    let post_env = crate::scope::pop_scope_spec(st.env);
    let changed = crate::effects::collect_branch_mutations_spec(body);
    let env = crate::effects::forget_literals_spec(
        crate::effects::clear_constants_for_spec(pre_env, changed),
        changed,
    );
    let st = StateView { env, facts, ..st };
    let st = if terminated { st } else { crate::effects::validate_loop_balance_spec(pre_env, post_env, cx, span, context, st) };
    (inner, st)
}

/// Leaves a loop: what its body owns is dropped, the bindings are those from
/// before it without the values that it may have changed, and a change of
/// what is moved is reported.
pub fn leave_loop(
    pre_env: &Env,
    body: &Vec<Stmt>,
    terminated: bool,
    inner: Vec<TypedStmt>,
    facts: Vec<Expr>,
    span: Span,
    context: &str,
    cx: &Context,
    st: State,
) -> (r: (Vec<TypedStmt>, State))
    ensures
        (crate::ir::typed_stmts_view(r.0@), r.1@) == leave_loop_spec(
            pre_env@,
            crate::ast::stmts_view(body@),
            terminated,
            crate::ir::typed_stmts_view(inner@),
            crate::ast::exprs_view(facts@),
            span,
            context@,
            cx@,
            st@,
        ),
        pre_env@.scopes.len() > 0 ==> crate::state::same_scopes(pre_env@,
        r.1@.env),
        r.1@.facts == crate::ast::exprs_view(facts@),
        crate::state::grows(crate::ir::typed_stmts_view(inner@), crate::ir::typed_stmts_view(r.0@)),
        crate::state::follows(st@, r.1@),
        forall|ret: TypeView|
            #![trigger crate::typing::body_typed(crate::ir::typed_stmts_view(inner@), ret, crate::typing::declared_in(cx@, st@.env))]
            #![trigger crate::typing::body_typed(crate::ir::typed_stmts_view(r.0@), ret, crate::typing::declared_in(cx@, st@.env))]
            crate::typing::body_typed(
                crate::ir::typed_stmts_view(inner@),
                ret,
                crate::typing::declared_in(cx@, st@.env),
            )
                && st@.env.scopes.len() > 0 && crate::typing::quiet(st@, r.1@)
                ==> crate::typing::body_typed(
                    crate::ir::typed_stmts_view(r.0@),
                    ret,
                    crate::typing::declared_in(cx@, st@.env),
                ),
{
    proof {
        reveal(leave_loop_spec); reveal(crate::typing::stmt_typed);
    }
    let inner = if terminated { inner } else { emit_current_scope_drops(&st.env, cx, inner) };
    let post_env = pop_scope(st.env);
    let changed = collect_branch_mutations(body);
    let env = forget_literals(clear_constants_for(pre_env.dup(), &changed), &changed);
    let st = State { env, facts, ..st };
    let st = if terminated { st } else { validate_loop_balance(pre_env, &post_env, cx, span, context, st) };
    (inner, st)
}

/// What [`verify_preserved`] computes.
#[verifier::opaque]
pub open spec fn verify_preserved_spec(
    invs: Seq<ExprView>,
    subs: Seq<(Seq<char>, ExprView)>,
    vars: Seq<(Seq<char>, TypeView)>,
    phrase: Seq<char>,
    cx: ContextView,
    st: StateView,
) -> StateView
{
    let facts = (st.facts);
    let env = st.env;
    crate::prove::verify_loop_invariants_with_havoc_spec(
        invs,
        facts,
        env,
        cx,
        phrase,
        subs,
        vars,
        st,
    )
}

/// Checks that a loop's body keeps its invariants.
pub fn verify_preserved(
    invs: &Vec<Expr>,
    subs: &Vec<(String, Expr)>,
    vars: &Vec<(String, Type)>,
    phrase: &str,
    cx: &Context,
    st: State,
) -> (r: State)
    ensures
        r@ == verify_preserved_spec(
            crate::ast::exprs_view(invs@),
            crate::ast::named_exprs_view(subs@),
            crate::ir::named_types_view(vars@),
            phrase@,
            cx@,
            st@,
        ),
        crate::state::follows(st@, r@),
        crate::state::balanced(st@, r@),
        crate::state::same_facts(st@, r@),
{
    proof {
        reveal(verify_preserved_spec);
    }
    let facts = dup_exprs(&st.facts);
    let env = st.env.dup();
    verify_loop_invariants_with_havoc(invs, &facts, &env, cx, phrase, subs, vars, st)
}

/// What [`verify_entry`] computes.
#[verifier::opaque]
pub open spec fn verify_entry_spec(
    invs: Seq<ExprView>,
    facts: Seq<ExprView>,
    phrase: Seq<char>,
    cx: ContextView,
    st: StateView,
) -> StateView
{
    let env = st.env;
    crate::prove::verify_loop_invariants_spec(invs, facts, env, cx, phrase, st)
}

/// Checks that a loop's invariants hold on entry.
pub fn verify_entry(
    invs: &Vec<Expr>,
    facts: &Vec<Expr>,
    phrase: &str,
    cx: &Context,
    st: State,
) -> (r: State)
    ensures
        r@ == verify_entry_spec(
            crate::ast::exprs_view(invs@),
            crate::ast::exprs_view(facts@),
            phrase@,
            cx@,
            st@,
        ),
        crate::state::follows(st@, r@),
        crate::state::balanced(st@, r@),
        crate::state::same_facts(st@, r@),
{
    proof {
        reveal(verify_entry_spec);
    }
    let env = st.env.dup();
    verify_loop_invariants(invs, facts, &env, cx, phrase, st)
}

/// What [`next_value`] computes.
pub open spec fn next_value_spec(var: Seq<char>, span: Span) -> ExprView
{
    crate::construct::mk_binary_spec(
        BinaryOp::Add,
        crate::construct::mk_var_spec(var, span),
        crate::construct::mk_int_spec(1, span),
        span,
    )
}

/// The value that a `for` loop gives its variable before the next round.
pub fn next_value(var: &str, span: Span) -> (r: Expr)
    ensures
        r@ == next_value_spec(var@, span),
{
    mk_binary(BinaryOp::Add, mk_var(var, span), mk_int(1, span), span)
}

/// What [`is_bool_reduction`] computes.
pub open spec fn is_bool_reduction_spec(op: ReductionOp) -> bool
{
    op == ReductionOp::And || op == ReductionOp::Or
}

pub fn is_bool_reduction(op: ReductionOp) -> (r: bool)
    ensures
        r == is_bool_reduction_spec(op),
{
    op == ReductionOp::And || op == ReductionOp::Or
}

/// What [`resolve_reductions`] computes from position `i` on.
#[verifier::opaque]
pub open spec fn resolve_reductions_spec(
    reds: Seq<ReductionView>,
    pre_env: EnvView,
    out: Seq<TypedReductionView>,
    st: StateView,
    i: int,
) -> (Seq<TypedReductionView>, StateView)
    decreases reds.len() - i,
{
    if 0 <= i < reds.len() {
        let red = reds[i];
        let (out, st) = match crate::scope::lookup_spec(pre_env, red.var) {
            None => (
                out,
                crate::scope::report_spec(
                    st,
                    red.span,
                    "'reduce "@ + red.var + "': name is not declared in scope"@,
                ),
            ),
            Some(info) => {
                let fits = if is_bool_reduction_spec(red.op) { crate::types::is_bool_spec(info.ty) } else { crate::types::is_integer_spec(info.ty) };
                if fits {
                    (out.push(TypedReductionView { var: red.var, op: red.op, ty: info.ty }), st)
                } else {
                    let expected = if is_bool_reduction_spec(red.op) { "a bool"@ } else { "an integer"@ };
                    let head = "'reduce "@ + red.var + " with "@
                        + crate::ast::reduction_symbol_spec(red.op) + "' requires "@;
                    let message = head + expected + "-typed variable, got "@
                        + crate::ast::type_text_spec(info.ty);
                    (out, crate::scope::report_spec(st, red.span, message))
                }
            },
        };
        resolve_reductions_spec(reds, pre_env, out, st, i + 1)
    } else {
        (out, st)
    }
}

/// The reductions of a loop with the types of their variables; those that do
/// not fit are reported and left out.
pub fn resolve_reductions(
    reds: &Vec<Reduction>,
    pre_env: &Env,
    out: Vec<TypedReduction>,
    st: State,
) -> (r: (Vec<TypedReduction>, State))
    ensures
        (crate::ir::typed_reductions_view(r.0@), r.1@) == resolve_reductions_spec(
            crate::ast::reductions_view(reds@),
            pre_env@,
            crate::ir::typed_reductions_view(out@),
            st@,
            0,
        ),
        crate::state::follows(st@, r.1@),
        crate::state::balanced(st@, r.1@),
{
    let ghost whole_run = resolve_reductions_spec(
        crate::ast::reductions_view(reds@),
        pre_env@,
        crate::ir::typed_reductions_view(out@),
        st@,
        0,
    );
    let ghost start_st = st@;
    proof {
        reveal(resolve_reductions_spec);
    }
    let mut out = out;
    let mut st = st;
    let mut i: usize = 0;
    while i < reds.len()
        invariant
            i <= reds.len(),
            resolve_reductions_spec(
                crate::ast::reductions_view(reds@),
                pre_env@,
                crate::ir::typed_reductions_view(out@),
                st@,
                i as int,
            ) == whole_run,
            crate::state::follows(start_st, st@),
            crate::state::balanced(start_st, st@),
        decreases reds.len() - i,
    {
        proof {
            reveal(resolve_reductions_spec);
        }
        let red = &reds[i];
        let next = match lookup(pre_env, &red.var) {
            None => (
                out,
                report(
                    st,
                    red.span,
                    cat3("'reduce ", &red.var, "': name is not declared in scope"),
                ),
            ),
            Some(info) => {
                let fits = if is_bool_reduction(red.op) { is_bool(&info.ty) } else { is_integer(&info.ty) };
                if fits {
                    (
                        push(out, TypedReduction { var: red.var.clone(), op: red.op, ty: info.ty }),
                        st,
                    )
                } else {
                    let expected = if is_bool_reduction(red.op) { "a bool" } else { "an integer" };
                    let head = cat5(
                        "'reduce ",
                        &red.var,
                        " with ",
                        reduction_symbol(red.op),
                        "' requires ",
                    );
                    let message = cat4(
                        &head,
                        expected,
                        "-typed variable, got ",
                        &type_text(&info.ty),
                    );
                    (out, report(st, red.span, message))
                }
            },
        };
        out = next.0;
        st = next.1;
        i += 1;
    }
    (out, st)
}

/// What [`iterated_element`] computes.
pub open spec fn iterated_element_spec(t: TypeView) -> Option<TypeView>
{
    match t {
        TypeView::Array { element, .. } => Some((*element)),
        TypeView::Vec(element) => Some((*element)),
        _ => None,
    }
}

/// The element type of the collection that a loop runs over.
pub fn iterated_element(t: &Type) -> (r: Option<Type>)
    ensures
        (match &r { Some(v0) => Some(v0@), None => None }) == iterated_element_spec(t@),
{
    match t {
        Type::Array { element, .. } => Some((**element).dup()),
        Type::Vec(element) => Some((**element).dup()),
        _ => None,
    }
}

/// A field path that is resolved leads over declared fields to its type.
proof fn resolved_path_is_declared(
    segments: Seq<Seq<char>>,
    cx: ContextView,
    env: EnvView,
    path: Seq<(Seq<char>, u32)>,
    t: TypeView,
    error: Option<Seq<char>>,
    i: int,
    of: TypeView,
    d: Declared,
)
    requires
        0 <= i <= segments.len(),
        error is None ==> crate::typing::path_declared(of, path, t, d),
        d.structs == env.structs,
    ensures
        ({
            let r = resolve_path_spec(segments, cx, env, path, t, error, i);
            r.2 is None ==> crate::typing::path_declared(of, r.0, r.1, d)
        }),
    decreases segments.len() - i,
{
    if i < segments.len() && error is None {
        match path_step_spec(segments[i], t, i + 1 == segments.len(), cx, env) {
            Err(message) => resolved_path_is_declared(
                segments,
                cx,
                env,
                path,
                t,
                Some(message),
                i + 1,
                of,
                d,
            ),
            Ok((k, field)) => {
                let next = path.push((segments[i], k));
                crate::typing::path_grows(of, path, t, (segments[i], k), field, d);
                resolved_path_is_declared(segments, cx, env, next, field, None, i + 1, of, d);
            },
        }
    }
}

} // verus!
