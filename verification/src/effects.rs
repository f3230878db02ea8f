//! What statements do besides computing: which names they may change, which
//! tasks they spawn and join, and whether they are pure.

use vstd::prelude::*;
use crate::ast::{
    BinaryOp, Expr, ExprKind, ExprKindView, ExprView, MatchArm, MatchArmView, PrintItem,
    PrintItemView, ReductionOp, Span, Stmt, StmtView, Type, TypeView, reduction_symbol,
};
use crate::ir::{
    TypedExpr, TypedExprKind, TypedExprKindView, TypedExprView, TypedMatchArm, TypedMatchArmView,
    TypedPrintItem, TypedPrintItemView, TypedReduction, TypedReductionView, TypedStmt,
    TypedStmtView, dup_named_types, dup_typed_reductions,
};
use crate::rewrite::{no_span, unwrap_to_var};
use crate::scope::{all_bindings, copies, current_scope, lookup, report, signature_get};
use crate::state::{Context, ContextView, Env, EnvView, State, StateView, VarInfo, VarInfoView};
use crate::text::{
    cat2, cat3, cat4, cat5, cat6, cat7, contains_str, extend, join, push, str_eq, text,
};
use crate::types::{is_owned_str, is_str, is_task};
use crate::typing::{Declared};

verus! {

broadcast use {
    crate::text::group_text_views,
    crate::ast::group_ast_views,
    crate::diagnostic::group_diagnostic_views,
    crate::ir::group_ir_views,
    crate::state::group_state_views,
    crate::state::group_extends,
    crate::state::group_grows,
};

/// What [`add_name`] computes.
pub open spec fn add_name_spec(names: Seq<Seq<char>>, name: Seq<char>) -> Seq<Seq<char>>
{
    if names.contains(name) { names } else { names.push(name) }
}

/// Adds a name, unless the list has it.
pub fn add_name(names: Vec<String>, name: &str) -> (r: Vec<String>)
    ensures
        crate::text::strs_view(r@) == add_name_spec(crate::text::strs_view(names@), name@),
{
    if contains_str(&names, name) { names } else { push(names, text(name)) }
}

/// What [`add_target`] computes.
pub open spec fn add_target_spec(names: Seq<Seq<char>>, e: ExprView) -> Seq<Seq<char>>
{
    match crate::rewrite::unwrap_to_var_spec(e) {
        Some(name) => add_name_spec(names, name),
        None => names,
    }
}

pub fn add_target(names: Vec<String>, e: &Expr) -> (r: Vec<String>)
    ensures
        crate::text::strs_view(r@) == add_target_spec(crate::text::strs_view(names@), e@),
{
    match unwrap_to_var(e) {
        Some(name) => add_name(names, &name),
        None => names,
    }
}

/// What [`walk_branch_mutations_in_expr`] computes.
pub open spec fn walk_branch_mutations_in_expr_spec(
    e: ExprView,
    out: Seq<Seq<char>>,
) -> Seq<Seq<char>>
    decreases e, 0int,
{
    match e.kind {
        ExprKindView::RefMut { inner } => {
            let out = add_target_spec(out, *inner);
            walk_branch_mutations_in_expr_spec(*inner, out)
        },
        ExprKindView::Ref { inner } => walk_branch_mutations_in_expr_spec(*inner, out),
        ExprKindView::Call { args, .. } => mutations_in_exprs_spec(args, out, 0),
        ExprKindView::MethodCall { receiver, args, .. } => {
            let out = walk_branch_mutations_in_expr_spec(*receiver, out);
            mutations_in_exprs_spec(args, out, 0)
        },
        ExprKindView::Binary { left, right, .. } => {
            let out = walk_branch_mutations_in_expr_spec(*left, out);
            walk_branch_mutations_in_expr_spec(*right, out)
        },
        ExprKindView::Unary { expr, .. } => walk_branch_mutations_in_expr_spec(*expr, out),
        ExprKindView::Index { array, index } => {
            let out = walk_branch_mutations_in_expr_spec(*array, out);
            walk_branch_mutations_in_expr_spec(*index, out)
        },
        ExprKindView::Len { array } => walk_branch_mutations_in_expr_spec(*array, out),
        ExprKindView::Cast { expr, .. } => walk_branch_mutations_in_expr_spec(*expr, out),
        ExprKindView::ArrayLit { elements } => mutations_in_exprs_spec(elements, out, 0),
        ExprKindView::Tuple(elements) => mutations_in_exprs_spec(elements, out, 0),
        ExprKindView::TupleAccess { tuple, .. } => walk_branch_mutations_in_expr_spec(*tuple, out),
        ExprKindView::StructLit { fields, .. } => mutations_in_fields_spec(fields, out, 0),
        ExprKindView::FieldAccess {
            object,
            ..
        } => walk_branch_mutations_in_expr_spec(*object, out),
        ExprKindView::Match { scrutinee, arms } => {
            let out = walk_branch_mutations_in_expr_spec(*scrutinee, out);
            mutations_in_arms_spec(arms, out, 0)
        },
        ExprKindView::IfExpr { cond, then_value, else_value } => {
            let out = walk_branch_mutations_in_expr_spec(*cond, out);
            let out = walk_branch_mutations_in_expr_spec(*then_value, out);
            walk_branch_mutations_in_expr_spec(*else_value, out)
        },
        ExprKindView::Block { tail, .. } => walk_branch_mutations_in_expr_spec(*tail, out),
        ExprKindView::Try { inner } => walk_branch_mutations_in_expr_spec(*inner, out),
        _ => out,
    }
}

/// Adds the names that an expression hands out by `mut ref`.
pub fn walk_branch_mutations_in_expr(e: &Expr, out: Vec<String>) -> (r: Vec<String>)
    ensures
        crate::text::strs_view(r@) == walk_branch_mutations_in_expr_spec(
            e@,
            crate::text::strs_view(out@),
        ),
    decreases e, 0int,
{
    match &e.kind {
        ExprKind::RefMut { inner } => {
            let out = add_target(out, &**inner);
            walk_branch_mutations_in_expr(&**inner, out)
        },
        ExprKind::Ref { inner } => walk_branch_mutations_in_expr(&**inner, out),
        ExprKind::Call { args, .. } => mutations_in_exprs(args, out),
        ExprKind::MethodCall { receiver, args, .. } => {
            let out = walk_branch_mutations_in_expr(&**receiver, out);
            mutations_in_exprs(args, out)
        },
        ExprKind::Binary { left, right, .. } => {
            let out = walk_branch_mutations_in_expr(&**left, out);
            walk_branch_mutations_in_expr(&**right, out)
        },
        ExprKind::Unary { expr, .. } => walk_branch_mutations_in_expr(&**expr, out),
        ExprKind::Index { array, index } => {
            let out = walk_branch_mutations_in_expr(&**array, out);
            walk_branch_mutations_in_expr(&**index, out)
        },
        ExprKind::Len { array } => walk_branch_mutations_in_expr(&**array, out),
        ExprKind::Cast { expr, .. } => walk_branch_mutations_in_expr(&**expr, out),
        ExprKind::ArrayLit { elements } => mutations_in_exprs(elements, out),
        ExprKind::Tuple(elements) => mutations_in_exprs(elements, out),
        ExprKind::TupleAccess { tuple, .. } => walk_branch_mutations_in_expr(&**tuple, out),
        ExprKind::StructLit { fields, .. } => mutations_in_fields(fields, out),
        ExprKind::FieldAccess { object, .. } => walk_branch_mutations_in_expr(&**object, out),
        ExprKind::Match { scrutinee, arms } => {
            let out = walk_branch_mutations_in_expr(&**scrutinee, out);
            mutations_in_arms(arms, out)
        },
        ExprKind::IfExpr { cond, then_value, else_value } => {
            let out = walk_branch_mutations_in_expr(&**cond, out);
            let out = walk_branch_mutations_in_expr(&**then_value, out);
            walk_branch_mutations_in_expr(&**else_value, out)
        },
        ExprKind::Block { tail, .. } => walk_branch_mutations_in_expr(&**tail, out),
        ExprKind::Try { inner } => walk_branch_mutations_in_expr(&**inner, out),
        _ => out,
    }
}

/// What [`mutations_in_exprs`] computes from position `i` on.
pub open spec fn mutations_in_exprs_spec(
    es: Seq<ExprView>,
    out: Seq<Seq<char>>,
    i: int,
) -> Seq<Seq<char>>
    decreases es, es.len() - i,
{
    if 0 <= i < es.len() {
        let e = es[i];
        let out = walk_branch_mutations_in_expr_spec(e, out);
        mutations_in_exprs_spec(es, out, i + 1)
    } else {
        out
    }
}

/// Adds the variables that expressions may change.
pub fn mutations_in_exprs(es: &Vec<Expr>, out: Vec<String>) -> (r: Vec<String>)
    ensures
        crate::text::strs_view(r@) == mutations_in_exprs_spec(
            crate::ast::exprs_view(es@),
            crate::text::strs_view(out@),
            0,
        ),
    decreases es, es.len(),
{
    let ghost whole_run = mutations_in_exprs_spec(
        crate::ast::exprs_view(es@),
        crate::text::strs_view(out@),
        0,
    );
    let mut out = out;
    let mut i: usize = 0;
    while i < es.len()
        invariant
            i <= es.len(),
            mutations_in_exprs_spec(
                crate::ast::exprs_view(es@),
                crate::text::strs_view(out@),
                i as int,
            ) == whole_run,
        decreases es.len() - i,
    {
        let e = &es[i];
        out = walk_branch_mutations_in_expr(e, out);
        i += 1;
    }
    out
}

/// What [`mutations_in_fields`] computes from position `i` on.
pub open spec fn mutations_in_fields_spec(
    fs: Seq<(Seq<char>, ExprView)>,
    out: Seq<Seq<char>>,
    i: int,
) -> Seq<Seq<char>>
    decreases fs, fs.len() - i,
{
    if 0 <= i < fs.len() {
        let f = fs[i];
        let out = walk_branch_mutations_in_expr_spec(f.1, out);
        mutations_in_fields_spec(fs, out, i + 1)
    } else {
        out
    }
}

/// Adds the variables that fields of a literal may change.
pub fn mutations_in_fields(fs: &Vec<(String, Expr)>, out: Vec<String>) -> (r: Vec<String>)
    ensures
        crate::text::strs_view(r@) == mutations_in_fields_spec(
            crate::ast::named_exprs_view(fs@),
            crate::text::strs_view(out@),
            0,
        ),
    decreases fs, fs.len(),
{
    let ghost whole_run = mutations_in_fields_spec(
        crate::ast::named_exprs_view(fs@),
        crate::text::strs_view(out@),
        0,
    );
    let mut out = out;
    let mut i: usize = 0;
    while i < fs.len()
        invariant
            i <= fs.len(),
            mutations_in_fields_spec(
                crate::ast::named_exprs_view(fs@),
                crate::text::strs_view(out@),
                i as int,
            ) == whole_run,
        decreases fs.len() - i,
    {
        let f = &fs[i];
        out = walk_branch_mutations_in_expr(&f.1, out);
        i += 1;
    }
    out
}

/// What [`mutations_in_arms`] computes from position `i` on.
pub open spec fn mutations_in_arms_spec(
    arms: Seq<MatchArmView>,
    out: Seq<Seq<char>>,
    i: int,
) -> Seq<Seq<char>>
    decreases arms, arms.len() - i,
{
    if 0 <= i < arms.len() {
        let a = arms[i];
        let out = walk_branch_mutations_in_expr_spec(a.body, out);
        mutations_in_arms_spec(arms, out, i + 1)
    } else {
        out
    }
}

/// Adds the variables that the arms of a match may change.
pub fn mutations_in_arms(arms: &Vec<MatchArm>, out: Vec<String>) -> (r: Vec<String>)
    ensures
        crate::text::strs_view(r@) == mutations_in_arms_spec(
            crate::ast::arms_view(arms@),
            crate::text::strs_view(out@),
            0,
        ),
    decreases arms, arms.len(),
{
    let ghost whole_run = mutations_in_arms_spec(
        crate::ast::arms_view(arms@),
        crate::text::strs_view(out@),
        0,
    );
    let mut out = out;
    let mut i: usize = 0;
    while i < arms.len()
        invariant
            i <= arms.len(),
            mutations_in_arms_spec(
                crate::ast::arms_view(arms@),
                crate::text::strs_view(out@),
                i as int,
            ) == whole_run,
        decreases arms.len() - i,
    {
        let a = &arms[i];
        out = walk_branch_mutations_in_expr(&a.body, out);
        i += 1;
    }
    out
}

/// What [`mutations_in_items`] computes from position `i` on.
pub open spec fn mutations_in_items_spec(
    items: Seq<PrintItemView>,
    out: Seq<Seq<char>>,
    i: int,
) -> Seq<Seq<char>>
    decreases items.len() - i,
{
    if 0 <= i < items.len() {
        let item = items[i];
        let out = match item {
            PrintItemView::Expr(e) => walk_branch_mutations_in_expr_spec(e, out),
            PrintItemView::Str(_) => out,
        };
        mutations_in_items_spec(items, out, i + 1)
    } else {
        out
    }
}

/// Adds the variables that a `print` may change.
pub fn mutations_in_items(items: &Vec<PrintItem>, out: Vec<String>) -> (r: Vec<String>)
    ensures
        crate::text::strs_view(r@) == mutations_in_items_spec(
            crate::ast::print_items_view(items@),
            crate::text::strs_view(out@),
            0,
        ),
{
    let ghost whole_run = mutations_in_items_spec(
        crate::ast::print_items_view(items@),
        crate::text::strs_view(out@),
        0,
    );
    let mut out = out;
    let mut i: usize = 0;
    while i < items.len()
        invariant
            i <= items.len(),
            mutations_in_items_spec(
                crate::ast::print_items_view(items@),
                crate::text::strs_view(out@),
                i as int,
            ) == whole_run,
        decreases items.len() - i,
    {
        let item = &items[i];
        out = match item {
            PrintItem::Expr(e) => walk_branch_mutations_in_expr(e, out),
            PrintItem::Str(_) => out,
        };
        i += 1;
    }
    out
}

/// What [`walk_branch_mutations`] computes.
pub open spec fn walk_branch_mutations_spec(s: StmtView, out: Seq<Seq<char>>) -> Seq<Seq<char>>
    decreases s, 0int,
{
    match s {
        StmtView::Assign { name, expr, .. } => walk_branch_mutations_in_expr_spec(
            expr,
            add_name_spec(out, name),
        ),
        StmtView::IndexAssign { name, index, value, .. } => {
            let out = walk_branch_mutations_in_expr_spec(index, add_name_spec(out, name));
            walk_branch_mutations_in_expr_spec(value, out)
        },
        StmtView::FieldAssign { object, value, .. } => {
            let out = walk_branch_mutations_in_expr_spec(object, add_target_spec(out, object));
            walk_branch_mutations_in_expr_spec(value, out)
        },
        StmtView::Let { expr, .. } => walk_branch_mutations_in_expr_spec(expr, out),
        StmtView::Return { expr, .. } => walk_branch_mutations_in_expr_spec(expr, out),
        StmtView::Assert { expr, .. } => walk_branch_mutations_in_expr_spec(expr, out),
        StmtView::Prove { expr, .. } => walk_branch_mutations_in_expr_spec(expr, out),
        StmtView::Print { items, .. } => mutations_in_items_spec(items, out, 0),
        StmtView::If { cond, then_body, else_body, .. } => {
            let out = walk_branch_mutations_in_expr_spec(cond, out);
            let out = branch_mutations_spec(then_body, out, 0);
            branch_mutations_spec(else_body, out, 0)
        },
        StmtView::While { cond, invariants, body, .. } => {
            let out = walk_branch_mutations_in_expr_spec(cond, out);
            let out = mutations_in_exprs_spec(invariants, out, 0);
            branch_mutations_spec(body, out, 0)
        },
        StmtView::For { start, end, invariants, body, .. } => {
            let out = walk_branch_mutations_in_expr_spec(start, out);
            let out = walk_branch_mutations_in_expr_spec(end, out);
            let out = mutations_in_exprs_spec(invariants, out, 0);
            branch_mutations_spec(body, out, 0)
        },
        StmtView::ForIter { body, .. } => branch_mutations_spec(body, out, 0),
        _ => out,
    }
}

/// Adds the variables that a statement may change.
pub fn walk_branch_mutations(s: &Stmt, out: Vec<String>) -> (r: Vec<String>)
    ensures
        crate::text::strs_view(r@) == walk_branch_mutations_spec(s@, crate::text::strs_view(out@)),
    decreases s, 0int,
{
    match s {
        Stmt::Assign { name, expr, .. } => walk_branch_mutations_in_expr(expr, add_name(out, name)),
        Stmt::IndexAssign { name, index, value, .. } => {
            let out = walk_branch_mutations_in_expr(index, add_name(out, name));
            walk_branch_mutations_in_expr(value, out)
        },
        Stmt::FieldAssign { object, value, .. } => {
            let out = walk_branch_mutations_in_expr(object, add_target(out, object));
            walk_branch_mutations_in_expr(value, out)
        },
        Stmt::Let { expr, .. } => walk_branch_mutations_in_expr(expr, out),
        Stmt::Return { expr, .. } => walk_branch_mutations_in_expr(expr, out),
        Stmt::Assert { expr, .. } => walk_branch_mutations_in_expr(expr, out),
        Stmt::Prove { expr, .. } => walk_branch_mutations_in_expr(expr, out),
        Stmt::Print { items, .. } => mutations_in_items(items, out),
        Stmt::If { cond, then_body, else_body, .. } => {
            let out = walk_branch_mutations_in_expr(cond, out);
            let out = branch_mutations(then_body, out);
            branch_mutations(else_body, out)
        },
        Stmt::While { cond, invariants, body, .. } => {
            let out = walk_branch_mutations_in_expr(cond, out);
            let out = mutations_in_exprs(invariants, out);
            branch_mutations(body, out)
        },
        Stmt::For { start, end, invariants, body, .. } => {
            let out = walk_branch_mutations_in_expr(start, out);
            let out = walk_branch_mutations_in_expr(end, out);
            let out = mutations_in_exprs(invariants, out);
            branch_mutations(body, out)
        },
        Stmt::ForIter { body, .. } => branch_mutations(body, out),
        _ => out,
    }
}

/// What [`branch_mutations`] computes from position `i` on.
pub open spec fn branch_mutations_spec(
    ss: Seq<StmtView>,
    out: Seq<Seq<char>>,
    i: int,
) -> Seq<Seq<char>>
    decreases ss, ss.len() - i,
{
    if 0 <= i < ss.len() {
        let s = ss[i];
        let out = walk_branch_mutations_spec(s, out);
        branch_mutations_spec(ss, out, i + 1)
    } else {
        out
    }
}

/// Adds the names whose values the statements may change: those assigned to,
/// and those handed out by `mut ref`.
pub fn branch_mutations(ss: &Vec<Stmt>, out: Vec<String>) -> (r: Vec<String>)
    ensures
        crate::text::strs_view(r@) == branch_mutations_spec(
            crate::ast::stmts_view(ss@),
            crate::text::strs_view(out@),
            0,
        ),
    decreases ss, ss.len(),
{
    let ghost whole_run = branch_mutations_spec(
        crate::ast::stmts_view(ss@),
        crate::text::strs_view(out@),
        0,
    );
    let mut out = out;
    let mut i: usize = 0;
    while i < ss.len()
        invariant
            i <= ss.len(),
            branch_mutations_spec(
                crate::ast::stmts_view(ss@),
                crate::text::strs_view(out@),
                i as int,
            ) == whole_run,
        decreases ss.len() - i,
    {
        let s = &ss[i];
        out = walk_branch_mutations(s, out);
        i += 1;
    }
    out
}

/// What [`collect_branch_mutations`] computes.
#[verifier::opaque]
pub open spec fn collect_branch_mutations_spec(ss: Seq<StmtView>) -> Seq<Seq<char>>
{
    branch_mutations_spec(ss, Seq::empty(), 0)
}

/// The variables that statements may change.
pub fn collect_branch_mutations(ss: &Vec<Stmt>) -> (r: Vec<String>)
    ensures
        crate::text::strs_view(r@) == collect_branch_mutations_spec(crate::ast::stmts_view(ss@)),
{
    proof {
        reveal(collect_branch_mutations_spec);
    }
    branch_mutations(ss, Vec::new())
}

/// What [`clear_in_scope`] computes from position `i` on.
pub open spec fn clear_in_scope_spec(
    scope: Seq<(Seq<char>, VarInfoView)>,
    names: Seq<Seq<char>>,
    out: Seq<(Seq<char>, VarInfoView)>,
    i: int,
) -> Seq<(Seq<char>, VarInfoView)>
    decreases scope.len() - i,
{
    if 0 <= i < scope.len() {
        let b = scope[i];
        let out = if names.contains(b.0) {
            out.push((b.0, VarInfoView { constant: None, ..b.1 }))
        } else {
            out.push((b.0, b.1))
        };
        clear_in_scope_spec(scope, names, out, i + 1)
    } else {
        out
    }
}

/// Adds the bindings of a scope without the known values of the given names.
pub fn clear_in_scope(
    scope: &Vec<(String, VarInfo)>,
    names: &Vec<String>,
    out: Vec<(String, VarInfo)>,
) -> (r: Vec<(String, VarInfo)>)
    ensures
        crate::state::scope_view(r@) == clear_in_scope_spec(
            crate::state::scope_view(scope@),
            crate::text::strs_view(names@),
            crate::state::scope_view(out@),
            0,
        ),
{
    let ghost whole_run = clear_in_scope_spec(
        crate::state::scope_view(scope@),
        crate::text::strs_view(names@),
        crate::state::scope_view(out@),
        0,
    );
    let mut out = out;
    let mut i: usize = 0;
    while i < scope.len()
        invariant
            i <= scope.len(),
            clear_in_scope_spec(
                crate::state::scope_view(scope@),
                crate::text::strs_view(names@),
                crate::state::scope_view(out@),
                i as int,
            ) == whole_run,
        decreases scope.len() - i,
    {
        let b = &scope[i];
        out = if contains_str(names, &b.0) {
            push(out, (b.0.clone(), VarInfo { constant: None, ..b.1.dup() }))
        } else {
            push(out, (b.0.clone(), b.1.dup()))
        };
        i += 1;
    }
    out
}

/// What [`clear_in_scopes`] computes.
pub open spec fn clear_in_scopes_spec(
    scopes: Seq<Seq<(Seq<char>, VarInfoView)>>,
    names: Seq<Seq<char>>,
) -> Seq<Seq<(Seq<char>, VarInfoView)>>
{
    scopes.map_values(
        |scope: Seq<(Seq<char>, VarInfoView)>| clear_in_scope_spec(scope, names, Seq::empty(), 0),
    )
}

/// The scopes without the known values of the given names.
pub fn clear_in_scopes(
    scopes: &Vec<Vec<(String, VarInfo)>>,
    names: &Vec<String>,
) -> (r: Vec<Vec<(String, VarInfo)>>)
    ensures
        crate::state::scopes_view(r@) == clear_in_scopes_spec(
            crate::state::scopes_view(scopes@),
            crate::text::strs_view(names@),
        ),
{
    let ghost whole = clear_in_scopes_spec(
        crate::state::scopes_view(scopes@),
        crate::text::strs_view(names@),
    );
    let ghost all = crate::state::scopes_view(scopes@);
    let mut r: Vec<Vec<(String, VarInfo)>> = Vec::new();
    let mut i: usize = 0;
    while i < scopes.len()
        invariant
            i <= scopes.len(),
            all == crate::state::scopes_view(scopes@),
            whole == clear_in_scopes_spec(
                crate::state::scopes_view(scopes@),
                crate::text::strs_view(names@),
            ),
            crate::state::scopes_view(r@) == whole.take(i as int),
        decreases scopes.len() - i,
    {
        let scope = &scopes[i];
        assert(all[i as int] == crate::state::scope_view(scope@));
        r.push(clear_in_scope(scope, names, Vec::new()));
        assert(whole.take(i + 1) =~= whole.take(i as int).push(whole[i as int]));
        i += 1;
    }
    assert(whole.take(i as int) =~= whole);
    r
}

/// What [`clear_constants_for`] computes.
#[verifier::opaque]
pub open spec fn clear_constants_for_spec(env: EnvView, names: Seq<Seq<char>>) -> EnvView
{
    let scopes = clear_in_scopes_spec(env.scopes, names);
    EnvView { scopes, ..env }
}

/// Forgets the known values of the given names.
pub fn clear_constants_for(env: Env, names: &Vec<String>) -> (r: Env)
    ensures
        r@ == clear_constants_for_spec(env@, crate::text::strs_view(names@)),
        crate::state::same_scopes(env@, r@),
{
    proof {
        reveal(clear_constants_for_spec);
    }
    let scopes = clear_in_scopes(&env.scopes, names);
    Env { scopes, ..env }
}

/// What [`forget_in_scope`] computes from position `i` on.
pub open spec fn forget_in_scope_spec(
    scope: Seq<(Seq<char>, VarInfoView)>,
    names: Seq<Seq<char>>,
    out: Seq<(Seq<char>, VarInfoView)>,
    i: int,
) -> Seq<(Seq<char>, VarInfoView)>
    decreases scope.len() - i,
{
    if 0 <= i < scope.len() {
        let b = scope[i];
        let out = if names.contains(b.0) {
            out.push(
                (
                    b.0,
                    VarInfoView { vec_literal_elements: None, struct_literal_fields: None, ..b.1 },
                ),
            )
        } else {
            out.push((b.0, b.1))
        };
        forget_in_scope_spec(scope, names, out, i + 1)
    } else {
        out
    }
}

/// Adds the bindings of a scope without the literals that the given names were
/// made from.
pub fn forget_in_scope(
    scope: &Vec<(String, VarInfo)>,
    names: &Vec<String>,
    out: Vec<(String, VarInfo)>,
) -> (r: Vec<(String, VarInfo)>)
    ensures
        crate::state::scope_view(r@) == forget_in_scope_spec(
            crate::state::scope_view(scope@),
            crate::text::strs_view(names@),
            crate::state::scope_view(out@),
            0,
        ),
{
    let ghost whole_run = forget_in_scope_spec(
        crate::state::scope_view(scope@),
        crate::text::strs_view(names@),
        crate::state::scope_view(out@),
        0,
    );
    let mut out = out;
    let mut i: usize = 0;
    while i < scope.len()
        invariant
            i <= scope.len(),
            forget_in_scope_spec(
                crate::state::scope_view(scope@),
                crate::text::strs_view(names@),
                crate::state::scope_view(out@),
                i as int,
            ) == whole_run,
        decreases scope.len() - i,
    {
        let b = &scope[i];
        out = if contains_str(names, &b.0) {
            push(
                out,
                (
                    b.0.clone(),
                    VarInfo {
                        vec_literal_elements: None,
                        struct_literal_fields: None,
                        ..b.1.dup()
                    },
                ),
            )
        } else {
            push(out, (b.0.clone(), b.1.dup()))
        };
        i += 1;
    }
    out
}

/// What [`forget_in_scopes`] computes.
pub open spec fn forget_in_scopes_spec(
    scopes: Seq<Seq<(Seq<char>, VarInfoView)>>,
    names: Seq<Seq<char>>,
) -> Seq<Seq<(Seq<char>, VarInfoView)>>
{
    scopes.map_values(
        |scope: Seq<(Seq<char>, VarInfoView)>| forget_in_scope_spec(scope, names, Seq::empty(), 0),
    )
}

/// The scopes without the literals that the given names were made from.
pub fn forget_in_scopes(
    scopes: &Vec<Vec<(String, VarInfo)>>,
    names: &Vec<String>,
) -> (r: Vec<Vec<(String, VarInfo)>>)
    ensures
        crate::state::scopes_view(r@) == forget_in_scopes_spec(
            crate::state::scopes_view(scopes@),
            crate::text::strs_view(names@),
        ),
{
    let ghost whole = forget_in_scopes_spec(
        crate::state::scopes_view(scopes@),
        crate::text::strs_view(names@),
    );
    let ghost all = crate::state::scopes_view(scopes@);
    let mut r: Vec<Vec<(String, VarInfo)>> = Vec::new();
    let mut i: usize = 0;
    while i < scopes.len()
        invariant
            i <= scopes.len(),
            all == crate::state::scopes_view(scopes@),
            whole == forget_in_scopes_spec(
                crate::state::scopes_view(scopes@),
                crate::text::strs_view(names@),
            ),
            crate::state::scopes_view(r@) == whole.take(i as int),
        decreases scopes.len() - i,
    {
        let scope = &scopes[i];
        assert(all[i as int] == crate::state::scope_view(scope@));
        r.push(forget_in_scope(scope, names, Vec::new()));
        assert(whole.take(i + 1) =~= whole.take(i as int).push(whole[i as int]));
        i += 1;
    }
    assert(whole.take(i as int) =~= whole);
    r
}

/// What [`forget_literals`] computes.
#[verifier::opaque]
pub open spec fn forget_literals_spec(env: EnvView, names: Seq<Seq<char>>) -> EnvView
{
    let scopes = forget_in_scopes_spec(env.scopes, names);
    EnvView { scopes, ..env }
}

/// Forgets the literals that the given names were made from.
pub fn forget_literals(env: Env, names: &Vec<String>) -> (r: Env)
    ensures
        r@ == forget_literals_spec(env@, crate::text::strs_view(names@)),
        crate::state::same_scopes(env@, r@),
{
    proof {
        reveal(forget_literals_spec);
    }
    let scopes = forget_in_scopes(&env.scopes, names);
    Env { scopes, ..env }
}

/// What [`is_moved`] computes.
pub open spec fn is_moved_spec(env: EnvView, name: Seq<char>) -> bool
{
    match crate::scope::lookup_spec(env, name) {
        Some(info) => info.moved.is_some(),
        None => false,
    }
}

/// Whether a variable was moved out.
pub fn is_moved(env: &Env, name: &str) -> (r: bool)
    ensures
        r == is_moved_spec(env@, name@),
{
    match lookup(env, name) {
        Some(info) => info.moved.is_some(),
        None => false,
    }
}

/// What [`loop_balance`] computes from position `i` on.
pub open spec fn loop_balance_spec(
    bs: Seq<(Seq<char>, VarInfoView)>,
    env: EnvView,
    cx: ContextView,
    span: Span,
    context: Seq<char>,
    st: StateView,
    i: int,
) -> StateView
    decreases bs.len() - i,
{
    if 0 <= i < bs.len() {
        let b = bs[i];
        let st = if crate::scope::copies_spec(b.1.ty, cx)
            || b.1.moved.is_some() == is_moved_spec(env, b.0) {
            st
        } else {
            let message = context + ": '"@ + b.0
                + "' is in a different move state than at loop start; consume or rebind it consistently before this point"@;
            crate::scope::report_spec(st, span, message)
        };
        loop_balance_spec(bs, env, cx, span, context, st, i + 1)
    } else {
        st
    }
}

/// Reports the bindings that a loop's body leaves in another state.
pub fn loop_balance(
    bs: &Vec<(String, VarInfo)>,
    env: &Env,
    cx: &Context,
    span: Span,
    context: &str,
    st: State,
) -> (r: State)
    ensures
        r@ == loop_balance_spec(crate::state::scope_view(bs@), env@, cx@, span, context@, st@, 0),
        crate::state::follows(st@, r@),
        crate::state::balanced(st@, r@),
        crate::state::same_facts(st@, r@),
{
    let ghost whole_run = loop_balance_spec(
        crate::state::scope_view(bs@),
        env@,
        cx@,
        span,
        context@,
        st@,
        0,
    );
    let ghost start_st = st@;
    let mut st = st;
    let mut i: usize = 0;
    while i < bs.len()
        invariant
            i <= bs.len(),
            loop_balance_spec(
                crate::state::scope_view(bs@),
                env@,
                cx@,
                span,
                context@,
                st@,
                i as int,
            ) == whole_run,
            crate::state::follows(start_st, st@),
            crate::state::balanced(start_st, st@),
            crate::state::same_facts(start_st, st@),
        decreases bs.len() - i,
    {
        let b = &bs[i];
        st = if copies(&b.1.ty, cx) || b.1.moved.is_some() == is_moved(env, &b.0) {
            st
        } else {
            let message = cat4(
                context,
                ": '",
                &b.0,
                "' is in a different move state than at loop start; consume or rebind it consistently before this point",
            );
            report(st, span, message)
        };
        i += 1;
    }
    st
}

/// What [`validate_loop_balance`] computes.
#[verifier::opaque]
pub open spec fn validate_loop_balance_spec(
    before: EnvView,
    env: EnvView,
    cx: ContextView,
    span: Span,
    context: Seq<char>,
    st: StateView,
) -> StateView
{
    loop_balance_spec(crate::scope::all_bindings_spec(before), env, cx, span, context, st, 0)
}

/// Reports the bindings that were moved or restored since the loop started.
pub fn validate_loop_balance(
    before: &Env,
    env: &Env,
    cx: &Context,
    span: Span,
    context: &str,
    st: State,
) -> (r: State)
    ensures
        r@ == validate_loop_balance_spec(before@, env@, cx@, span, context@, st@),
        crate::state::follows(st@, r@),
        crate::state::balanced(st@, r@),
        crate::state::same_facts(st@, r@),
{
    proof {
        reveal(validate_loop_balance_spec);
    }
    loop_balance(&all_bindings(before), env, cx, span, context, st)
}

/// What [`field_names`] computes.
pub open spec fn field_names_spec(fs: Seq<(Seq<char>, Span)>) -> Seq<Seq<char>>
{
    fs.map_values(|f: (Seq<char>, Span)| f.0)
}

/// The names of moved fields.
pub fn field_names(fs: &Vec<(String, Span)>) -> (r: Vec<String>)
    ensures
        crate::text::strs_view(r@) == field_names_spec(crate::state::moved_fields_view(fs@)),
{
    let ghost whole = field_names_spec(crate::state::moved_fields_view(fs@));
    let ghost all = crate::state::moved_fields_view(fs@);
    let mut r: Vec<String> = Vec::new();
    let mut i: usize = 0;
    while i < fs.len()
        invariant
            i <= fs.len(),
            all == crate::state::moved_fields_view(fs@),
            whole == field_names_spec(crate::state::moved_fields_view(fs@)),
            crate::text::strs_view(r@) == whole.take(i as int),
        decreases fs.len() - i,
    {
        let f = &fs[i];
        assert(all[i as int] == (f.0@, f.1));
        r.push(f.0.clone());
        assert(whole.take(i + 1) =~= whole.take(i as int).push(whole[i as int]));
        i += 1;
    }
    assert(whole.take(i as int) =~= whole);
    r
}

/// What [`drops_of`] computes.
pub open spec fn drops_of_spec(
    bs: Seq<(Seq<char>, VarInfoView)>,
    cx: ContextView,
) -> Seq<TypedStmtView>
{
    bs.filter(
        |b: (Seq<char>, VarInfoView)| !crate::types::is_task_spec(b.1.ty) && !b.1.no_drop
            && !crate::scope::copies_spec(b.1.ty, cx) && b.1.moved.is_none(),
    ).map_values(|b: (Seq<char>, VarInfoView)| TypedStmtView::Drop {
        name: b.0,
        ty: b.1.ty,
        moved_fields: field_names_spec(b.1.moved_fields),
    })
}

/// The drops of the bindings that own a value when their scope is left.
pub fn drops_of(bs: &Vec<(String, VarInfo)>, cx: &Context) -> (r: Vec<TypedStmt>)
    ensures
        crate::ir::typed_stmts_view(r@) == drops_of_spec(crate::state::scope_view(bs@), cx@),
{
    let ghost all = crate::state::scope_view(bs@);
    let mut r: Vec<TypedStmt> = Vec::new();
    let mut i: usize = 0;
    proof {
        reveal(Seq::filter);
        assert(all.take(0) =~= Seq::empty());
    }
    while i < bs.len()
        invariant
            i <= bs.len(),
            all == crate::state::scope_view(bs@),
            crate::ir::typed_stmts_view(r@) == drops_of_spec(all.take(i as int), cx@),
        decreases bs.len() - i,
    {
        let b = &bs[i];
        proof {
            reveal(Seq::filter);
            assert(all[i as int] == (b.0@, b.1@));
            assert(all.take(i + 1).drop_last() =~= all.take(i as int));
            assert(all.take(i + 1).last() == all[i as int]);
        }
        if !is_task(&b.1.ty) && !b.1.no_drop && !copies(&b.1.ty, cx) && b.1.moved.is_none() {
            r.push(TypedStmt::Drop {
            name: b.0.clone(),
            ty: b.1.ty.dup(),
            moved_fields: field_names(&b.1.moved_fields),
        });
        }
        i += 1;
    }
    assert(all.take(i as int) =~= all);
    r
}

/// What [`emit_current_scope_drops`] computes.
#[verifier::opaque]
pub open spec fn emit_current_scope_drops_spec(
    env: EnvView,
    cx: ContextView,
    out: Seq<TypedStmtView>,
) -> Seq<TypedStmtView>
{
    out + drops_of_spec(crate::scope::current_scope_spec(env), cx)
}

/// A `drop` for every binding of the innermost scope that owns a value.
pub fn emit_current_scope_drops(env: &Env, cx: &Context, out: Vec<TypedStmt>) -> (r: Vec<TypedStmt>)
    ensures
        crate::ir::typed_stmts_view(r@) == emit_current_scope_drops_spec(
            env@,
            cx@,
            crate::ir::typed_stmts_view(out@),
        ),
        crate::state::grows(crate::ir::typed_stmts_view(out@), crate::ir::typed_stmts_view(r@)),
        forall|ret: TypeView, d: Declared|
            #![trigger crate::typing::body_typed(crate::ir::typed_stmts_view(out@), ret, d)]
            #![trigger crate::typing::body_typed(crate::ir::typed_stmts_view(r@), ret, d)]
            crate::typing::body_typed(crate::ir::typed_stmts_view(out@), ret, d)
                ==> crate::typing::body_typed(crate::ir::typed_stmts_view(r@), ret, d),
{
    proof {
        reveal(emit_current_scope_drops_spec); reveal(crate::typing::stmt_typed);
    }
    join(out, drops_of(&current_scope(env), cx))
}

/// What [`task_affine_stmt`] computes.
pub open spec fn task_affine_stmt_spec(
    s: TypedStmtView,
    spawned: Seq<Seq<char>>,
    joined: Seq<Seq<char>>,
    st: StateView,
) -> (Seq<Seq<char>>, Seq<Seq<char>>, StateView)
    decreases s, 0int,
{
    match s {
        TypedStmtView::TaskSpawn { name, body, .. } => {
            let st = if spawned.contains(name) {
                crate::scope::report_spec(
                    st,
                    crate::rewrite::no_span_spec(),
                    "task '"@ + name + "' was spawned twice in the same block"@,
                )
            } else {
                st
            };
            let st = task_affine_spec(body, st);
            (add_name_spec(spawned, name), joined, st)
        },
        TypedStmtView::TaskJoin { name } => {
            let st = if spawned.contains(name) {
                st
            } else {
                crate::scope::report_spec(
                    st,
                    crate::rewrite::no_span_spec(),
                    "join: task '"@ + name
                        + "' was not spawned in this block (cross-block joins aren't supported in v1)"@,
                )
            };
            let st = if joined.contains(name) {
                crate::scope::report_spec(
                    st,
                    crate::rewrite::no_span_spec(),
                    "join: task '"@ + name + "' was joined twice in the same block"@,
                )
            } else {
                st
            };
            (spawned, add_name_spec(joined, name), st)
        },
        TypedStmtView::If { then_body, else_body, .. } => {
            let st = task_affine_spec(then_body, st);
            (spawned, joined, task_affine_spec(else_body, st))
        },
        TypedStmtView::While { body, .. } => (spawned, joined, task_affine_spec(body, st)),
        TypedStmtView::For { body, .. } => (spawned, joined, task_affine_spec(body, st)),
        TypedStmtView::ForIter { body, .. } => (spawned, joined, task_affine_spec(body, st)),
        _ => (spawned, joined, st),
    }
}

/// Follows the tasks that a statement starts and joins.
pub fn task_affine_stmt(
    s: &TypedStmt,
    spawned: Vec<String>,
    joined: Vec<String>,
    st: State,
) -> (r: (Vec<String>, Vec<String>, State))
    ensures
        (crate::text::strs_view(r.0@), crate::text::strs_view(r.1@), r.2@) == task_affine_stmt_spec(
            s@,
            crate::text::strs_view(spawned@),
            crate::text::strs_view(joined@),
            st@,
        ),
        crate::state::follows(st@, r.2@),
        crate::state::balanced(st@, r.2@),
        crate::state::same_facts(st@, r.2@),
    decreases s, 0int,
{
    match s {
        TypedStmt::TaskSpawn { name, body, .. } => {
            let st = if contains_str(&spawned, name) {
                report(
                    st,
                    no_span(),
                    cat3("task '", name, "' was spawned twice in the same block"),
                )
            } else {
                st
            };
            let st = task_affine(body, st);
            (add_name(spawned, name), joined, st)
        },
        TypedStmt::TaskJoin { name } => {
            let st = if contains_str(&spawned, name) {
                st
            } else {
                report(
                    st,
                    no_span(),
                    cat3(
                        "join: task '",
                        name,
                        "' was not spawned in this block (cross-block joins aren't supported in v1)",
                    ),
                )
            };
            let st = if contains_str(&joined, name) {
                report(
                    st,
                    no_span(),
                    cat3("join: task '", name, "' was joined twice in the same block"),
                )
            } else {
                st
            };
            (spawned, add_name(joined, name), st)
        },
        TypedStmt::If { then_body, else_body, .. } => {
            let st = task_affine(then_body, st);
            (spawned, joined, task_affine(else_body, st))
        },
        TypedStmt::While { body, .. } => (spawned, joined, task_affine(body, st)),
        TypedStmt::For { body, .. } => (spawned, joined, task_affine(body, st)),
        TypedStmt::ForIter { body, .. } => (spawned, joined, task_affine(body, st)),
        _ => (spawned, joined, st),
    }
}

/// What [`task_affine_stmts`] computes from position `i` on.
pub open spec fn task_affine_stmts_spec(
    ss: Seq<TypedStmtView>,
    spawned: Seq<Seq<char>>,
    joined: Seq<Seq<char>>,
    st: StateView,
    i: int,
) -> (Seq<Seq<char>>, Seq<Seq<char>>, StateView)
    decreases ss, ss.len() - i,
{
    if 0 <= i < ss.len() {
        let s = ss[i];
        let (spawned, joined, st) = task_affine_stmt_spec(s, spawned, joined, st);
        task_affine_stmts_spec(ss, spawned, joined, st, i + 1)
    } else {
        (spawned, joined, st)
    }
}

/// Follows the tasks that statements start and join.
pub fn task_affine_stmts(
    ss: &Vec<TypedStmt>,
    spawned: Vec<String>,
    joined: Vec<String>,
    st: State,
) -> (r: (Vec<String>, Vec<String>, State))
    ensures
        (crate::text::strs_view(r.0@), crate::text::strs_view(r.1@), r.2@) == task_affine_stmts_spec(
            crate::ir::typed_stmts_view(ss@),
            crate::text::strs_view(spawned@),
            crate::text::strs_view(joined@),
            st@,
            0,
        ),
        crate::state::follows(st@, r.2@),
        crate::state::balanced(st@, r.2@),
        crate::state::same_facts(st@, r.2@),
    decreases ss, ss.len(),
{
    let ghost whole_run = task_affine_stmts_spec(
        crate::ir::typed_stmts_view(ss@),
        crate::text::strs_view(spawned@),
        crate::text::strs_view(joined@),
        st@,
        0,
    );
    let ghost start_st = st@;
    let mut spawned = spawned;
    let mut joined = joined;
    let mut st = st;
    let mut i: usize = 0;
    while i < ss.len()
        invariant
            i <= ss.len(),
            task_affine_stmts_spec(
                crate::ir::typed_stmts_view(ss@),
                crate::text::strs_view(spawned@),
                crate::text::strs_view(joined@),
                st@,
                i as int,
            ) == whole_run,
            crate::state::follows(start_st, st@),
            crate::state::balanced(start_st, st@),
            crate::state::same_facts(start_st, st@),
        decreases ss.len() - i,
    {
        let s = &ss[i];
        let next = task_affine_stmt(s, spawned, joined, st);
        spawned = next.0;
        joined = next.1;
        st = next.2;
        i += 1;
    }
    (spawned, joined, st)
}

/// What [`report_unjoined`] computes from position `i` on.
pub open spec fn report_unjoined_spec(
    spawned: Seq<Seq<char>>,
    joined: Seq<Seq<char>>,
    st: StateView,
    i: int,
) -> StateView
    decreases spawned.len() - i,
{
    if 0 <= i < spawned.len() {
        let name = spawned[i];
        let st = if joined.contains(name) {
            st
        } else {
            let message = "task '"@ + name + "' was never consumed by `join "@ + name
                + "`; each `task` handle must be joined exactly once"@;
            crate::scope::report_spec(st, crate::rewrite::no_span_spec(), message)
        };
        report_unjoined_spec(spawned, joined, st, i + 1)
    } else {
        st
    }
}

/// Reports the tasks that are never joined.
pub fn report_unjoined(spawned: &Vec<String>, joined: &Vec<String>, st: State) -> (r: State)
    ensures
        r@ == report_unjoined_spec(
            crate::text::strs_view(spawned@),
            crate::text::strs_view(joined@),
            st@,
            0,
        ),
        crate::state::follows(st@, r@),
        crate::state::balanced(st@, r@),
        crate::state::same_facts(st@, r@),
{
    let ghost whole_run = report_unjoined_spec(
        crate::text::strs_view(spawned@),
        crate::text::strs_view(joined@),
        st@,
        0,
    );
    let ghost start_st = st@;
    let mut st = st;
    let mut i: usize = 0;
    while i < spawned.len()
        invariant
            i <= spawned.len(),
            report_unjoined_spec(
                crate::text::strs_view(spawned@),
                crate::text::strs_view(joined@),
                st@,
                i as int,
            ) == whole_run,
            crate::state::follows(start_st, st@),
            crate::state::balanced(start_st, st@),
            crate::state::same_facts(start_st, st@),
        decreases spawned.len() - i,
    {
        let name = &spawned[i];
        st = if contains_str(joined, name) {
            st
        } else {
            let message = cat5(
                "task '",
                name,
                "' was never consumed by `join ",
                name,
                "`; each `task` handle must be joined exactly once",
            );
            report(st, no_span(), message)
        };
        i += 1;
    }
    st
}

/// What [`task_affine`] computes.
pub open spec fn task_affine_spec(ss: Seq<TypedStmtView>, st: StateView) -> StateView
    decreases ss, ss.len() + 1,
{
    let (spawned, joined, st) = task_affine_stmts_spec(ss, Seq::empty(), Seq::empty(), st, 0);
    report_unjoined_spec(spawned, joined, st, 0)
}

/// Each task of a block is joined exactly once, in that block.
pub fn task_affine(ss: &Vec<TypedStmt>, st: State) -> (r: State)
    ensures
        r@ == task_affine_spec(crate::ir::typed_stmts_view(ss@), st@),
        crate::state::follows(st@, r@),
        crate::state::balanced(st@, r@),
        crate::state::same_facts(st@, r@),
    decreases ss, ss.len() + 1,
{
    let (spawned, joined, st) = task_affine_stmts(ss, Vec::new(), Vec::new(), st);
    report_unjoined(&spawned, &joined, st)
}

/// What [`verify_task_affine`] computes.
pub open spec fn verify_task_affine_spec(body: Seq<TypedStmtView>, st: StateView) -> StateView
{
    task_affine_spec(body, st)
}

/// Reports the tasks of a body that are not joined exactly once.
pub fn verify_task_affine(body: &Vec<TypedStmt>, st: State) -> (r: State)
    ensures
        r@ == verify_task_affine_spec(crate::ir::typed_stmts_view(body@), st@),
        reported_unless(tasks_joined_once(crate::ir::typed_stmts_view(body@)), st@, r@),
        crate::state::follows(st@, r@),
        crate::state::balanced(st@, r@),
        crate::state::same_facts(st@, r@),
{
    proof {
        joined_tasks_pass(crate::ir::typed_stmts_view(body@), st@);
    }
    task_affine(body, st)
}

/// What [`is_vec_builtin`] computes.
pub open spec fn is_vec_builtin_spec(name: Seq<char>) -> bool
{
    name == "vec"@ || name == "push"@ || name == "set"@ || name == "clone"@
}

pub fn is_vec_builtin(name: &str) -> (r: bool)
    ensures
        r == is_vec_builtin_spec(name@),
{
    str_eq(name, "vec") || str_eq(name, "push") || str_eq(name, "set") || str_eq(name, "clone")
}

/// What [`is_mutating_builtin`] computes.
pub open spec fn is_mutating_builtin_spec(name: Seq<char>) -> bool
{
    name == "push_mut"@ || name == "atomic_store"@ || name == "atomic_fetch_add"@
        || name == "atomic_compare_exchange"@ || name == "channel_send"@ || name == "channel_recv"@
        || name == "mutex_lock"@ || name == "guard_set"@
}

/// Whether a built-in function changes what others see: a vector in place, an
/// atomic cell, a channel or a mutex.
pub fn is_mutating_builtin(name: &str) -> (r: bool)
    ensures
        r == is_mutating_builtin_spec(name@),
{
    str_eq(name, "push_mut") || str_eq(name, "atomic_store") || str_eq(name, "atomic_fetch_add")
        || str_eq(name, "atomic_compare_exchange") || str_eq(name, "channel_send")
        || str_eq(name, "channel_recv") || str_eq(name, "mutex_lock") || str_eq(name, "guard_set")
}

/// What [`non_pure_call`] computes.
pub open spec fn non_pure_call_spec(context: Seq<char>, name: Seq<char>) -> Seq<char>
{
    context + " cannot call non-pure function '"@ + name
        + "'; mark it `pure fn` or remove the call"@
}

pub fn non_pure_call(context: &str, name: &str) -> (r: String)
    ensures
        r@ == non_pure_call_spec(context@, name@),
{
    cat4(
        context,
        " cannot call non-pure function '",
        name,
        "'; mark it `pure fn` or remove the call",
    )
}

/// What [`is_text_type`] computes.
pub open spec fn is_text_type_spec(t: TypeView) -> bool
{
    crate::types::is_str_spec(t) || crate::types::is_owned_str_spec(t)
}

pub fn is_text_type(t: &Type) -> (r: bool)
    ensures
        r == is_text_type_spec(t@),
{
    is_str(t) || is_owned_str(t)
}

/// What [`pure_expr`] computes.
pub open spec fn pure_expr_spec(
    e: TypedExprView,
    cx: ContextView,
    context: Seq<char>,
    st: StateView,
) -> StateView
    decreases e, 0int,
{
    match e.kind {
        TypedExprKindView::Call { name, args, .. } => {
            let st = if is_vec_builtin_spec(name) {
                let message = context + " cannot call '"@ + name
                    + "' (heap-allocating Vec builtin is impure)"@;
                crate::scope::report_spec(st, e.span, message)
            } else if is_mutating_builtin_spec(name) {
                crate::scope::report_spec(st, e.span, non_pure_call_spec(context, name))
            } else {
                match crate::scope::signature_get_spec(cx.signatures, name) {
                    Some(sig) => if sig.is_pure {
                        st
                    } else {
                        crate::scope::report_spec(st, e.span, non_pure_call_spec(context, name))
                    },
                    None => st,
                }
            };
            pure_exprs_spec(args, cx, context, st, 0)
        },
        TypedExprKindView::Unary { expr, .. } => pure_expr_spec(*expr, cx, context, st),
        TypedExprKindView::Binary { op, left, right, .. } => {
            let st = if op == BinaryOp::Add && is_text_type_spec(left.ty)
                && is_text_type_spec(right.ty) {
                crate::scope::report_spec(
                    st,
                    e.span,
                    context + " cannot use `+` on strings (heap allocation is impure)"@,
                )
            } else {
                st
            };
            let st = pure_expr_spec(*left, cx, context, st);
            pure_expr_spec(*right, cx, context, st)
        },
        TypedExprKindView::Cast { expr, .. } => pure_expr_spec(*expr, cx, context, st),
        TypedExprKindView::ArrayLit { elements } => pure_exprs_spec(elements, cx, context, st, 0),
        TypedExprKindView::Index { array, index, .. } => {
            let st = pure_expr_spec(*array, cx, context, st);
            pure_expr_spec(*index, cx, context, st)
        },
        TypedExprKindView::Len { array, .. } => pure_expr_spec(*array, cx, context, st),
        TypedExprKindView::CallIndirect { callee, args } => {
            let message = context
                + " cannot use indirect calls (fn-ptr) — the purity gate sees only direct calls"@;
            let st = crate::scope::report_spec(st, e.span, message);
            let st = pure_expr_spec(*callee, cx, context, st);
            pure_exprs_spec(args, cx, context, st, 0)
        },
        TypedExprKindView::Tuple { elements } => pure_exprs_spec(elements, cx, context, st, 0),
        TypedExprKindView::TupleAccess { tuple, .. } => pure_expr_spec(*tuple, cx, context, st),
        TypedExprKindView::StructLit { fields, .. } => pure_fields_spec(fields, cx, context, st, 0),
        TypedExprKindView::FieldAccess { object, .. } => pure_expr_spec(*object, cx, context, st),
        TypedExprKindView::EnumVariantWithPayload { payload, .. } => pure_expr_spec(
            *payload,
            cx,
            context,
            st,
        ),
        TypedExprKindView::Match { scrutinee, arms } => {
            let st = pure_expr_spec(*scrutinee, cx, context, st);
            pure_arms_spec(arms, cx, context, st, 0)
        },
        TypedExprKindView::IfExpr { cond, then_value, else_value } => {
            let st = pure_expr_spec(*cond, cx, context, st);
            let st = pure_expr_spec(*then_value, cx, context, st);
            pure_expr_spec(*else_value, cx, context, st)
        },
        TypedExprKindView::Block { stmts, tail } => {
            let st = pure_lets_spec(stmts, cx, context, st, 0);
            pure_expr_spec(*tail, cx, context, st)
        },
        _ => st,
    }
}

/// Reports what an expression does besides computing its value.
pub fn pure_expr(e: &TypedExpr, cx: &Context, context: &str, st: State) -> (r: State)
    ensures
        r@ == pure_expr_spec(e@, cx@, context@, st@),
        crate::state::follows(st@, r@),
        crate::state::balanced(st@, r@),
        crate::state::same_facts(st@, r@),
    decreases e, 0int,
{
    match &e.kind {
        TypedExprKind::Call { name, args, .. } => {
            let st = if is_vec_builtin(name) {
                let message = cat4(
                    context,
                    " cannot call '",
                    name,
                    "' (heap-allocating Vec builtin is impure)",
                );
                report(st, e.span, message)
            } else if is_mutating_builtin(name) {
                report(st, e.span, non_pure_call(context, name))
            } else {
                match signature_get(&cx.signatures, name) {
                    Some(sig) => if sig.is_pure {
                        st
                    } else {
                        report(st, e.span, non_pure_call(context, name))
                    },
                    None => st,
                }
            };
            pure_exprs(args, cx, context, st)
        },
        TypedExprKind::Unary { expr, .. } => pure_expr(&**expr, cx, context, st),
        TypedExprKind::Binary { op, left, right, .. } => {
            let st = if *op == BinaryOp::Add && is_text_type(&left.ty) && is_text_type(&right.ty) {
                report(
                    st,
                    e.span,
                    cat2(context, " cannot use `+` on strings (heap allocation is impure)"),
                )
            } else {
                st
            };
            let st = pure_expr(&**left, cx, context, st);
            pure_expr(&**right, cx, context, st)
        },
        TypedExprKind::Cast { expr, .. } => pure_expr(&**expr, cx, context, st),
        TypedExprKind::ArrayLit { elements } => pure_exprs(elements, cx, context, st),
        TypedExprKind::Index { array, index, .. } => {
            let st = pure_expr(&**array, cx, context, st);
            pure_expr(&**index, cx, context, st)
        },
        TypedExprKind::Len { array, .. } => pure_expr(&**array, cx, context, st),
        TypedExprKind::CallIndirect { callee, args } => {
            let message = cat2(
                context,
                " cannot use indirect calls (fn-ptr) — the purity gate sees only direct calls",
            );
            let st = report(st, e.span, message);
            let st = pure_expr(&**callee, cx, context, st);
            pure_exprs(args, cx, context, st)
        },
        TypedExprKind::Tuple { elements } => pure_exprs(elements, cx, context, st),
        TypedExprKind::TupleAccess { tuple, .. } => pure_expr(&**tuple, cx, context, st),
        TypedExprKind::StructLit { fields, .. } => pure_fields(fields, cx, context, st),
        TypedExprKind::FieldAccess { object, .. } => pure_expr(&**object, cx, context, st),
        TypedExprKind::EnumVariantWithPayload { payload, .. } => pure_expr(
            &**payload,
            cx,
            context,
            st,
        ),
        TypedExprKind::Match { scrutinee, arms } => {
            let st = pure_expr(&**scrutinee, cx, context, st);
            pure_arms(arms, cx, context, st)
        },
        TypedExprKind::IfExpr { cond, then_value, else_value } => {
            let st = pure_expr(&**cond, cx, context, st);
            let st = pure_expr(&**then_value, cx, context, st);
            pure_expr(&**else_value, cx, context, st)
        },
        TypedExprKind::Block { stmts, tail } => {
            let st = pure_lets(stmts, cx, context, st);
            pure_expr(&**tail, cx, context, st)
        },
        _ => st,
    }
}

/// What [`pure_exprs`] computes from position `i` on.
pub open spec fn pure_exprs_spec(
    es: Seq<TypedExprView>,
    cx: ContextView,
    context: Seq<char>,
    st: StateView,
    i: int,
) -> StateView
    decreases es, es.len() - i,
{
    if 0 <= i < es.len() {
        let e = es[i];
        let st = pure_expr_spec(e, cx, context, st);
        pure_exprs_spec(es, cx, context, st, i + 1)
    } else {
        st
    }
}

/// Reports the effects of expressions.
pub fn pure_exprs(es: &Vec<TypedExpr>, cx: &Context, context: &str, st: State) -> (r: State)
    ensures
        r@ == pure_exprs_spec(crate::ir::typed_exprs_view(es@), cx@, context@, st@, 0),
        crate::state::follows(st@, r@),
        crate::state::balanced(st@, r@),
        crate::state::same_facts(st@, r@),
    decreases es, es.len(),
{
    let ghost whole_run = pure_exprs_spec(crate::ir::typed_exprs_view(es@), cx@, context@, st@, 0);
    let ghost start_st = st@;
    let mut st = st;
    let mut i: usize = 0;
    while i < es.len()
        invariant
            i <= es.len(),
            pure_exprs_spec(
                crate::ir::typed_exprs_view(es@),
                cx@,
                context@,
                st@,
                i as int,
            ) == whole_run,
            crate::state::follows(start_st, st@),
            crate::state::balanced(start_st, st@),
            crate::state::same_facts(start_st, st@),
        decreases es.len() - i,
    {
        let e = &es[i];
        st = pure_expr(e, cx, context, st);
        i += 1;
    }
    st
}

/// What [`pure_fields`] computes from position `i` on.
pub open spec fn pure_fields_spec(
    fs: Seq<(Seq<char>, TypedExprView)>,
    cx: ContextView,
    context: Seq<char>,
    st: StateView,
    i: int,
) -> StateView
    decreases fs, fs.len() - i,
{
    if 0 <= i < fs.len() {
        let f = fs[i];
        let st = pure_expr_spec(f.1, cx, context, st);
        pure_fields_spec(fs, cx, context, st, i + 1)
    } else {
        st
    }
}

/// Reports the effects of the fields of a literal.
pub fn pure_fields(
    fs: &Vec<(String, TypedExpr)>,
    cx: &Context,
    context: &str,
    st: State,
) -> (r: State)
    ensures
        r@ == pure_fields_spec(crate::ir::named_typed_exprs_view(fs@), cx@, context@, st@, 0),
        crate::state::follows(st@, r@),
        crate::state::balanced(st@, r@),
        crate::state::same_facts(st@, r@),
    decreases fs, fs.len(),
{
    let ghost whole_run = pure_fields_spec(
        crate::ir::named_typed_exprs_view(fs@),
        cx@,
        context@,
        st@,
        0,
    );
    let ghost start_st = st@;
    let mut st = st;
    let mut i: usize = 0;
    while i < fs.len()
        invariant
            i <= fs.len(),
            pure_fields_spec(
                crate::ir::named_typed_exprs_view(fs@),
                cx@,
                context@,
                st@,
                i as int,
            ) == whole_run,
            crate::state::follows(start_st, st@),
            crate::state::balanced(start_st, st@),
            crate::state::same_facts(start_st, st@),
        decreases fs.len() - i,
    {
        let f = &fs[i];
        st = pure_expr(&f.1, cx, context, st);
        i += 1;
    }
    st
}

/// What [`pure_arms`] computes from position `i` on.
pub open spec fn pure_arms_spec(
    arms: Seq<TypedMatchArmView>,
    cx: ContextView,
    context: Seq<char>,
    st: StateView,
    i: int,
) -> StateView
    decreases arms, arms.len() - i,
{
    if 0 <= i < arms.len() {
        let a = arms[i];
        let st = pure_expr_spec(a.body, cx, context, st);
        pure_arms_spec(arms, cx, context, st, i + 1)
    } else {
        st
    }
}

/// Reports the effects of the arms of a match.
pub fn pure_arms(arms: &Vec<TypedMatchArm>, cx: &Context, context: &str, st: State) -> (r: State)
    ensures
        r@ == pure_arms_spec(crate::ir::typed_arms_view(arms@), cx@, context@, st@, 0),
        crate::state::follows(st@, r@),
        crate::state::balanced(st@, r@),
        crate::state::same_facts(st@, r@),
    decreases arms, arms.len(),
{
    let ghost whole_run = pure_arms_spec(crate::ir::typed_arms_view(arms@), cx@, context@, st@, 0);
    let ghost start_st = st@;
    let mut st = st;
    let mut i: usize = 0;
    while i < arms.len()
        invariant
            i <= arms.len(),
            pure_arms_spec(
                crate::ir::typed_arms_view(arms@),
                cx@,
                context@,
                st@,
                i as int,
            ) == whole_run,
            crate::state::follows(start_st, st@),
            crate::state::balanced(start_st, st@),
            crate::state::same_facts(start_st, st@),
        decreases arms.len() - i,
    {
        let a = &arms[i];
        st = pure_expr(&a.body, cx, context, st);
        i += 1;
    }
    st
}

/// What [`pure_lets`] computes from position `i` on.
pub open spec fn pure_lets_spec(
    ss: Seq<TypedStmtView>,
    cx: ContextView,
    context: Seq<char>,
    st: StateView,
    i: int,
) -> StateView
    decreases ss, ss.len() - i,
{
    if 0 <= i < ss.len() {
        let s = ss[i];
        let st = match s {
            TypedStmtView::Let { expr, .. } => pure_expr_spec(expr, cx, context, st),
            TypedStmtView::Print { items } => report_print_spec(items, context, st),
            _ => st,
        };
        pure_lets_spec(ss, cx, context, st, i + 1)
    } else {
        st
    }
}

/// Reports the effects of the statements of a block expression.
pub fn pure_lets(ss: &Vec<TypedStmt>, cx: &Context, context: &str, st: State) -> (r: State)
    ensures
        r@ == pure_lets_spec(crate::ir::typed_stmts_view(ss@), cx@, context@, st@, 0),
        crate::state::follows(st@, r@),
        crate::state::balanced(st@, r@),
        crate::state::same_facts(st@, r@),
    decreases ss, ss.len(),
{
    let ghost whole_run = pure_lets_spec(crate::ir::typed_stmts_view(ss@), cx@, context@, st@, 0);
    let ghost start_st = st@;
    let mut st = st;
    let mut i: usize = 0;
    while i < ss.len()
        invariant
            i <= ss.len(),
            pure_lets_spec(
                crate::ir::typed_stmts_view(ss@),
                cx@,
                context@,
                st@,
                i as int,
            ) == whole_run,
            crate::state::follows(start_st, st@),
            crate::state::balanced(start_st, st@),
            crate::state::same_facts(start_st, st@),
        decreases ss.len() - i,
    {
        let s = &ss[i];
        st = match s {
            TypedStmt::Let { expr, .. } => pure_expr(expr, cx, context, st),
            TypedStmt::Print { items } => report_print(items, context, st),
            _ => st,
        };
        i += 1;
    }
    st
}

/// What [`first_span`] computes from position `i` on.
pub open spec fn first_span_spec(
    items: Seq<TypedPrintItemView>,
    found: Option<Span>,
    i: int,
) -> Option<Span>
    decreases items.len() - i,
{
    if 0 <= i < items.len() && !found.is_some() {
        let item = items[i];
        let found = match item {
            TypedPrintItemView::Expr(e) => Some(e.span),
            TypedPrintItemView::Str(_) => found,
        };
        first_span_spec(items, found, i + 1)
    } else {
        found
    }
}

/// Where the first expression of a `print` stands.
pub fn first_span(items: &Vec<TypedPrintItem>, found: Option<Span>) -> (r: Option<Span>)
    ensures
        r == first_span_spec(crate::ir::typed_print_items_view(items@), found, 0),
{
    let ghost whole_run = first_span_spec(crate::ir::typed_print_items_view(items@), found, 0);
    let mut found = found;
    let mut i: usize = 0;
    while i < items.len() && !found.is_some()
        invariant
            i <= items.len(),
            first_span_spec(
                crate::ir::typed_print_items_view(items@),
                found,
                i as int,
            ) == whole_run,
        decreases items.len() - i,
    {
        let item = &items[i];
        found = match item {
            TypedPrintItem::Expr(e) => Some(e.span),
            TypedPrintItem::Str(_) => found,
        };
        i += 1;
    }
    found
}

/// What [`report_print`] computes.
pub open spec fn report_print_spec(
    items: Seq<TypedPrintItemView>,
    context: Seq<char>,
    st: StateView,
) -> StateView
{
    let span = match first_span_spec(items, None, 0) {
        Some(span) => span,
        None => crate::rewrite::no_span_spec(),
    };
    crate::scope::report_spec(
        st,
        span,
        context + " cannot contain `print` (observable I/O is a side effect)"@,
    )
}

/// Reports output.
pub fn report_print(items: &Vec<TypedPrintItem>, context: &str, st: State) -> (r: State)
    ensures
        r@ == report_print_spec(crate::ir::typed_print_items_view(items@), context@, st@),
        crate::state::follows(st@, r@),
        crate::state::balanced(st@, r@),
        crate::state::same_facts(st@, r@),
{
    let span = match first_span(items, None) {
        Some(span) => span,
        None => no_span(),
    };
    report(st, span, cat2(context, " cannot contain `print` (observable I/O is a side effect)"))
}

/// What [`pure_stmt`] computes.
pub open spec fn pure_stmt_spec(
    s: TypedStmtView,
    cx: ContextView,
    context: Seq<char>,
    st: StateView,
) -> StateView
    decreases s, 0int,
{
    match s {
        TypedStmtView::Print { items } => report_print_spec(items, context, st),
        TypedStmtView::Assert { expr, message } => match message {
            Some(_) => {
                let message = context
                    + " cannot contain `assert ..., \"msg\"` (runtime abort with message is a side effect)"@;
                crate::scope::report_spec(st, expr.span, message)
            },
            None => pure_expr_spec(expr, cx, context, st),
        },
        TypedStmtView::IndexAssign { name, index, .. } => {
            let message = context + " cannot mutate '"@ + name
                + "[i] = …' (indexed write is a side effect)"@;
            crate::scope::report_spec(st, index.span, message)
        },
        TypedStmtView::FieldAssign { object, field, .. } => {
            let message = context + " cannot mutate '."@ + field
                + "' (field write is a side effect)"@;
            crate::scope::report_spec(st, object.span, message)
        },
        TypedStmtView::Reassign { name, expr, drop_old, .. } => if drop_old {
            let message = context + " cannot reassign '"@ + name
                + "' over a non-Copy value (drop has observable effects)"@;
            crate::scope::report_spec(st, expr.span, message)
        } else {
            pure_expr_spec(expr, cx, context, st)
        },
        TypedStmtView::Discard { expr } => pure_expr_spec(expr, cx, context, st),
        TypedStmtView::Let { expr, .. } => pure_expr_spec(expr, cx, context, st),
        TypedStmtView::Return { expr } => pure_expr_spec(expr, cx, context, st),
        TypedStmtView::Prove { expr } => pure_expr_spec(expr, cx, context, st),
        TypedStmtView::If { cond, then_body, else_body } => {
            let st = pure_expr_spec(cond, cx, context, st);
            let st = verify_pure_body_spec(then_body, cx, context, st, 0);
            verify_pure_body_spec(else_body, cx, context, st, 0)
        },
        TypedStmtView::While { cond, body } => {
            let st = pure_expr_spec(cond, cx, context, st);
            verify_pure_body_spec(body, cx, context, st, 0)
        },
        TypedStmtView::For { start, end, body, .. } => {
            let st = pure_expr_spec(start, cx, context, st);
            let st = pure_expr_spec(end, cx, context, st);
            verify_pure_body_spec(body, cx, context, st, 0)
        },
        TypedStmtView::ForIter { body, consumes, collection, .. } => {
            let st = if consumes {
                let message = context + " cannot consume '"@ + collection + "' via `for x in "@
                    + context + "` (move-and-drop has observable effects)"@;
                crate::scope::report_spec(st, crate::rewrite::no_span_spec(), message)
            } else {
                st
            };
            verify_pure_body_spec(body, cx, context, st, 0)
        },
        TypedStmtView::TaskSpawn { body, .. } => verify_pure_body_spec(body, cx, context, st, 0),
        _ => st,
    }
}

/// Reports the effects of a statement.
pub fn pure_stmt(s: &TypedStmt, cx: &Context, context: &str, st: State) -> (r: State)
    ensures
        r@ == pure_stmt_spec(s@, cx@, context@, st@),
        crate::state::follows(st@, r@),
        crate::state::balanced(st@, r@),
        crate::state::same_facts(st@, r@),
    decreases s, 0int,
{
    match s {
        TypedStmt::Print { items } => report_print(items, context, st),
        TypedStmt::Assert { expr, message } => match message {
            Some(_) => {
                let message = cat2(
                    context,
                    " cannot contain `assert ..., \"msg\"` (runtime abort with message is a side effect)",
                );
                report(st, expr.span, message)
            },
            None => pure_expr(expr, cx, context, st),
        },
        TypedStmt::IndexAssign { name, index, .. } => {
            let message = cat4(
                context,
                " cannot mutate '",
                name,
                "[i] = …' (indexed write is a side effect)",
            );
            report(st, index.span, message)
        },
        TypedStmt::FieldAssign { object, field, .. } => {
            let message = cat4(
                context,
                " cannot mutate '.",
                field,
                "' (field write is a side effect)",
            );
            report(st, object.span, message)
        },
        TypedStmt::Reassign { name, expr, drop_old, .. } => if *drop_old {
            let message = cat4(
                context,
                " cannot reassign '",
                name,
                "' over a non-Copy value (drop has observable effects)",
            );
            report(st, expr.span, message)
        } else {
            pure_expr(expr, cx, context, st)
        },
        TypedStmt::Discard { expr } => pure_expr(expr, cx, context, st),
        TypedStmt::Let { expr, .. } => pure_expr(expr, cx, context, st),
        TypedStmt::Return { expr } => pure_expr(expr, cx, context, st),
        TypedStmt::Prove { expr } => pure_expr(expr, cx, context, st),
        TypedStmt::If { cond, then_body, else_body } => {
            let st = pure_expr(cond, cx, context, st);
            let st = verify_pure_body(then_body, cx, context, st);
            verify_pure_body(else_body, cx, context, st)
        },
        TypedStmt::While { cond, body } => {
            let st = pure_expr(cond, cx, context, st);
            verify_pure_body(body, cx, context, st)
        },
        TypedStmt::For { start, end, body, .. } => {
            let st = pure_expr(start, cx, context, st);
            let st = pure_expr(end, cx, context, st);
            verify_pure_body(body, cx, context, st)
        },
        TypedStmt::ForIter { body, consumes, collection, .. } => {
            let st = if *consumes {
                let message = cat6(
                    context,
                    " cannot consume '",
                    collection,
                    "' via `for x in ",
                    context,
                    "` (move-and-drop has observable effects)",
                );
                report(st, no_span(), message)
            } else {
                st
            };
            verify_pure_body(body, cx, context, st)
        },
        TypedStmt::TaskSpawn { body, .. } => verify_pure_body(body, cx, context, st),
        _ => st,
    }
}

/// What [`verify_pure_body`] computes from position `i` on.
pub open spec fn verify_pure_body_spec(
    ss: Seq<TypedStmtView>,
    cx: ContextView,
    context: Seq<char>,
    st: StateView,
    i: int,
) -> StateView
    decreases ss, ss.len() - i,
{
    if 0 <= i < ss.len() {
        let s = ss[i];
        let st = pure_stmt_spec(s, cx, context, st);
        verify_pure_body_spec(ss, cx, context, st, i + 1)
    } else {
        st
    }
}

/// Reports every statement that does more than compute: output, aborts with a
/// message, writes, drops, allocation and calls of functions that are not pure.
pub fn verify_pure_body(ss: &Vec<TypedStmt>, cx: &Context, context: &str, st: State) -> (r: State)
    ensures
        r@ == verify_pure_body_spec(crate::ir::typed_stmts_view(ss@), cx@, context@, st@, 0),
        crate::state::follows(st@, r@),
        crate::state::balanced(st@, r@),
        crate::state::same_facts(st@, r@),
    decreases ss, ss.len(),
{
    let ghost whole_run = verify_pure_body_spec(
        crate::ir::typed_stmts_view(ss@),
        cx@,
        context@,
        st@,
        0,
    );
    let ghost start_st = st@;
    let mut st = st;
    let mut i: usize = 0;
    while i < ss.len()
        invariant
            i <= ss.len(),
            verify_pure_body_spec(
                crate::ir::typed_stmts_view(ss@),
                cx@,
                context@,
                st@,
                i as int,
            ) == whole_run,
            crate::state::follows(start_st, st@),
            crate::state::balanced(start_st, st@),
            crate::state::same_facts(start_st, st@),
        decreases ss.len() - i,
    {
        let s = &ss[i];
        st = pure_stmt(s, cx, context, st);
        i += 1;
    }
    st
}

/// What [`contains_var`] computes.
pub open spec fn contains_var_spec(e: TypedExprView, name: Seq<char>) -> bool
    decreases e, 0int,
{
    match e.kind {
        TypedExprKindView::Var(n) => n == name,
        TypedExprKindView::Unary { expr, .. } => contains_var_spec(*expr, name),
        TypedExprKindView::Binary {
            left,
            right,
            ..
        } => contains_var_spec(*left, name) || contains_var_spec(*right, name),
        TypedExprKindView::Cast { expr, .. } => contains_var_spec(*expr, name),
        TypedExprKindView::Call { args, .. } => any_contains_var_spec(args, name),
        TypedExprKindView::ArrayLit { elements } => any_contains_var_spec(elements, name),
        TypedExprKindView::Index {
            array,
            index,
            ..
        } => contains_var_spec(*array, name) || contains_var_spec(*index, name),
        TypedExprKindView::Len { array, .. } => contains_var_spec(*array, name),
        TypedExprKindView::Ref { name: n } => n == name,
        TypedExprKindView::RefMut { name: n } => n == name,
        TypedExprKindView::RefField { object, .. } => object == name,
        TypedExprKindView::RefMutField { object, .. } => object == name,
        TypedExprKindView::CallIndirect {
            callee,
            args,
        } => contains_var_spec(*callee, name) || any_contains_var_spec(args, name),
        TypedExprKindView::Tuple { elements } => any_contains_var_spec(elements, name),
        TypedExprKindView::TupleAccess { tuple, .. } => contains_var_spec(*tuple, name),
        TypedExprKindView::StructLit { fields, .. } => any_field_contains_var_spec(fields, name),
        TypedExprKindView::FieldAccess { object, .. } => contains_var_spec(*object, name),
        TypedExprKindView::EnumVariantWithPayload { payload, .. } => contains_var_spec(
            *payload,
            name,
        ),
        TypedExprKindView::Match {
            scrutinee,
            arms,
        } => contains_var_spec(*scrutinee, name) || any_arm_contains_var_spec(arms, name),
        TypedExprKindView::IfExpr {
            cond,
            then_value,
            else_value,
        } => contains_var_spec(*cond, name) || contains_var_spec(*then_value, name) || contains_var_spec(*else_value, name),
        TypedExprKindView::Block {
            stmts,
            tail,
        } => any_let_contains_var_spec(stmts, name) || contains_var_spec(*tail, name),
        _ => false,
    }
}

/// Whether a typed expression uses the variable.
pub fn contains_var(e: &TypedExpr, name: &str) -> (r: bool)
    ensures
        r == contains_var_spec(e@, name@),
    decreases e, 0int,
{
    match &e.kind {
        TypedExprKind::Var(n) => str_eq(n, name),
        TypedExprKind::Unary { expr, .. } => contains_var(&**expr, name),
        TypedExprKind::Binary {
            left,
            right,
            ..
        } => contains_var(&**left, name) || contains_var(&**right, name),
        TypedExprKind::Cast { expr, .. } => contains_var(&**expr, name),
        TypedExprKind::Call { args, .. } => any_contains_var(args, name),
        TypedExprKind::ArrayLit { elements } => any_contains_var(elements, name),
        TypedExprKind::Index {
            array,
            index,
            ..
        } => contains_var(&**array, name) || contains_var(&**index, name),
        TypedExprKind::Len { array, .. } => contains_var(&**array, name),
        TypedExprKind::Ref { name: n } => str_eq(n, name),
        TypedExprKind::RefMut { name: n } => str_eq(n, name),
        TypedExprKind::RefField { object, .. } => str_eq(object, name),
        TypedExprKind::RefMutField { object, .. } => str_eq(object, name),
        TypedExprKind::CallIndirect { callee, args } => contains_var(
            &**callee,
            name,
        ) || any_contains_var(args, name),
        TypedExprKind::Tuple { elements } => any_contains_var(elements, name),
        TypedExprKind::TupleAccess { tuple, .. } => contains_var(&**tuple, name),
        TypedExprKind::StructLit { fields, .. } => any_field_contains_var(fields, name),
        TypedExprKind::FieldAccess { object, .. } => contains_var(&**object, name),
        TypedExprKind::EnumVariantWithPayload { payload, .. } => contains_var(&**payload, name),
        TypedExprKind::Match { scrutinee, arms } => contains_var(
            &**scrutinee,
            name,
        ) || any_arm_contains_var(arms, name),
        TypedExprKind::IfExpr {
            cond,
            then_value,
            else_value,
        } => contains_var(&**cond, name) || contains_var(&**then_value, name) || contains_var(&**else_value, name),
        TypedExprKind::Block {
            stmts,
            tail,
        } => any_let_contains_var(stmts, name) || contains_var(&**tail, name),
        _ => false,
    }
}

/// What [`any_contains_var`] computes.
pub open spec fn any_contains_var_spec(es: Seq<TypedExprView>, name: Seq<char>) -> bool
    decreases es, 1int,
{
    exists|i: int|
        #![trigger es[i]]
        0 <= i < es.len() && contains_var_spec(es[i], name)
}

/// Whether an expression of a list uses the variable.
pub fn any_contains_var(es: &Vec<TypedExpr>, name: &str) -> (r: bool)
    ensures
        r == any_contains_var_spec(crate::ir::typed_exprs_view(es@), name@),
    decreases es, es.len(),
{
    let ghost all = crate::ir::typed_exprs_view(es@);
    let mut i: usize = 0;
    while i < es.len()
        invariant
            i <= es.len(),
            all == crate::ir::typed_exprs_view(es@),
            forall|j: int|
                #![trigger all[j]]
                0 <= j < i ==> !contains_var_spec(all[j], name@),
        decreases es.len() - i,
    {
        let e = &es[i];
        assert(all[i as int] == e@);
        if contains_var(e, name) {
            return true;
        }
        i += 1;
    }
    false
}

/// What [`any_field_contains_var`] computes.
pub open spec fn any_field_contains_var_spec(
    fs: Seq<(Seq<char>, TypedExprView)>,
    name: Seq<char>,
) -> bool
    decreases fs, 1int,
{
    exists|i: int|
        #![trigger fs[i]]
        0 <= i < fs.len() && contains_var_spec(fs[i].1, name)
}

/// Whether a field of a literal uses the variable.
pub fn any_field_contains_var(fs: &Vec<(String, TypedExpr)>, name: &str) -> (r: bool)
    ensures
        r == any_field_contains_var_spec(crate::ir::named_typed_exprs_view(fs@), name@),
    decreases fs, fs.len(),
{
    let ghost all = crate::ir::named_typed_exprs_view(fs@);
    let mut i: usize = 0;
    while i < fs.len()
        invariant
            i <= fs.len(),
            all == crate::ir::named_typed_exprs_view(fs@),
            forall|j: int|
                #![trigger all[j]]
                0 <= j < i ==> !contains_var_spec(all[j].1, name@),
        decreases fs.len() - i,
    {
        let f = &fs[i];
        assert(all[i as int] == (f.0@, f.1@));
        if contains_var(&f.1, name) {
            return true;
        }
        i += 1;
    }
    false
}

/// What [`any_arm_contains_var`] computes.
pub open spec fn any_arm_contains_var_spec(arms: Seq<TypedMatchArmView>, name: Seq<char>) -> bool
    decreases arms, 1int,
{
    exists|i: int|
        #![trigger arms[i]]
        0 <= i < arms.len() && contains_var_spec(arms[i].body, name)
}

/// Whether an arm of a match uses the variable.
pub fn any_arm_contains_var(arms: &Vec<TypedMatchArm>, name: &str) -> (r: bool)
    ensures
        r == any_arm_contains_var_spec(crate::ir::typed_arms_view(arms@), name@),
    decreases arms, arms.len(),
{
    let ghost all = crate::ir::typed_arms_view(arms@);
    let mut i: usize = 0;
    while i < arms.len()
        invariant
            i <= arms.len(),
            all == crate::ir::typed_arms_view(arms@),
            forall|j: int|
                #![trigger all[j]]
                0 <= j < i ==> !contains_var_spec(all[j].body, name@),
        decreases arms.len() - i,
    {
        let a = &arms[i];
        assert(all[i as int] == a@);
        if contains_var(&a.body, name) {
            return true;
        }
        i += 1;
    }
    false
}

/// What [`any_let_contains_var`] computes.
pub open spec fn any_let_contains_var_spec(ss: Seq<TypedStmtView>, name: Seq<char>) -> bool
    decreases ss, 1int,
{
    exists|i: int|
        #![trigger ss[i]]
        0 <= i < ss.len() && let_contains_var_spec(ss[i], name)
}

/// Whether a statement of a block expression uses the variable.
pub fn any_let_contains_var(ss: &Vec<TypedStmt>, name: &str) -> (r: bool)
    ensures
        r == any_let_contains_var_spec(crate::ir::typed_stmts_view(ss@), name@),
    decreases ss, ss.len(),
{
    let ghost all = crate::ir::typed_stmts_view(ss@);
    let mut i: usize = 0;
    while i < ss.len()
        invariant
            i <= ss.len(),
            all == crate::ir::typed_stmts_view(ss@),
            forall|j: int|
                #![trigger all[j]]
                0 <= j < i ==> !let_contains_var_spec(all[j], name@),
        decreases ss.len() - i,
    {
        let s = &ss[i];
        assert(all[i as int] == s@);
        if let_contains_var(s, name) {
            return true;
        }
        i += 1;
    }
    false
}

/// What [`let_contains_var`] computes.
pub open spec fn let_contains_var_spec(s: TypedStmtView, name: Seq<char>) -> bool
    decreases s, 0int,
{
    match s {
        TypedStmtView::Let { expr, .. } => contains_var_spec(expr, name),
        TypedStmtView::Print { items } => any_item_contains_var_spec(items, name),
        _ => false,
    }
}

/// Whether one statement of a block expression uses the variable.
pub fn let_contains_var(s: &TypedStmt, name: &str) -> (r: bool)
    ensures
        r == let_contains_var_spec(s@, name@),
    decreases s, 0int,
{
    match s {
        TypedStmt::Let { expr, .. } => contains_var(expr, name),
        TypedStmt::Print { items } => any_item_contains_var(items, name),
        _ => false,
    }
}

/// What [`any_item_contains_var`] computes.
pub open spec fn any_item_contains_var_spec(items: Seq<TypedPrintItemView>, name: Seq<char>) -> bool
    decreases items, 1int,
{
    exists|i: int|
        #![trigger items[i]]
        0 <= i < items.len() && item_contains_var_spec(items[i], name)
}

/// Whether an item of a `print` uses the variable.
pub fn any_item_contains_var(items: &Vec<TypedPrintItem>, name: &str) -> (r: bool)
    ensures
        r == any_item_contains_var_spec(crate::ir::typed_print_items_view(items@), name@),
    decreases items, items.len(),
{
    let ghost all = crate::ir::typed_print_items_view(items@);
    let mut i: usize = 0;
    while i < items.len()
        invariant
            i <= items.len(),
            all == crate::ir::typed_print_items_view(items@),
            forall|j: int|
                #![trigger all[j]]
                0 <= j < i ==> !item_contains_var_spec(all[j], name@),
        decreases items.len() - i,
    {
        let item = &items[i];
        assert(all[i as int] == item@);
        if item_contains_var(item, name) {
            return true;
        }
        i += 1;
    }
    false
}

/// What [`item_contains_var`] computes.
pub open spec fn item_contains_var_spec(item: TypedPrintItemView, name: Seq<char>) -> bool
    decreases item, 0int,
{
    match item {
        TypedPrintItemView::Expr(e) => contains_var_spec(e, name),
        TypedPrintItemView::Str(_) => false,
    }
}

/// Whether one item of a `print` uses the variable.
pub fn item_contains_var(item: &TypedPrintItem, name: &str) -> (r: bool)
    ensures
        r == item_contains_var_spec(item@, name@),
    decreases item, 0int,
{
    match item {
        TypedPrintItem::Expr(e) => contains_var(e, name),
        TypedPrintItem::Str(_) => false,
    }
}

/// What [`is_var_named`] computes.
pub open spec fn is_var_named_spec(e: TypedExprView, name: Seq<char>) -> bool
{
    match e.kind {
        TypedExprKindView::Var(n) => n == name,
        _ => false,
    }
}

pub fn is_var_named(e: &TypedExpr, name: &str) -> (r: bool)
    ensures
        r == is_var_named_spec(e@, name@),
{
    match &e.kind {
        TypedExprKind::Var(n) => str_eq(n, name),
        _ => false,
    }
}

/// What [`updates_var`] computes.
pub open spec fn updates_var_spec(
    left: TypedExprView,
    right: TypedExprView,
    name: Seq<char>,
) -> bool
{
    (is_var_named_spec(left, name) && !contains_var_spec(right, name))
        || (is_var_named_spec(right, name)
        && !contains_var_spec(left, name))
}

/// One operand is the variable and the other does not read it.
pub fn updates_var(left: &TypedExpr, right: &TypedExpr, name: &str) -> (r: bool)
    ensures
        r == updates_var_spec(left@, right@, name@),
{
    (is_var_named(left, name) && !contains_var(right, name)) || (is_var_named(right, name)
        && !contains_var(left, name))
}

/// What [`reduction_binary_op`] computes.
pub open spec fn reduction_binary_op_spec(op: ReductionOp) -> Option<BinaryOp>
{
    match op {
        ReductionOp::Add => Some(BinaryOp::Add),
        ReductionOp::Mul => Some(BinaryOp::Mul),
        ReductionOp::And => Some(BinaryOp::And),
        ReductionOp::Or => Some(BinaryOp::Or),
        ReductionOp::BitAnd => Some(BinaryOp::BitAnd),
        ReductionOp::BitOr => Some(BinaryOp::BitOr),
        ReductionOp::BitXor => Some(BinaryOp::BitXor),
        ReductionOp::Min => None,
        ReductionOp::Max => None,
    }
}

/// The operator that a reduction combines by, if it is one.
pub fn reduction_binary_op(op: ReductionOp) -> (r: Option<BinaryOp>)
    ensures
        r == reduction_binary_op_spec(op),
{
    match op {
        ReductionOp::Add => Some(BinaryOp::Add),
        ReductionOp::Mul => Some(BinaryOp::Mul),
        ReductionOp::And => Some(BinaryOp::And),
        ReductionOp::Or => Some(BinaryOp::Or),
        ReductionOp::BitAnd => Some(BinaryOp::BitAnd),
        ReductionOp::BitOr => Some(BinaryOp::BitOr),
        ReductionOp::BitXor => Some(BinaryOp::BitXor),
        ReductionOp::Min => None,
        ReductionOp::Max => None,
    }
}

/// What [`validate_reduction_rhs`] computes.
pub open spec fn validate_reduction_rhs_spec(
    name: Seq<char>,
    e: TypedExprView,
    op: ReductionOp,
) -> bool
{
    match reduction_binary_op_spec(op) {
        Some(wanted) => match e.kind {
            TypedExprKindView::Binary { op: found, left, right, .. } => found == wanted
                && updates_var_spec(*left, *right, name),
            _ => false,
        },
        None => match e.kind {
            TypedExprKindView::Call {
                name: callee,
                args,
                ..
            } => callee == (if op == ReductionOp::Min { "min"@ } else { "max"@ }) && args.len() == 2 && updates_var_spec(args[0], args[1], name),
            _ => false,
        },
    }
}

/// Whether a reduction variable is updated by its own operation and one value
/// that does not depend on it.
pub fn validate_reduction_rhs(name: &str, e: &TypedExpr, op: ReductionOp) -> (r: bool)
    ensures
        r == validate_reduction_rhs_spec(name@, e@, op),
{
    proof {
        reveal_with_fuel(crate::ir::typed_expr_view, 4);
        reveal_with_fuel(crate::ir::typed_expr_kind_view, 4);
        reveal_with_fuel(crate::ir::typed_stmt_view, 3);
        reveal_with_fuel(crate::ir::typed_exprs_view, 3);
        reveal_with_fuel(crate::ir::typed_stmts_view, 3);
    }
    match reduction_binary_op(op) {
        Some(wanted) => match &e.kind {
            TypedExprKind::Binary { op: found, left, right, .. } => *found == wanted
                && updates_var(&**left, &**right, name),
            _ => false,
        },
        None => match &e.kind {
            TypedExprKind::Call { name: callee, args, .. } => str_eq(
                callee,
                if op == ReductionOp::Min { "min" } else { "max" },
            ) && args.len() == 2 && updates_var(&args[0], &args[1], name),
            _ => false,
        },
    }
}

/// What [`other_operand`] computes.
pub open spec fn other_operand_spec(
    left: TypedExprView,
    right: TypedExprView,
    name: Seq<char>,
) -> TypedExprView
{
    if is_var_named_spec(left, name) && !contains_var_spec(right, name) { right } else { left }
}

/// What an update combines the variable with.
pub fn other_operand(left: &TypedExpr, right: &TypedExpr, name: &str) -> (r: TypedExpr)
    ensures
        r@ == other_operand_spec(left@, right@, name@),
{
    if is_var_named(left, name) && !contains_var(right, name) { right.dup() } else { left.dup() }
}

/// What [`reduction_operand`] computes.
pub open spec fn reduction_operand_spec(name: Seq<char>, e: TypedExprView) -> TypedExprView
{
    match e.kind {
        TypedExprKindView::Binary { left, right, .. } => other_operand_spec(*left, *right, name),
        TypedExprKindView::Call { args, .. } => if args.len() == 2 {
            other_operand_spec(args[0], args[1], name)
        } else {
            e
        },
        _ => e,
    }
}

/// The value that an update of a reduction variable takes in.
pub fn reduction_operand(name: &str, e: &TypedExpr) -> (r: TypedExpr)
    ensures
        r@ == reduction_operand_spec(name@, e@),
{
    proof {
        reveal_with_fuel(crate::ir::typed_expr_view, 4);
        reveal_with_fuel(crate::ir::typed_expr_kind_view, 4);
        reveal_with_fuel(crate::ir::typed_stmt_view, 3);
        reveal_with_fuel(crate::ir::typed_exprs_view, 3);
        reveal_with_fuel(crate::ir::typed_stmts_view, 3);
    }
    match &e.kind {
        TypedExprKind::Binary { left, right, .. } => other_operand(&**left, &**right, name),
        TypedExprKind::Call { args, .. } => if args.len() == 2 {
            other_operand(&args[0], &args[1], name)
        } else {
            e.dup()
        },
        _ => e.dup(),
    }
}

/// What [`find_reduction`] computes from position `i` on.
pub open spec fn find_reduction_spec(
    rs: Seq<TypedReductionView>,
    name: Seq<char>,
    found: Option<ReductionOp>,
    i: int,
) -> Option<ReductionOp>
    decreases rs.len() - i,
{
    if 0 <= i < rs.len() {
        let r = rs[i];
        let found = if r.var == name { Some(r.op) } else { found };
        find_reduction_spec(rs, name, found, i + 1)
    } else {
        found
    }
}

/// The last reduction of a variable.
pub fn find_reduction(
    rs: &Vec<TypedReduction>,
    name: &str,
    found: Option<ReductionOp>,
) -> (r: Option<ReductionOp>)
    ensures
        r == find_reduction_spec(crate::ir::typed_reductions_view(rs@), name@, found, 0),
{
    let ghost whole_run = find_reduction_spec(
        crate::ir::typed_reductions_view(rs@),
        name@,
        found,
        0,
    );
    let mut found = found;
    let mut i: usize = 0;
    while i < rs.len()
        invariant
            i <= rs.len(),
            find_reduction_spec(
                crate::ir::typed_reductions_view(rs@),
                name@,
                found,
                i as int,
            ) == whole_run,
        decreases rs.len() - i,
    {
        let r = &rs[i];
        found = if str_eq(&r.var, name) { Some(r.op) } else { found };
        i += 1;
    }
    found
}

/// What [`any_read_of_reductions`] computes.
pub open spec fn any_read_of_reductions_spec(rs: Seq<TypedReductionView>, e: TypedExprView) -> bool
{
    exists|i: int|
        #![trigger rs[i]]
        0 <= i < rs.len() && contains_var_spec(e, rs[i].var)
}

/// Whether an expression reads a variable that is reduced.
pub fn any_read_of_reductions(rs: &Vec<TypedReduction>, e: &TypedExpr) -> (r: bool)
    ensures
        r == any_read_of_reductions_spec(crate::ir::typed_reductions_view(rs@), e@),
{
    let ghost all = crate::ir::typed_reductions_view(rs@);
    let mut i: usize = 0;
    while i < rs.len()
        invariant
            i <= rs.len(),
            all == crate::ir::typed_reductions_view(rs@),
            forall|j: int|
                #![trigger all[j]]
                0 <= j < i ==> !contains_var_spec(e@, all[j].var),
        decreases rs.len() - i,
    {
        let r = &rs[i];
        assert(all[i as int] == r@);
        if contains_var(e, &r.var) {
            return true;
        }
        i += 1;
    }
    false
}

/// What [`reduction_names`] computes from position `i` on.
pub open spec fn reduction_names_spec(
    rs: Seq<TypedReductionView>,
    out: Seq<Seq<char>>,
    i: int,
) -> Seq<Seq<char>>
    decreases rs.len() - i,
{
    if 0 <= i < rs.len() {
        let r = rs[i];
        let out = add_name_spec(out, r.var);
        reduction_names_spec(rs, out, i + 1)
    } else {
        out
    }
}

/// Adds the variables that are reduced, each once.
pub fn reduction_names(rs: &Vec<TypedReduction>, out: Vec<String>) -> (r: Vec<String>)
    ensures
        crate::text::strs_view(r@) == reduction_names_spec(
            crate::ir::typed_reductions_view(rs@),
            crate::text::strs_view(out@),
            0,
        ),
{
    let ghost whole_run = reduction_names_spec(
        crate::ir::typed_reductions_view(rs@),
        crate::text::strs_view(out@),
        0,
    );
    let mut out = out;
    let mut i: usize = 0;
    while i < rs.len()
        invariant
            i <= rs.len(),
            reduction_names_spec(
                crate::ir::typed_reductions_view(rs@),
                crate::text::strs_view(out@),
                i as int,
            ) == whole_run,
        decreases rs.len() - i,
    {
        let r = &rs[i];
        out = add_name(out, &r.var);
        i += 1;
    }
    out
}

/// What [`quoted_names`] computes from position `i` on.
pub open spec fn quoted_names_spec(names: Seq<Seq<char>>, out: Seq<char>, i: int) -> Seq<char>
    decreases names.len() - i,
{
    if 0 <= i < names.len() {
        let n = names[i];
        let out = {
            let out = if i > 0 { out + ", "@ } else { out };
            out + ("'"@ + n + "'"@)
        };
        quoted_names_spec(names, out, i + 1)
    } else {
        out
    }
}

/// Adds names in quotes, with commas between them.
pub fn quoted_names(names: &Vec<String>, out: String) -> (r: String)
    ensures
        r@ == quoted_names_spec(crate::text::strs_view(names@), out@, 0),
{
    let ghost whole_run = quoted_names_spec(crate::text::strs_view(names@), out@, 0);
    let mut out = out;
    let mut i: usize = 0;
    while i < names.len()
        invariant
            i <= names.len(),
            quoted_names_spec(crate::text::strs_view(names@), out@, i as int) == whole_run,
        decreases names.len() - i,
    {
        let n = &names[i];
        out = {
            let out = if i > 0 { extend(out, ", ") } else { out };
            extend(out, &cat3("'", n, "'"))
        };
        i += 1;
    }
    out
}

/// What [`flag_read`] computes.
pub open spec fn flag_read_spec(
    span: Span,
    context: Seq<char>,
    rs: Seq<TypedReductionView>,
    st: StateView,
) -> StateView
{
    let label = quoted_names_spec(reduction_names_spec(rs, Seq::empty(), 0), ""@, 0);
    let message = context + " cannot read reduction variable(s) "@ + label
        + " outside the named update — partial values would leak"@;
    crate::scope::report_spec(st, span, message)
}

/// Reports a read of a variable that is reduced.
pub fn flag_read(span: Span, context: &str, rs: &Vec<TypedReduction>, st: State) -> (r: State)
    ensures
        r@ == flag_read_spec(span, context@, crate::ir::typed_reductions_view(rs@), st@),
        crate::state::follows(st@, r@),
        crate::state::balanced(st@, r@),
        crate::state::same_facts(st@, r@),
{
    let label = quoted_names(&reduction_names(rs, Vec::new()), text(""));
    let message = cat4(
        context,
        " cannot read reduction variable(s) ",
        &label,
        " outside the named update — partial values would leak",
    );
    report(st, span, message)
}

/// What [`check_read`] computes.
pub open spec fn check_read_spec(
    e: TypedExprView,
    context: Seq<char>,
    rs: Seq<TypedReductionView>,
    st: StateView,
) -> StateView
{
    if any_read_of_reductions_spec(rs, e) { flag_read_spec(e.span, context, rs, st) } else { st }
}

/// [`flag_read`], where the expression reads such a variable.
pub fn check_read(e: &TypedExpr, context: &str, rs: &Vec<TypedReduction>, st: State) -> (r: State)
    ensures
        r@ == check_read_spec(e@, context@, crate::ir::typed_reductions_view(rs@), st@),
        crate::state::follows(st@, r@),
        crate::state::balanced(st@, r@),
        crate::state::same_facts(st@, r@),
{
    if any_read_of_reductions(rs, e) { flag_read(e.span, context, rs, st) } else { st }
}

/// What [`check_item_reads`] computes from position `i` on.
pub open spec fn check_item_reads_spec(
    items: Seq<TypedPrintItemView>,
    context: Seq<char>,
    rs: Seq<TypedReductionView>,
    st: StateView,
    i: int,
) -> StateView
    decreases items.len() - i,
{
    if 0 <= i < items.len() {
        let item = items[i];
        let st = match item {
            TypedPrintItemView::Expr(e) => check_read_spec(e, context, rs, st),
            TypedPrintItemView::Str(_) => st,
        };
        check_item_reads_spec(items, context, rs, st, i + 1)
    } else {
        st
    }
}

/// Reports the reads of reduced variables in a `print`.
pub fn check_item_reads(
    items: &Vec<TypedPrintItem>,
    context: &str,
    rs: &Vec<TypedReduction>,
    st: State,
) -> (r: State)
    ensures
        r@ == check_item_reads_spec(
            crate::ir::typed_print_items_view(items@),
            context@,
            crate::ir::typed_reductions_view(rs@),
            st@,
            0,
        ),
        crate::state::follows(st@, r@),
        crate::state::balanced(st@, r@),
        crate::state::same_facts(st@, r@),
{
    let ghost whole_run = check_item_reads_spec(
        crate::ir::typed_print_items_view(items@),
        context@,
        crate::ir::typed_reductions_view(rs@),
        st@,
        0,
    );
    let ghost start_st = st@;
    let mut st = st;
    let mut i: usize = 0;
    while i < items.len()
        invariant
            i <= items.len(),
            check_item_reads_spec(
                crate::ir::typed_print_items_view(items@),
                context@,
                crate::ir::typed_reductions_view(rs@),
                st@,
                i as int,
            ) == whole_run,
            crate::state::follows(start_st, st@),
            crate::state::balanced(start_st, st@),
            crate::state::same_facts(start_st, st@),
        decreases items.len() - i,
    {
        let item = &items[i];
        st = match item {
            TypedPrintItem::Expr(e) => check_read(e, context, rs, st),
            TypedPrintItem::Str(_) => st,
        };
        i += 1;
    }
    st
}

/// What [`check_stmt_reads`] computes.
pub open spec fn check_stmt_reads_spec(
    s: TypedStmtView,
    context: Seq<char>,
    rs: Seq<TypedReductionView>,
    st: StateView,
) -> StateView
{
    match s {
        TypedStmtView::Let { expr, .. } => check_read_spec(expr, context, rs, st),
        TypedStmtView::Reassign { expr, .. } => check_read_spec(expr, context, rs, st),
        TypedStmtView::Return { expr } => check_read_spec(expr, context, rs, st),
        TypedStmtView::Assert { expr, .. } => check_read_spec(expr, context, rs, st),
        TypedStmtView::Prove { expr } => check_read_spec(expr, context, rs, st),
        TypedStmtView::Discard { expr } => check_read_spec(expr, context, rs, st),
        TypedStmtView::Print { items } => check_item_reads_spec(items, context, rs, st, 0),
        TypedStmtView::IndexAssign { index, value, .. } => {
            let st = check_read_spec(index, context, rs, st);
            check_read_spec(value, context, rs, st)
        },
        TypedStmtView::FieldAssign { object, value, .. } => {
            let st = check_read_spec(object, context, rs, st);
            check_read_spec(value, context, rs, st)
        },
        _ => st,
    }
}

/// Reports the reads of a reduction variable in a statement without a body.
pub fn check_stmt_reads(
    s: &TypedStmt,
    context: &str,
    rs: &Vec<TypedReduction>,
    st: State,
) -> (r: State)
    ensures
        r@ == check_stmt_reads_spec(s@, context@, crate::ir::typed_reductions_view(rs@), st@),
        crate::state::follows(st@, r@),
        crate::state::balanced(st@, r@),
        crate::state::same_facts(st@, r@),
{
    match s {
        TypedStmt::Let { expr, .. } => check_read(expr, context, rs, st),
        TypedStmt::Reassign { expr, .. } => check_read(expr, context, rs, st),
        TypedStmt::Return { expr } => check_read(expr, context, rs, st),
        TypedStmt::Assert { expr, .. } => check_read(expr, context, rs, st),
        TypedStmt::Prove { expr } => check_read(expr, context, rs, st),
        TypedStmt::Discard { expr } => check_read(expr, context, rs, st),
        TypedStmt::Print { items } => check_item_reads(items, context, rs, st),
        TypedStmt::IndexAssign { index, value, .. } => {
            let st = check_read(index, context, rs, st);
            check_read(value, context, rs, st)
        },
        TypedStmt::FieldAssign { object, value, .. } => {
            let st = check_read(object, context, rs, st);
            check_read(value, context, rs, st)
        },
        _ => st,
    }
}

/// What [`reduction_shape`] computes.
pub open spec fn reduction_shape_spec(op: ReductionOp, name: Seq<char>) -> Seq<char>
{
    let symbol = crate::ast::reduction_symbol_spec(op);
    if op == ReductionOp::Min || op == ReductionOp::Max {
        symbol + "("@ + name + ", <expr>) or "@ + symbol + "(<expr>, "@ + (name + ")"@)
    } else {
        name + " "@ + symbol + " <expr> or <expr> "@ + symbol + " "@ + name
    }
}

/// How an update of a reduced variable has to be written.
pub fn reduction_shape(op: ReductionOp, name: &str) -> (r: String)
    ensures
        r@ == reduction_shape_spec(op, name@),
{
    let symbol = reduction_symbol(op);
    if op == ReductionOp::Min || op == ReductionOp::Max {
        cat7(symbol, "(", name, ", <expr>) or ", symbol, "(<expr>, ", &cat2(name, ")"))
    } else {
        cat7(name, " ", symbol, " <expr> or <expr> ", symbol, " ", name)
    }
}

/// What [`strip_reduction_stmt`] computes.
pub open spec fn strip_reduction_stmt_spec(
    s: TypedStmtView,
    context: Seq<char>,
    rs: Seq<TypedReductionView>,
    out: Seq<TypedStmtView>,
    st: StateView,
) -> (Seq<TypedStmtView>, StateView)
    decreases s, 0int,
{
    match s {
        TypedStmtView::Reassign { name, expr, .. } => match find_reduction_spec(rs, name, None, 0) {
            Some(op) => if validate_reduction_rhs_spec(name, expr, op) {
                (out.push(TypedStmtView::Discard { expr: reduction_operand_spec(name, expr) }), st)
            } else {
                let message = context + " reduction variable '"@ + name
                    + "' must be updated only as `"@ + reduction_shape_spec(op, name) + "`"@;
                (out, crate::scope::report_spec(st, expr.span, message))
            },
            None => (out.push(s), check_stmt_reads_spec(s, context, rs, st)),
        },
        TypedStmtView::If { cond, then_body, else_body } => {
            let st = check_read_spec(cond, context, rs, st);
            let (then_body, st) = strip_reduction_uses_spec(
                then_body,
                context,
                rs,
                Seq::empty(),
                st,
                0,
            );
            let (else_body, st) = strip_reduction_uses_spec(
                else_body,
                context,
                rs,
                Seq::empty(),
                st,
                0,
            );
            (out.push(TypedStmtView::If { cond: cond, then_body, else_body }), st)
        },
        TypedStmtView::While { cond, body } => {
            let st = check_read_spec(cond, context, rs, st);
            let (body, st) = strip_reduction_uses_spec(body, context, rs, Seq::empty(), st, 0);
            (out.push(TypedStmtView::While { cond: cond, body }), st)
        },
        TypedStmtView::For { var, ty, start, end, body, parallel, reductions } => {
            let st = if any_read_of_reductions_spec(rs, start)
                || any_read_of_reductions_spec(rs, end) {
                flag_read_spec(start.span, context, rs, st)
            } else {
                st
            };
            let (body, st) = strip_reduction_uses_spec(body, context, rs, Seq::empty(), st, 0);
            (
                out.push(TypedStmtView::For {
                        var: var,
                        ty: ty,
                        start: start,
                        end: end,
                        body,
                        parallel: parallel,
                        reductions: (reductions),
                    }),
                st,
            )
        },
        TypedStmtView::ForIter { var, element_ty, collection, collection_ty, consumes, body } => {
            let (body, st) = strip_reduction_uses_spec(body, context, rs, Seq::empty(), st, 0);
            (
                out.push(TypedStmtView::ForIter {
                        var: var,
                        element_ty: element_ty,
                        collection: collection,
                        collection_ty: collection_ty,
                        consumes: consumes,
                        body,
                    }),
                st,
            )
        },
        TypedStmtView::TaskSpawn { name, body, captures } => {
            let (body, st) = strip_reduction_uses_spec(body, context, rs, Seq::empty(), st, 0);
            (
                out.push(TypedStmtView::TaskSpawn { name: name, body, captures: (captures) }),
                st,
            )
        },
        _ => (out.push(s), check_stmt_reads_spec(s, context, rs, st)),
    }
}

/// A statement without its reduction update, of which the value that it takes
/// in is left, after checking that update; or the statement itself after
/// checking that it reads no reduction variable.
pub fn strip_reduction_stmt(
    s: &TypedStmt,
    context: &str,
    rs: &Vec<TypedReduction>,
    out: Vec<TypedStmt>,
    st: State,
) -> (r: (Vec<TypedStmt>, State))
    ensures
        (crate::ir::typed_stmts_view(r.0@), r.1@) == strip_reduction_stmt_spec(
            s@,
            context@,
            crate::ir::typed_reductions_view(rs@),
            crate::ir::typed_stmts_view(out@),
            st@,
        ),
        crate::state::grows(crate::ir::typed_stmts_view(out@), crate::ir::typed_stmts_view(r.0@)),
        crate::state::follows(st@, r.1@),
        crate::state::balanced(st@, r.1@),
        crate::state::same_facts(st@, r.1@),
    decreases s, 0int,
{
    match s {
        TypedStmt::Reassign { name, expr, .. } => match find_reduction(rs, name, None) {
            Some(op) => if validate_reduction_rhs(name, expr, op) {
                (push(out, TypedStmt::Discard { expr: reduction_operand(name, expr) }), st)
            } else {
                let message = cat6(
                    context,
                    " reduction variable '",
                    name,
                    "' must be updated only as `",
                    &reduction_shape(op, name),
                    "`",
                );
                (out, report(st, expr.span, message))
            },
            None => (push(out, s.dup()), check_stmt_reads(s, context, rs, st)),
        },
        TypedStmt::If { cond, then_body, else_body } => {
            let st = check_read(cond, context, rs, st);
            let (then_body, st) = strip_reduction_uses(then_body, context, rs, Vec::new(), st);
            let (else_body, st) = strip_reduction_uses(else_body, context, rs, Vec::new(), st);
            (push(out, TypedStmt::If { cond: cond.dup(), then_body, else_body }), st)
        },
        TypedStmt::While { cond, body } => {
            let st = check_read(cond, context, rs, st);
            let (body, st) = strip_reduction_uses(body, context, rs, Vec::new(), st);
            (push(out, TypedStmt::While { cond: cond.dup(), body }), st)
        },
        TypedStmt::For { var, ty, start, end, body, parallel, reductions } => {
            let st = if any_read_of_reductions(rs, start) || any_read_of_reductions(rs, end) {
                flag_read(start.span, context, rs, st)
            } else {
                st
            };
            let (body, st) = strip_reduction_uses(body, context, rs, Vec::new(), st);
            (
                push(
                    out,
                    TypedStmt::For {
                        var: var.clone(),
                        ty: ty.dup(),
                        start: start.dup(),
                        end: end.dup(),
                        body,
                        parallel: *parallel,
                        reductions: dup_typed_reductions(reductions),
                    },
                ),
                st,
            )
        },
        TypedStmt::ForIter { var, element_ty, collection, collection_ty, consumes, body } => {
            let (body, st) = strip_reduction_uses(body, context, rs, Vec::new(), st);
            (
                push(
                    out,
                    TypedStmt::ForIter {
                        var: var.clone(),
                        element_ty: element_ty.dup(),
                        collection: collection.clone(),
                        collection_ty: collection_ty.dup(),
                        consumes: *consumes,
                        body,
                    },
                ),
                st,
            )
        },
        TypedStmt::TaskSpawn { name, body, captures } => {
            let (body, st) = strip_reduction_uses(body, context, rs, Vec::new(), st);
            (
                push(
                    out,
                    TypedStmt::TaskSpawn {
                        name: name.clone(),
                        body,
                        captures: dup_named_types(captures),
                    },
                ),
                st,
            )
        },
        _ => (push(out, s.dup()), check_stmt_reads(s, context, rs, st)),
    }
}

/// What [`strip_reduction_uses`] computes from position `i` on.
pub open spec fn strip_reduction_uses_spec(
    ss: Seq<TypedStmtView>,
    context: Seq<char>,
    rs: Seq<TypedReductionView>,
    out: Seq<TypedStmtView>,
    st: StateView,
    i: int,
) -> (Seq<TypedStmtView>, StateView)
    decreases ss, ss.len() - i,
{
    if 0 <= i < ss.len() {
        let s = ss[i];
        let (out, st) = strip_reduction_stmt_spec(s, context, rs, out, st);
        strip_reduction_uses_spec(ss, context, rs, out, st, i + 1)
    } else {
        (out, st)
    }
}

/// Adds the statements that are not updates of reduced variables.
pub fn strip_reduction_uses(
    ss: &Vec<TypedStmt>,
    context: &str,
    rs: &Vec<TypedReduction>,
    out: Vec<TypedStmt>,
    st: State,
) -> (r: (Vec<TypedStmt>, State))
    ensures
        (crate::ir::typed_stmts_view(r.0@), r.1@) == strip_reduction_uses_spec(
            crate::ir::typed_stmts_view(ss@),
            context@,
            crate::ir::typed_reductions_view(rs@),
            crate::ir::typed_stmts_view(out@),
            st@,
            0,
        ),
        crate::state::grows(crate::ir::typed_stmts_view(out@), crate::ir::typed_stmts_view(r.0@)),
        crate::state::follows(st@, r.1@),
        crate::state::balanced(st@, r.1@),
        crate::state::same_facts(st@, r.1@),
    decreases ss, ss.len(),
{
    let ghost whole_run = strip_reduction_uses_spec(
        crate::ir::typed_stmts_view(ss@),
        context@,
        crate::ir::typed_reductions_view(rs@),
        crate::ir::typed_stmts_view(out@),
        st@,
        0,
    );
    let ghost start_out = crate::ir::typed_stmts_view(out@);
    let ghost start_st = st@;
    let mut out = out;
    let mut st = st;
    let mut i: usize = 0;
    while i < ss.len()
        invariant
            i <= ss.len(),
            strip_reduction_uses_spec(
                crate::ir::typed_stmts_view(ss@),
                context@,
                crate::ir::typed_reductions_view(rs@),
                crate::ir::typed_stmts_view(out@),
                st@,
                i as int,
            ) == whole_run,
            crate::state::grows(start_out, crate::ir::typed_stmts_view(out@)),
            crate::state::follows(start_st, st@),
            crate::state::balanced(start_st, st@),
            crate::state::same_facts(start_st, st@),
        decreases ss.len() - i,
    {
        let s = &ss[i];
        let next = strip_reduction_stmt(s, context, rs, out, st);
        out = next.0;
        st = next.1;
        i += 1;
    }
    (out, st)
}

/// What [`verify_pure_body_with_reductions`] computes.
#[verifier::opaque]
pub open spec fn verify_pure_body_with_reductions_spec(
    body: Seq<TypedStmtView>,
    cx: ContextView,
    context: Seq<char>,
    rs: Seq<TypedReductionView>,
    st: StateView,
) -> StateView
{
    let (stripped, st) = strip_reduction_uses_spec(body, context, rs, Seq::empty(), st, 0);
    verify_pure_body_spec(stripped, cx, context, st, 0)
}

/// [`verify_pure_body`] for a body that may also update reduction variables.
pub fn verify_pure_body_with_reductions(
    body: &Vec<TypedStmt>,
    cx: &Context,
    context: &str,
    rs: &Vec<TypedReduction>,
    st: State,
) -> (r: State)
    ensures
        r@ == verify_pure_body_with_reductions_spec(
            crate::ir::typed_stmts_view(body@),
            cx@,
            context@,
            crate::ir::typed_reductions_view(rs@),
            st@,
        ),
        crate::state::follows(st@, r@),
        crate::state::balanced(st@, r@),
        crate::state::same_facts(st@, r@),
{
    proof {
        reveal(verify_pure_body_with_reductions_spec);
    }
    let (stripped, st) = strip_reduction_uses(body, context, rs, Vec::new(), st);
    verify_pure_body(&stripped, cx, context, st)
}

/// Whether a body without side effects may call the function: it is none of
/// the built-ins that allocate or change what others see, and it is pure where
/// it is declared.
pub open spec fn may_call(name: Seq<char>, cx: ContextView) -> bool {
    !is_vec_builtin_spec(name) && !is_mutating_builtin_spec(name)
        && (crate::scope::signature_get_spec(
        cx.signatures,
        name,
    ) matches Some(sig) ==> sig.is_pure)
}

/// Whether evaluating an expression does nothing but compute its value.
pub open spec fn computes_only(e: TypedExprView, cx: ContextView) -> bool
    decreases e, 0int,
{
    match e.kind {
        TypedExprKindView::Call { name, args, .. } => may_call(name, cx)
            && exprs_compute_only(args, cx, 0),
        TypedExprKindView::Unary { expr, .. } => computes_only(*expr, cx),
        TypedExprKindView::Binary {
            op,
            left,
            right,
            ..
        } => !(op is Add && is_text_type_spec(left.ty)
            && is_text_type_spec(right.ty))
            && computes_only(*left, cx)
            && computes_only(*right, cx),
        TypedExprKindView::Cast { expr, .. } => computes_only(*expr, cx),
        TypedExprKindView::ArrayLit { elements } => exprs_compute_only(elements, cx, 0),
        TypedExprKindView::Index { array, index, .. } => computes_only(*array, cx)
            && computes_only(*index, cx),
        TypedExprKindView::Len { array, .. } => computes_only(*array, cx),
        TypedExprKindView::CallIndirect { .. } => false,
        TypedExprKindView::Tuple { elements } => exprs_compute_only(elements, cx, 0),
        TypedExprKindView::TupleAccess { tuple, .. } => computes_only(*tuple, cx),
        TypedExprKindView::StructLit { fields, .. } => fields_compute_only(fields, cx, 0),
        TypedExprKindView::FieldAccess { object, .. } => computes_only(*object, cx),
        TypedExprKindView::EnumVariantWithPayload { payload, .. } => computes_only(*payload, cx),
        TypedExprKindView::Match { scrutinee, arms } => computes_only(*scrutinee, cx)
            && arms_compute_only(arms, cx, 0),
        TypedExprKindView::IfExpr { cond, then_value, else_value } => computes_only(*cond, cx)
            && computes_only(*then_value, cx)
            && computes_only(*else_value, cx),
        TypedExprKindView::Block { stmts, tail } => lets_compute_only(stmts, cx, 0)
            && computes_only(*tail, cx),
        _ => true,
    }
}

/// Whether [`computes_only`] holds from position `i` of the list on.
pub open spec fn exprs_compute_only(es: Seq<TypedExprView>, cx: ContextView, i: int) -> bool
    decreases es, es.len() - i,
{
    0 <= i < es.len() ==> computes_only(es[i], cx) && exprs_compute_only(es, cx, i + 1)
}

/// Whether [`computes_only`] holds from position `i` of the list on.
pub open spec fn fields_compute_only(
    fs: Seq<(Seq<char>, TypedExprView)>,
    cx: ContextView,
    i: int,
) -> bool
    decreases fs, fs.len() - i,
{
    0 <= i < fs.len() ==> computes_only(fs[i].1, cx) && fields_compute_only(fs, cx, i + 1)
}

/// Whether [`computes_only`] holds from position `i` of the list on.
pub open spec fn arms_compute_only(arms: Seq<TypedMatchArmView>, cx: ContextView, i: int) -> bool
    decreases arms, arms.len() - i,
{
    0 <= i < arms.len() ==> computes_only(arms[i].body, cx) && arms_compute_only(arms, cx, i + 1)
}

/// Whether [`computes_only`] holds from position `i` of the list on.
pub open spec fn lets_compute_only(ss: Seq<TypedStmtView>, cx: ContextView, i: int) -> bool
    decreases ss, ss.len() - i,
{
    0 <= i < ss.len() ==> !(ss[i] is Print)
        && (ss[i] matches TypedStmtView::Let { expr, .. } ==> computes_only(
        expr,
        cx,
    )) && lets_compute_only(ss, cx, i + 1)
}

/// Whether a statement has no side effect: it prints nothing, aborts with no
/// message, writes and drops nothing, and only computes.
pub open spec fn has_no_effect(s: TypedStmtView, cx: ContextView) -> bool
    decreases s, 0int,
{
    match s {
        TypedStmtView::Print { .. } => false,
        TypedStmtView::Assert { expr, message } => message is None
            && computes_only(expr, cx),
        TypedStmtView::IndexAssign { .. } => false,
        TypedStmtView::FieldAssign { .. } => false,
        TypedStmtView::Reassign { expr, drop_old, .. } => !drop_old
            && computes_only(expr, cx),
        TypedStmtView::Discard { expr } => computes_only(expr, cx),
        TypedStmtView::Let { expr, .. } => computes_only(expr, cx),
        TypedStmtView::Return { expr } => computes_only(expr, cx),
        TypedStmtView::Prove { expr } => computes_only(expr, cx),
        TypedStmtView::If { cond, then_body, else_body } => computes_only(cond, cx)
            && have_no_effect(then_body, cx, 0)
            && have_no_effect(else_body, cx, 0),
        TypedStmtView::While { cond, body } => computes_only(cond, cx)
            && have_no_effect(body, cx, 0),
        TypedStmtView::For { start, end, body, .. } => computes_only(start, cx)
            && computes_only(end, cx)
            && have_no_effect(body, cx, 0),
        TypedStmtView::ForIter { body, consumes, .. } => !consumes
            && have_no_effect(body, cx, 0),
        TypedStmtView::TaskSpawn { body, .. } => have_no_effect(body, cx, 0),
        _ => true,
    }
}

/// Whether [`has_no_effect`] holds from position `i` of the list on.
pub open spec fn have_no_effect(ss: Seq<TypedStmtView>, cx: ContextView, i: int) -> bool
    decreases ss, ss.len() - i,
{
    0 <= i < ss.len() ==> has_no_effect(ss[i], cx) && have_no_effect(ss, cx, i + 1)
}

/// Nothing changed where `fine` holds, and something was reported otherwise.
pub open spec fn reported_unless(fine: bool, before: StateView, after: StateView) -> bool {
    if fine {
        after == before
    } else {
        after.diagnostics.len() > before.diagnostics.len()
    }
}

proof fn expr_reported(e: TypedExprView, cx: ContextView, context: Seq<char>, st: StateView)
    ensures
        reported_unless(computes_only(e, cx), st, pure_expr_spec(e, cx, context, st)),
    decreases e, 0int,
{
    match e.kind {
        TypedExprKindView::Call { name, args, .. } => {
            let message = context + " cannot call '"@ + name
                + "' (heap-allocating Vec builtin is impure)"@;
            let other = non_pure_call_spec(context, name);
            let st = if is_vec_builtin_spec(name) {
                crate::scope::report_spec(st, e.span, message)
            } else if may_call(name, cx) {
                st
            } else {
                crate::scope::report_spec(st, e.span, other)
            };
            exprs_reported(args, cx, context, st, 0);
        },
        TypedExprKindView::Unary { expr, .. } => {
            expr_reported(*expr, cx, context, st);
        },
        TypedExprKindView::Binary { op, left, right, .. } => {
            let message = context + " cannot use `+` on strings (heap allocation is impure)"@;
            let st = if op is Add && is_text_type_spec(left.ty) && is_text_type_spec(right.ty) {
                crate::scope::report_spec(st, e.span, message)
            } else {
                st
            };
            expr_reported(*left, cx, context, st);
            expr_reported(*right, cx, context, pure_expr_spec(*left, cx, context, st));
        },
        TypedExprKindView::Cast { expr, .. } => {
            expr_reported(*expr, cx, context, st);
        },
        TypedExprKindView::ArrayLit { elements } => {
            exprs_reported(elements, cx, context, st, 0);
        },
        TypedExprKindView::Index { array, index, .. } => {
            expr_reported(*array, cx, context, st);
            let st = pure_expr_spec(*array, cx, context, st);
            expr_reported(*index, cx, context, st);
        },
        TypedExprKindView::Len { array, .. } => {
            expr_reported(*array, cx, context, st);
        },
        TypedExprKindView::CallIndirect { callee, args } => {
            let message = context
                + " cannot use indirect calls (fn-ptr) — the purity gate sees only direct calls"@;
            let st = crate::scope::report_spec(st, e.span, message);
            expr_reported(*callee, cx, context, st);
            exprs_reported(args, cx, context, pure_expr_spec(*callee, cx, context, st), 0);
        },
        TypedExprKindView::Tuple { elements } => {
            exprs_reported(elements, cx, context, st, 0);
        },
        TypedExprKindView::TupleAccess { tuple, .. } => {
            expr_reported(*tuple, cx, context, st);
        },
        TypedExprKindView::StructLit { fields, .. } => {
            fields_reported(fields, cx, context, st, 0);
        },
        TypedExprKindView::FieldAccess { object, .. } => {
            expr_reported(*object, cx, context, st);
        },
        TypedExprKindView::EnumVariantWithPayload { payload, .. } => {
            expr_reported(*payload, cx, context, st);
        },
        TypedExprKindView::Match { scrutinee, arms } => {
            expr_reported(*scrutinee, cx, context, st);
            let st = pure_expr_spec(*scrutinee, cx, context, st);
            arms_reported(arms, cx, context, st, 0);
        },
        TypedExprKindView::IfExpr { cond, then_value, else_value } => {
            expr_reported(*cond, cx, context, st);
            let st = pure_expr_spec(*cond, cx, context, st);
            expr_reported(*then_value, cx, context, st);
            let st = pure_expr_spec(*then_value, cx, context, st);
            expr_reported(*else_value, cx, context, st);
        },
        TypedExprKindView::Block { stmts, tail } => {
            lets_reported(stmts, cx, context, st, 0);
            let st = pure_lets_spec(stmts, cx, context, st, 0);
            expr_reported(*tail, cx, context, st);
        },
        _ => {},
    }
}

proof fn exprs_reported(
    es: Seq<TypedExprView>,
    cx: ContextView,
    context: Seq<char>,
    st: StateView,
    i: int,
)
    requires
        0 <= i <= es.len(),
    ensures
        reported_unless(exprs_compute_only(es, cx, i), st, pure_exprs_spec(es, cx, context, st, i)),
    decreases es, es.len() - i,
{
    if i < es.len() {
        expr_reported(es[i], cx, context, st);
        exprs_reported(es, cx, context, pure_expr_spec(es[i], cx, context, st), i + 1);
    }
}

proof fn fields_reported(
    fs: Seq<(Seq<char>, TypedExprView)>,
    cx: ContextView,
    context: Seq<char>,
    st: StateView,
    i: int,
)
    requires
        0 <= i <= fs.len(),
    ensures
        reported_unless(
            fields_compute_only(fs, cx, i),
            st,
            pure_fields_spec(fs, cx, context, st, i),
        ),
    decreases fs, fs.len() - i,
{
    if i < fs.len() {
        expr_reported(fs[i].1, cx, context, st);
        fields_reported(fs, cx, context, pure_expr_spec(fs[i].1, cx, context, st), i + 1);
    }
}

proof fn arms_reported(
    arms: Seq<TypedMatchArmView>,
    cx: ContextView,
    context: Seq<char>,
    st: StateView,
    i: int,
)
    requires
        0 <= i <= arms.len(),
    ensures
        reported_unless(
            arms_compute_only(arms, cx, i),
            st,
            pure_arms_spec(arms, cx, context, st, i),
        ),
    decreases arms, arms.len() - i,
{
    if i < arms.len() {
        expr_reported(arms[i].body, cx, context, st);
        arms_reported(arms, cx, context, pure_expr_spec(arms[i].body, cx, context, st), i + 1);
    }
}

proof fn lets_reported(
    ss: Seq<TypedStmtView>,
    cx: ContextView,
    context: Seq<char>,
    st: StateView,
    i: int,
)
    requires
        0 <= i <= ss.len(),
    ensures
        reported_unless(lets_compute_only(ss, cx, i), st, pure_lets_spec(ss, cx, context, st, i)),
    decreases ss, ss.len() - i,
{
    if i < ss.len() {
        match ss[i] {
            TypedStmtView::Let { expr, .. } => {
                expr_reported(expr, cx, context, st);
                lets_reported(ss, cx, context, pure_expr_spec(expr, cx, context, st), i + 1);
            },
            TypedStmtView::Print { items } => {
                lets_reported(ss, cx, context, report_print_spec(items, context, st), i + 1);
            },
            _ => {
                lets_reported(ss, cx, context, st, i + 1);
            },
        }
    }
}

proof fn stmt_reported(s: TypedStmtView, cx: ContextView, context: Seq<char>, st: StateView)
    ensures
        reported_unless(has_no_effect(s, cx), st, pure_stmt_spec(s, cx, context, st)),
    decreases s, 0int,
{
    match s {
        TypedStmtView::Assert { expr, message } => {
            expr_reported(expr, cx, context, st);
        },
        TypedStmtView::Reassign { expr, drop_old, .. } => {
            expr_reported(expr, cx, context, st);
        },
        TypedStmtView::Discard { expr } => {
            expr_reported(expr, cx, context, st);
        },
        TypedStmtView::Let { expr, .. } => {
            expr_reported(expr, cx, context, st);
        },
        TypedStmtView::Return { expr } => {
            expr_reported(expr, cx, context, st);
        },
        TypedStmtView::Prove { expr } => {
            expr_reported(expr, cx, context, st);
        },
        TypedStmtView::If { cond, then_body, else_body } => {
            expr_reported(cond, cx, context, st);
            let st = pure_expr_spec(cond, cx, context, st);
            rest_reported(then_body, cx, context, st, 0);
            let st = verify_pure_body_spec(then_body, cx, context, st, 0);
            rest_reported(else_body, cx, context, st, 0);
        },
        TypedStmtView::While { cond, body } => {
            expr_reported(cond, cx, context, st);
            let st = pure_expr_spec(cond, cx, context, st);
            rest_reported(body, cx, context, st, 0);
        },
        TypedStmtView::For { start, end, body, .. } => {
            expr_reported(start, cx, context, st);
            let st = pure_expr_spec(start, cx, context, st);
            expr_reported(end, cx, context, st);
            let st = pure_expr_spec(end, cx, context, st);
            rest_reported(body, cx, context, st, 0);
        },
        TypedStmtView::ForIter { body, consumes, collection, .. } => {
            let message = context + " cannot consume '"@ + collection + "' via `for x in "@
                + context + "` (move-and-drop has observable effects)"@;
            let st = if consumes { crate::scope::report_spec(st, crate::rewrite::no_span_spec(), message) } else { st };
            rest_reported(body, cx, context, st, 0);
        },
        TypedStmtView::TaskSpawn { body, .. } => {
            rest_reported(body, cx, context, st, 0);
        },
        _ => {},
    }
}

proof fn rest_reported(
    ss: Seq<TypedStmtView>,
    cx: ContextView,
    context: Seq<char>,
    st: StateView,
    i: int,
)
    requires
        0 <= i <= ss.len(),
    ensures
        reported_unless(
            have_no_effect(ss, cx, i),
            st,
            verify_pure_body_spec(ss, cx, context, st, i),
        ),
    decreases ss, ss.len() - i,
{
    if i < ss.len() {
        stmt_reported(ss[i], cx, context, st);
        rest_reported(ss, cx, context, pure_stmt_spec(ss[i], cx, context, st), i + 1);
    }
}

/// A body passes as pure exactly where it has no side effect; otherwise
/// something is reported.
pub proof fn impure_bodies_are_reported(
    ss: Seq<TypedStmtView>,
    cx: ContextView,
    context: Seq<char>,
    st: StateView,
)
    ensures
        reported_unless(
            have_no_effect(ss, cx, 0),
            st,
            verify_pure_body_spec(ss, cx, context, st, 0),
        ),
{
    rest_reported(ss, cx, context, st, 0);
}

/// Whether a statement spawns the task.
pub open spec fn spawns(s: TypedStmtView, task: Seq<char>) -> bool {
    s matches TypedStmtView::TaskSpawn { name, .. } && name == task
}

/// Whether a statement joins the task.
pub open spec fn joins(s: TypedStmtView, task: Seq<char>) -> bool {
    s matches TypedStmtView::TaskJoin { name } && name == task
}

/// Whether one of the first `n` statements of a block spawns the task.
pub open spec fn spawned_before(ss: Seq<TypedStmtView>, task: Seq<char>, n: int) -> bool {
    exists|i: int| 0 <= i < n && i < ss.len() && spawns(#[trigger] ss[i], task)
}

/// Whether one of the first `n` statements of a block joins the task.
pub open spec fn joined_before(ss: Seq<TypedStmtView>, task: Seq<char>, n: int) -> bool {
    exists|i: int| 0 <= i < n && i < ss.len() && joins(#[trigger] ss[i], task)
}

/// Whether the statements of a block from position `i` on spawn no task again,
/// join only tasks that were spawned before them in the block, join none
/// again, and use tasks well in their own bodies.
pub open spec fn tasks_used_well(ss: Seq<TypedStmtView>, i: int) -> bool
    decreases ss, ss.len() - i,
{
    0 <= i < ss.len() ==> (match ss[i] {
        TypedStmtView::TaskSpawn { name, body, .. } => !spawned_before(ss, name, i)
            && tasks_joined_once(body),
        TypedStmtView::TaskJoin { name } => spawned_before(
            ss,
            name,
            i,
        ) && !joined_before(ss, name, i),
        TypedStmtView::If { then_body, else_body, .. } => tasks_joined_once(then_body)
            && tasks_joined_once(else_body),
        TypedStmtView::While { body, .. } => tasks_joined_once(body),
        TypedStmtView::For { body, .. } => tasks_joined_once(body),
        TypedStmtView::ForIter { body, .. } => tasks_joined_once(body),
        _ => true,
    }) && tasks_used_well(ss, i + 1)
}

/// Whether each task of a block, and of the blocks in it, is spawned once and
/// joined once, in its own block and behind its spawn.
pub open spec fn tasks_joined_once(ss: Seq<TypedStmtView>) -> bool
    decreases ss, ss.len() + 1,
{
    tasks_used_well(ss, 0) && forall|task: Seq<char>| #[trigger]
        spawned_before(ss, task, ss.len() as int) ==> joined_before(ss, task, ss.len() as int)
}

/// The names in a list are the tasks that the first `n` statements spawn.
spec fn lists_spawned(names: Seq<Seq<char>>, ss: Seq<TypedStmtView>, n: int) -> bool {
    forall|task: Seq<char>| #[trigger] names.contains(task) <==> spawned_before(ss, task, n)
}

/// The names in a list are the tasks that the first `n` statements join.
spec fn lists_joined(names: Seq<Seq<char>>, ss: Seq<TypedStmtView>, n: int) -> bool {
    forall|task: Seq<char>| #[trigger] names.contains(task) <==> joined_before(ss, task, n)
}

proof fn named_once_more(names: Seq<Seq<char>>, name: Seq<char>)
    ensures
        forall|n: Seq<char>| #[trigger]
            add_name_spec(names, name).contains(n) <==> names.contains(n) || n == name,
{
    if !names.contains(name) {
        assert forall|n: Seq<char>| #[trigger]
            names.push(name).contains(n) <==> names.contains(n) || n == name by {
            if names.contains(n) {
                let j = choose|j: int| 0 <= j < names.len() && names[j] == n;
                assert(names.push(name)[j] == n);
            }
            if n == name {
                assert(names.push(name)[names.len() as int] == n);
            }
        }
    }
}

proof fn one_step_of_tasks(
    ss: Seq<TypedStmtView>,
    spawned: Seq<Seq<char>>,
    joined: Seq<Seq<char>>,
    i: int,
)
    requires
        0 <= i < ss.len(),
        lists_spawned(spawned, ss, i),
        lists_joined(joined, ss, i),
    ensures
        ss[i] matches TypedStmtView::TaskSpawn { name, .. } ==> lists_spawned(
            add_name_spec(spawned, name),
            ss,
            i + 1,
        ),
        !(ss[i] is TaskSpawn) ==> lists_spawned(spawned, ss, i + 1),
        ss[i] matches TypedStmtView::TaskJoin { name } ==> lists_joined(
            add_name_spec(joined, name),
            ss,
            i + 1,
        ),
        !(ss[i] is TaskJoin) ==> lists_joined(joined, ss, i + 1),
{
    assert forall|task: Seq<char>| #[trigger]
        spawned_before(ss, task, i + 1) <==> spawned_before(ss, task, i) || spawns(ss[i], task) by {
        if spawned_before(ss, task, i) {
            let j = choose|j: int| 0 <= j < i && j < ss.len() && spawns(#[trigger] ss[j], task);
            assert(spawns(ss[j], task));
        }
    }
    assert forall|task: Seq<char>| #[trigger]
        joined_before(ss, task, i + 1) <==> joined_before(ss, task, i) || joins(ss[i], task) by {
        if joined_before(ss, task, i) {
            let j = choose|j: int| 0 <= j < i && j < ss.len() && joins(#[trigger] ss[j], task);
            assert(joins(ss[j], task));
        }
    }
    match ss[i] {
        TypedStmtView::TaskSpawn { name, .. } => {
            named_once_more(spawned, name);
        },
        TypedStmtView::TaskJoin { name } => {
            named_once_more(joined, name);
        },
        _ => {},
    }
}

proof fn task_uses_reported(
    ss: Seq<TypedStmtView>,
    spawned: Seq<Seq<char>>,
    joined: Seq<Seq<char>>,
    st: StateView,
    i: int,
)
    requires
        0 <= i <= ss.len(),
        lists_spawned(spawned, ss, i),
        lists_joined(joined, ss, i),
    ensures
        ({
            let r = task_affine_stmts_spec(ss, spawned, joined, st, i);
            &&& lists_spawned(r.0, ss, ss.len() as int)
            &&& lists_joined(r.1, ss, ss.len() as int)
            &&& reported_unless(tasks_used_well(ss, i), st, r.2)
        }),
    decreases ss, ss.len() - i,
{
    if i < ss.len() {
        one_step_of_tasks(ss, spawned, joined, i);
        let r = task_affine_stmt_spec(ss[i], spawned, joined, st);
        match ss[i] {
            TypedStmtView::TaskSpawn { name, body, .. } => {
                assert(spawned.contains(name) <==> spawned_before(ss, name, i));
                let message = "task '"@ + name + "' was spawned twice in the same block"@;
                let st = if spawned.contains(name) {
                    crate::scope::report_spec(st, crate::rewrite::no_span_spec(), message)
                } else {
                    st
                };
                joined_tasks_pass(body, st);
            },
            TypedStmtView::TaskJoin { name } => {
                assert(spawned.contains(name) <==> spawned_before(ss, name, i));
                assert(joined.contains(name) <==> joined_before(ss, name, i));
            },
            TypedStmtView::If { then_body, else_body, .. } => {
                joined_tasks_pass(then_body, st);
                joined_tasks_pass(else_body, task_affine_spec(then_body, st));
            },
            TypedStmtView::While { body, .. } => {
                joined_tasks_pass(body, st);
            },
            TypedStmtView::For { body, .. } => {
                joined_tasks_pass(body, st);
            },
            TypedStmtView::ForIter { body, .. } => {
                joined_tasks_pass(body, st);
            },
            _ => {},
        }
        task_uses_reported(ss, r.0, r.1, r.2, i + 1);
    }
}

proof fn unjoined_reported(spawned: Seq<Seq<char>>, joined: Seq<Seq<char>>, st: StateView, i: int)
    requires
        0 <= i <= spawned.len(),
    ensures
        reported_unless(
            forall|j: int| i <= j < spawned.len() ==> joined.contains(#[trigger] spawned[j]),
            st,
            report_unjoined_spec(spawned, joined, st, i),
        ),
    decreases spawned.len() - i,
{
    if i < spawned.len() {
        let name = spawned[i];
        let message = "task '"@ + name + "' was never consumed by `join "@ + name
            + "`; each `task` handle must be joined exactly once"@;
        let next = if joined.contains(name) {
            st
        } else {
            crate::scope::report_spec(st, crate::rewrite::no_span_spec(), message)
        };
        unjoined_reported(spawned, joined, next, i + 1);
    }
}

/// A body passes exactly where each task in it is spawned once and joined
/// once, in its own block and behind its spawn; otherwise something is
/// reported.
pub proof fn joined_tasks_pass(ss: Seq<TypedStmtView>, st: StateView)
    ensures
        reported_unless(tasks_joined_once(ss), st, task_affine_spec(ss, st)),
    decreases ss, ss.len() + 1,
{
    let none = Seq::<Seq<char>>::empty();
    task_uses_reported(ss, none, none, st, 0);
    let r = task_affine_stmts_spec(ss, none, none, st, 0);
    let n = ss.len() as int;
    unjoined_reported(r.0, r.1, r.2, 0);
    let all = forall|j: int| 0 <= j < r.0.len() ==> r.1.contains(#[trigger] r.0[j]);
    if all {
        assert forall|task: Seq<char>| #[trigger] spawned_before(ss, task, n) implies joined_before(
            ss,
            task,
            n,
        ) by {
            assert(r.0.contains(task));
            let j = choose|j: int| 0 <= j < r.0.len() && r.0[j] == task;
            assert(r.1.contains(r.0[j]));
        }
    } else {
        let j = choose|j: int| 0 <= j < r.0.len() && !r.1.contains(#[trigger] r.0[j]);
        let task = r.0[j];
        assert(r.0.contains(task));
        assert(spawned_before(ss, task, n));
        assert(!joined_before(ss, task, n));
    }
}

/// What is known of a binding once the values of the given names are
/// forgotten.
pub open spec fn without_value(
    info: VarInfoView,
    name: Seq<char>,
    names: Seq<Seq<char>>,
) -> VarInfoView {
    if names.contains(name) {
        VarInfoView { constant: None, ..info }
    } else {
        info
    }
}

proof fn cleared_scope(
    scope: Seq<(Seq<char>, VarInfoView)>,
    names: Seq<Seq<char>>,
    out: Seq<(Seq<char>, VarInfoView)>,
    k: Seq<char>,
    i: int,
)
    requires
        0 <= i <= scope.len(),
    ensures
        crate::scope::var_info_get_spec(
            clear_in_scope_spec(scope, names, out, i),
            k,
        ) == match crate::scope::var_info_get_spec(
            out,
            k,
        ) {
            Some(x) => Some(x),
            None => match crate::scope::var_info_find_spec(scope, k, None, i) {
                Some(x) => Some(without_value(x, k, names)),
                None => None,
            },
        },
    decreases scope.len() - i,
{
    reveal_with_fuel(crate::scope::var_info_find_spec, 2);
    if i < scope.len() {
        let one = (scope[i].0, without_value(scope[i].1, scope[i].0, names));
        crate::scope::found_behind(out, one, k, 0);
        cleared_scope(scope, names, out.push(one), k, i + 1);
    }
}

/// Forgetting the values of names changes just that: each of them has no known
/// value any more, and every other binding is what it was.
pub proof fn forgotten_values_are_gone(env: EnvView, names: Seq<Seq<char>>, k: Seq<char>)
    ensures
        crate::scope::lookup_spec(
            clear_constants_for_spec(env, names),
            k,
        ) == match crate::scope::lookup_spec(env, k) {
            Some(info) => Some(without_value(info, k, names)),
            None => None,
        },
{
    reveal(clear_constants_for_spec);
    let n = env.scopes.len() as int;
    let after = clear_constants_for_spec(env, names);
    assert forall|j: int| 0 <= j < n implies crate::scope::var_info_has_spec(
        #[trigger] env.scopes[j],
        k,
    )
        == crate::scope::var_info_has_spec(after.scopes[j], k) by {
        cleared_scope(env.scopes[j], names, Seq::empty(), k, 0);
    }
    crate::scope::scope_index_bound(env.scopes, k, n);
    crate::scope::same_scope_index(env.scopes, after.scopes, k, n);
    let at = crate::scope::scope_index_spec(env.scopes, k, n);
    if at >= 1 {
        cleared_scope(env.scopes[at - 1], names, Seq::empty(), k, 0);
    }
}

/// Whether an expression hands the variable out by `mut ref`.
pub open spec fn lends_mutably(e: ExprView, name: Seq<char>) -> bool
    decreases e, 0int,
{
    match e.kind {
        ExprKindView::RefMut { inner } => crate::rewrite::unwrap_to_var_spec(*inner) == Some(name)
            || lends_mutably(*inner, name),
        ExprKindView::Ref { inner } => lends_mutably(*inner, name),
        ExprKindView::Call { args, .. } => exprs_lend_mutably(args, name, 0),
        ExprKindView::MethodCall { receiver, args, .. } => lends_mutably(*receiver, name)
            || exprs_lend_mutably(args, name, 0),
        ExprKindView::Binary { left, right, .. } => lends_mutably(*left, name)
            || lends_mutably(*right, name),
        ExprKindView::Unary { expr, .. } => lends_mutably(*expr, name),
        ExprKindView::Index { array, index } => lends_mutably(*array, name)
            || lends_mutably(*index, name),
        ExprKindView::Len { array } => lends_mutably(*array, name),
        ExprKindView::Cast { expr, .. } => lends_mutably(*expr, name),
        ExprKindView::ArrayLit { elements } => exprs_lend_mutably(elements, name, 0),
        ExprKindView::Tuple(elements) => exprs_lend_mutably(elements, name, 0),
        ExprKindView::TupleAccess { tuple, .. } => lends_mutably(*tuple, name),
        ExprKindView::StructLit { fields, .. } => fields_lend_mutably(fields, name, 0),
        ExprKindView::FieldAccess { object, .. } => lends_mutably(*object, name),
        ExprKindView::Match { scrutinee, arms } => lends_mutably(*scrutinee, name)
            || arms_lend_mutably(arms, name, 0),
        ExprKindView::IfExpr { cond, then_value, else_value } => lends_mutably(*cond, name)
            || lends_mutably(*then_value, name)
            || lends_mutably(*else_value, name),
        ExprKindView::Block { tail, .. } => lends_mutably(*tail, name),
        ExprKindView::Try { inner } => lends_mutably(*inner, name),
        _ => false,
    }
}

/// Whether [`lends_mutably`] holds somewhere from position `i` of the list on.
pub open spec fn exprs_lend_mutably(es: Seq<ExprView>, name: Seq<char>, i: int) -> bool
    decreases es, es.len() - i,
{
    0 <= i < es.len() && (lends_mutably(es[i], name) || exprs_lend_mutably(es, name, i + 1))
}

/// Whether [`lends_mutably`] holds somewhere from position `i` of the list on.
pub open spec fn fields_lend_mutably(
    fs: Seq<(Seq<char>, ExprView)>,
    name: Seq<char>,
    i: int,
) -> bool
    decreases fs, fs.len() - i,
{
    0 <= i < fs.len() && (lends_mutably(fs[i].1, name) || fields_lend_mutably(fs, name, i + 1))
}

/// Whether [`lends_mutably`] holds somewhere from position `i` of the list on.
pub open spec fn arms_lend_mutably(arms: Seq<MatchArmView>, name: Seq<char>, i: int) -> bool
    decreases arms, arms.len() - i,
{
    0 <= i < arms.len()
        && (lends_mutably(arms[i].body, name) || arms_lend_mutably(arms, name, i + 1))
}

/// Whether an item of a `print` from position `i` on lends the variable.
pub open spec fn items_lend_mutably(items: Seq<PrintItemView>, name: Seq<char>, i: int) -> bool
    decreases items.len() - i,
{
    0 <= i < items.len() && ((items[i] matches PrintItemView::Expr(e) && lends_mutably(e, name))
        || items_lend_mutably(items, name, i + 1))
}

/// Whether a statement may change the variable: it assigns to it, to an element
/// or to a field of it, or lends it by `mut ref`, itself or in a body.
pub open spec fn may_change(s: StmtView, name: Seq<char>) -> bool
    decreases s, 0int,
{
    match s {
        StmtView::Assign { name: target, expr, .. } => target == name
            || lends_mutably(expr, name),
        StmtView::IndexAssign { name: target, index, value, .. } => target == name
            || lends_mutably(index, name)
            || lends_mutably(value, name),
        StmtView::FieldAssign {
            object,
            value,
            ..
        } => crate::rewrite::unwrap_to_var_spec(object) == Some(name)
            || lends_mutably(object, name)
            || lends_mutably(value, name),
        StmtView::Let { expr, .. } => lends_mutably(expr, name),
        StmtView::Return { expr, .. } => lends_mutably(expr, name),
        StmtView::Assert { expr, .. } => lends_mutably(expr, name),
        StmtView::Prove { expr, .. } => lends_mutably(expr, name),
        StmtView::Print { items, .. } => items_lend_mutably(items, name, 0),
        StmtView::If { cond, then_body, else_body, .. } => lends_mutably(cond, name)
            || some_may_change(then_body, name, 0)
            || some_may_change(else_body, name, 0),
        StmtView::While { cond, invariants, body, .. } => lends_mutably(cond, name)
            || exprs_lend_mutably(invariants, name, 0)
            || some_may_change(body, name, 0),
        StmtView::For { start, end, invariants, body, .. } => lends_mutably(start, name)
            || lends_mutably(end, name)
            || exprs_lend_mutably(invariants, name, 0)
            || some_may_change(body, name, 0),
        StmtView::ForIter { body, .. } => some_may_change(body, name, 0),
        _ => false,
    }
}

/// Whether a statement from position `i` on may change the variable.
pub open spec fn some_may_change(ss: Seq<StmtView>, name: Seq<char>, i: int) -> bool
    decreases ss, ss.len() - i,
{
    0 <= i < ss.len() && (may_change(ss[i], name) || some_may_change(ss, name, i + 1))
}

proof fn lent_in_expr(e: ExprView, out: Seq<Seq<char>>, name: Seq<char>)
    ensures
        walk_branch_mutations_in_expr_spec(e, out).contains(name) <==> out.contains(name)
            || lends_mutably(e, name),
    decreases e, 0int,
{
    match e.kind {
        ExprKindView::RefMut { inner } => {
            if let Some(target) = crate::rewrite::unwrap_to_var_spec(*inner) {
                named_once_more(out, target);
                assert(
                    add_name_spec(out, target).contains(name) <==> out.contains(name)
                        || name == target
                );
            }
            let out = add_target_spec(out, *inner);
            lent_in_expr(*inner, out, name);
        },
        ExprKindView::Ref { inner } => {
            lent_in_expr(*inner, out, name);
        },
        ExprKindView::Call { args, .. } => {
            lent_in_exprs(args, out, name, 0);
        },
        ExprKindView::MethodCall { receiver, args, .. } => {
            lent_in_expr(*receiver, out, name);
            let out = walk_branch_mutations_in_expr_spec(*receiver, out);
            lent_in_exprs(args, out, name, 0);
        },
        ExprKindView::Binary { left, right, .. } => {
            lent_in_expr(*left, out, name);
            let out = walk_branch_mutations_in_expr_spec(*left, out);
            lent_in_expr(*right, out, name);
        },
        ExprKindView::Unary { expr, .. } => {
            lent_in_expr(*expr, out, name);
        },
        ExprKindView::Index { array, index } => {
            lent_in_expr(*array, out, name);
            let out = walk_branch_mutations_in_expr_spec(*array, out);
            lent_in_expr(*index, out, name);
        },
        ExprKindView::Len { array } => {
            lent_in_expr(*array, out, name);
        },
        ExprKindView::Cast { expr, .. } => {
            lent_in_expr(*expr, out, name);
        },
        ExprKindView::ArrayLit { elements } => {
            lent_in_exprs(elements, out, name, 0);
        },
        ExprKindView::Tuple(elements) => {
            lent_in_exprs(elements, out, name, 0);
        },
        ExprKindView::TupleAccess { tuple, .. } => {
            lent_in_expr(*tuple, out, name);
        },
        ExprKindView::StructLit { fields, .. } => {
            lent_in_fields(fields, out, name, 0);
        },
        ExprKindView::FieldAccess { object, .. } => {
            lent_in_expr(*object, out, name);
        },
        ExprKindView::Match { scrutinee, arms } => {
            lent_in_expr(*scrutinee, out, name);
            let out = walk_branch_mutations_in_expr_spec(*scrutinee, out);
            lent_in_arms(arms, out, name, 0);
        },
        ExprKindView::IfExpr { cond, then_value, else_value } => {
            lent_in_expr(*cond, out, name);
            let out = walk_branch_mutations_in_expr_spec(*cond, out);
            lent_in_expr(*then_value, out, name);
            let out = walk_branch_mutations_in_expr_spec(*then_value, out);
            lent_in_expr(*else_value, out, name);
        },
        ExprKindView::Block { tail, .. } => {
            lent_in_expr(*tail, out, name);
        },
        ExprKindView::Try { inner } => {
            lent_in_expr(*inner, out, name);
        },
        _ => {},
    }
}

proof fn lent_in_exprs(es: Seq<ExprView>, out: Seq<Seq<char>>, name: Seq<char>, i: int)
    requires
        0 <= i <= es.len(),
    ensures
        mutations_in_exprs_spec(es, out, i).contains(name) <==> out.contains(name)
            || exprs_lend_mutably(es, name, i),
    decreases es, es.len() - i,
{
    if i < es.len() {
        lent_in_expr(es[i], out, name);
        lent_in_exprs(es, walk_branch_mutations_in_expr_spec(es[i], out), name, i + 1);
    }
}

proof fn lent_in_fields(
    fs: Seq<(Seq<char>, ExprView)>,
    out: Seq<Seq<char>>,
    name: Seq<char>,
    i: int,
)
    requires
        0 <= i <= fs.len(),
    ensures
        mutations_in_fields_spec(fs, out, i).contains(name) <==> out.contains(name)
            || fields_lend_mutably(fs, name, i),
    decreases fs, fs.len() - i,
{
    if i < fs.len() {
        lent_in_expr(fs[i].1, out, name);
        lent_in_fields(fs, walk_branch_mutations_in_expr_spec(fs[i].1, out), name, i + 1);
    }
}

proof fn lent_in_arms(arms: Seq<MatchArmView>, out: Seq<Seq<char>>, name: Seq<char>, i: int)
    requires
        0 <= i <= arms.len(),
    ensures
        mutations_in_arms_spec(arms, out, i).contains(name) <==> out.contains(name)
            || arms_lend_mutably(arms, name, i),
    decreases arms, arms.len() - i,
{
    if i < arms.len() {
        lent_in_expr(arms[i].body, out, name);
        lent_in_arms(arms, walk_branch_mutations_in_expr_spec(arms[i].body, out), name, i + 1);
    }
}

proof fn lent_in_items(items: Seq<PrintItemView>, out: Seq<Seq<char>>, name: Seq<char>, i: int)
    requires
        0 <= i <= items.len(),
    ensures
        mutations_in_items_spec(items, out, i).contains(name) <==> out.contains(name)
            || items_lend_mutably(items, name, i),
    decreases items.len() - i,
{
    if i < items.len() {
        match items[i] {
            PrintItemView::Expr(e) => {
                lent_in_expr(e, out, name);
                lent_in_items(items, walk_branch_mutations_in_expr_spec(e, out), name, i + 1);
            },
            _ => {
                lent_in_items(items, out, name, i + 1);
            },
        }
    }
}

proof fn changed_in_stmt(s: StmtView, out: Seq<Seq<char>>, name: Seq<char>)
    ensures
        walk_branch_mutations_spec(s, out).contains(name) <==> out.contains(name)
            || may_change(s, name),
    decreases s, 0int,
{
    match s {
        StmtView::Assign { name: target, expr, .. } => {
            named_once_more(out, target);
            assert(
                add_name_spec(out, target).contains(name) <==> out.contains(name) || name == target
            );
            let out = add_name_spec(out, target);
            lent_in_expr(expr, out, name);
        },
        StmtView::IndexAssign { name: target, index, value, .. } => {
            named_once_more(out, target);
            assert(
                add_name_spec(out, target).contains(name) <==> out.contains(name) || name == target
            );
            let out = add_name_spec(out, target);
            lent_in_expr(index, out, name);
            let out = walk_branch_mutations_in_expr_spec(index, out);
            lent_in_expr(value, out, name);
        },
        StmtView::FieldAssign { object, value, .. } => {
            if let Some(target) = crate::rewrite::unwrap_to_var_spec(object) {
                named_once_more(out, target);
                assert(
                    add_name_spec(out, target).contains(name) <==> out.contains(name)
                        || name == target
                );
            }
            let out = add_target_spec(out, object);
            lent_in_expr(object, out, name);
            let out = walk_branch_mutations_in_expr_spec(object, out);
            lent_in_expr(value, out, name);
        },
        StmtView::Let { expr, .. } => {
            lent_in_expr(expr, out, name);
        },
        StmtView::Return { expr, .. } => {
            lent_in_expr(expr, out, name);
        },
        StmtView::Assert { expr, .. } => {
            lent_in_expr(expr, out, name);
        },
        StmtView::Prove { expr, .. } => {
            lent_in_expr(expr, out, name);
        },
        StmtView::Print { items, .. } => {
            lent_in_items(items, out, name, 0);
        },
        StmtView::If { cond, then_body, else_body, .. } => {
            lent_in_expr(cond, out, name);
            let out = walk_branch_mutations_in_expr_spec(cond, out);
            changed_in_rest(then_body, out, name, 0);
            let out = branch_mutations_spec(then_body, out, 0);
            changed_in_rest(else_body, out, name, 0);
        },
        StmtView::While { cond, invariants, body, .. } => {
            lent_in_expr(cond, out, name);
            let out = walk_branch_mutations_in_expr_spec(cond, out);
            lent_in_exprs(invariants, out, name, 0);
            let out = mutations_in_exprs_spec(invariants, out, 0);
            changed_in_rest(body, out, name, 0);
        },
        StmtView::For { start, end, invariants, body, .. } => {
            lent_in_expr(start, out, name);
            let out = walk_branch_mutations_in_expr_spec(start, out);
            lent_in_expr(end, out, name);
            let out = walk_branch_mutations_in_expr_spec(end, out);
            lent_in_exprs(invariants, out, name, 0);
            let out = mutations_in_exprs_spec(invariants, out, 0);
            changed_in_rest(body, out, name, 0);
        },
        StmtView::ForIter { body, .. } => {
            changed_in_rest(body, out, name, 0);
        },
        _ => {},
    }
}

proof fn changed_in_rest(ss: Seq<StmtView>, out: Seq<Seq<char>>, name: Seq<char>, i: int)
    requires
        0 <= i <= ss.len(),
    ensures
        branch_mutations_spec(ss, out, i).contains(name) <==> out.contains(name) || some_may_change(
            ss,
            name,
            i,
        ),
    decreases ss, ss.len() - i,
{
    if i < ss.len() {
        changed_in_stmt(ss[i], out, name);
        changed_in_rest(ss, walk_branch_mutations_spec(ss[i], out), name, i + 1);
    }
}

/// The names collected from a body are exactly those of the variables that it
/// may change.
pub proof fn collected_names_may_change(ss: Seq<StmtView>, name: Seq<char>)
    ensures
        collect_branch_mutations_spec(ss).contains(name) <==> some_may_change(ss, name, 0),
{
    reveal(collect_branch_mutations_spec);
    changed_in_rest(ss, Seq::empty(), name, 0);
}

/// Whether leaving its scope has to drop a binding: it owns its value, which
/// was not moved out, and it is neither a task nor a view of another value.
pub open spec fn dropped_at_exit(cx: ContextView) -> spec_fn((Seq<char>, VarInfoView)) -> bool {
    |b: (Seq<char>, VarInfoView)|
        !crate::types::is_task_spec(b.1.ty) && !b.1.no_drop
            && !crate::scope::copies_spec(b.1.ty, cx) && b.1.moved is None
}

/// The drop of a binding, with the fields that were moved out of it.
pub open spec fn drop_of(b: (Seq<char>, VarInfoView)) -> TypedStmtView {
    TypedStmtView::Drop {
        name: b.0,
        ty: b.1.ty,
        moved_fields: field_names_spec(b.1.moved_fields),
    }
}

/// Leaving a scope drops exactly the bindings of the innermost scope that own a
/// value which was not moved out, each once and in order.
pub proof fn owners_are_dropped_once(env: EnvView, cx: ContextView, out: Seq<TypedStmtView>)
    ensures
        emit_current_scope_drops_spec(
            env,
            cx,
            out,
        ) == out + crate::scope::current_scope_spec(env).filter(
            dropped_at_exit(cx),
        ).map_values(|b: (Seq<char>, VarInfoView)| drop_of(b)),
{
    reveal(emit_current_scope_drops_spec);
    let bs = crate::scope::current_scope_spec(env);
    let dropped = |b: (Seq<char>, VarInfoView)|
        !crate::types::is_task_spec(b.1.ty) && !b.1.no_drop
            && !crate::scope::copies_spec(b.1.ty, cx) && b.1.moved.is_none();
    let as_drop = |b: (Seq<char>, VarInfoView)| drop_of(b);
    assert(dropped =~= dropped_at_exit(cx));
    assert(drops_of_spec(bs, cx) =~= bs.filter(dropped).map_values(as_drop));
}

} // verus!
