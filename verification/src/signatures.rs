//! Function signatures, and which parameters a function locks.

use vstd::prelude::*;
use crate::ast::{
    Expr, ExprKind, ExprKindView, ExprView, Function, FunctionView, Param, ParamView, PrintItem,
    PrintItemView, Program, ProgramView, Span, Stmt, StmtView, Type, TypeView, dup_exprs,
};
use crate::diagnostic::{Diagnostic, DiagnosticView};
use crate::scope::{diag, name_position, signature_get, signature_has, signature_put};
use crate::state::{Signature, SignatureView, dup_signatures};
use crate::text::{add_capped, cat2, cat3, dup_plain, push, put, replace_at, str_eq, text};
use crate::types::{is_array, is_i64, is_ref};

verus! {

broadcast use {
    crate::text::group_text_views,
    crate::ast::group_ast_views,
    crate::diagnostic::group_diagnostic_views,
    crate::ir::group_ir_views,
    crate::state::group_state_views,
    crate::state::group_extends,
};

/// What [`extract_locked_mutex_name`] computes.
pub open spec fn extract_locked_mutex_name_spec(arg: ExprView) -> Option<Seq<char>>
{
    match arg.kind {
        ExprKindView::Ref { inner } => match inner.kind {
            ExprKindView::Var(name) => Some(name),
            _ => None,
        },
        ExprKindView::RefMut { inner } => match inner.kind {
            ExprKindView::Var(name) => Some(name),
            _ => None,
        },
        ExprKindView::Var(name) => Some(name),
        _ => None,
    }
}

/// The mutex that an argument of `mutex_lock` names.
pub fn extract_locked_mutex_name(arg: &Expr) -> (r: Option<String>)
    ensures
        (match &r { Some(v0) => Some(v0@), None => None }) == extract_locked_mutex_name_spec(arg@),
{
    proof {
        reveal_with_fuel(crate::ast::expr_view, 4);
        reveal_with_fuel(crate::ast::expr_kind_view, 4);
        reveal_with_fuel(crate::ast::stmt_view, 3);
        reveal_with_fuel(crate::ast::exprs_view, 3);
        reveal_with_fuel(crate::ast::stmts_view, 3);
        reveal_with_fuel(crate::ast::arms_view, 3);
        reveal_with_fuel(crate::ast::match_arm_view, 3);
    }
    match &arg.kind {
        ExprKind::Ref { inner } => match &inner.kind {
            ExprKind::Var(name) => Some(name.clone()),
            _ => None,
        },
        ExprKind::RefMut { inner } => match &inner.kind {
            ExprKind::Var(name) => Some(name.clone()),
            _ => None,
        },
        ExprKind::Var(name) => Some(name.clone()),
        _ => None,
    }
}

/// What [`mark_locked`] computes.
pub open spec fn mark_locked_spec(
    arg: ExprView,
    names: Seq<Seq<char>>,
    locks: Seq<bool>,
) -> Seq<bool>
{
    match extract_locked_mutex_name_spec(arg) {
        None => locks,
        Some(target) => match crate::scope::name_position_spec(names, target, None, 0) {
            Some(k) => if k < locks.len() { locks.update(k, true) } else { locks },
            None => locks,
        },
    }
}

/// Marks the parameter that an argument names.
pub fn mark_locked(arg: &Expr, names: &Vec<String>, locks: Vec<bool>) -> (r: Vec<bool>)
    ensures
        r@ == mark_locked_spec(arg@, crate::text::strs_view(names@), locks@),
{
    match extract_locked_mutex_name(arg) {
        None => locks,
        Some(target) => match name_position(names, &target, None) {
            Some(k) => if k < locks.len() { replace_at(locks, k, true) } else { locks },
            None => locks,
        },
    }
}

/// What [`mark_passed`] computes from position `i` on.
pub open spec fn mark_passed_spec(
    args: Seq<ExprView>,
    callee: SignatureView,
    names: Seq<Seq<char>>,
    locks: Seq<bool>,
    i: int,
) -> Seq<bool>
    decreases args.len() - i,
{
    if 0 <= i < args.len() {
        let arg = args[i];
        let locks = if i < callee.locks_params.len() && callee.locks_params[i] {
            mark_locked_spec(arg, names, locks)
        } else {
            locks
        };
        mark_passed_spec(args, callee, names, locks, i + 1)
    } else {
        locks
    }
}

/// Marks the parameters passed where a callee locks its own parameter.
pub fn mark_passed(
    args: &Vec<Expr>,
    callee: &Signature,
    names: &Vec<String>,
    locks: Vec<bool>,
) -> (r: Vec<bool>)
    ensures
        r@ == mark_passed_spec(
            crate::ast::exprs_view(args@),
            callee@,
            crate::text::strs_view(names@),
            locks@,
            0,
        ),
{
    let ghost whole_run = mark_passed_spec(
        crate::ast::exprs_view(args@),
        callee@,
        crate::text::strs_view(names@),
        locks@,
        0,
    );
    let mut locks = locks;
    let mut i: usize = 0;
    while i < args.len()
        invariant
            i <= args.len(),
            mark_passed_spec(
                crate::ast::exprs_view(args@),
                callee@,
                crate::text::strs_view(names@),
                locks@,
                i as int,
            ) == whole_run,
        decreases args.len() - i,
    {
        let arg = &args[i];
        locks = if i < callee.locks_params.len() && callee.locks_params[i] {
            mark_locked(arg, names, locks)
        } else {
            locks
        };
        i += 1;
    }
    locks
}

/// What [`mark_call`] computes.
pub open spec fn mark_call_spec(
    name: Seq<char>,
    args: Seq<ExprView>,
    names: Seq<Seq<char>>,
    signatures: Option<Seq<(Seq<char>, SignatureView)>>,
    locks: Seq<bool>,
) -> Seq<bool>
{
    match signatures {
        None => if name == "mutex_lock"@ && args.len() == 1 {
            mark_locked_spec(args[0], names, locks)
        } else {
            locks
        },
        Some(table) => match crate::scope::signature_get_spec(table, name) {
            Some(callee) => mark_passed_spec(args, callee, names, locks, 0),
            None => locks,
        },
    }
}

/// Marks the parameters that a call locks: those named by a direct
/// `mutex_lock`, or, where signatures are given, those passed to a function
/// that locks them.
pub fn mark_call(
    name: &str,
    args: &Vec<Expr>,
    names: &Vec<String>,
    signatures: &Option<Vec<(String, Signature)>>,
    locks: Vec<bool>,
) -> (r: Vec<bool>)
    ensures
        r@ == mark_call_spec(
            name@,
            crate::ast::exprs_view(args@),
            crate::text::strs_view(names@),
            (match &signatures { Some(v0) => Some(crate::state::signatures_view(v0@)), None => None }),
            locks@,
        ),
{
    match signatures {
        None => if str_eq(name, "mutex_lock") && args.len() == 1 {
            mark_locked(&args[0], names, locks)
        } else {
            locks
        },
        Some(table) => match signature_get(table, name) {
            Some(callee) => mark_passed(args, &callee, names, locks),
            None => locks,
        },
    }
}

/// What [`locks_in_expr`] computes.
pub open spec fn locks_in_expr_spec(
    e: ExprView,
    names: Seq<Seq<char>>,
    signatures: Option<Seq<(Seq<char>, SignatureView)>>,
    locks: Seq<bool>,
) -> Seq<bool>
    decreases e, 0int,
{
    match e.kind {
        ExprKindView::Call { name, args, .. } => {
            let locks = mark_call_spec(name, args, names, signatures, locks);
            locks_in_exprs_spec(args, names, signatures, locks, 0)
        },
        ExprKindView::Unary { expr, .. } => locks_in_expr_spec(*expr, names, signatures, locks),
        ExprKindView::Binary { left, right, .. } => {
            let locks = locks_in_expr_spec(*left, names, signatures, locks);
            locks_in_expr_spec(*right, names, signatures, locks)
        },
        ExprKindView::Cast { expr, .. } => locks_in_expr_spec(*expr, names, signatures, locks),
        ExprKindView::ArrayLit { elements } => locks_in_exprs_spec(
            elements,
            names,
            signatures,
            locks,
            0,
        ),
        ExprKindView::Index { array, index } => {
            let locks = locks_in_expr_spec(*array, names, signatures, locks);
            locks_in_expr_spec(*index, names, signatures, locks)
        },
        ExprKindView::Len { array } => locks_in_expr_spec(*array, names, signatures, locks),
        ExprKindView::Ref { inner } => locks_in_expr_spec(*inner, names, signatures, locks),
        ExprKindView::RefMut { inner } => locks_in_expr_spec(*inner, names, signatures, locks),
        _ => locks,
    }
}

/// Marks the parameters that an expression locks.
pub fn locks_in_expr(
    e: &Expr,
    names: &Vec<String>,
    signatures: &Option<Vec<(String, Signature)>>,
    locks: Vec<bool>,
) -> (r: Vec<bool>)
    ensures
        r@ == locks_in_expr_spec(
            e@,
            crate::text::strs_view(names@),
            (match &signatures { Some(v0) => Some(crate::state::signatures_view(v0@)), None => None }),
            locks@,
        ),
    decreases e, 0int,
{
    match &e.kind {
        ExprKind::Call { name, args, .. } => {
            let locks = mark_call(name, args, names, signatures, locks);
            locks_in_exprs(args, names, signatures, locks)
        },
        ExprKind::Unary { expr, .. } => locks_in_expr(&**expr, names, signatures, locks),
        ExprKind::Binary { left, right, .. } => {
            let locks = locks_in_expr(&**left, names, signatures, locks);
            locks_in_expr(&**right, names, signatures, locks)
        },
        ExprKind::Cast { expr, .. } => locks_in_expr(&**expr, names, signatures, locks),
        ExprKind::ArrayLit { elements } => locks_in_exprs(elements, names, signatures, locks),
        ExprKind::Index { array, index } => {
            let locks = locks_in_expr(&**array, names, signatures, locks);
            locks_in_expr(&**index, names, signatures, locks)
        },
        ExprKind::Len { array } => locks_in_expr(&**array, names, signatures, locks),
        ExprKind::Ref { inner } => locks_in_expr(&**inner, names, signatures, locks),
        ExprKind::RefMut { inner } => locks_in_expr(&**inner, names, signatures, locks),
        _ => locks,
    }
}

/// What [`locks_in_exprs`] computes from position `i` on.
pub open spec fn locks_in_exprs_spec(
    es: Seq<ExprView>,
    names: Seq<Seq<char>>,
    signatures: Option<Seq<(Seq<char>, SignatureView)>>,
    locks: Seq<bool>,
    i: int,
) -> Seq<bool>
    decreases es, es.len() - i,
{
    if 0 <= i < es.len() {
        let e = es[i];
        let locks = locks_in_expr_spec(e, names, signatures, locks);
        locks_in_exprs_spec(es, names, signatures, locks, i + 1)
    } else {
        locks
    }
}

/// Marks the parameters that expressions lock.
pub fn locks_in_exprs(
    es: &Vec<Expr>,
    names: &Vec<String>,
    signatures: &Option<Vec<(String, Signature)>>,
    locks: Vec<bool>,
) -> (r: Vec<bool>)
    ensures
        r@ == locks_in_exprs_spec(
            crate::ast::exprs_view(es@),
            crate::text::strs_view(names@),
            (match &signatures { Some(v0) => Some(crate::state::signatures_view(v0@)), None => None }),
            locks@,
            0,
        ),
    decreases es, es.len(),
{
    let ghost whole_run = locks_in_exprs_spec(
        crate::ast::exprs_view(es@),
        crate::text::strs_view(names@),
        (match &signatures { Some(v0) => Some(crate::state::signatures_view(v0@)), None => None }),
        locks@,
        0,
    );
    let mut locks = locks;
    let mut i: usize = 0;
    while i < es.len()
        invariant
            i <= es.len(),
            locks_in_exprs_spec(
                crate::ast::exprs_view(es@),
                crate::text::strs_view(names@),
                (match &signatures { Some(v0) => Some(crate::state::signatures_view(v0@)), None => None }),
                locks@,
                i as int,
            ) == whole_run,
        decreases es.len() - i,
    {
        let e = &es[i];
        locks = locks_in_expr(e, names, signatures, locks);
        i += 1;
    }
    locks
}

/// What [`locks_in_items`] computes from position `i` on.
pub open spec fn locks_in_items_spec(
    items: Seq<PrintItemView>,
    names: Seq<Seq<char>>,
    signatures: Option<Seq<(Seq<char>, SignatureView)>>,
    locks: Seq<bool>,
    i: int,
) -> Seq<bool>
    decreases items.len() - i,
{
    if 0 <= i < items.len() {
        let item = items[i];
        let locks = match item {
            PrintItemView::Expr(e) => locks_in_expr_spec(e, names, signatures, locks),
            PrintItemView::Str(_) => locks,
        };
        locks_in_items_spec(items, names, signatures, locks, i + 1)
    } else {
        locks
    }
}

/// Marks the parameters that a `print` locks.
pub fn locks_in_items(
    items: &Vec<PrintItem>,
    names: &Vec<String>,
    signatures: &Option<Vec<(String, Signature)>>,
    locks: Vec<bool>,
) -> (r: Vec<bool>)
    ensures
        r@ == locks_in_items_spec(
            crate::ast::print_items_view(items@),
            crate::text::strs_view(names@),
            (match &signatures { Some(v0) => Some(crate::state::signatures_view(v0@)), None => None }),
            locks@,
            0,
        ),
{
    let ghost whole_run = locks_in_items_spec(
        crate::ast::print_items_view(items@),
        crate::text::strs_view(names@),
        (match &signatures { Some(v0) => Some(crate::state::signatures_view(v0@)), None => None }),
        locks@,
        0,
    );
    let mut locks = locks;
    let mut i: usize = 0;
    while i < items.len()
        invariant
            i <= items.len(),
            locks_in_items_spec(
                crate::ast::print_items_view(items@),
                crate::text::strs_view(names@),
                (match &signatures { Some(v0) => Some(crate::state::signatures_view(v0@)), None => None }),
                locks@,
                i as int,
            ) == whole_run,
        decreases items.len() - i,
    {
        let item = &items[i];
        locks = match item {
            PrintItem::Expr(e) => locks_in_expr(e, names, signatures, locks),
            PrintItem::Str(_) => locks,
        };
        i += 1;
    }
    locks
}

/// What [`locks_in_stmt`] computes.
pub open spec fn locks_in_stmt_spec(
    s: StmtView,
    names: Seq<Seq<char>>,
    signatures: Option<Seq<(Seq<char>, SignatureView)>>,
    locks: Seq<bool>,
) -> Seq<bool>
    decreases s, 0int,
{
    match s {
        StmtView::Let { expr, .. } => locks_in_expr_spec(expr, names, signatures, locks),
        StmtView::LetTuple { expr, .. } => locks_in_expr_spec(expr, names, signatures, locks),
        StmtView::Return { expr, .. } => locks_in_expr_spec(expr, names, signatures, locks),
        StmtView::Assert { expr, .. } => locks_in_expr_spec(expr, names, signatures, locks),
        StmtView::Prove { expr, .. } => locks_in_expr_spec(expr, names, signatures, locks),
        StmtView::Assign { expr, .. } => locks_in_expr_spec(expr, names, signatures, locks),
        StmtView::IndexAssign { index, value, .. } => {
            let locks = locks_in_expr_spec(index, names, signatures, locks);
            locks_in_expr_spec(value, names, signatures, locks)
        },
        StmtView::FieldAssign { object, value, .. } => {
            let locks = locks_in_expr_spec(object, names, signatures, locks);
            locks_in_expr_spec(value, names, signatures, locks)
        },
        StmtView::Print { items, .. } => locks_in_items_spec(items, names, signatures, locks, 0),
        StmtView::If { cond, then_body, else_body, .. } => {
            let locks = locks_in_expr_spec(cond, names, signatures, locks);
            let locks = locks_in_stmts_spec(then_body, names, signatures, locks, 0);
            locks_in_stmts_spec(else_body, names, signatures, locks, 0)
        },
        StmtView::While { cond, body, invariants, .. } => {
            let locks = locks_in_expr_spec(cond, names, signatures, locks);
            let locks = locks_in_exprs_spec(invariants, names, signatures, locks, 0);
            locks_in_stmts_spec(body, names, signatures, locks, 0)
        },
        StmtView::For { start, end, body, invariants, .. } => {
            let locks = locks_in_expr_spec(start, names, signatures, locks);
            let locks = locks_in_expr_spec(end, names, signatures, locks);
            let locks = locks_in_exprs_spec(invariants, names, signatures, locks, 0);
            locks_in_stmts_spec(body, names, signatures, locks, 0)
        },
        StmtView::ForIter { body, .. } => locks_in_stmts_spec(body, names, signatures, locks, 0),
        StmtView::TaskSpawn { body, .. } => locks_in_stmts_spec(body, names, signatures, locks, 0),
        StmtView::Break { .. } | StmtView::Continue { .. } | StmtView::TaskJoin { .. } => locks,
    }
}

/// Marks the parameters that a statement locks.
pub fn locks_in_stmt(
    s: &Stmt,
    names: &Vec<String>,
    signatures: &Option<Vec<(String, Signature)>>,
    locks: Vec<bool>,
) -> (r: Vec<bool>)
    ensures
        r@ == locks_in_stmt_spec(
            s@,
            crate::text::strs_view(names@),
            (match &signatures { Some(v0) => Some(crate::state::signatures_view(v0@)), None => None }),
            locks@,
        ),
    decreases s, 0int,
{
    match s {
        Stmt::Let { expr, .. } => locks_in_expr(expr, names, signatures, locks),
        Stmt::LetTuple { expr, .. } => locks_in_expr(expr, names, signatures, locks),
        Stmt::Return { expr, .. } => locks_in_expr(expr, names, signatures, locks),
        Stmt::Assert { expr, .. } => locks_in_expr(expr, names, signatures, locks),
        Stmt::Prove { expr, .. } => locks_in_expr(expr, names, signatures, locks),
        Stmt::Assign { expr, .. } => locks_in_expr(expr, names, signatures, locks),
        Stmt::IndexAssign { index, value, .. } => {
            let locks = locks_in_expr(index, names, signatures, locks);
            locks_in_expr(value, names, signatures, locks)
        },
        Stmt::FieldAssign { object, value, .. } => {
            let locks = locks_in_expr(object, names, signatures, locks);
            locks_in_expr(value, names, signatures, locks)
        },
        Stmt::Print { items, .. } => locks_in_items(items, names, signatures, locks),
        Stmt::If { cond, then_body, else_body, .. } => {
            let locks = locks_in_expr(cond, names, signatures, locks);
            let locks = locks_in_stmts(then_body, names, signatures, locks);
            locks_in_stmts(else_body, names, signatures, locks)
        },
        Stmt::While { cond, body, invariants, .. } => {
            let locks = locks_in_expr(cond, names, signatures, locks);
            let locks = locks_in_exprs(invariants, names, signatures, locks);
            locks_in_stmts(body, names, signatures, locks)
        },
        Stmt::For { start, end, body, invariants, .. } => {
            let locks = locks_in_expr(start, names, signatures, locks);
            let locks = locks_in_expr(end, names, signatures, locks);
            let locks = locks_in_exprs(invariants, names, signatures, locks);
            locks_in_stmts(body, names, signatures, locks)
        },
        Stmt::ForIter { body, .. } => locks_in_stmts(body, names, signatures, locks),
        Stmt::TaskSpawn { body, .. } => locks_in_stmts(body, names, signatures, locks),
        Stmt::Break { .. } | Stmt::Continue { .. } | Stmt::TaskJoin { .. } => locks,
    }
}

/// What [`locks_in_stmts`] computes from position `i` on.
pub open spec fn locks_in_stmts_spec(
    ss: Seq<StmtView>,
    names: Seq<Seq<char>>,
    signatures: Option<Seq<(Seq<char>, SignatureView)>>,
    locks: Seq<bool>,
    i: int,
) -> Seq<bool>
    decreases ss, ss.len() - i,
{
    if 0 <= i < ss.len() {
        let s = ss[i];
        let locks = locks_in_stmt_spec(s, names, signatures, locks);
        locks_in_stmts_spec(ss, names, signatures, locks, i + 1)
    } else {
        locks
    }
}

/// Marks the parameters that statements lock.
pub fn locks_in_stmts(
    ss: &Vec<Stmt>,
    names: &Vec<String>,
    signatures: &Option<Vec<(String, Signature)>>,
    locks: Vec<bool>,
) -> (r: Vec<bool>)
    ensures
        r@ == locks_in_stmts_spec(
            crate::ast::stmts_view(ss@),
            crate::text::strs_view(names@),
            (match &signatures { Some(v0) => Some(crate::state::signatures_view(v0@)), None => None }),
            locks@,
            0,
        ),
    decreases ss, ss.len(),
{
    let ghost whole_run = locks_in_stmts_spec(
        crate::ast::stmts_view(ss@),
        crate::text::strs_view(names@),
        (match &signatures { Some(v0) => Some(crate::state::signatures_view(v0@)), None => None }),
        locks@,
        0,
    );
    let mut locks = locks;
    let mut i: usize = 0;
    while i < ss.len()
        invariant
            i <= ss.len(),
            locks_in_stmts_spec(
                crate::ast::stmts_view(ss@),
                crate::text::strs_view(names@),
                (match &signatures { Some(v0) => Some(crate::state::signatures_view(v0@)), None => None }),
                locks@,
                i as int,
            ) == whole_run,
        decreases ss.len() - i,
    {
        let s = &ss[i];
        locks = locks_in_stmt(s, names, signatures, locks);
        i += 1;
    }
    locks
}

/// What [`param_names`] computes.
pub open spec fn param_names_spec(ps: Seq<ParamView>) -> Seq<Seq<char>>
{
    ps.map_values(|p: ParamView| p.name)
}

/// The names of parameters.
pub fn param_names(ps: &Vec<Param>) -> (r: Vec<String>)
    ensures
        crate::text::strs_view(r@) == param_names_spec(crate::ast::params_view(ps@)),
{
    let ghost whole = param_names_spec(crate::ast::params_view(ps@));
    let ghost all = crate::ast::params_view(ps@);
    let mut r: Vec<String> = Vec::new();
    let mut i: usize = 0;
    while i < ps.len()
        invariant
            i <= ps.len(),
            all == crate::ast::params_view(ps@),
            whole == param_names_spec(crate::ast::params_view(ps@)),
            crate::text::strs_view(r@) == whole.take(i as int),
        decreases ps.len() - i,
    {
        let p = &ps[i];
        assert(all[i as int] == p@);
        r.push(p.name.clone());
        assert(whole.take(i + 1) =~= whole.take(i as int).push(whole[i as int]));
        i += 1;
    }
    assert(whole.take(i as int) =~= whole);
    r
}

/// What [`param_types`] computes.
pub open spec fn param_types_spec(ps: Seq<ParamView>) -> Seq<TypeView>
{
    ps.map_values(|p: ParamView| p.ty)
}

/// The types of parameters.
pub fn param_types(ps: &Vec<Param>) -> (r: Vec<Type>)
    ensures
        crate::ast::types_view(r@) == param_types_spec(crate::ast::params_view(ps@)),
{
    let ghost whole = param_types_spec(crate::ast::params_view(ps@));
    let ghost all = crate::ast::params_view(ps@);
    let mut r: Vec<Type> = Vec::new();
    let mut i: usize = 0;
    while i < ps.len()
        invariant
            i <= ps.len(),
            all == crate::ast::params_view(ps@),
            whole == param_types_spec(crate::ast::params_view(ps@)),
            crate::ast::types_view(r@) == whole.take(i as int),
        decreases ps.len() - i,
    {
        let p = &ps[i];
        assert(all[i as int] == p@);
        r.push(p.ty.dup());
        assert(whole.take(i + 1) =~= whole.take(i as int).push(whole[i as int]));
        i += 1;
    }
    assert(whole.take(i as int) =~= whole);
    r
}

/// What [`no_locks`] computes.
pub open spec fn no_locks_spec(ps: Seq<ParamView>) -> Seq<bool>
{
    ps.map_values(|p: ParamView| false)
}

/// No mark for any parameter.
pub fn no_locks(ps: &Vec<Param>) -> (r: Vec<bool>)
    ensures
        r@ == no_locks_spec(crate::ast::params_view(ps@)),
{
    let ghost whole = no_locks_spec(crate::ast::params_view(ps@));
    let ghost all = crate::ast::params_view(ps@);
    let mut r: Vec<bool> = Vec::new();
    let mut i: usize = 0;
    while i < ps.len()
        invariant
            i <= ps.len(),
            all == crate::ast::params_view(ps@),
            whole == no_locks_spec(crate::ast::params_view(ps@)),
            r@ == whole.take(i as int),
        decreases ps.len() - i,
    {
        let p = &ps[i];
        assert(all[i as int] == p@);
        r.push(false);
        assert(whole.take(i + 1) =~= whole.take(i as int).push(whole[i as int]));
        i += 1;
    }
    assert(whole.take(i as int) =~= whole);
    r
}

/// What [`compute_locks_params`] computes.
pub open spec fn compute_locks_params_spec(f: FunctionView) -> Seq<bool>
{
    locks_in_stmts_spec(f.body, param_names_spec(f.params), None, no_locks_spec(f.params), 0)
}

/// For each parameter, whether the body calls `mutex_lock` on it.
pub fn compute_locks_params(f: &Function) -> (r: Vec<bool>)
    ensures
        r@ == compute_locks_params_spec(f@),
{
    locks_in_stmts(&f.body, &param_names(&f.params), &None, no_locks(&f.params))
}

/// What [`compute_indirect_locks`] computes.
pub open spec fn compute_indirect_locks_spec(
    f: FunctionView,
    signatures: Seq<(Seq<char>, SignatureView)>,
    existing: Seq<bool>,
) -> Seq<bool>
{
    locks_in_stmts_spec(
        f.body,
        param_names_spec(f.params),
        Some((signatures)),
        (existing),
     0)
}

/// For each parameter, whether it was locked already or some callee locks it.
pub fn compute_indirect_locks(
    f: &Function,
    signatures: &Vec<(String, Signature)>,
    existing: &Vec<bool>,
) -> (r: Vec<bool>)
    ensures
        r@ == compute_indirect_locks_spec(
            f@,
            crate::state::signatures_view(signatures@),
            existing@,
        ),
{
    locks_in_stmts(
        &f.body,
        &param_names(&f.params),
        &Some(dup_signatures(signatures)),
        dup_plain(existing),
    )
}

/// What [`any_new`] computes.
pub open spec fn any_new_spec(after: Seq<bool>, before: Seq<bool>) -> bool
{
    exists|i: int|
        #![trigger after[i]]
        0 <= i < after.len() && after[i] && !(i < before.len() && before[i])
}

/// Whether a mark was added.
pub fn any_new(after: &Vec<bool>, before: &Vec<bool>) -> (r: bool)
    ensures
        r == any_new_spec(after@, before@),
{
    let ghost all = after@;
    let mut i: usize = 0;
    while i < after.len()
        invariant
            i <= after.len(),
            all == after@,
            forall|j: int|
                #![trigger all[j]]
                0 <= j < i ==> !(all[j] && !(j < before@.len() && before@[j])),
        decreases after.len() - i,
    {
        let b = &after[i];
        assert(all[i as int] == *b);
        if *b && !(i < before.len() && before[i]) {
            return true;
        }
        i += 1;
    }
    false
}

/// What [`locks_round`] computes from position `i` on.
pub open spec fn locks_round_spec(
    fs: Seq<FunctionView>,
    signatures: Seq<(Seq<char>, SignatureView)>,
    changed: bool,
    i: int,
) -> (Seq<(Seq<char>, SignatureView)>, bool)
    decreases fs.len() - i,
{
    if 0 <= i < fs.len() {
        let f = fs[i];
        let (signatures, changed) = match crate::scope::signature_get_spec(signatures, f.name) {
            None => (signatures, changed),
            Some(s) => {
                let after = compute_indirect_locks_spec(f, signatures, s.locks_params);
                if any_new_spec(after, s.locks_params) {
                    let s = SignatureView { locks_params: after, ..s };
                    (crate::scope::signature_put_spec(signatures, f.name, s), true)
                } else {
                    (signatures, changed)
                }
            },
        };
        locks_round_spec(fs, signatures, changed, i + 1)
    } else {
        (signatures, changed)
    }
}

/// One round of spreading locked parameters from callees to callers.
pub fn locks_round(
    fs: &Vec<Function>,
    signatures: Vec<(String, Signature)>,
    changed: bool,
) -> (r: (Vec<(String, Signature)>, bool))
    ensures
        (crate::state::signatures_view(r.0@), r.1) == locks_round_spec(
            crate::ast::functions_view(fs@),
            crate::state::signatures_view(signatures@),
            changed,
            0,
        ),
{
    let ghost whole_run = locks_round_spec(
        crate::ast::functions_view(fs@),
        crate::state::signatures_view(signatures@),
        changed,
        0,
    );
    let mut signatures = signatures;
    let mut changed = changed;
    let mut i: usize = 0;
    while i < fs.len()
        invariant
            i <= fs.len(),
            locks_round_spec(
                crate::ast::functions_view(fs@),
                crate::state::signatures_view(signatures@),
                changed,
                i as int,
            ) == whole_run,
        decreases fs.len() - i,
    {
        let f = &fs[i];
        let next = match signature_get(&signatures, &f.name) {
            None => (signatures, changed),
            Some(s) => {
                let after = compute_indirect_locks(f, &signatures, &s.locks_params);
                if any_new(&after, &s.locks_params) {
                    let s = Signature { locks_params: after, ..s };
                    (signature_put(&signatures, &f.name, &s), true)
                } else {
                    (signatures, changed)
                }
            },
        };
        signatures = next.0;
        changed = next.1;
        i += 1;
    }
    (signatures, changed)
}

/// What [`propagate_rounds`] computes.
pub open spec fn propagate_rounds_spec(
    fs: Seq<FunctionView>,
    signatures: Seq<(Seq<char>, SignatureView)>,
    fuel: int,
) -> Seq<(Seq<char>, SignatureView)>
    decreases fuel,
{
    if fuel < 1 {
        signatures
    } else {
        match locks_round_spec(fs, signatures, false, 0) {
            (signatures, true) => propagate_rounds_spec(fs, signatures, fuel - 1),
            (signatures, false) => signatures,
        }
    }
}

/// Spreads locked parameters until a round changes nothing, in at most `fuel`
/// rounds.
pub fn propagate_rounds(
    fs: &Vec<Function>,
    signatures: Vec<(String, Signature)>,
    fuel: usize,
) -> (r: Vec<(String, Signature)>)
    ensures
        crate::state::signatures_view(r@) == propagate_rounds_spec(
            crate::ast::functions_view(fs@),
            crate::state::signatures_view(signatures@),
            fuel as int,
        ),
    decreases fuel,
{
    if fuel < 1 {
        signatures
    } else {
        match locks_round(fs, signatures, false) {
            (signatures, true) => propagate_rounds(fs, signatures, fuel - 1),
            (signatures, false) => signatures,
        }
    }
}

/// What [`count_params`] computes from position `i` on.
pub open spec fn count_params_spec(
    fs: Seq<FunctionView>,
    signatures: Seq<(Seq<char>, SignatureView)>,
    n: int,
    i: int,
) -> int
    decreases fs.len() - i,
{
    if 0 <= i < fs.len() {
        let f = fs[i];
        let n = match crate::scope::signature_get_spec(signatures, f.name) {
            Some(s) => crate::text::add_capped_spec(n, (s.locks_params.len() as int)),
            None => n,
        };
        count_params_spec(fs, signatures, n, i + 1)
    } else {
        n
    }
}

/// How many parameters the signatures of the functions have.
pub fn count_params(
    fs: &Vec<Function>,
    signatures: &Vec<(String, Signature)>,
    n: usize,
) -> (r: usize)
    ensures
        r as int == count_params_spec(
            crate::ast::functions_view(fs@),
            crate::state::signatures_view(signatures@),
            n as int,
            0,
        ),
{
    let ghost whole_run = count_params_spec(
        crate::ast::functions_view(fs@),
        crate::state::signatures_view(signatures@),
        n as int,
        0,
    );
    let mut n = n;
    let mut i: usize = 0;
    while i < fs.len()
        invariant
            i <= fs.len(),
            count_params_spec(
                crate::ast::functions_view(fs@),
                crate::state::signatures_view(signatures@),
                n as int,
                i as int,
            ) == whole_run,
        decreases fs.len() - i,
    {
        let f = &fs[i];
        n = match signature_get(signatures, &f.name) {
            Some(s) => add_capped(n, s.locks_params.len()),
            None => n,
        };
        i += 1;
    }
    n
}

/// What [`propagate_locks_params`] computes.
pub open spec fn propagate_locks_params_spec(
    signatures: Seq<(Seq<char>, SignatureView)>,
    fs: Seq<FunctionView>,
) -> Seq<(Seq<char>, SignatureView)>
{
    let rounds: int = crate::text::add_capped_spec(count_params_spec(fs, signatures, 0, 0), 1);
    propagate_rounds_spec(fs, signatures, rounds)
}

/// Spreads locked parameters from callees to callers until nothing changes. A
/// round that changes something marks another parameter, so that there are no
/// more such rounds than parameters.
pub fn propagate_locks_params(
    signatures: Vec<(String, Signature)>,
    fs: &Vec<Function>,
) -> (r: Vec<(String, Signature)>)
    ensures
        crate::state::signatures_view(r@) == propagate_locks_params_spec(
            crate::state::signatures_view(signatures@),
            crate::ast::functions_view(fs@),
        ),
{
    let rounds: usize = add_capped(count_params(fs, &signatures, 0), 1);
    propagate_rounds(fs, signatures, rounds)
}

/// What [`is_builtin_name`] computes.
pub open spec fn is_builtin_name_spec(name: Seq<char>) -> bool
{
    name == "vec"@ || name == "push"@ || name == "set"@ || name == "clone"@
        || name == "clone_at"@
}

/// Whether a function may not be declared under the name.
pub fn is_builtin_name(name: &str) -> (r: bool)
    ensures
        r == is_builtin_name_spec(name@),
{
    str_eq(name, "vec") || str_eq(name, "push") || str_eq(name, "set") || str_eq(name, "clone")
        || str_eq(name, "clone_at")
}

/// What [`validate_no_ref`] computes.
pub open spec fn validate_no_ref_spec(
    t: TypeView,
    span: Span,
    context: Seq<char>,
    diags: Seq<DiagnosticView>,
) -> Seq<DiagnosticView>
{
    if crate::types::is_ref_spec(t) {
        diags.push(crate::scope::diag_spec(span, context + " cannot be a reference type"@))
    } else {
        diags
    }
}

/// Reports a reference type where none may stand.
pub fn validate_no_ref(
    t: &Type,
    span: Span,
    context: &str,
    diags: Vec<Diagnostic>,
) -> (r: Vec<Diagnostic>)
    ensures
        crate::diagnostic::diagnostics_view(r@) == validate_no_ref_spec(
            t@,
            span,
            context@,
            crate::diagnostic::diagnostics_view(diags@),
        ),
        crate::state::extends(
            crate::diagnostic::diagnostics_view(diags@),
            crate::diagnostic::diagnostics_view(r@),
        ),
{
    if is_ref(t) {
        push(diags, diag(span, cat2(context, " cannot be a reference type")))
    } else {
        diags
    }
}

/// What [`signature_of`] computes.
pub open spec fn signature_of_spec(f: FunctionView) -> SignatureView
{
    SignatureView {
        params: param_types_spec(f.params),
        param_names: param_names_spec(f.params),
        return_type: f.return_type,
        requires: (f.requires),
        ensures: (f.ensures),
        is_pure: f.is_pure,
        locks_params: compute_locks_params_spec(f),
    }
}

/// What callers know of a function, before marks are passed on.
pub fn signature_of(f: &Function) -> (r: Signature)
    ensures
        r@ == signature_of_spec(f@),
{
    Signature {
        params: param_types(&f.params),
        param_names: param_names(&f.params),
        return_type: f.return_type.dup(),
        requires: dup_exprs(&f.requires),
        ensures: dup_exprs(&f.ensures),
        is_pure: f.is_pure,
        locks_params: compute_locks_params(f),
    }
}

/// What [`collect_each`] computes from position `i` on.
pub open spec fn collect_each_spec(
    fs: Seq<FunctionView>,
    table: Seq<(Seq<char>, SignatureView)>,
    diags: Seq<DiagnosticView>,
    i: int,
) -> (Seq<(Seq<char>, SignatureView)>, Seq<DiagnosticView>)
    decreases fs.len() - i,
{
    if 0 <= i < fs.len() {
        let f = fs[i];
        let (table, diags) = {
            let diags = if crate::types::is_array_spec(f.return_type) {
                diags.push(
                    crate::scope::diag_spec(
                        f.span,
                        "array types are not allowed in return position yet"@,
                    ),
                )
            } else {
                diags
            };
            let diags = validate_no_ref_spec(f.return_type, f.span, "function return type"@, diags);
            let diags = if is_builtin_name_spec(f.name) {
                let message = "function '"@ + f.name
                    + "' is a built-in name and cannot be redefined"@;
                diags.push(crate::scope::diag_spec(f.span, message))
            } else {
                diags
            };
            let diags = if crate::scope::signature_has_spec(table, f.name) {
                diags.push(
                    crate::scope::diag_spec(
                        f.span,
                        "function '"@ + f.name + "' is already defined"@,
                    ),
                )
            } else {
                diags
            };
            (crate::scope::signature_put_spec(table, f.name, signature_of_spec(f)), diags)
        };
        collect_each_spec(fs, table, diags, i + 1)
    } else {
        (table, diags)
    }
}

/// Adds the signatures of functions, reporting what cannot be declared.
pub fn collect_each(
    fs: &Vec<Function>,
    table: Vec<(String, Signature)>,
    diags: Vec<Diagnostic>,
) -> (r: (Vec<(String, Signature)>, Vec<Diagnostic>))
    ensures
        (crate::state::signatures_view(r.0@), crate::diagnostic::diagnostics_view(r.1@)) == collect_each_spec(
            crate::ast::functions_view(fs@),
            crate::state::signatures_view(table@),
            crate::diagnostic::diagnostics_view(diags@),
            0,
        ),
        crate::state::extends(
            crate::diagnostic::diagnostics_view(diags@),
            crate::diagnostic::diagnostics_view(r.1@),
        ),
{
    let ghost whole_run = collect_each_spec(
        crate::ast::functions_view(fs@),
        crate::state::signatures_view(table@),
        crate::diagnostic::diagnostics_view(diags@),
        0,
    );
    let ghost start_diags = crate::diagnostic::diagnostics_view(diags@);
    let mut table = table;
    let mut diags = diags;
    let mut i: usize = 0;
    while i < fs.len()
        invariant
            i <= fs.len(),
            collect_each_spec(
                crate::ast::functions_view(fs@),
                crate::state::signatures_view(table@),
                crate::diagnostic::diagnostics_view(diags@),
                i as int,
            ) == whole_run,
            crate::state::extends(start_diags, crate::diagnostic::diagnostics_view(diags@)),
        decreases fs.len() - i,
    {
        let f = &fs[i];
        let next = {
            let diags = if is_array(&f.return_type) {
                push(
                    diags,
                    diag(f.span, text("array types are not allowed in return position yet")),
                )
            } else {
                diags
            };
            let diags = validate_no_ref(&f.return_type, f.span, "function return type", diags);
            let diags = if is_builtin_name(&f.name) {
                let message = cat3(
                    "function '",
                    &f.name,
                    "' is a built-in name and cannot be redefined",
                );
                push(diags, diag(f.span, message))
            } else {
                diags
            };
            let diags = if signature_has(&table, &f.name) {
                push(diags, diag(f.span, cat3("function '", &f.name, "' is already defined")))
            } else {
                diags
            };
            (signature_put(&table, &f.name, &signature_of(f)), diags)
        };
        table = next.0;
        diags = next.1;
        i += 1;
    }
    (table, diags)
}

/// What [`collect_signatures`] computes.
pub open spec fn collect_signatures_spec(p: ProgramView, diags: Seq<DiagnosticView>) -> (
    Seq<(Seq<char>, SignatureView)>,
    Seq<DiagnosticView>,
)
{
    let (table, diags) = collect_each_spec(p.functions, Seq::empty(), diags, 0);
    (propagate_locks_params_spec(table, p.functions), diags)
}

/// The signature of every function.
pub fn collect_signatures(
    p: &Program,
    diags: Vec<Diagnostic>,
) -> (r: (Vec<(String, Signature)>, Vec<Diagnostic>))
    ensures
        (
            crate::state::signatures_view(r.0@),
            crate::diagnostic::diagnostics_view(r.1@),
        ) == collect_signatures_spec(p@, crate::diagnostic::diagnostics_view(diags@)),
        crate::state::extends(
            crate::diagnostic::diagnostics_view(diags@),
            crate::diagnostic::diagnostics_view(r.1@),
        ),
{
    let (table, diags) = collect_each(&p.functions, Vec::new(), diags);
    (propagate_locks_params(table, &p.functions), diags)
}

/// What [`find_main`] computes from position `i` on.
pub open spec fn find_main_spec(fs: Seq<FunctionView>, found: Option<Span>, i: int) -> Option<Span>
    decreases fs.len() - i,
{
    if 0 <= i < fs.len() && !found.is_some() {
        let f = fs[i];
        let found = if f.name == "main"@ { Some(f.span) } else { found };
        find_main_spec(fs, found, i + 1)
    } else {
        found
    }
}

/// Where the first `main` stands.
pub fn find_main(fs: &Vec<Function>, found: Option<Span>) -> (r: Option<Span>)
    ensures
        r == find_main_spec(crate::ast::functions_view(fs@), found, 0),
{
    let ghost whole_run = find_main_spec(crate::ast::functions_view(fs@), found, 0);
    let mut found = found;
    let mut i: usize = 0;
    while i < fs.len() && !found.is_some()
        invariant
            i <= fs.len(),
            find_main_spec(crate::ast::functions_view(fs@), found, i as int) == whole_run,
        decreases fs.len() - i,
    {
        let f = &fs[i];
        found = if str_eq(&f.name, "main") { Some(f.span) } else { found };
        i += 1;
    }
    found
}

/// What [`validate_main`] computes.
pub open spec fn validate_main_spec(
    p: ProgramView,
    signatures: Seq<(Seq<char>, SignatureView)>,
    diags: Seq<DiagnosticView>,
) -> Seq<DiagnosticView>
{
    let span = match find_main_spec(p.functions, None, 0) {
        Some(span) => span,
        None => Span { start: 0, end: 0 },
    };
    match crate::scope::signature_get_spec(signatures, "main"@) {
        None => diags.push(crate::scope::diag_spec(span, "program must define fn main() -> i64"@)),
        Some(main) => if main.params.len() > 0 || !crate::types::is_i64_spec(main.return_type) {
            diags.push(crate::scope::diag_spec(span, "main must have signature fn main() -> i64"@))
        } else {
            diags
        },
    }
}

/// The program has a `main` without parameters that returns `i64`.
pub fn validate_main(
    p: &Program,
    signatures: &Vec<(String, Signature)>,
    diags: Vec<Diagnostic>,
) -> (r: Vec<Diagnostic>)
    ensures
        crate::diagnostic::diagnostics_view(r@) == validate_main_spec(
            p@,
            crate::state::signatures_view(signatures@),
            crate::diagnostic::diagnostics_view(diags@),
        ),
        crate::state::extends(
            crate::diagnostic::diagnostics_view(diags@),
            crate::diagnostic::diagnostics_view(r@),
        ),
{
    let span = match find_main(&p.functions, None) {
        Some(span) => span,
        None => Span { start: 0, end: 0 },
    };
    match signature_get(signatures, "main") {
        None => push(diags, diag(span, text("program must define fn main() -> i64"))),
        Some(main) => if main.params.len() > 0 || !is_i64(&main.return_type) {
            push(diags, diag(span, text("main must have signature fn main() -> i64")))
        } else {
            diags
        },
    }
}

/// Whether marks were only added: none is missing, and none is lost.
pub open spec fn only_marks(before: Seq<bool>, after: Seq<bool>) -> bool {
    after.len() == before.len() && forall|k: int|
        0 <= k < before.len() && #[trigger] before[k] ==> after[k]
}

proof fn position_is_in_list(names: Seq<Seq<char>>, name: Seq<char>, i: int)
    requires
        0 <= i <= names.len(),
    ensures
        crate::scope::name_position_spec(names, name, None, i) matches Some(k)
            ==> i <= k < names.len(),
    decreases names.len() - i,
{
    reveal_with_fuel(crate::scope::name_position_spec, 2);
    if i < names.len() && names[i] != name {
        position_is_in_list(names, name, i + 1);
    }
}

proof fn lock_only_marks(arg: ExprView, names: Seq<Seq<char>>, locks: Seq<bool>)
    ensures
        only_marks(locks, mark_locked_spec(arg, names, locks)),
{
    match extract_locked_mutex_name_spec(arg) {
        Some(target) => {
            position_is_in_list(names, target, 0);
        },
        None => {},
    }
}

proof fn passed_only_marks(
    args: Seq<ExprView>,
    callee: SignatureView,
    names: Seq<Seq<char>>,
    locks: Seq<bool>,
    i: int,
)
    requires
        0 <= i <= args.len(),
    ensures
        only_marks(locks, mark_passed_spec(args, callee, names, locks, i)),
    decreases args.len() - i,
{
    if i < args.len() {
        let next = if i < callee.locks_params.len() && callee.locks_params[i] {
            mark_locked_spec(args[i], names, locks)
        } else {
            locks
        };
        lock_only_marks(args[i], names, locks);
        passed_only_marks(args, callee, names, next, i + 1);
    }
}

proof fn call_only_marks(
    name: Seq<char>,
    args: Seq<ExprView>,
    names: Seq<Seq<char>>,
    signatures: Option<Seq<(Seq<char>, SignatureView)>>,
    locks: Seq<bool>,
)
    ensures
        only_marks(locks, mark_call_spec(name, args, names, signatures, locks)),
{
    match signatures {
        None => {
            if args.len() == 1 {
                lock_only_marks(args[0], names, locks);
            }
        },
        Some(table) => match crate::scope::signature_get_spec(table, name) {
            Some(callee) => {
                passed_only_marks(args, callee, names, locks, 0);
            },
            None => {},
        },
    }
}

proof fn expr_only_marks(
    e: ExprView,
    names: Seq<Seq<char>>,
    signatures: Option<Seq<(Seq<char>, SignatureView)>>,
    locks: Seq<bool>,
)
    ensures
        only_marks(locks, locks_in_expr_spec(e, names, signatures, locks)),
    decreases e, 0int,
{
    match e.kind {
        ExprKindView::Call { name, args, .. } => {
            call_only_marks(name, args, names, signatures, locks);
            let locks = mark_call_spec(name, args, names, signatures, locks);
            exprs_only_mark(args, names, signatures, locks, 0);
        },
        ExprKindView::Unary { expr, .. } => {
            expr_only_marks(*expr, names, signatures, locks);
        },
        ExprKindView::Binary { left, right, .. } => {
            expr_only_marks(*left, names, signatures, locks);
            let locks = locks_in_expr_spec(*left, names, signatures, locks);
            expr_only_marks(*right, names, signatures, locks);
        },
        ExprKindView::Cast { expr, .. } => {
            expr_only_marks(*expr, names, signatures, locks);
        },
        ExprKindView::ArrayLit { elements } => {
            exprs_only_mark(elements, names, signatures, locks, 0);
        },
        ExprKindView::Index { array, index } => {
            expr_only_marks(*array, names, signatures, locks);
            let locks = locks_in_expr_spec(*array, names, signatures, locks);
            expr_only_marks(*index, names, signatures, locks);
        },
        ExprKindView::Len { array } => {
            expr_only_marks(*array, names, signatures, locks);
        },
        ExprKindView::Ref { inner } => {
            expr_only_marks(*inner, names, signatures, locks);
        },
        ExprKindView::RefMut { inner } => {
            expr_only_marks(*inner, names, signatures, locks);
        },
        _ => {},
    }
}

proof fn exprs_only_mark(
    es: Seq<ExprView>,
    names: Seq<Seq<char>>,
    signatures: Option<Seq<(Seq<char>, SignatureView)>>,
    locks: Seq<bool>,
    i: int,
)
    requires
        0 <= i <= es.len(),
    ensures
        only_marks(locks, locks_in_exprs_spec(es, names, signatures, locks, i)),
    decreases es, es.len() - i,
{
    if i < es.len() {
        expr_only_marks(es[i], names, signatures, locks);
        exprs_only_mark(
            es,
            names,
            signatures,
            locks_in_expr_spec(es[i], names, signatures, locks),
            i + 1,
        );
    }
}

proof fn items_only_mark(
    items: Seq<PrintItemView>,
    names: Seq<Seq<char>>,
    signatures: Option<Seq<(Seq<char>, SignatureView)>>,
    locks: Seq<bool>,
    i: int,
)
    requires
        0 <= i <= items.len(),
    ensures
        only_marks(locks, locks_in_items_spec(items, names, signatures, locks, i)),
    decreases items.len() - i,
{
    if i < items.len() {
        match items[i] {
            PrintItemView::Expr(e) => {
                expr_only_marks(e, names, signatures, locks);
                items_only_mark(
                    items,
                    names,
                    signatures,
                    locks_in_expr_spec(e, names, signatures, locks),
                    i + 1,
                );
            },
            _ => {
                items_only_mark(items, names, signatures, locks, i + 1);
            },
        }
    }
}

proof fn stmts_only_mark(
    ss: Seq<StmtView>,
    names: Seq<Seq<char>>,
    signatures: Option<Seq<(Seq<char>, SignatureView)>>,
    locks: Seq<bool>,
    i: int,
)
    requires
        0 <= i <= ss.len(),
    ensures
        only_marks(locks, locks_in_stmts_spec(ss, names, signatures, locks, i)),
    decreases ss, ss.len() - i,
{
    if i < ss.len() {
        stmt_only_marks(ss[i], names, signatures, locks);
        stmts_only_mark(
            ss,
            names,
            signatures,
            locks_in_stmt_spec(ss[i], names, signatures, locks),
            i + 1,
        );
    }
}

proof fn stmt_only_marks(
    s: StmtView,
    names: Seq<Seq<char>>,
    signatures: Option<Seq<(Seq<char>, SignatureView)>>,
    locks: Seq<bool>,
)
    ensures
        only_marks(locks, locks_in_stmt_spec(s, names, signatures, locks)),
    decreases s, 0int,
{
    match s {
        StmtView::Let { expr, .. } => {
            expr_only_marks(expr, names, signatures, locks);
        },
        StmtView::LetTuple { expr, .. } => {
            expr_only_marks(expr, names, signatures, locks);
        },
        StmtView::Return { expr, .. } => {
            expr_only_marks(expr, names, signatures, locks);
        },
        StmtView::Assert { expr, .. } => {
            expr_only_marks(expr, names, signatures, locks);
        },
        StmtView::Prove { expr, .. } => {
            expr_only_marks(expr, names, signatures, locks);
        },
        StmtView::Assign { expr, .. } => {
            expr_only_marks(expr, names, signatures, locks);
        },
        StmtView::IndexAssign { index, value, .. } => {
            expr_only_marks(index, names, signatures, locks);
            let locks = locks_in_expr_spec(index, names, signatures, locks);
            expr_only_marks(value, names, signatures, locks);
        },
        StmtView::FieldAssign { object, value, .. } => {
            expr_only_marks(object, names, signatures, locks);
            let locks = locks_in_expr_spec(object, names, signatures, locks);
            expr_only_marks(value, names, signatures, locks);
        },
        StmtView::Print { items, .. } => {
            items_only_mark(items, names, signatures, locks, 0);
        },
        StmtView::If { cond, then_body, else_body, .. } => {
            expr_only_marks(cond, names, signatures, locks);
            let locks = locks_in_expr_spec(cond, names, signatures, locks);
            stmts_only_mark(then_body, names, signatures, locks, 0);
            let locks = locks_in_stmts_spec(then_body, names, signatures, locks, 0);
            stmts_only_mark(else_body, names, signatures, locks, 0);
        },
        StmtView::While { cond, body, invariants, .. } => {
            expr_only_marks(cond, names, signatures, locks);
            let locks = locks_in_expr_spec(cond, names, signatures, locks);
            exprs_only_mark(invariants, names, signatures, locks, 0);
            let locks = locks_in_exprs_spec(invariants, names, signatures, locks, 0);
            stmts_only_mark(body, names, signatures, locks, 0);
        },
        StmtView::For { start, end, body, invariants, .. } => {
            expr_only_marks(start, names, signatures, locks);
            let locks = locks_in_expr_spec(start, names, signatures, locks);
            expr_only_marks(end, names, signatures, locks);
            let locks = locks_in_expr_spec(end, names, signatures, locks);
            exprs_only_mark(invariants, names, signatures, locks, 0);
            let locks = locks_in_exprs_spec(invariants, names, signatures, locks, 0);
            stmts_only_mark(body, names, signatures, locks, 0);
        },
        StmtView::ForIter { body, .. } => {
            stmts_only_mark(body, names, signatures, locks, 0);
        },
        StmtView::TaskSpawn { body, .. } => {
            stmts_only_mark(body, names, signatures, locks, 0);
        },
        _ => {},
    }
}

/// How many marks are missing.
pub open spec fn unmarked(locks: Seq<bool>) -> nat
    decreases locks.len(),
{
    if locks.len() == 0 {
        0
    } else {
        unmarked(locks.drop_last()) + if locks.last() {
            0nat
        } else {
            1
        }
    }
}

proof fn marks_fill_up(before: Seq<bool>, after: Seq<bool>)
    requires
        only_marks(before, after),
    ensures
        unmarked(after) <= unmarked(before) <= before.len(),
        unmarked(after) == unmarked(before) ==> after == before,
    decreases before.len(),
{
    if before.len() > 0 {
        assert forall|k: int|
            0 <= k < before.drop_last().len()
                && #[trigger] before.drop_last()[k] implies after.drop_last()[k] by {
            assert(before[k]);
        }
        marks_fill_up(before.drop_last(), after.drop_last());
        assert(before[before.len() - 1] == before.last());
        if unmarked(after) == unmarked(before) {
            assert(after.drop_last() == before.drop_last());
            assert(after =~= after.drop_last().push(after.last()));
            assert(before =~= before.drop_last().push(before.last()));
        }
    } else {
        assert(after =~= before);
    }
}

/// How many marks the signatures of the functions from position `i` on lack.
spec fn missing_marks(fs: Seq<FunctionView>, table: Seq<(Seq<char>, SignatureView)>, i: int) -> nat
    decreases fs.len() - i,
{
    if 0 <= i < fs.len() {
        missing_marks(fs, table, i + 1)
            + match crate::scope::signature_get_spec(table, fs[i].name) {
            Some(s) => unmarked(s.locks_params),
            None => 0,
        }
    } else {
        0
    }
}

proof fn fewer_missing(
    fs: Seq<FunctionView>,
    table: Seq<(Seq<char>, SignatureView)>,
    name: Seq<char>,
    s: SignatureView,
    after: Seq<bool>,
    i: int,
)
    requires
        0 <= i <= fs.len(),
        crate::scope::signature_get_spec(table, name) == Some(s),
        only_marks(s.locks_params, after),
    ensures
        ({
            let put = crate::scope::signature_put_spec(
                table,
                name,
                SignatureView { locks_params: after, ..s },
            );
            &&& missing_marks(fs, put, i) <= missing_marks(fs, table, i)
            &&& unmarked(after) < unmarked(s.locks_params) && (exists|k: int|
                i <= k < fs.len() && (#[trigger] fs[k]).name == name) ==> missing_marks(fs, put, i)
                < missing_marks(fs, table, i)
        }),
    decreases fs.len() - i,
{
    if i < fs.len() {
        let now = SignatureView { locks_params: after, ..s };
        crate::scope::signatures_hold_what_was_put(table, name, now, fs[i].name);
        marks_fill_up(s.locks_params, after);
        fewer_missing(fs, table, name, s, after, i + 1);
    }
}

proof fn round_marks(
    fs: Seq<FunctionView>,
    table: Seq<(Seq<char>, SignatureView)>,
    changed: bool,
    i: int,
)
    requires
        0 <= i <= fs.len(),
    ensures
        ({
            let r = locks_round_spec(fs, table, changed, i);
            &&& missing_marks(fs, r.0, 0) <= missing_marks(fs, table, 0)
            &&& r.1 && !changed ==> missing_marks(fs, r.0, 0) < missing_marks(fs, table, 0)
            &&& changed ==> r.1
            &&& !r.1 ==> r.0 == table && forall|k: int|
                i <= k < fs.len() ==> nothing_to_mark(#[trigger] fs[k], table)
        }),
    decreases fs.len() - i,
{
    if i < fs.len() {
        let f = fs[i];
        match crate::scope::signature_get_spec(table, f.name) {
            None => {
                round_marks(fs, table, changed, i + 1);
            },
            Some(s) => {
                let after = compute_indirect_locks_spec(f, table, s.locks_params);
                stmts_only_mark(
                    f.body,
                    param_names_spec(f.params),
                    Some(table),
                    s.locks_params,
                    0,
                );
                marks_fill_up(s.locks_params, after);
                if any_new_spec(after, s.locks_params) {
                    let k = choose|k: int|
                        0 <= k < after.len() && #[trigger] after[k] && !s.locks_params[k];
                    assert(after != s.locks_params);
                    fewer_missing(fs, table, f.name, s, after, 0);
                    let put = crate::scope::signature_put_spec(
                        table,
                        f.name,
                        SignatureView { locks_params: after, ..s },
                    );
                    round_marks(fs, put, true, i + 1);
                } else {
                    assert(after =~= s.locks_params) by {
                        assert forall|k: int| 0 <= k < after.len() implies after[k]
                            == s.locks_params[k] by {
                            if s.locks_params[k] {
                                assert(after[k]);
                            }
                        }
                    }
                    round_marks(fs, table, changed, i + 1);
                }
            },
        }
    }
}

/// Whether a function's signature marks every parameter that it passes to a
/// function which locks it.
pub open spec fn nothing_to_mark(f: FunctionView, table: Seq<(Seq<char>, SignatureView)>) -> bool {
    crate::scope::signature_get_spec(table, f.name) matches Some(s) ==> compute_indirect_locks_spec(
        f,
        table,
        s.locks_params,
    ) == s.locks_params
}

proof fn marking_ends(fs: Seq<FunctionView>, table: Seq<(Seq<char>, SignatureView)>, fuel: int)
    requires
        fuel > missing_marks(fs, table, 0),
    ensures
        forall|k: int|
            0 <= k < fs.len() ==> nothing_to_mark(
                #[trigger] fs[k],
                propagate_rounds_spec(fs, table, fuel),
            ),
    decreases fuel,
{
    round_marks(fs, table, false, 0);
    let r = locks_round_spec(fs, table, false, 0);
    if r.1 {
        marking_ends(fs, r.0, fuel - 1);
    }
}

/// How many parameters the signatures of the functions from position `i` on
/// have.
pub open spec fn parameters_in_all(
    fs: Seq<FunctionView>,
    table: Seq<(Seq<char>, SignatureView)>,
    i: int,
) -> nat
    decreases fs.len() - i,
{
    if 0 <= i < fs.len() {
        parameters_in_all(fs, table, i + 1)
            + match crate::scope::signature_get_spec(table, fs[i].name) {
            Some(s) => s.locks_params.len(),
            None => 0,
        }
    } else {
        0
    }
}

proof fn counted_in_all(
    fs: Seq<FunctionView>,
    table: Seq<(Seq<char>, SignatureView)>,
    n: int,
    i: int,
)
    requires
        0 <= i <= fs.len(),
        0 <= n,
        n + parameters_in_all(fs, table, i) < usize::MAX,
    ensures
        count_params_spec(fs, table, n, i) == n + parameters_in_all(fs, table, i),
        missing_marks(fs, table, i) <= parameters_in_all(fs, table, i),
    decreases fs.len() - i,
{
    if i < fs.len() {
        match crate::scope::signature_get_spec(table, fs[i].name) {
            Some(s) => {
                marks_fill_up(s.locks_params, s.locks_params);
                counted_in_all(fs, table, n + s.locks_params.len(), i + 1);
            },
            None => {
                counted_in_all(fs, table, n, i + 1);
            },
        }
    }
}

/// Locked parameters are spread to the end: afterwards each function's
/// signature marks every parameter that it passes to a function which locks
/// it.
pub proof fn locks_reach_all_callers(fs: Seq<FunctionView>, table: Seq<(Seq<char>, SignatureView)>)
    requires
        parameters_in_all(fs, table, 0) < usize::MAX,
    ensures
        forall|k: int|
            0 <= k < fs.len() ==> nothing_to_mark(
                #[trigger] fs[k],
                propagate_locks_params_spec(table, fs),
            ),
{
    counted_in_all(fs, table, 0, 0);
    marking_ends(fs, table, count_params_spec(fs, table, 0, 0) + 1);
}

} // verus!
