//! Ownership: what an expression moves, and what each branch has to drop.

use vstd::prelude::*;
use crate::ast::{
    Expr, ExprKind, ExprKindView, ExprView, MatchArm, MatchArmView, Span, Type, TypeView,
    type_text,
};
use crate::checker::{start_env};
use crate::effects::{field_names};
use crate::ir::{
    TypedExpr, TypedExprKind, TypedExprKindView, TypedExprView, TypedMatchArm, TypedMatchArmView,
    TypedStmt, TypedStmtView, dup_typed_stmts,
};
use crate::scope::{
    copies, lookup, moved_field_has, moved_field_put, report, report_note, set_var, typed,
};
use crate::state::{
    CheckedExpr, CheckedExprView, Context, ContextView, Env, EnvView, State, StateView, VarInfo,
    VarInfoView,
};
use crate::text::{cat2, cat5, join, push, str_eq, text};
use crate::types::{is_ref};
use crate::typing::{Declared};

verus! {

broadcast use {
    crate::text::group_text_views,
    crate::ast::group_ast_views,
    crate::diagnostic::group_diagnostic_views,
    crate::ir::group_ir_views,
    crate::state::group_state_views,
    crate::state::group_extends,
    crate::state::group_grows,
    crate::typing::leaves_are_typed,
};

/// What [`diagnose_partial_then_whole_move`] computes.
#[verifier::opaque]
pub open spec fn diagnose_partial_then_whole_move_spec(
    source: ExprView,
    c: CheckedExprView,
    cx: ContextView,
    st: StateView,
) -> StateView
{
    if crate::scope::copies_spec(c.expr.ty, cx) {
        st
    } else {
        match source.kind {
            ExprKindView::Var(name) => match crate::scope::lookup_spec(st.env, name) {
                Some(info) => if info.moved_fields.len() > 0 {
                    let message = "cannot move '"@ + name + "' — its field '"@
                        + info.moved_fields[0].0
                        + "' was previously moved out, leaving the struct only partially initialized"@;
                    let note = "'"@ + name + "."@ + info.moved_fields[0].0 + "' was moved here"@;
                    crate::scope::report_note_spec(
                        st,
                        source.span,
                        message,
                        info.moved_fields[0].1,
                        note,
                    )
                } else {
                    st
                },
                None => st,
            },
            _ => st,
        }
    }
}

/// Reports the use as a whole of a struct that a field was moved out of.
pub fn diagnose_partial_then_whole_move(
    source: &Expr,
    c: &CheckedExpr,
    cx: &Context,
    st: State,
) -> (r: State)
    ensures
        r@ == diagnose_partial_then_whole_move_spec(source@, c@, cx@, st@),
        crate::state::follows(st@, r@),
        crate::state::balanced(st@, r@),
        crate::state::same_facts(st@, r@),
{
    proof {
        reveal(diagnose_partial_then_whole_move_spec);
    }
    if copies(&c.expr.ty, cx) {
        st
    } else {
        match &source.kind {
            ExprKind::Var(name) => match lookup(&st.env, name) {
                Some(info) => if info.moved_fields.len() > 0 {
                    let message = cat5(
                        "cannot move '",
                        name,
                        "' — its field '",
                        &info.moved_fields[0].0,
                        "' was previously moved out, leaving the struct only partially initialized",
                    );
                    let note = cat5("'", name, ".", &info.moved_fields[0].0, "' was moved here");
                    report_note(st, source.span, message, info.moved_fields[0].1, note)
                } else {
                    st
                },
                None => st,
            },
            _ => st,
        }
    }
}

/// What [`is_nested_field_access`] computes.
pub open spec fn is_nested_field_access_spec(e: ExprView) -> bool
{
    match e.kind {
        ExprKindView::FieldAccess { object, .. } => match object.kind {
            ExprKindView::FieldAccess { .. } => true,
            _ => false,
        },
        _ => false,
    }
}

/// Whether an expression is a field of a field.
pub fn is_nested_field_access(e: &Expr) -> (r: bool)
    ensures
        r == is_nested_field_access_spec(e@),
{
    proof {
        reveal_with_fuel(crate::ast::expr_view, 4);
        reveal_with_fuel(crate::ast::expr_kind_view, 4);
        reveal_with_fuel(crate::ast::stmt_view, 3);
        reveal_with_fuel(crate::ast::exprs_view, 3);
        reveal_with_fuel(crate::ast::stmts_view, 3);
        reveal_with_fuel(crate::ast::arms_view, 3);
        reveal_with_fuel(crate::ast::match_arm_view, 3);
    }
    match &e.kind {
        ExprKind::FieldAccess { object, .. } => match &object.kind {
            ExprKind::FieldAccess { .. } => true,
            _ => false,
        },
        _ => false,
    }
}

/// What [`has_leaf`] computes.
pub open spec fn has_leaf_spec(ls: Seq<(Seq<char>, TypeView)>, name: Seq<char>) -> bool
{
    exists|i: int|
        #![trigger ls[i]]
        0 <= i < ls.len() && ls[i].0 == name
}

/// Whether a list of variables has the name.
pub fn has_leaf(ls: &Vec<(String, Type)>, name: &str) -> (r: bool)
    ensures
        r == has_leaf_spec(crate::ir::named_types_view(ls@), name@),
{
    let ghost all = crate::ir::named_types_view(ls@);
    let mut i: usize = 0;
    while i < ls.len()
        invariant
            i <= ls.len(),
            all == crate::ir::named_types_view(ls@),
            forall|j: int|
                #![trigger all[j]]
                0 <= j < i ==> !(all[j].0 == name@),
        decreases ls.len() - i,
    {
        let l = &ls[i];
        assert(all[i as int] == (l.0@, l.1@));
        if str_eq(&l.0, name) {
            return true;
        }
        i += 1;
    }
    false
}

/// What [`collect_branch_var_leaves`] computes.
pub open spec fn collect_branch_var_leaves_spec(
    e: TypedExprView,
    cx: ContextView,
    out: Seq<(Seq<char>, TypeView)>,
) -> Seq<(Seq<char>, TypeView)>
    decreases e, 0int,
{
    match e.kind {
        TypedExprKindView::Var(name) => if crate::scope::copies_spec(e.ty, cx) || has_leaf_spec(
            out,
            name,
        ) {
            out
        } else {
            out.push((name, e.ty))
        },
        TypedExprKindView::IfExpr { then_value, else_value, .. } => {
            let out = collect_branch_var_leaves_spec(*then_value, cx, out);
            collect_branch_var_leaves_spec(*else_value, cx, out)
        },
        TypedExprKindView::Match { arms, .. } => collect_arm_var_leaves_spec(arms, cx, out, 0),
        TypedExprKindView::Block { tail, .. } => collect_branch_var_leaves_spec(*tail, cx, out),
        _ => out,
    }
}

/// The variables that an expression may yield, of types that own something.
pub fn collect_branch_var_leaves(
    e: &TypedExpr,
    cx: &Context,
    out: Vec<(String, Type)>,
) -> (r: Vec<(String, Type)>)
    ensures
        crate::ir::named_types_view(r@) == collect_branch_var_leaves_spec(
            e@,
            cx@,
            crate::ir::named_types_view(out@),
        ),
    decreases e, 0int,
{
    match &e.kind {
        TypedExprKind::Var(name) => if copies(&e.ty, cx) || has_leaf(&out, name) {
            out
        } else {
            push(out, (name.clone(), e.ty.dup()))
        },
        TypedExprKind::IfExpr { then_value, else_value, .. } => {
            let out = collect_branch_var_leaves(&**then_value, cx, out);
            collect_branch_var_leaves(&**else_value, cx, out)
        },
        TypedExprKind::Match { arms, .. } => collect_arm_var_leaves(arms, cx, out),
        TypedExprKind::Block { tail, .. } => collect_branch_var_leaves(&**tail, cx, out),
        _ => out,
    }
}

/// What [`collect_arm_var_leaves`] computes from position `i` on.
pub open spec fn collect_arm_var_leaves_spec(
    arms: Seq<TypedMatchArmView>,
    cx: ContextView,
    out: Seq<(Seq<char>, TypeView)>,
    i: int,
) -> Seq<(Seq<char>, TypeView)>
    decreases arms, arms.len() - i,
{
    if 0 <= i < arms.len() {
        let a = arms[i];
        let out = collect_branch_var_leaves_spec(a.body, cx, out);
        collect_arm_var_leaves_spec(arms, cx, out, i + 1)
    } else {
        out
    }
}

/// Adds what the arms of a match may yield.
pub fn collect_arm_var_leaves(
    arms: &Vec<TypedMatchArm>,
    cx: &Context,
    out: Vec<(String, Type)>,
) -> (r: Vec<(String, Type)>)
    ensures
        crate::ir::named_types_view(r@) == collect_arm_var_leaves_spec(
            crate::ir::typed_arms_view(arms@),
            cx@,
            crate::ir::named_types_view(out@),
            0,
        ),
    decreases arms, arms.len(),
{
    let ghost whole_run = collect_arm_var_leaves_spec(
        crate::ir::typed_arms_view(arms@),
        cx@,
        crate::ir::named_types_view(out@),
        0,
    );
    let mut out = out;
    let mut i: usize = 0;
    while i < arms.len()
        invariant
            i <= arms.len(),
            collect_arm_var_leaves_spec(
                crate::ir::typed_arms_view(arms@),
                cx@,
                crate::ir::named_types_view(out@),
                i as int,
            ) == whole_run,
        decreases arms.len() - i,
    {
        let a = &arms[i];
        out = collect_branch_var_leaves(&a.body, cx, out);
        i += 1;
    }
    out
}

/// What [`add_missing`] computes from position `i` on.
pub open spec fn add_missing_spec(
    ls: Seq<(Seq<char>, TypeView)>,
    mine: Seq<(Seq<char>, TypeView)>,
    out: Seq<(Seq<char>, TypeView)>,
    i: int,
) -> Seq<(Seq<char>, TypeView)>
    decreases ls.len() - i,
{
    if 0 <= i < ls.len() {
        let l = ls[i];
        let out = if has_leaf_spec(mine, l.0) || has_leaf_spec(out, l.0) {
            out
        } else {
            out.push((l.0, l.1))
        };
        add_missing_spec(ls, mine, out, i + 1)
    } else {
        out
    }
}

/// Adds the leaves of another branch that this one does not yield.
pub fn add_missing(
    ls: &Vec<(String, Type)>,
    mine: &Vec<(String, Type)>,
    out: Vec<(String, Type)>,
) -> (r: Vec<(String, Type)>)
    ensures
        crate::ir::named_types_view(r@) == add_missing_spec(
            crate::ir::named_types_view(ls@),
            crate::ir::named_types_view(mine@),
            crate::ir::named_types_view(out@),
            0,
        ),
{
    let ghost whole_run = add_missing_spec(
        crate::ir::named_types_view(ls@),
        crate::ir::named_types_view(mine@),
        crate::ir::named_types_view(out@),
        0,
    );
    let mut out = out;
    let mut i: usize = 0;
    while i < ls.len()
        invariant
            i <= ls.len(),
            add_missing_spec(
                crate::ir::named_types_view(ls@),
                crate::ir::named_types_view(mine@),
                crate::ir::named_types_view(out@),
                i as int,
            ) == whole_run,
        decreases ls.len() - i,
    {
        let l = &ls[i];
        out = if has_leaf(mine, &l.0) || has_leaf(&out, &l.0) {
            out
        } else {
            push(out, (l.0.clone(), l.1.dup()))
        };
        i += 1;
    }
    out
}

/// What [`leaves_of_others`] computes from position `i` on.
pub open spec fn leaves_of_others_spec(
    arms: Seq<TypedMatchArmView>,
    skip: int,
    mine: Seq<(Seq<char>, TypeView)>,
    cx: ContextView,
    out: Seq<(Seq<char>, TypeView)>,
    i: int,
) -> Seq<(Seq<char>, TypeView)>
    decreases arms.len() - i,
{
    if 0 <= i < arms.len() {
        let a = arms[i];
        let out = if i == skip {
            out
        } else {
            add_missing_spec(collect_branch_var_leaves_spec(a.body, cx, Seq::empty()), mine, out, 0)
        };
        leaves_of_others_spec(arms, skip, mine, cx, out, i + 1)
    } else {
        out
    }
}

/// Adds what the other arms may yield and this one does not.
pub fn leaves_of_others(
    arms: &Vec<TypedMatchArm>,
    skip: usize,
    mine: &Vec<(String, Type)>,
    cx: &Context,
    out: Vec<(String, Type)>,
) -> (r: Vec<(String, Type)>)
    ensures
        crate::ir::named_types_view(r@) == leaves_of_others_spec(
            crate::ir::typed_arms_view(arms@),
            skip as int,
            crate::ir::named_types_view(mine@),
            cx@,
            crate::ir::named_types_view(out@),
            0,
        ),
{
    let ghost whole_run = leaves_of_others_spec(
        crate::ir::typed_arms_view(arms@),
        skip as int,
        crate::ir::named_types_view(mine@),
        cx@,
        crate::ir::named_types_view(out@),
        0,
    );
    let mut out = out;
    let mut i: usize = 0;
    while i < arms.len()
        invariant
            i <= arms.len(),
            leaves_of_others_spec(
                crate::ir::typed_arms_view(arms@),
                skip as int,
                crate::ir::named_types_view(mine@),
                cx@,
                crate::ir::named_types_view(out@),
                i as int,
            ) == whole_run,
        decreases arms.len() - i,
    {
        let a = &arms[i];
        out = if i == skip {
            out
        } else {
            add_missing(&collect_branch_var_leaves(&a.body, cx, Vec::new()), mine, out)
        };
        i += 1;
    }
    out
}

/// What [`drop_stmts`] computes.
pub open spec fn drop_stmts_spec(ls: Seq<(Seq<char>, TypeView)>) -> Seq<TypedStmtView>
{
    ls.map_values(
        |l: (Seq<char>, TypeView)| TypedStmtView::Drop {
            name: l.0,
            ty: l.1,
            moved_fields: Seq::empty(),
        },
    )
}

/// The drops of variables.
pub fn drop_stmts(ls: &Vec<(String, Type)>) -> (r: Vec<TypedStmt>)
    ensures
        crate::ir::typed_stmts_view(r@) == drop_stmts_spec(crate::ir::named_types_view(ls@)),
{
    let ghost whole = drop_stmts_spec(crate::ir::named_types_view(ls@));
    let ghost all = crate::ir::named_types_view(ls@);
    let mut r: Vec<TypedStmt> = Vec::new();
    let mut i: usize = 0;
    while i < ls.len()
        invariant
            i <= ls.len(),
            all == crate::ir::named_types_view(ls@),
            whole == drop_stmts_spec(crate::ir::named_types_view(ls@)),
            crate::ir::typed_stmts_view(r@) == whole.take(i as int),
        decreases ls.len() - i,
    {
        let l = &ls[i];
        assert(all[i as int] == (l.0@, l.1@));
        r.push(TypedStmt::Drop { name: l.0.clone(), ty: l.1.dup(), moved_fields: Vec::new() });
        assert(whole.take(i + 1) =~= whole.take(i as int).push(whole[i as int]));
        i += 1;
    }
    assert(whole.take(i as int) =~= whole);
    r
}

/// What [`wrap_branch_with_drops`] computes.
pub open spec fn wrap_branch_with_drops_spec(
    branch: TypedExprView,
    drops: Seq<(Seq<char>, TypeView)>,
) -> TypedExprView
{
    if drops.len() == 0 {
        branch
    } else {
        let ty = branch.ty;
        let span = branch.span;
        let kind = TypedExprKindView::Block {
            stmts: drop_stmts_spec(drops),
            tail: Box::new(branch),
        };
        crate::scope::typed_spec(kind, ty, None, span)
    }
}

/// A branch that first drops the given variables.
pub fn wrap_branch_with_drops(branch: TypedExpr, drops: &Vec<(String, Type)>) -> (r: TypedExpr)
    ensures
        r@ == wrap_branch_with_drops_spec(branch@, crate::ir::named_types_view(drops@)),
{
    if drops.len() == 0 {
        branch
    } else {
        let ty = branch.ty.dup();
        let span = branch.span;
        let kind = TypedExprKind::Block { stmts: drop_stmts(drops), tail: Box::new(branch) };
        typed(kind, ty, None, span)
    }
}

/// What [`inject_branch_drops`] computes.
pub open spec fn inject_branch_drops_spec(e: TypedExprView, cx: ContextView) -> TypedExprView
    decreases e, 0int,
{
    match e.kind {
        TypedExprKindView::IfExpr { cond, then_value, else_value } => {
            let then_vars = collect_branch_var_leaves_spec(*then_value, cx, Seq::empty());
            let else_vars = collect_branch_var_leaves_spec(*else_value, cx, Seq::empty());
            let then_drops = add_missing_spec(else_vars, then_vars, Seq::empty(), 0);
            let else_drops = add_missing_spec(then_vars, else_vars, Seq::empty(), 0);
            let then_value = wrap_branch_with_drops_spec(
                inject_branch_drops_spec(*then_value, cx),
                then_drops,
            );
            let else_value = wrap_branch_with_drops_spec(
                inject_branch_drops_spec(*else_value, cx),
                else_drops,
            );
            let kind = TypedExprKindView::IfExpr {
                cond: Box::new((*cond)),
                then_value: Box::new(then_value),
                else_value: Box::new(else_value),
            };
            TypedExprView { kind, ..e }
        },
        TypedExprKindView::Match { scrutinee, arms } => {
            let kind = TypedExprKindView::Match {
                scrutinee: Box::new((*scrutinee)),
                arms: inject_arm_drops_spec(arms, arms, cx, Seq::empty(), 0),
            };
            TypedExprView { kind, ..e }
        },
        TypedExprKindView::Block { stmts, tail } => {
            let kind = TypedExprKindView::Block {
                stmts: (stmts),
                tail: Box::new(inject_branch_drops_spec(*tail, cx)),
            };
            TypedExprView { kind, ..e }
        },
        _ => e,
    }
}

/// The expression with each branch dropping what only other branches yield.
pub fn inject_branch_drops(e: &TypedExpr, cx: &Context) -> (r: TypedExpr)
    ensures
        r@ == inject_branch_drops_spec(e@, cx@),
    decreases e, 0int,
{
    match &e.kind {
        TypedExprKind::IfExpr { cond, then_value, else_value } => {
            let then_vars = collect_branch_var_leaves(&**then_value, cx, Vec::new());
            let else_vars = collect_branch_var_leaves(&**else_value, cx, Vec::new());
            let then_drops = add_missing(&else_vars, &then_vars, Vec::new());
            let else_drops = add_missing(&then_vars, &else_vars, Vec::new());
            let then_value = wrap_branch_with_drops(
                inject_branch_drops(&**then_value, cx),
                &then_drops,
            );
            let else_value = wrap_branch_with_drops(
                inject_branch_drops(&**else_value, cx),
                &else_drops,
            );
            let kind = TypedExprKind::IfExpr {
                cond: Box::new((**cond).dup()),
                then_value: Box::new(then_value),
                else_value: Box::new(else_value),
            };
            TypedExpr { kind, ..e.dup() }
        },
        TypedExprKind::Match { scrutinee, arms } => {
            let kind = TypedExprKind::Match {
                scrutinee: Box::new((**scrutinee).dup()),
                arms: inject_arm_drops(arms, arms, cx, Vec::new()),
            };
            TypedExpr { kind, ..e.dup() }
        },
        TypedExprKind::Block { stmts, tail } => {
            let kind = TypedExprKind::Block {
                stmts: dup_typed_stmts(stmts),
                tail: Box::new(inject_branch_drops(&**tail, cx)),
            };
            TypedExpr { kind, ..e.dup() }
        },
        _ => e.dup(),
    }
}

/// What [`inject_arm_drops`] computes from position `i` on.
pub open spec fn inject_arm_drops_spec(
    arms: Seq<TypedMatchArmView>,
    all: Seq<TypedMatchArmView>,
    cx: ContextView,
    out: Seq<TypedMatchArmView>,
    i: int,
) -> Seq<TypedMatchArmView>
    decreases arms, arms.len() - i,
{
    if 0 <= i < arms.len() {
        let a = arms[i];
        let out = {
            let mine = collect_branch_var_leaves_spec(a.body, cx, Seq::empty());
            let drops = leaves_of_others_spec(all, i, mine, cx, Seq::empty(), 0);
            let body = wrap_branch_with_drops_spec(inject_branch_drops_spec(a.body, cx), drops);
            out.push(TypedMatchArmView { body, ..a })
        };
        inject_arm_drops_spec(arms, all, cx, out, i + 1)
    } else {
        out
    }
}

/// Adds arms that drop what only other arms yield.
pub fn inject_arm_drops(
    arms: &Vec<TypedMatchArm>,
    all: &Vec<TypedMatchArm>,
    cx: &Context,
    out: Vec<TypedMatchArm>,
) -> (r: Vec<TypedMatchArm>)
    ensures
        crate::ir::typed_arms_view(r@) == inject_arm_drops_spec(
            crate::ir::typed_arms_view(arms@),
            crate::ir::typed_arms_view(all@),
            cx@,
            crate::ir::typed_arms_view(out@),
            0,
        ),
    decreases arms, arms.len(),
{
    let ghost whole_run = inject_arm_drops_spec(
        crate::ir::typed_arms_view(arms@),
        crate::ir::typed_arms_view(all@),
        cx@,
        crate::ir::typed_arms_view(out@),
        0,
    );
    let mut out = out;
    let mut i: usize = 0;
    while i < arms.len()
        invariant
            i <= arms.len(),
            inject_arm_drops_spec(
                crate::ir::typed_arms_view(arms@),
                crate::ir::typed_arms_view(all@),
                cx@,
                crate::ir::typed_arms_view(out@),
                i as int,
            ) == whole_run,
        decreases arms.len() - i,
    {
        let a = &arms[i];
        out = {
            let mine = collect_branch_var_leaves(&a.body, cx, Vec::new());
            let drops = leaves_of_others(all, i, &mine, cx, Vec::new());
            let body = wrap_branch_with_drops(inject_branch_drops(&a.body, cx), &drops);
            push(out, TypedMatchArm { body, ..a.dup() })
        };
        i += 1;
    }
    out
}

/// What [`mark_moved`] computes.
pub open spec fn mark_moved_spec(env: EnvView, name: Seq<char>, span: Span) -> EnvView
{
    match crate::scope::lookup_spec(env, name) {
        Some(info) => if info.moved.is_some() {
            env
        } else {
            crate::scope::set_var_spec(env, name, VarInfoView { moved: Some(span), ..info })
        },
        None => env,
    }
}

/// Marks a variable as moved at a place, unless it was moved before.
pub fn mark_moved(env: Env, name: &str, span: Span) -> (r: Env)
    ensures
        r@ == mark_moved_spec(env@, name@, span),
        crate::state::same_scopes(env@, r@),
{
    match lookup(&env, name) {
        Some(info) => if info.moved.is_some() {
            env
        } else {
            set_var(env, name, &VarInfo { moved: Some(span), ..info })
        },
        None => env,
    }
}

/// What [`mark_field_moved`] computes.
pub open spec fn mark_field_moved_spec(
    env: EnvView,
    name: Seq<char>,
    field: Seq<char>,
    span: Span,
) -> EnvView
{
    match crate::scope::lookup_spec(env, name) {
        Some(info) => if crate::scope::moved_field_has_spec(info.moved_fields, field) {
            env
        } else {
            let moved_fields = crate::scope::moved_field_put_spec(info.moved_fields, field, span);
            crate::scope::set_var_spec(env, name, VarInfoView { moved_fields, ..info })
        },
        None => env,
    }
}

/// Marks a field of a variable as moved out.
pub fn mark_field_moved(env: Env, name: &str, field: &str, span: Span) -> (r: Env)
    ensures
        r@ == mark_field_moved_spec(env@, name@, field@, span),
        crate::state::same_scopes(env@, r@),
{
    match lookup(&env, name) {
        Some(info) => if moved_field_has(&info.moved_fields, field) {
            env
        } else {
            let moved_fields = moved_field_put(&info.moved_fields, field, span);
            set_var(env, name, &VarInfo { moved_fields, ..info })
        },
        None => env,
    }
}

/// What [`consume_source`] computes.
pub open spec fn consume_source_spec(source: ExprView, env: EnvView) -> EnvView
    decreases source, 0int,
{
    match source.kind {
        ExprKindView::Var(name) => mark_moved_spec(env, name, source.span),
        ExprKindView::FieldAccess { object, field } => match object.kind {
            ExprKindView::Var(name) => mark_field_moved_spec(env, name, field, source.span),
            _ => env,
        },
        ExprKindView::IfExpr { then_value, else_value, .. } => {
            let env = consume_source_spec(*then_value, env);
            consume_source_spec(*else_value, env)
        },
        ExprKindView::Match { arms, .. } => consume_arms_spec(arms, env, 0),
        ExprKindView::Block { tail, .. } => consume_source_spec(*tail, env),
        _ => env,
    }
}

/// Marks what an expression moves when its value is taken: a variable, a
/// field, or what any of its branches yields.
pub fn consume_source(source: &Expr, env: Env) -> (r: Env)
    ensures
        r@ == consume_source_spec(source@, env@),
        crate::state::same_scopes(env@, r@),
    decreases source, 0int,
{
    proof {
        reveal_with_fuel(crate::ast::expr_view, 4);
        reveal_with_fuel(crate::ast::expr_kind_view, 4);
        reveal_with_fuel(crate::ast::stmt_view, 3);
        reveal_with_fuel(crate::ast::exprs_view, 3);
        reveal_with_fuel(crate::ast::stmts_view, 3);
        reveal_with_fuel(crate::ast::arms_view, 3);
        reveal_with_fuel(crate::ast::match_arm_view, 3);
    }
    match &source.kind {
        ExprKind::Var(name) => mark_moved(env, name, source.span),
        ExprKind::FieldAccess { object, field } => match &object.kind {
            ExprKind::Var(name) => mark_field_moved(env, name, field, source.span),
            _ => env,
        },
        ExprKind::IfExpr { then_value, else_value, .. } => {
            let env = consume_source(&**then_value, env);
            consume_source(&**else_value, env)
        },
        ExprKind::Match { arms, .. } => consume_arms(arms, env),
        ExprKind::Block { tail, .. } => consume_source(&**tail, env),
        _ => env,
    }
}

/// What [`consume_arms`] computes from position `i` on.
pub open spec fn consume_arms_spec(arms: Seq<MatchArmView>, env: EnvView, i: int) -> EnvView
    decreases arms, arms.len() - i,
{
    if 0 <= i < arms.len() {
        let a = arms[i];
        let env = consume_source_spec(a.body, env);
        consume_arms_spec(arms, env, i + 1)
    } else {
        env
    }
}

/// Marks what the arms of a match move.
pub fn consume_arms(arms: &Vec<MatchArm>, env: Env) -> (r: Env)
    ensures
        r@ == consume_arms_spec(crate::ast::arms_view(arms@), env@, 0),
        crate::state::same_scopes(env@, r@),
    decreases arms, arms.len(),
{
    let ghost whole_run = consume_arms_spec(crate::ast::arms_view(arms@), env@, 0);
    let ghost start_env = env@;
    let mut env = env;
    let mut i: usize = 0;
    while i < arms.len()
        invariant
            i <= arms.len(),
            consume_arms_spec(crate::ast::arms_view(arms@), env@, i as int) == whole_run,
            crate::state::same_scopes(start_env, env@),
        decreases arms.len() - i,
    {
        let a = &arms[i];
        env = consume_source(&a.body, env);
        i += 1;
    }
    env
}

/// What [`consume_if_moved_var`] computes.
#[verifier::opaque]
pub open spec fn consume_if_moved_var_spec(
    source: ExprView,
    t: TypeView,
    cx: ContextView,
    env: EnvView,
) -> EnvView
{
    if crate::scope::copies_spec(t, cx) { env } else { consume_source_spec(source, env) }
}

/// [`consume_source`] where the value is of a type that moves.
pub fn consume_if_moved_var(source: &Expr, t: &Type, cx: &Context, env: Env) -> (r: Env)
    ensures
        r@ == consume_if_moved_var_spec(source@, t@, cx@, env@),
        crate::state::same_scopes(env@, r@),
{
    proof {
        reveal(consume_if_moved_var_spec);
    }
    if copies(t, cx) { env } else { consume_source(source, env) }
}

/// What [`take_value`] computes.
#[verifier::opaque]
pub open spec fn take_value_spec(
    source: ExprView,
    c: TypedExprView,
    cx: ContextView,
    st: StateView,
) -> (TypedExprView, StateView)
{
    let env = consume_if_moved_var_spec(source, c.ty, cx, st.env);
    (inject_branch_drops_spec(c, cx), StateView { env, ..st })
}

/// The value of an expression taken over: what it moves is marked, and its
/// branches drop what they do not yield.
pub fn take_value(source: &Expr, c: TypedExpr, cx: &Context, st: State) -> (r: (TypedExpr, State))
    ensures
        (r.0@, r.1@) == take_value_spec(source@, c@, cx@, st@),
        r.0@.ty == c@.ty,
        crate::state::follows(st@, r.1@),
        crate::state::balanced(st@, r.1@),
        crate::state::same_facts(st@, r.1@),
        crate::typing::well_typed(c@, crate::typing::declared_in(cx@, st@.env))
            && st@.env.scopes.len() > 0
            && crate::typing::quiet(st@, r.1@)
            ==> crate::typing::well_typed(r.0@, crate::typing::declared_in(cx@, st@.env)),
{
    proof {
        reveal(take_value_spec);
        reveal(crate::typing::stmt_typed);
        if crate::typing::well_typed(c@, crate::typing::declared_in(cx@, st@.env)) {
            injected_drops_fit(c@, cx@, crate::typing::declared_in(cx@, st@.env));
        }
    }
    let env = consume_if_moved_var(source, &c.ty, cx, st.env);
    (inject_branch_drops(&c, cx), State { env, ..st })
}

/// What [`owned_drops`] computes.
pub open spec fn owned_drops_spec(
    bs: Seq<(Seq<char>, VarInfoView)>,
    cx: ContextView,
) -> Seq<TypedStmtView>
{
    bs.filter(
        |b: (Seq<char>, VarInfoView)| !crate::scope::copies_spec(b.1.ty, cx) && b.1.moved.is_none()
            && !b.1.no_drop,
    ).map_values(|b: (Seq<char>, VarInfoView)| TypedStmtView::Drop {
        name: b.0,
        ty: b.1.ty,
        moved_fields: crate::effects::field_names_spec(b.1.moved_fields),
    })
}

/// The drops of the bindings of a scope that still own a value.
pub fn owned_drops(bs: &Vec<(String, VarInfo)>, cx: &Context) -> (r: Vec<TypedStmt>)
    ensures
        crate::ir::typed_stmts_view(r@) == owned_drops_spec(crate::state::scope_view(bs@), cx@),
{
    let ghost all = crate::state::scope_view(bs@);
    let mut r: Vec<TypedStmt> = Vec::new();
    let mut i: usize = 0;
    proof {
        reveal(Seq::filter);
        assert(all.take(0) =~= Seq::empty());
    }
    while i < bs.len()
        invariant
            i <= bs.len(),
            all == crate::state::scope_view(bs@),
            crate::ir::typed_stmts_view(r@) == owned_drops_spec(all.take(i as int), cx@),
        decreases bs.len() - i,
    {
        let b = &bs[i];
        proof {
            reveal(Seq::filter);
            assert(all[i as int] == (b.0@, b.1@));
            assert(all.take(i + 1).drop_last() =~= all.take(i as int));
            assert(all.take(i + 1).last() == all[i as int]);
        }
        if !copies(&b.1.ty, cx) && b.1.moved.is_none() && !b.1.no_drop {
            r.push(TypedStmt::Drop {
            name: b.0.clone(),
            ty: b.1.ty.dup(),
            moved_fields: field_names(&b.1.moved_fields),
        });
        }
        i += 1;
    }
    assert(all.take(i as int) =~= all);
    r
}

/// What [`drops_from`] computes.
pub open spec fn drops_from_spec(
    scopes: Seq<Seq<(Seq<char>, VarInfoView)>>,
    n: int,
    depth: int,
    cx: ContextView,
    out: Seq<TypedStmtView>,
) -> Seq<TypedStmtView>
    decreases n,
{
    if n < 1 || n < depth {
        out
    } else {
        drops_from_spec(scopes, n - 1, depth, cx, out + owned_drops_spec(scopes[n - 1], cx))
    }
}

/// The drops of the first `n` scopes down to the one at `depth`, innermost
/// first; scopes are counted from one.
pub fn drops_from(
    scopes: &Vec<Vec<(String, VarInfo)>>,
    n: usize,
    depth: usize,
    cx: &Context,
    out: Vec<TypedStmt>,
) -> (r: Vec<TypedStmt>)
    requires
        n <= scopes.len(),
    ensures
        crate::ir::typed_stmts_view(r@) == drops_from_spec(
            crate::state::scopes_view(scopes@),
            n as int,
            depth as int,
            cx@,
            crate::ir::typed_stmts_view(out@),
        ),
        crate::state::grows(crate::ir::typed_stmts_view(out@), crate::ir::typed_stmts_view(r@)),
        forall|ret: TypeView, d: Declared|
            #![trigger crate::typing::body_typed(crate::ir::typed_stmts_view(out@), ret, d)]
            #![trigger crate::typing::body_typed(crate::ir::typed_stmts_view(r@), ret, d)]
            crate::typing::body_typed(crate::ir::typed_stmts_view(out@), ret, d)
                ==> crate::typing::body_typed(crate::ir::typed_stmts_view(r@), ret, d),
    decreases n,
{
    proof {
        reveal(crate::typing::stmt_typed);
        assert(
            forall|more: Seq<TypedStmtView>| crate::state::grows(
                crate::ir::typed_stmts_view(out@),
                #[trigger] (crate::ir::typed_stmts_view(out@) + more),
            )
        );
    }
    if n < 1 || n < depth {
        out
    } else {
        drops_from(scopes, n - 1, depth, cx, join(out, owned_drops(&scopes[n - 1], cx)))
    }
}

/// What [`emit_drops_through_loop`] computes.
pub open spec fn emit_drops_through_loop_spec(
    env: EnvView,
    depth: int,
    cx: ContextView,
    out: Seq<TypedStmtView>,
) -> Seq<TypedStmtView>
{
    drops_from_spec(env.scopes, (env.scopes.len() as int), depth, cx, out)
}

/// A `drop` for every binding that owns a value and was made inside the loop
/// whose body scope is at `depth`.
pub fn emit_drops_through_loop(
    env: &Env,
    depth: usize,
    cx: &Context,
    out: Vec<TypedStmt>,
) -> (r: Vec<TypedStmt>)
    ensures
        crate::ir::typed_stmts_view(r@) == emit_drops_through_loop_spec(
            env@,
            depth as int,
            cx@,
            crate::ir::typed_stmts_view(out@),
        ),
        crate::state::grows(crate::ir::typed_stmts_view(out@), crate::ir::typed_stmts_view(r@)),
        forall|ret: TypeView, d: Declared|
            #![trigger crate::typing::body_typed(crate::ir::typed_stmts_view(out@), ret, d)]
            #![trigger crate::typing::body_typed(crate::ir::typed_stmts_view(r@), ret, d)]
            crate::typing::body_typed(crate::ir::typed_stmts_view(out@), ret, d)
                ==> crate::typing::body_typed(crate::ir::typed_stmts_view(r@), ret, d),
{
    proof {
        reveal(crate::typing::stmt_typed);
    }
    drops_from(&env.scopes, env.scopes.len(), depth, cx, out)
}

/// What [`validate_array_element_type`] computes.
pub open spec fn validate_array_element_type_spec(
    t: TypeView,
    span: Span,
    cx: ContextView,
    st: StateView,
) -> StateView
{
    match t {
        TypeView::Array {
            element,
            ..
        } => if !crate::scope::copies_spec(*element, cx) || crate::types::is_ref_spec(*element) {
            let message = "array element type must be Copy and non-reference, got "@
                + crate::ast::type_text_spec(*element);
            crate::scope::report_spec(st, span, message)
        } else {
            st
        },
        TypeView::Vec(element) => if crate::types::is_ref_spec(*element) {
            let message = "Vec element type cannot be a reference, got "@
                + crate::ast::type_text_spec(*element);
            crate::scope::report_spec(st, span, message)
        } else {
            st
        },
        _ => st,
    }
}

/// Reports an element type that an array or vector may not have.
pub fn validate_array_element_type(t: &Type, span: Span, cx: &Context, st: State) -> (r: State)
    ensures
        r@ == validate_array_element_type_spec(t@, span, cx@, st@),
        crate::state::follows(st@, r@),
        crate::state::balanced(st@, r@),
        crate::state::same_facts(st@, r@),
{
    match t {
        Type::Array { element, .. } => if !copies(&**element, cx) || is_ref(&**element) {
            let message = cat2(
                "array element type must be Copy and non-reference, got ",
                &type_text(&**element),
            );
            report(st, span, message)
        } else {
            st
        },
        Type::Vec(element) => if is_ref(&**element) {
            let message = cat2(
                "Vec element type cannot be a reference, got ",
                &type_text(&**element),
            );
            report(st, span, message)
        } else {
            st
        },
        _ => st,
    }
}

/// What [`validate_param_type`] computes.
pub open spec fn validate_param_type_spec(
    t: TypeView,
    span: Span,
    cx: ContextView,
    st: StateView,
) -> StateView
{
    let st = match t {
        TypeView::Ref(inner) => if crate::types::is_ref_spec(*inner) {
            crate::scope::report_spec(st, span, "parameter cannot be a reference to a reference"@)
        } else {
            st
        },
        _ => st,
    };
    validate_array_element_type_spec(t, span, cx, st)
}

/// Reports a type that a parameter may not have.
pub fn validate_param_type(t: &Type, span: Span, cx: &Context, st: State) -> (r: State)
    ensures
        r@ == validate_param_type_spec(t@, span, cx@, st@),
        crate::state::follows(st@, r@),
        crate::state::balanced(st@, r@),
        crate::state::same_facts(st@, r@),
{
    let st = match t {
        Type::Ref(inner) => if is_ref(&**inner) {
            report(st, span, text("parameter cannot be a reference to a reference"))
        } else {
            st
        },
        _ => st,
    };
    validate_array_element_type(t, span, cx, st)
}

proof fn leaf_behind(ls: Seq<(Seq<char>, TypeView)>, l: (Seq<char>, TypeView), name: Seq<char>)
    ensures
        has_leaf_spec(ls.push(l), name) == (has_leaf_spec(ls, name) || l.0 == name),
{
    let more = ls.push(l);
    assert(more[ls.len() as int] == l);
    if has_leaf_spec(ls, name) {
        let k = choose|k: int| #![trigger ls[k]] 0 <= k < ls.len() && ls[k].0 == name;
        assert(more[k] == ls[k]);
    }
}

proof fn leaves_from_are_added(
    ls: Seq<(Seq<char>, TypeView)>,
    mine: Seq<(Seq<char>, TypeView)>,
    out: Seq<(Seq<char>, TypeView)>,
    name: Seq<char>,
    i: int,
)
    requires
        0 <= i <= ls.len(),
    ensures
        has_leaf_spec(
            add_missing_spec(ls, mine, out, i),
            name,
        ) == (has_leaf_spec(out, name) || (exists|
            k: int,
        |
            #![trigger ls[k]]
            i <= k < ls.len() && ls[k].0 == name) && !has_leaf_spec(mine, name)),
    decreases ls.len() - i,
{
    if i < ls.len() {
        let l = ls[i];
        leaf_behind(out, (l.0, l.1), name);
        if has_leaf_spec(mine, l.0) || has_leaf_spec(out, l.0) {
            leaves_from_are_added(ls, mine, out, name, i + 1);
        } else {
            leaves_from_are_added(ls, mine, out.push((l.0, l.1)), name, i + 1);
        }
    }
}

/// What a branch adds for another one: each variable that the other one yields
/// and it does not, once.
pub proof fn missing_leaves_are_added(
    ls: Seq<(Seq<char>, TypeView)>,
    mine: Seq<(Seq<char>, TypeView)>,
    out: Seq<(Seq<char>, TypeView)>,
    name: Seq<char>,
)
    ensures
        has_leaf_spec(add_missing_spec(ls, mine, out, 0), name) == (has_leaf_spec(out, name) || (
        has_leaf_spec(ls, name) && !has_leaf_spec(mine, name))),
{
    leaves_from_are_added(ls, mine, out, name, 0);
}

/// The variables that a branch may yield.
pub open spec fn leaves_of(e: TypedExprView, cx: ContextView) -> Seq<(Seq<char>, TypeView)> {
    collect_branch_var_leaves_spec(e, cx, Seq::empty())
}

/// Whether a branch may yield the variable.
pub open spec fn may_yield(e: TypedExprView, cx: ContextView, name: Seq<char>) -> bool {
    has_leaf_spec(leaves_of(e, cx), name)
}

/// Whether a list of variables to drop holds the given one.
pub open spec fn to_drop(drops: Seq<(Seq<char>, TypeView)>, name: Seq<char>) -> bool {
    has_leaf_spec(drops, name)
}

/// Both branches of a conditional settle the same variables: what one of them
/// may yield, the other one may yield or drops first, and never both.
pub proof fn branches_settle_the_same(e: TypedExprView, cx: ContextView, name: Seq<char>)
    requires
        e.kind is IfExpr,
    ensures
        e.kind matches TypedExprKindView::IfExpr { cond, then_value, else_value } && ({
            let then_drops = add_missing_spec(
                leaves_of(*else_value, cx),
                leaves_of(*then_value, cx),
                Seq::empty(),
                0,
            );
            let else_drops = add_missing_spec(
                leaves_of(*then_value, cx),
                leaves_of(*else_value, cx),
                Seq::empty(),
                0,
            );
            let settled = TypedExprKindView::IfExpr {
                cond,
                then_value: Box::new(
                    wrap_branch_with_drops_spec(
                        inject_branch_drops_spec(*then_value, cx),
                        then_drops,
                    ),
                ),
                else_value: Box::new(
                    wrap_branch_with_drops_spec(
                        inject_branch_drops_spec(*else_value, cx),
                        else_drops,
                    ),
                ),
            };
            &&& inject_branch_drops_spec(e, cx) == (TypedExprView { kind: settled, ..e })
            &&& to_drop(then_drops, name) == (may_yield(*else_value, cx, name) && !may_yield(
                *then_value,
                cx,
                name,
            ))
            &&& to_drop(else_drops, name) == (may_yield(*then_value, cx, name) && !may_yield(
                *else_value,
                cx,
                name,
            ))
        }),
{
    match e.kind {
        TypedExprKindView::IfExpr { cond, then_value, else_value } => {
            let a = leaves_of(*then_value, cx);
            let b = leaves_of(*else_value, cx);
            missing_leaves_are_added(b, a, Seq::empty(), name);
            missing_leaves_are_added(a, b, Seq::empty(), name);
        },
        _ => {},
    }
}

/// Whether an arm from position `i` on, other than the one at `skip`, may yield
/// the variable.
pub open spec fn other_may_yield(
    arms: Seq<TypedMatchArmView>,
    skip: int,
    cx: ContextView,
    name: Seq<char>,
    i: int,
) -> bool
    decreases arms.len() - i,
{
    0 <= i < arms.len() && ((i != skip && may_yield(arms[i].body, cx, name)) || other_may_yield(
        arms,
        skip,
        cx,
        name,
        i + 1,
    ))
}

proof fn leaves_of_others_added(
    arms: Seq<TypedMatchArmView>,
    skip: int,
    mine: Seq<(Seq<char>, TypeView)>,
    cx: ContextView,
    out: Seq<(Seq<char>, TypeView)>,
    name: Seq<char>,
    i: int,
)
    requires
        0 <= i <= arms.len(),
    ensures
        to_drop(
            leaves_of_others_spec(arms, skip, mine, cx, out, i),
            name,
        ) == (to_drop(out, name) || (
        other_may_yield(arms, skip, cx, name, i) && !to_drop(mine, name))),
    decreases arms.len() - i,
{
    if i < arms.len() {
        if i == skip {
            leaves_of_others_added(arms, skip, mine, cx, out, name, i + 1);
        } else {
            let ls = leaves_of(arms[i].body, cx);
            missing_leaves_are_added(ls, mine, out, name);
            leaves_of_others_added(
                arms,
                skip,
                mine,
                cx,
                add_missing_spec(ls, mine, out, 0),
                name,
                i + 1,
            );
        }
    }
}

/// An arm of a `match` drops exactly the variables that another arm may yield
/// and it may not.
pub proof fn arms_settle_the_same(
    arms: Seq<TypedMatchArmView>,
    k: int,
    cx: ContextView,
    name: Seq<char>,
)
    requires
        0 <= k < arms.len(),
    ensures
        to_drop(
            leaves_of_others_spec(arms, k, leaves_of(arms[k].body, cx), cx, Seq::empty(), 0),
            name,
        ) == (other_may_yield(arms, k, cx, name, 0) && !may_yield(arms[k].body, cx, name)),
{
    leaves_of_others_added(arms, k, leaves_of(arms[k].body, cx), cx, Seq::empty(), name, 0);
}

/// A variable whose value was taken counts as moved, at the place of the first
/// move; no other binding changes.
pub proof fn taken_variable_is_moved(env: EnvView, name: Seq<char>, span: Span, k: Seq<char>)
    ensures
        crate::scope::lookup_spec(
            mark_moved_spec(env, name, span),
            name,
        ) == match crate::scope::lookup_spec(env, name) {
            Some(info) => Some(
                VarInfoView {
                    moved: if info.moved is Some {
                        info.moved
                    } else {
                        Some(span)
                    },
                    ..info
                },
            ),
            None => None,
        },
        k != name
            ==> crate::scope::lookup_spec(
                mark_moved_spec(env, name, span),
                k,
            ) == crate::scope::lookup_spec(env, k),
{
    match crate::scope::lookup_spec(env, name) {
        Some(info) => {
            crate::scope::changed_binding_is_found(
                env,
                name,
                VarInfoView { moved: Some(span), ..info },
                k,
            );
        },
        None => {},
    }
}

/// Taking values only ever adds moves: nothing that was bound is lost, and what
/// was moved stays moved, at the same place.
pub open spec fn moves_kept(before: EnvView, after: EnvView) -> bool {
    forall|k: Seq<char>|
        match crate::scope::lookup_spec(before, k) {
            Some(info) => (#[trigger] crate::scope::lookup_spec(after, k)) matches Some(now) && now.ty == info.ty
                && (info.moved is Some ==> now.moved == info.moved),
            None => crate::scope::lookup_spec(after, k) is None,
        }
}

proof fn moved_field_kept(env: EnvView, name: Seq<char>, field: Seq<char>, span: Span)
    ensures
        moves_kept(env, mark_field_moved_spec(env, name, field, span)),
{
    match crate::scope::lookup_spec(env, name) {
        Some(info) => if !crate::scope::moved_field_has_spec(info.moved_fields, field) {
            let now = VarInfoView {
                moved_fields: crate::scope::moved_field_put_spec(info.moved_fields, field, span),
                ..info
            };
            assert forall|k: Seq<char>|
                match crate::scope::lookup_spec(env, k) {
                    Some(info) => (#[trigger] crate::scope::lookup_spec(
                        mark_field_moved_spec(env, name, field, span),
                        k,
                    )) matches Some(now) && now.ty == info.ty && (info.moved is Some ==> now.moved
                        == info.moved),
                    None => crate::scope::lookup_spec(
                        mark_field_moved_spec(env, name, field, span),
                        k,
                    ) is None,
                } by {
                crate::scope::changed_binding_is_found(env, name, now, k);
            }
        },
        None => {},
    }
}

proof fn moved_variable_kept(env: EnvView, name: Seq<char>, span: Span)
    ensures
        moves_kept(env, mark_moved_spec(env, name, span)),
{
    assert forall|k: Seq<char>|
        match crate::scope::lookup_spec(env, k) {
            Some(info) => (#[trigger] crate::scope::lookup_spec(mark_moved_spec(env, name, span), k)) matches Some(now)
                && now.ty == info.ty && (info.moved is Some ==> now.moved == info.moved),
            None => crate::scope::lookup_spec(mark_moved_spec(env, name, span), k) is None,
        } by {
        taken_variable_is_moved(env, name, span, k);
    }
}

/// Taking the value of an expression keeps what was moved before.
pub proof fn taking_keeps_moves(source: ExprView, env: EnvView)
    ensures
        moves_kept(env, consume_source_spec(source, env)),
    decreases source, 0int,
{
    match source.kind {
        ExprKindView::Var(name) => {
            moved_variable_kept(env, name, source.span);
        },
        ExprKindView::FieldAccess { object, field } => match object.kind {
            ExprKindView::Var(name) => {
                moved_field_kept(env, name, field, source.span);
            },
            _ => {},
        },
        ExprKindView::IfExpr { then_value, else_value, .. } => {
            taking_keeps_moves(*then_value, env);
            taking_keeps_moves(*else_value, consume_source_spec(*then_value, env));
        },
        ExprKindView::Match { arms, .. } => {
            taking_arms_keeps_moves(arms, env, 0);
        },
        ExprKindView::Block { tail, .. } => {
            taking_keeps_moves(*tail, env);
        },
        _ => {},
    }
}

proof fn taking_arms_keeps_moves(arms: Seq<MatchArmView>, env: EnvView, i: int)
    requires
        0 <= i <= arms.len(),
    ensures
        moves_kept(env, consume_arms_spec(arms, env, i)),
    decreases arms, arms.len() - i,
{
    if i < arms.len() {
        taking_keeps_moves(arms[i].body, env);
        taking_arms_keeps_moves(arms, consume_source_spec(arms[i].body, env), i + 1);
    }
}

/// A branch that first drops variables is as well typed as the branch.
proof fn wrapped_branch_fits(branch: TypedExprView, drops: Seq<(Seq<char>, TypeView)>, d: Declared)
    requires
        crate::typing::well_typed(branch, d),
    ensures
        crate::typing::well_typed(wrap_branch_with_drops_spec(branch, drops), d),
        wrap_branch_with_drops_spec(branch, drops).ty == branch.ty,
{
    reveal(crate::typing::well_typed);
}

/// Well-typed expressions stay so where their branches drop what they do not
/// yield.
pub proof fn injected_drops_fit(e: TypedExprView, cx: ContextView, d: Declared)
    requires
        crate::typing::well_typed(e, d),
    ensures
        crate::typing::well_typed(inject_branch_drops_spec(e, cx), d),
        inject_branch_drops_spec(e, cx).ty == e.ty,
    decreases e, 0int,
{
    match e.kind {
        TypedExprKindView::IfExpr { cond, then_value, else_value } => {
            assert(
                crate::typing::well_typed(*then_value, d)
                    && crate::typing::well_typed(*else_value, d)
            ) by {
                reveal(crate::typing::well_typed);
            }
            injected_drops_fit(*then_value, cx, d);
            injected_drops_fit(*else_value, cx, d);
            let then_vars = collect_branch_var_leaves_spec(*then_value, cx, Seq::empty());
            let else_vars = collect_branch_var_leaves_spec(*else_value, cx, Seq::empty());
            wrapped_branch_fits(
                inject_branch_drops_spec(*then_value, cx),
                add_missing_spec(else_vars, then_vars, Seq::empty(), 0),
                d,
            );
            wrapped_branch_fits(
                inject_branch_drops_spec(*else_value, cx),
                add_missing_spec(then_vars, else_vars, Seq::empty(), 0),
                d,
            );
            reveal(crate::typing::well_typed);
        },
        TypedExprKindView::Match { scrutinee, arms } => {
            assert(forall|i: int|
                0 <= i < arms.len() ==> crate::typing::well_typed((#[trigger] arms[i]).body, d)
                    && arms[i].body.ty == e.ty) by {
                reveal(crate::typing::well_typed);
            }
            injected_arms_fit(arms, arms, cx, d, e.ty, Seq::empty(), 0);
            reveal(crate::typing::well_typed);
            same_choices_exhaust(
                arms,
                inject_arm_drops_spec(arms, arms, cx, Seq::empty(), 0),
                scrutinee.ty,
                d,
            );
        },
        TypedExprKindView::Block { stmts, tail } => {
            assert(crate::typing::well_typed(*tail, d)) by {
                reveal(crate::typing::well_typed);
            }
            injected_drops_fit(*tail, cx, d);
            reveal(crate::typing::well_typed);
        },
        _ => {},
    }
}

/// Whether two arms are chosen for the same values.
pub open spec fn same_choice(a: TypedMatchArmView, b: TypedMatchArmView) -> bool {
    a.variant == b.variant && a.is_wildcard == b.is_wildcard && a.int_value == b.int_value
}

/// Arms that are chosen for the same values leave nothing out.
proof fn same_choices_exhaust(
    a: Seq<TypedMatchArmView>,
    b: Seq<TypedMatchArmView>,
    ty: TypeView,
    d: Declared,
)
    requires
        crate::typing::arms_exhaust(a, ty, d),
        a.len() == b.len(),
        forall|j: int| 0 <= j < b.len() ==> same_choice(#[trigger] b[j], a[j]),
    ensures
        crate::typing::arms_exhaust(b, ty, d),
{
    assert forall|v: i128| crate::typing::has_value_arm(
        a,
        v,
    ) implies #[trigger] crate::typing::has_value_arm(b, v) by {
        let i = choose|i: int| 0 <= i < a.len() && (#[trigger] a[i]).int_value == Some(v);
        assert(same_choice(b[i], a[i]));
    }
    assert forall|v: Seq<char>| crate::typing::has_variant_arm(
        a,
        v,
    ) implies #[trigger] crate::typing::has_variant_arm(b, v) by {
        let i = choose|i: int| 0 <= i < a.len() && (#[trigger] a[i]).variant == v;
        assert(same_choice(b[i], a[i]));
    }
    if crate::typing::has_wildcard_arm(a) {
        let i = choose|i: int| 0 <= i < a.len() && (#[trigger] a[i]).is_wildcard;
        assert(same_choice(b[i], a[i]));
    }
}

/// So do the arms of a match.
proof fn injected_arms_fit(
    arms: Seq<TypedMatchArmView>,
    all: Seq<TypedMatchArmView>,
    cx: ContextView,
    d: Declared,
    t: TypeView,
    out: Seq<TypedMatchArmView>,
    i: int,
)
    requires
        0 <= i <= arms.len(),
        forall|j: int|
            0 <= j < arms.len() ==> crate::typing::well_typed((#[trigger] arms[j]).body, d)
                && arms[j].body.ty == t,
        forall|j: int| 0 <= j < out.len() ==> crate::typing::well_typed(
            (#[trigger] out[j]).body,
            d,
        ) && out[j].body.ty == t,
        out.len() == i,
        forall|j: int| 0 <= j < out.len() ==> same_choice(#[trigger] out[j], arms[j]),
    ensures
        ({
            let r = inject_arm_drops_spec(arms, all, cx, out, i);
            &&& forall|j: int| 0 <= j < r.len()
                ==> crate::typing::well_typed((#[trigger] r[j]).body, d)
                && r[j].body.ty == t
            &&& r.len() == arms.len()
            &&& forall|j: int| 0 <= j < r.len() ==> same_choice(#[trigger] r[j], arms[j])
        }),
    decreases arms, arms.len() - i,
{
    if i < arms.len() {
        let a = arms[i];
        injected_drops_fit(a.body, cx, d);
        let mine = collect_branch_var_leaves_spec(a.body, cx, Seq::empty());
        let drops = leaves_of_others_spec(all, i, mine, cx, Seq::empty(), 0);
        let inner = inject_branch_drops_spec(a.body, cx);
        wrapped_branch_fits(inner, drops, d);
        let body = wrap_branch_with_drops_spec(inner, drops);
        injected_arms_fit(arms, all, cx, d, t, out.push(TypedMatchArmView { body, ..a }), i + 1);
    }
}

} // verus!
