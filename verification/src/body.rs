//! Checking function bodies: sequences, branches, loops and tasks.

use vstd::prelude::*;
use crate::ast::{
    BinaryOp, Expr, ExprView, Function, FunctionView, Stmt, StmtView, Type, TypeView, dup_exprs,
    stmt_span, type_text,
};
use crate::effects::{
    clear_constants_for, emit_current_scope_drops, forget_literals,
    verify_pure_body_with_reductions,
};
use crate::ir::{TypedStmt, TypedStmtView};
use crate::moves::{mark_moved};
use crate::numeric::{coerce_numeric_operand, promoted_integer_type};
use crate::prove::{verify_call_args};
use crate::rewrite::{contains_break, named_expr_put, negate};
use crate::scope::{
    all_bindings, copies, current_has, fresh_var, insert_current, lookup, pop_scope, push_scope,
    report,
};
use crate::state::{
    Context, ContextView, Env, EnvView, LoopFrame, LoopFrameView, State, StateView, VarInfo,
    VarInfoView, dup_loop_frames,
};
use crate::statements::{
    bool_literal, capture_types, captured_names, changed_in_branches, check_assert, check_assign,
    check_condition, check_field_assign, check_index_assign, check_invariants, check_jump,
    check_let, check_let_tuple, check_print, check_prove, check_return, check_task_join,
    check_value, facts_after_branches, iterated_element, leave_loop, merge_branches, next_value,
    reassigned, report_dead_branch, resolve_reductions, var_fact, verify_entry, verify_preserved,
    verify_task_body, with_invariants,
};
use crate::text::{cat3, cat4, cat5, push, text};
use crate::types::{deref, is_any_ref, is_integer};

verus! {

broadcast use {
    crate::text::group_text_views,
    crate::ast::group_ast_views,
    crate::diagnostic::group_diagnostic_views,
    crate::ir::group_ir_views,
    crate::state::group_state_views,
    crate::state::group_extends,
    crate::state::group_grows,
    crate::typing::leaves_are_typed,
};

/// What [`check_stmts`] computes from position `i` on.
pub open spec fn check_stmts_spec(
    ss: Seq<StmtView>,
    f: FunctionView,
    loops: Seq<LoopFrameView>,
    cx: ContextView,
    terminated: bool,
    stopped: bool,
    body: Seq<TypedStmtView>,
    st: StateView,
    i: int,
) -> (bool, bool, Seq<TypedStmtView>, StateView)
    decreases ss, ss.len() - i,
{
    if 0 <= i < ss.len() && !stopped {
        let s = ss[i];
        let (terminated, stopped, body, st) = if terminated {
            (
                true,
                true,
                body,
                crate::scope::report_spec(
                    st,
                    crate::ast::stmt_span_spec(s),
                    "unreachable statement after a control-flow exit"@,
                ),
            )
        } else {
            let (t, body, st) = check_one_stmt_spec(s, f, loops, cx, body, st);
            (t, false, body, st)
        };
        check_stmts_spec(ss, f, loops, cx, terminated, stopped, body, st, i + 1)
    } else {
        (terminated, stopped, body, st)
    }
}

/// Checks statements in order, up to the first that cannot be reached: whether
/// control never runs past them, and what they become.
pub fn check_stmts(
    ss: &Vec<Stmt>,
    f: &Function,
    loops: &Vec<LoopFrame>,
    cx: &Context,
    terminated: bool,
    stopped: bool,
    body: Vec<TypedStmt>,
    st: State,
) -> (r: (bool, bool, Vec<TypedStmt>, State))
    ensures
        (r.0, r.1, crate::ir::typed_stmts_view(r.2@), r.3@) == check_stmts_spec(
            crate::ast::stmts_view(ss@),
            f@,
            crate::state::loop_frames_view(loops@),
            cx@,
            terminated,
            stopped,
            crate::ir::typed_stmts_view(body@),
            st@,
            0,
        ),
        (terminated ==> crate::statements::always_leaves(crate::ir::typed_stmts_view(body@)))
            && r.0 ==> crate::statements::always_leaves(crate::ir::typed_stmts_view(r.2@)),
        crate::state::grows(crate::ir::typed_stmts_view(body@), crate::ir::typed_stmts_view(r.2@)),
        crate::state::follows(st@, r.3@),
        crate::state::balanced(st@, r.3@),
        crate::typing::body_typed(
            crate::ir::typed_stmts_view(body@),
            f@.return_type,
            crate::typing::declared_in(cx@, st@.env),
        )
            && st@.env.scopes.len() > 0
            && crate::typing::quiet(st@, r.3@)
            ==> crate::typing::body_typed(
                crate::ir::typed_stmts_view(r.2@),
                f@.return_type,
                crate::typing::declared_in(cx@, st@.env),
            ),
    decreases ss, ss.len(),
{
    let ghost whole_run = check_stmts_spec(
        crate::ast::stmts_view(ss@),
        f@,
        crate::state::loop_frames_view(loops@),
        cx@,
        terminated,
        stopped,
        crate::ir::typed_stmts_view(body@),
        st@,
        0,
    );
    let ghost start_body = crate::ir::typed_stmts_view(body@);
    let ghost start_st = st@;
    let ghost start_terminated = terminated;
    proof {
        reveal(crate::typing::stmt_typed);
    }
    let mut terminated = terminated;
    let mut stopped = stopped;
    let mut body = body;
    let mut st = st;
    let mut i: usize = 0;
    while i < ss.len() && !stopped
        invariant
            i <= ss.len(),
            check_stmts_spec(
                crate::ast::stmts_view(ss@),
                f@,
                crate::state::loop_frames_view(loops@),
                cx@,
                terminated,
                stopped,
                crate::ir::typed_stmts_view(body@),
                st@,
                i as int,
            ) == whole_run,
            crate::state::grows(start_body, crate::ir::typed_stmts_view(body@)),
            crate::state::follows(start_st, st@),
            crate::state::balanced(start_st, st@),
            (start_terminated ==> crate::statements::always_leaves(start_body))
                && terminated
                ==> crate::statements::always_leaves(crate::ir::typed_stmts_view(body@)),
            crate::typing::body_typed(
                start_body,
                f@.return_type,
                crate::typing::declared_in(cx@, start_st.env),
            )
                && start_st.env.scopes.len() > 0
                && crate::typing::quiet(start_st, st@)
                ==> crate::typing::body_typed(
                    crate::ir::typed_stmts_view(body@),
                    f@.return_type,
                    crate::typing::declared_in(cx@, start_st.env),
                ),
        decreases ss.len() - i,
    {
        let s = &ss[i];
        let next = if terminated {
            (
                true,
                true,
                body,
                report(st, stmt_span(s), text("unreachable statement after a control-flow exit")),
            )
        } else {
            let (t, body, st) = check_one_stmt(s, f, loops, cx, body, st);
            (t, false, body, st)
        };
        terminated = next.0;
        stopped = next.1;
        body = next.2;
        st = next.3;
        i += 1;
    }
    (terminated, stopped, body, st)
}

/// What [`check_stmt_list`] computes.
pub open spec fn check_stmt_list_spec(
    ss: Seq<StmtView>,
    f: FunctionView,
    loops: Seq<LoopFrameView>,
    cx: ContextView,
    st: StateView,
) -> (bool, Seq<TypedStmtView>, StateView)
    decreases ss, ss.len() + 1,
{
    let (terminated, _, body, st) = check_stmts_spec(
        ss,
        f,
        loops,
        cx,
        false,
        false,
        Seq::empty(),
        st,
        0,
    );
    (terminated, body, st)
}

/// Checks a list of statements.
pub fn check_stmt_list(
    ss: &Vec<Stmt>,
    f: &Function,
    loops: &Vec<LoopFrame>,
    cx: &Context,
    st: State,
) -> (r: (bool, Vec<TypedStmt>, State))
    ensures
        (r.0, crate::ir::typed_stmts_view(r.1@), r.2@) == check_stmt_list_spec(
            crate::ast::stmts_view(ss@),
            f@,
            crate::state::loop_frames_view(loops@),
            cx@,
            st@,
        ),
        r.0 ==> crate::statements::always_leaves(crate::ir::typed_stmts_view(r.1@)),
        crate::state::follows(st@, r.2@),
        crate::state::balanced(st@, r.2@),
        st@.env.scopes.len() > 0
            && crate::typing::quiet(st@, r.2@)
            ==> crate::typing::body_typed(
                crate::ir::typed_stmts_view(r.1@),
                f@.return_type,
                crate::typing::declared_in(cx@, st@.env),
            ),
    decreases ss, ss.len() + 1,
{
    proof {
        reveal(crate::typing::stmt_typed);
    }
    let (terminated, _, body, st) = check_stmts(ss, f, loops, cx, false, false, Vec::new(), st);
    (terminated, body, st)
}

/// What [`check_one_stmt`] computes.
pub open spec fn check_one_stmt_spec(
    s: StmtView,
    f: FunctionView,
    loops: Seq<LoopFrameView>,
    cx: ContextView,
    body: Seq<TypedStmtView>,
    st: StateView,
) -> (bool, Seq<TypedStmtView>, StateView)
    decreases s, 2int,
{
    match s {
        StmtView::Let { name, annotation, expr, span } => {
            let (body, st) = crate::statements::check_let_spec(
                name,
                annotation,
                expr,
                span,
                loops.len() > 0,
                cx,
                body,
                st,
            );
            (false, body, st)
        },
        StmtView::LetTuple { names, annotation, expr, span } => {
            let (body, st) = crate::statements::check_let_tuple_spec(
                names,
                annotation,
                expr,
                span,
                cx,
                body,
                st,
            );
            (false, body, st)
        },
        StmtView::Assign { name, expr, span } => {
            let (body, st) = crate::statements::check_assign_spec(
                name,
                expr,
                span,
                loops.len() > 0,
                cx,
                body,
                st,
            );
            (false, body, st)
        },
        StmtView::Return { expr, .. } => {
            let (body, st) = crate::statements::check_return_spec(expr, f, cx, body, st);
            (true, body, st)
        },
        StmtView::Assert { expr, message, .. } => {
            let (body, st) = crate::statements::check_assert_spec(expr, message, cx, body, st);
            (false, body, st)
        },
        StmtView::Prove { expr, .. } => {
            let (body, st) = crate::statements::check_prove_spec(expr, cx, body, st);
            (false, body, st)
        },
        StmtView::Print { items, .. } => {
            let (body, st) = crate::statements::check_print_spec(items, cx, body, st);
            (false, body, st)
        },
        StmtView::If { .. } => check_if_spec(s, f, loops, cx, body, st),
        StmtView::While { .. } => check_while_spec(s, f, loops, cx, body, st),
        StmtView::For { .. } => check_for_spec(s, f, loops, cx, body, st),
        StmtView::ForIter { .. } => check_for_iter_spec(s, f, loops, cx, body, st),
        StmtView::IndexAssign { name, index, field_path, value, span } => {
            let (body, st) = crate::statements::check_index_assign_spec(
                name,
                index,
                field_path,
                value,
                span,
                cx,
                body,
                st,
            );
            (false, body, st)
        },
        StmtView::FieldAssign { object, field, field_span, value, span } => {
            let (body, st) = crate::statements::check_field_assign_spec(
                object,
                field,
                field_span,
                value,
                span,
                cx,
                body,
                st,
            );
            (false, body, st)
        },
        StmtView::Break { span } => crate::statements::check_jump_spec(
            true,
            span,
            loops,
            cx,
            body,
            st,
        ),
        StmtView::Continue { span } => crate::statements::check_jump_spec(
            false,
            span,
            loops,
            cx,
            body,
            st,
        ),
        StmtView::TaskSpawn { .. } => check_task_spawn_spec(s, f, loops, cx, body, st),
        StmtView::TaskJoin { name, span } => {
            let (body, st) = crate::statements::check_task_join_spec(name, span, body, st);
            (false, body, st)
        },
    }
}

/// Checks one statement: whether control never runs past it, and what is
/// added to the body.
pub fn check_one_stmt(
    s: &Stmt,
    f: &Function,
    loops: &Vec<LoopFrame>,
    cx: &Context,
    body: Vec<TypedStmt>,
    st: State,
) -> (r: (bool, Vec<TypedStmt>, State))
    ensures
        (r.0, crate::ir::typed_stmts_view(r.1@), r.2@) == check_one_stmt_spec(
            s@,
            f@,
            crate::state::loop_frames_view(loops@),
            cx@,
            crate::ir::typed_stmts_view(body@),
            st@,
        ),
        r.0 ==> crate::statements::always_leaves(crate::ir::typed_stmts_view(r.1@)),
        crate::state::grows(crate::ir::typed_stmts_view(body@), crate::ir::typed_stmts_view(r.1@)),
        crate::state::follows(st@, r.2@),
        crate::state::balanced(st@, r.2@),
        crate::typing::body_typed(
            crate::ir::typed_stmts_view(body@),
            f@.return_type,
            crate::typing::declared_in(cx@, st@.env),
        )
            && st@.env.scopes.len() > 0
            && crate::typing::quiet(st@, r.2@)
            ==> crate::typing::body_typed(
                crate::ir::typed_stmts_view(r.1@),
                f@.return_type,
                crate::typing::declared_in(cx@, st@.env),
            ),
    decreases s, 2int,
{
    proof {
        reveal(crate::typing::stmt_typed);
    }
    match s {
        Stmt::Let { name, annotation, expr, span } => {
            let (body, st) = check_let(
                name,
                annotation,
                expr,
                *span,
                loops.len() > 0,
                cx,
                body,
                st,
            );
            (false, body, st)
        },
        Stmt::LetTuple { names, annotation, expr, span } => {
            let (body, st) = check_let_tuple(names, annotation, expr, *span, cx, body, st);
            (false, body, st)
        },
        Stmt::Assign { name, expr, span } => {
            let (body, st) = check_assign(name, expr, *span, loops.len() > 0, cx, body, st);
            (false, body, st)
        },
        Stmt::Return { expr, .. } => {
            let (body, st) = check_return(expr, f, cx, body, st);
            (true, body, st)
        },
        Stmt::Assert { expr, message, .. } => {
            let (body, st) = check_assert(expr, message, cx, body, st);
            (false, body, st)
        },
        Stmt::Prove { expr, .. } => {
            let (body, st) = check_prove(expr, cx, body, st);
            (false, body, st)
        },
        Stmt::Print { items, .. } => {
            let (body, st) = check_print(items, cx, body, st);
            (false, body, st)
        },
        Stmt::If { .. } => check_if(s, f, loops, cx, body, st),
        Stmt::While { .. } => check_while(s, f, loops, cx, body, st),
        Stmt::For { .. } => check_for(s, f, loops, cx, body, st),
        Stmt::ForIter { .. } => check_for_iter(s, f, loops, cx, body, st),
        Stmt::IndexAssign { name, index, field_path, value, span } => {
            let (body, st) = check_index_assign(
                name,
                index,
                field_path,
                value,
                *span,
                cx,
                body,
                st,
            );
            (false, body, st)
        },
        Stmt::FieldAssign { object, field, field_span, value, span } => {
            let (body, st) = check_field_assign(
                object,
                field,
                *field_span,
                value,
                *span,
                cx,
                body,
                st,
            );
            (false, body, st)
        },
        Stmt::Break { span } => check_jump(true, *span, loops, cx, body, st),
        Stmt::Continue { span } => check_jump(false, *span, loops, cx, body, st),
        Stmt::TaskSpawn { .. } => check_task_spawn(s, f, loops, cx, body, st),
        Stmt::TaskJoin { name, span } => {
            let (body, st) = check_task_join(name, *span, body, st);
            (false, body, st)
        },
    }
}

/// What [`check_branch`] computes.
pub open spec fn check_branch_spec(
    ss: Seq<StmtView>,
    known: ExprView,
    f: FunctionView,
    loops: Seq<LoopFrameView>,
    cx: ContextView,
    st: StateView,
) -> (bool, Seq<TypedStmtView>, StateView)
    decreases ss, ss.len() + 2,
{
    let env = crate::scope::push_scope_spec(st.env);
    let facts = st.facts.push(known);
    let st = StateView { env, facts, ..st };
    let (terminated, stmts, st) = check_stmt_list_spec(ss, f, loops, cx, st);
    let stmts = if terminated { stmts } else { crate::effects::emit_current_scope_drops_spec(st.env, cx, stmts) };
    (terminated, stmts, StateView { env: crate::scope::pop_scope_spec(st.env), ..st })
}

/// Checks one branch in a scope of its own, knowing its condition.
pub fn check_branch(
    ss: &Vec<Stmt>,
    known: Expr,
    f: &Function,
    loops: &Vec<LoopFrame>,
    cx: &Context,
    st: State,
) -> (r: (bool, Vec<TypedStmt>, State))
    ensures
        (r.0, crate::ir::typed_stmts_view(r.1@), r.2@) == check_branch_spec(
            crate::ast::stmts_view(ss@),
            known@,
            f@,
            crate::state::loop_frames_view(loops@),
            cx@,
            st@,
        ),
        r.0
            ==> crate::statements::always_leaves(crate::ir::typed_stmts_view(r.1@)), exists|a: StateView| #[trigger] crate::known::was_checked(
                crate::ast::stmts_view(ss@),
                f@,
                crate::state::loop_frames_view(loops@),
                cx@,
                a,
                r.0,
                crate::ir::typed_stmts_view(r.1@),
            )
            && a.facts == st@.facts.push(known@),
        crate::state::follows(st@, r.2@),
        crate::state::balanced(st@, r.2@),
        st@.env.scopes.len() > 0
            && crate::typing::quiet(st@, r.2@)
            ==> crate::typing::body_typed(
                crate::ir::typed_stmts_view(r.1@),
                f@.return_type,
                crate::typing::declared_in(cx@, st@.env),
            ),
    decreases ss, ss.len() + 2,
{
    proof {
        reveal(crate::typing::stmt_typed);
    }
    let env = push_scope(st.env);
    let facts = push(st.facts, known);
    let st = State { env, facts, ..st };
    let ghost inside = st@;
    let (terminated, stmts, st) = check_stmt_list(ss, f, loops, cx, st);
    proof {
        assert(
            crate::known::was_checked(
                crate::ast::stmts_view(ss@),
                f@,
                crate::state::loop_frames_view(loops@),
                cx@,
                inside,
                terminated,
                crate::ir::typed_stmts_view(stmts@),
            )
        );
    }
    let stmts = if terminated { stmts } else { emit_current_scope_drops(&st.env, cx, stmts) };
    proof {
        assert(
            crate::known::was_checked(
                crate::ast::stmts_view(ss@),
                f@,
                crate::state::loop_frames_view(loops@),
                cx@,
                inside,
                terminated,
                crate::ir::typed_stmts_view(stmts@),
            )
        );
    }
    (terminated, stmts, State { env: pop_scope(st.env), ..st })
}

/// What [`check_if`] computes.
pub open spec fn check_if_spec(
    s: StmtView,
    f: FunctionView,
    loops: Seq<LoopFrameView>,
    cx: ContextView,
    body: Seq<TypedStmtView>,
    st: StateView,
) -> (bool, Seq<TypedStmtView>, StateView)
    decreases s, 1int,
{
    match s {
        StmtView::If { cond, then_body, else_body, .. } => {
            let (c, st) = crate::statements::check_condition_spec(cond, "if condition"@, cx, st);
            let st = crate::statements::report_dead_branch_spec(
                cond,
                then_body.len() == 0,
                else_body.len() == 0,
                st,
            );
            let pre_env = st.env;
            let pre_facts = (st.facts);
            let (then_terminated, then_stmts, st) = check_branch_spec(
                then_body,
                cond,
                f,
                loops,
                cx,
                st,
            );
            let then_env = st.env;
            let st = StateView { env: pre_env, facts: (pre_facts), ..st };
            let (else_terminated, else_stmts, st) = check_branch_spec(
                else_body,
                crate::rewrite::negate_spec(cond),
                f,
                loops,
                cx,
                st,
            );
            let else_env = st.env;
            let facts = crate::statements::facts_after_branches_spec(
                pre_facts,
                cond,
                then_terminated,
                else_terminated,
            );
            let before = crate::scope::all_bindings_spec(pre_env);
            let (then_stmts, else_stmts, env) = crate::statements::merge_branches_spec(
                before,
                then_env,
                else_env,
                then_terminated,
                else_terminated,
                cx,
                then_stmts,
                else_stmts,
                pre_env,
             0);
            let changed = crate::statements::changed_in_branches_spec(then_body, else_body);
            let env = crate::effects::forget_literals_spec(
                crate::effects::clear_constants_for_spec(env, changed),
                changed,
            );
            let stmt = TypedStmtView::If {
                cond: c.expr,
                then_body: then_stmts,
                else_body: else_stmts,
            };
            (then_terminated && else_terminated, body.push(stmt), StateView { env, facts, ..st })
        },
        _ => (false, body, st),
    }
}

/// `if cond { .. } else { .. }`.
pub fn check_if(
    s: &Stmt,
    f: &Function,
    loops: &Vec<LoopFrame>,
    cx: &Context,
    body: Vec<TypedStmt>,
    st: State,
) -> (r: (bool, Vec<TypedStmt>, State))
    ensures
        (r.0, crate::ir::typed_stmts_view(r.1@), r.2@) == check_if_spec(
            s@,
            f@,
            crate::state::loop_frames_view(loops@),
            cx@,
            crate::ir::typed_stmts_view(body@),
            st@,
        ),
        r.0 ==> crate::statements::always_leaves(crate::ir::typed_stmts_view(r.1@)), s@ is If
            ==> crate::known::branches_know(
                s@,
                f@,
                crate::state::loop_frames_view(loops@),
                cx@,
                st@.facts,
                crate::ir::typed_stmts_view(r.1@),
                r.2@.facts,
            ),
        crate::state::grows(crate::ir::typed_stmts_view(body@), crate::ir::typed_stmts_view(r.1@)),
        crate::state::follows(st@, r.2@),
        crate::state::balanced(st@, r.2@),
        crate::typing::body_typed(
            crate::ir::typed_stmts_view(body@),
            f@.return_type,
            crate::typing::declared_in(cx@, st@.env),
        )
            && st@.env.scopes.len() > 0
            && crate::typing::quiet(st@, r.2@)
            ==> crate::typing::body_typed(
                crate::ir::typed_stmts_view(r.1@),
                f@.return_type,
                crate::typing::declared_in(cx@, st@.env),
            ),
    decreases s, 1int,
{
    proof {
        reveal(crate::typing::stmt_typed);
    }
    match s {
        Stmt::If { cond, then_body, else_body, .. } => {
            let ghost known = st@.facts;
            let (c, st) = check_condition(cond, "if condition", cx, st);
            let st = report_dead_branch(cond, then_body.len() == 0, else_body.len() == 0, st);
            let pre_env = st.env.dup();
            let pre_facts = dup_exprs(&st.facts);
            let (then_terminated, then_stmts, st) = check_branch(
                then_body,
                cond.dup(),
                f,
                loops,
                cx,
                st,
            );
            let then_env = st.env.dup();
            let ghost first = crate::ir::typed_stmts_view(then_stmts@);
            let st = State { env: pre_env.dup(), facts: dup_exprs(&pre_facts), ..st };
            let (else_terminated, else_stmts, st) = check_branch(
                else_body,
                negate(cond),
                f,
                loops,
                cx,
                st,
            );
            let else_env = st.env.dup();
            let ghost second = crate::ir::typed_stmts_view(else_stmts@);
            let facts = facts_after_branches(pre_facts, cond, then_terminated, else_terminated);
            let before = all_bindings(&pre_env);
            proof {
                if then_terminated && else_terminated {
                    crate::statements::left_branches_stay(
                        crate::state::scope_view(before@),
                        then_env@,
                        else_env@,
                        then_terminated,
                        else_terminated,
                        cx@,
                        crate::ir::typed_stmts_view(then_stmts@),
                        crate::ir::typed_stmts_view(else_stmts@),
                        pre_env@,
                        0,
                    );
                }
            }
            let (then_stmts, else_stmts, env) = merge_branches(
                &before,
                &then_env,
                &else_env,
                then_terminated,
                else_terminated,
                cx,
                then_stmts,
                else_stmts,
                pre_env,
            );
            let changed = changed_in_branches(then_body, else_body);
            let env = forget_literals(clear_constants_for(env, &changed), &changed);
            proof {
                crate::known::both_branches_know(
                    s@,
                    f@,
                    crate::state::loop_frames_view(loops@),
                    cx@,
                    known,
                    then_terminated,
                    else_terminated,
                    first,
                    second,
                    crate::ir::typed_stmts_view(body@),
                    c@.expr,
                    crate::ir::typed_stmts_view(then_stmts@),
                    crate::ir::typed_stmts_view(else_stmts@),
                    crate::ast::exprs_view(facts@),
                );
            }
            let stmt = TypedStmt::If { cond: c.expr, then_body: then_stmts, else_body: else_stmts };
            (then_terminated && else_terminated, push(body, stmt), State { env, facts, ..st })
        },
        _ => (false, body, st),
    }
}

/// What [`check_loop_body`] computes.
pub open spec fn check_loop_body_spec(
    ss: Seq<StmtView>,
    pre_env: EnvView,
    f: FunctionView,
    loops: Seq<LoopFrameView>,
    cx: ContextView,
    st: StateView,
) -> (bool, Seq<TypedStmtView>, StateView)
    decreases ss, ss.len() + 2,
{
    let frame = LoopFrameView { pre_env: pre_env, body_scope_depth: (st.env.scopes.len() as int) };
    let nested = (loops).push(frame);
    let (terminated, stmts, st) = check_stmt_list_spec(ss, f, nested, cx, st);
    (terminated, stmts, st)
}

/// Checks a loop's body, in the scope that was opened for it.
pub fn check_loop_body(
    ss: &Vec<Stmt>,
    pre_env: &Env,
    f: &Function,
    loops: &Vec<LoopFrame>,
    cx: &Context,
    st: State,
) -> (r: (bool, Vec<TypedStmt>, State))
    ensures
        (r.0, crate::ir::typed_stmts_view(r.1@), r.2@) == check_loop_body_spec(
            crate::ast::stmts_view(ss@),
            pre_env@,
            f@,
            crate::state::loop_frames_view(loops@),
            cx@,
            st@,
        ),
        r.0
            ==> crate::statements::always_leaves(crate::ir::typed_stmts_view(r.1@)), exists|ls: Seq<LoopFrameView>| #[trigger] crate::known::was_checked(
                crate::ast::stmts_view(ss@),
                f@,
                ls,
                cx@,
                st@,
                r.0,
                crate::ir::typed_stmts_view(r.1@),
            ),
        crate::state::follows(st@, r.2@),
        crate::state::balanced(st@, r.2@),
        st@.env.scopes.len() > 0
            && crate::typing::quiet(st@, r.2@)
            ==> crate::typing::body_typed(
                crate::ir::typed_stmts_view(r.1@),
                f@.return_type,
                crate::typing::declared_in(cx@, st@.env),
            ),
    decreases ss, ss.len() + 2,
{
    proof {
        reveal(crate::typing::stmt_typed);
    }
    let ghost inside = st@;
    let frame = LoopFrame { pre_env: pre_env.dup(), body_scope_depth: st.env.scopes.len() };
    let nested = push(dup_loop_frames(loops), frame);
    let (terminated, stmts, st) = check_stmt_list(ss, f, &nested, cx, st);
    proof {
        assert(
            crate::known::was_checked(
                crate::ast::stmts_view(ss@),
                f@,
                crate::state::loop_frames_view(nested@),
                cx@,
                inside,
                terminated,
                crate::ir::typed_stmts_view(stmts@),
            )
        );
    }
    (terminated, stmts, st)
}

/// What [`check_while`] computes.
pub open spec fn check_while_spec(
    s: StmtView,
    f: FunctionView,
    loops: Seq<LoopFrameView>,
    cx: ContextView,
    body: Seq<TypedStmtView>,
    st: StateView,
) -> (bool, Seq<TypedStmtView>, StateView)
    decreases s, 1int,
{
    match s {
        StmtView::While { cond, invariants, body: inner, span } => {
            let (c, st) = crate::statements::check_condition_spec(cond, "while condition"@, cx, st);
            let st = if crate::statements::bool_literal_spec(cond) == Some(false)
                && inner.len() > 0 {
                crate::scope::report_spec(
                    st,
                    cond.span,
                    "loop condition is always false; the body never executes"@,
                )
            } else {
                st
            };
            let st = crate::statements::check_invariants_spec(
                invariants,
                "loop invariant"@,
                cx,
                st,
                0,
            );
            let pre_env = st.env;
            let pre_facts = (st.facts);
            let st = crate::statements::verify_entry_spec(
                invariants,
                pre_facts,
                "does not hold at loop entry"@,
                cx,
                st,
            );
            let facts = crate::statements::with_invariants_spec(st.facts, invariants).push(cond);
            let env = crate::scope::push_scope_spec(st.env);
            let st = StateView { env, facts, ..st };
            let (terminated, stmts, st) = check_loop_body_spec(inner, pre_env, f, loops, cx, st);

                        let st = if terminated {
                st
            } else {
                let (subs, vars) = crate::statements::reassigned_spec(inner, st.env);
                crate::statements::verify_preserved_spec(
                    invariants,
                    subs,
                    vars,
                    "is not preserved by the loop body"@,
                    cx,
                    st,
                )
            };
            let facts = crate::statements::with_invariants_spec(pre_facts, invariants);
            let facts = if crate::rewrite::contains_break_spec(inner) { facts } else { facts.push(crate::rewrite::negate_spec(cond)) };
            let (stmts, st) = crate::statements::leave_loop_spec(
                pre_env,
                inner,
                terminated,
                stmts,
                facts,
                span,
                "loop body changes the move state"@,
                cx,
                st,
            );
            (false, body.push(TypedStmtView::While { cond: c.expr, body: stmts }), st)
        },
        _ => (false, body, st),
    }
}

/// `while cond invariant .. { .. }`.
#[verifier::rlimit(40)]
pub fn check_while(
    s: &Stmt,
    f: &Function,
    loops: &Vec<LoopFrame>,
    cx: &Context,
    body: Vec<TypedStmt>,
    st: State,
) -> (r: (bool, Vec<TypedStmt>, State))
    ensures
        (r.0, crate::ir::typed_stmts_view(r.1@), r.2@) == check_while_spec(
            s@,
            f@,
            crate::state::loop_frames_view(loops@),
            cx@,
            crate::ir::typed_stmts_view(body@),
            st@,
        ),
        r.0 ==> crate::statements::always_leaves(crate::ir::typed_stmts_view(r.1@)), s@ is While
            ==> crate::known::loop_knows(
                s@,
                f@,
                cx@,
                st@.facts,
                crate::ir::typed_stmts_view(r.1@),
                r.2@.facts,
            ),
        crate::state::grows(crate::ir::typed_stmts_view(body@), crate::ir::typed_stmts_view(r.1@)),
        crate::state::follows(st@, r.2@),
        crate::state::balanced(st@, r.2@),
        crate::typing::body_typed(
            crate::ir::typed_stmts_view(body@),
            f@.return_type,
            crate::typing::declared_in(cx@, st@.env),
        )
            && st@.env.scopes.len() > 0
            && crate::typing::quiet(st@, r.2@)
            ==> crate::typing::body_typed(
                crate::ir::typed_stmts_view(r.1@),
                f@.return_type,
                crate::typing::declared_in(cx@, st@.env),
            ),
    decreases s, 1int,
{
    let ghost before = st@;
    proof {
        reveal(crate::typing::stmt_typed);
    }
    match s {
        Stmt::While { cond, invariants, body: inner, span } => {
            let (c, st) = check_condition(cond, "while condition", cx, st);
            let st = if bool_literal(cond) == Some(false) && inner.len() > 0 {
                report(
                    st,
                    cond.span,
                    text("loop condition is always false; the body never executes"),
                )
            } else {
                st
            };
            let st = check_invariants(invariants, "loop invariant", cx, st);
            let pre_env = st.env.dup();
            let pre_facts = dup_exprs(&st.facts);
            let st = verify_entry(invariants, &pre_facts, "does not hold at loop entry", cx, st);
            let facts = push(with_invariants(st.facts, invariants), cond.dup());
            let env = push_scope(st.env);
            let st = State { env, facts, ..st };
            let ghost inside = st@;
            let (terminated, stmts, st) = check_loop_body(inner, &pre_env, f, loops, cx, st);
            let ghost first = crate::ir::typed_stmts_view(stmts@);
            proof {
                assert(
                    before.env.scopes.len() > 0
                        ==> crate::typing::declared_in(cx@, st@.env) == crate::typing::declared_in(
                            cx@,
                            before.env,
                        )
                );
            }
                        let st = if terminated {
                st
            } else {
                let (subs, vars) = reassigned(inner, &st.env);
                verify_preserved(
                    invariants,
                    &subs,
                    &vars,
                    "is not preserved by the loop body",
                    cx,
                    st,
                )
            };
            let facts = with_invariants(pre_facts, invariants);
            let facts = if contains_break(inner) { facts } else { push(facts, negate(cond)) };
            proof {
                assert(
                    before.env.scopes.len() > 0
                        ==> crate::typing::declared_in(cx@, st@.env) == crate::typing::declared_in(
                            cx@,
                            before.env,
                        )
                );
                assert(before.env.scopes.len() > 0 && crate::typing::quiet(before, st@) ==> crate::typing::body_typed(
                    crate::ir::typed_stmts_view(stmts@),
                    f@.return_type,
                    crate::typing::declared_in(cx@, st@.env),
                ));
            }
            let (stmts, st) = leave_loop(
                &pre_env,
                inner,
                terminated,
                stmts,
                facts,
                *span,
                "loop body changes the move state",
                cx,
                st,
            );
            proof {
                crate::known::while_knows(
                    s@,
                    f@,
                    cx@,
                    before.facts,
                    inside,
                    terminated,
                    first,
                    crate::ir::typed_stmts_view(body@),
                    c@.expr,
                    crate::ir::typed_stmts_view(stmts@),
                    st@.facts,
                );
            }
            (false, push(body, TypedStmt::While { cond: c.expr, body: stmts }), st)
        },
        _ => (false, body, st),
    }
}

/// What [`check_range_body`] computes.
pub open spec fn check_range_body_spec(
    s: StmtView,
    t: TypeView,
    f: FunctionView,
    loops: Seq<LoopFrameView>,
    cx: ContextView,
    st: StateView,
) -> (Seq<TypedStmtView>, StateView)
    decreases s, 0int,
{
    match s {
        StmtView::For { var, start, end, invariants, body: inner, span, .. } => {
            let pre_env = st.env;
            let pre_facts = (st.facts);
            let info = crate::scope::fresh_var_spec(t, None, span);
            let env = crate::scope::insert_current_spec(
                crate::scope::push_scope_spec(st.env),
                var,
                info,
            );
            let st = crate::statements::check_invariants_spec(
                invariants,
                "for-loop invariant"@,
                cx,
                StateView { env, ..st },
                0,
            );
            let entry = (st.facts).push(
                crate::statements::var_fact_spec(BinaryOp::Eq, var, start, span),
            );
            let st = crate::statements::verify_entry_spec(
                invariants,
                entry,
                "does not hold at the for-loop's first iteration"@,
                cx,
                st,
            );
            let facts = crate::statements::with_invariants_spec(st.facts, invariants);
            let facts = facts.push(
                crate::statements::var_fact_spec(BinaryOp::Ge, var, start, span),
            );
            let facts = facts.push(crate::statements::var_fact_spec(BinaryOp::Lt, var, end, span));
            let st = StateView { facts, ..st };
            let (terminated, stmts, st) = check_loop_body_spec(inner, pre_env, f, loops, cx, st);

                        let st = if terminated {
                st
            } else {
                let (subs, vars) = crate::statements::reassigned_spec(inner, st.env);
                let subs = crate::rewrite::named_expr_put_spec(
                    subs,
                    var,
                    crate::statements::next_value_spec(var, span),
                );
                crate::statements::verify_preserved_spec(
                    invariants,
                    subs,
                    vars,
                    "is not preserved by the for-loop body"@,
                    cx,
                    st,
                )
            };
            let facts = crate::statements::with_invariants_spec(pre_facts, invariants);
            let facts = if crate::rewrite::contains_break_spec(inner) {
                facts
            } else {
                facts.push(crate::statements::var_fact_spec(BinaryOp::Ge, var, end, span))
            };
            let (stmts, st) = crate::statements::leave_loop_spec(
                pre_env,
                inner,
                terminated,
                stmts,
                facts,
                span,
                "for-loop body changes the move state"@,
                cx,
                st,
            );
            (stmts, st)
        },
        _ => (Seq::empty(), st),
    }
}

/// The body of a `for` loop over a range of the given type.
#[verifier::rlimit(40)]
pub fn check_range_body(
    s: &Stmt,
    t: &Type,
    f: &Function,
    loops: &Vec<LoopFrame>,
    cx: &Context,
    st: State,
) -> (r: (Vec<TypedStmt>, State))
    ensures
        (crate::ir::typed_stmts_view(r.0@), r.1@) == check_range_body_spec(
            s@,
            t@,
            f@,
            crate::state::loop_frames_view(loops@),
            cx@,
            st@,
        ),
        s@ is For
            ==> crate::known::range_knows(s@, f@, cx@, st@.facts, crate::ir::typed_stmts_view(r.0@),
        r.1@.facts),
        crate::state::follows(st@, r.1@),
        crate::state::balanced(st@, r.1@),
        st@.env.scopes.len() > 0
            && crate::typing::quiet(st@, r.1@)
            ==> crate::typing::body_typed(
                crate::ir::typed_stmts_view(r.0@),
                f@.return_type,
                crate::typing::declared_in(cx@, st@.env),
            ),
    decreases s, 0int,
{
    let ghost before = st@;
    proof {
        reveal(crate::typing::stmt_typed);
    }
    match s {
        Stmt::For { var, start, end, invariants, body: inner, span, .. } => {
            let pre_env = st.env.dup();
            let pre_facts = dup_exprs(&st.facts);
            let info = fresh_var(t.dup(), None, *span);
            let env = insert_current(push_scope(st.env), var, &info);
            let st = check_invariants(invariants, "for-loop invariant", cx, State { env, ..st });
            let entry = push(dup_exprs(&st.facts), var_fact(BinaryOp::Eq, var, start, *span));
            let st = verify_entry(
                invariants,
                &entry,
                "does not hold at the for-loop's first iteration",
                cx,
                st,
            );
            let facts = with_invariants(st.facts, invariants);
            let facts = push(facts, var_fact(BinaryOp::Ge, var, start, *span));
            let facts = push(facts, var_fact(BinaryOp::Lt, var, end, *span));
            let st = State { facts, ..st };
            let ghost inside = st@;
            let (terminated, stmts, st) = check_loop_body(inner, &pre_env, f, loops, cx, st);
            let ghost first = crate::ir::typed_stmts_view(stmts@);
            proof {
                assert(
                    before.env.scopes.len() > 0
                        ==> crate::typing::declared_in(cx@, st@.env) == crate::typing::declared_in(
                            cx@,
                            before.env,
                        )
                );
            }
                        let st = if terminated {
                st
            } else {
                let (subs, vars) = reassigned(inner, &st.env);
                let subs = named_expr_put(&subs, var, &next_value(var, *span));
                verify_preserved(
                    invariants,
                    &subs,
                    &vars,
                    "is not preserved by the for-loop body",
                    cx,
                    st,
                )
            };
            let facts = with_invariants(pre_facts, invariants);
            let facts = if contains_break(inner) {
                facts
            } else {
                push(facts, var_fact(BinaryOp::Ge, var, end, *span))
            };
            proof {
                assert(
                    before.env.scopes.len() > 0
                        ==> crate::typing::declared_in(cx@, st@.env) == crate::typing::declared_in(
                            cx@,
                            before.env,
                        )
                );
                assert(before.env.scopes.len() > 0 && crate::typing::quiet(before, st@) ==> crate::typing::body_typed(
                    crate::ir::typed_stmts_view(stmts@),
                    f@.return_type,
                    crate::typing::declared_in(cx@, st@.env),
                ));
            }
            let (stmts, st) = leave_loop(
                &pre_env,
                inner,
                terminated,
                stmts,
                facts,
                *span,
                "for-loop body changes the move state",
                cx,
                st,
            );
            proof {
                crate::known::counted_loop_knows(
                    s@,
                    f@,
                    cx@,
                    before.facts,
                    inside,
                    terminated,
                    first,
                    crate::ir::typed_stmts_view(stmts@),
                    st@.facts,
                );
            }
            (stmts, st)
        },
        _ => (Vec::new(), st),
    }
}

/// What [`check_for`] computes.
pub open spec fn check_for_spec(
    s: StmtView,
    f: FunctionView,
    loops: Seq<LoopFrameView>,
    cx: ContextView,
    body: Seq<TypedStmtView>,
    st: StateView,
) -> (bool, Seq<TypedStmtView>, StateView)
    decreases s, 1int,
{
    match s {
        StmtView::For { var, start, end, span, parallel, reductions, .. } => {
            let st = crate::prove::verify_call_args_spec(start, cx, st);
            let st = crate::prove::verify_call_args_spec(end, cx, st);
            let (a, st) = crate::statements::check_value_spec(start, cx, st);
            let (b, st) = crate::statements::check_value_spec(end, cx, st);
            if !crate::types::is_integer_spec(a.expr.ty)
                || !crate::types::is_integer_spec(b.expr.ty) {
                let message = "for-loop range bounds must be integers, got "@
                    + crate::ast::type_text_spec(a.expr.ty) + " and "@
                    + crate::ast::type_text_spec(b.expr.ty);
                (false, body, crate::scope::report_spec(st, span, message))
            } else {
                match crate::numeric::promoted_integer_type_spec(a, b, st) {
                    (None, st) => (false, body, st),
                    (Some(t), st) => {
                        let (a, st) = crate::numeric::coerce_numeric_operand_spec(a, t, st);
                        let (b, st) = crate::numeric::coerce_numeric_operand_spec(b, t, st);
                        let pre_env = st.env;
                        let (stmts, st) = check_range_body_spec(s, t, f, loops, cx, st);
                        let (reds, st) = crate::statements::resolve_reductions_spec(
                            reductions,
                            pre_env,
                            Seq::empty(),
                            st,
                            0,
                        );
                        let st = if parallel {
                            crate::effects::verify_pure_body_with_reductions_spec(
                                stmts,
                                cx,
                                "'parallel for' body"@,
                                reds,
                                st,
                            )
                        } else {
                            st
                        };
                        let stmt = TypedStmtView::For {
                            var: var,
                            ty: t,
                            start: a.expr,
                            end: b.expr,
                            body: stmts,
                            parallel: parallel,
                            reductions: reds,
                        };
                        (false, body.push(stmt), st)
                    },
                }
            }
        },
        _ => (false, body, st),
    }
}

/// `for var in start..end invariant .. { .. }`.
pub fn check_for(
    s: &Stmt,
    f: &Function,
    loops: &Vec<LoopFrame>,
    cx: &Context,
    body: Vec<TypedStmt>,
    st: State,
) -> (r: (bool, Vec<TypedStmt>, State))
    ensures
        (r.0, crate::ir::typed_stmts_view(r.1@), r.2@) == check_for_spec(
            s@,
            f@,
            crate::state::loop_frames_view(loops@),
            cx@,
            crate::ir::typed_stmts_view(body@),
            st@,
        ),
        r.0 ==> crate::statements::always_leaves(crate::ir::typed_stmts_view(r.1@)),
        crate::state::grows(crate::ir::typed_stmts_view(body@), crate::ir::typed_stmts_view(r.1@)),
        crate::state::follows(st@, r.2@),
        crate::state::balanced(st@, r.2@),
        crate::typing::body_typed(
            crate::ir::typed_stmts_view(body@),
            f@.return_type,
            crate::typing::declared_in(cx@, st@.env),
        )
            && st@.env.scopes.len() > 0
            && crate::typing::quiet(st@, r.2@)
            ==> crate::typing::body_typed(
                crate::ir::typed_stmts_view(r.1@),
                f@.return_type,
                crate::typing::declared_in(cx@, st@.env),
            ),
    decreases s, 1int,
{
    proof {
        reveal(crate::typing::stmt_typed);
    }
    match s {
        Stmt::For { var, start, end, span, parallel, reductions, .. } => {
            let st = verify_call_args(start, cx, st);
            let st = verify_call_args(end, cx, st);
            let (a, st) = check_value(start, cx, st);
            let (b, st) = check_value(end, cx, st);
            if !is_integer(&a.expr.ty) || !is_integer(&b.expr.ty) {
                let message = cat4(
                    "for-loop range bounds must be integers, got ",
                    &type_text(&a.expr.ty),
                    " and ",
                    &type_text(&b.expr.ty),
                );
                (false, body, report(st, *span, message))
            } else {
                match promoted_integer_type(&a, &b, st) {
                    (None, st) => (false, body, st),
                    (Some(t), st) => {
                        let (a, st) = coerce_numeric_operand(a, &t, st);
                        let (b, st) = coerce_numeric_operand(b, &t, st);
                        let pre_env = st.env.dup();
                        let (stmts, st) = check_range_body(s, &t, f, loops, cx, st);
                        let (reds, st) = resolve_reductions(reductions, &pre_env, Vec::new(), st);
                        let st = if *parallel {
                            verify_pure_body_with_reductions(
                                &stmts,
                                cx,
                                "'parallel for' body",
                                &reds,
                                st,
                            )
                        } else {
                            st
                        };
                        let stmt = TypedStmt::For {
                            var: var.clone(),
                            ty: t,
                            start: a.expr,
                            end: b.expr,
                            body: stmts,
                            parallel: *parallel,
                            reductions: reds,
                        };
                        (false, push(body, stmt), st)
                    },
                }
            }
        },
        _ => (false, body, st),
    }
}

/// What [`check_for_iter`] computes.
pub open spec fn check_for_iter_spec(
    s: StmtView,
    f: FunctionView,
    loops: Seq<LoopFrameView>,
    cx: ContextView,
    body: Seq<TypedStmtView>,
    st: StateView,
) -> (bool, Seq<TypedStmtView>, StateView)
    decreases s, 1int,
{
    match s {
        StmtView::ForIter {
            var,
            collection,
            consumes,
            body: inner,
            span,
        } => match crate::scope::lookup_spec(st.env, collection) {
            None => (
                false,
                body,
                crate::scope::report_spec(st, span, "unknown variable '"@ + collection + "'"@),
            ),
            Some(info) => {
                let st = if info.moved.is_some() {
                    crate::scope::report_spec(
                        st,
                        span,
                        "cannot iterate over '"@ + collection + "' after it was moved"@,
                    )
                } else {
                    st
                };
                match crate::statements::iterated_element_spec(crate::types::deref_spec(info.ty)) {
                    None => {
                        let message = "'for x in &xs' requires an array or Vec; '"@ + collection
                            + "' has type "@
                            + crate::ast::type_text_spec(crate::types::deref_spec(info.ty));
                        (false, body, crate::scope::report_spec(st, span, message))
                    },
                    Some(element) => {
                        let borrowed = crate::types::is_any_ref_spec(info.ty);
                        let st = if consumes && borrowed {
                            let message = "cannot move '"@ + collection
                                + "' for iteration: it is a borrow; use '&"@ + collection
                                + "' to iterate"@;
                            crate::scope::report_spec(st, span, message)
                        } else {
                            st
                        };
                        let pre_env = if consumes && !borrowed {
                            crate::moves::mark_moved_spec(st.env, collection, span)
                        } else {
                            st.env
                        };
                        let pre_facts = (st.facts);
                        let view = VarInfoView {
                            no_drop: !consumes && !crate::scope::copies_spec(element, cx),
                            ..crate::scope::fresh_var_spec(element, None, span)
                        };
                        let env = crate::scope::insert_current_spec(
                            crate::scope::push_scope_spec(pre_env),
                            var,
                            view,
                        );
                        let (terminated, stmts, st) = check_loop_body_spec(
                            inner,
                            pre_env,
                            f,
                            loops,
                            cx,
                            StateView { env, ..st },
                        );
                        let (stmts, st) = crate::statements::leave_loop_spec(
                            pre_env,
                            inner,
                            terminated,
                            stmts,
                            pre_facts,
                            span,
                            "for-iter body changes the move state"@,
                            cx,
                            st,
                        );
                        let stmt = TypedStmtView::ForIter {
                            var: var,
                            element_ty: element,
                            collection: collection,
                            collection_ty: info.ty,
                            consumes: consumes,
                            body: stmts,
                        };
                        (false, body.push(stmt), st)
                    },
                }
            },
        },
        _ => (false, body, st),
    }
}

/// `for var in collection { .. }`, which may take the collection over.
pub fn check_for_iter(
    s: &Stmt,
    f: &Function,
    loops: &Vec<LoopFrame>,
    cx: &Context,
    body: Vec<TypedStmt>,
    st: State,
) -> (r: (bool, Vec<TypedStmt>, State))
    ensures
        (r.0, crate::ir::typed_stmts_view(r.1@), r.2@) == check_for_iter_spec(
            s@,
            f@,
            crate::state::loop_frames_view(loops@),
            cx@,
            crate::ir::typed_stmts_view(body@),
            st@,
        ),
        r.0 ==> crate::statements::always_leaves(crate::ir::typed_stmts_view(r.1@)),
        crate::state::grows(crate::ir::typed_stmts_view(body@), crate::ir::typed_stmts_view(r.1@)),
        crate::state::follows(st@, r.2@),
        crate::state::balanced(st@, r.2@),
        crate::typing::body_typed(
            crate::ir::typed_stmts_view(body@),
            f@.return_type,
            crate::typing::declared_in(cx@, st@.env),
        )
            && st@.env.scopes.len() > 0
            && crate::typing::quiet(st@, r.2@)
            ==> crate::typing::body_typed(
                crate::ir::typed_stmts_view(r.1@),
                f@.return_type,
                crate::typing::declared_in(cx@, st@.env),
            ),
    decreases s, 1int,
{
    let ghost before = st@;
    proof {
        reveal(crate::typing::stmt_typed);
    }
    match s {
        Stmt::ForIter {
            var,
            collection,
            consumes,
            body: inner,
            span,
        } => match lookup(&st.env, collection) {
            None => (false, body, report(st, *span, cat3("unknown variable '", collection, "'"))),
            Some(info) => {
                let st = if info.moved.is_some() {
                    report(
                        st,
                        *span,
                        cat3("cannot iterate over '", collection, "' after it was moved"),
                    )
                } else {
                    st
                };
                match iterated_element(&deref(&info.ty)) {
                    None => {
                        let message = cat4(
                            "'for x in &xs' requires an array or Vec; '",
                            collection,
                            "' has type ",
                            &type_text(&deref(&info.ty)),
                        );
                        (false, body, report(st, *span, message))
                    },
                    Some(element) => {
                        let borrowed = is_any_ref(&info.ty);
                        let st = if *consumes && borrowed {
                            let message = cat5(
                                "cannot move '",
                                collection,
                                "' for iteration: it is a borrow; use '&",
                                collection,
                                "' to iterate",
                            );
                            report(st, *span, message)
                        } else {
                            st
                        };
                        let pre_env = if *consumes && !borrowed {
                            mark_moved(st.env, collection, *span)
                        } else {
                            st.env
                        };
                        let pre_facts = dup_exprs(&st.facts);
                        let view = VarInfo {
                            no_drop: !*consumes && !copies(&element, cx),
                            ..fresh_var(element.dup(), None, *span)
                        };
                        let env = insert_current(push_scope(pre_env.dup()), var, &view);
                        let (terminated, stmts, st) = check_loop_body(
                            inner,
                            &pre_env,
                            f,
                            loops,
                            cx,
                            State { env, ..st },
                        );
                        proof {
                            assert(
                                before.env.scopes.len() > 0
                                    ==> crate::typing::declared_in(cx@, st@.env) == crate::typing::declared_in(
                                        cx@,
                                        before.env,
                                    )
                            );
                        }
                        let (stmts, st) = leave_loop(
                            &pre_env,
                            inner,
                            terminated,
                            stmts,
                            pre_facts,
                            *span,
                            "for-iter body changes the move state",
                            cx,
                            st,
                        );
                        let stmt = TypedStmt::ForIter {
                            var: var.clone(),
                            element_ty: element,
                            collection: collection.clone(),
                            collection_ty: info.ty,
                            consumes: *consumes,
                            body: stmts,
                        };
                        (false, push(body, stmt), st)
                    },
                }
            },
        },
        _ => (false, body, st),
    }
}

/// What [`check_task_spawn`] computes.
pub open spec fn check_task_spawn_spec(
    s: StmtView,
    f: FunctionView,
    loops: Seq<LoopFrameView>,
    cx: ContextView,
    body: Seq<TypedStmtView>,
    st: StateView,
) -> (bool, Seq<TypedStmtView>, StateView)
    decreases s, 1int,
{
    match s {
        StmtView::TaskSpawn { name, body: inner, span } => {
            let st = if crate::scope::current_has_spec(st.env, name) {
                let message = "task '"@ + name
                    + "' shadows an existing binding declared in the same scope"@;
                crate::scope::report_spec(st, span, message)
            } else {
                st
            };
            let facts = (st.facts);
            let env = crate::scope::push_scope_spec(st.env);
            let (_, stmts, st) = check_stmt_list_spec(inner, f, loops, cx, StateView { env, ..st });
            let stmts = crate::effects::emit_current_scope_drops_spec(st.env, cx, stmts);
            let st = StateView { env: crate::scope::pop_scope_spec(st.env), facts, ..st };
            let st = crate::statements::verify_task_body_spec(stmts, cx, st);
            let names = crate::statements::captured_names_spec(stmts);
            let (captures, st) = crate::statements::capture_types_spec(
                names,
                span,
                cx,
                Seq::empty(),
                st,
                0,
            );
            let env = crate::scope::insert_current_spec(
                st.env,
                name,
                crate::scope::fresh_var_spec(TypeView::Task, None, span),
            );
            let stmt = TypedStmtView::TaskSpawn { name: name, body: stmts, captures };
            (false, body.push(stmt), StateView { env, ..st })
        },
        _ => (false, body, st),
    }
}

/// `task name { .. }`.
pub fn check_task_spawn(
    s: &Stmt,
    f: &Function,
    loops: &Vec<LoopFrame>,
    cx: &Context,
    body: Vec<TypedStmt>,
    st: State,
) -> (r: (bool, Vec<TypedStmt>, State))
    ensures
        (r.0, crate::ir::typed_stmts_view(r.1@), r.2@) == check_task_spawn_spec(
            s@,
            f@,
            crate::state::loop_frames_view(loops@),
            cx@,
            crate::ir::typed_stmts_view(body@),
            st@,
        ),
        r.0 ==> crate::statements::always_leaves(crate::ir::typed_stmts_view(r.1@)),
        crate::state::grows(crate::ir::typed_stmts_view(body@), crate::ir::typed_stmts_view(r.1@)),
        crate::state::follows(st@, r.2@),
        crate::state::balanced(st@, r.2@),
        crate::typing::body_typed(
            crate::ir::typed_stmts_view(body@),
            f@.return_type,
            crate::typing::declared_in(cx@, st@.env),
        )
            && st@.env.scopes.len() > 0
            && crate::typing::quiet(st@, r.2@)
            ==> crate::typing::body_typed(
                crate::ir::typed_stmts_view(r.1@),
                f@.return_type,
                crate::typing::declared_in(cx@, st@.env),
            ),
    decreases s, 1int,
{
    proof {
        reveal(crate::typing::stmt_typed);
    }
    match s {
        Stmt::TaskSpawn { name, body: inner, span } => {
            let st = if current_has(&st.env, name) {
                let message = cat3(
                    "task '",
                    name,
                    "' shadows an existing binding declared in the same scope",
                );
                report(st, *span, message)
            } else {
                st
            };
            let facts = dup_exprs(&st.facts);
            let env = push_scope(st.env);
            let (_, stmts, st) = check_stmt_list(inner, f, loops, cx, State { env, ..st });
            let stmts = emit_current_scope_drops(&st.env, cx, stmts);
            let st = State { env: pop_scope(st.env), facts, ..st };
            let st = verify_task_body(&stmts, cx, st);
            let names = captured_names(&stmts);
            let (captures, st) = capture_types(&names, *span, cx, Vec::new(), st);
            let env = insert_current(st.env, name, &fresh_var(Type::Task, None, *span));
            let stmt = TypedStmt::TaskSpawn { name: name.clone(), body: stmts, captures };
            (false, push(body, stmt), State { env, ..st })
        },
        _ => (false, body, st),
    }
}

} // verus!
