//! What is known where the statements of branches and loops are checked, and
//! after them.

use vstd::prelude::*;
use crate::ast::{BinaryOp, ExprKindView, ExprView, FunctionView, Span, StmtView};
use crate::ir::{TypedExprView, TypedStmtView};
use crate::state::{ContextView, LoopFrameView, StateView};

verus! {

broadcast use {
    crate::text::group_text_views,
    crate::ast::group_ast_views,
    crate::diagnostic::group_diagnostic_views,
    crate::ir::group_ir_views,
    crate::state::group_state_views,
    crate::state::group_grows,
};

/// Whether statements were checked from a state on, and what came of them is
/// the first of `out`.
pub open spec fn was_checked(
    ss: Seq<StmtView>,
    f: FunctionView,
    loops: Seq<LoopFrameView>,
    cx: ContextView,
    st: StateView,
    leaves: bool,
    out: Seq<TypedStmtView>,
) -> bool {
    let r = crate::body::check_stmt_list_spec(ss, f, loops, cx, st);
    r.0 == leaves && crate::state::grows(r.1, out)
}

/// Each branch of an `if` is checked knowing whether the condition holds there;
/// and where exactly one branch always leaves, it is known afterwards that the
/// other one was taken.
pub open spec fn branches_know(
    s: StmtView,
    f: FunctionView,
    loops: Seq<LoopFrameView>,
    cx: ContextView,
    facts: Seq<ExprView>,
    out: Seq<TypedStmtView>,
    after: Seq<ExprView>,
) -> bool {
    match (s, out.last()) {
        (
            StmtView::If { cond, then_body, else_body, .. },
            TypedStmtView::If { then_body: first, else_body: second, .. },
        ) => out.len() > 0 && branch_bodies_know(cond, then_body, else_body, f, loops, cx, facts, first, second, after),
        _ => false,
    }
}

/// [`branches_know`], on the parts of the statement.
pub open spec fn branch_bodies_know(
    cond: ExprView,
    then_body: Seq<StmtView>,
    else_body: Seq<StmtView>,
    f: FunctionView,
    loops: Seq<LoopFrameView>,
    cx: ContextView,
    facts: Seq<ExprView>,
    first: Seq<TypedStmtView>,
    second: Seq<TypedStmtView>,
    after: Seq<ExprView>,
) -> bool {
    exists|a: StateView, b: StateView, t: bool, e: bool|
        #![
            trigger was_checked(then_body, f, loops, cx, a, t, first),
            was_checked(else_body, f, loops, cx, b, e, second),
        ]
        was_checked(then_body, f, loops, cx, a, t, first)
            && was_checked(else_body, f, loops, cx, b, e, second)
            && crate::meaning::knows_more(facts, a.facts, seq![cond], Seq::empty())
                && crate::meaning::knows_more(
            facts,
            b.facts,
            Seq::empty(),
            seq![cond],
        ) && (t && !e ==> crate::meaning::knows_more(facts, after, Seq::empty(), seq![cond])) && (!t
            && e ==> crate::meaning::knows_more(
            facts,
            after,
            seq![cond],
            Seq::empty(),
        )) && (t == e ==> after == facts)
}

/// [`branches_know`] of an `if` whose branches were checked so.
pub proof fn both_branches_know(
    s: StmtView,
    f: FunctionView,
    loops: Seq<LoopFrameView>,
    cx: ContextView,
    facts: Seq<ExprView>,
    t: bool,
    e: bool,
    first: Seq<TypedStmtView>,
    second: Seq<TypedStmtView>,
    body: Seq<TypedStmtView>,
    c: TypedExprView,
    then_stmts: Seq<TypedStmtView>,
    else_stmts: Seq<TypedStmtView>,
    after: Seq<ExprView>,
)
    requires
        s matches StmtView::If { cond, then_body, else_body, .. }
            && (exists|a: StateView| #[trigger]
            was_checked(then_body, f, loops, cx, a, t, first)
                && a.facts == facts.push(cond)) && (exists|b: StateView|
            #[trigger] was_checked(else_body, f, loops, cx, b, e, second) && b.facts == facts.push(crate::rewrite::negate_spec(cond)))
            && (t && !e ==> crate::meaning::knows_more(facts, after, Seq::empty(), seq![cond]))
                && (!t && e ==> crate::meaning::knows_more(
            facts,
            after,
            seq![cond],
            Seq::empty(),
        )) && (t == e ==> after == facts),
        crate::state::grows(first, then_stmts),
        crate::state::grows(second, else_stmts),
    ensures
        branches_know(
            s,
            f,
            loops,
            cx,
            facts,
            body.push(TypedStmtView::If { cond: c, then_body: then_stmts, else_body: else_stmts }),
            after,
        ),
{
    broadcast use crate::state::group_grows;

    if let StmtView::If { cond, then_body, else_body, .. } = s {
        let a = choose|a: StateView| #[trigger]
            was_checked(then_body, f, loops, cx, a, t, first) && a.facts == facts.push(cond);
        let b = choose|b: StateView| #[trigger]
            was_checked(else_body, f, loops, cx, b, e, second)
                && b.facts == facts.push(crate::rewrite::negate_spec(cond));
        crate::meaning::knows_a_condition(facts, cond);
        assert(was_checked(then_body, f, loops, cx, a, t, then_stmts));
        assert(was_checked(else_body, f, loops, cx, b, e, else_stmts));
        let stmt = TypedStmtView::If { cond: c, then_body: then_stmts, else_body: else_stmts };
        assert(
            branch_bodies_know(
                cond,
                then_body,
                else_body,
                f,
                loops,
                cx,
                facts,
                then_stmts,
                else_stmts,
                after,
            )
        );
        assert(body.push(stmt).last() == stmt);
    }
}

/// The body of a `while` loop is checked knowing the invariants and the
/// condition; and after the loop the invariants are known, and that the
/// condition fails, unless a `break` may have left it.
pub open spec fn loop_knows(
    s: StmtView,
    f: FunctionView,
    cx: ContextView,
    facts: Seq<ExprView>,
    out: Seq<TypedStmtView>,
    after: Seq<ExprView>,
) -> bool {
    match (s, out.last()) {
        (
            StmtView::While { cond, invariants, body, .. },
            TypedStmtView::While { body: inner, .. },
        ) => out.len() > 0
            && body_knows(body, f, cx, facts, inner, invariants + seq![cond])
                && crate::meaning::knows_more(
            facts,
            after,
            invariants,
            if crate::rewrite::contains_break_spec(body) {
                Seq::empty()
            } else {
                seq![cond]
            },
        ),
        _ => false,
    }
}

/// Whether the body of a loop is checked knowing what holds in each round.
pub open spec fn body_knows(
    body: Seq<StmtView>,
    f: FunctionView,
    cx: ContextView,
    facts: Seq<ExprView>,
    inner: Seq<TypedStmtView>,
    known: Seq<ExprView>,
) -> bool {
    exists|a: StateView, ls: Seq<LoopFrameView>, t: bool|
        #[trigger] was_checked(body, f, ls, cx, a, t, inner) && crate::meaning::knows_more(facts, a.facts, known, Seq::empty())
}

/// [`loop_knows`] of a loop whose body was checked so.
pub proof fn while_knows(
    s: StmtView,
    f: FunctionView,
    cx: ContextView,
    facts: Seq<ExprView>,
    a: StateView,
    t: bool,
    first: Seq<TypedStmtView>,
    body: Seq<TypedStmtView>,
    c: TypedExprView,
    stmts: Seq<TypedStmtView>,
    after: Seq<ExprView>,
)
    requires
        s matches StmtView::While { cond, invariants, body: inner, .. }
            && (exists|ls: Seq<LoopFrameView>| #[trigger]
            was_checked(inner, f, ls, cx, a, t, first)) && a.facts == (facts + invariants).push(cond) && after == (
        if crate::rewrite::contains_break_spec(inner) {
            facts + invariants
        } else {
            (facts + invariants).push(crate::rewrite::negate_spec(cond))
        }),
        crate::state::grows(first, stmts),
    ensures
        loop_knows(
            s,
            f,
            cx,
            facts,
            body.push(TypedStmtView::While { cond: c, body: stmts }),
            after,
        ),
{
    broadcast use crate::state::group_grows;

    if let StmtView::While { cond, invariants, body: inner, .. } = s {
        let ls = choose|ls: Seq<LoopFrameView>| #[trigger] was_checked(
            inner,
            f,
            ls,
            cx,
            a,
            t,
            first,
        );
        let none = Seq::<ExprView>::empty();
        let mid = facts + invariants;
        crate::meaning::knows_conditions(facts, invariants);
        crate::meaning::knows_a_condition(mid, cond);
        crate::meaning::knows_both(facts, mid, mid.push(cond), invariants, none, seq![cond], none);
        assert(none + none =~= none);
        assert(was_checked(inner, f, ls, cx, a, t, stmts));
        let stmt = TypedStmtView::While { cond: c, body: stmts };
        assert(body_knows(inner, f, cx, facts, stmts, invariants + seq![cond]));
        assert(body.push(stmt).last() == stmt);
        if !crate::rewrite::contains_break_spec(inner) {
            crate::meaning::knows_both(facts, mid, after, invariants, none, none, seq![cond]);
            assert(invariants + none =~= invariants);
            assert(none + seq![cond] =~= seq![cond]);
        }
    }
}

/// The body of a loop over a range is checked knowing the invariants and that
/// the variable lies in the range; and after the loop the invariants are known,
/// and that the variable reached the end, unless a `break` may have left it.
pub open spec fn range_knows(
    s: StmtView,
    f: FunctionView,
    cx: ContextView,
    facts: Seq<ExprView>,
    inner: Seq<TypedStmtView>,
    after: Seq<ExprView>,
) -> bool {
    s matches StmtView::For { var, start, end, invariants, body, span, .. } && body_knows(
        body,
        f,
        cx,
        facts,
        inner,
        invariants
            + seq![
                compared(BinaryOp::Ge, var, start, span),
                compared(BinaryOp::Lt, var, end, span),
            ],
    ) && crate::meaning::knows_more(
        facts,
        after,
        if crate::rewrite::contains_break_spec(body) {
            invariants
        } else {
            invariants + seq![compared(BinaryOp::Ge, var, end, span)]
        },
        Seq::empty(),
    )
}

/// A variable compared with a bound.
pub open spec fn compared(op: BinaryOp, var: Seq<char>, bound: ExprView, span: Span) -> ExprView {
    ExprView {
        kind: ExprKindView::Binary {
            op,
            left: Box::new(ExprView { kind: ExprKindView::Var(var), span }),
            right: Box::new(bound),
        },
        span,
    }
}

/// [`range_knows`] of a loop whose body was checked so.
pub proof fn counted_loop_knows(
    s: StmtView,
    f: FunctionView,
    cx: ContextView,
    facts: Seq<ExprView>,
    a: StateView,
    t: bool,
    first: Seq<TypedStmtView>,
    stmts: Seq<TypedStmtView>,
    after: Seq<ExprView>,
)
    requires
        s matches StmtView::For { var, start, end, invariants, body, span, .. }
            && (exists|ls: Seq<LoopFrameView>|
            #[trigger] was_checked(body, f, ls, cx, a, t, first)) && a.facts == (facts + invariants).push(
            compared(BinaryOp::Ge, var, start, span),
        ).push(compared(BinaryOp::Lt, var, end, span)) && after == (if crate::rewrite::contains_break_spec(body) {
            facts + invariants
        } else {
            (facts + invariants).push(compared(BinaryOp::Ge, var, end, span))
        }),
        crate::state::grows(first, stmts),
    ensures
        range_knows(s, f, cx, facts, stmts, after),
{
    broadcast use crate::state::group_grows;

    if let StmtView::For { var, start, end, invariants, body, span, .. } = s {
        let ls = choose|ls: Seq<LoopFrameView>| #[trigger] was_checked(
            body,
            f,
            ls,
            cx,
            a,
            t,
            first,
        );
        let none = Seq::<ExprView>::empty();
        let low = compared(BinaryOp::Ge, var, start, span);
        let high = compared(BinaryOp::Lt, var, end, span);
        let over = compared(BinaryOp::Ge, var, end, span);
        assert(a.facts =~= facts + (invariants + seq![low, high]));
        crate::meaning::knows_conditions(facts, invariants + seq![low, high]);
        assert(was_checked(body, f, ls, cx, a, t, stmts));
        assert(body_knows(body, f, cx, facts, stmts, invariants + seq![low, high]));
        crate::meaning::knows_conditions(facts, invariants);
        assert((facts + invariants).push(over) =~= facts + (invariants + seq![over]));
        crate::meaning::knows_conditions(facts, invariants + seq![over]);
    }
}

} // verus!
